//! Deployment of a local project: from its configuration and its source
//! file to the record that is uploaded, one step at a time.

use vstd::prelude::*;
use crate::error::{local_error, local_error_of, remote_error, remote_error_of, ErrorKind, Fault};
use crate::record::{
    bytes_of,
    DeployResult,
    FunctionRecord,
    FunctionRecordView,
    LocalProjectConfig,
    LocalProjectConfigView,
};
use crate::request::{Body, BodyView, Method, Request, RequestView, DEPLOY_URL};
use crate::scaffold::{main_file_of, template_of, Template, CONFIG_FILE};

verus! {

/// The file that holds the source of a project with the given template
/// string: `main.ts` for `"deno"`, `main.mjs` for `"node"`, and no name at
/// all for anything else.
pub open spec fn source_file_of(template: Seq<char>) -> Seq<char> {
    match template_of(template) {
        Some(kind) => main_file_of(kind),
        None => ""@,
    }
}

/// The record of a project as it is first uploaded: the configuration's
/// name, description, owner and template, the source as content, and as
/// yet no address, no transaction and no on-chain object.
pub open spec fn record_of(config: LocalProjectConfigView, content: Seq<char>) -> FunctionRecordView {
    FunctionRecordView {
        name: config.name,
        description: config.description,
        url: None,
        content,
        txn_hash: None,
        owner: config.owner,
        object_id: ""@,
        template: config.template,
    }
}

/// The request that uploads a record.
pub open spec fn upload_of(record: FunctionRecordView) -> RequestView {
    RequestView {
        method: Method::Post,
        url: DEPLOY_URL@,
        body: BodyView::Record { record },
    }
}

/// Names the file that holds a project's source. An unknown template
/// gives the empty name, which no file has, so that reading it fails.
pub fn source_file(template: &str) -> (file: String)
    ensures
        file@ == source_file_of(template@),
{
    match Template::parse(template) {
        Some(kind) => kind.main_file().to_owned(),
        None => "".to_owned(),
    }
}

/// Builds the record to upload from a project's configuration and the
/// whole content of its source file.
pub fn function_record(config: LocalProjectConfig, content: String) -> (record: FunctionRecord)
    ensures
        record@ == record_of(config@, content@),
{
    FunctionRecord {
        name: config.name,
        description: config.description,
        url: None,
        content,
        txn_hash: None,
        owner: config.owner,
        object_id: "".to_owned(),
        template: config.template,
    }
}

/// Plans the upload of a record: one POST to the deploy address with the
/// record as its body.
pub fn upload(move_func: FunctionRecord) -> (request: Request)
    ensures
        request@ == upload_of(move_func@),
{
    Request {
        method: Method::Post,
        url: DEPLOY_URL.to_owned(),
        body: Body::Record { record: move_func },
    }
}

/// How far a deployment has come, with what the last step brought.
#[derive(Debug, PartialEq, Eq)]
pub enum DeployStage {
    /// Nothing has happened yet.
    Begin,
    /// The configuration file was read and parsed, or that failed.
    Config { parsed: Result<LocalProjectConfig, Fault> },
    /// The source file was read, or that failed.
    Source { config: LocalProjectConfig, read: Result<String, Fault> },
    /// The upload was answered, or that failed.
    Response { received: Result<DeployResult, Fault> },
}

/// What a shell has to do next for a deployment.
#[derive(Debug, PartialEq, Eq)]
pub enum DeployStep {
    /// Read the file at `path` and parse it as a project configuration.
    ReadConfig { path: String },
    /// Read the whole file at `path` as text; keep `config` for the next
    /// stage.
    ReadSource { path: String, config: LocalProjectConfig },
    /// Send `request` once and decode the answer as a deploy result.
    Upload { request: Request },
    /// The deployment is over; `result` is what the service said.
    Finish { result: DeployResult },
    /// The deployment failed. Nothing is tried again.
    Fail { error: ErrorKind },
}

/// The step that follows a stage of a deployment.
pub open spec fn deploy_follows(stage: DeployStage, step: DeployStep) -> bool {
    match stage {
        DeployStage::Begin => {
            &&& step matches DeployStep::ReadConfig { path }
            &&& path@ == CONFIG_FILE@
        },
        DeployStage::Config { parsed: Err(fault) } => {
            &&& step matches DeployStep::Fail { error }
            &&& error == local_error_of(fault)
        },
        DeployStage::Config { parsed: Ok(loaded) } => {
            &&& step matches DeployStep::ReadSource { path, config }
            &&& path@ == source_file_of(loaded.template@)
            &&& config@ == loaded@
        },
        DeployStage::Source { config, read: Err(fault) } => {
            &&& step matches DeployStep::Fail { error }
            &&& error == ErrorKind::FileSystemError
        },
        DeployStage::Source { config, read: Ok(content) } => {
            &&& step matches DeployStep::Upload { request }
            &&& request@ == upload_of(record_of(config@, content@))
        },
        DeployStage::Response { received: Err(fault) } => {
            &&& step matches DeployStep::Fail { error }
            &&& error == remote_error_of(fault)
        },
        DeployStage::Response { received: Ok(answer) } => {
            &&& step matches DeployStep::Finish { result }
            &&& result@ == answer@
        },
    }
}

/// Plans the `deploy` command, one step at a time. A shell starts with
/// `DeployStage::Begin`, performs the step that comes back, reports the
/// outcome as the next stage, and goes on until the step is `Finish` or
/// `Fail`.
///
/// The configuration is read from `config.toml`. Its template decides
/// which file holds the source. The whole content of that file goes into
/// the record, which is sent to the deploy address once. A source file
/// that cannot be read is a file-system error whatever the fault, since
/// its content has no format of its own.
pub fn deploy_action(stage: DeployStage) -> (step: DeployStep)
    ensures
        deploy_follows(stage, step),
{
    match stage {
        DeployStage::Begin => DeployStep::ReadConfig { path: CONFIG_FILE.to_owned() },
        DeployStage::Config { parsed } => match parsed {
            Ok(config) => {
                let path = source_file(config.template.as_str());
                DeployStep::ReadSource { path, config }
            },
            Err(fault) => DeployStep::Fail { error: local_error(fault) },
        },
        DeployStage::Source { config, read } => match read {
            Ok(content) => DeployStep::Upload { request: upload(function_record(config, content)) },
            Err(_) => DeployStep::Fail { error: ErrorKind::FileSystemError },
        },
        DeployStage::Response { received } => match received {
            Ok(result) => DeployStep::Finish { result },
            Err(fault) => DeployStep::Fail { error: remote_error(fault) },
        },
    }
}

/// The record that is uploaded carries the name, the description, the
/// owner and the template of the configuration, each unchanged, and as
/// content the source file byte for byte; the upload carries that record
/// and nothing else.
pub proof fn lemma_upload_carries_project(config: LocalProjectConfigView, content: Seq<char>)
    ensures
        record_of(config, content).name == config.name,
        record_of(config, content).template == config.template,
        record_of(config, content).owner == config.owner,
        record_of(config, content).description == config.description,
        record_of(config, content).content == content,
        bytes_of(record_of(config, content).content) == bytes_of(content),
        upload_of(record_of(config, content)).body == (BodyView::Record {
            record: record_of(config, content),
        }),
{
}

/// A deployment that has read its source goes on to upload exactly that
/// source: whatever step follows, it is an upload whose record holds the
/// bytes that were read, under the name that the configuration gives.
pub proof fn lemma_deploy_uploads_what_was_read(
    config: LocalProjectConfig,
    content: String,
    step: DeployStep,
)
    requires
        deploy_follows(DeployStage::Source { config, read: Ok(content) }, step),
    ensures
        ({
            &&& step matches DeployStep::Upload { request }
            &&& request@.method == Method::Post
            &&& request@.url == DEPLOY_URL@
            &&& request@.body matches BodyView::Record { record }
            &&& bytes_of(record.content) == bytes_of(content@)
            &&& record.name == config.name@
            &&& record.template == config.template@
            &&& record.owner == config.owner@
            &&& record.description == config.description@
        }),
{
}

/// The source file of a project is the handler file that `create` wrote
/// for its template.
pub proof fn lemma_source_file_is_handler(kind: Template)
    ensures
        source_file_of(crate::scaffold::template_name_of(kind)) == main_file_of(kind),
{
    crate::scaffold::lemma_template_names(kind);
}

} // verus!
