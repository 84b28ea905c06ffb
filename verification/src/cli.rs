//! The command line as data, and the first step of each command.

use vstd::prelude::*;
use crate::chain::{verify_action, verify_follows, VerifyStage, VerifyStep};
use crate::deploy::{deploy_action, deploy_follows, DeployStage, DeployStep};
use crate::invoke::{call_action, call_request_of, json_string_of};
use crate::record::optional_text;
use crate::registry::{info_action, list_request};
use crate::request::{get_of, member_url_of, Request, FUNCTIONS_URL};
use crate::scaffold::{create_action, create_plan_of, optional_scaffold, Scaffold};

verus! {

/// What `run` says: running locally is not there yet.
pub const RUN_NOTICE: &'static str = "This command is still WIP";

/// The parsed command line. Without a subcommand there is nothing to do.
#[derive(Debug, PartialEq, Eq)]
pub struct Cli {
    pub command: Option<Commands>,
}

/// The subcommands.
#[allow(inconsistent_fields)]
#[derive(Debug, PartialEq, Eq)]
pub enum Commands {
    /// create the function
    Create {
        /// the function name
        name: String,
        /// the function template
        template: String,
    },
    /// deploy the function to runtime and blockchain
    Deploy,
    /// local run
    Run,
    /// remote call the function
    Call {
        /// the function name
        name: String,
        /// the post body, it's json string
        body: String,
    },
    /// list the functions
    List {
        /// the functions of owner
        owner: Option<String>,
        /// the functions in template
        template: Option<String>,
    },
    /// show the function info
    Info {
        /// the function name
        name: String,
    },
    /// verify the runtime function, which should equal to the on-chain code.
    Verify { name: String },
}

/// What a shell has to do first for a command line.
#[allow(inconsistent_fields)]
#[derive(Debug, PartialEq, Eq)]
pub enum Task {
    /// Nothing.
    Idle,
    /// Put `plan` on disk, if there is one.
    Create { plan: Option<Scaffold> },
    /// Take the first step of a deployment.
    Deploy { step: DeployStep },
    /// Print `notice`.
    Run { notice: String },
    /// Send `request` and show the answer as it comes.
    Call { request: Request },
    /// Send `request`, decode the answer as a list of records, and show
    /// what `list_action` makes of it under the two filters.
    List { request: Request, owner: Option<String>, template: Option<String> },
    /// Send `request`, decode the answer as a record, and show it as the
    /// record of the function `name`.
    Info { name: String, request: Request },
    /// Take the first step of the verification of the function `name`.
    Verify { name: String, step: VerifyStep },
}

/// The task that a command line asks for.
pub open spec fn dispatch_follows(cli: Cli, task: Task) -> bool {
    match cli.command {
        None => task is Idle,
        Some(Commands::Create { name, template }) => {
            &&& task matches Task::Create { plan }
            &&& optional_scaffold(plan) == create_plan_of(name@, template@)
        },
        Some(Commands::Deploy) => {
            &&& task matches Task::Deploy { step }
            &&& deploy_follows(DeployStage::Begin, step)
        },
        Some(Commands::Run) => {
            &&& task matches Task::Run { notice }
            &&& notice@ == RUN_NOTICE@
        },
        Some(Commands::Call { name, body }) => {
            &&& task matches Task::Call { request }
            &&& request@ == call_request_of(name@, json_string_of(body@))
        },
        Some(Commands::List { owner, template }) => {
            &&& task matches Task::List { request, owner: by_owner, template: by_template }
            &&& request@ == get_of(FUNCTIONS_URL@)
            &&& optional_text(by_owner) == optional_text(owner)
            &&& optional_text(by_template) == optional_text(template)
        },
        Some(Commands::Info { name }) => {
            &&& task matches Task::Info { name: shown, request }
            &&& shown@ == name@
            &&& request@ == get_of(member_url_of(FUNCTIONS_URL@, name@))
        },
        Some(Commands::Verify { name }) => {
            &&& task matches Task::Verify { name: shown, step }
            &&& shown@ == name@
            &&& verify_follows(VerifyStage::Begin { name }, step)
        },
    }
}

/// Maps a command line onto the component that serves it. Each run
/// stands alone: no command leaves state behind for another.
pub fn dispatch(cli: Cli) -> (task: Task)
    ensures
        dispatch_follows(cli, task),
{
    match cli.command {
        None => Task::Idle,
        Some(Commands::Create { name, template }) => Task::Create {
            plan: create_action(name, template),
        },
        Some(Commands::Deploy) => Task::Deploy { step: deploy_action(DeployStage::Begin) },
        Some(Commands::Run) => Task::Run { notice: RUN_NOTICE.to_owned() },
        Some(Commands::Call { name, body }) => Task::Call { request: call_action(name, body) },
        Some(Commands::List { owner, template }) => Task::List {
            request: list_request(),
            owner,
            template,
        },
        Some(Commands::Info { name }) => Task::Info {
            name: name.clone(),
            request: info_action(name),
        },
        Some(Commands::Verify { name }) => Task::Verify {
            name: name.clone(),
            step: verify_action(VerifyStage::Begin { name }),
        },
    }
}

} // verus!
