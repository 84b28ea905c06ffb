use faas3::deploy::{deploy_action, function_record, source_file, upload, DeployStage, DeployStep};
use faas3::error::{ErrorKind, Fault};
use faas3::record::{DeployError, DeployResult, FunctionRecord, LocalProjectConfig};
use faas3::request::{Body, Method, Request};

fn config(template: &str) -> LocalProjectConfig {
    LocalProjectConfig {
        template: template.to_string(),
        name: "foo".to_string(),
        description: "says moo".to_string(),
        owner: "0xabc".to_string(),
        version: "0.0.1".to_string(),
    }
}

fn expected_record(template: &str, content: &str) -> FunctionRecord {
    FunctionRecord {
        name: "foo".to_string(),
        description: "says moo".to_string(),
        url: None,
        content: content.to_string(),
        txn_hash: None,
        owner: "0xabc".to_string(),
        object_id: String::new(),
        template: template.to_string(),
    }
}

#[test]
fn source_file_follows_the_template() {
    assert_eq!(source_file("deno"), "main.ts");
    assert_eq!(source_file("node"), "main.mjs");
}

#[test]
fn source_file_is_empty_for_unknown_templates() {
    assert_eq!(source_file("python"), "");
    assert_eq!(source_file(""), "");
    assert_eq!(source_file("Node"), "");
}

#[test]
fn function_record_takes_config_and_content() {
    let record = function_record(config("deno"), "export {}\n".to_string());
    assert_eq!(record, expected_record("deno", "export {}\n"));
}

#[test]
fn function_record_keeps_the_content_whole() {
    let content = "line one\r\n\tline two \u{1f600}\n\n";
    let record = function_record(config("node"), content.to_string());
    assert_eq!(record.content, content);
    assert_eq!(record.content.as_bytes(), content.as_bytes());
    let empty = function_record(config("node"), String::new());
    assert_eq!(empty.content, "");
}

#[test]
fn function_record_drops_the_version() {
    let mut other = config("deno");
    other.version = "9.9.9".to_string();
    assert_eq!(
        function_record(other, "x".to_string()),
        function_record(config("deno"), "x".to_string())
    );
}

#[test]
fn upload_posts_the_record_to_the_deploy_address() {
    let record = expected_record("deno", "x");
    let request = upload(record.clone());
    assert_eq!(
        request,
        Request {
            method: Method::Post,
            url: "https://faas3.deno.dev/api/deploy".to_string(),
            body: Body::Record { record },
        }
    );
}

#[test]
fn deploy_begins_with_the_configuration() {
    assert_eq!(
        deploy_action(DeployStage::Begin),
        DeployStep::ReadConfig { path: "config.toml".to_string() }
    );
}

#[test]
fn deploy_reads_the_source_the_template_names() {
    assert_eq!(
        deploy_action(DeployStage::Config { parsed: Ok(config("deno")) }),
        DeployStep::ReadSource { path: "main.ts".to_string(), config: config("deno") }
    );
    assert_eq!(
        deploy_action(DeployStage::Config { parsed: Ok(config("node")) }),
        DeployStep::ReadSource { path: "main.mjs".to_string(), config: config("node") }
    );
}

#[test]
fn deploy_with_unknown_template_reads_the_empty_name() {
    assert_eq!(
        deploy_action(DeployStage::Config { parsed: Ok(config("python")) }),
        DeployStep::ReadSource { path: String::new(), config: config("python") }
    );
}

#[test]
fn deploy_fails_on_a_configuration_fault() {
    assert_eq!(
        deploy_action(DeployStage::Config { parsed: Err(Fault::Unavailable) }),
        DeployStep::Fail { error: ErrorKind::FileSystemError }
    );
    assert_eq!(
        deploy_action(DeployStage::Config { parsed: Err(Fault::Malformed) }),
        DeployStep::Fail { error: ErrorKind::ParseError }
    );
    assert_eq!(
        deploy_action(DeployStage::Config { parsed: Err(Fault::Mismatched) }),
        DeployStep::Fail { error: ErrorKind::ParseError }
    );
}

#[test]
fn deploy_uploads_the_record_once_the_source_is_read() {
    let step = deploy_action(DeployStage::Source {
        config: config("deno"),
        read: Ok("export {}\n".to_string()),
    });
    assert_eq!(
        step,
        DeployStep::Upload { request: upload(expected_record("deno", "export {}\n")) }
    );
}

#[test]
fn deploy_fails_when_the_source_cannot_be_read() {
    for fault in [Fault::Unavailable, Fault::Malformed, Fault::Mismatched] {
        assert_eq!(
            deploy_action(DeployStage::Source { config: config("python"), read: Err(fault) }),
            DeployStep::Fail { error: ErrorKind::FileSystemError }
        );
    }
}

#[test]
fn deploy_finishes_with_the_answer() {
    let ok = DeployResult { error: None, status: 200 };
    assert_eq!(
        deploy_action(DeployStage::Response { received: Ok(ok.clone()) }),
        DeployStep::Finish { result: ok }
    );
    let refused = DeployResult {
        error: Some(DeployError {
            code: "23505".to_string(),
            details: "Key (name)=(foo) already exists.".to_string(),
            message: "duplicate key".to_string(),
        }),
        status: 409,
    };
    assert_eq!(
        deploy_action(DeployStage::Response { received: Ok(refused.clone()) }),
        DeployStep::Finish { result: refused }
    );
}

#[test]
fn deploy_fails_on_a_response_fault() {
    assert_eq!(
        deploy_action(DeployStage::Response { received: Err(Fault::Unavailable) }),
        DeployStep::Fail { error: ErrorKind::NetworkError }
    );
    assert_eq!(
        deploy_action(DeployStage::Response { received: Err(Fault::Malformed) }),
        DeployStep::Fail { error: ErrorKind::ParseError }
    );
    assert_eq!(
        deploy_action(DeployStage::Response { received: Err(Fault::Mismatched) }),
        DeployStep::Fail { error: ErrorKind::DecodeError }
    );
}
