use content_consumption::output_writer::{read_output_file, OutputKeys};
use content_consumption::script_error::ScriptError;

const FILE: &str = r#"{
    "consumption": {
        "deploy": "0x00000000000000000000000000000000000000aa",
        "init": "0xbeef"
    }
}"#;

fn json_error_text(r: Result<String, ScriptError>) -> String {
    match r {
        Err(ScriptError::JsonOutputError(s)) => s,
        other => panic!("expected a json output error, got {:?}", other),
    }
}

#[test]
fn reads_deployment_address() {
    let r = read_output_file(Some(FILE), OutputKeys::Deployment { key: "consumption" });
    assert_eq!(r.unwrap(), "0x00000000000000000000000000000000000000aa");
}

#[test]
fn reads_init_hash() {
    let r = read_output_file(Some(FILE), OutputKeys::Init { key: "consumption" });
    assert_eq!(r.unwrap(), "0xbeef");
}

#[test]
fn missing_file_is_reported() {
    let r = read_output_file(None, OutputKeys::Deployment { key: "consumption" });
    assert_eq!(json_error_text(r), "Deployed addresses file not found");
}

#[test]
fn malformed_json_is_reported() {
    let r = read_output_file(Some("{ not json"), OutputKeys::Deployment { key: "consumption" });
    assert!(!json_error_text(r).is_empty());
}

#[test]
fn missing_entry_is_reported() {
    let r = read_output_file(Some(FILE), OutputKeys::Deployment { key: "other" });
    assert!(matches!(r, Err(ScriptError::JsonOutputError(_))));
}

#[test]
fn error_messages_name_their_kind() {
    assert_eq!(
        ScriptError::ContractDeployment("boom".to_string()).message(),
        "error deploying contract: boom"
    );
    assert_eq!(
        ScriptError::JsonOutputError("x".to_string()).message(),
        "error writing json output: x"
    );
    assert_eq!(
        ScriptError::NonceFetching("n".to_string()).message(),
        "error during nonce fetching for client signing: n"
    );
}

#[test]
fn deployment_then_init_round_trips() {
    let text = content_consumption::output_writer::updated_output_file(
        None,
        OutputKeys::Deployment { key: "consumption" },
        "0xabc",
    )
    .unwrap();
    let text = content_consumption::output_writer::updated_output_file(
        Some(&text),
        OutputKeys::Init { key: "consumption" },
        "0x123",
    )
    .unwrap();
    assert_eq!(read_output_file(Some(&text), OutputKeys::Deployment { key: "consumption" }).unwrap(), "0xabc");
    assert_eq!(read_output_file(Some(&text), OutputKeys::Init { key: "consumption" }).unwrap(), "0x123");
    let text = content_consumption::output_writer::updated_output_file(
        Some(&text),
        OutputKeys::Deployment { key: "consumption" },
        "0xdef",
    )
    .unwrap();
    assert_eq!(read_output_file(Some(&text), OutputKeys::Deployment { key: "consumption" }).unwrap(), "0xdef");
    assert!(read_output_file(Some(&text), OutputKeys::Init { key: "consumption" }).is_err());
}

#[test]
fn update_refuses_malformed_file() {
    let r = content_consumption::output_writer::updated_output_file(
        Some("[1,"),
        OutputKeys::Init { key: "consumption" },
        "0x1",
    );
    assert!(matches!(r, Err(ScriptError::JsonOutputError(_))));
}
