use rust_open_ai::common::Identifiable;
use rust_open_ai::file::{FileBuilder, FileTypes};
use rust_open_ai::networking::{
    cancel_run, construct_headers, construct_url, create_run, delete_file, list_run_steps,
    retrieve_message_file, retrieve_run, retrieve_run_step, HttpMethod,
};

#[test]
fn run_endpoints_have_their_documented_shapes() {
    assert_eq!(create_run(&None).endpoint, "threads/runs");
    assert_eq!(create_run(&Some("t1".to_string())).endpoint, "threads/t1/runs");
    assert_eq!(retrieve_run("t1", "r1").endpoint, "threads/t1/runs/r1");
    assert_eq!(retrieve_run_step("t1", "r1", "s1").endpoint, "threads/t1/runs/r1/steps/s1");
    assert_eq!(list_run_steps("t1", "r1").endpoint, "threads/t1/runs/r1/steps");
    let cancel = cancel_run("t1", "r1");
    assert_eq!(cancel.method, HttpMethod::Post);
    assert_eq!(cancel.endpoint, "threads/t1/runs/r1/cancel");
}

#[test]
fn other_endpoints_resolve_identifiers() {
    let owned = String::from("file_x");
    assert_eq!(delete_file(&owned).endpoint, "files/file_x");
    assert_eq!(delete_file(&owned).method, HttpMethod::Delete);
    assert_eq!(retrieve_message_file("t", "m", "f").endpoint, "threads/t/messages/m/files/f");
}

#[test]
fn string_identifiers_resolve_to_themselves() {
    let s = String::from("abc");
    assert_eq!(s.get_identifier(), "abc");
    assert_eq!((&s).get_identifier(), "abc");
    assert_eq!("xyz".get_identifier(), "xyz");
}

#[test]
fn headers_carry_credentials_and_beta_marker() {
    let h = construct_headers("sk-1", &None);
    assert_eq!(
        h,
        vec![
            ("Authorization".to_string(), "Bearer sk-1".to_string()),
            ("OpenAI-Beta".to_string(), "assistants=v1".to_string()),
        ]
    );
    let h = construct_headers("sk-1", &Some("org-2".to_string()));
    assert_eq!(h.len(), 3);
    assert_eq!(h[2], ("OpenAI-Organization".to_string(), "org-2".to_string()));
}

#[test]
fn urls_extend_the_base_address() {
    let url = construct_url("threads/t1/runs").unwrap();
    assert_eq!(url.as_str(), "https://api.openai.com/v1/threads/t1/runs");
    assert_eq!(url.path(), "/v1/threads/t1/runs");
}

#[test]
fn file_upload_purpose_names() {
    assert_eq!(FileBuilder::new("a.pdf".to_string(), FileTypes::Assistants).purpose_str(), "assistants");
    let b = FileBuilder::new("a.jsonl".to_string(), FileTypes::FineTune);
    assert_eq!(b.purpose_str(), "fine-tune");
    assert_eq!(b.path(), "a.jsonl");
    assert_eq!(b.create_request().endpoint, "files");
}
