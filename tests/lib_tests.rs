use rust_open_ai::run::RunBuilder;

#[test]
fn it_works() {
    assert_eq!(2 + 2, 4);
}

#[test]
fn test_run_builder() {
    let run = RunBuilder::new_with_thread("asst_SJVM5rueqSA5KWXbOsvR2EO5");
    assert_eq!(run.assistant_id(), "asst_SJVM5rueqSA5KWXbOsvR2EO5");
    assert!(run.thread_id().is_none());
    assert_eq!(run.create_request().endpoint, "threads/runs");
}
