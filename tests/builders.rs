use std::collections::HashMap;

use rust_open_ai::assistant::{Assistant, AssistantBuilder, AssistantFileBuilder};
use rust_open_ai::chat::ChatBuilder;
use rust_open_ai::common::Tools;
use rust_open_ai::error::OpenApiError;
use rust_open_ai::fine_tuning::{FineTuningJobBuilder, HyperParams};
use rust_open_ai::message::{CompletionMessage, GeneralMessage, MessageBuilder, MessageRole};
use rust_open_ai::thread::ThreadBuilder;

fn chat() -> ChatBuilder {
    ChatBuilder::new("gpt-4", vec![CompletionMessage::new_user("hi".to_string(), None)])
}

fn accepts_temperature(t: f64) -> bool {
    chat().with_temperature(t.to_bits()).is_ok()
}

#[test]
fn temperature_range_is_inclusive() {
    assert!(accepts_temperature(0.0));
    assert!(accepts_temperature(2.0));
    assert!(accepts_temperature(1.0));
    assert!(!accepts_temperature(-0.01));
    assert!(!accepts_temperature(2.01));
    assert!(!accepts_temperature(f64::NAN));
    assert!(!accepts_temperature(f64::INFINITY));
    assert!(accepts_temperature(-0.0));
    let next_above_two = f64::from_bits(2.0f64.to_bits() + 1);
    assert!(!accepts_temperature(next_above_two));
}

#[test]
fn top_p_range_is_inclusive() {
    assert!(chat().with_top_p(0.0f64.to_bits()).is_ok());
    assert!(chat().with_top_p(2.0f64.to_bits()).is_ok());
    assert!(chat().with_top_p((-0.01f64).to_bits()).is_err());
    assert!(chat().with_top_p(2.01f64.to_bits()).is_err());
}

#[test]
fn penalty_ranges_are_inclusive() {
    for p in [-2.0f64, 2.0, 0.0, -1.5] {
        assert!(chat().with_frequency_penalty(p.to_bits()).is_ok());
        assert!(chat().with_presence_penalty(p.to_bits()).is_ok());
    }
    for p in [-2.01f64, 2.01, -100.0, f64::NEG_INFINITY] {
        let refused = chat().with_frequency_penalty(p.to_bits()).unwrap_err();
        assert!(matches!(refused.error, OpenApiError::RestrictedValue(_)));
        assert!(chat().with_presence_penalty(p.to_bits()).is_err());
    }
    let set = chat().with_frequency_penalty(1.25f64.to_bits()).unwrap();
    assert_eq!(set.frequency_penalty().map(f64::from_bits), Some(1.25));
}

#[test]
fn max_tokens_range_is_inclusive() {
    assert!(chat().with_max_tokens(1).is_ok());
    assert!(chat().with_max_tokens(32768).is_ok());
    assert!(chat().with_max_tokens(0).is_err());
    assert!(chat().with_max_tokens(32769).is_err());
    assert!(chat().with_max_tokens(-5).is_err());
}

#[test]
fn logit_bias_in_range_is_accepted() {
    let mut bias = HashMap::new();
    bias.insert(50256u32, -100);
    bias.insert(11u32, 100);
    bias.insert(7u32, 0);
    let b = chat().with_logit_bias(bias.clone()).unwrap();
    assert_eq!(b.logit_bias().as_ref(), Some(&bias));
}

#[test]
fn logit_bias_with_one_value_out_of_range_is_refused_unchanged() {
    let before = chat().with_seed(7).with_max_tokens(64).unwrap();
    let mut bias = HashMap::new();
    bias.insert(1u32, 5);
    bias.insert(2u32, 101);
    bias.insert(3u32, -3);
    let refused = before.clone().with_logit_bias(bias).unwrap_err();
    assert!(matches!(refused.error, OpenApiError::RestrictedValue(_)));
    assert!(refused.builder.logit_bias().is_none());
    assert_eq!(refused.builder.seed(), Some(7));
    assert_eq!(refused.builder.max_tokens(), Some(64));
    let mut low = HashMap::new();
    low.insert(9u32, -101);
    assert!(chat().with_logit_bias(low).is_err());
}

#[test]
fn top_logprobs_needs_logprobs_first() {
    let refused = chat().with_top_logprobs(3).unwrap_err();
    assert!(matches!(refused.error, OpenApiError::RestrictedValue(_)));
    let off = chat().with_logprobs(false).unwrap();
    assert!(off.with_top_logprobs(3).is_err());
    let on = chat().with_logprobs(true).unwrap();
    let b = on.with_top_logprobs(3).unwrap();
    assert_eq!(b.top_logprobs(), Some(3));
    assert_eq!(b.logprobs(), Some(true));
}

#[test]
fn logprobs_refused_for_vision_preview() {
    let vision = ChatBuilder::new("gpt-4-vision-preview", Vec::new());
    assert!(vision.with_logprobs(true).is_err());
    assert!(chat().with_logprobs(true).is_ok());
}

#[test]
fn stop_sequences_are_capped_at_four() {
    let four: Vec<String> = (0..4).map(|i| i.to_string()).collect();
    assert_eq!(chat().with_stop(four.clone()).unwrap().stop(), &four);
    let five: Vec<String> = (0..5).map(|i| i.to_string()).collect();
    let refused = chat().with_stop(five).unwrap_err();
    assert!(matches!(refused.error, OpenApiError::InvalidLength(5, 4)));
    assert!(refused.builder.stop().is_empty());
}

#[test]
fn chat_plain_setters_store_values() {
    let b = chat()
        .with_choice_count(2)
        .with_stream(true)
        .with_user("u1".to_string())
        .with_tool_choice("auto".to_string())
        .with_tools(vec![Tools::code_interpreter()]);
    assert_eq!(b.n(), Some(2));
    assert_eq!(b.stream(), Some(true));
    assert_eq!(b.user().as_deref(), Some("u1"));
    assert_eq!(b.tool_choice().as_deref(), Some("auto"));
    assert_eq!(b.tools().len(), 1);
    assert_eq!(b.model(), "gpt-4");
    assert_eq!(b.messages().len(), 1);
    assert_eq!(b.create_request().endpoint, "chat/completions");
}

fn text(len: usize) -> String {
    "é".repeat(len)
}

#[test]
fn assistant_name_ceiling_counts_characters() {
    assert!(AssistantBuilder::new("gpt-4").with_name(text(256)).is_ok());
    let refused = AssistantBuilder::new("gpt-4").with_name(text(257)).unwrap_err();
    assert!(matches!(refused.error, OpenApiError::InvalidLength(257, 256)));
    assert!(refused.builder.name().is_none());
}

#[test]
fn assistant_description_and_instructions_ceilings() {
    assert!(AssistantBuilder::new("gpt-4").with_description(text(512)).is_ok());
    let refused = AssistantBuilder::new("gpt-4").with_description(text(513)).unwrap_err();
    assert!(matches!(refused.error, OpenApiError::InvalidLength(513, 512)));
    assert!(AssistantBuilder::new("gpt-4").with_instructions("a".repeat(32768)).is_ok());
    let refused = AssistantBuilder::new("gpt-4").with_instructions("a".repeat(32769)).unwrap_err();
    assert!(matches!(refused.error, OpenApiError::InvalidLength(32769, 32768)));
}

#[test]
fn assistant_tool_list_is_capped() {
    let tools: Vec<Tools> = (0..128).map(|_| Tools::retrieval()).collect();
    let full = AssistantBuilder::new("gpt-4").with_tools(tools).unwrap();
    let refused = full.add_tool(Tools::code_interpreter()).unwrap_err();
    assert!(matches!(refused.error, OpenApiError::InvalidLength(129, 128)));
    assert_eq!(refused.builder.tools().as_ref().map(|t| t.len()), Some(128));
    let too_many: Vec<Tools> = (0..129).map(|_| Tools::retrieval()).collect();
    assert!(AssistantBuilder::new("gpt-4").with_tools(too_many).is_err());
    let one = AssistantBuilder::new("gpt-4").add_tool(Tools::code_interpreter()).unwrap();
    assert_eq!(one.tools().as_ref().map(|t| t.len()), Some(1));
}

#[test]
fn assistant_file_ids_are_capped() {
    let mut b = AssistantBuilder::new("gpt-4");
    for i in 0..20 {
        b = b.add_file_id(format!("file_{}", i)).unwrap();
    }
    assert_eq!(b.file_ids().as_ref().map(|f| f.len()), Some(20));
    assert_eq!(b.file_ids().as_ref().unwrap()[19], "file_19");
    let refused = b.add_file_id("file_20").unwrap_err();
    assert!(matches!(refused.error, OpenApiError::InvalidLength(21, 20)));
    let ids: Vec<String> = (0..21).map(|i| i.to_string()).collect();
    assert!(AssistantBuilder::new("gpt-4").with_file_ids(ids).is_err());
}

#[test]
fn assistant_builder_from_existing() {
    let existing = Assistant {
        id: "asst_9".to_string(),
        object: "assistant".to_string(),
        created_at: 0,
        name: Some("helper".to_string()),
        description: None,
        model: "gpt-4".to_string(),
        instructions: Some("be kind".to_string()),
        tools: vec![Tools::retrieval()],
        file_ids: vec!["file_1".to_string()],
        metadata: HashMap::new(),
    };
    let b = AssistantBuilder::from(existing);
    assert_eq!(b.model(), "gpt-4");
    assert_eq!(b.name().as_deref(), Some("helper"));
    assert_eq!(b.instructions().as_deref(), Some("be kind"));
    assert_eq!(b.file_ids().as_ref().unwrap(), &vec!["file_1".to_string()]);
    assert_eq!(b.create_request().endpoint, "assistants");
}

#[test]
fn assistant_file_builder_resolves_ids() {
    let b = AssistantFileBuilder::new("asst_1", "file_2");
    assert_eq!(b.assistant_id(), "asst_1");
    assert_eq!(b.file_id(), "file_2");
    assert_eq!(b.create_request().endpoint, "assistants/asst_1/files");
}

#[test]
fn message_builder_is_a_user_message() {
    let b = MessageBuilder::new("thread_7", "hello".to_string()).unwrap();
    assert_eq!(b.role(), MessageRole::User);
    assert_eq!(b.thread_id(), "thread_7");
    assert_eq!(b.content(), "hello");
    let b = b.add_file_id("file_a").add_file_id(String::from("file_b"));
    assert_eq!(b.file_ids().as_ref().unwrap(), &vec!["file_a".to_string(), "file_b".to_string()]);
    assert_eq!(b.create_request().endpoint, "threads/thread_7/messages");
}

#[test]
fn thread_builder_appends_messages() {
    let m = GeneralMessage {
        content: Some("hi".to_string()),
        role: MessageRole::User,
        name: None,
        tool_calls: None,
        tool_call_id: None,
        file_ids: None,
        metadata: None,
    };
    let b = ThreadBuilder::new().add_message(m.clone()).add_message(m);
    assert_eq!(b.messages().as_ref().map(|v| v.len()), Some(2));
    assert_eq!(b.create_request().endpoint, "threads");
}

#[test]
fn fine_tuning_builder_resolves_ids() {
    let b = FineTuningJobBuilder::new("gpt-3.5-turbo", "file_t")
        .with_suffix("mine".to_string())
        .with_validation_file("file_v".to_string())
        .with_hyperparams(HyperParams { n_epochs: Some("3".to_string()), batch_size: None, learning_rate_multiplier: None });
    assert_eq!(b.model(), "gpt-3.5-turbo");
    assert_eq!(b.training_file(), "file_t");
    assert_eq!(b.suffix().as_deref(), Some("mine"));
    assert_eq!(b.hyperparameters().n_epochs.as_deref(), Some("3"));
}

#[test]
fn completion_message_constructors_tag_roles() {
    match CompletionMessage::new_system("s".to_string(), Some("n".to_string())) {
        CompletionMessage::SystemMessage(m) => {
            assert_eq!(m.role, MessageRole::System);
            assert_eq!(m.get_content().as_deref(), Some("s"));
        }
        _ => panic!("wrong variant"),
    }
    match CompletionMessage::new_tool("out".to_string(), Some("call_1".to_string())) {
        CompletionMessage::ToolMessage(m) => assert_eq!(m.tool_call_id.as_deref(), Some("call_1")),
        _ => panic!("wrong variant"),
    }
    assert_eq!(MessageRole::from("system"), MessageRole::System);
    assert_eq!(MessageRole::from("assistant"), MessageRole::Assistant);
    assert_eq!(MessageRole::from("anything"), MessageRole::User);
}
