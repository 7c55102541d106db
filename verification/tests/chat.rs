use nanites::chat::{BuildContextTask, CharacterState, HandleMessageError, HandleMessageTask, HistoryEntry};
use nanites::completion::{reply_text, ChatTask, CompletionTask, ResponsePart, RigTaskError};
use nanites::error::RuntimeError;
use nanites::registry::SerializableTask;
use serde_json::Value;

fn aria(knowledge: Vec<&str>) -> CharacterState {
    CharacterState {
        name: "Aria".into(),
        persona: "A thoughtful AI assistant.".into(),
        current_knowledge: knowledge.into_iter().map(String::from).collect(),
    }
}

#[test]
fn prompt_with_identity_only() {
    let task = BuildContextTask { character: aria(vec![]), history: vec![] };
    assert_eq!(task.system_prompt(), "You are Aria.\nA thoughtful AI assistant.");
}

#[test]
fn prompt_with_knowledge_and_history() {
    let task = BuildContextTask {
        character: aria(vec!["It is raining.", "Bob is away."]),
        history: vec![
            HistoryEntry { role: "user".into(), content: "Hi".into() },
            HistoryEntry { role: "assistant".into(), content: "Hello!".into() },
        ],
    };
    assert_eq!(
        task.system_prompt(),
        "You are Aria.\nA thoughtful AI assistant.\n\nWhat you currently know:\n- It is raining.\n- Bob is away.\n\nRecent conversation:\nuser: Hi\nassistant: Hello!"
    );
}

#[test]
fn handle_message_steps() {
    let t = HandleMessageTask { model: "gpt-4o".into(), character: aria(vec!["x"]), history: vec![] };
    let ctx_task = t.context_task();
    assert_eq!(ctx_task.character.name, "Aria");
    assert_eq!(ctx_task.character.current_knowledge, vec!["x".to_string()]);
    let c = t.after_context(Ok("SYS".to_string())).unwrap();
    assert_eq!(c.model, "gpt-4o");
    assert_eq!(c.system, Some("SYS".to_string()));
    assert!(matches!(t.after_context(Err(RuntimeError::Cancelled)), Err(HandleMessageError::ContextBuild(RuntimeError::Cancelled))));
    assert_eq!(t.after_completion(Ok(Some("reply".into()))).unwrap(), "reply");
    assert!(matches!(t.after_completion(Ok(None)), Err(HandleMessageError::BadOutputType)));
    let e = t.after_completion(Err(RuntimeError::Cancelled)).unwrap_err();
    assert_eq!(e.message(), "runtime error: execution cancelled");
    assert_eq!(HandleMessageError::BadOutputType.message(), "unexpected completion output type");
}

#[test]
fn completion_tasks_describe_themselves() {
    let c = CompletionTask { model: "m".into(), system: Some("s".into()) };
    assert_eq!(c.serializable_type_name(), "nanites_rig::CompletionTask");
    let p = c.params();
    assert_eq!(p["model"], Value::from("m"));
    assert_eq!(p["system"], Value::from("s"));
    let chat = ChatTask { model: "m2".into(), system: None };
    assert_eq!(chat.serializable_type_name(), "nanites_rig::ChatTask");
    let p2 = chat.params();
    assert_eq!(p2["model"], Value::from("m2"));
    assert!(p2.get("system").unwrap().is_null());
}

#[test]
fn completion_without_model_fails() {
    let c = CompletionTask { model: "gpt".into(), system: None };
    match c.run_without_model() {
        Err(e) => {
            assert!(matches!(&e, RigTaskError::NoModel(m) if m == "gpt"));
            assert_eq!(e.message(), "task requires a concrete CompletionModel at runtime: gpt");
        }
        Ok(_) => panic!("expected NoModel"),
    }
}

#[test]
fn reply_concatenates_text_parts() {
    let parts = vec![
        ResponsePart::Text("Hel".into()),
        ResponsePart::Other,
        ResponsePart::Text("lo".into()),
    ];
    assert_eq!(reply_text(&parts), "Hello");
    assert_eq!(reply_text(&vec![]), "");
}
