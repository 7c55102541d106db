//! Model-completion tasks: serializable descriptions of a single, stateless
//! model call, and the assembly of a reply from the model's response.
//!
//! These tasks record intent (model id and system prompt); a registered
//! executor that holds a concrete model performs them.

use crate::json::{entry_views, json_is_null, json_member, json_null, json_object, json_object_of, json_of_text, json_string};
use crate::dyn_task::IoTask;
use crate::registry::SerializableTask;
use crate::text::{join_with, views};
use serde_json::Value;
use vstd::prelude::*;
use vstd::string::*;

verus! {

/// Error returned by completion tasks.
#[derive(Debug)]
pub enum RigTaskError {
    /// The task was run without a concrete model supplied at runtime.
    NoModel(String),
}

impl RigTaskError {
    /// The error's message, as shown to users.
    pub fn message(&self) -> (s: String)
        ensures
            s@ == match *self {
                RigTaskError::NoModel(m) => "task requires a concrete CompletionModel at runtime: "@ + m@,
            },
    {
        match self {
            RigTaskError::NoModel(m) => {
                let mut s = String::from_str("task requires a concrete CompletionModel at runtime: ");
                s.append(m.as_str());
                s
            },
        }
    }
}

/// A single, stateless model completion call.
#[derive(Debug, Clone)]
pub struct CompletionTask {
    /// Model identifier (e.g. `"gpt-4o"`).
    pub model: String,
    /// Optional system / preamble prompt.
    pub system: Option<String>,
}

impl CompletionTask {
    /// Running the task itself, without a model supplied by an executor,
    /// always fails with `NoModel` naming the model.
    pub fn run_without_model(&self) -> (r: Result<String, RigTaskError>)
        ensures
            r matches Err(RigTaskError::NoModel(m)) && m@ == self.model@,
    {
        Err(RigTaskError::NoModel(self.model.clone()))
    }
}

/// The params object of a model task: `model` and `system` (a JSON `null`
/// when there is no system prompt).
pub open spec fn model_params_ok(v: Value, model: String, system: Option<String>) -> bool {
    &&& json_member(v, "model"@) == Some(json_of_text(model@))
    &&& match system {
        Some(s) => json_member(v, "system"@) == Some(json_of_text(s@)),
        None => json_member(v, "system"@) matches Some(n) && json_is_null(n),
    }
}

/// The params object of a model task, as built: the members `model` and
/// `system`, in that order.
pub open spec fn model_params_value(model: String, system: Option<String>) -> Value {
    json_object_of(seq![
        ("model"@, json_of_text(model@)),
        ("system"@, match system {
            Some(s) => json_of_text(s@),
            None => json_null(),
        }),
    ])
}

fn model_params(model: &String, system: &Option<String>) -> (v: Value)
    ensures
        v == model_params_value(*model, *system),
        model_params_ok(v, *model, *system),
{
    let mut entries: Vec<(String, Value)> = Vec::new();
    entries.push((String::from_str("model"), json_string(model.as_str())));
    let sys = match system {
        Some(s) => json_string(s.as_str()),
        None => Value::default(),
    };
    entries.push((String::from_str("system"), sys));
    proof {
        reveal_strlit("model");
        reveal_strlit("system");
        assert(entries@[0].0@ != entries@[1].0@) by {
            assert(entries@[0].0@[0] != entries@[1].0@[0]);
        }
    }
    let ghost e = entries@;
    let v = json_object(entries);
    proof {
        assert(json_member(v, e[0].0@) == Some(e[0].1));
        assert(json_member(v, e[1].0@) == Some(e[1].1));
        if system is None {
            assert(json_is_null(e[1].1));
            assert(e[1].1 == json_null());
        }
        assert(entry_views(e) =~= seq![
            ("model"@, json_of_text(model@)),
            ("system"@, match *system {
                Some(s) => json_of_text(s@),
                None => json_null(),
            }),
        ]);
    }
    v
}

impl SerializableTask for CompletionTask {
    open spec fn described_type(&self) -> Seq<char> {
        "nanites_rig::CompletionTask"@
    }

    open spec fn described_params(&self) -> Value {
        model_params_value(self.model, self.system)
    }

    fn serializable_type_name(&self) -> (s: &'static str)
        ensures
            s@ == "nanites_rig::CompletionTask"@,
    {
        "nanites_rig::CompletionTask"
    }

    fn params(&self) -> (v: Value)
        ensures
            model_params_ok(v, self.model, self.system),
    {
        model_params(&self.model, &self.system)
    }
}

impl IoTask for CompletionTask {
    type Input = String;
    type Output = String;
}

/// A single message in a multi-turn conversation.
#[derive(Debug, Clone)]
pub struct ChatMessage {
    /// `"user"` or `"assistant"`.
    pub role: String,
    /// Message body.
    pub content: String,
}

/// A multi-turn model conversation: input is the conversation so far,
/// output the assistant's reply.
#[derive(Debug, Clone)]
pub struct ChatTask {
    /// Model identifier.
    pub model: String,
    /// Optional system / preamble prompt.
    pub system: Option<String>,
}

impl ChatTask {
    /// Running the task itself, without a model supplied by an executor,
    /// always fails with `NoModel` naming the model.
    pub fn run_without_model(&self) -> (r: Result<String, RigTaskError>)
        ensures
            r matches Err(RigTaskError::NoModel(m)) && m@ == self.model@,
    {
        Err(RigTaskError::NoModel(self.model.clone()))
    }
}

impl SerializableTask for ChatTask {
    open spec fn described_type(&self) -> Seq<char> {
        "nanites_rig::ChatTask"@
    }

    open spec fn described_params(&self) -> Value {
        model_params_value(self.model, self.system)
    }

    fn serializable_type_name(&self) -> (s: &'static str)
        ensures
            s@ == "nanites_rig::ChatTask"@,
    {
        "nanites_rig::ChatTask"
    }

    fn params(&self) -> (v: Value)
        ensures
            model_params_ok(v, self.model, self.system),
    {
        model_params(&self.model, &self.system)
    }
}

/// One piece of a model's response.
#[derive(Debug, Clone)]
pub enum ResponsePart {
    /// Text content.
    Text(String),
    /// Anything else (tool calls, reasoning, images); carries nothing the
    /// reply uses.
    Other,
}

/// The texts among response parts, in order.
pub open spec fn text_parts(parts: Seq<ResponsePart>) -> Seq<Seq<char>>
    decreases parts.len(),
{
    if parts.len() == 0 {
        Seq::empty()
    } else {
        let rest = text_parts(parts.drop_last());
        match parts.last() {
            ResponsePart::Text(t) => rest.push(t@),
            ResponsePart::Other => rest,
        }
    }
}

/// The reply assembled from a response: its text parts concatenated, in
/// order; other parts are skipped.
pub fn reply_text(parts: &Vec<ResponsePart>) -> (s: String)
    ensures
        s@ == join_with(text_parts(parts@), Seq::empty()),
{
    let mut texts: Vec<String> = Vec::new();
    let mut i: usize = 0;
    while i < parts.len()
        invariant
            i <= parts@.len(),
            views(texts@) == text_parts(parts@.take(i as int)),
        decreases parts@.len() - i,
    {
        assert(parts@.take(i + 1).drop_last() =~= parts@.take(i as int));
        match &parts[i] {
            ResponsePart::Text(t) => {
                texts.push(t.clone());
                assert(views(texts@) =~= text_parts(parts@.take(i as int)).push(t@));
            },
            ResponsePart::Other => {},
        }
        i += 1;
    }
    assert(parts@.take(parts@.len() as int) =~= parts@);
    let s = crate::text::join(&texts, "");
    proof {
        reveal_strlit("");
        assert(""@ =~= Seq::<char>::empty());
    }
    s
}

} // verus!
