//! Chat orchestration: each turn builds a fresh context from character
//! state and recent history, calls the model, and returns its reply.
//! History is external data, passed in; nothing accumulates.
//!
//! Task graph per turn:
//!
//! ```text
//! HandleMessageTask(user_input)
//! └── BuildContextTask(character, history)   ← pure, no LLM
//!     └── CompletionTask { model, system }   ← I/O task
//! ```

use crate::completion::CompletionTask;
use crate::error::{runtime_error_text, RuntimeError};
use crate::text::{join, join_with, views};
use vstd::prelude::*;
use vstd::string::*;

verus! {

/// Persistent character identity, passed into each turn.
#[derive(Debug, Clone)]
pub struct CharacterState {
    /// Character name (used in the system prompt header).
    pub name: String,
    /// Core identity description: who this character is and how they behave.
    pub persona: String,
    /// Facts, context, or knowledge the character currently holds.
    pub current_knowledge: Vec<String>,
}

/// A single entry in the conversation history.
#[derive(Debug, Clone)]
pub struct HistoryEntry {
    /// `"user"` or `"assistant"`.
    pub role: String,
    /// Message content.
    pub content: String,
}

/// Pure task: assembles a system prompt from character state and recent
/// history. No model call.
#[derive(Debug, Clone)]
pub struct BuildContextTask {
    /// Character state to embed in the system prompt.
    pub character: CharacterState,
    /// Recent conversation history to include for continuity.
    pub history: Vec<HistoryEntry>,
}

/// The knowledge lines of the prompt: a blank line, a heading, and one
/// bullet per fact; nothing when there are no facts.
pub open spec fn knowledge_lines(facts: Seq<String>) -> Seq<Seq<char>> {
    if facts.len() > 0 {
        seq![Seq::<char>::empty(), "What you currently know:"@] + facts.map_values(|f: String| "- "@ + f@)
    } else {
        Seq::empty()
    }
}

/// One line of recent conversation: `role: content`.
pub open spec fn history_line(e: HistoryEntry) -> Seq<char> {
    e.role@ + ": "@ + e.content@
}

/// The history lines of the prompt: a blank line, a heading, and one line
/// per entry; nothing when there is no history.
pub open spec fn history_lines(h: Seq<HistoryEntry>) -> Seq<Seq<char>> {
    if h.len() > 0 {
        seq![Seq::<char>::empty(), "Recent conversation:"@] + h.map_values(|e: HistoryEntry| history_line(e))
    } else {
        Seq::empty()
    }
}

/// All lines of the system prompt, in order.
pub open spec fn prompt_lines(c: CharacterState, h: Seq<HistoryEntry>) -> Seq<Seq<char>> {
    seq!["You are "@ + c.name@ + "."@, c.persona@] + knowledge_lines(c.current_knowledge@) + history_lines(h)
}

/// The system prompt: its lines joined by newlines.
pub open spec fn system_prompt_text(c: CharacterState, h: Seq<HistoryEntry>) -> Seq<char> {
    join_with(prompt_lines(c, h), "\n"@)
}

/// The layout of the system prompt, line by line: the header `You are
/// <name>.`, the persona; then, when the character knows facts, a blank
/// line, `What you currently know:` and one `- <fact>` line per fact; then,
/// whenever the history is non-empty (whether or not there are facts), a
/// blank line, `Recent conversation:` and one `role: content` line per
/// entry, in order, closing the prompt. Nothing else is in it.
pub proof fn law_prompt_layout(c: CharacterState, h: Seq<HistoryEntry>)
    ensures
        prompt_lines(c, h).len() == 2 + (if c.current_knowledge@.len() > 0 {
            c.current_knowledge@.len() + 2int
        } else {
            0int
        }) + (if h.len() > 0 {
            h.len() + 2int
        } else {
            0int
        }),
        prompt_lines(c, h)[0] == "You are "@ + c.name@ + "."@,
        prompt_lines(c, h)[1] == c.persona@,
        c.current_knowledge@.len() > 0 ==> prompt_lines(c, h)[2] == Seq::<char>::empty() && prompt_lines(c, h)[3]
            == "What you currently know:"@ && forall|i: int| 0 <= i < c.current_knowledge@.len() ==> #[trigger] prompt_lines(
            c,
            h,
        )[4 + i] == "- "@ + c.current_knowledge@[i]@,
        h.len() > 0 ==> prompt_lines(c, h)[prompt_lines(c, h).len() - h.len() - 2] == Seq::<char>::empty()
            && prompt_lines(c, h)[prompt_lines(c, h).len() - h.len() - 1] == "Recent conversation:"@
            && forall|i: int| 0 <= i < h.len() ==> #[trigger] prompt_lines(c, h)[prompt_lines(c, h).len() - h.len() + i]
                == h[i].role@ + ": "@ + h[i].content@,
        system_prompt_text(c, h) == join_with(prompt_lines(c, h), "\n"@),
{
    let head = seq!["You are "@ + c.name@ + "."@, c.persona@];
    let k = knowledge_lines(c.current_knowledge@);
    let hl = history_lines(h);
    let l = prompt_lines(c, h);
    assert(l == head + k + hl);
    assert(l.len() == 2 + k.len() + hl.len());
    if c.current_knowledge@.len() > 0 {
        assert forall|i: int| 0 <= i < c.current_knowledge@.len() implies #[trigger] l[4 + i] == "- "@
            + c.current_knowledge@[i]@ by {
            assert(l[4 + i] == k[2 + i]);
        }
        assert(l[2] == k[0]);
        assert(l[3] == k[1]);
    }
    if h.len() > 0 {
        let n = l.len() - h.len();
        assert(l[n - 2] == hl[0]);
        assert(l[n - 1] == hl[1]);
        assert forall|i: int| 0 <= i < h.len() implies #[trigger] l[n + i] == h[i].role@ + ": "@ + h[i].content@ by {
            assert(l[n + i] == hl[2 + i]);
        }
    }
}

fn concat3(a: &str, b: &str, c: &str) -> (s: String)
    ensures
        s@ == a@ + b@ + c@,
{
    let mut s = String::from_str(a);
    s.append(b);
    s.append(c);
    s
}

impl BuildContextTask {
    /// Assemble the system prompt: identity header, persona, knowledge (if
    /// any), recent history (if any), one item per line.
    pub fn system_prompt(&self) -> (s: String)
        ensures
            s@ == system_prompt_text(self.character, self.history@),
    {
        let mut parts: Vec<String> = Vec::new();
        parts.push(concat3("You are ", self.character.name.as_str(), "."));
        parts.push(self.character.persona.clone());
        let ghost head = seq!["You are "@ + self.character.name@ + "."@, self.character.persona@];
        assert(views(parts@) =~= head);

        let facts = &self.character.current_knowledge;
        let ghost fact_lines = facts@.map_values(|f: String| "- "@ + f@);
        if facts.len() > 0 {
            parts.push(String::new());
            parts.push(String::from_str("What you currently know:"));
            let ghost base = views(parts@);
            let mut i: usize = 0;
            while i < facts.len()
                invariant
                    i <= facts@.len(),
                    fact_lines == facts@.map_values(|f: String| "- "@ + f@),
                    views(parts@) == base + fact_lines.take(i as int),
                decreases facts@.len() - i,
            {
                let ghost before = parts@;
                let mut line = String::from_str("- ");
                line.append(facts[i].as_str());
                parts.push(line);
                proof {
                    assert(parts@ == before.push(line));
                    assert(views(parts@) =~= views(before).push(line@));
                    assert(line@ == fact_lines[i as int]);
                    assert(views(parts@) =~= base + fact_lines.take(i + 1));
                }
                i += 1;
            }
            assert(fact_lines.take(facts@.len() as int) =~= fact_lines);
            assert(views(parts@) =~= head + knowledge_lines(self.character.current_knowledge@));
        } else {
            assert(views(parts@) =~= head + knowledge_lines(self.character.current_knowledge@));
        }
        let ghost upto_knowledge = views(parts@);

        let hist = &self.history;
        let ghost entry_lines = hist@.map_values(|e: HistoryEntry| history_line(e));
        if hist.len() > 0 {
            parts.push(String::new());
            parts.push(String::from_str("Recent conversation:"));
            let ghost base = views(parts@);
            let mut j: usize = 0;
            while j < hist.len()
                invariant
                    j <= hist@.len(),
                    entry_lines == hist@.map_values(|e: HistoryEntry| history_line(e)),
                    views(parts@) == base + entry_lines.take(j as int),
                decreases hist@.len() - j,
            {
                let ghost before = parts@;
                let line = concat3(hist[j].role.as_str(), ": ", hist[j].content.as_str());
                parts.push(line);
                proof {
                    assert(parts@ == before.push(line));
                    assert(views(parts@) =~= views(before).push(line@));
                    assert(line@ == entry_lines[j as int]);
                    assert(views(parts@) =~= base + entry_lines.take(j + 1));
                }
                j += 1;
            }
            assert(entry_lines.take(hist@.len() as int) =~= entry_lines);
            assert(views(parts@) =~= upto_knowledge + history_lines(self.history@));
        } else {
            assert(views(parts@) =~= upto_knowledge + history_lines(self.history@));
        }
        assert(views(parts@) =~= prompt_lines(self.character, self.history@));
        join(&parts, "\n")
    }
}

/// Error type for [`HandleMessageTask`].
#[derive(Debug)]
pub enum HandleMessageError {
    /// The runtime rejected the task (cancellation, type mismatch, no executor).
    Runtime(RuntimeError),
    /// The context-build step failed.
    ContextBuild(RuntimeError),
    /// The completion response was not a `String` (internal invariant violation).
    BadOutputType,
}

/// The message of a [`HandleMessageError`].
pub open spec fn handle_message_error_text(e: HandleMessageError) -> Seq<char> {
    match e {
        HandleMessageError::Runtime(r) => "runtime error: "@ + runtime_error_text(r),
        HandleMessageError::ContextBuild(r) => "context build failed: "@ + runtime_error_text(r),
        HandleMessageError::BadOutputType => "unexpected completion output type"@,
    }
}

impl HandleMessageError {
    /// The error's message, as shown to users.
    pub fn message(&self) -> (s: String)
        ensures
            s@ == handle_message_error_text(*self),
    {
        match self {
            HandleMessageError::Runtime(r) => {
                let mut s = String::from_str("runtime error: ");
                s.append(r.message().as_str());
                s
            },
            HandleMessageError::ContextBuild(r) => {
                let mut s = String::from_str("context build failed: ");
                s.append(r.message().as_str());
                s
            },
            HandleMessageError::BadOutputType => String::from_str("unexpected completion output type"),
        }
    }
}

/// Orchestrating task: handles one chat turn end-to-end.
///
/// 1. Build a system prompt (`BuildContextTask`, pure).
/// 2. Call the model (`CompletionTask`, run by an executor).
///
/// Input: the user's message. Output: the assistant's reply.
#[derive(Debug, Clone)]
pub struct HandleMessageTask {
    /// Model identifier; must match a name the completion executor knows.
    pub model: String,
    /// Character configuration for this turn.
    pub character: CharacterState,
    /// Recent history to include in context (caller selects which entries).
    pub history: Vec<HistoryEntry>,
}

impl HandleMessageTask {
    /// The first child: the context builder for this turn's character and
    /// history.
    pub fn context_task(&self) -> (t: BuildContextTask)
        ensures
            t.character.name == self.character.name,
            t.character.persona == self.character.persona,
            t.character.current_knowledge@ == self.character.current_knowledge@,
            t.history@ == self.history@,
    {
        let character = CharacterState {
            name: self.character.name.clone(),
            persona: self.character.persona.clone(),
            current_knowledge: clone_strings(&self.character.current_knowledge),
        };
        BuildContextTask { character, history: clone_history(&self.history) }
    }

    /// Decide after the context builder ran: its failure ends the turn as a
    /// context-build error; its prompt becomes the system prompt of the
    /// completion to run next, with this turn's model.
    pub fn after_context(&self, built: Result<String, RuntimeError>) -> (r: Result<CompletionTask, HandleMessageError>)
        ensures
            match built {
                Err(e) => r == Err::<CompletionTask, HandleMessageError>(HandleMessageError::ContextBuild(e)),
                Ok(prompt) => r matches Ok(t) && t.model@ == self.model@ && t.system == Some(prompt),
            },
    {
        match built {
            Err(e) => Err(HandleMessageError::ContextBuild(e)),
            Ok(prompt) => Ok(CompletionTask { model: self.model.clone(), system: Some(prompt) }),
        }
    }

    /// Decide after the completion ran: a runtime error ends the turn as
    /// such; an output that is not text is a bad output type; text is the
    /// reply.
    pub fn after_completion(&self, reply: Result<Option<String>, RuntimeError>) -> (r: Result<String, HandleMessageError>)
        ensures
            r == match reply {
                Err(e) => Err::<String, HandleMessageError>(HandleMessageError::Runtime(e)),
                Ok(None) => Err(HandleMessageError::BadOutputType),
                Ok(Some(text)) => Ok(text),
            },
    {
        match reply {
            Err(e) => Err(HandleMessageError::Runtime(e)),
            Ok(None) => Err(HandleMessageError::BadOutputType),
            Ok(Some(text)) => Ok(text),
        }
    }
}

/// A copy of a list of strings.
pub fn clone_strings(v: &Vec<String>) -> (r: Vec<String>)
    ensures
        r@ == v@,
{
    let mut r: Vec<String> = Vec::new();
    let mut i: usize = 0;
    while i < v.len()
        invariant
            i <= v@.len(),
            r@ == v@.take(i as int),
        decreases v@.len() - i,
    {
        r.push(v[i].clone());
        assert(r@ =~= v@.take(i + 1));
        i += 1;
    }
    assert(v@.take(v@.len() as int) =~= v@);
    r
}

/// A copy of a conversation history.
pub fn clone_history(h: &Vec<HistoryEntry>) -> (r: Vec<HistoryEntry>)
    ensures
        r@ == h@,
{
    let mut r: Vec<HistoryEntry> = Vec::new();
    let mut i: usize = 0;
    while i < h.len()
        invariant
            i <= h@.len(),
            r@ == h@.take(i as int),
        decreases h@.len() - i,
    {
        let e = HistoryEntry { role: h[i].role.clone(), content: h[i].content.clone() };
        r.push(e);
        assert(r@ =~= h@.take(i + 1));
        i += 1;
    }
    assert(h@.take(h@.len() as int) =~= h@);
    r
}

} // verus!
