//! Task registry: serializable task descriptions and the factories that
//! rebuild tasks from them.
//!
//! [`SerializableTask`] is an opt-in trait for task structs that can describe
//! their construction parameters as JSON. [`TaskRegistry`] maps type names
//! to factories that rebuild a task from such parameters.

use crate::json::{
    distinct_keys, entry_views, json_as_text, json_error_text, json_from_text, json_get, json_is_null, json_member,
    json_object, json_object_of, json_of_text, json_parsed, json_parses, json_string, json_text,
    json_text_of, json_to_text,
};
use crate::text::{debug_quoted, quoted};
use serde_json::Value;
use vstd::prelude::*;
use vstd::string::*;

verus! {

/// Error from the task registry.
#[derive(Debug)]
pub enum RegistryError {
    /// No factory registered for this type name.
    UnknownTaskType(String),
    /// The factory failed (e.g. bad JSON shape).
    DeserializationFailed(String),
}

/// The message of a registry error.
pub open spec fn registry_error_text(e: RegistryError) -> Seq<char> {
    match e {
        RegistryError::UnknownTaskType(name) => "no factory registered for task type "@ + debug_quoted(name@),
        RegistryError::DeserializationFailed(msg) => "task deserialization failed: "@ + msg@,
    }
}

impl RegistryError {
    /// The error's message, as shown to users.
    pub fn message(&self) -> (s: String)
        ensures
            s@ == registry_error_text(*self),
    {
        match self {
            RegistryError::UnknownTaskType(name) => {
                let mut s = String::from_str("no factory registered for task type ");
                s.append(quoted(name.as_str()).as_str());
                s
            },
            RegistryError::DeserializationFailed(msg) => {
                let mut s = String::from_str("task deserialization failed: ");
                s.append(msg.as_str());
                s
            },
        }
    }
}

/// Trait for task structs that can describe themselves for storage.
///
/// `serializable_type_name` is the stable registry key; `params` holds every
/// constructor parameter that affects behaviour.
pub trait SerializableTask {
    /// The type name that the task describes itself by. An impl states it
    /// to prove `serializable_type_name`; of one that does not, nothing is
    /// known.
    closed spec fn described_type(&self) -> Seq<char> {
        arbitrary()
    }

    /// The params that the task describes itself by. An impl states them
    /// to prove `params`; of one that does not, nothing is known.
    closed spec fn described_params(&self) -> Value {
        arbitrary()
    }

    /// Stable, human-readable type name used as the registry key.
    fn serializable_type_name(&self) -> (name: &'static str)
        ensures
            name@ == self.described_type(),
    ;

    /// Snapshot of all parameters needed to reconstruct the task.
    fn params(&self) -> (params: Value)
        ensures
            params == self.described_params(),
    ;
}

/// A serialized description of a single task: type name and params.
#[derive(Debug, Clone)]
pub struct TaskSnapshot {
    /// Stable type name, used as the registry lookup key.
    pub task_type: String,
    /// Constructor parameters as a JSON value.
    pub params: Value,
}

/// Why a snapshot could not be read from JSON text.
#[derive(Debug)]
pub enum SnapshotError {
    /// The text is not JSON.
    Json(serde_json::Error),
    /// The JSON has no string member `type_name`.
    MissingTaskType,
}

/// The message of a missing or mistyped `type_name` member.
pub open spec fn missing_task_type_text() -> Seq<char> {
    "missing or non-string 'type_name' field"@
}

impl SnapshotError {
    /// The error's message, as shown to users: the JSON parser's message,
    /// or that `type_name` is missing or not a string.
    pub fn message(&self) -> (s: String)
        ensures
            *self matches SnapshotError::MissingTaskType ==> s@ == missing_task_type_text(),
    {
        match self {
            SnapshotError::Json(e) => json_error_text(e),
            SnapshotError::MissingTaskType => {
                proof {
                    reveal_strlit("missing or non-string 'type_name' field");
                }
                String::from_str("missing or non-string 'type_name' field")
            },
        }
    }
}

/// The JSON object that stores a snapshot: `type_name` and `params`.
pub open spec fn snapshot_object(task_type: Seq<char>, params: Value) -> Value {
    json_object_of(seq![("type_name"@, json_of_text(task_type)), ("params"@, params)])
}

impl TaskSnapshot {
    /// Build a snapshot from a type name and params.
    pub fn new(task_type: &str, params: Value) -> (s: Self)
        ensures
            s.task_type@ == task_type@,
            s.params == params,
    {
        TaskSnapshot { task_type: String::from_str(task_type), params }
    }

    /// Build a snapshot from a task's own description of itself.
    pub fn from_task<S: SerializableTask + ?Sized>(task: &S) -> (s: Self)
        ensures
            s.task_type@ == task.described_type(),
            s.params == task.described_params(),
    {
        let name = task.serializable_type_name();
        let params = task.params();
        Self::new(name, params)
    }

    /// Serialize this snapshot to JSON text: an object with members
    /// `type_name` (a string) and `params`.
    ///
    /// Whenever the text reads back as JSON, it holds the snapshot's type
    /// name as the string member `type_name` and has a `params` member, so
    /// [`TaskSnapshot::from_json`] gives back a snapshot with the same type
    /// name.
    pub fn to_json(&self) -> (r: Result<String, serde_json::Error>)
        ensures
            r is Ok,
            r matches Ok(s) ==> s@ == json_text(snapshot_object(self.task_type@, self.params)),
            r matches Ok(s) ==> (json_parses(s@) ==> (json_member(json_parsed(s@), "type_name"@) matches Some(t)
                && json_text_of(t) == Some(self.task_type@) && json_member(json_parsed(s@), "params"@) is Some)),
    {
        let mut entries: Vec<(String, Value)> = Vec::new();
        entries.push((String::from_str("type_name"), json_string(self.task_type.as_str())));
        entries.push((String::from_str("params"), self.params.clone()));
        proof {
            assert(entry_views(entries@) =~= seq![("type_name"@, json_of_text(self.task_type@)), ("params"@, self.params)]);
        }
        proof {
            reveal_strlit("type_name");
            reveal_strlit("params");
            assert(distinct_keys(entries@)) by {
                assert(entries@[0].0@[0] != entries@[1].0@[0]);
            }
        }
        let ghost e = entries@;
        let obj = json_object(entries);
        proof {
            assert(json_member(obj, e[0].0@) == Some(e[0].1));
            assert(json_member(obj, e[1].0@) == Some(e[1].1));
        }
        json_to_text(&obj)
    }

    /// Read a snapshot from JSON text.
    ///
    /// Fails when the text is not JSON, or when it has no string member
    /// `type_name`. A missing `params` member reads as `null`.
    pub fn from_json(s: &str) -> (r: Result<Self, SnapshotError>)
        ensures
            !json_parses(s@) ==> r matches Err(SnapshotError::Json(_)),
            json_parses(s@) ==> match json_member(json_parsed(s@), "type_name"@) {
                Some(t) => match json_text_of(t) {
                    Some(name) => r matches Ok(snap) && snap.task_type@ == name && match json_member(
                        json_parsed(s@),
                        "params"@,
                    ) {
                        Some(p) => snap.params == p,
                        None => json_is_null(snap.params),
                    },
                    None => r matches Err(SnapshotError::MissingTaskType),
                },
                None => r matches Err(SnapshotError::MissingTaskType),
            },
    {
        let v = match json_from_text(s) {
            Ok(v) => v,
            Err(e) => {
                return Err(SnapshotError::Json(e));
            },
        };
        let name = match json_get(&v, "type_name") {
            Some(t) => match json_as_text(&t) {
                Some(name) => name,
                None => {
                    return Err(SnapshotError::MissingTaskType);
                },
            },
            None => {
                return Err(SnapshotError::MissingTaskType);
            },
        };
        let params = match json_get(&v, "params") {
            Some(p) => p,
            None => Value::default(),
        };
        Ok(TaskSnapshot { task_type: name, params })
    }
}

/// Registry that maps type names to task factories.
///
/// Factories are kept in registration order; each name occurs once.
pub struct TaskRegistry<F> {
    entries: Vec<(String, F)>,
}

impl<F> TaskRegistry<F> {
    /// The registered names, in registration order.
    pub closed spec fn names(&self) -> Seq<Seq<char>> {
        self.entries@.map_values(|e: (String, F)| e.0@)
    }

    /// Where the factory registered under `name` is kept.
    closed spec fn index_of(&self, name: Seq<char>) -> int {
        choose|i: int| 0 <= i < self.entries@.len() && self.entries@[i].0@ == name
    }

    /// The factory registered under `name`.
    pub closed spec fn factory(&self, name: Seq<char>) -> F {
        self.entries@[self.index_of(name)].1
    }

    /// Well-formedness: no name is registered twice.
    pub closed spec fn wf(&self) -> bool {
        self.names().no_duplicates()
    }

    /// Every registered factory accepts every JSON params value.
    pub closed spec fn factories_total<O>(&self) -> bool
        where F: Fn(Value) -> Result<O, RegistryError>,
    {
        forall|i: int, p: Value| 0 <= i < self.entries@.len() ==> #[trigger] call_requires(self.entries@[i].1, (p,))
    }

    proof fn lemma_factory_at(&self, i: int)
        requires
            self.wf(),
            0 <= i < self.entries@.len(),
        ensures
            self.names().contains(self.entries@[i].0@),
            self.factory(self.entries@[i].0@) == self.entries@[i].1,
    {
        let name = self.entries@[i].0@;
        assert(self.names()[i] == name);
        assert(exists|j: int| 0 <= j < self.entries@.len() && self.entries@[j].0@ == name);
        let j = self.index_of(name);
        assert(self.names()[j] == name);
        assert(i == j);
    }

    /// A registry with no names registered has only total factories.
    pub proof fn lemma_empty_is_total<O>(&self)
        where
            F: Fn(Value) -> Result<O, RegistryError>,
        requires
            self.names().len() == 0,
        ensures
            self.factories_total(),
    {
    }

    /// Create an empty registry.
    pub fn new() -> (r: Self)
        ensures
            r.wf(),
            r.names() == Seq::<Seq<char>>::empty(),
    {
        let r = TaskRegistry { entries: Vec::new() };
        assert(r.names() =~= Seq::<Seq<char>>::empty());
        r
    }

    /// Index of the entry registered under `name`, if any.
    fn position(&self, name: &String) -> (r: Option<usize>)
        requires
            self.wf(),
        ensures
            match r {
                Some(i) => i < self.entries@.len() && self.entries@[i as int].0@ == name@
                    && self.names().contains(name@) && self.factory(name@) == self.entries@[i as int].1,
                None => !self.names().contains(name@),
            },
    {
        let mut i: usize = 0;
        while i < self.entries.len()
            invariant
                self.wf(),
                i <= self.entries@.len(),
                forall|j: int| 0 <= j < i ==> self.entries@[j].0@ != name@,
            decreases self.entries@.len() - i,
        {
            if self.entries[i].0 == *name {
                proof {
                    self.lemma_factory_at(i as int);
                }
                return Some(i);
            }
            i += 1;
        }
        proof {
            if self.names().contains(name@) {
                let j = choose|j: int| 0 <= j < self.names().len() && self.names()[j] == name@;
                assert(self.entries@[j].0@ == name@);
            }
        }
        None
    }

    /// Register a factory under `name`, replacing any earlier factory under
    /// that name. A new name goes to the end of the registration order.
    pub fn register_factory<O>(&mut self, name: &str, factory: F)
        where
            F: Fn(Value) -> Result<O, RegistryError>,
        requires
            old(self).wf(),
            old(self).factories_total(),
            forall|p: Value| call_requires(factory, (p,)),
        ensures
            final(self).wf(),
            final(self).factories_total(),
            final(self).names() == (if old(self).names().contains(name@) {
                old(self).names()
            } else {
                old(self).names().push(name@)
            }),
            final(self).factory(name@) == factory,
            forall|k: Seq<char>| k != name@ && old(self).names().contains(k) ==> #[trigger] final(self).factory(k)
                == old(self).factory(k),
    {
        let key = String::from_str(name);
        let ghost before = *self;
        let ghost idx: int;
        match self.position(&key) {
            Some(i) => {
                self.entries.set(i, (key, factory));
                proof {
                    idx = i as int;
                }
                assert(self.names() =~= before.names()) by {
                    assert forall|j: int| 0 <= j < self.names().len() implies self.names()[j] == before.names()[j] by {
                        if j != i {
                            assert(self.entries@[j] == before.entries@[j]);
                        }
                    }
                }
            },
            None => {
                self.entries.push((key, factory));
                proof {
                    idx = before.entries@.len() as int;
                }
                assert(self.names() =~= before.names().push(name@));
            },
        }
        proof {
            assert(self.entries@[idx].0@ == name@ && self.entries@[idx].1 == factory);
            self.lemma_factory_at(idx);
            assert forall|k: Seq<char>| k != name@ && before.names().contains(k) implies #[trigger] self.factory(k)
                == before.factory(k) by {
                let a = choose|a: int| 0 <= a < before.names().len() && before.names()[a] == k;
                assert(before.entries@[a].0@ == k);
                before.lemma_factory_at(a);
                assert(a != idx);
                assert(self.entries@[a] == before.entries@[a]);
                self.lemma_factory_at(a);
            }
            assert forall|i: int, p: Value| 0 <= i < self.entries@.len() implies #[trigger] call_requires(
                self.entries@[i].1,
                (p,),
            ) by {
                if i != idx {
                    assert(self.entries@[i] == before.entries@[i]);
                }
            }
        }
    }

    /// Rebuild a task from its type name and params.
    ///
    /// An unregistered name gives `UnknownTaskType` with that name; otherwise
    /// the result is whatever the factory registered under the name makes of
    /// the params.
    pub fn deserialize<O>(&self, name: &str, params: Value) -> (r: Result<O, RegistryError>)
        where
            F: Fn(Value) -> Result<O, RegistryError>,
        requires
            self.wf(),
            self.factories_total(),
        ensures
            !self.names().contains(name@) ==> (r matches Err(RegistryError::UnknownTaskType(n)) && n@ == name@),
            self.names().contains(name@) ==> call_ensures(self.factory(name@), (params,), r),
    {
        let key = String::from_str(name);
        match self.position(&key) {
            Some(i) => {
                let f = &self.entries[i].1;
                f(params)
            },
            None => Err(RegistryError::UnknownTaskType(key)),
        }
    }

    /// Rebuild a task from a [`TaskSnapshot`].
    pub fn deserialize_snapshot<O>(&self, snapshot: &TaskSnapshot) -> (r: Result<O, RegistryError>)
        where
            F: Fn(Value) -> Result<O, RegistryError>,
        requires
            self.wf(),
            self.factories_total(),
        ensures
            !self.names().contains(snapshot.task_type@) ==> (r matches Err(RegistryError::UnknownTaskType(n))
                && n@ == snapshot.task_type@),
            self.names().contains(snapshot.task_type@) ==> call_ensures(
                self.factory(snapshot.task_type@),
                (snapshot.params,),
                r,
            ),
    {
        self.deserialize(snapshot.task_type.as_str(), snapshot.params.clone())
    }

    /// Returns `true` if a factory is registered under `name`.
    pub fn contains(&self, name: &str) -> (b: bool)
        requires
            self.wf(),
        ensures
            b == self.names().contains(name@),
    {
        let key = String::from_str(name);
        self.position(&key).is_some()
    }

    /// All registered type names, in registration order.
    pub fn registered_types(&self) -> (r: Vec<String>)
        ensures
            r@.map_values(|s: String| s@) == self.names(),
    {
        let mut r: Vec<String> = Vec::new();
        let mut i: usize = 0;
        while i < self.entries.len()
            invariant
                i <= self.entries@.len(),
                r@.len() == i,
                r@.map_values(|s: String| s@) == self.names().take(i as int),
            decreases self.entries@.len() - i,
        {
            let ghost before = r@;
            let x = self.entries[i].0.clone();
            r.push(x);
            assert(r@ == before.push(x));
            assert(x@ == self.names()[i as int]);
            assert(r@.map_values(|s: String| s@) =~= self.names().take(i + 1));
            i += 1;
        }
        assert(self.names().take(self.entries@.len() as int) =~= self.names());
        r
    }

    /// Number of registered type names.
    pub fn len(&self) -> (n: usize)
        ensures
            n == self.names().len(),
    {
        self.entries.len()
    }

    /// Returns `true` if no types are registered.
    pub fn is_empty(&self) -> (b: bool)
        ensures
            b == (self.names().len() == 0),
    {
        self.entries.len() == 0
    }
}

impl<F> Default for TaskRegistry<F> {
    fn default() -> (r: Self)
        ensures
            r.wf(),
            r.names() == Seq::<Seq<char>>::empty(),
    {
        Self::new()
    }
}

} // verus!
