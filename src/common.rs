use std::collections::HashMap;
use vstd::prelude::*;

use crate::assistant::Assistant;
use crate::file::File;
use crate::message::Message;
use crate::model::Model;
use crate::run::Run;
use crate::thread::Thread;

verus! {

/// A value that names a remote resource.
///
/// Raw strings name themselves; fetched resources name themselves by their
/// `id` field. References resolve exactly as the value they point to.
pub trait Identifiable {
    /// The canonical identifier, as a sequence of characters.
    spec fn identifier(&self) -> Seq<char>;

    /// Returns the canonical identifier.
    fn get_identifier(&self) -> (r: String)
        ensures
            r@ == self.identifier(),
    ;
}

impl Identifiable for String {
    open spec fn identifier(&self) -> Seq<char> {
        self@
    }

    fn get_identifier(&self) -> (r: String) {
        self.clone()
    }
}

impl<'a> Identifiable for &'a String {
    open spec fn identifier(&self) -> Seq<char> {
        (**self).identifier()
    }

    fn get_identifier(&self) -> (r: String) {
        (**self).get_identifier()
    }
}

impl<'a> Identifiable for &'a str {
    open spec fn identifier(&self) -> Seq<char> {
        (**self)@
    }

    fn get_identifier(&self) -> (r: String) {
        (**self).to_owned()
    }
}

} // verus!

verus! {

/// The characters of an optional string.
pub open spec fn opt_str(o: Option<String>) -> Option<Seq<char>> {
    match o {
        Some(s) => Some(s@),
        None => None,
    }
}

/// The characters of each string.
pub open spec fn strs(v: Seq<String>) -> Seq<Seq<char>> {
    v.map_values(|s: String| s@)
}

/// The items of an optional vector.
pub open spec fn opt_seq<T>(o: Option<Vec<T>>) -> Option<Seq<T>> {
    match o {
        Some(v) => Some(v@),
        None => None,
    }
}

/// The characters of each string of an optional vector.
pub open spec fn opt_strs(o: Option<Vec<String>>) -> Option<Seq<Seq<char>>> {
    match o {
        Some(v) => Some(strs(v@)),
        None => None,
    }
}

/// The entries of an optional map.
pub open spec fn opt_map<K, V>(o: Option<HashMap<K, V>>) -> Option<Map<K, V>> {
    match o {
        Some(m) => Some(m@),
        None => None,
    }
}

/// A page of objects as the service lists them: the objects, and optional
/// pagination cursors.
#[derive(Clone, Debug)]
pub struct ApiList<T> {
    pub object: String,
    pub data: Vec<T>,
    pub first_id: Option<String>,
    pub last_id: Option<String>,
    pub has_more: Option<bool>,
}

impl<T> ApiList<T> {
    /// The listed objects, in the order the service returned them.
    pub fn get_data_vec(&self) -> (r: &Vec<T>)
        ensures
            r == &self.data,
    {
        &self.data
    }
}

/// Token counts of a completed request.
#[derive(Clone, Debug)]
pub struct Usage {
    pub completion_tokens: u32,
    pub prompt_tokens: u32,
    pub total_tokens: u32,
}

/// A tool that an assistant or a run may use.
#[derive(Clone, Debug)]
pub struct Tools {
    pub tool_type: ToolTypes,
    pub function: Option<ToolFunction>,
}

impl Tools {
    pub fn code_interpreter() -> (r: Self)
        ensures
            r.tool_type == ToolTypes::CodeInterpreter,
            r.function is None,
    {
        Tools { tool_type: ToolTypes::CodeInterpreter, function: None }
    }

    pub fn retrieval() -> (r: Self)
        ensures
            r.tool_type == ToolTypes::Retrieval,
            r.function is None,
    {
        Tools { tool_type: ToolTypes::Retrieval, function: None }
    }
}

#[derive(Clone, Copy, Debug, PartialEq, Eq, Structural)]
pub enum ToolTypes {
    CodeInterpreter,
    Retrieval,
    Function,
}

#[derive(Clone, Debug)]
pub struct ToolFunction {
    pub description: String,
    pub name: String,
}

/// A tool invocation requested by the service; `id` is what the caller's
/// output must be tagged with.
#[derive(Clone, Debug)]
pub struct ToolCalls {
    pub index: Option<u32>,
    pub id: String,
    pub call_type: String,
    pub function: ToolCallsFunction,
}

#[derive(Clone, Debug)]
pub struct ToolCallsFunction {
    pub name: String,
    pub arguments: String,
}

/// The service's answer to a deletion.
#[derive(Clone, Debug)]
pub struct DeletionStatus {
    pub id: String,
    pub object: String,
    pub deleted: bool,
}

/// Identifier resolution: a raw string resolves to itself, borrowed or
/// owned; a fetched resource resolves to its `id` field; and a reference to
/// a resource resolves exactly as the resource does.
pub proof fn lemma_identifier_resolution(
    s: String,
    text: &str,
    assistant: Assistant,
    file: File,
    message: Message,
    model: Model,
    run: Run,
    thread: Thread,
)
    ensures
        s.identifier() == s@,
        (&s).identifier() == s@,
        text.identifier() == text@,
        assistant.identifier() == assistant.id@,
        (&assistant).identifier() == assistant.identifier(),
        file.identifier() == file.id@,
        (&file).identifier() == file.identifier(),
        message.identifier() == message.id@,
        (&message).identifier() == message.identifier(),
        model.identifier() == model.id@,
        (&model).identifier() == model.identifier(),
        run.identifier() == run.id@,
        (&run).identifier() == run.identifier(),
        thread.identifier() == thread.id@,
        (&thread).identifier() == thread.identifier(),
{
}

} // verus!
