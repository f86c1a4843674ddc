use std::collections::HashMap;
use vstd::prelude::*;

use crate::common::{opt_map, opt_seq, Identifiable};
use crate::message::GeneralMessage;
use crate::networking::{self, ApiRequest, HttpMethod};

verus! {

/// A conversation as the service returned it.
#[derive(Clone, Debug)]
pub struct Thread {
    pub id: String,
    pub object: String,
    pub created_at: i64,
    pub metadata: HashMap<String, String>,
}

impl Identifiable for Thread {
    open spec fn identifier(&self) -> Seq<char> {
        self.id@
    }

    fn get_identifier(&self) -> (r: String) {
        self.id.clone()
    }
}

impl<'a> Identifiable for &'a Thread {
    open spec fn identifier(&self) -> Seq<char> {
        (**self).identifier()
    }

    fn get_identifier(&self) -> (r: String) {
        (**self).get_identifier()
    }
}

/// A thread to create, with optional first messages and metadata.
#[derive(Clone, Debug)]
pub struct ThreadBuilder {
    messages: Option<Vec<GeneralMessage>>,
    metadata: Option<HashMap<String, String>>,
}

/// What a `ThreadBuilder` holds.
pub struct ThreadBuilderView {
    pub messages: Option<Seq<GeneralMessage>>,
    pub metadata: Option<Map<String, String>>,
}

impl View for ThreadBuilder {
    type V = ThreadBuilderView;

    closed spec fn view(&self) -> ThreadBuilderView {
        ThreadBuilderView {
            messages: opt_seq(self.messages),
            metadata: opt_map(self.metadata),
        }
    }
}

impl ThreadBuilder {
    pub fn new() -> (r: Self)
        ensures
            r@ == (ThreadBuilderView { messages: None, metadata: None }),
    {
        ThreadBuilder { messages: None, metadata: None }
    }

    pub fn with_messages(self, messages: Vec<GeneralMessage>) -> (r: Self)
        ensures
            r@ == (ThreadBuilderView { messages: Some(messages@), ..self@ }),
    {
        ThreadBuilder { messages: Some(messages), ..self }
    }

    /// Appends one message.
    pub fn add_message(self, message: GeneralMessage) -> (r: Self)
        ensures
            r@ == (ThreadBuilderView {
                messages: Some(
                    match self@.messages {
                        Some(m) => m,
                        None => Seq::empty(),
                    }.push(message),
                ),
                ..self@
            }),
    {
        let ThreadBuilder { messages, metadata } = self;
        let mut messages = match messages {
            Some(m) => m,
            None => Vec::new(),
        };
        messages.push(message);
        ThreadBuilder { messages: Some(messages), metadata }
    }

    pub fn with_metadata(self, metadata: HashMap<String, String>) -> (r: Self)
        ensures
            r@ == (ThreadBuilderView { metadata: Some(metadata@), ..self@ }),
    {
        ThreadBuilder { metadata: Some(metadata), ..self }
    }

    /// Where the thread is created.
    pub fn create_request(&self) -> (r: ApiRequest)
        ensures
            r.method == HttpMethod::Post,
            r.endpoint@ == "threads"@,
    {
        networking::create_thread()
    }
}

impl ThreadBuilder {
    pub fn messages(&self) -> (r: &Option<Vec<GeneralMessage>>)
        ensures
            opt_seq(*r) == self@.messages,
    {
        &self.messages
    }

    pub fn metadata(&self) -> (r: &Option<HashMap<String, String>>)
        ensures
            opt_map(*r) == self@.metadata,
    {
        &self.metadata
    }
}

} // verus!
