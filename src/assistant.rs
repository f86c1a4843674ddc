use std::collections::HashMap;
use vstd::prelude::*;

use crate::common::{opt_map, opt_seq, opt_str, opt_strs, strs, Identifiable, Tools};
use crate::error::{OpenApiError, Rejected};
use crate::networking::{self, ApiRequest, HttpMethod};

verus! {

/// An assistant as the service returned it.
#[derive(Clone, Debug)]
pub struct Assistant {
    pub id: String,
    pub object: String,
    pub created_at: u64,
    pub name: Option<String>,
    pub description: Option<String>,
    pub model: String,
    pub instructions: Option<String>,
    pub tools: Vec<Tools>,
    pub file_ids: Vec<String>,
    pub metadata: HashMap<String, String>,
}

impl Identifiable for Assistant {
    open spec fn identifier(&self) -> Seq<char> {
        self.id@
    }

    fn get_identifier(&self) -> (r: String) {
        self.id.clone()
    }
}

impl<'a> Identifiable for &'a Assistant {
    open spec fn identifier(&self) -> Seq<char> {
        (**self).identifier()
    }

    fn get_identifier(&self) -> (r: String) {
        (**self).get_identifier()
    }
}

/// A file attached to an assistant.
#[derive(Clone, Debug)]
pub struct AssistantFile {
    pub id: String,
    pub object: String,
    pub created_at: u64,
    pub assistant_id: String,
}

/// The longest name, in characters.
pub const MAX_NAME: usize = 256;

/// The longest description, in characters.
pub const MAX_DESCRIPTION: usize = 512;

/// The longest instructions, in characters.
pub const MAX_INSTRUCTIONS: usize = 32768;

/// The most tools an assistant may have.
pub const MAX_TOOLS: usize = 128;

/// The most files an assistant may have.
pub const MAX_FILE_IDS: usize = 20;

/// An assistant to create or change. Each validating setter checks its
/// value before any network access; on refusal it hands the builder back
/// unchanged together with the error.
#[derive(Debug)]
pub struct AssistantBuilder {
    model: String,
    name: Option<String>,
    description: Option<String>,
    instructions: Option<String>,
    tools: Option<Vec<Tools>>,
    file_ids: Option<Vec<String>>,
    metadata: Option<HashMap<String, String>>,
}

/// What an `AssistantBuilder` holds.
pub struct AssistantBuilderView {
    pub model: Seq<char>,
    pub name: Option<Seq<char>>,
    pub description: Option<Seq<char>>,
    pub instructions: Option<Seq<char>>,
    pub tools: Option<Seq<Tools>>,
    pub file_ids: Option<Seq<Seq<char>>>,
    pub metadata: Option<Map<String, String>>,
}

impl AssistantBuilderView {
    /// The tools held, none when the list was never set.
    pub open spec fn tool_list(self) -> Seq<Tools> {
        match self.tools {
            Some(t) => t,
            None => Seq::empty(),
        }
    }

    /// The file ids held, none when the list was never set.
    pub open spec fn file_id_list(self) -> Seq<Seq<char>> {
        match self.file_ids {
            Some(f) => f,
            None => Seq::empty(),
        }
    }
}

impl View for AssistantBuilder {
    type V = AssistantBuilderView;

    closed spec fn view(&self) -> AssistantBuilderView {
        AssistantBuilderView {
            model: self.model@,
            name: opt_str(self.name),
            description: opt_str(self.description),
            instructions: opt_str(self.instructions),
            tools: opt_seq(self.tools),
            file_ids: opt_strs(self.file_ids),
            metadata: opt_map(self.metadata),
        }
    }
}

/// Checks a text against a ceiling on its length in characters.
fn check_length(text: &String, max: usize) -> (r: Result<(), OpenApiError>)
    ensures
        r is Ok <==> text@.len() <= max,
        r is Err ==>
            r == Err::<(), OpenApiError>(OpenApiError::InvalidLength(text@.len() as usize, max)),
{
    let len = text.as_str().unicode_len();
    if len > max {
        Err(OpenApiError::InvalidLength(len, max))
    } else {
        Ok(())
    }
}

impl AssistantBuilder {
    /// An assistant on `model`, resolved to its identifier now.
    pub fn new<T: Identifiable>(model: T) -> (r: Self)
        ensures
            r@ == (AssistantBuilderView {
                model: model.identifier(),
                name: None,
                description: None,
                instructions: None,
                tools: None,
                file_ids: None,
                metadata: None,
            }),
    {
        AssistantBuilder {
            model: model.get_identifier(),
            name: None,
            description: None,
            instructions: None,
            tools: None,
            file_ids: None,
            metadata: None,
        }
    }

    /// A builder holding what an existing assistant holds.
    pub fn from(assistant: Assistant) -> (r: Self)
        ensures
            r@ == (AssistantBuilderView {
                model: assistant.model@,
                name: opt_str(assistant.name),
                description: opt_str(assistant.description),
                instructions: opt_str(assistant.instructions),
                tools: Some(assistant.tools@),
                file_ids: Some(strs(assistant.file_ids@)),
                metadata: Some(assistant.metadata@),
            }),
    {
        AssistantBuilder {
            model: assistant.model,
            name: assistant.name,
            description: assistant.description,
            instructions: assistant.instructions,
            tools: Some(assistant.tools),
            file_ids: Some(assistant.file_ids),
            metadata: Some(assistant.metadata),
        }
    }

    /// Sets the name, at most 256 characters.
    pub fn with_name(self, name: String) -> (r: Result<Self, Rejected<Self>>)
        ensures
            r is Ok <==> name@.len() <= MAX_NAME,
            r matches Ok(b) ==> b@ == (AssistantBuilderView { name: Some(name@), ..self@ }),
            r matches Err(e) ==> e.builder == self && e.error == OpenApiError::InvalidLength(
                name@.len() as usize,
                MAX_NAME,
            ),
    {
        match check_length(&name, MAX_NAME) {
            Ok(()) => Ok(AssistantBuilder { name: Some(name), ..self }),
            Err(error) => Err(Rejected { builder: self, error }),
        }
    }

    /// Sets the description, at most 512 characters.
    pub fn with_description(self, description: String) -> (r: Result<Self, Rejected<Self>>)
        ensures
            r is Ok <==> description@.len() <= MAX_DESCRIPTION,
            r matches Ok(b) ==>
                b@ == (AssistantBuilderView { description: Some(description@), ..self@ }),
            r matches Err(e) ==> e.builder == self && e.error == OpenApiError::InvalidLength(
                description@.len() as usize,
                MAX_DESCRIPTION,
            ),
    {
        match check_length(&description, MAX_DESCRIPTION) {
            Ok(()) => Ok(AssistantBuilder { description: Some(description), ..self }),
            Err(error) => Err(Rejected { builder: self, error }),
        }
    }

    /// Sets the instructions, at most 32768 characters.
    pub fn with_instructions(self, instructions: String) -> (r: Result<Self, Rejected<Self>>)
        ensures
            r is Ok <==> instructions@.len() <= MAX_INSTRUCTIONS,
            r matches Ok(b) ==>
                b@ == (AssistantBuilderView { instructions: Some(instructions@), ..self@ }),
            r matches Err(e) ==> e.builder == self && e.error == OpenApiError::InvalidLength(
                instructions@.len() as usize,
                MAX_INSTRUCTIONS,
            ),
    {
        match check_length(&instructions, MAX_INSTRUCTIONS) {
            Ok(()) => Ok(AssistantBuilder { instructions: Some(instructions), ..self }),
            Err(error) => Err(Rejected { builder: self, error }),
        }
    }

    /// Replaces the tools, at most 128.
    pub fn with_tools(self, tools: Vec<Tools>) -> (r: Result<Self, Rejected<Self>>)
        ensures
            r is Ok <==> tools@.len() <= MAX_TOOLS,
            r matches Ok(b) ==> b@ == (AssistantBuilderView { tools: Some(tools@), ..self@ }),
            r matches Err(e) ==> e.builder == self && e.error == OpenApiError::InvalidLength(
                tools@.len() as usize,
                MAX_TOOLS,
            ),
    {
        if tools.len() <= MAX_TOOLS {
            Ok(AssistantBuilder { tools: Some(tools), ..self })
        } else {
            let len = tools.len();
            Err(Rejected { builder: self, error: OpenApiError::InvalidLength(len, MAX_TOOLS) })
        }
    }

    /// Appends one tool, unless the assistant already has 128.
    pub fn add_tool(self, tool: Tools) -> (r: Result<Self, Rejected<Self>>)
        ensures
            r is Ok <==> self@.tool_list().len() < MAX_TOOLS,
            r matches Ok(b) ==>
                b@ == (AssistantBuilderView { tools: Some(self@.tool_list().push(tool)), ..self@ }),
            r matches Err(e) ==> e.builder == self && e.error == OpenApiError::InvalidLength(
                (self@.tool_list().len() as usize).saturating_add(1),
                MAX_TOOLS,
            ),
    {
        let count = match &self.tools {
            Some(tools) => tools.len(),
            None => 0,
        };
        if count >= MAX_TOOLS {
            return Err(Rejected {
                builder: self,
                error: OpenApiError::InvalidLength(count.saturating_add(1), MAX_TOOLS),
            });
        }
        let AssistantBuilder { model, name, description, instructions, tools, file_ids, metadata } = self;
        let mut tools = match tools {
            Some(tools) => tools,
            None => Vec::new(),
        };
        tools.push(tool);
        Ok(AssistantBuilder {
            model,
            name,
            description,
            instructions,
            tools: Some(tools),
            file_ids,
            metadata,
        })
    }

    /// Replaces the files, at most 20.
    pub fn with_file_ids(self, file_ids: Vec<String>) -> (r: Result<Self, Rejected<Self>>)
        ensures
            r is Ok <==> file_ids@.len() <= MAX_FILE_IDS,
            r matches Ok(b) ==>
                b@ == (AssistantBuilderView { file_ids: Some(strs(file_ids@)), ..self@ }),
            r matches Err(e) ==> e.builder == self && e.error == OpenApiError::InvalidLength(
                file_ids@.len() as usize,
                MAX_FILE_IDS,
            ),
    {
        if file_ids.len() <= MAX_FILE_IDS {
            Ok(AssistantBuilder { file_ids: Some(file_ids), ..self })
        } else {
            let len = file_ids.len();
            Err(Rejected { builder: self, error: OpenApiError::InvalidLength(len, MAX_FILE_IDS) })
        }
    }

    /// Appends one file, resolved to its identifier now, unless the
    /// assistant already has 20.
    pub fn add_file_id<T: Identifiable>(self, file_id: T) -> (r: Result<Self, Rejected<Self>>)
        ensures
            r is Ok <==> self@.file_id_list().len() < MAX_FILE_IDS,
            r matches Ok(b) ==> b@ == (AssistantBuilderView {
                file_ids: Some(self@.file_id_list().push(file_id.identifier())),
                ..self@
            }),
            r matches Err(e) ==> e.builder == self && e.error == OpenApiError::InvalidLength(
                (self@.file_id_list().len() as usize).saturating_add(1),
                MAX_FILE_IDS,
            ),
    {
        let count = match &self.file_ids {
            Some(ids) => ids.len(),
            None => 0,
        };
        if count >= MAX_FILE_IDS {
            return Err(Rejected {
                builder: self,
                error: OpenApiError::InvalidLength(count.saturating_add(1), MAX_FILE_IDS),
            });
        }
        let file_id = file_id.get_identifier();
        let ghost before = self@.file_id_list();
        let AssistantBuilder { model, name, description, instructions, tools, file_ids, metadata } = self;
        let mut ids = match file_ids {
            Some(ids) => ids,
            None => Vec::new(),
        };
        assert(strs(ids@) =~= before);
        ids.push(file_id);
        assert(strs(ids@) =~= before.push(file_id@));
        Ok(AssistantBuilder {
            model,
            name,
            description,
            instructions,
            tools,
            file_ids: Some(ids),
            metadata,
        })
    }

    /// Sets the metadata; any string pairs are accepted.
    pub fn with_metadata(self, metadata: HashMap<String, String>) -> (r: Self)
        ensures
            r@ == (AssistantBuilderView { metadata: Some(metadata@), ..self@ }),
    {
        AssistantBuilder { metadata: Some(metadata), ..self }
    }

    /// Where the assistant is created.
    pub fn create_request(&self) -> (r: ApiRequest)
        ensures
            r.method == HttpMethod::Post,
            r.endpoint@ == "assistants"@,
    {
        networking::create_assistant()
    }
}

/// A file to attach to an assistant.
#[derive(Debug)]
pub struct AssistantFileBuilder {
    assistant_id: String,
    file_id: String,
}

impl AssistantFileBuilder {
    /// Attaches `file_id` to `assistant_id`; both are resolved to their
    /// identifiers now.
    pub fn new<T: Identifiable>(assistant_id: T, file_id: T) -> (r: Self)
        ensures
            r.spec_assistant_id() == assistant_id.identifier(),
            r.spec_file_id() == file_id.identifier(),
    {
        AssistantFileBuilder {
            assistant_id: assistant_id.get_identifier(),
            file_id: file_id.get_identifier(),
        }
    }

    pub fn assistant_id(&self) -> (r: &String)
        ensures
            r@ == self.spec_assistant_id(),
    {
        &self.assistant_id
    }

    pub fn file_id(&self) -> (r: &String)
        ensures
            r@ == self.spec_file_id(),
    {
        &self.file_id
    }

    pub closed spec fn spec_assistant_id(&self) -> Seq<char> {
        self.assistant_id@
    }

    pub closed spec fn spec_file_id(&self) -> Seq<char> {
        self.file_id@
    }

    /// Where the attachment is created: under its assistant.
    pub fn create_request(&self) -> (r: ApiRequest)
        ensures
            r.method == HttpMethod::Post,
            r.endpoint@ == "assistants/"@ + self.spec_assistant_id() + "/files"@,
    {
        networking::create_assistant_file(&self.assistant_id)
    }
}

impl AssistantBuilder {
    pub fn model(&self) -> (r: &String)
        ensures
            r@ == self@.model,
    {
        &self.model
    }

    pub fn name(&self) -> (r: &Option<String>)
        ensures
            opt_str(*r) == self@.name,
    {
        &self.name
    }

    pub fn description(&self) -> (r: &Option<String>)
        ensures
            opt_str(*r) == self@.description,
    {
        &self.description
    }

    pub fn instructions(&self) -> (r: &Option<String>)
        ensures
            opt_str(*r) == self@.instructions,
    {
        &self.instructions
    }

    pub fn tools(&self) -> (r: &Option<Vec<Tools>>)
        ensures
            opt_seq(*r) == self@.tools,
    {
        &self.tools
    }

    pub fn file_ids(&self) -> (r: &Option<Vec<String>>)
        ensures
            opt_strs(*r) == self@.file_ids,
    {
        &self.file_ids
    }

    pub fn metadata(&self) -> (r: &Option<HashMap<String, String>>)
        ensures
            opt_map(*r) == self@.metadata,
    {
        &self.metadata
    }
}

} // verus!
