use vstd::prelude::*;

use crate::common::Identifiable;
use crate::networking::{self, ApiRequest, HttpMethod};

verus! {

/// An uploaded file as the service returned it.
#[derive(Clone, Debug)]
pub struct File {
    pub id: String,
    pub bytes: u64,
    pub created_at: i64,
    pub filename: String,
    pub object: String,
    pub purpose: String,
}

impl Identifiable for File {
    open spec fn identifier(&self) -> Seq<char> {
        self.id@
    }

    fn get_identifier(&self) -> (r: String) {
        self.id.clone()
    }
}

impl<'a> Identifiable for &'a File {
    open spec fn identifier(&self) -> Seq<char> {
        (**self).identifier()
    }

    fn get_identifier(&self) -> (r: String) {
        (**self).get_identifier()
    }
}

/// What an uploaded file is for.
#[derive(Clone, Copy, Debug, PartialEq, Eq, Structural)]
pub enum FileTypes {
    FineTune,
    Assistants,
}

impl FileTypes {
    /// The name the service knows the purpose by.
    pub open spec fn spec_name(self) -> Seq<char> {
        match self {
            FileTypes::FineTune => "fine-tune"@,
            FileTypes::Assistants => "assistants"@,
        }
    }

    pub fn name(self) -> (r: String)
        ensures
            r@ == self.spec_name(),
    {
        match self {
            FileTypes::FineTune => String::from_str("fine-tune"),
            FileTypes::Assistants => String::from_str("assistants"),
        }
    }
}

/// A local file to upload, by its path, and its purpose.
#[derive(Clone, Debug)]
pub struct FileBuilder {
    file: String,
    purpose: FileTypes,
}

impl FileBuilder {
    pub fn new(file: String, purpose: FileTypes) -> (r: Self)
        ensures
            r.spec_path() == file@,
            r.spec_purpose() == purpose,
    {
        FileBuilder { file, purpose }
    }

    pub closed spec fn spec_path(&self) -> Seq<char> {
        self.file@
    }

    pub closed spec fn spec_purpose(&self) -> FileTypes {
        self.purpose
    }

    /// The path of the file to upload.
    pub fn path(&self) -> (r: &String)
        ensures
            r@ == self.spec_path(),
    {
        &self.file
    }

    /// The purpose field of the upload form.
    pub fn purpose_str(&self) -> (r: String)
        ensures
            r@ == self.spec_purpose().spec_name(),
    {
        self.purpose.name()
    }

    /// Where the file is uploaded.
    pub fn create_request(&self) -> (r: ApiRequest)
        ensures
            r.method == HttpMethod::Post,
            r.endpoint@ == "files"@,
    {
        networking::upload_file()
    }
}

} // verus!
