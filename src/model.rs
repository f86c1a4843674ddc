use vstd::prelude::*;

use crate::common::Identifiable;

verus! {

/// A model the service offers.
#[derive(Clone, Debug)]
pub struct Model {
    pub id: String,
    pub created: i64,
    pub object: String,
    pub owned_by: String,
}

impl Identifiable for Model {
    open spec fn identifier(&self) -> Seq<char> {
        self.id@
    }

    fn get_identifier(&self) -> (r: String) {
        self.id.clone()
    }
}

impl<'a> Identifiable for &'a Model {
    open spec fn identifier(&self) -> Seq<char> {
        (**self).identifier()
    }

    fn get_identifier(&self) -> (r: String) {
        (**self).get_identifier()
    }
}

} // verus!
