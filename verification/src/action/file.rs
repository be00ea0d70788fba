//! The action that ships a regular file.

use vstd::prelude::*;
use super::{id_text, make_id, make_object_text, object_text, ActionType};

verus! {

/// A regular file to ship. The last four fields say where its bytes lie in
/// the payload; they are zero and empty until the file has been packed.
#[derive(Clone, Debug)]
pub struct File {
    pub path: String,
    pub owner: String,
    pub group: String,
    pub mode: u32,
    pub offset: u64,
    pub csize: u64,
    pub size: u64,
    pub digest: String,
}

impl File {
    /// A file is valid when it has a path, whatever its payload fields.
    pub open spec fn spec_is_valid(self) -> bool {
        self.path@.len() > 0
    }

    pub open spec fn text(self) -> Seq<char> {
        object_text(ActionType::File, self.owner@, self.group@, self.mode, self.path@)
    }

    pub fn id(&self) -> (r: String)
        ensures
            r@ == id_text(ActionType::File, self.path@),
    {
        make_id(ActionType::File, self.path.as_str())
    }

    pub fn key(&self) -> (r: String)
        ensures
            r@ == self.path@,
    {
        self.path.clone()
    }

    pub fn kind(&self) -> (r: ActionType)
        ensures
            r == ActionType::File,
    {
        ActionType::File
    }

    pub fn is_valid(&self) -> (r: bool)
        ensures
            r == self.spec_is_valid(),
    {
        self.path.as_str().unicode_len() > 0
    }

    pub fn to_string(&self) -> (r: String)
        ensures
            r@ == self.text(),
    {
        make_object_text(
            ActionType::File,
            self.owner.as_str(),
            self.group.as_str(),
            self.mode,
            self.path.as_str(),
        )
    }

    /// A copy with the same value.
    pub fn duplicate(&self) -> (r: File)
        ensures
            r == *self,
    {
        File {
            path: self.path.clone(),
            owner: self.owner.clone(),
            group: self.group.clone(),
            mode: self.mode,
            offset: self.offset,
            csize: self.csize,
            size: self.size,
            digest: self.digest.clone(),
        }
    }
}

impl PartialEq for File {
    /// Two files are the same action when their paths agree.
    fn eq(&self, other: &File) -> (r: bool) {
        crate::text::same_text(self.path.as_str(), other.path.as_str())
    }
}

impl vstd::std_specs::cmp::PartialEqSpecImpl for File {
    open spec fn obeys_eq_spec() -> bool {
        true
    }

    open spec fn eq_spec(&self, other: &File) -> bool {
        self.path@ == other.path@
    }
}

} // verus!
