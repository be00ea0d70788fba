//! The action that creates a directory.

use vstd::prelude::*;
use super::{id_text, make_id, make_object_text, object_text, ActionType};

verus! {

/// A directory to create.
#[derive(Clone, Debug)]
pub struct Dir {
    pub path: String,
    pub owner: String,
    pub group: String,
    pub mode: u32,
}

impl Dir {
    /// A directory is valid when it has a path.
    pub open spec fn spec_is_valid(self) -> bool {
        self.path@.len() > 0
    }

    pub open spec fn text(self) -> Seq<char> {
        object_text(ActionType::Dir, self.owner@, self.group@, self.mode, self.path@)
    }

    pub fn id(&self) -> (r: String)
        ensures
            r@ == id_text(ActionType::Dir, self.path@),
    {
        make_id(ActionType::Dir, self.path.as_str())
    }

    pub fn key(&self) -> (r: String)
        ensures
            r@ == self.path@,
    {
        self.path.clone()
    }

    pub fn kind(&self) -> (r: ActionType)
        ensures
            r == ActionType::Dir,
    {
        ActionType::Dir
    }

    pub fn is_valid(&self) -> (r: bool)
        ensures
            r == self.spec_is_valid(),
    {
        self.path.as_str().unicode_len() > 0
    }

    pub fn to_string(&self) -> (r: String)
        ensures
            r@ == self.text(),
    {
        make_object_text(
            ActionType::Dir,
            self.owner.as_str(),
            self.group.as_str(),
            self.mode,
            self.path.as_str(),
        )
    }

    /// A copy with the same value.
    pub fn duplicate(&self) -> (r: Dir)
        ensures
            r == *self,
    {
        Dir {
            path: self.path.clone(),
            owner: self.owner.clone(),
            group: self.group.clone(),
            mode: self.mode,
        }
    }
}

impl PartialEq for Dir {
    /// Two directories are the same action when their paths agree.
    fn eq(&self, other: &Dir) -> (r: bool) {
        crate::text::same_text(self.path.as_str(), other.path.as_str())
    }
}

impl vstd::std_specs::cmp::PartialEqSpecImpl for Dir {
    open spec fn obeys_eq_spec() -> bool {
        true
    }

    open spec fn eq_spec(&self, other: &Dir) -> bool {
        self.path@ == other.path@
    }
}

} // verus!
