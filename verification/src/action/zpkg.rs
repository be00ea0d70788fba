//! The action that records the identity of the package itself.

use vstd::prelude::*;
use super::{id_text, make_id, ActionType};

verus! {

/// The identity record of a package.
#[derive(Clone, Debug)]
pub struct Zpkg {
    pub name: String,
    pub version: String,
    pub publisher: String,
    pub arch: String,
    pub os: String,
    pub summary: String,
    pub description: String,
}

impl Zpkg {
    /// The record is valid when none of its seven fields is empty.
    pub open spec fn spec_is_valid(self) -> bool {
        self.name@.len() > 0 && self.version@.len() > 0 && self.publisher@.len() > 0
            && self.arch@.len() > 0 && self.os@.len() > 0 && self.summary@.len() > 0
            && self.description@.len() > 0
    }

    /// The record written as `Zpkg name@version`.
    pub open spec fn text(self) -> Seq<char> {
        ActionType::Zpkg.name() + " "@ + self.name@ + "@"@ + self.version@
    }

    pub fn id(&self) -> (r: String)
        ensures
            r@ == id_text(ActionType::Zpkg, self.name@),
    {
        make_id(ActionType::Zpkg, self.name.as_str())
    }

    pub fn key(&self) -> (r: String)
        ensures
            r@ == self.name@,
    {
        self.name.clone()
    }

    pub fn kind(&self) -> (r: ActionType)
        ensures
            r == ActionType::Zpkg,
    {
        ActionType::Zpkg
    }

    pub fn is_valid(&self) -> (r: bool)
        ensures
            r == self.spec_is_valid(),
    {
        self.name.as_str().unicode_len() > 0 && self.version.as_str().unicode_len() > 0
            && self.publisher.as_str().unicode_len() > 0 && self.arch.as_str().unicode_len() > 0
            && self.os.as_str().unicode_len() > 0 && self.summary.as_str().unicode_len() > 0
            && self.description.as_str().unicode_len() > 0
    }

    pub fn to_string(&self) -> (r: String)
        ensures
            r@ == self.text(),
    {
        let mut out = ActionType::Zpkg.to_string();
        out.append(" ");
        out.append(self.name.as_str());
        out.append("@");
        out.append(self.version.as_str());
        out
    }

    /// A copy with the same value.
    pub fn duplicate(&self) -> (r: Zpkg)
        ensures
            r == *self,
    {
        Zpkg {
            name: self.name.clone(),
            version: self.version.clone(),
            publisher: self.publisher.clone(),
            arch: self.arch.clone(),
            os: self.os.clone(),
            summary: self.summary.clone(),
            description: self.description.clone(),
        }
    }
}

} // verus!
