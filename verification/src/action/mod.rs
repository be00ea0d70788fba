//! Actions: the facts that describe what a package holds.

use vstd::prelude::*;

pub mod dir;
pub mod file;
pub mod manifest;
pub mod zpkg;

pub use self::dir::Dir;
pub use self::file::File;
pub use self::manifest::Manifest;
pub use self::manifest::ManifestError;
pub use self::zpkg::Zpkg;

verus! {

/// The kind of an action.
#[derive(Copy, Clone, Debug, PartialEq, Eq, Structural)]
pub enum ActionType {
    Dir,
    File,
    Zpkg,
}

impl ActionType {
    /// The name of the kind as it is written in identifiers.
    pub open spec fn name(self) -> Seq<char> {
        match self {
            ActionType::Dir => "Dir"@,
            ActionType::File => "File"@,
            ActionType::Zpkg => "Zpkg"@,
        }
    }

    pub fn to_string(&self) -> (r: String)
        ensures
            r@ == self.name(),
    {
        match self {
            ActionType::Dir => String::from_str("Dir"),
            ActionType::File => String::from_str("File"),
            ActionType::Zpkg => String::from_str("Zpkg"),
        }
    }
}

/// The identifier of an action: its kind, a `:` and its key.
pub open spec fn id_text(kind: ActionType, key: Seq<char>) -> Seq<char> {
    kind.name() + ":"@ + key
}

/// The line that describes a filesystem object: kind, `owner:group`, the
/// mode in base eight and the path.
pub open spec fn object_text(
    kind: ActionType,
    owner: Seq<char>,
    group: Seq<char>,
    mode: u32,
    path: Seq<char>,
) -> Seq<char> {
    kind.name() + " "@ + owner + ":"@ + group + " "@ + crate::text::octal_digits(mode as nat)
        + " "@ + path
}

pub(crate) fn make_id(kind: ActionType, key: &str) -> (r: String)
    ensures
        r@ == id_text(kind, key@),
{
    let mut out = kind.to_string();
    out.append(":");
    out.append(key);
    out
}

pub(crate) fn make_object_text(kind: ActionType, owner: &str, group: &str, mode: u32, path: &str) -> (r:
    String)
    ensures
        r@ == object_text(kind, owner@, group@, mode, path@),
{
    let mut out = kind.to_string();
    out.append(" ");
    out.append(owner);
    out.append(":");
    out.append(group);
    out.append(" ");
    out.append(crate::text::octal_text(mode).as_str());
    out.append(" ");
    out.append(path);
    out
}

/// One fact about what a package holds: a directory, a file, or the record
/// of the package itself.
#[derive(Clone, Debug)]
pub enum Action {
    Dir(Dir),
    File(File),
    Zpkg(Zpkg),
}

impl Action {
    pub open spec fn spec_kind(self) -> ActionType {
        match self {
            Action::Dir(_) => ActionType::Dir,
            Action::File(_) => ActionType::File,
            Action::Zpkg(_) => ActionType::Zpkg,
        }
    }

    /// The key that is unique among the actions of one kind.
    pub open spec fn spec_key(self) -> Seq<char> {
        match self {
            Action::Dir(d) => d.path@,
            Action::File(f) => f.path@,
            Action::Zpkg(z) => z.name@,
        }
    }

    pub open spec fn spec_is_valid(self) -> bool {
        match self {
            Action::Dir(d) => d.spec_is_valid(),
            Action::File(f) => f.spec_is_valid(),
            Action::Zpkg(z) => z.spec_is_valid(),
        }
    }

    pub open spec fn text(self) -> Seq<char> {
        match self {
            Action::Dir(d) => d.text(),
            Action::File(f) => f.text(),
            Action::Zpkg(z) => z.text(),
        }
    }

    pub fn id(&self) -> (r: String)
        ensures
            r@ == id_text(self.spec_kind(), self.spec_key()),
    {
        match self {
            Action::Dir(d) => d.id(),
            Action::File(f) => f.id(),
            Action::Zpkg(z) => z.id(),
        }
    }

    pub fn key(&self) -> (r: String)
        ensures
            r@ == self.spec_key(),
    {
        match self {
            Action::Dir(d) => d.key(),
            Action::File(f) => f.key(),
            Action::Zpkg(z) => z.key(),
        }
    }

    pub fn kind(&self) -> (r: ActionType)
        ensures
            r == self.spec_kind(),
    {
        match self {
            Action::Dir(_) => ActionType::Dir,
            Action::File(_) => ActionType::File,
            Action::Zpkg(_) => ActionType::Zpkg,
        }
    }

    pub fn is_valid(&self) -> (r: bool)
        ensures
            r == self.spec_is_valid(),
    {
        match self {
            Action::Dir(d) => d.is_valid(),
            Action::File(f) => f.is_valid(),
            Action::Zpkg(z) => z.is_valid(),
        }
    }

    pub fn to_string(&self) -> (r: String)
        ensures
            r@ == self.text(),
    {
        match self {
            Action::Dir(d) => d.to_string(),
            Action::File(f) => f.to_string(),
            Action::Zpkg(z) => z.to_string(),
        }
    }

    /// A copy with the same value.
    pub fn duplicate(&self) -> (r: Action)
        ensures
            r == *self,
    {
        match self {
            Action::Dir(d) => Action::Dir(d.duplicate()),
            Action::File(f) => Action::File(f.duplicate()),
            Action::Zpkg(z) => Action::Zpkg(z.duplicate()),
        }
    }

    /// Two actions are the same action when their identifiers agree: the
    /// same kind and the same key.
    pub fn same(&self, other: &Action) -> (r: bool)
        ensures
            r == (self.spec_kind() == other.spec_kind() && self.spec_key()
                == other.spec_key()),
    {
        self.kind() == other.kind() && crate::text::same_text(
            self.key().as_str(),
            other.key().as_str(),
        )
    }
}

impl PartialEq for Action {
    /// Two actions are the same action when kind and key agree.
    fn eq(&self, other: &Action) -> (r: bool) {
        self.same(other)
    }
}

impl vstd::std_specs::cmp::PartialEqSpecImpl for Action {
    open spec fn obeys_eq_spec() -> bool {
        true
    }

    open spec fn eq_spec(&self, other: &Action) -> bool {
        self.spec_kind() == other.spec_kind() && self.spec_key() == other.spec_key()
    }
}

} // verus!
