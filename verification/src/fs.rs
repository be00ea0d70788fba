//! Turning what a walk of a directory tree found into actions.

use vstd::prelude::*;
use crate::action::{Action, Dir, File};

verus! {

/// What kind of filesystem object an entry is.
#[derive(Copy, Clone, Debug, PartialEq, Eq, Structural)]
pub enum EntryKind {
    Dir,
    File,
    Symlink,
    Other,
}

/// One object found below the target directory.
#[derive(Clone, Debug)]
pub struct Entry {
    /// The path relative to the target directory; empty for the target
    /// directory itself.
    pub path: String,
    pub kind: EntryKind,
    /// The mode bits as the filesystem reports them, file type included.
    pub mode: u32,
    /// The name of the owning user, where the system knows one.
    pub owner: Option<String>,
    /// The name of the owning group, where the system knows one.
    pub group: Option<String>,
}

/// The permission bits of a mode.
pub open spec fn permissions(mode: u32) -> u32 {
    mode & 0o7777
}

/// The name recorded for an owner: `root` in a secure walk or where the
/// system knows no name, else the name.
pub open spec fn recorded(name: Option<String>, secure: bool) -> Seq<char> {
    match name {
        Some(n) => if secure {
            "root"@
        } else {
            n@
        },
        None => "root"@,
    }
}

/// Whether an entry gives an action: the target directory itself, symbolic
/// links and special files give none.
pub open spec fn gives_action(entry: Entry) -> bool {
    entry.path@.len() > 0 && (entry.kind == EntryKind::Dir || entry.kind == EntryKind::File)
}

/// Whether `action` is the action of `entry`: a directory or file action
/// with the entry's path, the recorded owner and group, and the permission
/// bits; a file has no place in a payload yet.
pub open spec fn action_of(entry: Entry, secure: bool, action: Action) -> bool {
    match action {
        Action::Dir(d) => entry.kind == EntryKind::Dir && d.path@ == entry.path@ && d.owner@
            == recorded(entry.owner, secure) && d.group@ == recorded(entry.group, secure)
            && d.mode == permissions(entry.mode),
        Action::File(f) => entry.kind == EntryKind::File && f.path@ == entry.path@ && f.owner@
            == recorded(entry.owner, secure) && f.group@ == recorded(entry.group, secure)
            && f.mode == permissions(entry.mode) && f.offset == 0 && f.csize == 0 && f.size == 0
            && f.digest@.len() == 0,
        Action::Zpkg(_) => false,
    }
}

/// How many of the entries give an action.
pub open spec fn count_actions(entries: Seq<Entry>) -> nat
    decreases entries.len(),
{
    if entries.len() == 0 {
        0
    } else {
        count_actions(entries.drop_last()) + if gives_action(entries.last()) {
            1nat
        } else {
            0nat
        }
    }
}

/// The position among the actions of the action that entry `i` gives.
pub open spec fn action_index(entries: Seq<Entry>, i: int) -> int {
    count_actions(entries.subrange(0, i)) as int
}

fn record(name: &Option<String>, secure: bool) -> (r: String)
    ensures
        r@ == recorded(*name, secure),
{
    match name {
        Some(n) => if secure {
            String::from_str("root")
        } else {
            n.clone()
        },
        None => String::from_str("root"),
    }
}

/// Makes actions of what a walk found.
#[derive(Copy, Clone, Debug)]
pub struct Resolver {}

impl Resolver {
    /// The action that one entry gives, if any.
    pub fn action_for(entry: &Entry, secure: bool) -> (r: Option<Action>)
        ensures
            r is Some == gives_action(*entry),
            r is Some ==> action_of(*entry, secure, r->0),
    {
        if entry.path.as_str().unicode_len() == 0 {
            return None;
        }
        match entry.kind {
            EntryKind::Dir => Some(
                Action::Dir(
                    Dir {
                        path: entry.path.clone(),
                        owner: record(&entry.owner, secure),
                        group: record(&entry.group, secure),
                        mode: entry.mode & 0o7777,
                    },
                ),
            ),
            EntryKind::File => Some(
                Action::File(
                    File {
                        path: entry.path.clone(),
                        owner: record(&entry.owner, secure),
                        group: record(&entry.group, secure),
                        mode: entry.mode & 0o7777,
                        offset: 0,
                        csize: 0,
                        size: 0,
                        digest: String::new(),
                    },
                ),
            ),
            _ => None,
        }
    }

    /// The actions that the entries of a walk give, in the order of the
    /// walk.
    pub fn walk(entries: &Vec<Entry>, secure: bool) -> (r: Vec<Action>)
        ensures
            r@.len() == count_actions(entries@),
            forall|i: int|
                0 <= i < entries@.len() && gives_action(#[trigger] entries@[i]) ==> action_of(
                    entries@[i],
                    secure,
                    r@[action_index(entries@, i)],
                ),
    {
        let mut actions: Vec<Action> = Vec::new();
        let mut i: usize = 0;
        while i < entries.len()
            invariant
                i <= entries.len(),
                actions@.len() == count_actions(entries@.subrange(0, i as int)),
                forall|k: int|
                    0 <= k < i && gives_action(#[trigger] entries@[k]) ==> action_index(entries@, k)
                        < actions@.len() && action_of(
                        entries@[k],
                        secure,
                        actions@[action_index(entries@, k)],
                    ),
            decreases entries.len() - i,
        {
            let ghost next = entries@.subrange(0, i + 1);
            assert(next.drop_last() =~= entries@.subrange(0, i as int));
            assert(next.last() == entries@[i as int]);
            match Resolver::action_for(&entries[i], secure) {
                Some(action) => {
                    actions.push(action);
                },
                None => {},
            }
            i = i + 1;
        }
        assert(entries@.subrange(0, i as int) =~= entries@);
        actions
    }
}

} // verus!
