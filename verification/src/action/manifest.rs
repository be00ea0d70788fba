//! The manifest: everything a package holds, and its identity.

use vstd::prelude::*;
use super::{Action, Dir, File, Zpkg};
use crate::text::same_text;

verus! {

/// The full description of a package: its identity record, its directories
/// and its files, each list in the order in which the entries were added.
#[derive(Clone, Debug)]
pub struct Manifest {
    pub zpkg: Zpkg,
    pub dirs: Vec<Dir>,
    pub files: Vec<File>,
}

/// Why a manifest is refused.
#[derive(Clone, Debug)]
pub enum ManifestError {
    /// Two entries among the directories and files share this path.
    DuplicateKey(String),
}

/// The paths of a list of directories, in order.
pub open spec fn dir_keys(dirs: Seq<Dir>) -> Seq<Seq<char>> {
    dirs.map_values(|d: Dir| d.path@)
}

/// The paths of a list of files, in order.
pub open spec fn file_keys(files: Seq<File>) -> Seq<Seq<char>> {
    files.map_values(|f: File| f.path@)
}

/// The directories among a list of actions, in order.
pub open spec fn dirs_in(actions: Seq<Action>) -> Seq<Dir>
    decreases actions.len(),
{
    if actions.len() == 0 {
        Seq::empty()
    } else {
        match actions.last() {
            Action::Dir(d) => dirs_in(actions.drop_last()).push(d),
            _ => dirs_in(actions.drop_last()),
        }
    }
}

/// The files among a list of actions, in order.
pub open spec fn files_in(actions: Seq<Action>) -> Seq<File>
    decreases actions.len(),
{
    if actions.len() == 0 {
        Seq::empty()
    } else {
        match actions.last() {
            Action::File(f) => files_in(actions.drop_last()).push(f),
            _ => files_in(actions.drop_last()),
        }
    }
}

/// The last identity record among a list of actions, or `current` where
/// there is none.
pub open spec fn zpkg_in(actions: Seq<Action>, current: Zpkg) -> Zpkg
    decreases actions.len(),
{
    if actions.len() == 0 {
        current
    } else {
        match actions.last() {
            Action::Zpkg(z) => z,
            _ => zpkg_in(actions.drop_last(), current),
        }
    }
}

/// Whether the key at position `k` already stands at an earlier position.
pub open spec fn repeats_at(keys: Seq<Seq<char>>, k: int) -> bool {
    exists|j: int| 0 <= j < k && keys[j] == keys[k]
}

/// Whether `key` is the first key that repeats an earlier one.
pub open spec fn first_repeated(keys: Seq<Seq<char>>, key: Seq<char>) -> bool {
    exists|k: int|
        0 <= k < keys.len() && key == keys[k] && repeats_at(keys, k) && forall|m: int|
            0 <= m < k ==> !repeats_at(keys, m)
}

/// Whether no key occurs twice.
pub open spec fn distinct_keys(keys: Seq<Seq<char>>) -> bool {
    forall|i: int, j: int| 0 <= i < j < keys.len() ==> keys[i] != keys[j]
}

fn has_dir(dirs: &Vec<Dir>, path: &str) -> (r: bool)
    ensures
        r == dir_keys(dirs@).contains(path@),
{
    let mut i: usize = 0;
    while i < dirs.len()
        invariant
            i <= dirs.len(),
            forall|k: int| 0 <= k < i ==> dir_keys(dirs@)[k] != path@,
        decreases dirs.len() - i,
    {
        if same_text(dirs[i].path.as_str(), path) {
            assert(dir_keys(dirs@)[i as int] == path@);
            return true;
        }
        i = i + 1;
    }
    false
}

fn has_file(files: &Vec<File>, path: &str) -> (r: bool)
    ensures
        r == file_keys(files@).contains(path@),
{
    let mut i: usize = 0;
    while i < files.len()
        invariant
            i <= files.len(),
            forall|k: int| 0 <= k < i ==> file_keys(files@)[k] != path@,
        decreases files.len() - i,
    {
        if same_text(files[i].path.as_str(), path) {
            assert(file_keys(files@)[i as int] == path@);
            return true;
        }
        i = i + 1;
    }
    false
}

impl Manifest {
    /// The sequence of all actions: the identity record, then the
    /// directories, then the files.
    pub open spec fn spec_actions(self) -> Seq<Action> {
        seq![Action::Zpkg(self.zpkg)] + self.dirs@.map_values(|d: Dir| Action::Dir(d))
            + self.files@.map_values(|f: File| Action::File(f))
    }

    /// The paths of the directories followed by those of the files.
    pub open spec fn keys(self) -> Seq<Seq<char>> {
        dir_keys(self.dirs@) + file_keys(self.files@)
    }

    /// A manifest with the given identity and nothing in it.
    pub fn new(zpkg: Zpkg) -> (r: Manifest)
        ensures
            r.zpkg == zpkg,
            r.dirs@.len() == 0,
            r.files@.len() == 0,
    {
        Manifest { zpkg, dirs: Vec::new(), files: Vec::new() }
    }

    /// All actions of the manifest: the identity record first, then the
    /// directories, then the files.
    pub fn actions(&self) -> (r: Vec<Action>)
        ensures
            r@ == self.spec_actions(),
    {
        let mut actions: Vec<Action> = Vec::new();
        actions.push(Action::Zpkg(self.zpkg.duplicate()));
        let ghost head = seq![Action::Zpkg(self.zpkg)];
        let ghost all_dirs = self.dirs@.map_values(|d: Dir| Action::Dir(d));
        let ghost all_files = self.files@.map_values(|f: File| Action::File(f));
        assert(actions@ =~= head + all_dirs.subrange(0, 0));
        let mut i: usize = 0;
        while i < self.dirs.len()
            invariant
                i <= self.dirs.len(),
                head == seq![Action::Zpkg(self.zpkg)],
                all_dirs == self.dirs@.map_values(|d: Dir| Action::Dir(d)),
                actions@ == head + all_dirs.subrange(0, i as int),
            decreases self.dirs.len() - i,
        {
            actions.push(Action::Dir(self.dirs[i].duplicate()));
            assert(actions@ =~= head + all_dirs.subrange(0, i + 1));
            i = i + 1;
        }
        assert(all_dirs.subrange(0, i as int) =~= all_dirs);
        assert(actions@ =~= head + all_dirs + all_files.subrange(0, 0));
        let mut j: usize = 0;
        while j < self.files.len()
            invariant
                j <= self.files.len(),
                all_files == self.files@.map_values(|f: File| Action::File(f)),
                actions@ == head + all_dirs + all_files.subrange(0, j as int),
            decreases self.files.len() - j,
        {
            actions.push(Action::File(self.files[j].duplicate()));
            assert(actions@ =~= head + all_dirs + all_files.subrange(0, j + 1));
            j = j + 1;
        }
        assert(all_files.subrange(0, j as int) =~= all_files);
        actions
    }

    /// Adds one action. An identity record replaces the manifest's own. A
    /// directory or a file is appended unless an entry of its kind already
    /// has its path; then the manifest stays as it is. So a list in which
    /// no path stands twice stays such a list.
    pub fn add(&mut self, action: Action)
        ensures
            distinct_keys(dir_keys(old(self).dirs@)) ==> distinct_keys(
                dir_keys(final(self).dirs@),
            ),
            distinct_keys(file_keys(old(self).files@)) ==> distinct_keys(
                file_keys(final(self).files@),
            ),
            match action {
                Action::Zpkg(z) => final(self).zpkg == z && final(self).dirs@ == old(self).dirs@
                    && final(self).files@ == old(self).files@,
                Action::Dir(d) => final(self).zpkg == old(self).zpkg && final(self).files@ == old(self).files@ && final(self).dirs@ == (if dir_keys(old(self).dirs@).contains(d.path@) {
                    old(self).dirs@
                } else {
                    old(self).dirs@.push(d)
                }),
                Action::File(f) => final(self).zpkg == old(self).zpkg && final(self).dirs@ == old(self).dirs@ && final(self).files@ == (if file_keys(old(self).files@).contains(
                    f.path@,
                ) {
                    old(self).files@
                } else {
                    old(self).files@.push(f)
                }),
            },
    {
        match action {
            Action::Zpkg(z) => {
                self.zpkg = z;
            },
            Action::Dir(d) => {
                if !has_dir(&self.dirs, d.path.as_str()) {
                    let ghost before = dir_keys(self.dirs@);
                    self.dirs.push(d);
                    proof {
                        let after = dir_keys(self.dirs@);
                        assert(after =~= before.push(d.path@));
                        assert forall|k: int| 0 <= k < before.len() implies before[k]
                            != d.path@ by {
                            assert(before.contains(before[k]));
                        }
                    }
                }
            },
            Action::File(f) => {
                if !has_file(&self.files, f.path.as_str()) {
                    let ghost before = file_keys(self.files@);
                    self.files.push(f);
                    proof {
                        let after = file_keys(self.files@);
                        assert(after =~= before.push(f.path@));
                        assert forall|k: int| 0 <= k < before.len() implies before[k]
                            != f.path@ by {
                            assert(before.contains(before[k]));
                        }
                    }
                }
            },
        }
    }

    /// Replaces both lists by the directories and files among `actions`, in
    /// the order given and without looking for repeated paths; the last
    /// identity record among them, if any, replaces the manifest's own.
    pub fn set(&mut self, actions: Vec<Action>)
        ensures
            final(self).dirs@ == dirs_in(actions@),
            final(self).files@ == files_in(actions@),
            final(self).zpkg == zpkg_in(actions@, old(self).zpkg),
    {
        self.dirs = Vec::new();
        self.files = Vec::new();
        let mut i: usize = 0;
        while i < actions.len()
            invariant
                i <= actions.len(),
                self.dirs@ == dirs_in(actions@.subrange(0, i as int)),
                self.files@ == files_in(actions@.subrange(0, i as int)),
                self.zpkg == zpkg_in(actions@.subrange(0, i as int), old(self).zpkg),
            decreases actions.len() - i,
        {
            proof {
                let next = actions@.subrange(0, i + 1);
                assert(next.drop_last() =~= actions@.subrange(0, i as int));
                assert(next.last() == actions@[i as int]);
            }
            match &actions[i] {
                Action::Zpkg(z) => {
                    self.zpkg = z.duplicate();
                },
                Action::Dir(d) => {
                    self.dirs.push(d.duplicate());
                },
                Action::File(f) => {
                    self.files.push(f.duplicate());
                },
            }
            i = i + 1;
        }
        assert(actions@.subrange(0, i as int) =~= actions@);
    }

    /// Checks that no path stands twice among the directories and files
    /// taken together. The error names the first path that repeats an
    /// earlier one, directories before files.
    pub fn validate(&self) -> (r: Result<(), ManifestError>)
        ensures
            r is Ok <==> distinct_keys(self.keys()),
            match r {
                Ok(_) => true,
                Err(ManifestError::DuplicateKey(key)) => first_repeated(self.keys(), key@),
            },
    {
        let nd: usize = self.dirs.len();
        let nf: usize = self.files.len();
        let ghost keys = self.keys();
        let mut k: usize = 0;
        while k < nd
            invariant
                nd == self.dirs.len(),
                nf == self.files.len(),
                keys == self.keys(),
                k <= nd,
                forall|m: int| 0 <= m < k ==> !repeats_at(keys, m),
            decreases nd - k,
        {
            let mut j: usize = 0;
            while j < k
                invariant
                    nd == self.dirs.len(),
                    keys == self.keys(),
                    k < nd,
                    j <= k,
                    forall|m: int| 0 <= m < k ==> !repeats_at(keys, m),
                    forall|m: int| 0 <= m < j ==> keys[m] != keys[k as int],
                decreases k - j,
            {
                if same_text(self.dirs[j].path.as_str(), self.dirs[k].path.as_str()) {
                    let key = self.dirs[k].key();
                    assert(keys[j as int] == keys[k as int]);
                    assert(repeats_at(keys, k as int));
                    assert(0 <= k < keys.len() && key@ == keys[k as int]);
                    assert(!distinct_keys(keys));
                    return Err(ManifestError::DuplicateKey(key));
                }
                j = j + 1;
            }
            k = k + 1;
        }
        let mut f: usize = 0;
        while f < nf
            invariant
                nd == self.dirs.len(),
                nf == self.files.len(),
                keys == self.keys(),
                f <= nf,
                forall|m: int| 0 <= m < nd + f ==> !repeats_at(keys, m),
            decreases nf - f,
        {
            let ghost at = nd + f;
            assert(keys[at as int] == self.files@[f as int].path@);
            let mut j: usize = 0;
            while j < nd
                invariant
                    nd == self.dirs.len(),
                    nf == self.files.len(),
                    keys == self.keys(),
                    f < nf,
                    j <= nd,
                    at == nd + f,
                    forall|m: int| 0 <= m < at ==> !repeats_at(keys, m),
                    forall|m: int| 0 <= m < j ==> keys[m] != keys[at as int],
                decreases nd - j,
            {
                if same_text(self.dirs[j].path.as_str(), self.files[f].path.as_str()) {
                    let key = self.files[f].key();
                    assert(keys[j as int] == keys[at as int]);
                    assert(repeats_at(keys, at as int));
                    assert(0 <= at < keys.len() && key@ == keys[at as int]);
                    assert(!distinct_keys(keys));
                    return Err(ManifestError::DuplicateKey(key));
                }
                j = j + 1;
            }
            let mut h: usize = 0;
            while h < f
                invariant
                    nd == self.dirs.len(),
                    nf == self.files.len(),
                    keys == self.keys(),
                    f < nf,
                    h <= f,
                    at == nd + f,
                    forall|m: int| 0 <= m < at ==> !repeats_at(keys, m),
                    forall|m: int| 0 <= m < nd + h ==> keys[m] != keys[at as int],
                decreases f - h,
            {
                if same_text(self.files[h].path.as_str(), self.files[f].path.as_str()) {
                    let key = self.files[f].key();
                    assert(keys[nd + h] == keys[at as int]);
                    assert(repeats_at(keys, at as int));
                    assert(0 <= at < keys.len() && key@ == keys[at as int]);
                    assert(!distinct_keys(keys));
                    return Err(ManifestError::DuplicateKey(key));
                }
                h = h + 1;
            }
            f = f + 1;
        }
        assert forall|i: int, j: int| 0 <= i < j < keys.len() implies keys[i] != keys[j] by {
            assert(!repeats_at(keys, j));
        }
        Ok(())
    }
}

/// Some path stands twice among the directories and files taken together
/// exactly when some path is the first to repeat an earlier one: the two
/// outcomes of validation exclude each other and leave nothing out.
pub proof fn lemma_repeated_iff_not_distinct(keys: Seq<Seq<char>>)
    ensures
        !distinct_keys(keys) <==> exists|key: Seq<char>| first_repeated(keys, key),
{
    if !distinct_keys(keys) {
        let (i, j) = choose|i: int, j: int| 0 <= i < j < keys.len() && keys[i] == keys[j];
        assert(repeats_at(keys, j));
        let k = lemma_least_repeat(keys, j);
        assert(first_repeated(keys, keys[k]));
    }
    if exists|key: Seq<char>| first_repeated(keys, key) {
        let key = choose|key: Seq<char>| first_repeated(keys, key);
        let k = choose|k: int|
            0 <= k < keys.len() && key == keys[k] && repeats_at(keys, k) && forall|m: int|
                0 <= m < k ==> !repeats_at(keys, m);
        let j = choose|j: int| 0 <= j < k && keys[j] == keys[k];
        assert(keys[j] == keys[k]);
    }
}

/// Where no path stands twice among the directories alone, nor among the
/// files alone, a path stands twice among both taken together exactly when
/// some directory and some file share it.
pub proof fn lemma_shared_path(dirs: Seq<Seq<char>>, files: Seq<Seq<char>>)
    requires
        distinct_keys(dirs),
        distinct_keys(files),
    ensures
        !distinct_keys(dirs + files) <==> exists|i: int, j: int|
            0 <= i < dirs.len() && 0 <= j < files.len() && dirs[i] == files[j],
{
    let keys = dirs + files;
    let n = dirs.len() as int;
    if !distinct_keys(keys) {
        let (a, b) = choose|a: int, b: int| 0 <= a < b < keys.len() && keys[a] == keys[b];
        if b < n {
            assert(keys[a] == dirs[a] && keys[b] == dirs[b]);
        } else if a >= n {
            assert(keys[a] == files[a - n] && keys[b] == files[b - n]);
        } else {
            assert(keys[a] == dirs[a] && keys[b] == files[b - n]);
            assert(dirs[a] == files[b - n]);
        }
    }
    if exists|i: int, j: int| 0 <= i < dirs.len() && 0 <= j < files.len() && dirs[i] == files[j] {
        let (i, j) = choose|i: int, j: int|
            0 <= i < dirs.len() && 0 <= j < files.len() && dirs[i] == files[j];
        assert(keys[i] == dirs[i] && keys[n + j] == files[j]);
    }
}

proof fn lemma_least_repeat(keys: Seq<Seq<char>>, upper: int) -> (k: int)
    requires
        0 <= upper < keys.len(),
        repeats_at(keys, upper),
    ensures
        0 <= k <= upper,
        repeats_at(keys, k),
        forall|m: int| 0 <= m < k ==> !repeats_at(keys, m),
    decreases upper,
{
    if exists|m: int| 0 <= m < upper && repeats_at(keys, m) {
        let m = choose|m: int| 0 <= m < upper && repeats_at(keys, m);
        lemma_least_repeat(keys, m)
    } else {
        upper
    }
}

} // verus!
