//! The stages of building a package from a manifest and a directory tree.

use vstd::prelude::*;
use super::header::{CompType, HashMethod, Header, HeaderV1, Version};
use super::payload::{put_result, PayloadError, Writer, LEVEL};
use super::writer::container;
use crate::action::manifest::{dir_keys, dirs_in, distinct_keys, file_keys, files_in,
    first_repeated, zpkg_in};
use crate::action::{Action, Dir, File, Manifest, ManifestError, Zpkg};
use crate::package::{package_of, Package, PackageError, PackageFault, PackageView};
use crate::paths::{joined, path_join, path_pop, popped};
use crate::provider::{packs, provider_for, Options};
use crate::Phase;

verus! {

/// The bytes that zstd's block compressor makes of `data` at `level`, or
/// `None` where it fails.
pub uninterp spec fn zstd_block_spec(data: Seq<u8>, level: i32) -> Option<Seq<u8>>;

/// Calls `zstd::bulk::compress`. The contract names the compressed bytes.
#[verifier::external_body]
fn zstd_block(data: &[u8], level: i32) -> (r: Result<Vec<u8>, std::io::Error>)
    ensures
        match r {
            Ok(out) => zstd_block_spec(data@, level) == Some(out@),
            Err(_) => zstd_block_spec(data@, level) is None,
        },
{
    zstd::bulk::compress(data, level)
}

/// Why a build failed.
#[derive(Clone, Debug)]
pub enum BuildError {
    /// The manifest's identity record describes no package.
    Package(PackageError),
    /// The manifest holds a path twice.
    Manifest(ManifestError),
    /// The manifest could not be compressed.
    Compression,
    /// The compressed manifest is longer than a header can say.
    ManifestTooLarge,
}

/// The directories after the actions have been merged in, one by one: a
/// directory is appended unless its path is already there.
pub open spec fn merged_dirs(dirs: Seq<Dir>, actions: Seq<Action>) -> Seq<Dir>
    decreases actions.len(),
{
    if actions.len() == 0 {
        dirs
    } else {
        match actions[0] {
            Action::Dir(d) => if dir_keys(dirs).contains(d.path@) {
                merged_dirs(dirs, actions.drop_first())
            } else {
                merged_dirs(dirs.push(d), actions.drop_first())
            },
            _ => merged_dirs(dirs, actions.drop_first()),
        }
    }
}

/// The files after the actions have been merged in, one by one: a file is
/// appended unless its path is already there.
pub open spec fn merged_files(files: Seq<File>, actions: Seq<Action>) -> Seq<File>
    decreases actions.len(),
{
    if actions.len() == 0 {
        files
    } else {
        match actions[0] {
            Action::File(f) => if file_keys(files).contains(f.path@) {
                merged_files(files, actions.drop_first())
            } else {
                merged_files(files.push(f), actions.drop_first())
            },
            _ => merged_files(files, actions.drop_first()),
        }
    }
}

/// The bytes of the files to package, `None` for a file that does not
/// exist.
pub open spec fn source_views(sources: Seq<Option<Vec<u8>>>) -> Seq<Option<Seq<u8>>> {
    sources.map_values(
        |o: Option<Vec<u8>>|
            match o {
                Some(v) => Some(v@),
                None => None,
            },
    )
}

/// The payload after the sources have been stored one after the other,
/// or `None` where one of them could not be compressed.
pub open spec fn blob_after(sources: Seq<Option<Seq<u8>>>, blob: Seq<u8>) -> Option<Seq<u8>>
    decreases sources.len(),
{
    if sources.len() == 0 {
        Some(blob)
    } else {
        match blob_after(sources.drop_last(), blob) {
            None => None,
            Some(before) => match put_result(before, sources.last()) {
                Ok(done) => Some(done.0),
                Err(_) => None,
            },
        }
    }
}

/// The payload when the first `i` sources have been stored.
pub open spec fn blob_at(sources: Seq<Option<Seq<u8>>>, blob: Seq<u8>, i: int) -> Seq<u8> {
    blob_after(sources.subrange(0, i), blob)->0
}

proof fn lemma_blob_none(sources: Seq<Option<Seq<u8>>>, blob: Seq<u8>, j: int)
    requires
        0 <= j <= sources.len(),
        blob_after(sources.subrange(0, j), blob) is None,
    ensures
        blob_after(sources, blob) is None,
    decreases sources.len() - j,
{
    if j < sources.len() {
        assert(sources.subrange(0, j + 1).drop_last() =~= sources.subrange(0, j));
        lemma_blob_none(sources, blob, j + 1);
    } else {
        assert(sources.subrange(0, j) =~= sources);
    }
}

/// Builds packages, stage by stage.
#[derive(Clone, Debug)]
pub struct Builder {
    pub compression: CompType,
    pub hash_method: HashMethod,
    pub provider_options: Options,
    pub version: Version,
    pub output_path: Option<String>,
    pub zpf_path: Option<String>,
    pub owner: Option<String>,
    pub group: Option<String>,
    pub secure: bool,
    pub restrict: bool,
    pub file_path: Option<String>,
    pub manifest: Option<Manifest>,
}

impl Builder {
    /// A builder with the default methods that walks the tree securely.
    pub fn new() -> (r: Builder)
        ensures
            r.compression == CompType::ZSTD,
            r.hash_method == HashMethod::SHA3_256,
            r.provider_options.target_path is None,
            r.provider_options.work_path is None,
            !r.provider_options.debug,
            !r.provider_options.verbose,
            r.version == Version::V1,
            r.output_path is None,
            r.zpf_path is None,
            r.owner is None,
            r.group is None,
            r.secure,
            !r.restrict,
            r.file_path is None,
            r.manifest is None,
    {
        Builder {
            compression: CompType::ZSTD,
            hash_method: HashMethod::SHA3_256,
            provider_options: Options::new(),
            version: Version::V1,
            output_path: None,
            zpf_path: None,
            owner: None,
            group: None,
            secure: true,
            restrict: false,
            file_path: None,
            manifest: None,
        }
    }

    pub fn compression(&mut self, comp_type: CompType)
        ensures
            *final(self) == (Builder { compression: comp_type, ..*old(self) }),
    {
        self.compression = comp_type;
    }

    pub fn target(&mut self, path: String)
        ensures
            *final(self) == (Builder {
                provider_options: Options {
                    target_path: Some(path),
                    ..old(self).provider_options
                },
                ..*old(self)
            }),
    {
        self.provider_options.target_path = Some(path);
    }

    pub fn work(&mut self, path: String)
        ensures
            *final(self) == (Builder {
                provider_options: Options { work_path: Some(path), ..old(self).provider_options },
                ..*old(self)
            }),
    {
        self.provider_options.work_path = Some(path);
    }

    pub fn insecure(&mut self)
        ensures
            *final(self) == (Builder { secure: false, ..*old(self) }),
    {
        self.secure = false;
    }

    pub fn restrict(&mut self)
        ensures
            *final(self) == (Builder { restrict: true, ..*old(self) }),
    {
        self.restrict = true;
    }

    pub fn owner(&mut self, owner: String)
        ensures
            *final(self) == (Builder { owner: Some(owner), ..*old(self) }),
    {
        self.owner = Some(owner);
    }

    pub fn group(&mut self, group: String)
        ensures
            *final(self) == (Builder { group: Some(group), ..*old(self) }),
    {
        self.group = Some(group);
    }

    pub fn debug(&mut self)
        ensures
            *final(self) == (Builder {
                provider_options: Options { debug: true, ..old(self).provider_options },
                ..*old(self)
            }),
    {
        self.provider_options.debug = true;
    }

    pub fn verbose(&mut self)
        ensures
            *final(self) == (Builder {
                provider_options: Options { verbose: true, ..old(self).provider_options },
                ..*old(self)
            }),
    {
        self.provider_options.verbose = true;
    }

    pub fn version(&mut self, version: Version)
        ensures
            *final(self) == (Builder { version, ..*old(self) }),
    {
        self.version = version;
    }

    pub fn output(&mut self, path: String)
        ensures
            *final(self) == (Builder { output_path: Some(path), ..*old(self) }),
    {
        self.output_path = Some(path);
    }

    pub fn zpf(&mut self, path: String)
        ensures
            *final(self) == (Builder { zpf_path: Some(path), ..*old(self) }),
    {
        self.zpf_path = Some(path);
    }

    /// Fills in the paths that were not set: the output and the working
    /// directory are the current directory, the declaration is `Zpkgfile`
    /// in the current directory.
    pub fn set_paths(&mut self, current_dir: &str)
        ensures
            final(self).output_path is Some,
            final(self).provider_options.work_path is Some,
            final(self).zpf_path is Some,
            old(self).output_path is Some ==> final(self).output_path == old(self).output_path,
            old(self).output_path is None ==> final(self).output_path->0@ == current_dir@,
            old(self).provider_options.work_path is Some ==> final(self).provider_options.work_path
                == old(self).provider_options.work_path,
            old(self).provider_options.work_path is None ==> final(self).provider_options.work_path->0@ == current_dir@,
            old(self).zpf_path is Some ==> final(self).zpf_path == old(self).zpf_path,
            old(self).zpf_path is None ==> final(self).zpf_path->0@ == joined(
                current_dir@,
                "Zpkgfile"@,
            ),
            final(self).provider_options.target_path == old(self).provider_options.target_path,
            final(self).provider_options.debug == old(self).provider_options.debug,
            final(self).provider_options.verbose == old(self).provider_options.verbose,
            final(self).compression == old(self).compression,
            final(self).hash_method == old(self).hash_method,
            final(self).version == old(self).version,
            final(self).owner == old(self).owner,
            final(self).group == old(self).group,
            final(self).secure == old(self).secure,
            final(self).restrict == old(self).restrict,
            final(self).file_path == old(self).file_path,
            final(self).manifest == old(self).manifest,
    {
        if self.output_path.is_none() {
            self.output_path = Some(String::from_str(current_dir));
        }
        if self.provider_options.work_path.is_none() {
            self.provider_options.work_path = Some(String::from_str(current_dir));
        }
        if self.zpf_path.is_none() {
            self.zpf_path = Some(path_join(current_dir, "Zpkgfile"));
        }
    }

    /// Settles the declaration and the target once it is known whether
    /// the declaration path is a directory: a directory stands for the
    /// `Zpkgfile` in it, and a target that was not set is `proto` beside
    /// the declaration.
    pub fn set_target(&mut self, zpf_is_dir: bool)
        requires
            old(self).zpf_path is Some,
        ensures
            final(self).zpf_path is Some,
            final(self).zpf_path->0@ == (if zpf_is_dir {
                joined(old(self).zpf_path->0@, "Zpkgfile"@)
            } else {
                old(self).zpf_path->0@
            }),
            final(self).provider_options.target_path is Some,
            old(self).provider_options.target_path is Some ==> final(self).provider_options.target_path == old(self).provider_options.target_path,
            old(self).provider_options.target_path is None ==> final(self).provider_options.target_path->0@ == joined(
                popped(final(self).zpf_path->0@),
                "proto"@,
            ),
            final(self).provider_options.work_path == old(self).provider_options.work_path,
            final(self).provider_options.debug == old(self).provider_options.debug,
            final(self).provider_options.verbose == old(self).provider_options.verbose,
            final(self).output_path == old(self).output_path,
            final(self).compression == old(self).compression,
            final(self).hash_method == old(self).hash_method,
            final(self).version == old(self).version,
            final(self).owner == old(self).owner,
            final(self).group == old(self).group,
            final(self).secure == old(self).secure,
            final(self).restrict == old(self).restrict,
            final(self).file_path == old(self).file_path,
            final(self).manifest == old(self).manifest,
    {
        let zpf: String = match &self.zpf_path {
            Some(p) => if zpf_is_dir {
                path_join(p.as_str(), "Zpkgfile")
            } else {
                p.clone()
            },
            None => String::new(),
        };
        if self.provider_options.target_path.is_none() {
            let parent = path_pop(zpf.as_str());
            self.provider_options.target_path = Some(path_join(parent.as_str(), "proto"));
        }
        self.zpf_path = Some(zpf);
    }

    /// Loads the declared manifest: the package `test` 1.0.0 with one
    /// directory and two files.
    pub fn load_zpf(&mut self)
        ensures
            final(self).manifest is Some,
            final(self).manifest->0.zpkg.name@ == "test"@,
            final(self).manifest->0.zpkg.version@ == "1.0.0"@,
            final(self).manifest->0.zpkg.publisher@ == "thing"@,
            final(self).manifest->0.zpkg.arch@ == "x86_64"@,
            final(self).manifest->0.zpkg.os@ == "darwin"@,
            final(self).manifest->0.zpkg.summary@ == "banan"@,
            final(self).manifest->0.zpkg.description@ == "narf"@,
            final(self).manifest->0.dirs@.len() == 1,
            final(self).manifest->0.dirs@[0].path@ == "nacho/taco"@,
            final(self).manifest->0.dirs@[0].owner@ == "root"@,
            final(self).manifest->0.dirs@[0].group@ == "root"@,
            final(self).manifest->0.dirs@[0].mode == 0o750,
            final(self).manifest->0.files@.len() == 2,
            final(self).manifest->0.files@[0].path@ == "nacho/taco/sniffer"@,
            final(self).manifest->0.files@[1].path@ == "nacho/oof.txt"@,
            forall|i: int|
                0 <= i < 2 ==> {
                    let f = #[trigger] final(self).manifest->0.files@[i];
                    f.owner@ == "root"@ && f.group@ == "root"@ && f.mode == 0o640 && f.offset == 0
                        && f.csize == 0 && f.size == 0 && f.digest@.len() == 0
                },
            final(self).provider_options == old(self).provider_options,
            final(self).output_path == old(self).output_path,
            final(self).zpf_path == old(self).zpf_path,
            final(self).compression == old(self).compression,
            final(self).hash_method == old(self).hash_method,
            final(self).version == old(self).version,
            final(self).owner == old(self).owner,
            final(self).group == old(self).group,
            final(self).secure == old(self).secure,
            final(self).restrict == old(self).restrict,
            final(self).file_path == old(self).file_path,
    {
        let mut manifest = Manifest::new(
            Zpkg {
                name: String::from_str("test"),
                version: String::from_str("1.0.0"),
                publisher: String::from_str("thing"),
                arch: String::from_str("x86_64"),
                os: String::from_str("darwin"),
                summary: String::from_str("banan"),
                description: String::from_str("narf"),
            },
        );
        manifest.dirs.push(
            Dir {
                path: String::from_str("nacho/taco"),
                owner: String::from_str("root"),
                group: String::from_str("root"),
                mode: 0o750,
            },
        );
        manifest.files.push(
            File {
                path: String::from_str("nacho/taco/sniffer"),
                owner: String::from_str("root"),
                group: String::from_str("root"),
                mode: 0o640,
                offset: 0,
                csize: 0,
                size: 0,
                digest: String::new(),
            },
        );
        manifest.files.push(
            File {
                path: String::from_str("nacho/oof.txt"),
                owner: String::from_str("root"),
                group: String::from_str("root"),
                mode: 0o640,
                offset: 0,
                csize: 0,
                size: 0,
                digest: String::new(),
            },
        );
        self.manifest = Some(manifest);
    }

    /// Merges what a walk of the target directory found into the
    /// manifest. An entry whose path the manifest already has is left
    /// out, so what was declared wins.
    pub fn resolve(&mut self, walked: Vec<Action>)
        requires
            old(self).manifest is Some,
        ensures
            final(self).manifest is Some,
            final(self).manifest->0.dirs@ == merged_dirs(old(self).manifest->0.dirs@, walked@),
            final(self).manifest->0.files@ == merged_files(old(self).manifest->0.files@, walked@),
            final(self).manifest->0.zpkg == zpkg_in(walked@, old(self).manifest->0.zpkg),
            final(self).provider_options == old(self).provider_options,
            final(self).output_path == old(self).output_path,
            final(self).zpf_path == old(self).zpf_path,
            final(self).compression == old(self).compression,
            final(self).hash_method == old(self).hash_method,
            final(self).version == old(self).version,
            final(self).owner == old(self).owner,
            final(self).group == old(self).group,
            final(self).secure == old(self).secure,
            final(self).restrict == old(self).restrict,
            final(self).file_path == old(self).file_path,
    {
        let mut manifest = match self.manifest.take() {
            Some(m) => m,
            None => {
                return ;
            },
        };
        let ghost start = manifest;
        let mut i: usize = 0;
        assert(walked@.subrange(0, walked@.len() as int) =~= walked@);
        assert(walked@.subrange(0, 0) =~= Seq::empty());
        while i < walked.len()
            invariant
                i <= walked.len(),
                merged_dirs(start.dirs@, walked@) == merged_dirs(
                    manifest.dirs@,
                    walked@.subrange(i as int, walked@.len() as int),
                ),
                merged_files(start.files@, walked@) == merged_files(
                    manifest.files@,
                    walked@.subrange(i as int, walked@.len() as int),
                ),
                manifest.zpkg == zpkg_in(walked@.subrange(0, i as int), start.zpkg),
            decreases walked.len() - i,
        {
            let ghost rest = walked@.subrange(i as int, walked@.len() as int);
            let ghost upto = walked@.subrange(0, i + 1);
            assert(rest[0] == walked@[i as int]);
            assert(rest.drop_first() =~= walked@.subrange(i + 1, walked@.len() as int));
            assert(upto.drop_last() =~= walked@.subrange(0, i as int));
            assert(upto.last() == walked@[i as int]);
            manifest.add(walked[i].duplicate());
            i = i + 1;
        }
        self.manifest = Some(manifest);
    }

    /// The paths of the files to package, in the order of the manifest:
    /// each file's path joined to the target directory.
    pub fn sources(&self) -> (r: Vec<String>)
        requires
            self.manifest is Some,
            self.provider_options.target_path is Some,
        ensures
            r@.len() == self.manifest->0.files@.len(),
            forall|i: int|
                0 <= i < r@.len() ==> (#[trigger] r@[i])@ == joined(
                    self.provider_options.target_path->0@,
                    self.manifest->0.files@[i].path@,
                ),
    {
        let mut out: Vec<String> = Vec::new();
        match (&self.manifest, &self.provider_options.target_path) {
            (Some(manifest), Some(target)) => {
                let mut i: usize = 0;
                while i < manifest.files.len()
                    invariant
                        i <= manifest.files.len(),
                        out@.len() == i,
                        forall|k: int|
                            0 <= k < i ==> (#[trigger] out@[k])@ == joined(
                                target@,
                                manifest.files@[k].path@,
                            ),
                    decreases manifest.files.len() - i,
                {
                    out.push(path_join(target.as_str(), manifest.files[i].path.as_str()));
                    i = i + 1;
                }
            },
            _ => {},
        }
        out
    }

    /// Realizes every action of the manifest for the package phase, the
    /// identity record first, then the directories, then the files, and
    /// replaces the manifest's actions by the realized ones. `sources`
    /// holds the bytes of each file, in the order of the manifest. Only
    /// the files change: each is stored in the payload and records where
    /// its bytes lie. Where a file cannot be compressed the manifest stays
    /// as it was.
    pub fn realize(&mut self, payload: &mut Writer, sources: &Vec<Option<Vec<u8>>>) -> (r: Result<
        (),
        PayloadError,
    >)
        requires
            old(self).manifest is Some,
            sources@.len() == old(self).manifest->0.files@.len(),
        ensures
            final(payload).comp_type == old(payload).comp_type,
            final(payload).hash_method == old(payload).hash_method,
            final(payload).path == old(payload).path,
            final(self).manifest is Some,
            final(self).manifest->0.zpkg == old(self).manifest->0.zpkg,
            final(self).manifest->0.dirs@ == old(self).manifest->0.dirs@,
            final(self).manifest->0.files@.len() == old(self).manifest->0.files@.len(),
            match r {
                Ok(_) => blob_after(source_views(sources@), old(payload).blob@) == Some(
                    final(payload).blob@,
                ) && forall|i: int|
                    0 <= i < sources@.len() ==> packs(
                        blob_at(source_views(sources@), old(payload).blob@, i),
                        #[trigger] source_views(sources@)[i],
                        blob_at(source_views(sources@), old(payload).blob@, i + 1),
                        old(self).manifest->0.files@[i],
                        final(self).manifest->0.files@[i],
                    ),
                Err(e) => e == PayloadError::Compression && blob_after(
                    source_views(sources@),
                    old(payload).blob@,
                ) is None && final(self).manifest->0.files@ == old(self).manifest->0.files@,
            },
            final(self).provider_options == old(self).provider_options,
            final(self).output_path == old(self).output_path,
            final(self).zpf_path == old(self).zpf_path,
            final(self).compression == old(self).compression,
            final(self).hash_method == old(self).hash_method,
            final(self).version == old(self).version,
            final(self).owner == old(self).owner,
            final(self).group == old(self).group,
            final(self).secure == old(self).secure,
            final(self).restrict == old(self).restrict,
            final(self).file_path == old(self).file_path,
    {
        let mut manifest = match self.manifest.take() {
            Some(m) => m,
            None => {
                return Ok(());
            },
        };
        let ghost start = manifest;
        let ghost ss = source_views(sources@);
        let ghost b0 = payload.blob@;
        let opts = self.provider_options.duplicate();
        let mut actions: Vec<Action> = Vec::new();
        let first = provider_for(Action::Zpkg(manifest.zpkg.duplicate())).realize(
            &opts,
            Phase::Package,
            None,
            payload,
            None,
        );
        match first {
            Ok(a) => {
                actions.push(a);
            },
            Err(e) => {
                self.manifest = Some(manifest);
                return Err(e);
            },
        }
        let mut d: usize = 0;
        proof {
            let none = actions@.drop_last();
            assert(none.len() == 0);
            assert(dirs_in(none) =~= Seq::empty());
            assert(files_in(none) =~= Seq::empty());
            assert(dirs_in(actions@) =~= start.dirs@.subrange(0, 0));
            assert(files_in(actions@) =~= Seq::empty());
        }
        while d < manifest.dirs.len()
            invariant
                d <= manifest.dirs.len(),
                manifest == start,
                start == old(self).manifest->0,
                ss == source_views(sources@),
                ss.len() == start.files@.len(),
                b0 == old(payload).blob@,
                *self == (Builder { manifest: None, ..*old(self) }),
                opts == self.provider_options,
                payload.blob@ == b0,
                payload.comp_type == old(payload).comp_type,
                payload.hash_method == old(payload).hash_method,
                payload.path == old(payload).path,
                dirs_in(actions@) == start.dirs@.subrange(0, d as int),
                files_in(actions@).len() == 0,
                forall|z: Zpkg| zpkg_in(actions@, z) == start.zpkg,
            decreases manifest.dirs.len() - d,
        {
            let ghost before = actions@;
            let next = provider_for(Action::Dir(manifest.dirs[d].duplicate())).realize(
                &opts,
                Phase::Package,
                None,
                payload,
                None,
            );
            match next {
                Ok(a) => {
                    actions.push(a);
                },
                Err(e) => {
                    self.manifest = Some(manifest);
                    return Err(e);
                },
            }
            proof {
                assert(actions@.drop_last() =~= before);
                assert(dirs_in(actions@) =~= start.dirs@.subrange(0, d + 1));
                assert forall|z: Zpkg| zpkg_in(actions@, z) == start.zpkg by {
                    assert(zpkg_in(before, z) == start.zpkg);
                }
            }
            d = d + 1;
        }
        assert(start.dirs@.subrange(0, d as int) =~= start.dirs@);
        let mut k: usize = 0;
        assert(ss.subrange(0, 0) =~= Seq::empty());
        while k < manifest.files.len()
            invariant
                k <= manifest.files.len(),
                manifest == start,
                start == old(self).manifest->0,
                ss == source_views(sources@),
                ss.len() == start.files@.len(),
                b0 == old(payload).blob@,
                payload.comp_type == old(payload).comp_type,
                payload.hash_method == old(payload).hash_method,
                payload.path == old(payload).path,
                *self == (Builder { manifest: None, ..*old(self) }),
                opts == self.provider_options,
                dirs_in(actions@) == start.dirs@,
                forall|z: Zpkg| zpkg_in(actions@, z) == start.zpkg,
                files_in(actions@).len() == k,
                blob_after(ss.subrange(0, k as int), b0) == Some(payload.blob@),
                forall|i: int|
                    0 <= i < k ==> packs(
                        blob_at(ss, b0, i),
                        #[trigger] ss[i],
                        blob_at(ss, b0, i + 1),
                        start.files@[i],
                        files_in(actions@)[i],
                    ),
            decreases manifest.files.len() - k,
        {
            let ghost before = actions@;
            let ghost blob_k = payload.blob@;
            let source: Option<&[u8]> = match &sources[k] {
                Some(v) => Some(v.as_slice()),
                None => None,
            };
            assert(ss.subrange(0, k + 1).drop_last() =~= ss.subrange(0, k as int));
            assert(ss.subrange(0, k + 1).last() == ss[k as int]);
            let next = provider_for(Action::File(manifest.files[k].duplicate())).realize(
                &opts,
                Phase::Package,
                None,
                payload,
                source,
            );
            match next {
                Ok(a) => {
                    actions.push(a);
                },
                Err(e) => {
                    proof {
                        lemma_blob_none(ss, b0, k + 1);
                    }
                    self.manifest = Some(manifest);
                    return Err(e);
                },
            }
            proof {
                assert(actions@.drop_last() =~= before);
                assert(files_in(actions@) =~= files_in(before).push(actions@.last()->File_0));
                assert forall|z: Zpkg| zpkg_in(actions@, z) == start.zpkg by {
                    assert(zpkg_in(before, z) == start.zpkg);
                }
                assert(blob_at(ss, b0, k as int) == blob_k);
                assert(blob_at(ss, b0, k + 1) == payload.blob@);
            }
            k = k + 1;
        }
        assert(ss.subrange(0, k as int) =~= ss);
        manifest.set(actions);
        self.manifest = Some(manifest);
        Ok(())
    }

    /// Names the package file after the package and checks the manifest.
    /// The file lies in the output directory and is called
    /// `name@version-os-arch.zpkg`. A manifest whose identity record
    /// describes no package fails first and names no file; one that holds a
    /// path twice fails with the first path that repeats.
    pub fn validate(&mut self) -> (r: Result<(), BuildError>)
        requires
            old(self).manifest is Some,
            old(self).output_path is Some,
        ensures
            final(self).manifest == old(self).manifest,
            match r {
                Ok(_) => package_of(old(self).manifest->0) is Ok && distinct_keys(
                    old(self).manifest->0.keys(),
                ),
                Err(BuildError::Package(e)) => package_of(old(self).manifest->0) == Err::<
                    PackageView,
                    PackageFault,
                >(e@),
                Err(BuildError::Manifest(ManifestError::DuplicateKey(key))) => package_of(
                    old(self).manifest->0,
                ) is Ok && first_repeated(old(self).manifest->0.keys(), key@),
                Err(_) => false,
            },
            package_of(old(self).manifest->0) is Err ==> final(self).file_path == old(self).file_path,
            package_of(old(self).manifest->0) is Ok ==> final(self).file_path is Some && final(self).file_path->0@ == joined(
                old(self).output_path->0@,
                package_of(old(self).manifest->0)->Ok_0.file_name(),
            ),
            final(self).provider_options == old(self).provider_options,
            final(self).output_path == old(self).output_path,
            final(self).zpf_path == old(self).zpf_path,
            final(self).compression == old(self).compression,
            final(self).hash_method == old(self).hash_method,
            final(self).version == old(self).version,
            final(self).owner == old(self).owner,
            final(self).group == old(self).group,
            final(self).secure == old(self).secure,
            final(self).restrict == old(self).restrict,
    {
        let manifest = match &self.manifest {
            Some(m) => m,
            None => {
                return Ok(());
            },
        };
        let record = Manifest::new(manifest.zpkg.duplicate());
        let package = match Package::from(record) {
            Ok(p) => p,
            Err(e) => {
                return Err(BuildError::Package(e));
            },
        };
        let checked = manifest.validate();
        let path = match &self.output_path {
            Some(out) => path_join(out.as_str(), package.file_name().as_str()),
            None => String::new(),
        };
        self.file_path = Some(path);
        match checked {
            Ok(_) => Ok(()),
            Err(e) => Err(BuildError::Manifest(e)),
        }
    }

    /// The bytes of the package file: the serialized manifest is
    /// compressed, a header says how long the result is, and magic bytes,
    /// header, compressed manifest and payload follow each other.
    pub fn assemble(&self, manifest_bytes: &[u8], payload: &[u8]) -> (r: Result<Vec<u8>, BuildError>)
        ensures
            match r {
                Ok(bytes) => zstd_block_spec(manifest_bytes@, LEVEL) is Some && zstd_block_spec(
                    manifest_bytes@,
                    LEVEL,
                )->0.len() <= u32::MAX && bytes@ == container(
                    HeaderV1 {
                        version: 1,
                        compression: 0,
                        hash_method: 0,
                        manifest_length: zstd_block_spec(manifest_bytes@, LEVEL)->0.len() as u32,
                    }.spec_bytes(),
                    zstd_block_spec(manifest_bytes@, LEVEL)->0,
                    payload@,
                ),
                Err(BuildError::Compression) => zstd_block_spec(manifest_bytes@, LEVEL) is None,
                Err(BuildError::ManifestTooLarge) => zstd_block_spec(manifest_bytes@, LEVEL)
                    is Some && zstd_block_spec(manifest_bytes@, LEVEL)->0.len() > u32::MAX,
                Err(_) => false,
            },
    {
        let packed = match self.compression {
            CompType::ZSTD => match zstd_block(manifest_bytes, LEVEL) {
                Ok(out) => out,
                Err(_) => {
                    return Err(BuildError::Compression);
                },
            },
        };
        if packed.len() > 0xffff_ffff {
            return Err(BuildError::ManifestTooLarge);
        }
        let header_bytes = match self.version {
            Version::V1 => HeaderV1::new(
                self.compression,
                self.hash_method,
                packed.len() as u32,
            ).to_vec(),
        };
        let writer = super::writer::Writer::new();
        Ok(writer.write(header_bytes.as_slice(), packed.as_slice(), payload))
    }
}

} // verus!
