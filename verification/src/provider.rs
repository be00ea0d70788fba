//! Providers: how each kind of action is realized in a phase.

use vstd::prelude::*;
use crate::action::{Action, Dir, File, Zpkg};
use crate::paths::{joined, path_join};
use crate::zpkg::payload::{put_result, spec_source, PayloadError, Reader, Stored, Writer};
use crate::Phase;

verus! {

/// What every provider is told.
#[derive(Clone, Debug)]
pub struct Options {
    /// The directory that holds the files to package.
    pub target_path: Option<String>,
    /// The directory for files that live only during the build.
    pub work_path: Option<String>,
    pub debug: bool,
    pub verbose: bool,
}

impl Options {
    pub fn new() -> (r: Options)
        ensures
            r.target_path is None,
            r.work_path is None,
            !r.debug,
            !r.verbose,
    {
        Options { target_path: None, work_path: None, debug: false, verbose: false }
    }

    /// A copy with the same value.
    pub fn duplicate(&self) -> (r: Options)
        ensures
            r == *self,
    {
        Options {
            target_path: match &self.target_path {
                Some(p) => Some(p.clone()),
                None => None,
            },
            work_path: match &self.work_path {
                Some(p) => Some(p.clone()),
                None => None,
            },
            debug: self.debug,
            verbose: self.verbose,
        }
    }
}

/// Realizes directories on Unix.
#[derive(Clone, Debug)]
pub struct DirUnix {
    pub action: Dir,
}

/// Realizes files on Unix.
#[derive(Clone, Debug)]
pub struct FileUnix {
    pub action: File,
}

/// Realizes the identity record.
#[derive(Clone, Debug)]
pub struct ZpkgDefault {
    pub action: Zpkg,
}

/// Whether storing `source` in the payload `before` succeeds, leaves the
/// payload `after`, and makes `packed` of `file`.
pub open spec fn packs(
    before: Seq<u8>,
    source: Option<Seq<u8>>,
    after: Seq<u8>,
    file: File,
    packed: File,
) -> bool {
    match put_result(before, source) {
        Ok(done) => after == done.0 && stored_as(file, done.1, packed),
        Err(_) => false,
    }
}

/// Whether `packed` is `file` with its place in the payload filled in from
/// `stored`.
pub open spec fn stored_as(file: File, stored: Stored, packed: File) -> bool {
    packed.path == file.path && packed.owner == file.owner && packed.group == file.group
        && packed.mode == file.mode && packed.offset == stored.offset && packed.csize
        == stored.csize && packed.size == stored.size && packed.digest@ == stored.digest
}

impl DirUnix {
    pub fn new(action: Dir) -> (r: DirUnix)
        ensures
            r.action == action,
    {
        DirUnix { action }
    }

    /// A directory is the same in every phase.
    pub fn realize(
        &self,
        opts: &Options,
        phase: Phase,
        payload_reader: Option<&Reader>,
        payload_writer: &mut Writer,
    ) -> (r: Result<Action, PayloadError>)
        ensures
            r == Ok::<Action, PayloadError>(Action::Dir(self.action)),
            *final(payload_writer) == *old(payload_writer),
    {
        Ok(Action::Dir(self.action.duplicate()))
    }
}

impl ZpkgDefault {
    pub fn new(action: Zpkg) -> (r: ZpkgDefault)
        ensures
            r.action == action,
    {
        ZpkgDefault { action }
    }

    /// The identity record is the same in every phase.
    pub fn realize(
        &self,
        opts: &Options,
        phase: Phase,
        payload_reader: Option<&Reader>,
        payload_writer: &mut Writer,
    ) -> (r: Result<Action, PayloadError>)
        ensures
            r == Ok::<Action, PayloadError>(Action::Zpkg(self.action)),
            *final(payload_writer) == *old(payload_writer),
    {
        Ok(Action::Zpkg(self.action.duplicate()))
    }
}

impl FileUnix {
    pub fn new(action: File) -> (r: FileUnix)
        ensures
            r.action == action,
    {
        FileUnix { action }
    }

    /// The path of the file to package: the file's own path, joined to the
    /// target directory.
    pub fn source_path(&self, opts: &Options) -> (r: String)
        requires
            opts.target_path is Some,
        ensures
            r@ == joined(opts.target_path->0@, self.action.path@),
    {
        match &opts.target_path {
            Some(target) => path_join(target.as_str(), self.action.path.as_str()),
            None => String::new(),
        }
    }

    /// Stores the file's bytes in the payload and records where they lie.
    pub fn package(&self, source: Option<&[u8]>, payload_writer: &mut Writer) -> (r: Result<
        Action,
        PayloadError,
    >)
        ensures
            final(payload_writer).comp_type == old(payload_writer).comp_type,
            final(payload_writer).hash_method == old(payload_writer).hash_method,
            final(payload_writer).path == old(payload_writer).path,
            match r {
                Ok(Action::File(f)) => packs(
                    old(payload_writer).blob@,
                    spec_source(source),
                    final(payload_writer).blob@,
                    self.action,
                    f,
                ),
                Ok(_) => false,
                Err(e) => final(payload_writer).blob@ == old(payload_writer).blob@ && put_result(
                    old(payload_writer).blob@,
                    spec_source(source),
                ) == Err::<(Seq<u8>, Stored), PayloadError>(e),
            },
    {
        let result = match payload_writer.put(source) {
            Ok(at) => at,
            Err(e) => {
                return Err(e);
            },
        };
        let mut action = self.action.duplicate();
        action.offset = result.0;
        action.csize = result.1;
        action.size = result.2;
        action.digest = result.3;
        Ok(Action::File(action))
    }

    /// In the package phase the file is stored in the payload; in every
    /// other phase it stays as it is.
    pub fn realize(
        &self,
        opts: &Options,
        phase: Phase,
        payload_reader: Option<&Reader>,
        payload_writer: &mut Writer,
        source: Option<&[u8]>,
    ) -> (r: Result<Action, PayloadError>)
        ensures
            final(payload_writer).comp_type == old(payload_writer).comp_type,
            final(payload_writer).hash_method == old(payload_writer).hash_method,
            final(payload_writer).path == old(payload_writer).path,
            phase != Phase::Package ==> r == Ok::<Action, PayloadError>(Action::File(self.action))
                && final(payload_writer).blob@ == old(payload_writer).blob@,
            phase == Phase::Package ==> match r {
                Ok(Action::File(f)) => packs(
                    old(payload_writer).blob@,
                    spec_source(source),
                    final(payload_writer).blob@,
                    self.action,
                    f,
                ),
                Ok(_) => false,
                Err(e) => final(payload_writer).blob@ == old(payload_writer).blob@ && put_result(
                    old(payload_writer).blob@,
                    spec_source(source),
                ) == Err::<(Seq<u8>, Stored), PayloadError>(e),
            },
    {
        match phase {
            Phase::Package => self.package(source, payload_writer),
            _ => Ok(Action::File(self.action.duplicate())),
        }
    }
}

/// The strategy that realizes one action.
#[derive(Clone, Debug)]
pub enum Provider {
    Dir(DirUnix),
    File(FileUnix),
    Zpkg(ZpkgDefault),
}

impl Provider {
    /// The action that the provider realizes.
    pub open spec fn action(self) -> Action {
        match self {
            Provider::Dir(p) => Action::Dir(p.action),
            Provider::File(p) => Action::File(p.action),
            Provider::Zpkg(p) => Action::Zpkg(p.action),
        }
    }

    /// Realizes the action for a phase. Only a file in the package phase
    /// changes: its bytes, given as `source`, go to the payload.
    pub fn realize(
        &self,
        opts: &Options,
        phase: Phase,
        payload_reader: Option<&Reader>,
        payload_writer: &mut Writer,
        source: Option<&[u8]>,
    ) -> (r: Result<Action, PayloadError>)
        ensures
            final(payload_writer).comp_type == old(payload_writer).comp_type,
            final(payload_writer).hash_method == old(payload_writer).hash_method,
            final(payload_writer).path == old(payload_writer).path,
            !(self is File && phase == Phase::Package) ==> r == Ok::<Action, PayloadError>(
                self.action(),
            ) && final(payload_writer).blob@ == old(payload_writer).blob@,
            self is File && phase == Phase::Package ==> match r {
                Ok(Action::File(f)) => packs(
                    old(payload_writer).blob@,
                    spec_source(source),
                    final(payload_writer).blob@,
                    self->File_0.action,
                    f,
                ),
                Ok(_) => false,
                Err(e) => final(payload_writer).blob@ == old(payload_writer).blob@ && put_result(
                    old(payload_writer).blob@,
                    spec_source(source),
                ) == Err::<(Seq<u8>, Stored), PayloadError>(e),
            },
    {
        match self {
            Provider::Dir(p) => p.realize(opts, phase, payload_reader, payload_writer),
            Provider::Zpkg(p) => p.realize(opts, phase, payload_reader, payload_writer),
            Provider::File(p) => p.realize(opts, phase, payload_reader, payload_writer, source),
        }
    }
}

/// The provider for an action, by its kind.
pub fn provider_for(action: Action) -> (r: Provider)
    ensures
        r.action() == action,
{
    match action {
        Action::Dir(d) => Provider::Dir(DirUnix::new(d)),
        Action::File(f) => Provider::File(FileUnix::new(f)),
        Action::Zpkg(z) => Provider::Zpkg(ZpkgDefault::new(z)),
    }
}

} // verus!
