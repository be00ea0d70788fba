//! The payload: the compressed bytes of every file, one after the other.

use vstd::prelude::*;
use super::header::{CompType, HashMethod};
use crate::paths::{joined, path_join};

verus! {

#[verifier::external_type_specification]
#[verifier::external_body]
pub struct ExIoError(std::io::Error);

#[verifier::external_type_specification]
#[verifier::external_body]
pub struct ExIdError(libxid::IDGenerationError);

/// The level at which files and manifests are compressed.
pub const LEVEL: i32 = 3;

/// The bytes that zstd's streaming encoder makes of `data` at `level`, or
/// `None` where it fails.
pub uninterp spec fn zstd_stream_spec(data: Seq<u8>, level: i32) -> Option<Seq<u8>>;

/// The SHA3-256 digest of `data` in lower-case hexadecimal digits.
pub uninterp spec fn sha3_hex_spec(data: Seq<u8>) -> Seq<char>;

/// Calls `zstd::stream::copy_encode` from a byte slice into a fresh vector.
/// The contract names the compressed bytes.
#[verifier::external_body]
fn zstd_stream(data: &[u8], level: i32) -> (r: Result<Vec<u8>, std::io::Error>)
    ensures
        match r {
            Ok(out) => zstd_stream_spec(data@, level) == Some(out@),
            Err(_) => zstd_stream_spec(data@, level) is None,
        },
{
    let mut out: Vec<u8> = Vec::new();
    zstd::stream::copy_encode(data, &mut out, level)?;
    Ok(out)
}

/// Calls `sha3::Sha3_256::digest` and formats the digest with `{:x}`. The
/// contract names the text.
#[verifier::external_body]
fn sha3_hex(data: &[u8]) -> (r: String)
    ensures
        r@ == sha3_hex_spec(data@),
{
    format!("{:x}", <sha3::Sha3_256 as sha3::Digest>::digest(data))
}

/// Calls `libxid::new_generator` and `Generator::new_id`, and encodes the
/// identifier as text. Nothing is claimed of the identifier.
#[verifier::external_body]
fn new_identifier() -> (r: Result<String, libxid::IDGenerationError>) {
    let id = libxid::new_generator().new_id()?;
    Ok(id.encode())
}

/// Reads payloads.
#[derive(Copy, Clone, Debug)]
pub struct Reader {}

/// Why a payload could not be written.
#[derive(Copy, Clone, Debug, PartialEq, Eq, Structural)]
pub enum PayloadError {
    /// No name could be made for the payload file.
    NoIdentifier,
    /// The compressor failed.
    Compression,
}

/// Where the bytes of one file lie in the payload.
pub struct Stored {
    pub offset: u64,
    pub csize: u64,
    pub size: u64,
    pub digest: Seq<char>,
}

/// What storing a file does to the payload. A file that is absent or empty
/// leaves the payload as it is and is recorded with zeros and an empty
/// digest. Any other file is compressed and appended; it is recorded with
/// the place where its compressed bytes begin, their number, the number of
/// its own bytes, and the digest of the compressed bytes.
pub open spec fn put_result(blob: Seq<u8>, source: Option<Seq<u8>>) -> Result<
    (Seq<u8>, Stored),
    PayloadError,
> {
    let nothing = Stored { offset: 0, csize: 0, size: 0, digest: Seq::empty() };
    match source {
        None => Ok((blob, nothing)),
        Some(data) => if data.len() == 0 {
            Ok((blob, nothing))
        } else {
            match zstd_stream_spec(data, LEVEL) {
                None => Err(PayloadError::Compression),
                Some(packed) => Ok(
                    (
                        blob + packed,
                        Stored {
                            offset: blob.len() as u64,
                            csize: packed.len() as u64,
                            size: data.len() as u64,
                            digest: sha3_hex_spec(packed),
                        },
                    ),
                ),
            }
        },
    }
}

/// The name of the payload file of a build: the identifier of the build,
/// then `.zpkgtmp`, in the working directory.
pub open spec fn payload_path(work_path: Seq<char>, id: Seq<char>) -> Seq<char> {
    joined(work_path, id + ".zpkgtmp"@)
}

/// Collects the payload of one package.
#[derive(Clone, Debug)]
pub struct Writer {
    pub comp_type: CompType,
    pub hash_method: HashMethod,
    pub path: String,
    pub blob: Vec<u8>,
}

impl Writer {
    /// An empty payload whose file is named by the given identifier.
    pub fn with_id(comp_type: CompType, hash_method: HashMethod, work_path: &str, id: &str) -> (r:
        Writer)
        ensures
            r.comp_type == comp_type,
            r.hash_method == hash_method,
            r.path@ == payload_path(work_path@, id@),
            r.blob@.len() == 0,
    {
        let mut name = String::from_str(id);
        name.append(".zpkgtmp");
        Writer {
            comp_type,
            hash_method,
            path: path_join(work_path, name.as_str()),
            blob: Vec::new(),
        }
    }

    /// An empty payload whose file has a fresh name in the working
    /// directory.
    pub fn new(comp_type: CompType, hash_method: HashMethod, work_path: &str) -> (r: Result<
        Writer,
        PayloadError,
    >)
        ensures
            match r {
                Ok(w) => w.comp_type == comp_type && w.hash_method == hash_method
                    && w.blob@.len() == 0 && exists|id: Seq<char>|
                    w.path@ == payload_path(work_path@, id),
                Err(e) => e == PayloadError::NoIdentifier,
            },
    {
        match new_identifier() {
            Ok(id) => Ok(Writer::with_id(comp_type, hash_method, work_path, id.as_str())),
            Err(_) => Err(PayloadError::NoIdentifier),
        }
    }

    /// The path of the payload file.
    pub fn file_path(&self) -> (r: &str)
        ensures
            r@ == self.path@,
    {
        self.path.as_str()
    }

    /// Appends compressed bytes to the payload and says where they lie.
    pub fn store(&mut self, size: u64, packed: &[u8], digest: String) -> (r: (u64, u64, u64, String))
        ensures
            final(self).blob@ == old(self).blob@ + packed@,
            final(self).comp_type == old(self).comp_type,
            final(self).hash_method == old(self).hash_method,
            final(self).path == old(self).path,
            r.0 == old(self).blob@.len(),
            r.1 == packed@.len(),
            r.2 == size,
            r.3 == digest,
    {
        let offset: u64 = self.blob.len() as u64;
        let mut i: usize = 0;
        let ghost start = self.blob@;
        assert(self.blob@ =~= start + packed@.subrange(0, 0));
        while i < packed.len()
            invariant
                i <= packed.len(),
                self.blob@ == start + packed@.subrange(0, i as int),
                self.comp_type == old(self).comp_type,
                self.hash_method == old(self).hash_method,
                self.path == old(self).path,
            decreases packed.len() - i,
        {
            self.blob.push(packed[i]);
            assert(self.blob@ =~= start + packed@.subrange(0, i + 1));
            i = i + 1;
        }
        assert(packed@.subrange(0, i as int) =~= packed@);
        (offset, packed.len() as u64, size, digest)
    }

    /// Stores the bytes of one file; `None` stands for a file that does not
    /// exist.
    pub fn put(&mut self, source: Option<&[u8]>) -> (r: Result<(u64, u64, u64, String), PayloadError>)
        ensures
            final(self).comp_type == old(self).comp_type,
            final(self).hash_method == old(self).hash_method,
            final(self).path == old(self).path,
            match r {
                Ok(at) => put_result(old(self).blob@, spec_source(source)) == Ok::<
                    (Seq<u8>, Stored),
                    PayloadError,
                >(
                    (
                        final(self).blob@,
                        Stored { offset: at.0, csize: at.1, size: at.2, digest: at.3@ },
                    ),
                ),
                Err(e) => final(self).blob@ == old(self).blob@ && put_result(
                    old(self).blob@,
                    spec_source(source),
                ) == Err::<(Seq<u8>, Stored), PayloadError>(e),
            },
    {
        let data: &[u8] = match source {
            None => {
                return Ok((0, 0, 0, String::new()));
            },
            Some(data) => data,
        };
        if data.len() == 0 {
            return Ok((0, 0, 0, String::new()));
        }
        let packed = match self.comp_type {
            CompType::ZSTD => match zstd_stream(data, LEVEL) {
                Ok(out) => out,
                Err(_) => {
                    return Err(PayloadError::Compression);
                },
            },
        };
        let digest = match self.hash_method {
            HashMethod::SHA3_256 => sha3_hex(packed.as_slice()),
        };
        Ok(self.store(data.len() as u64, packed.as_slice(), digest))
    }
}

/// The bytes of a source, if it exists.
pub open spec fn spec_source(source: Option<&[u8]>) -> Option<Seq<u8>> {
    match source {
        Some(data) => Some(data@),
        None => None,
    }
}

} // verus!
