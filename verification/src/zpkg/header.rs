//! The fixed-size header that follows the magic bytes of a container.

use vstd::prelude::*;

verus! {

/// The bytes that open every container: `zpkg!`.
pub open spec fn magic() -> Seq<u8> {
    seq![0x7au8, 0x70u8, 0x6bu8, 0x67u8, 0x21u8]
}

/// The length of the header in bytes.
pub const HEADER_LEN: usize = 7;

/// The four bytes of a number, least significant first.
pub open spec fn u32_le(v: u32) -> Seq<u8> {
    seq![
        (v % 256) as u8,
        ((v / 256) % 256) as u8,
        ((v / 65536) % 256) as u8,
        (v / 16777216) as u8,
    ]
}

/// The number whose bytes, least significant first, open `b`.
pub open spec fn u32_of_le(b: Seq<u8>) -> int {
    b[0] + 256 * b[1] + 65536 * b[2] + 16777216 * b[3]
}

/// Reading the bytes of a number gives the number back.
pub proof fn lemma_u32_le_round_trip(v: u32)
    ensures
        u32_le(v).len() == 4,
        u32_of_le(u32_le(v)) == v,
{
}

/// Calls `bytes::BufMut::put_u8` on a `Vec<u8>`, which appends the byte.
#[verifier::external_body]
fn put_u8(buf: &mut Vec<u8>, v: u8)
    ensures
        final(buf)@ == old(buf)@.push(v),
{
    bytes::BufMut::put_u8(buf, v)
}

/// Calls `bytes::BufMut::put_u32_le` on a `Vec<u8>`, which appends the four
/// bytes of the number, least significant first.
#[verifier::external_body]
fn put_u32_le(buf: &mut Vec<u8>, v: u32)
    ensures
        final(buf)@ == old(buf)@ + u32_le(v),
{
    bytes::BufMut::put_u32_le(buf, v)
}

/// How the manifest and the payload are compressed.
#[derive(Copy, Clone, Debug, PartialEq, Eq, Structural)]
pub enum CompType {
    ZSTD,
}

/// How the payload is hashed.
#[derive(Copy, Clone, Debug, PartialEq, Eq, Structural)]
pub enum HashMethod {
    SHA3_256,
}

/// The version of the container format.
#[derive(Copy, Clone, Debug, PartialEq, Eq, Structural)]
pub enum Version {
    V1,
}

impl CompType {
    /// The byte that stands for the method in a header.
    pub open spec fn spec_code(self) -> u8 {
        0
    }

    pub fn code(self) -> (r: u8)
        ensures
            r == self.spec_code(),
    {
        0
    }
}

impl HashMethod {
    /// The byte that stands for the method in a header.
    pub open spec fn spec_code(self) -> u8 {
        0
    }

    pub fn code(self) -> (r: u8)
        ensures
            r == self.spec_code(),
    {
        0
    }
}

impl Version {
    /// The byte that stands for the format version in a header.
    pub open spec fn spec_code(self) -> u8 {
        1
    }

    pub fn code(self) -> (r: u8)
        ensures
            r == self.spec_code(),
    {
        1
    }
}

impl From<u8> for CompType {
    /// Reads the method from its byte; a byte that stands for no method
    /// gives the default.
    fn from(val: u8) -> (r: CompType) {
        match val {
            0 => CompType::ZSTD,
            _ => CompType::ZSTD,
        }
    }
}

impl vstd::std_specs::convert::FromSpecImpl<u8> for CompType {
    open spec fn obeys_from_spec() -> bool {
        true
    }

    open spec fn from_spec(val: u8) -> CompType {
        CompType::ZSTD
    }
}

impl From<u8> for HashMethod {
    /// Reads the method from its byte; a byte that stands for no method
    /// gives the default.
    fn from(val: u8) -> (r: HashMethod) {
        match val {
            0 => HashMethod::SHA3_256,
            _ => HashMethod::SHA3_256,
        }
    }
}

impl vstd::std_specs::convert::FromSpecImpl<u8> for HashMethod {
    open spec fn obeys_from_spec() -> bool {
        true
    }

    open spec fn from_spec(val: u8) -> HashMethod {
        HashMethod::SHA3_256
    }
}

/// What every version of the header can tell.
pub trait Header {
    spec fn spec_comp_type(&self) -> u8;

    spec fn spec_hash_method(&self) -> u8;

    spec fn spec_manifest_len(&self) -> u32;

    spec fn spec_version(&self) -> u8;

    spec fn spec_bytes(&self) -> Seq<u8>;

    fn comp_type(&self) -> (r: u8)
        ensures
            r == self.spec_comp_type(),
    ;

    fn hash_method(&self) -> (r: u8)
        ensures
            r == self.spec_hash_method(),
    ;

    fn manifest_len(&self) -> (r: u32)
        ensures
            r == self.spec_manifest_len(),
    ;

    fn to_vec(&self) -> (r: Vec<u8>)
        ensures
            r@ == self.spec_bytes(),
    ;

    fn version(&self) -> (r: u8)
        ensures
            r == self.spec_version(),
    ;
}

/// The header of format version 1: one byte each for the format version,
/// the compression and the hash method, then the length of the compressed
/// manifest in four bytes, least significant first.
#[derive(Copy, Clone, Debug, PartialEq, Eq, Structural)]
pub struct HeaderV1 {
    pub version: u8,
    pub compression: u8,
    pub hash_method: u8,
    pub manifest_length: u32,
}

impl HeaderV1 {
    pub fn new(compression: CompType, hash_method: HashMethod, manifest_len: u32) -> (r: HeaderV1)
        ensures
            r == (HeaderV1 {
                version: Version::V1.spec_code(),
                compression: compression.spec_code(),
                hash_method: hash_method.spec_code(),
                manifest_length: manifest_len,
            }),
    {
        let mut header = HeaderV1::default();
        header.compression = compression.code();
        header.hash_method = hash_method.code();
        header.manifest_length = manifest_len;
        header
    }

    /// The header of an empty manifest with the default methods.
    pub fn default() -> (r: HeaderV1)
        ensures
            r == (HeaderV1 {
                version: Version::V1.spec_code(),
                compression: CompType::ZSTD.spec_code(),
                hash_method: HashMethod::SHA3_256.spec_code(),
                manifest_length: 0,
            }),
    {
        HeaderV1 {
            version: Version::V1.code(),
            compression: CompType::ZSTD.code(),
            hash_method: HashMethod::SHA3_256.code(),
            manifest_length: 0,
        }
    }
}

impl Header for HeaderV1 {
    open spec fn spec_comp_type(&self) -> u8 {
        self.compression
    }

    open spec fn spec_hash_method(&self) -> u8 {
        self.hash_method
    }

    open spec fn spec_manifest_len(&self) -> u32 {
        self.manifest_length
    }

    open spec fn spec_version(&self) -> u8 {
        self.version
    }

    open spec fn spec_bytes(&self) -> Seq<u8> {
        seq![self.version, self.compression, self.hash_method] + u32_le(self.manifest_length)
    }

    fn comp_type(&self) -> (r: u8) {
        self.compression
    }

    fn hash_method(&self) -> (r: u8) {
        self.hash_method
    }

    fn manifest_len(&self) -> (r: u32) {
        self.manifest_length
    }

    fn to_vec(&self) -> (r: Vec<u8>) {
        let mut buf: Vec<u8> = Vec::new();
        put_u8(&mut buf, self.version);
        put_u8(&mut buf, self.compression);
        put_u8(&mut buf, self.hash_method);
        put_u32_le(&mut buf, self.manifest_length);
        assert(buf@ =~= self.spec_bytes());
        buf
    }

    fn version(&self) -> (r: u8) {
        self.version
    }
}

} // verus!
