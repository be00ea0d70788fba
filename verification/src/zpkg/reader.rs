//! Taking a container apart.

use vstd::prelude::*;
use super::header::{lemma_u32_le_round_trip, magic, u32_le, u32_of_le, CompType, HashMethod,
    Header, HeaderV1, HEADER_LEN};
use super::writer::container;
use crate::action::Manifest;

verus! {

/// Why bytes are no container.
#[derive(Copy, Clone, Debug, PartialEq, Eq, Structural)]
pub enum ContainerError {
    /// The bytes do not open with the magic bytes.
    BadMagic,
    /// The bytes end before the header or the manifest does.
    Truncated,
}

/// Where the parts of a container lie.
#[derive(Copy, Clone, Debug, PartialEq, Eq, Structural)]
pub struct Layout {
    /// Index of the first byte of the compressed manifest.
    pub manifest_start: usize,
    /// Index of the first byte of the payload, where the manifest ends.
    pub payload_start: usize,
}

/// Calls `byteorder::ReadBytesExt::read_u8` on a byte slice, which takes its
/// first byte and fails where there is none.
#[verifier::external_body]
fn read_u8(bytes: &[u8]) -> (r: Option<u8>)
    ensures
        match r {
            Some(v) => bytes@.len() >= 1 && v == bytes@[0],
            None => bytes@.len() < 1,
        },
{
    let mut rest = bytes;
    byteorder::ReadBytesExt::read_u8(&mut rest).ok()
}

/// Calls `byteorder::ReadBytesExt::read_u32` with `LittleEndian` on a byte
/// slice, which reads its first four bytes as a number, least significant
/// byte first, and fails where there are fewer.
#[verifier::external_body]
fn read_u32_le(bytes: &[u8]) -> (r: Option<u32>)
    ensures
        match r {
            Some(v) => bytes@.len() >= 4 && v == u32_of_le(bytes@),
            None => bytes@.len() < 4,
        },
{
    let mut rest = bytes;
    byteorder::ReadBytesExt::read_u32::<byteorder::LittleEndian>(&mut rest).ok()
}

fn slice_from(bytes: &[u8], from: usize) -> (r: &[u8])
    requires
        from <= bytes@.len(),
    ensures
        r@ == bytes@.subrange(from as int, bytes@.len() as int),
{
    vstd::slice::slice_subrange(bytes, from, bytes.len())
}

/// Whether `bytes` open with the magic bytes.
pub open spec fn has_magic(bytes: Seq<u8>) -> bool {
    bytes.len() >= 5 && bytes.subrange(0, 5) == magic()
}

/// What a container's bytes hold: the header, and where manifest and
/// payload lie. The format version byte is not looked at, and a byte that
/// stands for no compression or hash method gives the default one.
pub open spec fn parsed(bytes: Seq<u8>) -> Result<(HeaderV1, Layout), ContainerError> {
    if !has_magic(bytes) {
        Err(ContainerError::BadMagic)
    } else if bytes.len() < 12 {
        Err(ContainerError::Truncated)
    } else {
        let len = u32_of_le(bytes.subrange(8, 12));
        if bytes.len() - 12 < len {
            Err(ContainerError::Truncated)
        } else {
            Ok(
                (
                    HeaderV1 {
                        version: 1,
                        compression: 0,
                        hash_method: 0,
                        manifest_length: len as u32,
                    },
                    Layout { manifest_start: 12, payload_start: (12 + len) as usize },
                ),
            )
        }
    }
}

/// Reads containers.
#[derive(Clone, Debug)]
pub struct Reader {
    pub path: String,
    pub work_path: String,
    pub header: Option<HeaderV1>,
    pub manifest: Option<Manifest>,
}

impl Reader {
    /// A reader for the container at `path` that has read nothing yet.
    pub fn new(path: &str, work_path: &str) -> (r: Reader)
        ensures
            r.path@ == path@,
            r.work_path@ == work_path@,
            r.header is None,
            r.manifest is None,
    {
        Reader {
            path: String::from_str(path),
            work_path: String::from_str(work_path),
            header: None,
            manifest: None,
        }
    }

    /// Reads the magic bytes and the header from the bytes of a container
    /// and says where the manifest and the payload lie. On failure the
    /// reader stays as it was.
    pub fn read(&mut self, bytes: &[u8]) -> (r: Result<Layout, ContainerError>)
        ensures
            final(self).path == old(self).path,
            final(self).work_path == old(self).work_path,
            final(self).manifest == old(self).manifest,
            match r {
                Ok(layout) => final(self).header is Some && parsed(bytes@) == Ok::<
                    (HeaderV1, Layout),
                    ContainerError,
                >((final(self).header->0, layout)),
                Err(e) => final(self).header == old(self).header && parsed(bytes@) == Err::<
                    (HeaderV1, Layout),
                    ContainerError,
                >(e),
            },
    {
        if bytes.len() < 5 || bytes[0] != 0x7au8 || bytes[1] != 0x70u8 || bytes[2] != 0x6bu8
            || bytes[3] != 0x67u8 || bytes[4] != 0x21u8 {
            proof {
                if bytes@.len() >= 5 {
                    let head = bytes@.subrange(0, 5);
                    assert(head[0] == bytes@[0] && head[1] == bytes@[1] && head[2] == bytes@[2]
                        && head[3] == bytes@[3] && head[4] == bytes@[4]);
                }
            }
            return Err(ContainerError::BadMagic);
        }
        assert(bytes@.subrange(0, 5) =~= magic());
        let _format = match read_u8(slice_from(bytes, 5)) {
            Some(v) => v,
            None => {
                return Err(ContainerError::Truncated);
            },
        };
        let comp_type: CompType = match read_u8(slice_from(bytes, 6)) {
            Some(v) => CompType::from(v),
            None => {
                return Err(ContainerError::Truncated);
            },
        };
        let hash_method: HashMethod = match read_u8(slice_from(bytes, 7)) {
            Some(v) => HashMethod::from(v),
            None => {
                return Err(ContainerError::Truncated);
            },
        };
        let manifest_len: u32 = match read_u32_le(slice_from(bytes, 8)) {
            Some(v) => v,
            None => {
                return Err(ContainerError::Truncated);
            },
        };
        proof {
            let tail = bytes@.subrange(8, bytes@.len() as int);
            let four = bytes@.subrange(8, 12);
            assert(tail[0] == four[0] && tail[1] == four[1] && tail[2] == four[2] && tail[3]
                == four[3]);
        }
        let start: usize = 5 + HEADER_LEN;
        if bytes.len() - start < manifest_len as usize {
            return Err(ContainerError::Truncated);
        }
        self.header = Some(HeaderV1::new(comp_type, hash_method, manifest_len));
        Ok(Layout { manifest_start: start, payload_start: start + manifest_len as usize })
    }
}

/// A container that was written from a version 1 header with the length of
/// its manifest reads back as that header, with the manifest and the
/// payload where they were put.
pub proof fn lemma_container_round_trip(header: HeaderV1, manifest: Seq<u8>, payload: Seq<u8>)
    requires
        header.version == 1,
        header.compression == 0,
        header.hash_method == 0,
        header.manifest_length == manifest.len(),
        12 + manifest.len() + payload.len() <= usize::MAX,
    ensures
        parsed(container(header.spec_bytes(), manifest, payload)) == Ok::<
            (HeaderV1, Layout),
            ContainerError,
        >((header, Layout { manifest_start: 12, payload_start: (12 + manifest.len()) as usize })),
        container(header.spec_bytes(), manifest, payload).subrange(
            12,
            12 + manifest.len() as int,
        ) == manifest,
        container(header.spec_bytes(), manifest, payload).subrange(
            12 + manifest.len() as int,
            container(header.spec_bytes(), manifest, payload).len() as int,
        ) == payload,
{
    let bytes = container(header.spec_bytes(), manifest, payload);
    lemma_u32_le_round_trip(header.manifest_length);
    assert(bytes.subrange(0, 5) =~= magic());
    assert(bytes.subrange(8, 12) =~= u32_le(header.manifest_length));
    assert(bytes.subrange(12, 12 + manifest.len() as int) =~= manifest);
    assert(bytes.subrange(12 + manifest.len() as int, bytes.len() as int) =~= payload);
}

} // verus!
