//! Framing a container from its parts.

use vstd::prelude::*;
use super::header::magic;

verus! {

/// The bytes of a container: the magic bytes, the header, the compressed
/// manifest and the payload, one after the other without padding.
pub open spec fn container(header: Seq<u8>, manifest: Seq<u8>, payload: Seq<u8>) -> Seq<u8> {
    magic() + header + manifest + payload
}

fn append(out: &mut Vec<u8>, part: &[u8])
    ensures
        final(out)@ == old(out)@ + part@,
{
    let mut i: usize = 0;
    let ghost start = out@;
    assert(out@ =~= start + part@.subrange(0, 0));
    while i < part.len()
        invariant
            i <= part.len(),
            out@ == start + part@.subrange(0, i as int),
        decreases part.len() - i,
    {
        out.push(part[i]);
        assert(out@ =~= start + part@.subrange(0, i + 1));
        i = i + 1;
    }
    assert(part@.subrange(0, i as int) =~= part@);
}

/// Writes containers.
#[derive(Copy, Clone, Debug)]
pub struct Writer {}

impl Writer {
    pub fn new() -> (r: Writer) {
        Writer {  }
    }

    /// The bytes of the container that holds the given parts.
    pub fn write(&self, header_bytes: &[u8], manifest_bytes: &[u8], payload: &[u8]) -> (r: Vec<u8>)
        ensures
            r@ == container(header_bytes@, manifest_bytes@, payload@),
    {
        let mut out: Vec<u8> = Vec::new();
        out.push(0x7au8);
        out.push(0x70u8);
        out.push(0x6bu8);
        out.push(0x67u8);
        out.push(0x21u8);
        assert(out@ =~= magic());
        append(&mut out, header_bytes);
        append(&mut out, manifest_bytes);
        append(&mut out, payload);
        out
    }
}

} // verus!
