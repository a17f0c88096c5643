//! The rendezvous record: the pair (hook handle, host window handle)
//! that every injected copy of the hook module needs in order to find
//! the host. It is persisted as exactly sixteen bytes: two
//! little-endian signed 64-bit integers.

use vstd::bytes::{
    lemma_auto_spec_u64_to_from_le_bytes, spec_u64_from_le_bytes, spec_u64_to_le_bytes,
    u64_from_le_bytes, u64_to_le_bytes,
};
use vstd::prelude::*;
use vstd::string::StringExecFns;

use crate::error::RekeyError;

verus! {

/// The number of bytes of a serialized record.
pub const RENDEZVOUS_RECORD_LEN: usize = 16;

/// The pair a foreign process needs: the hook handle and the host
/// window handle.
#[derive(PartialEq, Eq, Clone, Copy, Debug, Structural)]
pub struct RendezvousRecord {
    pub hhook: i64,
    pub hwnd: i64,
}

/// The on-disk form: hook handle first, window handle second, each as
/// eight little-endian bytes.
pub open spec fn spec_serialize_record(r: RendezvousRecord) -> Seq<u8> {
    spec_u64_to_le_bytes(r.hhook as u64) + spec_u64_to_le_bytes(r.hwnd as u64)
}

/// Reading a record back: defined exactly on sixteen bytes.
pub open spec fn spec_deserialize_record(bytes: Seq<u8>) -> Option<RendezvousRecord> {
    if bytes.len() == 16 {
        Some(
            RendezvousRecord {
                hhook: spec_u64_from_le_bytes(bytes.subrange(0, 8)) as i64,
                hwnd: spec_u64_from_le_bytes(bytes.subrange(8, 16)) as i64,
            },
        )
    } else {
        None
    }
}

impl RendezvousRecord {
    /// Writes the sixteen-byte form.
    pub fn serialize(&self) -> (r: Vec<u8>)
        ensures
            r@ == spec_serialize_record(*self),
            r@.len() == 16,
    {
        proof {
            lemma_auto_spec_u64_to_from_le_bytes();
        }
        let mut out = u64_to_le_bytes(self.hhook as u64);
        let mut second = u64_to_le_bytes(self.hwnd as u64);
        out.append(&mut second);
        proof {
            assert(out@ =~= spec_serialize_record(*self));
        }
        out
    }

    /// Reads a record back from bytes; anything but exactly sixteen
    /// bytes is rejected.
    pub fn deserialize(bytes: &[u8]) -> (r: Result<RendezvousRecord, RekeyError>)
        ensures
            r is Ok <==> bytes@.len() == 16,
            r matches Ok(rec) ==> Some(rec) == spec_deserialize_record(bytes@),
            r matches Err(e) ==> e is GenericError,
    {
        proof {
            lemma_auto_spec_u64_to_from_le_bytes();
        }
        if bytes.len() != 16 {
            return Err(
                RekeyError::GenericError(
                    String::from_str("rendezvous record must be exactly 16 bytes"),
                ),
            );
        }
        let first = vstd::slice::slice_subrange(bytes, 0, 8);
        let second = vstd::slice::slice_subrange(bytes, 8, 16);
        let hhook = u64_from_le_bytes(first) as i64;
        let hwnd = u64_from_le_bytes(second) as i64;
        Ok(RendezvousRecord { hhook, hwnd })
    }
}

/// Writing a record out and reading it back yields the identical pair
/// of handles, bit for bit.
pub proof fn lemma_rendezvous_round_trip(r: RendezvousRecord)
    ensures
        spec_deserialize_record(spec_serialize_record(r)) == Some(r),
{
    lemma_auto_spec_u64_to_from_le_bytes();
    let bytes = spec_serialize_record(r);
    assert(bytes.subrange(0, 8) =~= spec_u64_to_le_bytes(r.hhook as u64));
    assert(bytes.subrange(8, 16) =~= spec_u64_to_le_bytes(r.hwnd as u64));
    let a = r.hhook;
    let b = r.hwnd;
    assert((a as u64) as i64 == a) by (bit_vector);
    assert((b as u64) as i64 == b) by (bit_vector);
}

} // verus!
