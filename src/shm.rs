//! The transport client: a read-write mapping of the shared object, read as whole
//! snapshots and written only within the settings byte range.
//!
//! The producer writes the mapping concurrently and without any lock, so nothing is
//! stated of what the mapping holds between two calls. What is stated is what each
//! call decodes from the bytes it copied, and, as a log of writes, which bytes at which
//! offset a settings write hands over.

use vstd::prelude::*;
use memmap2::MmapMut;
use crate::codec::{decode_snapshot, decodes_to, encode_settings, settings_bytes};
use crate::layout::{SETTINGS_OFFSET, SETTINGS_SIZE, SNAPSHOT_SIZE};
use crate::types::{Settings, SharedData, TransportError};

verus! {

#[verifier::external_type_specification]
#[verifier::external_body]
pub struct ExMmapMut(memmap2::MmapMut);

/// The number of bytes a mapping spans, fixed when the mapping is made.
pub uninterp spec fn mapped_len(m: MmapMut) -> nat;

/// The ranges this process has copied into a mapping, oldest first, each as its start
/// offset and the bytes copied. This records what was handed over, not what the mapping
/// holds now: the producer may overwrite any byte at any time.
pub uninterp spec fn written_ranges(m: MmapMut) -> Seq<(nat, Seq<u8>)>;

/// Relies on `MmapMut`'s `Deref<Target = [u8]>`: the mapped bytes, a slice of the mapping's
/// length. Nothing is stated of their values, which the producer writes concurrently.
#[verifier::external_body]
fn mapped_bytes(m: &MmapMut) -> (r: &[u8])
    ensures
        r@.len() == mapped_len(*m),
{
    m
}

/// Relies on `MmapMut`'s `DerefMut<Target = [u8]>` and `<[u8]>::copy_from_slice`: copies
/// `bytes` over the mapped range `start..end`, which `requires` keeps within the mapping
/// and as long as `bytes`, so the copy cannot panic. The mapping keeps its length.
#[verifier::external_body]
fn copy_into_mapping(m: &mut MmapMut, start: usize, end: usize, bytes: &[u8])
    requires
        start <= end,
        end <= mapped_len(*old(m)),
        end - start == bytes@.len(),
    ensures
        mapped_len(*final(m)) == mapped_len(*old(m)),
        written_ranges(*final(m)) == written_ranges(*old(m)).push((start as nat, bytes@)),
{
    m[start..end].copy_from_slice(bytes)
}

/// Owns the mapping of the shared object for as long as the client lives.
pub struct SharedMemoryClient {
    mmap: MmapMut,
}

impl SharedMemoryClient {
    /// Wraps a read-write mapping of the shared object. Its contents are not checked here.
    pub fn from_mapping(mmap: MmapMut) -> (r: Self)
        ensures
            r.region_len() == mapped_len(mmap),
            r.writes() == written_ranges(mmap),
    {
        SharedMemoryClient { mmap }
    }

    /// The number of bytes of the shared object that the client has mapped.
    pub closed spec fn region_len(&self) -> nat {
        mapped_len(self.mmap)
    }

    /// What this client has copied into the mapping, oldest first: start offset and bytes.
    pub closed spec fn writes(&self) -> Seq<(nat, Seq<u8>)> {
        written_ranges(self.mmap)
    }

    /// Copies the region out of the mapping and decodes the copy. The result holds no
    /// reference into the mapping. Fails with `IoError` exactly when the mapping is shorter
    /// than the layout.
    pub fn read_data(&self) -> (r: Result<SharedData, TransportError>)
        ensures
            r is Ok <==> SNAPSHOT_SIZE <= self.region_len(),
            r matches Ok(d) ==> exists|b: Seq<u8>| decodes_to(b, d),
            r matches Err(e) ==> e == TransportError::IoError,
    {
        let all = mapped_bytes(&self.mmap);
        if all.len() < SNAPSHOT_SIZE {
            return Err(TransportError::IoError);
        }
        let bytes = vstd::slice::slice_to_vec(vstd::slice::slice_subrange(all, 0, SNAPSHOT_SIZE));
        let r = decode_snapshot(bytes.as_slice());
        if let Ok(d) = &r {
            assert(decodes_to(bytes@, *d));
        }
        r
    }

    /// Writes the bytes of `settings` over the settings range of the mapping, and no other
    /// byte, so that concurrent producer updates of the rest of the region are never
    /// overwritten. Fails with `IoError`, writing nothing, exactly when the mapping does not
    /// reach the end of that range. The mapping stays in place either way.
    pub fn write_settings(&mut self, settings: &Settings) -> (r: Result<(), TransportError>)
        ensures
            r is Ok <==> SETTINGS_OFFSET + SETTINGS_SIZE <= old(self).region_len(),
            final(self).region_len() == old(self).region_len(),
            final(self).writes() == if r is Ok {
                old(self).writes().push((SETTINGS_OFFSET as nat, settings_bytes(*settings)))
            } else {
                old(self).writes()
            },
            r matches Err(e) ==> e == TransportError::IoError,
    {
        if mapped_bytes(&self.mmap).len() < SETTINGS_OFFSET + SETTINGS_SIZE {
            return Err(TransportError::IoError);
        }
        let bytes = encode_settings(settings);
        copy_into_mapping(
            &mut self.mmap,
            SETTINGS_OFFSET,
            SETTINGS_OFFSET + SETTINGS_SIZE,
            bytes.as_slice(),
        );
        Ok(())
    }
}

} // verus!
