use vstd::prelude::*;

use crate::fix::{GeoFix, PersistedFix};

verus! {

/// The sentinel that marks the retained record as written by this firmware
/// layout. Any other value means the region holds never-initialized or
/// foreign bytes, and the whole record is discarded.
pub const VALIDITY_TAG: u32 = 0x4750_5321;

/// Size in bytes of the retained record: 4-byte tag, 4-byte latitude,
/// 4-byte longitude, 1-byte validity flag.
pub const REGION_SIZE: usize = 13;

/// Byte offset of the tag within the region.
pub const TAG_OFFSET: usize = 0;

/// Byte offset of the latitude field within the region.
pub const LAT_OFFSET: usize = 4;

/// Byte offset of the longitude field within the region.
pub const LON_OFFSET: usize = 8;

/// Byte offset of the validity flag within the region.
pub const FLAG_OFFSET: usize = 12;

/// The unsigned 32-bit value that the four bytes `b0..b3` encode in
/// little-endian order.
pub open spec fn spec_u32_le(b0: u8, b1: u8, b2: u8, b3: u8) -> u32 {
    (b0 as u32) | ((b1 as u32) << 8) | ((b2 as u32) << 16) | ((b3 as u32) << 24)
}

/// The tag stored in a region's bytes.
pub open spec fn spec_tag_of(bytes: Seq<u8>) -> u32 {
    spec_u32_le(bytes[0], bytes[1], bytes[2], bytes[3])
}

/// The latitude stored in a region's bytes (two's-complement of the raw
/// little-endian word).
pub open spec fn spec_lat_of(bytes: Seq<u8>) -> i32 {
    spec_u32_le(bytes[4], bytes[5], bytes[6], bytes[7]) as i32
}

/// The longitude stored in a region's bytes.
pub open spec fn spec_lon_of(bytes: Seq<u8>) -> i32 {
    spec_u32_le(bytes[8], bytes[9], bytes[10], bytes[11]) as i32
}

/// What loading a region yields: the decoded record when the tag matches,
/// and the invalid record - with no payload bytes at all - otherwise.
pub open spec fn spec_decode(bytes: Seq<u8>) -> PersistedFix {
    if spec_tag_of(bytes) == VALIDITY_TAG {
        PersistedFix {
            lat_e7: spec_lat_of(bytes),
            lon_e7: spec_lon_of(bytes),
            valid: bytes[12] != 0,
        }
    } else {
        PersistedFix::spec_invalid()
    }
}

/// Splitting a 32-bit word into its little-endian bytes and reassembling
/// them gives the word back.
proof fn lemma_u32_le_round_trip(v: u32)
    ensures
        spec_u32_le(
            (v & 0xff) as u8,
            ((v >> 8) & 0xff) as u8,
            ((v >> 16) & 0xff) as u8,
            ((v >> 24) & 0xff) as u8,
        ) == v,
{
    assert((((v & 0xff) as u8) as u32) | ((((v >> 8) & 0xff) as u8) as u32) << 8 | ((((v >> 16)
        & 0xff) as u8) as u32) << 16 | ((((v >> 24) & 0xff) as u8) as u32) << 24 == v)
        by (bit_vector);
}

/// Reinterpreting a signed 32-bit value as its raw word and back is the
/// identity.
proof fn lemma_i32_bits_round_trip(x: i32)
    ensures
        ((x as u32) as i32) == x,
{
    assert(((x as u32) as i32) == x) by (bit_vector);
}

/// Reads the little-endian 32-bit word at `off`.
fn read_u32_le(buf: &Vec<u8>, off: usize) -> (v: u32)
    requires
        off + 4 <= buf@.len(),
        buf@.len() <= usize::MAX,
    ensures
        v == spec_u32_le(buf@[off as int], buf@[off + 1], buf@[off + 2], buf@[off + 3]),
{
    let b0: u8 = buf[off];
    let b1: u8 = buf[off + 1];
    let b2: u8 = buf[off + 2];
    let b3: u8 = buf[off + 3];
    (b0 as u32) | ((b1 as u32) << 8) | ((b2 as u32) << 16) | ((b3 as u32) << 24)
}

/// Writes `v` at `off` as a little-endian 32-bit word, leaving every other
/// byte of the buffer unchanged.
fn write_u32_le(buf: &mut Vec<u8>, off: usize, v: u32)
    requires
        off + 4 <= old(buf)@.len(),
        old(buf)@.len() <= usize::MAX,
    ensures
        final(buf)@.len() == old(buf)@.len(),
        final(buf)@[off as int] == (v & 0xff) as u8,
        final(buf)@[off + 1] == ((v >> 8) & 0xff) as u8,
        final(buf)@[off + 2] == ((v >> 16) & 0xff) as u8,
        final(buf)@[off + 3] == ((v >> 24) & 0xff) as u8,
        forall|i: int|
            0 <= i < old(buf)@.len() && !(off <= i < off + 4) ==> final(buf)@[i] == old(buf)@[i],
        spec_u32_le(
            final(buf)@[off as int],
            final(buf)@[off + 1],
            final(buf)@[off + 2],
            final(buf)@[off + 3],
        ) == v,
{
    let b0: u8 = #[verifier::truncate] ((v & 0xff) as u8);
    let b1: u8 = #[verifier::truncate] (((v >> 8) & 0xff) as u8);
    let b2: u8 = #[verifier::truncate] (((v >> 16) & 0xff) as u8);
    let b3: u8 = #[verifier::truncate] (((v >> 24) & 0xff) as u8);
    buf.set(off, b0);
    buf.set(off + 1, b1);
    buf.set(off + 2, b2);
    buf.set(off + 3, b3);
    proof {
        lemma_u32_le_round_trip(v);
    }
}

/// The retained-memory record store. It owns an image of the fixed-layout
/// region that deep sleep preserves, and guards every read behind the
/// validity tag, so callers never see a partially-trusted record.
pub struct DeepSleepStore {
    region: Vec<u8>,
}

impl DeepSleepStore {
    /// The region has its fixed size.
    pub closed spec fn wf(self) -> bool {
        self.region@.len() == REGION_SIZE
    }

    /// The raw bytes of the region image.
    pub closed spec fn region_bytes(self) -> Seq<u8> {
        self.region@
    }

    /// The record a load yields from this store.
    pub closed spec fn spec_load(self) -> PersistedFix {
        spec_decode(self.region@)
    }

    /// Attaches the store to a region image holding whatever bytes the wake
    /// (or a cold boot) left there.
    pub fn from_raw(bytes: Vec<u8>) -> (s: DeepSleepStore)
        requires
            bytes@.len() == REGION_SIZE,
        ensures
            s.wf(),
            s.region_bytes() == bytes@,
    {
        DeepSleepStore { region: bytes }
    }

    /// A region image as this module defines the cold-start state: all
    /// zero, which fails the tag check.
    pub fn new_cold() -> (s: DeepSleepStore)
        ensures
            s.wf(),
            s.spec_load() == PersistedFix::spec_invalid(),
    {
        let mut bytes: Vec<u8> = Vec::new();
        while bytes.len() < REGION_SIZE
            invariant
                bytes@.len() <= REGION_SIZE,
                forall|i: int| 0 <= i < bytes@.len() ==> bytes@[i] == 0u8,
            decreases REGION_SIZE - bytes.len(),
        {
            bytes.push(0u8);
        }
        let s = DeepSleepStore { region: bytes };
        proof {
            assert((0u8 as u32) | ((0u8 as u32) << 8) | ((0u8 as u32) << 16) | ((0u8 as u32) << 24)
                == 0u32) by (bit_vector);
            assert(spec_tag_of(s.region@) == 0u32);
        }
        s
    }

    /// A copy of the region's bytes, e.g. to write back to the hardware
    /// retained memory before sleeping.
    pub fn raw_bytes(&self) -> (r: Vec<u8>)
        ensures
            r@ == self.region_bytes(),
    {
        let mut out: Vec<u8> = Vec::new();
        let mut i: usize = 0;
        while i < self.region.len()
            invariant
                i <= self.region@.len(),
                out@.len() == i,
                forall|j: int| 0 <= j < i ==> out@[j] == self.region@[j],
            decreases self.region@.len() - i,
        {
            out.push(self.region[i]);
            i = i + 1;
        }
        proof {
            assert(out@ =~= self.region@);
        }
        out
    }

    /// Loads the persisted record. A region whose tag differs from the
    /// validity tag - never written, or written by a different layout -
    /// yields the invalid record unconditionally, never stale payload.
    pub fn load(&self) -> (r: PersistedFix)
        requires
            self.wf(),
        ensures
            r == self.spec_load(),
    {
        let tag: u32 = read_u32_le(&self.region, TAG_OFFSET);
        if tag == VALIDITY_TAG {
            let lat_bits: u32 = read_u32_le(&self.region, LAT_OFFSET);
            let lon_bits: u32 = read_u32_le(&self.region, LON_OFFSET);
            let flag: u8 = self.region[FLAG_OFFSET];
            PersistedFix { lat_e7: lat_bits as i32, lon_e7: lon_bits as i32, valid: flag != 0 }
        } else {
            PersistedFix::invalid()
        }
    }

    /// Saves `fix` as the new baseline: writes the data fields first and the
    /// tag last, so a reader after a completed save sees a fully valid
    /// record. A later load yields exactly `fix`, marked valid.
    pub fn save(&mut self, fix: GeoFix)
        requires
            old(self).wf(),
        ensures
            final(self).wf(),
            final(self).spec_load() == PersistedFix::spec_from_fix(fix),
    {
        let lat_bits: u32 = #[verifier::truncate] (fix.lat_e7 as u32);
        let lon_bits: u32 = #[verifier::truncate] (fix.lon_e7 as u32);
        write_u32_le(&mut self.region, LAT_OFFSET, lat_bits);
        write_u32_le(&mut self.region, LON_OFFSET, lon_bits);
        self.region.set(FLAG_OFFSET, 1u8);
        write_u32_le(&mut self.region, TAG_OFFSET, VALIDITY_TAG);
        proof {
            lemma_i32_bits_round_trip(fix.lat_e7);
            lemma_i32_bits_round_trip(fix.lon_e7);
        }
    }
}

/// Law: loading is pure; two stores over the same region bytes - in
/// particular, the same store read twice with no save between - load the
/// same record.
pub proof fn lemma_load_idempotent(a: DeepSleepStore, b: DeepSleepStore)
    requires
        a.region_bytes() == b.region_bytes(),
    ensures
        a.spec_load() == b.spec_load(),
{
}

/// Law: whenever the region's tag differs from the validity tag, the load
/// yields the invalid record - never any of the payload bytes.
pub proof fn lemma_tag_guard(s: DeepSleepStore)
    requires
        spec_tag_of(s.region_bytes()) != VALIDITY_TAG,
    ensures
        s.spec_load() == PersistedFix::spec_invalid(),
{
}

} // verus!
