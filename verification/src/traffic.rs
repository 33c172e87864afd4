//! The per-edge live-traffic record and the mutable traffic tile.
//!
//! A live-traffic record is one 64-bit word: a 7-bit overall encoded speed
//! at bit 0 (km/h divided by two), three 7-bit sub-segment encoded speeds at
//! bits 7, 14 and 21, two 8-bit breakpoints at bits 28 and 36, and reserved
//! flag bits above. The all-zero word means the record is unknown; a zero
//! overall speed with breakpoint one at 255 marks a closed edge.
//!
//! A traffic tile is the mutable overlay for one graph tile: a header with
//! the tile identifier, the time of last update and a caller-owned spare
//! word, followed by one record per directed edge in edge order.
use vstd::bytes::*;
use vstd::prelude::*;

use crate::bytes::{read_u32_le, read_u64_le};
use crate::graphid::GraphId;
use crate::Error;

verus! {

/// The overall encoded speed field: stored km/h divided by two.
pub open spec fn overall_encoded_part(v: u64) -> u64 {
    v & 0x7f
}

/// The first sub-segment encoded speed field.
pub open spec fn sub1_encoded_part(v: u64) -> u64 {
    (v >> 7) & 0x7f
}

/// The second sub-segment encoded speed field.
pub open spec fn sub2_encoded_part(v: u64) -> u64 {
    (v >> 14) & 0x7f
}

/// The third sub-segment encoded speed field.
pub open spec fn sub3_encoded_part(v: u64) -> u64 {
    (v >> 21) & 0x7f
}

/// The first breakpoint field: a position along the edge, 0 to 255.
pub open spec fn breakpoint1_part(v: u64) -> u64 {
    (v >> 28) & 0xff
}

/// The second breakpoint field.
pub open spec fn breakpoint2_part(v: u64) -> u64 {
    (v >> 36) & 0xff
}

/// An all-zero record carries no live reading.
pub open spec fn record_unknown(v: u64) -> bool {
    v == 0
}

/// A zero overall speed with breakpoint one at 255 marks a closed edge.
pub open spec fn record_closed(v: u64) -> bool {
    overall_encoded_part(v) == 0 && breakpoint1_part(v) == 255
}

/// The live speed a record reports: nothing when unknown, zero km/h when
/// closed, twice the encoded overall speed otherwise.
pub open spec fn record_live_speed(v: u64) -> Option<u32> {
    if record_unknown(v) {
        None
    } else if record_closed(v) {
        Some(0u32)
    } else {
        Some((overall_encoded_part(v) * 2) as u32)
    }
}

/// The packed record for an overall speed, three sub-segment speeds and two
/// breakpoints, each speed in km/h halved to 7 bits.
pub open spec fn packed_record(overall: u8, s1: u8, s2: u8, s3: u8, bp1: u8, bp2: u8) -> u64 {
    ((overall >> 1) as u64) | ((s1 >> 1) as u64) << 7 | ((s2 >> 1) as u64) << 14 | ((s3
        >> 1) as u64) << 21 | (bp1 as u64) << 28 | (bp2 as u64) << 36
}

/// Real-time traffic data for a single edge: an overall speed, three
/// sub-segment speeds, two breakpoint positions, and flags.
#[derive(Clone, Copy, PartialEq, Eq, Structural, Debug)]
pub struct LiveTraffic {
    value: u64,
}

impl LiveTraffic {
    /// The raw 64-bit record.
    pub closed spec fn bits(self) -> u64 {
        self.value
    }

    /// The record that carries no live reading.
    pub fn unknown() -> (r: LiveTraffic)
        ensures
            r.bits() == 0,
    {
        LiveTraffic { value: 0 }
    }

    /// The record that marks the edge closed: breakpoint one at 255 with a
    /// zero overall speed.
    pub fn closed() -> (r: LiveTraffic)
        ensures
            r.bits() == (255u64 << 28),
            record_closed(r.bits()),
            !record_unknown(r.bits()),
    {
        proof {
            assert({
                &&& overall_encoded_part(255u64 << 28) == 0
                &&& breakpoint1_part(255u64 << 28) == 255
                &&& (255u64 << 28) != 0
            }) by (bit_vector);
        }
        LiveTraffic { value: 255u64 << 28 }
    }

    /// Wraps a raw 64-bit record.
    pub fn from_bits(value: u64) -> (r: LiveTraffic)
        ensures
            r.bits() == value,
    {
        LiveTraffic { value }
    }

    /// The raw 64-bit record.
    pub fn to_bits(&self) -> (r: u64)
        ensures
            r == self.bits(),
    {
        self.value
    }

    /// A record giving one uniform speed for the whole edge: the first
    /// sub-segment covers everything to breakpoint 255, the rest are unused.
    pub fn from_uniform_speed(speed: u8) -> (r: LiveTraffic)
        ensures
            r.bits() == packed_record(speed, speed, 0, 0, 255, 0),
            record_live_speed(r.bits()) == Some((2 * (speed / 2)) as u32),
    {
        let r = Self::from_segmented_speeds(speed, [speed, 0, 0], [255, 0]);
        proof {
            let v = r.bits();
            let s = speed;
            assert({
                &&& overall_encoded_part(v) == (s >> 1)
                &&& breakpoint1_part(v) == 255
                &&& v != 0
                &&& (s >> 1) == s / 2
                &&& (s >> 1) * 2 == 2 * (s / 2)
            }) by (bit_vector)
                requires
                    v == ((s >> 1) as u64) | ((s >> 1) as u64) << 7 | ((0u8 >> 1) as u64) << 14 | ((
                    0u8 >> 1) as u64) << 21 | (255u8 as u64) << 28 | (0u8 as u64) << 36,
            ;
            if record_closed(v) {
                assert(s / 2 == 0);
            }
        }
        r
    }

    /// A record with distinct speeds for up to three segments of the edge,
    /// split at the two breakpoints.
    pub fn from_segmented_speeds(overall_speed: u8, subsegment_speeds: [u8; 3], breakpoints: [u8; 2]) -> (r:
        LiveTraffic)
        ensures
            r.bits() == packed_record(
                overall_speed,
                subsegment_speeds[0],
                subsegment_speeds[1],
                subsegment_speeds[2],
                breakpoints[0],
                breakpoints[1],
            ),
    {
        let overall_encoded = (overall_speed >> 1) as u64;
        let speed1_encoded = (subsegment_speeds[0] >> 1) as u64;
        let speed2_encoded = (subsegment_speeds[1] >> 1) as u64;
        let speed3_encoded = (subsegment_speeds[2] >> 1) as u64;
        let bp1 = breakpoints[0] as u64;
        let bp2 = breakpoints[1] as u64;
        LiveTraffic {
            value: overall_encoded | (speed1_encoded << 7) | (speed2_encoded << 14) | (speed3_encoded
                << 21) | (bp1 << 28) | (bp2 << 36),
        }
    }

    /// The overall speed in km/h: twice the stored encoded speed.
    pub fn overall_speed(&self) -> (r: u8)
        ensures
            r == overall_encoded_part(self.bits()) * 2,
    {
        proof {
            let v = self.value;
            assert((v & 0x7f) * 2 <= 254) by (bit_vector);
        }
        ((self.value & 0x7f) * 2) as u8
    }

    /// Whether the record carries no live reading.
    pub fn is_unknown(&self) -> (r: bool)
        ensures
            r == record_unknown(self.bits()),
    {
        self.value == 0
    }

    /// Whether the record marks the edge closed.
    pub fn is_closed(&self) -> (r: bool)
        ensures
            r == record_closed(self.bits()),
    {
        (self.value & 0x7f) == 0 && ((self.value >> 28) & 0xff) == 255
    }

    /// The live speed this record reports, if any.
    pub fn live_speed(&self) -> (r: Option<u32>)
        ensures
            r == record_live_speed(self.bits()),
    {
        if self.is_unknown() {
            None
        } else if self.is_closed() {
            Some(0)
        } else {
            proof {
                let v = self.value;
                assert((v & 0x7f) * 2 <= 254) by (bit_vector);
            }
            Some(((self.value & 0x7f) as u32) * 2)
        }
    }
}

/// Encoding a uniform speed and reading it back loses at most the low bit:
/// an even speed comes back unchanged, an odd one comes back one less.
pub proof fn lemma_uniform_speed_round_trip(speed: u8)
    ensures
        record_live_speed(packed_record(speed, speed, 0, 0, 255, 0)) == Some(
            (speed - (speed % 2)) as u32,
        ),
{
    assert({
        &&& overall_encoded_part(packed_record(speed, speed, 0, 0, 255, 0)) == (speed / 2)
        &&& breakpoint1_part(packed_record(speed, speed, 0, 0, 255, 0)) == 255
        &&& packed_record(speed, speed, 0, 0, 255, 0) != 0
        &&& (speed / 2) * 2 == speed - (speed % 2)
    }) by (bit_vector);
}

/// Byte size of the traffic tile header: tile identifier, last update,
/// spare word, edge count and a reserved word.
pub const TRAFFIC_HEADER_BYTES: usize = 32;

/// The live-traffic overlay of one graph tile: a header and one 64-bit
/// record per directed edge, in directed-edge order.
pub struct TrafficTile {
    id: GraphId,
    last_update: u64,
    spare: u64,
    records: Vec<u64>,
}

impl TrafficTile {
    /// The tile this overlay belongs to.
    pub closed spec fn spec_id(self) -> GraphId {
        self.id
    }

    /// Seconds since the epoch of the last update, as stored.
    pub closed spec fn spec_last_update(self) -> u64 {
        self.last_update
    }

    /// The caller-owned spare word, as stored.
    pub closed spec fn spec_spare(self) -> u64 {
        self.spare
    }

    /// The per-edge records, in directed-edge order.
    pub closed spec fn spec_records(self) -> Seq<u64> {
        self.records@
    }

    /// An overlay has at most `u32::MAX` records.
    pub open spec fn wf(self) -> bool {
        self.spec_records().len() <= u32::MAX
    }

    /// A fresh overlay for tile `id` with `edge_count` unknown records,
    /// a zero update time and a zero spare word.
    pub fn new(id: GraphId, edge_count: u32) -> (r: TrafficTile)
        ensures
            r.spec_id() == id,
            r.spec_last_update() == 0,
            r.spec_spare() == 0,
            r.spec_records() == Seq::<u64>::new(edge_count as nat, |i: int| 0u64),
            r.wf(),
    {
        let mut records: Vec<u64> = Vec::new();
        let mut i: u32 = 0;
        while i < edge_count
            invariant
                i <= edge_count,
                records@ == Seq::<u64>::new(i as nat, |j: int| 0u64),
            decreases edge_count - i,
        {
            records.push(0);
            proof {
                assert(records@ =~= Seq::<u64>::new(i as nat + 1, |j: int| 0u64));
            }
            i = i + 1;
        }
        TrafficTile { id, last_update: 0, spare: 0, records }
    }

    /// The identifier of the tile this overlay belongs to.
    pub fn id(&self) -> (r: GraphId)
        ensures
            r == self.spec_id(),
    {
        self.id
    }

    /// Seconds since the epoch of the last update.
    pub fn last_update(&self) -> (r: u64)
        ensures
            r == self.spec_last_update(),
    {
        self.last_update
    }

    /// The caller-owned spare word from the header.
    pub fn spare(&self) -> (r: u64)
        ensures
            r == self.spec_spare(),
    {
        self.spare
    }

    /// Number of directed edges this overlay covers.
    pub fn edge_count(&self) -> (r: u32)
        requires
            self.wf(),
        ensures
            r == self.spec_records().len(),
    {
        self.records.len() as u32
    }

    /// The record for the edge at `edge_index`, or `None` past the end.
    pub fn edge_traffic(&self, edge_index: u32) -> (r: Option<LiveTraffic>)
        ensures
            edge_index < self.spec_records().len() ==> {
                &&& r is Some
                &&& r->0.bits() == self.spec_records()[edge_index as int]
            },
            edge_index >= self.spec_records().len() ==> r is None,
    {
        if (edge_index as usize) < self.records.len() {
            Some(LiveTraffic::from_bits(self.records[edge_index as usize]))
        } else {
            None
        }
    }

    /// Stores `traffic` as the record for the edge at `edge_index`; fails
    /// with `OutOfRange` past the end.
    pub fn write_edge_traffic(&mut self, edge_index: u32, traffic: LiveTraffic) -> (r: Result<
        (),
        Error,
    >)
        ensures
            old(self).spec_records().len() <= edge_index ==> {
                &&& r == Result::<(), Error>::Err(Error::OutOfRange)
                &&& *final(self) == *old(self)
            },
            edge_index < old(self).spec_records().len() ==> {
                &&& r is Ok
                &&& final(self).spec_records() == old(self).spec_records().update(
                    edge_index as int,
                    traffic.bits(),
                )
                &&& final(self).spec_id() == old(self).spec_id()
                &&& final(self).spec_last_update() == old(self).spec_last_update()
                &&& final(self).spec_spare() == old(self).spec_spare()
                &&& final(self).wf() == old(self).wf()
            },
    {
        if (edge_index as usize) < self.records.len() {
            self.records.set(edge_index as usize, traffic.to_bits());
            Ok(())
        } else {
            Err(Error::OutOfRange)
        }
    }

    /// Stores the time of last update.
    pub fn write_last_update(&mut self, unix_timestamp: u64)
        ensures
            final(self).spec_last_update() == unix_timestamp,
            final(self).spec_id() == old(self).spec_id(),
            final(self).spec_spare() == old(self).spec_spare(),
            final(self).spec_records() == old(self).spec_records(),
            final(self).wf() == old(self).wf(),
    {
        self.last_update = unix_timestamp;
    }

    /// Stores the caller-owned spare word.
    pub fn write_spare(&mut self, spare: u64)
        ensures
            final(self).spec_spare() == spare,
            final(self).spec_id() == old(self).spec_id(),
            final(self).spec_last_update() == old(self).spec_last_update(),
            final(self).spec_records() == old(self).spec_records(),
            final(self).wf() == old(self).wf(),
    {
        self.spare = spare;
    }

    /// Zeroes every edge record and the update time; the spare word stays.
    pub fn clear_traffic(&mut self)
        ensures
            final(self).spec_last_update() == 0,
            final(self).spec_id() == old(self).spec_id(),
            final(self).spec_spare() == old(self).spec_spare(),
            final(self).spec_records() == Seq::<u64>::new(
                old(self).spec_records().len(),
                |i: int| 0u64,
            ),
            final(self).wf() == old(self).wf(),
    {
        let n = self.records.len();
        let mut i: usize = 0;
        while i < n
            invariant
                i <= n,
                n == self.records.len(),
                self.id == old(self).id,
                self.last_update == old(self).last_update,
                self.spare == old(self).spare,
                forall|j: int| 0 <= j < i ==> self.records@[j] == 0u64,
                forall|j: int|
                    i <= j < n ==> self.records@[j] == old(self).spec_records()[j],
            decreases n - i,
        {
            self.records.set(i, 0);
            i = i + 1;
        }
        self.last_update = 0;
        proof {
            assert(self.spec_records() =~= Seq::<u64>::new(
                old(self).spec_records().len(),
                |i: int| 0u64,
            ));
        }
    }
}


/// Number of per-edge records a traffic blob declares.
pub open spec fn spec_traffic_edge_count(s: Seq<u8>) -> u32 {
    spec_u32_from_le_bytes(s.subrange(24, 28))
}

/// The per-edge records a traffic blob holds.
pub open spec fn spec_traffic_records(s: Seq<u8>) -> Seq<u64> {
    Seq::new(
        spec_traffic_edge_count(s) as nat,
        |j: int| spec_u64_from_le_bytes(s.subrange(32 + 8 * j, 40 + 8 * j)),
    )
}

/// Whether a blob is a valid traffic tile: a clean tile-base identifier
/// and a header that accounts for exactly the buffer.
pub open spec fn spec_traffic_decodes(s: Seq<u8>) -> bool {
    let w = spec_u64_from_le_bytes(s.subrange(0, 8));
    &&& s.len() >= 32
    &&& crate::graphid::payload_part(w) == w
    &&& crate::graphid::id_part(w) == 0
    &&& 32 + 8 * (spec_traffic_edge_count(s) as int) == s.len()
}

impl TrafficTile {
    /// Decodes one traffic-tile blob. Succeeds exactly on blobs whose
    /// header accounts for the whole buffer and whose identifier is a
    /// clean tile base.
    pub fn from_bytes(b: &Vec<u8>) -> (r: Result<TrafficTile, Error>)
        ensures
            r is Ok <==> spec_traffic_decodes(b@),
            r is Ok ==> {
                &&& r->Ok_0.wf()
                &&& r->Ok_0.spec_id() == crate::graphid::masked_id(
                    spec_u64_from_le_bytes(b@.subrange(0, 8)),
                )
                &&& r->Ok_0.spec_last_update() == spec_u64_from_le_bytes(b@.subrange(8, 16))
                &&& r->Ok_0.spec_spare() == spec_u64_from_le_bytes(b@.subrange(16, 24))
                &&& r->Ok_0.spec_records() == spec_traffic_records(b@)
            },
    {
        let len: usize = b.len();
        if len < 32 {
            return Err(Error::ArchiveError);
        }
        let w = read_u64_le(b.as_slice(), 0);
        let id = GraphId::new(w);
        if w & 0x3fff_ffff_ffff != w {
            return Err(Error::ArchiveError);
        }
        if id.id() != 0 {
            return Err(Error::ArchiveError);
        }
        let last_update = read_u64_le(b.as_slice(), 8);
        let spare = read_u64_le(b.as_slice(), 16);
        let ecnt = read_u32_le(b.as_slice(), 24);
        if 32u64 + 8 * (ecnt as u64) != len as u64 {
            return Err(Error::ArchiveError);
        }
        let mut records: Vec<u64> = Vec::new();
        let mut off: usize = 32;
        let mut i: u32 = 0;
        while i < ecnt
            invariant
                len == b@.len(),
                i <= ecnt,
                off == 32 + 8 * i,
                32 + 8 * (ecnt as int) <= len,
                records@.len() == i,
                forall|j: int|
                    0 <= j < i ==> records@[j] == spec_u64_from_le_bytes(
                        b@.subrange(32 + 8 * j, 40 + 8 * j),
                    ),
            decreases ecnt - i,
        {
            records.push(read_u64_le(b.as_slice(), off));
            off = off + 8;
            i = i + 1;
        }
        let tile = TrafficTile { id, last_update, spare, records };
        proof {
            assert(tile.spec_records() =~= spec_traffic_records(b@));
        }
        Ok(tile)
    }
}


/// Write-then-read law: after a record is written for an edge, reading
/// that edge yields exactly the written record, and no other edge moved.
pub proof fn lemma_overlay_write_read(before: TrafficTile, after: TrafficTile, i: u32, t: LiveTraffic)
    requires
        i < before.spec_records().len(),
        after.spec_records() == before.spec_records().update(i as int, t.bits()),
    ensures
        after.spec_records()[i as int] == t.bits(),
        forall|j: int|
            0 <= j < before.spec_records().len() && j != i ==> after.spec_records()[j]
                == before.spec_records()[j],
{
}

} // verus!
