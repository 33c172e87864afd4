//! The packed 46-bit graph identifier.
//!
//! A `GraphId` names a tile, or a node or directed edge within a tile, across
//! the three hierarchy levels. The payload occupies the low 46 bits of a
//! 64-bit word, least significant first: 3 bits of hierarchy level, 22 bits of
//! tile identifier, 21 bits of identifier within the tile. The all-ones
//! payload is the invalid sentinel. Bits above the payload carry no identity:
//! the constructors mask them away, so equality on the stored word is equality
//! of the payload.
use vstd::prelude::*;

use crate::text::{push_decimal, spec_decimal};

verus! {

/// Mask of the 46 payload bits; also the invalid sentinel value.
pub const INVALID_GRAPH_ID: u64 = 0x3fff_ffff_ffff;

/// Number of hierarchy levels a `GraphId` can name.
pub const LEVEL_COUNT: u64 = 8;

/// Number of tile identifiers a `GraphId` can name per level.
pub const TILE_COUNT: u64 = 0x400000;

/// Number of within-tile identifiers a `GraphId` can name.
pub const ID_COUNT: u64 = 0x200000;

/// Hierarchy level encoded in the low 3 bits of a packed word.
pub open spec fn level_part(v: u64) -> u64 {
    v & 0x7
}

/// Tile identifier encoded in bits 3 to 24 of a packed word.
pub open spec fn tileid_part(v: u64) -> u64 {
    (v >> 3) & 0x3fffff
}

/// Within-tile identifier encoded in bits 25 to 45 of a packed word.
pub open spec fn id_part(v: u64) -> u64 {
    (v >> 25) & 0x1fffff
}

/// The packed word with the within-tile identifier zeroed: the tile base.
pub open spec fn base_part(v: u64) -> u64 {
    v & 0x1ffffff
}

/// The low 46 bits of a word: the payload that carries identity.
pub open spec fn payload_part(v: u64) -> u64 {
    v & 0x3fff_ffff_ffff
}

/// The packed word for a `(level, tileid, id)` triple.
pub open spec fn packed_bits(level: u64, tileid: u64, id: u64) -> u64 {
    level | (tileid << 3) | (id << 25)
}

/// Identifier of a node or a directed edge within the tiled, hierarchical
/// graph: hierarchy level, tile identifier and identifier within the tile,
/// packed into one word.
#[derive(Clone, Copy, PartialEq, Eq, Structural, Hash, Debug)]
pub struct GraphId {
    /// The packed word. The constructors keep it equal to its own payload.
    pub value: u64,
}

/// The identifier that `GraphId::new` builds from a raw word: the word with
/// everything above the payload masked away.
pub open spec fn masked_id(value: u64) -> GraphId {
    GraphId { value: payload_part(value) }
}

impl GraphId {
    /// The stored word. Always equal to its own payload.
    pub open spec fn bits(self) -> u64 {
        self.value
    }

    /// Spec-level validity: the word carries nothing above the payload.
    pub open spec fn wf(self) -> bool {
        self.bits() == payload_part(self.bits())
    }

    /// Spec-level view as a `(level, tileid, id)` triple.
    pub open spec fn spec_level(self) -> u64 {
        level_part(self.bits())
    }

    /// The tile identifier field of the packed word.
    pub open spec fn spec_tileid(self) -> u64 {
        tileid_part(self.bits())
    }

    /// The within-tile identifier field of the packed word.
    pub open spec fn spec_id(self) -> u64 {
        id_part(self.bits())
    }

    /// Wraps a raw packed word. Bits above the 46-bit payload are ignored.
    pub fn new(value: u64) -> (r: GraphId)
        ensures
            r == masked_id(value),
            r.bits() == payload_part(value),
            r.wf(),
    {
        proof {
            assert(payload_part(payload_part(value)) == payload_part(value)) by (bit_vector);
        }
        GraphId { value: value & 0x3fff_ffff_ffff }
    }

    /// Packs a `(level, tileid, id)` triple. Returns `None` when the level
    /// does not fit 3 bits, the tile identifier 22 bits, or the identifier
    /// 21 bits.
    pub fn from_parts(level: u32, tileid: u32, id: u32) -> (r: Option<GraphId>)
        ensures
            (level < LEVEL_COUNT && tileid < TILE_COUNT && id < ID_COUNT) <==> r is Some,
            r is Some ==> {
                &&& r->0.bits() == packed_bits(level as u64, tileid as u64, id as u64)
                &&& r->0.wf()
            },
    {
        if level >= 8 || tileid >= 0x400000 || id >= 0x200000 {
            return None;
        }
        let value: u64 = (level as u64) | ((tileid as u64) << 3) | ((id as u64) << 25);
        proof {
            let l = level as u64;
            let t = tileid as u64;
            let i = id as u64;
            assert(payload_part(l | (t << 3) | (i << 25)) == (l | (t << 3) | (i << 25)))
                by (bit_vector)
                requires l < 8 && t < 0x400000 && i < 0x200000;
        }
        Some(GraphId { value })
    }

    /// Hierarchy level of the tile this identifier belongs to.
    pub fn level(&self) -> (r: u32)
        ensures
            r == self.spec_level(),
            r < LEVEL_COUNT,
    {
        proof {
            let v = self.value;
            assert((v & 0x7) < 8 && (v & 0x7) <= 0xffff_ffff) by (bit_vector);
        }
        (self.value & 0x7) as u32
    }

    /// Tile identifier of this identifier within its hierarchy level.
    pub fn tileid(&self) -> (r: u32)
        ensures
            r == self.spec_tileid(),
            r < TILE_COUNT,
    {
        proof {
            let v = self.value;
            assert(((v >> 3) & 0x3fffff) < 0x400000 && ((v >> 3) & 0x3fffff) <= 0xffff_ffff)
                by (bit_vector);
        }
        ((self.value >> 3) & 0x3fffff) as u32
    }

    /// Identifier within the tile, unique within the tile and level.
    pub fn id(&self) -> (r: u32)
        ensures
            r == self.spec_id(),
            r < ID_COUNT,
    {
        proof {
            let v = self.value;
            assert(((v >> 25) & 0x1fffff) < 0x200000 && ((v >> 25) & 0x1fffff) <= 0xffff_ffff)
                by (bit_vector);
        }
        ((self.value >> 25) & 0x1fffff) as u32
    }

    /// The tile base: the same level and tile identifier with the
    /// within-tile identifier zeroed.
    pub fn tile(&self) -> (r: GraphId)
        ensures
            r.bits() == base_part(self.bits()),
            r.spec_level() == self.spec_level(),
            r.spec_tileid() == self.spec_tileid(),
            r.spec_id() == 0,
            self.wf() ==> r.wf(),
    {
        proof {
            let v = self.value;
            assert({
                &&& level_part(v & 0x1ffffff) == level_part(v)
                &&& tileid_part(v & 0x1ffffff) == tileid_part(v)
                &&& id_part(v & 0x1ffffff) == 0
                &&& v == payload_part(v) ==> (v & 0x1ffffff) == payload_part(v & 0x1ffffff)
            }) by (bit_vector);
        }
        GraphId { value: self.value & 0x1ffffff }
    }

    /// Whether this is the invalid sentinel.
    pub fn is_invalid(&self) -> (r: bool)
        ensures
            r == (self.bits() == INVALID_GRAPH_ID),
    {
        self.value == 0x3fff_ffff_ffff
    }

    /// The stable textual form `level/tile/id`.
    pub fn text(&self) -> (r: String)
        ensures
            r@ == spec_graphid_text(*self),
    {
        let slash = "/";
        proof {
            reveal_strlit("/");
        }
        let mut out = String::new();
        push_decimal(&mut out, (self.level() as u64));
        out.append(slash);
        push_decimal(&mut out, (self.tileid() as u64));
        out.append(slash);
        push_decimal(&mut out, (self.id() as u64));
        proof {
            assert(out@ =~= spec_graphid_text(*self));
        }
        out
    }
}

/// The textual form of an identifier: its three fields in decimal,
/// separated by slashes.
pub open spec fn spec_graphid_text(g: GraphId) -> Seq<char> {
    spec_decimal(g.spec_level() as nat) + seq!['/'] + spec_decimal(g.spec_tileid() as nat)
        + seq!['/'] + spec_decimal(g.spec_id() as nat)
}


impl Default for GraphId {
    /// The invalid sentinel: every payload bit set.
    fn default() -> (r: Self)
        ensures
            r.bits() == INVALID_GRAPH_ID,
            r.spec_level() == 7,
            r.spec_tileid() == TILE_COUNT - 1,
            r.spec_id() == ID_COUNT - 1,
            r.wf(),
    {
        proof {
            assert({
                &&& level_part(0x3fff_ffff_ffffu64) == 7
                &&& tileid_part(0x3fff_ffff_ffffu64) == 0x3fffff
                &&& id_part(0x3fff_ffff_ffffu64) == 0x1fffff
                &&& payload_part(0x3fff_ffff_ffffu64) == 0x3fff_ffff_ffffu64
            }) by (bit_vector);
        }
        GraphId { value: 0x3fff_ffff_ffff }
    }
}

/// Packing a valid `(level, tileid, id)` triple round-trips: each field reads
/// back unchanged, and the packed word is its own payload.
pub proof fn lemma_pack_round_trip(level: u64, tileid: u64, id: u64)
    requires
        level < LEVEL_COUNT,
        tileid < TILE_COUNT,
        id < ID_COUNT,
    ensures
        level_part(packed_bits(level, tileid, id)) == level,
        tileid_part(packed_bits(level, tileid, id)) == tileid,
        id_part(packed_bits(level, tileid, id)) == id,
        payload_part(packed_bits(level, tileid, id)) == packed_bits(level, tileid, id),
{
    assert({
        &&& level_part(packed_bits(level, tileid, id)) == level
        &&& tileid_part(packed_bits(level, tileid, id)) == tileid
        &&& id_part(packed_bits(level, tileid, id)) == id
        &&& payload_part(packed_bits(level, tileid, id)) == packed_bits(level, tileid, id)
    }) by (bit_vector)
        requires level < 8 && tileid < 0x400000 && id < 0x200000;
}

/// Two well-formed identifiers with the same fields are the same identifier:
/// the packed word is determined by its three fields.
pub proof fn lemma_fields_determine_id(a: GraphId, b: GraphId)
    requires
        a.wf(),
        b.wf(),
        a.spec_level() == b.spec_level(),
        a.spec_tileid() == b.spec_tileid(),
        a.spec_id() == b.spec_id(),
    ensures
        a == b,
{
    let x = a.bits();
    let y = b.bits();
    assert(x == y) by (bit_vector)
        requires
            x == (x & 0x3fff_ffff_ffff),
            y == (y & 0x3fff_ffff_ffff),
            (x & 0x7) == (y & 0x7),
            ((x >> 3) & 0x3fffff) == ((y >> 3) & 0x3fffff),
            ((x >> 25) & 0x1fffff) == ((y >> 25) & 0x1fffff);
}

} // verus!
