//! The fixed-size records of a graph tile and their binary layout.
//!
//! A tile stores its sub-arrays as runs of fixed-size records: 32 bytes per
//! node, 48 bytes per directed edge, 8 bytes per hierarchy transition and 64
//! bytes per administrative record. All indexing is by record size, so the
//! decoders here read each record from its byte slot; the spec functions
//! beside them define what each slot means, field by field.
use vstd::bytes::*;
use vstd::prelude::*;

use crate::bytes::{read_u16_le, read_u32_le, read_u64_le};
use crate::graphid::{masked_id, GraphId};

verus! {

/// Byte size of one node record.
pub const NODE_RECORD_BYTES: usize = 32;

/// Byte size of one directed-edge record.
pub const EDGE_RECORD_BYTES: usize = 48;

/// Byte size of one transition record.
pub const TRANSITION_RECORD_BYTES: usize = 8;

/// Offset added to a latitude before storage, in millionths of a degree,
/// so the stored word is never negative.
pub const LAT_OFFSET_MICRO: u32 = 90_000_000;

/// Offset added to a longitude before storage, in millionths of a degree.
pub const LON_OFFSET_MICRO: u32 = 180_000_000;

/// A coordinate in millionths of a degree: latitude first, longitude second.
#[derive(Clone, Copy, PartialEq, Eq, Structural, Debug)]
pub struct LatLon(pub i64, pub i64);

/// Information held for each node. The graph uses a forward-star layout:
/// a node names the first of its outbound directed edges and how many
/// follow it, and likewise for its hierarchy transitions.
#[derive(Clone, Copy, PartialEq, Eq, Structural, Debug)]
pub struct NodeInfo {
    /// Index of the first outbound directed edge within this tile.
    pub edge_index: u32,
    /// Number of outbound directed edges from this node.
    pub edge_count: u32,
    /// Index of the first transition from this node within this tile.
    pub transition_index: u32,
    /// Number of transitions from this node.
    pub transition_count: u32,
    /// Index of the administrative record covering this node.
    pub admin_index: u16,
    /// Time-zone index of the node.
    pub timezone: u16,
    /// Relative road density around the node, 0 to 15.
    pub density: u8,
    /// Access modes allowed through the node, over the access constants.
    pub access_mask: u16,
    /// Latitude plus `LAT_OFFSET_MICRO`, in millionths of a degree.
    pub lat_stored: u32,
    /// Longitude plus `LON_OFFSET_MICRO`, in millionths of a degree.
    pub lon_stored: u32,
}

/// A directed edge of the graph.
#[derive(Clone, Copy, PartialEq, Eq, Structural, Debug)]
pub struct DirectedEdge {
    /// End node of the edge; in another tile exactly when `leaves_tile`.
    pub endnode: GraphId,
    /// Index of the opposing edge within the end node's edge list.
    pub opp_index: u32,
    /// Byte offset of this edge's variable-length record in the tile's
    /// edge-information blob.
    pub edgeinfo_offset: u32,
    /// Access modes along the edge direction, over the access constants.
    pub forward_access: u16,
    /// Access modes against the edge direction.
    pub reverse_access: u16,
    /// Length of the edge in meters.
    pub length: u32,
    /// Default speed in km/h; never zero in a well-formed tile.
    pub speed: u8,
    /// Truck speed in km/h; zero when absent.
    pub truck_speed: u8,
    /// Typical night speed in km/h; zero when absent.
    pub free_flow_speed: u8,
    /// Typical day speed in km/h; zero when absent.
    pub constrained_flow_speed: u8,
    /// Road class, 0 motorway to 7 service, 8 invalid.
    pub road_class: u8,
    /// Specialized use of the edge, over the use constants.
    pub use_type: u8,
    /// Whether the edge is part of a toll road.
    pub toll: bool,
    /// Whether the edge runs through a tunnel.
    pub tunnel: bool,
    /// Whether the edge runs over a bridge.
    pub bridge: bool,
    /// Whether the edge is part of a roundabout.
    pub roundabout: bool,
    /// Whether the edge is private or destination-only.
    pub destonly: bool,
    /// Whether the edge crosses a country border.
    pub crosses_country_border: bool,
    /// Whether the edge is a synthetic shortcut.
    pub is_shortcut: bool,
    /// Whether the end node lies in a different tile.
    pub leaves_tile: bool,
    /// Whether a predicted-speed curve is stored for this edge.
    pub has_predicted: bool,
    /// Byte offset of the predicted-speed buckets in the tile's
    /// predicted-speed blob; meaningful only with `has_predicted`.
    pub predicted_offset: u32,
}

/// A link between a node and its representation on another hierarchy level.
#[derive(Clone, Copy, PartialEq, Eq, Structural, Debug)]
pub struct NodeTransition {
    /// The corresponding node on the other level, always in another tile.
    pub endnode: GraphId,
    /// Whether the transition goes up, to a coarser level.
    pub upward: bool,
}

/// Administrative area texts and codes; empty strings where absent.
#[derive(Clone, PartialEq, Eq, Debug)]
pub struct AdminInfo {
    /// Name of the country, or "None" when not available.
    pub country_text: String,
    /// Name of the state, or "None" when not available.
    pub state_text: String,
    /// Two-letter country code.
    pub country_iso: String,
    /// Subdivision code, state or province part only.
    pub state_iso: String,
}

/// The variable-length cold data of an edge.
#[derive(Clone, PartialEq, Eq, Debug)]
pub struct EdgeInfo {
    /// Way identifier of the edge in the source data; zero for shortcuts.
    pub way_id: u64,
    /// Speed limit in km/h: 0 unknown, 255 unlimited.
    pub speed_limit: u8,
    /// Shape of the edge as an encoded polyline with six-digit precision.
    pub shape: String,
}

/// The ferry use code.
pub const USE_FERRY: u8 = 41;

/// The rail-ferry use code.
pub const USE_RAIL_FERRY: u8 = 42;

/// The node record that a 32-byte slot at `off` holds.
pub open spec fn spec_node_at(s: Seq<u8>, off: int) -> NodeInfo {
    NodeInfo {
        edge_index: spec_u32_from_le_bytes(s.subrange(off, off + 4)),
        edge_count: spec_u32_from_le_bytes(s.subrange(off + 4, off + 8)),
        transition_index: spec_u32_from_le_bytes(s.subrange(off + 8, off + 12)),
        transition_count: spec_u32_from_le_bytes(s.subrange(off + 12, off + 16)),
        admin_index: spec_u16_from_le_bytes(s.subrange(off + 16, off + 18)),
        timezone: spec_u16_from_le_bytes(s.subrange(off + 18, off + 20)),
        density: s[off + 20],
        access_mask: spec_u16_from_le_bytes(s.subrange(off + 22, off + 24)),
        lat_stored: spec_u32_from_le_bytes(s.subrange(off + 24, off + 28)),
        lon_stored: spec_u32_from_le_bytes(s.subrange(off + 28, off + 32)),
    }
}

/// The directed-edge record that a 48-byte slot at `off` holds.
pub open spec fn spec_edge_at(s: Seq<u8>, off: int) -> DirectedEdge {
    DirectedEdge {
        endnode: masked_id(spec_u64_from_le_bytes(s.subrange(off, off + 8))),
        opp_index: spec_u32_from_le_bytes(s.subrange(off + 8, off + 12)),
        edgeinfo_offset: spec_u32_from_le_bytes(s.subrange(off + 12, off + 16)),
        forward_access: spec_u16_from_le_bytes(s.subrange(off + 16, off + 18)),
        reverse_access: spec_u16_from_le_bytes(s.subrange(off + 18, off + 20)),
        length: spec_u32_from_le_bytes(s.subrange(off + 20, off + 24)),
        speed: s[off + 24],
        truck_speed: s[off + 25],
        free_flow_speed: s[off + 26],
        constrained_flow_speed: s[off + 27],
        road_class: s[off + 28],
        use_type: s[off + 29],
        toll: s[off + 30] != 0,
        tunnel: s[off + 31] != 0,
        bridge: s[off + 32] != 0,
        roundabout: s[off + 33] != 0,
        destonly: s[off + 34] != 0,
        crosses_country_border: s[off + 35] != 0,
        is_shortcut: s[off + 36] != 0,
        leaves_tile: s[off + 37] != 0,
        has_predicted: s[off + 38] != 0,
        predicted_offset: spec_u32_from_le_bytes(s.subrange(off + 40, off + 44)),
    }
}

/// The transition record that an 8-byte slot at `off` holds: the low 46
/// bits are the end node, bit 46 is the upward flag.
pub open spec fn spec_transition_at(s: Seq<u8>, off: int) -> NodeTransition {
    NodeTransition {
        endnode: masked_id(spec_u64_from_le_bytes(s.subrange(off, off + 8))),
        upward: (spec_u64_from_le_bytes(s.subrange(off, off + 8)) >> 46) & 1 == 1,
    }
}

/// Reads the node record at byte offset `off`.
pub fn decode_node(b: &Vec<u8>, off: usize) -> (r: NodeInfo)
    requires
        off + NODE_RECORD_BYTES <= b@.len(),
    ensures
        r == spec_node_at(b@, off as int),
{
    let n: usize = b.len();
    NodeInfo {
        edge_index: read_u32_le(b.as_slice(), off),
        edge_count: read_u32_le(b.as_slice(), off + 4),
        transition_index: read_u32_le(b.as_slice(), off + 8),
        transition_count: read_u32_le(b.as_slice(), off + 12),
        admin_index: read_u16_le(b.as_slice(), off + 16),
        timezone: read_u16_le(b.as_slice(), off + 18),
        density: b[off + 20],
        access_mask: read_u16_le(b.as_slice(), off + 22),
        lat_stored: read_u32_le(b.as_slice(), off + 24),
        lon_stored: read_u32_le(b.as_slice(), off + 28),
    }
}

/// Reads the directed-edge record at byte offset `off`.
pub fn decode_edge(b: &Vec<u8>, off: usize) -> (r: DirectedEdge)
    requires
        off + EDGE_RECORD_BYTES <= b@.len(),
    ensures
        r == spec_edge_at(b@, off as int),
{
    let n: usize = b.len();
    DirectedEdge {
        endnode: GraphId::new(read_u64_le(b.as_slice(), off)),
        opp_index: read_u32_le(b.as_slice(), off + 8),
        edgeinfo_offset: read_u32_le(b.as_slice(), off + 12),
        forward_access: read_u16_le(b.as_slice(), off + 16),
        reverse_access: read_u16_le(b.as_slice(), off + 18),
        length: read_u32_le(b.as_slice(), off + 20),
        speed: b[off + 24],
        truck_speed: b[off + 25],
        free_flow_speed: b[off + 26],
        constrained_flow_speed: b[off + 27],
        road_class: b[off + 28],
        use_type: b[off + 29],
        toll: b[off + 30] != 0,
        tunnel: b[off + 31] != 0,
        bridge: b[off + 32] != 0,
        roundabout: b[off + 33] != 0,
        destonly: b[off + 34] != 0,
        crosses_country_border: b[off + 35] != 0,
        is_shortcut: b[off + 36] != 0,
        leaves_tile: b[off + 37] != 0,
        has_predicted: b[off + 38] != 0,
        predicted_offset: read_u32_le(b.as_slice(), off + 40),
    }
}

/// Reads the transition record at byte offset `off`.
pub fn decode_transition(b: &Vec<u8>, off: usize) -> (r: NodeTransition)
    requires
        off + TRANSITION_RECORD_BYTES <= b@.len(),
    ensures
        r == spec_transition_at(b@, off as int),
{
    let n: usize = b.len();
    let word = read_u64_le(b.as_slice(), off);
    NodeTransition { endnode: GraphId::new(word), upward: (word >> 46) & 1 == 1 }
}

impl NodeInfo {
    /// The run of indices that this node's outbound edges occupy in the
    /// tile's directed-edge array.
    pub fn edges(&self) -> (r: core::ops::Range<usize>)
        requires
            self.edge_index + self.edge_count <= usize::MAX,
        ensures
            r.start == self.edge_index,
            r.end == self.edge_index + self.edge_count,
    {
        let start = self.edge_index as usize;
        let count = self.edge_count as usize;
        start..start + count
    }

    /// The run of indices that this node's transitions occupy in the
    /// tile's transition array.
    pub fn transitions(&self) -> (r: core::ops::Range<usize>)
        requires
            self.transition_index + self.transition_count <= usize::MAX,
        ensures
            r.start == self.transition_index,
            r.end == self.transition_index + self.transition_count,
    {
        let start = self.transition_index as usize;
        let count = self.transition_count as usize;
        start..start + count
    }

    /// Access modes allowed through the node.
    pub fn access(&self) -> (r: crate::access::Access)
        ensures
            r.0 == self.access_mask,
    {
        crate::access::Access(self.access_mask)
    }

    /// The node's position in millionths of a degree.
    pub fn latlon(&self) -> (r: LatLon)
        ensures
            r.0 == self.lat_stored - LAT_OFFSET_MICRO,
            r.1 == self.lon_stored - LON_OFFSET_MICRO,
    {
        LatLon(
            self.lat_stored as i64 - LAT_OFFSET_MICRO as i64,
            self.lon_stored as i64 - LON_OFFSET_MICRO as i64,
        )
    }
}

impl DirectedEdge {
    /// Access modes along the edge direction.
    pub fn forwardaccess(&self) -> (r: crate::access::Access)
        ensures
            r.0 == self.forward_access,
    {
        crate::access::Access(self.forward_access)
    }

    /// Access modes against the edge direction.
    pub fn reverseaccess(&self) -> (r: crate::access::Access)
        ensures
            r.0 == self.reverse_access,
    {
        crate::access::Access(self.reverse_access)
    }
}

} // verus!
