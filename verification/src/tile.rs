//! One decoded graph tile and its accessors.
//!
//! A tile blob is a fixed header followed by the sub-arrays in fixed order:
//! nodes, directed edges, transitions, administrative records, the
//! variable-length edge-information blob, and the predicted-speed blob.
//! Decoding validates the structural invariants of the format — forward-star
//! ranges in bounds, the cross-tile flag consistent with the end node, the
//! opposing-edge relation, transition direction flags — so every accessor
//! can rely on them.
use vstd::bytes::*;
use vstd::prelude::*;
use vstd::slice::*;

use crate::bytes::{copy_range, read_u16_le, read_u32_le, read_u64_le};
use crate::graphid::{base_part, masked_id, payload_part, GraphId};
use crate::records::{
    decode_edge, decode_node, decode_transition, spec_edge_at, spec_node_at, spec_transition_at,
    AdminInfo, DirectedEdge, EdgeInfo, NodeInfo, NodeTransition,
};
use crate::speed::{resolve_speed, spec_edge_speed, BUCKETS_PER_EDGE};
use crate::text::ascii_to_string;
use crate::traffic::{breakpoint1_part, record_closed, record_live_speed, TrafficTile};
use crate::access::SpeedSources;
use crate::Error;

verus! {

/// Byte size of the tile header.
pub const TILE_HEADER_BYTES: usize = 48;

/// Byte size of one administrative record.
pub const ADMIN_RECORD_BYTES: usize = 64;

/// Whether the characters of `t` are exactly the ASCII bytes of `s` at
/// `[lo, lo + n)`.
pub open spec fn ascii_str_matches(t: Seq<char>, s: Seq<u8>, lo: int, n: int) -> bool {
    &&& t.len() == n
    &&& forall|i: int| 0 <= i < n ==> (#[trigger] t[i] as u8) == s[lo + i] && (t[i] as u32) < 128
}

/// The way identifier stored at the head of an edge-information record.
pub open spec fn spec_edgeinfo_way_id(s: Seq<u8>, off: int) -> u64 {
    spec_u64_from_le_bytes(s.subrange(off, off + 8))
}

/// The speed limit stored in an edge-information record.
pub open spec fn spec_edgeinfo_speed_limit(s: Seq<u8>, off: int) -> u8 {
    s[off + 8]
}

/// The shape length stored in an edge-information record.
pub open spec fn spec_edgeinfo_shape_len(s: Seq<u8>, off: int) -> u16 {
    spec_u16_from_le_bytes(s.subrange(off + 9, off + 11))
}

/// Whether a valid edge-information record starts at `off`: the fixed head
/// fits, the shape fits, and the shape is ASCII.
pub open spec fn edgeinfo_ok(s: Seq<u8>, off: int) -> bool {
    &&& 0 <= off
    &&& off + 11 + spec_edgeinfo_shape_len(s, off) <= s.len()
    &&& forall|j: int|
        off + 11 <= j < off + 11 + spec_edgeinfo_shape_len(s, off) ==> #[trigger] s[j] < 128
}

/// Whether a node's stored ranges and indices lie within the tile.
pub open spec fn node_ok(n: NodeInfo, edges_len: int, trans_len: int, admins_len: int) -> bool {
    &&& n.edge_index + n.edge_count <= edges_len
    &&& n.transition_index + n.transition_count <= trans_len
    &&& n.admin_index < admins_len
    &&& n.density <= 15
}

/// Whether an edge's stored fields are consistent with the tile: the
/// cross-tile flag mirrors the end node's tile, the end node of an
/// in-tile edge exists, the default speed is nonzero, the predicted curve
/// fits, the edge-information record parses, and the shortcut flag mirrors
/// a zero way identifier.
pub open spec fn edge_ok(
    e: DirectedEdge,
    id: GraphId,
    nodes_len: int,
    ei: Seq<u8>,
    pred_len: int,
) -> bool {
    &&& e.endnode.wf()
    &&& e.leaves_tile == (base_part(e.endnode.bits()) != base_part(id.bits()))
    &&& !e.leaves_tile ==> e.endnode.spec_id() < nodes_len
    &&& e.speed >= 1
    &&& e.has_predicted ==> e.predicted_offset + BUCKETS_PER_EDGE <= pred_len
    &&& edgeinfo_ok(ei, e.edgeinfo_offset as int)
    &&& e.is_shortcut == (spec_edgeinfo_way_id(ei, e.edgeinfo_offset as int) == 0)
}

/// Whether a transition is consistent with the tile: its end node lies in
/// another tile on another level, and the upward flag points to the
/// coarser level.
pub open spec fn transition_ok(t: NodeTransition, id: GraphId) -> bool {
    &&& t.endnode.wf()
    &&& base_part(t.endnode.bits()) != base_part(id.bits())
    &&& t.endnode.spec_level() != id.spec_level()
    &&& t.upward == (t.endnode.spec_level() < id.spec_level())
}

/// Whether node `p` owns the edge at index `k` under the forward-star
/// layout.
pub open spec fn owns_edge(nodes: Seq<NodeInfo>, p: int, k: int) -> bool {
    nodes[p].edge_index <= k < nodes[p].edge_index + nodes[p].edge_count
}

/// The opposing-edge relation for a non-shortcut edge `k` owned by node
/// `p` that stays in the tile: at the end node, the edge at the stored
/// opposing index comes back to `p`, its own opposing index leads back
/// to `k`, and the two directions share one edge-information record.
pub open spec fn opposing_ok(nodes: Seq<NodeInfo>, edges: Seq<DirectedEdge>, p: int, k: int) -> bool {
    let e = edges[k];
    let n1 = nodes[e.endnode.spec_id() as int];
    &&& e.opp_index < n1.edge_count
    &&& edges[n1.edge_index + e.opp_index].endnode.spec_id() == p
    &&& k == nodes[p].edge_index + edges[n1.edge_index + e.opp_index].opp_index
    &&& edges[n1.edge_index + e.opp_index].edgeinfo_offset == e.edgeinfo_offset
}

/// The traffic record an overlay holds for edge `k`: the unknown record
/// when the overlay is absent or does not cover `k`.
pub open spec fn spec_overlay_record(traffic: Option<&TrafficTile>, k: int) -> u64 {
    if traffic is Some && 0 <= k < traffic->0.spec_records().len() {
        traffic->0.spec_records()[k]
    } else {
        0
    }
}

/// The traffic record handed to the speed resolver for edge `k`.
pub open spec fn spec_overlay_lookup(traffic: Option<&TrafficTile>, k: int) -> Option<u64> {
    if traffic is Some && 0 <= k < traffic->0.spec_records().len() {
        Some(traffic->0.spec_records()[k])
    } else {
        None
    }
}

/// Graph information for one tile of the tiled, hierarchical graph.
pub struct GraphTile {
    dataset_id: u64,
    id: GraphId,
    nodes: Vec<NodeInfo>,
    edges: Vec<DirectedEdge>,
    transitions: Vec<NodeTransition>,
    admins: Vec<AdminInfo>,
    edgeinfo: Vec<u8>,
    predicted: Vec<u8>,
}

impl GraphTile {
    /// The build identifier embedded in the tile header.
    pub closed spec fn spec_dataset_id(self) -> u64 {
        self.dataset_id
    }

    /// The tile's own identifier.
    pub closed spec fn spec_id(self) -> GraphId {
        self.id
    }

    /// The node records, in tile order.
    pub closed spec fn spec_nodes(self) -> Seq<NodeInfo> {
        self.nodes@
    }

    /// The directed-edge records, in tile order.
    pub closed spec fn spec_edges(self) -> Seq<DirectedEdge> {
        self.edges@
    }

    /// The transition records, in tile order.
    pub closed spec fn spec_transitions(self) -> Seq<NodeTransition> {
        self.transitions@
    }

    /// The administrative records, in tile order.
    pub closed spec fn spec_admins(self) -> Seq<AdminInfo> {
        self.admins@
    }

    /// The edge-information blob.
    pub closed spec fn spec_edgeinfo_bytes(self) -> Seq<u8> {
        self.edgeinfo@
    }

    /// The predicted-speed blob.
    pub closed spec fn spec_predicted_bytes(self) -> Seq<u8> {
        self.predicted@
    }

    /// The structural invariants of a decoded tile.
    pub open spec fn wf(self) -> bool {
        &&& self.spec_id().wf()
        &&& self.spec_id().spec_id() == 0
        &&& self.spec_id().spec_level() < 3
        &&& self.spec_nodes().len() <= 0x1fffff
        &&& self.spec_edges().len() <= 0x1fffff
        &&& self.spec_transitions().len() <= 0xffff_ffff
        &&& self.spec_admins().len() <= 0xffff
        &&& forall|i: int|
            0 <= i < self.spec_nodes().len() ==> node_ok(
                #[trigger] self.spec_nodes()[i],
                self.spec_edges().len() as int,
                self.spec_transitions().len() as int,
                self.spec_admins().len() as int,
            )
        &&& forall|k: int|
            0 <= k < self.spec_edges().len() ==> edge_ok(
                #[trigger] self.spec_edges()[k],
                self.spec_id(),
                self.spec_nodes().len() as int,
                self.spec_edgeinfo_bytes(),
                self.spec_predicted_bytes().len() as int,
            )
        &&& forall|i: int|
            0 <= i < self.spec_transitions().len() ==> transition_ok(
                #[trigger] self.spec_transitions()[i],
                self.spec_id(),
            )
        &&& forall|p: int, k: int|
            0 <= p < self.spec_nodes().len() && 0 <= k < self.spec_edges().len()
                && #[trigger] owns_edge(self.spec_nodes(), p, k)
                && !self.spec_edges()[k].is_shortcut && !self.spec_edges()[k].leaves_tile
                ==> opposing_ok(self.spec_nodes(), self.spec_edges(), p, k)
    }

    /// The tile's identifier.
    pub fn id(&self) -> (r: GraphId)
        ensures
            r == self.spec_id(),
    {
        self.id
    }

    /// The build identifier shared by every tile of one build.
    pub fn dataset_id(&self) -> (r: u64)
        ensures
            r == self.spec_dataset_id(),
    {
        self.dataset_id
    }

    /// All directed edges of the tile.
    pub fn directededges(&self) -> (r: &[DirectedEdge])
        ensures
            r@ == self.spec_edges(),
    {
        self.edges.as_slice()
    }

    /// The directed edge at `index`, or `None` past the end.
    pub fn directededge(&self, index: u32) -> (r: Option<&DirectedEdge>)
        ensures
            index < self.spec_edges().len() ==> r is Some && *r->0 == self.spec_edges()[index as int],
            index >= self.spec_edges().len() ==> r is None,
    {
        if (index as usize) < self.edges.len() {
            Some(&self.edges[index as usize])
        } else {
            None
        }
    }

    /// All nodes of the tile.
    pub fn nodes(&self) -> (r: &[NodeInfo])
        ensures
            r@ == self.spec_nodes(),
    {
        self.nodes.as_slice()
    }

    /// The node at `index`, or `None` past the end.
    pub fn node(&self, index: u32) -> (r: Option<&NodeInfo>)
        ensures
            index < self.spec_nodes().len() ==> r is Some && *r->0 == self.spec_nodes()[index as int],
            index >= self.spec_nodes().len() ==> r is None,
    {
        if (index as usize) < self.nodes.len() {
            Some(&self.nodes[index as usize])
        } else {
            None
        }
    }

    /// All transitions of the tile.
    pub fn transitions(&self) -> (r: &[NodeTransition])
        ensures
            r@ == self.spec_transitions(),
    {
        self.transitions.as_slice()
    }

    /// The transition at `index`, or `None` past the end.
    pub fn transition(&self, index: u32) -> (r: Option<&NodeTransition>)
        ensures
            index < self.spec_transitions().len() ==> r is Some && *r->0
                == self.spec_transitions()[index as int],
            index >= self.spec_transitions().len() ==> r is None,
    {
        if (index as usize) < self.transitions.len() {
            Some(&self.transitions[index as usize])
        } else {
            None
        }
    }

    /// The outbound edges of `node`: the contiguous run its forward-star
    /// range names. A range that does not lie within this tile — a node
    /// of another tile — yields the empty slice.
    pub fn node_edges(&self, node: &NodeInfo) -> (r: &[DirectedEdge])
        ensures
            node.edge_index + node.edge_count <= self.spec_edges().len() ==> r@
                == self.spec_edges().subrange(
                node.edge_index as int,
                node.edge_index + node.edge_count,
            ),
            node.edge_index + node.edge_count > self.spec_edges().len() ==> r@.len() == 0,
    {
        let len = self.edges.len();
        if node.edge_index as u64 + node.edge_count as u64 <= len as u64 {
            let start = node.edge_index as usize;
            let end = start + node.edge_count as usize;
            slice_subrange(self.edges.as_slice(), start, end)
        } else {
            slice_subrange(self.edges.as_slice(), 0, 0)
        }
    }

    /// The transitions of `node`: the contiguous run its forward-star
    /// range names, or the empty slice when the range is not of this tile.
    pub fn node_transitions(&self, node: &NodeInfo) -> (r: &[NodeTransition])
        ensures
            node.transition_index + node.transition_count <= self.spec_transitions().len() ==> r@
                == self.spec_transitions().subrange(
                node.transition_index as int,
                node.transition_index + node.transition_count,
            ),
            node.transition_index + node.transition_count > self.spec_transitions().len() ==> r@.len()
                == 0,
    {
        let len = self.transitions.len();
        if node.transition_index as u64 + node.transition_count as u64 <= len as u64 {
            let start = node.transition_index as usize;
            let end = start + node.transition_count as usize;
            slice_subrange(self.transitions.as_slice(), start, end)
        } else {
            slice_subrange(self.transitions.as_slice(), 0, 0)
        }
    }

    /// The position of `node` in millionths of a degree.
    pub fn node_latlon(&self, node: &NodeInfo) -> (r: crate::records::LatLon)
        ensures
            r.0 == node.lat_stored - crate::records::LAT_OFFSET_MICRO,
            r.1 == node.lon_stored - crate::records::LON_OFFSET_MICRO,
    {
        node.latlon()
    }

    /// The administrative record at `index`, or `None` past the end.
    /// Indices are stored in the nodes' `admin_index` fields.
    pub fn admin_info(&self, index: u32) -> (r: Option<&AdminInfo>)
        ensures
            index < self.spec_admins().len() ==> r is Some && *r->0 == self.spec_admins()[index as int],
            index >= self.spec_admins().len() ==> r is None,
    {
        if (index as usize) < self.admins.len() {
            Some(&self.admins[index as usize])
        } else {
            None
        }
    }

    /// The variable-length record of `de`: its way identifier, speed limit
    /// and shape. An offset that does not name a record of this tile — an
    /// edge of another tile — fails with `WrongTile`.
    pub fn edgeinfo(&self, de: &DirectedEdge) -> (r: Result<EdgeInfo, Error>)
        ensures
            edgeinfo_ok(self.spec_edgeinfo_bytes(), de.edgeinfo_offset as int) ==> {
                &&& r is Ok
                &&& r->Ok_0.way_id == spec_edgeinfo_way_id(
                    self.spec_edgeinfo_bytes(),
                    de.edgeinfo_offset as int,
                )
                &&& r->Ok_0.speed_limit == spec_edgeinfo_speed_limit(
                    self.spec_edgeinfo_bytes(),
                    de.edgeinfo_offset as int,
                )
                &&& ascii_str_matches(
                    r->Ok_0.shape@,
                    self.spec_edgeinfo_bytes(),
                    de.edgeinfo_offset + 11,
                    spec_edgeinfo_shape_len(
                        self.spec_edgeinfo_bytes(),
                        de.edgeinfo_offset as int,
                    ) as int,
                )
            },
            !edgeinfo_ok(self.spec_edgeinfo_bytes(), de.edgeinfo_offset as int) ==> r
                == Result::<EdgeInfo, Error>::Err(Error::WrongTile),
    {
        if !check_edgeinfo(&self.edgeinfo, de.edgeinfo_offset) {
            return Err(Error::WrongTile);
        }
        let elen: usize = self.edgeinfo.len();
        let off = de.edgeinfo_offset as usize;
        let way_id = read_u64_le(self.edgeinfo.as_slice(), off);
        let speed_limit = self.edgeinfo[off + 8];
        let shape_len = read_u16_le(self.edgeinfo.as_slice(), off + 9) as usize;
        let shape_bytes = copy_range(&self.edgeinfo, off + 11, shape_len);
        proof {
            assert forall|i: int| 0 <= i < shape_bytes@.len() implies shape_bytes@[i]
                < 128 by {
                assert(shape_bytes@[i] == self.edgeinfo@[off + 11 + i]);
            }
        }
        let shape = ascii_to_string(&shape_bytes);
        proof {
            assert forall|i: int|
                0 <= i < shape_len implies ((#[trigger] shape@[i] as u8) == self.edgeinfo@[off + 11
                + i] && (shape@[i] as u32) < 128) by {
                assert(shape_bytes@[i] == self.edgeinfo@[off + 11 + i]);
            }
        }
        Ok(EdgeInfo { way_id, speed_limit, shape })
    }

    /// The live speed of the edge at `edge_index` under `traffic`:
    /// nothing when the record is unknown or no overlay covers the edge,
    /// zero when the edge is closed, the even reading otherwise.
    pub fn live_speed(&self, edge_index: u32, traffic: Option<&TrafficTile>) -> (r: Option<u32>)
        ensures
            r == record_live_speed(spec_overlay_record(traffic, edge_index as int)),
    {
        match traffic {
            None => None,
            Some(t) => match t.edge_traffic(edge_index) {
                None => None,
                Some(lt) => lt.live_speed(),
            },
        }
    }

    /// Whether the edge at `edge_index` is closed under `traffic`: a
    /// known record with a zero overall speed and breakpoint one at 255.
    pub fn edge_closed(&self, edge_index: u32, traffic: Option<&TrafficTile>) -> (r: bool)
        ensures
            r == record_closed(spec_overlay_record(traffic, edge_index as int)),
    {
        proof {
            assert(breakpoint1_part(0u64) == 0) by (bit_vector);
        }
        match traffic {
            None => false,
            Some(t) => match t.edge_traffic(edge_index) {
                None => false,
                Some(lt) => lt.is_closed(),
            },
        }
    }

    /// The resolved speed of the edge at `edge_index` and the sources
    /// that contributed, as the speed resolver defines them. Never zero.
    pub fn edge_speed(
        &self,
        edge_index: u32,
        traffic: Option<&TrafficTile>,
        sources: SpeedSources,
        is_truck: bool,
        second_of_week: u64,
        seconds_from_now: u64,
    ) -> (r: (u32, SpeedSources))
        requires
            self.wf(),
            edge_index < self.spec_edges().len(),
        ensures
            (r.0, r.1.0) == spec_edge_speed(
                self.spec_edges()[edge_index as int],
                self.spec_predicted_bytes(),
                spec_overlay_lookup(traffic, edge_index as int),
                sources.0,
                is_truck,
                second_of_week,
                seconds_from_now,
            ),
            r.0 >= 1,
            r.1.0 & sources.0 == r.1.0,
    {
        let e = &self.edges[edge_index as usize];
        let rec: Option<u64> = match traffic {
            None => None,
            Some(t) => match t.edge_traffic(edge_index) {
                None => None,
                Some(lt) => Some(lt.to_bits()),
            },
        };
        resolve_speed(
            e,
            &self.predicted,
            rec,
            sources,
            is_truck,
            second_of_week,
            seconds_from_now,
        )
    }
}

/// Whether a valid edge-information record starts at `off` in `ei`.
pub fn check_edgeinfo(ei: &Vec<u8>, off: u32) -> (r: bool)
    ensures
        r == edgeinfo_ok(ei@, off as int),
{
    let len = ei.len();
    if off as u64 + 11 > len as u64 {
        return false;
    }
    let offu = off as usize;
    let shape_len = read_u16_le(ei.as_slice(), offu + 9) as usize;
    if (offu + 11) as u64 + shape_len as u64 > len as u64 {
        return false;
    }
    let mut j: usize = 0;
    while j < shape_len
        invariant
            len == ei@.len(),
            offu as int == off as int,
            offu + 11 + shape_len <= ei@.len(),
            shape_len == spec_edgeinfo_shape_len(ei@, off as int),
            j <= shape_len,
            forall|i: int| offu + 11 <= i < offu + 11 + j ==> #[trigger] ei@[i] < 128,
        decreases shape_len - j,
    {
        if ei[offu + 11 + j] >= 128 {
            proof {
                assert(offu + 11 <= offu + 11 + j < offu + 11 + spec_edgeinfo_shape_len(
                    ei@,
                    off as int,
                ));
                assert(!(ei@[offu + 11 + j] < 128));
                assert(!edgeinfo_ok(ei@, off as int));
            }
            return false;
        }
        j = j + 1;
    }
    true
}


/// Number of node records the header declares.
pub open spec fn spec_hdr_nodes(s: Seq<u8>) -> u32 {
    spec_u32_from_le_bytes(s.subrange(16, 20))
}

/// Number of directed-edge records the header declares.
pub open spec fn spec_hdr_edges(s: Seq<u8>) -> u32 {
    spec_u32_from_le_bytes(s.subrange(20, 24))
}

/// Number of transition records the header declares.
pub open spec fn spec_hdr_transitions(s: Seq<u8>) -> u32 {
    spec_u32_from_le_bytes(s.subrange(24, 28))
}

/// Number of administrative records the header declares.
pub open spec fn spec_hdr_admins(s: Seq<u8>) -> u32 {
    spec_u32_from_le_bytes(s.subrange(28, 32))
}

/// Byte size of the edge-information blob the header declares.
pub open spec fn spec_hdr_edgeinfo(s: Seq<u8>) -> u32 {
    spec_u32_from_le_bytes(s.subrange(32, 36))
}

/// Byte size of the predicted-speed blob the header declares.
pub open spec fn spec_hdr_predicted(s: Seq<u8>) -> u32 {
    spec_u32_from_le_bytes(s.subrange(36, 40))
}

/// Byte offset of the edge records.
pub open spec fn spec_edges_off(s: Seq<u8>) -> int {
    48 + 32 * spec_hdr_nodes(s)
}

/// Byte offset of the transition records.
pub open spec fn spec_trans_off(s: Seq<u8>) -> int {
    spec_edges_off(s) + 48 * spec_hdr_edges(s)
}

/// Byte offset of the administrative records.
pub open spec fn spec_admins_off(s: Seq<u8>) -> int {
    spec_trans_off(s) + 8 * spec_hdr_transitions(s)
}

/// Byte offset of the edge-information blob.
pub open spec fn spec_edgeinfo_off(s: Seq<u8>) -> int {
    spec_admins_off(s) + 64 * spec_hdr_admins(s)
}

/// Byte offset of the predicted-speed blob.
pub open spec fn spec_predicted_off(s: Seq<u8>) -> int {
    spec_edgeinfo_off(s) + spec_hdr_edgeinfo(s)
}

/// Total byte size the header accounts for; a valid blob has exactly
/// this length.
pub open spec fn spec_tile_total(s: Seq<u8>) -> int {
    spec_predicted_off(s) + spec_hdr_predicted(s)
}

/// The node records a blob holds.
pub open spec fn spec_nodes_of(s: Seq<u8>) -> Seq<NodeInfo> {
    Seq::new(spec_hdr_nodes(s) as nat, |j: int| spec_node_at(s, 48 + 32 * j))
}

/// The directed-edge records a blob holds.
pub open spec fn spec_edges_of(s: Seq<u8>) -> Seq<DirectedEdge> {
    Seq::new(spec_hdr_edges(s) as nat, |j: int| spec_edge_at(s, spec_edges_off(s) + 48 * j))
}

/// The transition records a blob holds.
pub open spec fn spec_transitions_of(s: Seq<u8>) -> Seq<NodeTransition> {
    Seq::new(
        spec_hdr_transitions(s) as nat,
        |j: int| spec_transition_at(s, spec_trans_off(s) + 8 * j),
    )
}

/// The edge-information blob.
pub open spec fn spec_edgeinfo_of(s: Seq<u8>) -> Seq<u8> {
    s.subrange(spec_edgeinfo_off(s), spec_edgeinfo_off(s) + spec_hdr_edgeinfo(s))
}

/// The predicted-speed blob.
pub open spec fn spec_predicted_of(s: Seq<u8>) -> Seq<u8> {
    s.subrange(spec_predicted_off(s), spec_predicted_off(s) + spec_hdr_predicted(s))
}

/// Whether a valid administrative record fills the 64-byte slot at
/// `off`: each stored length fits its field, and the used bytes are
/// ASCII.
pub open spec fn admin_slot_ok(s: Seq<u8>, off: int) -> bool {
    &&& 0 <= off && off + 64 <= s.len()
    &&& s[off] <= 24 && s[off + 1] <= 24 && s[off + 2] <= 6 && s[off + 3] <= 6
    &&& forall|i: int| off + 4 <= i < off + 4 + s[off] ==> #[trigger] s[i] < 128
    &&& forall|i: int| off + 28 <= i < off + 28 + s[off + 1] ==> #[trigger] s[i] < 128
    &&& forall|i: int| off + 52 <= i < off + 52 + s[off + 2] ==> #[trigger] s[i] < 128
    &&& forall|i: int| off + 58 <= i < off + 58 + s[off + 3] ==> #[trigger] s[i] < 128
}

/// Whether the texts of `a` are the ones the slot at `off` stores.
pub open spec fn admin_matches(a: AdminInfo, s: Seq<u8>, off: int) -> bool {
    &&& ascii_str_matches(a.country_text@, s, off + 4, s[off] as int)
    &&& ascii_str_matches(a.state_text@, s, off + 28, s[off + 1] as int)
    &&& ascii_str_matches(a.country_iso@, s, off + 52, s[off + 2] as int)
    &&& ascii_str_matches(a.state_iso@, s, off + 58, s[off + 3] as int)
}

/// Whether a blob is a valid tile: the header sizes account for exactly
/// the blob, the tile identifier is a clean tile base on a real level,
/// and every record satisfies the structural invariants.
pub open spec fn spec_tile_decodes(s: Seq<u8>) -> bool {
    let w = spec_u64_from_le_bytes(s.subrange(8, 16));
    let id = masked_id(w);
    let nodes = spec_nodes_of(s);
    let edges = spec_edges_of(s);
    let trans = spec_transitions_of(s);
    let ei = spec_edgeinfo_of(s);
    &&& s.len() >= 48
    &&& spec_tile_total(s) == s.len()
    &&& payload_part(w) == w
    &&& id.spec_id() == 0
    &&& id.spec_level() < 3
    &&& spec_hdr_nodes(s) <= 0x1fffff
    &&& spec_hdr_edges(s) <= 0x1fffff
    &&& spec_hdr_admins(s) <= 0xffff
    &&& forall|i: int|
        0 <= i < nodes.len() ==> node_ok(
            #[trigger] nodes[i],
            edges.len() as int,
            trans.len() as int,
            spec_hdr_admins(s) as int,
        )
    &&& forall|k: int|
        0 <= k < edges.len() ==> edge_ok(
            #[trigger] edges[k],
            id,
            nodes.len() as int,
            ei,
            spec_hdr_predicted(s) as int,
        )
    &&& forall|i: int| 0 <= i < trans.len() ==> transition_ok(#[trigger] trans[i], id)
    &&& forall|j: int|
        0 <= j < spec_hdr_admins(s) ==> #[trigger] admin_slot_ok(s, spec_admins_off(s) + 64 * j)
    &&& forall|p: int, k: int|
        0 <= p < nodes.len() && 0 <= k < edges.len() && #[trigger] owns_edge(nodes, p, k)
            && !edges[k].is_shortcut && !edges[k].leaves_tile ==> opposing_ok(nodes, edges, p, k)
}

/// Whether every byte in `[lo, lo + n)` is ASCII.
pub fn check_ascii_range(b: &Vec<u8>, lo: usize, n: usize) -> (r: bool)
    requires
        lo + n <= b@.len(),
    ensures
        r == forall|i: int| lo <= i < lo + n ==> #[trigger] b@[i] < 128,
{
    let blen: usize = b.len();
    let mut j: usize = 0;
    while j < n
        invariant
            lo + n <= b@.len(),
            blen == b@.len(),
            j <= n,
            forall|i: int| lo <= i < lo + j ==> #[trigger] b@[i] < 128,
        decreases n - j,
    {
        if b[lo + j] >= 128 {
            return false;
        }
        j = j + 1;
    }
    true
}

/// Whether a valid administrative record fills the slot at `off`.
pub fn check_admin_slot(b: &Vec<u8>, off: usize) -> (r: bool)
    requires
        off + 64 <= b@.len(),
    ensures
        r == admin_slot_ok(b@, off as int),
{
    let blen: usize = b.len();
    let clen = b[off];
    let slen = b[off + 1];
    let cilen = b[off + 2];
    let silen = b[off + 3];
    if clen > 24 || slen > 24 || cilen > 6 || silen > 6 {
        return false;
    }
    check_ascii_range(b, off + 4, clen as usize) && check_ascii_range(b, off + 28, slen as usize)
        && check_ascii_range(b, off + 52, cilen as usize) && check_ascii_range(
        b,
        off + 58,
        silen as usize,
    )
}

/// Reads the ASCII text of `n` bytes at `lo` as a string.
pub fn read_ascii_field(b: &Vec<u8>, lo: usize, n: usize) -> (r: String)
    requires
        lo + n <= b@.len(),
        forall|i: int| lo <= i < lo + n ==> #[trigger] b@[i] < 128,
    ensures
        ascii_str_matches(r@, b@, lo as int, n as int),
{
    let bytes = copy_range(b, lo, n);
    proof {
        assert forall|i: int| 0 <= i < bytes@.len() implies bytes@[i] < 128 by {
            assert(bytes@[i] == b@[lo + i]);
        }
    }
    let r = ascii_to_string(&bytes);
    proof {
        assert forall|i: int|
            0 <= i < n implies ((#[trigger] r@[i] as u8) == b@[lo + i] && (r@[i] as u32)
            < 128) by {
            assert(bytes@[i] == b@[lo + i]);
        }
    }
    r
}

/// Reads the administrative record in the slot at `off`.
pub fn decode_admin(b: &Vec<u8>, off: usize) -> (r: AdminInfo)
    requires
        admin_slot_ok(b@, off as int),
    ensures
        admin_matches(r, b@, off as int),
{
    let blen: usize = b.len();
    let country = read_ascii_field(b, off + 4, b[off] as usize);
    let state = read_ascii_field(b, off + 28, b[off + 1] as usize);
    let ciso = read_ascii_field(b, off + 52, b[off + 2] as usize);
    let siso = read_ascii_field(b, off + 58, b[off + 3] as usize);
    AdminInfo { country_text: country, state_text: state, country_iso: ciso, state_iso: siso }
}

/// Whether every node's ranges lie within the tile's arrays.
pub fn check_nodes(nodes: &Vec<NodeInfo>, edges_len: usize, trans_len: usize, admins_len: usize) -> (r:
    bool)
    ensures
        r == forall|i: int|
            0 <= i < nodes@.len() ==> node_ok(
                #[trigger] nodes@[i],
                edges_len as int,
                trans_len as int,
                admins_len as int,
            ),
{
    let n = nodes.len();
    let mut i: usize = 0;
    while i < n
        invariant
            n == nodes@.len(),
            i <= n,
            forall|j: int|
                0 <= j < i ==> node_ok(
                    #[trigger] nodes@[j],
                    edges_len as int,
                    trans_len as int,
                    admins_len as int,
                ),
        decreases n - i,
    {
        let nd = nodes[i];
        let ok = nd.edge_index as u64 + nd.edge_count as u64 <= edges_len as u64
            && nd.transition_index as u64 + nd.transition_count as u64 <= trans_len as u64 && (
        nd.admin_index as u64) < admins_len as u64 && nd.density <= 15;
        if !ok {
            return false;
        }
        i = i + 1;
    }
    true
}

/// Whether every edge's stored fields are consistent with the tile.
pub fn check_edges(
    edges: &Vec<DirectedEdge>,
    id: GraphId,
    nodes_len: usize,
    ei: &Vec<u8>,
    pred_len: usize,
) -> (r: bool)
    ensures
        r == forall|k: int|
            0 <= k < edges@.len() ==> edge_ok(
                #[trigger] edges@[k],
                id,
                nodes_len as int,
                ei@,
                pred_len as int,
            ),
{
    let n = edges.len();
    let mut k: usize = 0;
    while k < n
        invariant
            n == edges@.len(),
            k <= n,
            forall|j: int|
                0 <= j < k ==> edge_ok(
                    #[trigger] edges@[j],
                    id,
                    nodes_len as int,
                    ei@,
                    pred_len as int,
                ),
        decreases n - k,
    {
        let e = edges[k];
        let v = e.endnode.value;
        if v & 0x3fff_ffff_ffff != v {
            return false;
        }
        if e.leaves_tile != ((v & 0x1ffffff) != (id.value & 0x1ffffff)) {
            return false;
        }
        if !e.leaves_tile && e.endnode.id() as u64 >= nodes_len as u64 {
            return false;
        }
        if e.speed < 1 {
            return false;
        }
        if e.has_predicted && e.predicted_offset as u64 + 2016 > pred_len as u64 {
            return false;
        }
        if !check_edgeinfo(ei, e.edgeinfo_offset) {
            return false;
        }
        let eilen: usize = ei.len();
        let way_id = read_u64_le(ei.as_slice(), e.edgeinfo_offset as usize);
        if e.is_shortcut != (way_id == 0) {
            return false;
        }
        k = k + 1;
    }
    true
}

/// Whether every transition's stored fields are consistent with the tile.
pub fn check_transitions(trans: &Vec<NodeTransition>, id: GraphId) -> (r: bool)
    ensures
        r == forall|i: int|
            0 <= i < trans@.len() ==> transition_ok(#[trigger] trans@[i], id),
{
    let n = trans.len();
    let mut i: usize = 0;
    while i < n
        invariant
            n == trans@.len(),
            i <= n,
            forall|j: int| 0 <= j < i ==> transition_ok(#[trigger] trans@[j], id),
        decreases n - i,
    {
        let t = trans[i];
        let v = t.endnode.value;
        if v & 0x3fff_ffff_ffff != v {
            return false;
        }
        if (v & 0x1ffffff) == (id.value & 0x1ffffff) {
            return false;
        }
        if t.endnode.level() == id.level() {
            return false;
        }
        if t.upward != (t.endnode.level() < id.level()) {
            return false;
        }
        i = i + 1;
    }
    true
}

/// Whether the opposing-edge relation holds for every in-tile,
/// non-shortcut edge of every node.
pub fn check_opposing(nodes: &Vec<NodeInfo>, edges: &Vec<DirectedEdge>) -> (r: bool)
    requires
        forall|i: int|
            0 <= i < nodes@.len() ==> (#[trigger] nodes@[i]).edge_index + nodes@[i].edge_count
                <= edges@.len(),
        forall|k: int|
            0 <= k < edges@.len() && !(#[trigger] edges@[k]).leaves_tile ==> edges@[k].endnode.spec_id() < nodes@.len(),
    ensures
        r == forall|p: int, k: int|
            0 <= p < nodes@.len() && 0 <= k < edges@.len() && #[trigger] owns_edge(
                nodes@,
                p,
                k,
            ) && !edges@[k].is_shortcut && !edges@[k].leaves_tile ==> opposing_ok(
                nodes@,
                edges@,
                p,
                k,
            ),
{
    let np = nodes.len();
    let ne = edges.len();
    let mut p: usize = 0;
    while p < np
        invariant
            np == nodes@.len(),
            ne == edges@.len(),
            p <= np,
            forall|i: int|
                0 <= i < nodes@.len() ==> (#[trigger] nodes@[i]).edge_index + nodes@[i].edge_count <= edges@.len(),
            forall|k: int|
                0 <= k < edges@.len() && !(#[trigger] edges@[k]).leaves_tile ==> edges@[k].endnode.spec_id() < nodes@.len(),
            forall|p2: int, k: int|
                0 <= p2 < p && 0 <= k < edges@.len() && #[trigger] owns_edge(nodes@, p2, k)
                    && !edges@[k].is_shortcut && !edges@[k].leaves_tile ==> opposing_ok(
                    nodes@,
                    edges@,
                    p2,
                    k,
                ),
        decreases np - p,
    {
        let nd = nodes[p];
        let kend: usize = nd.edge_index as usize + nd.edge_count as usize;
        let mut k: usize = nd.edge_index as usize;
        while k < kend
            invariant
                np == nodes@.len(),
                ne == edges@.len(),
                p < np,
                nd == nodes@[p as int],
                nd.edge_index <= k,
                kend == nd.edge_index + nd.edge_count,
                kend <= ne,
                forall|i: int|
                    0 <= i < nodes@.len() ==> (#[trigger] nodes@[i]).edge_index + nodes@[i].edge_count <= edges@.len(),
                forall|k2: int|
                    0 <= k2 < edges@.len() && !(#[trigger] edges@[k2]).leaves_tile ==> edges@[k2].endnode.spec_id() < nodes@.len(),
                forall|p2: int, k2: int|
                    0 <= p2 < p && 0 <= k2 < edges@.len() && #[trigger] owns_edge(
                        nodes@,
                        p2,
                        k2,
                    ) && !edges@[k2].is_shortcut && !edges@[k2].leaves_tile ==> opposing_ok(
                        nodes@,
                        edges@,
                        p2,
                        k2,
                    ),
                forall|k2: int|
                    nd.edge_index <= k2 < k && !edges@[k2].is_shortcut && !edges@[k2].leaves_tile ==> opposing_ok(nodes@, edges@, p as int, k2),
            decreases kend - k,
        {
            let e = edges[k];
            if !e.is_shortcut && !e.leaves_tile {
                proof {
                    assert(owns_edge(nodes@, p as int, k as int));
                }
                let n1i = e.endnode.id() as usize;
                let n1 = nodes[n1i];
                if e.opp_index >= n1.edge_count {
                    return false;
                }
                let j: usize = n1.edge_index as usize + e.opp_index as usize;
                let o = edges[j];
                if o.endnode.id() as usize != p {
                    return false;
                }
                if k as u64 != nd.edge_index as u64 + o.opp_index as u64 {
                    return false;
                }
                if o.edgeinfo_offset != e.edgeinfo_offset {
                    return false;
                }
            }
            k = k + 1;
        }
        proof {
            assert forall|k2: int|
                0 <= k2 < edges@.len() && owns_edge(nodes@, p as int, k2) && !edges@[k2].is_shortcut && !edges@[k2].leaves_tile implies opposing_ok(
                nodes@,
                edges@,
                p as int,
                k2,
            ) by {}
        }
        p = p + 1;
    }
    true
}


impl GraphTile {
    /// Decodes one tile blob. Succeeds exactly on the blobs whose header
    /// accounts for the whole buffer and whose records satisfy the
    /// structural invariants of the format.
    pub fn from_bytes(b: &Vec<u8>) -> (r: Result<GraphTile, Error>)
        ensures
            r is Ok <==> spec_tile_decodes(b@),
            r is Ok ==> {
                &&& r->Ok_0.wf()
                &&& r->Ok_0.spec_dataset_id() == spec_u64_from_le_bytes(b@.subrange(0, 8))
                &&& r->Ok_0.spec_id() == masked_id(spec_u64_from_le_bytes(b@.subrange(8, 16)))
                &&& r->Ok_0.spec_nodes() == spec_nodes_of(b@)
                &&& r->Ok_0.spec_edges() == spec_edges_of(b@)
                &&& r->Ok_0.spec_transitions() == spec_transitions_of(b@)
                &&& r->Ok_0.spec_edgeinfo_bytes() == spec_edgeinfo_of(b@)
                &&& r->Ok_0.spec_predicted_bytes() == spec_predicted_of(b@)
                &&& r->Ok_0.spec_admins().len() == spec_hdr_admins(b@)
                &&& forall|j: int|
                    0 <= j < spec_hdr_admins(b@) ==> admin_matches(
                        #[trigger] r->Ok_0.spec_admins()[j],
                        b@,
                        spec_admins_off(b@) + 64 * j,
                    )
            },
    {
        let len: usize = b.len();
        if len < 48 {
            return Err(Error::ArchiveError);
        }
        let dataset_id = read_u64_le(b.as_slice(), 0);
        let w = read_u64_le(b.as_slice(), 8);
        let id = GraphId::new(w);
        if w & 0x3fff_ffff_ffff != w {
            return Err(Error::ArchiveError);
        }
        if id.id() != 0 || id.level() >= 3 {
            return Err(Error::ArchiveError);
        }
        let nc = read_u32_le(b.as_slice(), 16);
        let ec = read_u32_le(b.as_slice(), 20);
        let tc = read_u32_le(b.as_slice(), 24);
        let ac = read_u32_le(b.as_slice(), 28);
        let eisz = read_u32_le(b.as_slice(), 32);
        let psz = read_u32_le(b.as_slice(), 36);
        if nc > 0x1fffff || ec > 0x1fffff || ac > 0xffff {
            return Err(Error::ArchiveError);
        }
        let eo64: u64 = 48u64 + nc as u64 * 32;
        let to64: u64 = eo64 + ec as u64 * 48;
        let ao64: u64 = to64 + tc as u64 * 8;
        let io64: u64 = ao64 + ac as u64 * 64;
        let po64: u64 = io64 + eisz as u64;
        let total: u64 = po64 + psz as u64;
        if total != len as u64 {
            return Err(Error::ArchiveError);
        }
        let eo = eo64 as usize;
        let to = to64 as usize;
        let ao = ao64 as usize;
        let io = io64 as usize;
        let po = po64 as usize;

        let mut nodes: Vec<NodeInfo> = Vec::new();
        let mut off: usize = 48;
        let mut i: u32 = 0;
        while i < nc
            invariant
                len == b@.len(),
                i <= nc,
                off == 48 + 32 * i,
                eo == 48 + 32 * (nc as int),
                eo <= len,
                nodes@.len() == i,
                forall|j: int| 0 <= j < i ==> nodes@[j] == spec_node_at(b@, 48 + 32 * j),
            decreases nc - i,
        {
            nodes.push(decode_node(b, off));
            off = off + 32;
            i = i + 1;
        }

        let mut edges: Vec<DirectedEdge> = Vec::new();
        let mut off: usize = eo;
        let mut i: u32 = 0;
        while i < ec
            invariant
                len == b@.len(),
                i <= ec,
                off == eo + 48 * i,
                to == eo + 48 * (ec as int),
                to <= len,
                edges@.len() == i,
                forall|j: int|
                    0 <= j < i ==> edges@[j] == spec_edge_at(b@, eo + 48 * j),
            decreases ec - i,
        {
            edges.push(decode_edge(b, off));
            off = off + 48;
            i = i + 1;
        }

        let mut transitions: Vec<NodeTransition> = Vec::new();
        let mut off: usize = to;
        let mut i: u32 = 0;
        while i < tc
            invariant
                len == b@.len(),
                i <= tc,
                off == to + 8 * i,
                ao == to + 8 * (tc as int),
                ao <= len,
                transitions@.len() == i,
                forall|j: int|
                    0 <= j < i ==> transitions@[j] == spec_transition_at(b@, to + 8 * j),
            decreases tc - i,
        {
            transitions.push(decode_transition(b, off));
            off = off + 8;
            i = i + 1;
        }

        let mut admins: Vec<AdminInfo> = Vec::new();
        let mut off: usize = ao;
        let mut i: u32 = 0;
        while i < ac
            invariant
                len == b@.len(),
                i <= ac,
                off == ao + 64 * i,
                io == ao + 64 * (ac as int),
                io <= len,
                ao == spec_admins_off(b@),
                ac == spec_hdr_admins(b@),
                admins@.len() == i,
                forall|j: int| 0 <= j < i ==> #[trigger] admin_slot_ok(b@, ao + 64 * j),
                forall|j: int|
                    0 <= j < i ==> admin_matches(#[trigger] admins@[j], b@, ao + 64 * j),
            decreases ac - i,
        {
            if !check_admin_slot(b, off) {
                return Err(Error::ArchiveError);
            }
            admins.push(decode_admin(b, off));
            off = off + 64;
            i = i + 1;
        }

        let edgeinfo = copy_range(b, io, eisz as usize);
        let predicted = copy_range(b, po, psz as usize);

        proof {
            assert(nodes@ =~= spec_nodes_of(b@));
            assert(edges@ =~= spec_edges_of(b@));
            assert(transitions@ =~= spec_transitions_of(b@));
            assert(edgeinfo@ == spec_edgeinfo_of(b@));
            assert(predicted@ == spec_predicted_of(b@));
        }

        if !check_nodes(&nodes, edges.len(), transitions.len(), admins.len()) {
            return Err(Error::ArchiveError);
        }
        if !check_edges(&edges, id, nodes.len(), &edgeinfo, predicted.len()) {
            return Err(Error::ArchiveError);
        }
        if !check_transitions(&transitions, id) {
            return Err(Error::ArchiveError);
        }
        proof {
            assert forall|j: int|
                0 <= j < nodes@.len() implies (#[trigger] nodes@[j]).edge_index + nodes@[j].edge_count <= edges@.len() by {
                assert(node_ok(
                    nodes@[j],
                    edges@.len() as int,
                    transitions@.len() as int,
                    admins@.len() as int,
                ));
            }
            assert forall|k: int|
                0 <= k < edges@.len() && !(#[trigger] edges@[k]).leaves_tile implies edges@[k].endnode.spec_id() < nodes@.len() by {
                assert(edge_ok(
                    edges@[k],
                    id,
                    nodes@.len() as int,
                    edgeinfo@,
                    predicted@.len() as int,
                ));
            }
        }
        if !check_opposing(&nodes, &edges) {
            return Err(Error::ArchiveError);
        }

        let tile = GraphTile { dataset_id, id, nodes, edges, transitions, admins, edgeinfo, predicted };
        proof {
            assert(tile.wf());
            assert(spec_tile_decodes(b@));
        }
        Ok(tile)
    }
}


/// Forward-star law: a well-formed tile's own node always names a run
/// that lies within the tile's edge array, so `node_edges` returns a
/// slice of exactly `edge_count` edges starting at `edge_index`, and
/// likewise for its transitions.
pub proof fn lemma_forward_star(t: GraphTile, p: int)
    requires
        t.wf(),
        0 <= p < t.spec_nodes().len(),
    ensures
        t.spec_nodes()[p].edge_index + t.spec_nodes()[p].edge_count <= t.spec_edges().len(),
        t.spec_nodes()[p].transition_index + t.spec_nodes()[p].transition_count
            <= t.spec_transitions().len(),
{
}

/// Opposing-edge law: in a well-formed tile, every non-shortcut edge `k`
/// of node `p` that stays in the tile is mirrored at its end node: the
/// edge at the end node's `edge_index` plus the stored opposing index
/// comes back to `p`, its own opposing index leads back to `k`, and the
/// two directions share one edge-information record, so their way
/// identifiers are equal.
pub proof fn lemma_opposing_edge(t: GraphTile, p: int, k: int)
    requires
        t.wf(),
        0 <= p < t.spec_nodes().len(),
        0 <= k < t.spec_edges().len(),
        owns_edge(t.spec_nodes(), p, k),
        !t.spec_edges()[k].is_shortcut,
        !t.spec_edges()[k].leaves_tile,
    ensures
        opposing_ok(t.spec_nodes(), t.spec_edges(), p, k),
        spec_edgeinfo_way_id(
            t.spec_edgeinfo_bytes(),
            t.spec_edges()[t.spec_nodes()[t.spec_edges()[k].endnode.spec_id() as int].edge_index
                + t.spec_edges()[k].opp_index].edgeinfo_offset as int,
        ) == spec_edgeinfo_way_id(
            t.spec_edgeinfo_bytes(),
            t.spec_edges()[k].edgeinfo_offset as int,
        ),
{
}

/// Transition law: in a well-formed tile, every transition leads to a
/// node in a different tile on a different level, and its upward flag
/// holds exactly when that level is coarser.
pub proof fn lemma_transition_direction(t: GraphTile, i: int)
    requires
        t.wf(),
        0 <= i < t.spec_transitions().len(),
    ensures
        t.spec_transitions()[i].upward == (t.spec_transitions()[i].endnode.spec_level()
            < t.spec_id().spec_level()),
        base_part(t.spec_transitions()[i].endnode.bits()) != base_part(t.spec_id().bits()),
{
}

/// Cross-tile law: in a well-formed tile, an edge's cross-tile flag holds
/// exactly when its end node's tile base differs from the tile's own.
pub proof fn lemma_leaves_tile(t: GraphTile, k: int)
    requires
        t.wf(),
        0 <= k < t.spec_edges().len(),
    ensures
        t.spec_edges()[k].leaves_tile == (base_part(t.spec_edges()[k].endnode.bits())
            != base_part(t.spec_id().bits())),
{
}

} // verus!
