//! Per-mode accessibility predicates.
//!
//! A costing model is built from a travel mode and optional exclusions. It
//! answers two pure questions: may this mode traverse a directed edge along
//! its direction, and may it pass through a node. Turn restrictions, closures
//! and lane attributes are outside its scope.
use vstd::prelude::*;

use crate::access;
use crate::records::{DirectedEdge, NodeInfo, USE_FERRY, USE_RAIL_FERRY};
use crate::Error;

verus! {

/// The travel mode a costing model evaluates.
#[derive(Clone, Copy, PartialEq, Eq, Structural, Debug)]
pub enum CostingType {
    Auto,
    Bicycle,
    Pedestrian,
    Truck,
    Bus,
    Taxi,
    Moped,
    Motorcycle,
}

/// The access bit a travel mode must find set.
pub open spec fn spec_mode_mask(t: CostingType) -> u16 {
    match t {
        CostingType::Auto => 1,
        CostingType::Bicycle => 4,
        CostingType::Pedestrian => 2,
        CostingType::Truck => 8,
        CostingType::Bus => 64,
        CostingType::Taxi => 32,
        CostingType::Moped => 512,
        CostingType::Motorcycle => 1024,
    }
}

/// A typed cost specification: a travel mode with optional exclusions.
#[derive(Clone, Copy, PartialEq, Eq, Structural, Debug)]
pub struct CostingOptions {
    /// The travel mode.
    pub costing_type: CostingType,
    /// Reject edges that are part of a toll road.
    pub exclude_tolls: bool,
    /// Reject ferry and rail-ferry edges.
    pub exclude_ferries: bool,
}

/// Whether the edge's use code names a ferry of either kind.
pub open spec fn spec_is_ferry(e: DirectedEdge) -> bool {
    e.use_type == USE_FERRY || e.use_type == USE_RAIL_FERRY
}

/// Whether a model traverses an edge along its direction: the mode bit is
/// set in the forward access mask and no exclusion fires.
pub open spec fn spec_edge_accessible(m: CostingModel, e: DirectedEdge) -> bool {
    &&& e.forward_access & m.spec_mask() != 0
    &&& !(m.spec_exclude_tolls() && e.toll)
    &&& !(m.spec_exclude_ferries() && spec_is_ferry(e))
}

/// Whether a model passes through a node: the mode bit is set in the
/// node's access mask.
pub open spec fn spec_node_accessible(m: CostingModel, n: NodeInfo) -> bool {
    n.access_mask & m.spec_mask() != 0
}

/// A costing model: the pair of accessibility predicates for one travel
/// mode and its exclusions.
#[derive(Clone, Copy, PartialEq, Eq, Structural, Debug)]
pub struct CostingModel {
    mask: u16,
    exclude_tolls: bool,
    exclude_ferries: bool,
}

impl CostingModel {
    /// The access bit this model requires.
    pub closed spec fn spec_mask(self) -> u16 {
        self.mask
    }

    /// Whether this model rejects toll edges.
    pub closed spec fn spec_exclude_tolls(self) -> bool {
        self.exclude_tolls
    }

    /// Whether this model rejects ferry edges.
    pub closed spec fn spec_exclude_ferries(self) -> bool {
        self.exclude_ferries
    }

    /// A model for the given travel mode with no exclusions.
    pub fn new(costing_type: CostingType) -> (r: Result<CostingModel, Error>)
        ensures
            r is Ok,
            r->Ok_0.spec_mask() == spec_mode_mask(costing_type),
            !r->Ok_0.spec_exclude_tolls(),
            !r->Ok_0.spec_exclude_ferries(),
    {
        Self::with_options(
            &CostingOptions { costing_type, exclude_tolls: false, exclude_ferries: false },
        )
    }

    /// A model for the given cost specification.
    pub fn with_options(costing: &CostingOptions) -> (r: Result<CostingModel, Error>)
        ensures
            r is Ok,
            r->Ok_0.spec_mask() == spec_mode_mask(costing.costing_type),
            r->Ok_0.spec_exclude_tolls() == costing.exclude_tolls,
            r->Ok_0.spec_exclude_ferries() == costing.exclude_ferries,
    {
        let mask: u16 = match costing.costing_type {
            CostingType::Auto => access::AUTO,
            CostingType::Bicycle => access::BICYCLE,
            CostingType::Pedestrian => access::PEDESTRIAN,
            CostingType::Truck => access::TRUCK,
            CostingType::Bus => access::BUS,
            CostingType::Taxi => access::TAXI,
            CostingType::Moped => access::MOPED,
            CostingType::Motorcycle => access::MOTORCYCLE,
        };
        Ok(
            CostingModel {
                mask,
                exclude_tolls: costing.exclude_tolls,
                exclude_ferries: costing.exclude_ferries,
            },
        )
    }

    /// Whether this model may pass through `node`.
    pub fn node_accessible(&self, node: &NodeInfo) -> (r: bool)
        ensures
            r == spec_node_accessible(*self, *node),
    {
        node.access_mask & self.mask != 0
    }

    /// Whether this model may traverse `edge` along its direction.
    pub fn edge_accessible(&self, edge: &DirectedEdge) -> (r: bool)
        ensures
            r == spec_edge_accessible(*self, *edge),
    {
        edge.forward_access & self.mask != 0 && !(self.exclude_tolls && edge.toll) && !(
        self.exclude_ferries && (edge.use_type == USE_FERRY || edge.use_type == USE_RAIL_FERRY))
    }
}

} // verus!
