//! The edge speed resolver.
//!
//! One edge carries several candidate speeds: a default, a truck speed, a
//! typical night speed, a typical day speed, an optional predicted weekly
//! curve in five-minute buckets, and possibly a live reading. The resolver
//! combines them: a known, non-closed live reading wins when requested,
//! blended towards the historical base as the reading ages; otherwise the
//! predicted bucket when requested and covered; otherwise the day or night
//! typical speed by time of day; otherwise the default, through the truck
//! speed for trucks. The result is never zero: closures are reported by the
//! closure predicates, not here. The second component names the sources that
//! contributed, always within the sources requested.
use vstd::prelude::*;

use crate::access::SpeedSources;
use crate::records::DirectedEdge;
use crate::traffic::{overall_encoded_part, record_closed, record_unknown};

verus! {

/// Seconds in a week: the range a `second_of_week` must fall in.
pub const SECONDS_PER_WEEK: u64 = 604800;

/// Seconds each predicted bucket covers.
pub const BUCKET_SECONDS: u64 = 300;

/// Predicted buckets stored per edge: one week of five-minute buckets.
pub const BUCKETS_PER_EDGE: u64 = 2016;

/// Seconds over which a live reading decays to the historical base.
pub const LIVE_AGE_HORIZON: u64 = 3600;

/// Whether a second of the week falls in the daytime band, 7am to 7pm.
pub open spec fn spec_daytime(second_of_week: u64) -> bool {
    25200 <= second_of_week % 86400 < 68400
}

/// The default speed: the truck speed for trucks when one is stored, the
/// edge speed otherwise.
pub open spec fn spec_default_speed(e: DirectedEdge, is_truck: bool) -> u8 {
    if is_truck && e.truck_speed > 0 {
        e.truck_speed
    } else {
        e.speed
    }
}

/// The bucket a second of the week falls in, rounding down.
pub open spec fn spec_bucket(second_of_week: u64) -> u64 {
    second_of_week / BUCKET_SECONDS
}

/// Whether the predicted curve applies: requested, stored, and the queried
/// second lies within the week the curve covers.
pub open spec fn spec_predicted_applies(
    e: DirectedEdge,
    predicted: Seq<u8>,
    sources: u8,
    second_of_week: u64,
) -> bool {
    &&& sources & 4 != 0
    &&& e.has_predicted
    &&& second_of_week < SECONDS_PER_WEEK
    &&& predicted[e.predicted_offset + spec_bucket(second_of_week)] > 0
}

/// The historical base speed and the source bit it came from: the
/// predicted bucket first, then the day or night typical speed, then the
/// default.
pub open spec fn spec_base_speed(
    e: DirectedEdge,
    predicted: Seq<u8>,
    sources: u8,
    is_truck: bool,
    second_of_week: u64,
) -> (u8, u8) {
    if spec_predicted_applies(e, predicted, sources, second_of_week) {
        (predicted[e.predicted_offset + spec_bucket(second_of_week)], 4u8)
    } else if spec_daytime(second_of_week) && sources & 2 != 0 && e.constrained_flow_speed > 0 {
        (e.constrained_flow_speed, 2u8)
    } else if !spec_daytime(second_of_week) && sources & 1 != 0 && e.free_flow_speed > 0 {
        (e.free_flow_speed, 1u8)
    } else {
        (spec_default_speed(e, is_truck), 0u8)
    }
}

/// The live speed that takes part in resolution: requested, known, not a
/// closure, and not zero.
pub open spec fn spec_live_applies(rec: Option<u64>, sources: u8) -> bool {
    &&& sources & 8 != 0
    &&& rec is Some
    &&& !record_unknown(rec->0)
    &&& !record_closed(rec->0)
    &&& overall_encoded_part(rec->0) > 0
}

/// The resolved speed and the set of sources that contributed. A live
/// reading aged `seconds_from_now` is blended linearly with the base over
/// `LIVE_AGE_HORIZON`, rounding down; a fresh reading stands alone.
pub open spec fn spec_edge_speed(
    e: DirectedEdge,
    predicted: Seq<u8>,
    rec: Option<u64>,
    sources: u8,
    is_truck: bool,
    second_of_week: u64,
    seconds_from_now: u64,
) -> (u32, u8) {
    let base = spec_base_speed(e, predicted, sources, is_truck, second_of_week);
    if spec_live_applies(rec, sources) {
        let live = overall_encoded_part(rec->0) * 2;
        let age = if seconds_from_now > LIVE_AGE_HORIZON {
            LIVE_AGE_HORIZON as int
        } else {
            seconds_from_now as int
        };
        let mixed = (live * (LIVE_AGE_HORIZON - age) + base.0 * age) / (LIVE_AGE_HORIZON as int);
        if age == 0 {
            (mixed as u32, 8u8)
        } else {
            (mixed as u32, (8u8 | base.1) as u8)
        }
    } else {
        (base.0 as u32, base.1)
    }
}

/// Resolves the speed of `e` from its stored speeds, its predicted curve
/// in `predicted`, and the live record `rec`, honouring the requested
/// sources. The result is never zero, and the reported sources are always
/// among those requested.
pub fn resolve_speed(
    e: &DirectedEdge,
    predicted: &Vec<u8>,
    rec: Option<u64>,
    sources: SpeedSources,
    is_truck: bool,
    second_of_week: u64,
    seconds_from_now: u64,
) -> (r: (u32, SpeedSources))
    requires
        e.speed >= 1,
        e.has_predicted ==> e.predicted_offset + BUCKETS_PER_EDGE <= predicted@.len(),
    ensures
        (r.0, r.1.0) == spec_edge_speed(
            *e,
            predicted@,
            rec,
            sources.0,
            is_truck,
            second_of_week,
            seconds_from_now,
        ),
        r.0 >= 1,
        r.1.0 & sources.0 == r.1.0,
{
    let day_second = second_of_week % 86400;
    let daytime = 25200 <= day_second && day_second < 68400;

    let mut base: u8 = 0;
    let mut base_src: u8 = 0;
    let mut predicted_speed: u8 = 0;
    if sources.0 & 4 != 0 && e.has_predicted && second_of_week < SECONDS_PER_WEEK {
        let plen: usize = predicted.len();
        let bucket = (second_of_week / BUCKET_SECONDS) as usize;
        assert(bucket < 2016);
        predicted_speed = predicted[e.predicted_offset as usize + bucket];
    }
    if predicted_speed > 0 {
        base = predicted_speed;
        base_src = 4;
        proof {
            let m = sources.0;
            assert(4u8 & m == 4u8) by (bit_vector)
                requires m & 4 != 0;
        }
    } else if daytime && sources.0 & 2 != 0 && e.constrained_flow_speed > 0 {
        base = e.constrained_flow_speed;
        base_src = 2;
        proof {
            let m = sources.0;
            assert(2u8 & m == 2u8) by (bit_vector)
                requires m & 2 != 0;
        }
    } else if !daytime && sources.0 & 1 != 0 && e.free_flow_speed > 0 {
        base = e.free_flow_speed;
        base_src = 1;
        proof {
            let m = sources.0;
            assert(1u8 & m == 1u8) by (bit_vector)
                requires m & 1 != 0;
        }
    } else {
        base = if is_truck && e.truck_speed > 0 {
            e.truck_speed
        } else {
            e.speed
        };
        base_src = 0;
        proof {
            let m = sources.0;
            assert(0u8 & m == 0u8) by (bit_vector);
        }
    }
    assert(base >= 1);
    assert((base, base_src) == spec_base_speed(
        *e,
        predicted@,
        sources.0,
        is_truck,
        second_of_week,
    ));

    let mut live: u64 = 0;
    if sources.0 & 8 != 0 {
        match rec {
            Some(bits) => {
                let t = crate::traffic::LiveTraffic::from_bits(bits);
                if !t.is_unknown() && !t.is_closed() {
                    live = t.overall_speed() as u64;
                }
            },
            None => {
            },
        }
    }
    if live > 0 {
        let age: u64 = if seconds_from_now > LIVE_AGE_HORIZON {
            LIVE_AGE_HORIZON
        } else {
            seconds_from_now
        };
        proof {
            assert(live >= 2 && live <= 254);
            assert(live * (3600 - age) >= 2 * (3600 - age) && live * (3600 - age) <= 254 * 3600
                && (base as u64) * age >= 1 * age && (base as u64) * age <= 255 * 3600)
                by (nonlinear_arith)
                requires
                    2 <= live <= 254,
                    1 <= base <= 255,
                    0 <= age <= 3600,
            ;
        }
        let mixed64: u64 = (live * (LIVE_AGE_HORIZON - age) + (base as u64) * age)
            / LIVE_AGE_HORIZON;
        proof {
            assert(mixed64 >= 1 && mixed64 <= 0xffff_ffff);
        }
        let mixed = mixed64 as u32;
        if age == 0 {
            proof {
                let m = sources.0;
                assert(8u8 & m == 8u8) by (bit_vector)
                    requires m & 8 != 0;
            }
            (mixed, SpeedSources(8))
        } else {
            let src = 8u8 | base_src;
            proof {
                let m = sources.0;
                let b = base_src;
                assert((8u8 | b) & m == (8u8 | b)) by (bit_vector)
                    requires m & 8 != 0 && b & m == b;
            }
            (mixed, SpeedSources(src))
        }
    } else {
        (base as u32, SpeedSources(base_src))
    }
}

} // verus!
