//! The tileset: every graph tile of a build and its traffic overlays.
//!
//! A reader is opened from the bytes of the tile archive and, optionally,
//! the bytes of the parallel traffic archive. Opening validates every graph
//! tile; a missing or malformed traffic archive is not an error, it only
//! leaves every overlay lookup empty. Tiles are listed in archive order and
//! looked up by identifier; the bounding-box query lists the tiles of one
//! level whose coverage rectangle meets an axis-aligned query rectangle,
//! with a query crossing the anti-meridian split in two.
use vstd::bytes::*;
use vstd::prelude::*;

use crate::bytes::copy_range;
use crate::graphid::{masked_id, packed_bits, GraphId};
use crate::records::LatLon;
use crate::tar::{parse_archive, spec_tar_parse, TarEntry};
use crate::tile::{spec_tile_decodes, GraphTile};
use crate::traffic::{spec_traffic_decodes, TrafficTile};
use crate::Error;

verus! {

/// Hierarchical graph level: the coarseness band of the roads a tile
/// holds. A higher level means finer roads.
#[derive(Clone, Copy, PartialEq, Eq, Structural, Debug)]
pub enum GraphLevel {
    /// Motorways and trunks.
    Highway,
    /// Arterial roads.
    Arterial,
    /// Local roads.
    Local,
}

/// The numeric value of a level.
pub open spec fn spec_level_num(level: GraphLevel) -> u64 {
    match level {
        GraphLevel::Highway => 0,
        GraphLevel::Arterial => 1,
        GraphLevel::Local => 2,
    }
}

/// Side of a tile at a level, in millionths of a degree.
pub open spec fn spec_tile_side(level: GraphLevel) -> int {
    match level {
        GraphLevel::Highway => 4000000,
        GraphLevel::Arterial => 1000000,
        GraphLevel::Local => 250000,
    }
}

/// Tiles per row of the grid at a level.
pub open spec fn spec_grid_cols(level: GraphLevel) -> int {
    match level {
        GraphLevel::Highway => 90,
        GraphLevel::Arterial => 360,
        GraphLevel::Local => 1440,
    }
}

/// Tiles of the whole grid at a level.
pub open spec fn spec_grid_size(level: GraphLevel) -> int {
    match level {
        GraphLevel::Highway => 4050,
        GraphLevel::Arterial => 64800,
        GraphLevel::Local => 1036800,
    }
}

/// Tiles of the whole grid at a numeric level.
pub open spec fn spec_grid_size_num(l: int) -> int {
    if l == 0 {
        4050
    } else if l == 1 {
        64800
    } else if l == 2 {
        1036800
    } else {
        0
    }
}

/// Whether the coverage rectangle of tile `tile` at `level` meets the
/// closed rectangle with the given bounds, all in millionths of a degree.
pub open spec fn spec_rect_meets(
    level: GraphLevel,
    tile: u32,
    min_lat: int,
    max_lat: int,
    min_lon: int,
    max_lon: int,
) -> bool {
    let side = spec_tile_side(level);
    let cols = spec_grid_cols(level);
    let row = tile as int / cols;
    let col = tile as int % cols;
    &&& row * side - 90000000 <= max_lat
    &&& min_lat <= (row + 1) * side - 90000000
    &&& col * side - 180000000 <= max_lon
    &&& min_lon <= (col + 1) * side - 180000000
}

/// Whether tile `tile` at `level` lies in the query box from `min` to
/// `max`: a box whose west edge lies east of its east edge crosses the
/// anti-meridian and counts as two boxes.
pub open spec fn spec_in_bbox(level: GraphLevel, tile: u32, min: LatLon, max: LatLon) -> bool {
    &&& min.0 <= max.0
    &&& if min.1 <= max.1 {
        spec_rect_meets(level, tile, min.0 as int, max.0 as int, min.1 as int, max.1 as int)
    } else {
        spec_rect_meets(level, tile, min.0 as int, max.0 as int, min.1 as int, 180000000)
            || spec_rect_meets(level, tile, min.0 as int, max.0 as int, -180000000, max.1 as int)
    }
}

/// Whether one archive member holds a tile consistent with its name:
/// the data range lies in the archive, the blob decodes, and the blob's
/// identifier is the tile base the name encodes, on a grid position the
/// level has.
pub open spec fn spec_entry_tile_ok(s: Seq<u8>, e: TarEntry) -> bool {
    let blob = s.subrange(e.off as int, e.off + e.len);
    &&& e.off + e.len <= s.len()
    &&& e.level < 8 && e.tileid < 0x400000
    &&& spec_tile_decodes(blob)
    &&& masked_id(spec_u64_from_le_bytes(blob.subrange(8, 16))) == masked_id(
        packed_bits(e.level as u64, e.tileid as u64, 0),
    )
    &&& (e.tileid as int) < spec_grid_size_num(e.level as int)
}

/// The build identifier of one archive member's blob.
pub open spec fn spec_entry_dataset(s: Seq<u8>, e: TarEntry) -> u64 {
    spec_u64_from_le_bytes(s.subrange(e.off as int, e.off + 8))
}

/// Whether the tile archive opens: it parses, every member holds the
/// tile its name announces, no tile is named twice, and all members
/// carry one build identifier.
pub open spec fn spec_tileset_ok(s: Seq<u8>) -> bool {
    &&& spec_tar_parse(s, 0) is Some
    &&& forall|j: int|
        0 <= j < spec_tar_parse(s, 0)->0.len() ==> #[trigger] spec_entry_tile_ok(
            s,
            spec_tar_parse(s, 0)->0[j],
        )
    &&& forall|j: int, k: int|
        0 <= j < k < spec_tar_parse(s, 0)->0.len() ==> !((#[trigger] spec_tar_parse(s, 0)->0[j]).level
            == (#[trigger] spec_tar_parse(s, 0)->0[k]).level && spec_tar_parse(s, 0)->0[j].tileid
            == spec_tar_parse(s, 0)->0[k].tileid)
    &&& forall|j: int|
        0 <= j < spec_tar_parse(s, 0)->0.len() ==> #[trigger] spec_entry_dataset(
            s,
            spec_tar_parse(s, 0)->0[j],
        ) == spec_entry_dataset(s, spec_tar_parse(s, 0)->0[0])
}

/// Whether an overlay names one of the held tiles and covers exactly
/// its edges.
pub open spec fn overlay_matches(tiles: Seq<GraphTile>, t: TrafficTile) -> bool {
    exists|g: int|
        0 <= g < tiles.len() && t.spec_id() == (#[trigger] tiles[g]).spec_id()
            && t.spec_records().len() == tiles[g].spec_edges().len()
}

/// High-level read access to a build's graph tiles and traffic overlays.
pub struct GraphReader {
    dataset_id: u64,
    tiles: Vec<GraphTile>,
    traffic: Vec<TrafficTile>,
}

impl GraphReader {
    /// The build identifier shared by the tiles, zero for an empty
    /// archive.
    pub closed spec fn spec_dataset_id(self) -> u64 {
        self.dataset_id
    }

    /// The decoded tiles, in archive order.
    pub closed spec fn spec_tiles(self) -> Seq<GraphTile> {
        self.tiles@
    }

    /// The decoded traffic overlays, in archive order; empty when the
    /// traffic archive was absent or malformed.
    pub closed spec fn spec_traffic(self) -> Seq<TrafficTile> {
        self.traffic@
    }

    /// The identifiers of the held tiles, in archive order.
    pub open spec fn spec_tile_ids(self) -> Seq<GraphId> {
        Seq::new(self.spec_tiles().len(), |i: int| self.spec_tiles()[i].spec_id())
    }

    /// Every held tile and overlay is well formed, every tile sits on a
    /// grid position its level has, no tile identifier repeats, and
    /// every overlay names a held tile and covers exactly its edges.
    pub open spec fn wf(self) -> bool {
        &&& forall|i: int| 0 <= i < self.spec_tiles().len() ==> (#[trigger] self.spec_tiles()[i]).wf()
        &&& forall|i: int|
            0 <= i < self.spec_tiles().len() ==> (#[trigger] self.spec_tiles()[i]).spec_id().spec_tileid()
                < spec_grid_size_num(self.spec_tiles()[i].spec_id().spec_level() as int)
        &&& forall|i: int, j: int|
            0 <= i < j < self.spec_tiles().len() ==> (#[trigger] self.spec_tiles()[i]).spec_id()
                != (#[trigger] self.spec_tiles()[j]).spec_id()
        &&& forall|i: int|
            0 <= i < self.spec_traffic().len() ==> (#[trigger] self.spec_traffic()[i]).wf()
        &&& forall|i: int|
            0 <= i < self.spec_traffic().len() ==> overlay_matches(
                self.spec_tiles(),
                #[trigger] self.spec_traffic()[i],
            )
    }

    /// Opens a reader over the bytes of the tile archive and, when one is
    /// given, the bytes of the traffic archive. Fails exactly when the
    /// tile archive does not open; a traffic archive that does not open
    /// only leaves the overlays empty.
    pub fn new(tile_tar: &Vec<u8>, traffic_tar: Option<&Vec<u8>>) -> (r: Result<GraphReader, Error>)
        ensures
            r is Ok <==> spec_tileset_ok(tile_tar@),
            r is Ok ==> {
                &&& r->Ok_0.wf()
                &&& r->Ok_0.spec_tiles().len() == spec_tar_parse(tile_tar@, 0)->0.len()
                &&& forall|j: int|
                    0 <= j < r->Ok_0.spec_tiles().len() ==> (
                    #[trigger] r->Ok_0.spec_tiles()[j]).spec_id() == masked_id(
                        packed_bits(
                            spec_tar_parse(tile_tar@, 0)->0[j].level as u64,
                            spec_tar_parse(tile_tar@, 0)->0[j].tileid as u64,
                            0,
                        ),
                    )
                &&& (r->Ok_0.spec_tiles().len() > 0 ==> r->Ok_0.spec_dataset_id()
                    == spec_entry_dataset(tile_tar@, spec_tar_parse(tile_tar@, 0)->0[0]))
                &&& (r->Ok_0.spec_tiles().len() == 0 ==> r->Ok_0.spec_dataset_id() == 0)
                &&& traffic_tar is None ==> r->Ok_0.spec_traffic().len() == 0
            },
    {
        let tlen: usize = tile_tar.len();
        let entries = match parse_archive(tile_tar) {
            Ok(v) => v,
            Err(e) => {
                return Err(e);
            },
        };
        let n = entries.len();
        let mut tiles: Vec<GraphTile> = Vec::new();
        let mut dataset_id: u64 = 0;
        let mut i: usize = 0;
        while i < n
            invariant
                tlen == tile_tar@.len(),
                n == entries@.len(),
                spec_tar_parse(tile_tar@, 0) == Some(entries@),
                i <= n,
                tiles@.len() == i,
                forall|j: int|
                    0 <= j < i ==> #[trigger] spec_entry_tile_ok(tile_tar@, entries@[j]),
                forall|j: int|
                    0 <= j < i ==> #[trigger] spec_entry_dataset(tile_tar@, entries@[j])
                        == spec_entry_dataset(tile_tar@, entries@[0]),
                forall|j: int| 0 <= j < i ==> (#[trigger] tiles@[j]).wf(),
                forall|j: int|
                    0 <= j < i ==> (#[trigger] tiles@[j]).spec_id() == masked_id(
                        packed_bits(entries@[j].level as u64, entries@[j].tileid as u64, 0),
                    ),
                forall|j: int|
                    0 <= j < i ==> (#[trigger] tiles@[j]).spec_id().spec_tileid()
                        < spec_grid_size_num(tiles@[j].spec_id().spec_level() as int),
                i > 0 ==> dataset_id == spec_entry_dataset(tile_tar@, entries@[0]),
                i == 0 ==> dataset_id == 0,
            decreases n - i,
        {
            let e = entries[i];
            if e.off > tlen || e.len > tlen - e.off {
                proof {
                    assert(!spec_entry_tile_ok(tile_tar@, entries@[i as int]));
                    assert(!spec_entry_tile_ok(
                        tile_tar@,
                        spec_tar_parse(tile_tar@, 0)->0[i as int],
                    ));
                }
                return Err(Error::ArchiveError);
            }
            let blob = copy_range(tile_tar, e.off, e.len);
            let tile = match GraphTile::from_bytes(&blob) {
                Ok(t) => t,
                Err(_) => {
                    proof {
                        assert(!spec_entry_tile_ok(tile_tar@, entries@[i as int]));
                        assert(!spec_entry_tile_ok(
                            tile_tar@,
                            spec_tar_parse(tile_tar@, 0)->0[i as int],
                        ));
                    }
                    return Err(Error::ArchiveError);
                },
            };
            let want = match GraphId::from_parts(e.level, e.tileid, 0) {
                Some(w) => w,
                None => {
                    proof {
                        assert(!spec_entry_tile_ok(tile_tar@, entries@[i as int]));
                        assert(!spec_entry_tile_ok(
                            tile_tar@,
                            spec_tar_parse(tile_tar@, 0)->0[i as int],
                        ));
                    }
                    return Err(Error::ArchiveError);
                },
            };
            proof {
                crate::graphid::lemma_pack_round_trip(e.level as u64, e.tileid as u64, 0);
                assert(want == masked_id(packed_bits(e.level as u64, e.tileid as u64, 0)));
            }
            if tile.id() != want {
                proof {
                    assert(!spec_entry_tile_ok(tile_tar@, entries@[i as int]));
                    assert(!spec_entry_tile_ok(
                        tile_tar@,
                        spec_tar_parse(tile_tar@, 0)->0[i as int],
                    ));
                }
                return Err(Error::ArchiveError);
            }
            let lvl = tile.id().level();
            let grid: u32 = if lvl == 0 {
                4050
            } else if lvl == 1 {
                64800
            } else {
                1036800
            };
            if tile.id().tileid() >= grid {
                proof {
                    assert(tile.spec_id().spec_level() == e.level);
                    assert(tile.spec_id().spec_tileid() == e.tileid);
                    assert(!spec_entry_tile_ok(tile_tar@, entries@[i as int]));
                    assert(!spec_entry_tile_ok(
                        tile_tar@,
                        spec_tar_parse(tile_tar@, 0)->0[i as int],
                    ));
                }
                return Err(Error::ArchiveError);
            }
            let did = tile.dataset_id();
            proof {
                assert(blob@ == tile_tar@.subrange(e.off as int, e.off + e.len));
                assert(blob@.subrange(0, 8) =~= tile_tar@.subrange(e.off as int, e.off + 8));
                assert(spec_entry_dataset(tile_tar@, entries@[i as int]) == did);
            }
            if i == 0 {
                dataset_id = did;
            } else if did != dataset_id {
                proof {
                    assert(spec_entry_dataset(tile_tar@, entries@[i as int])
                        != spec_entry_dataset(tile_tar@, entries@[0]));
                    assert(spec_entry_dataset(tile_tar@, spec_tar_parse(tile_tar@, 0)->0[i as int])
                        != spec_entry_dataset(tile_tar@, spec_tar_parse(tile_tar@, 0)->0[0]));
                }
                return Err(Error::ArchiveError);
            }
            proof {
                assert(spec_entry_tile_ok(tile_tar@, entries@[i as int]));
            }
            tiles.push(tile);
            i = i + 1;
        }

        let nt = tiles.len();
        let mut a: usize = 0;
        while a < nt
            invariant
                nt == tiles@.len(),
                nt == entries@.len(),
                a <= nt,
                spec_tar_parse(tile_tar@, 0) == Some(entries@),
                forall|j: int|
                    0 <= j < nt ==> #[trigger] spec_entry_tile_ok(tile_tar@, entries@[j]),
                forall|j: int|
                    0 <= j < nt ==> (#[trigger] tiles@[j]).spec_id() == masked_id(
                        packed_bits(entries@[j].level as u64, entries@[j].tileid as u64, 0),
                    ),
                forall|j: int, k: int|
                    0 <= j < k < nt && j < a ==> (#[trigger] tiles@[j]).spec_id() != (
                    #[trigger] tiles@[k]).spec_id(),
            decreases nt - a,
        {
            let mut c: usize = a + 1;
            while c < nt
                invariant
                    nt == tiles@.len(),
                    nt == entries@.len(),
                    a < c || a + 1 == c,
                    a < nt,
                    a + 1 <= c <= nt,
                    spec_tar_parse(tile_tar@, 0) == Some(entries@),
                    forall|j: int|
                        0 <= j < nt ==> #[trigger] spec_entry_tile_ok(tile_tar@, entries@[j]),
                    forall|j: int|
                        0 <= j < nt ==> (#[trigger] tiles@[j]).spec_id() == masked_id(
                            packed_bits(entries@[j].level as u64, entries@[j].tileid as u64, 0),
                        ),
                    forall|k: int|
                        a < k < c ==> (#[trigger] tiles@[k]).spec_id() != tiles@[a as int].spec_id(),
                decreases nt - c,
            {
                if tiles[a].id() == tiles[c].id() {
                    proof {
                        let ea = entries@[a as int];
                        let ec = entries@[c as int];
                        assert(spec_entry_tile_ok(tile_tar@, entries@[a as int]));
                        assert(spec_entry_tile_ok(tile_tar@, entries@[c as int]));
                        crate::graphid::lemma_pack_round_trip(ea.level as u64, ea.tileid as u64, 0);
                        crate::graphid::lemma_pack_round_trip(ec.level as u64, ec.tileid as u64, 0);
                        assert(ea.level == ec.level && ea.tileid == ec.tileid);
                        assert((spec_tar_parse(tile_tar@, 0)->0[a as int]).level
                            == (spec_tar_parse(tile_tar@, 0)->0[c as int]).level
                            && spec_tar_parse(tile_tar@, 0)->0[a as int].tileid
                            == spec_tar_parse(tile_tar@, 0)->0[c as int].tileid);
                    }
                    return Err(Error::ArchiveError);
                }
                c = c + 1;
            }
            a = a + 1;
        }
        proof {
            assert forall|j: int, k: int|
                0 <= j < k < spec_tar_parse(tile_tar@, 0)->0.len() implies !((
            #[trigger] spec_tar_parse(tile_tar@, 0)->0[j]).level == (
            #[trigger] spec_tar_parse(tile_tar@, 0)->0[k]).level && spec_tar_parse(
                tile_tar@,
                0,
            )->0[j].tileid == spec_tar_parse(tile_tar@, 0)->0[k].tileid) by {
                assert(spec_tar_parse(tile_tar@, 0)->0[j] == entries@[j]);
                assert(spec_tar_parse(tile_tar@, 0)->0[k] == entries@[k]);
                if entries@[j].level == entries@[k].level && entries@[j].tileid
                    == entries@[k].tileid {
                    assert(tiles@[j].spec_id() == masked_id(
                        packed_bits(entries@[j].level as u64, entries@[j].tileid as u64, 0),
                    ));
                    assert(tiles@[k].spec_id() == masked_id(
                        packed_bits(entries@[k].level as u64, entries@[k].tileid as u64, 0),
                    ));
                    assert(tiles@[j].spec_id() != tiles@[k].spec_id());
                    assert(false);
                }
            }
        }

        let traffic = match traffic_tar {
            None => Vec::new(),
            Some(tt) => load_traffic(tt, &tiles),
        };
        let ghost gtiles = tiles@;
        let ghost gtraffic = traffic@;
        let reader = GraphReader { dataset_id, tiles, traffic };
        proof {
            assert(reader.spec_tiles() == gtiles);
            assert(reader.spec_traffic() == gtraffic);
            assert forall|i: int|
                0 <= i < reader.spec_traffic().len() implies overlay_matches(
                reader.spec_tiles(),
                #[trigger] reader.spec_traffic()[i],
            ) by {
                assert(overlay_matches(gtiles, gtraffic[i]));
            }
            assert(reader.wf());
            assert(spec_tileset_ok(tile_tar@));
        }
        Ok(reader)
    }

    /// The build identifier embedded in every tile of the archive.
    pub fn dataset_id(&self) -> (r: u64)
        ensures
            r == self.spec_dataset_id(),
    {
        self.dataset_id
    }

    /// The identifiers of all tiles, in archive order: each held tile
    /// appears exactly once.
    pub fn tiles(&self) -> (r: Vec<GraphId>)
        ensures
            r@.len() == self.spec_tiles().len(),
            forall|i: int|
                0 <= i < r@.len() ==> r@[i] == (#[trigger] self.spec_tiles()[i]).spec_id(),
            self.wf() ==> forall|i: int, j: int|
                0 <= i < j < r@.len() ==> #[trigger] r@[i] != #[trigger] r@[j],
    {
        let n = self.tiles.len();
        let mut out: Vec<GraphId> = Vec::new();
        let mut i: usize = 0;
        while i < n
            invariant
                n == self.spec_tiles().len(),
                i <= n,
                out@.len() == i,
                forall|j: int|
                    0 <= j < i ==> out@[j] == (#[trigger] self.spec_tiles()[j]).spec_id(),
            decreases n - i,
        {
            out.push(self.tiles[i].id());
            i = i + 1;
        }
        proof {
            if self.wf() {
                assert forall|i: int, j: int|
                    0 <= i < j < out@.len() implies #[trigger] out@[i] != #[trigger] out@[j] by {
                    assert(self.spec_tiles()[i].spec_id() != self.spec_tiles()[j].spec_id());
                }
            }
        }
        out
    }

    /// The graph tile that holds `id`, if its tile base is in the
    /// archive.
    pub fn graph_tile(&self, id: GraphId) -> (r: Option<&GraphTile>)
        requires
            self.wf(),
        ensures
            r is Some <==> exists|i: int|
                0 <= i < self.spec_tiles().len() && (#[trigger] self.spec_tiles()[i]).spec_id().bits()
                    == crate::graphid::base_part(id.bits()),
            r is Some ==> {
                &&& r->0.wf()
                &&& r->0.spec_id().bits() == crate::graphid::base_part(id.bits())
                &&& exists|i: int|
                    0 <= i < self.spec_tiles().len() && *r->0 == self.spec_tiles()[i]
            },
    {
        let base = id.tile();
        let n = self.tiles.len();
        let mut i: usize = 0;
        while i < n
            invariant
                self.wf(),
                n == self.spec_tiles().len(),
                i <= n,
                base.bits() == crate::graphid::base_part(id.bits()),
                forall|j: int|
                    0 <= j < i ==> (#[trigger] self.spec_tiles()[j]).spec_id().bits()
                        != crate::graphid::base_part(id.bits()),
            decreases n - i,
        {
            if self.tiles[i].id() == base {
                return Some(&self.tiles[i]);
            }
            i = i + 1;
        }
        None
    }

    /// The traffic overlay for the tile that holds `id`, if the traffic
    /// archive had it.
    pub fn traffic_tile(&self, id: GraphId) -> (r: Option<&TrafficTile>)
        requires
            self.wf(),
        ensures
            r is Some <==> exists|i: int|
                0 <= i < self.spec_traffic().len() && (
                #[trigger] self.spec_traffic()[i]).spec_id().bits() == crate::graphid::base_part(
                    id.bits(),
                ),
            r is Some ==> {
                &&& r->0.wf()
                &&& r->0.spec_id().bits() == crate::graphid::base_part(id.bits())
                &&& exists|i: int|
                    0 <= i < self.spec_traffic().len() && *r->0 == self.spec_traffic()[i]
            },
    {
        let base = id.tile();
        let n = self.traffic.len();
        let mut i: usize = 0;
        while i < n
            invariant
                self.wf(),
                n == self.spec_traffic().len(),
                i <= n,
                base.bits() == crate::graphid::base_part(id.bits()),
                forall|j: int|
                    0 <= j < i ==> (#[trigger] self.spec_traffic()[j]).spec_id().bits()
                        != crate::graphid::base_part(id.bits()),
            decreases n - i,
        {
            if self.traffic[i].id() == base {
                return Some(&self.traffic[i]);
            }
            i = i + 1;
        }
        None
    }

    /// The tiles of `level` whose coverage rectangle meets the box from
    /// `min` to `max`, in archive order: exactly the held tiles of that
    /// level for which `spec_in_bbox` holds.
    pub fn tiles_in_bbox(&self, min: LatLon, max: LatLon, level: GraphLevel) -> (r: Vec<GraphId>)
        requires
            self.wf(),
        ensures
            forall|j: int|
                0 <= j < r@.len() ==> self.spec_tile_ids().contains(#[trigger] r@[j]),
            forall|j: int|
                0 <= j < r@.len() ==> (#[trigger] r@[j]).spec_level() == spec_level_num(level)
                    && spec_in_bbox(level, r@[j].spec_tileid() as u32, min, max),
            forall|i: int|
                0 <= i < self.spec_tiles().len() && (#[trigger] self.spec_tiles()[i]).spec_id().spec_level()
                    == spec_level_num(level) && spec_in_bbox(
                    level,
                    self.spec_tiles()[i].spec_id().spec_tileid() as u32,
                    min,
                    max,
                ) ==> r@.contains(self.spec_tiles()[i].spec_id()),
    {
        let n = self.tiles.len();
        let mut out: Vec<GraphId> = Vec::new();
        let mut i: usize = 0;
        while i < n
            invariant
                self.wf(),
                n == self.spec_tiles().len(),
                i <= n,
                forall|j: int|
                    0 <= j < out@.len() ==> self.spec_tile_ids().contains(#[trigger] out@[j]),
                forall|j: int|
                    0 <= j < out@.len() ==> (#[trigger] out@[j]).spec_level() == spec_level_num(
                        level,
                    ) && spec_in_bbox(level, out@[j].spec_tileid() as u32, min, max),
                forall|t: int|
                    0 <= t < i && (#[trigger] self.spec_tiles()[t]).spec_id().spec_level()
                        == spec_level_num(level) && spec_in_bbox(
                        level,
                        self.spec_tiles()[t].spec_id().spec_tileid() as u32,
                        min,
                        max,
                    ) ==> out@.contains(self.spec_tiles()[t].spec_id()),
            decreases n - i,
        {
            let gid = self.tiles[i].id();
            let lvl_num: u32 = match level {
                GraphLevel::Highway => 0,
                GraphLevel::Arterial => 1,
                GraphLevel::Local => 2,
            };
            if gid.level() == lvl_num && tile_meets_bbox(level, gid.tileid(), min, max) {
                let ghost pre = out@;
                out.push(gid);
                proof {
                    assert(self.spec_tile_ids()[i as int] == gid);
                    assert(self.spec_tile_ids().contains(gid));
                    assert forall|j: int|
                        0 <= j < out@.len() implies self.spec_tile_ids().contains(
                        #[trigger] out@[j]) by {
                        if j < out@.len() - 1 {
                            assert(out@[j] == pre[j]);
                        } else {
                            assert(out@[j] == gid);
                        }
                    }
                    assert forall|t: int|
                        0 <= t < i + 1 && (#[trigger] self.spec_tiles()[t]).spec_id().spec_level()
                            == spec_level_num(level) && spec_in_bbox(
                            level,
                            self.spec_tiles()[t].spec_id().spec_tileid() as u32,
                            min,
                            max,
                        ) implies out@.contains(self.spec_tiles()[t].spec_id()) by {
                        if t < i {
                            assert(pre.contains(self.spec_tiles()[t].spec_id()));
                            let w = choose|w: int|
                                0 <= w < pre.len() && pre[w] == self.spec_tiles()[t].spec_id();
                            assert(out@[w] == self.spec_tiles()[t].spec_id());
                        } else {
                            assert(out@[out@.len() - 1] == self.spec_tiles()[t].spec_id());
                        }
                    }
                }
            }
            i = i + 1;
        }
        out
    }
}

/// Whether tile `tileid` of `level` meets the query box, the two halves
/// of an anti-meridian crossing counted.
fn tile_meets_bbox(level: GraphLevel, tileid: u32, min: LatLon, max: LatLon) -> (r: bool)
    ensures
        r == spec_in_bbox(level, tileid, min, max),
{
    if min.0 > max.0 {
        return false;
    }
    if min.1 <= max.1 {
        rect_meets(level, tileid, min.0, max.0, min.1, max.1)
    } else {
        rect_meets(level, tileid, min.0, max.0, min.1, 180000000) || rect_meets(
            level,
            tileid,
            min.0,
            max.0,
            -180000000,
            max.1,
        )
    }
}

/// Whether the coverage rectangle of `tileid` meets the closed rectangle
/// with the given bounds.
fn rect_meets(level: GraphLevel, tileid: u32, min_lat: i64, max_lat: i64, min_lon: i64, max_lon: i64) -> (r:
    bool)
    ensures
        r == spec_rect_meets(
            level,
            tileid,
            min_lat as int,
            max_lat as int,
            min_lon as int,
            max_lon as int,
        ),
{
    let side: i64 = match level {
        GraphLevel::Highway => 4000000,
        GraphLevel::Arterial => 1000000,
        GraphLevel::Local => 250000,
    };
    let cols: i64 = match level {
        GraphLevel::Highway => 90,
        GraphLevel::Arterial => 360,
        GraphLevel::Local => 1440,
    };
    let row: i64 = tileid as i64 / cols;
    let col: i64 = tileid as i64 % cols;
    proof {
        assert(row * side <= 0xffff_ffffi64 * 4000000 && row * side >= 0 && col * side >= 0
            && col * side <= 0xffff_ffffi64 * 4000000) by (nonlinear_arith)
            requires
                0 <= row <= 0xffff_ffffi64,
                0 <= col < 1441,
                0 < side <= 4000000,
        ;
    }
    row * side - 90000000 <= max_lat && min_lat <= (row + 1) * side - 90000000 && col * side
        - 180000000 <= max_lon && min_lon <= (col + 1) * side - 180000000
}

/// Loads the traffic overlays from the bytes of the traffic archive;
/// yields none when the archive or any member is malformed, names a
/// tile other than its blob does, or does not match a held graph tile
/// edge for edge.
fn load_traffic(b: &Vec<u8>, tiles: &Vec<GraphTile>) -> (r: Vec<TrafficTile>)
    ensures
        forall|i: int| 0 <= i < r@.len() ==> (#[trigger] r@[i]).wf(),
        forall|i: int|
            0 <= i < r@.len() ==> overlay_matches(tiles@, #[trigger] r@[i]),
{
    let blen: usize = b.len();
    let entries = match parse_archive(b) {
        Ok(v) => v,
        Err(_) => {
            return Vec::new();
        },
    };
    let n = entries.len();
    let mut out: Vec<TrafficTile> = Vec::new();
    let mut i: usize = 0;
    while i < n
        invariant
            blen == b@.len(),
            n == entries@.len(),
            i <= n,
            forall|j: int| 0 <= j < out@.len() ==> (#[trigger] out@[j]).wf(),
            forall|j: int|
                0 <= j < out@.len() ==> overlay_matches(tiles@, #[trigger] out@[j]),
        decreases n - i,
    {
        let e = entries[i];
        if e.off > blen || e.len > blen - e.off {
            return Vec::new();
        }
        let blob = copy_range(b, e.off, e.len);
        let t = match TrafficTile::from_bytes(&blob) {
            Ok(t) => t,
            Err(_) => {
                return Vec::new();
            },
        };
        let want = match GraphId::from_parts(e.level, e.tileid, 0) {
            Some(w) => w,
            None => {
                return Vec::new();
            },
        };
        if t.id() != want {
            return Vec::new();
        }
        let nt = tiles.len();
        let mut g: usize = 0;
        let mut found = false;
        while g < nt
            invariant
                nt == tiles@.len(),
                g <= nt,
                t.wf(),
                found ==> overlay_matches(tiles@, t),
            decreases nt - g + (if found { 0int } else { 1int }),
        {
            if found {
                break;
            }
            if tiles[g].id() == t.id() && tiles[g].directededges().len() == t.edge_count()
                as usize {
                proof {
                    assert(t.spec_id() == tiles@[g as int].spec_id() && t.spec_records().len()
                        == tiles@[g as int].spec_edges().len());
                }
                found = true;
            }
            g = g + 1;
        }
        if !found {
            return Vec::new();
        }
        let ghost pre_len = out@.len();
        out.push(t);
        proof {
            assert forall|j: int|
                0 <= j < out@.len() implies overlay_matches(tiles@, #[trigger] out@[j]) by {
                if j == pre_len {
                    assert(out@[j] == t);
                }
            }
        }
        i = i + 1;
    }
    out
}

/// Every grid position of a level meets the whole-world box: listing the
/// tiles of the world box at a level therefore lists exactly the held
/// tiles of that level.
pub proof fn lemma_world_covers_tile(level: GraphLevel, tileid: u32)
    requires
        (tileid as int) < spec_grid_size(level),
    ensures
        spec_in_bbox(
            level,
            tileid,
            LatLon(-90000000i64, -180000000i64),
            LatLon(90000000i64, 180000000i64),
        ),
{
    let side = spec_tile_side(level);
    let cols = spec_grid_cols(level);
    let rows = spec_grid_size(level) / cols;
    let row = tileid as int / cols;
    let col = tileid as int % cols;
    let total = spec_grid_size(level);
    assert(0 <= row < rows && 0 <= col < cols) by (nonlinear_arith)
        requires
            0 <= tileid as int,
            (tileid as int) < total,
            row == tileid as int / cols,
            col == tileid as int % cols,
            rows == total / cols,
            cols > 0,
            total == rows * cols,
    ;
    assert(row * side <= (rows - 1) * side && (row + 1) * side >= side && col * side <= (cols - 1)
        * side && (col + 1) * side >= side) by (nonlinear_arith)
        requires
            0 <= row < rows,
            0 <= col < cols,
            side > 0,
    ;
    assert(rows * side == 180000000 && cols * side == 360000000);
}


/// World-box law: at each level, the whole-world box lists exactly the
/// held tiles of that level. Soundness and completeness of the listing
/// itself are the contract of `tiles_in_bbox`; this lemma adds that every
/// tile a well-formed reader holds meets the whole-world box, so none is
/// left out.
pub proof fn lemma_world_bbox_lists_level(r: GraphReader, i: int, level: GraphLevel)
    requires
        r.wf(),
        0 <= i < r.spec_tiles().len(),
        r.spec_tiles()[i].spec_id().spec_level() == spec_level_num(level),
    ensures
        spec_in_bbox(
            level,
            r.spec_tiles()[i].spec_id().spec_tileid() as u32,
            LatLon(-90000000i64, -180000000i64),
            LatLon(90000000i64, 180000000i64),
        ),
{
    assert(spec_grid_size_num(spec_level_num(level) as int) == spec_grid_size(level));
    lemma_world_covers_tile(level, r.spec_tiles()[i].spec_id().spec_tileid() as u32);
}


/// Parallel-overlay law: in a well-formed reader, an overlay for a held
/// tile covers exactly that tile's directed edges, record for record.
pub proof fn lemma_overlay_parallel(r: GraphReader, i: int, g: int)
    requires
        r.wf(),
        0 <= i < r.spec_traffic().len(),
        0 <= g < r.spec_tiles().len(),
        r.spec_traffic()[i].spec_id() == r.spec_tiles()[g].spec_id(),
    ensures
        r.spec_traffic()[i].spec_records().len() == r.spec_tiles()[g].spec_edges().len(),
{
    let w = choose|w: int|
        0 <= w < r.spec_tiles().len() && r.spec_traffic()[i].spec_id() == (
        #[trigger] r.spec_tiles()[w]).spec_id() && r.spec_traffic()[i].spec_records().len()
            == r.spec_tiles()[w].spec_edges().len();
    if w < g {
        assert(r.spec_tiles()[w].spec_id() != r.spec_tiles()[g].spec_id());
    } else if g < w {
        assert(r.spec_tiles()[g].spec_id() != r.spec_tiles()[w].spec_id());
    }
}

/// Sentinel law: no overlay of a well-formed reader answers for the
/// invalid identifier, whose tile base names a level no tile has.
pub proof fn lemma_no_sentinel_overlay(r: GraphReader, i: int)
    requires
        r.wf(),
        0 <= i < r.spec_traffic().len(),
    ensures
        r.spec_traffic()[i].spec_id().bits() != crate::graphid::base_part(
            crate::graphid::INVALID_GRAPH_ID,
        ),
{
    let w = choose|w: int|
        0 <= w < r.spec_tiles().len() && r.spec_traffic()[i].spec_id() == (
        #[trigger] r.spec_tiles()[w]).spec_id() && r.spec_traffic()[i].spec_records().len()
            == r.spec_tiles()[w].spec_edges().len();
    assert(r.spec_tiles()[w].spec_id().spec_tileid() < spec_grid_size_num(
        r.spec_tiles()[w].spec_id().spec_level() as int,
    ));
    let v = r.spec_tiles()[w].spec_id().bits();
    assert(crate::graphid::level_part(crate::graphid::base_part(crate::graphid::INVALID_GRAPH_ID))
        == 7) by (bit_vector);
    if v == crate::graphid::base_part(crate::graphid::INVALID_GRAPH_ID) {
        assert(spec_grid_size_num(7) == 0);
    }
}

} // verus!
