//! Cells of the hexagonal grid and what the `h3o` crate computes of them.
//!
//! A cell is carried as its 64-bit index. The calls into the crate are
//! trusted; what is decided around them is verified.
use crate::error::{GeoPlegmaError, H3oError};
use crate::geometry::{
    bounded_polygon, corner_count_convex, corners_of, geodesic_area, geodesic_area_bits,
    hull_coords, Point, Polygon, Rect, SquareMeters,
};
use crate::models::{
    id_views, valid_hex_text, RefinementLevel, Zone, ZoneId, ZoneIdView, Zones,
};
use crate::ports::{all_gated, gated, DggrsPortConfig};
use crate::text::{hex_digits, lemma_hex_digits_len, lemma_hex_digits_value};
use std::str::FromStr;
use vstd::prelude::*;

verus! {

/// The finest resolution of the grid.
pub const MAX_RESOLUTION: u8 = 15;

/// The number of cells at resolution zero.
pub const BASE_CELL_COUNT: usize = 122;

/// How many levels below a cell its descendants are listed at most.
pub const MAX_DESCENT: u8 = 6;

/// `h3o::LatLng`, a position on the sphere as the crate holds it.
#[verifier::external_type_specification]
#[verifier::external_body]
pub struct ExLatLng(::h3o::LatLng);

/// Whether `bits` is the index of a cell: what `CellIndex::try_from` accepts.
pub uninterp spec fn h3_cell(bits: u64) -> bool;

/// The cell that `CellIndex::from_str` reads from a text, if any.
pub uninterp spec fn h3_cell_of_text(text: Seq<char>) -> Option<u64>;

/// The cells that `CellIndex::children` lists below `cell` at resolution `res`.
pub uninterp spec fn h3_children(cell: u64, res: u8) -> Seq<u64>;

/// The cells that `CellIndex::grid_disk` lists within `k` steps of `cell`.
pub uninterp spec fn h3_disk(cell: u64, k: u32) -> Seq<u64>;

/// The resolution that an index holds, in its bits 52 to 55.
pub open spec fn resolution_of(cell: u64) -> u8 {
    ((cell & 0x00f0_0000_0000_0000) >> 52) as u8
}

/// The index of the cell at resolution zero with number `i`.
pub open spec fn base_cell_index(i: int) -> int {
    0x0800_1fff_ffff_ffff + i * 0x2000_0000_0000
}

/// Every index in `cells` is the index of a cell.
pub open spec fn all_cells(cells: Seq<u64>) -> bool {
    forall|i: int| 0 <= i < cells.len() ==> h3_cell(#[trigger] cells[i])
}

/// Every index in `cells` is the index of a cell at resolution `res`.
pub open spec fn all_cells_at(cells: Seq<u64>, res: u8) -> bool {
    forall|i: int|
        0 <= i < cells.len() ==> h3_cell(#[trigger] cells[i]) && resolution_of(cells[i]) == res
}

/// `CellIndex::from_str`: reads a cell from hexadecimal text.
#[verifier::external_body]
pub(crate) fn cell_from_text(s: &str) -> (r: Option<u64>)
    ensures
        r == h3_cell_of_text(s@),
        r.is_some() ==> h3_cell(r.unwrap()),
{
    ::h3o::CellIndex::from_str(s).ok().map(u64::from)
}

/// `CellIndex::try_from`: whether a number is the index of a cell.
#[verifier::external_body]
pub(crate) fn is_cell(bits: u64) -> (r: bool)
    ensures
        r == h3_cell(bits),
{
    ::h3o::CellIndex::try_from(bits).is_ok()
}

/// `CellIndex::resolution`: the four bits of the index that hold it.
#[verifier::external_body]
pub(crate) fn cell_resolution(cell: u64) -> (r: u8)
    requires
        h3_cell(cell),
    ensures
        r == resolution_of(cell),
        r <= MAX_RESOLUTION,
{
    u8::from(::h3o::CellIndex::try_from(cell).expect("a cell index").resolution())
}

/// `CellIndex::to_string`: the index in lower-case hexadecimal, without
/// leading zeros.
#[verifier::external_body]
pub(crate) fn cell_text(cell: u64) -> (r: String)
    requires
        h3_cell(cell),
    ensures
        r@ == hex_digits(cell as nat),
{
    ::h3o::CellIndex::try_from(cell).expect("a cell index").to_string()
}

/// `CellIndex::children`: the descendants of a cell at a resolution that is
/// not coarser than its own, each a cell at that resolution. There is at
/// least one: at its own resolution the cell itself.
#[verifier::external_body]
pub(crate) fn cell_children(cell: u64, res: u8) -> (r: Vec<u64>)
    requires
        h3_cell(cell),
        resolution_of(cell) <= res <= MAX_RESOLUTION,
        res - resolution_of(cell) <= MAX_DESCENT,
    ensures
        r@ == h3_children(cell, res),
        all_cells_at(r@, res),
        r@.len() >= 1,
{
    let parent = ::h3o::CellIndex::try_from(cell).expect("a cell index");
    let res = ::h3o::Resolution::try_from(res).expect("a resolution");
    parent.children(res).map(u64::from).collect()
}

/// `CellIndex::grid_disk` with one step: the cell and the cells around it.
#[verifier::external_body]
pub(crate) fn cell_disk(cell: u64) -> (r: Vec<u64>)
    requires
        h3_cell(cell),
    ensures
        r@ == h3_disk(cell, 1),
        all_cells(r@),
{
    let origin = ::h3o::CellIndex::try_from(cell).expect("a cell index");
    let disk: Vec<::h3o::CellIndex> = origin.grid_disk(1);
    disk.into_iter().map(u64::from).collect()
}

/// `CellIndex::base_cells`: the 122 cells at resolution zero, in the order of
/// their numbers.
#[verifier::external_body]
pub(crate) fn base_cells() -> (r: Vec<u64>)
    ensures
        r@.len() == BASE_CELL_COUNT,
        forall|i: int| 0 <= i < r@.len() ==> (#[trigger] r@[i]) == base_cell_index(i),
        all_cells_at(r@, 0),
{
    ::h3o::CellIndex::base_cells().map(u64::from).collect()
}

/// The centre of a cell: what `LatLng::from` gives for it.
pub uninterp spec fn h3_latlng(cell: u64) -> ::h3o::LatLng;

/// `LatLng::from` a cell: the centre of a cell.
#[verifier::external_body]
pub(crate) fn cell_latlng(cell: u64) -> (r: ::h3o::LatLng)
    requires
        h3_cell(cell),
    ensures
        r == h3_latlng(cell),
{
    ::h3o::LatLng::from(::h3o::CellIndex::try_from(cell).expect("a cell index"))
}

/// The boundary of a cell as a polygon in degrees: what `CellIndex::boundary`
/// gives for it, made a `geo::Polygon`.
pub uninterp spec fn h3_boundary(cell: u64) -> Polygon;

/// `CellIndex::boundary`, as a `geo::Polygon` in degrees. The crate holds
/// positions as angles that are numbers, so every coordinate of the polygon
/// is within the limit of coordinates.
#[verifier::external_body]
pub(crate) fn cell_boundary(cell: u64) -> (r: Polygon)
    requires
        h3_cell(cell),
    ensures
        r == h3_boundary(cell),
        bounded_polygon(r),
{
    let ring = ::h3o::CellIndex::try_from(cell).expect("a cell index").boundary();
    Polygon { inner: geo::Polygon::new(geo::LineString::from(ring), vec![]) }
}

/// The cell at resolution `res` that holds a position given in degrees, if
/// its coordinates are numbers: what `LatLng::new` and `LatLng::to_cell` give.
pub uninterp spec fn h3_cell_at(point: Point, res: u8) -> Option<u64>;

/// `LatLng::new` and `LatLng::to_cell`: the cell at a resolution that holds a
/// position given in degrees; none where a coordinate is not finite.
#[verifier::external_body]
pub(crate) fn cell_at(point: &Point, res: u8) -> (r: Option<u64>)
    requires
        res <= MAX_RESOLUTION,
    ensures
        r == h3_cell_at(*point, res),
        r.is_some() ==> h3_cell(r.unwrap()) && resolution_of(r.unwrap()) == res,
{
    let res = ::h3o::Resolution::try_from(res).expect("a resolution");
    match ::h3o::LatLng::new(point.inner.y(), point.inner.x()) {
        Ok(position) => Some(u64::from(position.to_cell(res))),
        Err(_) => None,
    }
}

/// The cells at resolution `res` that cover a rectangle given in degrees:
/// what the tiler of the crate lists for it in the mode that covers.
pub uninterp spec fn h3_cover(rect: Rect, res: u8) -> Seq<u64>;

/// `TilerBuilder`, `Tiler::add` and `Tiler::into_coverage` in the mode that
/// covers: the cells at a resolution that a rectangle touches. A rectangle
/// that the tiler refuses is covered by no cell.
#[verifier::external_body]
pub(crate) fn cover(rect: &Rect, res: u8) -> (r: Vec<u64>)
    requires
        res <= MAX_RESOLUTION,
    ensures
        r@ == h3_cover(*rect, res),
        all_cells_at(r@, res),
{
    let res = ::h3o::Resolution::try_from(res).expect("a resolution");
    let mut tiler = ::h3o::geom::TilerBuilder::new(res)
        .containment_mode(::h3o::geom::ContainmentMode::Covers)
        .build();
    let _ = tiler.add(rect.inner.to_polygon());
    tiler.into_coverage().map(u64::from).collect()
}

/// A position of the crate as a point in degrees: what `LatLng::lng` and
/// `LatLng::lat` give for it.
pub uninterp spec fn latlng_point(latlng: ::h3o::LatLng) -> Point;

/// `LatLng::lng` and `LatLng::lat`: the position in degrees as a point.
#[verifier::external_body]
pub fn latlng_to_point(latlng: ::h3o::LatLng) -> (r: Point)
    ensures
        r == latlng_point(latlng),
{
    Point { inner: geo::Point::new(latlng.lng(), latlng.lat()) }
}

/// The resolution of the grid for a refinement level; there is one for the
/// levels 0 to 15.
pub fn refinement_level_to_h3_resolution(refinement_level: RefinementLevel) -> (r: Result<
    u8,
    GeoPlegmaError,
>)
    ensures
        refinement_level@ <= MAX_RESOLUTION ==> r == Ok::<u8, GeoPlegmaError>(
            refinement_level@ as u8,
        ),
        refinement_level@ > MAX_RESOLUTION ==> r matches Err(
            GeoPlegmaError::H3o(H3oError::CannotTranslateToH3Resolution { .. }),
        ),
{
    let level = refinement_level.get();
    if level <= MAX_RESOLUTION as i32 {
        Ok(level as u8)
    } else {
        Err(
            GeoPlegmaError::H3o(
                H3oError::CannotTranslateToH3Resolution { rf: refinement_level.to_string() },
            ),
        )
    }
}

/// The identifier of a cell: its index in hexadecimal.
pub open spec fn hex_id(cell: u64) -> ZoneIdView {
    ZoneIdView::HexId(hex_digits(cell as nat))
}

/// The identifiers of a run of cells.
pub open spec fn hex_ids(cells: Seq<u64>) -> Seq<ZoneIdView> {
    cells.map_values(|c: u64| hex_id(c))
}

/// The index of any 64-bit number in hexadecimal is a valid hexadecimal code.
pub proof fn lemma_cell_text_valid(cell: u64)
    ensures
        valid_hex_text(hex_digits(cell as nat)),
{
    lemma_hex_digits_value(cell as nat);
    lemma_hex_digits_len(cell);
}

/// The identifier of a cell.
pub fn cell_id(cell: u64) -> (id: ZoneId)
    requires
        h3_cell(cell),
    ensures
        id@ == hex_id(cell),
{
    proof {
        lemma_cell_text_valid(cell);
    }
    let text = cell_text(cell);
    match ZoneId::new_hex(text.as_str()) {
        Ok(id) => id,
        Err(_) => ZoneId::default(),
    }
}

/// The identifiers of a run of cells.
pub fn cell_ids(cells: &Vec<u64>) -> (ids: Vec<ZoneId>)
    requires
        all_cells(cells@),
    ensures
        id_views(ids@) == hex_ids(cells@),
{
    let mut ids: Vec<ZoneId> = Vec::new();
    let mut i: usize = 0;
    while i < cells.len()
        invariant
            i <= cells.len(),
            all_cells(cells@),
            ids@.len() == i,
            forall|j: int| 0 <= j < i ==> (#[trigger] ids@[j])@ == hex_id(cells@[j]),
        decreases cells.len() - i,
    {
        ids.push(cell_id(cells[i]));
        i += 1;
    }
    assert(id_views(ids@) =~= hex_ids(cells@));
    ids
}

/// The indexes of a run of cells, each in hexadecimal.
pub fn children_to_strings(cells: &Vec<u64>) -> (out: Vec<String>)
    requires
        all_cells(cells@),
    ensures
        out@.len() == cells@.len(),
        forall|i: int| 0 <= i < out@.len() ==> (#[trigger] out@[i])@ == hex_digits(cells@[i] as nat),
{
    let mut out: Vec<String> = Vec::new();
    let mut i: usize = 0;
    while i < cells.len()
        invariant
            i <= cells.len(),
            all_cells(cells@),
            out@.len() == i,
            forall|j: int| 0 <= j < i ==> (#[trigger] out@[j])@ == hex_digits(cells@[j] as nat),
        decreases cells.len() - i,
    {
        out.push(cell_text(cells[i]));
        i += 1;
    }
    out
}

/// The cells that a ring holds: its entries without the gaps.
pub open spec fn present(ring: Seq<Option<u64>>) -> Seq<u64>
    decreases ring.len(),
{
    if ring.len() == 0 {
        Seq::<u64>::empty()
    } else if ring.last() is Some {
        present(ring.drop_last()).push(ring.last()->Some_0)
    } else {
        present(ring.drop_last())
    }
}

/// The indexes of the cells of a ring, each in hexadecimal; a gap in the ring
/// gives nothing.
pub fn ring_to_strings(ring: &Vec<Option<u64>>) -> (out: Vec<String>)
    requires
        forall|i: int| 0 <= i < ring@.len() && (#[trigger] ring@[i]) is Some ==> h3_cell(ring@[i]->Some_0),
    ensures
        out@.len() == present(ring@).len(),
        forall|i: int|
            0 <= i < out@.len() ==> (#[trigger] out@[i])@ == hex_digits(present(ring@)[i] as nat),
{
    let mut out: Vec<String> = Vec::new();
    let mut i: usize = 0;
    assert(ring@.take(0) =~= Seq::<Option<u64>>::empty());
    while i < ring.len()
        invariant
            i <= ring.len(),
            forall|k: int|
                0 <= k < ring@.len() && (#[trigger] ring@[k]) is Some ==> h3_cell(ring@[k]->Some_0),
            out@.len() == present(ring@.take(i as int)).len(),
            forall|j: int|
                0 <= j < out@.len() ==> (#[trigger] out@[j])@ == hex_digits(
                    present(ring@.take(i as int))[j] as nat,
                ),
        decreases ring.len() - i,
    {
        proof {
            assert(ring@.take(i + 1).drop_last() =~= ring@.take(i as int));
            assert(ring@.take(i + 1).last() == ring@[i as int]);
        }
        match ring[i] {
            Some(cell) => {
                out.push(cell_text(cell));
            },
            None => {},
        }
        i += 1;
    }
    assert(ring@.take(ring.len() as int) =~= ring@);
    out
}

/// A query with `cfg` cannot list the children of `cell`: they are asked for,
/// and the cell is at the finest resolution.
pub open spec fn at_limit(cell: u64, cfg: DggrsPortConfig) -> bool {
    cfg.children && resolution_of(cell) >= MAX_RESOLUTION
}

/// `z` is the zone of `cell` as a query with `cfg` gives it: each optional
/// field is there exactly where its switch is on. The centre and the
/// boundary are those of the cell, the vertex count is the number of corners
/// of the convex hull of the boundary, the area its geodesic area, the
/// children are the cells one resolution below, the neighbours are the cells
/// within one step.
pub open spec fn zone_of_cell(z: Zone, cell: u64, cfg: DggrsPortConfig) -> bool {
    &&& z.id@ == hex_id(cell)
    &&& z.region == if cfg.region {
        Some(h3_boundary(cell))
    } else {
        None
    }
    &&& z.center == if cfg.center {
        Some(latlng_point(h3_latlng(cell)))
    } else {
        None
    }
    &&& z.vertex_count == if cfg.vertex_count {
        Some(corners_of(hull_coords(h3_boundary(cell)) as int) as u32)
    } else {
        None
    }
    &&& z.area_sqm == if cfg.area_sqm {
        Some(SquareMeters { bits: geodesic_area_bits(h3_boundary(cell)) })
    } else {
        None
    }
    &&& match z.children {
        Some(c) => cfg.children && id_views(c@) == hex_ids(
            h3_children(cell, (resolution_of(cell) + 1) as u8),
        ),
        None => !cfg.children,
    }
    &&& match z.neighbors {
        Some(n) => cfg.neighbors && id_views(n@) == hex_ids(h3_disk(cell, 1)),
        None => !cfg.neighbors,
    }
}

/// The zone of one cell.
pub fn zone_from_cell(cell: u64, cfg: &DggrsPortConfig) -> (r: Result<Zone, GeoPlegmaError>)
    requires
        h3_cell(cell),
    ensures
        at_limit(cell, *cfg) ==> (r matches Err(
            GeoPlegmaError::H3o(H3oError::ResolutionLimitReached { zone_id }),
        ) && zone_id@ == hex_digits(cell as nat)),
        !at_limit(cell, *cfg) ==> (r matches Ok(z) && zone_of_cell(z, cell, *cfg)),
{
    let id = cell_id(cell);
    let center = if cfg.center {
        Some(latlng_to_point(cell_latlng(cell)))
    } else {
        None
    };
    let mut region: Option<Polygon> = None;
    let mut area_sqm = None;
    let mut vertex_count = None;
    if cfg.region || cfg.area_sqm || cfg.vertex_count {
        let boundary = cell_boundary(cell);
        if cfg.area_sqm {
            area_sqm = Some(geodesic_area(&boundary));
        }
        if cfg.vertex_count {
            vertex_count = Some(corner_count_convex(&boundary));
        }
        if cfg.region {
            region = Some(boundary);
        }
    }
    let children = if cfg.children {
        let res = cell_resolution(cell);
        if res >= MAX_RESOLUTION {
            return Err(
                GeoPlegmaError::H3o(H3oError::ResolutionLimitReached { zone_id: cell_text(cell) }),
            );
        }
        Some(cell_ids(&cell_children(cell, res + 1)))
    } else {
        None
    };
    let neighbors = if cfg.neighbors {
        Some(cell_ids(&cell_disk(cell)))
    } else {
        None
    };
    Ok(Zone { id, region, center, vertex_count, children, neighbors, area_sqm })
}

/// No cell of `cells` stops a query with `cfg`.
pub open spec fn none_at_limit(cells: Seq<u64>, cfg: DggrsPortConfig) -> bool {
    forall|j: int| 0 <= j < cells.len() ==> !at_limit(#[trigger] cells[j], cfg)
}

/// What a query with `cfg` on the cells `cells` gives: the zones of the cells,
/// in their order, or the error of the first cell whose children cannot be
/// listed.
pub open spec fn zones_of_cells(
    r: Result<Zones, GeoPlegmaError>,
    cells: Seq<u64>,
    cfg: DggrsPortConfig,
) -> bool {
    match r {
        Ok(z) => {
            &&& none_at_limit(cells, cfg)
            &&& z.zones@.len() == cells.len()
            &&& forall|i: int|
                0 <= i < cells.len() ==> zone_of_cell(#[trigger] z.zones@[i], cells[i], cfg)
        },
        Err(GeoPlegmaError::H3o(H3oError::ResolutionLimitReached { zone_id })) => exists|k: int|
            {
                &&& 0 <= k < cells.len()
                &&& at_limit(#[trigger] cells[k], cfg)
                &&& zone_id@ == hex_digits(cells[k] as nat)
                &&& none_at_limit(cells.take(k), cfg)
            },
        Err(_) => false,
    }
}

/// Cells at a resolution that is not the finest, or a query that does not
/// ask for children, give zones and no error.
pub proof fn lemma_zones_given(
    r: Result<Zones, GeoPlegmaError>,
    cells: Seq<u64>,
    res: u8,
    cfg: DggrsPortConfig,
)
    requires
        zones_of_cells(r, cells, cfg),
        all_cells_at(cells, res),
        res < MAX_RESOLUTION || !cfg.children,
    ensures
        r matches Ok(z) && z.zones@.len() == cells.len(),
{
}

/// A zone as a query with `cfg` gives it holds nothing that `cfg` switches off.
pub proof fn lemma_zone_of_cell_gated(z: Zone, cell: u64, cfg: DggrsPortConfig)
    requires
        zone_of_cell(z, cell, cfg),
    ensures
        gated(z, cfg),
{
}

/// The zones of a run of cells, in their order.
pub fn to_zones(h3o_zones: Vec<u64>, conf: DggrsPortConfig) -> (r: Result<Zones, GeoPlegmaError>)
    requires
        all_cells(h3o_zones@),
    ensures
        zones_of_cells(r, h3o_zones@, conf),
        r matches Ok(z) ==> all_gated(z.zones@, conf),
{
    let mut zones: Vec<Zone> = Vec::new();
    let mut i: usize = 0;
    while i < h3o_zones.len()
        invariant
            i <= h3o_zones.len(),
            all_cells(h3o_zones@),
            zones@.len() == i,
            none_at_limit(h3o_zones@.take(i as int), conf),
            forall|j: int|
                0 <= j < i ==> zone_of_cell(#[trigger] zones@[j], h3o_zones@[j], conf),
        decreases h3o_zones.len() - i,
    {
        let cell = h3o_zones[i];
        match zone_from_cell(cell, &conf) {
            Ok(z) => {
                zones.push(z);
                assert forall|j: int| 0 <= j < i + 1 implies !at_limit(
                    #[trigger] h3o_zones@.take(i + 1)[j],
                    conf,
                ) by {
                    if j < i {
                        assert(h3o_zones@.take(i + 1)[j] == h3o_zones@.take(i as int)[j]);
                    }
                }
            },
            Err(e) => {
                assert(at_limit(h3o_zones@[i as int], conf));
                return Err(e);
            },
        }
        i += 1;
    }
    assert(h3o_zones@.take(h3o_zones.len() as int) =~= h3o_zones@);
    assert forall|j: int| 0 <= j < zones@.len() implies gated(#[trigger] zones@[j], conf) by {
        lemma_zone_of_cell_gated(zones@[j], h3o_zones@[j], conf);
    }
    Ok(Zones { zones })
}

/// Whether every number in `cells` is the index of a cell.
pub fn are_cells(cells: &Vec<u64>) -> (b: bool)
    ensures
        b == all_cells(cells@),
{
    let mut i: usize = 0;
    while i < cells.len()
        invariant
            i <= cells.len(),
            forall|j: int| 0 <= j < i ==> h3_cell(#[trigger] cells@[j]),
        decreases cells.len() - i,
    {
        if !is_cell(cells[i]) {
            return false;
        }
        i += 1;
    }
    true
}

/// The indexes of a run of cells in hexadecimal, where each number is the
/// index of a cell; nothing for any other run.
pub fn cell_strings(cells: &Vec<u64>) -> (out: Option<Vec<String>>)
    ensures
        out is Some <==> all_cells(cells@),
        out matches Some(texts) ==> texts@.len() == cells@.len() && forall|i: int|
            0 <= i < texts@.len() ==> (#[trigger] texts@[i])@ == hex_digits(cells@[i] as nat),
{
    if are_cells(cells) {
        Some(children_to_strings(cells))
    } else {
        None
    }
}

/// Every entry of the ring is a gap or the index of a cell.
pub open spec fn ring_of_cells(ring: Seq<Option<u64>>) -> bool {
    forall|i: int| 0 <= i < ring.len() && (#[trigger] ring[i]) is Some ==> h3_cell(ring[i]->Some_0)
}

/// The indexes of the cells of a ring in hexadecimal, where every entry is
/// a gap or the index of a cell; nothing for any other ring.
pub fn ring_strings(ring: &Vec<Option<u64>>) -> (out: Option<Vec<String>>)
    ensures
        out is Some <==> ring_of_cells(ring@),
        out matches Some(texts) ==> texts@.len() == present(ring@).len() && forall|i: int|
            0 <= i < texts@.len() ==> (#[trigger] texts@[i])@ == hex_digits(
                present(ring@)[i] as nat,
            ),
{
    let mut i: usize = 0;
    while i < ring.len()
        invariant
            i <= ring.len(),
            forall|j: int|
                0 <= j < i && (#[trigger] ring@[j]) is Some ==> h3_cell(ring@[j]->Some_0),
        decreases ring.len() - i,
    {
        match ring[i] {
            Some(cell) => {
                if !is_cell(cell) {
                    return None;
                }
            },
            None => {},
        }
        i += 1;
    }
    Some(ring_to_strings(ring))
}

/// The zones of a run of numbers, where each is the index of a cell; nothing
/// for any other run.
pub fn zones_of_indexes(cells: Vec<u64>, conf: DggrsPortConfig) -> (r: Option<
    Result<Zones, GeoPlegmaError>,
>)
    ensures
        r is Some <==> all_cells(cells@),
        r matches Some(zones) ==> zones_of_cells(zones, cells@, conf),
{
    if are_cells(&cells) {
        Some(to_zones(cells, conf))
    } else {
        None
    }
}

} // verus!
