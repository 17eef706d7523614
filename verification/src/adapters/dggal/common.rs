//! Zones of the native grid library and what the `dggal` crate computes of
//! them. A zone is carried as its 64-bit number. The library is foreign code:
//! of what it returns nothing is known, and every case is provided for.
use crate::error::{DggalError, GeoPlegmaError};
use crate::geometry::{geodesic_area, Point, Polygon, Rect, SquareMeters};
use crate::models::{id_views, Zone, ZoneId, ZoneIdView, Zones};
use crate::ports::{all_gated, gated, DggrsPortConfig};

use vstd::prelude::*;

verus! {

/// `dggal::DGGAL`, the context of the library, of which a process holds one.
#[verifier::external_type_specification]
#[verifier::external_body]
pub struct ExDggal(dggal::DGGAL);

/// `dggal::DGGRS`, the handle of one grid.
#[verifier::external_type_specification]
#[verifier::external_body]
pub struct ExDggrs(dggal::DGGRS);

/// `dggal_sys::GeoPoint`, a position in radians.
#[verifier::external_type_specification]
#[verifier::external_body]
pub struct ExGeoPoint(dggal::GeoPoint);

/// `dggal_sys::GeoExtent`, a rectangle in radians.
#[verifier::external_type_specification]
#[verifier::external_body]
pub struct ExGeoExtent(dggal::GeoExtent);

/// `DGGAL::newDGGRS`: the handle of the grid that the library knows by
/// `name`, if it knows one. The name may hold no NUL.
#[verifier::external_body]
pub(crate) fn open_grid(context: &dggal::DGGAL, name: &str) -> (r: Option<dggal::DGGRS>)
    requires
        !name@.contains('\0'),
{
    context.newDGGRS(name)
}

/// A position in degrees as the library takes it, in radians.
pub uninterp spec fn geo_position(point: Point) -> dggal::GeoPoint;

/// A rectangle in degrees as the library takes it, in radians.
pub uninterp spec fn geo_extent(rect: Rect) -> dggal::GeoExtent;

/// A position in degrees as the library takes it: `to_radians` of both
/// coordinates.
#[verifier::external_body]
pub fn to_geo_point(pt: &Point) -> (r: dggal::GeoPoint)
    ensures
        r == geo_position(*pt),
{
    dggal::GeoPoint { lat: pt.inner.y().to_radians(), lon: pt.inner.x().to_radians() }
}

/// A rectangle in degrees as the library takes it: `to_radians` of the
/// coordinates of its lower left and upper right corners.
#[verifier::external_body]
pub fn bbox_to_geoextent(bbox: &Rect) -> (r: dggal::GeoExtent)
    ensures
        r == geo_extent(*bbox),
{
    let (min, max) = (bbox.inner.min(), bbox.inner.max());
    dggal::GeoExtent {
        ll: dggal::GeoPoint { lat: min.y.to_radians(), lon: min.x.to_radians() },
        ur: dggal::GeoPoint { lat: max.y.to_radians(), lon: max.x.to_radians() },
    }
}

/// `DGGRS::listZones`: the zones at a level that meet an extent.
#[verifier::external_body]
pub(crate) fn list_zones(grid: &dggal::DGGRS, level: i32, extent: &dggal::GeoExtent) -> (r: Vec<
    u64,
>) {
    grid.listZones(level, extent)
}

/// `DGGRS::getZoneFromWGS84Centroid`: the zone at a level that holds a position.
#[verifier::external_body]
pub(crate) fn zone_at(grid: &dggal::DGGRS, level: i32, position: &dggal::GeoPoint) -> (r: u64) {
    grid.getZoneFromWGS84Centroid(level, position)
}

/// `DGGRS::getSubZones`: the zones that lie a depth below a parent.
#[verifier::external_body]
pub(crate) fn sub_zones(grid: &dggal::DGGRS, parent: u64, depth: i32) -> (r: Vec<u64>) {
    grid.getSubZones(parent, depth)
}

/// `DGGRS::getZoneLevel`: the level of a zone, as the library reports it.
#[verifier::external_body]
pub(crate) fn zone_level(grid: &dggal::DGGRS, zone: u64) -> (r: i32) {
    grid.getZoneLevel(zone)
}

/// `DGGRS::getMaxDGGRSZoneLevel`: the greatest refinement level of the
/// grid, as the library reports it.
#[verifier::external_body]
pub(crate) fn max_level(grid: &dggal::DGGRS) -> (r: i32) {
    grid.getMaxDGGRSZoneLevel()
}

/// `DGGRS::countZoneEdges`: the number of edges of a zone, as the library
/// reports it.
#[verifier::external_body]
pub(crate) fn count_edges(grid: &dggal::DGGRS, zone: u64) -> (r: i32) {
    grid.countZoneEdges(zone)
}

/// `DGGRS::getZoneWGS84Centroid`, with `to_degrees` of both coordinates: the
/// centroid of a zone in degrees.
#[verifier::external_body]
pub(crate) fn zone_centroid(grid: &dggal::DGGRS, zone: u64) -> (r: Point) {
    let c = grid.getZoneWGS84Centroid(zone);
    Point { inner: geo::Point::new(c.lon.to_degrees(), c.lat.to_degrees()) }
}

/// `DGGRS::getZoneWGS84Vertices`, with `to_degrees` of the coordinates and
/// `geo::Polygon::new`: the corners of a zone as a closed ring in degrees.
#[verifier::external_body]
pub(crate) fn zone_vertices(grid: &dggal::DGGRS, zone: u64) -> (r: Polygon) {
    let ring: Vec<geo::Coord> = grid
        .getZoneWGS84Vertices(zone)
        .iter()
        .map(|p| geo::Coord { x: p.lon.to_degrees(), y: p.lat.to_degrees() })
        .collect();
    Polygon { inner: geo::Polygon::new(geo::LineString::from(ring), vec![]) }
}

/// `DGGRS::getZoneRefinedWGS84Vertices`, with `to_degrees` of the coordinates
/// and `geo::Polygon::new`: the boundary of a zone with vertices between its
/// corners, as a closed ring in degrees.
#[verifier::external_body]
pub(crate) fn zone_refined_vertices(grid: &dggal::DGGRS, zone: u64, refinement: i32) -> (r:
    Polygon) {
    let ring: Vec<geo::Coord> = grid
        .getZoneRefinedWGS84Vertices(zone, refinement)
        .iter()
        .map(|p| geo::Coord { x: p.lon.to_degrees(), y: p.lat.to_degrees() })
        .collect();
    Polygon { inner: geo::Polygon::new(geo::LineString::from(ring), vec![]) }
}

/// `DGGRS::getZoneChildren`: the zones one level below a zone.
#[verifier::external_body]
pub(crate) fn zone_children(grid: &dggal::DGGRS, zone: u64) -> (r: Vec<u64>) {
    grid.getZoneChildren(zone)
}

/// `DGGRS::getZoneNeighbors`: the zones around a zone. The library also says
/// how each of them lies to the zone; that is not passed on.
#[verifier::external_body]
pub(crate) fn zone_neighbors(grid: &dggal::DGGRS, zone: u64) -> (r: Vec<u64>) {
    let mut relations = [0i32; 6];
    grid.getZoneNeighbors(zone, &mut relations)
}

/// The identifiers of a run of zone numbers.
pub open spec fn int_ids(zones: Seq<u64>) -> Seq<ZoneIdView> {
    zones.map_values(|z: u64| ZoneIdView::IntId(z))
}

/// The identifiers of a run of zone numbers.
pub fn zone_ids(zones: &Vec<u64>) -> (ids: Vec<ZoneId>)
    ensures
        id_views(ids@) == int_ids(zones@),
{
    let mut ids: Vec<ZoneId> = Vec::new();
    let mut i: usize = 0;
    while i < zones.len()
        invariant
            i <= zones.len(),
            ids@.len() == i,
            forall|j: int| 0 <= j < i ==> (#[trigger] ids@[j])@ == ZoneIdView::IntId(zones@[j]),
        decreases zones.len() - i,
    {
        ids.push(ZoneId::new_int(zones[i]));
        i += 1;
    }
    assert(id_views(ids@) =~= int_ids(zones@));
    ids
}

/// What the library gave for one zone, as far as the query asked.
pub struct ZoneParts {
    pub center: Option<Point>,
    pub region: Option<Polygon>,
    pub area_sqm: Option<SquareMeters>,
    pub edges: Option<i32>,
    pub children: Option<Vec<u64>>,
    pub neighbors: Option<Vec<u64>>,
}

/// `z` is the zone `zone` made of `parts`: every part as it was given, the
/// numbers of children and neighbours as identifiers, the edge count as the
/// vertex count.
pub open spec fn zone_of_parts(z: Zone, zone: u64, parts: ZoneParts) -> bool {
    &&& z.id@ == ZoneIdView::IntId(zone)
    &&& z.center == parts.center
    &&& z.region == parts.region
    &&& z.area_sqm == parts.area_sqm
    &&& match parts.edges {
        Some(n) => z.vertex_count == Some(n as u32),
        None => z.vertex_count is None,
    }
    &&& match parts.children {
        Some(c) => z.children is Some && id_views(z.children->Some_0@) == int_ids(c@),
        None => z.children is None,
    }
    &&& match parts.neighbors {
        Some(n) => z.neighbors is Some && id_views(z.neighbors->Some_0@) == int_ids(n@),
        None => z.neighbors is None,
    }
}

/// Makes a zone of what the library gave for it. An edge count below zero
/// fits no vertex count and is an error; every other input gives the zone.
pub fn assemble_zone(zone: u64, parts: ZoneParts) -> (r: Result<Zone, GeoPlegmaError>)
    ensures
        match parts.edges {
            Some(n) if n < 0 => r matches Err(
                GeoPlegmaError::Dggal(DggalError::EdgeCountConversion { zone_id, count }),
            ) && count == n && zone_id@ == ZoneIdView::IntId(zone).text(),
            _ => r matches Ok(z) && zone_of_parts(z, zone, parts),
        },
{
    let id = ZoneId::new_int(zone);
    let vertex_count = match parts.edges {
        Some(n) => {
            if n < 0 {
                return Err(
                    GeoPlegmaError::Dggal(
                        DggalError::EdgeCountConversion { zone_id: id.to_string(), count: n },
                    ),
                );
            }
            Some(n as u32)
        },
        None => None,
    };
    let children = match &parts.children {
        Some(c) => Some(zone_ids(c)),
        None => None,
    };
    let neighbors = match &parts.neighbors {
        Some(n) => Some(zone_ids(n)),
        None => None,
    };
    Ok(
        Zone {
            id,
            region: parts.region,
            center: parts.center,
            vertex_count,
            children,
            neighbors,
            area_sqm: parts.area_sqm,
        },
    )
}

/// `parts` hold exactly what a query with `conf` asks for.
pub open spec fn parts_for(parts: ZoneParts, conf: DggrsPortConfig) -> bool {
    &&& parts.center is Some <==> conf.center
    &&& parts.region is Some <==> conf.region
    &&& parts.area_sqm is Some <==> conf.area_sqm
    &&& parts.edges is Some <==> conf.vertex_count
    &&& parts.children is Some <==> conf.children
    &&& parts.neighbors is Some <==> conf.neighbors
}

/// Asks the library for what a query with `conf` wants of one zone. The
/// boundary is fetched for the region and for the area, densified where
/// `conf` says so, and kept only for the region.
pub fn fetch_parts(grid: &dggal::DGGRS, zone: u64, conf: &DggrsPortConfig) -> (parts: ZoneParts)
    ensures
        parts_for(parts, *conf),
{
    let center = if conf.center {
        Some(zone_centroid(grid, zone))
    } else {
        None
    };
    let mut region = None;
    let mut area_sqm = None;
    if conf.region || conf.area_sqm {
        let boundary = if conf.densify {
            zone_refined_vertices(grid, zone, 0)
        } else {
            zone_vertices(grid, zone)
        };
        if conf.area_sqm {
            area_sqm = Some(geodesic_area(&boundary));
        }
        if conf.region {
            region = Some(boundary);
        }
    }
    let edges = if conf.vertex_count {
        Some(count_edges(grid, zone))
    } else {
        None
    };
    let children = if conf.children {
        Some(zone_children(grid, zone))
    } else {
        None
    };
    let neighbors = if conf.neighbors {
        Some(zone_neighbors(grid, zone))
    } else {
        None
    };
    ZoneParts { center, region, area_sqm, edges, children, neighbors }
}

/// `z` is the zone `zone` as a query with `conf` gives it: each optional
/// field is there exactly where its switch is on.
pub open spec fn zone_for(z: Zone, zone: u64, conf: DggrsPortConfig) -> bool {
    &&& z.id@ == ZoneIdView::IntId(zone)
    &&& z.center is Some <==> conf.center
    &&& z.region is Some <==> conf.region
    &&& z.area_sqm is Some <==> conf.area_sqm
    &&& z.vertex_count is Some <==> conf.vertex_count
    &&& z.children is Some <==> conf.children
    &&& z.neighbors is Some <==> conf.neighbors
}

/// What a query with `conf` on the zones `zones` gives: their zones, in
/// their order, or, where vertex counts are asked for, the error of an edge
/// count that the library reported below zero.
pub open spec fn zones_for(
    r: Result<Zones, GeoPlegmaError>,
    zones: Seq<u64>,
    conf: DggrsPortConfig,
) -> bool {
    match r {
        Ok(z) => {
            &&& z.zones@.len() == zones.len()
            &&& forall|i: int|
                0 <= i < zones.len() ==> zone_for(#[trigger] z.zones@[i], zones[i], conf)
        },
        Err(GeoPlegmaError::Dggal(DggalError::EdgeCountConversion { count, .. })) => {
            conf.vertex_count && count < 0
        },
        Err(_) => false,
    }
}

/// The zones of a run of zone numbers, in their order.
pub fn to_zones(grid: &dggal::DGGRS, dggal_zones: Vec<u64>, conf: DggrsPortConfig) -> (r: Result<
    Zones,
    GeoPlegmaError,
>)
    ensures
        zones_for(r, dggal_zones@, conf),
        r matches Ok(z) ==> all_gated(z.zones@, conf),
{
    let mut zones: Vec<Zone> = Vec::new();
    let mut i: usize = 0;
    while i < dggal_zones.len()
        invariant
            i <= dggal_zones.len(),
            zones@.len() == i,
            forall|j: int|
                0 <= j < i ==> zone_for(#[trigger] zones@[j], dggal_zones@[j], conf),
        decreases dggal_zones.len() - i,
    {
        let zone = dggal_zones[i];
        let parts = fetch_parts(grid, zone, &conf);
        match assemble_zone(zone, parts) {
            Ok(z) => {
                zones.push(z);
            },
            Err(e) => {
                return Err(e);
            },
        }
        i += 1;
    }
    assert forall|j: int| 0 <= j < zones@.len() implies gated(#[trigger] zones@[j], conf) by {
        assert(zone_for(zones@[j], dggal_zones@[j], conf));
    }
    Ok(Zones { zones })
}

} // verus!
