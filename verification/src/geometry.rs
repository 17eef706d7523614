//! Geometry as the library carries it: values of the `geo` crate that pass
//! through the verified logic unread. Coordinates are degrees of longitude
//! (`x`) and latitude (`y`).
use geo::{ConvexHull, CoordsIter, GeodesicArea, Intersects};
use std::num::ParseFloatError;
use vstd::prelude::*;

verus! {

/// A position; holds a `geo::Point`.
#[verifier::external_body]
#[derive(Debug)]
pub struct Point {
    pub inner: geo::Point,
}

/// A closed ring; holds a `geo::Polygon` without holes, whose first vertex
/// comes again at the end.
#[verifier::external_body]
#[derive(Debug)]
pub struct Polygon {
    pub inner: geo::Polygon,
}

/// An axis-aligned rectangle; holds a `geo::Rect`.
#[verifier::external_body]
#[derive(Debug)]
pub struct Rect {
    pub inner: geo::Rect,
}

impl Clone for Point {
    /// `geo::Point::clone`: a copy of the position, equal to it.
    #[verifier::external_body]
    fn clone(&self) -> (r: Self)
        ensures
            r == *self,
    {
        Point { inner: self.inner.clone() }
    }
}

impl Clone for Polygon {
    /// `geo::Polygon::clone`: a copy of the ring, equal to it.
    #[verifier::external_body]
    fn clone(&self) -> (r: Self)
        ensures
            r == *self,
    {
        Polygon { inner: self.inner.clone() }
    }
}

impl Clone for Rect {
    /// `geo::Rect::clone`: a copy of the rectangle, equal to it.
    #[verifier::external_body]
    fn clone(&self) -> (r: Self)
        ensures
            r == *self,
    {
        Rect { inner: self.inner.clone() }
    }
}

/// An area in square metres, carried as the bit pattern of an IEEE 754 double.
#[derive(Debug, Clone, Copy, PartialEq, Eq, Structural)]
pub struct SquareMeters {
    pub bits: u64,
}

/// Whether the standard number parser reads `token` as a floating-point numeral.
pub uninterp spec fn float_numeral(token: Seq<char>) -> bool;

/// The position whose `x` and `y` the standard number parser reads from two
/// tokens, where it reads both.
pub uninterp spec fn parsed_point(x: Seq<char>, y: Seq<char>) -> Point;

/// `str::parse` into a double, twice, and `geo::Point::new`: the position
/// whose `x` and `y` the two tokens write. It fails exactly where the parser
/// refuses a token, with the error of the first one refused.
#[verifier::external_body]
pub(crate) fn point_from_text(x: &str, y: &str) -> (r: Result<Point, ParseFloatError>)
    ensures
        r.is_ok() == (float_numeral(x@) && float_numeral(y@)),
        r.is_ok() ==> r.unwrap() == parsed_point(x@, y@),
{
    match (x.parse(), y.parse()) {
        (Ok(x), Ok(y)) => Ok(Point { inner: geo::Point::new(x, y) }),
        (Err(e), _) => Err(e),
        (_, Err(e)) => Err(e),
    }
}

/// Whether a position lies in a rectangle, its border included: what
/// `Intersects::intersects` of the `geo` crate gives for the two. A position
/// with a coordinate that is no number lies in no rectangle.
pub uninterp spec fn point_in_rect(point: Point, rect: Rect) -> bool;

/// `Intersects::intersects` of a rectangle and a point.
#[verifier::external_body]
pub(crate) fn within(point: &Point, rect: &Rect) -> (b: bool)
    ensures
        b == point_in_rect(*point, *rect),
{
    rect.inner.intersects(&point.inner)
}

/// The polygon without holes that `geo::Polygon::new` makes of the line
/// string through the positions of a ring.
pub uninterp spec fn ring_polygon(ring: Seq<Point>) -> Polygon;

/// `geo::Polygon::new` on the line string through `ring`, without holes. The
/// crate closes the ring where it is open.
#[verifier::external_body]
pub(crate) fn polygon_from_ring(ring: &Vec<Point>) -> (r: Polygon)
    ensures
        r == ring_polygon(ring@),
{
    let coords: Vec<geo::Point> = ring.iter().map(|p| p.inner).collect();
    Polygon { inner: geo::Polygon::new(geo::LineString::from(coords), vec![]) }
}

/// The rectangle that `geo::Rect::new` makes of the corners `(min_x, min_y)`
/// and `(max_x, max_y)`, given in whole degrees.
pub uninterp spec fn degree_rect(min_x: int, min_y: int, max_x: int, max_y: int) -> Rect;

/// `geo::Rect::new` on two corners given in whole degrees.
#[verifier::external_body]
pub(crate) fn rect_from_degrees(min_x: i32, min_y: i32, max_x: i32, max_y: i32) -> (r: Rect)
    ensures
        r == degree_rect(min_x as int, min_y as int, max_x as int, max_y as int),
{
    Rect {
        inner: geo::Rect::new(
            geo::Coord { x: min_x.into(), y: min_y.into() },
            geo::Coord { x: max_x.into(), y: max_y.into() },
        ),
    }
}

/// The most degrees, either way, that a coordinate of a boundary may be
/// from zero. It is far beyond any angle, and keeps the arithmetic of the
/// convex hull within numbers.
pub const COORDINATE_LIMIT: i32 = 1_000_000;

/// The position has both coordinates within the limit.
pub open spec fn bounded_point(point: Point) -> bool {
    point_in_rect(
        point,
        degree_rect(
            -COORDINATE_LIMIT as int,
            -COORDINATE_LIMIT as int,
            COORDINATE_LIMIT as int,
            COORDINATE_LIMIT as int,
        ),
    )
}

/// Every position of the ring has both coordinates within the limit.
pub open spec fn bounded_ring(ring: Seq<Point>) -> bool {
    forall|i: int| 0 <= i < ring.len() ==> bounded_point(#[trigger] ring[i])
}

/// The polygon is that of a ring whose coordinates are all within the limit.
pub open spec fn bounded_polygon(poly: Polygon) -> bool {
    exists|ring: Seq<Point>| bounded_ring(ring) && poly == #[trigger] ring_polygon(ring)
}

/// The rectangle of the coordinates within the limit.
pub fn coordinate_bounds() -> (r: Rect)
    ensures
        forall|p: Point| point_in_rect(p, r) == #[trigger] bounded_point(p),
{
    rect_from_degrees(-COORDINATE_LIMIT, -COORDINATE_LIMIT, COORDINATE_LIMIT, COORDINATE_LIMIT)
}

/// The area of a polygon on the ellipsoid in square metres, as the bit
/// pattern of a double: what `GeodesicArea::geodesic_area_unsigned` of the
/// `geo` crate gives for it.
pub uninterp spec fn geodesic_area_bits(poly: Polygon) -> u64;

/// `GeodesicArea::geodesic_area_unsigned` of the `geo` crate: the area of the
/// polygon on the ellipsoid, in square metres.
#[verifier::external_body]
pub(crate) fn geodesic_area(poly: &Polygon) -> (a: SquareMeters)
    ensures
        a.bits == geodesic_area_bits(*poly),
{
    SquareMeters { bits: poly.inner.geodesic_area_unsigned().to_bits() }
}

/// How many coordinates the outer ring of the convex hull of a polygon
/// holds, the closing one among them: what `ConvexHull::convex_hull` and
/// `CoordsIter::coords_count` of the `geo` crate give for it.
pub uninterp spec fn hull_coords(poly: Polygon) -> nat;

/// `ConvexHull::convex_hull` and `CoordsIter::coords_count` of the `geo`
/// crate: how many coordinates the outer ring of the convex hull holds, the
/// closing one among them. The hull orders coordinates and cannot order what
/// is no number, so the coordinates must be within the limit.
#[verifier::external_body]
pub(crate) fn hull_coords_count(poly: &Polygon) -> (n: usize)
    requires
        bounded_polygon(*poly),
    ensures
        n == hull_coords(*poly),
{
    poly.inner.convex_hull().exterior().coords_count()
}

/// The corners and the centre of a rectangle, each coordinate written as a
/// decimal numeral.
#[derive(Debug)]
pub struct RectText {
    pub min_x: String,
    pub min_y: String,
    pub max_x: String,
    pub max_y: String,
    pub center_x: String,
    pub center_y: String,
}

impl View for RectText {
    type V = Seq<Seq<char>>;

    /// The six numerals: least `x` and `y`, greatest `x` and `y`, `x` and
    /// `y` of the centre.
    open spec fn view(&self) -> Seq<Seq<char>> {
        seq![
            self.min_x@,
            self.min_y@,
            self.max_x@,
            self.max_y@,
            self.center_x@,
            self.center_y@,
        ]
    }
}

/// The six numerals of a rectangle with `decimals` digits after the point:
/// what `geo::Rect::min`, `max` and `center` give, as the formatter writes it.
pub uninterp spec fn rect_numerals(rect: Rect, decimals: nat) -> Seq<Seq<char>>;

/// `geo::Rect::min`, `max` and `center`, each coordinate formatted with
/// `decimals` digits after the point.
#[verifier::external_body]
pub(crate) fn rect_text(rect: &Rect, decimals: usize) -> (t: RectText)
    ensures
        t@ == rect_numerals(*rect, decimals as nat),
{
    let (min, max, center) = (rect.inner.min(), rect.inner.max(), rect.inner.center());
    RectText {
        min_x: format!("{:.*}", decimals, min.x),
        min_y: format!("{:.*}", decimals, min.y),
        max_x: format!("{:.*}", decimals, max.x),
        max_y: format!("{:.*}", decimals, max.y),
        center_x: format!("{:.*}", decimals, center.x),
        center_y: format!("{:.*}", decimals, center.y),
    }
}

/// The numerals of the `x` and of the `y` of a position, each the shortest
/// that reads back as the coordinate: what `geo::Point::x` and `y` give, as
/// the formatter writes it.
pub uninterp spec fn point_numerals(point: Point) -> (Seq<char>, Seq<char>);

/// `geo::Point::x` and `y`, each formatted as the shortest numeral that
/// reads back as the coordinate: first `x`, then `y`.
#[verifier::external_body]
pub(crate) fn point_text(point: &Point) -> (t: (String, String))
    ensures
        (t.0@, t.1@) == point_numerals(*point),
{
    (format!("{}", point.inner.x()), format!("{}", point.inner.y()))
}

/// The number of corners of a closed ring of `coords` coordinates: one less,
/// as the first comes again at the end; at most what 32 bits hold.
pub open spec fn corners_of(coords: int) -> int {
    if coords <= 0 {
        0
    } else if coords - 1 > u32::MAX {
        u32::MAX as int
    } else {
        coords - 1
    }
}

/// The number of corners of a closed ring of `coords` coordinates.
pub fn corner_count(coords: usize) -> (n: u32)
    ensures
        n == corners_of(coords as int),
{
    if coords == 0 {
        0
    } else if coords - 1 > u32::MAX as usize {
        u32::MAX
    } else {
        (coords - 1) as u32
    }
}

/// The number of corners of the convex hull of a polygon, which for a cell of
/// a grid is its number of edges, however densely its boundary is drawn.
pub fn corner_count_convex(poly: &Polygon) -> (n: u32)
    requires
        bounded_polygon(*poly),
    ensures
        n == corners_of(hull_coords(*poly) as int),
{
    corner_count(hull_coords_count(poly))
}

/// The rectangle that spans the whole earth, from (-180, -90) to (180, 90).
pub fn whole_earth_bbox() -> (r: Rect)
    ensures
        r == degree_rect(-180, -90, 180, 90),
{
    rect_from_degrees(-180, -90, 180, 90)
}

} // verus!
