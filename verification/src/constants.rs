//! Constants of the earth, of the icosahedron and of numerical tolerance, as
//! exact ratios of whole numbers.
use vstd::prelude::*;

verus! {

/// The ratio of a whole number to a positive whole number.
#[derive(Debug, Clone, Copy, PartialEq, Eq, Structural)]
pub struct Ratio {
    pub num: i64,
    pub den: u64,
}

impl Ratio {
    /// The denominator is positive.
    pub open spec fn well_formed(self) -> bool {
        self.den > 0
    }

    /// This ratio is below `other`.
    pub open spec fn below(self, other: Ratio) -> bool {
        self.num * other.den < other.num * self.den
    }

    /// The two ratios are less than `bound` apart.
    pub open spec fn within(self, other: Ratio, bound: Ratio) -> bool {
        let diff = self.num * other.den - other.num * self.den;
        let scale = self.den * other.den;
        -bound.num * scale < diff * bound.den && diff * bound.den < bound.num * scale
    }

    /// The ratio of `num` to `den`.
    pub fn new(num: i64, den: u64) -> (r: Self)
        requires
            den > 0,
        ensures
            r.num == num,
            r.den == den,
            r.well_formed(),
    {
        Ratio { num, den }
    }

    /// Whether this ratio is below `other`.
    pub fn lt(&self, other: &Ratio) -> (b: bool)
        ensures
            b == self.below(*other),
    {
        proof {
            lemma_product_fits(self.num, other.den);
            lemma_product_fits(other.num, self.den);
        }
        let left: i128 = self.num as i128 * other.den as i128;
        let right: i128 = other.num as i128 * self.den as i128;
        left < right
    }
}

/// The whole number `n` as a ratio.
pub open spec fn whole(n: i64) -> Ratio {
    Ratio { num: n, den: 1 }
}

/// The product of a 64-bit whole number and a 64-bit natural number fits in
/// 128 bits.
pub proof fn lemma_product_fits(a: i64, b: u64)
    ensures
        i128::MIN <= a * b <= i128::MAX,
{
    assert(-0x8000_0000_0000_0000 * 0xffff_ffff_ffff_ffff <= a * b <= 0x7fff_ffff_ffff_ffff
        * 0xffff_ffff_ffff_ffff) by (nonlinear_arith)
        requires
            -0x8000_0000_0000_0000 <= a <= 0x7fff_ffff_ffff_ffff,
            0 <= b <= 0xffff_ffff_ffff_ffff,
    ;
}

/// One over ten to the ninth.
pub open spec fn billionth() -> Ratio {
    Ratio { num: 1, den: 1_000_000_000 }
}

/// One over ten to the tenth.
pub open spec fn tenth_of_billionth() -> Ratio {
    Ratio { num: 1, den: 10_000_000_000 }
}

/// One over ten to the twelfth.
pub open spec fn trillionth() -> Ratio {
    Ratio { num: 1, den: 1_000_000_000_000 }
}

/// The ellipsoid of the World Geodetic System of 1984.
pub struct WGS84;

impl WGS84 {
    /// The semi-major axis, in metres: 6378137.
    pub open spec fn major_axis_spec() -> Ratio {
        Ratio { num: 6378137, den: 1 }
    }

    /// The semi-minor axis, in metres: 6356752.314245.
    pub open spec fn minor_axis_spec() -> Ratio {
        Ratio { num: 6356752314245, den: 1_000_000 }
    }

    /// The radius of the sphere of equal area, in metres: 6371007.1809184747.
    pub open spec fn authalic_radius_spec() -> Ratio {
        Ratio { num: 63710071809184747, den: 10_000_000_000 }
    }

    /// The first eccentricity squared: 0.006694379990141316.
    pub open spec fn eccentricity_squared_spec() -> Ratio {
        Ratio { num: 6694379990141316, den: 1_000_000_000_000_000_000 }
    }

    /// The flattening: one over 298.257223563.
    pub open spec fn flattening_spec() -> Ratio {
        Ratio { num: 1_000_000_000, den: 298257223563 }
    }

    /// The third flattening: the flattening over two less the flattening.
    pub open spec fn third_flattening_spec() -> Ratio {
        Ratio { num: 1_000_000_000, den: 595514447126 }
    }

    /// The semi-major axis, in metres.
    pub fn major_axis() -> (r: Ratio)
        ensures
            r == Self::major_axis_spec(),
    {
        Ratio::new(6378137, 1)
    }

    /// The semi-minor axis, in metres.
    pub fn minor_axis() -> (r: Ratio)
        ensures
            r == Self::minor_axis_spec(),
    {
        Ratio::new(6356752314245, 1_000_000)
    }

    /// The radius of the sphere of equal area, in metres.
    pub fn authalic_radius() -> (r: Ratio)
        ensures
            r == Self::authalic_radius_spec(),
    {
        Ratio::new(63710071809184747, 10_000_000_000)
    }

    /// The first eccentricity squared.
    pub fn eccentricity_squared() -> (r: Ratio)
        ensures
            r == Self::eccentricity_squared_spec(),
    {
        Ratio::new(6694379990141316, 1_000_000_000_000_000_000)
    }

    /// The flattening.
    pub fn flattening() -> (r: Ratio)
        ensures
            r == Self::flattening_spec(),
    {
        Ratio::new(1_000_000_000, 298257223563)
    }

    /// The third flattening.
    pub fn third_flattening() -> (r: Ratio)
        ensures
            r == Self::third_flattening_spec(),
    {
        Ratio::new(1_000_000_000, 595514447126)
    }
}

/// The minor axis is shorter than the radius of the sphere of equal area,
/// and that is shorter than the major axis.
pub proof fn law_wgs84_radii()
    ensures
        WGS84::minor_axis_spec().below(WGS84::authalic_radius_spec()),
        WGS84::authalic_radius_spec().below(WGS84::major_axis_spec()),
{
}

/// The difference of the axes over the major axis.
pub open spec fn computed_flattening() -> Ratio {
    Ratio { num: 21384685755, den: 6378137000000 }
}

/// The flattening is, to less than one over ten to the tenth, the difference
/// of the axes over the major axis.
pub proof fn law_wgs84_flattening()
    ensures
        computed_flattening().num == WGS84::major_axis_spec().num
            * WGS84::minor_axis_spec().den - WGS84::minor_axis_spec().num,
        computed_flattening().den == WGS84::major_axis_spec().num * WGS84::minor_axis_spec().den,
        computed_flattening().within(WGS84::flattening_spec(), tenth_of_billionth()),
{
    let c = computed_flattening();
    let f = WGS84::flattening_spec();
    assert(c.num * f.den == 6378137000053536445065);
    assert(f.num * c.den == 6378137000000000000000);
    assert(c.den * f.den == 1902325433124442131000000);
}

/// The first eccentricity squared is, to less than one over ten to the
/// tenth, the difference of the squares of the axes over the square of the
/// major axis.
pub proof fn law_wgs84_eccentricity()
    ensures
        ({
            let a = WGS84::major_axis_spec().num * WGS84::minor_axis_spec().den;
            let b = WGS84::minor_axis_spec().num;
            let e = WGS84::eccentricity_squared_spec();
            let diff = (a * a - b * b) * e.den - e.num * (a * a);
            -(a * a) * e.den < diff * 10_000_000_000 && diff * 10_000_000_000 < (a * a) * e.den
        }),
{
    let a: int = 6378137000000;
    let b: int = 6356752314245;
    assert(a * a == 40680631590769000000000000);
    assert(b * b == 40408299984659163229920025);
}

/// The third flattening is the flattening over two less the flattening.
pub proof fn law_wgs84_third_flattening()
    ensures
        ({
            let f = WGS84::flattening_spec();
            let n = WGS84::third_flattening_spec();
            n.num * (2 * f.den - f.num) == f.num * n.den
        }),
{
}

/// Tolerances of the geometric computations.
pub struct Tolerance;

impl Tolerance {
    /// For comparing coordinates, in degrees: one over ten to the ninth.
    pub fn coordinate() -> (r: Ratio)
        ensures
            r == billionth(),
    {
        Ratio::new(1, 1_000_000_000)
    }

    /// For telling a vector from the zero vector: one over ten to the tenth.
    pub fn vector_normalization() -> (r: Ratio)
        ensures
            r == tenth_of_billionth(),
    {
        Ratio::new(1, 10_000_000_000)
    }

    /// For comparing angles, in radians: one over ten to the twelfth.
    pub fn angular() -> (r: Ratio)
        ensures
            r == trillionth(),
    {
        Ratio::new(1, 1_000_000_000_000)
    }

    /// For comparing areas: one over ten to the twelfth.
    pub fn area() -> (r: Ratio)
        ensures
            r == trillionth(),
    {
        Ratio::new(1, 1_000_000_000_000)
    }

    /// For comparing distances on the unit sphere: one over ten to the tenth.
    pub fn unit_sphere_distance() -> (r: Ratio)
        ensures
            r == tenth_of_billionth(),
    {
        Ratio::new(1, 10_000_000_000)
    }

    /// For barycentric coordinates: one over ten to the tenth.
    pub fn barycentric() -> (r: Ratio)
        ensures
            r == tenth_of_billionth(),
    {
        Ratio::new(1, 10_000_000_000)
    }
}

/// The tolerances for angles and for vectors are tighter than the one for
/// coordinates.
pub proof fn law_tolerance_ordering()
    ensures
        trillionth().below(billionth()),
        tenth_of_billionth().below(billionth()),
{
}

/// Conversions between scales of tolerance.
pub struct ToleranceConversion;

/// Constants of polyhedra.
pub struct PolyhedronConstants;

/// The tolerance of the computations on triangles: one over ten to the tenth.
pub fn geometric_tolerance() -> (r: Ratio)
    ensures
        r == tenth_of_billionth(),
{
    Ratio::new(1, 10_000_000_000)
}

/// Below this determinant a triangle counts as degenerate: one over ten to
/// the tenth.
pub fn degenerate_triangle_threshold() -> (r: Ratio)
    ensures
        r == tenth_of_billionth(),
{
    Ratio::new(1, 10_000_000_000)
}

/// The ratio of `num` to `den`.
pub open spec fn ratio(num: i64, den: u64) -> Ratio {
    Ratio { num, den }
}

/// The coefficients of the series that turn one kind of latitude into
/// another, after Karney (2023).
pub struct KarneyCoefficients;

impl KarneyCoefficients {
    /// The coefficients that turn geodetic into authalic latitude.
    pub open spec fn geodetic_to_authalic_spec() -> Seq<Ratio> {
        seq![
        ratio(4, 3),
        ratio(4, 45),
        ratio(-16i64, 35),
        ratio(-2582i64, 14175),
        ratio(60136, 467775),
        ratio(28112932, 212837625),
        ratio(46, 45),
        ratio(152, 945),
        ratio(-11966i64, 14175),
        ratio(-21016i64, 51975),
        ratio(251310128, 638512875),
        ratio(3044, 2835),
        ratio(3802, 14175),
        ratio(-94388i64, 66825),
        ratio(-8797648i64, 10945935),
        ratio(6059, 4725),
        ratio(41072, 93555),
        ratio(-1472637812i64, 638512875),
        ratio(768272, 467775),
        ratio(-455935736i64, 638512875),
        ratio(4210684958, 1915538625),
        ]
    }

    /// The coefficients that turn authalic into geodetic latitude.
    pub open spec fn authalic_to_geodetic_spec() -> Seq<Ratio> {
        seq![
        ratio(-4i64, 3),
        ratio(-4i64, 45),
        ratio(88, 315),
        ratio(538, 4725),
        ratio(20824, 467775),
        ratio(-44732i64, 2837835),
        ratio(34, 45),
        ratio(8, 105),
        ratio(-2482i64, 14175),
        ratio(-37192i64, 467775),
        ratio(-12467764i64, 212837625),
        ratio(-1532i64, 2835),
        ratio(-898i64, 14175),
        ratio(54968, 467775),
        ratio(100320856, 1915538625),
        ratio(6007, 14175),
        ratio(24496, 467775),
        ratio(-5884124i64, 70945875),
        ratio(-23356i64, 66825),
        ratio(-839792i64, 19348875),
        ratio(570284222, 1915538625),
        ]
    }

    /// The coefficients that turn geodetic into authalic latitude.
    pub fn geodetic_to_authalic() -> (v: Vec<Ratio>)
        ensures
            v@ == Self::geodetic_to_authalic_spec(),
            v@.len() == 21,
    {
        let mut v: Vec<Ratio> = Vec::new();
        v.push(Ratio::new(4, 3));
        v.push(Ratio::new(4, 45));
        v.push(Ratio::new(-16, 35));
        v.push(Ratio::new(-2582, 14175));
        v.push(Ratio::new(60136, 467775));
        v.push(Ratio::new(28112932, 212837625));
        v.push(Ratio::new(46, 45));
        v.push(Ratio::new(152, 945));
        v.push(Ratio::new(-11966, 14175));
        v.push(Ratio::new(-21016, 51975));
        v.push(Ratio::new(251310128, 638512875));
        v.push(Ratio::new(3044, 2835));
        v.push(Ratio::new(3802, 14175));
        v.push(Ratio::new(-94388, 66825));
        v.push(Ratio::new(-8797648, 10945935));
        v.push(Ratio::new(6059, 4725));
        v.push(Ratio::new(41072, 93555));
        v.push(Ratio::new(-1472637812, 638512875));
        v.push(Ratio::new(768272, 467775));
        v.push(Ratio::new(-455935736, 638512875));
        v.push(Ratio::new(4210684958, 1915538625));
        assert(v@ =~= Self::geodetic_to_authalic_spec());
        v
    }

    /// The coefficients that turn authalic into geodetic latitude.
    pub fn authalic_to_geodetic() -> (v: Vec<Ratio>)
        ensures
            v@ == Self::authalic_to_geodetic_spec(),
            v@.len() == 21,
    {
        let mut v: Vec<Ratio> = Vec::new();
        v.push(Ratio::new(-4, 3));
        v.push(Ratio::new(-4, 45));
        v.push(Ratio::new(88, 315));
        v.push(Ratio::new(538, 4725));
        v.push(Ratio::new(20824, 467775));
        v.push(Ratio::new(-44732, 2837835));
        v.push(Ratio::new(34, 45));
        v.push(Ratio::new(8, 105));
        v.push(Ratio::new(-2482, 14175));
        v.push(Ratio::new(-37192, 467775));
        v.push(Ratio::new(-12467764, 212837625));
        v.push(Ratio::new(-1532, 2835));
        v.push(Ratio::new(-898, 14175));
        v.push(Ratio::new(54968, 467775));
        v.push(Ratio::new(100320856, 1915538625));
        v.push(Ratio::new(6007, 14175));
        v.push(Ratio::new(24496, 467775));
        v.push(Ratio::new(-5884124, 70945875));
        v.push(Ratio::new(-23356, 66825));
        v.push(Ratio::new(-839792, 19348875));
        v.push(Ratio::new(570284222, 1915538625));
        assert(v@ =~= Self::authalic_to_geodetic_spec());
        v
    }
}

/// Constants of the icosahedron.
pub struct IcosahedronConstants;

impl IcosahedronConstants {
    /// The number of faces.
    pub const FACE_COUNT: u8 = 20;

    /// The number of vertices.
    pub const VERTEX_COUNT: u8 = 12;

    /// The number of edges.
    pub const EDGE_COUNT: u8 = 30;

    /// The ratio of the radius of the projection to that of the sphere:
    /// 0.9103832815095034.
    pub open spec fn radius_ratio_spec() -> Ratio {
        Ratio { num: 9103832815095034, den: 10_000_000_000_000_000 }
    }

    /// The angle between two faces that share an edge, in radians: 2.41231732.
    pub open spec fn dihedral_angle_spec() -> Ratio {
        Ratio { num: 241231732, den: 100_000_000 }
    }

    /// The ratio of the radius of the projection to that of the sphere.
    pub fn radius_ratio() -> (r: Ratio)
        ensures
            r == Self::radius_ratio_spec(),
    {
        Ratio::new(9103832815095034, 10_000_000_000_000_000)
    }

    /// The angle between two faces that share an edge, in radians.
    pub fn dihedral_angle() -> (r: Ratio)
        ensures
            r == Self::dihedral_angle_spec(),
    {
        Ratio::new(241231732, 100_000_000)
    }
}

/// The icosahedron obeys the formula of Euler: vertices less edges plus
/// faces is two.
pub proof fn law_icosahedron_euler()
    ensures
        IcosahedronConstants::VERTEX_COUNT - IcosahedronConstants::EDGE_COUNT
            + IcosahedronConstants::FACE_COUNT == 2,
{
}

/// The radius ratio lies strictly between zero and one.
pub proof fn law_radius_ratio_bounds()
    ensures
        whole(0).below(IcosahedronConstants::radius_ratio_spec()),
        IcosahedronConstants::radius_ratio_spec().below(whole(1)),
{
}

} // verus!
