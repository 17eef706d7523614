//! The faces of the icosahedron that the grids of triangles are laid on, and
//! the denominators of the grid of aperture 3 on one face.
use crate::constants::IcosahedronConstants;
use crate::models::RefinementLevel;
use vstd::prelude::*;

verus! {

/// A face of a polyhedron, as the numbers of its corners among the vertices.
#[derive(Debug, Clone)]
pub enum Face {
    Triangle([usize; 3]),
    Quad([usize; 4]),
    Pentagon([usize; 5]),
    Hexagon([usize; 6]),
    /// A face of any other number of corners.
    Polygon(Vec<usize>),
}

impl View for Face {
    type V = Seq<usize>;

    open spec fn view(&self) -> Seq<usize> {
        match self {
            Face::Triangle(v) => v@,
            Face::Quad(v) => v@,
            Face::Pentagon(v) => v@,
            Face::Hexagon(v) => v@,
            Face::Polygon(v) => v@,
        }
    }
}

/// A copy of the entries of a slice.
fn copy_of(v: &[usize]) -> (out: Vec<usize>)
    ensures
        out@ == v@,
{
    let mut out: Vec<usize> = Vec::new();
    let mut i: usize = 0;
    while i < v.len()
        invariant
            i <= v.len(),
            out@ == v@.take(i as int),
        decreases v.len() - i,
    {
        out.push(v[i]);
        i += 1;
    }
    assert(v@.take(v.len() as int) =~= v@);
    out
}

impl Face {
    /// The numbers of the corners, in their order around the face.
    pub fn indices(&self) -> (out: Vec<usize>)
        ensures
            out@ == self@,
    {
        match self {
            Face::Triangle(v) => copy_of(v.as_slice()),
            Face::Quad(v) => copy_of(v.as_slice()),
            Face::Pentagon(v) => copy_of(v.as_slice()),
            Face::Hexagon(v) => copy_of(v.as_slice()),
            Face::Polygon(v) => copy_of(v.as_slice()),
        }
    }
}

/// The corners of the twenty faces of the icosahedron.
pub open spec fn icosahedron_faces() -> Seq<Seq<usize>> {
    seq![
        seq![0usize, 11, 5],
        seq![0usize, 5, 1],
        seq![0usize, 1, 7],
        seq![0usize, 7, 10],
        seq![0usize, 10, 11],
        seq![1usize, 5, 9],
        seq![5usize, 11, 4],
        seq![11usize, 10, 2],
        seq![10usize, 7, 6],
        seq![7usize, 1, 8],
        seq![3usize, 9, 4],
        seq![3usize, 4, 2],
        seq![3usize, 2, 6],
        seq![3usize, 6, 8],
        seq![3usize, 8, 9],
        seq![4usize, 9, 5],
        seq![2usize, 4, 11],
        seq![6usize, 2, 10],
        seq![8usize, 6, 7],
        seq![9usize, 8, 1],
    ]
}

/// The face is a triangle with three different corners among the twelve
/// vertices of the icosahedron.
pub open spec fn proper_triangle(f: Seq<usize>) -> bool {
    &&& f.len() == 3
    &&& f[0] < IcosahedronConstants::VERTEX_COUNT
    &&& f[1] < IcosahedronConstants::VERTEX_COUNT
    &&& f[2] < IcosahedronConstants::VERTEX_COUNT
    &&& f[0] != f[1]
    &&& f[1] != f[2]
    &&& f[0] != f[2]
}

/// The icosahedron has as many faces as its constants say, and each is a
/// triangle with three different corners among its twelve vertices.
pub proof fn law_icosahedron_faces()
    ensures
        icosahedron_faces().len() == IcosahedronConstants::FACE_COUNT,
        forall|i: int|
            0 <= i < icosahedron_faces().len() ==> proper_triangle(#[trigger] icosahedron_faces()[i]),
{
}

fn triangle(a: usize, b: usize, c: usize) -> (f: Face)
    ensures
        f@ == seq![a, b, c],
        f is Triangle,
{
    let f = Face::Triangle([a, b, c]);
    assert(f@ =~= seq![a, b, c]);
    f
}

/// The twenty faces of the icosahedron.
pub fn create_faces() -> (faces: Vec<Face>)
    ensures
        faces@.len() == 20,
        forall|i: int| 0 <= i < 20 ==> (#[trigger] faces@[i])@ == icosahedron_faces()[i],
        forall|i: int| 0 <= i < 20 ==> (#[trigger] faces@[i]) is Triangle,
{
    let mut faces: Vec<Face> = Vec::new();
    faces.push(triangle(0, 11, 5));
    faces.push(triangle(0, 5, 1));
    faces.push(triangle(0, 1, 7));
    faces.push(triangle(0, 7, 10));
    faces.push(triangle(0, 10, 11));
    faces.push(triangle(1, 5, 9));
    faces.push(triangle(5, 11, 4));
    faces.push(triangle(11, 10, 2));
    faces.push(triangle(10, 7, 6));
    faces.push(triangle(7, 1, 8));
    faces.push(triangle(3, 9, 4));
    faces.push(triangle(3, 4, 2));
    faces.push(triangle(3, 2, 6));
    faces.push(triangle(3, 6, 8));
    faces.push(triangle(3, 8, 9));
    faces.push(triangle(4, 9, 5));
    faces.push(triangle(2, 4, 11));
    faces.push(triangle(6, 2, 10));
    faces.push(triangle(8, 6, 7));
    faces.push(triangle(9, 8, 1));
    faces
}

/// Three to the power `n`.
pub open spec fn pow3(n: nat) -> nat
    decreases n,
{
    if n == 0 {
        1
    } else {
        3 * pow3((n - 1) as nat)
    }
}

/// The exponent of the denominator at a refinement level: it grows by three
/// over four levels.
pub open spec fn denom_exponent(level: int) -> int {
    (level + level / 2) / 2
}

/// The grid of aperture 3 on the faces of the icosahedron, addressed by
/// barycentric coordinates.
#[derive(Debug, Clone, Copy)]
pub struct IVEA3HBary {}

/// The grid of aperture 3 on the faces of the icosahedron.
#[derive(Debug, Clone, Copy)]
pub struct IVEA3H {}

impl IVEA3HBary {
    /// The aperture of the grid.
    pub const APERTURE: u32 = 3;

    /// The greatest refinement level whose denominator 32 bits hold.
    pub const MAX_LEVEL: i32 = 27;

    /// The denominator of the coordinates at a refinement level: a power of
    /// the aperture.
    pub fn compute_denom(refinement_level: RefinementLevel) -> (denom: u32)
        requires
            refinement_level@ <= Self::MAX_LEVEL,
        ensures
            denom == pow3(denom_exponent(refinement_level@) as nat),
    {
        let level = refinement_level.get() as u32;
        let exponent = (level + level / 2) / 2;
        let mut denom: u32 = 1;
        let mut i: u32 = 0;
        while i < exponent
            invariant
                i <= exponent <= 20,
                denom == pow3(i as nat),
            decreases exponent - i,
        {
            proof {
                lemma_pow3_bounds(i as nat);
                lemma_pow3_grows((i + 1) as nat, 20);
            }
            denom = denom * Self::APERTURE;
            i += 1;
        }
        denom
    }

    /// Packs the coordinates of a zone on a face into its number. The grid
    /// has no packed numbers yet: nothing is computed.
    pub fn bundle_index(_i: i32, _j: i32, _refinement_level: RefinementLevel, _face: i32) {
    }
}

impl IVEA3H {
    /// The denominator of the coordinates at a refinement level.
    pub fn compute_denom(refinement_level: RefinementLevel) -> (denom: u32)
        requires
            refinement_level@ <= IVEA3HBary::MAX_LEVEL,
        ensures
            denom == pow3(denom_exponent(refinement_level@) as nat),
    {
        IVEA3HBary::compute_denom(refinement_level)
    }
}

/// Three to the twentieth fits in 32 bits.
pub proof fn lemma_pow3_bounds(n: nat)
    ensures
        pow3(20) == 3486784401,
        pow3(n) >= 1,
    decreases n,
{
    reveal_with_fuel(pow3, 21);
    if n > 0 {
        lemma_pow3_bounds((n - 1) as nat);
    }
}

/// The powers of three grow with the exponent.
pub proof fn lemma_pow3_grows(a: nat, b: nat)
    requires
        a <= b,
    ensures
        pow3(a) <= pow3(b),
    decreases b,
{
    if a < b {
        lemma_pow3_grows(a, (b - 1) as nat);
    }
}

} // verus!
