//! Geometric primitives: triangles, rectangles and cubes of colored
//! vertices, and their flattening into a draw-ready vertex sequence.
//!
//! Construction is pure component placement: each constructor copies the
//! given corner components and colors into fixed vertex slots, and
//! `into_raw` flattens the slots in construction order. Every contract here
//! pins the exact value of every vertex produced.

use vstd::prelude::*;

use crate::shapes::vertex::Vertex;
use crate::shapes::vertex::repositioned;

pub mod vertex;

verus! {

/// Three vertices sharing one color, in creation order.
#[derive(Clone, Copy)]
pub struct Triangle {
    pub vertices: [Vertex; 3],
}

/// The triangle a call of `Triangle::new` with these arguments returns.
pub open spec fn triangle_spec(
    p1: (u32, u32, u32, u32),
    p2: (u32, u32, u32, u32),
    p3: (u32, u32, u32, u32),
    color: (u32, u32, u32, u32),
) -> Seq<Vertex> {
    seq![
        (Vertex { position: p1, color }),
        (Vertex { position: p2, color }),
        (Vertex { position: p3, color }),
    ]
}

impl View for Triangle {
    type V = Seq<Vertex>;

    open spec fn view(&self) -> Seq<Vertex> {
        self.vertices@
    }
}

impl Triangle {
    /// Builds a triangle from three homogeneous corners and one shared color.
    pub fn new(
        p1: (u32, u32, u32, u32),
        p2: (u32, u32, u32, u32),
        p3: (u32, u32, u32, u32),
        color: (u32, u32, u32, u32),
    ) -> (r: Self)
        ensures
            r@ == triangle_spec(p1, p2, p3, color),
    {
        let r = Triangle {
            vertices: [
                Vertex { position: p1, color },
                Vertex { position: p2, color },
                Vertex { position: p3, color },
            ],
        };
        proof {
            assert(r@ =~= triangle_spec(p1, p2, p3, color));
        }
        r
    }

    /// Rebuilds the triangle from host-computed spatial components, one
    /// triple per vertex in order. A rigid rotation only replaces the
    /// spatial components: the homogeneous coordinate and the color of
    /// every vertex pass through untouched.
    pub fn with_positions(self, ps: &Vec<(u32, u32, u32)>) -> (r: Self)
        requires
            ps@.len() == 3,
        ensures
            r@.len() == 3,
            forall|i: int| 0 <= i < 3 ==> r@[i] == repositioned(self@[i], ps@[i]),
    {
        let r = Triangle {
            vertices: [
                self.vertices[0].with_spatial(ps[0]),
                self.vertices[1].with_spatial(ps[1]),
                self.vertices[2].with_spatial(ps[2]),
            ],
        };
        r
    }

    /// Flattens to the ordered vertex sequence, paired with the number of
    /// vertices a triangle contributes to a draw call.
    pub fn into_raw(self) -> (r: (Vec<Vertex>, u32))
        ensures
            r.0@ == self@,
            r.0@.len() == 3,
            r.1 == 3,
    {
        let out = vec![self.vertices[0], self.vertices[1], self.vertices[2]];
        proof {
            assert(out@ =~= self@);
        }
        (out, 3)
    }
}

/// Two triangles covering the quad between two opposite corners, each
/// half independently colored.
#[derive(Clone, Copy)]
pub struct Rectangle {
    pub triangles: [Triangle; 2],
}

/// `(x, y, z)` extended with the homogeneous coordinate `w`.
pub open spec fn pos4(p: (u32, u32, u32), w: u32) -> (u32, u32, u32, u32) {
    (p.0, p.1, p.2, w)
}

/// The two vertices the rectangle's halves share: the ends of the quad
/// diagonal opposite to `c1`--`c2`.
///
/// Corners that share their x-component span y and z; any other pair
/// spans x together with y and z. Either way `c1`, `c2` and these two
/// points are the corners of a planar parallelogram with `c1` and `c2`
/// opposite: when the corners share a component it is the axis-aligned
/// face between them, and when all three components differ it is the
/// parallelogram spanned by the x difference and the joint y-z
/// difference.
pub open spec fn rect_diagonal(c1: (u32, u32, u32), c2: (u32, u32, u32)) -> (
    (u32, u32, u32),
    (u32, u32, u32),
) {
    if c1.0 == c2.0 {
        ((c1.0, c1.1, c2.2), (c1.0, c2.1, c1.2))
    } else {
        ((c1.0, c2.1, c2.2), (c2.0, c1.1, c1.2))
    }
}

/// The vertex sequence a call of `Rectangle::new` with these arguments
/// produces: the `color1` triangle's three vertices, then the `color2`
/// triangle's. The two triangles share the diagonal `rect_diagonal`
/// gives; `c1` is the middle vertex of the first half and `c2` of the
/// second; every vertex carries `w` as its homogeneous coordinate.
pub open spec fn rectangle_spec(
    c1: (u32, u32, u32),
    c2: (u32, u32, u32),
    w: u32,
    color1: (u32, u32, u32, u32),
    color2: (u32, u32, u32, u32),
) -> Seq<Vertex> {
    let d = rect_diagonal(c1, c2);
    triangle_spec(pos4(d.0, w), pos4(c1, w), pos4(d.1, w), color1) + triangle_spec(
        pos4(d.0, w),
        pos4(c2, w),
        pos4(d.1, w),
        color2,
    )
}

impl View for Rectangle {
    type V = Seq<Vertex>;

    open spec fn view(&self) -> Seq<Vertex> {
        (self.triangles@[0])@ + (self.triangles@[1])@
    }
}

impl Rectangle {
    /// Builds the two triangles covering the planar quad between the
    /// opposite corners `c1` and `c2` -- the axis-aligned face between
    /// them when they share a component. The triangles share the quad's
    /// other diagonal; the first is colored `color1`, the second `color2`
    /// -- the two-tone halves are kept apart, never averaged. `w` becomes
    /// the homogeneous coordinate of every vertex.
    pub fn new(
        c1: (u32, u32, u32),
        c2: (u32, u32, u32),
        w: u32,
        color1: (u32, u32, u32, u32),
        color2: (u32, u32, u32, u32),
    ) -> (r: Self)
        ensures
            r@ == rectangle_spec(c1, c2, w, color1, color2),
            r@.len() == 6,
    {
        let (m1, m2) = if c1.0 == c2.0 {
            ((c1.0, c1.1, c2.2), (c1.0, c2.1, c1.2))
        } else {
            ((c1.0, c2.1, c2.2), (c2.0, c1.1, c1.2))
        };
        let r = Rectangle {
            triangles: [
                Triangle::new(
                    (m1.0, m1.1, m1.2, w),
                    (c1.0, c1.1, c1.2, w),
                    (m2.0, m2.1, m2.2, w),
                    color1,
                ),
                Triangle::new(
                    (m1.0, m1.1, m1.2, w),
                    (c2.0, c2.1, c2.2, w),
                    (m2.0, m2.1, m2.2, w),
                    color2,
                ),
            ],
        };
        r
    }

    /// Rebuilds the rectangle from host-computed spatial components, one
    /// triple per vertex in flattening order: the first three go to the
    /// first triangle, the last three to the second. Homogeneous
    /// coordinates and both colors pass through untouched, as a rigid
    /// rotation requires.
    pub fn with_positions(self, ps: &Vec<(u32, u32, u32)>) -> (r: Self)
        requires
            ps@.len() == 6,
        ensures
            r@.len() == 6,
            forall|i: int| 0 <= i < 6 ==> r@[i] == repositioned(self@[i], ps@[i]),
    {
        let first = vec![ps[0], ps[1], ps[2]];
        let second = vec![ps[3], ps[4], ps[5]];
        let r = Rectangle {
            triangles: [
                self.triangles[0].with_positions(&first),
                self.triangles[1].with_positions(&second),
            ],
        };
        proof {
            assert(first@ =~= ps@.subrange(0, 3));
            assert(second@ =~= ps@.subrange(3, 6));
            assert forall|i: int| 0 <= i < 6 implies r@[i] == repositioned(self@[i], ps@[i]) by {
                if i < 3 {
                    assert(r@[i] == (r.triangles@[0])@[i]);
                    assert(self@[i] == (self.triangles@[0])@[i]);
                } else {
                    assert(r@[i] == (r.triangles@[1])@[i - 3]);
                    assert(self@[i] == (self.triangles@[1])@[i - 3]);
                }
            }
        }
        r
    }

    /// Flattens both triangles in order, paired with the vertex count a
    /// rectangle contributes to a draw call.
    pub fn into_raw(self) -> (r: (Vec<Vertex>, u32))
        ensures
            r.0@ == self@,
            r.0@.len() == 6,
            r.1 == 6,
    {
        let (mut out, _) = self.triangles[0].into_raw();
        let (mut second, _) = self.triangles[1].into_raw();
        out.append(&mut second);
        (out, 6)
    }
}

/// Six rectangular faces spanning a box between two opposite corners.
#[derive(Clone, Copy)]
pub struct Cube {
    pub faces: [Rectangle; 6],
}

/// The vertex sequence a call of `Cube::new` with these arguments
/// produces: the six faces' rectangles flattened in construction order.
/// Each face is built from a pair of corners drawn componentwise from
/// `c1` and `c2`, fixing one axis and spanning the other two, so the six
/// faces bound the box between the corners; all six share `w` and the
/// two colors.
pub open spec fn cube_spec(
    c1: (u32, u32, u32),
    c2: (u32, u32, u32),
    w: u32,
    color1: (u32, u32, u32, u32),
    color2: (u32, u32, u32, u32),
) -> Seq<Vertex> {
    rectangle_spec((c2.0, c1.1, c2.2), (c1.0, c2.1, c2.2), w, color1, color2) + rectangle_spec(
        (c1.0, c2.1, c1.2),
        c2,
        w,
        color1,
        color2,
    ) + rectangle_spec(c1, (c2.0, c1.1, c2.2), w, color1, color2) + rectangle_spec(
        c1,
        (c2.0, c2.1, c1.2),
        w,
        color1,
        color2,
    ) + rectangle_spec((c2.0, c1.1, c1.2), c2, w, color1, color2) + rectangle_spec(
        c1,
        (c1.0, c2.1, c2.2),
        w,
        color1,
        color2,
    )
}

impl View for Cube {
    type V = Seq<Vertex>;

    open spec fn view(&self) -> Seq<Vertex> {
        (self.faces@[0])@ + (self.faces@[1])@ + (self.faces@[2])@ + (self.faces@[3])@ + (
        self.faces@[4])@ + (self.faces@[5])@
    }
}

impl Cube {
    /// Builds the six faces of the box between `c1` and `c2`: each face
    /// is a rectangle between two corners drawn componentwise from `c1`
    /// and `c2` that share one axis, all sharing `w` and the two colors.
    /// Whenever `c1` and `c2` differ in every component the faces form a
    /// closed, non-degenerate box ([`lemma_cube_closed_box`]).
    pub fn new(
        c1: (u32, u32, u32),
        c2: (u32, u32, u32),
        w: u32,
        color1: (u32, u32, u32, u32),
        color2: (u32, u32, u32, u32),
    ) -> (r: Self)
        ensures
            r@ == cube_spec(c1, c2, w, color1, color2),
            r@.len() == 36,
    {
        let r = Cube {
            faces: [
                Rectangle::new((c2.0, c1.1, c2.2), (c1.0, c2.1, c2.2), w, color1, color2),
                Rectangle::new((c1.0, c2.1, c1.2), c2, w, color1, color2),
                Rectangle::new(c1, (c2.0, c1.1, c2.2), w, color1, color2),
                Rectangle::new(c1, (c2.0, c2.1, c1.2), w, color1, color2),
                Rectangle::new((c2.0, c1.1, c1.2), c2, w, color1, color2),
                Rectangle::new(c1, (c1.0, c2.1, c2.2), w, color1, color2),
            ],
        };
        r
    }

    /// Rebuilds the cube from host-computed spatial components, one
    /// triple per vertex in flattening order, six vertices per face.
    /// Every face keeps its homogeneous coordinates and colors, and each
    /// face is rebuilt independently -- as each is rotated independently.
    pub fn with_positions(self, ps: &Vec<(u32, u32, u32)>) -> (r: Self)
        requires
            ps@.len() == 36,
        ensures
            r@.len() == 36,
            forall|i: int| 0 <= i < 36 ==> r@[i] == repositioned(self@[i], ps@[i]),
    {
        let mut faces: Vec<Rectangle> = Vec::new();
        let mut k: usize = 0;
        while k < 6
            invariant
                0 <= k <= 6,
                ps@.len() == 36,
                faces@.len() == k,
                forall|f: int, j: int|
                    0 <= f < k && 0 <= j < 6 ==> (#[trigger] ((faces@[f])@[j])) == repositioned(
                        (self.faces@[f])@[j],
                        ps@[6 * f + j],
                    ),
            decreases 6 - k,
        {
            let sub = vec![
                ps[6 * k],
                ps[6 * k + 1],
                ps[6 * k + 2],
                ps[6 * k + 3],
                ps[6 * k + 4],
                ps[6 * k + 5],
            ];
            let face = self.faces[k].with_positions(&sub);
            faces.push(face);
            k = k + 1;
        }
        let r = Cube {
            faces: [faces[0], faces[1], faces[2], faces[3], faces[4], faces[5]],
        };
        proof {
            assert forall|i: int| 0 <= i < 36 implies r@[i] == repositioned(self@[i], ps@[i]) by {
                let f = i / 6;
                let j = i % 6;
                assert(0 <= f < 6 && 0 <= j < 6 && i == 6 * f + j) by (nonlinear_arith)
                    requires
                        0 <= i < 36,
                        f == i / 6,
                        j == i % 6,
                ;
                assert(r.faces@[f] == faces@[f]);
                assert((faces@[f])@[j] == repositioned((self.faces@[f])@[j], ps@[6 * f + j]));
                assert(r@[i] == (r.faces@[f])@[j]);
                assert(self@[i] == (self.faces@[f])@[j]);
            }
        }
        r
    }

    /// Flattens the six faces in construction order, paired with the face
    /// count -- the draw call's instance count, not a vertex or index
    /// count.
    pub fn into_raw(self) -> (r: (Vec<Vertex>, u32))
        ensures
            r.0@ == self@,
            r.0@.len() == 36,
            r.1 == 6,
    {
        let (mut out, _) = self.faces[0].into_raw();
        let (mut f, _) = self.faces[1].into_raw();
        out.append(&mut f);
        let (mut f, _) = self.faces[2].into_raw();
        out.append(&mut f);
        let (mut f, _) = self.faces[3].into_raw();
        out.append(&mut f);
        let (mut f, _) = self.faces[4].into_raw();
        out.append(&mut f);
        let (mut f, _) = self.faces[5].into_raw();
        out.append(&mut f);
        (out, 6)
    }
}

/// The two-tone law: a rectangle's flattened vertex sequence carries
/// `color1` on its first three vertices and `color2` on its last three,
/// whenever the two colors differ.
pub proof fn lemma_rectangle_two_tone(
    c1: (u32, u32, u32),
    c2: (u32, u32, u32),
    w: u32,
    color1: (u32, u32, u32, u32),
    color2: (u32, u32, u32, u32),
)
    requires
        color1 != color2,
    ensures
        rectangle_spec(c1, c2, w, color1, color2).len() == 6,
        forall|i: int|
            0 <= i < 3 ==> (#[trigger] rectangle_spec(c1, c2, w, color1, color2)[i]).color
                == color1,
        forall|i: int|
            3 <= i < 6 ==> (#[trigger] rectangle_spec(c1, c2, w, color1, color2)[i]).color
                == color2,
{
}

/// The quad law: the rectangle's two triangles share a diagonal -- their
/// first and third vertices coincide and are the two points
/// `rect_diagonal` gives -- while `c1` is the middle vertex of the first
/// half and `c2` of the second. So the vertex set is exactly the quad's
/// four corners, with `c1` and `c2` opposite.
pub proof fn lemma_rectangle_quad(
    c1: (u32, u32, u32),
    c2: (u32, u32, u32),
    w: u32,
    color1: (u32, u32, u32, u32),
    color2: (u32, u32, u32, u32),
)
    ensures
        ({
            let s = rectangle_spec(c1, c2, w, color1, color2);
            let d = rect_diagonal(c1, c2);
            &&& s.len() == 6
            &&& s[0].position == pos4(d.0, w)
            &&& s[1].position == pos4(c1, w)
            &&& s[2].position == pos4(d.1, w)
            &&& s[3].position == s[0].position
            &&& s[4].position == pos4(c2, w)
            &&& s[5].position == s[2].position
        }),
{
}

/// Whether `p` is a corner of the box between `c1` and `c2`: each of its
/// spatial components comes from the matching component of `c1` or `c2`,
/// and its homogeneous coordinate is `w`.
pub open spec fn is_box_corner(
    c1: (u32, u32, u32),
    c2: (u32, u32, u32),
    w: u32,
    p: (u32, u32, u32, u32),
) -> bool {
    &&& (p.0 == c1.0 || p.0 == c2.0)
    &&& (p.1 == c1.1 || p.1 == c2.1)
    &&& (p.2 == c1.2 || p.2 == c2.2)
    &&& p.3 == w
}

/// The closed-box law: whenever the two corners differ in every
/// component, the cube's 36 vertices lie exactly on the 8 corners of the
/// box between them -- every vertex is a box corner, and every box
/// corner is hit -- each face lies in one of the box's six bounding
/// planes, the six planes are all covered, and no triangle is
/// degenerate: within each triangle the three positions are pairwise
/// distinct.
pub proof fn lemma_cube_closed_box(
    c1: (u32, u32, u32),
    c2: (u32, u32, u32),
    w: u32,
    color1: (u32, u32, u32, u32),
    color2: (u32, u32, u32, u32),
)
    requires
        c1.0 != c2.0,
        c1.1 != c2.1,
        c1.2 != c2.2,
    ensures
        ({
            let s = cube_spec(c1, c2, w, color1, color2);
            &&& s.len() == 36
            &&& forall|j: int|
                0 <= j < 36 ==> is_box_corner(c1, c2, w, (#[trigger] s[j]).position)
            &&& s[19].position == pos4(c1, w)
            &&& s[10].position == pos4(c2, w)
            &&& s[6].position == pos4((c1.0, c2.1, c2.2), w)
            &&& s[18].position == pos4((c1.0, c2.1, c1.2), w)
            &&& s[24].position == pos4((c2.0, c1.1, c2.2), w)
            &&& s[25].position == pos4((c2.0, c1.1, c1.2), w)
            &&& s[26].position == pos4((c2.0, c2.1, c1.2), w)
            &&& s[30].position == pos4((c1.0, c1.1, c2.2), w)
            &&& forall|j: int| 0 <= j < 6 ==> (#[trigger] s[j]).position.2 == c2.2
            &&& forall|j: int| 6 <= j < 12 ==> (#[trigger] s[j]).position.1 == c2.1
            &&& forall|j: int| 12 <= j < 18 ==> (#[trigger] s[j]).position.1 == c1.1
            &&& forall|j: int| 18 <= j < 24 ==> (#[trigger] s[j]).position.2 == c1.2
            &&& forall|j: int| 24 <= j < 30 ==> (#[trigger] s[j]).position.0 == c2.0
            &&& forall|j: int| 30 <= j < 36 ==> (#[trigger] s[j]).position.0 == c1.0
            &&& forall|j: int, k: int|
                0 <= j < k < 36 && j / 3 == k / 3 ==> (#[trigger] s[j]).position != (
                #[trigger] s[k]).position
        }),
{
    let s = cube_spec(c1, c2, w, color1, color2);
    assert forall|j: int| 0 <= j < 36 implies is_box_corner(c1, c2, w, (#[trigger] s[j]).position)
        && (j < 6 ==> s[j].position.2 == c2.2) && (6 <= j < 12 ==> s[j].position.1 == c2.1) && (12
        <= j < 18 ==> s[j].position.1 == c1.1) && (18 <= j < 24 ==> s[j].position.2 == c1.2) && (24
        <= j < 30 ==> s[j].position.0 == c2.0) && (30 <= j < 36 ==> s[j].position.0 == c1.0) by {
        assert(0 <= j % 6 < 6) by (nonlinear_arith)
            requires
                0 <= j < 36,
        ;
    }
    assert forall|j: int, k: int| 0 <= j < k < 36 && j / 3 == k / 3 implies (
    #[trigger] s[j]).position != (#[trigger] s[k]).position by {
        assert(k == j + 1 || k == j + 2) by (nonlinear_arith)
            requires
                0 <= j < k < 36,
                j / 3 == k / 3,
        ;
    }
}

} // verus!
