use vstd::prelude::*;
use crate::error::CubeError;
use crate::store::FaceletStore;
use crate::layout::{cubie, face_of, normal};

verus! {

/// A point or offset in space, in whatever length unit the caller picks.
#[derive(Debug, Clone, Copy, PartialEq, Eq, Structural)]
pub struct Point {
    pub x: i64,
    pub y: i64,
    pub z: i64,
}

/// Component `axis` (0 = x, 1 = y, 2 = z) of `p`.
pub open spec fn coord(p: Point, axis: int) -> i64 {
    if axis == 0 {
        p.x
    } else if axis == 1 {
        p.y
    } else {
        p.z
    }
}

/// `p` with component `axis` replaced by `v`.
pub open spec fn with_coord(p: Point, axis: int, v: i64) -> Point {
    if axis == 0 {
        Point { x: v, ..p }
    } else if axis == 1 {
        Point { y: v, ..p }
    } else {
        Point { z: v, ..p }
    }
}

/// Every component of `p` can be negated without overflow.
pub open spec fn point_negatable(p: Point) -> bool {
    p.x != i64::MIN && p.y != i64::MIN && p.z != i64::MIN
}

/// Every component of every point can be negated without overflow.
pub open spec fn negatable(t: Seq<Point>) -> bool {
    forall|k: int| 0 <= k < t.len() ==> point_negatable(#[trigger] t[k])
}

/// `p` with component `axis` negated.
pub open spec fn flip_point(p: Point, axis: int) -> Point {
    with_coord(p, axis, (-coord(p, axis)) as i64)
}

/// `p` with components `a` and `b` exchanged.
pub open spec fn swap_point(p: Point, a: int, b: int) -> Point {
    with_coord(with_coord(p, a, coord(p, b)), b, coord(p, a))
}

/// Every point of `t` with component `axis` negated.
pub open spec fn flipped(t: Seq<Point>, axis: int) -> Seq<Point> {
    t.map_values(|p: Point| flip_point(p, axis))
}

/// Every point of `t` with components `a` and `b` exchanged.
pub open spec fn swapped(t: Seq<Point>, a: int, b: int) -> Seq<Point> {
    t.map_values(|p: Point| swap_point(p, a, b))
}

fn negate_coord(p: Point, axis: usize) -> (q: Point)
    requires
        axis < 3,
        point_negatable(p),
    ensures
        q == flip_point(p, axis as int),
{
    if axis == 0 {
        Point { x: -p.x, ..p }
    } else if axis == 1 {
        Point { y: -p.y, ..p }
    } else {
        Point { z: -p.z, ..p }
    }
}

fn get_coord(p: Point, axis: usize) -> (v: i64)
    requires
        axis < 3,
    ensures
        v == coord(p, axis as int),
{
    if axis == 0 {
        p.x
    } else if axis == 1 {
        p.y
    } else {
        p.z
    }
}

fn set_coord(p: Point, axis: usize, v: i64) -> (q: Point)
    requires
        axis < 3,
    ensures
        q == with_coord(p, axis as int, v),
{
    if axis == 0 {
        Point { x: v, ..p }
    } else if axis == 1 {
        Point { y: v, ..p }
    } else {
        Point { z: v, ..p }
    }
}

/// Negates component `axis` of every point of `template`; fails with
/// `InvalidAxis`, leaving the template as it was, unless `axis` is 0, 1 or 2.
pub fn sign_flip(template: &mut Vec<Point>, axis: usize) -> (r: Result<(), CubeError>)
    requires
        axis < 3 ==> negatable(old(template)@),
    ensures
        axis < 3 ==> r is Ok && final(template)@ == flipped(old(template)@, axis as int),
        axis >= 3 ==> r == Err::<(), CubeError>(CubeError::InvalidAxis),
        axis >= 3 ==> final(template)@ == old(template)@,
{
    if axis >= 3 {
        return Err(CubeError::InvalidAxis);
    }
    let ghost before = template@;
    let mut i: usize = 0;
    while i < template.len()
        invariant
            axis < 3,
            negatable(before),
            i <= template@.len(),
            template@.len() == before.len(),
            forall|k: int| 0 <= k < i ==> template@[k] == flip_point(before[k], axis as int),
            forall|k: int| i <= k < template@.len() ==> template@[k] == before[k],
        decreases template@.len() - i,
    {
        let p = template[i];
        assert(point_negatable(before[i as int]));
        let q = negate_coord(p, axis);
        template.set(i, q);
        i = i + 1;
    }
    assert(template@ =~= flipped(before, axis as int));
    Ok(())
}

/// Exchanges components `a` and `b` of every point of `template`; fails with
/// `InvalidAxis`, leaving the template as it was, unless both are 0, 1 or 2.
pub fn swap_axes(template: &mut Vec<Point>, a: usize, b: usize) -> (r: Result<(), CubeError>)
    ensures
        a < 3 && b < 3 ==> r is Ok && final(template)@ == swapped(old(template)@, a as int, b as int),
        !(a < 3 && b < 3) ==> r == Err::<(), CubeError>(CubeError::InvalidAxis),
        !(a < 3 && b < 3) ==> final(template)@ == old(template)@,
{
    if a >= 3 || b >= 3 {
        return Err(CubeError::InvalidAxis);
    }
    let ghost before = template@;
    let mut i: usize = 0;
    while i < template.len()
        invariant
            a < 3 && b < 3,
            i <= template@.len(),
            template@.len() == before.len(),
            forall|k: int| 0 <= k < i ==> template@[k] == swap_point(before[k], a as int, b as int),
            forall|k: int| i <= k < template@.len() ==> template@[k] == before[k],
        decreases template@.len() - i,
    {
        let p = template[i];
        let va = get_coord(p, a);
        let vb = get_coord(p, b);
        let q = set_coord(set_coord(p, a, vb), b, va);
        template.set(i, q);
        i = i + 1;
    }
    assert(template@ =~= swapped(before, a as int, b as int));
    Ok(())
}

/// `offset`, `0` or `-offset` for a cubelet coordinate of 1, 0 or -1.
pub open spec fn step(offset: i64, u: int) -> int {
    if u == 1 {
        offset as int
    } else if u == 0 {
        0
    } else {
        -offset
    }
}

/// The nine offsets of the first face: `emerge` out along x, and local index
/// `3 * r + c` at `step(offset, 1 - r)` along y and `step(offset, 1 - c)` along z.
pub open spec fn template_points(emerge: i64, offset: i64) -> Seq<Point> {
    Seq::new(
        9,
        |l: int| Point { x: emerge, y: step(offset, 1 - l / 3) as i64, z: step(offset, 1 - l % 3) as i64 },
    )
}

/// The offsets of all six faces, produced from the template as the
/// generator does: the template, then after each of the transforms
/// flip 0, swap 0 1, flip 1, swap 1 2, flip 2 in turn.
pub open spec fn generated(t: Seq<Point>) -> Seq<Point> {
    let f1 = flipped(t, 0);
    let f2 = swapped(f1, 0, 1);
    let f3 = flipped(f2, 1);
    let f4 = swapped(f3, 1, 2);
    let f5 = flipped(f4, 2);
    t + f1 + f2 + f3 + f4 + f5
}

/// One component of a facelet's offset: `emerge` out along the face's
/// normal component `n` when that is not 0, else the cubelet coordinate `u`
/// scaled by `offset`.
pub open spec fn placed(n: int, u: int, emerge: i64, offset: i64) -> int {
    if n == 1 {
        emerge as int
    } else if n == -1 {
        -emerge
    } else {
        step(offset, u)
    }
}

/// Where facelet `i` sits: `emerge` out along its face's outward normal and
/// `offset` times its cubelet coordinate along the other two axes.
pub open spec fn facelet_offset(i: int, emerge: i64, offset: i64) -> (int, int, int) {
    let n = normal(face_of(i));
    let p = cubie(i);
    (
        placed(n.0, p.0, emerge, offset),
        placed(n.1, p.1, emerge, offset),
        placed(n.2, p.2, emerge, offset),
    )
}

/// The components of `p` as integers.
pub open spec fn triple_of(p: Point) -> (int, int, int) {
    (p.x as int, p.y as int, p.z as int)
}

/// Offsets paired with colors, position by position.
pub open spec fn paired<T>(g: Seq<Point>, s: Seq<T>) -> Seq<(Point, T)> {
    Seq::new(s.len(), |i: int| (g[i], s[i]))
}

/// The template of one face: nine offsets, `emerge_distance` out from the
/// centre of the cube and `offset_distance` apart within the face.
pub fn face_template(emerge_distance: i64, offset_distance: i64) -> (r: Vec<Point>)
    requires
        emerge_distance != i64::MIN,
        offset_distance != i64::MIN,
    ensures
        r@ == template_points(emerge_distance, offset_distance),
        negatable(r@),
{
    let e = emerge_distance;
    let o = offset_distance;
    let n = -offset_distance;
    let r = vec![
        Point { x: e, y: o, z: o },
        Point { x: e, y: o, z: 0 },
        Point { x: e, y: o, z: n },
        Point { x: e, y: 0, z: o },
        Point { x: e, y: 0, z: 0 },
        Point { x: e, y: 0, z: n },
        Point { x: e, y: n, z: o },
        Point { x: e, y: n, z: 0 },
        Point { x: e, y: n, z: n },
    ];
    assert(r@ =~= template_points(emerge_distance, offset_distance));
    r
}

proof fn lemma_transforms_keep_negatable(t: Seq<Point>)
    requires
        negatable(t),
    ensures
        forall|axis: int| 0 <= axis < 3 ==> negatable(#[trigger] flipped(t, axis)),
        forall|a: int, b: int| 0 <= a < 3 && 0 <= b < 3 ==> negatable(#[trigger] swapped(t, a, b)),
{
    assert forall|axis: int| 0 <= axis < 3 implies negatable(#[trigger] flipped(t, axis)) by {
        assert forall|k: int| 0 <= k < t.len() implies point_negatable(#[trigger] flipped(t, axis)[k]) by {
            assert(point_negatable(t[k]));
        }
    }
    assert forall|a: int, b: int| 0 <= a < 3 && 0 <= b < 3 implies negatable(#[trigger] swapped(t, a, b)) by {
        assert forall|k: int| 0 <= k < t.len() implies point_negatable(#[trigger] swapped(t, a, b)[k]) by {
            assert(point_negatable(t[k]));
        }
    }
}

fn copy_points(t: &Vec<Point>) -> (r: Vec<Point>)
    ensures
        r@ == t@,
{
    let mut r: Vec<Point> = Vec::new();
    let mut i: usize = 0;
    while i < t.len()
        invariant
            i <= t@.len(),
            r@ == t@.subrange(0, i as int),
        decreases t@.len() - i,
    {
        r.push(t[i]);
        i = i + 1;
        assert(r@ =~= t@.subrange(0, i as int));
    }
    assert(r@ =~= t@);
    r
}

fn emit(out: &mut Vec<Point>, t: &Vec<Point>)
    requires
        old(out)@.len() + t@.len() <= 54,
    ensures
        final(out)@ == old(out)@ + t@,
{
    let ghost before = out@;
    let mut i: usize = 0;
    while i < t.len()
        invariant
            i <= t@.len(),
            before.len() + t@.len() <= 54,
            out@ == before + t@.subrange(0, i as int),
        decreases t@.len() - i,
    {
        out.push(t[i]);
        i = i + 1;
        assert(out@ =~= before + t@.subrange(0, i as int));
    }
    assert(t@.subrange(0, t@.len() as int) =~= t@);
}

/// The offsets of all 54 facelets, in store order, derived from the template
/// of the first face by the fixed sequence of symmetry transforms.
pub fn generate_offsets(template: &Vec<Point>) -> (r: Vec<Point>)
    requires
        template@.len() == 9,
        negatable(template@),
    ensures
        r@ == generated(template@),
{
    let ghost t0 = template@;
    proof {
        lemma_transforms_keep_negatable(t0);
        lemma_transforms_keep_negatable(flipped(t0, 0));
        lemma_transforms_keep_negatable(swapped(flipped(t0, 0), 0, 1));
        lemma_transforms_keep_negatable(flipped(swapped(flipped(t0, 0), 0, 1), 1));
    }
    let mut t = copy_points(template);
    let mut out: Vec<Point> = Vec::new();
    emit(&mut out, &t);
    let _ = sign_flip(&mut t, 0);
    emit(&mut out, &t);
    let _ = swap_axes(&mut t, 0, 1);
    emit(&mut out, &t);
    let _ = sign_flip(&mut t, 1);
    emit(&mut out, &t);
    let _ = swap_axes(&mut t, 1, 2);
    emit(&mut out, &t);
    let _ = sign_flip(&mut t, 2);
    emit(&mut out, &t);
    out
}

/// Each facelet's offset paired with its color, in store order: what a scene
/// needs to draw the cube.
pub fn pair_with_colors<T: Copy>(offsets: &Vec<Point>, store: &FaceletStore<T>) -> (r: Vec<(Point, T)>)
    requires
        offsets@.len() == 54,
        store.wf(),
    ensures
        r@ == paired(offsets@, store@),
{
    let mut r: Vec<(Point, T)> = Vec::new();
    let mut i: usize = 0;
    while i < 54
        invariant
            i <= 54,
            offsets@.len() == 54,
            store.wf(),
            r@ == paired(offsets@, store@).subrange(0, i as int),
        decreases 54 - i,
    {
        let color = store.get_at(i);
        r.push((offsets[i], color));
        i = i + 1;
        assert(r@ =~= paired(offsets@, store@).subrange(0, i as int));
    }
    assert(r@ =~= paired(offsets@, store@));
    r
}

} // verus!
