use vstd::prelude::*;
use crate::store::Face;

verus! {

/// A direction or a lattice position in space, in units of one cubelet.
pub type Triple = (int, int, int);

/// Face of the store that index `i` lies on.
pub open spec fn face_of(i: int) -> Face {
    let k = i / 9;
    if k == 0 {
        Face::Left
    } else if k == 1 {
        Face::Right
    } else if k == 2 {
        Face::Down
    } else if k == 3 {
        Face::Up
    } else if k == 4 {
        Face::Back
    } else {
        Face::Front
    }
}

/// Outward normal of each face: LEFT +x, RIGHT -x, DOWN -y, UP +y, BACK +z, FRONT -z.
pub open spec fn normal(face: Face) -> Triple {
    match face {
        Face::Left => (1, 0, 0),
        Face::Right => (-1, 0, 0),
        Face::Down => (0, -1, 0),
        Face::Up => (0, 1, 0),
        Face::Back => (0, 0, 1),
        Face::Front => (0, 0, -1),
    }
}

/// The face opposite `face`.
pub open spec fn opposite(face: Face) -> Face {
    match face {
        Face::Left => Face::Right,
        Face::Right => Face::Left,
        Face::Down => Face::Up,
        Face::Up => Face::Down,
        Face::Back => Face::Front,
        Face::Front => Face::Back,
    }
}

/// Position of the cubelet that carries facelet `i`, each coordinate in -1..=1.
/// Within a face, local index `3 * r + c` sits at `1 - r` along the first
/// in-plane axis and at `1 - c` along the second (y then z on LEFT and RIGHT,
/// x then z on DOWN and UP, x then y on BACK and FRONT).
pub open spec fn cubie(i: int) -> Triple {
    let l = i % 9;
    let u = 1 - l / 3;
    let w = 1 - l % 3;
    match face_of(i) {
        Face::Left => (1, u, w),
        Face::Right => (-1, u, w),
        Face::Down => (u, -1, w),
        Face::Up => (u, 1, w),
        Face::Back => (u, w, 1),
        Face::Front => (u, w, -1),
    }
}

/// How far `p` lies along the outward normal of `face`.
pub open spec fn depth(face: Face, p: Triple) -> int {
    match face {
        Face::Left => p.0,
        Face::Right => -p.0,
        Face::Down => -p.1,
        Face::Up => p.1,
        Face::Back => p.2,
        Face::Front => -p.2,
    }
}

/// `v` turned a quarter turn about the outward normal of `face`, by the
/// right-hand rule.
pub open spec fn quarter_turn(face: Face, v: Triple) -> Triple {
    let (x, y, z) = v;
    match face {
        Face::Left => (x, -z, y),
        Face::Right => (x, z, -y),
        Face::Down => (-z, y, x),
        Face::Up => (z, y, -x),
        Face::Back => (-y, x, z),
        Face::Front => (y, -x, z),
    }
}

/// Whether facelet `i` rides on the layer that a turn of `face` moves: the
/// face itself and the ring of facelets bordering it.
pub open spec fn in_layer(face: Face, i: int) -> bool {
    depth(face, cubie(i)) == 1
}

/// An index of the store is one of the 54 values, one by one: lets the
/// solver settle a fact about every index by checking each in turn.
pub proof fn lemma_index_cases(j: int)
    requires
        0 <= j < 54,
    ensures
        j == 0 || j == 1 || j == 2 || j == 3 || j == 4 || j == 5 || j == 6 || j == 7 || j == 8 ||
        j == 9 || j == 10 || j == 11 || j == 12 || j == 13 || j == 14 || j == 15 || j == 16 || j == 17 ||
        j == 18 || j == 19 || j == 20 || j == 21 || j == 22 || j == 23 || j == 24 || j == 25 || j == 26 ||
        j == 27 || j == 28 || j == 29 || j == 30 || j == 31 || j == 32 || j == 33 || j == 34 || j == 35 ||
        j == 36 || j == 37 || j == 38 || j == 39 || j == 40 || j == 41 || j == 42 || j == 43 || j == 44 ||
        j == 45 || j == 46 || j == 47 || j == 48 || j == 49 || j == 50 || j == 51 || j == 52 || j == 53,
{
}

} // verus!
