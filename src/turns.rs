use vstd::prelude::*;
use crate::store::{Face, FaceletStore};

verus! {

/// Four distinct facelet indices taking part in one four-cycle.
#[derive(Debug, Clone, Copy, PartialEq, Eq, Structural)]
pub struct Cycle {
    pub a: usize,
    pub b: usize,
    pub c: usize,
    pub d: usize,
}

impl Cycle {
    /// The four indices are facelets of the store and pairwise distinct.
    pub open spec fn valid(self) -> bool {
        &&& self.a < 54 && self.b < 54 && self.c < 54 && self.d < 54
        &&& self.a != self.b && self.a != self.c && self.a != self.d
        &&& self.b != self.c && self.b != self.d && self.c != self.d
    }

    /// Whether `i` is one of the cycle's four indices.
    pub open spec fn contains(self, i: int) -> bool {
        i == self.a || i == self.b || i == self.c || i == self.d
    }

    /// No index lies in both cycles.
    pub open spec fn disjoint(self, other: Cycle) -> bool {
        !other.contains(self.a as int) && !other.contains(self.b as int)
            && !other.contains(self.c as int) && !other.contains(self.d as int)
    }

    /// The index whose old color the cycle brings to `i`: `a` takes the color
    /// of `b`, `b` that of `c`, `c` that of `d`, and `d` that of `a`.
    pub open spec fn source(self, i: int) -> int {
        if i == self.a {
            self.b as int
        } else if i == self.b {
            self.c as int
        } else if i == self.c {
            self.d as int
        } else if i == self.d {
            self.a as int
        } else {
            i
        }
    }
}

/// `s` after the four-cycle `c`.
pub open spec fn cycled<T>(s: Seq<T>, c: Cycle) -> Seq<T> {
    Seq::new(s.len(), |i: int| s[c.source(i)])
}

/// The five four-cycles of one face turn: three that carry the border ring
/// from one neighbouring face to the next, one over the face's own corners
/// and one over its own edges.
#[derive(Debug, Clone, Copy, PartialEq, Eq, Structural)]
pub struct TurnTable {
    pub ring0: Cycle,
    pub ring1: Cycle,
    pub ring2: Cycle,
    pub corners: Cycle,
    pub edges: Cycle,
}

impl TurnTable {
    /// Five valid four-cycles, no two sharing an index.
    pub open spec fn valid(self) -> bool {
        &&& self.ring0.valid() && self.ring1.valid() && self.ring2.valid()
        &&& self.corners.valid() && self.edges.valid()
        &&& self.ring0.disjoint(self.ring1) && self.ring0.disjoint(self.ring2)
        &&& self.ring0.disjoint(self.corners) && self.ring0.disjoint(self.edges)
        &&& self.ring1.disjoint(self.ring2) && self.ring1.disjoint(self.corners)
        &&& self.ring1.disjoint(self.edges) && self.ring2.disjoint(self.corners)
        &&& self.ring2.disjoint(self.edges) && self.corners.disjoint(self.edges)
    }

    /// Whether `j` is one of the twenty indices of the five cycles.
    pub open spec fn moves(self, j: int) -> bool {
        self.on_ring(j) || self.corners.contains(j) || self.edges.contains(j)
    }

    /// Whether `j` is one of the twelve indices of the three ring cycles.
    pub open spec fn on_ring(self, j: int) -> bool {
        self.ring0.contains(j) || self.ring1.contains(j) || self.ring2.contains(j)
    }

    /// The index whose old color the five cycles, applied in order, bring to `j`.
    pub open spec fn source(self, j: int) -> int {
        self.ring0.source(
            self.ring1.source(self.ring2.source(self.corners.source(self.edges.source(j)))),
        )
    }
}

/// `s` after the five cycles of `t`, applied in order.
pub open spec fn table_turned<T>(s: Seq<T>, t: TurnTable) -> Seq<T> {
    Seq::new(s.len(), |j: int| s[t.source(j)])
}

/// The cycle over `a`, `b`, `c` and `d`.
pub open spec fn cyc(a: usize, b: usize, c: usize, d: usize) -> Cycle {
    Cycle { a, b, c, d }
}

/// The cycles of each clockwise face turn.
///
/// On FRONT and LEFT each ring cycle moves one fixed local index across the
/// four neighbouring faces: local 2, 5 and 8 from LEFT to DOWN to RIGHT to UP
/// for FRONT, local 0, 1 and 2 from BACK to UP to FRONT to DOWN for LEFT.
/// The other four tables follow the facelet layout of `cubie`: their layer
/// turns as a rigid body about the face's outward normal (see
/// `lemma_turn_in_space`).
pub open spec fn turn_table(face: Face) -> TurnTable {
    match face {
        Face::Left => TurnTable {
            ring0: cyc(36, 18, 45, 27),
            ring1: cyc(37, 19, 46, 28),
            ring2: cyc(38, 20, 47, 29),
            corners: cyc(6, 8, 2, 0),
            edges: cyc(3, 7, 5, 1),
        },
        Face::Right => TurnTable {
            ring0: cyc(24, 53, 35, 42),
            ring1: cyc(25, 52, 34, 43),
            ring2: cyc(26, 51, 33, 44),
            corners: cyc(9, 15, 17, 11),
            edges: cyc(10, 12, 16, 14),
        },
        Face::Down => TurnTable {
            ring0: cyc(6, 47, 17, 44),
            ring1: cyc(7, 50, 16, 41),
            ring2: cyc(8, 53, 15, 38),
            corners: cyc(18, 20, 26, 24),
            edges: cyc(19, 23, 25, 21),
        },
        Face::Up => TurnTable {
            ring0: cyc(0, 42, 11, 45),
            ring1: cyc(1, 39, 10, 48),
            ring2: cyc(2, 36, 9, 51),
            corners: cyc(27, 33, 35, 29),
            edges: cyc(28, 30, 34, 32),
        },
        Face::Back => TurnTable {
            ring0: cyc(0, 18, 15, 33),
            ring1: cyc(3, 21, 12, 30),
            ring2: cyc(6, 24, 9, 27),
            corners: cyc(36, 38, 44, 42),
            edges: cyc(37, 41, 43, 39),
        },
        Face::Front => TurnTable {
            ring0: cyc(20, 2, 29, 11),
            ring1: cyc(23, 5, 32, 14),
            ring2: cyc(26, 8, 35, 17),
            corners: cyc(45, 51, 53, 47),
            edges: cyc(46, 48, 52, 50),
        },
    }
}

/// A valid cycle maps store indices to store indices.
proof fn lemma_cycle_source_in_range(c: Cycle, i: int)
    requires
        c.valid(),
        0 <= i < 54,
    ensures
        0 <= c.source(i) < 54,
{
}

/// Applying the five cycles of `t` one after the other is `table_turned`.
pub proof fn lemma_cycles_compose<T>(s: Seq<T>, t: TurnTable)
    requires
        s.len() == 54,
        t.valid(),
    ensures
        cycled(cycled(cycled(cycled(cycled(s, t.ring0), t.ring1), t.ring2), t.corners), t.edges)
            == table_turned(s, t),
{
    let s1 = cycled(s, t.ring0);
    let s2 = cycled(s1, t.ring1);
    let s3 = cycled(s2, t.ring2);
    let s4 = cycled(s3, t.corners);
    let s5 = cycled(s4, t.edges);
    assert forall|j: int| 0 <= j < 54 implies s5[j] == table_turned(s, t)[j] by {
        let j4 = t.edges.source(j);
        lemma_cycle_source_in_range(t.edges, j);
        let j3 = t.corners.source(j4);
        lemma_cycle_source_in_range(t.corners, j4);
        let j2 = t.ring2.source(j3);
        lemma_cycle_source_in_range(t.ring2, j3);
        let j1 = t.ring1.source(j2);
        lemma_cycle_source_in_range(t.ring1, j2);
        assert(s5[j] == s4[j4]);
        assert(s4[j4] == s3[j3]);
        assert(s3[j3] == s2[j2]);
        assert(s2[j2] == s1[j1]);
    }
    assert(s5 =~= table_turned(s, t));
}

/// Every face's table is five valid four-cycles, no two sharing an index.
pub proof fn lemma_tables_valid(face: Face)
    ensures
        turn_table(face).valid(),
{
}

/// `s` after one clockwise turn of `face`.
pub open spec fn turned<T>(s: Seq<T>, face: Face) -> Seq<T> {
    table_turned(s, turn_table(face))
}

/// `s` after one counter-clockwise turn of `face`: three clockwise turns.
pub open spec fn counter_turned<T>(s: Seq<T>, face: Face) -> Seq<T> {
    turned(turned(turned(s, face), face), face)
}

/// The cycles of `face`'s clockwise turn.
pub fn face_table(face: Face) -> (r: TurnTable)
    ensures
        r == turn_table(face),
{
    match face {
        Face::Left => TurnTable {
            ring0: Cycle { a: 36, b: 18, c: 45, d: 27 },
            ring1: Cycle { a: 37, b: 19, c: 46, d: 28 },
            ring2: Cycle { a: 38, b: 20, c: 47, d: 29 },
            corners: Cycle { a: 6, b: 8, c: 2, d: 0 },
            edges: Cycle { a: 3, b: 7, c: 5, d: 1 },
        },
        Face::Right => TurnTable {
            ring0: Cycle { a: 24, b: 53, c: 35, d: 42 },
            ring1: Cycle { a: 25, b: 52, c: 34, d: 43 },
            ring2: Cycle { a: 26, b: 51, c: 33, d: 44 },
            corners: Cycle { a: 9, b: 15, c: 17, d: 11 },
            edges: Cycle { a: 10, b: 12, c: 16, d: 14 },
        },
        Face::Down => TurnTable {
            ring0: Cycle { a: 6, b: 47, c: 17, d: 44 },
            ring1: Cycle { a: 7, b: 50, c: 16, d: 41 },
            ring2: Cycle { a: 8, b: 53, c: 15, d: 38 },
            corners: Cycle { a: 18, b: 20, c: 26, d: 24 },
            edges: Cycle { a: 19, b: 23, c: 25, d: 21 },
        },
        Face::Up => TurnTable {
            ring0: Cycle { a: 0, b: 42, c: 11, d: 45 },
            ring1: Cycle { a: 1, b: 39, c: 10, d: 48 },
            ring2: Cycle { a: 2, b: 36, c: 9, d: 51 },
            corners: Cycle { a: 27, b: 33, c: 35, d: 29 },
            edges: Cycle { a: 28, b: 30, c: 34, d: 32 },
        },
        Face::Back => TurnTable {
            ring0: Cycle { a: 0, b: 18, c: 15, d: 33 },
            ring1: Cycle { a: 3, b: 21, c: 12, d: 30 },
            ring2: Cycle { a: 6, b: 24, c: 9, d: 27 },
            corners: Cycle { a: 36, b: 38, c: 44, d: 42 },
            edges: Cycle { a: 37, b: 41, c: 43, d: 39 },
        },
        Face::Front => TurnTable {
            ring0: Cycle { a: 20, b: 2, c: 29, d: 11 },
            ring1: Cycle { a: 23, b: 5, c: 32, d: 14 },
            ring2: Cycle { a: 26, b: 8, c: 35, d: 17 },
            corners: Cycle { a: 45, b: 51, c: 53, d: 47 },
            edges: Cycle { a: 46, b: 48, c: 52, d: 50 },
        },
    }
}

impl<T: Copy> FaceletStore<T> {
    /// Moves the color at `b` to `a`, at `c` to `b`, at `d` to `c`, and the
    /// color that was at `a` to `d`, all at once.
    pub fn rotate_four(&mut self, a: usize, b: usize, c: usize, d: usize)
        requires
            old(self).wf(),
            cyc(a, b, c, d).valid(),
        ensures
            final(self).wf(),
            final(self)@ == cycled(old(self)@, cyc(a, b, c, d)),
    {
        let saved = self.get_at(a);
        let vb = self.get_at(b);
        self.put_at(a, vb);
        let vc = self.get_at(c);
        self.put_at(b, vc);
        let vd = self.get_at(d);
        self.put_at(c, vd);
        self.put_at(d, saved);
        assert(self@ =~= cycled(old(self)@, cyc(a, b, c, d)));
    }

    /// Applies the five cycles of `t` in order.
    pub fn apply_table(&mut self, t: TurnTable)
        requires
            old(self).wf(),
            t.valid(),
        ensures
            final(self).wf(),
            final(self)@ == table_turned(old(self)@, t),
    {
        self.apply_cycle(t.ring0);
        self.apply_cycle(t.ring1);
        self.apply_cycle(t.ring2);
        self.apply_cycle(t.corners);
        self.apply_cycle(t.edges);
        proof {
            lemma_cycles_compose(old(self)@, t);
        }
    }

    fn apply_cycle(&mut self, c: Cycle)
        requires
            old(self).wf(),
            c.valid(),
        ensures
            final(self).wf(),
            final(self)@ == cycled(old(self)@, c),
    {
        self.rotate_four(c.a, c.b, c.c, c.d);
    }

    /// Turns `face` a quarter turn clockwise: the five four-cycles of its
    /// table, applied in order.
    pub fn turn_clockwise(&mut self, face: Face)
        requires
            old(self).wf(),
        ensures
            final(self).wf(),
            final(self)@ == turned(old(self)@, face),
    {
        proof {
            lemma_tables_valid(face);
        }
        self.apply_table(face_table(face));
    }

    /// Turns `face` a quarter turn counter-clockwise: the clockwise turn
    /// applied three times.
    pub fn turn_counter_clockwise(&mut self, face: Face)
        requires
            old(self).wf(),
        ensures
            final(self).wf(),
            final(self)@ == turned(turned(turned(old(self)@, face), face), face),
    {
        self.apply_three_times(face);
    }

    fn apply_three_times(&mut self, face: Face)
        requires
            old(self).wf(),
        ensures
            final(self).wf(),
            final(self)@ == turned(turned(turned(old(self)@, face), face), face),
    {
        self.turn_clockwise(face);
        self.turn_clockwise(face);
        self.turn_clockwise(face);
    }

    /// Turns the left face a quarter turn clockwise.
    pub fn left_clockwise(&mut self)
        requires
            old(self).wf(),
        ensures
            final(self).wf(),
            final(self)@ == turned(old(self)@, Face::Left),
    {
        self.turn_clockwise(Face::Left);
    }

    /// Turns the left face a quarter turn counter-clockwise.
    pub fn left_counter_clockwise(&mut self)
        requires
            old(self).wf(),
        ensures
            final(self).wf(),
            final(self)@ == turned(turned(turned(old(self)@, Face::Left), Face::Left), Face::Left),
    {
        self.turn_counter_clockwise(Face::Left);
    }

    /// Turns the right face a quarter turn clockwise.
    pub fn right_clockwise(&mut self)
        requires
            old(self).wf(),
        ensures
            final(self).wf(),
            final(self)@ == turned(old(self)@, Face::Right),
    {
        self.turn_clockwise(Face::Right);
    }

    /// Turns the right face a quarter turn counter-clockwise.
    pub fn right_counter_clockwise(&mut self)
        requires
            old(self).wf(),
        ensures
            final(self).wf(),
            final(self)@ == turned(turned(turned(old(self)@, Face::Right), Face::Right), Face::Right),
    {
        self.turn_counter_clockwise(Face::Right);
    }

    /// Turns the down face a quarter turn clockwise.
    pub fn down_clockwise(&mut self)
        requires
            old(self).wf(),
        ensures
            final(self).wf(),
            final(self)@ == turned(old(self)@, Face::Down),
    {
        self.turn_clockwise(Face::Down);
    }

    /// Turns the down face a quarter turn counter-clockwise.
    pub fn down_counter_clockwise(&mut self)
        requires
            old(self).wf(),
        ensures
            final(self).wf(),
            final(self)@ == turned(turned(turned(old(self)@, Face::Down), Face::Down), Face::Down),
    {
        self.turn_counter_clockwise(Face::Down);
    }

    /// Turns the up face a quarter turn clockwise.
    pub fn up_clockwise(&mut self)
        requires
            old(self).wf(),
        ensures
            final(self).wf(),
            final(self)@ == turned(old(self)@, Face::Up),
    {
        self.turn_clockwise(Face::Up);
    }

    /// Turns the up face a quarter turn counter-clockwise.
    pub fn up_counter_clockwise(&mut self)
        requires
            old(self).wf(),
        ensures
            final(self).wf(),
            final(self)@ == turned(turned(turned(old(self)@, Face::Up), Face::Up), Face::Up),
    {
        self.turn_counter_clockwise(Face::Up);
    }

    /// Turns the back face a quarter turn clockwise.
    pub fn back_clockwise(&mut self)
        requires
            old(self).wf(),
        ensures
            final(self).wf(),
            final(self)@ == turned(old(self)@, Face::Back),
    {
        self.turn_clockwise(Face::Back);
    }

    /// Turns the back face a quarter turn counter-clockwise.
    pub fn back_counter_clockwise(&mut self)
        requires
            old(self).wf(),
        ensures
            final(self).wf(),
            final(self)@ == turned(turned(turned(old(self)@, Face::Back), Face::Back), Face::Back),
    {
        self.turn_counter_clockwise(Face::Back);
    }

    /// Turns the front face a quarter turn clockwise.
    pub fn front_clockwise(&mut self)
        requires
            old(self).wf(),
        ensures
            final(self).wf(),
            final(self)@ == turned(old(self)@, Face::Front),
    {
        self.turn_clockwise(Face::Front);
    }

    /// Turns the front face a quarter turn counter-clockwise.
    pub fn front_counter_clockwise(&mut self)
        requires
            old(self).wf(),
        ensures
            final(self).wf(),
            final(self)@ == turned(turned(turned(old(self)@, Face::Front), Face::Front), Face::Front),
    {
        self.turn_counter_clockwise(Face::Front);
    }
}

} // verus!
