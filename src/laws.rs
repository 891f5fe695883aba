use vstd::prelude::*;
use crate::store::Face;
use crate::geometry::{facelet_offset, generated, paired, template_points, triple_of, Point};
use crate::layout::{face_of, in_layer, lemma_index_cases, opposite, quarter_turn};
use crate::turns::{
    counter_turned, cycled, lemma_cycles_compose, lemma_tables_valid, table_turned, turn_table, turned, Cycle, TurnTable,
};

verus! {

/// A four-cycle keeps its own indices among themselves, fixes every other
/// index, and has order four.
proof fn lemma_cycle_order_four(c: Cycle, i: int)
    requires
        c.valid(),
    ensures
        c.contains(i) ==> c.contains(c.source(i)),
        !c.contains(i) ==> c.source(i) == i,
        c.source(c.source(c.source(c.source(i)))) == i,
{
}

/// In a table of disjoint cycles, an index moves only by the cycle that
/// holds it.
proof fn lemma_table_source_by_cycle(t: TurnTable, j: int)
    requires
        t.valid(),
    ensures
        t.ring0.contains(j) ==> t.source(j) == t.ring0.source(j),
        t.ring1.contains(j) ==> t.source(j) == t.ring1.source(j),
        t.ring2.contains(j) ==> t.source(j) == t.ring2.source(j),
        t.corners.contains(j) ==> t.source(j) == t.corners.source(j),
        t.edges.contains(j) ==> t.source(j) == t.edges.source(j),
        !t.ring0.contains(j) && !t.ring1.contains(j) && !t.ring2.contains(j)
            && !t.corners.contains(j) && !t.edges.contains(j) ==> t.source(j) == j,
{
    lemma_cycle_order_four(t.ring0, j);
    lemma_cycle_order_four(t.ring1, j);
    lemma_cycle_order_four(t.ring2, j);
    lemma_cycle_order_four(t.corners, j);
    lemma_cycle_order_four(t.edges, j);
}

/// A table of disjoint cycles, applied four times, moves nothing.
proof fn lemma_table_order_four(t: TurnTable, j: int)
    requires
        t.valid(),
        0 <= j < 54,
    ensures
        0 <= t.source(j) < 54,
        t.source(t.source(t.source(t.source(j)))) == j,
{
    let c = if t.ring0.contains(j) {
        t.ring0
    } else if t.ring1.contains(j) {
        t.ring1
    } else if t.ring2.contains(j) {
        t.ring2
    } else if t.corners.contains(j) {
        t.corners
    } else {
        t.edges
    };
    let j1 = t.source(j);
    let j2 = t.source(j1);
    let j3 = t.source(j2);
    lemma_table_source_by_cycle(t, j);
    lemma_cycle_order_four(c, j);
    lemma_table_source_by_cycle(t, j1);
    lemma_cycle_order_four(c, j1);
    lemma_table_source_by_cycle(t, j2);
    lemma_cycle_order_four(c, j2);
    lemma_table_source_by_cycle(t, j3);
    lemma_cycle_order_four(c, j3);
}

/// Any table of five disjoint four-cycles, applied four times, leaves every
/// store as it was.
pub proof fn lemma_table_four_times_identity<T>(s: Seq<T>, t: TurnTable)
    requires
        s.len() == 54,
        t.valid(),
    ensures
        table_turned(table_turned(table_turned(table_turned(s, t), t), t), t) == s,
{
    let s1 = table_turned(s, t);
    let s2 = table_turned(s1, t);
    let s3 = table_turned(s2, t);
    let s4 = table_turned(s3, t);
    assert forall|j: int| 0 <= j < 54 implies s4[j] == s[j] by {
        lemma_table_order_four(t, j);
        let j1 = t.source(j);
        lemma_table_order_four(t, j1);
        let j2 = t.source(j1);
        lemma_table_order_four(t, j2);
        let j3 = t.source(j2);
        assert(s4[j] == s3[j1]);
        assert(s3[j1] == s2[j2]);
        assert(s2[j2] == s1[j3]);
    }
    assert(s4 =~= s);
}

/// Turning any face clockwise four times leaves every store as it was.
pub proof fn lemma_four_turns_identity<T>(s: Seq<T>, face: Face)
    requires
        s.len() == 54,
    ensures
        turned(turned(turned(turned(s, face), face), face), face) == s,
{
    lemma_tables_valid(face);
    lemma_table_four_times_identity(s, turn_table(face));
}

/// A clockwise turn followed by the counter-clockwise turn of the same face,
/// in either order, leaves every store as it was.
pub proof fn lemma_counter_clockwise_undoes_clockwise<T>(s: Seq<T>, face: Face)
    requires
        s.len() == 54,
    ensures
        counter_turned(turned(s, face), face) == s,
        turned(counter_turned(s, face), face) == s,
{
    lemma_four_turns_identity(s, face);
}

/// A four-cycle only moves colors: the multiset of colors stays the same.
proof fn lemma_cycle_keeps_colors<T>(s: Seq<T>, c: Cycle)
    requires
        s.len() == 54,
        c.valid(),
    ensures
        cycled(s, c).to_multiset() == s.to_multiset(),
{
    broadcast use vstd::seq_lib::group_to_multiset_ensures;
    let (a, b, cc, d) = (c.a as int, c.b as int, c.c as int, c.d as int);
    let s1 = s.update(a, s[b]);
    let s2 = s1.update(b, s[cc]);
    let s3 = s2.update(cc, s[d]);
    let s4 = s3.update(d, s[a]);
    assert(s4 =~= cycled(s, c));
    vstd::seq_lib::to_multiset_update(s, a, s[b]);
    vstd::seq_lib::to_multiset_update(s1, b, s[cc]);
    vstd::seq_lib::to_multiset_update(s2, cc, s[d]);
    vstd::seq_lib::to_multiset_update(s3, d, s[a]);
    assert(s4.to_multiset() =~= s.to_multiset());
}

/// Any table of five disjoint four-cycles only moves colors between
/// facelets: the multiset of the 54 colors is the same before and after.
pub proof fn lemma_table_keeps_colors<T>(s: Seq<T>, t: TurnTable)
    requires
        s.len() == 54,
        t.valid(),
    ensures
        table_turned(s, t).to_multiset() == s.to_multiset(),
{
    let s1 = cycled(s, t.ring0);
    let s2 = cycled(s1, t.ring1);
    let s3 = cycled(s2, t.ring2);
    let s4 = cycled(s3, t.corners);
    let s5 = cycled(s4, t.edges);
    lemma_cycle_keeps_colors(s, t.ring0);
    lemma_cycle_keeps_colors(s1, t.ring1);
    lemma_cycle_keeps_colors(s2, t.ring2);
    lemma_cycle_keeps_colors(s3, t.corners);
    lemma_cycle_keeps_colors(s4, t.edges);
    lemma_cycles_compose(s, t);
}

/// A turn only moves colors between facelets: the multiset of the 54 colors
/// is the same before and after.
pub proof fn lemma_turn_keeps_colors<T>(s: Seq<T>, face: Face)
    requires
        s.len() == 54,
    ensures
        turned(s, face).to_multiset() == s.to_multiset(),
{
    lemma_tables_valid(face);
    lemma_table_keeps_colors(s, turn_table(face));
}

/// Each face's table keeps to the face's layer: the face's own facelets and
/// the twelve of its ring, never the opposite face.
proof fn lemma_table_in_layer(face: Face)
    ensures
        forall|j: int|
            0 <= j < 54 ==> {
                &&& face_of(j) == face ==> #[trigger] in_layer(face, j)
                &&& face_of(j) == opposite(face) ==> !in_layer(face, j)
                &&& (in_layer(face, j) && face_of(j) != face) <==> turn_table(face).on_ring(j)
                &&& turn_table(face).moves(j) ==> in_layer(face, j)
            },
{
    assert forall|j: int| 0 <= j < 54 implies {
        &&& face_of(j) == face ==> #[trigger] in_layer(face, j)
        &&& face_of(j) == opposite(face) ==> !in_layer(face, j)
        &&& (in_layer(face, j) && face_of(j) != face) <==> turn_table(face).on_ring(j)
        &&& turn_table(face).moves(j) ==> in_layer(face, j)
    } by {
        lemma_index_cases(j);
    }
}

/// A turn of `face` changes only the layer it moves: the face's own nine
/// facelets and the ring that borders it, which is the twelve distinct
/// indices of the table's three ring cycles. Every other facelet, the whole
/// opposite face among them, keeps its color.
pub proof fn lemma_turn_locality<T>(s: Seq<T>, face: Face)
    requires
        s.len() == 54,
    ensures
        turn_table(face).valid(),
        forall|j: int|
            0 <= j < 54 && !in_layer(face, j) ==> #[trigger] turned(s, face)[j] == s[j],
        forall|j: int| 0 <= j < 54 && face_of(j) == opposite(face) ==> !#[trigger] in_layer(face, j),
        forall|j: int| 0 <= j < 54 && face_of(j) == face ==> #[trigger] in_layer(face, j),
        forall|j: int|
            0 <= j < 54 ==> ((#[trigger] in_layer(face, j) && face_of(j) != face) <==> turn_table(
                face,
            ).on_ring(j)),
{
    lemma_tables_valid(face);
    lemma_table_in_layer(face);
    assert forall|j: int| 0 <= j < 54 && !in_layer(face, j) implies #[trigger] turned(s, face)[j]
        == s[j] by {
        lemma_table_source_by_cycle(turn_table(face), j);
    }
}

/// `s` after clockwise turns of the faces in `moves`, first to last.
pub open spec fn after_turns<T>(s: Seq<T>, moves: Seq<Face>) -> Seq<T>
    decreases moves.len(),
{
    if moves.len() == 0 {
        s
    } else {
        turned(after_turns(s, moves.drop_last()), moves.last())
    }
}

/// The generator visits the faces in the store's order and lays each face
/// out in the store's local order: the offset it emits at index `i` is the
/// place of facelet `i` in the cube, `emerge` out along its face's normal.
pub proof fn lemma_offsets_follow_indexing(emerge: i64, offset: i64)
    requires
        emerge != i64::MIN,
        offset != i64::MIN,
    ensures
        generated(template_points(emerge, offset)).len() == 54,
        forall|i: int|
            0 <= i < 54 ==> triple_of(#[trigger] generated(template_points(emerge, offset))[i])
                == facelet_offset(i, emerge, offset),
{
    let g = generated(template_points(emerge, offset));
    assert forall|i: int| 0 <= i < 54 implies triple_of(#[trigger] g[i]) == facelet_offset(
        i,
        emerge,
        offset,
    ) by {
        lemma_index_cases(i);
    }
}

/// Turns never touch geometry: after any sequence of clockwise turns (a
/// counter-clockwise turn being three of them) the colors are the same
/// multiset, and pairing them with the offsets gives each index the same
/// offset as before, now with the color that sits at that index.
pub proof fn lemma_turns_keep_pairing<T>(g: Seq<Point>, s: Seq<T>, moves: Seq<Face>)
    requires
        g.len() == 54,
        s.len() == 54,
    ensures
        after_turns(s, moves).len() == 54,
        after_turns(s, moves).to_multiset() == s.to_multiset(),
        forall|i: int|
            0 <= i < 54 ==> (#[trigger] paired(g, after_turns(s, moves))[i]).0 == paired(g, s)[i].0,
        forall|i: int|
            0 <= i < 54 ==> (#[trigger] paired(g, after_turns(s, moves))[i]).1 == after_turns(
                s,
                moves,
            )[i],
    decreases moves.len(),
{
    if moves.len() > 0 {
        lemma_turns_keep_pairing(g, s, moves.drop_last());
        lemma_turn_keeps_colors(after_turns(s, moves.drop_last()), moves.last());
    }
}

/// On RIGHT, DOWN, UP and BACK a clockwise turn moves facelets rigidly: the
/// color that comes to index `j` of the turning layer comes from the facelet
/// whose place, turned a quarter turn about the face's outward normal, is
/// the place of `j`. (FRONT and LEFT carry each ring index to the same local
/// index of the next face instead, which no rigid motion does.)
pub proof fn lemma_turn_in_space(emerge: i64, offset: i64, face: Face)
    requires
        face != Face::Front,
        face != Face::Left,
    ensures
        forall|j: int|
            0 <= j < 54 && in_layer(face, j) ==> #[trigger] facelet_offset(j, emerge, offset)
                == quarter_turn(face, facelet_offset(turn_table(face).source(j), emerge, offset)),
{
    assert forall|j: int| 0 <= j < 54 && in_layer(face, j) implies #[trigger] facelet_offset(
        j,
        emerge,
        offset,
    ) == quarter_turn(face, facelet_offset(turn_table(face).source(j), emerge, offset)) by {
        lemma_index_cases(j);
    }
}

} // verus!
