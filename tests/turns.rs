use rubiks_cube::{face_index, face_table, Cycle, TurnTable, Face, FaceletStore, CubeError, BACK, DOWN, FRONT, LEFT, RIGHT, UP};

const ALL_FACES: [Face; 6] = [Face::Left, Face::Right, Face::Down, Face::Up, Face::Back, Face::Front];

fn numbered() -> FaceletStore<u32> {
    FaceletStore::new((0..54).collect()).unwrap()
}

fn solved() -> FaceletStore<[f32; 3]> {
    let flat = [
        [1.0, 0.5, 0.0],
        [1.0, 0.0, 0.0],
        [1.0, 1.0, 0.0],
        [0.9, 0.9, 0.9],
        [0.0, 0.0, 1.0],
        [0.0, 1.0, 0.0],
    ];
    let mut colors = Vec::new();
    for c in flat.iter() {
        for _ in 0..9 {
            colors.push(*c);
        }
    }
    FaceletStore::new(colors).unwrap()
}

fn base(face: Face) -> usize {
    face_index(face, 0).unwrap()
}

#[test]
fn new_needs_exactly_54_colors() {
    assert!(FaceletStore::new(vec![0u8; 53]).is_none());
    assert!(FaceletStore::new(vec![0u8; 55]).is_none());
    assert!(FaceletStore::new(Vec::<u8>::new()).is_none());
    assert!(FaceletStore::new(vec![0u8; 54]).is_some());
}

#[test]
fn get_and_set_check_the_index() {
    let mut s = numbered();
    assert_eq!(s.get(0), Ok(0));
    assert_eq!(s.get(53), Ok(53));
    assert_eq!(s.get(54), Err(CubeError::IndexOutOfRange));
    assert_eq!(s.set(54, 7), Err(CubeError::IndexOutOfRange));
    assert_eq!(s.colors(), (0..54).collect::<Vec<u32>>());
    assert_eq!(s.set(53, 100), Ok(()));
    assert_eq!(s.get(53), Ok(100));
    assert_eq!(s.get(52), Ok(52));
}

#[test]
fn face_index_is_base_plus_local() {
    assert_eq!(face_index(Face::Left, 0), Ok(LEFT));
    assert_eq!(face_index(Face::Right, 0), Ok(RIGHT));
    assert_eq!(face_index(Face::Down, 0), Ok(DOWN));
    assert_eq!(face_index(Face::Up, 0), Ok(UP));
    assert_eq!(face_index(Face::Back, 0), Ok(BACK));
    assert_eq!(face_index(Face::Front, 8), Ok(53));
    assert_eq!(face_index(Face::Up, 4), Ok(31));
    assert_eq!(face_index(Face::Left, 9), Err(CubeError::InvalidLocalIndex));
    assert_eq!(face_index(Face::Front, 100), Err(CubeError::InvalidLocalIndex));
}

#[test]
fn rotate_four_moves_each_color_one_step() {
    let mut s = numbered();
    s.rotate_four(3, 10, 40, 50);
    assert_eq!(s.get(3), Ok(10));
    assert_eq!(s.get(10), Ok(40));
    assert_eq!(s.get(40), Ok(50));
    assert_eq!(s.get(50), Ok(3));
    assert_eq!(s.get(4), Ok(4));
}

#[test]
fn front_clockwise_moves_corner_and_ring() {
    let mut s = numbered();
    s.front_clockwise();
    // the color at FRONT 0 goes to FRONT 2, the color at LEFT 2 to DOWN 2
    assert_eq!(s.get(FRONT + 2), Ok((FRONT + 0) as u32));
    assert_eq!(s.get(DOWN + 2), Ok((LEFT + 2) as u32));
    assert_eq!(s.get(FRONT + 4), Ok((FRONT + 4) as u32));
}

#[test]
fn front_clockwise_keeps_solved_front_face() {
    let mut s = solved();
    s.front_clockwise();
    for l in 0..9 {
        assert_eq!(s.get(FRONT + l), Ok([0.0, 1.0, 0.0]));
    }
    // the left face's front column now holds the up face's color
    assert_eq!(s.get(LEFT + 2), Ok([0.9, 0.9, 0.9]));
    assert_eq!(s.get(LEFT + 0), Ok([1.0, 0.5, 0.0]));
}

#[test]
fn front_clockwise_then_counter_clockwise_is_identity() {
    let mut s = numbered();
    s.front_clockwise();
    s.front_counter_clockwise();
    assert_eq!(s.colors(), numbered().colors());
    let mut t = solved();
    t.left_clockwise();
    t.front_clockwise();
    t.front_counter_clockwise();
    t.left_counter_clockwise();
    assert_eq!(t.colors(), solved().colors());
}

#[test]
fn four_clockwise_turns_are_identity() {
    for face in ALL_FACES.iter() {
        let mut s = numbered();
        for _ in 0..4 {
            s.turn_clockwise(*face);
        }
        assert_eq!(s.colors(), numbered().colors());
        let mut t = numbered();
        for _ in 0..4 {
            t.turn_counter_clockwise(*face);
        }
        assert_eq!(t.colors(), numbered().colors());
    }
}

#[test]
fn counter_clockwise_is_three_clockwise_turns() {
    for face in ALL_FACES.iter() {
        let mut a = numbered();
        a.up_clockwise();
        a.turn_counter_clockwise(*face);
        let mut b = numbered();
        b.up_clockwise();
        for _ in 0..3 {
            b.turn_clockwise(*face);
        }
        assert_eq!(a.colors(), b.colors());
        if *face != Face::Up {
            assert_ne!(a.colors(), numbered().colors());
        }
    }
}

#[test]
fn a_turn_keeps_the_colors() {
    for face in ALL_FACES.iter() {
        let mut s = numbered();
        s.turn_clockwise(*face);
        let mut c = s.colors();
        c.sort();
        assert_eq!(c, (0..54).collect::<Vec<u32>>());
    }
}

#[test]
fn a_turn_moves_only_its_layer() {
    let opposite = [Face::Right, Face::Left, Face::Up, Face::Down, Face::Front, Face::Back];
    for (k, face) in ALL_FACES.iter().enumerate() {
        let mut s = numbered();
        s.turn_clockwise(*face);
        let moved: Vec<usize> = (0..54).filter(|i| s.get(*i) != Ok(*i as u32)).collect();
        // eight of the face's own facelets move (not its centre), and the ring of twelve
        assert_eq!(moved.len(), 20);
        let own = moved.iter().filter(|i| **i / 9 == base(*face) / 9).count();
        assert_eq!(own, 8);
        let far = base(opposite[k]);
        for l in 0..9 {
            assert_eq!(s.get(far + l), Ok((far + l) as u32));
        }
    }
}

#[test]
fn front_turn_never_changes_back_face() {
    let mut s = numbered();
    s.front_clockwise();
    s.front_clockwise();
    s.front_counter_clockwise();
    for l in 0..9 {
        assert_eq!(s.get(BACK + l), Ok((BACK + l) as u32));
    }
}

#[test]
fn every_face_turn_moves_its_corners() {
    let mut s = numbered();
    s.up_clockwise();
    assert_eq!(s.get(FRONT + 0), Ok((LEFT + 0) as u32));
    assert_eq!(s.get(UP + 2), Ok((UP + 0) as u32));
    let mut s = numbered();
    s.down_clockwise();
    assert_eq!(s.get(BACK + 8), Ok((LEFT + 6) as u32));
    assert_eq!(s.get(DOWN + 6), Ok((DOWN + 0) as u32));
    let mut s = numbered();
    s.left_clockwise();
    assert_eq!(s.get(FRONT + 0), Ok((UP + 0) as u32));
    assert_eq!(s.get(LEFT + 2), Ok((LEFT + 0) as u32));
    let mut s = numbered();
    s.right_clockwise();
    assert_eq!(s.get(BACK + 6), Ok((DOWN + 6) as u32));
    assert_eq!(s.get(RIGHT + 2), Ok((RIGHT + 0) as u32));
    let mut s = numbered();
    s.back_clockwise();
    assert_eq!(s.get(UP + 6), Ok((LEFT + 0) as u32));
    assert_eq!(s.get(BACK + 6), Ok((BACK + 0) as u32));
}

#[test]
fn named_turns_match_turn_by_face() {
    let mut a = numbered();
    a.left_clockwise();
    a.right_counter_clockwise();
    a.down_clockwise();
    a.up_counter_clockwise();
    a.back_clockwise();
    a.front_counter_clockwise();
    a.right_clockwise();
    a.left_counter_clockwise();
    a.down_counter_clockwise();
    a.up_clockwise();
    a.back_counter_clockwise();
    let mut b = numbered();
    b.turn_clockwise(Face::Left);
    b.turn_counter_clockwise(Face::Right);
    b.turn_clockwise(Face::Down);
    b.turn_counter_clockwise(Face::Up);
    b.turn_clockwise(Face::Back);
    b.turn_counter_clockwise(Face::Front);
    b.turn_clockwise(Face::Right);
    b.turn_counter_clockwise(Face::Left);
    b.turn_counter_clockwise(Face::Down);
    b.turn_clockwise(Face::Up);
    b.turn_counter_clockwise(Face::Back);
    assert_eq!(a.colors(), b.colors());
}

#[test]
fn a_turn_is_its_five_table_cycles() {
    for face in ALL_FACES.iter() {
        let t = face_table(*face);
        let cycles = [t.ring0, t.ring1, t.ring2, t.corners, t.edges];
        let mut all: Vec<usize> = cycles.iter().flat_map(|c| vec![c.a, c.b, c.c, c.d]).collect();
        all.sort();
        all.dedup();
        assert_eq!(all.len(), 20);
        for i in [t.corners.a, t.corners.b, t.corners.c, t.corners.d, t.edges.a, t.edges.d].iter() {
            assert_eq!(*i / 9, base(*face) / 9);
        }
        let mut by_table = numbered();
        for c in cycles.iter() {
            by_table.rotate_four(c.a, c.b, c.c, c.d);
        }
        let mut by_turn = numbered();
        by_turn.turn_clockwise(*face);
        assert_eq!(by_table.colors(), by_turn.colors());
    }
}

#[test]
fn front_ring_moves_one_local_index_left_down_right_up() {
    let mut s = numbered();
    s.front_clockwise();
    for k in [2usize, 5, 8].iter() {
        assert_eq!(s.get(DOWN + k), Ok((LEFT + k) as u32));
        assert_eq!(s.get(RIGHT + k), Ok((DOWN + k) as u32));
        assert_eq!(s.get(UP + k), Ok((RIGHT + k) as u32));
        assert_eq!(s.get(LEFT + k), Ok((UP + k) as u32));
    }
    let mut t = numbered();
    t.front_counter_clockwise();
    for k in [2usize, 5, 8].iter() {
        assert_eq!(t.get(LEFT + k), Ok((DOWN + k) as u32));
        assert_eq!(t.get(DOWN + k), Ok((RIGHT + k) as u32));
        assert_eq!(t.get(RIGHT + k), Ok((UP + k) as u32));
        assert_eq!(t.get(UP + k), Ok((LEFT + k) as u32));
    }
    assert_eq!(t.get(FRONT + 0), Ok((FRONT + 2) as u32));
    assert_eq!(t.get(FRONT + 1), Ok((FRONT + 5) as u32));
}

#[test]
fn left_turn_grid_and_ring() {
    let mut s = numbered();
    s.left_clockwise();
    // own grid: 0 -> 2 -> 8 -> 6 and 1 -> 5 -> 7 -> 3
    assert_eq!(s.get(2), Ok(0));
    assert_eq!(s.get(8), Ok(2));
    assert_eq!(s.get(6), Ok(8));
    assert_eq!(s.get(0), Ok(6));
    assert_eq!(s.get(5), Ok(1));
    assert_eq!(s.get(7), Ok(5));
    assert_eq!(s.get(3), Ok(7));
    assert_eq!(s.get(1), Ok(3));
    assert_eq!(s.get(4), Ok(4));
    // ring: local 0, 1, 2 from BACK to UP to FRONT to DOWN
    for k in 0..3usize {
        assert_eq!(s.get(UP + k), Ok((BACK + k) as u32));
        assert_eq!(s.get(FRONT + k), Ok((UP + k) as u32));
        assert_eq!(s.get(DOWN + k), Ok((FRONT + k) as u32));
        assert_eq!(s.get(BACK + k), Ok((DOWN + k) as u32));
    }
    assert_eq!(s.get(RIGHT), Ok(RIGHT as u32));
}

#[test]
fn left_turn_on_float_colors() {
    let colors: Vec<[f32; 3]> = (0..54).map(|j| [j as f32 / 64.0, 0.0, 0.0]).collect();
    let mut s = FaceletStore::new(colors).unwrap();
    s.left_clockwise();
    assert_eq!(s.get(2), Ok([0.0, 0.0, 0.0]));
    assert_eq!(s.get(1), Ok([0.046875, 0.0, 0.0]));
    assert_eq!(s.get(27), Ok([0.5625, 0.0, 0.0]));
    assert_eq!(s.get(36), Ok([0.28125, 0.0, 0.0]));
    assert_eq!(s.get(9), Ok([0.140625, 0.0, 0.0]));
}

#[test]
fn any_valid_table_keeps_colors_and_has_order_four() {
    let c = |a, b, c, d| Cycle { a, b, c, d };
    let t = TurnTable {
        ring0: c(0, 53, 17, 30),
        ring1: c(1, 2, 3, 4),
        ring2: c(10, 20, 40, 50),
        corners: c(5, 6, 7, 8),
        edges: c(11, 12, 13, 14),
    };
    let mut s = numbered();
    s.apply_table(t);
    assert_eq!(s.get(0), Ok(53));
    assert_eq!(s.get(30), Ok(0));
    let mut sorted = s.colors();
    sorted.sort();
    assert_eq!(sorted, (0..54).collect::<Vec<u32>>());
    for _ in 0..3 {
        s.apply_table(t);
    }
    assert_eq!(s.colors(), numbered().colors());
}
