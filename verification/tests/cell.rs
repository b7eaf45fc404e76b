use cell_grid::cell::helpers::{add_cell_arrays, half_ceil, half_floor};
use cell_grid::cell::hex::OffsetHexMode;
use cell_grid::cell::Cell;
use std::collections::HashSet;

#[test]
fn constructors_agree() {
    assert_eq!(Cell::new(3, -4), Cell { x: 3, y: -4 });
    assert_eq!(Cell::splat(7), Cell::new(7, 7));
    assert_eq!(Cell::from_array([1, 2]), Cell::new(1, 2));
    assert_eq!(Cell::from_slice(&[5, 6, 7]), Cell::new(5, 6));
    assert_eq!(Cell::new_unsigned(8, 9), Cell::new(8, 9));
    assert_eq!(Cell::new_unsigned(u32::MAX, 1 << 31), Cell::new(-1, i32::MIN));
    assert_eq!(Cell::default(), Cell::new(0, 0));
}

#[test]
fn named_cells() {
    assert_eq!(Cell::origin(), Cell::new(0, 0));
    assert_eq!(Cell::zero(), Cell::new(0, 0));
    assert_eq!(Cell::one(), Cell::new(1, 1));
    assert_eq!(Cell::neg_one(), Cell::new(-1, -1));
    assert_eq!(Cell::unit_x(), Cell::new(1, 0));
    assert_eq!(Cell::neg_unit_x(), Cell::new(-1, 0));
    assert_eq!(Cell::unit_y(), Cell::new(0, 1));
    assert_eq!(Cell::neg_unit_y(), Cell::new(0, -1));
}

#[test]
fn projections() {
    let cell = Cell::new(-2, 11);
    assert_eq!(cell.x(), -2);
    assert_eq!(cell.y(), 11);
    assert_eq!(cell.pos(), [-2, 11]);
    assert_eq!(Cell::from_array(cell.pos()), cell);
    let mut slice = [0, 0, 99];
    cell.write_to_slice(&mut slice);
    assert_eq!(slice, [-2, 11, 99]);
}

#[test]
fn equality_and_hashing_are_structural() {
    let mut set = HashSet::new();
    set.insert(Cell::new(1, 2));
    set.insert(Cell::new(1, 2));
    set.insert(Cell::new(2, 1));
    assert_eq!(set.len(), 2);
    assert_ne!(Cell::new(1, 2), Cell::new(2, 1));
    let copy = Cell::new(1, 2);
    let other = copy;
    assert_eq!(copy, other);
}

#[test]
fn addition_is_componentwise() {
    assert_eq!(Cell::new(1, 2) + Cell::new(-3, 5), Cell::new(-2, 7));
    assert_eq!(Cell::new(i32::MAX, i32::MIN) + Cell::new(-1, 1), Cell::new(i32::MAX - 1, i32::MIN + 1));
    assert_eq!(Cell::new(4, 4) + Cell::unit_x(), Cell::new(5, 4));
}

#[test]
fn addition_has_an_identity_and_commutes_and_associates() {
    let cells = [
        Cell::new(0, 0),
        Cell::new(1, -1),
        Cell::new(-7, 3),
        Cell::new(1000, 2000),
        Cell::new(-123456, 654321),
    ];
    for a in cells {
        assert_eq!(a + Cell::zero(), a);
        assert_eq!(Cell::zero() + a, a);
        for b in cells {
            assert_eq!(a + b, b + a);
            for c in cells {
                assert_eq!((a + b) + c, a + (b + c));
            }
        }
    }
    assert_eq!(Cell::new(i32::MAX, i32::MIN) + Cell::zero(), Cell::new(i32::MAX, i32::MIN));
}

#[test]
fn conversion_to_an_index_pair() {
    let index: (usize, usize) = Cell::new(3, 4).into();
    assert_eq!(index, (3, 4));
    assert_eq!(<(usize, usize)>::from(Cell::new(0, i32::MAX)), (0, i32::MAX as usize));
    assert_eq!(<(usize, usize)>::from(Cell::new(-1, 0)), (usize::MAX, 0));
}

#[test]
fn text_of_a_cell() {
    assert_eq!(Cell::new(1, 2).to_string(), "x:1, y:2");
    assert_eq!(Cell::new(-3, 6).to_string(), "x:-3, y:6");
    assert_eq!(Cell::new(0, -10).to_string(), "x:0, y:-10");
    assert_eq!(Cell::new(1234567890, 907).to_string(), "x:1234567890, y:907");
    assert_eq!(
        Cell::new(i32::MIN, i32::MAX).to_string(),
        "x:-2147483648, y:2147483647"
    );
    for v in [-1000, -101, -100, -99, -10, -9, -1, 0, 1, 9, 10, 11, 99, 100, 101, 1000] {
        assert_eq!(Cell::splat(v).to_string(), format!("x:{}, y:{}", v, v));
    }
}

#[test]
fn offset_coordinates_become_axial() {
    assert_eq!(Cell::from_offset_coordinates([2, 3], OffsetHexMode::OddRows), Cell::new(1, 3));
    assert_eq!(Cell::from_offset_coordinates([2, 3], OffsetHexMode::EvenRows), Cell::new(0, 3));
    assert_eq!(Cell::from_offset_coordinates([3, 2], OffsetHexMode::OddColumns), Cell::new(3, 1));
    assert_eq!(Cell::from_offset_coordinates([3, 2], OffsetHexMode::EvenColumns), Cell::new(3, 0));
    assert_eq!(Cell::from_offset_coordinates([0, 0], OffsetHexMode::OddRows), Cell::new(0, 0));
    assert_eq!(Cell::from_offset_coordinates([0, -3], OffsetHexMode::OddRows), Cell::new(2, -3));
    assert_eq!(Cell::from_offset_coordinates([0, -3], OffsetHexMode::EvenRows), Cell::new(1, -3));
    assert_eq!(Cell::from_offset_coordinates([-3, 0], OffsetHexMode::OddColumns), Cell::new(-3, 2));
    assert_eq!(Cell::from_offset_coordinates([-3, 0], OffsetHexMode::EvenColumns), Cell::new(-3, 1));
    assert_eq!(Cell::from_offset_coordinates([-4, 1], OffsetHexMode::OddColumns), Cell::new(-4, 3));
    assert_eq!(
        Cell::from_offset_coordinates([i32::MAX, i32::MAX], OffsetHexMode::OddRows),
        Cell::new(i32::MAX - i32::MAX / 2, i32::MAX)
    );
}

#[test]
fn offset_coordinates_follow_the_hex_library() {
    let modes = [
        (OffsetHexMode::EvenColumns, hexx::OffsetHexMode::EvenColumns),
        (OffsetHexMode::OddColumns, hexx::OffsetHexMode::OddColumns),
        (OffsetHexMode::EvenRows, hexx::OffsetHexMode::EvenRows),
        (OffsetHexMode::OddRows, hexx::OffsetHexMode::OddRows),
    ];
    for (mode, theirs) in modes {
        for col in -9..9 {
            for row in -9..9 {
                let cell = Cell::from_offset_coordinates([col, row], mode);
                let hex = hexx::Hex::from_offset_coordinates([col, row], theirs);
                assert_eq!([cell.x, cell.y], [hex.x, hex.y]);
                assert_eq!(hex.to_offset_coordinates(theirs), [col, row]);
            }
        }
    }
}

#[test]
fn hex_neighbour_offsets() {
    let offsets = Cell::hex_neighbor_offsets();
    assert_eq!(
        offsets,
        [
            Cell::new(1, 0),
            Cell::new(0, 1),
            Cell::new(-1, 1),
            Cell::new(-1, 0),
            Cell::new(0, -1),
            Cell::new(1, -1),
        ]
    );
    for (offset, hex) in offsets.iter().zip(hexx::Hex::NEIGHBORS_COORDS) {
        assert_eq!([offset.x, offset.y], [hex.x, hex.y]);
        assert_eq!(hex.ulength(), 1);
    }
    let around = offsets.map(|offset| Cell::new(2, -1) + offset);
    assert_eq!(around[0], Cell::new(3, -1));
    assert_eq!(around[4], Cell::new(2, -2));
}

#[test]
fn square_neighbour_offsets() {
    assert_eq!(
        Cell::square_primary_offsets(),
        [Cell::new(1, 0), Cell::new(0, 1), Cell::new(-1, 0), Cell::new(0, -1)]
    );
    assert_eq!(
        Cell::square_diagonal_offsets(),
        [Cell::new(1, 1), Cell::new(-1, 1), Cell::new(-1, -1), Cell::new(1, -1)]
    );
    assert_eq!(
        Cell::square_offsets(),
        [
            Cell::new(1, 1),
            Cell::new(-1, 1),
            Cell::new(-1, -1),
            Cell::new(1, -1),
            Cell::new(1, 0),
            Cell::new(0, 1),
            Cell::new(-1, 0),
            Cell::new(0, -1),
        ]
    );
}

#[test]
fn cell_arrays_are_joined_in_order() {
    let lhs = [Cell::splat(1), Cell::splat(2), Cell::splat(3), Cell::splat(4)];
    let rhs = [Cell::splat(5), Cell::splat(6), Cell::splat(7), Cell::splat(8)];
    let all = add_cell_arrays(lhs, rhs);
    for (i, cell) in all.iter().enumerate() {
        assert_eq!(*cell, Cell::splat(i as i32 + 1));
    }
}

#[test]
fn halves_round_to_the_floor_and_to_the_ceiling() {
    assert_eq!(half_floor(-3), -2);
    assert_eq!(half_floor(-2), -1);
    assert_eq!(half_floor(-1), -1);
    assert_eq!(half_floor(0), 0);
    assert_eq!(half_floor(1), 0);
    assert_eq!(half_floor(7), 3);
    assert_eq!(half_floor(i32::MIN), -(1 << 30));
    assert_eq!(half_floor(i32::MAX), (1 << 30) - 1);
    assert_eq!(half_ceil(-3), -1);
    assert_eq!(half_ceil(-2), -1);
    assert_eq!(half_ceil(-1), 0);
    assert_eq!(half_ceil(0), 0);
    assert_eq!(half_ceil(1), 1);
    assert_eq!(half_ceil(7), 4);
    assert_eq!(half_ceil(i32::MIN), -(1 << 30));
    assert_eq!(half_ceil(i32::MAX), 1 << 30);
}

#[test]
fn checked_conversion_of_offset_coordinates() {
    assert_eq!(
        Cell::checked_from_offset_coordinates([2, 3], OffsetHexMode::OddRows),
        Some(Cell::new(1, 3))
    );
    assert_eq!(
        Cell::checked_from_offset_coordinates([-3, 0], OffsetHexMode::EvenColumns),
        Some(Cell::new(-3, 1))
    );
    assert_eq!(
        Cell::checked_from_offset_coordinates([i32::MAX, 0], OffsetHexMode::OddColumns),
        Some(Cell::new(i32::MAX, -(i32::MAX / 2)))
    );
    assert_eq!(Cell::checked_from_offset_coordinates([i32::MAX, 0], OffsetHexMode::EvenColumns), None);
    assert_eq!(Cell::checked_from_offset_coordinates([0, i32::MAX], OffsetHexMode::EvenRows), None);
    assert_eq!(Cell::checked_from_offset_coordinates([2, i32::MIN], OffsetHexMode::OddColumns), None);
    assert_eq!(Cell::checked_from_offset_coordinates([i32::MIN, 2], OffsetHexMode::OddRows), None);
    assert_eq!(Cell::checked_from_offset_coordinates([i32::MAX, -2], OffsetHexMode::OddRows), None);
    assert_eq!(
        Cell::checked_from_offset_coordinates([i32::MAX, -1], OffsetHexMode::EvenRows),
        Some(Cell::new(i32::MAX, -1))
    );
    assert_eq!(
        Cell::checked_from_offset_coordinates([i32::MIN, i32::MIN], OffsetHexMode::EvenRows),
        Some(Cell::new(i32::MIN + (1 << 30), i32::MIN))
    );
}
