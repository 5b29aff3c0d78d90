use game_of_life::utils::add_mod_n;

fn euclid(lhs: usize, rhs: i32, modulo: usize) -> usize {
    (lhs as i128 + rhs as i128).rem_euclid(modulo as i128) as usize
}

#[test]
fn step_back_from_first_index_reaches_last() {
    assert_eq!(add_mod_n(0, -1, 20), 19);
}

#[test]
fn step_forward_from_last_index_reaches_first() {
    assert_eq!(add_mod_n(19, 1, 20), 0);
}

#[test]
fn no_step_keeps_the_index() {
    assert_eq!(add_mod_n(5, 0, 20), 5);
    assert_eq!(add_mod_n(0, 0, 1), 0);
}

#[test]
fn steps_inside_the_ring_are_plain_sums() {
    assert_eq!(add_mod_n(7, 1, 20), 8);
    assert_eq!(add_mod_n(7, -1, 20), 6);
    assert_eq!(add_mod_n(7, 12, 20), 19);
    assert_eq!(add_mod_n(7, -7, 20), 0);
}

#[test]
fn long_steps_go_round_several_times() {
    assert_eq!(add_mod_n(3, 45, 20), 8);
    assert_eq!(add_mod_n(3, -45, 20), 18);
    assert_eq!(add_mod_n(0, -40, 20), 0);
}

#[test]
fn index_beyond_the_ring_is_reduced() {
    assert_eq!(add_mod_n(25, 0, 20), 5);
    assert_eq!(add_mod_n(25, -6, 20), 19);
}

#[test]
fn ring_of_one_position_always_gives_zero() {
    for lhs in [0usize, 1, 2, 1000, usize::MAX] {
        for rhs in [i32::MIN, -1, 0, 1, i32::MAX] {
            assert_eq!(add_mod_n(lhs, rhs, 1), 0);
        }
    }
}

#[test]
fn result_is_the_euclidean_remainder_on_small_rings() {
    for modulo in 1usize..=9 {
        for lhs in 0usize..=20 {
            for rhs in -25i32..=25 {
                let wrapped = add_mod_n(lhs, rhs, modulo);
                assert!(wrapped < modulo);
                assert_eq!(wrapped, euclid(lhs, rhs, modulo));
            }
        }
    }
}

#[test]
fn result_is_the_euclidean_remainder_at_the_limits() {
    let indexes = [0usize, 1, 2147483647, 2147483648, usize::MAX - 1, usize::MAX];
    let offsets = [i32::MIN, i32::MIN + 1, -2, -1, 0, 1, 2, i32::MAX - 1, i32::MAX];
    let rings = [1usize, 2, 3, 7, 2147483647, 2147483648, usize::MAX - 1, usize::MAX];
    for lhs in indexes {
        for rhs in offsets {
            for modulo in rings {
                let wrapped = add_mod_n(lhs, rhs, modulo);
                assert!(wrapped < modulo);
                assert_eq!(wrapped, euclid(lhs, rhs, modulo));
            }
        }
    }
}

#[test]
fn all_eight_neighbour_offsets_wrap_at_a_corner() {
    let offsets = [(0, 1), (-1, 1), (-1, 0), (-1, -1), (0, -1), (1, -1), (1, 0), (1, 1)];
    let expected = [(0, 1), (2, 1), (2, 0), (2, 4), (0, 4), (1, 4), (1, 0), (1, 1)];
    for k in 0..8 {
        let (dy, dx) = offsets[k];
        assert_eq!((add_mod_n(0, dy, 3), add_mod_n(0, dx, 5)), expected[k]);
    }
}
