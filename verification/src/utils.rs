//! Index arithmetic on a ring of `modulo` positions.

use vstd::arithmetic::div_mod::{
    lemma_add_mod_noop, lemma_add_mod_noop_right, lemma_mod_multiples_vanish, lemma_small_mod,
    lemma_sub_mod_noop,
};
use vstd::prelude::*;

verus! {

/// The position reached from `index` after moving `offset` steps around a
/// ring of `modulus` positions: the Euclidean remainder of their sum.
pub open spec fn wrap(index: int, offset: int, modulus: int) -> int {
    (index + offset) % modulus
}

/// On a ring with at least one position, `wrap` lands on the ring.
pub proof fn lemma_wrap_in_range(index: int, offset: int, modulus: int)
    requires
        modulus > 0,
    ensures
        0 <= wrap(index, offset, modulus) < modulus,
{
}

/// One step back from position 0 is the last position, one step forward from
/// the last position is position 0, and every other single step stays inside.
pub proof fn lemma_wrap_unit_step(index: int, modulus: int)
    requires
        0 <= index < modulus,
    ensures
        wrap(index, 0, modulus) == index,
        wrap(index, 1, modulus) == if index == modulus - 1 { 0 } else { index + 1 },
        wrap(index, -1, modulus) == if index == 0 { modulus - 1 } else { index - 1 },
{
    lemma_small_mod(index as nat, modulus as nat);
    if index == modulus - 1 {
        lemma_mod_multiples_vanish(1, 0, modulus);
    } else {
        lemma_small_mod((index + 1) as nat, modulus as nat);
    }
    if index == 0 {
        lemma_mod_multiples_vanish(-1, modulus - 1, modulus);
        lemma_small_mod((modulus - 1) as nat, modulus as nat);
    } else {
        lemma_small_mod((index - 1) as nat, modulus as nat);
    }
}

/// Two moves around the ring, one after the other, are one move by the sum
/// of their offsets.
pub proof fn lemma_wrap_twice(index: int, first: int, second: int, modulus: int)
    requires
        modulus > 0,
    ensures
        wrap(wrap(index, first, modulus), second, modulus) == wrap(
            index,
            first + second,
            modulus,
        ),
{
    lemma_add_mod_noop_right(second, index + first, modulus);
}

/// Adds the signed offset `rhs` to the index `lhs` on a ring of `modulo`
/// positions.
///
/// The result is the Euclidean remainder of `lhs + rhs`, so a sum below zero
/// wraps to the far end of the ring. No intermediate value leaves the range
/// of `usize`, whatever the arguments are.
pub fn add_mod_n(lhs: usize, rhs: i32, modulo: usize) -> (wrapped: usize)
    requires
        modulo > 0,
    ensures
        wrapped as int == wrap(lhs as int, rhs as int, modulo as int),
        wrapped < modulo,
{
    let base: usize = lhs % modulo;
    proof {
        lemma_add_mod_noop(lhs as int, rhs as int, modulo as int);
        lemma_sub_mod_noop(lhs as int, -(rhs as int), modulo as int);
    }
    if rhs >= 0 {
        let forward: usize = (rhs as usize) % modulo;
        let room: usize = modulo - base;
        if forward >= room {
            proof {
                lemma_mod_multiples_vanish(1, base + forward - modulo, modulo as int);
                lemma_small_mod((base + forward - modulo) as nat, modulo as nat);
            }
            forward - room
        } else {
            proof {
                lemma_small_mod((base + forward) as nat, modulo as nat);
            }
            base + forward
        }
    } else {
        let distance: i64 = -(rhs as i64);
        let backward: usize = (distance as usize) % modulo;
        if backward <= base {
            proof {
                lemma_small_mod((base - backward) as nat, modulo as nat);
            }
            base - backward
        } else {
            proof {
                lemma_mod_multiples_vanish(-1, modulo - backward + base, modulo as int);
                lemma_small_mod((modulo - backward + base) as nat, modulo as nat);
            }
            modulo - backward + base
        }
    }
}

} // verus!
