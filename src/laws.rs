use vstd::prelude::*;

use crate::register::{bit_of, clear_bit, set_bit};

verus! {

/// Enabling bit `e` of a cleared register gives exactly `1 << e`, and clearing
/// it again gives zero. Whatever the register held, setting or clearing bit
/// `e` leaves every other bit as it was.
pub proof fn lemma_enable_disable_bits(v: u32, e: u32)
    requires
        e < 32,
    ensures
        set_bit(0, e) == 1u32 << e,
        clear_bit(set_bit(0, e), e) == 0,
        bit_of(set_bit(v, e), e),
        !bit_of(clear_bit(v, e), e),
        forall|j: u32|
            j < 32 && j != e ==> bit_of(#[trigger] set_bit(v, e), j) == bit_of(v, j),
        forall|j: u32|
            j < 32 && j != e ==> bit_of(#[trigger] clear_bit(v, e), j) == bit_of(v, j),
{
    assert(set_bit(0, e) == 1u32 << e) by (bit_vector);
    assert(clear_bit(set_bit(0, e), e) == 0) by (bit_vector)
        requires
            e < 32,
    ;
    assert(bit_of(set_bit(v, e), e)) by (bit_vector)
        requires
            e < 32,
    ;
    assert(!bit_of(clear_bit(v, e), e)) by (bit_vector)
        requires
            e < 32,
    ;
    assert forall|j: u32| j < 32 && j != e implies bit_of(#[trigger] set_bit(v, e), j) == bit_of(
        v,
        j,
    ) by {
        assert(bit_of(set_bit(v, e), j) == bit_of(v, j)) by (bit_vector)
            requires
                j < 32 && j != e,
        ;
    }
    assert forall|j: u32| j < 32 && j != e implies bit_of(#[trigger] clear_bit(v, e), j)
        == bit_of(v, j) by {
        assert(bit_of(clear_bit(v, e), j) == bit_of(v, j)) by (bit_vector)
            requires
                j < 32 && j != e,
        ;
    }
}

/// A reset pulse on bit `r` first writes a word with bit `r` set, then one
/// with bit `r` clear; every other bit of both words is as the register held
/// it, so the peripheral ends out of reset and its siblings are untouched.
pub proof fn lemma_reset_pulse_bits(v: u32, r: u32)
    requires
        r < 32,
    ensures
        bit_of(set_bit(v, r), r),
        !bit_of(clear_bit(set_bit(v, r), r), r),
        clear_bit(set_bit(v, r), r) == clear_bit(v, r),
        forall|j: u32|
            j < 32 && j != r ==> bit_of(#[trigger] clear_bit(set_bit(v, r), r), j) == bit_of(
                v,
                j,
            ),
{
    assert(bit_of(set_bit(v, r), r)) by (bit_vector)
        requires
            r < 32,
    ;
    assert(clear_bit(set_bit(v, r), r) == clear_bit(v, r)) by (bit_vector);
    lemma_enable_disable_bits(v, r);
}

/// Enabling twice leaves the enable register as enabling once does, and so
/// does disabling twice.
pub proof fn lemma_enable_disable_idempotent(v: u32, e: u32)
    ensures
        set_bit(set_bit(v, e), e) == set_bit(v, e),
        clear_bit(clear_bit(v, e), e) == clear_bit(v, e),
{
    assert(set_bit(set_bit(v, e), e) == set_bit(v, e)) by (bit_vector);
    assert(clear_bit(clear_bit(v, e), e) == clear_bit(v, e)) by (bit_vector);
}

} // verus!
