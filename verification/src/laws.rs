//! Laws of the flag setters: what a sequence of setter calls does to the
//! bitmask, stated over [`SerialRs485::spec_with_flag`], which is exactly
//! what each setter's contract says it returns.

use vstd::prelude::*;

use crate::config::flag_set;
use crate::config::SerialRs485;

verus! {

/// Two setter calls that target disjoint flags commute: the final
/// configuration does not depend on their order.
pub proof fn lemma_setters_commute(c: SerialRs485, m1: u32, m2: u32, on1: bool, on2: bool)
    requires
        m1 & m2 == 0,
    ensures
        c.spec_with_flag(m1, on1).spec_with_flag(m2, on2) == c.spec_with_flag(m2, on2)
            .spec_with_flag(m1, on1),
{
    let b: u32 = c.flags.bits;
    assert(flag_set(flag_set(b, m1, on1), m2, on2) == flag_set(flag_set(b, m2, on2), m1, on1))
        by (bit_vector)
        requires
            m1 & m2 == 0,
    ;
    assert(c.spec_with_flag(m1, on1).spec_with_flag(m2, on2) =~= c.spec_with_flag(m2, on2)
        .spec_with_flag(m1, on1));
}

/// A setter call leaves every flag outside its mask as it was, and the
/// delays and reserved words untouched.
pub proof fn lemma_setter_preserves_others(c: SerialRs485, mask: u32, on: bool, other: u32)
    requires
        other & mask == 0,
    ensures
        c.spec_with_flag(mask, on).spec_flag(other) == c.spec_flag(other),
        c.spec_with_flag(mask, on).delay_rts_before_send == c.delay_rts_before_send,
        c.spec_with_flag(mask, on).delay_rts_after_send == c.delay_rts_after_send,
        c.spec_with_flag(mask, on).padding == c.padding,
{
    let b: u32 = c.flags.bits;
    assert(flag_set(b, mask, on) & other == b & other) by (bit_vector)
        requires
            other & mask == 0,
    ;
}

/// A setter call reads back as what it set: afterwards the targeted flag is
/// `on`, whatever it was before.
pub proof fn lemma_setter_sets(c: SerialRs485, mask: u32, on: bool)
    requires
        mask != 0,
    ensures
        c.spec_with_flag(mask, on).spec_flag(mask) == on,
{
    let b: u32 = c.flags.bits;
    assert((flag_set(b, mask, on) & mask != 0) == on) by (bit_vector)
        requires
            mask != 0,
    ;
}

/// Setting a clear flag and clearing it again restores the exact prior
/// configuration: same bitmask, same delays, same reserved words.
pub proof fn lemma_set_clear_restores(c: SerialRs485, mask: u32)
    requires
        !c.spec_flag(mask),
    ensures
        c.spec_with_flag(mask, true).spec_with_flag(mask, false) == c,
{
    let b: u32 = c.flags.bits;
    assert(flag_set(flag_set(b, mask, true), mask, false) == b) by (bit_vector)
        requires
            b & mask == 0,
    ;
    assert(c.spec_with_flag(mask, true).spec_with_flag(mask, false) =~= c);
}

} // verus!
