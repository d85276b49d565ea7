//! Laws of the peripheral controls that relate several operations.

use crate::bits::{bit_is_set, lemma_with_bit, with_bit};
use crate::ccu::{Ccu, Reg};
use crate::mux::{ClkSource, KernelMux, MuxValue};
use crate::periph::Peripheral;
use crate::rec::{bit_written, enable_reg, mux_code, mux_reading, mux_written, PeripheralRec};
use vstd::prelude::*;

verus! {

/// Taking a token out of a registry leaves the registry without it, so a
/// second take of the same peripheral yields nothing, while every other
/// token stays where it was.
pub proof fn lemma_token_taken_once(before: PeripheralRec, after: PeripheralRec, p: Peripheral)
    requires
        forall|q: Peripheral| #[trigger] after.holds(q) == (before.holds(q) && q != p),
    ensures
        !after.holds(p),
        forall|q: Peripheral| q != p ==> #[trigger] after.holds(q) == before.holds(q),
{
    assert(after.holds(p) == (before.holds(p) && p != p));
}

/// Enabling and then disabling a peripheral leaves its enable bit clear and
/// every other bit of every register as it was.
pub proof fn lemma_enable_then_disable(c0: Ccu, c1: Ccu, c2: Ccu, p: Peripheral)
    requires
        p.spec_desc().bit < 32,
        bit_written(c0, c1, enable_reg(p), p.spec_desc().bit, true),
        bit_written(c1, c2, enable_reg(p), p.spec_desc().bit, false),
    ensures
        !bit_is_set(c2.word(enable_reg(p)), p.spec_desc().bit),
        forall|i: u32|
            i < 32 && i != p.spec_desc().bit ==> bit_is_set(c2.word(enable_reg(p)), i)
                == bit_is_set(c0.word(enable_reg(p)), i),
        forall|q: Reg| q != enable_reg(p) ==> c2.word(q) == c0.word(q),
{
    let r = enable_reg(p);
    let b = p.spec_desc().bit;
    lemma_with_bit(c1.word(r), b, false, b);
    assert forall|i: u32| i < 32 && i != b implies bit_is_set(c2.word(r), i) == bit_is_set(
        c0.word(r),
        i,
    ) by {
        lemma_with_bit(c0.word(r), b, true, i);
        lemma_with_bit(c1.word(r), b, false, i);
    }
}

/// A reset pulse on a bit that was clear leaves the whole word as it was.
pub proof fn lemma_reset_pulse_restores(w: u32, b: u32)
    requires
        b < 32,
        !bit_is_set(w, b),
    ensures
        with_bit(with_bit(w, b, true), b, false) == w,
{
    assert(((w >> b) & 1u32 != 1u32) ==> (w | (1u32 << b)) & !(1u32 << b) == w) by (bit_vector)
        requires
            b < 32,
    ;
}

/// A multiplexer reads back the clock that was last selected on it.
pub proof fn lemma_mux_read_back(before: Ccu, after: Ccu, m: KernelMux, sel: ClkSource)
    requires
        mux_written(before, after, m, sel),
    ensures
        mux_reading(after, m) == MuxValue::Known(sel),
{
}

/// After a shared multiplexer is set, every member of its group reads the
/// selected clock.
pub proof fn lemma_group_members_agree(
    before: Ccu,
    after: Ccu,
    m: KernelMux,
    sel: ClkSource,
    a: Peripheral,
    b: Peripheral,
)
    requires
        mux_written(before, after, m, sel),
        a.spec_desc().group == Some(m),
        b.spec_desc().group == Some(m),
    ensures
        mux_reading(after, a.spec_desc().group->0) == mux_reading(after, b.spec_desc().group->0),
        mux_reading(after, a.spec_desc().group->0) == MuxValue::Known(sel),
{
}

/// Once the token of a member of a shared multiplexer's group has been
/// taken, the registry can no longer change that multiplexer.
pub proof fn lemma_group_locked_after_take(
    before: PeripheralRec,
    after: PeripheralRec,
    p: Peripheral,
)
    requires
        p.spec_desc().group is Some,
        forall|q: Peripheral| #[trigger] after.holds(q) == (before.holds(q) && q != p),
    ensures
        after.group_locked(p.spec_desc().group->0),
{
    assert(!after.holds(p));
}

/// A selection code that the hardware reserves is reported as it stands,
/// never as a clock.
pub proof fn lemma_reserved_code_reads_raw(ccu: Ccu, m: KernelMux)
    requires
        m.source_at(mux_code(ccu, m)) is None,
    ensures
        mux_reading(ccu, m) == MuxValue::UnknownRaw(mux_code(ccu, m) as u8),
        !(mux_reading(ccu, m) is Known),
{
}

/// The word that results from a sequence of single-bit writes, each a
/// register bit index and the value written to it, oldest first.
pub open spec fn apply_bit_writes(w: u32, ops: Seq<(u32, bool)>) -> u32
    decreases ops.len(),
{
    if ops.len() == 0 {
        w
    } else {
        with_bit(apply_bit_writes(w, ops.drop_last()), ops.last().0, ops.last().1)
    }
}

/// The value of bit `i` after `ops`: the value of the last write to it, or
/// its value in `w` where no write touches it.
pub open spec fn last_bit_value(w: u32, ops: Seq<(u32, bool)>, i: u32) -> bool
    decreases ops.len(),
{
    if ops.len() == 0 {
        bit_is_set(w, i)
    } else if ops.last().0 == i {
        ops.last().1
    } else {
        last_bit_value(w, ops.drop_last(), i)
    }
}

/// Indivisible single-bit writes to a shared word lose no update: whatever
/// order they come in, every bit ends with the value of the last write to
/// it, and a bit that no write touches keeps its value.
pub proof fn lemma_bit_writes_compose(w: u32, ops: Seq<(u32, bool)>, i: u32)
    requires
        i < 32,
        forall|k: int| 0 <= k < ops.len() ==> (#[trigger] ops[k]).0 < 32,
    ensures
        bit_is_set(apply_bit_writes(w, ops), i) == last_bit_value(w, ops, i),
    decreases ops.len(),
{
    if ops.len() > 0 {
        let rest = ops.drop_last();
        assert forall|k: int| 0 <= k < rest.len() implies (#[trigger] rest[k]).0 < 32 by {
            assert(rest[k] == ops[k]);
        }
        lemma_bit_writes_compose(w, rest, i);
        assert(ops[ops.len() - 1].0 < 32);
        lemma_with_bit(apply_bit_writes(w, rest), ops.last().0, ops.last().1, i);
    }
}

/// The last write to bit `b` decides its value, whatever writes to other bits
/// follow it.
pub proof fn lemma_last_write_wins(w: u32, a: Seq<(u32, bool)>, b: u32, v: bool, c: Seq<(u32, bool)>)
    requires
        forall|k: int| 0 <= k < c.len() ==> (#[trigger] c[k]).0 != b,
    ensures
        last_bit_value(w, a.push((b, v)) + c, b) == v,
    decreases c.len(),
{
    let s = a.push((b, v)) + c;
    if c.len() == 0 {
        assert(s == a.push((b, v)));
    } else {
        let c0 = c.drop_last();
        assert(s.drop_last() == a.push((b, v)) + c0);
        assert(s.last() == c[c.len() - 1]);
        assert forall|k: int| 0 <= k < c0.len() implies (#[trigger] c0[k]).0 != b by {
            assert(c0[k] == c[k]);
        }
        lemma_last_write_wins(w, a, b, v, c0);
    }
}

/// Enabling peripheral bit `x` and disabling peripheral bit `y` of one word,
/// with any writes to other bits (an interrupt's, say) before, between and
/// after them, ends with `x` set and `y` clear, in either order.
pub proof fn lemma_no_lost_update(
    w: u32,
    x: u32,
    y: u32,
    pre: Seq<(u32, bool)>,
    mid: Seq<(u32, bool)>,
    post: Seq<(u32, bool)>,
    x_first: bool,
)
    requires
        x < 32,
        y < 32,
        x != y,
        forall|k: int| 0 <= k < pre.len() ==> (#[trigger] pre[k]).0 < 32,
        forall|k: int|
            0 <= k < mid.len() ==> (#[trigger] mid[k]).0 < 32 && mid[k].0 != x && mid[k].0 != y,
        forall|k: int|
            0 <= k < post.len() ==> (#[trigger] post[k]).0 < 32 && post[k].0 != x && post[k].0
                != y,
    ensures
        ({
            let ops = if x_first {
                pre.push((x, true)) + mid.push((y, false)) + post
            } else {
                pre.push((y, false)) + mid.push((x, true)) + post
            };
            bit_is_set(apply_bit_writes(w, ops), x) && !bit_is_set(apply_bit_writes(w, ops), y)
        }),
{
    let (f, fv, s, sv) = if x_first {
        (x, true, y, false)
    } else {
        (y, false, x, true)
    };
    let ops = pre.push((f, fv)) + mid.push((s, sv)) + post;
    assert forall|k: int| 0 <= k < ops.len() implies (#[trigger] ops[k]).0 < 32 by {
        if k < pre.len() {
            assert(ops[k] == pre[k]);
        } else if k == pre.len() {
            assert(ops[k] == (f, fv));
        } else if k < pre.len() + 1 + mid.len() {
            assert(ops[k] == mid[k - pre.len() - 1]);
        } else if k == pre.len() + 1 + mid.len() {
            assert(ops[k] == (s, sv));
        } else {
            assert(ops[k] == post[k - pre.len() - 2 - mid.len()]);
        }
    }
    // The second write, then only writes to other bits.
    let a2 = pre.push((f, fv)) + mid;
    assert(ops == a2.push((s, sv)) + post);
    lemma_last_write_wins(w, a2, s, sv, post);
    // The first write, then only writes to other bits.
    let c1 = mid.push((s, sv)) + post;
    assert(ops == pre.push((f, fv)) + c1);
    assert forall|k: int| 0 <= k < c1.len() implies (#[trigger] c1[k]).0 != f by {
        if k < mid.len() {
            assert(c1[k] == mid[k]);
        } else if k == mid.len() {
            assert(c1[k] == (s, sv));
        } else {
            assert(c1[k] == post[k - mid.len() - 1]);
        }
    }
    lemma_last_write_wins(w, pre, f, fv, c1);
    lemma_bit_writes_compose(w, ops, x);
    lemma_bit_writes_compose(w, ops, y);
}

} // verus!
