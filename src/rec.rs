//! Peripheral reset and enable control.
//!
//! Each peripheral is controlled through a [`PeripheralToken`], the exclusive
//! right to change that peripheral's bits. Every operation takes the token by
//! value and hands it back, so that it can be threaded through a chain of
//! configuration calls and finally handed to the peripheral's driver.
//!
//! All tokens are issued by a [`PeripheralRec`], once each. A multiplexer that
//! a single peripheral owns is set through that peripheral's token. A
//! multiplexer shared by a group of peripherals is set through the registry
//! only, and only while every member's token is still held there: once one
//! member's token has been handed out, the shared clock can no longer change
//! under it.

use crate::bits::{bit_is_set, field_mask, field_of, lemma_with_bit, with_bit, with_field};
use crate::ccu::{BitWrite, Ccu, FieldWrite, Reg};
use crate::mux::{value_of, ClkSource, KernelMux, MuxValue};
use crate::periph::Peripheral;
use vstd::prelude::*;

verus! {

/// The clock gating of a peripheral in low-power modes.
#[derive(Clone, Copy, Debug, PartialEq, Eq, Structural)]
pub enum LowPowerMode {
    /// Kernel and bus interface clocks are stopped in low-power modes.
    Off,
    /// Kernel and bus interface clocks run in CSleep mode.
    Enabled,
    /// Kernel and bus interface clocks run in CSleep and CStop modes. For a
    /// peripheral without an autonomous-mode bit this has the effect of
    /// `Enabled`.
    Autonomous,
}

impl Default for LowPowerMode {
    fn default() -> (r: Self)
        ensures
            r == LowPowerMode::Enabled,
    {
        LowPowerMode::Enabled
    }
}

/// Register `r` now holds `after.word(r)`, written in one step, and no other
/// register changed.
pub open spec fn single_write(before: Ccu, after: Ccu, r: Reg) -> bool {
    &&& forall|q: Reg| q != r ==> after.word(q) == before.word(q)
    &&& after.writes() == before.writes().push((r, after.word(r)))
}

/// Bit `b` of register `r` was forced to `v` in one write; nothing else changed.
pub open spec fn bit_written(before: Ccu, after: Ccu, r: Reg, b: u32, v: bool) -> bool {
    &&& after.word(r) == with_bit(before.word(r), b, v)
    &&& single_write(before, after, r)
}

/// The selection code that `ccu` holds for multiplexer `m`.
pub open spec fn mux_code(ccu: Ccu, m: KernelMux) -> u32 {
    let f = m.spec_field();
    field_of(ccu.word(Reg::KernelClock(f.reg)), f.off, f.width)
}

/// What reading multiplexer `m` from `ccu` reports.
pub open spec fn mux_reading(ccu: Ccu, m: KernelMux) -> MuxValue {
    value_of(m.source_at(mux_code(ccu, m)), mux_code(ccu, m))
}

/// The field of multiplexer `m` now selects clock `sel`, set in one write that
/// changed no other bit of any register.
pub open spec fn mux_written(before: Ccu, after: Ccu, m: KernelMux, sel: ClkSource) -> bool {
    let f = m.spec_field();
    let r = Reg::KernelClock(f.reg);
    &&& m.source_at(mux_code(after, m)) == Some(sel)
    &&& after.word(r) == with_field(before.word(r), f.off, f.width, mux_code(after, m))
    &&& single_write(before, after, r)
}

/// `w` is a write that selects clock `sel` on multiplexer `m`.
pub open spec fn mux_plan(m: KernelMux, sel: ClkSource, w: FieldWrite) -> bool {
    let f = m.spec_field();
    &&& w.reg == Reg::KernelClock(f.reg)
    &&& w.off == f.off
    &&& w.width == f.width
    &&& w.code <= field_mask(f.width)
    &&& m.source_at(w.code) == Some(sel)
}

/// The enable register of peripheral `p`.
pub open spec fn enable_reg(p: Peripheral) -> Reg {
    Reg::Enable(p.spec_desc().bus)
}

/// The reset register of peripheral `p`.
pub open spec fn reset_reg(p: Peripheral) -> Reg {
    Reg::Reset(p.spec_desc().bus)
}

/// The low-power enable register of peripheral `p`.
pub open spec fn low_power_reg(p: Peripheral) -> Reg {
    Reg::LowPower(p.spec_desc().bus)
}

/// Resetting, enabling and disabling a single peripheral.
pub trait ResetEnable: Sized {
    /// The peripheral this value controls.
    spec fn controls(&self) -> Peripheral;

    /// Enables the peripheral's clock.
    fn enable(self, ccu: &mut Ccu) -> (r: Self)
        ensures
            r.controls() == self.controls(),
            bit_written(
                *old(ccu),
                *final(ccu),
                enable_reg(self.controls()),
                self.controls().spec_desc().bit,
                true,
            ),
    ;

    /// Disables the peripheral's clock.
    fn disable(self, ccu: &mut Ccu) -> (r: Self)
        ensures
            r.controls() == self.controls(),
            bit_written(
                *old(ccu),
                *final(ccu),
                enable_reg(self.controls()),
                self.controls().spec_desc().bit,
                false,
            ),
    ;

    /// Pulses the peripheral's reset bit: sets it, then clears it, in one
    /// indivisible sequence.
    fn reset(self, ccu: &mut Ccu) -> (r: Self)
        ensures
            r.controls() == self.controls(),
            ({
                let rr = reset_reg(self.controls());
                let b = self.controls().spec_desc().bit;
                let set = with_bit(old(ccu).word(rr), b, true);
                let clear = with_bit(set, b, false);
                &&& final(ccu).word(rr) == clear
                &&& !bit_is_set(final(ccu).word(rr), b)
                &&& forall|q: Reg| q != rr ==> final(ccu).word(q) == old(ccu).word(q)
                &&& final(ccu).writes() == old(ccu).writes().push((rr, set)).push((rr, clear))
            }),
    ;
}

/// The exclusive right to change one peripheral's bits.
pub struct PeripheralToken {
    p: Peripheral,
}

impl PeripheralToken {
    /// The peripheral this token controls.
    pub closed spec fn spec_peripheral(&self) -> Peripheral {
        self.p
    }

    /// The peripheral this token controls.
    pub fn peripheral(&self) -> (r: Peripheral)
        ensures
            r == self.spec_peripheral(),
    {
        self.p
    }

    /// The write that enables the peripheral's clock.
    pub fn enable_write(&self) -> (r: BitWrite)
        ensures
            r == (BitWrite {
                reg: enable_reg(self.spec_peripheral()),
                bit: self.spec_peripheral().spec_desc().bit,
                value: true,
            }),
            r.valid(),
    {
        let d = self.p.desc();
        BitWrite { reg: Reg::Enable(d.bus), bit: d.bit, value: true }
    }

    /// The write that disables the peripheral's clock.
    pub fn disable_write(&self) -> (r: BitWrite)
        ensures
            r == (BitWrite {
                reg: enable_reg(self.spec_peripheral()),
                bit: self.spec_peripheral().spec_desc().bit,
                value: false,
            }),
            r.valid(),
    {
        let d = self.p.desc();
        BitWrite { reg: Reg::Enable(d.bus), bit: d.bit, value: false }
    }

    /// The two writes of a reset pulse, in order: set the reset bit, then
    /// clear it. Both belong in one critical section.
    pub fn reset_writes(&self) -> (r: [BitWrite; 2])
        ensures
            r@[0] == (BitWrite {
                reg: reset_reg(self.spec_peripheral()),
                bit: self.spec_peripheral().spec_desc().bit,
                value: true,
            }),
            r@[1] == (BitWrite {
                reg: reset_reg(self.spec_peripheral()),
                bit: self.spec_peripheral().spec_desc().bit,
                value: false,
            }),
            r@[0].valid(),
            r@[1].valid(),
    {
        let d = self.p.desc();
        [
            BitWrite { reg: Reg::Reset(d.bus), bit: d.bit, value: true },
            BitWrite { reg: Reg::Reset(d.bus), bit: d.bit, value: false },
        ]
    }

    /// The writes that set low-power mode `lpm`: the low-power enable bit,
    /// set unless `lpm` is `Off`, and, only for a peripheral that has one, the
    /// autonomous-mode bit, set exactly when `lpm` is `Autonomous`. Both
    /// belong in one critical section.
    pub fn low_power_writes(&self, lpm: LowPowerMode) -> (r: (BitWrite, Option<BitWrite>))
        ensures
            r.0 == (BitWrite {
                reg: low_power_reg(self.spec_peripheral()),
                bit: self.spec_peripheral().spec_desc().bit,
                value: lpm != LowPowerMode::Off,
            }),
            r.1 == match self.spec_peripheral().spec_desc().amen {
                Some(a) => Some(
                    BitWrite { reg: Reg::Autonomous, bit: a, value: lpm == LowPowerMode::Autonomous },
                ),
                None => None::<BitWrite>,
            },
            r.0.valid(),
            r.1 matches Some(w) ==> w.valid(),
    {
        let d = self.p.desc();
        let lp = BitWrite { reg: Reg::LowPower(d.bus), bit: d.bit, value: lpm != LowPowerMode::Off };
        let am = match d.amen {
            Some(a) => Some(
                BitWrite { reg: Reg::Autonomous, bit: a, value: lpm == LowPowerMode::Autonomous },
            ),
            None => None,
        };
        (lp, am)
    }

    /// The write that selects clock `sel` on multiplexer `m`, which this
    /// peripheral owns alone.
    pub fn kernel_mux_write(&self, m: KernelMux, sel: ClkSource) -> (r: FieldWrite)
        requires
            m.owner() == Some(self.spec_peripheral()),
            m.accepts(sel),
        ensures
            mux_plan(m, sel, r),
            r.valid(),
    {
        plan_mux(m, sel)
    }

    /// The multiplexer this peripheral shares with its group, if any.
    pub fn shared_mux(&self) -> (r: Option<KernelMux>)
        ensures
            r == self.spec_peripheral().spec_desc().group,
    {
        self.p.desc().group
    }

    /// Sets the clock gating of the peripheral in low-power modes: its
    /// low-power enable bit is set unless `lpm` is `Off`, and, where it has
    /// an autonomous-mode bit, that bit is set exactly when `lpm` is
    /// `Autonomous`. A peripheral without that bit gets no write to it.
    pub fn low_power(self, ccu: &mut Ccu, lpm: LowPowerMode) -> (r: Self)
        ensures
            r.spec_peripheral() == self.spec_peripheral(),
            ({
                let d = self.spec_peripheral().spec_desc();
                let lp = low_power_reg(self.spec_peripheral());
                let lp_word = with_bit(old(ccu).word(lp), d.bit, lpm != LowPowerMode::Off);
                let am_word = with_bit(
                    old(ccu).word(Reg::Autonomous),
                    d.amen->0,
                    lpm == LowPowerMode::Autonomous,
                );
                &&& final(ccu).word(lp) == lp_word
                &&& d.amen is Some ==> final(ccu).word(Reg::Autonomous) == am_word
                &&& forall|q: Reg|
                    q != lp && (d.amen is Some ==> q != Reg::Autonomous) ==> final(ccu).word(q)
                        == old(ccu).word(q)
                &&& final(ccu).writes() == if d.amen is Some {
                    old(ccu).writes().push((lp, lp_word)).push((Reg::Autonomous, am_word))
                } else {
                    old(ccu).writes().push((lp, lp_word))
                }
            }),
    {
        let (lp, am) = self.low_power_writes(lpm);
        ccu.apply_bit(lp);
        match am {
            Some(a) => {
                ccu.apply_bit(a);
            },
            None => {},
        }
        self
    }

    /// Selects clock `sel` on multiplexer `m`, which this peripheral owns
    /// alone.
    pub fn kernel_mux(self, ccu: &mut Ccu, m: KernelMux, sel: ClkSource) -> (r: Self)
        requires
            m.owner() == Some(self.spec_peripheral()),
            m.accepts(sel),
        ensures
            r.spec_peripheral() == self.spec_peripheral(),
            mux_written(*old(ccu), *final(ccu), m, sel),
    {
        let w = self.kernel_mux_write(m, sel);
        apply_mux(ccu, m, sel, w);
        self
    }

    /// Reads multiplexer `m`, which this peripheral owns alone.
    pub fn get_kernel_mux(&self, ccu: &Ccu, m: KernelMux) -> (r: MuxValue)
        requires
            m.owner() == Some(self.spec_peripheral()),
        ensures
            r == mux_reading(*ccu, m),
    {
        read_mux(ccu, m)
    }

    /// Reads the multiplexer that this peripheral shares with its group.
    pub fn get_kernel_clk_mux(&self, ccu: &Ccu) -> (r: MuxValue)
        requires
            self.spec_peripheral().spec_desc().group is Some,
        ensures
            r == mux_reading(*ccu, self.spec_peripheral().spec_desc().group->0),
    {
        match self.shared_mux() {
            Some(m) => read_mux(ccu, m),
            None => MuxValue::UnknownRaw(0),
        }
    }
}

impl ResetEnable for PeripheralToken {
    open spec fn controls(&self) -> Peripheral {
        self.spec_peripheral()
    }

    fn enable(self, ccu: &mut Ccu) -> (r: Self) {
        ccu.apply_bit(self.enable_write());
        self
    }

    fn disable(self, ccu: &mut Ccu) -> (r: Self) {
        ccu.apply_bit(self.disable_write());
        self
    }

    fn reset(self, ccu: &mut Ccu) -> (r: Self) {
        let pulse = self.reset_writes();
        ccu.apply_bit(pulse[0]);
        ccu.apply_bit(pulse[1]);
        proof {
            let rr = reset_reg(self.p);
            let b = self.p.spec_desc().bit;
            lemma_with_bit(with_bit(old(ccu).word(rr), b, true), b, false, b);
        }
        self
    }
}

/// The refusal to change a shared multiplexer after a member's token has left
/// the registry.
#[derive(Clone, Copy, Debug, PartialEq, Eq, Structural)]
pub struct GroupLocked;

/// The set of peripheral tokens, each issued at most once.
///
/// While every member's token of a shared multiplexer is still held here, the
/// multiplexer may be changed through the registry; once any member's token
/// has been taken out, that multiplexer is fixed.
pub struct PeripheralRec {
    taken: Vec<Peripheral>,
}

impl PeripheralRec {
    /// Whether the token of `p` is still held by the registry.
    pub closed spec fn holds(&self, p: Peripheral) -> bool {
        !self.taken@.contains(p)
    }

    /// Whether a member of shared multiplexer `m` has had its token taken.
    pub open spec fn group_locked(&self, m: KernelMux) -> bool {
        exists|p: Peripheral| !self.holds(p) && #[trigger] p.spec_desc().group == Some(m)
    }

    /// A registry holding one token for every peripheral.
    pub(crate) fn new_singleton() -> (r: PeripheralRec)
        ensures
            forall|p: Peripheral| r.holds(p),
    {
        PeripheralRec { taken: Vec::new() }
    }

    /// Takes the token of `p` out of the registry, or returns `None` where it
    /// has been taken before.
    pub fn take(&mut self, p: Peripheral) -> (r: Option<PeripheralToken>)
        ensures
            r is Some <==> old(self).holds(p),
            r matches Some(t) ==> t.spec_peripheral() == p,
            forall|q: Peripheral| #[trigger] final(self).holds(q) == (old(self).holds(q) && q != p),
    {
        let mut i: usize = 0;
        while i < self.taken.len()
            invariant
                i <= self.taken@.len(),
                forall|j: int| 0 <= j < i ==> self.taken@[j] != p,
            decreases self.taken@.len() - i,
        {
            if self.taken[i] == p {
                return None;
            }
            i = i + 1;
        }
        self.taken.push(p);
        proof {
            let before = old(self).taken@;
            assert(self.taken@ == before.push(p));
            assert forall|q: Peripheral| #[trigger] self.holds(q) == (old(self).holds(q) && q != p) by {
                if q == p {
                    assert(self.taken@[before.len() as int] == p);
                } else if !old(self).holds(q) {
                    let j = choose|j: int| 0 <= j < before.len() && before[j] == q;
                    assert(self.taken@[j] == q);
                } else if self.taken@.contains(q) {
                    let j = choose|j: int| 0 <= j < self.taken@.len() && self.taken@[j] == q;
                    assert(before[j] == q);
                }
            }
        }
        Some(PeripheralToken { p })
    }

    /// Whether some member of shared multiplexer `m` has had its token taken.
    pub fn is_group_locked(&self, m: KernelMux) -> (r: bool)
        ensures
            r == self.group_locked(m),
    {
        let mut i: usize = 0;
        while i < self.taken.len()
            invariant
                i <= self.taken@.len(),
                forall|j: int| 0 <= j < i ==> (#[trigger] self.taken@[j]).spec_desc().group != Some(m),
            decreases self.taken@.len() - i,
        {
            let p = self.taken[i];
            if p.desc().group == Some(m) {
                proof {
                    assert(!self.holds(p));
                }
                return true;
            }
            i = i + 1;
        }
        proof {
            assert forall|p: Peripheral| !self.holds(p) implies #[trigger] p.spec_desc().group != Some(m) by {
                let j = choose|j: int| 0 <= j < self.taken@.len() && self.taken@[j] == p;
            }
        }
        false
    }

    /// The write that selects clock `sel` on shared multiplexer `m`, provided
    /// every member's token is still held by the registry; otherwise
    /// `GroupLocked`.
    pub fn group_mux_write(&mut self, m: KernelMux, sel: ClkSource) -> (r: Result<
        FieldWrite,
        GroupLocked,
    >)
        requires
            m.owner() is None,
            m.accepts(sel),
        ensures
            forall|q: Peripheral| #[trigger] final(self).holds(q) == old(self).holds(q),
            r is Ok <==> !old(self).group_locked(m),
            r matches Ok(w) ==> mux_plan(m, sel, w) && w.valid(),
    {
        if self.is_group_locked(m) {
            Err(GroupLocked)
        } else {
            Ok(plan_mux(m, sel))
        }
    }

    /// Selects clock `sel` on shared multiplexer `m`, provided every member's
    /// token is still held by the registry; otherwise leaves the register file
    /// untouched and reports `GroupLocked`.
    pub fn kernel_group_clk_mux(&mut self, ccu: &mut Ccu, m: KernelMux, sel: ClkSource) -> (r:
        Result<(), GroupLocked>)
        requires
            m.owner() is None,
            m.accepts(sel),
        ensures
            forall|q: Peripheral| #[trigger] final(self).holds(q) == old(self).holds(q),
            r is Ok <==> !old(self).group_locked(m),
            r is Ok ==> mux_written(*old(ccu), *final(ccu), m, sel),
            r is Err ==> *final(ccu) == *old(ccu),
    {
        match self.group_mux_write(m, sel) {
            Ok(w) => {
                apply_mux(ccu, m, sel, w);
                Ok(())
            },
            Err(e) => Err(e),
        }
    }
}

/// The clock-control unit, before its peripheral tokens are issued.
///
/// Creating it is the one-time creation of the token set: the caller must
/// create it at most once per process. Two values of it would issue two sets
/// of tokens claiming the same bits, and with them a shared multiplexer could
/// be changed after its members' tokens were handed out. Nothing here detects
/// that.
pub struct Rcc {
    _sealed: (),
}

impl Rcc {
    /// Takes control of the clock-control unit. Call this once per process
    /// (see the type's documentation).
    pub fn new() -> (r: Rcc) {
        Rcc { _sealed: () }
    }

    /// Ends configuration of the clock tree and issues the peripheral tokens,
    /// one for every peripheral. Consuming `self` keeps this value from
    /// issuing a second set; that no other `Rcc` exists is the caller's
    /// promise made at `Rcc::new`.
    pub fn freeze(self) -> (r: PeripheralRec)
        ensures
            forall|p: Peripheral| r.holds(p),
    {
        PeripheralRec::new_singleton()
    }

    /// Issues a second set of peripheral tokens, before or besides `freeze`,
    /// for narrow early uses such as starting a watchdog before waiting on an
    /// external clock.
    ///
    /// This is an escape hatch: tokens from here and from `freeze`, or from
    /// two calls of this, claim the same bits. The caller must make sure that
    /// at most one token of each peripheral is used.
    pub fn steal_peripheral_rec(&self) -> (r: PeripheralRec)
        ensures
            forall|p: Peripheral| r.holds(p),
    {
        PeripheralRec::new_singleton()
    }
}

/// The write that selects clock `sel` on multiplexer `m`.
fn plan_mux(m: KernelMux, sel: ClkSource) -> (r: FieldWrite)
    requires
        m.accepts(sel),
    ensures
        mux_plan(m, sel, r),
        r.valid(),
{
    let f = m.field();
    let code = match m.encode(sel) {
        Some(c) => c,
        None => 0,
    };
    FieldWrite { reg: Reg::KernelClock(f.reg), off: f.off, width: f.width, code }
}

/// Performs write `w`, planned to select clock `sel` on multiplexer `m`.
fn apply_mux(ccu: &mut Ccu, m: KernelMux, sel: ClkSource, w: FieldWrite)
    requires
        mux_plan(m, sel, w),
        w.valid(),
    ensures
        mux_written(*old(ccu), *final(ccu), m, sel),
{
    ccu.apply_field(w);
    proof {
        crate::bits::lemma_field_round_trip(old(ccu).word(w.reg), w.off, w.width, w.code);
    }
}

/// Reads the field of multiplexer `m`.
fn read_mux(ccu: &Ccu, m: KernelMux) -> (r: MuxValue)
    ensures
        r == mux_reading(*ccu, m),
{
    let f = m.field();
    m.read_word(ccu.read(Reg::KernelClock(f.reg)))
}

} // verus!
