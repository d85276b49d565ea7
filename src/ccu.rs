//! A model of the clock-control unit's register file: the enable, reset and
//! low-power words of each bus, the autonomous-mode word and the kernel clock
//! selection words, together with the sequence of writes made to them.
//!
//! Each mutating operation here is one read-modify-write, performed as one
//! indivisible step: the counterpart of a critical section on the device.

use crate::bits::{field_fits, field_mask, with_bit, with_field, write_bit, write_field};
use vstd::prelude::*;

verus! {

/// The buses whose peripherals have enable, reset and low-power words.
#[derive(Clone, Copy, Debug, PartialEq, Eq, Structural)]
pub enum Bus {
    Ahb1,
    Ahb2,
    Ahb3,
    Ahb4,
    Apb1l,
    Apb1h,
    Apb2,
    Apb3,
    Apb4,
}

/// The kernel clock selection words.
#[derive(Clone, Copy, Debug, PartialEq, Eq, Structural)]
pub enum Ccip {
    D1ccip,
    D2ccip1,
    D2ccip2,
    D3ccip,
}

/// A register word of the clock-control unit.
#[derive(Clone, Copy, Debug, PartialEq, Eq, Structural)]
pub enum Reg {
    Enable(Bus),
    Reset(Bus),
    LowPower(Bus),
    Autonomous,
    KernelClock(Ccip),
}

pub const N_BUSES: usize = 9;

pub const N_CCIP: usize = 4;

impl Bus {
    pub open spec fn spec_index(self) -> nat {
        match self {
            Bus::Ahb1 => 0,
            Bus::Ahb2 => 1,
            Bus::Ahb3 => 2,
            Bus::Ahb4 => 3,
            Bus::Apb1l => 4,
            Bus::Apb1h => 5,
            Bus::Apb2 => 6,
            Bus::Apb3 => 7,
            Bus::Apb4 => 8,
        }
    }

    /// The position of this bus among the buses.
    pub fn index(self) -> (r: usize)
        ensures
            r == self.spec_index(),
            r < N_BUSES,
    {
        match self {
            Bus::Ahb1 => 0,
            Bus::Ahb2 => 1,
            Bus::Ahb3 => 2,
            Bus::Ahb4 => 3,
            Bus::Apb1l => 4,
            Bus::Apb1h => 5,
            Bus::Apb2 => 6,
            Bus::Apb3 => 7,
            Bus::Apb4 => 8,
        }
    }
}

impl Ccip {
    pub open spec fn spec_index(self) -> nat {
        match self {
            Ccip::D1ccip => 0,
            Ccip::D2ccip1 => 1,
            Ccip::D2ccip2 => 2,
            Ccip::D3ccip => 3,
        }
    }

    /// The position of this word among the kernel clock selection words.
    pub fn index(self) -> (r: usize)
        ensures
            r == self.spec_index(),
            r < N_CCIP,
    {
        match self {
            Ccip::D1ccip => 0,
            Ccip::D2ccip1 => 1,
            Ccip::D2ccip2 => 2,
            Ccip::D3ccip => 3,
        }
    }
}

proof fn lemma_index_injective()
    ensures
        forall|a: Bus, b: Bus| a.spec_index() == b.spec_index() ==> a == b,
        forall|a: Ccip, b: Ccip| a.spec_index() == b.spec_index() ==> a == b,
{
}

/// A planned write: bit `bit` of register `reg` forced to `value`.
#[derive(Clone, Copy, Debug, PartialEq, Eq, Structural)]
pub struct BitWrite {
    pub reg: Reg,
    pub bit: u32,
    pub value: bool,
}

/// A planned write: the field of `width` bits at `off` of register `reg`
/// replaced by `code`.
#[derive(Clone, Copy, Debug, PartialEq, Eq, Structural)]
pub struct FieldWrite {
    pub reg: Reg,
    pub off: u32,
    pub width: u32,
    pub code: u32,
}

impl BitWrite {
    /// Whether this write names a bit of a 32-bit word.
    pub open spec fn valid(self) -> bool {
        self.bit < 32
    }

    /// The value of register word `w` after this write; a write that names no
    /// bit of the word leaves it as it is.
    pub fn apply(self, w: u32) -> (r: u32)
        ensures
            self.valid() ==> r == with_bit(w, self.bit, self.value),
            !self.valid() ==> r == w,
    {
        if self.bit < 32 {
            write_bit(w, self.bit, self.value)
        } else {
            w
        }
    }
}

impl FieldWrite {
    /// Whether this write names a field of a 32-bit word and a code that fits
    /// in it.
    pub open spec fn valid(self) -> bool {
        field_fits(self.off, self.width) && self.code <= field_mask(self.width)
    }

    /// The value of register word `w` after this write; a write that is not
    /// valid leaves it as it is.
    pub fn apply(self, w: u32) -> (r: u32)
        ensures
            self.valid() ==> r == with_field(w, self.off, self.width, self.code),
            !self.valid() ==> r == w,
    {
        let width = self.width;
        if 1 <= width && width <= 31 && self.off <= 32 - width {
            assert(field_mask(width) == (1u32 << width) - 1u32 && (1u32 << width) >= 1u32)
                by (bit_vector)
                requires
                    1 <= width <= 31,
            ;
            if self.code <= (1u32 << width) - 1u32 {
                return write_field(w, self.off, width, self.code);
            }
        }
        w
    }
}

/// The register file, with the history of every write made to it.
pub struct Ccu {
    enr: [u32; 9],
    rstr: [u32; 9],
    lpenr: [u32; 9],
    amr: u32,
    ccip: [u32; 4],
    history: Ghost<Seq<(Reg, u32)>>,
}

impl Ccu {
    /// The current value of register `r`.
    pub closed spec fn word(self, r: Reg) -> u32 {
        match r {
            Reg::Enable(b) => self.enr@[b.spec_index() as int],
            Reg::Reset(b) => self.rstr@[b.spec_index() as int],
            Reg::LowPower(b) => self.lpenr@[b.spec_index() as int],
            Reg::Autonomous => self.amr,
            Reg::KernelClock(c) => self.ccip@[c.spec_index() as int],
        }
    }

    /// Every write made to the register file, oldest first: the register and
    /// the value it was given.
    pub closed spec fn writes(self) -> Seq<(Reg, u32)> {
        self.history@
    }

    /// A register file with every word clear and no write made yet.
    pub fn new() -> (r: Ccu)
        ensures
            forall|q: Reg| r.word(q) == 0,
            r.writes() == Seq::<(Reg, u32)>::empty(),
    {
        Ccu {
            enr: [0u32; 9],
            rstr: [0u32; 9],
            lpenr: [0u32; 9],
            amr: 0,
            ccip: [0u32; 4],
            history: Ghost(Seq::empty()),
        }
    }

    /// Reads register `r`.
    pub fn read(&self, r: Reg) -> (v: u32)
        ensures
            v == self.word(r),
    {
        match r {
            Reg::Enable(b) => self.enr[b.index()],
            Reg::Reset(b) => self.rstr[b.index()],
            Reg::LowPower(b) => self.lpenr[b.index()],
            Reg::Autonomous => self.amr,
            Reg::KernelClock(c) => self.ccip[c.index()],
        }
    }

    /// Writes `v` to register `r` as a whole.
    pub fn write(&mut self, r: Reg, v: u32)
        ensures
            final(self).word(r) == v,
            forall|q: Reg| q != r ==> final(self).word(q) == old(self).word(q),
            final(self).writes() == old(self).writes().push((r, v)),
    {
        proof {
            lemma_index_injective();
        }
        match r {
            Reg::Enable(b) => self.enr[b.index()] = v,
            Reg::Reset(b) => self.rstr[b.index()] = v,
            Reg::LowPower(b) => self.lpenr[b.index()] = v,
            Reg::Autonomous => self.amr = v,
            Reg::KernelClock(c) => self.ccip[c.index()] = v,
        }
        self.history = Ghost(self.history@.push((r, v)));
    }

    /// Forces bit `b` of register `r` to `v` in one indivisible
    /// read-modify-write; the other bits of the word keep their values.
    pub fn modify_bit(&mut self, r: Reg, b: u32, v: bool)
        requires
            b < 32,
        ensures
            final(self).word(r) == with_bit(old(self).word(r), b, v),
            forall|q: Reg| q != r ==> final(self).word(q) == old(self).word(q),
            final(self).writes() == old(self).writes().push((r, with_bit(old(self).word(r), b, v))),
    {
        let w = self.read(r);
        let n = write_bit(w, b, v);
        self.write(r, n);
    }

    /// Performs planned write `p` in one indivisible read-modify-write.
    pub fn apply_bit(&mut self, p: BitWrite)
        requires
            p.valid(),
        ensures
            final(self).word(p.reg) == with_bit(old(self).word(p.reg), p.bit, p.value),
            forall|q: Reg| q != p.reg ==> final(self).word(q) == old(self).word(q),
            final(self).writes() == old(self).writes().push(
                (p.reg, with_bit(old(self).word(p.reg), p.bit, p.value)),
            ),
    {
        self.modify_bit(p.reg, p.bit, p.value);
    }

    /// Performs planned write `p` in one indivisible read-modify-write.
    pub fn apply_field(&mut self, p: FieldWrite)
        requires
            p.valid(),
        ensures
            final(self).word(p.reg) == with_field(old(self).word(p.reg), p.off, p.width, p.code),
            forall|q: Reg| q != p.reg ==> final(self).word(q) == old(self).word(q),
            final(self).writes() == old(self).writes().push(
                (p.reg, with_field(old(self).word(p.reg), p.off, p.width, p.code)),
            ),
    {
        self.modify_field(p.reg, p.off, p.width, p.code);
    }

    /// Replaces the field of `width` bits at `off` of register `r` by `v` in
    /// one indivisible read-modify-write; the other bits keep their values.
    pub fn modify_field(&mut self, r: Reg, off: u32, width: u32, v: u32)
        requires
            field_fits(off, width),
            v <= field_mask(width),
        ensures
            final(self).word(r) == with_field(old(self).word(r), off, width, v),
            forall|q: Reg| q != r ==> final(self).word(q) == old(self).word(q),
            final(self).writes() == old(self).writes().push(
                (r, with_field(old(self).word(r), off, width, v)),
            ),
    {
        let w = self.read(r);
        let n = write_field(w, off, width, v);
        self.write(r, n);
    }
}

} // verus!
