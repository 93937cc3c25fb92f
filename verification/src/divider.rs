//! The hardware division service: a model of the target's memory-mapped
//! division unit, and the three runtime division routines that the compiler
//! lowers integer division and modulo to on this target.
//!
//! The unit has a control register (mode selector in the low bits, a
//! read-only busy flag in bit 15), 64-bit numerator and denominator operand
//! registers, and 64-bit quotient and remainder result registers. A routine
//! writes the mode, the numerator and the denominator, busy-polls the control
//! register until the busy flag clears, then reads the results at the width
//! the mode implies. Division is truncating (toward zero); a zero denominator
//! and the most-negative-value by minus-one overflow are left to whatever the
//! unit defines, so the contracts here promise results only outside those
//! inputs.

use crate::arith::{lemma_trunc_div_magnitude, lemma_trunc_div_mod, trunc_div, trunc_rem};
use vstd::prelude::*;

verus! {

/// Control-register value selecting 32-bit by 32-bit signed division.
pub const DIV_MODE_32: u32 = 0;

/// Control-register value selecting 64-bit by 64-bit signed division.
pub const DIV_MODE_64: u32 = 2;

/// Busy flag in the control register (bit 15): set while a division is in
/// flight.
pub const DIV_BUSY: u32 = 0x8000;

/// The control register's mode selector picks the 32-bit operation.
pub open spec fn mode_is_32(cnt: u32) -> bool {
    cnt & 3 == 0
}

/// The control register's mode selector picks the 64-bit operation.
pub open spec fn mode_is_64(cnt: u32) -> bool {
    cnt & 3 == 2
}

/// The 32-bit operation has a defined result for these operand registers:
/// their low words give a nonzero denominator and not the most-negative
/// numerator with denominator minus one.
pub open spec fn div32_defined(num: i64, den: i64) -> bool {
    den as i32 != 0 && !(num as i32 == i32::MIN && den as i32 == -1)
}

/// The 64-bit operation has a defined result for these operand registers.
pub open spec fn div64_defined(num: i64, den: i64) -> bool {
    den != 0 && !(num == i64::MIN && den == -1)
}

/// The division unit. Writing any of the control, numerator or denominator
/// registers starts a computation over the registers' current contents; the
/// busy flag then stays set for the unit's completion latency, counted in
/// polls of the control register. Once the flag clears, the result registers
/// hold the truncating quotient and remainder of the operands at the selected
/// width. For inputs whose outcome the hardware leaves to itself (zero
/// denominator, extremal overflow, an unassigned mode selector) this model's
/// result registers keep their prior contents, and no contract speaks of
/// them.
pub struct DivUnit {
    cnt: u32,
    num: i64,
    den: i64,
    quot: i64,
    rem: i64,
    busy: bool,
    cycles_left: u32,
    latency: u32,
}

impl DivUnit {
    /// Mode selector bits as last written (busy flag excluded).
    pub closed spec fn control(&self) -> u32 {
        self.cnt & 0x7fff
    }

    /// The busy flag: a computation is still in flight.
    pub closed spec fn busy(&self) -> bool {
        self.busy
    }

    /// Contents of the numerator operand register.
    pub closed spec fn numerator(&self) -> i64 {
        self.num
    }

    /// Contents of the denominator operand register.
    pub closed spec fn denominator(&self) -> i64 {
        self.den
    }

    /// Contents of the quotient result register.
    pub closed spec fn quotient(&self) -> i64 {
        self.quot
    }

    /// Contents of the remainder result register.
    pub closed spec fn remainder(&self) -> i64 {
        self.rem
    }

    /// Polls left until the in-flight computation completes.
    pub closed spec fn cycles_left(&self) -> u32 {
        self.cycles_left
    }

    /// The unit's completion latency, in polls of the control register.
    pub closed spec fn latency(&self) -> u32 {
        self.latency
    }

    /// The result registers hold the defined outcome for the current mode and
    /// operands, wherever the hardware defines one.
    pub open spec fn settled(&self) -> bool {
        &&& mode_is_32(self.control()) && div32_defined(self.numerator(), self.denominator())
            ==> self.quotient() == trunc_div(self.numerator() as i32 as int, self.denominator() as i32 as int)
            && self.remainder() == trunc_rem(self.numerator() as i32 as int, self.denominator() as i32 as int)
        &&& mode_is_64(self.control()) && div64_defined(self.numerator(), self.denominator())
            ==> self.quotient() == trunc_div(self.numerator() as int, self.denominator() as int)
            && self.remainder() == trunc_rem(self.numerator() as int, self.denominator() as int)
    }

    /// An idle unit with cleared registers and the given completion latency.
    pub fn new(latency: u32) -> (unit: DivUnit)
        ensures
            !unit.busy(),
            unit.control() == 0u32,
            unit.numerator() == 0i64,
            unit.denominator() == 0i64,
            unit.quotient() == 0i64,
            unit.remainder() == 0i64,
            unit.latency() == latency,
    {
        proof {
            assert(0u32 & 0x7fff == 0u32) by (bit_vector);
        }
        DivUnit {
            cnt: 0,
            num: 0,
            den: 0,
            quot: 0,
            rem: 0,
            busy: false,
            cycles_left: 0,
            latency,
        }
    }

    /// Write the control register: select a mode and start a computation.
    /// The busy flag is read-only and masked from the written value.
    pub fn write_control(&mut self, v: u32)
        ensures
            final(self).control() == v & 0x7fff,
            final(self).busy(),
            final(self).cycles_left() == old(self).latency(),
            final(self).latency() == old(self).latency(),
            final(self).numerator() == old(self).numerator(),
            final(self).denominator() == old(self).denominator(),
            final(self).quotient() == old(self).quotient(),
            final(self).remainder() == old(self).remainder(),
    {
        self.cnt = v;
        self.busy = true;
        self.cycles_left = self.latency;
    }

    /// Write the low word of the numerator register (sign-extended into the
    /// 64-bit register; the 32-bit mode reads only the low word back) and
    /// start a computation.
    pub fn write_numerator_32(&mut self, v: i32)
        ensures
            final(self).numerator() == v as i64,
            final(self).busy(),
            final(self).cycles_left() == old(self).latency(),
            final(self).latency() == old(self).latency(),
            final(self).control() == old(self).control(),
            final(self).denominator() == old(self).denominator(),
            final(self).quotient() == old(self).quotient(),
            final(self).remainder() == old(self).remainder(),
    {
        self.num = v as i64;
        self.busy = true;
        self.cycles_left = self.latency;
    }

    /// Write the full numerator register and start a computation.
    pub fn write_numerator_64(&mut self, v: i64)
        ensures
            final(self).numerator() == v,
            final(self).busy(),
            final(self).cycles_left() == old(self).latency(),
            final(self).latency() == old(self).latency(),
            final(self).control() == old(self).control(),
            final(self).denominator() == old(self).denominator(),
            final(self).quotient() == old(self).quotient(),
            final(self).remainder() == old(self).remainder(),
    {
        self.num = v;
        self.busy = true;
        self.cycles_left = self.latency;
    }

    /// Write the low word of the denominator register and start a
    /// computation.
    pub fn write_denominator_32(&mut self, v: i32)
        ensures
            final(self).denominator() == v as i64,
            final(self).busy(),
            final(self).cycles_left() == old(self).latency(),
            final(self).latency() == old(self).latency(),
            final(self).control() == old(self).control(),
            final(self).numerator() == old(self).numerator(),
            final(self).quotient() == old(self).quotient(),
            final(self).remainder() == old(self).remainder(),
    {
        self.den = v as i64;
        self.busy = true;
        self.cycles_left = self.latency;
    }

    /// Write the full denominator register and start a computation.
    pub fn write_denominator_64(&mut self, v: i64)
        ensures
            final(self).denominator() == v,
            final(self).busy(),
            final(self).cycles_left() == old(self).latency(),
            final(self).latency() == old(self).latency(),
            final(self).control() == old(self).control(),
            final(self).numerator() == old(self).numerator(),
            final(self).quotient() == old(self).quotient(),
            final(self).remainder() == old(self).remainder(),
    {
        self.den = v;
        self.busy = true;
        self.cycles_left = self.latency;
    }

    /// Complete the in-flight computation: fill the result registers for the
    /// modes and operands the hardware defines an outcome for; keep them
    /// otherwise.
    fn complete(&mut self)
        ensures
            final(self).settled(),
            final(self).control() == old(self).control(),
            final(self).numerator() == old(self).numerator(),
            final(self).denominator() == old(self).denominator(),
            final(self).busy() == old(self).busy(),
            final(self).cycles_left() == old(self).cycles_left(),
            final(self).latency() == old(self).latency(),
    {
        proof {
            let c = self.cnt;
            assert((c & 0x7fff) & 3 == c & 3) by (bit_vector);
        }
        let m = self.cnt & 3;
        if m == 0 {
            let n = self.num as i32;
            let d = self.den as i32;
            if d != 0 && !(n == i32::MIN && d == -1) {
                proof {
                    lemma_trunc_div_magnitude(n as int, d as int);
                    lemma_trunc_div_mod(n as int, d as int);
                    assert(d >= 2 || d <= -2 || d == 1 || d == -1);
                    assert(i32::MIN <= trunc_div(n as int, d as int) <= i32::MAX);
                    assert(i32::MIN <= trunc_rem(n as int, d as int) <= i32::MAX);
                }
                self.quot = (n / d) as i64;
                self.rem = (n % d) as i64;
            }
        } else if m == 2 {
            let n = self.num;
            let d = self.den;
            if d != 0 && !(n == i64::MIN && d == -1) {
                proof {
                    lemma_trunc_div_magnitude(n as int, d as int);
                    lemma_trunc_div_mod(n as int, d as int);
                    assert(d >= 2 || d <= -2 || d == 1 || d == -1);
                    assert(i64::MIN <= trunc_div(n as int, d as int) <= i64::MAX);
                    assert(i64::MIN <= trunc_rem(n as int, d as int) <= i64::MAX);
                }
                self.quot = n / d;
                self.rem = n % d;
            }
        }
    }

    /// Poll the control register. One poll is one unit of the completion
    /// latency: while a computation is in flight, the count of polls left
    /// drops by one, and when it runs out the unit latches its results and
    /// clears the busy flag. The returned value carries the mode selector
    /// bits and, in bit 15, the busy flag as of after this poll.
    pub fn read_control(&mut self) -> (r: u32)
        ensures
            final(self).control() == old(self).control(),
            final(self).numerator() == old(self).numerator(),
            final(self).denominator() == old(self).denominator(),
            final(self).latency() == old(self).latency(),
            r == final(self).control() | (if final(self).busy() {
                DIV_BUSY
            } else {
                0u32
            }),
            (r & DIV_BUSY != 0) == final(self).busy(),
            old(self).busy() && old(self).cycles_left() > 1 ==> final(self).busy()
                && final(self).cycles_left() == old(self).cycles_left() - 1
                && final(self).quotient() == old(self).quotient()
                && final(self).remainder() == old(self).remainder(),
            old(self).busy() && old(self).cycles_left() <= 1 ==> !final(self).busy()
                && final(self).cycles_left() == 0 && final(self).settled(),
            !old(self).busy() ==> !final(self).busy()
                && final(self).quotient() == old(self).quotient()
                && final(self).remainder() == old(self).remainder(),
    {
        if self.busy {
            if self.cycles_left > 0 {
                self.cycles_left = self.cycles_left - 1;
            }
            if self.cycles_left == 0 {
                self.complete();
                self.busy = false;
            }
        }
        let mode_bits = self.cnt & 0x7fff;
        let r = if self.busy {
            mode_bits | DIV_BUSY
        } else {
            mode_bits
        };
        proof {
            let c = self.cnt;
            assert((((c & 0x7fff) | 0x8000u32) & 0x8000u32 != 0) && ((c & 0x7fff) & 0x8000u32
                == 0) && ((c & 0x7fff) | 0u32 == c & 0x7fff)) by (bit_vector);
        }
        r
    }

    /// Read the low word of the quotient result register. Results are
    /// undefined to software while the unit is busy, so this asks for an
    /// idle unit.
    pub fn read_quotient_32(&self) -> (r: i32)
        requires
            !self.busy(),
        ensures
            r == self.quotient() as i32,
    {
        self.quot as i32
    }

    /// Read the full quotient result register of an idle unit.
    pub fn read_quotient_64(&self) -> (r: i64)
        requires
            !self.busy(),
        ensures
            r == self.quotient(),
    {
        self.quot
    }

    /// Read the low word of the remainder result register of an idle unit.
    pub fn read_remainder_32(&self) -> (r: i32)
        requires
            !self.busy(),
        ensures
            r == self.remainder() as i32,
    {
        self.rem as i32
    }

    /// Read the full remainder result register of an idle unit.
    pub fn read_remainder_64(&self) -> (r: i64)
        requires
            !self.busy(),
        ensures
            r == self.remainder(),
    {
        self.rem
    }
}

/// A quotient-and-remainder pair, as the remainder-producing routines return
/// it.
pub struct Divmod<T> {
    pub quot: T,
    pub rem: T,
}

/// Signed 32-bit division, quotient only: the runtime routine the compiler
/// calls for a 32-bit division expression. Drives the full hardware
/// protocol: select the 32-bit mode, write both operands, busy-poll, read
/// the quotient. For a zero denominator or the most-negative-value by
/// minus-one case the result is whatever the unit defines, and nothing is
/// promised of it.
pub fn aeabi_idiv(unit: &mut DivUnit, num: i32, den: i32) -> (r: i32)
    ensures
        den != 0 && !(num == i32::MIN && den == -1) ==> r == trunc_div(num as int, den as int),
        !final(unit).busy(),
        final(unit).latency() == old(unit).latency(),
{
    run_division_32(unit, num, den);
    unit.read_quotient_32()
}

/// Signed 32-bit division with remainder: quotient and remainder under the
/// hardware's truncating (toward zero) convention, by the same protocol.
pub fn aeabi_idivmod(unit: &mut DivUnit, num: i32, den: i32) -> (r: Divmod<i32>)
    ensures
        den != 0 && !(num == i32::MIN && den == -1) ==> r.quot == trunc_div(
            num as int,
            den as int,
        ) && r.rem == trunc_rem(num as int, den as int),
        !final(unit).busy(),
        final(unit).latency() == old(unit).latency(),
{
    run_division_32(unit, num, den);
    Divmod { quot: unit.read_quotient_32(), rem: unit.read_remainder_32() }
}

/// Signed 64-bit division with remainder: selects the 64-bit mode and reads
/// both results at full width.
pub fn aeabi_ldivmod(unit: &mut DivUnit, num: i64, den: i64) -> (r: Divmod<i64>)
    ensures
        den != 0 && !(num == i64::MIN && den == -1) ==> r.quot == trunc_div(
            num as int,
            den as int,
        ) && r.rem == trunc_rem(num as int, den as int),
        !final(unit).busy(),
        final(unit).latency() == old(unit).latency(),
{
    unit.write_control(DIV_MODE_64);
    unit.write_numerator_64(num);
    unit.write_denominator_64(den);
    proof {
        assert(2u32 & 0x7fff == 2u32 && (2u32 & 0x7fff) & 3 == 2u32) by (bit_vector);
    }
    let mut c = unit.read_control();
    while c & DIV_BUSY != 0
        invariant
            (c & DIV_BUSY != 0) == unit.busy(),
            unit.busy() ==> unit.cycles_left() >= 1,
            unit.control() == 2u32,
            unit.numerator() == num,
            unit.denominator() == den,
            unit.latency() == old(unit).latency(),
            !unit.busy() ==> unit.settled(),
        decreases unit.cycles_left(),
    {
        c = unit.read_control();
    }
    proof {
        assert(2u32 & 3 == 2u32) by (bit_vector);
    }
    Divmod { quot: unit.read_quotient_64(), rem: unit.read_remainder_64() }
}

/// The shared front half of both 32-bit routines: select the 32-bit mode,
/// write the operands, and busy-poll the control register until the unit
/// settles on their defined results.
fn run_division_32(unit: &mut DivUnit, num: i32, den: i32)
    ensures
        !final(unit).busy(),
        final(unit).latency() == old(unit).latency(),
        den != 0 && !(num == i32::MIN && den == -1) ==> final(unit).quotient() == trunc_div(
            num as int,
            den as int,
        ) && final(unit).remainder() == trunc_rem(num as int, den as int)
            && i32::MIN <= final(unit).quotient() <= i32::MAX
            && i32::MIN <= final(unit).remainder() <= i32::MAX,
{
    unit.write_control(DIV_MODE_32);
    unit.write_numerator_32(num);
    unit.write_denominator_32(den);
    proof {
        assert(0u32 & 0x7fff == 0u32 && 0u32 & 3 == 0u32) by (bit_vector);
    }
    let mut c = unit.read_control();
    while c & DIV_BUSY != 0
        invariant
            (c & DIV_BUSY != 0) == unit.busy(),
            unit.busy() ==> unit.cycles_left() >= 1,
            unit.control() == 0u32,
            unit.numerator() == num as i64,
            unit.denominator() == den as i64,
            unit.latency() == old(unit).latency(),
            !unit.busy() ==> unit.settled(),
        decreases unit.cycles_left(),
    {
        c = unit.read_control();
    }
    proof {
        assert(0u32 & 3 == 0u32) by (bit_vector);
        if den != 0 && !(num == i32::MIN && den == -1) {
            assert(unit.numerator() as i32 == num);
            assert(unit.denominator() as i32 == den);
            lemma_trunc_div_magnitude(num as int, den as int);
            lemma_trunc_div_mod(num as int, den as int);
            assert(i32::MIN <= trunc_div(num as int, den as int) <= i32::MAX);
            assert(i32::MIN <= trunc_rem(num as int, den as int) <= i32::MAX);
        }
    }
}

} // verus!
