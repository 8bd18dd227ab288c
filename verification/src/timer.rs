//! The programmable timer: DIV is the upper byte of an internal 16-bit
//! counter that advances every T-cycle; TIMA increments on the falling edge
//! of a counter bit selected by TAC and, on overflow, reloads from TMA and
//! requests a Timer interrupt.
use vstd::prelude::*;

verus! {

#[derive(Clone, Copy, PartialEq, Eq, Structural, Debug)]
pub struct Timer {
    /// Internal 16-bit counter; DIV reads its bits 8-15.
    pub counter: u16,
    pub tima: u8,
    pub tma: u8,
    pub tac: u8,
}

/// The counter bit whose falling edge ticks TIMA, per the low two bits of
/// TAC: 4096 Hz watches bit 9, 262144 Hz bit 3, 65536 Hz bit 5, 16384 Hz
/// bit 7.
pub open spec fn spec_edge_divisor(tac: u8) -> u16 {
    if tac % 4 == 0 {
        1024
    } else if tac % 4 == 1 {
        16
    } else if tac % 4 == 2 {
        64
    } else {
        256
    }
}

/// Whether the watched counter bit is set: the bit is the top bit of the
/// period, so it reads as `(counter mod period) >= period / 2`.
pub open spec fn spec_edge_bit(tac: u8, counter: u16) -> bool {
    counter as int % spec_edge_divisor(tac) as int >= spec_edge_divisor(tac) as int / 2
}

impl Timer {
    /// One T-cycle: the state afterwards, paired with whether TIMA
    /// overflowed (which reloads TMA and requests a Timer interrupt).
    pub open spec fn spec_tick(self) -> (Timer, bool) {
        let next = ((self.counter + 1) % 0x10000) as u16;
        if self.tac & 0x04 != 0 && spec_edge_bit(self.tac, self.counter) && !spec_edge_bit(
            self.tac,
            next,
        ) {
            if self.tima == 0xFF {
                (Timer { counter: next, tima: self.tma, ..self }, true)
            } else {
                (Timer { counter: next, tima: (self.tima + 1) as u8, ..self }, false)
            }
        } else {
            (Timer { counter: next, ..self }, false)
        }
    }

    /// `n` T-cycles in sequence; the boolean remembers whether any of them
    /// overflowed TIMA.
    pub open spec fn spec_steps(self, n: nat) -> (Timer, bool)
        decreases n,
    {
        if n == 0 {
            (self, false)
        } else {
            let (mid, fired) = self.spec_steps((n - 1) as nat);
            let (end, fired2) = mid.spec_tick();
            (end, fired || fired2)
        }
    }

    pub fn new() -> (r: Timer)
        ensures
            r == (Timer { counter: 0, tima: 0, tma: 0, tac: 0 }),
    {
        Timer { counter: 0, tima: 0, tma: 0, tac: 0 }
    }

    /// DIV is the upper byte of the internal counter.
    pub open spec fn spec_div(self) -> u8 {
        (self.counter / 256) as u8
    }

    pub fn div(&self) -> (r: u8)
        ensures
            r == self.spec_div(),
    {
        (self.counter / 256) as u8
    }

    fn edge_bit(&self, counter: u16) -> (r: bool)
        ensures
            r == spec_edge_bit(self.tac, counter),
    {
        let divisor: u16 = match self.tac % 4 {
            0 => 1024,
            1 => 16,
            2 => 64,
            _ => 256,
        };
        counter % divisor >= divisor / 2
    }

    /// Advance the timer by `cycles` T-cycles. Returns true when TIMA
    /// overflowed at least once, i.e. a Timer interrupt is requested.
    pub fn step(&mut self, cycles: u32) -> (fired: bool)
        ensures
            (*final(self), fired) == old(self).spec_steps(cycles as nat),
    {
        let mut fired: bool = false;
        let mut i: u32 = 0;
        while i < cycles
            invariant
                i <= cycles,
                (*self, fired) == old(self).spec_steps(i as nat),
            decreases cycles - i,
        {
            let ghost pre = *self;
            let mut tick_fired: bool = false;
            let next: u16 = ((self.counter as u32 + 1) % 0x10000) as u16;
            if self.tac & 0x04 != 0 && self.edge_bit(self.counter) && !self.edge_bit(next) {
                if self.tima == 0xFF {
                    self.tima = self.tma;
                    tick_fired = true;
                } else {
                    self.tima = self.tima + 1;
                }
            }
            self.counter = next;
            fired = fired || tick_fired;
            proof {
                assert((*self, tick_fired) == pre.spec_tick());
                assert((*self, fired) == old(self).spec_steps((i + 1) as nat));
            }
            i = i + 1;
        }
        fired
    }

    /// A write to DIV zeroes the whole internal counter. If the watched bit
    /// was set, the forced falling edge spuriously ticks TIMA; the result
    /// says whether that tick overflowed.
    pub fn write_div(&mut self) -> (fired: bool)
        ensures
            final(self).counter == 0,
            final(self).tma == old(self).tma,
            final(self).tac == old(self).tac,
            final(self).spec_div() == 0,
            ({
                if old(self).tac & 0x04 != 0 && spec_edge_bit(old(self).tac, old(self).counter) {
                    if old(self).tima == 0xFF {
                        final(self).tima == old(self).tma && fired
                    } else {
                        final(self).tima == old(self).tima + 1 && !fired
                    }
                } else {
                    final(self).tima == old(self).tima && !fired
                }
            }),
    {
        let mut fired: bool = false;
        if self.tac & 0x04 != 0 && self.edge_bit(self.counter) {
            if self.tima == 0xFF {
                self.tima = self.tma;
                fired = true;
            } else {
                self.tima = self.tima + 1;
            }
        }
        self.counter = 0;
        fired
    }
}

} // verus!
