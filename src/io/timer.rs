use vstd::prelude::*;
use crate::io::interrupts::{Interrupt, TIMER_BIT};

verus! {

/// The bit of the internal counter whose falling edge clocks `TIMA`, chosen
/// by the two low bits of `TAC`.
pub open spec fn tac_mask(tac: u8) -> u16 {
    let f = tac % 4;
    if f == 0 {
        0x80
    } else if f == 1 {
        0x02
    } else if f == 2 {
        0x08
    } else {
        0x20
    }
}

/// Whether `TAC` enables the timer (bit 2).
pub open spec fn tac_enabled(tac: u8) -> bool {
    tac & 0x04 != 0
}

/// Whether one step of the internal counter from `prev` is a falling edge of
/// the bit that `tac` selects, with the timer enabled.
pub open spec fn falling_edge(prev: u16, tac: u8) -> bool {
    let next = (if prev == 0xFFFF { 0 } else { prev + 1 }) as u16;
    tac_enabled(tac) && prev & tac_mask(tac) != 0 && next & tac_mask(tac) == 0
}

/// The DIV/TIMA timer. `DIV` is the internal counter shifted right by 6.
pub struct Timer {
    pub m_cycles: u16,
    pub tima: u8,
    pub tma: u8,
    pub tac: u8,
}

/// The timer state after one unit tick: (counter, TIMA, whether TIMA overflowed).
pub open spec fn tick_once(m: u16, tima: u8, tma: u8, tac: u8) -> (u16, u8, bool) {
    let next = (if m == 0xFFFF { 0 } else { m + 1 }) as u16;
    if falling_edge(m, tac) {
        if tima == 0xFF {
            (next, tma, true)
        } else {
            (next, (tima + 1) as u8, false)
        }
    } else {
        (next, tima, false)
    }
}

/// The timer state after `n` unit ticks: (counter, TIMA, whether any tick overflowed).
pub open spec fn tick_n(m: u16, tima: u8, tma: u8, tac: u8, n: nat) -> (u16, u8, bool)
    decreases n,
{
    if n == 0 {
        (m, tima, false)
    } else {
        let (m1, t1, o1) = tick_once(m, tima, tma, tac);
        let (m2, t2, o2) = tick_n(m1, t1, tma, tac, (n - 1) as nat);
        (m2, t2, o1 || o2)
    }
}

impl Timer {
    /// The timer after writing `value` to `address`.
    pub open spec fn write_spec(self, address: u16, value: u8) -> Timer {
        if address == 0xFF04 {
            Timer { m_cycles: 0, ..self }
        } else if address == 0xFF05 {
            Timer { tima: value, ..self }
        } else if address == 0xFF06 {
            Timer { tma: value, ..self }
        } else {
            Timer { tac: value, ..self }
        }
    }

    /// The value `address` reads.
    pub open spec fn read_spec(self, address: u16) -> u8 {
        if address == 0xFF04 {
            self.div()
        } else if address == 0xFF05 {
            self.tima
        } else if address == 0xFF06 {
            self.tma
        } else {
            self.tac
        }
    }

    /// The value `DIV` (`0xFF04`) reads.
    pub open spec fn div(&self) -> u8 {
        (self.m_cycles >> 6) as u8
    }

    pub fn default() -> (r: Timer)
        ensures
            r.m_cycles == 0 && r.tima == 0 && r.tma == 0 && r.tac == 0,
    {
        Timer { m_cycles: 0, tima: 0, tma: 0, tac: 0 }
    }

    /// Writes `DIV`, `TIMA`, `TMA` or `TAC`; a write to `DIV` zeroes the counter.
    pub fn write_u8(&mut self, address: u16, value: u8)
        requires
            0xFF04 <= address <= 0xFF07,
        ensures
            *final(self) == old(self).write_spec(address, value),
            final(self).m_cycles == (if address == 0xFF04 {
                0
            } else {
                old(self).m_cycles
            }),
            final(self).tima == (if address == 0xFF05 {
                value
            } else {
                old(self).tima
            }),
            final(self).tma == (if address == 0xFF06 {
                value
            } else {
                old(self).tma
            }),
            final(self).tac == (if address == 0xFF07 {
                value
            } else {
                old(self).tac
            }),
    {
        if address == 0xFF04 {
            self.m_cycles = 0;
        } else if address == 0xFF05 {
            self.tima = value;
        } else if address == 0xFF06 {
            self.tma = value;
        } else {
            self.tac = value;
        }
    }

    /// Reads `DIV`, `TIMA`, `TMA` or `TAC`.
    pub fn read_u8(&self, address: u16) -> (r: u8)
        requires
            0xFF04 <= address <= 0xFF07,
        ensures
            r == (if address == 0xFF04 {
                self.div()
            } else if address == 0xFF05 {
                self.tima
            } else if address == 0xFF06 {
                self.tma
            } else {
                self.tac
            }),
    {
        if address == 0xFF04 {
            (self.m_cycles >> 6) as u8
        } else if address == 0xFF05 {
            self.tima
        } else if address == 0xFF06 {
            self.tma
        } else {
            self.tac
        }
    }

    /// The counter bit selected by `TAC`.
    fn frequency_mask(&self) -> (r: u16)
        ensures
            r == tac_mask(self.tac),
    {
        let freq = self.tac & 0x03;
        let tac = self.tac;
        assert(tac & 0x03 == tac % 4) by (bit_vector);
        if freq == 0 {
            0x80
        } else if freq == 1 {
            0x02
        } else if freq == 2 {
            0x08
        } else {
            0x20
        }
    }

    /// Advances the counter by one unit, clocking `TIMA` on a falling edge of
    /// the selected bit; on overflow `TIMA` takes `TMA` and the timer
    /// interrupt is requested.
    pub fn tick(&mut self, interrupt: &mut Interrupt)
        ensures
            (final(self).m_cycles, final(self).tima, false) == ({
                let t = tick_once(old(self).m_cycles, old(self).tima, old(self).tma, old(self).tac);
                (t.0, t.1, false)
            }),
            final(self).tma == old(self).tma && final(self).tac == old(self).tac,
            final(interrupt).interrupt_flag == (if tick_once(
                old(self).m_cycles,
                old(self).tima,
                old(self).tma,
                old(self).tac,
            ).2 {
                old(interrupt).interrupt_flag | TIMER_BIT
            } else {
                old(interrupt).interrupt_flag
            }),
            final(interrupt).interrupt_enable == old(interrupt).interrupt_enable,
            final(interrupt).interrupt_master_enable == old(interrupt).interrupt_master_enable,
    {
        let prev = self.m_cycles;
        self.m_cycles = prev.wrapping_add(1);
        let mask = self.frequency_mask();
        let enabled = self.tac & 0x04 != 0;
        if enabled && prev & mask != 0 && self.m_cycles & mask == 0 {
            if self.tima == 0xFF {
                self.tima = self.tma;
                interrupt.set_timer_interrupt();
            } else {
                self.tima = self.tima + 1;
            }
        }
    }

    /// Consumes `cycle_buffer` one unit at a time (see `tick`), leaving it at zero.
    pub fn update_timer(&mut self, cycle_buffer: &mut u8, interrupt: &mut Interrupt)
        ensures
            *final(cycle_buffer) == 0,
            ({
                let t = tick_n(
                    old(self).m_cycles,
                    old(self).tima,
                    old(self).tma,
                    old(self).tac,
                    *old(cycle_buffer) as nat,
                );
                &&& final(self).m_cycles == t.0
                &&& final(self).tima == t.1
                &&& final(interrupt).interrupt_flag == (if t.2 {
                    old(interrupt).interrupt_flag | TIMER_BIT
                } else {
                    old(interrupt).interrupt_flag
                })
            }),
            final(self).tma == old(self).tma && final(self).tac == old(self).tac,
            final(interrupt).interrupt_enable == old(interrupt).interrupt_enable,
            final(interrupt).interrupt_master_enable == old(interrupt).interrupt_master_enable,
    {
        let ghost m0 = self.m_cycles;
        let ghost t0 = self.tima;
        let ghost f0 = interrupt.interrupt_flag;
        let ghost n0 = *cycle_buffer as nat;
        while *cycle_buffer > 0
            invariant
                self.tma == old(self).tma && self.tac == old(self).tac,
                interrupt.interrupt_enable == old(interrupt).interrupt_enable,
                interrupt.interrupt_master_enable == old(interrupt).interrupt_master_enable,
                ({
                    let done = (n0 - *cycle_buffer) as nat;
                    let t = tick_n(m0, t0, self.tma, self.tac, done);
                    let rest = tick_n(self.m_cycles, self.tima, self.tma, self.tac, *cycle_buffer as nat);
                    let all = tick_n(m0, t0, self.tma, self.tac, n0);
                    &&& self.m_cycles == t.0 && self.tima == t.1
                    &&& interrupt.interrupt_flag == (if t.2 { f0 | TIMER_BIT } else { f0 })
                    &&& all.0 == rest.0 && all.1 == rest.1 && all.2 == (t.2 || rest.2)
                }),
                *cycle_buffer <= n0,
            decreases *cycle_buffer,
        {
            let ghost before = (self.m_cycles, self.tima);
            let ghost fb = interrupt.interrupt_flag;
            self.tick(interrupt);
            *cycle_buffer = *cycle_buffer - 1;
            proof {
                let done = (n0 - *cycle_buffer) as nat;
                lemma_tick_n_split(m0, t0, self.tma, self.tac, (done - 1) as nat);
                assert(fb | TIMER_BIT | TIMER_BIT == fb | TIMER_BIT) by (bit_vector);
                assert(f0 | TIMER_BIT | TIMER_BIT == f0 | TIMER_BIT) by (bit_vector);
            }
        }
    }
}

/// `n + 1` ticks are `n` ticks followed by one.
pub proof fn lemma_tick_n_split(m: u16, tima: u8, tma: u8, tac: u8, n: nat)
    ensures
        ({
            let a = tick_n(m, tima, tma, tac, n);
            let b = tick_once(a.0, a.1, tma, tac);
            let c = tick_n(m, tima, tma, tac, n + 1);
            c.0 == b.0 && c.1 == b.1 && c.2 == (a.2 || b.2)
        }),
    decreases n,
{
    reveal_with_fuel(tick_n, 2);
    if n > 0 {
        let (m1, t1, o1) = tick_once(m, tima, tma, tac);
        lemma_tick_n_split(m1, t1, tma, tac, (n - 1) as nat);
    }
}

} // verus!
