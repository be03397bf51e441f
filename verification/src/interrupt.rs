//! The interrupt/trap controller: supervisor entry and return, the
//! pending-request and mask registers, and the once-per-cycle check
//! for an unmasked pending interrupt.

use vstd::prelude::*;
use crate::processor::{ProcView, Processor, set_bit};
use crate::util::bit_of;

verus! {

/// The saved-status word: bit 0 holds the supervisor flag, bit 1 the
/// interrupt-enable flag.
pub open spec fn status_word(sys: bool, ie: bool) -> u16 {
    ((if sys {
        1u16
    } else {
        0u16
    }) + (if ie {
        2u16
    } else {
        0u16
    })) as u16
}

/// Supervisor entry: the program counter is saved into `rpc`, the
/// supervisor and interrupt-enable flags into `rstat`, control
/// transfers to the vector address, supervisor mode is entered, and
/// interrupts are disabled until software re-enables them.
pub open spec fn spec_trap_entry(p: ProcView) -> ProcView {
    ProcView {
        rpc: p.pc,
        rstat: status_word(p.sys, p.ie),
        pc: p.vect,
        sys: true,
        ie: false,
        ..p
    }
}

/// Return from supervisor mode: the program counter is restored from
/// `rpc` and the supervisor and interrupt-enable flags from `rstat`.
pub open spec fn spec_trap_return(p: ProcView) -> ProcView {
    ProcView {
        pc: p.rpc,
        sys: bit_of(p.rstat, 0) == 1,
        ie: bit_of(p.rstat, 1) == 1,
        ..p
    }
}

/// Whether an unmasked interrupt request is pending while interrupts
/// are enabled.
pub open spec fn spec_pending(p: ProcView) -> bool {
    p.ie && (p.req & p.mask) != 0
}

/// The position of the lowest set bit of `word` at or above position
/// `from`; 16 if no bit at or above `from` is set.
pub open spec fn lowest_set_bit_from(word: u16, from: u16) -> u16
    decreases 16 - from,
{
    if from >= 16 {
        16
    } else if bit_of(word, from) == 1 {
        from
    } else {
        lowest_set_bit_from(word, (from + 1) as u16)
    }
}

/// The processor after the once-per-cycle interrupt check: if an
/// unmasked request is pending while interrupts are enabled, the
/// lowest-numbered such request is taken off `req` and supervisor
/// entry is performed; otherwise nothing changes. Masked pending
/// requests stay latched in `req`.
pub open spec fn spec_poll_interrupt(p: ProcView) -> ProcView {
    if spec_pending(p) {
        let source = lowest_set_bit_from(p.req & p.mask, 0);
        spec_trap_entry(ProcView { req: set_bit(p.req, source, false), ..p })
    } else {
        p
    }
}

/// Supervisor return undoes supervisor entry: after an entry followed
/// by a return, the program counter and the supervisor and
/// interrupt-enable flags hold their values from before the entry.
pub proof fn lemma_trap_entry_return_round_trip(p: ProcView)
    ensures
        spec_trap_return(spec_trap_entry(p)).pc == p.pc,
        spec_trap_return(spec_trap_entry(p)).sys == p.sys,
        spec_trap_return(spec_trap_entry(p)).ie == p.ie,
{
    assert((0u16 >> 0u16) & 1 == 0 && (0u16 >> 1u16) & 1 == 0 && (1u16 >> 0u16) & 1 == 1 && (1u16
        >> 1u16) & 1 == 0 && (2u16 >> 0u16) & 1 == 0 && (2u16 >> 1u16) & 1 == 1 && (3u16
        >> 0u16) & 1 == 1 && (3u16 >> 1u16) & 1 == 1) by (bit_vector);
}

/// A word with every bit below 16 clear is zero.
proof fn lemma_all_bits_clear_zero(word: u16)
    requires
        forall|i: u16| i < 16 ==> bit_of(word, i) != 1,
    ensures
        word == 0,
{
    assert(bit_of(word, 0) != 1 && bit_of(word, 1) != 1 && bit_of(word, 2) != 1 && bit_of(
        word,
        3,
    ) != 1 && bit_of(word, 4) != 1 && bit_of(word, 5) != 1 && bit_of(word, 6) != 1 && bit_of(
        word,
        7,
    ) != 1 && bit_of(word, 8) != 1 && bit_of(word, 9) != 1 && bit_of(word, 10) != 1 && bit_of(
        word,
        11,
    ) != 1 && bit_of(word, 12) != 1 && bit_of(word, 13) != 1 && bit_of(word, 14) != 1 && bit_of(
        word,
        15,
    ) != 1);
    assert(word == 0) by (bit_vector)
        requires
            (word >> 0u16) & 1 != 1,
            (word >> 1u16) & 1 != 1,
            (word >> 2u16) & 1 != 1,
            (word >> 3u16) & 1 != 1,
            (word >> 4u16) & 1 != 1,
            (word >> 5u16) & 1 != 1,
            (word >> 6u16) & 1 != 1,
            (word >> 7u16) & 1 != 1,
            (word >> 8u16) & 1 != 1,
            (word >> 9u16) & 1 != 1,
            (word >> 10u16) & 1 != 1,
            (word >> 11u16) & 1 != 1,
            (word >> 12u16) & 1 != 1,
            (word >> 13u16) & 1 != 1,
            (word >> 14u16) & 1 != 1,
            (word >> 15u16) & 1 != 1,
    ;
}

impl Processor {
    /// Enters supervisor mode for a trap or interrupt: saves `pc` into
    /// `rpc` and the status flags into `rstat`, loads `pc` from the
    /// vector register, sets supervisor mode, and disables interrupts.
    pub fn trap_entry(&mut self)
        requires
            old(self).wf(),
        ensures
            final(self).wf(),
            final(self)@ == spec_trap_entry(old(self)@),
    {
        self.rpc = self.pc;
        self.rstat = (if self.sys {
            1u16
        } else {
            0u16
        }) + (if self.ie {
            2u16
        } else {
            0u16
        });
        self.pc = self.vect;
        self.sys = true;
        self.ie = false;
    }

    /// Returns from supervisor mode: restores `pc` from `rpc` and the
    /// supervisor and interrupt-enable flags from `rstat`.
    pub fn trap_return(&mut self)
        requires
            old(self).wf(),
        ensures
            final(self).wf(),
            final(self)@ == spec_trap_return(old(self)@),
    {
        self.pc = self.rpc;
        self.sys = (self.rstat >> 0u16) & 1 == 1;
        self.ie = (self.rstat >> 1u16) & 1 == 1;
    }

    /// Latches an interrupt request from source `source` (a bit of the
    /// request register). The request stays pending until serviced.
    pub fn raise_request(&mut self, source: u8)
        requires
            old(self).wf(),
            source < 16,
        ensures
            final(self).wf(),
            final(self)@ == (ProcView {
                req: set_bit(old(self)@.req, source as u16, true),
                ..old(self)@
            }),
    {
        self.req = self.req | (1u16 << source);
    }

    /// Sets the enabled-interrupt mask.
    pub fn set_mask(&mut self, mask: u16)
        requires
            old(self).wf(),
        ensures
            final(self).wf(),
            final(self)@ == (ProcView { mask: mask, ..old(self)@ }),
    {
        self.mask = mask;
    }

    /// Sets the global interrupt-enable flag.
    pub fn set_interrupt_enable(&mut self, enabled: bool)
        requires
            old(self).wf(),
        ensures
            final(self).wf(),
            final(self)@ == (ProcView { ie: enabled, ..old(self)@ }),
    {
        self.ie = enabled;
    }

    /// The once-per-cycle interrupt check: services the lowest-numbered
    /// unmasked pending request, if interrupts are enabled and one is
    /// pending, by clearing it from `req` and entering supervisor mode.
    /// Returns whether an interrupt was taken.
    pub fn poll_interrupt(&mut self) -> (taken: bool)
        requires
            old(self).wf(),
        ensures
            final(self).wf(),
            taken == spec_pending(old(self)@),
            final(self)@ == spec_poll_interrupt(old(self)@),
    {
        let unmasked = self.req & self.mask;
        if !(self.ie && unmasked != 0) {
            return false;
        }
        let mut source: u16 = 0;
        while source < 16 && (unmasked >> source) & 1 != 1
            invariant
                source <= 16,
                lowest_set_bit_from(unmasked, 0) == lowest_set_bit_from(unmasked, source),
            decreases 16 - source,
        {
            source += 1;
        }
        proof {
            if source == 16 {
                assert forall|i: u16| i < 16 implies bit_of(unmasked, i) != 1 by {
                    lemma_lowest_set_bit_none(unmasked, 0, i);
                }
                lemma_all_bits_clear_zero(unmasked);
            }
        }
        self.req = self.req & !(1u16 << source);
        self.trap_entry();
        true
    }
}

/// If the lowest set bit at or above `from` is 16, no bit at or above
/// `from` is set.
proof fn lemma_lowest_set_bit_none(word: u16, from: u16, i: u16)
    requires
        from <= i < 16,
        lowest_set_bit_from(word, from) == 16,
    ensures
        bit_of(word, i) != 1,
    decreases i - from,
{
    if from < i {
        lemma_lowest_set_bit_none(word, (from + 1) as u16, i);
    }
}

} // verus!
