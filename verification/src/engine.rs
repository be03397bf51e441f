//! The execution engine and the fetch-decode-execute cycle: word
//! arithmetic under the signed ("integer") and unsigned ("natural")
//! interpretations, condition-code effects, and the state machine
//! around the cycle.

use vstd::prelude::*;
use vstd::arithmetic::div_mod::{lemma_small_mod, lemma_mod_multiples_vanish};
use crate::condition_code::{ConditionCode, has_flag};
use crate::instruction::{
    Instruction, spec_decode, decode, instr_wf, two_word, InstructionType, get_type,
};
use crate::interrupt::{spec_trap_entry, status_word};
use crate::processor::{ProcView, Processor, State};
use crate::util::{word_of, bit_of, a_field, lemma_fields_bounded};

verus! {

/// What an executed instruction asks of the surrounding cycle:
/// fall through to the next instruction, transfer control, enter the
/// trap path (supervisor entry has already been performed, with the
/// given trap code), or halt the machine. No instruction of the
/// implemented subset yields `Halt`; the variant is applied for
/// outside halt requests.
#[derive(Clone, Copy, Debug, PartialEq, Eq, Structural)]
pub enum ControlEffect {
    Continue,
    Jump(u16),
    Trap(u16),
    Halt,
}

/// The trap code of the faults the engine raises itself: the
/// illegal-instruction trap (the decoder's all-zero-operand `Trap`)
/// and the division-by-zero fault share it.
pub const FAULT_CODE: u16 = 0;

/// The two's-complement reading of a 16-bit word.
pub open spec fn signed(w: u16) -> int {
    if w < 0x8000 {
        w as int
    } else {
        w as int - 0x10000
    }
}

/// Whether `n` fits the signed 16-bit range.
pub open spec fn in_signed_range(n: int) -> bool {
    -0x8000 <= n <= 0x7fff
}

/// The condition-code bits an arithmetic operation sets:
/// IntegerOverflow, NaturalOverflow and Carry, at their bit positions.
pub open spec fn arith_flag_mask(iov: bool, nov: bool, carry: bool) -> u16 {
    (if iov {
        0x20u16
    } else {
        0u16
    }) | (if nov {
        0x40u16
    } else {
        0u16
    }) | (if carry {
        0x80u16
    } else {
        0u16
    })
}

/// The flags an addition of `x` and `y` sets: IntegerOverflow when the
/// signed sum leaves the signed range, NaturalOverflow and Carry when
/// the unsigned sum leaves the word range (the carry-out).
pub open spec fn add_flag_mask(x: u16, y: u16) -> u16 {
    arith_flag_mask(!in_signed_range(signed(x) + signed(y)), x + y > 0xffff, x + y > 0xffff)
}

/// The flags a subtraction of `y` from `x` sets: IntegerOverflow when
/// the signed difference leaves the signed range, NaturalOverflow and
/// Carry when the unsigned difference is negative (the borrow).
pub open spec fn sub_flag_mask(x: u16, y: u16) -> u16 {
    arith_flag_mask(!in_signed_range(signed(x) - signed(y)), x < y, x < y)
}

/// The flags a multiplication of `x` and `y` sets: IntegerOverflow
/// when the signed product leaves the signed range, NaturalOverflow
/// and Carry when the unsigned product leaves the word range.
pub open spec fn mul_flag_mask(x: u16, y: u16) -> u16 {
    arith_flag_mask(!in_signed_range(signed(x) * signed(y)), x * y > 0xffff, x * y > 0xffff)
}

/// The comparison bits `Cmp` computes for operands `x` and `y`:
/// exactly `Equals` when the words are equal, else one of
/// IntegerGreaterThan/IntegerLessThan by the signed order and one of
/// NaturalGreaterThan/NaturalLessThan by the unsigned order.
pub open spec fn cmp_flag_mask(x: u16, y: u16) -> u16 {
    if x == y {
        0x0004u16
    } else {
        (if signed(x) > signed(y) {
            0x0001u16
        } else {
            0x0010u16
        }) | (if x > y {
            0x0002u16
        } else {
            0x0008u16
        })
    }
}

/// The processor with `value` written to register `d` as ordinary
/// data. Register 15 is the condition-code register and is never
/// written as ordinary data: a write aimed at it is suppressed.
pub open spec fn spec_write_reg(p: ProcView, d: u16, value: u16) -> ProcView {
    if d == 15 {
        p
    } else {
        ProcView { registers: p.registers.update(d as int, value), ..p }
    }
}

/// The processor with the flag bits of `mask` set in register 15;
/// bits outside `mask` keep their values.
pub open spec fn spec_or_flags(p: ProcView, mask: u16) -> ProcView {
    ProcView { registers: p.registers.update(15, p.registers[15] | mask), ..p }
}

/// The processor after `Cmp`: the five comparison bits of register 15
/// are replaced by the computed ones, every other bit is unchanged.
pub open spec fn spec_cmp(p: ProcView, x: u16, y: u16) -> ProcView {
    ProcView {
        registers: p.registers.update(15, (p.registers[15] & 0xffe0) | cmp_flag_mask(x, y)),
        ..p
    }
}

/// The processor and control effect produced by executing one decoded
/// instruction. The program counter is not advanced here: the cycle
/// advances it past the instruction before executing, so `p.pc` is
/// already the fall-through address, which `Trap` saves and `Jal`
/// links. A `Trap` effect means supervisor entry has been performed.
pub open spec fn spec_execute(p: ProcView, instr: Instruction) -> (ProcView, ControlEffect) {
    match instr {
        Instruction::Add(d, a, b) => {
            let x = p.registers[a as int];
            let y = p.registers[b as int];
            (
                spec_or_flags(spec_write_reg(p, d, word_of(x + y)), add_flag_mask(x, y)),
                ControlEffect::Continue,
            )
        },
        Instruction::Sub(d, a, b) => {
            let x = p.registers[a as int];
            let y = p.registers[b as int];
            (
                spec_or_flags(spec_write_reg(p, d, word_of(x - y)), sub_flag_mask(x, y)),
                ControlEffect::Continue,
            )
        },
        Instruction::Mul(d, a, b) => {
            let x = p.registers[a as int];
            let y = p.registers[b as int];
            (
                spec_or_flags(spec_write_reg(p, d, word_of(x * y)), mul_flag_mask(x, y)),
                ControlEffect::Continue,
            )
        },
        Instruction::Div(d, a, b) => {
            let x = p.registers[a as int];
            let y = p.registers[b as int];
            if y == 0 {
                (spec_trap_entry(p), ControlEffect::Trap(FAULT_CODE))
            } else {
                (spec_write_reg(p, d, (x as int / y as int) as u16), ControlEffect::Continue)
            }
        },
        Instruction::Cmp(a, b) => {
            let x = p.registers[a as int];
            let y = p.registers[b as int];
            (spec_cmp(p, x, y), ControlEffect::Continue)
        },
        Instruction::Trap(d, _, _) => (spec_trap_entry(p), ControlEffect::Trap(d)),
        Instruction::Lea(d, ea) => (spec_write_reg(p, d, ea), ControlEffect::Continue),
        Instruction::Load(d, ea) => {
            let value = p.memory[ea as int];
            (ProcView { dat: value, ..spec_write_reg(p, d, value) }, ControlEffect::Continue)
        },
        Instruction::Store(d, ea) => {
            let value = p.registers[d as int];
            (
                ProcView { memory: p.memory.update(ea as int, value), dat: value, ..p },
                ControlEffect::Continue,
            )
        },
        Instruction::Jump(target) => (p, ControlEffect::Jump(target)),
        Instruction::Jumpc0(bit, target) => if bit_of(p.registers[15], bit) == 0 {
            (p, ControlEffect::Jump(target))
        } else {
            (p, ControlEffect::Continue)
        },
        Instruction::Jumpc1(bit, target) => if bit_of(p.registers[15], bit) == 1 {
            (p, ControlEffect::Jump(target))
        } else {
            (p, ControlEffect::Continue)
        },
        Instruction::Jal(d, target) => (
            spec_write_reg(p, d, p.pc),
            ControlEffect::Jump(target),
        ),
    }
}

/// The two's-complement reading of a word, as a machine integer.
fn signed_value(w: u16) -> (s: i32)
    ensures
        s == signed(w),
{
    if w < 0x8000 {
        w as i32
    } else {
        (w as i32) - 0x10000
    }
}

/// The wrapped sum of two words, and the flags the addition sets.
fn add_words(x: u16, y: u16) -> (r: (u16, u16))
    ensures
        r.0 == word_of(x + y),
        r.1 == add_flag_mask(x, y),
{
    let sum: u32 = x as u32 + y as u32;
    let result: u16 = if sum > 0xffff {
        proof {
            lemma_mod_multiples_vanish(-1, x + y, 0x10000);
            lemma_small_mod((x + y - 0x10000) as nat, 0x10000);
        }
        (sum - 0x10000) as u16
    } else {
        proof {
            lemma_small_mod((x + y) as nat, 0x10000);
        }
        sum as u16
    };
    let ssum: i32 = signed_value(x) + signed_value(y);
    let iov = ssum < -0x8000 || ssum > 0x7fff;
    let nov = sum > 0xffff;
    let mask = (if iov {
        0x20u16
    } else {
        0u16
    }) | (if nov {
        0x40u16
    } else {
        0u16
    }) | (if nov {
        0x80u16
    } else {
        0u16
    });
    (result, mask)
}

/// The wrapped difference of two words, and the flags the subtraction
/// sets.
fn sub_words(x: u16, y: u16) -> (r: (u16, u16))
    ensures
        r.0 == word_of(x - y),
        r.1 == sub_flag_mask(x, y),
{
    let result: u16 = if x >= y {
        proof {
            lemma_small_mod((x - y) as nat, 0x10000);
        }
        x - y
    } else {
        proof {
            lemma_mod_multiples_vanish(1, x - y, 0x10000);
            lemma_small_mod((x - y + 0x10000) as nat, 0x10000);
        }
        (0x10000u32 + x as u32 - y as u32) as u16
    };
    let sdiff: i32 = signed_value(x) - signed_value(y);
    let iov = sdiff < -0x8000 || sdiff > 0x7fff;
    let borrow = x < y;
    let mask = (if iov {
        0x20u16
    } else {
        0u16
    }) | (if borrow {
        0x40u16
    } else {
        0u16
    }) | (if borrow {
        0x80u16
    } else {
        0u16
    });
    (result, mask)
}

/// The wrapped product of two words, and the flags the multiplication
/// sets.
fn mul_words(x: u16, y: u16) -> (r: (u16, u16))
    ensures
        r.0 == word_of(x * y),
        r.1 == mul_flag_mask(x, y),
{
    proof {
        assert(x as int * y as int <= 0xffff * 0xffff) by (nonlinear_arith)
            requires
                x <= 0xffff,
                y <= 0xffff,
        ;
        assert(x as int * y as int >= 0) by (nonlinear_arith)
            requires
                x >= 0,
                y >= 0,
        ;
    }
    let product: u32 = x as u32 * y as u32;
    let result: u16 = (product % 0x10000) as u16;
    let sx = signed_value(x);
    let sy = signed_value(y);
    proof {
        assert(-0x40000000 <= sx as int * sy as int <= 0x40000000) by (nonlinear_arith)
            requires
                -0x8000 <= sx <= 0x7fff,
                -0x8000 <= sy <= 0x7fff,
        ;
    }
    let sprod: i32 = sx * sy;
    let iov = sprod < -0x8000 || sprod > 0x7fff;
    let nov = product > 0xffff;
    let mask = (if iov {
        0x20u16
    } else {
        0u16
    }) | (if nov {
        0x40u16
    } else {
        0u16
    }) | (if nov {
        0x80u16
    } else {
        0u16
    });
    (result, mask)
}

impl Processor {
    /// Writes `value` to register `d` as ordinary data; a write aimed
    /// at register 15, the condition-code register, is suppressed.
    fn write_reg(&mut self, d: u16, value: u16)
        requires
            old(self).wf(),
            d < 16,
        ensures
            final(self).wf(),
            final(self)@ == spec_write_reg(old(self)@, d, value),
    {
        if d != 15 {
            self.registers[d as usize] = value;
        }
    }

    /// Sets the flag bits of `mask` in register 15, leaving all other
    /// bits of it unchanged.
    fn or_flags(&mut self, mask: u16)
        requires
            old(self).wf(),
        ensures
            final(self).wf(),
            final(self)@ == spec_or_flags(old(self)@, mask),
    {
        let current = self.registers[15];
        self.registers[15] = current | mask;
    }

    /// Executes one decoded instruction against the processor state,
    /// returning its control effect. The program counter must already
    /// have been advanced past the instruction; it is read (by `Trap`
    /// and `Jal`) but never advanced here.
    pub fn execute(&mut self, instr: Instruction) -> (effect: ControlEffect)
        requires
            old(self).wf(),
            instr_wf(instr),
        ensures
            final(self).wf(),
            final(self)@ == spec_execute(old(self)@, instr).0,
            effect == spec_execute(old(self)@, instr).1,
    {
        match instr {
            Instruction::Add(d, a, b) => {
                let x = self.registers[a as usize];
                let y = self.registers[b as usize];
                let (result, mask) = add_words(x, y);
                self.write_reg(d, result);
                self.or_flags(mask);
                ControlEffect::Continue
            },
            Instruction::Sub(d, a, b) => {
                let x = self.registers[a as usize];
                let y = self.registers[b as usize];
                let (result, mask) = sub_words(x, y);
                self.write_reg(d, result);
                self.or_flags(mask);
                ControlEffect::Continue
            },
            Instruction::Mul(d, a, b) => {
                let x = self.registers[a as usize];
                let y = self.registers[b as usize];
                let (result, mask) = mul_words(x, y);
                self.write_reg(d, result);
                self.or_flags(mask);
                ControlEffect::Continue
            },
            Instruction::Div(d, a, b) => {
                let x = self.registers[a as usize];
                let y = self.registers[b as usize];
                if y == 0 {
                    self.trap_entry();
                    ControlEffect::Trap(FAULT_CODE)
                } else {
                    self.write_reg(d, x / y);
                    ControlEffect::Continue
                }
            },
            Instruction::Cmp(a, b) => {
                let x = self.registers[a as usize];
                let y = self.registers[b as usize];
                let flags: u16 = if x == y {
                    0x0004
                } else {
                    (if signed_value(x) > signed_value(y) {
                        0x0001u16
                    } else {
                        0x0010u16
                    }) | (if x > y {
                        0x0002u16
                    } else {
                        0x0008u16
                    })
                };
                let current = self.registers[15];
                self.registers[15] = (current & 0xffe0) | flags;
                ControlEffect::Continue
            },
            Instruction::Trap(d, _, _) => {
                self.trap_entry();
                ControlEffect::Trap(d)
            },
            Instruction::Lea(d, ea) => {
                self.write_reg(d, ea);
                ControlEffect::Continue
            },
            Instruction::Load(d, ea) => {
                let value = self.mem_read(ea);
                self.write_reg(d, value);
                self.dat = value;
                ControlEffect::Continue
            },
            Instruction::Store(d, ea) => {
                let value = self.registers[d as usize];
                self.mem_write(ea, value);
                self.dat = value;
                ControlEffect::Continue
            },
            Instruction::Jump(target) => ControlEffect::Jump(target),
            Instruction::Jumpc0(bit, target) => {
                let r15 = self.registers[15];
                if (r15 >> bit) & 1 == 0 {
                    ControlEffect::Jump(target)
                } else {
                    ControlEffect::Continue
                }
            },
            Instruction::Jumpc1(bit, target) => {
                let r15 = self.registers[15];
                if (r15 >> bit) & 1 == 1 {
                    ControlEffect::Jump(target)
                } else {
                    ControlEffect::Continue
                }
            },
            Instruction::Jal(d, target) => {
                let return_address = self.pc;
                self.write_reg(d, return_address);
                ControlEffect::Jump(target)
            },
        }
    }
}

/// The processor after the cycle applies a control effect: `Jump`
/// redirects the program counter, `Halt` ends execution, `Continue`
/// and `Trap` change nothing further (for `Trap`, supervisor entry
/// was already performed by the execution engine).
pub open spec fn spec_apply_effect(p: ProcView, effect: ControlEffect) -> ProcView {
    match effect {
        ControlEffect::Continue => p,
        ControlEffect::Jump(target) => ProcView { pc: target, ..p },
        ControlEffect::Trap(_) => p,
        ControlEffect::Halt => ProcView { state: State::Halt, ..p },
    }
}

/// One whole cycle: fetch the word at the program counter (and, for a
/// two-word format, the following word), record the fetch in `ir` and
/// `adr`, advance the program counter past the instruction, decode,
/// execute, and apply the control effect.
pub open spec fn spec_step(p: ProcView) -> (ProcView, ControlEffect) {
    let first = p.memory[p.pc as int];
    let second = if two_word(first) {
        p.memory[word_of(p.pc + 1) as int]
    } else {
        0u16
    };
    let index = p.registers[a_field(first) as int];
    let instr = spec_decode(first, second, index);
    let advance: u16 = if two_word(first) {
        2
    } else {
        1
    };
    let fetched = ProcView { pc: word_of(p.pc + advance), ir: first, adr: second, ..p };
    let executed = spec_execute(fetched, instr);
    (spec_apply_effect(executed.0, executed.1), executed.1)
}

impl Processor {
    /// Performs one fetch-decode-execute cycle and applies the
    /// resulting control effect. Every 16-bit program-counter value
    /// addresses a memory word, so the fetch cannot go out of range.
    pub fn step(&mut self) -> (effect: ControlEffect)
        requires
            old(self).wf(),
            old(self).state == State::Executing,
        ensures
            final(self).wf(),
            final(self)@ == spec_step(old(self)@).0,
            effect == spec_step(old(self)@).1,
    {
        let first = self.mem_read(self.pc);
        let format = get_type(first);
        let two = !matches!(format, InstructionType::RRR);
        let (second, advance): (u16, u16) = if two {
            proof {
                lemma_small_mod((self.pc + 1) as nat % 0x10000, 0x10000);
            }
            let next_address: u16 = ((self.pc as u32 + 1) % 0x10000) as u16;
            (self.mem_read(next_address), 2)
        } else {
            (0, 1)
        };
        let (_, _, a, _) = crate::util::read(first);
        proof {
            lemma_fields_bounded(first);
        }
        let index = self.registers[a as usize];
        let instr = decode(first, second, index);
        self.ir = first;
        self.adr = second;
        self.pc = ((self.pc as u32 + advance as u32) % 0x10000) as u16;
        proof {
            assert(self@ =~= (ProcView {
                pc: word_of(old(self)@.pc + (if two_word(old(self)@.memory[old(self)@.pc as int]) {
                    2u16
                } else {
                    1u16
                })),
                ir: old(self)@.memory[old(self)@.pc as int],
                adr: second,
                ..old(self)@
            }));
        }
        let effect = self.execute(instr);
        match effect {
            ControlEffect::Continue => (),
            ControlEffect::Jump(target) => {
                self.pc = target;
            },
            ControlEffect::Trap(_) => (),
            ControlEffect::Halt => {
                self.state = State::Halt;
            },
        }
        proof {
            assert(self@ =~= spec_step(old(self)@).0);
        }
        effect
    }

    /// The external run request: a `Ready` processor starts
    /// `Executing`; in any other state nothing changes. Returns
    /// whether execution started.
    pub fn run(&mut self) -> (started: bool)
        requires
            old(self).wf(),
        ensures
            final(self).wf(),
            started == (old(self)@.state == State::Ready),
            final(self)@ == (ProcView {
                state: if old(self)@.state == State::Ready {
                    State::Executing
                } else {
                    old(self)@.state
                },
                ..old(self)@
            }),
    {
        if matches!(self.state, State::Ready) {
            self.state = State::Executing;
            true
        } else {
            false
        }
    }

    /// The external halt request, honoured between cycles: an
    /// `Executing` processor halts; in any other state nothing
    /// changes. `Halt` is terminal.
    pub fn halt(&mut self)
        requires
            old(self).wf(),
        ensures
            final(self).wf(),
            final(self)@ == (ProcView {
                state: if old(self)@.state == State::Executing {
                    State::Halt
                } else {
                    old(self)@.state
                },
                ..old(self)@
            }),
    {
        if matches!(self.state, State::Executing) {
            self.state = State::Halt;
        }
    }
}

/// Exactly one of three propositions holds.
pub open spec fn exactly_one(a: bool, b: bool, c: bool) -> bool {
    (a || b || c) && !(a && b) && !(a && c) && !(b && c)
}

/// Bit `i` of `v | m` is set exactly when it is set in `v` or in `m`.
proof fn lemma_or_bit(v: u16, m: u16, i: u16)
    requires
        i < 16,
    ensures
        bit_of(v | m, i) == 1 <==> (bit_of(v, i) == 1 || bit_of(m, i) == 1),
{
    assert(i < 16 ==> ((((v | m) >> i) & 1 == 1) <==> (((v >> i) & 1 == 1) || ((m >> i) & 1
        == 1)))) by (bit_vector);
}

/// Executing `Cmp` leaves register 15 with exactly one of the
/// integer-order flags {IntegerGreaterThan, IntegerLessThan, Equals}
/// and exactly one of the natural-order flags {NaturalGreaterThan,
/// NaturalLessThan, Equals} set, with `Equals` set exactly when the
/// two operand words are equal as raw bit patterns; every bit of
/// register 15 outside the five comparison flags keeps its value.
pub proof fn lemma_cmp_sets_one_flag_each(p: ProcView, a: u16, b: u16)
    requires
        p.wf(),
        a < 16,
        b < 16,
    ensures
        ({
            let r15 = spec_execute(p, Instruction::Cmp(a, b)).0.registers[15];
            &&& exactly_one(
                has_flag(r15, ConditionCode::IntegerGreaterThan),
                has_flag(r15, ConditionCode::IntegerLessThan),
                has_flag(r15, ConditionCode::Equals),
            )
            &&& exactly_one(
                has_flag(r15, ConditionCode::NaturalGreaterThan),
                has_flag(r15, ConditionCode::NaturalLessThan),
                has_flag(r15, ConditionCode::Equals),
            )
            &&& has_flag(r15, ConditionCode::Equals) <==> p.registers[a as int] == p.registers[b as int]
            &&& forall|i: u16|
                5 <= i < 16 ==> bit_of(r15, i) == bit_of(p.registers[15], i)
        }),
{
    let x = p.registers[a as int];
    let y = p.registers[b as int];
    let v = p.registers[15];
    let m = cmp_flag_mask(x, y);
    assert(spec_execute(p, Instruction::Cmp(a, b)).0.registers[15] == (v & 0xffe0) | m);
    assert(0x0001u16 | 0x0002u16 == 0x0003u16 && 0x0001u16 | 0x0008u16 == 0x0009u16 && 0x0010u16
        | 0x0002u16 == 0x0012u16 && 0x0010u16 | 0x0008u16 == 0x0018u16) by (bit_vector);
    if x == y {
        assert(m == 0x0004u16);
    } else {
        assert(m == 0x0003u16 || m == 0x0009u16 || m == 0x0012u16 || m == 0x0018u16);
    }
    assert(m == 0x0004 || m == 0x0003 || m == 0x0009 || m == 0x0012 || m == 0x0018 ==> {
        &&& (((v & 0xffe0) | m) >> 0u16) & 1 == (m >> 0u16) & 1
        &&& (((v & 0xffe0) | m) >> 1u16) & 1 == (m >> 1u16) & 1
        &&& (((v & 0xffe0) | m) >> 2u16) & 1 == (m >> 2u16) & 1
        &&& (((v & 0xffe0) | m) >> 3u16) & 1 == (m >> 3u16) & 1
        &&& (((v & 0xffe0) | m) >> 4u16) & 1 == (m >> 4u16) & 1
    }) by (bit_vector);
    assert(forall|i: u16|
        5 <= i < 16 ==> ((((v & 0xffe0) | m) >> i) & 1) == ((v >> i) & 1)) by (bit_vector)
        requires
            m < 0x20,
    ;
    assert((m == 0x0004 ==> (m >> 0u16) & 1 == 0 && (m >> 1u16) & 1 == 0 && (m >> 2u16) & 1 == 1
        && (m >> 3u16) & 1 == 0 && (m >> 4u16) & 1 == 0) && (m == 0x0003 ==> (m >> 0u16) & 1 == 1
        && (m >> 1u16) & 1 == 1 && (m >> 2u16) & 1 == 0 && (m >> 3u16) & 1 == 0 && (m >> 4u16) & 1
        == 0) && (m == 0x0009 ==> (m >> 0u16) & 1 == 1 && (m >> 1u16) & 1 == 0 && (m >> 2u16) & 1
        == 0 && (m >> 3u16) & 1 == 1 && (m >> 4u16) & 1 == 0) && (m == 0x0012 ==> (m >> 0u16) & 1
        == 0 && (m >> 1u16) & 1 == 1 && (m >> 2u16) & 1 == 0 && (m >> 3u16) & 1 == 0 && (m
        >> 4u16) & 1 == 1) && (m == 0x0018 ==> (m >> 0u16) & 1 == 0 && (m >> 1u16) & 1 == 0 && (m
        >> 2u16) & 1 == 0 && (m >> 3u16) & 1 == 1 && (m >> 4u16) & 1 == 1)) by (bit_vector);
}

/// A division instruction whose divisor register holds zero enters
/// the trap path with the fault code instead of computing a quotient,
/// and leaves every register — the destination included — unmodified.
pub proof fn lemma_div_by_zero_traps(p: ProcView, d: u16, a: u16, b: u16)
    requires
        p.wf(),
        d < 16,
        a < 16,
        b < 16,
        p.registers[b as int] == 0,
    ensures
        spec_execute(p, Instruction::Div(d, a, b)).1 == ControlEffect::Trap(FAULT_CODE),
        spec_execute(p, Instruction::Div(d, a, b)).0.registers == p.registers,
        spec_execute(p, Instruction::Div(d, a, b)).0.memory == p.memory,
{
}

/// An addition sets IntegerOverflow exactly when the signed sum
/// leaves the signed 16-bit range, and NaturalOverflow exactly when
/// the unsigned sum leaves the unsigned 16-bit range; a flag the
/// operation does not set keeps its prior value.
pub proof fn lemma_add_overflow_flags(p: ProcView, d: u16, a: u16, b: u16)
    requires
        p.wf(),
        d < 16,
        a < 16,
        b < 16,
    ensures
        ({
            let x = p.registers[a as int];
            let y = p.registers[b as int];
            let r15 = spec_execute(p, Instruction::Add(d, a, b)).0.registers[15];
            let prior = p.registers[15];
            &&& !in_signed_range(signed(x) + signed(y)) ==> has_flag(
                r15,
                ConditionCode::IntegerOverflow,
            )
            &&& in_signed_range(signed(x) + signed(y)) ==> (has_flag(
                r15,
                ConditionCode::IntegerOverflow,
            ) <==> has_flag(prior, ConditionCode::IntegerOverflow))
            &&& x + y > 0xffff ==> has_flag(r15, ConditionCode::NaturalOverflow)
            &&& x + y <= 0xffff ==> (has_flag(r15, ConditionCode::NaturalOverflow) <==> has_flag(
                prior,
                ConditionCode::NaturalOverflow,
            ))
        }),
{
    let x = p.registers[a as int];
    let y = p.registers[b as int];
    let prior = p.registers[15];
    let m = add_flag_mask(x, y);
    assert(spec_execute(p, Instruction::Add(d, a, b)).0.registers[15] == prior | m);
    assert((0x20u16 | 0u16) | 0u16 == 0x20u16 && (0u16 | 0x40u16) | 0x80u16 == 0xc0u16 && (0x20u16
        | 0x40u16) | 0x80u16 == 0xe0u16 && (0u16 | 0u16) | 0u16 == 0u16) by (bit_vector);
    assert(m == 0x00u16 || m == 0x20u16 || m == 0xc0u16 || m == 0xe0u16);
    lemma_or_bit(prior, m, 5);
    lemma_or_bit(prior, m, 6);
    assert((m == 0x00u16 || m == 0x20u16 || m == 0xc0u16 || m == 0xe0u16) ==> {
        &&& (m >> 5u16) & 1 == (if m == 0x20 || m == 0xe0 {
            1u16
        } else {
            0u16
        })
        &&& (m >> 6u16) & 1 == (if m == 0xc0 || m == 0xe0 {
            1u16
        } else {
            0u16
        })
    }) by (bit_vector);
}

/// Executing a `Trap` instruction enters supervisor mode: `sys`
/// becomes true, the prior program counter is saved into `rpc`, the
/// prior status flags into `rstat`, and the program counter is loaded
/// from the vector register. The effect reports the trap code, the
/// instruction's first operand.
pub proof fn lemma_trap_enters_supervisor(p: ProcView, d: u16, a: u16, b: u16)
    ensures
        spec_execute(p, Instruction::Trap(d, a, b)).0 == (ProcView {
            sys: true,
            ie: false,
            rpc: p.pc,
            rstat: status_word(p.sys, p.ie),
            pc: p.vect,
            ..p
        }),
        spec_execute(p, Instruction::Trap(d, a, b)).1 == ControlEffect::Trap(d),
{
}

} // verus!
