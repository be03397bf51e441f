//! The processor: register file, control registers, flat word memory,
//! lifecycle state, the program loader, and the condition-code
//! interface to register 15.

use vstd::prelude::*;
use crate::condition_code::{ConditionCode, cc_bit};
use crate::util::bit_of;

verus! {

/// Number of words in main memory: one for every 16-bit address.
pub const MEMORY_SIZE: usize = 65536;

/// The lifecycle state of the processor. `Halt` is terminal: a halted
/// processor must be reconstructed to run again.
#[derive(Clone, Copy, Debug, PartialEq, Eq, Structural)]
pub enum State {
    Initialising,
    Ready,
    Executing,
    Halt,
}

/// Why a program image was refused by the loader.
#[derive(Clone, Copy, Debug, PartialEq, Eq, Structural)]
pub enum LoadError {
    /// The byte stream holds more complete words than memory has cells.
    SizeExceeded,
}

/// The mathematical value of a processor: its registers and memory as
/// sequences, and the scalar control state.
#[verifier::ext_equal]
pub ghost struct ProcView {
    /// The 16 general registers; index 15 is the condition-code register.
    pub registers: Seq<u16>,
    /// Program counter.
    pub pc: u16,
    /// Instruction register: the first word of the last instruction fetched.
    pub ir: u16,
    /// Address register: the second word of the last two-word fetch
    /// (zero after a one-word fetch).
    pub adr: u16,
    /// Data register: the last value moved by a Load or Store.
    pub dat: u16,
    /// Enabled-interrupt mask.
    pub mask: u16,
    /// Pending interrupt requests, one bit per source.
    pub req: u16,
    /// Saved processor status (supervisor and interrupt-enable flags).
    pub rstat: u16,
    /// Saved return program counter.
    pub rpc: u16,
    /// Trap vector address.
    pub vect: u16,
    /// Supervisor mode.
    pub sys: bool,
    /// Global interrupt-enable.
    pub ie: bool,
    /// Main memory, one word per address.
    pub memory: Seq<u16>,
    /// Lifecycle state.
    pub state: State,
}

impl ProcView {
    /// Well-formedness: 16 registers and one memory word per address.
    pub open spec fn wf(self) -> bool {
        self.registers.len() == 16 && self.memory.len() == MEMORY_SIZE
    }
}

/// The processor. All state of the emulated machine lives here; the
/// fields are public for diagnostic read access, and well-behaved
/// clients mutate them only through the methods.
pub struct Processor {
    pub registers: Vec<u16>,
    pub pc: u16,
    pub ir: u16,
    pub adr: u16,
    pub dat: u16,
    pub mask: u16,
    pub req: u16,
    pub rstat: u16,
    pub rpc: u16,
    pub vect: u16,
    pub sys: bool,
    pub ie: bool,
    pub memory: Vec<u16>,
    pub state: State,
}

impl View for Processor {
    type V = ProcView;

    open spec fn view(&self) -> ProcView {
        ProcView {
            registers: self.registers@,
            pc: self.pc,
            ir: self.ir,
            adr: self.adr,
            dat: self.dat,
            mask: self.mask,
            req: self.req,
            rstat: self.rstat,
            rpc: self.rpc,
            vect: self.vect,
            sys: self.sys,
            ie: self.ie,
            memory: self.memory@,
            state: self.state,
        }
    }
}

/// The value of a freshly constructed processor: everything zero,
/// flags off, state `Initialising`.
pub open spec fn spec_new() -> ProcView {
    ProcView {
        registers: Seq::new(16, |i: int| 0u16),
        pc: 0,
        ir: 0,
        adr: 0,
        dat: 0,
        mask: 0,
        req: 0,
        rstat: 0,
        rpc: 0,
        vect: 0,
        sys: false,
        ie: false,
        memory: Seq::new(MEMORY_SIZE as nat, |i: int| 0u16),
        state: State::Initialising,
    }
}

/// A vector of `n` zero words.
fn zero_words(n: usize) -> (words: Vec<u16>)
    ensures
        words@ == Seq::new(n as nat, |i: int| 0u16),
{
    let mut words: Vec<u16> = Vec::new();
    let mut i: usize = 0;
    while i < n
        invariant
            i <= n,
            words@.len() == i,
            forall|j: int| 0 <= j < i ==> words@[j] == 0u16,
        decreases n - i,
    {
        words.push(0);
        i += 1;
    }
    proof {
        assert(words@ =~= Seq::new(n as nat, |i: int| 0u16));
    }
    words
}

/// The word value of the `index`th big-endian byte pair of `bytes`.
pub open spec fn word_at(bytes: Seq<u8>, index: int) -> u16
    recommends
        0 <= index,
        2 * index + 1 < bytes.len(),
{
    (bytes[2 * index] * 256 + bytes[2 * index + 1]) as u16
}

/// Memory after a successful load: the first `bytes.len() / 2` cells
/// hold the big-endian word of each complete byte pair, the rest keep
/// their prior contents.
pub open spec fn loaded_memory(memory: Seq<u16>, bytes: Seq<u8>) -> Seq<u16> {
    Seq::new(
        memory.len(),
        |i: int| if i < bytes.len() / 2 {
            word_at(bytes, i)
        } else {
            memory[i]
        },
    )
}

/// The processor after a successful load: memory rewritten from the
/// byte stream, and an `Initialising` processor moved to `Ready`.
pub open spec fn spec_load(p: ProcView, bytes: Seq<u8>) -> ProcView {
    ProcView {
        memory: loaded_memory(p.memory, bytes),
        state: if p.state == State::Initialising {
            State::Ready
        } else {
            p.state
        },
        ..p
    }
}

/// The value of `word` with bit `bit` forced to `value` and every
/// other bit unchanged.
pub open spec fn set_bit(word: u16, bit: u16, value: bool) -> u16
    recommends
        bit < 16,
{
    if value {
        word | (1u16 << bit)
    } else {
        word & !(1u16 << bit)
    }
}

/// Setting one bit of a word never alters any other bit, and forces
/// the named bit to the requested value.
pub proof fn lemma_set_bit_preserves_others(word: u16, bit: u16, value: bool)
    requires
        bit < 16,
    ensures
        forall|i: u16| i < 16 && i != bit ==> bit_of(set_bit(word, bit, value), i) == bit_of(
            word,
            i,
        ),
        bit_of(set_bit(word, bit, value), bit) == (if value {
            1u16
        } else {
            0u16
        }),
{
    if value {
        assert(forall|i: u16|
            i < 16 && i != bit && bit < 16 ==> ((word | (1u16 << bit)) >> i) & 1 == (word >> i)
                & 1) by (bit_vector);
        assert(bit < 16 ==> ((word | (1u16 << bit)) >> bit) & 1 == 1) by (bit_vector);
    } else {
        assert(forall|i: u16|
            i < 16 && i != bit && bit < 16 ==> ((word & !(1u16 << bit)) >> i) & 1 == (word >> i)
                & 1) by (bit_vector);
        assert(bit < 16 ==> ((word & !(1u16 << bit)) >> bit) & 1 == 0) by (bit_vector);
    }
}

impl Processor {
    /// Well-formedness of the live processor: its view is well-formed.
    pub open spec fn wf(&self) -> bool {
        self@.wf()
    }

    /// A fresh processor: zeroed registers, control registers and
    /// memory, flags off, in the `Initialising` state.
    pub fn new() -> (processor: Processor)
        ensures
            processor.wf(),
            processor@ == spec_new(),
    {
        let processor = Processor {
            registers: zero_words(16),
            pc: 0,
            ir: 0,
            adr: 0,
            dat: 0,
            mask: 0,
            req: 0,
            rstat: 0,
            rpc: 0,
            vect: 0,
            sys: false,
            ie: false,
            memory: zero_words(MEMORY_SIZE),
            state: State::Initialising,
        };
        proof {
            assert(processor@ =~= spec_new());
        }
        processor
    }

    /// The memory word at `address`. Every 16-bit address is in range.
    pub fn mem_read(&self, address: u16) -> (word: u16)
        requires
            self.wf(),
        ensures
            word == self@.memory[address as int],
    {
        self.memory[address as usize]
    }

    /// Writes the memory word at `address`; no other cell changes.
    pub fn mem_write(&mut self, address: u16, word: u16)
        requires
            old(self).wf(),
        ensures
            final(self).wf(),
            final(self)@ == (ProcView { memory: old(self)@.memory.update(address as int, word), ..old(
                self,
            )@ }),
    {
        self.memory[address as usize] = word;
    }

    /// Loads a program image: the byte stream is packed as big-endian
    /// word pairs into memory starting at address 0, a trailing odd
    /// byte is ignored, and an `Initialising` processor becomes
    /// `Ready`. A stream with more complete words than memory has
    /// cells is refused whole: the processor is left unchanged.
    pub fn load_bytes(&mut self, bytes: Vec<u8>) -> (result: Result<(), LoadError>)
        requires
            old(self).wf(),
        ensures
            final(self).wf(),
            result == (if bytes@.len() / 2 > MEMORY_SIZE {
                Err::<(), LoadError>(LoadError::SizeExceeded)
            } else {
                Ok::<(), LoadError>(())
            }),
            result is Err ==> final(self)@ == old(self)@,
            result is Ok ==> final(self)@ == spec_load(old(self)@, bytes@),
    {
        let word_count = bytes.len() / 2;
        if word_count > MEMORY_SIZE {
            return Err(LoadError::SizeExceeded);
        }
        let mut index: usize = 0;
        while index < word_count
            invariant
                self.wf(),
                index <= word_count,
                word_count == bytes@.len() / 2,
                word_count <= MEMORY_SIZE,
                self@ == (ProcView { memory: self@.memory, ..old(self)@ }),
                self@.memory.len() == MEMORY_SIZE,
                forall|j: int| 0 <= j < index ==> self@.memory[j] == word_at(bytes@, j),
                forall|j: int|
                    index <= j < MEMORY_SIZE ==> self@.memory[j] == old(self)@.memory[j],
            decreases word_count - index,
        {
            let high = bytes[2 * index];
            let low = bytes[2 * index + 1];
            self.memory[index] = (high as u16) * 256 + (low as u16);
            index += 1;
        }
        if self.state == State::Initialising {
            self.state = State::Ready;
        }
        proof {
            assert(self@.memory =~= loaded_memory(old(self)@.memory, bytes@));
            assert(self@ =~= spec_load(old(self)@, bytes@));
        }
        Ok(())
    }

    /// Forces one bit of a register to `value`, leaving every other
    /// bit of it, and every other register, unchanged.
    pub fn set_register_bit(&mut self, register: usize, bit: u8, value: bool)
        requires
            old(self).wf(),
            register < 16,
            bit < 16,
        ensures
            final(self).wf(),
            final(self)@ == (ProcView {
                registers: old(self)@.registers.update(
                    register as int,
                    set_bit(old(self)@.registers[register as int], bit as u16, value),
                ),
                ..old(self)@
            }),
    {
        let current = self.registers[register];
        let updated: u16 = if value {
            current | (1u16 << bit)
        } else {
            current & !(1u16 << bit)
        };
        self.registers[register] = updated;
    }

    /// Forces one condition-code flag of register 15 to `flag`,
    /// leaving every other bit of register 15 unchanged.
    pub fn set_condition_code(&mut self, condition_code: ConditionCode, flag: bool)
        requires
            old(self).wf(),
        ensures
            final(self).wf(),
            final(self)@ == (ProcView {
                registers: old(self)@.registers.update(
                    15,
                    set_bit(old(self)@.registers[15], cc_bit(condition_code), flag),
                ),
                ..old(self)@
            }),
    {
        let bit_index: u8 = condition_code.bit_index();
        self.set_register_bit(15, bit_index, flag);
    }
}

} // verus!
