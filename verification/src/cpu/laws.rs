//! What holds of the instruction set as a whole, proved from the definitions
//! in the instruction module.

use super::isa::{bcd_stored, decoded, registers_loaded, registers_stored, Access, Instruction, Machine};
use super::{Core, Fault, Signal};
use crate::graphics::{cleared, drawn};
use crate::memory::{glyph, holds_font_table, lemma_glyph_round_trip};
use vstd::prelude::*;

verus! {

impl Machine {
    /// One whole cycle: the opcode at the pointer is fetched, the pointer
    /// moves past it, and the opcode is followed. A pointer at which no
    /// opcode can be fetched is a fault.
    pub open spec fn cycle(self, random: u8) -> Result<(Machine, Signal), Fault> {
        if self.core.can_fetch() {
            self.with_core(self.core.advanced()).follow(self.core.opcode_at_pointer(), random)
        } else {
            Err(Fault::AddressOutOfRange)
        }
    }

    /// The machine after every instruction of `program` has been followed in
    /// turn, each with `random` as the byte drawn, or the first fault.
    pub open spec fn run(self, program: Seq<Instruction>, random: u8) -> Result<Machine, Fault>
        decreases program.len(),
    {
        if program.len() == 0 {
            Ok(self)
        } else {
            match self.step(program[0], random) {
                Ok((next, _)) => next.run(program.drop_first(), random),
                Err(fault) => Err(fault),
            }
        }
    }
}

/// The registers after every instruction of `program` has computed on them
/// in turn.
pub open spec fn computed_by_all(registers: Seq<u8>, program: Seq<Instruction>) -> Seq<u8>
    decreases program.len(),
{
    if program.len() == 0 {
        registers
    } else {
        computed_by_all(Core::computed_registers(registers, program[0]), program.drop_first())
    }
}

/// Whether every instruction of `program` only computes on registers.
pub open spec fn all_arithmetic(program: Seq<Instruction>) -> bool {
    forall|i: int| 0 <= i < program.len() ==> (#[trigger] program[i]).is_arithmetic()
}

/// Every opcode either stands for an instruction whose fields are in range
/// or is unknown: decoding gives no other fault.
pub proof fn lemma_decoded_is_well_formed(opcode: u16)
    ensures
        decoded(opcode) matches Ok(instruction) ==> instruction.wf(),
        decoded(opcode) matches Err(fault) ==> fault == Fault::UnknownOpcode,
{
}

/// Only the random instruction looks at the byte drawn: what any other
/// instruction does is settled by the machine and the instruction.
pub proof fn lemma_only_random_draws(machine: Machine, instruction: Instruction, a: u8, b: u8)
    requires
        !(instruction is Random),
    ensures
        machine.step(instruction, a) == machine.step(instruction, b),
{
}

/// An instruction that only computes on registers never faults and changes
/// nothing but the registers, and the registers afterwards are settled by
/// the registers before and the instruction.
pub proof fn lemma_arithmetic_step(machine: Machine, instruction: Instruction, random: u8)
    requires
        instruction.is_arithmetic(),
    ensures
        machine.step(instruction, random) == Ok::<(Machine, Signal), Fault>(
            (machine.with_core(machine.core.computed(instruction)), Signal::Continue),
        ),
        machine.core.computed(instruction).registers == Core::computed_registers(
            machine.core.registers,
            instruction,
        ),
{
}

/// A program of instructions that only compute on registers runs to its end
/// on every machine, leaves everything but the registers as it was, and
/// leaves registers that are settled by the registers before and the program:
/// two machines that start it with the same registers end it with the same
/// registers, whatever else they hold and whatever bytes they draw.
pub proof fn lemma_arithmetic_program(machine: Machine, program: Seq<Instruction>, random: u8)
    requires
        all_arithmetic(program),
    ensures
        machine.run(program, random) == Ok::<Machine, Fault>(
            machine.with_core(
                Core { registers: computed_by_all(machine.core.registers, program), ..machine.core },
            ),
        ),
    decreases program.len(),
{
    if program.len() > 0 {
        let first = program[0];
        let next = machine.with_core(machine.core.computed(first));
        assert(all_arithmetic(program.drop_first())) by {
            assert forall|i: int| 0 <= i < program.drop_first().len() implies (
            #[trigger] program.drop_first()[i]).is_arithmetic() by {
                assert(program.drop_first()[i] == program[i + 1]);
            }
        }
        lemma_arithmetic_program(next, program.drop_first(), random);
    }
}

/// After the font instruction on a register that holds a digit, the five
/// bytes at the I register are that digit's glyph, as long as the font table
/// is still where loading put it.
pub proof fn lemma_font_address_round_trip(machine: Machine, x: u8, random: u8)
    requires
        holds_font_table(machine.core.memory),
        machine.core.v(x) <= 15,
    ensures
        machine.step(Instruction::FontAddress { x }, random) matches Ok((after, signal)) && {
            &&& after.core.index == 5 * machine.core.v(x)
            &&& after.core.memory.subrange(after.core.index as int, after.core.index + 5) == glyph(
                machine.core.v(x) as int,
            )
        },
{
    lemma_glyph_round_trip(machine.core.memory, machine.core.v(x));
}

/// A cycle on "skip if Vx equals NN" moves the pointer by four when they are
/// equal, two for the fetch and two for the skip, and by two when they
/// differ. Nothing else changes.
pub proof fn lemma_skip_if_equal_cycle(machine: Machine, x: u8, value: u8, random: u8)
    requires
        machine.core.can_fetch(),
        decoded(machine.core.opcode_at_pointer()) == Ok::<Instruction, Fault>(
            Instruction::SkipEqImm { x, value },
        ),
    ensures
        machine.cycle(random) matches Ok((after, signal)) && {
            &&& signal == Signal::Continue
            &&& after == machine.with_core(machine.core.jumped(after.core.pointer))
            &&& after.core.pointer == if machine.core.v(x) == value {
                machine.core.pointer + 4
            } else {
                machine.core.pointer + 2
            }
        },
{
}

/// A cycle on "skip if Vx differs from NN" moves the pointer by four when
/// they differ and by two when they are equal. Nothing else changes.
pub proof fn lemma_skip_if_different_cycle(machine: Machine, x: u8, value: u8, random: u8)
    requires
        machine.core.can_fetch(),
        decoded(machine.core.opcode_at_pointer()) == Ok::<Instruction, Fault>(
            Instruction::SkipNeImm { x, value },
        ),
    ensures
        machine.cycle(random) matches Ok((after, signal)) && {
            &&& signal == Signal::Continue
            &&& after == machine.with_core(machine.core.jumped(after.core.pointer))
            &&& after.core.pointer == if machine.core.v(x) != value {
                machine.core.pointer + 4
            } else {
                machine.core.pointer + 2
            }
        },
{
}

/// A return undoes the latest call: the pointer is back where the call
/// found it and the stack is as it was before.
pub proof fn lemma_return_undoes_call(machine: Machine, address: u16, random: u8)
    ensures
        machine.step(Instruction::Call { address }, random) matches Ok((called, signal)) && called.step(
            Instruction::Return,
            random,
        ) == Ok::<(Machine, Signal), Fault>((machine, Signal::Continue)),
{
    let called = machine.with_core(machine.core.called(address as usize));
    assert(called.core.returned() =~= machine.core);
}

/// The three bytes that the decimal instruction writes are decimal digits,
/// and they make up the value: hundreds, tens and ones.
pub proof fn lemma_bcd_digits(memory: Seq<u8>, start: int, value: u8)
    requires
        0 <= start,
        start + 3 <= memory.len(),
    ensures
        ({
            let stored = bcd_stored(memory, start, value);
            &&& stored[start] <= 2 && stored[start + 1] <= 9 && stored[start + 2] <= 9
            &&& 100 * stored[start] + 10 * stored[start + 1] + stored[start + 2] == value
            &&& forall|a: int| 0 <= a < memory.len() && !(start <= a < start + 3) ==> stored[a] == memory[a]
        }),
{
}

/// What the store instruction writes, the load instruction reads back:
/// loading V0 to Vx from where they were stored gives the registers that were
/// stored, and leaves the registers above Vx as they are.
pub proof fn lemma_load_reads_what_store_wrote(
    memory: Seq<u8>,
    stored: Seq<u8>,
    current: Seq<u8>,
    start: int,
    x: u8,
)
    requires
        x < 16,
        stored.len() == 16,
        current.len() == 16,
        0 <= start,
        start + x + 1 <= memory.len(),
    ensures
        ({
            let loaded = registers_loaded(current, registers_stored(memory, stored, start, x), start, x);
            &&& forall|k: int| 0 <= k <= x ==> loaded[k] == stored[k]
            &&& forall|k: int| x < k < 16 ==> loaded[k] == current[k]
        }),
{
}

/// The screen changes in two ways only: it is cleared as a whole, or a sprite
/// is drawn on it with exclusive-or.
pub proof fn lemma_screen_changes_by_clear_or_draw(machine: Machine, instruction: Instruction, random: u8)
    ensures
        machine.step(instruction, random) matches Ok((after, signal)) ==> {
            ||| after.screen == machine.screen
            ||| after.screen == cleared(machine.screen)
            ||| exists|x: u8, y: u8, sprite: Seq<u8>| after.screen == #[trigger] drawn(machine.screen, x, y, sprite)
        },
{
    match instruction {
        Instruction::Draw { x, y, rows } => {
            let c = machine.core;
            if c.index + rows <= 4096 {
                let sprite = c.memory.subrange(c.index as int, c.index + rows);
                let after = machine.step(instruction, random)->Ok_0.0;
                assert(after.screen == drawn(machine.screen, c.v(x), c.v(y), sprite));
            }
        },
        _ => {},
    }
}

/// An instruction changes the screen only if it says that it writes it, and
/// the delay timer only if it says that it sets it.
pub proof fn lemma_access_bounds_changes(machine: Machine, instruction: Instruction, random: u8)
    ensures
        machine.step(instruction, random) matches Ok((after, signal)) ==> {
            &&& instruction.needs() != Access::WriteScreen ==> after.screen == machine.screen
            &&& instruction.needs() != Access::WriteDelayTimer ==> after.delay == machine.delay
        },
{
}

/// An instruction looks at the screen only if it says that it writes it, and
/// at the delay timer only if it says that it reads it: two machines with
/// the same processor that agree on the parts that the instruction says it
/// needs fault alike, and otherwise end with the same processor, the same
/// signal, and agree on the part that the instruction changed.
pub proof fn lemma_access_bounds_reads(a: Machine, b: Machine, instruction: Instruction, random: u8)
    requires
        a.core == b.core,
        instruction.needs() == Access::WriteScreen ==> a.screen == b.screen,
        instruction.needs() == Access::ReadDelayTimer ==> a.delay == b.delay,
    ensures
        a.step(instruction, random) matches Err(fault) ==> b.step(instruction, random) == Err::<
            (Machine, Signal),
            Fault,
        >(fault),
        a.step(instruction, random) matches Ok((after, signal)) ==> {
            &&& b.step(instruction, random) matches Ok((other, other_signal))
            &&& other.core == after.core
            &&& other_signal == signal
            &&& instruction.needs() == Access::WriteScreen ==> other.screen == after.screen
            &&& instruction.needs() == Access::WriteDelayTimer ==> other.delay == after.delay
        },
{
}

} // verus!
