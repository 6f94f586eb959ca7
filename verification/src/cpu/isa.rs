//! The instruction set: how an opcode is taken apart, and what each
//! instruction does to the machine.

use super::{Core, Fault, Signal, CPU};
use crate::graphics::{cleared, collides, drawn, GraphicsMemory};
use crate::input::{key_of, key_value, Key};
use crate::memory::{digit_address, Memory, MEMORY_SIZE};
use crate::timers::BaseTimer;
use vstd::prelude::*;

verus! {

/// One instruction with its fields: `x` and `y` name registers, `value` and
/// `mask` are immediate bytes, `address` is an immediate address and `rows`
/// the height of a sprite.
#[derive(Clone, Copy, PartialEq, Eq, Structural, Debug)]
pub enum Instruction {
    /// `00E0`: turn every cell of the screen off.
    ClearScreen,
    /// `00EE`: go back to where the latest call came from.
    Return,
    /// `0NNN`, other than the two above: a call into machine code, followed
    /// as a call to `address`.
    CallLegacy { address: u16 },
    /// `1NNN`: go on at `address`.
    Jump { address: u16 },
    /// `2NNN`: keep the pointer on the stack and go on at `address`.
    Call { address: u16 },
    /// `3XNN`: skip the next instruction if Vx equals `value`.
    SkipEqImm { x: u8, value: u8 },
    /// `4XNN`: skip the next instruction if Vx differs from `value`.
    SkipNeImm { x: u8, value: u8 },
    /// `5XY0`: skip the next instruction if Vx equals Vy.
    SkipEqReg { x: u8, y: u8 },
    /// `9XY0`: skip the next instruction if Vx differs from Vy.
    SkipNeReg { x: u8, y: u8 },
    /// `6XNN`: Vx becomes `value`.
    LoadImm { x: u8, value: u8 },
    /// `7XNN`: `value` is added to Vx, wrapping; the flag stays.
    AddImm { x: u8, value: u8 },
    /// `8XY0`: Vx becomes Vy.
    LoadReg { x: u8, y: u8 },
    /// `8XY1`: Vx becomes Vx or Vy, bit by bit.
    OrReg { x: u8, y: u8 },
    /// `8XY2`: Vx becomes Vx and Vy, bit by bit.
    AndReg { x: u8, y: u8 },
    /// `8XY3`: Vx becomes Vx exclusive-or Vy, bit by bit.
    XorReg { x: u8, y: u8 },
    /// `8XY4`: Vy is added to Vx, wrapping; the flag tells whether it wrapped.
    AddReg { x: u8, y: u8 },
    /// `8XY5`: Vy is taken from Vx, wrapping; the flag tells that it did not
    /// borrow.
    SubReg { x: u8, y: u8 },
    /// `8XY6`: the flag becomes the lowest bit of Vy, Vx becomes Vy shifted
    /// right by one.
    ShiftRight { x: u8, y: u8 },
    /// `8XY7`: Vx becomes Vy minus Vx, wrapping; the flag tells that it did
    /// not borrow.
    SubReversed { x: u8, y: u8 },
    /// `8XYE`: the flag becomes the highest bit of Vy, left in its place, Vx
    /// becomes Vy shifted left by one.
    ShiftLeft { x: u8, y: u8 },
    /// `ANNN`: the I register becomes `address`.
    SetI { address: u16 },
    /// `BNNN`: go on at `address` plus V0.
    JumpOffset { address: u16 },
    /// `CXNN`: Vx becomes a random byte with only the bits of `mask` kept.
    Random { x: u8, mask: u8 },
    /// `DXYN`: draw the `rows` bytes at the I register as a sprite at
    /// (Vx, Vy); the flag tells whether a lit cell was hit.
    Draw { x: u8, y: u8, rows: u8 },
    /// `EX9E`: look at the keypad anew and skip the next instruction if the
    /// key Vx is held.
    SkipKeyDown { x: u8 },
    /// `EXA1`: look at the keypad anew and skip the next instruction if the
    /// key Vx is not held.
    SkipKeyUp { x: u8 },
    /// `FX07`: Vx becomes the delay timer's count.
    ReadDelay { x: u8 },
    /// `FX0A`: wait until a new key is the earliest one held; Vx becomes
    /// that key.
    WaitKey { x: u8 },
    /// `FX15`: the delay timer is set to Vx.
    SetDelay { x: u8 },
    /// `FX18`: the sound timer is set to Vx.
    SetSound { x: u8 },
    /// `FX1E`: Vx is added to the I register, wrapping.
    AddToI { x: u8 },
    /// `FX29`: the I register becomes the address of the glyph for Vx.
    FontAddress { x: u8 },
    /// `FX33`: the hundreds, tens and ones of Vx go to the three bytes at
    /// the I register.
    StoreBcd { x: u8 },
    /// `FX55`: V0 to Vx go to memory at the I register, which moves past
    /// them.
    StoreRegisters { x: u8 },
    /// `FX65`: V0 to Vx are filled from memory at the I register, which
    /// moves past what was read.
    LoadRegisters { x: u8 },
}

/// What an instruction does with the parts of the machine that the
/// processor shares with others. The processor takes hold of the screen or of
/// the delay timer only for an instruction that needs it, and for the timer
/// tells reading from setting.
#[derive(Clone, Copy, PartialEq, Eq, Structural, Debug)]
pub enum Access {
    /// It leaves the screen and the delay timer alone.
    Nothing,
    /// It changes the screen.
    WriteScreen,
    /// It reads the delay timer.
    ReadDelayTimer,
    /// It sets the delay timer.
    WriteDelayTimer,
}

/// The machine as an instruction sees it: the processor, the screen and the
/// delay timer.
#[verifier::ext_equal]
pub struct Machine {
    /// The processor.
    pub core: Core,
    /// The 2048 cells of the screen, row after row.
    pub screen: Seq<bool>,
    /// The delay timer's count.
    pub delay: u8,
}

/// Bits 12 to 15 of an opcode: the class of the instruction.
pub open spec fn op_class(opcode: u16) -> int {
    opcode as int / 0x1000
}

/// Bits 8 to 11 of an opcode: the register index X.
pub open spec fn op_x(opcode: u16) -> u8 {
    (opcode as int / 0x100 % 0x10) as u8
}

/// Bits 4 to 7 of an opcode: the register index Y.
pub open spec fn op_y(opcode: u16) -> u8 {
    (opcode as int / 0x10 % 0x10) as u8
}

/// Bits 0 to 3 of an opcode: the immediate nibble N.
pub open spec fn op_n(opcode: u16) -> u8 {
    (opcode as int % 0x10) as u8
}

/// Bits 0 to 7 of an opcode: the immediate byte NN.
pub open spec fn op_nn(opcode: u16) -> u8 {
    (opcode as int % 0x100) as u8
}

/// Bits 0 to 11 of an opcode: the immediate address NNN.
pub open spec fn op_nnn(opcode: u16) -> u16 {
    (opcode as int % 0x1000) as u16
}

/// The instruction that an opcode stands for, where the table has one.
pub open spec fn decoded(opcode: u16) -> Result<Instruction, Fault> {
    let x = op_x(opcode);
    let y = op_y(opcode);
    let n = op_n(opcode);
    let nn = op_nn(opcode);
    let address = op_nnn(opcode);
    let class = op_class(opcode);
    if opcode == 0x00E0 {
        Ok(Instruction::ClearScreen)
    } else if opcode == 0x00EE {
        Ok(Instruction::Return)
    } else if class == 0x0 {
        Ok(Instruction::CallLegacy { address })
    } else if class == 0x1 {
        Ok(Instruction::Jump { address })
    } else if class == 0x2 {
        Ok(Instruction::Call { address })
    } else if class == 0x3 {
        Ok(Instruction::SkipEqImm { x, value: nn })
    } else if class == 0x4 {
        Ok(Instruction::SkipNeImm { x, value: nn })
    } else if class == 0x5 {
        if n == 0 {
            Ok(Instruction::SkipEqReg { x, y })
        } else {
            Err(Fault::UnknownOpcode)
        }
    } else if class == 0x6 {
        Ok(Instruction::LoadImm { x, value: nn })
    } else if class == 0x7 {
        Ok(Instruction::AddImm { x, value: nn })
    } else if class == 0x8 {
        if n == 0x0 {
            Ok(Instruction::LoadReg { x, y })
        } else if n == 0x1 {
            Ok(Instruction::OrReg { x, y })
        } else if n == 0x2 {
            Ok(Instruction::AndReg { x, y })
        } else if n == 0x3 {
            Ok(Instruction::XorReg { x, y })
        } else if n == 0x4 {
            Ok(Instruction::AddReg { x, y })
        } else if n == 0x5 {
            Ok(Instruction::SubReg { x, y })
        } else if n == 0x6 {
            Ok(Instruction::ShiftRight { x, y })
        } else if n == 0x7 {
            Ok(Instruction::SubReversed { x, y })
        } else if n == 0xE {
            Ok(Instruction::ShiftLeft { x, y })
        } else {
            Err(Fault::UnknownOpcode)
        }
    } else if class == 0x9 {
        if n == 0 {
            Ok(Instruction::SkipNeReg { x, y })
        } else {
            Err(Fault::UnknownOpcode)
        }
    } else if class == 0xA {
        Ok(Instruction::SetI { address })
    } else if class == 0xB {
        Ok(Instruction::JumpOffset { address })
    } else if class == 0xC {
        Ok(Instruction::Random { x, mask: nn })
    } else if class == 0xD {
        Ok(Instruction::Draw { x, y, rows: n })
    } else if class == 0xE {
        if nn == 0x9E {
            Ok(Instruction::SkipKeyDown { x })
        } else if nn == 0xA1 {
            Ok(Instruction::SkipKeyUp { x })
        } else {
            Err(Fault::UnknownOpcode)
        }
    } else {
        if nn == 0x07 {
            Ok(Instruction::ReadDelay { x })
        } else if nn == 0x0A {
            Ok(Instruction::WaitKey { x })
        } else if nn == 0x15 {
            Ok(Instruction::SetDelay { x })
        } else if nn == 0x18 {
            Ok(Instruction::SetSound { x })
        } else if nn == 0x1E {
            Ok(Instruction::AddToI { x })
        } else if nn == 0x29 {
            Ok(Instruction::FontAddress { x })
        } else if nn == 0x33 {
            Ok(Instruction::StoreBcd { x })
        } else if nn == 0x55 {
            Ok(Instruction::StoreRegisters { x })
        } else if nn == 0x65 {
            Ok(Instruction::LoadRegisters { x })
        } else {
            Err(Fault::UnknownOpcode)
        }
    }
}

/// Memory after the registers V0 to Vx have been copied to it from `start`
/// on.
pub open spec fn registers_stored(memory: Seq<u8>, registers: Seq<u8>, start: int, x: u8) -> Seq<u8> {
    Seq::new(
        memory.len(),
        |a: int|
            if start <= a <= start + x {
                registers[a - start]
            } else {
                memory[a]
            },
    )
}

/// The registers after V0 to Vx have been filled from memory at `start`.
pub open spec fn registers_loaded(registers: Seq<u8>, memory: Seq<u8>, start: int, x: u8) -> Seq<u8> {
    Seq::new(
        registers.len(),
        |k: int|
            if k <= x {
                memory[start + k]
            } else {
                registers[k]
            },
    )
}

/// Memory after the three decimal digits of `value` have been written from
/// `start` on, hundreds first.
pub open spec fn bcd_stored(memory: Seq<u8>, start: int, value: u8) -> Seq<u8> {
    memory.update(start, value / 100).update(start + 1, (value % 100) / 10).update(
        start + 2,
        value % 10,
    )
}

/// Zero or one, as a flag register holds a truth value.
pub open spec fn flag(set: bool) -> u8 {
    if set {
        1
    } else {
        0
    }
}

impl Instruction {
    /// Whether the fields lie in the ranges that decoding gives them:
    /// register indices and sprite heights below sixteen, addresses below
    /// 4096.
    pub open spec fn wf(self) -> bool {
        match self {
            Instruction::ClearScreen | Instruction::Return => true,
            Instruction::CallLegacy { address }
            | Instruction::Jump { address }
            | Instruction::Call { address }
            | Instruction::SetI { address }
            | Instruction::JumpOffset { address } => address < 0x1000,
            Instruction::SkipEqImm { x, .. }
            | Instruction::SkipNeImm { x, .. }
            | Instruction::LoadImm { x, .. }
            | Instruction::AddImm { x, .. }
            | Instruction::Random { x, .. }
            | Instruction::SkipKeyDown { x }
            | Instruction::SkipKeyUp { x }
            | Instruction::ReadDelay { x }
            | Instruction::WaitKey { x }
            | Instruction::SetDelay { x }
            | Instruction::SetSound { x }
            | Instruction::AddToI { x }
            | Instruction::FontAddress { x }
            | Instruction::StoreBcd { x }
            | Instruction::StoreRegisters { x }
            | Instruction::LoadRegisters { x } => x < 16,
            Instruction::SkipEqReg { x, y }
            | Instruction::SkipNeReg { x, y }
            | Instruction::LoadReg { x, y }
            | Instruction::OrReg { x, y }
            | Instruction::AndReg { x, y }
            | Instruction::XorReg { x, y }
            | Instruction::AddReg { x, y }
            | Instruction::SubReg { x, y }
            | Instruction::ShiftRight { x, y }
            | Instruction::SubReversed { x, y }
            | Instruction::ShiftLeft { x, y } => x < 16 && y < 16,
            Instruction::Draw { x, y, rows } => x < 16 && y < 16 && rows < 16,
        }
    }

    /// What the instruction does with the screen and the delay timer.
    pub open spec fn needs(self) -> Access {
        match self {
            Instruction::ClearScreen | Instruction::Draw { .. } => Access::WriteScreen,
            Instruction::ReadDelay { .. } => Access::ReadDelayTimer,
            Instruction::SetDelay { .. } => Access::WriteDelayTimer,
            _ => Access::Nothing,
        }
    }

    /// Tells what the instruction does with the screen and the delay timer.
    pub fn access(&self) -> (access: Access)
        ensures
            access == self.needs(),
    {
        match self {
            Instruction::ClearScreen | Instruction::Draw { .. } => Access::WriteScreen,
            Instruction::ReadDelay { .. } => Access::ReadDelayTimer,
            Instruction::SetDelay { .. } => Access::WriteDelayTimer,
            _ => Access::Nothing,
        }
    }

    /// Whether the instruction only computes on registers: loads an
    /// immediate, or is one of the arithmetic and logic instructions.
    pub open spec fn is_arithmetic(self) -> bool {
        match self {
            Instruction::LoadImm { .. }
            | Instruction::AddImm { .. }
            | Instruction::LoadReg { .. }
            | Instruction::OrReg { .. }
            | Instruction::AndReg { .. }
            | Instruction::XorReg { .. }
            | Instruction::AddReg { .. }
            | Instruction::SubReg { .. }
            | Instruction::ShiftRight { .. }
            | Instruction::SubReversed { .. }
            | Instruction::ShiftLeft { .. } => true,
            _ => false,
        }
    }
}

impl Machine {
    /// The machine with the processor replaced.
    pub open spec fn with_core(self, core: Core) -> Machine {
        Machine { core, ..self }
    }

    /// The machine with the screen replaced.
    pub open spec fn with_screen(self, screen: Seq<bool>) -> Machine {
        Machine { screen, ..self }
    }

    /// The machine with the delay timer at `delay`.
    pub open spec fn with_delay(self, delay: u8) -> Machine {
        Machine { delay, ..self }
    }

    /// What following `instruction` does: the machine afterwards and what
    /// is left to do outside, or the fault that stops the processor.
    /// `random` is the byte that a random instruction draws; no other
    /// instruction looks at it.
    pub open spec fn step(self, instruction: Instruction, random: u8) -> Result<(Machine, Signal), Fault> {
        let c = self.core;
        match instruction {
            Instruction::ClearScreen => Ok((self.with_screen(cleared(self.screen)), Signal::Continue)),
            Instruction::Return => if c.stack.len() == 0 {
                Err(Fault::StackUnderflow)
            } else {
                Ok((self.with_core(c.returned()), Signal::Continue))
            },
            Instruction::CallLegacy { address } => Ok((self.with_core(c.called(address as usize)), Signal::Continue)),
            Instruction::Jump { address } => Ok((self.with_core(c.jumped(address as usize)), Signal::Continue)),
            Instruction::Call { address } => Ok((self.with_core(c.called(address as usize)), Signal::Continue)),
            Instruction::SkipEqImm { x, value } => Ok((self.with_core(c.skipping(c.v(x) == value)), Signal::Continue)),
            Instruction::SkipNeImm { x, value } => Ok((self.with_core(c.skipping(c.v(x) != value)), Signal::Continue)),
            Instruction::SkipEqReg { x, y } => Ok((self.with_core(c.skipping(c.v(x) == c.v(y))), Signal::Continue)),
            Instruction::SkipNeReg { x, y } => Ok((self.with_core(c.skipping(c.v(x) != c.v(y))), Signal::Continue)),
            Instruction::JumpOffset { address } => Ok(
                (self.with_core(c.jumped(((address + c.v(0)) % 0x10000) as usize)), Signal::Continue),
            ),
            Instruction::SetI { address } => Ok((self.with_core(c.with_index(address)), Signal::Continue)),
            Instruction::AddToI { x } => Ok(
                (self.with_core(c.with_index(((c.index + c.v(x)) % 0x10000) as u16)), Signal::Continue),
            ),
            Instruction::FontAddress { x } => Ok(
                (self.with_core(c.with_index(digit_address(c.v(x)) as u16)), Signal::Continue),
            ),
            Instruction::Random { x, mask } => Ok((self.with_core(c.with_v(x, random & mask)), Signal::Continue)),
            Instruction::Draw { x, y, rows } => if c.index + rows > 4096 {
                Err(Fault::AddressOutOfRange)
            } else {
                let sprite = c.memory.subrange(c.index as int, c.index + rows);
                Ok(
                    (
                        Machine {
                            core: c.with_flag(flag(collides(self.screen, c.v(x), c.v(y), sprite))),
                            screen: drawn(self.screen, c.v(x), c.v(y), sprite),
                            delay: self.delay,
                        },
                        Signal::Continue,
                    ),
                )
            },
            Instruction::SkipKeyDown { x } => {
                let keypad = c.keypad.received();
                let held = key_of(c.v(x)) matches Some(key) && keypad.pressed.contains(key);
                Ok((self.with_core(c.with_keypad(keypad).skipping(held)), Signal::Continue))
            },
            Instruction::SkipKeyUp { x } => {
                let keypad = c.keypad.received();
                let free = key_of(c.v(x)) matches Some(key) && !keypad.pressed.contains(key);
                Ok((self.with_core(c.with_keypad(keypad).skipping(free)), Signal::Continue))
            },
            Instruction::ReadDelay { x } => Ok((self.with_core(c.with_v(x, self.delay)), Signal::Continue)),
            Instruction::WaitKey { x } => {
                let waited = c.with_keypad(c.keypad.waited());
                match c.keypad.awaited_key() {
                    Some(key) => Ok((self.with_core(waited.with_v(x, key_value(key))), Signal::Continue)),
                    None => Ok((self.with_core(waited), Signal::AwaitKey)),
                }
            },
            Instruction::SetDelay { x } => Ok((self.with_delay(c.v(x)), Signal::Continue)),
            Instruction::SetSound { x } => Ok((self, Signal::SetSoundTimer(c.v(x)))),
            Instruction::StoreBcd { x } => if c.index + 3 > 4096 {
                Err(Fault::AddressOutOfRange)
            } else {
                Ok(
                    (
                        self.with_core(Core { memory: bcd_stored(c.memory, c.index as int, c.v(x)), ..c }),
                        Signal::Continue,
                    ),
                )
            },
            Instruction::StoreRegisters { x } => if c.index + x + 1 > 4096 {
                Err(Fault::AddressOutOfRange)
            } else {
                Ok(
                    (
                        self.with_core(
                            Core {
                                memory: registers_stored(c.memory, c.registers, c.index as int, x),
                                index: (c.index + x + 1) as u16,
                                ..c
                            },
                        ),
                        Signal::Continue,
                    ),
                )
            },
            Instruction::LoadRegisters { x } => if c.index + x + 1 > 4096 {
                Err(Fault::AddressOutOfRange)
            } else {
                Ok(
                    (
                        self.with_core(
                            Core {
                                registers: registers_loaded(c.registers, c.memory, c.index as int, x),
                                index: (c.index + x + 1) as u16,
                                ..c
                            },
                        ),
                        Signal::Continue,
                    ),
                )
            },
            _ => Ok((self.with_core(c.computed(instruction)), Signal::Continue)),
        }
    }

    /// What following `opcode` does: the step of the instruction that it
    /// stands for, or the fault of an opcode that stands for none.
    pub open spec fn follow(self, opcode: u16, random: u8) -> Result<(Machine, Signal), Fault> {
        match decoded(opcode) {
            Ok(instruction) => self.step(instruction, random),
            Err(fault) => Err(fault),
        }
    }

    /// Whether `after` and `result` are what `outcome` asks for: on success
    /// the new machine and the signal, on a fault the machine untouched.
    pub open spec fn leads_to(self, outcome: Result<(Machine, Signal), Fault>, after: Machine, result: Result<Signal, Fault>) -> bool {
        match outcome {
            Ok((machine, signal)) => after =~= machine && result == Ok::<Signal, Fault>(signal),
            Err(fault) => after =~= self && result == Err::<Signal, Fault>(fault),
        }
    }
}

impl Core {
    /// The registers after an instruction that only computes on registers.
    /// Operands are read before anything is written. Where the flag and Vx
    /// are the same register, the write that the instruction makes last
    /// stays: the flag for the additions and subtractions, Vx for the
    /// shifts.
    pub open spec fn computed_registers(registers: Seq<u8>, instruction: Instruction) -> Seq<u8> {
        match instruction {
            Instruction::LoadImm { x, value } => registers.update(x as int, value),
            Instruction::AddImm { x, value } => registers.update(
                x as int,
                ((registers[x as int] + value) % 256) as u8,
            ),
            Instruction::LoadReg { x, y } => registers.update(x as int, registers[y as int]),
            Instruction::OrReg { x, y } => registers.update(x as int, registers[x as int] | registers[y as int]),
            Instruction::AndReg { x, y } => registers.update(x as int, registers[x as int] & registers[y as int]),
            Instruction::XorReg { x, y } => registers.update(x as int, registers[x as int] ^ registers[y as int]),
            Instruction::AddReg { x, y } => {
                let sum = registers[x as int] + registers[y as int];
                registers.update(x as int, (sum % 256) as u8).update(0xF, flag(sum > 255))
            },
            Instruction::SubReg { x, y } => {
                let difference = registers[x as int] - registers[y as int];
                registers.update(x as int, (difference % 256) as u8).update(0xF, flag(difference >= 0))
            },
            Instruction::SubReversed { x, y } => {
                let difference = registers[y as int] - registers[x as int];
                registers.update(x as int, (difference % 256) as u8).update(0xF, flag(difference >= 0))
            },
            Instruction::ShiftRight { x, y } => {
                let source = registers[y as int];
                registers.update(0xF, source % 2).update(x as int, source / 2)
            },
            Instruction::ShiftLeft { x, y } => {
                let source = registers[y as int];
                registers.update(
                    0xF,
                    if source >= 0x80 {
                        0x80u8
                    } else {
                        0u8
                    },
                ).update(x as int, ((source * 2) % 256) as u8)
            },
            _ => registers,
        }
    }

    /// The processor after an instruction that only computes on registers:
    /// nothing but the registers changes.
    pub open spec fn computed(self, instruction: Instruction) -> Core {
        Core { registers: Core::computed_registers(self.registers, instruction), ..self }
    }
}

/// Whether `opcode` stands for the random instruction, the only one whose
/// outcome the machine and the opcode do not settle.
pub open spec fn draws_random(opcode: u16) -> bool {
    decoded(opcode) matches Ok(Instruction::Random { .. })
}

/// The machine that a processor, a screen and a delay timer make up.
pub open spec fn machine(core: Core, screen: Seq<bool>, delay: u8) -> Machine {
    Machine { core, screen, delay }
}

/// Takes an opcode apart. An opcode outside the instruction table is a
/// fault.
pub fn decode(opcode: u16) -> (instruction: Result<Instruction, Fault>)
    ensures
        instruction == decoded(opcode),
        instruction matches Ok(found) ==> found.wf(),
{
    let x = ((opcode & 0x0F00) / 0x100) as u8;
    let y = ((opcode & 0x00F0) / 0x10) as u8;
    let n = (opcode & 0x000F) as u8;
    let nn = (opcode & 0x00FF) as u8;
    let address = opcode & 0x0FFF;
    let class = opcode >> 12;
    assert(x == op_x(opcode) && y == op_y(opcode) && n == op_n(opcode) && nn == op_nn(opcode)
        && address == op_nnn(opcode) && class == op_class(opcode)) by {
        assert((opcode & 0x0F00) / 0x100 == opcode / 0x100 % 0x10) by (bit_vector);
        assert((opcode & 0x00F0) / 0x10 == opcode / 0x10 % 0x10) by (bit_vector);
        assert(opcode & 0x000F == opcode % 0x10) by (bit_vector);
        assert(opcode & 0x00FF == opcode % 0x100) by (bit_vector);
        assert(opcode & 0x0FFF == opcode % 0x1000) by (bit_vector);
        assert(opcode >> 12 == opcode / 0x1000) by (bit_vector);
    }
    if opcode == 0x00E0 {
        return Ok(Instruction::ClearScreen);
    }
    if opcode == 0x00EE {
        return Ok(Instruction::Return);
    }
    match class {
        0x0 => Ok(Instruction::CallLegacy { address }),
        0x1 => Ok(Instruction::Jump { address }),
        0x2 => Ok(Instruction::Call { address }),
        0x3 => Ok(Instruction::SkipEqImm { x, value: nn }),
        0x4 => Ok(Instruction::SkipNeImm { x, value: nn }),
        0x5 => if n == 0 {
            Ok(Instruction::SkipEqReg { x, y })
        } else {
            Err(Fault::UnknownOpcode)
        },
        0x6 => Ok(Instruction::LoadImm { x, value: nn }),
        0x7 => Ok(Instruction::AddImm { x, value: nn }),
        0x8 => match n {
            0x0 => Ok(Instruction::LoadReg { x, y }),
            0x1 => Ok(Instruction::OrReg { x, y }),
            0x2 => Ok(Instruction::AndReg { x, y }),
            0x3 => Ok(Instruction::XorReg { x, y }),
            0x4 => Ok(Instruction::AddReg { x, y }),
            0x5 => Ok(Instruction::SubReg { x, y }),
            0x6 => Ok(Instruction::ShiftRight { x, y }),
            0x7 => Ok(Instruction::SubReversed { x, y }),
            0xE => Ok(Instruction::ShiftLeft { x, y }),
            _ => Err(Fault::UnknownOpcode),
        },
        0x9 => if n == 0 {
            Ok(Instruction::SkipNeReg { x, y })
        } else {
            Err(Fault::UnknownOpcode)
        },
        0xA => Ok(Instruction::SetI { address }),
        0xB => Ok(Instruction::JumpOffset { address }),
        0xC => Ok(Instruction::Random { x, mask: nn }),
        0xD => Ok(Instruction::Draw { x, y, rows: n }),
        0xE => match nn {
            0x9E => Ok(Instruction::SkipKeyDown { x }),
            0xA1 => Ok(Instruction::SkipKeyUp { x }),
            _ => Err(Fault::UnknownOpcode),
        },
        _ => match nn {
            0x07 => Ok(Instruction::ReadDelay { x }),
            0x0A => Ok(Instruction::WaitKey { x }),
            0x15 => Ok(Instruction::SetDelay { x }),
            0x18 => Ok(Instruction::SetSound { x }),
            0x1E => Ok(Instruction::AddToI { x }),
            0x29 => Ok(Instruction::FontAddress { x }),
            0x33 => Ok(Instruction::StoreBcd { x }),
            0x55 => Ok(Instruction::StoreRegisters { x }),
            0x65 => Ok(Instruction::LoadRegisters { x }),
            _ => Err(Fault::UnknownOpcode),
        },
    }
}

/// One byte from `rand::random`, which draws it from the generator that the
/// calling thread owns. Nothing is claimed of the byte: every value may come.
#[verifier::external_body]
fn random_byte() -> (byte: u8) {
    rand::random::<u8>()
}

impl CPU {
    /// Decodes `opcode` and follows the instruction. A random instruction
    /// draws its byte here; everything else is as [`CPU::execute`] says. On a
    /// fault nothing has changed.
    pub fn follow_isa(
        &mut self,
        opcode: u16,
        graphics_memory: &mut GraphicsMemory,
        delay_timer: &mut BaseTimer,
    ) -> (result: Result<Signal, Fault>)
        requires
            old(self)@.pointer + 2 <= usize::MAX,
        ensures
            !draws_random(opcode) ==> machine(old(self)@, old(graphics_memory)@, old(delay_timer)@).leads_to(
                machine(old(self)@, old(graphics_memory)@, old(delay_timer)@).follow(opcode, 0),
                machine(final(self)@, final(graphics_memory)@, final(delay_timer)@),
                result,
            ),
            draws_random(opcode) ==> exists|random: u8|
                machine(old(self)@, old(graphics_memory)@, old(delay_timer)@).leads_to(
                    #[trigger] machine(old(self)@, old(graphics_memory)@, old(delay_timer)@).follow(
                        opcode,
                        random,
                    ),
                    machine(final(self)@, final(graphics_memory)@, final(delay_timer)@),
                    result,
                ),
    {
        let ghost before = machine(self@, graphics_memory@, delay_timer@);
        match decode(opcode) {
            Ok(instruction) => {
                let random = match instruction {
                    Instruction::Random { .. } => random_byte(),
                    _ => 0,
                };
                let result = self.execute(instruction, random, graphics_memory, delay_timer);
                assert(before.leads_to(
                    before.follow(opcode, random),
                    machine(self@, graphics_memory@, delay_timer@),
                    result,
                ));
                result
            },
            Err(fault) => {
                assert(before.leads_to(
                    before.follow(opcode, 0),
                    machine(self@, graphics_memory@, delay_timer@),
                    Err(fault),
                ));
                Err(fault)
            },
        }
    }

    /// Follows one instruction, with `random` as the byte that a random
    /// instruction draws. The machine afterwards and the signal are those of
    /// [`Machine::step`]; on a fault nothing has changed.
    pub fn execute(
        &mut self,
        instruction: Instruction,
        random: u8,
        graphics_memory: &mut GraphicsMemory,
        delay_timer: &mut BaseTimer,
    ) -> (result: Result<Signal, Fault>)
        requires
            instruction.wf(),
            old(self)@.pointer + 2 <= usize::MAX,
        ensures
            machine(old(self)@, old(graphics_memory)@, old(delay_timer)@).leads_to(
                machine(old(self)@, old(graphics_memory)@, old(delay_timer)@).step(instruction, random),
                machine(final(self)@, final(graphics_memory)@, final(delay_timer)@),
                result,
            ),
    {
        match instruction {
            Instruction::ClearScreen => {
                graphics_memory.clear_screen();
                Ok(Signal::Continue)
            },
            Instruction::Return => {
                if self.ret() {
                    Ok(Signal::Continue)
                } else {
                    Err(Fault::StackUnderflow)
                }
            },
            Instruction::CallLegacy { address } => {
                self.call(address as usize);
                Ok(Signal::Continue)
            },
            Instruction::Jump { address } => {
                self.jump(address as usize);
                Ok(Signal::Continue)
            },
            Instruction::Call { address } => {
                self.call(address as usize);
                Ok(Signal::Continue)
            },
            Instruction::SkipEqImm { x, value } => {
                let skip = self.register(x) == value;
                self.skip_if(skip);
                Ok(Signal::Continue)
            },
            Instruction::SkipNeImm { x, value } => {
                let skip = self.register(x) != value;
                self.skip_if(skip);
                Ok(Signal::Continue)
            },
            Instruction::SkipEqReg { x, y } => {
                let skip = self.register(x) == self.register(y);
                self.skip_if(skip);
                Ok(Signal::Continue)
            },
            Instruction::SkipNeReg { x, y } => {
                let skip = self.register(x) != self.register(y);
                self.skip_if(skip);
                Ok(Signal::Continue)
            },
            Instruction::LoadImm { .. }
            | Instruction::AddImm { .. }
            | Instruction::LoadReg { .. }
            | Instruction::OrReg { .. }
            | Instruction::AndReg { .. }
            | Instruction::XorReg { .. }
            | Instruction::AddReg { .. }
            | Instruction::SubReg { .. }
            | Instruction::ShiftRight { .. }
            | Instruction::SubReversed { .. }
            | Instruction::ShiftLeft { .. } => {
                self.compute(instruction);
                Ok(Signal::Continue)
            },
            Instruction::SetI { address } => {
                self.set_index(address);
                Ok(Signal::Continue)
            },
            Instruction::JumpOffset { address } => {
                let target = (address + self.register(0) as u16) as usize % 0x10000;
                self.jump(target);
                Ok(Signal::Continue)
            },
            Instruction::Random { x, mask } => {
                self.set_register(x, random & mask);
                Ok(Signal::Continue)
            },
            Instruction::Draw { x, y, rows } => {
                let start = self.index() as usize;
                let end = start + rows as usize;
                if end > MEMORY_SIZE {
                    return Err(Fault::AddressOutOfRange);
                }
                let column = self.register(x);
                let row = self.register(y);
                let collision = graphics_memory.display_sprite(column, row, self.bytes(start, end));
                self.set_register(
                    0xF,
                    if collision {
                        1
                    } else {
                        0
                    },
                );
                Ok(Signal::Continue)
            },
            Instruction::SkipKeyDown { x } => {
                self.refresh_keys();
                let skip = match Key::try_from(self.register(x)) {
                    Ok(key) => self.key_down(key),
                    Err(_) => false,
                };
                self.skip_if(skip);
                Ok(Signal::Continue)
            },
            Instruction::SkipKeyUp { x } => {
                self.refresh_keys();
                let skip = match Key::try_from(self.register(x)) {
                    Ok(key) => !self.key_down(key),
                    Err(_) => false,
                };
                self.skip_if(skip);
                Ok(Signal::Continue)
            },
            Instruction::ReadDelay { x } => {
                self.set_register(x, delay_timer.read());
                Ok(Signal::Continue)
            },
            Instruction::WaitKey { x } => {
                match self.wait_key() {
                    Some(key) => {
                        self.set_register(x, u8::from(key));
                        Ok(Signal::Continue)
                    },
                    None => Ok(Signal::AwaitKey),
                }
            },
            Instruction::SetDelay { x } => {
                delay_timer.set_timer(self.register(x));
                Ok(Signal::Continue)
            },
            Instruction::SetSound { x } => Ok(Signal::SetSoundTimer(self.register(x))),
            Instruction::AddToI { x } => {
                let index = self.index().wrapping_add(self.register(x) as u16);
                self.set_index(index);
                Ok(Signal::Continue)
            },
            Instruction::FontAddress { x } => {
                let address = Memory::get_digit_address(self.register(x));
                self.set_index(address as u16);
                Ok(Signal::Continue)
            },
            Instruction::StoreBcd { x } => {
                let address = self.index() as usize;
                if address + 3 > MEMORY_SIZE {
                    return Err(Fault::AddressOutOfRange);
                }
                let value = self.register(x);
                self.store(address, value / 100);
                self.store(address + 1, (value % 100) / 10);
                self.store(address + 2, value % 10);
                Ok(Signal::Continue)
            },
            Instruction::StoreRegisters { x } => self.store_registers(x),
            Instruction::LoadRegisters { x } => self.load_registers(x),
        }
    }

    /// Follows an instruction that only computes on registers.
    fn compute(&mut self, instruction: Instruction)
        requires
            instruction.wf(),
            instruction.is_arithmetic(),
        ensures
            final(self)@ == old(self)@.computed(instruction),
    {
        match instruction {
            Instruction::LoadImm { x, value } => {
                self.set_register(x, value);
            },
            Instruction::AddImm { x, value } => {
                let sum = self.register(x).wrapping_add(value);
                self.set_register(x, sum);
            },
            Instruction::LoadReg { x, y } => {
                let value = self.register(y);
                self.set_register(x, value);
            },
            Instruction::OrReg { x, y } => {
                let value = self.register(x) | self.register(y);
                self.set_register(x, value);
            },
            Instruction::AndReg { x, y } => {
                let value = self.register(x) & self.register(y);
                self.set_register(x, value);
            },
            Instruction::XorReg { x, y } => {
                let value = self.register(x) ^ self.register(y);
                self.set_register(x, value);
            },
            Instruction::AddReg { x, y } => {
                let a = self.register(x);
                let b = self.register(y);
                let overflow = a as u16 + b as u16 > 0xFF;
                self.set_register(x, a.wrapping_add(b));
                self.set_register(
                    0xF,
                    if overflow {
                        1
                    } else {
                        0
                    },
                );
            },
            Instruction::SubReg { x, y } => {
                let a = self.register(x);
                let b = self.register(y);
                self.set_register(x, a.wrapping_sub(b));
                self.set_register(
                    0xF,
                    if a >= b {
                        1
                    } else {
                        0
                    },
                );
            },
            Instruction::SubReversed { x, y } => {
                let a = self.register(x);
                let b = self.register(y);
                self.set_register(x, b.wrapping_sub(a));
                self.set_register(
                    0xF,
                    if b >= a {
                        1
                    } else {
                        0
                    },
                );
            },
            Instruction::ShiftRight { x, y } => {
                let source = self.register(y);
                assert(source & 0x1 == source % 2 && source >> 1 == source / 2) by (bit_vector);
                self.set_register(0xF, source & 0x1);
                self.set_register(x, source >> 1);
            },
            Instruction::ShiftLeft { x, y } => {
                let source = self.register(y);
                assert(source & 0x80 == (if source >= 0x80 {
                    0x80u8
                } else {
                    0u8
                }) && source << 1 == (source * 2) % 256) by (bit_vector);
                self.set_register(0xF, source & 0x80);
                self.set_register(x, source << 1);
            },
            _ => {},
        }
    }

    /// Copies V0 to Vx into memory at the I register and moves the register
    /// past them, unless they would not fit.
    fn store_registers(&mut self, x: u8) -> (result: Result<Signal, Fault>)
        requires
            x < 16,
        ensures
            old(self)@.index + x + 1 > 4096 ==> result == Err::<Signal, Fault>(Fault::AddressOutOfRange)
                && final(self)@ == old(self)@,
            old(self)@.index + x + 1 <= 4096 ==> result == Ok::<Signal, Fault>(Signal::Continue)
                && final(self)@ == (Core {
                memory: registers_stored(
                    old(self)@.memory,
                    old(self)@.registers,
                    old(self)@.index as int,
                    x,
                ),
                index: (old(self)@.index + x + 1) as u16,
                ..old(self)@
            }),
    {
        let start = self.index() as usize;
        let count = x as usize + 1;
        if start + count > MEMORY_SIZE {
            return Err(Fault::AddressOutOfRange);
        }
        let mut k: u8 = 0;
        while k <= x
            invariant
                x < 16,
                k <= x + 1,
                start + x + 1 <= 4096,
                old(self)@.wf(),
                start == old(self)@.index,
                self@.memory.len() == 4096,
                forall|a: int|
                    0 <= a < 4096 ==> #[trigger] self@.memory[a] == if start <= a < start + k {
                        old(self)@.registers[a - start]
                    } else {
                        old(self)@.memory[a]
                    },
                self@ == (Core { memory: self@.memory, ..old(self)@ }),
            decreases x + 1 - k,
        {
            let value = self.register(k);
            self.store(start + k as usize, value);
            k += 1;
        }
        assert(self@.memory =~= registers_stored(
            old(self)@.memory,
            old(self)@.registers,
            old(self)@.index as int,
            x,
        ));
        self.set_index((start + count) as u16);
        Ok(Signal::Continue)
    }

    /// Fills V0 to Vx from memory at the I register and moves the register
    /// past what was read, unless the bytes do not all lie in memory.
    fn load_registers(&mut self, x: u8) -> (result: Result<Signal, Fault>)
        requires
            x < 16,
        ensures
            old(self)@.index + x + 1 > 4096 ==> result == Err::<Signal, Fault>(Fault::AddressOutOfRange)
                && final(self)@ == old(self)@,
            old(self)@.index + x + 1 <= 4096 ==> result == Ok::<Signal, Fault>(Signal::Continue)
                && final(self)@ == (Core {
                registers: registers_loaded(
                    old(self)@.registers,
                    old(self)@.memory,
                    old(self)@.index as int,
                    x,
                ),
                index: (old(self)@.index + x + 1) as u16,
                ..old(self)@
            }),
    {
        let start = self.index() as usize;
        let count = x as usize + 1;
        if start + count > MEMORY_SIZE {
            return Err(Fault::AddressOutOfRange);
        }
        let mut k: u8 = 0;
        while k <= x
            invariant
                x < 16,
                k <= x + 1,
                start + x + 1 <= 4096,
                old(self)@.wf(),
                start == old(self)@.index,
                self@.registers.len() == 16,
                forall|r: int|
                    0 <= r < 16 ==> #[trigger] self@.registers[r] == if r < k {
                        old(self)@.memory[start + r]
                    } else {
                        old(self)@.registers[r]
                    },
                self@ == (Core { registers: self@.registers, ..old(self)@ }),
            decreases x + 1 - k,
        {
            let value = match self.peek(start + k as usize) {
                Some(value) => value,
                None => 0,
            };
            self.set_register(k, value);
            k += 1;
        }
        assert(self@.registers =~= registers_loaded(
            old(self)@.registers,
            old(self)@.memory,
            old(self)@.index as int,
            x,
        ));
        self.set_index((start + count) as u16);
        Ok(Signal::Continue)
    }
}

} // verus!
