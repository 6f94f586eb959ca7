//! The processor: sixteen byte registers, the I register, the call stack,
//! the instruction pointer, the memory and the keypad, and the fetch half of
//! the fetch-execute cycle.

use crate::input::{InpuState, Key, Keypad};
use crate::memory::{loaded_image, IRegister, Memory, RomTooLarge, MAX_ROM_SIZE, MEMORY_SIZE};
use vstd::prelude::*;

pub mod dump;
/// Has function for decoding and executing the opcodes
pub mod isa;
pub mod laws;

verus! {

/// Microseconds that the processor rests between two instructions when it
/// runs at its fixed rate of half a million instructions a second.
pub const CYCLE_MICROS: u64 = 1_000_000 / 500_000;

/// The processor with all that it owns: registers, I register, call stack,
/// instruction pointer, memory and keypad. The screen and the delay timer
/// belong to others and are lent to it for the instructions that need them.
pub struct CPU {
    /// Stores the return addresses
    stack: Vec<usize>,
    i_register: IRegister,
    register_memory: [u8; 16],
    memory: Memory,
    instruction_ptr: usize,
    inputs: InpuState,
}

/// Why the processor cannot go on.
#[derive(Clone, Copy, PartialEq, Eq, Structural, Debug)]
pub enum Fault {
    /// A return with no call to return to.
    StackUnderflow,
    /// An opcode that the instruction table does not hold.
    UnknownOpcode,
    /// A read or write beyond the last byte of memory.
    AddressOutOfRange,
}

/// What is left to do outside the processor once an instruction has been
/// followed.
#[derive(Clone, Copy, PartialEq, Eq, Structural, Debug)]
pub enum Signal {
    /// Nothing: go on with the next instruction.
    Continue,
    /// Set the sound timer to this value.
    SetSoundTimer(u8),
    /// The instruction waits for a key and the transitions at hand did not
    /// bring one: take in at least one more key transition, then follow the
    /// same opcode again.
    AwaitKey,
}

/// What the processor holds at one moment.
#[verifier::ext_equal]
pub struct Core {
    /// The registers V0 to VF.
    pub registers: Seq<u8>,
    /// The I register.
    pub index: u16,
    /// The return addresses, the latest call last.
    pub stack: Seq<usize>,
    /// The address of the next opcode.
    pub pointer: usize,
    /// The 4096 bytes of memory.
    pub memory: Seq<u8>,
    /// The keypad.
    pub keypad: Keypad,
}

impl Core {
    /// Whether the registers and the memory have their fixed sizes.
    pub open spec fn wf(self) -> bool {
        self.registers.len() == 16 && self.memory.len() == 4096
    }

    /// The processor as it starts on a program image: registers, I register
    /// and stack empty, the pointer at the program start address.
    pub open spec fn started(rom: Seq<u8>) -> Core {
        Core {
            registers: Seq::new(16, |i: int| 0u8),
            index: 0,
            stack: Seq::empty(),
            pointer: 0x200,
            memory: loaded_image(rom),
            keypad: Keypad::idle(),
        }
    }

    /// Whether two bytes can be fetched at the pointer.
    pub open spec fn can_fetch(self) -> bool {
        self.pointer + 1 < 4096
    }

    /// The opcode at the pointer: two bytes, the most significant first.
    pub open spec fn opcode_at_pointer(self) -> u16 {
        (self.memory[self.pointer as int] as int * 256 + self.memory[self.pointer + 1] as int) as u16
    }

    /// The processor with the pointer moved past one opcode.
    pub open spec fn advanced(self) -> Core {
        Core { pointer: (self.pointer + 2) as usize, ..self }
    }

    /// The processor after `key` went down or up and the transition has been
    /// queued.
    pub open spec fn with_key_event(self, key: Key, down: bool) -> Core {
        Core { keypad: self.keypad.enqueued(key, down), ..self }
    }

    /// The value of register `x`.
    pub open spec fn v(self, x: u8) -> u8 {
        self.registers[x as int]
    }

    /// The processor with `value` in register `x`.
    pub open spec fn with_v(self, x: u8, value: u8) -> Core {
        Core { registers: self.registers.update(x as int, value), ..self }
    }

    /// The processor with `value` in the flag register, the last of the
    /// sixteen.
    pub open spec fn with_flag(self, value: u8) -> Core {
        self.with_v(0xF, value)
    }

    /// The processor with `index` in the I register.
    pub open spec fn with_index(self, index: u16) -> Core {
        Core { index, ..self }
    }

    /// The processor with the pointer at `address`.
    pub open spec fn jumped(self, address: usize) -> Core {
        Core { pointer: address, ..self }
    }

    /// The processor after a call to `address`: the pointer is kept on the
    /// stack and then moved.
    pub open spec fn called(self, address: usize) -> Core {
        Core { stack: self.stack.push(self.pointer), pointer: address, ..self }
    }

    /// The processor after a return: the pointer is taken from the top of the
    /// stack.
    pub open spec fn returned(self) -> Core {
        Core { stack: self.stack.drop_last(), pointer: self.stack.last(), ..self }
    }

    /// The processor with the next opcode skipped if `skip` holds.
    pub open spec fn skipping(self, skip: bool) -> Core {
        if skip {
            self.advanced()
        } else {
            self
        }
    }

    /// The processor with `value` stored at `address`.
    pub open spec fn with_byte(self, address: int, value: u8) -> Core {
        Core { memory: self.memory.update(address, value), ..self }
    }

    /// The processor with the keypad replaced.
    pub open spec fn with_keypad(self, keypad: Keypad) -> Core {
        Core { keypad, ..self }
    }
}

impl View for CPU {
    type V = Core;

    closed spec fn view(&self) -> Core {
        Core {
            registers: self.register_memory@,
            index: self.i_register.data,
            stack: self.stack@,
            pointer: self.instruction_ptr,
            memory: self.memory@,
            keypad: self.inputs@,
        }
    }
}

impl CPU {
    /// A processor ready to run the program image `rom` from its first
    /// opcode. An image that does not fit into memory is rejected.
    pub fn new(rom: &[u8], inputs: InpuState) -> (built: Result<CPU, RomTooLarge>)
        ensures
            built is Ok <==> rom@.len() <= MAX_ROM_SIZE,
            built matches Ok(cpu) ==> cpu@ == (Core { keypad: inputs@, ..Core::started(rom@) }),
    {
        let memory = match Memory::load_instructions(rom) {
            Ok(memory) => memory,
            Err(e) => {
                return Err(e);
            },
        };
        let cpu = CPU {
            stack: Vec::new(),
            i_register: IRegister::new(),
            register_memory: [0;16],
            memory,
            instruction_ptr: Memory::INSTRUCTIONS_START_ADDRESS,
            inputs,
        };
        Ok(cpu)
    }

    /// The sizes of the registers and the memory never change.
    pub proof fn lemma_wf(&self)
        ensures
            self@.wf(),
    {
    }

    /// Reads the opcode under the instruction pointer, most significant byte
    /// first, and moves the pointer past it. When the two bytes do not both
    /// lie inside memory, nothing is read and nothing changes.
    pub fn fetch_opcode(&mut self) -> (fetched: Result<u16, Fault>)
        ensures
            old(self)@.can_fetch() ==> fetched == Ok::<u16, Fault>(old(self)@.opcode_at_pointer())
                && final(self)@ == old(self)@.advanced(),
            !old(self)@.can_fetch() ==> fetched == Err::<u16, Fault>(Fault::AddressOutOfRange)
                && final(self)@ == old(self)@,
    {
        if self.instruction_ptr >= MEMORY_SIZE - 1 {
            return Err(Fault::AddressOutOfRange);
        }
        let high = self.memory.read(self.instruction_ptr);
        let low = self.memory.read(self.instruction_ptr + 1);
        let opcode = (high as u16) << 8 | low as u16;
        assert(opcode == (high as int * 256 + low as int) as u16) by (bit_vector)
            requires
                opcode == (high as u16) << 8 | low as u16,
        ;
        self.instruction_ptr += 2;
        Ok(opcode)
    }

    /// The value of register `x`.
    pub fn register(&self, x: u8) -> (value: u8)
        requires
            x < 16,
        ensures
            value == self@.v(x),
    {
        self.register_memory[x as usize]
    }

    /// The value of the I register.
    pub fn index(&self) -> (index: u16)
        ensures
            index == self@.index,
    {
        self.i_register.data
    }

    /// The address of the next opcode.
    pub fn pointer(&self) -> (pointer: usize)
        ensures
            pointer == self@.pointer,
    {
        self.instruction_ptr
    }

    /// The byte at `address`, or nothing when the address lies outside memory.
    pub fn peek(&self, address: usize) -> (byte: Option<u8>)
        ensures
            byte == if address < MEMORY_SIZE {
                Some(self@.memory[address as int])
            } else {
                None
            },
    {
        self.memory.get(address)
    }

    /// How many calls have not returned yet.
    pub fn depth(&self) -> (depth: usize)
        ensures
            depth == self@.stack.len(),
    {
        self.stack.len()
    }

    /// Puts `value` into register `x`.
    pub(crate) fn set_register(&mut self, x: u8, value: u8)
        requires
            x < 16,
        ensures
            final(self)@ == old(self)@.with_v(x, value),
    {
        self.register_memory[x as usize] = value;
    }

    /// Puts `index` into the I register.
    pub(crate) fn set_index(&mut self, index: u16)
        ensures
            final(self)@ == old(self)@.with_index(index),
    {
        self.i_register.data = index;
    }

    /// Moves the pointer to `address`.
    pub(crate) fn jump(&mut self, address: usize)
        ensures
            final(self)@ == old(self)@.jumped(address),
    {
        self.instruction_ptr = address;
    }

    /// Keeps the pointer on the stack and moves it to `address`.
    pub(crate) fn call(&mut self, address: usize)
        ensures
            final(self)@ == old(self)@.called(address),
    {
        self.stack.push(self.instruction_ptr);
        self.instruction_ptr = address;
    }

    /// Takes the pointer back from the stack, and tells whether there was
    /// anything to take.
    pub(crate) fn ret(&mut self) -> (done: bool)
        ensures
            done == (old(self)@.stack.len() > 0),
            done ==> final(self)@ == old(self)@.returned(),
            !done ==> final(self)@ == old(self)@,
    {
        match self.stack.pop() {
            Some(address) => {
                self.instruction_ptr = address;
                true
            },
            None => false,
        }
    }

    /// Moves the pointer past the next opcode if `skip` holds.
    pub(crate) fn skip_if(&mut self, skip: bool)
        requires
            old(self)@.pointer + 2 <= usize::MAX,
        ensures
            final(self)@ == old(self)@.skipping(skip),
    {
        if skip {
            self.instruction_ptr += 2;
        }
    }

    /// Writes `value` to memory at `address`.
    pub(crate) fn store(&mut self, address: usize, value: u8)
        requires
            address < MEMORY_SIZE,
        ensures
            final(self)@ == old(self)@.with_byte(address as int, value),
    {
        self.memory.write(address, value);
    }

    /// The bytes of memory from `start` up to, not including, `end`.
    pub(crate) fn bytes(&self, start: usize, end: usize) -> (bytes: &[u8])
        requires
            start <= end <= MEMORY_SIZE,
        ensures
            bytes@ == self@.memory.subrange(start as int, end as int),
    {
        self.memory.slice(start, end)
    }

    /// Applies every key transition that has come in.
    pub(crate) fn refresh_keys(&mut self)
        ensures
            final(self)@ == old(self)@.with_keypad(old(self)@.keypad.received()),
    {
        self.inputs.receive_keys();
    }

    /// Whether `key` is held down, as far as the keypad has been brought up
    /// to date.
    pub(crate) fn key_down(&self, key: Key) -> (held: bool)
        ensures
            held == self@.keypad.pressed.contains(key),
    {
        self.inputs.is_pressed(key)
    }

    /// Goes on with the wait for a key.
    pub(crate) fn wait_key(&mut self) -> (key: Option<Key>)
        ensures
            key == old(self)@.keypad.awaited_key(),
            final(self)@ == old(self)@.with_keypad(old(self)@.keypad.waited()),
    {
        self.inputs.wait_for_key()
    }

    /// Takes in a key transition from the keyboard. It is applied when an
    /// instruction next looks at the keypad.
    pub fn key_event(&mut self, key: Key, pressed: bool)
        ensures
            final(self)@ == old(self)@.with_key_event(key, pressed),
    {
        self.inputs.enqueue(key, pressed);
    }
}

} // verus!
