//! The 4 KiB address space: the digit font table at the bottom, the program
//! image from address 0x200 upwards.

use vstd::prelude::*;
use vstd::slice::slice_subrange;

verus! {

/// Number of addressable bytes.
pub const MEMORY_SIZE: usize = 4096;

/// Bytes in one digit glyph.
pub const GLYPH_SIZE: usize = 5;

/// The longest program image that fits above the program start address.
pub const MAX_ROM_SIZE: usize = 3584;

/// The memory of the virtual machine.
///
/// total = 4KiB,
/// 2**12 possible addresses
/// addressable from 0x000 to 0xFFF
#[derive(Debug)]
pub struct Memory(pub [u8; 4096]);

/// The program image handed to [`Memory::load_instructions`] does not fit
/// between the program start address and the end of memory.
#[derive(Clone, Copy, Debug, PartialEq, Eq, Structural)]
pub struct RomTooLarge;

/// The I register: a 16-bit pointer into memory, of which 12 bits are
/// significant. It may be assigned any number of times.
#[derive(Clone, Copy, Debug, PartialEq, Eq, Structural)]
pub struct IRegister {
    pub data: u16,
}

/// A cursor over the first `max_index` items of a slice, front to back.
pub struct MemoryIterator<'it, T> {
    pub index: usize,
    pub data_slice: &'it [T],
    pub max_index: usize,
}

/// The five bytes of the glyph of `digit`, top row first.
pub open spec fn glyph(digit: int) -> Seq<u8> {
    Memory::DIGITS_FONTS@.subrange(5 * digit, 5 * digit + 5)
}

/// The digit whose glyph is shown for the register value `value`: values up
/// to 15 stand for themselves, larger ones are reduced modulo 15.
pub open spec fn font_digit(value: u8) -> int {
    if value > 15 {
        value as int % 15
    } else {
        value as int
    }
}

/// Where the glyph for the register value `value` starts.
pub open spec fn digit_address(value: u8) -> int {
    Memory::DIGITS_FONTS_START_ADDRESS + 5 * font_digit(value)
}

/// Memory as it is right after loading `rom`: the font table at the bottom,
/// the image from the program start address on, zero everywhere else.
pub open spec fn loaded_image(rom: Seq<u8>) -> Seq<u8> {
    Seq::new(
        4096,
        |a: int|
            if a < 80 {
                Memory::DIGITS_FONTS@[a]
            } else if 0x200 <= a < 0x200 + rom.len() {
                rom[a - 0x200]
            } else {
                0u8
            },
    )
}

/// Whether `memory` still holds the whole font table where loading put it.
pub open spec fn holds_font_table(memory: Seq<u8>) -> bool {
    memory.len() == 4096 && memory.subrange(0, 80) == Memory::DIGITS_FONTS@
}

impl View for Memory {
    type V = Seq<u8>;

    open spec fn view(&self) -> Seq<u8> {
        self.0@
    }
}

impl RomTooLarge {
    /// The text shown when a program image is rejected.
    pub fn message(&self) -> (text: &'static str)
        ensures
            text@ == "Instructions are too large to fit in memory"@,
    {
        "Instructions are too large to fit in memory"
    }
}

impl Memory {
    /// The memory address where the instructions would start
    pub const INSTRUCTIONS_START_ADDRESS: usize = 0x200;

    /// The memory address where the font table starts
    pub const DIGITS_FONTS_START_ADDRESS: usize = 0x000;

    /// The font table: the glyphs of the digits 0 to F, five bytes each. A
    /// glyph is four cells wide; each byte is one row, its high bits first.
    pub const DIGITS_FONTS: [u8; 80] = [
        0xF0, 0x90, 0x90, 0x90, 0xF0,  // 0
        0x20, 0x60, 0x20, 0x20, 0x70,  // 1
        0xF0, 0x10, 0xF0, 0x80, 0xF0,  // 2
        0xF0, 0x10, 0xF0, 0x10, 0xF0,  // 3
        0x90, 0x90, 0xF0, 0x10, 0x10,  // 4
        0xF0, 0x80, 0xF0, 0x10, 0xF0,  // 5
        0xF0, 0x80, 0xF0, 0x90, 0xF0,  // 6
        0xF0, 0x10, 0x20, 0x40, 0x40,  // 7
        0xF0, 0x90, 0xF0, 0x90, 0xF0,  // 8
        0xF0, 0x90, 0xF0, 0x10, 0xF0,  // 9
        0xF0, 0x90, 0xF0, 0x90, 0x90,  // A
        0xE0, 0x90, 0xE0, 0x90, 0xE0,  // B
        0xF0, 0x80, 0x80, 0x80, 0xF0,  // C
        0xE0, 0x90, 0x90, 0x90, 0xE0,  // D
        0xF0, 0x80, 0xF0, 0x80, 0xF0,  // E
        0xF0, 0x80, 0xF0, 0x80, 0x80,  // F
    ];

    /// Builds the memory for a program image: the font table at its fixed
    /// place, then `rom` verbatim from the program start address on. An image
    /// longer than the room above that address is rejected, never cut short.
    pub fn load_instructions(rom: &[u8]) -> (loaded: Result<Memory, RomTooLarge>)
        ensures
            loaded is Ok <==> rom@.len() <= MAX_ROM_SIZE,
            loaded matches Ok(memory) ==> memory@ == loaded_image(rom@),
    {
        if rom.len() > MEMORY_SIZE - Self::INSTRUCTIONS_START_ADDRESS {
            return Err(RomTooLarge);
        }
        let mut data = [0u8;4096];
        let mut i: usize = 0;
        while i < 80
            invariant
                i <= 80,
                forall|a: int| 0 <= a < i ==> data@[a] == Self::DIGITS_FONTS@[a],
                forall|a: int| i <= a < 4096 ==> data@[a] == 0,
            decreases 80 - i,
        {
            data[i] = Self::DIGITS_FONTS[i];
            i += 1;
        }
        let mut k: usize = 0;
        while k < rom.len()
            invariant
                k <= rom@.len() <= MAX_ROM_SIZE,
                forall|a: int| 0 <= a < 80 ==> data@[a] == Self::DIGITS_FONTS@[a],
                forall|a: int| 0x200 <= a < 0x200 + k ==> data@[a] == rom@[a - 0x200],
                forall|a: int| 80 <= a < 0x200 || 0x200 + k <= a < 4096 ==> data@[a] == 0,
            decreases rom@.len() - k,
        {
            data[Self::INSTRUCTIONS_START_ADDRESS + k] = rom[k];
            k += 1;
        }
        Ok(Memory(data))
    }

    /// The byte at `address`, or nothing when the address lies outside memory.
    pub fn get(&self, address: usize) -> (byte: Option<u8>)
        ensures
            byte == if address < MEMORY_SIZE {
                Some(self@[address as int])
            } else {
                None
            },
    {
        if address < MEMORY_SIZE {
            Some(self.0[address])
        } else {
            None
        }
    }

    /// The byte at `address`.
    pub fn read(&self, address: usize) -> (byte: u8)
        requires
            address < MEMORY_SIZE,
        ensures
            byte == self@[address as int],
    {
        self.0[address]
    }

    /// Stores `value` at `address`; every other byte stays as it was.
    pub fn write(&mut self, address: usize, value: u8)
        requires
            address < MEMORY_SIZE,
        ensures
            final(self)@ == old(self)@.update(address as int, value),
    {
        self.0[address] = value;
    }

    /// The bytes from `start` up to, not including, `end`.
    pub fn slice(&self, start: usize, end: usize) -> (bytes: &[u8])
        requires
            start <= end <= MEMORY_SIZE,
        ensures
            bytes@ == self@.subrange(start as int, end as int),
    {
        slice_subrange(self.0.as_slice(), start, end)
    }

    /// Gets the address of digit's font in memory. A value above 15 names no
    /// digit and is reduced modulo 15 first.
    pub fn get_digit_address(digit: u8) -> (address: usize)
        ensures
            address == digit_address(digit),
            address + GLYPH_SIZE <= 80,
    {
        let digit = if digit > 0xF {
            digit % 0xF
        } else {
            digit
        };
        Self::DIGITS_FONTS_START_ADDRESS + (digit as usize * 5)
    }
}

impl IRegister {
    /// The register as it is when the machine starts: zero.
    pub fn new() -> (register: IRegister)
        ensures
            register.data == 0,
    {
        Self { data: 0 }
    }
}

impl<'it, T> MemoryIterator<'it, T> {
    /// Whether the cursor stays inside its slice.
    pub open spec fn wf(&self) -> bool {
        self.max_index <= self.data_slice@.len()
    }

    /// The items that are still to come, in order.
    pub open spec fn remaining(&self) -> Seq<T> {
        if self.index < self.max_index {
            self.data_slice@.subrange(self.index as int, self.max_index as int)
        } else {
            Seq::empty()
        }
    }

    /// Hands out the item under the cursor and moves on, or nothing once
    /// `max_index` items have been passed.
    pub fn next(&mut self) -> (item: Option<&'it T>)
        requires
            old(self).wf(),
        ensures
            final(self).wf(),
            final(self).data_slice == old(self).data_slice,
            final(self).max_index == old(self).max_index,
            old(self).remaining().len() == 0 ==> item is None && final(self).index == old(
                self,
            ).index,
            old(self).remaining().len() > 0 ==> item == Some(&old(self).remaining()[0])
                && final(self).index == old(self).index + 1 && final(self).remaining() == old(
                self,
            ).remaining().drop_first(),
    {
        if self.index < self.max_index {
            let item = &self.data_slice[self.index];
            self.index += 1;
            Some(item)
        } else {
            None
        }
    }
}

/// Looking up the glyph of a digit and reading five bytes there gives back
/// that digit's bitmap, as long as the font table is still in place.
pub proof fn lemma_glyph_round_trip(memory: Seq<u8>, digit: u8)
    requires
        holds_font_table(memory),
        digit <= 15,
    ensures
        digit_address(digit) == 5 * digit,
        memory.subrange(digit_address(digit), digit_address(digit) + 5) == glyph(digit as int),
{
    let a = digit_address(digit);
    assert forall|k: int| 0 <= k < 5 implies memory.subrange(a, a + 5)[k] == glyph(digit as int)[k] by {
        assert(memory.subrange(0, 80)[a + k] == memory[a + k]);
    }
}

/// Loading puts the font table in place, whatever the program image.
pub proof fn lemma_loaded_image_holds_font_table(rom: Seq<u8>)
    ensures
        holds_font_table(loaded_image(rom)),
{
    assert(loaded_image(rom).subrange(0, 80) =~= Memory::DIGITS_FONTS@);
}

} // verus!
