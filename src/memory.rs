use vstd::prelude::*;

use crate::error::Keet8Error;

verus! {

/// Where a program is loaded, and where execution starts.
pub const PROG_ADDR: u16 = 0x0200;

/// Where the glyph table is loaded.
pub const FONT_ADDR: u16 = 0x0050;

/// The size of the address space in bytes.
pub const MEMORY_SIZE: usize = 4096;

/// The size of the glyph table: 16 glyphs of 5 bytes.
pub const FONTSET_SIZE: usize = 80;

/// The largest program that fits between `PROG_ADDR` and the end of memory.
pub const MAX_ROM_SIZE: usize = 3584;

/// The glyphs of the hexadecimal digits 0 to F, 5 rows of 4 pixels each.
pub open spec fn glyph_table() -> Seq<u8> {
    seq![
        0xF0u8, 0x90, 0x90, 0x90, 0xF0, // 0
        0x20, 0x60, 0x20, 0x20, 0x70, // 1
        0xF0, 0x10, 0xF0, 0x80, 0xF0, // 2
        0xF0, 0x10, 0xF0, 0x10, 0xF0, // 3
        0x90, 0x90, 0xF0, 0x10, 0x10, // 4
        0xF0, 0x80, 0xF0, 0x10, 0xF0, // 5
        0xF0, 0x80, 0xF0, 0x90, 0xF0, // 6
        0xF0, 0x10, 0x20, 0x40, 0x40, // 7
        0xF0, 0x90, 0xF0, 0x90, 0xF0, // 8
        0xF0, 0x90, 0xF0, 0x10, 0xF0, // 9
        0xF0, 0x90, 0xF0, 0x90, 0x90, // A
        0xE0, 0x90, 0xE0, 0x90, 0xE0, // B
        0xF0, 0x80, 0x80, 0x80, 0xF0, // C
        0xE0, 0x90, 0x90, 0x90, 0xE0, // D
        0xF0, 0x80, 0xF0, 0x80, 0xF0, // E
        0xF0, 0x80, 0xF0, 0x80, 0x80, // F
    ]
}

/// The cell that an address of any width selects: its low 12 bits.
pub open spec fn cell_of(addr: int) -> int {
    addr % (MEMORY_SIZE as int)
}

/// `bytes` with the glyph table written over it at `FONT_ADDR`.
pub open spec fn with_font(bytes: Seq<u8>) -> Seq<u8> {
    Seq::new(
        bytes.len(),
        |i: int|
            if FONT_ADDR <= i < FONT_ADDR + FONTSET_SIZE {
                glyph_table()[i - FONT_ADDR]
            } else {
                bytes[i]
            },
    )
}

/// The address space right after loading `rom`: the program at `PROG_ADDR`,
/// the glyph table at `FONT_ADDR`, zero everywhere else.
pub open spec fn loaded_spec(rom: Seq<u8>) -> Seq<u8> {
    with_font(
        Seq::new(
            MEMORY_SIZE as nat,
            |i: int|
                if PROG_ADDR <= i < PROG_ADDR + rom.len() {
                    rom[i - PROG_ADDR]
                } else {
                    0u8
                },
        ),
    )
}

/// Loading a ROM that fits leaves the glyph table intact at
/// `FONT_ADDR..FONT_ADDR + FONTSET_SIZE`, and the program itself at
/// `PROG_ADDR`.
pub proof fn lemma_loaded_layout(rom: Seq<u8>)
    requires
        rom.len() <= MAX_ROM_SIZE,
    ensures
        loaded_spec(rom).len() == MEMORY_SIZE,
        loaded_spec(rom).subrange(FONT_ADDR as int, FONT_ADDR + FONTSET_SIZE) == glyph_table(),
        loaded_spec(rom).subrange(PROG_ADDR as int, PROG_ADDR + rom.len()) == rom,
{
    assert(loaded_spec(rom).subrange(FONT_ADDR as int, FONT_ADDR + FONTSET_SIZE) =~= glyph_table());
    assert(loaded_spec(rom).subrange(PROG_ADDR as int, PROG_ADDR + rom.len()) =~= rom);
}

/// The 4 KiB address space.
pub struct Memory {
    /// One byte per address
    space: Vec<u8>,
}

impl View for Memory {
    type V = Seq<u8>;

    /// The bytes of the address space, by address.
    closed spec fn view(&self) -> Seq<u8> {
        self.space@
    }
}

/// Writes the glyph table into `buffer` at `FONT_ADDR`, leaving every other
/// byte as it was.
pub fn load_font(buffer: &mut Vec<u8>)
    requires
        old(buffer)@.len() == MEMORY_SIZE,
    ensures
        final(buffer)@ == with_font(old(buffer)@),
{
    let font: Vec<u8> = vec![
        0xF0u8, 0x90, 0x90, 0x90, 0xF0, // 0
        0x20, 0x60, 0x20, 0x20, 0x70, // 1
        0xF0, 0x10, 0xF0, 0x80, 0xF0, // 2
        0xF0, 0x10, 0xF0, 0x10, 0xF0, // 3
        0x90, 0x90, 0xF0, 0x10, 0x10, // 4
        0xF0, 0x80, 0xF0, 0x10, 0xF0, // 5
        0xF0, 0x80, 0xF0, 0x90, 0xF0, // 6
        0xF0, 0x10, 0x20, 0x40, 0x40, // 7
        0xF0, 0x90, 0xF0, 0x90, 0xF0, // 8
        0xF0, 0x90, 0xF0, 0x10, 0xF0, // 9
        0xF0, 0x90, 0xF0, 0x90, 0x90, // A
        0xE0, 0x90, 0xE0, 0x90, 0xE0, // B
        0xF0, 0x80, 0x80, 0x80, 0xF0, // C
        0xE0, 0x90, 0x90, 0x90, 0xE0, // D
        0xF0, 0x80, 0xF0, 0x80, 0xF0, // E
        0xF0, 0x80, 0xF0, 0x80, 0x80, // F
    ];
    assert(font@ == glyph_table());
    let ghost before = buffer@;
    let mut i: usize = 0;
    while i < FONTSET_SIZE
        invariant
            i <= FONTSET_SIZE,
            font@ == glyph_table(),
            buffer@.len() == MEMORY_SIZE,
            forall|j: int|
                0 <= j < MEMORY_SIZE ==> #[trigger] buffer@[j] == if FONT_ADDR <= j < FONT_ADDR + i {
                    glyph_table()[j - FONT_ADDR]
                } else {
                    before[j]
                },
        decreases FONTSET_SIZE - i,
    {
        buffer.set(FONT_ADDR as usize + i, font[i]);
        i = i + 1;
    }
    assert(buffer@ =~= with_font(before));
}

impl Memory {
    /// The address space holds exactly `MEMORY_SIZE` bytes.
    pub open spec fn wf(&self) -> bool {
        self@.len() == MEMORY_SIZE
    }

    /// Builds the address space for a program: `rom` copied in at
    /// `PROG_ADDR`, then the glyph table at `FONT_ADDR`. A ROM longer than
    /// `MAX_ROM_SIZE` does not fit and is refused.
    pub fn new(rom: &[u8]) -> (r: Result<Memory, Keet8Error>)
        ensures
            rom@.len() > MAX_ROM_SIZE ==> r == Err::<Memory, Keet8Error>(
                Keet8Error::ROMTooLarge(rom@.len() as usize),
            ),
            rom@.len() <= MAX_ROM_SIZE ==> r is Ok && r->Ok_0.wf() && r->Ok_0@ == loaded_spec(rom@),
    {
        if rom.len() > MAX_ROM_SIZE {
            return Err(Keet8Error::ROMTooLarge(rom.len()));
        }
        let mut space: Vec<u8> = vec![0u8; MEMORY_SIZE];
        let mut i: usize = 0;
        while i < rom.len()
            invariant
                i <= rom@.len() <= MAX_ROM_SIZE,
                space@.len() == MEMORY_SIZE,
                forall|j: int|
                    0 <= j < MEMORY_SIZE ==> #[trigger] space@[j] == if PROG_ADDR <= j < PROG_ADDR + i {
                        rom@[j - PROG_ADDR]
                    } else {
                        0u8
                    },
            decreases rom@.len() - i,
        {
            space.set(PROG_ADDR as usize + i, rom[i]);
            i = i + 1;
        }
        let ghost plain = space@;
        assert(plain =~= Seq::new(
            MEMORY_SIZE as nat,
            |j: int|
                if PROG_ADDR <= j < PROG_ADDR + rom@.len() {
                    rom@[j - PROG_ADDR]
                } else {
                    0u8
                },
        ));
        load_font(&mut space);
        Ok(Memory { space })
    }

    /// The byte at `addr`, of which only the low 12 bits count.
    pub fn read(&self, addr: u16) -> (r: u8)
        requires
            self.wf(),
        ensures
            r == self@[cell_of(addr as int)],
    {
        let i = (addr & 0x0FFF) as usize;
        assert(addr & 0x0FFF == addr % 4096) by (bit_vector);
        self.space[i]
    }

    /// Stores `val` at `addr`, of which only the low 12 bits count.
    pub fn write(&mut self, addr: u16, val: u8)
        requires
            old(self).wf(),
        ensures
            final(self).wf(),
            final(self)@ == old(self)@.update(cell_of(addr as int), val),
    {
        let i = (addr & 0x0FFF) as usize;
        assert(addr & 0x0FFF == addr % 4096) by (bit_vector);
        self.space.set(i, val);
    }
}

} // verus!
