//! The memory-mapped address bus: every 16-bit address is routed to exactly
//! one backing region.
use vstd::prelude::*;

verus! {

/// Size of the fixed cartridge bank visible at 0x0000..=0x3FFF.
pub const ROM_BANK_SIZE: usize = 0x4000;
pub const VRAM_SIZE: usize = 0x2000;
pub const EXTERNAL_RAM_SIZE: usize = 0x2000;
pub const WRAM_BANK_SIZE: usize = 0x1000;
pub const OAM_SIZE: usize = 0xA0;
pub const IO_SIZE: usize = 0x80;
pub const HIGH_RAM_SIZE: usize = 0x7F;

/// Truncates an integer to 16 bits.
pub open spec fn wrap16(x: int) -> u16 {
    (x % 0x10000) as u16
}

/// Truncates an integer to 8 bits.
pub open spec fn wrap8(x: int) -> u8 {
    (x % 0x100) as u8
}

/// The hardware-reserved window 0xFEA0..=0xFEFF: any access there is a hard stop.
pub open spec fn is_unusable(a: u16) -> bool {
    0xFEA0 <= a <= 0xFEFF
}

/// Addresses that may be read.
pub open spec fn is_readable(a: u16) -> bool {
    !is_unusable(a)
}

/// Addresses that may be written: everything but the cartridge and the unusable window.
pub open spec fn is_writable(a: u16) -> bool {
    a >= 0x8000 && !is_unusable(a)
}

/// The echo window 0xE000..=0xFDFF mirrors 0xC000..=0xDDFF; every other
/// address is its own canonical address.
pub open spec fn canonical(a: u16) -> u16 {
    if 0xE000 <= a <= 0xFDFF {
        (a - 0x2000) as u16
    } else {
        a
    }
}

/// The abstract contents of the bus: one sequence per backing region.
pub struct BusView {
    pub rom: Seq<u8>,
    pub vram: Seq<u8>,
    pub external_ram: Seq<u8>,
    pub wram1: Seq<u8>,
    pub wram2: Seq<u8>,
    pub oam: Seq<u8>,
    pub io: Seq<u8>,
    pub high_ram: Seq<u8>,
    pub interrupt_enable: u8,
}

impl BusView {
    /// Every RAM region has its fixed size.
    pub open spec fn wf(self) -> bool {
        &&& self.vram.len() == VRAM_SIZE
        &&& self.external_ram.len() == EXTERNAL_RAM_SIZE
        &&& self.wram1.len() == WRAM_BANK_SIZE
        &&& self.wram2.len() == WRAM_BANK_SIZE
        &&& self.oam.len() == OAM_SIZE
        &&& self.io.len() == IO_SIZE
        &&& self.high_ram.len() == HIGH_RAM_SIZE
    }

    /// The byte of the cartridge image at `i`; bytes past the end of the image read as 0.
    pub open spec fn rom_byte(self, i: int) -> u8 {
        if 0 <= i < self.rom.len() {
            self.rom[i]
        } else {
            0
        }
    }

    /// The byte that a read of `a` yields.
    #[verifier::opaque]
    pub open spec fn read(self, a: u16) -> u8 {
        let c = canonical(a);
        if c <= 0x3FFF {
            self.rom_byte(c as int)
        } else if c <= 0x7FFF {
            0
        } else if c <= 0x9FFF {
            self.vram[c - 0x8000]
        } else if c <= 0xBFFF {
            self.external_ram[c - 0xA000]
        } else if c <= 0xCFFF {
            self.wram1[c - 0xC000]
        } else if c <= 0xDFFF {
            self.wram2[c - 0xD000]
        } else if c <= 0xFE9F {
            self.oam[c - 0xFE00]
        } else if c <= 0xFEFF {
            0
        } else if c <= 0xFF7F {
            self.io[c - 0xFF00]
        } else if c <= 0xFFFE {
            self.high_ram[c - 0xFF80]
        } else {
            self.interrupt_enable
        }
    }

    /// The contents after `d` is written at `a`.
    #[verifier::opaque]
    pub open spec fn write(self, a: u16, d: u8) -> BusView {
        let c = canonical(a);
        if c <= 0x7FFF {
            self
        } else if c <= 0x9FFF {
            BusView { vram: self.vram.update(c - 0x8000, d), ..self }
        } else if c <= 0xBFFF {
            BusView { external_ram: self.external_ram.update(c - 0xA000, d), ..self }
        } else if c <= 0xCFFF {
            BusView { wram1: self.wram1.update(c - 0xC000, d), ..self }
        } else if c <= 0xDFFF {
            BusView { wram2: self.wram2.update(c - 0xD000, d), ..self }
        } else if c <= 0xFE9F {
            BusView { oam: self.oam.update(c - 0xFE00, d), ..self }
        } else if c <= 0xFEFF {
            self
        } else if c <= 0xFF7F {
            BusView { io: self.io.update(c - 0xFF00, d), ..self }
        } else if c <= 0xFFFE {
            BusView { high_ram: self.high_ram.update(c - 0xFF80, d), ..self }
        } else {
            BusView { interrupt_enable: d, ..self }
        }
    }

    /// Little-endian word at `a`: low byte at `a`, high byte at `a + 1` (wrapping).
    pub open spec fn read_word(self, a: u16) -> u16 {
        (self.read(a) as int + 256 * self.read(wrap16(a + 1)) as int) as u16
    }

    /// The contents after the word `d` is written at `a`, low byte first.
    pub open spec fn write_word(self, a: u16, d: u16) -> BusView {
        self.write(a, (d % 256) as u8).write(wrap16(a + 1), (d / 256) as u8)
    }
}

/// The cartridge window shows the loaded image at every offset, and no write
/// changes what it shows.
pub proof fn lemma_rom_window(v: BusView, a: u16, w: u16, d: u8)
    requires
        a <= 0x3FFF,
        (a as int) < v.rom.len(),
    ensures
        v.read(a) == v.rom[a as int],
        v.write(w, d).read(a) == v.rom[a as int],
{
    reveal(BusView::read);
    reveal(BusView::write);
}

/// Reading a writable address right after writing a byte there yields that byte.
pub proof fn lemma_read_after_write(v: BusView, a: u16, d: u8)
    requires
        v.wf(),
        is_writable(a),
    ensures
        v.write(a, d).read(a) == d,
        v.write(a, d).wf(),
{
    reveal(BusView::read);
    reveal(BusView::write);
}

/// A write leaves every address that does not share its storage cell unchanged.
pub proof fn lemma_write_frame(v: BusView, a: u16, d: u8, b: u16)
    requires
        v.wf(),
        canonical(a) != canonical(b),
    ensures
        v.write(a, d).read(b) == v.read(b),
{
    reveal(BusView::read);
    reveal(BusView::write);
}

/// Reading a word right after writing it at two writable addresses yields that word.
pub proof fn lemma_read_word_after_write_word(v: BusView, a: u16, d: u16)
    requires
        v.wf(),
        is_writable(a),
        is_writable(wrap16(a + 1)),
    ensures
        v.write_word(a, d).read_word(a) == d,
{
    let b = wrap16(a + 1);
    let v1 = v.write(a, (d % 256) as u8);
    lemma_read_after_write(v, a, (d % 256) as u8);
    lemma_read_after_write(v1, b, (d / 256) as u8);
    lemma_write_frame(v1, b, (d / 256) as u8, a);
}

/// The OAM window shows the OAM region, and a write there updates it in place.
pub proof fn lemma_oam_access(v: BusView, i: int, d: u8)
    requires
        v.wf(),
        0 <= i < OAM_SIZE,
    ensures
        v.read((0xFE00 + i) as u16) == v.oam[i],
        v.write((0xFE00 + i) as u16, d) == (BusView { oam: v.oam.update(i, d), ..v }),
{
    reveal(BusView::read);
    reveal(BusView::write);
}

/// Reads outside the OAM window do not depend on the OAM region.
pub proof fn lemma_oam_frame(v: BusView, oam: Seq<u8>, a: u16)
    requires
        !(0xFE00 <= a <= 0xFE9F),
    ensures
        (BusView { oam: oam, ..v }).read(a) == v.read(a),
{
    reveal(BusView::read);
}

/// A block of RAM mapped at `base`.
pub struct WorkingRam {
    data: Vec<u8>,
    base: u16,
}

impl View for WorkingRam {
    type V = Seq<u8>;

    closed spec fn view(&self) -> Seq<u8> {
        self.data@
    }
}

impl WorkingRam {
    /// The address at which the block is mapped.
    pub closed spec fn base_address(&self) -> u16 {
        self.base
    }

    pub fn from_size(size: usize, b: u16) -> (r: WorkingRam)
        ensures
            r@ == Seq::new(size as nat, |_i: int| 0u8),
            r.base_address() == b,
    {
        let mut data: Vec<u8> = Vec::new();
        let mut i: usize = 0;
        while i < size
            invariant
                i <= size,
                data@ == Seq::new(i as nat, |_j: int| 0u8),
            decreases size - i,
        {
            data.push(0);
            i = i + 1;
        }
        WorkingRam { data, base: b }
    }

    /// The byte stored for `address`, which lies inside the block.
    pub fn get_byte(&self, address: u16) -> (r: u8)
        requires
            self.base_address() <= address,
            address - self.base_address() < self@.len(),
        ensures
            r == self@[address - self.base_address()],
    {
        let real_address = address - self.base;
        self.data[real_address as usize]
    }

    fn set_byte(&mut self, address: u16, data: u8)
        requires
            old(self).base_address() <= address,
            address - old(self).base_address() < old(self)@.len(),
        ensures
            final(self)@ == old(self)@.update(address - old(self).base_address(), data),
            final(self).base_address() == old(self).base_address(),
    {
        let real_address = address - self.base;
        self.data.set(real_address as usize, data);
    }
}

/// The whole address space of the console.
pub struct Bus {
    rom: Vec<u8>,
    vram: WorkingRam,
    external_ram: WorkingRam,
    wram1: WorkingRam,
    wram2: WorkingRam,
    oam: WorkingRam,
    io: WorkingRam,
    high_ram: WorkingRam,
    interrupt_enable_register: u8,
}

impl View for Bus {
    type V = BusView;

    closed spec fn view(&self) -> BusView {
        BusView {
            rom: self.rom@,
            vram: self.vram@,
            external_ram: self.external_ram@,
            wram1: self.wram1@,
            wram2: self.wram2@,
            oam: self.oam@,
            io: self.io@,
            high_ram: self.high_ram@,
            interrupt_enable: self.interrupt_enable_register,
        }
    }
}

impl Bus {
    /// Every region sits at its base address and has its fixed size.
    pub closed spec fn wf(&self) -> bool {
        &&& self@.wf()
        &&& self.vram.base_address() == 0x8000
        &&& self.external_ram.base_address() == 0xA000
        &&& self.wram1.base_address() == 0xC000
        &&& self.wram2.base_address() == 0xD000
        &&& self.oam.base_address() == 0xFE00
        &&& self.io.base_address() == 0xFF00
        &&& self.high_ram.base_address() == 0xFF80
    }

    /// A bus whose cartridge region holds `rom` and whose RAM is all zero.
    pub fn new_bus(rom: Vec<u8>) -> (r: Bus)
        ensures
            r.wf(),
            r@.wf(),
            r@.rom == rom@,
            forall|a: u16| 0x8000 <= a && !is_unusable(a) ==> #[trigger] r@.read(a) == 0,
    {
        reveal(BusView::read);
        Bus {
            rom,
            vram: WorkingRam::from_size(VRAM_SIZE, 0x8000),
            external_ram: WorkingRam::from_size(EXTERNAL_RAM_SIZE, 0xA000),
            wram1: WorkingRam::from_size(WRAM_BANK_SIZE, 0xC000),
            wram2: WorkingRam::from_size(WRAM_BANK_SIZE, 0xD000),
            oam: WorkingRam::from_size(OAM_SIZE, 0xFE00),
            io: WorkingRam::from_size(IO_SIZE, 0xFF00),
            high_ram: WorkingRam::from_size(HIGH_RAM_SIZE, 0xFF80),
            interrupt_enable_register: 0,
        }
    }

    /// Well-formedness of the bus carries over to its view.
    pub proof fn lemma_view_wf(&self)
        requires
            self.wf(),
        ensures
            self@.wf(),
    {
    }

    /// Reads the byte at `address`.
    pub fn fetch_byte(&self, address: u16) -> (r: u8)
        requires
            self.wf(),
            is_readable(address),
        ensures
            r == self@.read(address),
    {
        reveal(BusView::read);
        let c: u16 = if 0xE000 <= address && address <= 0xFDFF {
            address - 0x2000
        } else {
            address
        };
        if c <= 0x3FFF {
            if (c as usize) < self.rom.len() {
                self.rom[c as usize]
            } else {
                0
            }
        } else if c <= 0x7FFF {
            0
        } else if c <= 0x9FFF {
            self.vram.get_byte(c)
        } else if c <= 0xBFFF {
            self.external_ram.get_byte(c)
        } else if c <= 0xCFFF {
            self.wram1.get_byte(c)
        } else if c <= 0xDFFF {
            self.wram2.get_byte(c)
        } else if c <= 0xFE9F {
            self.oam.get_byte(c)
        } else if c <= 0xFF7F {
            self.io.get_byte(c)
        } else if c <= 0xFFFE {
            self.high_ram.get_byte(c)
        } else {
            self.interrupt_enable_register
        }
    }

    /// Writes `data` at `address`.
    pub fn set_byte(&mut self, address: u16, data: u8)
        requires
            old(self).wf(),
            is_writable(address),
        ensures
            final(self).wf(),
            final(self)@ == old(self)@.write(address, data),
    {
        reveal(BusView::write);
        let c: u16 = if 0xE000 <= address && address <= 0xFDFF {
            address - 0x2000
        } else {
            address
        };
        if c <= 0x9FFF {
            self.vram.set_byte(c, data);
        } else if c <= 0xBFFF {
            self.external_ram.set_byte(c, data);
        } else if c <= 0xCFFF {
            self.wram1.set_byte(c, data);
        } else if c <= 0xDFFF {
            self.wram2.set_byte(c, data);
        } else if c <= 0xFE9F {
            self.oam.set_byte(c, data);
        } else if c <= 0xFF7F {
            self.io.set_byte(c, data);
        } else if c <= 0xFFFE {
            self.high_ram.set_byte(c, data);
        } else {
            self.interrupt_enable_register = data;
        }
    }

    /// Reads the little-endian word at `address`.
    pub fn fetch_word(&self, address: u16) -> (r: u16)
        requires
            self.wf(),
            is_readable(address),
            is_readable(wrap16(address + 1)),
        ensures
            r == self@.read_word(address),
    {
        let low = self.fetch_byte(address);
        let high = self.fetch_byte(address.wrapping_add(1));
        low as u16 + 256 * (high as u16)
    }

    /// Writes the word `data` at `address`, low byte first.
    pub fn set_word(&mut self, address: u16, data: u16)
        requires
            old(self).wf(),
            is_writable(address),
            is_writable(wrap16(address + 1)),
        ensures
            final(self).wf(),
            final(self)@ == old(self)@.write_word(address, data),
    {
        self.set_byte(address, (data % 256) as u8);
        self.set_byte(address.wrapping_add(1), (data / 256) as u8);
    }
}

} // verus!
