use vstd::prelude::*;

use crate::cartridge::{Cartridge, CartridgeView};
use crate::dma::{Dma, DmaOp, fresh_op, DEST_BASE_ADDR, OP_DURATION, PAYLOAD_SIZE};
use crate::interrupts::{IntFlags, IrqHolder};
use crate::joypad::Joypad;
use crate::ppu::{Ppu, PpuView, OAM_BYTES};
use crate::serial::{Serial, SerialView};
use crate::timer::{Timer, TimerView};

verus! {

/// Length of work RAM.
pub const WRAM_LEN: usize = 0x2000;
/// Length of high RAM.
pub const HRAM_LEN: usize = 0x7F;

/// A byte of RAM that may not have been written yet.
#[derive(Debug, Clone, Copy, PartialEq, Eq, Structural)]
pub enum MaybeInitByte {
    Uninit,
    Init(u8),
}

/// The memory bus: routes CPU reads and writes to the cartridge, the PPU, RAM and the
/// I/O registers.
pub struct Bus {
    pub cartridge: Cartridge,
    pub ppu: Ppu,
    pub wram: Vec<MaybeInitByte>,
    pub hram: Vec<MaybeInitByte>,
    pub dma: Dma,
    pub irq_holder: IrqHolder,
    pub ie: IntFlags,
    pub timer: Timer,
    pub serial: Serial,
    pub joypad: Joypad,
    /// Lenient mode for state-log comparison: uninitialised RAM reads as zero and LY
    /// reads as 0x90.
    pub gameboy_doctor: bool,
}

/// The state of the bus and everything behind it.
pub struct BusView {
    pub cart: CartridgeView,
    pub ppu: PpuView,
    pub wram: Seq<MaybeInitByte>,
    pub hram: Seq<MaybeInitByte>,
    pub dma: Option<DmaOp>,
    pub irq: u8,
    pub ie: u8,
    pub timer: TimerView,
    pub serial: SerialView,
    pub joypad: u8,
    pub gameboy_doctor: bool,
}

impl View for Bus {
    type V = BusView;

    open spec fn view(&self) -> BusView {
        BusView {
            cart: self.cartridge@,
            ppu: self.ppu@,
            wram: self.wram@,
            hram: self.hram@,
            dma: self.dma@,
            irq: self.irq_holder@,
            ie: self.ie@,
            timer: self.timer@,
            serial: self.serial@,
            joypad: self.joypad@,
            gameboy_doctor: self.gameboy_doctor,
        }
    }
}

/// Whether `addr` is in high RAM, the only memory that stays usable during OAM DMA.
pub open spec fn is_hram(addr: u16) -> bool {
    0xFF80 <= addr < 0xFFFF
}

/// Whether `addr` is served by the cartridge.
pub open spec fn is_cart(addr: u16) -> bool {
    addr < 0x8000 || (0xA000 <= addr < 0xC000)
}

/// The value of a RAM byte; an unwritten byte reads as zero.
pub open spec fn ram_value(b: MaybeInitByte) -> u8 {
    match b {
        MaybeInitByte::Uninit => 0,
        MaybeInitByte::Init(v) => v,
    }
}

impl BusView {
    /// The invariant of the bus.
    pub open spec fn wf(self) -> bool {
        &&& self.wram.len() == WRAM_LEN
        &&& self.hram.len() == HRAM_LEN
        &&& self.ppu.wf()
    }

    /// Whether an OAM DMA transfer keeps the CPU from reaching `addr`.
    pub open spec fn blocked(self, addr: u16) -> bool {
        self.dma is Some && !is_hram(addr)
    }

    /// Whether a read of `addr` succeeds: the cartridge must serve it, unwritten RAM
    /// is refused outside Game Boy Doctor mode, and OAM DMA (0xFF46) cannot be read.
    pub open spec fn read_ok(self, addr: u16) -> bool {
        if self.blocked(addr) {
            true
        } else if is_cart(addr) {
            self.cart.mbc.read_ok(addr)
        } else if 0xC000 <= addr < 0xE000 {
            self.gameboy_doctor || self.wram[addr - 0xC000] is Init
        } else if addr == 0xFF46 {
            false
        } else if is_hram(addr) {
            self.gameboy_doctor || self.hram[addr - 0xFF80] is Init
        } else {
            true
        }
    }

    /// The value that a read of `addr` gives.
    #[verifier::opaque]
    pub open spec fn read(self, addr: u16) -> u8 {
        if self.blocked(addr) {
            0xFF
        } else if is_cart(addr) {
            self.cart.mbc.read(addr)
        } else if 0x8000 <= addr < 0xA000 {
            if self.ppu.vram_accessible() {
                self.ppu.vram[addr - 0x8000]
            } else {
                0xFF
            }
        } else if 0xC000 <= addr < 0xE000 {
            ram_value(self.wram[addr - 0xC000])
        } else if 0xFE00 <= addr < 0xFEA0 {
            if self.ppu.oam_accessible() {
                self.ppu.oam[addr - 0xFE00]
            } else {
                0xFF
            }
        } else if addr == 0xFF04 {
            self.timer.div()
        } else if addr == 0xFF05 {
            self.timer.tima
        } else if addr == 0xFF06 {
            self.timer.tma
        } else if addr == 0xFF07 {
            self.timer.tac
        } else if addr == 0xFF0F {
            self.irq
        } else if addr == 0xFF40 {
            self.ppu.lcdc
        } else if addr == 0xFF41 {
            self.ppu.stat_read()
        } else if addr == 0xFF42 {
            self.ppu.scroll_y
        } else if addr == 0xFF43 {
            self.ppu.scroll_x
        } else if addr == 0xFF44 {
            if self.gameboy_doctor {
                0x90
            } else {
                self.ppu.line
            }
        } else if addr == 0xFF45 {
            self.ppu.lyc
        } else if addr == 0xFF47 {
            self.ppu.bgp
        } else if addr == 0xFF48 {
            self.ppu.obp0
        } else if addr == 0xFF49 {
            self.ppu.obp1
        } else if addr == 0xFF4A {
            self.ppu.wx
        } else if addr == 0xFF4B {
            self.ppu.wy
        } else if is_hram(addr) {
            ram_value(self.hram[addr - 0xFF80])
        } else if addr == 0xFFFF {
            self.ie
        } else {
            0xFF
        }
    }

    /// Whether a write to `addr` succeeds: only the cartridge can refuse one.
    pub open spec fn write_ok(self, addr: u16) -> bool {
        !self.blocked(addr) && is_cart(addr) ==> self.cart.mbc.write_ok(addr)
    }

    /// The state after a write of `value` to `addr`. Writes that OAM DMA blocks, and
    /// writes to unmapped addresses, change nothing.
    #[verifier::opaque]
    pub open spec fn write(self, addr: u16, value: u8) -> BusView {
        if self.blocked(addr) {
            self
        } else if is_cart(addr) {
            BusView { cart: CartridgeView { mbc: self.cart.mbc.write(addr, value), ..self.cart }, ..self }
        } else if 0x8000 <= addr < 0xA000 {
            if self.ppu.vram_accessible() {
                BusView { ppu: PpuView { vram: self.ppu.vram.update(addr - 0x8000, value), ..self.ppu }, ..self }
            } else {
                self
            }
        } else if 0xC000 <= addr < 0xE000 {
            BusView { wram: self.wram.update(addr - 0xC000, MaybeInitByte::Init(value)), ..self }
        } else if 0xFE00 <= addr < 0xFEA0 {
            if self.ppu.oam_accessible() {
                BusView { ppu: PpuView { oam: self.ppu.oam.update(addr - 0xFE00, value), ..self.ppu }, ..self }
            } else {
                self
            }
        } else if addr == 0xFF04 {
            BusView { timer: self.timer.reset_div(), ..self }
        } else if addr == 0xFF05 {
            BusView { timer: self.timer.set_tima(value), ..self }
        } else if addr == 0xFF06 {
            BusView { timer: self.timer.set_tma(value), ..self }
        } else if addr == 0xFF07 {
            BusView { timer: self.timer.set_tac(value), ..self }
        } else if addr == 0xFF0F {
            BusView { irq: value, ..self }
        } else if addr == 0xFF40 {
            BusView { ppu: self.ppu.set_lcdc(value), ..self }
        } else if addr == 0xFF41 {
            BusView { ppu: PpuView { stat: value, ..self.ppu }, ..self }
        } else if addr == 0xFF42 {
            BusView { ppu: PpuView { scroll_y: value, ..self.ppu }, ..self }
        } else if addr == 0xFF43 {
            BusView { ppu: PpuView { scroll_x: value, ..self.ppu }, ..self }
        } else if addr == 0xFF45 {
            BusView { ppu: PpuView { lyc: value, ..self.ppu }, ..self }
        } else if addr == 0xFF46 {
            BusView { dma: Some(fresh_op((value * 0x100) as u16)), ..self }
        } else if addr == 0xFF47 {
            BusView { ppu: PpuView { bgp: value, ..self.ppu }, ..self }
        } else if addr == 0xFF48 {
            BusView { ppu: PpuView { obp0: value, ..self.ppu }, ..self }
        } else if addr == 0xFF49 {
            BusView { ppu: PpuView { obp1: value, ..self.ppu }, ..self }
        } else if addr == 0xFF4A {
            BusView { ppu: PpuView { wx: value, ..self.ppu }, ..self }
        } else if addr == 0xFF4B {
            BusView { ppu: PpuView { wy: value, ..self.ppu }, ..self }
        } else if is_hram(addr) {
            BusView { hram: self.hram.update(addr - 0xFF80, MaybeInitByte::Init(value)), ..self }
        } else if addr == 0xFFFF {
            BusView { ie: value, ..self }
        } else {
            self
        }
    }
}

impl BusView {
    /// The state after the first `n` bytes of an OAM DMA transfer from `src` have
    /// been copied, each read through the bus and written to OAM.
    pub open spec fn dma_copy(self, src: u16, n: nat) -> BusView
        decreases n,
    {
        if n == 0 {
            self
        } else {
            let prev = self.dma_copy(src, (n - 1) as nat);
            prev.write((DEST_BASE_ADDR + n - 1) as u16, prev.read((src + n - 1) as u16))
        }
    }

    /// Copying into OAM leaves the invariant, the idle DMA controller, and which
    /// reads succeed as they were.
    pub proof fn lemma_dma_copy_read_ok(self, src: u16, n: nat, addr: u16)
        requires
            self.wf(),
            self.dma is None,
            n <= PAYLOAD_SIZE,
        ensures
            self.dma_copy(src, n).wf(),
            self.dma_copy(src, n).dma is None,
            self.dma_copy(src, n).read_ok(addr) == self.read_ok(addr),
        decreases n,
    {
        reveal(BusView::write);
        if n > 0 {
            self.lemma_dma_copy_read_ok(src, (n - 1) as nat, addr);
        }
    }
}

impl Bus {
    /// A bus with fresh RAM (all unwritten), no DMA transfer and no interrupt enabled.
    pub fn new(
        cartridge: Cartridge,
        ppu: Ppu,
        irq_holder: IrqHolder,
        timer: Timer,
        serial: Serial,
        gameboy_doctor: bool,
        joypad: Joypad,
    ) -> (b: Self)
        requires
            ppu@.wf(),
        ensures
            b@.wf(),
            b@.cart == cartridge@,
            b@.ppu == ppu@,
            b@.wram == Seq::new(WRAM_LEN as nat, |i: int| MaybeInitByte::Uninit),
            b@.hram == Seq::new(HRAM_LEN as nat, |i: int| MaybeInitByte::Uninit),
            b@.dma is None,
            b@.irq == irq_holder@,
            b@.ie == 0,
            b@.timer == timer@,
            b@.serial == serial@,
            b@.joypad == joypad@,
            b@.gameboy_doctor == gameboy_doctor,
    {
        let wram = vec![MaybeInitByte::Uninit; WRAM_LEN];
        let hram = vec![MaybeInitByte::Uninit; HRAM_LEN];
        assert(wram@ =~= Seq::new(WRAM_LEN as nat, |i: int| MaybeInitByte::Uninit));
        assert(hram@ =~= Seq::new(HRAM_LEN as nat, |i: int| MaybeInitByte::Uninit));
        Self {
            cartridge,
            // This is a simplification, a real Game Boy would display the Nintendo logo and scroll
            // it downwards. However most ROMs should initialize VRAM themselves so it shouldn't
            // matter.
            ppu,
            wram,
            hram,
            dma: Dma::new(),
            irq_holder,
            ie: IntFlags::new(),
            timer,
            serial,
            joypad,
            gameboy_doctor,
        }
    }

    /// A CPU read of `addr`.
    pub fn read(&self, addr: u16) -> (r: u8)
        requires
            self@.wf(),
            self@.read_ok(addr),
        ensures
            r == self@.read(addr),
    {
        reveal(BusView::read);
        // reject any non-hram reads/writes while dma is working
        if self.dma.is_working() && !(0xFF80 <= addr && addr < 0xFFFF) {
            return 0xFF;
        }
        if addr < 0x8000 || (0xA000 <= addr && addr < 0xC000) {
            // cartridge ROM and RAM
            self.cartridge.read(addr)
        } else if addr < 0xA000 {
            // VRAM
            match self.ppu.vram() {
                Some(vram) => vram[(addr as usize) - 0x8000],
                None => 0xFF,
            }
        } else if addr < 0xE000 {
            // WRAM
            match self.wram[(addr as usize) - 0xC000] {
                MaybeInitByte::Uninit => 0x00,
                MaybeInitByte::Init(v) => v,
            }
        } else if 0xFE00 <= addr && addr < 0xFEA0 {
            // OAM
            match self.ppu.oam() {
                Some(oam) => oam[(addr as usize) - 0xFE00],
                None => 0xFF,
            }
        } else if addr == 0xFF04 {
            self.timer.div()
        } else if addr == 0xFF05 {
            self.timer.tima()
        } else if addr == 0xFF06 {
            self.timer.tma()
        } else if addr == 0xFF07 {
            self.timer.tac()
        } else if addr == 0xFF0F {
            self.irq_holder.as_if()
        } else if addr == 0xFF40 {
            self.ppu.lcdc()
        } else if addr == 0xFF41 {
            self.ppu.stat()
        } else if addr == 0xFF42 {
            self.ppu.scroll_y()
        } else if addr == 0xFF43 {
            self.ppu.scroll_x()
        } else if addr == 0xFF44 {
            // Gameboy Doctor compliance
            if self.gameboy_doctor {
                0x90
            } else {
                self.ppu.ly()
            }
        } else if addr == 0xFF45 {
            self.ppu.lyc()
        } else if addr == 0xFF47 {
            self.ppu.bgp()
        } else if addr == 0xFF48 {
            self.ppu.obp0()
        } else if addr == 0xFF49 {
            self.ppu.obp1()
        } else if addr == 0xFF4A {
            self.ppu.wx()
        } else if addr == 0xFF4B {
            self.ppu.wy()
        } else if 0xFF80 <= addr && addr < 0xFFFF {
            // HRAM
            match self.hram[(addr as usize) - 0xFF80] {
                MaybeInitByte::Uninit => 0x00,
                MaybeInitByte::Init(v) => v,
            }
        } else if addr == 0xFFFF {
            self.ie.into_bits()
        } else {
            0xFF
        }
    }

    /// A CPU write of `value` to `addr`.
    pub fn write(&mut self, addr: u16, value: u8)
        requires
            old(self)@.wf(),
            old(self)@.write_ok(addr),
        ensures
            final(self)@ == old(self)@.write(addr, value),
            final(self)@.wf(),
    {
        reveal(BusView::write);
        // reject any non-hram reads/writes while dma is working
        if self.dma.is_working() && !(0xFF80 <= addr && addr < 0xFFFF) {
            return ;
        }
        if addr < 0x8000 || (0xA000 <= addr && addr < 0xC000) {
            // cartridge ROM and RAM
            self.cartridge.write(addr, value);
        } else if addr < 0xA000 {
            // VRAM
            self.ppu.write_vram((addr as usize) - 0x8000, value);
        } else if addr < 0xE000 {
            // WRAM
            self.wram.set((addr as usize) - 0xC000, MaybeInitByte::Init(value));
        } else if 0xFE00 <= addr && addr < 0xFEA0 {
            // OAM
            self.ppu.write_oam((addr as usize) - 0xFE00, value);
        } else if addr == 0xFF04 {
            self.timer.reset_div();
        } else if addr == 0xFF05 {
            self.timer.set_tima(value);
        } else if addr == 0xFF06 {
            self.timer.set_tma(value);
        } else if addr == 0xFF07 {
            self.timer.set_tac(value);
        } else if addr == 0xFF0F {
            self.irq_holder = IrqHolder::from_bits(value);
        } else if addr == 0xFF40 {
            self.ppu.set_lcdc(value);
        } else if addr == 0xFF41 {
            self.ppu.set_stat(value);
        } else if addr == 0xFF42 {
            self.ppu.set_scroll_y(value);
        } else if addr == 0xFF43 {
            self.ppu.set_scroll_x(value);
        } else if addr == 0xFF45 {
            self.ppu.set_lyc(value);
        } else if addr == 0xFF46 {
            // OAM DMA
            self.dma.assign_op((value as u16) * 0x100);
        } else if addr == 0xFF47 {
            self.ppu.set_bgp(value);
        } else if addr == 0xFF48 {
            self.ppu.set_obp0(value);
        } else if addr == 0xFF49 {
            self.ppu.set_obp1(value);
        } else if addr == 0xFF4A {
            self.ppu.set_wx(value);
        } else if addr == 0xFF4B {
            self.ppu.set_wy(value);
        } else if 0xFF80 <= addr && addr < 0xFFFF {
            // HRAM
            self.hram.set((addr as usize) - 0xFF80, MaybeInitByte::Init(value));
        } else if addr == 0xFFFF {
            self.ie = IntFlags::from_bits(value);
        }
    }
}


impl Bus {
    /// Whether a read of `addr` succeeds.
    pub fn can_read(&self, addr: u16) -> (r: bool)
        requires
            self@.wf(),
        ensures
            r == self@.read_ok(addr),
    {
        if self.dma.is_working() && !(0xFF80 <= addr && addr < 0xFFFF) {
            true
        } else if addr < 0x8000 || (0xA000 <= addr && addr < 0xC000) {
            self.cartridge.can_read(addr)
        } else if 0xC000 <= addr && addr < 0xE000 {
            self.gameboy_doctor || match self.wram[(addr as usize) - 0xC000] {
                MaybeInitByte::Init(_) => true,
                MaybeInitByte::Uninit => false,
            }
        } else if addr == 0xFF46 {
            false
        } else if 0xFF80 <= addr && addr < 0xFFFF {
            self.gameboy_doctor || match self.hram[(addr as usize) - 0xFF80] {
                MaybeInitByte::Init(_) => true,
                MaybeInitByte::Uninit => false,
            }
        } else {
            true
        }
    }

    /// Whether a write to `addr` succeeds.
    pub fn can_write(&self, addr: u16) -> (r: bool)
        ensures
            r == self@.write_ok(addr),
    {
        if self.dma.is_working() && !(0xFF80 <= addr && addr < 0xFFFF) {
            true
        } else if addr < 0x8000 || (0xA000 <= addr && addr < 0xC000) {
            self.cartridge.can_write(addr)
        } else {
            true
        }
    }
}

/// Whether `addr` is an I/O register that reads back exactly the last value written
/// to it: TMA, IF, SCY, SCX, LYC, BGP, OBP0, OBP1, WX, WY and IE.
pub open spec fn is_plain_register(addr: u16) -> bool {
    ||| addr == 0xFF06
    ||| addr == 0xFF0F
    ||| addr == 0xFF42
    ||| addr == 0xFF43
    ||| addr == 0xFF45
    ||| 0xFF47 <= addr <= 0xFF4B
    ||| addr == 0xFFFF
}

/// Work RAM (while no OAM DMA transfer runs) and high RAM (always) read back the
/// value last written, and a write there changes what no other address reads.
pub proof fn lemma_ram_write_read(b: BusView, addr: u16, value: u8, other: u16)
    requires
        b.wf(),
        (0xC000 <= addr < 0xE000 && b.dma is None) || is_hram(addr),
        other != addr,
    ensures
        b.write(addr, value).wf(),
        b.write(addr, value).dma == b.dma,
        b.write_ok(addr),
        b.write(addr, value).read_ok(addr),
        b.write(addr, value).read(addr) == value,
        b.write(addr, value).read_ok(other) == b.read_ok(other),
        b.write(addr, value).read(other) == b.read(other),
{
    reveal(BusView::write);
    reveal(BusView::read);
}

/// The plain I/O registers read back the value last written, while no OAM DMA
/// transfer runs.
pub proof fn lemma_register_write_read(b: BusView, addr: u16, value: u8)
    requires
        b.wf(),
        b.dma is None,
        is_plain_register(addr),
    ensures
        b.write(addr, value).wf(),
        b.write(addr, value).read_ok(addr),
        b.write(addr, value).read(addr) == value,
{
    reveal(BusView::write);
    reveal(BusView::read);
}

/// VRAM and OAM read back what was written while the PPU leaves them open to the
/// CPU; while it locks them, they read as 0xFF and writes to them are dropped.
pub proof fn lemma_video_memory_write_read(b: BusView, addr: u16, value: u8)
    requires
        b.wf(),
        b.dma is None,
        (0x8000 <= addr < 0xA000) || (0xFE00 <= addr < 0xFEA0),
    ensures
        0x8000 <= addr < 0xA000 && b.ppu.vram_accessible() ==> b.write(addr, value).read(addr) == value,
        0xFE00 <= addr < 0xFEA0 && b.ppu.oam_accessible() ==> b.write(addr, value).read(addr) == value,
        0x8000 <= addr < 0xA000 && !b.ppu.vram_accessible() ==> b.read(addr) == 0xFF && b.write(addr, value)
            == b,
        0xFE00 <= addr < 0xFEA0 && !b.ppu.oam_accessible() ==> b.read(addr) == 0xFF && b.write(addr, value)
            == b,
{
    reveal(BusView::write);
    reveal(BusView::read);
}

/// While an OAM DMA transfer runs the CPU reaches only high RAM: every other
/// address reads as 0xFF, and writes to it change nothing.
pub proof fn lemma_dma_blocks(b: BusView, addr: u16, value: u8)
    requires
        b.dma is Some,
        !is_hram(addr),
    ensures
        b.read_ok(addr),
        b.read(addr) == 0xFF,
        b.write_ok(addr),
        b.write(addr, value) == b,
{
    reveal(BusView::write);
    reveal(BusView::read);
}

/// A write of `value` to 0xFF46 starts an OAM DMA transfer from `value * 0x100`
/// that runs for 640 T-cycles, and changes nothing else.
pub proof fn lemma_dma_start(b: BusView, value: u8)
    requires
        b.dma is None,
    ensures
        b.write(0xFF46, value) == (BusView {
            dma: Some(DmaOp { src_addr: (value * 0x100) as u16, remaining_cycles: OP_DURATION }),
            ..b
        }),
{
    reveal(BusView::write);
}

/// A completed OAM DMA transfer from a page boundary copies, byte for byte, what the
/// bus read at `src..src + n` into the first `n` bytes of OAM, and changes nothing
/// else, as long as the PPU leaves OAM open.
pub proof fn lemma_dma_copy_contents(b: BusView, src: u16, n: nat)
    requires
        b.wf(),
        b.dma is None,
        b.ppu.oam_accessible(),
        src % 0x100 == 0,
        src + PAYLOAD_SIZE <= 0x10000,
        n <= PAYLOAD_SIZE,
    ensures
        b.dma_copy(src, n).wf(),
        b.dma_copy(src, n) == (BusView { ppu: PpuView { oam: b.dma_copy(src, n).ppu.oam, ..b.ppu }, ..b }),
        forall|i: int| 0 <= i < n ==> #[trigger] b.dma_copy(src, n).ppu.oam[i] == b.read((src + i) as u16),
        forall|i: int| n <= i < OAM_BYTES ==> #[trigger] b.dma_copy(src, n).ppu.oam[i] == b.ppu.oam[i],
    decreases n,
{
    if n > 0 {
        let k = (n - 1) as nat;
        lemma_dma_copy_contents(b, src, k);
        let prev = b.dma_copy(src, k);
        let a = (src + k) as u16;
        assert(prev.read(a) == b.read(a)) by {
            reveal(BusView::read);
            if 0xFE00 <= a < 0xFEA0 {
                assert(src == 0xFE00);
                assert(prev.ppu.oam[k as int] == b.ppu.oam[k as int]);
            }
        }
        reveal(BusView::write);
        let next = b.dma_copy(src, n);
        assert(next == prev.write((DEST_BASE_ADDR + k) as u16, prev.read(a)));
        assert(next.ppu.oam == prev.ppu.oam.update(k as int, b.read(a)));
    }
}

} // verus!
