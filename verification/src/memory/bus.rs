use vstd::prelude::*;
use crate::cartridge::loader::{zero_bytes, CartSnap, Cartridge};
use crate::input::Input;

verus! {

pub const WRAM_SIZE: usize = 0x20000;
pub const VRAM_SIZE: usize = 0x10000;
pub const OAM_SIZE: usize = 0x220;
pub const CGRAM_SIZE: usize = 0x200;

/// Bit-level bounds the address decoding rests on.
proof fn lemma_addr_mask_bounds()
    by (bit_vector)
    ensures
        forall|a: u32| #[trigger] (a & 0xFFFF) <= 0xFFFF,
        forall|a: u32| #[trigger] ((a >> 16) & 0xFF) <= 0xFF,
{
}

/// The system bus: the work RAM and register files every component sees,
/// plus the cartridge and the controller ports. The bus owns what it
/// routes to, so a read or write is an ordinary state change with no
/// shared mutable aliasing.
pub struct Bus {
    pub wram: Vec<u8>,
    pub vram: Vec<u8>,
    pub oam: Vec<u8>,
    pub cgram: Vec<u8>,
    pub ppu_regs: Vec<u8>,
    pub apu_regs: Vec<u8>,
    pub controller_regs: Vec<u8>,
    pub dma_regs: Vec<u8>,
    pub cartridge: Option<Cartridge>,
    pub input: Input,
    /// Bytes the audio unit last presented on its four ports.
    pub apu_out_ports: Vec<u8>,
    /// Bytes the processor last wrote towards the audio unit.
    pub apu_in_ports: Vec<u8>,
    pub apu_connected: bool,
}

/// Mathematical image of the bus.
pub struct BusSnap {
    pub wram: Seq<u8>,
    pub vram: Seq<u8>,
    pub oam: Seq<u8>,
    pub cgram: Seq<u8>,
    pub ppu_regs: Seq<u8>,
    pub apu_regs: Seq<u8>,
    pub controller_regs: Seq<u8>,
    pub dma_regs: Seq<u8>,
    pub cart: Option<CartSnap>,
    pub input: Input,
    pub apu_out_ports: Seq<u8>,
    pub apu_in_ports: Seq<u8>,
    pub apu_connected: bool,
}

impl View for Bus {
    type V = BusSnap;

    open spec fn view(&self) -> BusSnap {
        BusSnap {
            wram: self.wram@,
            vram: self.vram@,
            oam: self.oam@,
            cgram: self.cgram@,
            ppu_regs: self.ppu_regs@,
            apu_regs: self.apu_regs@,
            controller_regs: self.controller_regs@,
            dma_regs: self.dma_regs@,
            cart: match self.cartridge {
                Some(c) => Some(c@),
                None => None,
            },
            input: self.input,
            apu_out_ports: self.apu_out_ports@,
            apu_in_ports: self.apu_in_ports@,
            apu_connected: self.apu_connected,
        }
    }
}

impl BusSnap {
    /// The memory regions all have their hardware sizes.
    pub open spec fn wf(self) -> bool {
        &&& self.wram.len() == WRAM_SIZE
        &&& self.vram.len() == VRAM_SIZE
        &&& self.oam.len() == OAM_SIZE
        &&& self.cgram.len() == CGRAM_SIZE
        &&& self.ppu_regs.len() == 0x40
        &&& self.apu_regs.len() == 0x40
        &&& self.controller_regs.len() == 0x22
        &&& self.dma_regs.len() == 0x80
        &&& self.apu_out_ports.len() == 4
        &&& self.apu_in_ports.len() == 4
    }

    pub open spec fn cart_read(self, address: u32) -> u8 {
        match self.cart {
            Some(c) => c.read(address),
            None => 0,
        }
    }

    /// The value one read returns and the bus as the read leaves it;
    /// only the controller ports change under a read.
    pub open spec fn read8_full(self, address: u32) -> (u8, BusSnap) {
        let bank = (address >> 16) & 0xFF;
        let addr = address & 0xFFFF;
        if bank <= 0x3F || (0x80 <= bank <= 0xBF) {
            if addr <= 0x1FFF {
                (self.wram[addr as int], self)
            } else if 0x2100 <= addr <= 0x213F {
                (self.ppu_regs[addr - 0x2100], self)
            } else if 0x2140 <= addr <= 0x217F {
                if self.apu_connected {
                    if addr <= 0x2143 {
                        (self.apu_out_ports[addr - 0x2140], self)
                    } else {
                        (0u8, self)
                    }
                } else {
                    (self.apu_regs[addr - 0x2140], self)
                }
            } else if 0x4016 <= addr <= 0x4017 {
                let player: u8 = if addr == 0x4016 {
                    0
                } else {
                    1
                };
                let bit = if player == 0 {
                    self.input.controller1.spec_read_bit()
                } else {
                    self.input.controller2.spec_read_bit()
                };
                let input2 = if player == 0 {
                    Input { controller1: self.input.controller1.spec_after_read(), ..self.input }
                } else {
                    Input { controller2: self.input.controller2.spec_after_read(), ..self.input }
                };
                (bit, BusSnap { input: input2, ..self })
            } else if 0x4200 <= addr <= 0x421F {
                (self.controller_regs[addr - 0x4200 + 2], self)
            } else if 0x4300 <= addr <= 0x437F {
                (self.dma_regs[addr - 0x4300], self)
            } else {
                if self.cart is None && addr >= 0x8000 {
                    (self.wram[addr as int], self)
                } else {
                    (self.cart_read(address), self)
                }
            }
        } else if bank <= 0x7D {
            (self.cart_read(address), self)
        } else if bank == 0x7E {
            (self.wram[addr as int], self)
        } else if bank == 0x7F {
            (self.wram[0x10000 + addr], self)
        } else {
            (self.cart_read(address), self)
        }
    }

    pub open spec fn read16_full(self, address: u32) -> (u16, BusSnap) {
        let first = self.read8_full(address);
        let second = first.1.read8_full(address.wrapping_add(1));
        ((first.0 as u16) | ((second.0 as u16) << 8), second.1)
    }

    pub open spec fn read24_full(self, address: u32) -> (u32, BusSnap) {
        let low = self.read16_full(address);
        let high = low.1.read8_full(address.wrapping_add(2));
        ((low.0 as u32) | ((high.0 as u32) << 16), high.1)
    }

    /// The bus after one write. Writes to the controller strobe port
    /// reach both pads; cartridge writes land in save RAM.
    pub open spec fn write8_full(self, address: u32, value: u8) -> BusSnap {
        let bank = (address >> 16) & 0xFF;
        let addr = address & 0xFFFF;
        if bank <= 0x3F || (0x80 <= bank <= 0xBF) {
            if addr <= 0x1FFF {
                BusSnap { wram: self.wram.update(addr as int, value), ..self }
            } else if 0x2100 <= addr <= 0x213F {
                BusSnap { ppu_regs: self.ppu_regs.update(addr - 0x2100, value), ..self }
            } else if 0x2140 <= addr <= 0x217F {
                if self.apu_connected {
                    if addr <= 0x2143 {
                        BusSnap { apu_in_ports: self.apu_in_ports.update(addr - 0x2140, value), ..self }
                    } else {
                        self
                    }
                } else {
                    BusSnap { apu_regs: self.apu_regs.update(addr - 0x2140, value), ..self }
                }
            } else if addr == 0x4016 {
                let input2 = Input {
                    controller1: self.input.controller1.spec_strobe(value & 0x01 != 0),
                    controller2: self.input.controller2.spec_strobe(value & 0x01 != 0),
                };
                BusSnap {
                    input: input2,
                    controller_regs: self.controller_regs.update(0, value),
                    ..self
                }
            } else if addr == 0x4017 {
                BusSnap { controller_regs: self.controller_regs.update(1, value), ..self }
            } else if 0x4200 <= addr <= 0x421F {
                BusSnap { controller_regs: self.controller_regs.update(addr - 0x4200 + 2, value), ..self }
            } else if 0x4300 <= addr <= 0x437F {
                BusSnap { dma_regs: self.dma_regs.update(addr - 0x4300, value), ..self }
            } else {
                if self.cart is None && addr >= 0x8000 {
                    BusSnap { wram: self.wram.update(addr as int, value), ..self }
                } else {
                    self.cart_write(address, value)
                }
            }
        } else if bank <= 0x7D {
            self.cart_write(address, value)
        } else if bank == 0x7E {
            BusSnap { wram: self.wram.update(addr as int, value), ..self }
        } else if bank == 0x7F {
            BusSnap { wram: self.wram.update(0x10000 + addr, value), ..self }
        } else {
            self.cart_write(address, value)
        }
    }

    pub open spec fn cart_write(self, address: u32, value: u8) -> BusSnap {
        match self.cart {
            Some(c) => BusSnap { cart: Some(c.write(address, value)), ..self },
            None => self,
        }
    }

    pub open spec fn write16_full(self, address: u32, value: u16) -> BusSnap {
        self.write8_full(address, (value & 0xFF) as u8).write8_full(
            address.wrapping_add(1),
            (value >> 8) as u8,
        )
    }
}

impl Bus {
    /// A bus with all memory zeroed, no cartridge and idle controllers.
    pub fn new() -> (r: Self)
        ensures
            r@.wf(),
            r@.cart is None,
            !r@.apu_connected,
            r@.input.controller1 == crate::input::Controller::initial_state(),
            r@.input.controller2 == crate::input::Controller::initial_state(),
            forall|i: int| 0 <= i < WRAM_SIZE ==> r@.wram[i] == 0,
            forall|i: int| 0 <= i < 0x40 ==> r@.ppu_regs[i] == 0 && r@.apu_regs[i] == 0,
            forall|i: int| 0 <= i < 0x22 ==> r@.controller_regs[i] == 0,
            forall|i: int| 0 <= i < 0x80 ==> r@.dma_regs[i] == 0,
            forall|i: int| 0 <= i < 4 ==> r@.apu_out_ports[i] == 0 && r@.apu_in_ports[i] == 0,
    {
        Self {
            wram: zero_bytes(WRAM_SIZE),
            vram: zero_bytes(VRAM_SIZE),
            oam: zero_bytes(OAM_SIZE),
            cgram: zero_bytes(CGRAM_SIZE),
            ppu_regs: zero_bytes(0x40),
            apu_regs: zero_bytes(0x40),
            controller_regs: zero_bytes(0x22),
            dma_regs: zero_bytes(0x80),
            cartridge: None,
            input: Input::new(),
            apu_out_ports: zero_bytes(4),
            apu_in_ports: zero_bytes(4),
            apu_connected: false,
        }
    }

    /// Hands the bus a cartridge; it owns it from here on.
    pub fn install_cartridge(&mut self, cartridge: Cartridge)
        ensures
            *final(self) == (Bus { cartridge: Some(cartridge), ..*old(self) }),
    {
        self.cartridge = Some(cartridge);
    }

    /// Marks the audio unit present, routing port reads and writes to
    /// the port latches instead of the plain register file.
    pub fn connect_apu(&mut self)
        ensures
            *final(self) == (Bus { apu_connected: true, ..*old(self) }),
    {
        self.apu_connected = true;
    }

    pub fn read8(&mut self, address: u32) -> (r: u8)
        requires
            old(self)@.wf(),
        ensures
            (r, final(self)@) == old(self)@.read8_full(address),
            final(self)@.wf(),
    {
        proof {
            lemma_addr_mask_bounds();
        }
        let bank = (address >> 16) & 0xFF;
        let addr = address & 0xFFFF;
        if bank <= 0x3F || (0x80 <= bank && bank <= 0xBF) {
            if addr <= 0x1FFF {
                self.wram[addr as usize]
            } else if 0x2100 <= addr && addr <= 0x213F {
                self.ppu_regs[(addr - 0x2100) as usize]
            } else if 0x2140 <= addr && addr <= 0x217F {
                if self.apu_connected {
                    if addr <= 0x2143 {
                        self.apu_out_ports[(addr - 0x2140) as usize]
                    } else {
                        0
                    }
                } else {
                    self.apu_regs[(addr - 0x2140) as usize]
                }
            } else if 0x4016 <= addr && addr <= 0x4017 {
                let player: u8 = if addr == 0x4016 {
                    0
                } else {
                    1
                };
                self.input.read_controller(player)
            } else if 0x4200 <= addr && addr <= 0x421F {
                self.controller_regs[(addr - 0x4200 + 2) as usize]
            } else if 0x4300 <= addr && addr <= 0x437F {
                self.dma_regs[(addr - 0x4300) as usize]
            } else {
                if self.cartridge.is_none() && addr >= 0x8000 {
                    self.wram[addr as usize]
                } else {
                    self.read_cartridge(address)
                }
            }
        } else if bank <= 0x7D {
            self.read_cartridge(address)
        } else if bank == 0x7E {
            self.wram[addr as usize]
        } else if bank == 0x7F {
            self.wram[(0x10000 + addr) as usize]
        } else {
            self.read_cartridge(address)
        }
    }

    pub fn write8(&mut self, address: u32, value: u8)
        requires
            old(self)@.wf(),
        ensures
            final(self)@ == old(self)@.write8_full(address, value),
            final(self)@.wf(),
    {
        proof {
            lemma_addr_mask_bounds();
        }
        let bank = (address >> 16) & 0xFF;
        let addr = address & 0xFFFF;
        if bank <= 0x3F || (0x80 <= bank && bank <= 0xBF) {
            if addr <= 0x1FFF {
                self.wram[addr as usize] = value;
            } else if 0x2100 <= addr && addr <= 0x213F {
                self.ppu_regs[(addr - 0x2100) as usize] = value;
            } else if 0x2140 <= addr && addr <= 0x217F {
                if self.apu_connected {
                    if addr <= 0x2143 {
                        self.apu_in_ports[(addr - 0x2140) as usize] = value;
                    }
                } else {
                    self.apu_regs[(addr - 0x2140) as usize] = value;
                }
            } else if addr == 0x4016 {
                self.input.strobe_controllers((value & 0x01) != 0);
                self.controller_regs[0] = value;
            } else if addr == 0x4017 {
                self.controller_regs[1] = value;
            } else if 0x4200 <= addr && addr <= 0x421F {
                self.controller_regs[(addr - 0x4200 + 2) as usize] = value;
            } else if 0x4300 <= addr && addr <= 0x437F {
                self.dma_regs[(addr - 0x4300) as usize] = value;
            } else {
                if self.cartridge.is_none() && addr >= 0x8000 {
                    self.wram[addr as usize] = value;
                } else {
                    self.write_cartridge(address, value);
                }
            }
        } else if bank <= 0x7D {
            self.write_cartridge(address, value);
        } else if bank == 0x7E {
            self.wram[addr as usize] = value;
        } else if bank == 0x7F {
            self.wram[(0x10000 + addr) as usize] = value;
        } else {
            self.write_cartridge(address, value);
        }
    }

    pub fn read16(&mut self, address: u32) -> (r: u16)
        requires
            old(self)@.wf(),
        ensures
            (r, final(self)@) == old(self)@.read16_full(address),
            final(self)@.wf(),
    {
        let low = self.read8(address) as u16;
        let high = self.read8(address.wrapping_add(1)) as u16;
        low | (high << 8)
    }

    pub fn write16(&mut self, address: u32, value: u16)
        requires
            old(self)@.wf(),
        ensures
            final(self)@ == old(self)@.write16_full(address, value),
            final(self)@.wf(),
    {
        self.write8(address, (value & 0xFF) as u8);
        self.write8(address.wrapping_add(1), (value >> 8) as u8);
    }

    pub fn read24(&mut self, address: u32) -> (r: u32)
        requires
            old(self)@.wf(),
        ensures
            (r, final(self)@) == old(self)@.read24_full(address),
            final(self)@.wf(),
    {
        let low = self.read16(address) as u32;
        let high = self.read8(address.wrapping_add(2)) as u32;
        low | (high << 16)
    }

    fn read_cartridge(&mut self, address: u32) -> (r: u8)
        ensures
            r == old(self)@.cart_read(address),
            *final(self) == *old(self),
    {
        match &self.cartridge {
            Some(cartridge) => cartridge.read(address),
            None => 0,
        }
    }

    fn write_cartridge(&mut self, address: u32, value: u8)
        ensures
            final(self)@ == old(self)@.cart_write(address, value),
            final(self).wram == old(self).wram,
            final(self).vram == old(self).vram,
            final(self).oam == old(self).oam,
            final(self).cgram == old(self).cgram,
            final(self).ppu_regs == old(self).ppu_regs,
            final(self).apu_regs == old(self).apu_regs,
            final(self).controller_regs == old(self).controller_regs,
            final(self).dma_regs == old(self).dma_regs,
            final(self).input == old(self).input,
    {
        match &mut self.cartridge {
            Some(cartridge) => cartridge.write(address, value),
            None => {},
        }
    }

    // Direct access for the picture unit and the frontends.
    pub fn vram(&self) -> (r: &[u8])
        ensures
            r@ == self@.vram,
    {
        self.vram.as_slice()
    }

    pub fn oam(&self) -> (r: &[u8])
        ensures
            r@ == self@.oam,
    {
        self.oam.as_slice()
    }

    pub fn cgram(&self) -> (r: &[u8])
        ensures
            r@ == self@.cgram,
    {
        self.cgram.as_slice()
    }

    /// A cached picture-unit register byte.
    pub fn ppu_register(&self, addr: u16) -> (r: u8)
        requires
            self@.wf(),
        ensures
            r == (if 0x2100 <= addr <= 0x213F {
                self@.ppu_regs[addr - 0x2100]
            } else {
                0u8
            }),
    {
        if 0x2100 <= addr && addr <= 0x213F {
            self.ppu_regs[(addr - 0x2100) as usize]
        } else {
            0
        }
    }

    pub fn set_ppu_register(&mut self, addr: u16, value: u8)
        requires
            old(self)@.wf(),
        ensures
            final(self)@.wf(),
            0x2100 <= addr <= 0x213F ==> final(self)@ == (BusSnap {
                ppu_regs: old(self)@.ppu_regs.update(addr - 0x2100, value),
                ..old(self)@
            }),
            !(0x2100 <= addr <= 0x213F) ==> *final(self) == *old(self),
    {
        if 0x2100 <= addr && addr <= 0x213F {
            self.ppu_regs[(addr - 0x2100) as usize] = value;
        }
    }
}

} // verus!
