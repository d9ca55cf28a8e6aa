use ccsnes::cpu::instructions::decode_opcode;
use ccsnes::cpu::registers::CpuRegisters;
use ccsnes::cpu::Cpu;
use ccsnes::error::EmulatorError;
use ccsnes::input::Controller;
use ccsnes::memory::mappers::hirom::HiROMMapper;
use ccsnes::memory::mappers::lorom::LoROMMapper;
use ccsnes::memory::Bus;
use ccsnes::Emulator;

#[test]
fn decode_is_total() {
    // Every byte decodes to a defined entry; decoding never fails.
    for op in 0..=255u8 {
        let info = decode_opcode(op);
        assert!(info.is_some());
        let i = info.unwrap();
        assert!(i.base_cycles >= 2 && i.base_cycles <= 8);
    }
}

#[test]
fn emulation_mode_forces_widths_after_status_rewrites() {
    // REP #$30 tries to clear both width flags; in emulation mode they
    // must read back as 8-bit immediately afterwards.
    let mut cpu = Cpu::new();
    let mut bus = Bus::new();
    assert!(cpu.get_registers().emulation_mode);
    bus.write8(0x8000, 0xC2); // REP
    bus.write8(0x8001, 0x30);
    cpu.get_registers_mut().pc = 0x8000;
    cpu.step(&mut bus).unwrap();
    assert!(cpu.get_registers().memory_width());
    assert!(cpu.get_registers().index_width());

    // The same holds after PLP.
    let mut cpu = Cpu::new();
    let mut bus = Bus::new();
    bus.write8(0x01FF, 0x00); // status byte with both widths clear
    cpu.get_registers_mut().s = 0x01FE;
    bus.write8(0x8000, 0x28); // PLP
    cpu.get_registers_mut().pc = 0x8000;
    cpu.step(&mut bus).unwrap();
    assert!(cpu.get_registers().memory_width());
    assert!(cpu.get_registers().index_width());
}

#[test]
fn emulation_mode_stack_stays_in_page_one() {
    // Pushing below the bottom of page 1 wraps back into page 1.
    let mut cpu = Cpu::new();
    let mut bus = Bus::new();
    cpu.get_registers_mut().s = 0x0100;
    bus.write8(0x8000, 0x48); // PHA
    cpu.get_registers_mut().pc = 0x8000;
    cpu.step(&mut bus).unwrap();
    assert_eq!(cpu.get_registers().s & 0xFF00, 0x0100);
    assert_eq!(cpu.get_registers().s, 0x01FF);

    // Popping above the top of page 1 wraps as well.
    let mut cpu = Cpu::new();
    let mut bus = Bus::new();
    cpu.get_registers_mut().s = 0x01FF;
    bus.write8(0x8000, 0x68); // PLA
    cpu.get_registers_mut().pc = 0x8000;
    cpu.step(&mut bus).unwrap();
    assert_eq!(cpu.get_registers().s & 0xFF00, 0x0100);
    assert_eq!(cpu.get_registers().s, 0x0100);
}

#[test]
fn scheduler_dma_steals_the_tick() {
    // A nonzero transfer-enable port: the transfer runs once, the port
    // reads back zero, and the processor executes no instruction.
    let mut emulator = Emulator::new().unwrap();
    emulator.resume();
    emulator.bus.write8(0x8000, 0xA9); // an instruction that must not run
    emulator.bus.write8(0x8001, 0x42);
    emulator.cpu.get_registers_mut().pc = 0x8000;
    emulator.bus.write8(0x420B, 0x01);
    let pc_before = emulator.cpu.registers.pc;
    let a_before = emulator.cpu.registers.a;
    emulator.step().unwrap();
    assert_eq!(emulator.bus.read8(0x420B), 0);
    assert_eq!(emulator.cpu.registers.pc, pc_before);
    assert_eq!(emulator.cpu.registers.a, a_before);
    assert_eq!(emulator.get_cycle_count(), 8); // setup overhead only

    // The next tick runs the instruction as usual.
    emulator.step().unwrap();
    assert_eq!(emulator.cpu.registers.pc, 0x8002);
    assert_eq!(emulator.cpu.get_registers().get_a(), 0x42);
}

#[test]
fn sbc_borrow_formula() {
    // 0x50 - 0x60 with carry set: result 0xF0, borrow taken.
    let mut cpu = Cpu::new();
    let mut bus = Bus::new();
    cpu.get_registers_mut().set_a(0x50);
    cpu.get_registers_mut().set_carry(true);
    bus.write8(0x8000, 0xE9); // SBC immediate
    bus.write8(0x8001, 0x60);
    cpu.get_registers_mut().pc = 0x8000;
    cpu.step(&mut bus).unwrap();
    assert_eq!(cpu.get_registers().get_a(), 0xF0);
    assert!(!cpu.get_registers().carry());
    assert!(cpu.get_registers().negative());
}

#[test]
fn compare_sets_carry_on_greater_or_equal() {
    let mut cpu = Cpu::new();
    let mut bus = Bus::new();
    cpu.get_registers_mut().set_a(0x40);
    bus.write8(0x8000, 0xC9); // CMP immediate
    bus.write8(0x8001, 0x40);
    cpu.get_registers_mut().pc = 0x8000;
    cpu.step(&mut bus).unwrap();
    assert!(cpu.get_registers().carry());
    assert!(cpu.get_registers().zero());
}

#[test]
fn undefined_width_registers_preserve_high_byte() {
    // An 8-bit accumulator write keeps the stored high byte, so a later
    // switch to 16 bits observes it again.
    let mut regs = CpuRegisters::new();
    regs.set_memory_width(false);
    regs.set_a(0x1234);
    regs.set_memory_width(true);
    regs.set_a(0x00AB);
    assert_eq!(regs.a, 0x12AB);
    regs.set_memory_width(false);
    assert_eq!(regs.get_a(), 0x12AB);
}

#[test]
fn controller_serialises_buttons_high_bit_first() {
    let mut pad = Controller::new();
    pad.set_state(0x8001);
    assert_eq!(pad.read(), 1); // bit 15 first
    for _ in 0..14 {
        assert_eq!(pad.read(), 0);
    }
    assert_eq!(pad.read(), 1); // bit 0 last
    assert_eq!(pad.read(), 1); // pads with ones afterwards
}

#[test]
fn lorom_and_hirom_mappings() {
    let lorom = LoROMMapper::new(0x8000, 0x2000);
    assert_eq!(lorom.map_address(0x008000), Some(0));
    assert_eq!(lorom.map_address(0x00FFFF), Some(0x7FFF));
    assert_eq!(lorom.map_address(0x808000), Some(0));
    assert_eq!(lorom.map_address(0x000000), None);
    assert_eq!(lorom.map_sram_address(0x700000), Some(0));

    let hirom = HiROMMapper::new(0x500000, 0x2000);
    assert_eq!(hirom.map_address(0x008000), Some(0x8000));
    assert_eq!(hirom.map_address(0x400000), Some(0x400000));
    assert_eq!(hirom.map_address(0xC00000), Some(0x400000));
    assert_eq!(hirom.map_sram_address(0x206000), Some(0));
}

#[test]
fn unsupported_mapper_is_rejected() {
    // A valid header naming an enhancement-chip mapping is refused.
    let mut rom = vec![0u8; 0x8000];
    let header_offset = 0x7FC0;
    for i in 0..21 {
        rom[header_offset + i] = b'A';
    }
    rom[header_offset + 0x15] = 0x23; // enhancement-chip map mode
    rom[header_offset + 0x17] = 8;
    rom[header_offset + 0x18] = 0;
    match ccsnes::cartridge::Cartridge::load(&rom) {
        Err(EmulatorError::InvalidMapperType(_)) => {},
        _ => panic!("expected the mapper to be refused"),
    }
}

#[test]
fn rom_too_small_is_rejected() {
    assert!(ccsnes::cartridge::CartridgeHeader::parse(&[0u8; 16]).is_err());
}

#[test]
fn wram_mirror_reads_back() {
    let mut bus = Bus::new();
    bus.write8(0x7E0042, 0x99);
    assert_eq!(bus.read8(0x000042), 0x99);
    bus.write8(0x00001F, 0x55);
    assert_eq!(bus.read8(0x7E001F), 0x55);
}

#[test]
fn undefined_asl_uses_operand_width_for_carry() {
    // In 8-bit mode the bit shifted out of an accumulator shift is bit
    // 7, so 0x80 shifts into the carry.
    let mut cpu = Cpu::new();
    let mut bus = Bus::new();
    cpu.get_registers_mut().set_a(0x80);
    bus.write8(0x8000, 0x0A); // ASL accumulator
    cpu.get_registers_mut().pc = 0x8000;
    cpu.step(&mut bus).unwrap();
    assert!(cpu.get_registers().carry());
    assert_eq!(cpu.get_registers().get_a(), 0x00);
    assert!(cpu.get_registers().zero());
}

#[test]
fn spc700_runs_its_boot_program() {
    let mut apu = ccsnes::apu::Apu::new();
    // The boot program begins by loading the stack pointer and filling
    // page zero; after a few steps the stack pointer reads 0xEF.
    for _ in 0..2 {
        apu.step();
    }
    assert_eq!(apu.spc700.sp, 0xEF);
}

#[test]
fn brk_uses_the_interface_vectors() {
    // Native mode: the software interrupt shares the maskable line's
    // vector at $FFEE.
    let mut cpu = Cpu::new();
    let mut bus = Bus::new();
    cpu.get_registers_mut().emulation_mode = false;
    bus.write16(0xFFEE, 0x9ABC);
    bus.write8(0x8000, 0x00); // software interrupt
    cpu.get_registers_mut().pc = 0x8000;
    cpu.step(&mut bus).unwrap();
    assert_eq!(cpu.get_registers().pc, 0x9ABC);
    assert!(cpu.get_registers().irq_disable());

    // Emulation mode: the shared vector at $FFFE.
    let mut cpu = Cpu::new();
    let mut bus = Bus::new();
    bus.write16(0xFFFE, 0x8765);
    bus.write8(0x8000, 0x00);
    cpu.get_registers_mut().pc = 0x8000;
    cpu.step(&mut bus).unwrap();
    assert_eq!(cpu.get_registers().pc, 0x8765);
}
