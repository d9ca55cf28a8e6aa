use ccsnes::savestate::SaveState;

#[test]
fn test_save_state_creation() {
    let state = SaveState::new();

    // Check that the state has default values
    assert_eq!(state.cpu.a, 0);
    assert_eq!(state.cpu.x, 0);
    assert_eq!(state.cpu.y, 0);
    assert_eq!(state.cpu.s, 0x01FF);
    assert_eq!(state.cpu.emulation_mode, true);

    assert_eq!(state.memory.wram.len(), 0x20000); // 128KB
    assert_eq!(state.apu.spc700.sp, 0xFF);
    assert_eq!(state.apu.spc700.pc, 0xFFC0);
}

#[test]
fn test_state_version_roundtrip() {
    let mut state = SaveState::new();
    assert!(state.check_version().is_ok());
    state.version = state.version + 1;
    assert!(state.check_version().is_err());
}
