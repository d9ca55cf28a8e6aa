use vstd::prelude::*;

verus! {

/// Failure cases surfaced by the emulator's fallible operations.
#[derive(Debug, Clone, PartialEq, Eq)]
pub enum EmulatorError {
    RomLoadError(String),
    InvalidRomFormat(String),
    InvalidMapperType(String),
    MemoryError(String),
    CpuError(String),
    PpuError(String),
    ApuError(String),
    SaveStateError(String),
    ConfigError(String),
    InputError(String),
    AudioError(String),
    VideoError(String),
}

impl EmulatorError {
    pub fn rom_load(msg: String) -> (r: Self)
        ensures
            r == EmulatorError::RomLoadError(msg),
    {
        EmulatorError::RomLoadError(msg)
    }

    pub fn invalid_rom(msg: String) -> (r: Self)
        ensures
            r == EmulatorError::InvalidRomFormat(msg),
    {
        EmulatorError::InvalidRomFormat(msg)
    }

    pub fn memory(msg: String) -> (r: Self)
        ensures
            r == EmulatorError::MemoryError(msg),
    {
        EmulatorError::MemoryError(msg)
    }

    pub fn cpu(msg: String) -> (r: Self)
        ensures
            r == EmulatorError::CpuError(msg),
    {
        EmulatorError::CpuError(msg)
    }

    pub fn ppu(msg: String) -> (r: Self)
        ensures
            r == EmulatorError::PpuError(msg),
    {
        EmulatorError::PpuError(msg)
    }

    pub fn apu(msg: String) -> (r: Self)
        ensures
            r == EmulatorError::ApuError(msg),
    {
        EmulatorError::ApuError(msg)
    }

    pub fn save_state(msg: String) -> (r: Self)
        ensures
            r == EmulatorError::SaveStateError(msg),
    {
        EmulatorError::SaveStateError(msg)
    }

    pub fn config(msg: String) -> (r: Self)
        ensures
            r == EmulatorError::ConfigError(msg),
    {
        EmulatorError::ConfigError(msg)
    }

    pub fn input(msg: String) -> (r: Self)
        ensures
            r == EmulatorError::InputError(msg),
    {
        EmulatorError::InputError(msg)
    }

    pub fn audio(msg: String) -> (r: Self)
        ensures
            r == EmulatorError::AudioError(msg),
    {
        EmulatorError::AudioError(msg)
    }

    pub fn video(msg: String) -> (r: Self)
        ensures
            r == EmulatorError::VideoError(msg),
    {
        EmulatorError::VideoError(msg)
    }
}

} // verus!
