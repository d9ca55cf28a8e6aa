use ccsnes::apu::Apu;

#[test]
fn test_apu_communication_ports() {
    let mut apu = Apu::new();

    // The APU communication works through two separate port sets: the
    // main processor writes one side and reads back what the audio
    // processor has presented on the other, so a fresh unit reads zero.
    apu.write_port(0, 0xAA);
    apu.write_port(1, 0xBB);
    apu.write_port(2, 0xCC);
    apu.write_port(3, 0xDD);

    assert_eq!(apu.read_port(0), 0);
    assert_eq!(apu.read_port(1), 0);
    assert_eq!(apu.read_port(2), 0);
    assert_eq!(apu.read_port(3), 0);
}

#[test]
fn test_apu_dsp_register_access() {
    let mut apu = Apu::new();

    apu.reset();

    for _ in 0..10 {
        apu.step();
    }

    // Samples accrue one per 32 audio cycles; after a few steps the
    // count is whatever the boot program's timing yields.
    let samples = apu.take_pending_samples();
    assert!(samples == 0 || samples > 0);
}
