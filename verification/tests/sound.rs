use tgbr::apu::pulse::Pulse;

#[test]
fn sweep_moves_frequency_when_timer_runs_out() {
    let mut p = Pulse::new(true);
    p.on = true;
    p.sweep_enable = true;
    p.sweep_period = 2;
    p.sweep_shift = 1;
    p.sweep_negate = false;
    p.current_frequency = 0x100;
    p.frequency = 0x100;
    p.sweep_timer = 1;
    p.sweep_tick();
    assert_eq!(p.sweep_timer, 2);
    assert_eq!(p.frequency, 0x180);
    assert_eq!(p.current_frequency, 0x180);
    assert!(p.on);
    p.sweep_tick();
    assert_eq!(p.sweep_timer, 1);
    assert_eq!(p.frequency, 0x180);
}

#[test]
fn sweep_overflow_stops_channel() {
    let mut p = Pulse::new(true);
    p.on = true;
    p.sweep_enable = true;
    p.sweep_period = 1;
    p.sweep_shift = 1;
    p.current_frequency = 0x600;
    p.frequency = 0x600;
    p.sweep_timer = 1;
    p.sweep_tick();
    // 0x600 + 0x300 overflows: the frequency stays and the channel stops
    assert_eq!(p.frequency, 0x600);
    assert!(!p.on);
    assert_eq!(p.sweep_timer, 1);
}

#[test]
fn power_cycle_reads_nr52() {
    let mut a = tgbr::apu::Apu::new();
    assert_eq!(a.read(0xFF26), 0x70);
    a.write(0xFF26, 0x80);
    assert_eq!(a.read(0xFF26), 0xF0);
    a.write(0xFF24, 0x77);
    assert_eq!(a.read(0xFF24), 0x77);
    a.write(0xFF26, 0x00);
    assert_eq!(a.read(0xFF26), 0x70);
    assert_eq!(a.read(0xFF24), 0x00);
}

#[test]
fn sample_mixes_a_playing_square_channel() {
    let mut a = tgbr::apu::Apu::new();
    a.write(0xFF26, 0x80);
    a.write(0xFF24, 0x77);
    a.write(0xFF25, 0x11);
    a.write(0xFF11, 0x80);
    a.write(0xFF12, 0xF0);
    a.write(0xFF13, 0x00);
    a.write(0xFF14, 0x87);
    assert_eq!(a.read(0xFF26) & 0x01, 0x01);
    for _ in 0..87 {
        a.tick();
    }
    assert_eq!(a.audio_buffer.samples.len(), 0);
    a.tick();
    assert_eq!(a.audio_buffer.samples.len(), 1);
    let s = a.audio_buffer.samples[0];
    assert!(s.left == 7496 || s.left == -7496);
    assert_eq!(s.left, s.right);
}

#[test]
fn nrx4_reads_back_after_nrx1_write() {
    let mut a = tgbr::apu::Apu::new();
    a.write(0xFF26, 0x80);
    a.write(0xFF14, 0x40);
    a.write(0xFF11, 0xC5);
    assert_eq!(a.read(0xFF14), 0xFF);
    assert_eq!(a.read(0xFF11), 0xFF);
    a.write(0xFF19, 0x00);
    a.write(0xFF16, 0x41);
    assert_eq!(a.read(0xFF19), 0xBF);
    assert_eq!(a.read(0xFF16), 0x7F);
    assert_eq!(a.read(0xFF13), 0xFF);
}

#[test]
fn power_off_keeps_length_counters() {
    let mut a = tgbr::apu::Apu::new();
    a.write(0xFF26, 0x80);
    a.write(0xFF11, 0x3F);
    let before = a.pulse1.length;
    a.write(0xFF26, 0x00);
    assert_eq!(a.pulse1.length, before);
    assert_eq!(a.read(0xFF24), 0x00);
    assert_eq!(a.read(0xFF25), 0x00);
}
