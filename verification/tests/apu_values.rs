use venus::apu::counter::Sampled;
use venus::apu::pulse::{PulseSequencer, Sweep};
use venus::apu::triangle::TriangleSequencer;
use venus::apu::{LengthCounter, SweepUnit};

#[test]
fn length_table_values() {
    let mut len = LengthCounter::default();
    len.load(0);
    assert_eq!(len.counter, 10);
    len.load(1);
    assert_eq!(len.counter, 254);
    len.load(24);
    assert_eq!(len.counter, 192);
    len.load(31);
    assert_eq!(len.counter, 30);
}

#[test]
fn sweep_target_periods() {
    let mut sweep = Sweep::new();
    assert_eq!(sweep.update_tgt_period(100, 0), 200);
    let mut down = Sweep { negate: true, shift: 1, ..Sweep::new() };
    assert_eq!(down.update_tgt_period(100, 1), 49);
    let mut off = Sweep { enabled: false, ..Sweep::new() };
    assert_eq!(off.update_tgt_period(100, 0), 0);
}

#[test]
fn sweep_unit_shift() {
    let mut unit = SweepUnit::default();
    unit.shift = 2;
    assert_eq!(unit.shift(0x100), 0x140);
    unit.negate_flag = true;
    assert_eq!(unit.shift(0x100), 0xC0);
}

#[test]
fn triangle_wave_steps() {
    let mut seq = TriangleSequencer::new();
    let mut levels = Vec::new();
    for _ in 0..34 {
        levels.push(seq.sample());
        seq.tick();
    }
    assert_eq!(levels[0], 15);
    assert_eq!(levels[15], 0);
    assert_eq!(levels[16], 0);
    assert_eq!(levels[31], 15);
    assert_eq!(levels[32], 15);
}

#[test]
fn pulse_duty_sequences() {
    let mut seq = PulseSequencer::new();
    seq.set_duty_cycle(1);
    let mut levels = Vec::new();
    for _ in 0..8 {
        levels.push(seq.sample());
        seq.clock();
    }
    assert_eq!(levels, vec![0, 1, 0, 0, 0, 0, 0, 0]);
    seq.set_duty_cycle(2);
    assert_eq!(seq.sample(), 0);
    seq.clock();
    assert_eq!(seq.sample(), 1);
    seq.clock();
    assert_eq!(seq.sample(), 1);
    seq.clock();
    assert_eq!(seq.sample(), 0);
}
