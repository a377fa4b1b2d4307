use venus::apu::counter::{Counter, Frame, FrameCounter, LengthCounter};
use venus::apu::Dmc;
use venus::memory::ROM;

#[test]
fn counter() {
    let period = 15;
    let mut counter = Counter::new(period);
    assert_eq!(counter.get_count(), period);
    assert_eq!(counter.get_period(), period);

    let mut decr = 1;
    counter.tick();
    while !counter.has_edge() {
        assert_eq!(counter.get_count(), period - decr);
        counter.tick();
        decr += 1;
    }
    assert_eq!(decr, period + 1);
    assert_eq!(counter.get_count(), period);

    decr = 1;
    counter.set_loop(false);
    while counter.get_count() != 0 {
        counter.tick();
        assert_eq!(counter.get_count(), period - decr);
        decr += 1;
    }
    assert_eq!(decr, period + 1);

    counter.clear();
    assert_eq!(counter.get_count(), 0);

    counter.set_reload();
    assert_eq!(counter.get_count(), 0);
    counter.tick();
    assert_eq!(counter.get_count(), period);
}

#[test]
fn length_counter() {
    let period = 15;
    let mut len_counter = LengthCounter::new(15);
    assert_eq!(len_counter.silenced(), false);

    len_counter.set_halt(true);
    len_counter.tick();
    assert_eq!(len_counter.counter.get_count(), period);

    len_counter.disable();
    assert_eq!(len_counter.silenced(), true);

    len_counter.tick();
    assert_eq!(len_counter.silenced(), true);
}

#[test]
fn frame_counter() {
    let mut frm_ctr = FrameCounter::new();
    assert_eq!(frm_ctr.get_number(), Frame::Quarter);

    frm_ctr.tick();
    assert_eq!(frm_ctr.get_number(), Frame::Half);

    frm_ctr.tick();
    assert_eq!(frm_ctr.get_number(), Frame::Quarter);

    frm_ctr.tick();
    assert_eq!(frm_ctr.get_number(), Frame::Interrupt);

    frm_ctr.tick();
    assert_eq!(frm_ctr.get_number(), Frame::Quarter);

    // Change to the next mode (end of cycle)
    frm_ctr.set_control(1 << FrameCounter::MODE_BIT);
    assert_eq!(frm_ctr.get_number(), Frame::Quarter);

    frm_ctr.tick();
    assert_eq!(frm_ctr.get_number(), Frame::Half);

    frm_ctr.tick();
    assert_eq!(frm_ctr.get_number(), Frame::Quarter);

    frm_ctr.tick();
    assert_eq!(frm_ctr.get_number(), Frame::Nothing);

    frm_ctr.tick();
    assert_eq!(frm_ctr.get_number(), Frame::Half);
}

#[test]
fn dmc() {}

#[test]
fn test_dmc() {}

#[test]
fn test_pulse() {}

const RATE: usize = 398 / 2;
const CHAR_BIT: usize = 8;
const NUM_HI: usize = RATE * CHAR_BIT * 8;
const NUM_LO: usize = RATE * CHAR_BIT * 9;

fn dmc_init() -> Dmc {
    let mut samples = vec![0xFF; 8];
    samples.append(&mut vec![0; 8]);
    samples.push(0);
    let samples = ROM::with_data(&samples);

    let mut dmc = Dmc::new(samples);

    // Sample length to 1 + 16 * 1 == 17
    dmc.register_write(3, 1);

    // Sample address == 0 * 64
    dmc.register_write(2, 0);

    dmc.enable(true);

    dmc
}

#[test]
fn dmc_loop_irq() {
    let mut dmc = dmc_init();

    for i in 0..(NUM_HI - RATE) {
        let val = dmc.clock() as usize;
        assert_eq!(val, 2 * (i / RATE + 1), "Mismatch on iteration {}", i);
    }

    // 63rd * <rate> clock will overflow past 127, so it will be "stuck" at 126
    for _ in 0..RATE {
        let val = dmc.clock();
        assert_eq!(val, 126);
    }

    // Set the loop flag so we can replay the sample. This must be set before the final sample
    // is read or else the it will not be restarted
    dmc.register_write(0, 0x40);

    for i in 0..NUM_LO {
        let val = dmc.clock();
        let (mut expected, overflowed) = 126_u8.overflowing_sub(2 * (i / RATE + 1) as u8);
        if overflowed {
            expected = 0
        }

        assert_eq!(val, expected, "Mismatch on iteration {}", i);
    }

    // Next samples shoud be reading the beginning back
    let val = dmc.clock();
    assert_eq!(val, 2);

    // Disable the loop, exhaust all samples and we should generate an IRQ. This should happen
    // when the bytes remaining counter is 0, not when the sample is exhausted
    dmc.register_write(0, 0x80);
    for _ in 0..(NUM_LO + NUM_HI) - 1 {
        let _ = dmc.clock();
    }

    assert_eq!(dmc.irq_raised, true);

    // Re-enable the DMC to begin again
    dmc.enable(true);
    let val = dmc.clock();
    assert_eq!(val, 2);
}

#[test]
fn dmc_no_loop_no_irq() {
    let mut dmc = dmc_init();

    for i in 0..(NUM_HI - RATE) {
        let val = dmc.clock() as usize;
        assert_eq!(val, 2 * (i / RATE + 1), "Mismatch on iteration {}", i);
    }

    // 63rd * <rate> clock will overflow past 127, so it will be "stuck" at 126
    for _ in 0..RATE {
        let val = dmc.clock();
        assert_eq!(val, 126);
    }

    for i in 0..NUM_LO - 1 {
        let val = dmc.clock();
        let (mut expected, overflowed) = 126_u8.overflowing_sub(2 * (i / RATE + 1) as u8);
        if overflowed {
            expected = 0
        }

        assert_eq!(val, expected, "Mismatch on iteration {}", i);
    }

    // Enable the IRQ and loop too late when the last byte has already been read. No IRQ should
    // be generated, and we should not loop
    dmc.register_write(0, 0xc0);
    for i in 0..(NUM_LO + NUM_HI) {
        let val = dmc.clock();
        assert_eq!(val, 0, "Mismatch on iteration {}", i);
    }

    assert_eq!(dmc.irq_raised, false);
}

#[test]
fn dmc_output_counter() {
    let mut dmc = dmc_init();
    dmc.register_write(0x1, 0x1);
    assert_eq!(dmc.register_read(0x1), 0x1);

    for _ in 0..RATE {
        let val = dmc.clock();
        assert_eq!(val, 3);

        // Since the sample is not updated every cycle, writing to the output counter should
        // not take effect until the sample is read at the end of the period
        dmc.register_write(0x1, 101);
    }

    let val = dmc.clock();
    assert_eq!(val, 103);
}
