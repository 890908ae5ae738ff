use lib::aarch64::context::Aarch64Context;
use lib::aarch64::interrupts::{GicStub, GIC_LINES, TIMER_PPI};
use lib::aarch64::timer::{timer_irq_handler, GenericTimer};

#[test]
fn aarch64_initial_frame_layout() {
    let f = Aarch64Context.initial_frame(0x4010_0008, 0x4000_1234);
    assert_eq!(f.sp, 0x4010_0000 - 96);
    assert_eq!(f.sp % 16, 0);
    assert_eq!(f.words.len(), 12);
    for i in 0..11 {
        assert_eq!(f.words[i], 0);
    }
    assert_eq!(f.words[11], 0x4000_1234);
}

#[test]
fn gic_handlers_cover_256_lines() {
    let mut g: GicStub<u8> = GicStub::new();
    g.register_handler(TIMER_PPI, 1);
    g.register_handler(255, 2);
    g.register_handler(GIC_LINES as u32, 3);
    assert_eq!(g.dispatch(30), Some(1));
    assert_eq!(g.dispatch(255), Some(2));
    assert_eq!(g.dispatch(256), None);
    g.unregister_handler(30);
    assert_eq!(g.dispatch(30), None);
}

#[test]
fn freq_defaults_when_register_reads_zero() {
    assert_eq!(GenericTimer::freq(0), 1_000_000);
    assert_eq!(GenericTimer::freq(62_500_000), 62_500_000);
}

#[test]
fn counter_to_ns_converts_at_frequency() {
    assert_eq!(GenericTimer::counter_to_ns(62_500_000, 62_500_000), 1_000_000_000);
    assert_eq!(GenericTimer::counter_to_ns(1, 1_000_000), 1_000);
    assert_eq!(GenericTimer::counter_to_ns(0, 19_200_000), 0);
}

#[test]
fn counter_to_ns_saturates() {
    assert_eq!(GenericTimer::counter_to_ns(u64::MAX, 1), u64::MAX);
    assert_eq!(GenericTimer::counter_to_ns(u64::MAX, 1_000_000), u64::MAX / 1_000_000);
}

#[test]
fn counter_to_ns_is_monotonic() {
    let f = 19_200_000;
    let mut prev = 0;
    for c in [0u64, 1, 1000, 19_200_000, 1 << 40, 1 << 62, u64::MAX] {
        let ns = GenericTimer::counter_to_ns(c, f);
        assert!(ns >= prev);
        prev = ns;
    }
}

#[test]
fn period_ticks_is_a_hundredth_second() {
    assert_eq!(GenericTimer::period_ticks(62_500_000), 625_000);
    assert_eq!(GenericTimer::period_ticks(1_000_000), 10_000);
}

#[test]
fn timer_irq_counts_and_rearms() {
    let mut ticks = 0u64;
    assert_eq!(timer_irq_handler(&mut ticks, 0), 10_000);
    assert_eq!(ticks, 1);
    assert_eq!(timer_irq_handler(&mut ticks, 62_500_000), 625_000);
    assert_eq!(ticks, 2);
    let mut full = u64::MAX;
    timer_irq_handler(&mut full, 0);
    assert_eq!(full, 0);
}

#[test]
fn period_for_ns_converts_and_zero_disables() {
    assert_eq!(GenericTimer::period_for_ns(62_500_000, 0), None);
    assert_eq!(GenericTimer::period_for_ns(62_500_000, 10_000_000), Some(625_000));
    assert_eq!(GenericTimer::period_for_ns(1_000_000, 1_000), Some(1));
    assert_eq!(GenericTimer::period_for_ns(u64::MAX, u64::MAX), Some(u64::MAX));
}
