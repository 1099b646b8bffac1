use rustos::preempt::{Threads, SPSR_EL1H};
use rustos::timer::{init, irq_id, rust_irq_handler, timer_reload, GicState, TimerState, IRQ_CNTPNS};

fn demo_threads() -> Threads {
    Threads::init(0x4100_4000, 0x4100_8000, 0x1000, 0x2000)
}

#[test]
fn gic_init_programs_all_control_registers() {
    let mut gic = GicState::new();
    gic.init();
    assert_eq!(gic.distributor_ctrl, 1);
    assert_eq!(gic.cpu_ctrl, 1);
    assert_eq!(gic.priority_mask, 0xFF);
    assert_eq!(gic.enabled, 1u32 << IRQ_CNTPNS);
    assert_eq!(gic.priorities[IRQ_CNTPNS as usize], 0x80);
    assert_eq!(gic.targets[IRQ_CNTPNS as usize], 0x01);
}

#[test]
fn gic_enable_irq_ignores_spi_range() {
    let mut gic = GicState::new();
    gic.enable_irq(32);
    assert_eq!(gic.enabled, 0);
    gic.enable_irq(5);
    assert_eq!(gic.enabled, 1 << 5);
    assert_eq!(gic.priorities[5], 0x80);
}

#[test]
fn irq_id_takes_low_ten_bits() {
    assert_eq!(irq_id(30), 30);
    assert_eq!(irq_id(0xFFFF_FFFF), 0x3FF);
    assert_eq!(irq_id(0x400 | 30), 30);
}

#[test]
fn timer_reload_is_tenth_of_frequency() {
    assert_eq!(timer_reload(62_500_000), 6_250_000);
    assert_eq!(timer_reload(0), 0);
    assert_eq!(timer_reload(19), 1);
}

#[test]
fn timer_init_stores_frequency_and_configures_gic() {
    let mut timer = TimerState::new();
    let mut gic = GicState::new();
    let tval = init(&mut timer, &mut gic, 62_500_000);
    assert_eq!(tval, 6_250_000);
    assert_eq!(timer.ticks(), 0);
    assert_eq!(gic.distributor_ctrl, 1);
    assert_eq!(gic.enabled, 1u32 << IRQ_CNTPNS);
}

#[test]
fn timer_scheduling_cadence() {
    // Ten synthetic timer interrupts: the running thread flips after the
    // fifth and the tenth, the tick counter reaches ten.
    let mut timer = TimerState::new();
    let mut gic = GicState::new();
    let _ = init(&mut timer, &mut gic, 62_500_000);
    let mut threads = demo_threads();
    assert_eq!(threads.current_index(), 0);
    for n in 1u64..=10 {
        let before = threads.current_index();
        let out = rust_irq_handler(&mut timer, &mut threads, 30);
        assert_eq!(out.eoi, 30);
        assert_eq!(out.reload, Some(6_250_000));
        if n % 5 == 0 {
            assert!(out.switched);
            assert_ne!(threads.current_index(), before);
        } else {
            assert!(!out.switched);
            assert_eq!(threads.current_index(), before);
        }
        assert_eq!(out.resume, threads.current_index());
    }
    assert_eq!(timer.ticks(), 10);
    assert_eq!(threads.current_index(), 0);
}

#[test]
fn irq_handler_ignores_unknown_ids() {
    let mut timer = TimerState::new();
    let mut threads = demo_threads();
    let out = rust_irq_handler(&mut timer, &mut threads, 27);
    assert_eq!(out.eoi, 27);
    assert!(!out.switched);
    assert_eq!(out.reload, None);
    assert_eq!(timer.ticks(), 0);
    assert_eq!(threads.current_index(), 0);
    assert_eq!(out.resume, 0);
}

#[test]
fn irq_handler_without_frequency_skips_reload() {
    let mut timer = TimerState::new();
    let mut threads = demo_threads();
    let out = rust_irq_handler(&mut timer, &mut threads, 30);
    assert_eq!(out.reload, None);
    assert_eq!(timer.ticks(), 1);
}

#[test]
fn thread_contexts_start_at_stack_tops() {
    let threads = demo_threads();
    let c0 = threads.first_context();
    assert_eq!(c0.sp, 0x4100_4000);
    assert_eq!(c0.elr, 0x1000);
    assert_eq!(c0.spsr, SPSR_EL1H);
    assert!(c0.x.iter().all(|&r| r == 0));
    let c1 = threads.context_of(1);
    assert_eq!(c1.sp, 0x4100_8000);
    assert_eq!(c1.elr, 0x2000);
    assert_eq!(c1.spsr, SPSR_EL1H);
}

#[test]
fn switch_next_round_robins() {
    let mut threads = demo_threads();
    assert_eq!(threads.switch_next(), 1);
    assert_eq!(threads.current_index(), 1);
    assert_eq!(threads.switch_next(), 0);
    assert_eq!(threads.current_index(), 0);
    // Contexts survive switching.
    assert_eq!(threads.first_context().sp, 0x4100_4000);
}

#[test]
fn tick_counter_is_monotonic_across_interrupt_bursts() {
    let mut timer = TimerState::new();
    let mut threads = demo_threads();
    let mut last = timer.ticks();
    for iar in [30u32, 27, 30, 30, 1023, 30, 30] {
        let _ = rust_irq_handler(&mut timer, &mut threads, iar);
        assert!(timer.ticks() >= last);
        last = timer.ticks();
    }
    assert_eq!(last, 5);
}
