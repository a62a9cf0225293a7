use usb_uart_bridge::activity::ActivityState;
use usb_uart_bridge::session::{SessionPhase, UsbCdcSession};
use usb_uart_bridge::uart_regs::{is_readable, is_tx_full, read_byte, write_byte, RXFE_BIT, TXFF_BIT};
use usb_uart_bridge::DECAY_WINDOW_TICKS;

#[test]
fn led_on_within_decay_window() {
    // Last activity at tick T: the LED is on for every current tick in
    // [T, T + W] and off past T + W.
    let t: u64 = 5_000;
    let mut act = ActivityState::new(t);
    assert!(act.update(false, t));
    let mut act = ActivityState::new(t);
    assert!(act.update(false, t + DECAY_WINDOW_TICKS));
    let mut act = ActivityState::new(t);
    assert!(!act.update(false, t + DECAY_WINDOW_TICKS + 1));
}

#[test]
fn led_decay_across_counter_wraparound() {
    // Current tick near the maximum representable value, then wrapped past
    // zero: modular subtraction keeps the window exact.
    let t: u64 = u64::MAX - 3;
    let mut act = ActivityState::new(t);
    assert!(act.update(false, u64::MAX));
    let mut act = ActivityState::new(t);
    assert!(act.update(false, t.wrapping_add(DECAY_WINDOW_TICKS)));
    let mut act = ActivityState::new(t);
    assert!(!act.update(false, t.wrapping_add(DECAY_WINDOW_TICKS + 1)));
    let mut act = ActivityState::new(t);
    assert!(act.update(false, 42)); // 46 ticks after t, well inside the window
}

#[test]
fn activity_stamps_current_tick() {
    let mut act = ActivityState::new(0);
    assert!(!act.update(false, 100_000));
    assert_eq!(act.last_activity_tick, 0);
    assert!(act.update(true, 100_000));
    assert_eq!(act.last_activity_tick, 100_000);
    assert!(act.last_usb_activity);
    // activity ceased: edge goes low, LED decays after the window
    assert!(act.update(false, 105_000));
    assert!(!act.last_usb_activity);
    assert!(!act.update(false, 200_000));
    assert_eq!(act.last_activity_tick, 100_000);
}

#[test]
fn explicit_event_counts_as_activity_and_is_cleared() {
    let mut act = ActivityState::new(0);
    act.signal_usb_event();
    assert!(act.usb_event);
    assert!(act.update(false, 50_000));
    assert!(!act.usb_event, "the update consumes the event flag");
    assert_eq!(act.last_activity_tick, 50_000);
    assert!(act.last_usb_activity);
    // the next update sees no event and no activity
    assert!(!act.update(false, 70_000));
    assert_eq!(act.last_activity_tick, 50_000);
}

#[test]
fn forced_flag_is_overridden_by_next_decay_check() {
    // The overflow signal forces the flag on, but the decay check is
    // authoritative on the next pass: with no real activity in the window
    // the LED goes off again.
    let mut act = ActivityState::new(0);
    act.force_led_on();
    assert!(act.led_on);
    assert!(!act.update(false, 1_000_000));
    assert!(!act.led_on);
}

#[test]
fn session_initializes_exactly_once() {
    let mut s = UsbCdcSession::new();
    assert_eq!(s.phase, SessionPhase::Uninitialized);
    assert!(!s.is_active());
    assert!(s.try_begin_init());
    assert_eq!(s.phase, SessionPhase::Initializing);
    assert!(!s.try_begin_init(), "re-entry into initialization is refused");
    s.complete_init();
    assert!(s.is_active());
    assert!(!s.try_begin_init(), "an active session refuses re-initialization");
    assert_eq!(s.phase, SessionPhase::Active);
}

#[test]
fn uart_flag_register_bits() {
    // RXFE clear means readable; TXFF set means transmit FIFO full.
    assert!(is_readable(0x00));
    assert!(!is_readable(RXFE_BIT));
    assert!(is_readable(TXFF_BIT));
    assert!(!is_readable(0xFFFF_FFFF));
    assert!(!is_tx_full(0x00));
    assert!(is_tx_full(TXFF_BIT));
    assert!(!is_tx_full(RXFE_BIT));
    assert!(is_tx_full(0xFFFF_FFFF));
}

#[test]
fn uart_data_register_bytes() {
    // a data-register read carries the low eight bits; error flags above are
    // ignored
    assert_eq!(read_byte(0x0000_0041), 0x41);
    assert_eq!(read_byte(0x0000_0FFF), 0xFF);
    assert_eq!(read_byte(0xFFFF_FF00), 0x00);
    assert_eq!(write_byte(0x41), 0x41);
    assert_eq!(write_byte(0xFF), 0xFF);
}
