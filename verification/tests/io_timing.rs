use libcoap::io_timeout_value;
use libcoap::shutdown_remaining;
use libcoap::CoapContext;
use libcoap::CoapDuration;
use libcoap::CoapResource;
use libcoap::IoProcessError;
use libcoap::COAP_IO_WAIT;

#[test]
fn no_timeout_means_indefinite_wait() {
    assert_eq!(io_timeout_value(None), COAP_IO_WAIT);
}

#[test]
fn whole_millisecond_timeout_rounds_up_once() {
    // A whole-second duration has no sub-second remainder: only the single
    // unconditional round-up applies.
    let d = CoapDuration::from_millis(1000);
    assert_eq!(io_timeout_value(Some(d)), 1001);
    // A sub-second remainder, even a whole-millisecond one, adds one more.
    let d = CoapDuration::from_millis(100);
    assert_eq!(io_timeout_value(Some(d)), 102);
}

#[test]
fn sub_millisecond_timeout_rounds_above_floor() {
    // 1 ms plus half a millisecond: the floor is 1 ms, the converted value
    // must be strictly above it.
    let d = CoapDuration::new(0, 1_500_000);
    let converted = io_timeout_value(Some(d));
    assert!(converted > 1);
    assert_eq!(converted, 3);
    // A single stray nanosecond also rounds above the floor of zero.
    let tiny = CoapDuration::new(0, 1);
    assert!(io_timeout_value(Some(tiny)) > 0);
    assert_eq!(io_timeout_value(Some(tiny)), 2);
}

#[test]
fn oversized_timeout_saturates() {
    let d = CoapDuration::new(u64::MAX, 999_999_999);
    assert_eq!(io_timeout_value(Some(d)), u32::MAX);
}

#[test]
fn idle_io_round_within_timeout() {
    let mut ctx = CoapContext::new(7).unwrap();
    ctx.add_endpoint_udp(libcoap::CoapAddress::new_v4(0x7f00_0001, 0), 11).unwrap();
    ctx.add_resource(CoapResource::new(String::from("/hello"), 13));
    let timeout = CoapDuration::from_millis(100);
    // No traffic exists, so the engine reports back promptly; zero
    // milliseconds spent is a successful outcome within the budget.
    let elapsed = ctx.do_io(Some(timeout), 0).unwrap();
    assert_eq!(elapsed, CoapDuration::from_millis(0));
    assert!(elapsed.as_millis() <= timeout.as_millis());
}

#[test]
fn io_failure_is_reported() {
    let ctx = CoapContext::new(7).unwrap();
    let r = ctx.do_io(None, -1);
    assert!(matches!(r, Err(IoProcessError::Unknown)));
}

#[test]
fn io_outcome_maps_to_elapsed_milliseconds() {
    let ctx = CoapContext::new(7).unwrap();
    let elapsed = ctx.do_io(Some(CoapDuration::from_millis(250)), 42).unwrap();
    assert_eq!(elapsed, CoapDuration::from_millis(42));
}

#[test]
fn shutdown_budget_shrinks_by_time_spent() {
    let remaining = shutdown_remaining(
        Some(CoapDuration::from_millis(200)),
        CoapDuration::from_millis(50),
    );
    assert_eq!(remaining, Some(CoapDuration::from_millis(150)));
    assert_eq!(shutdown_remaining(None, CoapDuration::from_millis(50)), None);
}

#[test]
fn duration_subtraction_borrows_across_seconds() {
    let a = CoapDuration::new(1, 0);
    let b = CoapDuration::new(0, 1);
    assert_eq!(a.checked_sub(&b), Some(CoapDuration::new(0, 999_999_999)));
    assert_eq!(b.checked_sub(&a), None);
    assert_eq!(a.checked_sub(&a), Some(CoapDuration::new(0, 0)));
}
