//! How long a peer has been silent.

use jamodio::clock::Instant;
use jamodio::recv_activity::RecvActivity;

// Some moment, long after the clock began.
const BORN_MS: u64 = 60_000;

fn after(millis: u64) -> Instant {
    Instant::from_millis(BORN_MS + millis)
}

#[test]
fn silence_counts_from_creation_until_first_packet() {
    let born = after(0);
    let activity = RecvActivity::new(born);
    assert_eq!(activity.silent_ms(born), 0);
    assert_eq!(activity.silent_ms(after(2_500)), 2_500);
}

#[test]
fn a_packet_resets_the_silence() {
    let born = after(0);
    let mut activity = RecvActivity::new(born);
    activity.mark_packet(after(10 * 1_000));
    assert_eq!(activity.silent_ms(after(10 * 1_000)), 0);
    assert_eq!(activity.silent_ms(after(10_400)), 400);
}

#[test]
fn long_silence_then_resume() {
    let born = after(0);
    let mut activity = RecvActivity::new(born);
    activity.mark_packet(after(5 * 1_000));
    assert_eq!(activity.silent_ms(after(25 * 1_000)), 20_000);
    activity.mark_packet(after(25 * 1_000));
    assert_eq!(activity.silent_ms(after(25_010)), 10);
}

#[test]
fn instants_before_creation_never_underflow() {
    let born = after(1_000);
    let mut activity = RecvActivity::new(born);
    activity.mark_packet(after(1_000 - 500));
    assert_eq!(activity.silent_ms(after(1_000 - 200)), 0);
}

#[test]
fn socket_errors_are_counted() {
    let mut activity = RecvActivity::new(after(0));
    assert_eq!(activity.recv_errors(), 0);
    activity.mark_recv_error();
    activity.mark_recv_error();
    assert_eq!(activity.recv_errors(), 2);
    assert_eq!(activity.silent_ms(after(7)), 7, "an error is no packet");
}

#[test]
fn silence_grows_until_a_packet_comes() {
    let mut activity = RecvActivity::new(after(0));
    activity.mark_packet(after(100));
    assert!(activity.silent_ms(after(150)) <= activity.silent_ms(after(151)));
    assert_eq!(activity.silent_ms(after(151)), 51);
}
