use stabilizer::board::IIR;
use stabilizer::network::{
    apply, command_step, hardware_addr, local_addr, may_have_changed, status, status_step,
    CommandStep, PollOutcome, Request, Socket, StatusStep, Ticker, PREFIX_LEN, TICK_CYCLES,
};

const OPEN: Socket = Socket { close_wait: false, open: true, listening: false, can_send: true };

fn iir(gain: f32) -> IIR<f32> {
    IIR { ba: [gain, 0., 0., 0., 0.], y_offset: 0., y_min: -1., y_max: 1. }
}

#[test]
fn status_connection() {
    let waiting = Socket { open: false, listening: true, can_send: false, ..OPEN };
    let closed = Socket { open: false, can_send: false, ..OPEN };
    let half_closed = Socket { close_wait: true, ..OPEN };
    assert_eq!(status_step(half_closed, true), StatusStep::Close);
    assert_eq!(status_step(closed, true), StatusStep::Listen(1234));
    assert_eq!(status_step(waiting, true), StatusStep::Nothing);
    assert_eq!(status_step(OPEN, true), StatusStep::Report);
    assert_eq!(status_step(OPEN, false), StatusStep::Nothing);
    assert_eq!(status_step(Socket { can_send: false, ..OPEN }, true), StatusStep::Nothing);
}

#[test]
fn command_connection() {
    assert_eq!(command_step(Socket { close_wait: true, ..OPEN }), CommandStep::Close);
    assert_eq!(command_step(Socket { open: false, ..OPEN }), CommandStep::Listen(1235));
    assert_eq!(
        command_step(Socket { open: false, listening: true, ..OPEN }),
        CommandStep::Poll
    );
    assert_eq!(command_step(OPEN), CommandStep::Poll);
}

#[test]
fn status_report() {
    let state = [[1.5_f32, 2., 3., 4., 5.], [6., 7., 8., 9., 10.]];
    let s = status(17, &state);
    assert_eq!(s.t, 17);
    assert_eq!((s.x0, s.y0, s.x1, s.y1), (1.5, 3., 6., 8.));
}

#[test]
fn command_replaces_the_filter_of_its_channel() {
    let mut channels = [iir(1.), iir(1.)];
    apply(&mut channels, &Request { channel: 1, iir: iir(2.) });
    assert_eq!(channels[0].ba[0], 1.);
    assert_eq!(channels[1].ba[0], 2.);
    apply(&mut channels, &Request { channel: 0, iir: iir(3.) });
    assert_eq!(channels[0].ba[0], 3.);
    assert_eq!(channels[1].ba[0], 2.);
}

#[test]
fn command_for_another_channel_has_no_effect() {
    let mut channels = [iir(1.), iir(2.)];
    for channel in 2..=u8::MAX {
        apply(&mut channels, &Request { channel, iir: iir(9.) });
    }
    assert_eq!(channels[0].ba[0], 1.);
    assert_eq!(channels[1].ba[0], 2.);
}

#[test]
fn addresses() {
    assert_eq!(hardware_addr::<()>(Ok([1, 2, 3, 4, 5, 6])), [1, 2, 3, 4, 5, 6]);
    assert_eq!(hardware_addr(Err(())), [0x10, 0xE2, 0xD5, 0x00, 0x03, 0x00]);
    assert_eq!(local_addr(), [10, 0, 16, 99]);
    assert_eq!(PREFIX_LEN, 24);
}

#[test]
fn network_changes() {
    assert!(may_have_changed(PollOutcome::Polled { changed: true }));
    assert!(!may_have_changed(PollOutcome::Polled { changed: false }));
    assert!(may_have_changed(PollOutcome::Unrecognized));
    assert!(may_have_changed(PollOutcome::Failed));
}

#[test]
fn ticks_come_after_a_millisecond() {
    let mut ticker = Ticker::new(0);
    assert!(!ticker.tick(399_999));
    assert!(!ticker.tick(400_000));
    assert!(ticker.tick(400_001));
    assert_eq!(ticker.time, 1);
    assert!(!ticker.tick(400_002));
    assert_eq!(ticker.next, 800_000);
}

#[test]
fn ticker_does_not_drift() {
    let mut ticker = Ticker::new(0);
    assert!(ticker.tick(700_000));
    assert!(ticker.tick(900_000));
    assert_eq!(ticker.time, 2);
    assert_eq!(ticker.next, 3 * TICK_CYCLES);
}

#[test]
fn ticker_across_wrap_around() {
    let start = i32::MAX - 100;
    let mut ticker = Ticker::new(start);
    assert_eq!(ticker.next, start.wrapping_add(400_000));
    assert!(!ticker.tick(i32::MAX));
    assert!(!ticker.tick(i32::MIN));
    assert!(ticker.tick(i32::MIN + 400_000));
    assert_eq!(ticker.time, 1);
}
