use termcore::resize::ProbeState;
use termcore::resize::ResizeController;

const ESC: char = '\u{1b}';

fn feed_str(ctl: &mut ResizeController, s: &str) {
    for c in s.chars() {
        ctl.feed(c);
    }
}

#[test]
fn probe_parses_a_size_response() {
    let mut ctl = ResizeController::new();
    let mut sub = ctl.subscribe();
    // the fresh subscriber immediately observes the initial slot value
    assert_eq!(ctl.poll(&mut sub), Some((0, 0)));

    let req = ctl.tick();
    assert_eq!(req, vec![0x1b, b'[', b'6', b'n']);
    assert_eq!(ctl.probe, ProbeState::AwaitIntroducer);

    feed_str(&mut ctl, "\u{1b}[24;80R");
    assert_eq!(ctl.probe, ProbeState::Idle);
    // rows 24, columns 80: published as (width, height)
    assert_eq!(ctl.poll(&mut sub), Some((80, 24)));
    assert_eq!(ctl.size, (80, 24));
}

#[test]
fn identical_response_publishes_nothing() {
    let mut ctl = ResizeController::new();
    let mut sub = ctl.subscribe();
    ctl.tick();
    feed_str(&mut ctl, "\u{1b}[24;80R");
    assert_eq!(ctl.poll(&mut sub), Some((80, 24)));

    ctl.tick();
    feed_str(&mut ctl, "\u{1b}[24;80R");
    // the steady state is idempotent: no second publication
    assert_eq!(ctl.poll(&mut sub), None);
}

#[test]
fn malformed_response_keeps_probing() {
    let mut ctl = ResizeController::new();
    ctl.tick();
    // missing terminator: the run is discarded, the probe stays in flight
    feed_str(&mut ctl, "\u{1b}[24;80x");
    assert!(ctl.probe != ProbeState::Idle);
    assert_eq!(ctl.size, (0, 0));
    // the next tick simply probes again, and a good response settles
    ctl.tick();
    feed_str(&mut ctl, "\u{1b}[24;80R");
    assert_eq!(ctl.probe, ProbeState::Idle);
    assert_eq!(ctl.size, (80, 24));
}

#[test]
fn noise_between_probe_and_response_is_discarded() {
    let mut ctl = ResizeController::new();
    ctl.tick();
    // keystrokes and a stray introducer arrive before the real response
    feed_str(&mut ctl, "hello\u{1b}q\u{1b}[12;34R");
    assert_eq!(ctl.size, (34, 12));
}

#[test]
fn units_while_idle_are_ignored() {
    let mut ctl = ResizeController::new();
    feed_str(&mut ctl, "\u{1b}[24;80R");
    assert_eq!(ctl.probe, ProbeState::Idle);
    assert_eq!(ctl.size, (0, 0));
}

#[test]
fn oversized_dimension_is_treated_as_noise() {
    let mut ctl = ResizeController::new();
    ctl.tick();
    feed_str(&mut ctl, "\u{1b}[999999;80R");
    assert!(ctl.probe != ProbeState::Idle);
    assert_eq!(ctl.size, (0, 0));
}

#[test]
fn direct_query_path_settles_and_publishes() {
    let mut ctl = ResizeController::new();
    let mut sub = ctl.subscribe();
    assert_eq!(ctl.poll(&mut sub), Some((0, 0)));
    ctl.tick();
    ctl.notify_resize((120, 40));
    assert_eq!(ctl.probe, ProbeState::Idle);
    assert_eq!(ctl.poll(&mut sub), Some((120, 40)));
    // handing in the same size again publishes nothing
    ctl.notify_resize((120, 40));
    assert_eq!(ctl.poll(&mut sub), None);
}

#[test]
fn late_size_subscriber_sees_current_value() {
    let mut ctl = ResizeController::new();
    ctl.notify_resize((100, 30));
    // subscribed after the publication, yet observes it immediately
    let mut sub = ctl.subscribe();
    assert_eq!(ctl.poll(&mut sub), Some((100, 30)));
    assert_eq!(ctl.poll(&mut sub), None);
}
