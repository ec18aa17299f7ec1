use termcore::controller::TermController;
use termcore::events::EventController;
use termcore::resize::ProbeState;
use termcore::Point;

#[test]
fn fresh_session_is_wired_and_quiet() {
    let mut ctl = TermController::new();
    assert_eq!(ctl.write_mux.pool.capacity, 1);
    assert_eq!(ctl.resize.probe, ProbeState::Idle);

    // a probe goes out through the session's own multiplexer
    let req = ctl.resize.tick();
    assert_eq!(ctl.write_mux.write(&req), Some(4));
    assert_eq!(ctl.write_mux.drain(), vec![0x1b, b'[', b'6', b'n']);

    // and the response comes back through the session's distributor
    let mut escape_sub = ctl.input.sub_escape();
    ctl.input.dispatch_bytes("\u{1b}[24;80R".as_bytes()).unwrap();
    while let Some(c) = ctl.input.recv(&mut escape_sub) {
        ctl.resize.feed(c);
    }
    assert_eq!(ctl.resize.size, (80, 24));
}

#[test]
fn event_controller_constructs() {
    let _ctl = EventController::new();
}

#[test]
fn point_carries_cell_coordinates() {
    let p = Point { x: 5, y: 9 };
    assert_eq!(p.x, 5);
    assert_eq!(p.y, 9);
}
