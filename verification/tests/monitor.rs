use zke_ebd::device::{
    generate_checksum, Monitor, MonitorState, ReadEvent, StepAction,
};
use zke_ebd::error::Error;

fn good_frame(current: [u8; 2], voltage: [u8; 2]) -> [u8; 19] {
    let mut buf: [u8; 19] = [0; 19];
    buf[0] = 0xFA;
    buf[2] = current[0];
    buf[3] = current[1];
    buf[4] = voltage[0];
    buf[5] = voltage[1];
    buf[17] = generate_checksum(&buf[1..17]);
    buf[18] = 0xF8;
    buf
}

#[test]
fn new_monitor_is_running() {
    let m = Monitor::new(1000);
    assert_eq!(m.state, MonitorState::Running);
    assert_eq!(m.current_divider, 1000);
}

#[test]
fn good_frame_delivers_measurement() {
    let mut monitor = Monitor::new(10000);
    let action = monitor.step(&ReadEvent::Frame(good_frame([0x00, 0x64], [0x00, 0x64])));
    match action {
        StepAction::Deliver(m) => {
            assert_eq!(m.current_numer, 100);
            assert_eq!(m.voltage_numer, 84);
            assert_eq!(m.current_divider, 10000);
        }
        _ => panic!("expected a delivered measurement"),
    }
    assert_eq!(monitor.state, MonitorState::Running);
}

#[test]
fn invalid_start_byte_terminates_without_delivery() {
    let mut monitor = Monitor::new(1000);
    let mut buf = good_frame([0x00, 0x64], [0x00, 0x64]);
    buf[0] = 0x00;
    let action = monitor.step(&ReadEvent::Frame(buf));
    assert_eq!(action, StepAction::Fatal(Error::InvalidStartByte));
    assert_eq!(monitor.state, MonitorState::Terminated);
}

#[test]
fn invalid_stop_byte_terminates() {
    let mut monitor = Monitor::new(1000);
    let mut buf = good_frame([0x00, 0x64], [0x00, 0x64]);
    buf[18] = 0x00;
    let action = monitor.step(&ReadEvent::Frame(buf));
    assert_eq!(action, StepAction::Fatal(Error::InvalidStopByte));
    assert_eq!(monitor.state, MonitorState::Terminated);
}

#[test]
fn start_byte_checked_before_stop_byte() {
    let mut monitor = Monitor::new(1000);
    let mut buf = good_frame([0x00, 0x64], [0x00, 0x64]);
    buf[0] = 0x00;
    buf[18] = 0x00;
    let action = monitor.step(&ReadEvent::Frame(buf));
    assert_eq!(action, StepAction::Fatal(Error::InvalidStartByte));
}

#[test]
fn transport_failure_terminates() {
    let mut monitor = Monitor::new(1000);
    let action = monitor.step(&ReadEvent::TransportFailed);
    assert_eq!(action, StepAction::Fatal(Error::Transport));
    assert_eq!(monitor.state, MonitorState::Terminated);
}

#[test]
fn checksum_error_keeps_session_running() {
    let mut monitor = Monitor::new(10000);

    let mut bad = good_frame([0x00, 0x64], [0x00, 0x64]);
    bad[9] ^= 0x01;
    let action = monitor.step(&ReadEvent::Frame(bad));
    assert_eq!(action, StepAction::Diagnostic(Error::InvalidChecksum));
    assert_eq!(monitor.state, MonitorState::Running);

    // The next well-formed frame still produces a measurement.
    let action = monitor.step(&ReadEvent::Frame(good_frame([0x00, 0x64], [0x00, 0x64])));
    match action {
        StepAction::Deliver(m) => assert_eq!(m.current_numer, 100),
        _ => panic!("expected a delivered measurement after a recoverable error"),
    }
    assert_eq!(monitor.state, MonitorState::Running);
}
