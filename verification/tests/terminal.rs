use cargo_v5::{
    relay_reaction, select_controller, select_device, CliError, DeviceKind, RelayAction,
    RelayEvent, Shutdown, ShutdownStep, IDLE_DELAY_MS, RELAY_BUFFER_SIZE,
};

#[test]
fn device_output_is_printed() {
    match relay_reaction(RelayEvent::DeviceOutput(Some(b"hello".to_vec()))) {
        RelayAction::PrintOutput(data) => assert_eq!(data, b"hello".to_vec()),
        _ => panic!("expected device output to be printed"),
    }
}

#[test]
fn local_input_is_forwarded() {
    match relay_reaction(RelayEvent::LocalInput(Some(b"jump\n".to_vec()))) {
        RelayAction::ForwardInput(data) => assert_eq!(data, b"jump\n".to_vec()),
        _ => panic!("expected local input to be forwarded"),
    }
}

#[test]
fn failed_reads_are_tolerated() {
    assert!(matches!(
        relay_reaction(RelayEvent::DeviceOutput(None)),
        RelayAction::Ignore
    ));
    assert!(matches!(
        relay_reaction(RelayEvent::LocalInput(None)),
        RelayAction::Ignore
    ));
}

#[test]
fn relay_constants_match_the_protocol() {
    assert_eq!(RELAY_BUFFER_SIZE, 1024);
    assert_eq!(IDLE_DELAY_MS, 10);
}

#[test]
fn shutdown_runs_stop_then_restore_then_exit() {
    let mut s = Shutdown::start();
    let mut attempts = Vec::new();
    while s.step != ShutdownStep::Exit {
        attempts.push(s.step);
        // Both courtesy attempts fail; the sequence must still reach exit.
        s.attempted(false);
    }
    assert_eq!(
        attempts,
        vec![ShutdownStep::StopProgram, ShutdownStep::RestorePitChannel]
    );
}

#[test]
fn shutdown_order_is_outcome_independent() {
    for first in [false, true] {
        for second in [false, true] {
            let mut s = Shutdown::start();
            assert_eq!(s.step, ShutdownStep::StopProgram);
            s.attempted(first);
            assert_eq!(s.step, ShutdownStep::RestorePitChannel);
            s.attempted(second);
            assert_eq!(s.step, ShutdownStep::Exit);
        }
    }
}

#[test]
fn first_device_is_selected() {
    assert_eq!(select_device(0), Err(CliError::NoDevice));
    assert_eq!(select_device(1), Ok(0));
    assert_eq!(select_device(3), Ok(0));
}

#[test]
fn first_controller_is_selected() {
    let kinds = vec![DeviceKind::Brain, DeviceKind::Unknown, DeviceKind::Controller];
    assert_eq!(select_controller(&kinds), Ok(2));
    let kinds = vec![DeviceKind::Controller, DeviceKind::Controller];
    assert_eq!(select_controller(&kinds), Ok(0));
    let kinds = vec![DeviceKind::Brain];
    assert_eq!(select_controller(&kinds), Err(CliError::NoController));
    assert_eq!(select_controller(&vec![]), Err(CliError::NoController));
}

#[test]
fn well_formed_output_is_printed_unchanged() {
    let ascii = b"hello, brain!\n".to_vec();
    assert_eq!(cargo_v5::drop_malformed_utf8(&ascii), ascii);
    let multibyte = "héllo → 🤖".as_bytes().to_vec();
    assert_eq!(cargo_v5::drop_malformed_utf8(&multibyte), multibyte);
    assert_eq!(cargo_v5::drop_malformed_utf8(&Vec::new()), Vec::<u8>::new());
}

#[test]
fn malformed_output_bytes_are_dropped_not_fatal() {
    // A stray invalid byte inside valid text.
    assert_eq!(
        cargo_v5::drop_malformed_utf8(&vec![0x48, 0xFF, 0x69]),
        b"Hi".to_vec()
    );
    // A lone continuation byte.
    assert_eq!(cargo_v5::drop_malformed_utf8(&vec![0x80]), Vec::<u8>::new());
    // A two-byte lead cut off at the end of the read.
    assert_eq!(
        cargo_v5::drop_malformed_utf8(&vec![0x61, 0xC3]),
        b"a".to_vec()
    );
    // An overlong encoding of NUL.
    assert_eq!(
        cargo_v5::drop_malformed_utf8(&vec![0xC0, 0x80]),
        Vec::<u8>::new()
    );
    // A surrogate encoded in three bytes.
    assert_eq!(
        cargo_v5::drop_malformed_utf8(&vec![0xED, 0xA0, 0x80, 0x21]),
        b"!".to_vec()
    );
}
