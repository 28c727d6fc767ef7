use pjsua_rust::media_port::{
    delivers_put_frame, frame_sample_count, port_status, silence, ConferenceSlot,
};
use pjsua_rust::{AudioFrame, ConfPort, MediaPort, PjError};

struct SilencePort;
impl MediaPort for SilencePort {}

#[test]
fn audio_frame_debug() {
    let mut buf = [0i16; 4];
    let frame = AudioFrame { samples: &mut buf, timestamp: 12345 };
    let debug = format!("{:?}", frame);
    assert!(debug.contains("AudioFrame"));
    assert!(debug.contains("4")); // sample count
    assert!(debug.contains("12345")); // timestamp
}

#[test]
fn audio_frame_size() {
    let mut buf = [0i16; 160];
    let frame = AudioFrame { samples: &mut buf, timestamp: 0 };
    assert_eq!(frame.samples.len(), 160);
}

#[test]
fn silence_port_default_impls() {
    let mut port = SilencePort;
    let mut buf = [0i16; 160];
    let mut frame = AudioFrame { samples: &mut buf, timestamp: 0 };
    assert!(port.get_frame(&mut frame).is_ok());
    assert!(port.put_frame(&frame).is_ok());
    port.on_destroy();
}

#[test]
fn frame_helpers() {
    let mut buf = [7i16, -3, 12, 99];
    silence(&mut buf);
    assert_eq!(buf, [0, 0, 0, 0]);
    assert_eq!(frame_sample_count(320), 160);
    assert_eq!(frame_sample_count(5), 2);
    assert!(delivers_put_frame(true, 320));
    assert!(!delivers_put_frame(true, 0));
    assert!(!delivers_put_frame(false, 320));
    assert_eq!(port_status(&Ok(())), 0);
    assert_eq!(port_status(&Err(PjError::NotInitialized)), -1);
}

#[test]
fn conference_slot_refuses_double_add() {
    let mut slot = ConferenceSlot::new();
    assert!(slot.conf_port().is_none());
    assert!(slot.check_free().is_ok());
    slot.occupy(ConfPort(3));
    assert_eq!(slot.conf_port(), Some(ConfPort(3)));
    let err = slot.check_free().unwrap_err();
    assert!(err.to_string().contains("Already in use"));
    assert_eq!(slot.release(), Some(ConfPort(3)));
    assert!(slot.check_free().is_ok());
    assert_eq!(slot.release(), None);
}
