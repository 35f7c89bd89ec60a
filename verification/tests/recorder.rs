use weave::audio::{AudioError, AudioRecorder, CaptureFormat};

#[test]
fn a_new_recorder_is_running_and_empty() {
    let r = AudioRecorder::new();
    assert!(!r.is_stopped());
    assert!(r.get_samples().is_empty());
    let d = AudioRecorder::default();
    assert!(!d.is_stopped());
    assert!(d.get_samples().is_empty());
}

#[test]
fn signed_samples_are_kept_in_order() {
    let mut r = AudioRecorder::new();
    r.capture_i16(&[1, -2, 3]);
    r.capture_i16(&[]);
    r.capture_i16(&[i16::MIN, i16::MAX]);
    assert_eq!(r.get_samples(), vec![1, -2, 3, i16::MIN, i16::MAX]);
}

#[test]
fn unsigned_samples_are_centred() {
    let mut r = AudioRecorder::new();
    r.capture_u16(&[0, 1, 32767, 32768, 32769, 65535]);
    assert_eq!(r.get_samples(), vec![-32768, -32767, -1, 0, 1, 32767]);
}

#[test]
fn a_stopped_recorder_drops_samples() {
    let mut r = AudioRecorder::new();
    r.capture_i16(&[5, 6]);
    r.stop();
    assert!(r.is_stopped());
    r.capture_i16(&[7]);
    r.capture_u16(&[40000]);
    assert_eq!(r.get_samples(), vec![5, 6]);
    r.stop();
    assert!(r.is_stopped());
}

#[test]
fn clearing_keeps_the_stop_flag() {
    let mut r = AudioRecorder::new();
    r.capture_i16(&[5, 6]);
    r.clear_samples();
    assert!(r.get_samples().is_empty());
    assert!(!r.is_stopped());
    r.capture_u16(&[32768]);
    assert_eq!(r.get_samples(), vec![0]);
    r.stop();
    r.clear_samples();
    assert!(r.is_stopped());
    assert!(r.get_samples().is_empty());
}

#[test]
fn get_samples_is_a_copy() {
    let mut r = AudioRecorder::new();
    r.capture_i16(&[1]);
    let mut copy = r.get_samples();
    copy.push(2);
    assert_eq!(r.get_samples(), vec![1]);
}

#[test]
fn only_three_formats_are_recorded() {
    let r = AudioRecorder::new();
    assert_eq!(r.start_streaming(CaptureFormat::F32).unwrap(), CaptureFormat::F32);
    assert_eq!(r.start_streaming(CaptureFormat::I16).unwrap(), CaptureFormat::I16);
    assert_eq!(r.start_streaming(CaptureFormat::U16).unwrap(), CaptureFormat::U16);
    let e = r.start_streaming(CaptureFormat::Other).unwrap_err();
    assert!(matches!(e, AudioError::UnsupportedFormat));
    assert_eq!(e.message(), "Unsupported sample format");
}

#[test]
fn audio_error_messages() {
    assert_eq!(AudioError::NoInputDevice.message(), "No input device available");
    assert_eq!(
        AudioError::Config("busy".to_string()).message(),
        "Failed to get default input config: busy"
    );
    assert_eq!(AudioError::Build("x".to_string()).message(), "Failed to build input stream: x");
    assert_eq!(AudioError::Start("y".to_string()).message(), "Failed to start recording: y");
}
