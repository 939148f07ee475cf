use valleyflow::{
    find_device, resolve_config, resolve_device, CaptureBuffer, CaptureConfig, CaptureError,
};

#[test]
fn stop_when_idle_returns_nothing() {
    let mut buf: CaptureBuffer<f32> = CaptureBuffer::new();
    assert!(!buf.is_recording());
    assert!(buf.finish().is_empty());
    assert!(buf.finish().is_empty());
    assert!(!buf.is_recording());
}

#[test]
fn blocks_are_kept_only_while_recording() {
    let mut buf: CaptureBuffer<f32> = CaptureBuffer::new();
    buf.push_block(&[9.0, 9.0]);
    buf.begin();
    assert!(buf.is_recording());
    buf.push_block(&[0.1, 0.2]);
    buf.push_block(&[]);
    buf.push_block(&[0.3]);
    assert_eq!(buf.len(), 3);
    assert_eq!(buf.finish(), vec![0.1, 0.2, 0.3]);
    buf.push_block(&[0.4]);
    assert_eq!(buf.len(), 0);
    assert!(buf.finish().is_empty());
}

#[test]
fn begin_discards_earlier_samples() {
    let mut buf: CaptureBuffer<i16> = CaptureBuffer::new();
    buf.begin();
    buf.push_block(&[1, 2]);
    buf.begin();
    buf.push_block(&[3]);
    assert_eq!(buf.finish(), vec![3]);
}

#[test]
fn device_default_config_is_preferred() {
    let c = CaptureConfig { channels: 2, sample_rate: 48000 };
    assert_eq!(resolve_config(Some(c)), c);
    assert_eq!(resolve_config(None), CaptureConfig { channels: 1, sample_rate: 16000 });
}

#[test]
fn selected_device_wins_over_default() {
    assert_eq!(resolve_device(Some("usb"), Some("builtin")), Ok("usb"));
    assert_eq!(resolve_device(None, Some("builtin")), Ok("builtin"));
    assert_eq!(resolve_device::<&str>(None, None), Err(CaptureError::NoInputDevice));
}

#[test]
fn device_found_by_exact_name() {
    let names = vec!["Mic".to_string(), "USB Mic".to_string(), "USB Mic".to_string()];
    assert_eq!(find_device(&names, "USB Mic"), Ok(1));
    assert_eq!(find_device(&names, "Mic"), Ok(0));
    assert_eq!(
        find_device(&names, "usb mic"),
        Err(CaptureError::DeviceNotFound("usb mic".to_string()))
    );
    assert_eq!(
        find_device(&Vec::new(), "Mic"),
        Err(CaptureError::DeviceNotFound("Mic".to_string()))
    );
}
