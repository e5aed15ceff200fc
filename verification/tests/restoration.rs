use bright::restoration::device_restore_path;

#[test]
fn test_path() {
    assert_eq!(
        device_restore_path("intel_backlight"),
        "/tmp/bright/intel_backlight"
    );
}
