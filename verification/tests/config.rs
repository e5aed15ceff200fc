use bright::config::{split_config_line, EasingDevice};

#[test]
fn split_line_with_device() {
    let (device, easing) = split_config_line(" intel_backlight = x^2.2 ");
    assert_eq!(device, EasingDevice::Name(String::from("intel_backlight")));
    assert_eq!(easing, "x^2.2");
}

#[test]
fn split_line_without_device_is_default() {
    let (device, easing) = split_config_line("2.5^x");
    assert_eq!(device, EasingDevice::Default);
    assert_eq!(easing, "2.5^x");
}

#[test]
fn split_line_splits_at_first_equals() {
    let (device, easing) = split_config_line("a=b=c");
    assert_eq!(device, EasingDevice::Name(String::from("a")));
    assert_eq!(easing, "b=c");
}

#[test]
fn split_line_keeps_empty_name() {
    let (device, easing) = split_config_line("=x");
    assert_eq!(device, EasingDevice::Name(String::new()));
    assert_eq!(easing, "x");
}
