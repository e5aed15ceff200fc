use bright::brightness::{parse_change, parse_value, ChangeDirection, ValueText};
use bright::device::backlight::bl_power::BlPower;
use bright::device::backlight::bl_type::BlType;
use bright::device::DeviceClass;
use bright::meta::Information;

#[test]
fn device_class_paths() {
    assert_eq!(DeviceClass::Backlight.path(), "/sys/class/backlight/");
    assert_eq!(DeviceClass::Leds.path(), "/sys/class/leds/");
}

#[test]
fn bl_power_states() {
    assert_eq!(BlPower::try_new(0), Some(BlPower::On));
    assert_eq!(BlPower::try_new(4), Some(BlPower::Off));
    assert_eq!(BlPower::try_new(1), None);
    assert_eq!(BlPower::On.to_number(), 0);
    assert_eq!(BlPower::Off.to_number(), 4);
    assert_eq!(BlPower::On.name(), "on");
    assert_eq!(BlPower::Off.name(), "off");
}

#[test]
fn bl_type_names() {
    assert_eq!(BlType::try_from("raw"), Ok(BlType::Raw));
    assert_eq!(BlType::try_from("platform"), Ok(BlType::Platform));
    assert_eq!(BlType::try_from("firmware"), Ok(BlType::Firmware));
    assert_eq!(BlType::try_from("other"), Err(()));
    assert_eq!(BlType::Raw.name(), "raw");
}

#[test]
fn information_message() {
    let plain = Information::new(
        String::from("Max brightness"),
        String::from("255"),
        None,
    );
    assert_eq!(plain.message(), "Max brightness: 255");
    let detailed = Information::new(
        String::from("Current brightness"),
        String::from("128"),
        Some(String::from("50%")),
    );
    assert_eq!(detailed.message(), "Current brightness: 128 (50%)");
}

#[test]
fn value_text_structure() {
    assert!(matches!(parse_value("422"), Ok(ValueText::Absolute(422))));
    match parse_value("42%") {
        Ok(ValueText::Percentage(p)) => assert_eq!(p, "42"),
        other => panic!("expected percent text, got {:?}", other),
    }
    assert_eq!(
        parse_value("70000").unwrap_err(),
        "Your provided width doesn't fit into the integer (0-65535)"
    );
    assert_eq!(parse_value("").unwrap_err(), "Number must not be empty");
    assert_eq!(
        parse_value("4x").unwrap_err(),
        "Relative units must end with a '%'"
    );
}

#[test]
fn change_structure() {
    match parse_change("42%+") {
        Ok((ValueText::Percentage(p), direction)) => {
            assert_eq!(p, "42");
            assert_eq!(direction, ChangeDirection::Inc);
        }
        other => panic!("unexpected: {:?}", other),
    }
    match parse_change("42-") {
        Ok((ValueText::Absolute(42), ChangeDirection::Dec)) => {}
        other => panic!("unexpected: {:?}", other),
    }
    match parse_change("422") {
        Ok((ValueText::Absolute(422), ChangeDirection::Abs)) => {}
        other => panic!("unexpected: {:?}", other),
    }
    assert!(parse_change("42++").is_err());
    assert!(parse_change("-42").is_err());
    // Percent text that only the numeric layer can reject passes the
    // structural split untouched.
    match parse_change("-1%") {
        Ok((ValueText::Percentage(p), ChangeDirection::Abs)) => assert_eq!(p, "-1"),
        other => panic!("unexpected: {:?}", other),
    }
    match parse_change("100%") {
        Ok((ValueText::Percentage(p), ChangeDirection::Abs)) => assert_eq!(p, "100"),
        other => panic!("unexpected: {:?}", other),
    }
}
