use notify_error::{ErrorKind, ImageError, MacOsError};

const MISSING: &str =
    "No Dbus implementation available, please compile with either feature =\"z\" or feature=\"d\"";

#[test]
fn prefixes_are_as_documented() {
    assert_eq!(notify_error::error::PARSE_PREFIX, "Parsing Error: ");
    assert_eq!(notify_error::error::CONVERSION_PREFIX, "Conversion Error: ");
}

#[test]
fn inner_text_of_a_message_is_the_message() {
    assert_eq!(ErrorKind::Msg(String::from("a")).inner_text(), "a");
    assert_eq!(ErrorKind::SpecVersion(String::from("b")).inner_text(), "b");
    assert_eq!(ErrorKind::Conversion(String::from("c")).inner_text(), "c");
}

#[test]
fn inner_text_of_a_failure_is_what_it_displays() {
    let p = "".parse::<i64>().unwrap_err();
    let own = p.to_string();
    assert_eq!(ErrorKind::Parse(p).inner_text(), own);

    let d = dbus::Error::new_failed("d-bus down");
    assert_eq!(ErrorKind::Dbus(d).inner_text(), "d-bus down");

    let z = zbus::Error::InterfaceNotFound;
    let own = z.to_string();
    assert_eq!(ErrorKind::Zbus(z).inner_text(), own);

    let m = MacOsError::new(String::from("mac"));
    assert_eq!(ErrorKind::MacNotificationSys(m).inner_text(), "mac");

    let i = ImageError::new(String::from("img"));
    assert_eq!(ErrorKind::Image(i).inner_text(), "img");
}

#[test]
fn inner_text_of_a_missing_implementation_is_empty() {
    assert_eq!(ErrorKind::ImplementationMissing.inner_text(), "");
}

#[test]
fn frame_of_a_parse_failure_is_its_prefix() {
    let p = "q".parse::<u16>().unwrap_err();
    assert_eq!(ErrorKind::Parse(p).frame("inner"), "Parsing Error: inner");
}

#[test]
fn frame_of_a_conversion_is_its_prefix() {
    let k = ErrorKind::Conversion(String::from("held"));
    assert_eq!(k.frame("inner"), "Conversion Error: inner");
    assert_eq!(k.frame(""), "Conversion Error: ");
}

#[test]
fn frame_of_a_missing_implementation_is_the_fixed_message() {
    assert_eq!(ErrorKind::ImplementationMissing.frame("inner"), MISSING);
    assert_eq!(ErrorKind::ImplementationMissing.frame(""), MISSING);
}

#[test]
fn frame_of_the_other_kinds_is_empty() {
    assert_eq!(ErrorKind::Msg(String::from("held")).frame("inner"), "inner");
    assert_eq!(ErrorKind::SpecVersion(String::from("held")).frame("inner"), "inner");
    assert_eq!(ErrorKind::Dbus(dbus::Error::new_failed("held")).frame("inner"), "inner");
    assert_eq!(ErrorKind::Zbus(zbus::Error::Unsupported).frame("inner"), "inner");
    let m = MacOsError::new(String::from("held"));
    assert_eq!(ErrorKind::MacNotificationSys(m).frame("inner"), "inner");
    let i = ImageError::new(String::from("held"));
    assert_eq!(ErrorKind::Image(i).frame("inner"), "inner");
}
