use notify_error::{Error, ErrorKind};

#[test]
fn dbus_failure_is_shown_as_its_message() {
    let d = dbus::Error::new_failed("Could not find a matching object path");
    let own = d.to_string();
    let e = Error::from(d);
    assert_eq!(e.to_string(), "Could not find a matching object path");
    assert_eq!(e.to_string(), own);
}

#[test]
fn dbus_failure_with_custom_name_is_shown_as_its_message() {
    let d = dbus::Error::new_custom("org.freedesktop.Notifications.Error.Gone", "server gone");
    let e = Error::from(d);
    assert_eq!(e.to_string(), "server gone");
}

#[test]
fn dbus_failure_keeps_a_percent_sign() {
    let d = dbus::Error::new_failed("100% full");
    let own = format!("{}", d);
    let e = Error::from(d);
    assert_eq!(e.to_string(), own);
    assert_eq!(e.to_string(), "100% full");
}

#[test]
fn dbus_failure_with_empty_message_is_shown_as_empty_text() {
    let d = dbus::Error::new_failed("");
    let own = d.to_string();
    let e = Error::from(d);
    assert_eq!(e.to_string(), own);
    assert_eq!(e.to_string(), "");
}

#[test]
fn dbus_kind_is_shown_like_the_converted_failure() {
    let e = Error::from(ErrorKind::Dbus(dbus::Error::new_failed("no server")));
    assert_eq!(e.to_string(), "no server");
}

#[test]
fn zbus_failure_with_text_is_shown_verbatim() {
    let z = zbus::Error::Failure(String::from("serialisation failed"));
    let own = z.to_string();
    let e = Error::from(z);
    assert_eq!(e.to_string(), own);
    assert_eq!(e.to_string(), "serialisation failed");
}

#[test]
fn zbus_failure_without_text_is_shown_verbatim() {
    let z = zbus::Error::InvalidReply;
    let own = z.to_string();
    let e = Error::from(z);
    assert_eq!(e.to_string(), own);
    assert_eq!(e.to_string(), "Invalid D-Bus method reply");
}

#[test]
fn zbus_io_failure_is_shown_verbatim() {
    let io = std::io::Error::new(std::io::ErrorKind::NotFound, "no session bus");
    let z = zbus::Error::from(io);
    let own = z.to_string();
    let e = Error::from(z);
    assert_eq!(e.to_string(), own);
    assert_eq!(e.to_string(), "I/O error: no session bus");
}

#[test]
fn zbus_kind_is_shown_like_the_converted_failure() {
    let z = zbus::Error::NameTaken;
    let own = z.to_string();
    let e = Error::from(ErrorKind::Zbus(z));
    assert_eq!(e.to_string(), own);
}
