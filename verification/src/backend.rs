//! The failures that reach the library from outside: those of the two D-Bus
//! client libraries and of integer parsing.
//!
//! The library reads none of them. It carries each through as the value it
//! is and, when asked for text, displays it.

use dbus::Error as DbusError;
use std::num::ParseIntError;
use vstd::prelude::*;
use vstd::string::to_string_from_display_ensures;
use zbus::Error as ZbusError;

verus! {

/// `std::num::ParseIntError`, carried through unread.
#[verifier::external_type_specification]
#[verifier::external_body]
pub struct ExParseIntError(std::num::ParseIntError);

/// `dbus::Error`, carried through unread.
#[verifier::external_type_specification]
#[verifier::external_body]
pub struct ExDbusError(DbusError);

/// `zbus::Error`, carried through unread.
#[verifier::external_type_specification]
#[verifier::external_body]
pub struct ExZbusError(ZbusError);

/// Whether `text` is a text that displaying the integer-parse failure `e`
/// gives: what `e.to_string()` returns.
pub open spec fn parse_failure_displayed(e: ParseIntError, text: String) -> bool {
    to_string_from_display_ensures::<ParseIntError>(&e, text)
}

/// Whether `text` is a text that displaying the `dbus` failure `e` gives:
/// what `e.to_string()` returns.
pub open spec fn dbus_failure_displayed(e: DbusError, text: String) -> bool {
    to_string_from_display_ensures::<DbusError>(&e, text)
}

/// Whether `text` is a text that displaying the `zbus` failure `e` gives:
/// what `e.to_string()` returns.
pub open spec fn zbus_failure_displayed(e: ZbusError, text: String) -> bool {
    to_string_from_display_ensures::<ZbusError>(&e, text)
}

} // verus!
