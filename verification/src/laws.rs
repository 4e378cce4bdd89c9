//! What holds of converting a failure into an [`Error`] and showing it,
//! proved from the contracts of the functions alone.
//!
//! In each law `e` stands for any error that the conversion can return, and
//! `shown` for any text that [`Error::to_string`] can return for it.

use crate::backend::{dbus_failure_displayed, parse_failure_displayed, zbus_failure_displayed};
use crate::error::{
    bail, Error, ErrorKind, Result, CONVERSION_PREFIX, IMPLEMENTATION_MISSING, PARSE_PREFIX,
};
use crate::image::ImageError;
use crate::macos::MacOsError;
use dbus::Error as DbusError;
use std::num::ParseIntError;
use vstd::prelude::*;
use zbus::Error as ZbusError;

verus! {

/// A message converted into an error is shown as the message itself.
pub proof fn message_shown_verbatim(s: &str, e: Error, shown: String)
    requires
        call_ensures(<Error as From<&str>>::from, (s,), e),
        call_ensures(Error::to_string, (&e,), shown),
    ensures
        shown@ == s@,
{
}

/// An integer-parse failure converted into an error is shown as
/// `"Parsing Error: "` followed by the failure's own text: a text that
/// displaying the failure gives.
pub proof fn parse_failure_shown_with_prefix(p: ParseIntError, e: Error, shown: String)
    requires
        call_ensures(<Error as From<ParseIntError>>::from, (p,), e),
        call_ensures(Error::to_string, (&e,), shown),
    ensures
        exists|own: String| #[trigger]
            parse_failure_displayed(p, own) && shown@ == PARSE_PREFIX@ + own@,
{
}

/// A failed conversion with message `m` is shown as `"Conversion Error: "`
/// followed by `m`.
pub proof fn conversion_shown_with_prefix(m: String, e: Error, shown: String)
    requires
        call_ensures(<Error as From<ErrorKind>>::from, (ErrorKind::Conversion(m),), e),
        call_ensures(Error::to_string, (&e,), shown),
    ensures
        shown@ == CONVERSION_PREFIX@ + m@,
{
}

/// An unreadable version with message `m` is shown as `m`, and so is the
/// plain message `m`: the two cannot be told apart by their text.
pub proof fn spec_version_shown_as_message(
    m: String,
    e: Error,
    shown: String,
    plain: Error,
    plain_shown: String,
)
    requires
        call_ensures(<Error as From<ErrorKind>>::from, (ErrorKind::SpecVersion(m),), e),
        call_ensures(Error::to_string, (&e,), shown),
        call_ensures(<Error as From<ErrorKind>>::from, (ErrorKind::Msg(m),), plain),
        call_ensures(Error::to_string, (&plain,), plain_shown),
    ensures
        shown@ == m@,
        plain_shown@ == shown@,
{
}

/// A missing implementation is always shown as the same fixed message.
pub proof fn implementation_missing_shown_fixed(e: Error, shown: String)
    requires
        call_ensures(<Error as From<ErrorKind>>::from, (ErrorKind::ImplementationMissing,), e),
        call_ensures(Error::to_string, (&e,), shown),
    ensures
        shown@ == IMPLEMENTATION_MISSING@,
{
}

/// [`bail`] always fails, with its argument converted; given a text, the
/// error it fails with is shown as that text.
pub proof fn bail_fails_with_text<T>(text: &str, r: Result<T>, shown: String)
    requires
        call_ensures(bail::<T, &str>, (text,), r),
        r matches Err(e) ==> call_ensures(Error::to_string, (&e,), shown),
    ensures
        r is Err,
        shown@ == text@,
{
}

/// A `dbus` failure converted into an error is shown as the failure's own
/// text, unchanged: a text that displaying the failure gives.
pub proof fn dbus_failure_shown_verbatim(d: DbusError, e: Error, shown: String)
    requires
        call_ensures(<Error as From<DbusError>>::from, (d,), e),
        call_ensures(Error::to_string, (&e,), shown),
    ensures
        exists|own: String| #[trigger] dbus_failure_displayed(d, own) && shown@ == own@,
{
}

/// A `zbus` failure converted into an error is shown as the failure's own
/// text, unchanged: a text that displaying the failure gives.
pub proof fn zbus_failure_shown_verbatim(z: ZbusError, e: Error, shown: String)
    requires
        call_ensures(<Error as From<ZbusError>>::from, (z,), e),
        call_ensures(Error::to_string, (&e,), shown),
    ensures
        exists|own: String| #[trigger] zbus_failure_displayed(z, own) && shown@ == own@,
{
}

/// A failure of the macOS backend converted into an error is shown as the
/// text of the failure, unchanged.
pub proof fn mac_failure_shown_verbatim(m: MacOsError, e: Error, shown: String)
    requires
        call_ensures(<Error as From<MacOsError>>::from, (m,), e),
        call_ensures(Error::to_string, (&e,), shown),
    ensures
        shown@ == m@,
{
}

/// An image failure converted into an error is shown as the text of the
/// failure, unchanged.
pub proof fn image_failure_shown_verbatim(i: ImageError, e: Error, shown: String)
    requires
        call_ensures(<Error as From<ImageError>>::from, (i,), e),
        call_ensures(Error::to_string, (&e,), shown),
    ensures
        shown@ == i@,
{
}

} // verus!
