//! The unified error type, its kinds, and the text each kind is shown as.
//!
//! An [`Error`] owns one [`ErrorKind`]. Its model is a [`KindView`]: the kind
//! with every owned string replaced by its characters. What an error is
//! shown as has two parts. The *inner text* is a text of what the kind
//! holds: the message, or what displaying the failure inside gives. The
//! *frame* is what a kind puts around that text: a prefix, nothing, or a
//! fixed message in its place.

use crate::backend::{dbus_failure_displayed, parse_failure_displayed, zbus_failure_displayed};
use crate::image::ImageError;
use crate::macos::MacOsError;
use dbus::Error as DbusError;
use std::num::ParseIntError;
use vstd::prelude::*;
use vstd::std_specs::convert::FromSpecImpl;
use vstd::string::StringExecFns;
use zbus::Error as ZbusError;

verus! {

/// What fallible operations of the library return.
pub type Result<T> = std::result::Result<T, Error>;

/// Put in front of the text of an integer-parse failure.
pub const PARSE_PREFIX: &'static str = "Parsing Error: ";

/// Put in front of the message of a failed conversion.
pub const CONVERSION_PREFIX: &'static str = "Conversion Error: ";

/// Shown where no backend is available.
pub const IMPLEMENTATION_MISSING: &'static str =
    "No Dbus implementation available, please compile with either feature =\"z\" or feature=\"d\"";

/// The kind of an error.
#[derive(Debug)]
#[non_exhaustive]
pub enum ErrorKind {
    /// A free-form message.
    Msg(String),
    /// A failure of the backend that speaks D-Bus through `dbus`.
    Dbus(DbusError),
    /// A failure of the backend that speaks D-Bus through `zbus`.
    Zbus(ZbusError),
    /// A failure of the native macOS backend.
    MacNotificationSys(MacOsError),
    /// A failure to parse an integer from text.
    Parse(ParseIntError),
    /// The version that a notification server reports could not be read.
    SpecVersion(String),
    /// A failed conversion between two representations.
    Conversion(String),
    /// A failure to decode or encode an icon image.
    Image(ImageError),
    /// No backend is available.
    ImplementationMissing,
}

/// The model of an [`ErrorKind`]: the same cases, each string as its
/// characters. A failure of `dbus`, of `zbus` or of integer parsing stays
/// the value it is; a failure of the macOS backend or of an image is the
/// text it holds.
pub enum KindView {
    /// A message, by its characters.
    Msg(Seq<char>),
    /// The `dbus` failure itself.
    Dbus(DbusError),
    /// The `zbus` failure itself.
    Zbus(ZbusError),
    /// The text of a macOS failure.
    MacNotificationSys(Seq<char>),
    /// The integer-parse failure itself.
    Parse(ParseIntError),
    /// The message of an unreadable version.
    SpecVersion(Seq<char>),
    /// The message of a failed conversion.
    Conversion(Seq<char>),
    /// The text of an image failure.
    Image(Seq<char>),
    /// Nothing is held.
    ImplementationMissing,
}

impl KindView {
    /// Whether `inner` is a text of what the kind holds: the characters of a
    /// message, a text that displaying a failure gives, and the empty text
    /// where the kind holds nothing.
    pub open spec fn has_inner_text(self, inner: String) -> bool {
        match self {
            KindView::Msg(m) => inner@ == m,
            KindView::Dbus(e) => dbus_failure_displayed(e, inner),
            KindView::Zbus(e) => zbus_failure_displayed(e, inner),
            KindView::MacNotificationSys(t) => inner@ == t,
            KindView::Parse(e) => parse_failure_displayed(e, inner),
            KindView::SpecVersion(m) => inner@ == m,
            KindView::Conversion(m) => inner@ == m,
            KindView::Image(t) => inner@ == t,
            KindView::ImplementationMissing => inner@ == Seq::<char>::empty(),
        }
    }

    /// What the kind is shown as when `inner` is the text of what it holds:
    /// a parse failure and a failed conversion put their prefix in front, a
    /// missing implementation shows its fixed message, and every other kind
    /// shows `inner` unchanged.
    pub open spec fn framed(self, inner: Seq<char>) -> Seq<char> {
        match self {
            KindView::Parse(_) => PARSE_PREFIX@ + inner,
            KindView::Conversion(_) => CONVERSION_PREFIX@ + inner,
            KindView::ImplementationMissing => IMPLEMENTATION_MISSING@,
            _ => inner,
        }
    }

    /// Whether `text` is what the kind is shown as: its frame around a text
    /// of what it holds.
    pub open spec fn shown_as(self, text: Seq<char>) -> bool {
        exists|inner: String| #[trigger] self.has_inner_text(inner) && text == self.framed(inner@)
    }
}

impl View for ErrorKind {
    type V = KindView;

    open spec fn view(&self) -> KindView {
        match *self {
            ErrorKind::Msg(m) => KindView::Msg(m@),
            ErrorKind::Dbus(e) => KindView::Dbus(e),
            ErrorKind::Zbus(e) => KindView::Zbus(e),
            ErrorKind::MacNotificationSys(e) => KindView::MacNotificationSys(e@),
            ErrorKind::Parse(e) => KindView::Parse(e),
            ErrorKind::SpecVersion(m) => KindView::SpecVersion(m@),
            ErrorKind::Conversion(m) => KindView::Conversion(m@),
            ErrorKind::Image(e) => KindView::Image(e@),
            ErrorKind::ImplementationMissing => KindView::ImplementationMissing,
        }
    }
}

impl ErrorKind {
    /// A text of what the kind holds. A failure from outside is displayed
    /// to get it.
    pub fn inner_text(&self) -> (inner: String)
        ensures
            self@.has_inner_text(inner),
    {
        match self {
            ErrorKind::Msg(m) => m.clone(),
            ErrorKind::Dbus(e) => e.to_string(),
            ErrorKind::Zbus(e) => e.to_string(),
            ErrorKind::MacNotificationSys(e) => e.to_string(),
            ErrorKind::Parse(e) => e.to_string(),
            ErrorKind::SpecVersion(m) => m.clone(),
            ErrorKind::Conversion(m) => m.clone(),
            ErrorKind::Image(e) => e.to_string(),
            ErrorKind::ImplementationMissing => String::new(),
        }
    }

    /// Puts the kind's frame around `inner`.
    pub fn frame(&self, inner: &str) -> (text: String)
        ensures
            text@ == self@.framed(inner@),
    {
        match self {
            ErrorKind::Parse(_) => String::from_str(PARSE_PREFIX).concat(inner),
            ErrorKind::Conversion(_) => String::from_str(CONVERSION_PREFIX).concat(inner),
            ErrorKind::ImplementationMissing => String::from_str(IMPLEMENTATION_MISSING),
            _ => String::from_str(inner),
        }
    }
}

/// The error type.
#[derive(Debug)]
pub struct Error {
    kind: ErrorKind,
}

impl View for Error {
    type V = KindView;

    closed spec fn view(&self) -> KindView {
        self.kind@
    }
}

impl Error {
    /// The text that the error is shown as: the frame of its kind around the
    /// text of what it holds.
    pub fn to_string(&self) -> (text: String)
        ensures
            self@.shown_as(text@),
    {
        let inner = self.kind.inner_text();
        self.kind.frame(inner.as_str())
    }
}

impl From<&str> for Error {
    /// A message becomes a `Msg`.
    fn from(e: &str) -> (r: Error)
        ensures
            r@ == KindView::Msg(e@),
    {
        Error { kind: ErrorKind::Msg(e.to_owned()) }
    }
}

impl FromSpecImpl<&str> for Error {
    /// The characters of the result are fixed, the `String` that holds them
    /// is not.
    open spec fn obeys_from_spec() -> bool {
        false
    }

    open spec fn from_spec(e: &str) -> Error {
        choose|r: Error| r@ == KindView::Msg(e@)
    }
}

impl From<DbusError> for Error {
    /// A failure of the `dbus` backend becomes a `Dbus`, kept as it is.
    fn from(e: DbusError) -> (r: Error)
        ensures
            r@ == KindView::Dbus(e),
    {
        Error { kind: ErrorKind::Dbus(e) }
    }
}

impl FromSpecImpl<DbusError> for Error {
    open spec fn obeys_from_spec() -> bool {
        true
    }

    closed spec fn from_spec(e: DbusError) -> Error {
        Error { kind: ErrorKind::Dbus(e) }
    }
}

impl From<ZbusError> for Error {
    /// A failure of the `zbus` backend becomes a `Zbus`, kept as it is.
    fn from(e: ZbusError) -> (r: Error)
        ensures
            r@ == KindView::Zbus(e),
    {
        Error { kind: ErrorKind::Zbus(e) }
    }
}

impl FromSpecImpl<ZbusError> for Error {
    open spec fn obeys_from_spec() -> bool {
        true
    }

    closed spec fn from_spec(e: ZbusError) -> Error {
        Error { kind: ErrorKind::Zbus(e) }
    }
}

impl From<MacOsError> for Error {
    /// A failure of the macOS backend becomes a `MacNotificationSys`.
    fn from(e: MacOsError) -> (r: Error)
        ensures
            r@ == KindView::MacNotificationSys(e@),
    {
        Error { kind: ErrorKind::MacNotificationSys(e) }
    }
}

impl FromSpecImpl<MacOsError> for Error {
    open spec fn obeys_from_spec() -> bool {
        true
    }

    closed spec fn from_spec(e: MacOsError) -> Error {
        Error { kind: ErrorKind::MacNotificationSys(e) }
    }
}

impl From<ImageError> for Error {
    /// An image failure becomes an `Image`.
    fn from(e: ImageError) -> (r: Error)
        ensures
            r@ == KindView::Image(e@),
    {
        Error { kind: ErrorKind::Image(e) }
    }
}

impl FromSpecImpl<ImageError> for Error {
    open spec fn obeys_from_spec() -> bool {
        true
    }

    closed spec fn from_spec(e: ImageError) -> Error {
        Error { kind: ErrorKind::Image(e) }
    }
}

impl From<ParseIntError> for Error {
    /// An integer-parse failure becomes a `Parse`, kept as it is.
    fn from(e: ParseIntError) -> (r: Error)
        ensures
            r@ == KindView::Parse(e),
    {
        Error { kind: ErrorKind::Parse(e) }
    }
}

impl FromSpecImpl<ParseIntError> for Error {
    open spec fn obeys_from_spec() -> bool {
        true
    }

    closed spec fn from_spec(e: ParseIntError) -> Error {
        Error { kind: ErrorKind::Parse(e) }
    }
}

impl From<ErrorKind> for Error {
    /// A kind becomes the error of that kind.
    fn from(kind: ErrorKind) -> (r: Error)
        ensures
            r@ == kind@,
    {
        Error { kind }
    }
}

impl FromSpecImpl<ErrorKind> for Error {
    open spec fn obeys_from_spec() -> bool {
        true
    }

    closed spec fn from_spec(kind: ErrorKind) -> Error {
        Error { kind }
    }
}

/// Whether `r` is the failure that converting `e` gives: an `Err` with an
/// error that [`Error::from`] can return for `e`.
pub open spec fn failed_with<T, E>(r: Result<T>, e: E) -> bool where Error: From<E> {
    r matches Err(err) && call_ensures(<Error as From<E>>::from, (e,), err)
}

/// Fails with `e` converted into an [`Error`]. A caller leaves early by
/// returning what this returns.
pub fn bail<T, E>(e: E) -> (r: Result<T>) where Error: From<E>
    ensures
        failed_with(r, e),
{
    Err(Error::from(e))
}

/// Succeeds where `cond` holds, and fails as [`bail`] does where it does not.
pub fn ensure<E>(cond: bool, e: E) -> (r: Result<()>) where Error: From<E>
    ensures
        cond ==> r is Ok,
        !cond ==> failed_with(r, e),
{
    if cond {
        Ok(())
    } else {
        bail(e)
    }
}

} // verus!
