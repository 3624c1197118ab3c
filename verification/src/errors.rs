//! The error taxonomy of the bot: every failure is classified by its cause
//! before it reaches the caller, and no raw platform error escapes
//! un-annotated.

use vstd::prelude::*;

verus! {

/// The possible causes of an error:
/// - `User`: the invoking user made a mistake.
/// - `Admin`: the guild is misconfigured by its administrator.
/// - `Host`: the bot's hosting provider misconfigured it.
/// - `Developer`: an assumption made by the bot's developer was wrong.
/// - `External`: an external service failed and nothing can be done about it.
#[derive(Clone, Copy, Debug, PartialEq, Eq, Structural)]
pub enum ErrorKind {
    User,
    Admin,
    Host,
    Developer,
    External,
}

/// An error that occurred during the bot's operation: a cause, and
/// optionally a human-readable message.
#[derive(Debug, Clone)]
pub struct BobError {
    pub knd: ErrorKind,
    pub msg: Option<String>,
}

impl BobError {
    /// Create a new [`BobError`] given an [`ErrorKind`] and a message.
    pub fn from_msg(knd: ErrorKind, msg: &str) -> (r: BobError)
        ensures
            r.knd == knd,
            r.msg matches Some(m) && m@ == msg@,
    {
        BobError { knd, msg: Some(msg.to_owned()) }
    }
}

/// How loudly an error is logged: a user's or an administrator's mistake
/// is everyday noise, an external failure is worth a warning, and a broken
/// assumption of the host or the developer is a real problem.
#[derive(Clone, Copy, Debug, PartialEq, Eq, Structural)]
pub enum LogSeverity {
    Debug,
    Warn,
    Error,
}

/// The emoji that opens a user-facing rendering of an error of this kind.
pub open spec fn spec_kind_emoji(knd: ErrorKind) -> Seq<char> {
    match knd {
        ErrorKind::User => "\u{26a0}\u{fe0f}"@,
        ErrorKind::Admin => "\u{26d4}\u{fe0f}"@,
        ErrorKind::Host => "\u{2622}\u{fe0f}"@,
        ErrorKind::Developer => "\u{1f41b}"@,
        ErrorKind::External => "\u{1f310}"@,
    }
}

/// The user-facing rendering of an error: its kind's emoji, a space, and
/// its message if it has one.
pub open spec fn spec_discord_text(e: BobError) -> Seq<char> {
    spec_kind_emoji(e.knd) + " "@ + (match e.msg {
        Some(m) => m@,
        None => Seq::<char>::empty(),
    })
}

impl BobError {
    /// Render the error for the invoking user: the kind's emoji followed
    /// by the message.
    pub fn to_discord(&self) -> (r: String)
        ensures
            r@ == spec_discord_text(*self),
    {
        let emoji: &str = match self.knd {
            ErrorKind::User => "\u{26a0}\u{fe0f}",
            ErrorKind::Admin => "\u{26d4}\u{fe0f}",
            ErrorKind::Host => "\u{2622}\u{fe0f}",
            ErrorKind::Developer => "\u{1f41b}",
            ErrorKind::External => "\u{1f310}",
        };
        let mut text = emoji.to_owned();
        text.append(" ");
        match &self.msg {
            Some(m) => text.append(m.as_str()),
            None => (),
        }
        text
    }

    /// How loudly this error is logged when handled.
    pub fn log_severity(&self) -> (s: LogSeverity)
        ensures
            (self.knd == ErrorKind::User || self.knd == ErrorKind::Admin) <==> s
                == LogSeverity::Debug,
            self.knd == ErrorKind::External <==> s == LogSeverity::Warn,
            (self.knd == ErrorKind::Host || self.knd == ErrorKind::Developer) <==> s
                == LogSeverity::Error,
    {
        match self.knd {
            ErrorKind::User => LogSeverity::Debug,
            ErrorKind::Admin => LogSeverity::Debug,
            ErrorKind::Host => LogSeverity::Error,
            ErrorKind::Developer => LogSeverity::Error,
            ErrorKind::External => LogSeverity::Warn,
        }
    }
}

/// Classify an error value from an external service: the value itself is
/// dropped (the caller logs it), and only the given message is kept.
pub fn convert_error<T>(_error: T, msg: &str) -> (r: BobError)
    ensures
        r.knd == ErrorKind::External,
        r.msg matches Some(m) && m@ == msg@,
{
    BobError::from_msg(ErrorKind::External, msg)
}

/// A [`Result`] that always returns a [`BobError`] as its error.
pub type BobResult<T> = Result<T, BobError>;

/// Conversion of a fallible value into a [`BobResult`] with a given
/// [`ErrorKind`] and message. Implemented for [`Result`] and [`Option`].
pub trait BobCatch<T>: Sized {
    /// The successful value carried by `self`, if there is one.
    spec fn catch_ok(self) -> Option<T>;

    /// Convert `self` into a [`BobResult`], classifying a failure as an
    /// error of kind `knd` carrying `msg`.
    fn bob_catch(self, knd: ErrorKind, msg: &str) -> (r: BobResult<T>)
        ensures
            r matches Ok(v) ==> self.catch_ok() == Some(v),
            self.catch_ok() matches Some(v) ==> r matches Ok(w) && w == v,
            r matches Err(e) ==> self.catch_ok() is None && e.knd == knd
                && (e.msg matches Some(m) && m@ == msg@),
    ;
}

impl<T> BobCatch<T> for Option<T> {
    open spec fn catch_ok(self) -> Option<T> {
        self
    }

    fn bob_catch(self, knd: ErrorKind, msg: &str) -> (r: BobResult<T>) {
        match self {
            Some(v) => Ok(v),
            None => Err(BobError::from_msg(knd, msg)),
        }
    }
}

impl<T, E> BobCatch<T> for Result<T, E> {
    open spec fn catch_ok(self) -> Option<T> {
        match self {
            Ok(v) => Some(v),
            Err(_) => None,
        }
    }

    fn bob_catch(self, knd: ErrorKind, msg: &str) -> (r: BobResult<T>) {
        match self {
            Ok(v) => Ok(v),
            Err(_) => Err(BobError::from_msg(knd, msg)),
        }
    }
}

} // verus!
