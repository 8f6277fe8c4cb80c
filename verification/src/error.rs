//! Errors of libmpv and of the wrapper around it.

use vstd::prelude::*;

use crate::cstring;
use crate::cstring::CString;
use crate::sys;

verus! {

/// Specialized `Result` used throughout this crate.
pub type Result<T> = core::result::Result<T, Error>;

/// An error from libmpv, or from the wrapper itself.
#[derive(Debug, Clone, Copy, PartialEq, Eq, Structural)]
#[non_exhaustive]
pub enum Error {
    /// The event ringbuffer is full; the client can't receive more events.
    EventQueueFull,
    /// Memory allocation failed.
    OutOfMemory,
    /// The mpv core has not been initialized yet.
    Uninitialized,
    /// Invalid or unsupported parameter value.
    InvalidParameter,
    /// The option doesn't exist.
    OptionNotFound,
    /// Unsupported format for the option.
    OptionFormat,
    /// Setting the option failed (e.g. parse error).
    OptionError,
    /// The property doesn't exist.
    PropertyNotFound,
    /// Unsupported format for the property.
    PropertyFormat,
    /// The property exists but is currently unavailable.
    PropertyUnavailable,
    /// Error getting or setting the property.
    PropertyError,
    /// Error running a command.
    Command,
    /// Generic loading error.
    LoadingFailed,
    /// Initializing the audio output failed.
    AoInitFailed,
    /// Initializing the video output failed.
    VoInitFailed,
    /// No audio or video data to play.
    NothingToPlay,
    /// File format not recognized, or file too broken to open.
    UnknownFormat,
    /// System requirements not fulfilled.
    Unsupported,
    /// The called API function is only a stub.
    NotImplemented,
    /// Unspecified error.
    Generic,
    /// A negative error code from libmpv this crate doesn't know about.
    Other(i32),
    /// A string argument contained an interior NUL byte and can't be passed
    /// to libmpv (not an error of libmpv).
    InteriorNul,
    /// libmpv returned a null handle from a create function (typically out of
    /// memory, or `LC_NUMERIC` is not `"C"`).
    CreateFailed,
}

/// Whether `code` is one of the error codes of the client API.
pub open spec fn is_known_code(code: i32) -> bool {
    sys::MPV_ERROR_GENERIC <= code <= sys::MPV_ERROR_EVENT_QUEUE_FULL
}

impl Error {
    /// The libmpv error code of each variant; none for the errors that are
    /// the wrapper's own.
    pub open spec fn code(self) -> Option<i32> {
        match self {
            Error::EventQueueFull => Some(sys::MPV_ERROR_EVENT_QUEUE_FULL),
            Error::OutOfMemory => Some(sys::MPV_ERROR_NOMEM),
            Error::Uninitialized => Some(sys::MPV_ERROR_UNINITIALIZED),
            Error::InvalidParameter => Some(sys::MPV_ERROR_INVALID_PARAMETER),
            Error::OptionNotFound => Some(sys::MPV_ERROR_OPTION_NOT_FOUND),
            Error::OptionFormat => Some(sys::MPV_ERROR_OPTION_FORMAT),
            Error::OptionError => Some(sys::MPV_ERROR_OPTION_ERROR),
            Error::PropertyNotFound => Some(sys::MPV_ERROR_PROPERTY_NOT_FOUND),
            Error::PropertyFormat => Some(sys::MPV_ERROR_PROPERTY_FORMAT),
            Error::PropertyUnavailable => Some(sys::MPV_ERROR_PROPERTY_UNAVAILABLE),
            Error::PropertyError => Some(sys::MPV_ERROR_PROPERTY_ERROR),
            Error::Command => Some(sys::MPV_ERROR_COMMAND),
            Error::LoadingFailed => Some(sys::MPV_ERROR_LOADING_FAILED),
            Error::AoInitFailed => Some(sys::MPV_ERROR_AO_INIT_FAILED),
            Error::VoInitFailed => Some(sys::MPV_ERROR_VO_INIT_FAILED),
            Error::NothingToPlay => Some(sys::MPV_ERROR_NOTHING_TO_PLAY),
            Error::UnknownFormat => Some(sys::MPV_ERROR_UNKNOWN_FORMAT),
            Error::Unsupported => Some(sys::MPV_ERROR_UNSUPPORTED),
            Error::NotImplemented => Some(sys::MPV_ERROR_NOT_IMPLEMENTED),
            Error::Generic => Some(sys::MPV_ERROR_GENERIC),
            Error::Other(code) => Some(code),
            Error::InteriorNul | Error::CreateFailed => None,
        }
    }

    /// The error that `code` is converted into: the variant named after it, and
    /// `Other` for a code without a name.
    pub open spec fn of_code(code: i32) -> Error {
        if code == sys::MPV_ERROR_EVENT_QUEUE_FULL {
            Error::EventQueueFull
        } else if code == sys::MPV_ERROR_NOMEM {
            Error::OutOfMemory
        } else if code == sys::MPV_ERROR_UNINITIALIZED {
            Error::Uninitialized
        } else if code == sys::MPV_ERROR_INVALID_PARAMETER {
            Error::InvalidParameter
        } else if code == sys::MPV_ERROR_OPTION_NOT_FOUND {
            Error::OptionNotFound
        } else if code == sys::MPV_ERROR_OPTION_FORMAT {
            Error::OptionFormat
        } else if code == sys::MPV_ERROR_OPTION_ERROR {
            Error::OptionError
        } else if code == sys::MPV_ERROR_PROPERTY_NOT_FOUND {
            Error::PropertyNotFound
        } else if code == sys::MPV_ERROR_PROPERTY_FORMAT {
            Error::PropertyFormat
        } else if code == sys::MPV_ERROR_PROPERTY_UNAVAILABLE {
            Error::PropertyUnavailable
        } else if code == sys::MPV_ERROR_PROPERTY_ERROR {
            Error::PropertyError
        } else if code == sys::MPV_ERROR_COMMAND {
            Error::Command
        } else if code == sys::MPV_ERROR_LOADING_FAILED {
            Error::LoadingFailed
        } else if code == sys::MPV_ERROR_AO_INIT_FAILED {
            Error::AoInitFailed
        } else if code == sys::MPV_ERROR_VO_INIT_FAILED {
            Error::VoInitFailed
        } else if code == sys::MPV_ERROR_NOTHING_TO_PLAY {
            Error::NothingToPlay
        } else if code == sys::MPV_ERROR_UNKNOWN_FORMAT {
            Error::UnknownFormat
        } else if code == sys::MPV_ERROR_UNSUPPORTED {
            Error::Unsupported
        } else if code == sys::MPV_ERROR_NOT_IMPLEMENTED {
            Error::NotImplemented
        } else if code == sys::MPV_ERROR_GENERIC {
            Error::Generic
        } else {
            Error::Other(code)
        }
    }

    /// The text of the error. `text` is what libmpv says about the code of the
    /// error, where it has one.
    pub open spec fn spec_message(self, text: Seq<u8>) -> Seq<char> {
        match self {
            Error::InteriorNul => "string contains an interior NUL byte"@,
            Error::CreateFailed => "mpv handle creation returned null"@,
            other => cstring::lossy_text(text) + " ("@ + decimal(other.code()->0 as int) + ")"@,
        }
    }

    /// Convert a raw libmpv error code (negative for every error of libmpv)
    /// into an `Error`.
    pub fn from_raw(code: i32) -> (e: Error)
        ensures
            e == Error::of_code(code),
    {
        if code == sys::MPV_ERROR_EVENT_QUEUE_FULL {
            Error::EventQueueFull
        } else if code == sys::MPV_ERROR_NOMEM {
            Error::OutOfMemory
        } else if code == sys::MPV_ERROR_UNINITIALIZED {
            Error::Uninitialized
        } else if code == sys::MPV_ERROR_INVALID_PARAMETER {
            Error::InvalidParameter
        } else if code == sys::MPV_ERROR_OPTION_NOT_FOUND {
            Error::OptionNotFound
        } else if code == sys::MPV_ERROR_OPTION_FORMAT {
            Error::OptionFormat
        } else if code == sys::MPV_ERROR_OPTION_ERROR {
            Error::OptionError
        } else if code == sys::MPV_ERROR_PROPERTY_NOT_FOUND {
            Error::PropertyNotFound
        } else if code == sys::MPV_ERROR_PROPERTY_FORMAT {
            Error::PropertyFormat
        } else if code == sys::MPV_ERROR_PROPERTY_UNAVAILABLE {
            Error::PropertyUnavailable
        } else if code == sys::MPV_ERROR_PROPERTY_ERROR {
            Error::PropertyError
        } else if code == sys::MPV_ERROR_COMMAND {
            Error::Command
        } else if code == sys::MPV_ERROR_LOADING_FAILED {
            Error::LoadingFailed
        } else if code == sys::MPV_ERROR_AO_INIT_FAILED {
            Error::AoInitFailed
        } else if code == sys::MPV_ERROR_VO_INIT_FAILED {
            Error::VoInitFailed
        } else if code == sys::MPV_ERROR_NOTHING_TO_PLAY {
            Error::NothingToPlay
        } else if code == sys::MPV_ERROR_UNKNOWN_FORMAT {
            Error::UnknownFormat
        } else if code == sys::MPV_ERROR_UNSUPPORTED {
            Error::Unsupported
        } else if code == sys::MPV_ERROR_NOT_IMPLEMENTED {
            Error::NotImplemented
        } else if code == sys::MPV_ERROR_GENERIC {
            Error::Generic
        } else {
            Error::Other(code)
        }
    }

    /// The raw libmpv error code, if this error came from (or maps onto)
    /// libmpv.
    pub fn raw_code(&self) -> (code: Option<i32>)
        ensures
            code == self.code(),
    {
        match self {
            Error::EventQueueFull => Some(sys::MPV_ERROR_EVENT_QUEUE_FULL),
            Error::OutOfMemory => Some(sys::MPV_ERROR_NOMEM),
            Error::Uninitialized => Some(sys::MPV_ERROR_UNINITIALIZED),
            Error::InvalidParameter => Some(sys::MPV_ERROR_INVALID_PARAMETER),
            Error::OptionNotFound => Some(sys::MPV_ERROR_OPTION_NOT_FOUND),
            Error::OptionFormat => Some(sys::MPV_ERROR_OPTION_FORMAT),
            Error::OptionError => Some(sys::MPV_ERROR_OPTION_ERROR),
            Error::PropertyNotFound => Some(sys::MPV_ERROR_PROPERTY_NOT_FOUND),
            Error::PropertyFormat => Some(sys::MPV_ERROR_PROPERTY_FORMAT),
            Error::PropertyUnavailable => Some(sys::MPV_ERROR_PROPERTY_UNAVAILABLE),
            Error::PropertyError => Some(sys::MPV_ERROR_PROPERTY_ERROR),
            Error::Command => Some(sys::MPV_ERROR_COMMAND),
            Error::LoadingFailed => Some(sys::MPV_ERROR_LOADING_FAILED),
            Error::AoInitFailed => Some(sys::MPV_ERROR_AO_INIT_FAILED),
            Error::VoInitFailed => Some(sys::MPV_ERROR_VO_INIT_FAILED),
            Error::NothingToPlay => Some(sys::MPV_ERROR_NOTHING_TO_PLAY),
            Error::UnknownFormat => Some(sys::MPV_ERROR_UNKNOWN_FORMAT),
            Error::Unsupported => Some(sys::MPV_ERROR_UNSUPPORTED),
            Error::NotImplemented => Some(sys::MPV_ERROR_NOT_IMPLEMENTED),
            Error::Generic => Some(sys::MPV_ERROR_GENERIC),
            Error::Other(code) => Some(*code),
            Error::InteriorNul | Error::CreateFailed => None,
        }
    }
}

impl Error {
    /// The text of the error. `text` is what libmpv says about the code of the
    /// error (see [`raw_code`](Error::raw_code)); it is not used for an error
    /// without one.
    pub fn message(&self, text: &CString) -> (s: String)
        ensures
            s@ == self.spec_message(text@),
    {
        match self {
            Error::InteriorNul => "string contains an interior NUL byte".to_owned(),
            Error::CreateFailed => "mpv handle creation returned null".to_owned(),
            other => {
                let code: i32 = match other.raw_code() {
                    Some(code) => code,
                    None => sys::MPV_ERROR_GENERIC,
                };
                let mut s: String = text.to_string_lossy();
                s.append(" (");
                s.append(decimal_string(code).as_str());
                s.append(")");
                s
            },
        }
    }
}

/// The decimal digit `d`.
pub open spec fn digit(d: int) -> char {
    ('0' as int + d) as char
}

/// The decimal digits of `n`, without leading zeros.
pub open spec fn digits(n: nat) -> Seq<char>
    decreases n,
{
    if n < 10 {
        seq![digit(n as int)]
    } else {
        digits(n / 10).push(digit((n % 10) as int))
    }
}

/// `n` in decimal.
pub open spec fn decimal(n: int) -> Seq<char> {
    if n < 0 {
        seq!['-'] + digits((-n) as nat)
    } else {
        digits(n as nat)
    }
}

fn digit_str(d: u32) -> (s: &'static str)
    requires
        d < 10,
    ensures
        s@ == seq![digit(d as int)],
{
    proof {
        reveal_strlit("0");
        reveal_strlit("1");
        reveal_strlit("2");
        reveal_strlit("3");
        reveal_strlit("4");
        reveal_strlit("5");
        reveal_strlit("6");
        reveal_strlit("7");
        reveal_strlit("8");
        reveal_strlit("9");
    }
    match d {
        0 => "0",
        1 => "1",
        2 => "2",
        3 => "3",
        4 => "4",
        5 => "5",
        6 => "6",
        7 => "7",
        8 => "8",
        _ => "9",
    }
}

/// Append the digits of `n` to `s`.
fn append_digits(s: &mut String, n: u32)
    ensures
        final(s)@ == old(s)@ + digits(n as nat),
    decreases n,
{
    if n >= 10 {
        append_digits(s, n / 10);
    }
    s.append(digit_str(n % 10));
}

/// `n` in decimal.
fn decimal_string(n: i32) -> (s: String)
    ensures
        s@ == decimal(n as int),
{
    let mut s: String = String::new();
    if n < 0 {
        proof {
            reveal_strlit("-");
        }
        s.append("-");
        append_digits(&mut s, (-(n as i64)) as u32);
    } else {
        append_digits(&mut s, n as u32);
    }
    s
}

/// A code survives the conversion into an error and back.
pub proof fn law_code_round_trip(code: i32)
    ensures
        Error::of_code(code).code() == Some(code),
        Error::of_code(code) is Other <==> !is_known_code(code),
{
}

/// An error of libmpv survives the conversion into its code and back, unless
/// it is an `Other` that holds a code with a name.
pub proof fn law_error_round_trip(e: Error)
    requires
        e matches Error::Other(code) ==> !is_known_code(code),
    ensures
        e.code() matches Some(code) ==> Error::of_code(code) == e,
        e.code() is None <==> e is InteriorNul || e is CreateFailed,
{
}

/// Map a libmpv status return (`>= 0` success) to a `Result`.
pub fn check(code: i32) -> (r: Result<i32>)
    ensures
        r == checked(code),
{
    if code >= 0 {
        Ok(code)
    } else {
        Err(Error::from_raw(code))
    }
}

/// The result that a status return stands for: itself if it is not negative,
/// else the error of that code.
pub open spec fn checked(code: i32) -> Result<i32> {
    if code >= 0 {
        Ok(code)
    } else {
        Err(Error::of_code(code))
    }
}

/// Like [`check`], for calls whose success carries no value.
pub fn status(code: i32) -> (r: Result<()>)
    ensures
        r == status_of(code),
{
    match check(code) {
        Ok(_) => Ok(()),
        Err(e) => Err(e),
    }
}

/// The result of a call whose success carries no value.
pub open spec fn status_of(code: i32) -> Result<()> {
    if code >= 0 {
        Ok(())
    } else {
        Err(Error::of_code(code))
    }
}

/// Which error each code of the client API stands for; every other code is
/// kept.
pub proof fn law_errors_by_number(code: i32, e: Error)
    requires
        call_ensures(Error::from_raw, (code,), e),
    ensures
        e == Error::of_code(code),
        code == -1 <==> e is EventQueueFull,
        code == -2 <==> e is OutOfMemory,
        code == -3 <==> e is Uninitialized,
        code == -4 <==> e is InvalidParameter,
        code == -5 <==> e is OptionNotFound,
        code == -6 <==> e is OptionFormat,
        code == -7 <==> e is OptionError,
        code == -8 <==> e is PropertyNotFound,
        code == -9 <==> e is PropertyFormat,
        code == -10 <==> e is PropertyUnavailable,
        code == -11 <==> e is PropertyError,
        code == -12 <==> e is Command,
        code == -13 <==> e is LoadingFailed,
        code == -14 <==> e is AoInitFailed,
        code == -15 <==> e is VoInitFailed,
        code == -16 <==> e is NothingToPlay,
        code == -17 <==> e is UnknownFormat,
        code == -18 <==> e is Unsupported,
        code == -19 <==> e is NotImplemented,
        code == -20 <==> e is Generic,
        e matches Error::Other(n) ==> n == code,
        !(e is InteriorNul) && !(e is CreateFailed),
{
}

/// The code of an error is the one that it was made from, for every code; the
/// two errors of the wrapper itself have none.
pub proof fn law_raw_code_is_the_code(e: Error, code: Option<i32>)
    requires
        call_ensures(Error::raw_code, (&e,), code),
    ensures
        code == e.code(),
        code is None <==> e is InteriorNul || e is CreateFailed,
        forall|n: i32| #[trigger] call_ensures(Error::from_raw, (n,), e) ==> code == Some(n),
        forall|n: i32| e == Error::Other(n) ==> code == Some(n),
{
}

/// A status that is not negative is a success, and its value is passed on; a
/// negative one is the error with that code.
pub proof fn law_status_is_success_or_its_error(code: i32, r: Result<i32>, s: Result<()>)
    ensures
        call_ensures(check, (code,), r) ==> match r {
            Ok(n) => code >= 0 && n == code,
            Err(e) => code < 0 && e.code() == Some(code),
        },
        call_ensures(status, (code,), s) ==> match s {
            Ok(_) => code >= 0,
            Err(e) => code < 0 && e.code() == Some(code),
        },
        status_of(code) is Ok <==> code >= 0,
        checked(code) is Ok <==> code >= 0,
        checked(code) matches Ok(n) ==> n == code,
        checked(code) matches Err(e) ==> e.code() == Some(code),
        status_of(code) matches Err(e) ==> e.code() == Some(code),
{
    law_code_round_trip(code);
}

/// The number that a text of decimal digits stands for.
pub open spec fn number_of(s: Seq<char>) -> int
    decreases s.len(),
{
    if s.len() == 0 {
        0
    } else {
        number_of(s.drop_last()) * 10 + (s.last() as int - '0' as int)
    }
}

/// The digits of a number stand for that number, and the first of several is
/// not `0`.
pub proof fn law_digits_stand_for_the_number(n: nat)
    ensures
        digits(n).len() > 0,
        forall|i: int| 0 <= i < digits(n).len() ==> '0' <= #[trigger] digits(n)[i] <= '9',
        number_of(digits(n)) == n,
        digits(n).len() > 1 ==> digits(n)[0] != '0',
        digits(n) == seq!['0'] <==> n == 0,
    decreases n,
{
    reveal_with_fuel(number_of, 2);
    if n < 10 {
        assert(digits(n).drop_last() =~= Seq::empty());
        if digits(n) == seq!['0'] {
            assert(digits(n)[0] == '0');
        }
        if n == 0 {
            assert(digits(n) =~= seq!['0']);
        }
    } else {
        law_digits_stand_for_the_number(n / 10);
        let d = digit((n % 10) as int);
        assert(digits(n).drop_last() =~= digits(n / 10));
        assert(digits(n).last() == d);
        assert(digits(n).len() == digits(n / 10).len() + 1);
        assert(digits(n)[0] == digits(n / 10)[0]);
        if digits(n / 10).len() == 1 {
            assert(digits(n / 10) == seq![digits(n / 10)[0]]);
        }
        assert(digits(n) != seq!['0']) by {
            assert(digits(n).len() > 1);
        }
    }
}

/// A number in decimal is its digits, behind a minus sign exactly if it is
/// negative, so that two numbers never share a text.
pub proof fn law_decimal_stands_for_the_number(n: int)
    ensures
        n >= 0 ==> number_of(decimal(n)) == n && decimal(n)[0] != '-',
        n < 0 ==> decimal(n)[0] == '-' && number_of(decimal(n).drop_first()) == -n,
{
    if n < 0 {
        law_digits_stand_for_the_number((-n) as nat);
        assert(decimal(n).drop_first() =~= digits((-n) as nat));
    } else {
        law_digits_stand_for_the_number(n as nat);
    }
}

/// The message of an error of libmpv is what libmpv says about it, followed by
/// a space and the code in decimal between parentheses. The two errors of the
/// wrapper say what they are, whatever text is at hand.
pub proof fn law_message_ends_with_the_code(e: Error, text: &CString, s: String)
    requires
        call_ensures(Error::message, (&e, text), s),
    ensures
        s@ == e.spec_message(text@),
        e.code() matches Some(code) ==> {
            let said = cstring::lossy_text(text@);
            let number = decimal(code as int);
            &&& s@.len() == said.len() + number.len() + 3
            &&& s@.take(said.len() as int) == said
            &&& s@[said.len() as int] == ' '
            &&& s@[(said.len() + 1) as int] == '('
            &&& s@.subrange((said.len() + 2) as int, s@.len() - 1) == number
            &&& s@.last() == ')'
        },
        e is InteriorNul ==> s@ == "string contains an interior NUL byte"@,
        e is CreateFailed ==> s@ == "mpv handle creation returned null"@,
{
    reveal_strlit(" (");
    reveal_strlit(")");
    if let Some(code) = e.code() {
        let said = cstring::lossy_text(text@);
        let number = decimal(code as int);
        assert(s@ == said + " ("@ + number + ")"@);
        assert(s@.take(said.len() as int) =~= said);
        assert(s@.subrange((said.len() + 2) as int, s@.len() - 1) =~= number);
    }
}

} // verus!
