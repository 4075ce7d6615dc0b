use std::backtrace::Backtrace;
use vstd::prelude::*;

verus! {

/// The numeric code of an error: the only part of an error that crosses the
/// boundary as a plain value. Codes are fixed; see `ErrorCode::value`.
#[allow(non_camel_case_types)]
#[derive(Clone, Copy, Debug, PartialEq, Eq, Structural)]
pub enum ErrorCode {
    UNKNOWN,
    NULL_POINTER,
    IO_ERROR,
    INVALID_HEX_DIGIT,
    INVALID_UTF8,
    INVALID_FORMAT,
    OVERFLOW,
    PLUGIN_LOAD_ERROR,
    INITIALIZATION_FAILURE,
    INVALID_CONFIG,
    EXPECTED_TOKEN,
}

/// The kind of an error, with the data needed to render it.
#[derive(Debug, PartialEq, Eq)]
pub enum ErrorKind {
    Unknown,
    NullPointer,
    /// A filesystem or stream failure: its message, and the path involved if known.
    Io { message: String, path: Option<String> },
    InvalidHexDigit(char),
    InvalidUTF8,
    InvalidFormat,
    Overflow,
    PluginLoadError,
    InitializationFailure,
    /// A malformed configuration line, 1-based, when known.
    InvalidConfig { linenum: Option<usize> },
    ExpectedToken(char),
}

/// The code that belongs to each kind of error.
pub open spec fn kind_code(k: ErrorKind) -> ErrorCode {
    match k {
        ErrorKind::Unknown => ErrorCode::UNKNOWN,
        ErrorKind::NullPointer => ErrorCode::NULL_POINTER,
        ErrorKind::Io { .. } => ErrorCode::IO_ERROR,
        ErrorKind::InvalidHexDigit(_) => ErrorCode::INVALID_HEX_DIGIT,
        ErrorKind::InvalidUTF8 => ErrorCode::INVALID_UTF8,
        ErrorKind::InvalidFormat => ErrorCode::INVALID_FORMAT,
        ErrorKind::Overflow => ErrorCode::OVERFLOW,
        ErrorKind::PluginLoadError => ErrorCode::PLUGIN_LOAD_ERROR,
        ErrorKind::InitializationFailure => ErrorCode::INITIALIZATION_FAILURE,
        ErrorKind::InvalidConfig { .. } => ErrorCode::INVALID_CONFIG,
        ErrorKind::ExpectedToken(_) => ErrorCode::EXPECTED_TOKEN,
    }
}

/// The wire value of each code.
pub open spec fn code_value(c: ErrorCode) -> u32 {
    match c {
        ErrorCode::UNKNOWN => 1,
        ErrorCode::NULL_POINTER => 2,
        ErrorCode::IO_ERROR => 3,
        ErrorCode::INVALID_HEX_DIGIT => 4,
        ErrorCode::INVALID_UTF8 => 5,
        ErrorCode::INVALID_FORMAT => 6,
        ErrorCode::OVERFLOW => 7,
        ErrorCode::PLUGIN_LOAD_ERROR => 8,
        ErrorCode::INITIALIZATION_FAILURE => 9,
        ErrorCode::INVALID_CONFIG => 10,
        ErrorCode::EXPECTED_TOKEN => 11,
    }
}

impl ErrorCode {
    /// The number this code is sent as.
    pub fn value(self) -> (r: u32)
        ensures
            r == code_value(self),
    {
        match self {
            ErrorCode::UNKNOWN => 1,
            ErrorCode::NULL_POINTER => 2,
            ErrorCode::IO_ERROR => 3,
            ErrorCode::INVALID_HEX_DIGIT => 4,
            ErrorCode::INVALID_UTF8 => 5,
            ErrorCode::INVALID_FORMAT => 6,
            ErrorCode::OVERFLOW => 7,
            ErrorCode::PLUGIN_LOAD_ERROR => 8,
            ErrorCode::INITIALIZATION_FAILURE => 9,
            ErrorCode::INVALID_CONFIG => 10,
            ErrorCode::EXPECTED_TOKEN => 11,
        }
    }
}

impl ErrorKind {
    /// The code of this kind; it depends on the variant alone.
    pub fn code(&self) -> (r: ErrorCode)
        ensures
            r == kind_code(*self),
    {
        match self {
            ErrorKind::Unknown => ErrorCode::UNKNOWN,
            ErrorKind::NullPointer => ErrorCode::NULL_POINTER,
            ErrorKind::Io { .. } => ErrorCode::IO_ERROR,
            ErrorKind::InvalidHexDigit(_) => ErrorCode::INVALID_HEX_DIGIT,
            ErrorKind::InvalidUTF8 => ErrorCode::INVALID_UTF8,
            ErrorKind::InvalidFormat => ErrorCode::INVALID_FORMAT,
            ErrorKind::Overflow => ErrorCode::OVERFLOW,
            ErrorKind::PluginLoadError => ErrorCode::PLUGIN_LOAD_ERROR,
            ErrorKind::InitializationFailure => ErrorCode::INITIALIZATION_FAILURE,
            ErrorKind::InvalidConfig { .. } => ErrorCode::INVALID_CONFIG,
            ErrorKind::ExpectedToken(_) => ErrorCode::EXPECTED_TOKEN,
        }
    }
}


/// The character of a decimal digit.
pub open spec fn digit_char(d: nat) -> char {
    if d == 0 {
        '0'
    } else if d == 1 {
        '1'
    } else if d == 2 {
        '2'
    } else if d == 3 {
        '3'
    } else if d == 4 {
        '4'
    } else if d == 5 {
        '5'
    } else if d == 6 {
        '6'
    } else if d == 7 {
        '7'
    } else if d == 8 {
        '8'
    } else {
        '9'
    }
}

/// A number written in decimal, without leading zeros.
pub open spec fn decimal(n: nat) -> Seq<char>
    decreases n,
{
    if n < 10 {
        seq![digit_char(n)]
    } else {
        decimal(n / 10).push(digit_char(n % 10))
    }
}

/// The human-readable line for each kind of error.
pub open spec fn kind_text(k: ErrorKind) -> Seq<char> {
    match k {
        ErrorKind::Unknown => "Unknown error"@,
        ErrorKind::NullPointer => "Null pointer"@,
        ErrorKind::Io { message, path } => match path {
            Some(p) => "IO error: '"@ + p@ + "': "@ + message@,
            None => "IO error: "@ + message@,
        },
        ErrorKind::InvalidHexDigit(c) => "Invalid hex digit: '"@ + seq![c] + "'"@,
        ErrorKind::InvalidUTF8 => "Invalid UTF-8"@,
        ErrorKind::InvalidFormat => "Invalid format"@,
        ErrorKind::Overflow => "Overflow"@,
        ErrorKind::PluginLoadError => "Plugin load error"@,
        ErrorKind::InitializationFailure => "Initialization failure"@,
        ErrorKind::InvalidConfig { linenum } => match linenum {
            Some(n) => "Invalid config (line "@ + decimal(n as nat) + ")"@,
            None => "Invalid config"@,
        },
        ErrorKind::ExpectedToken(c) => "Expected '"@ + seq![c] + "'"@,
    }
}

/// Relies on `char`'s `to_string`: a string of that one character.
#[verifier::external_body]
fn char_text(c: char) -> (r: String)
    ensures
        r@ == seq![c],
{
    c.to_string()
}

/// Relies on `usize`'s `to_string`: the number in decimal.
#[verifier::external_body]
fn decimal_text(n: usize) -> (r: String)
    ensures
        r@ == decimal(n as nat),
{
    n.to_string()
}

/// The stack snapshot type of std, carried opaquely.
#[verifier::external_type_specification]
#[verifier::external_body]
pub struct ExBacktrace(Backtrace);

/// Relies on `Backtrace::capture`: a snapshot of the calling thread's stack,
/// or a marker that capture is disabled in this process.
#[verifier::external_body]
fn capture_backtrace() -> Backtrace {
    Backtrace::capture()
}

/// Relies on `Backtrace`'s `to_string`: the captured frames as text.
#[verifier::external_body]
fn backtrace_lines(b: &Backtrace) -> String {
    b.to_string()
}

impl ErrorKind {
    /// The human-readable line for this kind.
    pub fn render(&self) -> (r: String)
        ensures
            r@ == kind_text(*self),
    {
        match self {
            ErrorKind::Unknown => "Unknown error".to_owned(),
            ErrorKind::NullPointer => "Null pointer".to_owned(),
            ErrorKind::Io { message, path } => match path {
                Some(p) => {
                    let mut r = "IO error: '".to_owned();
                    r.append(p.as_str());
                    r.append("': ");
                    r.append(message.as_str());
                    r
                },
                None => {
                    let mut r = "IO error: ".to_owned();
                    r.append(message.as_str());
                    r
                },
            },
            ErrorKind::InvalidHexDigit(c) => {
                let mut r = "Invalid hex digit: '".to_owned();
                let t = char_text(*c);
                r.append(t.as_str());
                r.append("'");
                r
            },
            ErrorKind::InvalidUTF8 => "Invalid UTF-8".to_owned(),
            ErrorKind::InvalidFormat => "Invalid format".to_owned(),
            ErrorKind::Overflow => "Overflow".to_owned(),
            ErrorKind::PluginLoadError => "Plugin load error".to_owned(),
            ErrorKind::InitializationFailure => "Initialization failure".to_owned(),
            ErrorKind::InvalidConfig { linenum } => match linenum {
                Some(n) => {
                    let mut r = "Invalid config (line ".to_owned();
                    let t = decimal_text(*n);
                    r.append(t.as_str());
                    r.append(")");
                    r
                },
                None => "Invalid config".to_owned(),
            },
            ErrorKind::ExpectedToken(c) => {
                let mut r = "Expected '".to_owned();
                let t = char_text(*c);
                r.append(t.as_str());
                r.append("'");
                r
            },
        }
    }
}

/// An error: its kind, the more specific error that caused it, and the stack
/// at the point where it was made, when one was captured.
#[derive(Debug)]
pub struct Error {
    pub kind: ErrorKind,
    pub source: Option<Box<Error>>,
    pub backtrace: Option<Backtrace>,
}

/// The kinds along an error's cause chain, outermost first.
pub open spec fn chain_kinds(e: Error) -> Seq<ErrorKind>
    decreases e,
{
    match e.source {
        Some(c) => seq![e.kind] + chain_kinds(*c),
        None => seq![e.kind],
    }
}

impl Default for Error {
    fn default() -> (r: Error)
        ensures
            r.kind == ErrorKind::Unknown,
            r.source is None,
            r.backtrace is None,
    {
        Error { kind: ErrorKind::Unknown, source: None, backtrace: None }
    }
}

impl Error {
    /// An error of this kind with no cause and no captured stack.
    pub fn new(kind: ErrorKind) -> (r: Error)
        ensures
            r.kind == kind,
            r.source is None,
            r.backtrace is None,
    {
        Error { kind, source: None, backtrace: None }
    }

    /// An error of this kind caused by `cause`, with the stack captured here.
    pub fn make(kind: ErrorKind, cause: Option<Error>) -> (r: Error)
        ensures
            r.kind == kind,
            match cause {
                Some(c) => r.source matches Some(b) && *b == c,
                None => r.source is None,
            },
            r.backtrace is Some,
    {
        let source = match cause {
            Some(c) => Some(Box::new(c)),
            None => None,
        };
        Error { kind, source, backtrace: Some(capture_backtrace()) }
    }

    pub fn kind(&self) -> (r: &ErrorKind)
        ensures
            *r == self.kind,
    {
        &self.kind
    }

    pub fn code(&self) -> (r: ErrorCode)
        ensures
            r == kind_code(self.kind),
    {
        self.kind.code()
    }

    /// The code as the number sent across the boundary.
    pub fn code_value(&self) -> (r: u32)
        ensures
            r == code_value(kind_code(self.kind)),
    {
        self.code().value()
    }

    /// The human-readable line of this error's own kind.
    pub fn render(&self) -> (r: String)
        ensures
            r@ == kind_text(self.kind),
    {
        self.kind.render()
    }

    /// The cause, borrowed: it stays owned by this error.
    pub fn source(&self) -> (r: Option<&Error>)
        ensures
            match self.source {
                Some(b) => r matches Some(c) && *c == *b,
                None => r is None,
            },
    {
        match &self.source {
            Some(b) => Some(&**b),
            None => None,
        }
    }

    /// The captured stack as text, if one was captured.
    pub fn backtrace_text(&self) -> (r: Option<String>)
        ensures
            r is Some <==> self.backtrace is Some,
    {
        match &self.backtrace {
            Some(b) => Some(backtrace_lines(b)),
            None => None,
        }
    }
}

impl From<Error> for u32 {
    fn from(err: Error) -> (r: u32) {
        err.code_value()
    }
}

impl vstd::std_specs::convert::FromSpecImpl<Error> for u32 {
    open spec fn obeys_from_spec() -> bool {
        true
    }

    open spec fn from_spec(err: Error) -> u32 {
        code_value(kind_code(err.kind))
    }
}

impl<'a> From<&'a Error> for u32 {
    fn from(err: &'a Error) -> (r: u32) {
        err.code_value()
    }
}

impl<'a> vstd::std_specs::convert::FromSpecImpl<&'a Error> for u32 {
    open spec fn obeys_from_spec() -> bool {
        true
    }

    open spec fn from_spec(err: &'a Error) -> u32 {
        code_value(kind_code(err.kind))
    }
}

/// Whether two kinds are the same variant, whatever their payloads.
pub open spec fn same_variant(a: ErrorKind, b: ErrorKind) -> bool {
    ||| a is Unknown && b is Unknown
    ||| a is NullPointer && b is NullPointer
    ||| a is Io && b is Io
    ||| a is InvalidHexDigit && b is InvalidHexDigit
    ||| a is InvalidUTF8 && b is InvalidUTF8
    ||| a is InvalidFormat && b is InvalidFormat
    ||| a is Overflow && b is Overflow
    ||| a is PluginLoadError && b is PluginLoadError
    ||| a is InitializationFailure && b is InitializationFailure
    ||| a is InvalidConfig && b is InvalidConfig
    ||| a is ExpectedToken && b is ExpectedToken
}

/// Each kind is sent as a number from 1 to 11, and two kinds are sent as the
/// same number exactly when they are the same variant.
pub proof fn lemma_code_injective(a: ErrorKind, b: ErrorKind)
    ensures
        1 <= code_value(kind_code(a)) <= 11,
        code_value(kind_code(a)) == code_value(kind_code(b)) <==> same_variant(a, b),
        kind_code(a) == kind_code(b) <==> same_variant(a, b),
{
}

/// Every number from 1 to 11 is the value of some code.
pub proof fn lemma_code_onto(n: u32)
    requires
        1 <= n <= 11,
    ensures
        exists|c: ErrorCode| code_value(c) == n,
{
    let c = if n == 1 {
        ErrorCode::UNKNOWN
    } else if n == 2 {
        ErrorCode::NULL_POINTER
    } else if n == 3 {
        ErrorCode::IO_ERROR
    } else if n == 4 {
        ErrorCode::INVALID_HEX_DIGIT
    } else if n == 5 {
        ErrorCode::INVALID_UTF8
    } else if n == 6 {
        ErrorCode::INVALID_FORMAT
    } else if n == 7 {
        ErrorCode::OVERFLOW
    } else if n == 8 {
        ErrorCode::PLUGIN_LOAD_ERROR
    } else if n == 9 {
        ErrorCode::INITIALIZATION_FAILURE
    } else if n == 10 {
        ErrorCode::INVALID_CONFIG
    } else {
        ErrorCode::EXPECTED_TOKEN
    };
    assert(code_value(c) == n);
}

/// Every kind renders as a non-empty line.
pub proof fn lemma_render_nonempty(k: ErrorKind)
    ensures
        kind_text(k).len() > 0,
{
    reveal_strlit("Unknown error");
    reveal_strlit("Null pointer");
    reveal_strlit("IO error: '");
    reveal_strlit("IO error: ");
    reveal_strlit("Invalid hex digit: '");
    reveal_strlit("Invalid UTF-8");
    reveal_strlit("Invalid format");
    reveal_strlit("Overflow");
    reveal_strlit("Plugin load error");
    reveal_strlit("Initialization failure");
    reveal_strlit("Invalid config (line ");
    reveal_strlit("Invalid config");
    reveal_strlit("Expected '");
}

/// Rendering is a function of the kind: equal kinds render as equal lines.
pub proof fn lemma_render_deterministic(a: ErrorKind, b: ErrorKind)
    requires
        a == b,
    ensures
        kind_text(a) == kind_text(b),
{
}

} // verus!
