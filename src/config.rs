use vstd::prelude::*;

use crate::error::{Error, ErrorKind};
use crate::options::OptionsMap;
use crate::text::{chars_of, split_lines, string_views, text_lines, trim, trim_range};

verus! {

/// The value of a hexadecimal digit, either case.
pub open spec fn hex_digit_value(c: char) -> Option<nat> {
    let u = c as u32;
    if 48 <= u <= 57 {
        Some((u - 48) as nat)
    } else if 97 <= u <= 102 {
        Some((u - 87) as nat)
    } else if 65 <= u <= 70 {
        Some((u - 55) as nat)
    } else {
        None
    }
}

/// The text without one leading `0x`, if it has one.
pub open spec fn strip_hex_prefix(s: Seq<char>) -> Seq<char> {
    if s.len() >= 2 && s[0] == '0' && s[1] == 'x' {
        s.subrange(2, s.len() as int)
    } else {
        s
    }
}

/// Hexadecimal digits read left to right into one byte: each step multiplies
/// by 16 and adds the digit. The first character that is no digit, or the
/// first step past 255, is the failure.
pub open spec fn hex_digits(d: Seq<char>) -> Result<nat, ErrorKind>
    decreases d.len(),
{
    if d.len() == 0 {
        Ok(0)
    } else {
        match hex_digits(d.drop_last()) {
            Err(k) => Err(k),
            Ok(v) => match hex_digit_value(d.last()) {
                None => Err(ErrorKind::InvalidHexDigit(d.last())),
                Some(x) => if v * 16 + x > 255 {
                    Err(ErrorKind::Overflow)
                } else {
                    Ok(v * 16 + x)
                },
            },
        }
    }
}

/// A byte written in hexadecimal, optionally after `0x`; nothing after the
/// prefix is a format error.
pub open spec fn hex_byte(s: Seq<char>) -> Result<nat, ErrorKind> {
    let d = strip_hex_prefix(s);
    if d.len() == 0 {
        Err(ErrorKind::InvalidFormat)
    } else {
        hex_digits(d)
    }
}

/// Once reading the digits has failed, more digits do not change the failure.
proof fn lemma_hex_failure_stays(d: Seq<char>, i: int)
    requires
        0 <= i <= d.len(),
        hex_digits(d.subrange(0, i)) is Err,
    ensures
        hex_digits(d) == hex_digits(d.subrange(0, i)),
    decreases d.len(),
{
    if i < d.len() {
        assert(d.drop_last().subrange(0, i) =~= d.subrange(0, i));
        lemma_hex_failure_stays(d.drop_last(), i);
    } else {
        assert(d.subrange(0, i) =~= d);
    }
}

/// Successful values never exceed a byte.
proof fn lemma_hex_in_range(d: Seq<char>)
    ensures
        hex_digits(d) matches Ok(v) ==> v <= 255,
    decreases d.len(),
{
    if d.len() > 0 {
        lemma_hex_in_range(d.drop_last());
    }
}

fn hex_digit(c: char) -> (r: Option<u32>)
    ensures
        match hex_digit_value(c) {
            Some(x) => r == Some(x as u32),
            None => r is None,
        },
{
    let u = c as u32;
    if 48 <= u && u <= 57 {
        Some(u - 48)
    } else if 97 <= u && u <= 102 {
        Some(u - 87)
    } else if 65 <= u && u <= 70 {
        Some(u - 55)
    } else {
        None
    }
}

/// Parses a byte written in hexadecimal, with one optional `0x` in front.
pub fn parsehex(s: &str) -> (r: Result<u8, Error>)
    ensures
        match hex_byte(s@) {
            Ok(v) => r == Ok::<u8, Error>(v as u8),
            Err(k) => r matches Err(e) && e.kind == k && e.source is None,
        },
{
    let cs = chars_of(s);
    let n = cs.len();
    let start: usize = if n >= 2 && cs[0] == '0' && cs[1] == 'x' {
        2
    } else {
        0
    };
    let ghost d = strip_hex_prefix(s@);
    assert(d =~= cs@.subrange(start as int, n as int));
    if start == n {
        return Err(Error::make(ErrorKind::InvalidFormat, None));
    }
    let mut result: u8 = 0;
    let mut i = start;
    while i < n
        invariant
            start <= i <= n == cs@.len(),
            d == cs@.subrange(start as int, n as int),
            d == strip_hex_prefix(s@),
            hex_digits(d.subrange(0, i - start)) == Ok::<nat, ErrorKind>(result as nat),
        decreases n - i,
    {
        let ghost pre = d.subrange(0, i - start);
        let ghost next = d.subrange(0, i - start + 1);
        assert(next.drop_last() =~= pre);
        assert(next.last() == cs@[i as int]);
        let c = cs[i];
        let x = match hex_digit(c) {
            Some(x) => x,
            None => {
                proof {
                    assert(hex_digits(next) == Err::<nat, ErrorKind>(ErrorKind::InvalidHexDigit(c)));
                    lemma_hex_failure_stays(d, i - start + 1);
                }
                return Err(Error::make(ErrorKind::InvalidHexDigit(c), None));
            },
        };
        let acc: u32 = (result as u32) * 16 + x;
        if acc > 255 {
            proof {
                assert(hex_digits(next) == Err::<nat, ErrorKind>(ErrorKind::Overflow));
                lemma_hex_failure_stays(d, i - start + 1);
            }
            return Err(Error::make(ErrorKind::Overflow, None));
        }
        result = acc as u8;
        i = i + 1;
    }
    assert(d.subrange(0, n - start) =~= d);
    Ok(result)
}

/// Whether `i` is the position of the first `=` in the line.
pub open spec fn is_first_eq(line: Seq<char>, i: int) -> bool {
    &&& 0 <= i < line.len()
    &&& line[i] == '='
    &&& forall|j: int| 0 <= j < i ==> line[j] != '='
}

/// What one line of the option file says: nothing for an empty line, else a
/// name and a byte from `name = value`, split at the first `=`, both sides
/// trimmed; or the failure that makes the line malformed.
pub open spec fn line_entry(line: Seq<char>) -> Result<Option<(Seq<char>, u8)>, ErrorKind> {
    if line.len() == 0 {
        Ok(None)
    } else if !(exists|i: int| is_first_eq(line, i)) {
        Err(ErrorKind::ExpectedToken('='))
    } else {
        let i = choose|i: int| is_first_eq(line, i);
        let key = trim(line.subrange(0, i));
        let value = trim(line.subrange(i + 1, line.len() as int));
        match hex_byte(value) {
            Ok(v) => Ok(Some((key, v as u8))),
            Err(k) => Err(k),
        }
    }
}

/// Why reading the option file failed, and at which line (1-based).
pub enum ConfigFault {
    Read { line: nat, message: Seq<char> },
    Parse { line: nat, cause: ErrorKind },
}

/// The lines of the option file as they were read: a line's text, or the
/// message of the failure that stopped reading there.
pub open spec fn read_views(reads: Seq<Result<String, String>>) -> Seq<Result<Seq<char>, Seq<char>>> {
    reads.map_values(
        |r: Result<String, String>|
            match r {
                Ok(t) => Ok(t@),
                Err(m) => Err(m@),
            },
    )
}

/// The options of a file read line by line: later names replace earlier ones,
/// and the first line that cannot be read or parsed ends it all.
pub open spec fn config_fold(reads: Seq<Result<Seq<char>, Seq<char>>>) -> Result<
    Map<Seq<char>, u8>,
    ConfigFault,
>
    decreases reads.len(),
{
    if reads.len() == 0 {
        Ok(Map::empty())
    } else {
        match config_fold(reads.drop_last()) {
            Err(f) => Err(f),
            Ok(m) => match reads.last() {
                Err(msg) => Err(ConfigFault::Read { line: reads.len(), message: msg }),
                Ok(text) => match line_entry(text) {
                    Err(k) => Err(ConfigFault::Parse { line: reads.len(), cause: k }),
                    Ok(None) => Ok(m),
                    Ok(Some(entry)) => Ok(m.insert(entry.0, entry.1)),
                },
            },
        }
    }
}

/// `e` wraps an I/O failure with this message on the file at `path` as a
/// configuration error of kind `kind`.
pub open spec fn wraps_io(e: Error, kind: ErrorKind, message: Seq<char>, path: Seq<char>) -> bool {
    &&& e.kind == kind
    &&& e.source is Some
    &&& e.source->0.source is None
    &&& e.source->0.kind matches ErrorKind::Io { message: m, path: Some(p) } && m@ == message
        && p@ == path
}

/// `e` is the error that reports fault `f` of the file at `path`.
pub open spec fn reports_fault(e: Error, f: ConfigFault, path: Seq<char>) -> bool {
    match f {
        ConfigFault::Read { line, message } => wraps_io(
            e,
            ErrorKind::InvalidConfig { linenum: Some(line as usize) },
            message,
            path,
        ),
        ConfigFault::Parse { line, cause } => {
            &&& e.kind == ErrorKind::InvalidConfig { linenum: Some(line as usize) }
            &&& e.source matches Some(c) && c.kind == cause && c.source is None
        },
    }
}

/// A failure in the file's later lines does not undo an earlier failure.
proof fn lemma_fault_stays(reads: Seq<Result<Seq<char>, Seq<char>>>, i: int)
    requires
        0 <= i <= reads.len(),
        config_fold(reads.subrange(0, i)) is Err,
    ensures
        config_fold(reads) == config_fold(reads.subrange(0, i)),
    decreases reads.len(),
{
    if i < reads.len() {
        assert(reads.drop_last().subrange(0, i) =~= reads.subrange(0, i));
        lemma_fault_stays(reads.drop_last(), i);
    } else {
        assert(reads.subrange(0, i) =~= reads);
    }
}

/// Conversion of a failed I/O operation into this library's errors.
pub trait ResultExtIO<T>: Sized {
    /// What the operation produced: its value, or the message of its failure.
    spec fn io_outcome(self) -> Result<T, String>;

    /// Keeps a value; turns a failure into an error of `kind` caused by an
    /// I/O error with the failure's message and `path`.
    fn ioerr(self, kind: ErrorKind, path: Option<String>) -> (r: Result<T, Error>)
        ensures
            match self.io_outcome() {
                Ok(v) => r == Ok::<T, Error>(v),
                Err(m) => {
                    &&& r is Err
                    &&& r->Err_0.kind == kind
                    &&& r->Err_0.source is Some
                    &&& r->Err_0.source->0.source is None
                    &&& r->Err_0.source->0.kind == (ErrorKind::Io { message: m, path: path })
                },
            },
    ;
}

impl<T> ResultExtIO<T> for Result<T, String> {
    open spec fn io_outcome(self) -> Result<T, String> {
        self
    }

    fn ioerr(self, kind: ErrorKind, path: Option<String>) -> (r: Result<T, Error>) {
        match self {
            Ok(v) => Ok(v),
            Err(message) => {
                let cause = Error::new(ErrorKind::Io { message, path });
                Err(Error::make(kind, Some(cause)))
            },
        }
    }
}

/// Wraps the failure of line `linenum` as a configuration error.
fn line_error(linenum: usize, cause: Error) -> (r: Error)
    ensures
        r.kind == (ErrorKind::InvalidConfig { linenum: Some(linenum) }),
        r.source matches Some(c) && *c == cause,
{
    Error::make(ErrorKind::InvalidConfig { linenum: Some(linenum) }, Some(cause))
}

/// Parses one line of the option file; `linenum` is where it stands (1-based).
pub fn parse_line(line: &str, linenum: usize) -> (r: Result<Option<(String, u8)>, Error>)
    ensures
        match line_entry(line@) {
            Ok(None) => r matches Ok(None),
            Ok(Some(entry)) => r matches Ok(Some(got)) && got.0@ == entry.0 && got.1 == entry.1,
            Err(k) => r matches Err(e) && reports_fault(
                e,
                ConfigFault::Parse { line: linenum as nat, cause: k },
                seq![],
            ),
        },
{
    let cs = chars_of(line);
    let n = cs.len();
    if n == 0 {
        return Ok(None);
    }
    let mut i: usize = 0;
    while i < n && cs[i] != '='
        invariant
            i <= n == cs@.len(),
            cs@ == line@,
            forall|j: int| 0 <= j < i ==> cs@[j] != '=',
        decreases n - i,
    {
        i = i + 1;
    }
    if i == n {
        return Err(line_error(linenum, Error::new(ErrorKind::ExpectedToken('='))));
    }
    proof {
        assert(is_first_eq(line@, i as int));
        let c = choose|c: int| is_first_eq(line@, c);
        assert(c == i);
    }
    let (ka, kb) = trim_range(&cs, 0, i);
    let (va, vb) = trim_range(&cs, i + 1, n);
    let key = line.substring_char(ka, kb).to_owned();
    match parsehex(line.substring_char(va, vb)) {
        Ok(v) => Ok(Some((key, v))),
        Err(e) => Err(line_error(linenum, e)),
    }
}

/// Reads the options from the lines of the file at `path`, in order; an entry
/// that is `Err` holds the message of the failure that stopped reading there.
fn parse_reads(path: &str, reads: &Vec<Result<String, String>>) -> (r: Result<OptionsMap, Error>)
    ensures
        match config_fold(read_views(reads@)) {
            Ok(m) => r matches Ok(o) && o.wf() && o@ == m,
            Err(f) => r matches Err(e) && reports_fault(e, f, path@),
        },
{
    let ghost views = read_views(reads@);
    let mut options = OptionsMap::new();
    let mut i: usize = 0;
    while i < reads.len()
        invariant
            i <= reads@.len(),
            views == read_views(reads@),
            options.wf(),
            config_fold(views.subrange(0, i as int)) == Ok::<Map<Seq<char>, u8>, ConfigFault>(
                options@,
            ),
        decreases reads@.len() - i,
    {
        let ghost pre = views.subrange(0, i as int);
        let ghost next = views.subrange(0, i + 1);
        assert(next.drop_last() =~= pre);
        let linenum = i + 1;
        let read: Result<&String, String> = match &reads[i] {
            Ok(t) => Ok(t),
            Err(m) => Err(m.clone()),
        };
        let line = match read.ioerr(
            ErrorKind::InvalidConfig { linenum: Some(linenum) },
            Some(path.to_owned()),
        ) {
            Ok(t) => t,
            Err(e) => {
                proof {
                    lemma_fault_stays(views, i + 1);
                }
                return Err(e);
            },
        };
        match parse_line(line.as_str(), linenum) {
            Ok(None) => {},
            Ok(Some((key, value))) => {
                options.insert(key, value);
            },
            Err(e) => {
                proof {
                    lemma_fault_stays(views, i + 1);
                }
                return Err(e);
            },
        }
        i = i + 1;
    }
    assert(views.subrange(0, reads@.len() as int) =~= views);
    Ok(options)
}

/// Reads the option file at `path`, given what opening it produced: the
/// lines read, or the message of the failure to open it.
pub fn load_config(path: &str, opened: Result<Vec<Result<String, String>>, String>) -> (r: Result<
    OptionsMap,
    Error,
>)
    ensures
        match opened {
            Err(m) => r matches Err(e) && wraps_io(
                e,
                ErrorKind::InvalidConfig { linenum: None },
                m@,
                path@,
            ),
            Ok(reads) => match config_fold(read_views(reads@)) {
                Ok(m) => r matches Ok(o) && o.wf() && o@ == m,
                Err(f) => r matches Err(e) && reports_fault(e, f, path@),
            },
        },
{
    let reads = match opened.ioerr(ErrorKind::InvalidConfig { linenum: None }, Some(path.to_owned()))
    {
        Ok(reads) => reads,
        Err(e) => return Err(e),
    };
    parse_reads(path, &reads)
}

/// Reads the options at `path` as the start-up step: any failure comes back
/// as an initialization failure whose cause is the configuration error.
pub fn initialize(path: &str, opened: Result<Vec<Result<String, String>>, String>) -> (r: Result<
    OptionsMap,
    Error,
>)
    ensures
        match opened {
            Err(m) => {
                &&& r is Err
                &&& r->Err_0.kind == ErrorKind::InitializationFailure
                &&& r->Err_0.source is Some
                &&& wraps_io(
                    *r->Err_0.source->0,
                    ErrorKind::InvalidConfig { linenum: None },
                    m@,
                    path@,
                )
            },
            Ok(reads) => match config_fold(read_views(reads@)) {
                Ok(m) => r matches Ok(o) && o.wf() && o@ == m,
                Err(f) => {
                    &&& r is Err
                    &&& r->Err_0.kind == ErrorKind::InitializationFailure
                    &&& r->Err_0.source is Some
                    &&& reports_fault(*r->Err_0.source->0, f, path@)
                },
            },
        },
{
    match load_config(path, opened) {
        Ok(o) => Ok(o),
        Err(e) => Err(Error::make(ErrorKind::InitializationFailure, Some(e))),
    }
}

/// Lines that were all read without failure.
pub open spec fn all_read(lines: Seq<Seq<char>>) -> Seq<Result<Seq<char>, Seq<char>>> {
    lines.map_values(|l: Seq<char>| Ok::<Seq<char>, Seq<char>>(l))
}

/// Reads the options from the whole text of an option file.
pub fn parse_config(text: &str) -> (r: Result<OptionsMap, Error>)
    ensures
        match config_fold(all_read(text_lines(text@))) {
            Ok(m) => r matches Ok(o) && o.wf() && o@ == m,
            Err(f) => r matches Err(e) && reports_fault(e, f, seq![]),
        },
{
    let lines = split_lines(text);
    let mut reads: Vec<Result<String, String>> = Vec::new();
    let mut i: usize = 0;
    while i < lines.len()
        invariant
            i <= lines@.len(),
            read_views(reads@) == all_read(string_views(lines@)).subrange(0, i as int),
        decreases lines@.len() - i,
    {
        let ghost before = reads@;
        reads.push(Ok(lines[i].clone()));
        assert(read_views(reads@) =~= all_read(string_views(lines@)).subrange(0, i + 1)) by {
            assert(read_views(reads@) =~= read_views(before).push(Ok(lines@[i as int]@)));
        }
        i = i + 1;
    }
    assert(all_read(string_views(lines@)).subrange(0, lines@.len() as int) =~= all_read(
        string_views(lines@),
    ));
    let path = "";
    proof {
        reveal_strlit("");
        assert(path@ =~= Seq::<char>::empty());
        assert(read_views(reads@) == all_read(text_lines(text@)));
    }
    parse_reads(path, &reads)
}

} // verus!
