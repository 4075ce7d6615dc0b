use confium::config::{initialize, load_config, parse_config, parse_line, parsehex, ResultExtIO};
use confium::error::{Error, ErrorKind};
use confium::options::OptionsMap;

fn cause_kind(e: &Error) -> &ErrorKind {
    e.source().expect("a cause").kind()
}

#[test]
fn parse_reads_hex_values() {
    let m = parse_config("a = 0x1F\nb=2A\n").unwrap();
    assert_eq!(m.len(), 2);
    assert_eq!(m.get("a"), Some(0x1F));
    assert_eq!(m.get("b"), Some(0x2A));
    assert_eq!(m.get("c"), None);
}

#[test]
fn parse_empty_value_is_invalid_format() {
    let e = parse_config("a = \n").err().unwrap();
    assert_eq!(*e.kind(), ErrorKind::InvalidConfig { linenum: Some(1) });
    assert_eq!(*cause_kind(&e), ErrorKind::InvalidFormat);
}

#[test]
fn parse_bad_digit() {
    let e = parse_config("a = ZZ\n").err().unwrap();
    assert_eq!(*e.kind(), ErrorKind::InvalidConfig { linenum: Some(1) });
    assert_eq!(*cause_kind(&e), ErrorKind::InvalidHexDigit('Z'));
}

#[test]
fn parse_missing_separator() {
    let e = parse_config("a 0x1\n").err().unwrap();
    assert_eq!(*e.kind(), ErrorKind::InvalidConfig { linenum: Some(1) });
    assert_eq!(*cause_kind(&e), ErrorKind::ExpectedToken('='));
    assert_eq!(e.code_value(), 10);
}

#[test]
fn parse_overflow() {
    let e = parse_config("a = 0x1FF\n").err().unwrap();
    assert_eq!(*e.kind(), ErrorKind::InvalidConfig { linenum: Some(1) });
    assert_eq!(*cause_kind(&e), ErrorKind::Overflow);
}

#[test]
fn parse_reports_the_failing_line() {
    let e = parse_config("a=1\n\nb=G\nc=2\n").err().unwrap();
    assert_eq!(*e.kind(), ErrorKind::InvalidConfig { linenum: Some(3) });
    assert_eq!(*cause_kind(&e), ErrorKind::InvalidHexDigit('G'));
}

#[test]
fn parse_first_failure_wins() {
    let e = parse_config("a=ZZ\nb=100\n").err().unwrap();
    assert_eq!(*e.kind(), ErrorKind::InvalidConfig { linenum: Some(1) });
}

#[test]
fn parse_whitespace_only_line_is_malformed() {
    let e = parse_config("a=1\n   \n").err().unwrap();
    assert_eq!(*e.kind(), ErrorKind::InvalidConfig { linenum: Some(2) });
    assert_eq!(*cause_kind(&e), ErrorKind::ExpectedToken('='));
}

#[test]
fn parse_crlf_and_blank_lines() {
    let m = parse_config("\n").unwrap();
    assert!(m.is_empty());
    let m = parse_config("a = 0x01\r\n\nlong key\t=  ff \r\n").unwrap();
    assert_eq!(m.get("a"), Some(1));
    assert_eq!(m.get("long key"), Some(255));
    assert_eq!(m.len(), 2);
}

#[test]
fn parse_last_line_without_newline() {
    let m = parse_config("x=FF").unwrap();
    assert_eq!(m.get("x"), Some(255));
}

#[test]
fn parse_duplicate_keys_last_wins() {
    let m = parse_config("k=1\nk=2\n").unwrap();
    assert_eq!(m.len(), 1);
    assert_eq!(m.get("k"), Some(2));
}

#[test]
fn parse_splits_at_first_equals() {
    let e = parse_config("a=b=1\n").err().unwrap();
    assert_eq!(*cause_kind(&e), ErrorKind::InvalidHexDigit('='));
    let m = parse_config(" = 0x7\n").unwrap();
    assert_eq!(m.get(""), Some(7));
}

#[test]
fn parse_empty_text() {
    assert!(parse_config("").unwrap().is_empty());
}

#[test]
fn parsehex_values() {
    assert_eq!(parsehex("ff").unwrap(), 255);
    assert_eq!(parsehex("0xFF").unwrap(), 255);
    assert_eq!(parsehex("00FF").unwrap(), 255);
    assert_eq!(parsehex("0").unwrap(), 0);
    assert_eq!(parsehex("0x0a").unwrap(), 10);
}

#[test]
fn parsehex_failures() {
    assert_eq!(*parsehex("").unwrap_err().kind(), ErrorKind::InvalidFormat);
    assert_eq!(*parsehex("0x").unwrap_err().kind(), ErrorKind::InvalidFormat);
    assert_eq!(*parsehex("100").unwrap_err().kind(), ErrorKind::Overflow);
    assert_eq!(*parsehex("0x0x1").unwrap_err().kind(), ErrorKind::InvalidHexDigit('x'));
    assert_eq!(*parsehex("1FZ").unwrap_err().kind(), ErrorKind::InvalidHexDigit('Z'));
    assert_eq!(*parsehex("1FFZ").unwrap_err().kind(), ErrorKind::Overflow);
    assert_eq!(*parsehex(" 1").unwrap_err().kind(), ErrorKind::InvalidHexDigit(' '));
}

#[test]
fn parse_line_cases() {
    assert!(parse_line("", 5).unwrap().is_none());
    let (k, v) = parse_line("  name\t= 0x2a ", 1).unwrap().unwrap();
    assert_eq!(k, "name");
    assert_eq!(v, 0x2a);
    let e = parse_line("novalue", 7).unwrap_err();
    assert_eq!(*e.kind(), ErrorKind::InvalidConfig { linenum: Some(7) });
    assert_eq!(e.render(), "Invalid config (line 7)");
}

#[test]
fn load_config_open_failure() {
    let e = load_config("missing.cfg", Err("No such file or directory".to_string())).err().unwrap();
    assert_eq!(*e.kind(), ErrorKind::InvalidConfig { linenum: None });
    let c = e.source().unwrap();
    assert_eq!(
        *c.kind(),
        ErrorKind::Io {
            message: "No such file or directory".to_string(),
            path: Some("missing.cfg".to_string())
        }
    );
    assert_eq!(c.render(), "IO error: 'missing.cfg': No such file or directory");
}

#[test]
fn load_config_read_failure_has_line() {
    let reads = vec![Ok("a=1".to_string()), Err("stream did not contain valid UTF-8".to_string())];
    let e = load_config("x.cfg", Ok(reads)).err().unwrap();
    assert_eq!(*e.kind(), ErrorKind::InvalidConfig { linenum: Some(2) });
    assert_eq!(e.source().unwrap().code_value(), 3);
}

#[test]
fn load_config_lines() {
    let reads = vec![Ok("a = 0x10".to_string()), Ok(String::new()), Ok("b = 20".to_string())];
    let m = load_config("x.cfg", Ok(reads)).unwrap();
    assert_eq!(m.get("a"), Some(0x10));
    assert_eq!(m.get("b"), Some(0x20));
}

#[test]
fn initialize_wraps_failures() {
    let e = initialize("x.cfg", Ok(vec![Ok("a = ZZ".to_string())])).err().unwrap();
    assert_eq!(*e.kind(), ErrorKind::InitializationFailure);
    assert_eq!(e.code_value(), 9);
    let mid = e.source().unwrap();
    assert_eq!(*mid.kind(), ErrorKind::InvalidConfig { linenum: Some(1) });
    assert_eq!(*mid.source().unwrap().kind(), ErrorKind::InvalidHexDigit('Z'));

    let e = initialize("gone.cfg", Err("denied".to_string())).err().unwrap();
    assert_eq!(*e.kind(), ErrorKind::InitializationFailure);
    let io = e.source().unwrap().source().unwrap();
    assert_eq!(io.render(), "IO error: 'gone.cfg': denied");

    let m = initialize("ok.cfg", Ok(vec![Ok("a=1".to_string())])).unwrap();
    assert_eq!(m.get("a"), Some(1));
}

#[test]
fn ioerr_keeps_values_and_wraps_failures() {
    let ok: Result<u8, String> = Ok(4);
    assert_eq!(ok.ioerr(ErrorKind::Unknown, None).unwrap(), 4);
    let bad: Result<u8, String> = Err("broken pipe".to_string());
    let e = bad.ioerr(ErrorKind::InvalidConfig { linenum: Some(2) }, None).unwrap_err();
    assert_eq!(*e.kind(), ErrorKind::InvalidConfig { linenum: Some(2) });
    assert_eq!(e.source().unwrap().render(), "IO error: broken pipe");
}

#[test]
fn options_map_insert_and_get() {
    let mut m = OptionsMap::new();
    assert!(m.is_empty());
    m.insert("a".to_string(), 1);
    m.insert("b".to_string(), 2);
    m.insert("a".to_string(), 3);
    assert_eq!(m.len(), 2);
    assert_eq!(m.get("a"), Some(3));
    assert_eq!(m.get("b"), Some(2));
}
