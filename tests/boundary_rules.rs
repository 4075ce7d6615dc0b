use confium::boundary::{
    err_get_backtrace, err_get_code, err_get_msg, err_get_source, guard_text, require_handles,
    sample_error, status,
};
use confium::error::{Error, ErrorKind};

#[test]
fn status_codes() {
    let ok: Result<(), Error> = Ok(());
    assert_eq!(status(&ok), 0);
    let bad: Result<(), Error> = Err(Error::new(ErrorKind::PluginLoadError));
    assert_eq!(status(&bad), 8);
}

#[test]
fn null_handles_are_refused() {
    assert_eq!(*require_handles(false).unwrap_err().kind(), ErrorKind::NullPointer);
    assert!(require_handles(true).is_ok());
    let e = guard_text(None).unwrap_err();
    assert_eq!(*e.kind(), ErrorKind::NullPointer);
    assert_eq!(status(&Err::<(), Error>(e)), 2);
    assert_eq!(*err_get_msg(None, true).unwrap_err().kind(), ErrorKind::NullPointer);
    assert_eq!(*err_get_code(None, true).unwrap_err().kind(), ErrorKind::NullPointer);
    assert_eq!(*err_get_source(None, true).unwrap_err().kind(), ErrorKind::NullPointer);
    assert_eq!(*err_get_backtrace(None, true).unwrap_err().kind(), ErrorKind::NullPointer);
    let e = Error::new(ErrorKind::Overflow);
    assert_eq!(*err_get_msg(Some(&e), false).unwrap_err().kind(), ErrorKind::NullPointer);
    assert_eq!(*err_get_code(Some(&e), false).unwrap_err().kind(), ErrorKind::NullPointer);
}

#[test]
fn strings_are_checked_for_utf8() {
    assert_eq!(guard_text(Some("héllo".as_bytes())).unwrap(), "héllo");
    assert_eq!(guard_text(Some(b"")).unwrap(), "");
    let e = guard_text(Some(&[0x66, 0xff, 0x66])).unwrap_err();
    assert_eq!(*e.kind(), ErrorKind::InvalidUTF8);
    assert_eq!(e.code_value(), 5);
    let e = guard_text(Some(&[0xed, 0xa0, 0x80])).unwrap_err();
    assert_eq!(*e.kind(), ErrorKind::InvalidUTF8);
}

#[test]
fn error_queries() {
    let e = sample_error();
    assert_eq!(err_get_msg(Some(&e), true).unwrap(), "Plugin load error");
    assert_eq!(err_get_code(Some(&e), true).unwrap(), 8);
    assert!(err_get_backtrace(Some(&e), true).unwrap().is_some());
    let mid = err_get_source(Some(&e), true).unwrap().unwrap();
    assert_eq!(err_get_msg(Some(mid), true).unwrap(), "Invalid hex digit: 'Z'");
    assert!(err_get_backtrace(Some(mid), true).unwrap().is_none());
    let last = err_get_source(Some(mid), true).unwrap().unwrap();
    assert_eq!(err_get_code(Some(last), true).unwrap(), 2);
    assert!(err_get_source(Some(last), true).unwrap().is_none());
}
