use confium::error::ErrorKind;
use confium::plugin::Context;

#[test]
fn missing_library_is_a_load_error() {
    let ctx = Context::new();
    let f = ctx.open_plugin("/nonexistent/dir/libnothing.so").err().expect("must fail");
    assert_eq!(*f.error.kind(), ErrorKind::PluginLoadError);
    assert_eq!(f.error.code_value(), 8);
    assert!(!f.reason.is_empty());
    assert_eq!(ctx.library_count(), 0);
}

#[test]
fn non_library_file_is_a_load_error() {
    let ctx = Context::new();
    let f = ctx.open_plugin("/dev/null").err().expect("must fail");
    assert_eq!(*f.error.kind(), ErrorKind::PluginLoadError);
    assert_eq!(ctx.library_count(), 0);
}

#[test]
fn library_without_name_symbol_is_not_kept() {
    let mut ctx = Context::new();
    let lib = ctx.open_plugin("libm.so.6").ok().expect("libm loads");
    let e = ctx.admit_plugin(lib, false).unwrap_err();
    assert_eq!(*e.kind(), ErrorKind::PluginLoadError);
    assert_eq!(ctx.library_count(), 0);
}

#[test]
fn admitted_libraries_are_kept_until_destroy() {
    let mut ctx = Context::new();
    let a = ctx.open_plugin("libm.so.6").ok().expect("libm loads");
    ctx.admit_plugin(a, true).unwrap();
    let b = ctx.open_plugin("libm.so.6").ok().expect("libm loads again");
    ctx.admit_plugin(b, true).unwrap();
    assert_eq!(ctx.library_count(), 2);
    assert_eq!(ctx.unload_all(), 2);
    assert_eq!(ctx.library_count(), 0);
    let c = ctx.open_plugin("libm.so.6").ok().expect("libm loads");
    ctx.admit_plugin(c, true).unwrap();
    assert_eq!(ctx.destroy(), 1);
}
