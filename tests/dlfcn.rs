use cwrapper::dlfcn::{load_request, symbol_name, DynamicLink, DynamicLinkArg, Error};

const LAZY: i32 = 1;
const NOW: i32 = 2;
const GLOBAL: i32 = 0x100;

#[test]
fn load_request_null_terminates_path_and_keeps_flags() {
    let flag = DynamicLinkArg::from_bits_retain(LAZY);
    let (path, bits) = load_request(Some("./tests/test.so"), flag).unwrap();
    assert_eq!(path, b"./tests/test.so\0".to_vec());
    assert_eq!(bits, LAZY);
}

#[test]
fn load_request_without_text_path_is_invalid_path() {
    let r = load_request(None, DynamicLinkArg::from_bits_retain(LAZY));
    assert!(matches!(r, Err(Error::InvalidPath)));
}

#[test]
fn load_request_with_null_byte_is_invalid_path() {
    let r = load_request(Some("lib\0x.so"), DynamicLinkArg::from_bits_retain(NOW));
    assert!(matches!(r, Err(Error::InvalidPath)));
}

#[test]
fn open_nonexistent_path_is_load_failure() {
    let (path, _) =
        load_request(Some("/nonexistent/path.so"), DynamicLinkArg::from_bits_retain(LAZY)).unwrap();
    assert_eq!(path, b"/nonexistent/path.so\0".to_vec());
    let msg = "/nonexistent/path.so: cannot open shared object file".to_string();
    match DynamicLink::from_handle(0, msg.clone()) {
        Err(Error::CouldNotLoad(d)) => assert_eq!(d, msg),
        _ => panic!("a null handle must be a load failure"),
    }
}

#[test]
fn open_then_close_releases_the_acquired_handle() {
    for handle in [1usize, 0x7f00_dead_b000, usize::MAX] {
        let link = DynamicLink::from_handle(handle, String::new()).unwrap();
        assert_eq!(link.handle(), handle);
        assert_eq!(link.close(), handle);
    }
}

#[test]
fn resolve_missing_symbol_is_symbol_not_found() {
    let name = symbol_name("does_not_exist").unwrap();
    assert_eq!(name, b"does_not_exist\0".to_vec());
    let link = DynamicLink::from_handle(0x5000, String::new()).unwrap();
    assert!(matches!(link.resolved(0), Err(Error::SymbolNotFound)));
}

#[test]
fn resolve_name_with_null_byte_is_invalid_string() {
    assert!(matches!(symbol_name("te\0st_0"), Err(Error::InvalidString(2))));
    assert!(matches!(symbol_name("\0"), Err(Error::InvalidString(0))));
}

#[test]
fn resolve_exported_symbols() {
    assert_eq!(symbol_name("test_0").unwrap(), b"test_0\0".to_vec());
    assert_eq!(symbol_name("test_1").unwrap(), b"test_1\0".to_vec());
    let link = DynamicLink::from_handle(0x5000, String::new()).unwrap();
    assert_eq!(link.resolved(0x6010).unwrap(), 0x6010);
}

#[test]
fn resolve_twice_gives_same_reference() {
    let link = DynamicLink::from_handle(0x5000, String::new()).unwrap();
    let first = link.resolved(0x6020).unwrap();
    let second = link.resolved(0x6020).unwrap();
    assert_eq!(first, second);
}

#[test]
fn open_mode_flags_combine() {
    let lazy = DynamicLinkArg::from_bits_retain(LAZY);
    let global = DynamicLinkArg::from_bits_retain(GLOBAL);
    let both = lazy.union(global);
    assert_eq!(both.bits(), LAZY | GLOBAL);
    assert!(both.contains(lazy));
    assert!(both.contains(global));
    assert!(!lazy.contains(global));
    assert_eq!(DynamicLinkArg::empty().bits(), 0);
}
