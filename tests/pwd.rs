use cwrapper::error::LibcError;
use cwrapper::pwd::passwd_from_entry;

#[test]
fn null_entry_is_returned_null() {
    assert!(matches!(passwd_from_entry(1000, 1000, None), Err(LibcError::ReturnedNull("getpwuid", 1000))));
}

#[test]
fn entry_keeps_name_ids_and_dir() {
    let p = passwd_from_entry(1000, 100, Some((b"alice", b"/home/alice"))).unwrap();
    assert_eq!(p.name, "alice");
    assert_eq!(p.dir, "/home/alice");
    assert_eq!(p.uid, 1000);
    assert_eq!(p.gid, 100);
    assert!(p.passwd.is_empty() && p.gecos.is_empty() && p.shell.is_empty());
}

#[test]
fn entry_with_bad_name_is_str_error() {
    let r = passwd_from_entry(0, 0, Some((&[0xff][..], b"/root")));
    assert!(matches!(r, Err(LibcError::StrFromUtf8(_))));
}
