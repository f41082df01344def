use cwrapper::cstring::{bytes_until_nul, find_nul, to_c_bytes};

#[test]
fn find_nul_finds_first_null_byte() {
    assert_eq!(find_nul(b"ab\0c\0"), 2);
    assert_eq!(find_nul(b"abc"), 3);
    assert_eq!(find_nul(b""), 0);
}

#[test]
fn bytes_until_nul_cuts_at_first_null_byte() {
    assert_eq!(bytes_until_nul(b"host\0\0junk"), b"host".to_vec());
    assert_eq!(bytes_until_nul(b"whole"), b"whole".to_vec());
    assert_eq!(bytes_until_nul(b"\0x"), Vec::<u8>::new());
}

#[test]
fn to_c_bytes_appends_terminator_or_reports_position() {
    assert_eq!(to_c_bytes(b"abc"), Ok(b"abc\0".to_vec()));
    assert_eq!(to_c_bytes(b""), Ok(vec![0u8]));
    assert_eq!(to_c_bytes(b"a\0b"), Err(1));
}
