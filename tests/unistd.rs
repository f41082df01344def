use cwrapper::error::LibcError;
use cwrapper::unistd::{
    chdir_outcome, chdir_request, cwd_buffer_len, cwd_from_buffer, host_name_from_buffer,
    HOST_NAME_BUFFER_LEN,
};

#[test]
fn host_name_is_text_before_null() {
    let mut buf = vec![0u8; HOST_NAME_BUFFER_LEN];
    buf[..6].copy_from_slice(b"myhost");
    buf[7] = b'x';
    assert_eq!(host_name_from_buffer(0, &buf).unwrap(), "myhost");
}

#[test]
fn host_name_without_null_takes_whole_buffer() {
    assert_eq!(host_name_from_buffer(0, b"node-1").unwrap(), "node-1");
}

#[test]
fn host_name_not_utf8_is_string_error() {
    let r = host_name_from_buffer(0, &[0xff, 0xfe, 0]);
    assert!(matches!(r, Err(LibcError::StringFromUtf8(_))));
}

#[test]
fn host_name_call_failure_is_generic_error() {
    let r = host_name_from_buffer(-1, &[0u8; 8]);
    assert!(matches!(r, Err(LibcError::GenericError("could not get host name"))));
}

#[test]
fn cwd_failure_is_generic_error() {
    let r = cwd_from_buffer(false, b"/tmp\0");
    assert!(matches!(r, Err(LibcError::GenericError("could not get cwd"))));
}

#[test]
fn cwd_is_path_before_null() {
    let mut buf = vec![0u8; 64];
    buf[..9].copy_from_slice(b"/home/you");
    assert_eq!(cwd_from_buffer(true, &buf).unwrap(), "/home/you");
}

#[test]
fn cwd_not_utf8_is_str_error() {
    assert!(matches!(cwd_from_buffer(true, &[b'/', 0xc3, 0]), Err(LibcError::StrFromUtf8(_))));
}

#[test]
fn cwd_buffer_len_needs_positive_limit() {
    assert_eq!(cwd_buffer_len(4096), Some(4096));
    assert_eq!(cwd_buffer_len(-1), None);
    assert_eq!(cwd_buffer_len(0), None);
}

#[test]
fn chdir_request_null_terminates() {
    assert_eq!(chdir_request(b"/tmp").unwrap(), b"/tmp\0".to_vec());
    assert!(matches!(chdir_request(b"/t\0mp"), Err(LibcError::GenericError("path holds a null byte"))));
}

#[test]
fn chdir_outcome_zero_is_success() {
    assert!(chdir_outcome(0).is_ok());
    assert!(matches!(chdir_outcome(-1), Err(LibcError::GenericError("could not change cwd"))));
}

#[test]
fn default_error_is_undefined() {
    assert!(matches!(LibcError::default(), LibcError::Undefined));
}
