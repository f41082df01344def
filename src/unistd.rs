//! Working-directory and host-name queries: what the buffers that the
//! operating system fills are read as.
use crate::cstring::{bytes_until_nul, until_nul};
use crate::error::{string_from_utf8, text_from_bytes, LibcError, LibcResult};
use vstd::prelude::*;
use vstd::utf8::{decode_utf8, valid_utf8};

verus! {

/// The size of the buffer that the host name is read into.
pub const HOST_NAME_BUFFER_LEN: usize = 1024;

/// The length of the buffer for the working directory, from the platform's
/// path-length limit; `None` where the limit is unknown or not positive.
pub fn cwd_buffer_len(path_max: i64) -> (r: Option<usize>)
    ensures
        r is Some <==> 0 < path_max <= usize::MAX,
        r matches Some(n) ==> n == path_max,
{
    if 0 < path_max && path_max as u64 <= usize::MAX as u64 {
        Some(path_max as usize)
    } else {
        None
    }
}

/// The working directory, from the buffer that `getcwd` filled; `filled` is
/// false where the call failed. The path is the text before the first null
/// byte.
pub fn cwd_from_buffer(filled: bool, buffer: &[u8]) -> (r: LibcResult<String>)
    ensures
        !filled ==> (r matches Err(e) && e == LibcError::GenericError("could not get cwd")),
        filled ==> (r is Ok <==> valid_utf8(until_nul(buffer@))),
        filled ==> (r matches Err(e) ==> e is StrFromUtf8),
        r matches Ok(s) ==> s@ == decode_utf8(until_nul(buffer@)),
{
    if !filled {
        return Err(LibcError::GenericError("could not get cwd"));
    }
    let path = bytes_until_nul(buffer);
    text_from_bytes(path.as_slice())
}

/// The host name, from the return value of `gethostname` and the buffer it
/// filled: a non-zero return is the call's failure; else the name is the
/// text before the first null byte, or the whole buffer where it holds none.
pub fn host_name_from_buffer(ret: i32, buffer: &[u8]) -> (r: LibcResult<String>)
    ensures
        ret != 0 ==> (r matches Err(e) && e == LibcError::GenericError("could not get host name")),
        ret == 0 ==> (r is Ok <==> valid_utf8(until_nul(buffer@))),
        ret == 0 ==> (r matches Err(e) ==> e is StringFromUtf8),
        r matches Ok(s) ==> s@ == decode_utf8(until_nul(buffer@)),
{
    if ret != 0 {
        return Err(LibcError::GenericError("could not get host name"));
    }
    let host = bytes_until_nul(buffer);
    match string_from_utf8(host) {
        Ok(s) => Ok(s),
        Err(e) => Err(LibcError::StringFromUtf8(e)),
    }
}

/// The null-terminated path that `chdir` takes; a path with a null byte
/// cannot be passed and is refused.
pub fn chdir_request(path: &[u8]) -> (r: LibcResult<Vec<u8>>)
    ensures
        r is Ok <==> !crate::cstring::has_nul(path@),
        r matches Ok(c) ==> c@ == path@.push(0),
        r matches Err(e) ==> e == LibcError::GenericError("path holds a null byte"),
{
    match crate::cstring::to_c_bytes(path) {
        Ok(c) => Ok(c),
        Err(_) => Err(LibcError::GenericError("path holds a null byte")),
    }
}

/// The outcome of `chdir` from its return value: zero is success.
pub fn chdir_outcome(ret: i32) -> (r: LibcResult<()>)
    ensures
        r is Ok <==> ret == 0,
        r matches Err(e) ==> e == LibcError::GenericError("could not change cwd"),
{
    if ret == 0 {
        Ok(())
    } else {
        Err(LibcError::GenericError("could not change cwd"))
    }
}

} // verus!
