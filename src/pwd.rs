//! The password-database entry of the current user.
use crate::error::{text_from_bytes, LibcError, LibcResult};
use vstd::prelude::*;
use vstd::utf8::{decode_utf8, valid_utf8};

verus! {

/// A password-database entry. Only the name, the ids and the home directory
/// are read; the other texts stay empty.
#[derive(Debug, Default)]
pub struct Passwd {
    pub name: String,
    pub passwd: String,
    pub uid: u32,
    pub gid: u32,
    pub gecos: String,
    pub dir: String,
    pub shell: String,
}

/// The entry for the user `uid` in group `gid`, from what `getpwuid` gave:
/// `None` for a null entry, else the bytes of its name and of its home
/// directory.
pub fn passwd_from_entry(uid: u32, gid: u32, entry: Option<(&[u8], &[u8])>) -> (r: LibcResult<
    Passwd,
>)
    ensures
        match entry {
            None => (r matches Err(e) && e == LibcError::ReturnedNull("getpwuid", uid)),
            Some((name, dir)) => {
                &&& r is Ok <==> valid_utf8(name@) && valid_utf8(dir@)
                &&& r matches Err(e) ==> e is StrFromUtf8
                &&& r matches Ok(p) ==> {
                    &&& p.name@ == decode_utf8(name@)
                    &&& p.dir@ == decode_utf8(dir@)
                    &&& p.uid == uid
                    &&& p.gid == gid
                    &&& p.passwd@.len() == 0
                    &&& p.gecos@.len() == 0
                    &&& p.shell@.len() == 0
                }
            },
        },
{
    match entry {
        None => Err(LibcError::ReturnedNull("getpwuid", uid)),
        Some((name_bytes, dir_bytes)) => {
            let name = match text_from_bytes(name_bytes) {
                Ok(s) => s,
                Err(e) => return Err(e),
            };
            let dir = match text_from_bytes(dir_bytes) {
                Ok(s) => s,
                Err(e) => return Err(e),
            };
            Ok(
                Passwd {
                    name,
                    passwd: String::new(),
                    uid,
                    gid,
                    gecos: String::new(),
                    dir,
                    shell: String::new(),
                },
            )
        },
    }
}

} // verus!
