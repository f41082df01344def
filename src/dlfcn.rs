//! Loading shared objects and resolving their symbols.
//!
//! The caller makes the loader's calls. This module builds what they take
//! (`load_request`, `symbol_name`) and turns what they hand back into an
//! owned [`DynamicLink`] or a resolved address.
//! A `DynamicLink` is created only from a non-null handle and is consumed by
//! [`DynamicLink::close`], so each handle is released exactly once.
use crate::cstring::{first_nul, has_nul, to_c_bytes};
use vstd::prelude::*;
use vstd::string::{StrSliceExecFns, StringSliceAdditionalSpecFns};

verus! {

/// The loader's open mode: a set of flag bits (resolve now or lazily, make
/// symbols global or keep them local) that combine bitwise. The bits are the
/// platform's own, as `dlopen` takes them.
#[derive(Clone, Copy, Debug, Default, PartialEq, Eq, Structural)]
pub struct DynamicLinkArg {
    bits: i32,
}

impl DynamicLinkArg {
    pub closed spec fn view_bits(self) -> i32 {
        self.bits
    }

    /// The mode with exactly the given bits.
    pub fn from_bits_retain(bits: i32) -> (r: Self)
        ensures
            r.view_bits() == bits,
    {
        DynamicLinkArg { bits }
    }

    /// The mode with no flag set.
    pub fn empty() -> (r: Self)
        ensures
            r.view_bits() == 0,
    {
        DynamicLinkArg { bits: 0 }
    }

    pub fn bits(&self) -> (r: i32)
        ensures
            r == self.view_bits(),
    {
        self.bits
    }

    /// The mode with the flags of both `self` and `other`.
    pub fn union(self, other: Self) -> (r: Self)
        ensures
            r.view_bits() == self.view_bits() | other.view_bits(),
    {
        DynamicLinkArg { bits: self.bits | other.bits }
    }

    /// Whether every flag of `other` is set in `self`.
    pub fn contains(&self, other: Self) -> (r: bool)
        ensures
            r == (self.view_bits() & other.view_bits() == other.view_bits()),
    {
        self.bits & other.bits == other.bits
    }
}

/// Why a shared object could not be opened or a symbol not resolved.
#[derive(Debug)]
pub enum Error {
    /// The loader rejected the object; its own diagnostic text.
    CouldNotLoad(String),
    SymbolNotFound,
    PathNotFound(String),
    /// The path is not text the platform can take.
    InvalidPath,
    /// The text holds a null byte, at the given index.
    InvalidString(usize),
}

/// What the null-terminated form of `text` is: the bytes and a final null
/// byte, or `InvalidString` at the first null byte it holds.
pub open spec fn c_text(text: Seq<u8>) -> Result<Seq<u8>, Error> {
    if has_nul(text) {
        Err(Error::InvalidString(first_nul(text) as usize))
    } else {
        Ok(text.push(0))
    }
}

/// The null-terminated form of `text`, or `InvalidString`.
fn c_text_of(text: &str) -> (r: Result<Vec<u8>, Error>)
    ensures
        match (r, c_text(text.spec_bytes())) {
            (Ok(v), Ok(w)) => v@ == w,
            (Err(e), Err(f)) => e == f,
            _ => false,
        },
{
    let bytes = text.as_bytes_vec();
    match to_c_bytes(bytes.as_slice()) {
        Ok(v) => Ok(v),
        Err(p) => Err(Error::InvalidString(p)),
    }
}

/// The request that opening a shared object makes of the loader: the
/// null-terminated path and the mode's bits. `path` is the path as text,
/// `None` where the platform path has no text form. A path that holds a null
/// byte cannot be passed as a platform path either: it is `InvalidPath`.
pub fn load_request(path: Option<&str>, flag: DynamicLinkArg) -> (r: Result<(Vec<u8>, i32), Error>)
    ensures
        match path {
            None => r == Err::<(Vec<u8>, i32), Error>(Error::InvalidPath),
            Some(p) => {
                &&& has_nul(p.spec_bytes()) ==> r == Err::<(Vec<u8>, i32), Error>(Error::InvalidPath)
                &&& !has_nul(p.spec_bytes()) ==> (r matches Ok((c, b)) && c@ == p.spec_bytes().push(0)
                    && b == flag.view_bits())
            },
        },
{
    match path {
        None => Err(Error::InvalidPath),
        Some(p) => match c_text_of(p) {
            Ok(c) => Ok((c, flag.bits())),
            Err(_) => Err(Error::InvalidPath),
        },
    }
}

/// The null-terminated name that the loader looks a symbol up by.
/// A name with a null byte is refused with `InvalidString` before any
/// lookup can be made.
pub fn symbol_name(name: &str) -> (r: Result<Vec<u8>, Error>)
    ensures
        has_nul(name.spec_bytes()) <==> r is Err,
        r matches Err(e) ==> e == Error::InvalidString(first_nul(name.spec_bytes()) as usize),
        r matches Ok(c) ==> c@ == name.spec_bytes().push(0),
{
    c_text_of(name)
}

/// What opening yields when the loader returned `handle`: an open link to
/// it, or, for a null handle, `CouldNotLoad` with the loader's diagnostic.
pub open spec fn opened(handle: usize, diagnostic: String) -> Result<usize, Error> {
    if handle == 0 {
        Err(Error::CouldNotLoad(diagnostic))
    } else {
        Ok(handle)
    }
}

/// What resolving yields when the lookup returned `address`: the address,
/// or `SymbolNotFound` for a null one.
pub open spec fn resolution(address: usize) -> Result<usize, Error> {
    if address == 0 {
        Err(Error::SymbolNotFound)
    } else {
        Ok(address)
    }
}

/// An open shared object: the one owner of a non-null loader handle.
pub struct DynamicLink {
    handler: usize,
}

impl View for DynamicLink {
    type V = usize;

    closed spec fn view(&self) -> usize {
        self.handler
    }
}

impl DynamicLink {
    /// A link never holds a null handle.
    pub closed spec fn wf(&self) -> bool {
        self.handler != 0
    }

    /// Takes ownership of the handle that the loader returned; a null
    /// handle is the loader's refusal, reported with its diagnostic.
    pub fn from_handle(handle: usize, diagnostic: String) -> (r: Result<DynamicLink, Error>)
        ensures
            match (r, opened(handle, diagnostic)) {
                (Ok(l), Ok(h)) => l.wf() && l@ == h,
                (Err(e), Err(f)) => e == f,
                _ => false,
            },
    {
        if handle == 0 {
            Err(Error::CouldNotLoad(diagnostic))
        } else {
            Ok(DynamicLink { handler: handle })
        }
    }

    /// The loader handle, to look symbols up in.
    pub fn handle(&self) -> (r: usize)
        requires
            self.wf(),
        ensures
            r == self@,
            r != 0,
    {
        self.handler
    }

    /// Turns the address that a lookup in this object returned into a
    /// resolved symbol; a null address is `SymbolNotFound` and yields no
    /// reference.
    pub fn resolved(&self, address: usize) -> (r: Result<usize, Error>)
        ensures
            r == resolution(address),
            r matches Ok(a) ==> a != 0,
    {
        if address == 0 {
            Err(Error::SymbolNotFound)
        } else {
            Ok(address)
        }
    }

    /// Gives up the link, handing back its handle for release. The link is
    /// consumed, so a handle is released at most once.
    pub fn close(self) -> (r: usize)
        requires
            self.wf(),
        ensures
            r == self@,
            r != 0,
    {
        self.handler
    }
}

/// Opening succeeds for every non-null handle that the loader returned, as a
/// link to exactly that handle. (That `DynamicLink::close` then hands the same
/// handle back for release is the contract of `close`.)
pub proof fn lemma_open_then_close(handle: usize, diagnostic: String)
    requires
        handle != 0,
    ensures
        opened(handle, diagnostic) == Ok::<usize, Error>(handle),
{
}

/// What resolving yields depends on the looked-up address alone: two lookups
/// that returned the same address give the same result.
pub proof fn lemma_resolve_twice(first: usize, second: usize)
    requires
        first == second,
    ensures
        resolution(first) == resolution(second),
{
}

} // verus!
