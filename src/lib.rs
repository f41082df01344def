//! Thin, verified helpers around POSIX primitives: the decisions and
//! conversions that sit between a caller and the operating system's dynamic
//! loader, terminal attributes, working-directory and host-name queries, and
//! password-database lookup.
pub mod cstring;
pub mod error;
pub mod dlfcn;
pub mod pwd;
pub mod unistd;
pub mod termios;
