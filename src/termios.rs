//! Terminal attributes: the flag sets of a terminal's settings and how they
//! are read from and written to the platform's `termios` record.
use vstd::prelude::*;

verus! {

/// Why the attributes of a terminal could not be read or written.
#[derive(Debug, PartialEq, Eq, Structural)]
pub enum Error {
    TermiosSet,
    TermiosGet,
}

pub type Result<T> = std::result::Result<T, Error>;

/// When a change of attributes takes effect.
#[derive(Clone, Copy, Debug, Default, PartialEq, Eq, Structural)]
pub struct Actions {
    bits: i32,
}

impl Actions {
    /// The bits of the flush-then-apply action.
    pub const TCSAFLUSH_BITS: i32 = 2;

    pub closed spec fn view_bits(self) -> i32 {
        self.bits
    }

    /// Apply once all output is written, dropping unread input.
    pub fn flush() -> (r: Self)
        ensures
            r.view_bits() == Self::TCSAFLUSH_BITS,
    {
        Actions { bits: Self::TCSAFLUSH_BITS }
    }

    pub fn bits(&self) -> (r: i32)
        ensures
            r == self.view_bits(),
    {
        self.bits
    }
}

/// A set of terminal input flags (`c_iflag`), as the platform's bits.
#[derive(Clone, Copy, Debug, Default, PartialEq, Eq, Structural)]
pub struct InputMode {
    bits: u32,
}

impl InputMode {
    pub closed spec fn view_bits(self) -> u32 {
        self.bits
    }

    /// The flags of `bits` that are among the `known` ones; the others are
    /// dropped.
    pub fn from_bits_truncate(bits: u32, known: u32) -> (r: Self)
        ensures
            r.view_bits() == bits & known,
    {
        InputMode { bits: bits & known }
    }

    pub fn bits(&self) -> (r: u32)
        ensures
            r == self.view_bits(),
    {
        self.bits
    }

    /// The flags of both sets.
    pub fn union(self, other: Self) -> (r: Self)
        ensures
            r.view_bits() == self.view_bits() | other.view_bits(),
    {
        InputMode { bits: self.bits | other.bits }
    }

    /// The flags of `self` that are not in `other`.
    pub fn difference(self, other: Self) -> (r: Self)
        ensures
            r.view_bits() == self.view_bits() & !other.view_bits(),
    {
        InputMode { bits: self.bits & !other.bits }
    }

    /// Whether every flag of `other` is in `self`.
    pub fn contains(&self, other: Self) -> (r: bool)
        ensures
            r == (self.view_bits() & other.view_bits() == other.view_bits()),
    {
        self.bits & other.bits == other.bits
    }
}

/// A set of terminal output flags (`c_oflag`), as the platform's bits.
#[derive(Clone, Copy, Debug, Default, PartialEq, Eq, Structural)]
pub struct OutputMode {
    bits: u32,
}

impl OutputMode {
    pub closed spec fn view_bits(self) -> u32 {
        self.bits
    }

    /// The flags of `bits` that are among the `known` ones; the others are
    /// dropped.
    pub fn from_bits_truncate(bits: u32, known: u32) -> (r: Self)
        ensures
            r.view_bits() == bits & known,
    {
        OutputMode { bits: bits & known }
    }

    pub fn bits(&self) -> (r: u32)
        ensures
            r == self.view_bits(),
    {
        self.bits
    }

    /// The flags of both sets.
    pub fn union(self, other: Self) -> (r: Self)
        ensures
            r.view_bits() == self.view_bits() | other.view_bits(),
    {
        OutputMode { bits: self.bits | other.bits }
    }

    /// The flags of `self` that are not in `other`.
    pub fn difference(self, other: Self) -> (r: Self)
        ensures
            r.view_bits() == self.view_bits() & !other.view_bits(),
    {
        OutputMode { bits: self.bits & !other.bits }
    }

    /// Whether every flag of `other` is in `self`.
    pub fn contains(&self, other: Self) -> (r: bool)
        ensures
            r == (self.view_bits() & other.view_bits() == other.view_bits()),
    {
        self.bits & other.bits == other.bits
    }
}

/// A set of terminal control flags (`c_cflag`), as the platform's bits.
#[derive(Clone, Copy, Debug, Default, PartialEq, Eq, Structural)]
pub struct ControlMode {
    bits: u32,
}

impl ControlMode {
    pub closed spec fn view_bits(self) -> u32 {
        self.bits
    }

    /// The flags of `bits` that are among the `known` ones; the others are
    /// dropped.
    pub fn from_bits_truncate(bits: u32, known: u32) -> (r: Self)
        ensures
            r.view_bits() == bits & known,
    {
        ControlMode { bits: bits & known }
    }

    pub fn bits(&self) -> (r: u32)
        ensures
            r == self.view_bits(),
    {
        self.bits
    }

    /// The flags of both sets.
    pub fn union(self, other: Self) -> (r: Self)
        ensures
            r.view_bits() == self.view_bits() | other.view_bits(),
    {
        ControlMode { bits: self.bits | other.bits }
    }

    /// The flags of `self` that are not in `other`.
    pub fn difference(self, other: Self) -> (r: Self)
        ensures
            r.view_bits() == self.view_bits() & !other.view_bits(),
    {
        ControlMode { bits: self.bits & !other.bits }
    }

    /// Whether every flag of `other` is in `self`.
    pub fn contains(&self, other: Self) -> (r: bool)
        ensures
            r == (self.view_bits() & other.view_bits() == other.view_bits()),
    {
        self.bits & other.bits == other.bits
    }
}

/// A set of terminal local flags (`c_lflag`), as the platform's bits.
#[derive(Clone, Copy, Debug, Default, PartialEq, Eq, Structural)]
pub struct LocalMode {
    bits: u32,
}

impl LocalMode {
    pub closed spec fn view_bits(self) -> u32 {
        self.bits
    }

    /// The flags of `bits` that are among the `known` ones; the others are
    /// dropped.
    pub fn from_bits_truncate(bits: u32, known: u32) -> (r: Self)
        ensures
            r.view_bits() == bits & known,
    {
        LocalMode { bits: bits & known }
    }

    pub fn bits(&self) -> (r: u32)
        ensures
            r == self.view_bits(),
    {
        self.bits
    }

    /// The flags of both sets.
    pub fn union(self, other: Self) -> (r: Self)
        ensures
            r.view_bits() == self.view_bits() | other.view_bits(),
    {
        LocalMode { bits: self.bits | other.bits }
    }

    /// The flags of `self` that are not in `other`.
    pub fn difference(self, other: Self) -> (r: Self)
        ensures
            r.view_bits() == self.view_bits() & !other.view_bits(),
    {
        LocalMode { bits: self.bits & !other.bits }
    }

    /// Whether every flag of `other` is in `self`.
    pub fn contains(&self, other: Self) -> (r: bool)
        ensures
            r == (self.view_bits() & other.view_bits() == other.view_bits()),
    {
        self.bits & other.bits == other.bits
    }
}

/// The platform's `termios` record, field by field.
#[derive(Clone, Copy, Debug, PartialEq, Eq)]
pub struct RawTermios {
    pub c_iflag: u32,
    pub c_oflag: u32,
    pub c_cflag: u32,
    pub c_lflag: u32,
    pub c_line: u8,
    pub c_cc: [u8; 32],
    pub c_ispeed: u32,
    pub c_ospeed: u32,
}

/// The flags that the platform defines, for each of the four sets.
#[derive(Clone, Copy, Debug, PartialEq, Eq, Structural)]
pub struct KnownFlags {
    pub input: u32,
    pub output: u32,
    pub control: u32,
    pub local: u32,
}

/// A terminal's attributes.
#[derive(Clone, Copy, Debug, Default)]
pub struct Termios {
    pub input: InputMode,
    pub output: OutputMode,
    pub control: ControlMode,
    pub local: LocalMode,
    pub out_speed: u32,
    pub in_speed: u32,
    pub line_discipline: u8,
    pub control_characters: [u8; 32],
}

impl Termios {
    /// These are the attributes in `raw`, each flag set cut down to the
    /// `known` flags.
    pub open spec fn read_from(self, raw: RawTermios, known: KnownFlags) -> bool {
        &&& self.input.view_bits() == raw.c_iflag & known.input
        &&& self.output.view_bits() == raw.c_oflag & known.output
        &&& self.control.view_bits() == raw.c_cflag & known.control
        &&& self.local.view_bits() == raw.c_lflag & known.local
        &&& self.line_discipline == raw.c_line
        &&& self.control_characters@ == raw.c_cc@
        &&& self.in_speed == raw.c_ispeed
        &&& self.out_speed == raw.c_ospeed
    }

    /// The record that writing these attributes hands to `tcsetattr`.
    pub fn to_raw(&self) -> (r: RawTermios)
        ensures
            r.c_iflag == self.input.view_bits(),
            r.c_oflag == self.output.view_bits(),
            r.c_cflag == self.control.view_bits(),
            r.c_lflag == self.local.view_bits(),
            r.c_line == self.line_discipline,
            r.c_cc@ == self.control_characters@,
            r.c_ispeed == self.in_speed,
            r.c_ospeed == self.out_speed,
    {
        RawTermios {
            c_iflag: self.input.bits(),
            c_oflag: self.output.bits(),
            c_cflag: self.control.bits(),
            c_lflag: self.local.bits(),
            c_line: self.line_discipline,
            c_cc: self.control_characters,
            c_ispeed: self.in_speed,
            c_ospeed: self.out_speed,
        }
    }

    /// The attributes in the record that `tcgetattr` filled, keeping of each
    /// flag set only the flags that the platform defines.
    pub fn from_raw(raw: &RawTermios, known: &KnownFlags) -> (r: Termios)
        ensures
            r.read_from(*raw, *known),
    {
        Termios {
            input: InputMode::from_bits_truncate(raw.c_iflag, known.input),
            output: OutputMode::from_bits_truncate(raw.c_oflag, known.output),
            control: ControlMode::from_bits_truncate(raw.c_cflag, known.control),
            local: LocalMode::from_bits_truncate(raw.c_lflag, known.local),
            control_characters: raw.c_cc,
            line_discipline: raw.c_line,
            in_speed: raw.c_ispeed,
            out_speed: raw.c_ospeed,
        }
    }

    /// The outcome of reading attributes: `TermiosGet` where `tcgetattr`
    /// returned -1, else the attributes in the record it filled.
    pub fn get_outcome(ret: i32, raw: &RawTermios, known: &KnownFlags) -> (r: Result<Termios>)
        ensures
            r is Err <==> ret == -1,
            r matches Err(e) ==> e == Error::TermiosGet,
            r matches Ok(t) ==> t.read_from(*raw, *known),
    {
        if ret == -1 {
            Err(Error::TermiosGet)
        } else {
            Ok(Termios::from_raw(raw, known))
        }
    }

    /// The outcome of writing attributes: `TermiosSet` where `tcsetattr`
    /// returned -1.
    pub fn set_outcome(ret: i32) -> (r: Result<()>)
        ensures
            r is Err <==> ret == -1,
            r matches Err(e) ==> e == Error::TermiosSet,
    {
        if ret == -1 {
            Err(Error::TermiosSet)
        } else {
            Ok(())
        }
    }
}

} // verus!
