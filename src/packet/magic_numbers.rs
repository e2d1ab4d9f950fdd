//! The kinds of payload that a data packet carries, told apart by a 2-byte
//! magic number.
use vstd::prelude::*;

verus! {

#[derive(Clone, Copy, Debug, PartialEq, Eq, Structural)]
pub enum MagicNumbers {
    FileComing,
    Text,
    FileReceiveResponse,
    FilePart,
    FilePartResponse,
}

/// The magic number of each kind.
pub open spec fn magic_value(m: MagicNumbers) -> u16 {
    match m {
        MagicNumbers::FileComing => 0x3939,
        MagicNumbers::Text => 0x3940,
        MagicNumbers::FileReceiveResponse => 0x3941,
        MagicNumbers::FilePart => 0x3942,
        MagicNumbers::FilePartResponse => 0x3943,
    }
}

/// The kind whose magic number is `v`, if any.
pub open spec fn magic_of(v: u16) -> Option<MagicNumbers> {
    if v == 0x3939 {
        Some(MagicNumbers::FileComing)
    } else if v == 0x3940 {
        Some(MagicNumbers::Text)
    } else if v == 0x3941 {
        Some(MagicNumbers::FileReceiveResponse)
    } else if v == 0x3942 {
        Some(MagicNumbers::FilePart)
    } else if v == 0x3943 {
        Some(MagicNumbers::FilePartResponse)
    } else {
        None
    }
}

impl MagicNumbers {
    pub fn value(&self) -> (r: u16)
        ensures
            r == magic_value(*self),
    {
        match self {
            MagicNumbers::FileComing => 0x3939,
            MagicNumbers::Text => 0x3940,
            MagicNumbers::FileReceiveResponse => 0x3941,
            MagicNumbers::FilePart => 0x3942,
            MagicNumbers::FilePartResponse => 0x3943,
        }
    }

    /// The kind whose magic number is `value`, if any.
    pub fn from(value: u16) -> (r: Option<MagicNumbers>)
        ensures
            r == magic_of(value),
            r matches Some(m) ==> magic_value(m) == value,
    {
        let r = match value {
            0x3939 => Some(MagicNumbers::FileComing),
            0x3940 => Some(MagicNumbers::Text),
            0x3941 => Some(MagicNumbers::FileReceiveResponse),
            0x3942 => Some(MagicNumbers::FilePart),
            0x3943 => Some(MagicNumbers::FilePartResponse),
            _ => None,
        };
        r
    }
}

} // verus!
