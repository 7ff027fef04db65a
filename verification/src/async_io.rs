//! Which kernel IO wrapper a cast asks for, from a set of capability flags.

use vstd::prelude::*;
use vstd::string::*;
use crate::text::{chars_to_string, push_signed_decimal, signed_decimal, str_to_chars};
use crate::{IO_BUF, IO_READ, IO_SEEK, IO_WRITE};

verus! {

/// All capability flags together.
pub const IO_MASK: i64 = 15;

/// The wrapper a cast produces.
#[derive(Debug, Clone, Copy, PartialEq, Eq)]
pub enum IoCastTarget {
    Reader,
    Writer,
    Seeker,
    BufReader,
    ReadWriter,
    ReadSeeker,
    WriteSeeker,
    ReadWriteSeeker,
}

/// Why a set of flags names no wrapper.
#[derive(Debug, Clone, Copy, PartialEq, Eq)]
pub enum IoCastError {
    /// No flag is set.
    Zero,
    /// Bits outside `READ | WRITE | SEEK | BUF` are set.
    InvalidBits(i64),
    /// `BUF` is combined with `WRITE` or `SEEK`.
    BufCombined,
    /// The combination names no wrapper.
    Unsupported(i64),
}

/// The text of the message for a cast error.
pub open spec fn io_cast_message(e: IoCastError) -> Seq<char> {
    match e {
        IoCastError::Zero => "IO cast type cannot be 0"@,
        IoCastError::InvalidBits(f) => "Invalid IO cast type bits: "@ + signed_decimal(f as int),
        IoCastError::BufCombined => "BUF cannot be combined with WRITE/SEEK"@,
        IoCastError::Unsupported(f) => "Unsupported IO cast type: "@ + signed_decimal(f as int),
    }
}

fn message_with_flags(prefix: &str, flags: i64) -> (s: String)
    ensures
        s@ == prefix@ + signed_decimal(flags as int),
{
    let mut v = str_to_chars(prefix);
    push_signed_decimal(&mut v, flags);
    chars_to_string(&v)
}

impl IoCastError {
    /// The message the PHP exception carries.
    pub fn message(&self) -> (s: String)
        ensures
            s@ == io_cast_message(*self),
    {
        match self {
            IoCastError::Zero => String::from_str("IO cast type cannot be 0"),
            IoCastError::InvalidBits(f) => message_with_flags("Invalid IO cast type bits: ", *f),
            IoCastError::BufCombined => String::from_str("BUF cannot be combined with WRITE/SEEK"),
            IoCastError::Unsupported(f) => message_with_flags("Unsupported IO cast type: ", *f),
        }
    }
}

/// The wrapper for a set of flags: `BUF` alone or with `READ` gives a
/// buffered reader; otherwise each non-empty combination of `READ`,
/// `WRITE` and `SEEK` gives the wrapper with exactly those capabilities.
pub open spec fn io_cast_target(flags: i64) -> Result<IoCastTarget, IoCastError> {
    if flags == 0 {
        Err(IoCastError::Zero)
    } else if flags < 0 || flags > 15 {
        Err(IoCastError::InvalidBits(flags))
    } else if flags >= 8 {
        if flags == 8 || flags == 9 {
            Ok(IoCastTarget::BufReader)
        } else {
            Err(IoCastError::BufCombined)
        }
    } else {
        Ok(
            match flags {
                1 => IoCastTarget::Reader,
                2 => IoCastTarget::Writer,
                4 => IoCastTarget::Seeker,
                3 => IoCastTarget::ReadWriter,
                5 => IoCastTarget::ReadSeeker,
                6 => IoCastTarget::WriteSeeker,
                _ => IoCastTarget::ReadWriteSeeker,
            },
        )
    }
}

/// Picks the wrapper that a cast with capability `flags` produces.
pub fn parse_io_cast_target(flags: i64) -> (r: Result<IoCastTarget, IoCastError>)
    ensures
        r == io_cast_target(flags),
{
    if flags == 0 {
        return Err(IoCastError::Zero);
    }
    assert((flags & !15i64) != 0 <==> (flags < 0 || flags > 15)) by (bit_vector);
    if (flags & !IO_MASK) != 0 {
        return Err(IoCastError::InvalidBits(flags));
    }
    assert(0 <= flags <= 15 ==> (((flags & 8i64) != 0) <==> flags >= 8)) by (bit_vector);
    assert(0 <= flags <= 15 && flags >= 8 ==> (flags & !8i64) == flags - 8) by (bit_vector);
    assert((1i64 | 2i64) == 3i64 && (1i64 | 4i64) == 5i64 && (2i64 | 4i64) == 6i64 && ((1i64 | 2i64)
        | 4i64) == 7i64) by (bit_vector);
    let wants_buf = (flags & IO_BUF) != 0;
    if wants_buf {
        let non_buf_bits = flags & !IO_BUF;
        if non_buf_bits == 0 || non_buf_bits == IO_READ {
            return Ok(IoCastTarget::BufReader);
        }
        return Err(IoCastError::BufCombined);
    }
    if flags == IO_READ {
        Ok(IoCastTarget::Reader)
    } else if flags == IO_WRITE {
        Ok(IoCastTarget::Writer)
    } else if flags == IO_SEEK {
        Ok(IoCastTarget::Seeker)
    } else if flags == IO_READ | IO_WRITE {
        Ok(IoCastTarget::ReadWriter)
    } else if flags == IO_READ | IO_SEEK {
        Ok(IoCastTarget::ReadSeeker)
    } else if flags == IO_WRITE | IO_SEEK {
        Ok(IoCastTarget::WriteSeeker)
    } else if flags == IO_READ | IO_WRITE | IO_SEEK {
        Ok(IoCastTarget::ReadWriteSeeker)
    } else {
        Err(IoCastError::Unsupported(flags))
    }
}

/// The canonical flags of a wrapper.
pub open spec fn target_flags(t: IoCastTarget) -> i64 {
    match t {
        IoCastTarget::Reader => 1,
        IoCastTarget::Writer => 2,
        IoCastTarget::Seeker => 4,
        IoCastTarget::BufReader => 8,
        IoCastTarget::ReadWriter => 3,
        IoCastTarget::ReadSeeker => 5,
        IoCastTarget::WriteSeeker => 6,
        IoCastTarget::ReadWriteSeeker => 7,
    }
}

/// Every wrapper is reachable: casting with its canonical flags yields it.
pub proof fn law_cast_targets_reachable(t: IoCastTarget)
    ensures
        io_cast_target(target_flags(t)) == Ok::<IoCastTarget, IoCastError>(t),
{
}

/// A cast succeeds exactly for flags within the mask that do not combine
/// `BUF` with `WRITE` or `SEEK`.
pub proof fn law_cast_accepts(flags: i64)
    ensures
        io_cast_target(flags) is Ok <==> (1 <= flags <= 9),
{
}

} // verus!
