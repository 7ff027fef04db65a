use async_php::async_io::{parse_io_cast_target, IoCastError, IoCastTarget};
use async_php::{IO_BUF, IO_READ, IO_SEEK, IO_WRITE};

#[test]
fn single_capabilities() {
    assert_eq!(parse_io_cast_target(IO_READ), Ok(IoCastTarget::Reader));
    assert_eq!(parse_io_cast_target(IO_WRITE), Ok(IoCastTarget::Writer));
    assert_eq!(parse_io_cast_target(IO_SEEK), Ok(IoCastTarget::Seeker));
    assert_eq!(parse_io_cast_target(IO_BUF), Ok(IoCastTarget::BufReader));
}

#[test]
fn combined_capabilities() {
    assert_eq!(parse_io_cast_target(IO_READ | IO_WRITE), Ok(IoCastTarget::ReadWriter));
    assert_eq!(parse_io_cast_target(IO_READ | IO_SEEK), Ok(IoCastTarget::ReadSeeker));
    assert_eq!(parse_io_cast_target(IO_WRITE | IO_SEEK), Ok(IoCastTarget::WriteSeeker));
    assert_eq!(
        parse_io_cast_target(IO_READ | IO_WRITE | IO_SEEK),
        Ok(IoCastTarget::ReadWriteSeeker)
    );
    assert_eq!(parse_io_cast_target(IO_BUF | IO_READ), Ok(IoCastTarget::BufReader));
}

#[test]
fn refused_flags() {
    assert_eq!(parse_io_cast_target(0), Err(IoCastError::Zero));
    assert_eq!(parse_io_cast_target(16), Err(IoCastError::InvalidBits(16)));
    assert_eq!(parse_io_cast_target(-1), Err(IoCastError::InvalidBits(-1)));
    assert_eq!(parse_io_cast_target(IO_BUF | IO_WRITE), Err(IoCastError::BufCombined));
    assert_eq!(parse_io_cast_target(IO_BUF | IO_SEEK | IO_READ), Err(IoCastError::BufCombined));
}

#[test]
fn cast_error_messages() {
    assert_eq!(IoCastError::Zero.message(), "IO cast type cannot be 0");
    assert_eq!(IoCastError::InvalidBits(-3).message(), "Invalid IO cast type bits: -3");
    assert_eq!(IoCastError::BufCombined.message(), "BUF cannot be combined with WRITE/SEEK");
    assert_eq!(IoCastError::Unsupported(7).message(), "Unsupported IO cast type: 7");
}
