//! SFTP error classification.
//!
//! The channel-recoverable test decides whether rebuilding the SFTP session
//! is worth trying: channel, protocol and connection-level I/O failures are,
//! business failures (missing files, denied permissions, bad input) are not.

use vstd::prelude::*;

verus! {

/// The I/O failure classes the recoverability test distinguishes; others
/// are carried as `OtherIo`.
#[derive(Debug, Clone, Copy, PartialEq, Eq, Structural)]
pub enum IoKind {
    ConnectionReset,
    ConnectionAborted,
    BrokenPipe,
    TimedOut,
    UnexpectedEof,
    OtherIo,
}

/// SFTP-specific errors.
#[derive(Debug, Clone, PartialEq)]
pub enum SftpError {
    SubsystemNotAvailable(String),
    PermissionDenied(String),
    FileNotFound(String),
    DirectoryNotFound(String),
    IoError(IoKind),
    ChannelError(String),
    ProtocolError(String),
    InvalidPath(String),
    FileTooLarge { size: u64, max: u64 },
    UnsupportedFileType(String),
    TransferCancelled,
    SessionNotFound(String),
    NotInitialized(String),
    StorageError(String),
    TransferError(String),
    ResumeNotSupported(String),
    WriteError(String),
}

/// Which errors make rebuilding the SFTP channel worth trying: channel and
/// protocol errors, a missing subsystem, and connection-level I/O failures.
pub open spec fn spec_channel_recoverable(e: SftpError) -> bool {
    match e {
        SftpError::ChannelError(_) => true,
        SftpError::ProtocolError(_) => true,
        SftpError::SubsystemNotAvailable(_) => true,
        SftpError::IoError(k) => match k {
            IoKind::ConnectionReset => true,
            IoKind::ConnectionAborted => true,
            IoKind::BrokenPipe => true,
            IoKind::TimedOut => true,
            IoKind::UnexpectedEof => true,
            IoKind::OtherIo => false,
        },
        _ => false,
    }
}

impl SftpError {
    /// Whether the error is recoverable at the channel level: the SFTP
    /// channel may be broken while the SSH connection still stands, so a
    /// rebuild-and-retry makes sense; business errors never qualify.
    pub fn is_channel_recoverable(&self) -> (r: bool)
        ensures
            r == spec_channel_recoverable(*self),
    {
        match self {
            SftpError::ChannelError(_) => true,
            SftpError::ProtocolError(_) => true,
            SftpError::SubsystemNotAvailable(_) => true,
            SftpError::IoError(k) => match k {
                IoKind::ConnectionReset => true,
                IoKind::ConnectionAborted => true,
                IoKind::BrokenPipe => true,
                IoKind::TimedOut => true,
                IoKind::UnexpectedEof => true,
                IoKind::OtherIo => false,
            },
            _ => false,
        }
    }
}

} // verus!
