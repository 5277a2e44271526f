//! File metadata types of the WASI host layer: file kinds, capability and
//! flag sets, and the stat records built from them.
//!
//! Timestamps are carried as plain nanosecond counts since the Unix
//! epoch, so the records hold nothing but values.

use vstd::prelude::*;

verus! {

/// The kind of a file.
#[derive(Clone, Copy, Debug, PartialEq, Eq, Structural)]
pub enum FileType {
    /// The kind could not be determined.
    Unknown,
    /// A block device.
    BlockDevice,
    /// A character device.
    CharacterDevice,
    /// A directory.
    Directory,
    /// A regular file.
    RegularFile,
    /// A datagram socket.
    SocketDgram,
    /// A stream socket.
    SocketStream,
    /// A symbolic link.
    SymbolicLink,
    /// A pipe.
    Pipe,
}

/// Advice to the host about expected access to a file region.
#[derive(Clone, Copy, Debug, PartialEq, Eq, Structural)]
pub enum Advice {
    /// No particular pattern.
    Normal,
    /// Sequential access.
    Sequential,
    /// Random access.
    Random,
    /// The region will be needed.
    WillNeed,
    /// The region will not be needed.
    DontNeed,
    /// The region will be accessed once.
    NoReuse,
}

/// Per-descriptor status flags, as a bit set.
#[derive(Clone, Copy, Debug, PartialEq, Eq, Structural)]
pub struct FdFlags(pub u32);

impl FdFlags {
    /// Append mode.
    pub const APPEND: u32 = 0b1;

    /// Synchronized data writes.
    pub const DSYNC: u32 = 0b10;

    /// Non-blocking mode.
    pub const NONBLOCK: u32 = 0b100;

    /// Synchronized reads.
    pub const RSYNC: u32 = 0b1000;

    /// Synchronized writes.
    pub const SYNC: u32 = 0b10000;

    /// Whether every flag of `other` is set in `self`.
    pub fn contains(&self, other: FdFlags) -> (r: bool)
        ensures
            r == (self.0 & other.0 == other.0),
    {
        self.0 & other.0 == other.0
    }
}

/// Per-descriptor capabilities, as a bit set.
#[derive(Clone, Copy, Debug, PartialEq, Eq, Structural)]
pub struct FileCaps(pub u32);

impl FileCaps {
    /// Synchronize file data.
    pub const DATASYNC: u32 = 0b1;

    /// Read from the file.
    pub const READ: u32 = 0b10;

    /// Seek within the file.
    pub const SEEK: u32 = 0b100;

    /// Change descriptor flags.
    pub const FDSTAT_SET_FLAGS: u32 = 0b1000;

    /// Synchronize the file.
    pub const SYNC: u32 = 0b10000;

    /// Report the current offset.
    pub const TELL: u32 = 0b100000;

    /// Write to the file.
    pub const WRITE: u32 = 0b1000000;

    /// Give access advice.
    pub const ADVISE: u32 = 0b10000000;

    /// Allocate space.
    pub const ALLOCATE: u32 = 0b100000000;

    /// Read file metadata.
    pub const FILESTAT_GET: u32 = 0b1000000000;

    /// Truncate or extend the file.
    pub const FILESTAT_SET_SIZE: u32 = 0b10000000000;

    /// Set file times.
    pub const FILESTAT_SET_TIMES: u32 = 0b100000000000;

    /// Poll for readiness.
    pub const POLL_READWRITE: u32 = 0b1000000000000;

    /// Whether every capability of `other` is present in `self`.
    pub fn contains(&self, other: FileCaps) -> (r: bool)
        ensures
            r == (self.0 & other.0 == other.0),
    {
        self.0 & other.0 == other.0
    }

    /// The capabilities present in either set.
    pub fn union(&self, other: FileCaps) -> (r: FileCaps)
        ensures
            r.0 == (self.0 | other.0),
    {
        FileCaps(self.0 | other.0)
    }
}

/// A point in time: nanoseconds since the Unix epoch.
#[derive(Clone, Copy, Debug, PartialEq, Eq, Structural)]
pub struct FileTime {
    /// Nanoseconds since the Unix epoch.
    pub nanos: u64,
}

/// File metadata, as `fd_filestat_get` reports it.
#[derive(Clone, Copy, Debug, PartialEq, Eq, Structural)]
pub struct Filestat {
    /// Device holding the file.
    pub device_id: u64,
    /// Inode of the file on its device.
    pub inode: u64,
    /// The file's kind.
    pub filetype: FileType,
    /// Number of hard links.
    pub nlink: u64,
    /// Size in bytes.
    pub size: u64,
    /// Last access time, where known.
    pub atim: Option<FileTime>,
    /// Last modification time, where known.
    pub mtim: Option<FileTime>,
    /// Last status change time, where known.
    pub ctim: Option<FileTime>,
}

/// Descriptor status, as `fd_fdstat_get` reports it.
#[derive(Clone, Copy, Debug, PartialEq, Eq, Structural)]
pub struct FdStat {
    /// The kind of the underlying file.
    pub filetype: FileType,
    /// The descriptor's capabilities.
    pub caps: FileCaps,
    /// The descriptor's status flags.
    pub flags: FdFlags,
}

} // verus!
