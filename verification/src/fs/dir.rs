//! Directory streams and their entries.
use crate::fs::types::{file_type_of_format, FileType};
use crate::io::Error;
use vstd::prelude::*;

verus! {

#[verifier::external_type_specification]
#[verifier::external_body]
pub struct ExOwnedFd(io_lifetimes::OwnedFd);

/// `DIR*`: a directory stream over an owned directory file descriptor,
/// with a buffer of directory entries read from it and a position in the
/// buffer.
pub struct Dir {
    fd: io_lifetimes::OwnedFd,
    buf: Vec<u8>,
    pos: usize,
    next: Option<u64>,
}

impl Dir {
    /// The buffered directory entries.
    pub closed spec fn buffer(&self) -> Seq<u8> {
        self.buf@
    }

    /// The position of the next entry in the buffer.
    pub closed spec fn position(&self) -> usize {
        self.pos
    }

    /// The cookie of the entry to read the directory from, once the buffer
    /// is used up.
    pub closed spec fn next_cookie(&self) -> Option<u64> {
        self.next
    }

    /// The directory file descriptor that the stream owns.
    pub closed spec fn descriptor(&self) -> io_lifetimes::OwnedFd {
        self.fd
    }

    /// Construct a `Dir`, assuming ownership of the file descriptor.
    pub fn from(fd: io_lifetimes::OwnedFd) -> (r: Result<Self, Error>)
        ensures
            r matches Ok(d) && d.descriptor() == fd && d.buffer().len() == 0 && d.position() == 0
                && d.next_cookie() is None,
    {
        Self::_from(fd)
    }

    fn _from(fd: io_lifetimes::OwnedFd) -> (r: Result<Self, Error>)
        ensures
            r matches Ok(d) && d.descriptor() == fd && d.buffer().len() == 0 && d.position() == 0
                && d.next_cookie() is None,
    {
        Ok(Self { fd, buf: Vec::new(), pos: 0, next: None })
    }

    /// `rewinddir(self)`: the buffered entries are used up, and the
    /// directory is to be read again from its start.
    pub fn rewind(&mut self)
        ensures
            final(self).descriptor() == old(self).descriptor(),
            final(self).buffer() == old(self).buffer(),
            final(self).position() == old(self).buffer().len(),
            final(self).next_cookie() == Some(0u64),
    {
        self.pos = self.buf.len();
        self.next = Some(0);
    }
}

/// `struct dirent`
#[derive(Debug)]
pub struct DirEntry {
    d_ino: u64,
    d_type: u8,
    name: Vec<u8>,
}

impl DirEntry {
    /// The inode number.
    pub closed spec fn inode(&self) -> u64 {
        self.d_ino
    }

    /// The `d_type` code.
    pub closed spec fn type_code(&self) -> u8 {
        self.d_type
    }

    /// The file name, without a terminating NUL.
    pub closed spec fn name_bytes(&self) -> Seq<u8> {
        self.name@
    }

    /// The entry for a directory entry that was read: its inode number, its
    /// `d_type` code and its name.
    pub fn new(d_ino: u64, d_type: u8, name: Vec<u8>) -> (e: Self)
        ensures
            e.inode() == d_ino,
            e.type_code() == d_type,
            e.name_bytes() == name@,
    {
        Self { d_ino, d_type, name }
    }

    /// Returns the file name of this directory entry.
    pub fn file_name(&self) -> (n: &[u8])
        ensures
            n@ == self.name_bytes(),
    {
        self.name.as_slice()
    }

    /// Returns the type of this directory entry.
    pub fn file_type(&self) -> (t: FileType)
        ensures
            t == file_type_of_format(self.type_code() as int),
    {
        FileType::from_dirent_d_type(self.d_type)
    }

    /// Return the inode number of this directory entry.
    pub fn ino(&self) -> (r: u64)
        ensures
            r == self.inode(),
    {
        self.d_ino
    }
}

} // verus!
