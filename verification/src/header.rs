//! Headers of archive members: size, ownership, mode and checksum.

use crate::error::{BuildError, BuildErrorView, Location, LocationView, Operation};
use vstd::prelude::*;
use vstd::string::StringExecFns;

verus! {

/// Mode of a member that nothing marks as executable.
pub const DEFAULT_MODE: u32 = 0o644;

/// Mode of a member that has to be runnable.
pub const EXECUTABLE_MODE: u32 = 0o755;

/// The checksum that `tar` stores in a blank GNU header once the four fields
/// are set to the given values.
pub uninterp spec fn gnu_checksum(size: u64, uid: u64, gid: u64, mode: u32) -> u32;

/// The fields of a member's header that a build decides.
#[derive(Clone, Copy, Debug)]
pub struct Header {
    pub size: u64,
    pub uid: u64,
    pub gid: u64,
    pub mode: u32,
    pub cksum: u32,
}

impl Header {
    /// The checksum field matches the other fields as they are now.
    pub open spec fn checksum_current(self) -> bool {
        self.cksum == gnu_checksum(self.size, self.uid, self.gid, self.mode)
    }

    /// The header announces exactly the bytes of `payload`.
    pub open spec fn describes(self, payload: Seq<u8>) -> bool {
        self.size == payload.len()
    }

    /// The header of a payload of `len` bytes with the given mode: owner
    /// and group 0, and the checksum that belongs to these fields.
    pub open spec fn with_mode(len: nat, mode: u32) -> Header
        recommends
            len <= u64::MAX,
    {
        Header {
            size: len as u64,
            uid: 0,
            gid: 0,
            mode,
            cksum: gnu_checksum(len as u64, 0, 0, mode),
        }
    }

    /// The header that `header_from_buf` gives for a payload of `len` bytes.
    pub open spec fn fresh(len: nat) -> Header
        recommends
            len <= u64::MAX,
    {
        Header::with_mode(len, DEFAULT_MODE)
    }

    /// The header of a runnable member with a payload of `len` bytes.
    pub open spec fn runnable(len: nat) -> Header
        recommends
            len <= u64::MAX,
    {
        Header::with_mode(len, EXECUTABLE_MODE)
    }

    /// The length of the payload that the header announces.
    pub fn size(&self) -> (size: u64)
        ensures
            size == self.size,
    {
        self.size
    }

    /// The owner, which is 0 in every header that a build makes.
    pub fn uid(&self) -> (uid: u64)
        ensures
            uid == self.uid,
    {
        self.uid
    }

    /// The group, which is 0 in every header that a build makes.
    pub fn gid(&self) -> (gid: u64)
        ensures
            gid == self.gid,
    {
        self.gid
    }

    /// The permission bits.
    pub fn mode(&self) -> (mode: u32)
        ensures
            mode == self.mode,
    {
        self.mode
    }

    /// The checksum as it was last computed.
    pub fn cksum(&self) -> (cksum: u32)
        ensures
            cksum == self.cksum,
    {
        self.cksum
    }

    /// Replaces the mode. The checksum is left as it was, so it is stale
    /// until `set_cksum` runs.
    pub fn set_mode(&mut self, mode: u32)
        ensures
            *final(self) == (Header { mode, ..*old(self) }),
    {
        self.mode = mode;
    }

    /// Recomputes the checksum from the other fields.
    pub fn set_cksum(&mut self)
        ensures
            *final(self) == (Header {
                cksum: gnu_checksum(old(self).size, old(self).uid, old(self).gid, old(self).mode),
                ..*old(self)
            }),
            final(self).checksum_current(),
    {
        self.cksum = stored_checksum(self.size, self.uid, self.gid, self.mode);
    }
}

/// Lets `tar::Header::set_cksum` compute the checksum of a blank GNU header
/// that carries the four fields, and reads it back with `tar::Header::cksum`,
/// which parses the digits that were just written. The sum depends on the
/// header's bytes alone, so equal fields give equal sums.
#[verifier::external_body]
fn stored_checksum(size: u64, uid: u64, gid: u64, mode: u32) -> (sum: u32)
    ensures
        sum == gnu_checksum(size, uid, gid, mode),
{
    let mut raw = tar::Header::new_gnu();
    raw.set_size(size);
    raw.set_uid(uid);
    raw.set_gid(gid);
    raw.set_mode(mode);
    raw.set_cksum();
    raw.cksum().unwrap_or_default()
}

/// The header of a member whose payload is `b`: its size is the payload's
/// length, owner and group are 0, the mode is the default one, and the
/// checksum is computed last.
pub fn header_from_buf(b: &[u8]) -> (header: Header)
    ensures
        header == Header::fresh(b@.len()),
        header.describes(b@),
        header.checksum_current(),
{
    let mut header = Header { size: b.len() as u64, uid: 0, gid: 0, mode: DEFAULT_MODE, cksum: 0 };
    header.set_cksum();
    header
}

/// The error for a file that could not be opened or read.
pub open spec fn unreadable(path: Seq<char>) -> BuildErrorView {
    BuildErrorView::Io { operation: Operation::Read, location: LocationView::Picked { path } }
}

/// The header and the bytes of a file that was read whole. `content` is what
/// reading the file at `path` gave, `None` where it could not be opened or
/// read.
pub fn header_from_file(path: &str, content: Option<Vec<u8>>) -> (outcome: Result<
    (Header, Vec<u8>),
    BuildError,
>)
    ensures
        match content {
            Some(bytes) => outcome matches Ok(pair) && pair.0 == Header::fresh(bytes@.len())
                && pair.1 == bytes,
            None => outcome matches Err(e) && e@ == unreadable(path@),
        },
        outcome matches Ok(pair) ==> pair.0.describes(pair.1@) && pair.0.checksum_current(),
{
    match content {
        Some(bytes) => {
            let header = header_from_buf(bytes.as_slice());
            Ok((header, bytes))
        },
        None => Err(
            BuildError::Io {
                operation: Operation::Read,
                location: Location::Picked { path: String::from_str(path) },
            },
        ),
    }
}

} // verus!
