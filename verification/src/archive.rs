//! Archive members and their encoding as a compressed tar stream.

use crate::error::{BuildError, BuildErrorView, EncodeFault};
use crate::header::{header_from_file, unreadable, Header};
use vstd::pervasive::unreached;
use vstd::prelude::*;
use vstd::utf8::{encode_utf8, is_ascii_chars, is_ascii_chars_encode_utf8};

verus! {

/// One member of an archive: its name, its header and its payload.
#[derive(Debug)]
pub struct ArchiveEntry {
    pub name: String,
    pub header: Header,
    pub data: Vec<u8>,
}

/// What the contracts see of an `ArchiveEntry`.
pub struct EntryView {
    pub name: Seq<char>,
    pub header: Header,
    pub data: Seq<u8>,
}

impl View for ArchiveEntry {
    type V = EntryView;

    open spec fn view(&self) -> EntryView {
        EntryView { name: self.name@, header: self.header, data: self.data@ }
    }
}

impl EntryView {
    /// The header announces the payload's length, and its checksum is
    /// current.
    pub open spec fn well_formed(self) -> bool {
        self.header.describes(self.data) && self.header.checksum_current()
    }

    /// The member is one that `tar` takes on any platform: its name is an
    /// accepted one, and its header announces the payload's length.
    pub open spec fn fit(self) -> bool {
        accepted_name(self.name) && self.header.describes(self.data)
    }

    /// A member with the default mode.
    pub open spec fn plain(name: Seq<char>, data: Seq<u8>) -> EntryView {
        EntryView { name, header: Header::fresh(data.len()), data }
    }

    /// A member that can be run.
    pub open spec fn runnable(name: Seq<char>, data: Seq<u8>) -> EntryView {
        EntryView { name, header: Header::runnable(data.len()), data }
    }
}

/// The views of the members, in their order.
pub open spec fn entries_view(members: Seq<ArchiveEntry>) -> Seq<EntryView> {
    Seq::new(members.len(), |i: int| members[i]@)
}

/// A character that every platform reads alike in a name: any but `\`,
/// which some platforms take for a separator, and `:`, which one takes for
/// the end of a drive's name.
pub open spec fn portable_char(c: char) -> bool {
    c != '\\' && c != ':'
}

/// A member's name that every platform reads alike: it is split into the
/// same components everywhere, so the member's bytes depend on nothing but
/// what is handed over. Any other name is taken too, and what is written
/// for it is the platform's to say.
pub open spec fn portable_name(name: Seq<char>) -> bool {
    forall|i: int| 0 <= i < name.len() ==> portable_char(#[trigger] name[i])
}

/// Every member has a portable name.
pub open spec fn all_portable(members: Seq<EntryView>) -> bool {
    forall|i: int| 0 <= i < members.len() ==> portable_name((#[trigger] members[i]).name)
}

/// A component `..` of the portable name begins at `at`.
pub open spec fn climbs_at(name: Seq<char>, at: int) -> bool {
    &&& 0 <= at
    &&& at + 2 <= name.len()
    &&& name[at] == '.'
    &&& name[at + 1] == '.'
    &&& (at == 0 || name[at - 1] == '/')
    &&& (at + 2 == name.len() || name[at + 2] == '/')
}

/// A name under which `tar` takes a member on every platform: portable, not
/// empty, at most 100 bytes in UTF-8, relative, without a NUL, and without
/// a component `..`. Names beyond these are for `tar` to judge.
pub open spec fn accepted_name(name: Seq<char>) -> bool {
    &&& portable_name(name)
    &&& 0 < name.len()
    &&& encode_utf8(name).len() <= 100
    &&& name[0] != '/'
    &&& forall|i: int| 0 <= i < name.len() ==> #[trigger] name[i] != '\0'
    &&& forall|i: int| !(#[trigger] climbs_at(name, i))
}

/// A name of lower-case letters, `_` and single dots, not longer than 100
/// characters and not empty, is both portable and accepted.
pub proof fn lemma_plain_name_fits(name: Seq<char>)
    requires
        0 < name.len() <= 100,
        forall|i: int|
            0 <= i < name.len() ==> 'a' <= #[trigger] name[i] <= 'z' || name[i] == '_' || name[i]
                == '.',
        forall|i: int| 0 <= i < name.len() - 1 ==> !(#[trigger] name[i] == '.' && name[i + 1] == '.'),
    ensures
        portable_name(name),
        accepted_name(name),
{
    assert(is_ascii_chars(name));
    is_ascii_chars_encode_utf8(name);
    assert forall|i: int| !(#[trigger] climbs_at(name, i)) by {
        if climbs_at(name, i) {
            assert(name[i] == '.' && name[i + 1] == '.');
        }
    }
}

/// Every member is one that `tar` takes on any platform.
pub open spec fn all_fit(members: Seq<EntryView>) -> bool {
    forall|i: int| 0 <= i < members.len() ==> (#[trigger] members[i]).fit()
}

/// The archive has received more since, and lost nothing of what it held.
pub open spec fn grown(before: Seq<u8>, after: Seq<u8>) -> bool {
    before.len() < after.len() && after.subrange(0, before.len() as int) == before
}

/// A tar archive that is written into memory: a `tar::Builder` over a
/// `Vec<u8>`. The contracts know what it holds only as `written`.
#[verifier::external_body]
pub struct Archive {
    builder: tar::Builder<Vec<u8>>,
}

/// The error of `std::io`, which the calls into `tar` and `flate2` return.
/// It is only passed on to be mapped.
#[verifier::external_type_specification]
#[verifier::external_body]
pub struct ExIoError(std::io::Error);

/// The bytes that an archive in memory has received so far.
pub uninterp spec fn written(archive: Archive) -> Seq<u8>;

/// The bytes by which `tar::Builder::append_data` extends an archive in
/// memory for a member with this portable name, these header fields and
/// this payload, or `None` where it refuses the member.
pub uninterp spec fn member_bytes(
    name: Seq<char>,
    size: u64,
    uid: u64,
    gid: u64,
    mode: u32,
    payload: Seq<u8>,
) -> Option<Seq<u8>>;

/// What `flate2::write::GzEncoder` makes of `data` at the default level, or
/// `None` where it fails.
pub uninterp spec fn gzip_stream(data: Seq<u8>) -> Option<Seq<u8>>;

/// The two blocks of zeros that end a tar archive.
pub open spec fn end_marker() -> Seq<u8> {
    Seq::new(1024, |i: int| 0u8)
}

/// The bytes that a member with a portable name adds to an archive, or
/// `None` where its header announces another size than its payload has or
/// the member is refused.
pub open spec fn member_encoding(name: Seq<char>, header: Header, payload: Seq<u8>) -> Option<
    Seq<u8>,
> {
    if header.describes(payload) {
        member_bytes(name, header.size, header.uid, header.gid, header.mode, payload)
    } else {
        None
    }
}

/// The bytes of members with portable names one after the other, or `None`
/// where one of them is refused.
pub open spec fn members_encoding(members: Seq<EntryView>) -> Option<Seq<u8>>
    decreases members.len(),
{
    if members.len() == 0 {
        Some(Seq::empty())
    } else {
        let last = members.last();
        match (
            members_encoding(members.drop_last()),
            member_encoding(last.name, last.header, last.data),
        ) {
            (Some(before), Some(bytes)) => Some(before + bytes),
            _ => None,
        }
    }
}

/// The finished tar archive of members with portable names: their bytes,
/// then the end marker.
pub open spec fn tar_encoding(members: Seq<EntryView>) -> Result<Seq<u8>, EncodeFault> {
    match members_encoding(members) {
        None => Err(EncodeFault::Member),
        Some(body) => Ok(body + end_marker()),
    }
}

/// The compressed tar archive of members with portable names.
pub open spec fn archive_encoding(members: Seq<EntryView>) -> Result<Seq<u8>, EncodeFault> {
    match tar_encoding(members) {
        Err(fault) => Err(fault),
        Ok(archive) => match gzip_stream(archive) {
            None => Err(EncodeFault::Compression),
            Some(packed) => Ok(packed),
        },
    }
}

/// The error of an archive that could not be encoded.
pub open spec fn encode_error(fault: EncodeFault) -> BuildErrorView {
    BuildErrorView::Archive { fault }
}

/// Makes an archive in memory with `tar::Builder::new`: it has received
/// nothing yet.
#[verifier::external_body]
fn builder_new() -> (archive: Archive)
    ensures
        written(archive) == Seq::<u8>::empty(),
{
    Archive { builder: tar::Builder::new(Vec::new()) }
}

/// Writes one member with `tar::Builder::append_data`, on a blank GNU
/// header that carries the four fields.
///
/// The call checks the name before it writes anything, and writing into
/// memory does not fail: so a failure leaves the archive as it was, and a
/// success has added to it. An accepted name passes that check on every
/// platform. For a portable name, one without `\` and `:`, every platform
/// splits the path alike, so the outcome and the bytes that are added
/// depend on the name, the fields and the payload alone.
#[verifier::external_body]
fn builder_append(archive: &mut Archive, header: &Header, name: &str, payload: &[u8]) -> (outcome:
    Result<(), std::io::Error>)
    requires
        header.describes(payload@),
    ensures
        outcome is Ok ==> grown(written(*old(archive)), written(*final(archive))),
        outcome is Err ==> written(*final(archive)) == written(*old(archive)),
        accepted_name(name@) ==> outcome is Ok,
        portable_name(name@) ==> match member_bytes(
            name@,
            header.size,
            header.uid,
            header.gid,
            header.mode,
            payload@,
        ) {
            Some(bytes) => outcome is Ok && written(*final(archive)) == written(*old(archive))
                + bytes,
            None => outcome is Err,
        },
{
    let mut raw = tar::Header::new_gnu();
    raw.set_size(header.size);
    raw.set_uid(header.uid);
    raw.set_gid(header.gid);
    raw.set_mode(header.mode);
    raw.set_cksum();
    archive.builder.append_data(&mut raw, name, payload)
}

/// Ends the archive with `tar::Builder::into_inner` and hands out its bytes:
/// what it had received, followed by two blocks of 512 zeros. Writing them
/// into memory does not fail.
#[verifier::external_body]
fn builder_into_inner(archive: Archive) -> (outcome: Result<Vec<u8>, std::io::Error>)
    ensures
        outcome is Ok,
        outcome matches Ok(out) ==> out@ == written(archive) + end_marker(),
{
    archive.builder.into_inner()
}

/// Compresses `data` in one piece with `flate2::write::GzEncoder` at the
/// default level, into memory. The encoder stamps neither a time nor a file
/// name, so equal data give equal streams.
#[verifier::external_body]
fn gzip(data: &[u8]) -> (outcome: Result<Vec<u8>, std::io::Error>)
    ensures
        match gzip_stream(data@) {
            Some(bytes) => outcome matches Ok(out) && out@ == bytes,
            None => outcome is Err,
        },
{
    let mut encoder = flate2::write::GzEncoder::new(Vec::new(), flate2::Compression::default());
    std::io::Write::write_all(&mut encoder, data)?;
    encoder.finish()
}

impl Archive {
    /// An archive that holds nothing yet.
    pub fn new() -> (archive: Archive)
        ensures
            written(archive) == Seq::<u8>::empty(),
    {
        builder_new()
    }

    /// Adds a member under any name that `tar` takes.
    ///
    /// A header whose size is not the length of `data` is refused here; a
    /// name is refused by `tar` alone. A refused member leaves the archive as
    /// it was. The checksum that is written is computed anew from the header
    /// as it is written, with the name in it.
    pub fn append_data(&mut self, header: &Header, name: &str, data: &[u8]) -> (outcome: Result<
        (),
        BuildError,
    >)
        ensures
            outcome matches Err(e) ==> e@ == encode_error(EncodeFault::Member) && written(
                *final(self),
            ) == written(*old(self)),
            outcome is Ok ==> header.describes(data@) && grown(
                written(*old(self)),
                written(*final(self)),
            ),
            accepted_name(name@) && header.describes(data@) ==> outcome is Ok,
            portable_name(name@) ==> match member_encoding(name@, *header, data@) {
                Some(bytes) => outcome is Ok && written(*final(self)) == written(*old(self))
                    + bytes,
                None => outcome is Err,
            },
    {
        if header.size != data.len() as u64 {
            return Err(BuildError::Archive { fault: EncodeFault::Member });
        }
        match builder_append(self, header, name, data) {
            Ok(()) => Ok(()),
            Err(_) => Err(BuildError::Archive { fault: EncodeFault::Member }),
        }
    }

    /// Ends the archive and hands out its bytes: what it has received,
    /// then the end marker.
    pub fn into_inner(self) -> (bytes: Vec<u8>)
        ensures
            bytes@ == written(self) + end_marker(),
    {
        match builder_into_inner(self) {
            Ok(bytes) => bytes,
            Err(_) => unreached(),
        }
    }
}

/// The gzip stream of `data`.
pub fn compress(data: &[u8]) -> (outcome: Result<Vec<u8>, BuildError>)
    ensures
        match gzip_stream(data@) {
            Some(bytes) => outcome matches Ok(out) && out@ == bytes,
            None => outcome matches Err(e) && e@ == encode_error(EncodeFault::Compression),
        },
{
    match gzip(data) {
        Ok(bytes) => Ok(bytes),
        Err(_) => Err(BuildError::Archive { fault: EncodeFault::Compression }),
    }
}

/// Once a member is refused, so is every longer list that starts alike.
proof fn lemma_refusal_stays(members: Seq<EntryView>, upto: int)
    requires
        0 <= upto <= members.len(),
        members_encoding(members.take(upto)) is None,
    ensures
        members_encoding(members) is None,
    decreases members.len() - upto,
{
    if upto < members.len() {
        assert(members.take(upto + 1).drop_last() =~= members.take(upto));
        lemma_refusal_stays(members, upto + 1);
    } else {
        assert(members.take(upto) =~= members);
    }
}

/// The compressed tar archive of `members`, in their order.
///
/// Where every name is portable, the outcome is the one that the model
/// gives. Whatever the names, what comes out is the compressed form of a
/// finished tar archive; only a member that is not fit can be refused, and
/// nothing else fails but the compression.
pub fn encode_archive(members: &Vec<ArchiveEntry>) -> (outcome: Result<Vec<u8>, BuildError>)
    ensures
        all_portable(entries_view(members@)) ==> match archive_encoding(entries_view(members@)) {
            Ok(bytes) => outcome matches Ok(out) && out@ == bytes,
            Err(fault) => outcome matches Err(e) && e@ == encode_error(fault),
        },
        outcome matches Ok(out) ==> exists|tar: Seq<u8>|
            end_marker().is_suffix_of(tar) && #[trigger] gzip_stream(tar) == Some(out@),
        outcome matches Err(e) ==> {
            ||| e@ == encode_error(EncodeFault::Member) && !all_fit(entries_view(members@))
            ||| e@ == encode_error(EncodeFault::Compression) && exists|tar: Seq<u8>|
                end_marker().is_suffix_of(tar) && #[trigger] gzip_stream(tar) is None
        },
{
    let ghost views = entries_view(members@);
    let mut archive = Archive::new();
    let mut i: usize = 0;
    proof {
        assert(views.take(0) =~= Seq::<EntryView>::empty());
    }
    while i < members.len()
        invariant
            i <= members.len(),
            views == entries_view(members@),
            all_portable(views) ==> members_encoding(views.take(i as int)) == Some(
                written(archive),
            ),
        decreases members.len() - i,
    {
        let entry = &members[i];
        proof {
            assert(views.take(i + 1).drop_last() =~= views.take(i as int));
            assert(views.take(i + 1).last() == entry@);
            assert(views[i as int] == entry@);
        }
        match archive.append_data(&entry.header, entry.name.as_str(), entry.data.as_slice()) {
            Ok(()) => {},
            Err(e) => {
                proof {
                    if all_portable(views) {
                        lemma_refusal_stays(views, i + 1);
                    }
                    assert(!views[i as int].fit());
                }
                return Err(e);
            },
        }
        i += 1;
    }
    proof {
        assert(views.take(i as int) =~= views);
    }
    let tar = archive.into_inner();
    assert(end_marker().is_suffix_of(tar@)) by {
        assert(tar@.subrange(tar@.len() - end_marker().len(), tar@.len() as int) =~= end_marker());
    }
    compress(tar.as_slice())
}

/// Adds the file that was read from `src_path` to the archive under the name
/// `tgt_path`, with the default mode.
///
/// `content` is what reading the file gave, `None` where it could not be
/// opened or read. Only `tar` refuses a name, and it refuses no accepted
/// one. Whatever fails, the archive is left as it was.
pub fn append_file(
    src_path: &str,
    content: Option<Vec<u8>>,
    arch: &mut Archive,
    tgt_path: &str,
) -> (outcome: Result<(), BuildError>)
    ensures
        outcome is Err ==> written(*final(arch)) == written(*old(arch)),
        outcome is Ok ==> grown(written(*old(arch)), written(*final(arch))),
        match content {
            None => outcome matches Err(e) && e@ == unreadable(src_path@),
            Some(bytes) => {
                &&& outcome matches Err(e) ==> e@ == encode_error(EncodeFault::Member)
                &&& accepted_name(tgt_path@) ==> outcome is Ok
                &&& portable_name(tgt_path@) ==> match member_encoding(
                    tgt_path@,
                    Header::fresh(bytes@.len()),
                    bytes@,
                ) {
                    Some(added) => outcome is Ok && written(*final(arch)) == written(*old(arch))
                        + added,
                    None => outcome is Err,
                }
            },
        },
{
    match header_from_file(src_path, content) {
        Ok(pair) => arch.append_data(&pair.0, tgt_path, pair.1.as_slice()),
        Err(e) => Err(e),
    }
}

} // verus!
