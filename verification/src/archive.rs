//! Archive encoding. A tar archive is built from an explicit list of
//! entries (relative path, permission bits, modification time, entry type,
//! contents), in two flavors: with the tree's top-level directory name as
//! the first path segment of every entry, or with entries relative to `.`
//! as the members of a Debian package expect. An ar archive is built from
//! an explicit ordered list of named members. The byte-level encoders are
//! the `tar` and `ar` crates; what they were handed, and that the output is
//! a function of exactly that, is tracked here.

use vstd::prelude::*;

use crate::error::{Error, ErrorKind};

verus! {

use vstd::string::StringSliceAdditionalSpecFns;

/// A tar archive under construction, held opaquely: Verus sees it only
/// through `tar_recorded`.
#[verifier::external_body]
pub struct TarBuilder {
    inner: tar::Builder<Vec<u8>>,
}

/// An ar archive under construction, held opaquely: Verus sees it only
/// through `ar_recorded`.
#[verifier::external_body]
pub struct ArBuilder {
    inner: ar::Builder<Vec<u8>>,
}

/// One tar entry: a relative path, its metadata, and (for files) its bytes.
#[derive(Debug, Clone)]
pub struct TarEntry {
    /// Path relative to the tree being archived; empty for the root itself.
    pub path: String,
    /// POSIX permission bits.
    pub mode: u32,
    /// Modification time, seconds since the epoch.
    pub mtime: u64,
    pub is_dir: bool,
    /// File contents; empty for directories.
    pub data: Vec<u8>,
}

/// Spec-level image of a `TarEntry`.
#[verifier::ext_equal]
pub struct TarEntryV {
    pub path: Seq<char>,
    pub mode: u32,
    pub mtime: u64,
    pub is_dir: bool,
    pub data: Seq<u8>,
}

impl View for TarEntry {
    type V = TarEntryV;

    open spec fn view(&self) -> TarEntryV {
        TarEntryV {
            path: self.path@,
            mode: self.mode,
            mtime: self.mtime,
            is_dir: self.is_dir,
            data: self.data@,
        }
    }
}

/// The entries appended to a tar builder so far, in order.
pub uninterp spec fn tar_recorded(b: TarBuilder) -> Seq<TarEntryV>;

/// The bytes of the finished tar archive holding exactly these entries:
/// for each entry a GNU header block (with the header checksum computed
/// over it) followed by the entry's data padded to full blocks, then the
/// two terminating zero blocks.
pub uninterp spec fn tar_bytes(entries: Seq<TarEntryV>) -> Seq<u8>;

/// Relies on tar::Builder::new: a fresh builder over an in-memory buffer,
/// with nothing appended yet.
#[verifier::external_body]
fn tar_builder_new() -> (b: TarBuilder)
    ensures
        tar_recorded(b) == Seq::<TarEntryV>::empty(),
{
    TarBuilder { inner: tar::Builder::new(Vec::new()) }
}

/// Relies on tar::Builder::append with a GNU header carrying the given
/// mode, mtime, the data's length as size, and the regular-file entry
/// type. The path bytes go into the header's name field as they stand, so
/// a leading `./` survives the way Debian archives spell it; the field
/// holds at most 100 bytes. The builder writes to a memory buffer, so the
/// append cannot fail.
#[verifier::external_body]
fn tar_append_file(b: &mut TarBuilder, path: &str, mode: u32, mtime: u64, data: &Vec<u8>)
    requires
        path.spec_bytes().len() <= 100,
    ensures
        tar_recorded(*final(b)) == tar_recorded(*old(b)).push(
            (TarEntryV { path: path@, mode, mtime, is_dir: false, data: data@ }),
        ),
{
    let mut h = tar::Header::new_gnu();
    h.set_mode(mode);
    h.set_mtime(mtime);
    h.set_size(data.len() as u64);
    h.set_entry_type(tar::EntryType::Regular);
    h.as_gnu_mut().unwrap().name[..path.len()].copy_from_slice(path.as_bytes());
    h.set_cksum();
    b.inner.append(&h, data.as_slice()).expect("writing to a memory buffer cannot fail");
}

/// Relies on tar::Builder::append with a GNU header carrying the given
/// mode, mtime, size zero and the directory entry type; the path bytes go
/// into the header's name field as they stand, at most 100 of them. The
/// builder writes to a memory buffer, so the append cannot fail.
#[verifier::external_body]
fn tar_append_dir(b: &mut TarBuilder, path: &str, mode: u32, mtime: u64)
    requires
        path.spec_bytes().len() <= 100,
    ensures
        tar_recorded(*final(b)) == tar_recorded(*old(b)).push(
            (TarEntryV { path: path@, mode, mtime, is_dir: true, data: Seq::empty() }),
        ),
{
    let mut h = tar::Header::new_gnu();
    h.set_mode(mode);
    h.set_mtime(mtime);
    h.set_size(0);
    h.set_entry_type(tar::EntryType::Directory);
    h.as_gnu_mut().unwrap().name[..path.len()].copy_from_slice(path.as_bytes());
    h.set_cksum();
    b.inner.append(&h, std::io::empty()).expect("writing to a memory buffer cannot fail");
}

/// Relies on tar::Builder::into_inner: finishes the archive (writing its
/// two terminating zero blocks) and hands back the buffer; the bytes are a
/// function of the appended entries alone, and writing the trailer to a
/// memory buffer cannot fail.
#[verifier::external_body]
fn tar_into_bytes(b: TarBuilder) -> (bytes: Vec<u8>)
    ensures
        bytes@ == tar_bytes(tar_recorded(b)),
{
    b.inner.into_inner().expect("writing to a memory buffer cannot fail")
}

/// One entry of `es`, re-rooted for the with-root-directory flavor: the
/// tree's own name for the root entry, `root/relative` for the rest.
pub open spec fn spec_rooted(e: TarEntryV, root: Seq<char>) -> TarEntryV {
    TarEntryV {
        path: if e.path.len() == 0 {
            root
        } else {
            root + "/"@ + e.path
        },
        mode: e.mode,
        mtime: e.mtime,
        is_dir: e.is_dir,
        data: e.data,
    }
}

/// The first `n` entries of `es` re-rooted under `root`.
pub open spec fn spec_rooted_entries(es: Seq<TarEntryV>, root: Seq<char>, n: int) -> Seq<TarEntryV>
    decreases n,
{
    if n <= 0 {
        Seq::empty()
    } else {
        spec_rooted_entries(es, root, n - 1) + seq![spec_rooted(es[n - 1], root)]
    }
}

/// One entry of `es` for the without-root-directory flavor: `./relative`.
pub open spec fn spec_dotted(e: TarEntryV) -> TarEntryV {
    TarEntryV {
        path: "./"@ + e.path,
        mode: e.mode,
        mtime: e.mtime,
        is_dir: e.is_dir,
        data: e.data,
    }
}

/// The first `n` entries of `es` dot-prefixed; entries whose relative path
/// is empty (the root itself) are skipped.
pub open spec fn spec_dotted_entries(es: Seq<TarEntryV>, n: int) -> Seq<TarEntryV>
    decreases n,
{
    if n <= 0 {
        Seq::empty()
    } else if es[n - 1].path.len() == 0 {
        spec_dotted_entries(es, n - 1)
    } else {
        spec_dotted_entries(es, n - 1) + seq![spec_dotted(es[n - 1])]
    }
}

/// The views of a list of entries.
pub open spec fn spec_entry_views(es: Seq<TarEntry>) -> Seq<TarEntryV> {
    es.map_values(|e: TarEntry| e@)
}

fn append_entry(b: &mut TarBuilder, path: &str, e: &TarEntry)
    requires
        path.spec_bytes().len() <= 100,
    ensures
        tar_recorded(*final(b)) == tar_recorded(*old(b)).push(
            (TarEntryV {
                path: path@,
                mode: e.mode,
                mtime: e.mtime,
                is_dir: e.is_dir,
                data: if e.is_dir {
                    Seq::empty()
                } else {
                    e.data@
                },
            }),
        ),
{
    if e.is_dir {
        tar_append_dir(b, path, e.mode, e.mtime)
    } else {
        tar_append_file(b, path, e.mode, e.mtime, &e.data)
    }
}

/// Does this entry's path, re-rooted under `root`, fit the tar header's
/// 100-byte name field?
pub open spec fn spec_rooted_fits(e: TarEntryV, root: Seq<char>) -> bool {
    vstd::utf8::encode_utf8(spec_rooted(e, root).path).len() <= 100
}

/// Does this entry's `./`-prefixed path fit the tar header's 100-byte
/// name field? The root entry is skipped, so it always fits.
pub open spec fn spec_dotted_fits(e: TarEntryV) -> bool {
    e.path.len() == 0 || vstd::utf8::encode_utf8("./"@ + e.path).len() <= 100
}

/// A well-formed staged entry: a directory carries no bytes.
pub open spec fn spec_entry_wf(e: TarEntryV) -> bool {
    e.is_dir ==> e.data.len() == 0
}

/// Encodes a tree as a tar archive whose first path segment is `root_name`
/// for every entry; the entry with the empty relative path stands for the
/// tree's root directory itself. Encoding succeeds exactly when every full
/// path fits the header's 100-byte name field.
pub fn create_tar(root_name: &str, entries: &Vec<TarEntry>) -> (r: Result<Vec<u8>, Error>)
    requires
        forall|k: int| 0 <= k < entries@.len() ==> #[trigger] spec_entry_wf(entries@[k]@),
    ensures
        r is Ok <==> (forall|k: int|
            0 <= k < entries@.len() ==> #[trigger] spec_rooted_fits(entries@[k]@, root_name@)),
        r matches Ok(bytes) ==> bytes@ == tar_bytes(
            spec_rooted_entries(spec_entry_views(entries@), root_name@, entries@.len() as int),
        ),
        r matches Err(e) ==> e.spec_kind() == ErrorKind::IoError,
{
    let mut b = tar_builder_new();
    let mut i: usize = 0;
    while i < entries.len()
        invariant
            i <= entries@.len(),
            forall|k: int| 0 <= k < entries@.len() ==> #[trigger] spec_entry_wf(entries@[k]@),
            forall|k: int| 0 <= k < i ==> #[trigger] spec_rooted_fits(entries@[k]@, root_name@),
            tar_recorded(b) == spec_rooted_entries(
                spec_entry_views(entries@),
                root_name@,
                i as int,
            ),
        decreases entries@.len() - i,
    {
        let e = &entries[i];
        let path: String = if e.path.as_str().is_empty() {
            root_name.to_owned()
        } else {
            let mut p = root_name.to_owned();
            p.append("/");
            p.append(e.path.as_str());
            p
        };
        let path_str = path.as_str();
        proof {
            assert(spec_entry_views(entries@)[i as int] == entries@[i as int]@);
            assert(path_str@ == spec_rooted(entries@[i as int]@, root_name@).path);
        }
        if path_str.as_bytes().len() > 100 {
            proof {
                assert(!spec_rooted_fits(entries@[i as int]@, root_name@));
            }
            return Err(Error::new(ErrorKind::IoError, "entry path exceeds the tar name field"));
        }
        append_entry(&mut b, path_str, e);
        proof {
            assert(spec_entry_wf(entries@[i as int]@));
            assert(tar_recorded(b) =~~= spec_rooted_entries(
                spec_entry_views(entries@),
                root_name@,
                i + 1int,
            ));
        }
        i += 1;
    }
    Ok(tar_into_bytes(b))
}

/// Encodes a tree as a tar archive whose entries are relative to `.`, the
/// layout the members of a Debian package use; the tree's root itself is
/// skipped. Encoding succeeds exactly when every `./`-prefixed path fits
/// the header's 100-byte name field.
pub fn create_tar_without_rootdir(entries: &Vec<TarEntry>) -> (r: Result<Vec<u8>, Error>)
    requires
        forall|k: int| 0 <= k < entries@.len() ==> #[trigger] spec_entry_wf(entries@[k]@),
    ensures
        r is Ok <==> (forall|k: int|
            0 <= k < entries@.len() ==> #[trigger] spec_dotted_fits(entries@[k]@)),
        r matches Ok(bytes) ==> bytes@ == tar_bytes(
            spec_dotted_entries(spec_entry_views(entries@), entries@.len() as int),
        ),
        r matches Err(e) ==> e.spec_kind() == ErrorKind::IoError,
{
    let mut b = tar_builder_new();
    let mut i: usize = 0;
    while i < entries.len()
        invariant
            i <= entries@.len(),
            forall|k: int| 0 <= k < entries@.len() ==> #[trigger] spec_entry_wf(entries@[k]@),
            forall|k: int| 0 <= k < i ==> #[trigger] spec_dotted_fits(entries@[k]@),
            tar_recorded(b) == spec_dotted_entries(spec_entry_views(entries@), i as int),
        decreases entries@.len() - i,
    {
        let e = &entries[i];
        if !e.path.as_str().is_empty() {
            let mut p = "./".to_owned();
            p.append(e.path.as_str());
            let p_str = p.as_str();
            proof {
                assert(spec_entry_views(entries@)[i as int] == entries@[i as int]@);
                assert(p_str@ == "./"@ + entries@[i as int]@.path);
            }
            if p_str.as_bytes().len() > 100 {
                proof {
                    assert(!spec_dotted_fits(entries@[i as int]@));
                }
                return Err(Error::new(ErrorKind::IoError, "entry path exceeds the tar name field"));
            }
            append_entry(&mut b, p_str, e);
            proof {
                assert(spec_entry_wf(entries@[i as int]@));
                assert(tar_recorded(b) =~~= spec_dotted_entries(
                    spec_entry_views(entries@),
                    i + 1int,
                ));
            }
        } else {
            proof {
                assert(spec_entry_views(entries@)[i as int] == entries@[i as int]@);
            }
        }
        i += 1;
    }
    Ok(tar_into_bytes(b))
}

/// One member of an ar archive: its identifier and its bytes.
#[derive(Debug, Clone)]
pub struct ArMember {
    pub name: String,
    pub data: Vec<u8>,
}

/// Spec-level image of an `ArMember`.
#[verifier::ext_equal]
pub struct ArMemberV {
    pub name: Seq<char>,
    pub data: Seq<u8>,
}

impl View for ArMember {
    type V = ArMemberV;

    open spec fn view(&self) -> ArMemberV {
        ArMemberV { name: self.name@, data: self.data@ }
    }
}

/// The members appended to an ar builder so far, in order.
pub uninterp spec fn ar_recorded(b: ArBuilder) -> Seq<ArMemberV>;

/// The bytes of the finished ar archive holding exactly these members in
/// this order, each under a header whose mtime, uid, gid and mode fields
/// are zero.
pub uninterp spec fn ar_bytes(members: Seq<ArMemberV>) -> Seq<u8>;

/// Relies on ar::Builder::new: a fresh builder over an in-memory buffer,
/// with nothing appended yet.
#[verifier::external_body]
fn ar_builder_new() -> (b: ArBuilder)
    ensures
        ar_recorded(b) == Seq::<ArMemberV>::empty(),
{
    ArBuilder { inner: ar::Builder::new(Vec::new()) }
}

/// Relies on ar::Builder::append with ar::Header::new, which sets the
/// member's size to the data's length and every other numeric field to
/// zero. The declared size always matches the data handed over, and the
/// builder writes to a memory buffer, so the append cannot fail.
#[verifier::external_body]
fn ar_append(b: &mut ArBuilder, name: &str, data: &Vec<u8>)
    ensures
        ar_recorded(*final(b)) == ar_recorded(*old(b)).push(
            (ArMemberV { name: name@, data: data@ }),
        ),
{
    let h = ar::Header::new(name.as_bytes().to_vec(), data.len() as u64);
    b.inner.append(&h, data.as_slice()).expect("writing to a memory buffer cannot fail");
}

/// Relies on ar::Builder::into_inner, which hands back the buffer and
/// cannot fail; the bytes are a function of the appended members alone.
#[verifier::external_body]
fn ar_into_bytes(b: ArBuilder) -> (bytes: Vec<u8>)
    ensures
        bytes@ == ar_bytes(ar_recorded(b)),
{
    b.inner.into_inner().expect("unwrapping a memory buffer cannot fail")
}

/// The views of a list of members.
pub open spec fn spec_member_views(ms: Seq<ArMember>) -> Seq<ArMemberV> {
    ms.map_values(|m: ArMember| m@)
}

/// Concatenates the given members, in the given order, into one ar
/// archive; this always succeeds, since the archive is assembled in
/// memory. It is how the three Debian package members are combined into
/// the final artifact.
pub fn create_ar_files(members: &Vec<ArMember>) -> (r: Result<Vec<u8>, Error>)
    ensures
        r matches Ok(bytes) && bytes@ == ar_bytes(spec_member_views(members@)),
{
    let mut b = ar_builder_new();
    let mut i: usize = 0;
    proof {
        assert(spec_member_views(members@.take(0)) =~= Seq::<ArMemberV>::empty());
    }
    while i < members.len()
        invariant
            i <= members@.len(),
            ar_recorded(b) == spec_member_views(members@.take(i as int)),
        decreases members@.len() - i,
    {
        let m = &members[i];
        ar_append(&mut b, m.name.as_str(), &m.data);
        proof {
            assert(spec_member_views(members@.take(i + 1int)) =~= spec_member_views(
                members@.take(i as int),
            ).push(members@[i as int]@));
        }
        i += 1;
    }
    proof {
        assert(members@.take(members@.len() as int) =~= members@);
    }
    Ok(ar_into_bytes(b))
}

} // verus!
