//! The Debian package assembly pipeline: from a staged data tree to the
//! final `.deb` artifact. The pipeline is linear; every stage's failure is
//! fatal. Its result is a pure function of the metadata, the package
//! record, the architecture, the staged tree and the control member
//! timestamp, except for the xz frames, whose layout depends on the worker
//! count of the machine; what is pinned down about them is that they
//! decode back to the tar members exactly.

use vstd::prelude::*;

use crate::archive::{
    create_ar_files, create_tar_without_rootdir, ar_bytes, spec_dotted_entries, spec_dotted_fits,
    spec_entry_views, tar_bytes, ArMember, ArMemberV, TarEntry, TarEntryV,
};
use crate::compress::{create_xz2, xz_decode};
use crate::config::{DebConfig, LinuxConfig};
use crate::control::{
    arch_name, generate_control, generate_deb_binary, generate_md5sum, spec_arch_name,
    spec_control, spec_md5_lines,
};
use crate::error::{Error, ErrorKind};
use crate::fileset::FileSet;
use crate::platform::{Arch, Metadata};
use crate::utils::{get_folder_size, spec_tree_size};

verus! {

broadcast use vstd::string::group_string_axioms;

/// Picks the file manifest for the Debian format: the format-specific
/// override wins over the shared Linux-level list; the absence of both is
/// a fatal configuration error.
pub fn resolve_deb_files<'a>(deb: &'a DebConfig, linux: &'a LinuxConfig) -> (r: Result<
    &'a Vec<FileSet>,
    Error,
>)
    ensures
        match r {
            Ok(files) => {
                &&& deb.files is Some ==> files@ == deb.files->Some_0@
                &&& deb.files is None ==> linux.files is Some && files@ == linux.files->Some_0@
            },
            Err(e) => {
                &&& deb.files is None
                &&& linux.files is None
                &&& e.spec_kind() == ErrorKind::FilesNotSet
            },
        },
{
    if let Some(files) = deb.files.as_ref() {
        Ok(files)
    } else if let Some(files) = linux.files.as_ref() {
        Ok(files)
    } else {
        Err(Error::new(ErrorKind::FilesNotSet, "`files` property not set for deb format"))
    }
}

/// Everything the pipeline produced for one architecture: the final
/// artifact, its name, and each intermediate member for inspection.
#[derive(Debug, Clone)]
pub struct DebArtifact {
    /// `<name>_<version>_<arch>.deb`, to be written under the workdir.
    pub file_name: String,
    /// The rendered control record.
    pub control_text: String,
    /// The rendered MD5 digest list.
    pub md5sums: String,
    /// The `debian-binary` member: the protocol version line.
    pub debian_binary: Vec<u8>,
    /// The data tree, tar-encoded without a root directory.
    pub data_tar: Vec<u8>,
    /// The control tree, tar-encoded without a root directory.
    pub control_tar: Vec<u8>,
    /// `data_tar`, xz-compressed.
    pub data_tar_xz: Vec<u8>,
    /// `control_tar`, xz-compressed.
    pub control_tar_xz: Vec<u8>,
    /// The final ar archive of the three members.
    pub deb: Vec<u8>,
}

/// The two entries of the control tree: the control record and the digest
/// list, both regular files with mode 644 and the given timestamp.
pub open spec fn spec_control_tree(
    control: Seq<char>,
    md5sums: Seq<char>,
    mtime: u64,
) -> Seq<TarEntryV> {
    seq![
        (TarEntryV {
            path: "control"@,
            mode: 0o644,
            mtime,
            is_dir: false,
            data: vstd::utf8::encode_utf8(control),
        }),
        (TarEntryV {
            path: "md5sum"@,
            mode: 0o644,
            mtime,
            is_dir: false,
            data: vstd::utf8::encode_utf8(md5sums),
        }),
    ]
}

/// Every entry of a staged tree fits the tar header's name field once
/// `./`-prefixed.
pub open spec fn spec_tree_fits(views: Seq<TarEntryV>) -> bool {
    forall|k: int| 0 <= k < views.len() ==> #[trigger] spec_dotted_fits(views[k])
}

/// The name of the final artifact: `<name>_<version>_<arch>.deb`.
pub open spec fn spec_deb_file_name(meta: Metadata, arch: Arch) -> Seq<char> {
    meta.name@ + "_"@ + meta.version@ + "_"@ + spec_arch_name(arch) + ".deb"@
}

/// The three ar members of a Debian package, in their fixed order.
pub open spec fn spec_deb_members(
    control_tar_xz: Seq<u8>,
    data_tar_xz: Seq<u8>,
) -> Seq<ArMemberV> {
    seq![
        (ArMemberV { name: "debian-binary"@, data: vstd::utf8::encode_utf8("2.0\n"@) }),
        (ArMemberV { name: "control.tar.xz"@, data: control_tar_xz }),
        (ArMemberV { name: "data.tar.xz"@, data: data_tar_xz }),
    ]
}

/// Runs the package assembly pipeline for one architecture over a staged
/// data tree (as the tree walk reports it: relative paths, permission
/// bits, timestamps, contents, in walk order). `control_mtime` stamps the
/// two control member files. The pipeline fails exactly when a staged path
/// does not fit the tar name field (an I/O error) or the xz encoder
/// refuses (a compression error); everything else is assembled in memory
/// and cannot fail.
pub fn build_deb(
    meta: &Metadata,
    deb_conf: &DebConfig,
    arch: Arch,
    data_tree: &Vec<TarEntry>,
    control_mtime: u64,
) -> (r: Result<DebArtifact, Error>)
    requires
        forall|k: int|
            0 <= k < data_tree@.len() ==> #[trigger] crate::archive::spec_entry_wf(
                data_tree@[k]@,
            ),
        spec_tree_size(
            data_tree@.map_values(|e: TarEntry| e@),
            data_tree@.len() as int,
        ) <= u64::MAX,
    ensures
        !spec_tree_fits(spec_entry_views(data_tree@)) ==> r is Err,
        ({
            let views = spec_entry_views(data_tree@);
            let size = spec_tree_size(views, views.len() as int) as u64;
            match r {
                Ok(a) => {
                    &&& spec_tree_fits(views)
                    &&& a.file_name@ == spec_deb_file_name(*meta, arch)
                    &&& a.control_text@ == spec_control(
                        *meta,
                        *deb_conf,
                        spec_arch_name(arch),
                        size,
                    )
                    &&& a.md5sums@ == spec_md5_lines(views, views.len() as int)
                    &&& a.debian_binary@ == vstd::utf8::encode_utf8("2.0\n"@)
                    &&& a.data_tar@ == tar_bytes(
                        spec_dotted_entries(views, views.len() as int),
                    )
                    &&& a.control_tar@ == tar_bytes(
                        spec_dotted_entries(
                            spec_control_tree(a.control_text@, a.md5sums@, control_mtime),
                            2,
                        ),
                    )
                    &&& xz_decode(a.data_tar_xz@) == Some(a.data_tar@)
                    &&& xz_decode(a.control_tar_xz@) == Some(a.control_tar@)
                    &&& a.deb@ == ar_bytes(
                        spec_deb_members(a.control_tar_xz@, a.data_tar_xz@),
                    )
                },
                Err(e) => {
                    &&& !spec_tree_fits(views) ==> e.spec_kind() == ErrorKind::IoError
                    &&& spec_tree_fits(views) ==> e.spec_kind() == ErrorKind::Lz2EncodeError
                },
            }
        }),
{
    // Data archive: tar-encode the staged tree, then compress it.
    let data_tar = match create_tar_without_rootdir(data_tree) {
        Ok(bytes) => {
            proof {
                assert forall|k: int|
                    0 <= k < spec_entry_views(data_tree@).len() implies #[trigger] spec_dotted_fits(
                    spec_entry_views(data_tree@)[k],
                ) by {
                    assert(spec_entry_views(data_tree@)[k] == data_tree@[k]@);
                }
            }
            bytes
        },
        Err(e) => {
            proof {
                let k = choose|k: int|
                    0 <= k < data_tree@.len() && !spec_dotted_fits(data_tree@[k]@);
                assert(spec_entry_views(data_tree@)[k] == data_tree@[k]@);
                assert(!spec_tree_fits(spec_entry_views(data_tree@)));
            }
            return Err(e);
        },
    };
    let data_tar_xz = match create_xz2(&data_tar) {
        Ok(bytes) => bytes,
        Err(e) => return Err(e),
    };
    // Checksums over the staged tree.
    let md5sums = generate_md5sum(data_tree);
    // The control record, with the installed size computed from the tree.
    let size = get_folder_size(data_tree);
    let control_text = generate_control(meta, deb_conf, arch, size);
    // Control archive: the two rendered files, tar-encoded and compressed.
    let mut control_tree: Vec<TarEntry> = Vec::new();
    control_tree.push(
        TarEntry {
            path: "control".to_owned(),
            mode: 0o644,
            mtime: control_mtime,
            is_dir: false,
            data: control_text.as_str().as_bytes_vec(),
        },
    );
    control_tree.push(
        TarEntry {
            path: "md5sum".to_owned(),
            mode: 0o644,
            mtime: control_mtime,
            is_dir: false,
            data: md5sums.as_str().as_bytes_vec(),
        },
    );
    proof {
        assert(spec_entry_views(control_tree@) =~= spec_control_tree(
            control_text@,
            md5sums@,
            control_mtime,
        ));
        assert forall|k: int| 0 <= k < control_tree@.len() implies #[trigger] crate::archive::spec_entry_wf(
            control_tree@[k]@,
        ) by {}
        // Both control member paths are short ASCII names, so they fit
        // the tar name field and the control archive always encodes.
        reveal_strlit("./");
        reveal_strlit("control");
        reveal_strlit("md5sum");
        lemma_short_ascii_fits("./"@ + "control"@);
        lemma_short_ascii_fits("./"@ + "md5sum"@);
        assert forall|k: int| 0 <= k < control_tree@.len() implies #[trigger] spec_dotted_fits(
            control_tree@[k]@,
        ) by {
            if k == 0 {
                assert(control_tree@[k]@.path == "control"@);
            } else {
                assert(control_tree@[k]@.path == "md5sum"@);
            }
        }
    }
    let control_tar = create_tar_without_rootdir(&control_tree).unwrap();
    let control_tar_xz = match create_xz2(&control_tar) {
        Ok(bytes) => bytes,
        Err(e) => return Err(e),
    };
    // The debian-binary marker.
    let debian_binary = generate_deb_binary().as_bytes_vec();
    // Final assembly: the three members, in their fixed order.
    let mut members: Vec<ArMember> = Vec::new();
    members.push(ArMember { name: "debian-binary".to_owned(), data: debian_binary.clone() });
    members.push(ArMember { name: "control.tar.xz".to_owned(), data: control_tar_xz.clone() });
    members.push(ArMember { name: "data.tar.xz".to_owned(), data: data_tar_xz.clone() });
    proof {
        assert(crate::archive::spec_member_views(members@) =~~= spec_deb_members(
            control_tar_xz@,
            data_tar_xz@,
        ));
    }
    let deb = create_ar_files(&members).unwrap();
    // The artifact's file name.
    let mut file_name = meta.name.clone();
    file_name.append("_");
    file_name.append(meta.version.as_str());
    file_name.append("_");
    file_name.append(arch_name(arch));
    file_name.append(".deb");
    proof {
        assert(file_name@ =~= spec_deb_file_name(*meta, arch));
    }
    Ok(
        DebArtifact {
            file_name,
            control_text,
            md5sums,
            debian_binary,
            data_tar,
            control_tar,
            data_tar_xz,
            control_tar_xz,
            deb,
        },
    )
}

/// A short, all-ASCII path encodes to one byte per character and fits the
/// tar name field.
proof fn lemma_short_ascii_fits(path: Seq<char>)
    requires
        path.len() <= 100,
        forall|i: int| 0 <= i < path.len() ==> '\0' <= #[trigger] path[i] <= '\u{7f}',
    ensures
        vstd::utf8::encode_utf8(path).len() <= 100,
{
    vstd::utf8::is_ascii_chars_encode_utf8(path);
}

} // verus!
