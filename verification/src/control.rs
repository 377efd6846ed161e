//! The Debian control member: the control record itself (a line-oriented
//! `Field: value` text with a fixed field order and conditionally present
//! fields), the MD5 digest list over the staged data tree, and the
//! `debian-binary` protocol marker.

use vstd::prelude::*;

use crate::archive::{TarEntry, TarEntryV};
use crate::config::DebConfig;
use crate::hash::{md5_hex, md5_of};
use crate::platform::{Arch, Metadata};
use crate::text::{
    count_char, lemma_count_char_concat, lemma_count_char_zero, lemma_spec_hex_no_newline,
    spec_dec, spec_hex, u64_to_string,
};

verus! {

broadcast use vstd::string::group_string_axioms;

/// The Debian name of an architecture, as the control record and the
/// artifact file name spell it; distinct from the generic display name.
pub fn arch_name(arch: Arch) -> (r: &'static str)
    ensures
        r@ == spec_arch_name(arch),
{
    match arch {
        Arch::X86 => "i386",
        Arch::X86_64 => "amd64",
        Arch::AArch64 => "arm64",
        Arch::Mips64 => "mips64el",
    }
}

pub open spec fn spec_arch_name(arch: Arch) -> Seq<char> {
    match arch {
        Arch::X86 => "i386"@,
        Arch::X86_64 => "amd64"@,
        Arch::AArch64 => "arm64"@,
        Arch::Mips64 => "mips64el"@,
    }
}

/// One `Label: value` line (the label carries the trailing `: `).
pub open spec fn spec_line(label: Seq<char>, value: Seq<char>) -> Seq<char> {
    label + value + "\n"@
}

/// One optional line: present exactly when the field is configured.
pub open spec fn spec_opt_line(label: Seq<char>, value: Option<String>) -> Seq<char> {
    match value {
        Some(v) => spec_line(label, v@),
        None => Seq::empty(),
    }
}

/// The whole control record: one line per present field, in the fixed
/// field order, with the optional fields emitted only when configured.
pub open spec fn spec_control(
    meta: Metadata,
    deb: DebConfig,
    arch_label: Seq<char>,
    size: u64,
) -> Seq<char> {
    spec_line("Package: "@, meta.name@) + spec_line("Version: "@, meta.version@) + spec_line(
        "Architecture: "@,
        arch_label,
    ) + spec_opt_line("Section: "@, deb.section) + spec_line("Priority: "@, deb.priority@) + spec_line(
        "Standards-Version: "@,
        "3.9.4"@,
    ) + spec_line("Maintainer: "@, meta.author@) + spec_line(
        "Installed-Size: "@,
        spec_dec(size as nat),
    ) + spec_opt_line("Depends: "@, deb.depends) + spec_opt_line("Conflicts: "@, deb.conflicts)
        + spec_opt_line("Breaks: "@, deb.breaks) + spec_opt_line("Replaces: "@, deb.replaces)
        + spec_opt_line("Provides: "@, deb.provides) + spec_line("Homepage: "@, meta.homepage@)
        + spec_line("Description: "@, meta.description@)
}

fn push_line(out: &mut String, label: &str, value: &str)
    ensures
        final(out)@ == old(out)@ + spec_line(label@, value@),
{
    out.append(label);
    out.append(value);
    out.append("\n");
}

fn push_opt_line(out: &mut String, label: &str, value: &Option<String>)
    ensures
        final(out)@ == old(out)@ + spec_opt_line(label@, *value),
{
    match value {
        Some(v) => push_line(out, label, v.as_str()),
        None => (),
    }
}

/// Renders the control record for one architecture. `size` is the
/// installed size, computed over the staged data tree, not configured.
pub fn generate_control(meta: &Metadata, deb: &DebConfig, arch: Arch, size: u64) -> (s: String)
    ensures
        s@ == spec_control(*meta, *deb, spec_arch_name(arch), size),
{
    let mut out = String::new();
    push_line(&mut out, "Package: ", meta.name.as_str());
    push_line(&mut out, "Version: ", meta.version.as_str());
    push_line(&mut out, "Architecture: ", arch_name(arch));
    push_opt_line(&mut out, "Section: ", &deb.section);
    push_line(&mut out, "Priority: ", deb.priority.as_str());
    push_line(&mut out, "Standards-Version: ", "3.9.4");
    push_line(&mut out, "Maintainer: ", meta.author.as_str());
    let size_str = u64_to_string(size);
    push_line(&mut out, "Installed-Size: ", size_str.as_str());
    push_opt_line(&mut out, "Depends: ", &deb.depends);
    push_opt_line(&mut out, "Conflicts: ", &deb.conflicts);
    push_opt_line(&mut out, "Breaks: ", &deb.breaks);
    push_opt_line(&mut out, "Replaces: ", &deb.replaces);
    push_opt_line(&mut out, "Provides: ", &deb.provides);
    push_line(&mut out, "Homepage: ", meta.homepage.as_str());
    push_line(&mut out, "Description: ", meta.description.as_str());
    proof {
        assert(out@ =~= spec_control(*meta, *deb, spec_arch_name(arch), size));
    }
    out
}

/// When no optional field is configured, the record is exactly the
/// mandatory lines — Package, Version, Architecture, Priority, the fixed
/// protocol-version line, Maintainer, Installed-Size, Homepage and
/// Description — so no `Depends:`, `Conflicts:`, `Breaks:`, `Replaces:`,
/// `Provides:` or `Section:` line is ever emitted for an absent field.
pub proof fn lemma_control_without_optionals(
    meta: Metadata,
    deb: DebConfig,
    arch_label: Seq<char>,
    size: u64,
)
    requires
        deb.section is None,
        deb.depends is None,
        deb.conflicts is None,
        deb.breaks is None,
        deb.replaces is None,
        deb.provides is None,
    ensures
        spec_control(meta, deb, arch_label, size) == spec_line("Package: "@, meta.name@)
            + spec_line("Version: "@, meta.version@) + spec_line("Architecture: "@, arch_label)
            + spec_line("Priority: "@, deb.priority@) + spec_line(
            "Standards-Version: "@,
            "3.9.4"@,
        ) + spec_line("Maintainer: "@, meta.author@) + spec_line(
            "Installed-Size: "@,
            spec_dec(size as nat),
        ) + spec_line("Homepage: "@, meta.homepage@) + spec_line(
            "Description: "@,
            meta.description@,
        ),
{
    assert(spec_control(meta, deb, arch_label, size) =~= spec_line("Package: "@, meta.name@)
        + spec_line("Version: "@, meta.version@) + spec_line("Architecture: "@, arch_label)
        + spec_line("Priority: "@, deb.priority@) + spec_line("Standards-Version: "@, "3.9.4"@)
        + spec_line("Maintainer: "@, meta.author@) + spec_line(
        "Installed-Size: "@,
        spec_dec(size as nat),
    ) + spec_line("Homepage: "@, meta.homepage@) + spec_line("Description: "@, meta.description@));
}

/// The digest list over the first `n` entries of the staged tree: one
/// `<hex digest>  <relative path>` line per regular file, newline
/// terminated, in tree-walk order; directories contribute nothing.
pub open spec fn spec_md5_lines(es: Seq<TarEntryV>, n: int) -> Seq<char>
    decreases n,
{
    if n <= 0 {
        Seq::empty()
    } else if es[n - 1].is_dir {
        spec_md5_lines(es, n - 1)
    } else {
        spec_md5_lines(es, n - 1) + spec_hex(md5_of(es[n - 1].data)) + "  "@ + es[n - 1].path
            + "\n"@
    }
}

/// How many of the first `n` entries are regular files.
pub open spec fn spec_file_count(es: Seq<TarEntryV>, n: int) -> nat
    decreases n,
{
    if n <= 0 {
        0
    } else {
        spec_file_count(es, n - 1) + if es[n - 1].is_dir {
            0nat
        } else {
            1nat
        }
    }
}

/// Renders the MD5 digest list for a staged tree.
pub fn generate_md5sum(entries: &Vec<TarEntry>) -> (s: String)
    ensures
        s@ == spec_md5_lines(
            entries@.map_values(|e: TarEntry| e@),
            entries@.len() as int,
        ),
{
    let ghost views = entries@.map_values(|e: TarEntry| e@);
    let mut out = String::new();
    let mut i: usize = 0;
    while i < entries.len()
        invariant
            i <= entries@.len(),
            views == entries@.map_values(|e: TarEntry| e@),
            out@ == spec_md5_lines(views, i as int),
        decreases entries@.len() - i,
    {
        let e = &entries[i];
        if !e.is_dir {
            let digest = md5_hex(&e.data);
            out.append(digest.as_str());
            out.append("  ");
            out.append(e.path.as_str());
            out.append("\n");
        }
        proof {
            assert(views[i as int] == entries@[i as int]@);
            assert(out@ =~= spec_md5_lines(views, i + 1int));
        }
        i += 1;
    }
    out
}

/// For a staged tree of N files the digest list has exactly N lines: one
/// newline per regular file, none hidden inside a digest or a path.
pub proof fn lemma_md5sum_line_count(es: Seq<TarEntryV>, n: int)
    requires
        0 <= n <= es.len(),
        forall|k: int, j: int|
            0 <= k < n && 0 <= j < es[k].path.len() ==> #[trigger] es[k].path[j] != '\n',
    ensures
        count_char(spec_md5_lines(es, n), '\n') == spec_file_count(es, n),
    decreases n,
{
    if n > 0 {
        lemma_md5sum_line_count(es, n - 1);
        if !es[n - 1].is_dir {
            let prefix = spec_md5_lines(es, n - 1);
            let digest = spec_hex(md5_of(es[n - 1].data));
            let path = es[n - 1].path;
            lemma_spec_hex_no_newline(md5_of(es[n - 1].data));
            lemma_count_char_zero(path, '\n');
            reveal_strlit("  ");
            reveal_strlit("\n");
            assert("  "@.len() == 2 && "  "@[0] == ' ' && "  "@[1] == ' ');
            assert("\n"@.len() == 1);
            assert("\n"@[0] == '\n');
            lemma_count_char_zero("  "@, '\n');
            assert(count_char("\n"@, '\n') == 1) by {
                assert(count_char(Seq::<char>::empty(), '\n') == 0);
                assert("\n"@.drop_last() =~= Seq::<char>::empty());
                assert(count_char("\n"@.drop_last(), '\n') == 0);
                assert("\n"@.last() == '\n');
            }
            lemma_count_char_concat(prefix, digest, '\n');
            lemma_count_char_concat(prefix + digest, "  "@, '\n');
            lemma_count_char_concat(prefix + digest + "  "@, path, '\n');
            lemma_count_char_concat(prefix + digest + "  "@ + path, "\n"@, '\n');
        }
    }
}

/// The content of the `debian-binary` member: the fixed two-character
/// protocol version line.
pub fn generate_deb_binary() -> (r: &'static str)
    ensures
        r@ == "2.0\n"@,
{
    "2.0\n"
}

} // verus!
