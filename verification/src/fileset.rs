//! The file-manifest resolver. A manifest entry names a source glob and a
//! destination; resolving it means enumerating the glob's matches and
//! copying each one under the staging root. The enumeration and the copies
//! are filesystem work done by the caller; this module holds the verified
//! planning logic: which copies a manifest demands, in which order, and
//! when resolution must fail instead — with the failure's kind and its
//! context message (the pattern that matched nothing, or the entry of an
//! unsupported type) both pinned down.

use vstd::prelude::*;

use crate::error::{Error, ErrorKind};
use crate::platform::GlobPatterns;

verus! {

/// One manifest entry: copy whatever `from` matches (relative to a source
/// root) to `to` (relative to a destination root).
#[derive(Debug, Clone)]
pub struct FileSet {
    pub from: String,
    pub to: String,
    pub filter: Option<GlobPatterns>,
    pub mode: Option<i32>,
}

/// What kind of filesystem object a glob match refers to.
#[derive(Debug, Clone, Copy, PartialEq, Eq, Structural)]
pub enum MatchKind {
    File,
    Dir,
    /// Anything else (device node, broken link): resolution rejects it.
    Other,
}

/// One glob match, as the filesystem enumerator reports it.
#[derive(Debug, Clone)]
pub struct GlobMatch {
    pub path: String,
    pub kind: MatchKind,
}

/// One copy the caller must perform: `src` to `dest`, either a plain file
/// copy or a recursive directory copy.
#[derive(Debug, Clone)]
pub struct CopyAction {
    pub src: String,
    pub dest: String,
    pub is_dir: bool,
}

/// Spec-level image of a `CopyAction`.
pub struct CopyActionV {
    pub src: Seq<char>,
    pub dest: Seq<char>,
    pub is_dir: bool,
}

impl View for CopyAction {
    type V = CopyActionV;

    open spec fn view(&self) -> CopyActionV {
        CopyActionV { src: self.src@, dest: self.dest@, is_dir: self.is_dir }
    }
}

/// A planning failure: its kind and its context message.
pub type PlanError = (ErrorKind, Seq<char>);

/// The message of the no-match error: it names the pattern that matched
/// nothing.
pub open spec fn spec_no_match_msg(src: Seq<char>, from: Seq<char>) -> Seq<char> {
    "no file is matched with pattern "@ + src + "/"@ + from
}

/// The message of the unsupported-type error: it names the entry.
pub open spec fn spec_unsupported_msg(path: Seq<char>) -> Seq<char> {
    "unsupported file type: "@ + path
}

/// The index of the first match that is neither file nor directory, at or
/// after `i`; the length when every match is supported.
pub open spec fn spec_first_other(entries: Seq<GlobMatch>, i: int) -> int
    decreases entries.len() - i,
{
    if i < 0 || i >= entries.len() {
        entries.len() as int
    } else if entries[i].kind == MatchKind::Other {
        i
    } else {
        spec_first_other(entries, i + 1)
    }
}

/// The destination path of a manifest entry: `dest/to`.
pub open spec fn spec_dest_path(to: Seq<char>, dest: Seq<char>) -> Seq<char> {
    dest + "/"@ + to
}

/// The copy one glob match demands.
pub open spec fn spec_action_of(m: GlobMatch, to: Seq<char>, dest: Seq<char>) -> CopyActionV {
    CopyActionV {
        src: m.path@,
        dest: spec_dest_path(to, dest),
        is_dir: m.kind == MatchKind::Dir,
    }
}

/// The plan for one manifest entry, or the failure resolution reports: a
/// glob that matched nothing is a configuration error naming the pattern,
/// never a silent no-op, and the first match that is neither file nor
/// directory is an I/O error naming the entry.
pub open spec fn spec_set_plan(
    fs: FileSet,
    entries: Seq<GlobMatch>,
    src: Seq<char>,
    dest: Seq<char>,
) -> Result<Seq<CopyActionV>, PlanError> {
    if entries.len() == 0 {
        Err((ErrorKind::GlobError, spec_no_match_msg(src, fs.from@)))
    } else if exists|k: int| 0 <= k < entries.len() && entries[k].kind == MatchKind::Other {
        Err(
            (
                ErrorKind::IoError,
                spec_unsupported_msg(entries[spec_first_other(entries, 0)].path@),
            ),
        )
    } else {
        Ok(entries.map_values(|m: GlobMatch| spec_action_of(m, fs.to@, dest)))
    }
}

/// When no match before `i` is unsupported and the one at `i` is, `i` is
/// the first.
proof fn lemma_first_other_is(entries: Seq<GlobMatch>, j: int, i: int)
    requires
        0 <= j <= i < entries.len(),
        forall|k: int| j <= k < i ==> entries[k].kind != MatchKind::Other,
        entries[i].kind == MatchKind::Other,
    ensures
        spec_first_other(entries, j) == i,
    decreases i - j,
{
    if j < i {
        lemma_first_other_is(entries, j + 1, i);
    }
}

impl FileSet {
    /// The absolute glob pattern for this entry: `src/from`.
    pub fn glob_pattern(&self, src: &str) -> (p: String)
        ensures
            p@ == src@ + "/"@ + self.from@,
    {
        let mut p = src.to_owned();
        p.append("/");
        p.append(self.from.as_str());
        p
    }

    /// Plans the copies for this entry given the matches of its glob.
    /// Fails exactly when the glob matched nothing, or when a match is
    /// neither a regular file nor a directory; the error carries the
    /// pattern or the entry it is about.
    pub fn copy_to(&self, src: &str, dest: &str, entries: &Vec<GlobMatch>) -> (r: Result<
        Vec<CopyAction>,
        Error,
    >)
        ensures
            match r {
                Ok(plan) => spec_set_plan(*self, entries@, src@, dest@) == Ok::<
                    Seq<CopyActionV>,
                    PlanError,
                >(plan@.map_values(|a: CopyAction| a@)),
                Err(e) => spec_set_plan(*self, entries@, src@, dest@) == Err::<
                    Seq<CopyActionV>,
                    PlanError,
                >((e.spec_kind(), e.spec_message())),
            },
    {
        if entries.len() == 0 {
            let mut msg = "no file is matched with pattern ".to_owned();
            msg.append(src);
            msg.append("/");
            msg.append(self.from.as_str());
            return Err(Error::from_string(ErrorKind::GlobError, msg));
        }
        let mut dest_path = dest.to_owned();
        dest_path.append("/");
        dest_path.append(self.to.as_str());
        let mut plan: Vec<CopyAction> = Vec::new();
        let mut i: usize = 0;
        while i < entries.len()
            invariant
                i <= entries@.len(),
                dest_path@ == spec_dest_path(self.to@, dest@),
                forall|k: int| 0 <= k < i ==> entries@[k].kind != MatchKind::Other,
                plan@.map_values(|a: CopyAction| a@) =~= entries@.take(i as int).map_values(
                    |m: GlobMatch| spec_action_of(m, self.to@, dest@),
                ),
            decreases entries@.len() - i,
        {
            let m = &entries[i];
            let is_dir = match m.kind {
                MatchKind::File => false,
                MatchKind::Dir => true,
                MatchKind::Other => {
                    proof {
                        lemma_first_other_is(entries@, 0, i as int);
                    }
                    let mut msg = "unsupported file type: ".to_owned();
                    msg.append(m.path.as_str());
                    return Err(Error::from_string(ErrorKind::IoError, msg));
                },
            };
            let act = CopyAction { src: m.path.clone(), dest: dest_path.clone(), is_dir };
            let ghost old_plan = plan@;
            plan.push(act);
            proof {
                let f = |m: GlobMatch| spec_action_of(m, self.to@, dest@);
                assert(plan@.map_values(|a: CopyAction| a@) =~= old_plan.map_values(
                    |a: CopyAction| a@,
                ).push(spec_action_of(entries@[i as int], self.to@, dest@)));
                assert(entries@.take(i + 1int).map_values(f) =~= entries@.take(i as int).map_values(
                    f,
                ).push(f(entries@[i as int])));
            }
            i += 1;
        }
        proof {
            assert(entries@.take(entries@.len() as int) =~= entries@);
        }
        Ok(plan)
    }
}

/// The plan for the first `n` manifest entries of `jobs`, each paired with
/// its glob matches; the first entry that fails decides the error.
pub open spec fn spec_plan_upto(
    jobs: Seq<(FileSet, Vec<GlobMatch>)>,
    src: Seq<char>,
    dest: Seq<char>,
    n: int,
) -> Result<Seq<CopyActionV>, PlanError>
    decreases n,
{
    if n <= 0 {
        Ok(Seq::empty())
    } else {
        match spec_plan_upto(jobs, src, dest, n - 1) {
            Err(e) => Err(e),
            Ok(acc) => match spec_set_plan(jobs[n - 1].0, jobs[n - 1].1@, src, dest) {
                Err(e) => Err(e),
                Ok(p) => Ok(acc + p),
            },
        }
    }
}

/// The plan for a whole manifest.
pub open spec fn spec_copy_filesets(
    jobs: Seq<(FileSet, Vec<GlobMatch>)>,
    src: Seq<char>,
    dest: Seq<char>,
) -> Result<Seq<CopyActionV>, PlanError> {
    spec_plan_upto(jobs, src, dest, jobs.len() as int)
}

/// Plans the copies for a whole manifest, in manifest order; later entries
/// stand after earlier ones, so their copies may overwrite earlier outputs.
/// Fails with the first entry's error if any entry fails.
pub fn copy_filesets(jobs: &Vec<(FileSet, Vec<GlobMatch>)>, src: &str, dest: &str) -> (r: Result<
    Vec<CopyAction>,
    Error,
>)
    ensures
        match r {
            Ok(plan) => spec_copy_filesets(jobs@, src@, dest@) == Ok::<
                Seq<CopyActionV>,
                PlanError,
            >(plan@.map_values(|a: CopyAction| a@)),
            Err(e) => spec_copy_filesets(jobs@, src@, dest@) == Err::<
                Seq<CopyActionV>,
                PlanError,
            >((e.spec_kind(), e.spec_message())),
        },
{
    let mut plan: Vec<CopyAction> = Vec::new();
    proof {
        assert(plan@.map_values(|a: CopyAction| a@) =~= Seq::<CopyActionV>::empty());
    }
    let mut j: usize = 0;
    while j < jobs.len()
        invariant
            j <= jobs@.len(),
            spec_plan_upto(jobs@, src@, dest@, j as int) == Ok::<Seq<CopyActionV>, PlanError>(
                plan@.map_values(|a: CopyAction| a@),
            ),
        decreases jobs@.len() - j,
    {
        let (fs, entries) = &jobs[j];
        let mut part = match fs.copy_to(src, dest, entries) {
            Ok(part) => part,
            Err(e) => {
                proof {
                    if j + 1 < jobs@.len() {
                        lemma_plan_upto_err(jobs@, src@, dest@, j + 1int, jobs@.len() as int);
                    }
                }
                return Err(e);
            },
        };
        let ghost old_plan = plan@;
        let ghost old_part = part@;
        plan.append(&mut part);
        proof {
            assert(plan@ =~= old_plan + old_part);
            assert(plan@.map_values(|a: CopyAction| a@) =~= old_plan.map_values(
                |a: CopyAction| a@,
            ) + old_part.map_values(|a: CopyAction| a@));
        }
        j += 1;
    }
    Ok(plan)
}

/// A manifest entry whose glob matches nothing always makes resolution
/// fail: it never silently produces an empty destination. When every
/// earlier entry resolves, the failure is the no-match error, and its
/// message names the pattern that matched nothing.
pub proof fn lemma_empty_glob_fails(
    jobs: Seq<(FileSet, Vec<GlobMatch>)>,
    src: Seq<char>,
    dest: Seq<char>,
    n: int,
)
    requires
        0 <= n < jobs.len(),
        jobs[n].1@.len() == 0,
    ensures
        spec_copy_filesets(jobs, src, dest) is Err,
        (forall|m: int|
            0 <= m < n ==> #[trigger] spec_set_plan(jobs[m].0, jobs[m].1@, src, dest) is Ok)
            ==> spec_copy_filesets(jobs, src, dest) == Err::<Seq<CopyActionV>, PlanError>(
            (ErrorKind::GlobError, spec_no_match_msg(src, jobs[n].0.from@)),
        ),
{
    lemma_plan_upto_err(jobs, src, dest, n + 1, jobs.len() as int);
    if forall|m: int|
        0 <= m < n ==> #[trigger] spec_set_plan(jobs[m].0, jobs[m].1@, src, dest) is Ok {
        lemma_plan_upto_ok(jobs, src, dest, n);
        assert(spec_plan_upto(jobs, src, dest, n + 1) == Err::<Seq<CopyActionV>, PlanError>(
            (ErrorKind::GlobError, spec_no_match_msg(src, jobs[n].0.from@)),
        ));
    }
}

/// While every entry of a prefix resolves, planning the prefix succeeds.
proof fn lemma_plan_upto_ok(
    jobs: Seq<(FileSet, Vec<GlobMatch>)>,
    src: Seq<char>,
    dest: Seq<char>,
    n: int,
)
    requires
        0 <= n <= jobs.len(),
        forall|m: int|
            0 <= m < n ==> #[trigger] spec_set_plan(jobs[m].0, jobs[m].1@, src, dest) is Ok,
    ensures
        spec_plan_upto(jobs, src, dest, n) is Ok,
    decreases n,
{
    if n > 0 {
        lemma_plan_upto_ok(jobs, src, dest, n - 1);
    }
}

/// Once a prefix of the manifest fails, every longer prefix fails the same
/// way.
proof fn lemma_plan_upto_err(
    jobs: Seq<(FileSet, Vec<GlobMatch>)>,
    src: Seq<char>,
    dest: Seq<char>,
    n: int,
    m: int,
)
    requires
        0 < n <= m <= jobs.len(),
        spec_plan_upto(jobs, src, dest, n) is Err,
    ensures
        spec_plan_upto(jobs, src, dest, m) == spec_plan_upto(jobs, src, dest, n),
    decreases m - n,
{
    if n < m {
        lemma_plan_upto_err(jobs, src, dest, n + 1, m);
    }
}

} // verus!
