//! The build orchestrator's decision logic. A run covers the cartesian
//! product of the configured operating-system sections' targets and
//! architectures, intersected with what the invocation requests; each
//! (format, architecture) pair is one cell. Cells are planned here and
//! driven strictly sequentially by the caller; after every cell the
//! orchestrator decides whether the run goes on, under a
//! fail-fast-or-continue error policy.

use vstd::prelude::*;

use crate::config::Config;
use crate::error::Error;
use crate::platform::{Arch, PlatformTarget};

verus! {

/// Run-scoped selection: which formats and architectures this invocation
/// asks for, and whether a failed cell aborts the whole run.
#[derive(Debug, Clone)]
pub struct BuildOptions {
    pub ignore_error: bool,
    pub targets: Vec<PlatformTarget>,
    pub arches: Vec<Arch>,
}

impl BuildOptions {
    /// The default selection: every format, and the host's architecture
    /// where it is one the builder supports.
    pub fn with_host_arch(host: Option<Arch>) -> (r: BuildOptions)
        ensures
            !r.ignore_error,
            r.targets@ =~= seq![
                PlatformTarget::Deb,
                PlatformTarget::Rpm,
                PlatformTarget::AppImage,
                PlatformTarget::Nsis,
            ],
            host matches Some(a) ==> r.arches@ =~= seq![a],
            host is None ==> r.arches@ =~= Seq::<Arch>::empty(),
    {
        let mut targets: Vec<PlatformTarget> = Vec::new();
        targets.push(PlatformTarget::Deb);
        targets.push(PlatformTarget::Rpm);
        targets.push(PlatformTarget::AppImage);
        targets.push(PlatformTarget::Nsis);
        let mut arches: Vec<Arch> = Vec::new();
        if let Some(a) = host {
            arches.push(a);
        }
        BuildOptions { ignore_error: false, targets, arches }
    }
}

/// One unit of work: one format built for one architecture.
#[derive(Debug, Clone, Copy, PartialEq, Eq, Structural)]
pub struct Cell {
    pub target: PlatformTarget,
    pub arch: Arch,
}

fn contains_target(v: &Vec<PlatformTarget>, t: PlatformTarget) -> (r: bool)
    ensures
        r == v@.contains(t),
{
    let mut i: usize = 0;
    while i < v.len()
        invariant
            i <= v@.len(),
            forall|k: int| 0 <= k < i ==> v@[k] != t,
        decreases v@.len() - i,
    {
        if v[i] == t {
            return true;
        }
        i += 1;
    }
    false
}

fn contains_arch(v: &Vec<Arch>, a: Arch) -> (r: bool)
    ensures
        r == v@.contains(a),
{
    let mut i: usize = 0;
    while i < v.len()
        invariant
            i <= v@.len(),
            forall|k: int| 0 <= k < i ==> v@[k] != a,
        decreases v@.len() - i,
    {
        if v[i] == a {
            return true;
        }
        i += 1;
    }
    false
}

/// The first `n` configured architectures that the invocation also
/// requests, in configuration order.
pub open spec fn spec_selected_arches(conf: Seq<Arch>, req: Seq<Arch>, n: int) -> Seq<Arch>
    decreases n,
{
    if n <= 0 {
        Seq::empty()
    } else if req.contains(conf[n - 1]) {
        spec_selected_arches(conf, req, n - 1) + seq![conf[n - 1]]
    } else {
        spec_selected_arches(conf, req, n - 1)
    }
}

fn selected_arches(conf: &Vec<Arch>, req: &Vec<Arch>) -> (r: Vec<Arch>)
    ensures
        r@ == spec_selected_arches(conf@, req@, conf@.len() as int),
{
    let mut out: Vec<Arch> = Vec::new();
    let mut i: usize = 0;
    while i < conf.len()
        invariant
            i <= conf@.len(),
            out@ == spec_selected_arches(conf@, req@, i as int),
        decreases conf@.len() - i,
    {
        if contains_arch(req, conf[i]) {
            out.push(conf[i]);
        }
        proof {
            assert(out@ =~= spec_selected_arches(conf@, req@, i + 1int));
        }
        i += 1;
    }
    out
}

/// One cell per architecture, for one format.
pub open spec fn spec_target_cells(t: PlatformTarget, arches: Seq<Arch>) -> Seq<Cell> {
    arches.map_values(|a: Arch| Cell { target: t, arch: a })
}

fn push_target_cells(cells: &mut Vec<Cell>, t: PlatformTarget, arches: &Vec<Arch>)
    ensures
        final(cells)@ == old(cells)@ + spec_target_cells(t, arches@),
{
    let mut i: usize = 0;
    while i < arches.len()
        invariant
            i <= arches@.len(),
            cells@ == old(cells)@ + spec_target_cells(t, arches@).take(i as int),
        decreases arches@.len() - i,
    {
        cells.push(Cell { target: t, arch: arches[i] });
        proof {
            assert(cells@ =~= old(cells)@ + spec_target_cells(t, arches@).take(i + 1int));
        }
        i += 1;
    }
    proof {
        assert(old(cells)@ + spec_target_cells(t, arches@).take(arches@.len() as int) =~= old(
            cells,
        )@ + spec_target_cells(t, arches@));
    }
}

/// Is a format both configured and requested?
pub open spec fn spec_wanted(
    configured: Seq<PlatformTarget>,
    requested: Seq<PlatformTarget>,
    t: PlatformTarget,
) -> bool {
    configured.contains(t) && requested.contains(t)
}

/// The Linux cells of a run: for each of the Deb, Rpm and AppImage formats
/// that is both configured and requested, one cell per selected
/// architecture. An absent Linux section plans nothing: a project opts in
/// to each operating system.
pub open spec fn spec_linux_cells(conf: Config, options: BuildOptions) -> Seq<Cell> {
    match conf.linux {
        None => Seq::empty(),
        Some(lc) => {
            let arches = spec_selected_arches(lc.arch@, options.arches@, lc.arch@.len() as int);
            (if spec_wanted(lc.targets@, options.targets@, PlatformTarget::Deb) {
                spec_target_cells(PlatformTarget::Deb, arches)
            } else {
                Seq::empty()
            }) + (if spec_wanted(lc.targets@, options.targets@, PlatformTarget::Rpm) {
                spec_target_cells(PlatformTarget::Rpm, arches)
            } else {
                Seq::empty()
            }) + (if spec_wanted(lc.targets@, options.targets@, PlatformTarget::AppImage) {
                spec_target_cells(PlatformTarget::AppImage, arches)
            } else {
                Seq::empty()
            })
        },
    }
}

/// Plans the Linux cells of a run.
pub fn build_linux(conf: &Config, options: &BuildOptions) -> (r: Vec<Cell>)
    ensures
        r@ == spec_linux_cells(*conf, *options),
{
    let mut cells: Vec<Cell> = Vec::new();
    let linux_conf = match conf.linux.as_ref() {
        Some(lc) => lc,
        None => {
            proof {
                assert(cells@ =~= spec_linux_cells(*conf, *options));
            }
            return cells;
        },
    };
    let arches = selected_arches(&linux_conf.arch, &options.arches);
    if contains_target(&linux_conf.targets, PlatformTarget::Deb) && contains_target(
        &options.targets,
        PlatformTarget::Deb,
    ) {
        push_target_cells(&mut cells, PlatformTarget::Deb, &arches);
    }
    if contains_target(&linux_conf.targets, PlatformTarget::Rpm) && contains_target(
        &options.targets,
        PlatformTarget::Rpm,
    ) {
        push_target_cells(&mut cells, PlatformTarget::Rpm, &arches);
    }
    if contains_target(&linux_conf.targets, PlatformTarget::AppImage) && contains_target(
        &options.targets,
        PlatformTarget::AppImage,
    ) {
        push_target_cells(&mut cells, PlatformTarget::AppImage, &arches);
    }
    proof {
        assert(cells@ =~= spec_linux_cells(*conf, *options));
    }
    cells
}

/// The Windows cells of a run.
pub open spec fn spec_windows_cells(conf: Config, options: BuildOptions) -> Seq<Cell> {
    match conf.windows {
        None => Seq::empty(),
        Some(wc) => {
            let arches = spec_selected_arches(wc.arch@, options.arches@, wc.arch@.len() as int);
            if spec_wanted(wc.targets@, options.targets@, PlatformTarget::Nsis) {
                spec_target_cells(PlatformTarget::Nsis, arches)
            } else {
                Seq::empty()
            }
        },
    }
}

/// Plans the Windows cells of a run.
pub fn build_windows(conf: &Config, options: &BuildOptions) -> (r: Vec<Cell>)
    ensures
        r@ == spec_windows_cells(*conf, *options),
{
    let mut cells: Vec<Cell> = Vec::new();
    let windows_conf = match conf.windows.as_ref() {
        Some(wc) => wc,
        None => {
            proof {
                assert(cells@ =~= spec_windows_cells(*conf, *options));
            }
            return cells;
        },
    };
    let arches = selected_arches(&windows_conf.arch, &options.arches);
    if contains_target(&windows_conf.targets, PlatformTarget::Nsis) && contains_target(
        &options.targets,
        PlatformTarget::Nsis,
    ) {
        push_target_cells(&mut cells, PlatformTarget::Nsis, &arches);
    }
    proof {
        assert(cells@ =~= spec_windows_cells(*conf, *options));
    }
    cells
}

/// Plans a whole run: the Linux cells, then the Windows cells.
pub fn plan_build(conf: &Config, options: &BuildOptions) -> (r: Vec<Cell>)
    ensures
        r@ == spec_linux_cells(*conf, *options) + spec_windows_cells(*conf, *options),
{
    let mut cells = build_linux(conf, options);
    let mut windows_cells = build_windows(conf, options);
    let ghost l = cells@;
    let ghost w = windows_cells@;
    cells.append(&mut windows_cells);
    proof {
        assert(cells@ =~= l + w);
    }
    cells
}

/// What the orchestrator does after a cell finishes.
#[derive(Debug, Clone, Copy, PartialEq, Eq, Structural)]
pub enum Decision {
    /// Go on to the next cell.
    Continue,
    /// Abort the run: a cell failed and failures are not ignored.
    Abort,
}

/// The decision after one cell: a failure aborts the run unless failures
/// are ignored; a success never does.
pub open spec fn spec_decision(ignore_error: bool, failed: bool) -> Decision {
    if failed && !ignore_error {
        Decision::Abort
    } else {
        Decision::Continue
    }
}

/// How many cells of a run are attempted, given which cells would fail:
/// the driver performs cells in order and stops right after the first
/// decision to abort.
pub open spec fn spec_attempted(ignore_error: bool, fails: Seq<bool>) -> nat
    decreases fails.len(),
{
    if fails.len() == 0 {
        0
    } else if fails[0] && !ignore_error {
        1
    } else {
        1 + spec_attempted(ignore_error, fails.drop_first())
    }
}

/// The error policy, whole-run view. With `ignore_error` unset the run
/// stops right at the first failing cell and performs zero further cells;
/// with it set every planned cell is attempted, one outcome each.
pub proof fn lemma_orchestrator_policy(ignore_error: bool, fails: Seq<bool>)
    ensures
        ignore_error ==> spec_attempted(ignore_error, fails) == fails.len(),
        !ignore_error ==> forall|j: int|
            0 <= j < fails.len() && fails[j] && (forall|k: int| 0 <= k < j ==> !fails[k])
                ==> spec_attempted(ignore_error, fails) == j + 1,
        (forall|j: int| 0 <= j < fails.len() ==> !fails[j]) ==> spec_attempted(
            ignore_error,
            fails,
        ) == fails.len(),
    decreases fails.len(),
{
    if fails.len() > 0 {
        lemma_orchestrator_policy(ignore_error, fails.drop_first());
        if !ignore_error {
            assert forall|j: int|
                0 <= j < fails.len() && fails[j] && (forall|k: int| 0 <= k < j ==> !fails[k])
                    implies spec_attempted(ignore_error, fails) == j + 1 by {
                if j > 0 {
                    let rest = fails.drop_first();
                    assert(forall|k: int| 0 <= k < j - 1 ==> !rest[k]);
                    assert(rest[j - 1]);
                    assert(spec_attempted(ignore_error, rest) == j);
                }
            }
        }
    }
}

/// The running state of one build: how many cells were attempted, which
/// failed, and whether the run was aborted.
pub struct Orchestrator {
    pub ignore_error: bool,
    pub attempted: usize,
    pub failures: Vec<(Cell, Error)>,
    pub aborted: bool,
}

impl Orchestrator {
    pub fn new(ignore_error: bool) -> (r: Orchestrator)
        ensures
            r.ignore_error == ignore_error,
            r.attempted == 0,
            r.failures@ =~= Seq::<(Cell, Error)>::empty(),
            !r.aborted,
    {
        Orchestrator { ignore_error, attempted: 0, failures: Vec::new(), aborted: false }
    }

    /// Records one cell's outcome and decides whether the run goes on.
    /// Every failure is recorded regardless of the policy, so that a
    /// continue-mode run can report one outcome per attempted cell.
    pub fn record(&mut self, cell: Cell, failed: Option<Error>) -> (d: Decision)
        requires
            !old(self).aborted,
            old(self).attempted < usize::MAX,
        ensures
            final(self).ignore_error == old(self).ignore_error,
            final(self).attempted == old(self).attempted + 1,
            d == spec_decision(old(self).ignore_error, failed is Some),
            final(self).aborted == (d == Decision::Abort),
            match failed {
                Some(e) => final(self).failures@ =~= old(self).failures@.push((cell, e)),
                None => final(self).failures@ =~= old(self).failures@,
            },
    {
        self.attempted = self.attempted + 1;
        let failed_flag = failed.is_some();
        if let Some(e) = failed {
            self.failures.push((cell, e));
        }
        if failed_flag && !self.ignore_error {
            self.aborted = true;
            Decision::Abort
        } else {
            Decision::Continue
        }
    }
}

} // verus!
