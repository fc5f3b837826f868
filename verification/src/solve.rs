//! The plate-solve pipeline: centroid extraction and solving on live frames,
//! one job at a time, and what its results mean for the display.

use crate::text;
use vstd::prelude::*;
use vstd::string::*;

verus! {

/// Why a solve found nothing.
#[derive(Clone, Copy, PartialEq, Eq, Structural, Debug)]
pub enum SolveStatus {
    NoMatch,
    Timeout,
    TooFew,
    InvalidConfig,
}

/// What a failed solve is called.
pub fn failure_text(s: SolveStatus) -> (r: &'static str)
    ensures
        r == (match s {
            SolveStatus::NoMatch => "No match",
            SolveStatus::Timeout => "Timed out",
            SolveStatus::TooFew => "Too few stars",
            SolveStatus::InvalidConfig => "Invalid solver config",
        }),
{
    match s {
        SolveStatus::NoMatch => "No match",
        SolveStatus::Timeout => "Timed out",
        SolveStatus::TooFew => "Too few stars",
        SolveStatus::InvalidConfig => "Invalid solver config",
    }
}

/// Milliseconds that a single live solve may take. One that succeeds lands
/// well under this; one without a possible match runs until stopped.
pub const SOLVE_TIMEOUT_MS: u64 = 10;

/// Degrees by which the field of view may be off before a solve has locked.
pub const WIDE_TOLERANCE_DEG: u8 = 10;

/// Degrees by which the field of view may be off once a solve has locked.
pub const TIGHT_TOLERANCE_DEG: u8 = 2;

/// Background grid of the fast extractor where the setting asks for one global
/// background level, which it does not have.
pub const DEFAULT_FAST_GRID: u32 = 64;

// ---------------------------------------------------------------------------
// Extraction settings

/// Parameters of the centroid extraction, with `F` for floating-point numbers.
#[derive(Clone, Copy, PartialEq, Eq, Debug)]
pub struct Extraction<F> {
    pub sigma_threshold: F,
    pub min_pixels: usize,
    pub max_pixels: usize,
    /// Keep only this many of the brightest centroids; `None` keeps all.
    pub max_centroids: Option<usize>,
    /// Cell size of the background grid; `None` is one global level.
    pub local_bg_block_size: Option<u32>,
    pub max_elongation: Option<F>,
    pub matched_filter_sigma: Option<F>,
}

/// Parameters of the single-pass fast extractor.
#[derive(Clone, Copy, PartialEq, Eq, Debug)]
pub struct FastExtraction<F> {
    pub sigma_threshold: F,
    pub bg_grid: u32,
    pub min_pixels: usize,
    pub max_pixels: usize,
    pub max_centroids: Option<usize>,
    pub max_elongation: Option<F>,
}

impl<F: Copy> Extraction<F> {
    /// The same parameters for the fast extractor. It has no matched filter,
    /// so that one is ignored.
    pub fn fast(&self) -> (r: FastExtraction<F>)
        ensures
            r == (FastExtraction {
                sigma_threshold: self.sigma_threshold,
                bg_grid: match self.local_bg_block_size {
                    Some(b) => b,
                    None => DEFAULT_FAST_GRID,
                },
                min_pixels: self.min_pixels,
                max_pixels: self.max_pixels,
                max_centroids: self.max_centroids,
                max_elongation: self.max_elongation,
            }),
    {
        FastExtraction {
            sigma_threshold: self.sigma_threshold,
            bg_grid: match self.local_bg_block_size {
                Some(b) => b,
                None => DEFAULT_FAST_GRID,
            },
            min_pixels: self.min_pixels,
            max_pixels: self.max_pixels,
            max_centroids: self.max_centroids,
            max_elongation: self.max_elongation,
        }
    }

    /// The limit on centroids as text.
    pub fn stars_text(&self) -> (r: String)
        ensures
            r@ == (match self.max_centroids {
                Some(n) => text::decimal(n as int),
                None => "all"@,
            }),
    {
        match self.max_centroids {
            Some(n) => text::int_text(n as i128),
            None => "all".to_string(),
        }
    }

    /// The background setting as text.
    pub fn background_text(&self) -> (r: String)
        ensures
            r@ == (match self.local_bg_block_size {
                Some(n) => text::decimal(n as int) + " px"@,
                None => "global"@,
            }),
    {
        match self.local_bg_block_size {
            Some(n) => {
                let t: String = text::int_text(n as i128);
                text::join2(t.as_str(), " px")
            },
            None => "global".to_string(),
        }
    }

    /// The matched filter was set. In tracking mode the setting is kept as it
    /// is, so that it survives the round trip.
    pub fn set_matched_filter(&mut self, sigma: Option<F>, tracking: bool)
        ensures
            *final(self) == (if tracking {
                *old(self)
            } else {
                Extraction { matched_filter_sigma: sigma, ..*old(self) }
            }),
    {
        if !tracking {
            self.matched_filter_sigma = sigma;
        }
    }
}

/// The limit that a slider stands for, from its position cut to a whole number
/// and rounded to one: below 1 there is none.
pub fn limit_from_slider(cut: u32, rounded: u32) -> (r: Option<u32>)
    ensures
        r == (if cut == 0 {
            None
        } else {
            Some(rounded)
        }),
{
    if cut == 0 {
        None
    } else {
        Some(rounded)
    }
}

// ---------------------------------------------------------------------------
// The pipeline

/// Results of one job. Centroids travel with their solve, so the indices of
/// matched centroids always fit the centroids they were solved from. `C` is a
/// centroid, `S` a solution, `K` a focus sample.
pub struct SolveOutput<F, C, S, K> {
    pub centroids: Vec<C>,
    pub extract_ms: F,
    /// `None` where no database was loaded.
    pub solve: Option<Result<S, SolveStatus>>,
    pub focus: Option<K>,
}

/// State of the pipeline.
pub struct Pipeline<F, C, S, K> {
    /// Master switch: off, frames skip the worker entirely.
    pub enabled: bool,
    /// The worker has a job.
    pub busy: bool,
    /// Extract with the single-pass fast path.
    pub tracking: bool,
    /// Estimated horizontal field of view, in degrees.
    pub fov: F,
    pub extract_ms: F,
    pub centroids: Vec<C>,
    pub last: Option<Result<S, SolveStatus>>,
    pub focus: Option<K>,
}

/// Solver inputs, fixed when a job is handed out.
#[derive(Clone, Copy, PartialEq, Eq, Structural, Debug)]
pub struct SolveInputs {
    /// Start from the last solution's field of view and attitude instead of
    /// the estimate.
    pub from_last: bool,
    /// Degrees by which the field of view may be off.
    pub tolerance_deg: u8,
}

/// What the next frame is to do in the pipeline.
#[derive(Clone, Copy, PartialEq, Eq, Structural, Debug)]
pub enum FrameJob {
    /// Nothing: the pipeline is off, or its worker still has the previous
    /// frame. The frame is skipped rather than queued, so the pipeline works
    /// on recent data.
    Skip,
    /// Extract centroids only: no database is loaded.
    Extract,
    /// Extract and solve.
    Solve(SolveInputs),
}

impl<F: Copy, C, S, K> Pipeline<F, C, S, K> {
    /// Nothing produced lingers while the pipeline is off: stale centroids
    /// would be drawn over every new frame, and a stale lock would seed the
    /// solver.
    pub open spec fn wf(&self) -> bool {
        !self.enabled ==> self.last is None && self.centroids@.len() == 0 && self.focus is None
    }

    /// Has the last solve succeeded?
    pub open spec fn locked(&self) -> bool {
        self.last matches Some(Ok(_))
    }

    /// Nothing extracted yet.
    pub fn new(enabled: bool, tracking: bool, fov: F, extract_ms: F) -> (r: Pipeline<F, C, S, K>)
        ensures
            r.wf(),
            r.enabled == enabled,
            r.tracking == tracking,
            r.fov == fov,
            r.extract_ms == extract_ms,
            !r.busy,
            r.centroids@.len() == 0,
            r.last is None,
            r.focus is None,
    {
        Pipeline {
            enabled,
            busy: false,
            tracking,
            fov,
            extract_ms,
            centroids: Vec::new(),
            last: None,
            focus: None,
        }
    }

    pub fn is_locked(&self) -> (r: bool)
        ensures
            r == self.locked(),
    {
        match &self.last {
            Some(Ok(_)) => true,
            _ => false,
        }
    }

    /// The master switch was set. Switching off clears what was produced; a
    /// job that is under way stays under way.
    pub fn set_enabled(&mut self, on: bool)
        requires
            old(self).wf(),
        ensures
            final(self).wf(),
            final(self).enabled == on,
            final(self).busy == old(self).busy,
            final(self).tracking == old(self).tracking,
            final(self).fov == old(self).fov,
            final(self).extract_ms == old(self).extract_ms,
            on ==> final(self).last == old(self).last && final(self).centroids@ == old(self).centroids@ && final(self).focus == old(self).focus,
            !on ==> final(self).last is None && final(self).centroids@.len() == 0 && final(self).focus is None,
    {
        self.enabled = on;
        if !on {
            self.last = None;
            self.centroids = Vec::new();
            self.focus = None;
        }
    }

    /// What the next frame is to do.
    pub open spec fn next_job(&self, has_database: bool) -> FrameJob {
        if !self.enabled || self.busy {
            FrameJob::Skip
        } else if !has_database {
            FrameJob::Extract
        } else {
            FrameJob::Solve(
                SolveInputs {
                    from_last: self.locked(),
                    tolerance_deg: if self.locked() {
                        TIGHT_TOLERANCE_DEG
                    } else {
                        WIDE_TOLERANCE_DEG
                    },
                },
            )
        }
    }

    /// What the next frame is to do.
    pub fn plan(&self, has_database: bool) -> (r: FrameJob)
        ensures
            r == self.next_job(has_database),
    {
        if !self.enabled || self.busy {
            return FrameJob::Skip;
        }
        if !has_database {
            return FrameJob::Extract;
        }
        let from_last: bool = self.is_locked();
        let tolerance_deg: u8 = if from_last {
            TIGHT_TOLERANCE_DEG
        } else {
            WIDE_TOLERANCE_DEG
        };
        FrameJob::Solve(SolveInputs { from_last, tolerance_deg })
    }

    /// A job was offered to the worker, which took it or not.
    pub fn dispatched(&mut self, taken: bool)
        requires
            old(self).wf(),
        ensures
            final(self).wf(),
            *final(self) == (Pipeline { busy: old(self).busy || taken, ..*old(self) }),
    {
        if taken {
            self.busy = true;
        }
    }

    /// The worker's results came in. While the pipeline is off, only the busy
    /// flag is taken from them: a job handed out before it was switched off
    /// must not bring the overlays back. A solution gives the field of view,
    /// read by `fov_of`; where no database was loaded, the last solve stays.
    pub fn landed<G: Fn(&S) -> F>(&mut self, out: SolveOutput<F, C, S, K>, fov_of: G)
        requires
            old(self).wf(),
            forall|s: &S| call_requires(fov_of, (s,)),
        ensures
            final(self).wf(),
            !final(self).busy,
            final(self).enabled == old(self).enabled,
            final(self).tracking == old(self).tracking,
            !old(self).enabled ==> *final(self) == (Pipeline { busy: false, ..*old(self) }),
            old(self).enabled ==> {
                &&& final(self).centroids@ == out.centroids@
                &&& final(self).extract_ms == out.extract_ms
                &&& final(self).focus == (if out.focus is Some {
                    out.focus
                } else {
                    old(self).focus
                })
                &&& final(self).last == (if out.solve is Some {
                    out.solve
                } else {
                    old(self).last
                })
                &&& match out.solve {
                    Some(Ok(s)) => call_ensures(fov_of, (&s,), final(self).fov),
                    _ => final(self).fov == old(self).fov,
                }
            },
    {
        self.busy = false;
        if !self.enabled {
            return;
        }
        self.extract_ms = out.extract_ms;
        self.centroids = out.centroids;
        if out.focus.is_some() {
            self.focus = out.focus;
        }
        match &out.solve {
            Some(Ok(s)) => {
                self.fov = fov_of(s);
            },
            _ => {},
        }
        if out.solve.is_some() {
            self.last = out.solve;
        }
    }

    /// The database was unloaded: its last solution goes.
    pub fn unload(&mut self)
        requires
            old(self).wf(),
        ensures
            final(self).wf(),
            *final(self) == (Pipeline { last: None, ..*old(self) }),
    {
        self.last = None;
    }

    /// The status in the plate-solve tab; `None` without a database.
    pub fn status(&self, has_database: bool) -> (r: Option<&'static str>)
        ensures
            r == (if !has_database {
                None
            } else if !self.enabled {
                Some("Off")
            } else if self.busy {
                Some("Solving...")
            } else if self.locked() {
                Some("Locked")
            } else {
                Some("Searching...")
            }),
    {
        if !has_database {
            None
        } else if !self.enabled {
            Some("Off")
        } else if self.busy {
            Some("Solving...")
        } else if self.is_locked() {
            Some("Locked")
        } else {
            Some("Searching...")
        }
    }

    /// The status in the status bar, if there is anything to say. Jobs that
    /// only extract count as busy too; it is called solving only while the
    /// pipeline is on.
    pub fn bar_status(&self) -> (r: Option<&'static str>)
        ensures
            r == (if self.enabled && self.busy {
                Some("Solving\u{2026}")
            } else if self.locked() {
                Some("Solved")
            } else {
                None
            }),
    {
        if self.enabled && self.busy {
            Some("Solving\u{2026}")
        } else if self.is_locked() {
            Some("Solved")
        } else {
            None
        }
    }

    /// How many stars were found, once there are any.
    pub fn count_text(&self) -> (r: Option<String>)
        ensures
            match r {
                Some(t) => self.centroids@.len() > 0 && t@ == text::decimal(
                    self.centroids@.len() as int,
                ) + " stars"@,
                None => self.centroids@.len() == 0,
            },
    {
        let n: usize = self.centroids.len();
        if n == 0 {
            None
        } else {
            let t: String = text::int_text(n as i128);
            Some(text::join2(t.as_str(), " stars"))
        }
    }

    /// Why the focus readout is silent. `roi_only` measures inside a region
    /// alone, `has_roi` says whether one is drawn, and `measured` whether the
    /// last sample holds a figure (`None` without a sample).
    pub fn focus_hint(&self, roi_only: bool, has_roi: bool, measured: Option<bool>) -> (r: Option<
        &'static str,
    >)
        ensures
            r == (if !self.enabled {
                Some("Solve is off: enable it in the Plate Solve tab")
            } else if roi_only && !has_roi {
                Some("ROI only: drag a region on the image")
            } else if measured == Some(false) {
                Some("No measurable stars: too faint, saturated, or elongated")
            } else {
                None
            }),
    {
        if !self.enabled {
            Some("Solve is off: enable it in the Plate Solve tab")
        } else if roi_only && !has_roi {
            Some("ROI only: drag a region on the image")
        } else {
            match measured {
                Some(false) => Some("No measurable stars: too faint, saturated, or elongated"),
                _ => None,
            }
        }
    }
}

/// One job at a time: while the worker has one, or the pipeline is off, no
/// frame is handed out.
pub proof fn law_one_job_at_a_time<F: Copy, C, S, K>(p: Pipeline<F, C, S, K>, has_database: bool)
    ensures
        p.next_job(has_database) == FrameJob::Skip <==> (p.busy || !p.enabled),
{
}

/// Off means off: results that land after the switch leave no lock behind and
/// nothing to draw.
pub proof fn law_off_means_off<F: Copy, C, S, K>(p: Pipeline<F, C, S, K>)
    requires
        p.wf(),
        !p.enabled,
    ensures
        !p.locked(),
        p.centroids@.len() == 0,
        p.focus is None,
        p.next_job(true) == FrameJob::Skip,
        p.next_job(false) == FrameJob::Skip,
{
}

// ---------------------------------------------------------------------------
// Saved settings

/// The value of a switch that a saved file does not hold.
pub fn default_true() -> (r: bool)
    ensures
        r,
{
    true
}

/// Solver settings as they are saved.
#[derive(PartialEq, Eq, Debug)]
pub struct SavedSolver<F> {
    pub solver_db_path: String,
    pub camera_model_path: String,
    pub fov: F,
    pub extraction: Extraction<F>,
    pub tracking: bool,
    pub enabled: bool,
}

impl<F: Copy> SavedSolver<F> {
    /// The solver settings as they are saved; a path that is not set is saved
    /// as an empty one.
    pub fn new<C, S, K>(
        db_path: Option<&str>,
        model_path: Option<&str>,
        extraction: Extraction<F>,
        pipeline: &Pipeline<F, C, S, K>,
    ) -> (r: SavedSolver<F>)
        ensures
            r.solver_db_path@ == path_text(db_path),
            r.camera_model_path@ == path_text(model_path),
            solver_saved(extraction, *pipeline, r),
    {
        SavedSolver {
            solver_db_path: path_or_empty(db_path),
            camera_model_path: path_or_empty(model_path),
            fov: pipeline.fov,
            extraction,
            tracking: pipeline.tracking,
            enabled: pipeline.enabled,
        }
    }

    /// Takes over the saved settings; the field of view only if it passes the
    /// check.
    pub fn restore<C, S, K, U: Fn(F) -> bool>(
        &self,
        extraction: &mut Extraction<F>,
        pipeline: &mut Pipeline<F, C, S, K>,
        fov_usable: U,
    )
        requires
            old(pipeline).wf(),
            forall|x: F| call_requires(fov_usable, (x,)),
        ensures
            final(pipeline).wf(),
            solver_restored(
                *self,
                *old(pipeline),
                fov_usable,
                *final(extraction),
                *final(pipeline),
            ),
    {
        *extraction = self.extraction;
        pipeline.set_enabled(self.enabled);
        pipeline.tracking = self.tracking;
        let usable: bool = fov_usable(self.fov);
        if usable {
            pipeline.fov = self.fov;
        }
    }
}

/// Are the saved settings those of an extraction and a pipeline?
pub open spec fn solver_saved<F, C, S, K>(
    extraction: Extraction<F>,
    pipeline: Pipeline<F, C, S, K>,
    saved: SavedSolver<F>,
) -> bool {
    &&& saved.fov == pipeline.fov
    &&& saved.extraction == extraction
    &&& saved.tracking == pipeline.tracking
    &&& saved.enabled == pipeline.enabled
}

/// Are extraction and pipeline what they were with the saved settings taken
/// over?
pub open spec fn solver_restored<F: Copy, C, S, K, U: Fn(F) -> bool>(
    saved: SavedSolver<F>,
    before: Pipeline<F, C, S, K>,
    fov_usable: U,
    extraction: Extraction<F>,
    after: Pipeline<F, C, S, K>,
) -> bool {
    &&& extraction == saved.extraction
    &&& after.enabled == saved.enabled
    &&& after.tracking == saved.tracking
    &&& after.busy == before.busy
    &&& after.extract_ms == before.extract_ms
    &&& (call_ensures(fov_usable, (saved.fov,), true) && after.fov == saved.fov) || (call_ensures(
        fov_usable,
        (saved.fov,),
        false,
    ) && after.fov == before.fov)
    &&& saved.enabled ==> after.last == before.last && after.centroids@ == before.centroids@
        && after.focus == before.focus
}

/// The solver's settings persist: what one run saves, the next one has, as long
/// as the field of view passes the check.
pub proof fn law_solver_settings_come_back<F: Copy, C, S, K, U: Fn(F) -> bool>(
    extraction: Extraction<F>,
    pipeline: Pipeline<F, C, S, K>,
    saved: SavedSolver<F>,
    before: Pipeline<F, C, S, K>,
    fov_usable: U,
    new_extraction: Extraction<F>,
    after: Pipeline<F, C, S, K>,
)
    requires
        solver_saved(extraction, pipeline, saved),
        solver_restored(saved, before, fov_usable, new_extraction, after),
        !call_ensures(fov_usable, (pipeline.fov,), false),
    ensures
        new_extraction == extraction,
        after.enabled == pipeline.enabled,
        after.tracking == pipeline.tracking,
        after.fov == pipeline.fov,
{
}

/// The text of an optional path.
pub open spec fn path_text(p: Option<&str>) -> Seq<char> {
    match p {
        Some(s) => s@,
        None => Seq::empty(),
    }
}

fn path_or_empty(p: Option<&str>) -> (r: String)
    ensures
        r@ == path_text(p),
{
    match p {
        Some(s) => s.to_string(),
        None => String::new(),
    }
}

// ---------------------------------------------------------------------------
// What the pipeline keeps to

/// A solve starts from the last solution, two degrees wide, exactly when the
/// last solve gave one. After a failed solve, or before the first, it starts
/// from the estimate and is ten degrees wide.
pub proof fn law_only_a_solution_seeds_the_next_solve<F: Copy, C, S, K>(
    p: Pipeline<F, C, S, K>,
    job: FrameJob,
)
    requires
        call_ensures(Pipeline::<F, C, S, K>::plan, (&p, true), job),
        p.enabled,
        !p.busy,
    ensures
        job matches FrameJob::Solve(inputs) && match p.last {
            Some(Ok(_)) => inputs.from_last && inputs.tolerance_deg == 2,
            Some(Err(_)) => !inputs.from_last && inputs.tolerance_deg == 10,
            None => !inputs.from_last && inputs.tolerance_deg == 10,
        },
{
}

/// Every frame gets one of three jobs: none while the pipeline is off or its
/// worker busy, else an extraction, and a solve too once there is a database.
pub proof fn law_jobs_follow_the_state<F: Copy, C, S, K>(
    p: Pipeline<F, C, S, K>,
    has_database: bool,
    job: FrameJob,
)
    requires
        call_ensures(Pipeline::<F, C, S, K>::plan, (&p, has_database), job),
    ensures
        job is Skip <==> !p.enabled || p.busy,
        job is Extract <==> p.enabled && !p.busy && !has_database,
        job is Solve <==> p.enabled && !p.busy && has_database,
{
}

/// What lands decides the next job: a solution seeds it, a failure does not,
/// and a job without a database leaves the seed as it was.
pub proof fn law_landed_solve_seeds_the_next<F: Copy, C, S, K, G: Fn(&S) -> F>(
    p: &mut Pipeline<F, C, S, K>,
    out: SolveOutput<F, C, S, K>,
    fov_of: G,
    job: FrameJob,
)
    requires
        old(p).wf(),
        old(p).enabled,
        call_ensures(Pipeline::<F, C, S, K>::landed::<G>, (p, out, fov_of), ()),
        call_ensures(Pipeline::<F, C, S, K>::plan, (&*final(p), true), job),
    ensures
        job matches FrameJob::Solve(inputs) && match out.solve {
            Some(Ok(_)) => inputs.from_last && inputs.tolerance_deg == 2,
            Some(Err(_)) => !inputs.from_last && inputs.tolerance_deg == 10,
            None => inputs.from_last == (old(p).last matches Some(Ok(_))) && inputs.tolerance_deg == (
            if old(p).last matches Some(Ok(_)) {
                2u8
            } else {
                10u8
            }),
        },
{
}

/// What lands is shown: its centroids and its timing replace the old ones, a
/// focus sample does if there is one, and the field of view becomes that of a
/// solution. The worker is free again.
pub proof fn law_landed_results_are_shown<F: Copy, C, S, K, G: Fn(&S) -> F>(
    p: &mut Pipeline<F, C, S, K>,
    out: SolveOutput<F, C, S, K>,
    fov_of: G,
)
    requires
        old(p).wf(),
        call_ensures(Pipeline::<F, C, S, K>::landed::<G>, (p, out, fov_of), ()),
    ensures
        !final(p).busy,
        final(p).enabled == old(p).enabled && final(p).tracking == old(p).tracking,
        old(p).enabled ==> final(p).centroids@ == out.centroids@ && final(p).extract_ms
            == out.extract_ms,
        old(p).enabled && out.focus is Some ==> final(p).focus == out.focus,
        out.focus is None ==> final(p).focus == old(p).focus,
        old(p).enabled && out.solve is Some ==> final(p).last == out.solve,
        out.solve is None ==> final(p).last == old(p).last,
        old(p).enabled ==> (out.solve matches Some(Ok(s)) ==> call_ensures(
            fov_of,
            (&s,),
            final(p).fov,
        )),
        !(out.solve matches Some(Ok(_))) ==> final(p).fov == old(p).fov,
        !old(p).enabled ==> final(p).last is None && final(p).centroids@.len() == 0
            && final(p).focus is None && final(p).fov == old(p).fov && final(p).extract_ms
            == old(p).extract_ms,
{
}

/// The worker is busy from the moment it takes a job until its results land,
/// and a job it did not take changes nothing.
pub proof fn law_worker_is_busy_until_results_land<F: Copy, C, S, K>(
    p: &mut Pipeline<F, C, S, K>,
    taken: bool,
    has_database: bool,
    job: FrameJob,
)
    requires
        old(p).wf(),
        call_ensures(Pipeline::<F, C, S, K>::dispatched, (p, taken), ()),
        call_ensures(Pipeline::<F, C, S, K>::plan, (&*final(p), has_database), job),
    ensures
        taken ==> job is Skip,
        !taken ==> *final(p) == *old(p),
        final(p).last == old(p).last && final(p).centroids == old(p).centroids && final(p).fov
            == old(p).fov && final(p).enabled == old(p).enabled && final(p).focus == old(p).focus
            && final(p).tracking == old(p).tracking && final(p).extract_ms == old(p).extract_ms,
        taken ==> final(p).busy,
{
}

/// Switching off forgets the lock and everything drawn; switching on changes
/// nothing else. A job that is under way stays under way.
pub proof fn law_switching_off_forgets<F: Copy, C, S, K>(p: &mut Pipeline<F, C, S, K>, on: bool)
    requires
        old(p).wf(),
        call_ensures(Pipeline::<F, C, S, K>::set_enabled, (p, on), ()),
    ensures
        final(p).enabled == on,
        final(p).busy == old(p).busy && final(p).fov == old(p).fov && final(p).tracking == old(
            p,
        ).tracking,
        if on {
            final(p).last == old(p).last && final(p).centroids@ == old(p).centroids@ && final(p).focus == old(p).focus
        } else {
            final(p).last is None && final(p).centroids@.len() == 0 && final(p).focus is None
        },
{
}

/// Unloading the database gives up the lock and nothing else.
pub proof fn law_unloading_gives_up_the_lock<F: Copy, C, S, K>(
    p: &mut Pipeline<F, C, S, K>,
    job: FrameJob,
)
    requires
        old(p).wf(),
        call_ensures(Pipeline::<F, C, S, K>::unload, (p,), ()),
        call_ensures(Pipeline::<F, C, S, K>::plan, (&*final(p), true), job),
    ensures
        final(p).last is None,
        job matches FrameJob::Solve(inputs) ==> !inputs.from_last,
        final(p).centroids == old(p).centroids && final(p).fov == old(p).fov && final(p).enabled
            == old(p).enabled && final(p).busy == old(p).busy && final(p).focus == old(p).focus
            && final(p).tracking == old(p).tracking && final(p).extract_ms == old(p).extract_ms,
{
}

/// A new pipeline has no lock, nothing to draw and a free worker.
pub proof fn law_new_pipeline_is_idle<F: Copy, C, S, K>(
    enabled: bool,
    tracking: bool,
    fov: F,
    extract_ms: F,
    p: Pipeline<F, C, S, K>,
)
    requires
        call_ensures(Pipeline::<F, C, S, K>::new, (enabled, tracking, fov, extract_ms), p),
    ensures
        p.last is None && p.focus is None && p.centroids@.len() == 0 && !p.busy,
        p.enabled == enabled && p.tracking == tracking && p.fov == fov && p.extract_ms
            == extract_ms,
{
}

/// The tab tells the state: "Locked" only with a solution, "Searching..." only
/// without one, and neither while a job is under way or the pipeline is off.
pub proof fn law_status_tells_the_state<F: Copy, C, S, K>(
    p: Pipeline<F, C, S, K>,
    has_database: bool,
    r: Option<&'static str>,
)
    requires
        call_ensures(Pipeline::<F, C, S, K>::status, (&p, has_database), r),
    ensures
        r is None <==> !has_database,
        has_database && !p.enabled ==> r->0@ == "Off"@,
        has_database && p.enabled && p.busy ==> r->0@ == "Solving..."@,
        has_database && p.enabled && !p.busy && (p.last matches Some(Ok(_))) ==> r->0@ == "Locked"@,
        has_database && p.enabled && !p.busy && !(p.last matches Some(Ok(_))) ==> r->0@
            == "Searching..."@,
{
}

/// The status bar says "Solved" only with a solution and no job under way.
pub proof fn law_bar_tells_the_state<F: Copy, C, S, K>(
    p: Pipeline<F, C, S, K>,
    r: Option<&'static str>,
)
    requires
        p.wf(),
        call_ensures(Pipeline::<F, C, S, K>::bar_status, (&p,), r),
    ensures
        p.enabled && p.busy ==> r is Some && r->0@ == "Solving\u{2026}"@,
        !(p.enabled && p.busy) ==> (r is Some <==> (p.last matches Some(Ok(_)))),
        !(p.enabled && p.busy) && r is Some ==> r->0@ == "Solved"@,
        !p.enabled ==> r is None,
{
}

/// The focus readout is explained exactly when it has nothing to show for a
/// reason that the user can see to.
pub proof fn law_focus_hint_names_the_reason<F: Copy, C, S, K>(
    p: Pipeline<F, C, S, K>,
    roi_only: bool,
    has_roi: bool,
    measured: Option<bool>,
    r: Option<&'static str>,
)
    requires
        call_ensures(
            Pipeline::<F, C, S, K>::focus_hint,
            (&p, roi_only, has_roi, measured),
            r,
        ),
    ensures
        r is None <==> p.enabled && (has_roi || !roi_only) && measured != Some(false),
        !p.enabled ==> r->0@ == "Solve is off: enable it in the Plate Solve tab"@,
        p.enabled && roi_only && !has_roi ==> r->0@ == "ROI only: drag a region on the image"@,
        p.enabled && !(roi_only && !has_roi) && measured == Some(false) ==> r->0@
            == "No measurable stars: too faint, saturated, or elongated"@,
{
}

/// The number of stars is told once there are any.
pub proof fn law_star_count_is_told<F: Copy, C, S, K>(
    p: Pipeline<F, C, S, K>,
    r: Option<String>,
)
    requires
        call_ensures(Pipeline::<F, C, S, K>::count_text, (&p,), r),
    ensures
        r is None <==> p.centroids@.len() == 0,
        r matches Some(t) ==> t@ == text::decimal(p.centroids@.len() as int) + " stars"@,
{
}

/// Both extractors get the same thresholds, sizes and limits; the fast one gets
/// a grid of its own where the setting has none.
pub proof fn law_fast_extraction_shares_the_settings<F: Copy>(
    e: Extraction<F>,
    f: FastExtraction<F>,
)
    requires
        call_ensures(Extraction::<F>::fast, (&e,), f),
    ensures
        f.sigma_threshold == e.sigma_threshold,
        f.min_pixels == e.min_pixels,
        f.max_pixels == e.max_pixels,
        f.max_centroids == e.max_centroids,
        f.max_elongation == e.max_elongation,
        e.local_bg_block_size matches Some(b) ==> f.bg_grid == b,
        e.local_bg_block_size is None ==> f.bg_grid == 64,
{
}

/// The matched filter is set outside tracking mode, survives it untouched, and
/// is all that is set.
pub proof fn law_matched_filter_survives_tracking<F: Copy>(
    e: &mut Extraction<F>,
    sigma: Option<F>,
    tracking: bool,
)
    requires
        call_ensures(Extraction::<F>::set_matched_filter, (e, sigma, tracking), ()),
    ensures
        tracking ==> final(e).matched_filter_sigma == old(e).matched_filter_sigma,
        !tracking ==> final(e).matched_filter_sigma == sigma,
        final(e).sigma_threshold == old(e).sigma_threshold && final(e).min_pixels == old(
            e,
        ).min_pixels && final(e).max_pixels == old(e).max_pixels && final(e).max_centroids == old(
            e,
        ).max_centroids && final(e).local_bg_block_size == old(e).local_bg_block_size && final(e).max_elongation == old(e).max_elongation,
{
}

/// A slider below 1 stands for no limit, any other for the one it shows.
pub proof fn law_slider_limit(cut: u32, rounded: u32, r: Option<u32>)
    requires
        call_ensures(limit_from_slider, (cut, rounded), r),
    ensures
        cut < 1 <==> r is None,
        r matches Some(n) ==> n == rounded,
{
}

/// Each failure has a text of its own.
pub proof fn law_failures_are_told_apart(s: SolveStatus, r: &'static str)
    requires
        call_ensures(failure_text, (s,), r),
    ensures
        s == SolveStatus::NoMatch ==> r@ == "No match"@,
        s == SolveStatus::Timeout ==> r@ == "Timed out"@,
        s == SolveStatus::TooFew ==> r@ == "Too few stars"@,
        s == SolveStatus::InvalidConfig ==> r@ == "Invalid solver config"@,
{
}

/// Saved solver settings hold the two paths as they are, each in its place, and
/// an empty text for one that is not set.
pub proof fn law_saved_paths_keep_their_place<F: Copy, C, S, K>(
    db: Option<&str>,
    model: Option<&str>,
    extraction: Extraction<F>,
    pipeline: Pipeline<F, C, S, K>,
    saved: SavedSolver<F>,
)
    requires
        call_ensures(SavedSolver::<F>::new::<C, S, K>, (db, model, extraction, &pipeline), saved),
    ensures
        db matches Some(p) ==> saved.solver_db_path@ == p@,
        db is None ==> saved.solver_db_path@.len() == 0,
        model matches Some(p) ==> saved.camera_model_path@ == p@,
        model is None ==> saved.camera_model_path@.len() == 0,
        saved.fov == pipeline.fov && saved.extraction == extraction,
        saved.tracking == pipeline.tracking && saved.enabled == pipeline.enabled,
{
}

/// Settings that are restored are those that were saved; an unusable field of
/// view is not taken over, and a pipeline that stays on keeps its lock.
pub proof fn law_restored_settings_are_the_saved<F: Copy, C, S, K, U: Fn(F) -> bool>(
    saved: SavedSolver<F>,
    extraction: &mut Extraction<F>,
    pipeline: &mut Pipeline<F, C, S, K>,
    fov_usable: U,
)
    requires
        old(pipeline).wf(),
        call_ensures(
            SavedSolver::<F>::restore::<C, S, K, U>,
            (&saved, extraction, pipeline, fov_usable),
            (),
        ),
    ensures
        *final(extraction) == saved.extraction,
        final(pipeline).enabled == saved.enabled && final(pipeline).tracking == saved.tracking,
        !call_ensures(fov_usable, (saved.fov,), false) ==> final(pipeline).fov == saved.fov,
        !call_ensures(fov_usable, (saved.fov,), true) ==> final(pipeline).fov == old(pipeline).fov,
        final(pipeline).busy == old(pipeline).busy,
        saved.enabled ==> final(pipeline).last == old(pipeline).last,
        !saved.enabled ==> final(pipeline).last is None,
{
}

/// The limits of the extraction read as numbers, or as having none.
pub proof fn law_extraction_settings_are_told<F: Copy>(
    e: Extraction<F>,
    stars: String,
    background: String,
    saved: bool,
)
    requires
        call_ensures(Extraction::<F>::stars_text, (&e,), stars),
        call_ensures(Extraction::<F>::background_text, (&e,), background),
        call_ensures(default_true, (), saved),
    ensures
        e.max_centroids matches Some(n) ==> stars@ == text::decimal(n as int),
        e.max_centroids is None ==> stars@ == "all"@,
        e.local_bg_block_size matches Some(n) ==> background@ == text::decimal(n as int) + " px"@,
        e.local_bg_block_size is None ==> background@ == "global"@,
        saved,
{
}

/// The pipeline is locked where the last solve found something, and nowhere
/// else.
pub proof fn law_locked_by_a_solution<F: Copy, C, S, K>(p: Pipeline<F, C, S, K>, r: bool)
    requires
        call_ensures(Pipeline::<F, C, S, K>::is_locked, (&p,), r),
    ensures
        r <==> (p.last matches Some(Ok(_))),
{
}

} // verus!
