use vstd::prelude::*;

use crate::config::{config_fault, Config, ConfigError};
use crate::gui::SceneType;

verus! {

/// What a render paints: a quick picture of where the rays hit, or the full
/// path-traced image.
#[derive(Clone, Copy, Debug, PartialEq, Eq, Structural)]
pub enum RenderingMode {
    Debug,
    Full,
}

impl RenderingMode {
    /// The other mode.
    pub open spec fn spec_toggled(self) -> RenderingMode {
        match self {
            RenderingMode::Debug => RenderingMode::Full,
            RenderingMode::Full => RenderingMode::Debug,
        }
    }

    #[verifier::when_used_as_spec(spec_toggled)]
    pub fn toggled(self) -> (other: RenderingMode)
        ensures
            other == self.spec_toggled(),
    {
        match self {
            RenderingMode::Debug => RenderingMode::Full,
            RenderingMode::Full => RenderingMode::Debug,
        }
    }
}

/// Share of a job that is done after `completed` of `total` rows, in percent,
/// rounded down. A job without rows is done.
pub open spec fn percent_done(completed: u32, total: u32) -> u32 {
    if total == 0 || completed >= total {
        100
    } else {
        ((100 * completed) / (total as int)) as u32
    }
}

/// The share that is done never exceeds 100 percent and never falls as rows
/// are completed.
pub proof fn lemma_percent_done_monotone(earlier: u32, later: u32, total: u32)
    requires
        earlier <= later,
    ensures
        percent_done(earlier, total) <= percent_done(later, total) <= 100,
{
    if total != 0 {
        if later < total {
            assert((100 * earlier) / (total as int) <= (100 * later) / (total as int) <= 100)
                by (nonlinear_arith)
                requires
                    0 <= earlier <= later < total,
            ;
        }
        if earlier < total {
            assert(0 <= (100 * earlier) / (total as int) <= 100) by (nonlinear_arith)
                requires
                    0 <= earlier < total,
            ;
        }
    }
}

/// Computes [`percent_done`].
pub fn progress_percent(completed: u32, total: u32) -> (percent: u32)
    ensures
        percent == percent_done(completed, total),
        percent <= 100,
{
    proof {
        lemma_percent_done_monotone(completed, completed, total);
    }
    if total == 0 || completed >= total {
        100
    } else {
        let done: u64 = (100 * (completed as u64)) / (total as u64);
        done as u32
    }
}

/// The controller of the renderer: the configuration, the scene and the mode
/// that the next render will use, and where the current render stands.
///
/// A render job begins with `begin_render`, reports each row it completes with
/// `row_finished`, looks at `interrupted` before each row, and ends with
/// `finish_render`. Whoever changes what a render reads calls for an
/// interrupt first.
#[derive(Clone, Copy, Debug)]
pub struct Raytracer {
    config: Config,
    scene: SceneType,
    rendering_mode: RenderingMode,
    interrupt: bool,
    is_rendering: bool,
    progress: u32,
    completed_rows: u32,
}

impl Raytracer {
    pub closed spec fn spec_config(&self) -> Config {
        self.config
    }

    pub closed spec fn spec_scene(&self) -> SceneType {
        self.scene
    }

    pub closed spec fn spec_rendering_mode(&self) -> RenderingMode {
        self.rendering_mode
    }

    pub closed spec fn spec_interrupted(&self) -> bool {
        self.interrupt
    }

    pub closed spec fn spec_is_rendering(&self) -> bool {
        self.is_rendering
    }

    pub closed spec fn spec_progress(&self) -> u32 {
        self.progress
    }

    pub closed spec fn spec_completed_rows(&self) -> u32 {
        self.completed_rows
    }

    /// The rows of a job: one for each column of pixels of the image.
    pub open spec fn spec_total_rows(&self) -> u32 {
        self.spec_config().spec_screen_width()
    }

    /// The configuration is legal, no more rows are completed than there are,
    /// and progress lies between 0 and 100. While a job runs, progress is the
    /// share of the rows that are completed.
    pub open spec fn wf(&self) -> bool {
        &&& self.spec_config().wf()
        &&& self.spec_completed_rows() <= self.spec_total_rows()
        &&& self.spec_progress() <= 100
        &&& self.spec_is_rendering() ==> self.spec_progress() == percent_done(
            self.spec_completed_rows(),
            self.spec_total_rows(),
        )
    }

    /// Everything but the standing of the current job is as in `other`.
    pub open spec fn same_setup(&self, other: &Raytracer) -> bool {
        &&& self.spec_config() == other.spec_config()
        &&& self.spec_scene() == other.spec_scene()
        &&& self.spec_rendering_mode() == other.spec_rendering_mode()
    }

    /// The standing of the current job is as in `other`.
    pub open spec fn same_job(&self, other: &Raytracer) -> bool {
        &&& self.spec_is_rendering() == other.spec_is_rendering()
        &&& self.spec_progress() == other.spec_progress()
        &&& self.spec_completed_rows() == other.spec_completed_rows()
    }

    /// A controller at rest. It starts in debug mode where the configuration
    /// asks for it, else in full mode.
    pub fn new(config: Config, scene: SceneType) -> (raytracer: Raytracer)
        requires
            config.wf(),
        ensures
            raytracer.wf(),
            raytracer.spec_config() == config,
            raytracer.spec_scene() == scene,
            raytracer.spec_rendering_mode() == if config.spec_debug() {
                RenderingMode::Debug
            } else {
                RenderingMode::Full
            },
            !raytracer.spec_interrupted(),
            !raytracer.spec_is_rendering(),
            raytracer.spec_progress() == 0,
            raytracer.spec_completed_rows() == 0,
    {
        let rendering_mode = if config.debug() {
            RenderingMode::Debug
        } else {
            RenderingMode::Full
        };
        Raytracer {
            config,
            scene,
            rendering_mode,
            interrupt: false,
            is_rendering: false,
            progress: 0,
            completed_rows: 0,
        }
    }

    #[verifier::when_used_as_spec(spec_config)]
    pub fn config(&self) -> (config: Config)
        ensures
            config == self.spec_config(),
    {
        self.config
    }

    #[verifier::when_used_as_spec(spec_scene)]
    pub fn scene(&self) -> (scene: SceneType)
        ensures
            scene == self.spec_scene(),
    {
        self.scene
    }

    #[verifier::when_used_as_spec(spec_rendering_mode)]
    pub fn rendering_mode(&self) -> (mode: RenderingMode)
        ensures
            mode == self.spec_rendering_mode(),
    {
        self.rendering_mode
    }

    /// Whether the current job was asked to stop.
    #[verifier::when_used_as_spec(spec_interrupted)]
    pub fn interrupted(&self) -> (interrupted: bool)
        ensures
            interrupted == self.spec_interrupted(),
    {
        self.interrupt
    }

    #[verifier::when_used_as_spec(spec_is_rendering)]
    pub fn is_rendering(&self) -> (rendering: bool)
        ensures
            rendering == self.spec_is_rendering(),
    {
        self.is_rendering
    }

    /// Progress of the current job, from 0 to 100.
    #[verifier::when_used_as_spec(spec_progress)]
    pub fn progress(&self) -> (percent: u32)
        ensures
            percent == self.spec_progress(),
    {
        self.progress
    }

    /// Asks the current job to stop at its next row. Nothing else changes.
    pub fn interrupt_render(&mut self)
        ensures
            final(self).spec_interrupted(),
            final(self).same_setup(old(self)),
            final(self).same_job(old(self)),
    {
        self.interrupt = true;
    }

    /// Interrupts, then changes from debug to full mode or back.
    pub fn toggle_rendering_mode(&mut self)
        ensures
            final(self).spec_interrupted(),
            final(self).spec_rendering_mode() == old(self).spec_rendering_mode().spec_toggled(),
            final(self).spec_config() == old(self).spec_config(),
            final(self).spec_scene() == old(self).spec_scene(),
            final(self).same_job(old(self)),
    {
        self.interrupt_render();
        self.rendering_mode = self.rendering_mode.toggled();
    }

    /// Interrupts, then makes `scene` the scene of the next render.
    pub fn set_scene(&mut self, scene: SceneType)
        ensures
            final(self).spec_interrupted(),
            final(self).spec_scene() == scene,
            final(self).spec_config() == old(self).spec_config(),
            final(self).spec_rendering_mode() == old(self).spec_rendering_mode(),
            final(self).same_job(old(self)),
    {
        self.interrupt_render();
        self.scene = scene;
    }

    /// Replaces the three render settings. Settings that are no legal
    /// configuration are refused, and then nothing changes.
    pub fn update_render_settings(
        &mut self,
        samples_per_pixel: u32,
        light_samples: u32,
        max_bounces: u32,
    ) -> (updated: Result<(), ConfigError>)
        requires
            old(self).wf(),
        ensures
            final(self).wf(),
            final(self).spec_scene() == old(self).spec_scene(),
            final(self).spec_rendering_mode() == old(self).spec_rendering_mode(),
            final(self).spec_interrupted() == old(self).spec_interrupted(),
            final(self).same_job(old(self)),
            match config_fault(
                old(self).spec_config().spec_screen_width(),
                old(self).spec_config().spec_screen_height(),
                samples_per_pixel,
                light_samples,
            ) {
                Some(fault) => updated == Err::<(), ConfigError>(fault) && final(self).spec_config()
                    == old(self).spec_config(),
                None => updated is Ok && final(self).spec_config().spec_samples_per_pixel()
                    == samples_per_pixel && final(self).spec_config().spec_light_samples()
                    == light_samples && final(self).spec_config().spec_bounces() == max_bounces
                    && final(self).spec_config().same_frame(&old(self).spec_config()),
            },
    {
        match self.config.with_render_settings(samples_per_pixel, light_samples, max_bounces) {
            Ok(config) => {
                self.config = config;
                Ok(())
            },
            Err(fault) => Err(fault),
        }
    }

    /// `after` is the controller at the start of a job begun from `self`: the
    /// interrupt is reset, the renderer is busy, and nothing is done yet.
    pub open spec fn begins(&self, after: &Raytracer) -> bool {
        &&& after.same_setup(self)
        &&& !after.spec_interrupted()
        &&& after.spec_is_rendering()
        &&& after.spec_progress() == 0
        &&& after.spec_completed_rows() == 0
    }

    /// Begins a render job: the interrupt is reset, the renderer is busy, and
    /// nothing is done yet. The answer is the configuration that the job
    /// renders with, whatever is set while it runs.
    pub fn begin_render(&mut self) -> (snapshot: Config)
        requires
            old(self).wf(),
        ensures
            final(self).wf(),
            old(self).begins(final(self)),
            snapshot == old(self).spec_config(),
    {
        self.interrupt = false;
        self.is_rendering = true;
        self.completed_rows = 0;
        self.progress = 0;
        self.config
    }

    /// The row that a job which renders its rows in order turns to next:
    /// `None` once the job was interrupted or every row is completed, and
    /// while no job runs.
    pub open spec fn spec_next_row(&self) -> Option<u32> {
        if self.spec_is_rendering() && !self.spec_interrupted() && self.spec_completed_rows()
            < self.spec_total_rows() {
            Some(self.spec_completed_rows())
        } else {
            None
        }
    }

    /// Decides at a row boundary how the job goes on: with the row handed
    /// out, or not at all.
    #[verifier::when_used_as_spec(spec_next_row)]
    pub fn next_row(&self) -> (row: Option<u32>)
        ensures
            row == self.spec_next_row(),
    {
        if self.is_rendering && !self.interrupt && self.completed_rows
            < self.config.screen_width() {
            Some(self.completed_rows)
        } else {
            None
        }
    }

    /// `after` is the controller one finished row after `self`: one more row
    /// is counted and progress is brought up to date. Without a running job,
    /// and once every row is counted, nothing changes.
    pub open spec fn row_finishes(&self, after: &Raytracer) -> bool {
        &&& after.same_setup(self)
        &&& after.spec_interrupted() == self.spec_interrupted()
        &&& after.spec_is_rendering() == self.spec_is_rendering()
        &&& after.spec_completed_rows() == if self.spec_is_rendering() && self.spec_completed_rows()
            < self.spec_total_rows() {
            (self.spec_completed_rows() + 1) as u32
        } else {
            self.spec_completed_rows()
        }
        &&& after.spec_progress() == if self.spec_is_rendering() {
            percent_done(after.spec_completed_rows(), self.spec_total_rows())
        } else {
            self.spec_progress()
        }
    }

    /// Counts one more row of the running job as completed and brings
    /// progress up to date. Without a running job, and once every row is
    /// counted, nothing changes. Progress never falls.
    pub fn row_finished(&mut self)
        requires
            old(self).wf(),
        ensures
            final(self).wf(),
            old(self).row_finishes(final(self)),
            old(self).spec_progress() <= final(self).spec_progress(),
    {
        let total: u32 = self.config.screen_width();
        if self.is_rendering && self.completed_rows < total {
            proof {
                lemma_percent_done_monotone(
                    self.completed_rows,
                    (self.completed_rows + 1) as u32,
                    total,
                );
            }
            self.completed_rows = self.completed_rows + 1;
            self.progress = progress_percent(self.completed_rows, total);
        }
    }

    /// `after` is the controller once the job of `self` has ended: the
    /// renderer is no longer busy. A job that was not interrupted leaves
    /// progress at 100; one that was interrupted leaves it where it stood.
    pub open spec fn finishes(&self, after: &Raytracer) -> bool {
        &&& after.same_setup(self)
        &&& after.spec_interrupted() == self.spec_interrupted()
        &&& !after.spec_is_rendering()
        &&& after.spec_completed_rows() == self.spec_completed_rows()
        &&& after.spec_progress() == if self.spec_interrupted() {
            self.spec_progress()
        } else {
            100
        }
    }

    /// Ends the render job. The renderer is no longer busy. A job that was
    /// not interrupted leaves progress at 100; one that was interrupted
    /// leaves it where it stood.
    pub fn finish_render(&mut self)
        requires
            old(self).wf(),
        ensures
            final(self).wf(),
            old(self).finishes(final(self)),
    {
        self.is_rendering = false;
        if !self.interrupt {
            self.progress = 100;
        }
    }
}

/// The states that a job passes through, one for each row that its workers
/// report as finished: the first is the start of the job, and each of the
/// others arises from the one before by one finished row.
pub open spec fn is_job(at_rest: Raytracer, states: Seq<Raytracer>) -> bool {
    &&& states.len() > 0
    &&& at_rest.begins(&states[0])
    &&& forall|k: int|
        #![trigger states[k]]
        0 < k < states.len() ==> states[k - 1].row_finishes(&states[k])
}

/// A job that nobody interrupts runs to its end. While it runs the
/// controller stays well-formed and is not interrupted; after `k` finished
/// rows it counts `k` rows, or all of them once there are no more, shows
/// their share as progress, and hands out row `k` next. Once every row is
/// finished it hands out no more, and progress is 100.
pub proof fn lemma_job_runs_to_its_end(at_rest: Raytracer, states: Seq<Raytracer>, k: int)
    requires
        at_rest.wf(),
        is_job(at_rest, states),
        0 <= k < states.len(),
    ensures
        states[k].wf(),
        states[k].same_setup(&at_rest),
        states[k].spec_is_rendering(),
        !states[k].spec_interrupted(),
        states[k].spec_completed_rows() == if k < at_rest.spec_total_rows() {
            k
        } else {
            at_rest.spec_total_rows() as int
        },
        states[k].spec_progress() == percent_done(
            states[k].spec_completed_rows(),
            at_rest.spec_total_rows(),
        ),
        states[k].spec_next_row() == if k < at_rest.spec_total_rows() {
            Some(k as u32)
        } else {
            None
        },
        k >= at_rest.spec_total_rows() ==> states[k].spec_progress() == 100,
    decreases k,
{
    lemma_percent_done_monotone(0, 0, at_rest.spec_total_rows());
    if k > 0 {
        lemma_job_runs_to_its_end(at_rest, states, k - 1);
        assert(states[k - 1].row_finishes(&states[k]));
        lemma_percent_done_monotone(
            states[k].spec_completed_rows(),
            states[k].spec_completed_rows(),
            at_rest.spec_total_rows(),
        );
    } else {
        let total = at_rest.spec_total_rows() as int;
        if total > 0 {
            assert(0int / total == 0) by (nonlinear_arith)
                requires
                    total > 0,
            ;
        }
    }
}

/// An interrupt stops a job: once the job is interrupted, no row is handed
/// out, however many rows its workers still report, and when it ends
/// progress stands where the last of those reports left it.
pub proof fn lemma_interrupt_stops_job(interrupted: Raytracer, states: Seq<Raytracer>, k: int)
    requires
        interrupted.spec_interrupted(),
        states.len() > 0,
        states[0] == interrupted,
        forall|j: int|
            #![trigger states[j]]
            0 < j < states.len() ==> states[j - 1].row_finishes(&states[j]),
        0 <= k < states.len(),
    ensures
        states[k].spec_interrupted(),
        states[k].spec_next_row() is None,
        forall|after: Raytracer|
            states[k].finishes(&after) ==> after.spec_progress() == states[k].spec_progress()
                && after.spec_next_row() is None,
    decreases k,
{
    if k > 0 {
        lemma_interrupt_stops_job(interrupted, states, k - 1);
        assert(states[k - 1].row_finishes(&states[k]));
    }
}

} // verus!
