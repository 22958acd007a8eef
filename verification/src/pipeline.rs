//! The presentation pipeline: a strictly ordered, fail-fast construction.
//!
//! Drawing to the window needs a chain of GPU objects, each built from the
//! previous one: graphics factory, device, render target, presentation
//! surface, drawable surface. The platform calls are made by the surrounding
//! binary; this state machine hands out the steps strictly in order and
//! stops at the first failure, so a later step is provably never attempted
//! after an earlier one has failed. It also fixes, as verified data, the
//! configuration each step must request.

use vstd::prelude::*;

verus! {

/// One step of the presentation pipeline, in construction order.
#[derive(Clone, Copy, Debug, PartialEq, Eq, Structural)]
pub enum PipelineStep {
    /// Create the graphics factory.
    Factory,
    /// Create the GPU device (with its own fallback protocol).
    Device,
    /// Create the render target bound to the device.
    RenderTarget,
    /// Create the buffered presentation surface bound to the window.
    PresentationSurface,
    /// Bind the presentation surface's back buffer as the drawable surface.
    DrawableSurface,
}

/// The number of pipeline steps.
pub const STEP_COUNT: usize = 5;

/// The construction order of the pipeline steps.
pub open spec fn step_order() -> Seq<PipelineStep> {
    seq![
        PipelineStep::Factory,
        PipelineStep::Device,
        PipelineStep::RenderTarget,
        PipelineStep::PresentationSurface,
        PipelineStep::DrawableSurface,
    ]
}

/// The position of a step in the construction order.
pub open spec fn step_index(s: PipelineStep) -> int {
    match s {
        PipelineStep::Factory => 0,
        PipelineStep::Device => 1,
        PipelineStep::RenderTarget => 2,
        PipelineStep::PresentationSurface => 3,
        PipelineStep::DrawableSurface => 4,
    }
}

/// A pipeline failure: the step that failed and its raw platform result code.
#[derive(Clone, Copy, Debug, PartialEq, Eq, Structural)]
pub struct StepFailure {
    /// The step whose platform call failed.
    pub step: PipelineStep,
    /// The raw platform result code of the failure.
    pub code: i32,
}

/// The pipeline build: which steps have completed, which step is owed next,
/// and the first failure, if any — after which nothing more is attempted.
pub struct PipelineBuild {
    done: usize,
    failure: Option<StepFailure>,
    attempted: Ghost<Seq<PipelineStep>>,
}

impl PipelineBuild {
    /// How many steps have completed successfully.
    pub closed spec fn done(&self) -> int {
        self.done as int
    }

    /// The first failure, if any step has failed.
    pub closed spec fn failure(&self) -> Option<StepFailure> {
        self.failure
    }

    /// Steps attempted so far, in order.
    pub closed spec fn attempted(&self) -> Seq<PipelineStep> {
        self.attempted@
    }

    /// Whether the whole chain has been constructed.
    pub open spec fn is_complete(&self) -> bool {
        self.done() == STEP_COUNT && self.failure() is None
    }

    /// The build invariant: completed steps are an in-order prefix of the
    /// construction order; the attempted steps are that prefix, plus the
    /// failed step if a step failed; after a failure nothing further is
    /// attempted.
    pub open spec fn wf(&self) -> bool {
        &&& 0 <= self.done() <= STEP_COUNT
        &&& (match self.failure() {
            None => self.attempted() == step_order().take(self.done()),
            Some(f) => {
                &&& step_index(f.step) == self.done()
                &&& self.attempted() == step_order().take(self.done() + 1)
            },
        })
    }

    /// A fresh build: nothing attempted, the factory step owed first.
    pub fn new() -> (p: PipelineBuild)
        ensures
            p.wf(),
            p.done() == 0,
            p.failure() is None,
            p.attempted() == Seq::<PipelineStep>::empty(),
    {
        let p = PipelineBuild { done: 0, failure: None, attempted: Ghost(Seq::empty()) };
        proof {
            assert(step_order().take(0) =~= Seq::<PipelineStep>::empty());
        }
        p
    }

    /// The step the caller must attempt next: the next step in construction
    /// order, or nothing once the chain is complete or a step has failed.
    pub fn next_step(&self) -> (s: Option<PipelineStep>)
        requires
            self.wf(),
        ensures
            (s matches Some(st) && st == step_order()[self.done()]) <==> (self.failure() is None
                && self.done() < STEP_COUNT),
            s is None <==> (self.failure() is Some || self.done() == STEP_COUNT),
    {
        if self.failure.is_some() || self.done >= STEP_COUNT {
            None
        } else {
            let s = match self.done {
                0 => PipelineStep::Factory,
                1 => PipelineStep::Device,
                2 => PipelineStep::RenderTarget,
                3 => PipelineStep::PresentationSurface,
                _ => PipelineStep::DrawableSurface,
            };
            Some(s)
        }
    }

    /// Report the result of the owed step's platform call. Success advances
    /// to the next step; any failure records the failed step and its code,
    /// and the build owes no further step — the whole pipeline aborts with
    /// the originating error.
    pub fn report(&mut self, result: Result<(), i32>)
        requires
            old(self).wf(),
            old(self).failure() is None,
            old(self).done() < STEP_COUNT,
        ensures
            final(self).wf(),
            final(self).attempted() == old(self).attempted().push(
                step_order()[old(self).done()],
            ),
            result is Ok ==> {
                &&& final(self).done() == old(self).done() + 1
                &&& final(self).failure() is None
            },
            result matches Err(code) ==> final(self).done() == old(self).done()
                && final(self).failure() == Some(
                    StepFailure { step: step_order()[old(self).done()], code: code },
                ),
    {
        let ghost current = step_order()[self.done as int];
        proof {
            self.attempted@ = self.attempted@.push(current);
            assert(step_order().take(self.done as int + 1) =~= step_order().take(
                self.done as int,
            ).push(current));
        }
        match result {
            Ok(()) => {
                self.done = self.done + 1;
            },
            Err(code) => {
                let step = match self.done {
                    0 => PipelineStep::Factory,
                    1 => PipelineStep::Device,
                    2 => PipelineStep::RenderTarget,
                    3 => PipelineStep::PresentationSurface,
                    _ => PipelineStep::DrawableSurface,
                };
                self.failure = Some(StepFailure { step, code });
            },
        }
    }

    /// Whether the whole resource chain is ready for the draw loop.
    pub fn is_ready(&self) -> (b: bool)
        ensures
            b == self.is_complete(),
    {
        self.failure.is_none() && self.done == STEP_COUNT
    }

    /// The first failure, if any.
    pub fn get_failure(&self) -> (f: Option<StepFailure>)
        ensures
            f == self.failure(),
    {
        self.failure
    }
}

/// The fail-fast law of the pipeline: steps are attempted strictly in
/// construction order, and once a step has failed, the attempted steps are
/// exactly the prefix ending at the failed step — no later step is ever
/// attempted after an earlier one fails.
pub proof fn lemma_fail_fast(p: PipelineBuild)
    requires
        p.wf(),
    ensures
        p.attempted().len() <= STEP_COUNT,
        forall|j: int| 0 <= j < p.attempted().len() ==> p.attempted()[j] == step_order()[j],
        p.failure() matches Some(f) ==> p.attempted() == step_order().take(step_index(f.step) + 1),
        p.failure() matches Some(f) ==> forall|j: int|
            0 <= j < p.attempted().len() ==> step_index(#[trigger] p.attempted()[j])
                <= step_index(f.step),
{
}

/// Configuration of the graphics factory: single-threaded access, with the
/// diagnostic level raised only in debug builds.
#[derive(Clone, Copy, Debug, PartialEq, Eq, Structural)]
pub struct FactoryConfig {
    /// The factory is created for single-threaded use.
    pub single_threaded: bool,
    /// Whether the factory reports diagnostic information.
    pub debug_info: bool,
}

/// The factory configuration the pipeline's first step must request.
pub fn factory_config(debug_build: bool) -> (c: FactoryConfig)
    ensures
        c.single_threaded,
        c.debug_info == debug_build,
{
    FactoryConfig { single_threaded: true, debug_info: debug_build }
}

/// Configuration of a device-creation attempt: color-channel-order support
/// always, the diagnostic layer only in debug builds.
#[derive(Clone, Copy, Debug, PartialEq, Eq, Structural)]
pub struct DeviceConfig {
    /// Request support for the interleaved color channel order the render
    /// target draws with.
    pub bgra_support: bool,
    /// Whether the device's diagnostic layer is enabled.
    pub debug_layer: bool,
}

/// The device configuration every device-creation attempt must request.
pub fn device_config(debug_build: bool) -> (c: DeviceConfig)
    ensures
        c.bgra_support,
        c.debug_layer == debug_build,
{
    DeviceConfig { bgra_support: true, debug_layer: debug_build }
}

/// Configuration of the render target bound to the device.
#[derive(Clone, Copy, Debug, PartialEq, Eq, Structural)]
pub struct RenderTargetConfig {
    /// Drawing coordinates are device-independent pixels, scaled by the
    /// display's DPI, rather than raw pixels.
    pub dips_unit_mode: bool,
}

/// The render-target configuration the pipeline's third step must request:
/// device-independent-pixel unit semantics. The DPI itself is read from the
/// display at run time and is not decided here.
pub fn render_target_config() -> (c: RenderTargetConfig)
    ensures
        c.dips_unit_mode,
{
    RenderTargetConfig { dips_unit_mode: true }
}

/// Configuration of the presentation surface bound to the window.
#[derive(Clone, Copy, Debug, PartialEq, Eq, Structural)]
pub struct SurfaceConfig {
    /// Number of buffers the surface alternates between.
    pub buffer_count: u32,
    /// One sample per pixel: no multisampling.
    pub sample_count: u32,
    /// Default sample quality.
    pub sample_quality: u32,
    /// Buffers flip in sequence rather than being copied.
    pub flip_sequential: bool,
    /// Buffers are usable as render-target output.
    pub render_target_usage: bool,
    /// Buffers use the fixed interleaved blue-green-red-alpha pixel format.
    pub bgra_format: bool,
}

/// The presentation-surface configuration the pipeline's fourth step must
/// request: double-buffered, single-sampled, sequential flip, render-target
/// output, fixed pixel format.
pub fn surface_config() -> (c: SurfaceConfig)
    ensures
        c.buffer_count == 2,
        c.sample_count == 1,
        c.sample_quality == 0,
        c.flip_sequential,
        c.render_target_usage,
        c.bgra_format,
{
    SurfaceConfig {
        buffer_count: 2,
        sample_count: 1,
        sample_quality: 0,
        flip_sequential: true,
        render_target_usage: true,
        bgra_format: true,
    }
}

/// Configuration of the drawable surface bound into the render target.
#[derive(Clone, Copy, Debug, PartialEq, Eq, Structural)]
pub struct DrawableConfig {
    /// Fixed DPI of the drawable surface.
    pub dpi: u32,
    /// The surface is a drawing target.
    pub target: bool,
    /// The surface cannot itself be used as a drawing source.
    pub cannot_draw: bool,
    /// The surface uses the same fixed pixel format as the presentation
    /// surface, with the alpha channel ignored.
    pub bgra_format: bool,
    /// The alpha channel is ignored when the surface is shown.
    pub alpha_ignored: bool,
}

/// The drawable-surface configuration the pipeline's last step must request:
/// fixed 96 DPI, a target that cannot be drawn from, the fixed pixel format
/// with alpha ignored.
pub fn drawable_config() -> (c: DrawableConfig)
    ensures
        c.dpi == 96,
        c.target,
        c.cannot_draw,
        c.bgra_format,
        c.alpha_ignored,
{
    DrawableConfig {
        dpi: 96,
        target: true,
        cannot_draw: true,
        bgra_format: true,
        alpha_ignored: true,
    }
}

} // verus!
