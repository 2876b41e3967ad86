//! The transform pipeline: which operations run on an image, with which
//! parameters, and in which order.
//!
//! Scale factors and blur sigmas are fixed-point values in thousandths
//! (a scale of 1500 means one and a half times the original size), so all
//! clamping, activation and ordering rules are plain integer logic.

use vstd::prelude::*;

verus! {

/// One whole, in thousandths: the scale that leaves the size unchanged.
pub const SCALE_ONE: u32 = 1000;

/// Lower clamp for the scale factor (a tenth of the original size).
pub const SCALE_MIN: u32 = 100;

/// Upper clamp for the scale factor (three times the original size).
pub const SCALE_MAX: u32 = 3000;

/// A requested blur sigma must exceed this value (a tenth) to do any work;
/// at or below it the blur stage is skipped entirely.
pub const BLUR_GATE: u32 = 100;

/// Lower clamp for an active blur sigma (a fifth).
pub const BLUR_SIGMA_MIN: u32 = 200;

/// Upper clamp for an active blur sigma (twenty).
pub const BLUR_SIGMA_MAX: u32 = 20000;

/// The optional transform parameters of one request, as they arrive from
/// the query string. Absent parameters mean "leave the image alone".
/// `scale` and `blur` are in thousandths.
#[derive(Clone, Copy, Debug)]
pub struct Ops {
    pub fliph: Option<bool>,
    pub flipv: Option<bool>,
    pub scale: Option<u32>,
    pub blur: Option<u32>,
}

/// One step of the pipeline, in execution order.
#[derive(PartialEq, Eq, Structural, Clone, Copy, Debug)]
pub enum Step {
    FlipH,
    FlipV,
    /// Gaussian blur with the clamped sigma, in thousandths.
    Blur(u32),
    /// Lanczos resample by the effective scale, in thousandths.
    Resize(u32),
}

/// The requested scale (or one, when absent) clamped into
/// [`SCALE_MIN`, `SCALE_MAX`].
pub open spec fn spec_effective_scale(ops: Ops) -> u32 {
    let requested = match ops.scale {
        Some(s) => s,
        None => SCALE_ONE,
    };
    if requested < SCALE_MIN {
        SCALE_MIN
    } else if requested > SCALE_MAX {
        SCALE_MAX
    } else {
        requested
    }
}

/// The sigma the blur stage will run with: `None` unless a sigma above
/// `BLUR_GATE` was requested, else that sigma clamped into
/// [`BLUR_SIGMA_MIN`, `BLUR_SIGMA_MAX`].
pub open spec fn spec_blur_sigma(ops: Ops) -> Option<u32> {
    match ops.blur {
        Some(s) => if s > BLUR_GATE {
            Some(
                if s < BLUR_SIGMA_MIN {
                    BLUR_SIGMA_MIN
                } else if s > BLUR_SIGMA_MAX {
                    BLUR_SIGMA_MAX
                } else {
                    s
                },
            )
        } else {
            None
        },
        None => None,
    }
}

/// The filter steps (everything but the resample), in their fixed order:
/// horizontal flip, then vertical flip, then blur.
pub open spec fn spec_filters(ops: Ops) -> Seq<Step> {
    (if ops.fliph == Some(true) {
        seq![Step::FlipH]
    } else {
        Seq::empty()
    }) + (if ops.flipv == Some(true) {
        seq![Step::FlipV]
    } else {
        Seq::empty()
    }) + (match spec_blur_sigma(ops) {
        Some(s) => seq![Step::Blur(s)],
        None => Seq::empty(),
    })
}

/// The whole pipeline. Downscales run before the filters (no work is spent
/// on pixels about to be discarded); upscales run after them (the filters
/// see the original raster); a scale of exactly one adds no resample step.
pub open spec fn spec_plan(ops: Ops) -> Seq<Step> {
    let s = spec_effective_scale(ops);
    if s < SCALE_ONE {
        seq![Step::Resize(s)] + spec_filters(ops)
    } else if s == SCALE_ONE {
        spec_filters(ops)
    } else {
        spec_filters(ops) + seq![Step::Resize(s)]
    }
}

/// True of every step but the resample.
pub open spec fn is_filter(step: Step) -> bool {
    match step {
        Step::Resize(_) => false,
        _ => true,
    }
}

/// One dimension after scaling: the product rounded to the nearest pixel
/// (halves up), capped at the largest representable dimension.
pub open spec fn spec_scaled_dim(dim: u32, scale: u32) -> u32 {
    let r = ((dim * scale) + 500) / 1000;
    if r > u32::MAX {
        u32::MAX
    } else {
        r as u32
    }
}

/// One dimension after scaling by `scale` thousandths, rounded to nearest.
pub fn scaled_dim(dim: u32, scale: u32) -> (r: u32)
    ensures
        r == spec_scaled_dim(dim, scale),
{
    proof {
        assert((dim as int) * (scale as int) <= (u32::MAX as int) * (u32::MAX as int))
            by (nonlinear_arith)
            requires
                dim <= u32::MAX,
                scale <= u32::MAX,
        ;
    }
    let wide: u64 = (dim as u64) * (scale as u64) + 500;
    let q: u64 = wide / 1000;
    if q > u32::MAX as u64 {
        u32::MAX
    } else {
        q as u32
    }
}

impl Ops {
    /// The scale factor the pipeline will use, in thousandths.
    pub fn effective_scale(&self) -> (r: u32)
        ensures
            r == spec_effective_scale(*self),
    {
        let requested = match self.scale {
            Some(s) => s,
            None => SCALE_ONE,
        };
        if requested < SCALE_MIN {
            SCALE_MIN
        } else if requested > SCALE_MAX {
            SCALE_MAX
        } else {
            requested
        }
    }

    /// The sigma the blur stage will run with, if it runs at all.
    pub fn blur_sigma(&self) -> (r: Option<u32>)
        ensures
            r == spec_blur_sigma(*self),
    {
        match self.blur {
            Some(s) => if s > BLUR_GATE {
                Some(
                    if s < BLUR_SIGMA_MIN {
                        BLUR_SIGMA_MIN
                    } else if s > BLUR_SIGMA_MAX {
                        BLUR_SIGMA_MAX
                    } else {
                        s
                    },
                )
            } else {
                None
            },
            None => None,
        }
    }

    /// The ordered list of steps this request runs.
    pub fn plan(&self) -> (r: Vec<Step>)
        ensures
            r@ == spec_plan(*self),
    {
        let mut steps: Vec<Step> = Vec::new();
        let s = self.effective_scale();
        if s < SCALE_ONE {
            steps.push(Step::Resize(s));
        }
        if matches!(self.fliph, Some(true)) {
            steps.push(Step::FlipH);
        }
        if matches!(self.flipv, Some(true)) {
            steps.push(Step::FlipV);
        }
        if let Some(sigma) = self.blur_sigma() {
            steps.push(Step::Blur(sigma));
        }
        if s > SCALE_ONE {
            steps.push(Step::Resize(s));
        }
        proof {
            assert(steps@ =~= spec_plan(*self));
        }
        steps
    }
}

/// Every step of the filter stage is a filter: the resample never hides
/// among the flips and the blur.
pub proof fn lemma_filters_are_filters(ops: Ops)
    ensures
        forall|i: int|
            0 <= i < spec_filters(ops).len() ==> is_filter(#[trigger] spec_filters(ops)[i]),
{
}

/// When the effective scale is below one, the plan resamples first and
/// every later step is a filter: the flips and the blur act on the already
/// downscaled raster.
pub proof fn lemma_downscale_first(ops: Ops)
    requires
        spec_effective_scale(ops) < SCALE_ONE,
    ensures
        spec_plan(ops).len() >= 1,
        spec_plan(ops)[0] == Step::Resize(spec_effective_scale(ops)),
        forall|i: int| 1 <= i < spec_plan(ops).len() ==> is_filter(#[trigger] spec_plan(ops)[i]),
{
    lemma_filters_are_filters(ops);
    assert forall|i: int| 1 <= i < spec_plan(ops).len() implies is_filter(
        #[trigger] spec_plan(ops)[i],
    ) by {
        assert(spec_plan(ops)[i] == spec_filters(ops)[i - 1]);
    }
}

/// When the effective scale is above one, the plan resamples last and every
/// earlier step is a filter: the flips and the blur act on the raster at its
/// original resolution, before the upscale.
pub proof fn lemma_upscale_last(ops: Ops)
    requires
        spec_effective_scale(ops) > SCALE_ONE,
    ensures
        spec_plan(ops).len() >= 1,
        spec_plan(ops).last() == Step::Resize(spec_effective_scale(ops)),
        forall|i: int|
            0 <= i < spec_plan(ops).len() - 1 ==> is_filter(#[trigger] spec_plan(ops)[i]),
{
    lemma_filters_are_filters(ops);
    assert forall|i: int| 0 <= i < spec_plan(ops).len() - 1 implies is_filter(
        #[trigger] spec_plan(ops)[i],
    ) by {
        assert(spec_plan(ops)[i] == spec_filters(ops)[i]);
    }
}

/// When the effective scale is exactly one, the plan holds no resample step
/// at all: only filters run.
pub proof fn lemma_no_resample_at_one(ops: Ops)
    requires
        spec_effective_scale(ops) == SCALE_ONE,
    ensures
        forall|i: int| 0 <= i < spec_plan(ops).len() ==> is_filter(#[trigger] spec_plan(ops)[i]),
{
    lemma_filters_are_filters(ops);
}

/// A requested blur at or below the activation gate is a no-op: the request
/// plans exactly the same steps as the same request with no blur at all.
pub proof fn lemma_blur_gate_noop(ops: Ops, quiet: Ops)
    requires
        match ops.blur {
            Some(s) => s <= BLUR_GATE,
            None => true,
        },
        quiet == (Ops { fliph: ops.fliph, flipv: ops.flipv, scale: ops.scale, blur: None }),
    ensures
        spec_plan(ops) == spec_plan(quiet),
{
    assert(spec_blur_sigma(ops) == spec_blur_sigma(quiet));
}

} // verus!
