//! The per-view, per-frame step: decide from what is available whether to
//! draw, and what the draw leaves in the colour target.
use vstd::prelude::*;
use crate::edges::Normal;
use crate::image::Image;
use crate::pipeline::{fullscreen_draw, fullscreen_draw_spec, DrawCall};
use crate::settings::{Rgba, SimpletoonSettings};
use crate::shading::{composite, toon_composite};

verus! {

/// What the host has ready for one view in this frame.
#[derive(Clone, Copy, Debug, PartialEq, Eq, Structural)]
pub struct ViewBindings {
    /// The compiled program is in the pipeline cache.
    pub pipeline_ready: bool,
    /// The view uniform buffer can be bound.
    pub view_uniforms_bound: bool,
    /// The settings buffer of all cameras can be bound.
    pub settings_bound: bool,
    /// This view's slice of the settings buffer.
    pub settings_index: u32,
    /// This view's offset into the view uniform buffer.
    pub view_offset: u32,
}

/// Why a view is not drawn in this frame. Each is recovered from on a later
/// frame once the resource is there.
#[derive(Clone, Copy, Debug, PartialEq, Eq, Structural)]
pub enum SkipReason {
    PipelineNotReady,
    ViewUniformsUnbound,
    SettingsUnbound,
    /// The camera's settings are not usable (fewer than one colour band): a
    /// configuration error, reported and not clamped.
    InvalidSettings,
    /// The depth or the normal prepass texture is absent: the camera lacks a
    /// prepass, which is worth a diagnostic.
    PrepassMissing,
}

#[derive(Clone, Copy, Debug, PartialEq, Eq, Structural)]
pub enum NodeAction {
    Skip(SkipReason),
    Draw(DrawCall),
}

/// The decision, checking in order: program, view uniforms, settings buffer,
/// settings values, prepass textures.
pub open spec fn plan_spec(
    b: ViewBindings,
    settings_valid: bool,
    has_depth: bool,
    has_normal: bool,
) -> NodeAction {
    if !b.pipeline_ready {
        NodeAction::Skip(SkipReason::PipelineNotReady)
    } else if !b.view_uniforms_bound {
        NodeAction::Skip(SkipReason::ViewUniformsUnbound)
    } else if !b.settings_bound {
        NodeAction::Skip(SkipReason::SettingsUnbound)
    } else if !settings_valid {
        NodeAction::Skip(SkipReason::InvalidSettings)
    } else if !(has_depth && has_normal) {
        NodeAction::Skip(SkipReason::PrepassMissing)
    } else {
        NodeAction::Draw(fullscreen_draw_spec(b.settings_index, b.view_offset))
    }
}

/// Decides whether the view is drawn in this frame, and with which draw.
pub fn plan_view(b: &ViewBindings, settings_valid: bool, has_depth: bool, has_normal: bool) -> (a: NodeAction)
    ensures
        a == plan_spec(*b, settings_valid, has_depth, has_normal),
{
    if !b.pipeline_ready {
        NodeAction::Skip(SkipReason::PipelineNotReady)
    } else if !b.view_uniforms_bound {
        NodeAction::Skip(SkipReason::ViewUniformsUnbound)
    } else if !b.settings_bound {
        NodeAction::Skip(SkipReason::SettingsUnbound)
    } else if !settings_valid {
        NodeAction::Skip(SkipReason::InvalidSettings)
    } else if !(has_depth && has_normal) {
        NodeAction::Skip(SkipReason::PrepassMissing)
    } else {
        NodeAction::Draw(fullscreen_draw(b.settings_index, b.view_offset))
    }
}

impl SkipReason {
    /// Whether the skip is a configuration hint worth reporting.
    pub fn needs_diagnostic(&self) -> (r: bool)
        ensures
            r <==> (*self == SkipReason::PrepassMissing || *self == SkipReason::InvalidSettings),
    {
        match self {
            SkipReason::PrepassMissing => true,
            SkipReason::InvalidSettings => true,
            _ => false,
        }
    }
}

/// The prepass images that came with a view fit its colour target.
pub open spec fn prepass_fits(
    target: Image<Rgba>,
    depth: Option<Image<u32>>,
    normal: Option<Image<Normal>>,
) -> bool {
    &&& target.wf()
    &&& depth matches Some(d) ==> d.wf() && d.same_size(&target)
    &&& normal matches Some(n) ==> n.wf() && n.same_size(&target)
}

/// The texels of the colour target after one run of the step.
pub open spec fn texels_after(
    b: ViewBindings,
    s: SimpletoonSettings,
    target: Image<Rgba>,
    depth: Option<Image<u32>>,
    normal: Option<Image<Normal>>,
) -> Seq<Rgba> {
    if plan_spec(b, s.wf(), depth is Some, normal is Some) is Draw {
        composite(s, target, depth->0, normal->0)
    } else {
        target.texels@
    }
}

/// Runs the step for one view on the host's side: on a skip the colour target
/// is left as it was; on a draw every texel is computed from the previous
/// contents, which are read whole before any is replaced.
pub fn run_view(
    b: &ViewBindings,
    s: &SimpletoonSettings,
    target: &mut Image<Rgba>,
    depth: &Option<Image<u32>>,
    normal: &Option<Image<Normal>>,
) -> (a: NodeAction)
    requires
        prepass_fits(*old(target), *depth, *normal),
    ensures
        a == plan_spec(*b, s.wf(), depth is Some, normal is Some),
        final(target).wf(),
        final(target).same_size(old(target)),
        final(target).texels@ == texels_after(*b, *s, *old(target), *depth, *normal),
        a is Skip ==> final(target).texels@ == old(target).texels@,
{
    let a = plan_view(b, s.validate().is_ok(), depth.is_some(), normal.is_some());
    match (&a, depth, normal) {
        (NodeAction::Draw(_), Some(d), Some(n)) => {
            let out = toon_composite(s, target, d, n);
            *target = out;
        },
        _ => {},
    }
    a
}

/// With every other resource ready, a frame without a prepass texture leaves
/// the colour target as it was, and the next frame that has both draws the
/// full composite of it.
pub proof fn lemma_skip_then_draw(
    b: ViewBindings,
    s: SimpletoonSettings,
    target: Image<Rgba>,
    depth: Option<Image<u32>>,
    normal: Option<Image<Normal>>,
    later_depth: Image<u32>,
    later_normal: Image<Normal>,
)
    requires
        b.pipeline_ready,
        b.view_uniforms_bound,
        b.settings_bound,
        s.wf(),
        depth is None || normal is None,
    ensures
        plan_spec(b, true, depth is Some, normal is Some) == NodeAction::Skip(
            SkipReason::PrepassMissing,
        ),
        texels_after(b, s, target, depth, normal) == target.texels@,
        plan_spec(b, true, true, true) == NodeAction::Draw(
            fullscreen_draw_spec(b.settings_index, b.view_offset),
        ),
        texels_after(b, s, target, Some(later_depth), Some(later_normal)) == composite(
            s,
            target,
            later_depth,
            later_normal,
        ),
{
}

} // verus!
