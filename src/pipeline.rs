//! What the pass declares once: its binding layout, its draw and its place
//! among the passes of a frame.
use vstd::prelude::*;

verus! {

/// One binding slot of the fragment program, in the order it reads them.
#[derive(Clone, Copy, Debug, PartialEq, Eq, Structural)]
pub enum BindingSlot {
    /// The colour produced by the previous pass: a filterable float 2D texture.
    ColourSource,
    /// A filtering sampler for the colour source.
    Sampler,
    /// The settings block, at a per-draw offset into the array of all cameras.
    Settings,
    /// The depth prepass: a depth 2D texture.
    Depth,
    /// The normal prepass: a filterable float 2D texture.
    Normal,
    /// The view uniform block, at a per-draw offset.
    View,
}

/// The binding layout: six slots in a fixed order, shared with the fragment
/// program's source.
pub open spec fn layout_spec() -> Seq<BindingSlot> {
    seq![
        BindingSlot::ColourSource,
        BindingSlot::Sampler,
        BindingSlot::Settings,
        BindingSlot::Depth,
        BindingSlot::Normal,
        BindingSlot::View,
    ]
}

pub fn binding_layout() -> (r: Vec<BindingSlot>)
    ensures
        r@ == layout_spec(),
{
    let r = vec![
        BindingSlot::ColourSource,
        BindingSlot::Sampler,
        BindingSlot::Settings,
        BindingSlot::Depth,
        BindingSlot::Normal,
        BindingSlot::View,
    ];
    assert(r@ =~= layout_spec());
    r
}

impl BindingSlot {
    /// Whether the slot is bound at a per-draw dynamic offset.
    pub open spec fn spec_is_dynamic(&self) -> bool {
        *self == BindingSlot::Settings || *self == BindingSlot::View
    }

    pub fn is_dynamic(&self) -> (r: bool)
        ensures
            r == self.spec_is_dynamic(),
    {
        match self {
            BindingSlot::Settings => true,
            BindingSlot::View => true,
            _ => false,
        }
    }
}

/// One full-screen draw: `vertex_count` procedural vertices, no vertex
/// buffer, with the dynamic offsets of the settings and view slots.
#[derive(Clone, Copy, Debug, PartialEq, Eq, Structural)]
pub struct DrawCall {
    pub vertex_count: u32,
    pub instance_count: u32,
    pub settings_index: u32,
    pub view_offset: u32,
}

/// The full-screen triangle: three vertices, one instance.
pub open spec fn fullscreen_draw_spec(settings_index: u32, view_offset: u32) -> DrawCall {
    DrawCall { vertex_count: 3, instance_count: 1, settings_index, view_offset }
}

pub fn fullscreen_draw(settings_index: u32, view_offset: u32) -> (d: DrawCall)
    ensures
        d == fullscreen_draw_spec(settings_index, view_offset),
{
    DrawCall { vertex_count: 3, instance_count: 1, settings_index, view_offset }
}

impl DrawCall {
    /// The dynamic offsets, in the order of the dynamic slots of the layout.
    pub fn dynamic_offsets(&self) -> (r: Vec<u32>)
        ensures
            r@ == seq![self.settings_index, self.view_offset],
    {
        let r = vec![self.settings_index, self.view_offset];
        assert(r@ =~= seq![self.settings_index, self.view_offset]);
        r
    }
}

/// A pass of the frame that this one is ordered against.
#[derive(Clone, Copy, Debug, PartialEq, Eq, Structural)]
pub enum GraphNode {
    Tonemapping,
    Simpletoon,
    Fxaa,
    EndMainPassPostProcessing,
}

/// The pass runs after tone mapping and before anti-aliasing and the end of
/// the main pass's post-processing.
pub open spec fn pass_order_spec() -> Seq<GraphNode> {
    seq![
        GraphNode::Tonemapping,
        GraphNode::Simpletoon,
        GraphNode::Fxaa,
        GraphNode::EndMainPassPostProcessing,
    ]
}

/// The chain of passes, each running before the next.
pub fn pass_order() -> (r: Vec<GraphNode>)
    ensures
        r@ == pass_order_spec(),
{
    let r = vec![
        GraphNode::Tonemapping,
        GraphNode::Simpletoon,
        GraphNode::Fxaa,
        GraphNode::EndMainPassPostProcessing,
    ];
    assert(r@ =~= pass_order_spec());
    r
}

} // verus!
