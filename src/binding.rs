//! The resource layout that a heatmap's fragment shader sees.

use vstd::prelude::*;

verus! {

/// What a binding slot holds.
#[derive(Clone, Copy, Debug, PartialEq, Eq, Structural)]
pub enum BindingKind {
    /// A filterable 2D texture of float samples, not multisampled.
    FilterableTexture2d,
    /// A filtering sampler.
    FilteringSampler,
}

/// One entry of a bind-group layout, visible to the fragment stage.
#[derive(Clone, Copy, Debug, PartialEq, Eq, Structural)]
pub struct LayoutEntry {
    pub binding: u32,
    pub kind: BindingKind,
}

/// The layout of a colormap: binding 0 is the texture, binding 1 its sampler.
pub open spec fn colormap_layout_spec() -> Seq<LayoutEntry> {
    seq![
        LayoutEntry { binding: 0, kind: BindingKind::FilterableTexture2d },
        LayoutEntry { binding: 1, kind: BindingKind::FilteringSampler },
    ]
}

/// The bind-group layout of a colormap.
pub fn colormap_layout() -> (entries: Vec<LayoutEntry>)
    ensures
        entries@ == colormap_layout_spec(),
{
    let entries = vec![
        LayoutEntry { binding: 0, kind: BindingKind::FilterableTexture2d },
        LayoutEntry { binding: 1, kind: BindingKind::FilteringSampler },
    ];
    assert(entries@ =~= colormap_layout_spec());
    entries
}

} // verus!
