//! The bind-group layout that the depth-of-field shader reads from.
//!
//! Every entry is visible to the fragment stage and views a 2D resource.
use vstd::prelude::*;

verus! {

/// How a sampled texture is read.
#[derive(Clone, Copy, Debug, PartialEq, Eq, Structural)]
pub enum SampleKind {
    /// Filterable floating-point colour.
    FilterableFloat,
    /// Depth values.
    Depth,
}

/// The resource kind that one binding slot holds.
#[derive(Clone, Copy, Debug, PartialEq, Eq, Structural)]
pub enum BindingKind {
    /// A 2D texture, sampled as `sample`.
    Texture { sample: SampleKind, multisampled: bool },
    /// A filtering sampler.
    FilteringSampler,
    /// A uniform buffer of at least `min_size` bytes.
    UniformBuffer { dynamic_offset: bool, min_size: u64 },
}

/// One slot of the layout.
#[derive(Clone, Copy, Debug, PartialEq, Eq, Structural)]
pub struct LayoutEntry {
    pub binding: u32,
    pub kind: BindingKind,
}

/// Slot of the rendered colour image.
pub const COLOR_BINDING: u32 = 0;
/// Slot of the depth buffer.
pub const DEPTH_BINDING: u32 = 1;
/// Slot of the sampler used for both textures.
pub const SAMPLER_BINDING: u32 = 2;
/// Slot of the per-camera settings uniform.
pub const SETTINGS_BINDING: u32 = 3;

/// The kind of the colour slot.
pub open spec fn color_kind() -> BindingKind {
    BindingKind::Texture { sample: SampleKind::FilterableFloat, multisampled: false }
}

/// The kind of the depth slot.
pub open spec fn depth_kind() -> BindingKind {
    BindingKind::Texture { sample: SampleKind::Depth, multisampled: false }
}

/// The kind of the settings slot, for a uniform of `min_size` bytes.
pub open spec fn settings_kind(min_size: u64) -> BindingKind {
    BindingKind::UniformBuffer { dynamic_offset: false, min_size }
}

/// The effect's layout: colour, depth, sampler and settings, in that order.
pub open spec fn dof_layout(min_size: u64) -> Seq<LayoutEntry> {
    seq![
        LayoutEntry { binding: COLOR_BINDING, kind: color_kind() },
        LayoutEntry { binding: DEPTH_BINDING, kind: depth_kind() },
        LayoutEntry { binding: SAMPLER_BINDING, kind: BindingKind::FilteringSampler },
        LayoutEntry { binding: SETTINGS_BINDING, kind: settings_kind(min_size) },
    ]
}

/// The entries are numbered from zero in the order they are listed, so
/// that each binding number names exactly one slot.
pub open spec fn is_dense(s: Seq<LayoutEntry>) -> bool {
    forall|i: int| 0 <= i < s.len() ==> (#[trigger] s[i]).binding == i
}

/// No two entries hold the same kind of resource.
pub open spec fn kinds_distinct(s: Seq<LayoutEntry>) -> bool {
    forall|i: int, j: int|
        0 <= i < s.len() && 0 <= j < s.len() && i != j ==> (#[trigger] s[i]).kind != (#[trigger] s[j]).kind
}

/// A layout a shader can be bound against: densely numbered, with each
/// kind of resource in one slot only, and a non-empty uniform wherever one
/// is bound.
pub open spec fn is_valid_layout(s: Seq<LayoutEntry>) -> bool {
    &&& is_dense(s)
    &&& kinds_distinct(s)
    &&& forall|i: int| 0 <= i < s.len() ==> match (#[trigger] s[i]).kind {
        BindingKind::UniformBuffer { min_size, .. } => min_size > 0,
        _ => true,
    }
}

/// Builds the effect's layout. `uniform_min_size` is the size of the
/// settings uniform as the shader sees it.
pub fn dof_layout_entries(uniform_min_size: u64) -> (r: Vec<LayoutEntry>)
    ensures
        r@ == dof_layout(uniform_min_size),
{
    let r = vec![
        LayoutEntry {
            binding: COLOR_BINDING,
            kind: BindingKind::Texture { sample: SampleKind::FilterableFloat, multisampled: false },
        },
        LayoutEntry {
            binding: DEPTH_BINDING,
            kind: BindingKind::Texture { sample: SampleKind::Depth, multisampled: false },
        },
        LayoutEntry { binding: SAMPLER_BINDING, kind: BindingKind::FilteringSampler },
        LayoutEntry {
            binding: SETTINGS_BINDING,
            kind: BindingKind::UniformBuffer { dynamic_offset: false, min_size: uniform_min_size },
        },
    ];
    assert(r@ =~= dof_layout(uniform_min_size));
    r
}

/// Whether `entries` is a valid layout.
pub fn is_valid(entries: &Vec<LayoutEntry>) -> (r: bool)
    ensures
        r == is_valid_layout(entries@),
{
    let n = entries.len();
    let mut i: usize = 0;
    while i < n
        invariant
            n == entries@.len(),
            i <= n,
            forall|k: int| 0 <= k < i ==> (#[trigger] entries@[k]).binding == k,
            forall|k: int| 0 <= k < i ==> match (#[trigger] entries@[k]).kind {
                BindingKind::UniformBuffer { min_size, .. } => min_size > 0,
                _ => true,
            },
            forall|a: int, b: int|
                0 <= a < i && 0 <= b < n && a != b ==> (#[trigger] entries@[a]).kind
                    != (#[trigger] entries@[b]).kind,
        decreases n - i,
    {
        let e = entries[i];
        if e.binding as usize != i {
            assert(entries@[i as int].binding != i);
            return false;
        }
        match e.kind {
            BindingKind::UniformBuffer { min_size, .. } => {
                if min_size == 0 {
                    return false;
                }
            },
            _ => {},
        }
        let mut j: usize = 0;
        while j < n
            invariant
                n == entries@.len(),
                i < n,
                j <= n,
                e == entries@[i as int],
                forall|b: int| 0 <= b < j && b != i ==> e.kind != (#[trigger] entries@[b]).kind,
            decreases n - j,
        {
            if j != i && entries[j].kind == e.kind {
                assert(entries@[i as int].kind == entries@[j as int].kind);
                return false;
            }
            j = j + 1;
        }
        i = i + 1;
    }
    true
}

/// The binding number of the first slot that holds `kind`, if any.
pub fn binding_of(entries: &Vec<LayoutEntry>, kind: BindingKind) -> (r: Option<u32>)
    ensures
        r is None <==> forall|i: int| 0 <= i < entries@.len() ==> (#[trigger] entries@[i]).kind != kind,
        r matches Some(b) ==> exists|i: int|
            0 <= i < entries@.len() && (#[trigger] entries@[i]).kind == kind && entries@[i].binding == b
                && forall|j: int| 0 <= j < i ==> (#[trigger] entries@[j]).kind != kind,
{
    let mut i: usize = 0;
    while i < entries.len()
        invariant
            i <= entries@.len(),
            forall|j: int| 0 <= j < i ==> (#[trigger] entries@[j]).kind != kind,
        decreases entries@.len() - i,
    {
        if entries[i].kind == kind {
            return Some(entries[i].binding);
        }
        i = i + 1;
    }
    None
}

/// The effect's layout is valid whenever the settings uniform is non-empty.
pub proof fn lemma_dof_layout_valid(min_size: u64)
    requires
        min_size > 0,
    ensures
        is_valid_layout(dof_layout(min_size)),
{
    let s = dof_layout(min_size);
    assert(is_dense(s));
    assert(kinds_distinct(s));
}

} // verus!
