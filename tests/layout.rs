use depth_of_field::layout::{
    binding_of, dof_layout_entries, is_valid, BindingKind, LayoutEntry, SampleKind, COLOR_BINDING,
    DEPTH_BINDING, SAMPLER_BINDING, SETTINGS_BINDING,
};

fn color() -> BindingKind {
    BindingKind::Texture { sample: SampleKind::FilterableFloat, multisampled: false }
}

fn depth() -> BindingKind {
    BindingKind::Texture { sample: SampleKind::Depth, multisampled: false }
}

#[test]
fn effect_layout_lists_four_slots_in_order() {
    let entries = dof_layout_entries(16);
    assert_eq!(
        entries,
        vec![
            LayoutEntry { binding: 0, kind: color() },
            LayoutEntry { binding: 1, kind: depth() },
            LayoutEntry { binding: 2, kind: BindingKind::FilteringSampler },
            LayoutEntry {
                binding: 3,
                kind: BindingKind::UniformBuffer { dynamic_offset: false, min_size: 16 },
            },
        ]
    );
}

#[test]
fn effect_layout_is_valid() {
    assert!(is_valid(&dof_layout_entries(16)));
    assert!(is_valid(&dof_layout_entries(u64::MAX)));
}

#[test]
fn empty_layout_is_valid() {
    assert!(is_valid(&Vec::new()));
}

#[test]
fn empty_uniform_is_invalid() {
    assert!(!is_valid(&dof_layout_entries(0)));
}

#[test]
fn gap_in_numbering_is_invalid() {
    let entries = vec![
        LayoutEntry { binding: 0, kind: color() },
        LayoutEntry { binding: 2, kind: BindingKind::FilteringSampler },
    ];
    assert!(!is_valid(&entries));
}

#[test]
fn repeated_kind_is_invalid() {
    let entries = vec![
        LayoutEntry { binding: 0, kind: BindingKind::FilteringSampler },
        LayoutEntry { binding: 1, kind: depth() },
        LayoutEntry { binding: 2, kind: BindingKind::FilteringSampler },
    ];
    assert!(!is_valid(&entries));
}

#[test]
fn each_kind_is_found_at_its_slot() {
    let entries = dof_layout_entries(16);
    assert_eq!(binding_of(&entries, color()), Some(COLOR_BINDING));
    assert_eq!(binding_of(&entries, depth()), Some(DEPTH_BINDING));
    assert_eq!(binding_of(&entries, BindingKind::FilteringSampler), Some(SAMPLER_BINDING));
    let uniform = BindingKind::UniformBuffer { dynamic_offset: false, min_size: 16 };
    assert_eq!(binding_of(&entries, uniform), Some(SETTINGS_BINDING));
}

#[test]
fn missing_kind_is_not_found() {
    let entries = dof_layout_entries(16);
    let multisampled = BindingKind::Texture { sample: SampleKind::Depth, multisampled: true };
    assert_eq!(binding_of(&entries, multisampled), None);
    let other_size = BindingKind::UniformBuffer { dynamic_offset: false, min_size: 32 };
    assert_eq!(binding_of(&entries, other_size), None);
    assert_eq!(binding_of(&Vec::new(), color()), None);
}

#[test]
fn first_of_repeated_kind_is_found() {
    let entries = vec![
        LayoutEntry { binding: 5, kind: depth() },
        LayoutEntry { binding: 7, kind: BindingKind::FilteringSampler },
        LayoutEntry { binding: 9, kind: BindingKind::FilteringSampler },
    ];
    assert_eq!(binding_of(&entries, BindingKind::FilteringSampler), Some(7));
}
