use bevy_mod_film_grain::layout::{bind_group_layout, BindingKind, LayoutEntry, StageSet};

const FRAGMENT_ONLY: StageSet = StageSet { vertex: false, fragment: true, compute: false };

#[test]
fn layout_has_texture_sampler_and_settings() {
    let layout = bind_group_layout();
    assert_eq!(
        layout,
        vec![
            LayoutEntry {
                binding: 0,
                visibility: FRAGMENT_ONLY,
                kind: BindingKind::Texture2d { filterable: true },
            },
            LayoutEntry {
                binding: 1,
                visibility: FRAGMENT_ONLY,
                kind: BindingKind::Sampler { filtering: true },
            },
            LayoutEntry {
                binding: 2,
                visibility: FRAGMENT_ONLY,
                kind: BindingKind::UniformBuffer { has_dynamic_offset: true },
            },
        ]
    );
}

#[test]
fn layout_bindings_are_sequential() {
    let layout = bind_group_layout();
    assert_eq!(layout.len(), 3);
    for (index, entry) in layout.iter().enumerate() {
        assert_eq!(entry.binding as usize, index);
    }
}

#[test]
fn layout_is_visible_to_the_fragment_stage_alone() {
    for entry in bind_group_layout() {
        assert!(entry.visibility.fragment);
        assert!(!entry.visibility.vertex);
        assert!(!entry.visibility.compute);
    }
}

#[test]
fn layout_has_one_dynamic_slot() {
    let dynamic: Vec<u32> = bind_group_layout()
        .iter()
        .filter(|entry| matches!(entry.kind, BindingKind::UniformBuffer { has_dynamic_offset: true }))
        .map(|entry| entry.binding)
        .collect();
    assert_eq!(dynamic, vec![2]);
}

#[test]
fn layout_is_the_same_on_every_call() {
    assert_eq!(bind_group_layout(), bind_group_layout());
}

#[test]
fn filtering_sampler_reads_a_filterable_texture() {
    let layout = bind_group_layout();
    assert_eq!(layout[0].kind, BindingKind::Texture2d { filterable: true });
    assert_eq!(layout[1].kind, BindingKind::Sampler { filtering: true });
}
