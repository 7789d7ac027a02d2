use canvas_render::bindgroup::{BindGroup, BindingError};
use canvas_render::uniform::{GroupEntry, LayoutEntry, ResourceKind, Uniform, Visibility};

fn layout(binding: u32, kind: ResourceKind) -> LayoutEntry {
    LayoutEntry { binding, visibility: Visibility::VertexFragment, kind, has_dynamic_offset: false }
}

fn group(binding: u32, kind: ResourceKind) -> GroupEntry {
    GroupEntry { binding, kind }
}

#[test]
fn uniform_buffer_matches_initial_value() {
    let u = Uniform::new(41u64, 3);
    assert_eq!(*u.uniforms(), 41);
    assert_eq!(*u.buffer(), 41);
}

#[test]
fn uniform_buffer_is_stale_until_write_through() {
    let mut u = Uniform::new((1u32, 2u32), 0);
    u.set_uniforms((5, 6));
    assert_eq!(*u.uniforms(), (5, 6));
    assert_eq!(*u.buffer(), (1, 2));
    u.set_uniforms((7, 8));
    assert_eq!(*u.buffer(), (1, 2));
    let written = u.write_through();
    assert_eq!(written, (7, 8));
    assert_eq!(*u.buffer(), (7, 8));
    assert_eq!(*u.uniforms(), (7, 8));
}

#[test]
fn uniform_entries_use_its_slot() {
    let u = Uniform::new(0u8, 2);
    assert_eq!(u.layout_entry(), layout(2, ResourceKind::UniformBuffer));
    assert_eq!(u.entry(), group(2, ResourceKind::UniformBuffer));
}

#[test]
fn binding_set_with_matching_entries_is_built() {
    let l = [
        layout(0, ResourceKind::UniformBuffer),
        layout(1, ResourceKind::Texture),
        layout(2, ResourceKind::Sampler),
    ];
    let g = [
        group(0, ResourceKind::UniformBuffer),
        group(1, ResourceKind::Texture),
        group(2, ResourceKind::Sampler),
    ];
    let b = BindGroup::new((&l, &g), "Render").unwrap();
    assert_eq!(b.layout().as_slice(), &l);
    assert_eq!(b.bind_group().as_slice(), &g);
    assert_eq!(b.name().as_str(), "Render");
}

#[test]
fn empty_binding_set_is_built() {
    let b = BindGroup::new((&[], &[]), "Empty").unwrap();
    assert!(b.layout().is_empty());
    assert!(b.bind_group().is_empty());
}

#[test]
fn binding_set_with_count_mismatch_is_rejected() {
    let l = [layout(0, ResourceKind::UniformBuffer), layout(1, ResourceKind::UniformBuffer)];
    let g = [group(0, ResourceKind::UniformBuffer)];
    let r = BindGroup::new((&l, &g), "Render");
    assert_eq!(r.err(), Some(BindingError::CountMismatch { layout: 2, group: 1 }));
}

#[test]
fn binding_set_with_other_slot_is_rejected() {
    let l = [layout(0, ResourceKind::UniformBuffer), layout(1, ResourceKind::UniformBuffer)];
    let g = [group(0, ResourceKind::UniformBuffer), group(4, ResourceKind::UniformBuffer)];
    let r = BindGroup::new((&l, &g), "Render");
    assert_eq!(r.err(), Some(BindingError::EntryMismatch { index: 1 }));
}

#[test]
fn binding_set_with_other_kind_is_rejected() {
    let l = [layout(0, ResourceKind::Texture)];
    let g = [group(0, ResourceKind::Sampler)];
    let r = BindGroup::new((&l, &g), "Render");
    assert_eq!(r.err(), Some(BindingError::EntryMismatch { index: 0 }));
}

#[test]
fn binding_set_with_repeated_slot_is_rejected() {
    let l = [
        layout(0, ResourceKind::UniformBuffer),
        layout(1, ResourceKind::Texture),
        layout(0, ResourceKind::UniformBuffer),
    ];
    let g = [
        group(0, ResourceKind::UniformBuffer),
        group(1, ResourceKind::Texture),
        group(0, ResourceKind::UniformBuffer),
    ];
    let r = BindGroup::new((&l, &g), "Render");
    assert_eq!(r.err(), Some(BindingError::DuplicateBinding { index: 2 }));
}

#[test]
fn uniform_edited_in_place_leaves_buffer_stale() {
    let mut u = Uniform::new([0u32; 3], 0);
    u.mut_uniforms()[1] = 9;
    assert_eq!(*u.uniforms(), [0, 9, 0]);
    assert_eq!(*u.buffer(), [0, 0, 0]);
    assert_eq!(u.write_through(), [0, 9, 0]);
    assert_eq!(*u.buffer(), [0, 9, 0]);
}
