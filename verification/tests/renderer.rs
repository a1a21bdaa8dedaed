use fiberlamp::render_state::{preferred_format_index, PassPlan, RenderState, ResizeEffect};

#[test]
fn new_state_normalizes_and_keeps_surface_nonempty() {
    let state = RenderState::new(0, 0, 3);
    assert_eq!(state.size(), (0, 0));
    assert_eq!(state.surface_size(), (1, 1));
    assert_eq!(state.msaa_sample_count(), 4);
    assert_eq!(state.num_vertices(), 0);

    let state = RenderState::new(1920, 1080, 0);
    assert_eq!(state.size(), (1920, 1080));
    assert_eq!(state.surface_size(), (1920, 1080));
    assert_eq!(state.msaa_sample_count(), 1);
}

#[test]
fn resize_with_zero_dimension_is_ignored() {
    let mut state = RenderState::new(800, 600, 4);
    let effect = state.resize(0, 500);
    assert_eq!(effect, ResizeEffect { reconfigure_surface: false, recreate_msaa_target: false });
    assert_eq!(state.size(), (800, 600));
    let effect = state.resize(500, 0);
    assert!(!effect.reconfigure_surface);
    assert_eq!(state.surface_size(), (800, 600));
}

#[test]
fn resize_takes_the_new_size() {
    let mut state = RenderState::new(800, 600, 4);
    let effect = state.resize(1024, 768);
    assert_eq!(effect, ResizeEffect { reconfigure_surface: true, recreate_msaa_target: true });
    assert_eq!(state.size(), (1024, 768));
    assert_eq!(state.surface_size(), (1024, 768));
    assert_eq!(state.msaa_sample_count(), 4);

    let mut plain = RenderState::new(800, 600, 1);
    let effect = plain.resize(640, 480);
    assert_eq!(effect, ResizeEffect { reconfigure_surface: true, recreate_msaa_target: false });
}

#[test]
fn draws_only_what_was_handed_over() {
    let mut state = RenderState::new(800, 600, 1);
    assert_eq!(state.pass_plan(), PassPlan { render_to_msaa_target: false, draw_vertices: None });
    assert!(state.update_vertices(54000));
    assert_eq!(state.pass_plan().draw_vertices, Some(54000));
    assert!(!state.update_vertices(0));
    assert_eq!(state.num_vertices(), 0);
    assert_eq!(state.pass_plan().draw_vertices, None);
}

#[test]
fn multisampled_pass_goes_through_the_msaa_target() {
    let mut state = RenderState::new(800, 600, 8);
    state.update_vertices(6);
    assert_eq!(state.pass_plan(), PassPlan { render_to_msaa_target: true, draw_vertices: Some(6) });
}

#[test]
fn vertex_count_is_kept_as_32_bits() {
    let mut state = RenderState::new(800, 600, 1);
    let big: u64 = (1u64 << 32) + 5;
    if let Ok(count) = usize::try_from(big) {
        assert!(state.update_vertices(count));
        assert_eq!(state.num_vertices(), 5);
    }
    assert!(state.update_vertices(u32::MAX as usize));
    assert_eq!(state.num_vertices(), u32::MAX);
}

#[test]
fn first_srgb_format_is_preferred() {
    assert_eq!(preferred_format_index(&vec![false, true, true]), 1);
    assert_eq!(preferred_format_index(&vec![true, false]), 0);
    assert_eq!(preferred_format_index(&vec![false, false, false]), 0);
    assert_eq!(preferred_format_index(&vec![false, false, true]), 2);
}
