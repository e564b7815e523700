use starstruck::renderer::{
    choose_surface_format, react_to_frame_result, select_adapter, AdapterInfo, FrameError,
    FrameReaction, Renderer, SurfaceFormat,
};

fn formats(srgb: &[bool]) -> Vec<SurfaceFormat> {
    srgb.iter()
        .enumerate()
        .map(|(i, &s)| SurfaceFormat { id: i as u32, srgb: s })
        .collect()
}

fn simple_renderer() -> Renderer {
    Renderer::new(
        80,
        60,
        &formats(&[false, true, true]),
        &vec![7, 8],
        &vec![9],
        (255, 255, 255, 255),
        6,
        6,
    )
    .unwrap()
}

#[test]
fn new_picks_first_srgb_format() {
    let r = simple_renderer();
    assert_eq!(r.config.format, SurfaceFormat { id: 1, srgb: true });
}

#[test]
fn new_falls_back_to_first_format() {
    let r = Renderer::new(
        80,
        60,
        &formats(&[false, false]),
        &vec![7],
        &vec![9],
        (0, 0, 0, 0),
        3,
        3,
    )
    .unwrap();
    assert_eq!(r.config.format, SurfaceFormat { id: 0, srgb: false });
}

#[test]
fn new_takes_first_present_and_alpha_modes() {
    let r = simple_renderer();
    assert_eq!(r.config.present_mode, 7);
    assert_eq!(r.config.alpha_mode, 9);
    assert_eq!(r.config.width, 80);
    assert_eq!(r.config.height, 60);
}

#[test]
fn new_fails_fatally_without_formats() {
    let r = Renderer::new(80, 60, &vec![], &vec![7], &vec![9], (0, 0, 0, 0), 3, 3);
    assert!(r.is_err());
}

#[test]
fn format_choice_takes_first_srgb() {
    let fs = formats(&[false, true, false, true]);
    assert_eq!(choose_surface_format(&fs), SurfaceFormat { id: 1, srgb: true });
}

#[test]
fn format_choice_falls_back_to_first() {
    let fs = formats(&[false, false, false]);
    assert_eq!(choose_surface_format(&fs), SurfaceFormat { id: 0, srgb: false });
}

#[test]
fn select_adapter_none_supported() {
    let adapters = vec![
        AdapterInfo { surface_support: false, features: 10 },
        AdapterInfo { surface_support: false, features: 20 },
    ];
    assert_eq!(select_adapter(&adapters), None);
}

#[test]
fn select_adapter_prefers_higher_feature_count() {
    let adapters = vec![
        AdapterInfo { surface_support: true, features: 1 },
        AdapterInfo { surface_support: false, features: 99 },
        AdapterInfo { surface_support: true, features: 5 },
    ];
    assert_eq!(select_adapter(&adapters), Some(2));
}

#[test]
fn select_adapter_breaks_ties_by_enumeration_order() {
    let adapters = vec![
        AdapterInfo { surface_support: false, features: 5 },
        AdapterInfo { surface_support: true, features: 5 },
        AdapterInfo { surface_support: true, features: 5 },
    ];
    assert_eq!(select_adapter(&adapters), Some(1));
}

#[test]
fn resize_height_only_reconfigures_once() {
    let mut r = simple_renderer();
    let reconfigs = r.resize(0, 50);
    assert_eq!(reconfigs.len(), 1);
    assert_eq!(r.config.width, 80);
    assert_eq!(r.config.height, 50);
    assert_eq!(r.width, 80);
    assert_eq!(r.height, 50);
    assert_eq!(reconfigs[0], r.config);
}

#[test]
fn resize_both_axes_reconfigures_twice() {
    let mut r = simple_renderer();
    let before = r.config;
    let reconfigs = r.resize(80, 50);
    assert_eq!(reconfigs.len(), 2);
    // The first reconfiguration applies the new width at the old height.
    assert_eq!(reconfigs[0].width, 80);
    assert_eq!(reconfigs[0].height, before.height);
    // The second applies both.
    assert_eq!(reconfigs[1], r.config);
    assert_eq!(r.config.width, 80);
    assert_eq!(r.config.height, 50);
}

#[test]
fn resize_zero_is_a_no_op() {
    let mut r = simple_renderer();
    let before = r;
    let reconfigs = r.resize(0, 0);
    assert!(reconfigs.is_empty());
    assert_eq!(r, before);
}

#[test]
fn frame_ok_continues() {
    assert_eq!(react_to_frame_result(&Ok(())), FrameReaction::Continue);
}

#[test]
fn frame_lost_reconfigures() {
    assert_eq!(
        react_to_frame_result(&Err(FrameError::Lost)),
        FrameReaction::Reconfigure
    );
}

#[test]
fn frame_out_of_memory_exits() {
    assert_eq!(
        react_to_frame_result(&Err(FrameError::OutOfMemory)),
        FrameReaction::Exit
    );
}

#[test]
fn frame_outdated_and_timeout_skip() {
    assert_eq!(react_to_frame_result(&Err(FrameError::Outdated)), FrameReaction::Skip);
    assert_eq!(react_to_frame_result(&Err(FrameError::Timeout)), FrameReaction::Skip);
}

#[test]
fn frame_plan_reads_stored_state() {
    let r = simple_renderer();
    let p = r.frame_plan();
    assert_eq!(p.clear_color, (255, 255, 255, 255));
    assert_eq!(p.vertex_count, 6);
    assert_eq!(p.instance_count, 6);
}

#[test]
fn update_changes_nothing_and_input_consumes_nothing() {
    let mut r = simple_renderer();
    let before = r;
    r.update();
    assert_eq!(r, before);
    assert!(!r.input(&starstruck::events::EngineEvent::CloseRequested));
}
