use cimgui_core::{
    show_demo_window, ForeignGui, FramePhase, IgContext, IgDrawData, IgError, IgNavInputFlags,
    IgSDL2Renderer, IgStyle,
};

#[test]
fn context_created_then_destroyed_releases_exactly_once() {
    let mut gui = ForeignGui::startup();
    let ctx = IgContext::new(&mut gui, true).unwrap();
    assert!(gui.context_live);
    assert_eq!(gui.contexts_created, 1);
    assert_eq!(gui.contexts_destroyed, 0);
    ctx.destroy(&mut gui);
    assert!(!gui.context_live);
    assert_eq!(gui.contexts_created, 1);
    assert_eq!(gui.contexts_destroyed, 1);
}

#[test]
fn context_allocation_failure_is_reported_and_leaves_nothing() {
    let mut gui = ForeignGui::startup();
    let r = IgContext::new(&mut gui, false);
    assert!(matches!(r, Err(IgError::ContextAllocationFailed)));
    assert!(!gui.context_live);
    assert_eq!(gui.contexts_created, 0);
    assert_eq!(gui.contexts_destroyed, 0);
}

#[test]
fn flags_accumulate_and_are_never_cleared() {
    let mut gui = ForeignGui::startup();
    let mut ctx = IgContext::new(&mut gui, true).unwrap();
    ctx.set_flags(&mut gui, IgNavInputFlags::nav_enable_keyboard());
    assert_eq!(gui.config_flags, 1);
    ctx.set_flags(&mut gui, IgNavInputFlags::nav_no_mouse());
    assert_eq!(gui.config_flags, 17);
    assert!(ctx.config_flags().contains(IgNavInputFlags::nav_enable_keyboard()));
    assert!(ctx.config_flags().contains(IgNavInputFlags::nav_no_mouse()));
    ctx.set_flags(&mut gui, IgNavInputFlags::nav_enable_keyboard());
    assert_eq!(gui.config_flags, 17);
    ctx.set_flags(&mut gui, IgNavInputFlags::nav_is_touch_screen());
    assert_eq!(gui.config_flags, 17 | 2097152);
    assert!(ctx.config_flags().contains(IgNavInputFlags::nav_enable_keyboard()));
    assert!(ctx.config_flags().contains(IgNavInputFlags::nav_no_mouse()));
    assert!(ctx.config_flags().contains(IgNavInputFlags::nav_is_touch_screen()));
    ctx.destroy(&mut gui);
}

#[test]
fn style_last_write_wins() {
    let mut gui = ForeignGui::startup();
    let ctx = IgContext::new(&mut gui, true).unwrap();
    assert!(gui.style.is_none());
    ctx.set_style(&mut gui, IgStyle::Light);
    assert!(matches!(gui.style, Some(IgStyle::Light)));
    ctx.set_style(&mut gui, IgStyle::Dark);
    assert!(matches!(gui.style, Some(IgStyle::Dark)));
    ctx.destroy(&mut gui);
}

#[test]
fn backend_input_init_failure_is_fatal_and_leaves_nothing() {
    let mut gui = ForeignGui::startup();
    let ctx = IgContext::new(&mut gui, true).unwrap();
    let r = IgSDL2Renderer::new(&mut gui, false, true);
    assert!(matches!(r, Err(IgError::InputBackendInitFailed)));
    assert!(!gui.backend_live);
    assert_eq!(gui.backends_created, 0);
    ctx.destroy(&mut gui);
}

#[test]
fn backend_render_init_failure_is_fatal_and_leaves_nothing() {
    let mut gui = ForeignGui::startup();
    let ctx = IgContext::new(&mut gui, true).unwrap();
    let r = IgSDL2Renderer::new(&mut gui, true, false);
    assert!(matches!(r, Err(IgError::RenderBackendInitFailed)));
    assert!(!gui.backend_live);
    assert_eq!(gui.backends_created, 0);
    ctx.destroy(&mut gui);
}

#[test]
fn backend_destroyed_before_context_releases_exactly_once() {
    let mut gui = ForeignGui::startup();
    let ctx = IgContext::new(&mut gui, true).unwrap();
    let backend = IgSDL2Renderer::new(&mut gui, true, true).unwrap();
    assert!(gui.backend_live);
    backend.destroy(&mut gui);
    assert!(!gui.backend_live);
    assert!(gui.context_live);
    ctx.destroy(&mut gui);
    assert_eq!(gui.backends_created, 1);
    assert_eq!(gui.backends_destroyed, 1);
    assert_eq!(gui.contexts_created, 1);
    assert_eq!(gui.contexts_destroyed, 1);
}

#[test]
fn ten_frames_each_get_fresh_draw_data() {
    let mut gui = ForeignGui::startup();
    let ctx = IgContext::new(&mut gui, true).unwrap();
    let backend = IgSDL2Renderer::new(&mut gui, true, true).unwrap();
    for i in 0..10u64 {
        backend.new_frame(&mut gui);
        ctx.new_frame(&mut gui);
        ctx.render(&mut gui);
        let data = IgDrawData::get(&gui);
        assert_eq!(data.frame_index(), i + 1);
        assert_eq!(data.frame_index(), gui.frame);
        backend.render_draw_data(&mut gui, data);
        assert!(matches!(gui.phase, FramePhase::Idle));
    }
    backend.destroy(&mut gui);
    ctx.destroy(&mut gui);
    assert_eq!(gui.contexts_created, gui.contexts_destroyed);
    assert_eq!(gui.backends_created, gui.backends_destroyed);
    assert_eq!(gui.frame, 10);
}

#[test]
fn demo_window_request_passes_the_toggle_through() {
    let mut gui = ForeignGui::startup();
    let ctx = IgContext::new(&mut gui, true).unwrap();
    let backend = IgSDL2Renderer::new(&mut gui, true, true).unwrap();
    backend.new_frame(&mut gui);
    ctx.new_frame(&mut gui);
    let mut open = true;
    show_demo_window(&mut gui, &mut open);
    assert!(open);
    assert!(gui.demo_window_requested);
    ctx.render(&mut gui);
    let data = IgDrawData::get(&gui);
    backend.render_draw_data(&mut gui, data);
    backend.new_frame(&mut gui);
    ctx.new_frame(&mut gui);
    assert!(!gui.demo_window_requested);
    let mut closed = false;
    show_demo_window(&mut gui, &mut closed);
    assert!(!gui.demo_window_requested);
    ctx.render(&mut gui);
    let data = IgDrawData::get(&gui);
    backend.render_draw_data(&mut gui, data);
    backend.destroy(&mut gui);
    ctx.destroy(&mut gui);
}

#[test]
fn headless_context_can_run_frames_without_a_backend() {
    let mut gui = ForeignGui::startup();
    let ctx = IgContext::new(&mut gui, true).unwrap();
    ctx.new_frame(&mut gui);
    ctx.render(&mut gui);
    let data = IgDrawData::get(&gui);
    assert_eq!(data.frame_index(), 1);
    ctx.new_frame(&mut gui);
    ctx.render(&mut gui);
    let data = IgDrawData::get(&gui);
    assert_eq!(data.frame_index(), 2);
    ctx.destroy(&mut gui);
    assert_eq!(gui.contexts_destroyed, 1);
}
