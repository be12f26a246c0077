use shell_overlay::geometry::{scale_length, Size};
use shell_overlay::state::State;
use shell_overlay::window::{Effect, ProtocolError, Window, WindowKind, UNIT};

fn mapped(kind: WindowKind) -> Window {
    Window::create(kind, Size::new(300, 200), Some(42)).expect("the surface exists")
}

#[test]
fn size_new_keeps_its_fields() {
    let size = Size::new(3, 4);
    assert_eq!(size.width, 3);
    assert_eq!(size.height, 4);
    let words = Size::new("wide", "high");
    assert_eq!(words.width, "wide");
    assert_eq!(words.height, "high");
    assert_eq!(Size::<i32>::default(), Size::new(0, 0));
}

#[test]
fn size_times_factor_scales_both_dimensions() {
    assert_eq!(Size::new(1080, 40) * 2, Size::new(2160, 80));
    assert_eq!(Size::new(7, -3) * 3, Size::new(21, -9));
    assert_eq!(Size::new(7, 9) * 0, Size::new(0, 0));
    assert_eq!(Size::new(7, 9) * -1, Size::new(-7, -9));
}

#[test]
fn scaling_saturates() {
    assert_eq!(scale_length(i32::MAX, 2), i32::MAX);
    assert_eq!(scale_length(i32::MIN, 2), i32::MIN);
    assert_eq!(scale_length(i32::MIN, -1), i32::MAX);
    assert_eq!(scale_length(65_536, 32_768), i32::MAX);
    assert_eq!(scale_length(65_536, 32_767), 2_147_418_112);
    assert_eq!(scale_length(-65_536, 32_768), i32::MIN);
    assert_eq!(Size::new(i32::MAX, 1) * 3, Size::new(i32::MAX, 3));
}

#[test]
fn new_window_is_hidden() {
    let window = Window::new(WindowKind::Drawer, Size::new(300, 200));
    assert_eq!(window.kind, WindowKind::Drawer);
    assert!(!window.mapped);
    assert_eq!(window.logical_size, Size::new(300, 200));
    assert_eq!(window.scale_factor, 1);
    assert_eq!(window.surface, None);
    assert_eq!(window.context, None);
    assert!(!window.frame_pending);
    assert!(!window.owns(0));
}

#[test]
fn create_binds_the_surface() {
    let window = mapped(WindowKind::Panel);
    assert!(window.mapped);
    assert_eq!(window.surface, Some(42));
    assert_eq!(window.context, Some(Size::new(300, 200)));
    assert!(window.owns(42));
    assert!(!window.owns(43));
}

#[test]
fn create_fails_when_the_surface_is_rejected() {
    assert_eq!(Window::create(WindowKind::Panel, Size::new(300, 200), None), Err(ProtocolError));
}

#[test]
fn init_windows_fails_without_panel_surface() {
    let mut state = State::new(0);
    let before = state.shell();
    assert_eq!(
        state.init_windows(Size::new(300, 20), None, Size::new(300, 200)),
        Err(ProtocolError)
    );
    assert_eq!(state.shell(), before);
    assert!(!state.is_initialized());
}

#[test]
fn init_windows_maps_the_panel_only() {
    let mut state = State::new(0);
    let effects = state.init_windows(Size::new(300, 20), Some(8), Size::new(300, 200));
    assert_eq!(effects, Ok(vec![Effect::Attach(WindowKind::Panel, Size::new(300, 20))]));
    assert!(state.is_initialized());
    assert_eq!(state.panel(), Window::create(WindowKind::Panel, Size::new(300, 20), Some(8)).unwrap());
    assert_eq!(state.drawer(), Window::new(WindowKind::Drawer, Size::new(300, 200)));
    assert_eq!(state.drawer_offset(), 0);
}

#[test]
fn max_offset_is_the_height_in_sub_units() {
    assert_eq!(mapped(WindowKind::Drawer).max_offset_units(), 200 * UNIT);
    assert_eq!(
        Window::new(WindowKind::Drawer, Size::new(1, i32::MAX)).max_offset_units(),
        i32::MAX as i64 * 256
    );
    assert_eq!(
        Window::new(WindowKind::Drawer, Size::new(1, i32::MIN)).max_offset_units(),
        i32::MIN as i64 * 256
    );
}

#[test]
fn show_maps_and_attaches_once() {
    let mut window = Window::new(WindowKind::Drawer, Size::new(300, 200));
    window.scale_factor = 2;
    let mut effects = Vec::new();

    window.show(&mut effects);
    assert_eq!(
        effects,
        vec![
            Effect::CreateSurface(WindowKind::Drawer),
            Effect::Attach(WindowKind::Drawer, Size::new(600, 400)),
        ]
    );
    assert!(window.mapped);
    assert_eq!(window.context, Some(Size::new(600, 400)));

    window.show(&mut effects);
    assert_eq!(effects.len(), 2);
}

#[test]
fn dismiss_detaches_and_unmaps_once() {
    let mut window = mapped(WindowKind::Drawer);
    let mut effects = Vec::new();
    window.request_frame(&mut effects);
    effects.clear();

    window.dismiss(&mut effects);
    assert_eq!(
        effects,
        vec![Effect::Detach(WindowKind::Drawer), Effect::DestroySurface(WindowKind::Drawer)]
    );
    assert_eq!(window, Window::new(WindowKind::Drawer, Size::new(300, 200)));

    window.dismiss(&mut effects);
    assert_eq!(effects.len(), 2);
}

#[test]
fn detach_is_idempotent() {
    let mut window = mapped(WindowKind::Panel);
    let mut effects = Vec::new();
    window.detach(&mut effects);
    window.detach(&mut effects);
    assert_eq!(effects, vec![Effect::Detach(WindowKind::Panel)]);
    assert_eq!(window.context, None);

    window.attach(&mut effects);
    assert_eq!(effects[1], Effect::Attach(WindowKind::Panel, Size::new(300, 200)));
    assert_eq!(window.context, Some(Size::new(300, 200)));
}

#[test]
fn request_frame_coalesces_until_the_callback() {
    let mut window = mapped(WindowKind::Panel);
    let mut effects = Vec::new();

    window.request_frame(&mut effects);
    window.request_frame(&mut effects);
    assert_eq!(effects, vec![Effect::RequestFrame(WindowKind::Panel)]);
    assert!(window.frame_pending);

    window.frame(0, &mut effects);
    assert_eq!(effects[1], Effect::DrawPanel);
    assert!(!window.frame_pending);

    window.request_frame(&mut effects);
    assert_eq!(effects[2], Effect::RequestFrame(WindowKind::Panel));
}

#[test]
fn hidden_window_asks_for_nothing() {
    let mut window = Window::new(WindowKind::Drawer, Size::new(300, 200));
    let before = window;
    let mut effects = Vec::new();
    window.request_frame(&mut effects);
    window.frame(5, &mut effects);
    window.draw(5, &mut effects);
    window.reconfigure(Size::new(300, 200), 5, &mut effects);
    assert_eq!(effects, vec![]);
    assert_eq!(window, before);

    window.set_scale(3, &mut effects);
    assert_eq!(effects, vec![]);
    assert_eq!(window.scale_factor, 3);
    assert_eq!(window.context, None);
}

#[test]
fn set_scale_rebuilds_the_context() {
    let mut window = mapped(WindowKind::Panel);
    let mut effects = Vec::new();
    window.set_scale(3, &mut effects);
    assert_eq!(
        effects,
        vec![
            Effect::Detach(WindowKind::Panel),
            Effect::Attach(WindowKind::Panel, Size::new(900, 600)),
            Effect::RequestFrame(WindowKind::Panel),
        ]
    );
    assert_eq!(window.scale_factor, 3);
    assert_eq!(window.context, Some(Size::new(900, 600)));
    assert!(window.frame_pending);
}

#[test]
fn reconfigure_resizes_and_redraws() {
    let mut window = mapped(WindowKind::Drawer);
    window.scale_factor = 2;
    let mut effects = Vec::new();
    window.reconfigure(Size::new(320, 240), 77, &mut effects);
    assert_eq!(
        effects,
        vec![
            Effect::Resize(WindowKind::Drawer, Size::new(640, 480)),
            Effect::DrawDrawer(77),
        ]
    );
    assert_eq!(window.logical_size, Size::new(320, 240));
    assert_eq!(window.context, Some(Size::new(640, 480)));
    assert_eq!(window.max_offset_units(), 240 * UNIT);
}

#[test]
fn events_route_to_the_owner() {
    let mut state = State::new(0);
    state.init_windows(Size::new(300, 20), Some(8), Size::new(300, 200)).unwrap();
    state.down(8, 1, shell_overlay::touch::Position { x: 0, y: 0 });
    state.bind_drawer(9);

    assert_eq!(state.frame(8), vec![Effect::DrawPanel]);
    assert_eq!(state.frame(9), vec![Effect::DrawDrawer(0)]);
    assert_eq!(state.frame(10), vec![]);

    assert_eq!(
        state.configure(8, Size::new(400, 20)),
        vec![Effect::Resize(WindowKind::Panel, Size::new(400, 20)), Effect::DrawPanel]
    );
    assert_eq!(state.panel().logical_size, Size::new(400, 20));
    assert_eq!(state.drawer().logical_size, Size::new(300, 200));
    assert_eq!(
        state.configure(9, Size::new(400, 300)),
        vec![Effect::Resize(WindowKind::Drawer, Size::new(400, 300)), Effect::DrawDrawer(0)]
    );
    let before = state.shell();
    assert_eq!(state.configure(10, Size::new(1, 1)), vec![]);
    assert_eq!(state.scale_factor_changed(10, 4), vec![]);
    assert_eq!(state.shell(), before);

    state.scale_factor_changed(8, 2);
    assert_eq!(state.panel().scale_factor, 2);
    assert_eq!(state.drawer().scale_factor, 1);
}

#[test]
fn binding_a_hidden_drawer_keeps_no_handle() {
    let mut state = State::new(0);
    state.init_windows(Size::new(300, 20), Some(8), Size::new(300, 200)).unwrap();
    let before = state.shell();
    assert_eq!(state.bind_drawer(9), vec![]);
    assert_eq!(state.shell(), before);
    assert_eq!(state.frame(9), vec![]);
}
