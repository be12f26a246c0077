use shell_overlay::animation::{Direction, TickAction, ANIMATION_INTERVAL, ANIMATION_STEP};
use shell_overlay::geometry::Size;
use shell_overlay::shell::{Capability, Event};
use shell_overlay::state::{animate_drawer, State};
use shell_overlay::touch::{Gesture, Position};
use shell_overlay::window::{Effect, WindowKind, UNIT};

const PANEL_SURFACE: u32 = 1;
const DRAWER_SURFACE: u32 = 2;

/// A state whose drawer has the given height, with the effects of its
/// creation.
fn with_drawer(height: i32) -> (State, Vec<Effect>) {
    let mut state = State::new(0);
    let effects = state
        .init_windows(Size::new(720, 30), Some(PANEL_SURFACE), Size::new(720, height))
        .expect("the panel surface exists");
    (state, effects)
}

fn y(units: i64) -> Position {
    Position { x: 0, y: units as i32 }
}

/// A state whose animation is about to start at the given offset.
fn released_at(height: i32, offset: i64, direction: Direction) -> State {
    let (mut state, _) = with_drawer(height);
    state.down(PANEL_SURFACE, 1, y(0));
    state.bind_drawer(DRAWER_SURFACE);
    if direction == Direction::Closing {
        state.motion(1, y(height as i64 * UNIT));
        state.up(0, 1);
        while animate_drawer(0, &mut state).0 != TickAction::Stop {}
        state.down(DRAWER_SURFACE, 1, y(height as i64 * UNIT));
        assert_eq!(state.gesture(), Gesture::TrackingClose);
    }
    state.motion(1, y(offset));
    state.up(0, 1);
    assert_eq!(state.shell().animation.map(|animation| animation.direction), Some(direction));
    assert_eq!(state.drawer_offset(), offset);
    state
}

/// Ticks until the animation is over; checks the offset after every tick.
fn ticks_to_rest(state: &mut State) -> i64 {
    let max_offset = state.drawer().logical_size.height as i64 * UNIT;
    let mut ticks = 0;
    loop {
        let (action, _) = animate_drawer(ticks as u64 * ANIMATION_INTERVAL, state);
        ticks += 1;
        assert!(
            0 <= state.drawer_offset() && state.drawer_offset() <= max_offset,
            "offset {} left the range after {} ticks",
            state.drawer_offset(),
            ticks
        );
        if action == TickAction::Stop {
            return ticks;
        }
        assert!(ticks < 100_000);
    }
}

fn tick_bound(height: i32) -> i64 {
    let max_offset = height as i64 * UNIT;
    (max_offset + ANIMATION_STEP - 1) / ANIMATION_STEP
}

/// Checks that attaching and detaching alternate for the window, and
/// returns whether a context is attached at the end.
fn replay(mut attached: bool, effects: &[Effect], kind: WindowKind) -> bool {
    for effect in effects {
        match effect {
            Effect::Attach(window, _) if *window == kind => {
                assert!(!attached, "a second context is attached to {:?}", kind);
                attached = true;
            }
            Effect::Detach(window) if *window == kind => {
                assert!(attached, "a context is detached that {:?} does not have", kind);
                attached = false;
            }
            _ => {}
        }
    }
    attached
}

#[test]
fn second_touch_down_is_a_no_op() {
    let (mut state, _) = with_drawer(1000);
    state.down(PANEL_SURFACE, 1, y(10 * UNIT));
    state.bind_drawer(DRAWER_SURFACE);
    let before = state.shell();

    assert_eq!(state.down(PANEL_SURFACE, 2, y(20 * UNIT)), vec![]);
    assert_eq!(state.shell(), before);
    assert_eq!(state.down(DRAWER_SURFACE, 3, y(990 * UNIT)), vec![]);
    assert_eq!(state.shell(), before);
    assert_eq!(state.down(PANEL_SURFACE, 1, y(30 * UNIT)), vec![]);
    assert_eq!(state.shell(), before);
    assert_eq!(state.shell().session.map(|touch| touch.touch_id), Some(1));
}

#[test]
fn other_touches_do_not_move_or_end_the_session() {
    let (mut state, _) = with_drawer(1000);
    state.down(PANEL_SURFACE, 1, y(10 * UNIT));
    state.bind_drawer(DRAWER_SURFACE);
    let before = state.shell();

    assert_eq!(state.motion(2, y(500 * UNIT)), vec![]);
    assert_eq!(state.up(0, 2), vec![]);
    assert_eq!(state.shell(), before);
    assert_eq!(state.gesture(), Gesture::TrackingOpen);
}

#[test]
fn motion_sets_the_offset_and_coalesces_frame_requests() {
    let (mut state, _) = with_drawer(1000);
    state.down(PANEL_SURFACE, 1, y(0));
    state.bind_drawer(DRAWER_SURFACE);

    assert_eq!(state.motion(1, y(100 * UNIT + 7)), vec![Effect::RequestFrame(WindowKind::Drawer)]);
    assert_eq!(state.drawer_offset(), 100 * UNIT + 7);
    assert_eq!(state.shell().session.map(|touch| touch.current_offset), Some(100 * UNIT + 7));
    assert_eq!(state.motion(1, y(200 * UNIT)), vec![]);
    assert_eq!(state.drawer_offset(), 200 * UNIT);

    assert_eq!(state.frame(DRAWER_SURFACE), vec![Effect::DrawDrawer(200 * UNIT)]);
    assert_eq!(state.motion(1, y(-3 * UNIT)), vec![Effect::RequestFrame(WindowKind::Drawer)]);
    assert_eq!(state.drawer_offset(), -3 * UNIT);
}

#[test]
fn offset_stays_in_range_from_every_start() {
    let height = 1000;
    let max_offset = height as i64 * UNIT;
    let starts = [
        i32::MIN as i64,
        -1,
        0,
        1,
        max_offset / 4 - 1,
        max_offset / 4,
        max_offset / 2,
        3 * max_offset / 4 - 1,
        3 * max_offset / 4,
        max_offset - 1,
        max_offset,
        max_offset + 1,
        i32::MAX as i64,
    ];
    for direction in [Direction::Opening, Direction::Closing] {
        for start in starts {
            let mut state = released_at(height, start, direction);
            let ticks = ticks_to_rest(&mut state);
            assert!(
                ticks <= tick_bound(height),
                "{} ticks from {} while {:?}",
                ticks,
                start,
                direction
            );
            assert!(state.drawer_offset() == 0 || state.drawer_offset() == max_offset);
            assert_eq!(state.drawer().mapped, state.drawer_offset() == max_offset);
        }
    }
}

#[test]
fn tick_count_meets_the_bound_exactly() {
    // 1000 logical units at 20 per tick: 50 ticks at most.
    assert_eq!(tick_bound(1000), 50);
    // Opening from just past the threshold takes the longest way up.
    let mut state = released_at(1000, 250 * UNIT, Direction::Opening);
    assert_eq!(ticks_to_rest(&mut state), 38);
    assert_eq!(state.drawer_offset(), 1000 * UNIT);
    // Closing from just below its threshold takes the longest way down.
    let mut state = released_at(1000, 750 * UNIT - 1, Direction::Closing);
    assert_eq!(ticks_to_rest(&mut state), 38);
    assert_eq!(state.drawer_offset(), 0);
    // A height that is no multiple of the step rounds up.
    assert_eq!(tick_bound(1001), 51);
    assert_eq!(tick_bound(1), 1);
    let mut state = released_at(1, 0, Direction::Opening);
    assert_eq!(ticks_to_rest(&mut state), 1);
}

#[test]
fn thresholds_split_where_they_should() {
    let max_offset = 1000 * UNIT;
    let mut state = released_at(1000, max_offset / 4, Direction::Opening);
    animate_drawer(0, &mut state);
    assert_eq!(state.drawer_offset(), max_offset / 4 + ANIMATION_STEP);

    let mut state = released_at(1000, max_offset / 4 - 1, Direction::Opening);
    animate_drawer(0, &mut state);
    assert_eq!(state.drawer_offset(), max_offset / 4 - 1 - ANIMATION_STEP);

    let mut state = released_at(1000, 3 * max_offset / 4, Direction::Closing);
    animate_drawer(0, &mut state);
    assert_eq!(state.drawer_offset(), 3 * max_offset / 4 + ANIMATION_STEP);

    let mut state = released_at(1000, 3 * max_offset / 4 - 1, Direction::Closing);
    animate_drawer(0, &mut state);
    assert_eq!(state.drawer_offset(), 3 * max_offset / 4 - 1 - ANIMATION_STEP);
}

#[test]
fn opening_from_three_quarters_ends_open() {
    for start in [750 * UNIT, 800 * UNIT, 999 * UNIT, 1000 * UNIT, 1200 * UNIT] {
        let mut state = released_at(1000, start, Direction::Opening);
        loop {
            let (action, effects) = animate_drawer(0, &mut state);
            assert!(state.drawer().mapped);
            assert!(!effects.contains(&Effect::DestroySurface(WindowKind::Drawer)));
            if action == TickAction::Stop {
                break;
            }
        }
        assert_eq!(state.drawer_offset(), 1000 * UNIT);
    }
}

#[test]
fn closing_from_a_quarter_ends_shut() {
    for start in [250 * UNIT, 200 * UNIT, 1, 0, -50 * UNIT] {
        let mut state = released_at(1000, start, Direction::Closing);
        ticks_to_rest(&mut state);
        assert_eq!(state.drawer_offset(), 0);
        assert!(!state.drawer().mapped);
        assert_eq!(state.drawer().context, None);
    }
}

#[test]
fn clamps_at_both_ends() {
    let mut state = released_at(1000, 1000 * UNIT - 1, Direction::Opening);
    let (action, effects) = animate_drawer(0, &mut state);
    assert_eq!(action, TickAction::Stop);
    assert_eq!(effects, vec![]);
    assert_eq!(state.drawer_offset(), 1000 * UNIT);

    let mut state = released_at(1000, 3, Direction::Opening);
    let (action, _) = animate_drawer(0, &mut state);
    assert_eq!(action, TickAction::Stop);
    assert_eq!(state.drawer_offset(), 0);
}

#[test]
fn drawer_without_height_opens_at_once() {
    let mut state = released_at(0, 0, Direction::Opening);
    let (action, _) = animate_drawer(0, &mut state);
    assert_eq!(action, TickAction::Stop);
    assert_eq!(state.drawer_offset(), 0);
    assert!(state.drawer().mapped);
}

#[test]
fn attach_and_detach_alternate_over_a_long_run() {
    let (mut state, created) = with_drawer(400);
    let mut panel = replay(false, &created, WindowKind::Panel);
    let mut drawer = replay(false, &created, WindowKind::Drawer);
    assert!(panel);
    assert!(!drawer);

    let mut events = Vec::new();
    for round in 0..6u64 {
        let now = round * 1_000;
        events.push(Event::TouchDown { surface: PANEL_SURFACE, id: 1, position: y(0) });
        events.push(Event::DrawerBound { surface: DRAWER_SURFACE });
        events.push(Event::TouchDown { surface: PANEL_SURFACE, id: 2, position: y(0) });
        events.push(Event::ScaleFactorChanged { surface: DRAWER_SURFACE, factor: 2 });
        events.push(Event::TouchMotion { id: 1, position: y((50 + 60 * round as i64) * UNIT) });
        events.push(Event::Frame { surface: DRAWER_SURFACE });
        events.push(Event::ScaleFactorChanged { surface: PANEL_SURFACE, factor: 3 });
        events.push(Event::Configure { surface: DRAWER_SURFACE, size: Size::new(720, 400) });
        events.push(Event::TouchUp { now, id: 1 });
        for tick in 0..25 {
            events.push(Event::AnimationTick { now: now + 8 * tick });
        }
        events.push(Event::FrameInterval { now: now + 70_000 });
        events.push(Event::TouchDown {
            surface: DRAWER_SURFACE,
            id: 5,
            position: y(399 * UNIT),
        });
        events.push(Event::TouchMotion { id: 5, position: y(10 * UNIT) });
        events.push(Event::RemoveCapability { now, capability: Capability::Touch });
        events.push(Event::TouchCancel { now });
        for tick in 0..3 {
            events.push(Event::AnimationTick { now: now + 8 * tick });
        }
    }

    let mut attaches = 0;
    for event in events {
        let effects = state.handle(event);
        attaches += effects
            .iter()
            .filter(|effect| matches!(effect, Effect::Attach(WindowKind::Drawer, _)))
            .count();
        panel = replay(panel, &effects, WindowKind::Panel);
        drawer = replay(drawer, &effects, WindowKind::Drawer);
        assert_eq!(panel, state.panel().context.is_some());
        assert_eq!(drawer, state.drawer().context.is_some());
        assert_eq!(state.drawer().mapped, state.drawer().context.is_some());
        assert!(state.panel().mapped);
        let shell = state.shell();
        assert!(shell.session.is_none() || shell.animation.is_none());
    }
    assert!(attaches >= 6);
}

#[test]
fn handle_agrees_with_the_handlers() {
    let (mut by_event, _) = with_drawer(1000);
    let (mut by_call, _) = with_drawer(1000);

    assert_eq!(
        by_event.handle(Event::TouchDown { surface: PANEL_SURFACE, id: 4, position: y(5) }),
        by_call.down(PANEL_SURFACE, 4, y(5))
    );
    assert_eq!(
        by_event.handle(Event::DrawerBound { surface: DRAWER_SURFACE }),
        by_call.bind_drawer(DRAWER_SURFACE)
    );
    assert_eq!(
        by_event.handle(Event::TouchMotion { id: 4, position: y(600 * UNIT) }),
        by_call.motion(4, y(600 * UNIT))
    );
    assert_eq!(by_event.handle(Event::TouchUp { now: 40, id: 4 }), by_call.up(40, 4));
    assert_eq!(
        by_event.handle(Event::AnimationTick { now: 48 }),
        animate_drawer(48, &mut by_call).1
    );
    assert_eq!(
        by_event.handle(Event::Frame { surface: DRAWER_SURFACE }),
        by_call.frame(DRAWER_SURFACE)
    );
    assert_eq!(by_event.handle(Event::Closed), by_call.closed());
    assert_eq!(by_event.shell(), by_call.shell());
    assert!(by_event.is_terminated());
}
