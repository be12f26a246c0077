//! What holds of the overlay over whole sequences of events.

use crate::animation::{
    deadline_after, passes_threshold, tick_bound, Direction, ANIMATION_INTERVAL, ANIMATION_STEP,
};
use crate::geometry::Size;
use crate::shell::{Event, Shell};
use crate::touch::Position;
use crate::window::{Effect, Window, WindowKind};
use vstd::prelude::*;

verus! {

/// Whether every event of the sequence is an animation tick.
pub open spec fn all_ticks(events: Seq<Event>) -> bool {
    forall|i: int| 0 <= i < events.len() ==> events[i] is AnimationTick
}

/// Where a run of ticks has taken an animation. While it runs, the drawer
/// has moved one step per tick, always the same way, and is strictly inside
/// its range. Once it is over the drawer rests at the end that the first
/// offset selected: open at the largest offset, or shut and hidden.
proof fn lemma_ticks(shell: Shell, events: Seq<Event>)
    requires
        shell.wf(),
        shell.animation is Some,
        shell.max_offset() >= 0,
        all_ticks(events),
    ensures
        ({
            let after = shell.run(events).0;
            let n = events.len() as int;
            let up = passes_threshold(
                shell.animation->0.direction,
                shell.drawer_offset as int,
                shell.max_offset(),
            );
            &&& after.wf()
            &&& after.max_offset() == shell.max_offset()
            &&& after.windows is Some
            &&& after.animation matches Some(animation) ==> {
                &&& animation.direction == shell.animation->0.direction
                &&& after.drawer_offset == if up {
                    shell.drawer_offset + n * ANIMATION_STEP
                } else {
                    shell.drawer_offset - n * ANIMATION_STEP
                }
                &&& n > 0 ==> 0 < after.drawer_offset < shell.max_offset()
            }
            &&& after.animation is None ==> {
                &&& n > 0
                &&& if up {
                    after.drawer_offset == shell.max_offset() && after.drawer_mapped()
                } else {
                    after.drawer_offset == 0 && !after.drawer_mapped()
                }
            }
        }),
    decreases events.len(),
{
    if events.len() > 0 {
        let earlier = events.drop_last();
        assert(all_ticks(earlier)) by {
            assert forall|i: int| 0 <= i < earlier.len() implies earlier[i] is AnimationTick by {
                assert(earlier[i] == events[i]);
            }
        }
        lemma_ticks(shell, earlier);
        assert(events.last() is AnimationTick);
    }
}

/// After one or more ticks of a running animation the drawer's offset lies
/// between 0 and the largest offset, whatever the touch had left it at.
/// This holds of every drawer whose height is not negative.
pub proof fn offset_in_range_after_ticks(shell: Shell, events: Seq<Event>)
    requires
        shell.wf(),
        shell.animation is Some,
        shell.max_offset() >= 0,
        all_ticks(events),
        events.len() > 0,
    ensures
        0 <= shell.run(events).0.drawer_offset <= shell.max_offset(),
{
    lemma_ticks(shell, events);
}

/// An animation ends with the drawer at rest: shut at 0 and hidden, or open
/// at the largest offset and mapped. This holds of every drawer whose
/// height is not negative.
pub proof fn animation_rests_at_an_end(shell: Shell, events: Seq<Event>)
    requires
        shell.wf(),
        shell.animation is Some,
        shell.max_offset() >= 0,
        all_ticks(events),
        shell.run(events).0.animation is None,
    ensures
        ({
            let after = shell.run(events).0;
            ||| after.drawer_offset == 0 && !after.drawer_mapped()
            ||| after.drawer_offset == shell.max_offset() && after.drawer_mapped()
        }),
{
    lemma_ticks(shell, events);
}

/// An animation is over after as many ticks as the largest offset holds
/// steps, rounded up, from whatever offset it starts, and further ticks
/// change nothing. This holds of every drawer of positive height.
pub proof fn animation_ends_within_bound(shell: Shell, events: Seq<Event>)
    requires
        shell.wf(),
        shell.animation is Some,
        shell.max_offset() > 0,
        all_ticks(events),
        events.len() >= tick_bound(shell.max_offset()),
    ensures
        shell.run(events).0.animation is None,
        shell.run(events).0.tick_action() == crate::animation::TickAction::Stop,
{
    lemma_ticks(shell, events);
    let n = events.len() as int;
    let max_offset = shell.max_offset();
    assert(tick_bound(max_offset) * ANIMATION_STEP >= max_offset);
    assert(n * ANIMATION_STEP >= max_offset);
}

/// An animation that opens and starts at three quarters of the largest
/// offset or beyond never hides the drawer, and once it is over the drawer
/// rests fully open. This holds of every drawer whose height is not
/// negative; of one of positive height the animation is over within the
/// bound on ticks.
pub proof fn opening_snaps_open(shell: Shell, events: Seq<Event>)
    requires
        shell.wf(),
        shell.animation matches Some(animation) && animation.direction == Direction::Opening,
        4 * shell.drawer_offset >= 3 * shell.max_offset(),
        shell.max_offset() >= 0,
        all_ticks(events),
    ensures
        shell.run(events).0.drawer_mapped(),
        shell.run(events).0.animation is None ==> shell.run(events).0.drawer_offset
            == shell.max_offset(),
        shell.max_offset() > 0 && events.len() >= tick_bound(shell.max_offset())
            ==> shell.run(events).0.animation is None,
{
    lemma_ticks(shell, events);
    if shell.max_offset() > 0 && events.len() >= tick_bound(shell.max_offset()) {
        animation_ends_within_bound(shell, events);
    }
}

/// An animation that closes and starts at a quarter of the largest offset
/// or below never rests open: it ends, within the bound on ticks, with the
/// drawer at 0 and hidden. This holds of every drawer of positive height.
pub proof fn closing_snaps_shut(shell: Shell, events: Seq<Event>)
    requires
        shell.wf(),
        shell.animation matches Some(animation) && animation.direction == Direction::Closing,
        4 * shell.drawer_offset <= shell.max_offset(),
        shell.max_offset() > 0,
        all_ticks(events),
    ensures
        shell.run(events).0.animation is Some ==> shell.run(events).0.drawer_mapped(),
        shell.run(events).0.animation is None ==> shell.run(events).0.drawer_offset == 0
            && !shell.run(events).0.drawer_mapped(),
        events.len() >= tick_bound(shell.max_offset()) ==> shell.run(events).0.animation is None,
{
    lemma_ticks(shell, events);
    if events.len() >= tick_bound(shell.max_offset()) {
        animation_ends_within_bound(shell, events);
    }
}

/// A touch that goes down while another is tracked changes nothing and
/// asks for nothing: there is one session at most, and the first touch keeps
/// it.
pub proof fn second_touch_down_is_ignored(shell: Shell, surface: u32, id: i32, position: Position)
    requires
        shell.session is Some,
    ensures
        shell.step(Event::TouchDown { surface, id, position }) == (shell, Seq::<Effect>::empty()),
{
}

/// No event hands a running session to another touch: where a session is
/// tracked before and after an event, it is that of the same touch, begun
/// at the same place on the same window.
pub proof fn session_keeps_its_touch(shell: Shell, event: Event)
    requires
        shell.session is Some,
        shell.step(event).0.session is Some,
    ensures
        shell.step(event).0.session->0.touch_id == shell.session->0.touch_id,
        shell.step(event).0.session->0.start_position == shell.session->0.start_position,
        shell.step(event).0.session->0.origin == shell.session->0.origin,
        shell.step(event).0.session->0.is_opening == shell.session->0.is_opening,
{
}

/// Every event takes a well-formed state to a well-formed state. So at all
/// times a mapped window has its render context and a hidden one has none,
/// a session and an animation never exist together, and neither exists
/// while the drawer is hidden.
pub proof fn step_preserves_wf(shell: Shell, event: Event)
    requires
        shell.wf(),
    ensures
        shell.step(event).0.wf(),
{
}

/// Every sequence of events takes a well-formed state to a well-formed
/// state.
pub proof fn run_preserves_wf(shell: Shell, events: Seq<Event>)
    requires
        shell.wf(),
    ensures
        shell.run(events).0.wf(),
    decreases events.len(),
{
    if events.len() > 0 {
        run_preserves_wf(shell, events.drop_last());
        step_preserves_wf(shell.run(events.drop_last()).0, events.last());
    }
}

/// Frame requests coalesce: a second request before the callback arrives
/// changes nothing and asks for nothing.
pub proof fn second_frame_request_is_ignored(window: Window)
    ensures
        window.request_frame_step().0.request_frame_step() == (
            window.request_frame_step().0,
            Seq::<Effect>::empty(),
        ),
        window.mapped ==> window.frame_step(0).0.request_frame_step().1 == seq![
            Effect::RequestFrame(window.kind),
        ],
{
}

/// Detaching is idempotent, and so is dismissing: the second of two in a
/// row changes nothing and asks for nothing.
pub proof fn second_detach_is_ignored(window: Window)
    ensures
        window.detach_step().0.detach_step() == (
            window.detach_step().0,
            Seq::<Effect>::empty(),
        ),
        window.dismiss_step().0.dismiss_step() == (
            window.dismiss_step().0,
            Seq::<Effect>::empty(),
        ),
{
}

/// Whether the window of this kind has a render context.
pub open spec fn attached(shell: Shell, kind: WindowKind) -> bool {
    match shell.windows {
        Some(w) => if kind == WindowKind::Panel {
            w.panel.context is Some
        } else {
            w.drawer.context is Some
        },
        None => false,
    }
}

/// Whether the window has a render context after one effect, given whether
/// it had one before; `None` where the effect attaches a context to a window
/// that has one, or detaches one from a window that has none.
pub open spec fn replay_effect(before: bool, effect: Effect, kind: WindowKind) -> Option<bool> {
    match effect {
        Effect::Attach(window, _) => if window != kind {
            Some(before)
        } else if before {
            None
        } else {
            Some(true)
        },
        Effect::Detach(window) => if window != kind {
            Some(before)
        } else if before {
            Some(false)
        } else {
            None
        },
        _ => Some(before),
    }
}

/// Whether the window has a render context after a sequence of effects,
/// given whether it had one before; `None` where the sequence does not
/// strictly alternate between attaching and detaching.
pub open spec fn replay(before: bool, effects: Seq<Effect>, kind: WindowKind) -> Option<bool>
    decreases effects.len(),
{
    if effects.len() == 0 {
        Some(before)
    } else {
        match replay(before, effects.drop_last(), kind) {
            Some(then) => replay_effect(then, effects.last(), kind),
            None => None,
        }
    }
}

/// Replaying one effect is `replay_effect`.
proof fn lemma_replay_one(before: bool, effect: Effect, kind: WindowKind)
    ensures
        replay(before, seq![effect], kind) == replay_effect(before, effect, kind),
{
    reveal_with_fuel(replay, 2);
    assert(seq![effect].drop_last() =~= Seq::<Effect>::empty());
}

/// Replaying two sequences on end is replaying the second after the first.
proof fn lemma_replay_concat(before: bool, first: Seq<Effect>, second: Seq<Effect>, kind: WindowKind)
    ensures
        replay(before, first + second, kind) == match replay(before, first, kind) {
            Some(then) => replay(then, second, kind),
            None => None,
        },
    decreases second.len(),
{
    if second.len() == 0 {
        assert(first + second =~= first);
    } else {
        assert((first + second).drop_last() =~= first + second.drop_last());
        assert((first + second).last() == second.last());
        lemma_replay_concat(before, first, second.drop_last(), kind);
    }
}

/// Replaying the effects of each window operation gives the context that
/// the operation leaves to the window, and changes nothing for the other
/// window.
proof fn lemma_window_steps(
    window: Window,
    has: bool,
    kind: WindowKind,
    factor: i32,
    size: Size,
    offset: i64,
)
    requires
        window.wf(),
        window.kind == kind ==> has == (window.context is Some),
    ensures
        replay(has, window.show_step().1, kind) == Some(
            if window.kind == kind {
                window.show_step().0.context is Some
            } else {
                has
            },
        ),
        replay(has, window.dismiss_step().1, kind) == Some(
            if window.kind == kind {
                window.dismiss_step().0.context is Some
            } else {
                has
            },
        ),
        replay(has, window.set_scale_step(factor).1, kind) == Some(
            if window.kind == kind {
                window.set_scale_step(factor).0.context is Some
            } else {
                has
            },
        ),
        replay(has, window.reconfigure_step(size, offset).1, kind) == Some(
            if window.kind == kind {
                window.reconfigure_step(size, offset).0.context is Some
            } else {
                has
            },
        ),
        replay(has, window.request_frame_step().1, kind) == Some(has),
        replay(has, window.frame_step(offset).1, kind) == Some(has),
        window.request_frame_step().0.context == window.context,
        window.frame_step(offset).0.context == window.context,
{
    reveal_with_fuel(replay, 2);
    if !window.mapped {
        let mapped = Window { mapped: true, ..window };
        lemma_replay_one(has, Effect::CreateSurface(window.kind), kind);
        lemma_replay_one(has, Effect::Attach(window.kind, mapped.pixel_size()), kind);
        lemma_replay_concat(
            has,
            seq![Effect::CreateSurface(window.kind)],
            mapped.attach_step().1,
            kind,
        );
    }
    if window.mapped {
        lemma_replay_one(has, Effect::Detach(window.kind), kind);
        lemma_replay_one(false, Effect::DestroySurface(window.kind), kind);
        lemma_replay_one(has, Effect::DestroySurface(window.kind), kind);
        lemma_replay_concat(
            has,
            window.detach_step().1,
            seq![Effect::DestroySurface(window.kind)],
            kind,
        );
    }
    if window.context is Some {
        let scaled = Window { scale_factor: factor, ..window };
        let detached = scaled.detach_step().0;
        let rebuilt = detached.attach_step().0;
        lemma_replay_one(has, Effect::Detach(window.kind), kind);
        lemma_replay_one(false, Effect::Attach(window.kind, detached.pixel_size()), kind);
        lemma_replay_one(has, Effect::Attach(window.kind, detached.pixel_size()), kind);
        lemma_replay_one(true, Effect::RequestFrame(window.kind), kind);
        lemma_replay_one(has, Effect::RequestFrame(window.kind), kind);
        lemma_replay_concat(has, scaled.detach_step().1, detached.attach_step().1, kind);
        lemma_replay_concat(
            has,
            scaled.detach_step().1 + detached.attach_step().1,
            rebuilt.request_frame_step().1,
            kind,
        );
    }
    if window.context is Some {
        let resized = Window { logical_size: size, ..window };
        let fitted = Window { context: Some(resized.pixel_size()), ..resized };
        lemma_replay_one(has, Effect::Resize(window.kind, resized.pixel_size()), kind);
        lemma_replay_concat(
            has,
            seq![Effect::Resize(window.kind, resized.pixel_size())],
            fitted.draw_effects(offset),
            kind,
        );
    }
    lemma_replay_one(has, Effect::RequestFrame(window.kind), kind);
    lemma_replay_one(has, Effect::DrawPanel, kind);
    lemma_replay_one(has, Effect::DrawDrawer(offset), kind);
}

/// Replaying the effects of ending a session changes no context.
proof fn lemma_release_paired(shell: Shell, now: u64, has: bool, kind: WindowKind)
    ensures
        replay(has, shell.release(now).1, kind) == Some(has),
{
    reveal_with_fuel(replay, 2);
    lemma_replay_one(
        has,
        Effect::ScheduleTick(deadline_after(now, ANIMATION_INTERVAL)),
        kind,
    );
}

/// Replaying the effects of one event gives the context that the event
/// leaves.
proof fn lemma_step_paired(shell: Shell, event: Event, kind: WindowKind)
    requires
        shell.wf(),
    ensures
        replay(attached(shell, kind), shell.step(event).1, kind) == Some(
            attached(shell.step(event).0, kind),
        ),
{
    reveal_with_fuel(replay, 2);
    let has = attached(shell, kind);
    lemma_replay_one(has, Effect::CancelTick, kind);
    lemma_replay_one(has, Effect::AcquireTouch, kind);
    lemma_replay_one(has, Effect::ReleaseTouch, kind);
    match (event, shell.windows) {
        (Event::TouchUp { now, .. }, _) | (Event::TouchCancel { now }, _) => {
            lemma_release_paired(shell, now, has, kind);
        },
        (Event::RemoveCapability { now, .. }, _) => {
            lemma_release_paired(shell, now, has, kind);
            lemma_replay_concat(has, seq![Effect::ReleaseTouch], shell.release(now).1, kind);
        },
        (Event::TouchDown { .. }, Some(w)) => {
            lemma_window_steps(w.drawer, has, kind, 1, w.drawer.logical_size, 0);
            lemma_replay_concat(has, shell.cancel_tick(), w.drawer.show_step().1, kind);
        },
        (Event::TouchMotion { .. }, Some(w)) | (Event::AnimationTick { .. }, Some(w)) => {
            lemma_window_steps(w.drawer, has, kind, 1, w.drawer.logical_size, 0);
        },
        (Event::Frame { .. }, Some(w)) => {
            let offset = shell.drawer_offset;
            lemma_window_steps(w.drawer, has, kind, 1, w.drawer.logical_size, offset);
            lemma_window_steps(w.panel, has, kind, 1, w.panel.logical_size, offset);
        },
        (Event::FrameInterval { .. }, Some(w)) => {
            lemma_window_steps(w.drawer, has, kind, 1, w.drawer.logical_size, 0);
            lemma_window_steps(w.panel, has, kind, 1, w.panel.logical_size, 0);
            lemma_replay_concat(
                has,
                w.drawer.request_frame_step().1,
                w.panel.request_frame_step().1,
                kind,
            );
        },
        (Event::ScaleFactorChanged { factor, .. }, Some(w)) => {
            lemma_window_steps(w.drawer, has, kind, factor, w.drawer.logical_size, 0);
            lemma_window_steps(w.panel, has, kind, factor, w.panel.logical_size, 0);
        },
        (Event::Configure { size, .. }, Some(w)) => {
            lemma_window_steps(w.drawer, has, kind, 1, size, shell.drawer_offset);
            lemma_window_steps(w.panel, has, kind, 1, size, shell.drawer_offset);
        },
        _ => {},
    }
}

/// Attaching and detaching are strictly paired. Over every sequence of
/// events, the effects on one window alternate between attaching a render
/// context and detaching it, starting with the one that the window's state
/// at the start allows, and the window has a context at the end exactly if
/// the last of them attached one.
pub proof fn attach_detach_paired(shell: Shell, events: Seq<Event>, kind: WindowKind)
    requires
        shell.wf(),
    ensures
        replay(attached(shell, kind), shell.run(events).1, kind) == Some(
            attached(shell.run(events).0, kind),
        ),
    decreases events.len(),
{
    if events.len() > 0 {
        let before = shell.run(events.drop_last());
        attach_detach_paired(shell, events.drop_last(), kind);
        run_preserves_wf(shell, events.drop_last());
        lemma_step_paired(before.0, events.last(), kind);
        lemma_replay_concat(attached(shell, kind), before.1, before.0.step(events.last()).1, kind);
    }
}

} // verus!
