use vstd::prelude::*;
use crate::input::{acquired_touch, first_touch_in_area, input_step, touch_released, InputFrame, TouchSample};
use crate::state::{TouchState, VirtualJoystickState};

verus! {

/// Kind of a joystick event.
#[derive(Clone, Copy, Debug, PartialEq, Eq)]
pub enum VirtualJoystickEventType {
    Press,
    Drag,
    Up,
}

/// The callback that a joystick's action receives for a frame.
#[derive(Clone, Copy, Debug, PartialEq, Eq)]
pub enum DragAction {
    StartDrag,
    Drag,
    EndDrag,
}

/// One event that a joystick fires in a frame.
#[derive(Clone, Copy, Debug, PartialEq)]
pub struct FiredEvent<P> {
    pub event: VirtualJoystickEventType,
    /// Where the press is; the origin for a release.
    pub value: P,
    /// The knob deflection at the time of the event.
    pub delta: P,
}

/// The events of one frame, in the order in which they are sent.
pub open spec fn frame_events<P>(s: VirtualJoystickState<P>, origin: P) -> Seq<FiredEvent<P>> {
    if s.just_released {
        seq![FiredEvent { event: VirtualJoystickEventType::Up, value: origin, delta: s.delta }]
    } else {
        match s.touch_state {
            Some(t) => if t.just_pressed {
                seq![
                    FiredEvent { event: VirtualJoystickEventType::Press, value: t.current, delta: s.delta },
                    FiredEvent { event: VirtualJoystickEventType::Drag, value: t.current, delta: s.delta },
                ]
            } else {
                seq![FiredEvent { event: VirtualJoystickEventType::Drag, value: t.current, delta: s.delta }]
            },
            None => seq![],
        }
    }
}

/// The action callback owed for a frame, if any.
pub open spec fn frame_drag_action<P>(s: VirtualJoystickState<P>) -> Option<DragAction> {
    if s.just_released {
        Some(DragAction::EndDrag)
    } else {
        match s.touch_state {
            Some(t) => if t.just_pressed { Some(DragAction::StartDrag) } else { Some(DragAction::Drag) },
            None => None,
        }
    }
}

/// Events to send for a joystick this frame: a single `Up` on release; while
/// held, a `Drag` every frame, preceded by a `Press` in the frame the press
/// began; nothing while idle.
pub fn fire_events<P: Copy>(state: &VirtualJoystickState<P>, origin: P) -> (out: Vec<FiredEvent<P>>)
    ensures
        out@ == frame_events(*state, origin),
{
    let mut out: Vec<FiredEvent<P>> = Vec::new();
    if state.just_released {
        out.push(FiredEvent { event: VirtualJoystickEventType::Up, value: origin, delta: state.delta });
        return out;
    }
    match state.touch_state {
        Some(t) => {
            if t.just_pressed {
                out.push(FiredEvent { event: VirtualJoystickEventType::Press, value: t.current, delta: state.delta });
            }
            out.push(FiredEvent { event: VirtualJoystickEventType::Drag, value: t.current, delta: state.delta });
        },
        None => {},
    }
    out
}

/// Which action callback a joystick is owed this frame.
pub fn drag_action<P: Copy>(state: &VirtualJoystickState<P>) -> (a: Option<DragAction>)
    ensures
        a == frame_drag_action(*state),
{
    if state.just_released {
        Some(DragAction::EndDrag)
    } else {
        match state.touch_state {
            Some(t) => if t.just_pressed { Some(DragAction::StartDrag) } else { Some(DragAction::Drag) },
            None => None,
        }
    }
}

/// The events of a frame and the action callback of that frame tell the same
/// story: a release gives `EndDrag` and a lone `Up` at the origin, a fresh
/// press gives `StartDrag` and `Press` then `Drag`, a held press gives `Drag`
/// and a lone `Drag`, and an idle joystick gives neither.
pub proof fn lemma_events_match_drag_action<P>(s: VirtualJoystickState<P>, origin: P)
    ensures
        frame_drag_action(s) is None <==> frame_events(s, origin).len() == 0,
        frame_drag_action(s) == Some(DragAction::EndDrag) <==> (frame_events(s, origin).len() == 1
            && frame_events(s, origin)[0].event == VirtualJoystickEventType::Up),
        frame_drag_action(s) == Some(DragAction::StartDrag) <==> (frame_events(s, origin).len() == 2
            && frame_events(s, origin)[0].event == VirtualJoystickEventType::Press
            && frame_events(s, origin)[1].event == VirtualJoystickEventType::Drag),
        frame_drag_action(s) == Some(DragAction::Drag) <==> (frame_events(s, origin).len() == 1
            && frame_events(s, origin)[0].event == VirtualJoystickEventType::Drag),
        forall|i: int|
            0 <= i < frame_events(s, origin).len() ==> (#[trigger] frame_events(s, origin)[i]).delta == s.delta,
        forall|i: int|
            0 <= i < frame_events(s, origin).len() && frame_events(s, origin)[i].event
                == VirtualJoystickEventType::Up ==> (#[trigger] frame_events(s, origin)[i]).value == origin,
{
}

/// Kinds of the events of a frame, in order.
pub open spec fn event_kinds<P>(s: VirtualJoystickState<P>, origin: P) -> Seq<VirtualJoystickEventType> {
    frame_events(s, origin).map_values(|e: FiredEvent<P>| e.event)
}

/// A finger that lands on an idle joystick is reported, in that same frame,
/// as a `Press` and a `Drag` at the point where it landed.
pub proof fn lemma_press_fires_at_touch_point<P>(
    s: VirtualJoystickState<P>,
    f: InputFrame<P>,
    t: TouchSample<P>,
    origin: P,
)
    requires
        s.touch_state is None,
        first_touch_in_area(f.pressed_touches@) == Some(t),
    ensures
        frame_events(input_step(s, f), origin) == seq![
            FiredEvent { event: VirtualJoystickEventType::Press, value: t.position, delta: s.delta },
            FiredEvent { event: VirtualJoystickEventType::Drag, value: t.position, delta: s.delta },
        ],
        input_step(s, f).touch_state matches Some(h) && !h.is_mouse && h.id == t.id,
{
}

/// A press that begins, is held for a frame and is let go fires `Press` and
/// `Drag`, then `Drag`, then a single `Up`, and nothing in the frame after.
pub proof fn lemma_press_hold_release_events<P>(
    s: VirtualJoystickState<P>,
    t: TouchState<P>,
    f1: InputFrame<P>,
    f2: InputFrame<P>,
    f3: InputFrame<P>,
    f4: InputFrame<P>,
    origin: P,
)
    requires
        s.touch_state is None,
        acquired_touch(f1) == Some(t),
        t.just_pressed,
        !touch_released(t, f2),
        touch_released(t, f3),
        acquired_touch(f4) is None,
    ensures
        event_kinds(input_step(s, f1), origin) == seq![
            VirtualJoystickEventType::Press,
            VirtualJoystickEventType::Drag,
        ],
        event_kinds(input_step(input_step(s, f1), f2), origin) == seq![VirtualJoystickEventType::Drag],
        event_kinds(input_step(input_step(input_step(s, f1), f2), f3), origin) == seq![
            VirtualJoystickEventType::Up,
        ],
        event_kinds(input_step(input_step(input_step(input_step(s, f1), f2), f3), f4), origin) == Seq::<
            VirtualJoystickEventType,
        >::empty(),
{
    let s1 = input_step(s, f1);
    let s2 = input_step(s1, f2);
    let s3 = input_step(s2, f3);
    let s4 = input_step(s3, f4);
    assert(event_kinds(s1, origin) =~= seq![VirtualJoystickEventType::Press, VirtualJoystickEventType::Drag]);
    assert(event_kinds(s2, origin) =~= seq![VirtualJoystickEventType::Drag]);
    assert(event_kinds(s3, origin) =~= seq![VirtualJoystickEventType::Up]);
    assert(event_kinds(s4, origin) =~= Seq::<VirtualJoystickEventType>::empty());
}

} // verus!
