use vstd::prelude::*;
use crate::behavior::{
    base_measure, dynamic_base_offset_update, dynamic_delta_update, first_base_from,
    first_laid_out_base_from, fixed_base_offset_update, fixed_delta_update,
    floating_base_offset_update, floating_delta_update, invisible_visibility, BaseChild,
    BaseOffsetUpdate, DeltaUpdate, Visibility,
};
use crate::events::{frame_drag_action, frame_events, DragAction, VirtualJoystickEventType};
use crate::input::{
    first_laid_out_area_from, first_style_area_from, first_touch_in_area_from, input_step,
    interaction_area, pressed_position_from, ChildArea, CursorSample, InputFrame, TouchSample,
};
use crate::state::{TouchState, VirtualJoystickState};
use crate::systems::{layout_needed, missing_state_prefix};

verus! {

// ---------------------------------------------------------------------------
// First-match searches, described by the index they stop at.

proof fn lemma_first_touch_at<P>(ts: Seq<TouchSample<P>>, i: int, k: int)
    requires
        0 <= i <= k < ts.len(),
        ts[k].in_area,
        forall|j: int| i <= j < k ==> !(#[trigger] ts[j]).in_area,
    ensures
        first_touch_in_area_from(ts, i) == Some(ts[k]),
    decreases k - i,
{
    if i < k {
        lemma_first_touch_at(ts, i + 1, k);
    }
}

proof fn lemma_first_touch_none<P>(ts: Seq<TouchSample<P>>, i: int)
    requires
        0 <= i <= ts.len(),
        forall|j: int| i <= j < ts.len() ==> !(#[trigger] ts[j]).in_area,
    ensures
        first_touch_in_area_from(ts, i) is None,
    decreases ts.len() - i,
{
    if i < ts.len() {
        lemma_first_touch_none(ts, i + 1);
    }
}

proof fn lemma_pressed_position_at<P>(ts: Seq<TouchSample<P>>, id: u64, i: int, k: int)
    requires
        0 <= i <= k < ts.len(),
        ts[k].id == id,
        forall|j: int| i <= j < k ==> (#[trigger] ts[j]).id != id,
    ensures
        pressed_position_from(ts, id, i) == Some(ts[k].position),
    decreases k - i,
{
    if i < k {
        lemma_pressed_position_at(ts, id, i + 1, k);
    }
}

proof fn lemma_pressed_position_none<P>(ts: Seq<TouchSample<P>>, id: u64, i: int)
    requires
        0 <= i <= ts.len(),
        forall|j: int| i <= j < ts.len() ==> (#[trigger] ts[j]).id != id,
    ensures
        pressed_position_from(ts, id, i) is None,
    decreases ts.len() - i,
{
    if i < ts.len() {
        lemma_pressed_position_none(ts, id, i + 1);
    }
}

/// A child offers a laid-out area.
pub open spec fn offers_area<R>(c: ChildArea<R>) -> bool {
    c.interaction_area is Some || c.background is Some
}

proof fn lemma_laid_out_area_at<R>(cs: Seq<ChildArea<R>>, i: int, k: int)
    requires
        0 <= i <= k < cs.len(),
        offers_area(cs[k]),
        forall|j: int| i <= j < k ==> !offers_area(#[trigger] cs[j]),
    ensures
        first_laid_out_area_from(cs, i) == (if cs[k].interaction_area is Some {
            cs[k].interaction_area
        } else {
            cs[k].background
        }),
    decreases k - i,
{
    if i < k {
        lemma_laid_out_area_at(cs, i + 1, k);
    }
}

proof fn lemma_laid_out_area_none<R>(cs: Seq<ChildArea<R>>, i: int)
    requires
        0 <= i <= cs.len(),
        forall|j: int| i <= j < cs.len() ==> !offers_area(#[trigger] cs[j]),
    ensures
        first_laid_out_area_from(cs, i) is None,
    decreases cs.len() - i,
{
    if i < cs.len() {
        lemma_laid_out_area_none(cs, i + 1);
    }
}

proof fn lemma_style_area_at<R>(cs: Seq<ChildArea<R>>, i: int, k: int)
    requires
        0 <= i <= k < cs.len(),
        cs[k].background_style is Some,
        forall|j: int| i <= j < k ==> (#[trigger] cs[j]).background_style is None,
    ensures
        first_style_area_from(cs, i) == cs[k].background_style,
    decreases k - i,
{
    if i < k {
        lemma_style_area_at(cs, i + 1, k);
    }
}

proof fn lemma_style_area_none<R>(cs: Seq<ChildArea<R>>, i: int)
    requires
        0 <= i <= cs.len(),
        forall|j: int| i <= j < cs.len() ==> (#[trigger] cs[j]).background_style is None,
    ensures
        first_style_area_from(cs, i) is None,
    decreases cs.len() - i,
{
    if i < cs.len() {
        lemma_style_area_none(cs, i + 1);
    }
}

proof fn lemma_first_base_at<R>(cs: Seq<BaseChild<R>>, i: int, k: int)
    requires
        0 <= i <= k < cs.len(),
        cs[k].is_base,
        forall|j: int| i <= j < k ==> !(#[trigger] cs[j]).is_base,
    ensures
        first_base_from(cs, i) == Some(k),
    decreases k - i,
{
    if i < k {
        lemma_first_base_at(cs, i + 1, k);
    }
}

proof fn lemma_first_base_none<R>(cs: Seq<BaseChild<R>>, i: int)
    requires
        0 <= i <= cs.len(),
        forall|j: int| i <= j < cs.len() ==> !(#[trigger] cs[j]).is_base,
    ensures
        first_base_from(cs, i) is None,
    decreases cs.len() - i,
{
    if i < cs.len() {
        lemma_first_base_none(cs, i + 1);
    }
}

/// A base child that layout has placed.
pub open spec fn placed_base<R>(c: BaseChild<R>) -> bool {
    c.is_base && c.laid_out is Some
}

proof fn lemma_laid_out_base_at<R>(cs: Seq<BaseChild<R>>, i: int, k: int)
    requires
        0 <= i <= k < cs.len(),
        placed_base(cs[k]),
        forall|j: int| i <= j < k ==> !placed_base(#[trigger] cs[j]),
    ensures
        first_laid_out_base_from(cs, i) == cs[k].laid_out,
    decreases k - i,
{
    if i < k {
        lemma_laid_out_base_at(cs, i + 1, k);
    }
}

proof fn lemma_laid_out_base_none<R>(cs: Seq<BaseChild<R>>, i: int)
    requires
        0 <= i <= cs.len(),
        forall|j: int| i <= j < cs.len() ==> !placed_base(#[trigger] cs[j]),
    ensures
        first_laid_out_base_from(cs, i) is None,
    decreases cs.len() - i,
{
    if i < cs.len() {
        lemma_laid_out_base_none(cs, i + 1);
    }
}

// ---------------------------------------------------------------------------
// Reading a frame of input.

/// An idle joystick takes the first finger in its area: a fresh touch press
/// that starts and stands where that finger is.
pub proof fn law_idle_takes_first_finger_in_area<P>(s: VirtualJoystickState<P>, f: InputFrame<P>, k: int)
    requires
        s.touch_state is None,
        0 <= k < f.pressed_touches@.len(),
        f.pressed_touches@[k].in_area,
        forall|j: int| 0 <= j < k ==> !(#[trigger] f.pressed_touches@[j]).in_area,
    ensures
        input_step(s, f).touch_state == Some(
            TouchState {
                id: f.pressed_touches@[k].id,
                is_mouse: false,
                start: f.pressed_touches@[k].position,
                current: f.pressed_touches@[k].position,
                just_pressed: true,
            },
        ),
        !input_step(s, f).just_released,
        input_step(s, f).base_offset == s.base_offset,
        input_step(s, f).delta == s.delta,
{
    lemma_first_touch_at(f.pressed_touches@, 0, k);
}

/// With no finger in its area, an idle joystick takes the left mouse button
/// when it is held with the cursor in the area, and stays idle otherwise.
pub proof fn law_idle_takes_mouse_or_nothing<P>(s: VirtualJoystickState<P>, f: InputFrame<P>)
    requires
        s.touch_state is None,
        forall|j: int| 0 <= j < f.pressed_touches@.len() ==> !(#[trigger] f.pressed_touches@[j]).in_area,
    ensures
        (f.mouse_pressed && (f.cursor matches Some(c) && c.in_area)) ==> input_step(s, f).touch_state == Some(
            TouchState {
                id: 0,
                is_mouse: true,
                start: f.cursor->0.position,
                current: f.cursor->0.position,
                just_pressed: f.mouse_just_pressed,
            },
        ),
        !(f.mouse_pressed && (f.cursor matches Some(c) && c.in_area)) ==> input_step(s, f).touch_state is None,
        !input_step(s, f).just_released,
        input_step(s, f).base_offset == s.base_offset,
        input_step(s, f).delta == s.delta,
{
    lemma_first_touch_none(f.pressed_touches@, 0);
}

/// A held mouse press ends whenever the left button goes up, wherever the
/// cursor is; otherwise it follows the cursor, or stays put without one.
pub proof fn law_mouse_press_release_and_follow<P>(s: VirtualJoystickState<P>, t: TouchState<P>, f: InputFrame<P>)
    requires
        s.touch_state == Some(t),
        t.is_mouse,
    ensures
        f.mouse_just_released ==> input_step(s, f).touch_state is None && input_step(s, f).just_released,
        !f.mouse_just_released ==> !input_step(s, f).just_released && input_step(s, f).touch_state == Some(
            TouchState {
                id: t.id,
                is_mouse: true,
                start: t.start,
                current: match f.cursor {
                    Some(c) => c.position,
                    None => t.current,
                },
                just_pressed: false,
            },
        ),
        input_step(s, f).base_offset == s.base_offset,
        input_step(s, f).delta == s.delta,
{
}

/// A held touch press ends when its finger is among those lifted.
pub proof fn law_touch_press_release<P>(s: VirtualJoystickState<P>, t: TouchState<P>, f: InputFrame<P>, k: int)
    requires
        s.touch_state == Some(t),
        !t.is_mouse,
        0 <= k < f.released_touch_ids@.len(),
        f.released_touch_ids@[k] == t.id,
    ensures
        input_step(s, f).touch_state is None,
        input_step(s, f).just_released,
        input_step(s, f).base_offset == s.base_offset,
        input_step(s, f).delta == s.delta,
{
    assert(f.released_touch_ids@.contains(t.id));
}

/// A held touch press whose finger is not lifted follows the first pressed
/// finger with its id, and stays put when no such finger is listed.
pub proof fn law_touch_press_follows_finger<P>(s: VirtualJoystickState<P>, t: TouchState<P>, f: InputFrame<P>)
    requires
        s.touch_state == Some(t),
        !t.is_mouse,
        forall|j: int| 0 <= j < f.released_touch_ids@.len() ==> (#[trigger] f.released_touch_ids@[j]) != t.id,
    ensures
        !input_step(s, f).just_released,
        forall|k: int|
            0 <= k < f.pressed_touches@.len() && (#[trigger] f.pressed_touches@[k]).id == t.id && (forall|j: int|
                0 <= j < k ==> (#[trigger] f.pressed_touches@[j]).id != t.id) ==> input_step(s, f).touch_state
                == Some(
                TouchState {
                    id: t.id,
                    is_mouse: false,
                    start: t.start,
                    current: f.pressed_touches@[k].position,
                    just_pressed: false,
                },
            ),
        (forall|j: int| 0 <= j < f.pressed_touches@.len() ==> (#[trigger] f.pressed_touches@[j]).id != t.id)
            ==> input_step(s, f).touch_state == Some(
            TouchState { id: t.id, is_mouse: false, start: t.start, current: t.current, just_pressed: false },
        ),
{
    assert(!f.released_touch_ids@.contains(t.id));
    assert forall|k: int|
        0 <= k < f.pressed_touches@.len() && (#[trigger] f.pressed_touches@[k]).id == t.id && (forall|j: int|
            0 <= j < k ==> (#[trigger] f.pressed_touches@[j]).id != t.id) implies input_step(s, f).touch_state
        == Some(
        TouchState {
            id: t.id,
            is_mouse: false,
            start: t.start,
            current: f.pressed_touches@[k].position,
            just_pressed: false,
        },
    ) by {
        lemma_pressed_position_at(f.pressed_touches@, t.id, 0, k);
    }
    if forall|j: int| 0 <= j < f.pressed_touches@.len() ==> (#[trigger] f.pressed_touches@[j]).id != t.id {
        lemma_pressed_position_none(f.pressed_touches@, t.id, 0);
    }
}

/// The area an idle joystick listens on: the first child offering a laid-out
/// area gives it (its interaction area before its base).
pub proof fn law_interaction_area_first_offer<R>(cs: Seq<ChildArea<R>>, fullscreen: bool, parent: R, k: int)
    requires
        0 <= k < cs.len(),
        offers_area(cs[k]),
        forall|j: int| 0 <= j < k ==> !offers_area(#[trigger] cs[j]),
    ensures
        cs[k].interaction_area matches Some(r) ==> interaction_area(cs, fullscreen, parent) == r,
        cs[k].interaction_area is None ==> Some(interaction_area(cs, fullscreen, parent)) == cs[k].background,
{
    lemma_laid_out_area_at(cs, 0, k);
}

/// Without any laid-out area: a full-window joystick listens on its own
/// rectangle; another one on the first base worked out from style, else on
/// its own rectangle.
pub proof fn law_interaction_area_fallback<R>(cs: Seq<ChildArea<R>>, fullscreen: bool, parent: R)
    requires
        forall|j: int| 0 <= j < cs.len() ==> !offers_area(#[trigger] cs[j]),
    ensures
        fullscreen ==> interaction_area(cs, fullscreen, parent) == parent,
        forall|k: int|
            0 <= k < cs.len() && (#[trigger] cs[k]).background_style is Some && (forall|j: int|
                0 <= j < k ==> (#[trigger] cs[j]).background_style is None) ==> !fullscreen ==> Some(
                interaction_area(cs, fullscreen, parent),
            ) == cs[k].background_style,
        (forall|j: int| 0 <= j < cs.len() ==> (#[trigger] cs[j]).background_style is None) ==> interaction_area(
            cs,
            fullscreen,
            parent,
        ) == parent,
{
    lemma_laid_out_area_none(cs, 0);
    assert forall|k: int|
        0 <= k < cs.len() && (#[trigger] cs[k]).background_style is Some && (forall|j: int|
            0 <= j < k ==> (#[trigger] cs[j]).background_style is None) implies !fullscreen ==> Some(
        interaction_area(cs, fullscreen, parent),
    ) == cs[k].background_style by {
        lemma_style_area_at(cs, 0, k);
    }
    if forall|j: int| 0 <= j < cs.len() ==> (#[trigger] cs[j]).background_style is None {
        lemma_style_area_none(cs, 0);
    }
}

// ---------------------------------------------------------------------------
// Events and callbacks.

/// While a press is held (and not released this frame) every event reports the
/// press's current position and the knob deflection, the last event is a
/// `Drag`, and a `Press` comes first exactly in the frame the press began.
pub proof fn law_held_press_events<P>(s: VirtualJoystickState<P>, t: TouchState<P>, origin: P)
    requires
        !s.just_released,
        s.touch_state == Some(t),
    ensures
        frame_events(s, origin).len() == (if t.just_pressed { 2int } else { 1int }),
        forall|i: int|
            0 <= i < frame_events(s, origin).len() ==> (#[trigger] frame_events(s, origin)[i]).value == t.current
                && frame_events(s, origin)[i].delta == s.delta,
        frame_events(s, origin)[frame_events(s, origin).len() - 1].event == VirtualJoystickEventType::Drag,
        t.just_pressed ==> frame_events(s, origin)[0].event == VirtualJoystickEventType::Press,
        frame_drag_action(s) == Some(if t.just_pressed { DragAction::StartDrag } else { DragAction::Drag }),
{
}

/// A release fires one `Up` at the origin with the knob deflection and asks for
/// `EndDrag`; an idle joystick fires nothing and asks for nothing.
pub proof fn law_release_and_idle_events<P>(s: VirtualJoystickState<P>, origin: P)
    ensures
        s.just_released ==> frame_events(s, origin).len() == 1 && frame_events(s, origin)[0].event
            == VirtualJoystickEventType::Up && frame_events(s, origin)[0].value == origin && frame_events(
            s,
            origin,
        )[0].delta == s.delta && frame_drag_action(s) == Some(DragAction::EndDrag),
        (!s.just_released && s.touch_state is None) ==> frame_events(s, origin).len() == 0 && frame_drag_action(s)
            is None,
{
}

// ---------------------------------------------------------------------------
// Behaviors.

/// An invisible joystick: shown in the frame a press begins; hidden while
/// nothing is pressed or on release; otherwise left as it is.
pub proof fn law_invisible_visibility<P>(s: VirtualJoystickState<P>, v: Visibility)
    ensures
        (s.touch_state matches Some(t) && t.just_pressed) ==> invisible_visibility(s, v) == Visibility::Inherited,
        s.touch_state is None ==> invisible_visibility(s, v) == Visibility::Hidden,
        (s.touch_state matches Some(t) && !t.just_pressed && s.just_released) ==> invisible_visibility(s, v)
            == Visibility::Hidden,
        (s.touch_state matches Some(t) && !t.just_pressed && !s.just_released) ==> invisible_visibility(s, v) == v,
{
}

/// The knob follows every held press, for a fixed and a dynamic joystick; a
/// floating one holds the knob centered in the frame the press begins only.
/// With nothing pressed the knob is centered.
pub proof fn law_knob_follows_held_press<P>(s: VirtualJoystickState<P>)
    ensures
        s.touch_state is Some ==> fixed_delta_update(s) == DeltaUpdate::FromTouch,
        s.touch_state is Some ==> dynamic_delta_update(s) == DeltaUpdate::FromTouch,
        (s.touch_state matches Some(t) && !t.just_pressed) ==> floating_delta_update(s) == DeltaUpdate::FromTouch,
        (s.touch_state matches Some(t) && t.just_pressed) ==> floating_delta_update(s) == DeltaUpdate::Zero,
        s.touch_state is None ==> fixed_delta_update(s) == DeltaUpdate::Zero,
        s.touch_state is None ==> dynamic_delta_update(s) == DeltaUpdate::Zero,
        s.touch_state is None ==> floating_delta_update(s) == DeltaUpdate::Zero,
{
}

/// Where each base goes: a fixed base always home; a floating base under a
/// fresh press and nowhere else, never home; a dynamic base under a fresh
/// press, home on release, and nowhere else.
pub proof fn law_base_placement<P>(s: VirtualJoystickState<P>)
    ensures
        fixed_base_offset_update(s) == BaseOffsetUpdate::Reset,
        (s.touch_state matches Some(t) && t.just_pressed) ==> floating_base_offset_update(s)
            == BaseOffsetUpdate::FromTouchStart,
        !(s.touch_state matches Some(t) && t.just_pressed) ==> floating_base_offset_update(s)
            == BaseOffsetUpdate::Keep,
        (s.touch_state matches Some(t) && t.just_pressed) ==> dynamic_base_offset_update(s)
            == BaseOffsetUpdate::FromTouchStart,
        (s.touch_state is None && s.just_released) ==> dynamic_base_offset_update(s) == BaseOffsetUpdate::Reset,
        (s.touch_state matches Some(t) && !t.just_pressed) ==> dynamic_base_offset_update(s)
            == BaseOffsetUpdate::Keep,
        (s.touch_state is None && !s.just_released) ==> dynamic_base_offset_update(s) == BaseOffsetUpdate::Keep,
{
}

/// The base's measure comes from the first base child: laid out, else styled,
/// else the default; the default too when no child is a base.
pub proof fn law_base_measure<R>(cs: Seq<BaseChild<R>>, default: R)
    ensures
        forall|k: int|
            0 <= k < cs.len() && (#[trigger] cs[k]).is_base && (forall|j: int|
                0 <= j < k ==> !(#[trigger] cs[j]).is_base) ==> base_measure(cs, default) == (match cs[k].laid_out {
                Some(r) => r,
                None => match cs[k].styled {
                    Some(r) => r,
                    None => default,
                },
            }),
        (forall|j: int| 0 <= j < cs.len() ==> !(#[trigger] cs[j]).is_base) ==> base_measure(cs, default) == default,
{
    assert forall|k: int|
        0 <= k < cs.len() && (#[trigger] cs[k]).is_base && (forall|j: int|
            0 <= j < k ==> !(#[trigger] cs[j]).is_base) implies base_measure(cs, default) == (match cs[k].laid_out {
        Some(r) => r,
        None => match cs[k].styled {
            Some(r) => r,
            None => default,
        },
    }) by {
        lemma_first_base_at(cs, 0, k);
    }
    if forall|j: int| 0 <= j < cs.len() ==> !(#[trigger] cs[j]).is_base {
        lemma_first_base_none(cs, 0);
    }
}

/// The placed base is the first base child that layout has placed, passing
/// over base children not placed yet; none when no base child is placed.
pub proof fn law_laid_out_base<R>(cs: Seq<BaseChild<R>>)
    ensures
        forall|k: int|
            0 <= k < cs.len() && placed_base(#[trigger] cs[k]) && (forall|j: int|
                0 <= j < k ==> !placed_base(#[trigger] cs[j])) ==> first_laid_out_base_from(cs, 0) == cs[k].laid_out,
        (forall|j: int| 0 <= j < cs.len() ==> !placed_base(#[trigger] cs[j])) ==> first_laid_out_base_from(cs, 0)
            is None,
{
    assert forall|k: int|
        0 <= k < cs.len() && placed_base(#[trigger] cs[k]) && (forall|j: int|
            0 <= j < k ==> !placed_base(#[trigger] cs[j])) implies first_laid_out_base_from(cs, 0)
        == cs[k].laid_out by {
        lemma_laid_out_base_at(cs, 0, k);
    }
    if forall|j: int| 0 <= j < cs.len() ==> !placed_base(#[trigger] cs[j]) {
        lemma_laid_out_base_none(cs, 0);
    }
}

// ---------------------------------------------------------------------------
// Systems.

proof fn lemma_missing_state_prefix_stable(js: Seq<(u64, bool)>, e: (u64, bool), n: int)
    requires
        0 <= n <= js.len(),
    ensures
        missing_state_prefix(js.push(e), n) == missing_state_prefix(js, n),
    decreases n,
{
    if n > 0 {
        lemma_missing_state_prefix_stable(js, e, n - 1);
        assert(js.push(e)[n - 1] == js[n - 1]);
    }
}

/// No joystick, nothing listed; one more joystick at the end adds its id at
/// the end of the list exactly when it has no state.
pub proof fn law_missing_state_append(js: Seq<(u64, bool)>, e: (u64, bool))
    ensures
        missing_state_prefix(Seq::<(u64, bool)>::empty(), 0) == Seq::<u64>::empty(),
        missing_state_prefix(js.push(e), js.len() + 1int) == (if e.1 {
            missing_state_prefix(js, js.len() as int)
        } else {
            missing_state_prefix(js, js.len() as int).push(e.0)
        }),
{
    lemma_missing_state_prefix_stable(js, e, js.len() as int);
    assert(js.push(e)[js.len() as int] == e);
}

/// Layout is skipped exactly for a hidden joystick with nothing pressed.
pub proof fn law_layout_skipped_when_hidden_and_idle<P>(s: VirtualJoystickState<P>, v: Option<Visibility>)
    ensures
        !layout_needed(s, v) <==> (v == Some(Visibility::Hidden) && s.touch_state is None),
{
}

} // verus!
