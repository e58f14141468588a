use vstd::prelude::*;
use crate::state::{state_wf, TouchState, VirtualJoystickState};

verus! {

/// A finger on the screen during the current frame.
#[derive(Clone, Copy, Debug, PartialEq)]
pub struct TouchSample<P> {
    pub id: u64,
    /// Screen position of the finger.
    pub position: P,
    /// The position lies inside the joystick's interaction area.
    pub in_area: bool,
}

/// The mouse cursor during the current frame.
#[derive(Clone, Copy, Debug, PartialEq)]
pub struct CursorSample<P> {
    /// Screen position of the cursor.
    pub position: P,
    /// The position lies inside the joystick's interaction area.
    pub in_area: bool,
}

/// Everything the input step reads about one frame.
///
/// Where no window is available, screen positions cannot be had: such a frame
/// carries no pressed touches and no cursor.
#[derive(Clone, Debug)]
pub struct InputFrame<P> {
    /// Fingers held down this frame, in the order the touch input lists them.
    pub pressed_touches: Vec<TouchSample<P>>,
    /// Identifiers of the fingers lifted this frame.
    pub released_touch_ids: Vec<u64>,
    /// The left mouse button is held.
    pub mouse_pressed: bool,
    /// The left mouse button went down this frame.
    pub mouse_just_pressed: bool,
    /// The left mouse button went up this frame.
    pub mouse_just_released: bool,
    /// The cursor, while it is over the window.
    pub cursor: Option<CursorSample<P>>,
}

/// First touch, from index `i` on, that lies in the interaction area.
pub open spec fn first_touch_in_area_from<P>(ts: Seq<TouchSample<P>>, i: int) -> Option<TouchSample<P>>
    decreases ts.len() - i,
{
    if 0 <= i < ts.len() {
        if ts[i].in_area { Some(ts[i]) } else { first_touch_in_area_from(ts, i + 1) }
    } else {
        None
    }
}

/// First touch of the frame that lies in the interaction area.
pub open spec fn first_touch_in_area<P>(ts: Seq<TouchSample<P>>) -> Option<TouchSample<P>> {
    first_touch_in_area_from(ts, 0)
}

/// Position of the first pressed touch, from index `i` on, with the given id.
pub open spec fn pressed_position_from<P>(ts: Seq<TouchSample<P>>, id: u64, i: int) -> Option<P>
    decreases ts.len() - i,
{
    if 0 <= i < ts.len() {
        if ts[i].id == id { Some(ts[i].position) } else { pressed_position_from(ts, id, i + 1) }
    } else {
        None
    }
}

/// Position of the pressed touch with the given id.
pub open spec fn pressed_position<P>(ts: Seq<TouchSample<P>>, id: u64) -> Option<P> {
    pressed_position_from(ts, id, 0)
}

/// The press that an idle joystick picks up this frame: the first finger in
/// its area, else the held left mouse button with the cursor in its area.
pub open spec fn acquired_touch<P>(f: InputFrame<P>) -> Option<TouchState<P>> {
    match first_touch_in_area(f.pressed_touches@) {
        Some(t) => Some(
            TouchState { id: t.id, is_mouse: false, start: t.position, current: t.position, just_pressed: true },
        ),
        None => match f.cursor {
            Some(c) => if f.mouse_pressed && c.in_area {
                Some(
                    TouchState {
                        id: 0,
                        is_mouse: true,
                        start: c.position,
                        current: c.position,
                        just_pressed: f.mouse_just_pressed,
                    },
                )
            } else {
                None
            },
            None => None,
        },
    }
}

/// The held press ends this frame.
pub open spec fn touch_released<P>(t: TouchState<P>, f: InputFrame<P>) -> bool {
    if t.is_mouse {
        f.mouse_just_released
    } else {
        f.released_touch_ids@.contains(t.id)
    }
}

/// Where the held press is now, where the frame says.
pub open spec fn tracked_position<P>(t: TouchState<P>, f: InputFrame<P>) -> Option<P> {
    if t.is_mouse {
        match f.cursor {
            Some(c) => Some(c.position),
            None => None,
        }
    } else {
        pressed_position(f.pressed_touches@, t.id)
    }
}

/// The held press, carried into the next frame.
pub open spec fn held_touch<P>(t: TouchState<P>, f: InputFrame<P>) -> TouchState<P> {
    TouchState {
        id: t.id,
        is_mouse: t.is_mouse,
        start: t.start,
        current: match tracked_position(t, f) {
            Some(p) => p,
            None => t.current,
        },
        just_pressed: false,
    }
}

/// A joystick's state after reading one frame of input.
pub open spec fn input_step<P>(s: VirtualJoystickState<P>, f: InputFrame<P>) -> VirtualJoystickState<P> {
    match s.touch_state {
        None => VirtualJoystickState {
            touch_state: acquired_touch(f),
            just_released: false,
            base_offset: s.base_offset,
            delta: s.delta,
        },
        Some(t) => if touch_released(t, f) {
            VirtualJoystickState { touch_state: None, just_released: true, base_offset: s.base_offset, delta: s.delta }
        } else {
            VirtualJoystickState {
                touch_state: Some(held_touch(t, f)),
                just_released: false,
                base_offset: s.base_offset,
                delta: s.delta,
            }
        },
    }
}

fn find_touch_in_area<P: Copy>(ts: &Vec<TouchSample<P>>) -> (r: Option<TouchSample<P>>)
    ensures
        r == first_touch_in_area(ts@),
{
    let mut i: usize = 0;
    while i < ts.len()
        invariant
            i <= ts.len(),
            first_touch_in_area(ts@) == first_touch_in_area_from(ts@, i as int),
        decreases ts.len() - i,
    {
        if ts[i].in_area {
            return Some(ts[i]);
        }
        i = i + 1;
    }
    None
}

fn find_pressed_position<P: Copy>(ts: &Vec<TouchSample<P>>, id: u64) -> (r: Option<P>)
    ensures
        r == pressed_position(ts@, id),
{
    let mut i: usize = 0;
    while i < ts.len()
        invariant
            i <= ts.len(),
            pressed_position(ts@, id) == pressed_position_from(ts@, id, i as int),
        decreases ts.len() - i,
    {
        if ts[i].id == id {
            return Some(ts[i].position);
        }
        i = i + 1;
    }
    None
}

fn contains_id(ids: &Vec<u64>, id: u64) -> (r: bool)
    ensures
        r == ids@.contains(id),
{
    let mut i: usize = 0;
    while i < ids.len()
        invariant
            i <= ids.len(),
            forall|j: int| 0 <= j < i ==> ids@[j] != id,
        decreases ids.len() - i,
    {
        if ids[i] == id {
            return true;
        }
        i = i + 1;
    }
    false
}

/// Reads one frame of input into a joystick's state.
///
/// The flags of the previous frame are cleared first. An idle joystick then
/// picks up the first finger in its area or, failing that, the held left
/// mouse button with the cursor in its area. A held joystick is released when
/// its finger or the mouse button goes up, and otherwise follows the finger or
/// the cursor. The base offset and the knob deflection are left as they are.
pub fn update_touch_state<P: Copy>(state: &mut VirtualJoystickState<P>, frame: &InputFrame<P>)
    ensures
        *final(state) == input_step(*old(state), *frame),
{
    match state.touch_state {
        None => {
            let acquired = match find_touch_in_area(&frame.pressed_touches) {
                Some(t) => Some(
                    TouchState { id: t.id, is_mouse: false, start: t.position, current: t.position, just_pressed: true },
                ),
                None => match frame.cursor {
                    Some(c) => if frame.mouse_pressed && c.in_area {
                        Some(
                            TouchState {
                                id: 0,
                                is_mouse: true,
                                start: c.position,
                                current: c.position,
                                just_pressed: frame.mouse_just_pressed,
                            },
                        )
                    } else {
                        None
                    },
                    None => None,
                },
            };
            state.touch_state = acquired;
            state.just_released = false;
        },
        Some(t) => {
            let released = if t.is_mouse {
                frame.mouse_just_released
            } else {
                contains_id(&frame.released_touch_ids, t.id)
            };
            if released {
                state.touch_state = None;
                state.just_released = true;
            } else {
                let position = if t.is_mouse {
                    match frame.cursor {
                        Some(c) => Some(c.position),
                        None => None,
                    }
                } else {
                    find_pressed_position(&frame.pressed_touches, t.id)
                };
                let current = match position {
                    Some(p) => p,
                    None => t.current,
                };
                state.touch_state = Some(
                    TouchState { id: t.id, is_mouse: t.is_mouse, start: t.start, current, just_pressed: false },
                );
                state.just_released = false;
            }
        },
    }
}

/// What one child of a joystick offers as an area to listen on.
#[derive(Clone, Copy, Debug, PartialEq)]
pub struct ChildArea<R> {
    /// Laid-out rectangle of a child marked as the interaction area.
    pub interaction_area: Option<R>,
    /// Laid-out rectangle of a child marked as the joystick base.
    pub background: Option<R>,
    /// Rectangle of a base child worked out from its style alone.
    pub background_style: Option<R>,
}

/// The laid-out area that a child offers: its interaction area first, else
/// its base.
pub open spec fn laid_out_area<R>(c: ChildArea<R>) -> Option<R> {
    match c.interaction_area {
        Some(r) => Some(r),
        None => c.background,
    }
}

/// First laid-out area among the children, from index `i` on.
pub open spec fn first_laid_out_area_from<R>(cs: Seq<ChildArea<R>>, i: int) -> Option<R>
    decreases cs.len() - i,
{
    if 0 <= i < cs.len() {
        match laid_out_area(cs[i]) {
            Some(r) => Some(r),
            None => first_laid_out_area_from(cs, i + 1),
        }
    } else {
        None
    }
}

/// First base rectangle worked out from style, from index `i` on.
pub open spec fn first_style_area_from<R>(cs: Seq<ChildArea<R>>, i: int) -> Option<R>
    decreases cs.len() - i,
{
    if 0 <= i < cs.len() {
        match cs[i].background_style {
            Some(r) => Some(r),
            None => first_style_area_from(cs, i + 1),
        }
    } else {
        None
    }
}

/// The area an idle joystick listens on: the first child's laid-out
/// interaction area or base; else, unless the joystick covers the whole
/// window, the first base worked out from its style; else the joystick's own
/// rectangle.
pub open spec fn interaction_area<R>(cs: Seq<ChildArea<R>>, fullscreen_parent: bool, parent_rect: R) -> R {
    match first_laid_out_area_from(cs, 0) {
        Some(r) => r,
        None => if fullscreen_parent {
            parent_rect
        } else {
            match first_style_area_from(cs, 0) {
                Some(r) => r,
                None => parent_rect,
            }
        },
    }
}

/// Picks the rectangle an idle joystick listens on (see [`interaction_area`]).
pub fn select_interaction_rect<R: Copy>(
    children: &Vec<ChildArea<R>>,
    fullscreen_parent: bool,
    parent_rect: R,
) -> (r: R)
    ensures
        r == interaction_area(children@, fullscreen_parent, parent_rect),
{
    let mut i: usize = 0;
    while i < children.len()
        invariant
            i <= children.len(),
            first_laid_out_area_from(children@, 0) == first_laid_out_area_from(children@, i as int),
        decreases children.len() - i,
    {
        let c = children[i];
        match c.interaction_area {
            Some(r) => return r,
            None => {},
        }
        match c.background {
            Some(r) => return r,
            None => {},
        }
        i = i + 1;
    }
    if fullscreen_parent {
        return parent_rect;
    }
    let mut j: usize = 0;
    while j < children.len()
        invariant
            j <= children.len(),
            first_laid_out_area_from(children@, 0) is None,
            !fullscreen_parent,
            first_style_area_from(children@, 0) == first_style_area_from(children@, j as int),
        decreases children.len() - j,
    {
        match children[j].background_style {
            Some(r) => return r,
            None => {},
        }
        j = j + 1;
    }
    parent_rect
}

/// Every state the input step produces reports a release only once the press
/// is gone.
pub proof fn lemma_input_step_wf<P>(s: VirtualJoystickState<P>, f: InputFrame<P>)
    ensures
        state_wf(input_step(s, f)),
{
}

/// A press is reported in the frame it begins and in no other: a state that
/// comes out of the input step with `just_pressed` held no press before it,
/// so two frames in a row never both report the press.
pub proof fn lemma_press_reported_once<P>(s: VirtualJoystickState<P>, f1: InputFrame<P>, f2: InputFrame<P>)
    ensures
        (input_step(s, f1).touch_state matches Some(t) && t.just_pressed) ==> s.touch_state is None,
        (input_step(s, f1).touch_state matches Some(t) && t.just_pressed) ==> !(input_step(
            input_step(s, f1),
            f2,
        ).touch_state matches Some(t2) && t2.just_pressed),
{
}

/// A release ends a press that was held, and is reported in one frame only.
pub proof fn lemma_release_reported_once<P>(s: VirtualJoystickState<P>, f1: InputFrame<P>, f2: InputFrame<P>)
    ensures
        input_step(s, f1).just_released ==> s.touch_state is Some,
        input_step(s, f1).just_released ==> input_step(s, f1).touch_state is None,
        input_step(s, f1).just_released ==> !input_step(input_step(s, f1), f2).just_released,
{
}

/// While a press is held it keeps its id, its source and its start; it ends
/// exactly when its finger or the mouse button goes up.
pub proof fn lemma_held_press_is_stable<P>(s: VirtualJoystickState<P>, t: TouchState<P>, f: InputFrame<P>)
    requires
        s.touch_state == Some(t),
    ensures
        input_step(s, f).touch_state is None <==> touch_released(t, f),
        input_step(s, f).just_released <==> touch_released(t, f),
        !touch_released(t, f) ==> (input_step(s, f).touch_state matches Some(t2) && t2.id == t.id
            && t2.is_mouse == t.is_mouse && t2.start == t.start && !t2.just_pressed),
{
}

/// A finger in the area takes an idle joystick before the mouse does.
pub proof fn lemma_touch_before_mouse<P>(s: VirtualJoystickState<P>, f: InputFrame<P>)
    requires
        s.touch_state is None,
        first_touch_in_area(f.pressed_touches@) is Some,
    ensures
        input_step(s, f).touch_state matches Some(t) && !t.is_mouse && t.just_pressed,
{
}

/// The input step never moves the base or the knob.
pub proof fn lemma_input_step_keeps_base_and_knob<P>(s: VirtualJoystickState<P>, f: InputFrame<P>)
    ensures
        input_step(s, f).base_offset == s.base_offset,
        input_step(s, f).delta == s.delta,
{
}

} // verus!
