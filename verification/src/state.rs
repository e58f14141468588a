use vstd::prelude::*;

verus! {

/// An ongoing press on a joystick, by a finger or by the left mouse button.
#[derive(Clone, Copy, Debug, PartialEq)]
pub struct TouchState<P> {
    /// Touch identifier; `0` for the mouse.
    pub id: u64,
    /// Whether the press comes from the mouse rather than a touch screen.
    pub is_mouse: bool,
    /// Screen position where the press began.
    pub start: P,
    /// Latest screen position of the press.
    pub current: P,
    /// The press began during the current frame.
    pub just_pressed: bool,
}

/// Per-joystick runtime state.
#[derive(Clone, Copy, Debug, PartialEq)]
pub struct VirtualJoystickState<P> {
    /// The press currently held on this joystick, if any.
    pub touch_state: Option<TouchState<P>>,
    /// The press was let go during the current frame.
    pub just_released: bool,
    /// Offset of the joystick base from its resting place.
    pub base_offset: P,
    /// Knob deflection, each axis in `-1..=1`.
    pub delta: P,
}

/// The states that the input step can produce: a release is only reported
/// once the press it ends is gone.
pub open spec fn state_wf<P>(s: VirtualJoystickState<P>) -> bool {
    s.just_released ==> s.touch_state is None
}

impl<P: Copy> VirtualJoystickState<P> {
    /// A joystick at rest: nothing pressed, nothing released, base and knob
    /// both at `origin`.
    pub fn new(origin: P) -> (s: Self)
        ensures
            s.touch_state is None,
            !s.just_released,
            s.base_offset == origin,
            s.delta == origin,
            state_wf(s),
    {
        VirtualJoystickState { touch_state: None, just_released: false, base_offset: origin, delta: origin }
    }
}

} // verus!
