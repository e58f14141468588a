use vstd::prelude::*;
use crate::state::VirtualJoystickState;

verus! {

/// Shown state of a joystick, as the engine keeps it.
#[derive(Clone, Copy, Debug, PartialEq, Eq)]
pub enum Visibility {
    Inherited,
    Hidden,
    Visible,
}

/// Snaps the knob to the eight compass directions at full strength.
#[derive(Clone, Copy, Debug, Default, PartialEq, Eq)]
pub struct JoystickDigital8;

/// Lets the knob move left and right only.
#[derive(Clone, Copy, Debug, Default, PartialEq, Eq)]
pub struct JoystickHorizontalOnly;

/// Lets the knob move up and down only.
#[derive(Clone, Copy, Debug, Default, PartialEq, Eq)]
pub struct JoystickVerticalOnly;

/// Hides the joystick while it is not pressed.
#[derive(Clone, Copy, Debug, Default, PartialEq, Eq)]
pub struct JoystickInvisible;

/// The base stays where it was laid out; the knob moves inside it.
#[derive(Clone, Copy, Debug, Default, PartialEq, Eq)]
pub struct JoystickFixed;

/// The base jumps to where a press begins and stays there after release.
#[derive(Clone, Copy, Debug, Default, PartialEq, Eq)]
pub struct JoystickFloating;

/// The base jumps to where a press begins, follows a drag that leaves it, and
/// returns home on release.
#[derive(Clone, Copy, Debug, Default, PartialEq, Eq)]
pub struct JoystickDynamic;

/// What becomes of the base offset in the knob stage.
#[derive(Clone, Copy, Debug, PartialEq, Eq)]
pub enum BaseOffsetUpdate {
    /// Move the base under the point where the press began.
    FromTouchStart,
    /// Put the base back at its resting place.
    Reset,
    /// Leave the base where it is.
    Keep,
}

/// Where the knob deflection comes from in the knob stage.
#[derive(Clone, Copy, Debug, PartialEq, Eq)]
pub enum DeltaUpdate {
    /// From the press's current position relative to the base.
    FromTouch,
    /// The knob sits centered.
    Zero,
}

/// Which knob axes a constraint lets through.
#[derive(Clone, Copy, Debug, PartialEq, Eq)]
pub struct AxisMask {
    pub keep_x: bool,
    pub keep_y: bool,
}

/// A press that began this frame.
pub open spec fn fresh_press<P>(s: VirtualJoystickState<P>) -> bool {
    s.touch_state matches Some(t) && t.just_pressed
}

/// Visibility of an invisible joystick after a frame.
pub open spec fn invisible_visibility<P>(s: VirtualJoystickState<P>, v: Visibility) -> Visibility {
    if fresh_press(s) {
        Visibility::Inherited
    } else if s.just_released || (v != Visibility::Hidden && s.touch_state is None) {
        Visibility::Hidden
    } else {
        v
    }
}

/// Base decision of a fixed joystick.
pub open spec fn fixed_base_offset_update<P>(s: VirtualJoystickState<P>) -> BaseOffsetUpdate {
    BaseOffsetUpdate::Reset
}

/// Knob decision of a fixed joystick.
pub open spec fn fixed_delta_update<P>(s: VirtualJoystickState<P>) -> DeltaUpdate {
    if s.touch_state is Some { DeltaUpdate::FromTouch } else { DeltaUpdate::Zero }
}

/// Base decision of a floating joystick.
pub open spec fn floating_base_offset_update<P>(s: VirtualJoystickState<P>) -> BaseOffsetUpdate {
    if fresh_press(s) { BaseOffsetUpdate::FromTouchStart } else { BaseOffsetUpdate::Keep }
}

/// Knob decision of a floating joystick.
pub open spec fn floating_delta_update<P>(s: VirtualJoystickState<P>) -> DeltaUpdate {
    if s.touch_state is Some && !fresh_press(s) { DeltaUpdate::FromTouch } else { DeltaUpdate::Zero }
}

/// Base decision of a dynamic joystick.
pub open spec fn dynamic_base_offset_update<P>(s: VirtualJoystickState<P>) -> BaseOffsetUpdate {
    if fresh_press(s) {
        BaseOffsetUpdate::FromTouchStart
    } else if s.touch_state is None && s.just_released {
        BaseOffsetUpdate::Reset
    } else {
        BaseOffsetUpdate::Keep
    }
}

/// Knob decision of a dynamic joystick.
pub open spec fn dynamic_delta_update<P>(s: VirtualJoystickState<P>) -> DeltaUpdate {
    if s.touch_state is Some { DeltaUpdate::FromTouch } else { DeltaUpdate::Zero }
}

fn is_fresh_press<P: Copy>(s: &VirtualJoystickState<P>) -> (b: bool)
    ensures
        b == fresh_press(*s),
{
    match s.touch_state {
        Some(t) => t.just_pressed,
        None => false,
    }
}

impl JoystickInvisible {
    /// Visibility after this frame: shown when a press begins, hidden on
    /// release and while nothing is pressed, unchanged while held.
    pub fn next_visibility<P: Copy>(&self, state: &VirtualJoystickState<P>, current: Visibility) -> (v: Visibility)
        ensures
            v == invisible_visibility(*state, current),
    {
        let hidden_now = match current {
            Visibility::Hidden => true,
            _ => false,
        };
        let mut v = current;
        if state.just_released || (!hidden_now && state.touch_state.is_none()) {
            v = Visibility::Hidden;
        }
        if is_fresh_press(state) {
            v = Visibility::Inherited;
        }
        v
    }
}

impl JoystickFixed {
    /// A fixed base never moves away from its resting place.
    pub fn base_offset_update<P: Copy>(&self, state: &VirtualJoystickState<P>) -> (u: BaseOffsetUpdate)
        ensures
            u == fixed_base_offset_update(*state),
    {
        BaseOffsetUpdate::Reset
    }

    /// The knob follows the press while there is one.
    pub fn delta_update<P: Copy>(&self, state: &VirtualJoystickState<P>) -> (u: DeltaUpdate)
        ensures
            u == fixed_delta_update(*state),
    {
        if state.touch_state.is_some() {
            DeltaUpdate::FromTouch
        } else {
            DeltaUpdate::Zero
        }
    }
}

impl JoystickFloating {
    /// The base moves under a fresh press and otherwise stays, release included.
    pub fn base_offset_update<P: Copy>(&self, state: &VirtualJoystickState<P>) -> (u: BaseOffsetUpdate)
        ensures
            u == floating_base_offset_update(*state),
    {
        if is_fresh_press(state) {
            BaseOffsetUpdate::FromTouchStart
        } else {
            BaseOffsetUpdate::Keep
        }
    }

    /// The knob is centered in the frame a press begins and while idle, and
    /// follows the press otherwise.
    pub fn delta_update<P: Copy>(&self, state: &VirtualJoystickState<P>) -> (u: DeltaUpdate)
        ensures
            u == floating_delta_update(*state),
    {
        if state.touch_state.is_some() && !is_fresh_press(state) {
            DeltaUpdate::FromTouch
        } else {
            DeltaUpdate::Zero
        }
    }
}

impl JoystickDynamic {
    /// The base moves under a fresh press, goes home on release, and otherwise
    /// stays (a drag past its edge moves it further, which the caller works out).
    pub fn base_offset_update<P: Copy>(&self, state: &VirtualJoystickState<P>) -> (u: BaseOffsetUpdate)
        ensures
            u == dynamic_base_offset_update(*state),
    {
        if is_fresh_press(state) {
            BaseOffsetUpdate::FromTouchStart
        } else if state.touch_state.is_none() && state.just_released {
            BaseOffsetUpdate::Reset
        } else {
            BaseOffsetUpdate::Keep
        }
    }

    /// The knob follows the press while there is one.
    pub fn delta_update<P: Copy>(&self, state: &VirtualJoystickState<P>) -> (u: DeltaUpdate)
        ensures
            u == dynamic_delta_update(*state),
    {
        if state.touch_state.is_some() {
            DeltaUpdate::FromTouch
        } else {
            DeltaUpdate::Zero
        }
    }
}

impl JoystickHorizontalOnly {
    /// Only the horizontal axis survives.
    pub fn axis_mask(&self) -> (m: AxisMask)
        ensures
            m == (AxisMask { keep_x: true, keep_y: false }),
    {
        AxisMask { keep_x: true, keep_y: false }
    }
}

impl JoystickVerticalOnly {
    /// Only the vertical axis survives.
    pub fn axis_mask(&self) -> (m: AxisMask)
        ensures
            m == (AxisMask { keep_x: false, keep_y: true }),
    {
        AxisMask { keep_x: false, keep_y: true }
    }
}

/// What one child of a joystick tells about the joystick's base.
#[derive(Clone, Copy, Debug, PartialEq)]
pub struct BaseChild<R> {
    /// The child is marked as the joystick's base.
    pub is_base: bool,
    /// The child's measure as laid out, where layout has run.
    pub laid_out: Option<R>,
    /// The child's measure taken from its style, where it has a style.
    pub styled: Option<R>,
}

/// Index of the first base child, from index `i` on.
pub open spec fn first_base_from<R>(cs: Seq<BaseChild<R>>, i: int) -> Option<int>
    decreases cs.len() - i,
{
    if 0 <= i < cs.len() {
        if cs[i].is_base { Some(i) } else { first_base_from(cs, i + 1) }
    } else {
        None
    }
}

/// The base's measure: the first base child's laid-out measure, else its
/// styled one, else `default`; `default` too where no child is a base.
pub open spec fn base_measure<R>(cs: Seq<BaseChild<R>>, default: R) -> R {
    match first_base_from(cs, 0) {
        Some(i) => match cs[i].laid_out {
            Some(r) => r,
            None => match cs[i].styled {
                Some(r) => r,
                None => default,
            },
        },
        None => default,
    }
}

/// First laid-out measure among base children, from index `i` on; base
/// children not laid out yet are passed over.
pub open spec fn first_laid_out_base_from<R>(cs: Seq<BaseChild<R>>, i: int) -> Option<R>
    decreases cs.len() - i,
{
    if 0 <= i < cs.len() {
        if cs[i].is_base && cs[i].laid_out is Some {
            cs[i].laid_out
        } else {
            first_laid_out_base_from(cs, i + 1)
        }
    } else {
        None
    }
}

/// Measure of a joystick's base from its children (see [`base_measure`]).
pub fn base_measure_from_children<R: Copy>(children: &Vec<BaseChild<R>>, default: R) -> (r: R)
    ensures
        r == base_measure(children@, default),
{
    let mut i: usize = 0;
    while i < children.len()
        invariant
            i <= children.len(),
            first_base_from(children@, 0) == first_base_from(children@, i as int),
        decreases children.len() - i,
    {
        let c = children[i];
        if c.is_base {
            return match c.laid_out {
                Some(r) => r,
                None => match c.styled {
                    Some(r) => r,
                    None => default,
                },
            };
        }
        i = i + 1;
    }
    default
}

/// The first base child that layout has placed, if any.
pub fn laid_out_base<R: Copy>(children: &Vec<BaseChild<R>>) -> (r: Option<R>)
    ensures
        r == first_laid_out_base_from(children@, 0),
{
    let mut i: usize = 0;
    while i < children.len()
        invariant
            i <= children.len(),
            first_laid_out_base_from(children@, 0) == first_laid_out_base_from(children@, i as int),
        decreases children.len() - i,
    {
        let c = children[i];
        if c.is_base && c.laid_out.is_some() {
            return c.laid_out;
        }
        i = i + 1;
    }
    None
}

/// An invisible joystick is hidden whenever nothing is pressed, shown in the
/// frame a press begins, and left alone while a press is held.
pub proof fn lemma_invisible_follows_press<P>(s: VirtualJoystickState<P>, v: Visibility)
    ensures
        s.touch_state is None ==> invisible_visibility(s, v) == Visibility::Hidden,
        fresh_press(s) ==> invisible_visibility(s, v) == Visibility::Inherited,
        (s.touch_state is Some && !fresh_press(s) && !s.just_released) ==> invisible_visibility(s, v) == v,
{
}

/// With nothing pressed the knob sits centered, whatever the anchoring.
pub proof fn lemma_idle_knob_centered<P>(s: VirtualJoystickState<P>)
    requires
        s.touch_state is None,
    ensures
        fixed_delta_update(s) == DeltaUpdate::Zero,
        floating_delta_update(s) == DeltaUpdate::Zero,
        dynamic_delta_update(s) == DeltaUpdate::Zero,
{
}

/// On release a dynamic base goes home, a floating base stays where it was
/// placed, and a fixed base is home already.
pub proof fn lemma_release_anchoring<P>(s: VirtualJoystickState<P>)
    requires
        s.touch_state is None,
        s.just_released,
    ensures
        dynamic_base_offset_update(s) == BaseOffsetUpdate::Reset,
        floating_base_offset_update(s) == BaseOffsetUpdate::Keep,
        fixed_base_offset_update(s) == BaseOffsetUpdate::Reset,
{
}

/// Only a press that begins this frame moves a base under the finger.
pub proof fn lemma_base_follows_fresh_press_only<P>(s: VirtualJoystickState<P>)
    ensures
        dynamic_base_offset_update(s) == BaseOffsetUpdate::FromTouchStart <==> fresh_press(s),
        floating_base_offset_update(s) == BaseOffsetUpdate::FromTouchStart <==> fresh_press(s),
        fixed_base_offset_update(s) != BaseOffsetUpdate::FromTouchStart,
{
}

} // verus!
