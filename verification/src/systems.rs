use vstd::prelude::*;
use crate::behavior::{fresh_press, invisible_visibility, Visibility};
use crate::state::VirtualJoystickState;

verus! {

/// Ids of the joysticks, among the first `n`, that have no state yet, in order.
pub open spec fn missing_state_prefix(joysticks: Seq<(u64, bool)>, n: int) -> Seq<u64>
    decreases n,
{
    if n <= 0 || n > joysticks.len() {
        Seq::empty()
    } else {
        let earlier = missing_state_prefix(joysticks, n - 1);
        if joysticks[n - 1].1 {
            earlier
        } else {
            earlier.push(joysticks[n - 1].0)
        }
    }
}

/// Given each joystick's id and whether it has a state, the ids of those
/// that still need one, in their order.
pub fn joysticks_missing_state(joysticks: &Vec<(u64, bool)>) -> (out: Vec<u64>)
    ensures
        out@ == missing_state_prefix(joysticks@, joysticks@.len() as int),
{
    let mut out: Vec<u64> = Vec::new();
    let mut i: usize = 0;
    while i < joysticks.len()
        invariant
            i <= joysticks.len(),
            out@ == missing_state_prefix(joysticks@, i as int),
        decreases joysticks.len() - i,
    {
        let (id, has_state) = joysticks[i];
        if !has_state {
            out.push(id);
        }
        i = i + 1;
    }
    out
}

/// A joystick is laid out unless it is hidden with nothing pressed.
pub open spec fn layout_needed<P>(s: VirtualJoystickState<P>, visibility: Option<Visibility>) -> bool {
    !(visibility == Some(Visibility::Hidden) && s.touch_state is None)
}

/// Whether the base and knob of a joystick are to be positioned this frame.
pub fn needs_layout<P: Copy>(state: &VirtualJoystickState<P>, visibility: Option<Visibility>) -> (b: bool)
    ensures
        b == layout_needed(*state, visibility),
{
    let hidden = match visibility {
        Some(Visibility::Hidden) => true,
        _ => false,
    };
    !(hidden && state.touch_state.is_none())
}

/// A joystick gets a state exactly when it lacks one: the listed ids are those
/// without a state, each once and in order, and a list where every joystick
/// has a state yields nothing.
pub proof fn lemma_missing_state_exact(joysticks: Seq<(u64, bool)>, n: int)
    requires
        0 <= n <= joysticks.len(),
    ensures
        forall|id: u64|
            missing_state_prefix(joysticks, n).contains(id) <==> exists|i: int|
                0 <= i < n && #[trigger] joysticks[i] == (id, false),
        (forall|i: int| 0 <= i < n ==> (#[trigger] joysticks[i]).1) ==> missing_state_prefix(joysticks, n).len() == 0,
    decreases n,
{
    if n > 0 {
        lemma_missing_state_exact(joysticks, n - 1);
        let earlier = missing_state_prefix(joysticks, n - 1);
        assert forall|id: u64|
            missing_state_prefix(joysticks, n).contains(id) <==> exists|i: int|
                0 <= i < n && #[trigger] joysticks[i] == (id, false) by {
            if missing_state_prefix(joysticks, n).contains(id) {
                if earlier.contains(id) {
                    let i = choose|i: int| 0 <= i < n - 1 && #[trigger] joysticks[i] == (id, false);
                    assert(joysticks[i] == (id, false));
                } else {
                    let k = choose|k: int|
                        0 <= k < missing_state_prefix(joysticks, n).len()
                            && missing_state_prefix(joysticks, n)[k] == id;
                    assert(joysticks[n - 1] == (id, false));
                }
            }
            if exists|i: int| 0 <= i < n && #[trigger] joysticks[i] == (id, false) {
                let i = choose|i: int| 0 <= i < n && #[trigger] joysticks[i] == (id, false);
                if i < n - 1 {
                    assert(earlier.contains(id));
                    let k = choose|k: int| 0 <= k < earlier.len() && earlier[k] == id;
                    if !joysticks[n - 1].1 {
                        assert(missing_state_prefix(joysticks, n)[k] == id);
                    }
                } else {
                    let m = missing_state_prefix(joysticks, n);
                    assert(m[m.len() - 1] == id);
                }
            }
        }
    }
}

/// An invisible joystick is not laid out while nothing is pressed, and is laid
/// out in the frame a press begins.
pub proof fn lemma_invisible_layout<P>(s: VirtualJoystickState<P>, v: Visibility)
    ensures
        s.touch_state is None ==> !layout_needed(s, Some(invisible_visibility(s, v))),
        fresh_press(s) ==> layout_needed(s, Some(invisible_visibility(s, v))),
{
}

} // verus!
