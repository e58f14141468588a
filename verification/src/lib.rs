//! Touch and mouse tracking, event generation and behavior decisions of an
//! on-screen virtual joystick.
//!
//! Positions are carried as an opaque, copyable type `P`: the library decides
//! *which* position goes where and *when* a press, drag or release happens;
//! the geometry itself is left to the caller.
mod state;
mod events;
mod input;
mod behavior;
mod systems;
mod laws;

pub use state::{state_wf, TouchState, VirtualJoystickState};
pub use events::{
    drag_action, event_kinds, fire_events, frame_drag_action, frame_events,
    lemma_events_match_drag_action, lemma_press_fires_at_touch_point,
    lemma_press_hold_release_events, DragAction, FiredEvent, VirtualJoystickEventType,
};
pub use input::{
    acquired_touch, first_laid_out_area_from, first_style_area_from, first_touch_in_area,
    first_touch_in_area_from, held_touch, input_step, interaction_area, laid_out_area,
    lemma_held_press_is_stable, lemma_input_step_keeps_base_and_knob, lemma_input_step_wf,
    lemma_press_reported_once, lemma_release_reported_once, lemma_touch_before_mouse,
    pressed_position, pressed_position_from, select_interaction_rect, touch_released,
    tracked_position, update_touch_state, ChildArea, CursorSample, InputFrame, TouchSample,
};
pub use behavior::{
    base_measure, base_measure_from_children, dynamic_base_offset_update, dynamic_delta_update,
    first_base_from, first_laid_out_base_from, fixed_base_offset_update, fixed_delta_update,
    floating_base_offset_update, floating_delta_update, fresh_press, invisible_visibility,
    laid_out_base, lemma_base_follows_fresh_press_only, lemma_idle_knob_centered,
    lemma_invisible_follows_press, lemma_release_anchoring, AxisMask, BaseChild,
    BaseOffsetUpdate, DeltaUpdate, JoystickDigital8, JoystickDynamic, JoystickFixed,
    JoystickFloating, JoystickHorizontalOnly, JoystickInvisible, JoystickVerticalOnly,
    Visibility,
};
pub use systems::{
    joysticks_missing_state, layout_needed, lemma_invisible_layout, lemma_missing_state_exact,
    missing_state_prefix, needs_layout,
};
pub use laws::{
    law_base_measure, law_base_placement, law_held_press_events, law_idle_takes_first_finger_in_area,
    law_idle_takes_mouse_or_nothing, law_interaction_area_fallback, law_interaction_area_first_offer,
    law_invisible_visibility, law_knob_follows_held_press, law_laid_out_base,
    law_layout_skipped_when_hidden_and_idle, law_missing_state_append,
    law_mouse_press_release_and_follow, law_release_and_idle_events, law_touch_press_follows_finger,
    law_touch_press_release, offers_area, placed_base,
};
