use virtual_joystick::{
    base_measure_from_children, laid_out_base, BaseChild,
    drag_action, fire_events, joysticks_missing_state, needs_layout, select_interaction_rect,
    update_touch_state, AxisMask, BaseOffsetUpdate, ChildArea, CursorSample, DeltaUpdate,
    DragAction, FiredEvent, InputFrame, JoystickDigital8, JoystickDynamic, JoystickFixed,
    JoystickFloating, JoystickHorizontalOnly, JoystickInvisible, JoystickVerticalOnly, TouchSample,
    TouchState, VirtualJoystickEventType, VirtualJoystickState, Visibility,
};

type P = (f32, f32);
const ORIGIN: P = (0.0, 0.0);

fn idle() -> VirtualJoystickState<P> {
    VirtualJoystickState::new(ORIGIN)
}

fn empty_frame() -> InputFrame<P> {
    InputFrame {
        pressed_touches: vec![],
        released_touch_ids: vec![],
        mouse_pressed: false,
        mouse_just_pressed: false,
        mouse_just_released: false,
        cursor: None,
    }
}

fn touch(id: u64, x: f32, y: f32, in_area: bool) -> TouchSample<P> {
    TouchSample { id, position: (x, y), in_area }
}

fn held(id: u64, is_mouse: bool, start: P, current: P, just_pressed: bool) -> VirtualJoystickState<P> {
    VirtualJoystickState {
        touch_state: Some(TouchState { id, is_mouse, start, current, just_pressed }),
        just_released: false,
        base_offset: (3.0, 4.0),
        delta: (0.5, -0.5),
    }
}

#[test]
fn new_state_is_at_rest() {
    let s = idle();
    assert_eq!(s.touch_state, None);
    assert!(!s.just_released);
    assert_eq!(s.base_offset, ORIGIN);
    assert_eq!(s.delta, ORIGIN);
}

#[test]
fn idle_joystick_picks_first_touch_in_area() {
    let mut s = idle();
    let mut f = empty_frame();
    f.pressed_touches = vec![touch(7, 1.0, 1.0, false), touch(9, 2.0, 3.0, true), touch(11, 5.0, 5.0, true)];
    update_touch_state(&mut s, &f);
    assert_eq!(
        s.touch_state,
        Some(TouchState { id: 9, is_mouse: false, start: (2.0, 3.0), current: (2.0, 3.0), just_pressed: true })
    );
    assert!(!s.just_released);
}

#[test]
fn touch_wins_over_mouse() {
    let mut s = idle();
    let mut f = empty_frame();
    f.pressed_touches = vec![touch(4, 2.0, 2.0, true)];
    f.mouse_pressed = true;
    f.cursor = Some(CursorSample { position: (8.0, 8.0), in_area: true });
    update_touch_state(&mut s, &f);
    assert_eq!(s.touch_state.unwrap().id, 4);
    assert!(!s.touch_state.unwrap().is_mouse);
}

#[test]
fn mouse_press_in_area_is_picked_up() {
    let mut s = idle();
    let mut f = empty_frame();
    f.mouse_pressed = true;
    f.mouse_just_pressed = true;
    f.cursor = Some(CursorSample { position: (-5.0, 6.0), in_area: true });
    update_touch_state(&mut s, &f);
    assert_eq!(
        s.touch_state,
        Some(TouchState { id: 0, is_mouse: true, start: (-5.0, 6.0), current: (-5.0, 6.0), just_pressed: true })
    );
}

#[test]
fn mouse_held_into_area_is_not_a_fresh_press() {
    let mut s = idle();
    let mut f = empty_frame();
    f.mouse_pressed = true;
    f.mouse_just_pressed = false;
    f.cursor = Some(CursorSample { position: (1.0, 1.0), in_area: true });
    update_touch_state(&mut s, &f);
    assert!(!s.touch_state.unwrap().just_pressed);
}

#[test]
fn nothing_picked_up_outside_area_or_without_button() {
    let mut s = idle();
    let mut f = empty_frame();
    f.pressed_touches = vec![touch(1, 0.0, 0.0, false)];
    f.mouse_pressed = true;
    f.cursor = Some(CursorSample { position: (1.0, 1.0), in_area: false });
    update_touch_state(&mut s, &f);
    assert_eq!(s.touch_state, None);

    let mut f2 = empty_frame();
    f2.mouse_pressed = false;
    f2.cursor = Some(CursorSample { position: (1.0, 1.0), in_area: true });
    update_touch_state(&mut s, &f2);
    assert_eq!(s.touch_state, None);
}

#[test]
fn held_touch_follows_its_finger_and_clears_press_flag() {
    let mut s = held(9, false, (2.0, 3.0), (2.0, 3.0), true);
    let mut f = empty_frame();
    f.pressed_touches = vec![touch(4, 100.0, 100.0, true), touch(9, 6.0, 7.0, false)];
    update_touch_state(&mut s, &f);
    let t = s.touch_state.unwrap();
    assert_eq!(t.id, 9);
    assert_eq!(t.start, (2.0, 3.0));
    assert_eq!(t.current, (6.0, 7.0));
    assert!(!t.just_pressed);
    assert_eq!(s.base_offset, (3.0, 4.0));
    assert_eq!(s.delta, (0.5, -0.5));
}

#[test]
fn held_touch_keeps_position_when_finger_not_listed() {
    let mut s = held(9, false, (2.0, 3.0), (4.0, 4.0), false);
    update_touch_state(&mut s, &empty_frame());
    assert_eq!(s.touch_state.unwrap().current, (4.0, 4.0));
}

#[test]
fn held_mouse_follows_cursor() {
    let mut s = held(0, true, (0.0, 0.0), (1.0, 1.0), true);
    let mut f = empty_frame();
    f.mouse_pressed = true;
    f.cursor = Some(CursorSample { position: (9.0, -9.0), in_area: false });
    update_touch_state(&mut s, &f);
    let t = s.touch_state.unwrap();
    assert_eq!(t.current, (9.0, -9.0));
    assert!(!t.just_pressed);
}

#[test]
fn release_of_finger_is_reported_once() {
    let mut s = held(9, false, (2.0, 3.0), (4.0, 4.0), false);
    let mut f = empty_frame();
    f.released_touch_ids = vec![3, 9];
    update_touch_state(&mut s, &f);
    assert_eq!(s.touch_state, None);
    assert!(s.just_released);
    update_touch_state(&mut s, &f);
    assert!(!s.just_released);
    assert_eq!(s.touch_state, None);
}

#[test]
fn mouse_release_ends_mouse_press_only() {
    let mut s = held(9, false, (2.0, 3.0), (4.0, 4.0), false);
    let mut f = empty_frame();
    f.mouse_just_released = true;
    update_touch_state(&mut s, &f);
    assert!(s.touch_state.is_some());

    let mut m = held(0, true, (2.0, 3.0), (4.0, 4.0), false);
    update_touch_state(&mut m, &f);
    assert!(m.touch_state.is_none());
    assert!(m.just_released);
}

#[test]
fn press_is_reported_in_one_frame_only() {
    let mut s = idle();
    let mut f = empty_frame();
    f.pressed_touches = vec![touch(2, 1.0, 1.0, true)];
    update_touch_state(&mut s, &f);
    assert!(s.touch_state.unwrap().just_pressed);
    update_touch_state(&mut s, &f);
    assert!(!s.touch_state.unwrap().just_pressed);
}

#[test]
fn interaction_area_prefers_first_child_area() {
    let children = vec![
        ChildArea { interaction_area: None, background: None, background_style: Some(1) },
        ChildArea { interaction_area: None, background: Some(2), background_style: Some(3) },
        ChildArea { interaction_area: Some(4), background: Some(5), background_style: None },
    ];
    assert_eq!(select_interaction_rect(&children, false, 99), 2);
    let children2 = vec![ChildArea { interaction_area: Some(4), background: Some(5), background_style: None }];
    assert_eq!(select_interaction_rect(&children2, true, 99), 4);
}

#[test]
fn interaction_area_falls_back_to_style_then_parent() {
    let children = vec![
        ChildArea { interaction_area: None, background: None, background_style: None },
        ChildArea { interaction_area: None, background: None, background_style: Some(3) },
    ];
    assert_eq!(select_interaction_rect(&children, false, 99), 3);
    assert_eq!(select_interaction_rect(&children, true, 99), 99);
    let none: Vec<ChildArea<i32>> = vec![];
    assert_eq!(select_interaction_rect(&none, false, 99), 99);
}

#[test]
fn events_on_fresh_press() {
    let s = held(1, false, (2.0, 3.0), (2.5, 3.5), true);
    let ev = fire_events(&s, ORIGIN);
    assert_eq!(
        ev,
        vec![
            FiredEvent { event: VirtualJoystickEventType::Press, value: (2.5, 3.5), delta: (0.5, -0.5) },
            FiredEvent { event: VirtualJoystickEventType::Drag, value: (2.5, 3.5), delta: (0.5, -0.5) },
        ]
    );
    assert_eq!(drag_action(&s), Some(DragAction::StartDrag));
}

#[test]
fn events_while_held() {
    let s = held(1, false, (2.0, 3.0), (7.0, 8.0), false);
    let ev = fire_events(&s, ORIGIN);
    assert_eq!(ev, vec![FiredEvent { event: VirtualJoystickEventType::Drag, value: (7.0, 8.0), delta: (0.5, -0.5) }]);
    assert_eq!(drag_action(&s), Some(DragAction::Drag));
}

#[test]
fn events_on_release_and_idle() {
    let mut s = idle();
    s.just_released = true;
    s.delta = (0.25, 0.0);
    let ev = fire_events(&s, ORIGIN);
    assert_eq!(ev, vec![FiredEvent { event: VirtualJoystickEventType::Up, value: ORIGIN, delta: (0.25, 0.0) }]);
    assert_eq!(drag_action(&s), Some(DragAction::EndDrag));
    let i = idle();
    assert!(fire_events(&i, ORIGIN).is_empty());
    assert_eq!(drag_action(&i), None);
}

#[test]
fn invisible_hides_and_shows() {
    let b = JoystickInvisible;
    assert_eq!(b.next_visibility(&idle(), Visibility::Inherited), Visibility::Hidden);
    assert_eq!(b.next_visibility(&idle(), Visibility::Visible), Visibility::Hidden);
    assert_eq!(b.next_visibility(&idle(), Visibility::Hidden), Visibility::Hidden);
    let fresh = held(1, false, ORIGIN, ORIGIN, true);
    assert_eq!(b.next_visibility(&fresh, Visibility::Hidden), Visibility::Inherited);
    let hold = held(1, false, ORIGIN, ORIGIN, false);
    assert_eq!(b.next_visibility(&hold, Visibility::Visible), Visibility::Visible);
    assert_eq!(b.next_visibility(&hold, Visibility::Hidden), Visibility::Hidden);
    let mut rel = idle();
    rel.just_released = true;
    assert_eq!(b.next_visibility(&rel, Visibility::Inherited), Visibility::Hidden);
}

#[test]
fn anchoring_decisions() {
    let fresh = held(1, false, ORIGIN, ORIGIN, true);
    let hold = held(1, false, ORIGIN, ORIGIN, false);
    let mut rel = idle();
    rel.just_released = true;
    let rest = idle();

    assert_eq!(JoystickFixed.base_offset_update(&fresh), BaseOffsetUpdate::Reset);
    assert_eq!(JoystickFixed.delta_update(&fresh), DeltaUpdate::FromTouch);
    assert_eq!(JoystickFixed.delta_update(&rest), DeltaUpdate::Zero);

    assert_eq!(JoystickFloating.base_offset_update(&fresh), BaseOffsetUpdate::FromTouchStart);
    assert_eq!(JoystickFloating.base_offset_update(&hold), BaseOffsetUpdate::Keep);
    assert_eq!(JoystickFloating.base_offset_update(&rel), BaseOffsetUpdate::Keep);
    assert_eq!(JoystickFloating.delta_update(&fresh), DeltaUpdate::Zero);
    assert_eq!(JoystickFloating.delta_update(&hold), DeltaUpdate::FromTouch);
    assert_eq!(JoystickFloating.delta_update(&rest), DeltaUpdate::Zero);

    assert_eq!(JoystickDynamic.base_offset_update(&fresh), BaseOffsetUpdate::FromTouchStart);
    assert_eq!(JoystickDynamic.base_offset_update(&hold), BaseOffsetUpdate::Keep);
    assert_eq!(JoystickDynamic.base_offset_update(&rel), BaseOffsetUpdate::Reset);
    assert_eq!(JoystickDynamic.base_offset_update(&rest), BaseOffsetUpdate::Keep);
    assert_eq!(JoystickDynamic.delta_update(&fresh), DeltaUpdate::FromTouch);
    assert_eq!(JoystickDynamic.delta_update(&rest), DeltaUpdate::Zero);
}

#[test]
fn axis_masks() {
    assert_eq!(JoystickHorizontalOnly.axis_mask(), AxisMask { keep_x: true, keep_y: false });
    assert_eq!(JoystickVerticalOnly.axis_mask(), AxisMask { keep_x: false, keep_y: true });
    let _ = JoystickDigital8::default();
}

#[test]
fn missing_states_listed_in_order() {
    let js = vec![(5u64, true), (6, false), (7, true), (8, false)];
    assert_eq!(joysticks_missing_state(&js), vec![6, 8]);
    assert!(joysticks_missing_state(&vec![(1u64, true)]).is_empty());
    assert!(joysticks_missing_state(&vec![]).is_empty());
}

#[test]
fn layout_skips_hidden_idle_joysticks() {
    assert!(!needs_layout(&idle(), Some(Visibility::Hidden)));
    assert!(needs_layout(&idle(), Some(Visibility::Inherited)));
    assert!(needs_layout(&idle(), None));
    assert!(needs_layout(&held(1, false, ORIGIN, ORIGIN, false), Some(Visibility::Hidden)));
}

#[test]
fn base_measure_from_first_base_child() {
    let cs = vec![
        BaseChild { is_base: false, laid_out: Some(1), styled: Some(2) },
        BaseChild { is_base: true, laid_out: None, styled: Some(3) },
        BaseChild { is_base: true, laid_out: Some(4), styled: None },
    ];
    assert_eq!(base_measure_from_children(&cs, 150), 3);
    let cs2 = vec![BaseChild { is_base: true, laid_out: Some(4), styled: Some(5) }];
    assert_eq!(base_measure_from_children(&cs2, 150), 4);
    let cs3 = vec![BaseChild { is_base: true, laid_out: None, styled: None }, BaseChild { is_base: true, laid_out: Some(9), styled: None }];
    assert_eq!(base_measure_from_children(&cs3, 150), 150);
    let cs4 = vec![BaseChild { is_base: false, laid_out: Some(4), styled: Some(5) }];
    assert_eq!(base_measure_from_children(&cs4, 150), 150);
}

#[test]
fn laid_out_base_skips_unplaced_children() {
    let cs = vec![
        BaseChild { is_base: false, laid_out: Some(1), styled: None },
        BaseChild { is_base: true, laid_out: None, styled: Some(2) },
        BaseChild { is_base: true, laid_out: Some(3), styled: None },
        BaseChild { is_base: true, laid_out: Some(4), styled: None },
    ];
    assert_eq!(laid_out_base(&cs), Some(3));
    let none = vec![BaseChild { is_base: false, laid_out: Some(1), styled: None }];
    assert_eq!(laid_out_base(&none), None);
}

#[test]
fn press_hold_release_event_sequence() {
    let mut s = idle();
    let kinds = |s: &VirtualJoystickState<P>| -> Vec<VirtualJoystickEventType> {
        fire_events(s, ORIGIN).iter().map(|e| e.event).collect()
    };
    let mut f1 = empty_frame();
    f1.pressed_touches = vec![touch(3, 10.0, 20.0, true)];
    update_touch_state(&mut s, &f1);
    assert_eq!(kinds(&s), vec![VirtualJoystickEventType::Press, VirtualJoystickEventType::Drag]);
    assert_eq!(fire_events(&s, ORIGIN)[0].value, (10.0, 20.0));

    let mut f2 = empty_frame();
    f2.pressed_touches = vec![touch(3, 12.0, 22.0, true)];
    update_touch_state(&mut s, &f2);
    assert_eq!(kinds(&s), vec![VirtualJoystickEventType::Drag]);
    assert_eq!(fire_events(&s, ORIGIN)[0].value, (12.0, 22.0));

    let mut f3 = empty_frame();
    f3.released_touch_ids = vec![3];
    update_touch_state(&mut s, &f3);
    assert_eq!(kinds(&s), vec![VirtualJoystickEventType::Up]);
    assert_eq!(fire_events(&s, ORIGIN)[0].value, ORIGIN);

    update_touch_state(&mut s, &empty_frame());
    assert!(kinds(&s).is_empty());
}

#[test]
fn invisible_idle_joystick_is_not_laid_out() {
    let v = JoystickInvisible.next_visibility(&idle(), Visibility::Inherited);
    assert!(!needs_layout(&idle(), Some(v)));
    let fresh = held(1, false, ORIGIN, ORIGIN, true);
    let v2 = JoystickInvisible.next_visibility(&fresh, Visibility::Hidden);
    assert!(needs_layout(&fresh, Some(v2)));
}
