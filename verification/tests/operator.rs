use operator::operator::{
    operator_id_or_error, EventKind, FacingDirection, GeneralOperator, MoveObservation, MoveStep,
    OperatorError, OperatorEvent, PointerAction, PointerInput, Response, Step,
};
use operator::skin::{AnimationChange, GeneralOperatorSkin, SkinError};

fn amiya() -> GeneralOperator {
    let anims: Vec<String> = ["Relax", "Move", "Interact", "Sit"].iter().map(|s| s.to_string()).collect();
    GeneralOperator::new("char_002_amiya", GeneralOperatorSkin::new("char_002_amiya", None, anims, None))
}

fn event(kind: EventKind) -> OperatorEvent {
    OperatorEvent { to: "char_002_amiya".to_string(), kind }
}

fn obs(at_target: bool, within_reach: bool, target_left: bool, x_within_step: bool, target_up: bool, y_within_step: bool) -> MoveObservation {
    MoveObservation { at_target, within_reach, target_left, x_within_step, target_up, y_within_step, velocity_positive: true }
}

#[test]
fn facing_from_direction_text() {
    assert_eq!(FacingDirection::from_direction("right"), FacingDirection::Right);
    assert_eq!(FacingDirection::from_direction("left"), FacingDirection::Left);
    assert_eq!(FacingDirection::from_direction("Right"), FacingDirection::Left);
    assert_eq!(FacingDirection::Right.sign(), 1);
    assert_eq!(FacingDirection::Left.sign(), -1);
}

#[test]
fn missing_operator_id_is_refused() {
    assert_eq!(operator_id_or_error(None), Err(OperatorError::InvalidOperatorId(String::new())));
    assert_eq!(operator_id_or_error(Some("char_002_amiya".to_string())), Ok("char_002_amiya".to_string()));
}

#[test]
fn new_operator_faces_right_unselected() {
    let op = amiya();
    assert_eq!(op.id(), "char_002_amiya");
    assert_eq!(op.facing(), FacingDirection::Right);
    assert!(!op.selected());
    assert_eq!(op.skin().active_ani(), "Default");
}

#[test]
fn start_animation_broadcasts() {
    let mut op = amiya();
    let st = op.start_animation("Sit").unwrap();
    assert_eq!(st.change, AnimationChange::MixFrom("Default".to_string()));
    assert_eq!(st.notice.to, "broadcast");
    assert_eq!(st.notice.from, "char_002_amiya");
    assert_eq!(st.notice.ani, "Sit");
    assert_eq!(op.skin().active_ani(), "Sit");
}

#[test]
fn start_unknown_animation_fails() {
    let mut op = amiya();
    assert_eq!(
        op.start_animation("Fly"),
        Err(OperatorError::Skin(SkinError::AnimationNotFound("\"animation\": Fly".to_string())))
    );
    assert_eq!(op.skin().active_ani(), "Default");
}

#[test]
fn retreat_and_skin_events_not_implemented() {
    let mut op = amiya();
    let r = op.event_handler(&event(EventKind::OnRetreat)).unwrap();
    assert_eq!(r.0, Response::Error("not implemented".to_string()));
    assert!(r.1.is_none());
    let r = op.event_handler(&event(EventKind::SetSkin)).unwrap();
    assert_eq!(r.0, Response::Error("not implemented".to_string()));
}

#[test]
fn set_animation_event_answers_with_address() {
    let mut op = amiya();
    let (resp, st) = op.event_handler(&event(EventKind::SetAnimation { ani: "Relax".to_string() })).unwrap();
    assert_eq!(resp, Response::Success("{\"operator\":\"char_002_amiya\"}".to_string()));
    assert_eq!(st.unwrap().notice.ani, "Relax");
    assert_eq!(op.skin().active_ani(), "Relax");
}

#[test]
fn set_animation_event_unknown_animation() {
    let mut op = amiya();
    let r = op.event_handler(&event(EventKind::SetAnimation { ani: "Fly".to_string() }));
    assert_eq!(r, Err(OperatorError::Skin(SkinError::AnimationNotFound("\"animation\": Fly".to_string()))));
}

#[test]
fn facing_event_turns() {
    let mut op = amiya();
    let (resp, _) = op.event_handler(&event(EventKind::SetFacingDirection { direction: "left".to_string() })).unwrap();
    assert_eq!(resp, Response::Success("{\"operator\":\"char_002_amiya\"}".to_string()));
    assert_eq!(op.facing(), FacingDirection::Left);
    op.event_handler(&event(EventKind::SetFacingDirection { direction: "right".to_string() })).unwrap();
    assert_eq!(op.facing(), FacingDirection::Right);
}

#[test]
fn position_events_answered() {
    let mut op = amiya();
    for kind in [EventKind::MoveTo, EventKind::Resize, EventKind::SetPosition, EventKind::CustomEvent] {
        let (resp, st) = op.event_handler(&event(kind)).unwrap();
        assert_eq!(resp, Response::Success("{\"operator\":\"char_002_amiya\"}".to_string()));
        assert!(st.is_none());
    }
}

#[test]
fn unsupported_event_named_in_answer() {
    let mut op = amiya();
    let (resp, _) = op
        .event_handler(&event(EventKind::Unsupported { description: "OnMouseMove { x: 1 }".to_string() }))
        .unwrap();
    assert_eq!(resp, Response::Error("Event OnMouseMove { x: 1 } not implemented".to_string()));
}

#[test]
fn answer_escapes_address() {
    let mut op = amiya();
    let e = OperatorEvent { to: "a\"b".to_string(), kind: EventKind::CustomEvent };
    let (resp, _) = op.event_handler(&e).unwrap();
    assert_eq!(resp, Response::Success("{\"operator\":\"a\\\"b\"}".to_string()));
}

#[test]
fn infos_lists_animations() {
    let op = amiya();
    assert_eq!(
        op.infos(),
        "{\"animations\":[\"Relax\",\"Move\",\"Interact\",\"Sit\"],\"id\":\"char_002_amiya\"}"
    );
}

#[test]
fn pointer_drag_toggle_destination() {
    let mut op = amiya();
    let p = |primary_down, secondary_clicked, hovered, has_interact_pos| PointerInput {
        primary_down, secondary_clicked, hovered, has_interact_pos,
    };
    assert_eq!(op.handle_pointer(p(true, true, true, true)), PointerAction::Drag);
    assert!(!op.selected());
    assert_eq!(op.handle_pointer(p(false, true, false, true)), PointerAction::Nothing);
    assert_eq!(op.handle_pointer(p(false, true, true, true)), PointerAction::ToggleSelection);
    assert!(op.selected());
    assert_eq!(op.handle_pointer(p(false, true, false, true)), PointerAction::SetDestination);
    assert_eq!(op.handle_pointer(p(false, false, false, true)), PointerAction::Nothing);
    assert_eq!(op.handle_pointer(p(false, true, true, false)), PointerAction::ToggleSelection);
    assert!(!op.selected());
}

#[test]
fn move_plan_cases() {
    let mut op = amiya();
    assert_eq!(op.move_to(obs(true, true, true, true, true, true)), None);
    assert_eq!(
        op.move_to(obs(false, false, true, false, false, false)),
        Some(MoveStep { snap: false, x: Step::Back, y: Step::Forward })
    );
    assert_eq!(op.facing(), FacingDirection::Left);
    assert_eq!(
        op.move_to(obs(false, false, false, true, true, false)),
        Some(MoveStep { snap: false, x: Step::Hold, y: Step::Back })
    );
    assert_eq!(op.facing(), FacingDirection::Right);
    op.move_to(obs(false, false, true, false, false, false));
    assert_eq!(
        op.move_to(obs(false, true, true, false, true, false)),
        Some(MoveStep { snap: true, x: Step::Hold, y: Step::Hold })
    );
    assert_eq!(op.facing(), FacingDirection::Right);
}

#[test]
fn walk_then_resume_previous() {
    let mut op = amiya();
    op.start_animation("Sit").unwrap();
    let (st, step) = op.walk_to(obs(false, false, true, false, false, true));
    assert_eq!(st.change, AnimationChange::MixFrom("Sit".to_string()));
    assert_eq!(step, Some(MoveStep { snap: false, x: Step::Back, y: Step::Hold }));
    let (st, _) = op.walk_to(obs(false, false, true, false, false, true));
    assert_eq!(st.change, AnimationChange::Unchanged);
    assert_eq!(op.resume_previous_animation(), Ok(AnimationChange::MixFrom("Move".to_string())));
    assert_eq!(op.skin().active_ani(), "Sit");
}

#[test]
fn reset_interaction_relaxes() {
    let mut op = amiya();
    let st = op.reset_interaction();
    assert_eq!(st.notice.ani, "Relax");
    assert_eq!(op.skin().active_ani(), "Relax");
}
