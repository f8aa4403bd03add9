//! An operator: its identity, the way it faces, whether it is selected, and
//! the animation state of its skin; how it answers events and pointer input
//! and how it steps towards where it walks.
//!
//! Positions, speeds and scales are floating-point values that the caller
//! keeps; it hands this module what it compared them to and applies the
//! steps that come back.
use crate::json::{json_object_text, list_fields_view, text_fields_view, write_json_object};
use crate::skin::{
    change_matches, mapping_of, set_animation_spec, switch_supported, AnimationChange,
    GeneralOperatorSkin, SkinError, SkinView,
};
use vstd::prelude::*;

verus! {

/// The way an operator faces.
#[derive(Debug, Clone, Copy, PartialEq, Eq, Structural)]
pub enum FacingDirection {
    Right,
    Left,
}

/// The way an operator faces after a request to face `direction`.
pub open spec fn facing_for(direction: Seq<char>) -> FacingDirection {
    if direction == "right"@ {
        FacingDirection::Right
    } else {
        FacingDirection::Left
    }
}

impl FacingDirection {
    /// The factor that mirrors a skeleton horizontally: 1 facing right,
    /// -1 facing left.
    pub fn sign(&self) -> (r: i8)
        ensures
            r == (if *self == FacingDirection::Right { 1i8 } else { -1i8 }),
    {
        match self {
            FacingDirection::Right => 1,
            FacingDirection::Left => -1,
        }
    }

    /// `Right` for the direction `right`, `Left` for any other.
    pub fn from_direction(direction: &str) -> (r: FacingDirection)
        ensures
            r == facing_for(direction@),
            (r == FacingDirection::Right) <==> (direction@ == "right"@),
    {
        let given = direction.to_owned();
        let right = "right".to_owned();
        if given == right {
            FacingDirection::Right
        } else {
            FacingDirection::Left
        }
    }
}

/// Errors of an operator.
#[derive(Debug, Clone, PartialEq, Eq)]
pub enum OperatorError {
    InvalidOperatorId(String),
    Skin(SkinError),
}

/// The answer to an event.
#[derive(Debug, Clone, PartialEq, Eq)]
pub enum Response {
    Success(String),
    Error(String),
}

/// The event that announces an operator's new animation to every listener.
#[derive(Debug, Clone, PartialEq, Eq)]
pub struct AnimationNotice {
    pub to: String,
    pub from: String,
    pub ani: String,
}

/// What a started animation asks the caller to do: drive the skeleton as
/// `change` says, and broadcast `notice`.
#[derive(Debug, Clone, PartialEq, Eq)]
pub struct AnimationStart {
    pub change: AnimationChange,
    pub notice: AnimationNotice,
}

/// The events an operator is sent, as far as its answer depends on them.
/// The positions and the scale that some of them carry are applied by the
/// caller.
#[derive(Debug, Clone, PartialEq, Eq)]
pub enum EventKind {
    OnRetreat,
    SetSkin,
    SetAnimation { ani: String },
    MoveTo,
    Resize,
    SetFacingDirection { direction: String },
    SetPosition,
    CustomEvent,
    /// Any other event, with its description for the answer.
    Unsupported { description: String },
}

/// An event sent to an operator, with the address it was sent to.
#[derive(Debug, Clone, PartialEq, Eq)]
pub struct OperatorEvent {
    pub to: String,
    pub kind: EventKind,
}

/// What the caller observed of the pointer this frame.
#[derive(Debug, Clone, Copy, PartialEq, Eq, Structural)]
pub struct PointerInput {
    /// The primary button is held.
    pub primary_down: bool,
    /// The secondary button was clicked.
    pub secondary_clicked: bool,
    /// The pointer is over the operator.
    pub hovered: bool,
    /// The pointer has a position at which it interacts.
    pub has_interact_pos: bool,
}

/// What pointer input does to an operator.
#[derive(Debug, Clone, Copy, PartialEq, Eq, Structural)]
pub enum PointerAction {
    /// The operator follows the pointer, and its destination with it.
    Drag,
    /// The operator's selection is toggled.
    ToggleSelection,
    /// The operator's destination becomes the pointer's position.
    SetDestination,
    Nothing,
}

/// How an operator compares with the point it walks to, at its speed.
#[derive(Debug, Clone, Copy, PartialEq, Eq, Structural)]
pub struct MoveObservation {
    /// The operator stands on the point.
    pub at_target: bool,
    /// The squared distance to the point is below the squared speed.
    pub within_reach: bool,
    /// The operator stands right of the point.
    pub target_left: bool,
    /// The horizontal distance to the point is below the speed.
    pub x_within_step: bool,
    /// The operator stands below the point in screen coordinates (its y is
    /// greater).
    pub target_up: bool,
    /// The vertical distance to the point is below the speed.
    pub y_within_step: bool,
    /// The speed is above zero.
    pub velocity_positive: bool,
}

/// A step along one axis: by minus the speed, by nothing, or by the speed.
#[derive(Debug, Clone, Copy, PartialEq, Eq, Structural)]
pub enum Step {
    Back,
    Hold,
    Forward,
}

/// One frame of walking: first jump onto the point where `snap` holds, then
/// step along both axes.
#[derive(Debug, Clone, Copy, PartialEq, Eq, Structural)]
pub struct MoveStep {
    pub snap: bool,
    pub x: Step,
    pub y: Step,
}

/// The step along an axis, from where the operator stands on it.
pub open spec fn axis_step(past_target: bool, within_step: bool) -> Step {
    if past_target {
        Step::Back
    } else if within_step {
        Step::Hold
    } else {
        Step::Forward
    }
}

/// The frame of walking towards the point; none where the operator stands on
/// it. After a jump onto the point the operator is neither past it nor
/// farther from it than any positive speed.
pub open spec fn move_plan(o: MoveObservation) -> Option<MoveStep> {
    if o.at_target {
        None
    } else if o.within_reach {
        Some(
            MoveStep {
                snap: true,
                x: axis_step(false, o.velocity_positive),
                y: axis_step(false, o.velocity_positive),
            },
        )
    } else {
        Some(
            MoveStep {
                snap: false,
                x: axis_step(o.target_left, o.x_within_step),
                y: axis_step(o.target_up, o.y_within_step),
            },
        )
    }
}

/// The way the operator faces after a frame of walking.
pub open spec fn facing_after_move(o: MoveObservation, facing: FacingDirection) -> FacingDirection {
    if o.at_target {
        facing
    } else if !o.within_reach && o.target_left {
        FacingDirection::Left
    } else {
        FacingDirection::Right
    }
}

/// What pointer input does, for an operator selected or not.
pub open spec fn pointer_action_spec(input: PointerInput, selected: bool) -> PointerAction {
    if input.primary_down && input.hovered {
        PointerAction::Drag
    } else if input.secondary_clicked && input.hovered {
        PointerAction::ToggleSelection
    } else if input.has_interact_pos && selected && input.secondary_clicked {
        PointerAction::SetDestination
    } else {
        PointerAction::Nothing
    }
}

/// The text of a successful answer to an event sent to `to`.
pub open spec fn reply_text(to: Seq<char>) -> Seq<char> {
    json_object_text(seq![("operator"@, to)], Seq::empty())
}

/// The text that describes an operator and its animations.
pub open spec fn infos_text(id: Seq<char>, animations: Seq<Seq<char>>) -> Seq<char> {
    json_object_text(seq![("id"@, id)], seq![("animations"@, animations)])
}

/// The answer to an event that an operator does not handle.
pub open spec fn unsupported_message(description: Seq<char>) -> Seq<char> {
    "Event "@ + description + " not implemented"@
}

/// The mathematical state of an operator.
pub struct OperatorView {
    pub id: Seq<char>,
    pub skin: SkinView,
    pub facing: FacingDirection,
    pub selected: bool,
}

/// Whether `r` is what starting `anim` from state `s` gives, with `t` the
/// state after it.
pub open spec fn started(s: OperatorView, anim: Seq<char>, t: OperatorView, r: Result<AnimationStart, OperatorError>) -> bool {
    match r {
        Err(e) => {
            &&& set_animation_spec(s.skin, anim, false) is None
            &&& t == s
            &&& e matches OperatorError::Skin(SkinError::AnimationNotFound(m))
            &&& m@ == crate::skin::animation_not_found_message(anim)
        },
        Ok(st) => start_succeeded(s, anim, t, st),
    }
}

/// Whether `st` is what a successful start of `anim` from `s` gives, with `t`
/// the state after it.
pub open spec fn start_succeeded(s: OperatorView, anim: Seq<char>, t: OperatorView, st: AnimationStart) -> bool {
    &&& set_animation_spec(s.skin, anim, false) == Some(t.skin)
    &&& t == OperatorView { skin: t.skin, ..s }
    &&& change_matches(s.skin, anim, false, st.change)
    &&& st.notice.to@ == "broadcast"@
    &&& st.notice.from@ == s.id
    &&& st.notice.ani@ == anim
}

/// An operator.
pub struct GeneralOperator {
    id: String,
    skin: GeneralOperatorSkin,
    facing: FacingDirection,
    selected: bool,
}

impl View for GeneralOperator {
    type V = OperatorView;

    closed spec fn view(&self) -> OperatorView {
        OperatorView { id: self.id@, skin: self.skin@, facing: self.facing, selected: self.selected }
    }
}

/// The operator id that the host hands over, where it handed one.
pub fn operator_id_or_error(id: Option<String>) -> (r: Result<String, OperatorError>)
    ensures
        match id {
            Some(s) => r == Ok::<String, OperatorError>(s),
            None => r matches Err(OperatorError::InvalidOperatorId(m)) && m@ == Seq::<char>::empty(),
        },
{
    match id {
        Some(s) => Ok(s),
        None => Err(OperatorError::InvalidOperatorId(String::new())),
    }
}

impl GeneralOperator {
    /// An operator wearing `skin`, facing right, not selected.
    pub fn new(op_id: &str, skin: GeneralOperatorSkin) -> (r: GeneralOperator)
        ensures
            r@ == (OperatorView { id: op_id@, skin: skin@, facing: FacingDirection::Right, selected: false }),
    {
        GeneralOperator { id: op_id.to_owned(), skin, facing: FacingDirection::Right, selected: false }
    }

    /// The operator's id.
    pub fn id(&self) -> (r: String)
        ensures
            r@ == self@.id,
    {
        self.id.clone()
    }

    /// The way the operator faces.
    pub fn facing(&self) -> (r: FacingDirection)
        ensures
            r == self@.facing,
    {
        self.facing
    }

    /// Whether the operator is selected.
    pub fn selected(&self) -> (r: bool)
        ensures
            r == self@.selected,
    {
        self.selected
    }

    /// The operator's skin.
    pub fn skin(&self) -> (r: &GeneralOperatorSkin)
        ensures
            r@ == self@.skin,
    {
        &self.skin
    }

    /// Starts animation `anim` (blending from the current one) and asks that
    /// the change be broadcast.
    pub fn start_animation(&mut self, anim: &str) -> (r: Result<AnimationStart, OperatorError>)
        requires
            switch_supported(old(self)@.skin, anim@, false),
        ensures
            started(old(self)@, anim@, final(self)@, r),
            final(self)@.id == old(self)@.id,
            final(self)@.facing == old(self)@.facing,
            final(self)@.selected == old(self)@.selected,
            r matches Ok(st) ==> {
                &&& st.notice.to@ == "broadcast"@
                &&& st.notice.from@ == old(self)@.id
                &&& st.notice.ani@ == anim@
                &&& final(self)@.skin.active_ani == anim@
            },
            r is Err ==> final(self)@ == old(self)@,
    {
        match self.skin.set_animation(anim, false) {
            Ok(change) => {
                let notice = AnimationNotice { to: "broadcast".to_owned(), from: self.id.clone(), ani: anim.to_owned() };
                Ok(AnimationStart { change, notice })
            },
            Err(e) => Err(OperatorError::Skin(e)),
        }
    }

    /// Starts the `Relax` animation, which the skin must have.
    pub fn reset_interaction(&mut self) -> (r: AnimationStart)
        requires
            mapping_of(old(self)@.skin.entries).contains_key("Relax"@),
            switch_supported(old(self)@.skin, "Relax"@, false),
        ensures
            start_succeeded(old(self)@, "Relax"@, final(self)@, r),
    {
        match self.start_animation("Relax") {
            Ok(st) => st,
            Err(_) => vstd::pervasive::unreached(),
        }
    }

    /// Plays the animation that played before the current one again, without
    /// broadcasting it, as when the operator arrives where it walked.
    pub fn resume_previous_animation(&mut self) -> (r: Result<AnimationChange, SkinError>)
        requires
            switch_supported(old(self)@.skin, old(self)@.skin.previous_ani, false),
        ensures
            final(self)@ == (OperatorView { skin: final(self)@.skin, ..old(self)@ }),
            match r {
                Err(e) => {
                    &&& set_animation_spec(old(self)@.skin, old(self)@.skin.previous_ani, false) is None
                    &&& final(self)@ == old(self)@
                    &&& e matches SkinError::AnimationNotFound(m)
                    &&& m@ == crate::skin::animation_not_found_message(old(self)@.skin.previous_ani)
                },
                Ok(c) => {
                    &&& set_animation_spec(old(self)@.skin, old(self)@.skin.previous_ani, false) == Some(final(self)@.skin)
                    &&& change_matches(old(self)@.skin, old(self)@.skin.previous_ani, false, c)
                },
            },
    {
        let previous = self.skin.previous_ani();
        self.skin.set_animation(previous.as_str(), false)
    }

    /// Turns the operator for a frame of walking and says how it steps.
    pub fn move_to(&mut self, o: MoveObservation) -> (r: Option<MoveStep>)
        ensures
            r == move_plan(o),
            final(self)@ == (OperatorView { facing: facing_after_move(o, old(self)@.facing), ..old(self)@ }),
            r is None <==> o.at_target,
            o.at_target ==> final(self)@.facing == old(self)@.facing,
            r matches Some(st) ==> {
                &&& st.snap == o.within_reach
                &&& (final(self)@.facing == FacingDirection::Left <==> st.x == Step::Back)
                &&& (!o.within_reach ==> {
                    &&& (st.x == Step::Back <==> o.target_left)
                    &&& (st.x == Step::Forward <==> (!o.target_left && !o.x_within_step))
                    &&& (st.y == Step::Back <==> o.target_up)
                    &&& (st.y == Step::Forward <==> (!o.target_up && !o.y_within_step))
                })
                &&& (o.within_reach ==> st.x != Step::Back && st.y != Step::Back
                    && (st.x == Step::Hold <==> o.velocity_positive) && (st.y == Step::Hold <==> o.velocity_positive))
            },
            (!o.at_target && !o.target_left) ==> final(self)@.facing == FacingDirection::Right,
    {
        if o.at_target {
            return None;
        }
        let (snap, past_x, past_y, near_x, near_y) = if o.within_reach {
            (true, false, false, o.velocity_positive, o.velocity_positive)
        } else {
            (false, o.target_left, o.target_up, o.x_within_step, o.y_within_step)
        };
        self.facing = if past_x {
            FacingDirection::Left
        } else {
            FacingDirection::Right
        };
        let x = if past_x {
            Step::Back
        } else if near_x {
            Step::Hold
        } else {
            Step::Forward
        };
        let y = if past_y {
            Step::Back
        } else if near_y {
            Step::Hold
        } else {
            Step::Forward
        };
        Some(MoveStep { snap, x, y })
    }

    /// A frame of walking: plays `Move`, which the skin must have, then steps.
    pub fn walk_to(&mut self, o: MoveObservation) -> (r: (AnimationStart, Option<MoveStep>))
        requires
            mapping_of(old(self)@.skin.entries).contains_key("Move"@),
            switch_supported(old(self)@.skin, "Move"@, false),
        ensures
            start_succeeded(old(self)@, "Move"@, OperatorView { facing: old(self)@.facing, ..final(self)@ }, r.0),
            final(self)@.facing == facing_after_move(o, old(self)@.facing),
            r.1 == move_plan(o),
    {
        let st = match self.start_animation("Move") {
            Ok(st) => st,
            Err(_) => vstd::pervasive::unreached(),
        };
        let step = self.move_to(o);
        (st, step)
    }

    /// What pointer input does to the operator; a toggle flips its selection.
    pub fn handle_pointer(&mut self, input: PointerInput) -> (r: PointerAction)
        ensures
            r == pointer_action_spec(input, old(self)@.selected),
            (r == PointerAction::Drag) <==> (input.primary_down && input.hovered),
            (r == PointerAction::ToggleSelection) <==> (!input.primary_down && input.hovered && input.secondary_clicked),
            (r == PointerAction::SetDestination) <==> (!input.hovered && input.secondary_clicked
                && input.has_interact_pos && old(self)@.selected),
            final(self)@ == (OperatorView {
                selected: if r == PointerAction::ToggleSelection { !old(self)@.selected } else { old(self)@.selected },
                ..old(self)@
            }),
    {
        if input.primary_down && input.hovered {
            PointerAction::Drag
        } else if input.secondary_clicked && input.hovered {
            self.selected = !self.selected;
            PointerAction::ToggleSelection
        } else if input.has_interact_pos && self.selected && input.secondary_clicked {
            PointerAction::SetDestination
        } else {
            PointerAction::Nothing
        }
    }

    /// Answers an event. Retreat and skin changes are answered as not
    /// implemented, events of other kinds than those listed with their
    /// description; an animation request starts the animation, a direction
    /// request turns the operator; every handled event is answered with the
    /// address it was sent to.
    pub fn event_handler(&mut self, event: &OperatorEvent) -> (r: Result<(Response, Option<AnimationStart>), OperatorError>)
        requires
            event.kind matches EventKind::SetAnimation { ani } ==> switch_supported(old(self)@.skin, ani@, false),
        ensures
            match event.kind {
                EventKind::OnRetreat => {
                    &&& final(self)@ == old(self)@
                    &&& r matches Ok((Response::Error(m), None)) && m@ == "not implemented"@
                },
                EventKind::SetSkin => {
                    &&& final(self)@ == old(self)@
                    &&& r matches Ok((Response::Error(m), None)) && m@ == "not implemented"@
                },
                EventKind::SetAnimation { ani } => match r {
                    Err(e) => started(old(self)@, ani@, final(self)@, Err(e)),
                    Ok((resp, st)) => {
                        &&& st matches Some(s) && start_succeeded(old(self)@, ani@, final(self)@, s)
                        &&& resp matches Response::Success(t) && t@ == reply_text(event.to@)
                    },
                },
                EventKind::SetFacingDirection { direction } => {
                    &&& final(self)@ == (OperatorView { facing: facing_for(direction@), ..old(self)@ })
                    &&& r matches Ok((Response::Success(t), None)) && t@ == reply_text(event.to@)
                },
                EventKind::Unsupported { description } => {
                    &&& final(self)@ == old(self)@
                    &&& r matches Ok((Response::Error(m), None)) && m@ == unsupported_message(description@)
                },
                _ => {
                    &&& final(self)@ == old(self)@
                    &&& r matches Ok((Response::Success(t), None)) && t@ == reply_text(event.to@)
                },
            },
    {
        let mut animation: Option<AnimationStart> = None;
        match &event.kind {
            EventKind::OnRetreat => {
                return Ok((Response::Error("not implemented".to_owned()), None));
            },
            EventKind::SetSkin => {
                return Ok((Response::Error("not implemented".to_owned()), None));
            },
            EventKind::SetAnimation { ani } => {
                match self.start_animation(ani.as_str()) {
                    Ok(st) => {
                        animation = Some(st);
                    },
                    Err(e) => {
                        return Err(e);
                    },
                }
            },
            EventKind::SetFacingDirection { direction } => {
                self.facing = FacingDirection::from_direction(direction.as_str());
            },
            EventKind::Unsupported { description } => {
                let mut m = "Event ".to_owned();
                m.append(description.as_str());
                m.append(" not implemented");
                return Ok((Response::Error(m), None));
            },
            _ => {},
        }
        let texts = vec![("operator".to_owned(), event.to.clone())];
        let lists: Vec<(String, Vec<String>)> = Vec::new();
        proof {
            assert(text_fields_view(texts@) =~= seq![("operator"@, event.to@)]);
            assert(list_fields_view(lists@) =~= Seq::empty());
        }
        let text = write_json_object(texts, lists);
        Ok((Response::Success(text), animation))
    }

    /// The operator's id and the names of its animations, as JSON text.
    pub fn infos(&self) -> (r: String)
        ensures
            r@ == infos_text(self@.id, crate::skin::entry_names(self@.skin.entries)),
    {
        let animations = self.skin.animations();
        let texts = vec![("id".to_owned(), self.id.clone())];
        let lists = vec![("animations".to_owned(), animations)];
        proof {
            assert(text_fields_view(texts@) =~= seq![("id"@, self@.id)]);
            assert(list_fields_view(lists@) =~= seq![("animations"@, crate::skin::entry_names(self@.skin.entries))]);
        }
        write_json_object(texts, lists)
    }
}

/// Pointer input drags the operator exactly when the primary button is held
/// over it; toggles its selection exactly when the secondary button is
/// clicked over it without the primary one held; sends a selected operator
/// to the pointer exactly when the secondary button is clicked elsewhere at a
/// known position; and does nothing otherwise.
pub proof fn lemma_pointer_action(input: PointerInput, selected: bool)
    ensures
        (pointer_action_spec(input, selected) == PointerAction::Drag) <==> (input.primary_down && input.hovered),
        (pointer_action_spec(input, selected) == PointerAction::ToggleSelection)
            <==> (!input.primary_down && input.hovered && input.secondary_clicked),
        (pointer_action_spec(input, selected) == PointerAction::SetDestination)
            <==> (!input.hovered && input.secondary_clicked && input.has_interact_pos && selected),
        !selected ==> pointer_action_spec(input, selected) != PointerAction::SetDestination,
{
}

/// A frame of walking: no step on the point itself; a jump exactly when the
/// point is within reach; otherwise, along each axis, back when past the
/// point, forward when short of it by at least the speed, still when closer.
pub proof fn lemma_move_plan(o: MoveObservation)
    ensures
        move_plan(o) is None <==> o.at_target,
        move_plan(o) matches Some(st) ==> {
            &&& st.snap == o.within_reach
            &&& (!o.within_reach ==> {
                &&& (st.x == Step::Back <==> o.target_left)
                &&& (st.x == Step::Forward <==> (!o.target_left && !o.x_within_step))
                &&& (st.x == Step::Hold <==> (!o.target_left && o.x_within_step))
                &&& (st.y == Step::Back <==> o.target_up)
                &&& (st.y == Step::Forward <==> (!o.target_up && !o.y_within_step))
                &&& (st.y == Step::Hold <==> (!o.target_up && o.y_within_step))
            })
            &&& (o.within_reach ==> {
                &&& st.x != Step::Back
                &&& st.y != Step::Back
                &&& (st.x == Step::Hold <==> o.velocity_positive)
                &&& (st.y == Step::Hold <==> o.velocity_positive)
            })
        },
{
}

/// The step along one axis does not depend on what was observed along the
/// other.
pub proof fn lemma_move_axes_independent(o1: MoveObservation, o2: MoveObservation)
    requires
        !o1.at_target,
        o1.at_target == o2.at_target,
        o1.within_reach == o2.within_reach,
        o1.velocity_positive == o2.velocity_positive,
    ensures
        (o1.target_left == o2.target_left && o1.x_within_step == o2.x_within_step)
            ==> move_plan(o1)->0.x == move_plan(o2)->0.x,
        (o1.target_up == o2.target_up && o1.y_within_step == o2.y_within_step)
            ==> move_plan(o1)->0.y == move_plan(o2)->0.y,
{
}

/// After a frame of walking the operator faces the way it steps: left exactly
/// when it steps back along x, which is when the point lies to its left and
/// out of reach; it keeps its facing on the point itself.
pub proof fn lemma_facing_after_move(o: MoveObservation, facing: FacingDirection)
    ensures
        o.at_target ==> facing_after_move(o, facing) == facing,
        (!o.at_target && !o.target_left) ==> facing_after_move(o, facing) == FacingDirection::Right,
        (!o.at_target && o.within_reach) ==> facing_after_move(o, facing) == FacingDirection::Right,
        (!o.at_target && !o.within_reach && o.target_left) ==> facing_after_move(o, facing) == FacingDirection::Left,
        move_plan(o) matches Some(st) ==> (facing_after_move(o, facing) == FacingDirection::Left <==> st.x == Step::Back),
{
}

} // verus!
