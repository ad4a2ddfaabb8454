//! What holds of every run of the scheduler: the order of the rotation, the
//! treatment of sections that are left out, and that no two valves are ever
//! open at once.

use crate::clock::ClockServiceMessage;
use crate::sections::{Section, SectionDuration, Sections, SectionsServiceMessage};
use crate::watering::{
    advance, close_all, next_watered, opens, place, Action, SectionDurations,
    WateringServiceMessage, WateringState,
};
use vstd::prelude::*;

verus! {

/// The valves after one action was carried out.  Only requests to the valves
/// change them.
pub open spec fn valves_after_action(valves: Sections, action: Action) -> Sections {
    match action {
        Action::Sections(msg) => valves.after(msg),
        _ => valves,
    }
}

/// The valves after the actions were carried out in order.
pub open spec fn valves_after(valves: Sections, actions: Seq<Action>) -> Sections
    decreases actions.len(),
{
    if actions.len() == 0 {
        valves
    } else {
        valves_after(valves_after_action(valves, actions[0]), actions.drop_first())
    }
}

/// Whether at most one valve is open before the actions, after each of them,
/// and so at every instant while they are carried out in order.
pub open spec fn never_two_open(valves: Sections, actions: Seq<Action>) -> bool
    decreases actions.len(),
{
    valves.at_most_one_open() && (actions.len() == 0 || never_two_open(
        valves_after_action(valves, actions[0]),
        actions.drop_first(),
    ))
}

/// Whether the only valve that may be open is that of the section which the
/// rotation waters now.
pub open spec fn agrees(state: WateringState, valves: Sections) -> bool {
    valves.none_open_but(state.current_section)
}

/// How far the rotation still has to go once it has reached `to`: nothing
/// when `to` is the end of the rotation.
pub open spec fn left_after(to: Section) -> nat {
    if to == Section::Off {
        0
    } else {
        to.steps_left()
    }
}

/// The rotation only moves forward in the watering order.  From `from` it
/// goes to a later section that is not left out, or to the end; and every
/// section that lies between the two is one that is left out.  So the
/// sections watered in one rotation are in the fixed order, whichever
/// durations are zero.
pub proof fn lemma_rotation_order(durations: SectionDurations, from: Section)
    ensures
        left_after(next_watered(durations, from)) < from.steps_left(),
        next_watered(durations, from) != Section::Off ==> !durations.skips(
            next_watered(durations, from),
        ),
        forall|section: Section|
            left_after(next_watered(durations, from)) < section.steps_left() < from.steps_left()
                ==> durations.skips(section),
    decreases from.steps_left(),
{
    let next = from.successor();
    if next != Section::Off && durations.skips(next) {
        lemma_rotation_order(durations, next);
    }
}

/// The sections that a rotation still waters once it stands at `from`, in
/// order: the zones after `from` that are not left out.  From the marker,
/// where a rotation starts, these are all the zones that are not left out.
pub open spec fn watered_after(durations: SectionDurations, from: Section) -> Seq<Section>
    decreases from.steps_left(),
{
    let next = from.successor();
    if next == Section::Off {
        Seq::empty()
    } else if durations.skips(next) {
        watered_after(durations, next)
    } else {
        seq![next] + watered_after(durations, next)
    }
}

/// One rotation waters exactly the zones that are not left out, each once
/// and in the watering order.  Wherever it stands, the next alarm takes it to
/// the first zone after that place which is not left out, and what it still
/// has to water from there are the zones after that one; when no such zone
/// is left, the alarm takes it to the end.
pub proof fn lemma_full_rotation(durations: SectionDurations, from: Section)
    ensures
        watered_after(durations, from).len() == 0 ==> next_watered(durations, from)
            == Section::Off,
        watered_after(durations, from).len() > 0 ==> next_watered(durations, from)
            == watered_after(durations, from)[0] && watered_after(
            durations,
            next_watered(durations, from),
        ) == watered_after(durations, from).drop_first(),
        forall|i: int|
            0 <= i < watered_after(durations, from).len() ==> !durations.skips(
                #[trigger] watered_after(durations, from)[i],
            ) && watered_after(durations, from)[i].steps_left() < from.steps_left() - i,
        forall|section: Section|
            section.steps_left() < from.steps_left() && !durations.skips(section)
                ==> watered_after(durations, from).contains(section),
    decreases from.steps_left(),
{
    let next = from.successor();
    let whole = watered_after(durations, from);
    if next != Section::Off {
        lemma_full_rotation(durations, next);
        let rest = watered_after(durations, next);
        if !durations.skips(next) {
            assert(whole =~= seq![next] + rest);
            assert(whole.drop_first() =~= rest);
            assert forall|i: int| 0 <= i < whole.len() implies !durations.skips(
                #[trigger] whole[i],
            ) && whole[i].steps_left() < from.steps_left() - i by {
                if i > 0 {
                    assert(whole[i] == rest[i - 1]);
                }
            }
            assert forall|section: Section|
                section.steps_left() < from.steps_left() && !durations.skips(
                    section,
                ) implies whole.contains(section) by {
                if section == next {
                    assert(whole[0] == section);
                } else {
                    assert(rest.contains(section));
                    let j = choose|j: int| 0 <= j < rest.len() && rest[j] == section;
                    assert(whole[j + 1] == section);
                }
            }
        }
    }
}

/// The sections that are closed when the rotation moves on from `from`, in
/// order: `from` itself, then each section after it that is left out, up to
/// the next section that is not, or the end.
pub open spec fn passed(durations: SectionDurations, from: Section) -> Seq<Section>
    decreases from.steps_left(),
{
    let next = from.successor();
    if next != Section::Off && durations.skips(next) {
        seq![from] + passed(durations, next)
    } else {
        seq![from]
    }
}

/// The requests that close the given sections, in order.
pub open spec fn closing(sections: Seq<Section>) -> Seq<Action> {
    Seq::new(sections.len(), |i: int| Action::Sections(SectionsServiceMessage::Disable(sections[i])))
}

/// How a step of the rotation that arrives at `to` ends: the section is
/// opened and the section alarm armed for its duration, or, at the end of the
/// rotation, the section alarm is switched off.
pub open spec fn ending(durations: SectionDurations, to: Section) -> Seq<Action> {
    if to == Section::Off {
        seq![Action::Clock(ClockServiceMessage::DisableSectionAlarm)]
    } else {
        seq![
            Action::Sections(SectionsServiceMessage::Enable(to)),
            Action::Clock(ClockServiceMessage::SetSectionAlarmAfter(durations.of(to)->0)),
        ]
    }
}

/// A step of the rotation in full.  Its requests are: one to close each
/// section passed, and then the ending for the section arrived at.  The
/// sections passed are `from` and after it, one by one in the watering order
/// and each once, the zones up to the section arrived at; every one of these
/// zones is left out.
pub proof fn lemma_step_in_full(durations: SectionDurations, from: Section)
    ensures
        advance(durations, from) == closing(passed(durations, from)) + ending(
            durations,
            next_watered(durations, from),
        ),
        passed(durations, from).len() >= 1,
        passed(durations, from)[0] == from,
        place(from) + passed(durations, from).len() == next_watered(durations, from).position(),
        forall|i: int|
            0 < i < passed(durations, from).len() ==> {
                &&& (#[trigger] passed(durations, from)[i]).position() == place(from) + i
                &&& passed(durations, from)[i] != Section::Off
                &&& durations.skips(passed(durations, from)[i])
            },
    decreases from.steps_left(),
{
    let next = from.successor();
    let to = next_watered(durations, from);
    let whole = passed(durations, from);
    if next != Section::Off && durations.skips(next) {
        lemma_step_in_full(durations, next);
        let rest = passed(durations, next);
        assert(whole =~= seq![from] + rest);
        assert forall|i: int| 0 < i < whole.len() implies {
            &&& (#[trigger] whole[i]).position() == place(from) + i
            &&& whole[i] != Section::Off
            &&& durations.skips(whole[i])
        } by {
            assert(whole[i] == rest[i - 1]);
        }
        assert(advance(durations, from) =~= closing(whole) + ending(durations, to)) by {
            let left = advance(durations, from);
            let right = closing(whole) + ending(durations, to);
            let inner = closing(rest) + ending(durations, to);
            assert(left =~= seq![Action::Sections(SectionsServiceMessage::Disable(from))] + inner);
            assert(left.len() == right.len());
            assert forall|i: int| 0 <= i < left.len() implies left[i] == right[i] by {
                if 0 < i {
                    assert(left[i] == inner[i - 1]);
                    if i < whole.len() {
                        assert(whole[i] == rest[i - 1]);
                    }
                }
            }
        }
    } else {
        assert(whole =~= seq![from]);
        assert(advance(durations, from) =~= closing(whole) + ending(durations, to));
    }
}

/// A step of the rotation, said of the sections.  The rotation only moves
/// forward and never past the end into a second round; it arrives at the
/// first section after `from` that is not left out, or at the end where
/// there is none; it opens at most one section, the one arrived at, as its
/// last request to the valves, after `from` was closed; and where the
/// section that follows `from` is not left out, the step is three requests.
pub proof fn lemma_rotation_step(durations: SectionDurations, from: Section)
    ensures
        place(from) < next_watered(durations, from).position() <= 4,
        from != Section::Off ==> from.position() < next_watered(durations, from).position(),
        next_watered(durations, from) != Section::Off ==> !durations.skips(
            next_watered(durations, from),
        ),
        forall|section: Section|
            place(from) < section.position() < next_watered(durations, from).position()
                ==> durations.skips(section) && advance(durations, from).contains(
                Action::Sections(SectionsServiceMessage::Disable(section)),
            ),
        advance(durations, from)[0] == Action::Sections(SectionsServiceMessage::Disable(from)),
        forall|i: int|
            0 <= i < advance(durations, from).len() && opens(#[trigger] advance(durations, from)[i])
                ==> {
                &&& i == advance(durations, from).len() - 2
                &&& i > 0
                &&& next_watered(durations, from) != Section::Off
                &&& advance(durations, from)[i] == Action::Sections(
                    SectionsServiceMessage::Enable(next_watered(durations, from)),
                )
                &&& advance(durations, from)[i + 1] == Action::Clock(
                    ClockServiceMessage::SetSectionAlarmAfter(
                        durations.of(next_watered(durations, from))->0,
                    ),
                )
            },
        from.successor() != Section::Off && !durations.skips(from.successor()) ==> {
            &&& next_watered(durations, from) == from.successor()
            &&& advance(durations, from) == seq![
                Action::Sections(SectionsServiceMessage::Disable(from)),
                Action::Sections(SectionsServiceMessage::Enable(from.successor())),
                Action::Clock(
                    ClockServiceMessage::SetSectionAlarmAfter(durations.of(from.successor())->0),
                ),
            ]
        },
{
    lemma_step_in_full(durations, from);
    let to = next_watered(durations, from);
    let row = passed(durations, from);
    let whole = advance(durations, from);
    let closes = closing(row);
    let end = ending(durations, to);
    assert(whole == closes + end);
    assert(whole[0] == closes[0]);
    if to != Section::Off {
        lemma_rotation_order(durations, from);
    }
    assert forall|section: Section|
        place(from) < section.position() < to.position() implies durations.skips(section)
        && whole.contains(Action::Sections(SectionsServiceMessage::Disable(section))) by {
        let i = section.position() - place(from);
        assert(row[i].position() == section.position());
        assert(row[i] == section);
        assert(closes[i] == Action::Sections(SectionsServiceMessage::Disable(section)));
        assert(whole[i] == closes[i]);
    }
    assert forall|i: int| 0 <= i < whole.len() && opens(#[trigger] whole[i]) implies {
        &&& i == whole.len() - 2
        &&& i > 0
        &&& to != Section::Off
        &&& whole[i] == Action::Sections(SectionsServiceMessage::Enable(to))
        &&& whole[i + 1] == Action::Clock(
            ClockServiceMessage::SetSectionAlarmAfter(durations.of(to)->0),
        )
    } by {
        if i < closes.len() {
            assert(whole[i] == closes[i]);
        } else {
            assert(whole[i] == end[i - closes.len()]);
            if to != Section::Off {
                assert(whole[closes.len() as int + 1] == end[1]);
            }
        }
    }
    if from.successor() != Section::Off && !durations.skips(from.successor()) {
        assert(whole =~= seq![
            Action::Sections(SectionsServiceMessage::Disable(from)),
            Action::Sections(SectionsServiceMessage::Enable(from.successor())),
            Action::Clock(
                ClockServiceMessage::SetSectionAlarmAfter(durations.of(from.successor())->0),
            ),
        ]);
    }
}

/// A section that is left out is never opened, yet it is closed when the
/// rotation passes it: moving on from `from` closes `from` first and then
/// every section between `from` and the next one watered, and it opens no
/// section but the next one watered.
pub proof fn lemma_skipped_sections_are_closed(durations: SectionDurations, from: Section)
    ensures
        advance(durations, from).len() >= 2,
        advance(durations, from)[0] == Action::Sections(SectionsServiceMessage::Disable(from)),
        forall|section: Section|
            left_after(next_watered(durations, from)) < section.steps_left() < from.steps_left()
                ==> advance(durations, from).contains(
                Action::Sections(SectionsServiceMessage::Disable(section)),
            ),
        forall|i: int|
            0 <= i < advance(durations, from).len() && opens(#[trigger] advance(durations, from)[i])
                ==> i > 0 && advance(durations, from)[i] == Action::Sections(
                SectionsServiceMessage::Enable(next_watered(durations, from)),
            ) && !durations.skips(next_watered(durations, from)),
    decreases from.steps_left(),
{
    let next = from.successor();
    let close = seq![Action::Sections(SectionsServiceMessage::Disable(from))];
    if next != Section::Off && durations.skips(next) {
        lemma_skipped_sections_are_closed(durations, next);
        lemma_rotation_order(durations, next);
        let rest = advance(durations, next);
        let whole = advance(durations, from);
        assert(whole =~= close + rest);
        assert forall|section: Section|
            left_after(next_watered(durations, from)) < section.steps_left()
                < from.steps_left() implies whole.contains(
            Action::Sections(SectionsServiceMessage::Disable(section)),
        ) by {
            let wanted = Action::Sections(SectionsServiceMessage::Disable(section));
            if section == next {
                assert(whole[1] == wanted);
            } else {
                assert(rest.contains(wanted));
                let j = choose|j: int| 0 <= j < rest.len() && rest[j] == wanted;
                assert(whole[j + 1] == wanted);
            }
        }
        assert forall|i: int| 0 <= i < whole.len() && opens(#[trigger] whole[i]) implies i > 0
            && whole[i] == Action::Sections(
            SectionsServiceMessage::Enable(next_watered(durations, from)),
        ) && !durations.skips(next_watered(durations, from)) by {
            if i > 0 {
                assert(whole[i] == rest[i - 1]);
            }
        }
    } else if next == Section::Off {
        assert(advance(durations, from) =~= close + seq![
            Action::Clock(ClockServiceMessage::DisableSectionAlarm),
        ]);
    } else {
        let whole = advance(durations, from);
        assert(whole.len() == 3);
    }
}

/// Carrying out `first` and then `second` is carrying out the two in a row.
pub proof fn lemma_valves_after_both(valves: Sections, first: Seq<Action>, second: Seq<Action>)
    ensures
        valves_after(valves, first + second) == valves_after(valves_after(valves, first), second),
        never_two_open(valves, first + second) == (never_two_open(valves, first) && never_two_open(
            valves_after(valves, first),
            second,
        )),
    decreases first.len(),
{
    if first.len() == 0 {
        assert(first + second =~= second);
        if !valves.at_most_one_open() {
            assert(!never_two_open(valves, second));
        }
    } else {
        assert((first + second).drop_first() =~= first.drop_first() + second);
        assert((first + second)[0] == first[0]);
        lemma_valves_after_both(
            valves_after_action(valves, first[0]),
            first.drop_first(),
            second,
        );
    }
}

/// Carrying out a single action.
pub proof fn lemma_valves_after_one(valves: Sections, action: Action)
    ensures
        valves_after(valves, seq![action]) == valves_after_action(valves, action),
        never_two_open(valves, seq![action]) == (valves.at_most_one_open() && valves_after_action(
            valves,
            action,
        ).at_most_one_open()),
{
    let one = seq![action];
    let then = valves_after_action(valves, action);
    assert(one[0] == action);
    assert(one.drop_first().len() == 0);
    assert(valves_after(then, one.drop_first()) == then);
    assert(never_two_open(then, one.drop_first()) == then.at_most_one_open());
}

/// Actions that open nothing leave no valve open that was closed, close the
/// valve of every section that they name, and keep at most one valve open
/// where at most one was.
pub proof fn lemma_closing_only(valves: Sections, actions: Seq<Action>)
    requires
        valves.at_most_one_open(),
        forall|i: int| 0 <= i < actions.len() ==> !opens(#[trigger] actions[i]),
    ensures
        never_two_open(valves, actions),
        valves_after(valves, actions).within(valves),
        forall|i: int|
            0 <= i < actions.len() && #[trigger] actions[i] is Sections ==> !valves_after(
                valves,
                actions,
            ).is_open(actions[i]->Sections_0->Disable_0),
    decreases actions.len(),
{
    if actions.len() > 0 {
        let then = valves_after_action(valves, actions[0]);
        let rest = actions.drop_first();
        assert(!opens(actions[0]));
        assert forall|i: int| 0 <= i < rest.len() implies !opens(#[trigger] rest[i]) by {
            assert(rest[i] == actions[i + 1]);
        }
        assert(then.within(valves));
        lemma_closing_only(then, rest);
        assert forall|i: int| 0 <= i < actions.len() && #[trigger] actions[i] is Sections implies
            !valves_after(valves, actions).is_open(actions[i]->Sections_0->Disable_0) by {
            let section = actions[i]->Sections_0->Disable_0;
            assert(!opens(actions[i]));
            if i == 0 {
                assert(!then.is_open(section));
            } else {
                assert(rest[i - 1] == actions[i]);
            }
        }
    }
}

/// Closing all valves leaves every valve closed.
pub proof fn lemma_close_all_closes(valves: Sections)
    requires
        valves.at_most_one_open(),
    ensures
        never_two_open(valves, close_all()),
        valves_after(valves, close_all()).all_closed(),
{
    let actions = close_all();
    assert forall|i: int| 0 <= i < actions.len() implies !opens(#[trigger] actions[i]) by {}
    lemma_closing_only(valves, actions);
    let then = valves_after(valves, actions);
    assert(actions[0] is Sections && !then.is_open(Section::Vegs));
    assert(actions[1] is Sections && !then.is_open(Section::Flowers));
    assert(actions[2] is Sections && !then.is_open(Section::Grass));
    assert(actions[3] is Sections && !then.is_open(Section::Terrace));
}

/// While the rotation moves on, at most one valve is open at every instant,
/// and afterwards none is open but that of the section now watered.
pub proof fn lemma_advance_keeps_one_open(
    durations: SectionDurations,
    from: Section,
    valves: Sections,
)
    requires
        valves.none_open_but(from),
    ensures
        never_two_open(valves, advance(durations, from)),
        valves_after(valves, advance(durations, from)).none_open_but(
            next_watered(durations, from),
        ),
    decreases from.steps_left(),
{
    let next = from.successor();
    let close = Action::Sections(SectionsServiceMessage::Disable(from));
    let closed = valves_after_action(valves, close);
    lemma_valves_after_one(valves, close);
    assert(closed.all_closed());
    if next == Section::Off {
        let alarm_off = Action::Clock(ClockServiceMessage::DisableSectionAlarm);
        lemma_valves_after_one(closed, alarm_off);
        lemma_valves_after_both(valves, seq![close], seq![alarm_off]);
    } else if durations.skips(next) {
        lemma_advance_keeps_one_open(durations, next, closed);
        lemma_valves_after_both(valves, seq![close], advance(durations, next));
    } else {
        let open = Action::Sections(SectionsServiceMessage::Enable(next));
        let arm = Action::Clock(ClockServiceMessage::SetSectionAlarmAfter(durations.of(next)->0));
        let opened = valves_after_action(closed, open);
        assert(opened.none_open_but(next));
        lemma_valves_after_one(closed, open);
        lemma_valves_after_one(opened, arm);
        lemma_valves_after_both(closed, seq![open], seq![arm]);
        assert(seq![open] + seq![arm] =~= seq![open, arm]);
        lemma_valves_after_both(valves, seq![close], seq![open, arm]);
    }
}

/// At most one section is open at any instant.  Where no valve is open but
/// that of the section which the rotation waters, the answer to any message
/// keeps at most one valve open after each of its actions, and leaves again
/// none open but that of the section then watered.
pub proof fn lemma_at_most_one_section_open(
    state: WateringState,
    msg: WateringServiceMessage,
    valves: Sections,
)
    requires
        agrees(state, valves),
        state.refusal(msg) is None,
    ensures
        never_two_open(valves, state.actions(msg)),
        agrees(state.after(msg), valves_after(valves, state.actions(msg))),
{
    let actions = state.actions(msg);
    let alarm_off = Action::Clock(ClockServiceMessage::DisableSectionAlarm);
    match msg {
        WateringServiceMessage::SectionAlarmFired => {
            if state.is_adhoc() {
                lemma_close_all_closes(valves);
                let closed = valves_after(valves, close_all());
                lemma_valves_after_one(closed, alarm_off);
                lemma_valves_after_both(valves, close_all(), seq![alarm_off]);
            } else {
                lemma_advance_keeps_one_open(state.section_durations, state.current_section, valves);
            }
        },
        WateringServiceMessage::WateringAlarmFired => {
            lemma_advance_keeps_one_open(state.section_durations, state.current_section, valves);
        },
        _ => {
            assert forall|i: int| 0 <= i < actions.len() implies !opens(#[trigger] actions[i]) by {}
            lemma_closing_only(valves, actions);
        },
    }
}

/// Whether an action arms the section alarm.
pub open spec fn arms(action: Action) -> bool {
    action is Clock && action->Clock_0 is SetSectionAlarmAfter
}

/// A request to water a section now is never refused.  For a duration that
/// is not zero it arms the section alarm for that duration as its last
/// action and makes the section the one watered on request; where a section
/// was already watered on request, all valves are closed first.  For the
/// zero duration it arms nothing: all valves are closed, the section alarm is
/// switched off, and the state stays as it was.
pub proof fn lemma_request_to_water_now(
    state: WateringState,
    section: Section,
    duration: SectionDuration,
    valves: Sections,
)
    requires
        valves.at_most_one_open(),
    ensures
        ({
            let msg = WateringServiceMessage::EnableSectionFor(section, duration);
            let actions = state.actions(msg);
            let arm = Action::Clock(ClockServiceMessage::SetSectionAlarmAfter(duration));
            let alarm_off = Action::Clock(ClockServiceMessage::DisableSectionAlarm);
            &&& state.refusal(msg) is None
            &&& never_two_open(valves, actions)
            &&& duration@ != 0 ==> {
                &&& state.after(msg).override_section == section
                &&& state.after(msg).current_section == state.current_section
                &&& !state.is_adhoc() ==> actions == seq![arm]
                &&& state.is_adhoc() ==> actions == close_all().push(arm) && valves_after(
                    valves,
                    actions,
                ).all_closed()
            }
            &&& duration@ == 0 ==> {
                &&& state.after(msg) == state
                &&& actions.last() == alarm_off
                &&& forall|i: int| 0 <= i < actions.len() ==> !arms(#[trigger] actions[i])
                &&& valves_after(valves, actions).all_closed()
            }
        }),
{
    let msg = WateringServiceMessage::EnableSectionFor(section, duration);
    let actions = state.actions(msg);
    let arm = Action::Clock(ClockServiceMessage::SetSectionAlarmAfter(duration));
    let alarm_off = Action::Clock(ClockServiceMessage::DisableSectionAlarm);
    assert forall|i: int| 0 <= i < actions.len() implies !opens(#[trigger] actions[i]) by {}
    lemma_closing_only(valves, actions);
    lemma_close_all_closes(valves);
    let closed = valves_after(valves, close_all());
    if duration@ != 0 {
        if state.is_adhoc() {
            assert(actions =~= close_all().push(arm));
            assert(actions =~= close_all() + seq![arm]);
            lemma_valves_after_one(closed, arm);
            lemma_valves_after_both(valves, close_all(), seq![arm]);
        } else {
            assert(actions =~= seq![arm]);
        }
    } else {
        lemma_close_all_closes(closed);
        let twice = valves_after(closed, close_all());
        lemma_valves_after_one(closed, alarm_off);
        lemma_valves_after_one(twice, alarm_off);
        if state.is_adhoc() {
            assert(actions =~= close_all() + (close_all() + seq![alarm_off]));
            lemma_valves_after_both(closed, close_all(), seq![alarm_off]);
            lemma_valves_after_both(valves, close_all(), close_all() + seq![alarm_off]);
        } else {
            assert(actions =~= close_all() + seq![alarm_off]);
            lemma_valves_after_both(valves, close_all(), seq![alarm_off]);
        }
    }
}

/// A valve is opened only after the section watered before was closed: in the
/// answer to any message, an action that opens a section is not the first,
/// the first then closes the section that was watered until now, and the
/// section opened is the one watered from now on.  Nothing but a step of the
/// rotation opens a valve.
pub proof fn lemma_open_follows_close(state: WateringState, msg: WateringServiceMessage)
    requires
        state.refusal(msg) is None,
    ensures
        forall|i: int|
            0 <= i < state.actions(msg).len() && opens(#[trigger] state.actions(msg)[i]) ==> i > 0
                && state.actions(msg)[0] == Action::Sections(
                SectionsServiceMessage::Disable(state.current_section),
            ) && state.actions(msg)[i] == Action::Sections(
                SectionsServiceMessage::Enable(state.after(msg).current_section),
            ),
{
    lemma_skipped_sections_are_closed(state.section_durations, state.current_section);
}

/// A duration that was set is the duration reported, until it is set again:
/// setting the duration of a zone changes that of no other zone, and nothing
/// else of the state; and no message but this one changes a duration.
pub proof fn lemma_duration_set_is_duration_kept(
    state: WateringState,
    msg: WateringServiceMessage,
    section: Section,
)
    ensures
        msg matches WateringServiceMessage::SetSectionDuration(target, duration) ==> {
            &&& target != Section::Off ==> state.after(msg).section_durations.of(target) == Some(
                duration,
            )
            &&& section != target ==> state.after(msg).section_durations.of(section)
                == state.section_durations.of(section)
            &&& state.after(msg).current_section == state.current_section
            &&& state.after(msg).override_section == state.override_section
            &&& state.actions(msg).len() == 0
        },
        !(msg is SetSectionDuration) ==> state.after(msg).section_durations
            == state.section_durations,
{
}

/// The state after a message: a refused message changes nothing.
pub open spec fn state_after_msg(state: WateringState, msg: WateringServiceMessage) -> WateringState {
    if state.refusal(msg) is None {
        state.after(msg)
    } else {
        state
    }
}

/// What is asked for in answer to a message: nothing where it is refused.
pub open spec fn actions_for_msg(state: WateringState, msg: WateringServiceMessage) -> Seq<Action> {
    if state.refusal(msg) is None {
        state.actions(msg)
    } else {
        Seq::empty()
    }
}

/// The state after a sequence of messages.
pub open spec fn state_after_all(
    state: WateringState,
    msgs: Seq<WateringServiceMessage>,
) -> WateringState
    decreases msgs.len(),
{
    if msgs.len() == 0 {
        state
    } else {
        state_after_msg(state_after_all(state, msgs.drop_last()), msgs.last())
    }
}

/// The valves after a sequence of messages, when every action asked for was
/// carried out in order.
pub open spec fn valves_after_all(
    state: WateringState,
    valves: Sections,
    msgs: Seq<WateringServiceMessage>,
) -> Sections
    decreases msgs.len(),
{
    if msgs.len() == 0 {
        valves
    } else {
        valves_after(
            valves_after_all(state, valves, msgs.drop_last()),
            actions_for_msg(state_after_all(state, msgs.drop_last()), msgs.last()),
        )
    }
}

/// Whatever messages arrive, in whatever order, at most one valve is open
/// after them; and while the answer to the last of them is carried out, at
/// most one valve is open at every instant.  It holds from every start in
/// which no valve is open but that of the section being watered: so from the
/// start of a new scheduler with all valves closed.
pub proof fn lemma_one_valve_whatever_arrives(
    state: WateringState,
    valves: Sections,
    msgs: Seq<WateringServiceMessage>,
)
    requires
        agrees(state, valves),
    ensures
        agrees(state_after_all(state, msgs), valves_after_all(state, valves, msgs)),
        valves_after_all(state, valves, msgs).at_most_one_open(),
        msgs.len() > 0 ==> never_two_open(
            valves_after_all(state, valves, msgs.drop_last()),
            actions_for_msg(state_after_all(state, msgs.drop_last()), msgs.last()),
        ),
    decreases msgs.len(),
{
    if msgs.len() > 0 {
        let before = msgs.drop_last();
        lemma_one_valve_whatever_arrives(state, valves, before);
        let state_before = state_after_all(state, before);
        let valves_before = valves_after_all(state, valves, before);
        if state_before.refusal(msgs.last()) is None {
            lemma_at_most_one_section_open(state_before, msgs.last(), valves_before);
        }
    }
}

} // verus!
