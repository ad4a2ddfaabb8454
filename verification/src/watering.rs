//! The watering scheduler: it waters the sections one after another when the
//! daily alarm fires, leaves out the sections whose duration is zero, and
//! gives way to a request to water one section at once.

use crate::clock::{ClockServiceMessage, TimeOfDay};
use crate::safety::{lemma_rotation_step, lemma_skipped_sections_are_closed};
use crate::sections::{Section, SectionDuration, SectionsServiceMessage};
use vstd::prelude::*;

verus! {

/// The configured duration of each of the four zones.
#[derive(Debug, Clone, Copy, PartialEq, Eq, Structural)]
pub struct SectionDurations {
    pub vegs: SectionDuration,
    pub flowers: SectionDuration,
    pub grass: SectionDuration,
    pub terrace: SectionDuration,
}

impl SectionDurations {
    /// The duration of `section`; the marker has none.
    pub open spec fn of(self, section: Section) -> Option<SectionDuration> {
        match section {
            Section::Vegs => Some(self.vegs),
            Section::Flowers => Some(self.flowers),
            Section::Grass => Some(self.grass),
            Section::Terrace => Some(self.terrace),
            Section::Off => None,
        }
    }

    /// These durations with that of `section` replaced.  The marker has no
    /// duration to replace.
    pub open spec fn with(self, section: Section, duration: SectionDuration) -> SectionDurations {
        match section {
            Section::Vegs => SectionDurations { vegs: duration, ..self },
            Section::Flowers => SectionDurations { flowers: duration, ..self },
            Section::Grass => SectionDurations { grass: duration, ..self },
            Section::Terrace => SectionDurations { terrace: duration, ..self },
            Section::Off => self,
        }
    }

    /// Whether a rotation leaves `section` out: its duration is zero.
    pub open spec fn skips(self, section: Section) -> bool {
        match self.of(section) {
            Some(duration) => duration@ == 0,
            None => true,
        }
    }

    /// The duration of `section`; the marker has none.
    pub fn get(&self, section: Section) -> (duration: Option<SectionDuration>)
        ensures
            duration == self.of(section),
    {
        match section {
            Section::Vegs => Some(self.vegs),
            Section::Flowers => Some(self.flowers),
            Section::Grass => Some(self.grass),
            Section::Terrace => Some(self.terrace),
            Section::Off => None,
        }
    }

    /// Replaces the duration of `section`.
    pub fn insert(&mut self, section: Section, duration: SectionDuration)
        ensures
            *final(self) == old(self).with(section, duration),
    {
        match section {
            Section::Vegs => {
                self.vegs = duration;
            },
            Section::Flowers => {
                self.flowers = duration;
            },
            Section::Grass => {
                self.grass = duration;
            },
            Section::Terrace => {
                self.terrace = duration;
            },
            Section::Off => {},
        }
    }
}

impl Default for SectionDurations {
    /// Every zone at zero: nothing is watered.
    fn default() -> (durations: SectionDurations)
        ensures
            forall|section: Section| durations.skips(section),
    {
        let zero = SectionDuration::default();
        SectionDurations { vegs: zero, flowers: zero, grass: zero, terrace: zero }
    }
}

/// What the scheduler reports of itself.
#[derive(Debug, Clone, Copy, PartialEq, Eq, Structural)]
pub struct WateringStatus {
    pub section_durations: SectionDurations,
}

/// What the scheduler is told.
#[derive(Debug, Clone, Copy, PartialEq, Eq, Structural)]
pub enum WateringServiceMessage {
    /// From the clock: the time of the section being watered is up.
    SectionAlarmFired,
    /// From the clock: the daily rotation starts.
    WateringAlarmFired,
    /// Start the rotation every day at this time.
    StartWateringAt(TimeOfDay),
    /// Set the duration of a section in the daily rotation.
    SetSectionDuration(Section, SectionDuration),
    /// Water one section now, for the given duration.
    EnableSectionFor(Section, SectionDuration),
    /// Close the valves of all sections.
    CloseAllValves,
    /// Switch the daily alarm off.
    DisableWatering,
    /// Report the configured durations.
    GetStatus,
}

/// What the scheduler asks of its collaborators in answer to a message.
#[derive(Debug, Clone, Copy, PartialEq, Eq, Structural)]
pub enum Action {
    /// A request to the valves.
    Sections(SectionsServiceMessage),
    /// A request to the clock.
    Clock(ClockServiceMessage),
    /// The answer to a status request.
    Status(WateringStatus),
}

/// Why the scheduler refuses an alarm.
#[derive(Debug, Clone, Copy, PartialEq, Eq, Structural)]
pub enum WateringError {
    /// The section alarm fired though nothing is being watered.
    NothingToFinish,
    /// The watering alarm fired during a rotation.
    RotationInProgress,
}

/// The state of the scheduler.
pub struct WateringState {
    /// The section that the rotation waters now, or the marker.
    pub current_section: Section,
    pub section_durations: SectionDurations,
    /// The section watered on request, outside the rotation, or the marker.
    pub override_section: Section,
}

/// Whether an action opens a valve.
pub open spec fn opens(action: Action) -> bool {
    action is Sections && action->Sections_0 is Enable
}

/// Where a rotation stands, as a place in the watering order: a zone at its
/// own place, the marker, where the rotation starts, before the first zone.
pub open spec fn place(from: Section) -> int {
    if from == Section::Off {
        -1
    } else {
        from.position()
    }
}

/// The requests that close every valve, in watering order.
pub open spec fn close_all() -> Seq<Action> {
    seq![
        Action::Sections(SectionsServiceMessage::Disable(Section::Vegs)),
        Action::Sections(SectionsServiceMessage::Disable(Section::Flowers)),
        Action::Sections(SectionsServiceMessage::Disable(Section::Grass)),
        Action::Sections(SectionsServiceMessage::Disable(Section::Terrace)),
        Action::Sections(SectionsServiceMessage::Disable(Section::Off)),
    ]
}

/// Where a rotation that stands at `from` goes next: to the first section
/// after `from` that is not left out, or to the marker when no such section
/// is left.
pub open spec fn next_watered(durations: SectionDurations, from: Section) -> Section
    decreases from.steps_left(),
{
    let next = from.successor();
    if next == Section::Off {
        Section::Off
    } else if durations.skips(next) {
        next_watered(durations, next)
    } else {
        next
    }
}

/// What a rotation that stands at `from` asks for when it moves on: `from` is
/// closed, then every section that is left out on the way, and then either
/// the next section is opened and the section alarm armed for its duration,
/// or, at the end of the rotation, the section alarm is switched off.
pub open spec fn advance(durations: SectionDurations, from: Section) -> Seq<Action>
    decreases from.steps_left(),
{
    let next = from.successor();
    let close = seq![Action::Sections(SectionsServiceMessage::Disable(from))];
    if next == Section::Off {
        close + seq![Action::Clock(ClockServiceMessage::DisableSectionAlarm)]
    } else if durations.skips(next) {
        close + advance(durations, next)
    } else {
        close + seq![
            Action::Sections(SectionsServiceMessage::Enable(next)),
            Action::Clock(ClockServiceMessage::SetSectionAlarmAfter(durations.of(next)->0)),
        ]
    }
}

impl WateringState {
    /// Nothing is watered.
    pub open spec fn is_idle(self) -> bool {
        self.current_section == Section::Off && self.override_section == Section::Off
    }

    /// The daily rotation waters a section.
    pub open spec fn is_scheduled(self) -> bool {
        self.current_section != Section::Off && self.override_section == Section::Off
    }

    /// A section is watered on request.
    pub open spec fn is_adhoc(self) -> bool {
        self.override_section != Section::Off
    }

    /// Why `msg` is refused in this state, if it is.  Only the two alarms
    /// can be refused: the section alarm where nothing is watered, and the
    /// watering alarm where the rotation waters a section.
    pub open spec fn refusal(self, msg: WateringServiceMessage) -> Option<WateringError> {
        match msg {
            WateringServiceMessage::SectionAlarmFired => if !self.is_adhoc()
                && self.current_section == Section::Off {
                Some(WateringError::NothingToFinish)
            } else {
                None
            },
            WateringServiceMessage::WateringAlarmFired => if self.current_section != Section::Off {
                Some(WateringError::RotationInProgress)
            } else {
                None
            },
            _ => None,
        }
    }

    /// The state after `msg`, where it is not refused.
    ///
    /// The section alarm ends a watering on request and leaves the scheduler
    /// idle; otherwise it moves the rotation on.  The watering alarm starts
    /// the rotation.  A request to water a section now, for a duration that
    /// is not zero, makes that section the one watered on request, and the
    /// rotation that was under way is given up when its time is over.
    /// Setting a duration changes that duration and counts from the next time
    /// that the section is reached.  Nothing else changes the state.
    pub open spec fn after(self, msg: WateringServiceMessage) -> WateringState {
        match msg {
            WateringServiceMessage::SectionAlarmFired => if self.is_adhoc() {
                WateringState {
                    current_section: Section::Off,
                    override_section: Section::Off,
                    ..self
                }
            } else {
                WateringState {
                    current_section: next_watered(self.section_durations, self.current_section),
                    ..self
                }
            },
            WateringServiceMessage::WateringAlarmFired => WateringState {
                current_section: next_watered(self.section_durations, self.current_section),
                ..self
            },
            WateringServiceMessage::SetSectionDuration(section, duration) => WateringState {
                section_durations: self.section_durations.with(section, duration),
                ..self
            },
            WateringServiceMessage::EnableSectionFor(section, duration) => if duration@ == 0 {
                self
            } else {
                WateringState { override_section: section, ..self }
            },
            _ => self,
        }
    }

    /// What the scheduler asks for in answer to `msg`, in order, where `msg`
    /// is not refused.
    ///
    /// The end of a watering on request closes all valves and switches the
    /// section alarm off.  A request to water a section now closes all
    /// valves first where a section is already watered on request; then, for
    /// the zero duration, it closes all valves and switches the section
    /// alarm off, and for any other it arms the section alarm.
    pub open spec fn actions(self, msg: WateringServiceMessage) -> Seq<Action> {
        match msg {
            WateringServiceMessage::SectionAlarmFired => if self.is_adhoc() {
                close_all() + seq![Action::Clock(ClockServiceMessage::DisableSectionAlarm)]
            } else {
                advance(self.section_durations, self.current_section)
            },
            WateringServiceMessage::WateringAlarmFired => advance(
                self.section_durations,
                self.current_section,
            ),
            WateringServiceMessage::StartWateringAt(when) => seq![
                Action::Clock(ClockServiceMessage::SetWateringAlarmAt(when)),
            ],
            WateringServiceMessage::SetSectionDuration(_, _) => Seq::empty(),
            WateringServiceMessage::EnableSectionFor(_, duration) => {
                let first = if self.is_adhoc() {
                    close_all()
                } else {
                    Seq::empty()
                };
                if duration@ == 0 {
                    first + close_all() + seq![
                        Action::Clock(ClockServiceMessage::DisableSectionAlarm),
                    ]
                } else {
                    first + seq![Action::Clock(ClockServiceMessage::SetSectionAlarmAfter(duration))]
                }
            },
            WateringServiceMessage::CloseAllValves => close_all(),
            WateringServiceMessage::DisableWatering => seq![
                Action::Clock(ClockServiceMessage::DisableWateringAlarm),
            ],
            WateringServiceMessage::GetStatus => seq![
                Action::Status(WateringStatus { section_durations: self.section_durations }),
            ],
        }
    }
}

/// The scheduler.
pub struct WateringService {
    current_section: Section,
    section_durations: SectionDurations,
    out_of_schedule_watering: Section,
}

impl View for WateringService {
    type V = WateringState;

    closed spec fn view(&self) -> WateringState {
        WateringState {
            current_section: self.current_section,
            section_durations: self.section_durations,
            override_section: self.out_of_schedule_watering,
        }
    }
}

impl WateringService {
    /// A scheduler that waters nothing: it is idle and every duration is zero.
    pub fn new() -> (service: WateringService)
        ensures
            service@.is_idle(),
            forall|section: Section| service@.section_durations.skips(section),
    {
        WateringService {
            current_section: Section::Off,
            section_durations: SectionDurations::default(),
            out_of_schedule_watering: Section::Off,
        }
    }

    /// The section that the rotation waters now, or the marker.
    pub fn current_section(&self) -> (section: Section)
        ensures
            section == self@.current_section,
    {
        self.current_section
    }

    /// The section watered on request, or the marker.
    pub fn override_section(&self) -> (section: Section)
        ensures
            section == self@.override_section,
    {
        self.out_of_schedule_watering
    }

    /// The configured durations.
    pub fn status(&self) -> (status: WateringStatus)
        ensures
            status.section_durations == self@.section_durations,
    {
        WateringStatus { section_durations: self.section_durations }
    }

    /// Handles one message: changes the state and returns, in order, what the
    /// valves and the clock are asked to do.  An alarm that cannot belong to
    /// the state is refused and changes nothing.
    pub fn handle_msg(&mut self, msg: WateringServiceMessage) -> (r: Result<
        Vec<Action>,
        WateringError,
    >)
        ensures
            match r {
                Ok(actions) => old(self)@.refusal(msg) is None && final(self)@ == old(self)@.after(
                    msg,
                ) && actions@ == old(self)@.actions(msg),
                Err(e) => old(self)@.refusal(msg) == Some(e) && final(self)@ == old(self)@,
            },
    {
        let mut actions: Vec<Action> = Vec::new();
        match msg {
            WateringServiceMessage::SectionAlarmFired => {
                if self.out_of_schedule_watering != Section::Off {
                    Self::close_all_valves(&mut actions);
                    actions.push(Action::Clock(ClockServiceMessage::DisableSectionAlarm));
                    self.out_of_schedule_watering = Section::Off;
                    self.current_section = Section::Off;
                } else if self.current_section == Section::Off {
                    return Err(WateringError::NothingToFinish);
                } else {
                    self.advance_into(&mut actions);
                }
            },
            WateringServiceMessage::WateringAlarmFired => {
                if self.current_section != Section::Off {
                    return Err(WateringError::RotationInProgress);
                }
                self.advance_into(&mut actions);
            },
            WateringServiceMessage::StartWateringAt(when) => {
                actions.push(Action::Clock(ClockServiceMessage::SetWateringAlarmAt(when)));
            },
            WateringServiceMessage::SetSectionDuration(section, duration) => {
                self.section_durations.insert(section, duration);
            },
            WateringServiceMessage::EnableSectionFor(section, duration) => {
                if self.out_of_schedule_watering != Section::Off {
                    Self::close_all_valves(&mut actions);
                }
                if duration.is_zero() {
                    Self::close_all_valves(&mut actions);
                    actions.push(Action::Clock(ClockServiceMessage::DisableSectionAlarm));
                } else {
                    actions.push(Action::Clock(ClockServiceMessage::SetSectionAlarmAfter(duration)));
                    self.out_of_schedule_watering = section;
                }
            },
            WateringServiceMessage::CloseAllValves => {
                Self::close_all_valves(&mut actions);
            },
            WateringServiceMessage::DisableWatering => {
                actions.push(Action::Clock(ClockServiceMessage::DisableWateringAlarm));
            },
            WateringServiceMessage::GetStatus => {
                actions.push(Action::Status(self.status()));
            },
        }
        assert(actions@ =~= old(self)@.actions(msg));
        Ok(actions)
    }

    /// Asks the valves to close every section, the marker included.
    fn close_all_valves(actions: &mut Vec<Action>)
        ensures
            final(actions)@ == old(actions)@ + close_all(),
    {
        let sections = Section::all();
        let mut i: usize = 0;
        while i < sections.len()
            invariant
                i <= 5,
                sections@ == Section::every(),
                actions@ == old(actions)@ + close_all().take(i as int),
            decreases 5 - i,
        {
            let section = sections[i];
            actions.push(Action::Sections(SectionsServiceMessage::Disable(section)));
            assert(close_all().take(i + 1) =~= close_all().take(i as int).push(close_all()[i as int]));
            i += 1;
        }
        assert(close_all().take(5) =~= close_all());
    }

    /// Moves the rotation on from the current section, as the start of the
    /// rotation and the end of a section's time both do: closes the current
    /// section and every section that is left out on the way, then opens the
    /// next section that is not left out and arms the section alarm for its
    /// duration, or, where no such section is left, switches the section
    /// alarm off.  Returns the requests in order.
    pub fn water_next_section(&mut self) -> (actions: Vec<Action>)
        ensures
            final(self)@ == (WateringState {
                current_section: next_watered(
                    old(self)@.section_durations,
                    old(self)@.current_section,
                ),
                ..old(self)@
            }),
            actions@ == advance(old(self)@.section_durations, old(self)@.current_section),
            place(old(self)@.current_section) < final(self)@.current_section.position(),
            final(self)@.current_section != Section::Off ==> !old(self)@.section_durations.skips(
                final(self)@.current_section,
            ),
            forall|section: Section|
                place(old(self)@.current_section) < section.position() < final(self)@
                    .current_section.position() ==> old(self)@.section_durations.skips(section)
                    && actions@.contains(
                    Action::Sections(SectionsServiceMessage::Disable(section)),
                ),
            actions@.len() >= 2,
            actions@[0] == Action::Sections(
                SectionsServiceMessage::Disable(old(self)@.current_section),
            ),
            forall|i: int|
                0 <= i < actions@.len() && opens(#[trigger] actions@[i]) ==> i == actions@.len() - 2
                    && actions@[i] == Action::Sections(
                    SectionsServiceMessage::Enable(final(self)@.current_section),
                ) && final(self)@.current_section != Section::Off,
    {
        proof {
            lemma_rotation_step(self@.section_durations, self@.current_section);
            lemma_skipped_sections_are_closed(self@.section_durations, self@.current_section);
        }
        let mut actions: Vec<Action> = Vec::new();
        self.advance_into(&mut actions);
        assert(actions@ =~= advance(old(self)@.section_durations, old(self)@.current_section));
        actions
    }

    /// Moves the rotation on and adds the requests to `actions`.
    fn advance_into(&mut self, actions: &mut Vec<Action>)
        ensures
            final(self)@ == (WateringState {
                current_section: next_watered(
                    old(self)@.section_durations,
                    old(self)@.current_section,
                ),
                ..old(self)@
            }),
            final(actions)@ == old(actions)@ + advance(
                old(self)@.section_durations,
                old(self)@.current_section,
            ),
        decreases old(self)@.current_section.steps_left(),
    {
        actions.push(Action::Sections(SectionsServiceMessage::Disable(self.current_section)));
        self.current_section = self.current_section.next_cycle();
        match self.section_durations.get(self.current_section) {
            None => {
                actions.push(Action::Clock(ClockServiceMessage::DisableSectionAlarm));
            },
            Some(section_duration) => {
                if section_duration.is_zero() {
                    self.advance_into(actions);
                } else {
                    actions.push(Action::Sections(SectionsServiceMessage::Enable(self.current_section)));
                    actions.push(
                        Action::Clock(ClockServiceMessage::SetSectionAlarmAfter(section_duration)),
                    );
                }
            },
        }
        assert(actions@ =~= old(actions)@ + advance(
            old(self)@.section_durations,
            old(self)@.current_section,
        ));
    }
}

} // verus!
