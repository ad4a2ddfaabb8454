//! The decisions of the clock service: which alarm registers of the real-time
//! clock to write for each request, what to do when the interrupt line fires,
//! and who is told about it.

use crate::sections::SectionDuration;
use vstd::prelude::*;

verus! {

/// Seconds in one day.
pub const SECONDS_PER_DAY: u32 = 86_400;

/// A time of day with a resolution of one second.
#[derive(Debug, Clone, Copy, PartialEq, Eq, Structural)]
pub struct TimeOfDay {
    seconds: u32,
}

impl View for TimeOfDay {
    type V = int;

    /// Seconds since midnight.
    closed spec fn view(&self) -> int {
        self.seconds as int
    }
}

impl TimeOfDay {
    #[verifier::type_invariant]
    spec fn in_day(self) -> bool {
        self.seconds < SECONDS_PER_DAY
    }

    /// The time of day that lies `offset` after this one, counted round the
    /// clock.
    pub closed spec fn plus(self, offset: SectionDuration) -> TimeOfDay {
        TimeOfDay { seconds: ((self.seconds + offset@ / 1_000_000_000) % 86_400) as u32 }
    }

    /// The time of day after an offset is the sum of the two in whole
    /// seconds, counted round the clock.
    pub proof fn lemma_plus(self, offset: SectionDuration)
        ensures
            self.plus(offset)@ == (self@ + offset@ / 1_000_000_000) % 86_400,
            0 <= self.plus(offset)@ < 86_400,
    {
        offset.lemma_not_negative();
    }

    /// Two times of day are equal exactly when they are as many seconds
    /// after midnight.
    pub proof fn lemma_equal_by_seconds(self, other: TimeOfDay)
        ensures
            (self == other) == (self@ == other@),
    {
    }

    /// The time `hour:minute:second`, where that is a time of day.
    pub fn from_hms(hour: u32, minute: u32, second: u32) -> (time: Option<TimeOfDay>)
        ensures
            time is Some <==> hour < 24 && minute < 60 && second < 60,
            time is Some ==> time->0@ == hour * 3600 + minute * 60 + second,
    {
        if hour < 24 && minute < 60 && second < 60 {
            Some(TimeOfDay { seconds: hour * 3600 + minute * 60 + second })
        } else {
            None
        }
    }

    /// Seconds since midnight.
    pub fn num_seconds_from_midnight(&self) -> (seconds: u32)
        ensures
            seconds == self@,
            seconds < SECONDS_PER_DAY,
    {
        proof {
            use_type_invariant(self);
        }
        self.seconds
    }

    /// The hour, from 0 to 23.
    pub fn hour(&self) -> (hour: u32)
        ensures
            hour == self@ / 3600,
            hour < 24,
    {
        proof {
            use_type_invariant(self);
        }
        self.seconds / 3600
    }

    /// The minute of the hour.
    pub fn minute(&self) -> (minute: u32)
        ensures
            minute == (self@ / 60) % 60,
            minute < 60,
    {
        (self.seconds / 60) % 60
    }

    /// The second of the minute.
    pub fn second(&self) -> (second: u32)
        ensures
            second == self@ % 60,
            second < 60,
    {
        self.seconds % 60
    }

    /// The time of day that lies `offset` after this one, counted round the
    /// clock: past midnight it starts again at zero.  Parts of a second in
    /// `offset` are dropped, as the alarm registers hold whole seconds.
    pub fn after(&self, offset: SectionDuration) -> (time: TimeOfDay)
        ensures
            time == self.plus(offset),
            time@ == (self@ + offset@ / 1_000_000_000) % 86_400,
    {
        proof {
            use_type_invariant(self);
        }
        let sum: u32 = self.seconds + offset.num_seconds();
        TimeOfDay { seconds: sum % SECONDS_PER_DAY }
    }
}

/// A request to the clock service.
#[derive(Debug, Clone, Copy, PartialEq, Eq, Structural)]
pub enum ClockServiceMessage {
    /// The interrupt line of the real-time clock fired; the number counts
    /// the interrupts since start-up.
    InterruptArrived(u32),
    /// Arm the section alarm to fire this long from now.
    SetSectionAlarmAfter(SectionDuration),
    /// Arm the watering alarm for this time of day, to the minute.
    SetWateringAlarmAt(TimeOfDay),
    DisableSectionAlarm,
    DisableWateringAlarm,
    /// Report temperature and time.
    GetStatus,
    /// Report the time.
    GetDateTime,
}

/// Why the clock service has no time to report.
#[derive(Debug, Clone, Copy, PartialEq, Eq, Structural)]
pub enum ClockReadError {
    /// The real-time clock could not be read.
    Read,
}

/// What the clock service answers to a request: to one that asks for a
/// report, the time as read, or the failure where it could not be read; to
/// any other request, nothing.  So a request for a report is answered exactly
/// once, whether or not the clock could be read.
pub open spec fn reply_to(msg: ClockServiceMessage, now: Option<TimeOfDay>) -> Option<
    Result<TimeOfDay, ClockReadError>,
> {
    if msg is GetStatus || msg is GetDateTime {
        match now {
            Some(time) => Some(Ok(time)),
            None => Some(Err(ClockReadError::Read)),
        }
    } else {
        None
    }
}

/// One step on the real-time clock, on its interrupt line or towards the
/// subscribers, for the owner of the hardware to carry out.
#[derive(Debug, Clone, Copy, PartialEq, Eq, Structural)]
pub enum ClockAction {
    /// Switch the unused 32 kHz output off.
    Disable32khzOutput,
    /// Let the alarm output pin signal interrupts.
    UseIntSqwOutputAsInterrupt,
    /// Write the first alarm register: hour, minute and second.
    SetAlarm1Hms(TimeOfDay),
    EnableAlarm1Interrupts,
    DisableAlarm1Interrupts,
    ClearAlarm1MatchedFlag,
    /// Write the second alarm register: hour and minute.
    SetAlarm2Hm(TimeOfDay),
    EnableAlarm2Interrupts,
    DisableAlarm2Interrupts,
    ClearAlarm2MatchedFlag,
    /// Tell every subscriber of the section alarm that it fired, then drop
    /// the subscribers that could not be reached.
    NotifySectionAlarm,
    /// Tell every subscriber of the watering alarm that it fired, then drop
    /// the subscribers that could not be reached.
    NotifyWateringAlarm,
    /// Enable the interrupt on the line again: it disables itself when it fires.
    EnableInterrupt,
}

/// The steps that reset the real-time clock at start-up: it keeps its
/// registers while the controller restarts.
pub open spec fn startup_steps() -> Seq<ClockAction> {
    seq![
        ClockAction::Disable32khzOutput,
        ClockAction::UseIntSqwOutputAsInterrupt,
        ClockAction::DisableAlarm1Interrupts,
        ClockAction::DisableAlarm2Interrupts,
    ]
}

/// The steps that let the real-time clock interrupt again, given which
/// alarms have matched: the flag of each matched alarm is cleared, or the
/// clock would not trigger again, and then, whatever matched, the line is
/// enabled again, which disables itself when it fires.
pub open spec fn rearm_steps(alarm1_matched: bool, alarm2_matched: bool) -> Seq<ClockAction> {
    let clear1 = if alarm1_matched {
        seq![ClockAction::ClearAlarm1MatchedFlag]
    } else {
        Seq::empty()
    };
    let clear2 = if alarm2_matched {
        seq![ClockAction::ClearAlarm2MatchedFlag]
    } else {
        Seq::empty()
    };
    clear1 + clear2 + seq![ClockAction::EnableInterrupt]
}

/// The steps that answer an interrupt, given which alarms have matched: the
/// subscribers of each matched alarm are told, and then the clock is let
/// interrupt again.
pub open spec fn interrupt_steps(alarm1_matched: bool, alarm2_matched: bool) -> Seq<ClockAction> {
    let notify1 = if alarm1_matched {
        seq![ClockAction::NotifySectionAlarm]
    } else {
        Seq::empty()
    };
    let notify2 = if alarm2_matched {
        seq![ClockAction::NotifyWateringAlarm]
    } else {
        Seq::empty()
    };
    notify1 + notify2 + rearm_steps(alarm1_matched, alarm2_matched)
}

/// Whether a request needs the time to be read from the real-time clock
/// before it can be answered.
pub open spec fn needs_time(msg: ClockServiceMessage) -> bool {
    msg is SetSectionAlarmAfter || msg is GetStatus || msg is GetDateTime
}

/// The steps on the real-time clock that carry out a request.  `now` is the
/// time as read from the clock, or nothing where it was not read.  The
/// section alarm is armed relative to `now`, and not at all without it; the
/// watering alarm is armed for a time of day.  Arming an alarm writes its
/// register and enables its interrupt.  Requests that only read the clock
/// need no step.
pub open spec fn request_steps(msg: ClockServiceMessage, now: Option<TimeOfDay>) -> Seq<
    ClockAction,
> {
    match msg {
        ClockServiceMessage::SetSectionAlarmAfter(offset) => match now {
            Some(time) => seq![
                ClockAction::SetAlarm1Hms(time.plus(offset)),
                ClockAction::EnableAlarm1Interrupts,
            ],
            None => Seq::empty(),
        },
        ClockServiceMessage::SetWateringAlarmAt(when) => seq![
            ClockAction::SetAlarm2Hm(when),
            ClockAction::EnableAlarm2Interrupts,
        ],
        ClockServiceMessage::DisableSectionAlarm => seq![ClockAction::DisableAlarm1Interrupts],
        ClockServiceMessage::DisableWateringAlarm => seq![ClockAction::DisableAlarm2Interrupts],
        _ => Seq::empty(),
    }
}

/// The subscribers that stay after a delivery: those that were reached, in
/// their order, and those of which `delivered` says nothing.
pub open spec fn kept<S>(subscribers: Seq<S>, delivered: Seq<bool>) -> Seq<S>
    decreases subscribers.len(),
{
    if subscribers.len() == 0 {
        Seq::empty()
    } else {
        let last = subscribers.len() - 1;
        let before = kept(subscribers.drop_last(), delivered);
        if last < delivered.len() && !delivered[last] {
            before
        } else {
            before.push(subscribers[last])
        }
    }
}

/// After every interrupt the line is enabled again, as the last step, or no
/// later alarm would be seen; the flag of an alarm is cleared exactly when
/// the alarm has matched, and only after its subscribers were told.
pub proof fn lemma_interrupt_is_answered_in_full(alarm1_matched: bool, alarm2_matched: bool)
    ensures
        interrupt_steps(alarm1_matched, alarm2_matched).last() == ClockAction::EnableInterrupt,
        interrupt_steps(alarm1_matched, alarm2_matched).len() == 1 + (if alarm1_matched {
            2int
        } else {
            0
        }) + (if alarm2_matched {
            2int
        } else {
            0
        }),
        alarm1_matched <==> interrupt_steps(alarm1_matched, alarm2_matched).contains(
            ClockAction::ClearAlarm1MatchedFlag,
        ),
        alarm2_matched <==> interrupt_steps(alarm1_matched, alarm2_matched).contains(
            ClockAction::ClearAlarm2MatchedFlag,
        ),
        alarm1_matched ==> interrupt_steps(alarm1_matched, alarm2_matched).index_of(
            ClockAction::NotifySectionAlarm,
        ) < interrupt_steps(alarm1_matched, alarm2_matched).index_of(
            ClockAction::ClearAlarm1MatchedFlag,
        ),
        alarm2_matched ==> interrupt_steps(alarm1_matched, alarm2_matched).index_of(
            ClockAction::NotifyWateringAlarm,
        ) < interrupt_steps(alarm1_matched, alarm2_matched).index_of(
            ClockAction::ClearAlarm2MatchedFlag,
        ),
{
    let steps = interrupt_steps(alarm1_matched, alarm2_matched);
    let all = seq![
        ClockAction::NotifySectionAlarm,
        ClockAction::NotifyWateringAlarm,
        ClockAction::ClearAlarm1MatchedFlag,
        ClockAction::ClearAlarm2MatchedFlag,
        ClockAction::EnableInterrupt,
    ];
    let first = seq![
        ClockAction::NotifySectionAlarm,
        ClockAction::ClearAlarm1MatchedFlag,
        ClockAction::EnableInterrupt,
    ];
    let second = seq![
        ClockAction::NotifyWateringAlarm,
        ClockAction::ClearAlarm2MatchedFlag,
        ClockAction::EnableInterrupt,
    ];
    let none = seq![ClockAction::EnableInterrupt];
    if alarm1_matched && alarm2_matched {
        assert(steps =~= all);
        assert(steps[0] == ClockAction::NotifySectionAlarm);
        assert(steps[1] == ClockAction::NotifyWateringAlarm);
        assert(steps[2] == ClockAction::ClearAlarm1MatchedFlag);
        assert(steps[3] == ClockAction::ClearAlarm2MatchedFlag);
    } else if alarm1_matched {
        assert(steps =~= first);
        assert(steps[0] == ClockAction::NotifySectionAlarm);
        assert(steps[1] == ClockAction::ClearAlarm1MatchedFlag);
    } else if alarm2_matched {
        assert(steps =~= second);
        assert(steps[0] == ClockAction::NotifyWateringAlarm);
        assert(steps[1] == ClockAction::ClearAlarm2MatchedFlag);
    } else {
        assert(steps =~= none);
    }
    assert(steps.last() == ClockAction::EnableInterrupt);
}

/// Pruning drops nobody that was reached: where every subscriber was reached,
/// or nothing is reported, all of them stay; and however the delivery went,
/// no subscriber is added.
pub proof fn lemma_kept_subscribers<S>(subscribers: Seq<S>, delivered: Seq<bool>)
    ensures
        kept(subscribers, delivered).len() <= subscribers.len(),
        (forall|i: int| 0 <= i < delivered.len() ==> delivered[i]) ==> kept(
            subscribers,
            delivered,
        ) == subscribers,
        forall|i: int|
            0 <= i < kept(subscribers, delivered).len() ==> subscribers.contains(
                #[trigger] kept(subscribers, delivered)[i],
            ),
    decreases subscribers.len(),
{
    if subscribers.len() > 0 {
        let rest = subscribers.drop_last();
        lemma_kept_subscribers(rest, delivered);
        let last = subscribers.len() - 1;
        let now = kept(subscribers, delivered);
        if forall|i: int| 0 <= i < delivered.len() ==> delivered[i] {
            assert(kept(rest, delivered).push(subscribers[last]) =~= subscribers);
        }
        assert forall|i: int| 0 <= i < now.len() implies subscribers.contains(#[trigger] now[i]) by {
            if i < kept(rest, delivered).len() {
                let found = kept(rest, delivered)[i];
                assert(rest.contains(found));
                let j = choose|j: int| 0 <= j < rest.len() && rest[j] == found;
                assert(subscribers[j] == found);
            } else {
                assert(now[i] == subscribers[last]);
            }
        }
    } else {
        assert(kept(subscribers, delivered) =~= subscribers);
    }
}

/// Who is told when an alarm fires.
pub struct ClockServiceState<S> {
    pub section_alarm_subscribers: Seq<S>,
    pub watering_alarm_subscribers: Seq<S>,
}

/// The clock service: it knows the subscribers of the two alarms and decides
/// the steps on the real-time clock.  `S` is what a message is delivered to.
pub struct ClockService<S> {
    section_alarm_subscribers: Vec<S>,
    watering_alarm_subscribers: Vec<S>,
}

impl<S> View for ClockService<S> {
    type V = ClockServiceState<S>;

    closed spec fn view(&self) -> ClockServiceState<S> {
        ClockServiceState {
            section_alarm_subscribers: self.section_alarm_subscribers@,
            watering_alarm_subscribers: self.watering_alarm_subscribers@,
        }
    }
}

impl<S> ClockService<S> {
    /// A clock service without subscribers.
    pub fn new() -> (service: ClockService<S>)
        ensures
            service@.section_alarm_subscribers.len() == 0,
            service@.watering_alarm_subscribers.len() == 0,
    {
        ClockService {
            section_alarm_subscribers: Vec::new(),
            watering_alarm_subscribers: Vec::new(),
        }
    }

    /// The steps that reset the real-time clock at start-up.
    pub fn startup(&self) -> (steps: Vec<ClockAction>)
        ensures
            steps@ == startup_steps(),
    {
        let mut steps: Vec<ClockAction> = Vec::new();
        steps.push(ClockAction::Disable32khzOutput);
        steps.push(ClockAction::UseIntSqwOutputAsInterrupt);
        steps.push(ClockAction::DisableAlarm1Interrupts);
        steps.push(ClockAction::DisableAlarm2Interrupts);
        assert(steps@ =~= startup_steps());
        steps
    }

    /// Adds a subscriber of the section alarm, after those already there.
    pub fn subscribe_section_alarm(&mut self, sink: S)
        ensures
            final(self)@.section_alarm_subscribers == old(self)@.section_alarm_subscribers.push(
                sink,
            ),
            final(self)@.watering_alarm_subscribers == old(self)@.watering_alarm_subscribers,
    {
        self.section_alarm_subscribers.push(sink);
    }

    /// Adds a subscriber of the watering alarm, after those already there.
    pub fn subscribe_watering_alarm(&mut self, sink: S)
        ensures
            final(self)@.watering_alarm_subscribers == old(self)@.watering_alarm_subscribers.push(
                sink,
            ),
            final(self)@.section_alarm_subscribers == old(self)@.section_alarm_subscribers,
    {
        self.watering_alarm_subscribers.push(sink);
    }

    /// The subscribers of the section alarm, oldest first.
    pub fn section_alarm_subscribers(&self) -> (subscribers: &Vec<S>)
        ensures
            subscribers@ == self@.section_alarm_subscribers,
    {
        &self.section_alarm_subscribers
    }

    /// The subscribers of the watering alarm, oldest first.
    pub fn watering_alarm_subscribers(&self) -> (subscribers: &Vec<S>)
        ensures
            subscribers@ == self@.watering_alarm_subscribers,
    {
        &self.watering_alarm_subscribers
    }

    /// Drops the subscribers of the section alarm that the last delivery did
    /// not reach: `delivered` says of each subscriber, by its place, whether
    /// it was reached.
    pub fn prune_section_alarm_subscribers(&mut self, delivered: &Vec<bool>)
        ensures
            final(self)@.section_alarm_subscribers == kept(
                old(self)@.section_alarm_subscribers,
                delivered@,
            ),
            final(self)@.watering_alarm_subscribers == old(self)@.watering_alarm_subscribers,
    {
        retain_delivered(&mut self.section_alarm_subscribers, delivered);
    }

    /// Drops the subscribers of the watering alarm that the last delivery did
    /// not reach.
    pub fn prune_watering_alarm_subscribers(&mut self, delivered: &Vec<bool>)
        ensures
            final(self)@.watering_alarm_subscribers == kept(
                old(self)@.watering_alarm_subscribers,
                delivered@,
            ),
            final(self)@.section_alarm_subscribers == old(self)@.section_alarm_subscribers,
    {
        retain_delivered(&mut self.watering_alarm_subscribers, delivered);
    }

    /// The steps that let the real-time clock interrupt again, given the two
    /// matched flags as read from it: at start-up, when flags may be left
    /// from before, and at the end of the answer to every interrupt.
    pub fn enable_interrupt(&self, alarm1_matched: bool, alarm2_matched: bool) -> (steps: Vec<
        ClockAction,
    >)
        ensures
            steps@ == rearm_steps(alarm1_matched, alarm2_matched),
    {
        let mut steps: Vec<ClockAction> = Vec::new();
        if alarm1_matched {
            steps.push(ClockAction::ClearAlarm1MatchedFlag);
        }
        if alarm2_matched {
            steps.push(ClockAction::ClearAlarm2MatchedFlag);
        }
        steps.push(ClockAction::EnableInterrupt);
        assert(steps@ =~= rearm_steps(alarm1_matched, alarm2_matched));
        steps
    }

    /// The steps that answer an interrupt of the real-time clock, given the
    /// two matched flags as read from it.
    pub fn on_interrupt(&self, alarm1_matched: bool, alarm2_matched: bool) -> (steps: Vec<
        ClockAction,
    >)
        ensures
            steps@ == interrupt_steps(alarm1_matched, alarm2_matched),
    {
        let mut steps: Vec<ClockAction> = Vec::new();
        if alarm1_matched {
            steps.push(ClockAction::NotifySectionAlarm);
        }
        if alarm2_matched {
            steps.push(ClockAction::NotifyWateringAlarm);
        }
        if alarm1_matched {
            steps.push(ClockAction::ClearAlarm1MatchedFlag);
        }
        if alarm2_matched {
            steps.push(ClockAction::ClearAlarm2MatchedFlag);
        }
        steps.push(ClockAction::EnableInterrupt);
        assert(steps@ =~= interrupt_steps(alarm1_matched, alarm2_matched));
        steps
    }

    /// Whether the time has to be read from the real-time clock before `msg`
    /// is answered.
    pub fn reads_clock(&self, msg: ClockServiceMessage) -> (reads: bool)
        ensures
            reads == needs_time(msg),
    {
        match msg {
            ClockServiceMessage::SetSectionAlarmAfter(_) => true,
            ClockServiceMessage::GetStatus => true,
            ClockServiceMessage::GetDateTime => true,
            _ => false,
        }
    }

    /// What is answered to `msg`, with the time as read from the clock, or
    /// nothing where reading failed.
    pub fn reply(&self, msg: ClockServiceMessage, now: Option<TimeOfDay>) -> (r: Option<
        Result<TimeOfDay, ClockReadError>,
    >)
        ensures
            r == reply_to(msg, now),
            r is Some <==> (msg is GetStatus || msg is GetDateTime),
            r is Some ==> r->0 == (match now {
                Some(time) => Ok::<TimeOfDay, ClockReadError>(time),
                None => Err::<TimeOfDay, ClockReadError>(ClockReadError::Read),
            }),
    {
        match msg {
            ClockServiceMessage::GetStatus | ClockServiceMessage::GetDateTime => match now {
                Some(time) => Some(Ok(time)),
                None => Some(Err(ClockReadError::Read)),
            },
            _ => None,
        }
    }

    /// The steps on the real-time clock that carry out `msg`, with the time
    /// as read from the clock where it was read.
    pub fn on_request(&self, msg: ClockServiceMessage, now: Option<TimeOfDay>) -> (steps: Vec<
        ClockAction,
    >)
        ensures
            steps@ == request_steps(msg, now),
    {
        let mut steps: Vec<ClockAction> = Vec::new();
        match msg {
            ClockServiceMessage::SetSectionAlarmAfter(offset) => {
                if let Some(time) = now {
                    let future = time.after(offset);
                    steps.push(ClockAction::SetAlarm1Hms(future));
                    steps.push(ClockAction::EnableAlarm1Interrupts);
                }
            },
            ClockServiceMessage::SetWateringAlarmAt(when) => {
                steps.push(ClockAction::SetAlarm2Hm(when));
                steps.push(ClockAction::EnableAlarm2Interrupts);
            },
            ClockServiceMessage::DisableSectionAlarm => {
                steps.push(ClockAction::DisableAlarm1Interrupts);
            },
            ClockServiceMessage::DisableWateringAlarm => {
                steps.push(ClockAction::DisableAlarm2Interrupts);
            },
            _ => {},
        }
        assert(steps@ =~= request_steps(msg, now));
        steps
    }
}

/// Removes from `subscribers` those that `delivered` marks as not reached.
fn retain_delivered<S>(subscribers: &mut Vec<S>, delivered: &Vec<bool>)
    ensures
        final(subscribers)@ == kept(old(subscribers)@, delivered@),
{
    let total = subscribers.len();
    let mut place: usize = 0;
    let mut seen: usize = 0;
    assert(old(subscribers)@.take(0) =~= Seq::<S>::empty());
    assert(subscribers@.skip(0) =~= subscribers@);
    assert(old(subscribers)@.skip(0) =~= old(subscribers)@);
    while seen < total
        invariant
            place <= seen <= total,
            total == old(subscribers)@.len(),
            subscribers@.len() == place + (total - seen),
            subscribers@.take(place as int) == kept(old(subscribers)@.take(seen as int), delivered@),
            subscribers@.skip(place as int) == old(subscribers)@.skip(seen as int),
        decreases total - seen,
    {
        let ghost before = subscribers@;
        let ghost all = old(subscribers)@;
        assert(before[place as int] == before.skip(place as int)[0]);
        assert(all[seen as int] == all.skip(seen as int)[0]);
        assert(all.take(seen + 1).drop_last() =~= all.take(seen as int));
        assert(before.skip(place + 1) =~= all.skip(seen + 1)) by {
            let left = before.skip(place + 1);
            let right = all.skip(seen + 1);
            assert forall|j: int| 0 <= j < total - seen - 1 implies #[trigger] left[j]
                == right[j] by {
                assert(before.skip(place as int)[j + 1] == all.skip(seen as int)[j + 1]);
            }
        }
        if seen < delivered.len() && !delivered[seen] {
            let _ = subscribers.remove(place);
            assert(subscribers@.take(place as int) =~= before.take(place as int));
            assert(subscribers@.skip(place as int) =~= before.skip(place + 1));
        } else {
            assert(before.take(place + 1) =~= before.take(place as int).push(before[place as int]));
            place += 1;
        }
        seen += 1;
    }
    assert(subscribers@.take(place as int) =~= subscribers@);
    assert(old(subscribers)@.take(total as int) =~= old(subscribers)@);
}

} // verus!
