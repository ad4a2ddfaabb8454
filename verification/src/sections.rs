//! The irrigation sections, the validated watering duration, and the valves
//! that the scheduler opens and closes.

use vstd::prelude::*;
use vstd::string::*;

verus! {

/// One irrigation zone, in watering order, followed by the marker for
/// "no section": the rotation starts and ends there.
#[derive(Debug, Clone, Copy, PartialEq, Eq, Hash, Structural)]
pub enum Section {
    Vegs,
    Flowers,
    Grass,
    Terrace,
    Off,
}

impl Section {
    /// Place of the section in the watering order; the marker comes last.
    pub open spec fn position(self) -> int {
        match self {
            Section::Vegs => 0,
            Section::Flowers => 1,
            Section::Grass => 2,
            Section::Terrace => 3,
            Section::Off => 4,
        }
    }

    /// The cyclic successor: each zone is followed by the next one, the last
    /// zone by the marker, and the marker by the first zone.
    pub open spec fn successor(self) -> Section {
        match self {
            Section::Vegs => Section::Flowers,
            Section::Flowers => Section::Grass,
            Section::Grass => Section::Terrace,
            Section::Terrace => Section::Off,
            Section::Off => Section::Vegs,
        }
    }

    /// How many sections a rotation that stands at this one still has to
    /// pass, the end of the rotation included.
    pub open spec fn steps_left(self) -> nat {
        match self {
            Section::Off => 5,
            Section::Vegs => 4,
            Section::Flowers => 3,
            Section::Grass => 2,
            Section::Terrace => 1,
        }
    }

    /// All five values in watering order.
    pub open spec fn every() -> Seq<Section> {
        seq![Section::Vegs, Section::Flowers, Section::Grass, Section::Terrace, Section::Off]
    }

    /// The section that follows this one, wrapping round at the end.
    pub fn next_cycle(self) -> (next: Section)
        ensures
            next == self.successor(),
            next.position() == (self.position() + 1) % 5,
    {
        match self {
            Section::Vegs => Section::Flowers,
            Section::Flowers => Section::Grass,
            Section::Grass => Section::Terrace,
            Section::Terrace => Section::Off,
            Section::Off => Section::Vegs,
        }
    }

    /// All five values in watering order, the marker last.
    pub fn all() -> (sections: Vec<Section>)
        ensures
            sections@ == Section::every(),
    {
        let mut sections: Vec<Section> = Vec::new();
        sections.push(Section::Vegs);
        sections.push(Section::Flowers);
        sections.push(Section::Grass);
        sections.push(Section::Terrace);
        sections.push(Section::Off);
        assert(sections@ =~= Section::every());
        sections
    }
}

/// Nanoseconds in one second.
pub const NANOS_PER_SECOND: u64 = 1_000_000_000;

/// The exclusive upper bound of a watering duration: two hours, in nanoseconds.
pub const LIMIT_NANOS: u64 = 7_200_000_000_000;

/// Why a time span is no watering duration.
#[derive(Debug, Clone, Copy, PartialEq, Eq, Structural)]
pub enum DurationError {
    /// The span is below zero.
    Negative,
    /// The span is two hours or longer.
    TooLong,
}

impl DurationError {
    /// The reason in words, for the one who sent the span.
    pub fn message(&self) -> (text: &'static str)
        ensures
            text@ == match *self {
                DurationError::Negative => "delta is negative"@,
                DurationError::TooLong => "cannot water section for more than 2 hours"@,
            },
    {
        match self {
            DurationError::Negative => "delta is negative",
            DurationError::TooLong => "cannot water section for more than 2 hours",
        }
    }
}

/// One decimal digit as text.
pub open spec fn digit_text(digit: int) -> Seq<char> {
    if digit == 0 {
        "0"@
    } else if digit == 1 {
        "1"@
    } else if digit == 2 {
        "2"@
    } else if digit == 3 {
        "3"@
    } else if digit == 4 {
        "4"@
    } else if digit == 5 {
        "5"@
    } else if digit == 6 {
        "6"@
    } else if digit == 7 {
        "7"@
    } else if digit == 8 {
        "8"@
    } else {
        "9"@
    }
}

/// A number below one hundred as two decimal digits.
pub open spec fn two_digits(number: int) -> Seq<char> {
    digit_text(number / 10) + digit_text(number % 10)
}

/// A length of `seconds` whole seconds as hours, minutes of the hour and
/// seconds of the minute, two digits each: `01h 30m 00s`.
pub open spec fn hms_text(seconds: int) -> Seq<char> {
    two_digits(seconds / 3600) + "h "@ + two_digits((seconds / 60) % 60) + "m "@ + two_digits(
        seconds % 60,
    ) + "s"@
}

fn digit_str(digit: u32) -> (text: &'static str)
    requires
        digit < 10,
    ensures
        text@ == digit_text(digit as int),
{
    match digit {
        0 => "0",
        1 => "1",
        2 => "2",
        3 => "3",
        4 => "4",
        5 => "5",
        6 => "6",
        7 => "7",
        8 => "8",
        _ => "9",
    }
}

fn push_two_digits(text: &mut String, number: u32)
    requires
        number < 100,
    ensures
        final(text)@ == old(text)@ + two_digits(number as int),
{
    text.append(digit_str(number / 10));
    text.append(digit_str(number % 10));
    assert(text@ =~= old(text)@ + two_digits(number as int));
}

/// The length in nanoseconds of a span given as whole seconds and a
/// sub-second part.
pub open spec fn span_nanos(seconds: int, subsec_nanos: int) -> int {
    seconds * 1_000_000_000 + subsec_nanos
}

/// How long a section is watered: at least zero and less than two hours.
/// Zero means that the section is left out of the schedule.
#[derive(Debug, Clone, Copy, PartialEq, Eq, Structural)]
pub struct SectionDuration {
    nanos: u64,
}

impl View for SectionDuration {
    type V = int;

    /// The duration in nanoseconds.
    closed spec fn view(&self) -> int {
        self.nanos as int
    }
}

impl Default for SectionDuration {
    /// The zero duration.
    fn default() -> (d: SectionDuration)
        ensures
            d@ == 0,
    {
        SectionDuration { nanos: 0 }
    }
}

impl SectionDuration {
    #[verifier::type_invariant]
    spec fn in_range(self) -> bool {
        self.nanos < LIMIT_NANOS
    }

    /// Validates a span of `seconds` whole seconds plus `subsec_nanos`
    /// nanoseconds.  Spans below zero and spans of two hours or more are
    /// refused; every other span is kept exactly.
    pub fn new(seconds: i64, subsec_nanos: i32) -> (r: Result<SectionDuration, DurationError>)
        ensures
            match r {
                Ok(d) => d@ == span_nanos(seconds as int, subsec_nanos as int) && 0 <= d@
                    < LIMIT_NANOS,
                Err(DurationError::Negative) => span_nanos(seconds as int, subsec_nanos as int) < 0,
                Err(DurationError::TooLong) => span_nanos(seconds as int, subsec_nanos as int)
                    >= LIMIT_NANOS,
            },
    {
        let total: i128 = (seconds as i128) * 1_000_000_000i128 + (subsec_nanos as i128);
        if total < 0 {
            Err(DurationError::Negative)
        } else if total >= 7_200_000_000_000i128 {
            Err(DurationError::TooLong)
        } else {
            Ok(SectionDuration { nanos: total as u64 })
        }
    }

    /// Validates a span of whole minutes, the unit of the request gateway.
    pub fn from_minutes(minutes: i64) -> (r: Result<SectionDuration, DurationError>)
        ensures
            match r {
                Ok(d) => 0 <= minutes < 120 && d@ == minutes * 60_000_000_000,
                Err(DurationError::Negative) => minutes < 0,
                Err(DurationError::TooLong) => minutes >= 120,
            },
    {
        if minutes < 0 {
            Err(DurationError::Negative)
        } else if minutes >= 120 {
            Err(DurationError::TooLong)
        } else {
            SectionDuration::new(minutes * 60, 0)
        }
    }

    /// The span that this duration was made from: whole seconds and the
    /// nanoseconds beyond them.
    pub fn into_inner(self) -> (span: (i64, i32))
        ensures
            span_nanos(span.0 as int, span.1 as int) == self@,
            span.0 == self@ / 1_000_000_000,
            span.1 == self@ % 1_000_000_000,
            0 <= span.0 < 7200,
            0 <= span.1 < 1_000_000_000,
    {
        proof {
            use_type_invariant(&self);
        }
        ((self.nanos / NANOS_PER_SECOND) as i64, (self.nanos % NANOS_PER_SECOND) as i32)
    }

    /// Whether the duration is exactly zero.
    pub fn is_zero(&self) -> (zero: bool)
        ensures
            zero == (self@ == 0),
            0 <= self@ < LIMIT_NANOS,
    {
        proof {
            use_type_invariant(self);
        }
        self.nanos == 0
    }

    /// The whole seconds of the duration.
    pub fn num_seconds(&self) -> (seconds: u32)
        ensures
            seconds == self@ / 1_000_000_000,
            seconds < 7200,
    {
        proof {
            use_type_invariant(self);
        }
        (self.nanos / NANOS_PER_SECOND) as u32
    }

    /// The duration in words: hours, minutes and seconds, two digits each.
    /// Parts of a second are left out.
    pub fn to_string(&self) -> (text: String)
        ensures
            text@ == hms_text(self@ / 1_000_000_000),
    {
        let seconds = self.num_seconds();
        let mut text = String::new();
        push_two_digits(&mut text, seconds / 3600);
        text.append("h ");
        push_two_digits(&mut text, (seconds / 60) % 60);
        text.append("m ");
        push_two_digits(&mut text, seconds % 60);
        text.append("s");
        assert(text@ =~= hms_text(seconds as int));
        text
    }

    /// A span of whole seconds and a sub-second part below one second comes
    /// back from its length in nanoseconds exactly: nothing is rounded when a
    /// duration is made from a span and the span is taken out again.
    pub proof fn lemma_span_round_trip(seconds: int, subsec_nanos: int)
        requires
            0 <= subsec_nanos < 1_000_000_000,
        ensures
            span_nanos(seconds, subsec_nanos) / 1_000_000_000 == seconds,
            span_nanos(seconds, subsec_nanos) % 1_000_000_000 == subsec_nanos,
            span_nanos(seconds, subsec_nanos) < 0 <==> seconds < 0,
            span_nanos(seconds, subsec_nanos) >= LIMIT_NANOS <==> seconds >= 7200,
    {
        assert(span_nanos(seconds, subsec_nanos) / 1_000_000_000 == seconds
            && span_nanos(seconds, subsec_nanos) % 1_000_000_000 == subsec_nanos)
            by (nonlinear_arith)
            requires
                0 <= subsec_nanos < 1_000_000_000,
                span_nanos(seconds, subsec_nanos) == seconds * 1_000_000_000 + subsec_nanos,
        ;
    }

    /// No duration is below zero.
    pub proof fn lemma_not_negative(self)
        ensures
            0 <= self@,
    {
    }

    /// Two durations are equal exactly when their lengths are.
    pub proof fn lemma_equal_by_length(self, other: SectionDuration)
        ensures
            (self == other) == (self@ == other@),
    {
    }
}

/// A request to the valves.
#[derive(Debug, Clone, Copy, PartialEq, Eq, Structural)]
pub enum SectionsServiceMessage {
    Enable(Section),
    Disable(Section),
}

/// The valves: for each zone, whether its output is driven and the valve open.
#[derive(Debug, Clone, Copy, PartialEq, Eq, Structural)]
pub struct Sections {
    pub vegs: bool,
    pub flowers: bool,
    pub grass: bool,
    pub terrace: bool,
}

impl Sections {
    /// Whether the valve of `section` is open.  The marker has no valve.
    pub open spec fn is_open(self, section: Section) -> bool {
        match section {
            Section::Vegs => self.vegs,
            Section::Flowers => self.flowers,
            Section::Grass => self.grass,
            Section::Terrace => self.terrace,
            Section::Off => false,
        }
    }

    /// The valves with the valve of `section` set to `open`.  Setting the
    /// marker changes nothing.
    pub open spec fn with(self, section: Section, open: bool) -> Sections {
        match section {
            Section::Vegs => Sections { vegs: open, ..self },
            Section::Flowers => Sections { flowers: open, ..self },
            Section::Grass => Sections { grass: open, ..self },
            Section::Terrace => Sections { terrace: open, ..self },
            Section::Off => self,
        }
    }

    /// The valves after a request was carried out.
    pub open spec fn after(self, msg: SectionsServiceMessage) -> Sections {
        match msg {
            SectionsServiceMessage::Enable(section) => self.with(section, true),
            SectionsServiceMessage::Disable(section) => self.with(section, false),
        }
    }

    /// How many valves are open.
    pub open spec fn open_count(self) -> nat {
        let vegs: nat = if self.vegs { 1 } else { 0 };
        let flowers: nat = if self.flowers { 1 } else { 0 };
        let grass: nat = if self.grass { 1 } else { 0 };
        let terrace: nat = if self.terrace { 1 } else { 0 };
        vegs + flowers + grass + terrace
    }

    /// Whether no two valves are open at once.
    pub open spec fn at_most_one_open(self) -> bool {
        self.open_count() <= 1
    }

    /// Whether every valve is closed.
    pub open spec fn all_closed(self) -> bool {
        self.open_count() == 0
    }

    /// Whether no valve is open, or only that of `section`.
    pub open spec fn none_open_but(self, section: Section) -> bool {
        &&& self.vegs ==> section == Section::Vegs
        &&& self.flowers ==> section == Section::Flowers
        &&& self.grass ==> section == Section::Grass
        &&& self.terrace ==> section == Section::Terrace
    }

    /// Whether every valve that is open here is open in `other` too.
    pub open spec fn within(self, other: Sections) -> bool {
        &&& self.vegs ==> other.vegs
        &&& self.flowers ==> other.flowers
        &&& self.grass ==> other.grass
        &&& self.terrace ==> other.terrace
    }

    /// All valves closed, as they are after start-up.
    pub fn new() -> (valves: Sections)
        ensures
            valves.all_closed(),
            valves == (Sections { vegs: false, flowers: false, grass: false, terrace: false }),
    {
        Sections { vegs: false, flowers: false, grass: false, terrace: false }
    }

    /// Whether the valve of `section` is open.
    pub fn is_enabled(&self, section: Section) -> (open: bool)
        ensures
            open == self.is_open(section),
    {
        match section {
            Section::Vegs => self.vegs,
            Section::Flowers => self.flowers,
            Section::Grass => self.grass,
            Section::Terrace => self.terrace,
            Section::Off => false,
        }
    }

    /// Carries out one request.  Returns the zone whose output has to be
    /// driven and its new level, or nothing where the request names the
    /// marker.  Requests are idempotent.
    pub fn handle_msg(&mut self, msg: SectionsServiceMessage) -> (output: Option<(Section, bool)>)
        ensures
            *final(self) == old(self).after(msg),
            output == match msg {
                SectionsServiceMessage::Enable(Section::Off) => None,
                SectionsServiceMessage::Disable(Section::Off) => None,
                SectionsServiceMessage::Enable(section) => Some((section, true)),
                SectionsServiceMessage::Disable(section) => Some((section, false)),
            },
    {
        let (section, level) = match msg {
            SectionsServiceMessage::Enable(section) => (section, true),
            SectionsServiceMessage::Disable(section) => (section, false),
        };
        match section {
            Section::Vegs => {
                self.vegs = level;
            },
            Section::Flowers => {
                self.flowers = level;
            },
            Section::Grass => {
                self.grass = level;
            },
            Section::Terrace => {
                self.terrace = level;
            },
            Section::Off => {
                return None;
            },
        }
        Some((section, level))
    }
}

} // verus!
