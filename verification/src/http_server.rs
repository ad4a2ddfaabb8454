//! The rules of the request gateway: how large a request body may be, which
//! command of the scheduler a request stands for, and which status answers it.

use crate::clock::TimeOfDay;
use crate::sections::{DurationError, Section, SectionDuration};
use crate::watering::WateringServiceMessage;
use vstd::prelude::*;

verus! {

/// The largest request body that is read, in bytes.
pub const MAX_LEN: usize = 128;

/// The status of an answer to a request that was carried out.
pub const STATUS_OK: u16 = 200;

/// The status of an answer to a request that was refused.
pub const STATUS_BAD_REQUEST: u16 = 400;

/// The status of an answer where a service did not report in time.
pub const STATUS_SERVER_ERROR: u16 = 500;

/// A request to change something, with its body already read.  Durations come
/// in whole minutes; a section has to be one of the four zones.
#[derive(Debug, Clone, Copy, PartialEq, Eq, Structural)]
pub enum Request {
    StartWateringAt(TimeOfDay),
    DisableWatering,
    SetSectionDuration(Section, i64),
    CloseAllValves,
    EnableSectionFor(Section, i64),
}

/// Why a request is refused.
#[derive(Debug, Clone, Copy, PartialEq, Eq, Structural)]
pub enum RequestError {
    /// The body is longer than `MAX_LEN`.
    TooBig,
    /// The request names no zone: only the four zones can be set or watered.
    NoSection,
    /// The duration is no watering duration.
    Duration(DurationError),
}

/// The duration of `minutes` whole minutes, where that is a watering duration.
pub open spec fn minutes_checked(minutes: i64) -> Result<int, RequestError> {
    if minutes < 0 {
        Err(RequestError::Duration(DurationError::Negative))
    } else if minutes >= 120 {
        Err(RequestError::Duration(DurationError::TooLong))
    } else {
        Ok(minutes * 60_000_000_000)
    }
}

/// What a request that carries a section and a duration in whole minutes is
/// checked for: the section has to be one of the four zones, and then the
/// duration a watering duration.  Where both hold, the length of the
/// duration in nanoseconds.
pub open spec fn section_and_minutes_checked(section: Section, minutes: i64) -> Result<
    int,
    RequestError,
> {
    if section == Section::Off {
        Err(RequestError::NoSection)
    } else {
        minutes_checked(minutes)
    }
}

impl RequestError {
    /// The reason in words, for the answer.
    pub fn message(&self) -> (text: &'static str)
        ensures
            text@ == match *self {
                RequestError::TooBig => "Request too big"@,
                RequestError::NoSection => "no such section"@,
                RequestError::Duration(DurationError::Negative) => "delta is negative"@,
                RequestError::Duration(DurationError::TooLong) =>
                    "cannot water section for more than 2 hours"@,
            },
    {
        match self {
            RequestError::TooBig => "Request too big",
            RequestError::NoSection => "no such section",
            RequestError::Duration(e) => e.message(),
        }
    }
}

/// How many bytes of body to read for a request that announces
/// `content_len` bytes: none where it announces nothing.  Bodies above
/// `MAX_LEN` are refused unread.
pub fn body_len(content_len: Option<u64>) -> (r: Result<usize, RequestError>)
    ensures
        match r {
            Ok(len) => len <= MAX_LEN && len == content_len.unwrap_or(0),
            Err(e) => e == RequestError::TooBig && content_len.unwrap_or(0) > MAX_LEN,
        },
{
    let announced: u64 = match content_len {
        Some(len) => len,
        None => 0,
    };
    if announced > 128 {
        Err(RequestError::TooBig)
    } else {
        Ok(announced as usize)
    }
}

fn checked_duration(section: Section, minutes: i64) -> (r: Result<SectionDuration, RequestError>)
    ensures
        match r {
            Ok(duration) => section_and_minutes_checked(section, minutes) == Ok::<
                int,
                RequestError,
            >(duration@),
            Err(e) => section_and_minutes_checked(section, minutes) == Err::<int, RequestError>(e),
        },
{
    match section {
        Section::Off => Err(RequestError::NoSection),
        _ => match SectionDuration::from_minutes(minutes) {
            Ok(duration) => Ok(duration),
            Err(e) => Err(RequestError::Duration(e)),
        },
    }
}

/// The command of the scheduler that a request stands for.  A request that
/// names the marker in place of a zone, or a duration that is no watering
/// duration, is refused and stands for nothing; the section is looked at
/// first.
pub fn command(request: Request) -> (r: Result<WateringServiceMessage, RequestError>)
    ensures
        match request {
            Request::StartWateringAt(when) => r == Ok::<WateringServiceMessage, RequestError>(
                WateringServiceMessage::StartWateringAt(when),
            ),
            Request::DisableWatering => r == Ok::<WateringServiceMessage, RequestError>(
                WateringServiceMessage::DisableWatering,
            ),
            Request::CloseAllValves => r == Ok::<WateringServiceMessage, RequestError>(
                WateringServiceMessage::CloseAllValves,
            ),
            Request::SetSectionDuration(section, minutes) => match r {
                Ok(WateringServiceMessage::SetSectionDuration(s, d)) => section != Section::Off
                    && s == section && section_and_minutes_checked(section, minutes) == Ok::<
                    int,
                    RequestError,
                >(d@),
                Ok(_) => false,
                Err(e) => section_and_minutes_checked(section, minutes) == Err::<
                    int,
                    RequestError,
                >(e),
            },
            Request::EnableSectionFor(section, minutes) => match r {
                Ok(WateringServiceMessage::EnableSectionFor(s, d)) => section != Section::Off
                    && s == section && section_and_minutes_checked(section, minutes) == Ok::<
                    int,
                    RequestError,
                >(d@),
                Ok(_) => false,
                Err(e) => section_and_minutes_checked(section, minutes) == Err::<
                    int,
                    RequestError,
                >(e),
            },
        },
{
    match request {
        Request::StartWateringAt(when) => Ok(WateringServiceMessage::StartWateringAt(when)),
        Request::DisableWatering => Ok(WateringServiceMessage::DisableWatering),
        Request::CloseAllValves => Ok(WateringServiceMessage::CloseAllValves),
        Request::SetSectionDuration(section, minutes) => {
            match checked_duration(section, minutes) {
                Ok(duration) => Ok(WateringServiceMessage::SetSectionDuration(section, duration)),
                Err(e) => Err(e),
            }
        },
        Request::EnableSectionFor(section, minutes) => {
            match checked_duration(section, minutes) {
                Ok(duration) => Ok(WateringServiceMessage::EnableSectionFor(section, duration)),
                Err(e) => Err(e),
            }
        },
    }
}

/// The status that answers a request: refused requests are the sender's fault.
pub fn status<T>(outcome: &Result<T, RequestError>) -> (code: u16)
    ensures
        code == if outcome is Ok {
            STATUS_OK
        } else {
            STATUS_BAD_REQUEST
        },
{
    match outcome {
        Ok(_) => STATUS_OK,
        Err(_) => STATUS_BAD_REQUEST,
    }
}

} // verus!
