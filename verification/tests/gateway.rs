use water_my_garden_rs::clock::TimeOfDay;
use water_my_garden_rs::http_server::{
    body_len, command, status, Request, RequestError, MAX_LEN, STATUS_BAD_REQUEST, STATUS_OK,
    STATUS_SERVER_ERROR,
};
use water_my_garden_rs::sections::{DurationError, Section, SectionDuration};
use water_my_garden_rs::watering::WateringServiceMessage;

#[test]
fn body_up_to_the_limit_is_read() {
    assert_eq!(MAX_LEN, 128);
    assert_eq!(body_len(None), Ok(0));
    assert_eq!(body_len(Some(0)), Ok(0));
    assert_eq!(body_len(Some(42)), Ok(42));
    assert_eq!(body_len(Some(128)), Ok(128));
}

#[test]
fn body_above_the_limit_is_refused() {
    assert_eq!(body_len(Some(129)), Err(RequestError::TooBig));
    assert_eq!(body_len(Some(u64::MAX)), Err(RequestError::TooBig));
}

#[test]
fn requests_stand_for_commands() {
    let when = TimeOfDay::from_hms(20, 30, 0).unwrap();
    assert_eq!(
        command(Request::StartWateringAt(when)),
        Ok(WateringServiceMessage::StartWateringAt(when))
    );
    assert_eq!(command(Request::DisableWatering), Ok(WateringServiceMessage::DisableWatering));
    assert_eq!(command(Request::CloseAllValves), Ok(WateringServiceMessage::CloseAllValves));
    assert_eq!(
        command(Request::SetSectionDuration(Section::Grass, 90)),
        Ok(WateringServiceMessage::SetSectionDuration(
            Section::Grass,
            SectionDuration::new(5400, 0).unwrap()
        ))
    );
    assert_eq!(
        command(Request::EnableSectionFor(Section::Vegs, 0)),
        Ok(WateringServiceMessage::EnableSectionFor(Section::Vegs, SectionDuration::default()))
    );
}

#[test]
fn requests_with_bad_durations_are_refused() {
    assert_eq!(
        command(Request::SetSectionDuration(Section::Grass, -1)),
        Err(RequestError::Duration(DurationError::Negative))
    );
    assert_eq!(
        command(Request::SetSectionDuration(Section::Grass, 120)),
        Err(RequestError::Duration(DurationError::TooLong))
    );
    assert_eq!(
        command(Request::EnableSectionFor(Section::Terrace, i64::MIN)),
        Err(RequestError::Duration(DurationError::Negative))
    );
    assert_eq!(
        command(Request::EnableSectionFor(Section::Terrace, i64::MAX)),
        Err(RequestError::Duration(DurationError::TooLong))
    );
}

#[test]
fn answers_by_outcome() {
    assert_eq!(status(&command(Request::CloseAllValves)), 200);
    assert_eq!(status(&command(Request::SetSectionDuration(Section::Vegs, 500))), 400);
    assert_eq!(status(&body_len(Some(1000))), 400);
    assert_eq!((STATUS_OK, STATUS_BAD_REQUEST, STATUS_SERVER_ERROR), (200, 400, 500));
}

#[test]
fn request_refusals_in_words() {
    assert_eq!(RequestError::TooBig.message(), "Request too big");
    assert_eq!(RequestError::Duration(DurationError::Negative).message(), "delta is negative");
    assert_eq!(
        RequestError::Duration(DurationError::TooLong).message(),
        "cannot water section for more than 2 hours"
    );
}

#[test]
fn requests_for_the_marker_are_refused() {
    for minutes in [i64::MIN, -1, 0, 5, 119, 120, i64::MAX] {
        assert_eq!(
            command(Request::SetSectionDuration(Section::Off, minutes)),
            Err(RequestError::NoSection)
        );
        assert_eq!(
            command(Request::EnableSectionFor(Section::Off, minutes)),
            Err(RequestError::NoSection)
        );
    }
    assert_eq!(status(&command(Request::EnableSectionFor(Section::Off, 5))), 400);
    assert_eq!(RequestError::NoSection.message(), "no such section");
}

#[test]
fn requests_for_each_zone_are_accepted() {
    for zone in [Section::Vegs, Section::Flowers, Section::Grass, Section::Terrace] {
        let five = SectionDuration::from_minutes(5).unwrap();
        assert_eq!(
            command(Request::SetSectionDuration(zone, 5)),
            Ok(WateringServiceMessage::SetSectionDuration(zone, five))
        );
        assert_eq!(
            command(Request::EnableSectionFor(zone, 5)),
            Ok(WateringServiceMessage::EnableSectionFor(zone, five))
        );
        assert_eq!(status(&command(Request::EnableSectionFor(zone, 5))), 200);
    }
}
