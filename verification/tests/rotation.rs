use water_my_garden_rs::clock::ClockServiceMessage;
use water_my_garden_rs::sections::{Section, SectionDuration, SectionsServiceMessage};
use water_my_garden_rs::watering::{Action, WateringService, WateringServiceMessage};

fn minutes(n: i64) -> SectionDuration {
    SectionDuration::from_minutes(n).unwrap()
}

fn service_with(vegs: i64, flowers: i64, grass: i64, terrace: i64) -> WateringService {
    let mut watering = WateringService::new();
    let durations = [
        (Section::Vegs, vegs),
        (Section::Flowers, flowers),
        (Section::Grass, grass),
        (Section::Terrace, terrace),
    ];
    for (section, length) in durations {
        let actions = watering
            .handle_msg(WateringServiceMessage::SetSectionDuration(section, minutes(length)))
            .unwrap();
        assert!(actions.is_empty());
    }
    watering
}

fn disable(section: Section) -> Action {
    Action::Sections(SectionsServiceMessage::Disable(section))
}

fn enable(section: Section) -> Action {
    Action::Sections(SectionsServiceMessage::Enable(section))
}

fn arm(length: i64) -> Action {
    Action::Clock(ClockServiceMessage::SetSectionAlarmAfter(minutes(length)))
}

fn alarm_off() -> Action {
    Action::Clock(ClockServiceMessage::DisableSectionAlarm)
}

#[test]
fn example_valid_configuration_works() {
    let mut watering = service_with(5, 10, 20, 8);
    assert_eq!(watering.current_section(), Section::Off);

    let actions = watering.handle_msg(WateringServiceMessage::WateringAlarmFired).unwrap();
    assert_eq!(watering.current_section(), Section::Vegs);
    assert_eq!(actions, vec![disable(Section::Off), enable(Section::Vegs), arm(5)]);

    let actions = watering.handle_msg(WateringServiceMessage::SectionAlarmFired).unwrap();
    assert_eq!(watering.current_section(), Section::Flowers);
    assert_eq!(actions, vec![disable(Section::Vegs), enable(Section::Flowers), arm(10)]);

    let actions = watering.handle_msg(WateringServiceMessage::SectionAlarmFired).unwrap();
    assert_eq!(watering.current_section(), Section::Grass);
    assert_eq!(actions, vec![disable(Section::Flowers), enable(Section::Grass), arm(20)]);

    let actions = watering.handle_msg(WateringServiceMessage::SectionAlarmFired).unwrap();
    assert_eq!(watering.current_section(), Section::Terrace);
    assert_eq!(actions, vec![disable(Section::Grass), enable(Section::Terrace), arm(8)]);

    let actions = watering.handle_msg(WateringServiceMessage::SectionAlarmFired).unwrap();
    assert_eq!(watering.current_section(), Section::Off);
    assert_eq!(actions, vec![disable(Section::Terrace), alarm_off()]);
}

#[test]
fn can_skip_a_section() {
    let mut watering = service_with(5, 0, 20, 0);
    assert_eq!(watering.current_section(), Section::Off);

    let actions = watering.handle_msg(WateringServiceMessage::WateringAlarmFired).unwrap();
    assert_eq!(watering.current_section(), Section::Vegs);
    assert_eq!(actions, vec![disable(Section::Off), enable(Section::Vegs), arm(5)]);

    let actions = watering.handle_msg(WateringServiceMessage::SectionAlarmFired).unwrap();
    assert_eq!(watering.current_section(), Section::Grass);
    assert_eq!(
        actions,
        vec![disable(Section::Vegs), disable(Section::Flowers), enable(Section::Grass), arm(20)]
    );

    let actions = watering.handle_msg(WateringServiceMessage::SectionAlarmFired).unwrap();
    assert_eq!(watering.current_section(), Section::Off);
    assert_eq!(actions, vec![disable(Section::Grass), disable(Section::Terrace), alarm_off()]);
}

#[test]
fn can_skip_all_sections() {
    let mut watering = service_with(0, 0, 0, 0);
    assert_eq!(watering.current_section(), Section::Off);

    let actions = watering.handle_msg(WateringServiceMessage::WateringAlarmFired).unwrap();
    assert_eq!(watering.current_section(), Section::Off);
    assert_eq!(
        actions,
        vec![
            disable(Section::Off),
            disable(Section::Vegs),
            disable(Section::Flowers),
            disable(Section::Grass),
            disable(Section::Terrace),
            alarm_off(),
        ]
    );
}

#[test]
fn step_to_the_section_that_follows() {
    for (from, to, length) in [
        (Section::Off, Section::Vegs, 5),
        (Section::Vegs, Section::Flowers, 10),
        (Section::Flowers, Section::Grass, 20),
        (Section::Grass, Section::Terrace, 8),
    ] {
        let mut watering = service_with(5, 10, 20, 8);
        while watering.current_section() != from {
            watering.water_next_section();
        }
        let actions = watering.water_next_section();
        assert_eq!(actions, vec![disable(from), enable(to), arm(length)]);
        assert_eq!(watering.current_section(), to);
    }
}

#[test]
fn step_passes_what_is_left_out() {
    let mut watering = service_with(0, 0, 0, 8);
    let actions = watering.water_next_section();
    assert_eq!(
        actions,
        vec![
            disable(Section::Off),
            disable(Section::Vegs),
            disable(Section::Flowers),
            disable(Section::Grass),
            enable(Section::Terrace),
            arm(8),
        ]
    );
    assert_eq!(watering.current_section(), Section::Terrace);
}

#[test]
fn step_from_the_last_section_ends_the_rotation() {
    let mut watering = service_with(5, 10, 20, 8);
    for _ in 0..4 {
        watering.water_next_section();
    }
    assert_eq!(watering.current_section(), Section::Terrace);
    let actions = watering.water_next_section();
    assert_eq!(actions, vec![disable(Section::Terrace), alarm_off()]);
    assert_eq!(watering.current_section(), Section::Off);
    assert_eq!(watering.override_section(), Section::Off);
}

#[test]
fn step_never_goes_past_the_end() {
    let order = [Section::Vegs, Section::Flowers, Section::Grass, Section::Terrace, Section::Off];
    let place = |section: Section| order.iter().position(|s| *s == section).unwrap();
    for pattern in 0u32..16 {
        let lengths = [0, 1, 2, 3].map(|bit| if pattern & (1 << bit) != 0 { 3 } else { 0 });
        let mut watering = service_with(lengths[0], lengths[1], lengths[2], lengths[3]);
        watering.water_next_section();
        while watering.current_section() != Section::Off {
            let before = watering.current_section();
            let actions = watering.water_next_section();
            assert!(place(watering.current_section()) > place(before));
            let opened: Vec<&Action> = actions
                .iter()
                .filter(|action| matches!(action, Action::Sections(SectionsServiceMessage::Enable(_))))
                .collect();
            assert!(opened.len() <= 1);
            if let Some(action) = opened.first() {
                assert_eq!(**action, enable(watering.current_section()));
                assert_eq!(actions[actions.len() - 2], **action);
            }
        }
    }
}
