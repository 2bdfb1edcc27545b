use audio_output_switcher::audio::AudioDevice;
use audio_output_switcher::config::Config;
use audio_output_switcher::hotkey::HotkeyError;
use audio_output_switcher::setup::{
    default_hotkey, device_choice, hotkey_choice, position_of, Question, SetupError, SetupFlow,
    SetupStage, SetupStep, MIN_DEVICES,
};
use audio_output_switcher::text::parse_number;

fn devices(n: usize) -> Vec<AudioDevice> {
    (0..n)
        .map(|i| AudioDevice { id: format!("id-{}", i), name: format!("Device {}", i) })
        .collect()
}

fn flow(step: SetupStep) -> SetupFlow {
    match step {
        SetupStep::Ask { flow } => flow,
        other => panic!("no question is open: {:?}", other),
    }
}

#[test]
fn numbers_are_read_as_the_standard_library_reads_them() {
    let inputs = [
        "", "0", "1", "2", "10", "007", "+", "+1", "+0", "++1", "-1", "-0", "1 ", " 1", "1.0",
        "1e3", "0x10", "12a", "a12", "١٢", "１２", "4294967295", "4294967296",
        "18446744073709551615", "18446744073709551616", "99999999999999999999999999",
        "+18446744073709551615", "000000000000000000000000000001", "1_000", "٣", "²",
    ];
    for input in inputs {
        assert_eq!(parse_number(input), input.parse::<usize>().ok(), "for {:?}", input);
    }
    for n in 0..2000usize {
        assert_eq!(parse_number(&n.to_string()), Some(n));
    }
    assert_eq!(parse_number(&usize::MAX.to_string()), Some(usize::MAX));
    assert_eq!(parse_number("123"), Some(123));
    assert_eq!(parse_number("+45"), Some(45));
    assert_eq!(parse_number("4 5"), None);
}

#[test]
fn a_device_is_chosen_by_its_number_counted_from_one() {
    assert_eq!(device_choice("1", 3), Ok(0));
    assert_eq!(device_choice("3", 3), Ok(2));
    assert_eq!(device_choice(" 2 \n", 3), Ok(1));
    assert_eq!(device_choice("+2", 3), Ok(1));
    assert_eq!(device_choice("0", 3), Err(SetupError::OutOfRange { number: 0 }));
    assert_eq!(device_choice("4", 3), Err(SetupError::OutOfRange { number: 4 }));
    assert_eq!(device_choice("1", 0), Err(SetupError::OutOfRange { number: 1 }));
    assert_eq!(device_choice("", 3), Err(SetupError::NotANumber));
    assert_eq!(device_choice("two", 3), Err(SetupError::NotANumber));
    assert_eq!(device_choice("-1", 3), Err(SetupError::NotANumber));
    assert_eq!(device_choice("18446744073709551616", 3), Err(SetupError::NotANumber));
    assert_eq!(position_of(Some(1), 1), Ok(0));
    assert_eq!(position_of(Some(usize::MAX), usize::MAX), Ok(usize::MAX - 1));
    assert_eq!(position_of(Some(0), 5), Err(SetupError::OutOfRange { number: 0 }));
    assert_eq!(position_of(Some(6), 5), Err(SetupError::OutOfRange { number: 6 }));
    assert_eq!(position_of(None, 5), Err(SetupError::NotANumber));
}

#[test]
fn an_empty_answer_stands_for_the_default_shortcut() {
    assert_eq!(default_hotkey(), "Ctrl+Alt+S");
    assert_eq!(hotkey_choice(""), Ok("Ctrl+Alt+S".to_string()));
    assert_eq!(hotkey_choice("  \r\n"), Ok("Ctrl+Alt+S".to_string()));
}

#[test]
fn a_shortcut_is_kept_as_it_was_written_without_the_space_around_it() {
    assert_eq!(hotkey_choice(" ctrl + shift+f1 \n"), Ok("ctrl + shift+f1".to_string()));
    assert_eq!(hotkey_choice("Win+`"), Ok("Win+`".to_string()));
}

#[test]
fn a_text_that_is_no_shortcut_is_refused_with_the_reason() {
    assert_eq!(hotkey_choice("Ctrl+Alt\n"), Err(HotkeyError::NoKey));
    assert_eq!(
        hotkey_choice("Ctrl+Zz"),
        Err(HotkeyError::UnknownKey { token: "Zz".to_string() })
    );
    assert_eq!(
        hotkey_choice("A+B"),
        Err(HotkeyError::MultipleKeys { first: "A".to_string(), second: "B".to_string() })
    );
}

#[test]
fn fewer_than_two_devices_end_the_setup() {
    assert_eq!(MIN_DEVICES, 2);
    assert_eq!(
        SetupFlow::begin(devices(0)),
        SetupStep::Cancelled { error: SetupError::TooFewDevices { found: 0 } }
    );
    assert_eq!(
        SetupFlow::begin(devices(1)),
        SetupStep::Cancelled { error: SetupError::TooFewDevices { found: 1 } }
    );
}

#[test]
fn the_setup_asks_for_speakers_headphones_and_shortcut() {
    let first = flow(SetupFlow::begin(devices(3)));
    assert_eq!(first.stage, SetupStage::AskingSpeakers);
    assert_eq!(first.question(), Question::Speakers);
    assert_eq!(first.devices, devices(3));
    let second = flow(first.answer(Some("3\n")));
    assert_eq!(second.stage, SetupStage::AskingHeadphones { speakers: 2 });
    assert_eq!(second.question(), Question::Headphones);
    let third = flow(second.answer(Some("1\n")));
    assert_eq!(third.stage, SetupStage::AskingHotkey { speakers: 2, headphones: 0 });
    assert_eq!(third.question(), Question::Hotkey);
    assert_eq!(third.devices, devices(3));
    assert_eq!(
        third.answer(Some("Ctrl+Shift+F2\n")),
        SetupStep::Finished {
            config: Config {
                speakers: "id-2".to_string(),
                headphones: "id-0".to_string(),
                hotkey: "Ctrl+Shift+F2".to_string(),
            }
        }
    );
}

#[test]
fn an_empty_answer_to_the_last_question_takes_the_default_shortcut() {
    let start = flow(SetupFlow::begin(devices(2)));
    let last = flow(flow(start.answer(Some("1"))).answer(Some("2")));
    assert_eq!(
        last.answer(Some("\n")),
        SetupStep::Finished {
            config: Config {
                speakers: "id-0".to_string(),
                headphones: "id-1".to_string(),
                hotkey: "Ctrl+Alt+S".to_string(),
            }
        }
    );
}

#[test]
fn an_answer_that_is_no_number_of_a_device_ends_the_setup() {
    let refused = [
        ("0", SetupError::OutOfRange { number: 0 }),
        ("3", SetupError::OutOfRange { number: 3 }),
        ("x", SetupError::NotANumber),
        ("", SetupError::NotANumber),
        ("1.5", SetupError::NotANumber),
    ];
    for (answer, error) in refused {
        let start = flow(SetupFlow::begin(devices(2)));
        assert_eq!(start.answer(Some(answer)), SetupStep::Cancelled { error });
        let start = flow(SetupFlow::begin(devices(2)));
        assert_eq!(
            flow(start.answer(Some("1"))).answer(Some(answer)),
            SetupStep::Cancelled { error }
        );
    }
}

#[test]
fn the_same_device_twice_ends_the_setup() {
    let start = flow(SetupFlow::begin(devices(2)));
    assert_eq!(
        flow(start.answer(Some("2"))).answer(Some("2")),
        SetupStep::Cancelled { error: SetupError::SameDevice }
    );
}

#[test]
fn two_devices_with_one_id_are_the_same_device() {
    let mut list = devices(3);
    list[2].id = "id-0".to_string();
    let start = flow(SetupFlow::begin(list));
    assert_eq!(
        flow(start.answer(Some("1"))).answer(Some("3")),
        SetupStep::Cancelled { error: SetupError::SameDevice }
    );
}

#[test]
fn a_shortcut_that_cannot_be_parsed_is_asked_for_again() {
    let start = flow(SetupFlow::begin(devices(2)));
    let last = flow(flow(start.answer(Some("1"))).answer(Some("2")));
    let again = match last.answer(Some("Ctrl+Alt")) {
        SetupStep::AskAgain { refused, flow } => {
            assert_eq!(refused, HotkeyError::NoKey);
            assert_eq!(flow.stage, SetupStage::AskingHotkey { speakers: 0, headphones: 1 });
            assert_eq!(flow.devices, devices(2));
            flow
        }
        other => panic!("expected the question again: {:?}", other),
    };
    let again = match again.answer(Some("Ctrl+Foo")) {
        SetupStep::AskAgain { refused, flow } => {
            assert_eq!(refused, HotkeyError::UnknownKey { token: "Foo".to_string() });
            flow
        }
        other => panic!("expected the question again: {:?}", other),
    };
    assert_eq!(
        again.answer(Some("Alt+X")),
        SetupStep::Finished {
            config: Config {
                speakers: "id-0".to_string(),
                headphones: "id-1".to_string(),
                hotkey: "Alt+X".to_string(),
            }
        }
    );
}

#[test]
fn an_answer_that_cannot_be_read_ends_the_setup() {
    let start = flow(SetupFlow::begin(devices(2)));
    assert_eq!(start.answer(None), SetupStep::Cancelled { error: SetupError::InputClosed });
    let start = flow(SetupFlow::begin(devices(2)));
    let last = flow(flow(start.answer(Some("1"))).answer(Some("2")));
    assert_eq!(last.answer(None), SetupStep::Cancelled { error: SetupError::InputClosed });
}

#[test]
fn a_setup_with_positions_outside_the_list_is_ended() {
    let stale = SetupFlow { devices: devices(2), stage: SetupStage::AskingHeadphones { speakers: 5 } };
    assert_eq!(stale.answer(Some("1")), SetupStep::Cancelled { error: SetupError::StaleChoice });
    let stale = SetupFlow {
        devices: devices(2),
        stage: SetupStage::AskingHotkey { speakers: 0, headphones: 2 },
    };
    assert_eq!(
        stale.answer(Some("Ctrl+S")),
        SetupStep::Cancelled { error: SetupError::StaleChoice }
    );
    let same = SetupFlow {
        devices: devices(2),
        stage: SetupStage::AskingHotkey { speakers: 1, headphones: 1 },
    };
    assert_eq!(same.answer(Some("Ctrl+S")), SetupStep::Cancelled { error: SetupError::SameDevice });
}

#[test]
fn each_question_has_its_wording() {
    assert_eq!(Question::Speakers.prompt(), "Select Speakers (number): ");
    assert_eq!(Question::Headphones.prompt(), "Select Headphones (number): ");
    assert_eq!(Question::Hotkey.prompt(), "Enter hotkey (default: Ctrl+Alt+S): ");
}
