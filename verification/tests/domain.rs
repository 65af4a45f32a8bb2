use acid::domain::{
    Author, Description, Knob, Name, Note, Octave, StepNumber, Tempo, Time, Title, Transpose,
    Waveform, BPM,
};

#[test]
fn bpm_a_value_less_than_0_is_rejected() {
    let bpm: i32 = -1;
    assert!(BPM::parse(bpm).is_err());
}

#[test]
fn bpm_a_value_greater_than_999_is_rejected() {
    let bpm: i32 = 1000;
    assert!(BPM::parse(bpm).is_err());
}

#[test]
fn bpm_a_value_in_a_range_between_0_and_999_is_valid() {
    let bpm: i32 = 128;
    assert!(BPM::parse(bpm).is_ok());
}

#[test]
fn bpm_rejection_names_the_value() {
    assert_eq!(BPM::parse(1000).unwrap_err(), "1000 is not a valid BPM value. ");
    assert_eq!(BPM::parse(-1).unwrap_err(), "-1 is not a valid BPM value. ");
}

#[test]
fn bpm_bounds_are_included() {
    assert_eq!(*BPM::parse(0).unwrap().as_ref(), 0);
    assert_eq!(*BPM::parse(999).unwrap().as_ref(), 999);
}

#[test]
fn a_500_grapheme_long_description_is_valid() {
    let description = "a".repeat(500);
    assert!(Description::parse(description).is_ok());
}

#[test]
fn a_description_longer_than_500_graphemes_is_rejected() {
    let description = "a".repeat(501);
    assert!(Description::parse(description).is_err());
}

#[test]
fn a_valid_description_is_parsed_successfully() {
    let note = "This is a pattern description".to_string();
    assert!(Description::parse(note).is_ok());
}

#[test]
fn a_blank_description_is_rejected_with_its_text() {
    assert_eq!(
        Description::parse("  \t".to_string()).unwrap_err(),
        "  \t is not a valid pattern description."
    );
    assert!(Description::parse(String::new()).is_err());
}

#[test]
fn description_decides_on_count_and_blankness() {
    assert!(Description::accepts(500, false));
    assert!(!Description::accepts(501, false));
    assert!(!Description::accepts(3, true));
}

#[test]
fn an_empty_name_is_rejected() {
    let name = "".to_string();
    assert!(Name::parse(name).is_err());
}

#[test]
fn a_name_with_only_whitespace_is_rejected() {
    let name = " ".to_string();
    assert!(Name::parse(name).is_err());
}

#[test]
fn a_50_grapheme_long_name_is_valid() {
    let name = "a".repeat(50);
    assert!(Name::parse(name).is_ok());
}

#[test]
fn a_name_longer_than_50_graphemes_is_rejected() {
    let name = "a".repeat(51);
    assert!(Name::parse(name).is_err());
}

#[test]
fn a_valid_name_is_parsed_successfully() {
    let name = "myself".to_string();
    assert!(Name::parse(name).is_ok());
}

#[test]
fn a_name_is_measured_in_grapheme_clusters_not_characters() {
    // Fifty clusters of two characters each: a letter and a combining accent.
    let name = "e\u{301}".repeat(50);
    assert_eq!(name.chars().count(), 100);
    let parsed = Name::parse(name.clone()).unwrap();
    assert_eq!(parsed.as_ref(), name);
    assert!(Name::parse("e\u{301}".repeat(51)).is_err());
}

#[test]
fn a_name_of_unicode_white_space_is_rejected() {
    // No-break space, em space and ideographic space.
    assert!(Name::parse("\u{a0}\u{2003}\u{3000}".to_string()).is_err());
    assert!(Name::parse(" a ".to_string()).is_ok());
}

#[test]
fn name_rejection_quotes_the_text() {
    assert_eq!(Name::parse(" ".to_string()).unwrap_err(), "  is not a valid name.");
}

#[test]
fn name_decides_on_count_and_blankness() {
    assert!(Name::accepts(50, false));
    assert!(Name::accepts(0, false));
    assert!(!Name::accepts(51, false));
    assert!(!Name::accepts(1, true));
}

#[test]
fn author_and_title_admit_any_text() {
    assert_eq!(Author::parse("Humanoind".to_string()).unwrap().as_ref(), "Humanoind");
    assert_eq!(Author::parse(String::new()).unwrap().as_ref(), "");
    assert_eq!(Title::parse("Stakker humanoid".to_string()).unwrap().as_ref(), "Stakker humanoid");
    assert_eq!(Title::parse("  ".to_string()).unwrap().as_ref(), "  ");
}

#[test]
fn note_serialization() {
    let notes = vec![
        Note::C,
        Note::CSharp,
        Note::D,
        Note::DSharp,
        Note::E,
        Note::F,
        Note::FSharp,
        Note::G,
        Note::GSharp,
        Note::A,
        Note::ASharp,
        Note::B,
        Note::Chigh,
    ];

    for note in notes {
        let json = serde_json::to_string(note.as_ref()).unwrap();
        let text: String = serde_json::from_str(&json).unwrap();
        let deserialized = Note::parse(&text).unwrap();
        assert_eq!(note, deserialized);
    }
}

#[test]
fn note_labels_are_the_thirteen_pitch_names() {
    assert_eq!(Note::C.as_ref(), "C");
    assert_eq!(Note::CSharp.as_ref(), "C#");
    assert_eq!(Note::D.as_ref(), "D");
    assert_eq!(Note::DSharp.as_ref(), "D#");
    assert_eq!(Note::E.as_ref(), "E");
    assert_eq!(Note::F.as_ref(), "F");
    assert_eq!(Note::FSharp.as_ref(), "F#");
    assert_eq!(Note::G.as_ref(), "G");
    assert_eq!(Note::GSharp.as_ref(), "G#");
    assert_eq!(Note::A.as_ref(), "A");
    assert_eq!(Note::ASharp.as_ref(), "A#");
    assert_eq!(Note::B.as_ref(), "B");
    assert_eq!(Note::Chigh.as_ref(), "Chigh");
}

#[test]
fn an_unknown_note_is_rejected() {
    assert_eq!(Note::parse("H").unwrap_err(), "H is not a valid note.");
    assert!(Note::parse("c").is_err());
    assert!(Note::parse("").is_err());
    assert!(Note::parse("C##").is_err());
}

#[test]
fn invalid_octave_is_rejected() {
    let octave = "invalid_octave".to_string();
    assert!(Octave::parse(octave).is_err());
}

#[test]
fn valid_octaves_are_accepted() {
    for stem in vec!["up", "down"] {
        assert!(Octave::parse(stem.to_string()).is_ok());
    }
}

#[test]
fn octave_rejection_lists_the_choices() {
    assert_eq!(
        Octave::parse("sideways".to_string()).unwrap_err(),
        "sideways is not a valid octave. Can only be one of 'up', 'down'"
    );
    assert_eq!(Octave::parse("down".to_string()).unwrap().as_ref(), "down");
}

#[test]
fn a_value_less_than_1_is_rejected() {
    let number: i32 = -1;
    assert!(StepNumber::parse(number).is_err());
}

#[test]
fn a_value_greater_than_16_is_rejected() {
    let number: i32 = 17;
    assert!(StepNumber::parse(number).is_err());
}

#[test]
fn a_value_in_a_range_between_1_and_16_is_valid() {
    let number: i32 = 8;
    assert!(StepNumber::parse(number).is_ok());
}

#[test]
fn step_number_bounds_and_rejection() {
    assert_eq!(*StepNumber::parse(1).unwrap().as_ref(), 1);
    assert_eq!(*StepNumber::parse(16).unwrap().as_ref(), 16);
    assert_eq!(StepNumber::parse(0).unwrap_err(), "0 is not a valid step number value. ");
    assert_eq!(
        StepNumber::parse(i32::MIN).unwrap_err(),
        "-2147483648 is not a valid step number value. "
    );
    assert_eq!(
        StepNumber::parse(i32::MAX).unwrap_err(),
        "2147483647 is not a valid step number value. "
    );
}

#[test]
fn tempo_a_value_less_than_0_is_rejected() {
    let tempo: i32 = -1;
    assert!(Tempo::parse(tempo).is_err());
}

#[test]
fn tempo_a_value_greater_than_999_is_rejected() {
    let tempo: i32 = 1000;
    assert!(Tempo::parse(tempo).is_err());
}

#[test]
fn tempo_a_value_in_a_range_between_0_and_999_is_valid() {
    let tempo: i32 = 128;
    assert!(Tempo::parse(tempo).is_ok());
}

#[test]
fn tempo_rejection_names_the_value() {
    assert_eq!(Tempo::parse(-10).unwrap_err(), "-10 is not a valid Tempo value. ");
    assert_eq!(*Tempo::parse(999).unwrap().as_ref(), 999);
    assert_eq!(*Tempo::parse(0).unwrap().as_ref(), 0);
}

#[test]
fn knob_is_a_percentage() {
    assert_eq!(*Knob::parse(0).unwrap().as_ref(), 0);
    assert_eq!(*Knob::parse(100).unwrap().as_ref(), 100);
    assert_eq!(Knob::parse(101).unwrap_err(), "101 is not a valid knob value. ");
    assert_eq!(Knob::parse(-5).unwrap_err(), "-5 is not a valid knob value. ");
    assert!(Knob::parse(361).is_err());
}

#[test]
fn time_serialization() {
    let times = vec![Time::Note, Time::Tied, Time::Rest];

    for time in times {
        let json = serde_json::to_string(time.as_ref()).unwrap();
        let text: String = serde_json::from_str(&json).unwrap();
        let deserialized = Time::parse(&text).unwrap();
        assert_eq!(time, deserialized);
    }
}

#[test]
fn time_labels_and_rejection() {
    assert_eq!(Time::Note.as_ref(), "note");
    assert_eq!(Time::Tied.as_ref(), "tied");
    assert_eq!(Time::Rest.as_ref(), "rest");
    assert_eq!(
        Time::parse("invalid_time").unwrap_err(),
        "invalid_time is not a valid time. Can only be one of 'note', 'tied', 'rest'"
    );
}

#[test]
fn transpose_serialization() {
    let transposes = vec![Transpose::Up, Transpose::Down];

    for transpose in transposes {
        let json = serde_json::to_string(transpose.as_ref()).unwrap();
        let text: String = serde_json::from_str(&json).unwrap();
        let deserialized = Transpose::parse(&text).unwrap();
        assert_eq!(transpose, deserialized);
    }
}

#[test]
fn transpose_labels_and_rejection() {
    assert_eq!(Transpose::Up.as_ref(), "up");
    assert_eq!(Transpose::Down.as_ref(), "down");
    assert_eq!(
        Transpose::parse("way_up").unwrap_err(),
        "way_up is not a valid transpose. Can only be one of 'up', 'down'"
    );
}

#[test]
fn waveform_serialization() {
    let waveforms = vec![Waveform::Square, Waveform::Sawtooth];

    for waveform in waveforms {
        let json = serde_json::to_string(waveform.as_ref()).unwrap();
        let text: String = serde_json::from_str(&json).unwrap();
        let deserialized = Waveform::parse(&text).unwrap();
        assert_eq!(waveform, deserialized);
    }
}

#[test]
fn waveform_labels_and_rejection() {
    assert_eq!(Waveform::Square.as_ref(), "square");
    assert_eq!(Waveform::Sawtooth.as_ref(), "sawtooth");
    assert_eq!(
        Waveform::parse("invalid_waveform").unwrap_err(),
        "invalid_waveform is not a valid waveform. Can only be one of 'square', 'sawtooth'"
    );
}
