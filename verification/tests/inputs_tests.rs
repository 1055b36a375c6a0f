use deckpanel::inputs::{
    decode, process_input, read_button_press, read_button_states, read_encoder_press,
    read_encoder_value, DecodeError, SemanticInputEvent,
};
use deckpanel::registry::Kind;

#[test]
fn all_released_gives_all_false_of_key_count_length() {
    for kind in [Kind::N4, Kind::Akp05] {
        let profile = kind.profile();
        let mut prior = vec![true; 15];
        let event = decode(&profile, 0, 0, &mut prior).unwrap();
        assert_eq!(event, SemanticInputEvent::ButtonState(vec![false; profile.key_count as usize]));
        assert_eq!(prior, vec![false; 15]);
        let mut empty = Vec::new();
        let event = decode(&profile, 0, 1, &mut empty).unwrap();
        assert_eq!(event, SemanticInputEvent::ButtonState(vec![false; 15]));
    }
}

#[test]
fn button_press_sets_one_slot() {
    let profile = Kind::N4.profile();
    let mut prior = Vec::new();
    let event = decode(&profile, 3, 1, &mut prior).unwrap();
    let mut want = vec![false; 15];
    want[2] = true;
    assert_eq!(event, SemanticInputEvent::ButtonState(want.clone()));
    assert_eq!(prior, want);
}

#[test]
fn button_snapshot_keeps_what_was_down() {
    let profile = Kind::N4.profile();
    let mut prior = Vec::new();
    decode(&profile, 1, 1, &mut prior).unwrap();
    let event = decode(&profile, 10, 7, &mut prior).unwrap();
    let mut want = vec![false; 15];
    want[0] = true;
    want[9] = true;
    assert_eq!(event, SemanticInputEvent::ButtonState(want.clone()));
    let event = decode(&profile, 1, 0, &mut prior).unwrap();
    want[0] = false;
    assert_eq!(event, SemanticInputEvent::ButtonState(want));
}

#[test]
fn rotation_codes_give_unit_steps() {
    let profile = Kind::N4.profile();
    let table: [(u8, u8, i8); 8] = [
        (0x90, 0, -1),
        (0x91, 0, 1),
        (0x50, 1, -1),
        (0x51, 1, 1),
        (0x60, 2, -1),
        (0x61, 2, 1),
        (0x70, 3, -1),
        (0x71, 3, 1),
    ];
    for (code, encoder, delta) in table {
        let mut prior = vec![true, false];
        let event = decode(&profile, code, 0, &mut prior).unwrap();
        assert_eq!(event, SemanticInputEvent::EncoderDelta(encoder, delta));
        assert_eq!(prior, vec![true, false]);
        assert_eq!(process_input(code, 9), Ok(SemanticInputEvent::EncoderDelta(encoder, delta)));
        assert_eq!(read_encoder_value(code), Ok(SemanticInputEvent::EncoderDelta(encoder, delta)));
    }
}

#[test]
fn every_code_that_decodes_to_a_step_steps_by_one() {
    let profile = Kind::Akp05.profile();
    let mut steps = 0;
    for code in 0..=255u8 {
        for state in [0u8, 1, 255] {
            let mut prior = Vec::new();
            if let Ok(SemanticInputEvent::EncoderDelta(encoder, delta)) =
                decode(&profile, code, state, &mut prior)
            {
                assert!(delta == 1 || delta == -1);
                assert!(encoder < 4);
                steps += 1;
            }
        }
    }
    assert_eq!(steps, 24);
}

#[test]
fn press_codes() {
    let profile = Kind::N4.profile();
    let table: [(u8, u8); 4] = [(0x33, 0), (0x35, 1), (0x34, 2), (0x36, 3)];
    for (code, encoder) in table {
        let mut prior = Vec::new();
        assert_eq!(
            decode(&profile, code, 1, &mut prior),
            Ok(SemanticInputEvent::EncoderPress(encoder, true))
        );
        assert_eq!(
            decode(&profile, code, 0, &mut prior),
            Ok(SemanticInputEvent::EncoderPress(encoder, false))
        );
        assert_eq!(read_encoder_press(code, 2), Ok(SemanticInputEvent::EncoderPress(encoder, true)));
        assert_eq!(process_input(code, 0), Ok(SemanticInputEvent::EncoderPress(encoder, false)));
    }
}

#[test]
fn unknown_codes_are_recoverable_errors() {
    let profile = Kind::N4.profile();
    for code in [0x0Bu8, 0x20, 0x40, 0x41, 0x42, 0x43, 0x37, 0x52, 0x92, 0xFF] {
        let mut prior = vec![true];
        assert_eq!(decode(&profile, code, 1, &mut prior), Err(DecodeError::UnknownCode));
        assert_eq!(prior, vec![true]);
        assert_eq!(process_input(code, 1), Err(DecodeError::UnknownCode));
    }
    assert_eq!(read_encoder_value(0x33), Err(DecodeError::UnknownCode));
    assert_eq!(read_encoder_press(0x90, 1), Err(DecodeError::UnknownCode));
    assert_eq!(read_button_press(11, 1), Err(DecodeError::UnknownCode));
}

#[test]
fn an_encoder_the_profile_lacks_is_unknown() {
    let mut profile = Kind::N4.profile();
    profile.touch_zones = 2;
    profile.encoder_count = 2;
    let mut prior = Vec::new();
    assert_eq!(decode(&profile, 0x51, 0, &mut prior), Ok(SemanticInputEvent::EncoderDelta(1, 1)));
    assert_eq!(decode(&profile, 0x60, 0, &mut prior), Err(DecodeError::UnknownCode));
    assert_eq!(decode(&profile, 0x36, 1, &mut prior), Err(DecodeError::UnknownCode));
}

#[test]
fn process_input_forgets_earlier_reports() {
    let mut want = vec![false; 15];
    want[4] = true;
    assert_eq!(process_input(5, 1), Ok(SemanticInputEvent::ButtonState(want)));
    let mut want = vec![false; 15];
    want[9] = true;
    assert_eq!(process_input(10, 1), Ok(SemanticInputEvent::ButtonState(want.clone())));
    assert_eq!(read_button_press(10, 1), Ok(SemanticInputEvent::ButtonState(want)));
    assert_eq!(process_input(0, 1), Ok(SemanticInputEvent::ButtonState(vec![false; 15])));
    assert_eq!(process_input(7, 0), Ok(SemanticInputEvent::ButtonState(vec![false; 15])));
}

#[test]
fn process_input_agrees_with_decode_from_nothing() {
    let profile = Kind::N4.profile();
    for code in 0..=255u8 {
        for state in [0u8, 1, 200] {
            let mut prior = Vec::new();
            assert_eq!(process_input(code, state), decode(&profile, code, state, &mut prior));
        }
    }
}

#[test]
fn raw_states_skip_the_leading_byte() {
    let mut raw = vec![1u8; 1];
    raw.extend(vec![0u8; 16]);
    raw[1] = 1;
    raw[15] = 0x80;
    raw[16] = 1;
    let bools = read_button_states(&raw);
    assert_eq!(bools.len(), 15);
    let mut want = vec![false; 15];
    want[0] = true;
    want[14] = true;
    assert_eq!(bools, want);
}
