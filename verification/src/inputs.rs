//! Input decoder: from the two bytes of a report to what happened on the
//! device.

use crate::registry::{DeviceProfile, Kind, ENCODER_COUNT, KEY_COUNT};
use vstd::prelude::*;

verus! {

/// What a report says. `B` is the button snapshot: `Vec<bool>` in running
/// code, `Seq<bool>` in contracts.
#[derive(Debug, Clone, PartialEq, Eq)]
pub enum SemanticInputEvent<B> {
    /// The state of every key slot after the change, `true` for down.
    ButtonState(B),
    /// One encoder turned by one step: `+1` clockwise, `-1` the other way.
    EncoderDelta(u8, i8),
    /// One encoder was pressed (`true`) or released.
    EncoderPress(u8, bool),
}

#[derive(Debug, Clone, Copy, PartialEq, Eq, Structural)]
pub enum DecodeError {
    /// The report's code is in no table. Hardware sends such codes now and
    /// then; they are dropped.
    UnknownCode,
}

impl View for SemanticInputEvent<Vec<bool>> {
    type V = SemanticInputEvent<Seq<bool>>;

    open spec fn view(&self) -> SemanticInputEvent<Seq<bool>> {
        match self {
            SemanticInputEvent::ButtonState(b) => SemanticInputEvent::ButtonState(b@),
            SemanticInputEvent::EncoderDelta(e, d) => SemanticInputEvent::EncoderDelta(*e, *d),
            SemanticInputEvent::EncoderPress(e, p) => SemanticInputEvent::EncoderPress(*e, *p),
        }
    }
}

/// The code of the report that says that every button is up.
pub const ALL_RELEASED: u8 = 0;

/// The encoder and step that a rotation code stands for.
pub open spec fn spec_rotation(code: u8) -> Option<(u8, i8)> {
    if code == 0x90 {
        Some((0u8, -1i8))
    } else if code == 0x91 {
        Some((0u8, 1i8))
    } else if code == 0x50 {
        Some((1u8, -1i8))
    } else if code == 0x51 {
        Some((1u8, 1i8))
    } else if code == 0x60 {
        Some((2u8, -1i8))
    } else if code == 0x61 {
        Some((2u8, 1i8))
    } else if code == 0x70 {
        Some((3u8, -1i8))
    } else if code == 0x71 {
        Some((3u8, 1i8))
    } else {
        None
    }
}

/// The encoder that a press code stands for.
pub open spec fn spec_press(code: u8) -> Option<u8> {
    if code == 0x33 {
        Some(0u8)
    } else if code == 0x35 {
        Some(1u8)
    } else if code == 0x34 {
        Some(2u8)
    } else if code == 0x36 {
        Some(3u8)
    } else {
        None
    }
}

/// The button snapshot after a button report: all up for the all-released
/// code; else the addressed button takes the reported state and every other
/// slot keeps what it had before, or is up where nothing is known of it.
pub open spec fn spec_snapshot(prior: Seq<bool>, key_count: int, code: u8, state: u8) -> Seq<bool> {
    Seq::new(
        key_count as nat,
        |i: int|
            if code == ALL_RELEASED {
                false
            } else if i == code - 1 {
                state != 0
            } else if i < prior.len() {
                prior[i]
            } else {
                false
            },
    )
}

/// What a report decodes to on a device of the given profile. Codes up to
/// the size of the key grid are button reports; rotation and press codes
/// count where the profile has the encoder they name.
pub open spec fn spec_decode(profile: DeviceProfile, code: u8, state: u8, prior: Seq<bool>)
    -> Result<SemanticInputEvent<Seq<bool>>, DecodeError> {
    if code <= profile.grid_size() {
        Ok(SemanticInputEvent::ButtonState(spec_snapshot(prior, profile.key_count as int, code, state)))
    } else {
        match (spec_rotation(code), spec_press(code)) {
            (Some((encoder, delta)), _) => if encoder < profile.encoder_count {
                Ok(SemanticInputEvent::EncoderDelta(encoder, delta))
            } else {
                Err(DecodeError::UnknownCode)
            },
            (None, Some(encoder)) => if encoder < profile.encoder_count {
                Ok(SemanticInputEvent::EncoderPress(encoder, state != 0))
            } else {
                Err(DecodeError::UnknownCode)
            },
            (None, None) => Err(DecodeError::UnknownCode),
        }
    }
}

pub open spec fn same_decoding(
    got: Result<SemanticInputEvent<Vec<bool>>, DecodeError>,
    want: Result<SemanticInputEvent<Seq<bool>>, DecodeError>,
) -> bool {
    match got {
        Ok(event) => want == Ok::<SemanticInputEvent<Seq<bool>>, DecodeError>(event@),
        Err(e) => want == Err::<SemanticInputEvent<Seq<bool>>, DecodeError>(e),
    }
}

fn rotation_of(code: u8) -> (r: Option<(u8, i8)>)
    ensures
        r == spec_rotation(code),
        r matches Some(turn) ==> turn.1 == 1 || turn.1 == -1,
{
    if code == 0x90 {
        Some((0, -1))
    } else if code == 0x91 {
        Some((0, 1))
    } else if code == 0x50 {
        Some((1, -1))
    } else if code == 0x51 {
        Some((1, 1))
    } else if code == 0x60 {
        Some((2, -1))
    } else if code == 0x61 {
        Some((2, 1))
    } else if code == 0x70 {
        Some((3, -1))
    } else if code == 0x71 {
        Some((3, 1))
    } else {
        None
    }
}

fn press_of(code: u8) -> (r: Option<u8>)
    ensures
        r == spec_press(code),
{
    if code == 0x33 {
        Some(0)
    } else if code == 0x35 {
        Some(1)
    } else if code == 0x34 {
        Some(2)
    } else if code == 0x36 {
        Some(3)
    } else {
        None
    }
}

/// Decodes one report against the tables of a profile. A button report
/// gives the full snapshot and leaves it in `prior` for the next report;
/// other reports leave `prior` alone. An encoder step is always `+1` or
/// `-1`. A code in no table is `UnknownCode`.
pub fn decode(profile: &DeviceProfile, code: u8, state: u8, prior: &mut Vec<bool>) -> (event:
    Result<SemanticInputEvent<Vec<bool>>, DecodeError>)
    requires
        profile.wf(),
    ensures
        same_decoding(event, spec_decode(*profile, code, state, old(prior)@)),
        match event {
            Ok(SemanticInputEvent::ButtonState(snapshot)) => final(prior)@ == snapshot@
                && snapshot@.len() == profile.key_count,
            Ok(SemanticInputEvent::EncoderDelta(_, delta)) => final(prior)@ == old(prior)@ && (
            delta == 1 || delta == -1),
            _ => final(prior)@ == old(prior)@,
        },
        code == ALL_RELEASED ==> (event matches Ok(SemanticInputEvent::ButtonState(snapshot))
            && snapshot@ == Seq::new(profile.key_count as nat, |i: int| false)),
{
    let grid: u8 = profile.rows * profile.cols;
    if code <= grid {
        let ghost before = prior@;
        let count: usize = profile.key_count as usize;
        let mut snapshot: Vec<bool> = Vec::new();
        let mut i: usize = 0;
        while i < count
            invariant
                count == profile.key_count,
                i <= count,
                prior@ == before,
                snapshot@.len() == i,
                forall|k: int|
                    0 <= k < i ==> snapshot@[k] == spec_snapshot(
                        before,
                        count as int,
                        code,
                        state,
                    )[k],
            decreases count - i,
        {
            let down = if code == ALL_RELEASED {
                false
            } else if i == (code - 1) as usize {
                state != 0
            } else if i < prior.len() {
                prior[i]
            } else {
                false
            };
            snapshot.push(down);
            i += 1;
        }
        assert(snapshot@ =~= spec_snapshot(before, count as int, code, state));
        if code == ALL_RELEASED {
            assert(snapshot@ =~= Seq::new(profile.key_count as nat, |i: int| false));
        }
        *prior = snapshot.clone();
        Ok(SemanticInputEvent::ButtonState(snapshot))
    } else {
        match rotation_of(code) {
            Some((encoder, delta)) => {
                if encoder < profile.encoder_count {
                    Ok(SemanticInputEvent::EncoderDelta(encoder, delta))
                } else {
                    Err(DecodeError::UnknownCode)
                }
            },
            None => match press_of(code) {
                Some(encoder) => {
                    if encoder < profile.encoder_count {
                        Ok(SemanticInputEvent::EncoderPress(encoder, state != 0))
                    } else {
                        Err(DecodeError::UnknownCode)
                    }
                },
                None => Err(DecodeError::UnknownCode),
            },
        }
    }
}

/// Reads the key slots of a raw state report: the byte after the leading
/// one belongs to slot 0, and any non-zero byte means down.
pub fn read_button_states(states: &[u8]) -> (bools: Vec<bool>)
    requires
        states@.len() > KEY_COUNT,
    ensures
        bools@.len() == KEY_COUNT,
        forall|i: int| 0 <= i < KEY_COUNT ==> bools@[i] == (states@[i + 1] != 0),
{
    let mut bools: Vec<bool> = Vec::new();
    let mut i: usize = 0;
    while i < KEY_COUNT
        invariant
            states@.len() > KEY_COUNT,
            i <= KEY_COUNT,
            bools@.len() == i,
            forall|k: int| 0 <= k < i ==> bools@[k] == (states@[k + 1] != 0),
        decreases KEY_COUNT - i,
    {
        bools.push(states[i + 1] != 0);
        i += 1;
    }
    bools
}

/// Decodes a button report on its own, with every other button taken as
/// up.
pub fn read_button_press(input: u8, state: u8) -> (event: Result<
    SemanticInputEvent<Vec<bool>>,
    DecodeError,
>)
    ensures
        match event {
            Ok(e) => input <= 10 && e@ == SemanticInputEvent::ButtonState(
                spec_snapshot(Seq::empty(), KEY_COUNT as int, input, state),
            ),
            Err(e) => input > 10,
        },
{
    let mut button_states: Vec<u8> = Vec::new();
    button_states.push(0x01);
    let mut k: usize = 0;
    while k < KEY_COUNT + 1
        invariant
            k <= KEY_COUNT + 1,
            button_states@.len() == k + 1,
            forall|j: int| 1 <= j < k + 1 ==> button_states@[j] == 0,
        decreases KEY_COUNT + 1 - k,
    {
        button_states.push(0);
        k += 1;
    }
    if input == 0 {
        let bools = read_button_states(button_states.as_slice());
        assert(bools@ =~= spec_snapshot(Seq::empty(), KEY_COUNT as int, input, state));
        return Ok(SemanticInputEvent::ButtonState(bools));
    }
    if input > 10 {
        return Err(DecodeError::UnknownCode);
    }
    let pressed_index: usize = input as usize;
    button_states.set(pressed_index, state);
    let bools = read_button_states(button_states.as_slice());
    assert(bools@ =~= spec_snapshot(Seq::empty(), KEY_COUNT as int, input, state));
    Ok(SemanticInputEvent::ButtonState(bools))
}

/// Decodes an encoder rotation code.
pub fn read_encoder_value(input: u8) -> (event: Result<SemanticInputEvent<Vec<bool>>, DecodeError>)
    ensures
        match event {
            Ok(e) => (spec_rotation(input) matches Some(turn) && e@
                == SemanticInputEvent::<Seq<bool>>::EncoderDelta(turn.0, turn.1) && (turn.1 == 1
                || turn.1 == -1) && turn.0 < ENCODER_COUNT),
            Err(_) => spec_rotation(input) is None,
        },
{
    match rotation_of(input) {
        Some((encoder, value)) => Ok(SemanticInputEvent::EncoderDelta(encoder, value)),
        None => Err(DecodeError::UnknownCode),
    }
}

/// Decodes an encoder press code; any non-zero state means pressed.
pub fn read_encoder_press(input: u8, state: u8) -> (event: Result<
    SemanticInputEvent<Vec<bool>>,
    DecodeError,
>)
    ensures
        match event {
            Ok(e) => (spec_press(input) matches Some(encoder) && e@
                == SemanticInputEvent::<Seq<bool>>::EncoderPress(encoder, state != 0) && encoder
                < ENCODER_COUNT),
            Err(_) => spec_press(input) is None,
        },
{
    match press_of(input) {
        Some(encoder) => Ok(SemanticInputEvent::EncoderPress(encoder, state != 0)),
        None => Err(DecodeError::UnknownCode),
    }
}

/// Decodes one report of the fixed layout, with no memory of earlier
/// reports: what `decode` gives for either kind's profile when nothing is
/// known of the buttons.
pub fn process_input(input: u8, state: u8) -> (event: Result<
    SemanticInputEvent<Vec<bool>>,
    DecodeError,
>)
    ensures
        same_decoding(event, spec_decode(Kind::N4.spec_profile(), input, state, Seq::empty())),
        same_decoding(event, spec_decode(Kind::Akp05.spec_profile(), input, state, Seq::empty())),
{
    proof {
        let n4 = Kind::N4.spec_profile();
        let akp05 = Kind::Akp05.spec_profile();
        assert(n4.rows * n4.cols == 10 && akp05.rows * akp05.cols == 10) by (nonlinear_arith)
            requires
                n4.rows == 2 && n4.cols == 5,
                akp05.rows == 2 && akp05.cols == 5,
        ;
    }
    if input <= 10 {
        read_button_press(input, state)
    } else if 0x40 <= input && input <= 0x43 {
        Err(DecodeError::UnknownCode)
    } else if input == 0x90 || input == 0x91 || input == 0x50 || input == 0x51 || input == 0x60
        || input == 0x61 || input == 0x70 || input == 0x71 {
        read_encoder_value(input)
    } else if 0x33 <= input && input <= 0x36 {
        read_encoder_press(input, state)
    } else {
        Err(DecodeError::UnknownCode)
    }
}

/// One value per encoder: `delta` for the encoder that turned, 0 for the
/// others.
pub fn encoder_values(encoder: u8, delta: i8, count: usize) -> (values: Vec<i8>)
    ensures
        values@ == Seq::new(count as nat, |i: int| if i == encoder { delta } else { 0i8 }),
{
    let mut values: Vec<i8> = Vec::new();
    let mut i: usize = 0;
    while i < count
        invariant
            i <= count,
            values@ == Seq::new(i as nat, |k: int| if k == encoder { delta } else { 0i8 }),
        decreases count - i,
    {
        values.push(if i == encoder as usize { delta } else { 0 });
        assert(values@ =~= Seq::new((i + 1) as nat, |k: int| if k == encoder { delta } else { 0i8 }));
        i += 1;
    }
    values
}

/// One state per encoder: `pressed` for the encoder that was touched,
/// released for the others.
pub fn encoder_states(encoder: u8, pressed: bool, count: usize) -> (states: Vec<bool>)
    ensures
        states@ == Seq::new(count as nat, |i: int| i == encoder && pressed),
{
    let mut states: Vec<bool> = Vec::new();
    let mut i: usize = 0;
    while i < count
        invariant
            i <= count,
            states@ == Seq::new(i as nat, |k: int| k == encoder && pressed),
        decreases count - i,
    {
        states.push(i == encoder as usize && pressed);
        assert(states@ =~= Seq::new((i + 1) as nat, |k: int| k == encoder && pressed));
        i += 1;
    }
    states
}

/// A rotation code never stands for more or less than one step.
pub proof fn lemma_rotation_is_one_step(code: u8)
    ensures
        spec_rotation(code) matches Some(turn) ==> turn.1 == 1 || turn.1 == -1,
{
}

/// Whatever the profile, the state byte and the buttons known to be down,
/// the all-released report decodes to a snapshot with one entry per key
/// slot, all of them up; and every encoder event steps by one.
pub proof fn lemma_decoding_laws(profile: DeviceProfile, code: u8, state: u8, prior: Seq<bool>)
    requires
        profile.wf(),
    ensures
        spec_decode(profile, ALL_RELEASED, state, prior) == Ok::<
            SemanticInputEvent<Seq<bool>>,
            DecodeError,
        >(SemanticInputEvent::ButtonState(Seq::new(profile.key_count as nat, |i: int| false))),
        spec_decode(profile, code, state, prior) matches Ok(SemanticInputEvent::EncoderDelta(_, delta))
            ==> delta == 1 || delta == -1,
        spec_decode(profile, code, state, prior) matches Ok(SemanticInputEvent::ButtonState(snapshot))
            ==> snapshot.len() == profile.key_count,
{
    assert(spec_snapshot(prior, profile.key_count as int, ALL_RELEASED, state) =~= Seq::new(
        profile.key_count as nat,
        |i: int| false,
    ));
}

} // verus!
