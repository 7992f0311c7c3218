use input_binding::input::{
    AxisSign, GamepadAxis, GamepadButton, HidAxisId, HidHatSwitchId, InputSource, KeyCode,
};
use input_binding::layout::{ControllerKey, ControllerLayoutsRes, Ps2Key};
use input_binding::persist::{
    decode_layouts, encode_layouts, layouts_from_records, record_to_key, record_to_source,
    records_from_layouts, source_to_record, LayoutFileError,
};

fn key(k: Ps2Key) -> ControllerKey {
    ControllerKey::Ps2(k)
}

fn sample() -> Vec<(ControllerKey, InputSource)> {
    vec![
        (key(Ps2Key::PadU), InputSource::Key(KeyCode(22))),
        (key(Ps2Key::Cross), InputSource::Button(GamepadButton { gamepad: 1, button: 0 })),
        (
            key(Ps2Key::LeftNegX),
            InputSource::Axis(GamepadAxis { gamepad: 0, axis: 0 }, AxisSign::Minus),
        ),
        (key(Ps2Key::R1), InputSource::HidButton(2, 11)),
        (key(Ps2Key::RightPosY), InputSource::HidAxis(2, HidAxisId::RY, AxisSign::Plus)),
        (key(Ps2Key::PadL), InputSource::HidHatSwitch(2, HidHatSwitchId::Left)),
    ]
}

#[test]
fn layout_json_round_trip() {
    let mut layouts = ControllerLayoutsRes::new();
    for (k, s) in sample() {
        layouts.set_binding(k, &s);
    }
    let text = encode_layouts(&layouts).unwrap();
    let back = decode_layouts(&text).unwrap();
    for (k, s) in sample() {
        assert_eq!(back.get_binding(k), Some(s));
    }
    assert_eq!(back.get_binding(key(Ps2Key::Start)), None);
}

#[test]
fn empty_layout_json() {
    let text = encode_layouts(&ControllerLayoutsRes::new()).unwrap();
    assert_eq!(text, "[]");
    let back = decode_layouts("[]").unwrap();
    assert_eq!(back.get_binding(key(Ps2Key::PadU)), None);
}

#[test]
fn layout_json_text() {
    let mut layouts = ControllerLayoutsRes::new();
    layouts.set_binding(key(Ps2Key::Circle), &InputSource::Key(KeyCode(22)));
    layouts.set_binding(key(Ps2Key::PadD), &InputSource::HidAxis(1, HidAxisId::Z, AxisSign::Minus));
    assert_eq!(encode_layouts(&layouts).unwrap(), "[[2,4,1,2,1],[8,0,22,0,0]]");
}

#[test]
fn decode_layout_json_text() {
    let back = decode_layouts(" [ [8, 0, 22, 0, 0], [8, 3, 0, 5, 0] ] ").unwrap();
    assert_eq!(back.get_binding(key(Ps2Key::Circle)), Some(InputSource::HidButton(0, 5)));
}

#[test]
fn malformed_json_is_rejected() {
    assert_eq!(decode_layouts("{").err(), Some(LayoutFileError::Json));
    assert_eq!(decode_layouts("[[1,2,3]]").err(), Some(LayoutFileError::Json));
    assert_eq!(decode_layouts("").err(), Some(LayoutFileError::Json));
}

#[test]
fn invalid_records_are_rejected() {
    assert_eq!(decode_layouts("[[24,0,1,0,0]]").err(), Some(LayoutFileError::InvalidRecord));
    assert_eq!(decode_layouts("[[0,6,1,0,0]]").err(), Some(LayoutFileError::InvalidRecord));
    assert_eq!(decode_layouts("[[0,4,1,7,0]]").err(), Some(LayoutFileError::InvalidRecord));
    assert_eq!(decode_layouts("[[0,2,1,0,2]]").err(), Some(LayoutFileError::InvalidRecord));
    assert_eq!(decode_layouts("[[0,5,1,5,0]]").err(), Some(LayoutFileError::InvalidRecord));
    assert_eq!(decode_layouts("[[0,0,4294967296,0,0]]").err(), Some(LayoutFileError::InvalidRecord));
}

#[test]
fn records_round_trip() {
    let mut layouts = ControllerLayoutsRes::new();
    for (k, s) in sample() {
        layouts.set_binding(k, &s);
    }
    let records = records_from_layouts(&layouts);
    assert_eq!(records.len(), sample().len());
    let back = layouts_from_records(&records).unwrap();
    for (k, s) in sample() {
        assert_eq!(back.get_binding(k), Some(s));
    }
}

#[test]
fn later_record_wins() {
    let records = vec![(3, 0, 1, 0, 0), (3, 0, 2, 0, 0)];
    let back = layouts_from_records(&records).unwrap();
    assert_eq!(back.get_binding(key(Ps2Key::PadR)), Some(InputSource::Key(KeyCode(2))));
}

#[test]
fn single_record_codes() {
    for (k, s) in sample() {
        let ControllerKey::Ps2(p) = k;
        let r = source_to_record(p.index() as u64, &s);
        assert_eq!(record_to_key(&r), Some(k));
        assert_eq!(record_to_source(&r), Some(s));
    }
    assert_eq!(source_to_record(5, &InputSource::HidHatSwitch(1, HidHatSwitchId::Down)), (5, 5, 1, 3, 0));
}

#[test]
fn every_key_bound_round_trip() {
    let mut layouts = ControllerLayoutsRes::new();
    for i in 0..24 {
        let k = key(Ps2Key::from_index(i).unwrap());
        layouts.set_binding(k, &InputSource::HidButton(usize::MAX, i));
    }
    let records = records_from_layouts(&layouts);
    assert_eq!(records.len(), 24);
    let back = decode_layouts(&encode_layouts(&layouts).unwrap()).unwrap();
    for i in 0..24 {
        let k = key(Ps2Key::from_index(i).unwrap());
        assert_eq!(back.get_binding(k), Some(InputSource::HidButton(usize::MAX, i)));
    }
}
