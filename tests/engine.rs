use input_binding::input::{
    AxisSign, GamepadAxis, GamepadButton, HidAxisId, HidHatSwitchId, InputSource, InputValue,
    KeyCode, AXIS_UNIT,
};
use input_binding::layout::{ControllerKey, ControllerLayout, ControllerLayoutsRes, Ps2Key, Ps2Layout};
use input_binding::listener::{
    apply_listener_result, cleanup_input_listener_system, input_listener_system,
    listen_for_input_source, BoundControllerKey, InputListener, InputSinkId, ListenerResult,
    ListenerState,
};
use input_binding::raw_input::{
    ButtonState, HatSwitch, HidAxes, JoystickState, NoopRawInput, RawEvent, RawInput,
    RawInputReader,
};
use input_binding::sink::{
    poll_input_sources, resolve_dirty_sources_system, resolve_input_sinks_system, run_input_tick,
    DeviceInput, InputSink,
};

const W: KeyCode = KeyCode(22);

fn no_input() -> DeviceInput {
    DeviceInput {
        pressed_keys: vec![],
        just_pressed_keys: vec![],
        pressed_buttons: vec![],
        just_pressed_buttons: vec![],
        axes: vec![],
        gamepads: vec![],
    }
}

fn key(k: Ps2Key) -> ControllerKey {
    ControllerKey::Ps2(k)
}

fn no_axes() -> HidAxes {
    HidAxes { x: None, y: None, z: None, rx: None, ry: None, rz: None, slider: None }
}

#[test]
fn key_names() {
    assert_eq!(Ps2Key::PadU.to_string(), "DPad Up");
    assert_eq!(Ps2Key::Cross.to_string(), "X");
    assert_eq!(Ps2Key::RightNegY.to_string(), "RS Down");
    assert_eq!(key(Ps2Key::LeftPosX).to_string(), "LS Right");
    assert_eq!(key(Ps2Key::Circle).to_string(), "Circle");
}

#[test]
fn key_index_round_trip() {
    assert_eq!(Ps2Key::PadU.index(), 0);
    assert_eq!(Ps2Key::RightNegY.index(), 23);
    assert_eq!(Ps2Key::from_index(8), Some(Ps2Key::Circle));
    assert_eq!(Ps2Key::from_index(24), None);
}

#[test]
fn bind_then_lookup() {
    let mut layouts = ControllerLayoutsRes::default();
    let k = key(Ps2Key::Circle);
    assert_eq!(layouts.get_binding(k), None);
    assert_eq!(layouts.is_source_bound(&InputSource::Key(W)), None);
    layouts.set_binding(k, &InputSource::Key(W));
    assert_eq!(layouts.get_binding(k), Some(InputSource::Key(W)));
    assert_eq!(layouts.is_source_bound(&InputSource::Key(W)), Some(k));
    assert_eq!(layouts.get_binding(key(Ps2Key::Cross)), None);
}

#[test]
fn rebinding_overwrites() {
    let mut layouts = ControllerLayoutsRes::new();
    let k = key(Ps2Key::L1);
    layouts.set_binding(k, &InputSource::Key(W));
    layouts.set_binding(k, &InputSource::HidButton(0, 3));
    assert_eq!(layouts.get_binding(k), Some(InputSource::HidButton(0, 3)));
    assert_eq!(layouts.is_source_bound(&InputSource::Key(W)), None);
}

#[test]
fn reverse_lookup_takes_first_key_in_display_order() {
    let mut layouts = ControllerLayoutsRes::new();
    let source = InputSource::HidHatSwitch(1, HidHatSwitchId::Up);
    layouts.set_binding(key(Ps2Key::R3), &source);
    layouts.set_binding(key(Ps2Key::PadL), &source);
    assert_eq!(layouts.get_binding(key(Ps2Key::R3)), Some(source));
    assert_eq!(layouts.is_source_bound(&source), Some(key(Ps2Key::PadL)));
}

#[test]
fn ps2_layout_through_trait() {
    let mut layout = Ps2Layout::default();
    layout.set_binding(Ps2Key::Start, &InputSource::Key(KeyCode(5)));
    assert_eq!(layout.get_binding(Ps2Key::Start), Some(InputSource::Key(KeyCode(5))));
    assert_eq!(layout.get_binding(Ps2Key::Select), None);
    assert_eq!(layout.get_max_key(), 24);
}

#[test]
fn axis_sign_split() {
    let half = AXIS_UNIT / 2;
    assert_eq!(AxisSign::Plus.clamp_axis(half), half);
    assert_eq!(AxisSign::Minus.clamp_axis(half), 0);
    assert_eq!(AxisSign::Plus.clamp_axis(-half), 0);
    assert_eq!(AxisSign::Minus.clamp_axis(-half), half);
    assert_eq!(AxisSign::Plus.clamp_axis(0), 0);
    assert_eq!(AxisSign::Minus.clamp_axis(0), 0);
    assert_eq!(AxisSign::Plus.clamp_axis(2 * AXIS_UNIT), AXIS_UNIT);
    assert_eq!(AxisSign::Minus.clamp_axis(-2 * AXIS_UNIT), AXIS_UNIT);
    for v in [-AXIS_UNIT, -300_000, -1, 0, 1, 250_000, AXIS_UNIT] {
        let p = AxisSign::Plus.clamp_axis(v);
        let m = AxisSign::Minus.clamp_axis(v);
        assert!(0 <= p && p <= AXIS_UNIT);
        assert!(0 <= m && m <= AXIS_UNIT);
        assert_eq!(p - m, v);
        if v != 0 {
            assert!((p != 0) != (m != 0));
        }
        assert_eq!(AxisSign::Plus.clamp_axis(p), p);
    }
}

#[test]
fn new_sink_is_dirty_and_empty() {
    let sink = InputSink::new(vec![key(Ps2Key::PadU), key(Ps2Key::PadD), key(Ps2Key::Start)]);
    assert!(sink.sources_dirty);
    assert_eq!(sink.sources, vec![None, None, None]);
    assert_eq!(sink.values, vec![None, None, None]);
}

#[test]
fn empty_sink() {
    let mut sinks = vec![InputSink::new(vec![])];
    let mut raw = NoopRawInput;
    run_input_tick(&ControllerLayoutsRes::new(), &no_input(), &mut raw, &mut sinks);
    assert!(sinks[0].keys.is_empty());
    assert!(sinks[0].sources.is_empty());
    assert!(sinks[0].values.is_empty());
    assert!(!sinks[0].sources_dirty);
}

#[test]
fn scenario_bind_and_press() {
    let a = key(Ps2Key::Circle);
    let b = key(Ps2Key::Cross);
    let mut layouts = ControllerLayoutsRes::new();
    let mut sinks = vec![InputSink::new(vec![a, b])];
    let mut raw = NoopRawInput;

    run_input_tick(&layouts, &no_input(), &mut raw, &mut sinks);
    assert_eq!(sinks[0].sources, vec![None, None]);
    assert_eq!(sinks[0].values, vec![None, None]);

    layouts.set_binding(a, &InputSource::Key(W));
    sinks[0].sources_dirty = true;
    let mut input = no_input();
    input.pressed_keys = vec![W];
    run_input_tick(&layouts, &input, &mut raw, &mut sinks);
    assert_eq!(sinks[0].sources, vec![Some(InputSource::Key(W)), None]);
    assert_eq!(sinks[0].values, vec![Some(InputValue::Button(true)), None]);
}

#[test]
fn sink_resolves_only_when_dirty() {
    let a = key(Ps2Key::Square);
    let mut layouts = ControllerLayoutsRes::new();
    layouts.set_binding(a, &InputSource::Key(W));
    let mut sinks = vec![InputSink::new(vec![a])];
    resolve_dirty_sources_system(&layouts, &mut sinks);
    assert_eq!(sinks[0].sources, vec![Some(InputSource::Key(W))]);
    assert!(!sinks[0].sources_dirty);

    layouts.set_binding(a, &InputSource::Key(KeyCode(1)));
    resolve_dirty_sources_system(&layouts, &mut sinks);
    assert_eq!(sinks[0].sources, vec![Some(InputSource::Key(W))]);

    sinks[0].sources_dirty = true;
    resolve_dirty_sources_system(&layouts, &mut sinks);
    assert_eq!(sinks[0].sources, vec![Some(InputSource::Key(KeyCode(1)))]);
    assert_eq!(sinks[0].keys.len(), sinks[0].sources.len());
    assert_eq!(sinks[0].keys.len(), sinks[0].values.len());
}

#[test]
fn values_written_back_per_sink() {
    let mut layouts = ControllerLayoutsRes::new();
    let pad = GamepadAxis { gamepad: 0, axis: 1 };
    let button = GamepadButton { gamepad: 0, button: 4 };
    layouts.set_binding(key(Ps2Key::LeftPosY), &InputSource::Axis(pad, AxisSign::Plus));
    layouts.set_binding(key(Ps2Key::LeftNegY), &InputSource::Axis(pad, AxisSign::Minus));
    layouts.set_binding(key(Ps2Key::R1), &InputSource::Button(button));
    let mut sinks = vec![
        InputSink::new(vec![key(Ps2Key::LeftPosY), key(Ps2Key::LeftNegY)]),
        InputSink::new(vec![key(Ps2Key::R1), key(Ps2Key::R2)]),
    ];
    let mut input = no_input();
    input.axes = vec![(pad, -600_000)];
    input.pressed_buttons = vec![button];
    let mut raw = NoopRawInput;
    run_input_tick(&layouts, &input, &mut raw, &mut sinks);
    assert_eq!(sinks[0].values, vec![Some(InputValue::Axis(0)), Some(InputValue::Axis(600_000))]);
    assert_eq!(sinks[1].values, vec![Some(InputValue::Button(true)), None]);
}

#[test]
fn unpressed_key_reads_false_and_missing_axis_reads_none() {
    let mut raw = NoopRawInput;
    let sources = vec![
        Some(InputSource::Key(W)),
        Some(InputSource::Axis(GamepadAxis { gamepad: 2, axis: 0 }, AxisSign::Plus)),
        None,
        Some(InputSource::HidButton(0, 0)),
    ];
    let values = poll_input_sources(&no_input(), &mut raw, &sources);
    assert_eq!(values, vec![Some(InputValue::Button(false)), None, None, None]);
}

#[test]
fn polling_twice_in_one_tick_uses_same_state() {
    let mut layouts = ControllerLayoutsRes::new();
    layouts.set_binding(key(Ps2Key::Triangle), &InputSource::Key(W));
    let mut sinks = vec![InputSink::new(vec![key(Ps2Key::Triangle)])];
    resolve_dirty_sources_system(&layouts, &mut sinks);
    let mut input = no_input();
    input.pressed_keys = vec![W];
    let mut raw = NoopRawInput;
    resolve_input_sinks_system(&input, &mut raw, &mut sinks);
    assert_eq!(sinks[0].values, vec![Some(InputValue::Button(true))]);
    input.pressed_keys = vec![];
    resolve_input_sinks_system(&input, &mut raw, &mut sinks);
    assert_eq!(sinks[0].values, vec![Some(InputValue::Button(false))]);
}

fn joystick(buttons: Vec<bool>, x: Option<i32>, hat: Option<HatSwitch>) -> JoystickState {
    let mut axes = no_axes();
    axes.x = x;
    JoystickState { button_states: buttons, axis_states: axes, hatswitch: hat }
}

#[test]
fn raw_input_polls_device_states() {
    let mut raw = RawInput::new();
    raw.set_device_states(vec![
        None,
        Some(joystick(vec![false, true], Some(-AXIS_UNIT), Some(HatSwitch::UpRight))),
    ]);
    assert_eq!(raw.poll_hid_button(&1, &1), None);
    raw.update();
    assert_eq!(raw.num_joysticks(), 2);
    assert_eq!(raw.poll_hid_button(&1, &1), Some(InputValue::Button(true)));
    assert_eq!(raw.poll_hid_button(&1, &0), Some(InputValue::Button(false)));
    assert_eq!(raw.poll_hid_button(&1, &5), None);
    assert_eq!(raw.poll_hid_button(&0, &0), None);
    assert_eq!(raw.poll_hid_button(&7, &0), None);
    assert_eq!(
        raw.poll_hid_axis(&1, &HidAxisId::X, &AxisSign::Minus),
        Some(InputValue::Axis(AXIS_UNIT))
    );
    assert_eq!(raw.poll_hid_axis(&1, &HidAxisId::X, &AxisSign::Plus), Some(InputValue::Axis(0)));
    assert_eq!(raw.poll_hid_axis(&1, &HidAxisId::Y, &AxisSign::Plus), None);
    assert_eq!(raw.poll_hid_hatswitch(&1, &HidHatSwitchId::Up), Some(InputValue::Button(true)));
    assert_eq!(raw.poll_hid_hatswitch(&1, &HidHatSwitchId::Right), Some(InputValue::Button(true)));
    assert_eq!(raw.poll_hid_hatswitch(&1, &HidHatSwitchId::Down), Some(InputValue::Button(false)));
    assert_eq!(raw.poll_hid_hatswitch(&1, &HidHatSwitchId::Center), Some(InputValue::Button(false)));
}

#[test]
fn raw_input_keeps_states_without_new_report() {
    let mut raw = RawInput::default();
    raw.set_device_states(vec![Some(joystick(vec![true], None, None))]);
    raw.update();
    raw.update();
    assert_eq!(raw.poll_hid_button(&0, &0), Some(InputValue::Button(true)));
    assert_eq!(raw.poll_hid_hatswitch(&0, &HidHatSwitchId::Center), None);
}

#[test]
fn raw_input_listens_to_first_qualifying_event() {
    let mut raw = RawInput::new();
    raw.push_event(RawEvent::Other);
    raw.push_event(RawEvent::JoystickButtonEvent(0, 2, ButtonState::Released));
    raw.push_event(RawEvent::JoystickAxisEvent(0, HidAxisId::RY, 100_000));
    raw.push_event(RawEvent::JoystickHatSwitchEvent(0, HatSwitch::DownLeft));
    raw.push_event(RawEvent::JoystickAxisEvent(1, HidAxisId::RZ, -500_000));
    raw.push_event(RawEvent::JoystickButtonEvent(0, 2, ButtonState::Pressed));
    assert_eq!(raw.listen(), None);
    raw.update();
    assert_eq!(raw.listen(), Some(InputSource::HidAxis(1, HidAxisId::RZ, AxisSign::Minus)));
    assert_eq!(raw.listen(), None);
}

#[test]
fn raw_input_listens_to_hat_and_button() {
    let mut raw = RawInput::new();
    raw.push_event(RawEvent::JoystickHatSwitchEvent(3, HatSwitch::Left));
    raw.update();
    assert_eq!(raw.listen(), Some(InputSource::HidHatSwitch(3, HidHatSwitchId::Left)));
    raw.push_event(RawEvent::JoystickButtonEvent(2, 9, ButtonState::Pressed));
    raw.update();
    assert_eq!(raw.listen(), Some(InputSource::HidButton(2, 9)));
    raw.push_event(RawEvent::JoystickAxisEvent(0, HidAxisId::X, 400_001));
    raw.update();
    assert_eq!(raw.listen(), Some(InputSource::HidAxis(0, HidAxisId::X, AxisSign::Plus)));
}

#[test]
fn hat_switch_directions() {
    assert_eq!(HidHatSwitchId::from_multiinput_hatswitch(HatSwitch::Up), Some(HidHatSwitchId::Up));
    assert_eq!(HidHatSwitchId::from_multiinput_hatswitch(HatSwitch::Left), Some(HidHatSwitchId::Left));
    assert_eq!(HidHatSwitchId::from_multiinput_hatswitch(HatSwitch::UpLeft), None);
    assert_eq!(HidHatSwitchId::from_multiinput_hatswitch(HatSwitch::Center), None);
}

#[test]
fn noop_backend_hears_nothing() {
    let mut raw = NoopRawInput;
    raw.update();
    assert_eq!(raw.listen(), None);
    assert_eq!(raw.num_joysticks(), 0);
    assert_eq!(raw.poll_hid_button(&0, &0), None);
    assert_eq!(raw.poll_hid_axis(&0, &HidAxisId::X, &AxisSign::Plus), None);
    assert_eq!(raw.poll_hid_hatswitch(&0, &HidHatSwitchId::Up), None);
}

#[test]
fn listen_priority() {
    let pad = GamepadAxis { gamepad: 1, axis: 3 };
    let button = GamepadButton { gamepad: 1, button: 0 };
    let mut input = no_input();
    input.just_pressed_keys = vec![W, KeyCode(3)];
    input.just_pressed_buttons = vec![button];
    input.gamepads = vec![1];
    input.axes = vec![(pad, 900_000)];

    let mut raw = RawInput::new();
    raw.push_event(RawEvent::JoystickButtonEvent(0, 1, ButtonState::Pressed));
    raw.update();
    assert_eq!(listen_for_input_source(&input, &mut raw), Some(InputSource::HidButton(0, 1)));
    assert_eq!(listen_for_input_source(&input, &mut raw), Some(InputSource::Key(W)));
    input.just_pressed_keys = vec![];
    assert_eq!(listen_for_input_source(&input, &mut raw), Some(InputSource::Button(button)));
    input.just_pressed_buttons = vec![];
    assert_eq!(
        listen_for_input_source(&input, &mut raw),
        Some(InputSource::Axis(pad, AxisSign::Plus))
    );
    input.axes = vec![(pad, -900_000)];
    assert_eq!(
        listen_for_input_source(&input, &mut raw),
        Some(InputSource::Axis(pad, AxisSign::Minus))
    );
    input.axes = vec![(pad, 300_000)];
    assert_eq!(listen_for_input_source(&input, &mut raw), None);
}

#[test]
fn listening_for_source_emits_once() {
    let mut listener = InputListener::default();
    let layouts = ControllerLayoutsRes::new();
    let k = key(Ps2Key::R2);
    let mut raw = NoopRawInput;
    assert!(!listener.listening_for_input_source());
    assert_eq!(input_listener_system(&mut listener, &layouts, &no_input(), &mut raw), None);

    listener.listen_input_source(k);
    assert!(listener.listening_for_input_source());
    assert!(listener.has_key_consumer(k));
    assert!(!listener.has_key_consumer(key(Ps2Key::R1)));

    assert_eq!(input_listener_system(&mut listener, &layouts, &no_input(), &mut raw), None);
    assert_eq!(listener.state, ListenerState::ListenInputSource(k));

    let mut input = no_input();
    input.just_pressed_keys = vec![W];
    let r = input_listener_system(&mut listener, &layouts, &input, &mut raw);
    assert_eq!(r, Some(ListenerResult::SourceToKey(InputSource::Key(W), k)));
    assert_eq!(listener.state, ListenerState::Inactive);
    assert_eq!(input_listener_system(&mut listener, &layouts, &input, &mut raw), None);
    assert_eq!(listener.consume_result(), r);
    assert_eq!(listener.consume_result(), None);
}

#[test]
fn listening_for_bound_key_ignores_unbound_sources() {
    let mut layouts = ControllerLayoutsRes::new();
    let k = key(Ps2Key::Triangle);
    layouts.set_binding(k, &InputSource::Key(W));
    let sink = InputSinkId { entity: Some(7), idx: 1 };
    let mut listener = InputListener::new();
    let mut raw = NoopRawInput;
    listener.listen_for_controller_key(sink);
    assert!(listener.listening_for_controller_key());
    assert!(listener.has_sink_consumer(sink));

    let mut input = no_input();
    input.just_pressed_keys = vec![KeyCode(1)];
    assert_eq!(input_listener_system(&mut listener, &layouts, &input, &mut raw), None);
    assert_eq!(listener.state, ListenerState::ListenControllerKey(sink));
    assert_eq!(listener.result, None);

    input.just_pressed_keys = vec![W];
    let r = input_listener_system(&mut listener, &layouts, &input, &mut raw);
    assert_eq!(r, Some(ListenerResult::KeyToSink(k, sink)));
    assert_eq!(listener.state, ListenerState::Inactive);
    assert_eq!(listener.result, r);
}

#[test]
fn stop_listening_gives_no_result() {
    let mut listener = InputListener::new();
    listener.listen_input_source(key(Ps2Key::L2));
    listener.stop_listening();
    assert_eq!(listener.state, ListenerState::Inactive);
    let mut input = no_input();
    input.just_pressed_keys = vec![W];
    let mut raw = NoopRawInput;
    assert_eq!(
        input_listener_system(&mut listener, &ControllerLayoutsRes::new(), &input, &mut raw),
        None
    );
    assert_eq!(listener.consume_result(), None);
}

#[test]
fn cleanup_marks_sinks_dirty_while_listening() {
    let mut sinks = vec![InputSink::new(vec![key(Ps2Key::PadR)]), InputSink::new(vec![])];
    resolve_dirty_sources_system(&ControllerLayoutsRes::new(), &mut sinks);
    let mut listener = InputListener::new();
    cleanup_input_listener_system(&listener, &mut sinks);
    assert!(!sinks[0].sources_dirty && !sinks[1].sources_dirty);
    listener.listen_for_controller_key(InputSinkId::default());
    cleanup_input_listener_system(&listener, &mut sinks);
    assert!(sinks[0].sources_dirty && sinks[1].sources_dirty);
}

#[test]
fn applying_results() {
    let mut layouts = ControllerLayoutsRes::new();
    let k = key(Ps2Key::Select);
    let source = InputSource::HidAxis(0, HidAxisId::SLIDER, AxisSign::Plus);
    assert!(apply_listener_result(&mut layouts, &ListenerResult::SourceToKey(source, k)));
    assert_eq!(layouts.get_binding(k), Some(source));
    assert!(!apply_listener_result(
        &mut layouts,
        &ListenerResult::KeyToSink(key(Ps2Key::Start), InputSinkId::default())
    ));
    assert_eq!(layouts.get_binding(key(Ps2Key::Start)), None);
}

#[test]
fn bound_controller_key_takes_its_result() {
    let mut element = BoundControllerKey::from(key(Ps2Key::L3));
    assert_eq!(element.id, None);
    assert_eq!(element.key, Some(key(Ps2Key::L3)));
    element.bind(42, 0);
    let own = InputSinkId { entity: Some(42), idx: 0 };
    assert_eq!(element.id, Some(own));

    let mut listener = InputListener::new();
    listener.result = Some(ListenerResult::KeyToSink(
        key(Ps2Key::R3),
        InputSinkId { entity: Some(43), idx: 0 },
    ));
    assert!(!element.take_listener_result(&mut listener));
    assert_eq!(element.key, Some(key(Ps2Key::L3)));

    listener.listen_for_controller_key(own);
    listener.result = Some(ListenerResult::KeyToSink(key(Ps2Key::R3), own));
    assert!(element.take_listener_result(&mut listener));
    assert_eq!(element.key, Some(key(Ps2Key::R3)));
    assert_eq!(listener.result, None);
    assert_eq!(listener.state, ListenerState::Inactive);
}

#[test]
fn source_text() {
    assert_eq!(InputSource::Key(KeyCode(22)).to_string(), "Key(KeyCode(22))");
    assert_eq!(InputSource::Key(KeyCode(0)).to_string(), "Key(KeyCode(0))");
    assert_eq!(
        InputSource::Button(GamepadButton { gamepad: 1, button: 10 }).to_string(),
        "Button(GamepadButton { gamepad: 1, button: 10 })"
    );
    assert_eq!(
        InputSource::Axis(GamepadAxis { gamepad: 0, axis: 7 }, AxisSign::Minus).to_string(),
        "Axis(GamepadAxis { gamepad: 0, axis: 7 }, Minus)"
    );
    assert_eq!(InputSource::HidButton(3, 105).to_string(), "HidButton(3, 105)");
    assert_eq!(
        InputSource::HidAxis(12, HidAxisId::SLIDER, AxisSign::Plus).to_string(),
        "HidAxis(12, SLIDER, Plus)"
    );
    assert_eq!(
        InputSource::HidHatSwitch(0, HidHatSwitchId::Center).to_string(),
        "HidHatSwitch(0, Center)"
    );
    let s = InputSource::HidAxis(4_000_000_000, HidAxisId::RX, AxisSign::Minus);
    assert_eq!(s.to_string(), format!("{:?}", s));
}

#[test]
fn hid_id_of_sources() {
    assert_eq!(InputSource::Key(W).get_hid_id(), None);
    assert_eq!(InputSource::HidButton(4, 1).get_hid_id(), Some(4));
    assert_eq!(InputSource::HidHatSwitch(2, HidHatSwitchId::Up).get_hid_id(), Some(2));
}

#[test]
fn every_key_in_one_sink() {
    let keys: Vec<ControllerKey> = (0..24).map(|i| key(Ps2Key::from_index(i).unwrap())).collect();
    let mut layouts = ControllerLayoutsRes::new();
    for (i, k) in keys.iter().enumerate() {
        layouts.set_binding(*k, &InputSource::Key(KeyCode(i as u32)));
    }
    let mut input = no_input();
    input.pressed_keys = vec![KeyCode(0), KeyCode(23)];
    let mut sinks = vec![InputSink::new(keys)];
    let mut raw = NoopRawInput;
    run_input_tick(&layouts, &input, &mut raw, &mut sinks);
    assert_eq!(sinks[0].values.len(), 24);
    assert_eq!(sinks[0].values[0], Some(InputValue::Button(true)));
    assert_eq!(sinks[0].values[1], Some(InputValue::Button(false)));
    assert_eq!(sinks[0].values[23], Some(InputValue::Button(true)));
    assert_eq!(layouts.is_source_bound(&InputSource::Key(KeyCode(23))), Some(key(Ps2Key::RightNegY)));
}

#[test]
fn source_text_of_largest_values() {
    assert_eq!(
        InputSource::Key(KeyCode(u32::MAX)).to_string(),
        format!("Key(KeyCode({}))", u32::MAX)
    );
    assert_eq!(
        InputSource::HidButton(usize::MAX, usize::MAX).to_string(),
        format!("HidButton({}, {})", usize::MAX, usize::MAX)
    );
}
