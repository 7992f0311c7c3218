use vstd::prelude::*;

use crate::input::{
    AxisSign, HidAxisId, HidButtonId, HidHatSwitchId, HidId, InputSource, InputValue,
    is_axis_magnitude, is_button_value,
    MIN_LISTENABLE_AXIS_MAG,
};

verus! {

/// Whether a raw HID button went down or up.
#[derive(Clone, Copy, PartialEq, Eq, Structural, Debug)]
pub enum ButtonState {
    Pressed,
    Released,
}

/// The position of a raw HID hat switch, diagonals included.
#[derive(Clone, Copy, PartialEq, Eq, Structural, Debug)]
pub enum HatSwitch {
    Center,
    Up,
    UpRight,
    Right,
    DownRight,
    Down,
    DownLeft,
    Left,
    UpLeft,
}

/// One event reported by a raw HID driver. Axis positions are fixed-point.
#[derive(Clone, Copy, PartialEq, Eq, Structural, Debug)]
pub enum RawEvent {
    JoystickButtonEvent(HidId, HidButtonId, ButtonState),
    JoystickAxisEvent(HidId, HidAxisId, i32),
    JoystickHatSwitchEvent(HidId, HatSwitch),
    /// An event of a device class that is not listened to.
    Other,
}

/// The last known positions of the analog axes of a raw HID device; `None` for an axis
/// the device lacks.
#[derive(Clone, Copy, PartialEq, Eq, Structural, Debug)]
pub struct HidAxes {
    pub x: Option<i32>,
    pub y: Option<i32>,
    pub z: Option<i32>,
    pub rx: Option<i32>,
    pub ry: Option<i32>,
    pub rz: Option<i32>,
    pub slider: Option<i32>,
}

impl HidAxes {
    pub open spec fn spec_get(self, axis: HidAxisId) -> Option<i32> {
        match axis {
            HidAxisId::X => self.x,
            HidAxisId::Y => self.y,
            HidAxisId::Z => self.z,
            HidAxisId::RX => self.rx,
            HidAxisId::RY => self.ry,
            HidAxisId::RZ => self.rz,
            HidAxisId::SLIDER => self.slider,
        }
    }

    pub fn get(&self, axis: HidAxisId) -> (r: Option<i32>)
        ensures
            r == self.spec_get(axis),
    {
        match axis {
            HidAxisId::X => self.x,
            HidAxisId::Y => self.y,
            HidAxisId::Z => self.z,
            HidAxisId::RX => self.rx,
            HidAxisId::RY => self.ry,
            HidAxisId::RZ => self.rz,
            HidAxisId::SLIDER => self.slider,
        }
    }
}

/// The last known state of one raw HID device.
pub struct JoystickState {
    pub button_states: Vec<bool>,
    pub axis_states: HidAxes,
    pub hatswitch: Option<HatSwitch>,
}

impl HidHatSwitchId {
    /// The straight direction of a hat switch position; `None` for the center and diagonals.
    pub open spec fn spec_from_hatswitch(hatswitch: HatSwitch) -> Option<HidHatSwitchId> {
        match hatswitch {
            HatSwitch::Up => Some(HidHatSwitchId::Up),
            HatSwitch::Right => Some(HidHatSwitchId::Right),
            HatSwitch::Down => Some(HidHatSwitchId::Down),
            HatSwitch::Left => Some(HidHatSwitchId::Left),
            _ => None,
        }
    }

    pub fn from_multiinput_hatswitch(hatswitch: HatSwitch) -> (r: Option<HidHatSwitchId>)
        ensures
            r == HidHatSwitchId::spec_from_hatswitch(hatswitch),
    {
        match hatswitch {
            HatSwitch::Up => Some(HidHatSwitchId::Up),
            HatSwitch::Right => Some(HidHatSwitchId::Right),
            HatSwitch::Down => Some(HidHatSwitchId::Down),
            HatSwitch::Left => Some(HidHatSwitchId::Left),
            _ => None,
        }
    }
}

/// Whether direction `hat_id` is held when the hat switch is at `hatswitch`: a diagonal
/// holds both of its directions.
pub open spec fn hat_direction_down(hatswitch: HatSwitch, hat_id: HidHatSwitchId) -> bool {
    match hatswitch {
        HatSwitch::Center => hat_id == HidHatSwitchId::Center,
        HatSwitch::Right => hat_id == HidHatSwitchId::Right,
        HatSwitch::Left => hat_id == HidHatSwitchId::Left,
        HatSwitch::Up => hat_id == HidHatSwitchId::Up,
        HatSwitch::Down => hat_id == HidHatSwitchId::Down,
        HatSwitch::UpRight => hat_id == HidHatSwitchId::Up || hat_id == HidHatSwitchId::Right,
        HatSwitch::DownRight => hat_id == HidHatSwitchId::Down || hat_id == HidHatSwitchId::Right,
        HatSwitch::DownLeft => hat_id == HidHatSwitchId::Down || hat_id == HidHatSwitchId::Left,
        HatSwitch::UpLeft => hat_id == HidHatSwitchId::Up || hat_id == HidHatSwitchId::Left,
    }
}

pub fn is_hat_direction_down(hatswitch: HatSwitch, hat_id: HidHatSwitchId) -> (r: bool)
    ensures
        r == hat_direction_down(hatswitch, hat_id),
{
    match hatswitch {
        HatSwitch::Center => hat_id == HidHatSwitchId::Center,
        HatSwitch::Right => hat_id == HidHatSwitchId::Right,
        HatSwitch::Left => hat_id == HidHatSwitchId::Left,
        HatSwitch::Up => hat_id == HidHatSwitchId::Up,
        HatSwitch::Down => hat_id == HidHatSwitchId::Down,
        HatSwitch::UpRight => hat_id == HidHatSwitchId::Up || hat_id == HidHatSwitchId::Right,
        HatSwitch::DownRight => hat_id == HidHatSwitchId::Down || hat_id == HidHatSwitchId::Right,
        HatSwitch::DownLeft => hat_id == HidHatSwitchId::Down || hat_id == HidHatSwitchId::Left,
        HatSwitch::UpLeft => hat_id == HidHatSwitchId::Up || hat_id == HidHatSwitchId::Left,
    }
}

/// The source an event names when it is listened to: a button press, an axis deflected
/// past `MIN_LISTENABLE_AXIS_MAG` (with the polarity of the deflection), or a hat switch
/// pushed straight in one direction.
pub open spec fn event_source(event: RawEvent) -> Option<InputSource> {
    match event {
        RawEvent::JoystickButtonEvent(id, button_id, ButtonState::Pressed) => Some(
            InputSource::HidButton(id, button_id),
        ),
        RawEvent::JoystickAxisEvent(id, axis_id, value) => if value > MIN_LISTENABLE_AXIS_MAG {
            Some(InputSource::HidAxis(id, axis_id, AxisSign::Plus))
        } else if value < -MIN_LISTENABLE_AXIS_MAG {
            Some(InputSource::HidAxis(id, axis_id, AxisSign::Minus))
        } else {
            None
        },
        RawEvent::JoystickHatSwitchEvent(id, hatswitch) => match HidHatSwitchId::spec_from_hatswitch(
            hatswitch,
        ) {
            Some(hat_id) => Some(InputSource::HidHatSwitch(id, hat_id)),
            None => None,
        },
        _ => None,
    }
}

/// The source of the first event of `events` that names one.
pub open spec fn first_event_source(events: Seq<RawEvent>) -> Option<InputSource>
    decreases events.len(),
{
    if events.len() == 0 {
        None
    } else {
        match event_source(events[0]) {
            Some(source) => Some(source),
            None => first_event_source(events.drop_first()),
        }
    }
}

pub fn source_of_event(event: RawEvent) -> (r: Option<InputSource>)
    ensures
        r == event_source(event),
{
    match event {
        RawEvent::JoystickButtonEvent(id, button_id, ButtonState::Pressed) => Some(
            InputSource::HidButton(id, button_id),
        ),
        RawEvent::JoystickAxisEvent(id, axis_id, value) => {
            if value > MIN_LISTENABLE_AXIS_MAG {
                Some(InputSource::HidAxis(id, axis_id, AxisSign::Plus))
            } else if value < -MIN_LISTENABLE_AXIS_MAG {
                Some(InputSource::HidAxis(id, axis_id, AxisSign::Minus))
            } else {
                None
            }
        },
        RawEvent::JoystickHatSwitchEvent(id, hatswitch) => {
            match HidHatSwitchId::from_multiinput_hatswitch(hatswitch) {
                Some(hat_id) => Some(InputSource::HidHatSwitch(id, hat_id)),
                None => None,
            }
        },
        _ => None,
    }
}

/// A raw HID driver as the engine sees it.
pub trait RawInputReader: Sized {
    /// What `listen` returns now.
    spec fn heard_source(&self) -> Option<InputSource>;

    /// What `poll_hid_button` returns now.
    spec fn hid_button_value(&self, id: HidId, button_id: HidButtonId) -> Option<InputValue>;

    /// What `poll_hid_axis` returns now.
    spec fn hid_axis_value(&self, id: HidId, axis_id: HidAxisId, sign: AxisSign) -> Option<
        InputValue,
    >;

    /// What `poll_hid_hatswitch` returns now.
    spec fn hid_hatswitch_value(&self, id: HidId, hat_id: HidHatSwitchId) -> Option<InputValue>;

    /// `self` is what an update makes of `before`.
    spec fn refreshed_from(&self, before: Self) -> bool;

    /// Takes in the events and device states received since the last update.
    fn update(&mut self)
        ensures
            final(self).refreshed_from(*old(self)),
    ;

    /// The source named by the first qualifying event of this update; the update's other
    /// events are dropped.
    fn listen(&mut self) -> (r: Option<InputSource>)
        ensures
            r == old(self).heard_source(),
            final(self).heard_source() is None,
            forall|id: HidId, b: HidButtonId| #[trigger]
                final(self).hid_button_value(id, b) == old(self).hid_button_value(id, b),
            forall|id: HidId, a: HidAxisId, s: AxisSign| #[trigger]
                final(self).hid_axis_value(id, a, s) == old(self).hid_axis_value(id, a, s),
            forall|id: HidId, h: HidHatSwitchId| #[trigger]
                final(self).hid_hatswitch_value(id, h) == old(self).hid_hatswitch_value(id, h),
    ;

    fn num_joysticks(&self) -> usize;

    fn poll_hid_button(&mut self, id: &HidId, button_id: &HidButtonId) -> (r: Option<InputValue>)
        ensures
            r == old(self).hid_button_value(*id, *button_id),
            is_button_value(r),
            *final(self) == *old(self),
    ;

    fn poll_hid_axis(&mut self, id: &HidId, axis_id: &HidAxisId, sign: &AxisSign) -> (r: Option<
        InputValue,
    >)
        ensures
            r == old(self).hid_axis_value(*id, *axis_id, *sign),
            is_axis_magnitude(r),
            *final(self) == *old(self),
    ;

    fn poll_hid_hatswitch(&mut self, id: &HidId, hat_id: &HidHatSwitchId) -> (r: Option<
        InputValue,
    >)
        ensures
            r == old(self).hid_hatswitch_value(*id, *hat_id),
            is_button_value(r),
            *final(self) == *old(self),
    ;
}

/// A driver for platforms without raw HID input: it hears nothing and has no devices.
pub struct NoopRawInput;

impl RawInputReader for NoopRawInput {
    open spec fn heard_source(&self) -> Option<InputSource> {
        None
    }

    open spec fn hid_button_value(&self, id: HidId, button_id: HidButtonId) -> Option<InputValue> {
        None
    }

    open spec fn hid_axis_value(&self, id: HidId, axis_id: HidAxisId, sign: AxisSign) -> Option<
        InputValue,
    > {
        None
    }

    open spec fn hid_hatswitch_value(&self, id: HidId, hat_id: HidHatSwitchId) -> Option<
        InputValue,
    > {
        None
    }

    open spec fn refreshed_from(&self, before: Self) -> bool {
        true
    }

    fn update(&mut self) {
    }

    fn listen(&mut self) -> (r: Option<InputSource>) {
        None
    }

    fn num_joysticks(&self) -> (r: usize)
        ensures
            r == 0,
    {
        0
    }

    fn poll_hid_button(&mut self, id: &HidId, button_id: &HidButtonId) -> (r: Option<InputValue>) {
        None
    }

    fn poll_hid_axis(&mut self, id: &HidId, axis_id: &HidAxisId, sign: &AxisSign) -> (r: Option<
        InputValue,
    >) {
        None
    }

    fn poll_hid_hatswitch(&mut self, id: &HidId, hat_id: &HidHatSwitchId) -> (r: Option<
        InputValue,
    >) {
        None
    }
}

/// A raw HID driver fed with the events and device states that the platform reports.
///
/// Events and states received between two updates wait in a buffer; `update` takes them in,
/// after which `listen` and the polls read them.
pub struct RawInput {
    pending_events: Vec<RawEvent>,
    pending_states: Option<Vec<Option<JoystickState>>>,
    events: Vec<RawEvent>,
    devices: Vec<Option<JoystickState>>,
}

impl RawInput {
    /// Events received since the last update.
    pub closed spec fn pending_events(&self) -> Seq<RawEvent> {
        self.pending_events@
    }

    /// Device states received since the last update, if any were.
    pub closed spec fn pending_states(&self) -> Option<Seq<Option<JoystickState>>> {
        match self.pending_states {
            Some(states) => Some(states@),
            None => None,
        }
    }

    /// The events taken in by the last update that `listen` has not dropped.
    pub closed spec fn tick_events(&self) -> Seq<RawEvent> {
        self.events@
    }

    /// The device states taken in by the updates so far, by device id.
    pub closed spec fn device_states(&self) -> Seq<Option<JoystickState>> {
        self.devices@
    }

    /// The state of device `id`, if it is known.
    pub open spec fn device(&self, id: HidId) -> Option<JoystickState> {
        if id < self.device_states().len() {
            self.device_states()[id as int]
        } else {
            None
        }
    }

    /// A driver that has received nothing.
    pub fn new() -> (r: RawInput)
        ensures
            r.pending_events() == Seq::<RawEvent>::empty(),
            r.pending_states() is None,
            r.tick_events() == Seq::<RawEvent>::empty(),
            r.device_states() == Seq::<Option<JoystickState>>::empty(),
    {
        RawInput {
            pending_events: Vec::new(),
            pending_states: None,
            events: Vec::new(),
            devices: Vec::new(),
        }
    }

    /// Records an event reported by the platform.
    pub fn push_event(&mut self, event: RawEvent)
        ensures
            final(self).pending_events() == old(self).pending_events().push(event),
            final(self).pending_states() == old(self).pending_states(),
            final(self).tick_events() == old(self).tick_events(),
            final(self).device_states() == old(self).device_states(),
    {
        self.pending_events.push(event);
    }

    /// Records the current state of every device, by device id.
    pub fn set_device_states(&mut self, states: Vec<Option<JoystickState>>)
        ensures
            final(self).pending_events() == old(self).pending_events(),
            final(self).pending_states() == Some(states@),
            final(self).tick_events() == old(self).tick_events(),
            final(self).device_states() == old(self).device_states(),
    {
        self.pending_states = Some(states);
    }
}

impl Default for RawInput {
    fn default() -> (r: RawInput)
        ensures
            r.pending_events() == Seq::<RawEvent>::empty(),
            r.pending_states() is None,
            r.tick_events() == Seq::<RawEvent>::empty(),
            r.device_states() == Seq::<Option<JoystickState>>::empty(),
    {
        RawInput::new()
    }
}

impl RawInputReader for RawInput {
    open spec fn heard_source(&self) -> Option<InputSource> {
        first_event_source(self.tick_events())
    }

    open spec fn hid_button_value(&self, id: HidId, button_id: HidButtonId) -> Option<InputValue> {
        match self.device(id) {
            Some(js) => if button_id < js.button_states.len() {
                Some(InputValue::Button(js.button_states@[button_id as int]))
            } else {
                None
            },
            None => None,
        }
    }

    open spec fn hid_axis_value(&self, id: HidId, axis_id: HidAxisId, sign: AxisSign) -> Option<
        InputValue,
    > {
        match self.device(id) {
            Some(js) => match js.axis_states.spec_get(axis_id) {
                Some(v) => Some(InputValue::Axis(sign.spec_clamp(v as int) as i32)),
                None => None,
            },
            None => None,
        }
    }

    open spec fn hid_hatswitch_value(&self, id: HidId, hat_id: HidHatSwitchId) -> Option<
        InputValue,
    > {
        match self.device(id) {
            Some(js) => match js.hatswitch {
                Some(hatswitch) => Some(InputValue::Button(hat_direction_down(hatswitch, hat_id))),
                None => None,
            },
            None => None,
        }
    }

    /// The update takes in the pending events as this tick's events, and the pending
    /// device states, if any, as the known ones.
    open spec fn refreshed_from(&self, before: Self) -> bool {
        &&& self.tick_events() == before.pending_events()
        &&& self.pending_events() == Seq::<RawEvent>::empty()
        &&& self.device_states() == match before.pending_states() {
            Some(states) => states,
            None => before.device_states(),
        }
        &&& self.pending_states() is None
    }

    fn update(&mut self) {
        let mut received: Vec<RawEvent> = Vec::new();
        std::mem::swap(&mut self.pending_events, &mut received);
        self.events = received;
        match self.pending_states.take() {
            Some(states) => {
                self.devices = states;
            },
            None => {},
        }
    }

    fn listen(&mut self) -> (r: Option<InputSource>)
        ensures
            final(self).tick_events() == Seq::<RawEvent>::empty(),
            final(self).device_states() == old(self).device_states(),
            final(self).pending_events() == old(self).pending_events(),
            final(self).pending_states() == old(self).pending_states(),
    {
        let n = self.events.len();
        let mut i: usize = 0;
        assert(self.events@.subrange(0, n as int) =~= self.events@);
        while i < n
            invariant
                n == self.events.len(),
                i <= n,
                self.events@ == old(self).events@,
                self.devices@ == old(self).devices@,
                self.pending_events@ == old(self).pending_events@,
                self.pending_states == old(self).pending_states,
                first_event_source(self.events@) == first_event_source(self.events@.subrange(i as int, n as int)),
            decreases n - i,
        {
            let ghost rest = self.events@.subrange(i as int, n as int);
            assert(rest.drop_first() =~= self.events@.subrange(i + 1, n as int));
            let heard = source_of_event(self.events[i]);
            if heard.is_some() {
                self.events.clear();
                return heard;
            }
            i = i + 1;
        }
        assert(self.events@.subrange(n as int, n as int) =~= Seq::<RawEvent>::empty());
        self.events.clear();
        None
    }

    fn num_joysticks(&self) -> (r: usize)
        ensures
            r == self.device_states().len(),
    {
        self.devices.len()
    }

    fn poll_hid_button(&mut self, id: &HidId, button_id: &HidButtonId) -> (r: Option<InputValue>) {
        if *id < self.devices.len() {
            match &self.devices[*id] {
                Some(js) => {
                    if *button_id < js.button_states.len() {
                        Some(InputValue::Button(js.button_states[*button_id]))
                    } else {
                        None
                    }
                },
                None => None,
            }
        } else {
            None
        }
    }

    fn poll_hid_axis(&mut self, id: &HidId, axis_id: &HidAxisId, sign: &AxisSign) -> (r: Option<
        InputValue,
    >) {
        if *id < self.devices.len() {
            match &self.devices[*id] {
                Some(js) => {
                    match js.axis_states.get(*axis_id) {
                        Some(v) => Some(InputValue::Axis(sign.clamp_axis(v))),
                        None => None,
                    }
                },
                None => None,
            }
        } else {
            None
        }
    }

    fn poll_hid_hatswitch(&mut self, id: &HidId, hat_id: &HidHatSwitchId) -> (r: Option<
        InputValue,
    >) {
        if *id < self.devices.len() {
            match &self.devices[*id] {
                Some(js) => {
                    match js.hatswitch {
                        Some(hatswitch) => Some(
                            InputValue::Button(is_hat_direction_down(hatswitch, *hat_id)),
                        ),
                        None => None,
                    }
                },
                None => None,
            }
        } else {
            None
        }
    }
}

} // verus!
