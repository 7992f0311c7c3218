use vstd::prelude::*;

verus! {

/// Index of a raw HID device.
pub type HidId = usize;

/// Index of a button on a raw HID device.
pub type HidButtonId = usize;

/// Analog positions are fixed-point: `AXIS_UNIT` stands for a full deflection.
pub const AXIS_UNIT: i32 = 1_000_000;

/// The smallest axis magnitude that is not ignored when listening for axis input.
pub const MIN_LISTENABLE_AXIS_MAG: i32 = 400_000;

/// Number of axes per gamepad that are scanned when listening for input.
pub const NUM_GAMEPAD_AXES: u32 = 8;

/// A keyboard key, by its key code.
#[derive(Clone, Copy, PartialEq, Eq, Structural, Hash, Debug)]
pub struct KeyCode(pub u32);

/// A digital button of a gamepad: the gamepad's index and the button's index.
#[derive(Clone, Copy, PartialEq, Eq, Structural, Hash, Debug)]
pub struct GamepadButton {
    pub gamepad: usize,
    pub button: u32,
}

/// An analog axis of a gamepad: the gamepad's index and the axis's index.
#[derive(Clone, Copy, PartialEq, Eq, Structural, Hash, Debug)]
pub struct GamepadAxis {
    pub gamepad: usize,
    pub axis: u32,
}

/// A direction of a raw HID hat switch.
#[derive(Clone, Copy, PartialEq, Eq, Structural, Hash, Debug)]
pub enum HidHatSwitchId {
    Center,
    Up,
    Right,
    Down,
    Left,
}

/// An analog axis of a raw HID device.
#[derive(Clone, Copy, PartialEq, Eq, Structural, Hash, Debug)]
pub enum HidAxisId {
    X,
    Y,
    Z,
    RX,
    RY,
    RZ,
    SLIDER,
}

/// One polarity of a bidirectional analog axis.
#[derive(Clone, Copy, PartialEq, Eq, Structural, Hash, Debug)]
pub enum AxisSign {
    Plus,
    Minus,
}

/// `v` limited to `[lo, hi]`.
pub open spec fn clamp_int(v: int, lo: int, hi: int) -> int {
    if v < lo {
        lo
    } else if v > hi {
        hi
    } else {
        v
    }
}

impl AxisSign {
    /// The non-negative magnitude of `v` in this polarity.
    pub open spec fn spec_clamp(self, v: int) -> int {
        match self {
            AxisSign::Plus => clamp_int(v, 0, AXIS_UNIT as int),
            AxisSign::Minus => -clamp_int(v, -AXIS_UNIT, 0),
        }
    }

    /// Splits a signed axis position into this polarity's magnitude.
    pub fn clamp_axis(&self, axis_value: i32) -> (r: i32)
        ensures
            r == self.spec_clamp(axis_value as int),
            0 <= r <= AXIS_UNIT,
    {
        match self {
            AxisSign::Plus => {
                if axis_value < 0 {
                    0
                } else if axis_value > AXIS_UNIT {
                    AXIS_UNIT
                } else {
                    axis_value
                }
            },
            AxisSign::Minus => {
                if axis_value > 0 {
                    0
                } else if axis_value < -AXIS_UNIT {
                    AXIS_UNIT
                } else {
                    -axis_value
                }
            },
        }
    }
}

/// One concrete hardware input.
#[derive(Clone, Copy, PartialEq, Eq, Structural, Hash, Debug)]
pub enum InputSource {
    Key(KeyCode),
    Button(GamepadButton),
    Axis(GamepadAxis, AxisSign),
    HidButton(HidId, HidButtonId),
    HidAxis(HidId, HidAxisId, AxisSign),
    HidHatSwitch(HidId, HidHatSwitchId),
}

impl InputSource {
    /// The raw HID device a source belongs to, if it is a raw HID source.
    pub open spec fn spec_hid_id(self) -> Option<HidId> {
        match self {
            InputSource::HidButton(id, _) => Some(id),
            InputSource::HidAxis(id, _, _) => Some(id),
            InputSource::HidHatSwitch(id, _) => Some(id),
            _ => None,
        }
    }

    pub fn get_hid_id(&self) -> (r: Option<HidId>)
        ensures
            r == self.spec_hid_id(),
    {
        match self {
            InputSource::HidButton(id, _) => Some(*id),
            InputSource::HidAxis(id, _, _) => Some(*id),
            InputSource::HidHatSwitch(id, _) => Some(*id),
            _ => None,
        }
    }
}

/// The decimal digit `d`, as text.
pub open spec fn digit_text(d: int) -> Seq<char> {
    if d == 0 {
        "0"@
    } else if d == 1 {
        "1"@
    } else if d == 2 {
        "2"@
    } else if d == 3 {
        "3"@
    } else if d == 4 {
        "4"@
    } else if d == 5 {
        "5"@
    } else if d == 6 {
        "6"@
    } else if d == 7 {
        "7"@
    } else if d == 8 {
        "8"@
    } else {
        "9"@
    }
}

/// `n` written in decimal, without leading zeros.
pub open spec fn decimal_text(n: nat) -> Seq<char>
    decreases n,
{
    if n < 10 {
        digit_text(n as int)
    } else {
        decimal_text(n / 10) + digit_text((n % 10) as int)
    }
}

/// Appends `n` written in decimal to `out`.
pub fn push_decimal(out: &mut String, n: u64)
    ensures
        final(out)@ == old(out)@ + decimal_text(n as nat),
    decreases n,
{
    if n >= 10 {
        push_decimal(out, n / 10);
    }
    let d = n % 10;
    let ghost before = out@;
    if d == 0 {
        out.append("0");
    } else if d == 1 {
        out.append("1");
    } else if d == 2 {
        out.append("2");
    } else if d == 3 {
        out.append("3");
    } else if d == 4 {
        out.append("4");
    } else if d == 5 {
        out.append("5");
    } else if d == 6 {
        out.append("6");
    } else if d == 7 {
        out.append("7");
    } else if d == 8 {
        out.append("8");
    } else {
        out.append("9");
    }
    assert(out@ == before + digit_text(d as int));
    assert(out@ =~= old(out)@ + decimal_text(n as nat));
}

pub open spec fn hid_axis_name(axis: HidAxisId) -> Seq<char> {
    match axis {
        HidAxisId::X => "X"@,
        HidAxisId::Y => "Y"@,
        HidAxisId::Z => "Z"@,
        HidAxisId::RX => "RX"@,
        HidAxisId::RY => "RY"@,
        HidAxisId::RZ => "RZ"@,
        HidAxisId::SLIDER => "SLIDER"@,
    }
}

pub open spec fn hat_name(hat: HidHatSwitchId) -> Seq<char> {
    match hat {
        HidHatSwitchId::Center => "Center"@,
        HidHatSwitchId::Up => "Up"@,
        HidHatSwitchId::Right => "Right"@,
        HidHatSwitchId::Down => "Down"@,
        HidHatSwitchId::Left => "Left"@,
    }
}

pub open spec fn sign_name(sign: AxisSign) -> Seq<char> {
    match sign {
        AxisSign::Plus => "Plus"@,
        AxisSign::Minus => "Minus"@,
    }
}

/// The text shown for a source, shaped like its Rust value.
pub open spec fn source_text(source: InputSource) -> Seq<char> {
    match source {
        InputSource::Key(KeyCode(code)) => "Key(KeyCode("@ + decimal_text(code as nat) + "))"@,
        InputSource::Button(b) => "Button(GamepadButton { gamepad: "@ + decimal_text(b.gamepad as nat)
            + ", button: "@ + decimal_text(b.button as nat) + " })"@,
        InputSource::Axis(a, sign) => "Axis(GamepadAxis { gamepad: "@ + decimal_text(a.gamepad as nat)
            + ", axis: "@ + decimal_text(a.axis as nat) + " }, "@ + sign_name(sign) + ")"@,
        InputSource::HidButton(id, button) => "HidButton("@ + decimal_text(id as nat) + ", "@
            + decimal_text(button as nat) + ")"@,
        InputSource::HidAxis(id, axis, sign) => "HidAxis("@ + decimal_text(id as nat) + ", "@
            + hid_axis_name(axis) + ", "@ + sign_name(sign) + ")"@,
        InputSource::HidHatSwitch(id, hat) => "HidHatSwitch("@ + decimal_text(id as nat) + ", "@
            + hat_name(hat) + ")"@,
    }
}

fn push_hid_axis_name(out: &mut String, axis: HidAxisId)
    ensures
        final(out)@ == old(out)@ + hid_axis_name(axis),
{
    match axis {
        HidAxisId::X => out.append("X"),
        HidAxisId::Y => out.append("Y"),
        HidAxisId::Z => out.append("Z"),
        HidAxisId::RX => out.append("RX"),
        HidAxisId::RY => out.append("RY"),
        HidAxisId::RZ => out.append("RZ"),
        HidAxisId::SLIDER => out.append("SLIDER"),
    }
}

fn push_hat_name(out: &mut String, hat: HidHatSwitchId)
    ensures
        final(out)@ == old(out)@ + hat_name(hat),
{
    match hat {
        HidHatSwitchId::Center => out.append("Center"),
        HidHatSwitchId::Up => out.append("Up"),
        HidHatSwitchId::Right => out.append("Right"),
        HidHatSwitchId::Down => out.append("Down"),
        HidHatSwitchId::Left => out.append("Left"),
    }
}

fn push_sign_name(out: &mut String, sign: AxisSign)
    ensures
        final(out)@ == old(out)@ + sign_name(sign),
{
    match sign {
        AxisSign::Plus => out.append("Plus"),
        AxisSign::Minus => out.append("Minus"),
    }
}

impl InputSource {
    pub fn to_string(self) -> (r: String)
        ensures
            r@ == source_text(self),
    {
        let mut out = String::new();
        match self {
            InputSource::Key(KeyCode(code)) => {
                out.append("Key(KeyCode(");
                push_decimal(&mut out, code as u64);
                out.append("))");
            },
            InputSource::Button(b) => {
                out.append("Button(GamepadButton { gamepad: ");
                push_decimal(&mut out, b.gamepad as u64);
                out.append(", button: ");
                push_decimal(&mut out, b.button as u64);
                out.append(" })");
            },
            InputSource::Axis(a, sign) => {
                out.append("Axis(GamepadAxis { gamepad: ");
                push_decimal(&mut out, a.gamepad as u64);
                out.append(", axis: ");
                push_decimal(&mut out, a.axis as u64);
                out.append(" }, ");
                push_sign_name(&mut out, sign);
                out.append(")");
            },
            InputSource::HidButton(id, button) => {
                out.append("HidButton(");
                push_decimal(&mut out, id as u64);
                out.append(", ");
                push_decimal(&mut out, button as u64);
                out.append(")");
            },
            InputSource::HidAxis(id, axis, sign) => {
                out.append("HidAxis(");
                push_decimal(&mut out, id as u64);
                out.append(", ");
                push_hid_axis_name(&mut out, axis);
                out.append(", ");
                push_sign_name(&mut out, sign);
                out.append(")");
            },
            InputSource::HidHatSwitch(id, hat) => {
                out.append("HidHatSwitch(");
                push_decimal(&mut out, id as u64);
                out.append(", ");
                push_hat_name(&mut out, hat);
                out.append(")");
            },
        }
        assert(out@ =~= source_text(self));
        out
    }
}

/// The current value of an input: an analog magnitude in fixed point, or a button state.
#[derive(Clone, Copy, PartialEq, Eq, Structural, Debug)]
pub enum InputValue {
    Axis(i32),
    Button(bool),
}

/// No value, or a button state.
pub open spec fn is_button_value(v: Option<InputValue>) -> bool {
    match v {
        None => true,
        Some(InputValue::Button(_)) => true,
        Some(InputValue::Axis(_)) => false,
    }
}

/// No value, or an axis magnitude in `[0, AXIS_UNIT]`.
pub open spec fn is_axis_magnitude(v: Option<InputValue>) -> bool {
    match v {
        None => true,
        Some(InputValue::Axis(x)) => 0 <= x <= AXIS_UNIT,
        Some(InputValue::Button(_)) => false,
    }
}

/// Any axis magnitude in the value lies in `[0, AXIS_UNIT]`.
pub open spec fn magnitude_in_range(v: Option<InputValue>) -> bool {
    match v {
        Some(InputValue::Axis(x)) => 0 <= x <= AXIS_UNIT,
        _ => true,
    }
}

/// Splitting a position within one full deflection: each polarity's magnitude lies in
/// `[0, AXIS_UNIT]`; the magnitudes recompose the position; a position off center has exactly
/// one non-zero magnitude and the center has none; and a magnitude split again with `Plus`
/// is unchanged.
pub proof fn lemma_axis_split(v: int)
    requires
        -AXIS_UNIT <= v <= AXIS_UNIT,
    ensures
        0 <= AxisSign::Plus.spec_clamp(v) <= AXIS_UNIT,
        0 <= AxisSign::Minus.spec_clamp(v) <= AXIS_UNIT,
        AxisSign::Plus.spec_clamp(v) - AxisSign::Minus.spec_clamp(v) == v,
        v != 0 ==> (AxisSign::Plus.spec_clamp(v) != 0) != (AxisSign::Minus.spec_clamp(v) != 0),
        v == 0 ==> AxisSign::Plus.spec_clamp(v) == 0 && AxisSign::Minus.spec_clamp(v) == 0,
        AxisSign::Plus.spec_clamp(AxisSign::Plus.spec_clamp(v)) == AxisSign::Plus.spec_clamp(v),
        AxisSign::Plus.spec_clamp(AxisSign::Minus.spec_clamp(v)) == AxisSign::Minus.spec_clamp(v),
{
}

} // verus!
