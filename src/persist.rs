use vstd::prelude::*;

use crate::input::{
    decimal_text, AxisSign, GamepadAxis, GamepadButton, HidAxisId, HidHatSwitchId, InputSource,
    KeyCode,
};
use crate::layout::{ControllerKey, ControllerLayoutsRes, Ps2Key, NUM_PS2_KEYS};

verus! {

/// One stored binding: the key's position in display order, the kind of source, and up to
/// three fields of the source (unused fields are zero).
pub type BindingRecord = (u64, u64, u64, u64, u64);

/// Why a layout file could not be written or read.
#[derive(Clone, Copy, PartialEq, Eq, Structural, Debug)]
pub enum LayoutFileError {
    /// The JSON text is not an array of five-integer arrays.
    Json,
    /// A record names no key or no source.
    InvalidRecord,
}

pub open spec fn sign_code(sign: AxisSign) -> u64 {
    match sign {
        AxisSign::Plus => 0,
        AxisSign::Minus => 1,
    }
}

pub open spec fn sign_of_code(c: u64) -> Option<AxisSign> {
    if c == 0 {
        Some(AxisSign::Plus)
    } else if c == 1 {
        Some(AxisSign::Minus)
    } else {
        None
    }
}

pub open spec fn hid_axis_code(axis: HidAxisId) -> u64 {
    match axis {
        HidAxisId::X => 0,
        HidAxisId::Y => 1,
        HidAxisId::Z => 2,
        HidAxisId::RX => 3,
        HidAxisId::RY => 4,
        HidAxisId::RZ => 5,
        HidAxisId::SLIDER => 6,
    }
}

pub open spec fn hid_axis_of_code(c: u64) -> Option<HidAxisId> {
    if c == 0 {
        Some(HidAxisId::X)
    } else if c == 1 {
        Some(HidAxisId::Y)
    } else if c == 2 {
        Some(HidAxisId::Z)
    } else if c == 3 {
        Some(HidAxisId::RX)
    } else if c == 4 {
        Some(HidAxisId::RY)
    } else if c == 5 {
        Some(HidAxisId::RZ)
    } else if c == 6 {
        Some(HidAxisId::SLIDER)
    } else {
        None
    }
}

pub open spec fn hat_code(hat: HidHatSwitchId) -> u64 {
    match hat {
        HidHatSwitchId::Center => 0,
        HidHatSwitchId::Up => 1,
        HidHatSwitchId::Right => 2,
        HidHatSwitchId::Down => 3,
        HidHatSwitchId::Left => 4,
    }
}

pub open spec fn hat_of_code(c: u64) -> Option<HidHatSwitchId> {
    if c == 0 {
        Some(HidHatSwitchId::Center)
    } else if c == 1 {
        Some(HidHatSwitchId::Up)
    } else if c == 2 {
        Some(HidHatSwitchId::Right)
    } else if c == 3 {
        Some(HidHatSwitchId::Down)
    } else if c == 4 {
        Some(HidHatSwitchId::Left)
    } else {
        None
    }
}

/// The record that stores `source` for the key at position `key_index`.
pub open spec fn source_record(key_index: u64, source: InputSource) -> BindingRecord {
    match source {
        InputSource::Key(KeyCode(code)) => (key_index, 0, code as u64, 0, 0),
        InputSource::Button(b) => (key_index, 1, b.gamepad as u64, b.button as u64, 0),
        InputSource::Axis(a, sign) => (key_index, 2, a.gamepad as u64, a.axis as u64, sign_code(sign)),
        InputSource::HidButton(id, button) => (key_index, 3, id as u64, button as u64, 0),
        InputSource::HidAxis(id, axis, sign) => (
            key_index,
            4,
            id as u64,
            hid_axis_code(axis),
            sign_code(sign),
        ),
        InputSource::HidHatSwitch(id, hat) => (key_index, 5, id as u64, hat_code(hat), 0),
    }
}

/// The key a record names.
pub open spec fn record_key(record: BindingRecord) -> Option<ControllerKey> {
    match Ps2Key::spec_from_index(record.0 as int) {
        Some(k) => Some(ControllerKey::Ps2(k)),
        None => None,
    }
}

/// The source a record names.
pub open spec fn record_source(record: BindingRecord) -> Option<InputSource> {
    let (_, kind, a, b, c) = record;
    if kind == 0 {
        if a <= u32::MAX {
            Some(InputSource::Key(KeyCode(a as u32)))
        } else {
            None
        }
    } else if kind == 1 {
        if a <= usize::MAX && b <= u32::MAX {
            Some(InputSource::Button(GamepadButton { gamepad: a as usize, button: b as u32 }))
        } else {
            None
        }
    } else if kind == 2 {
        if a <= usize::MAX && b <= u32::MAX && sign_of_code(c) is Some {
            Some(
                InputSource::Axis(
                    GamepadAxis { gamepad: a as usize, axis: b as u32 },
                    sign_of_code(c)->Some_0,
                ),
            )
        } else {
            None
        }
    } else if kind == 3 {
        if a <= usize::MAX && b <= usize::MAX {
            Some(InputSource::HidButton(a as usize, b as usize))
        } else {
            None
        }
    } else if kind == 4 {
        if a <= usize::MAX && hid_axis_of_code(b) is Some && sign_of_code(c) is Some {
            Some(InputSource::HidAxis(a as usize, hid_axis_of_code(b)->Some_0, sign_of_code(c)->Some_0))
        } else {
            None
        }
    } else if kind == 5 {
        if a <= usize::MAX && hat_of_code(b) is Some {
            Some(InputSource::HidHatSwitch(a as usize, hat_of_code(b)->Some_0))
        } else {
            None
        }
    } else {
        None
    }
}

/// Every record names a key and a source.
pub open spec fn records_valid(records: Seq<BindingRecord>) -> bool {
    forall|i: int|
        0 <= i < records.len() ==> #[trigger] record_key(records[i]) is Some && record_source(
            records[i],
        ) is Some
}

/// The source that `records` bind to `key`: that of the last record naming it.
pub open spec fn records_binding(records: Seq<BindingRecord>, key: ControllerKey) -> Option<InputSource>
    decreases records.len(),
{
    if records.len() == 0 {
        None
    } else if record_key(records.last()) == Some(key) {
        record_source(records.last())
    } else {
        records_binding(records.drop_last(), key)
    }
}

/// The records of the bindings of the first `n` keys, in display order.
pub open spec fn layout_records_upto(layouts: ControllerLayoutsRes, n: nat) -> Seq<BindingRecord>
    decreases n,
{
    if n == 0 {
        Seq::empty()
    } else {
        let prefix = layout_records_upto(layouts, (n - 1) as nat);
        match Ps2Key::spec_from_index(n - 1) {
            Some(k) => match layouts.binding(ControllerKey::Ps2(k)) {
                Some(source) => prefix.push(source_record((n - 1) as u64, source)),
                None => prefix,
            },
            None => prefix,
        }
    }
}

/// The records of every binding of `layouts`, in display order of the keys.
pub open spec fn layout_records(layouts: ControllerLayoutsRes) -> Seq<BindingRecord> {
    layout_records_upto(layouts, NUM_PS2_KEYS as nat)
}

/// The JSON text of one record: its five fields in decimal, in brackets, split by commas.
pub open spec fn record_json(record: BindingRecord) -> Seq<char> {
    let (k, kind, a, b, c) = record;
    "["@ + decimal_text(k as nat) + ","@ + decimal_text(kind as nat) + ","@ + decimal_text(a as nat)
        + ","@ + decimal_text(b as nat) + ","@ + decimal_text(c as nat) + "]"@
}

/// The JSON texts of `records`, split by commas.
pub open spec fn records_json_items(records: Seq<BindingRecord>) -> Seq<char>
    decreases records.len(),
{
    if records.len() == 0 {
        Seq::empty()
    } else if records.len() == 1 {
        record_json(records[0])
    } else {
        records_json_items(records.drop_last()) + ","@ + record_json(records.last())
    }
}

/// The compact JSON text that stores `records`: an array of five-integer arrays, without
/// spaces.
pub open spec fn json_of_records(records: Seq<BindingRecord>) -> Seq<char> {
    "["@ + records_json_items(records) + "]"@
}

/// The records that a JSON text stores, if it is an array of five-integer arrays.
pub uninterp spec fn records_of_json(text: Seq<char>) -> Option<Seq<BindingRecord>>;

#[verifier::external_type_specification]
#[verifier::external_body]
pub struct ExJsonError(serde_json::Error);

/// Relies on serde_json::to_string: writes the records as a compact JSON array of integer
/// arrays, with integers in plain decimal. Integers and tuples always serialize, and the text
/// is written into memory, so the call cannot fail.
#[verifier::external_body]
fn records_to_json(records: &Vec<BindingRecord>) -> (r: Result<String, serde_json::Error>)
    ensures
        r is Ok,
        r matches Ok(text) ==> text@ == json_of_records(records@),
{
    serde_json::to_string(records)
}

/// Relies on serde_json::from_str: reads a JSON array of five-integer arrays. The result
/// depends on the text alone; the compact text that serde_json::to_string writes for some
/// records reads back as those records.
#[verifier::external_body]
fn records_from_json(text: &str) -> (r: Result<Vec<BindingRecord>, serde_json::Error>)
    ensures
        r is Ok <==> records_of_json(text@) is Some,
        r matches Ok(records) ==> records_of_json(text@) == Some(records@),
        forall|records: Seq<BindingRecord>|
            #[trigger] json_of_records(records) == text@ ==> (r is Ok && r->Ok_0@ == records),
{
    serde_json::from_str(text)
}

/// The record that stores `source` for the key at position `key_index`.
pub fn source_to_record(key_index: u64, source: &InputSource) -> (r: BindingRecord)
    ensures
        r == source_record(key_index, *source),
{
    match *source {
        InputSource::Key(KeyCode(code)) => (key_index, 0, code as u64, 0, 0),
        InputSource::Button(b) => (key_index, 1, b.gamepad as u64, b.button as u64, 0),
        InputSource::Axis(a, sign) => {
            let c: u64 = match sign {
                AxisSign::Plus => 0,
                AxisSign::Minus => 1,
            };
            (key_index, 2, a.gamepad as u64, a.axis as u64, c)
        },
        InputSource::HidButton(id, button) => (key_index, 3, id as u64, button as u64, 0),
        InputSource::HidAxis(id, axis, sign) => {
            let b: u64 = match axis {
                HidAxisId::X => 0,
                HidAxisId::Y => 1,
                HidAxisId::Z => 2,
                HidAxisId::RX => 3,
                HidAxisId::RY => 4,
                HidAxisId::RZ => 5,
                HidAxisId::SLIDER => 6,
            };
            let c: u64 = match sign {
                AxisSign::Plus => 0,
                AxisSign::Minus => 1,
            };
            (key_index, 4, id as u64, b, c)
        },
        InputSource::HidHatSwitch(id, hat) => {
            let b: u64 = match hat {
                HidHatSwitchId::Center => 0,
                HidHatSwitchId::Up => 1,
                HidHatSwitchId::Right => 2,
                HidHatSwitchId::Down => 3,
                HidHatSwitchId::Left => 4,
            };
            (key_index, 5, id as u64, b, 0)
        },
    }
}

fn sign_from_code(c: u64) -> (r: Option<AxisSign>)
    ensures
        r == sign_of_code(c),
{
    if c == 0 {
        Some(AxisSign::Plus)
    } else if c == 1 {
        Some(AxisSign::Minus)
    } else {
        None
    }
}

fn hid_axis_from_code(c: u64) -> (r: Option<HidAxisId>)
    ensures
        r == hid_axis_of_code(c),
{
    if c == 0 {
        Some(HidAxisId::X)
    } else if c == 1 {
        Some(HidAxisId::Y)
    } else if c == 2 {
        Some(HidAxisId::Z)
    } else if c == 3 {
        Some(HidAxisId::RX)
    } else if c == 4 {
        Some(HidAxisId::RY)
    } else if c == 5 {
        Some(HidAxisId::RZ)
    } else if c == 6 {
        Some(HidAxisId::SLIDER)
    } else {
        None
    }
}

fn hat_from_code(c: u64) -> (r: Option<HidHatSwitchId>)
    ensures
        r == hat_of_code(c),
{
    if c == 0 {
        Some(HidHatSwitchId::Center)
    } else if c == 1 {
        Some(HidHatSwitchId::Up)
    } else if c == 2 {
        Some(HidHatSwitchId::Right)
    } else if c == 3 {
        Some(HidHatSwitchId::Down)
    } else if c == 4 {
        Some(HidHatSwitchId::Left)
    } else {
        None
    }
}

/// The source a record names, if it names one.
pub fn record_to_source(record: &BindingRecord) -> (r: Option<InputSource>)
    ensures
        r == record_source(*record),
{
    let (_, kind, a, b, c) = *record;
    if kind == 0 {
        if a <= u32::MAX as u64 {
            Some(InputSource::Key(KeyCode(a as u32)))
        } else {
            None
        }
    } else if kind == 1 {
        if a <= usize::MAX as u64 && b <= u32::MAX as u64 {
            Some(InputSource::Button(GamepadButton { gamepad: a as usize, button: b as u32 }))
        } else {
            None
        }
    } else if kind == 2 {
        match sign_from_code(c) {
            Some(sign) => {
                if a <= usize::MAX as u64 && b <= u32::MAX as u64 {
                    Some(
                        InputSource::Axis(GamepadAxis { gamepad: a as usize, axis: b as u32 }, sign),
                    )
                } else {
                    None
                }
            },
            None => None,
        }
    } else if kind == 3 {
        if a <= usize::MAX as u64 && b <= usize::MAX as u64 {
            Some(InputSource::HidButton(a as usize, b as usize))
        } else {
            None
        }
    } else if kind == 4 {
        match (hid_axis_from_code(b), sign_from_code(c)) {
            (Some(axis), Some(sign)) => {
                if a <= usize::MAX as u64 {
                    Some(InputSource::HidAxis(a as usize, axis, sign))
                } else {
                    None
                }
            },
            _ => None,
        }
    } else if kind == 5 {
        match hat_from_code(b) {
            Some(hat) => {
                if a <= usize::MAX as u64 {
                    Some(InputSource::HidHatSwitch(a as usize, hat))
                } else {
                    None
                }
            },
            None => None,
        }
    } else {
        None
    }
}

/// The key a record names, if it names one.
pub fn record_to_key(record: &BindingRecord) -> (r: Option<ControllerKey>)
    ensures
        r == record_key(*record),
{
    if record.0 < NUM_PS2_KEYS as u64 {
        match Ps2Key::from_index(record.0 as usize) {
            Some(k) => Some(ControllerKey::Ps2(k)),
            None => None,
        }
    } else {
        None
    }
}

/// The records of every binding of `layouts`, in display order of the keys.
pub fn records_from_layouts(layouts: &ControllerLayoutsRes) -> (r: Vec<BindingRecord>)
    ensures
        r@ == layout_records(*layouts),
{
    let mut records: Vec<BindingRecord> = Vec::new();
    let mut i: usize = 0;
    while i < NUM_PS2_KEYS
        invariant
            i <= NUM_PS2_KEYS,
            records@ == layout_records_upto(*layouts, i as nat),
        decreases NUM_PS2_KEYS - i,
    {
        match Ps2Key::from_index(i) {
            Some(k) => {
                match layouts.get_binding(ControllerKey::Ps2(k)) {
                    Some(source) => {
                        records.push(source_to_record(i as u64, &source));
                    },
                    None => {},
                }
            },
            None => {},
        }
        i = i + 1;
    }
    records
}

/// The layouts that `records` store, applied in order onto an empty layout; fails when a
/// record names no key or no source.
pub fn layouts_from_records(records: &Vec<BindingRecord>) -> (r: Result<ControllerLayoutsRes, LayoutFileError>)
    ensures
        r is Ok <==> records_valid(records@),
        r is Err ==> r == Err::<ControllerLayoutsRes, LayoutFileError>(LayoutFileError::InvalidRecord),
        r matches Ok(layouts) ==> forall|k: ControllerKey| #[trigger] layouts.binding(k) == records_binding(records@, k),
{
    let mut layouts = ControllerLayoutsRes::new();
    let mut i: usize = 0;
    while i < records.len()
        invariant
            i <= records.len(),
            records_valid(records@.subrange(0, i as int)),
            forall|k: ControllerKey| #[trigger] layouts.binding(k) == records_binding(records@.subrange(0, i as int), k),
        decreases records.len() - i,
    {
        let ghost prefix = records@.subrange(0, i as int);
        let ghost next = records@.subrange(0, i + 1);
        assert(next.drop_last() =~= prefix);
        assert(next.last() == records@[i as int]);
        match (record_to_key(&records[i]), record_to_source(&records[i])) {
            (Some(key), Some(source)) => {
                layouts.set_binding(key, &source);
                assert forall|j: int| 0 <= j < next.len() implies #[trigger] record_key(next[j]) is Some
                    && record_source(next[j]) is Some by {
                    if j < i {
                        assert(next[j] == prefix[j]);
                    }
                }
            },
            _ => {
                assert(!records_valid(records@)) by {
                    assert(record_key(records@[i as int]) is None || record_source(records@[i as int]) is None);
                }
                return Err(LayoutFileError::InvalidRecord);
            },
        }
        i = i + 1;
    }
    assert(records@.subrange(0, i as int) =~= records@);
    Ok(layouts)
}

/// The JSON text of a layout file that stores `layouts`.
pub fn encode_layouts(layouts: &ControllerLayoutsRes) -> (r: Result<String, LayoutFileError>)
    ensures
        r is Ok,
        r matches Ok(text) ==> text@ == json_of_records(layout_records(*layouts)),
{
    let records = records_from_layouts(layouts);
    match records_to_json(&records) {
        Ok(text) => Ok(text),
        Err(_) => Err(LayoutFileError::Json),
    }
}

/// The layouts that the JSON text of a layout file stores.
pub fn decode_layouts(text: &str) -> (r: Result<ControllerLayoutsRes, LayoutFileError>)
    ensures
        match records_of_json(text@) {
            None => r == Err::<ControllerLayoutsRes, LayoutFileError>(LayoutFileError::Json),
            Some(records) => {
                &&& r is Ok <==> records_valid(records)
                &&& r is Err ==> r == Err::<ControllerLayoutsRes, LayoutFileError>(
                    LayoutFileError::InvalidRecord,
                )
                &&& r matches Ok(layouts) ==> forall|k: ControllerKey| #[trigger]
                    layouts.binding(k) == records_binding(records, k)
            },
        },
        forall|written: ControllerLayoutsRes|
            #[trigger] json_of_records(layout_records(written)) == text@ ==> (r is Ok && forall|
                k: ControllerKey,
            | #[trigger] r->Ok_0.binding(k) == written.binding(k)),
{
    let parsed = records_from_json(text);
    let r = match &parsed {
        Ok(records) => layouts_from_records(records),
        Err(_) => Err(LayoutFileError::Json),
    };
    assert forall|written: ControllerLayoutsRes|
        #[trigger] json_of_records(layout_records(written)) == text@ implies (r is Ok && forall|
            k: ControllerKey,
        | #[trigger] r->Ok_0.binding(k) == written.binding(k)) by {
        lemma_layout_records_round_trip(written);
    }
    r
}

/// Reading back the record of a binding gives the key and the source.
pub proof fn lemma_source_record_round_trip(key: Ps2Key, source: InputSource)
    ensures
        record_key(source_record(key.spec_index() as u64, source)) == Some(ControllerKey::Ps2(key)),
        record_source(source_record(key.spec_index() as u64, source)) == Some(source),
{
}

/// What the records of the first `n` keys bind: each of those keys to its source in the
/// layout, every later key to nothing.
proof fn lemma_layout_records_upto(layouts: ControllerLayoutsRes, n: nat)
    requires
        n <= NUM_PS2_KEYS,
    ensures
        records_valid(layout_records_upto(layouts, n)),
        forall|k: Ps2Key|
            #[trigger] records_binding(layout_records_upto(layouts, n), ControllerKey::Ps2(k)) == if k.spec_index() < n {
                layouts.binding(ControllerKey::Ps2(k))
            } else {
                None
            },
    decreases n,
{
    if n > 0 {
        let m = (n - 1) as nat;
        lemma_layout_records_upto(layouts, m);
        let prefix = layout_records_upto(layouts, m);
        let key = Ps2Key::spec_from_index(m as int)->Some_0;
        assert(key.spec_index() == m);
        match layouts.binding(ControllerKey::Ps2(key)) {
            Some(source) => {
                let rec = source_record(m as u64, source);
                lemma_source_record_round_trip(key, source);
                let all = prefix.push(rec);
                assert(all.drop_last() =~= prefix);
                assert forall|i: int| 0 <= i < all.len() implies #[trigger] record_key(all[i]) is Some
                    && record_source(all[i]) is Some by {
                    if i < prefix.len() {
                        assert(all[i] == prefix[i]);
                    }
                }
                assert forall|k: Ps2Key| #[trigger]
                    records_binding(all, ControllerKey::Ps2(k)) == if k.spec_index() < n {
                        layouts.binding(ControllerKey::Ps2(k))
                    } else {
                        None
                    } by {
                    if k != key {
                        assert(k.spec_index() != key.spec_index());
                        assert(records_binding(prefix, ControllerKey::Ps2(k)) == if k.spec_index() < m {
                            layouts.binding(ControllerKey::Ps2(k))
                        } else {
                            None
                        });
                    }
                }
            },
            None => {
                assert forall|k: Ps2Key| #[trigger]
                    records_binding(prefix, ControllerKey::Ps2(k)) == if k.spec_index() < n {
                        layouts.binding(ControllerKey::Ps2(k))
                    } else {
                        None
                    } by {
                    if k == key {
                    } else {
                        assert(k.spec_index() != key.spec_index());
                    }
                }
            },
        }
    }
}

/// Reading back the records of a layout gives every key the binding it has in the layout.
pub proof fn lemma_layout_records_round_trip(layouts: ControllerLayoutsRes)
    ensures
        records_valid(layout_records(layouts)),
        forall|k: ControllerKey| #[trigger] records_binding(layout_records(layouts), k) == layouts.binding(k),
{
    lemma_layout_records_upto(layouts, NUM_PS2_KEYS as nat);
    assert forall|k: ControllerKey| #[trigger] records_binding(layout_records(layouts), k) == layouts.binding(k) by {
        let ControllerKey::Ps2(p) = k;
        assert(records_binding(layout_records_upto(layouts, NUM_PS2_KEYS as nat), ControllerKey::Ps2(p)) == layouts.binding(ControllerKey::Ps2(p)));
    }
}

} // verus!
