use vstd::prelude::*;

use crate::input::InputSource;

verus! {

/// The buttons and analog stick half-axes of a PlayStation 2 style controller.
#[derive(Clone, Copy, PartialEq, Eq, Structural, Hash, Debug)]
pub enum Ps2Key {
    PadU,
    PadL,
    PadD,
    PadR,
    Select,
    Start,
    Square,
    Triangle,
    Circle,
    Cross,
    L1,
    L2,
    L3,
    R1,
    R2,
    R3,
    LeftPosX,
    LeftNegX,
    LeftPosY,
    LeftNegY,
    RightPosX,
    RightNegX,
    RightPosY,
    RightNegY,
}

/// Number of keys of a PS2 controller.
pub const NUM_PS2_KEYS: usize = 24;

/// The name shown to a user for a key.
pub open spec fn ps2_key_name(key: Ps2Key) -> Seq<char> {
    match key {
        Ps2Key::PadU => "DPad Up"@,
        Ps2Key::PadL => "DPad Left"@,
        Ps2Key::PadD => "DPad Down"@,
        Ps2Key::PadR => "DPad Right"@,
        Ps2Key::Select => "Select"@,
        Ps2Key::Start => "Start"@,
        Ps2Key::Square => "Square"@,
        Ps2Key::Triangle => "Triangle"@,
        Ps2Key::Circle => "Circle"@,
        Ps2Key::Cross => "X"@,
        Ps2Key::L1 => "L1"@,
        Ps2Key::L2 => "L2"@,
        Ps2Key::L3 => "L3"@,
        Ps2Key::R1 => "R1"@,
        Ps2Key::R2 => "R2"@,
        Ps2Key::R3 => "R3"@,
        Ps2Key::LeftPosX => "LS Right"@,
        Ps2Key::LeftNegX => "LS Left"@,
        Ps2Key::LeftPosY => "LS Up"@,
        Ps2Key::LeftNegY => "LS Down"@,
        Ps2Key::RightPosX => "RS Right"@,
        Ps2Key::RightNegX => "RS Left"@,
        Ps2Key::RightPosY => "RS Up"@,
        Ps2Key::RightNegY => "RS Down"@,
    }
}

impl Ps2Key {
    /// The position of a key in the controller's display order.
    pub open spec fn spec_index(self) -> nat {
        match self {
            Ps2Key::PadU => 0,
            Ps2Key::PadL => 1,
            Ps2Key::PadD => 2,
            Ps2Key::PadR => 3,
            Ps2Key::Select => 4,
            Ps2Key::Start => 5,
            Ps2Key::Square => 6,
            Ps2Key::Triangle => 7,
            Ps2Key::Circle => 8,
            Ps2Key::Cross => 9,
            Ps2Key::L1 => 10,
            Ps2Key::L2 => 11,
            Ps2Key::L3 => 12,
            Ps2Key::R1 => 13,
            Ps2Key::R2 => 14,
            Ps2Key::R3 => 15,
            Ps2Key::LeftPosX => 16,
            Ps2Key::LeftNegX => 17,
            Ps2Key::LeftPosY => 18,
            Ps2Key::LeftNegY => 19,
            Ps2Key::RightPosX => 20,
            Ps2Key::RightNegX => 21,
            Ps2Key::RightPosY => 22,
            Ps2Key::RightNegY => 23,
        }
    }

    /// The key at a position of the display order.
    pub open spec fn spec_from_index(i: int) -> Option<Ps2Key> {
        if i == 0 {
            Some(Ps2Key::PadU)
        } else if i == 1 {
            Some(Ps2Key::PadL)
        } else if i == 2 {
            Some(Ps2Key::PadD)
        } else if i == 3 {
            Some(Ps2Key::PadR)
        } else if i == 4 {
            Some(Ps2Key::Select)
        } else if i == 5 {
            Some(Ps2Key::Start)
        } else if i == 6 {
            Some(Ps2Key::Square)
        } else if i == 7 {
            Some(Ps2Key::Triangle)
        } else if i == 8 {
            Some(Ps2Key::Circle)
        } else if i == 9 {
            Some(Ps2Key::Cross)
        } else if i == 10 {
            Some(Ps2Key::L1)
        } else if i == 11 {
            Some(Ps2Key::L2)
        } else if i == 12 {
            Some(Ps2Key::L3)
        } else if i == 13 {
            Some(Ps2Key::R1)
        } else if i == 14 {
            Some(Ps2Key::R2)
        } else if i == 15 {
            Some(Ps2Key::R3)
        } else if i == 16 {
            Some(Ps2Key::LeftPosX)
        } else if i == 17 {
            Some(Ps2Key::LeftNegX)
        } else if i == 18 {
            Some(Ps2Key::LeftPosY)
        } else if i == 19 {
            Some(Ps2Key::LeftNegY)
        } else if i == 20 {
            Some(Ps2Key::RightPosX)
        } else if i == 21 {
            Some(Ps2Key::RightNegX)
        } else if i == 22 {
            Some(Ps2Key::RightPosY)
        } else if i == 23 {
            Some(Ps2Key::RightNegY)
        } else {
            None
        }
    }

    pub fn index(self) -> (r: usize)
        ensures
            r == self.spec_index(),
            r < NUM_PS2_KEYS,
            Ps2Key::spec_from_index(r as int) == Some(self),
    {
        match self {
            Ps2Key::PadU => 0,
            Ps2Key::PadL => 1,
            Ps2Key::PadD => 2,
            Ps2Key::PadR => 3,
            Ps2Key::Select => 4,
            Ps2Key::Start => 5,
            Ps2Key::Square => 6,
            Ps2Key::Triangle => 7,
            Ps2Key::Circle => 8,
            Ps2Key::Cross => 9,
            Ps2Key::L1 => 10,
            Ps2Key::L2 => 11,
            Ps2Key::L3 => 12,
            Ps2Key::R1 => 13,
            Ps2Key::R2 => 14,
            Ps2Key::R3 => 15,
            Ps2Key::LeftPosX => 16,
            Ps2Key::LeftNegX => 17,
            Ps2Key::LeftPosY => 18,
            Ps2Key::LeftNegY => 19,
            Ps2Key::RightPosX => 20,
            Ps2Key::RightNegX => 21,
            Ps2Key::RightPosY => 22,
            Ps2Key::RightNegY => 23,
        }
    }

    pub fn from_index(i: usize) -> (r: Option<Ps2Key>)
        ensures
            r == Ps2Key::spec_from_index(i as int),
            r is Some <==> i < NUM_PS2_KEYS,
            r matches Some(k) ==> k.spec_index() == i,
    {
        match i {
            0 => Some(Ps2Key::PadU),
            1 => Some(Ps2Key::PadL),
            2 => Some(Ps2Key::PadD),
            3 => Some(Ps2Key::PadR),
            4 => Some(Ps2Key::Select),
            5 => Some(Ps2Key::Start),
            6 => Some(Ps2Key::Square),
            7 => Some(Ps2Key::Triangle),
            8 => Some(Ps2Key::Circle),
            9 => Some(Ps2Key::Cross),
            10 => Some(Ps2Key::L1),
            11 => Some(Ps2Key::L2),
            12 => Some(Ps2Key::L3),
            13 => Some(Ps2Key::R1),
            14 => Some(Ps2Key::R2),
            15 => Some(Ps2Key::R3),
            16 => Some(Ps2Key::LeftPosX),
            17 => Some(Ps2Key::LeftNegX),
            18 => Some(Ps2Key::LeftPosY),
            19 => Some(Ps2Key::LeftNegY),
            20 => Some(Ps2Key::RightPosX),
            21 => Some(Ps2Key::RightNegX),
            22 => Some(Ps2Key::RightPosY),
            23 => Some(Ps2Key::RightNegY),
            _ => None,
        }
    }

    pub fn to_string(self) -> (r: String)
        ensures
            r@ == ps2_key_name(self),
    {
        match self {
            Ps2Key::PadU => "DPad Up".to_string(),
            Ps2Key::PadL => "DPad Left".to_string(),
            Ps2Key::PadD => "DPad Down".to_string(),
            Ps2Key::PadR => "DPad Right".to_string(),
            Ps2Key::Select => "Select".to_string(),
            Ps2Key::Start => "Start".to_string(),
            Ps2Key::Square => "Square".to_string(),
            Ps2Key::Triangle => "Triangle".to_string(),
            Ps2Key::Circle => "Circle".to_string(),
            Ps2Key::Cross => "X".to_string(),
            Ps2Key::L1 => "L1".to_string(),
            Ps2Key::L2 => "L2".to_string(),
            Ps2Key::L3 => "L3".to_string(),
            Ps2Key::R1 => "R1".to_string(),
            Ps2Key::R2 => "R2".to_string(),
            Ps2Key::R3 => "R3".to_string(),
            Ps2Key::LeftPosX => "LS Right".to_string(),
            Ps2Key::LeftNegX => "LS Left".to_string(),
            Ps2Key::LeftPosY => "LS Up".to_string(),
            Ps2Key::LeftNegY => "LS Down".to_string(),
            Ps2Key::RightPosX => "RS Right".to_string(),
            Ps2Key::RightNegX => "RS Left".to_string(),
            Ps2Key::RightPosY => "RS Up".to_string(),
            Ps2Key::RightNegY => "RS Down".to_string(),
        }
    }
}

/// A logical input slot, independent of the hardware that drives it.
#[derive(Clone, Copy, PartialEq, Eq, Structural, Hash, Debug)]
pub enum ControllerKey {
    Ps2(Ps2Key),
}

/// The name shown to a user for a controller key.
pub open spec fn controller_key_name(key: ControllerKey) -> Seq<char> {
    match key {
        ControllerKey::Ps2(k) => ps2_key_name(k),
    }
}

impl ControllerKey {
    pub fn to_string(&self) -> (r: String)
        ensures
            r@ == controller_key_name(*self),
    {
        match self {
            ControllerKey::Ps2(ps2_key) => ps2_key.to_string(),
        }
    }
}

/// The first position at or after `i` whose binding is `source`.
pub open spec fn first_slot_with(slots: Seq<Option<InputSource>>, source: InputSource, i: int) -> Option<int>
    decreases slots.len() - i,
{
    if i < 0 || i >= slots.len() {
        None
    } else if slots[i] == Some(source) {
        Some(i)
    } else {
        first_slot_with(slots, source, i + 1)
    }
}

/// What `first_slot_with` finds: the lowest matching position at or after `i`.
pub proof fn lemma_first_slot_with(slots: Seq<Option<InputSource>>, source: InputSource, i: int)
    requires
        0 <= i,
    ensures
        match first_slot_with(slots, source, i) {
            Some(j) => i <= j < slots.len() && slots[j] == Some(source) && forall|m: int|
                i <= m < j ==> slots[m] != Some(source),
            None => forall|m: int| i <= m < slots.len() ==> slots[m] != Some(source),
        },
    decreases slots.len() - i,
{
    if i < slots.len() && slots[i] != Some(source) {
        lemma_first_slot_with(slots, source, i + 1);
    }
}

/// A mapping from the keys of one kind of controller to their bound input sources.
pub trait ControllerLayout<K> {
    /// The source bound to `key`, if any.
    spec fn binding(&self, key: K) -> Option<InputSource>;

    /// The key that `is_source_bound` reports for `source`.
    spec fn bound_key(&self, source: InputSource) -> Option<ControllerKey>;

    fn get_binding(&self, key: K) -> (r: Option<InputSource>)
        ensures
            r == self.binding(key),
    ;

    fn set_binding(&mut self, key: K, source: &InputSource)
        ensures
            final(self).binding(key) == Some(*source),
            forall|k: K| k != key ==> final(self).binding(k) == old(self).binding(k),
    ;

    fn is_source_bound(&self, source: &InputSource) -> (r: Option<ControllerKey>)
        ensures
            r == self.bound_key(*source),
    ;

    fn get_max_key(&self) -> usize;
}

/// The bindings of a PS2 controller: one optional source per key, held in a slot per key in
/// display order, so that the reverse lookup scans the keys in a fixed order.
pub struct Ps2Layout {
    slots: Vec<Option<InputSource>>,
}

impl Ps2Layout {
    /// A layout with no key bound.
    pub fn new() -> (r: Ps2Layout)
        ensures
            forall|k: Ps2Key| r.binding(k) is None,
    {
        Ps2Layout { slots: Vec::new() }
    }
}

impl Default for Ps2Layout {
    fn default() -> (r: Ps2Layout)
        ensures
            forall|k: Ps2Key| r.binding(k) is None,
    {
        Ps2Layout::new()
    }
}

impl ControllerLayout<Ps2Key> for Ps2Layout {
    closed spec fn binding(&self, key: Ps2Key) -> Option<InputSource> {
        if key.spec_index() < self.slots.len() {
            self.slots@[key.spec_index() as int]
        } else {
            None
        }
    }

    /// The lowest key, in display order, that is bound to `source`.
    closed spec fn bound_key(&self, source: InputSource) -> Option<ControllerKey> {
        match first_slot_with(self.slots@, source, 0) {
            Some(i) => match Ps2Key::spec_from_index(i) {
                Some(k) => Some(ControllerKey::Ps2(k)),
                None => None,
            },
            None => None,
        }
    }

    fn get_binding(&self, key: Ps2Key) -> (r: Option<InputSource>) {
        let i = key.index();
        if i < self.slots.len() {
            self.slots[i]
        } else {
            None
        }
    }

    fn set_binding(&mut self, key: Ps2Key, source: &InputSource) {
        let i = key.index();
        while self.slots.len() <= i
            invariant
                i < NUM_PS2_KEYS,
                old(self).slots.len() <= self.slots.len(),
                forall|j: int| 0 <= j < old(self).slots.len() ==> self.slots@[j] == old(self).slots@[j],
                forall|j: int| old(self).slots.len() <= j < self.slots.len() ==> self.slots@[j] is None,
            decreases i + 1 - self.slots.len(),
        {
            self.slots.push(None);
        }
        self.slots.set(i, Some(*source));
        assert forall|k: Ps2Key| k != key implies self.binding(k) == old(self).binding(k) by {
            assert(k.spec_index() != key.spec_index());
        }
    }

    fn is_source_bound(&self, source: &InputSource) -> (r: Option<ControllerKey>)
        ensures
            match r {
                Some(ControllerKey::Ps2(k)) => self.binding(k) == Some(*source) && forall|j: Ps2Key|
                    j.spec_index() < k.spec_index() ==> self.binding(j) != Some(*source),
                None => forall|k: Ps2Key| self.binding(k) != Some(*source),
            },
    {
        proof {
            lemma_first_slot_with(self.slots@, *source, 0);
        }
        let mut i: usize = 0;
        while i < self.slots.len()
            invariant
                i <= self.slots.len(),
                first_slot_with(self.slots@, *source, 0) == first_slot_with(self.slots@, *source, i as int),
            decreases self.slots.len() - i,
        {
            if self.slots[i] == Some(*source) {
                assert(first_slot_with(self.slots@, *source, i as int) == Some(i as int));
                proof {
                    lemma_first_slot_with(self.slots@, *source, 0);
                }
                let key = Ps2Key::from_index(i);
                match key {
                    Some(k) => {
                        assert forall|j: Ps2Key| j.spec_index() < k.spec_index() implies self.binding(
                            j,
                        ) != Some(*source) by {
                            assert(self.slots@[j.spec_index() as int] != Some(*source));
                        }
                        return Some(ControllerKey::Ps2(k));
                    },
                    None => {
                        assert forall|k: Ps2Key| self.binding(k) != Some(*source) by {
                            if k.spec_index() < self.slots.len() {
                                assert(self.slots@[k.spec_index() as int] != Some(*source));
                            }
                        }
                        return None;
                    },
                }
            }
            i = i + 1;
        }
        assert forall|k: Ps2Key| self.binding(k) != Some(*source) by {
            if k.spec_index() < self.slots.len() {
                assert(self.slots@[k.spec_index() as int] != Some(*source));
            }
        }
        None
    }

    fn get_max_key(&self) -> (r: usize)
        ensures
            r == NUM_PS2_KEYS,
    {
        NUM_PS2_KEYS
    }
}

/// The bindings of every supported controller.
pub struct ControllerLayoutsRes {
    pub ps2: Ps2Layout,
}

impl ControllerLayoutsRes {
    /// The source bound to `key`, if any.
    pub open spec fn binding(&self, key: ControllerKey) -> Option<InputSource> {
        match key {
            ControllerKey::Ps2(k) => self.ps2.binding(k),
        }
    }

    /// The key that `is_source_bound` reports for `source`.
    pub open spec fn bound_key(&self, source: InputSource) -> Option<ControllerKey> {
        self.ps2.bound_key(source)
    }

    /// A set of layouts with no key bound.
    pub fn new() -> (r: ControllerLayoutsRes)
        ensures
            forall|k: ControllerKey| r.binding(k) is None,
    {
        ControllerLayoutsRes { ps2: Ps2Layout::new() }
    }

    pub fn get_binding(&self, key: ControllerKey) -> (r: Option<InputSource>)
        ensures
            r == self.binding(key),
    {
        match key {
            ControllerKey::Ps2(ps2_key) => self.ps2.get_binding(ps2_key),
        }
    }

    pub fn set_binding(&mut self, key: ControllerKey, source: &InputSource)
        ensures
            final(self).binding(key) == Some(*source),
            forall|k: ControllerKey| k != key ==> final(self).binding(k) == old(self).binding(k),
    {
        match key {
            ControllerKey::Ps2(ps2_key) => self.ps2.set_binding(ps2_key, source),
        }
    }

    /// The first key, in display order, bound to `source`; `None` when no key is.
    pub fn is_source_bound(&self, source: &InputSource) -> (r: Option<ControllerKey>)
        ensures
            r == self.bound_key(*source),
            match r {
                Some(key) => self.binding(key) == Some(*source) && forall|j: Ps2Key|
                    #![trigger self.ps2.binding(j)]
                    j.spec_index() < key->Ps2_0.spec_index() ==> self.ps2.binding(j) != Some(*source),
                None => forall|k: ControllerKey| self.binding(k) != Some(*source),
            },
    {
        let r = self.ps2.is_source_bound(source);
        proof {
            if r is None {
                assert forall|k: ControllerKey| self.binding(k) != Some(*source) by {
                    let ControllerKey::Ps2(p) = k;
                    assert(self.ps2.binding(p) != Some(*source));
                }
            }
        }
        r
    }
}

impl Default for ControllerLayoutsRes {
    fn default() -> (r: ControllerLayoutsRes)
        ensures
            forall|k: ControllerKey| r.binding(k) is None,
    {
        ControllerLayoutsRes::new()
    }
}

/// What `bound_key` reports: the first key, in display order, bound to `source`, or `None`
/// when no key is.
pub proof fn lemma_bound_key(layouts: ControllerLayoutsRes, source: InputSource)
    ensures
        match layouts.bound_key(source) {
            Some(key) => layouts.binding(key) == Some(source) && forall|j: Ps2Key|
                #![trigger layouts.ps2.binding(j)]
                j.spec_index() < key->Ps2_0.spec_index() ==> layouts.ps2.binding(j) != Some(source),
            None => forall|k: ControllerKey| #[trigger] layouts.binding(k) != Some(source),
        },
{
    let slots = layouts.ps2.slots@;
    lemma_first_slot_with(slots, source, 0);
    match first_slot_with(slots, source, 0) {
        Some(i) => {
            match Ps2Key::spec_from_index(i) {
                Some(k) => {
                    assert forall|j: Ps2Key| j.spec_index() < k.spec_index() implies layouts.ps2.binding(j)
                        != Some(source) by {
                        assert(slots[j.spec_index() as int] != Some(source));
                    }
                },
                None => {
                    assert forall|k: ControllerKey| layouts.binding(k) != Some(source) by {
                        let ControllerKey::Ps2(p) = k;
                        if p.spec_index() < slots.len() {
                            assert(slots[p.spec_index() as int] != Some(source));
                        }
                    }
                },
            }
        },
        None => {
            assert forall|k: ControllerKey| layouts.binding(k) != Some(source) by {
                let ControllerKey::Ps2(p) = k;
                if p.spec_index() < slots.len() {
                    assert(slots[p.spec_index() as int] != Some(source));
                }
            }
        },
    }
}

/// Binding `key` to `source` and looking `key` up gives `source`; when no other key is bound
/// to `source`, looking `source` up gives `key`.
pub proof fn lemma_bind_then_lookup(
    before: ControllerLayoutsRes,
    after: ControllerLayoutsRes,
    key: ControllerKey,
    source: InputSource,
)
    requires
        after.binding(key) == Some(source),
        forall|k: ControllerKey| k != key ==> after.binding(k) == before.binding(k),
        forall|k: ControllerKey| k != key ==> before.binding(k) != Some(source),
    ensures
        after.binding(key) == Some(source),
        after.bound_key(source) == Some(key),
{
    lemma_bound_key(after, source);
    match after.bound_key(source) {
        Some(found) => {
            if found != key {
                assert(after.binding(found) == before.binding(found));
            }
        },
        None => {
            assert(after.binding(key) != Some(source));
        },
    }
}

/// A binding survives any number of later bindings of other keys: along a run of layouts
/// where each step binds one key other than `key` and leaves every other key alone, `key`
/// keeps its source.
pub proof fn lemma_binding_survives(
    layouts: Seq<ControllerLayoutsRes>,
    bound_keys: Seq<ControllerKey>,
    key: ControllerKey,
    source: InputSource,
)
    requires
        layouts.len() == bound_keys.len() + 1,
        layouts[0].binding(key) == Some(source),
        forall|i: int| 0 <= i < bound_keys.len() ==> #[trigger] bound_keys[i] != key,
        forall|i: int, k: ControllerKey|
            0 <= i < bound_keys.len() && k != bound_keys[i] ==> #[trigger] layouts[i + 1].binding(k)
                == layouts[i].binding(k),
    ensures
        layouts.last().binding(key) == Some(source),
    decreases bound_keys.len(),
{
    if bound_keys.len() > 0 {
        let n = bound_keys.len() - 1;
        lemma_binding_survives(layouts.drop_last(), bound_keys.drop_last(), key, source);
        assert(bound_keys[n] != key);
        assert(layouts[n + 1].binding(key) == layouts[n].binding(key));
    }
}

} // verus!
