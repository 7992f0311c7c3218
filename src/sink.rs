use vstd::prelude::*;

use crate::input::{GamepadAxis, GamepadButton, InputSource, InputValue, KeyCode, magnitude_in_range};
use crate::layout::{ControllerKey, ControllerLayoutsRes};
use crate::raw_input::RawInputReader;

verus! {

/// The keyboard and gamepad state of one tick.
pub struct DeviceInput {
    /// Keys held down.
    pub pressed_keys: Vec<KeyCode>,
    /// Keys that went down during this tick.
    pub just_pressed_keys: Vec<KeyCode>,
    /// Gamepad buttons held down.
    pub pressed_buttons: Vec<GamepadButton>,
    /// Gamepad buttons that went down during this tick.
    pub just_pressed_buttons: Vec<GamepadButton>,
    /// Positions of the gamepad axes that report one, in fixed point.
    pub axes: Vec<(GamepadAxis, i32)>,
    /// Indices of the connected gamepads.
    pub gamepads: Vec<usize>,
}

/// The position recorded first for `axis` in `axes`.
pub open spec fn first_axis_value(axes: Seq<(GamepadAxis, i32)>, axis: GamepadAxis) -> Option<i32>
    decreases axes.len(),
{
    if axes.len() == 0 {
        None
    } else if axes[0].0 == axis {
        Some(axes[0].1)
    } else {
        first_axis_value(axes.drop_first(), axis)
    }
}

impl DeviceInput {
    pub open spec fn key_pressed(&self, key: KeyCode) -> bool {
        self.pressed_keys@.contains(key)
    }

    pub open spec fn button_pressed(&self, button: GamepadButton) -> bool {
        self.pressed_buttons@.contains(button)
    }

    pub open spec fn axis_value(&self, axis: GamepadAxis) -> Option<i32> {
        first_axis_value(self.axes@, axis)
    }

    pub fn is_key_pressed(&self, key: KeyCode) -> (r: bool)
        ensures
            r == self.key_pressed(key),
    {
        let mut i: usize = 0;
        while i < self.pressed_keys.len()
            invariant
                i <= self.pressed_keys.len(),
                forall|j: int| 0 <= j < i ==> self.pressed_keys@[j] != key,
            decreases self.pressed_keys.len() - i,
        {
            if self.pressed_keys[i] == key {
                assert(self.pressed_keys@[i as int] == key);
                return true;
            }
            i = i + 1;
        }
        false
    }

    pub fn is_button_pressed(&self, button: GamepadButton) -> (r: bool)
        ensures
            r == self.button_pressed(button),
    {
        let mut i: usize = 0;
        while i < self.pressed_buttons.len()
            invariant
                i <= self.pressed_buttons.len(),
                forall|j: int| 0 <= j < i ==> self.pressed_buttons@[j] != button,
            decreases self.pressed_buttons.len() - i,
        {
            if self.pressed_buttons[i] == button {
                assert(self.pressed_buttons@[i as int] == button);
                return true;
            }
            i = i + 1;
        }
        false
    }

    pub fn get_axis(&self, axis: GamepadAxis) -> (r: Option<i32>)
        ensures
            r == self.axis_value(axis),
    {
        let n = self.axes.len();
        let mut i: usize = 0;
        assert(self.axes@.subrange(0, n as int) =~= self.axes@);
        while i < n
            invariant
                n == self.axes.len(),
                i <= n,
                first_axis_value(self.axes@, axis) == first_axis_value(
                    self.axes@.subrange(i as int, n as int),
                    axis,
                ),
            decreases n - i,
        {
            let ghost rest = self.axes@.subrange(i as int, n as int);
            assert(rest.drop_first() =~= self.axes@.subrange(i + 1, n as int));
            let (a, v) = self.axes[i];
            if a == axis {
                return Some(v);
            }
            i = i + 1;
        }
        None
    }
}

/// The value a source has now: keyboard and gamepad sources are read from `input`, raw HID
/// sources from `raw`. A sign-split gamepad axis yields the magnitude of its polarity.
pub open spec fn source_value<R: RawInputReader>(input: DeviceInput, raw: R, source: Option<InputSource>) -> Option<InputValue> {
    match source {
        None => None,
        Some(InputSource::Key(key)) => Some(InputValue::Button(input.key_pressed(key))),
        Some(InputSource::Button(button)) => Some(InputValue::Button(input.button_pressed(button))),
        Some(InputSource::Axis(axis, sign)) => match input.axis_value(axis) {
            Some(v) => Some(InputValue::Axis(sign.spec_clamp(v as int) as i32)),
            None => None,
        },
        Some(InputSource::HidButton(id, button_id)) => raw.hid_button_value(id, button_id),
        Some(InputSource::HidAxis(id, axis_id, sign)) => raw.hid_axis_value(id, axis_id, sign),
        Some(InputSource::HidHatSwitch(id, hat_id)) => raw.hid_hatswitch_value(id, hat_id),
    }
}

/// The values of `sources`, each polled once, in order.
pub open spec fn source_values<R: RawInputReader>(input: DeviceInput, raw: R, sources: Seq<Option<InputSource>>) -> Seq<Option<InputValue>> {
    sources.map_values(|s: Option<InputSource>| source_value(input, raw, s))
}

/// Polls one source.
pub fn poll_input_source<R: RawInputReader>(
    input: &DeviceInput,
    raw_input: &mut R,
    source: &Option<InputSource>,
) -> (r: Option<InputValue>)
    ensures
        r == source_value(*input, *old(raw_input), *source),
        magnitude_in_range(r),
        *final(raw_input) == *old(raw_input),
{
    match source {
        None => None,
        Some(InputSource::Key(key_code)) => Some(InputValue::Button(input.is_key_pressed(*key_code))),
        Some(InputSource::Button(button)) => Some(
            InputValue::Button(input.is_button_pressed(*button)),
        ),
        Some(InputSource::Axis(axis, sign)) => {
            match input.get_axis(*axis) {
                Some(v) => Some(InputValue::Axis(sign.clamp_axis(v))),
                None => None,
            }
        },
        Some(InputSource::HidButton(id, button)) => raw_input.poll_hid_button(id, button),
        Some(InputSource::HidAxis(id, axis, sign)) => raw_input.poll_hid_axis(id, axis, sign),
        Some(InputSource::HidHatSwitch(id, hatswitch)) => raw_input.poll_hid_hatswitch(id, hatswitch),
    }
}

/// Polls each source of `sources` once, in order; an absent source has no value.
pub fn poll_input_sources<R: RawInputReader>(
    input: &DeviceInput,
    raw_input: &mut R,
    sources: &Vec<Option<InputSource>>,
) -> (r: Vec<Option<InputValue>>)
    ensures
        r@ == source_values(*input, *old(raw_input), sources@),
        forall|i: int| 0 <= i < r.len() ==> magnitude_in_range(#[trigger] r@[i]),
        *final(raw_input) == *old(raw_input),
{
    let mut values: Vec<Option<InputValue>> = Vec::new();
    let mut i: usize = 0;
    while i < sources.len()
        invariant
            i <= sources.len(),
            *raw_input == *old(raw_input),
            values@ == source_values(*input, *old(raw_input), sources@.subrange(0, i as int)),
            forall|j: int| 0 <= j < values.len() ==> magnitude_in_range(#[trigger] values@[j]),
        decreases sources.len() - i,
    {
        let v = poll_input_source(input, raw_input, &sources[i]);
        values.push(v);
        i = i + 1;
        assert(values@ =~= source_values(*input, *old(raw_input), sources@.subrange(0, i as int)));
    }
    assert(sources@.subrange(0, i as int) =~= sources@);
    values
}

/// The logical keys one consumer reads, the sources they resolve to, and the sources'
/// values, kept position by position.
pub struct InputSink {
    /// The logical keys of this sink.
    pub keys: Vec<ControllerKey>,
    /// The source bound to each key when the sink was last resolved.
    pub sources: Vec<Option<InputSource>>,
    /// The value of each source when the sink was last polled.
    pub values: Vec<Option<InputValue>>,
    /// Set when `sources` may be stale; the next resolution re-derives them from the layout.
    pub sources_dirty: bool,
}

/// The sources that `keys` are bound to in `layouts`, position by position.
pub open spec fn bound_sources(layouts: ControllerLayoutsRes, keys: Seq<ControllerKey>) -> Seq<Option<InputSource>> {
    keys.map_values(|k: ControllerKey| layouts.binding(k))
}

impl InputSink {
    /// The three sequences have one entry per key.
    pub open spec fn wf(&self) -> bool {
        &&& self.sources.len() == self.keys.len()
        &&& self.values.len() == self.keys.len()
    }

    /// A sink that is resolved at the next resolution step.
    pub fn new(keys: Vec<ControllerKey>) -> (r: InputSink)
        ensures
            r.wf(),
            r.keys@ == keys@,
            forall|i: int| 0 <= i < r.sources.len() ==> r.sources@[i] is None,
            forall|i: int| 0 <= i < r.values.len() ==> r.values@[i] is None,
            r.sources_dirty,
    {
        let size = keys.len();
        let mut sources: Vec<Option<InputSource>> = Vec::new();
        let mut values: Vec<Option<InputValue>> = Vec::new();
        let mut i: usize = 0;
        while i < size
            invariant
                i <= size,
                sources.len() == i,
                values.len() == i,
                forall|j: int| 0 <= j < i ==> sources@[j] is None,
                forall|j: int| 0 <= j < i ==> values@[j] is None,
            decreases size - i,
        {
            sources.push(None);
            values.push(None);
            i = i + 1;
        }
        InputSink { keys, sources, values, sources_dirty: true }
    }

    /// Re-derives the sources of a dirty sink from `layouts` and marks it clean; a clean sink
    /// is left as it is.
    pub fn resolve_sources(&mut self, layouts: &ControllerLayoutsRes)
        requires
            old(self).wf(),
        ensures
            final(self).wf(),
            final(self).keys@ == old(self).keys@,
            final(self).values@ == old(self).values@,
            !final(self).sources_dirty,
            final(self).sources@ == if old(self).sources_dirty {
                bound_sources(*layouts, old(self).keys@)
            } else {
                old(self).sources@
            },
    {
        if !self.sources_dirty {
            return;
        }
        let mut bindings: Vec<Option<InputSource>> = Vec::new();
        let mut i: usize = 0;
        while i < self.keys.len()
            invariant
                i <= self.keys.len(),
                bindings@ == bound_sources(*layouts, self.keys@.subrange(0, i as int)),
            decreases self.keys.len() - i,
        {
            bindings.push(layouts.get_binding(self.keys[i]));
            i = i + 1;
            assert(bindings@ =~= bound_sources(*layouts, self.keys@.subrange(0, i as int)));
        }
        assert(self.keys@.subrange(0, i as int) =~= self.keys@);
        self.sources = bindings;
        self.sources_dirty = false;
    }

    /// Polls every source of the sink and stores the values.
    pub fn resolve_values<R: RawInputReader>(&mut self, input: &DeviceInput, raw_input: &mut R)
        requires
            old(self).wf(),
        ensures
            final(self).wf(),
            final(self).keys@ == old(self).keys@,
            final(self).sources@ == old(self).sources@,
            final(self).sources_dirty == old(self).sources_dirty,
            final(self).values@ == source_values(*input, *old(raw_input), old(self).sources@),
            *final(raw_input) == *old(raw_input),
    {
        self.values = poll_input_sources(input, raw_input, &self.sources);
    }
}

/// `after` is `before` resolved against `layouts`: a dirty sink has its sources
/// re-derived, and every sink ends clean.
pub open spec fn sink_resolved(layouts: ControllerLayoutsRes, before: InputSink, after: InputSink) -> bool {
    &&& after.wf()
    &&& after.keys@ == before.keys@
    &&& after.values@ == before.values@
    &&& !after.sources_dirty
    &&& after.sources@ == if before.sources_dirty {
        bound_sources(layouts, before.keys@)
    } else {
        before.sources@
    }
}

/// Resolves the sources of every dirty sink from `layouts`.
pub fn resolve_dirty_sources_system(layouts: &ControllerLayoutsRes, sinks: &mut Vec<InputSink>)
    requires
        forall|k: int| 0 <= k < old(sinks).len() ==> #[trigger] old(sinks)@[k].wf(),
    ensures
        final(sinks).len() == old(sinks).len(),
        forall|k: int|
            0 <= k < final(sinks).len() ==> sink_resolved(*layouts, old(sinks)@[k], #[trigger] final(sinks)@[k]),
{
    let mut k: usize = 0;
    while k < sinks.len()
        invariant
            k <= sinks.len(),
            sinks.len() == old(sinks).len(),
            forall|j: int| k <= j < sinks.len() ==> #[trigger] sinks@[j] == old(sinks)@[j],
            forall|j: int| 0 <= j < old(sinks).len() ==> #[trigger] old(sinks)@[j].wf(),
            forall|j: int| 0 <= j < k ==> sink_resolved(*layouts, old(sinks)@[j], #[trigger] sinks@[j]),
        decreases sinks.len() - k,
    {
        assert(sinks@[k as int].wf());
        sinks[k].resolve_sources(layouts);
        assert(sink_resolved(*layouts, old(sinks)@[k as int], sinks@[k as int]));
        k = k + 1;
    }
}

/// `after` is `before` with every source polled against `input` and `raw`.
pub open spec fn sink_polled<R: RawInputReader>(input: DeviceInput, raw: R, before: InputSink, after: InputSink) -> bool {
    &&& after.wf()
    &&& after.keys@ == before.keys@
    &&& after.sources@ == before.sources@
    &&& after.sources_dirty == before.sources_dirty
    &&& after.values@ == source_values(input, raw, before.sources@)
}

/// Polls the sources of every sink, in sink order, and writes each value back to the
/// position of its source.
pub fn resolve_input_sinks_system<R: RawInputReader>(
    input: &DeviceInput,
    raw_input: &mut R,
    sinks: &mut Vec<InputSink>,
)
    requires
        forall|k: int| 0 <= k < old(sinks).len() ==> #[trigger] old(sinks)@[k].wf(),
    ensures
        final(sinks).len() == old(sinks).len(),
        forall|k: int|
            0 <= k < final(sinks).len() ==> sink_polled(*input, *old(raw_input), old(sinks)@[k], #[trigger] final(sinks)@[k]),
        *final(raw_input) == *old(raw_input),
{
    let mut k: usize = 0;
    while k < sinks.len()
        invariant
            k <= sinks.len(),
            sinks.len() == old(sinks).len(),
            *raw_input == *old(raw_input),
            forall|j: int| k <= j < sinks.len() ==> #[trigger] sinks@[j] == old(sinks)@[j],
            forall|j: int| 0 <= j < old(sinks).len() ==> #[trigger] old(sinks)@[j].wf(),
            forall|j: int| 0 <= j < k ==> sink_polled(*input, *old(raw_input), old(sinks)@[j], #[trigger] sinks@[j]),
        decreases sinks.len() - k,
    {
        assert(sinks@[k as int].wf());
        sinks[k].resolve_values(input, raw_input);
        assert(sink_polled(*input, *old(raw_input), old(sinks)@[k as int], sinks@[k as int]));
        k = k + 1;
    }
}

/// Takes in what the raw HID driver received since the last tick.
pub fn poll_rawinput_system<R: RawInputReader>(raw_input: &mut R)
    ensures
        final(raw_input).refreshed_from(*old(raw_input)),
{
    raw_input.update();
}

/// `after` is `before` after one tick: resolved against `layouts` if it was dirty, then
/// polled against `input` and `raw`.
pub open spec fn sink_ticked<R: RawInputReader>(
    layouts: ControllerLayoutsRes,
    input: DeviceInput,
    raw: R,
    before: InputSink,
    after: InputSink,
) -> bool {
    &&& after.wf()
    &&& after.keys@ == before.keys@
    &&& !after.sources_dirty
    &&& after.sources@ == if before.sources_dirty {
        bound_sources(layouts, before.keys@)
    } else {
        before.sources@
    }
    &&& after.values@ == source_values(input, raw, after.sources@)
}

/// One tick of the engine, in its fixed order: the raw HID driver takes in what it received,
/// dirty sinks are resolved against `layouts`, then every sink is polled.
pub fn run_input_tick<R: RawInputReader>(
    layouts: &ControllerLayoutsRes,
    input: &DeviceInput,
    raw_input: &mut R,
    sinks: &mut Vec<InputSink>,
)
    requires
        forall|k: int| 0 <= k < old(sinks).len() ==> #[trigger] old(sinks)@[k].wf(),
    ensures
        final(raw_input).refreshed_from(*old(raw_input)),
        final(sinks).len() == old(sinks).len(),
        forall|k: int|
            0 <= k < final(sinks).len() ==> sink_ticked(*layouts, *input, *final(raw_input), old(sinks)@[k], #[trigger] final(sinks)@[k]),
{
    poll_rawinput_system(raw_input);
    resolve_dirty_sources_system(layouts, sinks);
    let ghost resolved = sinks@;
    resolve_input_sinks_system(input, raw_input, sinks);
    assert forall|k: int| 0 <= k < sinks.len() implies sink_ticked(
        *layouts,
        *input,
        *raw_input,
        old(sinks)@[k],
        #[trigger] sinks@[k],
    ) by {
        assert(sink_resolved(*layouts, old(sinks)@[k], resolved[k]));
        assert(sink_polled(*input, *raw_input, resolved[k], sinks@[k]));
    }
}

/// A dirty sink resolved once takes its sources from the layout of that resolution; resolved
/// again without being marked dirty, it keeps them, whatever the layout has become.
pub proof fn lemma_resolved_once(
    first_layouts: ControllerLayoutsRes,
    later_layouts: ControllerLayoutsRes,
    created: InputSink,
    once: InputSink,
    twice: InputSink,
)
    requires
        created.sources_dirty,
        sink_resolved(first_layouts, created, once),
        sink_resolved(later_layouts, once, twice),
    ensures
        once.sources@ == bound_sources(first_layouts, created.keys@),
        twice.sources@ == once.sources@,
        !once.sources_dirty,
        !twice.sources_dirty,
{
}

} // verus!
