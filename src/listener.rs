use vstd::prelude::*;

use crate::input::{
    AxisSign, GamepadAxis, InputSource, MIN_LISTENABLE_AXIS_MAG, NUM_GAMEPAD_AXES,
};
use crate::layout::{lemma_bound_key, ControllerKey, ControllerLayoutsRes};
use crate::raw_input::RawInputReader;
use crate::sink::{DeviceInput, InputSink};

verus! {

/// One position of one sink: the entity that holds the sink, and the position in its keys.
#[derive(Clone, Copy, PartialEq, Eq, Structural, Debug, Default)]
pub struct InputSinkId {
    pub entity: Option<u64>,
    pub idx: usize,
}

/// What a listener reports when it hears what it waits for.
#[derive(Clone, Copy, PartialEq, Eq, Structural, Debug)]
pub enum ListenerResult {
    /// A source was heard for the key that asked for a binding.
    SourceToKey(InputSource, ControllerKey),
    /// A bound key was activated for the sink position that asked for one.
    KeyToSink(ControllerKey, InputSinkId),
}

/// What a listener waits for, and for whom.
#[derive(Clone, Copy, PartialEq, Eq, Structural, Debug)]
pub enum ListenerState {
    /// Not listening.
    Inactive,
    /// Waiting for any source, to bind it to the key.
    ListenInputSource(ControllerKey),
    /// Waiting for a source that is already bound, to hand its key to the sink position.
    ListenControllerKey(InputSinkId),
}

/// The state a listener moves to, and the result it emits, when `heard` is what was heard
/// in one tick.
pub open spec fn listener_step(
    state: ListenerState,
    layouts: ControllerLayoutsRes,
    heard: Option<InputSource>,
) -> (ListenerState, Option<ListenerResult>) {
    match (state, heard) {
        (ListenerState::ListenInputSource(key), Some(source)) => (
            ListenerState::Inactive,
            Some(ListenerResult::SourceToKey(source, key)),
        ),
        (ListenerState::ListenControllerKey(sink), Some(source)) => match layouts.bound_key(source) {
            Some(key) => (ListenerState::Inactive, Some(ListenerResult::KeyToSink(key, sink))),
            None => (state, None),
        },
        _ => (state, None),
    }
}

/// Captures the next input event of any device class, to bind it to a key or to find the
/// key it is bound to.
pub struct InputListener {
    /// What the listener waits for.
    pub state: ListenerState,
    /// The last result emitted and not yet consumed.
    pub result: Option<ListenerResult>,
}

impl InputListener {
    /// An inactive listener with no result.
    pub fn new() -> (r: InputListener)
        ensures
            r.state == ListenerState::Inactive,
            r.result is None,
    {
        InputListener { state: ListenerState::Inactive, result: None }
    }

    /// Starts listening for a source to bind to `key`.
    pub fn listen_input_source(&mut self, key: ControllerKey)
        ensures
            final(self).state == ListenerState::ListenInputSource(key),
            final(self).result == old(self).result,
    {
        self.state = ListenerState::ListenInputSource(key);
    }

    pub fn listening_for_input_source(&self) -> (r: bool)
        ensures
            r == (self.state is ListenInputSource),
    {
        match self.state {
            ListenerState::ListenInputSource(_) => true,
            _ => false,
        }
    }

    pub fn has_key_consumer(&self, key: ControllerKey) -> (r: bool)
        ensures
            r == (self.state == ListenerState::ListenInputSource(key)),
    {
        match self.state {
            ListenerState::ListenInputSource(k) => k == key,
            _ => false,
        }
    }

    /// Starts listening for an already bound key, to hand it to `sink`.
    pub fn listen_for_controller_key(&mut self, sink: InputSinkId)
        ensures
            final(self).state == ListenerState::ListenControllerKey(sink),
            final(self).result == old(self).result,
    {
        self.state = ListenerState::ListenControllerKey(sink);
    }

    pub fn listening_for_controller_key(&self) -> (r: bool)
        ensures
            r == (self.state is ListenControllerKey),
    {
        match self.state {
            ListenerState::ListenControllerKey(_) => true,
            _ => false,
        }
    }

    pub fn has_sink_consumer(&self, sink_id: InputSinkId) -> (r: bool)
        ensures
            r == (self.state == ListenerState::ListenControllerKey(sink_id)),
    {
        match self.state {
            ListenerState::ListenControllerKey(s) => s == sink_id,
            _ => false,
        }
    }

    /// Hands out the pending result, leaving none.
    pub fn consume_result(&mut self) -> (r: Option<ListenerResult>)
        ensures
            r == old(self).result,
            final(self).result is None,
            final(self).state == old(self).state,
    {
        let result = self.result;
        self.result = None;
        result
    }

    /// Stops listening, with no result.
    pub fn stop_listening(&mut self)
        ensures
            final(self).state == ListenerState::Inactive,
            final(self).result == old(self).result,
    {
        self.state = ListenerState::Inactive;
    }

    /// Takes in what was heard during one tick. A result that is emitted is also kept as the
    /// pending result.
    pub fn hear(&mut self, layouts: &ControllerLayoutsRes, heard: Option<InputSource>) -> (r: Option<
        ListenerResult,
    >)
        ensures
            (final(self).state, r) == listener_step(old(self).state, *layouts, heard),
            final(self).result == if r is Some {
                r
            } else {
                old(self).result
            },
    {
        match (self.state, heard) {
            (ListenerState::ListenInputSource(key), Some(source)) => {
                let result = ListenerResult::SourceToKey(source, key);
                self.state = ListenerState::Inactive;
                self.result = Some(result);
                Some(result)
            },
            (ListenerState::ListenControllerKey(sink), Some(source)) => {
                match layouts.is_source_bound(&source) {
                    Some(key) => {
                        let result = ListenerResult::KeyToSink(key, sink);
                        self.state = ListenerState::Inactive;
                        self.result = Some(result);
                        Some(result)
                    },
                    None => None,
                }
            },
            _ => None,
        }
    }
}

impl Default for InputListener {
    fn default() -> (r: InputListener)
        ensures
            r.state == ListenerState::Inactive,
            r.result is None,
    {
        InputListener::new()
    }
}

/// The source a gamepad axis names when it is deflected past `MIN_LISTENABLE_AXIS_MAG`,
/// with the polarity of the deflection.
pub open spec fn axis_deflection(input: DeviceInput, axis: GamepadAxis) -> Option<InputSource> {
    match input.axis_value(axis) {
        Some(v) => if v > MIN_LISTENABLE_AXIS_MAG {
            Some(InputSource::Axis(axis, AxisSign::Plus))
        } else if v < -MIN_LISTENABLE_AXIS_MAG {
            Some(InputSource::Axis(axis, AxisSign::Minus))
        } else {
            None
        },
        None => None,
    }
}

/// The first deflected axis of `gamepad`, scanning the axes from index `a` on.
pub open spec fn first_deflected_axis_of(input: DeviceInput, gamepad: usize, a: int) -> Option<InputSource>
    decreases NUM_GAMEPAD_AXES - a,
{
    if a < 0 || a >= NUM_GAMEPAD_AXES {
        None
    } else {
        match axis_deflection(input, GamepadAxis { gamepad, axis: a as u32 }) {
            Some(source) => Some(source),
            None => first_deflected_axis_of(input, gamepad, a + 1),
        }
    }
}

/// The first deflected axis of the gamepads of `gamepads`, gamepad by gamepad.
pub open spec fn first_deflected_axis(input: DeviceInput, gamepads: Seq<usize>) -> Option<InputSource>
    decreases gamepads.len(),
{
    if gamepads.len() == 0 {
        None
    } else {
        match first_deflected_axis_of(input, gamepads[0], 0) {
            Some(source) => Some(source),
            None => first_deflected_axis(input, gamepads.drop_first()),
        }
    }
}

/// The source heard in one tick, by priority: what the raw HID driver heard, then the first
/// key that went down, then the first gamepad button that went down, then the first
/// deflected gamepad axis.
pub open spec fn heard_in_tick(input: DeviceInput, raw_heard: Option<InputSource>) -> Option<InputSource> {
    match raw_heard {
        Some(source) => Some(source),
        None => if input.just_pressed_keys.len() > 0 {
            Some(InputSource::Key(input.just_pressed_keys@[0]))
        } else if input.just_pressed_buttons.len() > 0 {
            Some(InputSource::Button(input.just_pressed_buttons@[0]))
        } else {
            first_deflected_axis(input, input.gamepads@)
        },
    }
}

fn deflected_axis(input: &DeviceInput, axis: GamepadAxis) -> (r: Option<InputSource>)
    ensures
        r == axis_deflection(*input, axis),
{
    match input.get_axis(axis) {
        Some(v) => {
            if v > MIN_LISTENABLE_AXIS_MAG {
                Some(InputSource::Axis(axis, AxisSign::Plus))
            } else if v < -MIN_LISTENABLE_AXIS_MAG {
                Some(InputSource::Axis(axis, AxisSign::Minus))
            } else {
                None
            }
        },
        None => None,
    }
}

fn first_deflected_axis_of_gamepad(input: &DeviceInput, gamepad: usize) -> (r: Option<InputSource>)
    ensures
        r == first_deflected_axis_of(*input, gamepad, 0),
{
    let mut a: u32 = 0;
    while a < NUM_GAMEPAD_AXES
        invariant
            a <= NUM_GAMEPAD_AXES,
            first_deflected_axis_of(*input, gamepad, 0) == first_deflected_axis_of(*input, gamepad, a as int),
        decreases NUM_GAMEPAD_AXES - a,
    {
        let found = deflected_axis(input, GamepadAxis { gamepad, axis: a });
        if found.is_some() {
            return found;
        }
        a = a + 1;
    }
    None
}

/// The source heard in this tick, by the priority of `heard_in_tick`. The raw HID driver is
/// asked first, which drops its events of this tick.
pub fn listen_for_input_source<R: RawInputReader>(input: &DeviceInput, raw_input: &mut R) -> (r: Option<InputSource>)
    ensures
        r == heard_in_tick(*input, old(raw_input).heard_source()),
        final(raw_input).heard_source() is None,
{
    let raw_heard = raw_input.listen();
    if raw_heard.is_some() {
        return raw_heard;
    }
    if input.just_pressed_keys.len() > 0 {
        return Some(InputSource::Key(input.just_pressed_keys[0]));
    }
    if input.just_pressed_buttons.len() > 0 {
        return Some(InputSource::Button(input.just_pressed_buttons[0]));
    }
    let n = input.gamepads.len();
    let mut i: usize = 0;
    assert(input.gamepads@.subrange(0, n as int) =~= input.gamepads@);
    while i < n
        invariant
            n == input.gamepads.len(),
            i <= n,
            old(raw_input).heard_source() is None,
            raw_input.heard_source() is None,
            input.just_pressed_keys.len() == 0,
            input.just_pressed_buttons.len() == 0,
            first_deflected_axis(*input, input.gamepads@) == first_deflected_axis(
                *input,
                input.gamepads@.subrange(i as int, n as int),
            ),
        decreases n - i,
    {
        let ghost rest = input.gamepads@.subrange(i as int, n as int);
        assert(rest.drop_first() =~= input.gamepads@.subrange(i + 1, n as int));
        let found = first_deflected_axis_of_gamepad(input, input.gamepads[i]);
        if found.is_some() {
            return found;
        }
        i = i + 1;
    }
    assert(input.gamepads@.subrange(n as int, n as int) =~= Seq::<usize>::empty());
    None
}

/// One tick of the listener: an inactive listener hears nothing and leaves the raw HID
/// driver alone; a listening one takes in the source heard in this tick.
pub fn input_listener_system<R: RawInputReader>(
    input_listener: &mut InputListener,
    layouts: &ControllerLayoutsRes,
    input: &DeviceInput,
    raw_input: &mut R,
) -> (r: Option<ListenerResult>)
    ensures
        old(input_listener).state is Inactive ==> {
            &&& r is None
            &&& *final(input_listener) == *old(input_listener)
            &&& *final(raw_input) == *old(raw_input)
        },
        !(old(input_listener).state is Inactive) ==> {
            &&& (final(input_listener).state, r) == listener_step(
                old(input_listener).state,
                *layouts,
                heard_in_tick(*input, old(raw_input).heard_source()),
            )
            &&& final(raw_input).heard_source() is None
            &&& final(input_listener).result == if r is Some {
                r
            } else {
                old(input_listener).result
            }
        },
{
    match input_listener.state {
        ListenerState::Inactive => None,
        _ => {
            let heard = listen_for_input_source(input, raw_input);
            input_listener.hear(layouts, heard)
        },
    }
}

/// While the listener is not inactive, marks every sink dirty, so that a binding made from
/// what it hears shows at the next resolution.
pub fn cleanup_input_listener_system(input_listener: &InputListener, sinks: &mut Vec<InputSink>)
    ensures
        final(sinks).len() == old(sinks).len(),
        forall|k: int|
            0 <= k < final(sinks).len() ==> {
                let before = old(sinks)@[k];
                let after = #[trigger] final(sinks)@[k];
                &&& after.keys@ == before.keys@
                &&& after.sources@ == before.sources@
                &&& after.values@ == before.values@
                &&& after.sources_dirty == (before.sources_dirty || !(input_listener.state is Inactive))
            },
{
    if input_listener.state == ListenerState::Inactive {
        return;
    }
    let mut k: usize = 0;
    while k < sinks.len()
        invariant
            k <= sinks.len(),
            sinks.len() == old(sinks).len(),
            !(input_listener.state is Inactive),
            forall|j: int| k <= j < sinks.len() ==> #[trigger] sinks@[j] == old(sinks)@[j],
            forall|j: int|
                0 <= j < k ==> {
                    let before = old(sinks)@[j];
                    let after = #[trigger] sinks@[j];
                    &&& after.keys@ == before.keys@
                    &&& after.sources@ == before.sources@
                    &&& after.values@ == before.values@
                    &&& after.sources_dirty
                },
        decreases sinks.len() - k,
    {
        sinks[k].sources_dirty = true;
        k = k + 1;
    }
}

/// Binds the source of a `SourceToKey` result to its key; returns whether the layout changed.
pub fn apply_listener_result(layouts: &mut ControllerLayoutsRes, result: &ListenerResult) -> (r: bool)
    ensures
        r == (*result is SourceToKey),
        match *result {
            ListenerResult::SourceToKey(source, key) => {
                &&& final(layouts).binding(key) == Some(source)
                &&& forall|k: ControllerKey| k != key ==> final(layouts).binding(k) == old(layouts).binding(k)
            },
            ListenerResult::KeyToSink(_, _) => *final(layouts) == *old(layouts),
        },
{
    match result {
        ListenerResult::SourceToKey(source, key) => {
            layouts.set_binding(*key, source);
            true
        },
        ListenerResult::KeyToSink(_, _) => false,
    }
}

/// A display element's key, and the sink position it feeds.
#[derive(Clone, Copy, PartialEq, Eq, Structural, Debug)]
pub struct BoundControllerKey {
    pub id: Option<InputSinkId>,
    pub key: Option<ControllerKey>,
}

impl BoundControllerKey {
    pub fn bind(&mut self, entity: u64, idx: usize)
        ensures
            final(self).id == Some(InputSinkId { entity: Some(entity), idx }),
            final(self).key == old(self).key,
    {
        self.id = Some(InputSinkId { entity: Some(entity), idx });
    }

    /// Takes the listener's pending `KeyToSink` result when it is addressed to this element's
    /// sink position: the key is adopted, the result consumed and the listener stopped.
    /// Returns whether that happened.
    pub fn take_listener_result(&mut self, input_listener: &mut InputListener) -> (r: bool)
        ensures
            r == (old(self).id matches Some(sink_id) && old(input_listener).result matches Some(
                ListenerResult::KeyToSink(_, target),
            ) && target == sink_id),
            r ==> {
                &&& final(self).key == Some(old(input_listener).result->Some_0->KeyToSink_0)
                &&& final(self).id == old(self).id
                &&& final(input_listener).result is None
                &&& final(input_listener).state is Inactive
            },
            !r ==> *final(self) == *old(self) && *final(input_listener) == *old(input_listener),
    {
        match (self.id, input_listener.result) {
            (Some(sink_id), Some(ListenerResult::KeyToSink(key, target))) => {
                if target == sink_id {
                    self.key = Some(key);
                    input_listener.consume_result();
                    input_listener.stop_listening();
                    true
                } else {
                    false
                }
            },
            _ => false,
        }
    }
}

impl From<ControllerKey> for BoundControllerKey {
    fn from(key: ControllerKey) -> (r: BoundControllerKey) {
        BoundControllerKey { id: None, key: Some(key) }
    }
}

impl vstd::std_specs::convert::FromSpecImpl<ControllerKey> for BoundControllerKey {
    open spec fn obeys_from_spec() -> bool {
        true
    }

    open spec fn from_spec(key: ControllerKey) -> BoundControllerKey {
        BoundControllerKey { id: None, key: Some(key) }
    }
}

/// A listener waiting for a source stops and emits one `SourceToKey` result, for its key, in
/// a tick where a source is heard; in a tick where none is, it keeps waiting and emits none.
pub proof fn lemma_listen_source_step(key: ControllerKey, layouts: ControllerLayoutsRes, heard: Option<InputSource>)
    ensures
        heard matches Some(source) ==> listener_step(ListenerState::ListenInputSource(key), layouts, heard)
            == (ListenerState::Inactive, Some(ListenerResult::SourceToKey(source, key))),
        heard is None ==> listener_step(ListenerState::ListenInputSource(key), layouts, heard) == (
            ListenerState::ListenInputSource(key),
            None::<ListenerResult>,
        ),
{
}

/// A listener waiting for a bound key keeps waiting, and emits nothing, when it hears a
/// source bound to no key; when it then hears a bound source it stops and emits one
/// `KeyToSink` result, with the first key bound to that source.
pub proof fn lemma_listen_bound_key_steps(
    sink: InputSinkId,
    layouts: ControllerLayoutsRes,
    unbound: InputSource,
    bound: InputSource,
)
    requires
        forall|k: ControllerKey| #[trigger] layouts.binding(k) != Some(unbound),
        exists|k: ControllerKey| #[trigger] layouts.binding(k) == Some(bound),
    ensures
        ({
            let (first_state, first_result) = listener_step(
                ListenerState::ListenControllerKey(sink),
                layouts,
                Some(unbound),
            );
            let (second_state, second_result) = listener_step(first_state, layouts, Some(bound));
            &&& first_state == ListenerState::ListenControllerKey(sink)
            &&& first_result is None
            &&& second_state == ListenerState::Inactive
            &&& second_result == Some(
                ListenerResult::KeyToSink(layouts.bound_key(bound)->Some_0, sink),
            )
            &&& layouts.binding(layouts.bound_key(bound)->Some_0) == Some(bound)
        }),
{
    lemma_bound_key(layouts, unbound);
    lemma_bound_key(layouts, bound);
    if layouts.bound_key(unbound) is Some {
        assert(layouts.binding(layouts.bound_key(unbound)->Some_0) == Some(unbound));
    }
    if layouts.bound_key(bound) is None {
        let k = choose|k: ControllerKey| #[trigger] layouts.binding(k) == Some(bound);
        assert(layouts.binding(k) != Some(bound));
    }
}

} // verus!
