use vstd::prelude::*;

use crate::caps::{key_codes, rel_axis_codes, KeyCodeSet, RelAxisCodeSet, KEY_CNT, REL_CNT};
use crate::config::{Action, ActionType, ActionTypeView, Config, Device, WhenCondition};
use crate::events::DeviceInput;
use crate::input::{Input, InputEvent, InputState};
use crate::text::str_eq;

verus! {

/// The name the virtual output device advertises.
pub const VIRTUAL_DEVICE_NAME: &'static str = "CoMB Virtual Device";

/// Something the executor asks its surroundings to do.
#[derive(Debug)]
pub enum Effect {
    /// Emit this raw event on the virtual device.
    Emit { type_: u16, code: u16, value: i32 },
    /// Run this command with `sh -c`.
    Hook(String),
    /// Report this text.
    Print(String),
}

pub enum EffectView {
    Emit { type_: u16, code: u16, value: i32 },
    Hook(Seq<char>),
    Print(Seq<char>),
}

impl View for Effect {
    type V = EffectView;

    open spec fn view(&self) -> EffectView {
        match self {
            Effect::Emit { type_, code, value } => EffectView::Emit {
                type_: *type_,
                code: *code,
                value: *value,
            },
            Effect::Hook(cmd) => EffectView::Hook(cmd@),
            Effect::Print(text) => EffectView::Print(text@),
        }
    }
}

pub open spec fn effect_views(s: Seq<Effect>) -> Seq<EffectView> {
    s.map_values(|e: Effect| e@)
}

/// The key-event code of a bind's target, when the target is a key or a button.
pub open spec fn key_target(a: Action) -> Option<u16> {
    match a.action {
        ActionType::Bind { to, .. } => match to {
            Input::Key(k) => Some(k.code_spec()),
            Input::Btn(b) => Some(b.code_spec()),
            _ => None,
        },
        _ => None,
    }
}

/// The relative-axis code of a bind's target, when the target is a relative axis.
pub open spec fn rel_axis_target(a: Action) -> Option<u16> {
    match a.action {
        ActionType::Bind { to, .. } => match to {
            Input::RelAxis(r) => Some(r.code_spec()),
            _ => None,
        },
        _ => None,
    }
}

/// The target code of an action: of a relative axis when `rel`, else of a key or button.
pub open spec fn target(a: Action, rel: bool) -> Option<u16> {
    if rel {
        rel_axis_target(a)
    } else {
        key_target(a)
    }
}

/// The target codes of a list of actions.
pub open spec fn targets_of_actions(actions: Seq<Action>, rel: bool) -> Set<u16>
    decreases actions.len(),
{
    if actions.len() == 0 {
        Set::empty()
    } else {
        let rest = targets_of_actions(actions.drop_last(), rel);
        match target(actions.last(), rel) {
            Some(c) => rest.insert(c),
            None => rest,
        }
    }
}

/// The target codes of all the actions of a list of devices.
pub open spec fn targets_of_devices(devices: Seq<Device>, rel: bool) -> Set<u16>
    decreases devices.len(),
{
    if devices.len() == 0 {
        Set::empty()
    } else {
        targets_of_devices(devices.drop_last(), rel).union(
            targets_of_actions(devices.last().actions@, rel),
        )
    }
}

/// The key codes the virtual device must advertise for a configuration.
pub open spec fn required_keys(devices: Seq<Device>) -> Set<u16> {
    targets_of_devices(devices, false)
}

/// The relative-axis codes the virtual device must advertise for a configuration.
pub open spec fn required_rel_axes(devices: Seq<Device>) -> Set<u16> {
    targets_of_devices(devices, true)
}

/// The actions configured for the device `id`; of several devices with that id, the last.
pub open spec fn actions_for(devices: Seq<Device>, id: Seq<char>) -> Option<Seq<Action>>
    decreases devices.len(),
{
    if devices.len() == 0 {
        None
    } else if devices.last().accessor.id_spec() == id {
        Some(devices.last().actions@)
    } else {
        actions_for(devices.drop_last(), id)
    }
}

/// The value a bind emits for a source value: when the bind fires, the source value, or a
/// press when an axis drives a key or button; when it does not fire, a release.
pub open spec fn bind_value_spec(when: Option<WhenCondition>, input: Input, to: Input, state: i32) -> i32 {
    let fires = match when {
        None => true,
        Some(w) => w.test_spec(state),
    };
    if fires {
        if !input.is_toggle_spec() && to.is_toggle_spec() {
            InputState::Pressed.value()
        } else {
            state
        }
    } else {
        InputState::Released.value()
    }
}

/// What one action does for an input event.
pub open spec fn effects_of_action(a: Action, ev: InputEvent) -> Seq<EffectView> {
    if a.bind != ev.input_spec() {
        Seq::empty()
    } else {
        match a.action@ {
            ActionTypeView::Hook { when, cmd } => if when.test_spec(ev.state_spec()) {
                seq![EffectView::Hook(cmd)]
            } else {
                Seq::empty()
            },
            ActionTypeView::Print { when, print } => if when.test_spec(ev.state_spec()) {
                seq![EffectView::Print(print)]
            } else {
                Seq::empty()
            },
            ActionTypeView::Bind { to, when } => if ev.input_spec().is_toggle_spec() && !to.is_toggle_spec() {
                Seq::empty()
            } else {
                seq![
                    EffectView::Emit {
                        type_: to.raw_spec().0,
                        code: to.raw_spec().1,
                        value: bind_value_spec(when, ev.input_spec(), to, ev.state_spec()),
                    },
                ]
            },
        }
    }
}

/// What a list of actions does for an input event, in the order of the actions.
pub open spec fn effects_of_actions(actions: Seq<Action>, ev: InputEvent) -> Seq<EffectView>
    decreases actions.len(),
{
    if actions.len() == 0 {
        Seq::empty()
    } else {
        effects_of_actions(actions.drop_last(), ev) + effects_of_action(actions.last(), ev)
    }
}

/// The code an action targets, as [`target`] says.
fn action_target(a: &Action, rel: bool) -> (r: Option<u16>)
    ensures
        r == target(*a, rel),
{
    match &a.action {
        ActionType::Bind { to, .. } => match to {
            Input::Key(k) => if rel {
                None
            } else {
                Some(k.code())
            },
            Input::Btn(b) => if rel {
                None
            } else {
                Some(b.code())
            },
            Input::RelAxis(r) => if rel {
                Some(r.code())
            } else {
                None
            },
            Input::AbsAxis(_) => None,
        },
        _ => None,
    }
}

/// Adds a code to a list of distinct codes unless it is there already.
fn insert_code(codes: &mut Vec<u16>, c: u16)
    requires
        old(codes)@.no_duplicates(),
    ensures
        final(codes)@.no_duplicates(),
        final(codes)@.to_set() == old(codes)@.to_set().insert(c),
{
    let mut i: usize = 0;
    while i < codes.len()
        invariant
            codes@ == old(codes)@,
            codes@.no_duplicates(),
            i <= codes@.len(),
            forall|j: int| 0 <= j < i ==> codes@[j] != c,
        decreases codes@.len() - i,
    {
        if codes[i] == c {
            assert(codes@.to_set() =~= codes@.to_set().insert(c)) by {
                assert(codes@.contains(c));
            }
            return;
        }
        i = i + 1;
    }
    let ghost before = codes@;
    codes.push(c);
    proof {
        before.lemma_push_to_set_commute(c);
    }
}

/// The target codes of the actions of `devices`: relative-axis codes when `rel`, else
/// key and button codes.
fn collect_targets(devices: &Vec<Device>, rel: bool, codes: &mut Vec<u16>)
    requires
        old(codes)@.no_duplicates(),
    ensures
        final(codes)@.no_duplicates(),
        final(codes)@.to_set() == old(codes)@.to_set().union(targets_of_devices(devices@, rel)),
{
    let ghost start = codes@.to_set();
    let mut i: usize = 0;
    while i < devices.len()
        invariant
            i <= devices@.len(),
            codes@.no_duplicates(),
            codes@.to_set() == start.union(targets_of_devices(devices@.take(i as int), rel)),
        decreases devices@.len() - i,
    {
        let actions = &devices[i].actions;
        let ghost mid = codes@.to_set();
        let mut j: usize = 0;
        while j < actions.len()
            invariant
                i < devices@.len(),
                *actions == devices@[i as int].actions,
                j <= actions@.len(),
                codes@.no_duplicates(),
                codes@.to_set() == mid.union(targets_of_actions(actions@.take(j as int), rel)),
            decreases actions@.len() - j,
        {
            match action_target(&actions[j], rel) {
                Some(c) => insert_code(codes, c),
                None => {},
            }
            proof {
                assert(actions@.take(j + 1).drop_last() =~= actions@.take(j as int));
                assert(codes@.to_set() =~= mid.union(targets_of_actions(actions@.take(j + 1), rel)));
            }
            j = j + 1;
        }
        proof {
            assert(actions@.take(j as int) =~= actions@);
            assert(devices@.take(i + 1).drop_last() =~= devices@.take(i as int));
            assert(codes@.to_set() =~= start.union(targets_of_devices(devices@.take(i + 1), rel)));
        }
        i = i + 1;
    }
    assert(devices@.take(i as int) =~= devices@);
}

/// The bound below which the target codes lie: the count of relative-axis codes when `rel`,
/// else the count of key codes.
pub open spec fn code_bound(rel: bool) -> u16 {
    if rel {
        REL_CNT
    } else {
        KEY_CNT
    }
}

proof fn lemma_target_bound(a: Action, rel: bool)
    ensures
        target(a, rel) matches Some(c) ==> c < code_bound(rel),
{
}

proof fn lemma_targets_of_actions_bound(actions: Seq<Action>, rel: bool)
    ensures
        forall|c: u16| targets_of_actions(actions, rel).contains(c) ==> c < code_bound(rel),
    decreases actions.len(),
{
    if actions.len() > 0 {
        lemma_targets_of_actions_bound(actions.drop_last(), rel);
        lemma_target_bound(actions.last(), rel);
        assert forall|c: u16| targets_of_actions(actions, rel).contains(c) implies c < code_bound(rel) by {
            if !targets_of_actions(actions.drop_last(), rel).contains(c) {
                assert(target(actions.last(), rel) == Some(c));
            }
        }
    } else {
        assert forall|c: u16| targets_of_actions(actions, rel).contains(c) implies c < code_bound(rel) by {
            assert(targets_of_actions(actions, rel) == Set::<u16>::empty());
        }
    }
}

proof fn lemma_targets_bound(devices: Seq<Device>, rel: bool)
    ensures
        forall|c: u16| targets_of_devices(devices, rel).contains(c) ==> c < code_bound(rel),
    decreases devices.len(),
{
    if devices.len() > 0 {
        lemma_targets_bound(devices.drop_last(), rel);
        lemma_targets_of_actions_bound(devices.last().actions@, rel);
        assert forall|c: u16| targets_of_devices(devices, rel).contains(c) implies c < code_bound(rel) by {
            if !targets_of_devices(devices.drop_last(), rel).contains(c) {
                assert(targets_of_actions(devices.last().actions@, rel).contains(c));
            }
        }
    } else {
        assert forall|c: u16| targets_of_devices(devices, rel).contains(c) implies c < code_bound(rel) by {
            assert(targets_of_devices(devices, rel) == Set::<u16>::empty());
        }
    }
}

/// The target codes of a configuration, each once.
fn targets(devices: &Vec<Device>, rel: bool) -> (r: Vec<u16>)
    ensures
        r@.to_set() == targets_of_devices(devices@, rel),
        forall|i: int| 0 <= i < r@.len() ==> r@[i] < code_bound(rel),
{
    let mut codes: Vec<u16> = Vec::new();
    proof {
        assert(codes@.to_set() =~= Set::empty());
    }
    collect_targets(devices, rel, &mut codes);
    proof {
        assert(codes@.to_set() =~= targets_of_devices(devices@, rel));
        lemma_targets_bound(devices@, rel);
        assert forall|i: int| 0 <= i < codes@.len() implies codes@[i] < code_bound(rel) by {
            assert(codes@.to_set().contains(codes@[i]));
        }
    }
    codes
}

/// Adds key codes to a set of key codes.
fn add_key_codes(set: &mut KeyCodeSet, codes: &Vec<u16>)
    requires
        forall|i: int| 0 <= i < codes@.len() ==> codes@[i] < KEY_CNT,
    ensures
        key_codes(*final(set)) == key_codes(*old(set)).union(codes@.to_set()),
{
    let mut i: usize = 0;
    while i < codes.len()
        invariant
            i <= codes@.len(),
            forall|j: int| 0 <= j < codes@.len() ==> codes@[j] < KEY_CNT,
            key_codes(*set) == key_codes(*old(set)).union(codes@.take(i as int).to_set()),
        decreases codes@.len() - i,
    {
        set.insert(codes[i]);
        proof {
            assert(codes@.take(i + 1) =~= codes@.take(i as int).push(codes@[i as int]));
            codes@.take(i as int).lemma_push_to_set_commute(codes@[i as int]);
        }
        i = i + 1;
        assert(key_codes(*set) =~= key_codes(*old(set)).union(codes@.take(i as int).to_set()));
    }
    assert(codes@.take(i as int) =~= codes@);
}

/// Adds relative-axis codes to a set of relative-axis codes.
fn add_rel_axis_codes(set: &mut RelAxisCodeSet, codes: &Vec<u16>)
    requires
        forall|i: int| 0 <= i < codes@.len() ==> codes@[i] < REL_CNT,
    ensures
        rel_axis_codes(*final(set)) == rel_axis_codes(*old(set)).union(codes@.to_set()),
{
    let mut i: usize = 0;
    while i < codes.len()
        invariant
            i <= codes@.len(),
            forall|j: int| 0 <= j < codes@.len() ==> codes@[j] < REL_CNT,
            rel_axis_codes(*set) == rel_axis_codes(*old(set)).union(codes@.take(i as int).to_set()),
        decreases codes@.len() - i,
    {
        set.insert(codes[i]);
        proof {
            assert(codes@.take(i + 1) =~= codes@.take(i as int).push(codes@[i as int]));
            codes@.take(i as int).lemma_push_to_set_commute(codes@[i as int]);
        }
        i = i + 1;
        assert(rel_axis_codes(*set) =~= rel_axis_codes(*old(set)).union(codes@.take(i as int).to_set()));
    }
    assert(codes@.take(i as int) =~= codes@);
}

/// Whether a set of key codes holds all of `codes`.
fn has_key_codes(set: &KeyCodeSet, codes: &Vec<u16>) -> (r: bool)
    ensures
        r == codes@.to_set().subset_of(key_codes(*set)),
{
    let mut i: usize = 0;
    while i < codes.len()
        invariant
            i <= codes@.len(),
            forall|j: int| 0 <= j < i ==> key_codes(*set).contains(codes@[j]),
        decreases codes@.len() - i,
    {
        if !set.contains(codes[i]) {
            assert(codes@.to_set().contains(codes@[i as int]));
            return false;
        }
        i = i + 1;
    }
    assert forall|x: u16| codes@.to_set().contains(x) implies key_codes(*set).contains(x) by {
        let j = choose|j: int| 0 <= j < codes@.len() && codes@[j] == x;
    }
    true
}

/// Whether a set of relative-axis codes holds all of `codes`.
fn has_rel_axis_codes(set: &RelAxisCodeSet, codes: &Vec<u16>) -> (r: bool)
    ensures
        r == codes@.to_set().subset_of(rel_axis_codes(*set)),
{
    let mut i: usize = 0;
    while i < codes.len()
        invariant
            i <= codes@.len(),
            forall|j: int| 0 <= j < i ==> rel_axis_codes(*set).contains(codes@[j]),
        decreases codes@.len() - i,
    {
        if !set.contains(codes[i]) {
            assert(codes@.to_set().contains(codes@[i as int]));
            return false;
        }
        i = i + 1;
    }
    assert forall|x: u16| codes@.to_set().contains(x) implies rel_axis_codes(*set).contains(x) by {
        let j = choose|j: int| 0 <= j < codes@.len() && codes@[j] == x;
    }
    true
}

/// The value a bind emits, as [`bind_value_spec`] says.
pub fn bind_value(when: Option<WhenCondition>, input: Input, to: Input, state: i32) -> (r: i32)
    ensures
        r == bind_value_spec(when, input, to, state),
{
    let fires = match when {
        None => true,
        Some(w) => w.test(state),
    };
    if fires {
        if !input.is_toggle() && to.is_toggle() {
            InputState::Pressed.as_i32()
        } else {
            state
        }
    } else {
        InputState::Released.as_i32()
    }
}

/// Interprets the configured actions of input events. It holds the configured devices and
/// the capabilities that the virtual device advertises: the key codes and relative-axis
/// codes that bind actions target, which only ever grow.
pub struct ActionExecutor {
    pub devices: Vec<Device>,
    pub keys: KeyCodeSet,
    pub rel_axes: RelAxisCodeSet,
}

impl ActionExecutor {
    /// The key codes the virtual device advertises.
    pub open spec fn key_set(&self) -> Set<u16> {
        key_codes(self.keys)
    }

    /// The relative-axis codes the virtual device advertises.
    pub open spec fn rel_axis_set(&self) -> Set<u16> {
        rel_axis_codes(self.rel_axes)
    }

    /// The key codes the virtual device advertises, each once, in increasing order.
    pub fn advertised_keys(&self) -> (r: Vec<u16>)
        ensures
            r@.to_set() == self.key_set(),
            r@.no_duplicates(),
    {
        self.keys.codes()
    }

    /// The relative-axis codes the virtual device advertises, each once, in increasing order.
    pub fn advertised_rel_axes(&self) -> (r: Vec<u16>)
        ensures
            r@.to_set() == self.rel_axis_set(),
            r@.no_duplicates(),
    {
        self.rel_axes.codes()
    }

    pub fn from_config(config: Config) -> (r: ActionExecutor)
        ensures
            r.devices@ == config.devices@,
            r.key_set() == required_keys(config.devices@),
            r.rel_axis_set() == required_rel_axes(config.devices@),
    {
        let key_targets = targets(&config.devices, false);
        let rel_targets = targets(&config.devices, true);
        let mut keys = KeyCodeSet::new();
        let mut rel_axes = RelAxisCodeSet::new();
        add_key_codes(&mut keys, &key_targets);
        add_rel_axis_codes(&mut rel_axes, &rel_targets);
        proof {
            assert(key_codes(keys) =~= required_keys(config.devices@));
            assert(rel_axis_codes(rel_axes) =~= required_rel_axes(config.devices@));
        }
        ActionExecutor { devices: config.devices, keys, rel_axes }
    }

    /// Takes a new configuration. The advertised capabilities grow by what it requires; the
    /// result says whether they grew, that is whether the virtual device must be rebuilt.
    pub fn update_config(&mut self, config: Config) -> (rebuild: bool)
        ensures
            final(self).devices@ == config.devices@,
            final(self).key_set() == old(self).key_set().union(required_keys(config.devices@)),
            final(self).rel_axis_set() == old(self).rel_axis_set().union(required_rel_axes(config.devices@)),
            rebuild == !(required_keys(config.devices@).subset_of(old(self).key_set())
                && required_rel_axes(config.devices@).subset_of(old(self).rel_axis_set())),
    {
        let key_targets = targets(&config.devices, false);
        let rel_targets = targets(&config.devices, true);
        let rebuild = !(has_key_codes(&self.keys, &key_targets) && has_rel_axis_codes(&self.rel_axes, &rel_targets));
        add_key_codes(&mut self.keys, &key_targets);
        add_rel_axis_codes(&mut self.rel_axes, &rel_targets);
        self.devices = config.devices;
        rebuild
    }

    /// The actions configured for the device `id`.
    fn actions_of(&self, id: &str) -> (r: Option<&Vec<Action>>)
        ensures
            match r {
                Some(a) => actions_for(self.devices@, id@) == Some(a@),
                None => actions_for(self.devices@, id@) is None,
            },
    {
        let mut i: usize = self.devices.len();
        assert(self.devices@.take(i as int) =~= self.devices@);
        while i > 0
            invariant
                i <= self.devices@.len(),
                actions_for(self.devices@, id@) == actions_for(self.devices@.take(i as int), id@),
            decreases i,
        {
            proof {
                assert(self.devices@.take(i - 1) =~= self.devices@.take(i as int).drop_last());
            }
            let name = self.devices[i - 1].accessor.to_string();
            if str_eq(name.as_str(), id) {
                return Some(&self.devices[i - 1].actions);
            }
            i = i - 1;
        }
        None
    }

    /// What the configured actions do for an input of a device: hooks to run, reports to
    /// make and events to emit on the virtual device, in the order of the actions. A bind
    /// from a key or button to an axis does nothing.
    pub fn handle_input(&self, input: &DeviceInput) -> (r: Vec<Effect>)
        ensures
            effect_views(r@) == match actions_for(self.devices@, input.device@) {
                Some(actions) => effects_of_actions(actions, input.input_event),
                None => Seq::empty(),
            },
    {
        let mut r: Vec<Effect> = Vec::new();
        let actions = match self.actions_of(input.device()) {
            Some(actions) => actions,
            None => {
                assert(effect_views(r@) =~= Seq::empty());
                return r;
            },
        };
        let ev = input.input_event();
        let source = ev.input();
        let state = ev.state();
        let mut i: usize = 0;
        while i < actions.len()
            invariant
                i <= actions@.len(),
                source == ev.input_spec(),
                state == ev.state_spec(),
                effect_views(r@) == effects_of_actions(actions@.take(i as int), ev),
            decreases actions@.len() - i,
        {
            let action = &actions[i];
            let ghost before = r@;
            if action.bind == source {
                match &action.action {
                    ActionType::Hook { when, cmd } => {
                        if when.test(state) {
                            r.push(Effect::Hook(cmd.clone()));
                        }
                    },
                    ActionType::Print { when, print } => {
                        if when.test(state) {
                            r.push(Effect::Print(print.clone()));
                        }
                    },
                    ActionType::Bind { when, to } => {
                        if !(source.is_toggle() && !to.is_toggle()) {
                            let (type_, code) = to.raw();
                            let value = bind_value(*when, source, *to, state);
                            r.push(Effect::Emit { type_, code, value });
                        }
                    },
                }
            }
            proof {
                assert(actions@.take(i + 1).drop_last() =~= actions@.take(i as int));
                assert(effect_views(r@) =~= effect_views(before) + effects_of_action(actions@[i as int], ev));
            }
            i = i + 1;
        }
        assert(actions@.take(i as int) =~= actions@);
        r
    }
}

/// The capabilities advertised after the first `n` of a sequence of configurations, starting
/// from `start`: each update adds what its configuration requires.
pub open spec fn advertised_after(start: Set<u16>, configs: Seq<Seq<Device>>, rel: bool, n: int) -> Set<u16>
    decreases n,
{
    if n <= 0 {
        start
    } else {
        advertised_after(start, configs, rel, n - 1).union(targets_of_devices(configs[n - 1], rel))
    }
}

/// Across any sequence of configuration updates, the advertised key codes and
/// relative-axis codes only grow.
pub proof fn lemma_capabilities_grow(start: Set<u16>, configs: Seq<Seq<Device>>, rel: bool, i: int, j: int)
    requires
        0 <= i <= j <= configs.len(),
    ensures
        advertised_after(start, configs, rel, i).subset_of(advertised_after(start, configs, rel, j)),
    decreases j - i,
{
    if i < j {
        lemma_capabilities_grow(start, configs, rel, i, j - 1);
    }
}

/// A hook that fires on a press runs its command exactly once for a press of its input,
/// and not at all for a release or a repeat.
pub proof fn lemma_hook_fires_on_press(a: Action, cmd: Seq<char>, ev: InputEvent, state: InputState)
    requires
        a.bind == ev.input_spec(),
        a.action@ == (ActionTypeView::Hook { when: WhenCondition::InputState(InputState::Pressed), cmd }),
        ev.state_spec() == state.value(),
    ensures
        effects_of_actions(seq![a], ev) == if state == InputState::Pressed {
            seq![EffectView::Hook(cmd)]
        } else {
            Seq::<EffectView>::empty()
        },
{
    let one = seq![a];
    assert(one.drop_last() =~= Seq::<Action>::empty());
    assert(one.last() == a);
    assert(effects_of_actions(one.drop_last(), ev) == Seq::<EffectView>::empty());
    assert(effects_of_actions(one, ev) =~= effects_of_action(a, ev));
}

} // verus!
