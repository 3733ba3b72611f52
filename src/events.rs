use vstd::prelude::*;

use crate::device::DeviceId;
use crate::input::InputEvent;

verus! {

/// Kernel event type of synchronisation events.
pub const EV_SYN: u16 = 0;

/// Kernel event type of miscellaneous events.
pub const EV_MSC: u16 = 4;

/// Kernel code of the miscellaneous event that reports a scan code.
pub const MSC_SCAN: u16 = 4;

/// When the kernel recorded an event.
#[derive(Debug, Copy, Clone, PartialEq, Eq, Structural)]
pub struct Timestamp {
    pub secs: u64,
    pub nanos: u32,
}

/// The kernel's type and code of an event.
#[derive(Debug, Copy, Clone, PartialEq, Eq, Structural)]
pub struct EventKind {
    pub type_: u16,
    pub code: u16,
}

impl EventKind {
    /// Synchronisation events and scan-code reports carry nothing for this system.
    pub open spec fn is_filtered_spec(self) -> bool {
        self.type_ == EV_SYN || (self.type_ == EV_MSC && self.code == MSC_SCAN)
    }

    pub fn is_filtered(&self) -> (r: bool)
        ensures
            r == self.is_filtered_spec(),
    {
        self.type_ == EV_SYN || (self.type_ == EV_MSC && self.code == MSC_SCAN)
    }
}

/// An event as read from a device node.
#[derive(Debug, Copy, Clone, PartialEq, Eq, Structural)]
pub struct RawEvent {
    pub timestamp: Timestamp,
    pub kind: EventKind,
    pub value: i32,
}

/// A raw event of a watched device.
#[derive(Debug, Clone)]
pub struct DeviceEvent {
    pub device: DeviceId,
    pub timestamp: Timestamp,
    pub kind: EventKind,
    pub value: i32,
}

/// An event of a watched device, decoded into the input taxonomy.
#[derive(Debug, Clone)]
pub struct DeviceInput {
    pub timestamp: Timestamp,
    pub input_event: InputEvent,
    pub device: DeviceId,
}

/// A message of the event pipeline.
#[derive(Debug)]
pub enum Event {
    /// The configuration file at this path changed.
    ConfigWatchEvent(String),
    /// Device nodes appeared and disappeared.
    DeviceWatchEvent { added: Vec<String>, removed: Vec<String> },
    DeviceEvent(DeviceEvent),
    DeviceInput(DeviceInput),
}

pub struct DeviceEventView {
    pub device: Seq<char>,
    pub timestamp: Timestamp,
    pub kind: EventKind,
    pub value: i32,
}

pub struct DeviceInputView {
    pub device: Seq<char>,
    pub timestamp: Timestamp,
    pub input_event: InputEvent,
}

pub enum EventView {
    ConfigWatchEvent(Seq<char>),
    DeviceWatchEvent { added: Seq<Seq<char>>, removed: Seq<Seq<char>> },
    DeviceEvent(DeviceEventView),
    DeviceInput(DeviceInputView),
}

impl View for DeviceEvent {
    type V = DeviceEventView;

    open spec fn view(&self) -> DeviceEventView {
        DeviceEventView {
            device: self.device@,
            timestamp: self.timestamp,
            kind: self.kind,
            value: self.value,
        }
    }
}

impl View for DeviceInput {
    type V = DeviceInputView;

    open spec fn view(&self) -> DeviceInputView {
        DeviceInputView {
            device: self.device@,
            timestamp: self.timestamp,
            input_event: self.input_event,
        }
    }
}

/// The texts of a sequence of strings.
pub open spec fn texts(s: Seq<String>) -> Seq<Seq<char>> {
    s.map_values(|x: String| x@)
}

impl View for Event {
    type V = EventView;

    open spec fn view(&self) -> EventView {
        match self {
            Event::ConfigWatchEvent(p) => EventView::ConfigWatchEvent(p@),
            Event::DeviceWatchEvent { added, removed } => EventView::DeviceWatchEvent {
                added: texts(added@),
                removed: texts(removed@),
            },
            Event::DeviceEvent(e) => EventView::DeviceEvent(e@),
            Event::DeviceInput(e) => EventView::DeviceInput(e@),
        }
    }
}

/// The values of a sequence of events.
pub open spec fn event_views(s: Seq<Event>) -> Seq<EventView> {
    s.map_values(|e: Event| e@)
}

impl DeviceEvent {
    pub fn new(device: DeviceId, raw: RawEvent) -> (r: DeviceEvent)
        ensures
            r.device == device,
            r.timestamp == raw.timestamp,
            r.kind == raw.kind,
            r.value == raw.value,
    {
        DeviceEvent { device, timestamp: raw.timestamp, kind: raw.kind, value: raw.value }
    }

    pub fn device(&self) -> (r: &str)
        ensures
            r@ == self.device@,
    {
        self.device.as_str()
    }

    pub fn timestamp(&self) -> (r: Timestamp)
        ensures
            r == self.timestamp,
    {
        self.timestamp
    }

    pub fn value(&self) -> (r: i32)
        ensures
            r == self.value,
    {
        self.value
    }

    pub fn kind(&self) -> (r: EventKind)
        ensures
            r == self.kind,
    {
        self.kind
    }
}

impl DeviceInput {
    /// The decoded form of a device event, when its kind belongs to the input taxonomy.
    pub fn try_from_event(event: &DeviceEvent) -> (r: Option<DeviceInput>)
        ensures
            match r {
                Some(i) => InputEvent::from_raw_spec(event.kind.type_, event.kind.code, event.value)
                    == Some(i.input_event) && i.device@ == event.device@ && i.timestamp
                    == event.timestamp,
                None => InputEvent::from_raw_spec(event.kind.type_, event.kind.code, event.value) is None,
            },
    {
        match InputEvent::try_from_raw(event.kind.type_, event.kind.code, event.value) {
            Some(input_event) => Some(
                DeviceInput {
                    timestamp: event.timestamp,
                    input_event,
                    device: event.device.clone(),
                },
            ),
            None => None,
        }
    }

    pub fn input_event(&self) -> (r: InputEvent)
        ensures
            r == self.input_event,
    {
        self.input_event
    }

    pub fn device(&self) -> (r: &str)
        ensures
            r@ == self.device@,
    {
        self.device.as_str()
    }
}

/// What the pipeline receives for one raw event of the device `id`: nothing for a filtered
/// kind; else the device event, followed by its decoded input when it has one.
pub open spec fn forward_spec(id: Seq<char>, raw: RawEvent) -> Seq<EventView> {
    if raw.kind.is_filtered_spec() {
        Seq::empty()
    } else {
        let ev = EventView::DeviceEvent(
            DeviceEventView { device: id, timestamp: raw.timestamp, kind: raw.kind, value: raw.value },
        );
        match InputEvent::from_raw_spec(raw.kind.type_, raw.kind.code, raw.value) {
            Some(ie) => seq![
                ev,
                EventView::DeviceInput(
                    DeviceInputView { device: id, timestamp: raw.timestamp, input_event: ie },
                ),
            ],
            None => seq![ev],
        }
    }
}

/// What the pipeline receives for a batch of raw events of the device `id`, in order.
pub open spec fn forward_batch_spec(id: Seq<char>, raws: Seq<RawEvent>) -> Seq<EventView>
    decreases raws.len(),
{
    if raws.len() == 0 {
        Seq::empty()
    } else {
        forward_batch_spec(id, raws.drop_last()) + forward_spec(id, raws.last())
    }
}

/// The pipeline events for one raw event of the device `id`.
pub fn forward_event(id: &str, raw: RawEvent) -> (r: Vec<Event>)
    ensures
        event_views(r@) == forward_spec(id@, raw),
{
    let mut r: Vec<Event> = Vec::new();
    if raw.kind.is_filtered() {
        assert(event_views(r@) =~= forward_spec(id@, raw));
        return r;
    }
    let event = DeviceEvent::new(id.to_owned(), raw);
    let input = DeviceInput::try_from_event(&event);
    r.push(Event::DeviceEvent(event));
    match input {
        Some(input) => r.push(Event::DeviceInput(input)),
        None => {},
    }
    assert(event_views(r@) =~= forward_spec(id@, raw));
    r
}

/// The pipeline events for a batch of raw events of the device `id`.
pub fn forward_events(id: &str, raws: &Vec<RawEvent>) -> (r: Vec<Event>)
    ensures
        event_views(r@) == forward_batch_spec(id@, raws@),
{
    let mut r: Vec<Event> = Vec::new();
    let mut i: usize = 0;
    while i < raws.len()
        invariant
            i <= raws@.len(),
            event_views(r@) == forward_batch_spec(id@, raws@.take(i as int)),
        decreases raws@.len() - i,
    {
        let mut more = forward_event(id, raws[i]);
        let ghost before = r@;
        r.append(&mut more);
        proof {
            assert(raws@.take(i + 1).drop_last() =~= raws@.take(i as int));
            assert(event_views(r@) =~= event_views(before) + forward_spec(id@, raws@[i as int]));
        }
        i = i + 1;
    }
    assert(raws@.take(i as int) =~= raws@);
    r
}

/// No synchronisation event and no scan-code report reaches the pipeline.
pub proof fn lemma_forward_filters(id: Seq<char>, raws: Seq<RawEvent>)
    ensures
        forall|j: int|
            0 <= j < forward_batch_spec(id, raws).len() && forward_batch_spec(id, raws)[j] is DeviceEvent
                ==> !forward_batch_spec(id, raws)[j]->DeviceEvent_0.kind.is_filtered_spec(),
    decreases raws.len(),
{
    if raws.len() > 0 {
        lemma_forward_filters(id, raws.drop_last());
        let prev = forward_batch_spec(id, raws.drop_last());
        let all = forward_batch_spec(id, raws);
        assert forall|j: int| 0 <= j < all.len() && all[j] is DeviceEvent implies !all[j]->DeviceEvent_0.kind.is_filtered_spec() by {
            if j < prev.len() {
                assert(all[j] == prev[j]);
            }
        }
    }
}

/// Every decoded input in the pipeline comes right after the device event it was decoded
/// from, with the same device and timestamp.
pub proof fn lemma_forward_order(id: Seq<char>, raws: Seq<RawEvent>)
    ensures
        forall|j: int|
            0 <= j < forward_batch_spec(id, raws).len() && forward_batch_spec(id, raws)[j] is DeviceInput
                ==> j > 0 && forward_batch_spec(id, raws)[j - 1] is DeviceEvent
                && forward_batch_spec(id, raws)[j - 1]->DeviceEvent_0.device == forward_batch_spec(id, raws)[j]->DeviceInput_0.device
                && forward_batch_spec(id, raws)[j - 1]->DeviceEvent_0.timestamp == forward_batch_spec(id, raws)[j]->DeviceInput_0.timestamp,
    decreases raws.len(),
{
    if raws.len() > 0 {
        lemma_forward_order(id, raws.drop_last());
        let prev = forward_batch_spec(id, raws.drop_last());
        let all = forward_batch_spec(id, raws);
        assert forall|j: int| 0 <= j < all.len() && all[j] is DeviceInput implies j > 0 && all[j - 1] is DeviceEvent
            && all[j - 1]->DeviceEvent_0.device == all[j]->DeviceInput_0.device
            && all[j - 1]->DeviceEvent_0.timestamp == all[j]->DeviceInput_0.timestamp by {
            if j < prev.len() {
                assert(all[j] == prev[j]);
                assert(all[j - 1] == prev[j - 1]);
            }
        }
    }
}

} // verus!
