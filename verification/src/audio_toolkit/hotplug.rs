//! Hot-plug audio device detection
//!
//! Tracks the known audio devices and, given each new snapshot of the
//! devices present, reports which were connected and which disconnected.
//! The application enumerates the devices and polls on its own thread.

use vstd::prelude::*;

verus! {

/// Audio device information
#[derive(Clone, Debug, PartialEq, Eq, Hash)]
pub struct DeviceInfo {
    pub name: String,
    pub is_input: bool,
    pub is_default: bool,
}

/// What identifies a device: its name, direction and default flag.
pub struct DeviceKey {
    pub name: Seq<char>,
    pub is_input: bool,
    pub is_default: bool,
}

/// The identity of a device.
pub open spec fn device_key(d: DeviceInfo) -> DeviceKey {
    DeviceKey { name: d.name@, is_input: d.is_input, is_default: d.is_default }
}

/// Hot-plug event
#[derive(Clone, Debug)]
pub enum HotplugEvent {
    /// Device was connected
    Connected(DeviceInfo),
    /// Device was disconnected
    Disconnected(DeviceInfo),
}

/// The devices of a list, as a set of identities.
pub open spec fn device_set(devices: Seq<DeviceInfo>) -> Set<DeviceKey> {
    Set::new(|k: DeviceKey| exists|i: int| 0 <= i < devices.len() && device_key(devices[i]) == k)
}

/// Whether no device appears twice in a list.
pub open spec fn distinct_devices(devices: Seq<DeviceInfo>) -> bool {
    forall|i: int, j: int|
        0 <= i < j < devices.len() ==> device_key(devices[i]) != device_key(devices[j])
}

/// The device that an event is about.
pub open spec fn event_device(e: HotplugEvent) -> DeviceInfo {
    match e {
        HotplugEvent::Connected(d) => d,
        HotplugEvent::Disconnected(d) => d,
    }
}

/// The identities of the devices that the events of one kind report.
pub open spec fn event_set(events: Seq<HotplugEvent>, connected: bool) -> Set<DeviceKey> {
    Set::new(
        |k: DeviceKey|
            exists|i: int|
                0 <= i < events.len() && (#[trigger] events[i] is Connected) == connected
                    && device_key(event_device(events[i])) == k,
    )
}

/// Whether no event is reported twice.
pub open spec fn distinct_events(events: Seq<HotplugEvent>) -> bool {
    forall|i: int, j: int|
        0 <= i < j < events.len() && (events[i] is Connected) == (events[j] is Connected)
            ==> device_key(event_device(#[trigger] events[i])) != device_key(
            event_device(#[trigger] events[j]),
        )
}

/// A copy of a device.
fn copy_device(d: &DeviceInfo) -> (c: DeviceInfo)
    ensures
        device_key(c) == device_key(*d),
{
    DeviceInfo { name: d.name.clone(), is_input: d.is_input, is_default: d.is_default }
}

/// Whether two devices are the same device.
fn same_device(a: &DeviceInfo, b: &DeviceInfo) -> (same: bool)
    ensures
        same == (device_key(*a) == device_key(*b)),
{
    a.is_input == b.is_input && a.is_default == b.is_default && a.name == b.name
}

/// Whether a list holds a device.
fn contains_device(devices: &Vec<DeviceInfo>, d: &DeviceInfo) -> (found: bool)
    ensures
        found == device_set(devices@).contains(device_key(*d)),
{
    let mut i: usize = 0;
    while i < devices.len()
        invariant
            i <= devices@.len(),
            forall|j: int| 0 <= j < i ==> device_key(devices@[j]) != device_key(*d),
        decreases devices@.len() - i,
    {
        if same_device(&devices[i], d) {
            return true;
        }
        i = i + 1;
    }
    false
}

/// The devices of a list, each once, in the order of their first appearance.
pub fn distinct_copy(devices: &Vec<DeviceInfo>) -> (unique: Vec<DeviceInfo>)
    ensures
        distinct_devices(unique@),
        device_set(unique@) == device_set(devices@),
{
    let mut unique: Vec<DeviceInfo> = Vec::new();
    let mut i: usize = 0;
    while i < devices.len()
        invariant
            i <= devices@.len(),
            distinct_devices(unique@),
            forall|j: int| 0 <= j < i ==> device_set(unique@).contains(device_key(#[trigger] devices@[j])),
            forall|m: int| 0 <= m < unique@.len() ==> device_set(devices@).contains(device_key(#[trigger] unique@[m])),
        decreases devices@.len() - i,
    {
        let ghost before = unique@;
        if !contains_device(&unique, &devices[i]) {
            unique.push(copy_device(&devices[i]));
            assert(device_key(unique@[before.len() as int]) == device_key(devices@[i as int]));
            assert forall|j: int| 0 <= j <= i implies device_set(unique@).contains(device_key(#[trigger] devices@[j])) by {
                if j < i {
                    let m = choose|m: int| #![trigger before[m]] 0 <= m < before.len() && device_key(before[m]) == device_key(devices@[j]);
                    assert(unique@[m] == before[m]);
                } else {
                    assert(device_key(unique@[before.len() as int]) == device_key(devices@[j]));
                }
            }
            assert forall|m: int| 0 <= m < unique@.len() implies device_set(devices@).contains(device_key(#[trigger] unique@[m])) by {
                if m < before.len() {
                    assert(unique@[m] == before[m]);
                } else {
                    assert(device_key(devices@[i as int]) == device_key(unique@[m]));
                }
            }
        }
        i = i + 1;
    }
    assert(device_set(unique@) =~= device_set(devices@)) by {
        assert forall|k: DeviceKey| device_set(devices@).contains(k) implies device_set(unique@).contains(k) by {
            let j = choose|j: int| #![trigger devices@[j]] 0 <= j < devices@.len() && device_key(devices@[j]) == k;
            assert(device_set(unique@).contains(device_key(devices@[j])));
        }
        assert forall|k: DeviceKey| device_set(unique@).contains(k) implies device_set(devices@).contains(k) by {
            let m = choose|m: int| #![trigger unique@[m]] 0 <= m < unique@.len() && device_key(unique@[m]) == k;
            assert(device_set(devices@).contains(device_key(unique@[m])));
        }
    }
    unique
}

/// The devices that a poll reports as connected or disconnected, given the
/// devices known before and the devices present now.
pub open spec fn poll_events_match(
    events: Seq<HotplugEvent>,
    known: Set<DeviceKey>,
    current: Set<DeviceKey>,
) -> bool {
    &&& event_set(events, true) == current.difference(known)
    &&& event_set(events, false) == known.difference(current)
    &&& distinct_events(events)
}

/// Taking one more device adds its identity to the set of a prefix.
proof fn lemma_device_set_take(s: Seq<DeviceInfo>, i: int)
    requires
        0 <= i < s.len(),
    ensures
        device_set(s.take(i + 1)) == device_set(s.take(i)).insert(device_key(s[i])),
{
    assert forall|k: DeviceKey| #[trigger] device_set(s.take(i + 1)).contains(k) implies device_set(
        s.take(i),
    ).insert(device_key(s[i])).contains(k) by {
        let m = choose|m: int| #![trigger s.take(i + 1)[m]] 0 <= m < s.take(i + 1).len() && device_key(s.take(i + 1)[m]) == k;
        if m < i {
            assert(s.take(i)[m] == s.take(i + 1)[m]);
        }
    }
    assert forall|k: DeviceKey| #[trigger] device_set(s.take(i)).insert(device_key(s[i])).contains(
        k,
    ) implies device_set(s.take(i + 1)).contains(k) by {
        if k == device_key(s[i]) {
            assert(s.take(i + 1)[i] == s[i]);
        } else {
            let m = choose|m: int| #![trigger s.take(i)[m]] 0 <= m < s.take(i).len() && device_key(s.take(i)[m]) == k;
            assert(s.take(i + 1)[m] == s.take(i)[m]);
        }
    }
    assert(device_set(s.take(i + 1)) =~= device_set(s.take(i)).insert(device_key(s[i])));
}

/// In a list without repeats, a device is not among those before it.
proof fn lemma_distinct_fresh(s: Seq<DeviceInfo>, i: int)
    requires
        distinct_devices(s),
        0 <= i < s.len(),
    ensures
        !device_set(s.take(i)).contains(device_key(s[i])),
{
    if device_set(s.take(i)).contains(device_key(s[i])) {
        let m = choose|m: int| #![trigger s.take(i)[m]] 0 <= m < s.take(i).len() && device_key(s.take(i)[m]) == device_key(s[i]);
        assert(s.take(i)[m] == s[m]);
    }
}

/// Adding an event adds its device to the set of its kind, and leaves the
/// other kind's set alone.
proof fn lemma_event_set_push_kind(events: Seq<HotplugEvent>, e: HotplugEvent, c: bool)
    ensures
        event_set(events.push(e), c) == (if (e is Connected) == c {
            event_set(events, c).insert(device_key(event_device(e)))
        } else {
            event_set(events, c)
        }),
{
    let pushed = events.push(e);
    let expected = if (e is Connected) == c {
        event_set(events, c).insert(device_key(event_device(e)))
    } else {
        event_set(events, c)
    };
    assert forall|k: DeviceKey| #[trigger] event_set(pushed, c).contains(k) implies expected.contains(k) by {
        let m = choose|m: int| #![trigger pushed[m]]
            0 <= m < pushed.len() && (pushed[m] is Connected) == c && device_key(
                event_device(pushed[m]),
            ) == k;
        if m < events.len() {
            assert(pushed[m] == events[m]);
        }
    }
    assert forall|k: DeviceKey| #[trigger] expected.contains(k) implies event_set(pushed, c).contains(k) by {
        if (e is Connected) == c && k == device_key(event_device(e)) {
            assert(pushed[events.len() as int] == e);
        } else {
            let m = choose|m: int| #![trigger events[m]]
                0 <= m < events.len() && (events[m] is Connected) == c && device_key(
                    event_device(events[m]),
                ) == k;
            assert(pushed[m] == events[m]);
        }
    }
    assert(event_set(pushed, c) =~= expected);
}

/// Adding an event adds its device to the set of its kind.
proof fn lemma_event_set_push(events: Seq<HotplugEvent>, e: HotplugEvent)
    ensures
        event_set(events.push(e), true) == (if e is Connected {
            event_set(events, true).insert(device_key(event_device(e)))
        } else {
            event_set(events, true)
        }),
        event_set(events.push(e), false) == (if e is Connected {
            event_set(events, false)
        } else {
            event_set(events, false).insert(device_key(event_device(e)))
        }),
{
    lemma_event_set_push_kind(events, e, true);
    lemma_event_set_push_kind(events, e, false);
}

/// An event about a device not yet reported in its kind keeps the events
/// free of repeats.
proof fn lemma_distinct_events_push(events: Seq<HotplugEvent>, e: HotplugEvent)
    requires
        distinct_events(events),
        !event_set(events, e is Connected).contains(device_key(event_device(e))),
    ensures
        distinct_events(events.push(e)),
{
    let pushed = events.push(e);
    assert forall|a: int, b: int|
        0 <= a < b < pushed.len() && (pushed[a] is Connected) == (pushed[b] is Connected) implies device_key(
        event_device(#[trigger] pushed[a]),
    ) != device_key(event_device(#[trigger] pushed[b])) by {
        assert(pushed[a] == events[a]);
        if b == events.len() {
            assert(pushed[b] == e);
            if device_key(event_device(events[a])) == device_key(event_device(e)) {
                assert(event_set(events, e is Connected).contains(device_key(event_device(e))));
            }
        } else {
            assert(pushed[b] == events[b]);
        }
    }
}

/// Whether the connection events come before the disconnection events.
pub open spec fn connected_first(events: Seq<HotplugEvent>) -> bool {
    forall|i: int, j: int|
        0 <= i < j < events.len() ==> !(#[trigger] events[i] is Disconnected
            && #[trigger] events[j] is Connected)
}

/// Hot-plug detector
///
/// Tracks audio devices and detects connect/disconnect events.
pub struct HotplugDetector {
    known_devices: Vec<DeviceInfo>,
    is_running: bool,
    poll_interval_ms: u64,
}

impl HotplugDetector {
    /// The devices known, each once.
    pub closed spec fn known_view(self) -> Seq<DeviceInfo> {
        self.known_devices@
    }

    /// Whether monitoring is on.
    pub closed spec fn running_view(self) -> bool {
        self.is_running
    }

    /// How often to check for device changes, in milliseconds.
    pub closed spec fn interval_view(self) -> nat {
        self.poll_interval_ms as nat
    }

    /// The detector's invariant: no device is known twice.
    #[verifier::type_invariant]
    pub closed spec fn well_formed(self) -> bool {
        distinct_devices(self.known_devices@)
    }

    /// Creates a new hot-plug detector that checks for device changes every
    /// `poll_interval_ms` milliseconds.
    pub fn new(poll_interval_ms: u64) -> (d: Self)
        ensures
            d.well_formed(),
            d.known_view() == Seq::<DeviceInfo>::empty(),
            !d.running_view(),
            d.interval_view() == poll_interval_ms,
    {
        HotplugDetector { known_devices: Vec::new(), is_running: false, poll_interval_ms }
    }

    /// Creates detector with default 2-second poll interval
    pub fn default() -> (d: Self)
        ensures
            d.well_formed(),
            d.known_view() == Seq::<DeviceInfo>::empty(),
            !d.running_view(),
            d.interval_view() == 2000,
    {
        Self::new(2000)
    }

    /// Starts monitoring with `devices` as the devices present now. Returns
    /// `false`, changing nothing, when monitoring is already on.
    pub fn start(&mut self, devices: &Vec<DeviceInfo>) -> (started: bool)
        ensures
            final(self).well_formed(),
            started == !old(self).running_view(),
            final(self).running_view(),
            final(self).interval_view() == old(self).interval_view(),
            started ==> device_set(final(self).known_view()) == device_set(devices@),
            !started ==> final(self).known_view() == old(self).known_view(),
    {
        proof {
            use_type_invariant(&*self);
        }
        if self.is_running {
            return false;
        }
        self.is_running = true;
        self.scan_devices(devices);
        true
    }

    /// Stops monitoring
    pub fn stop(&mut self)
        ensures
            !final(self).running_view(),
            final(self).known_view() == old(self).known_view(),
            final(self).interval_view() == old(self).interval_view(),
            final(self).well_formed() == old(self).well_formed(),
    {
        proof {
            use_type_invariant(&*self);
        }
        self.is_running = false;
    }

    /// Takes `devices` as the known devices.
    pub fn scan_devices(&mut self, devices: &Vec<DeviceInfo>)
        ensures
            final(self).well_formed(),
            device_set(final(self).known_view()) == device_set(devices@),
            final(self).running_view() == old(self).running_view(),
            final(self).interval_view() == old(self).interval_view(),
    {
        self.known_devices = distinct_copy(devices);
    }

    /// Compares the devices present now with the known ones: reports each
    /// newly connected device, then each disconnected one, and takes the
    /// present devices as the known ones.
    pub fn poll(&mut self, devices: &Vec<DeviceInfo>) -> (events: Vec<HotplugEvent>)
        ensures
            final(self).well_formed(),
            poll_events_match(
                events@,
                device_set(old(self).known_view()),
                device_set(devices@),
            ),
            connected_first(events@),
            device_set(final(self).known_view()) == device_set(devices@),
            final(self).running_view() == old(self).running_view(),
            final(self).interval_view() == old(self).interval_view(),
    {
        proof {
            use_type_invariant(&*self);
        }
        let current = distinct_copy(devices);
        let mut events: Vec<HotplugEvent> = Vec::new();
        let ghost known = device_set(self.known_devices@);
        let ghost now = device_set(current@);
        assert(current@.take(0) =~= Seq::<DeviceInfo>::empty());
        assert(device_set(current@.take(0)) =~= Set::<DeviceKey>::empty());
        assert(event_set(events@, true) =~= Set::<DeviceKey>::empty());
        assert(event_set(events@, false) =~= Set::<DeviceKey>::empty());
        let mut i: usize = 0;
        while i < current.len()
            invariant
                i <= current@.len(),
                distinct_devices(current@),
                now == device_set(current@),
                known == device_set(self.known_devices@),
                distinct_events(events@),
                forall|e: int| 0 <= e < events@.len() ==> #[trigger] events@[e] is Connected,
                event_set(events@, true) == now.difference(known).intersect(
                    device_set(current@.take(i as int)),
                ),
                event_set(events@, false) == Set::<DeviceKey>::empty(),
            decreases current@.len() - i,
        {
            let ghost before = events@;
            let ghost k = device_key(current@[i as int]);
            proof {
                lemma_device_set_take(current@, i as int);
                lemma_distinct_fresh(current@, i as int);
                assert(now.contains(k));
            }
            if !contains_device(&self.known_devices, &current[i]) {
                let e = HotplugEvent::Connected(copy_device(&current[i]));
                proof {
                    lemma_distinct_events_push(before, e);
                    lemma_event_set_push(before, e);
                }
                events.push(e);
            }
            assert(event_set(events@, true) =~= now.difference(known).intersect(
                device_set(current@.take(i + 1)),
            ));
            i = i + 1;
        }
        assert(current@.take(current@.len() as int) =~= current@);
        assert(event_set(events@, true) =~= now.difference(known));
        assert(self.known_devices@.take(0) =~= Seq::<DeviceInfo>::empty());
        assert(device_set(self.known_devices@.take(0)) =~= Set::<DeviceKey>::empty());
        let mut j: usize = 0;
        while j < self.known_devices.len()
            invariant
                j <= self.known_devices@.len(),
                distinct_devices(self.known_devices@),
                now == device_set(current@),
                known == device_set(self.known_devices@),
                distinct_events(events@),
                connected_first(events@),
                event_set(events@, true) == now.difference(known),
                event_set(events@, false) == known.difference(now).intersect(
                    device_set(self.known_devices@.take(j as int)),
                ),
            decreases self.known_devices@.len() - j,
        {
            let ghost before = events@;
            let ghost k = device_key(self.known_devices@[j as int]);
            proof {
                lemma_device_set_take(self.known_devices@, j as int);
                lemma_distinct_fresh(self.known_devices@, j as int);
                assert(known.contains(k));
            }
            if !contains_device(&current, &self.known_devices[j]) {
                let e = HotplugEvent::Disconnected(copy_device(&self.known_devices[j]));
                proof {
                    assert(connected_first(before.push(e))) by {
                        assert forall|a: int, b: int| 0 <= a < b < before.push(e).len() implies !(#[trigger] before.push(e)[a] is Disconnected && #[trigger] before.push(e)[b] is Connected) by {
                            if b < before.len() {
                                assert(before.push(e)[a] == before[a]);
                                assert(before.push(e)[b] == before[b]);
                            }
                        }
                    }
                    lemma_distinct_events_push(before, e);
                    lemma_event_set_push(before, e);
                }
                events.push(e);
            }
            assert(event_set(events@, false) =~= known.difference(now).intersect(
                device_set(self.known_devices@.take(j + 1)),
            ));
            j = j + 1;
        }
        assert(self.known_devices@.take(self.known_devices@.len() as int) =~= self.known_devices@);
        assert(event_set(events@, false) =~= known.difference(now));
        self.known_devices = current;
        events
    }

    /// Gets list of currently known devices
    pub fn known_devices(&self) -> (devices: Vec<DeviceInfo>)
        ensures
            distinct_devices(devices@),
            devices@.len() == self.known_view().len(),
            forall|i: int|
                0 <= i < devices@.len() ==> device_key(#[trigger] devices@[i]) == device_key(
                    self.known_view()[i],
                ),
    {
        proof {
            use_type_invariant(self);
        }
        let mut devices: Vec<DeviceInfo> = Vec::new();
        let mut i: usize = 0;
        while i < self.known_devices.len()
            invariant
                i <= self.known_devices@.len(),
                devices@.len() == i,
                forall|m: int|
                    0 <= m < i ==> device_key(#[trigger] devices@[m]) == device_key(
                        self.known_devices@[m],
                    ),
            decreases self.known_devices@.len() - i,
        {
            devices.push(copy_device(&self.known_devices[i]));
            i = i + 1;
        }
        devices
    }

    /// Checks if detector is running
    pub fn is_running(&self) -> (b: bool)
        ensures
            b == self.running_view(),
    {
        self.is_running
    }

    /// The poll interval in milliseconds.
    pub fn poll_interval_ms(&self) -> (ms: u64)
        ensures
            ms == self.interval_view(),
    {
        self.poll_interval_ms
    }
}

/// Hot-plug law: the changes that a poll reports, applied to the devices
/// known before it (the disconnected ones taken out, the connected ones
/// added), give exactly the devices present now.
pub proof fn lemma_poll_changes_apply(
    events: Seq<HotplugEvent>,
    known: Set<DeviceKey>,
    current: Set<DeviceKey>,
)
    requires
        poll_events_match(events, known, current),
    ensures
        known.difference(event_set(events, false)).union(event_set(events, true)) == current,
{
    assert(known.difference(event_set(events, false)).union(event_set(events, true)) =~= current);
}

/// Whether `name` is the name of the default device.
pub open spec fn is_default_name(default_name: Option<String>, name: Seq<char>) -> bool {
    match default_name {
        Some(d) => d@ == name,
        None => false,
    }
}

/// The identity of a device of one direction with a given name.
pub open spec fn named_device(name: Seq<char>, is_input: bool, default_name: Option<String>) -> DeviceKey {
    DeviceKey { name, is_input, is_default: is_default_name(default_name, name) }
}

/// The devices of a snapshot: each input and output device by name, marked
/// default when its name is that of the default device of its direction.
pub open spec fn snapshot_set(
    inputs: Seq<String>,
    default_input: Option<String>,
    outputs: Seq<String>,
    default_output: Option<String>,
) -> Set<DeviceKey> {
    Set::new(
        |k: DeviceKey|
            (exists|i: int|
                0 <= i < inputs.len() && k == named_device(#[trigger] inputs[i]@, true, default_input))
                || (exists|i: int|
                0 <= i < outputs.len() && k == named_device(
                    #[trigger] outputs[i]@,
                    false,
                    default_output,
                )),
    )
}

/// Snapshot law: a device is in the snapshot exactly when it is an input
/// device named among the inputs or an output device named among the
/// outputs; an input device is marked default exactly when a default input
/// device is given and bears its name, and an output device exactly when a
/// default output device is given and bears its name, whatever the default of
/// the other direction.
pub proof fn lemma_snapshot_defaults(
    inputs: Seq<String>,
    default_input: Option<String>,
    outputs: Seq<String>,
    default_output: Option<String>,
    k: DeviceKey,
)
    ensures
        snapshot_set(inputs, default_input, outputs, default_output).contains(k) <==> {
            if k.is_input {
                &&& exists|i: int| 0 <= i < inputs.len() && #[trigger] inputs[i]@ == k.name
                &&& k.is_default == (default_input matches Some(d) && d@ == k.name)
            } else {
                &&& exists|i: int| 0 <= i < outputs.len() && #[trigger] outputs[i]@ == k.name
                &&& k.is_default == (default_output matches Some(d) && d@ == k.name)
            }
        },
{
    let set = snapshot_set(inputs, default_input, outputs, default_output);
    if set.contains(k) {
        if exists|i: int|
            0 <= i < inputs.len() && k == named_device(#[trigger] inputs[i]@, true, default_input) {
            let i = choose|i: int|
                0 <= i < inputs.len() && k == named_device(#[trigger] inputs[i]@, true, default_input);
            assert(inputs[i]@ == k.name);
        } else {
            let i = choose|i: int|
                0 <= i < outputs.len() && k == named_device(
                    #[trigger] outputs[i]@,
                    false,
                    default_output,
                );
            assert(outputs[i]@ == k.name);
        }
    } else {
        if k.is_input {
            if exists|i: int| 0 <= i < inputs.len() && #[trigger] inputs[i]@ == k.name {
                let i = choose|i: int| 0 <= i < inputs.len() && #[trigger] inputs[i]@ == k.name;
                if k.is_default == (default_input matches Some(d) && d@ == k.name) {
                    assert(k == named_device(inputs[i]@, true, default_input));
                }
            }
        } else {
            if exists|i: int| 0 <= i < outputs.len() && #[trigger] outputs[i]@ == k.name {
                let i = choose|i: int| 0 <= i < outputs.len() && #[trigger] outputs[i]@ == k.name;
                if k.is_default == (default_output matches Some(d) && d@ == k.name) {
                    assert(k == named_device(outputs[i]@, false, default_output));
                }
            }
        }
    }
}

/// A device of one direction with a given name.
fn make_device(name: &String, is_input: bool, default_name: &Option<String>) -> (d: DeviceInfo)
    ensures
        device_key(d) == named_device(name@, is_input, *default_name),
{
    let is_default = match default_name {
        Some(n) => *n == *name,
        None => false,
    };
    DeviceInfo { name: name.clone(), is_input, is_default }
}

/// The devices present, from the names of the input and output devices and
/// the names of the default ones; each device appears once.
pub fn device_snapshot(
    inputs: &Vec<String>,
    default_input: &Option<String>,
    outputs: &Vec<String>,
    default_output: &Option<String>,
) -> (devices: Vec<DeviceInfo>)
    ensures
        distinct_devices(devices@),
        device_set(devices@) == snapshot_set(inputs@, *default_input, outputs@, *default_output),
{
    let mut all: Vec<DeviceInfo> = Vec::new();
    let mut i: usize = 0;
    while i < inputs.len()
        invariant
            i <= inputs@.len(),
            all@.len() == i,
            forall|m: int|
                0 <= m < i ==> device_key(#[trigger] all@[m]) == named_device(
                    inputs@[m]@,
                    true,
                    *default_input,
                ),
        decreases inputs@.len() - i,
    {
        all.push(make_device(&inputs[i], true, default_input));
        i = i + 1;
    }
    let mut j: usize = 0;
    while j < outputs.len()
        invariant
            j <= outputs@.len(),
            all@.len() == inputs@.len() + j,
            forall|m: int|
                0 <= m < inputs@.len() ==> device_key(#[trigger] all@[m]) == named_device(
                    inputs@[m]@,
                    true,
                    *default_input,
                ),
            forall|m: int|
                inputs@.len() <= m < inputs@.len() + j ==> device_key(#[trigger] all@[m])
                    == named_device(outputs@[m - inputs@.len()]@, false, *default_output),
        decreases outputs@.len() - j,
    {
        all.push(make_device(&outputs[j], false, default_output));
        j = j + 1;
    }
    let ghost expected = snapshot_set(inputs@, *default_input, outputs@, *default_output);
    assert(device_set(all@) =~= expected) by {
        let n = inputs@.len();
        assert forall|k: DeviceKey| #[trigger] device_set(all@).contains(k) implies expected.contains(k) by {
            let m = choose|m: int| #![trigger all@[m]] 0 <= m < all@.len() && device_key(all@[m]) == k;
            if m < n {
                assert(k == named_device(inputs@[m]@, true, *default_input));
            } else {
                assert(k == named_device(outputs@[m - n]@, false, *default_output));
            }
        }
        assert forall|k: DeviceKey| #[trigger] expected.contains(k) implies device_set(all@).contains(k) by {
            if exists|i: int| 0 <= i < inputs@.len() && k == named_device(#[trigger] inputs@[i]@, true, *default_input) {
                let i = choose|i: int| 0 <= i < inputs@.len() && k == named_device(#[trigger] inputs@[i]@, true, *default_input);
                assert(device_key(all@[i]) == k);
            } else {
                let i = choose|i: int| 0 <= i < outputs@.len() && k == named_device(#[trigger] outputs@[i]@, false, *default_output);
                assert(device_key(all@[n + i]) == k);
            }
        }
    }
    distinct_copy(&all)
}

} // verus!
