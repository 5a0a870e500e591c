use vstd::prelude::*;

use crate::device::{DeviceInfo, DeviceInfoView};

verus! {

/// A change in the set of audio devices.
#[derive(Debug, Clone)]
pub enum HotplugEvent {
    /// A device appeared.
    DeviceAdded(DeviceInfo),
    /// The device with this name disappeared.
    DeviceRemoved(String),
}

/// The plain content of a `HotplugEvent`.
pub enum HotplugEventView {
    /// A device appeared.
    DeviceAdded(DeviceInfoView),
    /// The device with this name disappeared.
    DeviceRemoved(Seq<char>),
}

impl View for HotplugEvent {
    type V = HotplugEventView;

    open spec fn view(&self) -> HotplugEventView {
        match self {
            HotplugEvent::DeviceAdded(info) => HotplugEventView::DeviceAdded(info@),
            HotplugEvent::DeviceRemoved(name) => HotplugEventView::DeviceRemoved(name@),
        }
    }
}

/// The views of a list of events.
pub open spec fn event_views(v: Seq<HotplugEvent>) -> Seq<HotplugEventView> {
    v.map_values(|e: HotplugEvent| e@)
}

/// Whether some string in the list has this text.
pub open spec fn has_name(names: Seq<String>, n: Seq<char>) -> bool {
    exists|i: int| 0 <= i < names.len() && #[trigger] names[i]@ == n
}

/// Whether some device in the list has this name.
pub open spec fn has_device_named(devices: Seq<DeviceInfo>, n: Seq<char>) -> bool {
    exists|i: int| 0 <= i < devices.len() && #[trigger] devices[i].name@ == n
}

/// The names of the devices, each text once, in order of first occurrence.
pub open spec fn distinct_names(devices: Seq<DeviceInfo>) -> Seq<String>
    decreases devices.len(),
{
    if devices.len() == 0 {
        Seq::empty()
    } else {
        let prefix = distinct_names(devices.drop_last());
        if has_name(prefix, devices.last().name@) { prefix } else { prefix.push(devices.last().name) }
    }
}

/// `DeviceAdded` for each current device whose name was not known, in order.
pub open spec fn added_events(current: Seq<DeviceInfo>, known: Seq<String>) -> Seq<HotplugEventView>
    decreases current.len(),
{
    if current.len() == 0 {
        Seq::empty()
    } else {
        let prefix = added_events(current.drop_last(), known);
        if has_name(known, current.last().name@) {
            prefix
        } else {
            prefix.push(HotplugEventView::DeviceAdded(current.last()@))
        }
    }
}

/// `DeviceRemoved` for each known name that no current device has, in order.
pub open spec fn removed_events(known: Seq<String>, current: Seq<DeviceInfo>) -> Seq<HotplugEventView>
    decreases known.len(),
{
    if known.len() == 0 {
        Seq::empty()
    } else {
        let prefix = removed_events(known.drop_last(), current);
        if has_device_named(current, known.last()@) {
            prefix
        } else {
            prefix.push(HotplugEventView::DeviceRemoved(known.last()@))
        }
    }
}

/// Follows the device list between polls and reports what changed.
///
/// The first snapshot only sets the baseline; later snapshots report the
/// devices that appeared and the names that disappeared.
pub struct HotplugTracker {
    known: Vec<String>,
    first_snapshot: bool,
}

impl HotplugTracker {
    /// The device names of the last snapshot, each once.
    pub closed spec fn spec_known(&self) -> Seq<String> {
        self.known@
    }

    /// Whether no snapshot has been taken yet.
    pub closed spec fn spec_first(&self) -> bool {
        self.first_snapshot
    }

    /// A tracker that has not seen any snapshot.
    pub fn new() -> (t: Self)
        ensures
            t.spec_first(),
            t.spec_known().len() == 0,
    {
        HotplugTracker { known: Vec::new(), first_snapshot: true }
    }

    /// Takes a new snapshot of the device list. The first one sets the
    /// baseline and reports nothing; later ones report `DeviceAdded` for each
    /// device whose name was not known, then `DeviceRemoved` for each known
    /// name that is gone. The snapshot's names become the known names.
    pub fn observe(&mut self, current: &Vec<DeviceInfo>) -> (events: Vec<HotplugEvent>)
        ensures
            !final(self).spec_first(),
            final(self).spec_known() == distinct_names(current@),
            old(self).spec_first() ==> events@.len() == 0,
            !old(self).spec_first() ==> events@.len() == event_views(events@).len(),
            !old(self).spec_first() ==> event_views(events@) == added_events(current@, old(self).spec_known())
                + removed_events(old(self).spec_known(), current@),
            !old(self).spec_first() ==> forall|j: int| 0 <= j < old(self).spec_known().len()
                && !has_device_named(current@, #[trigger] old(self).spec_known()[j]@)
                ==> event_views(events@).contains(HotplugEventView::DeviceRemoved(old(self).spec_known()[j]@)),
            !old(self).spec_first() ==> forall|i: int| 0 <= i < current@.len()
                && !has_name(old(self).spec_known(), #[trigger] current@[i].name@)
                ==> event_views(events@).contains(HotplugEventView::DeviceAdded(current@[i]@)),
    {
        let names = distinct_device_names(current);
        if self.first_snapshot {
            self.known = names;
            self.first_snapshot = false;
            return Vec::new();
        }
        let mut events: Vec<HotplugEvent> = Vec::new();
        let mut i: usize = 0;
        while i < current.len()
            invariant
                i <= current@.len(),
                event_views(events@) == added_events(current@.subrange(0, i as int), self.known@),
            decreases current@.len() - i,
        {
            assert(current@.subrange(0, i + 1).drop_last() =~= current@.subrange(0, i as int));
            if !holds_name(&self.known, &current[i].name) {
                events.push(HotplugEvent::DeviceAdded(current[i].duplicate()));
                assert(event_views(events@) =~= added_events(current@.subrange(0, i + 1), self.known@));
            } else {
                assert(event_views(events@) =~= added_events(current@.subrange(0, i + 1), self.known@));
            }
            i = i + 1;
        }
        assert(current@.subrange(0, current@.len() as int) =~= current@);
        let ghost added = event_views(events@);
        let mut j: usize = 0;
        while j < self.known.len()
            invariant
                j <= self.known@.len(),
                event_views(events@) == added + removed_events(self.known@.subrange(0, j as int), current@),
            decreases self.known@.len() - j,
        {
            assert(self.known@.subrange(0, j + 1).drop_last() =~= self.known@.subrange(0, j as int));
            assert(self.known@.subrange(0, j + 1).last() == self.known@[j as int]);
            if !holds_device_named(current, &self.known[j]) {
                let ghost before = event_views(events@);
                events.push(HotplugEvent::DeviceRemoved(self.known[j].clone()));
                assert(event_views(events@) =~= before.push(HotplugEventView::DeviceRemoved(self.known@[j as int]@)));
                assert(event_views(events@) =~= added + removed_events(self.known@.subrange(0, j + 1), current@));
            } else {
                assert(event_views(events@) =~= added + removed_events(self.known@.subrange(0, j + 1), current@));
            }
            j = j + 1;
        }
        assert(self.known@.subrange(0, self.known@.len() as int) =~= self.known@);
        proof {
            lemma_poll_reports_every_change(self.known@, current@);
        }
        self.known = names;
        events
    }
}

/// Whether a list of names holds this text.
fn holds_name(names: &Vec<String>, n: &String) -> (r: bool)
    ensures
        r == has_name(names@, n@),
{
    let mut i: usize = 0;
    while i < names.len()
        invariant
            i <= names@.len(),
            forall|k: int| 0 <= k < i ==> names@[k]@ != n@,
        decreases names@.len() - i,
    {
        if names[i] == *n {
            return true;
        }
        i = i + 1;
    }
    false
}

/// Whether some device in the list has this name.
fn holds_device_named(devices: &Vec<DeviceInfo>, n: &String) -> (r: bool)
    ensures
        r == has_device_named(devices@, n@),
{
    let mut i: usize = 0;
    while i < devices.len()
        invariant
            i <= devices@.len(),
            forall|k: int| 0 <= k < i ==> devices@[k].name@ != n@,
        decreases devices@.len() - i,
    {
        if devices[i].name == *n {
            return true;
        }
        i = i + 1;
    }
    false
}

/// The device names, each text once, in order of first occurrence.
fn distinct_device_names(devices: &Vec<DeviceInfo>) -> (names: Vec<String>)
    ensures
        names@ == distinct_names(devices@),
{
    let mut names: Vec<String> = Vec::new();
    let mut i: usize = 0;
    while i < devices.len()
        invariant
            i <= devices@.len(),
            names@ == distinct_names(devices@.subrange(0, i as int)),
        decreases devices@.len() - i,
    {
        assert(devices@.subrange(0, i + 1).drop_last() =~= devices@.subrange(0, i as int));
        if !holds_name(&names, &devices[i].name) {
            names.push(devices[i].name.clone());
        }
        i = i + 1;
    }
    assert(devices@.subrange(0, devices@.len() as int) =~= devices@);
    names
}


proof fn lemma_distinct_names_cover(devices: Seq<DeviceInfo>)
    ensures
        forall|i: int| 0 <= i < devices.len() ==> has_name(distinct_names(devices), #[trigger] devices[i].name@),
        forall|j: int| 0 <= j < distinct_names(devices).len() ==> has_device_named(devices, #[trigger] distinct_names(devices)[j]@),
    decreases devices.len(),
{
    if devices.len() > 0 {
        let pre = devices.drop_last();
        lemma_distinct_names_cover(pre);
        let p = distinct_names(pre);
        let d = distinct_names(devices);
        assert forall|i: int| 0 <= i < devices.len() implies has_name(d, #[trigger] devices[i].name@) by {
            if i < pre.len() {
                assert(pre[i] == devices[i]);
                assert(has_name(p, pre[i].name@));
                let k = choose|k: int| 0 <= k < p.len() && #[trigger] p[k]@ == pre[i].name@;
                if has_name(p, devices.last().name@) {
                    assert(d[k] == p[k]);
                } else {
                    assert(d[k] == p[k]);
                }
            } else {
                if has_name(p, devices.last().name@) {
                    let k = choose|k: int| 0 <= k < p.len() && #[trigger] p[k]@ == devices.last().name@;
                    assert(d[k] == p[k]);
                } else {
                    assert(d[p.len() as int] == devices.last().name);
                }
            }
        }
        assert forall|j: int| 0 <= j < d.len() implies has_device_named(devices, #[trigger] d[j]@) by {
            if j < p.len() {
                assert(d[j] == p[j]);
                assert(has_device_named(pre, p[j]@));
                let k = choose|k: int| 0 <= k < pre.len() && #[trigger] pre[k].name@ == p[j]@;
                assert(devices[k] == pre[k]);
            } else {
                assert(d[j] == devices.last().name);
                assert(devices[devices.len() - 1] == devices.last());
            }
        }
    }
}

proof fn lemma_no_added(current: Seq<DeviceInfo>, known: Seq<String>)
    requires
        forall|i: int| 0 <= i < current.len() ==> has_name(known, #[trigger] current[i].name@),
    ensures
        added_events(current, known).len() == 0,
    decreases current.len(),
{
    if current.len() > 0 {
        let pre = current.drop_last();
        assert forall|i: int| 0 <= i < pre.len() implies has_name(known, #[trigger] pre[i].name@) by {
            assert(pre[i] == current[i]);
        }
        lemma_no_added(pre, known);
        assert(current[current.len() - 1] == current.last());
    }
}

proof fn lemma_no_removed(known: Seq<String>, current: Seq<DeviceInfo>)
    requires
        forall|j: int| 0 <= j < known.len() ==> has_device_named(current, #[trigger] known[j]@),
    ensures
        removed_events(known, current).len() == 0,
    decreases known.len(),
{
    if known.len() > 0 {
        let pre = known.drop_last();
        assert forall|j: int| 0 <= j < pre.len() implies has_device_named(current, #[trigger] pre[j]@) by {
            assert(pre[j] == known[j]);
        }
        lemma_no_removed(pre, current);
        assert(known[known.len() - 1] == known.last());
    }
}

proof fn lemma_removed_events_exact(known: Seq<String>, current: Seq<DeviceInfo>)
    ensures
        forall|j: int| 0 <= j < known.len() && !has_device_named(current, #[trigger] known[j]@)
            ==> removed_events(known, current).contains(HotplugEventView::DeviceRemoved(known[j]@)),
        forall|k: int| 0 <= k < removed_events(known, current).len() ==> exists|j: int|
            0 <= j < known.len() && !has_device_named(current, #[trigger] known[j]@)
                && #[trigger] removed_events(known, current)[k] == HotplugEventView::DeviceRemoved(known[j]@),
    decreases known.len(),
{
    if known.len() > 0 {
        let pre = known.drop_last();
        lemma_removed_events_exact(pre, current);
        let p = removed_events(pre, current);
        let r = removed_events(known, current);
        let last = known.last();
        assert(known[known.len() - 1] == last);
        assert forall|j: int| 0 <= j < known.len() && !has_device_named(current, #[trigger] known[j]@)
            implies r.contains(HotplugEventView::DeviceRemoved(known[j]@)) by {
            if j < pre.len() {
                assert(pre[j] == known[j]);
                let k = choose|k: int| 0 <= k < p.len() && p[k] == HotplugEventView::DeviceRemoved(pre[j]@);
                assert(r[k] == p[k]);
            } else {
                assert(r[p.len() as int] == HotplugEventView::DeviceRemoved(last@));
            }
        }
        assert forall|k: int| 0 <= k < r.len() implies exists|j: int|
            0 <= j < known.len() && !has_device_named(current, #[trigger] known[j]@)
                && #[trigger] r[k] == HotplugEventView::DeviceRemoved(known[j]@) by {
            if k < p.len() {
                assert(r[k] == p[k]);
                let j = choose|j: int| 0 <= j < pre.len() && !has_device_named(current, #[trigger] pre[j]@)
                    && p[k] == HotplugEventView::DeviceRemoved(pre[j]@);
                assert(known[j] == pre[j]);
            } else {
                assert(r[k] == HotplugEventView::DeviceRemoved(last@));
                assert(!has_device_named(current, known[known.len() - 1]@));
            }
        }
    }
}

proof fn lemma_added_events_exact(current: Seq<DeviceInfo>, known: Seq<String>)
    ensures
        forall|i: int| 0 <= i < current.len() && !has_name(known, #[trigger] current[i].name@)
            ==> added_events(current, known).contains(HotplugEventView::DeviceAdded(current[i]@)),
        forall|k: int| 0 <= k < added_events(current, known).len() ==> exists|i: int|
            0 <= i < current.len() && !has_name(known, #[trigger] current[i].name@)
                && #[trigger] added_events(current, known)[k] == HotplugEventView::DeviceAdded(current[i]@),
    decreases current.len(),
{
    if current.len() > 0 {
        let pre = current.drop_last();
        lemma_added_events_exact(pre, known);
        let p = added_events(pre, known);
        let a = added_events(current, known);
        let last = current.last();
        assert(current[current.len() - 1] == last);
        assert forall|i: int| 0 <= i < current.len() && !has_name(known, #[trigger] current[i].name@)
            implies a.contains(HotplugEventView::DeviceAdded(current[i]@)) by {
            if i < pre.len() {
                assert(pre[i] == current[i]);
                let k = choose|k: int| 0 <= k < p.len() && p[k] == HotplugEventView::DeviceAdded(pre[i]@);
                assert(a[k] == p[k]);
            } else {
                assert(a[p.len() as int] == HotplugEventView::DeviceAdded(last@));
            }
        }
        assert forall|k: int| 0 <= k < a.len() implies exists|i: int|
            0 <= i < current.len() && !has_name(known, #[trigger] current[i].name@)
                && #[trigger] a[k] == HotplugEventView::DeviceAdded(current[i]@) by {
            if k < p.len() {
                assert(a[k] == p[k]);
                let i = choose|i: int| 0 <= i < pre.len() && !has_name(known, #[trigger] pre[i].name@)
                    && p[k] == HotplugEventView::DeviceAdded(pre[i]@);
                assert(current[i] == pre[i]);
            } else {
                assert(a[k] == HotplugEventView::DeviceAdded(last@));
                assert(!has_name(known, current[current.len() - 1].name@));
            }
        }
    }
}

/// The events of a poll report every change and nothing else: each known
/// name that no device has any more gives a `DeviceRemoved` with that name,
/// each device whose name was not known gives a `DeviceAdded` with that
/// device, and every event is one of these.
pub proof fn lemma_poll_reports_every_change(known: Seq<String>, current: Seq<DeviceInfo>)
    ensures
        forall|j: int| 0 <= j < known.len() && !has_device_named(current, #[trigger] known[j]@)
            ==> (added_events(current, known) + removed_events(known, current)).contains(HotplugEventView::DeviceRemoved(known[j]@)),
        forall|i: int| 0 <= i < current.len() && !has_name(known, #[trigger] current[i].name@)
            ==> (added_events(current, known) + removed_events(known, current)).contains(HotplugEventView::DeviceAdded(current[i]@)),
        forall|k: int| 0 <= k < (added_events(current, known) + removed_events(known, current)).len() ==> {
            let e = #[trigger] (added_events(current, known) + removed_events(known, current))[k];
            ||| exists|j: int| 0 <= j < known.len() && !has_device_named(current, #[trigger] known[j]@)
                    && e == HotplugEventView::DeviceRemoved(known[j]@)
            ||| exists|i: int| 0 <= i < current.len() && !has_name(known, #[trigger] current[i].name@)
                    && e == HotplugEventView::DeviceAdded(current[i]@)
        },
{
    lemma_removed_events_exact(known, current);
    lemma_added_events_exact(current, known);
    let a = added_events(current, known);
    let r = removed_events(known, current);
    let ev = a + r;
    assert forall|j: int| 0 <= j < known.len() && !has_device_named(current, #[trigger] known[j]@)
        implies ev.contains(HotplugEventView::DeviceRemoved(known[j]@)) by {
        let k = choose|k: int| 0 <= k < r.len() && r[k] == HotplugEventView::DeviceRemoved(known[j]@);
        assert(ev[a.len() + k] == r[k]);
    }
    assert forall|i: int| 0 <= i < current.len() && !has_name(known, #[trigger] current[i].name@)
        implies ev.contains(HotplugEventView::DeviceAdded(current[i]@)) by {
        let k = choose|k: int| 0 <= k < a.len() && a[k] == HotplugEventView::DeviceAdded(current[i]@);
        assert(ev[k] == a[k]);
    }
    assert forall|k: int| 0 <= k < ev.len() implies {
        let e = #[trigger] ev[k];
        ||| exists|j: int| 0 <= j < known.len() && !has_device_named(current, #[trigger] known[j]@)
                && e == HotplugEventView::DeviceRemoved(known[j]@)
        ||| exists|i: int| 0 <= i < current.len() && !has_name(known, #[trigger] current[i].name@)
                && e == HotplugEventView::DeviceAdded(current[i]@)
    } by {
        if k < a.len() {
            assert(ev[k] == a[k]);
        } else {
            assert(ev[k] == r[k - a.len()]);
        }
    }
}

/// Polling an unchanged device list reports no event.
pub proof fn lemma_unchanged_list_reports_nothing(current: Seq<DeviceInfo>)
    ensures
        added_events(current, distinct_names(current)) + removed_events(distinct_names(current), current)
            == Seq::<HotplugEventView>::empty(),
{
    lemma_distinct_names_cover(current);
    lemma_no_added(current, distinct_names(current));
    lemma_no_removed(distinct_names(current), current);
    assert(added_events(current, distinct_names(current)) + removed_events(distinct_names(current), current)
        =~= Seq::<HotplugEventView>::empty());
}

} // verus!
