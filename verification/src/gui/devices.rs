use vstd::prelude::*;

use crate::device::{string_views, DeviceInfo};
use crate::message::{snapshot_matches, DeviceInfoSnapshot};
use crate::text::{contains_seq, lowercase, owned, text_contains, to_lower};
use vstd::string::StrSliceExecFns;

verus! {

/// What the user did in the devices panel.
#[derive(Debug, Clone)]
pub enum DevicesPanelAction {
    /// Nothing.
    NoAction,
    /// Pressed "refresh".
    RefreshDevices,
    /// Chose an input device (empty: the system default).
    InputDeviceSelected(String),
    /// Ticked or unticked an output device.
    OutputDeviceToggled(String),
    /// Changed the source type ("input" or "loopback").
    SourceTypeChanged(String),
    /// Chose the loopback device (empty: the default output).
    LoopbackDeviceSelected(String),
}

/// The devices panel: the device lists and what is selected.
pub struct DevicesPanelState {
    /// Input devices.
    pub input_devices: Vec<DeviceInfoSnapshot>,
    /// Output devices.
    pub output_devices: Vec<DeviceInfoSnapshot>,
    /// Selected input device (empty: the system default).
    pub selected_input_device: String,
    /// Ticked output device names, each once.
    pub selected_output_devices: Vec<String>,
    /// Whether the engine runs (editing is locked while it does).
    pub engine_running: bool,
    /// Source type: "input" or "loopback".
    pub source_type: String,
    /// Selected loopback device (empty: the default output).
    pub selected_loopback_device: String,
}

/// No text occurs twice in the list.
pub open spec fn no_repeats(s: Seq<Seq<char>>) -> bool {
    forall|i: int, j: int| 0 <= i < j < s.len() ==> s[i] != s[j]
}

/// An output device name conflicts with the loopback device when either
/// name contains the other (ignoring case): the captured device must not
/// also be played to.
pub open spec fn conflicts_with_loopback(device: Seq<char>, loopback: Seq<char>) -> bool {
    contains_seq(lowercase(device), lowercase(loopback)) || contains_seq(lowercase(loopback), lowercase(device))
}

/// `after` is `before` with `name` ticked when it was not, unticked when it
/// was; every other name keeps its state.
pub open spec fn toggled(before: Seq<Seq<char>>, after: Seq<Seq<char>>, name: Seq<char>) -> bool {
    forall|n: Seq<char>| #[trigger] after.contains(n) <==> (if n == name { !before.contains(n) } else { before.contains(n) })
}

/// Every snapshot matches the device at the same position.
pub open spec fn snapshots_of(s: Seq<DeviceInfoSnapshot>, d: Seq<DeviceInfo>) -> bool {
    &&& s.len() == d.len()
    &&& forall|i: int| 0 <= i < s.len() ==> snapshot_matches(#[trigger] s[i], d[i])
}

/// Whether some device in the list has this name.
pub open spec fn lists_name(d: Seq<DeviceInfo>, n: Seq<char>) -> bool {
    exists|i: int| 0 <= i < d.len() && #[trigger] d[i].name@ == n
}

proof fn lemma_push_contains(s: Seq<Seq<char>>, x: Seq<char>)
    ensures
        forall|n: Seq<char>| #[trigger] s.push(x).contains(n) <==> (s.contains(n) || n == x),
{
    assert forall|n: Seq<char>| #[trigger] s.push(x).contains(n) <==> (s.contains(n) || n == x) by {
        let t = s.push(x);
        if t.contains(n) {
            let k = choose|k: int| 0 <= k < t.len() && t[k] == n;
            if k < s.len() {
                assert(s[k] == n);
            }
        }
        if s.contains(n) {
            let k = choose|k: int| 0 <= k < s.len() && s[k] == n;
            assert(t[k] == n);
        }
        if n == x {
            assert(t[s.len() as int] == n);
        }
    }
}

fn snapshots(d: &Vec<DeviceInfo>) -> (s: Vec<DeviceInfoSnapshot>)
    ensures
        snapshots_of(s@, d@),
{
    let mut s: Vec<DeviceInfoSnapshot> = Vec::new();
    let mut i: usize = 0;
    while i < d.len()
        invariant
            i <= d@.len(),
            s@.len() == i,
            forall|k: int| 0 <= k < i ==> snapshot_matches(#[trigger] s@[k], d@[k]),
        decreases d@.len() - i,
    {
        s.push(DeviceInfoSnapshot::from_info(&d[i]));
        i = i + 1;
    }
    s
}

/// The position of a text in a list of strings.
fn position_of(v: &Vec<String>, name: &str) -> (r: Option<usize>)
    ensures
        match r {
            Some(i) => i < v@.len() && v@[i as int]@ == name@,
            None => !string_views(v@).contains(name@),
        },
{
    let mut i: usize = 0;
    while i < v.len()
        invariant
            i <= v@.len(),
            forall|k: int| 0 <= k < i ==> v@[k]@ != name@,
        decreases v@.len() - i,
    {
        if crate::text::text_eq(v[i].as_str(), name) {
            return Some(i);
        }
        i = i + 1;
    }
    assert forall|k: int| 0 <= k < string_views(v@).len() implies string_views(v@)[k] != name@ by {
        assert(string_views(v@)[k] == v@[k]@);
    }
    None
}

impl DevicesPanelState {
    /// The ticked output names.
    pub open spec fn spec_selected(&self) -> Seq<Seq<char>> {
        string_views(self.selected_output_devices@)
    }

    /// The panel's invariant: no output name is ticked twice.
    pub open spec fn wf(&self) -> bool {
        no_repeats(self.spec_selected())
    }

    /// An empty panel: no devices, system default input, nothing ticked,
    /// source "input", default loopback device, engine stopped.
    pub fn new() -> (p: Self)
        ensures
            p.wf(),
            p.input_devices@.len() == 0,
            p.output_devices@.len() == 0,
            p.selected_input_device@.len() == 0,
            p.spec_selected().len() == 0,
            !p.engine_running,
            p.source_type@ == "input"@,
            p.selected_loopback_device@.len() == 0,
    {
        let p = DevicesPanelState {
            input_devices: Vec::new(),
            output_devices: Vec::new(),
            selected_input_device: String::new(),
            selected_output_devices: Vec::new(),
            engine_running: false,
            source_type: owned("input"),
            selected_loopback_device: String::new(),
        };
        assert(p.spec_selected() =~= Seq::empty());
        p
    }

    /// Ticks `name` unless it is already ticked.
    fn tick_output(&mut self, name: &String)
        requires
            old(self).wf(),
        ensures
            final(self).wf(),
            forall|n: Seq<char>| final(self).spec_selected().contains(n) <==> (old(self).spec_selected().contains(n) || n == name@),
            final(self).input_devices == old(self).input_devices,
            final(self).output_devices == old(self).output_devices,
            final(self).selected_input_device == old(self).selected_input_device,
            final(self).engine_running == old(self).engine_running,
            final(self).source_type == old(self).source_type,
            final(self).selected_loopback_device == old(self).selected_loopback_device,
    {
        match position_of(&self.selected_output_devices, name.as_str()) {
            Some(i) => {
                assert(self.spec_selected()[i as int] == name@);
            },
            None => {
                let ghost before = self.spec_selected();
                self.selected_output_devices.push(name.clone());
                assert(self.spec_selected() =~= before.push(name@));
                proof {
                    lemma_push_contains(before, name@);
                }
            },
        }
    }

    /// Refreshes the device lists from an enumeration of input and output
    /// devices. On the first refresh (no output devices listed yet) every
    /// output device is ticked.
    pub fn refresh_devices(&mut self, inputs: &Vec<DeviceInfo>, outputs: &Vec<DeviceInfo>)
        requires
            old(self).wf(),
        ensures
            final(self).wf(),
            snapshots_of(final(self).input_devices@, inputs@),
            snapshots_of(final(self).output_devices@, outputs@),
            old(self).output_devices@.len() == 0 ==> forall|n: Seq<char>|
                #![trigger final(self).spec_selected().contains(n)]
                #![trigger old(self).spec_selected().contains(n)]
                #![trigger lists_name(outputs@, n)]
                final(self).spec_selected().contains(n) <==> (old(self).spec_selected().contains(n) || lists_name(outputs@, n)),
            old(self).output_devices@.len() != 0 ==> final(self).spec_selected() == old(self).spec_selected(),
            final(self).selected_input_device == old(self).selected_input_device,
            final(self).engine_running == old(self).engine_running,
            final(self).source_type == old(self).source_type,
            final(self).selected_loopback_device == old(self).selected_loopback_device,
    {
        self.input_devices = snapshots(inputs);
        let first = self.output_devices.len() == 0;
        self.output_devices = snapshots(outputs);
        if first {
            let ghost start = self.spec_selected();
            assert(start == old(self).spec_selected());
            let mut i: usize = 0;
            while i < outputs.len()
                invariant
                    self.wf(),
                    i <= outputs@.len(),
                    snapshots_of(self.output_devices@, outputs@),
                    snapshots_of(self.input_devices@, inputs@),
                    self.selected_input_device == old(self).selected_input_device,
                    self.engine_running == old(self).engine_running,
                    self.source_type == old(self).source_type,
                    self.selected_loopback_device == old(self).selected_loopback_device,
                    forall|n: Seq<char>| #[trigger] self.spec_selected().contains(n)
                        <==> (start.contains(n) || lists_name(outputs@.subrange(0, i as int), n)),
                decreases outputs@.len() - i,
            {
                let ghost pre = outputs@.subrange(0, i as int);
                let ghost post = outputs@.subrange(0, i + 1);
                let ghost sel0 = self.spec_selected();
                self.tick_output(&outputs[i].name);
                assert forall|n: Seq<char>| self.spec_selected().contains(n) <==> (sel0.contains(n) || n == outputs@[i as int].name@) by {}
                assert forall|n: Seq<char>| lists_name(post, n) <==> (lists_name(pre, n) || n == outputs@[i as int].name@) by {
                    if lists_name(post, n) {
                        let k = choose|k: int| 0 <= k < post.len() && #[trigger] post[k].name@ == n;
                        if k < i {
                            assert(pre[k].name@ == post[k].name@);
                        }
                    }
                    if lists_name(pre, n) {
                        let k = choose|k: int| 0 <= k < pre.len() && #[trigger] pre[k].name@ == n;
                        assert(post[k].name@ == pre[k].name@);
                    }
                    if n == outputs@[i as int].name@ {
                        assert(post[i as int].name@ == outputs@[i as int].name@);
                    }
                }
                assert forall|n: Seq<char>| self.spec_selected().contains(n)
                    <==> (start.contains(n) || lists_name(post, n)) by {
                    assert(self.spec_selected().contains(n) <==> (sel0.contains(n) || n == outputs@[i as int].name@));
                    assert(sel0.contains(n) <==> (start.contains(n) || lists_name(pre, n)));
                    assert(lists_name(post, n) <==> (lists_name(pre, n) || n == outputs@[i as int].name@));
                }
                i = i + 1;
            }
            assert(outputs@.subrange(0, outputs@.len() as int) =~= outputs@);
        }
    }

    /// Unticks `name` when it is ticked, ticks it otherwise.
    pub fn toggle_output_device(&mut self, name: &String)
        requires
            old(self).wf(),
        ensures
            final(self).wf(),
            toggled(old(self).spec_selected(), final(self).spec_selected(), name@),
            final(self).input_devices == old(self).input_devices,
            final(self).output_devices == old(self).output_devices,
            final(self).selected_input_device == old(self).selected_input_device,
            final(self).engine_running == old(self).engine_running,
            final(self).source_type == old(self).source_type,
            final(self).selected_loopback_device == old(self).selected_loopback_device,
    {
        match position_of(&self.selected_output_devices, name.as_str()) {
            Some(i) => {
                let ghost before = self.spec_selected();
                self.selected_output_devices.remove(i);
                assert(self.spec_selected() =~= before.remove(i as int));
                assert(before[i as int] == name@);
                assert(no_repeats(self.spec_selected())) by {
                    let a = self.spec_selected();
                    assert forall|x: int, y: int| 0 <= x < y < a.len() implies a[x] != a[y] by {
                        let bx = if x < i { x } else { x + 1 };
                        let by_ = if y < i { y } else { y + 1 };
                        assert(a[x] == before[bx]);
                        assert(a[y] == before[by_]);
                    }
                }
                assert forall|n: Seq<char>| self.spec_selected().contains(n) <==> (if n == name@ {
                    !before.contains(n)
                } else {
                    before.contains(n)
                }) by {
                    if self.spec_selected().contains(n) {
                        let a = self.spec_selected();
                        let k = choose|k: int| 0 <= k < a.len() && a[k] == n;
                        if k < i {
                            assert(before[k] == n);
                            if n == name@ {
                                assert(before[k] == before[i as int]);
                            }
                        } else {
                            assert(before[k + 1] == n);
                            if n == name@ {
                                assert(before[k + 1] == before[i as int]);
                            }
                        }
                    }
                    if before.contains(n) && n != name@ {
                        let k = choose|k: int| 0 <= k < before.len() && before[k] == n;
                        assert(k != i);
                        if k < i {
                            assert(self.spec_selected()[k] == n);
                        } else {
                            assert(self.spec_selected()[k - 1] == n);
                        }
                    }
                    if n == name@ && before.contains(n) {
                        assert(before[i as int] == n);
                    }
                }
            },
            None => {
                let ghost before = self.spec_selected();
                self.selected_output_devices.push(name.clone());
                assert(self.spec_selected() =~= before.push(name@));
                proof {
                    lemma_push_contains(before, name@);
                }
            },
        }
    }

    /// Chooses the loopback device. A non-empty choice unticks every
    /// output whose name contains, or is contained in, the loopback
    /// device's name (ignoring case).
    pub fn select_loopback_device(&mut self, name: String)
        requires
            old(self).wf(),
        ensures
            final(self).wf(),
            final(self).selected_loopback_device@ == name@,
            name@.len() == 0 ==> final(self).spec_selected() == old(self).spec_selected(),
            name@.len() > 0 ==> forall|n: Seq<char>|
                #![trigger final(self).spec_selected().contains(n)]
                #![trigger old(self).spec_selected().contains(n)]
                final(self).spec_selected().contains(n)
                <==> (old(self).spec_selected().contains(n) && !conflicts_with_loopback(n, name@)),
            final(self).input_devices == old(self).input_devices,
            final(self).output_devices == old(self).output_devices,
            final(self).selected_input_device == old(self).selected_input_device,
            final(self).engine_running == old(self).engine_running,
            final(self).source_type == old(self).source_type,
    {
        if name.as_str().unicode_len() > 0 {
            let lb = to_lower(name.as_str());
            let ghost before = self.spec_selected();
            let mut kept: Vec<String> = Vec::new();
            let mut i: usize = 0;
            while i < self.selected_output_devices.len()
                invariant
                    before == self.spec_selected(),
                    no_repeats(before),
                    lb@ == lowercase(name@),
                    i <= before.len(),
                    no_repeats(string_views(kept@)),
                    forall|n: Seq<char>| #[trigger] string_views(kept@).contains(n)
                        <==> (before.subrange(0, i as int).contains(n) && !conflicts_with_loopback(n, name@)),
                decreases before.len() - i,
            {
                let d = &self.selected_output_devices[i];
                assert(before[i as int] == d@);
                let dl = to_lower(d.as_str());
                let conflict = text_contains(dl.as_str(), lb.as_str()) || text_contains(lb.as_str(), dl.as_str());
                let ghost kept_before = string_views(kept@);
                if !conflict {
                    kept.push(d.clone());
                    assert(string_views(kept@) =~= kept_before.push(d@));
                    proof {
                        lemma_push_contains(kept_before, d@);
                    }
                    assert(!kept_before.contains(d@)) by {
                        let s0 = before.subrange(0, i as int);
                        if kept_before.contains(d@) {
                            assert(s0.contains(d@));
                            let k = choose|k: int| 0 <= k < s0.len() && s0[k] == d@;
                            assert(before[k] == before[i as int]);
                        }
                    }
                }
                let ghost s0 = before.subrange(0, i as int);
                let ghost s1 = before.subrange(0, i + 1);
                assert(s1 =~= s0.push(d@));
                assert forall|n: Seq<char>| s1.contains(n) <==> (s0.contains(n) || n == d@) by {
                    if s1.contains(n) {
                        let k = choose|k: int| 0 <= k < s1.len() && s1[k] == n;
                        if k < i {
                            assert(s0[k] == n);
                        }
                    }
                    if s0.contains(n) {
                        let k = choose|k: int| 0 <= k < s0.len() && s0[k] == n;
                        assert(s1[k] == n);
                    }
                    if n == d@ {
                        assert(s1[i as int] == n);
                    }
                }
                i = i + 1;
            }
            assert(before.subrange(0, before.len() as int) =~= before);
            self.selected_output_devices = kept;
        }
        self.selected_loopback_device = name;
    }

    /// The chosen input device, or `None` for the system default.
    pub fn selected_input(&self) -> (r: Option<String>)
        ensures
            self.selected_input_device@.len() == 0 ==> r is None,
            self.selected_input_device@.len() > 0 ==> r == Some(self.selected_input_device),
    {
        if self.selected_input_device.as_str().unicode_len() == 0 {
            None
        } else {
            Some(self.selected_input_device.clone())
        }
    }

    /// The chosen loopback device, or `None` for the default output.
    pub fn selected_loopback(&self) -> (r: Option<String>)
        ensures
            self.selected_loopback_device@.len() == 0 ==> r is None,
            self.selected_loopback_device@.len() > 0 ==> r == Some(self.selected_loopback_device),
    {
        if self.selected_loopback_device.as_str().unicode_len() == 0 {
            None
        } else {
            Some(self.selected_loopback_device.clone())
        }
    }
}

/// Ticking the same output twice leaves the selection as it was.
pub proof fn lemma_toggle_twice_restores(before: Seq<Seq<char>>, mid: Seq<Seq<char>>, after: Seq<Seq<char>>, name: Seq<char>)
    requires
        toggled(before, mid, name),
        toggled(mid, after, name),
    ensures
        forall|n: Seq<char>| #[trigger] after.contains(n) <==> before.contains(n),
{
    assert forall|n: Seq<char>| #[trigger] after.contains(n) <==> before.contains(n) by {
        assert(after.contains(n) <==> (if n == name { !mid.contains(n) } else { mid.contains(n) }));
        assert(mid.contains(n) <==> (if n == name { !before.contains(n) } else { before.contains(n) }));
    }
}

} // verus!
