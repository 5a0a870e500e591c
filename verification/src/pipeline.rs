use vstd::prelude::*;

verus! {

/// Default number of output slots.
pub const MAX_OUTPUTS: usize = 32;

// ---------------------------------------------------------------------------
// Slots
// ---------------------------------------------------------------------------

/// One output slot: the producer end of its ring buffer and whether an
/// output device is attached.
pub struct Slot<P> {
    /// The producer end of the slot's ring buffer, once one was given.
    pub producer: Option<P>,
    /// Whether the slot is in use.
    pub active: bool,
}

/// A fixed number of output slots.
pub struct SlotArray<P> {
    slots: Vec<Slot<P>>,
}

/// What the input callback does for one slot with a block of input.
#[derive(Debug, Clone, Copy, PartialEq, Eq, Structural)]
pub enum FanOut {
    /// Nothing (slot inactive, no producer, or empty block).
    Skip,
    /// Push the whole block into the slot's ring buffer.
    Push,
    /// Drop the block and count an overflow for the slot.
    Overflow,
}

/// The first inactive slot, if any.
pub open spec fn first_inactive(active: Seq<bool>) -> Option<int> {
    if exists|i: int| 0 <= i < active.len() && !active[i] && forall|j: int| 0 <= j < i ==> active[j] {
        Some(choose|i: int| 0 <= i < active.len() && !active[i] && forall|j: int| 0 <= j < i ==> active[j])
    } else {
        None
    }
}

/// The indices of the active slots, in increasing order.
pub open spec fn active_indices(active: Seq<bool>) -> Seq<usize>
    decreases active.len(),
{
    if active.len() == 0 {
        Seq::empty()
    } else {
        let prefix = active_indices(active.drop_last());
        if active.last() { prefix.push((active.len() - 1) as usize) } else { prefix }
    }
}

/// The fan-out decision for one slot.
pub open spec fn fan_out_for(active: bool, has_producer: bool, vacant: nat, data_len: nat) -> FanOut {
    if data_len == 0 || !active || !has_producer {
        FanOut::Skip
    } else if vacant >= data_len {
        FanOut::Push
    } else {
        FanOut::Overflow
    }
}

impl<P> SlotArray<P> {
    /// The active flags of the slots.
    pub closed spec fn spec_active(&self) -> Seq<bool> {
        self.slots@.map_values(|s: Slot<P>| s.active)
    }

    /// The producers held by the slots.
    pub closed spec fn spec_producers(&self) -> Seq<Option<P>> {
        self.slots@.map_values(|s: Slot<P>| s.producer)
    }

    /// Creates `capacity` empty, inactive slots.
    pub fn new(capacity: usize) -> (a: Self)
        ensures
            a.spec_active().len() == capacity,
            a.spec_producers().len() == capacity,
            forall|i: int| 0 <= i < capacity ==> !#[trigger] a.spec_active()[i],
            forall|i: int| 0 <= i < capacity ==> (#[trigger] a.spec_producers()[i]) is None,
    {
        let mut slots: Vec<Slot<P>> = Vec::new();
        let mut i: usize = 0;
        while i < capacity
            invariant
                i <= capacity,
                slots@.len() == i,
                forall|k: int| 0 <= k < i ==> !(#[trigger] slots@[k]).active && slots@[k].producer is None,
            decreases capacity - i,
        {
            slots.push(Slot { producer: None, active: false });
            i = i + 1;
        }
        SlotArray { slots }
    }

    /// The number of slots.
    pub fn len(&self) -> (n: usize)
        ensures
            n == self.spec_active().len(),
    {
        self.slots.len()
    }

    /// Whether slot `index` is active.
    pub fn is_active(&self, index: usize) -> (r: bool)
        requires
            index < self.spec_active().len(),
        ensures
            r == self.spec_active()[index as int],
    {
        self.slots[index].active
    }

    /// Takes the first inactive slot, stores `producer` in it and marks it
    /// active. Returns its index, or `None` (dropping the producer) when all
    /// slots are active.
    pub fn allocate_slot(&mut self, producer: P) -> (r: Option<usize>)
        ensures
            final(self).spec_active().len() == old(self).spec_active().len(),
            final(self).spec_producers().len() == old(self).spec_producers().len(),
            match first_inactive(old(self).spec_active()) {
                Some(i) => {
                    &&& r == Some(i as usize)
                    &&& final(self).spec_active() == old(self).spec_active().update(i, true)
                    &&& final(self).spec_producers() == old(self).spec_producers().update(i, Some(producer))
                },
                None => {
                    &&& r is None
                    &&& final(self).spec_active() == old(self).spec_active()
                    &&& final(self).spec_producers() == old(self).spec_producers()
                },
            },
    {
        let ghost act = old(self).spec_active();
        let mut i: usize = 0;
        while i < self.slots.len()
            invariant
                self.slots@ == old(self).slots@,
                act == self.spec_active(),
                i <= self.slots@.len(),
                forall|j: int| 0 <= j < i ==> act[j],
            decreases self.slots@.len() - i,
        {
            if !self.slots[i].active {
                let ghost w = choose|w: int| 0 <= w < act.len() && !act[w] && forall|j: int| 0 <= j < w ==> act[j];
                assert(0 <= i < act.len() && !act[i as int] && forall|j: int| 0 <= j < i ==> act[j]);
                assert(w == i as int) by {
                    if w < i {
                        assert(act[w]);
                    } else if w > i {
                        assert(act[i as int]);
                    }
                }
                let ghost before = self.slots@;
                self.slots.set(i, Slot { producer: Some(producer), active: true });
                assert(self.spec_active() =~= act.update(i as int, true));
                assert(self.spec_producers() =~= before.map_values(|s: Slot<P>| s.producer).update(i as int, Some(producer)));
                return Some(i);
            }
            i = i + 1;
        }
        assert(!exists|k: int| 0 <= k < act.len() && !act[k]);
        None
    }

    /// Marks slot `index` inactive, keeping its producer.
    pub fn deactivate_slot(&mut self, index: usize)
        requires
            index < old(self).spec_active().len(),
        ensures
            final(self).spec_active() == old(self).spec_active().update(index as int, false),
            final(self).spec_producers() == old(self).spec_producers(),
    {
        let ghost before = self.slots@;
        self.slots[index].active = false;
        assert(self.spec_active() =~= before.map_values(|s: Slot<P>| s.active).update(index as int, false));
        assert(self.spec_producers() =~= before.map_values(|s: Slot<P>| s.producer));
    }

    /// The indices of the active slots, in increasing order.
    pub fn active_slots(&self) -> (r: Vec<usize>)
        ensures
            r@ == active_indices(self.spec_active()),
    {
        let ghost act = self.spec_active();
        let mut r: Vec<usize> = Vec::new();
        let mut i: usize = 0;
        while i < self.slots.len()
            invariant
                act == self.spec_active(),
                i <= act.len(),
                r@ == active_indices(act.subrange(0, i as int)),
            decreases act.len() - i,
        {
            assert(act.subrange(0, i + 1).drop_last() =~= act.subrange(0, i as int));
            assert(act[i as int] == self.slots@[i as int].active);
            if self.slots[i].active {
                r.push(i);
            }
            i = i + 1;
        }
        assert(act.subrange(0, act.len() as int) =~= act);
        r
    }

    /// Access to the producer held by slot `index`.
    pub fn producer_mut(&mut self, index: usize) -> (r: &mut Option<P>)
        requires
            index < old(self).spec_active().len(),
        ensures
            *r == old(self).spec_producers()[index as int],
            final(self).spec_producers() == old(self).spec_producers().update(index as int, *final(r)),
            final(self).spec_active() == old(self).spec_active(),
    {
        &mut self.slots[index].producer
    }

    /// The input callback's decision for every slot, given how much room
    /// each slot's ring buffer has (`vacancies[i]` samples) and the length
    /// of the input block: push when active, holding a producer and with
    /// room for the whole block; count an overflow when there is not room;
    /// otherwise skip.
    pub fn fan_out_plan(&self, vacancies: &Vec<usize>, data_len: usize) -> (plan: Vec<FanOut>)
        requires
            vacancies@.len() == self.spec_active().len(),
        ensures
            plan@.len() == self.spec_active().len(),
            forall|i: int| 0 <= i < plan@.len() ==> #[trigger] plan@[i] == fan_out_for(
                self.spec_active()[i],
                self.spec_producers()[i] is Some,
                vacancies@[i] as nat,
                data_len as nat,
            ),
    {
        let mut plan: Vec<FanOut> = Vec::new();
        let mut i: usize = 0;
        while i < self.slots.len()
            invariant
                vacancies@.len() == self.spec_active().len(),
                i <= self.spec_active().len(),
                plan@.len() == i,
                forall|k: int| 0 <= k < i ==> #[trigger] plan@[k] == fan_out_for(
                    self.spec_active()[k],
                    self.spec_producers()[k] is Some,
                    vacancies@[k] as nat,
                    data_len as nat,
                ),
            decreases self.spec_active().len() - i,
        {
            let slot = &self.slots[i];
            assert(self.spec_active()[i as int] == slot.active);
            assert(self.spec_producers()[i as int] == slot.producer);
            let d = if data_len == 0 || !slot.active || slot.producer.is_none() {
                FanOut::Skip
            } else if vacancies[i] >= data_len {
                FanOut::Push
            } else {
                FanOut::Overflow
            };
            plan.push(d);
            i = i + 1;
        }
        plan
    }
}

// ---------------------------------------------------------------------------
// Fade in / fade out
// ---------------------------------------------------------------------------

/// Fade state of one output: `fade_count < 0` while fading out,
/// `> 0` while fading in, `0` when no fade is running. Each processed frame
/// moves the count one step towards zero.
pub struct Fader {
    fade_count: i32,
    fade_len: usize,
}

/// `|x|` of a count.
pub open spec fn abs_count(x: int) -> int {
    if x < 0 { -x } else { x }
}

/// The number of frames that a fade step processes: the smaller of the
/// frames available and the frames left in the fade.
pub open spec fn fade_frames(count: int, total_frames: int) -> int {
    if abs_count(count) < total_frames { abs_count(count) } else { total_frames }
}

/// The count after `n` frames: `n` steps towards zero.
pub open spec fn count_after(count: int, n: int) -> int {
    if count < 0 { count + n } else { count - n }
}

impl Fader {
    /// The current fade count.
    pub closed spec fn spec_count(&self) -> i32 {
        self.fade_count
    }

    /// The fade length in frames.
    pub closed spec fn spec_len(&self) -> usize {
        self.fade_len
    }

    /// The fader's invariant: the length fits an `i32` and the count lies
    /// within `[-fade_len, fade_len]`.
    pub open spec fn wf(&self) -> bool {
        &&& self.spec_len() <= i32::MAX
        &&& -(self.spec_len() as int) <= self.spec_count() <= self.spec_len()
    }

    /// A fader with no fade running.
    pub fn new(fade_len: usize) -> (f: Self)
        requires
            fade_len <= i32::MAX,
        ensures
            f.wf(),
            f.spec_len() == fade_len,
            f.spec_count() == 0,
    {
        Fader { fade_count: 0, fade_len }
    }

    /// Starts a fade-out (from full level to silence) over `fade_len` frames.
    pub fn start_fade_out(&mut self)
        requires
            old(self).wf(),
        ensures
            final(self).wf(),
            final(self).spec_len() == old(self).spec_len(),
            final(self).spec_count() == -(old(self).spec_len() as int),
    {
        let len = self.fade_len as i32;
        self.fade_count = -len;
    }

    /// Starts a fade-in (from silence to full level) over `fade_len` frames.
    pub fn start_fade_in(&mut self)
        requires
            old(self).wf(),
        ensures
            final(self).wf(),
            final(self).spec_len() == old(self).spec_len(),
            final(self).spec_count() == old(self).spec_len() as int,
    {
        self.fade_count = self.fade_len as i32;
    }

    /// The current fade count.
    pub fn fade_count(&self) -> (c: i32)
        ensures
            c == self.spec_count(),
    {
        self.fade_count
    }

    /// The fade length in frames.
    pub fn fade_len(&self) -> (n: usize)
        ensures
            n == self.spec_len(),
    {
        self.fade_len
    }

    /// Advances the fade over a block of `total_frames` frames. Returns the
    /// count that applies to each processed frame (the caller derives the
    /// frame's gain from it); frames after the fade has ended are left alone.
    pub fn step_frames(&mut self, total_frames: usize) -> (counts: Vec<i32>)
        requires
            old(self).wf(),
        ensures
            final(self).wf(),
            final(self).spec_len() == old(self).spec_len(),
            counts@.len() == fade_frames(old(self).spec_count() as int, total_frames as int),
            forall|j: int| 0 <= j < counts@.len() ==> #[trigger] counts@[j] == count_after(old(self).spec_count() as int, j),
            final(self).spec_count() == count_after(old(self).spec_count() as int, counts@.len() as int),
    {
        let ghost c0 = self.fade_count as int;
        let mut counts: Vec<i32> = Vec::new();
        let mut frame: usize = 0;
        while frame < total_frames && self.fade_count != 0
            invariant
                self.wf(),
                self.spec_len() == old(self).spec_len(),
                c0 == old(self).spec_count(),
                frame <= total_frames,
                frame <= abs_count(c0),
                counts@.len() == frame,
                self.spec_count() == count_after(c0, frame as int),
                forall|j: int| 0 <= j < frame ==> #[trigger] counts@[j] == count_after(c0, j),
            decreases total_frames - frame,
        {
            counts.push(self.fade_count);
            if self.fade_count < 0 {
                self.fade_count = self.fade_count + 1;
            } else {
                self.fade_count = self.fade_count - 1;
            }
            frame = frame + 1;
        }
        counts
    }
}

// ---------------------------------------------------------------------------
// Output callback decisions
// ---------------------------------------------------------------------------

/// How an output converts the shared input stream.
#[derive(Debug, Clone, Copy, PartialEq, Eq, Structural)]
pub enum OutputPath {
    /// Same rate, same channels, no drift compensation: copy straight through.
    Passthrough,
    /// Same rate, same channels, drift compensation on: adjust the frame count only.
    MinimalConvert,
    /// Anything else: channel mapping, limiting and resampling.
    FullConvert,
}

/// Whether a plan runs the brickwall limiter over the samples it plays:
/// every plan that plays buffered samples does.
pub open spec fn limits(p: BlockPlan) -> bool {
    p is Passthrough || p is Minimal || p is Full
}

/// What one output callback does with its output block.
#[derive(Debug, Clone, Copy, PartialEq, Eq, Structural)]
pub enum BlockPlan {
    /// The block holds no whole frame: leave it untouched.
    Skip,
    /// The input is lost: write silence and start a fade-out.
    MuteLost,
    /// Not enough samples are buffered: clear the buffer, write silence,
    /// start a fade-out and count an underrun (the full path also resets
    /// its resampler).
    Underrun,
    /// Pop `samples` samples straight into the output block and limit
    /// them there.
    Passthrough { samples: usize },
    /// Pop `read_samples` samples, limit them, copy the first
    /// `copy_samples` into the output block and silence the rest.
    Minimal { read_samples: usize, copy_samples: usize },
    /// Pop `frames` input frames (`read_samples` samples), map channels,
    /// limit and resample them into the output block.
    Full { frames: usize, read_samples: usize },
}

/// The conversion path of an output.
pub open spec fn output_path_for(in_rate: u32, out_rate: u32, in_ch: u16, out_ch: u16, no_drift: bool) -> OutputPath {
    if in_rate == out_rate && in_ch == out_ch {
        if no_drift { OutputPath::Passthrough } else { OutputPath::MinimalConvert }
    } else {
        OutputPath::FullConvert
    }
}

/// Chooses an output's conversion path.
pub fn select_output_path(in_rate: u32, out_rate: u32, in_ch: u16, out_ch: u16, no_drift: bool) -> (p: OutputPath)
    ensures
        p == output_path_for(in_rate, out_rate, in_ch, out_ch, no_drift),
        p is Passthrough <==> (in_rate == out_rate && in_ch == out_ch && no_drift),
        p is MinimalConvert <==> (in_rate == out_rate && in_ch == out_ch && !no_drift),
        p is FullConvert <==> (in_rate != out_rate || in_ch != out_ch),
{
    if in_rate == out_rate && in_ch == out_ch {
        if no_drift { OutputPath::Passthrough } else { OutputPath::MinimalConvert }
    } else {
        OutputPath::FullConvert
    }
}

/// The plan of one output block (see `BlockPlan`), from the path, the
/// channel counts, the block length, the input-lost flag, the drift
/// correction `delta`, the frames the resampler asks for and the samples
/// buffered.
pub open spec fn block_plan_for(
    path: OutputPath,
    in_ch: u16,
    out_ch: u16,
    output_len: usize,
    input_lost: bool,
    delta: i32,
    resampler_frames: usize,
    occupied: usize,
) -> BlockPlan {
    let output_frames = output_len as int / out_ch as int;
    if output_frames == 0 {
        BlockPlan::Skip
    } else if input_lost {
        BlockPlan::MuteLost
    } else {
        match path {
            OutputPath::Passthrough => {
                let needed = output_frames * in_ch;
                if occupied >= needed {
                    BlockPlan::Passthrough { samples: (if occupied < output_len { occupied } else { output_len }) as usize }
                } else {
                    BlockPlan::Underrun
                }
            },
            OutputPath::MinimalConvert => {
                let target = if output_frames + delta < 0 { 0 } else { output_frames + delta };
                let needed = target * in_ch;
                let room = output_frames * out_ch;
                if occupied >= needed {
                    BlockPlan::Minimal {
                        read_samples: needed as usize,
                        copy_samples: (if room < needed { room } else { needed }) as usize,
                    }
                } else {
                    BlockPlan::Underrun
                }
            },
            OutputPath::FullConvert => {
                let base = if resampler_frames < 1 { 1 } else { resampler_frames as int };
                let frames = base + if delta < 0 { 0 } else { delta as int };
                let needed = frames * in_ch;
                if occupied >= needed {
                    BlockPlan::Full { frames: frames as usize, read_samples: needed as usize }
                } else {
                    BlockPlan::Underrun
                }
            },
        }
    }
}

/// Decides what an output callback does with a block of `output_len`
/// samples (see `block_plan_for`).
pub fn plan_output_block(
    path: OutputPath,
    in_ch: u16,
    out_ch: u16,
    output_len: usize,
    input_lost: bool,
    delta: i32,
    resampler_frames: usize,
    occupied: usize,
) -> (plan: BlockPlan)
    requires
        in_ch > 0,
        out_ch > 0,
    ensures
        plan == block_plan_for(path, in_ch, out_ch, output_len, input_lost, delta, resampler_frames, occupied),
{
    let och = out_ch as usize;
    let ich = in_ch as u128;
    let output_frames = output_len / och;
    if output_frames == 0 {
        return BlockPlan::Skip;
    }
    if input_lost {
        return BlockPlan::MuteLost;
    }
    assert(output_frames <= output_len) by (nonlinear_arith)
        requires output_frames == output_len / och, och > 0;
    let of = output_frames as u128;
    let have = occupied as u128;
    match path {
        OutputPath::Passthrough => {
            assert(of * ich <= 0x1_0000_0000_0000_0000 * 0x1_0000) by (nonlinear_arith)
                requires of <= 0x1_0000_0000_0000_0000, ich <= 0x1_0000;
            let needed = of * ich;
            if have >= needed {
                let samples = if occupied < output_len { occupied } else { output_len };
                BlockPlan::Passthrough { samples }
            } else {
                BlockPlan::Underrun
            }
        },
        OutputPath::MinimalConvert => {
            let target: u128 = if delta < 0 {
                let back = (-(delta as i64)) as u128;
                if of < back { 0 } else { of - back }
            } else {
                of + delta as u128
            };
            assert(target * ich <= 0x2_0000_0000_0000_0000 * 0x1_0000) by (nonlinear_arith)
                requires target <= 0x2_0000_0000_0000_0000, ich <= 0x1_0000;
            let needed = target * ich;
            assert(output_frames * och <= output_len) by (nonlinear_arith)
                requires output_frames == output_len / och, och > 0;
            let room = output_frames * och;
            if have >= needed {
                let read_samples = needed as usize;
                let copy_samples = if room < read_samples { room } else { read_samples };
                BlockPlan::Minimal { read_samples, copy_samples }
            } else {
                BlockPlan::Underrun
            }
        },
        OutputPath::FullConvert => {
            let base: u128 = if resampler_frames < 1 { 1 } else { resampler_frames as u128 };
            let frames: u128 = if delta < 0 { base } else { base + delta as u128 };
            assert(frames * ich <= 0x2_0000_0000_0000_0000 * 0x1_0000) by (nonlinear_arith)
                requires frames <= 0x2_0000_0000_0000_0000, ich <= 0x1_0000;
            assert(frames <= frames * ich) by (nonlinear_arith)
                requires ich >= 1;
            let needed = frames * ich;
            if have >= needed {
                BlockPlan::Full { frames: frames as usize, read_samples: needed as usize }
            } else {
                BlockPlan::Underrun
            }
        },
    }
}

// ---------------------------------------------------------------------------
// Laws
// ---------------------------------------------------------------------------

/// The active-slot list names exactly the active slots, in increasing
/// order.
pub proof fn lemma_active_indices(active: Seq<bool>)
    requires
        active.len() <= usize::MAX,
    ensures
        forall|i: int, j: int| 0 <= i < j < active_indices(active).len() ==> active_indices(active)[i] < active_indices(active)[j],
        forall|k: int| 0 <= k < active_indices(active).len() ==> active_indices(active)[k] < active.len(),
        forall|s: int| 0 <= s < active.len() ==> (active[s] <==> #[trigger] active_indices(active).contains(s as usize)),
    decreases active.len(),
{
    if active.len() > 0 {
        let prefix = active.drop_last();
        lemma_active_indices(prefix);
        let p = active_indices(prefix);
        let last = (active.len() - 1) as usize;
        let r = active_indices(active);
        if active.last() {
            assert(r == p.push(last));
        } else {
            assert(r == p);
        }
        assert forall|s: int| 0 <= s < active.len() implies (active[s] <==> #[trigger] r.contains(s as usize)) by {
            if s < active.len() - 1 {
                assert(prefix[s] == active[s]);
                assert(p.contains(s as usize) <==> prefix[s]);
                if active.last() {
                    if p.contains(s as usize) {
                        let k = choose|k: int| 0 <= k < p.len() && p[k] == s as usize;
                        assert(r[k] == s as usize);
                    }
                    if r.contains(s as usize) {
                        let k = choose|k: int| 0 <= k < r.len() && r[k] == s as usize;
                        if k < p.len() {
                            assert(p[k] == s as usize);
                        } else {
                            assert(r[k] == last);
                        }
                    }
                }
            } else {
                assert(s as usize == last);
                if active.last() {
                    assert(r[p.len() as int] == last);
                } else {
                    if p.contains(last) {
                        let k = choose|k: int| 0 <= k < p.len() && p[k] == last;
                        assert(p[k] < prefix.len());
                    }
                }
            }
        }
    }
}

/// Switching off a slot that was just allocated makes it the one the next
/// allocation takes again.
pub proof fn lemma_deactivate_frees_slot(active: Seq<bool>, i: int)
    requires
        first_inactive(active) == Some(i),
    ensures
        active.update(i, true).update(i, false) =~= active,
        first_inactive(active.update(i, true).update(i, false)) == Some(i),
{
    assert(0 <= i < active.len() && !active[i]);
    assert(active.update(i, true).update(i, false) =~= active);
}

/// A fade-out started over `fade_len` frames has ended (count zero) once
/// `fade_len` frames have been processed, and its counts run from
/// `-fade_len` up towards zero.
pub proof fn lemma_fade_out_completes(fade_len: int, total_frames: int)
    requires
        0 <= fade_len <= total_frames,
    ensures
        fade_frames(-fade_len, total_frames) == fade_len,
        count_after(-fade_len, fade_frames(-fade_len, total_frames)) == 0,
        forall|j: int| 0 <= j < fade_len ==> -fade_len <= #[trigger] count_after(-fade_len, j) < 0,
{
}

/// A fade-in started over `fade_len` frames has ended once `fade_len`
/// frames have been processed, its counts running from `fade_len` down
/// towards zero.
pub proof fn lemma_fade_in_completes(fade_len: int, total_frames: int)
    requires
        0 <= fade_len <= total_frames,
    ensures
        fade_frames(fade_len, total_frames) == fade_len,
        count_after(fade_len, fade_frames(fade_len, total_frames)) == 0,
        forall|j: int| 0 <= j < fade_len ==> 0 < #[trigger] count_after(fade_len, j) <= fade_len,
{
}

/// With no fade running, a block passes untouched and the state stays.
pub proof fn lemma_no_fade_is_identity(total_frames: int)
    requires
        total_frames >= 0,
    ensures
        fade_frames(0, total_frames) == 0,
        count_after(0, 0) == 0,
{
}

/// Splitting a block in two moves a fade as far as processing it whole.
pub proof fn lemma_fade_steps_compose(count: int, a: int, b: int)
    requires
        a >= 0,
        b >= 0,
    ensures
        fade_frames(count, a) + fade_frames(count_after(count, fade_frames(count, a)), b) == fade_frames(count, a + b),
        count_after(count_after(count, fade_frames(count, a)), fade_frames(count_after(count, fade_frames(count, a)), b))
            == count_after(count, fade_frames(count, a + b)),
{
}

/// An output block never reads more samples than are buffered, and a
/// lost input or a block without a whole frame reads nothing.
pub proof fn lemma_block_plan_reads_buffered(
    path: OutputPath,
    in_ch: u16,
    out_ch: u16,
    output_len: usize,
    input_lost: bool,
    delta: i32,
    resampler_frames: usize,
    occupied: usize,
)
    requires
        in_ch > 0,
        out_ch > 0,
    ensures
        match block_plan_for(path, in_ch, out_ch, output_len, input_lost, delta, resampler_frames, occupied) {
            BlockPlan::Passthrough { samples } => samples <= occupied && samples <= output_len,
            BlockPlan::Minimal { read_samples, copy_samples } => read_samples <= occupied && copy_samples <= read_samples
                && copy_samples <= output_len,
            BlockPlan::Full { frames, read_samples } => read_samples <= occupied && frames >= 1,
            _ => true,
        },
        input_lost && output_len >= out_ch ==> block_plan_for(path, in_ch, out_ch, output_len, input_lost, delta, resampler_frames, occupied) == BlockPlan::MuteLost,
        output_len < out_ch ==> block_plan_for(path, in_ch, out_ch, output_len, input_lost, delta, resampler_frames, occupied) == BlockPlan::Skip,
        !(block_plan_for(path, in_ch, out_ch, output_len, input_lost, delta, resampler_frames, occupied) is Skip
            || block_plan_for(path, in_ch, out_ch, output_len, input_lost, delta, resampler_frames, occupied) is MuteLost
            || block_plan_for(path, in_ch, out_ch, output_len, input_lost, delta, resampler_frames, occupied) is Underrun)
            ==> limits(block_plan_for(path, in_ch, out_ch, output_len, input_lost, delta, resampler_frames, occupied)),
{
    let of = output_len as int / out_ch as int;
    assert(of * out_ch <= output_len) by (nonlinear_arith)
        requires of == output_len as int / out_ch as int, out_ch > 0, output_len >= 0;
    if output_len >= out_ch {
        assert(of >= 1) by (nonlinear_arith)
            requires of == output_len as int / out_ch as int, out_ch > 0, output_len >= out_ch;
    } else {
        assert(of == 0) by (nonlinear_arith)
            requires of == output_len as int / out_ch as int, out_ch > 0, output_len < out_ch, output_len >= 0;
    }
    let t = if of + delta < 0 { 0 } else { of + delta };
    assert(t <= t * in_ch) by (nonlinear_arith)
        requires t >= 0, in_ch >= 1;
    let b = if resampler_frames < 1 { 1 } else { resampler_frames as int };
    let fr = b + if delta < 0 { 0 } else { delta as int };
    assert(fr <= fr * in_ch) by (nonlinear_arith)
        requires fr >= 0, in_ch >= 1;
}

/// Only an output with the input's rate and channel count skips channel
/// mapping and resampling: whenever the rates or the channel counts differ
/// the full conversion runs; with both equal, drift compensation alone
/// decides between the straight copy (off) and the minimal conversion (on).
pub proof fn lemma_output_path_needs_equal_formats(in_rate: u32, out_rate: u32, in_ch: u16, out_ch: u16, no_drift: bool)
    ensures
        (in_rate != out_rate || in_ch != out_ch) ==> output_path_for(in_rate, out_rate, in_ch, out_ch, no_drift) == OutputPath::FullConvert,
        output_path_for(in_rate, out_rate, in_ch, out_ch, no_drift) != OutputPath::FullConvert ==> (in_rate == out_rate && in_ch == out_ch),
        output_path_for(in_rate, out_rate, in_ch, out_ch, no_drift) == OutputPath::Passthrough ==> no_drift,
        output_path_for(in_rate, out_rate, in_ch, out_ch, no_drift) == OutputPath::MinimalConvert ==> !no_drift,
        (in_rate == out_rate && in_ch == out_ch) ==> output_path_for(in_rate, out_rate, in_ch, out_ch, no_drift) != OutputPath::FullConvert,
{
}

} // verus!
