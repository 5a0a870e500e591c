use vstd::prelude::*;

use crate::hotplug::HotplugEvent;
use crate::recovery::RecoveryAction;
use crate::resample::{resampler_type_of, ResamplerType};
use crate::text::text_eq;

verus! {

/// Distance between two sample rates.
pub open spec fn rate_distance(a: u32, b: u32) -> int {
    if a >= b { a - b } else { b - a }
}

/// The output sample rate for a device that supports `rates` when the input
/// runs at `requested`: the requested rate when the device lists no rate or
/// lists it; otherwise the closest listed rate, the earliest listed one
/// among equally close rates.
pub open spec fn output_rate_choice(rates: Seq<u32>, requested: u32, chosen: u32) -> bool {
    if rates.len() == 0 || rates.contains(requested) {
        chosen == requested
    } else {
        exists|k: int|
            0 <= k < rates.len() && rates[k] == chosen
                && (forall|j: int| 0 <= j < rates.len() ==> rate_distance(rates[k], requested) <= rate_distance(#[trigger] rates[j], requested))
                && (forall|j: int| 0 <= j < k ==> rate_distance(rates[k], requested) < rate_distance(#[trigger] rates[j], requested))
    }
}

/// Chooses an output device's sample rate (see `output_rate_choice`).
pub fn choose_output_sample_rate(rates: &Vec<u32>, requested: u32) -> (r: u32)
    ensures
        output_rate_choice(rates@, requested, r),
{
    if rates.len() == 0 {
        return requested;
    }
    let mut i: usize = 0;
    while i < rates.len()
        invariant
            i <= rates@.len(),
            forall|j: int| 0 <= j < i ==> rates@[j] != requested,
        decreases rates@.len() - i,
    {
        if rates[i] == requested {
            assert(rates@.contains(requested));
            return requested;
        }
        i = i + 1;
    }
    assert(!rates@.contains(requested));
    let mut best: usize = 0;
    let mut best_dist: u32 = if rates[0] >= requested { rates[0] - requested } else { requested - rates[0] };
    let mut k: usize = 1;
    while k < rates.len()
        invariant
            1 <= k <= rates@.len(),
            best < k,
            best_dist == rate_distance(rates@[best as int], requested),
            forall|j: int| 0 <= j < k ==> rate_distance(rates@[best as int], requested) <= rate_distance(#[trigger] rates@[j], requested),
            forall|j: int| 0 <= j < best ==> rate_distance(rates@[best as int], requested) < rate_distance(#[trigger] rates@[j], requested),
        decreases rates@.len() - k,
    {
        let d = if rates[k] >= requested { rates[k] - requested } else { requested - rates[k] };
        if d < best_dist {
            best = k;
            best_dist = d;
        }
        k = k + 1;
    }
    rates[best]
}

/// Whether a buffer of `buffer_frames` frames at `sample_rate` Hz lasts
/// longer than `max_latency_ms`: `buffer_frames * 1000 / sample_rate >
/// max_latency_ms`, compared exactly as `buffer_frames * 1000 >
/// max_latency_ms * sample_rate`.
pub open spec fn latency_exceeds_spec(buffer_frames: u32, sample_rate: u32, max_latency_ms: u32) -> bool {
    buffer_frames * 1000 > max_latency_ms * sample_rate
}

/// Checks the buffer latency against the limit (see `latency_exceeds_spec`).
pub fn latency_exceeds(buffer_frames: u32, sample_rate: u32, max_latency_ms: u32) -> (r: bool)
    ensures
        r == latency_exceeds_spec(buffer_frames, sample_rate, max_latency_ms),
{
    let lhs = buffer_frames as u64 * 1000;
    assert(max_latency_ms as u64 * sample_rate as u64 <= u32::MAX as u64 * u32::MAX as u64) by (nonlinear_arith);
    let rhs = max_latency_ms as u64 * sample_rate as u64;
    lhs > rhs
}

/// Ring buffer capacity of an output, in samples: four buffers of the
/// larger channel count.
pub open spec fn ring_capacity_spec(buffer_frames: u32, in_ch: u16, out_ch: u16) -> int {
    let ch = if in_ch >= out_ch { in_ch } else { out_ch };
    buffer_frames * ch * 4
}

/// The ring buffer capacity of an output (see `ring_capacity_spec`).
pub fn ring_buffer_capacity(buffer_frames: u32, in_ch: u16, out_ch: u16) -> (n: usize)
    requires
        ring_capacity_spec(buffer_frames, in_ch, out_ch) <= usize::MAX,
    ensures
        n == ring_capacity_spec(buffer_frames, in_ch, out_ch),
{
    let ch: usize = if in_ch >= out_ch { in_ch as usize } else { out_ch as usize };
    assert(buffer_frames as usize * ch <= buffer_frames * ch * 4) by (nonlinear_arith);
    buffer_frames as usize * ch * 4
}

/// Fade length in frames: 5 ms of audio, at least one frame.
pub open spec fn fade_length_spec(sample_rate: u32) -> int {
    let n = (5 * sample_rate) / 1000;
    if n < 1 { 1 } else { n }
}

/// The fade length for a sample rate (see `fade_length_spec`).
pub fn fade_length_frames(sample_rate: u32) -> (n: usize)
    requires
        5 * sample_rate <= usize::MAX,
    ensures
        n == fade_length_spec(sample_rate),
        n <= i32::MAX,
{
    let n = (5 * sample_rate as usize) / 1000;
    if n < 1 { 1 } else { n }
}

/// Whether an output needs resampling although resampling is disabled.
pub fn resampling_refused(resampler: &str, input_rate: u32, output_rate: u32) -> (r: bool)
    ensures
        r == (resampler@ == "none"@ && output_rate != input_rate),
{
    text_eq(resampler, "none") && output_rate != input_rate
}

/// An output's channel count: the first one the device lists, otherwise the
/// input's.
pub fn output_channel_count(device_channels: &Vec<u16>, input_channels: u16) -> (c: u16)
    ensures
        c == (if device_channels@.len() > 0 { device_channels@[0] } else { input_channels }),
{
    if device_channels.len() > 0 { device_channels[0] } else { input_channels }
}

/// The first output whose device name is `name`, when a device is removed.
pub fn find_slot_by_name(names: &Vec<String>, name: &str) -> (r: Option<usize>)
    ensures
        match r {
            Some(i) => i < names@.len() && names@[i as int]@ == name@ && forall|j: int| 0 <= j < i ==> (#[trigger] names@[j])@ != name@,
            None => forall|j: int| 0 <= j < names@.len() ==> (#[trigger] names@[j])@ != name@,
        },
{
    let mut i: usize = 0;
    while i < names.len()
        invariant
            i <= names@.len(),
            forall|j: int| 0 <= j < i ==> (#[trigger] names@[j])@ != name@,
        decreases names@.len() - i,
    {
        if text_eq(names[i].as_str(), name) {
            return Some(i);
        }
        i = i + 1;
    }
    None
}

/// How one output device is set up.
#[derive(Debug, Clone, Copy, PartialEq, Eq, Structural)]
pub struct OutputSetup {
    /// The output's channel count.
    pub channels: u16,
    /// The output's sample rate in Hz.
    pub sample_rate: u32,
    /// The capacity of the output's ring buffer, in samples.
    pub ring_capacity: usize,
    /// The fade length in frames.
    pub fade_len: usize,
    /// The resampling algorithm.
    pub resampler: ResamplerType,
}

/// The first listed channel count, or the input's.
pub open spec fn first_channels(device_channels: Seq<u16>, input_channels: u16) -> u16 {
    if device_channels.len() > 0 { device_channels[0] } else { input_channels }
}

/// The setup of an output device that lists `device_channels` and
/// `device_rates`, fed from an input of `input_channels` channels at
/// `input_rate` Hz in blocks of `buffer_frames` frames: the device's first
/// channel count (the input's if it lists none), the sample rate of
/// `output_rate_choice`, a ring buffer of four blocks of the larger channel
/// count, 5 ms fades at the input rate, and the named resampler.
pub open spec fn output_setup_of(
    s: OutputSetup,
    device_channels: Seq<u16>,
    device_rates: Seq<u32>,
    input_channels: u16,
    input_rate: u32,
    buffer_frames: u32,
    resampler: Seq<char>,
) -> bool {
    &&& s.channels == first_channels(device_channels, input_channels)
    &&& output_rate_choice(device_rates, input_rate, s.sample_rate)
    &&& s.ring_capacity == ring_capacity_spec(buffer_frames, input_channels, s.channels)
    &&& s.fade_len == fade_length_spec(input_rate)
    &&& s.resampler == resampler_type_of(resampler)
}

/// Sets up one output device (see `output_setup_of`). `None` when the
/// device would need resampling (it lists rates, none of them the input's)
/// while the resampler is "none".
pub fn plan_output(
    device_channels: &Vec<u16>,
    device_rates: &Vec<u32>,
    input_channels: u16,
    input_rate: u32,
    buffer_frames: u32,
    resampler: &str,
) -> (r: Option<OutputSetup>)
    requires
        ring_capacity_spec(buffer_frames, input_channels, first_channels(device_channels@, input_channels)) <= usize::MAX,
        5 * input_rate <= usize::MAX,
    ensures
        r is None <==> (resampler@ == "none"@ && device_rates@.len() > 0 && !device_rates@.contains(input_rate)),
        r matches Some(s) ==> output_setup_of(s, device_channels@, device_rates@, input_channels, input_rate, buffer_frames, resampler@),
{
    let channels = output_channel_count(device_channels, input_channels);
    let sample_rate = choose_output_sample_rate(device_rates, input_rate);
    if resampling_refused(resampler, input_rate, sample_rate) {
        return None;
    }
    assert(device_rates@.len() > 0 && !device_rates@.contains(input_rate) ==> sample_rate != input_rate) by {
        if device_rates@.len() > 0 && !device_rates@.contains(input_rate) {
            let k = choose|k: int|
                0 <= k < device_rates@.len() && device_rates@[k] == sample_rate
                    && (forall|j: int| 0 <= j < device_rates@.len() ==> rate_distance(device_rates@[k], input_rate) <= rate_distance(#[trigger] device_rates@[j], input_rate))
                    && (forall|j: int| 0 <= j < k ==> rate_distance(device_rates@[k], input_rate) < rate_distance(#[trigger] device_rates@[j], input_rate));
            assert(device_rates@[k] != input_rate);
        }
    }
    let ring_capacity = ring_buffer_capacity(buffer_frames, input_channels, channels);
    let fade_len = fade_length_frames(input_rate);
    Some(OutputSetup {
        channels,
        sample_rate,
        ring_capacity,
        fade_len,
        resampler: ResamplerType::from_name(resampler),
    })
}

/// What the control loop of a running route received from the interface
/// in one round.
#[derive(Debug, Clone, Copy, PartialEq, Eq, Structural)]
pub enum ControlMessage {
    /// A stop request.
    Stop,
    /// A start request (the route already runs).
    Start,
    /// Nothing arrived.
    NoMessage,
    /// The interface's channel is closed.
    Disconnected,
}

/// What the control loop does next.
#[derive(Debug, Clone, Copy, PartialEq, Eq, Structural)]
pub enum ControlDecision {
    /// Keep routing.
    Continue,
    /// Keep routing and ignore a repeated start request.
    IgnoreRepeatedStart,
    /// End the route.
    Stop,
}

/// The control loop's answer to the interface: a stop request or a closed
/// channel ends the route, a repeated start request is ignored, and no
/// message keeps it running.
pub open spec fn control_decision_for(m: ControlMessage) -> ControlDecision {
    match m {
        ControlMessage::Stop => ControlDecision::Stop,
        ControlMessage::Start => ControlDecision::IgnoreRepeatedStart,
        ControlMessage::NoMessage => ControlDecision::Continue,
        ControlMessage::Disconnected => ControlDecision::Stop,
    }
}

/// Decides what the control loop does with what the interface sent (see
/// `control_decision_for`).
pub fn on_control_message(m: ControlMessage) -> (d: ControlDecision)
    ensures
        d == control_decision_for(m),
{
    match m {
        ControlMessage::Stop => ControlDecision::Stop,
        ControlMessage::Start => ControlDecision::IgnoreRepeatedStart,
        ControlMessage::NoMessage => ControlDecision::Continue,
        ControlMessage::Disconnected => ControlDecision::Stop,
    }
}

/// Decides what the control loop does after a recovery tick: the route
/// ends exactly when the tick asks the process to exit.
pub fn on_recovery_action(a: RecoveryAction) -> (d: ControlDecision)
    ensures
        d == (if a == RecoveryAction::ShouldExit { ControlDecision::Stop } else { ControlDecision::Continue }),
{
    match a {
        RecoveryAction::ShouldExit => ControlDecision::Stop,
        _ => ControlDecision::Continue,
    }
}

/// The slot to switch off after a hot-plug event, for outputs named
/// `output_names` in slots `output_slots`: for a removed device, the slot
/// of the first output with exactly that name; nothing for an added device
/// or a name no output has.
pub fn slot_to_deactivate(output_names: &Vec<String>, output_slots: &Vec<usize>, event: &HotplugEvent) -> (r: Option<usize>)
    requires
        output_names@.len() == output_slots@.len(),
    ensures
        match event {
            HotplugEvent::DeviceAdded(_) => r is None,
            HotplugEvent::DeviceRemoved(name) => match r {
                Some(slot) => exists|i: int|
                    0 <= i < output_names@.len() && output_names@[i]@ == name@ && output_slots@[i] == slot
                        && forall|j: int| 0 <= j < i ==> (#[trigger] output_names@[j])@ != name@,
                None => forall|j: int| 0 <= j < output_names@.len() ==> (#[trigger] output_names@[j])@ != name@,
            },
        },
{
    match event {
        HotplugEvent::DeviceAdded(_) => None,
        HotplugEvent::DeviceRemoved(name) => match find_slot_by_name(output_names, name.as_str()) {
            Some(i) => Some(output_slots[i]),
            None => None,
        },
    }
}

} // verus!
