use vstd::prelude::*;

verus! {

/// Where one output sample comes from. The gains are those of ITU-R BS.775.
#[derive(Debug, Clone, Copy, PartialEq, Eq, Structural)]
pub enum SampleSource {
    /// Silence (0.0).
    Silence,
    /// A copy of the input sample at this index.
    Copy(usize),
    /// The equal-weight sum `0.5 * a + 0.5 * b` of two input samples.
    Average(usize, usize),
    /// A 5.1 down-mix: `0.5 * front + 0.35 * center + 0.35 * surround`.
    Downmix { front: usize, center: usize, surround: usize },
}

/// Maps interleaved frames from one channel count to another.
pub struct ChannelMapper {
    input_channels: u16,
    output_channels: u16,
}

/// The number of whole frames that both buffers hold.
pub open spec fn mapped_frames(ich: nat, och: nat, input_len: nat, output_len: nat) -> nat
    recommends
        ich > 0,
        och > 0,
{
    let fi = input_len / ich;
    let fo = output_len / och;
    if fi < fo { fi } else { fo }
}

/// Where output channel `c` of frame `f` comes from:
/// - equal channel counts copy the sample;
/// - mono to stereo copies the mono sample to both sides;
/// - stereo to mono averages left and right;
/// - 5.1 (L, C, R, Ls, Rs, LFE) to stereo mixes front, center and surround
///   of each side, leaving the LFE out;
/// - anything else copies the channels both have and silences the rest.
pub open spec fn frame_source(ich: nat, och: nat, f: nat, c: nat) -> SampleSource {
    let base = f * ich;
    if ich == och {
        SampleSource::Copy((base + c) as usize)
    } else if ich == 1 && och == 2 {
        SampleSource::Copy(base as usize)
    } else if ich == 2 && och == 1 {
        SampleSource::Average(base as usize, (base + 1) as usize)
    } else if ich == 6 && och == 2 {
        if c == 0 {
            SampleSource::Downmix { front: base as usize, center: (base + 1) as usize, surround: (base + 3) as usize }
        } else {
            SampleSource::Downmix { front: (base + 2) as usize, center: (base + 1) as usize, surround: (base + 4) as usize }
        }
    } else if c < ich {
        SampleSource::Copy((base + c) as usize)
    } else {
        SampleSource::Silence
    }
}

/// Every input index that a source names is below `input_len`.
pub open spec fn source_in_bounds(s: SampleSource, input_len: nat) -> bool {
    match s {
        SampleSource::Silence => true,
        SampleSource::Copy(i) => i < input_len,
        SampleSource::Average(a, b) => a < input_len && b < input_len,
        SampleSource::Downmix { front, center, surround } => front < input_len && center < input_len && surround < input_len,
    }
}

proof fn lemma_frames_fit(ich: nat, och: nat, input_len: nat, output_len: nat)
    requires
        ich > 0,
        och > 0,
    ensures
        mapped_frames(ich, och, input_len, output_len) * ich <= input_len,
        mapped_frames(ich, och, input_len, output_len) * och <= output_len,
{
    let fr = mapped_frames(ich, och, input_len, output_len);
    let fi = input_len / ich;
    let fo = output_len / och;
    assert(fi * ich <= input_len) by (nonlinear_arith)
        requires ich > 0, fi == input_len / ich;
    assert(fo * och <= output_len) by (nonlinear_arith)
        requires och > 0, fo == output_len / och;
    assert(fr <= fi && fr <= fo);
    assert(fr * ich <= fi * ich) by (nonlinear_arith)
        requires fr <= fi;
    assert(fr * och <= fo * och) by (nonlinear_arith)
        requires fr <= fo;
}

impl ChannelMapper {
    /// The input channel count.
    pub closed spec fn spec_input_channels(&self) -> u16 {
        self.input_channels
    }

    /// The output channel count.
    pub closed spec fn spec_output_channels(&self) -> u16 {
        self.output_channels
    }

    /// Creates a mapper. Both channel counts must be positive (a zero count
    /// has no meaning and would make frame arithmetic divide by zero).
    pub fn new(input_channels: u16, output_channels: u16) -> (m: Self)
        requires
            input_channels > 0,
            output_channels > 0,
        ensures
            m.spec_input_channels() == input_channels,
            m.spec_output_channels() == output_channels,
    {
        ChannelMapper { input_channels, output_channels }
    }

    /// Whether input and output have the same channel count (no conversion).
    pub fn is_passthrough(&self) -> (r: bool)
        ensures
            r == (self.spec_input_channels() == self.spec_output_channels()),
    {
        self.input_channels == self.output_channels
    }

    /// The mapping of one block: for each sample of an interleaved output
    /// buffer of `output_len` samples, where it comes from in an interleaved
    /// input buffer of `input_len` samples. The frames that both buffers hold
    /// are mapped by `frame_source`; every later output sample is silence.
    pub fn plan(&self, input_len: usize, output_len: usize) -> (p: Vec<SampleSource>)
        requires
            self.spec_input_channels() > 0,
            self.spec_output_channels() > 0,
        ensures
            p@.len() == output_len,
            ({
                let ich = self.spec_input_channels() as nat;
                let och = self.spec_output_channels() as nat;
                let fr = mapped_frames(ich, och, input_len as nat, output_len as nat);
                &&& forall|f: nat, c: nat| f < fr && c < och ==> #[trigger] p@[(f * och + c) as int] == frame_source(ich, och, f, c)
                &&& forall|k: int| fr * och <= k < output_len ==> #[trigger] p@[k] == SampleSource::Silence
            }),
            forall|k: int| 0 <= k < output_len ==> source_in_bounds(#[trigger] p@[k], input_len as nat),
    {
        let ich = self.input_channels as usize;
        let och = self.output_channels as usize;
        let fi = input_len / ich;
        let fo = output_len / och;
        let frames = if fi < fo { fi } else { fo };
        let ghost fr = mapped_frames(ich as nat, och as nat, input_len as nat, output_len as nat);
        assert(frames == fr);
        proof {
            lemma_frames_fit(ich as nat, och as nat, input_len as nat, output_len as nat);
        }
        let mut p: Vec<SampleSource> = Vec::new();
        let mut f: usize = 0;
        let mut base: usize = 0;
        while f < frames
            invariant
                ich == self.spec_input_channels() as usize,
                och == self.spec_output_channels() as usize,
                ich > 0,
                och > 0,
                frames == fr,
                fr * ich <= input_len,
                fr * och <= output_len,
                f <= frames,
                base == f * ich,
                p@.len() == f * och,
                forall|g: nat, c: nat| g < f && c < och ==> #[trigger] p@[(g * och + c) as int] == frame_source(ich as nat, och as nat, g, c),
                forall|k: int| 0 <= k < p@.len() ==> source_in_bounds(#[trigger] p@[k], input_len as nat),
            decreases frames - f,
        {
            assert((f + 1) * ich <= fr * ich) by (nonlinear_arith)
                requires f < fr;
            assert((f + 1) * ich == f * ich + ich) by (nonlinear_arith);
            assert((f + 1) * och == f * och + och) by (nonlinear_arith);
            assert(base + ich <= input_len);
            let ghost start = p@.len();
            let mut c: usize = 0;
            while c < och
                invariant
                    ich == self.spec_input_channels() as usize,
                    och == self.spec_output_channels() as usize,
                    ich > 0,
                    och > 0,
                    f < frames,
                    base == f * ich,
                    base + ich <= input_len,
                    start == f * och,
                    c <= och,
                    p@.len() == start + c,
                    forall|g: nat, c2: nat| g < f && c2 < och ==> #[trigger] p@[(g * och + c2) as int] == frame_source(ich as nat, och as nat, g, c2),
                    forall|c2: nat| c2 < c ==> #[trigger] p@[(f * och + c2) as int] == frame_source(ich as nat, och as nat, f as nat, c2),
                    forall|k: int| 0 <= k < p@.len() ==> source_in_bounds(#[trigger] p@[k], input_len as nat),
                decreases och - c,
            {
                let s = if ich == och {
                    SampleSource::Copy(base + c)
                } else if ich == 1 && och == 2 {
                    SampleSource::Copy(base)
                } else if ich == 2 && och == 1 {
                    SampleSource::Average(base, base + 1)
                } else if ich == 6 && och == 2 {
                    if c == 0 {
                        SampleSource::Downmix { front: base, center: base + 1, surround: base + 3 }
                    } else {
                        SampleSource::Downmix { front: base + 2, center: base + 1, surround: base + 4 }
                    }
                } else if c < ich {
                    SampleSource::Copy(base + c)
                } else {
                    SampleSource::Silence
                };
                assert(s == frame_source(ich as nat, och as nat, f as nat, c as nat));
                let ghost before = p@;
                p.push(s);
                assert forall|g: nat, c2: nat| g < f && c2 < och implies #[trigger] p@[(g * och + c2) as int] == frame_source(ich as nat, och as nat, g, c2) by {
                    assert(g * och + c2 < f * och) by (nonlinear_arith)
                        requires g < f, c2 < och;
                    assert(p@[(g * och + c2) as int] == before[(g * och + c2) as int]);
                }
                c = c + 1;
            }
            f = f + 1;
            base = base + ich;
        }
        assert(p@.len() == fr * och);
        let ghost framed = p@.len();
        while p.len() < output_len
            invariant
                framed == fr * och,
                framed <= p@.len() <= output_len,
                forall|g: nat, c: nat| g < fr && c < och ==> #[trigger] p@[(g * och + c) as int] == frame_source(ich as nat, och as nat, g, c),
                forall|k: int| framed <= k < p@.len() ==> #[trigger] p@[k] == SampleSource::Silence,
                forall|k: int| 0 <= k < p@.len() ==> source_in_bounds(#[trigger] p@[k], input_len as nat),
                och > 0,
            decreases output_len - p@.len(),
        {
            let ghost before = p@;
            p.push(SampleSource::Silence);
            assert forall|g: nat, c: nat| g < fr && c < och implies #[trigger] p@[(g * och + c) as int] == frame_source(ich as nat, och as nat, g, c) by {
                assert(g * och + c < fr * och) by (nonlinear_arith)
                    requires g < fr, c < och;
                assert(p@[(g * och + c) as int] == before[(g * och + c) as int]);
            }
        }
        p
    }
}


/// With equal channel counts every mapped output sample is a copy of the
/// input sample at the same position.
pub proof fn lemma_passthrough_copies(ch: nat, f: nat, c: nat)
    requires
        c < ch,
        f * ch + c <= usize::MAX,
    ensures
        frame_source(ch, ch, f, c) == SampleSource::Copy((f * ch + c) as usize),
{
}

/// Mono to stereo puts the mono sample on both sides.
pub proof fn lemma_mono_to_stereo_duplicates(f: nat)
    requires
        f <= usize::MAX,
    ensures
        frame_source(1, 2, f, 0) == SampleSource::Copy(f as usize),
        frame_source(1, 2, f, 1) == SampleSource::Copy(f as usize),
{
}

/// The 5.1 down-mix shares the center between both sides and leaves the
/// LFE channel (index 5 of each frame) out.
pub proof fn lemma_surround_downmix(f: nat)
    requires
        f * 6 + 5 <= usize::MAX,
    ensures
        frame_source(6, 2, f, 0) == (SampleSource::Downmix { front: (f * 6) as usize, center: (f * 6 + 1) as usize, surround: (f * 6 + 3) as usize }),
        frame_source(6, 2, f, 1) == (SampleSource::Downmix { front: (f * 6 + 2) as usize, center: (f * 6 + 1) as usize, surround: (f * 6 + 4) as usize }),
{
    assert(f * 6 == 6 * f);
}

/// In the generic mapping, output channels beyond the input's are silent
/// and the others copy the channel with the same number.
pub proof fn lemma_generic_mapping(ich: nat, och: nat, f: nat, c: nat)
    requires
        ich != och,
        !(ich == 1 && och == 2),
        !(ich == 2 && och == 1),
        !(ich == 6 && och == 2),
        f * ich + c <= usize::MAX,
    ensures
        c >= ich ==> frame_source(ich, och, f, c) == SampleSource::Silence,
        c < ich ==> frame_source(ich, och, f, c) == SampleSource::Copy((f * ich + c) as usize),
{
}

} // verus!
