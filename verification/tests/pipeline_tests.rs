use audio_router::pipeline::{
    plan_output_block, select_output_path, BlockPlan, Fader, FanOut, OutputPath, SlotArray, MAX_OUTPUTS,
};

#[test]
fn slot_array_starts_empty() {
    let slots: SlotArray<u32> = SlotArray::new(MAX_OUTPUTS);
    assert_eq!(slots.len(), 32);
    assert!(slots.active_slots().is_empty());
    for i in 0..32 {
        assert!(!slots.is_active(i));
    }
}

#[test]
fn allocate_takes_first_free_slot_until_full() {
    let mut slots: SlotArray<u32> = SlotArray::new(3);
    assert_eq!(slots.allocate_slot(10), Some(0));
    assert_eq!(slots.allocate_slot(11), Some(1));
    assert_eq!(slots.allocate_slot(12), Some(2));
    assert_eq!(slots.allocate_slot(13), None);
    assert_eq!(slots.active_slots(), vec![0, 1, 2]);
    assert_eq!(*slots.producer_mut(1), Some(11));
}

#[test]
fn deactivated_slot_is_reused_first() {
    let mut slots: SlotArray<u32> = SlotArray::new(4);
    slots.allocate_slot(1);
    slots.allocate_slot(2);
    slots.allocate_slot(3);
    slots.deactivate_slot(1);
    assert_eq!(slots.active_slots(), vec![0, 2]);
    // The producer is kept until the slot is taken again.
    assert_eq!(*slots.producer_mut(1), Some(2));
    assert_eq!(slots.allocate_slot(9), Some(1));
    assert_eq!(*slots.producer_mut(1), Some(9));
    assert_eq!(slots.active_slots(), vec![0, 1, 2]);
}

#[test]
fn slot_array_with_no_slots_refuses() {
    let mut slots: SlotArray<u32> = SlotArray::new(0);
    assert_eq!(slots.allocate_slot(1), None);
    assert!(slots.active_slots().is_empty());
}

#[test]
fn fan_out_pushes_skips_and_overflows() {
    let mut slots: SlotArray<u32> = SlotArray::new(4);
    slots.allocate_slot(1);
    slots.allocate_slot(2);
    slots.allocate_slot(3);
    slots.deactivate_slot(2);
    let plan = slots.fan_out_plan(&vec![100, 10, 100, 100], 64);
    assert_eq!(plan, vec![FanOut::Push, FanOut::Overflow, FanOut::Skip, FanOut::Skip]);
    // Exactly enough room is enough.
    let plan = slots.fan_out_plan(&vec![64, 63, 0, 0], 64);
    assert_eq!(plan, vec![FanOut::Push, FanOut::Overflow, FanOut::Skip, FanOut::Skip]);
    // An empty block goes nowhere.
    let plan = slots.fan_out_plan(&vec![0, 0, 0, 0], 0);
    assert_eq!(plan, vec![FanOut::Skip; 4]);
}

#[test]
fn fade_out_counts_up_to_zero() {
    let mut fader = Fader::new(4);
    assert_eq!(fader.fade_count(), 0);
    assert_eq!(fader.fade_len(), 4);
    fader.start_fade_out();
    assert_eq!(fader.fade_count(), -4);
    let counts = fader.step_frames(3);
    assert_eq!(counts, vec![-4, -3, -2]);
    assert_eq!(fader.fade_count(), -1);
    let counts = fader.step_frames(10);
    assert_eq!(counts, vec![-1]);
    assert_eq!(fader.fade_count(), 0);
    // With no fade running a block is left alone.
    assert!(fader.step_frames(10).is_empty());
}

#[test]
fn fade_in_counts_down_to_zero() {
    let mut fader = Fader::new(3);
    fader.start_fade_in();
    assert_eq!(fader.fade_count(), 3);
    assert_eq!(fader.step_frames(8), vec![3, 2, 1]);
    assert_eq!(fader.fade_count(), 0);
}

#[test]
fn fade_in_two_blocks_matches_one_block() {
    let mut a = Fader::new(240);
    let mut b = Fader::new(240);
    a.start_fade_in();
    b.start_fade_in();
    let mut split = a.step_frames(100);
    split.extend(a.step_frames(200));
    let whole = b.step_frames(300);
    assert_eq!(split, whole);
    assert_eq!(a.fade_count(), b.fade_count());
    assert_eq!(whole.len(), 240);
}

#[test]
fn output_path_choice() {
    assert_eq!(select_output_path(48000, 48000, 2, 2, true), OutputPath::Passthrough);
    assert_eq!(select_output_path(48000, 48000, 2, 2, false), OutputPath::MinimalConvert);
    assert_eq!(select_output_path(48000, 44100, 2, 2, true), OutputPath::FullConvert);
    assert_eq!(select_output_path(48000, 48000, 2, 6, true), OutputPath::FullConvert);
}

#[test]
fn block_plan_skip_and_mute() {
    // Fewer samples than one output frame.
    assert_eq!(plan_output_block(OutputPath::Passthrough, 2, 2, 1, false, 0, 0, 1000), BlockPlan::Skip);
    // A lost input mutes even with plenty buffered.
    assert_eq!(plan_output_block(OutputPath::FullConvert, 2, 2, 512, true, 0, 256, 10000), BlockPlan::MuteLost);
}

#[test]
fn block_plan_passthrough() {
    assert_eq!(
        plan_output_block(OutputPath::Passthrough, 2, 2, 512, false, 0, 0, 600),
        BlockPlan::Passthrough { samples: 512 }
    );
    assert_eq!(
        plan_output_block(OutputPath::Passthrough, 2, 2, 512, false, 0, 0, 512),
        BlockPlan::Passthrough { samples: 512 }
    );
    assert_eq!(plan_output_block(OutputPath::Passthrough, 2, 2, 512, false, 0, 0, 511), BlockPlan::Underrun);
}

#[test]
fn block_plan_minimal_with_drift() {
    // 256 frames, one extra frame requested by drift correction.
    assert_eq!(
        plan_output_block(OutputPath::MinimalConvert, 2, 2, 512, false, 1, 0, 1000),
        BlockPlan::Minimal { read_samples: 514, copy_samples: 512 }
    );
    // One frame fewer.
    assert_eq!(
        plan_output_block(OutputPath::MinimalConvert, 2, 2, 512, false, -1, 0, 1000),
        BlockPlan::Minimal { read_samples: 510, copy_samples: 510 }
    );
    // A correction beyond the block reads nothing.
    assert_eq!(
        plan_output_block(OutputPath::MinimalConvert, 2, 2, 512, false, -300, 0, 0),
        BlockPlan::Minimal { read_samples: 0, copy_samples: 0 }
    );
    assert_eq!(plan_output_block(OutputPath::MinimalConvert, 2, 2, 512, false, 0, 0, 100), BlockPlan::Underrun);
}

#[test]
fn block_plan_full_reads_what_the_resampler_asks() {
    assert_eq!(
        plan_output_block(OutputPath::FullConvert, 2, 6, 1536, false, 2, 441, 10000),
        BlockPlan::Full { frames: 443, read_samples: 886 }
    );
    // A negative correction does not shrink the read.
    assert_eq!(
        plan_output_block(OutputPath::FullConvert, 2, 6, 1536, false, -5, 441, 10000),
        BlockPlan::Full { frames: 441, read_samples: 882 }
    );
    // The resampler asking for nothing still reads one frame.
    assert_eq!(
        plan_output_block(OutputPath::FullConvert, 1, 2, 8, false, 0, 0, 1),
        BlockPlan::Full { frames: 1, read_samples: 1 }
    );
    assert_eq!(plan_output_block(OutputPath::FullConvert, 2, 6, 1536, false, 0, 441, 881), BlockPlan::Underrun);
}

#[test]
fn small_stereo_blocks_underrun_or_mute() {
    // Two frames wanted, one buffered.
    assert_eq!(plan_output_block(OutputPath::Passthrough, 2, 2, 4, false, 0, 0, 2), BlockPlan::Underrun);
    // A lost input reads nothing, whatever is buffered.
    assert_eq!(plan_output_block(OutputPath::Passthrough, 2, 2, 4, true, 0, 0, 4), BlockPlan::MuteLost);
}

#[test]
fn oversized_requests_are_underruns() {
    // The samples wanted exceed any buffer size.
    assert_eq!(
        plan_output_block(OutputPath::MinimalConvert, 2, 2, usize::MAX, false, i32::MAX, 0, usize::MAX),
        BlockPlan::Underrun
    );
    assert_eq!(
        plan_output_block(OutputPath::FullConvert, 4, 2, 8, false, i32::MAX, usize::MAX, usize::MAX),
        BlockPlan::Underrun
    );
}
