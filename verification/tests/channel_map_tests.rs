use audio_router::channel_map::{ChannelMapper, SampleSource};

/// Fills `output` from `input` as the mapper's plan says, with the gains
/// of ITU-R BS.775.
fn map(mapper: &ChannelMapper, input: &[f32], output: &mut [f32]) {
    let plan = mapper.plan(input.len(), output.len());
    assert_eq!(plan.len(), output.len());
    for (k, s) in plan.iter().enumerate() {
        output[k] = match *s {
            SampleSource::Silence => 0.0,
            SampleSource::Copy(i) => input[i],
            SampleSource::Average(a, b) => 0.5 * input[a] + 0.5 * input[b],
            SampleSource::Downmix { front, center, surround } => {
                0.5 * input[front] + 0.35 * input[center] + 0.35 * input[surround]
            }
        };
    }
}

#[test]
fn test_passthrough_2ch() {
    let mapper = ChannelMapper::new(2, 2);
    assert!(mapper.is_passthrough());

    let input = vec![1.0, 2.0, 3.0, 4.0, 5.0, 6.0];
    let mut output = vec![0.0; 6];
    map(&mapper, &input, &mut output);
    assert_eq!(output, input);
}

#[test]
fn test_passthrough_1ch() {
    let mapper = ChannelMapper::new(1, 1);
    assert!(mapper.is_passthrough());

    let input = vec![0.5, -0.3, 0.8];
    let mut output = vec![0.0; 3];
    map(&mapper, &input, &mut output);
    assert_eq!(output, input);
}

#[test]
fn test_mono_to_stereo() {
    let mapper = ChannelMapper::new(1, 2);

    let input = vec![0.5, -0.3];
    let mut output = vec![0.0; 4];
    map(&mapper, &input, &mut output);

    assert_eq!(output[0], 0.5);
    assert_eq!(output[1], 0.5);
    assert_eq!(output[2], -0.3);
    assert_eq!(output[3], -0.3);
}

#[test]
fn test_stereo_to_mono() {
    let mapper = ChannelMapper::new(2, 1);

    let input = vec![1.0, 0.6, -0.2, 0.8];
    let mut output = vec![0.0; 2];
    map(&mapper, &input, &mut output);

    let expected0 = 0.5 * 1.0 + 0.5 * 0.6;
    let expected1 = 0.5 * (-0.2) + 0.5 * 0.8;
    assert!((output[0] - expected0).abs() < 1e-6);
    assert!((output[1] - expected1).abs() < 1e-6);
}

#[test]
fn test_51_to_stereo() {
    let mapper = ChannelMapper::new(6, 2);

    let input = vec![1.0, 0.5, 0.8, 0.3, 0.4, 0.2];
    let mut output = vec![0.0; 2];
    map(&mapper, &input, &mut output);

    let expected_l = 0.5 * 1.0 + 0.35 * 0.5 + 0.35 * 0.3;
    let expected_r = 0.5 * 0.8 + 0.35 * 0.5 + 0.35 * 0.4;
    assert!((output[0] - expected_l).abs() < 1e-6);
    assert!((output[1] - expected_r).abs() < 1e-6);
}

#[test]
fn test_generic_fallback_3ch_to_4ch() {
    let mapper = ChannelMapper::new(3, 4);

    let input = vec![1.0, 2.0, 3.0];
    let mut output = vec![0.0; 4];
    map(&mapper, &input, &mut output);

    assert_eq!(output[0], 1.0);
    assert_eq!(output[1], 2.0);
    assert_eq!(output[2], 3.0);
    assert_eq!(output[3], 0.0);
}

#[test]
fn test_generic_fallback_4ch_to_2ch() {
    let mapper = ChannelMapper::new(4, 2);

    let input = vec![0.1, 0.2, 0.3, 0.4];
    let mut output = vec![0.0; 2];
    map(&mapper, &input, &mut output);

    assert_eq!(output[0], 0.1);
    assert_eq!(output[1], 0.2);
}

#[test]
fn test_input_longer_than_output() {
    let mapper = ChannelMapper::new(2, 2);

    let input = vec![1.0, 2.0, 3.0, 4.0, 5.0, 6.0];
    let mut output = vec![0.0; 4];
    map(&mapper, &input, &mut output);

    assert_eq!(output, vec![1.0, 2.0, 3.0, 4.0]);
}

#[test]
fn test_output_longer_than_input() {
    let mapper = ChannelMapper::new(1, 2);

    let input = vec![0.5];
    let mut output = vec![0.0; 6];
    map(&mapper, &input, &mut output);

    assert_eq!(output[0], 0.5);
    assert_eq!(output[1], 0.5);
    assert_eq!(output[2], 0.0);
    assert_eq!(output[3], 0.0);
    assert_eq!(output[4], 0.0);
    assert_eq!(output[5], 0.0);
}

#[test]
fn plan_names_sources_for_surround_downmix() {
    let mapper = ChannelMapper::new(6, 2);
    let plan = mapper.plan(12, 4);
    assert_eq!(
        plan,
        vec![
            SampleSource::Downmix { front: 0, center: 1, surround: 3 },
            SampleSource::Downmix { front: 2, center: 1, surround: 4 },
            SampleSource::Downmix { front: 6, center: 7, surround: 9 },
            SampleSource::Downmix { front: 8, center: 7, surround: 10 },
        ]
    );
}

#[test]
fn plan_silences_a_partial_trailing_frame() {
    // 5 output samples hold two stereo frames and one lone sample.
    let mapper = ChannelMapper::new(2, 2);
    let plan = mapper.plan(10, 5);
    assert_eq!(
        plan,
        vec![
            SampleSource::Copy(0),
            SampleSource::Copy(1),
            SampleSource::Copy(2),
            SampleSource::Copy(3),
            SampleSource::Silence,
        ]
    );
}

#[test]
fn plan_of_stereo_to_mono_averages_pairs() {
    let mapper = ChannelMapper::new(2, 1);
    assert!(!mapper.is_passthrough());
    let plan = mapper.plan(4, 3);
    assert_eq!(
        plan,
        vec![SampleSource::Average(0, 1), SampleSource::Average(2, 3), SampleSource::Silence]
    );
}

#[test]
fn plan_with_empty_input_is_all_silence() {
    let mapper = ChannelMapper::new(1, 2);
    let plan = mapper.plan(0, 4);
    assert_eq!(plan, vec![SampleSource::Silence; 4]);
}
