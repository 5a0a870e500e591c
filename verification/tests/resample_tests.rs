use audio_router::resample::ResamplerType;

#[test]
fn test_resampler_type_equality() {
    assert_eq!(ResamplerType::Sinc, ResamplerType::Sinc);
    assert_ne!(ResamplerType::Sinc, ResamplerType::Cubic);
    assert_ne!(ResamplerType::Cubic, ResamplerType::NoResampling);
}
