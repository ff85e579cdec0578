use rfmod::fmod::DSP_FFT_Window;
use rfmod::fmod::DSPResampler;
use rfmod::fmod::DspType;
use rfmod::fmod::OutputType;
use rfmod::fmod::PluginType;
use rfmod::fmod::SoundFormat;
use rfmod::fmod::SoundType;
use rfmod::fmod::Speaker;
use rfmod::fmod::SpeakerMapType;
use rfmod::fmod::SpeakerMode;

#[test]
fn sound_format_codes() {
    assert_eq!(SoundFormat::SoundFormatNone.to_code(), 0);
    assert_eq!(SoundFormat::SoundFormatPCM16.to_code(), 2);
    assert_eq!(SoundFormat::SoundFormatVORBIS.to_code(), 14);
    assert_eq!(SoundFormat::from_code(5), Some(SoundFormat::SoundFormatPCMFloat));
    assert_eq!(SoundFormat::from_code(15), None);
}

#[test]
fn dsp_resampler_codes() {
    assert_eq!(DSPResampler::DSPResamplerNoInterp.to_code(), 0);
    assert_eq!(DSPResampler::from_code(3), Some(DSPResampler::DSPResamplerSpline));
    assert_eq!(DSPResampler::from_code(4), None);
}

#[test]
fn sound_type_codes() {
    assert_eq!(SoundType::SoundTypeUnknown.to_code(), 0);
    assert_eq!(SoundType::SoundTypeMPEG.to_code(), 12);
    assert_eq!(SoundType::from_code(19), Some(SoundType::SoundTypeWAV));
    assert_eq!(SoundType::from_code(26), None);
}

#[test]
fn output_type_codes() {
    assert_eq!(OutputType::OutputTypeAutoDetect.to_code(), 0);
    assert_eq!(OutputType::from_code(11), Some(OutputType::OutputTypeALSA));
    assert_eq!(OutputType::from_code(22), None);
}

#[test]
fn speaker_mode_codes() {
    assert_eq!(SpeakerMode::SpeakerModeRaw.to_code(), 0);
    assert_eq!(SpeakerMode::SpeakerModeStereo.to_code(), 2);
    assert_eq!(SpeakerMode::from_code(5), Some(SpeakerMode::SpeakerMode5Point1));
    assert_eq!(SpeakerMode::from_code(10), None);
}

#[test]
fn speaker_codes() {
    assert_eq!(Speaker::SpeakerFrontLeft.to_code(), 0);
    assert_eq!(Speaker::SpeakerNull.to_code(), 8);
    assert_eq!(Speaker::from_code(7), Some(Speaker::SpeakerSideRight));
    assert_eq!(Speaker::from_code(9), None);
}

#[test]
fn speaker_map_type_codes() {
    assert_eq!(SpeakerMapType::SpeakerMapTypeDefault.to_code(), 0);
    assert_eq!(SpeakerMapType::from_code(2), Some(SpeakerMapType::SpeakerMapTypeAllStereo));
    assert_eq!(SpeakerMapType::from_code(3), None);
}

#[test]
fn plugin_type_codes() {
    assert_eq!(PluginType::PluginTypeOutput.to_code(), 0);
    assert_eq!(PluginType::from_code(1), Some(PluginType::PluginTypeCodec));
    assert_eq!(PluginType::from_code(3), None);
}

#[test]
fn dsp_type_codes() {
    assert_eq!(DspType::DspTypeUnknown.to_code(), 0);
    assert_eq!(DspType::DspTypeEcho.to_code(), 6);
    assert_eq!(DspType::from_code(17), Some(DspType::DspTypeSFXReverb));
    assert_eq!(DspType::from_code(23), None);
}

#[test]
fn fft_window_codes() {
    assert_eq!(DSP_FFT_Window::DSP_FFT_WindowRect.to_code(), 0);
    assert_eq!(DSP_FFT_Window::from_code(5), Some(DSP_FFT_Window::DSP_FFT_WindowBlackmanHarris));
    assert_eq!(DSP_FFT_Window::from_code(6), None);
}

#[test]
fn every_enum_round_trips_through_its_code() {
    for c in 0..15u32 {
        assert_eq!(SoundFormat::from_code(c).unwrap().to_code(), c);
    }
    for c in 0..4u32 {
        assert_eq!(DSPResampler::from_code(c).unwrap().to_code(), c);
    }
    for c in 0..26u32 {
        assert_eq!(SoundType::from_code(c).unwrap().to_code(), c);
    }
    for c in 0..22u32 {
        assert_eq!(OutputType::from_code(c).unwrap().to_code(), c);
    }
    for c in 0..10u32 {
        assert_eq!(SpeakerMode::from_code(c).unwrap().to_code(), c);
    }
    for c in 0..9u32 {
        assert_eq!(Speaker::from_code(c).unwrap().to_code(), c);
    }
    for c in 0..3u32 {
        assert_eq!(SpeakerMapType::from_code(c).unwrap().to_code(), c);
        assert_eq!(PluginType::from_code(c).unwrap().to_code(), c);
    }
    for c in 0..23u32 {
        assert_eq!(DspType::from_code(c).unwrap().to_code(), c);
    }
    for c in 0..6u32 {
        assert_eq!(DSP_FFT_Window::from_code(c).unwrap().to_code(), c);
    }
}
