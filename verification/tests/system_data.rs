use rfmod::fmod::DSPResampler;
use rfmod::fmod::SoundFormat;
use rfmod::fmod::Status;
use rfmod::fmod_sys::FmodGuid;
use rfmod::fmod_sys::FmodMemoryUsageDetails;
use rfmod::fmod_sys::FmodSoftwareFormat;
use rfmod::fmod_sys::bool_from_c;
use rfmod::fmod_sys::c_bool;
use rfmod::fmod_sys::combine_release;
use rfmod::fmod::DSP_FFT_Window;
use rfmod::fmod_sys::effective_channel_offset;
use rfmod::fmod_sys::effective_fft_window;
use rfmod::fmod_sys::should_release;

#[test]
fn default_guid_is_zero() {
    let g = FmodGuid::default();
    assert_eq!(g.data1, 0);
    assert_eq!(g.data2, 0);
    assert_eq!(g.data3, 0);
    assert_eq!(g.data4, [0u8; 8]);
}

#[test]
fn default_software_format_is_empty() {
    let f = FmodSoftwareFormat::default();
    assert_eq!(f.sample_rate, 0);
    assert_eq!(f.format, SoundFormat::SoundFormatNone);
    assert_eq!(f.num_output_channels, 0);
    assert_eq!(f.max_input_channels, 0);
    assert_eq!(f.resample_method, DSPResampler::DSPResamplerNoInterp);
    assert_eq!(f.bits, 0);
}

#[test]
fn software_format_from_raw_known_codes() {
    let f = FmodSoftwareFormat::from_raw(44100, 2, 2, 6, 1, 16).unwrap();
    assert_eq!(f.sample_rate, 44100);
    assert_eq!(f.format, SoundFormat::SoundFormatPCM16);
    assert_eq!(f.num_output_channels, 2);
    assert_eq!(f.max_input_channels, 6);
    assert_eq!(f.resample_method, DSPResampler::DSPResamplerLinear);
    assert_eq!(f.bits, 16);
}

#[test]
fn software_format_from_raw_unknown_codes() {
    assert_eq!(FmodSoftwareFormat::from_raw(44100, 99, 2, 6, 1, 16), None);
    assert_eq!(FmodSoftwareFormat::from_raw(44100, 2, 2, 6, 9, 16), None);
}

#[test]
fn default_memory_usage_details_is_zero() {
    let d = FmodMemoryUsageDetails::default();
    assert_eq!(d.other, 0);
    assert_eq!(d.sound, 0);
    assert_eq!(d.geometry, 0);
    assert_eq!(d.event_instance_pool, 0);
}

#[test]
fn boolean_marshalling() {
    assert_eq!(c_bool(true), 1);
    assert_eq!(c_bool(false), 0);
    assert!(bool_from_c(1));
    assert!(!bool_from_c(0));
    assert!(!bool_from_c(-1));
    assert!(!bool_from_c(2));
}

#[test]
fn release_decision() {
    assert!(should_release(true, true));
    assert!(!should_release(true, false));
    assert!(!should_release(false, true));
    assert!(!should_release(false, false));
}

#[test]
fn release_status_combination() {
    assert_eq!(combine_release(Status::Okay, Status::Okay), Status::Okay);
    assert_eq!(combine_release(Status::Okay, Status::ErrInternal), Status::ErrInternal);
    assert_eq!(
        combine_release(Status::ErrInvalidHandle, Status::Okay),
        Status::ErrInvalidHandle
    );
    assert_eq!(
        combine_release(Status::ErrInvalidHandle, Status::ErrInternal),
        Status::ErrInvalidHandle
    );
}

#[test]
fn channel_offset_fallback() {
    assert_eq!(effective_channel_offset(Some(3)), 3);
    assert_eq!(effective_channel_offset(None), 0);
}

#[test]
fn fft_window_fallback() {
    assert_eq!(
        effective_fft_window(Some(DSP_FFT_Window::DSP_FFT_WindowHamming)),
        DSP_FFT_Window::DSP_FFT_WindowHamming
    );
    assert_eq!(effective_fft_window(None), DSP_FFT_Window::DSP_FFT_WindowRect);
}
