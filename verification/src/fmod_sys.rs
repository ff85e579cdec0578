//! Plain structures and decisions of the system object's interface.
//!
//! The system object itself owns a native handle and lives outside the
//! verified library.  Everything it computes on plain values is here: the
//! identifiers and report structures it fills in, the boolean marshalling
//! of the interface, and the decisions its lifecycle makes.

use vstd::prelude::*;

use crate::fmod::DSPResampler;
use crate::fmod::DSP_FFT_Window;
use crate::fmod::SoundFormat;
use crate::fmod::Status;
use crate::fmod::dsp_resampler_from_code;
use crate::fmod::sound_format_from_code;

verus! {

/// A globally unique identifier, as the engine reports one for a driver.
#[derive(Clone, Copy, Debug, PartialEq, Eq)]
pub struct FmodGuid {
    /// First eight hexadecimal digits.
    pub data1: u32,
    /// First group of four hexadecimal digits.
    pub data2: u16,
    /// Second group of four hexadecimal digits.
    pub data3: u16,
    /// The third group of four hexadecimal digits, then the final twelve.
    pub data4: [u8; 8],
}

impl Default for FmodGuid {
    /// The all-zero identifier.
    fn default() -> (g: FmodGuid)
        ensures
            g.data1 == 0,
            g.data2 == 0,
            g.data3 == 0,
            forall|i: int| 0 <= i < 8 ==> g.data4[i] == 0,
    {
        FmodGuid { data1: 0u32, data2: 0u16, data3: 0u16, data4: [0u8; 8] }
    }
}

/// The integer the interface hands the engine for a boolean argument.
pub fn c_bool(value: bool) -> (r: i32)
    ensures
        r == if value { 1int } else { 0int },
{
    if value {
        1
    } else {
        0
    }
}

/// The boolean an engine integer answer stands for: one means true,
/// everything else false.
pub fn bool_from_c(value: i32) -> (r: bool)
    ensures
        r == (value == 1),
{
    value == 1
}

/// Whether teardown must actually close the engine: only the owner that
/// created the system, and whose handle is still live, closes it.
pub fn should_release(is_first: bool, has_handle: bool) -> (r: bool)
    ensures
        r == (is_first && has_handle),
{
    is_first && has_handle
}

/// The status teardown reports: closing comes first, and a failure there
/// is reported in place of anything the release step would say.
pub fn combine_release(close_status: Status, release_status: Status) -> (r: Status)
    ensures
        close_status is Okay ==> r == release_status,
        !(close_status is Okay) ==> r == close_status,
{
    if close_status.is_okay() {
        release_status
    } else {
        close_status
    }
}

/// The channel offset a spectrum or wave-data request falls back to when
/// the caller gives none.
pub fn effective_channel_offset(channel_offset: Option<i32>) -> (c: i32)
    ensures
        channel_offset matches Some(given) ==> c == given,
        channel_offset is None ==> c == 0,
{
    match channel_offset {
        Some(given) => given,
        None => 0,
    }
}

/// The window function a spectrum request falls back to when the caller
/// gives none: the rectangular window.
pub fn effective_fft_window(window_type: Option<DSP_FFT_Window>) -> (w: DSP_FFT_Window)
    ensures
        window_type matches Some(given) ==> w == given,
        window_type is None ==> w == DSP_FFT_Window::DSP_FFT_WindowRect,
{
    match window_type {
        Some(given) => given,
        None => DSP_FFT_Window::DSP_FFT_WindowRect,
    }
}

/// Format the software mixer runs at.
#[derive(Clone, Copy, Debug, PartialEq, Eq, Structural)]
pub struct FmodSoftwareFormat {
    /// Mixer output rate in samples per second.
    pub sample_rate: i32,
    /// Sample layout the mixer produces.
    pub format: SoundFormat,
    /// Number of channels the mixer outputs.
    pub num_output_channels: i32,
    /// Most input channels a sound may carry.
    pub max_input_channels: i32,
    /// Interpolation method of the resampler.
    pub resample_method: DSPResampler,
    /// Bits per output sample.
    pub bits: i32,
}

impl Default for FmodSoftwareFormat {
    /// All counts zero, no sample layout, no interpolation.
    fn default() -> (f: FmodSoftwareFormat)
        ensures
            f.sample_rate == 0,
            f.format == SoundFormat::SoundFormatNone,
            f.num_output_channels == 0,
            f.max_input_channels == 0,
            f.resample_method == DSPResampler::DSPResamplerNoInterp,
            f.bits == 0,
    {
        FmodSoftwareFormat {
            sample_rate: 0i32,
            format: SoundFormat::SoundFormatNone,
            num_output_channels: 0i32,
            max_input_channels: 0i32,
            resample_method: DSPResampler::DSPResamplerNoInterp,
            bits: 0i32,
        }
    }
}

impl FmodSoftwareFormat {
    /// Assembles the mixer format from the raw values the engine writes
    /// back; fails exactly when one of the enumeration codes is unknown.
    pub fn from_raw(
        sample_rate: i32,
        format_code: u32,
        num_output_channels: i32,
        max_input_channels: i32,
        resample_code: u32,
        bits: i32,
    ) -> (r: Option<FmodSoftwareFormat>)
        ensures
            r is Some <==> (sound_format_from_code(format_code) is Some
                && dsp_resampler_from_code(resample_code) is Some),
            r matches Some(f) ==> {
                &&& sound_format_from_code(format_code) matches Some(fmt) && f.format == fmt
                &&& dsp_resampler_from_code(resample_code) matches Some(rs)
                    && f.resample_method == rs
                &&& f.sample_rate == sample_rate
                &&& f.num_output_channels == num_output_channels
                &&& f.max_input_channels == max_input_channels
                &&& f.bits == bits
            },
    {
        let format = SoundFormat::from_code(format_code);
        let resample_method = DSPResampler::from_code(resample_code);
        match (format, resample_method) {
            (Some(format), Some(resample_method)) => Some(
                FmodSoftwareFormat {
                    sample_rate,
                    format,
                    num_output_channels,
                    max_input_channels,
                    resample_method,
                    bits,
                },
            ),
            _ => None,
        }
    }
}

/// Detailed memory use of an engine object, one count per category of
/// allocation, each in bytes.
#[derive(Clone, Copy, Debug, PartialEq, Eq, Structural)]
pub struct FmodMemoryUsageDetails {
    /// Memory not accounted for by the other categories.
    pub other: u32,
    /// String data.
    pub string: u32,
    /// System object and various internals.
    pub system: u32,
    /// Plugin objects and internals.
    pub plugins: u32,
    /// Output module object and internals.
    pub output: u32,
    /// Channel related memory.
    pub channel: u32,
    /// Channel group objects and internals.
    pub channel_group: u32,
    /// Codecs allocated for streaming.
    pub codec: u32,
    /// File buffers and structures.
    pub file: u32,
    /// Sound objects and internals.
    pub sound: u32,
    /// Sound data stored in secondary RAM.
    pub secondary_ram: u32,
    /// Sound group objects and internals.
    pub sound_group: u32,
    /// Stream buffer memory.
    pub stream_buffer: u32,
    /// Connection objects and internals of the processing graph.
    pub dsp_connection: u32,
    /// Processing unit implementation objects.
    pub dsp: u32,
    /// Realtime file format decoding processing units.
    pub dsp_codec: u32,
    /// Profiler memory footprint.
    pub profile: u32,
    /// Buffer used to store recorded data from the microphone.
    pub record_buffer: u32,
    /// Reverb implementation objects.
    pub reverb: u32,
    /// Reverb channel properties.
    pub reverb_channel_props: u32,
    /// Geometry objects and internals.
    pub geometry: u32,
    /// Sync point memory.
    pub sync_point: u32,
    /// Event system and various internals.
    pub event_system: u32,
    /// Music system and various internals.
    pub music_system: u32,
    /// Definitions of objects contained in loaded projects.
    pub fev: u32,
    /// Preloaded sound-bank data.
    pub memory_fsb: u32,
    /// Event project objects and internals.
    pub event_project: u32,
    /// Event group objects and internals.
    pub event_group_i: u32,
    /// Objects used to manage wave banks.
    pub sound_bank_class: u32,
    /// Data used to manage lists of wave bank usage.
    pub sound_bank_list: u32,
    /// Stream objects and internals.
    pub stream_instance: u32,
    /// Sound definition objects.
    pub sound_def_class: u32,
    /// Sound definition static data objects.
    pub sound_def_def_class: u32,
    /// Sound definition pool data.
    pub sound_def_pool: u32,
    /// Reverb definition objects.
    pub reverb_def: u32,
    /// Reverb objects of the event system.
    pub event_reverb: u32,
    /// User property objects.
    pub user_property: u32,
    /// Event instance base objects.
    pub event_instance: u32,
    /// Complex event instance objects.
    pub event_instance_complex: u32,
    /// Simple event instance objects.
    pub event_instance_simple: u32,
    /// Event layer instance objects.
    pub event_instance_layer: u32,
    /// Event sound instance objects.
    pub event_instance_sound: u32,
    /// Event envelope objects.
    pub event_envelope: u32,
    /// Event envelope definition objects.
    pub event_envelope_def: u32,
    /// Event parameter objects.
    pub event_parameter: u32,
    /// Event category objects.
    pub event_category: u32,
    /// Event envelope point objects.
    pub event_envelope_point: u32,
    /// Event instance pool memory.
    pub event_instance_pool: u32,
}

/// The report in which every category counts zero bytes.
pub open spec fn zero_memory_usage_details() -> FmodMemoryUsageDetails {
    FmodMemoryUsageDetails {
        other: 0u32,
        string: 0u32,
        system: 0u32,
        plugins: 0u32,
        output: 0u32,
        channel: 0u32,
        channel_group: 0u32,
        codec: 0u32,
        file: 0u32,
        sound: 0u32,
        secondary_ram: 0u32,
        sound_group: 0u32,
        stream_buffer: 0u32,
        dsp_connection: 0u32,
        dsp: 0u32,
        dsp_codec: 0u32,
        profile: 0u32,
        record_buffer: 0u32,
        reverb: 0u32,
        reverb_channel_props: 0u32,
        geometry: 0u32,
        sync_point: 0u32,
        event_system: 0u32,
        music_system: 0u32,
        fev: 0u32,
        memory_fsb: 0u32,
        event_project: 0u32,
        event_group_i: 0u32,
        sound_bank_class: 0u32,
        sound_bank_list: 0u32,
        stream_instance: 0u32,
        sound_def_class: 0u32,
        sound_def_def_class: 0u32,
        sound_def_pool: 0u32,
        reverb_def: 0u32,
        event_reverb: 0u32,
        user_property: 0u32,
        event_instance: 0u32,
        event_instance_complex: 0u32,
        event_instance_simple: 0u32,
        event_instance_layer: 0u32,
        event_instance_sound: 0u32,
        event_envelope: 0u32,
        event_envelope_def: 0u32,
        event_parameter: 0u32,
        event_category: 0u32,
        event_envelope_point: 0u32,
        event_instance_pool: 0u32,
    }
}

impl Default for FmodMemoryUsageDetails {
    /// Every category counts zero bytes.
    fn default() -> (d: FmodMemoryUsageDetails)
        ensures
            d == zero_memory_usage_details(),
    {
        FmodMemoryUsageDetails {
            other: 0u32,
            string: 0u32,
            system: 0u32,
            plugins: 0u32,
            output: 0u32,
            channel: 0u32,
            channel_group: 0u32,
            codec: 0u32,
            file: 0u32,
            sound: 0u32,
            secondary_ram: 0u32,
            sound_group: 0u32,
            stream_buffer: 0u32,
            dsp_connection: 0u32,
            dsp: 0u32,
            dsp_codec: 0u32,
            profile: 0u32,
            record_buffer: 0u32,
            reverb: 0u32,
            reverb_channel_props: 0u32,
            geometry: 0u32,
            sync_point: 0u32,
            event_system: 0u32,
            music_system: 0u32,
            fev: 0u32,
            memory_fsb: 0u32,
            event_project: 0u32,
            event_group_i: 0u32,
            sound_bank_class: 0u32,
            sound_bank_list: 0u32,
            stream_instance: 0u32,
            sound_def_class: 0u32,
            sound_def_def_class: 0u32,
            sound_def_pool: 0u32,
            reverb_def: 0u32,
            event_reverb: 0u32,
            user_property: 0u32,
            event_instance: 0u32,
            event_instance_complex: 0u32,
            event_instance_simple: 0u32,
            event_instance_layer: 0u32,
            event_instance_sound: 0u32,
            event_envelope: 0u32,
            event_envelope_def: 0u32,
            event_parameter: 0u32,
            event_category: 0u32,
            event_envelope_point: 0u32,
            event_instance_pool: 0u32,
        }
    }
}

} // verus!
