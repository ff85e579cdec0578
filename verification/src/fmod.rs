//! Typed views of the engine's enumeration codes.
//!
//! Every call into the native engine reports a numeric status, and many
//! calls take or return further enumerated values (sound formats, speaker
//! layouts, output back ends, and so on).  The engine speaks in plain
//! integers; this module gives each enumeration a Rust type together with
//! a proved two-way translation between the type and the numeric code.

use vstd::prelude::*;

verus! {

/// Outcome of a call into the engine.
///
/// `Okay` reports success; every other variant is one of the engine's
/// error conditions.  The numeric codes are assigned consecutively from
/// zero in the order the variants are declared, matching the engine's own
/// enumeration of results.
#[derive(Clone, Copy, Debug, PartialEq, Eq, Structural)]
pub enum Status {
    Okay,
    ErrAlreadyLocked,
    ErrBadCommand,
    ErrCDDADrivers,
    ErrCDDAInit,
    ErrCDDAInvalidDevice,
    ErrCDDANoAudio,
    ErrCDDANoDevices,
    ErrCDDANoDisc,
    ErrCDDARead,
    ErrChannelAlloc,
    ErrChannelStolen,
    ErrCOM,
    ErrDMA,
    ErrDspConnection,
    ErrDspFormat,
    ErrDspNotFound,
    ErrDspRunning,
    ErrDspTooManyConnections,
    ErrFileBad,
    ErrFileCouldNotSeek,
    ErrFileDiskEjected,
    ErrFileEof,
    ErrFileNotFound,
    ErrFileUnwanted,
    ErrFormat,
    ErrHTTP,
    ErrHTTPAccess,
    ErrHTTPProxyAuth,
    ErrHTTPServerError,
    ErrHTTPTimeout,
    ErrInitialization,
    ErrInitialized,
    ErrInternal,
    ErrInvalidAddress,
    ErrInvalidFloat,
    ErrInvalidHandle,
    ErrInvalidParam,
    ErrInvalidPosition,
    ErrInvalidSpeaker,
    ErrInvalidSyncPoint,
    ErrInvalidVector,
    ErrMaxAudible,
    ErrMemory,
    ErrMemoryCantPoint,
    ErrMemorySRAM,
    ErrNeeds2D,
    ErrNeeds3D,
    ErrNeedsHardware,
    ErrNeedsSoftware,
    ErrNetConnect,
    ErrNetSocketError,
    ErrNetUrl,
    ErrNetWouldBlock,
    ErrNotReady,
    ErrOutputAllocated,
    ErrOutputCreateBuffer,
    ErrOutputDriverCall,
    ErrOutputEnumeration,
    ErrOutputFormat,
    ErrOutputInit,
    ErrOutputNoHardware,
    ErrOutputNoSoftware,
    ErrPan,
    ErrPlugin,
    ErrPluginInstances,
    ErrPluginMissing,
    ErrPluginResource,
    ErrPreloaded,
    ErrProgrammerSound,
    ErrRecord,
    ErrReverbInstance,
    ErrSubsoundAllocated,
    ErrSubsoundCantMove,
    ErrSubsoundMode,
    ErrSubsounds,
    ErrTagNotFound,
    ErrTooManyChannels,
    ErrUnimplemented,
    ErrUninitialized,
    ErrUnsupported,
    ErrUpdate,
    ErrVersion,
    ErrEventFailed,
    ErrEventInfoOnly,
    ErrEventInternal,
    ErrEventMaxStreams,
    ErrEventMismatch,
    ErrEventNameConflict,
    ErrEventNotFound,
    ErrEventNeedsSimple,
    ErrEventGuidConflict,
    ErrEventAlreadyLoaded,
    ErrMusicUninitialized,
    ErrMusicNotFound,
    ErrMusicNoCallback,
}

/// The numeric code the engine uses for a status.
pub open spec fn status_code(s: Status) -> u32 {
    match s {
        Status::Okay => 0,
        Status::ErrAlreadyLocked => 1,
        Status::ErrBadCommand => 2,
        Status::ErrCDDADrivers => 3,
        Status::ErrCDDAInit => 4,
        Status::ErrCDDAInvalidDevice => 5,
        Status::ErrCDDANoAudio => 6,
        Status::ErrCDDANoDevices => 7,
        Status::ErrCDDANoDisc => 8,
        Status::ErrCDDARead => 9,
        Status::ErrChannelAlloc => 10,
        Status::ErrChannelStolen => 11,
        Status::ErrCOM => 12,
        Status::ErrDMA => 13,
        Status::ErrDspConnection => 14,
        Status::ErrDspFormat => 15,
        Status::ErrDspNotFound => 16,
        Status::ErrDspRunning => 17,
        Status::ErrDspTooManyConnections => 18,
        Status::ErrFileBad => 19,
        Status::ErrFileCouldNotSeek => 20,
        Status::ErrFileDiskEjected => 21,
        Status::ErrFileEof => 22,
        Status::ErrFileNotFound => 23,
        Status::ErrFileUnwanted => 24,
        Status::ErrFormat => 25,
        Status::ErrHTTP => 26,
        Status::ErrHTTPAccess => 27,
        Status::ErrHTTPProxyAuth => 28,
        Status::ErrHTTPServerError => 29,
        Status::ErrHTTPTimeout => 30,
        Status::ErrInitialization => 31,
        Status::ErrInitialized => 32,
        Status::ErrInternal => 33,
        Status::ErrInvalidAddress => 34,
        Status::ErrInvalidFloat => 35,
        Status::ErrInvalidHandle => 36,
        Status::ErrInvalidParam => 37,
        Status::ErrInvalidPosition => 38,
        Status::ErrInvalidSpeaker => 39,
        Status::ErrInvalidSyncPoint => 40,
        Status::ErrInvalidVector => 41,
        Status::ErrMaxAudible => 42,
        Status::ErrMemory => 43,
        Status::ErrMemoryCantPoint => 44,
        Status::ErrMemorySRAM => 45,
        Status::ErrNeeds2D => 46,
        Status::ErrNeeds3D => 47,
        Status::ErrNeedsHardware => 48,
        Status::ErrNeedsSoftware => 49,
        Status::ErrNetConnect => 50,
        Status::ErrNetSocketError => 51,
        Status::ErrNetUrl => 52,
        Status::ErrNetWouldBlock => 53,
        Status::ErrNotReady => 54,
        Status::ErrOutputAllocated => 55,
        Status::ErrOutputCreateBuffer => 56,
        Status::ErrOutputDriverCall => 57,
        Status::ErrOutputEnumeration => 58,
        Status::ErrOutputFormat => 59,
        Status::ErrOutputInit => 60,
        Status::ErrOutputNoHardware => 61,
        Status::ErrOutputNoSoftware => 62,
        Status::ErrPan => 63,
        Status::ErrPlugin => 64,
        Status::ErrPluginInstances => 65,
        Status::ErrPluginMissing => 66,
        Status::ErrPluginResource => 67,
        Status::ErrPreloaded => 68,
        Status::ErrProgrammerSound => 69,
        Status::ErrRecord => 70,
        Status::ErrReverbInstance => 71,
        Status::ErrSubsoundAllocated => 72,
        Status::ErrSubsoundCantMove => 73,
        Status::ErrSubsoundMode => 74,
        Status::ErrSubsounds => 75,
        Status::ErrTagNotFound => 76,
        Status::ErrTooManyChannels => 77,
        Status::ErrUnimplemented => 78,
        Status::ErrUninitialized => 79,
        Status::ErrUnsupported => 80,
        Status::ErrUpdate => 81,
        Status::ErrVersion => 82,
        Status::ErrEventFailed => 83,
        Status::ErrEventInfoOnly => 84,
        Status::ErrEventInternal => 85,
        Status::ErrEventMaxStreams => 86,
        Status::ErrEventMismatch => 87,
        Status::ErrEventNameConflict => 88,
        Status::ErrEventNotFound => 89,
        Status::ErrEventNeedsSimple => 90,
        Status::ErrEventGuidConflict => 91,
        Status::ErrEventAlreadyLoaded => 92,
        Status::ErrMusicUninitialized => 93,
        Status::ErrMusicNotFound => 94,
        Status::ErrMusicNoCallback => 95,
    }
}

/// The status a numeric engine code denotes, if the code is known.
pub open spec fn status_from_code(c: u32) -> Option<Status> {
    match c {
        0u32 => Some(Status::Okay),
        1u32 => Some(Status::ErrAlreadyLocked),
        2u32 => Some(Status::ErrBadCommand),
        3u32 => Some(Status::ErrCDDADrivers),
        4u32 => Some(Status::ErrCDDAInit),
        5u32 => Some(Status::ErrCDDAInvalidDevice),
        6u32 => Some(Status::ErrCDDANoAudio),
        7u32 => Some(Status::ErrCDDANoDevices),
        8u32 => Some(Status::ErrCDDANoDisc),
        9u32 => Some(Status::ErrCDDARead),
        10u32 => Some(Status::ErrChannelAlloc),
        11u32 => Some(Status::ErrChannelStolen),
        12u32 => Some(Status::ErrCOM),
        13u32 => Some(Status::ErrDMA),
        14u32 => Some(Status::ErrDspConnection),
        15u32 => Some(Status::ErrDspFormat),
        16u32 => Some(Status::ErrDspNotFound),
        17u32 => Some(Status::ErrDspRunning),
        18u32 => Some(Status::ErrDspTooManyConnections),
        19u32 => Some(Status::ErrFileBad),
        20u32 => Some(Status::ErrFileCouldNotSeek),
        21u32 => Some(Status::ErrFileDiskEjected),
        22u32 => Some(Status::ErrFileEof),
        23u32 => Some(Status::ErrFileNotFound),
        24u32 => Some(Status::ErrFileUnwanted),
        25u32 => Some(Status::ErrFormat),
        26u32 => Some(Status::ErrHTTP),
        27u32 => Some(Status::ErrHTTPAccess),
        28u32 => Some(Status::ErrHTTPProxyAuth),
        29u32 => Some(Status::ErrHTTPServerError),
        30u32 => Some(Status::ErrHTTPTimeout),
        31u32 => Some(Status::ErrInitialization),
        32u32 => Some(Status::ErrInitialized),
        33u32 => Some(Status::ErrInternal),
        34u32 => Some(Status::ErrInvalidAddress),
        35u32 => Some(Status::ErrInvalidFloat),
        36u32 => Some(Status::ErrInvalidHandle),
        37u32 => Some(Status::ErrInvalidParam),
        38u32 => Some(Status::ErrInvalidPosition),
        39u32 => Some(Status::ErrInvalidSpeaker),
        40u32 => Some(Status::ErrInvalidSyncPoint),
        41u32 => Some(Status::ErrInvalidVector),
        42u32 => Some(Status::ErrMaxAudible),
        43u32 => Some(Status::ErrMemory),
        44u32 => Some(Status::ErrMemoryCantPoint),
        45u32 => Some(Status::ErrMemorySRAM),
        46u32 => Some(Status::ErrNeeds2D),
        47u32 => Some(Status::ErrNeeds3D),
        48u32 => Some(Status::ErrNeedsHardware),
        49u32 => Some(Status::ErrNeedsSoftware),
        50u32 => Some(Status::ErrNetConnect),
        51u32 => Some(Status::ErrNetSocketError),
        52u32 => Some(Status::ErrNetUrl),
        53u32 => Some(Status::ErrNetWouldBlock),
        54u32 => Some(Status::ErrNotReady),
        55u32 => Some(Status::ErrOutputAllocated),
        56u32 => Some(Status::ErrOutputCreateBuffer),
        57u32 => Some(Status::ErrOutputDriverCall),
        58u32 => Some(Status::ErrOutputEnumeration),
        59u32 => Some(Status::ErrOutputFormat),
        60u32 => Some(Status::ErrOutputInit),
        61u32 => Some(Status::ErrOutputNoHardware),
        62u32 => Some(Status::ErrOutputNoSoftware),
        63u32 => Some(Status::ErrPan),
        64u32 => Some(Status::ErrPlugin),
        65u32 => Some(Status::ErrPluginInstances),
        66u32 => Some(Status::ErrPluginMissing),
        67u32 => Some(Status::ErrPluginResource),
        68u32 => Some(Status::ErrPreloaded),
        69u32 => Some(Status::ErrProgrammerSound),
        70u32 => Some(Status::ErrRecord),
        71u32 => Some(Status::ErrReverbInstance),
        72u32 => Some(Status::ErrSubsoundAllocated),
        73u32 => Some(Status::ErrSubsoundCantMove),
        74u32 => Some(Status::ErrSubsoundMode),
        75u32 => Some(Status::ErrSubsounds),
        76u32 => Some(Status::ErrTagNotFound),
        77u32 => Some(Status::ErrTooManyChannels),
        78u32 => Some(Status::ErrUnimplemented),
        79u32 => Some(Status::ErrUninitialized),
        80u32 => Some(Status::ErrUnsupported),
        81u32 => Some(Status::ErrUpdate),
        82u32 => Some(Status::ErrVersion),
        83u32 => Some(Status::ErrEventFailed),
        84u32 => Some(Status::ErrEventInfoOnly),
        85u32 => Some(Status::ErrEventInternal),
        86u32 => Some(Status::ErrEventMaxStreams),
        87u32 => Some(Status::ErrEventMismatch),
        88u32 => Some(Status::ErrEventNameConflict),
        89u32 => Some(Status::ErrEventNotFound),
        90u32 => Some(Status::ErrEventNeedsSimple),
        91u32 => Some(Status::ErrEventGuidConflict),
        92u32 => Some(Status::ErrEventAlreadyLoaded),
        93u32 => Some(Status::ErrMusicUninitialized),
        94u32 => Some(Status::ErrMusicNotFound),
        95u32 => Some(Status::ErrMusicNoCallback),
        _ => None,
    }
}

impl Status {
    /// The numeric code the engine uses for this status.
    pub fn to_code(self) -> (c: u32)
        ensures
            c == status_code(self),
    {
        match self {
            Status::Okay => 0,
            Status::ErrAlreadyLocked => 1,
            Status::ErrBadCommand => 2,
            Status::ErrCDDADrivers => 3,
            Status::ErrCDDAInit => 4,
            Status::ErrCDDAInvalidDevice => 5,
            Status::ErrCDDANoAudio => 6,
            Status::ErrCDDANoDevices => 7,
            Status::ErrCDDANoDisc => 8,
            Status::ErrCDDARead => 9,
            Status::ErrChannelAlloc => 10,
            Status::ErrChannelStolen => 11,
            Status::ErrCOM => 12,
            Status::ErrDMA => 13,
            Status::ErrDspConnection => 14,
            Status::ErrDspFormat => 15,
            Status::ErrDspNotFound => 16,
            Status::ErrDspRunning => 17,
            Status::ErrDspTooManyConnections => 18,
            Status::ErrFileBad => 19,
            Status::ErrFileCouldNotSeek => 20,
            Status::ErrFileDiskEjected => 21,
            Status::ErrFileEof => 22,
            Status::ErrFileNotFound => 23,
            Status::ErrFileUnwanted => 24,
            Status::ErrFormat => 25,
            Status::ErrHTTP => 26,
            Status::ErrHTTPAccess => 27,
            Status::ErrHTTPProxyAuth => 28,
            Status::ErrHTTPServerError => 29,
            Status::ErrHTTPTimeout => 30,
            Status::ErrInitialization => 31,
            Status::ErrInitialized => 32,
            Status::ErrInternal => 33,
            Status::ErrInvalidAddress => 34,
            Status::ErrInvalidFloat => 35,
            Status::ErrInvalidHandle => 36,
            Status::ErrInvalidParam => 37,
            Status::ErrInvalidPosition => 38,
            Status::ErrInvalidSpeaker => 39,
            Status::ErrInvalidSyncPoint => 40,
            Status::ErrInvalidVector => 41,
            Status::ErrMaxAudible => 42,
            Status::ErrMemory => 43,
            Status::ErrMemoryCantPoint => 44,
            Status::ErrMemorySRAM => 45,
            Status::ErrNeeds2D => 46,
            Status::ErrNeeds3D => 47,
            Status::ErrNeedsHardware => 48,
            Status::ErrNeedsSoftware => 49,
            Status::ErrNetConnect => 50,
            Status::ErrNetSocketError => 51,
            Status::ErrNetUrl => 52,
            Status::ErrNetWouldBlock => 53,
            Status::ErrNotReady => 54,
            Status::ErrOutputAllocated => 55,
            Status::ErrOutputCreateBuffer => 56,
            Status::ErrOutputDriverCall => 57,
            Status::ErrOutputEnumeration => 58,
            Status::ErrOutputFormat => 59,
            Status::ErrOutputInit => 60,
            Status::ErrOutputNoHardware => 61,
            Status::ErrOutputNoSoftware => 62,
            Status::ErrPan => 63,
            Status::ErrPlugin => 64,
            Status::ErrPluginInstances => 65,
            Status::ErrPluginMissing => 66,
            Status::ErrPluginResource => 67,
            Status::ErrPreloaded => 68,
            Status::ErrProgrammerSound => 69,
            Status::ErrRecord => 70,
            Status::ErrReverbInstance => 71,
            Status::ErrSubsoundAllocated => 72,
            Status::ErrSubsoundCantMove => 73,
            Status::ErrSubsoundMode => 74,
            Status::ErrSubsounds => 75,
            Status::ErrTagNotFound => 76,
            Status::ErrTooManyChannels => 77,
            Status::ErrUnimplemented => 78,
            Status::ErrUninitialized => 79,
            Status::ErrUnsupported => 80,
            Status::ErrUpdate => 81,
            Status::ErrVersion => 82,
            Status::ErrEventFailed => 83,
            Status::ErrEventInfoOnly => 84,
            Status::ErrEventInternal => 85,
            Status::ErrEventMaxStreams => 86,
            Status::ErrEventMismatch => 87,
            Status::ErrEventNameConflict => 88,
            Status::ErrEventNotFound => 89,
            Status::ErrEventNeedsSimple => 90,
            Status::ErrEventGuidConflict => 91,
            Status::ErrEventAlreadyLoaded => 92,
            Status::ErrMusicUninitialized => 93,
            Status::ErrMusicNotFound => 94,
            Status::ErrMusicNoCallback => 95,
        }
    }

    /// The status a numeric engine code denotes; `None` for a code the
    /// engine does not define.
    pub fn from_code(c: u32) -> (s: Option<Status>)
        ensures
            s == status_from_code(c),
    {
        match c {
            0u32 => Some(Status::Okay),
            1u32 => Some(Status::ErrAlreadyLocked),
            2u32 => Some(Status::ErrBadCommand),
            3u32 => Some(Status::ErrCDDADrivers),
            4u32 => Some(Status::ErrCDDAInit),
            5u32 => Some(Status::ErrCDDAInvalidDevice),
            6u32 => Some(Status::ErrCDDANoAudio),
            7u32 => Some(Status::ErrCDDANoDevices),
            8u32 => Some(Status::ErrCDDANoDisc),
            9u32 => Some(Status::ErrCDDARead),
            10u32 => Some(Status::ErrChannelAlloc),
            11u32 => Some(Status::ErrChannelStolen),
            12u32 => Some(Status::ErrCOM),
            13u32 => Some(Status::ErrDMA),
            14u32 => Some(Status::ErrDspConnection),
            15u32 => Some(Status::ErrDspFormat),
            16u32 => Some(Status::ErrDspNotFound),
            17u32 => Some(Status::ErrDspRunning),
            18u32 => Some(Status::ErrDspTooManyConnections),
            19u32 => Some(Status::ErrFileBad),
            20u32 => Some(Status::ErrFileCouldNotSeek),
            21u32 => Some(Status::ErrFileDiskEjected),
            22u32 => Some(Status::ErrFileEof),
            23u32 => Some(Status::ErrFileNotFound),
            24u32 => Some(Status::ErrFileUnwanted),
            25u32 => Some(Status::ErrFormat),
            26u32 => Some(Status::ErrHTTP),
            27u32 => Some(Status::ErrHTTPAccess),
            28u32 => Some(Status::ErrHTTPProxyAuth),
            29u32 => Some(Status::ErrHTTPServerError),
            30u32 => Some(Status::ErrHTTPTimeout),
            31u32 => Some(Status::ErrInitialization),
            32u32 => Some(Status::ErrInitialized),
            33u32 => Some(Status::ErrInternal),
            34u32 => Some(Status::ErrInvalidAddress),
            35u32 => Some(Status::ErrInvalidFloat),
            36u32 => Some(Status::ErrInvalidHandle),
            37u32 => Some(Status::ErrInvalidParam),
            38u32 => Some(Status::ErrInvalidPosition),
            39u32 => Some(Status::ErrInvalidSpeaker),
            40u32 => Some(Status::ErrInvalidSyncPoint),
            41u32 => Some(Status::ErrInvalidVector),
            42u32 => Some(Status::ErrMaxAudible),
            43u32 => Some(Status::ErrMemory),
            44u32 => Some(Status::ErrMemoryCantPoint),
            45u32 => Some(Status::ErrMemorySRAM),
            46u32 => Some(Status::ErrNeeds2D),
            47u32 => Some(Status::ErrNeeds3D),
            48u32 => Some(Status::ErrNeedsHardware),
            49u32 => Some(Status::ErrNeedsSoftware),
            50u32 => Some(Status::ErrNetConnect),
            51u32 => Some(Status::ErrNetSocketError),
            52u32 => Some(Status::ErrNetUrl),
            53u32 => Some(Status::ErrNetWouldBlock),
            54u32 => Some(Status::ErrNotReady),
            55u32 => Some(Status::ErrOutputAllocated),
            56u32 => Some(Status::ErrOutputCreateBuffer),
            57u32 => Some(Status::ErrOutputDriverCall),
            58u32 => Some(Status::ErrOutputEnumeration),
            59u32 => Some(Status::ErrOutputFormat),
            60u32 => Some(Status::ErrOutputInit),
            61u32 => Some(Status::ErrOutputNoHardware),
            62u32 => Some(Status::ErrOutputNoSoftware),
            63u32 => Some(Status::ErrPan),
            64u32 => Some(Status::ErrPlugin),
            65u32 => Some(Status::ErrPluginInstances),
            66u32 => Some(Status::ErrPluginMissing),
            67u32 => Some(Status::ErrPluginResource),
            68u32 => Some(Status::ErrPreloaded),
            69u32 => Some(Status::ErrProgrammerSound),
            70u32 => Some(Status::ErrRecord),
            71u32 => Some(Status::ErrReverbInstance),
            72u32 => Some(Status::ErrSubsoundAllocated),
            73u32 => Some(Status::ErrSubsoundCantMove),
            74u32 => Some(Status::ErrSubsoundMode),
            75u32 => Some(Status::ErrSubsounds),
            76u32 => Some(Status::ErrTagNotFound),
            77u32 => Some(Status::ErrTooManyChannels),
            78u32 => Some(Status::ErrUnimplemented),
            79u32 => Some(Status::ErrUninitialized),
            80u32 => Some(Status::ErrUnsupported),
            81u32 => Some(Status::ErrUpdate),
            82u32 => Some(Status::ErrVersion),
            83u32 => Some(Status::ErrEventFailed),
            84u32 => Some(Status::ErrEventInfoOnly),
            85u32 => Some(Status::ErrEventInternal),
            86u32 => Some(Status::ErrEventMaxStreams),
            87u32 => Some(Status::ErrEventMismatch),
            88u32 => Some(Status::ErrEventNameConflict),
            89u32 => Some(Status::ErrEventNotFound),
            90u32 => Some(Status::ErrEventNeedsSimple),
            91u32 => Some(Status::ErrEventGuidConflict),
            92u32 => Some(Status::ErrEventAlreadyLoaded),
            93u32 => Some(Status::ErrMusicUninitialized),
            94u32 => Some(Status::ErrMusicNotFound),
            95u32 => Some(Status::ErrMusicNoCallback),
            _ => None,
        }
    }

    /// Whether this status reports success.
    pub fn is_okay(self) -> (r: bool)
        ensures
            r == (self is Okay),
    {
        matches!(self, Status::Okay)
    }
}

/// A status turned to its code and back is the same status: distinct
/// statuses never share a code.
pub proof fn lemma_status_code_round_trip(s: Status)
    ensures
        status_from_code(status_code(s)) == Some(s),
{
}

/// A known code turned to its status and back is the same code: no status
/// answers to two codes.
pub proof fn lemma_status_from_code_round_trip(c: u32)
    ensures
        status_from_code(c) matches Some(s) ==> status_code(s) == c,
{
}

/// Two statuses that share a code are the same status.
pub proof fn lemma_status_code_injective(a: Status, b: Status)
    requires
        status_code(a) == status_code(b),
    ensures
        a == b,
{
    lemma_status_code_round_trip(a);
    lemma_status_code_round_trip(b);
}

/// Sample data layout of a sound, as the engine enumerates layouts.
#[derive(Clone, Copy, Debug, PartialEq, Eq, Structural)]
pub enum SoundFormat {
    SoundFormatNone,
    SoundFormatPCM8,
    SoundFormatPCM16,
    SoundFormatPCM24,
    SoundFormatPCM32,
    SoundFormatPCMFloat,
    SoundFormatGCADPCM,
    SoundFormatIMAADPCM,
    SoundFormatVAG,
    SoundFormatXMA,
    SoundFormatMPEG,
    SoundFormatCELT,
    SoundFormatAT9,
    SoundFormatXWMA,
    SoundFormatVORBIS,
}

/// The numeric code the engine uses for a sample format.
pub open spec fn sound_format_code(f: SoundFormat) -> u32 {
    match f {
        SoundFormat::SoundFormatNone => 0,
        SoundFormat::SoundFormatPCM8 => 1,
        SoundFormat::SoundFormatPCM16 => 2,
        SoundFormat::SoundFormatPCM24 => 3,
        SoundFormat::SoundFormatPCM32 => 4,
        SoundFormat::SoundFormatPCMFloat => 5,
        SoundFormat::SoundFormatGCADPCM => 6,
        SoundFormat::SoundFormatIMAADPCM => 7,
        SoundFormat::SoundFormatVAG => 8,
        SoundFormat::SoundFormatXMA => 9,
        SoundFormat::SoundFormatMPEG => 10,
        SoundFormat::SoundFormatCELT => 11,
        SoundFormat::SoundFormatAT9 => 12,
        SoundFormat::SoundFormatXWMA => 13,
        SoundFormat::SoundFormatVORBIS => 14,
    }
}

/// The sample format a numeric engine code denotes, if the code is known.
pub open spec fn sound_format_from_code(c: u32) -> Option<SoundFormat> {
    match c {
        0u32 => Some(SoundFormat::SoundFormatNone),
        1u32 => Some(SoundFormat::SoundFormatPCM8),
        2u32 => Some(SoundFormat::SoundFormatPCM16),
        3u32 => Some(SoundFormat::SoundFormatPCM24),
        4u32 => Some(SoundFormat::SoundFormatPCM32),
        5u32 => Some(SoundFormat::SoundFormatPCMFloat),
        6u32 => Some(SoundFormat::SoundFormatGCADPCM),
        7u32 => Some(SoundFormat::SoundFormatIMAADPCM),
        8u32 => Some(SoundFormat::SoundFormatVAG),
        9u32 => Some(SoundFormat::SoundFormatXMA),
        10u32 => Some(SoundFormat::SoundFormatMPEG),
        11u32 => Some(SoundFormat::SoundFormatCELT),
        12u32 => Some(SoundFormat::SoundFormatAT9),
        13u32 => Some(SoundFormat::SoundFormatXWMA),
        14u32 => Some(SoundFormat::SoundFormatVORBIS),
        _ => None,
    }
}

impl SoundFormat {
    /// The numeric code the engine uses for this sample format.
    pub fn to_code(self) -> (c: u32)
        ensures
            c == sound_format_code(self),
    {
        match self {
            SoundFormat::SoundFormatNone => 0,
            SoundFormat::SoundFormatPCM8 => 1,
            SoundFormat::SoundFormatPCM16 => 2,
            SoundFormat::SoundFormatPCM24 => 3,
            SoundFormat::SoundFormatPCM32 => 4,
            SoundFormat::SoundFormatPCMFloat => 5,
            SoundFormat::SoundFormatGCADPCM => 6,
            SoundFormat::SoundFormatIMAADPCM => 7,
            SoundFormat::SoundFormatVAG => 8,
            SoundFormat::SoundFormatXMA => 9,
            SoundFormat::SoundFormatMPEG => 10,
            SoundFormat::SoundFormatCELT => 11,
            SoundFormat::SoundFormatAT9 => 12,
            SoundFormat::SoundFormatXWMA => 13,
            SoundFormat::SoundFormatVORBIS => 14,
        }
    }

    /// The sample format a numeric engine code denotes, if any.
    pub fn from_code(c: u32) -> (f: Option<SoundFormat>)
        ensures
            f == sound_format_from_code(c),
    {
        match c {
            0u32 => Some(SoundFormat::SoundFormatNone),
            1u32 => Some(SoundFormat::SoundFormatPCM8),
            2u32 => Some(SoundFormat::SoundFormatPCM16),
            3u32 => Some(SoundFormat::SoundFormatPCM24),
            4u32 => Some(SoundFormat::SoundFormatPCM32),
            5u32 => Some(SoundFormat::SoundFormatPCMFloat),
            6u32 => Some(SoundFormat::SoundFormatGCADPCM),
            7u32 => Some(SoundFormat::SoundFormatIMAADPCM),
            8u32 => Some(SoundFormat::SoundFormatVAG),
            9u32 => Some(SoundFormat::SoundFormatXMA),
            10u32 => Some(SoundFormat::SoundFormatMPEG),
            11u32 => Some(SoundFormat::SoundFormatCELT),
            12u32 => Some(SoundFormat::SoundFormatAT9),
            13u32 => Some(SoundFormat::SoundFormatXWMA),
            14u32 => Some(SoundFormat::SoundFormatVORBIS),
            _ => None,
        }
    }
}

/// A sample format turned to its code and back is the same format.
pub proof fn lemma_sound_format_code_round_trip(f: SoundFormat)
    ensures
        sound_format_from_code(sound_format_code(f)) == Some(f),
{
}

/// A known sample-format code turned to its format and back is the same code.
pub proof fn lemma_sound_format_from_code_round_trip(c: u32)
    ensures
        sound_format_from_code(c) matches Some(f) ==> sound_format_code(f) == c,
{
}

/// Interpolation method of the software mixer's resampler.
#[derive(Clone, Copy, Debug, PartialEq, Eq, Structural)]
pub enum DSPResampler {
    DSPResamplerNoInterp,
    DSPResamplerLinear,
    DSPResamplerCubic,
    DSPResamplerSpline,
}

/// The numeric code the engine uses for a resampler method.
pub open spec fn dsp_resampler_code(r: DSPResampler) -> u32 {
    match r {
        DSPResampler::DSPResamplerNoInterp => 0,
        DSPResampler::DSPResamplerLinear => 1,
        DSPResampler::DSPResamplerCubic => 2,
        DSPResampler::DSPResamplerSpline => 3,
    }
}

/// The resampler method a numeric engine code denotes, if the code is known.
pub open spec fn dsp_resampler_from_code(c: u32) -> Option<DSPResampler> {
    match c {
        0u32 => Some(DSPResampler::DSPResamplerNoInterp),
        1u32 => Some(DSPResampler::DSPResamplerLinear),
        2u32 => Some(DSPResampler::DSPResamplerCubic),
        3u32 => Some(DSPResampler::DSPResamplerSpline),
        _ => None,
    }
}

impl DSPResampler {
    /// The numeric code the engine uses for this resampler method.
    pub fn to_code(self) -> (c: u32)
        ensures
            c == dsp_resampler_code(self),
    {
        match self {
            DSPResampler::DSPResamplerNoInterp => 0,
            DSPResampler::DSPResamplerLinear => 1,
            DSPResampler::DSPResamplerCubic => 2,
            DSPResampler::DSPResamplerSpline => 3,
        }
    }

    /// The resampler method a numeric engine code denotes, if any.
    pub fn from_code(c: u32) -> (r: Option<DSPResampler>)
        ensures
            r == dsp_resampler_from_code(c),
    {
        match c {
            0u32 => Some(DSPResampler::DSPResamplerNoInterp),
            1u32 => Some(DSPResampler::DSPResamplerLinear),
            2u32 => Some(DSPResampler::DSPResamplerCubic),
            3u32 => Some(DSPResampler::DSPResamplerSpline),
            _ => None,
        }
    }
}

/// A resampler method turned to its code and back is the same method.
pub proof fn lemma_dsp_resampler_code_round_trip(r: DSPResampler)
    ensures
        dsp_resampler_from_code(dsp_resampler_code(r)) == Some(r),
{
}

/// A known resampler code turned to its method and back is the same code.
pub proof fn lemma_dsp_resampler_from_code_round_trip(c: u32)
    ensures
        dsp_resampler_from_code(c) matches Some(r) ==> dsp_resampler_code(r) == c,
{
}

/// File or stream format a sound was decoded from.
#[derive(Clone, Copy, Debug, PartialEq, Eq, Structural)]
pub enum SoundType {
    SoundTypeUnknown,
    SoundTypeAIFF,
    SoundTypeASF,
    SoundTypeAT3,
    SoundTypeCDDA,
    SoundTypeDLS,
    SoundTypeFLAC,
    SoundTypeFSB,
    SoundTypeGCADPCM,
    SoundTypeIT,
    SoundTypeMIDI,
    SoundTypeMOD,
    SoundTypeMPEG,
    SoundTypeOGGVORBIS,
    SoundTypePlaylist,
    SoundTypeRaw,
    SoundTypeS3M,
    SoundTypeSF2,
    SoundTypeUser,
    SoundTypeWAV,
    SoundTypeXM,
    SoundTypeXMA,
    SoundTypeVAG,
    SoundTypeAudioQueue,
    SoundTypeXWMA,
    SoundTypeCELT,
}

/// The numeric code the engine uses for a sound type.
pub open spec fn sound_type_code(t: SoundType) -> u32 {
    match t {
        SoundType::SoundTypeUnknown => 0,
        SoundType::SoundTypeAIFF => 1,
        SoundType::SoundTypeASF => 2,
        SoundType::SoundTypeAT3 => 3,
        SoundType::SoundTypeCDDA => 4,
        SoundType::SoundTypeDLS => 5,
        SoundType::SoundTypeFLAC => 6,
        SoundType::SoundTypeFSB => 7,
        SoundType::SoundTypeGCADPCM => 8,
        SoundType::SoundTypeIT => 9,
        SoundType::SoundTypeMIDI => 10,
        SoundType::SoundTypeMOD => 11,
        SoundType::SoundTypeMPEG => 12,
        SoundType::SoundTypeOGGVORBIS => 13,
        SoundType::SoundTypePlaylist => 14,
        SoundType::SoundTypeRaw => 15,
        SoundType::SoundTypeS3M => 16,
        SoundType::SoundTypeSF2 => 17,
        SoundType::SoundTypeUser => 18,
        SoundType::SoundTypeWAV => 19,
        SoundType::SoundTypeXM => 20,
        SoundType::SoundTypeXMA => 21,
        SoundType::SoundTypeVAG => 22,
        SoundType::SoundTypeAudioQueue => 23,
        SoundType::SoundTypeXWMA => 24,
        SoundType::SoundTypeCELT => 25,
    }
}

/// The sound type a numeric engine code denotes, if the code is known.
pub open spec fn sound_type_from_code(c: u32) -> Option<SoundType> {
    match c {
        0u32 => Some(SoundType::SoundTypeUnknown),
        1u32 => Some(SoundType::SoundTypeAIFF),
        2u32 => Some(SoundType::SoundTypeASF),
        3u32 => Some(SoundType::SoundTypeAT3),
        4u32 => Some(SoundType::SoundTypeCDDA),
        5u32 => Some(SoundType::SoundTypeDLS),
        6u32 => Some(SoundType::SoundTypeFLAC),
        7u32 => Some(SoundType::SoundTypeFSB),
        8u32 => Some(SoundType::SoundTypeGCADPCM),
        9u32 => Some(SoundType::SoundTypeIT),
        10u32 => Some(SoundType::SoundTypeMIDI),
        11u32 => Some(SoundType::SoundTypeMOD),
        12u32 => Some(SoundType::SoundTypeMPEG),
        13u32 => Some(SoundType::SoundTypeOGGVORBIS),
        14u32 => Some(SoundType::SoundTypePlaylist),
        15u32 => Some(SoundType::SoundTypeRaw),
        16u32 => Some(SoundType::SoundTypeS3M),
        17u32 => Some(SoundType::SoundTypeSF2),
        18u32 => Some(SoundType::SoundTypeUser),
        19u32 => Some(SoundType::SoundTypeWAV),
        20u32 => Some(SoundType::SoundTypeXM),
        21u32 => Some(SoundType::SoundTypeXMA),
        22u32 => Some(SoundType::SoundTypeVAG),
        23u32 => Some(SoundType::SoundTypeAudioQueue),
        24u32 => Some(SoundType::SoundTypeXWMA),
        25u32 => Some(SoundType::SoundTypeCELT),
        _ => None,
    }
}

impl SoundType {
    /// The numeric code the engine uses for this sound type.
    pub fn to_code(self) -> (c: u32)
        ensures
            c == sound_type_code(self),
    {
        match self {
            SoundType::SoundTypeUnknown => 0,
            SoundType::SoundTypeAIFF => 1,
            SoundType::SoundTypeASF => 2,
            SoundType::SoundTypeAT3 => 3,
            SoundType::SoundTypeCDDA => 4,
            SoundType::SoundTypeDLS => 5,
            SoundType::SoundTypeFLAC => 6,
            SoundType::SoundTypeFSB => 7,
            SoundType::SoundTypeGCADPCM => 8,
            SoundType::SoundTypeIT => 9,
            SoundType::SoundTypeMIDI => 10,
            SoundType::SoundTypeMOD => 11,
            SoundType::SoundTypeMPEG => 12,
            SoundType::SoundTypeOGGVORBIS => 13,
            SoundType::SoundTypePlaylist => 14,
            SoundType::SoundTypeRaw => 15,
            SoundType::SoundTypeS3M => 16,
            SoundType::SoundTypeSF2 => 17,
            SoundType::SoundTypeUser => 18,
            SoundType::SoundTypeWAV => 19,
            SoundType::SoundTypeXM => 20,
            SoundType::SoundTypeXMA => 21,
            SoundType::SoundTypeVAG => 22,
            SoundType::SoundTypeAudioQueue => 23,
            SoundType::SoundTypeXWMA => 24,
            SoundType::SoundTypeCELT => 25,
        }
    }

    /// The sound type a numeric engine code denotes, if any.
    pub fn from_code(c: u32) -> (t: Option<SoundType>)
        ensures
            t == sound_type_from_code(c),
    {
        match c {
            0u32 => Some(SoundType::SoundTypeUnknown),
            1u32 => Some(SoundType::SoundTypeAIFF),
            2u32 => Some(SoundType::SoundTypeASF),
            3u32 => Some(SoundType::SoundTypeAT3),
            4u32 => Some(SoundType::SoundTypeCDDA),
            5u32 => Some(SoundType::SoundTypeDLS),
            6u32 => Some(SoundType::SoundTypeFLAC),
            7u32 => Some(SoundType::SoundTypeFSB),
            8u32 => Some(SoundType::SoundTypeGCADPCM),
            9u32 => Some(SoundType::SoundTypeIT),
            10u32 => Some(SoundType::SoundTypeMIDI),
            11u32 => Some(SoundType::SoundTypeMOD),
            12u32 => Some(SoundType::SoundTypeMPEG),
            13u32 => Some(SoundType::SoundTypeOGGVORBIS),
            14u32 => Some(SoundType::SoundTypePlaylist),
            15u32 => Some(SoundType::SoundTypeRaw),
            16u32 => Some(SoundType::SoundTypeS3M),
            17u32 => Some(SoundType::SoundTypeSF2),
            18u32 => Some(SoundType::SoundTypeUser),
            19u32 => Some(SoundType::SoundTypeWAV),
            20u32 => Some(SoundType::SoundTypeXM),
            21u32 => Some(SoundType::SoundTypeXMA),
            22u32 => Some(SoundType::SoundTypeVAG),
            23u32 => Some(SoundType::SoundTypeAudioQueue),
            24u32 => Some(SoundType::SoundTypeXWMA),
            25u32 => Some(SoundType::SoundTypeCELT),
            _ => None,
        }
    }
}

/// A sound type turned to its code and back is the same type.
pub proof fn lemma_sound_type_code_round_trip(t: SoundType)
    ensures
        sound_type_from_code(sound_type_code(t)) == Some(t),
{
}

/// A known sound-type code turned to its type and back is the same code.
pub proof fn lemma_sound_type_from_code_round_trip(c: u32)
    ensures
        sound_type_from_code(c) matches Some(t) ==> sound_type_code(t) == c,
{
}

/// Output back end the engine mixes into.
#[derive(Clone, Copy, Debug, PartialEq, Eq, Structural)]
pub enum OutputType {
    OutputTypeAutoDetect,
    OutputTypeUnknown,
    OutputTypeNoSound,
    OutputTypeWavWriter,
    OutputTypeNoSoundNRT,
    OutputTypeWavWriterNRT,
    OutputTypeDSound,
    OutputTypeWinMM,
    OutputTypeWASAPI,
    OutputTypeASIO,
    OutputTypeOSS,
    OutputTypeALSA,
    OutputTypeESD,
    OutputTypePulseAudio,
    OutputTypeCoreAudio,
    OutputTypeXbox360,
    OutputTypePSP,
    OutputTypePS3,
    OutputTypeNGP,
    OutputTypeWii,
    OutputTypeNintendo3DS,
    OutputTypeAudioTrack,
}

/// The numeric code the engine uses for an output back end.
pub open spec fn output_type_code(o: OutputType) -> u32 {
    match o {
        OutputType::OutputTypeAutoDetect => 0,
        OutputType::OutputTypeUnknown => 1,
        OutputType::OutputTypeNoSound => 2,
        OutputType::OutputTypeWavWriter => 3,
        OutputType::OutputTypeNoSoundNRT => 4,
        OutputType::OutputTypeWavWriterNRT => 5,
        OutputType::OutputTypeDSound => 6,
        OutputType::OutputTypeWinMM => 7,
        OutputType::OutputTypeWASAPI => 8,
        OutputType::OutputTypeASIO => 9,
        OutputType::OutputTypeOSS => 10,
        OutputType::OutputTypeALSA => 11,
        OutputType::OutputTypeESD => 12,
        OutputType::OutputTypePulseAudio => 13,
        OutputType::OutputTypeCoreAudio => 14,
        OutputType::OutputTypeXbox360 => 15,
        OutputType::OutputTypePSP => 16,
        OutputType::OutputTypePS3 => 17,
        OutputType::OutputTypeNGP => 18,
        OutputType::OutputTypeWii => 19,
        OutputType::OutputTypeNintendo3DS => 20,
        OutputType::OutputTypeAudioTrack => 21,
    }
}

/// The output back end a numeric engine code denotes, if the code is known.
pub open spec fn output_type_from_code(c: u32) -> Option<OutputType> {
    match c {
        0u32 => Some(OutputType::OutputTypeAutoDetect),
        1u32 => Some(OutputType::OutputTypeUnknown),
        2u32 => Some(OutputType::OutputTypeNoSound),
        3u32 => Some(OutputType::OutputTypeWavWriter),
        4u32 => Some(OutputType::OutputTypeNoSoundNRT),
        5u32 => Some(OutputType::OutputTypeWavWriterNRT),
        6u32 => Some(OutputType::OutputTypeDSound),
        7u32 => Some(OutputType::OutputTypeWinMM),
        8u32 => Some(OutputType::OutputTypeWASAPI),
        9u32 => Some(OutputType::OutputTypeASIO),
        10u32 => Some(OutputType::OutputTypeOSS),
        11u32 => Some(OutputType::OutputTypeALSA),
        12u32 => Some(OutputType::OutputTypeESD),
        13u32 => Some(OutputType::OutputTypePulseAudio),
        14u32 => Some(OutputType::OutputTypeCoreAudio),
        15u32 => Some(OutputType::OutputTypeXbox360),
        16u32 => Some(OutputType::OutputTypePSP),
        17u32 => Some(OutputType::OutputTypePS3),
        18u32 => Some(OutputType::OutputTypeNGP),
        19u32 => Some(OutputType::OutputTypeWii),
        20u32 => Some(OutputType::OutputTypeNintendo3DS),
        21u32 => Some(OutputType::OutputTypeAudioTrack),
        _ => None,
    }
}

impl OutputType {
    /// The numeric code the engine uses for this output back end.
    pub fn to_code(self) -> (c: u32)
        ensures
            c == output_type_code(self),
    {
        match self {
            OutputType::OutputTypeAutoDetect => 0,
            OutputType::OutputTypeUnknown => 1,
            OutputType::OutputTypeNoSound => 2,
            OutputType::OutputTypeWavWriter => 3,
            OutputType::OutputTypeNoSoundNRT => 4,
            OutputType::OutputTypeWavWriterNRT => 5,
            OutputType::OutputTypeDSound => 6,
            OutputType::OutputTypeWinMM => 7,
            OutputType::OutputTypeWASAPI => 8,
            OutputType::OutputTypeASIO => 9,
            OutputType::OutputTypeOSS => 10,
            OutputType::OutputTypeALSA => 11,
            OutputType::OutputTypeESD => 12,
            OutputType::OutputTypePulseAudio => 13,
            OutputType::OutputTypeCoreAudio => 14,
            OutputType::OutputTypeXbox360 => 15,
            OutputType::OutputTypePSP => 16,
            OutputType::OutputTypePS3 => 17,
            OutputType::OutputTypeNGP => 18,
            OutputType::OutputTypeWii => 19,
            OutputType::OutputTypeNintendo3DS => 20,
            OutputType::OutputTypeAudioTrack => 21,
        }
    }

    /// The output back end a numeric engine code denotes, if any.
    pub fn from_code(c: u32) -> (o: Option<OutputType>)
        ensures
            o == output_type_from_code(c),
    {
        match c {
            0u32 => Some(OutputType::OutputTypeAutoDetect),
            1u32 => Some(OutputType::OutputTypeUnknown),
            2u32 => Some(OutputType::OutputTypeNoSound),
            3u32 => Some(OutputType::OutputTypeWavWriter),
            4u32 => Some(OutputType::OutputTypeNoSoundNRT),
            5u32 => Some(OutputType::OutputTypeWavWriterNRT),
            6u32 => Some(OutputType::OutputTypeDSound),
            7u32 => Some(OutputType::OutputTypeWinMM),
            8u32 => Some(OutputType::OutputTypeWASAPI),
            9u32 => Some(OutputType::OutputTypeASIO),
            10u32 => Some(OutputType::OutputTypeOSS),
            11u32 => Some(OutputType::OutputTypeALSA),
            12u32 => Some(OutputType::OutputTypeESD),
            13u32 => Some(OutputType::OutputTypePulseAudio),
            14u32 => Some(OutputType::OutputTypeCoreAudio),
            15u32 => Some(OutputType::OutputTypeXbox360),
            16u32 => Some(OutputType::OutputTypePSP),
            17u32 => Some(OutputType::OutputTypePS3),
            18u32 => Some(OutputType::OutputTypeNGP),
            19u32 => Some(OutputType::OutputTypeWii),
            20u32 => Some(OutputType::OutputTypeNintendo3DS),
            21u32 => Some(OutputType::OutputTypeAudioTrack),
            _ => None,
        }
    }
}

/// An output back end turned to its code and back is the same back end.
pub proof fn lemma_output_type_code_round_trip(o: OutputType)
    ensures
        output_type_from_code(output_type_code(o)) == Some(o),
{
}

/// A known output-type code turned to its back end and back is the same code.
pub proof fn lemma_output_type_from_code_round_trip(c: u32)
    ensures
        output_type_from_code(c) matches Some(o) ==> output_type_code(o) == c,
{
}

/// Speaker layout the mixer produces.
#[derive(Clone, Copy, Debug, PartialEq, Eq, Structural)]
pub enum SpeakerMode {
    SpeakerModeRaw,
    SpeakerModeMono,
    SpeakerModeStereo,
    SpeakerModeQuad,
    SpeakerModeSurround,
    SpeakerMode5Point1,
    SpeakerMode7Point1,
    SpeakerModeSRS5Point1Matrix,
    SpeakerModeDolby5Point1Matrix,
    SpeakerModeMyEars,
}

/// The numeric code the engine uses for a speaker layout.
pub open spec fn speaker_mode_code(m: SpeakerMode) -> u32 {
    match m {
        SpeakerMode::SpeakerModeRaw => 0,
        SpeakerMode::SpeakerModeMono => 1,
        SpeakerMode::SpeakerModeStereo => 2,
        SpeakerMode::SpeakerModeQuad => 3,
        SpeakerMode::SpeakerModeSurround => 4,
        SpeakerMode::SpeakerMode5Point1 => 5,
        SpeakerMode::SpeakerMode7Point1 => 6,
        SpeakerMode::SpeakerModeSRS5Point1Matrix => 7,
        SpeakerMode::SpeakerModeDolby5Point1Matrix => 8,
        SpeakerMode::SpeakerModeMyEars => 9,
    }
}

/// The speaker layout a numeric engine code denotes, if the code is known.
pub open spec fn speaker_mode_from_code(c: u32) -> Option<SpeakerMode> {
    match c {
        0u32 => Some(SpeakerMode::SpeakerModeRaw),
        1u32 => Some(SpeakerMode::SpeakerModeMono),
        2u32 => Some(SpeakerMode::SpeakerModeStereo),
        3u32 => Some(SpeakerMode::SpeakerModeQuad),
        4u32 => Some(SpeakerMode::SpeakerModeSurround),
        5u32 => Some(SpeakerMode::SpeakerMode5Point1),
        6u32 => Some(SpeakerMode::SpeakerMode7Point1),
        7u32 => Some(SpeakerMode::SpeakerModeSRS5Point1Matrix),
        8u32 => Some(SpeakerMode::SpeakerModeDolby5Point1Matrix),
        9u32 => Some(SpeakerMode::SpeakerModeMyEars),
        _ => None,
    }
}

impl SpeakerMode {
    /// The numeric code the engine uses for this speaker layout.
    pub fn to_code(self) -> (c: u32)
        ensures
            c == speaker_mode_code(self),
    {
        match self {
            SpeakerMode::SpeakerModeRaw => 0,
            SpeakerMode::SpeakerModeMono => 1,
            SpeakerMode::SpeakerModeStereo => 2,
            SpeakerMode::SpeakerModeQuad => 3,
            SpeakerMode::SpeakerModeSurround => 4,
            SpeakerMode::SpeakerMode5Point1 => 5,
            SpeakerMode::SpeakerMode7Point1 => 6,
            SpeakerMode::SpeakerModeSRS5Point1Matrix => 7,
            SpeakerMode::SpeakerModeDolby5Point1Matrix => 8,
            SpeakerMode::SpeakerModeMyEars => 9,
        }
    }

    /// The speaker layout a numeric engine code denotes, if any.
    pub fn from_code(c: u32) -> (m: Option<SpeakerMode>)
        ensures
            m == speaker_mode_from_code(c),
    {
        match c {
            0u32 => Some(SpeakerMode::SpeakerModeRaw),
            1u32 => Some(SpeakerMode::SpeakerModeMono),
            2u32 => Some(SpeakerMode::SpeakerModeStereo),
            3u32 => Some(SpeakerMode::SpeakerModeQuad),
            4u32 => Some(SpeakerMode::SpeakerModeSurround),
            5u32 => Some(SpeakerMode::SpeakerMode5Point1),
            6u32 => Some(SpeakerMode::SpeakerMode7Point1),
            7u32 => Some(SpeakerMode::SpeakerModeSRS5Point1Matrix),
            8u32 => Some(SpeakerMode::SpeakerModeDolby5Point1Matrix),
            9u32 => Some(SpeakerMode::SpeakerModeMyEars),
            _ => None,
        }
    }
}

/// A speaker layout turned to its code and back is the same layout.
pub proof fn lemma_speaker_mode_code_round_trip(m: SpeakerMode)
    ensures
        speaker_mode_from_code(speaker_mode_code(m)) == Some(m),
{
}

/// A known speaker-mode code turned to its layout and back is the same code.
pub proof fn lemma_speaker_mode_from_code_round_trip(c: u32)
    ensures
        speaker_mode_from_code(c) matches Some(m) ==> speaker_mode_code(m) == c,
{
}

/// One speaker position of a layout.  The code past the last position,
/// which the engine also uses as an end marker in speaker lists, is
/// `SpeakerNull`.
#[derive(Clone, Copy, Debug, PartialEq, Eq, Structural)]
pub enum Speaker {
    SpeakerFrontLeft,
    SpeakerFrontRight,
    SpeakerFrontCenter,
    SpeakerLowFrequency,
    SpeakerBackLeft,
    SpeakerBackRight,
    SpeakerSideLeft,
    SpeakerSideRight,
    SpeakerNull,
}

/// The numeric code the engine uses for a speaker position.
pub open spec fn speaker_code(s: Speaker) -> u32 {
    match s {
        Speaker::SpeakerFrontLeft => 0,
        Speaker::SpeakerFrontRight => 1,
        Speaker::SpeakerFrontCenter => 2,
        Speaker::SpeakerLowFrequency => 3,
        Speaker::SpeakerBackLeft => 4,
        Speaker::SpeakerBackRight => 5,
        Speaker::SpeakerSideLeft => 6,
        Speaker::SpeakerSideRight => 7,
        Speaker::SpeakerNull => 8,
    }
}

/// The speaker position a numeric engine code denotes, if the code is known.
pub open spec fn speaker_from_code(c: u32) -> Option<Speaker> {
    match c {
        0u32 => Some(Speaker::SpeakerFrontLeft),
        1u32 => Some(Speaker::SpeakerFrontRight),
        2u32 => Some(Speaker::SpeakerFrontCenter),
        3u32 => Some(Speaker::SpeakerLowFrequency),
        4u32 => Some(Speaker::SpeakerBackLeft),
        5u32 => Some(Speaker::SpeakerBackRight),
        6u32 => Some(Speaker::SpeakerSideLeft),
        7u32 => Some(Speaker::SpeakerSideRight),
        8u32 => Some(Speaker::SpeakerNull),
        _ => None,
    }
}

impl Speaker {
    /// The numeric code the engine uses for this speaker position.
    pub fn to_code(self) -> (c: u32)
        ensures
            c == speaker_code(self),
    {
        match self {
            Speaker::SpeakerFrontLeft => 0,
            Speaker::SpeakerFrontRight => 1,
            Speaker::SpeakerFrontCenter => 2,
            Speaker::SpeakerLowFrequency => 3,
            Speaker::SpeakerBackLeft => 4,
            Speaker::SpeakerBackRight => 5,
            Speaker::SpeakerSideLeft => 6,
            Speaker::SpeakerSideRight => 7,
            Speaker::SpeakerNull => 8,
        }
    }

    /// The speaker position a numeric engine code denotes, if any.
    pub fn from_code(c: u32) -> (s: Option<Speaker>)
        ensures
            s == speaker_from_code(c),
    {
        match c {
            0u32 => Some(Speaker::SpeakerFrontLeft),
            1u32 => Some(Speaker::SpeakerFrontRight),
            2u32 => Some(Speaker::SpeakerFrontCenter),
            3u32 => Some(Speaker::SpeakerLowFrequency),
            4u32 => Some(Speaker::SpeakerBackLeft),
            5u32 => Some(Speaker::SpeakerBackRight),
            6u32 => Some(Speaker::SpeakerSideLeft),
            7u32 => Some(Speaker::SpeakerSideRight),
            8u32 => Some(Speaker::SpeakerNull),
            _ => None,
        }
    }
}

/// A speaker position turned to its code and back is the same position.
pub proof fn lemma_speaker_code_round_trip(s: Speaker)
    ensures
        speaker_from_code(speaker_code(s)) == Some(s),
{
}

/// A known speaker code turned to its position and back is the same code.
pub proof fn lemma_speaker_from_code_round_trip(c: u32)
    ensures
        speaker_from_code(c) matches Some(s) ==> speaker_code(s) == c,
{
}

/// How a multichannel sound is spread over the speaker layout.
#[derive(Clone, Copy, Debug, PartialEq, Eq, Structural)]
pub enum SpeakerMapType {
    SpeakerMapTypeDefault,
    SpeakerMapTypeAllMono,
    SpeakerMapTypeAllStereo,
}

/// The numeric code the engine uses for a speaker mapping.
pub open spec fn speaker_map_type_code(m: SpeakerMapType) -> u32 {
    match m {
        SpeakerMapType::SpeakerMapTypeDefault => 0,
        SpeakerMapType::SpeakerMapTypeAllMono => 1,
        SpeakerMapType::SpeakerMapTypeAllStereo => 2,
    }
}

/// The speaker mapping a numeric engine code denotes, if the code is known.
pub open spec fn speaker_map_type_from_code(c: u32) -> Option<SpeakerMapType> {
    match c {
        0u32 => Some(SpeakerMapType::SpeakerMapTypeDefault),
        1u32 => Some(SpeakerMapType::SpeakerMapTypeAllMono),
        2u32 => Some(SpeakerMapType::SpeakerMapTypeAllStereo),
        _ => None,
    }
}

impl SpeakerMapType {
    /// The numeric code the engine uses for this speaker mapping.
    pub fn to_code(self) -> (c: u32)
        ensures
            c == speaker_map_type_code(self),
    {
        match self {
            SpeakerMapType::SpeakerMapTypeDefault => 0,
            SpeakerMapType::SpeakerMapTypeAllMono => 1,
            SpeakerMapType::SpeakerMapTypeAllStereo => 2,
        }
    }

    /// The speaker mapping a numeric engine code denotes, if any.
    pub fn from_code(c: u32) -> (m: Option<SpeakerMapType>)
        ensures
            m == speaker_map_type_from_code(c),
    {
        match c {
            0u32 => Some(SpeakerMapType::SpeakerMapTypeDefault),
            1u32 => Some(SpeakerMapType::SpeakerMapTypeAllMono),
            2u32 => Some(SpeakerMapType::SpeakerMapTypeAllStereo),
            _ => None,
        }
    }
}

/// A speaker mapping turned to its code and back is the same mapping.
pub proof fn lemma_speaker_map_type_code_round_trip(m: SpeakerMapType)
    ensures
        speaker_map_type_from_code(speaker_map_type_code(m)) == Some(m),
{
}

/// A known speaker-mapping code turned to its mapping and back is the same
/// code.
pub proof fn lemma_speaker_map_type_from_code_round_trip(c: u32)
    ensures
        speaker_map_type_from_code(c) matches Some(m) ==> speaker_map_type_code(m) == c,
{
}

/// Kind of a loadable plugin.
#[derive(Clone, Copy, Debug, PartialEq, Eq, Structural)]
pub enum PluginType {
    PluginTypeOutput,
    PluginTypeCodec,
    PluginTypeDSP,
}

/// The numeric code the engine uses for a plugin kind.
pub open spec fn plugin_type_code(p: PluginType) -> u32 {
    match p {
        PluginType::PluginTypeOutput => 0,
        PluginType::PluginTypeCodec => 1,
        PluginType::PluginTypeDSP => 2,
    }
}

/// The plugin kind a numeric engine code denotes, if the code is known.
pub open spec fn plugin_type_from_code(c: u32) -> Option<PluginType> {
    match c {
        0u32 => Some(PluginType::PluginTypeOutput),
        1u32 => Some(PluginType::PluginTypeCodec),
        2u32 => Some(PluginType::PluginTypeDSP),
        _ => None,
    }
}

impl PluginType {
    /// The numeric code the engine uses for this plugin kind.
    pub fn to_code(self) -> (c: u32)
        ensures
            c == plugin_type_code(self),
    {
        match self {
            PluginType::PluginTypeOutput => 0,
            PluginType::PluginTypeCodec => 1,
            PluginType::PluginTypeDSP => 2,
        }
    }

    /// The plugin kind a numeric engine code denotes, if any.
    pub fn from_code(c: u32) -> (p: Option<PluginType>)
        ensures
            p == plugin_type_from_code(c),
    {
        match c {
            0u32 => Some(PluginType::PluginTypeOutput),
            1u32 => Some(PluginType::PluginTypeCodec),
            2u32 => Some(PluginType::PluginTypeDSP),
            _ => None,
        }
    }
}

/// A plugin kind turned to its code and back is the same kind.
pub proof fn lemma_plugin_type_code_round_trip(p: PluginType)
    ensures
        plugin_type_from_code(plugin_type_code(p)) == Some(p),
{
}

/// A known plugin-kind code turned to its kind and back is the same code.
pub proof fn lemma_plugin_type_from_code_round_trip(c: u32)
    ensures
        plugin_type_from_code(c) matches Some(p) ==> plugin_type_code(p) == c,
{
}

/// Built-in digital signal processing unit kinds.
#[derive(Clone, Copy, Debug, PartialEq, Eq, Structural)]
pub enum DspType {
    DspTypeUnknown,
    DspTypeMixer,
    DspTypeOscillator,
    DspTypeLowPass,
    DspTypeITLowPass,
    DspTypeHighPass,
    DspTypeEcho,
    DspTypeFlange,
    DspTypeDistortion,
    DspTypeNormalize,
    DspTypeParamEQ,
    DspTypePitchShift,
    DspTypeChorus,
    DspTypeVSTPlugin,
    DspTypeWinampPlugin,
    DspTypeITEcho,
    DspTypeCompressor,
    DspTypeSFXReverb,
    DspTypeLowPassSimple,
    DspTypeDelay,
    DspTypeTremolo,
    DspTypeLADSPAPlugin,
    DspTypeHighPassSimple,
}

/// The numeric code the engine uses for a processing unit kind.
pub open spec fn dsp_type_code(t: DspType) -> u32 {
    match t {
        DspType::DspTypeUnknown => 0,
        DspType::DspTypeMixer => 1,
        DspType::DspTypeOscillator => 2,
        DspType::DspTypeLowPass => 3,
        DspType::DspTypeITLowPass => 4,
        DspType::DspTypeHighPass => 5,
        DspType::DspTypeEcho => 6,
        DspType::DspTypeFlange => 7,
        DspType::DspTypeDistortion => 8,
        DspType::DspTypeNormalize => 9,
        DspType::DspTypeParamEQ => 10,
        DspType::DspTypePitchShift => 11,
        DspType::DspTypeChorus => 12,
        DspType::DspTypeVSTPlugin => 13,
        DspType::DspTypeWinampPlugin => 14,
        DspType::DspTypeITEcho => 15,
        DspType::DspTypeCompressor => 16,
        DspType::DspTypeSFXReverb => 17,
        DspType::DspTypeLowPassSimple => 18,
        DspType::DspTypeDelay => 19,
        DspType::DspTypeTremolo => 20,
        DspType::DspTypeLADSPAPlugin => 21,
        DspType::DspTypeHighPassSimple => 22,
    }
}

/// The processing unit kind a numeric engine code denotes, if the code is
/// known.
pub open spec fn dsp_type_from_code(c: u32) -> Option<DspType> {
    match c {
        0u32 => Some(DspType::DspTypeUnknown),
        1u32 => Some(DspType::DspTypeMixer),
        2u32 => Some(DspType::DspTypeOscillator),
        3u32 => Some(DspType::DspTypeLowPass),
        4u32 => Some(DspType::DspTypeITLowPass),
        5u32 => Some(DspType::DspTypeHighPass),
        6u32 => Some(DspType::DspTypeEcho),
        7u32 => Some(DspType::DspTypeFlange),
        8u32 => Some(DspType::DspTypeDistortion),
        9u32 => Some(DspType::DspTypeNormalize),
        10u32 => Some(DspType::DspTypeParamEQ),
        11u32 => Some(DspType::DspTypePitchShift),
        12u32 => Some(DspType::DspTypeChorus),
        13u32 => Some(DspType::DspTypeVSTPlugin),
        14u32 => Some(DspType::DspTypeWinampPlugin),
        15u32 => Some(DspType::DspTypeITEcho),
        16u32 => Some(DspType::DspTypeCompressor),
        17u32 => Some(DspType::DspTypeSFXReverb),
        18u32 => Some(DspType::DspTypeLowPassSimple),
        19u32 => Some(DspType::DspTypeDelay),
        20u32 => Some(DspType::DspTypeTremolo),
        21u32 => Some(DspType::DspTypeLADSPAPlugin),
        22u32 => Some(DspType::DspTypeHighPassSimple),
        _ => None,
    }
}

impl DspType {
    /// The numeric code the engine uses for this processing unit kind.
    pub fn to_code(self) -> (c: u32)
        ensures
            c == dsp_type_code(self),
    {
        match self {
            DspType::DspTypeUnknown => 0,
            DspType::DspTypeMixer => 1,
            DspType::DspTypeOscillator => 2,
            DspType::DspTypeLowPass => 3,
            DspType::DspTypeITLowPass => 4,
            DspType::DspTypeHighPass => 5,
            DspType::DspTypeEcho => 6,
            DspType::DspTypeFlange => 7,
            DspType::DspTypeDistortion => 8,
            DspType::DspTypeNormalize => 9,
            DspType::DspTypeParamEQ => 10,
            DspType::DspTypePitchShift => 11,
            DspType::DspTypeChorus => 12,
            DspType::DspTypeVSTPlugin => 13,
            DspType::DspTypeWinampPlugin => 14,
            DspType::DspTypeITEcho => 15,
            DspType::DspTypeCompressor => 16,
            DspType::DspTypeSFXReverb => 17,
            DspType::DspTypeLowPassSimple => 18,
            DspType::DspTypeDelay => 19,
            DspType::DspTypeTremolo => 20,
            DspType::DspTypeLADSPAPlugin => 21,
            DspType::DspTypeHighPassSimple => 22,
        }
    }

    /// The processing unit kind a numeric engine code denotes, if any.
    pub fn from_code(c: u32) -> (t: Option<DspType>)
        ensures
            t == dsp_type_from_code(c),
    {
        match c {
            0u32 => Some(DspType::DspTypeUnknown),
            1u32 => Some(DspType::DspTypeMixer),
            2u32 => Some(DspType::DspTypeOscillator),
            3u32 => Some(DspType::DspTypeLowPass),
            4u32 => Some(DspType::DspTypeITLowPass),
            5u32 => Some(DspType::DspTypeHighPass),
            6u32 => Some(DspType::DspTypeEcho),
            7u32 => Some(DspType::DspTypeFlange),
            8u32 => Some(DspType::DspTypeDistortion),
            9u32 => Some(DspType::DspTypeNormalize),
            10u32 => Some(DspType::DspTypeParamEQ),
            11u32 => Some(DspType::DspTypePitchShift),
            12u32 => Some(DspType::DspTypeChorus),
            13u32 => Some(DspType::DspTypeVSTPlugin),
            14u32 => Some(DspType::DspTypeWinampPlugin),
            15u32 => Some(DspType::DspTypeITEcho),
            16u32 => Some(DspType::DspTypeCompressor),
            17u32 => Some(DspType::DspTypeSFXReverb),
            18u32 => Some(DspType::DspTypeLowPassSimple),
            19u32 => Some(DspType::DspTypeDelay),
            20u32 => Some(DspType::DspTypeTremolo),
            21u32 => Some(DspType::DspTypeLADSPAPlugin),
            22u32 => Some(DspType::DspTypeHighPassSimple),
            _ => None,
        }
    }
}

/// A processing unit kind turned to its code and back is the same kind.
pub proof fn lemma_dsp_type_code_round_trip(t: DspType)
    ensures
        dsp_type_from_code(dsp_type_code(t)) == Some(t),
{
}

/// A known processing-unit code turned to its kind and back is the same
/// code.
pub proof fn lemma_dsp_type_from_code_round_trip(c: u32)
    ensures
        dsp_type_from_code(c) matches Some(t) ==> dsp_type_code(t) == c,
{
}

/// Window function applied before a spectrum analysis.
#[allow(non_camel_case_types)]
#[derive(Clone, Copy, Debug, PartialEq, Eq, Structural)]
pub enum DSP_FFT_Window {
    DSP_FFT_WindowRect,
    DSP_FFT_WindowTriangle,
    DSP_FFT_WindowHamming,
    DSP_FFT_WindowHanning,
    DSP_FFT_WindowBlackman,
    DSP_FFT_WindowBlackmanHarris,
}

/// The numeric code the engine uses for a window function.
pub open spec fn dsp_fft_window_code(w: DSP_FFT_Window) -> u32 {
    match w {
        DSP_FFT_Window::DSP_FFT_WindowRect => 0,
        DSP_FFT_Window::DSP_FFT_WindowTriangle => 1,
        DSP_FFT_Window::DSP_FFT_WindowHamming => 2,
        DSP_FFT_Window::DSP_FFT_WindowHanning => 3,
        DSP_FFT_Window::DSP_FFT_WindowBlackman => 4,
        DSP_FFT_Window::DSP_FFT_WindowBlackmanHarris => 5,
    }
}

/// The window function a numeric engine code denotes, if the code is known.
pub open spec fn dsp_fft_window_from_code(c: u32) -> Option<DSP_FFT_Window> {
    match c {
        0u32 => Some(DSP_FFT_Window::DSP_FFT_WindowRect),
        1u32 => Some(DSP_FFT_Window::DSP_FFT_WindowTriangle),
        2u32 => Some(DSP_FFT_Window::DSP_FFT_WindowHamming),
        3u32 => Some(DSP_FFT_Window::DSP_FFT_WindowHanning),
        4u32 => Some(DSP_FFT_Window::DSP_FFT_WindowBlackman),
        5u32 => Some(DSP_FFT_Window::DSP_FFT_WindowBlackmanHarris),
        _ => None,
    }
}

impl DSP_FFT_Window {
    /// The numeric code the engine uses for this window function.
    pub fn to_code(self) -> (c: u32)
        ensures
            c == dsp_fft_window_code(self),
    {
        match self {
            DSP_FFT_Window::DSP_FFT_WindowRect => 0,
            DSP_FFT_Window::DSP_FFT_WindowTriangle => 1,
            DSP_FFT_Window::DSP_FFT_WindowHamming => 2,
            DSP_FFT_Window::DSP_FFT_WindowHanning => 3,
            DSP_FFT_Window::DSP_FFT_WindowBlackman => 4,
            DSP_FFT_Window::DSP_FFT_WindowBlackmanHarris => 5,
        }
    }

    /// The window function a numeric engine code denotes, if any.
    pub fn from_code(c: u32) -> (w: Option<DSP_FFT_Window>)
        ensures
            w == dsp_fft_window_from_code(c),
    {
        match c {
            0u32 => Some(DSP_FFT_Window::DSP_FFT_WindowRect),
            1u32 => Some(DSP_FFT_Window::DSP_FFT_WindowTriangle),
            2u32 => Some(DSP_FFT_Window::DSP_FFT_WindowHamming),
            3u32 => Some(DSP_FFT_Window::DSP_FFT_WindowHanning),
            4u32 => Some(DSP_FFT_Window::DSP_FFT_WindowBlackman),
            5u32 => Some(DSP_FFT_Window::DSP_FFT_WindowBlackmanHarris),
            _ => None,
        }
    }
}

/// A window function turned to its code and back is the same function.
pub proof fn lemma_dsp_fft_window_code_round_trip(w: DSP_FFT_Window)
    ensures
        dsp_fft_window_from_code(dsp_fft_window_code(w)) == Some(w),
{
}

/// A known window-function code turned to its function and back is the
/// same code.
pub proof fn lemma_dsp_fft_window_from_code_round_trip(c: u32)
    ensures
        dsp_fft_window_from_code(c) matches Some(w) ==> dsp_fft_window_code(w) == c,
{
}

/// Splits an engine status into the usual call outcome: success carries
/// the produced value, anything else carries the reporting status.
pub fn status_result<T>(status: Status, value: T) -> (r: Result<T, Status>)
    ensures
        status is Okay ==> (r matches Ok(v) && v == value),
        !(status is Okay) ==> (r matches Err(e) && e == status),
{
    if status.is_okay() {
        Ok(value)
    } else {
        Err(status)
    }
}

} // verus!
