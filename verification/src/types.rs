//! Bit-set and handle newtypes of the engine interface.
//!
//! The engine takes most of its options as unsigned bit sets.  Each kind of
//! bit set gets its own newtype so that a caller cannot hand, say, a time
//! unit where an initialization flag is expected.

use vstd::prelude::*;

verus! {

/// Flags controlling how a sound is created and played back.
#[derive(Clone, Copy, Debug, PartialEq, Eq, Structural)]
pub struct FmodMode(pub u32);

/// Flags handed to system initialization.
#[derive(Clone, Copy, Debug, PartialEq, Eq, Structural)]
pub struct FmodInitFlag(pub u32);

/// Selects the unit in which a position or length is measured.
#[derive(Clone, Copy, Debug, PartialEq, Eq, Structural)]
pub struct FmodTimeUnit(pub u32);

/// Capability bits reported for an output driver.
#[derive(Clone, Copy, Debug, PartialEq, Eq, Structural)]
pub struct FmodCaps(pub u32);

/// Selects which memory categories a memory report covers.
#[derive(Clone, Copy, Debug, PartialEq, Eq, Structural)]
pub struct FmodMemoryBits(pub u32);

/// Selects which event-system memory categories a memory report covers.
#[derive(Clone, Copy, Debug, PartialEq, Eq, Structural)]
pub struct FmodEventMemoryBits(pub u32);

/// Identifies a loaded plugin.
#[derive(Clone, Copy, Debug, PartialEq, Eq, Structural)]
pub struct FmodPluginHandle(pub u32);

/// No special mode bits.
pub const FMOD_DEFAULT: u32 = 0x0;
/// Play the sound once and stop.
pub const FMOD_LOOP_OFF: u32 = 0x1;
/// Restart the sound from the beginning when it ends.
pub const FMOD_LOOP_NORMAL: u32 = 0x2;
/// Play the sound forwards, then backwards, alternating.
pub const FMOD_LOOP_BIDI: u32 = 0x4;
/// Position the sound in two dimensions.
pub const FMOD_2D: u32 = 0x8;
/// Position the sound in three dimensions.
pub const FMOD_3D: u32 = 0x10;
/// Mix the sound in hardware.
pub const FMOD_HARDWARE: u32 = 0x20;
/// Mix the sound in software.
pub const FMOD_SOFTWARE: u32 = 0x40;
/// Decode the sound on the fly instead of loading it whole.
pub const FMOD_CREATESTREAM: u32 = 0x80;
/// Decode the sound whole into memory at load time.
pub const FMOD_CREATESAMPLE: u32 = 0x100;
/// Keep the sound compressed in memory and decode during playback.
pub const FMOD_CREATECOMPRESSEDSAMPLE: u32 = 0x200;
/// Create a sound whose data the caller supplies.
pub const FMOD_OPENUSER: u32 = 0x400;
/// Load the sound from a memory buffer instead of a file name.
pub const FMOD_OPENMEMORY: u32 = 0x800;
/// Treat the input as raw sample data.
pub const FMOD_OPENRAW: u32 = 0x1000;
/// Open only for information; do not load any data.
pub const FMOD_OPENONLY: u32 = 0x2000;
/// Favour accurate lengths and seek positions over load speed.
pub const FMOD_ACCURATETIME: u32 = 0x4000;
/// Scan the whole file for valid frames when opening an MPEG sound.
pub const FMOD_MPEGSEARCH: u32 = 0x8000;
/// Open the sound in the background and report completion later.
pub const FMOD_NONBLOCKING: u32 = 0x10000;
/// Allow only a single playback of the sound at a time.
pub const FMOD_UNIQUE: u32 = 0x20000;

/// Plain initialization with no extra behaviour.
pub const FMOD_INIT_NORMAL: u32 = 0x0;

/// Positions and lengths in milliseconds.
pub const FMOD_TIMEUNIT_MS: u32 = 0x1;
/// Positions and lengths in sample frames.
pub const FMOD_TIMEUNIT_PCM: u32 = 0x2;
/// Positions and lengths in bytes of sample data.
pub const FMOD_TIMEUNIT_PCMBYTES: u32 = 0x4;
/// Positions and lengths in bytes of the source file.
pub const FMOD_TIMEUNIT_RAWBYTES: u32 = 0x8;

/// The mode that sound creation falls back to when the caller passes no
/// flags: software mixing of a non-looping, two-dimensional stream.
pub open spec fn spec_default_sound_mode() -> u32 {
    FMOD_SOFTWARE | FMOD_LOOP_OFF | FMOD_2D | FMOD_CREATESTREAM
}

/// Builds the fallback creation mode.
pub fn default_sound_mode() -> (m: FmodMode)
    ensures
        m.0 == spec_default_sound_mode(),
{
    FmodMode(FMOD_SOFTWARE | FMOD_LOOP_OFF | FMOD_2D | FMOD_CREATESTREAM)
}

/// The creation mode that a sound is actually opened with: the caller's
/// flags when any were given, the fallback mode otherwise.
pub fn effective_mode(options: Option<FmodMode>) -> (m: FmodMode)
    ensures
        options matches Some(given) ==> m == given,
        options is None ==> m.0 == spec_default_sound_mode(),
{
    match options {
        Some(given) => given,
        None => default_sound_mode(),
    }
}

} // verus!
