use rfmod::types::FMOD_2D;
use rfmod::types::FMOD_CREATESTREAM;
use rfmod::types::FMOD_DEFAULT;
use rfmod::types::FMOD_INIT_NORMAL;
use rfmod::types::FMOD_LOOP_NORMAL;
use rfmod::types::FMOD_LOOP_OFF;
use rfmod::types::FMOD_SOFTWARE;
use rfmod::types::FmodMode;
use rfmod::types::default_sound_mode;
use rfmod::types::effective_mode;

#[test]
fn default_sound_mode_bits() {
    let m = default_sound_mode();
    assert_eq!(m.0, FMOD_SOFTWARE | FMOD_LOOP_OFF | FMOD_2D | FMOD_CREATESTREAM);
    assert_eq!(m.0, 0xc9);
}

#[test]
fn effective_mode_keeps_given_flags() {
    let given = FmodMode(FMOD_LOOP_NORMAL | FMOD_2D);
    assert_eq!(effective_mode(Some(given)), given);
}

#[test]
fn effective_mode_falls_back_to_default() {
    assert_eq!(effective_mode(None), default_sound_mode());
}

#[test]
fn plain_flag_values() {
    assert_eq!(FMOD_DEFAULT, 0);
    assert_eq!(FMOD_INIT_NORMAL, 0);
    assert_eq!(FMOD_LOOP_OFF, 1);
    assert_eq!(FMOD_SOFTWARE, 0x40);
}
