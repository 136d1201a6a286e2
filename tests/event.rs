use winpipe::codes::{WAIT_OBJECT_0, WAIT_TIMEOUT};
use winpipe::error::PipeError;
use winpipe::event::{manual_reset_flag, wait_result};
use winpipe::name::PipeName;

#[test]
fn reset_flag_follows_mode() {
    assert_eq!(manual_reset_flag(true), 1);
    assert_eq!(manual_reset_flag(false), 0);
}

#[test]
fn wait_signaled_timeout_or_failed() {
    assert_eq!(wait_result(WAIT_OBJECT_0, 0), Ok(true));
    assert_eq!(wait_result(WAIT_TIMEOUT, 0), Ok(false));
    assert_eq!(wait_result(0xFFFF_FFFF, 6), Err(PipeError::Os { code: 6 }));
}

#[test]
fn name_encoded_with_terminator() {
    let name = PipeName::new("abc");
    assert_eq!(name.units(), &vec![97u16, 98, 99, 0]);
}

#[test]
fn name_empty_is_terminator_only() {
    assert_eq!(PipeName::new("").units(), &vec![0u16]);
}

#[test]
fn name_above_basic_plane_uses_surrogates() {
    let name = PipeName::new("a\u{1F600}\u{E9}");
    assert_eq!(name.units(), &vec![97u16, 0xD83D, 0xDE00, 0xE9, 0]);
}

#[test]
fn name_shared_is_same_encoding() {
    let name = PipeName::new(r"\\.\pipe\test-channel");
    let copy = name.share();
    assert_eq!(copy.units(), name.units());
    assert_eq!(copy.units().len(), 22);
    assert_eq!(*copy.units().last().unwrap(), 0);
}
