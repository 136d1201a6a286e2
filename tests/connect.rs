use winpipe::codes::{ERROR_FILE_NOT_FOUND, ERROR_IO_PENDING, ERROR_PIPE_BUSY, ERROR_PIPE_CONNECTED};
use winpipe::connect::{accept_result, open_step, wait_step, Accepted, ClientAction};
use winpipe::error::{os_result, PipeError};

#[test]
fn accept_pending_when_queued() {
    assert_eq!(accept_result(false, ERROR_IO_PENDING), Ok(Accepted::Pending));
}

#[test]
fn accept_connected_when_peer_was_waiting() {
    assert_eq!(accept_result(false, ERROR_PIPE_CONNECTED), Ok(Accepted::Connected));
}

#[test]
fn accept_other_error_is_propagated() {
    assert_eq!(accept_result(false, 5), Err(PipeError::Os { code: 5 }));
}

#[test]
fn accept_returning_true_is_an_error() {
    assert_eq!(accept_result(true, 0), Err(PipeError::Os { code: 0 }));
    assert_eq!(accept_result(true, ERROR_IO_PENDING), Err(PipeError::Os { code: ERROR_IO_PENDING }));
}

#[test]
fn client_open_success_is_ready() {
    assert_eq!(open_step(true, 0), ClientAction::Ready);
    assert_eq!(open_step(true, ERROR_PIPE_BUSY), ClientAction::Ready);
}

#[test]
fn client_missing_endpoint_fails_not_found() {
    assert_eq!(
        open_step(false, ERROR_FILE_NOT_FOUND),
        ClientAction::Fail { error: PipeError::Os { code: 2 } }
    );
}

#[test]
fn client_busy_endpoint_waits() {
    assert_eq!(open_step(false, ERROR_PIPE_BUSY), ClientAction::WaitForServer);
}

#[test]
fn client_wait_step_retries_or_fails() {
    assert_eq!(wait_step(true, 0), Ok(()));
    assert_eq!(wait_step(false, 121), Err(PipeError::Os { code: 121 }));
}

/// Runs the client decisions over scripted platform reports:
/// (opened, open error, waited, wait error) for each round.
fn run_client(rounds: &[(bool, u32, bool, u32)]) -> (Option<Result<(), PipeError>>, usize) {
    let mut used = 0;
    for &(opened, open_error, waited, wait_error) in rounds {
        used += 1;
        match open_step(opened, open_error) {
            ClientAction::Ready => return (Some(Ok(())), used),
            ClientAction::Fail { error } => return (Some(Err(error)), used),
            ClientAction::WaitForServer => {
                if let Err(e) = wait_step(waited, wait_error) {
                    return (Some(Err(e)), used);
                }
            }
        }
    }
    (None, used)
}

#[test]
fn client_retries_busy_until_ready() {
    let rounds = [
        (false, ERROR_PIPE_BUSY, true, 0),
        (false, ERROR_PIPE_BUSY, true, 0),
        (true, 0, false, 0),
        (false, ERROR_FILE_NOT_FOUND, false, 0),
    ];
    assert_eq!(run_client(&rounds), (Some(Ok(())), 3));
}

#[test]
fn client_not_found_does_not_retry() {
    let rounds = [(false, ERROR_FILE_NOT_FOUND, false, 0), (true, 0, false, 0)];
    assert_eq!(run_client(&rounds), (Some(Err(PipeError::Os { code: ERROR_FILE_NOT_FOUND })), 1));
}

#[test]
fn client_failed_wait_ends_loop() {
    let rounds = [(false, ERROR_PIPE_BUSY, false, 121), (true, 0, false, 0)];
    assert_eq!(run_client(&rounds), (Some(Err(PipeError::Os { code: 121 })), 1));
}

#[test]
fn os_result_maps_flag() {
    assert_eq!(os_result(true, 7), Ok(()));
    assert_eq!(os_result(false, 7), Err(PipeError::Os { code: 7 }));
}

#[test]
fn os_code_only_for_os_errors() {
    assert_eq!(PipeError::Os { code: 109 }.os_code(), Some(109));
    assert_eq!(PipeError::NotConnected.os_code(), None);
    assert_eq!(PipeError::EndpointBusy.os_code(), None);
    assert_eq!(PipeError::PeerClosed.os_code(), None);
}
