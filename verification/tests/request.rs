use ed_timelapse::error::{FocusStep, KeyPhase, RequestError};
use ed_timelapse::screenshot::request::{
    key_events, key_presses, key_releases, key_sequence, keyscan_input, request_screenshot,
    target_window_title, KeyInput, OsCall, OsReply, Request, RequestPhase, KEYEVENTF_KEYUP,
    KEYSCAN_F10, KEYSCAN_LALT, SETTLE_MILLIS,
};

fn run(high_res: bool, replies: &[OsReply]) -> (Vec<OsCall>, Request) {
    let mut request = request_screenshot(high_res);
    let mut calls = vec![request.next_call()];
    for reply in replies {
        request.advance(*reply);
        calls.push(request.next_call());
    }
    (calls, request)
}

#[test]
fn constants_of_the_protocol() {
    assert_eq!(KEYSCAN_F10, 0x44);
    assert_eq!(KEYSCAN_LALT, 0x38);
    assert_eq!(KEYEVENTF_KEYUP, 2);
    assert_eq!(SETTLE_MILLIS, 60);
    assert_eq!(target_window_title(), "Elite - Dangerous (CLIENT)");
}

#[test]
fn keyscan_input_names_the_key_by_scan_code() {
    assert_eq!(
        keyscan_input(0x44, 2),
        KeyInput { virtual_key: 0, scan: 0x44, flags: 2, time: 0, extra_info: 0 }
    );
}

#[test]
fn normal_capture_presses_f10() {
    assert_eq!(key_sequence(false), vec![0x44]);
    assert_eq!(key_events(false, KeyPhase::Down), vec![keyscan_input(0x44, 0)]);
    assert_eq!(key_events(false, KeyPhase::Up), vec![keyscan_input(0x44, 2)]);
}

#[test]
fn high_resolution_capture_holds_alt_around_f10() {
    assert_eq!(key_sequence(true), vec![0x38, 0x44]);
    assert_eq!(
        key_events(true, KeyPhase::Down),
        vec![keyscan_input(0x38, 0), keyscan_input(0x44, 0)]
    );
    assert_eq!(
        key_events(true, KeyPhase::Up),
        vec![keyscan_input(0x44, 2), keyscan_input(0x38, 2)]
    );
}

#[test]
fn releases_come_in_reverse_order() {
    let keys = vec![1u16, 2, 3, 4];
    let down: Vec<u16> = key_presses(&keys).iter().map(|e| e.scan).collect();
    let up: Vec<u16> = key_releases(&keys).iter().map(|e| e.scan).collect();
    assert_eq!(down, vec![1, 2, 3, 4]);
    assert_eq!(up, vec![4, 3, 2, 1]);
    assert!(key_presses(&keys).iter().all(|e| e.flags == 0));
    assert!(key_releases(&keys).iter().all(|e| e.flags == KEYEVENTF_KEYUP));
    assert_eq!(key_presses(&vec![]), vec![]);
    assert_eq!(key_releases(&vec![]), vec![]);
}

#[test]
fn successful_request_makes_every_call_in_order() {
    let replies = [
        OsReply::Window(11),
        OsReply::Window(22),
        OsReply::Granted(true),
        OsReply::Granted(true),
        OsReply::Slept,
        OsReply::Sent(2),
        OsReply::Slept,
        OsReply::Sent(2),
        OsReply::Granted(true),
    ];
    let (calls, request) = run(true, &replies);
    assert_eq!(
        calls,
        vec![
            OsCall::ForegroundWindow,
            OsCall::FindTarget,
            OsCall::SetForeground(22),
            OsCall::BringToTop(22),
            OsCall::Sleep(60),
            OsCall::SendKeys(KeyPhase::Down),
            OsCall::Sleep(60),
            OsCall::SendKeys(KeyPhase::Up),
            OsCall::RestoreForeground(11),
            OsCall::Done(Ok(())),
        ]
    );
    assert_eq!(request.outcome(), Some(Ok(())));
    assert_eq!(request.key_count(), 2);
}

#[test]
fn focus_that_cannot_be_given_back_does_not_fail_the_request() {
    let replies = [
        OsReply::Window(11),
        OsReply::Window(22),
        OsReply::Granted(true),
        OsReply::Granted(true),
        OsReply::Slept,
        OsReply::Sent(1),
        OsReply::Slept,
        OsReply::Sent(1),
        OsReply::Granted(false),
    ];
    let (calls, request) = run(false, &replies);
    assert_eq!(calls.last(), Some(&OsCall::Done(Ok(()))));
    assert_eq!(request.outcome(), Some(Ok(())));
}

#[test]
fn missing_window_ends_the_request_at_once() {
    let (calls, request) = run(true, &[OsReply::Window(11), OsReply::Window(0)]);
    assert_eq!(
        calls,
        vec![
            OsCall::ForegroundWindow,
            OsCall::FindTarget,
            OsCall::Done(Err(RequestError::TargetNotRunning)),
        ]
    );
    assert_eq!(request.outcome(), Some(Err(RequestError::TargetNotRunning)));
}

#[test]
fn refused_foreground_switch_is_a_focus_error() {
    let (calls, _) = run(true, &[OsReply::Window(11), OsReply::Window(22), OsReply::Granted(false)]);
    assert_eq!(
        calls.last(),
        Some(&OsCall::Done(Err(RequestError::FocusError(FocusStep::Foreground))))
    );
}

#[test]
fn refused_raise_is_a_focus_error() {
    let (calls, _) = run(
        true,
        &[OsReply::Window(11), OsReply::Window(22), OsReply::Granted(true), OsReply::Granted(false)],
    );
    assert_eq!(calls.last(), Some(&OsCall::Done(Err(RequestError::FocusError(FocusStep::Top)))));
}

#[test]
fn too_few_key_presses_fail_the_request() {
    let (calls, _) = run(
        true,
        &[
            OsReply::Window(11),
            OsReply::Window(22),
            OsReply::Granted(true),
            OsReply::Granted(true),
            OsReply::Slept,
            OsReply::Sent(1),
        ],
    );
    assert_eq!(
        calls.last(),
        Some(&OsCall::Done(Err(RequestError::InputInjectionFailed(KeyPhase::Down))))
    );
}

#[test]
fn too_few_key_releases_fail_the_request() {
    let (calls, _) = run(
        false,
        &[
            OsReply::Window(11),
            OsReply::Window(22),
            OsReply::Granted(true),
            OsReply::Granted(true),
            OsReply::Slept,
            OsReply::Sent(1),
            OsReply::Slept,
            OsReply::Sent(0),
        ],
    );
    assert_eq!(
        calls.last(),
        Some(&OsCall::Done(Err(RequestError::InputInjectionFailed(KeyPhase::Up))))
    );
}

#[test]
fn reply_to_another_call_is_ignored() {
    let mut request = request_screenshot(false);
    request.advance(OsReply::Slept);
    assert_eq!(request, request_screenshot(false));
    request.advance(OsReply::Window(5));
    request.advance(OsReply::Granted(true));
    assert_eq!(request.phase, RequestPhase::Locate);
    assert_eq!(request.next_call(), OsCall::FindTarget);
    assert_eq!(request.outcome(), None);
}

#[test]
fn finished_request_stays_finished() {
    let (_, mut request) = run(false, &[OsReply::Window(1), OsReply::Window(0)]);
    let before = request;
    request.advance(OsReply::Window(9));
    request.advance(OsReply::Granted(true));
    request.advance(OsReply::Sent(1));
    request.advance(OsReply::Slept);
    assert_eq!(request, before);
}
