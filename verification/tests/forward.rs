use modality_barectf_plugin::forward::{
    after_action, after_close, after_handle, after_race, after_source, Exit, Failure, Race,
    SourceEvent, Step,
};
use modality_barectf_plugin::send::{Action, Warning};

#[test]
fn packet_is_handled() {
    assert_eq!(after_source(SourceEvent::Packet), Step::Handle);
}

#[test]
fn decode_failure_closes_then_fails() {
    assert_eq!(
        after_source(SourceEvent::DecodeFailed),
        Step::Close { failure: Some(Failure::Decode) }
    );
    assert_eq!(after_close(Some(Failure::Decode), true), Err(Failure::Decode));
    assert_eq!(after_close(Some(Failure::Decode), false), Err(Failure::Decode));
}

#[test]
fn end_of_source_closes_then_succeeds() {
    assert_eq!(after_source(SourceEvent::Ended), Step::Close { failure: None });
    assert_eq!(after_close(None, true), Ok(()));
}

#[test]
fn failed_close_on_the_happy_path_is_a_backend_failure() {
    assert_eq!(after_close(None, false), Err(Failure::Backend));
}

#[test]
fn backend_failure_closes_then_fails() {
    assert_eq!(after_handle(true), None);
    assert_eq!(after_handle(false), Some(Step::Close { failure: Some(Failure::Backend) }));
    assert_eq!(after_close(Some(Failure::Backend), true), Err(Failure::Backend));
    assert_eq!(after_close(Some(Failure::Backend), false), Err(Failure::Backend));
}

#[test]
fn interrupt_is_a_clean_exit() {
    assert_eq!(after_race(Race::Interrupted), Exit::CancelAndSucceed);
}

#[test]
fn completion_propagates_the_result() {
    assert_eq!(after_race(Race::Completed { failure: None }), Exit::Succeed);
    assert_eq!(
        after_race(Race::Completed { failure: Some(Failure::Decode) }),
        Exit::Fail { failure: Failure::Decode }
    );
    assert_eq!(
        after_race(Race::Completed { failure: Some(Failure::Backend) }),
        Exit::Fail { failure: Failure::Backend }
    );
}

fn forward_steps() -> Vec<Action> {
    vec![
        Action::SwitchTimeline(1),
        Action::SendTimelineAttrs { name: "a".to_string(), attrs: vec![] },
        Action::SendEvent { name: "e".to_string(), ordering: 0, attrs: vec![] },
        Action::Flush,
    ]
}

#[test]
fn a_step_that_went_well_is_followed_by_the_next() {
    for action in forward_steps() {
        assert_eq!(after_action(&action, true), None);
    }
    assert_eq!(after_action(&Action::ReportStatus, true), None);
    assert_eq!(after_action(&Action::Warn(Warning::TraceRestart), true), None);
}

#[test]
fn a_failed_call_on_the_backend_stops_the_steps() {
    for action in forward_steps() {
        assert_eq!(after_action(&action, false), Some(Failure::Backend));
    }
}

#[test]
fn a_failed_status_report_is_ignored() {
    assert_eq!(after_action(&Action::ReportStatus, false), None);
    assert_eq!(after_action(&Action::Warn(Warning::TraceRestart), false), None);
}
