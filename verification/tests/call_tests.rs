use rusty_rockit::call::{CallSeq, MpiCall};
use rusty_rockit::{Error, RK_SUCCESS};

fn two_calls() -> CallSeq {
    CallSeq::new(vec![MpiCall::ViEnableChn { pipe: 0, chn: 1 }, MpiCall::ViEnableDev { dev: 2 }])
}

#[test]
fn sequence_runs_every_call_when_all_succeed() {
    let mut seq = two_calls();
    assert!(!seq.is_finished());
    assert_eq!(seq.next_call(), Some(&MpiCall::ViEnableChn { pipe: 0, chn: 1 }));
    seq.record(RK_SUCCESS);
    assert_eq!(seq.next_call(), Some(&MpiCall::ViEnableDev { dev: 2 }));
    seq.record(RK_SUCCESS);
    assert!(seq.is_finished());
    assert_eq!(seq.next_call(), None);
    assert_eq!(seq.outcome(), Ok(()));
    assert_eq!(seq.codes_so_far(), &vec![0, 0]);
}

#[test]
fn sequence_stops_at_first_failure() {
    let mut seq = two_calls();
    seq.record(-7);
    assert!(seq.is_finished());
    assert_eq!(seq.next_call(), None);
    assert_eq!(seq.outcome(), Err(Error::Rockit { code: -7 }));
}

#[test]
fn sequence_reports_failure_of_last_call() {
    let mut seq = two_calls();
    seq.record(RK_SUCCESS);
    seq.record(3);
    assert_eq!(seq.outcome(), Err(Error::Rockit { code: 3 }));
}

#[test]
fn empty_sequence_succeeds() {
    let seq = CallSeq::new(vec![]);
    assert!(seq.is_finished());
    assert_eq!(seq.next_call(), None);
    assert_eq!(seq.outcome(), Ok(()));
}
