use rusty_rockit::call::MpiCall;
use rusty_rockit::vi::vi_chn_attr;
use rusty_rockit::{Error, FrameSize, MpiState, RockitSys, ViLimits, RK_SUCCESS};

fn sys() -> RockitSys {
    let mut state = MpiState::new();
    RockitSys::init(&mut state, RK_SUCCESS, ViLimits { max_dev: 2, max_pipe: 4, max_chn: 5 })
        .ok()
        .unwrap()
}

#[test]
fn device_open_and_pipes() {
    let mpi = sys();
    assert!(matches!(mpi.dev_open(9, 1), Err(Error::InvalidDevId { id: 9 })));
    assert!(matches!(mpi.dev_open(0, 9), Err(Error::RequestedTooManyPipes { num: 9 })));
    let mut open = mpi.dev_open(1, 2).ok().unwrap();
    let mut calls = Vec::new();
    while let Some(call) = open.next_call() {
        calls.push(call);
        open.record(RK_SUCCESS);
    }
    assert_eq!(calls.last(), Some(&MpiCall::ViSetDevBindPipe { dev: 1, num_pipes: 2 }));
    let dev = mpi.dev(&open).ok().unwrap();
    assert_eq!(dev.disable_call(), MpiCall::ViDisableDev { dev: 1 });
    assert!(dev.get_pipe(1).is_ok());
    assert!(matches!(dev.get_pipe(2), Err(Error::InvalidPipeId { id: 2 })));
}

#[test]
fn device_channel_keeps_two_frames_and_waits_a_second() {
    let mpi = sys();
    let mut open = mpi.dev_open(0, 1).ok().unwrap();
    while open.next_call().is_some() {
        open.record(RK_SUCCESS);
    }
    let dev = mpi.dev(&open).ok().unwrap();
    let pipe = dev.get_pipe(0).ok().unwrap();
    assert!(matches!(pipe.create_channel_calls(6, 8, 8), Err(Error::InvalidDevId { id: 6 })));
    let mut seq = pipe.create_channel_calls(0, 8, 8).ok().unwrap();
    assert_eq!(
        seq.next_call(),
        Some(&MpiCall::ViSetChnAttr { pipe: 0, chn: 0, attr: vi_chn_attr(8, 8, 2) })
    );
    seq.record(RK_SUCCESS);
    seq.record(RK_SUCCESS);
    let chan = pipe.create_channel(0, 8, 8, &seq).ok().unwrap();
    assert_eq!(chan.get_frame_call(), MpiCall::ViGetChnFrame { pipe: 0, chn: 0, timeout_ms: 1000 });
    assert_eq!(chan.disable_call(), MpiCall::ViDisableChn { pipe: 0, chn: 0 });
    let frame = chan.get_frame(RK_SUCCESS, FrameSize { width: 8, height: 8 }).ok().unwrap();
    assert_eq!(frame.width(), 8);
    assert_eq!(frame.height(), 8);
    assert_eq!(frame.data_len(), 96);
    assert_eq!(frame.data(None), Err(Error::InvalidFramePointer));
    assert_eq!(frame.release_call(), MpiCall::ViReleaseChnFrame { pipe: 0, chn: 0 });
    assert!(matches!(
        chan.get_frame(-2, FrameSize { width: 8, height: 8 }),
        Err(Error::Rockit { code: -2 })
    ));
}

#[test]
fn device_channel_creation_failure() {
    let mpi = sys();
    let mut open = mpi.dev_open(0, 1).ok().unwrap();
    while open.next_call().is_some() {
        open.record(RK_SUCCESS);
    }
    let dev = mpi.dev(&open).ok().unwrap();
    let pipe = rusty_rockit::ViPipe::new(&dev, 0);
    let mut seq = pipe.create_channel_calls(0, 8, 8).ok().unwrap();
    seq.record(RK_SUCCESS);
    seq.record(11);
    assert!(matches!(pipe.create_channel(0, 8, 8, &seq), Err(Error::Rockit { code: 11 })));
}
