use rusty_rockit::call::MpiCall;
use rusty_rockit::encoder::{CameraEncoder, CameraEncoderSetup, CameraEncoderStep};
use rusty_rockit::venc::{venc_chn_attr, Codec, H264Profile, H26xRateControl, VencConfig};
use rusty_rockit::vi::{vi_chn_attr, CameraId, OpenStep};
use rusty_rockit::{
    ChannelBind, Error, ModId, MppChn, MpiState, RockitSys, ViLimits, RK_ERR_VI_NOT_CONFIG,
    RK_SUCCESS,
};

fn sys(limits: ViLimits) -> RockitSys {
    let mut state = MpiState::new();
    RockitSys::init(&mut state, RK_SUCCESS, limits).ok().unwrap()
}

fn limits() -> ViLimits {
    ViLimits { max_dev: 2, max_pipe: 4, max_chn: 5 }
}

fn config() -> VencConfig {
    VencConfig {
        width: 1280,
        height: 720,
        codec: Codec::H264 {
            rate_control: H26xRateControl::Cbr { gop: 30, framerate: 30, bitrate_kbps: 2048 },
            profile: H264Profile::Main,
        },
        buf_count: 2,
    }
}

/// Runs the set-up, answering every call with the code `answer` gives it,
/// and returns the calls made.
fn run(setup: &mut CameraEncoderSetup, answer: impl Fn(&MpiCall) -> i32) -> Vec<MpiCall> {
    let mut made = Vec::new();
    while let Some(call) = setup.next_call() {
        let code = answer(&call);
        made.push(call);
        setup.record(code);
    }
    made
}

fn bind(encoder: i32) -> ChannelBind {
    ChannelBind {
        src_channel: MppChn { mod_id: ModId::Vi, dev_id: 0, chn_id: 0 },
        dst_channel: MppChn { mod_id: ModId::Venc, dev_id: 0, chn_id: encoder },
    }
}

#[test]
fn camera_encoder_is_set_up_in_order() {
    let mpi = sys(limits());
    let cfg = config();
    let mut setup = CameraEncoderSetup::new(&mpi, CameraId::One, 3, &cfg);
    assert_eq!(setup.step(), CameraEncoderStep::OpenCamera { step: OpenStep::GetAttr });
    let made = run(&mut setup, |_| RK_SUCCESS);
    assert_eq!(
        made,
        vec![
            MpiCall::ViGetDevAttr { dev: 1 },
            MpiCall::ViGetDevIsEnable { dev: 1 },
            MpiCall::ViSetDevBindPipe { dev: 1, num_pipes: 1 },
            MpiCall::ViSetChnAttr { pipe: 0, chn: 0, attr: vi_chn_attr(1280, 720, 0) },
            MpiCall::ViEnableChn { pipe: 0, chn: 0 },
            MpiCall::VencCreateChn { chn: 3, venc_attr: venc_chn_attr(&cfg) },
            MpiCall::VencStartRecvFrame { chn: 3, recv_pic_num: -1 },
            MpiCall::SysBind { bind: bind(3) },
        ]
    );
    assert_eq!(setup.step(), CameraEncoderStep::Ready);
    let mut enc = CameraEncoder::new(&setup).ok().unwrap();
    assert_eq!(enc.get_frame_call(100), MpiCall::VencGetStream { chn: 3, timeout_ms: 100 });
    let stream = enc.get_frame(RK_SUCCESS, 4096).ok().unwrap();
    assert_eq!(stream.packet_len(), 4096);
    assert_eq!(stream.release_call(), MpiCall::VencReleaseStream { chn: 3 });
    drop(stream);
    assert!(matches!(enc.get_frame(-5, 0), Err(Error::Rockit { code: -5 })));
    assert_eq!(
        enc.drop_calls(),
        vec![
            MpiCall::ViDisableDev { dev: 1 },
            MpiCall::ViDisableChn { pipe: 0, chn: 0 },
            MpiCall::VencStopRecvFrame { chn: 3 },
            MpiCall::VencDestroyChn { chn: 3 },
        ]
    );
}

#[test]
fn camera_encoder_configures_and_enables_a_fresh_camera() {
    let mpi = sys(limits());
    let mut setup = CameraEncoderSetup::new(&mpi, CameraId::Zero, 0, &config());
    let made = run(&mut setup, |call| match call {
        MpiCall::ViGetDevAttr { .. } => RK_ERR_VI_NOT_CONFIG,
        MpiCall::ViGetDevIsEnable { .. } => -1,
        _ => RK_SUCCESS,
    });
    assert_eq!(
        made[..5].to_vec(),
        vec![
            MpiCall::ViGetDevAttr { dev: 0 },
            MpiCall::ViSetDevAttr { dev: 0 },
            MpiCall::ViGetDevIsEnable { dev: 0 },
            MpiCall::ViEnableDev { dev: 0 },
            MpiCall::ViSetDevBindPipe { dev: 0, num_pipes: 1 },
        ]
    );
    assert_eq!(made.len(), 10);
    assert!(CameraEncoder::new(&setup).is_ok());
}

#[test]
fn camera_encoder_refuses_camera_above_limit_before_any_call() {
    let mpi = sys(ViLimits { max_dev: 0, max_pipe: 4, max_chn: 5 });
    let mut setup = CameraEncoderSetup::new(&mpi, CameraId::Two, 0, &config());
    assert_eq!(setup.next_call(), None);
    assert!(run(&mut setup, |_| RK_SUCCESS).is_empty());
    assert!(matches!(CameraEncoder::new(&setup), Err(Error::InvalidDevId { id: 2 })));
    assert!(setup.cleanup_calls().is_empty());
}

#[test]
fn camera_encoder_refuses_when_no_pipe_allowed() {
    let mpi = sys(ViLimits { max_dev: 2, max_pipe: 0, max_chn: 5 });
    let setup = CameraEncoderSetup::new(&mpi, CameraId::Zero, 0, &config());
    assert_eq!(setup.next_call(), None);
    assert!(matches!(
        CameraEncoder::new(&setup),
        Err(Error::RequestedTooManyPipes { num: 1 })
    ));
}

#[test]
fn camera_encoder_stops_at_failed_camera_open() {
    let mpi = sys(limits());
    let mut setup = CameraEncoderSetup::new(&mpi, CameraId::Zero, 0, &config());
    let made = run(&mut setup, |call| match call {
        MpiCall::ViSetDevBindPipe { .. } => -7,
        _ => RK_SUCCESS,
    });
    assert_eq!(made.len(), 3);
    assert_eq!(setup.step(), CameraEncoderStep::Failed { err: Error::Rockit { code: -7 } });
    assert!(matches!(CameraEncoder::new(&setup), Err(Error::Rockit { code: -7 })));
    assert!(setup.cleanup_calls().is_empty());
}

#[test]
fn camera_encoder_lets_go_of_camera_when_channel_fails() {
    let mpi = sys(limits());
    let mut setup = CameraEncoderSetup::new(&mpi, CameraId::Two, 1, &config());
    let made = run(&mut setup, |call| match call {
        MpiCall::ViEnableChn { .. } => -3,
        _ => RK_SUCCESS,
    });
    assert_eq!(made.last(), Some(&MpiCall::ViEnableChn { pipe: 0, chn: 0 }));
    assert!(matches!(CameraEncoder::new(&setup), Err(Error::Rockit { code: -3 })));
    assert_eq!(setup.cleanup_calls(), vec![MpiCall::ViDisableDev { dev: 2 }]);
}

#[test]
fn camera_encoder_lets_go_of_everything_when_bind_fails() {
    let mpi = sys(limits());
    let mut setup = CameraEncoderSetup::new(&mpi, CameraId::One, 2, &config());
    let made = run(&mut setup, |call| match call {
        MpiCall::SysBind { .. } => -9,
        _ => RK_SUCCESS,
    });
    assert_eq!(made.last(), Some(&MpiCall::SysBind { bind: bind(2) }));
    assert!(matches!(CameraEncoder::new(&setup), Err(Error::Rockit { code: -9 })));
    assert_eq!(
        setup.cleanup_calls(),
        vec![
            MpiCall::VencStopRecvFrame { chn: 2 },
            MpiCall::VencDestroyChn { chn: 2 },
            MpiCall::ViDisableChn { pipe: 0, chn: 0 },
            MpiCall::ViDisableDev { dev: 1 },
        ]
    );
}

#[test]
fn camera_encoder_destroys_unstarted_encoder_when_start_fails() {
    let mpi = sys(limits());
    let mut setup = CameraEncoderSetup::new(&mpi, CameraId::Zero, 4, &config());
    run(&mut setup, |call| match call {
        MpiCall::VencStartRecvFrame { .. } => -4,
        _ => RK_SUCCESS,
    });
    assert!(matches!(CameraEncoder::new(&setup), Err(Error::Rockit { code: -4 })));
    assert_eq!(
        setup.cleanup_calls(),
        vec![
            MpiCall::VencDestroyChn { chn: 4 },
            MpiCall::ViDisableChn { pipe: 0, chn: 0 },
            MpiCall::ViDisableDev { dev: 0 },
        ]
    );
}
