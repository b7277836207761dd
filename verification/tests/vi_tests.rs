use rusty_rockit::call::{CallSeq, MpiCall};
use rusty_rockit::vi::{
    open_device, vi_chn_attr, Camera, CameraId, OpenStep, ViAllocBufType, ViMemoryType,
};
use rusty_rockit::{
    CompressMode, DynamicRange, Error, FrameSize, ModId, MppChn, MpiState, PixelFormat, RockitSys,
    VideoFormat, ViLimits, RK_ERR_VI_NOT_CONFIG, RK_SUCCESS,
};

fn sys() -> RockitSys {
    let mut state = MpiState::new();
    RockitSys::init(&mut state, RK_SUCCESS, ViLimits { max_dev: 2, max_pipe: 4, max_chn: 5 })
        .ok()
        .unwrap()
}

fn run_open(open: &mut rusty_rockit::vi::CameraOpen, codes: &[i32]) -> Vec<MpiCall> {
    let mut calls = Vec::new();
    let mut i = 0;
    while let Some(call) = open.next_call() {
        calls.push(call);
        open.record(codes[i]);
        i += 1;
    }
    calls
}

fn run_seq(seq: &mut CallSeq, codes: &[i32]) -> Vec<MpiCall> {
    let mut calls = Vec::new();
    let mut i = 0;
    while let Some(call) = seq.next_call() {
        calls.push(*call);
        seq.record(codes[i]);
        i += 1;
    }
    calls
}

#[test]
fn camera_id_from_number() {
    assert_eq!(CameraId::try_from(0u8), Ok(CameraId::Zero));
    assert_eq!(CameraId::try_from(1u8), Ok(CameraId::One));
    assert_eq!(CameraId::try_from(2u8), Ok(CameraId::Two));
    assert_eq!(CameraId::try_from(3u8), Err(Error::InvalidCameraId { id: 3 }));
    assert_eq!(CameraId::try_from(255u8), Err(Error::InvalidCameraId { id: 255 }));
    assert_eq!(CameraId::default(), CameraId::Zero);
    assert_eq!(CameraId::Two.as_u8(), 2);
    for id in [CameraId::Zero, CameraId::One, CameraId::Two] {
        assert_eq!(CameraId::try_from(id.as_u8()), Ok(id));
    }
}

#[test]
fn device_number_and_pipe_count_are_checked() {
    let mpi = sys();
    assert!(matches!(Camera::open(&mpi, 3, 1), Err(Error::InvalidDevId { id: 3 })));
    assert!(matches!(Camera::open(&mpi, 2, 5), Err(Error::RequestedTooManyPipes { num: 5 })));
    assert!(matches!(
        open_device(0, 0, 1, 1),
        Err(Error::InvalidDevId { id: 1 })
    ));
    let open = Camera::open(&mpi, 2, 4).ok().unwrap();
    assert_eq!(open.step(), OpenStep::GetAttr);
}

#[test]
fn open_configures_and_enables_device_when_needed() {
    let mpi = sys();
    let mut open = Camera::open(&mpi, 1, 2).ok().unwrap();
    let calls = run_open(&mut open, &[RK_ERR_VI_NOT_CONFIG, 0, -1, 0, 0]);
    assert_eq!(
        calls,
        vec![
            MpiCall::ViGetDevAttr { dev: 1 },
            MpiCall::ViSetDevAttr { dev: 1 },
            MpiCall::ViGetDevIsEnable { dev: 1 },
            MpiCall::ViEnableDev { dev: 1 },
            MpiCall::ViSetDevBindPipe { dev: 1, num_pipes: 2 },
        ]
    );
    assert_eq!(open.step(), OpenStep::Opened);
    let cam = Camera::new(&mpi, &open).ok().unwrap();
    assert_eq!(cam.disable_call(), MpiCall::ViDisableDev { dev: 1 });
}

#[test]
fn open_skips_steps_for_configured_enabled_device() {
    let mpi = sys();
    let mut open = Camera::open(&mpi, 0, 1).ok().unwrap();
    // Any answer to the attribute read other than "not configured" goes on.
    let calls = run_open(&mut open, &[-42, RK_SUCCESS, RK_SUCCESS]);
    assert_eq!(
        calls,
        vec![
            MpiCall::ViGetDevAttr { dev: 0 },
            MpiCall::ViGetDevIsEnable { dev: 0 },
            MpiCall::ViSetDevBindPipe { dev: 0, num_pipes: 1 },
        ]
    );
    assert!(Camera::new(&mpi, &open).is_ok());
}

#[test]
fn open_fails_with_code_of_failed_call() {
    let mpi = sys();
    let mut open = Camera::open(&mpi, 0, 1).ok().unwrap();
    let calls = run_open(&mut open, &[RK_SUCCESS, 1, 77]);
    assert_eq!(calls.len(), 3);
    assert_eq!(open.step(), OpenStep::Failed { code: 77 });
    assert!(matches!(Camera::new(&mpi, &open), Err(Error::Rockit { code: 77 })));

    let mut open = Camera::open(&mpi, 0, 1).ok().unwrap();
    run_open(&mut open, &[RK_ERR_VI_NOT_CONFIG, 9]);
    assert!(matches!(Camera::new(&mpi, &open), Err(Error::Rockit { code: 9 })));
}

#[test]
fn pipes_exist_below_the_pipe_count() {
    let mpi = sys();
    let mut open = Camera::open(&mpi, 0, 2).ok().unwrap();
    run_open(&mut open, &[0, 0, 0]);
    let cam = Camera::new(&mpi, &open).ok().unwrap();
    assert_eq!(cam.get_pipe(0).map(|p| p.id()), Some(0));
    assert_eq!(cam.get_pipe(1).map(|p| p.id()), Some(1));
    assert!(cam.get_pipe(2).is_none());
    let owned = cam.into_owned();
    assert_eq!(owned.get_pipe(1).map(|p| p.id()), Some(1));
    assert!(owned.get_pipe(2).is_none());
    assert_eq!(owned.disable_call(), MpiCall::ViDisableDev { dev: 0 });
}

#[test]
fn channel_creation_calls_and_outcome() {
    let mpi = sys();
    let mut open = Camera::open(&mpi, 0, 1).ok().unwrap();
    run_open(&mut open, &[0, 0, 0]);
    let cam = Camera::new(&mpi, &open).ok().unwrap();
    let pipe = cam.get_pipe(0).unwrap();
    assert!(matches!(pipe.create_channel_calls(6, 640, 480), Err(Error::InvalidDevId { id: 6 })));
    let mut seq = pipe.create_channel_calls(5, 640, 480).ok().unwrap();
    let calls = run_seq(&mut seq, &[0, 0]);
    let attr = vi_chn_attr(640, 480, 0);
    assert_eq!(attr.width, 640);
    assert_eq!(attr.height, 480);
    assert_eq!(attr.depth, 0);
    assert_eq!(attr.src_frame_rate, 30);
    assert_eq!(attr.dst_frame_rate, 30);
    assert_eq!(attr.isp_buf_count, 2);
    assert_eq!(attr.pixel_format, PixelFormat::Nv12);
    assert_eq!(attr.dynamic_range, DynamicRange::Sdr8);
    assert_eq!(attr.video_format, VideoFormat::Linear);
    assert_eq!(attr.compress_mode, CompressMode::Uncompressed);
    assert_eq!(attr.alloc_buf_type, ViAllocBufType::Internal);
    assert_eq!(attr.isp_memory_type, ViMemoryType::DmaBuf);
    assert_eq!(attr.share_buf_chn, MppChn { mod_id: ModId::Cmpi, dev_id: 0, chn_id: 0 });
    assert_eq!(
        calls,
        vec![
            MpiCall::ViSetChnAttr { pipe: 0, chn: 5, attr },
            MpiCall::ViEnableChn { pipe: 0, chn: 5 },
        ]
    );
    let chan = pipe.create_channel(5, &seq).ok().unwrap();
    assert_eq!(chan.id(), 5);
    assert_eq!(chan.pipe_id(), 0);
    assert_eq!(chan.disable_call(), MpiCall::ViDisableChn { pipe: 0, chn: 5 });

    let mut seq = pipe.create_channel_calls(1, 640, 480).ok().unwrap();
    let calls = run_seq(&mut seq, &[-3]);
    assert_eq!(calls.len(), 1);
    assert!(matches!(pipe.create_channel(1, &seq), Err(Error::Rockit { code: -3 })));
}

#[test]
fn frames_come_from_pipe_zero_and_go_back_to_channel_pipe() {
    let mpi = sys();
    let mut open = Camera::open(&mpi, 0, 2).ok().unwrap();
    run_open(&mut open, &[0, 0, 0]);
    let cam = Camera::new(&mpi, &open).ok().unwrap();
    let pipe = cam.get_pipe(1).unwrap();
    let mut seq = pipe.create_channel_calls(2, 4, 2).ok().unwrap();
    run_seq(&mut seq, &[0, 0]);
    let chan = pipe.create_channel(2, &seq).ok().unwrap();
    assert_eq!(
        chan.get_frame_call(200),
        MpiCall::ViGetChnFrame { pipe: 0, chn: 2, timeout_ms: 200 }
    );
    assert!(matches!(
        chan.get_frame(5, FrameSize { width: 4, height: 2 }),
        Err(Error::Rockit { code: 5 })
    ));
    let frame = chan.get_frame(0, FrameSize { width: 4, height: 2 }).ok().unwrap();
    assert_eq!(frame.width(), 4);
    assert_eq!(frame.height(), 2);
    assert_eq!(frame.data_len(), 12);
    let bytes = [7u8; 12];
    assert_eq!(frame.data(Some(&bytes[..])), Ok(&bytes[..]));
    assert_eq!(frame.data(None), Err(Error::InvalidFramePointer));
    assert_eq!(frame.release_call(), MpiCall::ViReleaseChnFrame { pipe: 1, chn: 2 });
}

#[test]
fn owned_handles_keep_their_numbers() {
    let mpi = sys();
    let mut open = Camera::open(&mpi, 1, 1).ok().unwrap();
    run_open(&mut open, &[0, 0, 0]);
    let cam = Camera::new(&mpi, &open).ok().unwrap().into_owned();
    let pipe = cam.get_pipe(0).unwrap();
    assert_eq!(pipe.id(), 0);
    let mut seq = pipe.create_channel_calls(3, 16, 16).ok().unwrap();
    run_seq(&mut seq, &[0, 0]);
    let chan = pipe.create_channel(3, &seq).ok().unwrap();
    assert_eq!(chan.id(), 3);
    assert_eq!(chan.pipe_id(), 0);
    assert_eq!(
        chan.get_frame_call(1000),
        MpiCall::ViGetChnFrame { pipe: 0, chn: 3, timeout_ms: 1000 }
    );
    let frame = chan.get_frame(0, FrameSize { width: 16, height: 16 }).ok().unwrap();
    assert_eq!(frame.width(), 16);
    assert_eq!(frame.height(), 16);
    assert_eq!(frame.data_len(), 384);
    assert_eq!(frame.data(None), Err(Error::InvalidFramePointer));
    assert_eq!(frame.release_call(), MpiCall::ViReleaseChnFrame { pipe: 0, chn: 3 });
    assert!(matches!(
        chan.get_frame(1, FrameSize { width: 1, height: 1 }),
        Err(Error::Rockit { code: 1 })
    ));
}
