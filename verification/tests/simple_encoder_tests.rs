use rusty_rockit::call::MpiCall;
use rusty_rockit::encoder::{EncodeStep, SimpleEncoder, SimpleEncoderSetup, SimpleEncoderStep};
use rusty_rockit::mb::{MemBufferPool, MB_INVALID_POOLID};
use rusty_rockit::venc::{venc_chn_attr, Codec, H264Profile, H26xRateControl, VencConfig};
use rusty_rockit::mb::frame_desc;
use rusty_rockit::vpss::{AspectRatio, VpssChnAttr, VpssChnMode, VpssGrpAttr};
use rusty_rockit::{
    ChannelBind, CompressMode, DynamicRange, Error, ModId, MppChn, MpiState, PixelFormat, Rect,
    RockitSys, VideoFormat, ViLimits, RK_SUCCESS,
};

fn sys() -> RockitSys {
    let mut state = MpiState::new();
    RockitSys::init(&mut state, RK_SUCCESS, ViLimits { max_dev: 2, max_pipe: 4, max_chn: 5 })
        .ok()
        .unwrap()
}

fn config() -> VencConfig {
    VencConfig {
        width: 640,
        height: 480,
        codec: Codec::H264 {
            rate_control: H26xRateControl::Cbr { gop: 30, framerate: 30, bitrate_kbps: 1024 },
            profile: H264Profile::High,
        },
        buf_count: 2,
    }
}

const NV12_SIZE: u32 = 640 * 480 * 3 / 2;
const RGB_SIZE: u32 = 640 * 480 * 3;
const POOL: u32 = 7;

/// Runs the set-up; the pool's creation answers `pool`, every other call
/// the code `answer` gives it. Returns the calls made.
fn run(setup: &mut SimpleEncoderSetup, pool: u32, answer: impl Fn(&MpiCall) -> i32) -> Vec<MpiCall> {
    let mut made = Vec::new();
    while let Some(call) = setup.next_call() {
        made.push(call);
        if setup.step() == SimpleEncoderStep::CreatePool {
            setup.record_pool(pool);
        } else {
            setup.record(answer(&call));
        }
    }
    made
}

#[test]
fn simple_encoder_feeds_nv12_frames_to_the_encoder() {
    let mpi = sys();
    let cfg = config();
    let mut setup = SimpleEncoderSetup::new(&mpi, 1, 0, &cfg, PixelFormat::Nv12, NV12_SIZE);
    let made = run(&mut setup, POOL, |_| RK_SUCCESS);
    assert_eq!(
        made,
        vec![
            MpiCall::VencCreateChn { chn: 1, venc_attr: venc_chn_attr(&cfg) },
            MpiCall::VencStartRecvFrame { chn: 1, recv_pic_num: -1 },
            MemBufferPool::create_call(NV12_SIZE),
        ]
    );
    let mut enc = SimpleEncoder::new(&setup).ok().unwrap();
    assert_eq!(enc.frame_buf_size(), NV12_SIZE as usize);
    let mut encode = enc.encode_steps(50);
    assert_eq!(
        encode.next_call(),
        Some(MpiCall::MbGetMb { pool: POOL, size: NV12_SIZE as u64, cached: true })
    );
    encode.record_buffer(0x51, true);
    assert_eq!(encode.step(), EncodeStep::Fill);
    assert_eq!(encode.next_call(), None);
    let input: Vec<u8> = (0..NV12_SIZE).map(|i| (i % 251) as u8).collect();
    let mut mapped = vec![0u8; NV12_SIZE as usize];
    encode.fill(&mut mapped[..], &input[..]);
    assert_eq!(mapped, input);
    assert_eq!(
        encode.next_call(),
        Some(MpiCall::VencSendFrame { chn: 1, frame: frame_desc(0x51, PixelFormat::Nv12, 640, 480), timeout_ms: 50 })
    );
    encode.record(RK_SUCCESS);
    assert_eq!(encode.next_call(), Some(MpiCall::VencGetStream { chn: 1, timeout_ms: 50 }));
    encode.record(RK_SUCCESS);
    assert_eq!(encode.step(), EncodeStep::Done);
    assert_eq!(encode.next_call(), None);
    assert_eq!(encode.release_calls(), vec![MpiCall::MbReleaseMb { buffer: 0x51 }]);
    let stream = enc.encode_frame(&encode, 321).ok().unwrap();
    assert_eq!(stream.packet_len(), 321);
    assert_eq!(stream.release_call(), MpiCall::VencReleaseStream { chn: 1 });
    drop(stream);
    assert_eq!(
        enc.drop_calls(),
        vec![
            MpiCall::VencStopRecvFrame { chn: 1 },
            MpiCall::VencDestroyChn { chn: 1 },
            MpiCall::MbDestroyPool { pool: POOL },
        ]
    );
}

#[test]
fn simple_encoder_converts_other_frames_through_a_group() {
    let mpi = sys();
    let cfg = config();
    let mut setup = SimpleEncoderSetup::new(&mpi, 2, 3, &cfg, PixelFormat::Rgb24, RGB_SIZE);
    let made = run(&mut setup, POOL, |_| RK_SUCCESS);
    assert_eq!(
        made[3..].to_vec(),
        vec![
            MpiCall::VpssCreateGrp {
                grp: 3,
                grp_attr: VpssGrpAttr {
                    max_width: 640,
                    max_height: 480,
                    pixel_format: PixelFormat::Rgb24,
                    dynamic_range: DynamicRange::Sdr8,
                    src_frame_rate: -1,
                    dst_frame_rate: -1,
                    compress_mode: CompressMode::Uncompressed,
                },
            },
            MpiCall::VpssStartGrp { grp: 3 },
            MpiCall::VpssSetChnAttr {
                grp: 3,
                chn: 0,
                chn_attr: VpssChnAttr {
                    mode: VpssChnMode::User,
                    width: 640,
                    height: 480,
                    video_format: VideoFormat::Linear,
                    pixel_format: PixelFormat::Nv12,
                    dynamic_range: DynamicRange::Sdr8,
                    compress_mode: CompressMode::Uncompressed,
                    src_frame_rate: -1,
                    dst_frame_rate: -1,
                    mirror: false,
                    flip: false,
                    depth: 0,
                    aspect_ratio: AspectRatio::Unchanged,
                    aspect_bg_color: 0,
                    aspect_rect: Rect { x: 0, y: 0, width: 0, height: 0 },
                    frame_buf_count: 2,
                },
            },
            MpiCall::VpssEnableChn { grp: 3, chn: 0 },
            MpiCall::SysBind {
                bind: ChannelBind {
                    src_channel: MppChn { mod_id: ModId::Vpss, dev_id: 3, chn_id: 0 },
                    dst_channel: MppChn { mod_id: ModId::Venc, dev_id: 0, chn_id: 2 },
                },
            },
        ]
    );
    let mut enc = SimpleEncoder::new(&setup).ok().unwrap();
    let mut encode = enc.encode_steps(20);
    encode.record_buffer(0x52, true);
    let input = vec![3u8; RGB_SIZE as usize];
    let mut mapped = vec![0u8; RGB_SIZE as usize];
    encode.fill(&mut mapped[..], &input[..]);
    assert_eq!(
        encode.next_call(),
        Some(MpiCall::VpssSendFrame {
            grp: 3,
            pipe: 0,
            frame: frame_desc(0x52, PixelFormat::Rgb24, 640, 480),
            timeout_ms: 20,
        })
    );
    encode.record(RK_SUCCESS);
    encode.record(-6);
    assert_eq!(encode.step(), EncodeStep::Failed { err: Error::Rockit { code: -6 } });
    assert_eq!(encode.release_calls(), vec![MpiCall::MbReleaseMb { buffer: 0x52 }]);
    assert!(matches!(enc.encode_frame(&encode, 0), Err(Error::Rockit { code: -6 })));
    assert_eq!(
        enc.drop_calls(),
        vec![
            MpiCall::VencStopRecvFrame { chn: 2 },
            MpiCall::VencDestroyChn { chn: 2 },
            MpiCall::VpssDisableChn { grp: 3, chn: 0 },
            MpiCall::VpssStopGrp { grp: 3 },
            MpiCall::VpssDestroyGrp { grp: 3 },
            MpiCall::MbDestroyPool { pool: POOL },
        ]
    );
}

#[test]
fn simple_encoder_reports_missing_pool_and_lets_encoder_go() {
    let mpi = sys();
    let mut setup = SimpleEncoderSetup::new(&mpi, 0, 0, &config(), PixelFormat::Rgb24, RGB_SIZE);
    let made = run(&mut setup, MB_INVALID_POOLID, |_| RK_SUCCESS);
    assert_eq!(made.len(), 3);
    assert!(matches!(SimpleEncoder::new(&setup), Err(Error::CreatePool)));
    assert_eq!(
        setup.cleanup_calls(),
        vec![MpiCall::VencStopRecvFrame { chn: 0 }, MpiCall::VencDestroyChn { chn: 0 }]
    );
}

#[test]
fn simple_encoder_lets_everything_go_when_bind_fails() {
    let mpi = sys();
    let mut setup = SimpleEncoderSetup::new(&mpi, 1, 2, &config(), PixelFormat::Rgb24, RGB_SIZE);
    run(&mut setup, POOL, |call| match call {
        MpiCall::SysBind { .. } => -2,
        _ => RK_SUCCESS,
    });
    assert!(matches!(SimpleEncoder::new(&setup), Err(Error::Rockit { code: -2 })));
    assert_eq!(
        setup.cleanup_calls(),
        vec![
            MpiCall::VpssDisableChn { grp: 2, chn: 0 },
            MpiCall::VpssStopGrp { grp: 2 },
            MpiCall::VpssDestroyGrp { grp: 2 },
            MpiCall::MbDestroyPool { pool: POOL },
            MpiCall::VencStopRecvFrame { chn: 1 },
            MpiCall::VencDestroyChn { chn: 1 },
        ]
    );
}

#[test]
fn simple_encoder_stops_at_failed_encoder_creation() {
    let mpi = sys();
    let mut setup = SimpleEncoderSetup::new(&mpi, 1, 2, &config(), PixelFormat::Nv12, NV12_SIZE);
    let made = run(&mut setup, POOL, |_| -11);
    assert_eq!(made.len(), 1);
    assert!(matches!(SimpleEncoder::new(&setup), Err(Error::Rockit { code: -11 })));
    assert!(setup.cleanup_calls().is_empty());
}

#[test]
fn simple_encoder_reports_buffer_errors() {
    let mpi = sys();
    let mut setup = SimpleEncoderSetup::new(&mpi, 1, 0, &config(), PixelFormat::Nv12, NV12_SIZE);
    run(&mut setup, POOL, |_| RK_SUCCESS);
    let mut enc = SimpleEncoder::new(&setup).ok().unwrap();

    let mut encode = enc.encode_steps(10);
    encode.record_buffer(0, false);
    assert_eq!(encode.next_call(), None);
    assert!(encode.release_calls().is_empty());
    assert!(matches!(enc.encode_frame(&encode, 0), Err(Error::GetBuffer)));

    let mut encode = enc.encode_steps(10);
    encode.record_buffer(0x60, false);
    assert_eq!(encode.next_call(), None);
    assert_eq!(encode.release_calls(), vec![MpiCall::MbReleaseMb { buffer: 0x60 }]);
    assert!(matches!(enc.encode_frame(&encode, 0), Err(Error::InvalidFramePointer)));
}
