use rusty_rockit::call::{CallSeq, MpiCall};
use rusty_rockit::mb::MemBufferPool;
use rusty_rockit::venc::state::{Initialized, Runtime};
use rusty_rockit::venc::{
    CbrAttrs, Codec, CodecId, GopMode, H264Profile, H26xRateControl, HevcProfile, Profile, RcAttrs, RcMode,
    StreamFrame, VbrAttrs, VencChannel, VencChnAttr, VencConfig, VencMirror,
};
use rusty_rockit::vi::Camera;
use rusty_rockit::{
    ChannelBind, Error, ModId, MppChn, MpiState, PixelFormat, RockitSys, ViLimits, RK_SUCCESS,
};

fn sys() -> RockitSys {
    let mut state = MpiState::new();
    RockitSys::init(&mut state, RK_SUCCESS, ViLimits { max_dev: 2, max_pipe: 4, max_chn: 5 })
        .ok()
        .unwrap()
}

fn h264_cbr() -> Codec {
    Codec::H264 {
        rate_control: H26xRateControl::Cbr { gop: 30, framerate: 30, bitrate_kbps: 4096 },
        profile: H264Profile::High,
    }
}

fn hevc_vbr() -> Codec {
    Codec::Hevc {
        rate_control: H26xRateControl::Vbr {
            gop: 60,
            framerate: 25,
            bitrate_kbps: 2000,
            max_bitrate_kbps: 3000,
            min_bitrate_kbps: 1000,
        },
        profile: HevcProfile::Main10,
    }
}

#[test]
fn codec_identifiers_modes_and_profiles() {
    assert_eq!(h264_cbr().native_id(), CodecId::Avc);
    assert_eq!(hevc_vbr().native_id(), CodecId::Hevc);
    assert_eq!(h264_cbr().native_rate_control_mode(), RcMode::H264Cbr);
    assert_eq!(hevc_vbr().native_rate_control_mode(), RcMode::H265Vbr);
    assert_eq!(h264_cbr().native_profile(), Profile::H264High);
    assert_eq!(hevc_vbr().native_profile(), Profile::H265Main10);
    let avbr = Codec::H264 {
        rate_control: H26xRateControl::Avbr {
            gop: 10,
            framerate: 15,
            bitrate_kbps: 500,
            max_bitrate_kbps: 800,
            min_bitrate_kbps: 100,
        },
        profile: H264Profile::Baseline,
    };
    assert_eq!(avbr.native_rate_control_mode(), RcMode::H264Avbr);
    assert_eq!(avbr.native_profile(), Profile::H264Baseline);
    let hevc_cbr = Codec::Hevc {
        rate_control: H26xRateControl::Cbr { gop: 1, framerate: 1, bitrate_kbps: 1 },
        profile: HevcProfile::Main,
    };
    assert_eq!(hevc_cbr.native_rate_control_mode(), RcMode::H265Cbr);
    assert_eq!(hevc_cbr.native_profile(), Profile::H265Main);
}

#[test]
fn rate_control_attributes() {
    assert_eq!(
        h264_cbr().native_rate_control_attrs(),
        RcAttrs::H264Cbr(CbrAttrs {
            gop: 30,
            src_frame_rate_num: 30,
            src_frame_rate_den: 1,
            dst_frame_rate_num: 30,
            dst_frame_rate_den: 1,
            bit_rate: 4096,
            stat_time: 0,
        })
    );
    assert_eq!(
        hevc_vbr().native_rate_control_attrs(),
        RcAttrs::H265Vbr(VbrAttrs {
            gop: 60,
            src_frame_rate_num: 25,
            src_frame_rate_den: 1,
            dst_frame_rate_num: 25,
            dst_frame_rate_den: 1,
            bit_rate: 2000,
            max_bit_rate: 3000,
            min_bit_rate: 1000,
            stat_time: 0,
        })
    );
}

#[test]
fn encoder_channel_attributes() {
    let cfg = VencConfig { width: 1920, height: 1080, codec: h264_cbr(), buf_count: 2 };
    let call = VencChannel::<Initialized>::create_call(1, &cfg);
    assert_eq!(
        call,
        MpiCall::VencCreateChn {
            chn: 1,
            venc_attr: VencChnAttr {
                pixel_format: PixelFormat::Nv12,
                gop_mode: GopMode::Init,
                vir_idr_len: 0,
                max_ltr_count: 0,
                tsvc_preload: 0,
                mirror: VencMirror::NoMirror,
                level: 0,
                rc_mode: RcMode::H264Cbr,
                rc: h264_cbr().native_rate_control_attrs(),
                codec: CodecId::Avc,
                profile: Profile::H264High,
                pic_width: 1920,
                pic_height: 1080,
                max_pic_width: 1920,
                max_pic_height: 1080,
                vir_width: 1920,
                vir_height: 1080,
                stream_buf_count: 3,
                buf_size: 3_110_400,
                by_frame: false,
            },
        }
    );
}

#[test]
fn encoder_start_and_stop() {
    let mpi = sys();
    assert!(matches!(VencChannel::new(&mpi, 0, -9), Err(Error::Rockit { code: -9 })));
    let ch = VencChannel::new(&mpi, 2, RK_SUCCESS).ok().unwrap();
    assert_eq!(ch.id(), 2);
    assert_eq!(ch.drop_calls(), vec![MpiCall::VencDestroyChn { chn: 2 }]);
    assert_eq!(ch.start_call(), MpiCall::VencStartRecvFrame { chn: 2, recv_pic_num: -1 });
    assert!(matches!(ch.start(4), Err(Error::Rockit { code: 4 })));

    let ch = VencChannel::new(&mpi, 2, RK_SUCCESS).ok().unwrap();
    let started = ch.start(RK_SUCCESS).ok().unwrap();
    assert_eq!(
        started.drop_calls(),
        vec![MpiCall::VencStopRecvFrame { chn: 2 }, MpiCall::VencDestroyChn { chn: 2 }]
    );
    assert_eq!(started.stop_call(), Some(MpiCall::VencStopRecvFrame { chn: 2 }));
    let stopped = started.stop(RK_SUCCESS).ok().unwrap();
    // The run-time state stays "started": letting the channel go stops it again.
    assert_eq!(
        stopped.drop_calls(),
        vec![MpiCall::VencStopRecvFrame { chn: 2 }, MpiCall::VencDestroyChn { chn: 2 }]
    );
    let restarted = stopped.start(RK_SUCCESS).ok().unwrap();
    assert!(matches!(restarted.stop(8), Err(Error::Rockit { code: 8 })));
}

#[test]
fn encoder_binds_to_video_input_and_streams() {
    let mpi = sys();
    let mut open = Camera::open(&mpi, 0, 2).ok().unwrap();
    while open.next_call().is_some() {
        open.record(RK_SUCCESS);
    }
    let cam = Camera::new(&mpi, &open).ok().unwrap();
    let pipe = cam.get_pipe(1).unwrap();
    let mut seq: CallSeq = pipe.create_channel_calls(3, 64, 64).ok().unwrap();
    seq.record(RK_SUCCESS);
    seq.record(RK_SUCCESS);
    let vi = pipe.create_channel(3, &seq).ok().unwrap();

    let enc = VencChannel::new(&mpi, 0, RK_SUCCESS).ok().unwrap().start(RK_SUCCESS).ok().unwrap();
    let expected = ChannelBind {
        src_channel: MppChn { mod_id: ModId::Vi, dev_id: 1, chn_id: 3 },
        dst_channel: MppChn { mod_id: ModId::Venc, dev_id: 0, chn_id: 0 },
    };
    assert_eq!(enc.bind_call(&vi), MpiCall::SysBind { bind: expected });
    assert!(matches!(enc.bind(&vi, 2), Err(Error::Rockit { code: 2 })));
    let bind = enc.bind(&vi, RK_SUCCESS).ok().unwrap();
    assert_eq!(bind.bind(), expected);
    let mut frame = bind.alloc_frame();
    assert_eq!(frame.packet_len(), 0);

    assert_eq!(enc.get_stream_call(100), MpiCall::VencGetStream { chn: 0, timeout_ms: 100 });
    assert!(matches!(enc.get_stream(&mut frame, 6, 10), Err(Error::Rockit { code: 6 })));
    let stream = enc.get_stream(&mut frame, RK_SUCCESS, 5).ok().unwrap();
    assert_eq!(stream.packet_len(), 5);
    let bytes = [9u8; 5];
    assert_eq!(stream.data(Some(&bytes[..])), Ok(&bytes[..]));
    assert_eq!(stream.data(None), Err(Error::InvalidFramePointer));
    assert_eq!(stream.release_call(), MpiCall::VencReleaseStream { chn: 0 });
    drop(stream);
    assert_eq!(frame.packet_len(), 5);

    let pool = MemBufferPool::new(&mpi, 1).ok().unwrap();
    let buf = pool.get_buffer(6144, 0x10).ok().unwrap();
    let mb_frame = buf.new_frame(PixelFormat::Nv12, 64, 64);
    assert_eq!(
        enc.send_frame_call(&mb_frame, 50),
        MpiCall::VencSendFrame { chn: 0, frame: mb_frame.desc(), timeout_ms: 50 }
    );
}

#[test]
fn owned_encoder_channel() {
    let mpi = sys();
    let ch = VencChannel::new(&mpi, 4, RK_SUCCESS).ok().unwrap().into_owned();
    assert_eq!(ch.id(), 4);
    assert_eq!(ch.start_call(), MpiCall::VencStartRecvFrame { chn: 4, recv_pic_num: -1 });
    let enc = ch.start(RK_SUCCESS).ok().unwrap();
    assert_eq!(
        enc.drop_calls(),
        vec![MpiCall::VencStopRecvFrame { chn: 4 }, MpiCall::VencDestroyChn { chn: 4 }]
    );

    let mut open = Camera::open(&mpi, 1, 1).ok().unwrap();
    while open.next_call().is_some() {
        open.record(RK_SUCCESS);
    }
    let cam = Camera::new(&mpi, &open).ok().unwrap().into_owned();
    let pipe = cam.get_pipe(0).unwrap();
    let mut seq = pipe.create_channel_calls(2, 32, 32).ok().unwrap();
    seq.record(RK_SUCCESS);
    seq.record(RK_SUCCESS);
    let vi = pipe.create_channel(2, &seq).ok().unwrap();
    let bind = enc.bind(&vi, RK_SUCCESS).ok().unwrap();
    assert_eq!(
        bind.bind(),
        ChannelBind {
            src_channel: MppChn { mod_id: ModId::Vi, dev_id: 0, chn_id: 2 },
            dst_channel: MppChn { mod_id: ModId::Venc, dev_id: 0, chn_id: 4 },
        }
    );
    assert_eq!(enc.bind_call(&vi), MpiCall::SysBind { bind: bind.bind() });

    let mut frame = StreamFrame::new();
    assert_eq!(enc.get_stream_call(7), MpiCall::VencGetStream { chn: 4, timeout_ms: 7 });
    let stream = enc.get_stream(&mut frame, RK_SUCCESS, 3).ok().unwrap();
    assert_eq!(stream.packet_len(), 3);
    assert_eq!(stream.release_call(), MpiCall::VencReleaseStream { chn: 4 });
    assert_eq!(stream.data(None), Err(Error::InvalidFramePointer));
    drop(stream);

    let pool = MemBufferPool::new(&mpi, 1).ok().unwrap().into_owned();
    let buf = pool.get_buffer(1536, 0x20).ok().unwrap();
    let mb_frame = buf.new_frame(PixelFormat::Nv12, 32, 32);
    assert_eq!(
        enc.send_frame_call(&mb_frame, 10),
        MpiCall::VencSendFrame { chn: 4, frame: mb_frame.desc(), timeout_ms: 10 }
    );
    let _ = Runtime::Started;
}

#[test]
fn encoder_keeps_its_number_through_starts_and_stops() {
    let mpi = sys();
    let ch = VencChannel::new(&mpi, 5, RK_SUCCESS).ok().unwrap();
    let ch = ch.start(RK_SUCCESS).ok().unwrap();
    assert_eq!(ch.id(), 5);
    let ch = ch.stop(RK_SUCCESS).ok().unwrap();
    assert_eq!(ch.id(), 5);
    let ch = ch.start(RK_SUCCESS).ok().unwrap();
    let ch = ch.stop(RK_SUCCESS).ok().unwrap();
    let owned = ch.into_owned();
    assert_eq!(owned.id(), 5);
    let started = owned.start(RK_SUCCESS).ok().unwrap();
    assert_eq!(started.id(), 5);
}
