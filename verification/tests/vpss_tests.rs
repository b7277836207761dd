use rusty_rockit::call::MpiCall;
use rusty_rockit::mb::MemBufferPool;
use rusty_rockit::vpss::channel_state::Runtime as ChannelRuntime;
use rusty_rockit::vpss::state::{Initialized, Runtime};
use rusty_rockit::vpss::{
    AspectRatio, FrameRateControl, VpssChannelConfig, VpssChnAttr, VpssChnMode, VpssGroup,
    VpssGroupConfig, VpssGrpAttr,
};
use rusty_rockit::{
    CompressMode, DynamicRange, Error, FrameSize, MpiState, PixelFormat, Rect, RockitSys,
    VideoFormat, ViLimits, RK_SUCCESS,
};

fn sys() -> RockitSys {
    let mut state = MpiState::new();
    RockitSys::init(&mut state, RK_SUCCESS, ViLimits { max_dev: 2, max_pipe: 4, max_chn: 5 })
        .ok()
        .unwrap()
}

fn group_cfg() -> VpssGroupConfig {
    VpssGroupConfig {
        pixel_format: PixelFormat::Rgb24,
        max_width: 1920,
        max_height: 1080,
        frame_rate: FrameRateControl { src: 30, dst: 30 },
    }
}

fn channel_cfg() -> VpssChannelConfig {
    VpssChannelConfig {
        pixel_format: PixelFormat::Nv12,
        width: 1280,
        height: 720,
        frame_rate: FrameRateControl { src: 30, dst: 15 },
        mirror: true,
        flip: false,
        queue_size: 1,
        frame_buffer_count: 2,
    }
}

#[test]
fn group_attributes_leave_frame_rate_to_platform() {
    assert_eq!(
        VpssGroup::<Initialized>::create_call(3, &group_cfg()),
        MpiCall::VpssCreateGrp {
            grp: 3,
            grp_attr: VpssGrpAttr {
                max_width: 1920,
                max_height: 1080,
                pixel_format: PixelFormat::Rgb24,
                dynamic_range: DynamicRange::Sdr8,
                src_frame_rate: -1,
                dst_frame_rate: -1,
                compress_mode: CompressMode::Uncompressed,
            },
        }
    );
}

#[test]
fn group_lifecycle() {
    let mpi = sys();
    assert!(matches!(VpssGroup::new(&mpi, 1, 12), Err(Error::Rockit { code: 12 })));
    let g = VpssGroup::new(&mpi, 1, RK_SUCCESS).ok().unwrap();
    assert_eq!(g.id(), 1);
    assert_eq!(g.drop_calls(), vec![MpiCall::VpssDestroyGrp { grp: 1 }]);
    assert_eq!(g.start_call(), MpiCall::VpssStartGrp { grp: 1 });
    assert!(matches!(g.start(3), Err(Error::Rockit { code: 3 })));
    let g = VpssGroup::new(&mpi, 1, RK_SUCCESS).ok().unwrap().start(RK_SUCCESS).ok().unwrap();
    assert_eq!(
        g.drop_calls(),
        vec![MpiCall::VpssStopGrp { grp: 1 }, MpiCall::VpssDestroyGrp { grp: 1 }]
    );
    let pool = MemBufferPool::new(&mpi, 2).ok().unwrap();
    let buf = pool.get_buffer(100, 0x1000).ok().unwrap();
    let frame = buf.new_frame(PixelFormat::Rgb24, 10, 10);
    assert_eq!(
        g.send_frame_call(0, &frame, 100),
        MpiCall::VpssSendFrame { grp: 1, pipe: 0, frame: frame.desc(), timeout_ms: 100 }
    );
}

#[test]
fn channel_lifecycle() {
    let mpi = sys();
    let g = VpssGroup::new(&mpi, 0, RK_SUCCESS).ok().unwrap();
    assert_eq!(
        g.set_channel_call(2, &channel_cfg()),
        MpiCall::VpssSetChnAttr {
            grp: 0,
            chn: 2,
            chn_attr: VpssChnAttr {
                mode: VpssChnMode::User,
                width: 1280,
                height: 720,
                video_format: VideoFormat::Linear,
                pixel_format: PixelFormat::Nv12,
                dynamic_range: DynamicRange::Sdr8,
                compress_mode: CompressMode::Uncompressed,
                src_frame_rate: -1,
                dst_frame_rate: -1,
                mirror: true,
                flip: false,
                depth: 1,
                aspect_ratio: AspectRatio::Unchanged,
                aspect_bg_color: 0,
                aspect_rect: Rect { x: 0, y: 0, width: 0, height: 0 },
                frame_buf_count: 2,
            },
        }
    );
    assert!(matches!(g.set_channel(2, 1), Err(Error::Rockit { code: 1 })));
    let ch = g.set_channel(2, RK_SUCCESS).ok().unwrap();
    assert_eq!(ch.id(), 2);
    assert_eq!(ch.drop_calls(), vec![]);
    assert_eq!(ch.enable_call(), MpiCall::VpssEnableChn { grp: 0, chn: 2 });
    let ch = ch.enable(RK_SUCCESS).ok().unwrap();
    assert_eq!(ch.drop_calls(), vec![MpiCall::VpssDisableChn { grp: 0, chn: 2 }]);
    assert_eq!(ch.get_frame_call(30), MpiCall::VpssGetChnFrame { grp: 0, chn: 2, timeout_ms: 30 });
    {
        let f = ch.get_frame(RK_SUCCESS, FrameSize { width: 1280, height: 720 }).ok().unwrap();
        assert_eq!(f.width(), 1280);
        assert_eq!(f.height(), 720);
        assert_eq!(f.data_len(), 1_382_400);
        assert_eq!(f.data(None), Err(Error::InvalidFramePointer));
        assert_eq!(f.release_call(), MpiCall::VpssReleaseChnFrame { grp: 0, chn: 2 });
        assert!(matches!(
            ch.get_frame(5, FrameSize { width: 1, height: 1 }),
            Err(Error::Rockit { code: 5 })
        ));
    }
    assert_eq!(ch.disable_call(), MpiCall::VpssDisableChn { grp: 0, chn: 2 });
    let ch = ch.disable(RK_SUCCESS).ok().unwrap();
    assert_eq!(ch.drop_calls(), vec![]);
    assert!(matches!(ch.enable(9), Err(Error::Rockit { code: 9 })));
}

#[test]
fn owned_group_and_channel() {
    let mpi = sys();
    let g = VpssGroup::new(&mpi, 5, RK_SUCCESS).ok().unwrap().into_owned();
    assert_eq!(g.id(), 5);
    assert_eq!(g.start_call(), MpiCall::VpssStartGrp { grp: 5 });
    let g = g.start(RK_SUCCESS).ok().unwrap();
    assert_eq!(
        g.drop_calls(),
        vec![MpiCall::VpssStopGrp { grp: 5 }, MpiCall::VpssDestroyGrp { grp: 5 }]
    );
    assert_eq!(
        g.set_channel_call(0, &channel_cfg()),
        MpiCall::VpssSetChnAttr {
            grp: 5,
            chn: 0,
            chn_attr: VpssChnAttr {
                mode: VpssChnMode::User,
                width: 1280,
                height: 720,
                video_format: VideoFormat::Linear,
                pixel_format: PixelFormat::Nv12,
                dynamic_range: DynamicRange::Sdr8,
                compress_mode: CompressMode::Uncompressed,
                src_frame_rate: -1,
                dst_frame_rate: -1,
                mirror: true,
                flip: false,
                depth: 1,
                aspect_ratio: AspectRatio::Unchanged,
                aspect_bg_color: 0,
                aspect_rect: Rect { x: 0, y: 0, width: 0, height: 0 },
                frame_buf_count: 2,
            },
        }
    );
    let ch = g.set_channel(0, RK_SUCCESS).ok().unwrap();
    assert_eq!(ch.id(), 0);
    assert_eq!(ch.enable_call(), MpiCall::VpssEnableChn { grp: 5, chn: 0 });
    let ch = ch.enable(RK_SUCCESS).ok().unwrap();
    assert_eq!(ch.get_frame_call(1), MpiCall::VpssGetChnFrame { grp: 5, chn: 0, timeout_ms: 1 });
    let f = ch.get_frame(RK_SUCCESS, FrameSize { width: 2, height: 2 }).ok().unwrap();
    assert_eq!((f.width(), f.height(), f.data_len()), (2, 2, 6));
    let bytes = [0u8; 6];
    assert_eq!(f.data(Some(&bytes[..])), Ok(&bytes[..]));
    assert_eq!(f.release_call(), MpiCall::VpssReleaseChnFrame { grp: 5, chn: 0 });
    assert!(matches!(ch.get_frame(2, FrameSize { width: 2, height: 2 }), Err(Error::Rockit { code: 2 })));
    assert_eq!(ch.disable_call(), MpiCall::VpssDisableChn { grp: 5, chn: 0 });
    let ch = ch.disable(RK_SUCCESS).ok().unwrap();
    assert_eq!(ch.drop_calls(), vec![]);
    // An owned channel may be enabled in any state.
    let ch = ch.enable(RK_SUCCESS).ok().unwrap();
    let ch = ch.enable(RK_SUCCESS).ok().unwrap();
    assert_eq!(ch.drop_calls(), vec![MpiCall::VpssDisableChn { grp: 5, chn: 0 }]);
    assert!(matches!(ch.disable(4), Err(Error::Rockit { code: 4 })));

    let pool = MemBufferPool::new(&mpi, 2).ok().unwrap().into_owned();
    let buf = pool.get_buffer(100, 0x1000).ok().unwrap();
    let frame = buf.new_frame(PixelFormat::Rgb24, 10, 10);
    assert_eq!(
        g.send_frame_call(1, &frame, 100),
        MpiCall::VpssSendFrame { grp: 5, pipe: 1, frame: frame.desc(), timeout_ms: 100 }
    );
    let _ = (Runtime::Started, ChannelRuntime::Enabled);
}
