//! Video processing groups, their channels, and the frames taken from them.

pub mod channel_state;
pub mod state;

use crate::call::MpiCall;
use crate::mb::{MbFrame, MbFrameInner, MbFrameOwned, VideoFrameDesc};
use crate::{
    frame_data_len, mapped_data, rk_check_err, spec_check, spec_frame_data_len, spec_timeout_arg,
    timeout_arg, CompressMode, DynamicRange, Error, FrameSize, PixelFormat, Rect, RockitSys,
    VideoFormat, RK_SUCCESS,
};
use core::marker::PhantomData;
use vstd::prelude::*;

verus! {

/// What a processing group is created for.
#[derive(Debug, Clone, Copy)]
pub struct VpssGroupConfig {
    pub pixel_format: PixelFormat,
    pub max_width: u16,
    pub max_height: u16,
    pub frame_rate: FrameRateControl,
}

/// What a processing channel produces.
#[derive(Debug, Clone, Copy)]
pub struct VpssChannelConfig {
    pub pixel_format: PixelFormat,
    pub width: u16,
    pub height: u16,
    pub frame_rate: FrameRateControl,
    pub mirror: bool,
    pub flip: bool,
    pub queue_size: u8,
    pub frame_buffer_count: u8,
}

/// Source and destination frame rates.
#[derive(Debug, Clone, Copy)]
pub struct FrameRateControl {
    pub src: u8,
    pub dst: u8,
}

/// The attributes a group is created with (see `grp_attr_of`).
#[derive(Clone, Copy, Debug, PartialEq, Eq, Structural)]
pub struct VpssGrpAttr {
    pub max_width: u32,
    pub max_height: u32,
    pub pixel_format: PixelFormat,
    pub dynamic_range: DynamicRange,
    pub src_frame_rate: i32,
    pub dst_frame_rate: i32,
    pub compress_mode: CompressMode,
}

/// How a processing channel hands its frames out.
#[derive(Clone, Copy, Debug, PartialEq, Eq, Structural)]
pub enum VpssChnMode {
    /// To the user, who takes them.
    User,
}

/// How a processing channel fits a picture of another aspect ratio.
#[derive(Clone, Copy, Debug, PartialEq, Eq, Structural)]
pub enum AspectRatio {
    /// It does not: the picture is scaled as it is.
    Unchanged,
}

/// The attributes a channel is set with (see `chn_attr_of`).
#[derive(Clone, Copy, Debug, PartialEq, Eq, Structural)]
pub struct VpssChnAttr {
    pub mode: VpssChnMode,
    pub width: u32,
    pub height: u32,
    pub video_format: VideoFormat,
    pub pixel_format: PixelFormat,
    pub dynamic_range: DynamicRange,
    pub compress_mode: CompressMode,
    pub src_frame_rate: i32,
    pub dst_frame_rate: i32,
    pub mirror: bool,
    pub flip: bool,
    pub depth: u32,
    pub aspect_ratio: AspectRatio,
    pub aspect_bg_color: u32,
    pub aspect_rect: Rect,
    pub frame_buf_count: u32,
}

/// The attributes of a group that takes pictures of at most `max_width`
/// by `max_height` in `pixel_format`: 8-bit standard range, uncompressed,
/// at the frame rate the platform picks (-1).
pub open spec fn grp_attr_of(pixel_format: PixelFormat, max_width: u16, max_height: u16) -> VpssGrpAttr {
    VpssGrpAttr {
        max_width: max_width as u32,
        max_height: max_height as u32,
        pixel_format,
        dynamic_range: DynamicRange::Sdr8,
        src_frame_rate: -1i32,
        dst_frame_rate: -1i32,
        compress_mode: CompressMode::Uncompressed,
    }
}

/// The attributes of a group (see `grp_attr_of`).
pub fn make_grp_attr(pixel_format: PixelFormat, max_width: u16, max_height: u16) -> (r: VpssGrpAttr)
    ensures
        r == grp_attr_of(pixel_format, max_width, max_height),
{
    VpssGrpAttr {
        max_width: max_width as u32,
        max_height: max_height as u32,
        pixel_format,
        dynamic_range: DynamicRange::Sdr8,
        src_frame_rate: -1,
        dst_frame_rate: -1,
        compress_mode: CompressMode::Uncompressed,
    }
}

/// The attributes of a channel that hands the user pictures of `width` by
/// `height` in `pixel_format`, mirrored and flipped as asked, keeping
/// `queue_size` frames for the user in `frame_buffer_count` buffers:
/// linear, 8-bit standard range, uncompressed, at the frame rate the
/// platform picks (-1), without fitting the aspect ratio.
pub open spec fn chn_attr_of(
    pixel_format: PixelFormat,
    width: u16,
    height: u16,
    mirror: bool,
    flip: bool,
    queue_size: u8,
    frame_buffer_count: u8,
) -> VpssChnAttr {
    VpssChnAttr {
        mode: VpssChnMode::User,
        width: width as u32,
        height: height as u32,
        video_format: VideoFormat::Linear,
        pixel_format,
        dynamic_range: DynamicRange::Sdr8,
        compress_mode: CompressMode::Uncompressed,
        src_frame_rate: -1i32,
        dst_frame_rate: -1i32,
        mirror,
        flip,
        depth: queue_size as u32,
        aspect_ratio: AspectRatio::Unchanged,
        aspect_bg_color: 0,
        aspect_rect: Rect { x: 0, y: 0, width: 0, height: 0 },
        frame_buf_count: frame_buffer_count as u32,
    }
}

/// The attributes of a channel (see `chn_attr_of`).
pub fn make_chn_attr(
    pixel_format: PixelFormat,
    width: u16,
    height: u16,
    mirror: bool,
    flip: bool,
    queue_size: u8,
    frame_buffer_count: u8,
) -> (r: VpssChnAttr)
    ensures
        r == chn_attr_of(pixel_format, width, height, mirror, flip, queue_size, frame_buffer_count),
{
    VpssChnAttr {
        mode: VpssChnMode::User,
        width: width as u32,
        height: height as u32,
        video_format: VideoFormat::Linear,
        pixel_format,
        dynamic_range: DynamicRange::Sdr8,
        compress_mode: CompressMode::Uncompressed,
        src_frame_rate: -1,
        dst_frame_rate: -1,
        mirror,
        flip,
        depth: queue_size as u32,
        aspect_ratio: AspectRatio::Unchanged,
        aspect_bg_color: 0,
        aspect_rect: Rect { x: 0, y: 0, width: 0, height: 0 },
        frame_buf_count: frame_buffer_count as u32,
    }
}

/// The group attributes for `cfg`: its largest picture and pixel format;
/// the frame rate is left to the platform, whatever `cfg` says.
pub open spec fn spec_grp_attr(cfg: VpssGroupConfig) -> VpssGrpAttr {
    grp_attr_of(cfg.pixel_format, cfg.max_width, cfg.max_height)
}

/// The channel attributes for `cfg`: its picture, pixel format, mirroring,
/// flipping, user queue depth and frame buffer count; the frame rate is
/// left to the platform, whatever `cfg` says.
pub open spec fn spec_chn_attr(cfg: VpssChannelConfig) -> VpssChnAttr {
    chn_attr_of(
        cfg.pixel_format,
        cfg.width,
        cfg.height,
        cfg.mirror,
        cfg.flip,
        cfg.queue_size,
        cfg.frame_buffer_count,
    )
}

/// A processing group is created for the configured picture: its largest
/// size is the configured largest width and height, its pixel format the
/// configured one; 8-bit standard range, uncompressed, at the platform's
/// frame rate (-1).
pub proof fn lemma_grp_attr_of_config(cfg: VpssGroupConfig)
    ensures
        spec_grp_attr(cfg).max_width == cfg.max_width,
        spec_grp_attr(cfg).max_height == cfg.max_height,
        spec_grp_attr(cfg).pixel_format == cfg.pixel_format,
        spec_grp_attr(cfg).dynamic_range == DynamicRange::Sdr8,
        spec_grp_attr(cfg).compress_mode == CompressMode::Uncompressed,
        spec_grp_attr(cfg).src_frame_rate == -1,
        spec_grp_attr(cfg).dst_frame_rate == -1,
{
}

/// A processing channel is set up as configured: its picture size and
/// pixel format, mirroring and flipping (each as asked, independently of
/// the other), the frames it keeps for the user and its frame buffer count
/// are the configured ones; it hands frames to the user, linear, 8-bit
/// standard range, uncompressed, at the platform's frame rate (-1),
/// without fitting the aspect ratio.
pub proof fn lemma_chn_attr_of_config(cfg: VpssChannelConfig)
    ensures
        spec_chn_attr(cfg).width == cfg.width,
        spec_chn_attr(cfg).height == cfg.height,
        spec_chn_attr(cfg).pixel_format == cfg.pixel_format,
        spec_chn_attr(cfg).mirror == cfg.mirror,
        spec_chn_attr(cfg).flip == cfg.flip,
        spec_chn_attr(cfg).depth == cfg.queue_size,
        spec_chn_attr(cfg).frame_buf_count == cfg.frame_buffer_count,
        spec_chn_attr(cfg).mode == VpssChnMode::User,
        spec_chn_attr(cfg).video_format == VideoFormat::Linear,
        spec_chn_attr(cfg).dynamic_range == DynamicRange::Sdr8,
        spec_chn_attr(cfg).compress_mode == CompressMode::Uncompressed,
        spec_chn_attr(cfg).src_frame_rate == -1,
        spec_chn_attr(cfg).dst_frame_rate == -1,
        spec_chn_attr(cfg).aspect_ratio == AspectRatio::Unchanged,
{
}

/// The same holds of the channel attributes made from their parts: each
/// part lands in its own place.
pub proof fn lemma_chn_attr_parts(
    pixel_format: PixelFormat,
    width: u16,
    height: u16,
    mirror: bool,
    flip: bool,
    queue_size: u8,
    frame_buffer_count: u8,
)
    ensures
        chn_attr_of(pixel_format, width, height, mirror, flip, queue_size, frame_buffer_count).width
            == width,
        chn_attr_of(pixel_format, width, height, mirror, flip, queue_size, frame_buffer_count).height
            == height,
        chn_attr_of(
            pixel_format,
            width,
            height,
            mirror,
            flip,
            queue_size,
            frame_buffer_count,
        ).pixel_format == pixel_format,
        chn_attr_of(pixel_format, width, height, mirror, flip, queue_size, frame_buffer_count).mirror
            == mirror,
        chn_attr_of(pixel_format, width, height, mirror, flip, queue_size, frame_buffer_count).flip
            == flip,
        chn_attr_of(pixel_format, width, height, mirror, flip, queue_size, frame_buffer_count).depth
            == queue_size,
        chn_attr_of(
            pixel_format,
            width,
            height,
            mirror,
            flip,
            queue_size,
            frame_buffer_count,
        ).frame_buf_count == frame_buffer_count,
        grp_attr_of(pixel_format, width, height).max_width == width,
        grp_attr_of(pixel_format, width, height).max_height == height,
        grp_attr_of(pixel_format, width, height).pixel_format == pixel_format,
{
}

/// The calls that let a group go: a started group is stopped first; then
/// it is destroyed.
pub open spec fn spec_group_drop_calls(id: i32, state: state::Runtime) -> Seq<MpiCall> {
    if state == state::Runtime::Started {
        seq![MpiCall::VpssStopGrp { grp: id }, MpiCall::VpssDestroyGrp { grp: id }]
    } else {
        seq![MpiCall::VpssDestroyGrp { grp: id }]
    }
}

/// A group is destroyed exactly once when let go, as its last call; a
/// started group is stopped first, and only a started one. A channel is
/// disabled when let go exactly when it is enabled, and then with that one
/// call.
pub proof fn lemma_vpss_drop_order(group: i32, id: i32, gstate: state::Runtime, cstate: channel_state::Runtime)
    ensures
        spec_group_drop_calls(group, gstate).len() > 0,
        spec_group_drop_calls(group, gstate).last() == (MpiCall::VpssDestroyGrp { grp: group }),
        (gstate == state::Runtime::Started) <==> spec_group_drop_calls(group, gstate).len() == 2,
        gstate == state::Runtime::Started ==> spec_group_drop_calls(group, gstate)[0] == (
        MpiCall::VpssStopGrp { grp: group }),
        spec_group_drop_calls(group, gstate).len() <= 2,
        (cstate == channel_state::Runtime::Enabled) ==> spec_channel_drop_calls(group, id, cstate)
            == seq![MpiCall::VpssDisableChn { grp: group, chn: id }],
        (cstate != channel_state::Runtime::Enabled) ==> spec_channel_drop_calls(group, id, cstate).len()
            == 0,
{
}

/// What a group is: its number and whether it is started.
#[derive(Clone, Copy)]
pub struct VpssGroupInner {
    id: i32,
    state: state::Runtime,
}

impl VpssGroupInner {
    /// The group number.
    pub closed spec fn spec_id(&self) -> i32 {
        self.id
    }

    /// Whether the group is started.
    pub closed spec fn spec_state(&self) -> state::Runtime {
        self.state
    }

    fn create_call(id: i32, cfg: &VpssGroupConfig) -> (r: MpiCall)
        ensures
            r == (MpiCall::VpssCreateGrp { grp: id, grp_attr: spec_grp_attr(*cfg) }),
    {
        let attrs = make_grp_attr(cfg.pixel_format, cfg.max_width, cfg.max_height);
        MpiCall::VpssCreateGrp { grp: id, grp_attr: attrs }
    }

    fn new(id: i32, code: i32) -> (r: Result<Self, Error>)
        ensures
            code == RK_SUCCESS ==> (r matches Ok(g) && g.id == id && g.state
                == state::Runtime::Initialized),
            code != RK_SUCCESS ==> r == Err::<Self, Error>(Error::Rockit { code }),
    {
        rk_check_err(code)?;
        Ok(Self { id, state: state::Runtime::Initialized })
    }

    fn set_channel_call(&self, channel_id: i32, cfg: &VpssChannelConfig) -> (r: MpiCall)
        ensures
            r == (MpiCall::VpssSetChnAttr { grp: self.id, chn: channel_id, chn_attr: spec_chn_attr(*cfg) }),
    {
        let channel_attrs = make_chn_attr(
            cfg.pixel_format,
            cfg.width,
            cfg.height,
            cfg.mirror,
            cfg.flip,
            cfg.queue_size,
            cfg.frame_buffer_count,
        );
        MpiCall::VpssSetChnAttr { grp: self.id, chn: channel_id, chn_attr: channel_attrs }
    }

    fn set_channel(&self, channel_id: i32, code: i32) -> (r: Result<VpssChannelInner, Error>)
        ensures
            code == RK_SUCCESS ==> (r matches Ok(c) && c.id == channel_id && c.group_id == self.id
                && c.state == channel_state::Runtime::Disabled),
            code != RK_SUCCESS ==> r == Err::<VpssChannelInner, Error>(Error::Rockit { code }),
    {
        rk_check_err(code)?;
        Ok(
            VpssChannelInner {
                id: channel_id,
                group_id: self.id,
                state: channel_state::Runtime::Disabled,
            },
        )
    }

    fn start_call(&self) -> (r: MpiCall)
        ensures
            r == (MpiCall::VpssStartGrp { grp: self.id }),
    {
        MpiCall::VpssStartGrp { grp: self.id }
    }

    fn start(&mut self, code: i32) -> (r: Result<(), Error>)
        ensures
            r == spec_check(code),
            final(self).id == old(self).id,
            code == RK_SUCCESS ==> final(self).state == state::Runtime::Started,
            code != RK_SUCCESS ==> final(self).state == old(self).state,
    {
        rk_check_err(code)?;
        self.state = state::Runtime::Started;
        Ok(())
    }

    fn send_frame_call(&self, pipe_id: i32, frame: &MbFrameInner, timeout_ms: u128) -> (r: MpiCall)
        ensures
            r == (MpiCall::VpssSendFrame {
                grp: self.id,
                pipe: pipe_id,
                frame: frame.frame,
                timeout_ms: spec_timeout_arg(timeout_ms),
            }),
    {
        MpiCall::VpssSendFrame {
            grp: self.id,
            pipe: pipe_id,
            frame: *frame.frame(),
            timeout_ms: timeout_arg(timeout_ms),
        }
    }

    /// The calls that let the group go.
    pub fn drop_calls(&self) -> (r: Vec<MpiCall>)
        ensures
            r@ == spec_group_drop_calls(self.spec_id(), self.spec_state()),
    {
        let mut calls: Vec<MpiCall> = Vec::new();
        if self.state == state::Runtime::Started {
            calls.push(MpiCall::VpssStopGrp { grp: self.id });
        }
        calls.push(MpiCall::VpssDestroyGrp { grp: self.id });
        proof {
            assert(calls@ =~= spec_group_drop_calls(self.id, self.state));
        }
        calls
    }
}

/// A processing group in state `S`.
pub struct VpssGroup<'a, S> {
    inner: VpssGroupInner,
    mpi: &'a RockitSys,
    _marker: PhantomData<S>,
}

impl<'a, S> VpssGroup<'a, S> {
    /// The group number.
    pub closed spec fn spec_id(&self) -> i32 {
        self.inner.id
    }

    /// Whether the group is started, at run time.
    pub closed spec fn spec_state(&self) -> state::Runtime {
        self.inner.state
    }

    /// The group number.
    pub fn id(&self) -> (r: i32)
        ensures
            r == self.spec_id(),
    {
        self.inner.id
    }

    /// The call that sets channel `channel_id` of the group up for `cfg`.
    pub fn set_channel_call(&self, channel_id: u8, cfg: &VpssChannelConfig) -> (r: MpiCall)
        ensures
            r == (MpiCall::VpssSetChnAttr {
                grp: self.spec_id(),
                chn: channel_id as i32,
                chn_attr: spec_chn_attr(*cfg),
            }),
    {
        self.inner.set_channel_call(channel_id as i32, cfg)
    }

    /// The channel once its call returned `code`: set up, disabled.
    pub fn set_channel(&'a self, channel_id: u8, code: i32) -> (r: Result<
        VpssChannel<'a, channel_state::Disabled>,
        Error,
    >)
        ensures
            code == RK_SUCCESS ==> (r matches Ok(c) && c.spec_id() == channel_id && c.spec_group_id()
                == self.spec_id() && c.spec_state() == channel_state::Runtime::Disabled),
            code != RK_SUCCESS ==> r.is_err() && r->Err_0 == (Error::Rockit { code }),
    {
        let inner = self.inner.set_channel(channel_id as i32, code)?;
        Ok(VpssChannel { inner, group: &self.inner, mpi: self.mpi, _marker: PhantomData })
    }

    /// The calls that let the group go.
    pub fn drop_calls(&self) -> (r: Vec<MpiCall>)
        ensures
            r@ == spec_group_drop_calls(self.spec_id(), self.spec_state()),
    {
        self.inner.drop_calls()
    }
}

impl<'a> VpssGroup<'a, state::Initialized> {
    /// The call that creates group `id` for `cfg`.
    pub fn create_call(id: u8, cfg: &VpssGroupConfig) -> (r: MpiCall)
        ensures
            r == (MpiCall::VpssCreateGrp { grp: id as i32, grp_attr: spec_grp_attr(*cfg) }),
    {
        VpssGroupInner::create_call(id as i32, cfg)
    }

    /// The group once its creation call returned `code`: created, not
    /// started.
    pub fn new(mpi: &'a RockitSys, id: u8, code: i32) -> (r: Result<
        VpssGroup<'a, state::Initialized>,
        Error,
    >)
        ensures
            code == RK_SUCCESS ==> (r matches Ok(g) && g.spec_id() == id && g.spec_state()
                == state::Runtime::Initialized),
            code != RK_SUCCESS ==> r.is_err() && r->Err_0 == (Error::Rockit { code }),
    {
        let inner = VpssGroupInner::new(id as i32, code)?;
        Ok(VpssGroup { inner, mpi, _marker: PhantomData })
    }

    /// The call that starts the group.
    pub fn start_call(&self) -> (r: MpiCall)
        ensures
            r == (MpiCall::VpssStartGrp { grp: self.spec_id() }),
    {
        self.inner.start_call()
    }

    /// The group once its start call returned `code`: started when the call
    /// succeeded.
    pub fn start(self, code: i32) -> (r: Result<VpssGroup<'a, state::Started>, Error>)
        ensures
            code == RK_SUCCESS ==> (r matches Ok(g) && g.spec_id() == self.spec_id()
                && g.spec_state() == state::Runtime::Started),
            code != RK_SUCCESS ==> r.is_err() && r->Err_0 == (Error::Rockit { code }),
    {
        let mut inner = self.inner;
        inner.start(code)?;
        Ok(VpssGroup { inner, mpi: self.mpi, _marker: PhantomData })
    }

    /// The group, no longer borrowing the system handle.
    pub fn into_owned(self) -> (r: VpssGroupOwned<state::Initialized>)
        ensures
            r.spec_id() == self.spec_id(),
            r.spec_state() == self.spec_state(),
    {
        VpssGroupOwned { inner: self.inner, mpi: *self.mpi, _marker: PhantomData }
    }
}

impl<'a> VpssGroup<'a, state::Started> {
    /// The call that sends `frame` to the group's pipe `pipe_id`, waiting up
    /// to `timeout_ms`.
    pub fn send_frame_call(&self, pipe_id: u8, frame: &MbFrame, timeout_ms: u128) -> (r: MpiCall)
        ensures
            r == (MpiCall::VpssSendFrame {
                grp: self.spec_id(),
                pipe: pipe_id as i32,
                frame: frame.spec_desc(),
                timeout_ms: spec_timeout_arg(timeout_ms),
            }),
    {
        self.inner.send_frame_call(pipe_id as i32, frame.inner(), timeout_ms)
    }
}

/// A processing group in state `S` that owns its share of the system.
pub struct VpssGroupOwned<S> {
    inner: VpssGroupInner,
    mpi: RockitSys,
    _marker: PhantomData<S>,
}

impl<S> VpssGroupOwned<S> {
    /// The group number.
    pub closed spec fn spec_id(&self) -> i32 {
        self.inner.id
    }

    /// Whether the group is started, at run time.
    pub closed spec fn spec_state(&self) -> state::Runtime {
        self.inner.state
    }

    /// The group number.
    pub fn id(&self) -> (r: i32)
        ensures
            r == self.spec_id(),
    {
        self.inner.id
    }

    /// The call that sets channel `channel_id` of the group up for `cfg`.
    pub fn set_channel_call(&self, channel_id: u8, cfg: &VpssChannelConfig) -> (r: MpiCall)
        ensures
            r == (MpiCall::VpssSetChnAttr {
                grp: self.spec_id(),
                chn: channel_id as i32,
                chn_attr: spec_chn_attr(*cfg),
            }),
    {
        self.inner.set_channel_call(channel_id as i32, cfg)
    }

    /// The channel once its call returned `code`: set up, disabled.
    pub fn set_channel(&self, channel_id: u8, code: i32) -> (r: Result<
        VpssChannelOwned<channel_state::Disabled>,
        Error,
    >)
        ensures
            code == RK_SUCCESS ==> (r matches Ok(c) && c.spec_id() == channel_id && c.spec_group_id()
                == self.spec_id() && c.spec_state() == channel_state::Runtime::Disabled),
            code != RK_SUCCESS ==> r.is_err() && r->Err_0 == (Error::Rockit { code }),
    {
        let inner = self.inner.set_channel(channel_id as i32, code)?;
        Ok(VpssChannelOwned { inner, group: self.inner, mpi: self.mpi, _marker: PhantomData })
    }

    /// The calls that let the group go.
    pub fn drop_calls(&self) -> (r: Vec<MpiCall>)
        ensures
            r@ == spec_group_drop_calls(self.spec_id(), self.spec_state()),
    {
        self.inner.drop_calls()
    }
}

impl VpssGroupOwned<state::Initialized> {
    /// The call that starts the group.
    pub fn start_call(&self) -> (r: MpiCall)
        ensures
            r == (MpiCall::VpssStartGrp { grp: self.spec_id() }),
    {
        self.inner.start_call()
    }

    /// The group once its start call returned `code`: started when the call
    /// succeeded.
    pub fn start(self, code: i32) -> (r: Result<VpssGroupOwned<state::Started>, Error>)
        ensures
            code == RK_SUCCESS ==> (r matches Ok(g) && g.spec_id() == self.spec_id()
                && g.spec_state() == state::Runtime::Started),
            code != RK_SUCCESS ==> r.is_err() && r->Err_0 == (Error::Rockit { code }),
    {
        let mut inner = self.inner;
        inner.start(code)?;
        Ok(VpssGroupOwned { inner, mpi: self.mpi, _marker: PhantomData })
    }
}

impl VpssGroupOwned<state::Started> {
    /// The call that sends `frame` to the group's pipe `pipe_id`, waiting up
    /// to `timeout_ms`.
    pub fn send_frame_call(&self, pipe_id: u8, frame: &MbFrameOwned, timeout_ms: u128) -> (r:
        MpiCall)
        ensures
            r == (MpiCall::VpssSendFrame {
                grp: self.spec_id(),
                pipe: pipe_id as i32,
                frame: frame.spec_desc(),
                timeout_ms: spec_timeout_arg(timeout_ms),
            }),
    {
        self.inner.send_frame_call(pipe_id as i32, frame.inner(), timeout_ms)
    }
}

/// The calls that let a channel go: an enabled channel is disabled.
pub open spec fn spec_channel_drop_calls(group_id: i32, id: i32, state: channel_state::Runtime) -> Seq<
    MpiCall,
> {
    if state == channel_state::Runtime::Enabled {
        seq![MpiCall::VpssDisableChn { grp: group_id, chn: id }]
    } else {
        Seq::empty()
    }
}

/// What a processing channel is: its number, its group's number and
/// whether it is enabled.
#[derive(Clone, Copy)]
pub(crate) struct VpssChannelInner {
    id: i32,
    group_id: i32,
    state: channel_state::Runtime,
}

impl VpssChannelInner {
    fn enable_call(&self) -> (r: MpiCall)
        ensures
            r == (MpiCall::VpssEnableChn { grp: self.group_id, chn: self.id }),
    {
        MpiCall::VpssEnableChn { grp: self.group_id, chn: self.id }
    }

    fn enable(&mut self, code: i32) -> (r: Result<(), Error>)
        ensures
            r == spec_check(code),
            final(self).id == old(self).id,
            final(self).group_id == old(self).group_id,
            code == RK_SUCCESS ==> final(self).state == channel_state::Runtime::Enabled,
            code != RK_SUCCESS ==> final(self).state == old(self).state,
    {
        rk_check_err(code)?;
        self.state = channel_state::Runtime::Enabled;
        Ok(())
    }

    fn disable_call(&self) -> (r: MpiCall)
        ensures
            r == (MpiCall::VpssDisableChn { grp: self.group_id, chn: self.id }),
    {
        MpiCall::VpssDisableChn { grp: self.group_id, chn: self.id }
    }

    fn disable(&mut self, code: i32) -> (r: Result<(), Error>)
        ensures
            r == spec_check(code),
            final(self).id == old(self).id,
            final(self).group_id == old(self).group_id,
            code == RK_SUCCESS ==> final(self).state == channel_state::Runtime::Disabled,
            code != RK_SUCCESS ==> final(self).state == old(self).state,
    {
        rk_check_err(code)?;
        self.state = channel_state::Runtime::Disabled;
        Ok(())
    }

    fn get_frame_call(&self, timeout_ms: u128) -> (r: MpiCall)
        ensures
            r == (MpiCall::VpssGetChnFrame {
                grp: self.group_id,
                chn: self.id,
                timeout_ms: spec_timeout_arg(timeout_ms),
            }),
    {
        MpiCall::VpssGetChnFrame { grp: self.group_id, chn: self.id, timeout_ms: timeout_arg(timeout_ms) }
    }

    fn get_frame(&self, code: i32, size: FrameSize) -> (r: Result<VpssFrameInner, Error>)
        ensures
            code == RK_SUCCESS ==> (r matches Ok(f) && f.frame == size && f.group_id
                == self.group_id && f.channel_id == self.id),
            code != RK_SUCCESS ==> r == Err::<VpssFrameInner, Error>(Error::Rockit { code }),
    {
        rk_check_err(code)?;
        Ok(VpssFrameInner { frame: size, group_id: self.group_id, channel_id: self.id })
    }

    fn drop_calls(&self) -> (r: Vec<MpiCall>)
        ensures
            r@ == spec_channel_drop_calls(self.group_id, self.id, self.state),
    {
        let mut calls: Vec<MpiCall> = Vec::new();
        if self.state == channel_state::Runtime::Enabled {
            calls.push(MpiCall::VpssDisableChn { grp: self.group_id, chn: self.id });
        }
        proof {
            assert(calls@ =~= spec_channel_drop_calls(self.group_id, self.id, self.state));
        }
        calls
    }
}

/// A processing channel in state `S`.
pub struct VpssChannel<'a, S> {
    pub(crate) inner: VpssChannelInner,
    pub(crate) group: &'a VpssGroupInner,
    mpi: &'a RockitSys,
    _marker: PhantomData<S>,
}

impl<'a, S> VpssChannel<'a, S> {
    /// The channel number.
    pub closed spec fn spec_id(&self) -> i32 {
        self.inner.id
    }

    /// The number of the channel's group.
    pub closed spec fn spec_group_id(&self) -> i32 {
        self.inner.group_id
    }

    /// Whether the channel is enabled, at run time.
    pub closed spec fn spec_state(&self) -> channel_state::Runtime {
        self.inner.state
    }

    /// The channel number.
    pub fn id(&self) -> (r: i32)
        ensures
            r == self.spec_id(),
    {
        self.inner.id
    }

    /// The calls that let the channel go.
    pub fn drop_calls(&self) -> (r: Vec<MpiCall>)
        ensures
            r@ == spec_channel_drop_calls(self.spec_group_id(), self.spec_id(), self.spec_state()),
    {
        self.inner.drop_calls()
    }
}

impl<'a> VpssChannel<'a, channel_state::Disabled> {
    /// The call that enables the channel.
    pub fn enable_call(&self) -> (r: MpiCall)
        ensures
            r == (MpiCall::VpssEnableChn { grp: self.spec_group_id(), chn: self.spec_id() }),
    {
        self.inner.enable_call()
    }

    /// The channel once its enable call returned `code`: enabled when the
    /// call succeeded.
    pub fn enable(self, code: i32) -> (r: Result<VpssChannel<'a, channel_state::Enabled>, Error>)
        ensures
            code == RK_SUCCESS ==> (r matches Ok(c) && c.spec_id() == self.spec_id()
                && c.spec_group_id() == self.spec_group_id() && c.spec_state()
                == channel_state::Runtime::Enabled),
            code != RK_SUCCESS ==> r.is_err() && r->Err_0 == (Error::Rockit { code }),
    {
        let mut inner = self.inner;
        inner.enable(code)?;
        Ok(VpssChannel { inner, group: self.group, mpi: self.mpi, _marker: PhantomData })
    }
}

impl<'a> VpssChannel<'a, channel_state::Enabled> {
    /// The call that takes a processed frame, waiting up to `timeout_ms`.
    pub fn get_frame_call(&self, timeout_ms: u128) -> (r: MpiCall)
        ensures
            r == (MpiCall::VpssGetChnFrame {
                grp: self.spec_group_id(),
                chn: self.spec_id(),
                timeout_ms: spec_timeout_arg(timeout_ms),
            }),
    {
        self.inner.get_frame_call(timeout_ms)
    }

    /// The frame once the call returned `code` and a frame of `size`.
    pub fn get_frame(&'a self, code: i32, size: FrameSize) -> (r: Result<VpssFrame<'a>, Error>)
        ensures
            code == RK_SUCCESS ==> (r matches Ok(f) && f.spec_size() == size && f.spec_group_id()
                == self.spec_group_id() && f.spec_channel_id() == self.spec_id()),
            code != RK_SUCCESS ==> r.is_err() && r->Err_0 == (Error::Rockit { code }),
    {
        let inner = self.inner.get_frame(code, size)?;
        Ok(VpssFrame { inner, channel: &self.inner, group: self.group, mpi: *self.mpi })
    }

    /// The call that disables the channel.
    pub fn disable_call(&self) -> (r: MpiCall)
        ensures
            r == (MpiCall::VpssDisableChn { grp: self.spec_group_id(), chn: self.spec_id() }),
    {
        self.inner.disable_call()
    }

    /// The channel once its disable call returned `code`: disabled when the
    /// call succeeded.
    pub fn disable(self, code: i32) -> (r: Result<VpssChannel<'a, channel_state::Disabled>, Error>)
        ensures
            code == RK_SUCCESS ==> (r matches Ok(c) && c.spec_id() == self.spec_id()
                && c.spec_group_id() == self.spec_group_id() && c.spec_state()
                == channel_state::Runtime::Disabled),
            code != RK_SUCCESS ==> r.is_err() && r->Err_0 == (Error::Rockit { code }),
    {
        let mut inner = self.inner;
        inner.disable(code)?;
        Ok(VpssChannel { inner, group: self.group, mpi: self.mpi, _marker: PhantomData })
    }
}

/// A processing channel in state `S` that owns its share of its group and
/// the system.
pub struct VpssChannelOwned<S> {
    pub(crate) inner: VpssChannelInner,
    pub(crate) group: VpssGroupInner,
    mpi: RockitSys,
    _marker: PhantomData<S>,
}

impl<S> VpssChannelOwned<S> {
    /// The channel number.
    pub closed spec fn spec_id(&self) -> i32 {
        self.inner.id
    }

    /// The number of the channel's group.
    pub closed spec fn spec_group_id(&self) -> i32 {
        self.inner.group_id
    }

    /// Whether the channel is enabled, at run time.
    pub closed spec fn spec_state(&self) -> channel_state::Runtime {
        self.inner.state
    }

    /// The channel number.
    pub fn id(&self) -> (r: i32)
        ensures
            r == self.spec_id(),
    {
        self.inner.id
    }

    /// The call that enables the channel.
    pub fn enable_call(&self) -> (r: MpiCall)
        ensures
            r == (MpiCall::VpssEnableChn { grp: self.spec_group_id(), chn: self.spec_id() }),
    {
        self.inner.enable_call()
    }

    /// The channel once its enable call returned `code`: enabled when the
    /// call succeeded. A channel in any state may be enabled.
    pub fn enable(self, code: i32) -> (r: Result<VpssChannelOwned<channel_state::Enabled>, Error>)
        ensures
            code == RK_SUCCESS ==> (r matches Ok(c) && c.spec_id() == self.spec_id()
                && c.spec_group_id() == self.spec_group_id() && c.spec_state()
                == channel_state::Runtime::Enabled),
            code != RK_SUCCESS ==> r.is_err() && r->Err_0 == (Error::Rockit { code }),
    {
        let mut inner = self.inner;
        inner.enable(code)?;
        Ok(VpssChannelOwned { inner, group: self.group, mpi: self.mpi, _marker: PhantomData })
    }

    /// The calls that let the channel go.
    pub fn drop_calls(&self) -> (r: Vec<MpiCall>)
        ensures
            r@ == spec_channel_drop_calls(self.spec_group_id(), self.spec_id(), self.spec_state()),
    {
        self.inner.drop_calls()
    }
}

impl VpssChannelOwned<channel_state::Enabled> {
    /// The call that takes a processed frame, waiting up to `timeout_ms`.
    pub fn get_frame_call(&self, timeout_ms: u128) -> (r: MpiCall)
        ensures
            r == (MpiCall::VpssGetChnFrame {
                grp: self.spec_group_id(),
                chn: self.spec_id(),
                timeout_ms: spec_timeout_arg(timeout_ms),
            }),
    {
        self.inner.get_frame_call(timeout_ms)
    }

    /// The frame once the call returned `code` and a frame of `size`.
    pub fn get_frame(&self, code: i32, size: FrameSize) -> (r: Result<VpssFrameOwned, Error>)
        ensures
            code == RK_SUCCESS ==> (r matches Ok(f) && f.spec_size() == size && f.spec_group_id()
                == self.spec_group_id() && f.spec_channel_id() == self.spec_id()),
            code != RK_SUCCESS ==> r.is_err() && r->Err_0 == (Error::Rockit { code }),
    {
        let inner = self.inner.get_frame(code, size)?;
        Ok(VpssFrameOwned { inner, channel: self.inner, group: self.group, mpi: self.mpi })
    }

    /// The call that disables the channel.
    pub fn disable_call(&self) -> (r: MpiCall)
        ensures
            r == (MpiCall::VpssDisableChn { grp: self.spec_group_id(), chn: self.spec_id() }),
    {
        self.inner.disable_call()
    }

    /// The channel once its disable call returned `code`: disabled when the
    /// call succeeded.
    pub fn disable(self, code: i32) -> (r: Result<VpssChannelOwned<channel_state::Disabled>, Error>)
        ensures
            code == RK_SUCCESS ==> (r matches Ok(c) && c.spec_id() == self.spec_id()
                && c.spec_group_id() == self.spec_group_id() && c.spec_state()
                == channel_state::Runtime::Disabled),
            code != RK_SUCCESS ==> r.is_err() && r->Err_0 == (Error::Rockit { code }),
    {
        let mut inner = self.inner;
        inner.disable(code)?;
        Ok(VpssChannelOwned { inner, group: self.group, mpi: self.mpi, _marker: PhantomData })
    }
}

/// What a processed frame is: its size and where it came from.
#[derive(Clone, Copy)]
struct VpssFrameInner {
    frame: FrameSize,
    group_id: i32,
    channel_id: i32,
}

impl VpssFrameInner {
    fn release_call(&self) -> (r: MpiCall)
        ensures
            r == (MpiCall::VpssReleaseChnFrame { grp: self.group_id, chn: self.channel_id }),
    {
        MpiCall::VpssReleaseChnFrame { grp: self.group_id, chn: self.channel_id }
    }
}

/// A frame taken from a processing channel.
pub struct VpssFrame<'a> {
    inner: VpssFrameInner,
    channel: &'a VpssChannelInner,
    group: &'a VpssGroupInner,
    mpi: RockitSys,
}

impl<'a> VpssFrame<'a> {
    /// The frame's size.
    pub closed spec fn spec_size(&self) -> FrameSize {
        self.inner.frame
    }

    /// The group the frame came from.
    pub closed spec fn spec_group_id(&self) -> i32 {
        self.inner.group_id
    }

    /// The channel the frame came from.
    pub closed spec fn spec_channel_id(&self) -> i32 {
        self.inner.channel_id
    }

    /// The frame's width.
    pub fn width(&self) -> (r: u32)
        ensures
            r == self.spec_size().width,
    {
        self.inner.frame.width
    }

    /// The frame's height.
    pub fn height(&self) -> (r: u32)
        ensures
            r == self.spec_size().height,
    {
        self.inner.frame.height
    }

    /// The length of the frame's picture.
    pub fn data_len(&self) -> (r: usize)
        requires
            self.spec_size().width * self.spec_size().height * 3 <= usize::MAX,
        ensures
            r == spec_frame_data_len(self.spec_size()),
    {
        frame_data_len(self.inner.frame)
    }

    /// The frame's picture, given its mapping of `data_len()` bytes, or the
    /// error when the platform gave no address.
    pub fn data<'b>(&self, mapped: Option<&'b [u8]>) -> (r: Result<&'b [u8], Error>)
        requires
            mapped matches Some(s) ==> s@.len() == spec_frame_data_len(self.spec_size()),
        ensures
            mapped.is_none() ==> r == Err::<&'b [u8], Error>(Error::InvalidFramePointer),
            mapped matches Some(s) ==> r == Ok::<&'b [u8], Error>(s),
    {
        mapped_data(mapped)
    }

    /// The call that hands the frame back when it is let go.
    pub fn release_call(&self) -> (r: MpiCall)
        ensures
            r == (MpiCall::VpssReleaseChnFrame {
                grp: self.spec_group_id(),
                chn: self.spec_channel_id(),
            }),
    {
        self.inner.release_call()
    }
}

/// A frame taken from a processing channel that owns its share of the
/// channel, group and system.
pub struct VpssFrameOwned {
    inner: VpssFrameInner,
    channel: VpssChannelInner,
    group: VpssGroupInner,
    mpi: RockitSys,
}

impl VpssFrameOwned {
    /// The frame's size.
    pub closed spec fn spec_size(&self) -> FrameSize {
        self.inner.frame
    }

    /// The group the frame came from.
    pub closed spec fn spec_group_id(&self) -> i32 {
        self.inner.group_id
    }

    /// The channel the frame came from.
    pub closed spec fn spec_channel_id(&self) -> i32 {
        self.inner.channel_id
    }

    /// The frame's width.
    pub fn width(&self) -> (r: u32)
        ensures
            r == self.spec_size().width,
    {
        self.inner.frame.width
    }

    /// The frame's height.
    pub fn height(&self) -> (r: u32)
        ensures
            r == self.spec_size().height,
    {
        self.inner.frame.height
    }

    /// The length of the frame's picture.
    pub fn data_len(&self) -> (r: usize)
        requires
            self.spec_size().width * self.spec_size().height * 3 <= usize::MAX,
        ensures
            r == spec_frame_data_len(self.spec_size()),
    {
        frame_data_len(self.inner.frame)
    }

    /// The frame's picture, given its mapping of `data_len()` bytes, or the
    /// error when the platform gave no address.
    pub fn data<'b>(&self, mapped: Option<&'b [u8]>) -> (r: Result<&'b [u8], Error>)
        requires
            mapped matches Some(s) ==> s@.len() == spec_frame_data_len(self.spec_size()),
        ensures
            mapped.is_none() ==> r == Err::<&'b [u8], Error>(Error::InvalidFramePointer),
            mapped matches Some(s) ==> r == Ok::<&'b [u8], Error>(s),
    {
        mapped_data(mapped)
    }

    /// The call that hands the frame back when it is let go.
    pub fn release_call(&self) -> (r: MpiCall)
        ensures
            r == (MpiCall::VpssReleaseChnFrame {
                grp: self.spec_group_id(),
                chn: self.spec_channel_id(),
            }),
    {
        self.inner.release_call()
    }
}

} // verus!
