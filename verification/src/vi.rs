//! Video input: cameras (devices), their pipes, the channels created on a
//! pipe and the frames taken from a channel.

use crate::call::{CallSeq, MpiCall};
use crate::{
    CompressMode, DynamicRange, ModId, MppChn, PixelFormat, Rect, VideoFormat,
    frame_data_len, mapped_data, rk_check_err, spec_check, spec_frame_data_len, spec_timeout_arg,
    timeout_arg, Error, FrameSize, RockitSys, ViLimits, RK_ERR_VI_NOT_CONFIG, RK_SUCCESS,
};
use vstd::prelude::*;

verus! {

/// The cameras a board can have.
#[derive(Clone, Copy, Debug, PartialEq, Eq, Structural)]
pub enum CameraId {
    Zero,
    One,
    Two,
}

impl CameraId {
    /// The camera's number.
    pub open spec fn spec_number(self) -> u8 {
        match self {
            CameraId::Zero => 0,
            CameraId::One => 1,
            CameraId::Two => 2,
        }
    }

    /// The camera's number.
    pub fn as_u8(&self) -> (r: u8)
        ensures
            r == self.spec_number(),
    {
        match self {
            CameraId::Zero => 0,
            CameraId::One => 1,
            CameraId::Two => 2,
        }
    }
}

impl Default for CameraId {
    fn default() -> (r: Self)
        ensures
            r == CameraId::Zero,
    {
        CameraId::Zero
    }
}

impl TryFrom<u8> for CameraId {
    type Error = Error;

    fn try_from(value: u8) -> (r: Result<Self, Error>)
        ensures
            value < 3 ==> (r matches Ok(id) && id.spec_number() == value),
            value >= 3 ==> r == Err::<CameraId, Error>(Error::InvalidCameraId { id: value }),
    {
        match value {
            0 => Ok(CameraId::Zero),
            1 => Ok(CameraId::One),
            2 => Ok(CameraId::Two),
            _ => Err(Error::InvalidCameraId { id: value }),
        }
    }
}

impl vstd::std_specs::convert::TryFromSpecImpl<u8> for CameraId {
    open spec fn obeys_try_from_spec() -> bool {
        true
    }

    open spec fn try_from_spec(value: u8) -> Result<Self, Error> {
        match value {
            0 => Ok(CameraId::Zero),
            1 => Ok(CameraId::One),
            2 => Ok(CameraId::Two),
            _ => Err(Error::InvalidCameraId { id: value }),
        }
    }
}

/// A camera's number gives that camera back, and exactly the numbers
/// below three name a camera.
pub proof fn lemma_camera_id_roundtrip(id: CameraId, value: u8)
    ensures
        <CameraId as vstd::std_specs::convert::TryFromSpec<u8>>::try_from_spec(id.spec_number())
            == Ok::<CameraId, Error>(id),
        value < 3 <==> <CameraId as vstd::std_specs::convert::TryFromSpec<u8>>::try_from_spec(
            value,
        ) is Ok,
{
}

/// Who allocates a video input channel's buffers.
#[derive(Clone, Copy, Debug, PartialEq, Eq, Structural)]
pub enum ViAllocBufType {
    /// The platform does.
    Internal,
}

/// How a video input channel's capture buffers are shared.
#[derive(Clone, Copy, Debug, PartialEq, Eq, Structural)]
pub enum ViMemoryType {
    /// By DMA buffer.
    DmaBuf,
}

/// The attributes a video input channel is set up with.
#[derive(Clone, Copy, Debug, PartialEq, Eq, Structural)]
pub struct ViChnAttr {
    pub width: u32,
    pub height: u32,
    pub pixel_format: PixelFormat,
    pub dynamic_range: DynamicRange,
    pub video_format: VideoFormat,
    pub compress_mode: CompressMode,
    pub mirror: bool,
    pub flip: bool,
    pub depth: u32,
    pub src_frame_rate: i32,
    pub dst_frame_rate: i32,
    pub alloc_buf_type: ViAllocBufType,
    pub isp_buf_count: u32,
    pub isp_buf_size: u32,
    pub isp_capture_type: u32,
    pub isp_memory_type: ViMemoryType,
    pub isp_use_libv4l2: bool,
    pub isp_max_width: u32,
    pub isp_max_height: u32,
    /// The capture window (all 0: the whole picture).
    pub isp_window: Rect,
    pub share_buf_chn: MppChn,
}

/// The attributes of a channel of `width` by `height` pixels that keeps
/// `depth` frames for the user: a 4:2:0 semi-planar picture, 8-bit
/// standard range, linear, uncompressed, neither mirrored nor flipped, at
/// 30 frames per second, in buffers the platform allocates, with two
/// capture buffers of the platform's size shared by DMA buffer through the
/// V4L2 library, no capture window or size limit, and no buffer shared with
/// another channel (the common module's channel 0).
pub open spec fn spec_vi_chn_attr(width: u16, height: u16, depth: u32) -> ViChnAttr {
    ViChnAttr {
        width: width as u32,
        height: height as u32,
        pixel_format: PixelFormat::Nv12,
        dynamic_range: DynamicRange::Sdr8,
        video_format: VideoFormat::Linear,
        compress_mode: CompressMode::Uncompressed,
        mirror: false,
        flip: false,
        depth,
        src_frame_rate: 30,
        dst_frame_rate: 30,
        alloc_buf_type: ViAllocBufType::Internal,
        isp_buf_count: 2,
        isp_buf_size: 0,
        isp_capture_type: 0,
        isp_memory_type: ViMemoryType::DmaBuf,
        isp_use_libv4l2: true,
        isp_max_width: 0,
        isp_max_height: 0,
        isp_window: Rect { x: 0, y: 0, width: 0, height: 0 },
        share_buf_chn: MppChn { mod_id: ModId::Cmpi, dev_id: 0, chn_id: 0 },
    }
}

/// The attributes of a channel of `width` by `height` pixels.
pub fn vi_chn_attr(width: u16, height: u16, depth: u32) -> (r: ViChnAttr)
    ensures
        r == spec_vi_chn_attr(width, height, depth),
{
    ViChnAttr {
        width: width as u32,
        height: height as u32,
        pixel_format: PixelFormat::Nv12,
        dynamic_range: DynamicRange::Sdr8,
        video_format: VideoFormat::Linear,
        compress_mode: CompressMode::Uncompressed,
        mirror: false,
        flip: false,
        depth,
        src_frame_rate: 30,
        dst_frame_rate: 30,
        alloc_buf_type: ViAllocBufType::Internal,
        isp_buf_count: 2,
        isp_buf_size: 0,
        isp_capture_type: 0,
        isp_memory_type: ViMemoryType::DmaBuf,
        isp_use_libv4l2: true,
        isp_max_width: 0,
        isp_max_height: 0,
        isp_window: Rect { x: 0, y: 0, width: 0, height: 0 },
        share_buf_chn: MppChn { mod_id: ModId::Cmpi, dev_id: 0, chn_id: 0 },
    }
}

/// A video input channel is set up for the asked picture as it comes from
/// the sensor: its size is the asked width and height, it keeps the asked
/// number of frames for the user, and the picture is neither mirrored nor
/// flipped; it is 4:2:0 semi-planar, 8-bit standard range, linear and
/// uncompressed, at 30 frames per second in and out, with two capture
/// buffers of the platform's size, shared with no other channel.
pub proof fn lemma_vi_chn_attr_as_asked(width: u16, height: u16, depth: u32)
    ensures
        spec_vi_chn_attr(width, height, depth).width == width,
        spec_vi_chn_attr(width, height, depth).height == height,
        spec_vi_chn_attr(width, height, depth).depth == depth,
        !spec_vi_chn_attr(width, height, depth).mirror,
        !spec_vi_chn_attr(width, height, depth).flip,
        spec_vi_chn_attr(width, height, depth).pixel_format == PixelFormat::Nv12,
        spec_vi_chn_attr(width, height, depth).dynamic_range == DynamicRange::Sdr8,
        spec_vi_chn_attr(width, height, depth).video_format == VideoFormat::Linear,
        spec_vi_chn_attr(width, height, depth).compress_mode == CompressMode::Uncompressed,
        spec_vi_chn_attr(width, height, depth).src_frame_rate == 30,
        spec_vi_chn_attr(width, height, depth).dst_frame_rate == 30,
        spec_vi_chn_attr(width, height, depth).isp_buf_count == 2,
        spec_vi_chn_attr(width, height, depth).isp_buf_size == 0,
        spec_vi_chn_attr(width, height, depth).isp_memory_type == ViMemoryType::DmaBuf,
        spec_vi_chn_attr(width, height, depth).alloc_buf_type == ViAllocBufType::Internal,
        spec_vi_chn_attr(width, height, depth).share_buf_chn == (MppChn {
            mod_id: ModId::Cmpi,
            dev_id: 0,
            chn_id: 0,
        }),
{
}

/// The calls that set up channel `channel_id` on pipe `pipe_id`: set its
/// attributes, then enable it. A channel number above the platform's limit
/// is refused (with the device-number error) before any call.
pub fn vi_channel_calls(
    max_chn: u32,
    pipe_id: i32,
    channel_id: u8,
    width: u16,
    height: u16,
    depth: u32,
) -> (r: Result<CallSeq, Error>)
    ensures
        channel_id > max_chn ==> r == Err::<CallSeq, Error>(Error::InvalidDevId { id: channel_id }),
        channel_id <= max_chn ==> (r matches Ok(seq) && seq.codes() == Seq::<i32>::empty()
            && seq.calls() == seq![
                MpiCall::ViSetChnAttr {
                    pipe: pipe_id,
                    chn: channel_id as i32,
                    attr: spec_vi_chn_attr(width, height, depth),
                },
                MpiCall::ViEnableChn { pipe: pipe_id, chn: channel_id as i32 },
            ]),
{
    if channel_id as u32 > max_chn {
        return Err(Error::InvalidDevId { id: channel_id });
    }
    let chn = channel_id as i32;
    let attr = vi_chn_attr(width, height, depth);
    let mut calls: Vec<MpiCall> = Vec::new();
    calls.push(MpiCall::ViSetChnAttr { pipe: pipe_id, chn, attr });
    calls.push(MpiCall::ViEnableChn { pipe: pipe_id, chn });
    let seq = CallSeq::new(calls);
    proof {
        assert(seq.calls() =~= seq![
            MpiCall::ViSetChnAttr { pipe: pipe_id, chn: channel_id as i32, attr: spec_vi_chn_attr(width, height, depth) },
            MpiCall::ViEnableChn { pipe: pipe_id, chn: channel_id as i32 },
        ]);
    }
    Ok(seq)
}

/// Whether `calls` are the two calls that set channel `chn` up on pipe
/// `pipe`: setting its attributes, then enabling it.
pub open spec fn sets_up_channel(calls: Seq<MpiCall>, pipe: i32, chn: i32) -> bool {
    &&& calls.len() == 2
    &&& calls[0] matches MpiCall::ViSetChnAttr { pipe: p, chn: c, .. } && p == pipe && c == chn
    &&& calls[1] == (MpiCall::ViEnableChn { pipe, chn })
}

/// The steps of opening a camera device.
#[derive(Clone, Copy, Debug, PartialEq, Eq, Structural)]
pub enum OpenStep {
    /// Read the device's attributes.
    GetAttr,
    /// The device was not configured: set its attributes.
    SetAttr,
    /// Ask whether the device is enabled.
    CheckEnabled,
    /// The device was not enabled: enable it.
    Enable,
    /// Bind the device to its pipes.
    BindPipes,
    /// The device is open.
    Opened,
    /// A call failed with `code`.
    Failed { code: i32 },
}

/// The step that follows `step` once its call returned `code`. A device
/// that reports "not configured" is configured; any other answer to the
/// attribute read goes on. A device that does not answer "enabled" is
/// enabled. Setting attributes, enabling and binding must succeed.
pub open spec fn next_open_step(step: OpenStep, code: i32) -> OpenStep {
    match step {
        OpenStep::GetAttr => if code == RK_ERR_VI_NOT_CONFIG {
            OpenStep::SetAttr
        } else {
            OpenStep::CheckEnabled
        },
        OpenStep::SetAttr => if code == RK_SUCCESS {
            OpenStep::CheckEnabled
        } else {
            OpenStep::Failed { code }
        },
        OpenStep::CheckEnabled => if code != RK_SUCCESS {
            OpenStep::Enable
        } else {
            OpenStep::BindPipes
        },
        OpenStep::Enable => if code == RK_SUCCESS {
            OpenStep::BindPipes
        } else {
            OpenStep::Failed { code }
        },
        OpenStep::BindPipes => if code == RK_SUCCESS {
            OpenStep::Opened
        } else {
            OpenStep::Failed { code }
        },
        OpenStep::Opened => step,
        OpenStep::Failed { .. } => step,
    }
}

/// Opening a device goes as the platform answers: the attribute read is
/// followed by setting the attributes only when the device reports that it
/// is not configured, and by the enabled check otherwise; the device is
/// enabled only when it does not answer that it is; setting the
/// attributes, enabling and binding the pipes must succeed, and a failure
/// of any of them ends the open with its code; the open ends open only
/// after the pipes were bound successfully; an ended open stays as it is.
pub proof fn lemma_open_step_answers(step: OpenStep, code: i32)
    ensures
        step == OpenStep::GetAttr ==> (next_open_step(step, code) == OpenStep::SetAttr <==> code
            == RK_ERR_VI_NOT_CONFIG),
        step == OpenStep::GetAttr && code != RK_ERR_VI_NOT_CONFIG ==> next_open_step(step, code)
            == OpenStep::CheckEnabled,
        step == OpenStep::CheckEnabled ==> (next_open_step(step, code) == OpenStep::Enable <==> code
            != RK_SUCCESS),
        step == OpenStep::CheckEnabled && code == RK_SUCCESS ==> next_open_step(step, code)
            == OpenStep::BindPipes,
        (step == OpenStep::SetAttr || step == OpenStep::Enable || step == OpenStep::BindPipes)
            && code != RK_SUCCESS ==> next_open_step(step, code) == (OpenStep::Failed { code }),
        step == OpenStep::SetAttr && code == RK_SUCCESS ==> next_open_step(step, code)
            == OpenStep::CheckEnabled,
        step == OpenStep::Enable && code == RK_SUCCESS ==> next_open_step(step, code)
            == OpenStep::BindPipes,
        next_open_step(step, code) == OpenStep::Opened ==> (step == OpenStep::Opened || (step
            == OpenStep::BindPipes && code == RK_SUCCESS)),
        (step == OpenStep::Opened || step is Failed) ==> next_open_step(step, code) == step,
{
}

/// The call made at `step` on device `dev` with `num_pipes` pipes, if any.
pub open spec fn open_step_call(step: OpenStep, dev: i32, num_pipes: u32) -> Option<MpiCall> {
    match step {
        OpenStep::GetAttr => Some(MpiCall::ViGetDevAttr { dev }),
        OpenStep::SetAttr => Some(MpiCall::ViSetDevAttr { dev }),
        OpenStep::CheckEnabled => Some(MpiCall::ViGetDevIsEnable { dev }),
        OpenStep::Enable => Some(MpiCall::ViEnableDev { dev }),
        OpenStep::BindPipes => Some(MpiCall::ViSetDevBindPipe { dev, num_pipes }),
        OpenStep::Opened => None,
        OpenStep::Failed { .. } => None,
    }
}

/// Every call of a device's open is made on that device, the pipe binding
/// binds the asked number of pipes, and an ended open makes no call.
pub proof fn lemma_open_calls_on_device(step: OpenStep, dev: i32, num_pipes: u32)
    ensures
        open_step_call(step, dev, num_pipes) is None <==> (step == OpenStep::Opened || step is Failed),
        open_step_call(step, dev, num_pipes) matches Some(MpiCall::ViGetDevAttr { dev: d }) ==> d == dev,
        step == OpenStep::GetAttr ==> open_step_call(step, dev, num_pipes) == Some(
            MpiCall::ViGetDevAttr { dev },
        ),
        step == OpenStep::SetAttr ==> open_step_call(step, dev, num_pipes) == Some(
            MpiCall::ViSetDevAttr { dev },
        ),
        step == OpenStep::CheckEnabled ==> open_step_call(step, dev, num_pipes) == Some(
            MpiCall::ViGetDevIsEnable { dev },
        ),
        step == OpenStep::Enable ==> open_step_call(step, dev, num_pipes) == Some(
            MpiCall::ViEnableDev { dev },
        ),
        step == OpenStep::BindPipes ==> open_step_call(step, dev, num_pipes) == Some(
            MpiCall::ViSetDevBindPipe { dev, num_pipes },
        ),
{
}

/// The step reached from `step` by calls that returned `codes`, in order.
pub open spec fn run_open_steps(step: OpenStep, codes: Seq<i32>) -> OpenStep
    decreases codes.len(),
{
    if codes.len() == 0 {
        step
    } else {
        run_open_steps(next_open_step(step, codes[0]), codes.drop_first())
    }
}

/// The number of calls left at most before an open that is at `step` ends.
pub open spec fn open_steps_left(step: OpenStep) -> nat {
    match step {
        OpenStep::GetAttr => 5,
        OpenStep::SetAttr => 4,
        OpenStep::CheckEnabled => 3,
        OpenStep::Enable => 2,
        OpenStep::BindPipes => 1,
        OpenStep::Opened => 0,
        OpenStep::Failed { .. } => 0,
    }
}

/// A run ends at the step that its last code leads to from where the codes
/// before it led.
proof fn lemma_run_snoc(step: OpenStep, codes: Seq<i32>)
    requires
        codes.len() > 0,
    ensures
        run_open_steps(step, codes) == next_open_step(
            run_open_steps(step, codes.drop_last()),
            codes.last(),
        ),
    decreases codes.len(),
{
    if codes.len() == 1 {
        assert(codes.drop_last() =~= Seq::<i32>::empty());
        assert(codes.drop_first() =~= Seq::<i32>::empty());
    } else {
        lemma_run_snoc(next_open_step(step, codes[0]), codes.drop_first());
        assert(codes.drop_first().drop_last() =~= codes.drop_last().drop_first());
    }
}

/// Opening a device makes at most five calls: from any step, that many
/// codes as the step has calls left bring it to an end, open or failed.
pub proof fn lemma_open_terminates(step: OpenStep, codes: Seq<i32>)
    requires
        codes.len() >= open_steps_left(step),
    ensures
        open_steps_left(run_open_steps(step, codes)) == 0,
    decreases codes.len(),
{
    if codes.len() > 0 {
        let next = next_open_step(step, codes[0]);
        assert(open_steps_left(next) == 0 || open_steps_left(next) < open_steps_left(step));
        lemma_open_terminates(next, codes.drop_first());
    }
}

/// The last call of an open decides how it ends: it ends open only when
/// that call (the pipe binding) succeeded, and it ends failed with that
/// call's code, which is not a success.
pub proof fn lemma_open_outcome(step: OpenStep, codes: Seq<i32>)
    requires
        codes.len() > 0,
        open_steps_left(run_open_steps(step, codes.drop_last())) > 0,
    ensures
        run_open_steps(step, codes) == OpenStep::Opened ==> codes.last() == RK_SUCCESS,
        run_open_steps(step, codes) matches OpenStep::Failed { code } ==> code == codes.last()
            && code != RK_SUCCESS,
{
    lemma_run_snoc(step, codes);
}

/// The step that follows `step` once its call returned `code` (see
/// `next_open_step`).
pub fn open_step_after(step: OpenStep, code: i32) -> (r: OpenStep)
    ensures
        r == next_open_step(step, code),
{
    match step {
        OpenStep::GetAttr => if code == RK_ERR_VI_NOT_CONFIG {
            OpenStep::SetAttr
        } else {
            OpenStep::CheckEnabled
        },
        OpenStep::SetAttr => if code == RK_SUCCESS {
            OpenStep::CheckEnabled
        } else {
            OpenStep::Failed { code }
        },
        OpenStep::CheckEnabled => if code != RK_SUCCESS {
            OpenStep::Enable
        } else {
            OpenStep::BindPipes
        },
        OpenStep::Enable => if code == RK_SUCCESS {
            OpenStep::BindPipes
        } else {
            OpenStep::Failed { code }
        },
        OpenStep::BindPipes => if code == RK_SUCCESS {
            OpenStep::Opened
        } else {
            OpenStep::Failed { code }
        },
        OpenStep::Opened => OpenStep::Opened,
        OpenStep::Failed { code: c } => OpenStep::Failed { code: c },
    }
}

/// The call made at `step` on device `dev` with `num_pipes` pipes, if any (see
/// `open_step_call`).
pub fn open_call(step: OpenStep, dev: i32, num_pipes: u32) -> (r: Option<MpiCall>)
    ensures
        r == open_step_call(step, dev, num_pipes),
{
    match step {
        OpenStep::GetAttr => Some(MpiCall::ViGetDevAttr { dev }),
        OpenStep::SetAttr => Some(MpiCall::ViSetDevAttr { dev }),
        OpenStep::CheckEnabled => Some(MpiCall::ViGetDevIsEnable { dev }),
        OpenStep::Enable => Some(MpiCall::ViEnableDev { dev }),
        OpenStep::BindPipes => Some(MpiCall::ViSetDevBindPipe { dev, num_pipes }),
        OpenStep::Opened => None,
        OpenStep::Failed { .. } => None,
    }
}

/// The opening of a camera device, step by step.
pub struct CameraOpen {
    dev: i32,
    num_pipes: u32,
    step: OpenStep,
}

impl CameraOpen {
    /// The device number.
    pub closed spec fn spec_dev(&self) -> i32 {
        self.dev
    }

    /// The number of pipes requested.
    pub closed spec fn spec_num_pipes(&self) -> u32 {
        self.num_pipes
    }

    /// The step reached.
    pub closed spec fn spec_step(&self) -> OpenStep {
        self.step
    }

    /// No call is left to make.
    pub open spec fn finished(&self) -> bool {
        open_steps_left(self.spec_step()) == 0
    }

    /// The step reached.
    pub fn step(&self) -> (r: OpenStep)
        ensures
            r == self.spec_step(),
    {
        self.step
    }

    /// The call to make next, if any.
    pub fn next_call(&self) -> (r: Option<MpiCall>)
        ensures
            r == open_step_call(self.spec_step(), self.spec_dev(), self.spec_num_pipes()),
            r.is_none() == self.finished(),
    {
        open_call(self.step, self.dev, self.num_pipes)
    }

    /// Records the return code of the call just made.
    pub fn record(&mut self, code: i32)
        requires
            !old(self).finished(),
        ensures
            final(self).spec_step() == next_open_step(old(self).spec_step(), code),
            final(self).spec_dev() == old(self).spec_dev(),
            final(self).spec_num_pipes() == old(self).spec_num_pipes(),
    {
        self.step = open_step_after(self.step, code);
    }
}

/// Starts opening device `dev_id` bound to `num_pipes` pipes. A device
/// number or a pipe count above the platform's limits is refused before any
/// call; otherwise the open starts by reading the device's attributes.
pub fn open_device(limits_dev: u32, limits_pipe: u32, dev_id: u8, num_pipes: u8) -> (r: Result<
    CameraOpen,
    Error,
>)
    ensures
        dev_id > limits_dev ==> r == Err::<CameraOpen, Error>(Error::InvalidDevId { id: dev_id }),
        dev_id <= limits_dev && num_pipes > limits_pipe ==> r == Err::<CameraOpen, Error>(
            Error::RequestedTooManyPipes { num: num_pipes },
        ),
        dev_id <= limits_dev && num_pipes <= limits_pipe ==> (r matches Ok(o) && o.spec_dev()
            == dev_id && o.spec_num_pipes() == num_pipes && o.spec_step() == OpenStep::GetAttr),
{
    if dev_id as u32 > limits_dev {
        return Err(Error::InvalidDevId { id: dev_id });
    }
    if num_pipes as u32 > limits_pipe {
        return Err(Error::RequestedTooManyPipes { num: num_pipes });
    }
    Ok(CameraOpen { dev: dev_id as i32, num_pipes: num_pipes as u32, step: OpenStep::GetAttr })
}

/// The outcome of a finished open: the device number and pipe count when
/// it is open, else the error of the call that failed.
pub open spec fn spec_open_outcome(open: CameraOpen) -> Result<(i32, u32), Error> {
    match open.spec_step() {
        OpenStep::Failed { code } => Err(Error::Rockit { code }),
        _ => Ok((open.spec_dev(), open.spec_num_pipes())),
    }
}

/// The outcome of a finished open.
pub fn open_outcome(open: &CameraOpen) -> (r: Result<(i32, u32), Error>)
    requires
        open.finished(),
    ensures
        r == spec_open_outcome(*open),
{
    match open.step {
        OpenStep::Failed { code } => Err(Error::Rockit { code }),
        _ => Ok((open.dev, open.num_pipes)),
    }
}

/// What a camera device is: its number and how many pipes it is bound to.
#[derive(Clone, Copy)]
pub(crate) struct CameraInner {
    pub(crate) id: i32,
    pub(crate) num_pipes: u32,
}

impl CameraInner {
    /// The call that disables the device when it is let go.
    pub(crate) fn disable_call(&self) -> (r: MpiCall)
        ensures
            r == (MpiCall::ViDisableDev { dev: self.id }),
    {
        MpiCall::ViDisableDev { dev: self.id }
    }
}

/// An open camera device.
pub struct Camera<'a> {
    inner: CameraInner,
    mpi: &'a RockitSys,
}

impl<'a> Camera<'a> {
    /// The device number.
    pub closed spec fn spec_id(&self) -> i32 {
        self.inner.id
    }

    /// The number of pipes the device is bound to.
    pub closed spec fn spec_num_pipes(&self) -> u32 {
        self.inner.num_pipes
    }

    /// Starts opening camera `dev_id` with `num_pipes` pipes, within the
    /// limits of `mpi`.
    pub fn open(mpi: &'a RockitSys, dev_id: u8, num_pipes: u8) -> (r: Result<CameraOpen, Error>)
        ensures
            dev_id > mpi.spec_limits().max_dev ==> r == Err::<CameraOpen, Error>(
                Error::InvalidDevId { id: dev_id },
            ),
            dev_id <= mpi.spec_limits().max_dev && num_pipes > mpi.spec_limits().max_pipe ==> r
                == Err::<CameraOpen, Error>(Error::RequestedTooManyPipes { num: num_pipes }),
            dev_id <= mpi.spec_limits().max_dev && num_pipes <= mpi.spec_limits().max_pipe ==> (r
                matches Ok(o) && o.spec_dev() == dev_id && o.spec_num_pipes() == num_pipes
                && o.spec_step() == OpenStep::GetAttr),
    {
        let limits = mpi.limits();
        open_device(limits.max_dev, limits.max_pipe, dev_id, num_pipes)
    }

    /// The camera once its open finished: open, or the error of the call
    /// that failed.
    pub fn new(mpi: &'a RockitSys, open: &CameraOpen) -> (r: Result<Camera<'a>, Error>)
        requires
            open.finished(),
        ensures
            spec_open_outcome(*open) matches Ok((id, n)) ==> (r matches Ok(c) && c.spec_id() == id
                && c.spec_num_pipes() == n),
            spec_open_outcome(*open) matches Err(e) ==> r == Err::<Camera<'a>, Error>(e),
    {
        match open_outcome(open) {
            Ok((id, num_pipes)) => Ok(Camera { inner: CameraInner { id, num_pipes }, mpi }),
            Err(e) => Err(e),
        }
    }

    /// The device's pipe `pipe_id`, when the device is bound to more pipes
    /// than that.
    pub fn get_pipe(&self, pipe_id: u8) -> (r: Option<ViPipe<'_>>)
        ensures
            pipe_id < self.spec_num_pipes() ==> (r matches Some(p) && p.spec_id() == pipe_id),
            pipe_id >= self.spec_num_pipes() ==> r.is_none(),
    {
        if pipe_id as u32 >= self.inner.num_pipes {
            return None;
        }
        Some(ViPipe::new(self, pipe_id as i32))
    }

    /// The camera, no longer borrowing the system handle.
    pub fn into_owned(self) -> (r: CameraOwned)
        ensures
            r.spec_id() == self.spec_id(),
            r.spec_num_pipes() == self.spec_num_pipes(),
    {
        CameraOwned { inner: self.inner, mpi: *self.mpi }
    }

    /// The call that disables the device when it is let go.
    pub fn disable_call(&self) -> (r: MpiCall)
        ensures
            r == (MpiCall::ViDisableDev { dev: self.spec_id() }),
    {
        self.inner.disable_call()
    }
}

/// An open camera device that owns its share of the system.
pub struct CameraOwned {
    inner: CameraInner,
    mpi: RockitSys,
}

impl CameraOwned {
    /// The device number.
    pub closed spec fn spec_id(&self) -> i32 {
        self.inner.id
    }

    /// The number of pipes the device is bound to.
    pub closed spec fn spec_num_pipes(&self) -> u32 {
        self.inner.num_pipes
    }

    /// The device's pipe `pipe_id`, when the device is bound to more pipes
    /// than that.
    pub fn get_pipe(&self, pipe_id: u8) -> (r: Option<ViPipeOwned>)
        ensures
            pipe_id < self.spec_num_pipes() ==> (r matches Some(p) && p.spec_id() == pipe_id
                && p.spec_camera_id() == self.spec_id() && p.spec_camera_num_pipes()
                == self.spec_num_pipes()),
            pipe_id >= self.spec_num_pipes() ==> r.is_none(),
    {
        if pipe_id as u32 >= self.inner.num_pipes {
            return None;
        }
        Some(ViPipeOwned { mpi: self.mpi, camera: self.inner, id: pipe_id as i32 })
    }

    /// The call that disables the device when it is let go.
    pub fn disable_call(&self) -> (r: MpiCall)
        ensures
            r == (MpiCall::ViDisableDev { dev: self.spec_id() }),
    {
        self.inner.disable_call()
    }
}

/// A pipe of a camera device.
pub struct ViPipe<'a> {
    dev: &'a Camera<'a>,
    id: i32,
}

impl<'a> ViPipe<'a> {
    /// The video input limits of the platform.
    pub closed spec fn spec_limits(&self) -> ViLimits {
        self.dev.mpi.spec_limits()
    }

    /// The pipe number.
    pub closed spec fn spec_id(&self) -> i32 {
        self.id
    }

    fn new(dev: &'a Camera<'a>, id: i32) -> (r: Self)
        ensures
            r.spec_id() == id,
    {
        Self { dev, id }
    }

    /// The pipe number.
    pub fn id(&self) -> (r: i32)
        ensures
            r == self.spec_id(),
    {
        self.id
    }

    /// The calls that create channel `channel_id` of `width` by `height` on
    /// this pipe (see `vi_channel_calls`; no frames kept for the user).
    pub fn create_channel_calls(&self, channel_id: u8, width: u16, height: u16) -> (r: Result<
        CallSeq,
        Error,
    >)
        ensures
            channel_id > self.spec_limits().max_chn ==> r == Err::<CallSeq, Error>(
                Error::InvalidDevId { id: channel_id },
            ),
            channel_id <= self.spec_limits().max_chn ==> (r matches Ok(seq) && seq.codes()
                == Seq::<i32>::empty() && seq.calls() == seq![
                MpiCall::ViSetChnAttr {
                    pipe: self.spec_id(),
                    chn: channel_id as i32,
                    attr: spec_vi_chn_attr(width, height, 0),
                },
                MpiCall::ViEnableChn { pipe: self.spec_id(), chn: channel_id as i32 },
            ]),
    {
        vi_channel_calls(self.dev.mpi.limits().max_chn, self.id, channel_id, width, height, 0)
    }

    /// The channel once its creation calls finished: created when they all
    /// succeeded, else the error of the one that failed.
    pub fn create_channel(&self, channel_id: u8, done: &CallSeq) -> (r: Result<ViChannel<'_>, Error>)
        requires
            done.finished(),
            sets_up_channel(done.calls(), self.spec_id(), channel_id as i32),
        ensures
            done.spec_outcome() is Ok ==> (r matches Ok(c) && c.spec_id() == channel_id
                && c.spec_pipe_id() == self.spec_id()),
            done.spec_outcome() matches Err(e) ==> r == Err::<ViChannel<'_>, Error>(e),
    {
        match ViChannelInner::new(self.id, channel_id, done) {
            Ok(inner) => Ok(ViChannel { pipe: self, inner }),
            Err(e) => Err(e),
        }
    }
}

/// A pipe of a camera device that owns its share of the device.
pub struct ViPipeOwned {
    id: i32,
    camera: CameraInner,
    mpi: RockitSys,
}

impl ViPipeOwned {
    /// The number of pipes of the camera device.
    pub closed spec fn spec_camera_num_pipes(&self) -> u32 {
        self.camera.num_pipes
    }

    /// The video input limits of the platform.
    pub closed spec fn spec_limits(&self) -> ViLimits {
        self.mpi.spec_limits()
    }

    /// The pipe number.
    pub closed spec fn spec_id(&self) -> i32 {
        self.id
    }

    /// The number of the camera device.
    pub closed spec fn spec_camera_id(&self) -> i32 {
        self.camera.id
    }

    /// The pipe number.
    pub fn id(&self) -> (r: i32)
        ensures
            r == self.spec_id(),
    {
        self.id
    }

    /// The calls that create channel `channel_id` of `width` by `height` on
    /// this pipe (see `vi_channel_calls`; no frames kept for the user).
    pub fn create_channel_calls(&self, channel_id: u8, width: u16, height: u16) -> (r: Result<
        CallSeq,
        Error,
    >)
        ensures
            channel_id > self.spec_limits().max_chn ==> r == Err::<CallSeq, Error>(
                Error::InvalidDevId { id: channel_id },
            ),
            channel_id <= self.spec_limits().max_chn ==> (r matches Ok(seq) && seq.codes()
                == Seq::<i32>::empty() && seq.calls() == seq![
                MpiCall::ViSetChnAttr {
                    pipe: self.spec_id(),
                    chn: channel_id as i32,
                    attr: spec_vi_chn_attr(width, height, 0),
                },
                MpiCall::ViEnableChn { pipe: self.spec_id(), chn: channel_id as i32 },
            ]),
    {
        vi_channel_calls(self.mpi.limits().max_chn, self.id, channel_id, width, height, 0)
    }

    /// The channel once its creation calls finished: created when they all
    /// succeeded, else the error of the one that failed.
    pub fn create_channel(&self, channel_id: u8, done: &CallSeq) -> (r: Result<ViChannelOwned, Error>)
        requires
            done.finished(),
            sets_up_channel(done.calls(), self.spec_id(), channel_id as i32),
        ensures
            done.spec_outcome() is Ok ==> (r matches Ok(c) && c.spec_id() == channel_id
                && c.spec_pipe_id() == self.spec_id() && c.spec_camera_id() == self.spec_camera_id()
                && c.spec_camera_num_pipes() == self.spec_camera_num_pipes()),
            done.spec_outcome() matches Err(e) ==> r == Err::<ViChannelOwned, Error>(e),
    {
        match ViChannelInner::new(self.id, channel_id, done) {
            Ok(inner) => Ok(ViChannelOwned { mpi: self.mpi, camera: self.camera, inner }),
            Err(e) => Err(e),
        }
    }
}

/// What a video input channel is: its number and its pipe's number.
#[derive(Clone, Copy)]
pub(crate) struct ViChannelInner {
    pub(crate) id: i32,
    pub(crate) pipe_id: i32,
}

impl ViChannelInner {
    fn new(pipe_id: i32, channel_id: u8, done: &CallSeq) -> (r: Result<Self, Error>)
        requires
            done.finished(),
        ensures
            done.spec_outcome() is Ok ==> (r matches Ok(c) && c.id == channel_id && c.pipe_id
                == pipe_id),
            done.spec_outcome() matches Err(e) ==> r == Err::<Self, Error>(e),
    {
        match done.outcome() {
            Ok(()) => Ok(Self { id: channel_id as i32, pipe_id }),
            Err(e) => Err(e),
        }
    }

    /// Frames are taken from pipe 0 of the channel's number.
    fn get_frame_call(&self, timeout_ms: u128) -> (r: MpiCall)
        ensures
            r == (MpiCall::ViGetChnFrame {
                pipe: 0,
                chn: self.id,
                timeout_ms: spec_timeout_arg(timeout_ms),
            }),
    {
        MpiCall::ViGetChnFrame { pipe: 0, chn: self.id, timeout_ms: timeout_arg(timeout_ms) }
    }

    fn get_frame(&self, code: i32, size: FrameSize) -> (r: Result<ViFrameInner, Error>)
        ensures
            code == RK_SUCCESS ==> (r matches Ok(f) && f.frame == size && f.pipe_id == self.pipe_id
                && f.channel_id == self.id),
            code != RK_SUCCESS ==> r == Err::<ViFrameInner, Error>(Error::Rockit { code }),
    {
        match rk_check_err(code) {
            Ok(()) => Ok(ViFrameInner { frame: size, pipe_id: self.pipe_id, channel_id: self.id }),
            Err(e) => Err(e),
        }
    }

    /// The channel is disabled on pipe 0 of its number when let go.
    pub(crate) fn disable_call(&self) -> (r: MpiCall)
        ensures
            r == (MpiCall::ViDisableChn { pipe: 0, chn: self.id }),
    {
        MpiCall::ViDisableChn { pipe: 0, chn: self.id }
    }
}

/// A video input channel on a pipe.
pub struct ViChannel<'a> {
    pipe: &'a ViPipe<'a>,
    inner: ViChannelInner,
}

impl<'a> ViChannel<'a> {
    #[verifier::type_invariant]
    spec fn same_pipe(self) -> bool {
        self.inner.pipe_id == self.pipe.id
    }

    /// The channel number.
    pub closed spec fn spec_id(&self) -> i32 {
        self.inner.id
    }

    /// The number of the channel's pipe.
    pub closed spec fn spec_pipe_id(&self) -> i32 {
        self.pipe.id
    }

    /// The channel number.
    pub fn id(&self) -> (r: i32)
        ensures
            r == self.spec_id(),
    {
        self.inner.id
    }

    /// The number of the channel's pipe.
    pub fn pipe_id(&self) -> (r: i32)
        ensures
            r == self.spec_pipe_id(),
    {
        self.pipe.id
    }

    /// The call that takes a frame, waiting up to `timeout_ms`.
    pub fn get_frame_call(&self, timeout_ms: u128) -> (r: MpiCall)
        ensures
            r == (MpiCall::ViGetChnFrame {
                pipe: 0,
                chn: self.spec_id(),
                timeout_ms: spec_timeout_arg(timeout_ms),
            }),
    {
        self.inner.get_frame_call(timeout_ms)
    }

    /// The frame once the call returned `code` and a frame of `size`.
    pub fn get_frame(&self, code: i32, size: FrameSize) -> (r: Result<ViFrame<'_>, Error>)
        ensures
            code == RK_SUCCESS ==> (r matches Ok(f) && f.spec_size() == size && f.spec_pipe_id()
                == self.spec_pipe_id() && f.spec_channel_id() == self.spec_id()),
            code != RK_SUCCESS ==> r == Err::<ViFrame<'_>, Error>(Error::Rockit { code }),
    {
        proof {
            use_type_invariant(self);
        }
        match self.inner.get_frame(code, size) {
            Ok(inner) => Ok(ViFrame { inner, channel: self }),
            Err(e) => Err(e),
        }
    }

    /// The call that disables the channel when it is let go.
    pub fn disable_call(&self) -> (r: MpiCall)
        ensures
            r == (MpiCall::ViDisableChn { pipe: 0, chn: self.spec_id() }),
    {
        self.inner.disable_call()
    }
}

/// A video input channel that owns its share of the camera device.
pub struct ViChannelOwned {
    pub(crate) inner: ViChannelInner,
    pub(crate) camera: CameraInner,
    mpi: RockitSys,
}

impl ViChannelOwned {
    /// The channel number.
    pub closed spec fn spec_id(&self) -> i32 {
        self.inner.id
    }

    /// The number of the camera device the channel keeps open.
    pub closed spec fn spec_camera_id(&self) -> i32 {
        self.camera.id
    }

    /// The number of pipes of the camera device the channel keeps open.
    pub closed spec fn spec_camera_num_pipes(&self) -> u32 {
        self.camera.num_pipes
    }

    /// The number of the channel's pipe.
    pub closed spec fn spec_pipe_id(&self) -> i32 {
        self.inner.pipe_id
    }

    /// The channel number.
    pub fn id(&self) -> (r: i32)
        ensures
            r == self.spec_id(),
    {
        self.inner.id
    }

    /// The number of the channel's pipe.
    pub fn pipe_id(&self) -> (r: i32)
        ensures
            r == self.spec_pipe_id(),
    {
        self.inner.pipe_id
    }

    /// The call that takes a frame, waiting up to `timeout_ms`.
    pub fn get_frame_call(&self, timeout_ms: u128) -> (r: MpiCall)
        ensures
            r == (MpiCall::ViGetChnFrame {
                pipe: 0,
                chn: self.spec_id(),
                timeout_ms: spec_timeout_arg(timeout_ms),
            }),
    {
        self.inner.get_frame_call(timeout_ms)
    }

    /// The frame once the call returned `code` and a frame of `size`.
    pub fn get_frame(&self, code: i32, size: FrameSize) -> (r: Result<ViFrameOwned, Error>)
        ensures
            code == RK_SUCCESS ==> (r matches Ok(f) && f.spec_size() == size && f.spec_pipe_id()
                == self.spec_pipe_id() && f.spec_channel_id() == self.spec_id()
                && f.spec_camera_id() == self.spec_camera_id()),
            code != RK_SUCCESS ==> r == Err::<ViFrameOwned, Error>(Error::Rockit { code }),
    {
        match self.inner.get_frame(code, size) {
            Ok(inner) => Ok(
                ViFrameOwned { inner, channel: self.inner, camera: self.camera, mpi: self.mpi },
            ),
            Err(e) => Err(e),
        }
    }

    /// The call that disables the channel when it is let go.
    pub fn disable_call(&self) -> (r: MpiCall)
        ensures
            r == (MpiCall::ViDisableChn { pipe: 0, chn: self.spec_id() }),
    {
        self.inner.disable_call()
    }

    pub(crate) fn parts(&self) -> (r: (ViChannelInner, CameraInner))
        ensures
            r.0.id == self.spec_id(),
            r.0.pipe_id == self.spec_pipe_id(),
            r.1.id == self.spec_camera_id(),
            r.1.num_pipes == self.spec_camera_num_pipes(),
    {
        (self.inner, self.camera)
    }
}

/// A frame taken from a channel: its size and where it came from.
#[derive(Clone, Copy)]
struct ViFrameInner {
    frame: FrameSize,
    pipe_id: i32,
    channel_id: i32,
}

impl ViFrameInner {
    /// The frame goes back to the channel's own pipe and number.
    fn release_call(&self) -> (r: MpiCall)
        ensures
            r == (MpiCall::ViReleaseChnFrame { pipe: self.pipe_id, chn: self.channel_id }),
    {
        MpiCall::ViReleaseChnFrame { pipe: self.pipe_id, chn: self.channel_id }
    }
}

/// A frame taken from a video input channel.
pub struct ViFrame<'a> {
    inner: ViFrameInner,
    channel: &'a ViChannel<'a>,
}

impl<'a> ViFrame<'a> {
    /// The frame's size.
    pub closed spec fn spec_size(&self) -> FrameSize {
        self.inner.frame
    }

    /// The pipe the frame came from.
    pub closed spec fn spec_pipe_id(&self) -> i32 {
        self.inner.pipe_id
    }

    /// The channel the frame came from.
    pub closed spec fn spec_channel_id(&self) -> i32 {
        self.inner.channel_id
    }

    /// The frame's width.
    pub fn width(&self) -> (r: u32)
        ensures
            r == self.spec_size().width,
    {
        self.inner.frame.width
    }

    /// The frame's height.
    pub fn height(&self) -> (r: u32)
        ensures
            r == self.spec_size().height,
    {
        self.inner.frame.height
    }

    /// The length of the frame's picture.
    pub fn data_len(&self) -> (r: usize)
        requires
            self.spec_size().width * self.spec_size().height * 3 <= usize::MAX,
        ensures
            r == spec_frame_data_len(self.spec_size()),
    {
        frame_data_len(self.inner.frame)
    }

    /// The frame's picture, given its mapping of `data_len()` bytes, or the
    /// error when the platform gave no address.
    pub fn data<'b>(&self, mapped: Option<&'b [u8]>) -> (r: Result<&'b [u8], Error>)
        requires
            mapped matches Some(s) ==> s@.len() == spec_frame_data_len(self.spec_size()),
        ensures
            mapped.is_none() ==> r == Err::<&'b [u8], Error>(Error::InvalidFramePointer),
            mapped matches Some(s) ==> r == Ok::<&'b [u8], Error>(s),
    {
        mapped_data(mapped)
    }

    /// The call that hands the frame back when it is let go.
    pub fn release_call(&self) -> (r: MpiCall)
        ensures
            r == (MpiCall::ViReleaseChnFrame {
                pipe: self.spec_pipe_id(),
                chn: self.spec_channel_id(),
            }),
    {
        self.inner.release_call()
    }
}

/// A frame taken from a video input channel that owns its share of the
/// channel and device.
pub struct ViFrameOwned {
    inner: ViFrameInner,
    channel: ViChannelInner,
    camera: CameraInner,
    mpi: RockitSys,
}

impl ViFrameOwned {
    /// The frame's size.
    pub closed spec fn spec_size(&self) -> FrameSize {
        self.inner.frame
    }

    /// The number of the camera device the frame keeps open.
    pub closed spec fn spec_camera_id(&self) -> i32 {
        self.camera.id
    }

    /// The pipe the frame came from.
    pub closed spec fn spec_pipe_id(&self) -> i32 {
        self.inner.pipe_id
    }

    /// The channel the frame came from.
    pub closed spec fn spec_channel_id(&self) -> i32 {
        self.inner.channel_id
    }

    /// The frame's width.
    pub fn width(&self) -> (r: u32)
        ensures
            r == self.spec_size().width,
    {
        self.inner.frame.width
    }

    /// The frame's height.
    pub fn height(&self) -> (r: u32)
        ensures
            r == self.spec_size().height,
    {
        self.inner.frame.height
    }

    /// The length of the frame's picture.
    pub fn data_len(&self) -> (r: usize)
        requires
            self.spec_size().width * self.spec_size().height * 3 <= usize::MAX,
        ensures
            r == spec_frame_data_len(self.spec_size()),
    {
        frame_data_len(self.inner.frame)
    }

    /// The frame's picture, given its mapping of `data_len()` bytes, or the
    /// error when the platform gave no address.
    pub fn data<'b>(&self, mapped: Option<&'b [u8]>) -> (r: Result<&'b [u8], Error>)
        requires
            mapped matches Some(s) ==> s@.len() == spec_frame_data_len(self.spec_size()),
        ensures
            mapped.is_none() ==> r == Err::<&'b [u8], Error>(Error::InvalidFramePointer),
            mapped matches Some(s) ==> r == Ok::<&'b [u8], Error>(s),
    {
        mapped_data(mapped)
    }

    /// The call that hands the frame back when it is let go.
    pub fn release_call(&self) -> (r: MpiCall)
        ensures
            r == (MpiCall::ViReleaseChnFrame {
                pipe: self.spec_pipe_id(),
                chn: self.spec_channel_id(),
            }),
    {
        self.inner.release_call()
    }
}

} // verus!
