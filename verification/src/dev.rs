//! The first form of the video input handles: a device borrowed from the
//! system, its pipes, a channel on a pipe and the frames taken from it.

use crate::call::{CallSeq, MpiCall};
use crate::vi::{
    open_device, open_outcome, spec_open_outcome, spec_vi_chn_attr, vi_channel_calls, CameraOpen,
    OpenStep, ViChnAttr,
};
use crate::{
    frame_data_len, mapped_data, rk_check_err, spec_frame_data_len, Error, FrameSize, RockitSys,
    ViLimits, RK_SUCCESS,
};
use vstd::prelude::*;

verus! {

/// Frames are waited for this many milliseconds.
pub const FRAME_TIMEOUT_MS: i32 = 1000;

impl RockitSys {
    /// Starts opening device `dev_id` with `num_pipes` pipes; a device
    /// number or pipe count above the platform's limits is refused before
    /// any call.
    pub fn dev_open(&self, dev_id: u8, num_pipes: u8) -> (r: Result<CameraOpen, Error>)
        ensures
            dev_id > self.spec_limits().max_dev ==> r == Err::<CameraOpen, Error>(
                Error::InvalidDevId { id: dev_id },
            ),
            dev_id <= self.spec_limits().max_dev && num_pipes > self.spec_limits().max_pipe ==> r
                == Err::<CameraOpen, Error>(Error::RequestedTooManyPipes { num: num_pipes }),
            dev_id <= self.spec_limits().max_dev && num_pipes <= self.spec_limits().max_pipe ==> (
            r matches Ok(o) && o.spec_dev() == dev_id && o.spec_num_pipes() == num_pipes
                && o.spec_step() == OpenStep::GetAttr),
    {
        let limits = self.limits();
        open_device(limits.max_dev, limits.max_pipe, dev_id, num_pipes)
    }

    /// The device once its open finished: open, or the error of the call
    /// that failed.
    pub fn dev(&self, open: &CameraOpen) -> (r: Result<RockitDev<'_>, Error>)
        requires
            open.finished(),
        ensures
            spec_open_outcome(*open) matches Ok((id, n)) ==> (r matches Ok(d) && d.spec_id() == id
                && d.spec_num_pipes() == n),
            spec_open_outcome(*open) matches Err(e) ==> r == Err::<RockitDev<'_>, Error>(e),
    {
        RockitDev::new(self, open)
    }
}

/// An open video input device.
pub struct RockitDev<'a> {
    mpi: &'a RockitSys,
    id: i32,
    num_pipes: u32,
}

impl<'a> RockitDev<'a> {
    /// The device number.
    pub closed spec fn spec_id(&self) -> i32 {
        self.id
    }

    /// The number of pipes the device is bound to.
    pub closed spec fn spec_num_pipes(&self) -> u32 {
        self.num_pipes
    }

    /// The video input limits of the platform.
    pub closed spec fn spec_limits(&self) -> ViLimits {
        self.mpi.spec_limits()
    }

    fn new(mpi: &'a RockitSys, open: &CameraOpen) -> (r: Result<Self, Error>)
        requires
            open.finished(),
        ensures
            spec_open_outcome(*open) matches Ok((id, n)) ==> (r matches Ok(d) && d.id == id
                && d.num_pipes == n && d.mpi == mpi),
            spec_open_outcome(*open) matches Err(e) ==> r == Err::<Self, Error>(e),
    {
        match open_outcome(open) {
            Ok((id, num_pipes)) => Ok(Self { mpi, id, num_pipes }),
            Err(e) => Err(e),
        }
    }

    /// The device's pipe `pipe_id`; a pipe number not below the device's
    /// pipe count is refused.
    pub fn get_pipe(&self, pipe_id: u8) -> (r: Result<ViPipe<'_>, Error>)
        ensures
            pipe_id < self.spec_num_pipes() ==> (r matches Ok(p) && p.spec_id() == pipe_id),
            pipe_id >= self.spec_num_pipes() ==> r == Err::<ViPipe<'_>, Error>(
                Error::InvalidPipeId { id: pipe_id },
            ),
    {
        if pipe_id as u32 >= self.num_pipes {
            return Err(Error::InvalidPipeId { id: pipe_id });
        }
        Ok(ViPipe::new(self, pipe_id as i32))
    }

    /// The call that disables the device when it is let go.
    pub fn disable_call(&self) -> (r: MpiCall)
        ensures
            r == (MpiCall::ViDisableDev { dev: self.spec_id() }),
    {
        MpiCall::ViDisableDev { dev: self.id }
    }
}

/// A pipe of a video input device.
pub struct ViPipe<'a> {
    dev: &'a RockitDev<'a>,
    id: i32,
}

impl<'a> ViPipe<'a> {
    /// The pipe number.
    pub closed spec fn spec_id(&self) -> i32 {
        self.id
    }

    /// The video input limits of the platform.
    pub closed spec fn spec_limits(&self) -> ViLimits {
        self.dev.spec_limits()
    }

    /// The pipe `id` of device `dev`.
    pub fn new(dev: &'a RockitDev<'a>, id: i32) -> (r: Self)
        ensures
            r.spec_id() == id,
    {
        Self { dev, id }
    }

    /// The calls that create channel `channel_id` of `width` by `height` on
    /// this pipe, keeping two frames for the user (see `vi_channel_calls`).
    pub fn create_channel_calls(&self, channel_id: u8, width: u16, height: u16) -> (r: Result<
        CallSeq,
        Error,
    >)
        ensures
            channel_id > self.spec_limits().max_chn ==> r == Err::<CallSeq, Error>(
                Error::InvalidDevId { id: channel_id },
            ),
            channel_id <= self.spec_limits().max_chn ==> (r matches Ok(seq) && seq.codes()
                == Seq::<i32>::empty() && seq.calls() == seq![
                MpiCall::ViSetChnAttr {
                    pipe: self.spec_id(),
                    chn: channel_id as i32,
                    attr: spec_vi_chn_attr(width, height, 2),
                },
                MpiCall::ViEnableChn { pipe: self.spec_id(), chn: channel_id as i32 },
            ]),
    {
        vi_channel_calls(self.dev.mpi.limits().max_chn, self.id, channel_id, width, height, 2)
    }

    /// The channel once its creation calls finished: created with the
    /// attributes it was set up with when they all succeeded, else the
    /// error of the one that failed.
    pub fn create_channel(&self, channel_id: u8, width: u16, height: u16, done: &CallSeq) -> (r:
        Result<RockitChannel<'_>, Error>)
        requires
            done.finished(),
            done.calls() == seq![
                MpiCall::ViSetChnAttr {
                    pipe: self.spec_id(),
                    chn: channel_id as i32,
                    attr: spec_vi_chn_attr(width, height, 2),
                },
                MpiCall::ViEnableChn { pipe: self.spec_id(), chn: channel_id as i32 },
            ],
        ensures
            done.spec_outcome() is Ok ==> (r matches Ok(c) && c.spec_id() == channel_id
                && c.spec_attr() == spec_vi_chn_attr(width, height, 2)),
            done.spec_outcome() matches Err(e) ==> r == Err::<RockitChannel<'_>, Error>(e),
    {
        match done.outcome() {
            Ok(()) => Ok(
                RockitChannel {
                    pipe: self,
                    id: channel_id as i32,
                    channel: crate::vi::vi_chn_attr(width, height, 2),
                },
            ),
            Err(e) => Err(e),
        }
    }
}

/// A video input channel on a pipe, with the attributes it was set up with.
pub struct RockitChannel<'a> {
    pipe: &'a ViPipe<'a>,
    id: i32,
    channel: ViChnAttr,
}

impl<'a> RockitChannel<'a> {
    /// The channel number.
    pub closed spec fn spec_id(&self) -> i32 {
        self.id
    }

    /// The number of the channel's pipe.
    pub closed spec fn spec_pipe_id(&self) -> i32 {
        self.pipe.id
    }

    /// The attributes the channel was set up with.
    pub closed spec fn spec_attr(&self) -> ViChnAttr {
        self.channel
    }

    /// The call that takes a frame from pipe 0 of the channel's number,
    /// waiting up to a second.
    pub fn get_frame_call(&self) -> (r: MpiCall)
        ensures
            r == (MpiCall::ViGetChnFrame { pipe: 0, chn: self.spec_id(), timeout_ms: 1000 }),
    {
        MpiCall::ViGetChnFrame { pipe: 0, chn: self.id, timeout_ms: FRAME_TIMEOUT_MS }
    }

    /// The frame once the call returned `code` and a frame of `size`.
    pub fn get_frame(&self, code: i32, size: FrameSize) -> (r: Result<ViFrame<'_>, Error>)
        ensures
            code == RK_SUCCESS ==> (r matches Ok(f) && f.spec_size() == size
                && f.spec_pipe_id() == self.spec_pipe_id() && f.spec_channel_id() == self.spec_id()),
            code != RK_SUCCESS ==> r == Err::<ViFrame<'_>, Error>(Error::Rockit { code }),
    {
        match rk_check_err(code) {
            Ok(()) => Ok(ViFrame { channel: self, frame: size }),
            Err(e) => Err(e),
        }
    }

    /// The call that disables the channel, on pipe 0 of its number, when it
    /// is let go.
    pub fn disable_call(&self) -> (r: MpiCall)
        ensures
            r == (MpiCall::ViDisableChn { pipe: 0, chn: self.spec_id() }),
    {
        MpiCall::ViDisableChn { pipe: 0, chn: self.id }
    }
}

/// A frame taken from a channel.
pub struct ViFrame<'a> {
    channel: &'a RockitChannel<'a>,
    frame: FrameSize,
}

impl<'a> ViFrame<'a> {
    /// The frame's size.
    pub closed spec fn spec_size(&self) -> FrameSize {
        self.frame
    }

    /// The pipe the frame came from.
    pub closed spec fn spec_pipe_id(&self) -> i32 {
        self.channel.pipe.id
    }

    /// The channel the frame came from.
    pub closed spec fn spec_channel_id(&self) -> i32 {
        self.channel.id
    }

    /// The frame's width.
    pub fn width(&self) -> (r: u32)
        ensures
            r == self.spec_size().width,
    {
        self.frame.width
    }

    /// The frame's height.
    pub fn height(&self) -> (r: u32)
        ensures
            r == self.spec_size().height,
    {
        self.frame.height
    }

    /// The length of the frame's picture.
    pub fn data_len(&self) -> (r: usize)
        requires
            self.spec_size().width * self.spec_size().height * 3 <= usize::MAX,
        ensures
            r == spec_frame_data_len(self.spec_size()),
    {
        frame_data_len(self.frame)
    }

    /// The frame's picture, given its mapping of `data_len()` bytes, or the
    /// error when the platform gave no address.
    pub fn data<'b>(&self, mapped: Option<&'b [u8]>) -> (r: Result<&'b [u8], Error>)
        requires
            mapped matches Some(s) ==> s@.len() == spec_frame_data_len(self.spec_size()),
        ensures
            mapped.is_none() ==> r == Err::<&'b [u8], Error>(Error::InvalidFramePointer),
            mapped matches Some(s) ==> r == Ok::<&'b [u8], Error>(s),
    {
        mapped_data(mapped)
    }

    /// The call that hands the frame back, to the channel's pipe and
    /// number, when it is let go.
    pub fn release_call(&self) -> (r: MpiCall)
        ensures
            r == (MpiCall::ViReleaseChnFrame {
                pipe: self.spec_pipe_id(),
                chn: self.spec_channel_id(),
            }),
    {
        MpiCall::ViReleaseChnFrame { pipe: self.channel.pipe.id, chn: self.channel.id }
    }
}

} // verus!
