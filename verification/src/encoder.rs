//! A camera encoder: a camera's video input channel bound to a started
//! encoder channel, set up step by step and then read stream by stream.

pub mod simple;

pub use simple::{
    EncodeRun, EncodeStep, SimpleEncoder, SimpleEncoderSetup, SimpleEncoderStep,
};

use crate::call::MpiCall;
use crate::venc::state::Runtime;
use crate::venc::{
    spec_venc_chn_attr, spec_venc_drop_calls, spec_vi_venc_bind, venc_chn_attr, venc_config_fits,
    StreamFrame, VencChannelBindOwned, VencChannelInner, VencChnAttr, VencConfig, VencStreamOwned,
};
use crate::vi::{
    next_open_step, open_call, open_step_after, open_step_call, open_steps_left, spec_vi_chn_attr, vi_chn_attr, CameraId, CameraInner, OpenStep,
    ViChannelInner,
};
use crate::{
    spec_timeout_arg, ChannelBind, Error, ModId, MppChn, RockitSys, RK_SUCCESS,
};
use vstd::prelude::*;

verus! {

/// The camera is bound to this many pipes.
pub const ENCODER_CAMERA_PIPES: u8 = 1;

/// The pipe of the camera that is used.
pub const ENCODER_PIPE: u8 = 0;

/// The video input channel that is created on that pipe.
pub const ENCODER_VI_CHANNEL: u8 = 0;

/// The steps of setting a camera encoder up.
#[derive(Clone, Copy, Debug, PartialEq, Eq, Structural)]
pub enum CameraEncoderStep {
    /// Open the camera, at step `step` of its open.
    OpenCamera { step: OpenStep },
    /// Set the attributes of the video input channel.
    SetChannelAttr,
    /// Enable the video input channel.
    EnableChannel,
    /// Create the encoder channel.
    CreateEncoder,
    /// Start the encoder channel.
    StartEncoder,
    /// Bind the video input channel to the encoder channel.
    Bind,
    /// The encoder is set up.
    Ready,
    /// The set-up ended with `err`.
    Failed { err: Error },
}

/// What follows the camera's open: its pipe must exist and the channel
/// number must be within the platform's limit, else the set-up fails.
pub open spec fn after_camera_open(max_chn: u32) -> CameraEncoderStep {
    if ENCODER_PIPE >= ENCODER_CAMERA_PIPES {
        CameraEncoderStep::Failed { err: Error::InvalidPipeId { id: ENCODER_PIPE } }
    } else if ENCODER_VI_CHANNEL > max_chn {
        CameraEncoderStep::Failed { err: Error::InvalidDevId { id: ENCODER_VI_CHANNEL } }
    } else {
        CameraEncoderStep::SetChannelAttr
    }
}

/// The step that follows `step` once its call returned `code`. The camera's
/// open runs as `next_open_step` says; every other call must succeed, and
/// the first failure ends the set-up with its code.
pub open spec fn next_encoder_step(step: CameraEncoderStep, code: i32, max_chn: u32) -> CameraEncoderStep {
    match step {
        CameraEncoderStep::OpenCamera { step: s } => match next_open_step(s, code) {
            OpenStep::Opened => after_camera_open(max_chn),
            OpenStep::Failed { code: c } => CameraEncoderStep::Failed { err: Error::Rockit { code: c } },
            s2 => CameraEncoderStep::OpenCamera { step: s2 },
        },
        CameraEncoderStep::SetChannelAttr => if code == RK_SUCCESS {
            CameraEncoderStep::EnableChannel
        } else {
            CameraEncoderStep::Failed { err: Error::Rockit { code } }
        },
        CameraEncoderStep::EnableChannel => if code == RK_SUCCESS {
            CameraEncoderStep::CreateEncoder
        } else {
            CameraEncoderStep::Failed { err: Error::Rockit { code } }
        },
        CameraEncoderStep::CreateEncoder => if code == RK_SUCCESS {
            CameraEncoderStep::StartEncoder
        } else {
            CameraEncoderStep::Failed { err: Error::Rockit { code } }
        },
        CameraEncoderStep::StartEncoder => if code == RK_SUCCESS {
            CameraEncoderStep::Bind
        } else {
            CameraEncoderStep::Failed { err: Error::Rockit { code } }
        },
        CameraEncoderStep::Bind => if code == RK_SUCCESS {
            CameraEncoderStep::Ready
        } else {
            CameraEncoderStep::Failed { err: Error::Rockit { code } }
        },
        CameraEncoderStep::Ready => step,
        CameraEncoderStep::Failed { .. } => step,
    }
}

/// The number of calls left at most before a set-up at `step` ends.
pub open spec fn encoder_steps_left(step: CameraEncoderStep) -> nat {
    match step {
        CameraEncoderStep::OpenCamera { step: s } => open_steps_left(s) + 5,
        CameraEncoderStep::SetChannelAttr => 5,
        CameraEncoderStep::EnableChannel => 4,
        CameraEncoderStep::CreateEncoder => 3,
        CameraEncoderStep::StartEncoder => 2,
        CameraEncoderStep::Bind => 1,
        CameraEncoderStep::Ready => 0,
        CameraEncoderStep::Failed { .. } => 0,
    }
}

/// A step the set-up can be at: a camera being opened has a call left.
pub open spec fn encoder_step_valid(step: CameraEncoderStep) -> bool {
    step matches CameraEncoderStep::OpenCamera { step: s } ==> open_steps_left(s) > 0
}

/// The step reached from `step` by calls that returned `codes`, in order.
pub open spec fn run_encoder_steps(step: CameraEncoderStep, codes: Seq<i32>, max_chn: u32) -> CameraEncoderStep
    decreases codes.len(),
{
    if codes.len() == 0 {
        step
    } else {
        run_encoder_steps(next_encoder_step(step, codes[0], max_chn), codes.drop_first(), max_chn)
    }
}

/// Setting a camera encoder up makes at most ten calls: from any step it
/// can be at, that many codes as the step has calls left bring it to an
/// end, ready or failed, whatever the codes are.
pub proof fn lemma_encoder_setup_ends(step: CameraEncoderStep, codes: Seq<i32>, max_chn: u32)
    requires
        encoder_step_valid(step),
        codes.len() >= encoder_steps_left(step),
    ensures
        encoder_steps_left(run_encoder_steps(step, codes, max_chn)) == 0,
        encoder_steps_left(CameraEncoderStep::OpenCamera { step: OpenStep::GetAttr }) == 10,
    decreases codes.len(),
{
    if codes.len() > 0 {
        let next = next_encoder_step(step, codes[0], max_chn);
        assert(encoder_step_valid(next));
        assert(encoder_steps_left(next) == 0 || encoder_steps_left(next) < encoder_steps_left(step));
        lemma_encoder_setup_ends(next, codes.drop_first(), max_chn);
    }
}

/// Whether `step` is one of the set-up's own calls after the camera's
/// open: the video input channel's set-up and enabling, the encoder's
/// creation and start, and the binding.
pub open spec fn is_setup_call_step(step: CameraEncoderStep) -> bool {
    ||| step == CameraEncoderStep::SetChannelAttr
    ||| step == CameraEncoderStep::EnableChannel
    ||| step == CameraEncoderStep::CreateEncoder
    ||| step == CameraEncoderStep::StartEncoder
    ||| step == CameraEncoderStep::Bind
}

/// The first failure ends a camera encoder's set-up with its code: after
/// the camera's open, every call must succeed, and a call answered with
/// any other code ends the set-up failed with that code; a call that fails
/// while the camera is being configured, enabled or bound to its pipes
/// ends it the same way. A successful call moves the set-up on, never to a
/// failure; the set-up is ready only once the binding succeeded; an ended
/// set-up stays as it is.
pub proof fn lemma_encoder_first_failure_ends(step: CameraEncoderStep, code: i32, max_chn: u32)
    ensures
        is_setup_call_step(step) && code != RK_SUCCESS ==> next_encoder_step(step, code, max_chn) == (
        CameraEncoderStep::Failed { err: Error::Rockit { code } }),
        is_setup_call_step(step) && code == RK_SUCCESS ==> !(next_encoder_step(
            step,
            code,
            max_chn,
        ) is Failed),
        (step == (CameraEncoderStep::OpenCamera { step: OpenStep::SetAttr }) || step == (
        CameraEncoderStep::OpenCamera { step: OpenStep::Enable }) || step == (
        CameraEncoderStep::OpenCamera { step: OpenStep::BindPipes })) && code != RK_SUCCESS
            ==> next_encoder_step(step, code, max_chn) == (CameraEncoderStep::Failed {
            err: Error::Rockit { code },
        }),
        next_encoder_step(step, code, max_chn) == CameraEncoderStep::Ready ==> (step
            == CameraEncoderStep::Ready || (step == CameraEncoderStep::Bind && code == RK_SUCCESS)),
        (step == CameraEncoderStep::Ready || step is Failed) ==> next_encoder_step(step, code, max_chn)
            == step,
        step == CameraEncoderStep::SetChannelAttr && code == RK_SUCCESS ==> next_encoder_step(
            step,
            code,
            max_chn,
        ) == CameraEncoderStep::EnableChannel,
        step == CameraEncoderStep::EnableChannel && code == RK_SUCCESS ==> next_encoder_step(
            step,
            code,
            max_chn,
        ) == CameraEncoderStep::CreateEncoder,
        step == CameraEncoderStep::CreateEncoder && code == RK_SUCCESS ==> next_encoder_step(
            step,
            code,
            max_chn,
        ) == CameraEncoderStep::StartEncoder,
        step == CameraEncoderStep::StartEncoder && code == RK_SUCCESS ==> next_encoder_step(
            step,
            code,
            max_chn,
        ) == CameraEncoderStep::Bind,
        next_encoder_step(
            CameraEncoderStep::OpenCamera { step: OpenStep::BindPipes },
            RK_SUCCESS,
            max_chn,
        ) == CameraEncoderStep::SetChannelAttr,
{
}

/// A set-up that reached ready went through every step: a run of answers
/// that leads from anywhere after the camera's open to ready holds only
/// successes once it is past the open (each of its answers at a set-up
/// step was a success).
pub proof fn lemma_encoder_ready_only_after_successes(
    step: CameraEncoderStep,
    codes: Seq<i32>,
    max_chn: u32,
)
    requires
        is_setup_call_step(step),
        run_encoder_steps(step, codes, max_chn) == CameraEncoderStep::Ready,
    ensures
        codes.len() >= encoder_steps_left(step),
        forall|i: int| 0 <= i < encoder_steps_left(step) ==> #[trigger] codes[i] == RK_SUCCESS,
    decreases codes.len(),
{
    if codes.len() == 0 {
        assert(run_encoder_steps(step, codes, max_chn) == step);
    } else {
        let next = next_encoder_step(step, codes[0], max_chn);
        lemma_encoder_first_failure_ends(step, codes[0], max_chn);
        if codes[0] != RK_SUCCESS {
            lemma_failed_stays(next, codes.drop_first(), max_chn);
            assert(false);
        }
        if step == CameraEncoderStep::Bind {
            assert(encoder_steps_left(step) == 1);
        } else {
            lemma_encoder_ready_only_after_successes(next, codes.drop_first(), max_chn);
            assert forall|i: int| 0 <= i < encoder_steps_left(step) implies #[trigger] codes[i]
                == RK_SUCCESS by {
                if i > 0 {
                    assert(codes[i] == codes.drop_first()[i - 1]);
                }
            }
        }
    }
}

/// An ended set-up stays ended, whatever further answers come.
proof fn lemma_failed_stays(step: CameraEncoderStep, codes: Seq<i32>, max_chn: u32)
    requires
        step is Failed,
    ensures
        run_encoder_steps(step, codes, max_chn) == step,
    decreases codes.len(),
{
    if codes.len() > 0 {
        lemma_failed_stays(step, codes.drop_first(), max_chn);
    }
}

/// The calls of a camera encoder's set-up after the camera's open: video
/// input channel 0 on pipe 0 is given the asked picture size (keeping no
/// frame for the user) and enabled; the encoder channel is created with
/// the configured attributes and started with no limit on the frames it
/// takes; then pipe 0's channel 0 is bound to that encoder channel.
pub proof fn lemma_encoder_setup_calls(
    camera: i32,
    encoder: i32,
    width: u16,
    height: u16,
    attr: VencChnAttr,
)
    ensures
        encoder_step_call(CameraEncoderStep::SetChannelAttr, camera, encoder, width, height, attr)
            == Some(MpiCall::ViSetChnAttr { pipe: 0, chn: 0, attr: spec_vi_chn_attr(width, height, 0) }),
        encoder_step_call(CameraEncoderStep::EnableChannel, camera, encoder, width, height, attr)
            == Some(MpiCall::ViEnableChn { pipe: 0, chn: 0 }),
        encoder_step_call(CameraEncoderStep::CreateEncoder, camera, encoder, width, height, attr)
            == Some(MpiCall::VencCreateChn { chn: encoder, venc_attr: attr }),
        encoder_step_call(CameraEncoderStep::StartEncoder, camera, encoder, width, height, attr)
            == Some(MpiCall::VencStartRecvFrame { chn: encoder, recv_pic_num: -1i32 }),
        encoder_step_call(CameraEncoderStep::Bind, camera, encoder, width, height, attr) == Some(
            MpiCall::SysBind {
                bind: ChannelBind {
                    src_channel: MppChn { mod_id: ModId::Vi, dev_id: 0, chn_id: 0 },
                    dst_channel: MppChn { mod_id: ModId::Venc, dev_id: 0, chn_id: encoder },
                },
            },
        ),
        encoder_step_call(CameraEncoderStep::OpenCamera { step: OpenStep::BindPipes }, camera, encoder, width, height, attr)
            == Some(MpiCall::ViSetDevBindPipe { dev: camera, num_pipes: 1 }),
        forall|s: OpenStep|
            #![auto]
            encoder_step_call(CameraEncoderStep::OpenCamera { step: s }, camera, encoder, width, height, attr)
                == open_step_call(s, camera, 1),
        encoder_step_call(CameraEncoderStep::Ready, camera, encoder, width, height, attr) is None,
{
}

/// The call made at `step`, if any, for camera `camera` and encoder channel
/// `encoder`, with a video input picture of `width` by `height` and the
/// encoder attributes `attr`.
pub open spec fn encoder_step_call(
    step: CameraEncoderStep,
    camera: i32,
    encoder: i32,
    width: u16,
    height: u16,
    attr: VencChnAttr,
) -> Option<MpiCall> {
    match step {
        CameraEncoderStep::OpenCamera { step: s } => open_step_call(
            s,
            camera,
            ENCODER_CAMERA_PIPES as u32,
        ),
        CameraEncoderStep::SetChannelAttr => Some(
            MpiCall::ViSetChnAttr {
                pipe: ENCODER_PIPE as i32,
                chn: ENCODER_VI_CHANNEL as i32,
                attr: spec_vi_chn_attr(width, height, 0),
            },
        ),
        CameraEncoderStep::EnableChannel => Some(
            MpiCall::ViEnableChn { pipe: ENCODER_PIPE as i32, chn: ENCODER_VI_CHANNEL as i32 },
        ),
        CameraEncoderStep::CreateEncoder => Some(
            MpiCall::VencCreateChn { chn: encoder, venc_attr: attr },
        ),
        CameraEncoderStep::StartEncoder => Some(
            MpiCall::VencStartRecvFrame { chn: encoder, recv_pic_num: -1i32 },
        ),
        CameraEncoderStep::Bind => Some(
            MpiCall::SysBind {
                bind: spec_vi_venc_bind(encoder, ENCODER_VI_CHANNEL as i32, ENCODER_PIPE as i32),
            },
        ),
        CameraEncoderStep::Ready => None,
        CameraEncoderStep::Failed { .. } => None,
    }
}

/// The calls that let go what a failed set-up had made, newest first: the
/// encoder channel (stopped first if it was started), then the video input
/// channel, then the camera.
pub open spec fn encoder_cleanup_calls(
    camera_open: bool,
    channel_created: bool,
    encoder_state: Option<Runtime>,
    camera: i32,
    encoder: i32,
) -> Seq<MpiCall> {
    let enc = match encoder_state {
        Some(state) => spec_venc_drop_calls(encoder, state),
        None => Seq::empty(),
    };
    let chn = if channel_created {
        seq![MpiCall::ViDisableChn { pipe: 0, chn: ENCODER_VI_CHANNEL as i32 }]
    } else {
        Seq::empty()
    };
    let cam = if camera_open {
        seq![MpiCall::ViDisableDev { dev: camera }]
    } else {
        Seq::empty()
    };
    enc + chn + cam
}

/// A failed set-up lets go exactly what it made, newest first: the encoder
/// channel's calls (if it was created) come first and end with its
/// destruction, then the video input channel is disabled (if it was
/// enabled), and the camera is disabled last (if it was opened); nothing
/// made is let go twice and nothing not made is let go.
pub proof fn lemma_encoder_cleanup_order(
    camera_open: bool,
    channel_created: bool,
    encoder_state: Option<Runtime>,
    camera: i32,
    encoder: i32,
)
    ensures
        ({
            let calls = encoder_cleanup_calls(camera_open, channel_created, encoder_state, camera, encoder);
            let n_enc: int = match encoder_state {
                Some(Runtime::Started) => 2,
                Some(_) => 1,
                None => 0,
            };
            &&& calls.len() == n_enc + (if channel_created { 1int } else { 0 }) + (if camera_open { 1int } else { 0 })
            &&& encoder_state is Some ==> calls[n_enc - 1] == (MpiCall::VencDestroyChn { chn: encoder })
            &&& encoder_state == Some(Runtime::Started) ==> calls[0] == (MpiCall::VencStopRecvFrame { chn: encoder })
            &&& channel_created ==> calls[n_enc] == (MpiCall::ViDisableChn { pipe: 0, chn: 0 })
            &&& camera_open ==> calls.last() == (MpiCall::ViDisableDev { dev: camera })
        }),
{
}

/// The set-up of a camera encoder, step by step: open camera `camera` with
/// one pipe, take pipe 0, create video input channel 0 at the configured
/// size, create encoder channel `encoder` for the configuration, start it,
/// and bind the video input channel to it. The first error ends the set-up.
pub struct CameraEncoderSetup {
    mpi: RockitSys,
    camera: i32,
    encoder: i32,
    width: u16,
    height: u16,
    attr: VencChnAttr,
    step: CameraEncoderStep,
    camera_open: bool,
    channel_created: bool,
    encoder_state: Option<Runtime>,
}

impl CameraEncoderSetup {
    /// A camera still being opened has a call left to make.
    #[verifier::type_invariant]
    spec fn open_unfinished(self) -> bool {
        encoder_step_valid(self.step)
    }

    /// The camera number.
    pub closed spec fn spec_camera(&self) -> i32 {
        self.camera
    }

    /// The encoder channel number.
    pub closed spec fn spec_encoder(&self) -> i32 {
        self.encoder
    }

    /// The picture width.
    pub closed spec fn spec_width(&self) -> u16 {
        self.width
    }

    /// The picture height.
    pub closed spec fn spec_height(&self) -> u16 {
        self.height
    }

    /// The attributes the encoder channel is created with.
    pub closed spec fn spec_attr(&self) -> VencChnAttr {
        self.attr
    }

    /// The largest channel number accepted.
    pub closed spec fn spec_max_chn(&self) -> u32 {
        self.mpi.spec_limits().max_chn
    }

    /// The step reached.
    pub closed spec fn spec_step(&self) -> CameraEncoderStep {
        self.step
    }

    /// Whether the camera is open.
    pub closed spec fn spec_camera_open(&self) -> bool {
        self.camera_open
    }

    /// Whether the video input channel is created.
    pub closed spec fn spec_channel_created(&self) -> bool {
        self.channel_created
    }

    /// Whether the encoder channel is created, and then whether started.
    pub closed spec fn spec_encoder_state(&self) -> Option<Runtime> {
        self.encoder_state
    }

    /// No call is left to make.
    pub open spec fn finished(&self) -> bool {
        self.spec_step() is Ready || self.spec_step() is Failed
    }

    /// The set-up of an encoder of `config` on camera `camera_id`, with
    /// encoder channel `encoder_id`. A camera number or pipe count above
    /// the platform's limits ends it before any call.
    pub fn new(mpi: &RockitSys, camera_id: CameraId, encoder_id: u8, config: &VencConfig) -> (r:
        Self)
        requires
            venc_config_fits(*config),
        ensures
            r.spec_camera() == camera_id.spec_number() as i32,
            r.spec_encoder() == encoder_id as i32,
            r.spec_width() == config.width,
            r.spec_height() == config.height,
            r.spec_attr() == spec_venc_chn_attr(*config),
            r.spec_max_chn() == mpi.spec_limits().max_chn,
            !r.spec_camera_open() && !r.spec_channel_created() && r.spec_encoder_state().is_none(),
            camera_id.spec_number() > mpi.spec_limits().max_dev ==> r.spec_step() == (
            CameraEncoderStep::Failed { err: Error::InvalidDevId { id: camera_id.spec_number() } }),
            camera_id.spec_number() <= mpi.spec_limits().max_dev && ENCODER_CAMERA_PIPES
                > mpi.spec_limits().max_pipe ==> r.spec_step() == (CameraEncoderStep::Failed {
                err: Error::RequestedTooManyPipes { num: ENCODER_CAMERA_PIPES },
            }),
            camera_id.spec_number() <= mpi.spec_limits().max_dev && ENCODER_CAMERA_PIPES
                <= mpi.spec_limits().max_pipe ==> r.spec_step() == (CameraEncoderStep::OpenCamera {
                step: OpenStep::GetAttr,
            }),
    {
        let limits = mpi.limits();
        let camera = camera_id.as_u8();
        let step = if camera as u32 > limits.max_dev {
            CameraEncoderStep::Failed { err: Error::InvalidDevId { id: camera } }
        } else if ENCODER_CAMERA_PIPES as u32 > limits.max_pipe {
            CameraEncoderStep::Failed {
                err: Error::RequestedTooManyPipes { num: ENCODER_CAMERA_PIPES },
            }
        } else {
            CameraEncoderStep::OpenCamera { step: OpenStep::GetAttr }
        };
        CameraEncoderSetup {
            mpi: *mpi,
            camera: camera as i32,
            encoder: encoder_id as i32,
            width: config.width,
            height: config.height,
            attr: venc_chn_attr(config),
            step,
            camera_open: false,
            channel_created: false,
            encoder_state: None,
        }
    }

    /// The step reached.
    pub fn step(&self) -> (r: CameraEncoderStep)
        ensures
            r == self.spec_step(),
    {
        self.step
    }

    /// The call to make next, if any.
    pub fn next_call(&self) -> (r: Option<MpiCall>)
        ensures
            r == encoder_step_call(
                self.spec_step(),
                self.spec_camera(),
                self.spec_encoder(),
                self.spec_width(),
                self.spec_height(),
                self.spec_attr(),
            ),
            r.is_none() == self.finished(),
    {
        proof {
            use_type_invariant(self);
        }
        match self.step {
            CameraEncoderStep::OpenCamera { step: s } => open_call(
                s,
                self.camera,
                ENCODER_CAMERA_PIPES as u32,
            ),
            CameraEncoderStep::SetChannelAttr => Some(
                MpiCall::ViSetChnAttr {
                    pipe: ENCODER_PIPE as i32,
                    chn: ENCODER_VI_CHANNEL as i32,
                    attr: vi_chn_attr(self.width, self.height, 0),
                },
            ),
            CameraEncoderStep::EnableChannel => Some(
                MpiCall::ViEnableChn { pipe: ENCODER_PIPE as i32, chn: ENCODER_VI_CHANNEL as i32 },
            ),
            CameraEncoderStep::CreateEncoder => Some(
                MpiCall::VencCreateChn { chn: self.encoder, venc_attr: self.attr },
            ),
            CameraEncoderStep::StartEncoder => Some(
                MpiCall::VencStartRecvFrame { chn: self.encoder, recv_pic_num: -1 },
            ),
            CameraEncoderStep::Bind => Some(
                MpiCall::SysBind {
                    bind: ChannelBind {
                        src_channel: MppChn {
                            mod_id: ModId::Vi,
                            dev_id: ENCODER_PIPE as i32,
                            chn_id: ENCODER_VI_CHANNEL as i32,
                        },
                        dst_channel: MppChn { mod_id: ModId::Venc, dev_id: 0, chn_id: self.encoder },
                    },
                },
            ),
            CameraEncoderStep::Ready => None,
            CameraEncoderStep::Failed { .. } => None,
        }
    }

    /// Records the return code of the call just made.
    pub fn record(&mut self, code: i32)
        requires
            !old(self).finished(),
        ensures
            final(self).spec_step() == next_encoder_step(
                old(self).spec_step(),
                code,
                old(self).spec_max_chn(),
            ),
            final(self).spec_camera() == old(self).spec_camera(),
            final(self).spec_encoder() == old(self).spec_encoder(),
            final(self).spec_width() == old(self).spec_width(),
            final(self).spec_height() == old(self).spec_height(),
            final(self).spec_attr() == old(self).spec_attr(),
            final(self).spec_max_chn() == old(self).spec_max_chn(),
            final(self).spec_camera_open() == (old(self).spec_camera_open() || (old(self).spec_step() matches CameraEncoderStep::OpenCamera { step: s } && next_open_step(
                s,
                code,
            ) == OpenStep::Opened)),
            final(self).spec_channel_created() == (old(self).spec_channel_created() || (old(self).spec_step() == CameraEncoderStep::EnableChannel && code == RK_SUCCESS)),
            final(self).spec_encoder_state() == (if old(self).spec_step()
                == CameraEncoderStep::CreateEncoder && code == RK_SUCCESS {
                Some(Runtime::Initialized)
            } else if old(self).spec_step() == CameraEncoderStep::StartEncoder && code
                == RK_SUCCESS {
                Some(Runtime::Started)
            } else {
                old(self).spec_encoder_state()
            }),
    {
        proof {
            use_type_invariant(&*self);
        }
        let max_chn = self.mpi.limits().max_chn;
        let ok = code == RK_SUCCESS;
        let fail = CameraEncoderStep::Failed { err: Error::Rockit { code } };
        match self.step {
            CameraEncoderStep::OpenCamera { step: s } => {
                let s2 = open_step_after(s, code);
                match s2 {
                    OpenStep::Opened => {
                        self.camera_open = true;
                        self.step =
                            if ENCODER_PIPE >= ENCODER_CAMERA_PIPES {
                                CameraEncoderStep::Failed {
                                    err: Error::InvalidPipeId { id: ENCODER_PIPE },
                                }
                            } else if ENCODER_VI_CHANNEL as u32 > max_chn {
                                CameraEncoderStep::Failed {
                                    err: Error::InvalidDevId { id: ENCODER_VI_CHANNEL },
                                }
                            } else {
                                CameraEncoderStep::SetChannelAttr
                            };
                    },
                    OpenStep::Failed { code: c } => {
                        self.step = CameraEncoderStep::Failed { err: Error::Rockit { code: c } };
                    },
                    _ => {
                        self.step = CameraEncoderStep::OpenCamera { step: s2 };
                    },
                }
            },
            CameraEncoderStep::SetChannelAttr => {
                self.step = if ok {
                    CameraEncoderStep::EnableChannel
                } else {
                    fail
                };
            },
            CameraEncoderStep::EnableChannel => {
                if ok {
                    self.channel_created = true;
                    self.step = CameraEncoderStep::CreateEncoder;
                } else {
                    self.step = fail;
                }
            },
            CameraEncoderStep::CreateEncoder => {
                if ok {
                    self.encoder_state = Some(Runtime::Initialized);
                    self.step = CameraEncoderStep::StartEncoder;
                } else {
                    self.step = fail;
                }
            },
            CameraEncoderStep::StartEncoder => {
                if ok {
                    self.encoder_state = Some(Runtime::Started);
                    self.step = CameraEncoderStep::Bind;
                } else {
                    self.step = fail;
                }
            },
            CameraEncoderStep::Bind => {
                self.step = if ok {
                    CameraEncoderStep::Ready
                } else {
                    fail
                };
            },
            CameraEncoderStep::Ready => {},
            CameraEncoderStep::Failed { .. } => {},
        }
    }

    /// The calls that let go what a failed set-up had made (see
    /// `encoder_cleanup_calls`).
    pub fn cleanup_calls(&self) -> (r: Vec<MpiCall>)
        ensures
            r@ == encoder_cleanup_calls(
                self.spec_camera_open(),
                self.spec_channel_created(),
                self.spec_encoder_state(),
                self.spec_camera(),
                self.spec_encoder(),
            ),
    {
        let mut calls: Vec<MpiCall> = Vec::new();
        match self.encoder_state {
            Some(state) => {
                if state == Runtime::Started {
                    calls.push(MpiCall::VencStopRecvFrame { chn: self.encoder });
                }
                calls.push(MpiCall::VencDestroyChn { chn: self.encoder });
            },
            None => {},
        }
        let ghost after_enc = calls@;
        if self.channel_created {
            calls.push(MpiCall::ViDisableChn { pipe: 0, chn: ENCODER_VI_CHANNEL as i32 });
        }
        let ghost after_chn = calls@;
        if self.camera_open {
            calls.push(MpiCall::ViDisableDev { dev: self.camera });
        }
        proof {
            let enc = match self.encoder_state {
                Some(state) => spec_venc_drop_calls(self.encoder, state),
                None => Seq::empty(),
            };
            assert(after_enc =~= enc);
            let chn = if self.channel_created {
                seq![MpiCall::ViDisableChn { pipe: 0, chn: ENCODER_VI_CHANNEL as i32 }]
            } else {
                Seq::empty()
            };
            assert(after_chn =~= enc + chn);
            assert(calls@ =~= encoder_cleanup_calls(
                self.camera_open,
                self.channel_created,
                self.encoder_state,
                self.camera,
                self.encoder,
            ));
        }
        calls
    }
}

/// A camera encoder: the camera's video input channel bound to a started
/// encoder channel, with a place for the streams it produces.
pub struct CameraEncoder {
    enc: VencChannelBindOwned,
    frame: StreamFrame,
}

impl CameraEncoder {
    /// The number of the camera device kept open.
    pub closed spec fn spec_camera_id(&self) -> i32 {
        self.enc.spec_camera_id()
    }

    /// The encoder channel kept started.
    pub closed spec fn spec_encoder_id(&self) -> i32 {
        self.enc.spec_venc_id()
    }

    /// The video input channel kept enabled.
    pub closed spec fn spec_vi_channel_id(&self) -> i32 {
        self.enc.spec_vi_channel_id()
    }

    /// The pipe of the video input channel.
    pub closed spec fn spec_vi_pipe_id(&self) -> i32 {
        self.enc.spec_vi_pipe_id()
    }

    /// The binding.
    pub closed spec fn spec_bind(&self) -> ChannelBind {
        self.enc.spec_bind()
    }

    /// The encoder once its set-up finished: the camera encoder when every
    /// step succeeded, else the error that ended the set-up (whose
    /// `cleanup_calls` let go what it had made).
    pub fn new(setup: &CameraEncoderSetup) -> (r: Result<CameraEncoder, Error>)
        requires
            setup.finished(),
        ensures
            setup.spec_step() == CameraEncoderStep::Ready ==> (r matches Ok(e) && e.spec_camera_id()
                == setup.spec_camera() && e.spec_encoder_id() == setup.spec_encoder()
                && e.spec_vi_channel_id() == ENCODER_VI_CHANNEL && e.spec_vi_pipe_id()
                == ENCODER_PIPE && e.spec_bind() == spec_vi_venc_bind(
                setup.spec_encoder(),
                ENCODER_VI_CHANNEL as i32,
                ENCODER_PIPE as i32,
            )),
            setup.spec_step() matches CameraEncoderStep::Failed { err } ==> r == Err::<
                CameraEncoder,
                Error,
            >(err),
    {
        match setup.step {
            CameraEncoderStep::Failed { err } => Err(err),
            _ => {
                let camera = CameraInner { id: setup.camera, num_pipes: ENCODER_CAMERA_PIPES as u32 };
                let vi_channel = ViChannelInner {
                    id: ENCODER_VI_CHANNEL as i32,
                    pipe_id: ENCODER_PIPE as i32,
                };
                let venc_channel = VencChannelInner { id: setup.encoder, state: Runtime::Started };
                let bind = ChannelBind {
                    src_channel: MppChn {
                        mod_id: ModId::Vi,
                        dev_id: ENCODER_PIPE as i32,
                        chn_id: ENCODER_VI_CHANNEL as i32,
                    },
                    dst_channel: MppChn { mod_id: ModId::Venc, dev_id: 0, chn_id: setup.encoder },
                };
                let enc = VencChannelBindOwned::from_parts(
                    setup.mpi,
                    camera,
                    vi_channel,
                    venc_channel,
                    bind,
                );
                Ok(CameraEncoder { enc, frame: StreamFrame::new() })
            },
        }
    }

    /// The call that takes the next encoded stream, waiting up to
    /// `timeout_ms`.
    pub fn get_frame_call(&self, timeout_ms: u128) -> (r: MpiCall)
        ensures
            r == (MpiCall::VencGetStream {
                chn: self.spec_encoder_id(),
                timeout_ms: spec_timeout_arg(timeout_ms),
            }),
    {
        self.enc.get_stream_call(timeout_ms)
    }

    /// The stream once the call returned `code` and a packet of
    /// `packet_len` bytes.
    pub fn get_frame(&mut self, code: i32, packet_len: u32) -> (r: Result<VencStreamOwned<'_>, Error>)
        ensures
            code == RK_SUCCESS ==> (r matches Ok(s) && s.spec_channel_id() == old(self).spec_encoder_id() && s.spec_packet_len() == packet_len),
            code != RK_SUCCESS ==> r.is_err() && r->Err_0 == (Error::Rockit { code }),
    {
        self.enc.get_stream(&mut self.frame, code, packet_len)
    }

    /// The calls that let the encoder go, in the order its parts go: the
    /// camera is disabled, then the video input channel, then the encoder
    /// channel is stopped and destroyed.
    pub fn drop_calls(&self) -> (r: Vec<MpiCall>)
        ensures
            r@ == seq![
                MpiCall::ViDisableDev { dev: self.spec_camera_id() },
                MpiCall::ViDisableChn { pipe: 0, chn: self.spec_vi_channel_id() },
            ] + spec_venc_drop_calls(self.spec_encoder_id(), Runtime::Started),
    {
        let mut calls: Vec<MpiCall> = Vec::new();
        calls.push(MpiCall::ViDisableDev { dev: self.enc.camera_id() });
        calls.push(MpiCall::ViDisableChn { pipe: 0, chn: self.enc.vi_channel_id() });
        calls.push(MpiCall::VencStopRecvFrame { chn: self.enc.venc_id() });
        calls.push(MpiCall::VencDestroyChn { chn: self.enc.venc_id() });
        proof {
            assert(calls@ =~= seq![
                MpiCall::ViDisableDev { dev: self.spec_camera_id() },
                MpiCall::ViDisableChn { pipe: 0, chn: self.spec_vi_channel_id() },
            ] + spec_venc_drop_calls(self.spec_encoder_id(), Runtime::Started));
        }
        calls
    }
}

} // verus!
