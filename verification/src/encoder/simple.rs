//! An encoder fed frame by frame from memory: frames in the encoder's own
//! pixel format go to it directly; other frames go through a processing
//! group that converts them first.

use crate::call::MpiCall;
use crate::mb::{
    copy_bytes, frame_desc, pool_config, spec_frame_desc, spec_pool_config, VideoFrameDesc,
    MB_INVALID_POOLID,
};
use crate::venc::state::{Runtime, Started};
use crate::venc::{
    spec_venc_chn_attr, spec_venc_drop_calls, venc_chn_attr, venc_config_fits, StreamFrame,
    VencChannel, VencChannelOwned, VencChnAttr, VencConfig, VencStreamOwned,
};
use crate::vpss::channel_state::Runtime as ChannelRuntime;
use crate::vpss::state::Runtime as GroupRuntime;
use crate::vpss::{
    chn_attr_of, grp_attr_of, make_chn_attr, make_grp_attr, spec_channel_drop_calls,
    spec_group_drop_calls, VpssChnAttr, VpssGrpAttr,
};
use crate::{
    spec_timeout_arg, timeout_arg, ChannelBind, Error, ModId, MppChn, PixelFormat, RockitSys,
    RK_SUCCESS,
};
use vstd::prelude::*;

verus! {

/// The processing channel that converts frames for the encoder.
pub const SIMPLE_VPSS_CHANNEL: u8 = 0;

/// The processing group's pipe that frames are sent to.
pub const SIMPLE_VPSS_PIPE: u8 = 0;

/// The steps of setting a simple encoder up.
#[derive(Clone, Copy, Debug, PartialEq, Eq, Structural)]
pub enum SimpleEncoderStep {
    /// Create the encoder channel.
    CreateEncoder,
    /// Start the encoder channel.
    StartEncoder,
    /// Create the pool of input buffers.
    CreatePool,
    /// Create the processing group (input not in the encoder's format).
    CreateGroup,
    /// Start the processing group.
    StartGroup,
    /// Set the processing channel up.
    SetChannel,
    /// Enable the processing channel.
    EnableChannel,
    /// Bind the processing channel to the encoder channel.
    BindVpss,
    /// The encoder is set up.
    Ready,
    /// The set-up ended with `err`.
    Failed { err: Error },
}

/// The attributes of a processing group that takes pictures of `width` by
/// `height` in `pixel_format`.
pub open spec fn simple_grp_attr(pixel_format: PixelFormat, width: u16, height: u16) -> VpssGrpAttr {
    grp_attr_of(pixel_format, width, height)
}

/// The attributes of the processing channel: pictures of `width` by
/// `height` in the encoder's format, neither mirrored nor flipped, no
/// queue for the user, two frame buffers.
pub open spec fn simple_chn_attr(width: u16, height: u16) -> VpssChnAttr {
    chn_attr_of(PixelFormat::Nv12, width, height, false, false, 0, 2)
}

/// The binding of the processing channel of group `group` to encoder
/// channel `encoder`.
pub open spec fn spec_vpss_venc_bind(encoder: i32, group: i32) -> ChannelBind {
    ChannelBind {
        src_channel: MppChn { mod_id: ModId::Vpss, dev_id: group, chn_id: SIMPLE_VPSS_CHANNEL as i32 },
        dst_channel: MppChn { mod_id: ModId::Venc, dev_id: 0, chn_id: encoder },
    }
}

/// The step after a successful call at `step`.
pub open spec fn simple_step_after(step: SimpleEncoderStep) -> SimpleEncoderStep {
    match step {
        SimpleEncoderStep::CreateEncoder => SimpleEncoderStep::StartEncoder,
        SimpleEncoderStep::StartEncoder => SimpleEncoderStep::CreatePool,
        SimpleEncoderStep::CreateGroup => SimpleEncoderStep::StartGroup,
        SimpleEncoderStep::StartGroup => SimpleEncoderStep::SetChannel,
        SimpleEncoderStep::SetChannel => SimpleEncoderStep::EnableChannel,
        SimpleEncoderStep::EnableChannel => SimpleEncoderStep::BindVpss,
        _ => SimpleEncoderStep::Ready,
    }
}

/// The step that follows `step` once its call returned `code`: every call
/// must succeed, and the first failure ends the set-up with its code.
pub open spec fn next_simple_step(step: SimpleEncoderStep, code: i32) -> SimpleEncoderStep {
    if code == RK_SUCCESS {
        simple_step_after(step)
    } else {
        SimpleEncoderStep::Failed { err: Error::Rockit { code } }
    }
}

/// The step that follows the pool's creation, answered with `pool_id`: no
/// pool ends the set-up; else input in the encoder's own format is ready,
/// and other input needs a processing group next.
pub open spec fn after_pool(pool_id: u32, pixel_format: PixelFormat) -> SimpleEncoderStep {
    if pool_id == MB_INVALID_POOLID {
        SimpleEncoderStep::Failed { err: Error::CreatePool }
    } else if pixel_format == PixelFormat::Nv12 {
        SimpleEncoderStep::Ready
    } else {
        SimpleEncoderStep::CreateGroup
    }
}

/// Whether `step` makes a call answered with a return code (every call of
/// the set-up but the pool's creation, which answers a pool number).
pub open spec fn is_coded_step(step: SimpleEncoderStep) -> bool {
    ||| step == SimpleEncoderStep::CreateEncoder
    ||| step == SimpleEncoderStep::StartEncoder
    ||| step == SimpleEncoderStep::CreateGroup
    ||| step == SimpleEncoderStep::StartGroup
    ||| step == SimpleEncoderStep::SetChannel
    ||| step == SimpleEncoderStep::EnableChannel
    ||| step == SimpleEncoderStep::BindVpss
}

/// The first failure ends a simple encoder's set-up: a call answered with
/// any code but success ends it failed with that code; a pool's creation
/// answered with no pool ends it with the pool error. A successful call
/// moves it on, never to a failure. The set-up is ready only after a
/// successful binding of the processing channel, or, for input already in
/// the encoder's format, right after a pool was created; a processing
/// group is created only for input in another format.
pub proof fn lemma_simple_first_failure_ends(step: SimpleEncoderStep, code: i32, pool_id: u32, pixel_format: PixelFormat)
    ensures
        is_coded_step(step) && code != RK_SUCCESS ==> next_simple_step(step, code) == (
        SimpleEncoderStep::Failed { err: Error::Rockit { code } }),
        is_coded_step(step) && code == RK_SUCCESS ==> !(next_simple_step(step, code) is Failed),
        is_coded_step(step) && next_simple_step(step, code) == SimpleEncoderStep::Ready ==> (step
            == SimpleEncoderStep::BindVpss && code == RK_SUCCESS),
        pool_id == MB_INVALID_POOLID ==> after_pool(pool_id, pixel_format) == (
        SimpleEncoderStep::Failed { err: Error::CreatePool }),
        after_pool(pool_id, pixel_format) == SimpleEncoderStep::Ready <==> (pool_id
            != MB_INVALID_POOLID && pixel_format == PixelFormat::Nv12),
        after_pool(pool_id, pixel_format) == SimpleEncoderStep::CreateGroup <==> (pool_id
            != MB_INVALID_POOLID && pixel_format != PixelFormat::Nv12),
        step == SimpleEncoderStep::CreateEncoder && code == RK_SUCCESS ==> next_simple_step(step, code)
            == SimpleEncoderStep::StartEncoder,
        step == SimpleEncoderStep::StartEncoder && code == RK_SUCCESS ==> next_simple_step(step, code)
            == SimpleEncoderStep::CreatePool,
        step == SimpleEncoderStep::CreateGroup && code == RK_SUCCESS ==> next_simple_step(step, code)
            == SimpleEncoderStep::StartGroup,
        step == SimpleEncoderStep::StartGroup && code == RK_SUCCESS ==> next_simple_step(step, code)
            == SimpleEncoderStep::SetChannel,
        step == SimpleEncoderStep::SetChannel && code == RK_SUCCESS ==> next_simple_step(step, code)
            == SimpleEncoderStep::EnableChannel,
        step == SimpleEncoderStep::EnableChannel && code == RK_SUCCESS ==> next_simple_step(step, code)
            == SimpleEncoderStep::BindVpss,
{
}

/// The processing group of a simple encoder takes pictures of the input's
/// size and format, and its channel hands the encoder pictures of the same
/// size in the encoder's format, neither mirrored nor flipped, keeping no
/// frame for the user, in two buffers; the binding joins that channel to
/// the encoder channel.
pub proof fn lemma_simple_conversion(pixel_format: PixelFormat, width: u16, height: u16, encoder: i32, group: i32)
    ensures
        simple_grp_attr(pixel_format, width, height).max_width == width,
        simple_grp_attr(pixel_format, width, height).max_height == height,
        simple_grp_attr(pixel_format, width, height).pixel_format == pixel_format,
        simple_chn_attr(width, height).width == width,
        simple_chn_attr(width, height).height == height,
        simple_chn_attr(width, height).pixel_format == PixelFormat::Nv12,
        !simple_chn_attr(width, height).mirror,
        !simple_chn_attr(width, height).flip,
        simple_chn_attr(width, height).depth == 0,
        simple_chn_attr(width, height).frame_buf_count == 2,
        spec_vpss_venc_bind(encoder, group).src_channel == (MppChn {
            mod_id: ModId::Vpss,
            dev_id: group,
            chn_id: 0,
        }),
        spec_vpss_venc_bind(encoder, group).dst_channel == (MppChn {
            mod_id: ModId::Venc,
            dev_id: 0,
            chn_id: encoder,
        }),
{
}

/// The calls that let go what a set-up made, in the order its parts go:
/// the processing channel (disabled if it was enabled), the group (stopped
/// first if it was started), the pool, then the encoder channel (stopped
/// first if it was started).
pub open spec fn simple_cleanup_calls(
    encoder: i32,
    group: i32,
    encoder_state: Option<Runtime>,
    pool: Option<u32>,
    group_state: Option<GroupRuntime>,
    channel_state: Option<ChannelRuntime>,
) -> Seq<MpiCall> {
    let chn = match channel_state {
        Some(s) => spec_channel_drop_calls(group, SIMPLE_VPSS_CHANNEL as i32, s),
        None => Seq::empty(),
    };
    let grp = match group_state {
        Some(s) => spec_group_drop_calls(group, s),
        None => Seq::empty(),
    };
    let pl = match pool {
        Some(p) => seq![MpiCall::MbDestroyPool { pool: p }],
        None => Seq::empty(),
    };
    let enc = match encoder_state {
        Some(s) => spec_venc_drop_calls(encoder, s),
        None => Seq::empty(),
    };
    chn + grp + pl + enc
}

/// A failed set-up lets go exactly what it made, in the order its parts go:
/// the processing channel is disabled first (if it was enabled), then the
/// group is stopped (if started) and destroyed (if created), then the pool
/// is destroyed (if created), and the encoder channel's calls come last
/// (stopped if started, destroyed if created).
pub proof fn lemma_simple_cleanup_order(
    encoder: i32,
    group: i32,
    encoder_state: Option<Runtime>,
    pool: Option<u32>,
    group_state: Option<GroupRuntime>,
    channel_state: Option<ChannelRuntime>,
)
    ensures
        ({
            let calls = simple_cleanup_calls(encoder, group, encoder_state, pool, group_state, channel_state);
            let n_chn: int = if channel_state == Some(ChannelRuntime::Enabled) { 1 } else { 0 };
            let n_grp: int = match group_state {
                Some(GroupRuntime::Started) => 2,
                Some(_) => 1,
                None => 0,
            };
            let n_pool: int = if pool is Some { 1 } else { 0 };
            let n_enc: int = match encoder_state {
                Some(Runtime::Started) => 2,
                Some(_) => 1,
                None => 0,
            };
            &&& calls.len() == n_chn + n_grp + n_pool + n_enc
            &&& n_chn == 1 ==> calls[0] == (MpiCall::VpssDisableChn { grp: group, chn: 0 })
            &&& group_state is Some ==> calls[n_chn + n_grp - 1] == (MpiCall::VpssDestroyGrp { grp: group })
            &&& group_state == Some(GroupRuntime::Started) ==> calls[n_chn] == (MpiCall::VpssStopGrp { grp: group })
            &&& (pool matches Some(p) ==> calls[n_chn + n_grp] == (MpiCall::MbDestroyPool { pool: p }))
            &&& encoder_state is Some ==> calls.last() == (MpiCall::VencDestroyChn { chn: encoder })
            &&& encoder_state == Some(Runtime::Started) ==> calls[n_chn + n_grp + n_pool] == (MpiCall::VencStopRecvFrame { chn: encoder })
        }),
{
}

/// The set-up of a simple encoder, step by step: create encoder channel
/// `encoder` for the configuration and start it, create a pool of one input
/// buffer of `frame_buf_size` bytes; when the input is not in the
/// encoder's format, create processing group `group` for it and start it,
/// set its channel up to convert to the encoder's format, enable it, and
/// bind it to the encoder. The first error ends the set-up.
pub struct SimpleEncoderSetup {
    mpi: RockitSys,
    encoder: u8,
    group: i32,
    pixel_format: PixelFormat,
    width: u16,
    height: u16,
    frame_buf_size: u32,
    attr: VencChnAttr,
    step: SimpleEncoderStep,
    encoder_state: Option<Runtime>,
    pool: Option<u32>,
    group_state: Option<GroupRuntime>,
    channel_state: Option<ChannelRuntime>,
}

/// A step at or after the processing group's creation comes after the
/// pool's.
pub open spec fn simple_step_has_pool(step: SimpleEncoderStep) -> bool {
    match step {
        SimpleEncoderStep::CreateGroup => true,
        SimpleEncoderStep::StartGroup => true,
        SimpleEncoderStep::SetChannel => true,
        SimpleEncoderStep::EnableChannel => true,
        SimpleEncoderStep::BindVpss => true,
        SimpleEncoderStep::Ready => true,
        _ => false,
    }
}

impl SimpleEncoderSetup {
    /// Once past the pool's creation, the pool is there.
    #[verifier::type_invariant]
    spec fn pool_made(self) -> bool {
        simple_step_has_pool(self.step) ==> self.pool.is_some()
    }

    /// The encoder channel number.
    pub closed spec fn spec_encoder(&self) -> u8 {
        self.encoder
    }

    /// The processing group number.
    pub closed spec fn spec_group(&self) -> i32 {
        self.group
    }

    /// The pixel format of the input frames.
    pub closed spec fn spec_pixel_format(&self) -> PixelFormat {
        self.pixel_format
    }

    /// The picture width.
    pub closed spec fn spec_width(&self) -> u16 {
        self.width
    }

    /// The picture height.
    pub closed spec fn spec_height(&self) -> u16 {
        self.height
    }

    /// The size of an input frame's bytes.
    pub closed spec fn spec_frame_buf_size(&self) -> u32 {
        self.frame_buf_size
    }

    /// The attributes the encoder channel is created with.
    pub closed spec fn spec_attr(&self) -> VencChnAttr {
        self.attr
    }

    /// The step reached.
    pub closed spec fn spec_step(&self) -> SimpleEncoderStep {
        self.step
    }

    /// Whether the encoder channel is created, and then whether started.
    pub closed spec fn spec_encoder_state(&self) -> Option<Runtime> {
        self.encoder_state
    }

    /// The pool, once created.
    pub closed spec fn spec_pool(&self) -> Option<u32> {
        self.pool
    }

    /// Whether the processing group is created, and then whether started.
    pub closed spec fn spec_group_state(&self) -> Option<GroupRuntime> {
        self.group_state
    }

    /// Whether the processing channel is set up, and then whether enabled.
    pub closed spec fn spec_channel_state(&self) -> Option<ChannelRuntime> {
        self.channel_state
    }

    /// No call is left to make.
    pub open spec fn finished(&self) -> bool {
        self.spec_step() is Ready || self.spec_step() is Failed
    }

    /// The call made at the step reached, if any.
    pub open spec fn spec_next_call(&self) -> Option<MpiCall> {
        let enc = self.spec_encoder() as i32;
        let grp = self.spec_group();
        match self.spec_step() {
            SimpleEncoderStep::CreateEncoder => Some(
                MpiCall::VencCreateChn { chn: enc, venc_attr: self.spec_attr() },
            ),
            SimpleEncoderStep::StartEncoder => Some(
                MpiCall::VencStartRecvFrame { chn: enc, recv_pic_num: -1i32 },
            ),
            SimpleEncoderStep::CreatePool => Some(
                MpiCall::MbCreatePool { config: spec_pool_config(self.spec_frame_buf_size()) },
            ),
            SimpleEncoderStep::CreateGroup => Some(
                MpiCall::VpssCreateGrp {
                    grp,
                    grp_attr: simple_grp_attr(
                        self.spec_pixel_format(),
                        self.spec_width(),
                        self.spec_height(),
                    ),
                },
            ),
            SimpleEncoderStep::StartGroup => Some(MpiCall::VpssStartGrp { grp }),
            SimpleEncoderStep::SetChannel => Some(
                MpiCall::VpssSetChnAttr {
                    grp,
                    chn: SIMPLE_VPSS_CHANNEL as i32,
                    chn_attr: simple_chn_attr(self.spec_width(), self.spec_height()),
                },
            ),
            SimpleEncoderStep::EnableChannel => Some(
                MpiCall::VpssEnableChn { grp, chn: SIMPLE_VPSS_CHANNEL as i32 },
            ),
            SimpleEncoderStep::BindVpss => Some(
                MpiCall::SysBind { bind: spec_vpss_venc_bind(enc, grp) },
            ),
            SimpleEncoderStep::Ready => None,
            SimpleEncoderStep::Failed { .. } => None,
        }
    }

    /// The set-up of encoder channel `encoder_id` for `config`, fed with
    /// frames of `frame_buf_size` bytes in `pixel_format`, converted when
    /// needed by processing group `group_id`.
    pub fn new(
        mpi: &RockitSys,
        encoder_id: u8,
        group_id: u8,
        config: &VencConfig,
        pixel_format: PixelFormat,
        frame_buf_size: u32,
    ) -> (r: Self)
        requires
            venc_config_fits(*config),
        ensures
            r.spec_encoder() == encoder_id,
            r.spec_group() == group_id as i32,
            r.spec_pixel_format() == pixel_format,
            r.spec_width() == config.width,
            r.spec_height() == config.height,
            r.spec_frame_buf_size() == frame_buf_size,
            r.spec_attr() == spec_venc_chn_attr(*config),
            r.spec_step() == SimpleEncoderStep::CreateEncoder,
            r.spec_encoder_state().is_none() && r.spec_pool().is_none()
                && r.spec_group_state().is_none() && r.spec_channel_state().is_none(),
    {
        SimpleEncoderSetup {
            mpi: *mpi,
            encoder: encoder_id,
            group: group_id as i32,
            pixel_format,
            width: config.width,
            height: config.height,
            frame_buf_size,
            attr: venc_chn_attr(config),
            step: SimpleEncoderStep::CreateEncoder,
            encoder_state: None,
            pool: None,
            group_state: None,
            channel_state: None,
        }
    }

    /// The step reached.
    pub fn step(&self) -> (r: SimpleEncoderStep)
        ensures
            r == self.spec_step(),
    {
        self.step
    }

    /// The call to make next, if any.
    pub fn next_call(&self) -> (r: Option<MpiCall>)
        ensures
            r == self.spec_next_call(),
            r.is_none() == self.finished(),
    {
        let enc = self.encoder as i32;
        let grp = self.group;
        match self.step {
            SimpleEncoderStep::CreateEncoder => Some(
                MpiCall::VencCreateChn { chn: enc, venc_attr: self.attr },
            ),
            SimpleEncoderStep::StartEncoder => Some(
                MpiCall::VencStartRecvFrame { chn: enc, recv_pic_num: -1 },
            ),
            SimpleEncoderStep::CreatePool => Some(
                MpiCall::MbCreatePool {
                    config: pool_config(self.frame_buf_size),
                },
            ),
            SimpleEncoderStep::CreateGroup => Some(
                MpiCall::VpssCreateGrp {
                    grp,
                    grp_attr: make_grp_attr(self.pixel_format, self.width, self.height),
                },
            ),
            SimpleEncoderStep::StartGroup => Some(MpiCall::VpssStartGrp { grp }),
            SimpleEncoderStep::SetChannel => Some(
                MpiCall::VpssSetChnAttr {
                    grp,
                    chn: SIMPLE_VPSS_CHANNEL as i32,
                    chn_attr: make_chn_attr(PixelFormat::Nv12, self.width, self.height, false, false, 0, 2),
                },
            ),
            SimpleEncoderStep::EnableChannel => Some(
                MpiCall::VpssEnableChn { grp, chn: SIMPLE_VPSS_CHANNEL as i32 },
            ),
            SimpleEncoderStep::BindVpss => Some(
                MpiCall::SysBind {
                    bind: ChannelBind {
                        src_channel: MppChn {
                            mod_id: ModId::Vpss,
                            dev_id: grp,
                            chn_id: SIMPLE_VPSS_CHANNEL as i32,
                        },
                        dst_channel: MppChn { mod_id: ModId::Venc, dev_id: 0, chn_id: enc },
                    },
                },
            ),
            SimpleEncoderStep::Ready => None,
            SimpleEncoderStep::Failed { .. } => None,
        }
    }

    /// Records the return code of the call just made (any call but the
    /// pool's creation, which answers with a pool number).
    pub fn record(&mut self, code: i32)
        requires
            !old(self).finished(),
            old(self).spec_step() != SimpleEncoderStep::CreatePool,
        ensures
            final(self).spec_step() == next_simple_step(old(self).spec_step(), code),
            final(self).spec_encoder() == old(self).spec_encoder(),
            final(self).spec_group() == old(self).spec_group(),
            final(self).spec_pixel_format() == old(self).spec_pixel_format(),
            final(self).spec_width() == old(self).spec_width(),
            final(self).spec_height() == old(self).spec_height(),
            final(self).spec_frame_buf_size() == old(self).spec_frame_buf_size(),
            final(self).spec_attr() == old(self).spec_attr(),
            final(self).spec_pool() == old(self).spec_pool(),
            final(self).spec_encoder_state() == (if code != RK_SUCCESS {
                old(self).spec_encoder_state()
            } else if old(self).spec_step() == SimpleEncoderStep::CreateEncoder {
                Some(Runtime::Initialized)
            } else if old(self).spec_step() == SimpleEncoderStep::StartEncoder {
                Some(Runtime::Started)
            } else {
                old(self).spec_encoder_state()
            }),
            final(self).spec_group_state() == (if code != RK_SUCCESS {
                old(self).spec_group_state()
            } else if old(self).spec_step() == SimpleEncoderStep::CreateGroup {
                Some(GroupRuntime::Initialized)
            } else if old(self).spec_step() == SimpleEncoderStep::StartGroup {
                Some(GroupRuntime::Started)
            } else {
                old(self).spec_group_state()
            }),
            final(self).spec_channel_state() == (if code != RK_SUCCESS {
                old(self).spec_channel_state()
            } else if old(self).spec_step() == SimpleEncoderStep::SetChannel {
                Some(ChannelRuntime::Disabled)
            } else if old(self).spec_step() == SimpleEncoderStep::EnableChannel {
                Some(ChannelRuntime::Enabled)
            } else {
                old(self).spec_channel_state()
            }),
    {
        proof {
            use_type_invariant(&*self);
        }
        if code != RK_SUCCESS {
            self.step = SimpleEncoderStep::Failed { err: Error::Rockit { code } };
            return;
        }
        match self.step {
            SimpleEncoderStep::CreateEncoder => {
                self.encoder_state = Some(Runtime::Initialized);
                self.step = SimpleEncoderStep::StartEncoder;
            },
            SimpleEncoderStep::StartEncoder => {
                self.encoder_state = Some(Runtime::Started);
                self.step = SimpleEncoderStep::CreatePool;
            },
            SimpleEncoderStep::CreateGroup => {
                self.group_state = Some(GroupRuntime::Initialized);
                self.step = SimpleEncoderStep::StartGroup;
            },
            SimpleEncoderStep::StartGroup => {
                self.group_state = Some(GroupRuntime::Started);
                self.step = SimpleEncoderStep::SetChannel;
            },
            SimpleEncoderStep::SetChannel => {
                self.channel_state = Some(ChannelRuntime::Disabled);
                self.step = SimpleEncoderStep::EnableChannel;
            },
            SimpleEncoderStep::EnableChannel => {
                self.channel_state = Some(ChannelRuntime::Enabled);
                self.step = SimpleEncoderStep::BindVpss;
            },
            _ => {
                self.step = SimpleEncoderStep::Ready;
            },
        }
    }

    /// Records the pool number the pool's creation answered.
    pub fn record_pool(&mut self, pool_id: u32)
        requires
            old(self).spec_step() == SimpleEncoderStep::CreatePool,
        ensures
            final(self).spec_step() == after_pool(pool_id, old(self).spec_pixel_format()),
            final(self).spec_encoder() == old(self).spec_encoder(),
            final(self).spec_group() == old(self).spec_group(),
            final(self).spec_pixel_format() == old(self).spec_pixel_format(),
            final(self).spec_width() == old(self).spec_width(),
            final(self).spec_height() == old(self).spec_height(),
            final(self).spec_frame_buf_size() == old(self).spec_frame_buf_size(),
            final(self).spec_attr() == old(self).spec_attr(),
            final(self).spec_encoder_state() == old(self).spec_encoder_state(),
            final(self).spec_group_state() == old(self).spec_group_state(),
            final(self).spec_channel_state() == old(self).spec_channel_state(),
            final(self).spec_pool() == (if pool_id == MB_INVALID_POOLID {
                None
            } else {
                Some(pool_id)
            }),
    {
        if pool_id == MB_INVALID_POOLID {
            self.pool = None;
            self.step = SimpleEncoderStep::Failed { err: Error::CreatePool };
            return;
        }
        self.pool = Some(pool_id);
        self.step = if self.pixel_format == PixelFormat::Nv12 {
            SimpleEncoderStep::Ready
        } else {
            SimpleEncoderStep::CreateGroup
        };
    }

    /// The calls that let go what a failed set-up had made (see
    /// `simple_cleanup_calls`).
    pub fn cleanup_calls(&self) -> (r: Vec<MpiCall>)
        ensures
            r@ == simple_cleanup_calls(
                self.spec_encoder() as i32,
                self.spec_group(),
                self.spec_encoder_state(),
                self.spec_pool(),
                self.spec_group_state(),
                self.spec_channel_state(),
            ),
    {
        let grp = self.group;
        let enc = self.encoder as i32;
        let mut calls: Vec<MpiCall> = Vec::new();
        if self.channel_state == Some(ChannelRuntime::Enabled) {
            calls.push(MpiCall::VpssDisableChn { grp, chn: SIMPLE_VPSS_CHANNEL as i32 });
        }
        let ghost c1 = calls@;
        match self.group_state {
            Some(s) => {
                if s == GroupRuntime::Started {
                    calls.push(MpiCall::VpssStopGrp { grp });
                }
                calls.push(MpiCall::VpssDestroyGrp { grp });
            },
            None => {},
        }
        let ghost c2 = calls@;
        match self.pool {
            Some(p) => {
                calls.push(MpiCall::MbDestroyPool { pool: p });
            },
            None => {},
        }
        let ghost c3 = calls@;
        match self.encoder_state {
            Some(s) => {
                if s == Runtime::Started {
                    calls.push(MpiCall::VencStopRecvFrame { chn: enc });
                }
                calls.push(MpiCall::VencDestroyChn { chn: enc });
            },
            None => {},
        }
        proof {
            let chn = match self.channel_state {
                Some(s) => spec_channel_drop_calls(grp, SIMPLE_VPSS_CHANNEL as i32, s),
                None => Seq::empty(),
            };
            let gr = match self.group_state {
                Some(s) => spec_group_drop_calls(grp, s),
                None => Seq::empty(),
            };
            let pl = match self.pool {
                Some(p) => seq![MpiCall::MbDestroyPool { pool: p }],
                None => Seq::empty(),
            };
            let en = match self.encoder_state {
                Some(s) => spec_venc_drop_calls(enc, s),
                None => Seq::empty(),
            };
            assert(c1 =~= chn);
            assert(c2 =~= chn + gr);
            assert(c3 =~= chn + gr + pl);
            assert(calls@ =~= chn + gr + pl + en);
        }
        calls
    }
}


/// The calls of a simple encoder's set-up: the encoder channel is created
/// with its attributes and started with no limit on the frames it takes;
/// the pool of one buffer of the frame size is created; the processing
/// group is created for the input's format and size and started; its
/// channel 0 is set up to convert and enabled; and it is bound to the
/// encoder channel. Nothing is called once the set-up ended.
pub proof fn lemma_simple_setup_calls(setup: SimpleEncoderSetup)
    ensures
        setup.spec_step() == SimpleEncoderStep::CreateEncoder ==> setup.spec_next_call() == Some(
            MpiCall::VencCreateChn { chn: setup.spec_encoder() as i32, venc_attr: setup.spec_attr() },
        ),
        setup.spec_step() == SimpleEncoderStep::StartEncoder ==> setup.spec_next_call() == Some(
            MpiCall::VencStartRecvFrame { chn: setup.spec_encoder() as i32, recv_pic_num: -1i32 },
        ),
        setup.spec_step() == SimpleEncoderStep::CreatePool ==> setup.spec_next_call() == Some(
            MpiCall::MbCreatePool { config: spec_pool_config(setup.spec_frame_buf_size()) },
        ),
        setup.spec_step() == SimpleEncoderStep::CreateGroup ==> setup.spec_next_call() == Some(
            MpiCall::VpssCreateGrp {
                grp: setup.spec_group(),
                grp_attr: grp_attr_of(setup.spec_pixel_format(), setup.spec_width(), setup.spec_height()),
            },
        ),
        setup.spec_step() == SimpleEncoderStep::StartGroup ==> setup.spec_next_call() == Some(
            MpiCall::VpssStartGrp { grp: setup.spec_group() },
        ),
        setup.spec_step() == SimpleEncoderStep::SetChannel ==> setup.spec_next_call() == Some(
            MpiCall::VpssSetChnAttr {
                grp: setup.spec_group(),
                chn: 0,
                chn_attr: chn_attr_of(PixelFormat::Nv12, setup.spec_width(), setup.spec_height(), false, false, 0, 2),
            },
        ),
        setup.spec_step() == SimpleEncoderStep::EnableChannel ==> setup.spec_next_call() == Some(
            MpiCall::VpssEnableChn { grp: setup.spec_group(), chn: 0 },
        ),
        setup.spec_step() == SimpleEncoderStep::BindVpss ==> setup.spec_next_call() == Some(
            MpiCall::SysBind {
                bind: ChannelBind {
                    src_channel: MppChn { mod_id: ModId::Vpss, dev_id: setup.spec_group(), chn_id: 0 },
                    dst_channel: MppChn {
                        mod_id: ModId::Venc,
                        dev_id: 0,
                        chn_id: setup.spec_encoder() as i32,
                    },
                },
            },
        ),
        setup.finished() ==> setup.spec_next_call() is None,
{
}

/// An encoder fed frame by frame from memory: its started encoder channel,
/// the pool its input buffer is taken from, and, for input not in the
/// encoder's format, the processing group that converts it.
pub struct SimpleEncoder {
    enc: VencChannelOwned<Started>,
    pool: u32,
    group: Option<i32>,
    pixel_format: PixelFormat,
    width: u16,
    height: u16,
    frame_buf_size: u32,
    frame: StreamFrame,
}

impl SimpleEncoder {
    /// The encoder channel number.
    pub closed spec fn spec_encoder_id(&self) -> i32 {
        self.enc.spec_id()
    }

    /// The pool of input buffers.
    pub closed spec fn spec_pool(&self) -> u32 {
        self.pool
    }

    /// The processing group frames are sent through, if any.
    pub closed spec fn spec_group(&self) -> Option<i32> {
        self.group
    }

    /// The pixel format of the input frames.
    pub closed spec fn spec_pixel_format(&self) -> PixelFormat {
        self.pixel_format
    }

    /// The picture width.
    pub closed spec fn spec_width(&self) -> u16 {
        self.width
    }

    /// The picture height.
    pub closed spec fn spec_height(&self) -> u16 {
        self.height
    }

    /// The size of an input frame's bytes.
    pub closed spec fn spec_frame_buf_size(&self) -> u32 {
        self.frame_buf_size
    }

    /// The encoder once its set-up finished: the encoder when every step
    /// succeeded, else the error that ended the set-up (whose
    /// `cleanup_calls` let go what it had made).
    pub fn new(setup: &SimpleEncoderSetup) -> (r: Result<SimpleEncoder, Error>)
        requires
            setup.finished(),
        ensures
            setup.spec_step() == SimpleEncoderStep::Ready ==> (r matches Ok(e)
                && e.spec_encoder_id() == setup.spec_encoder() as i32 && setup.spec_pool()
                == Some(e.spec_pool()) && e.spec_pixel_format() == setup.spec_pixel_format()
                && e.spec_width() == setup.spec_width() && e.spec_height() == setup.spec_height()
                && e.spec_frame_buf_size() == setup.spec_frame_buf_size() && e.spec_group() == (
            if setup.spec_pixel_format() == PixelFormat::Nv12 {
                None
            } else {
                Some(setup.spec_group())
            })),
            setup.spec_step() matches SimpleEncoderStep::Failed { err } ==> r == Err::<
                SimpleEncoder,
                Error,
            >(err),
    {
        proof {
            use_type_invariant(setup);
        }
        match setup.step {
            SimpleEncoderStep::Failed { err } => Err(err),
            _ => {
                let pool = match setup.pool {
                    Some(p) => p,
                    None => 0,
                };
                let created = VencChannel::new(&setup.mpi, setup.encoder, RK_SUCCESS);
                let enc = match created {
                    Ok(c) => c.into_owned().start(RK_SUCCESS),
                    Err(e) => Err(e),
                };
                match enc {
                    Ok(enc) => Ok(
                        SimpleEncoder {
                            enc,
                            pool,
                            group: if setup.pixel_format == PixelFormat::Nv12 {
                                None
                            } else {
                                Some(setup.group)
                            },
                            pixel_format: setup.pixel_format,
                            width: setup.width,
                            height: setup.height,
                            frame_buf_size: setup.frame_buf_size,
                            frame: StreamFrame::new(),
                        },
                    ),
                    Err(e) => Err(e),
                }
            },
        }
    }

    /// The size of an input frame's bytes.
    pub fn frame_buf_size(&self) -> (r: usize)
        ensures
            r == self.spec_frame_buf_size(),
    {
        self.frame_buf_size as usize
    }

    /// The encoding of one frame, before any call, waiting up to
    /// `timeout_ms` for each transfer.
    pub fn encode_steps(&self, timeout_ms: u128) -> (r: EncodeRun)
        ensures
            r.spec_step() == EncodeStep::GetBuffer,
            r.spec_buffer() == 0,
            r.spec_encoder() == self.spec_encoder_id(),
            r.spec_pool() == self.spec_pool(),
            r.spec_size() == self.spec_frame_buf_size(),
            r.spec_group() == self.spec_group(),
            r.spec_pixel_format() == self.spec_pixel_format(),
            r.spec_width() == self.spec_width(),
            r.spec_height() == self.spec_height(),
            r.spec_timeout() == spec_timeout_arg(timeout_ms),
    {
        EncodeRun {
            step: EncodeStep::GetBuffer,
            encoder: self.enc.id(),
            pool: self.pool,
            size: self.frame_buf_size,
            group: self.group,
            pixel_format: self.pixel_format,
            width: self.width,
            height: self.height,
            timeout: timeout_arg(timeout_ms),
            buffer: 0,
        }
    }

    /// The encoded stream once the encoding of a frame finished: the
    /// stream, of `packet_len` bytes, when every step succeeded, else the
    /// error that ended it.
    pub fn encode_frame(&mut self, run: &EncodeRun, packet_len: u32) -> (r: Result<
        VencStreamOwned<'_>,
        Error,
    >)
        requires
            run.finished(),
        ensures
            run.spec_step() == EncodeStep::Done ==> (r matches Ok(s) && s.spec_channel_id()
                == old(self).spec_encoder_id() && s.spec_packet_len() == packet_len),
            run.spec_step() matches EncodeStep::Failed { err } ==> (r.is_err() && r->Err_0
                == err),
    {
        match run.step {
            EncodeStep::Failed { err } => Err(err),
            _ => self.enc.get_stream(&mut self.frame, RK_SUCCESS, packet_len),
        }
    }

    /// The calls that let the encoder go, in the order its parts go: the
    /// encoder channel is stopped and destroyed, then the processing
    /// channel is disabled and its group stopped and destroyed, if there is
    /// one, then the pool is destroyed.
    pub fn drop_calls(&self) -> (r: Vec<MpiCall>)
        ensures
            r@ == spec_venc_drop_calls(self.spec_encoder_id(), Runtime::Started) + (match self.spec_group() {
                Some(g) => spec_channel_drop_calls(g, SIMPLE_VPSS_CHANNEL as i32, ChannelRuntime::Enabled)
                    + spec_group_drop_calls(g, GroupRuntime::Started),
                None => Seq::empty(),
            }) + seq![MpiCall::MbDestroyPool { pool: self.spec_pool() }],
    {
        let enc = self.enc.id();
        let mut calls: Vec<MpiCall> = Vec::new();
        calls.push(MpiCall::VencStopRecvFrame { chn: enc });
        calls.push(MpiCall::VencDestroyChn { chn: enc });
        let ghost c1 = calls@;
        match self.group {
            Some(g) => {
                calls.push(MpiCall::VpssDisableChn { grp: g, chn: SIMPLE_VPSS_CHANNEL as i32 });
                calls.push(MpiCall::VpssStopGrp { grp: g });
                calls.push(MpiCall::VpssDestroyGrp { grp: g });
            },
            None => {},
        }
        let ghost c2 = calls@;
        calls.push(MpiCall::MbDestroyPool { pool: self.pool });
        proof {
            let mid = match self.group {
                Some(g) => spec_channel_drop_calls(g, SIMPLE_VPSS_CHANNEL as i32, ChannelRuntime::Enabled)
                    + spec_group_drop_calls(g, GroupRuntime::Started),
                None => Seq::empty(),
            };
            assert(c1 =~= spec_venc_drop_calls(enc, Runtime::Started));
            assert(c2 =~= c1 + mid);
            assert(calls@ =~= c1 + mid + seq![MpiCall::MbDestroyPool { pool: self.pool }]);
        }
        calls
    }
}

/// Encoding a frame takes a cached buffer of the frame's size from the
/// encoder's pool; sends the frame held in the buffer taken, described with
/// the encoder's pixel format and size, to the processing group's pipe 0
/// when there is a group and straight to the encoder channel otherwise;
/// then takes the stream from the encoder channel; both transfers wait the
/// asked time. No call is made while the frame is written or once the
/// encoding ended.
pub proof fn lemma_encode_routes(run: EncodeRun)
    ensures
        run.spec_step() == EncodeStep::GetBuffer ==> run.spec_next_call() == Some(
            MpiCall::MbGetMb { pool: run.spec_pool(), size: run.spec_size() as u64, cached: true },
        ),
        run.spec_step() == EncodeStep::Send ==> (run.spec_group() matches Some(g) ==> run.spec_next_call()
            == Some(
            MpiCall::VpssSendFrame {
                grp: g,
                pipe: 0,
                frame: spec_frame_desc(
                    run.spec_buffer(),
                    run.spec_pixel_format(),
                    run.spec_width(),
                    run.spec_height(),
                ),
                timeout_ms: run.spec_timeout(),
            },
        )),
        run.spec_step() == EncodeStep::Send && run.spec_group() is None ==> run.spec_next_call()
            == Some(
            MpiCall::VencSendFrame {
                chn: run.spec_encoder(),
                frame: spec_frame_desc(
                    run.spec_buffer(),
                    run.spec_pixel_format(),
                    run.spec_width(),
                    run.spec_height(),
                ),
                timeout_ms: run.spec_timeout(),
            },
        ),
        run.spec_step() == EncodeStep::GetStream ==> run.spec_next_call() == Some(
            MpiCall::VencGetStream { chn: run.spec_encoder(), timeout_ms: run.spec_timeout() },
        ),
        (run.spec_step() == EncodeStep::Fill || run.finished()) ==> run.spec_next_call() is None,
{
}

/// The steps of encoding one frame.
#[derive(Clone, Copy, Debug, PartialEq, Eq, Structural)]
pub enum EncodeStep {
    /// Take an input buffer from the pool.
    GetBuffer,
    /// Write the frame's bytes into the buffer.
    Fill,
    /// Send the frame on (to the processing group, or else the encoder).
    Send,
    /// Take the encoded stream.
    GetStream,
    /// The stream is there.
    Done,
    /// The encoding ended with `err`.
    Failed { err: Error },
}

/// The encoding of one frame, step by step: an input buffer is taken, the
/// frame's bytes are written into it, the frame held in it is sent on, and
/// the stream is taken. The first error ends it; a buffer taken is handed
/// back at the end.
pub struct EncodeRun {
    step: EncodeStep,
    encoder: i32,
    pool: u32,
    size: u32,
    group: Option<i32>,
    pixel_format: PixelFormat,
    width: u16,
    height: u16,
    timeout: i32,
    buffer: u64,
}

impl EncodeRun {
    /// The step reached.
    pub closed spec fn spec_step(&self) -> EncodeStep {
        self.step
    }

    /// The encoder channel number.
    pub closed spec fn spec_encoder(&self) -> i32 {
        self.encoder
    }

    /// The pool the buffer is taken from.
    pub closed spec fn spec_pool(&self) -> u32 {
        self.pool
    }

    /// The size of the buffer.
    pub closed spec fn spec_size(&self) -> u32 {
        self.size
    }

    /// The processing group the frame is sent to, if any.
    pub closed spec fn spec_group(&self) -> Option<i32> {
        self.group
    }

    /// The pixel format of the frame.
    pub closed spec fn spec_pixel_format(&self) -> PixelFormat {
        self.pixel_format
    }

    /// The picture width.
    pub closed spec fn spec_width(&self) -> u16 {
        self.width
    }

    /// The picture height.
    pub closed spec fn spec_height(&self) -> u16 {
        self.height
    }

    /// The time to wait, as handed to the platform.
    pub closed spec fn spec_timeout(&self) -> i32 {
        self.timeout
    }

    /// The handle of the buffer taken (0: none).
    pub closed spec fn spec_buffer(&self) -> u64 {
        self.buffer
    }

    /// The description of the frame sent: the frame held in the buffer
    /// taken.
    pub open spec fn spec_frame(&self) -> VideoFrameDesc {
        spec_frame_desc(self.spec_buffer(), self.spec_pixel_format(), self.spec_width(), self.spec_height())
    }

    /// No call is left to make.
    pub open spec fn finished(&self) -> bool {
        self.spec_step() is Done || self.spec_step() is Failed
    }

    /// The call made at the step reached, if any (none while the frame is
    /// written).
    pub open spec fn spec_next_call(&self) -> Option<MpiCall> {
        match self.spec_step() {
            EncodeStep::GetBuffer => Some(
                MpiCall::MbGetMb { pool: self.spec_pool(), size: self.spec_size() as u64, cached: true },
            ),
            EncodeStep::Fill => None,
            EncodeStep::Send => Some(
                match self.spec_group() {
                    Some(g) => MpiCall::VpssSendFrame {
                        grp: g,
                        pipe: SIMPLE_VPSS_PIPE as i32,
                        frame: self.spec_frame(),
                        timeout_ms: self.spec_timeout(),
                    },
                    None => MpiCall::VencSendFrame {
                        chn: self.spec_encoder(),
                        frame: self.spec_frame(),
                        timeout_ms: self.spec_timeout(),
                    },
                },
            ),
            EncodeStep::GetStream => Some(
                MpiCall::VencGetStream { chn: self.spec_encoder(), timeout_ms: self.spec_timeout() },
            ),
            EncodeStep::Done => None,
            EncodeStep::Failed { .. } => None,
        }
    }

    /// The step reached.
    pub fn step(&self) -> (r: EncodeStep)
        ensures
            r == self.spec_step(),
    {
        self.step
    }

    /// The size of the buffer.
    pub fn size(&self) -> (r: usize)
        ensures
            r == self.spec_size(),
    {
        self.size as usize
    }

    /// The call to make next, if any.
    pub fn next_call(&self) -> (r: Option<MpiCall>)
        ensures
            r == self.spec_next_call(),
            r.is_none() == (self.finished() || self.spec_step() == EncodeStep::Fill),
    {
        match self.step {
            EncodeStep::GetBuffer => Some(
                MpiCall::MbGetMb { pool: self.pool, size: self.size as u64, cached: true },
            ),
            EncodeStep::Fill => None,
            EncodeStep::Send => {
                let frame = frame_desc(self.buffer, self.pixel_format, self.width, self.height);
                Some(
                    match self.group {
                        Some(g) => MpiCall::VpssSendFrame {
                            grp: g,
                            pipe: SIMPLE_VPSS_PIPE as i32,
                            frame,
                            timeout_ms: self.timeout,
                        },
                        None => MpiCall::VencSendFrame {
                            chn: self.encoder,
                            frame,
                            timeout_ms: self.timeout,
                        },
                    },
                )
            },
            EncodeStep::GetStream => Some(
                MpiCall::VencGetStream { chn: self.encoder, timeout_ms: self.timeout },
            ),
            EncodeStep::Done => None,
            EncodeStep::Failed { .. } => None,
        }
    }

    /// Records the handle the buffer request answered and whether the
    /// buffer's bytes could be reached: no buffer (handle 0) ends the
    /// encoding; a buffer whose bytes cannot be reached ends it too, once
    /// taken; else the frame is written into it next.
    pub fn record_buffer(&mut self, handle: u64, mapped: bool)
        requires
            old(self).spec_step() == EncodeStep::GetBuffer,
        ensures
            handle == 0 ==> final(self).spec_step() == (EncodeStep::Failed { err: Error::GetBuffer }),
            handle != 0 && !mapped ==> final(self).spec_step() == (EncodeStep::Failed {
                err: Error::InvalidFramePointer,
            }),
            handle != 0 && mapped ==> final(self).spec_step() == EncodeStep::Fill,
            final(self).spec_buffer() == handle,
            final(self).spec_encoder() == old(self).spec_encoder(),
            final(self).spec_pool() == old(self).spec_pool(),
            final(self).spec_size() == old(self).spec_size(),
            final(self).spec_group() == old(self).spec_group(),
            final(self).spec_pixel_format() == old(self).spec_pixel_format(),
            final(self).spec_width() == old(self).spec_width(),
            final(self).spec_height() == old(self).spec_height(),
            final(self).spec_timeout() == old(self).spec_timeout(),
    {
        self.buffer = handle;
        self.step = if handle == 0 {
            EncodeStep::Failed { err: Error::GetBuffer }
        } else if mapped {
            EncodeStep::Fill
        } else {
            EncodeStep::Failed { err: Error::InvalidFramePointer }
        };
    }

    /// Writes the frame's bytes `frame` into the buffer's bytes `dst`; the
    /// frame is sent next. The frame must be exactly as long as the buffer.
    pub fn fill(&mut self, dst: &mut [u8], frame: &[u8])
        requires
            old(self).spec_step() == EncodeStep::Fill,
            old(dst)@.len() == old(self).spec_size(),
            frame@.len() == old(dst)@.len(),
        ensures
            final(dst)@ == frame@,
            final(self).spec_step() == EncodeStep::Send,
            final(self).spec_buffer() == old(self).spec_buffer(),
            final(self).spec_encoder() == old(self).spec_encoder(),
            final(self).spec_pool() == old(self).spec_pool(),
            final(self).spec_size() == old(self).spec_size(),
            final(self).spec_group() == old(self).spec_group(),
            final(self).spec_pixel_format() == old(self).spec_pixel_format(),
            final(self).spec_width() == old(self).spec_width(),
            final(self).spec_height() == old(self).spec_height(),
            final(self).spec_timeout() == old(self).spec_timeout(),
    {
        copy_bytes(dst, frame);
        self.step = EncodeStep::Send;
    }

    /// Records the return code of the send or of the stream request: a
    /// failure ends the encoding with its code.
    pub fn record(&mut self, code: i32)
        requires
            old(self).spec_step() == EncodeStep::Send || old(self).spec_step()
                == EncodeStep::GetStream,
        ensures
            code != RK_SUCCESS ==> final(self).spec_step() == (EncodeStep::Failed {
                err: Error::Rockit { code },
            }),
            code == RK_SUCCESS && old(self).spec_step() == EncodeStep::Send ==> final(self).spec_step()
                == EncodeStep::GetStream,
            code == RK_SUCCESS && old(self).spec_step() == EncodeStep::GetStream ==> final(self).spec_step() == EncodeStep::Done,
            final(self).spec_buffer() == old(self).spec_buffer(),
            final(self).spec_encoder() == old(self).spec_encoder(),
            final(self).spec_pool() == old(self).spec_pool(),
            final(self).spec_size() == old(self).spec_size(),
            final(self).spec_group() == old(self).spec_group(),
            final(self).spec_pixel_format() == old(self).spec_pixel_format(),
            final(self).spec_width() == old(self).spec_width(),
            final(self).spec_height() == old(self).spec_height(),
            final(self).spec_timeout() == old(self).spec_timeout(),
    {
        self.step = if code != RK_SUCCESS {
            EncodeStep::Failed { err: Error::Rockit { code } }
        } else if self.step == EncodeStep::Send {
            EncodeStep::GetStream
        } else {
            EncodeStep::Done
        };
    }

    /// The call that hands the input buffer back, if one was taken.
    pub fn release_calls(&self) -> (r: Vec<MpiCall>)
        ensures
            self.spec_buffer() != 0 ==> r@ == seq![MpiCall::MbReleaseMb { buffer: self.spec_buffer() }],
            self.spec_buffer() == 0 ==> r@ == Seq::<MpiCall>::empty(),
    {
        let mut calls: Vec<MpiCall> = Vec::new();
        if self.buffer != 0 {
            calls.push(MpiCall::MbReleaseMb { buffer: self.buffer });
        }
        calls
    }
}

} // verus!
