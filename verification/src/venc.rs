//! Video encoder channels: their configuration, their start and stop, their
//! binding to a video input channel, and the streams they produce.

pub mod state;

use crate::call::MpiCall;
use crate::mb::{MbFrame, MbFrameInner, MbFrameOwned, VideoFrameDesc};
use crate::vi::{CameraInner, ViChannel, ViChannelInner, ViChannelOwned};
use crate::{
    mapped_data, rk_check_err, spec_check, spec_timeout_arg, timeout_arg, ChannelBind, Error,
    ModId, MppChn, PixelFormat, RockitSys, RK_SUCCESS,
};
use core::marker::PhantomData;
use state::Runtime;
use vstd::prelude::*;

verus! {

/// What an encoder channel is asked to produce.
#[derive(Clone, Copy, Debug)]
pub struct VencConfig {
    pub width: u16,
    pub height: u16,
    pub codec: Codec,
    pub buf_count: u8,
}

/// The codec, with its rate control and profile.
#[allow(inconsistent_fields)]
#[derive(Clone, Copy, Debug, PartialEq, Eq, Structural)]
pub enum Codec {
    H264 { rate_control: H26xRateControl, profile: H264Profile },
    Hevc { rate_control: H26xRateControl, profile: HevcProfile },
}

/// Rate control of H.264 and H.265: constant, variable or adaptive
/// variable bit rate.
#[derive(Clone, Copy, Debug, PartialEq, Eq, Structural)]
pub enum H26xRateControl {
    Cbr { gop: u16, framerate: u8, bitrate_kbps: u32 },
    Vbr {
        gop: u16,
        framerate: u8,
        bitrate_kbps: u32,
        max_bitrate_kbps: u32,
        min_bitrate_kbps: u32,
    },
    Avbr {
        gop: u16,
        framerate: u8,
        bitrate_kbps: u32,
        max_bitrate_kbps: u32,
        min_bitrate_kbps: u32,
    },
}

/// H.264 profiles.
#[derive(Clone, Copy, Debug, PartialEq, Eq, Structural)]
pub enum H264Profile {
    Baseline,
    Main,
    High,
}

/// H.265 profiles.
#[derive(Clone, Copy, Debug, PartialEq, Eq, Structural)]
pub enum HevcProfile {
    Main,
    Main10,
}

/// The platform's codec identifiers.
#[derive(Clone, Copy, Debug, PartialEq, Eq, Structural)]
pub enum CodecId {
    Avc,
    Hevc,
}

/// The platform's rate-control modes.
#[derive(Clone, Copy, Debug, PartialEq, Eq, Structural)]
pub enum RcMode {
    H264Cbr,
    H264Vbr,
    H264Avbr,
    H265Cbr,
    H265Vbr,
    H265Avbr,
}

/// The platform's encoder profiles.
#[derive(Clone, Copy, Debug, PartialEq, Eq, Structural)]
pub enum Profile {
    H264Baseline,
    H264Main,
    H264High,
    H265Main,
    H265Main10,
}

/// Constant-bit-rate attributes; frame rates are fractions.
#[derive(Clone, Copy, Debug, PartialEq, Eq, Structural)]
pub struct CbrAttrs {
    pub gop: u32,
    pub src_frame_rate_num: u32,
    pub src_frame_rate_den: u32,
    pub dst_frame_rate_num: u32,
    pub dst_frame_rate_den: u32,
    pub bit_rate: u32,
    pub stat_time: u32,
}

/// Variable-bit-rate attributes; frame rates are fractions.
#[derive(Clone, Copy, Debug, PartialEq, Eq, Structural)]
pub struct VbrAttrs {
    pub gop: u32,
    pub src_frame_rate_num: u32,
    pub src_frame_rate_den: u32,
    pub dst_frame_rate_num: u32,
    pub dst_frame_rate_den: u32,
    pub bit_rate: u32,
    pub max_bit_rate: u32,
    pub min_bit_rate: u32,
    pub stat_time: u32,
}

/// Rate-control attributes, of the kind of a rate-control mode.
#[derive(Clone, Copy, Debug, PartialEq, Eq, Structural)]
pub enum RcAttrs {
    H264Cbr(CbrAttrs),
    H264Vbr(VbrAttrs),
    H264Avbr(VbrAttrs),
    H265Cbr(CbrAttrs),
    H265Vbr(VbrAttrs),
    H265Avbr(VbrAttrs),
}

/// The mode that rate-control attributes are for.
pub open spec fn rc_attrs_mode(a: RcAttrs) -> RcMode {
    match a {
        RcAttrs::H264Cbr(_) => RcMode::H264Cbr,
        RcAttrs::H264Vbr(_) => RcMode::H264Vbr,
        RcAttrs::H264Avbr(_) => RcMode::H264Avbr,
        RcAttrs::H265Cbr(_) => RcMode::H265Cbr,
        RcAttrs::H265Vbr(_) => RcMode::H265Vbr,
        RcAttrs::H265Avbr(_) => RcMode::H265Avbr,
    }
}

/// Constant bit rate: `framerate` frames per second in and out, a group
/// of pictures of `gop` frames, `bitrate_kbps` kbit/s.
pub open spec fn spec_cbr(gop: u16, framerate: u8, bitrate_kbps: u32) -> CbrAttrs {
    CbrAttrs {
        gop: gop as u32,
        src_frame_rate_num: framerate as u32,
        src_frame_rate_den: 1,
        dst_frame_rate_num: framerate as u32,
        dst_frame_rate_den: 1,
        bit_rate: bitrate_kbps,
        stat_time: 0,
    }
}

/// Variable bit rate: as constant bit rate, with the bit rate kept between
/// `min_bitrate_kbps` and `max_bitrate_kbps`.
pub open spec fn spec_vbr(
    gop: u16,
    framerate: u8,
    bitrate_kbps: u32,
    max_bitrate_kbps: u32,
    min_bitrate_kbps: u32,
) -> VbrAttrs {
    VbrAttrs {
        gop: gop as u32,
        src_frame_rate_num: framerate as u32,
        src_frame_rate_den: 1,
        dst_frame_rate_num: framerate as u32,
        dst_frame_rate_den: 1,
        bit_rate: bitrate_kbps,
        max_bit_rate: max_bitrate_kbps,
        min_bit_rate: min_bitrate_kbps,
        stat_time: 0,
    }
}

fn cbr(gop: u16, framerate: u8, bitrate_kbps: u32) -> (r: CbrAttrs)
    ensures
        r == spec_cbr(gop, framerate, bitrate_kbps),
{
    CbrAttrs {
        gop: gop as u32,
        src_frame_rate_num: framerate as u32,
        src_frame_rate_den: 1,
        dst_frame_rate_num: framerate as u32,
        dst_frame_rate_den: 1,
        bit_rate: bitrate_kbps,
        stat_time: 0,
    }
}

fn vbr(gop: u16, framerate: u8, bitrate_kbps: u32, max_bitrate_kbps: u32, min_bitrate_kbps: u32) -> (r:
    VbrAttrs)
    ensures
        r == spec_vbr(gop, framerate, bitrate_kbps, max_bitrate_kbps, min_bitrate_kbps),
{
    VbrAttrs {
        gop: gop as u32,
        src_frame_rate_num: framerate as u32,
        src_frame_rate_den: 1,
        dst_frame_rate_num: framerate as u32,
        dst_frame_rate_den: 1,
        bit_rate: bitrate_kbps,
        max_bit_rate: max_bitrate_kbps,
        min_bit_rate: min_bitrate_kbps,
        stat_time: 0,
    }
}

impl Codec {
    /// The codec's identifier.
    pub open spec fn spec_native_id(self) -> CodecId {
        match self {
            Codec::H264 { .. } => CodecId::Avc,
            Codec::Hevc { .. } => CodecId::Hevc,
        }
    }

    /// The rate-control mode: the codec family and the kind of rate control.
    pub open spec fn spec_rate_control_mode(self) -> RcMode {
        match self {
            Codec::H264 { rate_control: H26xRateControl::Cbr { .. }, .. } => RcMode::H264Cbr,
            Codec::H264 { rate_control: H26xRateControl::Vbr { .. }, .. } => RcMode::H264Vbr,
            Codec::H264 { rate_control: H26xRateControl::Avbr { .. }, .. } => RcMode::H264Avbr,
            Codec::Hevc { rate_control: H26xRateControl::Cbr { .. }, .. } => RcMode::H265Cbr,
            Codec::Hevc { rate_control: H26xRateControl::Vbr { .. }, .. } => RcMode::H265Vbr,
            Codec::Hevc { rate_control: H26xRateControl::Avbr { .. }, .. } => RcMode::H265Avbr,
        }
    }

    /// The profile.
    pub open spec fn spec_profile(self) -> Profile {
        match self {
            Codec::H264 { profile: H264Profile::Baseline, .. } => Profile::H264Baseline,
            Codec::H264 { profile: H264Profile::Main, .. } => Profile::H264Main,
            Codec::H264 { profile: H264Profile::High, .. } => Profile::H264High,
            Codec::Hevc { profile: HevcProfile::Main, .. } => Profile::H265Main,
            Codec::Hevc { profile: HevcProfile::Main10, .. } => Profile::H265Main10,
        }
    }

    /// The rate-control attributes, from the configured rate control.
    pub open spec fn spec_rate_control_attrs(self) -> RcAttrs {
        match self {
            Codec::H264 { rate_control: H26xRateControl::Cbr { gop, framerate, bitrate_kbps }, .. } =>
                RcAttrs::H264Cbr(spec_cbr(gop, framerate, bitrate_kbps)),
            Codec::H264 {
                rate_control:
                    H26xRateControl::Vbr {
                        gop,
                        framerate,
                        bitrate_kbps,
                        max_bitrate_kbps,
                        min_bitrate_kbps,
                    },
                ..
            } => RcAttrs::H264Vbr(
                spec_vbr(gop, framerate, bitrate_kbps, max_bitrate_kbps, min_bitrate_kbps),
            ),
            Codec::H264 {
                rate_control:
                    H26xRateControl::Avbr {
                        gop,
                        framerate,
                        bitrate_kbps,
                        max_bitrate_kbps,
                        min_bitrate_kbps,
                    },
                ..
            } => RcAttrs::H264Avbr(
                spec_vbr(gop, framerate, bitrate_kbps, max_bitrate_kbps, min_bitrate_kbps),
            ),
            Codec::Hevc { rate_control: H26xRateControl::Cbr { gop, framerate, bitrate_kbps }, .. } =>
                RcAttrs::H265Cbr(spec_cbr(gop, framerate, bitrate_kbps)),
            Codec::Hevc {
                rate_control:
                    H26xRateControl::Vbr {
                        gop,
                        framerate,
                        bitrate_kbps,
                        max_bitrate_kbps,
                        min_bitrate_kbps,
                    },
                ..
            } => RcAttrs::H265Vbr(
                spec_vbr(gop, framerate, bitrate_kbps, max_bitrate_kbps, min_bitrate_kbps),
            ),
            Codec::Hevc {
                rate_control:
                    H26xRateControl::Avbr {
                        gop,
                        framerate,
                        bitrate_kbps,
                        max_bitrate_kbps,
                        min_bitrate_kbps,
                    },
                ..
            } => RcAttrs::H265Avbr(
                spec_vbr(gop, framerate, bitrate_kbps, max_bitrate_kbps, min_bitrate_kbps),
            ),
        }
    }

    /// The codec's identifier.
    pub fn native_id(&self) -> (r: CodecId)
        ensures
            r == self.spec_native_id(),
    {
        match self {
            Codec::H264 { .. } => CodecId::Avc,
            Codec::Hevc { .. } => CodecId::Hevc,
        }
    }

    /// The rate-control mode.
    pub fn native_rate_control_mode(&self) -> (r: RcMode)
        ensures
            r == self.spec_rate_control_mode(),
    {
        match self {
            Codec::H264 { rate_control: H26xRateControl::Cbr { .. }, .. } => RcMode::H264Cbr,
            Codec::H264 { rate_control: H26xRateControl::Vbr { .. }, .. } => RcMode::H264Vbr,
            Codec::H264 { rate_control: H26xRateControl::Avbr { .. }, .. } => RcMode::H264Avbr,
            Codec::Hevc { rate_control: H26xRateControl::Cbr { .. }, .. } => RcMode::H265Cbr,
            Codec::Hevc { rate_control: H26xRateControl::Vbr { .. }, .. } => RcMode::H265Vbr,
            Codec::Hevc { rate_control: H26xRateControl::Avbr { .. }, .. } => RcMode::H265Avbr,
        }
    }

    /// The profile.
    pub fn native_profile(&self) -> (r: Profile)
        ensures
            r == self.spec_profile(),
    {
        match self {
            Codec::H264 { profile: H264Profile::Baseline, .. } => Profile::H264Baseline,
            Codec::H264 { profile: H264Profile::Main, .. } => Profile::H264Main,
            Codec::H264 { profile: H264Profile::High, .. } => Profile::H264High,
            Codec::Hevc { profile: HevcProfile::Main, .. } => Profile::H265Main,
            Codec::Hevc { profile: HevcProfile::Main10, .. } => Profile::H265Main10,
        }
    }

    /// The rate-control attributes.
    pub fn native_rate_control_attrs(&self) -> (r: RcAttrs)
        ensures
            r == self.spec_rate_control_attrs(),
    {
        match *self {
            Codec::H264 { rate_control: H26xRateControl::Cbr { gop, framerate, bitrate_kbps }, .. } =>
                RcAttrs::H264Cbr(cbr(gop, framerate, bitrate_kbps)),
            Codec::H264 {
                rate_control:
                    H26xRateControl::Vbr {
                        gop,
                        framerate,
                        bitrate_kbps,
                        max_bitrate_kbps,
                        min_bitrate_kbps,
                    },
                ..
            } => RcAttrs::H264Vbr(
                vbr(gop, framerate, bitrate_kbps, max_bitrate_kbps, min_bitrate_kbps),
            ),
            Codec::H264 {
                rate_control:
                    H26xRateControl::Avbr {
                        gop,
                        framerate,
                        bitrate_kbps,
                        max_bitrate_kbps,
                        min_bitrate_kbps,
                    },
                ..
            } => RcAttrs::H264Avbr(
                vbr(gop, framerate, bitrate_kbps, max_bitrate_kbps, min_bitrate_kbps),
            ),
            Codec::Hevc { rate_control: H26xRateControl::Cbr { gop, framerate, bitrate_kbps }, .. } =>
                RcAttrs::H265Cbr(cbr(gop, framerate, bitrate_kbps)),
            Codec::Hevc {
                rate_control:
                    H26xRateControl::Vbr {
                        gop,
                        framerate,
                        bitrate_kbps,
                        max_bitrate_kbps,
                        min_bitrate_kbps,
                    },
                ..
            } => RcAttrs::H265Vbr(
                vbr(gop, framerate, bitrate_kbps, max_bitrate_kbps, min_bitrate_kbps),
            ),
            Codec::Hevc {
                rate_control:
                    H26xRateControl::Avbr {
                        gop,
                        framerate,
                        bitrate_kbps,
                        max_bitrate_kbps,
                        min_bitrate_kbps,
                    },
                ..
            } => RcAttrs::H265Avbr(
                vbr(gop, framerate, bitrate_kbps, max_bitrate_kbps, min_bitrate_kbps),
            ),
        }
    }
}

/// The rate-control attributes of a codec are of the kind its rate-control
/// mode names, and the identifier, mode and profile all name the same codec
/// family.
pub proof fn lemma_codec_consistent(c: Codec)
    ensures
        rc_attrs_mode(c.spec_rate_control_attrs()) == c.spec_rate_control_mode(),
        c.spec_native_id() == CodecId::Avc <==> (c.spec_rate_control_mode() == RcMode::H264Cbr
            || c.spec_rate_control_mode() == RcMode::H264Vbr || c.spec_rate_control_mode()
            == RcMode::H264Avbr),
        c.spec_native_id() == CodecId::Avc <==> (c.spec_profile() == Profile::H264Baseline
            || c.spec_profile() == Profile::H264Main || c.spec_profile() == Profile::H264High),
{
}

/// The rate control a codec is configured with.
pub open spec fn codec_rate_control(c: Codec) -> H26xRateControl {
    match c {
        Codec::H264 { rate_control, .. } => rate_control,
        Codec::Hevc { rate_control, .. } => rate_control,
    }
}

/// The numbers of a configured rate control: group of pictures, frame
/// rate, target bit rate, and, for a variable rate, its upper and lower
/// limits (in that order).
pub open spec fn configured_rate(rc: H26xRateControl) -> (u16, u8, u32, Option<(u32, u32)>) {
    match rc {
        H26xRateControl::Cbr { gop, framerate, bitrate_kbps } => (gop, framerate, bitrate_kbps, None),
        H26xRateControl::Vbr { gop, framerate, bitrate_kbps, max_bitrate_kbps, min_bitrate_kbps } => (
            gop,
            framerate,
            bitrate_kbps,
            Some((max_bitrate_kbps, min_bitrate_kbps)),
        ),
        H26xRateControl::Avbr { gop, framerate, bitrate_kbps, max_bitrate_kbps, min_bitrate_kbps } => (
            gop,
            framerate,
            bitrate_kbps,
            Some((max_bitrate_kbps, min_bitrate_kbps)),
        ),
    }
}

/// The numbers rate-control attributes hand the platform: group of
/// pictures, source and destination frame rates (numerator, denominator),
/// bit rate, the limits of a variable rate (upper, lower), and the
/// averaging period.
pub open spec fn attrs_rate(a: RcAttrs) -> (u32, (u32, u32), (u32, u32), u32, Option<(u32, u32)>, u32) {
    match a {
        RcAttrs::H264Cbr(c) => (
            c.gop,
            (c.src_frame_rate_num, c.src_frame_rate_den),
            (c.dst_frame_rate_num, c.dst_frame_rate_den),
            c.bit_rate,
            None,
            c.stat_time,
        ),
        RcAttrs::H265Cbr(c) => (
            c.gop,
            (c.src_frame_rate_num, c.src_frame_rate_den),
            (c.dst_frame_rate_num, c.dst_frame_rate_den),
            c.bit_rate,
            None,
            c.stat_time,
        ),
        RcAttrs::H264Vbr(v) => (
            v.gop,
            (v.src_frame_rate_num, v.src_frame_rate_den),
            (v.dst_frame_rate_num, v.dst_frame_rate_den),
            v.bit_rate,
            Some((v.max_bit_rate, v.min_bit_rate)),
            v.stat_time,
        ),
        RcAttrs::H264Avbr(v) => (
            v.gop,
            (v.src_frame_rate_num, v.src_frame_rate_den),
            (v.dst_frame_rate_num, v.dst_frame_rate_den),
            v.bit_rate,
            Some((v.max_bit_rate, v.min_bit_rate)),
            v.stat_time,
        ),
        RcAttrs::H265Vbr(v) => (
            v.gop,
            (v.src_frame_rate_num, v.src_frame_rate_den),
            (v.dst_frame_rate_num, v.dst_frame_rate_den),
            v.bit_rate,
            Some((v.max_bit_rate, v.min_bit_rate)),
            v.stat_time,
        ),
        RcAttrs::H265Avbr(v) => (
            v.gop,
            (v.src_frame_rate_num, v.src_frame_rate_den),
            (v.dst_frame_rate_num, v.dst_frame_rate_den),
            v.bit_rate,
            Some((v.max_bit_rate, v.min_bit_rate)),
            v.stat_time,
        ),
    }
}

/// The rate-control attributes hand the platform the configured numbers
/// unchanged, each in its own place: the group of pictures; the frame rate
/// as whole frames per second, in and out; the target bit rate; for a
/// variable or adaptive variable rate, the configured upper limit as the
/// upper limit and the lower limit as the lower limit; no averaging period.
/// They are of the configured kind of rate control, for the configured
/// codec family.
pub proof fn lemma_rate_control_carried(c: Codec)
    ensures
        attrs_rate(c.spec_rate_control_attrs()).0 == configured_rate(codec_rate_control(c)).0 as u32,
        attrs_rate(c.spec_rate_control_attrs()).1 == (
            configured_rate(codec_rate_control(c)).1 as u32,
            1u32,
        ),
        attrs_rate(c.spec_rate_control_attrs()).2 == (
            configured_rate(codec_rate_control(c)).1 as u32,
            1u32,
        ),
        attrs_rate(c.spec_rate_control_attrs()).3 == configured_rate(codec_rate_control(c)).2,
        attrs_rate(c.spec_rate_control_attrs()).4 == configured_rate(codec_rate_control(c)).3,
        attrs_rate(c.spec_rate_control_attrs()).5 == 0,
        codec_rate_control(c) is Cbr <==> (c.spec_rate_control_attrs() is H264Cbr
            || c.spec_rate_control_attrs() is H265Cbr),
        codec_rate_control(c) is Vbr <==> (c.spec_rate_control_attrs() is H264Vbr
            || c.spec_rate_control_attrs() is H265Vbr),
        codec_rate_control(c) is Avbr <==> (c.spec_rate_control_attrs() is H264Avbr
            || c.spec_rate_control_attrs() is H265Avbr),
        c is H264 <==> (c.spec_rate_control_attrs() is H264Cbr || c.spec_rate_control_attrs() is H264Vbr
            || c.spec_rate_control_attrs() is H264Avbr),
{
}

/// The identifier, mode and profile name the configured codec family, kind
/// of rate control and profile: H.264 is AVC, H.265 is HEVC; each profile
/// is the one of the same name.
pub proof fn lemma_codec_names(c: Codec)
    ensures
        c is H264 ==> c.spec_native_id() == CodecId::Avc,
        c is Hevc ==> c.spec_native_id() == CodecId::Hevc,
        (c is H264 && codec_rate_control(c) is Cbr) <==> c.spec_rate_control_mode() == RcMode::H264Cbr,
        (c is H264 && codec_rate_control(c) is Vbr) <==> c.spec_rate_control_mode() == RcMode::H264Vbr,
        (c is H264 && codec_rate_control(c) is Avbr) <==> c.spec_rate_control_mode()
            == RcMode::H264Avbr,
        (c is Hevc && codec_rate_control(c) is Cbr) <==> c.spec_rate_control_mode() == RcMode::H265Cbr,
        (c is Hevc && codec_rate_control(c) is Vbr) <==> c.spec_rate_control_mode() == RcMode::H265Vbr,
        (c is Hevc && codec_rate_control(c) is Avbr) <==> c.spec_rate_control_mode()
            == RcMode::H265Avbr,
        c matches Codec::H264 { profile: H264Profile::Baseline, .. } <==> c.spec_profile()
            == Profile::H264Baseline,
        c matches Codec::H264 { profile: H264Profile::Main, .. } <==> c.spec_profile()
            == Profile::H264Main,
        c matches Codec::H264 { profile: H264Profile::High, .. } <==> c.spec_profile()
            == Profile::H264High,
        c matches Codec::Hevc { profile: HevcProfile::Main, .. } <==> c.spec_profile()
            == Profile::H265Main,
        c matches Codec::Hevc { profile: HevcProfile::Main10, .. } <==> c.spec_profile()
            == Profile::H265Main10,
{
}

/// An encoder channel is created for the configured picture: its size, its
/// largest size and its stride are the configured width and height; it
/// takes 4:2:0 semi-planar input; it has three stream buffers, each of the
/// size of one 4:2:0 picture (width times height times three halves); and
/// it uses the configured codec's identifier, rate control and profile.
pub proof fn lemma_venc_attr_of_config(cfg: VencConfig)
    requires
        venc_config_fits(cfg),
    ensures
        spec_venc_chn_attr(cfg).pic_width == cfg.width,
        spec_venc_chn_attr(cfg).pic_height == cfg.height,
        spec_venc_chn_attr(cfg).max_pic_width == cfg.width,
        spec_venc_chn_attr(cfg).max_pic_height == cfg.height,
        spec_venc_chn_attr(cfg).vir_width == cfg.width,
        spec_venc_chn_attr(cfg).vir_height == cfg.height,
        spec_venc_chn_attr(cfg).pixel_format == PixelFormat::Nv12,
        spec_venc_chn_attr(cfg).stream_buf_count == 3,
        spec_venc_chn_attr(cfg).buf_size * 2 == cfg.width * cfg.height * 3 || spec_venc_chn_attr(
            cfg,
        ).buf_size * 2 + 1 == cfg.width * cfg.height * 3,
        !spec_venc_chn_attr(cfg).by_frame,
        spec_venc_chn_attr(cfg).mirror == VencMirror::NoMirror,
        spec_venc_chn_attr(cfg).codec == cfg.codec.spec_native_id(),
        spec_venc_chn_attr(cfg).rc_mode == cfg.codec.spec_rate_control_mode(),
        spec_venc_chn_attr(cfg).rc == cfg.codec.spec_rate_control_attrs(),
        spec_venc_chn_attr(cfg).profile == cfg.codec.spec_profile(),
{
}

/// How an encoder channel groups its pictures.
#[derive(Clone, Copy, Debug, PartialEq, Eq, Structural)]
pub enum GopMode {
    /// The platform's initial grouping.
    Init,
}

/// Whether an encoder channel mirrors its pictures.
#[derive(Clone, Copy, Debug, PartialEq, Eq, Structural)]
pub enum VencMirror {
    NoMirror,
}

/// The attributes an encoder channel is created with (see
/// `spec_venc_chn_attr`).
#[derive(Clone, Copy, Debug, PartialEq, Eq, Structural)]
pub struct VencChnAttr {
    pub pixel_format: PixelFormat,
    pub gop_mode: GopMode,
    pub vir_idr_len: i32,
    pub max_ltr_count: u32,
    pub tsvc_preload: u32,
    pub mirror: VencMirror,
    pub level: u32,
    pub rc_mode: RcMode,
    pub rc: RcAttrs,
    pub codec: CodecId,
    pub profile: Profile,
    pub pic_width: u32,
    pub pic_height: u32,
    pub max_pic_width: u32,
    pub max_pic_height: u32,
    pub vir_width: u32,
    pub vir_height: u32,
    pub stream_buf_count: u32,
    pub buf_size: u32,
    pub by_frame: bool,
}

/// The picture of `cfg` fits the platform's 32-bit buffer size.
pub open spec fn venc_config_fits(cfg: VencConfig) -> bool {
    cfg.width * cfg.height * 3 <= u32::MAX
}

/// The attributes of an encoder channel for `cfg`: 4:2:0 semi-planar input,
/// the platform's initial picture grouping with no virtual key frames,
/// long-term references or preloading, no mirroring, the platform's level;
/// the codec's rate control and profile; the picture, its stride and its
/// largest size are the configured size, three stream buffers of a 4:2:0
/// picture (width times height times three halves) each, streams not cut
/// by frame.
pub open spec fn spec_venc_chn_attr(cfg: VencConfig) -> VencChnAttr {
    VencChnAttr {
        pixel_format: PixelFormat::Nv12,
        gop_mode: GopMode::Init,
        vir_idr_len: 0,
        max_ltr_count: 0,
        tsvc_preload: 0,
        mirror: VencMirror::NoMirror,
        level: 0,
        rc_mode: cfg.codec.spec_rate_control_mode(),
        rc: cfg.codec.spec_rate_control_attrs(),
        codec: cfg.codec.spec_native_id(),
        profile: cfg.codec.spec_profile(),
        pic_width: cfg.width as u32,
        pic_height: cfg.height as u32,
        max_pic_width: cfg.width as u32,
        max_pic_height: cfg.height as u32,
        vir_width: cfg.width as u32,
        vir_height: cfg.height as u32,
        stream_buf_count: 3,
        buf_size: ((cfg.width * cfg.height * 3) / 2) as u32,
        by_frame: false,
    }
}

/// The attributes of an encoder channel for `cfg`.
pub fn venc_chn_attr(cfg: &VencConfig) -> (r: VencChnAttr)
    requires
        venc_config_fits(*cfg),
    ensures
        r == spec_venc_chn_attr(*cfg),
{
    let width = cfg.width as u32;
    let height = cfg.height as u32;
    VencChnAttr {
        pixel_format: PixelFormat::Nv12,
        gop_mode: GopMode::Init,
        vir_idr_len: 0,
        max_ltr_count: 0,
        tsvc_preload: 0,
        mirror: VencMirror::NoMirror,
        level: 0,
        rc_mode: cfg.codec.native_rate_control_mode(),
        rc: cfg.codec.native_rate_control_attrs(),
        codec: cfg.codec.native_id(),
        profile: cfg.codec.native_profile(),
        pic_width: width,
        pic_height: height,
        max_pic_width: width,
        max_pic_height: height,
        vir_width: width,
        vir_height: height,
        stream_buf_count: 3,
        buf_size: width * height * 3 / 2,
        by_frame: false,
    }
}

/// The binding of video input channel `vi_channel_id` on pipe
/// `vi_pipe_id` to encoder channel `venc_id`.
pub open spec fn spec_vi_venc_bind(venc_id: i32, vi_channel_id: i32, vi_pipe_id: i32) -> ChannelBind {
    ChannelBind {
        src_channel: MppChn { mod_id: ModId::Vi, dev_id: vi_pipe_id, chn_id: vi_channel_id },
        dst_channel: MppChn { mod_id: ModId::Venc, dev_id: 0, chn_id: venc_id },
    }
}

/// The calls that let an encoder channel go: one that is receiving frames
/// is stopped first; then it is destroyed.
pub open spec fn spec_venc_drop_calls(id: i32, state: Runtime) -> Seq<MpiCall> {
    if state == Runtime::Started {
        seq![MpiCall::VencStopRecvFrame { chn: id }, MpiCall::VencDestroyChn { chn: id }]
    } else {
        seq![MpiCall::VencDestroyChn { chn: id }]
    }
}

/// An encoder channel is destroyed exactly once when let go, as its last
/// call; one that receives frames is stopped first, and only such a one;
/// every call is on that channel.
pub proof fn lemma_venc_drop_order(id: i32, state: Runtime)
    ensures
        spec_venc_drop_calls(id, state).len() > 0,
        spec_venc_drop_calls(id, state).last() == (MpiCall::VencDestroyChn { chn: id }),
        (state == Runtime::Started) <==> spec_venc_drop_calls(id, state).contains(
            MpiCall::VencStopRecvFrame { chn: id },
        ),
        state == Runtime::Started ==> spec_venc_drop_calls(id, state)[0] == (
        MpiCall::VencStopRecvFrame { chn: id }),
        forall|i: int|
            0 <= i < spec_venc_drop_calls(id, state).len() - 1 ==> #[trigger] spec_venc_drop_calls(
                id,
                state,
            )[i] == (MpiCall::VencStopRecvFrame { chn: id }),
{
    if state != Runtime::Started {
        assert(spec_venc_drop_calls(id, state) =~= seq![MpiCall::VencDestroyChn { chn: id }]);
        assert(!spec_venc_drop_calls(id, state).contains(MpiCall::VencStopRecvFrame { chn: id })) by {
            assert(spec_venc_drop_calls(id, state)[0] != (MpiCall::VencStopRecvFrame { chn: id }));
        }
    } else {
        assert(spec_venc_drop_calls(id, state)[0] == (MpiCall::VencStopRecvFrame { chn: id }));
    }
}

/// A video input channel is bound as the source and the encoder channel as
/// the destination: the source is the video input module's pipe and
/// channel, the destination the encoder module's channel (on its only
/// device, 0).
pub proof fn lemma_vi_venc_bind_ends(venc_id: i32, vi_channel_id: i32, vi_pipe_id: i32)
    ensures
        spec_vi_venc_bind(venc_id, vi_channel_id, vi_pipe_id).src_channel.mod_id == ModId::Vi,
        spec_vi_venc_bind(venc_id, vi_channel_id, vi_pipe_id).src_channel.dev_id == vi_pipe_id,
        spec_vi_venc_bind(venc_id, vi_channel_id, vi_pipe_id).src_channel.chn_id == vi_channel_id,
        spec_vi_venc_bind(venc_id, vi_channel_id, vi_pipe_id).dst_channel.mod_id == ModId::Venc,
        spec_vi_venc_bind(venc_id, vi_channel_id, vi_pipe_id).dst_channel.dev_id == 0,
        spec_vi_venc_bind(venc_id, vi_channel_id, vi_pipe_id).dst_channel.chn_id == venc_id,
{
}

/// What an encoder channel is: its number and whether it receives frames.
#[derive(Clone, Copy)]
pub(crate) struct VencChannelInner {
    pub(crate) id: i32,
    pub(crate) state: Runtime,
}

impl VencChannelInner {
    fn start_call(&self) -> (r: MpiCall)
        ensures
            r == (MpiCall::VencStartRecvFrame { chn: self.id, recv_pic_num: -1i32 }),
    {
        MpiCall::VencStartRecvFrame { chn: self.id, recv_pic_num: -1 }
    }

    fn start(&mut self, code: i32) -> (r: Result<(), Error>)
        ensures
            r == spec_check(code),
            final(self).id == old(self).id,
            code == RK_SUCCESS ==> final(self).state == Runtime::Started,
            code != RK_SUCCESS ==> final(self).state == old(self).state,
    {
        rk_check_err(code)?;
        self.state = Runtime::Started;
        Ok(())
    }

    fn stop_call(&self) -> (r: Option<MpiCall>)
        ensures
            self.state == Runtime::Started ==> r == Some(MpiCall::VencStopRecvFrame { chn: self.id }),
            self.state != Runtime::Started ==> r.is_none(),
    {
        if self.state != Runtime::Started {
            return None;
        }
        Some(MpiCall::VencStopRecvFrame { chn: self.id })
    }

    fn stop(&self, code: i32) -> (r: Result<(), Error>)
        ensures
            self.state != Runtime::Started ==> r is Ok,
            self.state == Runtime::Started ==> r == spec_check(code),
    {
        if self.state != Runtime::Started {
            return Ok(());
        }
        rk_check_err(code)
    }

    fn bind_call(&self, vi_channel_id: i32, vi_pipe_id: i32) -> (r: MpiCall)
        ensures
            r == (MpiCall::SysBind { bind: spec_vi_venc_bind(self.id, vi_channel_id, vi_pipe_id) }),
    {
        let src_channel = MppChn { mod_id: ModId::Vi, dev_id: vi_pipe_id, chn_id: vi_channel_id };
        let dst_channel = MppChn { mod_id: ModId::Venc, dev_id: 0, chn_id: self.id };
        MpiCall::SysBind { bind: ChannelBind { src_channel, dst_channel } }
    }

    fn bind(&self, vi_channel_id: i32, vi_pipe_id: i32, code: i32) -> (r: Result<ChannelBind, Error>)
        ensures
            code == RK_SUCCESS ==> r == Ok::<ChannelBind, Error>(
                spec_vi_venc_bind(self.id, vi_channel_id, vi_pipe_id),
            ),
            code != RK_SUCCESS ==> r == Err::<ChannelBind, Error>(Error::Rockit { code }),
    {
        rk_check_err(code)?;
        let src_channel = MppChn { mod_id: ModId::Vi, dev_id: vi_pipe_id, chn_id: vi_channel_id };
        let dst_channel = MppChn { mod_id: ModId::Venc, dev_id: 0, chn_id: self.id };
        Ok(ChannelBind { src_channel, dst_channel })
    }

    fn send_frame_call(&self, frame: &MbFrameInner, timeout_ms: u128) -> (r: MpiCall)
        ensures
            r == (MpiCall::VencSendFrame {
                chn: self.id,
                frame: frame.frame,
                timeout_ms: spec_timeout_arg(timeout_ms),
            }),
    {
        MpiCall::VencSendFrame { chn: self.id, frame: *frame.frame(), timeout_ms: timeout_arg(timeout_ms) }
    }

    fn get_stream_call(&self, timeout_ms: u128) -> (r: MpiCall)
        ensures
            r == (MpiCall::VencGetStream { chn: self.id, timeout_ms: spec_timeout_arg(timeout_ms) }),
    {
        MpiCall::VencGetStream { chn: self.id, timeout_ms: timeout_arg(timeout_ms) }
    }

    fn get_stream<'a>(&self, frame: &'a mut StreamFrame, code: i32, packet_len: u32) -> (r: Result<
        VencStreamInner<'a>,
        Error,
    >)
        ensures
            code == RK_SUCCESS ==> (r matches Ok(s) && s.channel_id == self.id
                && s.frame.packet_len == packet_len),
            code != RK_SUCCESS ==> r.is_err() && r->Err_0 == (Error::Rockit { code }),
            code != RK_SUCCESS ==> final(frame).packet_len == old(frame).packet_len,
    {
        if code != RK_SUCCESS {
            return Err(Error::Rockit { code });
        }
        frame.packet_len = packet_len;
        Ok(VencStreamInner { frame, channel_id: self.id })
    }

    fn drop_calls(&self) -> (r: Vec<MpiCall>)
        ensures
            r@ == spec_venc_drop_calls(self.id, self.state),
    {
        let mut calls: Vec<MpiCall> = Vec::new();
        if self.state == Runtime::Started {
            calls.push(MpiCall::VencStopRecvFrame { chn: self.id });
        }
        calls.push(MpiCall::VencDestroyChn { chn: self.id });
        proof {
            if self.state == Runtime::Started {
                assert(calls@ =~= spec_venc_drop_calls(self.id, self.state));
            } else {
                assert(calls@ =~= spec_venc_drop_calls(self.id, self.state));
            }
        }
        calls
    }
}

/// An encoder channel in state `S`.
pub struct VencChannel<'a, S> {
    mpi: &'a RockitSys,
    inner: VencChannelInner,
    _marker: PhantomData<S>,
}

impl<'a, S> VencChannel<'a, S> {
    /// The channel number.
    pub closed spec fn spec_id(&self) -> i32 {
        self.inner.id
    }

    /// Whether the channel receives frames, at run time.
    pub closed spec fn spec_state(&self) -> Runtime {
        self.inner.state
    }

    /// The channel number.
    pub fn id(&self) -> (r: i32)
        ensures
            r == self.spec_id(),
    {
        self.inner.id
    }

    /// The calls that let the channel go.
    pub fn drop_calls(&self) -> (r: Vec<MpiCall>)
        ensures
            r@ == spec_venc_drop_calls(self.spec_id(), self.spec_state()),
    {
        self.inner.drop_calls()
    }
}

impl<'a> VencChannel<'a, state::Initialized> {
    /// The call that creates encoder channel `channel_id` for `cfg`.
    pub fn create_call(channel_id: u8, cfg: &VencConfig) -> (r: MpiCall)
        requires
            venc_config_fits(*cfg),
        ensures
            r == (MpiCall::VencCreateChn { chn: channel_id as i32, venc_attr: spec_venc_chn_attr(*cfg) }),
    {
        MpiCall::VencCreateChn { chn: channel_id as i32, venc_attr: venc_chn_attr(cfg) }
    }

    /// The channel once its creation call returned `code`: created, not
    /// receiving frames, when the call succeeded.
    pub fn new(mpi: &'a RockitSys, channel_id: u8, code: i32) -> (r: Result<
        VencChannel<'a, state::Initialized>,
        Error,
    >)
        ensures
            code == RK_SUCCESS ==> (r matches Ok(c) && c.spec_id() == channel_id
                && c.spec_state() == Runtime::Initialized),
            code != RK_SUCCESS ==> r.is_err() && r->Err_0 == (Error::Rockit { code }),
    {
        rk_check_err(code)?;
        Ok(
            Self {
                inner: VencChannelInner { id: channel_id as i32, state: Runtime::Initialized },
                mpi,
                _marker: PhantomData,
            },
        )
    }

    /// The call that starts receiving frames, with no limit on their number.
    pub fn start_call(&self) -> (r: MpiCall)
        ensures
            r == (MpiCall::VencStartRecvFrame { chn: self.spec_id(), recv_pic_num: -1i32 }),
    {
        self.inner.start_call()
    }

    /// The channel once its start call returned `code`: started when the
    /// call succeeded.
    pub fn start(self, code: i32) -> (r: Result<VencChannel<'a, state::Started>, Error>)
        ensures
            code == RK_SUCCESS ==> (r matches Ok(c) && c.spec_id() == self.spec_id()
                && c.spec_state() == Runtime::Started && (c.spec_id(), c.spec_state())
                == venc_after_switch((self.spec_id(), self.spec_state()))),
            code != RK_SUCCESS ==> r.is_err() && r->Err_0 == (Error::Rockit { code }),
    {
        let mut inner = self.inner;
        inner.start(code)?;
        Ok(VencChannel { inner, mpi: self.mpi, _marker: PhantomData })
    }

    /// The channel, no longer borrowing the system handle.
    pub fn into_owned(self) -> (r: VencChannelOwned<state::Initialized>)
        ensures
            r.spec_id() == self.spec_id(),
            r.spec_state() == self.spec_state(),
    {
        VencChannelOwned { mpi: *self.mpi, inner: self.inner, _marker: PhantomData }
    }
}

impl<'a> VencChannel<'a, state::Started> {
    /// The call that binds video input channel `vi_channel` to this
    /// encoder channel.
    pub fn bind_call(&self, vi_channel: &ViChannel) -> (r: MpiCall)
        ensures
            r == (MpiCall::SysBind {
                bind: spec_vi_venc_bind(self.spec_id(), vi_channel.spec_id(), vi_channel.spec_pipe_id()),
            }),
    {
        self.inner.bind_call(vi_channel.id(), vi_channel.pipe_id())
    }

    /// The binding once its call returned `code`.
    pub fn bind(&'a self, vi_channel: &'a ViChannel<'a>, code: i32) -> (r: Result<
        VencChannelBind<'a>,
        Error,
    >)
        ensures
            code == RK_SUCCESS ==> (r matches Ok(b) && b.spec_bind() == spec_vi_venc_bind(
                self.spec_id(),
                vi_channel.spec_id(),
                vi_channel.spec_pipe_id(),
            )),
            code != RK_SUCCESS ==> r.is_err() && r->Err_0 == (Error::Rockit { code }),
    {
        let inner = self.inner.bind(vi_channel.id(), vi_channel.pipe_id(), code)?;
        Ok(VencChannelBind { vi_channel, venc_channel: self, inner })
    }

    /// The call that sends `frame` to the encoder, waiting up to
    /// `timeout_ms`.
    pub fn send_frame_call(&self, frame: &MbFrame, timeout_ms: u128) -> (r: MpiCall)
        ensures
            r == (MpiCall::VencSendFrame {
                chn: self.spec_id(),
                frame: frame.spec_desc(),
                timeout_ms: spec_timeout_arg(timeout_ms),
            }),
    {
        self.inner.send_frame_call(frame.inner(), timeout_ms)
    }

    /// The call that takes an encoded stream, waiting up to `timeout_ms`.
    pub fn get_stream_call(&self, timeout_ms: u128) -> (r: MpiCall)
        ensures
            r == (MpiCall::VencGetStream {
                chn: self.spec_id(),
                timeout_ms: spec_timeout_arg(timeout_ms),
            }),
    {
        self.inner.get_stream_call(timeout_ms)
    }

    /// The stream, held in `frame`, once the call returned `code` and a
    /// packet of `packet_len` bytes.
    pub fn get_stream<'b>(&'a self, frame: &'b mut StreamFrame, code: i32, packet_len: u32) -> (r:
        Result<VencStream<'a, 'b>, Error>)
        ensures
            code == RK_SUCCESS ==> (r matches Ok(s) && s.spec_channel_id() == self.spec_id()
                && s.spec_packet_len() == packet_len),
            code != RK_SUCCESS ==> r.is_err() && r->Err_0 == (Error::Rockit { code }),
            code != RK_SUCCESS ==> final(frame).spec_packet_len() == old(frame).spec_packet_len(),
    {
        let inner = self.inner.get_stream(frame, code, packet_len)?;
        Ok(VencStream { channel: self, inner })
    }

    /// The call that stops receiving frames.
    pub fn stop_call(&self) -> (r: Option<MpiCall>)
        ensures
            self.spec_state() == Runtime::Started ==> r == Some(
                MpiCall::VencStopRecvFrame { chn: self.spec_id() },
            ),
            self.spec_state() != Runtime::Started ==> r.is_none(),
    {
        self.inner.stop_call()
    }

    /// The channel once its stop call returned `code` (no call is made,
    /// and `code` is not looked at, unless it is receiving frames). The
    /// run-time state stays `Started`, so letting the channel go stops it
    /// once more.
    pub fn stop(self, code: i32) -> (r: Result<VencChannel<'a, state::Initialized>, Error>)
        ensures
            (self.spec_state() != Runtime::Started || code == RK_SUCCESS) ==> (r matches Ok(c)
                && c.spec_id() == self.spec_id() && c.spec_state() == Runtime::Started && (
            c.spec_id(),
            c.spec_state(),
        ) == venc_after_switch((self.spec_id(), self.spec_state()))),
            self.spec_state() == Runtime::Started && code != RK_SUCCESS ==> r.is_err() && r->Err_0
                == (Error::Rockit { code }),
    {
        self.inner.stop(code)?;
        let mut inner = self.inner;
        inner.state = Runtime::Started;
        Ok(VencChannel { inner, mpi: self.mpi, _marker: PhantomData })
    }
}

/// An encoder channel in state `S` that owns its share of the system.
pub struct VencChannelOwned<S> {
    mpi: RockitSys,
    inner: VencChannelInner,
    _marker: PhantomData<S>,
}

impl<S> VencChannelOwned<S> {
    /// The channel number.
    pub closed spec fn spec_id(&self) -> i32 {
        self.inner.id
    }

    /// Whether the channel receives frames, at run time.
    pub closed spec fn spec_state(&self) -> Runtime {
        self.inner.state
    }

    /// The channel number.
    pub fn id(&self) -> (r: i32)
        ensures
            r == self.spec_id(),
    {
        self.inner.id
    }

    /// The calls that let the channel go.
    pub fn drop_calls(&self) -> (r: Vec<MpiCall>)
        ensures
            r@ == spec_venc_drop_calls(self.spec_id(), self.spec_state()),
    {
        self.inner.drop_calls()
    }
}

impl VencChannelOwned<state::Initialized> {
    /// The call that starts receiving frames, with no limit on their number.
    pub fn start_call(&self) -> (r: MpiCall)
        ensures
            r == (MpiCall::VencStartRecvFrame { chn: self.spec_id(), recv_pic_num: -1i32 }),
    {
        self.inner.start_call()
    }

    /// The channel once its start call returned `code`: started when the
    /// call succeeded.
    pub fn start(self, code: i32) -> (r: Result<VencChannelOwned<state::Started>, Error>)
        ensures
            code == RK_SUCCESS ==> (r matches Ok(c) && c.spec_id() == self.spec_id()
                && c.spec_state() == Runtime::Started && (c.spec_id(), c.spec_state())
                == venc_after_switch((self.spec_id(), self.spec_state()))),
            code != RK_SUCCESS ==> r.is_err() && r->Err_0 == (Error::Rockit { code }),
    {
        let mut inner = self.inner;
        inner.start(code)?;
        Ok(VencChannelOwned { mpi: self.mpi, inner, _marker: PhantomData })
    }
}

impl VencChannelOwned<state::Started> {
    /// The call that binds video input channel `vi_channel` to this
    /// encoder channel.
    pub fn bind_call(&self, vi_channel: &ViChannelOwned) -> (r: MpiCall)
        ensures
            r == (MpiCall::SysBind {
                bind: spec_vi_venc_bind(self.spec_id(), vi_channel.spec_id(), vi_channel.spec_pipe_id()),
            }),
    {
        self.inner.bind_call(vi_channel.id(), vi_channel.pipe_id())
    }

    /// The binding once its call returned `code`.
    pub fn bind(&self, vi_channel: &ViChannelOwned, code: i32) -> (r: Result<VencChannelBindOwned, Error>)
        ensures
            code == RK_SUCCESS ==> (r matches Ok(b) && b.spec_bind() == spec_vi_venc_bind(
                self.spec_id(),
                vi_channel.spec_id(),
                vi_channel.spec_pipe_id(),
            ) && b.spec_camera_id() == vi_channel.spec_camera_id() && b.spec_vi_channel_id()
                == vi_channel.spec_id() && b.spec_vi_pipe_id() == vi_channel.spec_pipe_id()
                && b.spec_venc_id() == self.spec_id() && b.spec_venc_state() == self.spec_state()),
            code != RK_SUCCESS ==> r.is_err() && r->Err_0 == (Error::Rockit { code }),
    {
        let inner = self.inner.bind(vi_channel.id(), vi_channel.pipe_id(), code)?;
        let (vi_inner, camera) = vi_channel.parts();
        Ok(
            VencChannelBindOwned {
                mpi: self.mpi,
                camera,
                vi_channel: vi_inner,
                venc_channel: self.inner,
                inner,
            },
        )
    }

    /// The call that sends `frame` to the encoder, waiting up to
    /// `timeout_ms`.
    pub fn send_frame_call(&self, frame: &MbFrameOwned, timeout_ms: u128) -> (r: MpiCall)
        ensures
            r == (MpiCall::VencSendFrame {
                chn: self.spec_id(),
                frame: frame.spec_desc(),
                timeout_ms: spec_timeout_arg(timeout_ms),
            }),
    {
        self.inner.send_frame_call(frame.inner(), timeout_ms)
    }

    /// The call that takes an encoded stream, waiting up to `timeout_ms`.
    pub fn get_stream_call(&self, timeout_ms: u128) -> (r: MpiCall)
        ensures
            r == (MpiCall::VencGetStream {
                chn: self.spec_id(),
                timeout_ms: spec_timeout_arg(timeout_ms),
            }),
    {
        self.inner.get_stream_call(timeout_ms)
    }

    /// The stream, held in `frame`, once the call returned `code` and a
    /// packet of `packet_len` bytes.
    pub fn get_stream<'a>(&self, frame: &'a mut StreamFrame, code: i32, packet_len: u32) -> (r:
        Result<VencStreamOwned<'a>, Error>)
        ensures
            code == RK_SUCCESS ==> (r matches Ok(s) && s.spec_channel_id() == self.spec_id()
                && s.spec_packet_len() == packet_len),
            code != RK_SUCCESS ==> r.is_err() && r->Err_0 == (Error::Rockit { code }),
            code != RK_SUCCESS ==> final(frame).spec_packet_len() == old(frame).spec_packet_len(),
    {
        let inner = self.inner.get_stream(frame, code, packet_len)?;
        Ok(VencStreamOwned { mpi: self.mpi, channel: self.inner, inner })
    }
}

/// A video input channel bound to an encoder channel, owning its shares of
/// both, of the camera and of the system.
pub struct VencChannelBindOwned {
    mpi: RockitSys,
    camera: CameraInner,
    vi_channel: ViChannelInner,
    venc_channel: VencChannelInner,
    inner: ChannelBind,
}

impl VencChannelBindOwned {
    /// The number of the camera device the binding keeps open.
    pub closed spec fn spec_camera_id(&self) -> i32 {
        self.camera.id
    }

    /// The video input channel the binding keeps enabled.
    pub closed spec fn spec_vi_channel_id(&self) -> i32 {
        self.vi_channel.id
    }

    /// The pipe of the video input channel the binding keeps enabled.
    pub closed spec fn spec_vi_pipe_id(&self) -> i32 {
        self.vi_channel.pipe_id
    }

    /// The encoder channel the binding keeps alive.
    pub closed spec fn spec_venc_id(&self) -> i32 {
        self.venc_channel.id
    }

    /// Whether the encoder channel the binding keeps alive receives frames.
    pub closed spec fn spec_venc_state(&self) -> Runtime {
        self.venc_channel.state
    }

    /// The binding.
    pub closed spec fn spec_bind(&self) -> ChannelBind {
        self.inner
    }

    /// The binding.
    pub fn bind(&self) -> (r: ChannelBind)
        ensures
            r == self.spec_bind(),
    {
        self.inner
    }

    /// The number of the camera device the binding keeps open.
    pub fn camera_id(&self) -> (r: i32)
        ensures
            r == self.spec_camera_id(),
    {
        self.camera.id
    }

    /// The video input channel the binding keeps enabled.
    pub fn vi_channel_id(&self) -> (r: i32)
        ensures
            r == self.spec_vi_channel_id(),
    {
        self.vi_channel.id
    }

    /// The encoder channel the binding keeps alive.
    pub fn venc_id(&self) -> (r: i32)
        ensures
            r == self.spec_venc_id(),
    {
        self.venc_channel.id
    }

    pub(crate) fn from_parts(
        mpi: RockitSys,
        camera: CameraInner,
        vi_channel: ViChannelInner,
        venc_channel: VencChannelInner,
        inner: ChannelBind,
    ) -> (r: Self)
        ensures
            r.spec_camera_id() == camera.id,
            r.spec_vi_channel_id() == vi_channel.id,
            r.spec_vi_pipe_id() == vi_channel.pipe_id,
            r.spec_venc_id() == venc_channel.id,
            r.spec_venc_state() == venc_channel.state,
            r.spec_bind() == inner,
    {
        VencChannelBindOwned { mpi, camera, vi_channel, venc_channel, inner }
    }

    /// The call that takes an encoded stream from the bound encoder, waiting
    /// up to `timeout_ms`.
    pub fn get_stream_call(&self, timeout_ms: u128) -> (r: MpiCall)
        ensures
            r == (MpiCall::VencGetStream {
                chn: self.spec_venc_id(),
                timeout_ms: spec_timeout_arg(timeout_ms),
            }),
    {
        self.venc_channel.get_stream_call(timeout_ms)
    }

    /// The stream of the bound encoder, held in `frame`, once the call
    /// returned `code` and a packet of `packet_len` bytes.
    pub fn get_stream<'a>(&self, frame: &'a mut StreamFrame, code: i32, packet_len: u32) -> (r:
        Result<VencStreamOwned<'a>, Error>)
        ensures
            code == RK_SUCCESS ==> (r matches Ok(s) && s.spec_channel_id() == self.spec_venc_id()
                && s.spec_packet_len() == packet_len),
            code != RK_SUCCESS ==> r.is_err() && r->Err_0 == (Error::Rockit { code }),
            code != RK_SUCCESS ==> final(frame).spec_packet_len() == old(frame).spec_packet_len(),
    {
        let inner = self.venc_channel.get_stream(frame, code, packet_len)?;
        Ok(VencStreamOwned { mpi: self.mpi, channel: self.venc_channel, inner })
    }
}

/// What an encoder channel, seen as its number and run-time state, is
/// after a successful start or stop: the same number, receiving frames
/// (a stop leaves the run-time state `Started`, so that letting the
/// channel go stops it once more).
pub open spec fn venc_after_switch(ch: (i32, Runtime)) -> (i32, Runtime) {
    (ch.0, Runtime::Started)
}

/// What an encoder channel is after `n` successful starts and stops, in
/// any order.
pub open spec fn venc_after_switches(ch: (i32, Runtime), n: nat) -> (i32, Runtime)
    decreases n,
{
    if n == 0 {
        ch
    } else {
        venc_after_switches(venc_after_switch(ch), (n - 1) as nat)
    }
}

/// An encoder channel keeps the number it was created with through any
/// run of successful starts and stops (and `into_owned`, which keeps both
/// number and state): after `n` of them, its number is the one it had.
pub proof fn lemma_channel_number_kept(ch: (i32, Runtime), n: nat)
    ensures
        venc_after_switches(ch, n).0 == ch.0,
        n > 0 ==> venc_after_switches(ch, n).1 == Runtime::Started,
    decreases n,
{
    if n > 0 {
        lemma_channel_number_kept(venc_after_switch(ch), (n - 1) as nat);
    }
}

/// A video input channel bound to an encoder channel.
pub struct VencChannelBind<'a> {
    vi_channel: &'a ViChannel<'a>,
    venc_channel: &'a VencChannel<'a, state::Started>,
    inner: ChannelBind,
}

impl<'a> VencChannelBind<'a> {
    /// The binding.
    pub closed spec fn spec_bind(&self) -> ChannelBind {
        self.inner
    }

    /// The binding.
    pub fn bind(&self) -> (r: ChannelBind)
        ensures
            r == self.spec_bind(),
    {
        self.inner
    }

    /// A place for the streams the encoder produces.
    pub fn alloc_frame(&self) -> (r: StreamFrame)
        ensures
            r.spec_packet_len() == 0,
    {
        StreamFrame::new()
    }
}

/// A place for an encoded stream of one packet.
pub struct StreamFrame {
    packet_len: u32,
}

impl StreamFrame {
    /// The length of the packet held.
    pub closed spec fn spec_packet_len(&self) -> u32 {
        self.packet_len
    }

    /// An empty place.
    pub fn new() -> (r: Self)
        ensures
            r.spec_packet_len() == 0,
    {
        StreamFrame { packet_len: 0 }
    }

    /// The length of the packet held.
    pub fn packet_len(&self) -> (r: u32)
        ensures
            r == self.spec_packet_len(),
    {
        self.packet_len
    }
}

/// What a stream is: the place that holds it and its channel's number.
struct VencStreamInner<'a> {
    frame: &'a mut StreamFrame,
    channel_id: i32,
}

impl<'a> VencStreamInner<'a> {
    fn release_call(&self) -> (r: MpiCall)
        ensures
            r == (MpiCall::VencReleaseStream { chn: self.channel_id }),
    {
        MpiCall::VencReleaseStream { chn: self.channel_id }
    }
}

/// An encoded stream that owns its share of its channel and the system.
pub struct VencStreamOwned<'a> {
    mpi: RockitSys,
    channel: VencChannelInner,
    inner: VencStreamInner<'a>,
}

impl<'a> VencStreamOwned<'a> {
    /// The channel the stream came from.
    pub closed spec fn spec_channel_id(&self) -> i32 {
        self.inner.channel_id
    }

    /// The length of the stream's packet.
    pub closed spec fn spec_packet_len(&self) -> u32 {
        self.inner.frame.packet_len
    }

    /// The length of the stream's packet.
    pub fn packet_len(&self) -> (r: u32)
        ensures
            r == self.spec_packet_len(),
    {
        self.inner.frame.packet_len
    }

    /// The packet's bytes, given their mapping of `packet_len` bytes, or the
    /// error when the platform gave no address.
    pub fn data(&self, mapped: Option<&'a [u8]>) -> (r: Result<&'a [u8], Error>)
        requires
            mapped matches Some(s) ==> s@.len() == self.spec_packet_len(),
        ensures
            mapped.is_none() ==> r == Err::<&'a [u8], Error>(Error::InvalidFramePointer),
            mapped matches Some(s) ==> r == Ok::<&'a [u8], Error>(s),
    {
        mapped_data(mapped)
    }

    /// The call that hands the stream back when it is let go.
    pub fn release_call(&self) -> (r: MpiCall)
        ensures
            r == (MpiCall::VencReleaseStream { chn: self.spec_channel_id() }),
    {
        self.inner.release_call()
    }
}

/// An encoded stream taken from a started encoder channel.
pub struct VencStream<'a, 'b> {
    channel: &'a VencChannel<'a, state::Started>,
    inner: VencStreamInner<'b>,
}

impl<'a, 'b> VencStream<'a, 'b> {
    /// The channel the stream came from.
    pub closed spec fn spec_channel_id(&self) -> i32 {
        self.inner.channel_id
    }

    /// The length of the stream's packet.
    pub closed spec fn spec_packet_len(&self) -> u32 {
        self.inner.frame.packet_len
    }

    /// The length of the stream's packet.
    pub fn packet_len(&self) -> (r: u32)
        ensures
            r == self.spec_packet_len(),
    {
        self.inner.frame.packet_len
    }

    /// The packet's bytes, given their mapping of `packet_len` bytes, or the
    /// error when the platform gave no address.
    pub fn data(&self, mapped: Option<&'b [u8]>) -> (r: Result<&'b [u8], Error>)
        requires
            mapped matches Some(s) ==> s@.len() == self.spec_packet_len(),
        ensures
            mapped.is_none() ==> r == Err::<&'b [u8], Error>(Error::InvalidFramePointer),
            mapped matches Some(s) ==> r == Ok::<&'b [u8], Error>(s),
    {
        mapped_data(mapped)
    }

    /// The call that hands the stream back when it is let go.
    pub fn release_call(&self) -> (r: MpiCall)
        ensures
            r == (MpiCall::VencReleaseStream { chn: self.spec_channel_id() }),
    {
        self.inner.release_call()
    }
}

} // verus!
