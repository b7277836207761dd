//! Verified core of a binding to the Rockchip media platform: video input
//! (cameras, pipes, channels), video processing groups, video encoders and
//! memory-buffer pools.
//!
//! The platform is driven through its C interface. This crate holds what
//! decides: which platform calls are made, in what order and with which
//! arguments, how their return codes are judged, and what state each handle
//! is in. Each platform call is described by a `call::MpiCall` value; the
//! code that owns the platform performs it and hands the result back.

pub mod aiq;
pub mod call;
pub mod dev;
pub mod encoder;
pub mod mb;
pub mod util;
pub mod venc;
pub mod vi;
pub mod vpss;

pub use encoder::{CameraEncoder, SimpleEncoder};

pub use dev::{RockitChannel, RockitDev, ViFrame, ViPipe};

use vstd::prelude::*;

verus! {

/// Errors of the platform binding.
#[derive(Clone, Copy, Debug, PartialEq, Eq, Structural)]
pub enum Error {
    MpiAlreadyInitialized,
    InvalidDevId { id: u8 },
    RequestedTooManyPipes { num: u8 },
    InvalidPipeId { id: u8 },
    InvalidChannelId { id: u8 },
    InvalidCameraId { id: u8 },
    InvalidFramePointer,
    CreatePool,
    GetBuffer,
    Rockit { code: i32 },
}

/// The return code of a platform call that succeeded.
pub const RK_SUCCESS: i32 = 0;

/// The application bits that every platform error code carries.
pub const RK_ERR_APPID: u32 = 0xA000_0000;

/// The module number of video input in platform error codes.
pub const RK_ID_VI: i32 = 8;

/// The error level "error conditions".
pub const RK_ERR_LEVEL_ERROR: i32 = 4;

/// The common error number "not configured".
pub const RK_ERR_NOT_CONFIG: i32 = 7;

/// Video input's "not configured" error code:
/// `rk_def_err(RK_ID_VI, RK_ERR_LEVEL_ERROR, RK_ERR_NOT_CONFIG)`.
pub const RK_ERR_VI_NOT_CONFIG: i32 = -1610055673i32;

/// A platform error code: the application bits, then the module in bits
/// 16..24, the level in bits 13..16 and the error number in bits 0..13.
pub open spec fn spec_rk_def_err(module: i32, level: i32, errid: i32) -> i32 {
    (0xA000_0000u32 as i32) | (module << 16i32) | (level << 13i32) | errid
}

/// Builds a platform error code from its module, level and error number.
pub fn rk_def_err(module: i32, level: i32, errid: i32) -> (r: i32)
    ensures
        r == spec_rk_def_err(module, level, errid),
{
    let appid: i32 = 0xA000_0000u32 as i32;
    appid | (module << 16i32) | (level << 13i32) | errid
}

/// An error code built from fields that fit their bit ranges gives those
/// fields back, and is negative (its top bit is set).
pub proof fn lemma_rk_def_err_fields(module: i32, level: i32, errid: i32)
    requires
        0 <= module < 256,
        0 <= level < 8,
        0 <= errid < 8192,
    ensures
        (spec_rk_def_err(module, level, errid) >> 16i32) & 0xffi32 == module,
        (spec_rk_def_err(module, level, errid) >> 13i32) & 7i32 == level,
        spec_rk_def_err(module, level, errid) & 0x1fffi32 == errid,
        spec_rk_def_err(module, level, errid) < 0,
{
    assert((((0xA000_0000u32 as i32) | (module << 16i32) | (level << 13i32) | errid) >> 16i32)
        & 0xffi32 == module) by (bit_vector)
        requires
            0 <= module < 256,
            0 <= level < 8,
            0 <= errid < 8192,
    ;
    assert((((0xA000_0000u32 as i32) | (module << 16i32) | (level << 13i32) | errid) >> 13i32)
        & 7i32 == level) by (bit_vector)
        requires
            0 <= module < 256,
            0 <= level < 8,
            0 <= errid < 8192,
    ;
    assert(((0xA000_0000u32 as i32) | (module << 16i32) | (level << 13i32) | errid) & 0x1fffi32
        == errid) by (bit_vector)
        requires
            0 <= module < 256,
            0 <= level < 8,
            0 <= errid < 8192,
    ;
    assert(((0xA000_0000u32 as i32) | (module << 16i32) | (level << 13i32) | errid) < 0)
        by (bit_vector)
        requires
            0 <= module < 256,
            0 <= level < 8,
            0 <= errid < 8192,
    ;
}

/// The "not configured" code of video input is the one its fields make.
pub proof fn lemma_vi_not_config_code()
    ensures
        RK_ERR_VI_NOT_CONFIG == spec_rk_def_err(RK_ID_VI, RK_ERR_LEVEL_ERROR, RK_ERR_NOT_CONFIG),
{
    assert(-1610055673i32 == (0xA000_0000u32 as i32) | (8i32 << 16i32) | (4i32 << 13i32) | 7i32)
        by (bit_vector);
}

/// What a platform return code means: success, or the error that carries it.
pub open spec fn spec_check(code: i32) -> Result<(), Error> {
    if code == RK_SUCCESS {
        Ok(())
    } else {
        Err(Error::Rockit { code })
    }
}

/// Judges a platform return code.
pub fn rk_check_err(code: i32) -> (r: Result<(), Error>)
    ensures
        r == spec_check(code),
{
    if code != RK_SUCCESS {
        Err(Error::Rockit { code })
    } else {
        Ok(())
    }
}

/// A platform timeout argument: the milliseconds, truncated to 32 bits.
pub open spec fn spec_timeout_arg(timeout_ms: u128) -> i32 {
    timeout_ms as i32
}

/// A return code is judged a success exactly when it is the success code,
/// and an error carries the code. A timeout that fits the platform's
/// argument is handed over as it is.
pub proof fn lemma_codes_and_timeouts(code: i32, timeout_ms: u128)
    ensures
        spec_check(code) is Ok <==> code == RK_SUCCESS,
        code != RK_SUCCESS ==> spec_check(code) == Err::<(), Error>(Error::Rockit { code }),
        timeout_ms <= i32::MAX ==> spec_timeout_arg(timeout_ms) == timeout_ms,
{
}

/// Converts a timeout in milliseconds to the platform's argument.
pub fn timeout_arg(timeout_ms: u128) -> (r: i32)
    ensures
        r == spec_timeout_arg(timeout_ms),
{
    #[verifier::truncate]
    (timeout_ms as i32)
}

/// The platform modules that channels belong to.
#[derive(Clone, Copy, Debug, PartialEq, Eq, Structural)]
pub enum ModId {
    Cmpi,
    Venc,
    Vpss,
    Vi,
}

impl ModId {
    /// The module's number in the platform's numbering.
    pub open spec fn spec_id(self) -> i32 {
        match self {
            ModId::Cmpi => 0,
            ModId::Venc => 4,
            ModId::Vpss => 6,
            ModId::Vi => RK_ID_VI,
        }
    }

    /// The module's number in the platform's numbering.
    pub fn id(&self) -> (r: i32)
        ensures
            r == self.spec_id(),
    {
        match self {
            ModId::Cmpi => 0,
            ModId::Venc => 4,
            ModId::Vpss => 6,
            ModId::Vi => RK_ID_VI,
        }
    }
}

/// A channel of a platform module: module, device and channel number.
#[derive(Clone, Copy, Debug, PartialEq, Eq, Structural)]
pub struct MppChn {
    pub mod_id: ModId,
    pub dev_id: i32,
    pub chn_id: i32,
}

/// A binding of a source channel to a destination channel.
#[derive(Clone, Copy, Debug, PartialEq, Eq, Structural)]
pub struct ChannelBind {
    pub src_channel: MppChn,
    pub dst_channel: MppChn,
}

/// Pixel formats of frames handed to the platform.
#[derive(Clone, Copy, Debug, PartialEq, Eq, Structural)]
pub enum PixelFormat {
    Nv12,
    Rgb24,
}

/// How a picture's lines lie in memory: one after another.
#[derive(Clone, Copy, Debug, PartialEq, Eq, Structural)]
pub enum VideoFormat {
    Linear,
}

/// The range of a picture's samples: 8-bit standard dynamic range.
#[derive(Clone, Copy, Debug, PartialEq, Eq, Structural)]
pub enum DynamicRange {
    Sdr8,
}

/// How a picture is compressed in memory: not at all.
#[derive(Clone, Copy, Debug, PartialEq, Eq, Structural)]
pub enum CompressMode {
    Uncompressed,
}

/// Which lines of a picture a frame holds: all of them (progressive).
#[derive(Clone, Copy, Debug, PartialEq, Eq, Structural)]
pub enum VideoField {
    Frame,
}

/// A rectangle of a picture: its left, top, width and height.
#[derive(Clone, Copy, Debug, PartialEq, Eq, Structural)]
pub struct Rect {
    pub x: i32,
    pub y: i32,
    pub width: u32,
    pub height: u32,
}

/// The colours a picture's samples stand for.
#[derive(Clone, Copy, Debug, PartialEq, Eq, Structural)]
pub enum ColorGamut {
    Bt601,
}

/// The size of a video frame the platform handed over.
#[derive(Clone, Copy, Debug, PartialEq, Eq, Structural)]
pub struct FrameSize {
    pub width: u32,
    pub height: u32,
}

/// The number of bytes of a frame's 4:2:0 picture: width times height
/// times three halves.
pub open spec fn spec_frame_data_len(size: FrameSize) -> int {
    (size.width * size.height * 3) / 2
}

/// A frame's 4:2:0 picture holds one byte per pixel of brightness and half
/// as many of colour: twice its length is three times the pixel count,
/// rounded down to an even number.
pub proof fn lemma_frame_data_len_is_three_halves(size: FrameSize)
    ensures
        2 * spec_frame_data_len(size) <= 3 * (size.width * size.height),
        3 * (size.width * size.height) < 2 * spec_frame_data_len(size) + 2,
{
    let p: int = size.width * size.height;
    assert(size.width * size.height * 3 == 3 * p) by (nonlinear_arith)
        requires
            p == size.width * size.height,
    ;
}

/// The number of bytes of a frame's 4:2:0 picture.
pub fn frame_data_len(size: FrameSize) -> (r: usize)
    requires
        size.width * size.height * 3 <= usize::MAX,
    ensures
        r == spec_frame_data_len(size),
{
    let w = size.width as usize;
    let h = size.height as usize;
    proof {
        assert(w * h <= w * h * 3) by (nonlinear_arith)
            requires
                w >= 0,
                h >= 0,
        ;
    }
    w * h * 3 / 2
}

/// Hands out the mapped picture of a frame: the platform gives no address
/// (`None`) when the buffer cannot be mapped.
pub fn mapped_data<'b>(mapped: Option<&'b [u8]>) -> (r: Result<&'b [u8], Error>)
    ensures
        mapped.is_none() ==> r == Err::<&'b [u8], Error>(Error::InvalidFramePointer),
        mapped matches Some(s) ==> r == Ok::<&'b [u8], Error>(s),
{
    match mapped {
        Some(s) => Ok(s),
        None => Err(Error::InvalidFramePointer),
    }
}

/// The limits of video input that the platform was built with.
#[derive(Clone, Copy, Debug, PartialEq, Eq, Structural)]
pub struct ViLimits {
    /// The largest device number accepted.
    pub max_dev: u32,
    /// The largest number of pipes a device may be bound to.
    pub max_pipe: u32,
    /// The largest channel number accepted.
    pub max_chn: u32,
}

/// Whether the platform's media system has been initialized in this
/// process, counted by the handles to it that are alive: the system stays
/// initialized until the last handle lets go, and at most one
/// initialization is alive at a time.
pub struct MpiState {
    holders: u64,
}

impl MpiState {
    /// How many handles to the initialized system are alive.
    pub closed spec fn holders(&self) -> nat {
        self.holders as nat
    }

    /// Whether an initialization is alive: some handle to it is.
    pub open spec fn is_initialized(&self) -> bool {
        self.holders() > 0
    }

    /// No initialization yet.
    pub fn new() -> (r: Self)
        ensures
            !r.is_initialized(),
            r.holders() == 0,
    {
        MpiState { holders: 0 }
    }

    /// Whether an initialization is alive.
    pub fn initialized(&self) -> (r: bool)
        ensures
            r == self.is_initialized(),
    {
        self.holders > 0
    }

    /// Whether one more handle can be counted.
    pub fn can_share(&self) -> (r: bool)
        ensures
            r == (self.holders() < u64::MAX),
    {
        self.holders < u64::MAX
    }

    /// One more handle to the initialized system (a copy of one alive).
    pub fn share(&mut self)
        requires
            old(self).is_initialized(),
            old(self).holders() < u64::MAX,
        ensures
            final(self).holders() == old(self).holders() + 1,
            final(self).is_initialized(),
    {
        self.holders = self.holders + 1;
    }

    /// A handle lets go. When it was the last one, the system is exited:
    /// the exit call is answered, and a new initialization may follow.
    pub fn let_go(&mut self) -> (r: Option<call::MpiCall>)
        requires
            old(self).is_initialized(),
        ensures
            final(self).holders() == old(self).holders() - 1,
            old(self).holders() == 1 ==> r == Some(call::MpiCall::SysExit) && !final(self).is_initialized(),
            old(self).holders() > 1 ==> r.is_none() && final(self).is_initialized(),
            (final(self).holders(), r) == spec_let_go(old(self).holders()),
    {
        self.holders = self.holders - 1;
        if self.holders == 0 {
            Some(call::MpiCall::SysExit)
        } else {
            None
        }
    }
}

/// What a handle letting go of a system with `holders` handles alive
/// leaves: the handles still alive, and the exit call when it was the last.
pub open spec fn spec_let_go(holders: nat) -> (nat, Option<call::MpiCall>) {
    ((holders - 1) as nat, if holders == 1 { Some(call::MpiCall::SysExit) } else { None })
}

/// The answers to `k` handles letting go, one after another, of a system
/// with `holders` handles alive.
pub open spec fn let_go_answers(holders: nat, k: nat) -> Seq<Option<call::MpiCall>>
    decreases k,
{
    if k == 0 {
        Seq::empty()
    } else {
        seq![spec_let_go(holders).1] + let_go_answers(spec_let_go(holders).0, (k - 1) as nat)
    }
}

/// The system stays initialized until the last of its handles lets go:
/// when the `holders` handles alive (the one the initialization gave and
/// its copies) let go one after another, only the last is answered with
/// the exit call.
pub proof fn lemma_exit_at_last_let_go(holders: nat)
    requires
        holders > 0,
    ensures
        let_go_answers(holders, holders).len() == holders,
        forall|i: int| 0 <= i < holders - 1 ==> (#[trigger] let_go_answers(holders, holders)[i]).is_none(),
        let_go_answers(holders, holders)[holders - 1] == Some(call::MpiCall::SysExit),
    decreases holders,
{
    let answers = let_go_answers(holders, holders);
    if holders == 1 {
        assert(let_go_answers(0, 0) =~= Seq::<Option<call::MpiCall>>::empty());
    } else {
        let rest = let_go_answers((holders - 1) as nat, (holders - 1) as nat);
        lemma_exit_at_last_let_go((holders - 1) as nat);
        assert(answers =~= seq![None::<call::MpiCall>] + rest);
        assert forall|i: int| 0 <= i < holders - 1 implies (#[trigger] answers[i]).is_none() by {
            if i > 0 {
                assert(answers[i] == rest[i - 1]);
            }
        }
        assert(answers[holders - 1] == rest[holders - 2]);
    }
}

/// What a handle letting go of a shared resource with `holders` handles
/// alive leaves: the handles still alive, and the calls that let the
/// resource go (`release`) when it was the last, no call otherwise.
pub open spec fn spec_release(holders: nat, release: Seq<call::MpiCall>) -> (nat, Seq<call::MpiCall>) {
    ((holders - 1) as nat, if holders == 1 { release } else { Seq::empty() })
}

/// The answers to `k` handles letting go, one after another, of a shared
/// resource with `holders` handles alive.
pub open spec fn release_answers(holders: nat, k: nat, release: Seq<call::MpiCall>) -> Seq<
    Seq<call::MpiCall>,
>
    decreases k,
{
    if k == 0 {
        Seq::empty()
    } else {
        seq![spec_release(holders, release).1] + release_answers(
            spec_release(holders, release).0,
            (k - 1) as nat,
            release,
        )
    }
}

/// A shared resource is let go only when the last handle keeping it alive
/// goes: when its `holders` handles let go one after another, every one
/// but the last is answered with no call, and the last with the calls
/// that let the resource go.
pub proof fn lemma_release_at_last_let_go(holders: nat, release: Seq<call::MpiCall>)
    requires
        holders > 0,
    ensures
        release_answers(holders, holders, release).len() == holders,
        forall|i: int|
            0 <= i < holders - 1 ==> (#[trigger] release_answers(holders, holders, release)[i]).len()
                == 0,
        release_answers(holders, holders, release)[holders - 1] == release,
    decreases holders,
{
    let answers = release_answers(holders, holders, release);
    if holders == 1 {
        assert(release_answers(0, 0, release) =~= Seq::<Seq<call::MpiCall>>::empty());
        assert(answers =~= seq![release]);
    } else {
        let rest = release_answers((holders - 1) as nat, (holders - 1) as nat, release);
        lemma_release_at_last_let_go((holders - 1) as nat, release);
        assert(answers =~= seq![Seq::<call::MpiCall>::empty()] + rest);
        assert forall|i: int| 0 <= i < holders - 1 implies (#[trigger] answers[i]).len() == 0 by {
            if i > 0 {
                assert(answers[i] == rest[i - 1]);
            }
        }
        assert(answers[holders - 1] == rest[holders - 2]);
    }
}

/// How many handles keep a shared platform resource alive: the handle that
/// made it, and each handle made from it or bound to it (a camera's pipes
/// and channels, a channel's frames and bindings, an encoder's streams and
/// bindings, a group's channels, a pool's buffers and frames). The
/// resource is let go only when the last of them goes.
pub struct Holders {
    count: u64,
}

impl Holders {
    /// How many handles keep the resource alive.
    pub closed spec fn count(&self) -> nat {
        self.count as nat
    }

    /// The resource just made, kept alive by the handle that made it.
    pub fn new() -> (r: Self)
        ensures
            r.count() == 1,
    {
        Holders { count: 1 }
    }

    /// How many handles keep the resource alive.
    pub fn holders(&self) -> (r: u64)
        ensures
            r == self.count(),
    {
        self.count
    }

    /// Whether one more handle can be counted.
    pub fn can_share(&self) -> (r: bool)
        ensures
            r == (self.count() < u64::MAX),
    {
        self.count < u64::MAX
    }

    /// One more handle keeps the resource alive.
    pub fn share(&mut self)
        requires
            old(self).count() > 0,
            old(self).count() < u64::MAX,
        ensures
            final(self).count() == old(self).count() + 1,
    {
        self.count = self.count + 1;
    }

    /// A handle keeping the resource alive goes; `release` are the calls
    /// that let the resource go in the state it is in. They are answered
    /// when it was the last handle, and no call otherwise.
    pub fn let_go(&mut self, release: Vec<call::MpiCall>) -> (r: Vec<call::MpiCall>)
        requires
            old(self).count() > 0,
        ensures
            (final(self).count(), r@) == spec_release(old(self).count(), release@),
    {
        self.count = self.count - 1;
        if self.count == 0 {
            release
        } else {
            Vec::new()
        }
    }
}

/// A live initialization of the platform's media system.
#[derive(Clone, Copy)]
pub struct RockitSys {
    limits: ViLimits,
}

impl RockitSys {
    /// The video input limits of the platform.
    pub closed spec fn spec_limits(&self) -> ViLimits {
        self.limits
    }

    /// The video input limits of the platform.
    pub fn limits(&self) -> (r: ViLimits)
        ensures
            r == self.spec_limits(),
    {
        self.limits
    }

    /// The call that initializes the system; refused while an
    /// initialization is alive.
    pub fn init_call(state: &MpiState) -> (r: Result<call::MpiCall, Error>)
        ensures
            state.is_initialized() ==> r == Err::<call::MpiCall, Error>(Error::MpiAlreadyInitialized),
            !state.is_initialized() ==> r == Ok::<call::MpiCall, Error>(call::MpiCall::SysInit),
    {
        if state.holders > 0 {
            Err(Error::MpiAlreadyInitialized)
        } else {
            Ok(call::MpiCall::SysInit)
        }
    }

    /// The system after its initialization call returned `code`: alive
    /// exactly when the call succeeded.
    pub fn init(state: &mut MpiState, code: i32, limits: ViLimits) -> (r: Result<RockitSys, Error>)
        requires
            !old(state).is_initialized(),
        ensures
            code == RK_SUCCESS ==> final(state).holders() == 1,
            code != RK_SUCCESS ==> final(state).holders() == 0,
            code == RK_SUCCESS ==> (r matches Ok(sys) && sys.spec_limits() == limits),
            code != RK_SUCCESS ==> r == Err::<RockitSys, Error>(Error::Rockit { code }),
    {
        match rk_check_err(code) {
            Err(e) => Err(e),
            Ok(()) => {
                state.holders = 1;
                Ok(RockitSys { limits })
            },
        }
    }

    /// The call that exits the system.
    pub fn exit_call(&self) -> (r: call::MpiCall)
        ensures
            r == call::MpiCall::SysExit,
    {
        call::MpiCall::SysExit
    }
}

} // verus!
