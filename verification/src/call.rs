//! The platform calls that the binding makes, described as values, and the
//! protocol for running a fixed sequence of them.

use crate::mb::{MbPoolConfig, VideoFrameDesc};
use crate::venc::VencChnAttr;
use crate::vi::ViChnAttr;
use crate::vpss::{VpssChnAttr, VpssGrpAttr};
use crate::{ChannelBind, Error, RK_SUCCESS};
use vstd::prelude::*;

verus! {

/// One call of the platform's media interface, with its plain arguments.
/// Buffers, frames and streams that a call works on are the ones that the
/// handle named by the call's numbers holds.
#[derive(Clone, Copy, Debug, PartialEq, Eq, Structural)]
pub enum MpiCall {
    SysInit,
    SysExit,
    SysBind { bind: ChannelBind },
    ViGetDevAttr { dev: i32 },
    ViSetDevAttr { dev: i32 },
    ViGetDevIsEnable { dev: i32 },
    ViEnableDev { dev: i32 },
    ViSetDevBindPipe { dev: i32, num_pipes: u32 },
    ViDisableDev { dev: i32 },
    ViSetChnAttr { pipe: i32, chn: i32, attr: ViChnAttr },
    ViEnableChn { pipe: i32, chn: i32 },
    ViDisableChn { pipe: i32, chn: i32 },
    ViGetChnFrame { pipe: i32, chn: i32, timeout_ms: i32 },
    ViReleaseChnFrame { pipe: i32, chn: i32 },
    MbCreatePool { config: MbPoolConfig },
    MbDestroyPool { pool: u32 },
    MbGetMb { pool: u32, size: u64, cached: bool },
    MbReleaseMb { buffer: u64 },
    VencCreateChn { chn: i32, venc_attr: VencChnAttr },
    VencStartRecvFrame { chn: i32, recv_pic_num: i32 },
    VencStopRecvFrame { chn: i32 },
    VencDestroyChn { chn: i32 },
    VencSendFrame { chn: i32, frame: VideoFrameDesc, timeout_ms: i32 },
    VencGetStream { chn: i32, timeout_ms: i32 },
    VencReleaseStream { chn: i32 },
    VpssCreateGrp { grp: i32, grp_attr: VpssGrpAttr },
    VpssSetChnAttr { grp: i32, chn: i32, chn_attr: VpssChnAttr },
    VpssStartGrp { grp: i32 },
    VpssStopGrp { grp: i32 },
    VpssDestroyGrp { grp: i32 },
    VpssSendFrame { grp: i32, pipe: i32, frame: VideoFrameDesc, timeout_ms: i32 },
    VpssEnableChn { grp: i32, chn: i32 },
    VpssDisableChn { grp: i32, chn: i32 },
    VpssGetChnFrame { grp: i32, chn: i32, timeout_ms: i32 },
    VpssReleaseChnFrame { grp: i32, chn: i32 },
}

/// A fixed sequence of platform calls run in order, stopping at the first
/// call that fails, with the return codes recorded so far.
pub struct CallSeq {
    calls: Vec<MpiCall>,
    codes: Vec<i32>,
}

/// Every code but possibly the last is a success.
pub open spec fn all_but_last_succeeded(codes: Seq<i32>) -> bool {
    forall|i: int| 0 <= i < codes.len() - 1 ==> #[trigger] codes[i] == RK_SUCCESS
}

impl CallSeq {
    #[verifier::type_invariant]
    spec fn consistent(self) -> bool {
        &&& self.codes@.len() <= self.calls@.len()
        &&& all_but_last_succeeded(self.codes@)
    }

    /// The calls, in order.
    pub closed spec fn calls(&self) -> Seq<MpiCall> {
        self.calls@
    }

    /// The return codes of the calls run so far.
    pub closed spec fn codes(&self) -> Seq<i32> {
        self.codes@
    }

    /// The last call run failed.
    pub open spec fn failed(&self) -> bool {
        self.codes().len() > 0 && self.codes().last() != RK_SUCCESS
    }

    /// No call is left to run: one failed, or all ran.
    pub open spec fn finished(&self) -> bool {
        self.failed() || self.codes().len() >= self.calls().len()
    }

    /// What the sequence came to, once finished: the error of the failed
    /// call, or success.
    pub open spec fn spec_outcome(&self) -> Result<(), Error> {
        if self.failed() {
            Err(Error::Rockit { code: self.codes().last() })
        } else {
            Ok(())
        }
    }

    /// A sequence of `calls`, none run yet.
    pub fn new(calls: Vec<MpiCall>) -> (r: Self)
        ensures
            r.calls() == calls@,
            r.codes() == Seq::<i32>::empty(),
    {
        CallSeq { calls, codes: Vec::new() }
    }

    /// The next call to run, if any is left.
    pub fn next_call(&self) -> (r: Option<&MpiCall>)
        ensures
            self.finished() ==> r.is_none(),
            !self.finished() ==> r == Some(&self.calls()[self.codes().len() as int]),
    {
        proof {
            use_type_invariant(self);
        }
        let n = self.codes.len();
        if n > 0 && self.codes[n - 1] != RK_SUCCESS {
            None
        } else if n >= self.calls.len() {
            None
        } else {
            Some(&self.calls[n])
        }
    }

    /// Records the return code of the next call.
    pub fn record(&mut self, code: i32)
        requires
            !old(self).finished(),
        ensures
            final(self).calls() == old(self).calls(),
            final(self).codes() == old(self).codes().push(code),
    {
        proof {
            use_type_invariant(&*self);
        }
        let mut codes = self.codes.clone();
        codes.push(code);
        self.codes = codes;
        proof {
            assert(all_but_last_succeeded(self.codes@)) by {
                assert forall|i: int| 0 <= i < self.codes@.len() - 1 implies #[trigger] self.codes@[i]
                    == RK_SUCCESS by {
                    if i < self.codes@.len() - 2 {
                        assert(self.codes@[i] == old(self).codes@[i]);
                    }
                }
            }
        }
    }

    /// Whether no call is left to run.
    pub fn is_finished(&self) -> (r: bool)
        ensures
            r == self.finished(),
    {
        let n = self.codes.len();
        (n > 0 && self.codes[n - 1] != RK_SUCCESS) || n >= self.calls.len()
    }

    /// The codes recorded: all but the last succeeded.
    pub fn codes_so_far(&self) -> (r: &Vec<i32>)
        ensures
            r@ == self.codes(),
            all_but_last_succeeded(r@),
            r@.len() <= self.calls().len(),
    {
        proof {
            use_type_invariant(self);
        }
        &self.codes
    }

    /// What the finished sequence came to: success when every call
    /// succeeded, else the error of the one that failed.
    pub fn outcome(&self) -> (r: Result<(), Error>)
        requires
            self.finished(),
        ensures
            r == self.spec_outcome(),
            r is Ok <==> (self.codes().len() == self.calls().len() && forall|i: int|
                0 <= i < self.codes().len() ==> #[trigger] self.codes()[i] == RK_SUCCESS),
    {
        proof {
            use_type_invariant(self);
        }
        let n = self.codes.len();
        if n > 0 && self.codes[n - 1] != RK_SUCCESS {
            Err(Error::Rockit { code: self.codes[n - 1] })
        } else {
            proof {
                assert forall|i: int| 0 <= i < self.codes@.len() implies #[trigger] self.codes@[i]
                    == RK_SUCCESS by {
                    if i < n - 1 {
                        assert(all_but_last_succeeded(self.codes@));
                    }
                }
            }
            Ok(())
        }
    }
}

} // verus!
