//! Image quality control of a camera: setting it up, starting and stopping
//! it.

pub mod state;

use crate::vi::CameraId;
use core::marker::PhantomData;
use state::Runtime;
use vstd::prelude::*;
use vstd::string::StringSliceAdditionalSpecFns;

verus! {

/// Errors of image quality control.
#[derive(Clone, Debug)]
pub enum Error {
    Aiq { code: i32 },
    AiqSystemContext,
    InvalidIqFilesPath { path: String },
}

/// The return code of a call that succeeded.
pub const XCAM_RETURN_NO_ERROR: i32 = 0;

/// The working modes of image quality control.
#[derive(Clone, Copy, Debug, PartialEq, Eq, Structural)]
pub enum WorkingMode {
    Normal,
}

/// One call of image quality control, with its plain arguments. The
/// context they work on is the one the handle holds.
#[derive(Clone, Copy, Debug, PartialEq, Eq, Structural)]
pub enum AiqCall {
    EnumStaticMetas { cam: i32 },
    Init,
    Prepare { width: u32, height: u32, mode: WorkingMode },
    Start,
    Stop { keep_ext_hw_st: bool },
    Deinit,
}

/// What a return code means: success, or the error that carries it.
pub open spec fn spec_aiq_check(code: i32) -> Result<(), Error> {
    if code == XCAM_RETURN_NO_ERROR {
        Ok(())
    } else {
        Err(Error::Aiq { code })
    }
}

/// Judges a return code of image quality control.
pub fn aiq_check(code: i32) -> (r: Result<(), Error>)
    ensures
        r == spec_aiq_check(code),
{
    if code != XCAM_RETURN_NO_ERROR {
        return Err(Error::Aiq { code });
    }
    Ok(())
}

/// The tuning files used when no path is given.
pub open spec fn default_iq_files() -> Seq<char> {
    "/etc/iqfiles"@
}

/// Whether the bytes hold a zero byte.
pub open spec fn has_nul(bytes: Seq<u8>) -> bool {
    exists|i: int| 0 <= i < bytes.len() && bytes[i] == 0u8
}

fn contains_nul(bytes: &[u8]) -> (r: bool)
    ensures
        r == has_nul(bytes@),
{
    let mut i: usize = 0;
    while i < bytes.len()
        invariant
            i <= bytes@.len(),
            forall|j: int| 0 <= j < i ==> bytes@[j] != 0u8,
        decreases bytes@.len() - i,
    {
        if bytes[i] == 0u8 {
            return true;
        }
        i = i + 1;
    }
    false
}

/// The path of the tuning files handed to the platform: the given one, or
/// the default; a path with a zero byte cannot be handed over and is
/// refused.
pub fn iq_files_path(path: Option<&str>) -> (r: Result<String, Error>)
    ensures
        path.is_none() ==> (r matches Ok(s) && s@ == default_iq_files()),
        path matches Some(p) ==> (!has_nul(p.spec_bytes()) ==> (r matches Ok(s) && s@ == p@)),
        path matches Some(p) ==> (has_nul(p.spec_bytes()) ==> (r matches Err(
            Error::InvalidIqFilesPath { path: q },
        ) && q@ == p@)),
{
    match path {
        None => {
            let s = "/etc/iqfiles";
            Ok(s.to_owned())
        },
        Some(p) => {
            if contains_nul(p.as_bytes()) {
                Err(Error::InvalidIqFilesPath { path: p.to_owned() })
            } else {
                Ok(p.to_owned())
            }
        },
    }
}

/// The steps of setting a context up.
#[derive(Clone, Debug)]
pub enum AiqOpenStep {
    /// Read the camera's static description.
    ReadMetas,
    /// Set the context up with the tuning files.
    InitContext,
    /// The context is set up.
    Ready,
    /// The set-up ended with `err`.
    Failed { err: Error },
}

/// The call made at `step` for camera number `cam`, if any.
pub open spec fn aiq_open_call(step: AiqOpenStep, cam: i32) -> Option<AiqCall> {
    match step {
        AiqOpenStep::ReadMetas => Some(AiqCall::EnumStaticMetas { cam }),
        AiqOpenStep::InitContext => Some(AiqCall::Init),
        AiqOpenStep::Ready => None,
        AiqOpenStep::Failed { .. } => None,
    }
}

/// The set-up of an image quality context, step by step: the camera's
/// description is read; the tuning-file path is then judged; only when the
/// read succeeded and the path is accepted is the context set up with it.
/// The first error ends the set-up.
pub struct AiqOpen {
    cam: i32,
    path: String,
    path_err: Option<Error>,
    step: AiqOpenStep,
}

impl AiqOpen {
    /// The camera number.
    pub closed spec fn spec_cam(&self) -> i32 {
        self.cam
    }

    /// The tuning-file path handed to the set-up, when it is accepted.
    pub closed spec fn spec_path(&self) -> Seq<char> {
        self.path@
    }

    /// Why the tuning-file path is refused, if it is and the refusal is
    /// still to be reported.
    pub closed spec fn spec_path_error(&self) -> Option<Error> {
        self.path_err
    }

    /// The step reached.
    pub closed spec fn spec_step(&self) -> AiqOpenStep {
        self.step
    }

    /// No call is left to make.
    pub open spec fn finished(&self) -> bool {
        self.spec_step() is Ready || self.spec_step() is Failed
    }

    /// The set-up of camera `camera_id` with the tuning files at `iq_files`:
    /// `None` for the default path, `Some(Ok(path))` for a path that is
    /// valid text, `Some(Err(shown))` for a path that is not (shown as
    /// `shown`). A path that is not text, or that holds a zero byte, is
    /// refused, though only once the description was read.
    pub fn new(camera_id: CameraId, iq_files: Option<Result<&str, String>>) -> (r: Self)
        ensures
            r.spec_cam() == camera_id.spec_number() as i32,
            r.spec_step() == AiqOpenStep::ReadMetas,
            iq_files.is_none() ==> r.spec_path_error().is_none() && r.spec_path()
                == default_iq_files(),
            iq_files matches Some(Ok(p)) ==> (!has_nul(p.spec_bytes()) ==> r.spec_path_error().is_none()
                && r.spec_path() == p@),
            iq_files matches Some(Ok(p)) ==> (has_nul(p.spec_bytes()) ==> (r.spec_path_error()
                matches Some(Error::InvalidIqFilesPath { path: q }) && q@ == p@)),
            iq_files matches Some(Err(shown)) ==> (r.spec_path_error() matches Some(
                Error::InvalidIqFilesPath { path: q },
            ) && q@ == shown@),
    {
        let cam = camera_id.as_u8() as i32;
        let (path, path_err) = match iq_files {
            None => match iq_files_path(None) {
                Ok(p) => (p, None),
                Err(e) => (String::new(), Some(e)),
            },
            Some(Ok(p)) => match iq_files_path(Some(p)) {
                Ok(q) => (q, None),
                Err(e) => (String::new(), Some(e)),
            },
            Some(Err(shown)) => (String::new(), Some(Error::InvalidIqFilesPath { path: shown })),
        };
        AiqOpen { cam, path, path_err, step: AiqOpenStep::ReadMetas }
    }

    /// The step reached.
    pub fn step(&self) -> (r: &AiqOpenStep)
        ensures
            *r == self.spec_step(),
    {
        &self.step
    }

    /// The call to make next, if any: the read of the description, then the
    /// set-up of the context.
    pub fn next_call(&self) -> (r: Option<AiqCall>)
        ensures
            r == aiq_open_call(self.spec_step(), self.spec_cam()),
            r.is_none() == self.finished(),
    {
        match &self.step {
            AiqOpenStep::ReadMetas => Some(AiqCall::EnumStaticMetas { cam: self.cam }),
            AiqOpenStep::InitContext => Some(AiqCall::Init),
            AiqOpenStep::Ready => None,
            AiqOpenStep::Failed { .. } => None,
        }
    }

    /// The tuning-file path to hand to the set-up of the context.
    pub fn iq_files(&self) -> (r: &str)
        ensures
            r@ == self.spec_path(),
    {
        self.path.as_str()
    }

    /// Records the return code of the read of the description: a failed
    /// read ends the set-up with its code; after a successful one, a refused
    /// path ends it with the refusal; else the context is set up next.
    pub fn record_metas(&mut self, code: i32)
        requires
            old(self).spec_step() == AiqOpenStep::ReadMetas,
        ensures
            final(self).spec_cam() == old(self).spec_cam(),
            final(self).spec_path() == old(self).spec_path(),
            code != XCAM_RETURN_NO_ERROR ==> final(self).spec_step() == (AiqOpenStep::Failed {
                err: Error::Aiq { code },
            }),
            code == XCAM_RETURN_NO_ERROR && old(self).spec_path_error().is_none() ==> final(self).spec_step() == AiqOpenStep::InitContext,
            code == XCAM_RETURN_NO_ERROR ==> (old(self).spec_path_error() matches Some(e) ==> final(self).spec_step() == (AiqOpenStep::Failed { err: e })),
    {
        if code != XCAM_RETURN_NO_ERROR {
            self.step = AiqOpenStep::Failed { err: Error::Aiq { code } };
            return;
        }
        match self.path_err.take() {
            Some(e) => {
                self.step = AiqOpenStep::Failed { err: e };
            },
            None => {
                self.step = AiqOpenStep::InitContext;
            },
        }
    }

    /// Records whether the set-up gave no context (`ctx_null`): that ends
    /// the set-up with the context error; else the context is set up.
    pub fn record_init(&mut self, ctx_null: bool)
        requires
            old(self).spec_step() == AiqOpenStep::InitContext,
        ensures
            final(self).spec_cam() == old(self).spec_cam(),
            final(self).spec_path() == old(self).spec_path(),
            ctx_null ==> final(self).spec_step() == (AiqOpenStep::Failed {
                err: Error::AiqSystemContext,
            }),
            !ctx_null ==> final(self).spec_step() == AiqOpenStep::Ready,
    {
        if ctx_null {
            self.step = AiqOpenStep::Failed { err: Error::AiqSystemContext };
        } else {
            self.step = AiqOpenStep::Ready;
        }
    }
}

/// The steps of starting a context.
#[derive(Clone, Copy, Debug, PartialEq, Eq, Structural)]
pub enum AiqStartStep {
    /// Prepare the context.
    Prepare,
    /// Start the context.
    Start,
    /// The context is started.
    Started,
    /// A call failed with `code`.
    Failed { code: i32 },
}

/// The step that follows `step` once its call returned `code`: the start
/// is made only after a successful preparation, and the first failure
/// ends the start.
pub open spec fn next_aiq_start_step(step: AiqStartStep, code: i32) -> AiqStartStep {
    match step {
        AiqStartStep::Prepare => if code == XCAM_RETURN_NO_ERROR {
            AiqStartStep::Start
        } else {
            AiqStartStep::Failed { code }
        },
        AiqStartStep::Start => if code == XCAM_RETURN_NO_ERROR {
            AiqStartStep::Started
        } else {
            AiqStartStep::Failed { code }
        },
        AiqStartStep::Started => step,
        AiqStartStep::Failed { .. } => step,
    }
}

/// The call made at `step`: preparation for normal work at the sensor's
/// own size, then the start.
pub open spec fn aiq_start_call(step: AiqStartStep) -> Option<AiqCall> {
    match step {
        AiqStartStep::Prepare => Some(
            AiqCall::Prepare { width: 0, height: 0, mode: WorkingMode::Normal },
        ),
        AiqStartStep::Start => Some(AiqCall::Start),
        AiqStartStep::Started => None,
        AiqStartStep::Failed { .. } => None,
    }
}

/// Starting a context goes in order and stops at the first failure: the
/// start call is made only after a successful preparation; a failed
/// preparation or start ends the start with its code; the context is
/// started only after a successful start call; an ended start stays as it
/// is. The preparation is for normal work at the sensor's own size.
pub proof fn lemma_aiq_start_order(step: AiqStartStep, code: i32)
    ensures
        next_aiq_start_step(step, code) == AiqStartStep::Start ==> (step == AiqStartStep::Prepare
            && code == XCAM_RETURN_NO_ERROR),
        next_aiq_start_step(step, code) == AiqStartStep::Started ==> (step == AiqStartStep::Started
            || (step == AiqStartStep::Start && code == XCAM_RETURN_NO_ERROR)),
        (step == AiqStartStep::Prepare || step == AiqStartStep::Start) && code
            != XCAM_RETURN_NO_ERROR ==> next_aiq_start_step(step, code) == (AiqStartStep::Failed {
            code,
        }),
        step == AiqStartStep::Prepare && code == XCAM_RETURN_NO_ERROR ==> next_aiq_start_step(
            step,
            code,
        ) == AiqStartStep::Start,
        step == AiqStartStep::Start && code == XCAM_RETURN_NO_ERROR ==> next_aiq_start_step(
            step,
            code,
        ) == AiqStartStep::Started,
        (step == AiqStartStep::Started || step is Failed) ==> next_aiq_start_step(step, code) == step,
        aiq_start_call(AiqStartStep::Prepare) == Some(
            AiqCall::Prepare { width: 0, height: 0, mode: WorkingMode::Normal },
        ),
        aiq_start_call(AiqStartStep::Start) == Some(AiqCall::Start),
        aiq_start_call(step) is None <==> (step == AiqStartStep::Started || step is Failed),
{
}

/// A return code of image quality control is judged a success exactly when
/// it is the no-error code, and an error carries the code.
pub proof fn lemma_aiq_check(code: i32)
    ensures
        spec_aiq_check(code) is Ok <==> code == XCAM_RETURN_NO_ERROR,
        code != XCAM_RETURN_NO_ERROR ==> spec_aiq_check(code) == Err::<(), Error>(Error::Aiq { code }),
{
}

/// A context is torn down exactly once when let go, as its last call; a
/// started context is stopped first (keeping no external hardware state),
/// and only a started one.
pub proof fn lemma_aiq_drop_order(state: Runtime)
    ensures
        spec_aiq_drop_calls(state).len() > 0,
        spec_aiq_drop_calls(state).last() == AiqCall::Deinit,
        forall|i: int| 0 <= i < spec_aiq_drop_calls(state).len() - 1 ==> #[trigger] spec_aiq_drop_calls(state)[i] != AiqCall::Deinit,
        (state == Runtime::Started) <==> spec_aiq_drop_calls(state).contains(
            AiqCall::Stop { keep_ext_hw_st: false },
        ),
        state == Runtime::Started ==> spec_aiq_drop_calls(state)[0] == (AiqCall::Stop {
            keep_ext_hw_st: false,
        }),
{
    if state == Runtime::Started {
        assert(spec_aiq_drop_calls(state)[0] == (AiqCall::Stop { keep_ext_hw_st: false }));
    } else {
        assert(!spec_aiq_drop_calls(state).contains(AiqCall::Stop { keep_ext_hw_st: false })) by {
            assert(spec_aiq_drop_calls(state) =~= seq![AiqCall::Deinit]);
        }
    }
}

/// The start of an image quality context, step by step.
pub struct AiqStart {
    step: AiqStartStep,
}

impl AiqStart {
    /// The step reached.
    pub closed spec fn spec_step(&self) -> AiqStartStep {
        self.step
    }

    /// No call is left to make.
    pub open spec fn finished(&self) -> bool {
        self.spec_step() is Started || self.spec_step() is Failed
    }

    /// The step reached.
    pub fn step(&self) -> (r: AiqStartStep)
        ensures
            r == self.spec_step(),
    {
        self.step
    }

    /// The call to make next, if any.
    pub fn next_call(&self) -> (r: Option<AiqCall>)
        ensures
            r == aiq_start_call(self.spec_step()),
            r.is_none() == self.finished(),
    {
        match self.step {
            AiqStartStep::Prepare => Some(
                AiqCall::Prepare { width: 0, height: 0, mode: WorkingMode::Normal },
            ),
            AiqStartStep::Start => Some(AiqCall::Start),
            AiqStartStep::Started => None,
            AiqStartStep::Failed { .. } => None,
        }
    }

    /// Records the return code of the call just made.
    pub fn record(&mut self, code: i32)
        requires
            !old(self).finished(),
        ensures
            final(self).spec_step() == next_aiq_start_step(old(self).spec_step(), code),
    {
        self.step = match self.step {
            AiqStartStep::Prepare => if code == XCAM_RETURN_NO_ERROR {
                AiqStartStep::Start
            } else {
                AiqStartStep::Failed { code }
            },
            AiqStartStep::Start => if code == XCAM_RETURN_NO_ERROR {
                AiqStartStep::Started
            } else {
                AiqStartStep::Failed { code }
            },
            AiqStartStep::Started => AiqStartStep::Started,
            AiqStartStep::Failed { code: c } => AiqStartStep::Failed { code: c },
        };
    }
}

/// The calls that let a context go: a started context is stopped first;
/// then it is torn down.
pub open spec fn spec_aiq_drop_calls(state: Runtime) -> Seq<AiqCall> {
    if state == Runtime::Started {
        seq![AiqCall::Stop { keep_ext_hw_st: false }, AiqCall::Deinit]
    } else {
        seq![AiqCall::Deinit]
    }
}

/// What a context is: whether it is started.
struct AiqContextInner {
    state: Runtime,
}

impl AiqContextInner {
    fn stop_call(&self) -> (r: Option<AiqCall>)
        ensures
            self.state == Runtime::Started ==> r == Some(AiqCall::Stop { keep_ext_hw_st: false }),
            self.state != Runtime::Started ==> r.is_none(),
    {
        if self.state != Runtime::Started {
            return None;
        }
        Some(AiqCall::Stop { keep_ext_hw_st: false })
    }

    fn stop(&self, code: i32) -> (r: Result<(), Error>)
        ensures
            self.state != Runtime::Started ==> r is Ok,
            self.state == Runtime::Started ==> r == spec_aiq_check(code),
    {
        if self.state != Runtime::Started {
            return Ok(());
        }
        aiq_check(code)
    }
}

/// An image quality context in state `S`.
pub struct AiqContext<S> {
    inner: AiqContextInner,
    _marker: PhantomData<S>,
}

impl<S> AiqContext<S> {
    /// Whether the context is started, at run time.
    pub closed spec fn spec_state(&self) -> Runtime {
        self.inner.state
    }

    /// The calls that let the context go.
    pub fn drop_calls(&self) -> (r: Vec<AiqCall>)
        ensures
            r@ == spec_aiq_drop_calls(self.spec_state()),
    {
        let mut calls: Vec<AiqCall> = Vec::new();
        if let Some(c) = self.inner.stop_call() {
            calls.push(c);
        }
        calls.push(AiqCall::Deinit);
        proof {
            assert(calls@ =~= spec_aiq_drop_calls(self.spec_state()));
        }
        calls
    }
}

impl AiqContext<state::Initialized> {
    /// The call that reads the static description of camera `camera_id`.
    pub fn static_metas_call(camera_id: CameraId) -> (r: AiqCall)
        ensures
            r == (AiqCall::EnumStaticMetas { cam: camera_id.spec_number() as i32 }),
    {
        AiqCall::EnumStaticMetas { cam: camera_id.as_u8() as i32 }
    }

    /// The context once its set-up finished: set up, not started, when it
    /// got a context; else the error that ended the set-up.
    pub fn init(open: AiqOpen) -> (r: Result<AiqContext<state::Initialized>, Error>)
        requires
            open.finished(),
        ensures
            open.spec_step() == AiqOpenStep::Ready ==> (r matches Ok(c) && c.spec_state()
                == Runtime::Initialized),
            open.spec_step() matches AiqOpenStep::Failed { err } ==> r == Err::<
                AiqContext<state::Initialized>,
                Error,
            >(err),
    {
        match open.step {
            AiqOpenStep::Failed { err } => Err(err),
            _ => Ok(
                AiqContext {
                    inner: AiqContextInner { state: Runtime::Initialized },
                    _marker: PhantomData,
                },
            ),
        }
    }

    /// The start of the context, before any call: it prepares first.
    pub fn start_steps(&self) -> (r: AiqStart)
        ensures
            r.spec_step() == AiqStartStep::Prepare,
    {
        AiqStart { step: AiqStartStep::Prepare }
    }

    /// The context once its start finished: started when both calls
    /// succeeded, else the error of the call that failed.
    pub fn start(self, run: &AiqStart) -> (r: Result<AiqContext<state::Started>, Error>)
        requires
            run.finished(),
        ensures
            run.spec_step() == AiqStartStep::Started ==> (r matches Ok(c) && c.spec_state()
                == Runtime::Started),
            run.spec_step() matches AiqStartStep::Failed { code } ==> (r matches Err(
                Error::Aiq { code: c },
            ) && c == code),
    {
        match run.step {
            AiqStartStep::Failed { code } => Err(Error::Aiq { code }),
            _ => Ok(
                AiqContext { inner: AiqContextInner { state: Runtime::Started }, _marker: PhantomData },
            ),
        }
    }
}

impl AiqContext<state::Started> {
    /// The call that stops the context, if it is started.
    pub fn stop_call(&self) -> (r: Option<AiqCall>)
        ensures
            self.spec_state() == Runtime::Started ==> r == Some(
                AiqCall::Stop { keep_ext_hw_st: false },
            ),
            self.spec_state() != Runtime::Started ==> r.is_none(),
    {
        self.inner.stop_call()
    }

    /// The context once its stop call returned `code` (no call is made, and
    /// `code` is not looked at, unless it is started): set up, not started.
    pub fn stop(self, code: i32) -> (r: Result<AiqContext<state::Initialized>, Error>)
        ensures
            (self.spec_state() != Runtime::Started || code == XCAM_RETURN_NO_ERROR) ==> (r matches Ok(
                c,
            ) && c.spec_state() == Runtime::Initialized),
            self.spec_state() == Runtime::Started && code != XCAM_RETURN_NO_ERROR ==> (r matches Err(
                Error::Aiq { code: c },
            ) && c == code),
    {
        self.inner.stop(code)?;
        Ok(AiqContext { inner: AiqContextInner { state: Runtime::Initialized }, _marker: PhantomData })
    }
}

} // verus!
