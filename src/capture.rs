use vstd::prelude::*;
use crate::window::VirtualScreen;

verus! {

/// The steps of a desktop capture. Each but `ReleaseScreenDc` fails the
/// capture when it fails.
#[derive(Clone, Copy, Debug, PartialEq, Eq, Structural)]
pub enum CaptureStep {
    ScreenDc,
    MemoryDc,
    Bitmap,
    Copy,
    ReleaseScreenDc,
    ReleaseMemoryDc,
    DeleteBitmap,
}

pub open spec fn step_name_spec(step: CaptureStep) -> &'static str {
    match step {
        CaptureStep::ScreenDc => "DC error",
        CaptureStep::MemoryDc => "Comb DC error",
        CaptureStep::Bitmap => "Create Bitmap error",
        CaptureStep::Copy => "Copy error",
        CaptureStep::ReleaseScreenDc => "Release DC error",
        CaptureStep::ReleaseMemoryDc => "Delete DC error",
        CaptureStep::DeleteBitmap => "Delete Bitmap error",
    }
}

impl CaptureStep {
    /// The name under which a failure of this step is reported.
    pub fn name(&self) -> (r: &'static str)
        ensures
            r == step_name_spec(*self),
    {
        match self {
            CaptureStep::ScreenDc => "DC error",
            CaptureStep::MemoryDc => "Comb DC error",
            CaptureStep::Bitmap => "Create Bitmap error",
            CaptureStep::Copy => "Copy error",
            CaptureStep::ReleaseScreenDc => "Release DC error",
            CaptureStep::ReleaseMemoryDc => "Delete DC error",
            CaptureStep::DeleteBitmap => "Delete Bitmap error",
        }
    }
}

/// The first step of a capture that failed.
#[derive(Clone, Copy, Debug, PartialEq, Eq, Structural)]
pub struct CaptureError {
    pub step: CaptureStep,
}

/// Size of a captured bitmap; the bitmap itself is the handle the last
/// `CreateBitmap` produced.
#[derive(Clone, Copy, Debug, PartialEq, Eq, Structural)]
pub struct CapturedBitmap {
    pub width: i32,
    pub height: i32,
}

/// The next native call of a capture.
#[derive(Clone, Copy, Debug, PartialEq, Eq, Structural)]
pub enum CaptureAction {
    /// Take the device context of the whole desktop.
    AcquireScreenDc,
    /// Make an off-screen device context compatible with the desktop's.
    CreateMemoryDc,
    /// Make a bitmap compatible with the desktop, of this size.
    CreateBitmap { width: i32, height: i32 },
    /// Select the bitmap into the off-screen context and copy the desktop
    /// into it from (`source_x`, `source_y`) to (0, 0).
    Copy { source_x: i32, source_y: i32, width: i32, height: i32 },
    ReleaseScreenDc,
    ReleaseMemoryDc,
    DeleteBitmap,
    /// The capture is over and succeeded; nothing else is held but the bitmap.
    Captured(CapturedBitmap),
    /// The capture is over and failed; nothing is held.
    Failed(CaptureError),
}

/// The call whose outcome a session waits for.
#[derive(Clone, Copy, Debug, PartialEq, Eq, Structural)]
pub enum CaptureStage {
    AcquiringScreenDc,
    CreatingMemoryDc,
    CreatingBitmap,
    Copying,
    Releasing(CaptureStep),
    Done,
}

/// One capture of the virtual screen, as a sequence of native calls that
/// the caller makes and reports on. The flags say which handles are held.
#[derive(Clone, Copy, Debug, PartialEq, Eq, Structural)]
pub struct CaptureSession {
    pub screen: VirtualScreen,
    pub stage: CaptureStage,
    pub screen_dc: bool,
    pub memory_dc: bool,
    pub bitmap: bool,
    pub failure: Option<CaptureStep>,
}

pub open spec fn is_release(step: CaptureStep) -> bool {
    step == CaptureStep::ReleaseScreenDc || step == CaptureStep::ReleaseMemoryDc || step == CaptureStep::DeleteBitmap
}

/// Whether a failed release fails the capture. Handing the desktop's device
/// context back cannot spoil a bitmap already copied, so its outcome is not
/// checked; deleting the off-screen context is.
pub open spec fn release_failure_counts(step: CaptureStep) -> bool {
    step != CaptureStep::ReleaseScreenDc
}

/// What a finished capture reports: the extent of the virtual screen, or
/// the first step that failed.
pub open spec fn finish_result(s: CaptureSession) -> Result<CapturedBitmap, CaptureError> {
    match s.failure {
        None => Ok(CapturedBitmap { width: s.screen.width, height: s.screen.height }),
        Some(step) => Err(CaptureError { step }),
    }
}

/// The call that reports how a capture ended.
pub open spec fn finish_action(s: CaptureSession) -> CaptureAction {
    match s.failure {
        None => CaptureAction::Captured(CapturedBitmap { width: s.screen.width, height: s.screen.height }),
        Some(step) => CaptureAction::Failed(CaptureError { step }),
    }
}

/// The call is the last of a session.
pub open spec fn is_finish(a: CaptureAction) -> bool {
    a is Captured || a is Failed
}

/// Records `step` as failed unless an earlier step already was.
pub open spec fn failed_at(s: CaptureSession, step: CaptureStep) -> CaptureSession {
    CaptureSession { failure: if s.failure.is_none() { Some(step) } else { s.failure }, ..s }
}

/// Releases what is held, one handle per call, the desktop's context first,
/// then the off-screen context, then the bitmap where the capture failed;
/// then finishes.
pub open spec fn cleanup_spec(s: CaptureSession) -> (CaptureSession, CaptureAction) {
    if s.screen_dc {
        (
            CaptureSession { screen_dc: false, stage: CaptureStage::Releasing(CaptureStep::ReleaseScreenDc), ..s },
            CaptureAction::ReleaseScreenDc,
        )
    } else if s.memory_dc {
        (
            CaptureSession { memory_dc: false, stage: CaptureStage::Releasing(CaptureStep::ReleaseMemoryDc), ..s },
            CaptureAction::ReleaseMemoryDc,
        )
    } else if s.bitmap && s.failure.is_some() {
        (
            CaptureSession { bitmap: false, stage: CaptureStage::Releasing(CaptureStep::DeleteBitmap), ..s },
            CaptureAction::DeleteBitmap,
        )
    } else {
        (CaptureSession { stage: CaptureStage::Done, ..s }, finish_action(s))
    }
}

/// The session and its next call once the awaited call reported `ok`.
pub open spec fn advance_spec(s: CaptureSession, ok: bool) -> (CaptureSession, CaptureAction) {
    match s.stage {
        CaptureStage::AcquiringScreenDc => if ok {
            (
                CaptureSession { screen_dc: true, stage: CaptureStage::CreatingMemoryDc, ..s },
                CaptureAction::CreateMemoryDc,
            )
        } else {
            cleanup_spec(failed_at(s, CaptureStep::ScreenDc))
        },
        CaptureStage::CreatingMemoryDc => if ok {
            (
                CaptureSession { memory_dc: true, stage: CaptureStage::CreatingBitmap, ..s },
                CaptureAction::CreateBitmap { width: s.screen.width, height: s.screen.height },
            )
        } else {
            cleanup_spec(failed_at(s, CaptureStep::MemoryDc))
        },
        CaptureStage::CreatingBitmap => if ok {
            (
                CaptureSession { bitmap: true, stage: CaptureStage::Copying, ..s },
                CaptureAction::Copy {
                    source_x: s.screen.x,
                    source_y: s.screen.y,
                    width: s.screen.width,
                    height: s.screen.height,
                },
            )
        } else {
            cleanup_spec(failed_at(s, CaptureStep::Bitmap))
        },
        CaptureStage::Copying => if ok {
            cleanup_spec(s)
        } else {
            cleanup_spec(failed_at(s, CaptureStep::Copy))
        },
        CaptureStage::Releasing(step) => if ok || !release_failure_counts(step) {
            cleanup_spec(s)
        } else {
            cleanup_spec(failed_at(s, step))
        },
        CaptureStage::Done => (s, finish_action(s)),
    }
}

/// Calls left before a session finishes, at most.
pub open spec fn remaining(s: CaptureSession) -> nat {
    let pending: nat = match s.stage {
        CaptureStage::AcquiringScreenDc => 4,
        CaptureStage::CreatingMemoryDc => 3,
        CaptureStage::CreatingBitmap => 2,
        CaptureStage::Copying => 1,
        _ => 0,
    };
    let held: nat = (if s.screen_dc { 1nat } else { 0nat }) + (if s.memory_dc { 1nat } else { 0nat }) + (if s.bitmap {
        1nat
    } else {
        0nat
    });
    if s.stage == CaptureStage::Done {
        0
    } else {
        1 + 2 * pending + held
    }
}

impl CaptureSession {
    /// The handles held agree with the stage reached.
    pub open spec fn wf(self) -> bool {
        match self.stage {
            CaptureStage::AcquiringScreenDc => !self.screen_dc && !self.memory_dc && !self.bitmap && self.failure.is_none(),
            CaptureStage::CreatingMemoryDc => self.screen_dc && !self.memory_dc && !self.bitmap && self.failure.is_none(),
            CaptureStage::CreatingBitmap => self.screen_dc && self.memory_dc && !self.bitmap && self.failure.is_none(),
            CaptureStage::Copying => self.screen_dc && self.memory_dc && self.bitmap && self.failure.is_none(),
            CaptureStage::Releasing(step) => is_release(step) && (self.failure.is_none() ==> self.bitmap),
            CaptureStage::Done => !self.screen_dc && !self.memory_dc && (self.bitmap <==> self.failure.is_none()),
        }
    }

    pub open spec fn initial(screen: VirtualScreen) -> CaptureSession {
        CaptureSession {
            screen,
            stage: CaptureStage::AcquiringScreenDc,
            screen_dc: false,
            memory_dc: false,
            bitmap: false,
            failure: None,
        }
    }

    /// Starts a capture of `screen`; the first call takes the desktop's
    /// device context.
    pub fn begin(screen: VirtualScreen) -> (r: (CaptureSession, CaptureAction))
        ensures
            r.0 == Self::initial(screen),
            r.0.wf(),
            r.1 == CaptureAction::AcquireScreenDc,
    {
        (
            CaptureSession {
                screen,
                stage: CaptureStage::AcquiringScreenDc,
                screen_dc: false,
                memory_dc: false,
                bitmap: false,
                failure: None,
            },
            CaptureAction::AcquireScreenDc,
        )
    }

    fn fail(&mut self, step: CaptureStep)
        ensures
            *final(self) == failed_at(*old(self), step),
    {
        if self.failure.is_none() {
            self.failure = Some(step);
        }
    }

    fn cleanup(&mut self) -> (r: CaptureAction)
        ensures
            (*final(self), r) == cleanup_spec(*old(self)),
    {
        if self.screen_dc {
            self.screen_dc = false;
            self.stage = CaptureStage::Releasing(CaptureStep::ReleaseScreenDc);
            CaptureAction::ReleaseScreenDc
        } else if self.memory_dc {
            self.memory_dc = false;
            self.stage = CaptureStage::Releasing(CaptureStep::ReleaseMemoryDc);
            CaptureAction::ReleaseMemoryDc
        } else if self.bitmap && self.failure.is_some() {
            self.bitmap = false;
            self.stage = CaptureStage::Releasing(CaptureStep::DeleteBitmap);
            CaptureAction::DeleteBitmap
        } else {
            self.stage = CaptureStage::Done;
            self.finish()
        }
    }

    fn finish(&self) -> (r: CaptureAction)
        ensures
            r == finish_action(*self),
    {
        match self.failure {
            None => CaptureAction::Captured(CapturedBitmap { width: self.screen.width, height: self.screen.height }),
            Some(step) => CaptureAction::Failed(CaptureError { step }),
        }
    }

    /// What the capture reports: the bitmap's size, or the first step that
    /// failed.
    pub fn result(&self) -> (r: Result<CapturedBitmap, CaptureError>)
        ensures
            r == finish_result(*self),
    {
        match self.failure {
            None => Ok(CapturedBitmap { width: self.screen.width, height: self.screen.height }),
            Some(step) => Err(CaptureError { step }),
        }
    }

    /// Takes the outcome of the call last handed out and gives the next one.
    /// Whatever the outcomes, the session finishes, and when it does it holds
    /// neither device context, and holds the bitmap exactly when the capture
    /// succeeded.
    pub fn advance(&mut self, succeeded: bool) -> (r: CaptureAction)
        requires
            old(self).wf(),
        ensures
            (*final(self), r) == advance_spec(*old(self), succeeded),
            final(self).wf(),
            final(self).screen == old(self).screen,
            old(self).stage == CaptureStage::Releasing(CaptureStep::ReleaseScreenDc) ==> final(self).failure
                == old(self).failure,
            old(self).stage != CaptureStage::Done ==> remaining(*final(self)) < remaining(*old(self)),
            is_finish(r) ==> {
                &&& final(self).stage == CaptureStage::Done
                &&& !final(self).screen_dc
                &&& !final(self).memory_dc
                &&& (final(self).bitmap <==> r is Captured)
                &&& r == finish_action(*final(self))
            },
    {
        match self.stage {
            CaptureStage::AcquiringScreenDc => if succeeded {
                self.screen_dc = true;
                self.stage = CaptureStage::CreatingMemoryDc;
                CaptureAction::CreateMemoryDc
            } else {
                self.fail(CaptureStep::ScreenDc);
                self.cleanup()
            },
            CaptureStage::CreatingMemoryDc => if succeeded {
                self.memory_dc = true;
                self.stage = CaptureStage::CreatingBitmap;
                CaptureAction::CreateBitmap { width: self.screen.width, height: self.screen.height }
            } else {
                self.fail(CaptureStep::MemoryDc);
                self.cleanup()
            },
            CaptureStage::CreatingBitmap => if succeeded {
                self.bitmap = true;
                self.stage = CaptureStage::Copying;
                CaptureAction::Copy {
                    source_x: self.screen.x,
                    source_y: self.screen.y,
                    width: self.screen.width,
                    height: self.screen.height,
                }
            } else {
                self.fail(CaptureStep::Bitmap);
                self.cleanup()
            },
            CaptureStage::Copying => {
                if !succeeded {
                    self.fail(CaptureStep::Copy);
                }
                self.cleanup()
            },
            CaptureStage::Releasing(step) => {
                if !succeeded && step != CaptureStep::ReleaseScreenDc {
                    self.fail(step);
                }
                self.cleanup()
            },
            CaptureStage::Done => self.finish(),
        }
    }
}

/// The session after the calls it hands out report `outcomes`, in order.
pub open spec fn run_capture(s: CaptureSession, outcomes: Seq<bool>) -> CaptureSession
    decreases outcomes.len(),
{
    if outcomes.len() == 0 {
        s
    } else {
        run_capture(advance_spec(s, outcomes[0]).0, outcomes.drop_first())
    }
}

proof fn lemma_capture_step(s: CaptureSession, ok: bool)
    requires
        s.wf(),
    ensures
        advance_spec(s, ok).0.wf(),
        advance_spec(s, ok).0.screen == s.screen,
        s.stage != CaptureStage::Done ==> remaining(advance_spec(s, ok).0) < remaining(s),
        s.stage == CaptureStage::Done ==> advance_spec(s, ok).0 == s,
{
}

/// Whatever each call reports, a capture given as many outcomes as it has
/// calls left finishes holding neither device context, and holding the
/// bitmap exactly when it succeeded.
pub proof fn lemma_capture_releases_all(s: CaptureSession, outcomes: Seq<bool>)
    requires
        s.wf(),
        outcomes.len() >= remaining(s),
    ensures
        run_capture(s, outcomes).stage == CaptureStage::Done,
        !run_capture(s, outcomes).screen_dc,
        !run_capture(s, outcomes).memory_dc,
        run_capture(s, outcomes).bitmap <==> finish_result(run_capture(s, outcomes)) is Ok,
        run_capture(s, outcomes).screen == s.screen,
    decreases outcomes.len(),
{
    if outcomes.len() > 0 {
        lemma_capture_step(s, outcomes[0]);
        lemma_capture_releases_all(advance_spec(s, outcomes[0]).0, outcomes.drop_first());
    }
}

/// Two captures of an unchanged virtual screen that both succeed give
/// bitmaps of the same size: the screen's extent.
pub proof fn lemma_capture_size_stable(a: CaptureSession, b: CaptureSession)
    requires
        a.wf(),
        b.wf(),
        a.screen == b.screen,
        a.stage == CaptureStage::Done,
        b.stage == CaptureStage::Done,
        finish_result(a) is Ok,
        finish_result(b) is Ok,
    ensures
        finish_result(a) == finish_result(b),
        finish_result(a) == Ok::<CapturedBitmap, CaptureError>(
            CapturedBitmap { width: a.screen.width, height: a.screen.height },
        ),
{
}

} // verus!
