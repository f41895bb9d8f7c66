use vstd::prelude::*;
use crate::geometry::{max_int, min_int, normalize, spanned, Point, SelectionRect};

verus! {

/// What one draw session puts on a render target.
#[derive(Clone, Copy, Debug, PartialEq, Eq, Structural)]
pub enum DrawJob {
    /// The captured bitmap, stretched over (0, 0) .. (`width`, `height`).
    FullBitmap { width: u32, height: u32 },
    /// The selection: filled, then its border stroked.
    Rectangle(SelectionRect),
    /// The window's invalidated region: clipped to, and nothing drawn.
    UpdatedArea(SelectionRect),
}

/// The steps of a draw session that can fail.
#[derive(Clone, Copy, Debug, PartialEq, Eq, Structural)]
pub enum DrawStep {
    Blit,
    Clip,
    Fill,
    Stroke,
    EndDraw,
    Present,
}

/// The first step of a draw session that failed.
#[derive(Clone, Copy, Debug, PartialEq, Eq, Structural)]
pub struct RenderError {
    pub step: DrawStep,
}

/// The next call on the render target.
#[derive(Clone, Copy, Debug, PartialEq, Eq, Structural)]
pub enum DrawAction {
    BeginDraw,
    /// Draw the whole bitmap with nearest-neighbour scaling.
    DrawBitmap { width: u32, height: u32 },
    FillRect(SelectionRect),
    StrokeRect(SelectionRect),
    /// Clip to the rectangle, then lift the clip again.
    Clip(SelectionRect),
    EndDraw,
    /// Swap the presentation chain's buffers.
    Present,
    /// The session is over and everything succeeded.
    Drawn,
    /// The session is over; this step failed first.
    Failed(RenderError),
}

/// The call whose outcome a session waits for.
#[derive(Clone, Copy, Debug, PartialEq, Eq, Structural)]
pub enum DrawStage {
    Beginning,
    Blitting,
    Filling,
    Stroking,
    Clipping,
    Ending,
    Presenting,
    Done,
}

/// One draw session on a render target, as calls that the caller makes and
/// reports on. `begins` and `ends` count the `BeginDraw` and `EndDraw` calls
/// handed out.
#[derive(Clone, Copy, Debug, PartialEq, Eq, Structural)]
pub struct DrawSession {
    pub job: DrawJob,
    /// The target is backed by a presentation chain, which is presented.
    pub swap_chain: bool,
    pub stage: DrawStage,
    pub failure: Option<DrawStep>,
    pub begins: u8,
    pub ends: u8,
}

pub open spec fn draw_failed_at(s: DrawSession, step: DrawStep) -> DrawSession {
    DrawSession { failure: if s.failure.is_none() { Some(step) } else { s.failure }, ..s }
}

pub open spec fn draw_finish(s: DrawSession) -> (DrawSession, DrawAction) {
    (
        DrawSession { stage: DrawStage::Done, ..s },
        match s.failure {
            None => DrawAction::Drawn,
            Some(step) => DrawAction::Failed(RenderError { step }),
        },
    )
}

/// Ends the session's drawing: reached from every drawing step, failed or not.
pub open spec fn draw_end(s: DrawSession) -> (DrawSession, DrawAction) {
    (DrawSession { stage: DrawStage::Ending, ends: (s.ends + 1) as u8, ..s }, DrawAction::EndDraw)
}

/// The session and its next call once the awaited call reported `ok`.
pub open spec fn draw_advance_spec(s: DrawSession, ok: bool) -> (DrawSession, DrawAction) {
    match s.stage {
        DrawStage::Beginning => match s.job {
            DrawJob::FullBitmap { width, height } => (
                DrawSession { stage: DrawStage::Blitting, ..s },
                DrawAction::DrawBitmap { width, height },
            ),
            DrawJob::Rectangle(rect) => (DrawSession { stage: DrawStage::Filling, ..s }, DrawAction::FillRect(rect)),
            DrawJob::UpdatedArea(rect) => (DrawSession { stage: DrawStage::Clipping, ..s }, DrawAction::Clip(rect)),
        },
        DrawStage::Blitting => if ok {
            draw_end(s)
        } else {
            draw_end(draw_failed_at(s, DrawStep::Blit))
        },
        DrawStage::Filling => if ok {
            match s.job {
                DrawJob::Rectangle(rect) => (
                    DrawSession { stage: DrawStage::Stroking, ..s },
                    DrawAction::StrokeRect(rect),
                ),
                _ => draw_end(s),
            }
        } else {
            draw_end(draw_failed_at(s, DrawStep::Fill))
        },
        DrawStage::Stroking => if ok {
            draw_end(s)
        } else {
            draw_end(draw_failed_at(s, DrawStep::Stroke))
        },
        DrawStage::Clipping => if ok {
            draw_end(s)
        } else {
            draw_end(draw_failed_at(s, DrawStep::Clip))
        },
        DrawStage::Ending => {
            let t = if ok { s } else { draw_failed_at(s, DrawStep::EndDraw) };
            if t.swap_chain && t.failure.is_none() {
                (DrawSession { stage: DrawStage::Presenting, ..t }, DrawAction::Present)
            } else {
                draw_finish(t)
            }
        },
        DrawStage::Presenting => if ok {
            draw_finish(s)
        } else {
            draw_finish(draw_failed_at(s, DrawStep::Present))
        },
        DrawStage::Done => draw_finish(s),
    }
}

pub open spec fn is_draw_finish(a: DrawAction) -> bool {
    a is Drawn || a is Failed
}

/// Calls left before a session finishes, at most.
pub open spec fn draw_remaining(s: DrawSession) -> nat {
    match s.stage {
        DrawStage::Beginning => 6,
        DrawStage::Blitting => 4,
        DrawStage::Filling => 5,
        DrawStage::Stroking => 4,
        DrawStage::Clipping => 4,
        DrawStage::Ending => 3,
        DrawStage::Presenting => 2,
        DrawStage::Done => 0,
    }
}

impl DrawSession {
    /// One `BeginDraw` has been handed out, and one `EndDraw` exactly from
    /// the stage where the drawing is over.
    pub open spec fn wf(self) -> bool {
        &&& self.begins == 1
        &&& match self.stage {
            DrawStage::Beginning | DrawStage::Blitting | DrawStage::Filling | DrawStage::Stroking
            | DrawStage::Clipping => self.ends == 0,
            _ => self.ends == 1,
        }
        &&& self.stage == DrawStage::Blitting ==> self.job is FullBitmap
        &&& (self.stage == DrawStage::Filling || self.stage == DrawStage::Stroking) ==> self.job is Rectangle
        &&& self.stage == DrawStage::Clipping ==> self.job is UpdatedArea
        &&& self.stage == DrawStage::Presenting ==> self.swap_chain
    }

    /// Starts drawing `job`; the first call begins the draw.
    pub fn begin(job: DrawJob, swap_chain: bool) -> (r: (DrawSession, DrawAction))
        ensures
            r.0 == (DrawSession { job, swap_chain, stage: DrawStage::Beginning, failure: None, begins: 1, ends: 0 }),
            r.0.wf(),
            r.1 == DrawAction::BeginDraw,
    {
        (DrawSession { job, swap_chain, stage: DrawStage::Beginning, failure: None, begins: 1, ends: 0 }, DrawAction::BeginDraw)
    }

    fn fail(&mut self, step: DrawStep)
        ensures
            *final(self) == draw_failed_at(*old(self), step),
    {
        if self.failure.is_none() {
            self.failure = Some(step);
        }
    }

    fn end(&mut self) -> (r: DrawAction)
        requires
            old(self).ends == 0,
        ensures
            (*final(self), r) == draw_end(*old(self)),
    {
        self.stage = DrawStage::Ending;
        self.ends = self.ends + 1;
        DrawAction::EndDraw
    }

    fn finish(&mut self) -> (r: DrawAction)
        ensures
            (*final(self), r) == draw_finish(*old(self)),
    {
        self.stage = DrawStage::Done;
        match self.failure {
            None => DrawAction::Drawn,
            Some(step) => DrawAction::Failed(RenderError { step }),
        }
    }

    /// Takes the outcome of the call last handed out and gives the next one.
    /// A failed drawing step still ends the draw: when the session finishes,
    /// exactly one `BeginDraw` and one `EndDraw` were handed out.
    pub fn advance(&mut self, succeeded: bool) -> (r: DrawAction)
        requires
            old(self).wf(),
        ensures
            (*final(self), r) == draw_advance_spec(*old(self), succeeded),
            final(self).wf(),
            old(self).stage != DrawStage::Done ==> draw_remaining(*final(self)) < draw_remaining(*old(self)),
            is_draw_finish(r) ==> final(self).stage == DrawStage::Done && final(self).begins == 1
                && final(self).ends == 1,
    {
        match self.stage {
            DrawStage::Beginning => match self.job {
                DrawJob::FullBitmap { width, height } => {
                    self.stage = DrawStage::Blitting;
                    DrawAction::DrawBitmap { width, height }
                },
                DrawJob::Rectangle(rect) => {
                    self.stage = DrawStage::Filling;
                    DrawAction::FillRect(rect)
                },
                DrawJob::UpdatedArea(rect) => {
                    self.stage = DrawStage::Clipping;
                    DrawAction::Clip(rect)
                },
            },
            DrawStage::Blitting => {
                if !succeeded {
                    self.fail(DrawStep::Blit);
                }
                self.end()
            },
            DrawStage::Filling => if succeeded {
                match self.job {
                    DrawJob::Rectangle(rect) => {
                        self.stage = DrawStage::Stroking;
                        DrawAction::StrokeRect(rect)
                    },
                    _ => self.end(),
                }
            } else {
                self.fail(DrawStep::Fill);
                self.end()
            },
            DrawStage::Stroking => {
                if !succeeded {
                    self.fail(DrawStep::Stroke);
                }
                self.end()
            },
            DrawStage::Clipping => {
                if !succeeded {
                    self.fail(DrawStep::Clip);
                }
                self.end()
            },
            DrawStage::Ending => {
                if !succeeded {
                    self.fail(DrawStep::EndDraw);
                }
                if self.swap_chain && self.failure.is_none() {
                    self.stage = DrawStage::Presenting;
                    DrawAction::Present
                } else {
                    self.finish()
                }
            },
            DrawStage::Presenting => {
                if !succeeded {
                    self.fail(DrawStep::Present);
                }
                self.finish()
            },
            DrawStage::Done => self.finish(),
        }
    }
}

/// The session after the calls it hands out report `outcomes`, in order.
pub open spec fn run_draw(s: DrawSession, outcomes: Seq<bool>) -> DrawSession
    decreases outcomes.len(),
{
    if outcomes.len() == 0 {
        s
    } else {
        run_draw(draw_advance_spec(s, outcomes[0]).0, outcomes.drop_first())
    }
}

proof fn lemma_draw_step(s: DrawSession, ok: bool)
    requires
        s.wf(),
    ensures
        draw_advance_spec(s, ok).0.wf(),
        s.stage != DrawStage::Done ==> draw_remaining(draw_advance_spec(s, ok).0) < draw_remaining(s),
        s.stage == DrawStage::Done ==> draw_advance_spec(s, ok).0 == s,
{
}

/// Whatever each call reports, failures of the drawing steps included, a
/// draw session given as many outcomes as it has calls left finishes, having
/// handed out one `BeginDraw` and one `EndDraw`.
pub proof fn lemma_draw_balanced(s: DrawSession, outcomes: Seq<bool>)
    requires
        s.wf(),
        outcomes.len() >= draw_remaining(s),
    ensures
        run_draw(s, outcomes).stage == DrawStage::Done,
        run_draw(s, outcomes).begins == 1,
        run_draw(s, outcomes).ends == 1,
    decreases outcomes.len(),
{
    if outcomes.len() > 0 {
        lemma_draw_step(s, outcomes[0]);
        lemma_draw_balanced(draw_advance_spec(s, outcomes[0]).0, outcomes.drop_first());
    }
}

/// The job that draws the selection spanned by two corners.
pub fn rectangle_job(start: Point, end: Point) -> (r: DrawJob)
    ensures
        r == DrawJob::Rectangle(spanned(start, end)),
{
    DrawJob::Rectangle(normalize(start, end))
}

/// Drawing the selection spanned by two corners fills and then strokes the
/// rectangle with edges min/max of the corners, the same for either order of
/// the corners and whether or not the target presents; a failed fill goes
/// straight to ending the draw.
pub proof fn lemma_rectangle_draw_commands(start: Point, end: Point, swap_chain: bool)
    ensures
        ({
            let expected = SelectionRect {
                left: min_int(start.x as int, end.x as int) as i32,
                top: min_int(start.y as int, end.y as int) as i32,
                right: max_int(start.x as int, end.x as int) as i32,
                bottom: max_int(start.y as int, end.y as int) as i32,
            };
            let s0 = DrawSession {
                job: DrawJob::Rectangle(spanned(start, end)),
                swap_chain,
                stage: DrawStage::Beginning,
                failure: None,
                begins: 1,
                ends: 0,
            };
            let filled = draw_advance_spec(s0, true);
            &&& spanned(start, end) == expected
            &&& spanned(end, start) == expected
            &&& filled.1 == DrawAction::FillRect(expected)
            &&& draw_advance_spec(filled.0, true).1 == DrawAction::StrokeRect(expected)
            &&& draw_advance_spec(filled.0, false).1 == DrawAction::EndDraw
        }),
{
}

} // verus!
