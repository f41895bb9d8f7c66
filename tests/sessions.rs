use region_capture::capture::{CaptureAction, CaptureError, CaptureSession, CaptureStep, CapturedBitmap};
use region_capture::geometry::SelectionRect;
use region_capture::surface::{rectangle_job, DrawAction, DrawJob, DrawSession, DrawStep, RenderError};
use region_capture::geometry::Point;
use region_capture::window::VirtualScreen;

fn dual_monitor() -> VirtualScreen {
    VirtualScreen { x: -1920, y: 0, width: 3840, height: 1080 }
}

/// Runs a capture, answering each call from `fail_on`, and returns every call made.
fn run_capture(screen: VirtualScreen, fail_on: &dyn Fn(&CaptureAction) -> bool) -> Vec<CaptureAction> {
    let (mut session, mut action) = CaptureSession::begin(screen);
    let mut calls = vec![action];
    while !matches!(action, CaptureAction::Captured(_) | CaptureAction::Failed(_)) {
        action = session.advance(!fail_on(&action));
        calls.push(action);
        assert!(calls.len() < 20);
    }
    calls
}

fn count(calls: &[CaptureAction], target: CaptureAction) -> usize {
    calls.iter().filter(|a| **a == target).count()
}

#[test]
fn dual_monitor_capture_copies_from_negative_origin() {
    let calls = run_capture(dual_monitor(), &|_| false);
    assert_eq!(
        calls,
        vec![
            CaptureAction::AcquireScreenDc,
            CaptureAction::CreateMemoryDc,
            CaptureAction::CreateBitmap { width: 3840, height: 1080 },
            CaptureAction::Copy { source_x: -1920, source_y: 0, width: 3840, height: 1080 },
            CaptureAction::ReleaseScreenDc,
            CaptureAction::ReleaseMemoryDc,
            CaptureAction::Captured(CapturedBitmap { width: 3840, height: 1080 }),
        ]
    );
}

#[test]
fn repeated_capture_has_same_size() {
    let screen = VirtualScreen { x: 0, y: 0, width: 2560, height: 1440 };
    let first = run_capture(screen, &|_| false);
    let second = run_capture(screen, &|_| false);
    assert_eq!(first.last(), second.last());
    assert_eq!(first.last(), Some(&CaptureAction::Captured(CapturedBitmap { width: 2560, height: 1440 })));
}

#[test]
fn failed_capture_steps_release_everything_acquired() {
    let cases = [
        (CaptureAction::AcquireScreenDc, CaptureStep::ScreenDc, 0usize, 0usize, 0usize),
        (CaptureAction::CreateMemoryDc, CaptureStep::MemoryDc, 1, 0, 0),
        (CaptureAction::CreateBitmap { width: 3840, height: 1080 }, CaptureStep::Bitmap, 1, 1, 0),
        (CaptureAction::Copy { source_x: -1920, source_y: 0, width: 3840, height: 1080 }, CaptureStep::Copy, 1, 1, 1),
        (CaptureAction::ReleaseMemoryDc, CaptureStep::ReleaseMemoryDc, 1, 1, 1),
    ];
    for (failing, step, screen_dc, memory_dc, bitmap) in cases {
        let calls = run_capture(dual_monitor(), &|a| *a == failing);
        assert_eq!(count(&calls, CaptureAction::ReleaseScreenDc), screen_dc);
        assert_eq!(count(&calls, CaptureAction::ReleaseMemoryDc), memory_dc);
        assert_eq!(count(&calls, CaptureAction::DeleteBitmap), bitmap);
        assert_eq!(calls.last(), Some(&CaptureAction::Failed(CaptureError { step })));
    }
}

#[test]
fn capture_reports_result_and_step_names() {
    let (mut session, _) = CaptureSession::begin(dual_monitor());
    assert_eq!(session.advance(false), CaptureAction::Failed(CaptureError { step: CaptureStep::ScreenDc }));
    assert_eq!(session.result(), Err(CaptureError { step: CaptureStep::ScreenDc }));
    assert_eq!(session.advance(true), CaptureAction::Failed(CaptureError { step: CaptureStep::ScreenDc }));
    assert_eq!(CaptureStep::ScreenDc.name(), "DC error");
    assert_eq!(CaptureStep::MemoryDc.name(), "Comb DC error");
    assert_eq!(CaptureStep::Bitmap.name(), "Create Bitmap error");
    assert_eq!(CaptureStep::ReleaseMemoryDc.name(), "Delete DC error");
}

/// Runs a draw session against a counting target that fails the calls `fail_on` picks.
fn run_draw(job: DrawJob, swap_chain: bool, fail_on: &dyn Fn(&DrawAction) -> bool) -> (Vec<DrawAction>, DrawSession) {
    let (mut session, mut action) = DrawSession::begin(job, swap_chain);
    let mut calls = vec![action];
    while !matches!(action, DrawAction::Drawn | DrawAction::Failed(_)) {
        action = session.advance(!fail_on(&action));
        calls.push(action);
        assert!(calls.len() < 20);
    }
    (calls, session)
}

fn begin_end(calls: &[DrawAction]) -> (usize, usize) {
    (
        calls.iter().filter(|a| **a == DrawAction::BeginDraw).count(),
        calls.iter().filter(|a| **a == DrawAction::EndDraw).count(),
    )
}

#[test]
fn failing_fill_still_ends_the_draw() {
    let rect = SelectionRect { left: 50, top: 50, right: 100, bottom: 100 };
    let (calls, session) = run_draw(DrawJob::Rectangle(rect), true, &|a| matches!(a, DrawAction::FillRect(_)));
    assert_eq!(
        calls,
        vec![
            DrawAction::BeginDraw,
            DrawAction::FillRect(rect),
            DrawAction::EndDraw,
            DrawAction::Failed(RenderError { step: DrawStep::Fill }),
        ]
    );
    assert_eq!(begin_end(&calls), (1, 1));
    assert_eq!((session.begins, session.ends), (1, 1));
}

#[test]
fn every_failure_keeps_begin_and_end_balanced() {
    let rect = SelectionRect { left: 0, top: 0, right: 10, bottom: 10 };
    let jobs = [
        DrawJob::Rectangle(rect),
        DrawJob::FullBitmap { width: 3840, height: 1080 },
        DrawJob::UpdatedArea(rect),
    ];
    for job in jobs {
        for swap_chain in [false, true] {
            for fail_at in 0..8usize {
                let seen = std::cell::Cell::new(0usize);
                let (calls, _) = run_draw(job, swap_chain, &|_| {
                    let n = seen.get();
                    seen.set(n + 1);
                    n == fail_at
                });
                assert_eq!(begin_end(&calls), (1, 1));
            }
        }
    }
}

#[test]
fn rectangle_draw_presents_on_swap_chain() {
    let job = rectangle_job(Point { x: 100, y: 100 }, Point { x: 50, y: 50 });
    let rect = SelectionRect { left: 50, top: 50, right: 100, bottom: 100 };
    assert_eq!(job, DrawJob::Rectangle(rect));
    let (calls, _) = run_draw(job, true, &|_| false);
    assert_eq!(
        calls,
        vec![
            DrawAction::BeginDraw,
            DrawAction::FillRect(rect),
            DrawAction::StrokeRect(rect),
            DrawAction::EndDraw,
            DrawAction::Present,
            DrawAction::Drawn,
        ]
    );
}

#[test]
fn bitmap_draw_on_window_target_does_not_present() {
    let (calls, _) = run_draw(DrawJob::FullBitmap { width: 800, height: 600 }, false, &|_| false);
    assert_eq!(
        calls,
        vec![
            DrawAction::BeginDraw,
            DrawAction::DrawBitmap { width: 800, height: 600 },
            DrawAction::EndDraw,
            DrawAction::Drawn,
        ]
    );
}

#[test]
fn draw_errors_name_their_step() {
    let rect = SelectionRect { left: 0, top: 0, right: 1, bottom: 1 };
    let cases = [
        (DrawJob::FullBitmap { width: 1, height: 1 }, false, DrawStep::Blit),
        (DrawJob::Rectangle(rect), true, DrawStep::Stroke),
        (DrawJob::Rectangle(rect), true, DrawStep::EndDraw),
        (DrawJob::Rectangle(rect), true, DrawStep::Present),
        (DrawJob::UpdatedArea(rect), false, DrawStep::Clip),
    ];
    for (job, swap_chain, step) in cases {
        let (calls, _) = run_draw(job, swap_chain, &|a| match step {
            DrawStep::Blit => matches!(a, DrawAction::DrawBitmap { .. }),
            DrawStep::Fill => matches!(a, DrawAction::FillRect(_)),
            DrawStep::Stroke => matches!(a, DrawAction::StrokeRect(_)),
            DrawStep::Clip => matches!(a, DrawAction::Clip(_)),
            DrawStep::EndDraw => *a == DrawAction::EndDraw,
            DrawStep::Present => *a == DrawAction::Present,
        });
        assert_eq!(calls.last(), Some(&DrawAction::Failed(RenderError { step })));
    }
}

#[test]
fn updated_area_clips_between_begin_and_end() {
    let rect = SelectionRect { left: 4, top: 5, right: 6, bottom: 7 };
    let (calls, _) = run_draw(DrawJob::UpdatedArea(rect), false, &|_| false);
    assert_eq!(
        calls,
        vec![DrawAction::BeginDraw, DrawAction::Clip(rect), DrawAction::EndDraw, DrawAction::Drawn]
    );
}

#[test]
fn failed_desktop_dc_release_keeps_the_capture() {
    let calls = run_capture(dual_monitor(), &|a| *a == CaptureAction::ReleaseScreenDc);
    assert_eq!(count(&calls, CaptureAction::ReleaseScreenDc), 1);
    assert_eq!(count(&calls, CaptureAction::ReleaseMemoryDc), 1);
    assert_eq!(count(&calls, CaptureAction::DeleteBitmap), 0);
    assert_eq!(calls.last(), Some(&CaptureAction::Captured(CapturedBitmap { width: 3840, height: 1080 })));
}

#[test]
fn failed_selection_present_still_fills_and_strokes() {
    let rect = SelectionRect { left: 50, top: 50, right: 100, bottom: 100 };
    let job_a = rectangle_job(Point { x: 100, y: 100 }, Point { x: 50, y: 50 });
    let job_b = rectangle_job(Point { x: 50, y: 50 }, Point { x: 100, y: 100 });
    assert_eq!(job_a, job_b);
    let (calls, session) = run_draw(job_a, true, &|a| *a == DrawAction::Present);
    assert_eq!(
        calls,
        vec![
            DrawAction::BeginDraw,
            DrawAction::FillRect(rect),
            DrawAction::StrokeRect(rect),
            DrawAction::EndDraw,
            DrawAction::Present,
            DrawAction::Failed(RenderError { step: DrawStep::Present }),
        ]
    );
    assert_eq!((session.begins, session.ends), (1, 1));
}
