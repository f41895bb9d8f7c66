use vstd::prelude::*;
use crate::geometry::{spanned, normalize, Point, SelectionRect};

verus! {

/// The kind of graphics adapter a device is created on.
#[derive(Clone, Copy, Debug, PartialEq, Eq, Structural)]
pub enum DriverKind {
    Hardware,
    /// The software rasterizer, for machines without a usable GPU.
    Software,
}

/// The code with which device creation reports that the adapter cannot be used.
pub const DXGI_ERROR_UNSUPPORTED: i32 = -2005270524;

#[derive(Clone, Copy, Debug, PartialEq, Eq, Structural)]
pub enum TargetError {
    /// No device could be created; `code` is what the last attempt reported.
    Device { driver: DriverKind, code: i32 },
}

/// What to do after one attempt at creating a device.
#[derive(Clone, Copy, Debug, PartialEq, Eq, Structural)]
pub enum DeviceDecision {
    /// The device exists; render on it.
    Use(DriverKind),
    /// Try again on this adapter.
    Retry(DriverKind),
    /// Give up; the draw call fails with this error.
    Fail(TargetError),
}

/// Device creation tries the hardware adapter first.
pub fn first_driver() -> (r: DriverKind)
    ensures
        r == DriverKind::Hardware,
{
    DriverKind::Hardware
}

pub open spec fn device_decision(driver: DriverKind, failure: Option<i32>) -> DeviceDecision {
    match failure {
        None => DeviceDecision::Use(driver),
        Some(code) => if driver == DriverKind::Hardware && code == DXGI_ERROR_UNSUPPORTED {
            DeviceDecision::Retry(DriverKind::Software)
        } else {
            DeviceDecision::Fail(TargetError::Device { driver, code })
        },
    }
}

/// Decides after an attempt on `driver` that failed with the given code, or
/// succeeded (`None`): a hardware adapter reported unsupported is followed by
/// one attempt on the software adapter; any other failure is final.
pub fn after_device_attempt(driver: DriverKind, failure: Option<i32>) -> (r: DeviceDecision)
    ensures
        r == device_decision(driver, failure),
{
    match failure {
        None => DeviceDecision::Use(driver),
        Some(code) => if driver == DriverKind::Hardware && code == DXGI_ERROR_UNSUPPORTED {
            DeviceDecision::Retry(DriverKind::Software)
        } else {
            DeviceDecision::Fail(TargetError::Device { driver, code })
        },
    }
}

/// Pixel size of a render target.
#[derive(Clone, Copy, Debug, PartialEq, Eq, Structural)]
pub struct Size {
    pub width: u32,
    pub height: u32,
}

/// The distance from `lo` to `hi`, or 0 where `hi` lies before `lo`.
pub open spec fn extent(lo: i32, hi: i32) -> int {
    if hi >= lo { hi - lo } else { 0 }
}

fn extent_of(lo: i32, hi: i32) -> (r: u32)
    ensures
        r as int == extent(lo, hi),
{
    if hi >= lo { (hi as i64 - lo as i64) as u32 } else { 0 }
}

/// The size of a window's render target: the size asked for, or else the
/// size of the window's client rectangle.
pub fn window_target_size(requested: Option<Size>, client: SelectionRect) -> (r: Size)
    ensures
        requested matches Some(size) ==> r == size,
        requested is None ==> r.width as int == extent(client.left, client.right) && r.height as int == extent(
            client.top,
            client.bottom,
        ),
{
    match requested {
        Some(size) => size,
        None => Size { width: extent_of(client.left, client.right), height: extent_of(client.top, client.bottom) },
    }
}

/// The size of the target on which the selection spanned by two corners is
/// drawn: the selection's own width and height.
pub fn selection_target_size(start: Point, end: Point) -> (r: Size)
    ensures
        r.width as int == spanned(start, end).width_spec(),
        r.height as int == spanned(start, end).height_spec(),
{
    let rect = normalize(start, end);
    Size { width: rect.width(), height: rect.height() }
}

/// A failed attempt on the software adapter is final: there is no third try.
pub proof fn lemma_software_failure_final(code: i32)
    ensures
        device_decision(DriverKind::Software, Some(code)) == DeviceDecision::Fail(
            TargetError::Device { driver: DriverKind::Software, code },
        ),
{
}

} // verus!
