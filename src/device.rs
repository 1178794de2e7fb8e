//! The operations an input device and a screen capture perform, and what they report.
use vstd::prelude::*;

use crate::keys::Key;
use crate::types::{ActionError, ActionOutput};

verus! {

/// A pointer button.
#[derive(Debug, Clone, Copy, PartialEq, Eq, Structural)]
pub enum MouseButton {
    Left,
    Right,
    Middle,
}

/// Whether a button or key goes down or up.
#[derive(Debug, Clone, Copy, PartialEq, Eq, Structural)]
pub enum Direction {
    Press,
    Release,
}

/// One call on the device.
#[derive(Debug, Clone)]
pub enum DeviceOp {
    Button { button: MouseButton, direction: Direction },
    /// Move the pointer to an absolute position.
    MoveTo { x: i32, y: i32 },
    /// Move the pointer by a relative displacement.
    MoveBy { dx: i32, dy: i32 },
    Key { key: Key, direction: Direction },
    Text { text: String },
    /// Read the pointer position.
    Locate,
    /// Capture one frame of the primary display.
    Capture,
}

/// What a device call reported.
#[derive(Debug, Clone)]
pub enum Outcome {
    Done,
    Position { x: i32, y: i32 },
    /// Raw RGBA pixels of a captured frame, row by row.
    Frame { width: u32, height: u32, rgba: Vec<u8> },
    Failed(String),
}

/// What the worker does next for an action.
#[derive(Debug)]
pub enum Step {
    /// Perform this call and report its outcome.
    Device(DeviceOp),
    /// Pause for this many milliseconds, then report `Outcome::Done`.
    Wait(u64),
    /// The action is over, with this result.
    Finish(Result<ActionOutput, ActionError>),
}

impl DeviceOp {
    /// An equal copy of this operation.
    pub fn duplicate(&self) -> (r: DeviceOp)
        ensures
            r == *self,
    {
        match self {
            DeviceOp::Button { button, direction } => DeviceOp::Button { button: *button, direction: *direction },
            DeviceOp::MoveTo { x, y } => DeviceOp::MoveTo { x: *x, y: *y },
            DeviceOp::MoveBy { dx, dy } => DeviceOp::MoveBy { dx: *dx, dy: *dy },
            DeviceOp::Key { key, direction } => DeviceOp::Key { key: *key, direction: *direction },
            DeviceOp::Text { text } => DeviceOp::Text { text: text.clone() },
            DeviceOp::Locate => DeviceOp::Locate,
            DeviceOp::Capture => DeviceOp::Capture,
        }
    }
}

/// A device the worker drives: it performs calls and pauses. Implementations report
/// failures as `Outcome::Failed`.
pub trait InputDriver {
    /// Performs one call.
    fn perform(&mut self, op: &DeviceOp) -> Outcome;

    /// Pauses for `millis` milliseconds while keeping the device.
    fn pause(&mut self, millis: u64);
}

/// A deterministic in-memory device: it keeps the pointer position, the last call that
/// succeeded, every call attempted, and the total time paused; it can be told to fail
/// every call from some point on.
#[derive(Debug)]
pub struct MockDevice {
    pub mouse_pos: (i32, i32),
    pub last_op: Option<DeviceOp>,
    pub log: Vec<DeviceOp>,
    pub paused_millis: u64,
    pub calls: u64,
    /// Calls numbered from this one on (counting from zero) fail.
    pub fail_from: Option<u64>,
}

impl MockDevice {
    /// A mock with the pointer at the origin that never fails.
    pub fn new() -> (r: MockDevice)
        ensures
            r.mouse_pos == (0i32, 0i32),
            r.last_op is None,
            r.log@.len() == 0,
            r.paused_millis == 0,
            r.calls == 0,
            r.fail_from is None,
    {
        MockDevice { mouse_pos: (0, 0), last_op: None, log: Vec::new(), paused_millis: 0, calls: 0, fail_from: None }
    }

    /// A mock whose calls fail from the `n`-th on (counting from zero).
    pub fn failing_from(n: u64) -> (r: MockDevice)
        ensures
            r.mouse_pos == (0i32, 0i32),
            r.last_op is None,
            r.log@.len() == 0,
            r.calls == 0,
            r.fail_from == Some(n),
    {
        MockDevice { mouse_pos: (0, 0), last_op: None, log: Vec::new(), paused_millis: 0, calls: 0, fail_from: Some(n) }
    }
}

impl InputDriver for MockDevice {
    fn perform(&mut self, op: &DeviceOp) -> Outcome {
        let n = self.calls;
        self.log.push(op.duplicate());
        if self.calls < u64::MAX {
            self.calls = self.calls + 1;
        }
        if let Some(f) = self.fail_from {
            if n >= f {
                return Outcome::Failed("mock device failure".to_owned());
            }
        }
        self.last_op = Some(op.duplicate());
        match op {
            DeviceOp::MoveTo { x, y } => {
                self.mouse_pos = (*x, *y);
                Outcome::Done
            },
            DeviceOp::MoveBy { dx, dy } => {
                let x = self.mouse_pos.0 as i64 + *dx as i64;
                let y = self.mouse_pos.1 as i64 + *dy as i64;
                if x < i32::MIN as i64 || x > i32::MAX as i64 || y < i32::MIN as i64 || y > i32::MAX as i64 {
                    Outcome::Failed("pointer out of range".to_owned())
                } else {
                    self.mouse_pos = (x as i32, y as i32);
                    Outcome::Done
                }
            },
            DeviceOp::Locate => Outcome::Position { x: self.mouse_pos.0, y: self.mouse_pos.1 },
            DeviceOp::Capture => Outcome::Frame { width: 1, height: 1, rgba: vec![0u8, 0u8, 0u8, 255u8] },
            _ => Outcome::Done,
        }
    }

    fn pause(&mut self, millis: u64) {
        self.paused_millis = if self.paused_millis > u64::MAX - millis {
            u64::MAX
        } else {
            self.paused_millis + millis
        };
    }
}

} // verus!
