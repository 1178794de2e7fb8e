//! Requests, actions, outputs and errors exchanged with callers.
use vstd::prelude::*;

use crate::outside::{fresh_id, now_millis};

verus! {

/// Target of a pointer move or drag.
#[derive(Debug, Clone, Copy, PartialEq, Eq, Structural)]
pub struct MouseMoveInput {
    pub x: u32,
    pub y: u32,
}

/// Text to inject.
#[derive(Debug, Clone)]
pub struct TypeTextInput {
    pub text: String,
}

/// A key combination such as `ctrl+alt+a`.
#[derive(Debug, Clone)]
pub struct KeyPressInput {
    pub key: String,
}

/// One discrete request to manipulate the input device or capture the display.
#[derive(Debug, Clone)]
pub enum Action {
    LeftClick,
    RightClick,
    MiddleClick,
    DoubleClick,
    MouseMove { input: MouseMoveInput },
    LeftClickDrag { input: MouseMoveInput },
    TypeText { input: TypeTextInput },
    KeyPress { input: KeyPressInput },
    Screenshot,
    CursorPosition,
}

/// The tag of an action, without its payload.
#[derive(Debug, Clone, Copy, PartialEq, Eq, Structural)]
pub enum ActionKind {
    LeftClick,
    RightClick,
    MiddleClick,
    DoubleClick,
    MouseMove,
    LeftClickDrag,
    TypeText,
    KeyPress,
    Screenshot,
    CursorPosition,
}

/// The kind of an action.
pub open spec fn kind_of(a: Action) -> ActionKind {
    match a {
        Action::LeftClick => ActionKind::LeftClick,
        Action::RightClick => ActionKind::RightClick,
        Action::MiddleClick => ActionKind::MiddleClick,
        Action::DoubleClick => ActionKind::DoubleClick,
        Action::MouseMove { .. } => ActionKind::MouseMove,
        Action::LeftClickDrag { .. } => ActionKind::LeftClickDrag,
        Action::TypeText { .. } => ActionKind::TypeText,
        Action::KeyPress { .. } => ActionKind::KeyPress,
        Action::Screenshot => ActionKind::Screenshot,
        Action::CursorPosition => ActionKind::CursorPosition,
    }
}

impl Action {
    /// The kind of this action.
    pub fn kind(&self) -> (r: ActionKind)
        ensures
            r == kind_of(*self),
    {
        match self {
            Action::LeftClick => ActionKind::LeftClick,
            Action::RightClick => ActionKind::RightClick,
            Action::MiddleClick => ActionKind::MiddleClick,
            Action::DoubleClick => ActionKind::DoubleClick,
            Action::MouseMove { .. } => ActionKind::MouseMove,
            Action::LeftClickDrag { .. } => ActionKind::LeftClickDrag,
            Action::TypeText { .. } => ActionKind::TypeText,
            Action::KeyPress { .. } => ActionKind::KeyPress,
            Action::Screenshot => ActionKind::Screenshot,
            Action::CursorPosition => ActionKind::CursorPosition,
        }
    }

    /// An equal copy of this action.
    pub fn duplicate(&self) -> (r: Action)
        ensures
            r == *self,
    {
        match self {
            Action::LeftClick => Action::LeftClick,
            Action::RightClick => Action::RightClick,
            Action::MiddleClick => Action::MiddleClick,
            Action::DoubleClick => Action::DoubleClick,
            Action::MouseMove { input } => Action::MouseMove { input: *input },
            Action::LeftClickDrag { input } => Action::LeftClickDrag { input: *input },
            Action::TypeText { input } => Action::TypeText {
                input: TypeTextInput { text: input.text.clone() },
            },
            Action::KeyPress { input } => Action::KeyPress {
                input: KeyPressInput { key: input.key.clone() },
            },
            Action::Screenshot => Action::Screenshot,
            Action::CursorPosition => Action::CursorPosition,
        }
    }
}

/// Data produced by the actions that report something.
#[derive(Debug, Clone)]
pub enum ActionOutput {
    Screenshot { image: String },
    CursorPosition { x: u32, y: u32 },
    NoData,
}

/// Why an action did not produce a result.
#[derive(Debug, Clone)]
pub enum ActionError {
    /// No result within the deadline.
    Timeout,
    /// A device call failed, or a multi-step handler stopped part way.
    ExecutionFailed(String),
    /// The request was malformed; the device was not touched.
    InvalidInput(String),
    /// The result could not be delivered back.
    ChannelError(String),
}

impl ActionError {
    /// An equal copy of this error.
    pub fn duplicate(&self) -> (r: ActionError)
        ensures
            r == *self,
    {
        match self {
            ActionError::Timeout => ActionError::Timeout,
            ActionError::ExecutionFailed(m) => ActionError::ExecutionFailed(m.clone()),
            ActionError::InvalidInput(m) => ActionError::InvalidInput(m.clone()),
            ActionError::ChannelError(m) => ActionError::ChannelError(m.clone()),
        }
    }

    /// The wire name of the error kind.
    pub fn kind_name(&self) -> (r: &'static str)
        ensures
            self is Timeout ==> r@ == "timeout"@,
            self is ExecutionFailed ==> r@ == "execution_failed"@,
            self is InvalidInput ==> r@ == "invalid_input"@,
            self is ChannelError ==> r@ == "channel_error"@,
    {
        match self {
            ActionError::Timeout => "timeout",
            ActionError::ExecutionFailed(_) => "execution_failed",
            ActionError::InvalidInput(_) => "invalid_input",
            ActionError::ChannelError(_) => "channel_error",
        }
    }

    /// The message reported with the error.
    pub fn message(&self) -> (r: String)
        ensures
            self is Timeout ==> r@ == "Action timed out"@,
            self matches ActionError::ExecutionFailed(m) ==> r@ == m@,
            self matches ActionError::InvalidInput(m) ==> r@ == m@,
            self matches ActionError::ChannelError(m) ==> r@ == m@,
    {
        match self {
            ActionError::Timeout => "Action timed out".to_owned(),
            ActionError::ExecutionFailed(m) => m.clone(),
            ActionError::InvalidInput(m) => m.clone(),
            ActionError::ChannelError(m) => m.clone(),
        }
    }
}

/// A caller's submission: its own identifier and the action.
#[derive(Debug, Clone)]
pub struct ActionRequest {
    pub id: String,
    pub action: Action,
}

/// Whether a response carries a result or an error.
#[derive(Debug, Clone, Copy, PartialEq, Eq, Structural)]
pub enum ActionResponseStatus {
    Success,
    Error,
}

/// The single answer to one request.
#[derive(Debug, Clone)]
pub struct ActionResponse {
    /// Generated identifier of this response.
    pub id: String,
    /// The identifier the caller gave in its request.
    pub request_id: String,
    /// Creation instant, in milliseconds since the Unix epoch.
    pub timestamp: i64,
    pub status: ActionResponseStatus,
    /// Echo of the requested action.
    pub action: Action,
    pub data: Option<ActionOutput>,
    pub error: Option<ActionError>,
}

/// How waiting for an action's result ended.
#[derive(Debug)]
pub enum Completion {
    /// The worker delivered the action's result.
    Delivered(Result<ActionOutput, ActionError>),
    /// The delivery path closed before a result came; the text says why.
    Dropped(String),
    /// The deadline passed first.
    TimedOut,
}

/// The data a successful response carries for an output.
pub open spec fn data_of(output: ActionOutput) -> Option<ActionOutput> {
    match output {
        ActionOutput::NoData => None,
        _ => Some(output),
    }
}

/// Whether `r` answers the request `(request_id, action)` with the result of `c`.
pub open spec fn answers(r: ActionResponse, request_id: String, action: Action, c: Completion) -> bool {
    &&& r.request_id == request_id
    &&& r.action == action
    &&& match c {
        Completion::Delivered(Ok(o)) => r.status == ActionResponseStatus::Success && r.data == data_of(o) && r.error is None,
        Completion::Delivered(Err(e)) => r.status == ActionResponseStatus::Error && r.data is None && r.error == Some(e),
        Completion::Dropped(m) => r.status == ActionResponseStatus::Error && r.data is None && r.error == Some(
            ActionError::ChannelError(m),
        ),
        Completion::TimedOut => r.status == ActionResponseStatus::Error && r.data is None && r.error == Some(
            ActionError::Timeout,
        ),
    }
}

impl ActionResponse {
    /// A success response with a fresh identifier and the current time; output that
    /// carries no data is left out.
    pub fn success(request_id: String, action: Action, output: ActionOutput) -> (r: ActionResponse)
        ensures
            answers(r, request_id, action, Completion::Delivered(Ok(output))),
    {
        let data = match output {
            ActionOutput::NoData => None,
            _ => Some(output),
        };
        ActionResponse {
            id: fresh_id(),
            request_id,
            timestamp: now_millis(),
            status: ActionResponseStatus::Success,
            action,
            data,
            error: None,
        }
    }

    /// An error response with a fresh identifier and the current time.
    pub fn error(request_id: String, action: Action, error: ActionError) -> (r: ActionResponse)
        ensures
            answers(r, request_id, action, Completion::Delivered(Err(error))),
    {
        ActionResponse {
            id: fresh_id(),
            request_id,
            timestamp: now_millis(),
            status: ActionResponseStatus::Error,
            action,
            data: None,
            error: Some(error),
        }
    }

    /// The one response to `request`, however waiting for its result ended.
    pub fn for_request(request: ActionRequest, completion: Completion) -> (r: ActionResponse)
        ensures
            answers(r, request.id, request.action, completion),
    {
        match completion {
            Completion::Delivered(Ok(o)) => ActionResponse::success(request.id, request.action, o),
            Completion::Delivered(Err(e)) => ActionResponse::error(request.id, request.action, e),
            Completion::Dropped(m) => ActionResponse::error(request.id, request.action, ActionError::ChannelError(m)),
            Completion::TimedOut => ActionResponse::error(request.id, request.action, ActionError::Timeout),
        }
    }
}

} // verus!
