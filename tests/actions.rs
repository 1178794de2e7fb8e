use valk::device::{DeviceOp, Direction, MockDevice, MouseButton};
use valk::keys::Key;
use valk::queue::ActionQueue;
use valk::run::serve;
use valk::types::{
    Action, ActionError, ActionKind, ActionOutput, ActionRequest, ActionResponse, ActionResponseStatus, Completion,
    KeyPressInput, MouseMoveInput, TypeTextInput,
};

/// Admits the request, lets the worker take it and run it on the mock, and answers it.
fn execute(device: &mut MockDevice, request: ActionRequest) -> ActionResponse {
    let mut queue: ActionQueue<()> = ActionQueue::new();
    queue.queue_action(request.action.clone(), ());
    let (action, ()) = queue.take_next().unwrap();
    let result = serve(device, action);
    ActionResponse::for_request(request, Completion::Delivered(result))
}

fn request(id: &str, action: Action) -> ActionRequest {
    ActionRequest { id: id.to_string(), action }
}

fn text_action(text: &str) -> Action {
    Action::TypeText { input: TypeTextInput { text: text.to_string() } }
}

fn key_action(key: &str) -> Action {
    Action::KeyPress { input: KeyPressInput { key: key.to_string() } }
}

#[test]
fn action_queue_test_mouse_move() {
    let mut device = MockDevice::new();
    let result = execute(
        &mut device,
        request("test_mouse_move", Action::MouseMove { input: MouseMoveInput { x: 100, y: 200 } }),
    );
    assert!(matches!(result.status, ActionResponseStatus::Success));
    assert_eq!(device.mouse_pos, (100, 200));
    assert!(matches!(device.last_op, Some(DeviceOp::MoveTo { x: 100, y: 200 })));
}

#[test]
fn action_queue_test_left_click() {
    let mut device = MockDevice::new();
    let result = execute(&mut device, request("test_left_click", Action::LeftClick));
    assert!(matches!(result.status, ActionResponseStatus::Success));
    assert!(matches!(device.last_op, Some(DeviceOp::Button { button: MouseButton::Left, .. })));
}

#[test]
fn action_queue_test_type_text() {
    let mut device = MockDevice::new();
    let test_texts = ["Hello, World!", "1234567890", "Special chars: !@#$%^&*()"];
    for text in test_texts {
        let response = execute(&mut device, request("test_type_text", text_action(text)));
        match response.status {
            ActionResponseStatus::Success => match &device.last_op {
                Some(DeviceOp::Text { text: typed }) => {
                    assert_eq!(typed, text, "Failed to verify text input for: {}", text)
                }
                other => panic!("Failed to verify text input for: {} ({:?})", text, other),
            },
            ActionResponseStatus::Error => {
                panic!("Failed to type text '{}': {:?}", text, response.error);
            }
        }
    }
}

#[test]
fn test_type_unicode() {
    let mut device = MockDevice::new();
    let test_texts = [
        "Unicode: ñáéíóú",
        "Emojis: 😊🚀🌟",
        "Cyrillic: Привет, мир!",
        "Japanese: こんにちは世界",
        "Korean: 안녕하세요 세계",
        "Arabic: مرحبا بالعالم",
        "Hebrew: שלום עולם",
        "Greek: Γειά σου κόσμε",
        "Turkish: Merhaba dünya",
        "Vietnamese: Chào thế giới",
        "Thai: สวัสดีโลก",
        "Russian: Привет, мир!",
        "Chinese: 你好，世界",
    ];
    for text in test_texts {
        let response = execute(&mut device, request("test_type_unicode", text_action(text)));
        match response.status {
            ActionResponseStatus::Success => match &device.last_op {
                Some(DeviceOp::Text { text: typed }) => {
                    assert_eq!(typed, text, "Failed to verify text input for: {}", text)
                }
                other => panic!("Failed to verify text input for: {} ({:?})", text, other),
            },
            ActionResponseStatus::Error => {
                panic!("Failed to type text '{}': {:?}", text, response.error);
            }
        }
    }
}

#[test]
fn test_type_text_empty() {
    let mut device = MockDevice::new();
    let response = execute(&mut device, request("test_type_text_empty", text_action("")));
    assert!(matches!(response.status, ActionResponseStatus::Error));
    assert!(matches!(&response.error, Some(ActionError::InvalidInput(m)) if m == "Text cannot be empty"));
    assert!(device.log.is_empty());
    assert_eq!(device.calls, 0);
}

#[test]
fn action_queue_test_key_press() {
    let mut device = MockDevice::new();
    let response = execute(&mut device, request("test_key_press", key_action("ctrl+c")));
    assert!(matches!(response.status, ActionResponseStatus::Success));
    assert!(matches!(
        device.last_op,
        Some(DeviceOp::Key { key: Key::Control, direction: Direction::Release })
    ));
}

fn key_log(device: &MockDevice) -> Vec<(Key, Direction)> {
    device
        .log
        .iter()
        .map(|op| match op {
            DeviceOp::Key { key, direction } => (*key, *direction),
            other => panic!("unexpected call {:?}", other),
        })
        .collect()
}

#[test]
fn key_combo_presses_in_order_and_releases_in_reverse() {
    let mut device = MockDevice::new();
    let response = execute(&mut device, request("combo", key_action("ctrl+c")));
    assert!(matches!(response.status, ActionResponseStatus::Success));
    assert_eq!(
        key_log(&device),
        vec![
            (Key::Control, Direction::Press),
            (Key::Unicode('c'), Direction::Press),
            (Key::Unicode('c'), Direction::Release),
            (Key::Control, Direction::Release),
        ]
    );

    let mut device = MockDevice::new();
    let response = execute(&mut device, request("combo", key_action("ctrl+alt+shift+a")));
    assert!(matches!(response.status, ActionResponseStatus::Success));
    assert_eq!(
        key_log(&device),
        vec![
            (Key::Control, Direction::Press),
            (Key::Alt, Direction::Press),
            (Key::Shift, Direction::Press),
            (Key::Unicode('a'), Direction::Press),
            (Key::Unicode('a'), Direction::Release),
            (Key::Shift, Direction::Release),
            (Key::Alt, Direction::Release),
            (Key::Control, Direction::Release),
        ]
    );
    // the settle delay before dispatch, then one after each of the eight calls
    assert_eq!(device.paused_millis, 500 * 9);
}

#[test]
fn key_combo_failure_stops_remaining_steps() {
    let mut device = MockDevice::failing_from(1);
    let response = execute(&mut device, request("combo", key_action("ctrl+alt+a")));
    assert!(matches!(&response.error, Some(ActionError::ExecutionFailed(m)) if m == "mock device failure"));
    assert_eq!(device.calls, 2);
}

#[test]
fn unparsable_key_combo_is_invalid_input() {
    let mut device = MockDevice::new();
    let response = execute(&mut device, request("bad", key_action("ctrl+invalid")));
    assert!(matches!(
        &response.error,
        Some(ActionError::InvalidInput(m)) if m == "Invalid key format or key not found: ctrl+invalid"
    ));
    assert_eq!(device.calls, 0);
}

#[test]
fn action_queue_test_cursor_position() {
    let mut device = MockDevice::new();
    let _ = execute(
        &mut device,
        request("test_cursor_position", Action::MouseMove { input: MouseMoveInput { x: 150, y: 250 } }),
    );
    let response = execute(&mut device, request("test_cursor_position", Action::CursorPosition));
    assert!(matches!(response.status, ActionResponseStatus::Success));
    if let Some(ActionOutput::CursorPosition { x, y }) = response.data {
        assert_eq!(x, 150);
        assert_eq!(y, 250);
    } else {
        panic!("Expected cursor position data");
    }
}

#[test]
fn move_then_cursor_position_reports_target() {
    let mut device = MockDevice::new();
    let _ = execute(&mut device, request("m", Action::MouseMove { input: MouseMoveInput { x: 100, y: 200 } }));
    let response = execute(&mut device, request("c", Action::CursorPosition));
    assert!(matches!(response.data, Some(ActionOutput::CursorPosition { x: 100, y: 200 })));
}

#[test]
fn action_queue_test_double_click() {
    let mut device = MockDevice::new();
    let response = execute(&mut device, request("test_double_click", Action::DoubleClick));
    assert!(matches!(response.status, ActionResponseStatus::Success));
    assert!(matches!(
        device.last_op,
        Some(DeviceOp::Button { button: MouseButton::Left, direction: Direction::Release })
    ));
    assert_eq!(device.calls, 4);
}

#[test]
fn double_click_first_failure_skips_second_click() {
    let mut device = MockDevice::failing_from(0);
    let response = execute(&mut device, request("dc", Action::DoubleClick));
    assert!(matches!(
        &response.error,
        Some(ActionError::ExecutionFailed(m)) if m == "Failed to execute first click"
    ));
    assert_eq!(device.log.len(), 2);
    assert!(matches!(device.log[0], DeviceOp::Button { button: MouseButton::Left, direction: Direction::Press }));
    assert!(matches!(device.log[1], DeviceOp::Button { button: MouseButton::Left, direction: Direction::Release }));
}

#[test]
fn double_click_second_failure_is_reported() {
    let mut device = MockDevice::failing_from(2);
    let response = execute(&mut device, request("dc", Action::DoubleClick));
    assert!(matches!(
        &response.error,
        Some(ActionError::ExecutionFailed(m)) if m == "Failed to execute second click"
    ));
    assert_eq!(device.calls, 4);
}

#[test]
fn action_queue_test_left_click_drag() {
    let mut device = MockDevice::new();
    let response = execute(
        &mut device,
        request("test_left_click_drag", Action::LeftClickDrag { input: MouseMoveInput { x: 300, y: 400 } }),
    );
    assert!(matches!(response.status, ActionResponseStatus::Success));
    assert_eq!(device.mouse_pos, (300, 400));
    assert!(matches!(
        device.last_op,
        Some(DeviceOp::Button { button: MouseButton::Left, direction: Direction::Release })
    ));
}

#[test]
fn drag_moves_in_ten_pixel_steps_then_lands_exactly() {
    let mut device = MockDevice::new();
    let response = execute(&mut device, request("d", Action::LeftClickDrag { input: MouseMoveInput { x: 100, y: 0 } }));
    assert!(matches!(response.status, ActionResponseStatus::Success));
    let log = &device.log;
    assert_eq!(log.len(), 13);
    assert!(matches!(log[0], DeviceOp::Button { button: MouseButton::Left, direction: Direction::Press }));
    assert!(matches!(log[1], DeviceOp::Locate));
    for op in &log[2..11] {
        assert!(matches!(op, DeviceOp::MoveBy { dx: 10, dy: 0 }));
    }
    assert!(matches!(log[11], DeviceOp::MoveTo { x: 100, y: 0 }));
    assert!(matches!(log[12], DeviceOp::Button { button: MouseButton::Left, direction: Direction::Release }));
    assert_eq!(device.mouse_pos, (100, 0));
}

#[test]
fn drag_move_failure_releases_button() {
    let mut device = MockDevice::failing_from(2);
    let response = execute(&mut device, request("d", Action::LeftClickDrag { input: MouseMoveInput { x: 100, y: 0 } }));
    assert!(matches!(&response.error, Some(ActionError::ExecutionFailed(m)) if m == "mock device failure"));
    assert_eq!(device.log.len(), 4);
    assert!(matches!(device.log[3], DeviceOp::Button { button: MouseButton::Left, direction: Direction::Release }));
}

#[test]
fn drag_press_failure_stops_at_once() {
    let mut device = MockDevice::failing_from(0);
    let response = execute(&mut device, request("d", Action::LeftClickDrag { input: MouseMoveInput { x: 5, y: 5 } }));
    assert!(matches!(response.error, Some(ActionError::ExecutionFailed(_))));
    assert_eq!(device.calls, 1);
}

#[test]
fn click_press_failure_skips_release() {
    let mut device = MockDevice::failing_from(0);
    let response = execute(&mut device, request("c", Action::RightClick));
    assert!(matches!(response.error, Some(ActionError::ExecutionFailed(_))));
    assert_eq!(device.calls, 1);
}

#[test]
fn text_failure_is_annotated_for_non_ascii() {
    let mut device = MockDevice::failing_from(0);
    let response = execute(&mut device, request("t", text_action("ñ")));
    assert!(matches!(&response.error, Some(ActionError::ExecutionFailed(m))
        if m.starts_with("Input simulation failed. The text contains non-ASCII") && m.ends_with("mock device failure")));
    let mut device = MockDevice::failing_from(0);
    let response = execute(&mut device, request("t", text_action("abc")));
    assert!(matches!(&response.error, Some(ActionError::ExecutionFailed(m))
        if m == "Input simulation failed: mock device failure"));
}

#[test]
fn screenshot_is_png_in_base64() {
    let mut device = MockDevice::new();
    let response = execute(&mut device, request("s", Action::Screenshot));
    assert!(matches!(response.status, ActionResponseStatus::Success));
    match response.data {
        Some(ActionOutput::Screenshot { image }) => {
            assert!(image.starts_with("iVBORw0KGgo"));
            assert_eq!(image.len() % 4, 0);
        }
        other => panic!("expected a screenshot, got {:?}", other),
    }
    assert_eq!(device.paused_millis, 500 + 2000);
}

#[test]
fn response_echoes_request_for_every_completion() {
    let req = request("r1", Action::LeftClick);
    let ok = ActionResponse::for_request(req.clone(), Completion::Delivered(Ok(ActionOutput::NoData)));
    assert_eq!(ok.request_id, "r1");
    assert!(matches!(ok.status, ActionResponseStatus::Success));
    assert!(ok.data.is_none() && ok.error.is_none());
    let timed_out = ActionResponse::for_request(req.clone(), Completion::TimedOut);
    assert_eq!(timed_out.request_id, "r1");
    assert!(matches!(timed_out.error, Some(ActionError::Timeout)));
    let dropped = ActionResponse::for_request(req, Completion::Dropped("gone".to_string()));
    assert!(matches!(&dropped.error, Some(ActionError::ChannelError(m)) if m == "gone"));
    assert_ne!(ok.id, timed_out.id);
    assert_eq!(ok.id.len(), 36);
}

#[test]
fn error_messages_and_kinds() {
    assert_eq!(ActionError::Timeout.kind_name(), "timeout");
    assert_eq!(ActionError::Timeout.message(), "Action timed out");
    assert_eq!(ActionError::InvalidInput("x".to_string()).kind_name(), "invalid_input");
    assert_eq!(ActionError::ChannelError("y".to_string()).message(), "y");
    assert_eq!(Action::MouseMove { input: MouseMoveInput { x: 1, y: 2 } }.kind(), ActionKind::MouseMove);
}

#[test]
fn queue_serves_most_recent_first_and_prunes_by_kind() {
    let mut queue: ActionQueue<u32> = ActionQueue::new();
    queue.queue_action(Action::LeftClick, 1);
    queue.queue_action(Action::MouseMove { input: MouseMoveInput { x: 1, y: 1 } }, 2);
    queue.queue_action(Action::LeftClick, 3);
    queue.queue_action(Action::Screenshot, 4);
    assert_eq!(queue.len(), 4);
    assert_eq!(queue.prune_kind(ActionKind::LeftClick), 2);
    assert_eq!(queue.len(), 2);
    assert!(matches!(queue.take_next(), Some((Action::Screenshot, 4))));
    assert!(matches!(queue.take_next(), Some((Action::MouseMove { .. }, 2))));
    assert!(queue.take_next().is_none());
}
