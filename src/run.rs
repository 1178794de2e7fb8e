//! Per-action handlers as a state machine: each call hands the worker its next step,
//! given the outcome of the previous one.
use vstd::prelude::*;
use vstd::utf8::is_ascii_chars;

use crate::device::{DeviceOp, Direction, InputDriver, MouseButton, Outcome, Step};
use crate::drag::{is_step_count, step_count, step_displacement, step_of};
use crate::keys::{combo_of, Key, KeyPress};
use crate::outside::{base64_encode, base64_of, png_encode, png_of};
use crate::types::{kind_of, Action, ActionError, ActionKind, ActionOutput, TypeTextInput};

verus! {

/// Settle delay before dispatch and between the steps of clicks and key combinations.
pub const ACTION_DELAY_MS: u64 = 500;

/// Delay inside and between the clicks of a double click, and around a drag.
pub const DOUBLE_CLICK_DELAY_MS: u64 = 100;

/// Extra settle delay before a screen capture.
pub const SCREENSHOT_DELAY_MS: u64 = 2000;

/// Pacing between the relative moves of a drag.
pub const DRAG_PACING_MS: u64 = 10;

pub open spec fn button_step(b: MouseButton, d: Direction) -> Step {
    Step::Device(DeviceOp::Button { button: b, direction: d })
}

pub open spec fn key_step(k: Key, d: Direction) -> Step {
    Step::Device(DeviceOp::Key { key: k, direction: d })
}

/// Press, settle, release.
pub open spec fn click_program(b: MouseButton) -> Seq<Step> {
    seq![button_step(b, Direction::Press), Step::Wait(ACTION_DELAY_MS), button_step(b, Direction::Release)]
}

/// One click of a double click, followed by the inter-click delay.
pub open spec fn double_click_half() -> Seq<Step> {
    seq![
        button_step(MouseButton::Left, Direction::Press),
        Step::Wait(DOUBLE_CLICK_DELAY_MS),
        button_step(MouseButton::Left, Direction::Release),
        Step::Wait(DOUBLE_CLICK_DELAY_MS),
    ]
}

/// The second click of a double click.
pub open spec fn second_click_program() -> Seq<Step> {
    seq![
        button_step(MouseButton::Left, Direction::Press),
        Step::Wait(DOUBLE_CLICK_DELAY_MS),
        button_step(MouseButton::Left, Direction::Release),
    ]
}

/// Each modifier pressed in the order written, each followed by the settle delay.
pub open spec fn modifier_presses(mods: Seq<Key>) -> Seq<Step> {
    Seq::new(2 * mods.len(), |j: int| if j % 2 == 0 { key_step(mods[j / 2], Direction::Press) } else { Step::Wait(ACTION_DELAY_MS) })
}

/// Each modifier released in reverse order, each followed by the settle delay.
pub open spec fn modifier_releases(mods: Seq<Key>) -> Seq<Step> {
    Seq::new(
        2 * mods.len(),
        |j: int| if j % 2 == 0 { key_step(mods[mods.len() - 1 - j / 2], Direction::Release) } else { Step::Wait(ACTION_DELAY_MS) },
    )
}

/// A key combination: modifiers down in order, the key down and up, modifiers up in
/// reverse order, with the settle delay after every call.
pub open spec fn key_program(mods: Seq<Key>, k: Key) -> Seq<Step> {
    modifier_presses(mods) + seq![
        key_step(k, Direction::Press),
        Step::Wait(ACTION_DELAY_MS),
        key_step(k, Direction::Release),
        Step::Wait(ACTION_DELAY_MS),
    ] + modifier_releases(mods)
}

/// The relative moves of a drag, each followed by the pacing delay.
pub open spec fn drag_moves(count: nat, step: (i32, i32)) -> Seq<Step> {
    Seq::new(
        2 * count,
        |j: int| if j % 2 == 0 { Step::Device(DeviceOp::MoveBy { dx: step.0, dy: step.1 }) } else { Step::Wait(DRAG_PACING_MS) },
    )
}

/// What ends a drag once the relative moves are done: the absolute move to the target,
/// a delay, and the release.
pub open spec fn drag_finish(target: (i32, i32)) -> Seq<Step> {
    seq![
        Step::Device(DeviceOp::MoveTo { x: target.0, y: target.1 }),
        Step::Wait(DOUBLE_CLICK_DELAY_MS),
        button_step(MouseButton::Left, Direction::Release),
    ]
}

/// The target of a move or drag as device coordinates.
pub open spec fn target_of(x: u32, y: u32) -> (i32, i32) {
    (x as i32, y as i32)
}

/// The drag path from the pointer position `from` to `target` with `n` steps: `n - 1`
/// relative moves, then the finish.
pub open spec fn drag_path(from: (i32, i32), target: (i32, i32), n: int) -> Seq<Step> {
    let s = step_of(target.0 - from.0, target.1 - from.1, n);
    drag_moves((n - 1) as nat, (s.0 as i32, s.1 as i32)) + drag_finish(target)
}

/// The steps an action starts with, or `None` when its input is rejected before the
/// device is touched.
pub open spec fn initial_program(a: Action) -> Option<Seq<Step>> {
    match a {
        Action::LeftClick => Some(click_program(MouseButton::Left)),
        Action::RightClick => Some(click_program(MouseButton::Right)),
        Action::MiddleClick => Some(click_program(MouseButton::Middle)),
        Action::DoubleClick => Some(double_click_half()),
        Action::MouseMove { input } => Some(
            seq![Step::Device(DeviceOp::MoveTo { x: target_of(input.x, input.y).0, y: target_of(input.x, input.y).1 })],
        ),
        Action::LeftClickDrag { .. } => Some(
            seq![button_step(MouseButton::Left, Direction::Press), Step::Wait(DOUBLE_CLICK_DELAY_MS), Step::Device(DeviceOp::Locate)],
        ),
        Action::TypeText { input } => if input.text@.len() == 0 {
            None
        } else {
            Some(seq![Step::Device(DeviceOp::Text { text: input.text })])
        },
        Action::KeyPress { input } => match combo_of(input.key@) {
            None => None,
            Some(c) => Some(key_program(c.0, c.1)),
        },
        Action::Screenshot => Some(seq![Step::Wait(SCREENSHOT_DELAY_MS), Step::Device(DeviceOp::Capture)]),
        Action::CursorPosition => Some(seq![Step::Device(DeviceOp::Locate)]),
    }
}

/// An empty text is rejected before the device is touched: `ActionRun::start` hands
/// out the end of the action, with `InvalidInput`, as its first step.
pub proof fn lemma_empty_text_rejected(input: TypeTextInput)
    requires
        input.text@.len() == 0,
    ensures
        initial_program(Action::TypeText { input }) is None,
        rejection_message(Action::TypeText { input }) == "Text cannot be empty"@,
{
}

/// The message of an input rejected before the device is touched.
pub open spec fn rejection_message(a: Action) -> Seq<char> {
    match a {
        Action::TypeText { .. } => "Text cannot be empty"@,
        Action::KeyPress { input } => "Invalid key format or key not found: "@ + input.key@,
        _ => Seq::empty(),
    }
}

/// A text injection failure, annotated when the text holds characters outside ASCII.
pub open spec fn text_failure_message(text: Seq<char>, m: Seq<char>) -> Seq<char> {
    if is_ascii_chars(text) {
        "Input simulation failed: "@ + m
    } else {
        "Input simulation failed. The text contains non-ASCII characters, which may not be supported by your system. Original error: "@ + m
    }
}

/// The screenshot result for a captured frame: the PNG file in base64, or a failure.
pub open spec fn frame_result(width: u32, height: u32, rgba: Seq<u8>) -> Option<Seq<char>> {
    match png_of(width, height, rgba) {
        Some(p) => if p.len() < 3 * (usize::MAX / 4) {
            Some(base64_of(p))
        } else {
            None
        },
        None => None,
    }
}

/// Encodes a captured frame as PNG and then as base64 text.
pub fn encode_frame(width: u32, height: u32, rgba: Vec<u8>) -> (r: Result<ActionOutput, ActionError>)
    ensures
        frame_result(width, height, rgba@) matches Some(t) ==> (r matches Ok(ActionOutput::Screenshot { image }) && image@ == t),
        frame_result(width, height, rgba@) is None ==> (r matches Err(ActionError::ExecutionFailed(m)) && m@ == "Failed to encode image"@),
{
    let ghost px = rgba@;
    match png_encode(width, height, rgba) {
        Some(p) => {
            if p.len() < 3 * (usize::MAX / 4) {
                Ok(ActionOutput::Screenshot { image: base64_encode(&p) })
            } else {
                Err(ActionError::ExecutionFailed("Failed to encode image".to_owned()))
            }
        },
        None => Err(ActionError::ExecutionFailed("Failed to encode image".to_owned())),
    }
}

/// Builds the failure message of a text injection.
pub fn text_failure(text: &str, m: &str) -> (r: String)
    ensures
        r@ == text_failure_message(text@, m@),
{
    let mut r = if text.is_ascii() {
        "Input simulation failed: ".to_owned()
    } else {
        "Input simulation failed. The text contains non-ASCII characters, which may not be supported by your system. Original error: ".to_owned()
    };
    r.append(m);
    r
}

/// In a key combination the `i`-th modifier goes down before the `i + 1`-th, all of them
/// before the key, and they come up in reverse order after the key.
pub proof fn lemma_key_program_order(mods: Seq<Key>, k: Key, i: int)
    requires
        0 <= i < mods.len(),
    ensures
        key_program(mods, k)[2 * i] == key_step(mods[i], Direction::Press),
        key_program(mods, k)[2 * mods.len() as int] == key_step(k, Direction::Press),
        key_program(mods, k)[2 * mods.len() as int + 2] == key_step(k, Direction::Release),
        key_program(mods, k)[2 * mods.len() + 4 + 2 * i] == key_step(mods[mods.len() - 1 - i], Direction::Release),
        key_program(mods, k).len() == 4 * mods.len() + 4,
{
    let n = mods.len();
    assert(modifier_presses(mods)[2 * i] == key_step(mods[i], Direction::Press)) by {
        assert((2 * i) % 2 == 0 && (2 * i) / 2 == i);
    }
    assert(modifier_releases(mods)[2 * i] == key_step(mods[n - 1 - i], Direction::Release)) by {
        assert((2 * i) % 2 == 0 && (2 * i) / 2 == i);
    }
}

/// Builds the steps of a key combination.
pub fn key_program_of(kp: &KeyPress) -> (r: Vec<Step>)
    ensures
        r@ == key_program(kp.modifiers@, kp.key),
{
    let mods = &kp.modifiers;
    let m = mods.len();
    let mut r: Vec<Step> = Vec::new();
    let mut i: usize = 0;
    while i < m
        invariant
            m == mods@.len(),
            i <= m,
            r@ =~= modifier_presses(mods@.subrange(0, i as int)),
        decreases m - i,
    {
        r.push(Step::Device(DeviceOp::Key { key: mods[i], direction: Direction::Press }));
        r.push(Step::Wait(ACTION_DELAY_MS));
        assert(r@ =~= modifier_presses(mods@.subrange(0, i + 1)));
        i = i + 1;
    }
    assert(mods@.subrange(0, m as int) =~= mods@);
    let ghost presses = r@;
    r.push(Step::Device(DeviceOp::Key { key: kp.key, direction: Direction::Press }));
    r.push(Step::Wait(ACTION_DELAY_MS));
    r.push(Step::Device(DeviceOp::Key { key: kp.key, direction: Direction::Release }));
    r.push(Step::Wait(ACTION_DELAY_MS));
    let ghost middle = r@;
    let mut i: usize = 0;
    while i < m
        invariant
            m == mods@.len(),
            i <= m,
            middle.len() == 2 * m + 4,
            r@ =~= middle + modifier_releases(mods@).subrange(0, 2 * i),
        decreases m - i,
    {
        r.push(Step::Device(DeviceOp::Key { key: mods[m - 1 - i], direction: Direction::Release }));
        r.push(Step::Wait(ACTION_DELAY_MS));
        assert(r@ =~= middle + modifier_releases(mods@).subrange(0, 2 * i + 2));
        i = i + 1;
    }
    assert(modifier_releases(mods@).subrange(0, 2 * m as int) =~= modifier_releases(mods@));
    assert(r@ =~= key_program(kp.modifiers@, kp.key));
    r
}

/// Whether `step` ends the action with `ExecutionFailed` and message `m`.
pub open spec fn fails_with(step: Step, m: Seq<char>) -> bool {
    step matches Step::Finish(Err(ActionError::ExecutionFailed(e))) && e@ == m
}

/// The state of one action in progress.
pub struct ActionRun {
    action: Action,
    /// Planned steps; those before `pc` are handed out.
    program: Vec<Step>,
    pc: usize,
    /// Drag: relative moves still to hand out before the rest of `program`.
    rel_left: u64,
    rel_step: (i32, i32),
    /// Drag: a pacing delay is due before the next relative move.
    wait_next: bool,
    /// Drag: the pointer position was read and the path planned.
    located: bool,
    /// Double click: a call of the current click failed.
    failed: bool,
    /// Double click: the second click is under way.
    second: bool,
    /// Drag: the best-effort release is handed out; this error follows.
    cleanup: Option<ActionError>,
}

/// Whether `old` advanced to `new` by handing out `step`, with `failed` the double-click
/// failure flag after the last outcome: the next planned step, or the end of the action
/// once none is left.
pub open spec fn advances(old: ActionRun, new: ActionRun, step: Step, failed: bool) -> bool {
    &&& new.action_of() == old.action_of()
    &&& new.cleanup() is None
    &&& if old.pending().len() > 0 {
        &&& step == old.pending()[0]
        &&& new.pending() == old.pending().drop_first()
        &&& new.failed() == failed
        &&& new.in_second_click() == old.in_second_click()
        &&& new.located() == old.located()
    } else {
        match old.kind() {
            ActionKind::DoubleClick => if !old.in_second_click() {
                if failed {
                    fails_with(step, "Failed to execute first click"@) && !new.in_second_click()
                } else {
                    &&& step == button_step(MouseButton::Left, Direction::Press)
                    &&& new.in_second_click()
                    &&& !new.failed()
                    &&& new.pending() == second_click_program().drop_first()
                }
            } else if failed {
                fails_with(step, "Failed to execute second click"@)
            } else {
                step == Step::Finish(Ok(ActionOutput::NoData))
            },
            ActionKind::CursorPosition => fails_with(step, "The device reported no data"@),
            ActionKind::Screenshot => fails_with(step, "The device reported no data"@),
            ActionKind::LeftClickDrag => if old.located() {
                step == Step::Finish(Ok(ActionOutput::NoData))
            } else {
                fails_with(step, "The device reported no data"@)
            },
            _ => step == Step::Finish(Ok(ActionOutput::NoData)),
        }
    }
}

proof fn lemma_moves_split(count: nat, s: (i32, i32))
    requires
        count > 0,
    ensures
        drag_moves(count, s)[0] == Step::Device(DeviceOp::MoveBy { dx: s.0, dy: s.1 }),
        drag_moves(count, s).drop_first() == seq![Step::Wait(DRAG_PACING_MS)] + drag_moves((count - 1) as nat, s),
{
    assert(drag_moves(count, s).drop_first() =~= seq![Step::Wait(DRAG_PACING_MS)] + drag_moves((count - 1) as nat, s));
}

/// Hands out a planned step again.
fn planned_copy(s: &Step) -> (r: Step)
    requires
        !(s is Finish),
    ensures
        r == *s,
{
    match s {
        Step::Device(op) => Step::Device(op.duplicate()),
        Step::Wait(ms) => Step::Wait(*ms),
        Step::Finish(_) => Step::Wait(0),
    }
}

fn failure(m: &str) -> (r: Step)
    ensures
        fails_with(r, m@),
{
    Step::Finish(Err(ActionError::ExecutionFailed(m.to_owned())))
}

impl ActionRun {
    /// The action under way.
    pub closed spec fn action_of(&self) -> Action {
        self.action
    }

    pub open spec fn kind(&self) -> ActionKind {
        kind_of(self.action_of())
    }

    /// The steps still to hand out, in order, while nothing fails.
    pub closed spec fn pending(&self) -> Seq<Step> {
        (if self.wait_next { seq![Step::Wait(DRAG_PACING_MS)] } else { Seq::empty() }) + drag_moves(
            self.rel_left as nat,
            self.rel_step,
        ) + self.program@.subrange(self.pc as int, self.program@.len() as int)
    }

    pub closed spec fn failed(&self) -> bool {
        self.failed
    }

    pub closed spec fn in_second_click(&self) -> bool {
        self.second
    }

    pub closed spec fn located(&self) -> bool {
        self.located
    }

    pub closed spec fn cleanup(&self) -> Option<ActionError> {
        self.cleanup
    }

    /// 1 while a later stage (the drag path, the second click) is still to be planned.
    pub open spec fn stage(&self) -> nat {
        if self.cleanup() is Some {
            0
        } else if self.kind() == ActionKind::LeftClickDrag && !self.located() {
            1
        } else if self.kind() == ActionKind::DoubleClick && !self.in_second_click() {
            1
        } else {
            0
        }
    }

    /// Well-formedness of a run that is not over.
    pub closed spec fn wf(&self) -> bool {
        &&& self.pc <= self.program@.len()
        &&& forall|i: int| 0 <= i < self.program@.len() ==> !(#[trigger] self.program@[i] is Finish)
        &&& !self.located ==> self.rel_left == 0 && !self.wait_next
        &&& self.located ==> self.kind() == ActionKind::LeftClickDrag
        &&& self.second ==> self.kind() == ActionKind::DoubleClick
        &&& self.cleanup is Some ==> self.kind() == ActionKind::LeftClickDrag
        &&& self.cleanup matches Some(e) ==> e is ExecutionFailed
        &&& self.failed ==> self.kind() == ActionKind::DoubleClick
        &&& (self.kind() == ActionKind::DoubleClick && !self.second) ==> forall|i: int|
            0 <= i < self.pending().len() ==> #[trigger] self.pending()[i] != button_step(MouseButton::Left, Direction::Press)
    }

    /// Hands out the next planned step, or ends the action when none is left.
    fn advance(&mut self, failed: bool) -> (step: Step)
        requires
            old(self).wf(),
            old(self).cleanup is None,
            old(self).kind() != ActionKind::DoubleClick ==> !failed,
        ensures
            final(self).wf(),
            advances(*old(self), *final(self), step, failed),
            step matches Step::Finish(Err(e)) ==> e is ExecutionFailed,
            step is Finish || final(self).stage() < old(self).stage() || (final(self).stage() == old(self).stage()
                && final(self).pending().len() < old(self).pending().len()),
    {
        self.failed = failed;
        let ghost before = self.pending();
        if self.wait_next {
            self.wait_next = false;
            assert(self.pending() =~= before.drop_first());
            return Step::Wait(DRAG_PACING_MS);
        }
        if self.rel_left > 0 {
            proof {
                lemma_moves_split(self.rel_left as nat, self.rel_step);
            }
            self.rel_left = self.rel_left - 1;
            self.wait_next = true;
            assert(self.pending() =~= before.drop_first());
            return Step::Device(DeviceOp::MoveBy { dx: self.rel_step.0, dy: self.rel_step.1 });
        }
        if self.pc < self.program.len() {
            let s = planned_copy(&self.program[self.pc]);
            self.pc = self.pc + 1;
            assert(self.pending() =~= before.drop_first());
            return s;
        }
        assert(before.len() == 0);
        match self.action.kind() {
            ActionKind::DoubleClick => {
                if !self.second {
                    if self.failed {
                        failure("Failed to execute first click")
                    } else {
                        self.second = true;
                        self.program = vec![
                            Step::Device(DeviceOp::Button { button: MouseButton::Left, direction: Direction::Press }),
                            Step::Wait(DOUBLE_CLICK_DELAY_MS),
                            Step::Device(DeviceOp::Button { button: MouseButton::Left, direction: Direction::Release }),
                        ];
                        self.pc = 1;
                        assert(self.pending() =~= second_click_program().drop_first());
                        Step::Device(DeviceOp::Button { button: MouseButton::Left, direction: Direction::Press })
                    }
                } else if self.failed {
                    failure("Failed to execute second click")
                } else {
                    Step::Finish(Ok(ActionOutput::NoData))
                }
            },
            ActionKind::CursorPosition => failure("The device reported no data"),
            ActionKind::Screenshot => failure("The device reported no data"),
            ActionKind::LeftClickDrag => {
                if self.located {
                    Step::Finish(Ok(ActionOutput::NoData))
                } else {
                    failure("The device reported no data")
                }
            },
            _ => Step::Finish(Ok(ActionOutput::NoData)),
        }
    }
}

/// The text of a text action.
pub open spec fn text_of(a: Action) -> Seq<char> {
    match a {
        Action::TypeText { input } => input.text@,
        _ => Seq::empty(),
    }
}

/// The target of a move or drag action, as device coordinates.
pub open spec fn target_of_action(a: Action) -> (i32, i32) {
    match a {
        Action::MouseMove { input } => target_of(input.x, input.y),
        Action::LeftClickDrag { input } => target_of(input.x, input.y),
        _ => (0i32, 0i32),
    }
}

fn button_steps(b: MouseButton) -> (r: Vec<Step>)
    ensures
        r@ == click_program(b),
{
    let r = vec![
        Step::Device(DeviceOp::Button { button: b, direction: Direction::Press }),
        Step::Wait(ACTION_DELAY_MS),
        Step::Device(DeviceOp::Button { button: b, direction: Direction::Release }),
    ];
    assert(r@ =~= click_program(b));
    r
}

/// The steps an action starts with, or the message that rejects its input.
fn initial_program_of(action: &Action) -> (r: Result<Vec<Step>, String>)
    ensures
        initial_program(*action) matches Some(p) ==> (r matches Ok(v) && v@ == p),
        initial_program(*action) is None ==> (r matches Err(m) && m@ == rejection_message(*action)),
{
    match action {
        Action::LeftClick => Ok(button_steps(MouseButton::Left)),
        Action::RightClick => Ok(button_steps(MouseButton::Right)),
        Action::MiddleClick => Ok(button_steps(MouseButton::Middle)),
        Action::DoubleClick => {
            let v = vec![
                Step::Device(DeviceOp::Button { button: MouseButton::Left, direction: Direction::Press }),
                Step::Wait(DOUBLE_CLICK_DELAY_MS),
                Step::Device(DeviceOp::Button { button: MouseButton::Left, direction: Direction::Release }),
                Step::Wait(DOUBLE_CLICK_DELAY_MS),
            ];
            assert(v@ =~= double_click_half());
            Ok(v)
        },
        Action::MouseMove { input } => {
            let v = vec![Step::Device(DeviceOp::MoveTo { x: #[verifier::truncate] (input.x as i32), y: #[verifier::truncate] (input.y as i32) })];
            assert(v@ =~= initial_program(*action)->Some_0);
            Ok(v)
        },
        Action::LeftClickDrag { .. } => {
            let v = vec![
                Step::Device(DeviceOp::Button { button: MouseButton::Left, direction: Direction::Press }),
                Step::Wait(DOUBLE_CLICK_DELAY_MS),
                Step::Device(DeviceOp::Locate),
            ];
            assert(v@ =~= initial_program(*action)->Some_0);
            Ok(v)
        },
        Action::TypeText { input } => {
            if input.text.as_str().unicode_len() == 0 {
                Err("Text cannot be empty".to_owned())
            } else {
                let v = vec![Step::Device(DeviceOp::Text { text: input.text.clone() })];
                assert(v@ =~= initial_program(*action)->Some_0);
                Ok(v)
            }
        },
        Action::KeyPress { input } => {
            match KeyPress::parse(input.key.as_str()) {
                Ok(kp) => Ok(key_program_of(&kp)),
                Err(_) => {
                    let mut m = "Invalid key format or key not found: ".to_owned();
                    m.append(input.key.as_str());
                    Err(m)
                },
            }
        },
        Action::Screenshot => {
            let v = vec![Step::Wait(SCREENSHOT_DELAY_MS), Step::Device(DeviceOp::Capture)];
            assert(v@ =~= initial_program(*action)->Some_0);
            Ok(v)
        },
        Action::CursorPosition => {
            let v = vec![Step::Device(DeviceOp::Locate)];
            assert(v@ =~= initial_program(*action)->Some_0);
            Ok(v)
        },
    }
}

impl ActionRun {
    /// Starts an action: its first step, or its end when the input is rejected before
    /// the device is touched.
    pub fn start(action: Action) -> (r: (ActionRun, Step))
        ensures
            initial_program(action) is None ==> (r.1 matches Step::Finish(Err(ActionError::InvalidInput(m)))
                && m@ == rejection_message(action)),
            initial_program(action) matches Some(p) ==> {
                &&& r.1 == p[0]
                &&& r.0.wf()
                &&& r.0.pending() == p.drop_first()
                &&& r.0.action_of() == action
                &&& !r.0.failed()
                &&& !r.0.in_second_click()
                &&& !r.0.located()
                &&& r.0.cleanup() is None
            },
    {
        let (program, step, pc) = match initial_program_of(&action) {
            Ok(v) => {
                assert(v@.len() > 0) by {
                    if let Action::KeyPress { input } = action {
                        let c = combo_of(input.key@)->Some_0;
                        assert(key_program(c.0, c.1).len() >= 4);
                    }
                }
                let s = planned_copy(&v[0]);
                (v, s, 1)
            },
            Err(m) => (Vec::new(), Step::Finish(Err(ActionError::InvalidInput(m))), 0),
        };
        let run = ActionRun {
            action,
            program,
            pc,
            rel_left: 0,
            rel_step: (0, 0),
            wait_next: false,
            located: false,
            failed: false,
            second: false,
            cleanup: None,
        };
        proof {
            if let Some(p) = initial_program(action) {
                assert(run.pending() =~= p.drop_first());
                assert forall|i: int| 0 <= i < run.program@.len() implies !(#[trigger] run.program@[i] is Finish) by {
                    if let Action::KeyPress { input } = action {
                        let c = combo_of(input.key@)->Some_0;
                        let kp = key_program(c.0, c.1);
                        if i < 2 * c.0.len() {
                            assert(kp[i] == modifier_presses(c.0)[i]);
                        } else if i < 2 * c.0.len() + 4 {
                        } else {
                            assert(kp[i] == modifier_releases(c.0)[i - 2 * c.0.len() - 4]);
                        }
                    }
                }
            }
        }
        (run, step)
    }

    /// Hands out the next step, given the outcome of the previous one.
    pub fn resume(&mut self, outcome: Outcome) -> (step: Step)
        requires
            old(self).wf(),
        ensures
            final(self).wf() || step is Finish,
            final(self).action_of() == old(self).action_of(),
            step is Finish || final(self).stage() < old(self).stage() || (final(self).stage() == old(self).stage()
                && final(self).pending().len() < old(self).pending().len()),
            step matches Step::Finish(Err(e)) ==> e is ExecutionFailed,
            old(self).cleanup() matches Some(e) ==> step == Step::Finish(Err(e)),
            old(self).kind() == ActionKind::DoubleClick && !old(self).in_second_click() && (old(self).failed()
                || outcome is Failed) ==> !final(self).in_second_click() && step != button_step(
                MouseButton::Left,
                Direction::Press,
            ),
            old(self).cleanup() is None ==> match outcome {
                Outcome::Failed(m) => match old(self).kind() {
                    ActionKind::DoubleClick => advances(*old(self), *final(self), step, true),
                    ActionKind::TypeText => fails_with(step, text_failure_message(text_of(old(self).action_of()), m@)),
                    ActionKind::LeftClickDrag => if (!old(self).located() && old(self).pending().len() == 2) || (
                    old(self).located() && old(self).pending().len() == 0) {
                        fails_with(step, m@)
                    } else {
                        step == button_step(MouseButton::Left, Direction::Release) && final(self).cleanup() == Some(
                            ActionError::ExecutionFailed(m),
                        )
                    },
                    _ => fails_with(step, m@),
                },
                Outcome::Position { x, y } => if old(self).kind() == ActionKind::CursorPosition {
                    step == Step::Finish(Ok(ActionOutput::CursorPosition { x: x as u32, y: y as u32 }))
                } else if old(self).kind() == ActionKind::LeftClickDrag && !old(self).located() && old(
                    self,
                ).pending().len() == 0 {
                    &&& final(self).located()
                    &&& exists|n: int|
                        is_step_count(
                            n,
                            target_of_action(old(self).action_of()).0 - x,
                            target_of_action(old(self).action_of()).1 - y,
                        ) && step == (#[trigger] drag_path((x, y), target_of_action(old(self).action_of()), n))[0]
                            && final(self).pending() == drag_path((x, y), target_of_action(old(self).action_of()), n).drop_first()
                } else {
                    advances(*old(self), *final(self), step, old(self).failed())
                },
                Outcome::Frame { width, height, rgba } => if old(self).kind() == ActionKind::Screenshot {
                    &&& frame_result(width, height, rgba@) matches Some(t) ==> (step matches Step::Finish(
                        Ok(ActionOutput::Screenshot { image }),
                    ) && image@ == t)
                    &&& frame_result(width, height, rgba@) is None ==> fails_with(step, "Failed to encode image"@)
                } else {
                    advances(*old(self), *final(self), step, old(self).failed())
                },
                Outcome::Done => if old(self).kind() == ActionKind::LeftClickDrag && !old(self).located() && old(
                    self,
                ).pending().len() == 0 {
                    step == button_step(MouseButton::Left, Direction::Release) && (final(self).cleanup() matches Some(
                        ActionError::ExecutionFailed(e),
                    ) && e@ == "The device reported no position"@)
                } else {
                    advances(*old(self), *final(self), step, old(self).failed())
                },
            },
    {
        if let Some(e) = &self.cleanup {
            return Step::Finish(Err(e.duplicate()));
        }
        let kind = self.action.kind();
        let rest = self.program.len() - self.pc;
        let none_left = !self.wait_next && self.rel_left == 0 && rest == 0;
        proof {
            if none_left {
                assert(self.pending().len() == 0);
            }
            if !self.located {
                assert(self.pending().len() == rest);
            }
            if self.pending().len() == 0 {
                assert(none_left);
            }
        }
        match outcome {
            Outcome::Failed(m) => match kind {
                ActionKind::DoubleClick => self.advance(true),
                ActionKind::TypeText => match &self.action {
                    Action::TypeText { input } => Step::Finish(
                        Err(ActionError::ExecutionFailed(text_failure(input.text.as_str(), m.as_str()))),
                    ),
                    _ => Step::Finish(Err(ActionError::ExecutionFailed(m))),
                },
                ActionKind::LeftClickDrag => {
                    if (!self.located && rest == 2) || (self.located && none_left) {
                        Step::Finish(Err(ActionError::ExecutionFailed(m)))
                    } else {
                        self.release_after(ActionError::ExecutionFailed(m))
                    }
                },
                _ => Step::Finish(Err(ActionError::ExecutionFailed(m))),
            },
            Outcome::Position { x, y } => {
                if kind == ActionKind::CursorPosition {
                    Step::Finish(Ok(ActionOutput::CursorPosition { x: #[verifier::truncate] (x as u32), y: #[verifier::truncate] (y as u32) }))
                } else if kind == ActionKind::LeftClickDrag && !self.located && none_left {
                    self.plan_path(x, y)
                } else {
                    let f = self.failed;
                    self.advance(f)
                }
            },
            Outcome::Frame { width, height, rgba } => {
                if kind == ActionKind::Screenshot {
                    match encode_frame(width, height, rgba) {
                        Ok(o) => Step::Finish(Ok(o)),
                        Err(e) => Step::Finish(Err(e)),
                    }
                } else {
                    let f = self.failed;
                    self.advance(f)
                }
            },
            Outcome::Done => {
                if kind == ActionKind::LeftClickDrag && !self.located && none_left {
                    self.release_after(ActionError::ExecutionFailed("The device reported no position".to_owned()))
                } else {
                    let f = self.failed;
                    self.advance(f)
                }
            },
        }
    }

    /// Drops what is left of a drag and hands out the best-effort release; `e` follows.
    fn release_after(&mut self, e: ActionError) -> (step: Step)
        requires
            old(self).wf(),
            old(self).kind() == ActionKind::LeftClickDrag,
            e is ExecutionFailed,
        ensures
            final(self).wf(),
            final(self).action_of() == old(self).action_of(),
            final(self).cleanup() == Some(e),
            final(self).pending().len() == 0,

            step == button_step(MouseButton::Left, Direction::Release),
    {
        self.cleanup = Some(e);
        self.pc = self.program.len();
        self.rel_left = 0;
        self.wait_next = false;
        assert(self.pending() =~= Seq::<Step>::empty());
        Step::Device(DeviceOp::Button { button: MouseButton::Left, direction: Direction::Release })
    }

    /// Plans the drag path from the pointer position `(x, y)` and hands out its first step.
    fn plan_path(&mut self, x: i32, y: i32) -> (step: Step)
        requires
            old(self).wf(),
            old(self).cleanup is None,
            old(self).kind() == ActionKind::LeftClickDrag,
            !old(self).located(),
        ensures
            final(self).wf(),
            final(self).action_of() == old(self).action_of(),
            final(self).located(),
            final(self).cleanup() is None,
            exists|n: int|
                is_step_count(n, target_of_action(old(self).action_of()).0 - x, target_of_action(old(self).action_of()).1 - y)
                    && step == (#[trigger] drag_path((x, y), target_of_action(old(self).action_of()), n))[0]
                    && final(self).pending() == drag_path((x, y), target_of_action(old(self).action_of()), n).drop_first(),
    {
        let target = match &self.action {
            Action::LeftClickDrag { input } => (#[verifier::truncate] (input.x as i32), #[verifier::truncate] (input.y as i32)),
            _ => (0, 0),
        };
        let dx = target.0 as i64 - x as i64;
        let dy = target.1 as i64 - y as i64;
        let n = step_count(dx, dy);
        let s = step_displacement(dx, dy, n);
        self.rel_left = n - 1;
        self.rel_step = s;
        self.wait_next = false;
        self.program = vec![
            Step::Device(DeviceOp::MoveTo { x: target.0, y: target.1 }),
            Step::Wait(DOUBLE_CLICK_DELAY_MS),
            Step::Device(DeviceOp::Button { button: MouseButton::Left, direction: Direction::Release }),
        ];
        self.pc = 0;
        self.located = true;
        let ghost path = drag_path((x, y), target, n as int);
        assert(self.pending() =~= path);
        let step = self.advance(false);
        assert(target == target_of_action(self.action));
        assert(is_step_count(n as int, target.0 - x, target.1 - y));
        assert(step == path[0]);
        assert(self.pending() == path.drop_first());
        step
    }
}

/// Runs an action to its end on `device`, handing it each call and pause in turn.
pub fn drive<D: InputDriver>(device: &mut D, action: Action) -> (r: Result<ActionOutput, ActionError>)
    ensures
        initial_program(action) is None ==> (r matches Err(ActionError::InvalidInput(m)) && m@ == rejection_message(action)),
        initial_program(action) is Some ==> (r matches Err(e) ==> e is ExecutionFailed),
{
    let ghost requested = action;
    let (mut run, mut step) = ActionRun::start(action);
    if let Step::Finish(r) = step {
        return r;
    }
    assert(initial_program(requested) is Some);
    loop
        invariant
            requested == action,
            initial_program(requested) is Some,
            run.wf(),
            !(step is Finish),
        decreases run.stage(), run.pending().len(),
    {
        let outcome = match step {
            Step::Device(op) => device.perform(&op),
            Step::Wait(ms) => {
                device.pause(ms);
                Outcome::Done
            },
            Step::Finish(r) => return r,
        };
        step = run.resume(outcome);
        if let Step::Finish(r) = step {
            return r;
        }
    }
}

/// What the worker does with a dequeued action: the settle delay, then the action.
pub fn serve<D: InputDriver>(device: &mut D, action: Action) -> (r: Result<ActionOutput, ActionError>)
    ensures
        initial_program(action) is None ==> (r matches Err(ActionError::InvalidInput(m)) && m@ == rejection_message(action)),
        initial_program(action) is Some ==> (r matches Err(e) ==> e is ExecutionFailed),
{
    device.pause(ACTION_DELAY_MS);
    drive(device, action)
}

} // verus!
