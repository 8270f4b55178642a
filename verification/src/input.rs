//! What the plain keys mean while the canvas has the keyboard: Escape and
//! Enter act on whichever gesture is live, in a fixed order, and the arrow
//! keys nudge the active layer. While text is being typed, the editing keys
//! step through it instead.

use vstd::prelude::*;

verus! {

/// What Escape abandons.
#[derive(Debug, Clone, Copy, PartialEq, Eq, Structural)]
pub enum EscapeAction {
    CancelTransform,
    CancelCrop,
    CancelPath,
    CancelDrag,
}

/// What Enter applies.
#[derive(Debug, Clone, Copy, PartialEq, Eq, Structural)]
pub enum EnterAction {
    /// End the Pen path where it is, leaving it open.
    FinishOpenPath,
    CommitTransform,
    CommitCrop,
    CloseDrag,
}

/// Escape abandons a transform first, then a crop, then a Pen path, and
/// otherwise any selection gesture.
pub fn escape_action(transforming: bool, cropping: bool, drawing_path: bool) -> (a: EscapeAction)
    ensures
        a == if transforming {
            EscapeAction::CancelTransform
        } else if cropping {
            EscapeAction::CancelCrop
        } else if drawing_path {
            EscapeAction::CancelPath
        } else {
            EscapeAction::CancelDrag
        },
{
    if transforming {
        EscapeAction::CancelTransform
    } else if cropping {
        EscapeAction::CancelCrop
    } else if drawing_path {
        EscapeAction::CancelPath
    } else {
        EscapeAction::CancelDrag
    }
}

/// Enter ends a Pen path first, then applies a transform, then a crop, and
/// otherwise closes a polygonal selection.
pub fn enter_action(drawing_path: bool, transforming: bool, cropping: bool) -> (a: EnterAction)
    ensures
        a == if drawing_path {
            EnterAction::FinishOpenPath
        } else if transforming {
            EnterAction::CommitTransform
        } else if cropping {
            EnterAction::CommitCrop
        } else {
            EnterAction::CloseDrag
        },
{
    if drawing_path {
        EnterAction::FinishOpenPath
    } else if transforming {
        EnterAction::CommitTransform
    } else if cropping {
        EnterAction::CommitCrop
    } else {
        EnterAction::CloseDrag
    }
}

/// The arrow keys.
#[derive(Debug, Clone, Copy, PartialEq, Eq, Structural)]
pub enum Arrow {
    Left,
    Right,
    Up,
    Down,
}

/// How far an arrow key nudges the active layer: one pixel, ten with Shift.
pub fn nudge(arrow: Arrow, shift: bool) -> (d: (i32, i32))
    ensures
        ({
            let step: int = if shift { 10 } else { 1 };
            (d.0 as int, d.1 as int) == match arrow {
                Arrow::Left => (-step, 0int),
                Arrow::Right => (step, 0int),
                Arrow::Up => (0int, -step),
                Arrow::Down => (0int, step),
            }
        }),
{
    let step: i32 = if shift { 10 } else { 1 };
    match arrow {
        Arrow::Left => (-step, 0),
        Arrow::Right => (step, 0),
        Arrow::Up => (0, -step),
        Arrow::Down => (0, step),
    }
}

/// The keys that mean something while a text layer is being typed into.
#[derive(Debug, Clone, Copy, PartialEq, Eq, Structural)]
pub enum TextKey {
    Backspace,
    Delete,
    ArrowLeft,
    ArrowRight,
    ArrowUp,
    ArrowDown,
    Home,
    End,
    Escape,
    Enter,
    /// Any key that editing ignores.
    Other,
}

/// One step of editing the text under the caret.
#[derive(Debug, Clone, Copy, PartialEq, Eq, Structural)]
pub enum TextStep {
    /// Insert what was typed at the caret.
    Insert,
    Backspace,
    Delete,
    Left,
    Right,
    Up,
    Down,
    Home,
    End,
    /// Abandon the edit.
    Cancel,
    /// Keep the edit and leave the text.
    Commit,
    /// Break the line at the caret.
    Newline,
}

/// Typed characters are inserted, unless the command modifier is held, in
/// which case they belong to a shortcut.
pub fn typed_step(command: bool) -> (s: Option<TextStep>)
    ensures
        s == if command { None } else { Some(TextStep::Insert) },
{
    if command { None } else { Some(TextStep::Insert) }
}

/// What a pressed key does to the text: the editing keys move or delete,
/// Escape abandons, Enter breaks the line and Ctrl+Enter commits.
pub fn key_step(key: TextKey, command: bool) -> (s: Option<TextStep>)
    ensures
        s == match key {
            TextKey::Backspace => Some(TextStep::Backspace),
            TextKey::Delete => Some(TextStep::Delete),
            TextKey::ArrowLeft => Some(TextStep::Left),
            TextKey::ArrowRight => Some(TextStep::Right),
            TextKey::ArrowUp => Some(TextStep::Up),
            TextKey::ArrowDown => Some(TextStep::Down),
            TextKey::Home => Some(TextStep::Home),
            TextKey::End => Some(TextStep::End),
            TextKey::Escape => Some(TextStep::Cancel),
            TextKey::Enter => if command { Some(TextStep::Commit) } else { Some(TextStep::Newline) },
            TextKey::Other => None,
        },
{
    match key {
        TextKey::Backspace => Some(TextStep::Backspace),
        TextKey::Delete => Some(TextStep::Delete),
        TextKey::ArrowLeft => Some(TextStep::Left),
        TextKey::ArrowRight => Some(TextStep::Right),
        TextKey::ArrowUp => Some(TextStep::Up),
        TextKey::ArrowDown => Some(TextStep::Down),
        TextKey::Home => Some(TextStep::Home),
        TextKey::End => Some(TextStep::End),
        TextKey::Escape => Some(TextStep::Cancel),
        TextKey::Enter => if command { Some(TextStep::Commit) } else { Some(TextStep::Newline) },
        TextKey::Other => None,
    }
}

} // verus!
