//! The closed set of events and commands the container routes.
//!
//! Incoming traffic falls into five classes: framework-internal signals,
//! raw keyboard presses, structured commands (split into UI commands such as
//! a buffer update, domain commands addressed to the palette, and foreign
//! commands the container does not know), pointer events, and everything
//! else. Each catch-all is an explicit variant, so an intentionally
//! unhandled tag is visible in the type rather than dropped silently.

use vstd::prelude::*;

use crate::geometry::Point;

verus! {

/// What kind of pointer event arrived.
#[derive(Clone, Copy, Debug, PartialEq, Eq, Structural)]
pub enum PointerKind {
    Down,
    Up,
    Move,
    Wheel,
}

/// A pointer event: its kind and the pointer position in screen space.
#[derive(Clone, Copy, Debug, PartialEq, Eq, Structural)]
pub struct PointerInput {
    pub kind: PointerKind,
    pub pos: Point,
}

/// A raw key press, carried opaquely to the global keyboard handler.
#[derive(Clone, Copy, Debug, PartialEq, Eq, Structural)]
pub struct KeyInput {
    pub key_code: u32,
}

/// The line ranges a buffer edit invalidated, as the buffer reports them.
#[derive(Clone, Copy, Debug, PartialEq, Eq, Structural)]
pub struct InvalLines {
    pub start_line: usize,
    pub inval_count: usize,
    pub new_count: usize,
}

/// A structured application-level UI command.
#[derive(Clone, Copy, Debug, PartialEq, Eq, Structural)]
pub enum UiCommand {
    /// A buffer's content changed; the editor-split state must refresh the
    /// named buffer for the invalidated lines.
    BufferUpdate { buffer_id: u64, inval_lines: InvalLines },
    /// Any other UI command tag: consumed without effect.
    Unhandled,
}

/// A domain command addressed to the palette overlay.
#[derive(Clone, Copy, Debug, PartialEq, Eq, Structural)]
pub enum DomainCommand {
    /// Open the command palette.
    Palette,
    /// Any other domain command tag: still forwarded to the overlay.
    Unhandled,
}

/// A structured command, told apart by its selector.
#[derive(Clone, Copy, Debug, PartialEq, Eq, Structural)]
pub enum Command {
    Ui(UiCommand),
    Domain(DomainCommand),
    /// A command under a selector the container does not know: consumed
    /// without effect.
    Foreign,
}

/// One event as the host event loop hands it to the container.
#[derive(Clone, Copy, Debug, PartialEq, Eq, Structural)]
pub enum InputEvent {
    /// A framework-internal signal, not originating from user input.
    Internal,
    /// A raw keyboard press.
    KeyDown(KeyInput),
    /// A structured command.
    Command(Command),
    /// A pointer event.
    Pointer(PointerInput),
    /// An event matching no class above: silently dropped.
    Unmatched,
}

} // verus!
