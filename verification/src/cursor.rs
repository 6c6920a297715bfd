//! Mouse-cursor selection: maps the UI runtime's cursor request onto the
//! platform's cursor icon, and decides cursor visibility.

use vstd::prelude::*;

verus! {

/// The cursor requested by the UI runtime.  `NoCursor` asks for a hidden
/// cursor.
#[derive(Clone, Copy, Debug, PartialEq, Eq, Structural)]
pub enum MouseCursor {
    Standard,
    NoCursor,
    Help,
    Pointer,
    Progress,
    Wait,
    Crosshair,
    Text,
    Alias,
    CopyCursor,
    Move,
    NoDrop,
    NotAllowed,
    Grab,
    Grabbing,
    ColResize,
    RowResize,
    NResize,
    EResize,
    SResize,
    WResize,
    NeResize,
    NwResize,
    SeResize,
    SwResize,
    EwResize,
    NsResize,
    NeswResize,
    NwseResize,
}

/// The icon handed to the platform cursor API.
#[derive(Clone, Copy, Debug, PartialEq, Eq, Structural)]
pub enum CursorIcon {
    Standard,
    Help,
    Hand,
    Progress,
    Wait,
    Crosshair,
    Text,
    Alias,
    CopyIcon,
    Move,
    NoDrop,
    NotAllowed,
    Grab,
    Grabbing,
    ColResize,
    RowResize,
    NResize,
    EResize,
    SResize,
    WResize,
    NeResize,
    NwResize,
    SeResize,
    SwResize,
    EwResize,
    NsResize,
    NeswResize,
    NwseResize,
}

/// Which platform icon each requested cursor maps to.  A hidden cursor
/// keeps the standard icon; it is hidden through visibility instead.
pub open spec fn spec_cursor_icon(c: MouseCursor) -> CursorIcon {
    match c {
        MouseCursor::Standard => CursorIcon::Standard,
        MouseCursor::NoCursor => CursorIcon::Standard,
        MouseCursor::Help => CursorIcon::Help,
        MouseCursor::Pointer => CursorIcon::Hand,
        MouseCursor::Progress => CursorIcon::Progress,
        MouseCursor::Wait => CursorIcon::Wait,
        MouseCursor::Crosshair => CursorIcon::Crosshair,
        MouseCursor::Text => CursorIcon::Text,
        MouseCursor::Alias => CursorIcon::Alias,
        MouseCursor::CopyCursor => CursorIcon::CopyIcon,
        MouseCursor::Move => CursorIcon::Move,
        MouseCursor::NoDrop => CursorIcon::NoDrop,
        MouseCursor::NotAllowed => CursorIcon::NotAllowed,
        MouseCursor::Grab => CursorIcon::Grab,
        MouseCursor::Grabbing => CursorIcon::Grabbing,
        MouseCursor::ColResize => CursorIcon::ColResize,
        MouseCursor::RowResize => CursorIcon::RowResize,
        MouseCursor::NResize => CursorIcon::NResize,
        MouseCursor::EResize => CursorIcon::EResize,
        MouseCursor::SResize => CursorIcon::SResize,
        MouseCursor::WResize => CursorIcon::WResize,
        MouseCursor::NeResize => CursorIcon::NeResize,
        MouseCursor::NwResize => CursorIcon::NwResize,
        MouseCursor::SeResize => CursorIcon::SeResize,
        MouseCursor::SwResize => CursorIcon::SwResize,
        MouseCursor::EwResize => CursorIcon::EwResize,
        MouseCursor::NsResize => CursorIcon::NsResize,
        MouseCursor::NeswResize => CursorIcon::NeswResize,
        MouseCursor::NwseResize => CursorIcon::NwseResize,
    }
}

/// Whether the cursor stays visible under this request.
pub open spec fn spec_cursor_visible(c: MouseCursor) -> bool {
    c != MouseCursor::NoCursor
}

/// Selects the platform icon for a requested cursor.
pub fn cursor_icon(c: MouseCursor) -> (r: CursorIcon)
    ensures
        r == spec_cursor_icon(c),
{
    match c {
        MouseCursor::Standard => CursorIcon::Standard,
        MouseCursor::NoCursor => CursorIcon::Standard,
        MouseCursor::Help => CursorIcon::Help,
        MouseCursor::Pointer => CursorIcon::Hand,
        MouseCursor::Progress => CursorIcon::Progress,
        MouseCursor::Wait => CursorIcon::Wait,
        MouseCursor::Crosshair => CursorIcon::Crosshair,
        MouseCursor::Text => CursorIcon::Text,
        MouseCursor::Alias => CursorIcon::Alias,
        MouseCursor::CopyCursor => CursorIcon::CopyIcon,
        MouseCursor::Move => CursorIcon::Move,
        MouseCursor::NoDrop => CursorIcon::NoDrop,
        MouseCursor::NotAllowed => CursorIcon::NotAllowed,
        MouseCursor::Grab => CursorIcon::Grab,
        MouseCursor::Grabbing => CursorIcon::Grabbing,
        MouseCursor::ColResize => CursorIcon::ColResize,
        MouseCursor::RowResize => CursorIcon::RowResize,
        MouseCursor::NResize => CursorIcon::NResize,
        MouseCursor::EResize => CursorIcon::EResize,
        MouseCursor::SResize => CursorIcon::SResize,
        MouseCursor::WResize => CursorIcon::WResize,
        MouseCursor::NeResize => CursorIcon::NeResize,
        MouseCursor::NwResize => CursorIcon::NwResize,
        MouseCursor::SeResize => CursorIcon::SeResize,
        MouseCursor::SwResize => CursorIcon::SwResize,
        MouseCursor::EwResize => CursorIcon::EwResize,
        MouseCursor::NsResize => CursorIcon::NsResize,
        MouseCursor::NeswResize => CursorIcon::NeswResize,
        MouseCursor::NwseResize => CursorIcon::NwseResize,
    }
}

/// Decides whether the cursor is visible for a requested cursor.
pub fn cursor_visible(c: MouseCursor) -> (r: bool)
    ensures
        r == spec_cursor_visible(c),
{
    c != MouseCursor::NoCursor
}

} // verus!
