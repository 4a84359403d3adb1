//! Core model of a dockable BIM scene editor: tab and dock bookkeeping,
//! colour and theme data, tool definitions, viewport arithmetic, the
//! two-click wall tool's state machine and ray-cast selection state.
//!
//! Everything here is plain data and decisions; the host engine and the
//! immediate-mode GUI around it live outside this crate and exchange plain
//! values with it.

pub mod color;
pub mod commands;
pub mod dock;
pub mod element;
pub mod enums;
pub mod icons;
pub mod primitives;
pub mod selection;
pub mod tabs;
pub mod theme;
pub mod tool;
pub mod two_click;
pub mod viewport;
