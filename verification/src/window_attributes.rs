//! What a caller asks of a window that is still to be created.

use vstd::prelude::*;
use crate::geometry::LogicalSize;

verus! {

/// Where a window stands among the others on the desktop.
#[derive(Debug, Clone, Copy, PartialEq, Eq, Structural)]
pub enum WindowLevel {
    AlwaysOnBottom,
    Normal,
    AlwaysOnTop,
}

/// The wishes for a new window. A wish that was never made is `None`, and
/// the platform then decides for itself.
#[derive(Debug, Clone, PartialEq, Eq)]
pub struct WindowAttributes {
    pub title: Option<String>,
    pub decorations: Option<bool>,
    pub transparent: Option<bool>,
    pub resizable: Option<bool>,
    pub surface_size: Option<LogicalSize>,
    pub maximized: Option<bool>,
    pub visible: Option<bool>,
    pub window_level: Option<WindowLevel>,
    pub full_size: Option<bool>,
}

impl WindowAttributes {
    /// No wish at all.
    pub open spec fn spec_new() -> WindowAttributes {
        WindowAttributes {
            title: None,
            decorations: None,
            transparent: None,
            resizable: None,
            surface_size: None,
            maximized: None,
            visible: None,
            window_level: None,
            full_size: None,
        }
    }

    /// The level that stands for "always on top" or for its absence.
    pub open spec fn spec_level_for(always_on_top: bool) -> WindowLevel {
        if always_on_top {
            WindowLevel::AlwaysOnTop
        } else {
            WindowLevel::Normal
        }
    }

    pub fn new() -> (r: Self)
        ensures
            r == Self::spec_new(),
    {
        WindowAttributes {
            title: None,
            decorations: None,
            transparent: None,
            resizable: None,
            surface_size: None,
            maximized: None,
            visible: None,
            window_level: None,
            full_size: None,
        }
    }

    pub fn with_title(self, title: String) -> (r: Self)
        ensures
            r == (WindowAttributes { title: Some(title), ..self }),
    {
        WindowAttributes { title: Some(title), ..self }
    }

    pub fn with_decorations(self, decorations: bool) -> (r: Self)
        ensures
            r == (WindowAttributes { decorations: Some(decorations), ..self }),
    {
        WindowAttributes { decorations: Some(decorations), ..self }
    }

    pub fn with_transparent(self, transparent: bool) -> (r: Self)
        ensures
            r == (WindowAttributes { transparent: Some(transparent), ..self }),
    {
        WindowAttributes { transparent: Some(transparent), ..self }
    }

    pub fn with_resizable(self, resizable: bool) -> (r: Self)
        ensures
            r == (WindowAttributes { resizable: Some(resizable), ..self }),
    {
        WindowAttributes { resizable: Some(resizable), ..self }
    }

    pub fn with_surface_size(self, surface_size: LogicalSize) -> (r: Self)
        ensures
            r == (WindowAttributes { surface_size: Some(surface_size), ..self }),
    {
        WindowAttributes { surface_size: Some(surface_size), ..self }
    }

    pub fn with_maximized(self, maximized: bool) -> (r: Self)
        ensures
            r == (WindowAttributes { maximized: Some(maximized), ..self }),
    {
        WindowAttributes { maximized: Some(maximized), ..self }
    }

    pub fn with_visible(self, visible: bool) -> (r: Self)
        ensures
            r == (WindowAttributes { visible: Some(visible), ..self }),
    {
        WindowAttributes { visible: Some(visible), ..self }
    }

    pub fn with_window_level(self, window_level: WindowLevel) -> (r: Self)
        ensures
            r == (WindowAttributes { window_level: Some(window_level), ..self }),
    {
        WindowAttributes { window_level: Some(window_level), ..self }
    }

    /// Puts the window above all others, or back among them.
    pub fn with_always_on_top(self, always_on_top: bool) -> (r: Self)
        ensures
            r == (WindowAttributes {
                window_level: Some(Self::spec_level_for(always_on_top)),
                ..self
            }),
    {
        let level = match always_on_top {
            true => WindowLevel::AlwaysOnTop,
            false => WindowLevel::Normal,
        };
        self.with_window_level(level)
    }

    /// Lets the content reach under the title bar, where the platform has
    /// such a thing.
    pub fn with_full_size(self, full_size: bool) -> (r: Self)
        ensures
            r == (WindowAttributes { full_size: Some(full_size), ..self }),
    {
        WindowAttributes { full_size: Some(full_size), ..self }
    }
}

} // verus!
