//! Convenience re-exports of the items most applications use.

pub use crate::canvas::Canvas;

pub use crate::container::Container;
pub use crate::container::FromContainer;
pub use crate::container::Res;
pub use crate::container::State;
pub use crate::context::Callable;
pub use crate::context::ViewContext;
pub use crate::geometry::Pos;
pub use crate::geometry::Rect;
pub use crate::geometry::Size;
pub use crate::runes::Color;
pub use crate::runes::Rune;
pub use crate::runes::Runes;
pub use crate::runes::ToRuneExt;
pub use crate::stack::Stack;
pub use crate::stack::StackAlignment;
pub use crate::stack::StackDirection;
pub use crate::theme::Theme;
