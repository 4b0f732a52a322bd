//! A hierarchical menu engine for small displays.
//!
//! A menu is built once from checkboxes, selectors, sections, back, action
//! and exit entries and nested sub-menus, then driven with up / down /
//! select events. The library keeps the navigation state, applies
//! activations, and computes which window of the active level fits in the
//! display area; painting is left to the caller.
pub mod items;
pub mod menu;
pub mod state;
pub mod viewport;

pub use items::{
    ActionItem, BackItem, CheckboxItem, ExitItem, MenuItem, MenuItemData, MenuItems,
    MultiOptionItem, SectionItem, SelectedData, SubmenuItem,
};
pub use menu::{Menu, MenuView, NodeView};
pub use state::MenuState;
pub use viewport::{viewport_window, Viewport};
