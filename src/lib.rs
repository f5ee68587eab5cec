//! Menus for the application-wide menu bar.
//!
//! Menus and menu items are plain handles: indices into a [`UI`] arena that owns every menu,
//! every item and the click handler registered for each item. The arena's state is described by
//! [`UIView`], and every operation states how it changes that view.

pub mod menus;

pub use menus::{is_valid_name, ItemView, Menu, MenuEntry, MenuItem, MenuView, UIView, UI};
