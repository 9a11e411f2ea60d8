//! A responsive navigation bar: configuration with defaults, a pure render
//! into a view tree, and the dropdown's toggle state.
pub mod props;
pub mod state;
pub mod view;
pub mod render;

pub use props::{Menu, NavbarOptions, NavbarProps};
pub use render::navbar_component;
pub use state::DropdownState;
pub use view::NavbarView;
