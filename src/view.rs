//! The rendered navbar as a tree of plain values, one node type per region.
//! A host framework turns it into markup without deciding anything itself.
use vstd::prelude::*;

verus! {

/// The logo: an image wrapped in a link.
#[derive(Clone, Copy, Debug, PartialEq, Eq)]
pub struct LogoView {
    /// Class of the wrapper.
    pub class: &'static str,
    /// Target of the link.
    pub link: &'static str,
    /// Source of the image.
    pub src: &'static str,
    /// Alt text of the image.
    pub alt: &'static str,
    /// Class of the image.
    pub img_class: &'static str,
}

/// One keyed link of the horizontal navigation.
#[derive(Clone, Copy, Debug, PartialEq, Eq)]
pub struct MenuItemView {
    /// List key, the entry's id.
    pub key: usize,
    /// Class of the link.
    pub class: &'static str,
    /// Target of the link.
    pub href: &'static str,
    /// Label of the link.
    pub label: &'static str,
}

/// The call-to-action button, rendered whether or not it has text.
#[derive(Clone, Copy, Debug, PartialEq, Eq)]
pub struct ButtonView {
    /// Class of the container.
    pub class: &'static str,
    /// Target of the link.
    pub href: &'static str,
    /// Class of the link.
    pub link_class: &'static str,
    /// Text of the link.
    pub text: &'static str,
}

/// The horizontal navigation, the search input and the button.
#[derive(Clone, Debug)]
pub struct MenuView {
    /// Class of the region.
    pub class: &'static str,
    /// Class of the wrapper that hides the links on narrow screens.
    pub hidden_class: &'static str,
    /// The links, in menu order.
    pub items: Vec<MenuItemView>,
    /// Class of the decorative search input.
    pub search_input_class: &'static str,
    /// The call-to-action button.
    pub button: ButtonView,
}

/// The menu toggle control: three bars under one clickable wrapper.
#[derive(Clone, Debug)]
pub struct ToggleView {
    /// Class of the clickable wrapper.
    pub class: &'static str,
    /// Class of each bar, top to bottom.
    pub lines: Vec<String>,
}

/// One keyed entry of the dropdown panel.
#[derive(Clone, Copy, Debug, PartialEq, Eq)]
pub struct DropdownItemView {
    /// List key, the entry's id.
    pub key: usize,
    /// Class of the entry.
    pub class: &'static str,
    /// Target of the link.
    pub href: &'static str,
    /// Label of the link.
    pub label: &'static str,
}

/// The dropdown panel, present only while it is shown.
#[derive(Clone, Debug)]
pub struct DropdownView {
    /// Class of the panel.
    pub class: &'static str,
    /// The entries, in menu order.
    pub items: Vec<DropdownItemView>,
}

/// The content of the navbar, in display order.
#[derive(Clone, Debug)]
pub struct ContentView {
    /// Class of the flex wrapper.
    pub class: &'static str,
    /// The logo.
    pub logo: LogoView,
    /// The horizontal navigation region.
    pub menu: MenuView,
    /// The menu toggle control.
    pub toggle: ToggleView,
    /// The dropdown panel; `None` renders nothing at all.
    pub dropdown: Option<DropdownView>,
}

/// The whole navbar.
#[derive(Clone, Debug)]
pub struct NavbarView {
    /// Class of the outer section.
    pub class: &'static str,
    /// What the section holds.
    pub content: ContentView,
}

} // verus!
