//! The navbar's configuration: menu entries, style classes and their defaults.
use vstd::prelude::*;

verus! {

/// Default class of the outer navbar section.
pub const NAVBAR_CLASS: &'static str = "fixed top-0 left-0 w-full bg-black text-white font-roboto z-20";
/// Default class of the logo wrapper.
pub const LOGO_CLASS: &'static str = "flex items-center";
/// Default class of the logo image.
pub const LOGO_IMG_CLASS: &'static str = "w-32 md:w-40";
/// Default class of the menu toggle control.
pub const MENU_TOGGLE_CLASS: &'static str = "btn-menu ml-4 md:hidden cursor-pointer";
/// Default class shared by the three bars of the menu toggle control.
pub const LINE_CLASS: &'static str = "line h-1 mb-1 bg-white transition-transform transform origin-center";
/// Default class of the flex wrapper around the navbar content.
pub const FLEX_CONTAINER_CLASS: &'static str = "flex justify-between items-center";
/// Default class of the wrapper hidden on narrow screens.
pub const HIDDEN_MD_CLASS: &'static str = "hidden md:flex nav-wrap";
/// Default class of the horizontal navigation region.
pub const NAV_CLASS: &'static str = "flex flex-grow justify-end items-center space-x-4 md:space-x-8";
/// Default class of each link in the horizontal navigation.
pub const MENU_ITEM_CLASS: &'static str = "nav-link text-white hover:text-gray-300 transition-colors";
/// Default class of the call-to-action link.
pub const BUTTON_LINK_CLASS: &'static str =
    "rounded-full py-2 px-6 bg-blue-500 text-white text-lg transition-colors hover:bg-blue-600";
/// Default class of the dropdown panel.
pub const DROPDOWN_CLASS: &'static str =
    "absolute top-full left-0 mt-2 bg-black text-white p-2 rounded shadow-lg block md:hidden";
/// Default class of each dropdown entry.
pub const DROPDOWN_ITEM_CLASS: &'static str = "border-b border-blue-500";
/// Default class of the search input.
pub const SEARCH_INPUT_CLASS: &'static str = "hidden md:block rounded-full py-2 px-4 bg-gray-800 text-white text-lg placeholder-gray-500 focus:outline-none";
/// Default source of the logo image.
pub const LOGO_SRC: &'static str = "images/logo.png";
/// Default alt text of the logo image.
pub const LOGO_ALT: &'static str = "logo";
/// Default target of the logo link.
pub const LOGO_LINK: &'static str = "/";
/// Default of the fields that are empty unless the caller sets them.
pub const EMPTY: &'static str = "";

/// One navigable link, shown both in the horizontal nav and in the dropdown.
#[derive(Clone, Copy, Debug, PartialEq, Eq)]
pub struct Menu {
    /// Stable list key of the entry.
    pub id: usize,
    /// Target of the link.
    pub link: &'static str,
    /// Label shown for the link.
    pub name: &'static str,
}

/// Everything that configures one navbar: its menu entries and the class of each region.
#[derive(Clone, PartialEq)]
pub struct NavbarProps {
    /// Menu entries, in display order.
    pub menus: Vec<Menu>,
    /// Href of the call-to-action button.
    pub button_href: &'static str,
    /// Text of the call-to-action button.
    pub button_text: &'static str,
    /// Class of the outer navbar section.
    pub navbar_class: &'static str,
    /// Class of the logo wrapper.
    pub logo_class: &'static str,
    /// Class of the menu toggle control.
    pub menu_toggle_class: &'static str,
    /// Class shared by the bars of the menu toggle control.
    pub line_class: &'static str,
    /// Class of the flex wrapper around the content.
    pub flex_container_class: &'static str,
    /// Class of the wrapper hidden on narrow screens.
    pub hidden_md_class: &'static str,
    /// Class of the horizontal navigation region.
    pub nav_class: &'static str,
    /// Class of each link in the horizontal navigation.
    pub menu_item_class: &'static str,
    /// Class of the call-to-action container.
    pub button_class: &'static str,
    /// Class of the call-to-action link.
    pub button_link_class: &'static str,
    /// Class of each dropdown entry.
    pub dropdown_item_class: &'static str,
    /// Class of the dropdown panel.
    pub dropdown_class: &'static str,
    /// Class of the search input.
    pub search_input_class: &'static str,
    /// Source of the logo image.
    pub logo_src: &'static str,
    /// Alt text of the logo image.
    pub logo_alt: &'static str,
    /// Class of the logo image.
    pub logo_img_class: &'static str,
    /// Target of the logo link.
    pub logo_link: &'static str,
}

/// `p` holds the documented default in every style, logo and button field.
pub open spec fn has_default_fields(p: NavbarProps) -> bool {
    &&& p.button_href == EMPTY
    &&& p.button_text == EMPTY
    &&& p.navbar_class == NAVBAR_CLASS
    &&& p.logo_class == LOGO_CLASS
    &&& p.menu_toggle_class == MENU_TOGGLE_CLASS
    &&& p.line_class == LINE_CLASS
    &&& p.flex_container_class == FLEX_CONTAINER_CLASS
    &&& p.hidden_md_class == HIDDEN_MD_CLASS
    &&& p.nav_class == NAV_CLASS
    &&& p.menu_item_class == MENU_ITEM_CLASS
    &&& p.button_class == EMPTY
    &&& p.button_link_class == BUTTON_LINK_CLASS
    &&& p.dropdown_item_class == DROPDOWN_ITEM_CLASS
    &&& p.dropdown_class == DROPDOWN_CLASS
    &&& p.search_input_class == SEARCH_INPUT_CLASS
    &&& p.logo_src == LOGO_SRC
    &&& p.logo_alt == LOGO_ALT
    &&& p.logo_img_class == LOGO_IMG_CLASS
    &&& p.logo_link == LOGO_LINK
}

impl Default for NavbarProps {
    /// No menu entries, and every other field at its documented default.
    fn default() -> (r: Self)
        ensures
            r.menus@.len() == 0,
            has_default_fields(r),
    {
        NavbarProps {
            menus: Vec::new(),
            button_href: EMPTY,
            button_text: EMPTY,
            navbar_class: NAVBAR_CLASS,
            logo_class: LOGO_CLASS,
            menu_toggle_class: MENU_TOGGLE_CLASS,
            line_class: LINE_CLASS,
            flex_container_class: FLEX_CONTAINER_CLASS,
            hidden_md_class: HIDDEN_MD_CLASS,
            nav_class: NAV_CLASS,
            menu_item_class: MENU_ITEM_CLASS,
            button_class: EMPTY,
            button_link_class: BUTTON_LINK_CLASS,
            dropdown_item_class: DROPDOWN_ITEM_CLASS,
            dropdown_class: DROPDOWN_CLASS,
            search_input_class: SEARCH_INPUT_CLASS,
            logo_src: LOGO_SRC,
            logo_alt: LOGO_ALT,
            logo_img_class: LOGO_IMG_CLASS,
            logo_link: LOGO_LINK,
        }
    }
}

/// A partially specified configuration: each field left at `None` takes its default.
#[derive(Clone, PartialEq)]
pub struct NavbarOptions {
    /// Menu entries, in display order; none when left empty.
    pub menus: Vec<Menu>,
    /// Overrides `NavbarProps::button_href`.
    pub button_href: Option<&'static str>,
    /// Overrides `NavbarProps::button_text`.
    pub button_text: Option<&'static str>,
    /// Overrides `NavbarProps::navbar_class`.
    pub navbar_class: Option<&'static str>,
    /// Overrides `NavbarProps::logo_class`.
    pub logo_class: Option<&'static str>,
    /// Overrides `NavbarProps::menu_toggle_class`.
    pub menu_toggle_class: Option<&'static str>,
    /// Overrides `NavbarProps::line_class`.
    pub line_class: Option<&'static str>,
    /// Overrides `NavbarProps::flex_container_class`.
    pub flex_container_class: Option<&'static str>,
    /// Overrides `NavbarProps::hidden_md_class`.
    pub hidden_md_class: Option<&'static str>,
    /// Overrides `NavbarProps::nav_class`.
    pub nav_class: Option<&'static str>,
    /// Overrides `NavbarProps::menu_item_class`.
    pub menu_item_class: Option<&'static str>,
    /// Overrides `NavbarProps::button_class`.
    pub button_class: Option<&'static str>,
    /// Overrides `NavbarProps::button_link_class`.
    pub button_link_class: Option<&'static str>,
    /// Overrides `NavbarProps::dropdown_item_class`.
    pub dropdown_item_class: Option<&'static str>,
    /// Overrides `NavbarProps::dropdown_class`.
    pub dropdown_class: Option<&'static str>,
    /// Overrides `NavbarProps::search_input_class`.
    pub search_input_class: Option<&'static str>,
    /// Overrides `NavbarProps::logo_src`.
    pub logo_src: Option<&'static str>,
    /// Overrides `NavbarProps::logo_alt`.
    pub logo_alt: Option<&'static str>,
    /// Overrides `NavbarProps::logo_img_class`.
    pub logo_img_class: Option<&'static str>,
    /// Overrides `NavbarProps::logo_link`.
    pub logo_link: Option<&'static str>,
}

/// The value that an optional field resolves to.
pub open spec fn resolved(o: Option<&'static str>, default: &'static str) -> &'static str {
    match o {
        Some(v) => v,
        None => default,
    }
}

/// The field's value where given, else `default`.
fn or_default(o: Option<&'static str>, default: &'static str) -> (r: &'static str)
    ensures
        r == resolved(o, default),
{
    match o {
        Some(v) => v,
        None => default,
    }
}

/// `p` is `o` with every omitted field replaced by its documented default.
pub open spec fn resolves_to(o: NavbarOptions, p: NavbarProps) -> bool {
    &&& p.menus@ == o.menus@
    &&& p.button_href == resolved(o.button_href, EMPTY)
    &&& p.button_text == resolved(o.button_text, EMPTY)
    &&& p.navbar_class == resolved(o.navbar_class, NAVBAR_CLASS)
    &&& p.logo_class == resolved(o.logo_class, LOGO_CLASS)
    &&& p.menu_toggle_class == resolved(o.menu_toggle_class, MENU_TOGGLE_CLASS)
    &&& p.line_class == resolved(o.line_class, LINE_CLASS)
    &&& p.flex_container_class == resolved(o.flex_container_class, FLEX_CONTAINER_CLASS)
    &&& p.hidden_md_class == resolved(o.hidden_md_class, HIDDEN_MD_CLASS)
    &&& p.nav_class == resolved(o.nav_class, NAV_CLASS)
    &&& p.menu_item_class == resolved(o.menu_item_class, MENU_ITEM_CLASS)
    &&& p.button_class == resolved(o.button_class, EMPTY)
    &&& p.button_link_class == resolved(o.button_link_class, BUTTON_LINK_CLASS)
    &&& p.dropdown_item_class == resolved(o.dropdown_item_class, DROPDOWN_ITEM_CLASS)
    &&& p.dropdown_class == resolved(o.dropdown_class, DROPDOWN_CLASS)
    &&& p.search_input_class == resolved(o.search_input_class, SEARCH_INPUT_CLASS)
    &&& p.logo_src == resolved(o.logo_src, LOGO_SRC)
    &&& p.logo_alt == resolved(o.logo_alt, LOGO_ALT)
    &&& p.logo_img_class == resolved(o.logo_img_class, LOGO_IMG_CLASS)
    &&& p.logo_link == resolved(o.logo_link, LOGO_LINK)
}

impl NavbarOptions {
    /// Options with nothing set.
    pub fn new() -> (r: Self)
        ensures
            r.menus@.len() == 0,
            all_unset(r),
    {
        NavbarOptions {
            menus: Vec::new(),
            button_href: None,
            button_text: None,
            navbar_class: None,
            logo_class: None,
            menu_toggle_class: None,
            line_class: None,
            flex_container_class: None,
            hidden_md_class: None,
            nav_class: None,
            menu_item_class: None,
            button_class: None,
            button_link_class: None,
            dropdown_item_class: None,
            dropdown_class: None,
            search_input_class: None,
            logo_src: None,
            logo_alt: None,
            logo_img_class: None,
            logo_link: None,
        }
    }
}

impl NavbarProps {
    /// Resolves a partially specified configuration against the defaults.
    pub fn from_options(o: NavbarOptions) -> (r: Self)
        ensures
            resolves_to(o, r),
    {
        NavbarProps {
            button_href: or_default(o.button_href, EMPTY),
            button_text: or_default(o.button_text, EMPTY),
            navbar_class: or_default(o.navbar_class, NAVBAR_CLASS),
            logo_class: or_default(o.logo_class, LOGO_CLASS),
            menu_toggle_class: or_default(o.menu_toggle_class, MENU_TOGGLE_CLASS),
            line_class: or_default(o.line_class, LINE_CLASS),
            flex_container_class: or_default(o.flex_container_class, FLEX_CONTAINER_CLASS),
            hidden_md_class: or_default(o.hidden_md_class, HIDDEN_MD_CLASS),
            nav_class: or_default(o.nav_class, NAV_CLASS),
            menu_item_class: or_default(o.menu_item_class, MENU_ITEM_CLASS),
            button_class: or_default(o.button_class, EMPTY),
            button_link_class: or_default(o.button_link_class, BUTTON_LINK_CLASS),
            dropdown_item_class: or_default(o.dropdown_item_class, DROPDOWN_ITEM_CLASS),
            dropdown_class: or_default(o.dropdown_class, DROPDOWN_CLASS),
            search_input_class: or_default(o.search_input_class, SEARCH_INPUT_CLASS),
            logo_src: or_default(o.logo_src, LOGO_SRC),
            logo_alt: or_default(o.logo_alt, LOGO_ALT),
            logo_img_class: or_default(o.logo_img_class, LOGO_IMG_CLASS),
            logo_link: or_default(o.logo_link, LOGO_LINK),
            menus: o.menus,
        }
    }
}

/// Every option left unset resolves to its documented default, and a
/// configuration with nothing set resolves to the defaults throughout.
pub proof fn lemma_omitted_fields_default(o: NavbarOptions, p: NavbarProps)
    requires
        resolves_to(o, p),
    ensures
        o.button_href.is_none() ==> p.button_href == EMPTY,
        o.button_text.is_none() ==> p.button_text == EMPTY,
        o.navbar_class.is_none() ==> p.navbar_class == NAVBAR_CLASS,
        o.logo_class.is_none() ==> p.logo_class == LOGO_CLASS,
        o.menu_toggle_class.is_none() ==> p.menu_toggle_class == MENU_TOGGLE_CLASS,
        o.line_class.is_none() ==> p.line_class == LINE_CLASS,
        o.flex_container_class.is_none() ==> p.flex_container_class == FLEX_CONTAINER_CLASS,
        o.hidden_md_class.is_none() ==> p.hidden_md_class == HIDDEN_MD_CLASS,
        o.nav_class.is_none() ==> p.nav_class == NAV_CLASS,
        o.menu_item_class.is_none() ==> p.menu_item_class == MENU_ITEM_CLASS,
        o.button_class.is_none() ==> p.button_class == EMPTY,
        o.button_link_class.is_none() ==> p.button_link_class == BUTTON_LINK_CLASS,
        o.dropdown_item_class.is_none() ==> p.dropdown_item_class == DROPDOWN_ITEM_CLASS,
        o.dropdown_class.is_none() ==> p.dropdown_class == DROPDOWN_CLASS,
        o.search_input_class.is_none() ==> p.search_input_class == SEARCH_INPUT_CLASS,
        o.logo_src.is_none() ==> p.logo_src == LOGO_SRC,
        o.logo_alt.is_none() ==> p.logo_alt == LOGO_ALT,
        o.logo_img_class.is_none() ==> p.logo_img_class == LOGO_IMG_CLASS,
        o.logo_link.is_none() ==> p.logo_link == LOGO_LINK,
        o.menus@.len() == 0 && all_unset(o) ==> p.menus@.len() == 0 && has_default_fields(p),
{
}

/// No option of `o` is set.
pub open spec fn all_unset(o: NavbarOptions) -> bool {
    &&& o.button_href.is_none()
    &&& o.button_text.is_none()
    &&& o.navbar_class.is_none()
    &&& o.logo_class.is_none()
    &&& o.menu_toggle_class.is_none()
    &&& o.line_class.is_none()
    &&& o.flex_container_class.is_none()
    &&& o.hidden_md_class.is_none()
    &&& o.nav_class.is_none()
    &&& o.menu_item_class.is_none()
    &&& o.button_class.is_none()
    &&& o.button_link_class.is_none()
    &&& o.dropdown_item_class.is_none()
    &&& o.dropdown_class.is_none()
    &&& o.search_input_class.is_none()
    &&& o.logo_src.is_none()
    &&& o.logo_alt.is_none()
    &&& o.logo_img_class.is_none()
    &&& o.logo_link.is_none()
}

} // verus!
