//! Rendering: from a configuration and the dropdown's visibility to the view tree.
use vstd::prelude::*;
use crate::props::{Menu, NavbarProps};
use crate::view::{
    ButtonView, ContentView, DropdownItemView, DropdownView, LogoView, MenuItemView, MenuView,
    NavbarView, ToggleView,
};

verus! {

/// Width class of the top and bottom bars of the toggle control.
pub const SHORT_LINE_WIDTH: &'static str = "w-6";
/// Width class of the middle bar of the toggle control.
pub const LONG_LINE_WIDTH: &'static str = "w-8";

/// The logo as configured.
pub open spec fn logo_view(p: NavbarProps) -> LogoView {
    LogoView {
        class: p.logo_class,
        link: p.logo_link,
        src: p.logo_src,
        alt: p.logo_alt,
        img_class: p.logo_img_class,
    }
}

/// The call-to-action button as configured.
pub open spec fn button_view(p: NavbarProps) -> ButtonView {
    ButtonView {
        class: p.button_class,
        href: p.button_href,
        link_class: p.button_link_class,
        text: p.button_text,
    }
}

/// The horizontal link of entry `m`, styled by `class`.
pub open spec fn menu_item_view(class: &'static str, m: Menu) -> MenuItemView {
    MenuItemView { key: m.id, class, href: m.link, label: m.name }
}

/// The dropdown entry of `m`, styled by `class`.
pub open spec fn dropdown_item_view(class: &'static str, m: Menu) -> DropdownItemView {
    DropdownItemView { key: m.id, class, href: m.link, label: m.name }
}

/// The horizontal links of all entries, in menu order.
pub open spec fn menu_items_of(p: NavbarProps) -> Seq<MenuItemView> {
    p.menus@.map_values(|m: Menu| menu_item_view(p.menu_item_class, m))
}

/// The dropdown entries of all entries, in menu order.
pub open spec fn dropdown_items_of(p: NavbarProps) -> Seq<DropdownItemView> {
    p.menus@.map_values(|m: Menu| dropdown_item_view(p.dropdown_item_class, m))
}

/// The class of one toggle bar: the shared class, a space, then the bar's width.
pub open spec fn line_class_of(line_class: &'static str, width: &'static str) -> Seq<char> {
    line_class@ + " "@ + width@
}

/// `v` is the horizontal navigation region of `p`.
pub open spec fn is_menu_view_of(v: MenuView, p: NavbarProps) -> bool {
    &&& v.class == p.nav_class
    &&& v.hidden_class == p.hidden_md_class
    &&& v.items@ == menu_items_of(p)
    &&& v.search_input_class == p.search_input_class
    &&& v.button == button_view(p)
}

/// `v` is the toggle control of `p`: three bars, the middle one long.
pub open spec fn is_toggle_view_of(v: ToggleView, p: NavbarProps) -> bool {
    &&& v.class == p.menu_toggle_class
    &&& v.lines@.len() == 3
    &&& v.lines@[0]@ == line_class_of(p.line_class, SHORT_LINE_WIDTH)
    &&& v.lines@[1]@ == line_class_of(p.line_class, LONG_LINE_WIDTH)
    &&& v.lines@[2]@ == line_class_of(p.line_class, SHORT_LINE_WIDTH)
}

/// `v` is the dropdown region of `p`: a panel of all entries when shown, nothing otherwise.
pub open spec fn is_dropdown_of(v: Option<DropdownView>, p: NavbarProps, visible: bool) -> bool {
    match v {
        Some(d) => visible && d.class == p.dropdown_class && d.items@ == dropdown_items_of(p),
        None => !visible,
    }
}

/// `v` is the content of the navbar of `p`.
pub open spec fn is_content_view_of(v: ContentView, p: NavbarProps, visible: bool) -> bool {
    &&& v.class == p.flex_container_class
    &&& v.logo == logo_view(p)
    &&& is_menu_view_of(v.menu, p)
    &&& is_toggle_view_of(v.toggle, p)
    &&& is_dropdown_of(v.dropdown, p, visible)
}

/// `v` is the whole navbar of `p` with the dropdown shown or not.
pub open spec fn is_navbar_view_of(v: NavbarView, p: NavbarProps, visible: bool) -> bool {
    &&& v.class == p.navbar_class
    &&& is_content_view_of(v.content, p, visible)
}

/// Renders the logo block.
pub fn render_logo(props: &NavbarProps) -> (r: LogoView)
    ensures
        r == logo_view(*props),
{
    LogoView {
        class: props.logo_class,
        link: props.logo_link,
        src: props.logo_src,
        alt: props.logo_alt,
        img_class: props.logo_img_class,
    }
}

/// Renders one link of the horizontal navigation.
pub fn render_menu_item(menu: &Menu, props: &NavbarProps) -> (r: MenuItemView)
    ensures
        r == menu_item_view(props.menu_item_class, *menu),
{
    MenuItemView { key: menu.id, class: props.menu_item_class, href: menu.link, label: menu.name }
}

/// Renders the call-to-action button.
pub fn render_button(props: &NavbarProps) -> (r: ButtonView)
    ensures
        r == button_view(*props),
{
    ButtonView {
        class: props.button_class,
        href: props.button_href,
        link_class: props.button_link_class,
        text: props.button_text,
    }
}

/// Renders the horizontal navigation: one keyed link per entry, in order,
/// then the search input and the button.
pub fn render_menu(props: &NavbarProps) -> (r: MenuView)
    ensures
        is_menu_view_of(r, *props),
        r.items@.len() == props.menus@.len(),
        forall|i: int|
            0 <= i < props.menus@.len() ==> {
                &&& (#[trigger] r.items@[i]).key == props.menus@[i].id
                &&& r.items@[i].href == props.menus@[i].link
                &&& r.items@[i].label == props.menus@[i].name
                &&& r.items@[i].class == props.menu_item_class
            },
{
    let mut items: Vec<MenuItemView> = Vec::new();
    let mut i: usize = 0;
    while i < props.menus.len()
        invariant
            i <= props.menus@.len(),
            items@ == menu_items_of(*props).take(i as int),
        decreases props.menus@.len() - i,
    {
        let item = render_menu_item(&props.menus[i], props);
        items.push(item);
        i += 1;
        assert(items@ =~= menu_items_of(*props).take(i as int));
    }
    assert(items@ =~= menu_items_of(*props));
    MenuView {
        class: props.nav_class,
        hidden_class: props.hidden_md_class,
        items,
        search_input_class: props.search_input_class,
        button: render_button(props),
    }
}

/// The class of one toggle bar, built from the shared class and the bar's width.
fn line_class_with(line_class: &'static str, width: &'static str) -> (r: String)
    ensures
        r@ == line_class_of(line_class, width),
{
    let mut s = String::from_str(line_class);
    s.append(" ");
    s.append(width);
    s
}

/// Renders the toggle control's three bars.
pub fn render_menu_toggle(props: &NavbarProps) -> (r: ToggleView)
    ensures
        is_toggle_view_of(r, *props),
{
    let mut lines: Vec<String> = Vec::new();
    lines.push(line_class_with(props.line_class, SHORT_LINE_WIDTH));
    lines.push(line_class_with(props.line_class, LONG_LINE_WIDTH));
    lines.push(line_class_with(props.line_class, SHORT_LINE_WIDTH));
    ToggleView { class: props.menu_toggle_class, lines }
}

/// Renders one entry of the dropdown panel.
pub fn render_dropdown_item(props: &NavbarProps, menu: &Menu) -> (r: DropdownItemView)
    ensures
        r == dropdown_item_view(props.dropdown_item_class, *menu),
{
    DropdownItemView {
        key: menu.id,
        class: props.dropdown_item_class,
        href: menu.link,
        label: menu.name,
    }
}

/// Renders the dropdown panel with every entry in order when it is shown,
/// and nothing at all when it is not.
pub fn render_dropdown_menu(props: &NavbarProps, is_dropdown_visible: bool) -> (r: Option<
    DropdownView,
>)
    ensures
        is_dropdown_of(r, *props, is_dropdown_visible),
        r.is_some() == is_dropdown_visible,
        r matches Some(d) ==> {
            &&& d.items@.len() == props.menus@.len()
            &&& forall|i: int|
                0 <= i < props.menus@.len() ==> {
                    &&& (#[trigger] d.items@[i]).key == props.menus@[i].id
                    &&& d.items@[i].href == props.menus@[i].link
                    &&& d.items@[i].label == props.menus@[i].name
                    &&& d.items@[i].class == props.dropdown_item_class
                }
        },
{
    if is_dropdown_visible {
        let mut items: Vec<DropdownItemView> = Vec::new();
        let mut i: usize = 0;
        while i < props.menus.len()
            invariant
                i <= props.menus@.len(),
                items@ == dropdown_items_of(*props).take(i as int),
            decreases props.menus@.len() - i,
        {
            let item = render_dropdown_item(props, &props.menus[i]);
            items.push(item);
            i += 1;
            assert(items@ =~= dropdown_items_of(*props).take(i as int));
        }
        assert(items@ =~= dropdown_items_of(*props));
        Some(DropdownView { class: props.dropdown_class, items })
    } else {
        None
    }
}

/// Renders the navbar's content in fixed order: logo, horizontal navigation,
/// toggle control, dropdown panel.
pub fn render_navbar_content(props: &NavbarProps, is_dropdown_visible: bool) -> (r: ContentView)
    ensures
        is_content_view_of(r, *props, is_dropdown_visible),
{
    ContentView {
        class: props.flex_container_class,
        logo: render_logo(props),
        menu: render_menu(props),
        toggle: render_menu_toggle(props),
        dropdown: render_dropdown_menu(props, is_dropdown_visible),
    }
}

/// Renders the whole navbar for the given visibility of the dropdown panel.
/// An empty menu gives empty lists in both the horizontal navigation and the panel.
pub fn navbar_component(props: &NavbarProps, is_dropdown_visible: bool) -> (r: NavbarView)
    ensures
        is_navbar_view_of(r, *props, is_dropdown_visible),
        r.content.menu.items@.len() == props.menus@.len(),
        r.content.dropdown.is_some() == is_dropdown_visible,
        props.menus@.len() == 0 ==> {
            &&& r.content.menu.items@.len() == 0
            &&& (r.content.dropdown matches Some(d) ==> d.items@.len() == 0)
        },
{
    NavbarView {
        class: props.navbar_class,
        content: render_navbar_content(props, is_dropdown_visible),
    }
}

/// The dropdown panel, when shown, lists the same entries as the horizontal
/// navigation: as many, in the same order, with the same keys, targets and labels.
pub proof fn lemma_dropdown_mirrors_menu(v: ContentView, p: NavbarProps, visible: bool)
    requires
        is_content_view_of(v, p, visible),
    ensures
        v.dropdown.is_some() == visible,
        v.dropdown matches Some(d) ==> {
            &&& d.items@.len() == v.menu.items@.len()
            &&& forall|i: int|
                0 <= i < d.items@.len() ==> {
                    &&& (#[trigger] d.items@[i]).key == v.menu.items@[i].key
                    &&& d.items@[i].href == v.menu.items@[i].href
                    &&& d.items@[i].label == v.menu.items@[i].label
                }
        },
{
}

/// With no menu entries, the horizontal navigation is empty, and so is the
/// dropdown panel whenever it is shown.
pub proof fn lemma_empty_menus(v: NavbarView, p: NavbarProps, visible: bool)
    requires
        is_navbar_view_of(v, p, visible),
        p.menus@.len() == 0,
    ensures
        v.content.menu.items@.len() == 0,
        v.content.dropdown matches Some(d) ==> d.items@.len() == 0,
{
}

} // verus!
