use yew_navbar::props::{
    BUTTON_LINK_CLASS, DROPDOWN_CLASS, DROPDOWN_ITEM_CLASS, FLEX_CONTAINER_CLASS,
    HIDDEN_MD_CLASS, LINE_CLASS, LOGO_ALT, LOGO_CLASS, LOGO_IMG_CLASS, LOGO_LINK, LOGO_SRC,
    MENU_ITEM_CLASS, MENU_TOGGLE_CLASS, NAVBAR_CLASS, NAV_CLASS, SEARCH_INPUT_CLASS,
};
use yew_navbar::render::{
    render_button, render_dropdown_item, render_dropdown_menu, render_logo, render_menu,
    render_menu_item, render_menu_toggle, render_navbar_content,
};
use yew_navbar::{navbar_component, DropdownState, Menu, NavbarOptions, NavbarProps};

fn two_menus() -> Vec<Menu> {
    vec![
        Menu { id: 1, link: "#", name: "Home" },
        Menu { id: 2, link: "#about", name: "About" },
    ]
}

fn props_with(menus: Vec<Menu>) -> NavbarProps {
    NavbarProps { menus, ..NavbarProps::default() }
}

#[test]
fn default_props_hold_documented_values() {
    let p = NavbarProps::default();
    assert!(p.menus.is_empty());
    assert_eq!(p.button_href, "");
    assert_eq!(p.button_text, "");
    assert_eq!(p.button_class, "");
    assert_eq!(p.navbar_class, "fixed top-0 left-0 w-full bg-black text-white font-roboto z-20");
    assert_eq!(p.logo_class, LOGO_CLASS);
    assert_eq!(p.menu_toggle_class, MENU_TOGGLE_CLASS);
    assert_eq!(p.line_class, LINE_CLASS);
    assert_eq!(p.flex_container_class, FLEX_CONTAINER_CLASS);
    assert_eq!(p.hidden_md_class, HIDDEN_MD_CLASS);
    assert_eq!(p.nav_class, NAV_CLASS);
    assert_eq!(p.menu_item_class, MENU_ITEM_CLASS);
    assert_eq!(p.button_link_class, BUTTON_LINK_CLASS);
    assert_eq!(p.dropdown_item_class, DROPDOWN_ITEM_CLASS);
    assert_eq!(p.dropdown_class, DROPDOWN_CLASS);
    assert_eq!(p.search_input_class, SEARCH_INPUT_CLASS);
    assert_eq!(p.logo_src, "images/logo.png");
    assert_eq!(p.logo_alt, "logo");
    assert_eq!(p.logo_img_class, "w-32 md:w-40");
    assert_eq!(p.logo_link, "/");
}

#[test]
fn omitted_options_resolve_to_defaults() {
    let p = NavbarProps::from_options(NavbarOptions::new());
    assert!(p == NavbarProps::default());
    assert_eq!(p.navbar_class, NAVBAR_CLASS);
}

#[test]
fn set_options_override_defaults() {
    let mut o = NavbarOptions::new();
    o.menus = two_menus();
    o.navbar_class = Some("bg-white");
    o.button_text = Some("Sign up");
    o.logo_link = Some("/home");
    let p = NavbarProps::from_options(o);
    assert_eq!(p.menus, two_menus());
    assert_eq!(p.navbar_class, "bg-white");
    assert_eq!(p.button_text, "Sign up");
    assert_eq!(p.logo_link, "/home");
    assert_eq!(p.logo_src, LOGO_SRC);
    assert_eq!(p.logo_alt, LOGO_ALT);
    assert_eq!(p.logo_img_class, LOGO_IMG_CLASS);
    assert_eq!(p.button_href, "");
    assert_eq!(p.dropdown_class, DROPDOWN_CLASS);
}

#[test]
fn horizontal_menu_lists_each_entry_in_order() {
    let menus = vec![
        Menu { id: 7, link: "/a", name: "A" },
        Menu { id: 3, link: "/b", name: "B" },
        Menu { id: 9, link: "/c", name: "C" },
    ];
    let p = props_with(menus.clone());
    let m = render_menu(&p);
    assert_eq!(m.items.len(), 3);
    for (item, menu) in m.items.iter().zip(menus.iter()) {
        assert_eq!(item.key, menu.id);
        assert_eq!(item.href, menu.link);
        assert_eq!(item.label, menu.name);
        assert_eq!(item.class, MENU_ITEM_CLASS);
    }
    assert_eq!(m.class, NAV_CLASS);
    assert_eq!(m.hidden_class, HIDDEN_MD_CLASS);
    assert_eq!(m.search_input_class, SEARCH_INPUT_CLASS);
}

#[test]
fn dropdown_present_only_when_visible() {
    let p = props_with(two_menus());
    assert!(render_dropdown_menu(&p, false).is_none());
    let d = render_dropdown_menu(&p, true).unwrap();
    assert_eq!(d.class, DROPDOWN_CLASS);
    let keys: Vec<usize> = d.items.iter().map(|i| i.key).collect();
    assert_eq!(keys, vec![1, 2]);
    let labels: Vec<&str> = d.items.iter().map(|i| i.label).collect();
    assert_eq!(labels, vec!["Home", "About"]);
    let hrefs: Vec<&str> = d.items.iter().map(|i| i.href).collect();
    assert_eq!(hrefs, vec!["#", "#about"]);
    assert!(d.items.iter().all(|i| i.class == DROPDOWN_ITEM_CLASS));
}

#[test]
fn dropdown_mirrors_horizontal_menu() {
    let p = props_with(two_menus());
    let c = render_navbar_content(&p, true);
    let d = c.dropdown.unwrap();
    assert_eq!(d.items.len(), c.menu.items.len());
    for (a, b) in d.items.iter().zip(c.menu.items.iter()) {
        assert_eq!(a.key, b.key);
        assert_eq!(a.href, b.href);
        assert_eq!(a.label, b.label);
    }
}

#[test]
fn toggle_twice_returns_to_collapsed() {
    let s = DropdownState::initial();
    assert_eq!(s, DropdownState::Collapsed);
    assert!(!s.is_visible());
    let once = s.toggle();
    assert_eq!(once, DropdownState::Expanded);
    assert!(once.is_visible());
    let twice = once.toggle();
    assert_eq!(twice, DropdownState::Collapsed);
    assert!(!twice.is_visible());
    assert_eq!(DropdownState::from_visible(true), DropdownState::Expanded);
    assert_eq!(DropdownState::from_visible(false), DropdownState::Collapsed);
}

#[test]
fn empty_menus_give_empty_lists() {
    let p = NavbarProps::default();
    let hidden = navbar_component(&p, false);
    assert!(hidden.content.menu.items.is_empty());
    assert!(hidden.content.dropdown.is_none());
    let shown = navbar_component(&p, true);
    assert!(shown.content.menu.items.is_empty());
    assert!(shown.content.dropdown.unwrap().items.is_empty());
}

#[test]
fn toggle_lines_append_widths() {
    let p = NavbarProps { line_class: "bar", ..NavbarProps::default() };
    let t = render_menu_toggle(&p);
    assert_eq!(t.class, MENU_TOGGLE_CLASS);
    assert_eq!(t.lines, vec!["bar w-6".to_string(), "bar w-8".to_string(), "bar w-6".to_string()]);
    let d = render_menu_toggle(&NavbarProps::default());
    assert_eq!(
        d.lines[1],
        "line h-1 mb-1 bg-white transition-transform transform origin-center w-8"
    );
}

#[test]
fn logo_and_button_take_configured_fields() {
    let p = NavbarProps {
        button_href: "https://example.com",
        button_text: "Go",
        button_class: "cta",
        logo_src: "img/x.svg",
        ..NavbarProps::default()
    };
    let l = render_logo(&p);
    assert_eq!(l.class, LOGO_CLASS);
    assert_eq!(l.link, LOGO_LINK);
    assert_eq!(l.src, "img/x.svg");
    assert_eq!(l.alt, LOGO_ALT);
    assert_eq!(l.img_class, LOGO_IMG_CLASS);
    let b = render_button(&p);
    assert_eq!(b.class, "cta");
    assert_eq!(b.href, "https://example.com");
    assert_eq!(b.link_class, BUTTON_LINK_CLASS);
    assert_eq!(b.text, "Go");
}

#[test]
fn button_without_text_still_renders() {
    let b = navbar_component(&NavbarProps::default(), false).content.menu.button;
    assert_eq!(b.text, "");
    assert_eq!(b.href, "");
    assert_eq!(b.link_class, BUTTON_LINK_CLASS);
}

#[test]
fn single_items_carry_their_styling() {
    let p = NavbarProps { menu_item_class: "m", dropdown_item_class: "d", ..NavbarProps::default() };
    let menu = Menu { id: 5, link: "/x", name: "X" };
    let a = render_menu_item(&menu, &p);
    assert_eq!((a.key, a.class, a.href, a.label), (5, "m", "/x", "X"));
    let b = render_dropdown_item(&p, &menu);
    assert_eq!((b.key, b.class, b.href, b.label), (5, "d", "/x", "X"));
}

#[test]
fn home_about_scenario() {
    let p = props_with(two_menus());
    let v = navbar_component(&p, false);
    assert_eq!(v.class, NAVBAR_CLASS);
    assert_eq!(v.content.class, FLEX_CONTAINER_CLASS);
    assert_eq!(v.content.logo.link, "/");
    let items = &v.content.menu.items;
    assert_eq!(items.len(), 2);
    assert_eq!((items[0].label, items[0].href), ("Home", "#"));
    assert_eq!((items[1].label, items[1].href), ("About", "#about"));
    assert_eq!(v.content.toggle.lines.len(), 3);
    assert!(v.content.dropdown.is_none());

    let state = DropdownState::initial().toggle();
    let v = navbar_component(&p, state.is_visible());
    let d = v.content.dropdown.unwrap();
    assert_eq!(d.items.len(), 2);
    assert_eq!((d.items[0].key, d.items[0].label, d.items[0].href), (1, "Home", "#"));
    assert_eq!((d.items[1].key, d.items[1].label, d.items[1].href), (2, "About", "#about"));
    assert!(d.items.iter().all(|i| i.class == DROPDOWN_ITEM_CLASS));
}
