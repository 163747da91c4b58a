use crystallize_core::front::{
    layout_result, lowered_row_matches, row_matches, select_variant, set_keyboard_layout,
    set_wayland_layout, set_xorg_layout, variant_label, KeyboardLayout, KeyboardSelection,
    KeyboardVariant, LocaleSelection, Navigation, NavigationButtons, SelectionPreview,
};
use crystallize_core::modules::users::ProgramOutput;
use crystallize_core::script::Invocation;
use crystallize_core::utils::returncode_eval::HostError;

#[test]
fn navigation_stays_within_the_pages() {
    let mut nav = Navigation::new(3);
    assert_eq!(nav.current_page(), 0);
    assert_eq!(
        nav.update_navigation_buttons(),
        NavigationButtons { back_visible: false, next_visible: true, bar_revealed: false }
    );
    assert!(!nav.previous_page());
    assert_eq!(nav.current_page(), 0);
    assert!(nav.next_page());
    assert_eq!(nav.current_page(), 1);
    assert_eq!(
        nav.update_navigation_buttons(),
        NavigationButtons { back_visible: true, next_visible: true, bar_revealed: true }
    );
    assert!(nav.next_page());
    assert!(!nav.next_page());
    assert_eq!(nav.current_page(), 2);
    assert_eq!(
        nav.update_navigation_buttons(),
        NavigationButtons { back_visible: true, next_visible: false, bar_revealed: false }
    );
    assert!(nav.previous_page());
    assert_eq!(nav.current_page(), 1);
    let mut single = Navigation::new(1);
    assert!(!single.next_page());
    assert!(!single.previous_page());
    assert_eq!(
        single.update_navigation_buttons(),
        NavigationButtons { back_visible: false, next_visible: false, bar_revealed: false }
    );
}

#[test]
fn locales_are_chosen_once() {
    let mut chosen = LocaleSelection::new();
    assert!(chosen.is_valid());
    assert!(chosen.additional_locales().is_empty());
    chosen.add_additional_locale("de_DE");
    chosen.add_additional_locale("fr_FR");
    chosen.set_valid(false);
    chosen.add_additional_locale("de_DE");
    assert!(!chosen.is_valid());
    assert_eq!(chosen.additional_locales(), vec!["de_DE", "fr_FR"]);
    chosen.add_additional_locale("it_IT");
    assert!(chosen.is_valid());
    assert_eq!(chosen.additional_locales(), vec!["de_DE", "fr_FR", "it_IT"]);
    chosen.remove_additional_locale("fr_FR");
    assert_eq!(chosen.additional_locales(), vec!["de_DE", "it_IT"]);
    chosen.remove_additional_locale("xx_XX");
    assert_eq!(chosen.additional_locales(), vec!["de_DE", "it_IT"]);
    chosen.set_valid(false);
    chosen.reset();
    assert!(chosen.is_valid());
    assert!(chosen.additional_locales().is_empty());
}

#[test]
fn keyboard_layout_programs() {
    let program = |name: &str, args: &[&str]| Invocation {
        program: name.to_string(),
        args: args.iter().map(|s| s.to_string()).collect(),
    };
    assert_eq!(set_wayland_layout("us", "normal"), program("localectl", &["set-keymap", "us"]));
    assert_eq!(
        set_wayland_layout("de", "nodeadkeys"),
        program("localectl", &["set-keymap", "de+nodeadkeys"])
    );
    assert_eq!(set_xorg_layout("us", "normal"), program("setxkbmap", &["us"]));
    assert_eq!(
        set_xorg_layout("de", "nodeadkeys"),
        program("setxkbmap", &["de", "-variant", "nodeadkeys"])
    );
    assert_eq!(set_keyboard_layout(true, "fr", "bepo"), set_wayland_layout("fr", "bepo"));
    assert_eq!(set_keyboard_layout(false, "fr", "bepo"), set_xorg_layout("fr", "bepo"));
    assert_eq!(variant_label("normal"), "Default");
    assert_eq!(variant_label("dvorak"), "dvorak");
    assert_eq!(variant_label("Normal"), "Normal");
}

#[test]
fn keyboard_layout_results() {
    let out = |success: bool, stderr: &str| ProgramOutput {
        success,
        stdout: Ok(String::new()),
        stderr: stderr.to_string(),
    };
    assert_eq!(layout_result(&Ok(out(true, "noise"))), Ok(()));
    assert_eq!(layout_result(&Ok(out(false, "bad layout"))), Err("bad layout".to_string()));
    assert_eq!(
        layout_result(&Err(HostError { code: Some(2), message: "no such program".into() })),
        Err("no such program".to_string())
    );
}

#[test]
fn search_ignores_case() {
    assert!(row_matches("", "anything", ""));
    assert!(row_matches("GER", "German", "Layout: de"));
    assert!(row_matches("layout: DE", "German", "Layout: de"));
    assert!(!row_matches("fr", "German", "Layout: de"));
    assert!(row_matches("\u{c4}", "\u{e4}gypten", ""));
    assert!(lowered_row_matches("ger", "german", ""));
    assert!(!lowered_row_matches("GER", "german", ""));
}

#[test]
fn keyboard_variant_and_its_preview() {
    let variant = KeyboardVariant::new("de", "nodeadkeys", "Germany", "DE");
    assert_eq!(variant.layout(), "de");
    assert_eq!(variant.variant(), "nodeadkeys");
    assert_eq!(variant.country(), "Germany");
    assert_eq!(variant.country_shorthand(), "DE");
    assert_eq!(variant.subtitle(), "Germany - DE");
    let selection = variant.get_selection();
    assert_eq!(
        selection,
        KeyboardSelection {
            country: "Germany".into(),
            country_shorthand: "DE".into(),
            variant: "nodeadkeys".into()
        }
    );
    assert_eq!(
        select_variant(&selection),
        SelectionPreview {
            title: "Germany".into(),
            subtitle: "Layout: DE".into(),
            variant_row: Some("Variant: nodeadkeys".into()),
            description: "Current selection: DE - nodeadkeys".into(),
        }
    );
    let plain = KeyboardVariant::new("us", "normal", "United States", "US").get_selection();
    assert_eq!(
        select_variant(&plain),
        SelectionPreview {
            title: "United States".into(),
            subtitle: "Layout: US".into(),
            variant_row: None,
            description: "Current selection: US - normal".into(),
        }
    );
}

#[test]
fn keyboard_layout_holds_its_variants() {
    let layout = KeyboardLayout::new("Germany", "DE", "de", &["normal", "nodeadkeys"]);
    assert_eq!(layout.country(), "Germany");
    assert_eq!(layout.country_shorthand(), "DE");
    assert_eq!(
        layout.variants(),
        &vec![
            KeyboardVariant::new("de", "normal", "Germany", "DE"),
            KeyboardVariant::new("de", "nodeadkeys", "Germany", "DE"),
        ]
    );
    assert!(KeyboardLayout::new("X", "x", "x", &[]).variants().is_empty());
}
