use shuttle_tui::action::Action;
use shuttle_tui::component::{is_visible, Component, Deployments, Home, Projects, Tabs};
use shuttle_tui::key::{same_chord, Key, KeyCode, KeyKind, CONTROL, SHIFT};
use shuttle_tui::mode::Mode;
use shuttle_tui::tab::{Tab, TAB_COUNT};

#[test]
fn tab_default_is_home() {
    assert_eq!(Tab::default(), Tab::Home);
    assert_eq!(Mode::default(), Mode::Home);
}

#[test]
fn tab_next_wraps_around() {
    assert_eq!(Tab::Home.next(), Tab::Projects);
    assert_eq!(Tab::Projects.next(), Tab::Deployments);
    assert_eq!(Tab::Deployments.next(), Tab::Home);
}

#[test]
fn tab_previous_wraps_around() {
    assert_eq!(Tab::Home.previous(), Tab::Deployments);
    assert_eq!(Tab::Deployments.previous(), Tab::Projects);
    assert_eq!(Tab::Projects.previous(), Tab::Home);
}

#[test]
fn tab_next_then_previous_is_identity() {
    for t in Tab::all() {
        assert_eq!(t.next().previous(), t);
        assert_eq!(t.previous().next(), t);
    }
}

#[test]
fn tab_cycle_has_length_three() {
    assert_eq!(TAB_COUNT, 3);
    for t in Tab::all() {
        assert_eq!(t.next().next().next(), t);
        assert_ne!(t.next(), t);
    }
}

#[test]
fn tab_indices_and_names() {
    let all = Tab::all();
    assert_eq!(all, vec![Tab::Home, Tab::Projects, Tab::Deployments]);
    for (i, t) in all.iter().enumerate() {
        assert_eq!(t.index(), i);
        assert_eq!(Tab::from_index(i), *t);
    }
    assert_eq!(Tab::Home.as_str(), "Home");
    assert_eq!(Tab::Projects.as_str(), "Projects");
    assert_eq!(Tab::Deployments.as_str(), "Deployments");
    assert_eq!(Tab::Deployments.title_width(), 11);
    assert_eq!(Mode::Projects.as_str(), "Projects");
}

#[test]
fn key_upper_case_letter_carries_shift() {
    let k = Key::char('G');
    assert_eq!(k.code, KeyCode::Char('G'));
    assert_eq!(k.modifiers, SHIFT);
    assert_eq!(k.kind, KeyKind::Press);
}

#[test]
fn key_shift_makes_letter_upper_case() {
    let k = Key::new(KeyCode::Char('g'), SHIFT);
    assert_eq!(k.code, KeyCode::Char('G'));
    assert_eq!(k, Key::char('G'));
    assert_ne!(k, Key::char('g'));
}

#[test]
fn key_other_codes_are_kept() {
    let k = Key::new(KeyCode::Char('c'), CONTROL);
    assert_eq!(k.code, KeyCode::Char('c'));
    assert_eq!(k.modifiers, CONTROL);
    let t = Key::new(KeyCode::Tab, SHIFT);
    assert_eq!(t.code, KeyCode::Tab);
    assert_eq!(t.modifiers, SHIFT);
    let r = Key::with_kind(KeyCode::Enter, 0, KeyKind::Release, 0);
    assert_ne!(r, Key::new(KeyCode::Enter, 0));
}

#[test]
fn chords_compare_key_by_key() {
    let gg = vec![Key::char('g'), Key::char('g')];
    let g = vec![Key::char('g')];
    assert!(same_chord(&gg, &vec![Key::char('g'), Key::char('g')]));
    assert!(!same_chord(&gg, &g));
    assert!(!same_chord(&gg, &vec![Key::char('g'), Key::char('h')]));
    assert!(same_chord(&vec![], &vec![]));
}

#[test]
fn visibility_rule() {
    for t in Tab::all() {
        assert!(is_visible(None, t));
        assert!(is_visible(Some(t), t));
        assert!(!is_visible(Some(t.next()), t));
    }
}

#[test]
fn components_and_their_tabs() {
    let mut bar = Component::Tabs(Tabs::new());
    let home = Component::Home(Home::new());
    assert_eq!(bar.assigned_tab(), None);
    assert_eq!(home.assigned_tab(), Some(Tab::Home));
    assert!(bar.update(&Action::NextTab).is_none());
    match bar {
        Component::Tabs(t) => {
            assert_eq!(t.tab(), Tab::Projects);
            assert_eq!(t.selected_index(), 1);
        }
        _ => panic!("the tab bar changed kind"),
    }
}

#[test]
fn home_toggles_help() {
    let mut home = Component::Home(Home::new());
    assert!(home.update(&Action::ToggleShowHelp).is_none());
    match &home {
        Component::Home(h) => assert!(h.show_help()),
        _ => panic!("the home screen changed kind"),
    }
    home.update(&Action::ToggleShowHelp);
    match &home {
        Component::Home(h) => assert!(!h.show_help()),
        _ => panic!("the home screen changed kind"),
    }
}

#[test]
fn media_and_modifier_keys_are_kept() {
    let m = Key::new(KeyCode::Media(3), 0);
    assert_eq!(m.code, KeyCode::Media(3));
    assert_ne!(m, Key::new(KeyCode::Modifier(3), 0));
}

#[test]
fn tab_bar_cycles_and_screens_stay() {
    let mut bar = Component::Tabs(Tabs::new());
    bar.update(&Action::NextTab);
    bar.update(&Action::NextTab);
    match &bar {
        Component::Tabs(t) => assert_eq!(t.selected_index(), 2),
        _ => panic!("the tab bar changed kind"),
    }
    bar.update(&Action::NextTab);
    match &bar {
        Component::Tabs(t) => assert_eq!(t.tab(), Tab::Home),
        _ => panic!("the tab bar changed kind"),
    }
    let mut p = Component::Projects(Projects::new());
    assert!(p.update(&Action::NextTab).is_none());
    assert!(matches!(p, Component::Projects(_)));
    let d = Component::Deployments(Deployments::new());
    assert_eq!(d.assigned_tab(), Some(Tab::Deployments));
}

#[test]
fn home_logo_width_threshold() {
    assert!(!Home::uses_wide_logo(79));
    assert!(Home::uses_wide_logo(80));
    assert!(Home::uses_wide_logo(200));
}

#[test]
fn tab_bar_title_offset() {
    assert_eq!(Tabs::titles(), vec!["Home", "Projects", "Deployments"]);
    // titles take 23 columns, padding 10
    assert_eq!(Tabs::title_offset(100), 33);
    assert_eq!(Tabs::title_offset(33), 0);
    assert_eq!(Tabs::title_offset(32), 8);
    assert_eq!(Tabs::title_offset(0), 0);
}
