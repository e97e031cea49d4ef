use shuttle_tui::action::Action;
use shuttle_tui::app::{App, Config, Control, Effect};
use shuttle_tui::bus::ActionBus;
use shuttle_tui::component::Component;
use shuttle_tui::event::Event;
use shuttle_tui::key::Key;
use shuttle_tui::keymap::Keymap;
use shuttle_tui::tab::Tab;

fn app_with(km: Keymap) -> App {
    App::new(Config { keybindings: km })
}

fn drain(app: &mut App) -> Vec<(Action, Option<Vec<usize>>, Option<(u16, u16)>)> {
    let mut seen = Vec::new();
    while let Some((action, effect)) = app.next_action() {
        let entry = match effect {
            Effect::Nothing => (action.duplicate(), None, None),
            Effect::Draw(v) => (action.duplicate(), Some(v), None),
            Effect::ResizeAndDraw(w, h, v) => (action.duplicate(), Some(v), Some((w, h))),
        };
        app.forward(&action).unwrap();
        seen.push(entry);
    }
    seen
}

fn help_shown(app: &App) -> bool {
    match &app.components[1] {
        Component::Home(h) => h.show_help(),
        _ => panic!("the home screen is not second"),
    }
}

fn bar_tab(app: &App) -> Tab {
    match &app.components[0] {
        Component::Tabs(t) => t.tab(),
        _ => panic!("the tab bar is not first"),
    }
}

#[test]
fn new_app_registers_four_components_in_draw_order() {
    let app = app_with(Keymap::new());
    assert_eq!(app.components.len(), 4);
    assert!(matches!(app.components[0], Component::Tabs(_)));
    assert!(matches!(app.components[1], Component::Home(_)));
    assert!(matches!(app.components[2], Component::Projects(_)));
    assert!(matches!(app.components[3], Component::Deployments(_)));
    assert_eq!(app.components[2].assigned_tab(), Some(Tab::Projects));
    assert_eq!(app.components[3].assigned_tab(), Some(Tab::Deployments));
    assert_eq!(app.tab, Tab::Home);
    assert!(!app.should_quit && !app.should_suspend);
}

fn config_of(c: &Component) -> &Config {
    match c {
        Component::Tabs(t) => &t.config,
        Component::Home(h) => &h.config,
        Component::Projects(p) => &p.config,
        Component::Deployments(d) => &d.config,
    }
}

#[test]
fn every_component_holds_a_config_snapshot() {
    let mut km = Keymap::new();
    km.bind(Tab::Home, vec![Key::char('j')], Action::Increment);
    let app = app_with(km);
    for c in &app.components {
        let kb = &config_of(c).keybindings;
        assert_eq!(kb.lookup(Tab::Home, &vec![Key::char('j')]), Some(Action::Increment));
        assert!(!kb.has_tab(Tab::Projects));
    }
}

#[test]
fn registering_config_replaces_snapshot_only() {
    let mut km = Keymap::new();
    km.bind(Tab::Projects, vec![Key::char('r')], Action::Decrement);
    let cfg = Config { keybindings: km };
    let copy = cfg.duplicate();
    let mut bar = Component::Tabs(shuttle_tui::component::Tabs::new());
    bar.update(&Action::NextTab);
    bar.register_config_handler(copy);
    match &bar {
        Component::Tabs(t) => {
            assert_eq!(t.tab(), Tab::Projects);
            assert_eq!(
                t.config.keybindings.lookup(Tab::Projects, &vec![Key::char('r')]),
                Some(Action::Decrement)
            );
        }
        _ => panic!("the tab bar changed kind"),
    }
    assert_eq!(
        cfg.keybindings.lookup(Tab::Projects, &vec![Key::char('r')]),
        Some(Action::Decrement)
    );
}

#[test]
fn tab_actions_with_others_between() {
    let mut app = app_with(Keymap::new());
    app.bus.send(Action::NextTab);
    app.bus.send(Action::Tick);
    app.bus.send(Action::ToggleShowHelp);
    app.bus.send(Action::Render);
    app.bus.send(Action::PreviousTab);
    drain(&mut app);
    assert_eq!(app.tab, Tab::Home);
    assert_eq!(bar_tab(&app), Tab::Home);
}

#[test]
fn bus_keeps_order() {
    let mut bus = ActionBus::new();
    assert!(bus.send(Action::Tick));
    assert!(bus.send(Action::Quit));
    assert_eq!(bus.try_recv(), Some(Action::Tick));
    assert_eq!(bus.try_recv(), Some(Action::Quit));
    assert_eq!(bus.try_recv(), None);
}

#[test]
fn end_to_end_keymap_per_tab() {
    let mut km = Keymap::new();
    km.bind(Tab::Home, vec![Key::char('j')], Action::Increment);
    km.add_tab(Tab::Projects);
    let mut app = app_with(km);
    assert_eq!(app.tab, Tab::Home);
    app.handle_event(Event::Key(Key::char('j'))).unwrap();
    let seen = drain(&mut app);
    assert_eq!(seen.len(), 1);
    assert_eq!(seen[0].0, Action::Increment);
    app.bus.send(Action::NextTab);
    drain(&mut app);
    assert_eq!(app.tab, Tab::Projects);
    assert_eq!(bar_tab(&app), Tab::Projects);
    app.handle_event(Event::Key(Key::char('j'))).unwrap();
    assert!(drain(&mut app).is_empty());
}

#[test]
fn events_become_actions() {
    let mut app = app_with(Keymap::new());
    app.handle_event(Event::Tick).unwrap();
    app.handle_event(Event::Render).unwrap();
    app.handle_event(Event::Resize(10, 20)).unwrap();
    app.handle_event(Event::Quit).unwrap();
    app.handle_event(Event::FocusGained).unwrap();
    app.handle_event(Event::Paste("x".to_string())).unwrap();
    let actions: Vec<Action> = drain(&mut app).into_iter().map(|e| e.0).collect();
    assert_eq!(
        actions,
        vec![Action::Tick, Action::Render, Action::Resize(10, 20), Action::Quit]
    );
}

#[test]
fn resize_draws_once_with_geometry() {
    let mut app = app_with(Keymap::new());
    app.handle_event(Event::Resize(120, 40)).unwrap();
    let seen = drain(&mut app);
    assert_eq!(seen.len(), 1);
    assert_eq!(seen[0].0, Action::Resize(120, 40));
    assert_eq!(seen[0].2, Some((120, 40)));
    assert_eq!(seen[0].1, Some(vec![0, 1]));
}

#[test]
fn render_draws_visible_components_of_current_tab() {
    let mut app = app_with(Keymap::new());
    app.bus.send(Action::Render);
    app.bus.send(Action::NextTab);
    app.bus.send(Action::Render);
    let seen = drain(&mut app);
    assert_eq!(seen[0].1, Some(vec![0, 1]));
    assert_eq!(seen[1].1, None);
    assert_eq!(seen[2].1, Some(vec![0, 2]));
    assert_eq!(app.visible(), vec![0, 2]);
}

#[test]
fn visible_set_follows_tab() {
    let mut app = app_with(Keymap::new());
    assert_eq!(app.visible(), vec![0, 1]);
    app.tab = Tab::Deployments;
    assert_eq!(app.visible(), vec![0, 3]);
    app.tab = Tab::Projects;
    assert_eq!(app.visible(), vec![0, 2]);
}

#[test]
fn suspend_then_resume_keeps_state() {
    let mut app = app_with(Keymap::new());
    app.bus.send(Action::NextTab);
    app.bus.send(Action::ToggleShowHelp);
    app.bus.send(Action::PreviousTab);
    app.bus.send(Action::ToggleShowHelp);
    drain(&mut app);
    assert!(help_shown(&app));
    assert_eq!(app.tab, Tab::Home);
    app.bus.send(Action::Suspend);
    drain(&mut app);
    assert!(app.should_suspend);
    assert_eq!(app.after_drain(), Ok(Control::Suspend));
    let seen = drain(&mut app);
    assert_eq!(seen.len(), 1);
    assert_eq!(seen[0].0, Action::Resume);
    assert!(!app.should_suspend);
    assert_eq!(app.tab, Tab::Home);
    assert_eq!(bar_tab(&app), Tab::Home);
    assert!(help_shown(&app));
    assert_eq!(app.after_drain(), Ok(Control::Continue));
}

#[test]
fn quit_ends_loop_after_suspend() {
    let mut app = app_with(Keymap::new());
    assert_eq!(app.after_drain(), Ok(Control::Continue));
    app.bus.send(Action::Quit);
    app.bus.send(Action::Suspend);
    drain(&mut app);
    assert!(app.should_quit);
    assert_eq!(app.after_drain(), Ok(Control::Suspend));
    drain(&mut app);
    assert_eq!(app.after_drain(), Ok(Control::Quit));
}

#[test]
fn tick_action_clears_chord_buffer() {
    let mut km = Keymap::new();
    km.bind(Tab::Home, vec![Key::char('g'), Key::char('g')], Action::Increment);
    let mut app = app_with(km);
    app.handle_event(Event::Key(Key::char('g'))).unwrap();
    assert_eq!(app.last_tick_key_events.len(), 1);
    app.handle_event(Event::Tick).unwrap();
    assert_eq!(drain(&mut app)[0].0, Action::Tick);
    assert!(app.last_tick_key_events.is_empty());
    app.handle_event(Event::Key(Key::char('g'))).unwrap();
    assert!(drain(&mut app).is_empty());
    app.handle_event(Event::Key(Key::char('g'))).unwrap();
    let seen = drain(&mut app);
    assert_eq!(seen.len(), 1);
    assert_eq!(seen[0].0, Action::Increment);
}

#[test]
fn draw_errors_are_reported() {
    let mut app = app_with(Keymap::new());
    app.report_draw_error("Failed to draw: boom".to_string()).unwrap();
    let seen = drain(&mut app);
    assert_eq!(seen[0].0, Action::Error("Failed to draw: boom".to_string()));
}
