use sinkercli::app::{App, Dialog, Flow, Listing, Panel, Reply, Request};
use sinkercli::audio::{AudioSystem, Loopback, Sink, SinkInput, Source};
use sinkercli::config::{Config, LoopbackEntry, Preset};
use sinkercli::keys::Key;

fn source(name: &str, desc: &str) -> Source {
    Source { name: name.into(), description: desc.into(), is_monitor: false }
}

fn sink(name: &str, desc: &str, is_virtual: bool) -> Sink {
    Sink { name: name.into(), description: desc.into(), is_virtual }
}

fn loopback(id: u32, src: &str, snk: &str) -> Loopback {
    Loopback { module_id: id, source_name: src.into(), sink_name: snk.into() }
}

fn stream(id: u32, app: &str, current: &str) -> SinkInput {
    SinkInput { id, app_name: app.into(), current_sink_name: current.into() }
}

fn empty_app() -> App {
    App::new(AudioSystem::PipeWire, Config { presets: Vec::new() })
}

fn listing(
    sources: Vec<Source>,
    sinks: Vec<Sink>,
    loopbacks: Vec<Loopback>,
    inputs: Vec<SinkInput>,
) -> Listing {
    Listing { sources: Ok(sources), sinks: Ok(sinks), loopbacks: Ok(loopbacks), sink_inputs: Ok(inputs) }
}

fn populated_app() -> App {
    let mut app = empty_app();
    app.refresh(listing(
        vec![source("mic", "Mic"), source("speakers.monitor", "[mon] Monitor of Speakers")],
        vec![sink("speakers", "Speakers", false), sink("game-out", "game-out", true)],
        vec![loopback(12, "mic", "speakers")],
        vec![stream(5, "Firefox", "speakers")],
    ));
    app
}

fn status(app: &App) -> &str {
    app.status_msg.as_deref().unwrap_or("")
}

/// A key press as the event loop handles it: the status message is cleared first.
fn press(app: &mut App, key: Key) -> Option<Request> {
    app.status_msg = None;
    let (quit, req) = app.handle_key(key, false);
    assert!(!quit);
    req
}

fn type_text(app: &mut App, text: &str) {
    for c in text.chars() {
        assert!(press(app, Key::Char(c)).is_none());
    }
}

#[test]
fn new_app_starts_empty() {
    let app = empty_app();
    assert!(app.sources.is_empty() && app.sinks.is_empty());
    assert_eq!(app.focused, Panel::Sources);
    assert_eq!((app.source_sel, app.sink_sel, app.loopback_sel, app.sink_input_sel), (0, 0, 0, 0));
    assert!(matches!(app.dialog, Dialog::Closed));
    assert!(app.status_msg.is_none());
    assert!(matches!(app.pending, Flow::Idle));
}

#[test]
fn refresh_keeps_selection_within_lists() {
    let mut app = populated_app();
    app.source_sel = 5;
    app.sink_sel = 1;
    app.refresh(listing(vec![source("a", "A"), source("b", "B")], vec![], vec![], vec![]));
    assert_eq!(app.source_sel, 1);
    assert_eq!(app.sink_sel, 0);
    assert!(app.status_msg.is_none());
}

#[test]
fn refresh_reports_last_failed_query_and_keeps_its_list() {
    let mut app = populated_app();
    app.refresh(Listing {
        sources: Err("down".into()),
        sinks: Ok(vec![sink("only", "Only", false)]),
        loopbacks: Err("gone".into()),
        sink_inputs: Ok(vec![]),
    });
    assert_eq!(status(&app), "loopbacks error: gone");
    assert_eq!(app.sources.len(), 2);
    assert_eq!(app.loopbacks.len(), 1);
    assert_eq!(app.sinks.len(), 1);
    let mut app2 = populated_app();
    app2.refresh(Listing {
        sources: Err("a".into()),
        sinks: Err("b".into()),
        loopbacks: Err("c".into()),
        sink_inputs: Err("d".into()),
    });
    assert_eq!(status(&app2), "sink inputs error: d");
    let mut app3 = populated_app();
    app3.refresh(Listing { sources: Err("x".into()), sinks: Ok(vec![]), loopbacks: Ok(vec![]), sink_inputs: Ok(vec![]) });
    assert_eq!(status(&app3), "sources error: x");
}

#[test]
fn selection_moves_within_bounds() {
    let mut app = populated_app();
    app.move_up();
    assert_eq!(app.source_sel, 0);
    app.move_down();
    assert_eq!(app.source_sel, 1);
    app.move_down();
    assert_eq!(app.source_sel, 1);
    app.move_up();
    assert_eq!(app.source_sel, 0);
    app.focused = Panel::Applications;
    app.move_down();
    assert_eq!(app.sink_input_sel, 0);
}

#[test]
fn selected_items() {
    let app = populated_app();
    assert_eq!(app.selected_source().unwrap().name, "mic");
    assert_eq!(app.selected_sink().unwrap().name, "speakers");
    assert_eq!(app.selected_loopback().unwrap().module_id, 12);
    assert_eq!(app.selected_sink_input().unwrap().id, 5);
    assert!(empty_app().selected_sink().is_none());
}

#[test]
fn focus_cycles_through_panels() {
    assert_eq!(Panel::Sources.next(), Panel::Sinks);
    assert_eq!(Panel::Loopbacks.next(), Panel::Sources);
    assert_eq!(Panel::Sources.prev(), Panel::Loopbacks);
    for p in [Panel::Sources, Panel::Sinks, Panel::Applications, Panel::Loopbacks] {
        assert_eq!(p.next().prev(), p);
        assert_eq!(p.prev().next(), p);
        assert_eq!(p.next().next().next().next(), p);
    }
}

#[test]
fn deleting_a_loopback_asks_then_refreshes() {
    let mut app = populated_app();
    app.focused = Panel::Loopbacks;
    let req = app.delete_selected();
    assert!(matches!(req, Some(Request::RemoveLoopback(ref lb)) if lb.module_id == 12));
    let next = app.resume(Reply::Done(Ok(())));
    assert!(matches!(next, Some(Request::List)));
    assert_eq!(status(&app), "Removed loopback mic → speakers");
    let done = app.resume(Reply::Listed(listing(vec![], vec![], vec![], vec![])));
    assert!(done.is_none());
    assert!(app.loopbacks.is_empty());
    assert_eq!(status(&app), "Removed loopback mic → speakers");
    assert!(matches!(app.pending, Flow::Idle));
}

#[test]
fn deleting_reports_errors_and_refusals() {
    let mut app = populated_app();
    app.focused = Panel::Loopbacks;
    app.delete_selected();
    assert!(app.resume(Reply::Done(Err("busy".into()))).is_none());
    assert_eq!(status(&app), "Error: busy");

    app.focused = Panel::Sinks;
    assert!(app.delete_selected().is_none());
    assert_eq!(status(&app), "Can only delete virtual sinks");

    app.sink_sel = 1;
    let req = app.delete_selected();
    assert!(matches!(req, Some(Request::RemoveVirtualSink(ref s)) if s.name == "game-out"));
    assert!(matches!(app.resume(Reply::Done(Ok(()))), Some(Request::List)));
    assert_eq!(status(&app), "Removed virtual sink 'game-out'");

    app.focused = Panel::Sources;
    assert!(app.delete_selected().is_none());
    assert_eq!(status(&app), "Select a loopback or virtual sink to delete");
}

#[test]
fn virtual_input_over_a_sink_monitor() {
    let mut app = empty_app();
    app.begin_create_virtual_source();
    assert_eq!(status(&app), "No sink selected");

    let mut app = populated_app();
    app.refresh(listing(vec![], vec![sink("alsa.output.usb", "USB", false)], vec![], vec![]));
    app.begin_create_virtual_source();
    match &app.dialog {
        Dialog::CreateVirtualSource { sink, name } => {
            assert_eq!(sink.name, "alsa.output.usb");
            assert_eq!(name, "alsa-output-usb-input");
        }
        _ => panic!("expected the virtual input dialog"),
    }
    let req = app.confirm_create_virtual_source();
    match req {
        Some(Request::CreateVirtualSource(name, monitor)) => {
            assert_eq!(name, "alsa-output-usb-input");
            assert_eq!(monitor, "alsa.output.usb.monitor");
        }
        _ => panic!("expected a virtual source request"),
    }
    assert!(matches!(app.resume(Reply::SourceCreated(Ok(source("x", "x")))), Some(Request::List)));
    assert_eq!(
        status(&app),
        "Created virtual input 'alsa-output-usb-input' — select it in your recording app"
    );
    assert!(matches!(app.dialog, Dialog::Closed));
}

#[test]
fn blank_names_do_nothing() {
    let mut app = populated_app();
    app.dialog = Dialog::CreateVirtualSource { sink: sink("s", "S", false), name: "   ".into() };
    assert!(app.confirm_create_virtual_source().is_none());
    app.dialog = Dialog::NewVirtualSink { input: " \t".into() };
    assert!(app.confirm_new_virtual_sink().is_none());
    assert!(app.save_current_as_preset("  ").is_none());
    assert!(app.config.presets.is_empty());
}

#[test]
fn failures_show_in_the_error_dialog() {
    let mut app = populated_app();
    app.dialog = Dialog::NewVirtualSink { input: "x".into() };
    app.confirm_new_virtual_sink();
    assert!(app.resume(Reply::SinkCreated(Err("pactl failed".into()))).is_none());
    assert!(matches!(app.dialog, Dialog::Error(ref e) if e == "pactl failed"));
    assert!(press(&mut app, Key::Char('z')).is_none());
    assert!(matches!(app.dialog, Dialog::Closed));
}

#[test]
fn listening_to_a_sink() {
    let mut app = populated_app();
    app.sink_sel = 1;
    app.begin_listen_to_sink();
    assert!(matches!(app.dialog, Dialog::ListenToSink { ref sink } if sink.name == "game-out"));
    assert_eq!(app.focused, Panel::Sinks);
    app.sink_sel = 0;
    let req = app.confirm_listen_to_sink();
    match req {
        Some(Request::CreateLoopback(monitor, output)) => {
            assert_eq!(monitor.name, "game-out.monitor");
            assert_eq!(monitor.description, "Monitor of game-out");
            assert!(monitor.is_monitor);
            assert_eq!(output.name, "speakers");
        }
        _ => panic!("expected a loopback request"),
    }
    let next = app.resume(Reply::LoopbackCreated(Ok(loopback(40, "game-out.monitor", "speakers"))));
    assert!(matches!(next, Some(Request::List)));
    assert_eq!(status(&app), "Listening: game-out → Speakers");
    assert_eq!(app.focused, Panel::Loopbacks);
    assert!(matches!(app.dialog, Dialog::Closed));
}

#[test]
fn moving_an_application_stream() {
    let mut app = populated_app();
    app.focused = Panel::Applications;
    app.begin_move_sink_input();
    assert_eq!(app.focused, Panel::Sinks);
    app.sink_sel = 1;
    let req = app.confirm_move_sink_input();
    assert!(matches!(req, Some(Request::MoveSinkInput(ref i, ref s)) if i.id == 5 && s.name == "game-out"));
    assert!(matches!(app.resume(Reply::Done(Ok(()))), Some(Request::List)));
    assert_eq!(status(&app), "Moved 'Firefox' → game-out");
    assert_eq!(app.focused, Panel::Applications);

    let mut none = empty_app();
    none.begin_move_sink_input();
    assert_eq!(status(&none), "No application selected");
}

#[test]
fn loopback_wizard_by_keys() {
    let mut app = populated_app();
    assert!(press(&mut app, Key::Char('n')).is_none());
    assert!(matches!(app.dialog, Dialog::NewLoopbackPickSource));
    assert_eq!(app.focused, Panel::Sources);
    press(&mut app, Key::Down);
    assert!(press(&mut app, Key::Enter).is_none());
    assert!(matches!(app.dialog, Dialog::NewLoopbackPickSink { ref source } if source.name == "speakers.monitor"));
    assert_eq!(app.focused, Panel::Sinks);
    press(&mut app, Key::Char('j'));
    let req = press(&mut app, Key::Enter);
    assert!(matches!(req, Some(Request::CreateLoopback(ref s, ref k)) if s.name == "speakers.monitor" && k.name == "game-out"));
    assert_eq!(app.focused, Panel::Loopbacks);
    let next = app.resume(Reply::LoopbackCreated(Ok(loopback(77, "speakers.monitor", "game-out"))));
    assert!(matches!(next, Some(Request::List)));
    assert_eq!(status(&app), "Created loopback speakers.monitor → game-out");
}

#[test]
fn virtual_sink_by_keys() {
    let mut app = populated_app();
    press(&mut app, Key::Char('v'));
    type_text(&mut app, " game-outx");
    press(&mut app, Key::Backspace);
    type_text(&mut app, " ");
    let req = press(&mut app, Key::Enter);
    assert!(matches!(req, Some(Request::CreateVirtualSink(ref n)) if n == "game-out"));
    assert!(matches!(app.resume(Reply::SinkCreated(Ok(sink("game-out", "game-out", true)))), Some(Request::List)));
    assert_eq!(status(&app), "Created virtual sink 'game-out'");
}

#[test]
fn quitting() {
    let mut app = populated_app();
    assert!(app.handle_key(Key::Char('q'), false).0);
    assert!(app.handle_key(Key::Char('Q'), false).0);
    assert!(app.handle_key(Key::Char('c'), true).0);
    assert!(!app.handle_key(Key::Char('c'), false).0);
    press(&mut app, Key::Char('p'));
    assert!(!app.handle_key(Key::Char('q'), false).0);
}

#[test]
fn escape_closes_dialogs() {
    let mut app = populated_app();
    press(&mut app, Key::Char('n'));
    press(&mut app, Key::Esc);
    assert!(matches!(app.dialog, Dialog::Closed));
    app.focused = Panel::Applications;
    app.begin_move_sink_input();
    press(&mut app, Key::Esc);
    assert!(matches!(app.dialog, Dialog::Closed));
    assert_eq!(app.focused, Panel::Applications);
    app.begin_listen_to_sink();
    app.focused = Panel::Loopbacks;
    press(&mut app, Key::Esc);
    assert_eq!(app.focused, Panel::Sinks);
}

#[test]
fn refresh_key_notes_refreshed() {
    let mut app = populated_app();
    app.status_msg = Some("old".into());
    let req = press(&mut app, Key::Char('r'));
    assert!(matches!(req, Some(Request::List)));
    assert!(app.status_msg.is_none());
    app.resume(Reply::Listed(Listing { sources: Err("x".into()), sinks: Ok(vec![]), loopbacks: Ok(vec![]), sink_inputs: Ok(vec![]) }));
    assert_eq!(status(&app), "Refreshed");
}

#[test]
fn saving_and_loading_presets() {
    let mut app = populated_app();
    press(&mut app, Key::Char('p'));
    press(&mut app, Key::Char('s'));
    type_text(&mut app, " streaming ");
    let req = press(&mut app, Key::Enter);
    assert!(matches!(req, Some(Request::SaveConfig)));
    assert!(matches!(app.dialog, Dialog::Closed));
    assert_eq!(app.config.presets.len(), 1);
    let p = &app.config.presets[0];
    assert_eq!(p.name, "streaming");
    assert_eq!(p.virtual_sinks, vec!["game-out".to_string()]);
    assert_eq!((p.loopbacks[0].source.as_str(), p.loopbacks[0].sink.as_str()), ("mic", "speakers"));
    assert!(app.resume(Reply::Done(Ok(()))).is_none());
    assert_eq!(status(&app), "Saved preset 'streaming'");

    app.save_current_as_preset("streaming");
    assert_eq!(app.config.presets.len(), 1);
    app.resume(Reply::Done(Err("disk full".into())));
    assert_eq!(status(&app), "Failed to save preset: disk full");

    // Restore it on a fresh view.
    let mut fresh = App::new(AudioSystem::PulseAudio, Config { presets: vec![app.config.presets[0].clone()] });
    press(&mut fresh, Key::Char('p'));
    let req = press(&mut fresh, Key::Enter);
    assert!(matches!(req, Some(Request::CreateVirtualSink(ref n)) if n == "game-out"));
    let req = fresh.resume(Reply::SinkCreated(Ok(sink("game-out", "game-out", true))));
    assert!(matches!(req, Some(Request::List)));
    let req = fresh.resume(Reply::Listed(listing(
        vec![source("mic", "Mic")],
        vec![sink("speakers", "Speakers", false), sink("game-out", "game-out", true)],
        vec![],
        vec![],
    )));
    assert!(matches!(req, Some(Request::CreateLoopback(ref s, ref k)) if s.name == "mic" && k.name == "speakers"));
    let req = fresh.resume(Reply::LoopbackCreated(Ok(loopback(3, "mic", "speakers"))));
    assert!(matches!(req, Some(Request::List)));
    let req = fresh.resume(Reply::Listed(listing(vec![], vec![], vec![loopback(3, "mic", "speakers")], vec![])));
    assert!(req.is_none());
    assert_eq!(status(&fresh), "Loaded preset 'streaming'");
    assert!(matches!(fresh.dialog, Dialog::Closed));
    assert_eq!(fresh.loopbacks.len(), 1);
}

#[test]
fn loading_skips_loopbacks_whose_ends_are_missing_and_stops_on_error() {
    let preset = Preset {
        name: "p".into(),
        virtual_sinks: vec![],
        loopbacks: vec![
            LoopbackEntry { source: "nope".into(), sink: "speakers".into() },
            LoopbackEntry { source: "mic".into(), sink: "speakers".into() },
        ],
    };
    let mut app = App::new(AudioSystem::PipeWire, Config { presets: vec![preset] });
    let req = app.load_preset(0);
    assert!(matches!(req, Some(Request::List)));
    let req = app.resume(Reply::Listed(listing(
        vec![source("mic", "Mic")],
        vec![sink("speakers", "Speakers", false)],
        vec![],
        vec![],
    )));
    assert!(matches!(req, Some(Request::CreateLoopback(ref s, _)) if s.name == "mic"));
    assert!(app.resume(Reply::LoopbackCreated(Err("refused".into()))).is_none());
    assert!(matches!(app.dialog, Dialog::Error(ref e) if e == "refused"));

    let mut none = empty_app();
    none.dialog = Dialog::Presets { selected: 0 };
    assert!(none.load_preset(3).is_none());
    assert!(matches!(none.dialog, Dialog::Presets { selected: 0 }));
}

#[test]
fn unexpected_reply_ends_the_operation() {
    let mut app = populated_app();
    app.focused = Panel::Loopbacks;
    app.delete_selected();
    assert!(app.resume(Reply::SinkCreated(Ok(sink("a", "a", true)))).is_none());
    assert!(matches!(app.pending, Flow::Idle));
    assert!(app.status_msg.is_none());
}

#[test]
fn presets_dialog_navigation() {
    let p = |n: &str| Preset { name: n.into(), virtual_sinks: vec![], loopbacks: vec![] };
    let mut app = App::new(AudioSystem::PipeWire, Config { presets: vec![p("a"), p("b")] });
    press(&mut app, Key::Char('p'));
    press(&mut app, Key::Up);
    assert!(matches!(app.dialog, Dialog::Presets { selected: 0 }));
    press(&mut app, Key::Down);
    assert!(matches!(app.dialog, Dialog::Presets { selected: 1 }));
    press(&mut app, Key::Down);
    assert!(matches!(app.dialog, Dialog::Presets { selected: 1 }));
    let mut empty = empty_app();
    press(&mut empty, Key::Char('p'));
    assert!(press(&mut empty, Key::Enter).is_none());
    assert!(matches!(empty.dialog, Dialog::Presets { selected: 0 }));
}

#[test]
fn adding_a_preset_replaces_one_of_the_same_name() {
    let p = |n: &str, vs: &[&str]| Preset {
        name: n.into(),
        virtual_sinks: vs.iter().map(|s| s.to_string()).collect(),
        loopbacks: vec![],
    };
    let mut c = Config::default();
    c.add_or_replace_preset(p("a", &[]));
    c.add_or_replace_preset(p("b", &[]));
    c.add_or_replace_preset(p("a", &["x"]));
    assert_eq!(c.presets.len(), 2);
    assert_eq!(c.presets[0].name, "a");
    assert_eq!(c.presets[0].virtual_sinks, vec!["x".to_string()]);
    assert_eq!(c.presets[1].name, "b");
}

fn list_names(app: &App) -> Vec<String> {
    let mut names: Vec<String> = Vec::new();
    names.extend(app.sources.iter().map(|s| s.name.clone()));
    names.extend(app.sinks.iter().map(|s| s.name.clone()));
    names.extend(app.loopbacks.iter().map(|l| format!("{}:{}>{}", l.module_id, l.source_name, l.sink_name)));
    names.extend(app.sink_inputs.iter().map(|i| format!("{}:{}@{}", i.id, i.app_name, i.current_sink_name)));
    names
}

#[test]
fn keys_never_change_the_lists() {
    let mut app = populated_app();
    let before = list_names(&app);
    let keys = [
        Key::Down, Key::Char('j'), Key::Up, Key::Tab, Key::BackTab, Key::Char('n'), Key::Down,
        Key::Enter, Key::Up, Key::Esc, Key::Char('v'), Key::Char('x'), Key::Backspace, Key::Esc,
        Key::Char('p'), Key::Down, Key::Esc, Key::Char('s'), Key::Char('a'), Key::Esc, Key::Tab,
        Key::Char('l'), Key::Down, Key::Esc, Key::Char('i'), Key::Esc, Key::Tab, Key::Char('m'),
        Key::Up, Key::Esc, Key::Delete, Key::Char('d'), Key::Other, Key::Char('r'),
    ];
    for key in keys {
        let _ = app.handle_key(key, false);
        assert_eq!(list_names(&app), before);
    }
}

#[test]
fn successful_change_is_followed_by_a_refresh_and_a_failed_one_is_not() {
    let mut app = populated_app();
    app.focused = Panel::Sinks;
    app.sink_sel = 1;
    let req = app.delete_selected();
    assert!(matches!(req, Some(Request::RemoveVirtualSink(ref s)) if s.name == "game-out"));
    assert!(matches!(app.resume(Reply::Done(Ok(()))), Some(Request::List)));
    assert!(matches!(app.pending, Flow::Refreshing { note: None }));

    let mut app = populated_app();
    app.focused = Panel::Sinks;
    app.sink_sel = 1;
    let _ = app.delete_selected();
    assert!(app.resume(Reply::Done(Err("busy".into()))).is_none());
    assert!(matches!(app.pending, Flow::Idle));
}

#[test]
fn quit_key_leaves_the_app_as_it_was() {
    let mut app = populated_app();
    app.status_msg = Some("kept".into());
    assert!(app.handle_key(Key::Char('q'), false).0);
    assert_eq!(status(&app), "kept");
    assert!(matches!(app.dialog, Dialog::Closed));
}

#[test]
fn handle_key_itself_keeps_the_status() {
    let mut app = populated_app();
    app.status_msg = Some("kept".into());
    let (quit, req) = app.handle_key(Key::Tab, false);
    assert!(!quit && req.is_none());
    assert_eq!(status(&app), "kept");
    assert_eq!(app.focused, Panel::Sinks);
}

#[test]
fn loading_a_preset_past_the_list_changes_nothing() {
    let p = |n: &str| Preset { name: n.into(), virtual_sinks: vec!["v".into()], loopbacks: vec![] };
    let mut app = App::new(AudioSystem::PipeWire, Config { presets: vec![p("a")] });
    app.dialog = Dialog::Presets { selected: 3 };
    app.status_msg = Some("kept".into());
    assert!(app.load_preset(3).is_none());
    assert!(matches!(app.dialog, Dialog::Presets { selected: 3 }));
    assert!(matches!(app.pending, Flow::Idle));
    assert_eq!(status(&app), "kept");
    // The presets dialog closes when Enter finds nothing to load.
    assert!(press(&mut app, Key::Enter).is_none());
    assert!(matches!(app.dialog, Dialog::Closed));
    assert!(matches!(app.pending, Flow::Idle));
}

#[test]
fn typing_then_erasing_restores_the_name() {
    let mut app = populated_app();
    press(&mut app, Key::Char('v'));
    type_text(&mut app, "out");
    press(&mut app, Key::Char('x'));
    press(&mut app, Key::Backspace);
    assert!(matches!(app.dialog, Dialog::NewVirtualSink { ref input } if input == "out"));
    let mut empty = populated_app();
    press(&mut empty, Key::Char('v'));
    press(&mut empty, Key::Backspace);
    assert!(matches!(empty.dialog, Dialog::NewVirtualSink { ref input } if input.is_empty()));
}
