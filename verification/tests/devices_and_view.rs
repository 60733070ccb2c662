use sinkercli::app::{App, Dialog, Panel};
use sinkercli::audio::{detect, runtime_dir_from, AudioSystem, Loopback, Sink, SinkInput, Source};
use sinkercli::config::{Config, LoopbackEntry, Preset};
use sinkercli::pulse::{
    loopbacks_from_modules, null_sink_modules, sink_inputs_from_infos, sinks_from_infos,
    source_from_info, sources_from_infos, ModuleInfo, SinkInfo, SinkInputInfo, SourceInfo,
};
use sinkercli::view::{
    centered_rect, dialog_hint, loopback_label, panel_highlighted, preset_summary,
    sink_input_target, sink_label, Rect,
};

fn some(s: &str) -> Option<String> {
    Some(s.to_string())
}

#[test]
fn labels_of_audio_systems() {
    assert_eq!(AudioSystem::PipeWire.label(), "PipeWire");
    assert_eq!(AudioSystem::PulseAudio.label(), "PulseAudio");
    assert_eq!(detect(true), AudioSystem::PipeWire);
    assert_eq!(detect(false), AudioSystem::PulseAudio);
}

#[test]
fn runtime_dir_prefers_environment_then_uid() {
    assert_eq!(runtime_dir_from(some("/run/user/42"), some("Uid:\t7\t7\t7\t7\n")), "/run/user/42");
    let status = "Name:\tbash\nUmask:\t0022\nUid:\t1001\t1001\t1001\t1001\nGid:\t1001\n";
    assert_eq!(runtime_dir_from(None, some(status)), "/run/user/1001");
    assert_eq!(runtime_dir_from(None, some("Uid:\t\nUid:\t5 5\n")), "/run/user/5");
    assert_eq!(runtime_dir_from(None, some("Name:\tx\n")), "/run/user/1000");
    assert_eq!(runtime_dir_from(None, None), "/run/user/1000");
}

#[test]
fn sources_mark_monitors() {
    let mon = source_from_info(&SourceInfo { name: some("hp.monitor"), description: some("Monitor of HP") });
    assert!(mon.is_monitor);
    assert_eq!(mon.description, "[mon] Monitor of HP");
    let mic = source_from_info(&SourceInfo { name: some("mic"), description: None });
    assert!(!mic.is_monitor);
    assert_eq!(mic.description, "mic");
    let anon = source_from_info(&SourceInfo { name: None, description: None });
    assert_eq!((anon.name.as_str(), anon.description.as_str()), ("", ""));
    assert_eq!(sources_from_infos(&vec![SourceInfo { name: some("a"), description: some("A") }]).len(), 1);
}

fn module(index: u32, name: &str, arg: Option<&str>) -> ModuleInfo {
    ModuleInfo { index, name: some(name), argument: arg.map(|a| a.to_string()) }
}

#[test]
fn modules_give_null_sinks_and_loopbacks() {
    let mods = vec![
        module(1, "module-null-sink", Some("sink_name=game")),
        module(2, "module-loopback", Some("source=mic sink=\"hp\" latency_msec=50")),
        module(3, "module-alsa-card", None),
        module(4, "module-null-sink", None),
        module(5, "module-loopback", None),
    ];
    assert_eq!(null_sink_modules(&mods), vec![1, 4]);
    let lbs = loopbacks_from_modules(&mods);
    assert_eq!(lbs.len(), 2);
    assert_eq!((lbs[0].module_id, lbs[0].source_name.as_str(), lbs[0].sink_name.as_str()), (2, "mic", "hp"));
    assert_eq!((lbs[1].module_id, lbs[1].source_name.as_str(), lbs[1].sink_name.as_str()), (5, "", ""));
}

#[test]
fn sinks_owned_by_null_modules_are_virtual() {
    let infos = vec![
        SinkInfo { index: 0, name: some("hp"), description: some("Headphones"), owner_module: Some(7) },
        SinkInfo { index: 1, name: some("game"), description: None, owner_module: Some(4) },
        SinkInfo { index: 2, name: None, description: None, owner_module: None },
    ];
    let sinks = sinks_from_infos(&infos, &vec![4]);
    assert!(!sinks[0].is_virtual && sinks[1].is_virtual && !sinks[2].is_virtual);
    assert_eq!(sinks[0].description, "Headphones");
    assert_eq!(sinks[1].description, "game");
    assert_eq!(sinks[2].name, "");
}

#[test]
fn streams_name_their_application_and_sink() {
    let sinks = vec![
        SinkInfo { index: 0, name: some("hp"), description: None, owner_module: None },
        SinkInfo { index: 3, name: some("game"), description: None, owner_module: None },
    ];
    let infos = vec![
        SinkInputInfo { index: 10, application_name: some("Firefox"), name: some("AudioStream"), sink: 3 },
        SinkInputInfo { index: 11, application_name: None, name: some("Playback"), sink: 0 },
        SinkInputInfo { index: 12, application_name: None, name: None, sink: 9 },
    ];
    let s = sink_inputs_from_infos(&infos, &sinks);
    assert_eq!((s[0].app_name.as_str(), s[0].current_sink_name.as_str()), ("Firefox", "game"));
    assert_eq!((s[1].app_name.as_str(), s[1].current_sink_name.as_str()), ("Playback", "hp"));
    assert_eq!((s[2].app_name.as_str(), s[2].current_sink_name.as_str()), ("stream 12", ""));
    assert_eq!(s[2].id, 12);
}

#[test]
fn panel_highlighting_follows_focus_and_dialog() {
    let mut app = App::new(AudioSystem::PipeWire, Config::default());
    assert!(panel_highlighted(&app, Panel::Sources));
    assert!(!panel_highlighted(&app, Panel::Sinks));
    app.focused = Panel::Loopbacks;
    app.dialog = Dialog::MoveSinkInput {
        input: SinkInput { id: 1, app_name: "a".into(), current_sink_name: "b".into() },
    };
    assert!(panel_highlighted(&app, Panel::Applications));
    assert!(panel_highlighted(&app, Panel::Sinks));
    assert!(panel_highlighted(&app, Panel::Loopbacks));
    assert!(!panel_highlighted(&app, Panel::Sources));
}

#[test]
fn list_entry_texts() {
    let virt = Sink { name: "g".into(), description: "game-out".into(), is_virtual: true };
    let real = Sink { name: "h".into(), description: "Headphones".into(), is_virtual: false };
    assert_eq!(sink_label(&virt), "[null] game-out");
    assert_eq!(sink_label(&real), "Headphones");
    let si = SinkInput { id: 1, app_name: "Firefox".into(), current_sink_name: "hp".into() };
    assert_eq!(sink_input_target(&si), "  → hp");
    let lb = Loopback { module_id: 9, source_name: "game-out.monitor".into(), sink_name: "Headphones".into() };
    assert_eq!(loopback_label(0, &lb), "  1  game-out.monitor → Headphones");
    assert_eq!(loopback_label(9, &lb), "  10  game-out.monitor → Headphones");
}

#[test]
fn preset_summaries_count_with_plurals() {
    let one = Preset {
        name: "p".into(),
        virtual_sinks: vec!["a".into()],
        loopbacks: vec![LoopbackEntry { source: "s".into(), sink: "k".into() }],
    };
    assert_eq!(preset_summary(&one), "  (1 loopback, 1 virtual sink)");
    let none = Preset { name: "q".into(), virtual_sinks: vec![], loopbacks: vec![] };
    assert_eq!(preset_summary(&none), "  (0 loopbacks, 0 virtual sinks)");
}

#[test]
fn hints_of_picking_dialogs() {
    assert_eq!(dialog_hint(&Dialog::NewLoopbackPickSource).unwrap(), "Select source, then press Enter");
    let src = Source { name: "m".into(), description: "Mic".into(), is_monitor: false };
    assert_eq!(
        dialog_hint(&Dialog::NewLoopbackPickSink { source: src }).unwrap(),
        "Source: Mic  —  now select a sink"
    );
    let sink = Sink { name: "g".into(), description: "Game".into(), is_virtual: true };
    assert_eq!(
        dialog_hint(&Dialog::ListenToSink { sink }).unwrap(),
        "Listening to 'Game'  —  select output sink, then press Enter"
    );
    let input = SinkInput { id: 1, app_name: "Spotify".into(), current_sink_name: "x".into() };
    assert_eq!(
        dialog_hint(&Dialog::MoveSinkInput { input }).unwrap(),
        "Moving 'Spotify'  —  select target sink, then press Enter"
    );
    assert!(dialog_hint(&Dialog::Closed).is_none());
    assert!(dialog_hint(&Dialog::Presets { selected: 0 }).is_none());
}

#[test]
fn popups_are_centred() {
    let r = Rect { x: 0, y: 0, width: 100, height: 40 };
    assert_eq!(centered_rect(50, 6, r), Rect { x: 25, y: 17, width: 50, height: 6 });
    let small = Rect { x: 2, y: 3, width: 10, height: 4 };
    assert_eq!(centered_rect(60, 40, small), Rect { x: 4, y: 3, width: 6, height: 4 });
}

#[test]
fn input_popups_of_naming_dialogs() {
    let sink = Sink { name: "g".into(), description: "Game".into(), is_virtual: true };
    let p = sinkercli::view::dialog_input_popup(&Dialog::CreateVirtualSource { sink, name: "g-input".into() })
        .unwrap();
    assert_eq!(p.title, " Create Virtual Input ");
    assert_eq!(p.prompt, "Virtual mic name (wraps monitor of 'Game'):");
    assert_eq!(p.field, "g-input_");
    let q = sinkercli::view::dialog_input_popup(&Dialog::SavePreset { input: "st".into() }).unwrap();
    assert_eq!((q.title.as_str(), q.prompt.as_str(), q.field.as_str()), (" Save Preset ", "Preset name:", "st_"));
    let r = sinkercli::view::dialog_input_popup(&Dialog::NewVirtualSink { input: String::new() }).unwrap();
    assert_eq!((r.title.as_str(), r.prompt.as_str(), r.field.as_str()), (" New Virtual Sink ", "Sink name:", "_"));
    assert!(sinkercli::view::dialog_input_popup(&Dialog::Error("x".into())).is_none());
}
