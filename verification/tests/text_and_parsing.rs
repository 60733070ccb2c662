use sinkercli::pulse::{
    extract_arg, find_sink_module_id, list_sinks_command, loopback_command, loopback_outcome,
    move_outcome, move_sink_input_command, null_sink_command, unload_command, unload_outcome,
    virtual_sink_outcome, virtual_source_command, virtual_source_outcome, CommandOutput,
};
use sinkercli::audio::{Sink, SinkInput, Source};
use sinkercli::text::{
    contains_str, decimal_string, ends_with, lines_of, parse_u32_str, replace_char_str,
    split_whitespace, starts_with, strip_prefix, trim_matches_char, trim_str,
};

fn src(name: &str) -> Source {
    Source { name: name.to_string(), description: name.to_string(), is_monitor: false }
}

fn sink(name: &str, desc: &str, is_virtual: bool) -> Sink {
    Sink { name: name.to_string(), description: desc.to_string(), is_virtual }
}

#[test]
fn trim_removes_unicode_whitespace_at_both_ends() {
    assert_eq!(trim_str("  \t hello world \r\n"), "hello world");
    assert_eq!(trim_str("\u{3000}x\u{a0}"), "x");
    assert_eq!(trim_str("   "), "");
    assert_eq!(trim_str(""), "");
}

#[test]
fn trim_is_idempotent_on_examples() {
    for s in ["  a b  ", "x", " \u{2003}y\u{2003} ", ""] {
        let once = trim_str(s);
        assert_eq!(trim_str(&once), once);
    }
}

#[test]
fn split_whitespace_gives_words() {
    assert_eq!(split_whitespace("  a  bb\tc\n"), vec!["a", "bb", "c"]);
    assert!(split_whitespace(" \t ").is_empty());
    assert_eq!(split_whitespace("one"), vec!["one"]);
}

#[test]
fn lines_follow_str_lines() {
    for s in ["a\nb", "a\r\nb\r\n", "", "\n", "x\r", "a\n\nb\n"] {
        let expected: Vec<String> = s.lines().map(|l| l.to_string()).collect();
        assert_eq!(lines_of(s), expected, "lines of {:?}", s);
    }
}

#[test]
fn prefix_suffix_and_contains() {
    assert!(starts_with("Owner Module: 5", "Owner Module:"));
    assert!(!starts_with("Own", "Owner"));
    assert!(ends_with("foo.monitor", ".monitor"));
    assert!(!ends_with("monitor", ".monitor"));
    assert_eq!(strip_prefix("sink=abc", "sink="), Some("abc".to_string()));
    assert_eq!(strip_prefix("source=abc", "sink="), None);
    assert!(contains_str("xx Name: foo yy", "Name: foo"));
    assert!(!contains_str("Name: fo", "Name: foo"));
    assert!(contains_str("abc", ""));
}

#[test]
fn trim_quotes_and_replace() {
    assert_eq!(trim_matches_char("\"\"abc\"", '"'), "abc");
    assert_eq!(trim_matches_char("\"\"", '"'), "");
    assert_eq!(replace_char_str("alsa.out.1", '.', '-'), "alsa-out-1");
}

#[test]
fn decimal_and_parse_agree_with_std() {
    for n in [0u64, 7, 10, 99, 1000, 4294967295, u64::MAX] {
        assert_eq!(decimal_string(n), n.to_string());
    }
    for s in ["0", "42", "+42", "007", "4294967295", "4294967296", "", "+", "-1", "4a", " 1"] {
        assert_eq!(parse_u32_str(s), s.parse::<u32>().ok(), "parse of {:?}", s);
    }
    for n in [0u32, 9, 10, 123456, u32::MAX] {
        assert_eq!(parse_u32_str(&decimal_string(n as u64)), Some(n));
    }
}

#[test]
fn extract_arg_finds_first_prefixed_word() {
    let args = "source=alsa_input.mic sink=\"game-out\" latency_msec=50";
    assert_eq!(extract_arg(args, "source"), Some("alsa_input.mic".to_string()));
    assert_eq!(extract_arg(args, "sink"), Some("game-out".to_string()));
    assert_eq!(extract_arg(args, "rate"), None);
    assert_eq!(extract_arg("", "sink"), None);
}

#[test]
fn loopback_arguments_read_back() {
    let args = loopback_command(&src("mic.monitor"), &sink("headphones", "Headphones", false));
    let joined = args[2..].join(" ");
    assert_eq!(extract_arg(&joined, "source"), Some("mic.monitor".to_string()));
    assert_eq!(extract_arg(&joined, "sink"), Some("headphones".to_string()));
}

const PACTL_SINKS: &str = "Sink #0\n\tState: RUNNING\n\tName: alsa_output.speakers\n\tDescription: Speakers\n\tOwner Module: 7\nSink #3\n\tState: IDLE\n\tName: game-out\n\tDescription: game-out\n\tDriver: module-null-sink.c\n\tOwner Module: 23\n\tMonitor Source: game-out.monitor\n";

#[test]
fn find_sink_module_id_reads_owner_of_named_sink() {
    assert_eq!(find_sink_module_id(PACTL_SINKS, "game-out"), Some(23));
    assert_eq!(find_sink_module_id(PACTL_SINKS, "alsa_output.speakers"), Some(7));
    assert_eq!(find_sink_module_id(PACTL_SINKS, "missing"), None);
}

#[test]
fn find_sink_module_id_skips_na_and_stops_at_next_sink() {
    let text = "Sink #1\n\tName: a\n\tOwner Module: n/a\nSink #2\n\tName: b\n\tOwner Module: 9\n";
    assert_eq!(find_sink_module_id(text, "a"), None);
    let bad = "Sink #1\n\tName: a\n\tOwner Module: x1\n";
    assert_eq!(find_sink_module_id(bad, "a"), None);
}

#[test]
fn command_lines() {
    assert_eq!(
        loopback_command(&src("mic"), &sink("out", "Out", false)),
        vec!["load-module", "module-loopback", "source=mic", "sink=out", "latency_msec=50"]
    );
    assert_eq!(
        null_sink_command("game"),
        vec!["load-module", "module-null-sink", "sink_name=game", "sink_properties=device.description=game"]
    );
    assert_eq!(
        virtual_source_command("vmic", "game.monitor"),
        vec![
            "load-module",
            "module-virtual-source",
            "source_name=vmic",
            "master=game.monitor",
            "source_properties=device.description=vmic"
        ]
    );
    let input = SinkInput { id: 42, app_name: "Firefox".into(), current_sink_name: "out".into() };
    assert_eq!(move_sink_input_command(&input, &sink("hp", "HP", false)), vec!["move-sink-input", "42", "hp"]);
    assert_eq!(unload_command(17), vec!["unload-module", "17"]);
    assert_eq!(list_sinks_command(), vec!["list", "sinks"]);
}

fn output(success: bool, stdout: &str, stderr: &str) -> CommandOutput {
    CommandOutput { success, stdout: stdout.to_string(), stderr: stderr.to_string() }
}

#[test]
fn command_outcomes() {
    let s = src("mic");
    let k = sink("out", "Out", false);
    let lb = loopback_outcome(&output(true, " 31\n", ""), &s, &k).unwrap();
    assert_eq!((lb.module_id, lb.source_name.as_str(), lb.sink_name.as_str()), (31, "mic", "out"));
    assert_eq!(
        loopback_outcome(&output(true, "oops", ""), &s, &k).unwrap_err(),
        "Could not parse module ID from pactl output"
    );
    assert_eq!(
        loopback_outcome(&output(false, "", "no such"), &s, &k).unwrap_err(),
        "pactl load-module module-loopback failed: no such"
    );
    let made = virtual_sink_outcome(&output(true, "", ""), "game").unwrap();
    assert!(made.is_virtual && made.name == "game" && made.description == "game");
    assert_eq!(
        virtual_sink_outcome(&output(false, "", "bad"), "game").unwrap_err(),
        "pactl load-module module-null-sink failed: bad"
    );
    let vs = virtual_source_outcome(&output(true, "", ""), "vmic").unwrap();
    assert!(!vs.is_monitor && vs.name == "vmic");
    assert_eq!(
        virtual_source_outcome(&output(false, "", "e"), "vmic").unwrap_err(),
        "pactl load-module module-virtual-source failed: e"
    );
    assert!(move_outcome(&output(true, "", "")).is_ok());
    assert_eq!(move_outcome(&output(false, "", "x")).unwrap_err(), "pactl move-sink-input failed: x");
    assert!(unload_outcome(3, &output(true, "", "")).is_ok());
    assert_eq!(
        unload_outcome(3, &output(false, "", "gone")).unwrap_err(),
        "pactl unload-module 3 failed: gone"
    );
}

#[test]
fn find_sink_module_id_matches_the_whole_name() {
    let text = "Sink #1\n\tName: game-out\n\tOwner Module: 23\nSink #2\n\tName: game\n\tOwner Module: 24\n";
    assert_eq!(find_sink_module_id(text, "game"), Some(24));
    assert_eq!(find_sink_module_id(text, "game-out"), Some(23));
    assert_eq!(find_sink_module_id(text, "gam"), None);
}
