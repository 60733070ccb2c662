//! What the PulseAudio backend computes: the `pactl` command lines it runs, how it
//! reads their output, and how it turns the server's introspection records into
//! sources, sinks, loopbacks and application streams.

use vstd::prelude::*;
use crate::audio::{opt_view, Loopback, Sink, SinkInput, Source};
use crate::text::{
    concat2,
    concat3,
    decimal,
    decimal_string,
    ends_with,
    has_prefix,
    has_suffix,
    is_ws,
    lines_of,
    parse_u32,
    parse_u32_str,
    split_whitespace,
    starts_with,
    str_views,
    strip_prefix,
    strip_start_char,
    text_lines,
    trim,
    trim_char,
    trim_matches_char,
    trim_str,
    words,
    words_from,
};

verus! {

/// The first of `ws` that starts with `p`, without that prefix.
pub open spec fn after_first_prefixed(ws: Seq<Seq<char>>, p: Seq<char>) -> Option<Seq<char>>
    decreases ws.len(),
{
    if ws.len() == 0 {
        None
    } else if has_prefix(ws[0], p) {
        Some(ws[0].skip(p.len() as int))
    } else {
        after_first_prefixed(ws.drop_first(), p)
    }
}

/// The value of `key` in a module argument string such as `source=a sink=b`: the
/// first word that starts with `key=`, after it, without surrounding double quotes.
pub open spec fn arg_value(args: Seq<char>, key: Seq<char>) -> Option<Seq<char>> {
    match after_first_prefixed(words(args), key + "="@) {
        Some(v) => Some(trim_char(v, '"')),
        None => None,
    }
}

/// The value of `key` in the module argument string `args`.
pub fn extract_arg(args: &str, key: &str) -> (r: Option<String>)
    ensures
        match r {
            Some(v) => arg_value(args@, key@) == Some(v@),
            None => arg_value(args@, key@) is None,
        },
{
    let ws = split_whitespace(args);
    let prefix = concat2(key, "=");
    let ghost all = str_views(ws@);
    let mut i: usize = 0;
    assert(all.skip(0) =~= all);
    while i < ws.len()
        invariant
            all == str_views(ws@),
            all == words(args@),
            prefix@ == key@ + "="@,
            i <= ws@.len(),
            after_first_prefixed(all, prefix@) == after_first_prefixed(all.skip(i as int), prefix@),
        decreases ws@.len() - i,
    {
        let ghost rest = all.skip(i as int);
        assert(rest[0] == ws@[i as int]@);
        assert(rest.drop_first() =~= all.skip(i + 1));
        if let Some(val) = strip_prefix(ws[i].as_str(), prefix.as_str()) {
            assert(has_prefix(rest[0], prefix@));
            return Some(trim_matches_char(val.as_str(), '"'));
        }
        i = i + 1;
    }
    assert(all.skip(i as int).len() == 0);
    None
}

/// The module that owns the sink named `name` in the text of `pactl list sinks`:
/// from the line that reads `Name: <name>` once trimmed on, the first `Owner Module:` line whose
/// value is not `n/a`, parsed as a number, unless a line that starts with `Sink #`
/// comes first. `in_target` says whether such a name line was already seen.
pub open spec fn owner_module_scan(lines: Seq<Seq<char>>, name: Seq<char>, in_target: bool) -> Option<
    u32,
>
    decreases lines.len(),
{
    if lines.len() == 0 {
        None
    } else {
        let t = trim(lines[0]);
        let inside = in_target || t == "Name: "@ + name;
        let value = trim(t.skip("Owner Module:"@.len() as int));
        if inside && has_prefix(t, "Owner Module:"@) && value != "n/a"@ {
            parse_u32(value)
        } else {
            owner_module_scan(lines.drop_first(), name, inside && !has_prefix(t, "Sink #"@))
        }
    }
}

/// The module that owns the sink named `sink_name`, read from the text of `pactl list sinks`.
pub fn find_sink_module_id(text: &str, sink_name: &str) -> (r: Option<u32>)
    ensures
        r == owner_module_scan(text_lines(text@), sink_name@, false),
{
    let ls = lines_of(text);
    let pattern = concat2("Name: ", sink_name);
    let ghost all = str_views(ls@);
    let mut in_target = false;
    let mut i: usize = 0;
    assert(all.skip(0) =~= all);
    while i < ls.len()
        invariant
            all == str_views(ls@),
            all == text_lines(text@),
            pattern@ == "Name: "@ + sink_name@,
            i <= ls@.len(),
            owner_module_scan(all, sink_name@, false) == owner_module_scan(
                all.skip(i as int),
                sink_name@,
                in_target,
            ),
        decreases ls@.len() - i,
    {
        let ghost rest = all.skip(i as int);
        assert(rest[0] == ls@[i as int]@);
        assert(rest.drop_first() =~= all.skip(i + 1));
        let trimmed = trim_str(ls[i].as_str());
        if trimmed == pattern {
            in_target = true;
        }
        if in_target {
            if let Some(rest_of_line) = strip_prefix(trimmed.as_str(), "Owner Module:") {
                let id_str = trim_str(rest_of_line.as_str());
                let na = String::from_str("n/a");
                if id_str != na {
                    return parse_u32_str(id_str.as_str());
                }
            }
            if starts_with(trimmed.as_str(), "Sink #") {
                in_target = false;
            }
        }
        i = i + 1;
    }
    assert(all.skip(i as int).len() == 0);
    None
}

/// How a finished `pactl` run ended: whether it succeeded, and its standard output
/// and standard error as text.
#[derive(Debug, Clone)]
pub struct CommandOutput {
    pub success: bool,
    pub stdout: String,
    pub stderr: String,
}

/// The arguments of `pactl` that load a loopback from `source` into `sink`.
pub fn loopback_command(source: &Source, sink: &Sink) -> (r: Vec<String>)
    ensures
        str_views(r@) == seq![
            "load-module"@,
            "module-loopback"@,
            "source="@ + source.name@,
            "sink="@ + sink.name@,
            "latency_msec=50"@,
        ],
{
    let mut r: Vec<String> = Vec::new();
    r.push(String::from_str("load-module"));
    r.push(String::from_str("module-loopback"));
    r.push(concat2("source=", source.name.as_str()));
    r.push(concat2("sink=", sink.name.as_str()));
    r.push(String::from_str("latency_msec=50"));
    assert(str_views(r@) =~= seq![
        "load-module"@,
        "module-loopback"@,
        "source="@ + source.name@,
        "sink="@ + sink.name@,
        "latency_msec=50"@,
    ]);
    r
}

/// The arguments of `pactl` that load a null sink named `name`.
pub fn null_sink_command(name: &str) -> (r: Vec<String>)
    ensures
        str_views(r@) == seq![
            "load-module"@,
            "module-null-sink"@,
            "sink_name="@ + name@,
            "sink_properties=device.description="@ + name@,
        ],
{
    let mut r: Vec<String> = Vec::new();
    r.push(String::from_str("load-module"));
    r.push(String::from_str("module-null-sink"));
    r.push(concat2("sink_name=", name));
    r.push(concat2("sink_properties=device.description=", name));
    assert(str_views(r@) =~= seq![
        "load-module"@,
        "module-null-sink"@,
        "sink_name="@ + name@,
        "sink_properties=device.description="@ + name@,
    ]);
    r
}

/// The arguments of `pactl` that load a virtual source named `name` over `monitor`.
pub fn virtual_source_command(name: &str, monitor: &str) -> (r: Vec<String>)
    ensures
        str_views(r@) == seq![
            "load-module"@,
            "module-virtual-source"@,
            "source_name="@ + name@,
            "master="@ + monitor@,
            "source_properties=device.description="@ + name@,
        ],
{
    let mut r: Vec<String> = Vec::new();
    r.push(String::from_str("load-module"));
    r.push(String::from_str("module-virtual-source"));
    r.push(concat2("source_name=", name));
    r.push(concat2("master=", monitor));
    r.push(concat2("source_properties=device.description=", name));
    assert(str_views(r@) =~= seq![
        "load-module"@,
        "module-virtual-source"@,
        "source_name="@ + name@,
        "master="@ + monitor@,
        "source_properties=device.description="@ + name@,
    ]);
    r
}

/// The arguments of `pactl` that move the stream `input` to `sink`.
pub fn move_sink_input_command(input: &SinkInput, sink: &Sink) -> (r: Vec<String>)
    ensures
        str_views(r@) == seq!["move-sink-input"@, decimal(input.id as nat), sink.name@],
{
    let mut r: Vec<String> = Vec::new();
    r.push(String::from_str("move-sink-input"));
    r.push(decimal_string(input.id as u64));
    r.push(sink.name.clone());
    assert(str_views(r@) =~= seq!["move-sink-input"@, decimal(input.id as nat), sink.name@]);
    r
}

/// The arguments of `pactl` that unload the module `module_id`.
pub fn unload_command(module_id: u32) -> (r: Vec<String>)
    ensures
        str_views(r@) == seq!["unload-module"@, decimal(module_id as nat)],
{
    let mut r: Vec<String> = Vec::new();
    r.push(String::from_str("unload-module"));
    r.push(decimal_string(module_id as u64));
    assert(str_views(r@) =~= seq!["unload-module"@, decimal(module_id as nat)]);
    r
}

/// The arguments of `pactl` that list the sinks in detail.
pub fn list_sinks_command() -> (r: Vec<String>)
    ensures
        str_views(r@) == seq!["list"@, "sinks"@],
{
    let mut r: Vec<String> = Vec::new();
    r.push(String::from_str("list"));
    r.push(String::from_str("sinks"));
    assert(str_views(r@) =~= seq!["list"@, "sinks"@]);
    r
}

/// The loopback that `pactl load-module module-loopback` created: its module number
/// is the trimmed standard output.
pub fn loopback_outcome(out: &CommandOutput, source: &Source, sink: &Sink) -> (r: Result<
    Loopback,
    String,
>)
    ensures
        !out.success ==> (r matches Err(e) && e@ == "pactl load-module module-loopback failed: "@
            + out.stderr@),
        out.success && parse_u32(trim(out.stdout@)) is None ==> (r matches Err(e) && e@
            == "Could not parse module ID from pactl output"@),
        out.success && parse_u32(trim(out.stdout@)) is Some ==> r == Ok::<Loopback, String>(
            Loopback {
                module_id: parse_u32(trim(out.stdout@))->0,
                source_name: source.name,
                sink_name: sink.name,
            },
        ),
{
    if !out.success {
        return Err(concat2("pactl load-module module-loopback failed: ", out.stderr.as_str()));
    }
    let text = trim_str(out.stdout.as_str());
    match parse_u32_str(text.as_str()) {
        Some(module_id) => Ok(
            Loopback { module_id, source_name: source.name.clone(), sink_name: sink.name.clone() },
        ),
        None => Err(String::from_str("Could not parse module ID from pactl output")),
    }
}

/// The sink that `pactl load-module module-null-sink` created.
pub fn virtual_sink_outcome(out: &CommandOutput, name: &str) -> (r: Result<Sink, String>)
    ensures
        !out.success ==> (r matches Err(e) && e@ == "pactl load-module module-null-sink failed: "@
            + out.stderr@),
        out.success ==> (r matches Ok(s) && s.name@ == name@ && s.description@ == name@
            && s.is_virtual),
{
    if !out.success {
        return Err(concat2("pactl load-module module-null-sink failed: ", out.stderr.as_str()));
    }
    Ok(Sink { name: String::from_str(name), description: String::from_str(name), is_virtual: true })
}

/// The source that `pactl load-module module-virtual-source` created.
pub fn virtual_source_outcome(out: &CommandOutput, name: &str) -> (r: Result<Source, String>)
    ensures
        !out.success ==> (r matches Err(e) && e@
            == "pactl load-module module-virtual-source failed: "@ + out.stderr@),
        out.success ==> (r matches Ok(s) && s.name@ == name@ && s.description@ == name@
            && !s.is_monitor),
{
    if !out.success {
        return Err(
            concat2("pactl load-module module-virtual-source failed: ", out.stderr.as_str()),
        );
    }
    Ok(
        Source {
            name: String::from_str(name),
            description: String::from_str(name),
            is_monitor: false,
        },
    )
}

/// How `pactl move-sink-input` ended.
pub fn move_outcome(out: &CommandOutput) -> (r: Result<(), String>)
    ensures
        !out.success ==> (r matches Err(e) && e@ == "pactl move-sink-input failed: "@
            + out.stderr@),
        out.success ==> r is Ok,
{
    if !out.success {
        return Err(concat2("pactl move-sink-input failed: ", out.stderr.as_str()));
    }
    Ok(())
}

/// How `pactl unload-module <module_id>` ended.
pub fn unload_outcome(module_id: u32, out: &CommandOutput) -> (r: Result<(), String>)
    ensures
        !out.success ==> (r matches Err(e) && e@ == "pactl unload-module "@ + decimal(
            module_id as nat,
        ) + " failed: "@ + out.stderr@),
        out.success ==> r is Ok,
{
    if !out.success {
        let id = decimal_string(module_id as u64);
        let head = concat3("pactl unload-module ", id.as_str(), " failed: ");
        return Err(concat2(head.as_str(), out.stderr.as_str()));
    }
    Ok(())
}

/// The module to unload to remove `sink`, found in the text of `pactl list sinks`.
pub fn sink_module_for(listing: &str, sink: &Sink) -> (r: Result<u32, String>)
    ensures
        match owner_module_scan(text_lines(listing@), sink.name@, false) {
            Some(id) => r == Ok::<u32, String>(id),
            None => r matches Err(e) && e@ == "Could not find module for sink '"@ + sink.name@
                + "'"@,
        },
{
    match find_sink_module_id(listing, sink.name.as_str()) {
        Some(id) => Ok(id),
        None => Err(concat3("Could not find module for sink '", sink.name.as_str(), "'")),
    }
}

/// The text of an optional string, or the empty text.
pub open spec fn text_or_empty(o: Option<String>) -> Seq<char> {
    match o {
        Some(s) => s@,
        None => seq![],
    }
}

/// The text of an optional string, or `d`.
pub open spec fn text_or(o: Option<String>, d: Seq<char>) -> Seq<char> {
    match o {
        Some(s) => s@,
        None => d,
    }
}

/// An optional string as owned text, or the empty text.
fn owned_or_empty(o: &Option<String>) -> (r: String)
    ensures
        r@ == text_or_empty(*o),
{
    match o {
        Some(s) => s.clone(),
        None => String::new(),
    }
}

/// What the server reports of a source.
#[derive(Debug, Clone)]
pub struct SourceInfo {
    pub name: Option<String>,
    pub description: Option<String>,
}

/// `s` is the source shown for `info`: unnamed counts as the empty name, the
/// description falls back to the name, and a monitor (a name ending in `.monitor`)
/// is marked and labelled `[mon]`.
pub open spec fn source_shown(info: SourceInfo, s: Source) -> bool {
    let name = text_or_empty(info.name);
    let desc = text_or(info.description, name);
    &&& s.name@ == name
    &&& s.is_monitor == has_suffix(name, ".monitor"@)
    &&& s.description@ == (if s.is_monitor {
        "[mon] "@ + desc
    } else {
        desc
    })
}

/// The source shown for `info`.
pub fn source_from_info(info: &SourceInfo) -> (s: Source)
    ensures
        source_shown(*info, s),
{
    let name = owned_or_empty(&info.name);
    let raw_desc = match &info.description {
        Some(d) => d.clone(),
        None => name.clone(),
    };
    if ends_with(name.as_str(), ".monitor") {
        let description = concat2("[mon] ", raw_desc.as_str());
        Source { name, description, is_monitor: true }
    } else {
        Source { name, description: raw_desc, is_monitor: false }
    }
}

/// The sources shown for the server's source records, in order.
pub fn sources_from_infos(infos: &Vec<SourceInfo>) -> (r: Vec<Source>)
    ensures
        r@.len() == infos@.len(),
        forall|i: int| 0 <= i < r@.len() ==> source_shown(infos@[i], #[trigger] r@[i]),
{
    let mut r: Vec<Source> = Vec::new();
    let mut i: usize = 0;
    while i < infos.len()
        invariant
            i <= infos@.len(),
            r@.len() == i,
            forall|k: int| 0 <= k < i ==> source_shown(infos@[k], #[trigger] r@[k]),
        decreases infos@.len() - i,
    {
        r.push(source_from_info(&infos[i]));
        i = i + 1;
    }
    r
}

/// What the server reports of a loaded module.
#[derive(Debug, Clone)]
pub struct ModuleInfo {
    pub index: u32,
    pub name: Option<String>,
    pub argument: Option<String>,
}

/// The module `m` is named `name`.
pub open spec fn module_named(m: ModuleInfo, name: Seq<char>) -> bool {
    opt_view(m.name) == Some(name)
}

/// The indices of the null-sink modules among `mods`, in order.
pub open spec fn null_sink_ids(mods: Seq<ModuleInfo>) -> Seq<u32>
    decreases mods.len(),
{
    if mods.len() == 0 {
        seq![]
    } else if module_named(mods.last(), "module-null-sink"@) {
        null_sink_ids(mods.drop_last()).push(mods.last().index)
    } else {
        null_sink_ids(mods.drop_last())
    }
}

/// Whether the module is named `name`.
fn is_module_named(m: &ModuleInfo, name: &str) -> (b: bool)
    ensures
        b == module_named(*m, name@),
{
    match &m.name {
        Some(n) => {
            let wanted = String::from_str(name);
            *n == wanted
        },
        None => false,
    }
}

/// The indices of the null-sink modules among `mods`.
pub fn null_sink_modules(mods: &Vec<ModuleInfo>) -> (r: Vec<u32>)
    ensures
        r@ == null_sink_ids(mods@),
{
    let mut r: Vec<u32> = Vec::new();
    let mut i: usize = 0;
    while i < mods.len()
        invariant
            i <= mods@.len(),
            r@ == null_sink_ids(mods@.take(i as int)),
        decreases mods@.len() - i,
    {
        let ghost pre = mods@.take(i as int);
        assert(mods@.take(i + 1).drop_last() =~= pre);
        if is_module_named(&mods[i], "module-null-sink") {
            r.push(mods[i].index);
        }
        i = i + 1;
    }
    assert(mods@.take(mods@.len() as int) =~= mods@);
    r
}

/// What the routing view shows of a loopback module: its number and the values of
/// its `source` and `sink` arguments, empty where absent.
pub open spec fn loopback_of_module(m: ModuleInfo) -> (u32, Seq<char>, Seq<char>) {
    let args = text_or_empty(m.argument);
    (
        m.index,
        match arg_value(args, "source"@) {
            Some(v) => v,
            None => seq![],
        },
        match arg_value(args, "sink"@) {
            Some(v) => v,
            None => seq![],
        },
    )
}

/// The loopbacks among `mods`, in order.
pub open spec fn loopbacks_of_modules(mods: Seq<ModuleInfo>) -> Seq<(u32, Seq<char>, Seq<char>)>
    decreases mods.len(),
{
    if mods.len() == 0 {
        seq![]
    } else if module_named(mods.last(), "module-loopback"@) {
        loopbacks_of_modules(mods.drop_last()).push(loopback_of_module(mods.last()))
    } else {
        loopbacks_of_modules(mods.drop_last())
    }
}

/// What a loopback shows: its number, source name and sink name.
pub open spec fn loopback_fields(l: Loopback) -> (u32, Seq<char>, Seq<char>) {
    (l.module_id, l.source_name@, l.sink_name@)
}

/// The value of an argument, or the empty text.
fn arg_or_empty(args: &str, key: &str) -> (r: String)
    ensures
        r@ == (match arg_value(args@, key@) {
            Some(v) => v,
            None => seq![],
        }),
{
    match extract_arg(args, key) {
        Some(v) => v,
        None => String::new(),
    }
}

/// The loopbacks among the server's module records.
pub fn loopbacks_from_modules(mods: &Vec<ModuleInfo>) -> (r: Vec<Loopback>)
    ensures
        r@.map_values(|l: Loopback| loopback_fields(l)) == loopbacks_of_modules(mods@),
{
    let mut r: Vec<Loopback> = Vec::new();
    let mut i: usize = 0;
    while i < mods.len()
        invariant
            i <= mods@.len(),
            r@.map_values(|l: Loopback| loopback_fields(l)) == loopbacks_of_modules(
                mods@.take(i as int),
            ),
        decreases mods@.len() - i,
    {
        let ghost pre = mods@.take(i as int);
        assert(mods@.take(i + 1).drop_last() =~= pre);
        let m = &mods[i];
        if is_module_named(m, "module-loopback") {
            let args = owned_or_empty(&m.argument);
            let lb = Loopback {
                module_id: m.index,
                source_name: arg_or_empty(args.as_str(), "source"),
                sink_name: arg_or_empty(args.as_str(), "sink"),
            };
            let ghost before = r@.map_values(|l: Loopback| loopback_fields(l));
            r.push(lb);
            assert(r@.map_values(|l: Loopback| loopback_fields(l)) =~= before.push(
                loopback_fields(lb),
            ));
        }
        i = i + 1;
    }
    assert(mods@.take(mods@.len() as int) =~= mods@);
    r
}

/// What the server reports of a sink.
#[derive(Debug, Clone)]
pub struct SinkInfo {
    pub index: u32,
    pub name: Option<String>,
    pub description: Option<String>,
    pub owner_module: Option<u32>,
}

/// `s` is the sink shown for `info`: unnamed counts as the empty name, the
/// description falls back to the name, and it is virtual when a null-sink module
/// in `null_ids` owns it.
pub open spec fn sink_shown(info: SinkInfo, null_ids: Seq<u32>, s: Sink) -> bool {
    let name = text_or_empty(info.name);
    &&& s.name@ == name
    &&& s.description@ == text_or(info.description, name)
    &&& s.is_virtual == (match info.owner_module {
        Some(m) => null_ids.contains(m),
        None => false,
    })
}

/// Whether `x` is among `v`.
fn contains_u32(v: &Vec<u32>, x: u32) -> (b: bool)
    ensures
        b == v@.contains(x),
{
    let mut i: usize = 0;
    while i < v.len()
        invariant
            i <= v@.len(),
            forall|k: int| 0 <= k < i ==> v@[k] != x,
        decreases v@.len() - i,
    {
        if v[i] == x {
            return true;
        }
        i = i + 1;
    }
    false
}

/// The sink shown for `info`, given the null-sink modules.
pub fn sink_from_info(info: &SinkInfo, null_ids: &Vec<u32>) -> (s: Sink)
    ensures
        sink_shown(*info, null_ids@, s),
{
    let name = owned_or_empty(&info.name);
    let description = match &info.description {
        Some(d) => d.clone(),
        None => name.clone(),
    };
    let is_virtual = match info.owner_module {
        Some(m) => contains_u32(null_ids, m),
        None => false,
    };
    Sink { name, description, is_virtual }
}

/// The sinks shown for the server's sink records, in order.
pub fn sinks_from_infos(infos: &Vec<SinkInfo>, null_ids: &Vec<u32>) -> (r: Vec<Sink>)
    ensures
        r@.len() == infos@.len(),
        forall|i: int| 0 <= i < r@.len() ==> sink_shown(infos@[i], null_ids@, #[trigger] r@[i]),
{
    let mut r: Vec<Sink> = Vec::new();
    let mut i: usize = 0;
    while i < infos.len()
        invariant
            i <= infos@.len(),
            r@.len() == i,
            forall|k: int| 0 <= k < i ==> sink_shown(infos@[k], null_ids@, #[trigger] r@[k]),
        decreases infos@.len() - i,
    {
        r.push(sink_from_info(&infos[i], null_ids));
        i = i + 1;
    }
    r
}

/// What the server reports of an application stream.
#[derive(Debug, Clone)]
pub struct SinkInputInfo {
    pub index: u32,
    pub application_name: Option<String>,
    pub name: Option<String>,
    pub sink: u32,
}

/// The name of the sink with index `idx` among `sinks`; a later record overrides an
/// earlier one, and an unknown index has the empty name.
pub open spec fn sink_name_for(sinks: Seq<SinkInfo>, idx: u32) -> Seq<char>
    decreases sinks.len(),
{
    if sinks.len() == 0 {
        seq![]
    } else if sinks.last().index == idx {
        text_or_empty(sinks.last().name)
    } else {
        sink_name_for(sinks.drop_last(), idx)
    }
}

/// `s` is the stream shown for `info`: named by its application, else by its own
/// name, else `stream <index>`, and labelled with the name of its current sink.
pub open spec fn sink_input_shown(info: SinkInputInfo, sinks: Seq<SinkInfo>, s: SinkInput) -> bool {
    &&& s.id == info.index
    &&& s.app_name@ == (match info.application_name {
        Some(a) => a@,
        None => text_or(info.name, "stream "@ + decimal(info.index as nat)),
    })
    &&& s.current_sink_name@ == sink_name_for(sinks, info.sink)
}

/// The name of the sink with index `idx`.
fn lookup_sink_name(sinks: &Vec<SinkInfo>, idx: u32) -> (r: String)
    ensures
        r@ == sink_name_for(sinks@, idx),
{
    let mut i: usize = sinks.len();
    assert(sinks@.take(i as int) =~= sinks@);
    while i > 0
        invariant
            i <= sinks@.len(),
            sink_name_for(sinks@, idx) == sink_name_for(sinks@.take(i as int), idx),
        decreases i,
    {
        assert(sinks@.take(i as int).drop_last() =~= sinks@.take(i - 1));
        if sinks[i - 1].index == idx {
            return owned_or_empty(&sinks[i - 1].name);
        }
        i = i - 1;
    }
    String::new()
}

/// The stream shown for `info`, given the server's sink records.
pub fn sink_input_from_info(info: &SinkInputInfo, sinks: &Vec<SinkInfo>) -> (s: SinkInput)
    ensures
        sink_input_shown(*info, sinks@, s),
{
    let app_name = match &info.application_name {
        Some(a) => a.clone(),
        None => match &info.name {
            Some(n) => n.clone(),
            None => concat2("stream ", decimal_string(info.index as u64).as_str()),
        },
    };
    SinkInput { id: info.index, app_name, current_sink_name: lookup_sink_name(sinks, info.sink) }
}

/// The streams shown for the server's stream records, in order.
pub fn sink_inputs_from_infos(infos: &Vec<SinkInputInfo>, sinks: &Vec<SinkInfo>) -> (r: Vec<
    SinkInput,
>)
    ensures
        r@.len() == infos@.len(),
        forall|i: int| 0 <= i < r@.len() ==> sink_input_shown(infos@[i], sinks@, #[trigger] r@[i]),
{
    let mut r: Vec<SinkInput> = Vec::new();
    let mut i: usize = 0;
    while i < infos.len()
        invariant
            i <= infos@.len(),
            r@.len() == i,
            forall|k: int| 0 <= k < i ==> sink_input_shown(infos@[k], sinks@, #[trigger] r@[k]),
        decreases infos@.len() - i,
    {
        r.push(sink_input_from_info(&infos[i], sinks));
        i = i + 1;
    }
    r
}

/// `w` holds no whitespace.
pub open spec fn no_ws(w: Seq<char>) -> bool {
    forall|i: int| 0 <= i < w.len() ==> !is_ws(#[trigger] w[i])
}

/// `words` joined by single spaces, as `pactl` reports the arguments a module was
/// loaded with.
pub open spec fn joined(ws: Seq<Seq<char>>) -> Seq<char>
    decreases ws.len(),
{
    if ws.len() == 0 {
        seq![]
    } else if ws.len() == 1 {
        ws[0]
    } else {
        ws[0] + " "@ + joined(ws.drop_first())
    }
}

proof fn lemma_words_from_plain(w: Seq<char>, rest: Seq<char>, cur: Seq<char>)
    requires
        no_ws(w),
    ensures
        words_from(w + rest, cur) == words_from(rest, cur + w),
    decreases w.len(),
{
    if w.len() == 0 {
        assert(w + rest =~= rest);
        assert(cur + w =~= cur);
    } else {
        let s = w + rest;
        assert(s[0] == w[0]);
        assert(s.drop_first() =~= w.drop_first() + rest);
        lemma_words_from_plain(w.drop_first(), rest, cur.push(w[0]));
        assert(cur.push(w[0]) + w.drop_first() =~= cur + w);
    }
}

/// Joining words that are not empty and hold no whitespace, then splitting at
/// whitespace, gives the words back.
proof fn lemma_words_of_joined(ws: Seq<Seq<char>>)
    requires
        forall|i: int| 0 <= i < ws.len() ==> no_ws(#[trigger] ws[i]) && ws[i].len() > 0,
    ensures
        words(joined(ws)) == ws,
    decreases ws.len(),
{
    reveal_strlit(" ");
    if ws.len() == 0 {
        assert(words(seq![]) == Seq::<Seq<char>>::empty());
        assert(ws =~= Seq::<Seq<char>>::empty());
    } else if ws.len() == 1 {
        assert(ws[0] + Seq::<char>::empty() =~= ws[0]);
        lemma_words_from_plain(ws[0], seq![], seq![]);
        assert(Seq::<char>::empty() + ws[0] =~= ws[0]);
        assert(ws =~= seq![ws[0]]);
    } else {
        let tail = ws.drop_first();
        assert forall|i: int| 0 <= i < tail.len() implies no_ws(#[trigger] tail[i]) && tail[i].len()
            > 0 by {
            assert(tail[i] == ws[i + 1]);
        }
        lemma_words_of_joined(tail);
        let rest = " "@ + joined(tail);
        assert(ws[0] + " "@ + joined(tail) =~= ws[0] + rest);
        lemma_words_from_plain(ws[0], rest, seq![]);
        assert(Seq::<char>::empty() + ws[0] =~= ws[0]);
        assert(rest[0] == ' ');
        assert(rest.drop_first() =~= joined(tail));
        assert(words_from(rest, ws[0]) == seq![ws[0]] + words_from(joined(tail), seq![]));
        assert(seq![ws[0]] + tail =~= ws);
    }
}

proof fn lemma_no_quote_trim(v: Seq<char>)
    requires
        v.len() == 0 || (v[0] != '"' && v.last() != '"'),
    ensures
        trim_char(v, '"') == v,
{
    assert(strip_start_char(v, '"') == v);
}

/// A loopback loaded with the arguments of `loopback_command` is listed with the
/// source and sink it was made for, when their names hold no whitespace and do not
/// begin or end with a double quote: `pactl` reports the module's arguments joined by
/// spaces, and reading `source` and `sink` back from them gives the names.
pub proof fn law_loopback_arguments_read_back(source: Seq<char>, sink: Seq<char>)
    requires
        no_ws(source),
        no_ws(sink),
        source.len() == 0 || (source[0] != '"' && source.last() != '"'),
        sink.len() == 0 || (sink[0] != '"' && sink.last() != '"'),
    ensures
        ({
            let args = joined(seq!["source="@ + source, "sink="@ + sink, "latency_msec=50"@]);
            arg_value(args, "source"@) == Some(source) && arg_value(args, "sink"@) == Some(sink)
        }),
{
    reveal_strlit("source=");
    reveal_strlit("sink=");
    reveal_strlit("source");
    reveal_strlit("sink");
    reveal_strlit("=");
    reveal_strlit("latency_msec=50");
    let a = "source="@ + source;
    let b = "sink="@ + sink;
    let c = "latency_msec=50"@;
    let ws = seq![a, b, c];
    assert forall|i: int| 0 <= i < ws.len() implies no_ws(#[trigger] ws[i]) && ws[i].len() > 0 by {
        if i == 0 {
            assert forall|k: int| 0 <= k < a.len() implies !is_ws(#[trigger] a[k]) by {
                if k >= 7 {
                    assert(a[k] == source[k - 7]);
                }
            }
        } else if i == 1 {
            assert forall|k: int| 0 <= k < b.len() implies !is_ws(#[trigger] b[k]) by {
                if k >= 5 {
                    assert(b[k] == sink[k - 5]);
                }
            }
        }
    }
    lemma_words_of_joined(ws);
    let args = joined(ws);
    let ps = "source"@ + "="@;
    let pk = "sink"@ + "="@;
    assert(ps =~= "source="@);
    assert(pk =~= "sink="@);
    assert(a.subrange(0, 7) =~= ps);
    assert(a.skip(7) =~= source);
    assert(!has_prefix(a, pk)) by {
        assert(a.subrange(0, 5)[1] != pk[1]);
    }
    assert(b.subrange(0, 5) =~= pk);
    assert(b.skip(5) =~= sink);
    assert(ws.drop_first()[0] == b);
    lemma_no_quote_trim(source);
    lemma_no_quote_trim(sink);
    assert(words(args) == ws);
    assert(has_prefix(ws[0], ps));
    assert(after_first_prefixed(ws, ps) == Some(source));
    assert(arg_value(args, "source"@) == Some(source));
    assert(!has_prefix(ws[0], pk));
    assert(has_prefix(ws.drop_first()[0], pk));
    assert(after_first_prefixed(ws.drop_first(), pk) == Some(sink));
    assert(after_first_prefixed(ws, pk) == Some(sink));
    assert(arg_value(args, "sink"@) == Some(sink));
}

} // verus!
