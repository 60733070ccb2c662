//! The routing view's state and the decisions it makes. Work that reaches the audio
//! server or the disk is not done here: an operation that needs it returns a
//! [`Request`], the caller performs it, and hands the [`Reply`] to [`App::resume`],
//! which continues the operation from there.

use vstd::prelude::*;
use crate::audio::{AudioSystem, Loopback, Sink, SinkInput, Source};
use crate::config::{
    law_stored_preset_is_found,
    lemma_position_named_found,
    position_named,
    with_preset,
    Config,
    LoopbackEntry,
    Preset,
};
use crate::text::{concat2, concat3, replace_char, replace_char_str, trim, trim_str};

verus! {

/// The focusable panels of the routing view.
#[derive(Debug, Clone, Copy, PartialEq, Eq, Structural)]
pub enum Panel {
    Sources,
    Sinks,
    Applications,
    Loopbacks,
}

impl Panel {
    /// The panel after `self` in focus order.
    pub open spec fn following(self) -> Panel {
        match self {
            Panel::Sources => Panel::Sinks,
            Panel::Sinks => Panel::Applications,
            Panel::Applications => Panel::Loopbacks,
            Panel::Loopbacks => Panel::Sources,
        }
    }

    /// The panel before `self` in focus order.
    pub open spec fn preceding(self) -> Panel {
        match self {
            Panel::Sources => Panel::Loopbacks,
            Panel::Sinks => Panel::Sources,
            Panel::Applications => Panel::Sinks,
            Panel::Loopbacks => Panel::Applications,
        }
    }

    /// The next panel in focus order: Sources, Sinks, Applications, Loopbacks, and round again.
    pub fn next(self) -> (r: Self)
        ensures
            r == self.following(),
    {
        match self {
            Panel::Sources => Panel::Sinks,
            Panel::Sinks => Panel::Applications,
            Panel::Applications => Panel::Loopbacks,
            Panel::Loopbacks => Panel::Sources,
        }
    }

    /// The previous panel in focus order.
    pub fn prev(self) -> (r: Self)
        ensures
            r == self.preceding(),
    {
        match self {
            Panel::Sources => Panel::Loopbacks,
            Panel::Sinks => Panel::Sources,
            Panel::Applications => Panel::Sinks,
            Panel::Loopbacks => Panel::Applications,
        }
    }
}

/// The dialog in front of the panels.
#[derive(Debug, Clone)]
#[allow(inconsistent_fields)]
pub enum Dialog {
    /// No dialog is open.
    Closed,
    /// Step 1: pick the source. Step 2: pick the sink (source already chosen).
    NewLoopbackPickSource,
    NewLoopbackPickSink { source: Source },
    NewVirtualSink { input: String },
    /// Moving an app stream: user has selected an input and now picks the target sink.
    MoveSinkInput { input: SinkInput },
    /// Listening to a sink: route its monitor to a chosen output sink.
    ListenToSink { sink: Sink },
    /// Wrapping a sink's monitor as a virtual microphone input.
    CreateVirtualSource { sink: Sink, name: String },
    Presets { selected: usize },
    SavePreset { input: String },
    Error(String),
}

/// What the four queries of the audio server gave: each list, or the text of the
/// error that its query ended with.
#[derive(Debug)]
pub struct Listing {
    pub sources: Result<Vec<Source>, String>,
    pub sinks: Result<Vec<Sink>, String>,
    pub loopbacks: Result<Vec<Loopback>, String>,
    pub sink_inputs: Result<Vec<SinkInput>, String>,
}

/// Work outside the library that an operation needs done.
#[derive(Debug)]
pub enum Request {
    /// Query sources, sinks, loopbacks and application streams.
    List,
    RemoveLoopback(Loopback),
    RemoveVirtualSink(Sink),
    CreateLoopback(Source, Sink),
    CreateVirtualSink(String),
    /// Create a virtual source with this name over this monitor source.
    CreateVirtualSource(String, String),
    MoveSinkInput(SinkInput, Sink),
    /// Write the configuration to disk.
    SaveConfig,
}

/// How a [`Request`] ended.
#[derive(Debug)]
pub enum Reply {
    /// The answer to [`Request::List`].
    Listed(Listing),
    /// The end of a removal, a move or a save.
    Done(Result<(), String>),
    LoopbackCreated(Result<Loopback, String>),
    SinkCreated(Result<Sink, String>),
    SourceCreated(Result<Source, String>),
}

/// The operation that waits for a [`Reply`].
#[derive(Debug)]
pub enum Flow {
    Idle,
    /// A refresh, after which `note`, if any, becomes the status message.
    Refreshing { note: Option<String> },
    RemovingLoopback(Loopback),
    RemovingSink(Sink),
    CreatingVirtualSource(String),
    /// Listening to the first sink through the second.
    Listening(Sink, Sink),
    Moving(SinkInput, Sink),
    CreatingLoopback,
    CreatingVirtualSink(String),
    SavingPreset(String),
    /// Loading a preset: creating its virtual sinks, from index `next` on.
    PresetSinks { preset: Preset, next: usize },
    /// Loading a preset: refreshing after its virtual sinks.
    PresetListing { preset: Preset },
    /// Loading a preset: loading its loopbacks, from index `next` on.
    PresetLoopbacks { preset: Preset, next: usize },
    /// Loading a preset: the final refresh.
    PresetFinalListing { preset: Preset },
}

/// The state of the routing view.
pub struct App {
    pub audio_system: AudioSystem,
    pub sources: Vec<Source>,
    pub sinks: Vec<Sink>,
    pub loopbacks: Vec<Loopback>,
    pub sink_inputs: Vec<SinkInput>,
    pub focused: Panel,
    pub source_sel: usize,
    pub sink_sel: usize,
    pub loopback_sel: usize,
    pub sink_input_sel: usize,
    pub dialog: Dialog,
    pub config: Config,
    pub status_msg: Option<String>,
    pub pending: Flow,
}

/// `m` is a message whose text is `t`.
pub open spec fn says(m: Option<String>, t: Seq<char>) -> bool {
    m is Some && m->0@ == t
}

/// A selection of `sel` in a list of `len` items points at an item, or at the
/// start of an empty list.
pub open spec fn sel_ok(sel: usize, len: nat) -> bool {
    sel < len || sel == 0
}

/// `sel` kept within a list of `len` items, as `sel.min(len.saturating_sub(1))` does.
pub open spec fn clamp(sel: usize, len: nat) -> usize {
    if len == 0 {
        0
    } else if sel < len {
        sel
    } else {
        (len - 1) as usize
    }
}

fn clamp_exec(sel: usize, len: usize) -> (r: usize)
    ensures
        r == clamp(sel, len as nat),
{
    if len == 0 {
        0
    } else if sel < len {
        sel
    } else {
        len - 1
    }
}

/// After a query, the list and its selection: the new list with the selection kept
/// within it, or both unchanged when the query failed.
pub open spec fn relisted<T>(
    list: Seq<T>,
    sel: usize,
    res: Result<Vec<T>, String>,
    new_list: Seq<T>,
    new_sel: usize,
) -> bool {
    match res {
        Ok(v) => new_list == v@ && new_sel == clamp(sel, v@.len()),
        Err(_) => new_list == list && new_sel == sel,
    }
}

/// The status message after a refresh: the error of the last failed query, in the
/// order sources, sinks, loopbacks, streams, or the old message when none failed.
pub open spec fn refresh_status(old: Option<String>, l: Listing, new: Option<String>) -> bool {
    match l.sink_inputs {
        Err(e) => says(new, "sink inputs error: "@ + e@),
        Ok(_) => match l.loopbacks {
            Err(e) => says(new, "loopbacks error: "@ + e@),
            Ok(_) => match l.sinks {
                Err(e) => says(new, "sinks error: "@ + e@),
                Ok(_) => match l.sources {
                    Err(e) => says(new, "sources error: "@ + e@),
                    Ok(_) => new == old,
                },
            },
        },
    }
}

/// The first source named `name`.
pub open spec fn source_named(s: Seq<Source>, name: Seq<char>) -> Option<nat>
    decreases s.len(),
{
    if s.len() == 0 {
        None
    } else if s[0].name@ == name {
        Some(0)
    } else {
        match source_named(s.drop_first(), name) {
            Some(k) => Some(k + 1),
            None => None,
        }
    }
}

/// The first sink named `name`.
pub open spec fn sink_named(s: Seq<Sink>, name: Seq<char>) -> Option<nat>
    decreases s.len(),
{
    if s.len() == 0 {
        None
    } else if s[0].name@ == name {
        Some(0)
    } else {
        match sink_named(s.drop_first(), name) {
            Some(k) => Some(k + 1),
            None => None,
        }
    }
}

/// The first loopback entry at or after `from` whose source and sink both exist.
pub open spec fn next_restorable(
    sources: Seq<Source>,
    sinks: Seq<Sink>,
    lbs: Seq<LoopbackEntry>,
    from: int,
) -> Option<nat>
    decreases lbs.len() - from,
{
    if from < 0 || from >= lbs.len() {
        None
    } else if source_named(sources, lbs[from].source@) is Some && sink_named(
        sinks,
        lbs[from].sink@,
    ) is Some {
        Some(from as nat)
    } else {
        next_restorable(sources, sinks, lbs, from + 1)
    }
}

/// `a` holds what `b` holds.
pub open spec fn same_preset(a: Preset, b: Preset) -> bool {
    a.name == b.name && a.virtual_sinks@ == b.virtual_sinks@ && a.loopbacks@ == b.loopbacks@
}

proof fn lemma_source_named(s: Seq<Source>, name: Seq<char>, i: int)
    requires
        0 <= i <= s.len(),
        forall|k: int| 0 <= k < i ==> (#[trigger] s[k]).name@ != name,
    ensures
        i < s.len() && s[i].name@ == name ==> source_named(s, name) == Some(i as nat),
        i == s.len() ==> source_named(s, name) is None,
    decreases i,
{
    if i > 0 {
        assert(s[0].name@ != name);
        assert forall|k: int| 0 <= k < i - 1 implies (#[trigger] s.drop_first()[k]).name@
            != name by {
            assert(s.drop_first()[k] == s[k + 1]);
        }
        lemma_source_named(s.drop_first(), name, i - 1);
    }
}

proof fn lemma_sink_named(s: Seq<Sink>, name: Seq<char>, i: int)
    requires
        0 <= i <= s.len(),
        forall|k: int| 0 <= k < i ==> (#[trigger] s[k]).name@ != name,
    ensures
        i < s.len() && s[i].name@ == name ==> sink_named(s, name) == Some(i as nat),
        i == s.len() ==> sink_named(s, name) is None,
    decreases i,
{
    if i > 0 {
        assert(s[0].name@ != name);
        assert forall|k: int| 0 <= k < i - 1 implies (#[trigger] s.drop_first()[k]).name@
            != name by {
            assert(s.drop_first()[k] == s[k + 1]);
        }
        lemma_sink_named(s.drop_first(), name, i - 1);
    }
}

proof fn lemma_named_bound(s: Seq<Source>, t: Seq<Sink>, a: Seq<char>, b: Seq<char>)
    ensures
        source_named(s, a) matches Some(i) ==> i < s.len() && s[i as int].name@ == a,
        sink_named(t, b) matches Some(j) ==> j < t.len() && t[j as int].name@ == b,
    decreases s.len() + t.len(),
{
    if s.len() > 0 && s[0].name@ != a {
        lemma_named_bound(s.drop_first(), t, a, b);
    }
    if t.len() > 0 && t[0].name@ != b {
        lemma_named_bound(s, t.drop_first(), a, b);
    }
}

impl App {
    /// Every selection points at an item of its list, or at the start of an empty list.
    pub open spec fn selection_ok(self) -> bool {
        &&& sel_ok(self.source_sel, self.sources@.len())
        &&& sel_ok(self.sink_sel, self.sinks@.len())
        &&& sel_ok(self.loopback_sel, self.loopbacks@.len())
        &&& sel_ok(self.sink_input_sel, self.sink_inputs@.len())
    }

    /// `post` is `pre` after applying `l`.
    pub open spec fn refreshed(pre: App, l: Listing, post: App) -> bool {
        &&& relisted(pre.sources@, pre.source_sel, l.sources, post.sources@, post.source_sel)
        &&& relisted(pre.sinks@, pre.sink_sel, l.sinks, post.sinks@, post.sink_sel)
        &&& relisted(pre.loopbacks@, pre.loopback_sel, l.loopbacks, post.loopbacks@, post.loopback_sel)
        &&& relisted(
            pre.sink_inputs@,
            pre.sink_input_sel,
            l.sink_inputs,
            post.sink_inputs@,
            post.sink_input_sel,
        )
        &&& refresh_status(pre.status_msg, l, post.status_msg)
        &&& post.audio_system == pre.audio_system
        &&& post.focused == pre.focused
        &&& post.dialog == pre.dialog
        &&& post.config == pre.config
        &&& post.pending == pre.pending
    }

    /// A view of `audio_system` with empty lists, the Sources panel focused, no dialog,
    /// no status message, and the presets of `config`.
    pub fn new(audio_system: AudioSystem, config: Config) -> (app: App)
        ensures
            app.audio_system == audio_system,
            app.sources@.len() == 0,
            app.sinks@.len() == 0,
            app.loopbacks@.len() == 0,
            app.sink_inputs@.len() == 0,
            app.focused == Panel::Sources,
            app.source_sel == 0,
            app.sink_sel == 0,
            app.loopback_sel == 0,
            app.sink_input_sel == 0,
            app.dialog is Closed,
            app.config == config,
            app.status_msg is None,
            app.pending is Idle,
            app.selection_ok(),
    {
        App {
            audio_system,
            sources: Vec::new(),
            sinks: Vec::new(),
            loopbacks: Vec::new(),
            sink_inputs: Vec::new(),
            focused: Panel::Sources,
            source_sel: 0,
            sink_sel: 0,
            loopback_sel: 0,
            sink_input_sel: 0,
            dialog: Dialog::Closed,
            config,
            status_msg: None,
            pending: Flow::Idle,
        }
    }

    /// Takes in what the queries of the audio server gave: each list that was read
    /// replaces the old one and its selection is kept within it; each failed query
    /// leaves its list alone and reports its error in the status message.
    pub fn refresh(&mut self, listing: Listing)
        ensures
            App::refreshed(*old(self), listing, *final(self)),
            old(self).selection_ok() ==> final(self).selection_ok(),
    {
        let Listing { sources, sinks, loopbacks, sink_inputs } = listing;
        match sources {
            Ok(s) => {
                let n = s.len();
                self.sources = s;
                self.source_sel = clamp_exec(self.source_sel, n);
            },
            Err(e) => {
                self.status_msg = Some(concat2("sources error: ", e.as_str()));
            },
        }
        match sinks {
            Ok(s) => {
                let n = s.len();
                self.sinks = s;
                self.sink_sel = clamp_exec(self.sink_sel, n);
            },
            Err(e) => {
                self.status_msg = Some(concat2("sinks error: ", e.as_str()));
            },
        }
        match loopbacks {
            Ok(l) => {
                let n = l.len();
                self.loopbacks = l;
                self.loopback_sel = clamp_exec(self.loopback_sel, n);
            },
            Err(e) => {
                self.status_msg = Some(concat2("loopbacks error: ", e.as_str()));
            },
        }
        match sink_inputs {
            Ok(i) => {
                let n = i.len();
                self.sink_inputs = i;
                self.sink_input_sel = clamp_exec(self.sink_input_sel, n);
            },
            Err(e) => {
                self.status_msg = Some(concat2("sink inputs error: ", e.as_str()));
            },
        }
    }

    /// The selected source, if the selection points at one.
    pub fn selected_source(&self) -> (r: Option<&Source>)
        ensures
            r == (if self.source_sel < self.sources@.len() {
                Some(&self.sources@[self.source_sel as int])
            } else {
                None
            }),
    {
        if self.source_sel < self.sources.len() {
            Some(&self.sources[self.source_sel])
        } else {
            None
        }
    }

    /// The selected sink, if the selection points at one.
    pub fn selected_sink(&self) -> (r: Option<&Sink>)
        ensures
            r == (if self.sink_sel < self.sinks@.len() {
                Some(&self.sinks@[self.sink_sel as int])
            } else {
                None
            }),
    {
        if self.sink_sel < self.sinks.len() {
            Some(&self.sinks[self.sink_sel])
        } else {
            None
        }
    }

    /// The selected loopback, if the selection points at one.
    pub fn selected_loopback(&self) -> (r: Option<&Loopback>)
        ensures
            r == (if self.loopback_sel < self.loopbacks@.len() {
                Some(&self.loopbacks@[self.loopback_sel as int])
            } else {
                None
            }),
    {
        if self.loopback_sel < self.loopbacks.len() {
            Some(&self.loopbacks[self.loopback_sel])
        } else {
            None
        }
    }

    /// The selected application stream, if the selection points at one.
    pub fn selected_sink_input(&self) -> (r: Option<&SinkInput>)
        ensures
            r == (if self.sink_input_sel < self.sink_inputs@.len() {
                Some(&self.sink_inputs@[self.sink_input_sel as int])
            } else {
                None
            }),
    {
        if self.sink_input_sel < self.sink_inputs.len() {
            Some(&self.sink_inputs[self.sink_input_sel])
        } else {
            None
        }
    }

    /// `post` is `pre` with the selection of the focused panel moved up one item,
    /// unless it is at the top.
    pub open spec fn moved_up(pre: App, post: App) -> bool {
        match pre.focused {
            Panel::Sources => post == App {
                source_sel: if pre.source_sel > 0 {
                    (pre.source_sel - 1) as usize
                } else {
                    pre.source_sel
                },
                ..pre
            },
            Panel::Sinks => post == App {
                sink_sel: if pre.sink_sel > 0 {
                    (pre.sink_sel - 1) as usize
                } else {
                    pre.sink_sel
                },
                ..pre
            },
            Panel::Loopbacks => post == App {
                loopback_sel: if pre.loopback_sel > 0 {
                    (pre.loopback_sel - 1) as usize
                } else {
                    pre.loopback_sel
                },
                ..pre
            },
            Panel::Applications => post == App {
                sink_input_sel: if pre.sink_input_sel > 0 {
                    (pre.sink_input_sel - 1) as usize
                } else {
                    pre.sink_input_sel
                },
                ..pre
            },
        }
    }

    /// `post` is `pre` with the selection of the focused panel moved down one item,
    /// unless it is at the last item.
    pub open spec fn moved_down(pre: App, post: App) -> bool {
        match pre.focused {
            Panel::Sources => post == App {
                source_sel: if pre.source_sel + 1 < pre.sources@.len() {
                    (pre.source_sel + 1) as usize
                } else {
                    pre.source_sel
                },
                ..pre
            },
            Panel::Sinks => post == App {
                sink_sel: if pre.sink_sel + 1 < pre.sinks@.len() {
                    (pre.sink_sel + 1) as usize
                } else {
                    pre.sink_sel
                },
                ..pre
            },
            Panel::Loopbacks => post == App {
                loopback_sel: if pre.loopback_sel + 1 < pre.loopbacks@.len() {
                    (pre.loopback_sel + 1) as usize
                } else {
                    pre.loopback_sel
                },
                ..pre
            },
            Panel::Applications => post == App {
                sink_input_sel: if pre.sink_input_sel + 1 < pre.sink_inputs@.len() {
                    (pre.sink_input_sel + 1) as usize
                } else {
                    pre.sink_input_sel
                },
                ..pre
            },
        }
    }

    /// Moves the selection of the focused panel up one item.
    pub fn move_up(&mut self)
        ensures
            App::moved_up(*old(self), *final(self)),
            old(self).selection_ok() ==> final(self).selection_ok(),
    {
        match self.focused {
            Panel::Sources => {
                if self.source_sel > 0 {
                    self.source_sel -= 1;
                }
            },
            Panel::Sinks => {
                if self.sink_sel > 0 {
                    self.sink_sel -= 1;
                }
            },
            Panel::Loopbacks => {
                if self.loopback_sel > 0 {
                    self.loopback_sel -= 1;
                }
            },
            Panel::Applications => {
                if self.sink_input_sel > 0 {
                    self.sink_input_sel -= 1;
                }
            },
        }
    }

    /// Moves the selection of the focused panel down one item.
    pub fn move_down(&mut self)
        ensures
            App::moved_down(*old(self), *final(self)),
            old(self).selection_ok() ==> final(self).selection_ok(),
    {
        match self.focused {
            Panel::Sources => {
                if self.sources.len() > 0 && self.source_sel < self.sources.len() - 1 {
                    self.source_sel += 1;
                }
            },
            Panel::Sinks => {
                if self.sinks.len() > 0 && self.sink_sel < self.sinks.len() - 1 {
                    self.sink_sel += 1;
                }
            },
            Panel::Loopbacks => {
                if self.loopbacks.len() > 0 && self.loopback_sel < self.loopbacks.len() - 1 {
                    self.loopback_sel += 1;
                }
            },
            Panel::Applications => {
                if self.sink_inputs.len() > 0 && self.sink_input_sel < self.sink_inputs.len() - 1 {
                    self.sink_input_sel += 1;
                }
            },
        }
    }
}

/// The sink names of the virtual sinks in `sinks`, in order.
pub open spec fn virtual_sink_names(sinks: Seq<Sink>) -> Seq<Seq<char>>
    decreases sinks.len(),
{
    if sinks.len() == 0 {
        seq![]
    } else if sinks.last().is_virtual {
        virtual_sink_names(sinks.drop_last()).push(sinks.last().name@)
    } else {
        virtual_sink_names(sinks.drop_last())
    }
}

/// The source and sink names of a loopback.
pub open spec fn loopback_ends(l: Loopback) -> (Seq<char>, Seq<char>) {
    (l.source_name@, l.sink_name@)
}

/// The source and sink names of a preset's loopback entry.
pub open spec fn entry_ends(e: LoopbackEntry) -> (Seq<char>, Seq<char>) {
    (e.source@, e.sink@)
}

/// `p` records the current routing of `app` under the name `name`: its virtual
/// sinks and its loopbacks, in order.
pub open spec fn preset_captures(p: Preset, app: App, name: Seq<char>) -> bool {
    &&& p.name@ == name
    &&& p.virtual_sinks@.map_values(|s: String| s@) == virtual_sink_names(app.sinks@)
    &&& p.loopbacks@.map_values(|e: LoopbackEntry| entry_ends(e)) == app.loopbacks@.map_values(
        |l: Loopback| loopback_ends(l),
    )
}

impl App {
    /// `post` is `pre` after `delete_selected`, which asked for `req`.
    pub open spec fn delete_started(pre: App, post: App, req: Option<Request>) -> bool {
        match pre.focused {
            Panel::Loopbacks => if pre.loopback_sel < pre.loopbacks@.len() {
                let lb = pre.loopbacks@[pre.loopback_sel as int];
                post == App { pending: Flow::RemovingLoopback(lb), ..pre } && req == Some(
                    Request::RemoveLoopback(lb),
                )
            } else {
                post == pre && req is None
            },
            Panel::Sinks => if pre.sink_sel < pre.sinks@.len() {
                let sink = pre.sinks@[pre.sink_sel as int];
                if sink.is_virtual {
                    post == App { pending: Flow::RemovingSink(sink), ..pre } && req == Some(
                        Request::RemoveVirtualSink(sink),
                    )
                } else {
                    post == App { status_msg: post.status_msg, ..pre } && says(
                        post.status_msg,
                        "Can only delete virtual sinks"@,
                    ) && req is None
                }
            } else {
                post == pre && req is None
            },
            _ => post == App { status_msg: post.status_msg, ..pre } && says(
                post.status_msg,
                "Select a loopback or virtual sink to delete"@,
            ) && req is None,
        }
    }

    /// Asks to remove the selected loopback, or the selected sink when it is virtual;
    /// on any other panel, or on a sink that is not virtual, says what can be deleted.
    pub fn delete_selected(&mut self) -> (req: Option<Request>)
        ensures
            App::delete_started(*old(self), *final(self), req),
            old(self).selection_ok() ==> final(self).selection_ok(),
    {
        match self.focused {
            Panel::Loopbacks => {
                if self.loopback_sel < self.loopbacks.len() {
                    let lb = self.loopbacks[self.loopback_sel].duplicate();
                    let lb2 = self.loopbacks[self.loopback_sel].duplicate();
                    self.pending = Flow::RemovingLoopback(lb);
                    Some(Request::RemoveLoopback(lb2))
                } else {
                    None
                }
            },
            Panel::Sinks => {
                if self.sink_sel < self.sinks.len() {
                    if self.sinks[self.sink_sel].is_virtual {
                        let sink = self.sinks[self.sink_sel].duplicate();
                        let sink2 = self.sinks[self.sink_sel].duplicate();
                        self.pending = Flow::RemovingSink(sink);
                        Some(Request::RemoveVirtualSink(sink2))
                    } else {
                        self.status_msg = Some(String::from_str("Can only delete virtual sinks"));
                        None
                    }
                } else {
                    None
                }
            },
            _ => {
                self.status_msg = Some(
                    String::from_str("Select a loopback or virtual sink to delete"),
                );
                None
            },
        }
    }

    /// `post` is `pre` after `begin_create_virtual_source`.
    pub open spec fn virtual_source_begun(pre: App, post: App) -> bool {
        if pre.sink_sel < pre.sinks@.len() {
            let sink = pre.sinks@[pre.sink_sel as int];
            &&& post == App { dialog: post.dialog, ..pre }
            &&& post.dialog matches Dialog::CreateVirtualSource { sink: s, name }
            &&& s == sink
            &&& name@ == replace_char(sink.name@, '.', '-') + "-input"@
        } else {
            post == App { status_msg: post.status_msg, ..pre } && says(
                post.status_msg,
                "No sink selected"@,
            )
        }
    }

    /// Opens the dialog that names a virtual input over the selected sink's monitor,
    /// proposing the sink's name with dots made dashes and `-input` appended.
    pub fn begin_create_virtual_source(&mut self)
        ensures
            App::virtual_source_begun(*old(self), *final(self)),
            old(self).selection_ok() ==> final(self).selection_ok(),
    {
        if self.sink_sel < self.sinks.len() {
            let sink = self.sinks[self.sink_sel].duplicate();
            let dashed = replace_char_str(sink.name.as_str(), '.', '-');
            let default_name = concat2(dashed.as_str(), "-input");
            self.dialog = Dialog::CreateVirtualSource { sink, name: default_name };
        } else {
            self.status_msg = Some(String::from_str("No sink selected"));
        }
    }

    /// `post` is `pre` after `confirm_create_virtual_source`, which asked for `req`.
    pub open spec fn virtual_source_confirmed(pre: App, post: App, req: Option<Request>) -> bool {
        match pre.dialog {
            Dialog::CreateVirtualSource { sink, name } => if trim(name@).len() == 0 {
                post == pre && req is None
            } else {
                &&& post == App { pending: post.pending, ..pre }
                &&& post.pending matches Flow::CreatingVirtualSource(n)
                &&& n@ == trim(name@)
                &&& req matches Some(Request::CreateVirtualSource(rn, monitor))
                &&& rn@ == trim(name@)
                &&& monitor@ == sink.name@ + ".monitor"@
            },
            _ => post == pre && req is None,
        }
    }

    /// Asks to create the virtual input that the dialog names, over the monitor of its
    /// sink; a name that is blank once trimmed does nothing.
    pub fn confirm_create_virtual_source(&mut self) -> (req: Option<Request>)
        ensures
            App::virtual_source_confirmed(*old(self), *final(self), req),
            old(self).selection_ok() ==> final(self).selection_ok(),
    {
        if let Dialog::CreateVirtualSource { sink, name } = &self.dialog {
            let n = trim_str(name.as_str());
            if n.as_str().unicode_len() == 0 {
                return None;
            }
            let monitor = concat2(sink.name.as_str(), ".monitor");
            let n2 = n.clone();
            self.pending = Flow::CreatingVirtualSource(n);
            Some(Request::CreateVirtualSource(n2, monitor))
        } else {
            None
        }
    }

    /// `post` is `pre` after `begin_listen_to_sink`.
    pub open spec fn listen_begun(pre: App, post: App) -> bool {
        if pre.sink_sel < pre.sinks@.len() {
            post == App {
                dialog: Dialog::ListenToSink { sink: pre.sinks@[pre.sink_sel as int] },
                focused: Panel::Sinks,
                ..pre
            }
        } else {
            post == App { status_msg: post.status_msg, ..pre } && says(
                post.status_msg,
                "No sink selected"@,
            )
        }
    }

    /// Starts listening to the selected sink: the Sinks panel takes focus so that the
    /// output can be picked.
    pub fn begin_listen_to_sink(&mut self)
        ensures
            App::listen_begun(*old(self), *final(self)),
            old(self).selection_ok() ==> final(self).selection_ok(),
    {
        if self.sink_sel < self.sinks.len() {
            let sink = self.sinks[self.sink_sel].duplicate();
            self.dialog = Dialog::ListenToSink { sink };
            self.focused = Panel::Sinks;
        } else {
            self.status_msg = Some(String::from_str("No sink selected"));
        }
    }

    /// `post` is `pre` after `confirm_listen_to_sink`, which asked for `req`.
    pub open spec fn listen_confirmed(pre: App, post: App, req: Option<Request>) -> bool {
        match pre.dialog {
            Dialog::ListenToSink { sink } => if pre.sink_sel < pre.sinks@.len() {
                let output = pre.sinks@[pre.sink_sel as int];
                &&& post == App { pending: Flow::Listening(sink, output), ..pre }
                &&& req matches Some(Request::CreateLoopback(monitor, out))
                &&& out == output
                &&& monitor.name@ == sink.name@ + ".monitor"@
                &&& monitor.description@ == "Monitor of "@ + sink.description@
                &&& monitor.is_monitor
            } else {
                post == pre && req is None
            },
            _ => post == pre && req is None,
        }
    }

    /// Asks for a loopback from the monitor of the sink being listened to into the
    /// selected sink.
    pub fn confirm_listen_to_sink(&mut self) -> (req: Option<Request>)
        ensures
            App::listen_confirmed(*old(self), *final(self), req),
            old(self).selection_ok() ==> final(self).selection_ok(),
    {
        if let Dialog::ListenToSink { sink } = &self.dialog {
            if self.sink_sel < self.sinks.len() {
                let output = self.sinks[self.sink_sel].duplicate();
                let output2 = self.sinks[self.sink_sel].duplicate();
                let monitor = Source {
                    name: concat2(sink.name.as_str(), ".monitor"),
                    description: concat2("Monitor of ", sink.description.as_str()),
                    is_monitor: true,
                };
                let listened = sink.duplicate();
                self.pending = Flow::Listening(listened, output);
                Some(Request::CreateLoopback(monitor, output2))
            } else {
                None
            }
        } else {
            None
        }
    }

    /// `post` is `pre` after `begin_move_sink_input`.
    pub open spec fn move_begun(pre: App, post: App) -> bool {
        if pre.sink_input_sel < pre.sink_inputs@.len() {
            post == App {
                dialog: Dialog::MoveSinkInput {
                    input: pre.sink_inputs@[pre.sink_input_sel as int],
                },
                focused: Panel::Sinks,
                ..pre
            }
        } else {
            post == App { status_msg: post.status_msg, ..pre } && says(
                post.status_msg,
                "No application selected"@,
            )
        }
    }

    /// Starts moving the selected application stream: the Sinks panel takes focus so
    /// that the target can be picked.
    pub fn begin_move_sink_input(&mut self)
        ensures
            App::move_begun(*old(self), *final(self)),
            old(self).selection_ok() ==> final(self).selection_ok(),
    {
        if self.sink_input_sel < self.sink_inputs.len() {
            let input = self.sink_inputs[self.sink_input_sel].duplicate();
            self.dialog = Dialog::MoveSinkInput { input };
            self.focused = Panel::Sinks;
        } else {
            self.status_msg = Some(String::from_str("No application selected"));
        }
    }

    /// `post` is `pre` after `confirm_move_sink_input`, which asked for `req`.
    pub open spec fn move_confirmed(pre: App, post: App, req: Option<Request>) -> bool {
        match pre.dialog {
            Dialog::MoveSinkInput { input } => if pre.sink_sel < pre.sinks@.len() {
                let sink = pre.sinks@[pre.sink_sel as int];
                post == App { pending: Flow::Moving(input, sink), ..pre } && req == Some(
                    Request::MoveSinkInput(input, sink),
                )
            } else {
                post == pre && req is None
            },
            _ => post == pre && req is None,
        }
    }

    /// Asks to move the stream being moved to the selected sink.
    pub fn confirm_move_sink_input(&mut self) -> (req: Option<Request>)
        ensures
            App::move_confirmed(*old(self), *final(self), req),
            old(self).selection_ok() ==> final(self).selection_ok(),
    {
        if let Dialog::MoveSinkInput { input } = &self.dialog {
            if self.sink_sel < self.sinks.len() {
                let sink = self.sinks[self.sink_sel].duplicate();
                let sink2 = self.sinks[self.sink_sel].duplicate();
                let input2 = input.duplicate();
                let input3 = input.duplicate();
                self.pending = Flow::Moving(input2, sink);
                Some(Request::MoveSinkInput(input3, sink2))
            } else {
                None
            }
        } else {
            None
        }
    }

    /// `post` is `pre` after `confirm_new_loopback`, which asked for `req`.
    pub open spec fn new_loopback_confirmed(pre: App, post: App, req: Option<Request>) -> bool {
        match pre.dialog {
            Dialog::NewLoopbackPickSource => if pre.source_sel < pre.sources@.len() {
                post == App {
                    dialog: Dialog::NewLoopbackPickSink {
                        source: pre.sources@[pre.source_sel as int],
                    },
                    ..pre
                } && req is None
            } else {
                post == pre && req is None
            },
            Dialog::NewLoopbackPickSink { source } => if pre.sink_sel < pre.sinks@.len() {
                post == App { pending: Flow::CreatingLoopback, ..pre } && req == Some(
                    Request::CreateLoopback(source, pre.sinks@[pre.sink_sel as int]),
                )
            } else {
                post == pre && req is None
            },
            _ => post == pre && req is None,
        }
    }

    /// The loopback wizard: with the source being picked, takes the selected source
    /// and goes on to pick the sink; with the sink being picked, asks for a loopback
    /// from the chosen source into the selected sink.
    pub fn confirm_new_loopback(&mut self) -> (req: Option<Request>)
        ensures
            App::new_loopback_confirmed(*old(self), *final(self), req),
            old(self).selection_ok() ==> final(self).selection_ok(),
    {
        match &self.dialog {
            Dialog::NewLoopbackPickSource => {
                if self.source_sel < self.sources.len() {
                    let src = self.sources[self.source_sel].duplicate();
                    self.dialog = Dialog::NewLoopbackPickSink { source: src };
                }
                None
            },
            Dialog::NewLoopbackPickSink { source } => {
                if self.sink_sel < self.sinks.len() {
                    let sink = self.sinks[self.sink_sel].duplicate();
                    let src = source.duplicate();
                    self.pending = Flow::CreatingLoopback;
                    Some(Request::CreateLoopback(src, sink))
                } else {
                    None
                }
            },
            _ => None,
        }
    }

    /// `post` is `pre` after `confirm_new_virtual_sink`, which asked for `req`.
    pub open spec fn new_virtual_sink_confirmed(pre: App, post: App, req: Option<Request>) -> bool {
        match pre.dialog {
            Dialog::NewVirtualSink { input } => if trim(input@).len() == 0 {
                post == pre && req is None
            } else {
                &&& post == App { pending: post.pending, ..pre }
                &&& post.pending matches Flow::CreatingVirtualSink(n)
                &&& n@ == trim(input@)
                &&& req matches Some(Request::CreateVirtualSink(rn))
                &&& rn@ == trim(input@)
            },
            _ => post == pre && req is None,
        }
    }

    /// Asks to create the virtual sink that the dialog names; a name that is blank
    /// once trimmed does nothing.
    pub fn confirm_new_virtual_sink(&mut self) -> (req: Option<Request>)
        ensures
            App::new_virtual_sink_confirmed(*old(self), *final(self), req),
            old(self).selection_ok() ==> final(self).selection_ok(),
    {
        if let Dialog::NewVirtualSink { input } = &self.dialog {
            let n = trim_str(input.as_str());
            if n.as_str().unicode_len() == 0 {
                return None;
            }
            let n2 = n.clone();
            self.pending = Flow::CreatingVirtualSink(n);
            Some(Request::CreateVirtualSink(n2))
        } else {
            None
        }
    }
}

impl App {
    /// `post` is `pre` after `save_current_as_preset(name)`, which asked for `req`.
    pub open spec fn preset_save_started(pre: App, name: Seq<char>, post: App, req: Option<Request>) -> bool {
        if trim(name).len() == 0 {
            post == pre && req is None
        } else {
            &&& post == App { config: post.config, pending: post.pending, ..pre }
            &&& exists|p: Preset|
                preset_captures(p, pre, trim(name)) && #[trigger] with_preset(
                    pre.config.presets@,
                    p,
                ) == post.config.presets@
            &&& post.pending matches Flow::SavingPreset(n)
            &&& n@ == trim(name)
            &&& req == Some(Request::SaveConfig)
        }
    }

    /// Records the current virtual sinks and loopbacks as the preset `name` (trimmed),
    /// replacing a preset of that name, and asks to save the configuration; a name
    /// that is blank once trimmed does nothing.
    pub fn save_current_as_preset(&mut self, name: &str) -> (req: Option<Request>)
        ensures
            App::preset_save_started(*old(self), name@, *final(self), req),
            old(self).selection_ok() ==> final(self).selection_ok(),
    {
        let n = trim_str(name);
        if n.as_str().unicode_len() == 0 {
            return None;
        }
        let mut virtual_sinks: Vec<String> = Vec::new();
        let mut i: usize = 0;
        while i < self.sinks.len()
            invariant
                i <= self.sinks@.len(),
                virtual_sinks@.map_values(|s: String| s@) == virtual_sink_names(
                    self.sinks@.take(i as int),
                ),
            decreases self.sinks@.len() - i,
        {
            assert(self.sinks@.take(i + 1).drop_last() =~= self.sinks@.take(i as int));
            if self.sinks[i].is_virtual {
                let ghost before = virtual_sinks@.map_values(|s: String| s@);
                virtual_sinks.push(self.sinks[i].name.clone());
                assert(virtual_sinks@.map_values(|s: String| s@) =~= before.push(
                    self.sinks@[i as int].name@,
                ));
            }
            i = i + 1;
        }
        assert(self.sinks@.take(self.sinks@.len() as int) =~= self.sinks@);
        let mut loopbacks: Vec<LoopbackEntry> = Vec::new();
        let mut j: usize = 0;
        while j < self.loopbacks.len()
            invariant
                j <= self.loopbacks@.len(),
                loopbacks@.map_values(|e: LoopbackEntry| entry_ends(e)) == self.loopbacks@.take(
                    j as int,
                ).map_values(|l: Loopback| loopback_ends(l)),
            decreases self.loopbacks@.len() - j,
        {
            let ghost before = loopbacks@.map_values(|e: LoopbackEntry| entry_ends(e));
            let lb = &self.loopbacks[j];
            loopbacks.push(LoopbackEntry { source: lb.source_name.clone(), sink: lb.sink_name.clone() });
            assert(loopbacks@.map_values(|e: LoopbackEntry| entry_ends(e)) =~= before.push(
                loopback_ends(self.loopbacks@[j as int]),
            ));
            assert(self.loopbacks@.take(j + 1).map_values(|l: Loopback| loopback_ends(l))
                =~= self.loopbacks@.take(j as int).map_values(|l: Loopback| loopback_ends(l)).push(
                loopback_ends(self.loopbacks@[j as int]),
            ));
            j = j + 1;
        }
        assert(self.loopbacks@.take(self.loopbacks@.len() as int) =~= self.loopbacks@);
        let preset = Preset { name: n.clone(), virtual_sinks, loopbacks };
        let ghost p = preset;
        assert(preset_captures(p, *old(self), trim(name@)));
        self.config.add_or_replace_preset(preset);
        assert(with_preset(old(self).config.presets@, p) == self.config.presets@);
        self.pending = Flow::SavingPreset(n);
        Some(Request::SaveConfig)
    }

    /// `post` is `pre` having asked for `req` to create the virtual sinks of `p`
    /// from index `next` on, or, when none is left, for the refresh that follows.
    pub open spec fn sinks_step(pre: App, p: Preset, next: int, post: App, req: Option<Request>) -> bool {
        if 0 <= next < p.virtual_sinks@.len() {
            &&& post == App { pending: Flow::PresetSinks { preset: p, next: next as usize }, ..pre }
            &&& req matches Some(Request::CreateVirtualSink(n))
            &&& n@ == p.virtual_sinks@[next]@
        } else {
            post == App { pending: Flow::PresetListing { preset: p }, ..pre } && req == Some(
                Request::List,
            )
        }
    }

    fn preset_sinks_step(&mut self, preset: Preset, next: usize) -> (req: Option<Request>)
        ensures
            App::sinks_step(*old(self), preset, next as int, *final(self), req),
    {
        if next < preset.virtual_sinks.len() {
            let n = preset.virtual_sinks[next].clone();
            self.pending = Flow::PresetSinks { preset, next };
            Some(Request::CreateVirtualSink(n))
        } else {
            self.pending = Flow::PresetListing { preset };
            Some(Request::List)
        }
    }

    /// `post` is `pre` having asked for `req` to load the first loopback of `p` at or
    /// after `from` whose source and sink both exist, or, when none is left, for the
    /// final refresh.
    pub open spec fn loopbacks_step(pre: App, p: Preset, from: int, post: App, req: Option<Request>) -> bool {
        match next_restorable(pre.sources@, pre.sinks@, p.loopbacks@, from) {
            Some(k) => {
                let e = p.loopbacks@[k as int];
                &&& post == App {
                    pending: Flow::PresetLoopbacks { preset: p, next: (k + 1) as usize },
                    ..pre
                }
                &&& req == Some(
                    Request::CreateLoopback(
                        pre.sources@[source_named(pre.sources@, e.source@)->0 as int],
                        pre.sinks@[sink_named(pre.sinks@, e.sink@)->0 as int],
                    ),
                )
            },
            None => post == App { pending: Flow::PresetFinalListing { preset: p }, ..pre } && req
                == Some(Request::List),
        }
    }

    fn find_source(&self, name: &String) -> (r: Option<usize>)
        ensures
            match r {
                Some(i) => source_named(self.sources@, name@) == Some(i as nat),
                None => source_named(self.sources@, name@) is None,
            },
    {
        let mut i: usize = 0;
        while i < self.sources.len()
            invariant
                i <= self.sources@.len(),
                forall|k: int| 0 <= k < i ==> (#[trigger] self.sources@[k]).name@ != name@,
            decreases self.sources@.len() - i,
        {
            if self.sources[i].name == *name {
                proof {
                    lemma_source_named(self.sources@, name@, i as int);
                }
                return Some(i);
            }
            i = i + 1;
        }
        proof {
            lemma_source_named(self.sources@, name@, i as int);
        }
        None
    }

    fn find_sink(&self, name: &String) -> (r: Option<usize>)
        ensures
            match r {
                Some(i) => sink_named(self.sinks@, name@) == Some(i as nat),
                None => sink_named(self.sinks@, name@) is None,
            },
    {
        let mut i: usize = 0;
        while i < self.sinks.len()
            invariant
                i <= self.sinks@.len(),
                forall|k: int| 0 <= k < i ==> (#[trigger] self.sinks@[k]).name@ != name@,
            decreases self.sinks@.len() - i,
        {
            if self.sinks[i].name == *name {
                proof {
                    lemma_sink_named(self.sinks@, name@, i as int);
                }
                return Some(i);
            }
            i = i + 1;
        }
        proof {
            lemma_sink_named(self.sinks@, name@, i as int);
        }
        None
    }

    fn preset_loopbacks_step(&mut self, preset: Preset, from: usize) -> (req: Option<Request>)
        ensures
            App::loopbacks_step(*old(self), preset, from as int, *final(self), req),
    {
        let mut k: usize = from;
        while k < preset.loopbacks.len()
            invariant
                *self == *old(self),
                from <= k,
                next_restorable(self.sources@, self.sinks@, preset.loopbacks@, from as int)
                    == next_restorable(self.sources@, self.sinks@, preset.loopbacks@, k as int),
            decreases preset.loopbacks@.len() - k,
        {
            let e = &preset.loopbacks[k];
            let si = self.find_source(&e.source);
            let ki = self.find_sink(&e.sink);
            if let Some(si) = si {
                if let Some(ki) = ki {
                    proof {
                        lemma_named_bound(self.sources@, self.sinks@, e.source@, e.sink@);
                    }
                    let src = self.sources[si].duplicate();
                    let snk = self.sinks[ki].duplicate();
                    self.pending = Flow::PresetLoopbacks { preset, next: k + 1 };
                    return Some(Request::CreateLoopback(src, snk));
                }
            }
            k = k + 1;
        }
        self.pending = Flow::PresetFinalListing { preset };
        Some(Request::List)
    }

    /// `post` is `pre` after `load_preset(idx)`, which asked for `req`.
    pub open spec fn preset_load_started(pre: App, idx: usize, post: App, req: Option<Request>) -> bool {
        if idx >= pre.config.presets@.len() {
            post == pre && req is None
        } else {
            exists|q: Preset|
                same_preset(q, pre.config.presets@[idx as int]) && #[trigger] App::sinks_step(
                    pre,
                    q,
                    0,
                    post,
                    req,
                )
        }
    }

    /// Starts restoring the preset at `idx`: its virtual sinks are created one after
    /// the other, the lists are refreshed, then each of its loopbacks whose source and
    /// sink both exist is loaded, and the lists are refreshed again. The dialog closes
    /// when it is done and shows the error of the first step that fails. An index past
    /// the presets restores nothing and leaves the view as it was.
    pub fn load_preset(&mut self, idx: usize) -> (req: Option<Request>)
        ensures
            App::preset_load_started(*old(self), idx, *final(self), req),
            old(self).selection_ok() ==> final(self).selection_ok(),
    {
        if idx >= self.config.presets.len() {
            return None;
        }
        let preset = self.config.presets[idx].duplicate();
        let ghost q = preset;
        let r = self.preset_sinks_step(preset, 0);
        assert(App::sinks_step(*old(self), q, 0, *self, r));
        r
    }
}

impl App {
    /// `post` is `pre` with the status message `text`, asking to refresh.
    pub open spec fn noted_then_refresh(pre: App, text: Seq<char>, post: App, req: Option<Request>) -> bool {
        &&& post == App {
            status_msg: post.status_msg,
            pending: Flow::Refreshing { note: None },
            ..pre
        }
        &&& says(post.status_msg, text)
        &&& req == Some(Request::List)
    }

    /// `post` is `pre` with the status message `text`, the dialog closed, `focus`
    /// focused, asking to refresh.
    pub open spec fn finished_then_refresh(
        pre: App,
        text: Seq<char>,
        focus: Panel,
        post: App,
        req: Option<Request>,
    ) -> bool {
        &&& post == App {
            status_msg: post.status_msg,
            dialog: Dialog::Closed,
            focused: focus,
            pending: Flow::Refreshing { note: None },
            ..pre
        }
        &&& says(post.status_msg, text)
        &&& req == Some(Request::List)
    }

    /// `post` is `pre` done, with the status message `text`.
    pub open spec fn reported(pre: App, text: Seq<char>, post: App, req: Option<Request>) -> bool {
        &&& post == App { status_msg: post.status_msg, pending: Flow::Idle, ..pre }
        &&& says(post.status_msg, text)
        &&& req is None
    }

    /// `post` is `pre` done, showing the error `e` in the dialog.
    pub open spec fn failed(pre: App, e: String, post: App, req: Option<Request>) -> bool {
        post == App { dialog: Dialog::Error(e), pending: Flow::Idle, ..pre } && req is None
    }

    /// `post` is `pre` after `resume(reply)`, which asked for `req`.
    pub open spec fn resumed(pre: App, reply: Reply, post: App, req: Option<Request>) -> bool {
        match (pre.pending, reply) {
            (Flow::Refreshing { note }, Reply::Listed(l)) => exists|mid: App|
                #[trigger] App::refreshed(pre, l, mid) && post == App {
                    status_msg: if note is Some {
                        note
                    } else {
                        mid.status_msg
                    },
                    pending: Flow::Idle,
                    ..mid
                } && req is None,
            (Flow::RemovingLoopback(lb), Reply::Done(Ok(_))) => App::noted_then_refresh(
                pre,
                "Removed loopback "@ + lb.source_name@ + " → "@ + lb.sink_name@,
                post,
                req,
            ),
            (Flow::RemovingLoopback(_), Reply::Done(Err(e))) => App::reported(
                pre,
                "Error: "@ + e@,
                post,
                req,
            ),
            (Flow::RemovingSink(sink), Reply::Done(Ok(_))) => App::noted_then_refresh(
                pre,
                "Removed virtual sink '"@ + sink.name@ + "'"@,
                post,
                req,
            ),
            (Flow::RemovingSink(_), Reply::Done(Err(e))) => App::reported(
                pre,
                "Error: "@ + e@,
                post,
                req,
            ),
            (Flow::CreatingVirtualSource(n), Reply::SourceCreated(Ok(_))) => App::finished_then_refresh(
                pre,
                "Created virtual input '"@ + n@ + "' — select it in your recording app"@,
                pre.focused,
                post,
                req,
            ),
            (Flow::CreatingVirtualSource(_), Reply::SourceCreated(Err(e))) => App::failed(
                pre,
                e,
                post,
                req,
            ),
            (Flow::Listening(sink, output), Reply::LoopbackCreated(Ok(_))) => App::finished_then_refresh(
                pre,
                "Listening: "@ + sink.description@ + " → "@ + output.description@,
                Panel::Loopbacks,
                post,
                req,
            ),
            (Flow::Listening(_, _), Reply::LoopbackCreated(Err(e))) => App::failed(
                pre,
                e,
                post,
                req,
            ),
            (Flow::Moving(input, sink), Reply::Done(Ok(_))) => App::finished_then_refresh(
                pre,
                "Moved '"@ + input.app_name@ + "' → "@ + sink.description@,
                Panel::Applications,
                post,
                req,
            ),
            (Flow::Moving(_, _), Reply::Done(Err(e))) => App::failed(pre, e, post, req),
            (Flow::CreatingLoopback, Reply::LoopbackCreated(Ok(lb))) => App::finished_then_refresh(
                pre,
                "Created loopback "@ + lb.source_name@ + " → "@ + lb.sink_name@,
                pre.focused,
                post,
                req,
            ),
            (Flow::CreatingLoopback, Reply::LoopbackCreated(Err(e))) => App::failed(
                pre,
                e,
                post,
                req,
            ),
            (Flow::CreatingVirtualSink(n), Reply::SinkCreated(Ok(_))) => App::finished_then_refresh(
                pre,
                "Created virtual sink '"@ + n@ + "'"@,
                pre.focused,
                post,
                req,
            ),
            (Flow::CreatingVirtualSink(_), Reply::SinkCreated(Err(e))) => App::failed(
                pre,
                e,
                post,
                req,
            ),
            (Flow::SavingPreset(n), Reply::Done(Ok(_))) => App::reported(
                pre,
                "Saved preset '"@ + n@ + "'"@,
                post,
                req,
            ),
            (Flow::SavingPreset(_), Reply::Done(Err(e))) => App::reported(
                pre,
                "Failed to save preset: "@ + e@,
                post,
                req,
            ),
            (Flow::PresetSinks { preset, next }, Reply::SinkCreated(Ok(_))) => App::sinks_step(
                pre,
                preset,
                next + 1,
                post,
                req,
            ),
            (Flow::PresetSinks { .. }, Reply::SinkCreated(Err(e))) => App::failed(
                pre,
                e,
                post,
                req,
            ),
            (Flow::PresetListing { preset }, Reply::Listed(l)) => exists|mid: App|
                #[trigger] App::refreshed(pre, l, mid) && App::loopbacks_step(
                    mid,
                    preset,
                    0,
                    post,
                    req,
                ),
            (Flow::PresetLoopbacks { preset, next }, Reply::LoopbackCreated(Ok(_))) => App::loopbacks_step(
                pre,
                preset,
                next as int,
                post,
                req,
            ),
            (Flow::PresetLoopbacks { .. }, Reply::LoopbackCreated(Err(e))) => App::failed(
                pre,
                e,
                post,
                req,
            ),
            (Flow::PresetFinalListing { preset }, Reply::Listed(l)) => exists|mid: App|
                #[trigger] App::refreshed(pre, l, mid) && post == App {
                    status_msg: post.status_msg,
                    dialog: Dialog::Closed,
                    pending: Flow::Idle,
                    ..mid
                } && says(post.status_msg, "Loaded preset '"@ + preset.name@ + "'"@) && req is None,
            _ => post == App { pending: Flow::Idle, ..pre } && req is None,
        }
    }

    /// Continues the operation that waits for `reply`: it reports how the work ended in
    /// the status message or the dialog, and asks for the refresh or the next step that
    /// follows. A reply that the waiting operation does not expect ends it and changes
    /// nothing else.
    pub fn resume(&mut self, reply: Reply) -> (req: Option<Request>)
        ensures
            App::resumed(*old(self), reply, *final(self), req),
            old(self).selection_ok() ==> final(self).selection_ok(),
    {
        let ghost pre = *self;
        let ghost rep = reply;
        let mut flow = Flow::Idle;
        std::mem::swap(&mut flow, &mut self.pending);
        match flow {
            Flow::Refreshing { note } => match reply {
                Reply::Listed(l) => {
                    self.refresh(l);
                    let ghost mid = App { pending: pre.pending, ..*self };
                    assert(App::refreshed(pre, l, mid));
                    if let Some(n) = note {
                        self.status_msg = Some(n);
                    }
                    None
                },
                _ => None,
            },
            Flow::RemovingLoopback(lb) => match reply {
                Reply::Done(Ok(_)) => {
                    let head = concat3("Removed loopback ", lb.source_name.as_str(), " → ");
                    self.status_msg = Some(concat2(head.as_str(), lb.sink_name.as_str()));
                    self.pending = Flow::Refreshing { note: None };
                    Some(Request::List)
                },
                Reply::Done(Err(e)) => {
                    self.status_msg = Some(concat2("Error: ", e.as_str()));
                    None
                },
                _ => None,
            },
            Flow::RemovingSink(sink) => match reply {
                Reply::Done(Ok(_)) => {
                    self.status_msg = Some(
                        concat3("Removed virtual sink '", sink.name.as_str(), "'"),
                    );
                    self.pending = Flow::Refreshing { note: None };
                    Some(Request::List)
                },
                Reply::Done(Err(e)) => {
                    self.status_msg = Some(concat2("Error: ", e.as_str()));
                    None
                },
                _ => None,
            },
            Flow::CreatingVirtualSource(n) => match reply {
                Reply::SourceCreated(Ok(_)) => {
                    self.status_msg = Some(
                        concat3(
                            "Created virtual input '",
                            n.as_str(),
                            "' — select it in your recording app",
                        ),
                    );
                    self.dialog = Dialog::Closed;
                    self.pending = Flow::Refreshing { note: None };
                    Some(Request::List)
                },
                Reply::SourceCreated(Err(e)) => {
                    self.dialog = Dialog::Error(e);
                    None
                },
                _ => None,
            },
            Flow::Listening(sink, output) => match reply {
                Reply::LoopbackCreated(Ok(_)) => {
                    let head = concat3("Listening: ", sink.description.as_str(), " → ");
                    self.status_msg = Some(concat2(head.as_str(), output.description.as_str()));
                    self.dialog = Dialog::Closed;
                    self.focused = Panel::Loopbacks;
                    self.pending = Flow::Refreshing { note: None };
                    Some(Request::List)
                },
                Reply::LoopbackCreated(Err(e)) => {
                    self.dialog = Dialog::Error(e);
                    None
                },
                _ => None,
            },
            Flow::Moving(input, sink) => match reply {
                Reply::Done(Ok(_)) => {
                    let head = concat3("Moved '", input.app_name.as_str(), "' → ");
                    self.status_msg = Some(concat2(head.as_str(), sink.description.as_str()));
                    self.dialog = Dialog::Closed;
                    self.focused = Panel::Applications;
                    self.pending = Flow::Refreshing { note: None };
                    Some(Request::List)
                },
                Reply::Done(Err(e)) => {
                    self.dialog = Dialog::Error(e);
                    None
                },
                _ => None,
            },
            Flow::CreatingLoopback => match reply {
                Reply::LoopbackCreated(Ok(lb)) => {
                    let head = concat3("Created loopback ", lb.source_name.as_str(), " → ");
                    self.status_msg = Some(concat2(head.as_str(), lb.sink_name.as_str()));
                    self.dialog = Dialog::Closed;
                    self.pending = Flow::Refreshing { note: None };
                    Some(Request::List)
                },
                Reply::LoopbackCreated(Err(e)) => {
                    self.dialog = Dialog::Error(e);
                    None
                },
                _ => None,
            },
            Flow::CreatingVirtualSink(n) => match reply {
                Reply::SinkCreated(Ok(_)) => {
                    self.status_msg = Some(concat3("Created virtual sink '", n.as_str(), "'"));
                    self.dialog = Dialog::Closed;
                    self.pending = Flow::Refreshing { note: None };
                    Some(Request::List)
                },
                Reply::SinkCreated(Err(e)) => {
                    self.dialog = Dialog::Error(e);
                    None
                },
                _ => None,
            },
            Flow::SavingPreset(n) => match reply {
                Reply::Done(Ok(_)) => {
                    self.status_msg = Some(concat3("Saved preset '", n.as_str(), "'"));
                    None
                },
                Reply::Done(Err(e)) => {
                    self.status_msg = Some(concat2("Failed to save preset: ", e.as_str()));
                    None
                },
                _ => None,
            },
            Flow::PresetSinks { preset, next } => match reply {
                Reply::SinkCreated(Ok(_)) => {
                    let following = if next < preset.virtual_sinks.len() {
                        next + 1
                    } else {
                        next
                    };
                    let r = self.preset_sinks_step(preset, following);
                    assert(App::sinks_step(pre, preset, next + 1, *self, r));
                    r
                },
                Reply::SinkCreated(Err(e)) => {
                    self.dialog = Dialog::Error(e);
                    None
                },
                _ => None,
            },
            Flow::PresetListing { preset } => match reply {
                Reply::Listed(l) => {
                    self.refresh(l);
                    let ghost mid = App { pending: pre.pending, ..*self };
                    assert(App::refreshed(pre, l, mid));
                    let r = self.preset_loopbacks_step(preset, 0);
                    assert(App::loopbacks_step(mid, preset, 0, *self, r));
                    r
                },
                _ => None,
            },
            Flow::PresetLoopbacks { preset, next } => match reply {
                Reply::LoopbackCreated(Ok(_)) => self.preset_loopbacks_step(preset, next),
                Reply::LoopbackCreated(Err(e)) => {
                    self.dialog = Dialog::Error(e);
                    None
                },
                _ => None,
            },
            Flow::PresetFinalListing { preset } => match reply {
                Reply::Listed(l) => {
                    self.refresh(l);
                    let ghost mid = App { pending: pre.pending, ..*self };
                    assert(App::refreshed(pre, l, mid));
                    self.status_msg = Some(concat3("Loaded preset '", preset.name.as_str(), "'"));
                    self.dialog = Dialog::Closed;
                    None
                },
                _ => None,
            },
            Flow::Idle => None,
        }
    }
}

/// Moving focus forward then back, or back then forward, returns to the same panel,
/// and four moves forward go all the way round.
pub proof fn law_focus_cycle(p: Panel)
    ensures
        p.following().preceding() == p,
        p.preceding().following() == p,
        p.following().following().following().following() == p,
{
}

/// The selection of the focused panel, and the length of its list.
pub open spec fn focused_selection(app: App) -> (usize, nat) {
    match app.focused {
        Panel::Sources => (app.source_sel, app.sources@.len()),
        Panel::Sinks => (app.sink_sel, app.sinks@.len()),
        Panel::Loopbacks => (app.loopback_sel, app.loopbacks@.len()),
        Panel::Applications => (app.sink_input_sel, app.sink_inputs@.len()),
    }
}

/// Moving down then up returns to the same state when there was an item below;
/// moving up then down returns to it when there was an item above.
pub proof fn law_move_down_then_up(pre: App, mid: App, post: App)
    ensures
        App::moved_down(pre, mid) && App::moved_up(mid, post) && focused_selection(pre).0 + 1
            < focused_selection(pre).1 ==> post == pre,
        App::moved_up(pre, mid) && App::moved_down(mid, post) && 0 < focused_selection(pre).0
            < focused_selection(pre).1 ==> post == pre,
{
    if App::moved_down(pre, mid) && App::moved_up(mid, post) && focused_selection(pre).0 + 1
        < focused_selection(pre).1 {
        assert(mid.focused == pre.focused);
        match pre.focused {
            Panel::Sources => {
                assert(pre.sources.len() == pre.sources@.len());
                assert(post.source_sel == pre.source_sel);
                assert(post == App { source_sel: pre.source_sel, ..pre });
            },
            Panel::Sinks => {
                assert(pre.sinks.len() == pre.sinks@.len());
                assert(post.sink_sel == pre.sink_sel);
                assert(post == App { sink_sel: pre.sink_sel, ..pre });
            },
            Panel::Loopbacks => {
                assert(pre.loopbacks.len() == pre.loopbacks@.len());
                assert(post.loopback_sel == pre.loopback_sel);
                assert(post == App { loopback_sel: pre.loopback_sel, ..pre });
            },
            Panel::Applications => {
                assert(pre.sink_inputs.len() == pre.sink_inputs@.len());
                assert(post.sink_input_sel == pre.sink_input_sel);
                assert(post == App { sink_input_sel: pre.sink_input_sel, ..pre });
            },
        }
    }
}

/// Loading the preset just saved restores the routing that was saved: saving under a
/// name and then loading the preset found under that name starts restoring exactly the
/// virtual sinks and loopbacks that the view had when it was saved.
pub proof fn law_saved_preset_reloads(
    pre: App,
    name: Seq<char>,
    mid: App,
    saved: Option<Request>,
    i: usize,
    post: App,
    loading: Option<Request>,
)
    requires
        trim(name).len() > 0,
        App::preset_save_started(pre, name, mid, saved),
        App::preset_load_started(mid, i, post, loading),
        position_named(mid.config.presets@, trim(name)) == Some(i as nat),
    ensures
        exists|q: Preset|
            preset_captures(q, pre, trim(name)) && #[trigger] App::sinks_step(mid, q, 0, post, loading),
{
    let p = choose|p: Preset|
        preset_captures(p, pre, trim(name)) && #[trigger] with_preset(pre.config.presets@, p)
            == mid.config.presets@;
    law_stored_preset_is_found(pre.config.presets@, p);
    lemma_position_named_found(mid.config.presets@, trim(name));
    assert(p.name@ == trim(name));
    assert(mid.config.presets@[i as int] == p);
    let q = choose|q: Preset|
        same_preset(q, mid.config.presets@[i as int]) && #[trigger] App::sinks_step(
            mid,
            q,
            0,
            post,
            loading,
        );
    assert(q.virtual_sinks@ == p.virtual_sinks@);
    assert(q.loopbacks@ == p.loopbacks@);
    assert(preset_captures(q, pre, trim(name)));
    assert(App::sinks_step(mid, q, 0, post, loading));
}

/// The operation waits for the audio server to remove, create or move something.
pub open spec fn changes_server(f: Flow) -> bool {
    ||| f is RemovingLoopback
    ||| f is RemovingSink
    ||| f is CreatingVirtualSource
    ||| f is Listening
    ||| f is Moving
    ||| f is CreatingLoopback
    ||| f is CreatingVirtualSink
}

/// `r` is the successful reply that the operation `f` waits for.
pub open spec fn succeeded(f: Flow, r: Reply) -> bool {
    match f {
        Flow::RemovingLoopback(_) | Flow::RemovingSink(_) | Flow::Moving(_, _) => r matches Reply::Done(
            Ok(_),
        ),
        Flow::CreatingVirtualSource(_) => r matches Reply::SourceCreated(Ok(_)),
        Flow::Listening(_, _) | Flow::CreatingLoopback => r matches Reply::LoopbackCreated(Ok(_)),
        Flow::CreatingVirtualSink(_) => r matches Reply::SinkCreated(Ok(_)),
        _ => false,
    }
}

/// A change on the audio server that succeeds is always followed by a refresh, so
/// that the panels show it; one that fails, or any other reply, ends the operation
/// without asking for anything more.
pub proof fn law_changes_refresh_on_success(pre: App, reply: Reply, post: App, req: Option<Request>)
    requires
        App::resumed(pre, reply, post, req),
        changes_server(pre.pending),
    ensures
        succeeded(pre.pending, reply) ==> req == Some(Request::List) && post.pending == (
        Flow::Refreshing { note: None }),
        !succeeded(pre.pending, reply) ==> req is None && post.pending is Idle,
{
}

} // verus!
