//! What the view's operations are for, stated over their inputs and results: the
//! selection a refresh keeps, what a deletion removes, what a saved preset records,
//! and how restoring a preset walks through all of its virtual sinks and loopbacks.

use vstd::prelude::*;
use crate::app::{
    sink_named,
    source_named,
    next_restorable,
    virtual_sink_names,
    App,
    Flow,
    Listing,
    Panel,
    Reply,
    Request,
};
use crate::audio::{Sink, Source};
use crate::config::{law_stored_preset_is_found, lemma_position_named_found, position_named, LoopbackEntry, Preset};
use crate::keys::Key;
use crate::app::{says, Dialog};
use crate::text::trim;

verus! {

/// The selection kept for a list read again as `v`, from the selection `sel`: `sel`
/// while it points into `v`, else the last item of `v`, or 0 when `v` is empty.
pub open spec fn kept_selection(sel: usize, new_len: nat, post_sel: usize) -> bool {
    &&& sel < new_len ==> post_sel == sel
    &&& sel >= new_len && new_len > 0 ==> post_sel == new_len - 1
    &&& new_len == 0 ==> post_sel == 0
}

/// A refresh takes each list that was read, keeping its selection where it was while
/// it still points into the new list (else on the last item, or at 0 when the list is
/// empty), and leaves each list whose query failed, with its selection, as it was.
pub proof fn law_refresh_keeps_selections(pre: App, l: Listing, post: App)
    requires
        App::refreshed(pre, l, post),
    ensures
        l.sources matches Ok(v) ==> post.sources@ == v@ && kept_selection(
            pre.source_sel,
            v@.len(),
            post.source_sel,
        ),
        l.sinks matches Ok(v) ==> post.sinks@ == v@ && kept_selection(
            pre.sink_sel,
            v@.len(),
            post.sink_sel,
        ),
        l.loopbacks matches Ok(v) ==> post.loopbacks@ == v@ && kept_selection(
            pre.loopback_sel,
            v@.len(),
            post.loopback_sel,
        ),
        l.sink_inputs matches Ok(v) ==> post.sink_inputs@ == v@ && kept_selection(
            pre.sink_input_sel,
            v@.len(),
            post.sink_input_sel,
        ),
        l.sources is Err ==> post.sources@ == pre.sources@ && post.source_sel == pre.source_sel,
        l.sinks is Err ==> post.sinks@ == pre.sinks@ && post.sink_sel == pre.sink_sel,
        l.loopbacks is Err ==> post.loopbacks@ == pre.loopbacks@ && post.loopback_sel
            == pre.loopback_sel,
        l.sink_inputs is Err ==> post.sink_inputs@ == pre.sink_inputs@ && post.sink_input_sel
            == pre.sink_input_sel,
        post.focused == pre.focused,
        post.dialog == pre.dialog,
{
}

/// Deleting asks to remove exactly the item under the selection, and the operation
/// waits on that same item: on the Loopbacks panel the selected loopback, on the Sinks
/// panel the selected sink when it is virtual. Nothing else is ever asked, and the
/// lists and selections stay as they were until the refresh that follows.
pub proof fn law_delete_removes_the_selected_item(pre: App, post: App, req: Option<Request>)
    requires
        App::delete_started(pre, post, req),
    ensures
        pre.focused == Panel::Loopbacks && pre.loopback_sel < pre.loopbacks@.len() ==> {
            let lb = pre.loopbacks@[pre.loopback_sel as int];
            req == Some(Request::RemoveLoopback(lb)) && post.pending == Flow::RemovingLoopback(lb)
        },
        pre.focused == Panel::Sinks && pre.sink_sel < pre.sinks@.len()
            && pre.sinks@[pre.sink_sel as int].is_virtual ==> {
            let s = pre.sinks@[pre.sink_sel as int];
            req == Some(Request::RemoveVirtualSink(s)) && post.pending == Flow::RemovingSink(s)
        },
        req matches Some(Request::RemoveLoopback(lb)) ==> pre.focused == Panel::Loopbacks
            && pre.loopback_sel < pre.loopbacks@.len() && lb == pre.loopbacks@[pre.loopback_sel as int],
        req matches Some(Request::RemoveVirtualSink(s)) ==> pre.focused == Panel::Sinks
            && pre.sink_sel < pre.sinks@.len() && s == pre.sinks@[pre.sink_sel as int] && s.is_virtual,
        req is None || req matches Some(Request::RemoveLoopback(_)) || req matches Some(
            Request::RemoveVirtualSink(_),
        ),
        post.loopbacks == pre.loopbacks && post.loopback_sel == pre.loopback_sel,
        post.sinks == pre.sinks && post.sink_sel == pre.sink_sel,
{
}

/// The sink is a virtual one.
pub open spec fn is_virtual_sink(s: Sink) -> bool {
    s.is_virtual
}

/// The name of a sink.
pub open spec fn sink_name(s: Sink) -> Seq<char> {
    s.name@
}

proof fn lemma_virtual_names_filter(s: Seq<Sink>)
    ensures
        virtual_sink_names(s) == s.filter(|x: Sink| is_virtual_sink(x)).map_values(
            |x: Sink| sink_name(x),
        ),
    decreases s.len(),
{
    reveal(Seq::filter);
    if s.len() > 0 {
        lemma_virtual_names_filter(s.drop_last());
        let f = s.drop_last().filter(|x: Sink| is_virtual_sink(x));
        if s.last().is_virtual {
            assert(f.push(s.last()).map_values(|x: Sink| sink_name(x)) =~= f.map_values(
                |x: Sink| sink_name(x),
            ).push(s.last().name@));
        }
    } else {
        assert(s.filter(|x: Sink| is_virtual_sink(x)).map_values(|x: Sink| sink_name(x)) =~= seq![]);
    }
}

/// Saving under a name that is not blank stores, under that name trimmed, a preset
/// whose virtual sinks are the names of the view's virtual sinks, every one and in
/// order, and whose loopbacks are the view's loopbacks, source and sink, in order;
/// then it asks to write the configuration.
pub proof fn law_saved_preset_records_the_routing(
    pre: App,
    name: Seq<char>,
    post: App,
    req: Option<Request>,
)
    requires
        App::preset_save_started(pre, name, post, req),
        trim(name).len() > 0,
    ensures
        req == Some(Request::SaveConfig),
        position_named(post.config.presets@, trim(name)) matches Some(i) && {
            let p = post.config.presets@[i as int];
            &&& p.virtual_sinks@.map_values(|s: String| s@) == pre.sinks@.filter(
                |x: Sink| is_virtual_sink(x),
            ).map_values(|x: Sink| sink_name(x))
            &&& p.loopbacks@.len() == pre.loopbacks@.len()
            &&& forall|k: int|
                0 <= k < p.loopbacks@.len() ==> (#[trigger] p.loopbacks@[k]).source@
                    == pre.loopbacks@[k].source_name@ && p.loopbacks@[k].sink@
                    == pre.loopbacks@[k].sink_name@
        },
{
    let p = choose|p: Preset|
        crate::app::preset_captures(p, pre, trim(name)) && #[trigger] crate::config::with_preset(
            pre.config.presets@,
            p,
        ) == post.config.presets@;
    law_stored_preset_is_found(pre.config.presets@, p);
    lemma_position_named_found(post.config.presets@, trim(name));
    lemma_virtual_names_filter(pre.sinks@);
    let ls = p.loopbacks@.map_values(|e: LoopbackEntry| crate::app::entry_ends(e));
    let ms = pre.loopbacks@.map_values(|l: crate::audio::Loopback| crate::app::loopback_ends(l));
    assert(ls.len() == p.loopbacks@.len());
    assert(ms.len() == pre.loopbacks@.len());
    assert forall|k: int| 0 <= k < p.loopbacks@.len() implies (#[trigger] p.loopbacks@[k]).source@
        == pre.loopbacks@[k].source_name@ && p.loopbacks@[k].sink@
        == pre.loopbacks@[k].sink_name@ by {
        assert(ls[k] == ms[k]);
    }
}

/// The entry `e` can be restored in `app`: a source and a sink of its names exist.
pub open spec fn restorable(app: App, e: LoopbackEntry) -> bool {
    &&& exists|i: int| 0 <= i < app.sources@.len() && #[trigger] app.sources@[i].name@ == e.source@
    &&& exists|j: int| 0 <= j < app.sinks@.len() && #[trigger] app.sinks@[j].name@ == e.sink@
}

/// Restoring `p` in `app` goes on from entry `from` with the request `req` and the
/// state `post`: with the first restorable entry at or after `from`, created from a
/// source and a sink of its names that `app` lists, or, when there is none, with the
/// final refresh.
pub open spec fn continues_with_first_restorable(
    app: App,
    p: Preset,
    from: int,
    post: App,
    req: Option<Request>,
) -> bool {
    let lbs = p.loopbacks@;
    if exists|k: int| from <= k < lbs.len() && #[trigger] restorable(app, lbs[k]) {
        exists|k: int|
            #![trigger lbs[k]]
            {
                &&& from <= k < lbs.len()
                &&& restorable(app, lbs[k])
                &&& forall|m: int| from <= m < k ==> !#[trigger] restorable(app, lbs[m])
                &&& req matches Some(Request::CreateLoopback(src, snk))
                &&& app.sources@.contains(src) && src.name@ == lbs[k].source@
                &&& app.sinks@.contains(snk) && snk.name@ == lbs[k].sink@
                &&& post == App {
                    pending: Flow::PresetLoopbacks { preset: p, next: (k + 1) as usize },
                    ..app
                }
            }
    } else {
        req == Some(Request::List) && post == App {
            pending: Flow::PresetFinalListing { preset: p },
            ..app
        }
    }
}

proof fn lemma_source_named_none(s: Seq<Source>, name: Seq<char>)
    ensures
        source_named(s, name) is None ==> forall|i: int| 0 <= i < s.len() ==> (#[trigger] s[i]).name@ != name,
        source_named(s, name) matches Some(i) ==> i < s.len() && s[i as int].name@ == name,
    decreases s.len(),
{
    if s.len() > 0 {
        lemma_source_named_none(s.drop_first(), name);
        assert forall|i: int| 1 <= i < s.len() implies (#[trigger] s[i]) == s.drop_first()[i - 1] by {}
    }
}

proof fn lemma_sink_named_none(s: Seq<Sink>, name: Seq<char>)
    ensures
        sink_named(s, name) is None ==> forall|i: int| 0 <= i < s.len() ==> (#[trigger] s[i]).name@ != name,
        sink_named(s, name) matches Some(i) ==> i < s.len() && s[i as int].name@ == name,
    decreases s.len(),
{
    if s.len() > 0 {
        lemma_sink_named_none(s.drop_first(), name);
        assert forall|i: int| 1 <= i < s.len() implies (#[trigger] s[i]) == s.drop_first()[i - 1] by {}
    }
}

proof fn lemma_restorable(app: App, e: LoopbackEntry)
    ensures
        restorable(app, e) <==> (source_named(app.sources@, e.source@) is Some && sink_named(
            app.sinks@,
            e.sink@,
        ) is Some),
{
    lemma_source_named_none(app.sources@, e.source@);
    lemma_sink_named_none(app.sinks@, e.sink@);
    if let Some(i) = source_named(app.sources@, e.source@) {
        assert(app.sources@[i as int].name@ == e.source@);
    }
    if let Some(j) = sink_named(app.sinks@, e.sink@) {
        assert(app.sinks@[j as int].name@ == e.sink@);
    }
}

proof fn lemma_next_restorable(app: App, lbs: Seq<LoopbackEntry>, from: int)
    requires
        0 <= from,
    ensures
        next_restorable(app.sources@, app.sinks@, lbs, from) matches Some(k) ==> from <= k < lbs.len()
            && restorable(app, lbs[k as int]) && forall|m: int|
            from <= m < k ==> !#[trigger] restorable(app, lbs[m]),
        next_restorable(app.sources@, app.sinks@, lbs, from) is None ==> forall|m: int|
            from <= m < lbs.len() ==> !#[trigger] restorable(app, lbs[m]),
    decreases lbs.len() - from,
{
    if from < lbs.len() {
        lemma_restorable(app, lbs[from]);
        lemma_next_restorable(app, lbs, from + 1);
        assert forall|m: int| from <= m < lbs.len() && m != from implies (#[trigger] restorable(
            app,
            lbs[m],
        )) == restorable(app, lbs[m]) by {}
    }
}

/// Each step of restoring the loopbacks, from `from` on, asks for the first entry
/// whose source and sink exist, or ends with the final refresh.
proof fn lemma_loopbacks_step(app: App, p: Preset, from: int, post: App, req: Option<Request>)
    requires
        0 <= from,
        App::loopbacks_step(app, p, from, post, req),
    ensures
        continues_with_first_restorable(app, p, from, post, req),
{
    let lbs = p.loopbacks@;
    lemma_next_restorable(app, lbs, from);
    match next_restorable(app.sources@, app.sinks@, lbs, from) {
        Some(k) => {
            let e = lbs[k as int];
            lemma_source_named_none(app.sources@, e.source@);
            lemma_sink_named_none(app.sinks@, e.sink@);
            lemma_restorable(app, e);
            let si = source_named(app.sources@, e.source@)->0;
            let ki = sink_named(app.sinks@, e.sink@)->0;
            assert(app.sources@.contains(app.sources@[si as int]));
            assert(app.sinks@.contains(app.sinks@[ki as int]));
            assert(restorable(app, lbs[k as int]));
        },
        None => {},
    }
}

/// After a loopback of a preset being restored is created, the next request is for the
/// first entry after it whose source and sink exist, made from a source and a sink of
/// those names; only when no such entry is left does it ask for the final refresh.
/// So every restorable entry is loaded, in order.
pub proof fn law_preset_restore_loads_each_loopback(
    pre: App,
    reply: Reply,
    post: App,
    req: Option<Request>,
)
    requires
        App::resumed(pre, reply, post, req),
        reply matches Reply::LoopbackCreated(Ok(_)),
        pre.pending is PresetLoopbacks,
    ensures
        pre.pending matches Flow::PresetLoopbacks { preset, next }
            && continues_with_first_restorable(pre, preset, next as int, post, req),
{
    if let Flow::PresetLoopbacks { preset, next } = pre.pending {
        lemma_loopbacks_step(pre, preset, next as int, post, req);
    }
}

/// After the refresh that follows the virtual sinks of a preset, the first request is
/// for the first entry whose source and sink exist in the lists just read, or, when
/// there is none, for the final refresh.
pub proof fn law_preset_restore_starts_with_first_loopback(
    pre: App,
    l: Listing,
    post: App,
    req: Option<Request>,
)
    requires
        App::resumed(pre, Reply::Listed(l), post, req),
        pre.pending is PresetListing,
    ensures
        pre.pending matches Flow::PresetListing { preset } && exists|mid: App|
            #[trigger] App::refreshed(pre, l, mid) && continues_with_first_restorable(
                mid,
                preset,
                0,
                post,
                req,
            ),
{
    if let Flow::PresetListing { preset } = pre.pending {
        let mid = choose|mid: App|
            #[trigger] App::refreshed(pre, l, mid) && App::loopbacks_step(mid, preset, 0, post, req);
        lemma_loopbacks_step(mid, preset, 0, post, req);
    }
}

/// Restoring a preset creates its virtual sinks one after the other: after one is
/// created, the next one is asked for by name, and after the last the lists are read.
pub proof fn law_preset_restore_creates_each_virtual_sink(
    pre: App,
    reply: Reply,
    post: App,
    req: Option<Request>,
)
    requires
        App::resumed(pre, reply, post, req),
        reply matches Reply::SinkCreated(Ok(_)),
        pre.pending is PresetSinks,
    ensures
        pre.pending matches Flow::PresetSinks { preset, next } && (if next + 1
            < preset.virtual_sinks@.len() {
            req matches Some(Request::CreateVirtualSink(n)) && n@ == preset.virtual_sinks@[next
                + 1]@ && post.pending == Flow::PresetSinks { preset, next: (next + 1) as usize }
        } else {
            req == Some(Request::List) && post.pending == Flow::PresetListing { preset }
        }),
{
}

/// Starting to restore a preset asks for its first virtual sink by name, or, when it
/// has none, for the refresh before its loopbacks.
pub proof fn law_preset_restore_begins_with_first_sink(
    pre: App,
    idx: usize,
    post: App,
    req: Option<Request>,
)
    requires
        App::preset_load_started(pre, idx, post, req),
        idx < pre.config.presets@.len(),
    ensures
        exists|p: Preset|
            #![trigger p.virtual_sinks]
            {
                &&& p.name == pre.config.presets@[idx as int].name
                &&& p.virtual_sinks@ == pre.config.presets@[idx as int].virtual_sinks@
                &&& p.loopbacks@ == pre.config.presets@[idx as int].loopbacks@
                &&& if p.virtual_sinks@.len() > 0 {
                    req matches Some(Request::CreateVirtualSink(n)) && n@ == p.virtual_sinks@[0]@
                        && post.pending == Flow::PresetSinks { preset: p, next: 0 }
                } else {
                    req == Some(Request::List) && post.pending == Flow::PresetListing { preset: p }
                }
            },
{
}

/// The selection of the focused panel and the length of its list.
pub open spec fn focus_sel(app: App) -> (usize, nat) {
    match app.focused {
        Panel::Sources => (app.source_sel, app.sources@.len()),
        Panel::Sinks => (app.sink_sel, app.sinks@.len()),
        Panel::Loopbacks => (app.loopback_sel, app.loopbacks@.len()),
        Panel::Applications => (app.sink_input_sel, app.sink_inputs@.len()),
    }
}

/// `post` differs from `pre` at most in the selections.
pub open spec fn only_selections_differ(pre: App, post: App) -> bool {
    post == App {
        source_sel: post.source_sel,
        sink_sel: post.sink_sel,
        loopback_sel: post.loopback_sel,
        sink_input_sel: post.sink_input_sel,
        ..pre
    }
}

/// Moving down advances the focused panel's selection by one item while there is an
/// item below, and stays on the last item otherwise; moving up goes back one item
/// while not at the top. No other selection and nothing else changes.
pub proof fn law_moves_step_by_one(pre: App, post: App)
    ensures
        App::moved_down(pre, post) ==> only_selections_differ(pre, post) && post.focused
            == pre.focused && focus_sel(post).1 == focus_sel(pre).1 && focus_sel(post).0 == (if focus_sel(
            pre,
        ).0 + 1 < focus_sel(pre).1 {
            focus_sel(pre).0 + 1
        } else {
            focus_sel(pre).0 as int
        }),
        App::moved_up(pre, post) ==> only_selections_differ(pre, post) && post.focused
            == pre.focused && focus_sel(post).0 == (if focus_sel(pre).0 > 0 {
            focus_sel(pre).0 - 1
        } else {
            focus_sel(pre).0 as int
        }),
        App::moved_down(pre, post) || App::moved_up(pre, post) ==> {
            &&& pre.focused != Panel::Sources ==> post.source_sel == pre.source_sel
            &&& pre.focused != Panel::Sinks ==> post.sink_sel == pre.sink_sel
            &&& pre.focused != Panel::Loopbacks ==> post.loopback_sel == pre.loopback_sel
            &&& pre.focused != Panel::Applications ==> post.sink_input_sel == pre.sink_input_sel
        },
{
    if App::moved_down(pre, post) || App::moved_up(pre, post) {
        match pre.focused {
            Panel::Sources => assert(pre.sources.len() == pre.sources@.len() && post.sources == pre.sources),
            Panel::Sinks => assert(pre.sinks.len() == pre.sinks@.len() && post.sinks == pre.sinks),
            Panel::Loopbacks => assert(pre.loopbacks.len() == pre.loopbacks@.len() && post.loopbacks == pre.loopbacks),
            Panel::Applications => assert(pre.sink_inputs.len() == pre.sink_inputs@.len() && post.sink_inputs == pre.sink_inputs),
        }
    }
}

/// Confirming a dialog acts on the selected items: the loopback wizard takes the
/// selected source, then creates a loopback from it into the selected sink; listening
/// to a sink routes its monitor into the selected sink; moving a stream moves it to the
/// selected sink.
pub proof fn law_confirmations_use_the_selection(pre: App, post: App, req: Option<Request>)
    ensures
        App::new_loopback_confirmed(pre, post, req) && pre.dialog is NewLoopbackPickSource
            && pre.source_sel < pre.sources@.len() ==> req is None && post.dialog == (
        Dialog::NewLoopbackPickSink { source: pre.sources@[pre.source_sel as int] }),
        App::new_loopback_confirmed(pre, post, req) && pre.sink_sel < pre.sinks@.len() ==> (
        pre.dialog matches Dialog::NewLoopbackPickSink { source } ==> req == Some(
            Request::CreateLoopback(source, pre.sinks@[pre.sink_sel as int]),
        ) && post.pending == Flow::CreatingLoopback),
        App::listen_confirmed(pre, post, req) && pre.sink_sel < pre.sinks@.len() ==> (
        pre.dialog matches Dialog::ListenToSink { sink } ==> (req matches Some(
            Request::CreateLoopback(src, out),
        ) && out == pre.sinks@[pre.sink_sel as int] && src.name@ == sink.name@ + ".monitor"@
            && src.is_monitor)),
        App::move_confirmed(pre, post, req) && pre.sink_sel < pre.sinks@.len() ==> (
        pre.dialog matches Dialog::MoveSinkInput { input } ==> req == Some(
            Request::MoveSinkInput(input, pre.sinks@[pre.sink_sel as int]),
        ) && post.pending == Flow::Moving(input, pre.sinks@[pre.sink_sel as int])),
        App::new_loopback_confirmed(pre, post, req) || App::listen_confirmed(pre, post, req)
            || App::move_confirmed(pre, post, req) ==> post.sources == pre.sources && post.sinks
            == pre.sinks && post.source_sel == pre.source_sel && post.sink_sel == pre.sink_sel,
{
}

/// With no dialog open, each command key starts its own operation: `n` the loopback
/// wizard on the Sources panel, `v` an empty virtual sink name, `l` listening to the
/// selected sink, `m` moving the selected stream, `p` the presets list, `r` a refresh
/// that notes "Refreshed", and `d` or Delete the removal of the selected item.
pub proof fn law_command_keys(pre: App, key: Key, ctrl: bool, post: App, quit: bool, req: Option<Request>)
    requires
        pre.dialog is Closed,
        App::key_handled(pre, key, ctrl, post, quit, req),
    ensures
        quit <==> (key == Key::Char('q') || key == Key::Char('Q') || (key == Key::Char('c') && ctrl)),
        key == Key::Char('n') ==> post.dialog is NewLoopbackPickSource && post.focused
            == Panel::Sources && req is None,
        key == Key::Char('v') ==> (post.dialog matches Dialog::NewVirtualSink { input }
            && input@.len() == 0) && req is None,
        key == Key::Char('l') && pre.sink_sel < pre.sinks@.len() ==> post.dialog == (
        Dialog::ListenToSink { sink: pre.sinks@[pre.sink_sel as int] }) && post.focused
            == Panel::Sinks && req is None,
        key == Key::Char('m') && pre.sink_input_sel < pre.sink_inputs@.len() ==> post.dialog == (
        Dialog::MoveSinkInput { input: pre.sink_inputs@[pre.sink_input_sel as int] })
            && post.focused == Panel::Sinks && req is None,
        key == Key::Char('p') ==> post.dialog == (Dialog::Presets { selected: 0 }) && req is None,
        key == Key::Char('r') ==> req == Some(Request::List) && (post.pending matches Flow::Refreshing {
            note: Some(n),
        } && n@ == "Refreshed"@),
        (key == Key::Char('d') || key == Key::Delete) && pre.focused == Panel::Loopbacks
            && pre.loopback_sel < pre.loopbacks@.len() ==> req == Some(
            Request::RemoveLoopback(pre.loopbacks@[pre.loopback_sel as int]),
        ),
        (key == Key::Char('d') || key == Key::Delete) && pre.focused == Panel::Sinks
            && pre.sink_sel < pre.sinks@.len() && pre.sinks@[pre.sink_sel as int].is_virtual
            ==> req == Some(Request::RemoveVirtualSink(pre.sinks@[pre.sink_sel as int])),
        post.sources == pre.sources && post.sinks == pre.sinks && post.loopbacks == pre.loopbacks,
{
}

/// Confirming a name creates the virtual sink or the virtual input under that name
/// without surrounding whitespace, the input over the monitor of the dialog's sink; a
/// name that is blank once trimmed does nothing.
pub proof fn law_names_are_trimmed(pre: App, post: App, req: Option<Request>)
    ensures
        App::new_virtual_sink_confirmed(pre, post, req) ==> (pre.dialog matches Dialog::NewVirtualSink {
            input,
        } ==> if trim(input@).len() == 0 {
            post == pre && req is None
        } else {
            req matches Some(Request::CreateVirtualSink(n)) && n@ == trim(input@)
        }),
        App::virtual_source_confirmed(pre, post, req) ==> (
        pre.dialog matches Dialog::CreateVirtualSource { sink, name } ==> if trim(name@).len() == 0 {
            post == pre && req is None
        } else {
            req matches Some(Request::CreateVirtualSource(n, m)) && n@ == trim(name@) && m@
                == sink.name@ + ".monitor"@
        }),
{
}

/// When the last refresh of a restore comes back, the dialog closes, the operation
/// ends, and the status says which preset was loaded.
pub proof fn law_preset_restore_reports_loaded(pre: App, l: Listing, post: App, req: Option<Request>)
    requires
        App::resumed(pre, Reply::Listed(l), post, req),
        pre.pending is PresetFinalListing,
    ensures
        req is None,
        post.dialog is Closed,
        post.pending is Idle,
        pre.pending matches Flow::PresetFinalListing { preset } && says(
            post.status_msg,
            "Loaded preset '"@ + preset.name@ + "'"@,
        ),
{
}

} // verus!
