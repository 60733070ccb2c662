//! What each key press does, in each dialog.

use vstd::prelude::*;
use crate::app::{App, Dialog, Flow, Panel, Request};
use crate::audio::Sink;
use crate::text::{pop_char, push_char};

verus! {

/// A key as the routing view tells keys apart.
#[derive(Debug, Clone, Copy, PartialEq, Eq, Structural)]
pub enum Key {
    Char(char),
    Up,
    Down,
    Tab,
    BackTab,
    Enter,
    Esc,
    Backspace,
    Delete,
    Other,
}

/// The key moves the selection up.
pub open spec fn is_up(key: Key) -> bool {
    key == Key::Up || key == Key::Char('k')
}

/// The key moves the selection down.
pub open spec fn is_down(key: Key) -> bool {
    key == Key::Down || key == Key::Char('j')
}

/// `post` is `pre` after `op` took effect, and nothing was asked.
pub open spec fn unchanged(pre: App, post: App, req: Option<Request>) -> bool {
    post == pre && req is None
}

/// `post` is `pre` with the dialog `d`, and nothing was asked.
pub open spec fn shows(pre: App, d: Dialog, post: App, req: Option<Request>) -> bool {
    post == App { dialog: d, ..pre } && req is None
}

/// `s` is `t` edited by `key`: a character appended, or the last one removed.
pub open spec fn edited(t: Seq<char>, key: Key, s: Seq<char>) -> bool {
    match key {
        Key::Char(c) => s == t.push(c),
        Key::Backspace => s == (if t.len() > 0 {
            t.drop_last()
        } else {
            t
        }),
        _ => s == t,
    }
}

impl App {
    /// `post` is `pre` after `key` with no dialog open; `quit` says whether to leave.
    pub open spec fn normal_key(
        pre: App,
        key: Key,
        ctrl: bool,
        post: App,
        quit: bool,
        req: Option<Request>,
    ) -> bool {
        if key == Key::Char('q') || key == Key::Char('Q') || (key == Key::Char('c') && ctrl) {
            quit && unchanged(pre, post, req)
        } else {
            &&& !quit
            &&& if key == Key::Tab {
                unchanged(App { focused: pre.focused.following(), ..pre }, post, req)
            } else if key == Key::BackTab {
                unchanged(App { focused: pre.focused.preceding(), ..pre }, post, req)
            } else if is_up(key) {
                App::moved_up(pre, post) && req is None
            } else if is_down(key) {
                App::moved_down(pre, post) && req is None
            } else if key == Key::Char('n') {
                unchanged(
                    App { dialog: Dialog::NewLoopbackPickSource, focused: Panel::Sources, ..pre },
                    post,
                    req,
                )
            } else if key == Key::Char('v') {
                &&& post == App { dialog: post.dialog, ..pre }
                &&& post.dialog matches Dialog::NewVirtualSink { input }
                &&& input@.len() == 0
                &&& req is None
            } else if key == Key::Char('u') {
                App::virtual_source_begun(pre, post) && req is None
            } else if key == Key::Char('l') {
                App::listen_begun(pre, post) && req is None
            } else if key == Key::Char('m') {
                App::move_begun(pre, post) && req is None
            } else if key == Key::Char('d') || key == Key::Delete {
                App::delete_started(pre, post, req)
            } else if key == Key::Char('p') {
                shows(pre, Dialog::Presets { selected: 0 }, post, req)
            } else if key == Key::Char('r') {
                &&& post == App { pending: post.pending, ..pre }
                &&& post.pending matches Flow::Refreshing { note: Some(n) }
                &&& n@ == "Refreshed"@
                &&& req == Some(Request::List)
            } else {
                unchanged(pre, post, req)
            }
        }
    }

    /// `post` is `pre` after `key` in the loopback wizard.
    pub open spec fn wizard_key(pre: App, key: Key, post: App, req: Option<Request>) -> bool {
        if key == Key::Esc {
            shows(pre, Dialog::Closed, post, req)
        } else if is_up(key) {
            App::moved_up(pre, post) && req is None
        } else if is_down(key) {
            App::moved_down(pre, post) && req is None
        } else if key == Key::Enter {
            exists|mid: App|
                #[trigger] App::new_loopback_confirmed(pre, mid, req) && post == (if pre.dialog
                    is NewLoopbackPickSource {
                    if mid.dialog is NewLoopbackPickSink {
                        App { focused: Panel::Sinks, ..mid }
                    } else {
                        mid
                    }
                } else {
                    App { focused: Panel::Loopbacks, ..mid }
                })
        } else {
            unchanged(pre, post, req)
        }
    }

    /// `post` is `pre` after `key` while an application stream is being moved.
    pub open spec fn move_key(pre: App, key: Key, post: App, req: Option<Request>) -> bool {
        if key == Key::Esc {
            unchanged(App { dialog: Dialog::Closed, focused: Panel::Applications, ..pre }, post, req)
        } else if is_up(key) {
            App::moved_up(pre, post) && req is None
        } else if is_down(key) {
            App::moved_down(pre, post) && req is None
        } else if key == Key::Enter {
            App::move_confirmed(pre, post, req)
        } else {
            unchanged(pre, post, req)
        }
    }

    /// `post` is `pre` after `key` while the output for listening is being picked.
    pub open spec fn listen_key(pre: App, key: Key, post: App, req: Option<Request>) -> bool {
        if key == Key::Esc {
            unchanged(App { dialog: Dialog::Closed, focused: Panel::Sinks, ..pre }, post, req)
        } else if is_up(key) {
            App::moved_up(pre, post) && req is None
        } else if is_down(key) {
            App::moved_down(pre, post) && req is None
        } else if key == Key::Enter {
            App::listen_confirmed(pre, post, req)
        } else {
            unchanged(pre, post, req)
        }
    }

    /// `post` is `pre` after `key` in a dialog that reads a name.
    pub open spec fn input_key(pre: App, key: Key, post: App, req: Option<Request>) -> bool {
        if key == Key::Esc {
            shows(pre, Dialog::Closed, post, req)
        } else if key == Key::Enter {
            match pre.dialog {
                Dialog::NewVirtualSink { .. } => App::new_virtual_sink_confirmed(pre, post, req),
                Dialog::CreateVirtualSource { .. } => App::virtual_source_confirmed(pre, post, req),
                Dialog::SavePreset { input } => exists|mid: App|
                    #[trigger] App::preset_save_started(pre, input@, mid, req) && post == App {
                        dialog: Dialog::Closed,
                        ..mid
                    },
                _ => unchanged(pre, post, req),
            }
        } else if key is Char || key == Key::Backspace {
            &&& post == App { dialog: post.dialog, ..pre }
            &&& req is None
            &&& match (pre.dialog, post.dialog) {
                (Dialog::NewVirtualSink { input: a }, Dialog::NewVirtualSink { input: b }) => edited(
                    a@,
                    key,
                    b@,
                ),
                (Dialog::SavePreset { input: a }, Dialog::SavePreset { input: b }) => edited(
                    a@,
                    key,
                    b@,
                ),
                (
                    Dialog::CreateVirtualSource { sink: s, name: a },
                    Dialog::CreateVirtualSource { sink: t, name: b },
                ) => s == t && edited(a@, key, b@),
                _ => false,
            }
        } else {
            unchanged(pre, post, req)
        }
    }

    /// `post` is `pre` after `key` in the presets dialog with `selected` highlighted.
    pub open spec fn presets_key(pre: App, selected: usize, key: Key, post: App, req: Option<
        Request,
    >) -> bool {
        if key == Key::Esc {
            shows(pre, Dialog::Closed, post, req)
        } else if is_up(key) {
            if selected > 0 {
                shows(pre, Dialog::Presets { selected: (selected - 1) as usize }, post, req)
            } else {
                unchanged(pre, post, req)
            }
        } else if is_down(key) {
            if selected + 1 < pre.config.presets@.len() {
                shows(pre, Dialog::Presets { selected: (selected + 1) as usize }, post, req)
            } else {
                unchanged(pre, post, req)
            }
        } else if key == Key::Enter {
            if selected < pre.config.presets@.len() {
                App::preset_load_started(pre, selected, post, req)
            } else if pre.config.presets@.len() > 0 {
                shows(pre, Dialog::Closed, post, req)
            } else {
                unchanged(pre, post, req)
            }
        } else if key == Key::Char('s') {
            &&& post == App { dialog: post.dialog, ..pre }
            &&& post.dialog matches Dialog::SavePreset { input }
            &&& input@.len() == 0
            &&& req is None
        } else {
            unchanged(pre, post, req)
        }
    }

    /// `post` is `pre` after the key press `key` (with Ctrl held when `ctrl`): the key
    /// acts as the open dialog decides.
    pub open spec fn key_handled(
        pre: App,
        key: Key,
        ctrl: bool,
        post: App,
        quit: bool,
        req: Option<Request>,
    ) -> bool {
        match pre.dialog {
            Dialog::Closed => App::normal_key(pre, key, ctrl, post, quit, req),
            Dialog::NewLoopbackPickSource => !quit && App::wizard_key(pre, key, post, req),
            Dialog::NewLoopbackPickSink { .. } => !quit && App::wizard_key(pre, key, post, req),
            Dialog::MoveSinkInput { .. } => !quit && App::move_key(pre, key, post, req),
            Dialog::ListenToSink { .. } => !quit && App::listen_key(pre, key, post, req),
            Dialog::CreateVirtualSource { .. } => !quit && App::input_key(pre, key, post, req),
            Dialog::NewVirtualSink { .. } => !quit && App::input_key(pre, key, post, req),
            Dialog::SavePreset { .. } => !quit && App::input_key(pre, key, post, req),
            Dialog::Presets { selected } => !quit && App::presets_key(
                pre,
                selected,
                key,
                post,
                req,
            ),
            Dialog::Error(_) => !quit && shows(pre, Dialog::Closed, post, req),
        }
    }
}

fn is_up_key(key: Key) -> (b: bool)
    ensures
        b == is_up(key),
{
    key == Key::Up || key == Key::Char('k')
}

fn is_down_key(key: Key) -> (b: bool)
    ensures
        b == is_down(key),
{
    key == Key::Down || key == Key::Char('j')
}

/// `text` edited by `key`.
fn edit(text: String, key: Key) -> (r: String)
    ensures
        edited(text@, key, r@),
{
    let mut t = text;
    match key {
        Key::Char(c) => push_char(&mut t, c),
        Key::Backspace => {
            let _ = pop_char(&mut t);
        },
        _ => {},
    }
    t
}

impl App {
    fn handle_key_normal(&mut self, key: Key, ctrl: bool) -> (r: (bool, Option<Request>))
        ensures
            App::normal_key(*old(self), key, ctrl, *final(self), r.0, r.1),
    {
        if key == Key::Char('q') || key == Key::Char('Q') || (key == Key::Char('c') && ctrl) {
            return (true, None);
        }
        if key == Key::Tab {
            self.focused = self.focused.next();
            (false, None)
        } else if key == Key::BackTab {
            self.focused = self.focused.prev();
            (false, None)
        } else if is_up_key(key) {
            self.move_up();
            (false, None)
        } else if is_down_key(key) {
            self.move_down();
            (false, None)
        } else if key == Key::Char('n') {
            self.dialog = Dialog::NewLoopbackPickSource;
            self.focused = Panel::Sources;
            (false, None)
        } else if key == Key::Char('v') {
            self.dialog = Dialog::NewVirtualSink { input: String::new() };
            (false, None)
        } else if key == Key::Char('u') {
            self.begin_create_virtual_source();
            (false, None)
        } else if key == Key::Char('l') {
            self.begin_listen_to_sink();
            (false, None)
        } else if key == Key::Char('m') {
            self.begin_move_sink_input();
            (false, None)
        } else if key == Key::Char('d') || key == Key::Delete {
            (false, self.delete_selected())
        } else if key == Key::Char('p') {
            self.dialog = Dialog::Presets { selected: 0 };
            (false, None)
        } else if key == Key::Char('r') {
            self.pending = Flow::Refreshing { note: Some(String::from_str("Refreshed")) };
            (false, Some(Request::List))
        } else {
            (false, None)
        }
    }

    fn handle_key_loopback_wizard(&mut self, key: Key) -> (req: Option<Request>)
        ensures
            App::wizard_key(*old(self), key, *final(self), req),
    {
        if key == Key::Esc {
            self.dialog = Dialog::Closed;
            None
        } else if is_up_key(key) {
            self.move_up();
            None
        } else if is_down_key(key) {
            self.move_down();
            None
        } else if key == Key::Enter {
            let picking_source = matches!(self.dialog, Dialog::NewLoopbackPickSource);
            let r = self.confirm_new_loopback();
            let ghost mid = *self;
            if picking_source {
                if matches!(self.dialog, Dialog::NewLoopbackPickSink { .. }) {
                    self.focused = Panel::Sinks;
                }
            } else {
                self.focused = Panel::Loopbacks;
            }
            assert(App::new_loopback_confirmed(*old(self), mid, r));
            r
        } else {
            None
        }
    }

    fn handle_key_move_sink_input(&mut self, key: Key) -> (req: Option<Request>)
        ensures
            App::move_key(*old(self), key, *final(self), req),
    {
        if key == Key::Esc {
            self.dialog = Dialog::Closed;
            self.focused = Panel::Applications;
            None
        } else if is_up_key(key) {
            self.move_up();
            None
        } else if is_down_key(key) {
            self.move_down();
            None
        } else if key == Key::Enter {
            self.confirm_move_sink_input()
        } else {
            None
        }
    }

    fn handle_key_listen_to_sink(&mut self, key: Key) -> (req: Option<Request>)
        ensures
            App::listen_key(*old(self), key, *final(self), req),
    {
        if key == Key::Esc {
            self.dialog = Dialog::Closed;
            self.focused = Panel::Sinks;
            None
        } else if is_up_key(key) {
            self.move_up();
            None
        } else if is_down_key(key) {
            self.move_down();
            None
        } else if key == Key::Enter {
            self.confirm_listen_to_sink()
        } else {
            None
        }
    }

    fn handle_key_input(&mut self, key: Key) -> (req: Option<Request>)
        requires
            old(self).dialog is NewVirtualSink || old(self).dialog is SavePreset || old(
                self,
            ).dialog is CreateVirtualSource,
        ensures
            App::input_key(*old(self), key, *final(self), req),
    {
        if key == Key::Esc {
            self.dialog = Dialog::Closed;
            None
        } else if key == Key::Enter {
            match &self.dialog {
                Dialog::NewVirtualSink { .. } => self.confirm_new_virtual_sink(),
                Dialog::CreateVirtualSource { .. } => self.confirm_create_virtual_source(),
                Dialog::SavePreset { input } => {
                    let name = input.clone();
                    let r = self.save_current_as_preset(name.as_str());
                    let ghost mid = *self;
                    self.dialog = Dialog::Closed;
                    assert(App::preset_save_started(*old(self), name@, mid, r));
                    r
                },
                _ => None,
            }
        } else if matches!(key, Key::Char(_)) || key == Key::Backspace {
            let mut d = Dialog::Closed;
            std::mem::swap(&mut d, &mut self.dialog);
            self.dialog = match d {
                Dialog::NewVirtualSink { input } => Dialog::NewVirtualSink { input: edit(input, key) },
                Dialog::SavePreset { input } => Dialog::SavePreset { input: edit(input, key) },
                Dialog::CreateVirtualSource { sink, name } => Dialog::CreateVirtualSource {
                    sink,
                    name: edit(name, key),
                },
                other => other,
            };
            None
        } else {
            None
        }
    }

    fn handle_key_presets(&mut self, key: Key, selected: usize) -> (req: Option<Request>)
        ensures
            App::presets_key(*old(self), selected, key, *final(self), req),
    {
        if key == Key::Esc {
            self.dialog = Dialog::Closed;
            None
        } else if is_up_key(key) {
            if selected > 0 {
                self.dialog = Dialog::Presets { selected: selected - 1 };
            }
            None
        } else if is_down_key(key) {
            let n = self.config.presets.len();
            if n > 0 && selected < n - 1 {
                self.dialog = Dialog::Presets { selected: selected + 1 };
            }
            None
        } else if key == Key::Enter {
            if selected < self.config.presets.len() {
                self.load_preset(selected)
            } else if self.config.presets.len() > 0 {
                self.dialog = Dialog::Closed;
                None
            } else {
                None
            }
        } else if key == Key::Char('s') {
            self.dialog = Dialog::SavePreset { input: String::new() };
            None
        } else {
            None
        }
    }

    /// Handles a key press (with Ctrl held when `ctrl`). Returns whether to quit, and
    /// the work that the key asks for.
    pub fn handle_key(&mut self, key: Key, ctrl: bool) -> (r: (bool, Option<Request>))
        ensures
            App::key_handled(*old(self), key, ctrl, *final(self), r.0, r.1),
            old(self).selection_ok() ==> final(self).selection_ok(),
    {
        match &self.dialog {
            Dialog::Closed => self.handle_key_normal(key, ctrl),
            Dialog::NewLoopbackPickSource | Dialog::NewLoopbackPickSink { .. } => (
                false,
                self.handle_key_loopback_wizard(key),
            ),
            Dialog::MoveSinkInput { .. } => (false, self.handle_key_move_sink_input(key)),
            Dialog::ListenToSink { .. } => (false, self.handle_key_listen_to_sink(key)),
            Dialog::CreateVirtualSource { .. } | Dialog::NewVirtualSink { .. }
            | Dialog::SavePreset { .. } => (false, self.handle_key_input(key)),
            Dialog::Presets { selected } => {
                let sel = *selected;
                (false, self.handle_key_presets(key, sel))
            },
            Dialog::Error(_) => {
                self.dialog = Dialog::Closed;
                (false, None)
            },
        }
    }
}

/// Escape closes whatever dialog is open, and any key dismisses an error.
pub proof fn law_escape_closes_dialogs(pre: App, ctrl: bool, post: App, quit: bool, req: Option<Request>)
    requires
        App::key_handled(pre, Key::Esc, ctrl, post, quit, req),
        !(pre.dialog is Closed),
    ensures
        post.dialog is Closed,
        !quit,
        req is None,
{
}

/// Only a key pressed with no dialog open can quit, and it then changes nothing.
pub proof fn law_quit_only_without_dialog(pre: App, key: Key, ctrl: bool, post: App, quit: bool, req: Option<Request>)
    requires
        App::key_handled(pre, key, ctrl, post, quit, req),
        quit,
    ensures
        pre.dialog is Closed,
        post == pre,
        req is None,
{
}

/// A key press never changes the lists of devices, streams and loopbacks: only a
/// refresh does.
pub proof fn law_keys_keep_lists(pre: App, key: Key, ctrl: bool, post: App, quit: bool, req: Option<Request>)
    requires
        App::key_handled(pre, key, ctrl, post, quit, req),
    ensures
        post.sources == pre.sources,
        post.sinks == pre.sinks,
        post.loopbacks == pre.loopbacks,
        post.sink_inputs == pre.sink_inputs,
{
}

/// The text that a dialog reading a name holds, with the sink that a virtual input
/// wraps.
pub open spec fn input_state(d: Dialog) -> Option<(Seq<char>, Option<Sink>)> {
    match d {
        Dialog::NewVirtualSink { input } => Some((input@, None)),
        Dialog::SavePreset { input } => Some((input@, None)),
        Dialog::CreateVirtualSource { sink, name } => Some((name@, Some(sink))),
        _ => None,
    }
}

/// Typing a character and then erasing it in a dialog that reads a name leaves that
/// dialog with the text it had, and changes nothing else.
pub proof fn law_type_then_erase(
    pre: App,
    c: char,
    ctrl1: bool,
    mid: App,
    quit1: bool,
    req1: Option<Request>,
    ctrl2: bool,
    post: App,
    quit2: bool,
    req2: Option<Request>,
)
    requires
        pre.dialog is NewVirtualSink || pre.dialog is SavePreset || pre.dialog is CreateVirtualSource,
        App::key_handled(pre, Key::Char(c), ctrl1, mid, quit1, req1),
        App::key_handled(mid, Key::Backspace, ctrl2, post, quit2, req2),
    ensures
        !quit1 && !quit2,
        req1 is None && req2 is None,
        post == (App { dialog: post.dialog, ..pre }),
        input_state(post.dialog) == input_state(pre.dialog),
        post.dialog is NewVirtualSink <==> pre.dialog is NewVirtualSink,
        post.dialog is SavePreset <==> pre.dialog is SavePreset,
        post.dialog is CreateVirtualSource <==> pre.dialog is CreateVirtualSource,
{
    match (pre.dialog, mid.dialog) {
        (Dialog::NewVirtualSink { input: a }, Dialog::NewVirtualSink { input: b }) => {
            assert(b@.drop_last() =~= a@);
        },
        (Dialog::SavePreset { input: a }, Dialog::SavePreset { input: b }) => {
            assert(b@.drop_last() =~= a@);
        },
        (Dialog::CreateVirtualSource { name: a, .. }, Dialog::CreateVirtualSource { name: b, .. }) => {
            assert(b@.drop_last() =~= a@);
        },
        _ => {},
    }
}

/// With no dialog open, `u` opens the dialog that names a virtual input over the
/// selected sink, proposing the sink's name with every `.` made `-` and `-input`
/// appended; with no sink selected it says so. It never starts listening to a sink,
/// quits or asks for anything.
pub proof fn law_u_opens_virtual_input(pre: App, ctrl: bool, post: App, quit: bool, req: Option<Request>)
    requires
        pre.dialog is Closed,
        App::key_handled(pre, Key::Char('u'), ctrl, post, quit, req),
    ensures
        !quit,
        req is None,
        !(post.dialog is ListenToSink),
        post.focused == pre.focused,
        post.sinks == pre.sinks && post.sink_sel == pre.sink_sel,
        pre.sink_sel < pre.sinks@.len() ==> (post.dialog matches Dialog::CreateVirtualSource {
            sink,
            name,
        } && sink == pre.sinks@[pre.sink_sel as int] && name@.len() == sink.name@.len() + 6
            && (forall|i: int|
            0 <= i < sink.name@.len() ==> #[trigger] name@[i] == (if sink.name@[i] == '.' {
                '-'
            } else {
                sink.name@[i]
            })) && name@.skip(sink.name@.len() as int) == "-input"@),
        pre.sink_sel >= pre.sinks@.len() ==> (post.dialog is Closed && crate::app::says(post.status_msg, "No sink selected"@)),
{
    reveal_strlit("-input");
    if pre.sink_sel < pre.sinks@.len() {
        let sink = pre.sinks@[pre.sink_sel as int];
        let d = crate::text::replace_char(sink.name@, '.', '-');
        if let Dialog::CreateVirtualSource { name, .. } = post.dialog {
            assert(name@ == d + "-input"@);
            assert(name@.skip(sink.name@.len() as int) =~= "-input"@);
            assert forall|i: int| 0 <= i < sink.name@.len() implies #[trigger] name@[i] == (if sink.name@[i]
                == '.' {
                '-'
            } else {
                sink.name@[i]
            }) by {
                assert(name@[i] == d[i]);
            }
        }
    }
}

} // verus!
