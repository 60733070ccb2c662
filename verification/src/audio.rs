//! Audio devices as the routing view sees them, the audio server in use, and the
//! operations an audio backend offers.

use vstd::prelude::*;
use crate::text::{concat2, has_prefix, lines_of, split_whitespace, str_views, strip_prefix, text_lines, words};

verus! {

/// An audio input: a microphone or the monitor of a sink.
#[derive(Debug, Clone)]
pub struct Source {
    pub name: String,
    pub description: String,
    pub is_monitor: bool,
}

/// An audio output.
#[derive(Debug, Clone)]
pub struct Sink {
    pub name: String,
    pub description: String,
    pub is_virtual: bool,
}

/// A loaded loopback module, routing a source into a sink.
#[derive(Debug, Clone)]
pub struct Loopback {
    pub module_id: u32,
    pub source_name: String,
    pub sink_name: String,
}

/// An application's playback stream.
#[derive(Debug, Clone)]
pub struct SinkInput {
    pub id: u32,
    pub app_name: String,
    pub current_sink_name: String,
}

impl Source {
    /// A copy of this source.
    pub fn duplicate(&self) -> (r: Source)
        ensures
            r == *self,
    {
        Source {
            name: self.name.clone(),
            description: self.description.clone(),
            is_monitor: self.is_monitor,
        }
    }
}

impl Sink {
    /// A copy of this sink.
    pub fn duplicate(&self) -> (r: Sink)
        ensures
            r == *self,
    {
        Sink { name: self.name.clone(), description: self.description.clone(), is_virtual: self.is_virtual }
    }
}

impl Loopback {
    /// A copy of this loopback.
    pub fn duplicate(&self) -> (r: Loopback)
        ensures
            r == *self,
    {
        Loopback {
            module_id: self.module_id,
            source_name: self.source_name.clone(),
            sink_name: self.sink_name.clone(),
        }
    }
}

impl SinkInput {
    /// A copy of this stream.
    pub fn duplicate(&self) -> (r: SinkInput)
        ensures
            r == *self,
    {
        SinkInput {
            id: self.id,
            app_name: self.app_name.clone(),
            current_sink_name: self.current_sink_name.clone(),
        }
    }
}

/// The audio server found on this machine.
#[derive(Debug, Clone, Copy, PartialEq, Eq, Structural)]
pub enum AudioSystem {
    PipeWire,
    PulseAudio,
}

impl AudioSystem {
    /// The name shown in the title bar.
    pub fn label(&self) -> (r: &'static str)
        ensures
            *self == AudioSystem::PipeWire ==> r@ == "PipeWire"@,
            *self == AudioSystem::PulseAudio ==> r@ == "PulseAudio"@,
    {
        match self {
            AudioSystem::PipeWire => "PipeWire",
            AudioSystem::PulseAudio => "PulseAudio",
        }
    }
}

/// PipeWire when its socket exists in the runtime directory, PulseAudio otherwise.
pub fn detect(pipewire_socket_exists: bool) -> (r: AudioSystem)
    ensures
        r == (if pipewire_socket_exists {
            AudioSystem::PipeWire
        } else {
            AudioSystem::PulseAudio
        }),
{
    if pipewire_socket_exists {
        AudioSystem::PipeWire
    } else {
        AudioSystem::PulseAudio
    }
}

/// The first word after `Uid:\t` on the first line of a process status that has one.
pub open spec fn uid_in_status(lines: Seq<Seq<char>>) -> Option<Seq<char>>
    decreases lines.len(),
{
    if lines.len() == 0 {
        None
    } else if has_prefix(lines[0], "Uid:\t"@) && words(lines[0].skip("Uid:\t"@.len() as int)).len()
        > 0 {
        Some(words(lines[0].skip("Uid:\t"@.len() as int))[0])
    } else {
        uid_in_status(lines.drop_first())
    }
}

/// The user's runtime directory: `XDG_RUNTIME_DIR` when set, else `/run/user/<uid>`
/// with the uid read from the process status, else `/run/user/1000`.
pub open spec fn runtime_dir_spec(env_dir: Option<Seq<char>>, status: Option<Seq<char>>) -> Seq<
    char,
> {
    match env_dir {
        Some(d) => d,
        None => match status {
            Some(st) => match uid_in_status(text_lines(st)) {
                Some(uid) => "/run/user/"@ + uid,
                None => "/run/user/1000"@,
            },
            None => "/run/user/1000"@,
        },
    }
}

/// The view of an optional string.
pub open spec fn opt_view(o: Option<String>) -> Option<Seq<char>> {
    match o {
        Some(s) => Some(s@),
        None => None,
    }
}

/// The runtime directory, given the value of `XDG_RUNTIME_DIR` and the text of
/// `/proc/self/status`, each where it could be read.
pub fn runtime_dir_from(env_dir: Option<String>, status: Option<String>) -> (r: String)
    ensures
        r@ == runtime_dir_spec(opt_view(env_dir), opt_view(status)),
{
    let ghost env_v = opt_view(env_dir);
    let ghost status_v = opt_view(status);
    if let Some(dir) = env_dir {
        return dir;
    }
    if let Some(st) = status {
        let ls = lines_of(st.as_str());
        let ghost all = str_views(ls@);
        let mut i: usize = 0;
        assert(all.skip(0) =~= all);
        while i < ls.len()
            invariant
                all == str_views(ls@),
                all == text_lines(st@),
                env_v is None,
                status_v == Some(st@),
                env_v == opt_view(env_dir),
                status_v == opt_view(status),
                i <= ls@.len(),
                uid_in_status(all) == uid_in_status(all.skip(i as int)),
            decreases ls@.len() - i,
        {
            let ghost rest = all.skip(i as int);
            assert(rest[0] == ls@[i as int]@);
            assert(rest.drop_first() =~= all.skip(i + 1));
            let line = &ls[i];
            if let Some(after) = strip_prefix(line.as_str(), "Uid:\t") {
                let ws = split_whitespace(after.as_str());
                if ws.len() > 0 {
                    let uid = &ws[0];
                    assert(str_views(ws@)[0] == uid@);
                    assert(has_prefix(rest[0], "Uid:\t"@));
                    assert(words(rest[0].skip("Uid:\t"@.len() as int)) == str_views(ws@));
                    assert(uid_in_status(rest) == Some(uid@));
                    assert(uid_in_status(text_lines(st@)) == Some(uid@));
                    return concat2("/run/user/", uid.as_str());
                }
            }
            i = i + 1;
        }
        assert(all.skip(i as int).len() == 0);
    }
    String::from_str("/run/user/1000")
}

/// What an audio server offers the routing view. Each operation reports a failure
/// as the text of its error.
pub trait AudioBackend {
    fn sources(&self) -> Result<Vec<Source>, String>;

    fn sinks(&self) -> Result<Vec<Sink>, String>;

    fn loopbacks(&self) -> Result<Vec<Loopback>, String>;

    fn sink_inputs(&self) -> Result<Vec<SinkInput>, String>;

    fn create_loopback(&self, source: &Source, sink: &Sink) -> Result<Loopback, String>;

    fn create_virtual_sink(&self, name: &str) -> Result<Sink, String>;

    fn remove_loopback(&self, lb: &Loopback) -> Result<(), String>;

    fn remove_virtual_sink(&self, sink: &Sink) -> Result<(), String>;

    fn move_sink_input(&self, input: &SinkInput, sink: &Sink) -> Result<(), String>;

    /// Wraps a sink's monitor as a virtual microphone input.
    fn create_virtual_source(&self, name: &str, monitor_source: &str) -> Result<Source, String>;
}

} // verus!
