//! Saved routing presets: named sets of virtual sinks and loopbacks.

use vstd::prelude::*;

verus! {

/// A loopback as a preset records it: the names of its source and sink.
#[derive(Debug, Clone)]
pub struct LoopbackEntry {
    pub source: String,
    pub sink: String,
}

/// A named routing configuration: the virtual sinks to create and the loopbacks to load.
#[derive(Debug, Clone)]
pub struct Preset {
    pub name: String,
    pub virtual_sinks: Vec<String>,
    pub loopbacks: Vec<LoopbackEntry>,
}

/// The saved presets.
#[derive(Debug)]
pub struct Config {
    pub presets: Vec<Preset>,
}

impl Default for Config {
    fn default() -> (c: Config)
        ensures
            c.presets@.len() == 0,
    {
        Config { presets: Vec::new() }
    }
}

impl LoopbackEntry {
    /// A copy of this entry.
    pub fn duplicate(&self) -> (r: LoopbackEntry)
        ensures
            r == *self,
    {
        LoopbackEntry { source: self.source.clone(), sink: self.sink.clone() }
    }
}

impl Preset {
    /// A copy of this preset.
    pub fn duplicate(&self) -> (r: Preset)
        ensures
            r.name == self.name,
            r.virtual_sinks@ == self.virtual_sinks@,
            r.loopbacks@ == self.loopbacks@,
    {
        let mut virtual_sinks: Vec<String> = Vec::new();
        let mut i: usize = 0;
        while i < self.virtual_sinks.len()
            invariant
                i <= self.virtual_sinks@.len(),
                virtual_sinks@ == self.virtual_sinks@.take(i as int),
            decreases self.virtual_sinks@.len() - i,
        {
            virtual_sinks.push(self.virtual_sinks[i].clone());
            i = i + 1;
            assert(virtual_sinks@ =~= self.virtual_sinks@.take(i as int));
        }
        let mut loopbacks: Vec<LoopbackEntry> = Vec::new();
        let mut j: usize = 0;
        while j < self.loopbacks.len()
            invariant
                j <= self.loopbacks@.len(),
                loopbacks@ == self.loopbacks@.take(j as int),
            decreases self.loopbacks@.len() - j,
        {
            loopbacks.push(self.loopbacks[j].duplicate());
            j = j + 1;
            assert(loopbacks@ =~= self.loopbacks@.take(j as int));
        }
        assert(virtual_sinks@ =~= self.virtual_sinks@);
        assert(loopbacks@ =~= self.loopbacks@);
        Preset { name: self.name.clone(), virtual_sinks, loopbacks }
    }
}

/// The position of the first preset named `name`.
pub open spec fn position_named(ps: Seq<Preset>, name: Seq<char>) -> Option<nat>
    decreases ps.len(),
{
    if ps.len() == 0 {
        None
    } else if ps[0].name@ == name {
        Some(0)
    } else {
        match position_named(ps.drop_first(), name) {
            Some(k) => Some(k + 1),
            None => None,
        }
    }
}

/// `ps` with `p` in place of the first preset of the same name, or with `p`
/// appended when there is none.
pub open spec fn with_preset(ps: Seq<Preset>, p: Preset) -> Seq<Preset> {
    match position_named(ps, p.name@) {
        Some(i) => ps.update(i as int, p),
        None => ps.push(p),
    }
}

/// The first preset named `name` is at `i` when the ones before have other names.
pub proof fn lemma_position_named(ps: Seq<Preset>, name: Seq<char>, i: int)
    requires
        0 <= i <= ps.len(),
        forall|k: int| 0 <= k < i ==> (#[trigger] ps[k]).name@ != name,
    ensures
        i < ps.len() && ps[i].name@ == name ==> position_named(ps, name) == Some(i as nat),
        i == ps.len() ==> position_named(ps, name) is None,
    decreases i,
{
    if i > 0 {
        assert(ps[0].name@ != name);
        assert forall|k: int| 0 <= k < i - 1 implies (#[trigger] ps.drop_first()[k]).name@
            != name by {
            assert(ps.drop_first()[k] == ps[k + 1]);
        }
        lemma_position_named(ps.drop_first(), name, i - 1);
    }
}

/// A preset named `name` is at `i`.
pub proof fn lemma_position_named_found(ps: Seq<Preset>, name: Seq<char>)
    ensures
        position_named(ps, name) matches Some(i) ==> i < ps.len() && ps[i as int].name@ == name
            && forall|k: int| 0 <= k < i ==> (#[trigger] ps[k]).name@ != name,
        position_named(ps, name) is None ==> forall|k: int|
            0 <= k < ps.len() ==> (#[trigger] ps[k]).name@ != name,
    decreases ps.len(),
{
    if ps.len() > 0 {
        lemma_position_named_found(ps.drop_first(), name);
        if ps[0].name@ != name {
            assert forall|k: int| 1 <= k < ps.len() implies (#[trigger] ps[k]).name@
                == ps.drop_first()[k - 1].name@ by {}
        }
    }
}

/// No two presets in `ps` share a name.
pub open spec fn names_unique(ps: Seq<Preset>) -> bool {
    forall|i: int, j: int|
        0 <= i < ps.len() && 0 <= j < ps.len() && i != j ==> (#[trigger] ps[i]).name@ != (
        #[trigger] ps[j]).name@
}

/// After a preset is stored, looking up its name finds exactly that preset.
pub proof fn law_stored_preset_is_found(ps: Seq<Preset>, p: Preset)
    ensures
        position_named(with_preset(ps, p), p.name@) matches Some(i) && with_preset(ps, p)[i as int]
            == p,
{
    lemma_position_named_found(ps, p.name@);
    let r = with_preset(ps, p);
    match position_named(ps, p.name@) {
        Some(i) => {
            assert forall|k: int| 0 <= k < i implies (#[trigger] r[k]).name@ != p.name@ by {}
            lemma_position_named(r, p.name@, i as int);
        },
        None => {
            assert forall|k: int| 0 <= k < ps.len() implies (#[trigger] r[k]).name@ != p.name@ by {}
            lemma_position_named(r, p.name@, ps.len() as int);
        },
    }
}

/// Storing a preset leaves the lookup of every other name as it was.
pub proof fn law_store_keeps_other_names(ps: Seq<Preset>, p: Preset, name: Seq<char>)
    requires
        name != p.name@,
    ensures
        position_named(with_preset(ps, p), name) == position_named(ps, name),
        position_named(ps, name) matches Some(i) ==> with_preset(ps, p)[i as int] == ps[i as int],
{
    lemma_position_named_found(ps, name);
    lemma_position_named_found(ps, p.name@);
    let r = with_preset(ps, p);
    assert forall|k: int| 0 <= k < ps.len() implies (#[trigger] r[k]).name@ == name <==> ps[k].name@
        == name by {}
    match position_named(ps, name) {
        Some(i) => {
            assert forall|k: int| 0 <= k < i implies (#[trigger] r[k]).name@ != name by {}
            lemma_position_named(r, name, i as int);
        },
        None => {
            assert forall|k: int| 0 <= k < r.len() implies (#[trigger] r[k]).name@ != name by {
                if k < ps.len() {
                } else {
                    assert(r[k] == p);
                }
            }
            lemma_position_named(r, name, r.len() as int);
        },
    }
}

/// Storing the same preset twice is storing it once.
pub proof fn law_store_is_idempotent(ps: Seq<Preset>, p: Preset)
    ensures
        with_preset(with_preset(ps, p), p) == with_preset(ps, p),
{
    law_stored_preset_is_found(ps, p);
    let r = with_preset(ps, p);
    lemma_position_named_found(r, p.name@);
    let i = position_named(r, p.name@)->0;
    assert(r.update(i as int, p) =~= r);
}

/// Storing a preset keeps preset names unique, and adds one preset exactly when none
/// had its name.
pub proof fn law_store_keeps_names_unique(ps: Seq<Preset>, p: Preset)
    requires
        names_unique(ps),
    ensures
        names_unique(with_preset(ps, p)),
        with_preset(ps, p).len() == ps.len() + (if position_named(ps, p.name@) is Some {
            0int
        } else {
            1int
        }),
{
    lemma_position_named_found(ps, p.name@);
    let r = with_preset(ps, p);
    match position_named(ps, p.name@) {
        Some(i) => {
            assert forall|a: int, b: int|
                0 <= a < r.len() && 0 <= b < r.len() && a != b implies (#[trigger] r[a]).name@ != (
                #[trigger] r[b]).name@ by {
                if a == i as int {
                    assert(ps[b].name@ != ps[i as int].name@);
                } else if b == i as int {
                    assert(ps[a].name@ != ps[i as int].name@);
                }
            }
        },
        None => {
            assert forall|a: int, b: int|
                0 <= a < r.len() && 0 <= b < r.len() && a != b implies (#[trigger] r[a]).name@ != (
                #[trigger] r[b]).name@ by {
                if a == ps.len() {
                    assert(ps[b].name@ != p.name@);
                } else if b == ps.len() {
                    assert(ps[a].name@ != p.name@);
                } else {
                    assert(ps[a].name@ != ps[b].name@);
                }
            }
        },
    }
}

impl Config {
    /// Stores `preset` in place of the first preset with its name, or appends it.
    pub fn add_or_replace_preset(&mut self, preset: Preset)
        ensures
            final(self).presets@ == with_preset(old(self).presets@, preset),
    {
        let mut i: usize = 0;
        while i < self.presets.len()
            invariant
                i <= self.presets@.len(),
                self.presets@ == old(self).presets@,
                forall|k: int| 0 <= k < i ==> (#[trigger] self.presets@[k]).name@ != preset.name@,
            decreases self.presets@.len() - i,
        {
            if self.presets[i].name == preset.name {
                proof {
                    lemma_position_named(self.presets@, preset.name@, i as int);
                }
                self.presets.set(i, preset);
                return;
            }
            i = i + 1;
        }
        proof {
            lemma_position_named(self.presets@, preset.name@, i as int);
        }
        self.presets.push(preset);
    }
}

} // verus!
