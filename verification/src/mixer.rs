//! The mixer's routing tables: which sounds are playing, the groups they
//! belong to, each group's volume and balance, and the master volume; and
//! the commands that the control thread sends to change them.
use vstd::prelude::*;

use crate::assoc::{has_key, keys_distinct, lemma_push, lemma_to_map, lemma_update, to_map};
use std::collections::HashMap;
use crate::sound::{
    is_finished_spec, pause_spec, resume_spec, set_pan_spec, set_volume_spec, silence_reached_spec,
    stop_spec, Playback,
};

verus! {

broadcast use vstd::std_specs::hash::group_hash_axioms;

/// Identifies a sound submitted to the engine.
pub type SoundId = u64;

/// Volume and stereo balance of a named group. `None` means "never set":
/// unity gain and a centered balance.
#[derive(Clone, Copy, Debug)]
pub struct GroupState<G> {
    pub volume: Option<G>,
    pub pan: Option<G>,
}

/// The state of a group that nobody has configured yet.
pub open spec fn default_group<G>() -> GroupState<G> {
    GroupState { volume: None, pan: None }
}

/// A message from the control thread to the audio thread.
///
/// Volumes are linear gains and pans are already limited to `0.0..=1.0`
/// when they are put into a command.
pub enum Command<V, G> {
    /// Starts mixing a sound with the given playback control and renderer.
    AddSound(SoundId, Playback<G>, V),
    Pause(SoundId),
    Resume(SoundId),
    Stop(SoundId),
    SetVolume(SoundId, G),
    SetPan(SoundId, G),
    SetMasterVolume(G),
    SetGroupVolume(String, G),
    SetGroupPan(String, G),
    AddToGroup(SoundId, String),
}

/// The abstract state of a mixer.
pub struct MixerView<V, G> {
    /// The sounds being mixed, in the order they were added.
    pub sources: Seq<(SoundId, Playback<G>, V)>,
    /// For each sound that belongs to groups, the names of its groups, in
    /// the order it was added to them (each name once).
    pub memberships: Map<SoundId, Seq<Seq<char>>>,
    /// Every group that has been named so far.
    pub groups: Map<Seq<char>, GroupState<G>>,
    pub master_volume: G,
}

/// The mixer that runs on the audio thread. `V` renders a sound's samples;
/// `G` is the type of gain and pan values.
pub struct Mixer<V, G> {
    sources: Vec<(SoundId, Playback<G>, V)>,
    sound_groups: HashMap<SoundId, Vec<String>>,
    groups: Vec<(String, GroupState<G>)>,
    master_volume: G,
}

/// The names of a membership list, as character sequences.
pub open spec fn names_view(names: Vec<String>) -> Seq<Seq<char>> {
    names@.map_values(|s: String| s@)
}

/// `i` is the position of the first sound with id `id`.
pub open spec fn is_first<V, G>(s: Seq<(SoundId, Playback<G>, V)>, id: SoundId, i: int) -> bool {
    &&& 0 <= i < s.len()
    &&& s[i].0 == id
    &&& forall|j: int| 0 <= j < i ==> s[j].0 != id
}

/// Some sound being mixed has id `id`.
pub open spec fn has_sound<V, G>(s: Seq<(SoundId, Playback<G>, V)>, id: SoundId) -> bool {
    exists|i: int| 0 <= i < s.len() && s[i].0 == id
}

/// Applies `f` to the playback control of the first sound with id `id`, if
/// there is one.
pub open spec fn update_sound<V, G>(
    s: Seq<(SoundId, Playback<G>, V)>,
    id: SoundId,
    f: spec_fn(Playback<G>) -> Playback<G>,
) -> Seq<(SoundId, Playback<G>, V)> {
    if exists|i: int| is_first(s, id, i) {
        let i = choose|i: int| is_first(s, id, i);
        s.update(i, (s[i].0, f(s[i].1), s[i].2))
    } else {
        s
    }
}

/// The state of a group, or the default state if it was never named.
pub open spec fn group_or_default<G>(groups: Map<Seq<char>, GroupState<G>>, name: Seq<char>) -> GroupState<G> {
    if groups.dom().contains(name) {
        groups[name]
    } else {
        default_group()
    }
}

/// The groups of a sound, or none.
pub open spec fn memberships_or_empty(memberships: Map<SoundId, Seq<Seq<char>>>, id: SoundId) -> Seq<Seq<char>> {
    if memberships.dom().contains(id) {
        memberships[id]
    } else {
        Seq::empty()
    }
}

/// What applying a command does to a mixer.
pub open spec fn apply_spec<V, G>(m: MixerView<V, G>, cmd: Command<V, G>) -> MixerView<V, G> {
    match cmd {
        Command::AddSound(id, p, v) => MixerView { sources: m.sources.push((id, p, v)), ..m },
        Command::Pause(id) => MixerView {
            sources: update_sound(m.sources, id, |p: Playback<G>| pause_spec(p)),
            ..m
        },
        Command::Resume(id) => MixerView {
            sources: update_sound(m.sources, id, |p: Playback<G>| resume_spec(p)),
            ..m
        },
        Command::Stop(id) => MixerView {
            sources: update_sound(m.sources, id, |p: Playback<G>| stop_spec(p)),
            ..m
        },
        Command::SetVolume(id, g) => MixerView {
            sources: update_sound(m.sources, id, |p: Playback<G>| set_volume_spec(p, g)),
            ..m
        },
        Command::SetPan(id, g) => MixerView {
            sources: update_sound(m.sources, id, |p: Playback<G>| set_pan_spec(p, g)),
            ..m
        },
        Command::SetMasterVolume(g) => MixerView { master_volume: g, ..m },
        Command::SetGroupVolume(name, g) => MixerView {
            groups: m.groups.insert(
                name@,
                GroupState { volume: Some(g), pan: group_or_default(m.groups, name@).pan },
            ),
            ..m
        },
        Command::SetGroupPan(name, g) => MixerView {
            groups: m.groups.insert(
                name@,
                GroupState { volume: group_or_default(m.groups, name@).volume, pan: Some(g) },
            ),
            ..m
        },
        Command::AddToGroup(id, name) => MixerView {
            groups: m.groups.insert(name@, group_or_default(m.groups, name@)),
            memberships: if has_sound(m.sources, id) && !memberships_or_empty(
                m.memberships,
                id,
            ).contains(name@) {
                m.memberships.insert(id, memberships_or_empty(m.memberships, id).push(name@))
            } else {
                m.memberships
            },
            ..m
        },
    }
}

/// Every group that a sound belongs to exists.
pub open spec fn members_of_known_groups<G>(
    memberships: Map<SoundId, Seq<Seq<char>>>,
    groups: Map<Seq<char>, GroupState<G>>,
) -> bool {
    forall|id: SoundId, k: int|
        #![trigger memberships[id][k]]
        memberships.dom().contains(id) && 0 <= k < memberships[id].len() ==> groups.dom().contains(
            memberships[id][k],
        )
}

/// No sound belongs to a group twice.
pub open spec fn no_repeated_groups(memberships: Map<SoundId, Seq<Seq<char>>>) -> bool {
    forall|id: SoundId| #[trigger] memberships.dom().contains(id) ==> memberships[id].no_duplicates()
}

/// The sounds of `s` that have not finished, in order.
pub open spec fn unfinished<V, G>(s: Seq<(SoundId, Playback<G>, V)>) -> Seq<(SoundId, Playback<G>, V)>
    decreases s.len(),
{
    if s.len() == 0 {
        s
    } else if is_finished_spec(s.last().1) {
        unfinished(s.drop_last())
    } else {
        unfinished(s.drop_last()).push(s.last())
    }
}

/// The ids of the sounds of `s` that have finished, in order.
pub open spec fn finished_ids<V, G>(s: Seq<(SoundId, Playback<G>, V)>) -> Seq<SoundId>
    decreases s.len(),
{
    if s.len() == 0 {
        Seq::empty()
    } else if is_finished_spec(s.last().1) {
        finished_ids(s.drop_last()).push(s.last().0)
    } else {
        finished_ids(s.drop_last())
    }
}

impl<V, G: Copy> View for Mixer<V, G> {
    type V = MixerView<V, G>;

    closed spec fn view(&self) -> MixerView<V, G> {
        MixerView {
            sources: self.sources@,
            memberships: self.memberships_view(),
            groups: to_map(self.group_pairs()),
            master_volume: self.master_volume,
        }
    }
}

impl<V, G: Copy> Mixer<V, G> {
    closed spec fn memberships_view(&self) -> Map<SoundId, Seq<Seq<char>>> {
        self.sound_groups@.map_values(|names: Vec<String>| names_view(names))
    }

    closed spec fn group_pairs(&self) -> Seq<(Seq<char>, GroupState<G>)> {
        self.groups@.map_values(|e: (String, GroupState<G>)| (e.0@, e.1))
    }

    /// Every group name is stored once, every sound's memberships are stored
    /// once, and a sound only belongs to groups that exist.
    pub closed spec fn wf(&self) -> bool {
        &&& keys_distinct(self.group_pairs())
        &&& members_of_known_groups(self.memberships_view(), to_map(self.group_pairs()))
        &&& no_repeated_groups(self.memberships_view())
    }

    /// An empty mixer whose master volume is the linear gain `master_volume`.
    pub fn new(master_volume: G) -> (m: Self)
        ensures
            m.wf(),
            m@.sources == Seq::<(SoundId, Playback<G>, V)>::empty(),
            m@.memberships == Map::<SoundId, Seq<Seq<char>>>::empty(),
            m@.groups == Map::<Seq<char>, GroupState<G>>::empty(),
            m@.master_volume == master_volume,
    {
        let m = Mixer {
            sources: Vec::new(),
            sound_groups: HashMap::new(),
            groups: Vec::new(),
            master_volume,
        };
        assert(m.memberships_view() =~= Map::empty());
        assert(m.group_pairs() =~= Seq::empty());
        m
    }

    /// The linear master gain, applied after all sound and group gains.
    pub fn master_volume(&self) -> (g: G)
        ensures
            g == self@.master_volume,
    {
        self.master_volume
    }

    /// The sounds being mixed.
    pub fn sources(&self) -> (s: &Vec<(SoundId, Playback<G>, V)>)
        ensures
            s@ == self@.sources,
    {
        &self.sources
    }

    /// The sounds being mixed, for rendering. The routing tables do not
    /// depend on them, so any change keeps the mixer well formed.
    pub fn sources_mut(&mut self) -> (s: &mut Vec<(SoundId, Playback<G>, V)>)
        ensures
            old(self)@.sources == s@,
            final(self)@ == (MixerView { sources: final(s)@, ..old(self)@ }),
            old(self).wf() ==> final(self).wf(),
    {
        &mut self.sources
    }

    /// Applies one command from the control thread. Commands for a sound
    /// act on the first sound with that id and are ignored if there is none;
    /// naming a group creates it.
    pub fn apply(&mut self, cmd: Command<V, G>)
        requires
            old(self).wf(),
        ensures
            final(self).wf(),
            final(self)@ == apply_spec(old(self)@, cmd),
    {
        match cmd {
            Command::AddSound(id, p, v) => {
                self.sources.push((id, p, v));
            },
            Command::Pause(id) => {
                if let Some(i) = self.find_source(id) {
                    self.sources[i].1.pause();
                }
            },
            Command::Resume(id) => {
                if let Some(i) = self.find_source(id) {
                    self.sources[i].1.resume();
                }
            },
            Command::Stop(id) => {
                if let Some(i) = self.find_source(id) {
                    self.sources[i].1.stop();
                }
            },
            Command::SetVolume(id, g) => {
                if let Some(i) = self.find_source(id) {
                    self.sources[i].1.set_volume(g);
                }
            },
            Command::SetPan(id, g) => {
                if let Some(i) = self.find_source(id) {
                    self.sources[i].1.set_pan(g);
                }
            },
            Command::SetMasterVolume(g) => {
                self.master_volume = g;
            },
            Command::SetGroupVolume(name, g) => {
                let i = self.group_entry(name);
                proof {
                    lemma_to_map(self.group_pairs());
                    assert(self.group_pairs()[i as int].1 == self.groups@[i as int].1);
                }
                self.set_group_at(i, GroupState { volume: Some(g), pan: self.groups[i].1.pan });
                assert(self@.groups =~= apply_spec(old(self)@, cmd).groups);
            },
            Command::SetGroupPan(name, g) => {
                let i = self.group_entry(name);
                proof {
                    lemma_to_map(self.group_pairs());
                    assert(self.group_pairs()[i as int].1 == self.groups@[i as int].1);
                }
                self.set_group_at(i, GroupState { volume: self.groups[i].1.volume, pan: Some(g) });
                assert(self@.groups =~= apply_spec(old(self)@, cmd).groups);
            },
            Command::AddToGroup(id, name) => {
                let name_copy = name.clone();
                let _ = self.group_entry(name);
                if self.find_source(id).is_some() {
                    self.add_membership(id, name_copy);
                }
                assert(self@.groups =~= apply_spec(old(self)@, cmd).groups);
            },
        }
    }

    /// Drops the sounds that have finished, together with their group
    /// memberships. Returns the ids of the dropped sounds, in mixing order.
    pub fn remove_finished(&mut self) -> (removed: Vec<SoundId>)
        requires
            old(self).wf(),
        ensures
            final(self).wf(),
            removed@ == finished_ids(old(self)@.sources),
            final(self)@ == (MixerView {
                sources: unfinished(old(self)@.sources),
                memberships: old(self)@.memberships.remove_keys(removed@.to_set()),
                ..old(self)@
            }),
    {
        let mut all: Vec<(SoundId, Playback<G>, V)> = Vec::new();
        std::mem::swap(&mut all, &mut self.sources);
        let ghost all_v = all@;
        let mut kept: Vec<(SoundId, Playback<G>, V)> = Vec::new();
        let mut removed: Vec<SoundId> = Vec::new();
        for e in it: all.into_iter()
            invariant
                it.seq() == all_v,
                kept@ == unfinished(all_v.take(it.index() as int)),
                removed@ == finished_ids(all_v.take(it.index() as int)),
        {
            let ghost idx = it.index();
            assert(all_v.take(idx + 1).drop_last() =~= all_v.take(idx as int));
            assert(all_v.take(idx + 1).last() == e);
            if e.1.is_finished() {
                removed.push(e.0);
            } else {
                kept.push(e);
            }
        }
        assert(all_v.take(all_v.len() as int) =~= all_v);
        self.sources = kept;
        let ghost before = self@.memberships;
        assert(removed@.take(0).to_set() =~= Set::<SoundId>::empty());
        assert(before.remove_keys(Set::<SoundId>::empty()) =~= before);
        let mut k: usize = 0;
        while k < removed.len()
            invariant
                self.wf(),
                k <= removed@.len(),
                self@ == (MixerView {
                    sources: unfinished(all_v),
                    memberships: before.remove_keys(removed@.take(k as int).to_set()),
                    ..old(self)@
                }),
            decreases removed@.len() - k,
        {
            let id = removed[k];
            let ghost pre = self@.memberships;
            let ghost old_map = self.sound_groups@;
            let _ = self.sound_groups.remove(&id);
            assert(self.sound_groups@ == old_map.remove(id));
            assert(self@.memberships =~= pre.remove(id));
            assert(removed@.take(k + 1).to_set() == removed@.take(k as int).to_set().insert(id)) by {
                assert(removed@.take(k + 1) =~= removed@.take(k as int).push(id));
                removed@.take(k as int).lemma_push_to_set_commute(id);
            }
            assert(self@.memberships =~= before.remove_keys(removed@.take(k + 1).to_set()));
            proof {
                let ms = self@.memberships;
                let gs = self@.groups;
                assert forall|sid: SoundId, i: int|
                    #![trigger ms[sid][i]]
                    ms.dom().contains(sid) && 0 <= i < ms[sid].len() implies gs.dom().contains(
                    ms[sid][i],
                ) by {
                    assert(pre[sid][i] == ms[sid][i]);
                }
                assert forall|sid: SoundId| #[trigger] ms.dom().contains(sid) implies ms[sid].no_duplicates() by {
                    assert(pre.dom().contains(sid));
                }
            }
            k = k + 1;
        }
        assert(removed@.take(removed@.len() as int) =~= removed@);
        removed
    }

    /// The states of the groups that sound `id` belongs to, in the order it
    /// joined them, or `None` if it belongs to no group. The renderer folds
    /// them into the sound's left and right gains.
    pub fn group_states_for(&self, id: SoundId) -> (r: Option<Vec<GroupState<G>>>)
        requires
            self.wf(),
        ensures
            r is None <==> !self@.memberships.dom().contains(id),
            r matches Some(states) ==> states@ == self@.memberships[id].map_values(
                |name: Seq<char>| self@.groups[name],
            ),
    {
        proof {
            lemma_to_map(self.group_pairs());
        }
        match self.sound_groups.get(&id) {
            None => None,
            Some(names) => {
                let ghost names_v = self@.memberships[id];
                assert(names_v == names_view(*names));
                let mut states: Vec<GroupState<G>> = Vec::new();
                let mut k: usize = 0;
                while k < names.len()
                    invariant
                        self.wf(),
                        k <= names@.len(),
                        names_v == names_view(*names),
                        self@.memberships.dom().contains(id),
                        names_v == self@.memberships[id],
                        forall|n: Seq<char>| #[trigger] self@.groups.dom().contains(n) <==> has_key(
                            self.group_pairs(),
                            n,
                        ),
                        forall|i: int|
                            0 <= i < self.group_pairs().len() ==> #[trigger] self@.groups[self.group_pairs()[i].0]
                                == self.group_pairs()[i].1,
                        states@ == names_v.take(k as int).map_values(
                            |name: Seq<char>| self@.groups[name],
                        ),
                    decreases names@.len() - k,
                {
                    assert(self@.groups.dom().contains(names_v[k as int]));
                    match self.find_group(&names[k]) {
                        Some(i) => {
                            assert(self.group_pairs()[i as int].1 == self.groups@[i as int].1);
                            states.push(self.groups[i].1);
                        },
                        None => {},
                    }
                    assert(names_v.take(k + 1) =~= names_v.take(k as int).push(names_v[k as int]));
                    assert(states@ =~= names_v.take(k + 1).map_values(
                        |name: Seq<char>| self@.groups[name],
                    ));
                    k = k + 1;
                }
                assert(names_v.take(names@.len() as int) =~= names_v);
                Some(states)
            },
        }
    }

    /// The state of the group named `name`, if it has been named.
    pub fn group(&self, name: &String) -> (r: Option<GroupState<G>>)
        requires
            self.wf(),
        ensures
            r is Some <==> self@.groups.dom().contains(name@),
            r matches Some(state) ==> state == self@.groups[name@],
    {
        proof {
            lemma_to_map(self.group_pairs());
        }
        match self.find_group(name) {
            Some(i) => {
                assert(self.group_pairs()[i as int].1 == self.groups@[i as int].1);
                Some(self.groups[i].1)
            },
            None => None,
        }
    }

    /// Position of the group named `name`, which is created with the
    /// default state if it does not exist yet.
    fn group_entry(&mut self, name: String) -> (i: usize)
        requires
            old(self).wf(),
        ensures
            final(self).wf(),
            i < final(self).groups@.len(),
            final(self).group_pairs()[i as int].0 == name@,
            final(self)@ == (MixerView {
                groups: old(self)@.groups.insert(name@, group_or_default(old(self)@.groups, name@)),
                ..old(self)@
            }),
            final(self)@.groups[name@] == group_or_default(old(self)@.groups, name@),
    {
        proof {
            lemma_to_map(self.group_pairs());
        }
        match self.find_group(&name) {
            Some(i) => {
                assert(self@.groups =~= self@.groups.insert(name@, group_or_default(self@.groups, name@)));
                i
            },
            None => {
                let ghost old_pairs = self.group_pairs();
                let ghost old_groups = self@.groups;
                proof {
                    lemma_push(old_pairs, name@, default_group());
                }
                self.groups.push((name, GroupState { volume: None, pan: None }));
                assert(self.group_pairs() =~= old_pairs.push((name@, default_group())));
                proof {
                    assert forall|id: SoundId, k: int|
                        #![trigger self@.memberships[id][k]]
                        self@.memberships.dom().contains(id) && 0 <= k < self@.memberships[id].len()
                        implies self@.groups.dom().contains(self@.memberships[id][k]) by {
                        assert(old_groups.dom().contains(self@.memberships[id][k]));
                    }
                }
                self.groups.len() - 1
            },
        }
    }

    /// Replaces the state of the group at position `i`.
    fn set_group_at(&mut self, i: usize, state: GroupState<G>)
        requires
            old(self).wf(),
            i < old(self).groups@.len(),
        ensures
            final(self).wf(),
            final(self).groups@.len() == old(self).groups@.len(),
            final(self)@ == (MixerView {
                groups: old(self)@.groups.insert(old(self).group_pairs()[i as int].0, state),
                ..old(self)@
            }),
    {
        let ghost old_pairs = self.group_pairs();
        let ghost old_groups = self@.groups;
        proof {
            lemma_update(old_pairs, i as int, state);
        }
        self.groups[i].1 = state;
        assert(self.group_pairs() =~= old_pairs.update(i as int, (old_pairs[i as int].0, state)));
        proof {
            assert forall|id: SoundId, k: int|
                #![trigger self@.memberships[id][k]]
                self@.memberships.dom().contains(id) && 0 <= k < self@.memberships[id].len()
                implies self@.groups.dom().contains(self@.memberships[id][k]) by {
                assert(old_groups.dom().contains(self@.memberships[id][k]));
            }
        }
    }

    /// Adds group `name`, which exists, to the memberships of sound `id`,
    /// unless the sound already belongs to it.
    fn add_membership(&mut self, id: SoundId, name: String)
        requires
            old(self).wf(),
            old(self)@.groups.dom().contains(name@),
        ensures
            final(self).wf(),
            final(self)@ == (MixerView {
                memberships: if memberships_or_empty(old(self)@.memberships, id).contains(name@) {
                    old(self)@.memberships
                } else {
                    old(self)@.memberships.insert(
                        id,
                        memberships_or_empty(old(self)@.memberships, id).push(name@),
                    )
                },
                ..old(self)@
            }),
    {
        let ghost old_map = self.sound_groups@;
        let ghost old_ms = self@.memberships;
        let ghost groups = self@.groups;
        let mut names = match self.sound_groups.remove(&id) {
            Some(v) => v,
            None => Vec::new(),
        };
        assert(names_view(names) =~= memberships_or_empty(old_ms, id));
        let ghost before = names_view(names);
        let already = contains_name(&names, &name);
        if !already {
            names.push(name);
            assert(names_view(names) =~= before.push(name@));
            assert(names_view(names).no_duplicates()) by {
                let nv = names_view(names);
                assert forall|i: int, j: int| 0 <= i < nv.len() && 0 <= j < nv.len() && i != j implies nv[i]
                    != nv[j] by {
                    if j == nv.len() - 1 {
                        assert(before[i] == nv[i]);
                    } else if i == nv.len() - 1 {
                        assert(before[j] == nv[j]);
                    } else {
                        assert(before[i] == nv[i]);
                        assert(before[j] == nv[j]);
                    }
                }
            }
        }
        self.sound_groups.insert(id, names);
        assert(self@.memberships =~= old_ms.insert(id, names_view(names)));
        if already {
            assert(old_ms.dom().contains(id));
            assert(self@.memberships =~= old_ms);
        }
        proof {
            let ms = self@.memberships;
            assert forall|sid: SoundId, k: int|
                #![trigger ms[sid][k]]
                ms.dom().contains(sid) && 0 <= k < ms[sid].len() implies groups.dom().contains(
                ms[sid][k],
            ) by {
                if sid != id {
                    assert(old_ms[sid][k] == ms[sid][k]);
                } else if k < before.len() {
                    assert(before[k] == ms[sid][k]);
                }
            }
            assert forall|sid: SoundId| #[trigger] ms.dom().contains(sid) implies ms[sid].no_duplicates() by {
                if sid != id {
                    assert(old_ms.dom().contains(sid));
                }
            }
        }
    }

    /// Position of the first sound with id `id`.
    fn find_source(&self, id: SoundId) -> (r: Option<usize>)
        ensures
            match r {
                Some(i) => is_first(self@.sources, id, i as int),
                None => !has_sound(self@.sources, id),
            },
    {
        let mut i: usize = 0;
        while i < self.sources.len()
            invariant
                i <= self.sources@.len(),
                forall|j: int| 0 <= j < i ==> self.sources@[j].0 != id,
            decreases self.sources@.len() - i,
        {
            if self.sources[i].0 == id {
                return Some(i);
            }
            i = i + 1;
        }
        None
    }

    /// Position of the group named `name`.
    fn find_group(&self, name: &String) -> (r: Option<usize>)
        ensures
            match r {
                Some(i) => i < self.groups@.len() && self.group_pairs()[i as int].0 == name@,
                None => !has_key(self.group_pairs(), name@),
            },
    {
        let mut i: usize = 0;
        while i < self.groups.len()
            invariant
                i <= self.groups@.len(),
                forall|j: int| 0 <= j < i ==> self.group_pairs()[j].0 != name@,
            decreases self.groups@.len() - i,
        {
            if self.groups[i].0 == *name {
                return Some(i);
            }
            i = i + 1;
        }
        None
    }
}

/// Whether `name` is among `names`.
fn contains_name(names: &Vec<String>, name: &String) -> (b: bool)
    ensures
        b == names_view(*names).contains(name@),
{
    let mut i: usize = 0;
    while i < names.len()
        invariant
            i <= names@.len(),
            forall|j: int| 0 <= j < i ==> names@[j]@ != name@,
        decreases names@.len() - i,
    {
        if names[i] == *name {
            assert(names_view(*names)[i as int] == name@);
            return true;
        }
        i = i + 1;
    }
    assert forall|j: int| 0 <= j < names_view(*names).len() implies names_view(*names)[j] != name@ by {
        assert(names_view(*names)[j] == names@[j]@);
    }
    false
}

// ---------------------------------------------------------------------------
// Laws
/// Commands for a sound that is not being mixed (one that finished, or was
/// never added) change nothing; adding it to a group only names the group.
pub proof fn law_commands_for_absent_sound_ignored<V, G>(m: MixerView<V, G>, id: SoundId, g: G, name: String)
    requires
        !has_sound(m.sources, id),
    ensures
        apply_spec(m, Command::Pause(id)) == m,
        apply_spec(m, Command::Resume(id)) == m,
        apply_spec(m, Command::Stop(id)) == m,
        apply_spec(m, Command::SetVolume(id, g)) == m,
        apply_spec(m, Command::SetPan(id, g)) == m,
        apply_spec(m, Command::AddToGroup(id, name)).memberships == m.memberships,
        apply_spec(m, Command::AddToGroup(id, name)).sources == m.sources,
{
}

/// The first sound with a given id is the only one a command for that id
/// can change; ids, renderers and the order of sounds never change.
pub proof fn law_commands_touch_one_sound<V, G>(
    m: MixerView<V, G>,
    id: SoundId,
    f: spec_fn(Playback<G>) -> Playback<G>,
    i: int,
    j: int,
)
    requires
        is_first(m.sources, id, i),
        0 <= j < m.sources.len(),
        j != i,
    ensures
        update_sound(m.sources, id, f).len() == m.sources.len(),
        update_sound(m.sources, id, f)[j] == m.sources[j],
        update_sound(m.sources, id, f)[i] == (m.sources[i].0, f(m.sources[i].1), m.sources[i].2),
{
    lemma_first_unique(m.sources, id, i);
}

/// There is only one first sound with a given id.
pub proof fn lemma_first_unique<V, G>(s: Seq<(SoundId, Playback<G>, V)>, id: SoundId, i: int)
    requires
        is_first(s, id, i),
    ensures
        has_sound(s, id),
        (choose|k: int| is_first(s, id, k)) == i,
{
    let k = choose|k: int| is_first(s, id, k);
    assert(is_first(s, id, k));
    if k < i {
        assert(s[k].0 != id);
    } else if k > i {
        assert(s[i].0 != id);
    }
}

/// Pausing a playing sound through the mixer and resuming it brings it
/// back to playing at the volume it had.
pub proof fn law_pause_resume_through_mixer<V, G>(m: MixerView<V, G>, id: SoundId, i: int)
    requires
        is_first(m.sources, id, i),
        m.sources[i].1.state == crate::sound::State::Playing,
    ensures
        apply_spec(apply_spec(m, Command::Pause(id)), Command::Resume(id)).sources[i].1.state
            == crate::sound::State::Playing,
        apply_spec(apply_spec(m, Command::Pause(id)), Command::Resume(id)).sources[i].1.volume_target
            == m.sources[i].1.volume_target,
        apply_spec(apply_spec(m, Command::Pause(id)), Command::Resume(id)).groups == m.groups,
        apply_spec(apply_spec(m, Command::Pause(id)), Command::Resume(id)).memberships == m.memberships,
{
    lemma_first_unique(m.sources, id, i);
    let paused = apply_spec(m, Command::Pause(id));
    assert(is_first(paused.sources, id, i));
    lemma_first_unique(paused.sources, id, i);
}

/// Stopping a sound that is not already stopping, a paused one included,
/// fades it to silence and leaves every other sound and the routing tables
/// as they were; once it is silent it is finished, and removing finished
/// sounds drops it and reports its id.
pub proof fn law_stop_through_mixer<V, G>(m: MixerView<V, G>, id: SoundId, i: int)
    requires
        is_first(m.sources, id, i),
        m.sources[i].1.state != crate::sound::State::Stopped,
        m.sources[i].1.state != crate::sound::State::FadingToStop,
    ensures
        apply_spec(m, Command::Stop(id)).sources.len() == m.sources.len(),
        apply_spec(m, Command::Stop(id)).sources[i].0 == id,
        apply_spec(m, Command::Stop(id)).sources[i].1.state == crate::sound::State::FadingToStop,
        apply_spec(m, Command::Stop(id)).sources[i].1.volume_target == crate::sound::Level::<G>::Silent,
        apply_spec(m, Command::Stop(id)).sources[i].1.pan_target == m.sources[i].1.pan_target,
        forall|j: int|
            0 <= j < m.sources.len() && j != i ==> #[trigger] apply_spec(m, Command::Stop(id)).sources[j]
                == m.sources[j],
        apply_spec(m, Command::Stop(id)).groups == m.groups,
        apply_spec(m, Command::Stop(id)).memberships == m.memberships,
        ({
            let s = apply_spec(m, Command::Stop(id)).sources;
            let silent = s.update(i, (s[i].0, silence_reached_spec(s[i].1), s[i].2));
            &&& is_finished_spec(silent[i].1)
            &&& !unfinished(silent).contains(silent[i])
            &&& finished_ids(silent).contains(id)
        }),
{
    lemma_first_unique(m.sources, id, i);
    let s = apply_spec(m, Command::Stop(id)).sources;
    let silent = s.update(i, (s[i].0, silence_reached_spec(s[i].1), s[i].2));
    law_remove_finished(silent);
    assert(is_finished_spec(silent[i].1));
    assert(0 <= i < silent.len());
}

/// A command for a sound applies that sound's own control to the first
/// sound with the id; the sound keeps its id and renderer.
pub proof fn law_commands_reach_their_sound<V, G>(m: MixerView<V, G>, id: SoundId, i: int, g: G)
    requires
        is_first(m.sources, id, i),
    ensures
        apply_spec(m, Command::Pause(id)).sources[i] == (id, pause_spec(m.sources[i].1), m.sources[i].2),
        apply_spec(m, Command::Resume(id)).sources[i] == (id, resume_spec(m.sources[i].1), m.sources[i].2),
        apply_spec(m, Command::Stop(id)).sources[i] == (id, stop_spec(m.sources[i].1), m.sources[i].2),
        apply_spec(m, Command::SetVolume(id, g)).sources[i] == (
            id,
            set_volume_spec(m.sources[i].1, g),
            m.sources[i].2,
        ),
        apply_spec(m, Command::SetPan(id, g)).sources[i] == (
            id,
            set_pan_spec(m.sources[i].1, g),
            m.sources[i].2,
        ),
{
    lemma_first_unique(m.sources, id, i);
}

/// Adding a sound appends it after the others, which stay as they were;
/// a sound with a new id is then the one that commands for that id reach.
/// Setting the master volume changes only the master volume.
pub proof fn law_add_sound_and_master_volume<V, G>(m: MixerView<V, G>, id: SoundId, p: Playback<G>, v: V, g: G)
    ensures
        apply_spec(m, Command::AddSound(id, p, v)).sources.len() == m.sources.len() + 1,
        apply_spec(m, Command::AddSound(id, p, v)).sources[m.sources.len() as int] == (id, p, v),
        forall|j: int|
            0 <= j < m.sources.len() ==> #[trigger] apply_spec(m, Command::AddSound(id, p, v)).sources[j]
                == m.sources[j],
        !has_sound(m.sources, id) ==> is_first(
            apply_spec(m, Command::AddSound(id, p, v)).sources,
            id,
            m.sources.len() as int,
        ),
        apply_spec(m, Command::AddSound(id, p, v)).groups == m.groups,
        apply_spec(m, Command::AddSound(id, p, v)).memberships == m.memberships,
        apply_spec(m, Command::AddSound(id, p, v)).master_volume == m.master_volume,
        apply_spec(m, Command::SetMasterVolume(g)).master_volume == g,
        apply_spec(m, Command::SetMasterVolume(g)).sources == m.sources,
        apply_spec(m, Command::SetMasterVolume(g)).groups == m.groups,
        apply_spec(m, Command::SetMasterVolume(g)).memberships == m.memberships,
{
    let s = apply_spec(m, Command::AddSound(id, p, v)).sources;
    if !has_sound(m.sources, id) {
        assert forall|j: int| 0 <= j < m.sources.len() implies s[j].0 != id by {
            assert(s[j] == m.sources[j]);
        }
    }
}

/// Setting a group's volume keeps its balance, and setting its balance
/// keeps its volume.
pub proof fn law_group_settings_independent<V, G>(m: MixerView<V, G>, name: String, g: G)
    ensures
        apply_spec(m, Command::SetGroupVolume(name, g)).groups[name@].pan == group_or_default(
            m.groups,
            name@,
        ).pan,
        apply_spec(m, Command::SetGroupVolume(name, g)).groups[name@].volume == Some(g),
        apply_spec(m, Command::SetGroupPan(name, g)).groups[name@].volume == group_or_default(
            m.groups,
            name@,
        ).volume,
        apply_spec(m, Command::SetGroupPan(name, g)).groups[name@].pan == Some(g),
{
}

/// Removing finished sounds keeps every sound that has not finished, in
/// order, and drops and reports every sound that has; every sound is either
/// kept or reported.
pub proof fn law_remove_finished<V, G>(s: Seq<(SoundId, Playback<G>, V)>)
    ensures
        forall|i: int| 0 <= i < unfinished(s).len() ==> !is_finished_spec(#[trigger] unfinished(s)[i].1),
        forall|i: int|
            0 <= i < s.len() && !is_finished_spec(s[i].1) ==> unfinished(s).contains(#[trigger] s[i]),
        forall|i: int|
            0 <= i < s.len() && is_finished_spec(s[i].1) ==> !unfinished(s).contains(#[trigger] s[i])
                && finished_ids(s).contains(s[i].0),
        unfinished(s).len() + finished_ids(s).len() == s.len(),
    decreases s.len(),
{
    if s.len() > 0 {
        let t = s.drop_last();
        law_remove_finished(t);
        assert forall|i: int| 0 <= i < s.len() && !is_finished_spec(s[i].1) implies unfinished(s).contains(
            #[trigger] s[i],
        ) by {
            if i < s.len() - 1 {
                assert(t[i] == s[i]);
                assert(unfinished(t).contains(t[i]));
                let k = choose|k: int| 0 <= k < unfinished(t).len() && unfinished(t)[k] == t[i];
                if !is_finished_spec(s.last().1) {
                    assert(unfinished(s)[k] == s[i]);
                }
            } else {
                assert(unfinished(s)[unfinished(s).len() - 1] == s[i]);
            }
        }
        assert forall|i: int|
            0 <= i < s.len() && is_finished_spec(s[i].1) implies !unfinished(s).contains(#[trigger] s[i])
                && finished_ids(s).contains(s[i].0) by {
            if unfinished(s).contains(s[i]) {
                let k = choose|k: int| 0 <= k < unfinished(s).len() && unfinished(s)[k] == s[i];
                assert(!is_finished_spec(unfinished(s)[k].1));
            }
            if i < s.len() - 1 {
                assert(t[i] == s[i]);
                assert(finished_ids(t).contains(t[i].0));
                let k = choose|k: int| 0 <= k < finished_ids(t).len() && finished_ids(t)[k] == t[i].0;
                assert(finished_ids(s)[k] == s[i].0);
            } else {
                assert(finished_ids(s)[finished_ids(s).len() - 1] == s[i].0);
            }
        }
    }
}

/// Adding a sound to a group it already belongs to changes nothing, so a
/// group's gain applies to each of its sounds once.
pub proof fn law_add_to_group_idempotent<V, G>(m: MixerView<V, G>, id: SoundId, name: String)
    ensures
        apply_spec(apply_spec(m, Command::AddToGroup(id, name)), Command::AddToGroup(id, name))
            == apply_spec(m, Command::AddToGroup(id, name)),
        has_sound(m.sources, id) ==> memberships_or_empty(
            apply_spec(m, Command::AddToGroup(id, name)).memberships,
            id,
        ).contains(name@),
{
    let m1 = apply_spec(m, Command::AddToGroup(id, name));
    let m2 = apply_spec(m1, Command::AddToGroup(id, name));
    assert(m1.groups.dom().contains(name@));
    assert(m2.groups =~= m1.groups);
    if has_sound(m.sources, id) {
        let before = memberships_or_empty(m.memberships, id);
        if !before.contains(name@) {
            assert(memberships_or_empty(m1.memberships, id) == before.push(name@));
            assert(before.push(name@)[before.len() as int] == name@);
        }
        assert(memberships_or_empty(m1.memberships, id).contains(name@));
    }
    assert(m2.memberships =~= m1.memberships);
}

} // verus!
