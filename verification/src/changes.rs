//! Change detection: what happened to each group of a timetable between
//! two polls of the upstream service.

use crate::names::{as_map, lemma_as_map_step, lemma_lookup_found, NameMap, Named};
use vstd::prelude::*;

verus! {

/// What a poll says about one group, compared with the poll before it.
#[derive(Clone, Copy, Debug, PartialEq, Eq, Structural)]
pub enum ChangeKind {
    /// The group was not known before.
    New,
    /// The group's version identifier differs from the earlier one.
    Updated,
    /// The group's version identifier is the one seen before.
    Unchanged,
    /// No timetable is published for the group at present.
    Unknown,
}

impl View for ChangeKind {
    type V = ChangeKind;

    open spec fn view(&self) -> ChangeKind {
        *self
    }
}

/// The version markers of one horizon: the identifier of the snapshot as a
/// whole, if there is a timetable for the horizon, and one identifier per
/// group.
#[derive(Debug)]
pub struct ChangeSet {
    pub uid: Option<String>,
    pub groups: NameMap<String>,
}

/// The upstream state as of one poll.
#[derive(Debug)]
pub struct PollResult {
    /// When the upstream expects to publish again, in milliseconds since
    /// the Unix epoch.
    pub next_update: i64,
    pub today: ChangeSet,
    pub next: ChangeSet,
}

/// The group versions of the poll that serves as the baseline, if there was
/// such a poll.
pub open spec fn baseline(previous: Option<&ChangeSet>) -> Option<Map<Seq<char>, Seq<char>>> {
    match previous {
        Some(set) => Some(set.groups@),
        None => None,
    }
}

/// The classification of one group that now has version `version`.
pub open spec fn classify(
    previous: Option<Map<Seq<char>, Seq<char>>>,
    name: Seq<char>,
    version: Seq<char>,
) -> ChangeKind {
    match previous {
        None => ChangeKind::New,
        Some(known) => if !known.contains_key(name) {
            ChangeKind::New
        } else if known[name] != version {
            ChangeKind::Updated
        } else {
            ChangeKind::Unchanged
        },
    }
}

/// The classification of every group of `current` against `previous`.
pub open spec fn detected(
    current: Map<Seq<char>, Seq<char>>,
    previous: Option<Map<Seq<char>, Seq<char>>>,
) -> Map<Seq<char>, ChangeKind> {
    Map::new(
        |name: Seq<char>| current.contains_key(name),
        |name: Seq<char>| classify(previous, name, current[name]),
    )
}

/// The classification of every group of `current` and of every name of
/// `universe`: a name of the universe for which `current` has no version is
/// `Unknown`.
pub open spec fn detected_among(
    universe: Set<Seq<char>>,
    current: Map<Seq<char>, Seq<char>>,
    previous: Option<Map<Seq<char>, Seq<char>>>,
) -> Map<Seq<char>, ChangeKind> {
    Map::new(
        |name: Seq<char>| current.contains_key(name) || universe.contains(name),
        |name: Seq<char>|
            if current.contains_key(name) {
                classify(previous, name, current[name])
            } else {
                ChangeKind::Unknown
            },
    )
}

/// The names that a list of strings holds.
pub open spec fn name_set(names: Seq<String>) -> Set<Seq<char>> {
    Set::new(|name: Seq<char>| exists|i: int| 0 <= i < names.len() && (#[trigger] names[i])@ == name)
}

/// Whether a change of this kind is news for the subscribers of the group.
pub open spec fn is_news(kind: ChangeKind) -> bool {
    kind == ChangeKind::New || kind == ChangeKind::Updated
}

/// What `changes` says about `name`; a name without an entry is `Unknown`.
pub open spec fn kind_in(changes: Map<Seq<char>, ChangeKind>, name: Seq<char>) -> ChangeKind {
    if changes.contains_key(name) {
        changes[name]
    } else {
        ChangeKind::Unknown
    }
}

/// Whether at least one group is new or updated.
pub open spec fn has_news(changes: Map<Seq<char>, ChangeKind>) -> bool {
    exists|name: Seq<char>| changes.contains_key(name) && is_news(#[trigger] changes[name])
}

/// Polling the same state twice brings no news: against itself, every group
/// of a set of version markers is unchanged.
pub proof fn law_same_state_brings_no_news(state: Map<Seq<char>, Seq<char>>)
    ensures
        forall|name: Seq<char>|
            state.contains_key(name) ==> (#[trigger] detected(state, Some(state))[name])
                == ChangeKind::Unchanged,
        !has_news(detected(state, Some(state))),
{
    let changes = detected(state, Some(state));
    assert forall|name: Seq<char>| changes.contains_key(name) implies !is_news(
        #[trigger] changes[name],
    ) by {
        assert(changes[name] == classify(Some(state), name, state[name]));
    }
}

/// Without an earlier poll every group of the current state is new.
pub proof fn law_first_poll_is_all_new(current: Map<Seq<char>, Seq<char>>)
    ensures
        detected(current, None).dom() == current.dom(),
        forall|name: Seq<char>|
            current.contains_key(name) ==> (#[trigger] detected(current, None)[name])
                == ChangeKind::New,
{
    assert(detected(current, None).dom() =~= current.dom());
}

/// A group whose version identifier differs from the earlier one is updated,
/// one whose identifier is the same is unchanged, and one that the earlier
/// poll did not hold is new.
pub proof fn law_versions_decide(
    current: Map<Seq<char>, Seq<char>>,
    previous: Map<Seq<char>, Seq<char>>,
    name: Seq<char>,
)
    requires
        current.contains_key(name),
    ensures
        previous.contains_key(name) && previous[name] != current[name] ==> detected(
            current,
            Some(previous),
        )[name] == ChangeKind::Updated,
        previous.contains_key(name) && previous[name] == current[name] ==> detected(
            current,
            Some(previous),
        )[name] == ChangeKind::Unchanged,
        !previous.contains_key(name) ==> detected(current, Some(previous))[name]
            == ChangeKind::New,
{
}

/// Whether the earlier poll holds every group of the current one with the
/// same version identifier.
pub open spec fn versions_kept(
    current: Map<Seq<char>, Seq<char>>,
    previous: Map<Seq<char>, Seq<char>>,
) -> bool {
    forall|name: Seq<char>| #[trigger]
        current.contains_key(name) ==> previous.contains_key(name) && previous[name]
            == current[name]
}

/// A poll brings no news exactly if the earlier poll holds every group of
/// the current one with the same version identifier. A group that the
/// earlier poll lacks counts as news, not as unchanged.
pub proof fn law_no_news_iff_versions_kept(
    current: Map<Seq<char>, Seq<char>>,
    previous: Map<Seq<char>, Seq<char>>,
)
    ensures
        !has_news(detected(current, Some(previous))) <==> versions_kept(current, previous),
{
    let changes = detected(current, Some(previous));
    if !has_news(changes) {
        assert forall|name: Seq<char>| #[trigger]
            current.contains_key(name) implies previous.contains_key(name) && previous[name]
            == current[name] by {
            assert(changes.contains_key(name));
            assert(!is_news(changes[name]));
        }
    }
    if versions_kept(current, previous) {
        assert forall|name: Seq<char>| changes.contains_key(name) implies !is_news(
            #[trigger] changes[name],
        ) by {
            assert(current.contains_key(name));
        }
    }
}

/// Detection never yields `Unknown` for a group that has a version, and it
/// says nothing about any other group.
pub proof fn law_detected_is_known(
    current: Map<Seq<char>, Seq<char>>,
    previous: Option<Map<Seq<char>, Seq<char>>>,
    name: Seq<char>,
)
    ensures
        current.contains_key(name) ==> kind_in(detected(current, previous), name)
            != ChangeKind::Unknown,
        !current.contains_key(name) ==> kind_in(detected(current, previous), name)
            == ChangeKind::Unknown,
{
}

impl ChangeKind {
    /// Whether subscribers are to be told about a change of this kind.
    pub fn is_news(&self) -> (news: bool)
        ensures
            news == is_news(*self),
    {
        match self {
            ChangeKind::New => true,
            ChangeKind::Updated => true,
            ChangeKind::Unchanged => false,
            ChangeKind::Unknown => false,
        }
    }
}

/// Classifies one group against the baseline.
pub fn classify_group(previous: Option<&ChangeSet>, name: &String, version: &String) -> (kind:
    ChangeKind)
    ensures
        kind == classify(baseline(previous), name@, version@),
{
    match previous {
        None => ChangeKind::New,
        Some(set) => match set.groups.get(name) {
            None => ChangeKind::New,
            Some(known) => if *known == *version {
                ChangeKind::Unchanged
            } else {
                ChangeKind::Updated
            },
        },
    }
}

/// Whether two lists of entries carry the same names in the same order.
pub open spec fn same_names<V, W>(left: Seq<Named<V>>, right: Seq<Named<W>>) -> bool {
    &&& left.len() == right.len()
    &&& forall|i: int| 0 <= i < left.len() ==> (#[trigger] left[i]).name@ == right[i].name@
}

/// Classifies every group of `current` against the poll before it.
///
/// Without an earlier poll every group is new. With one, a group that the
/// earlier poll did not hold is new, one whose version differs is updated,
/// and one whose version is the same is unchanged. The classifications
/// stand in the order of the groups.
pub fn detect_changes(current: &NameMap<String>, previous: Option<&ChangeSet>) -> (changes: NameMap<
    ChangeKind,
>)
    ensures
        changes@ == detected(current@, baseline(previous)),
        changes.wf(),
        current.wf() ==> same_names(changes.entries(), current.entries()),
{
    let mut changes: NameMap<ChangeKind> = NameMap::new();
    let mut i: usize = 0;
    proof {
        current.lemma_view();
        assert(changes@ =~= detected(as_map(current.entries().take(0)), baseline(previous)));
    }
    while i < current.len()
        invariant
            i <= current.entries().len(),
            changes.wf(),
            changes@ == detected(as_map(current.entries().take(i as int)), baseline(previous)),
            current.wf() ==> same_names(changes.entries(), current.entries().take(i as int)),
        decreases current.entries().len() - i,
    {
        let entry = current.entry(i);
        let kind = classify_group(previous, &entry.name, &entry.value);
        let ghost before = changes.entries();
        proof {
            lemma_as_map_step(current.entries(), i as int);
            assert(detected(as_map(current.entries().take(i as int + 1)), baseline(previous))
                =~= detected(as_map(current.entries().take(i as int)), baseline(previous)).insert(
                entry.name@,
                kind,
            ));
            if current.wf() {
                let seen = current.entries().take(i as int);
                lemma_lookup_found(seen, entry.name@);
                if changes@.contains_key(entry.name@) {
                    let j = choose|j: int| 0 <= j < seen.len() && (#[trigger] seen[j]).name@
                        == entry.name@;
                    assert(current.entries()[j].name@ == current.entries()[i as int].name@);
                }
            }
        }
        changes.insert(entry.name.clone(), kind);
        proof {
            if current.wf() {
                let more = current.entries().take(i as int + 1);
                assert forall|k: int| 0 <= k < changes.entries().len() implies (
                #[trigger] changes.entries()[k]).name@ == more[k].name@ by {
                    if k < before.len() {
                        assert(before[k].name@ == current.entries().take(i as int)[k].name@);
                    }
                }
            }
        }
        i = i + 1;
    }
    proof {
        assert(current.entries().take(i as int) =~= current.entries());
    }
    changes
}

/// Classifies every group of `current` as `detect_changes` does, and marks
/// each name of `universe` that `current` does not hold as `Unknown`.
pub fn detect_changes_among(
    universe: &Vec<String>,
    current: &NameMap<String>,
    previous: Option<&ChangeSet>,
) -> (changes: NameMap<ChangeKind>)
    ensures
        changes@ == detected_among(name_set(universe@), current@, baseline(previous)),
        changes.wf(),
{
    let mut changes = detect_changes(current, previous);
    let mut i: usize = 0;
    proof {
        assert(changes@ =~= detected_among(
            name_set(universe@.take(0)),
            current@,
            baseline(previous),
        ));
    }
    while i < universe.len()
        invariant
            i <= universe@.len(),
            changes.wf(),
            changes@ == detected_among(
                name_set(universe@.take(i as int)),
                current@,
                baseline(previous),
            ),
        decreases universe@.len() - i,
    {
        let name = &universe[i];
        let ghost seen = name_set(universe@.take(i as int));
        let ghost more = name_set(universe@.take(i as int + 1));
        proof {
            assert forall|other: Seq<char>| more.contains(other) <==> (seen.contains(other)
                || other == name@) by {
                let shorter = universe@.take(i as int);
                let longer = universe@.take(i as int + 1);
                if seen.contains(other) {
                    let k = choose|k: int| 0 <= k < shorter.len() && (#[trigger] shorter[k])@ == other;
                    assert(longer[k]@ == other);
                }
                if other == name@ {
                    assert(longer[i as int]@ == other);
                }
                if more.contains(other) {
                    let k = choose|k: int| 0 <= k < longer.len() && (#[trigger] longer[k])@ == other;
                    if k < i {
                        assert(shorter[k]@ == other);
                    }
                }
            }
        }
        if !current.contains(name) {
            changes.insert(name.clone(), ChangeKind::Unknown);
        }
        proof {
            assert(changes@ =~= detected_among(more, current@, baseline(previous)));
        }
        i = i + 1;
    }
    proof {
        assert(universe@.take(i as int) =~= universe@);
    }
    changes
}

/// What `changes` says about the group `name`.
pub fn kind_of(changes: &NameMap<ChangeKind>, name: &String) -> (kind: ChangeKind)
    ensures
        kind == kind_in(changes@, name@),
{
    match changes.get(name) {
        Some(kind) => *kind,
        None => ChangeKind::Unknown,
    }
}

/// Whether `changes` holds at least one new or updated group.
pub fn has_updates(changes: &NameMap<ChangeKind>) -> (any: bool)
    ensures
        any == has_news(changes@),
{
    let mut i: usize = 0;
    while i < changes.len()
        invariant
            i <= changes.entries().len(),
            forall|j: int|
                0 <= j < i ==> !is_news(
                    kind_in(changes@, (#[trigger] changes.entries()[j]).name@),
                ),
        decreases changes.entries().len() - i,
    {
        let kind = kind_of(changes, &changes.entry(i).name);
        if kind.is_news() {
            proof {
                let name = changes.entries()[i as int].name@;
                changes.lemma_view();
                lemma_lookup_found(changes.entries(), name);
                assert(changes@.contains_key(name) && is_news(changes@[name]));
            }
            return true;
        }
        i = i + 1;
    }
    proof {
        changes.lemma_view();
        assert forall|name: Seq<char>| changes@.contains_key(name) implies !is_news(
            #[trigger] changes@[name],
        ) by {
            lemma_lookup_found(changes.entries(), name);
            let j = choose|j: int|
                0 <= j < changes.entries().len() && (#[trigger] changes.entries()[j]).name@ == name;
            assert(!is_news(kind_in(changes@, changes.entries()[j].name@)));
        }
    }
    false
}

} // verus!
