//! Who is told about a change, and what they are told.

use crate::changes::{
    detected, has_news, is_news, kind_in, kind_of, law_same_state_brings_no_news, ChangeKind,
};
use crate::error::BotError;
use crate::format::{
    emoji_text, group_text, missing_note, random_emoji, SnapshotFormatter, EMOJI_COUNT,
};
use crate::names::NameMap;
use crate::settings::Notifiable;
use crate::timetable::{group_index, Snapshot};
use vstd::prelude::*;

verus! {

/// The text that the chats of a group are sent.
#[derive(Debug)]
pub enum NoticeBody {
    /// The group's day, as the snapshot has it.
    Ready(String),
    /// The snapshot has nothing for the group: the weekly timetable has to
    /// be fetched and put below this note.
    NeedsDefault(String),
}

/// One group's announcement: the chats and what to send them.
#[derive(Debug)]
pub struct Notice {
    pub group: String,
    pub user_ids: Vec<i64>,
    pub body: NoticeBody,
}

/// Whether the chats of `target` are told about `changes`: their group is
/// new or updated.
pub open spec fn is_due(target: Notifiable, changes: Map<Seq<char>, ChangeKind>) -> bool {
    is_news(kind_in(changes, target.group@))
}

/// The positions of the targets that are told about `changes`, in order.
pub open spec fn due_positions(targets: Seq<Notifiable>, changes: Map<Seq<char>, ChangeKind>) -> Seq<
    int,
>
    decreases targets.len(),
{
    if targets.len() == 0 {
        Seq::empty()
    } else if is_due(targets.last(), changes) {
        due_positions(targets.drop_last(), changes).push(targets.len() - 1)
    } else {
        due_positions(targets.drop_last(), changes)
    }
}

/// How many chats are told about `changes`.
pub open spec fn due_chats(targets: Seq<Notifiable>, changes: Map<Seq<char>, ChangeKind>) -> nat
    decreases targets.len(),
{
    if targets.len() == 0 {
        0
    } else if is_due(targets.last(), changes) {
        due_chats(targets.drop_last(), changes) + targets.last().user_ids@.len()
    } else {
        due_chats(targets.drop_last(), changes)
    }
}

/// Only the chats of changed groups are told, and all of them: the due
/// positions hold every target whose group is new or updated and no other
/// target, each once and in the order of the targets.
pub proof fn law_changed_groups_are_told(targets: Seq<Notifiable>, changes: Map<Seq<char>, ChangeKind>)
    ensures
        forall|k: int|
            0 <= k < due_positions(targets, changes).len() ==> {
                &&& 0 <= (#[trigger] due_positions(targets, changes)[k]) < targets.len()
                &&& is_due(targets[due_positions(targets, changes)[k]], changes)
            },
        forall|k: int, l: int|
            0 <= k < l < due_positions(targets, changes).len() ==> due_positions(targets, changes)[k]
                < due_positions(targets, changes)[l],
        forall|at: int|
            0 <= at < targets.len() && is_due(#[trigger] targets[at], changes) ==> due_positions(
                targets,
                changes,
            ).contains(at),
    decreases targets.len(),
{
    if targets.len() > 0 {
        let rest = targets.drop_last();
        let earlier = due_positions(rest, changes);
        let all = due_positions(targets, changes);
        law_changed_groups_are_told(rest, changes);
        assert forall|k: int| 0 <= k < all.len() implies {
            &&& 0 <= (#[trigger] all[k]) < targets.len()
            &&& is_due(targets[all[k]], changes)
        } by {
            if k < earlier.len() {
                assert(all[k] == earlier[k]);
                assert(targets[earlier[k]] == rest[earlier[k]]);
            }
        }
        assert forall|k: int, l: int| 0 <= k < l < all.len() implies all[k] < all[l] by {
            assert(all[k] == earlier[k]);
            if l < earlier.len() {
                assert(all[l] == earlier[l]);
            }
        }
        assert forall|at: int| 0 <= at < targets.len() && is_due(
            #[trigger] targets[at],
            changes,
        ) implies all.contains(at) by {
            if at < rest.len() {
                assert(rest[at] == targets[at]);
                let k = choose|k: int| 0 <= k < earlier.len() && earlier[k] == at;
                assert(all[k] == at);
            } else {
                assert(all[all.len() - 1] == at);
            }
        }
    }
}

/// Where no group is new or updated, nobody is told anything: no target is
/// due and no chat gets a message.
pub proof fn law_no_news_no_messages(targets: Seq<Notifiable>, changes: Map<Seq<char>, ChangeKind>)
    requires
        !has_news(changes),
    ensures
        due_positions(targets, changes).len() == 0,
        due_chats(targets, changes) == 0,
    decreases targets.len(),
{
    if targets.len() > 0 {
        law_no_news_no_messages(targets.drop_last(), changes);
        let name = targets.last().group@;
        if changes.contains_key(name) {
            assert(!is_news(changes[name]));
        }
    }
}

/// Polling the same state twice tells nobody anything: against itself a
/// state has no news, so no target is due and no chat gets a message.
pub proof fn law_same_state_sends_nothing(
    targets: Seq<Notifiable>,
    state: Map<Seq<char>, Seq<char>>,
)
    ensures
        due_positions(targets, detected(state, Some(state))).len() == 0,
        due_chats(targets, detected(state, Some(state))) == 0,
{
    law_same_state_brings_no_news(state);
    law_no_news_no_messages(targets, detected(state, Some(state)));
}

/// Whether `notice` is the announcement for `target`: the same group, the
/// same chats, and as its body the group's day where the snapshot has one,
/// and else the note that asks for the weekly timetable.
pub open spec fn announces_target(
    notice: Notice,
    target: Notifiable,
    snapshot: Snapshot,
    emoji: Seq<char>,
    today: int,
) -> bool {
    &&& notice.group@ == target.group@
    &&& notice.user_ids@ == target.user_ids@
    &&& match group_index(snapshot.groups@, target.group@) {
        Some(at) => notice.body matches NoticeBody::Ready(text) && text@ == group_text(
            emoji,
            snapshot.groups@[at],
            snapshot.uid@,
            snapshot.date@,
            snapshot.date@.timestamp == today,
        ),
        None => notice.body matches NoticeBody::NeedsDefault(note) && note@ == missing_note(
            target.group@,
            snapshot.uid@,
        ),
    }
}

/// A copy of a list of chats.
fn copy_ids(ids: &Vec<i64>) -> (copy: Vec<i64>)
    ensures
        copy@ == ids@,
{
    let mut copy: Vec<i64> = Vec::new();
    let mut i: usize = 0;
    while i < ids.len()
        invariant
            i <= ids@.len(),
            copy@ == ids@.take(i as int),
        decreases ids@.len() - i,
    {
        copy.push(ids[i]);
        proof {
            assert(ids@.take(i as int).push(ids@[i as int]) =~= ids@.take(i as int + 1));
        }
        i = i + 1;
    }
    proof {
        assert(ids@.take(i as int) =~= ids@);
    }
    copy
}

/// Whether `notice` is the announcement for `target` with one of the
/// pictures at the head of its body.
pub open spec fn announces_with_a_picture(
    notice: Notice,
    target: Notifiable,
    snapshot: Snapshot,
    today: int,
) -> bool {
    exists|index: int|
        0 <= index < EMOJI_COUNT && announces_target(
            notice,
            target,
            snapshot,
            #[trigger] emoji_text(index),
            today,
        )
}

/// Writes the announcement for one target, with `emoji` at the head of its
/// body: the group's day where the snapshot has one, and else the note
/// that asks for the weekly timetable.
pub fn announce(snapshot: &Snapshot, target: &Notifiable, emoji: &str, today: i64) -> (notice:
    Notice)
    ensures
        announces_target(notice, *target, *snapshot, emoji@, today as int),
{
    let body = match snapshot.format_group(emoji, &target.group, today) {
        Ok(text) => NoticeBody::Ready(text),
        Err(note) => NoticeBody::NeedsDefault(note),
    };
    Notice { group: target.group.clone(), user_ids: copy_ids(&target.user_ids), body }
}

/// Plans the announcements of one snapshot.
///
/// `store` is what the settings store answered when asked for the targets.
/// Its failure ends the cycle with that error. Else every target whose
/// group is new or updated gets one announcement, in the order of the
/// targets; a target whose group is unchanged, unknown or not among the
/// changes gets none. A group that the snapshot lacks is announced all the
/// same, with the note that asks for the weekly timetable. Each body is
/// headed by a picture that is drawn for it at random.
pub fn notify_update(
    snapshot: &Snapshot,
    changes: &NameMap<ChangeKind>,
    store: Result<Vec<Notifiable>, BotError>,
    today: i64,
) -> (plan: Result<Vec<Notice>, BotError>)
    ensures
        match store {
            Err(failure) => plan == Err::<Vec<Notice>, BotError>(failure),
            Ok(targets) => {
                &&& plan matches Ok(notices)
                &&& notices@.len() == due_positions(targets@, changes@).len()
                &&& forall|k: int|
                    0 <= k < notices@.len() ==> announces_with_a_picture(
                        #[trigger] notices@[k],
                        targets@[due_positions(targets@, changes@)[k]],
                        *snapshot,
                        today as int,
                    )
            },
        },
{
    let targets = match store {
        Ok(targets) => targets,
        Err(failure) => { return Err(failure); },
    };
    let mut notices: Vec<Notice> = Vec::new();
    let mut i: usize = 0;
    while i < targets.len()
        invariant
            i <= targets@.len(),
            notices@.len() == due_positions(targets@.take(i as int), changes@).len(),
            forall|k: int|
                0 <= k < notices@.len() ==> announces_with_a_picture(
                    #[trigger] notices@[k],
                    targets@[due_positions(targets@.take(i as int), changes@)[k]],
                    *snapshot,
                    today as int,
                ),
        decreases targets@.len() - i,
    {
        let target = &targets[i];
        proof {
            let longer = targets@.take(i as int + 1);
            assert(longer.drop_last() =~= targets@.take(i as int));
            assert(longer.last() == targets@[i as int]);
        }
        if kind_of(changes, &target.group).is_news() {
            let picture = random_emoji();
            let notice = announce(snapshot, target, picture, today);
            proof {
                let index = choose|index: int|
                    0 <= index < EMOJI_COUNT && picture@ == emoji_text(index);
                assert(announces_target(
                    notice,
                    *target,
                    *snapshot,
                    emoji_text(index),
                    today as int,
                ));
            }
            notices.push(notice);
        }
        i = i + 1;
    }
    proof {
        assert(targets@.take(i as int) =~= targets@);
    }
    Ok(notices)
}

} // verus!
