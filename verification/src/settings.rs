//! Per-chat settings and the notification targets derived from them.

use crate::error::BotError;
use vstd::prelude::*;
use vstd::string::StringExecFns;
use vstd::utf8::encode_utf8;

verus! {

/// The longest name of a group, in bytes.
pub const MAX_GROUP_BYTES: usize = 10;

/// What the bot remembers about one chat.
#[derive(Clone, Debug)]
pub struct Settings {
    pub id: i64,
    pub group: Option<String>,
    pub is_notifications_enabled: bool,
    /// When the chat was first seen, in milliseconds since the Unix epoch.
    pub joined: i64,
    pub teacher: Option<String>,
}

/// The chats that want to hear about one group.
#[derive(Debug)]
pub struct Notifiable {
    pub group: String,
    pub user_ids: Vec<i64>,
}

impl Notifiable {
    /// A target for `group` with `id` as its only chat.
    pub fn new(group: String, id: i64) -> (target: Notifiable)
        ensures
            target.group == group,
            target.user_ids@ == seq![id],
    {
        let mut user_ids: Vec<i64> = Vec::new();
        user_ids.push(id);
        Notifiable { group, user_ids }
    }
}

/// The number of a chat as the store keeps it: the same 64 bits, read as a
/// signed number.
pub open spec fn stored_id(id: u64) -> i64 {
    if id <= i64::MAX as u64 {
        id as i64
    } else {
        (id - 0x1_0000_0000_0000_0000) as i64
    }
}

/// The length of a text in bytes, as a string reports it.
pub open spec fn byte_length(text: Seq<char>) -> usize {
    encode_utf8(text).len() as usize
}

/// Whether a text will do as the name of a group: it is not empty and not
/// longer than ten bytes.
pub open spec fn valid_group_name(name: Seq<char>) -> bool {
    name.len() > 0 && byte_length(name) <= MAX_GROUP_BYTES
}

/// The error for a name that will not do for a group.
pub open spec fn is_bad_group_error(error: BotError) -> bool {
    &&& error matches BotError::InvalidCommandUsage { command, help, example }
    &&& command@ == "/set_group"@
    &&& help@ == "/set_group [группа: длина &lt; 10]"@
    &&& example@ == "/set_group Ир3-21"@
}

/// What the chat is told once its group is set.
pub open spec fn group_set_text(group: Seq<char>) -> Seq<char> {
    "Теперь твоя группа: <code>"@ + group + "</code>"@
}

/// What the chat is told once its teacher's name is set, or removed with
/// an empty name.
pub open spec fn teacher_set_text(name: Seq<char>) -> Seq<char> {
    if name.len() == 0 {
        "Имя удалено"@
    } else {
        "Имя: "@ + name
    }
}

/// A switch as text.
pub open spec fn switch_text(on: bool) -> Seq<char> {
    if on {
        "true"@
    } else {
        "false"@
    }
}

impl Settings {
    /// The settings of a chat that is seen for the first time at `joined`:
    /// no group, no teacher, no announcements.
    pub fn new(id: u64, joined: i64) -> (settings: Settings)
        ensures
            settings.id == stored_id(id),
            settings.group is None,
            settings.teacher is None,
            !settings.is_notifications_enabled,
            settings.joined == joined,
    {
        let stored: i64 = if id <= i64::MAX as u64 {
            id as i64
        } else {
            let low: u64 = id - 0x8000_0000_0000_0000;
            (low as i64) + i64::MIN
        };
        Settings { id: stored, group: None, is_notifications_enabled: false, joined, teacher: None }
    }

    /// The settings of a chat: those that the store holds for it, or new
    /// ones for a chat that the store does not know. The flag says whether
    /// they are new and have to be stored.
    pub fn found_or_new(found: Option<Settings>, id: u64, joined: i64) -> (result: (Settings, bool))
        ensures
            match found {
                Some(known) => result.0 == known && !result.1,
                None => {
                    &&& result.1
                    &&& result.0.id == stored_id(id)
                    &&& result.0.group is None
                    &&& result.0.teacher is None
                    &&& !result.0.is_notifications_enabled
                    &&& result.0.joined == joined
                },
            },
    {
        match found {
            Some(known) => (known, false),
            None => (Settings::new(id, joined), true),
        }
    }

    /// Switches the announcements on if they are off, and off if they are
    /// on. The reply says what they are now.
    pub fn toggle_notifications(&mut self) -> (reply: String)
        ensures
            final(self).is_notifications_enabled == !old(self).is_notifications_enabled,
            final(self).id == old(self).id,
            final(self).group == old(self).group,
            final(self).joined == old(self).joined,
            final(self).teacher == old(self).teacher,
            reply@ == switch_text(final(self).is_notifications_enabled),
    {
        self.is_notifications_enabled = !self.is_notifications_enabled;
        if self.is_notifications_enabled {
            String::from_str("true")
        } else {
            String::from_str("false")
        }
    }

    /// Sets the teacher whose lessons the chat asks for; an empty name
    /// removes it.
    pub fn set_teacher(&mut self, name: &String) -> (reply: String)
        ensures
            name@.len() == 0 ==> final(self).teacher is None,
            name@.len() > 0 ==> (final(self).teacher matches Some(kept) && kept@ == name@),
            final(self).id == old(self).id,
            final(self).group == old(self).group,
            final(self).joined == old(self).joined,
            final(self).is_notifications_enabled == old(self).is_notifications_enabled,
            reply@ == teacher_set_text(name@),
    {
        if name.as_str().is_empty() {
            self.teacher = None;
            String::from_str("Имя удалено")
        } else {
            self.teacher = Some(name.clone());
            let mut reply = String::from_str("Имя: ");
            reply.append(name.as_str());
            reply
        }
    }

    /// Makes `group` the chat's group and switches the announcements on.
    pub fn select_group(&mut self, group: &String) -> (reply: String)
        ensures
            final(self).group matches Some(kept) && kept@ == group@,
            final(self).is_notifications_enabled,
            final(self).id == old(self).id,
            final(self).joined == old(self).joined,
            final(self).teacher == old(self).teacher,
            reply@ == group_set_text(group@),
    {
        self.group = Some(group.clone());
        self.is_notifications_enabled = true;
        let mut reply = String::from_str("Теперь твоя группа: <code>");
        reply.append(group.as_str());
        reply.append("</code>");
        reply
    }

    /// Judges a name for a group before anything is read or changed: a
    /// name that is empty or longer than ten bytes is a wrong use of the
    /// command.
    pub fn check_group_name(group: &String) -> (verdict: Result<(), BotError>)
        ensures
            match verdict {
                Ok(_) => valid_group_name(group@),
                Err(error) => !valid_group_name(group@) && is_bad_group_error(error),
            },
    {
        if group.as_str().is_empty() || group.as_str().len() > MAX_GROUP_BYTES {
            Err(
                BotError::invalid_command(
                    "/set_group",
                    "/set_group [группа: длина &lt; 10]",
                    "/set_group Ир3-21",
                ),
            )
        } else {
            Ok(())
        }
    }

    /// Makes `group` the chat's group and switches the announcements on,
    /// if the name will do. An empty name, or one of more than ten bytes,
    /// is refused as a wrong use of the command and changes nothing.
    pub fn set_group(&mut self, group: &String) -> (reply: Result<String, BotError>)
        ensures
            match reply {
                Ok(text) => {
                    &&& valid_group_name(group@)
                    &&& final(self).group matches Some(kept) && kept@ == group@
                    &&& final(self).is_notifications_enabled
                    &&& final(self).id == old(self).id
                    &&& final(self).joined == old(self).joined
                    &&& final(self).teacher == old(self).teacher
                    &&& text@ == group_set_text(group@)
                },
                Err(error) => {
                    &&& !valid_group_name(group@)
                    &&& *final(self) == *old(self)
                    &&& is_bad_group_error(error)
                },
            },
    {
        match Settings::check_group_name(group) {
            Ok(_) => Ok(self.select_group(group)),
            Err(error) => Err(error),
        }
    }
}

/// The chats among `records` that have announcements switched on, in the
/// order of the records.
pub open spec fn enabled_ids(records: Seq<Settings>) -> Seq<i64>
    decreases records.len(),
{
    if records.len() == 0 {
        Seq::empty()
    } else if records.last().is_notifications_enabled {
        enabled_ids(records.drop_last()).push(records.last().id)
    } else {
        enabled_ids(records.drop_last())
    }
}

/// Lists every chat that has announcements switched on, whatever its
/// group.
pub fn fetch_all_notifiable_ids(records: &Vec<Settings>) -> (ids: Vec<i64>)
    ensures
        ids@ == enabled_ids(records@),
{
    let mut ids: Vec<i64> = Vec::new();
    let mut i: usize = 0;
    while i < records.len()
        invariant
            i <= records@.len(),
            ids@ == enabled_ids(records@.take(i as int)),
        decreases records@.len() - i,
    {
        proof {
            let longer = records@.take(i as int + 1);
            assert(longer.drop_last() =~= records@.take(i as int));
            assert(longer.last() == records@[i as int]);
        }
        if records[i].is_notifications_enabled {
            ids.push(records[i].id);
        }
        i = i + 1;
    }
    proof {
        assert(records@.take(i as int) =~= records@);
    }
    ids
}

/// Whether a record asks for notifications about a group.
pub open spec fn subscribes(record: Settings) -> bool {
    record.is_notifications_enabled && record.group is Some
}

/// Whether a record asks for notifications about the group `group`.
pub open spec fn subscribes_to(record: Settings, group: Seq<char>) -> bool {
    subscribes(record) && record.group->0@ == group
}

/// The chats among `records` that subscribe to `group`, in the order of the
/// records.
pub open spec fn subscribers_of(records: Seq<Settings>, group: Seq<char>) -> Seq<i64>
    decreases records.len(),
{
    if records.len() == 0 {
        Seq::empty()
    } else if subscribes_to(records.last(), group) {
        subscribers_of(records.drop_last(), group).push(records.last().id)
    } else {
        subscribers_of(records.drop_last(), group)
    }
}

/// The groups that have a subscriber among `records`, each once, in the
/// order in which their first subscriber occurs.
pub open spec fn subscribed_groups(records: Seq<Settings>) -> Seq<Seq<char>>
    decreases records.len(),
{
    if records.len() == 0 {
        Seq::empty()
    } else {
        let earlier = subscribed_groups(records.drop_last());
        if subscribes(records.last()) && !earlier.contains(records.last().group->0@) {
            earlier.push(records.last().group->0@)
        } else {
            earlier
        }
    }
}

/// A group is among the subscribed groups exactly if it has a subscriber.
pub proof fn lemma_subscribed_groups(records: Seq<Settings>, group: Seq<char>)
    ensures
        subscribed_groups(records).contains(group) <==> subscribers_of(records, group).len() > 0,
        subscribed_groups(records).no_duplicates(),
    decreases records.len(),
{
    if records.len() > 0 {
        let rest = records.drop_last();
        let earlier = subscribed_groups(rest);
        lemma_subscribed_groups(rest, group);
        if subscribes(records.last()) {
            let last = records.last().group->0@;
            lemma_subscribed_groups(rest, last);
            if !earlier.contains(last) {
                let grown = earlier.push(last);
                assert(grown[earlier.len() as int] == last);
                assert forall|i: int| 0 <= i < earlier.len() implies grown[i] == earlier[i] by {}
                if earlier.contains(group) {
                    let i = choose|i: int| 0 <= i < earlier.len() && earlier[i] == group;
                    assert(grown[i] == group);
                }
                assert forall|i: int, j: int|
                    0 <= i < grown.len() && 0 <= j < grown.len() && i != j implies grown[i]
                    != grown[j] by {
                    if i == earlier.len() {
                        assert(earlier[j] == grown[j]);
                    } else if j == earlier.len() {
                        assert(earlier[i] == grown[i]);
                    }
                }
            }
        }
    }
}

/// No chat that asked for announcements is left out, and none is listed
/// under a group that it did not choose: a chat is among the subscribers
/// of a group exactly if one of the records is this chat's, has
/// announcements switched on and names the group.
pub proof fn law_every_subscriber_is_listed(records: Seq<Settings>, group: Seq<char>, id: i64)
    ensures
        subscribers_of(records, group).contains(id) <==> exists|i: int|
            0 <= i < records.len() && subscribes_to(#[trigger] records[i], group) && records[i].id
                == id,
    decreases records.len(),
{
    if records.len() > 0 {
        let rest = records.drop_last();
        let earlier = subscribers_of(rest, group);
        let all = subscribers_of(records, group);
        law_every_subscriber_is_listed(rest, group, id);
        if earlier.contains(id) {
            let i = choose|i: int|
                0 <= i < rest.len() && subscribes_to(#[trigger] rest[i], group) && rest[i].id == id;
            assert(records[i] == rest[i]);
            let k = choose|k: int| 0 <= k < earlier.len() && earlier[k] == id;
            assert(all[k] == id);
        }
        if subscribes_to(records.last(), group) && records.last().id == id {
            assert(all[all.len() - 1] == id);
            assert(records[records.len() - 1] == records.last());
        }
        if all.contains(id) && !earlier.contains(id) {
            let k = choose|k: int| 0 <= k < all.len() && all[k] == id;
            if subscribes_to(records.last(), group) {
                if k < earlier.len() {
                    assert(earlier[k] == id);
                }
                assert(records[records.len() - 1].id == id);
            }
        }
        if exists|i: int|
            0 <= i < records.len() && subscribes_to(#[trigger] records[i], group) && records[i].id
                == id {
            let i = choose|i: int|
                0 <= i < records.len() && subscribes_to(#[trigger] records[i], group) && records[i].id
                    == id;
            if i < rest.len() {
                assert(rest[i] == records[i]);
            }
        }
    }
}

/// Whether no two records belong to the same chat.
pub open spec fn distinct_chats(records: Seq<Settings>) -> bool {
    forall|i: int, j: int|
        0 <= i < j < records.len() ==> (#[trigger] records[i]).id != (#[trigger] records[j]).id
}

/// Where every chat has one record, no chat is told twice: a chat is
/// listed once among the subscribers of its group, and among those of no
/// other group.
pub proof fn law_no_chat_is_listed_twice(
    records: Seq<Settings>,
    group: Seq<char>,
    other: Seq<char>,
    id: i64,
)
    requires
        distinct_chats(records),
    ensures
        subscribers_of(records, group).no_duplicates(),
        group != other ==> !(subscribers_of(records, group).contains(id) && subscribers_of(
            records,
            other,
        ).contains(id)),
    decreases records.len(),
{
    law_every_subscriber_is_listed(records, group, id);
    law_every_subscriber_is_listed(records, other, id);
    if records.len() > 0 {
        let rest = records.drop_last();
        assert forall|i: int, j: int| 0 <= i < j < rest.len() implies (#[trigger] rest[i]).id != (
        #[trigger] rest[j]).id by {
            assert(rest[i] == records[i]);
            assert(rest[j] == records[j]);
        }
        law_no_chat_is_listed_twice(rest, group, other, id);
        let earlier = subscribers_of(rest, group);
        let all = subscribers_of(records, group);
        if subscribes_to(records.last(), group) {
            let last = records.last().id;
            law_every_subscriber_is_listed(rest, group, last);
            if earlier.contains(last) {
                let i = choose|i: int|
                    0 <= i < rest.len() && subscribes_to(#[trigger] rest[i], group) && rest[i].id
                        == last;
                assert(records[i] == rest[i]);
                assert(records[i].id == records[records.len() - 1].id);
            }
            assert forall|k: int, l: int| 0 <= k < all.len() && 0 <= l < all.len() && k
                != l implies all[k] != all[l] by {
                if k < earlier.len() && l < earlier.len() {
                    assert(earlier[k] == all[k]);
                    assert(earlier[l] == all[l]);
                } else if k < earlier.len() {
                    assert(earlier[k] == all[k]);
                } else if l < earlier.len() {
                    assert(earlier[l] == all[l]);
                }
            }
        }
    }
}

/// Whether `targets` is the grouping of the subscribers among `records`.
pub open spec fn is_grouping_of(targets: Seq<Notifiable>, records: Seq<Settings>) -> bool {
    &&& targets.len() == subscribed_groups(records).len()
    &&& forall|k: int|
        0 <= k < targets.len() ==> {
            &&& (#[trigger] targets[k]).group@ == subscribed_groups(records)[k]
            &&& targets[k].user_ids@ == subscribers_of(records, targets[k].group@)
        }
}

/// Groups the chats that enabled notifications by the group they chose.
///
/// Each group with at least one such chat gets one target, which lists the
/// chats in the order of the records; the targets stand in the order in
/// which their first chat occurs. Records without a group, or with
/// notifications switched off, are passed over.
pub fn notifiables(records: &Vec<Settings>) -> (targets: Vec<Notifiable>)
    ensures
        is_grouping_of(targets@, records@),
        forall|i: int, j: int|
            0 <= i < j < targets.len() ==> (#[trigger] targets[i]).group@ != (
            #[trigger] targets[j]).group@,
        forall|k: int| 0 <= k < targets.len() ==> (#[trigger] targets[k]).user_ids@.len() > 0,
{
    let mut targets: Vec<Notifiable> = Vec::new();
    let mut i: usize = 0;
    while i < records.len()
        invariant
            i <= records@.len(),
            is_grouping_of(targets@, records@.take(i as int)),
        decreases records@.len() - i,
    {
        let ghost seen = records@.take(i as int);
        let ghost more = records@.take(i as int + 1);
        let ghost before = targets@;
        proof {
            assert(more.drop_last() =~= seen);
            assert(more.last() == records@[i as int]);
        }
        let record = &records[i];
        if record.is_notifications_enabled {
            match &record.group {
                Some(group) => {
                    let mut at: usize = 0;
                    while at < targets.len() && targets[at].group != *group
                        invariant
                            at <= targets@.len(),
                            forall|k: int| 0 <= k < at ==> (#[trigger] targets@[k]).group@ != group@,
                        decreases targets@.len() - at,
                    {
                        at = at + 1;
                    }
                    proof {
                        lemma_subscribed_groups(seen, group@);
                        if at < targets@.len() {
                            assert(subscribed_groups(seen)[at as int] == group@);
                        } else {
                            if subscribed_groups(seen).contains(group@) {
                                let k = choose|k: int|
                                    0 <= k < subscribed_groups(seen).len() && subscribed_groups(
                                        seen,
                                    )[k] == group@;
                                assert(targets@[k].group@ == group@);
                            }
                        }
                    }
                    if at < targets.len() {
                        targets[at].user_ids.push(record.id);
                    } else {
                        targets.push(Notifiable::new(group.clone(), record.id));
                    }
                    proof {
                        lemma_subscribed_groups(seen, group@);
                        assert forall|k: int| 0 <= k < targets@.len() implies {
                            &&& (#[trigger] targets@[k]).group@ == subscribed_groups(more)[k]
                            &&& targets@[k].user_ids@ == subscribers_of(more, targets@[k].group@)
                        } by {
                            if k < before.len() {
                                assert(before[k].group@ == subscribed_groups(seen)[k]);
                                if k != at {
                                    lemma_subscribed_groups(seen, before[k].group@);
                                    assert(subscribed_groups(seen).no_duplicates());
                                }
                            }
                        }
                    }
                },
                None => {},
            }
        }
        i = i + 1;
    }
    proof {
        assert(records@.take(i as int) =~= records@);
        assert forall|i: int, j: int| 0 <= i < j < targets.len() implies (#[trigger] targets[i]).group@
            != (#[trigger] targets[j]).group@ by {
            lemma_subscribed_groups(records@, targets[i].group@);
        }
        assert forall|k: int| 0 <= k < targets.len() implies (#[trigger] targets[k]).user_ids@.len()
            > 0 by {
            lemma_subscribed_groups(records@, targets[k].group@);
            assert(subscribed_groups(records@)[k] == targets[k].group@);
        }
    }
    targets
}

} // verus!
