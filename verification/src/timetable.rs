//! The timetable as the upstream service publishes it.

use crate::calendar::CalendarDay;
use vstd::prelude::*;

verus! {

/// Which of the two horizons is asked for.
#[derive(Clone, Copy, Debug, PartialEq, Eq, Structural)]
pub enum Fetch {
    Today,
    Next,
}

/// The place of a lesson in the day.
#[derive(Debug)]
pub enum Num {
    /// The lesson has a number of its own.
    Actual(String),
    /// The lesson goes on in the slot of the one before it.
    Previous,
}

/// One lesson of a group.
#[derive(Debug)]
pub struct Lesson {
    pub num: Num,
    pub name: String,
    pub subgroup: Option<u8>,
    pub teacher: Option<String>,
    pub classroom: Option<String>,
}

/// The lessons of one group on one day.
#[derive(Debug)]
pub struct Group {
    pub uid: String,
    pub name: String,
    pub lessons: Vec<Lesson>,
}

/// The timetable of one day.
#[derive(Debug)]
pub struct Snapshot {
    pub uid: String,
    pub date: CalendarDay,
    pub groups: Vec<Group>,
}

/// One lesson of a group's weekly timetable.
#[derive(Debug)]
pub struct DefaultLesson {
    pub num: u8,
    pub name: String,
    /// In which weeks the lesson takes place: in even ones, in odd ones,
    /// or, with `None`, in all.
    pub is_even: Option<bool>,
    pub subgroup: Option<u8>,
    pub teacher: Option<String>,
    pub classroom: Option<String>,
}

/// The weekly timetable of a group for one weekday.
#[derive(Debug)]
pub struct DefaultGroup {
    pub name: String,
    pub lessons: Vec<DefaultLesson>,
}

/// The position of the first group of `groups` that is called `name`.
pub open spec fn group_index(groups: Seq<Group>, name: Seq<char>) -> Option<int>
    decreases groups.len(),
{
    if groups.len() == 0 {
        None
    } else {
        match group_index(groups.drop_last(), name) {
            Some(at) => Some(at),
            None => if groups.last().name@ == name {
                Some(groups.len() - 1)
            } else {
                None
            },
        }
    }
}

/// The position that `group_index` finds holds the name, no earlier
/// position does, and no position at all does where it finds none.
pub proof fn lemma_group_index(groups: Seq<Group>, name: Seq<char>)
    ensures
        match group_index(groups, name) {
            Some(at) => {
                &&& 0 <= at < groups.len()
                &&& groups[at].name@ == name
                &&& forall|j: int| 0 <= j < at ==> (#[trigger] groups[j]).name@ != name
            },
            None => forall|j: int| 0 <= j < groups.len() ==> (#[trigger] groups[j]).name@ != name,
        },
    decreases groups.len(),
{
    if groups.len() > 0 {
        let rest = groups.drop_last();
        lemma_group_index(rest, name);
        match group_index(rest, name) {
            Some(at) => {
                assert(groups[at] == rest[at]);
                assert forall|j: int| 0 <= j < at implies (#[trigger] groups[j]).name@ != name by {
                    assert(groups[j] == rest[j]);
                }
            },
            None => {
                assert forall|j: int| 0 <= j < groups.len() - 1 implies (#[trigger] groups[j]).name@
                    != name by {
                    assert(groups[j] == rest[j]);
                }
            },
        }
    }
}

impl Snapshot {
    /// The first group that is called `name`.
    pub fn group(&self, name: &String) -> (found: Option<&Group>)
        ensures
            match found {
                Some(group) => group_index(self.groups@, name@) matches Some(at) && *group
                    == self.groups@[at],
                None => group_index(self.groups@, name@) is None,
            },
    {
        let mut i: usize = 0;
        while i < self.groups.len()
            invariant
                i <= self.groups@.len(),
                forall|j: int| 0 <= j < i ==> (#[trigger] self.groups@[j]).name@ != name@,
            decreases self.groups@.len() - i,
        {
            if self.groups[i].name == *name {
                proof {
                    lemma_group_index(self.groups@, name@);
                }
                return Some(&self.groups[i]);
            }
            i = i + 1;
        }
        proof {
            lemma_group_index(self.groups@, name@);
        }
        None
    }
}

} // verus!
