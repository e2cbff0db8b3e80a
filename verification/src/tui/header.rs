//! The header: how many hosts answer, and which sessions are open.

use vstd::prelude::*;

use crate::app::{Session, SessionPhase};

verus! {

/// How a host answers.
#[derive(Debug, Clone, Copy, PartialEq, Eq, Structural)]
pub enum PingClass {
    Online,
    Slow,
    Unreachable,
    Unknown,
}

/// How many hosts answer in a way.
pub open spec fn how_many(classes: Seq<PingClass>, class: PingClass) -> nat
    decreases classes.len(),
{
    if classes.len() == 0 {
        0
    } else {
        how_many(classes.drop_last(), class) + (if classes.last() == class {
            1nat
        } else {
            0nat
        })
    }
}

/// Count the hosts: all of them, those that answer, those that answer slowly and
/// those that cannot be reached. Of the rest nothing is known yet.
pub fn compute_header_stats(classes: &Vec<PingClass>) -> (r: [usize; 4])
    ensures
        r@.len() == 4,
        r@[0] == classes@.len(),
        r@[1] == how_many(classes@, PingClass::Online),
        r@[2] == how_many(classes@, PingClass::Slow),
        r@[3] == how_many(classes@, PingClass::Unreachable),
        forall|i: int| 0 <= i < 4 ==> (#[trigger] r@[i]) == header_numbers(classes@)[i],
{
    let mut online: usize = 0;
    let mut slow: usize = 0;
    let mut down: usize = 0;
    let mut i: usize = 0;
    while i < classes.len()
        invariant
            i <= classes@.len(),
            online == how_many(classes@.take(i as int), PingClass::Online),
            slow == how_many(classes@.take(i as int), PingClass::Slow),
            down == how_many(classes@.take(i as int), PingClass::Unreachable),
            online + slow + down <= i,
        decreases classes@.len() - i,
    {
        assert(classes@.take(i + 1).drop_last() =~= classes@.take(i as int));
        assert(classes@.take(i + 1).last() == classes@[i as int]);
        match classes[i] {
            PingClass::Online => {
                online = online + 1;
            },
            PingClass::Slow => {
                slow = slow + 1;
            },
            PingClass::Unreachable => {
                down = down + 1;
            },
            PingClass::Unknown => {},
        }
        i = i + 1;
    }
    assert(classes@.take(i as int) =~= classes@);
    [classes.len(), online, slow, down]
}

/// No host is counted in two ways, and each is counted in one.
pub proof fn law_header_counts_add_up(classes: Seq<PingClass>)
    ensures
        how_many(classes, PingClass::Online) + how_many(classes, PingClass::Slow) + how_many(
            classes,
            PingClass::Unreachable,
        ) + how_many(classes, PingClass::Unknown) == classes.len(),
    decreases classes.len(),
{
    if classes.len() > 0 {
        law_header_counts_add_up(classes.drop_last());
    }
}

/// An open session in the header.
#[derive(Debug)]
pub struct SessionChip {
    pub name: String,
    pub phase: SessionPhase,
    /// The session that the keys go to.
    pub active: bool,
}

/// The open sessions in the header, in their order.
pub fn build_session_chips(sessions: &Vec<Session>, active_session: Option<usize>) -> (r: Vec<
    SessionChip,
>)
    ensures
        r@.len() == sessions@.len(),
        forall|i: int|
            #![trigger r@[i]]
            0 <= i < sessions@.len() ==> {
                &&& r@[i].name == sessions@[i].display_name
                &&& r@[i].phase == sessions@[i].phase
                &&& r@[i].active == (active_session is Some && active_session->0 == i)
            },
        r@ == chips_of(sessions@, active_session),
{
    let mut r: Vec<SessionChip> = Vec::new();
    let mut i: usize = 0;
    while i < sessions.len()
        invariant
            i <= sessions@.len(),
            r@.len() == i,
            forall|k: int|
                #![trigger r@[k]]
                0 <= k < i ==> {
                    &&& r@[k].name == sessions@[k].display_name
                    &&& r@[k].phase == sessions@[k].phase
                    &&& r@[k].active == (active_session is Some && active_session->0 == k)
                },
        decreases sessions@.len() - i,
    {
        let active: bool = match active_session {
            Some(a) => a == i,
            None => false,
        };
        r.push(
            SessionChip {
                name: sessions[i].display_name.clone(),
                phase: sessions[i].phase,
                active,
            },
        );
        i = i + 1;
    }
    assert(r@ =~= chips_of(sessions@, active_session));
    r
}

/// One more host that answers in a way raises the count of that way by one, and no
/// other count; and in which order the hosts are counted makes no difference.
pub proof fn law_header_counts_each_host(
    classes: Seq<PingClass>,
    more: PingClass,
    class: PingClass,
    i: int,
)
    requires
        0 <= i <= classes.len(),
    ensures
        how_many(Seq::empty(), class) == 0,
        how_many(classes.insert(i, more), class) == how_many(classes, class) + (if more == class {
            1nat
        } else {
            0nat
        }),
    decreases classes.len() - i,
{
    if i == classes.len() {
        assert(classes.insert(i, more).drop_last() =~= classes);
    } else {
        law_header_counts_each_host(classes.drop_last(), more, class, i);
        assert(classes.insert(i, more).drop_last() =~= classes.drop_last().insert(i, more));
        assert(classes.insert(i, more).last() == classes.last());
    }
}

/// The numbers of the header: all hosts, those that answer, those that answer slowly
/// and those that cannot be reached.
pub open spec fn header_numbers(classes: Seq<PingClass>) -> Seq<int> {
    seq![
        classes.len() as int,
        how_many(classes, PingClass::Online) as int,
        how_many(classes, PingClass::Slow) as int,
        how_many(classes, PingClass::Unreachable) as int,
    ]
}

/// Where all hosts answer in the same way, the number of that way is the number of
/// hosts, and the others are zero. No number is ever larger than the first.
pub proof fn law_header_numbers(classes: Seq<PingClass>, class: PingClass)
    ensures
        (forall|i: int| 0 <= i < classes.len() ==> (#[trigger] classes[i]) == class) ==> {
            let n = classes.len() as int;
            &&& class == PingClass::Online ==> header_numbers(classes) == seq![n, n, 0, 0]
            &&& class == PingClass::Slow ==> header_numbers(classes) == seq![n, 0, n, 0]
            &&& class == PingClass::Unreachable ==> header_numbers(classes) == seq![n, 0, 0, n]
            &&& class == PingClass::Unknown ==> header_numbers(classes) == seq![n, 0, 0, 0]
        },
        header_numbers(classes)[1] + header_numbers(classes)[2] + header_numbers(classes)[3]
            <= header_numbers(classes)[0] == classes.len(),
    decreases classes.len(),
{
    law_header_counts_add_up(classes);
    if classes.len() > 0 {
        let rest = classes.drop_last();
        law_header_numbers(rest, class);
        if forall|i: int| 0 <= i < classes.len() ==> (#[trigger] classes[i]) == class {
            assert(forall|i: int| 0 <= i < rest.len() ==> (#[trigger] rest[i]) == classes[i]);
            assert(header_numbers(rest)[0] == rest.len());
            assert(header_numbers(rest)[1] == how_many(rest, PingClass::Online));
            assert(header_numbers(rest)[2] == how_many(rest, PingClass::Slow));
            assert(header_numbers(rest)[3] == how_many(rest, PingClass::Unreachable));
        }
    }
}

/// The open sessions as the header shows them.
pub open spec fn chips_of(sessions: Seq<Session>, active_session: Option<usize>) -> Seq<
    SessionChip,
> {
    Seq::new(
        sessions.len(),
        |i: int|
            SessionChip {
                name: sessions[i].display_name,
                phase: sessions[i].phase,
                active: active_session == Some(i as usize) && i <= usize::MAX,
            },
    )
}

/// The header has a chip for each open session, in the order of the sessions, with its
/// name and its phase; the chip of the session that the keys go to is the only one that
/// is active.
pub proof fn law_chips_follow_the_sessions(
    sessions: Seq<Session>,
    active_session: Option<usize>,
    i: int,
)
    requires
        sessions.len() <= usize::MAX,
        0 <= i < sessions.len(),
    ensures
        ({
            let chips = chips_of(sessions, active_session);
            &&& chips.len() == sessions.len()
            &&& chips[i].name == sessions[i].display_name
            &&& chips[i].phase == sessions[i].phase
            &&& chips[i].active <==> active_session is Some && active_session->0 as int == i
            &&& chips[i].active ==> forall|k: int|
                0 <= k < chips.len() && k != i ==> !(#[trigger] chips[k]).active
        }),
{
}

} // verus!
