//! The admin policy: which users may ask the bot to shut down.

use vstd::prelude::*;

verus! {

/// Whether `user` may shut the bot down under the allow-list `admins`.
///
/// An empty list restricts nobody; a non-empty list admits its members only.
pub open spec fn authorized(admins: Seq<u64>, user: u64) -> bool {
    admins.len() == 0 || admins.contains(user)
}

/// The place of the first entry of an admin list that could not be read as
/// an identity; the length of the list when every entry could.
pub open spec fn first_malformed(entries: Seq<Option<u64>>) -> int
    decreases entries.len(),
{
    if entries.len() == 0 {
        0
    } else if entries[0] is None {
        0
    } else {
        1 + first_malformed(entries.drop_first())
    }
}

/// An entry of the configured admin list that is no user identity.
#[derive(Clone, Copy, Debug, PartialEq, Eq, Structural)]
pub struct MalformedAdmin {
    /// The entry's place in the list, counted from zero.
    pub index: usize,
}

/// The users allowed to shut the bot down, fixed once at startup.
#[derive(Clone, Debug, PartialEq, Eq)]
pub struct AdminPolicy {
    admins: Vec<u64>,
}

impl View for AdminPolicy {
    type V = Seq<u64>;

    closed spec fn view(&self) -> Seq<u64> {
        self.admins@
    }
}

impl AdminPolicy {
    /// A policy over the given identities, in the order given.
    pub fn new(admins: Vec<u64>) -> (policy: AdminPolicy)
        ensures
            policy@ == admins@,
    {
        AdminPolicy { admins }
    }

    /// A policy over a configured list whose entries have been read as
    /// identities; `None` marks an entry that could not be read as one.
    /// The first such entry makes the whole list unusable.
    pub fn from_entries(entries: &Vec<Option<u64>>) -> (policy: Result<AdminPolicy, MalformedAdmin>)
        ensures
            match policy {
                Ok(policy) => first_malformed(entries@) == entries@.len() && policy@
                    == entries@.map_values(|entry: Option<u64>| entry->0),
                Err(error) => error.index == first_malformed(entries@) && error.index
                    < entries@.len(),
            },
    {
        let mut admins: Vec<u64> = Vec::new();
        let mut i: usize = 0;
        assert(entries@.subrange(0, entries@.len() as int) =~= entries@);
        while i < entries.len()
            invariant
                i <= entries.len(),
                admins@ == entries@.subrange(0, i as int).map_values(
                    |entry: Option<u64>| entry->0,
                ),
                first_malformed(entries@) == i + first_malformed(
                    entries@.subrange(i as int, entries@.len() as int),
                ),
            decreases entries.len() - i,
        {
            let ghost rest = entries@.subrange(i as int, entries@.len() as int);
            assert(rest[0] == entries@[i as int]);
            assert(rest.drop_first() =~= entries@.subrange(i + 1, entries@.len() as int));
            match entries[i] {
                Some(id) => {
                    admins.push(id);
                    assert(entries@.subrange(0, i + 1) =~= entries@.subrange(0, i as int).push(
                        entries@[i as int],
                    ));
                    assert(admins@ =~= entries@.subrange(0, i + 1).map_values(
                        |entry: Option<u64>| entry->0,
                    ));
                },
                None => {
                    return Err(MalformedAdmin { index: i });
                },
            }
            i += 1;
        }
        assert(entries@.subrange(0, i as int) =~= entries@);
        Ok(AdminPolicy { admins })
    }

    /// True when no admin is configured, so that anyone may shut the bot
    /// down. A caller is expected to warn the operator about this at startup.
    pub fn is_unrestricted(&self) -> (open: bool)
        ensures
            open == (self@.len() == 0),
    {
        self.admins.len() == 0
    }

    /// Whether `user` may shut the bot down.
    pub fn is_authorized(&self, user: u64) -> (allowed: bool)
        ensures
            allowed == authorized(self@, user),
    {
        if self.admins.len() == 0 {
            return true;
        }
        let mut i: usize = 0;
        while i < self.admins.len()
            invariant
                i <= self.admins.len(),
                forall|j: int| 0 <= j < i ==> self.admins@[j] != user,
            decreases self.admins.len() - i,
        {
            if self.admins[i] == user {
                return true;
            }
            i += 1;
        }
        false
    }
}

/// What `first_malformed` finds: every entry before it is an identity, and
/// unless it is the length of the list, the entry at it is not.
pub proof fn lemma_first_malformed(entries: Seq<Option<u64>>)
    ensures
        0 <= first_malformed(entries) <= entries.len(),
        forall|j: int| 0 <= j < first_malformed(entries) ==> (#[trigger] entries[j]) is Some,
        first_malformed(entries) < entries.len() ==> entries[first_malformed(entries)] is None,
    decreases entries.len(),
{
    if entries.len() > 0 && entries[0] is Some {
        let rest = entries.drop_first();
        lemma_first_malformed(rest);
        assert forall|j: int| 0 <= j < first_malformed(entries) implies (
        #[trigger] entries[j]) is Some by {
            if j > 0 {
                assert(entries[j] == rest[j - 1]);
            }
        }
        if first_malformed(entries) < entries.len() {
            assert(entries[first_malformed(entries)] == rest[first_malformed(rest)]);
        }
    }
}

/// Under a non-empty allow-list nobody outside it is authorized, and its
/// members are; under an empty list everybody is.
pub proof fn lemma_allow_list(admins: Seq<u64>, user: u64)
    ensures
        admins.len() > 0 && !admins.contains(user) ==> !authorized(admins, user),
        admins.contains(user) ==> authorized(admins, user),
        admins.len() == 0 ==> authorized(admins, user),
{
}

} // verus!
