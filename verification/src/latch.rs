//! Named latches that open permanently once enough authorized votes
//! accumulate, the role store that gates threshold changes, and the
//! actor-synchronization side channel.
//!
//! A latch starts closed and opens on the vote that brings its count to
//! the threshold. No defined operation resets `is_open`: the transition
//! is one-way. Threshold changes require the caller to hold the `admin`
//! role; synchronization reports are deliberately unchecked.

use vstd::prelude::*;

use crate::error::ContractError;

verus! {

/// A gate that opens once enough participants have voted for it.
#[derive(Clone, Debug, PartialEq)]
pub struct Latch {
    pub id: String,
    /// Required vote count for the latch to open.
    pub threshold: u64,
    /// Current vote count; never decreases.
    pub votes: u64,
    /// Identities eligible to vote on this latch.
    pub participants: Vec<String>,
    /// Whether the latch has opened; never reset once true.
    pub is_open: bool,
}

/// Role assignments and per-latch actor synchronization state.
#[derive(Clone, Debug, PartialEq)]
pub struct Config {
    /// Identity to role label; only the literal `admin` label is checked.
    pub roles: Vec<(String, String)>,
    /// Latch id to the last actor-state string reported for it.
    pub latch_actors: Vec<(String, String)>,
}

/// Whether the keys of an association list are pairwise distinct.
pub open spec fn distinct_keys(s: Seq<(String, String)>) -> bool {
    forall|i: int, j: int| 0 <= i < j < s.len() ==> s[i].0@ != s[j].0@
}

/// Whether the association list has an entry under `k`.
pub open spec fn has_key(s: Seq<(String, String)>, k: Seq<char>) -> bool {
    exists|i: int| 0 <= i < s.len() && s[i].0@ == k
}

/// The index of the entry under `k`; meaningful when `has_key` holds.
pub open spec fn key_index(s: Seq<(String, String)>, k: Seq<char>) -> int {
    choose|i: int| 0 <= i < s.len() && s[i].0@ == k
}

/// The value stored under `k`; meaningful when `has_key` holds.
pub open spec fn value_of(s: Seq<(String, String)>, k: Seq<char>) -> Seq<char> {
    s[key_index(s, k)].1@
}

/// Whether all latch ids in the registry are pairwise distinct.
pub open spec fn distinct_ids(s: Seq<Latch>) -> bool {
    forall|i: int, j: int| 0 <= i < j < s.len() ==> s[i].id@ != s[j].id@
}

/// Whether the registry holds a latch with the given id.
pub open spec fn has_latch(s: Seq<Latch>, id: Seq<char>) -> bool {
    exists|i: int| 0 <= i < s.len() && s[i].id@ == id
}

/// The index of the latch with the given id; meaningful when `has_latch`
/// holds.
pub open spec fn latch_index(s: Seq<Latch>, id: Seq<char>) -> int {
    choose|i: int| 0 <= i < s.len() && s[i].id@ == id
}

impl Latch {
    /// Whether `who` is in the participant list.
    pub open spec fn is_participant(self, who: Seq<char>) -> bool {
        exists|i: int| 0 <= i < self.participants@.len() && self.participants@[i]@ == who
    }

    /// The latch after one accepted vote: the count grows by one, and the
    /// latch opens when the count reaches the threshold. An open latch
    /// stays open.
    pub open spec fn voted(self) -> Latch {
        Latch {
            id: self.id,
            threshold: self.threshold,
            votes: (self.votes + 1) as u64,
            participants: self.participants,
            is_open: self.is_open || self.votes + 1 >= self.threshold,
        }
    }

    /// The latch with its threshold overwritten. The vote count and the
    /// open flag are untouched: a latch whose count already meets a
    /// lowered threshold does not retroactively open.
    pub open spec fn with_threshold(self, t: u64) -> Latch {
        Latch {
            id: self.id,
            threshold: t,
            votes: self.votes,
            participants: self.participants,
            is_open: self.is_open,
        }
    }
}

impl Config {
    /// Both association lists carry distinct keys.
    pub open spec fn wf(self) -> bool {
        &&& distinct_keys(self.roles@)
        &&& distinct_keys(self.latch_actors@)
    }

    /// Whether `who` holds the `admin` role.
    pub open spec fn is_admin(self, who: Seq<char>) -> bool {
        has_key(self.roles@, who) && value_of(self.roles@, who) == "admin"@
    }
}

/// The error a latch vote is rejected with, or `None` when it is
/// accepted: the latch must exist and the caller must be a participant.
pub open spec fn vote_outcome(s: Seq<Latch>, id: Seq<char>, caller: Seq<char>) -> Option<
    ContractError,
> {
    if !has_latch(s, id) {
        Some(ContractError::LatchNotFound)
    } else if !s[latch_index(s, id)].is_participant(caller) {
        Some(ContractError::UnauthorizedParticipant)
    } else {
        None
    }
}

/// The error a threshold change is rejected with, or `None` when it is
/// accepted: the latch must exist and the caller must hold the `admin`
/// role.
pub open spec fn update_threshold_outcome(
    s: Seq<Latch>,
    id: Seq<char>,
    config: Config,
    caller: Seq<char>,
) -> Option<ContractError> {
    if !has_latch(s, id) {
        Some(ContractError::LatchNotFound)
    } else if !config.is_admin(caller) {
        Some(ContractError::Unauthorized)
    } else {
        None
    }
}

/// How the registry relates to its prior state after `create_latch`.
pub open spec fn create_latch_post(
    pre: Seq<Latch>,
    post: Seq<Latch>,
    id: String,
    threshold: u64,
    participants: Vec<String>,
) -> bool {
    let l = Latch { id, threshold, votes: 0, participants, is_open: false };
    &&& has_latch(post, id@)
    &&& if has_latch(pre, id@) {
        post == pre.update(latch_index(pre, id@), l)
    } else {
        post == pre.push(l)
    }
}

/// How the registry and the result of `vote` relate to the prior state.
pub open spec fn vote_post(
    pre: Seq<Latch>,
    post: Seq<Latch>,
    id: Seq<char>,
    caller: Seq<char>,
    r: Result<bool, ContractError>,
) -> bool {
    match vote_outcome(pre, id, caller) {
        Some(e) => r == Err::<bool, ContractError>(e) && post == pre,
        None => {
            let i = latch_index(pre, id);
            &&& r == Ok::<bool, ContractError>(pre[i].voted().is_open)
            &&& post == pre.update(i, pre[i].voted())
        },
    }
}

/// How the registry and the result of `update_threshold` relate to the
/// prior state.
pub open spec fn update_threshold_post(
    pre: Seq<Latch>,
    post: Seq<Latch>,
    id: Seq<char>,
    config: Config,
    new_threshold: u64,
    caller: Seq<char>,
    r: Result<(), ContractError>,
) -> bool {
    match update_threshold_outcome(pre, id, config, caller) {
        Some(e) => r == Err::<(), ContractError>(e) && post == pre,
        None => {
            let i = latch_index(pre, id);
            &&& r == Ok::<(), ContractError>(())
            &&& post == pre.update(i, pre[i].with_threshold(new_threshold))
        },
    }
}

/// How the configuration relates to its prior state after `sync_latch`.
pub open spec fn sync_latch_post(pre: Config, post: Config, latch_id: String, actor_state: String) -> bool {
    &&& post.roles@ == pre.roles@
    &&& has_key(post.latch_actors@, latch_id@)
    &&& value_of(post.latch_actors@, latch_id@) == actor_state@
    &&& if has_key(pre.latch_actors@, latch_id@) {
        post.latch_actors@ == pre.latch_actors@.update(
            key_index(pre.latch_actors@, latch_id@),
            (latch_id, actor_state),
        )
    } else {
        post.latch_actors@ == pre.latch_actors@.push((latch_id, actor_state))
    }
}

/// A latch that has opened never closes: neither a further vote nor a
/// threshold change resets `is_open`, and a vote opens the latch the
/// moment the count reaches the threshold.
pub proof fn lemma_latch_open_is_monotonic(l: Latch, new_threshold: u64)
    ensures
        l.is_open ==> l.voted().is_open,
        l.is_open ==> l.with_threshold(new_threshold).is_open,
        l.votes + 1 >= l.threshold ==> l.voted().is_open,
        l.with_threshold(new_threshold).votes == l.votes,
        l.votes < u64::MAX ==> l.voted().votes == l.votes + 1,
{
}

proof fn lemma_latch_index_of(s: Seq<Latch>, id: Seq<char>, i: int)
    requires
        distinct_ids(s),
        0 <= i < s.len(),
        s[i].id@ == id,
    ensures
        has_latch(s, id),
        latch_index(s, id) == i,
{
    assert(has_latch(s, id));
    let j = latch_index(s, id);
    assert(0 <= j < s.len() && s[j].id@ == id);
    if i < j {
        assert(s[i].id@ != s[j].id@);
    } else if j < i {
        assert(s[j].id@ != s[i].id@);
    }
}

proof fn lemma_key_index_of(s: Seq<(String, String)>, k: Seq<char>, i: int)
    requires
        distinct_keys(s),
        0 <= i < s.len(),
        s[i].0@ == k,
    ensures
        has_key(s, k),
        key_index(s, k) == i,
{
    assert(has_key(s, k));
    let j = key_index(s, k);
    assert(0 <= j < s.len() && s[j].0@ == k);
    if i < j {
        assert(s[i].0@ != s[j].0@);
    } else if j < i {
        assert(s[j].0@ != s[i].0@);
    }
}

/// The index of the latch with the given id, when one exists.
fn find_latch(latches: &Vec<Latch>, id: &String) -> (r: Option<usize>)
    ensures
        (match r {
            Some(i) => i < latches@.len() && latches@[i as int].id@ == id@,
            None => !has_latch(latches@, id@),
        }),
{
    let n: usize = latches.len();
    let mut i: usize = 0;
    while i < n
        invariant
            i <= n,
            n == latches@.len(),
            forall|k: int| 0 <= k < i ==> latches@[k].id@ != id@,
        decreases n - i,
    {
        if latches[i].id == *id {
            return Some(i);
        }
        i = i + 1;
    }
    None
}

/// The index of the association-list entry under `key`, when one exists.
fn find_key(entries: &Vec<(String, String)>, key: &String) -> (r: Option<usize>)
    ensures
        (match r {
            Some(i) => i < entries@.len() && entries@[i as int].0@ == key@,
            None => !has_key(entries@, key@),
        }),
{
    let n: usize = entries.len();
    let mut i: usize = 0;
    while i < n
        invariant
            i <= n,
            n == entries@.len(),
            forall|k: int| 0 <= k < i ==> entries@[k].0@ != key@,
        decreases n - i,
    {
        if entries[i].0 == *key {
            return Some(i);
        }
        i = i + 1;
    }
    None
}

/// Whether `who` occurs in the participant list.
fn contains_participant(participants: &Vec<String>, who: &String) -> (r: bool)
    ensures
        r == (exists|i: int| 0 <= i < participants@.len() && participants@[i]@ == who@),
{
    let n: usize = participants.len();
    let mut i: usize = 0;
    while i < n
        invariant
            i <= n,
            n == participants@.len(),
            forall|k: int| 0 <= k < i ==> participants@[k]@ != who@,
        decreases n - i,
    {
        if participants[i] == *who {
            proof {
                assert(participants@[i as int]@ == who@);
            }
            return true;
        }
        i = i + 1;
    }
    false
}

/// The role label stored for `who`, when one exists.
fn lookup_role<'a>(config: &'a Config, who: &String) -> (r: Option<&'a String>)
    requires
        distinct_keys(config.roles@),
    ensures
        (match r {
            Some(v) => has_key(config.roles@, who@) && v@ == value_of(config.roles@, who@),
            None => !has_key(config.roles@, who@),
        }),
{
    match find_key(&config.roles, who) {
        Some(i) => {
            proof {
                lemma_key_index_of(config.roles@, who@, i as int);
            }
            Some(&config.roles[i].1)
        },
        None => None,
    }
}

/// Creates a latch with the given id, threshold and participant list,
/// closed and with zero votes. An existing latch under the same id is
/// overwritten without an existence check.
pub fn create_latch(latches: &mut Vec<Latch>, id: String, threshold: u64, participants: Vec<String>)
    requires
        distinct_ids(old(latches)@),
    ensures
        distinct_ids(final(latches)@),
        create_latch_post(old(latches)@, final(latches)@, id, threshold, participants),
{
    let latch = Latch { id: id.clone(), threshold, votes: 0, participants, is_open: false };
    let ghost pre = latches@;
    match find_latch(latches, &id) {
        Some(i) => {
            proof {
                lemma_latch_index_of(pre, id@, i as int);
            }
            latches[i] = latch;
            proof {
                lemma_latch_index_of(latches@, id@, i as int);
            }
        },
        None => {
            latches.push(latch);
            proof {
                lemma_latch_index_of(latches@, id@, pre.len() as int);
            }
        },
    }
}

/// Casts a vote on a latch. The latch must exist and the caller must be
/// in its participant list; there is no per-caller duplicate-vote
/// protection, so a participant may vote on every call. The vote
/// increments the count, opens the latch once the count reaches the
/// threshold, and reports the resulting open flag.
pub fn vote(latches: &mut Vec<Latch>, latch_id: &String, sender: &String) -> (r: Result<
    bool,
    ContractError,
>)
    requires
        distinct_ids(old(latches)@),
        vote_outcome(old(latches)@, latch_id@, sender@) is None ==> old(latches)@[latch_index(
            old(latches)@,
            latch_id@,
        )].votes < u64::MAX,
    ensures
        distinct_ids(final(latches)@),
        vote_post(old(latches)@, final(latches)@, latch_id@, sender@, r),
        (has_latch(old(latches)@, latch_id@) && !old(latches)@[latch_index(
            old(latches)@,
            latch_id@,
        )].is_participant(sender@)) ==> r == Err::<bool, ContractError>(
            ContractError::UnauthorizedParticipant,
        ) && final(latches)@ == old(latches)@,
        forall|k: int|
            0 <= k < old(latches)@.len() && old(latches)@[k].is_open ==> final(latches)@[k].is_open,
{
    match find_latch(latches, latch_id) {
        None => Err(ContractError::LatchNotFound),
        Some(i) => {
            proof {
                lemma_latch_index_of(latches@, latch_id@, i as int);
            }
            if !contains_participant(&latches[i].participants, sender) {
                Err(ContractError::UnauthorizedParticipant)
            } else {
                let ghost pre = latches@;
                let new_votes: u64 = latches[i].votes + 1;
                latches[i].votes = new_votes;
                if new_votes >= latches[i].threshold {
                    latches[i].is_open = true;
                }
                proof {
                    assert(latches@ =~= pre.update(i as int, pre[i as int].voted()));
                }
                let open = latches[i].is_open;
                Ok(open)
            }
        },
    }
}

/// Overwrites a latch's required vote count. The latch must exist and
/// the caller must hold the `admin` role. The open flag is not
/// re-evaluated against the new threshold: an open latch stays open, and
/// a closed latch whose count already meets a lowered threshold opens
/// only on the next vote.
pub fn update_threshold(
    latches: &mut Vec<Latch>,
    config: &Config,
    latch_id: &String,
    new_threshold: u64,
    sender: &String,
) -> (r: Result<(), ContractError>)
    requires
        distinct_ids(old(latches)@),
        config.wf(),
    ensures
        distinct_ids(final(latches)@),
        update_threshold_post(
            old(latches)@,
            final(latches)@,
            latch_id@,
            *config,
            new_threshold,
            sender@,
            r,
        ),
        (has_latch(old(latches)@, latch_id@) && !config.is_admin(sender@)) ==> r == Err::<
            (),
            ContractError,
        >(ContractError::Unauthorized) && final(latches)@ == old(latches)@,
        final(latches)@.len() == old(latches)@.len(),
        forall|k: int|
            0 <= k < old(latches)@.len() ==> final(latches)@[k].is_open == old(latches)@[k].is_open && final(latches)@[k].votes == old(latches)@[k].votes,
{
    match find_latch(latches, latch_id) {
        None => Err(ContractError::LatchNotFound),
        Some(i) => {
            proof {
                lemma_latch_index_of(latches@, latch_id@, i as int);
            }
            let admin_label: String = "admin".to_owned();
            let is_adm: bool = match lookup_role(config, sender) {
                Some(v) => *v == admin_label,
                None => false,
            };
            if !is_adm {
                Err(ContractError::Unauthorized)
            } else {
                let ghost pre = latches@;
                latches[i].threshold = new_threshold;
                proof {
                    assert(latches@ =~= pre.update(
                        i as int,
                        pre[i as int].with_threshold(new_threshold),
                    ));
                }
                Ok(())
            }
        },
    }
}

/// Records the actor-state string reported for a latch id,
/// unconditionally: no authorization check, and no existence check
/// against the latch registry. An earlier report under the same id is
/// overwritten.
pub fn sync_latch(config: &mut Config, latch_id: String, actor_state: String)
    requires
        old(config).wf(),
    ensures
        final(config).wf(),
        sync_latch_post(*old(config), *final(config), latch_id, actor_state),
{
    let ghost pre = config.latch_actors@;
    match find_key(&config.latch_actors, &latch_id) {
        Some(i) => {
            proof {
                lemma_key_index_of(pre, latch_id@, i as int);
            }
            config.latch_actors[i] = (latch_id, actor_state);
            proof {
                lemma_key_index_of(config.latch_actors@, latch_id@, i as int);
            }
        },
        None => {
            config.latch_actors.push((latch_id, actor_state));
            proof {
                lemma_key_index_of(config.latch_actors@, latch_id@, pre.len() as int);
            }
        },
    }
}

/// Builds the initial configuration: the given identity holds the
/// `admin` role, no actor state is recorded, and no further role is
/// assigned by any defined operation.
pub fn init_contract(admin: String) -> (c: Config)
    ensures
        c.wf(),
        c.roles@.len() == 1,
        c.roles@[0].0 == admin,
        c.roles@[0].1@ == "admin"@,
        c.is_admin(admin@),
        c.latch_actors@.len() == 0,
{
    let mut roles: Vec<(String, String)> = Vec::new();
    roles.push((admin, "admin".to_owned()));
    let c = Config { roles, latch_actors: Vec::new() };
    proof {
        lemma_key_index_of(c.roles@, c.roles@[0].0@, 0);
    }
    c
}

} // verus!
