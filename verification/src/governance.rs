//! Collective access gated by time-boxed threshold voting.
//!
//! A research proposal opens a fourteen-day voting window. Each voter may
//! cast exactly one vote per proposal: the vote record's existence is the
//! sole double-vote guard, and the tally update and the vote record are one
//! logical transaction — both happen or neither. A proposal executes once,
//! when it has reached the vote threshold with a strict majority inside its
//! window; an executed proposal is approved and grants its researcher
//! access.

use vstd::prelude::*;

use crate::errors::AccessError;
use crate::MAX_METADATA_LENGTH;
use crate::MIN_RESEARCH_VOTES;
use crate::RESEARCH_PROPOSAL_DURATION;
use crate::valid_time;

verus! {

/// A collective-access request gated by threshold voting.
pub struct ResearchProposal {
    /// Unique proposal id.
    pub proposal_id: u64,
    /// Researcher requesting access.
    pub researcher: u64,
    /// Topic of the proposed research.
    pub research_topic: Vec<u8>,
    /// Number of yes votes.
    pub yes_votes: u64,
    /// Number of no votes.
    pub no_votes: u64,
    /// Number of distinct voters; always `yes_votes + no_votes`.
    pub total_voters: u64,
    /// Time the proposal was created.
    pub created_at: i64,
    /// End of the voting window, fourteen days after creation.
    pub expires_at: i64,
    /// Whether the proposal has been executed.
    pub is_executed: bool,
    /// Whether the proposal passed; set exactly by execution.
    pub is_approved: bool,
}

/// One voter's vote on one proposal; its existence is the double-vote
/// guard.
pub struct ResearchVote {
    /// Proposal being voted on.
    pub proposal_id: u64,
    /// The voter.
    pub voter: u64,
    /// The choice: true for yes.
    pub vote: bool,
    /// Time the vote was cast.
    pub voted_at: i64,
}

impl ResearchProposal {
    /// Structural soundness: a capped topic, a consistent tally, and a
    /// window exactly one proposal duration long.
    pub open spec fn wf(self) -> bool {
        &&& self.research_topic@.len() <= MAX_METADATA_LENGTH
        &&& self.yes_votes + self.no_votes == self.total_voters
        &&& 0 <= self.created_at
        &&& self.expires_at == self.created_at + RESEARCH_PROPOSAL_DURATION
    }

    /// Create a proposal with zeroed counters and a window of one proposal
    /// duration. Fails exactly when the topic is over its byte cap.
    pub fn new(proposal_id: u64, researcher: u64, research_topic: Vec<u8>, now: i64) -> (r: Result<
        ResearchProposal,
        AccessError,
    >)
        requires
            valid_time(now),
        ensures
            match r {
                Ok(p) => {
                    &&& research_topic@.len() <= MAX_METADATA_LENGTH
                    &&& p.proposal_id == proposal_id
                    &&& p.researcher == researcher
                    &&& p.research_topic@ == research_topic@
                    &&& p.yes_votes == 0
                    &&& p.no_votes == 0
                    &&& p.total_voters == 0
                    &&& p.created_at == now
                    &&& p.expires_at == now + RESEARCH_PROPOSAL_DURATION
                    &&& !p.is_executed
                    &&& !p.is_approved
                    &&& p.wf()
                },
                Err(e) => {
                    &&& e == AccessError::MetadataTooLong
                    &&& research_topic@.len() > MAX_METADATA_LENGTH
                },
            },
    {
        if research_topic.len() > MAX_METADATA_LENGTH {
            return Err(AccessError::MetadataTooLong);
        }
        Ok(
            ResearchProposal {
                proposal_id,
                researcher,
                research_topic,
                yes_votes: 0,
                no_votes: 0,
                total_voters: 0,
                created_at: now,
                expires_at: now + RESEARCH_PROPOSAL_DURATION,
                is_executed: false,
                is_approved: false,
            },
        )
    }

    /// The voting window has closed once the clock reaches the expiry.
    pub open spec fn spec_is_expired(self, now: i64) -> bool {
        now >= self.expires_at
    }

    /// Whether the voting window has closed.
    pub fn is_expired(&self, now: i64) -> (r: bool)
        ensures
            r == self.spec_is_expired(now),
    {
        now >= self.expires_at
    }

    /// A proposal may execute while it is unexecuted, inside its window,
    /// at or over the vote threshold, and with a strict yes majority.
    pub open spec fn spec_can_execute(self, now: i64) -> bool {
        &&& !self.is_executed
        &&& !self.spec_is_expired(now)
        &&& self.yes_votes >= MIN_RESEARCH_VOTES
        &&& self.yes_votes > self.no_votes
    }

    /// Whether the proposal may execute now.
    pub fn can_execute(&self, now: i64) -> (r: bool)
        ensures
            r == self.spec_can_execute(now),
    {
        !self.is_executed && !self.is_expired(now) && self.yes_votes >= MIN_RESEARCH_VOTES
            && self.yes_votes > self.no_votes
    }

    /// Why executing fails, if it does. The checks run in this order:
    /// already executed, window closed, threshold or majority missed.
    pub open spec fn spec_execute_error(self, now: i64) -> Option<AccessError> {
        if self.is_executed {
            Some(AccessError::ProposalAlreadyExecuted)
        } else if self.spec_is_expired(now) {
            Some(AccessError::ResearchProposalExpired)
        } else if !(self.yes_votes >= MIN_RESEARCH_VOTES && self.yes_votes > self.no_votes) {
            Some(AccessError::InsufficientResearchVotes)
        } else {
            None
        }
    }

    /// Execute the proposal, marking it executed and approved. Fails
    /// exactly when it may not execute, in particular with
    /// `ProposalAlreadyExecuted` on every call after the first; the
    /// proposal is untouched on failure.
    pub fn execute(&mut self, now: i64) -> (r: Result<(), AccessError>)
        ensures
            match r {
                Ok(()) => {
                    &&& old(self).spec_can_execute(now)
                    &&& *final(self) == (ResearchProposal {
                        is_executed: true,
                        is_approved: true,
                        ..*old(self)
                    })
                },
                Err(e) => {
                    &&& Some(e) == old(self).spec_execute_error(now)
                    &&& *final(self) == *old(self)
                },
            },
    {
        if self.is_executed {
            return Err(AccessError::ProposalAlreadyExecuted);
        }
        if self.is_expired(now) {
            return Err(AccessError::ResearchProposalExpired);
        }
        if !(self.yes_votes >= MIN_RESEARCH_VOTES && self.yes_votes > self.no_votes) {
            return Err(AccessError::InsufficientResearchVotes);
        }
        self.is_executed = true;
        self.is_approved = true;
        Ok(())
    }

    /// Add one vote to the tally. Fails exactly when the window has
    /// closed; the proposal is untouched on failure. (The per-voter guard
    /// and the vote record live in [`GovernanceStore`].)
    pub fn cast_vote(&mut self, vote: bool, now: i64) -> (r: Result<(), AccessError>)
        requires
            old(self).wf(),
            old(self).total_voters < u64::MAX,
        ensures
            final(self).wf(),
            match r {
                Ok(()) => {
                    &&& !old(self).spec_is_expired(now)
                    &&& *final(self) == (ResearchProposal {
                        yes_votes: if vote {
                            (old(self).yes_votes + 1) as u64
                        } else {
                            old(self).yes_votes
                        },
                        no_votes: if vote {
                            old(self).no_votes
                        } else {
                            (old(self).no_votes + 1) as u64
                        },
                        total_voters: (old(self).total_voters + 1) as u64,
                        ..*old(self)
                    })
                },
                Err(e) => {
                    &&& e == AccessError::ResearchProposalExpired
                    &&& old(self).spec_is_expired(now)
                    &&& *final(self) == *old(self)
                },
            },
    {
        if self.is_expired(now) {
            return Err(AccessError::ResearchProposalExpired);
        }
        if vote {
            self.yes_votes = self.yes_votes + 1;
        } else {
            self.no_votes = self.no_votes + 1;
        }
        self.total_voters = self.total_voters + 1;
        Ok(())
    }
}

/// The execution gate, stated on its own: a proposal short of the vote
/// threshold cannot execute; one that is unexecuted, inside its window, at
/// the threshold and with a strict majority executes; and an executed
/// proposal fails every further execution with `ProposalAlreadyExecuted`.
pub proof fn lemma_execute_threshold(p: ResearchProposal, now: i64)
    ensures
        p.yes_votes < MIN_RESEARCH_VOTES ==> !p.spec_can_execute(now),
        p.spec_can_execute(now) <==> p.spec_execute_error(now) is None,
        p.is_executed ==> p.spec_execute_error(now) == Some(
            AccessError::ProposalAlreadyExecuted,
        ),
{
}

/// Whether `v` is the vote of `voter` on proposal `pid`.
pub open spec fn vote_matches(v: ResearchVote, pid: u64, voter: u64) -> bool {
    v.proposal_id == pid && v.voter == voter
}

/// Whether `voter` has a recorded vote on proposal `pid`.
pub open spec fn has_voted(s: Seq<ResearchVote>, pid: u64, voter: u64) -> bool {
    exists|i: int| 0 <= i < s.len() && vote_matches(s[i], pid, voter)
}

/// Number of recorded votes on proposal `pid`.
pub open spec fn count_votes(s: Seq<ResearchVote>, pid: u64) -> nat
    decreases s.len(),
{
    if s.len() == 0 {
        0
    } else {
        count_votes(s.drop_last(), pid) + if s.last().proposal_id == pid {
            1nat
        } else {
            0nat
        }
    }
}

/// A proposal cannot have more recorded votes than there are vote records.
pub proof fn lemma_count_votes_le_len(s: Seq<ResearchVote>, pid: u64)
    ensures
        count_votes(s, pid) <= s.len(),
    decreases s.len(),
{
    if s.len() > 0 {
        lemma_count_votes_le_len(s.drop_last(), pid);
    }
}

/// Appending a vote record raises exactly its own proposal's count by one.
pub proof fn lemma_count_votes_push(s: Seq<ResearchVote>, pid: u64, v: ResearchVote)
    ensures
        count_votes(s.push(v), pid) == count_votes(s, pid) + if v.proposal_id == pid {
            1nat
        } else {
            0nat
        },
{
    assert(s.push(v).drop_last() =~= s);
    assert(s.push(v).last() == v);
}

/// A proposal no vote record names has a count of zero.
pub proof fn lemma_count_votes_absent(s: Seq<ResearchVote>, pid: u64)
    requires
        forall|i: int| 0 <= i < s.len() ==> (#[trigger] s[i]).proposal_id != pid,
    ensures
        count_votes(s, pid) == 0,
    decreases s.len(),
{
    if s.len() > 0 {
        lemma_count_votes_absent(s.drop_last(), pid);
    }
}

/// Whether `p` is the proposal stored under `pid`.
pub open spec fn proposal_matches(p: ResearchProposal, pid: u64) -> bool {
    p.proposal_id == pid
}

/// Whether some proposal under `pid` is stored in `s`.
pub open spec fn has_proposal(s: Seq<ResearchProposal>, pid: u64) -> bool {
    exists|i: int| 0 <= i < s.len() && proposal_matches(s[i], pid)
}

/// Why casting a vote on a found proposal fails, if it does: a closed
/// window wins, then the double-vote guard. The outcome does not depend on
/// the choice being cast.
pub open spec fn spec_vote_error(
    p: ResearchProposal,
    votes: Seq<ResearchVote>,
    voter: u64,
    now: i64,
) -> Option<AccessError> {
    if p.spec_is_expired(now) {
        Some(AccessError::ResearchProposalExpired)
    } else if has_voted(votes, p.proposal_id, voter) {
        Some(AccessError::AlreadyVoted)
    } else {
        None
    }
}

/// The double-vote guard, stated on its own: once a voter has a recorded
/// vote on a proposal, any further vote by that voter on that proposal is
/// rejected with `AlreadyVoted` — the outcome spec takes no choice at all,
/// so the rejection holds regardless of the choice.
pub proof fn lemma_double_vote_rejected(
    p: ResearchProposal,
    votes: Seq<ResearchVote>,
    voter: u64,
    now: i64,
)
    requires
        has_voted(votes, p.proposal_id, voter),
        !p.spec_is_expired(now),
    ensures
        spec_vote_error(p, votes, voter, now) == Some(AccessError::AlreadyVoted),
{
}

/// Proposal and vote records: proposals unique by id, votes unique per
/// (proposal, voter), every vote naming a stored proposal, and every
/// tally equal to its proposal's recorded vote count.
pub struct GovernanceStore {
    /// The stored proposals, unique by proposal id.
    pub proposals: Vec<ResearchProposal>,
    /// The recorded votes, unique by (proposal id, voter).
    pub votes: Vec<ResearchVote>,
}

impl GovernanceStore {
    /// Structural soundness of the whole store, including the link between
    /// tallies and vote records.
    pub open spec fn wf(self) -> bool {
        &&& forall|i: int| 0 <= i < self.proposals@.len() ==> (#[trigger] self.proposals@[i]).wf()
        &&& forall|i: int, j: int|
            #![trigger self.proposals@[i], self.proposals@[j]]
            0 <= i < self.proposals@.len() && 0 <= j < self.proposals@.len()
                && self.proposals@[i].proposal_id == self.proposals@[j].proposal_id ==> i == j
        &&& forall|i: int, j: int|
            #![trigger self.votes@[i], self.votes@[j]]
            0 <= i < self.votes@.len() && 0 <= j < self.votes@.len() && vote_matches(
                self.votes@[i],
                self.votes@[j].proposal_id,
                self.votes@[j].voter,
            ) ==> i == j
        &&& forall|i: int|
            0 <= i < self.votes@.len() ==> has_proposal(
                self.proposals@,
                (#[trigger] self.votes@[i]).proposal_id,
            )
        &&& forall|i: int|
            0 <= i < self.proposals@.len() ==> (#[trigger] self.proposals@[i]).total_voters
                == count_votes(self.votes@, self.proposals@[i].proposal_id)
    }

    /// An empty store.
    pub fn new() -> (s: GovernanceStore)
        ensures
            s.wf(),
            s.proposals@.len() == 0,
            s.votes@.len() == 0,
    {
        GovernanceStore { proposals: Vec::new(), votes: Vec::new() }
    }

    /// Index of the proposal stored under `pid`, if one is.
    pub fn find_proposal(&self, pid: u64) -> (r: Option<usize>)
        ensures
            match r {
                Some(i) => i < self.proposals@.len() && proposal_matches(
                    self.proposals@[i as int],
                    pid,
                ),
                None => !has_proposal(self.proposals@, pid),
            },
    {
        let n = self.proposals.len();
        let mut i: usize = 0;
        while i < n
            invariant
                n == self.proposals@.len(),
                i <= n,
                forall|j: int| 0 <= j < i ==> !proposal_matches(self.proposals@[j], pid),
            decreases n - i,
        {
            if self.proposals[i].proposal_id == pid {
                return Some(i);
            }
            i = i + 1;
        }
        None
    }

    /// Whether `voter` has a recorded vote on proposal `pid`.
    pub fn has_voted(&self, pid: u64, voter: u64) -> (r: bool)
        ensures
            r == has_voted(self.votes@, pid, voter),
    {
        let n = self.votes.len();
        let mut i: usize = 0;
        while i < n
            invariant
                n == self.votes@.len(),
                i <= n,
                forall|j: int| 0 <= j < i ==> !vote_matches(self.votes@[j], pid, voter),
            decreases n - i,
        {
            if self.votes[i].proposal_id == pid && self.votes[i].voter == voter {
                return true;
            }
            i = i + 1;
        }
        false
    }

    /// Why creating a proposal fails, if it does: an existing proposal
    /// under the id wins over the topic cap.
    pub open spec fn spec_create_error(
        s: Seq<ResearchProposal>,
        pid: u64,
        topic: Seq<u8>,
    ) -> Option<AccessError> {
        if has_proposal(s, pid) {
            Some(AccessError::ResearchProposalAlreadyExists)
        } else if topic.len() > MAX_METADATA_LENGTH {
            Some(AccessError::MetadataTooLong)
        } else {
            None
        }
    }

    /// Create a proposal under a fresh id. Fails exactly when the id is
    /// taken or the topic is over its cap; on success the new proposal,
    /// with zeroed counters and a fourteen-day window, is appended, and
    /// votes and other proposals are undisturbed.
    pub fn create_research_proposal(
        &mut self,
        proposal_id: u64,
        researcher: u64,
        research_topic: Vec<u8>,
        now: i64,
    ) -> (r: Result<(), AccessError>)
        requires
            old(self).wf(),
            valid_time(now),
        ensures
            final(self).wf(),
            final(self).votes@ == old(self).votes@,
            match r {
                Ok(()) => {
                    &&& Self::spec_create_error(old(self).proposals@, proposal_id, research_topic@)
                        is None
                    &&& final(self).proposals@.len() == old(self).proposals@.len() + 1
                    &&& (forall|j: int|
                        0 <= j < old(self).proposals@.len() ==> final(self).proposals@[j] == old(
                            self,
                        ).proposals@[j])
                    &&& {
                        let p = final(self).proposals@.last();
                        &&& p.proposal_id == proposal_id
                        &&& p.researcher == researcher
                        &&& p.research_topic@ == research_topic@
                        &&& p.yes_votes == 0
                        &&& p.no_votes == 0
                        &&& p.total_voters == 0
                        &&& p.created_at == now
                        &&& p.expires_at == now + RESEARCH_PROPOSAL_DURATION
                        &&& !p.is_executed
                        &&& !p.is_approved
                    }
                    &&& has_proposal(final(self).proposals@, proposal_id)
                },
                Err(e) => {
                    &&& Some(e) == Self::spec_create_error(
                        old(self).proposals@,
                        proposal_id,
                        research_topic@,
                    )
                    &&& final(self).proposals@ == old(self).proposals@
                },
            },
    {
        if self.find_proposal(proposal_id).is_some() {
            return Err(AccessError::ResearchProposalAlreadyExists);
        }
        let proposal = match ResearchProposal::new(proposal_id, researcher, research_topic, now) {
            Ok(p) => p,
            Err(e) => {
                return Err(e);
            },
        };
        self.proposals.push(proposal);
        proof {
            let ps = self.proposals@;
            let olds = old(self).proposals@;
            assert forall|i: int, j: int|
                #![trigger ps[i], ps[j]]
                0 <= i < ps.len() && 0 <= j < ps.len() && ps[i].proposal_id == ps[j].proposal_id
                    implies i == j by {
                if i == olds.len() && j < olds.len() {
                    assert(proposal_matches(olds[j], proposal_id));
                } else if j == olds.len() && i < olds.len() {
                    assert(proposal_matches(olds[i], proposal_id));
                }
            }
            assert forall|i: int|
                0 <= i < self.votes@.len() implies has_proposal(
                ps,
                (#[trigger] self.votes@[i]).proposal_id,
            ) by {
                let pid = self.votes@[i].proposal_id;
                assert(has_proposal(olds, pid));
                let k = choose|k: int| 0 <= k < olds.len() && proposal_matches(olds[k], pid);
                assert(proposal_matches(ps[k], pid));
            }
            assert forall|i: int|
                0 <= i < self.votes@.len() implies (#[trigger] self.votes@[i]).proposal_id
                != proposal_id by {
                if self.votes@[i].proposal_id == proposal_id {
                    assert(has_proposal(olds, proposal_id));
                }
            }
            lemma_count_votes_absent(self.votes@, proposal_id);
            assert(proposal_matches(ps[ps.len() - 1], proposal_id));
        }
        Ok(())
    }

    /// Cast `voter`'s vote on a proposal: tally update and vote record are
    /// one transaction. Fails exactly when the proposal is missing, its
    /// window has closed, or the voter already voted — regardless of the
    /// choice; on success the proposal's tally gains the choice, exactly
    /// one vote record is appended, and everything else is undisturbed.
    pub fn vote_on_research_proposal(&mut self, proposal_id: u64, voter: u64, vote: bool, now: i64)
        -> (r: Result<(), AccessError>)
        requires
            old(self).wf(),
            valid_time(now),
        ensures
            final(self).wf(),
            match r {
                Ok(()) => {
                    &&& final(self).votes@ == old(self).votes@.push(
                        ResearchVote { proposal_id, voter, vote, voted_at: now },
                    )
                    &&& has_voted(final(self).votes@, proposal_id, voter)
                    &&& exists|i: int|
                        {
                            &&& 0 <= i < old(self).proposals@.len()
                            &&& proposal_matches(#[trigger] old(self).proposals@[i], proposal_id)
                            &&& spec_vote_error(
                                old(self).proposals@[i],
                                old(self).votes@,
                                voter,
                                now,
                            ) is None
                            &&& final(self).proposals@ == old(self).proposals@.update(
                                i,
                                ResearchProposal {
                                    yes_votes: if vote {
                                        (old(self).proposals@[i].yes_votes + 1) as u64
                                    } else {
                                        old(self).proposals@[i].yes_votes
                                    },
                                    no_votes: if vote {
                                        old(self).proposals@[i].no_votes
                                    } else {
                                        (old(self).proposals@[i].no_votes + 1) as u64
                                    },
                                    total_voters: (old(self).proposals@[i].total_voters + 1) as u64,
                                    ..old(self).proposals@[i]
                                },
                            )
                        }
                },
                Err(e) => {
                    &&& final(self).proposals@ == old(self).proposals@
                    &&& final(self).votes@ == old(self).votes@
                    &&& if !has_proposal(old(self).proposals@, proposal_id) {
                        e == AccessError::ResearchProposalNotFound
                    } else {
                        exists|i: int|
                            0 <= i < old(self).proposals@.len() && proposal_matches(
                                #[trigger] old(self).proposals@[i],
                                proposal_id,
                            ) && Some(e) == spec_vote_error(
                                old(self).proposals@[i],
                                old(self).votes@,
                                voter,
                                now,
                            )
                    }
                },
            },
    {
        let i = match self.find_proposal(proposal_id) {
            Some(i) => i,
            None => {
                return Err(AccessError::ResearchProposalNotFound);
            },
        };
        if self.proposals[i].is_expired(now) {
            return Err(AccessError::ResearchProposalExpired);
        }
        if self.has_voted(proposal_id, voter) {
            return Err(AccessError::AlreadyVoted);
        }
        let record = ResearchVote { proposal_id, voter, vote, voted_at: now };
        self.votes.push(record);
        let n = self.votes.len();
        proof {
            broadcast use vstd::std_specs::vec::group_vec_axioms;

            lemma_count_votes_le_len(old(self).votes@, proposal_id);
            assert(old(self).proposals@[i as int].total_voters == count_votes(
                old(self).votes@,
                proposal_id,
            ));
            assert(n == old(self).votes@.len() + 1);
            assert(old(self).proposals@[i as int].total_voters < n <= usize::MAX);
        }
        let p = &mut self.proposals[i];
        if vote {
            p.yes_votes = p.yes_votes + 1;
        } else {
            p.no_votes = p.no_votes + 1;
        }
        p.total_voters = p.total_voters + 1;
        proof {
            let vs = self.votes@;
            let oldvs = old(self).votes@;
            let ps = self.proposals@;
            assert forall|a: int, b: int|
                #![trigger vs[a], vs[b]]
                0 <= a < vs.len() && 0 <= b < vs.len() && vote_matches(
                    vs[a],
                    vs[b].proposal_id,
                    vs[b].voter,
                ) implies a == b by {
                if a == oldvs.len() && b < oldvs.len() {
                    assert(vote_matches(oldvs[b], proposal_id, voter));
                } else if b == oldvs.len() && a < oldvs.len() {
                    assert(vote_matches(oldvs[a], proposal_id, voter));
                }
            }
            assert forall|k: int|
                0 <= k < ps.len() implies (#[trigger] ps[k]).total_voters == count_votes(
                vs,
                ps[k].proposal_id,
            ) by {
                lemma_count_votes_push(oldvs, ps[k].proposal_id, record);
                if k != i as int {
                    assert(ps[k] == old(self).proposals@[k]);
                    assert(ps[k].proposal_id != proposal_id);
                }
            }
            assert forall|k: int|
                0 <= k < vs.len() implies has_proposal(
                ps,
                (#[trigger] vs[k]).proposal_id,
            ) by {
                let pid = vs[k].proposal_id;
                if k < oldvs.len() {
                    assert(has_proposal(old(self).proposals@, pid));
                    let m = choose|m: int|
                        0 <= m < old(self).proposals@.len() && proposal_matches(
                            old(self).proposals@[m],
                            pid,
                        );
                    assert(proposal_matches(ps[m], pid));
                } else {
                    assert(proposal_matches(ps[i as int], pid));
                }
            }
            assert(vote_matches(vs[vs.len() - 1], proposal_id, voter));
        }
        Ok(())
    }

    /// Execute the proposal stored under `pid`. Fails exactly when the
    /// proposal is missing or its own execution gate refuses — already
    /// executed, window closed, threshold or majority missed; on success
    /// only that proposal changes, becoming executed and approved.
    pub fn execute_research_proposal(&mut self, proposal_id: u64, now: i64) -> (r: Result<
        (),
        AccessError,
    >)
        requires
            old(self).wf(),
        ensures
            final(self).wf(),
            final(self).votes@ == old(self).votes@,
            match r {
                Ok(()) => exists|i: int|
                    {
                        &&& 0 <= i < old(self).proposals@.len()
                        &&& proposal_matches(#[trigger] old(self).proposals@[i], proposal_id)
                        &&& old(self).proposals@[i].spec_can_execute(now)
                        &&& final(self).proposals@ == old(self).proposals@.update(
                            i,
                            ResearchProposal {
                                is_executed: true,
                                is_approved: true,
                                ..old(self).proposals@[i]
                            },
                        )
                    },
                Err(e) => {
                    &&& final(self).proposals@ == old(self).proposals@
                    &&& if !has_proposal(old(self).proposals@, proposal_id) {
                        e == AccessError::ResearchProposalNotFound
                    } else {
                        exists|i: int|
                            0 <= i < old(self).proposals@.len() && proposal_matches(
                                #[trigger] old(self).proposals@[i],
                                proposal_id,
                            ) && Some(e) == old(self).proposals@[i].spec_execute_error(now)
                    }
                },
            },
    {
        let i = match self.find_proposal(proposal_id) {
            Some(i) => i,
            None => {
                return Err(AccessError::ResearchProposalNotFound);
            },
        };
        let p = &mut self.proposals[i];
        let r = p.execute(now);
        proof {
            let ps = self.proposals@;
            let olds = old(self).proposals@;
            assert(ps.len() == olds.len());
            assert forall|k: int| 0 <= k < ps.len() implies ((#[trigger] ps[k]).proposal_id
                == olds[k].proposal_id && ps[k].total_voters == olds[k].total_voters
                && ps[k].wf()) by {
                if k != i as int {
                    assert(ps[k] == olds[k]);
                }
            }
            assert forall|a: int, b: int|
                #![trigger ps[a], ps[b]]
                0 <= a < ps.len() && 0 <= b < ps.len() && ps[a].proposal_id == ps[b].proposal_id
                    implies a == b by {
                assert(olds[a].proposal_id == ps[a].proposal_id);
                assert(olds[b].proposal_id == ps[b].proposal_id);
            }
            assert forall|k: int|
                0 <= k < self.votes@.len() implies has_proposal(
                ps,
                (#[trigger] self.votes@[k]).proposal_id,
            ) by {
                let pid = self.votes@[k].proposal_id;
                assert(has_proposal(olds, pid));
                let m = choose|m: int| 0 <= m < olds.len() && proposal_matches(olds[m], pid);
                assert(proposal_matches(ps[m], pid));
            }
            if r is Err {
                assert(ps =~= olds);
            }
        }
        r
    }

    /// Why research access under a proposal fails, if it does: missing
    /// proposal, then unapproved proposal, then a researcher mismatch.
    pub open spec fn spec_research_access_error(
        p: ResearchProposal,
        researcher: u64,
    ) -> Option<AccessError> {
        if !p.is_approved {
            Some(AccessError::InsufficientResearchVotes)
        } else if p.researcher != researcher {
            Some(AccessError::UnauthorizedAccess)
        } else {
            None
        }
    }

    /// Decide research access under the proposal stored at `pid`: allowed
    /// exactly when the proposal exists, is approved, and names the caller
    /// as its researcher. The proposal's topic is deliberately not
    /// cross-checked against what is read. A pure read.
    pub fn access_with_research_grant(&self, proposal_id: u64, researcher: u64) -> (r: Result<
        (),
        AccessError,
    >)
        requires
            self.wf(),
        ensures
            match r {
                Ok(()) => exists|i: int|
                    0 <= i < self.proposals@.len() && proposal_matches(
                        #[trigger] self.proposals@[i],
                        proposal_id,
                    ) && self.proposals@[i].is_approved && self.proposals@[i].researcher
                        == researcher,
                Err(e) => {
                    if !has_proposal(self.proposals@, proposal_id) {
                        e == AccessError::ResearchProposalNotFound
                    } else {
                        exists|i: int|
                            0 <= i < self.proposals@.len() && proposal_matches(
                                #[trigger] self.proposals@[i],
                                proposal_id,
                            ) && Some(e) == Self::spec_research_access_error(
                                self.proposals@[i],
                                researcher,
                            )
                    }
                },
            },
    {
        let i = match self.find_proposal(proposal_id) {
            Some(i) => i,
            None => {
                return Err(AccessError::ResearchProposalNotFound);
            },
        };
        if !self.proposals[i].is_approved {
            return Err(AccessError::InsufficientResearchVotes);
        }
        if self.proposals[i].researcher != researcher {
            return Err(AccessError::UnauthorizedAccess);
        }
        Ok(())
    }

    /// Whether some stored proposal is approved with `researcher` as its
    /// researcher.
    pub fn has_approved_proposal(&self, researcher: u64) -> (r: bool)
        ensures
            r == exists|i: int|
                0 <= i < self.proposals@.len() && (#[trigger] self.proposals@[i]).is_approved
                    && self.proposals@[i].researcher == researcher,
    {
        let n = self.proposals.len();
        let mut i: usize = 0;
        while i < n
            invariant
                n == self.proposals@.len(),
                i <= n,
                forall|j: int|
                    0 <= j < i ==> !((#[trigger] self.proposals@[j]).is_approved
                        && self.proposals@[j].researcher == researcher),
            decreases n - i,
        {
            if self.proposals[i].is_approved && self.proposals[i].researcher == researcher {
                return true;
            }
            i = i + 1;
        }
        false
    }
}

} // verus!
