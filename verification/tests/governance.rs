use recordguard::errors::AccessError;
use recordguard::governance::GovernanceStore;
use recordguard::{MAX_METADATA_LENGTH, MIN_RESEARCH_VOTES, RESEARCH_PROPOSAL_DURATION};

const NOW: i64 = 1_700_000_000;

fn store_with_proposal() -> GovernanceStore {
    let mut g = GovernanceStore::new();
    assert_eq!(
        g.create_research_proposal(7, 42, b"sleep patterns".to_vec(), NOW),
        Ok(())
    );
    g
}

/// Cast `n` yes votes from distinct voters, starting at voter id 1000.
fn cast_yes_votes(g: &mut GovernanceStore, n: u64) {
    for v in 0..n {
        assert_eq!(g.vote_on_research_proposal(7, 1000 + v, true, NOW + 1), Ok(()));
    }
}

#[test]
fn topic_cap_boundary() {
    let mut g = GovernanceStore::new();
    assert_eq!(
        g.create_research_proposal(1, 42, vec![b't'; MAX_METADATA_LENGTH + 1], NOW),
        Err(AccessError::MetadataTooLong)
    );
    assert_eq!(
        g.create_research_proposal(1, 42, vec![b't'; MAX_METADATA_LENGTH], NOW),
        Ok(())
    );
}

#[test]
fn duplicate_proposal_id_is_rejected() {
    let mut g = store_with_proposal();
    assert_eq!(
        g.create_research_proposal(7, 43, b"other".to_vec(), NOW + 1),
        Err(AccessError::ResearchProposalAlreadyExists)
    );
}

#[test]
fn double_vote_fails_regardless_of_choice() {
    let mut g = store_with_proposal();
    assert_eq!(g.vote_on_research_proposal(7, 5, true, NOW + 1), Ok(()));
    assert_eq!(
        g.vote_on_research_proposal(7, 5, true, NOW + 2),
        Err(AccessError::AlreadyVoted)
    );
    assert_eq!(
        g.vote_on_research_proposal(7, 5, false, NOW + 3),
        Err(AccessError::AlreadyVoted)
    );
    // A different voter is still welcome.
    assert_eq!(g.vote_on_research_proposal(7, 6, false, NOW + 4), Ok(()));
}

#[test]
fn voting_window_closes_at_expiry() {
    let mut g = store_with_proposal();
    assert_eq!(
        g.vote_on_research_proposal(7, 5, true, NOW + RESEARCH_PROPOSAL_DURATION - 1),
        Ok(())
    );
    assert_eq!(
        g.vote_on_research_proposal(7, 6, true, NOW + RESEARCH_PROPOSAL_DURATION),
        Err(AccessError::ResearchProposalExpired)
    );
}

#[test]
fn vote_on_missing_proposal_fails() {
    let mut g = GovernanceStore::new();
    assert_eq!(
        g.vote_on_research_proposal(7, 5, true, NOW),
        Err(AccessError::ResearchProposalNotFound)
    );
}

#[test]
fn execute_needs_one_hundred_yes_votes() {
    let mut g = store_with_proposal();
    cast_yes_votes(&mut g, MIN_RESEARCH_VOTES - 1);
    assert_eq!(
        g.execute_research_proposal(7, NOW + 2),
        Err(AccessError::InsufficientResearchVotes)
    );
    // The hundredth yes vote crosses the threshold, with no no-votes.
    assert_eq!(g.vote_on_research_proposal(7, 2000, true, NOW + 1), Ok(()));
    assert_eq!(g.execute_research_proposal(7, NOW + 2), Ok(()));
    // Execution is once only.
    assert_eq!(
        g.execute_research_proposal(7, NOW + 3),
        Err(AccessError::ProposalAlreadyExecuted)
    );
}

#[test]
fn execute_needs_a_strict_majority() {
    let mut g = store_with_proposal();
    cast_yes_votes(&mut g, MIN_RESEARCH_VOTES);
    for v in 0..MIN_RESEARCH_VOTES {
        assert_eq!(g.vote_on_research_proposal(7, 5000 + v, false, NOW + 1), Ok(()));
    }
    // One hundred yes against one hundred no: no strict majority.
    assert_eq!(
        g.execute_research_proposal(7, NOW + 2),
        Err(AccessError::InsufficientResearchVotes)
    );
    assert_eq!(g.vote_on_research_proposal(7, 9000, true, NOW + 3), Ok(()));
    assert_eq!(g.execute_research_proposal(7, NOW + 4), Ok(()));
}

#[test]
fn execute_fails_after_window() {
    let mut g = store_with_proposal();
    cast_yes_votes(&mut g, MIN_RESEARCH_VOTES);
    assert_eq!(
        g.execute_research_proposal(7, NOW + RESEARCH_PROPOSAL_DURATION),
        Err(AccessError::ResearchProposalExpired)
    );
}

#[test]
fn research_access_follows_execution() {
    let mut g = store_with_proposal();
    cast_yes_votes(&mut g, MIN_RESEARCH_VOTES);
    // Before execution the proposal is not approved.
    assert_eq!(
        g.access_with_research_grant(7, 42),
        Err(AccessError::InsufficientResearchVotes)
    );
    assert_eq!(g.execute_research_proposal(7, NOW + 2), Ok(()));
    assert_eq!(g.access_with_research_grant(7, 42), Ok(()));
    // Only the named researcher gets in.
    assert_eq!(
        g.access_with_research_grant(7, 43),
        Err(AccessError::UnauthorizedAccess)
    );
    assert_eq!(
        g.access_with_research_grant(8, 42),
        Err(AccessError::ResearchProposalNotFound)
    );
}

#[test]
fn tally_tracks_votes() {
    let mut g = store_with_proposal();
    assert_eq!(g.vote_on_research_proposal(7, 5, true, NOW + 1), Ok(()));
    assert_eq!(g.vote_on_research_proposal(7, 6, false, NOW + 1), Ok(()));
    assert_eq!(g.vote_on_research_proposal(7, 8, true, NOW + 1), Ok(()));
    let p = &g.proposals[0];
    assert_eq!(p.yes_votes, 2);
    assert_eq!(p.no_votes, 1);
    assert_eq!(p.total_voters, 3);
    assert!(g.has_voted(7, 5));
    assert!(!g.has_voted(7, 9));
}
