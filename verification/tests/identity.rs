//! Deterministic proposal identity.

use interchain_gov::state::{Expiration, ProposalAction, ProposalMsg};

fn msg(title: &str, description: &str, expiration: Expiration) -> ProposalMsg {
    ProposalMsg {
        title: title.to_string(),
        description: description.to_string(),
        min_voting_period: None,
        expiration,
        action: ProposalAction::Signal,
    }
}

#[test]
fn proposal_id_deterministic() {
    let a = msg("Upgrade", "Increase the member budget", Expiration::AtHeight(10));
    let b = msg("Upgrade", "Increase the member budget", Expiration::Never);
    // Identical canonical content hashes to the same identifier, whatever
    // the other fields say.
    assert_eq!(a.hash(), b.hash());
    // The identifier is the base-64 text of the SHA-256 digest of
    // "title: description".
    assert_eq!(a.hash(), "1pK5LxpbVNbXQffHcp73uY/iSY91mYS4VthBo66O1dI=");
    assert_eq!(a.hash().len(), 44);
}

#[test]
fn proposal_id_distinguishes_description() {
    let a = msg("Upgrade", "Increase the member budget", Expiration::Never);
    let b = msg("Upgrade", "Increase the member budgef", Expiration::Never);
    assert_ne!(a.hash(), b.hash());
    assert_eq!(b.hash(), "AKTAipwdkIGxz3XBfjL547rBhu5VKH+5ONxjms447hw=");
}
