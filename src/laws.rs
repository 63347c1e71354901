use vstd::prelude::*;

use crate::state::{replay, Escrow, Operation};

verus! {

/// Whether `request` is a score report of `score` signed by `owner`.
pub open spec fn reports_score(request: (Seq<u8>, Operation), owner: Seq<u8>, score: u64) -> bool {
    request.0 == owner && request.1 == Operation::UpdateFocusScore(score)
}

/// Whether `request` is a completion signed by `owner`.
pub open spec fn completes_session(request: (Seq<u8>, Operation), owner: Seq<u8>) -> bool {
    request.0 == owner && request.1 == Operation::CompleteSession
}

/// No request, from anybody, changes who owns a record or its declared stake.
pub proof fn lemma_owner_and_stake_fixed(record: Escrow, requests: Seq<(Seq<u8>, Operation)>)
    ensures
        replay(record, requests).user == record.user,
        replay(record, requests).stake_amount == record.stake_amount,
    decreases requests.len(),
{
    if requests.len() > 0 {
        lemma_owner_and_stake_fixed(record, requests.drop_last());
    }
}

/// After any sequence of requests, the focus score is the maximum of the
/// score the record started with and every score its owner reported;
/// reports signed by anybody else are ignored. A fresh record starts at
/// zero, so after each report its score is the largest reported so far.
pub proof fn lemma_focus_score_is_running_maximum(
    record: Escrow,
    requests: Seq<(Seq<u8>, Operation)>,
)
    ensures
        replay(record, requests).focus_score >= record.focus_score,
        forall|j: int, s: u64|
            0 <= j < requests.len() && #[trigger] reports_score(requests[j], record.user@, s)
                ==> s <= replay(record, requests).focus_score,
        replay(record, requests).focus_score == record.focus_score || exists|j: int|
            0 <= j < requests.len() && #[trigger] reports_score(
                requests[j],
                record.user@,
                replay(record, requests).focus_score,
            ),
    decreases requests.len(),
{
    if requests.len() > 0 {
        let prefix = requests.drop_last();
        lemma_focus_score_is_running_maximum(record, prefix);
        lemma_owner_and_stake_fixed(record, prefix);
        let before = replay(record, prefix);
        let after = replay(record, requests);
        let last = requests.last();
        assert(after == before.after(last.0, last.1));
        assert forall|j: int, s: u64|
            0 <= j < requests.len() && #[trigger] reports_score(requests[j], record.user@, s)
                implies s <= after.focus_score by {
            if j < prefix.len() {
                assert(requests[j] == prefix[j]);
                assert(reports_score(prefix[j], record.user@, s));
            }
        }
        if after.focus_score != record.focus_score {
            if after.focus_score == before.focus_score {
                let j = choose|j: int|
                    0 <= j < prefix.len() && #[trigger] reports_score(
                        prefix[j],
                        record.user@,
                        before.focus_score,
                    );
                assert(requests[j] == prefix[j]);
                assert(reports_score(requests[j], record.user@, after.focus_score));
            } else {
                assert(reports_score(requests[requests.len() - 1], record.user@, after.focus_score));
            }
        }
    }
}

/// Completion is a one-way latch: after any sequence of requests the session
/// is complete exactly when it already was, or its owner requested the
/// completion at some point. A fresh record is therefore incomplete until
/// the owner's first completion and complete ever after.
pub proof fn lemma_completion_is_a_latch(record: Escrow, requests: Seq<(Seq<u8>, Operation)>)
    ensures
        replay(record, requests).completed == (record.completed || exists|j: int|
            0 <= j < requests.len() && #[trigger] completes_session(requests[j], record.user@)),
    decreases requests.len(),
{
    if requests.len() > 0 {
        let prefix = requests.drop_last();
        lemma_completion_is_a_latch(record, prefix);
        lemma_owner_and_stake_fixed(record, prefix);
        let last_index = requests.len() - 1;
        let last = requests.last();
        assert(replay(record, requests) == replay(record, prefix).after(last.0, last.1));
        if completes_session(last, record.user@) {
            assert(completes_session(requests[last_index], record.user@));
        }
        if exists|j: int| 0 <= j < prefix.len() && #[trigger] completes_session(prefix[j], record.user@) {
            let j = choose|j: int|
                0 <= j < prefix.len() && #[trigger] completes_session(prefix[j], record.user@);
            assert(requests[j] == prefix[j]);
        }
        if exists|j: int| 0 <= j < requests.len() && #[trigger] completes_session(requests[j], record.user@) {
            let j = choose|j: int|
                0 <= j < requests.len() && #[trigger] completes_session(requests[j], record.user@);
            if j < last_index {
                assert(requests[j] == prefix[j]);
                assert(completes_session(prefix[j], record.user@));
            }
        }
    }
}

} // verus!
