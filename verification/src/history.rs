//! The ledger: the most recent prompts with the accuracy that each reached.

use vstd::prelude::*;
use vstd::string::*;

verus! {

/// How many records the ledger keeps.
pub const HISTORY_LIMIT: usize = 10;

/// A prompt and the accuracy of the pass that used it, in millionths.
#[derive(Debug, Clone, PartialEq, Eq)]
pub struct PromptRecord {
    pub prompt: String,
    pub score: i64,
}

/// The last `limit` items of `s`, or all of `s` where it has no more.
pub open spec fn latest<T>(s: Seq<T>, limit: nat) -> Seq<T> {
    if s.len() > limit {
        s.subrange(s.len() - limit, s.len() as int)
    } else {
        s
    }
}

/// The ledger after one more record: the record goes to the end, and the
/// oldest records leave until no more than `HISTORY_LIMIT` are left.
pub open spec fn appended(history: Seq<PromptRecord>, record: PromptRecord) -> Seq<PromptRecord> {
    latest(history.push(record), HISTORY_LIMIT as nat)
}

/// The ledger after a run of records, appended one by one.
pub open spec fn appended_all(history: Seq<PromptRecord>, records: Seq<PromptRecord>) -> Seq<
    PromptRecord,
>
    decreases records.len(),
{
    if records.len() == 0 {
        history
    } else {
        appended(appended_all(history, records.drop_last()), records.last())
    }
}

/// Appends a record to the ledger and drops the oldest records beyond
/// `HISTORY_LIMIT`. A prompt that is in the ledger already is recorded
/// again.
pub fn append(history: &mut Vec<PromptRecord>, prompt: String, score: i64)
    ensures
        final(history)@ == appended(old(history)@, PromptRecord { prompt, score }),
        final(history)@.len() <= HISTORY_LIMIT,
        final(history)@.len() >= 1,
        final(history)@.last() == (PromptRecord { prompt, score }),
{
    let ghost record = PromptRecord { prompt, score };
    history.push(PromptRecord { prompt, score });
    let ghost all = history@;
    while history.len() > HISTORY_LIMIT
        invariant
            all == old(history)@.push(record),
            1 <= history@.len() <= all.len(),
            history@.len() >= HISTORY_LIMIT || history@.len() == all.len(),
            history@ == all.subrange(all.len() - history@.len(), all.len() as int),
        decreases history@.len(),
    {
        history.remove(0);
        assert(history@ =~= all.subrange(all.len() - history@.len(), all.len() as int));
    }
    assert(all.subrange(0, all.len() as int) =~= all);
}

/// However many records are appended, the ledger holds at most
/// `HISTORY_LIMIT`, and they are the last ones of all that it ever held, in
/// the order in which they came.
pub proof fn lemma_ledger_keeps_latest(history: Seq<PromptRecord>, records: Seq<PromptRecord>)
    requires
        records.len() >= 1,
    ensures
        appended_all(history, records) == latest(history + records, HISTORY_LIMIT as nat),
        appended_all(history, records).len() <= HISTORY_LIMIT,
    decreases records.len(),
{
    let earlier = records.drop_last();
    let last = records.last();
    assert(history + records =~= (history + earlier).push(last));
    if earlier.len() == 0 {
        assert(history + earlier =~= history);
        assert(appended_all(history, earlier) == history);
    } else {
        lemma_ledger_keeps_latest(history, earlier);
        let kept = latest(history + earlier, HISTORY_LIMIT as nat);
        assert(latest(kept.push(last), HISTORY_LIMIT as nat) =~= latest(
            (history + earlier).push(last),
            HISTORY_LIMIT as nat,
        ));
    }
}

/// A ledger within the limit stays within it, whatever is appended.
pub proof fn lemma_ledger_stays_bounded(history: Seq<PromptRecord>, records: Seq<PromptRecord>)
    requires
        history.len() <= HISTORY_LIMIT,
    ensures
        appended_all(history, records).len() <= HISTORY_LIMIT,
    decreases records.len(),
{
    if records.len() > 0 {
        lemma_ledger_stays_bounded(history, records.drop_last());
    }
}

} // verus!
