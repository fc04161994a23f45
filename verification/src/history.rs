use vstd::prelude::*;

verus! {

/// Immutable snapshot of a past notification, kept for recall. It carries
/// no reference back to any live record.
#[derive(Clone, Debug, PartialEq, Eq)]
pub struct HistoryNotification {
    pub app_name: String,
    pub icon: String,
    pub summary: String,
    pub body: String,
}

/// The fields a history entry records of a request, compared by content.
pub open spec fn entry_matches(
    e: HistoryNotification,
    app_name: Seq<char>,
    icon: Seq<char>,
    summary: Seq<char>,
    body: Seq<char>,
) -> bool {
    &&& e.app_name@ == app_name
    &&& e.icon@ == icon
    &&& e.summary@ == summary
    &&& e.body@ == body
}

/// The history after one append under cap `cap`: the entry goes to the
/// back, and if the log then exceeds the cap the oldest entry is evicted.
pub open spec fn history_after(
    h: Seq<HistoryNotification>,
    entry: HistoryNotification,
    cap: u32,
) -> Seq<HistoryNotification> {
    let pushed = h.push(entry);
    if pushed.len() > cap {
        pushed.remove(0)
    } else {
        pushed
    }
}

/// Append one entry to the history log, evicting the oldest entry if the
/// log would exceed the cap. Every insertion appends exactly one entry and
/// evicts at most one.
pub fn append_history(history: &mut Vec<HistoryNotification>, entry: HistoryNotification, cap: u32)
    ensures
        final(history)@ == history_after(old(history)@, entry, cap),
{
    history.push(entry);
    if history.len() > cap as usize {
        history.remove(0);
    }
}

/// Law: a history within its cap stays within its cap across an append,
/// and when the log is full the append evicts exactly the oldest entry,
/// shifting the others down and putting the new entry at the back.
pub proof fn lemma_history_cap_preserved(
    h: Seq<HistoryNotification>,
    entry: HistoryNotification,
    cap: u32,
)
    requires
        h.len() <= cap,
    ensures
        history_after(h, entry, cap).len() <= cap,
        h.len() < cap ==> history_after(h, entry, cap) == h.push(entry),
        h.len() == cap && cap > 0 ==> history_after(h, entry, cap) == h.subrange(
            1,
            h.len() as int,
        ).push(entry),
{
    if h.len() == cap && cap > 0 {
        assert(history_after(h, entry, cap) =~= h.subrange(1, h.len() as int).push(entry));
    }
}

} // verus!
