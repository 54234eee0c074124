//! The log of what happened at the door.
use crate::rekognition::Confidence;
use crate::text::optional_text;
use crate::time::Timestamp;
use vstd::prelude::*;

verus! {

/// An entry of the access log.
pub struct AccessLog {
    pub timestamp: Timestamp,
    pub action: String,
    pub person_name: Option<String>,
    pub confidence: Option<Confidence>,
    pub access_granted: bool,
}

/// What an [`AccessLog`] holds.
pub struct AccessLogView {
    pub timestamp: Timestamp,
    pub action: Seq<char>,
    pub person_name: Option<Seq<char>>,
    pub confidence: Option<Confidence>,
    pub access_granted: bool,
}

impl View for AccessLog {
    type V = AccessLogView;

    open spec fn view(&self) -> AccessLogView {
        AccessLogView {
            timestamp: self.timestamp,
            action: self.action@,
            person_name: optional_text(self.person_name),
            confidence: self.confidence,
            access_granted: self.access_granted,
        }
    }
}

impl DeepView for AccessLog {
    type V = AccessLogView;

    open spec fn deep_view(&self) -> AccessLogView {
        self@
    }
}

impl Clone for AccessLog {
    fn clone(&self) -> (copy: AccessLog)
        ensures
            copy@ == self@,
    {
        AccessLog {
            timestamp: self.timestamp,
            action: self.action.clone(),
            person_name: match &self.person_name {
                Some(name) => Some(name.clone()),
                None => None,
            },
            confidence: self.confidence,
            access_granted: self.access_granted,
        }
    }
}

/// The last `limit` entries of a log, or all of them where there are fewer, the newest first.
pub open spec fn newest_first(log: Seq<AccessLogView>, limit: nat) -> Seq<AccessLogView> {
    Seq::new(
        if limit <= log.len() {
            limit
        } else {
            log.len()
        },
        |i: int| log[log.len() - 1 - i],
    )
}

/// The last `limit` entries of a log, or all of them where there are fewer, the newest first.
pub fn recent_entries(log: &Vec<AccessLog>, limit: usize) -> (recent: Vec<AccessLog>)
    ensures
        recent.deep_view() == newest_first(log.deep_view(), limit as nat),
{
    let mut recent: Vec<AccessLog> = Vec::new();
    let mut left: usize = log.len();
    while left > 0 && recent.len() < limit
        invariant
            left + recent@.len() == log@.len(),
            recent@.len() <= limit,
            forall|i: int|
                0 <= i < recent@.len() ==> (#[trigger] recent@[i])@ == log@[log@.len() - 1 - i]@,
        decreases left,
    {
        left = left - 1;
        recent.push(log[left].clone());
    }
    assert(recent.deep_view() =~= newest_first(log.deep_view(), limit as nat));
    recent
}

/// A newly written entry is the first one read back, and the entries behind it are the ones
/// that one fewer would have shown before.
pub proof fn law_newest_entry_is_read_first(
    log: Seq<AccessLogView>,
    entry: AccessLogView,
    limit: nat,
)
    requires
        limit > 0,
    ensures
        newest_first(log.push(entry), limit) == seq![entry] + newest_first(log, (limit - 1) as nat),
{
    assert(newest_first(log.push(entry), limit) =~= seq![entry] + newest_first(
        log,
        (limit - 1) as nat,
    ));
}

/// With a limit no smaller than the log, reading gives back every entry, in reverse order.
pub proof fn law_unlimited_read_is_the_reversed_log(log: Seq<AccessLogView>, limit: nat)
    requires
        limit >= log.len(),
    ensures
        newest_first(log, limit) == log.reverse(),
{
    assert(newest_first(log, limit) =~= log.reverse());
}

/// A smaller limit shows the first entries of what a larger limit shows.
pub proof fn law_smaller_limit_shows_a_prefix(log: Seq<AccessLogView>, small: nat, large: nat)
    requires
        small <= large,
    ensures
        newest_first(log, small).is_prefix_of(newest_first(log, large)),
{
    assert(newest_first(log, small) =~= newest_first(log, large).subrange(
        0,
        newest_first(log, small).len() as int,
    ));
}

/// What is read back is as long as the limit allows, and its entries are those of the log
/// counted from the end.
pub proof fn law_recent_entries_count_from_the_end(log: Seq<AccessLogView>, limit: nat)
    ensures
        newest_first(log, limit).len() <= limit,
        newest_first(log, limit).len() <= log.len(),
        newest_first(log, limit).len() == limit || newest_first(log, limit).len() == log.len(),
        forall|i: int|
            0 <= i < newest_first(log, limit).len() ==> #[trigger] newest_first(log, limit)[i]
                == log[log.len() - 1 - i],
{
}

/// An entry shows all that it holds.
pub proof fn law_entry_shows_all_it_holds(entry: AccessLog)
    ensures
        entry@.timestamp == entry.timestamp,
        entry@.action == entry.action@,
        entry.person_name is Some ==> entry@.person_name == Some(entry.person_name->0@),
        entry.person_name is None ==> entry@.person_name is None,
        entry@.confidence == entry.confidence,
        entry@.access_granted == entry.access_granted,
        entry.deep_view() == entry@,
{
}

} // verus!
