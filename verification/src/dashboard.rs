//! What the service shows: the dashboard page and the list of people.
use crate::access_log::{law_newest_entry_is_read_first, newest_first, AccessLog, AccessLogView};
use crate::api::{api_success, ApiResponse};
use crate::page::{
    ITEM_AFTER_ACTION, ITEM_AFTER_CLASS, ITEM_AFTER_TIME, ITEM_HEAD, ITEM_TAIL, PAGE_AFTER_ATTEMPTS,
    PAGE_AFTER_PEOPLE, PAGE_HEAD, PAGE_TAIL,
};
use crate::rekognition::Confidence;
use crate::roster::names_of;
use crate::state::{AppState, StateView};
use crate::text::{decimal, push_decimal, push_signed_decimal, signed_decimal};
use crate::time::log_time;
use vstd::prelude::*;
use vstd::string::*;

verus! {

/// The number of entries that the dashboard shows.
pub const ENTRIES_SHOWN: usize = 10;

/// The class of an entry.
pub open spec fn item_class(access_granted: bool) -> Seq<char> {
    if access_granted {
        "access-granted"@
    } else {
        "access-denied"@
    }
}

/// The confidence of an entry, in percent; nothing where there is none.
pub open spec fn item_confidence(confidence: Option<Confidence>) -> Seq<char> {
    match confidence {
        Some(confidence) => " ("@ + signed_decimal(confidence.percent as int) + "%)"@,
        None => Seq::empty(),
    }
}

/// An entry of the log on the page.
pub open spec fn log_item(entry: AccessLogView) -> Seq<char> {
    ITEM_HEAD@ + item_class(entry.access_granted) + ITEM_AFTER_CLASS@ + log_time(entry.timestamp)
        + ITEM_AFTER_TIME@ + entry.action + ITEM_AFTER_ACTION@ + item_confidence(entry.confidence)
        + ITEM_TAIL@
}

/// Entries of the log on the page, one after the other.
pub open spec fn log_items(entries: Seq<AccessLogView>) -> Seq<char>
    decreases entries.len(),
{
    if entries.len() == 0 {
        Seq::empty()
    } else {
        log_items(entries.drop_last()) + log_item(entries.last())
    }
}

/// The page, for a number of people and the entries to show.
pub open spec fn page(people: nat, entries: Seq<AccessLogView>) -> Seq<char> {
    PAGE_HEAD@ + decimal(people) + PAGE_AFTER_PEOPLE@ + decimal(entries.len())
        + PAGE_AFTER_ATTEMPTS@ + log_items(entries) + PAGE_TAIL@
}

/// The dashboard page.
pub open spec fn dashboard_page(state: StateView) -> Seq<char> {
    page(state.people.len(), newest_first(state.log, ENTRIES_SHOWN as nat))
}

/// Appends an entry of the log.
fn push_log_item(out: &mut String, entry: &AccessLog)
    ensures
        final(out)@ == old(out)@ + log_item(entry@),
{
    let ghost before = out@;
    let ghost mut item: Seq<char> = Seq::empty();
    out.append(ITEM_HEAD);
    proof {
        item = ITEM_HEAD@;
    }
    if entry.access_granted {
        out.append("access-granted");
    } else {
        out.append("access-denied");
    }
    proof {
        lemma_grow(before, item, item_class(entry.access_granted));
        item = item + item_class(entry.access_granted);
    }
    out.append(ITEM_AFTER_CLASS);
    proof {
        lemma_grow(before, item, ITEM_AFTER_CLASS@);
        item = item + ITEM_AFTER_CLASS@;
    }
    out.append(entry.timestamp.log_text().as_str());
    proof {
        lemma_grow(before, item, log_time(entry.timestamp));
        item = item + log_time(entry.timestamp);
    }
    out.append(ITEM_AFTER_TIME);
    proof {
        lemma_grow(before, item, ITEM_AFTER_TIME@);
        item = item + ITEM_AFTER_TIME@;
    }
    out.append(entry.action.as_str());
    proof {
        lemma_grow(before, item, entry.action@);
        item = item + entry.action@;
    }
    out.append(ITEM_AFTER_ACTION);
    proof {
        lemma_grow(before, item, ITEM_AFTER_ACTION@);
        item = item + ITEM_AFTER_ACTION@;
    }
    push_confidence(out, entry.confidence);
    proof {
        lemma_grow(before, item, item_confidence(entry.confidence));
        item = item + item_confidence(entry.confidence);
    }
    out.append(ITEM_TAIL);
    proof {
        lemma_grow(before, item, ITEM_TAIL@);
    }
}

/// Appends the confidence of an entry, in percent, or nothing where there is none.
fn push_confidence(out: &mut String, confidence: Option<Confidence>)
    ensures
        final(out)@ == old(out)@ + item_confidence(confidence),
{
    let ghost before = out@;
    if let Some(confidence) = confidence {
        out.append(" (");
        push_signed_decimal(out, confidence.percent as i64);
        proof {
            lemma_grow(before, " ("@, signed_decimal(confidence.percent as int));
        }
        out.append("%)");
        proof {
            lemma_grow(before, " ("@ + signed_decimal(confidence.percent as int), "%)"@);
        }
    } else {
        assert(out@ =~= before + item_confidence(confidence));
    }
}

/// A text that grows at its end grows by the same part wherever it began.
proof fn lemma_grow(before: Seq<char>, grown: Seq<char>, part: Seq<char>)
    ensures
        before + grown + part == before + (grown + part),
{
    assert(before + grown + part =~= before + (grown + part));
}

/// Appends entries of the log, one after the other.
fn push_log_items(out: &mut String, entries: &Vec<AccessLog>)
    ensures
        final(out)@ == old(out)@ + log_items(entries.deep_view()),
{
    let ghost shown = entries.deep_view();
    let ghost before = out@;
    let mut i: usize = 0;
    assert(out@ =~= before + log_items(shown.take(0)));
    while i < entries.len()
        invariant
            i <= entries@.len(),
            shown == entries.deep_view(),
            out@ == before + log_items(shown.take(i as int)),
        decreases entries@.len() - i,
    {
        push_log_item(out, &entries[i]);
        i = i + 1;
        proof {
            assert(shown.take(i as int).drop_last() =~= shown.take(i - 1));
            lemma_grow(before, log_items(shown.take(i - 1)), log_item(shown[i - 1]));
        }
    }
    assert(shown.take(i as int) =~= shown);
}

impl AppState {
    /// The dashboard page.
    pub fn dashboard(&self) -> (html: String)
        ensures
            html@ == dashboard_page(self@),
    {
        let logs: Vec<AccessLog> = self.get_recent_logs(ENTRIES_SHOWN);
        let people: Vec<String> = self.get_authorized_people();
        assert(people.deep_view().len() == self@.people.len());
        let mut html = PAGE_HEAD.to_string();
        push_decimal(&mut html, people.len() as u64);
        html.append(PAGE_AFTER_PEOPLE);
        push_decimal(&mut html, logs.len() as u64);
        html.append(PAGE_AFTER_ATTEMPTS);
        push_log_items(&mut html, &logs);
        html.append(PAGE_TAIL);
        html
    }

    /// The answer to a request for the names of the people on the roster.
    pub fn list_people_handler(&self) -> (reply: ApiResponse<Vec<String>>)
        ensures
            reply@ == api_success(names_of(self@.people)),
    {
        ApiResponse::success(self.get_authorized_people())
    }
}

/// The page rests on the number of people and on the newest entries alone: settings, names
/// and older entries do not show.
pub proof fn law_page_shows_the_newest_entries_alone(one: StateView, other: StateView)
    requires
        one.people.len() == other.people.len(),
        newest_first(one.log, ENTRIES_SHOWN as nat) == newest_first(
            other.log,
            ENTRIES_SHOWN as nat,
        ),
    ensures
        dashboard_page(one) == dashboard_page(other),
{
}

/// The number of access attempts on the page is that of the entries shown: all of the log's,
/// but never more than the page has room for.
pub proof fn law_attempts_shown_are_bounded(state: StateView)
    ensures
        newest_first(state.log, ENTRIES_SHOWN as nat).len() == if state.log.len() < ENTRIES_SHOWN {
            state.log.len()
        } else {
            ENTRIES_SHOWN as nat
        },
{
}

/// The entries of a page are those of its parts, one after the other.
pub proof fn law_log_items_append(one: Seq<AccessLogView>, other: Seq<AccessLogView>)
    ensures
        log_items(one + other) == log_items(one) + log_items(other),
    decreases other.len(),
{
    if other.len() == 0 {
        assert(one + other =~= one);
        assert(log_items(one) + log_items(other) =~= log_items(one));
    } else {
        law_log_items_append(one, other.drop_last());
        assert((one + other).drop_last() =~= one + other.drop_last());
        lemma_grow(log_items(one), log_items(other.drop_last()), log_item(other.last()));
    }
}

/// A new entry comes first in the log on the page.
pub proof fn law_new_entry_comes_first_on_the_page(
    log: Seq<AccessLogView>,
    entry: AccessLogView,
)
    ensures
        log_items(newest_first(log.push(entry), ENTRIES_SHOWN as nat)) == log_item(entry)
            + log_items(newest_first(log, (ENTRIES_SHOWN - 1) as nat)),
{
    law_newest_entry_is_read_first(log, entry, ENTRIES_SHOWN as nat);
    law_log_items_append(seq![entry], newest_first(log, (ENTRIES_SHOWN - 1) as nat));
    assert(seq![entry].drop_last() =~= Seq::empty());
    reveal_with_fuel(log_items, 2);
    assert(Seq::<char>::empty() + log_item(entry) =~= log_item(entry));
}

/// An entry is marked on the page as granted exactly where it grants access, and as denied
/// otherwise, whatever else it tells.
pub proof fn law_entries_are_marked_by_what_they_grant(entry: AccessLogView)
    ensures
        entry.access_granted <==> (ITEM_HEAD@ + "access-granted"@).is_prefix_of(log_item(entry)),
        !entry.access_granted <==> (ITEM_HEAD@ + "access-denied"@).is_prefix_of(log_item(entry)),
{
    reveal_strlit("access-granted");
    reveal_strlit("access-denied");
    let text = log_item(entry);
    let granted = ITEM_HEAD@ + "access-granted"@;
    let denied = ITEM_HEAD@ + "access-denied"@;
    let mark = ITEM_HEAD@.len() as int + 7;
    assert(granted[mark] == 'g');
    assert(denied[mark] == 'd');
    if !entry.access_granted {
        assert(denied =~= text.subrange(0, denied.len() as int));
        assert(text[mark] == 'd');
        if granted.is_prefix_of(text) {
            assert(granted[mark] == text.subrange(0, granted.len() as int)[mark]);
        }
    } else {
        assert(granted =~= text.subrange(0, granted.len() as int));
        assert(text[mark] == 'g');
        if denied.is_prefix_of(text) {
            assert(denied[mark] == text.subrange(0, denied.len() as int)[mark]);
        }
    }
}

/// An entry shows on the page its moment, its action as it is, and its confidence where it
/// has one, each in its place, whatever the others are.
pub proof fn law_entries_show_moment_action_and_confidence(entry: AccessLogView)
    ensures
        ({
            let class = if entry.access_granted {
                "access-granted"@
            } else {
                "access-denied"@
            };
            let shown = ITEM_HEAD@ + class + ITEM_AFTER_CLASS@ + log_time(entry.timestamp)
                + ITEM_AFTER_TIME@ + entry.action + ITEM_AFTER_ACTION@;
            &&& entry.confidence is None ==> log_item(entry) == shown + ITEM_TAIL@
            &&& entry.confidence is Some ==> log_item(entry) == shown + (" ("@ + signed_decimal(
                entry.confidence->0.percent as int,
            ) + "%)"@) + ITEM_TAIL@
        }),
{
    let shown = ITEM_HEAD@ + item_class(entry.access_granted) + ITEM_AFTER_CLASS@ + log_time(
        entry.timestamp,
    ) + ITEM_AFTER_TIME@ + entry.action + ITEM_AFTER_ACTION@;
    assert(shown + Seq::empty() =~= shown);
}

/// The page shows the number of people, the number of entries shown, and those entries: the
/// last ten of the log, or all where there are fewer, the newest first.
pub proof fn law_page_shows_counts_and_newest_entries(state: StateView)
    ensures
        ({
            let total = state.log.len();
            let shown = if total < 10 {
                total
            } else {
                10
            };
            let entries = Seq::new(shown, |i: int| state.log[total - 1 - i]);
            dashboard_page(state) == PAGE_HEAD@ + decimal(state.people.len()) + PAGE_AFTER_PEOPLE@
                + decimal(shown) + PAGE_AFTER_ATTEMPTS@ + log_items(entries) + PAGE_TAIL@
        }),
{
    let total = state.log.len();
    let shown = if total < 10 {
        total
    } else {
        10
    };
    assert(newest_first(state.log, ENTRIES_SHOWN as nat) =~= Seq::new(
        shown,
        |i: int| state.log[total - 1 - i],
    ));
}

/// No entry is no text, and a single entry is the text of that entry: with the law on parts,
/// the entries stand on the page one after the other with nothing between them.
pub proof fn law_single_entries_stand_alone(entry: AccessLogView)
    ensures
        log_items(Seq::empty()) == Seq::<char>::empty(),
        log_items(seq![entry]) == log_item(entry),
{
    reveal_with_fuel(log_items, 2);
    assert(seq![entry].drop_last() =~= Seq::empty());
    assert(Seq::<char>::empty() + log_item(entry) =~= log_item(entry));
}

} // verus!
