//! Archive snapshots: a state machine that queries the web archive for the
//! closest snapshot of a URL, asks it to make one when allowed, reads the new
//! snapshot's time from the redirect, and queries once more when it cannot.
//! The caller performs each action and reports what came of it.

use vstd::prelude::*;
use crate::attribute::{Attribute, AttributeView, Date, Timestamp, is_valid_ymd, opt_view};
use crate::datetime::{digits_value, is_digit};
use crate::generator::ArchiveOptions;
use crate::text::{find_text, occurs_at};
use crate::zotero::{url_encode, url_encoded};

verus! {

/// The instant that a 14-digit archive timestamp `YYYYMMDDHHMMSS` (UTC) denotes.
pub open spec fn archive_timestamp_of(s: Seq<char>) -> Option<Timestamp> {
    if s.len() == 14 && (forall|i: int| 0 <= i < 14 ==> is_digit(#[trigger] s[i])) {
        let t = Timestamp {
            year: digits_value(s.subrange(0, 4)) as i32,
            month: digits_value(s.subrange(4, 6)) as u32,
            day: digits_value(s.subrange(6, 8)) as u32,
            hour: digits_value(s.subrange(8, 10)) as u32,
            minute: digits_value(s.subrange(10, 12)) as u32,
            second: digits_value(s.subrange(12, 14)) as u32,
        };
        if t.wf() {
            Some(t)
        } else {
            None
        }
    } else {
        None
    }
}

proof fn lemma_digits_value_bound(s: Seq<char>)
    requires
        forall|i: int| 0 <= i < s.len() ==> is_digit(#[trigger] s[i]),
    ensures
        0 <= digits_value(s),
        s.len() <= 4 ==> digits_value(s) < 10000,
        s.len() <= 3 ==> digits_value(s) < 1000,
        s.len() <= 2 ==> digits_value(s) < 100,
        s.len() <= 1 ==> digits_value(s) < 10,
    decreases s.len(),
{
    if s.len() > 0 {
        lemma_digits_value_bound(s.drop_last());
    }
}

fn digits_between(s: &str, from: usize, to: usize) -> (r: u32)
    requires
        from <= to <= s@.len(),
        to - from <= 4,
        forall|i: int| from <= i < to ==> is_digit(#[trigger] s@[i]),
    ensures
        r as int == digits_value(s@.subrange(from as int, to as int)),
{
    let mut acc: u32 = 0;
    let mut i: usize = from;
    while i < to
        invariant
            from <= i <= to <= s@.len(),
            to - from <= 4,
            forall|k: int| from <= k < to ==> is_digit(#[trigger] s@[k]),
            acc as int == digits_value(s@.subrange(from as int, i as int)),
        decreases to - i,
    {
        proof {
            let sub = s@.subrange(from as int, i as int);
            assert forall|k: int| 0 <= k < sub.len() implies is_digit(#[trigger] sub[k]) by {
                assert(sub[k] == s@[from + k]);
            }
            lemma_digits_value_bound(sub);
            assert(s@.subrange(from as int, i + 1).drop_last() =~= sub);
        }
        let c = s.get_char(i);
        acc = acc * 10 + (c as u32 - '0' as u32);
        i = i + 1;
    }
    acc
}

/// Reads a 14-digit archive timestamp.
pub fn parse_archive_timestamp(s: &str) -> (r: Option<Timestamp>)
    ensures
        r == archive_timestamp_of(s@),
{
    if s.unicode_len() != 14 {
        return None;
    }
    let mut i: usize = 0;
    while i < 14
        invariant
            s@.len() == 14,
            i <= 14,
            forall|k: int| 0 <= k < i ==> is_digit(#[trigger] s@[k]),
        decreases 14 - i,
    {
        let c = s.get_char(i);
        if !('0' <= c && c <= '9') {
            assert(!is_digit(s@[i as int]));
            return None;
        }
        i = i + 1;
    }
    let year = digits_between(s, 0, 4);
    let month = digits_between(s, 4, 6);
    let day = digits_between(s, 6, 8);
    let hour = digits_between(s, 8, 10);
    let minute = digits_between(s, 10, 12);
    let second = digits_between(s, 12, 14);
    let t = Timestamp { year: year as i32, month, day, hour, minute, second };
    if is_valid_ymd(t.year, month, day) && hour < 24 && minute < 60 && second < 60 {
        Some(t)
    } else {
        None
    }
}

/// The snapshot time in a save redirect: the 14 characters after the first
/// `/web/` of the location, read as an archive timestamp.
pub open spec fn location_timestamp_of(loc: Seq<char>) -> Option<Timestamp> {
    if exists|i: int| occurs_at(loc, "/web/"@, i) {
        let i = choose|i: int|
            occurs_at(loc, "/web/"@, i) && forall|j: int| 0 <= j < i ==> !occurs_at(loc, "/web/"@, j);
        if i + 19 <= loc.len() {
            archive_timestamp_of(loc.subrange(i + 5, i + 19))
        } else {
            None
        }
    } else {
        None
    }
}

/// Reads the new snapshot's time out of a save redirect.
pub fn parse_location_timestamp(location: &str) -> (r: Option<Timestamp>)
    ensures
        r == location_timestamp_of(location@),
{
    proof {
        reveal_strlit("/web/");
    }
    match find_text(location, "/web/") {
        Some(i) => {
            proof {
                let k = choose|k: int|
                    occurs_at(location@, "/web/"@, k) && forall|j: int|
                        0 <= j < k ==> !occurs_at(location@, "/web/"@, j);
                if k < i {
                } else if k > i {
                    assert(!occurs_at(location@, "/web/"@, i as int));
                }
                assert(k == i);
            }
            let n = location.unicode_len();
            if i <= n && n - i >= 19 {
                parse_archive_timestamp(location.substring_char(i + 5, i + 19))
            } else {
                None
            }
        },
        None => None,
    }
}

/// The address that asks the archive for the closest snapshot of `url`.
pub fn archive_query_url(url: &str) -> (r: String)
    ensures
        r@ == "https://archive.org/wayback/available?url="@ + url_encoded(url@),
{
    String::from_str("https://archive.org/wayback/available?url=").concat(url_encode(url).as_str())
}

/// The address that asks the archive to make a snapshot of `url`.
pub fn archive_save_url(url: &str) -> (r: String)
    ensures
        r@ == "https://web.archive.org/save/"@ + url@,
{
    String::from_str("https://web.archive.org/save/").concat(url)
}

/// A snapshot: where it is and when it was taken.
#[derive(Clone, Debug, PartialEq, Eq)]
pub struct ArchiveSnapshot {
    pub url: String,
    pub timestamp: Timestamp,
}

/// Where the archive step stands.
#[derive(Clone, Debug, PartialEq, Eq)]
pub enum ArchiveState {
    /// Not started.
    Idle,
    /// Waiting for the answer to a query; `after_save` when it is the retry.
    Querying { after_save: bool },
    /// Waiting for the answer to a save request.
    Saving,
    /// Pausing before the retry query.
    Waiting,
    /// Finished, with the snapshot found or made, if any.
    Done { found: Option<ArchiveSnapshot> },
}

/// What came of the last action.
#[derive(Clone, Debug, PartialEq, Eq)]
pub enum ArchiveEvent {
    /// The step is to start.
    Begin,
    /// The query's closest snapshot: its address and its 14-digit timestamp;
    /// nothing when there is none or the answer was unusable.
    QueryAnswered(Option<(String, String)>),
    /// The save request's redirect location.
    SaveAnswered(String),
    /// The pause is over.
    Waited,
    /// The archive could not be reached.
    Failed,
}

/// What the caller is to do next.
#[derive(Clone, Copy, Debug, PartialEq, Eq, Structural)]
pub enum ArchiveAction {
    Query,
    Save,
    Wait,
    Finish,
}

/// Whether a finished state holds no snapshot.
pub open spec fn done_empty(s: ArchiveState) -> bool {
    s matches ArchiveState::Done { found: None }
}

/// Whether a finished state holds the snapshot at `url` taken at `t`.
pub open spec fn done_with(s: ArchiveState, url: Seq<char>, t: Timestamp) -> bool {
    s matches ArchiveState::Done { found: Some(snap) } && snap.url@ == url && snap.timestamp == t
}

/// One step of the archive state machine: the next state and action for a
/// state, an event and the options.
pub open spec fn archive_step(
    state: ArchiveState,
    event: ArchiveEvent,
    options: ArchiveOptions,
    next: ArchiveState,
    action: ArchiveAction,
) -> bool {
    match state {
        ArchiveState::Done { .. } => next == state && action == ArchiveAction::Finish,
        _ => match event {
            ArchiveEvent::Failed => done_empty(next) && action == ArchiveAction::Finish,
            ArchiveEvent::Begin => if state is Idle && options.include_archived {
                next == (ArchiveState::Querying { after_save: false }) && action == ArchiveAction::Query
            } else {
                done_empty(next) && action == ArchiveAction::Finish
            },
            ArchiveEvent::QueryAnswered(answer) => match state {
                ArchiveState::Querying { after_save } => match answer {
                    Some((url, ts)) if archive_timestamp_of(ts@) is Some => done_with(
                        next,
                        url@,
                        archive_timestamp_of(ts@)->0,
                    ) && action == ArchiveAction::Finish,
                    _ => if !after_save && options.perform_archival {
                        next == ArchiveState::Saving && action == ArchiveAction::Save
                    } else {
                        done_empty(next) && action == ArchiveAction::Finish
                    },
                },
                _ => done_empty(next) && action == ArchiveAction::Finish,
            },
            ArchiveEvent::SaveAnswered(location) => match state {
                ArchiveState::Saving => match location_timestamp_of(location@) {
                    Some(t) => done_with(next, location@, t) && action == ArchiveAction::Finish,
                    None => next == ArchiveState::Waiting && action == ArchiveAction::Wait,
                },
                _ => done_empty(next) && action == ArchiveAction::Finish,
            },
            ArchiveEvent::Waited => if state is Waiting {
                next == (ArchiveState::Querying { after_save: true }) && action == ArchiveAction::Query
            } else {
                done_empty(next) && action == ArchiveAction::Finish
            },
        },
    }
}

/// The archive is never asked to make a snapshot unless the options allow it.
pub proof fn law_no_save_unless_allowed(
    state: ArchiveState,
    event: ArchiveEvent,
    options: ArchiveOptions,
    next: ArchiveState,
    action: ArchiveAction,
)
    requires
        archive_step(state, event, options, next, action),
        !options.perform_archival,
    ensures
        action != ArchiveAction::Save,
{
}

/// When the query finds no snapshot and making one is not allowed, the step
/// ends with no archive fields.
pub proof fn law_no_snapshot_no_archive(
    options: ArchiveOptions,
    next: ArchiveState,
    action: ArchiveAction,
)
    requires
        archive_step(
            ArchiveState::Querying { after_save: false },
            ArchiveEvent::QueryAnswered(None),
            options,
            next,
            action,
        ),
        !options.perform_archival,
    ensures
        action == ArchiveAction::Finish,
        archive_fields(next) == (None::<AttributeView>, None::<AttributeView>),
{
}

/// Advances the archive state machine by one event.
pub fn archive_next(state: ArchiveState, event: ArchiveEvent, options: ArchiveOptions) -> (r: (
    ArchiveState,
    ArchiveAction,
))
    ensures
        archive_step(state, event, options, r.0, r.1),
{
    let finished = (ArchiveState::Done { found: None }, ArchiveAction::Finish);
    match state {
        ArchiveState::Done { found } => (ArchiveState::Done { found }, ArchiveAction::Finish),
        _ => match event {
            ArchiveEvent::Failed => finished,
            ArchiveEvent::Begin => match state {
                ArchiveState::Idle => if options.include_archived {
                    (ArchiveState::Querying { after_save: false }, ArchiveAction::Query)
                } else {
                    finished
                },
                _ => finished,
            },
            ArchiveEvent::QueryAnswered(answer) => match state {
                ArchiveState::Querying { after_save } => {
                    match answer {
                        Some((url, ts)) => match parse_archive_timestamp(ts.as_str()) {
                            Some(t) => {
                                return (
                                    ArchiveState::Done { found: Some(ArchiveSnapshot { url, timestamp: t }) },
                                    ArchiveAction::Finish,
                                );
                            },
                            None => {},
                        },
                        None => {},
                    }
                    if !after_save && options.perform_archival {
                        (ArchiveState::Saving, ArchiveAction::Save)
                    } else {
                        finished
                    }
                },
                _ => finished,
            },
            ArchiveEvent::SaveAnswered(location) => match state {
                ArchiveState::Saving => match parse_location_timestamp(location.as_str()) {
                    Some(t) => (
                        ArchiveState::Done { found: Some(ArchiveSnapshot { url: location, timestamp: t }) },
                        ArchiveAction::Finish,
                    ),
                    None => (ArchiveState::Waiting, ArchiveAction::Wait),
                },
                _ => finished,
            },
            ArchiveEvent::Waited => match state {
                ArchiveState::Waiting => (ArchiveState::Querying { after_save: true }, ArchiveAction::Query),
                _ => finished,
            },
        },
    }
}

/// The URL to archive: the resolved URL when there is one, else the page's
/// own URL when it is not empty, else none.
pub open spec fn archive_target_of(resolved_url: Option<AttributeView>, page_url: Option<Seq<char>>) -> Option<
    Seq<char>,
> {
    match resolved_url {
        Some(AttributeView::Url(u)) => Some(u),
        _ => match page_url {
            Some(p) => if p.len() > 0 {
                Some(p)
            } else {
                None
            },
            None => None,
        },
    }
}

/// Picks the URL to archive.
pub fn archive_target(resolved_url: &Option<Attribute>, page_url: &Option<String>) -> (r: Option<String>)
    ensures
        match archive_target_of(opt_view(*resolved_url), match *page_url {
            Some(p) => Some(p@),
            None => None,
        }) {
            Some(u) => r matches Some(s) && s@ == u,
            None => r is None,
        },
{
    match resolved_url {
        Some(Attribute::Url(u)) => Some(u.clone()),
        _ => match page_url {
            Some(p) => if p.as_str().unicode_len() > 0 {
                Some(p.clone())
            } else {
                None
            },
            None => None,
        },
    }
}

/// The archive fields a state gives: the snapshot's address and its time
/// when it holds one, neither otherwise.
pub open spec fn archive_fields(s: ArchiveState) -> (Option<AttributeView>, Option<AttributeView>) {
    match s {
        ArchiveState::Done { found: Some(snap) } => (
            Some(AttributeView::ArchiveUrl(snap.url@)),
            Some(AttributeView::ArchiveDate(Date::DateTime(snap.timestamp))),
        ),
        _ => (None, None),
    }
}

/// The archive fields of a state.
pub fn archive_attributes(state: &ArchiveState) -> (r: (Option<Attribute>, Option<Attribute>))
    ensures
        (opt_view(r.0), opt_view(r.1)) == archive_fields(*state),
{
    match state {
        ArchiveState::Done { found: Some(snap) } => (
            Some(Attribute::ArchiveUrl(snap.url.clone())),
            Some(Attribute::ArchiveDate(Date::DateTime(snap.timestamp))),
        ),
        _ => (None, None),
    }
}

} // verus!
