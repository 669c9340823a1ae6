//! What the values that the memory is made of say, call by call.
//!
//! Instants and days, scores, texts and free-form data: each law takes the
//! arguments and the result of a call and says how they are related.

use crate::chunk::{MemoryChunk, MemoryTier, NewMemoryChunk};
use crate::error::{ErrorView, MemoryError};
use crate::importance::{lemma_value_order, score, Importance};
use crate::json::{member, text_at, Json, JsonView};
use crate::ops::{AccessEntry, EvictionEntry};
use crate::rollup::{SummaryTarget, TargetView};
use crate::session::{MemorySession, NewMemorySession, SessionOutcome};
use crate::sort::{sort_by_time, Stamped};
use crate::summarizer::{map_summarizer_error, SummarizerError, SummaryContext};
use crate::text::{blank, copy_opt, decimal_text, has_substring, is_blank};
use crate::time::{Date, Timestamp};
use vstd::prelude::*;

verus! {

// Instants and days

/// An instant is made of any seconds and nanoseconds in range, and of no other,
/// and gives both back.
pub proof fn law_instant_gives_back_its_parts(
    secs: i64,
    nanos: u32,
    r: Option<Timestamp>,
    unix: i64,
    subsec: u32,
)
    requires
        call_ensures(Timestamp::new, (secs, nanos), r),
        r is Some ==> call_ensures(Timestamp::unix_secs, (&r->Some_0,), unix),
        r is Some ==> call_ensures(Timestamp::subsec_nanos, (&r->Some_0,), subsec),
    ensures
        r is Some <==> -8_334_601_228_800 <= secs <= 8_210_266_876_799 && nanos < 2_000_000_000,
        r is Some ==> unix == secs && subsec == nanos,
        r is Some ==> r->Some_0.secs() == secs && r->Some_0.nanos() == nanos,
{
}

/// Of two instants that is before which has fewer seconds or, where these are
/// the same, fewer nanoseconds; the ranks are ordered in the same way.
pub proof fn law_instants_are_ordered_by_their_parts(
    secs: i64,
    nanos: u32,
    a: Timestamp,
    other_secs: i64,
    other_nanos: u32,
    b: Timestamp,
    before: bool,
)
    requires
        call_ensures(Timestamp::new, (secs, nanos), Some(a)),
        call_ensures(Timestamp::new, (other_secs, other_nanos), Some(b)),
        call_ensures(Timestamp::is_before, (&a, &b), before),
    ensures
        before <==> secs < other_secs || (secs == other_secs && nanos < other_nanos),
        a.rank() < b.rank() <==> before,
        a.rank() == b.rank() <==> secs == other_secs && nanos == other_nanos,
{
}

/// An instant falls on the day within whose 86400 seconds it lies, and on that
/// day from its first second to its last.
pub proof fn law_instant_falls_within_its_day(t: Timestamp, d: Date, number: i32)
    requires
        call_ensures(Timestamp::date, (&t,), d),
        call_ensures(Date::number, (&d,), number),
    ensures
        (number - 719_163) * 86_400 <= t.secs() < (number - 719_162) * 86_400,
        d.day() == number,
        t.day() == number,
{
}

/// Days that are taken off an instant can be put back on, and the nanoseconds
/// stay.
pub proof fn law_earlier_instant_is_days_before(t: Timestamp, days: i64, r: Timestamp)
    requires
        call_ensures(Timestamp::minus_days, (&t, days), r),
    ensures
        r.secs() + 86_400 * days == t.secs(),
        r.nanos() == t.nanos(),
{
}

/// The clock shows no instant before 1970, and no leap second.
pub proof fn law_clock_is_past_the_epoch(t: Timestamp)
    requires
        call_ensures(Timestamp::now, (), t),
    ensures
        t.secs() >= 0,
        0 <= t.nanos() < 1_000_000_000,
{
}

/// A date is made of any number in range, and of no other, and gives it back.
pub proof fn law_date_gives_back_its_number(day: i32, r: Option<Date>, number: i32)
    requires
        call_ensures(Date::new, (day,), r),
        r is Some ==> call_ensures(Date::number, (&r->Some_0,), number),
    ensures
        r is Some <==> -95_746_129 <= day <= 95_745_399,
        r is Some ==> number == day && r->Some_0.day() == day,
{
}

/// Days that are put on a date are counted, up to the end of the calendar.
pub proof fn law_later_date_is_days_after(
    d: Date,
    days: u32,
    r: Option<Date>,
    number: i32,
    later: i32,
)
    requires
        call_ensures(Date::plus_days, (&d, days), r),
        call_ensures(Date::number, (&d,), number),
        r is Some ==> call_ensures(Date::number, (&r->Some_0,), later),
    ensures
        r is Some <==> number + days <= 95_745_399,
        r is Some ==> later == number + days,
{
}

/// Dates with one number have one text.
pub proof fn law_date_text_follows_the_number(
    a: Date,
    b: Date,
    x: i32,
    y: i32,
    s: String,
    t: String,
)
    requires
        call_ensures(Date::number, (&a,), x),
        call_ensures(Date::number, (&b,), y),
        call_ensures(Date::to_text, (&a,), s),
        call_ensures(Date::to_text, (&b,), t),
    ensures
        x == y ==> s@ == t@,
        s@ == a.text(),
{
}

// Scores

/// Scores compare as the numbers that their bits stand for: a NaN with nothing,
/// the two zeros as one, and else by sign and magnitude.
pub proof fn law_scores_compare_as_numbers(a: Importance, b: Importance, below: bool, at_least: bool)
    requires
        call_ensures(Importance::is_below, (&a, &b), below),
        call_ensures(Importance::is_at_least, (&a, &b), at_least),
    ensures
        ({
            let nan = a.bits % 0x8000_0000 > 0x7f80_0000 || b.bits % 0x8000_0000 > 0x7f80_0000;
            &&& nan ==> !below && !at_least
            &&& !nan ==> at_least == !below
            &&& !nan && a.bits < 0x8000_0000 && b.bits < 0x8000_0000 ==> (below <==> a.bits
                < b.bits)
            &&& !nan && a.bits >= 0x8000_0000 && b.bits >= 0x8000_0000 ==> (below <==> a.bits
                > b.bits)
            &&& !nan && a.bits >= 0x8000_0000 && b.bits < 0x8000_0000 ==> (below <==> a.bits
                != 0x8000_0000 || b.bits != 0)
            &&& a.bits < 0x8000_0000 && b.bits >= 0x8000_0000 ==> !below
        }),
        a.lt(b) == below,
        a.ge(b) == at_least,
{
    lemma_value_order(a, b);
}

/// The score zero is the positive zero.
pub proof fn law_zero_is_positive_zero(z: Importance)
    requires
        call_ensures(Importance::zero, (), z),
    ensures
        z.bits == 0,
{
}

/// A chunk is scored as its caller estimates, and with one half where there is
/// no estimate.
pub proof fn law_score_is_the_estimate(new: NewMemoryChunk, r: Importance)
    requires
        call_ensures(score, (&new,), r),
    ensures
        new.importance is Some ==> r == new.importance->Some_0,
        new.importance is None ==> r.bits == 0x3f00_0000,
{
}

// Texts

/// A text is blank when it has no character outside Unicode's white space.
pub proof fn law_blank_text_has_nothing_visible(s: &str, r: bool)
    requires
        call_ensures(is_blank, (s,), r),
    ensures
        r <==> forall|i: int|
            0 <= i < s@.len() ==> {
                let u = #[trigger] s@[i] as u32;
                0x9 <= u <= 0xd || u == 0x20 || u == 0x85 || u == 0xa0 || u == 0x1680 || 0x2000
                    <= u <= 0x200a || u == 0x2028 || u == 0x2029 || u == 0x202f || u == 0x205f
                    || u == 0x3000
            },
{
}

/// A text is found in every text that is made by putting something before it
/// and something after it, and in no other.
pub proof fn law_text_is_found_wherever_it_stands(s: Seq<char>, part: Seq<char>)
    ensures
        has_substring(s, part) <==> exists|head: Seq<char>, tail: Seq<char>|
            s == #[trigger] (head + part + tail),
{
    if has_substring(s, part) {
        let i = choose|i: int|
            0 <= i <= s.len() - part.len() && #[trigger] s.subrange(i, i + part.len()) == part;
        let head = s.take(i);
        let tail = s.skip(i + part.len());
        assert forall|k: int| 0 <= k < part.len() implies s[i + k] == part[k] by {
            assert(s.subrange(i, i + part.len())[k] == s[i + k]);
        }
        assert(s =~= head + part + tail);
    }
    if exists|head: Seq<char>, tail: Seq<char>| s == #[trigger] (head + part + tail) {
        let (head, tail) = choose|head: Seq<char>, tail: Seq<char>|
            s == #[trigger] (head + part + tail);
        let i = head.len() as int;
        assert(s.subrange(i, i + part.len()) =~= part);
    }
}

/// A number below ten is written as one digit, and any other as its tenth part
/// with the last digit behind it.
pub proof fn law_numbers_are_written_in_decimal(n: usize, s: String, tenth: String)
    requires
        call_ensures(decimal_text, (n,), s),
        call_ensures(decimal_text, ((n / 10) as usize,), tenth),
    ensures
        n < 10 ==> s@ == seq![(48 + n) as char],
        n >= 10 ==> s@ == tenth@.push((48 + n % 10) as char),
{
}

/// A copy of an optional text is that text.
pub proof fn law_copied_text_is_the_same(s: Option<String>, r: Option<String>)
    requires
        call_ensures(copy_opt, (&s,), r),
    ensures
        r is Some <==> s is Some,
        s is Some ==> r->Some_0@ == s->Some_0@,
{
}

// Free-form data

/// Free-form data shows its text, its members and its items one by one.
pub proof fn law_json_shows_what_it_holds(j: Json)
    ensures
        j is Null ==> j@ is Null,
        j is Bool ==> j@ == JsonView::Bool(j->Bool_0),
        j is PosInt ==> j@ == JsonView::PosInt(j->PosInt_0),
        j is NegInt ==> j@ == JsonView::NegInt(j->NegInt_0),
        j is Float ==> j@ == JsonView::Float(j->Float_0),
        j is Text ==> j@ == JsonView::Text(j->Text_0@),
        j is Array ==> {
            let items = j->Array_0@;
            &&& j@ is Array
            &&& j@->Array_0.len() == items.len()
            &&& forall|i: int|
                0 <= i < items.len() ==> #[trigger] j@->Array_0[i] == items[i]@
        },
        j is Object ==> {
            let members = j->Object_0@;
            &&& j@ is Object
            &&& j@->Object_0.len() == members.len()
            &&& forall|i: int|
                0 <= i < members.len() ==> #[trigger] j@->Object_0[i] == (
                    members[i].0@,
                    members[i].1@,
                )
        },
{
    reveal_with_fuel(crate::json::json_view, 2);
}

/// The last member with a key is the one that counts.
proof fn lemma_last_member(members: Seq<(Seq<char>, JsonView)>, key: Seq<char>) -> (at: int)
    ensures
        member(members, key) is None ==> forall|i: int|
            0 <= i < members.len() ==> (#[trigger] members[i]).0 != key,
        member(members, key) is Some ==> {
            &&& 0 <= at < members.len()
            &&& members[at] == (key, member(members, key)->Some_0)
            &&& forall|i: int| at < i < members.len() ==> (#[trigger] members[i]).0 != key
        },
    decreases members.len(),
{
    if members.len() == 0 {
        0
    } else if members.last().0 == key {
        members.len() - 1
    } else {
        let rest = members.drop_last();
        let at = lemma_last_member(rest, key);
        assert forall|i: int| 0 <= i < rest.len() implies #[trigger] members[i] == rest[i] by {
        }
        at
    }
}

/// An object holds a text under a key when the last member with that key is a
/// text; nothing else holds any.
pub proof fn law_object_holds_its_last_text(j: JsonView, key: Seq<char>)
    ensures
        text_at(j, key) is Some ==> j is Object && exists|i: int|
            {
                &&& 0 <= i < j->Object_0.len()
                &&& #[trigger] j->Object_0[i] == (key, JsonView::Text(text_at(j, key)->Some_0))
                &&& forall|k: int|
                    i < k < j->Object_0.len() ==> (#[trigger] j->Object_0[k]).0 != key
            },
        forall|i: int|
            {
                &&& j is Object
                &&& 0 <= i < j->Object_0.len()
                &&& (#[trigger] j->Object_0[i]).0 == key
                &&& forall|k: int|
                    i < k < j->Object_0.len() ==> (#[trigger] j->Object_0[k]).0 != key
            } ==> text_at(j, key) == match j->Object_0[i].1 {
                JsonView::Text(s) => Some(s),
                _ => None,
            },
{
    if j is Object {
        let all = j->Object_0;
        let at = lemma_last_member(all, key);
        if text_at(j, key) is Some {
            assert(all[at] == (key, JsonView::Text(text_at(j, key)->Some_0)));
        }
        assert forall|i: int|
            0 <= i < all.len() && (#[trigger] all[i]).0 == key && (forall|k: int|
                i < k < all.len() ==> (#[trigger] all[k]).0 != key) implies text_at(j, key)
            == match all[i].1 {
            JsonView::Text(s) => Some(s),
            _ => None,
        } by {
            assert(member(all, key) is Some);
            assert(at == i) by {
                assert(all[at].0 == key);
            }
        }
    }
}

/// Looking up a text gives the text of the last member with the key, as it was
/// handed in.
pub proof fn law_lookup_gives_the_last_text(j: Json, key: &str, r: Option<&String>)
    requires
        call_ensures(Json::get_text, (&j, key), r),
    ensures
        r is Some ==> j is Object && exists|i: int|
            {
                &&& 0 <= i < j->Object_0@.len()
                &&& (#[trigger] j->Object_0@[i]).0@ == key@
                &&& j->Object_0@[i].1 is Text
                &&& j->Object_0@[i].1->Text_0@ == r->Some_0@
                &&& forall|k: int| i < k < j->Object_0@.len()
                    ==> (#[trigger] j->Object_0@[k]).0@ != key@
            },
        forall|i: int|
            {
                &&& j is Object
                &&& 0 <= i < j->Object_0@.len()
                &&& (#[trigger] j->Object_0@[i]).0@ == key@
                &&& j->Object_0@[i].1 is Text
                &&& forall|k: int| i < k < j->Object_0@.len()
                    ==> (#[trigger] j->Object_0@[k]).0@ != key@
            } ==> r is Some && r->Some_0@ == j->Object_0@[i].1->Text_0@,
{
    law_json_shows_what_it_holds(j);
    if j is Object {
        let members = j->Object_0@;
        let all = j@->Object_0;
        let at = lemma_last_member(all, key@);
        if r is Some {
            assert(all[at] == (members[at].0@, members[at].1@));
            law_json_shows_what_it_holds(members[at].1);
            assert forall|k: int| at < k < members.len() implies (
            #[trigger] members[k]).0@ != key@ by {
                assert(all[k].0 != key@);
            }
            assert(members[at].0@ == key@);
        }
        assert forall|i: int|
            0 <= i < members.len() && (#[trigger] members[i]).0@ == key@ && members[i].1 is Text
                && (
            forall|k: int|
                i < k < members.len() ==> (#[trigger] members[k]).0@ != key@) implies r is Some
            && r->Some_0@ == members[i].1->Text_0@ by {
            assert(all[i] == (members[i].0@, members[i].1@));
            law_json_shows_what_it_holds(members[i].1);
            assert(member(all, key@) is Some);
            assert(at == i) by {
                assert(all[at].0 == key@);
                if at > i {
                    assert(members[at].0@ != key@);
                }
            }
        }
    }
}

// Records

/// What a chunk shows is what it holds, field by field.
pub proof fn law_chunk_shows_every_field(c: MemoryChunk)
    ensures
        c@.id == c.id@,
        c@.created_at == c.created_at,
        c@.kind == c.kind,
        c@.tier == c.tier,
        c@.source == c.source,
        c@.session_id is Some <==> c.session_id is Some,
        c.session_id is Some ==> c@.session_id->Some_0 == c.session_id->Some_0@,
        c@.project_root is Some <==> c.project_root is Some,
        c.project_root is Some ==> c@.project_root->Some_0 == c.project_root->Some_0@,
        c@.caller_id == c.caller_id@,
        c@.content == c.content@,
        c@.metadata == c.metadata@,
        c@.importance == c.importance,
        c@.pinned == c.pinned,
        c@.shareable == c.shareable,
        c@.superseded_by is Some <==> c.superseded_by is Some,
        c.superseded_by is Some ==> c@.superseded_by->Some_0 == c.superseded_by->Some_0@,
        c@.embedding_model == c.embedding_model@,
        c@.embedding_dim == c.embedding_dim,
{
}

/// What a chunk to write shows is what it holds, field by field.
pub proof fn law_new_chunk_shows_every_field(c: NewMemoryChunk)
    ensures
        c@.kind == c.kind,
        c@.source == c.source,
        c@.session_id is Some <==> c.session_id is Some,
        c.session_id is Some ==> c@.session_id->Some_0 == c.session_id->Some_0@,
        c@.project_root is Some <==> c.project_root is Some,
        c.project_root is Some ==> c@.project_root->Some_0 == c.project_root->Some_0@,
        c@.caller_id == c.caller_id@,
        c@.content == c.content@,
        c@.metadata == c.metadata@,
        c@.importance == c.importance,
        c@.pinned == c.pinned,
        c@.shareable == c.shareable,
{
}

/// What a session shows is what it holds, field by field.
pub proof fn law_session_shows_every_field(s: MemorySession)
    ensures
        s@.id == s.id@,
        s@.started_at == s.started_at,
        s@.ended_at == s.ended_at,
        s@.caller_id == s.caller_id@,
        s@.title is Some <==> s.title is Some,
        s.title is Some ==> s@.title->Some_0 == s.title->Some_0@,
        s@.summary is Some <==> s.summary is Some,
        s.summary is Some ==> s@.summary->Some_0 == s.summary->Some_0@,
        s@.outcome == s.outcome,
        s@.metadata == s.metadata@,
{
}

/// What the logs show is what they hold, field by field.
pub proof fn law_log_entries_show_every_field(e: EvictionEntry, a: AccessEntry)
    ensures
        e@.ts == e.ts,
        e@.chunk_id == e.chunk_id@,
        e@.reason == e.reason,
        e@.metadata == e.metadata@,
        a@.ts == a.ts,
        a@.chunk_id == a.chunk_id@,
        a@.retrieved_by == a.retrieved_by@,
        a@.query_hash == a.query_hash@,
        a@.rank == a.rank,
        a@.used == a.used,
{
}

/// What an error and the remarks for a summarizer show is what they hold.
pub proof fn law_messages_show_their_texts(e: MemoryError, c: SummaryContext, t: SummaryTarget)
    ensures
        e is InvalidArgument ==> e@ == ErrorView::InvalidArgument(e->InvalidArgument_0@),
        e is NotFound ==> e@ == ErrorView::NotFound(e->NotFound_0@),
        e is NotImplemented ==> e@ == ErrorView::NotImplemented(e->NotImplemented_0@),
        e is Storage ==> e@ == ErrorView::Storage(e->Storage_0@),
        e is Provider ==> e@ == ErrorView::Provider(e->Provider_0@),
        e is Internal ==> e@ == ErrorView::Internal(e->Internal_0@),
        c@.kind_label is Some <==> c.kind_label is Some,
        c.kind_label is Some ==> c@.kind_label->Some_0 == c.kind_label->Some_0@,
        c@.note is Some <==> c.note is Some,
        c.note is Some ==> c@.note->Some_0 == c.note->Some_0@,
        c@.max_words == c.max_words,
        t is Session ==> t@ == (TargetView::Session {
            session_id: t->session_id@,
            caller_id: t->caller_id@,
        }),
        t is Day ==> t@ == (TargetView::Day { date: t->date@ }),
        t is RuleWeek ==> t@ == (TargetView::RuleWeek {
            rule_id: t->rule_id@,
            week_start: t->week_start@,
        }),
{
}

/// A clone holds what its original holds.
pub proof fn law_clones_hold_the_same(
    c: MemoryChunk,
    c2: MemoryChunk,
    s: MemorySession,
    s2: MemorySession,
    j: Json,
    j2: Json,
)
    requires
        call_ensures(MemoryChunk::clone, (&c,), c2),
        call_ensures(MemorySession::clone, (&s,), s2),
        call_ensures(Json::clone, (&j,), j2),
    ensures
        c2.id@ == c.id@,
        c2.created_at == c.created_at,
        c2.kind == c.kind,
        c2.tier == c.tier,
        c2.source == c.source,
        c2.session_id is Some <==> c.session_id is Some,
        c.session_id is Some ==> c2.session_id->Some_0@ == c.session_id->Some_0@,
        c2.project_root is Some <==> c.project_root is Some,
        c.project_root is Some ==> c2.project_root->Some_0@ == c.project_root->Some_0@,
        c2.caller_id@ == c.caller_id@,
        c2.content@ == c.content@,
        c2.metadata@ == c.metadata@,
        c2.importance == c.importance,
        c2.pinned == c.pinned,
        c2.shareable == c.shareable,
        c2.superseded_by is Some <==> c.superseded_by is Some,
        c.superseded_by is Some ==> c2.superseded_by->Some_0@ == c.superseded_by->Some_0@,
        c2.embedding_model@ == c.embedding_model@,
        c2.embedding_dim == c.embedding_dim,
        s2.id@ == s.id@,
        s2.started_at == s.started_at,
        s2.ended_at == s.ended_at,
        s2.caller_id@ == s.caller_id@,
        s2.title is Some <==> s.title is Some,
        s.title is Some ==> s2.title->Some_0@ == s.title->Some_0@,
        s2.summary is Some <==> s.summary is Some,
        s.summary is Some ==> s2.summary->Some_0@ == s.summary->Some_0@,
        s2.outcome == s.outcome,
        s2.metadata@ == s.metadata@,
        j2@ == j@,
{
    assert(c2@ == c@);
    assert(s2@ == s@);
}

/// A clone of a log entry holds what its original holds.
pub proof fn law_cloned_entries_hold_the_same(
    e: EvictionEntry,
    e2: EvictionEntry,
    a: AccessEntry,
    a2: AccessEntry,
)
    requires
        call_ensures(EvictionEntry::clone, (&e,), e2),
        call_ensures(AccessEntry::clone, (&a,), a2),
    ensures
        e2.ts == e.ts,
        e2.chunk_id@ == e.chunk_id@,
        e2.reason == e.reason,
        e2.metadata@ == e.metadata@,
        a2.ts == a.ts,
        a2.chunk_id@ == a.chunk_id@,
        a2.retrieved_by@ == a.retrieved_by@,
        a2.query_hash@ == a.query_hash@,
        a2.rank == a.rank,
        a2.used == a.used,
{
    assert(e2@ == e@);
    assert(a2@ == a@);
}

/// A chunk to write is stored with every field that it was handed in with.
pub proof fn law_stored_chunk_keeps_every_field(
    new: NewMemoryChunk,
    score: Importance,
    id: String,
    at: Timestamp,
    c: MemoryChunk,
)
    requires
        call_ensures(NewMemoryChunk::into_stored, (new, score, id, at), c),
    ensures
        c.id@ == id@,
        c.created_at == at,
        c.kind == new.kind,
        c.tier == MemoryTier::Session,
        c.source == new.source,
        c.session_id is Some <==> new.session_id is Some,
        new.session_id is Some ==> c.session_id->Some_0@ == new.session_id->Some_0@,
        c.project_root is Some <==> new.project_root is Some,
        new.project_root is Some ==> c.project_root->Some_0@ == new.project_root->Some_0@,
        c.caller_id@ == new.caller_id@,
        c.content@ == new.content@,
        c.metadata@ == new.metadata@,
        c.importance == score,
        c.pinned == new.pinned,
        c.shareable == new.shareable,
        c.superseded_by is None,
        c.embedding_model@ == "none"@,
        c.embedding_dim == 0,
{
    assert(c@.session_id is Some <==> new@.session_id is Some);
}

/// The stand-in for a redacted chunk keeps where it belongs and tells nothing
/// of what it said but the reason.
pub proof fn law_stand_in_tells_the_reason_alone(
    new: NewMemoryChunk,
    reason: &str,
    id: String,
    at: Timestamp,
    c: MemoryChunk,
)
    requires
        call_ensures(NewMemoryChunk::into_redacted, (new, reason, id, at), c),
    ensures
        c.id@ == id@,
        c.created_at == at,
        c.kind == new.kind,
        c.tier == MemoryTier::Session,
        c.source == new.source,
        c.session_id is Some <==> new.session_id is Some,
        new.session_id is Some ==> c.session_id->Some_0@ == new.session_id->Some_0@,
        c.project_root is Some <==> new.project_root is Some,
        new.project_root is Some ==> c.project_root->Some_0@ == new.project_root->Some_0@,
        c.caller_id@ == new.caller_id@,
        c.content@ == "<redacted: "@ + reason@ + ">"@,
        c.metadata@ == JsonView::Object(
            seq![("reason"@, JsonView::Text(reason@)), ("redacted"@, JsonView::Bool(true))],
        ),
        c.importance.bits == 0,
        !c.pinned,
        !c.shareable,
        c.superseded_by is None,
        c.embedding_model@ == "none"@,
        c.embedding_dim == 0,
{
    assert(c@.session_id is Some <==> new@.session_id is Some);
}

/// A session is opened with every field that it was handed in with.
pub proof fn law_opening_keeps_every_field(
    init: NewMemorySession,
    id: String,
    at: Timestamp,
    s: MemorySession,
)
    requires
        call_ensures(NewMemorySession::into_opened, (init, id, at), s),
    ensures
        s.id@ == id@,
        s.started_at == at,
        s.ended_at is None,
        s.caller_id@ == init.caller_id@,
        s.title is Some <==> init.title is Some,
        init.title is Some ==> s.title->Some_0@ == init.title->Some_0@,
        s.summary is None,
        s.outcome == SessionOutcome::Open,
        s.metadata@ == init.metadata@,
{
    assert(s@.title is Some <==> init.title is Some);
}

/// A summarizer's failure is reported with its name and its own words.
pub proof fn law_summarizer_failure_is_reported(name: &str, e: SummarizerError, r: MemoryError)
    requires
        call_ensures(map_summarizer_error, (name, e), r),
    ensures
        e is NoInput ==> r is InvalidArgument && r->InvalidArgument_0@
            == "summarizer received no input"@,
        e is Failed ==> r is Provider && r->Provider_0@ == "summarizer "@ + name@ + " failed: "@
            + e->Failed_0@,
{
}

/// Sorting keeps every item as often as it came, and puts the earlier first or
/// the later first, as asked.
pub proof fn law_sorting_orders_by_time(items: Vec<Stamped>, newest_first: bool, r: Vec<Stamped>)
    requires
        call_ensures(sort_by_time, (&items, newest_first), r),
    ensures
        forall|x: Stamped| r@.to_multiset().count(x) == items@.to_multiset().count(x),
        forall|i: int, j: int|
            0 <= i < j < r@.len() ==> if newest_first {
                (#[trigger] r@[i]).0.rank() >= (#[trigger] r@[j]).0.rank()
            } else {
                r@[i].0.rank() <= r@[j].0.rank()
            },
{
}

} // verus!
