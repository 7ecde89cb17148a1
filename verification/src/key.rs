//! Object keys: `<prefix>events/<day>/<event id>.json`.

use vstd::prelude::*;

use crate::audit::AuditEvent;
use crate::calendar;

verus! {

/// Characters that an event id keeps in an object key.
pub open spec fn key_safe(c: char) -> bool {
    ||| 'a' <= c <= 'z'
    ||| 'A' <= c <= 'Z'
    ||| '0' <= c <= '9'
    ||| c == '.'
    ||| c == '_'
    ||| c == '-'
}

/// Every character of `s` is safe in a key.
pub open spec fn all_key_safe(s: Seq<char>) -> bool {
    forall|i: int| 0 <= i < s.len() ==> key_safe(#[trigger] s[i])
}

/// What stands for `c` in a key.
pub open spec fn safe_char(c: char) -> char {
    if key_safe(c) {
        c
    } else {
        '_'
    }
}

/// An event id made safe for a key: every unsafe character becomes `_`, and
/// the empty id becomes `no-id`.
pub open spec fn sanitized(s: Seq<char>) -> Seq<char> {
    if s.len() == 0 {
        "no-id"@
    } else {
        Seq::new(s.len(), |i: int| safe_char(s[i]))
    }
}

/// The day under which an event that occurred at `t` is filed: the calendar
/// day `YYYY-MM-DD` that `t` begins with, or `undated` where it begins with
/// none.
pub open spec fn day_of(t: Seq<char>) -> Seq<char> {
    if t.len() >= 10 && calendar::calendar_day(t.take(10)) {
        t.take(10)
    } else {
        "undated"@
    }
}

/// The part of an object key that does not depend on the event id.
pub open spec fn day_folder(prefix: Seq<char>, occurred_at: Seq<char>) -> Seq<char> {
    prefix + "events/"@ + day_of(occurred_at) + "/"@
}

/// The object key of an event.
pub open spec fn key_of(prefix: Seq<char>, occurred_at: Seq<char>, event_id: Seq<char>) -> Seq<
    char,
> {
    day_folder(prefix, occurred_at) + sanitized(event_id) + ".json"@
}

/// Replaces every character of `s` that is not safe in a key by `_`; an
/// empty `s` gives `no-id`.
pub fn sanitize_key_component(s: &str) -> (r: String)
    ensures
        r@ == sanitized(s@),
{
    let mut cleaned = String::new();
    for c in it: s.chars()
        invariant
            it.seq() == s@,
            cleaned@ == Seq::new(it.index() as nat, |i: int| safe_char(s@[i])),
    {
        if ('a' <= c && c <= 'z') || ('A' <= c && c <= 'Z') || ('0' <= c && c <= '9') || c == '.'
            || c == '_' || c == '-' {
            cleaned.push(c);
        } else {
            cleaned.push('_');
        }
    }
    if cleaned.as_str().is_empty() {
        "no-id".to_owned()
    } else {
        cleaned
    }
}

/// The day under which an event is filed.
fn event_day(occurred_at: &str) -> (r: String)
    ensures
        r@ == day_of(occurred_at@),
{
    if occurred_at.unicode_len() >= 10 {
        let day = occurred_at.substring_char(0, 10);
        if calendar::is_calendar_day(day) {
            return day.to_owned();
        }
    }
    "undated".to_owned()
}

/// Object key for an event: `<prefix>events/<day>/<event_id>.json`.
///
/// The day is the calendar day that `occurred_at` begins with, `undated` where
/// it begins with none, for cheap prefix-range queries. The event id keys the
/// object and is made safe first, so that a crafted id cannot inject path
/// segments.
pub fn object_key(prefix: &str, event: &AuditEvent) -> (key: String)
    ensures
        key@ == key_of(prefix@, event.occurred_at@, event.event_id@),
{
    let day = event_day(event.occurred_at.as_str());
    let id = sanitize_key_component(event.event_id.as_str());
    let mut key = String::new();
    key.append(prefix);
    key.append("events/");
    key.append(day.as_str());
    key.append("/");
    key.append(id.as_str());
    key.append(".json");
    key
}

/// Whatever the event id, what stands for it in a key is not empty and holds
/// safe characters only; in particular it holds no `/`.
pub proof fn law_sanitized_is_key_safe(event_id: Seq<char>)
    ensures
        sanitized(event_id).len() > 0,
        all_key_safe(sanitized(event_id)),
        !sanitized(event_id).contains('/'),
{
    reveal_strlit("no-id");
}

/// An id that is not empty and holds safe characters only is kept as it is.
pub proof fn law_safe_id_is_kept(event_id: Seq<char>)
    requires
        event_id.len() > 0,
        all_key_safe(event_id),
    ensures
        sanitized(event_id) == event_id,
{
}

/// Making an id safe twice gives what making it safe once gives.
pub proof fn law_sanitizing_is_idempotent(event_id: Seq<char>)
    ensures
        sanitized(sanitized(event_id)) == sanitized(event_id),
{
    law_sanitized_is_key_safe(event_id);
    law_safe_id_is_kept(sanitized(event_id));
}

/// A crafted id cannot forge a key segment: every key lies in its day
/// folder, and what follows the folder is the safe id and `.json`, without
/// any `/`.
pub proof fn law_id_cannot_inject_segments(
    prefix: Seq<char>,
    occurred_at: Seq<char>,
    event_id: Seq<char>,
)
    ensures
        day_folder(prefix, occurred_at).is_prefix_of(key_of(prefix, occurred_at, event_id)),
        key_of(prefix, occurred_at, event_id).skip(day_folder(prefix, occurred_at).len() as int)
            == sanitized(event_id) + ".json"@,
        !key_of(prefix, occurred_at, event_id).skip(
            day_folder(prefix, occurred_at).len() as int,
        ).contains('/'),
{
    let folder = day_folder(prefix, occurred_at);
    let key = key_of(prefix, occurred_at, event_id);
    reveal_strlit(".json");
    law_sanitized_is_key_safe(event_id);
    assert(key.subrange(0, folder.len() as int) == folder);
    assert(key.skip(folder.len() as int) == sanitized(event_id) + ".json"@);
}

/// Two keys under one prefix are the same only where both the day and the
/// safe form of the id are.
pub proof fn law_key_determines_day_and_id(
    prefix: Seq<char>,
    occurred_at_1: Seq<char>,
    event_id_1: Seq<char>,
    occurred_at_2: Seq<char>,
    event_id_2: Seq<char>,
)
    ensures
        key_of(prefix, occurred_at_1, event_id_1) == key_of(prefix, occurred_at_2, event_id_2)
            <==> day_of(occurred_at_1) == day_of(occurred_at_2) && sanitized(event_id_1)
            == sanitized(event_id_2),
{
    let k1 = key_of(prefix, occurred_at_1, event_id_1);
    let k2 = key_of(prefix, occurred_at_2, event_id_2);
    if k1 == k2 {
        let f1 = day_folder(prefix, occurred_at_1);
        let f2 = day_folder(prefix, occurred_at_2);
        let s1 = sanitized(event_id_1);
        let s2 = sanitized(event_id_2);
        reveal_strlit("/");
        reveal_strlit(".json");
        law_id_cannot_inject_segments(prefix, occurred_at_1, event_id_1);
        law_id_cannot_inject_segments(prefix, occurred_at_2, event_id_2);
        let t1 = s1 + ".json"@;
        let t2 = s2 + ".json"@;
        assert(k1 == f1 + t1);
        assert(k2 == f2 + t2);
        // Both folders end at the last slash of the common key.
        assert(k1[f1.len() - 1] == '/');
        assert(k2[f2.len() - 1] == '/');
        if f1.len() < f2.len() {
            assert(t1[f2.len() - 1 - f1.len()] == '/');
        }
        if f2.len() < f1.len() {
            assert(t2[f1.len() - 1 - f2.len()] == '/');
        }
        assert(f1 == k1.take(f1.len() as int));
        assert(f2 == k2.take(f2.len() as int));
        let head = prefix + "events/"@;
        let d1 = day_of(occurred_at_1);
        let d2 = day_of(occurred_at_2);
        assert(d1 == f1.subrange(head.len() as int, f1.len() - 1));
        assert(d2 == f2.subrange(head.len() as int, f2.len() - 1));
        assert(s1 == k1.subrange(f1.len() as int, k1.len() - 5));
        assert(s2 == k2.subrange(f2.len() as int, k2.len() - 5));
    }
}

/// The event id keys the object: under one prefix, events whose ids are not
/// empty, hold safe characters only and differ are stored under different
/// keys, whenever they occurred.
pub proof fn law_distinct_ids_have_distinct_keys(
    prefix: Seq<char>,
    occurred_at_1: Seq<char>,
    event_id_1: Seq<char>,
    occurred_at_2: Seq<char>,
    event_id_2: Seq<char>,
)
    requires
        event_id_1.len() > 0,
        all_key_safe(event_id_1),
        event_id_2.len() > 0,
        all_key_safe(event_id_2),
        event_id_1 != event_id_2,
    ensures
        key_of(prefix, occurred_at_1, event_id_1) != key_of(prefix, occurred_at_2, event_id_2),
{
    law_key_determines_day_and_id(prefix, occurred_at_1, event_id_1, occurred_at_2, event_id_2);
    law_safe_id_is_kept(event_id_1);
    law_safe_id_is_kept(event_id_2);
}

/// A time stamp is filed under the ten characters it begins with exactly if
/// these write a calendar day, whatever follows them.
pub proof fn law_day_is_the_leading_date(occurred_at: Seq<char>)
    requires
        occurred_at.len() >= 10,
    ensures
        day_of(occurred_at) == occurred_at.take(10) <==> calendar::calendar_day(
            occurred_at.take(10),
        ),
{
    reveal_strlit("undated");
}

/// The day of a key is `undated` or a calendar day, never other text of the
/// event; in particular it holds no `/`.
pub proof fn law_day_is_a_date_or_undated(occurred_at: Seq<char>)
    ensures
        day_of(occurred_at) == "undated"@ || calendar::calendar_day(day_of(occurred_at)),
        !day_of(occurred_at).contains('/'),
{
    reveal_strlit("undated");
    if calendar::calendar_day(day_of(occurred_at)) {
        calendar::law_calendar_day_charset(day_of(occurred_at));
    }
}

/// The number of slashes in `s`.
pub open spec fn slashes(s: Seq<char>) -> nat
    decreases s.len(),
{
    if s.len() == 0 {
        0
    } else {
        slashes(s.drop_last()) + if s.last() == '/' {
            1nat
        } else {
            0nat
        }
    }
}

proof fn lemma_slashes_concat(a: Seq<char>, b: Seq<char>)
    ensures
        slashes(a + b) == slashes(a) + slashes(b),
    decreases b.len(),
{
    if b.len() == 0 {
        assert(a + b == a);
    } else {
        assert((a + b).drop_last() == a + b.drop_last());
        lemma_slashes_concat(a, b.drop_last());
    }
}

proof fn lemma_no_slashes(s: Seq<char>)
    requires
        !s.contains('/'),
    ensures
        slashes(s) == 0,
    decreases s.len(),
{
    if s.len() > 0 {
        assert(s.contains(s.last()));
        assert forall|i: int| 0 <= i < s.drop_last().len() implies s.drop_last()[i] != '/' by {
            assert(s.contains(s[i]));
        }
        lemma_no_slashes(s.drop_last());
    }
}

/// No text of an event forges a key segment: every key has exactly two more
/// slashes than its prefix.
pub proof fn law_key_has_two_more_slashes(
    prefix: Seq<char>,
    occurred_at: Seq<char>,
    event_id: Seq<char>,
)
    ensures
        slashes(key_of(prefix, occurred_at, event_id)) == slashes(prefix) + 2,
{
    let day = day_of(occurred_at);
    let id = sanitized(event_id);
    reveal_strlit("events/");
    reveal_strlit("/");
    reveal_strlit(".json");
    assert("events/"@ == seq!['e', 'v', 'e', 'n', 't', 's'] + "/"@);
    assert(slashes("/"@) == 1) by {
        reveal_with_fuel(slashes, 2);
    }
    lemma_slashes_concat(seq!['e', 'v', 'e', 'n', 't', 's'], "/"@);
    lemma_no_slashes(seq!['e', 'v', 'e', 'n', 't', 's']);
    lemma_no_slashes(".json"@);
    law_day_is_a_date_or_undated(occurred_at);
    lemma_no_slashes(day);
    law_sanitized_is_key_safe(event_id);
    lemma_no_slashes(id);
    lemma_slashes_concat(prefix, "events/"@);
    lemma_slashes_concat(prefix + "events/"@, day);
    lemma_slashes_concat(prefix + "events/"@ + day, "/"@);
    lemma_slashes_concat(day_folder(prefix, occurred_at), id);
    lemma_slashes_concat(day_folder(prefix, occurred_at) + id, ".json"@);
}

/// The keys that begin with the folder of a day are exactly those of the
/// events of that day, whatever their ids.
pub proof fn law_day_folder_holds_that_day(
    prefix: Seq<char>,
    occurred_at: Seq<char>,
    event_id: Seq<char>,
    queried: Seq<char>,
)
    ensures
        day_folder(prefix, queried).is_prefix_of(key_of(prefix, occurred_at, event_id))
            <==> day_of(queried) == day_of(occurred_at),
{
    let key = key_of(prefix, occurred_at, event_id);
    let folder = day_folder(prefix, queried);
    law_id_cannot_inject_segments(prefix, occurred_at, event_id);
    if folder.is_prefix_of(key) {
        let head = prefix + "events/"@;
        let d1 = day_of(occurred_at);
        let d2 = day_of(queried);
        let rest1 = "/"@ + sanitized(event_id) + ".json"@;
        let rest2 = "/"@ + key.skip(folder.len() as int);
        assert(key == head + (d1 + rest1));
        assert(folder == head + (d2 + "/"@));
        assert(key == folder + key.skip(folder.len() as int));
        assert(key == head + (d2 + rest2));
        assert(key.skip(head.len() as int) == d1 + rest1);
        assert(key.skip(head.len() as int) == d2 + rest2);
        let common = key.skip(head.len() as int);
        reveal_strlit("undated");
        assert(d1[4] == common[4]);
        assert(d2[4] == common[4]);
        assert(d1 == common.take(d1.len() as int));
        assert(d2 == common.take(d2.len() as int));
    }
}

} // verus!
