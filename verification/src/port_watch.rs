//! Dynamic port discovery: the decisions of the file watcher that waits
//! for an externally-written numeric port.
//!
//! The embedding application registers a non-recursive filesystem watch
//! and, for every event it delivers, hands the kit one [`WatchEvent`];
//! [`watch_step`] decides whether that event resolves the wait, keeps it
//! open, or fails it. The first event whose trimmed file contents parse as
//! an unsigned 16-bit integer wins; every other event kind is ignored and
//! watching continues; a watcher-level failure ends the wait at once.

use vstd::prelude::*;

use crate::errors::ConfigError;

verus! {

/// Whitespace, as trimming understands it.
pub open spec fn spec_is_space(c: char) -> bool {
    c == ' ' || c == '\t' || c == '\n' || c == '\r' || c == '\u{b}' || c == '\u{c}'
}

/// Whitespace, as trimming understands it.
fn is_space(c: char) -> (r: bool)
    ensures
        r == spec_is_space(c),
{
    c == ' ' || c == '\t' || c == '\n' || c == '\r' || c == '\u{b}' || c == '\u{c}'
}

/// `s` without its leading whitespace.
pub open spec fn spec_trim_start(s: Seq<char>) -> Seq<char>
    decreases s.len(),
{
    if s.len() == 0 {
        s
    } else if spec_is_space(s[0]) {
        spec_trim_start(s.drop_first())
    } else {
        s
    }
}

/// `s` without its trailing whitespace.
pub open spec fn spec_trim_end(s: Seq<char>) -> Seq<char>
    decreases s.len(),
{
    if s.len() == 0 {
        s
    } else if spec_is_space(s.last()) {
        spec_trim_end(s.drop_last())
    } else {
        s
    }
}

/// `s` without leading and trailing whitespace.
pub open spec fn spec_trimmed(s: Seq<char>) -> Seq<char> {
    spec_trim_end(spec_trim_start(s))
}

proof fn lemma_trim_start_subrange(s: Seq<char>, lo: int)
    requires
        0 <= lo <= s.len(),
        forall|k: int| 0 <= k < lo ==> spec_is_space(#[trigger] s[k]),
        lo < s.len() ==> !spec_is_space(s[lo]),
    ensures
        spec_trim_start(s) == s.subrange(lo, s.len() as int),
    decreases lo,
{
    if lo == 0 {
        assert(s.subrange(0, s.len() as int) =~= s);
    } else {
        lemma_trim_start_subrange(s.drop_first(), lo - 1);
        assert(s.drop_first().subrange(lo - 1, s.drop_first().len() as int) =~= s.subrange(
            lo,
            s.len() as int,
        ));
    }
}

proof fn lemma_trim_end_subrange(s: Seq<char>, hi: int)
    requires
        0 <= hi <= s.len(),
        forall|k: int| hi <= k < s.len() ==> spec_is_space(#[trigger] s[k]),
        hi > 0 ==> !spec_is_space(s[hi - 1]),
    ensures
        spec_trim_end(s) == s.subrange(0, hi),
    decreases s.len() - hi,
{
    if hi == s.len() {
        assert(s.subrange(0, hi) =~= s);
    } else {
        lemma_trim_end_subrange(s.drop_last(), hi);
        assert(s.drop_last().subrange(0, hi) =~= s.subrange(0, hi));
    }
}

/// A decimal digit.
pub open spec fn spec_is_digit(c: char) -> bool {
    48 <= c as int <= 57
}

/// The numeric value of a digit string, most significant digit first.
pub open spec fn spec_digits_value(s: Seq<char>) -> int
    decreases s.len(),
{
    if s.len() == 0 {
        0
    } else {
        spec_digits_value(s.drop_last()) * 10 + (s.last() as int - 48)
    }
}

/// Every character of `s` is a decimal digit.
pub open spec fn spec_all_digits(s: Seq<char>) -> bool {
    forall|i: int| 0 <= i < s.len() ==> spec_is_digit(#[trigger] s[i])
}

/// How an unsigned 16-bit integer is read from an already-trimmed string:
/// an optional leading `+`, then one or more decimal digits whose value
/// fits in 16 bits; anything else is no port.
pub open spec fn spec_parse_u16(s: Seq<char>) -> Option<u16> {
    let t = if s.len() > 0 && s[0] == '+' {
        s.drop_first()
    } else {
        s
    };
    if t.len() > 0 && spec_all_digits(t) && spec_digits_value(t) <= 65535 {
        Some(spec_digits_value(t) as u16)
    } else {
        None
    }
}

/// What the port file's contents must be for the wait to resolve: the
/// entire trimmed content parses as an unsigned 16-bit integer.
pub open spec fn spec_parse_port(s: Seq<char>) -> Option<u16> {
    spec_parse_u16(spec_trimmed(s))
}

proof fn lemma_digits_value_nonneg(s: Seq<char>)
    requires
        spec_all_digits(s),
    ensures
        spec_digits_value(s) >= 0,
    decreases s.len(),
{
    if s.len() > 0 {
        assert(spec_all_digits(s.drop_last())) by {
            assert(forall|i: int|
                0 <= i < s.len() - 1 ==> #[trigger] s.drop_last()[i] == s[i]);
        }
        lemma_digits_value_nonneg(s.drop_last());
    }
}

proof fn lemma_digits_value_prefix_bound(s: Seq<char>, k: int)
    requires
        0 <= k <= s.len(),
        spec_all_digits(s),
    ensures
        spec_digits_value(s) >= spec_digits_value(s.subrange(0, k)),
    decreases s.len() - k,
{
    if k == s.len() {
        assert(s.subrange(0, k) =~= s);
    } else {
        let p = s.subrange(0, k);
        let q = s.subrange(0, k + 1);
        assert(q.drop_last() =~= p);
        assert(spec_all_digits(p)) by {
            assert(forall|i: int| 0 <= i < k ==> #[trigger] p[i] == s[i]);
        }
        lemma_digits_value_nonneg(p);
        assert(spec_digits_value(q) == spec_digits_value(p) * 10 + (s[k] as int - 48));
        assert(spec_digits_value(q) >= spec_digits_value(p));
        lemma_digits_value_prefix_bound(s, k + 1);
    }
}

/// Reads an unsigned 16-bit integer from the file contents: trims
/// whitespace from both ends, then requires the whole remainder to be the
/// decimal rendering (with an optional leading `+`) of a value that fits.
pub fn parse_port_text(s: &str) -> (r: Option<u16>)
    ensures
        r == spec_parse_port(s@),
{
    let n = s.unicode_len();
    let mut lo: usize = 0;
    while lo < n && is_space(s.get_char(lo))
        invariant
            n == s@.len(),
            lo <= n,
            forall|k: int| 0 <= k < lo ==> spec_is_space(#[trigger] s@[k]),
        decreases n - lo,
    {
        lo += 1;
    }
    let mut hi: usize = n;
    while hi > lo && is_space(s.get_char(hi - 1))
        invariant
            n == s@.len(),
            lo <= hi <= n,
            forall|k: int| hi <= k < n ==> spec_is_space(#[trigger] s@[k]),
        decreases hi,
    {
        hi -= 1;
    }
    let ghost t = s@.subrange(lo as int, hi as int);
    proof {
        lemma_trim_start_subrange(s@, lo as int);
        let tail = s@.subrange(lo as int, n as int);
        assert(forall|k: int|
            hi - lo <= k < tail.len() ==> spec_is_space(#[trigger] tail[k]));
        lemma_trim_end_subrange(tail, hi - lo);
        assert(tail.subrange(0, hi - lo) =~= t);
        assert(spec_trimmed(s@) == t);
    }
    // Optional leading `+`.
    let mut i = lo;
    if i < hi && s.get_char(i) == '+' {
        i += 1;
    }
    let ghost d = s@.subrange(i as int, hi as int);
    proof {
        if t.len() > 0 && t[0] == '+' {
            assert(t.drop_first() =~= d);
        } else {
            assert(t =~= d);
        }
    }
    if i == hi {
        // Nothing but the optional sign: no digits, no port.
        return None;
    }
    let mut acc: u32 = 0;
    let mut j = i;
    while j < hi
        invariant
            n == s@.len(),
            i <= j <= hi <= n,
            t == spec_trimmed(s@),
            d == (if t.len() > 0 && t[0] == '+' {
                t.drop_first()
            } else {
                t
            }),
            d == s@.subrange(i as int, hi as int),
            forall|k: int| i <= k < j ==> spec_is_digit(#[trigger] s@[k]),
            acc <= 65535,
            acc as int == spec_digits_value(s@.subrange(i as int, j as int)),
        decreases hi - j,
    {
        let c = s.get_char(j);
        let cv = c as u32;
        if !(48 <= cv && cv <= 57) {
            proof {
                assert(!spec_is_digit(d[j - i]));
            }
            return None;
        }
        let digit: u32 = cv - 48;
        let next: u32 = acc * 10 + digit;
        proof {
            assert(s@.subrange(i as int, j + 1).drop_last() =~= s@.subrange(i as int, j as int));
            assert(spec_digits_value(s@.subrange(i as int, j + 1)) == acc as int * 10 + (
            c as int - 48));
        }
        if next > 65535 {
            proof {
                let p = s@.subrange(i as int, j + 1);
                if spec_all_digits(d) {
                    assert(forall|k: int| 0 <= k < p.len() ==> #[trigger] p[k] == s@[i + k]);
                    lemma_digits_value_prefix_bound(d, j + 1 - i);
                    assert(d.subrange(0, j + 1 - i) =~= p);
                }
            }
            return None;
        }
        acc = next;
        j += 1;
    }
    proof {
        assert(s@.subrange(i as int, j as int) =~= d);
        assert(forall|k: int| 0 <= k < d.len() ==> #[trigger] d[k] == s@[i + k]);
    }
    Some(acc as u16)
}

/// One delivered filesystem event, as the kit sees it.
#[derive(Clone, PartialEq, Eq, Debug)]
pub enum WatchEvent {
    /// A modify-or-create event, carrying the watched file's contents if
    /// they could be read at that moment.
    Changed(Option<String>),
    /// Any other event kind (removal, rename, access): ignored.
    Ignored,
    /// A watcher-level failure, with the watcher's message.
    Failed(String),
}

/// What one event does to the wait.
#[derive(Clone, PartialEq, Eq, Debug)]
pub enum WatchStep {
    /// The event's contents parsed: the wait resolves to this port and the
    /// watch is torn down.
    Resolved(u16),
    /// The event does not decide anything: watching continues.
    KeepWatching,
    /// A watcher-level failure: the wait ends with this error.
    Fail(ConfigError),
}

/// What `watch_step` decides for one event.
pub open spec fn spec_watch_step(e: WatchEvent) -> WatchStep {
    match e {
        WatchEvent::Changed(content) => match content {
            Some(text) => match spec_parse_port(text@) {
                Some(p) => WatchStep::Resolved(p),
                None => WatchStep::KeepWatching,
            },
            None => WatchStep::KeepWatching,
        },
        WatchEvent::Ignored => WatchStep::KeepWatching,
        WatchEvent::Failed(msg) => WatchStep::Fail(ConfigError::WatchFailure(msg)),
    }
}

/// Decides one delivered event: a modify-or-create event whose readable,
/// trimmed contents parse as a port resolves the wait; a failed read, a
/// failed parse or any other event kind keeps watching; a watcher-level
/// failure ends the wait with `WatchFailure`.
pub fn watch_step(event: &WatchEvent) -> (r: WatchStep)
    ensures
        r == spec_watch_step(*event),
{
    match event {
        WatchEvent::Changed(content) => match content {
            Some(text) => match parse_port_text(text.as_str()) {
                Some(p) => WatchStep::Resolved(p),
                None => WatchStep::KeepWatching,
            },
            None => WatchStep::KeepWatching,
        },
        WatchEvent::Ignored => WatchStep::KeepWatching,
        WatchEvent::Failed(msg) => WatchStep::Fail(ConfigError::WatchFailure(msg.clone())),
    }
}

/// What a whole delivered event sequence decides: the first event whose
/// step resolves or fails the wait wins; `None` while no event has decided.
pub open spec fn spec_watch_outcome(events: Seq<WatchEvent>) -> Option<Result<u16, ConfigError>>
    decreases events.len(),
{
    if events.len() == 0 {
        None
    } else {
        match spec_watch_step(events[0]) {
            WatchStep::Resolved(p) => Some(Ok(p)),
            WatchStep::Fail(e) => Some(Err(e)),
            WatchStep::KeepWatching => spec_watch_outcome(events.drop_first()),
        }
    }
}

/// Replays a delivered event sequence in order and returns what it
/// decided, exactly as the live watch loop would have.
pub fn run_watch(events: &Vec<WatchEvent>) -> (r: Option<Result<u16, ConfigError>>)
    ensures
        r == spec_watch_outcome(events@),
{
    let n = events.len();
    proof {
        assert(events@.subrange(0, n as int) =~= events@);
    }
    let mut idx: usize = 0;
    while idx < n
        invariant
            n == events@.len(),
            idx <= n,
            spec_watch_outcome(events@) == spec_watch_outcome(
                events@.subrange(idx as int, n as int),
            ),
        decreases n - idx,
    {
        let ghost suffix = events@.subrange(idx as int, n as int);
        proof {
            assert(suffix[0] == events@[idx as int]);
        }
        match watch_step(&events[idx]) {
            WatchStep::Resolved(p) => {
                return Some(Ok(p));
            },
            WatchStep::Fail(e) => {
                return Some(Err(e));
            },
            WatchStep::KeepWatching => {
                proof {
                    assert(suffix.drop_first() =~= events@.subrange(idx + 1, n as int));
                }
                idx += 1;
            },
        }
    }
    None
}

/// The first resolution is final: once a prefix of the delivered events
/// has decided the wait, no later event changes the outcome — the port is
/// returned exactly once and the watch is not re-triggered.
pub proof fn lemma_first_decision_is_final(events: Seq<WatchEvent>, more: Seq<WatchEvent>)
    requires
        spec_watch_outcome(events) is Some,
    ensures
        spec_watch_outcome(events + more) == spec_watch_outcome(events),
    decreases events.len(),
{
    assert(events.len() > 0);
    assert((events + more)[0] == events[0]);
    match spec_watch_step(events[0]) {
        WatchStep::Resolved(_) => {},
        WatchStep::Fail(_) => {},
        WatchStep::KeepWatching => {
            assert((events + more).drop_first() =~= events.drop_first() + more);
            lemma_first_decision_is_final(events.drop_first(), more);
        },
    }
}

/// Events that decide nothing — failed reads, failed parses, ignored
/// kinds — never resolve the wait, however many arrive.
pub proof fn lemma_undecided_events_keep_watching(events: Seq<WatchEvent>)
    requires
        forall|i: int|
            0 <= i < events.len() ==> spec_watch_step(#[trigger] events[i])
                == WatchStep::KeepWatching,
    ensures
        spec_watch_outcome(events) is None,
    decreases events.len(),
{
    if events.len() > 0 {
        assert(spec_watch_step(events[0]) == WatchStep::KeepWatching);
        assert(forall|i: int|
            0 <= i < events.drop_first().len() ==> #[trigger] events.drop_first()[i] == events[
                i + 1
            ]);
        lemma_undecided_events_keep_watching(events.drop_first());
    }
}

} // verus!
