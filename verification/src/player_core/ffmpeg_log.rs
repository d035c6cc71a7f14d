//! What becomes of the messages of the decoding libraries.
//!
//! The libraries repeat themselves: one damaged stretch of a file can bring the same line hundreds
//! of times. A message is let through when it is new, and then at most once per window; the
//! repetitions in between are counted, and the next one that is let through says how many they
//! were. Nothing is hidden and nothing drowns the rest.

use crate::text::{decimal, folded, folds_to, matches_folded, push_decimal};
use crate::time::{span_between, Duration, Instant};
use vstd::hash_map::StringHashMap;
use vstd::prelude::*;
use vstd::string::StringExecFns;

verus! {

/// The level at which a message asks to be ignored.
pub const AV_LOG_QUIET: i32 = -8;

/// The level of errors; smaller numbers are worse.
pub const AV_LOG_ERROR: i32 = 16;

/// The level of warnings.
pub const AV_LOG_WARNING: i32 = 24;

/// Milliseconds for which repetitions of a message are held back.
pub const THROTTLE_WINDOW_MS: u64 = 3000;

/// A table of more messages than this is emptied.
pub const MAX_KEYS: usize = 512;

/// For each message: how often it came since it was last let through, and when that was.
pub type ThrottleMap = StringHashMap<(u64, Option<Instant>)>;

/// An empty table.
pub fn throttle_map() -> (m: ThrottleMap)
    ensures
        m@ == Map::<Seq<char>, (u64, Option<Instant>)>::empty(),
{
    StringHashMap::new()
}

/// For how long repetitions of a message are held back.
pub fn throttle_window() -> (d: Duration)
    ensures
        d@ == THROTTLE_WINDOW_MS * 1_000_000,
{
    Duration::from_millis(THROTTLE_WINDOW_MS)
}

/// The table that a message finds: one that has grown too large is emptied first.
pub open spec fn table_for(m: Map<Seq<char>, (u64, Option<Instant>)>) -> Map<
    Seq<char>,
    (u64, Option<Instant>),
> {
    if m.len() > MAX_KEYS {
        Map::empty()
    } else {
        m
    }
}

/// What the table knows of `key`.
pub open spec fn entry(m: Map<Seq<char>, (u64, Option<Instant>)>, key: Seq<char>) -> (
    u64,
    Option<Instant>,
) {
    if m.contains_key(key) {
        m[key]
    } else {
        (0, None)
    }
}

/// How often a message came, one more included, on a counter that runs over.
pub open spec fn one_more(e: (u64, Option<Instant>)) -> u64 {
    ((e.0 + 1) % 0x1_0000_0000_0000_0000) as u64
}

/// The message was never let through, or long enough ago.
pub open spec fn expired(e: (u64, Option<Instant>), now: Instant, window: Duration) -> bool {
    match e.1 {
        None => true,
        Some(last) => span_between(last@, now@) >= window@,
    }
}

/// Whether a message is let through at the time `now`, and what the table is afterwards: the answer
/// is how many messages the one that is let through stands for.
pub open spec fn decided(
    m: Map<Seq<char>, (u64, Option<Instant>)>,
    key: Seq<char>,
    now: Instant,
    window: Duration,
    r: Option<u64>,
    after: Map<Seq<char>, (u64, Option<Instant>)>,
) -> bool {
    let table = table_for(m);
    let e = entry(table, key);
    if expired(e, now, window) {
        &&& r == Some(one_more(e))
        &&& after == table.insert(key, (0u64, Some(now)))
    } else {
        &&& r is None
        &&& after == table.insert(key, (one_more(e), e.1))
    }
}

/// Decides whether a message is let through now, and if so, for how many it stands.
pub fn decide(map: &mut ThrottleMap, key: &str, now: Instant, window: Duration) -> (r: Option<u64>)
    ensures
        decided(old(map)@, key@, now, window, r, final(map)@),
{
    if map.len() > MAX_KEYS {
        map.clear();
    }
    let (count, last): (u64, Option<Instant>) = match map.get(key) {
        Some(e) => (e.0, e.1),
        None => (0, None),
    };
    let count: u64 = count.wrapping_add(1);
    let is_expired = match last {
        None => true,
        Some(t) => now.since(t) >= window,
    };
    if is_expired {
        map.insert(key.to_string(), (0, Some(now)));
        Some(count)
    } else {
        map.insert(key.to_string(), (count, last));
        None
    }
}

/// How a message is logged.
#[derive(Debug, Clone, Copy, PartialEq, Eq, Structural)]
pub enum Severity {
    Error,
    Warn,
    Debug,
}

/// How a message of the given level is logged.
pub open spec fn severity(level: int) -> Severity {
    if level <= AV_LOG_ERROR {
        Severity::Error
    } else if level <= AV_LOG_WARNING {
        Severity::Warn
    } else {
        Severity::Debug
    }
}

/// The text of a message that stands for `count` of them.
pub open spec fn text_for(msg: Seq<char>, count: nat) -> Seq<char> {
    if count > 1 {
        msg + " ×"@ + decimal(count)
    } else {
        msg
    }
}

/// Decides whether and how a message is logged. An empty one never is.
pub fn route(map: &mut ThrottleMap, level: i32, msg: &str, now: Instant) -> (r: Option<
    (Severity, String),
>)
    ensures
        msg@.len() == 0 ==> r is None && final(map)@ == old(map)@,
        msg@.len() > 0 ==> {
            let table = table_for(old(map)@);
            let e = entry(table, msg@);
            let due = match e.1 {
                None => true,
                Some(last) => span_between(last@, now@) >= THROTTLE_WINDOW_MS * 1_000_000,
            };
            if due {
                &&& r matches Some(line)
                &&& line.0 == severity(level as int)
                &&& line.1@ == text_for(msg@, one_more(e) as nat)
                &&& final(map)@ == table.insert(msg@, (0u64, Some(now)))
            } else {
                &&& r is None
                &&& final(map)@ == table.insert(msg@, (one_more(e), e.1))
            }
        },
{
    if msg.is_empty() {
        return None;
    }
    match decide(map, msg, now, throttle_window()) {
        Some(count) => {
            let mut text = msg.to_string();
            if count > 1 {
                text.append(" ×");
                push_decimal(&mut text, count as u128);
            }
            let how = if level <= AV_LOG_ERROR {
                Severity::Error
            } else if level <= AV_LOG_WARNING {
                Severity::Warn
            } else {
                Severity::Debug
            };
            Some((how, text))
        },
        None => None,
    }
}

/// The level of a message without its category, or nothing where the message asks to be ignored.
pub fn plain_level(level: i32) -> (r: Option<i32>)
    ensures
        level == AV_LOG_QUIET ==> r is None,
        level != AV_LOG_QUIET ==> r == Some(level & 0xff),
{
    if level == AV_LOG_QUIET {
        None
    } else {
        Some(level & 0xff)
    }
}

/// How many bytes of a buffer of `capacity` bytes hold a line that the C library reports to have
/// `n` bytes: nothing where it reports a failure, and never the last byte, which ends the text.
pub fn line_len(n: i32, capacity: usize) -> (r: Option<usize>)
    requires
        capacity > 0,
    ensures
        n <= 0 ==> r is None,
        n > 0 ==> r == Some(
            if n < capacity {
                n as usize
            } else {
                (capacity - 1) as usize
            },
        ),
{
    if n <= 0 {
        None
    } else if (n as usize) < capacity {
        Some(n as usize)
    } else {
        Some(capacity - 1)
    }
}

/// The levels that the user can choose.
#[derive(Debug, Clone, Copy, PartialEq, Eq, Structural)]
pub enum Level {
    Quiet,
    Panic,
    Fatal,
    Error,
    Warning,
    Info,
    Debug,
    Trace,
}

impl Level {
    /// The word for the level.
    pub open spec fn word(self) -> Seq<char> {
        match self {
            Level::Quiet => "quiet"@,
            Level::Panic => "panic"@,
            Level::Fatal => "fatal"@,
            Level::Error => "error"@,
            Level::Warning => "warning"@,
            Level::Info => "info"@,
            Level::Debug => "debug"@,
            Level::Trace => "trace"@,
        }
    }
}

/// The level that a word stands for, in capital or small letters.
pub fn env_level(value: &str) -> (r: Option<Level>)
    ensures
        r matches Some(l) ==> folds_to(value@, l.word()),
        r is None ==> forall|l: Level| !folds_to(value@, #[trigger] l.word()),
{
    if matches_folded(value, "quiet") {
        Some(Level::Quiet)
    } else if matches_folded(value, "panic") {
        Some(Level::Panic)
    } else if matches_folded(value, "fatal") {
        Some(Level::Fatal)
    } else if matches_folded(value, "error") {
        Some(Level::Error)
    } else if matches_folded(value, "warning") {
        Some(Level::Warning)
    } else if matches_folded(value, "info") {
        Some(Level::Info)
    } else if matches_folded(value, "debug") {
        Some(Level::Debug)
    } else if matches_folded(value, "trace") {
        Some(Level::Trace)
    } else {
        None
    }
}

/// No two levels have the same word, so that a word stands for at most one level.
pub proof fn law_words_are_distinct(value: Seq<char>, a: Level, b: Level)
    requires
        folds_to(value, a.word()),
        folds_to(value, b.word()),
    ensures
        a == b,
{
    reveal_strlit("quiet");
    reveal_strlit("panic");
    reveal_strlit("fatal");
    reveal_strlit("error");
    reveal_strlit("warning");
    reveal_strlit("info");
    reveal_strlit("debug");
    reveal_strlit("trace");
    assert(a.word()[0] as int == folded(value[0]) == b.word()[0] as int);
    assert(a.word()[1] as int == folded(value[1]) == b.word()[1] as int);
}

/// No message goes uncounted: what is let through stands for, and what is held back waits for,
/// exactly the messages that came since the last one was let through.
pub proof fn law_every_message_counts(
    m: Map<Seq<char>, (u64, Option<Instant>)>,
    key: Seq<char>,
    now: Instant,
    window: Duration,
)
    requires
        entry(table_for(m), key).0 < u64::MAX,
    ensures
        ({
            let e = entry(table_for(m), key);
            let due = expired(e, now, window);
            let after = if due {
                table_for(m).insert(key, (0u64, Some(now)))
            } else {
                table_for(m).insert(key, (one_more(e), e.1))
            };
            let reported = if due {
                one_more(e) as int
            } else {
                0
            };
            reported + entry(after, key).0 == e.0 + 1
        }),
{
}

/// Messages do not disturb each other: as long as the table is not emptied, a message leaves what
/// is known of every other one as it was.
pub proof fn law_messages_are_independent(
    m: Map<Seq<char>, (u64, Option<Instant>)>,
    key: Seq<char>,
    other: Seq<char>,
    e: (u64, Option<Instant>),
)
    requires
        m.len() <= MAX_KEYS,
        key != other,
    ensures
        entry(table_for(m).insert(key, e), other) == entry(m, other),
{
}

/// The table does not grow without bound.
pub proof fn law_table_is_bounded(
    m: Map<Seq<char>, (u64, Option<Instant>)>,
    key: Seq<char>,
    e: (u64, Option<Instant>),
)
    requires
        m.dom().finite(),
    ensures
        table_for(m).insert(key, e).dom().finite(),
        table_for(m).insert(key, e).len() <= MAX_KEYS + 1,
{
    let t = table_for(m);
    if t.contains_key(key) {
        assert(t.insert(key, e).dom() =~= t.dom());
    } else {
        assert(t.insert(key, e).dom() =~= t.dom().insert(key));
    }
}

/// A history of messages: the tables, from the first one to the last, the messages with their
/// times, and what was decided of each.
pub struct History {
    pub tables: Seq<Map<Seq<char>, (u64, Option<Instant>)>>,
    pub messages: Seq<(Seq<char>, Instant)>,
    pub decisions: Seq<Option<u64>>,
}

impl History {
    /// The message with the number `i` was decided on as `decide` does.
    pub open spec fn step(self, window: Duration, i: int) -> bool {
        decided(
            self.tables[i],
            self.messages[i].0,
            self.messages[i].1,
            window,
            self.decisions[i],
            self.tables[i + 1],
        )
    }

    /// The history starts with an empty table, and each message was decided on in turn.
    pub open spec fn is_run(self, window: Duration) -> bool {
        &&& self.tables.len() == self.messages.len() + 1
        &&& self.decisions.len() == self.messages.len()
        &&& self.tables[0] == Map::<Seq<char>, (u64, Option<Instant>)>::empty()
        &&& forall|i: int| 0 <= i < self.messages.len() ==> #[trigger] self.step(window, i)
    }

    /// What the first `n` messages say of `key`: how many of its messages were held back since one
    /// was let through, and when that was.
    pub open spec fn since(self, key: Seq<char>, n: nat) -> (nat, Option<Instant>)
        decreases n, 0nat,
    {
        if n == 0 {
            (0, None)
        } else {
            let before = self.known(key, (n - 1) as nat);
            if self.messages[n - 1].0 != key {
                before
            } else if self.decisions[n - 1] is Some {
                (0, Some(self.messages[n - 1].1))
            } else {
                (before.0 + 1, before.1)
            }
        }
    }

    /// What the message with the number `n` finds of `key`: nothing where the table is emptied.
    pub open spec fn known(self, key: Seq<char>, n: nat) -> (nat, Option<Instant>)
        decreases n, 1nat,
    {
        if self.tables[n as int].len() > MAX_KEYS {
            (0, None)
        } else {
            self.since(key, n)
        }
    }

    /// How many of the first `n` messages are `key`.
    pub open spec fn came(self, key: Seq<char>, n: nat) -> nat
        decreases n,
    {
        if n == 0 {
            0
        } else {
            self.came(key, (n - 1) as nat) + if self.messages[n - 1].0 == key {
                1nat
            } else {
                0nat
            }
        }
    }

    /// For how many messages those stand that were let through of `key` among the first `n`.
    pub open spec fn told(self, key: Seq<char>, n: nat) -> nat
        decreases n,
    {
        if n == 0 {
            0
        } else {
            self.told(key, (n - 1) as nat) + if self.messages[n - 1].0 == key {
                match self.decisions[n - 1] {
                    Some(count) => count as nat,
                    None => 0,
                }
            } else {
                0
            }
        }
    }

    /// The table was not emptied before the message with the number `n`.
    pub open spec fn never_emptied(self, n: nat) -> bool {
        forall|i: int| 0 <= i < n ==> (#[trigger] self.tables[i]).len() <= MAX_KEYS
    }
}

/// The table holds what the history says.
proof fn lemma_table_remembers(h: History, window: Duration, key: Seq<char>, n: nat)
    requires
        h.is_run(window),
        n <= h.messages.len() <= u64::MAX,
    ensures
        h.since(key, n).0 <= n,
        entry(h.tables[n as int], key).0 == h.since(key, n).0,
        entry(h.tables[n as int], key).1 == h.since(key, n).1,
    decreases n,
{
    if n > 0 {
        lemma_table_remembers(h, window, key, (n - 1) as nat);
        assert(h.step(window, n - 1));
    }
}

/// Over any history, a message is held back exactly where one like it was let through less than
/// the window before it, and one that is let through stands for itself and for all those that were
/// held back in between. Only an emptied table makes this begin anew.
pub proof fn law_history_decides(h: History, window: Duration, i: nat)
    requires
        h.is_run(window),
        i < h.messages.len() <= u64::MAX,
    ensures
        ({
            let (key, now) = h.messages[i as int];
            let (held, last) = h.known(key, i);
            match last {
                Some(t) if span_between(t@, now@) < window@ => h.decisions[i as int] is None,
                _ => h.decisions[i as int] == Some((held + 1) as u64) && held + 1 <= u64::MAX,
            }
        }),
{
    let (key, now) = h.messages[i as int];
    lemma_table_remembers(h, window, key, i);
    assert(h.step(window, i as int));
}

/// No message is lost: as long as the table is not emptied, those that were let through stand,
/// together with those that are still held back, for all that came.
pub proof fn law_no_message_is_lost(h: History, window: Duration, key: Seq<char>, n: nat)
    requires
        h.is_run(window),
        n <= h.messages.len() <= u64::MAX,
        h.never_emptied(n),
    ensures
        h.told(key, n) + h.since(key, n).0 == h.came(key, n),
    decreases n,
{
    if n > 0 {
        law_no_message_is_lost(h, window, key, (n - 1) as nat);
        assert(h.tables[n - 1].len() <= MAX_KEYS);
        if h.messages[n - 1].0 == key {
            law_history_decides(h, window, (n - 1) as nat);
        }
    }
}

/// Messages do not disturb each other, however many come: as long as the table is not emptied, what
/// is known of a message is what it was before a stretch of other ones.
pub proof fn law_others_leave_a_message_alone(
    h: History,
    window: Duration,
    key: Seq<char>,
    from: nat,
    to: nat,
)
    requires
        h.is_run(window),
        from <= to <= h.messages.len() <= u64::MAX,
        h.never_emptied(to),
        forall|i: int| from <= i < to ==> (#[trigger] h.messages[i]).0 != key,
    ensures
        entry(h.tables[to as int], key) == entry(h.tables[from as int], key),
    decreases to - from,
{
    if from < to {
        law_others_leave_a_message_alone(h, window, key, from, (to - 1) as nat);
        assert(h.step(window, to - 1));
        assert(h.tables[to - 1].len() <= MAX_KEYS);
        assert(h.messages[to - 1].0 != key);
    }
}

} // verus!
