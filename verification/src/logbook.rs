//! The application log: a bounded list of entries, and which of them the user
//! has not seen.

use crate::text;
use vstd::prelude::*;
use vstd::string::*;

verus! {

/// How serious an entry is.
#[derive(Clone, Copy, PartialEq, Eq, Structural, Debug)]
pub enum LogLevel {
    Info,
    Warn,
    Error,
}

/// One line of the log.
#[derive(Clone, PartialEq, Eq, Debug)]
pub struct LogEntry {
    /// Local time of day, `HH:MM:SS`.
    pub timestamp: String,
    pub level: LogLevel,
    pub message: String,
}

/// Two digits, a colon, two digits, a colon, two digits.
pub open spec fn is_clock(s: Seq<char>) -> bool {
    &&& s.len() == 8
    &&& forall|i: int|
        0 <= i < 8 ==> if i == 2 || i == 5 {
            #[trigger] s[i] == ':'
        } else {
            text::is_digit(s[i])
        }
}

/// Calls [`chrono::Local::now`] and formats the time of day with
/// [`chrono::DateTime::format`] as hours, minutes and seconds of two digits
/// each. The time itself is left unsaid.
#[verifier::external_body]
fn local_clock() -> (r: String)
    ensures
        is_clock(r@),
{
    chrono::Local::now().format("%H:%M:%S").to_string()
}

impl LogEntry {
    /// An entry with the current local time.
    pub fn now(level: LogLevel, message: String) -> (r: LogEntry)
        ensures
            is_clock(r.timestamp@),
            r.level == level,
            r.message == message,
    {
        LogEntry { timestamp: local_clock(), level, message }
    }

    pub fn info(msg: String) -> (r: LogEntry)
        ensures
            is_clock(r.timestamp@),
            r.level == LogLevel::Info,
            r.message == msg,
    {
        LogEntry::now(LogLevel::Info, msg)
    }

    pub fn warn(msg: String) -> (r: LogEntry)
        ensures
            is_clock(r.timestamp@),
            r.level == LogLevel::Warn,
            r.message == msg,
    {
        LogEntry::now(LogLevel::Warn, msg)
    }

    pub fn error(msg: String) -> (r: LogEntry)
        ensures
            is_clock(r.timestamp@),
            r.level == LogLevel::Error,
            r.message == msg,
    {
        LogEntry::now(LogLevel::Error, msg)
    }
}

/// How many entries the log keeps.
pub const LOG_LIMIT: usize = 500;

/// The log.
#[derive(PartialEq, Eq, Debug)]
pub struct Logbook {
    /// The entries, oldest first.
    pub entries: Vec<LogEntry>,
    /// Entries acknowledged: the Log tab has been shown since they arrived.
    pub seen: usize,
}

/// A warning or an error.
pub open spec fn is_alert() -> spec_fn(LogEntry) -> bool {
    |e: LogEntry| e.level == LogLevel::Warn || e.level == LogLevel::Error
}

/// Is `after` the log with `entry` added? Beyond the limit the oldest entry
/// goes, and with it its place among those seen.
pub open spec fn added(before: Logbook, entry: LogEntry, after: Logbook) -> bool {
    if before.entries@.len() < LOG_LIMIT {
        after.entries@ == before.entries@.push(entry) && after.seen == before.seen
    } else {
        after.entries@ == before.entries@.push(entry).skip(1) && after.seen == (if before.seen
            > 0 {
            before.seen - 1
        } else {
            0
        })
    }
}

impl Logbook {
    /// At most [`LOG_LIMIT`] entries, and none seen that is not there.
    pub open spec fn wf(&self) -> bool {
        self.entries@.len() <= LOG_LIMIT && self.seen <= self.entries@.len()
    }

    /// Warnings and errors that arrived since the Log tab was last shown,
    /// oldest first.
    pub open spec fn unread(&self) -> Seq<LogEntry> {
        self.entries@.skip(self.seen as int).filter(is_alert())
    }

    /// An empty log.
    pub fn new() -> (r: Logbook)
        ensures
            r.wf(),
            r.entries@ == Seq::<LogEntry>::empty(),
            r.seen == 0,
    {
        Logbook { entries: Vec::new(), seen: 0 }
    }

    /// Adds an entry; beyond the limit the oldest one goes.
    pub fn add_log(&mut self, entry: LogEntry)
        requires
            old(self).wf(),
        ensures
            final(self).wf(),
            added(*old(self), entry, *final(self)),
    {
        self.entries.push(entry);
        if self.entries.len() > LOG_LIMIT {
            let ghost full = self.entries@;
            self.entries.remove(0);
            assert(self.entries@ =~= full.skip(1));
            if self.seen > 0 {
                self.seen = self.seen - 1;
            }
        }
    }

    /// Showing the Log tab acknowledges everything in it.
    pub fn mark_seen(&mut self)
        requires
            old(self).wf(),
        ensures
            final(self).wf(),
            final(self).entries@ == old(self).entries@,
            final(self).seen == final(self).entries@.len(),
    {
        self.seen = self.entries.len();
    }

    /// Empties the log.
    pub fn clear(&mut self)
        ensures
            final(self).wf(),
            final(self).entries@ == Seq::<LogEntry>::empty(),
            final(self).seen == 0,
    {
        self.entries.clear();
        self.seen = 0;
    }

    /// How many unread entries there are, whether one is an error, and where
    /// the last one stands.
    pub fn unread_summary(&self) -> (r: Option<(usize, bool, usize)>)
        requires
            self.wf(),
        ensures
            match r {
                Some((count, error, last)) => {
                    &&& count == self.unread().len() && count > 0
                    &&& error == (exists|i: int|
                        0 <= i < self.unread().len() && (#[trigger] self.unread()[i]).level
                            == LogLevel::Error)
                    &&& last < self.entries@.len() && self.entries@[last as int]
                        == self.unread().last()
                },
                None => self.unread().len() == 0,
            },
    {
        let ghost tail = self.entries@.skip(self.seen as int);
        let mut count: usize = 0;
        let mut error: bool = false;
        let mut last: usize = 0;
        let n: usize = self.entries.len();
        proof {
            reveal(Seq::filter);
            assert(tail.take(0) =~= Seq::<LogEntry>::empty());
        }
        let mut i: usize = self.seen;
        while i < n
            invariant
                self.wf(),
                n == self.entries@.len(),
                self.seen <= i <= n,
                tail == self.entries@.skip(self.seen as int),
                count == tail.take(i - self.seen).filter(is_alert()).len(),
                count <= i - self.seen,
                count > 0 ==> last < n && self.entries@[last as int] == tail.take(
                    i - self.seen,
                ).filter(is_alert()).last(),
                error == (exists|k: int|
                    0 <= k < tail.take(i - self.seen).filter(is_alert()).len()
                        && (#[trigger] tail.take(i - self.seen).filter(is_alert())[k]).level
                        == LogLevel::Error),
            decreases n - i,
        {
            let level: LogLevel = self.entries[i].level;
            let alert: bool = level == LogLevel::Warn || level == LogLevel::Error;
            let ghost before = tail.take(i - self.seen).filter(is_alert());
            let ghost after = tail.take(i - self.seen + 1).filter(is_alert());
            proof {
                reveal(Seq::filter);
                assert(tail.take(i - self.seen + 1).drop_last() =~= tail.take(i - self.seen));
                assert(tail.take(i - self.seen + 1).last() == self.entries@[i as int]);
                assert(alert == is_alert()(self.entries@[i as int]));
                assert(after == (if alert {
                    before.push(self.entries@[i as int])
                } else {
                    before
                }));
            }
            let ghost old_error = error;
            if alert {
                count = count + 1;
                last = i;
                if level == LogLevel::Error {
                    error = true;
                }
                proof {
                    if error {
                        if old_error {
                            let k = choose|k: int|
                                0 <= k < before.len() && (#[trigger] before[k]).level
                                    == LogLevel::Error;
                            assert(after[k] == before[k]);
                        } else {
                            assert(after[before.len() as int].level == LogLevel::Error);
                        }
                    } else {
                        assert forall|k: int| 0 <= k < after.len() implies (
                        #[trigger] after[k]).level != LogLevel::Error by {
                            if k < before.len() {
                                assert(after[k] == before[k]);
                            }
                        }
                    }
                }
            }
            i = i + 1;
        }
        assert(tail.take(n - self.seen) =~= tail);
        if count > 0 {
            Some((count, error, last))
        } else {
            None
        }
    }

    /// The status bar's note on unread entries: their number and the latest
    /// message, cut to 57 characters and an ellipsis where it has more than 60.
    /// The second result says whether one of them is an error.
    pub fn status_note(&self) -> (r: Option<(String, bool)>)
        requires
            self.wf(),
        ensures
            match r {
                Some((note, error)) => {
                    &&& self.unread().len() > 0
                    &&& note@ == "\u{26a0} "@ + text::decimal(self.unread().len() as int) + "  "@
                        + shortened(self.unread().last().message@)
                    &&& error == (exists|i: int|
                        0 <= i < self.unread().len() && (#[trigger] self.unread()[i]).level
                            == LogLevel::Error)
                },
                None => self.unread().len() == 0,
            },
    {
        match self.unread_summary() {
            Some((count, error, last)) => {
                let n: String = text::int_text(count as i128);
                let msg: String = shorten(self.entries[last].message.as_str());
                Some((text::join4("\u{26a0} ", n.as_str(), "  ", msg.as_str()), error))
            },
            None => None,
        }
    }
}

/// A message cut to fit the status bar.
pub open spec fn shortened(m: Seq<char>) -> Seq<char> {
    if m.len() > 60 {
        m.take(57) + "\u{2026}"@
    } else {
        m
    }
}

fn shorten(m: &str) -> (r: String)
    ensures
        r@ == shortened(m@),
{
    if m.unicode_len() > 60 {
        let head: String = text::take_chars(m, 57);
        text::join2(head.as_str(), "\u{2026}")
    } else {
        m.to_string()
    }
}

/// Once the Log tab was shown, or the log emptied, nothing is unread.
pub proof fn law_seen_is_read(book: Logbook)
    requires
        book.seen == book.entries@.len(),
    ensures
        book.unread().len() == 0,
{
    reveal(Seq::filter);
    assert(book.entries@.skip(book.seen as int) =~= Seq::<LogEntry>::empty());
}

/// The unread entries that are left once one more entry came in: all of them,
/// unless the oldest entry of a full log was one and had to make room.
pub open spec fn still_unread(book: Logbook) -> Seq<LogEntry> {
    if book.entries@.len() == LOG_LIMIT && book.seen == 0 && is_alert()(book.entries@[0]) {
        book.unread().skip(1)
    } else {
        book.unread()
    }
}

/// A new warning or error becomes the last unread entry. Nothing else changes,
/// but that the oldest entry of a full log leaves the unread ones if it was
/// one.
pub proof fn law_new_alert_is_unread(before: Logbook, entry: LogEntry, after: Logbook)
    requires
        before.wf(),
        added(before, entry, after),
    ensures
        after.unread() == (if is_alert()(entry) {
            still_unread(before).push(entry)
        } else {
            still_unread(before)
        }),
{
    reveal(Seq::filter);
    let tail = after.entries@.skip(after.seen as int);
    assert(tail.last() == entry);
    if before.entries@.len() == LOG_LIMIT && before.seen == 0 {
        lemma_filter_first(before.entries@, is_alert());
        assert(before.entries@.skip(0) =~= before.entries@);
        assert(tail.drop_last() =~= before.entries@.skip(1));
    } else {
        assert(tail.drop_last() =~= before.entries@.skip(before.seen as int));
    }
}

/// What passes a filter behind the first entry.
proof fn lemma_filter_first(s: Seq<LogEntry>, pick: spec_fn(LogEntry) -> bool)
    requires
        s.len() > 0,
    ensures
        s.skip(1).filter(pick) == (if pick(s[0]) {
            s.filter(pick).skip(1)
        } else {
            s.filter(pick)
        }),
        pick(s[0]) ==> s.filter(pick).len() > 0,
    decreases s.len(),
{
    reveal(Seq::filter);
    if s.len() == 1 {
        assert(s.drop_last() =~= Seq::<LogEntry>::empty());
        assert(s.skip(1) =~= Seq::<LogEntry>::empty());
        assert(s.drop_last().filter(pick) =~= Seq::<LogEntry>::empty());
        assert(s.skip(1).filter(pick) =~= Seq::<LogEntry>::empty());
        assert(s.last() == s[0]);
        if pick(s[0]) {
            assert(s.filter(pick).skip(1) =~= Seq::<LogEntry>::empty());
        }
    } else {
        let w = s.drop_last();
        lemma_filter_first(w, pick);
        assert(s.skip(1).drop_last() =~= w.skip(1));
        assert(s.skip(1).last() == s.last());
        assert(w[0] == s[0]);
        if pick(s[0]) && pick(s.last()) {
            assert(w.filter(pick).push(s.last()).skip(1) =~= w.filter(pick).skip(1).push(
                s.last(),
            ));
        }
    }
}

// ---------------------------------------------------------------------------
// Laws of the log

/// An entry says what it was made of, at the level it was made for.
pub proof fn law_entries_keep_level_and_message(
    msg: String,
    level: LogLevel,
    n: LogEntry,
    i: LogEntry,
    w: LogEntry,
    e: LogEntry,
)
    requires
        call_ensures(LogEntry::now, (level, msg), n),
        call_ensures(LogEntry::info, (msg,), i),
        call_ensures(LogEntry::warn, (msg,), w),
        call_ensures(LogEntry::error, (msg,), e),
    ensures
        n.level == level && n.message@ == msg@,
        i.level == LogLevel::Info && i.message@ == msg@,
        w.level == LogLevel::Warn && w.message@ == msg@,
        e.level == LogLevel::Error && e.message@ == msg@,
{
}

/// An added entry comes last. Up to five hundred entries all stay; beyond that
/// the oldest one goes, and what was seen of the others stays seen.
pub proof fn law_added_entry_comes_last(b: &mut Logbook, entry: LogEntry)
    requires
        old(b).wf(),
        call_ensures(Logbook::add_log, (b, entry), ()),
    ensures
        final(b).entries.len() > 0,
        final(b).entries@.last() == entry,
        old(b).entries.len() < 500 ==> final(b).entries.len() == old(b).entries.len() + 1
            && final(b).seen == old(b).seen && (forall|i: int|
            0 <= i < old(b).entries.len() ==> (#[trigger] final(b).entries@[i])
                == old(b).entries@[i]),
        old(b).entries.len() == 500 ==> final(b).entries.len() == 500 && (forall|i: int|
            0 <= i < 499 ==> (#[trigger] final(b).entries@[i]) == old(b).entries@[i + 1]),
        old(b).entries.len() == 500 && old(b).seen > 0 ==> final(b).seen + 1 == old(b).seen,
        old(b).entries.len() == 500 && old(b).seen == 0 ==> final(b).seen == 0,
        final(b).entries.len() <= 500,
{
}

/// Showing the log keeps its entries and marks them all as seen; clearing it
/// empties it, and a new one is empty.
pub proof fn law_seen_and_cleared(
    a: &mut Logbook,
    b: &mut Logbook,
    fresh: Logbook,
    note: Option<(String, bool)>,
    sum: Option<(usize, bool, usize)>,
)
    requires
        old(a).wf(),
        call_ensures(Logbook::mark_seen, (a,), ()),
        call_ensures(Logbook::clear, (b,), ()),
        call_ensures(Logbook::new, (), fresh),
        call_ensures(Logbook::status_note, (&*final(a),), note),
        call_ensures(Logbook::unread_summary, (&*final(a),), sum),
    ensures
        final(a).entries@ == old(a).entries@,
        final(a).seen == final(a).entries.len(),
        note is None && sum is None,
        final(b).entries.len() == 0 && final(b).seen == 0,
        fresh.entries.len() == 0 && fresh.seen == 0,
{
    law_seen_is_read(*final(a));
}

/// Unread are the warnings and errors behind what was seen, and no others: they
/// are summed up where there is one, and an error among them is told.
pub proof fn law_unread_are_the_new_alerts(b: Logbook, r: Option<(usize, bool, usize)>)
    requires
        b.wf(),
        call_ensures(Logbook::unread_summary, (&b,), r),
    ensures
        r is Some <==> exists|i: int|
            b.seen <= i < b.entries.len() && (#[trigger] b.entries@[i]).level != LogLevel::Info,
        r matches Some(s) ==> {
            &&& s.1 <==> exists|i: int|
                b.seen <= i < b.entries.len() && (#[trigger] b.entries@[i]).level
                    == LogLevel::Error
            &&& s.2 < b.entries.len()
            &&& b.entries@[s.2 as int].level != LogLevel::Info
            &&& 0 < s.0 <= b.entries.len() - b.seen
        },
{
    let tail = b.entries@.skip(b.seen as int);
    let pick = is_alert();
    let unread = tail.filter(pick);
    assert forall|i: int|
        b.seen <= i < b.entries.len() && (#[trigger] b.entries@[i]).level
            != LogLevel::Info implies unread.contains(b.entries@[i]) by {
        assert(tail[i - b.seen] == b.entries@[i]);
        tail.lemma_filter_contains(pick, i - b.seen);
    }
    assert forall|k: int| 0 <= k < unread.len() implies (#[trigger] unread[k]).level
        != LogLevel::Info && exists|i: int|
        b.seen <= i < b.entries.len() && (#[trigger] b.entries@[i]) == unread[k] by {
        tail.lemma_filter_pred(pick, k);
        assert(unread.contains(unread[k]));
        tail.lemma_filter_contains_rev(pick, unread[k]);
        let j = choose|j: int| 0 <= j < tail.len() && tail[j] == unread[k];
        assert(b.entries@[j + b.seen] == unread[k]);
    }
    lemma_filter_is_no_longer(tail, pick);
    if unread.len() > 0 {
        assert(unread[0].level != LogLevel::Info);
        let i = choose|i: int|
            b.seen <= i < b.entries.len() && (#[trigger] b.entries@[i]) == unread[0];
        assert(b.entries@[i].level != LogLevel::Info);
        assert(unread.last() == unread[unread.len() - 1]);
    }
    if exists|i: int|
        b.seen <= i < b.entries.len() && (#[trigger] b.entries@[i]).level == LogLevel::Error {
        let i = choose|i: int|
            b.seen <= i < b.entries.len() && (#[trigger] b.entries@[i]).level == LogLevel::Error;
        let k = choose|k: int| 0 <= k < unread.len() && unread[k] == b.entries@[i];
        assert(unread[k].level == LogLevel::Error);
    }
    if exists|k: int| 0 <= k < unread.len() && (#[trigger] unread[k]).level == LogLevel::Error {
        let k = choose|k: int|
            0 <= k < unread.len() && (#[trigger] unread[k]).level == LogLevel::Error;
        let i = choose|i: int|
            b.seen <= i < b.entries.len() && (#[trigger] b.entries@[i]) == unread[k];
        assert(b.entries@[i].level == LogLevel::Error);
    }
}

proof fn lemma_filter_is_no_longer(s: Seq<LogEntry>, pick: spec_fn(LogEntry) -> bool)
    ensures
        s.filter(pick).len() <= s.len(),
    decreases s.len(),
{
    reveal(Seq::filter);
    if s.len() > 0 {
        lemma_filter_is_no_longer(s.drop_last(), pick);
    }
}

/// One more warning or error is one more unread entry, the latest one, unless a
/// full log lost one for it. An information never is.
pub proof fn law_new_alert_counts(
    b: &mut Logbook,
    entry: LogEntry,
    before: Option<(usize, bool, usize)>,
    after: Option<(usize, bool, usize)>,
)
    requires
        old(b).wf(),
        old(b).entries.len() < 500,
        call_ensures(Logbook::unread_summary, (&*old(b),), before),
        call_ensures(Logbook::add_log, (b, entry), ()),
        call_ensures(Logbook::unread_summary, (&*final(b),), after),
    ensures
        ({
            let n: int = if before is Some {
                (before->0).0 as int
            } else {
                0
            };
            let m: int = if after is Some {
                (after->0).0 as int
            } else {
                0
            };
            &&& entry.level == LogLevel::Info ==> m == n
            &&& entry.level != LogLevel::Info ==> m == n + 1 && final(b).entries@[(after->0).2 as int] == entry
            &&& entry.level == LogLevel::Error ==> (after->0).1
        }),
{
    law_new_alert_is_unread(*old(b), entry, *final(b));
    if entry.level != LogLevel::Info {
        assert(final(b).unread().last() == entry);
        assert(final(b).unread()[final(b).unread().len() - 1] == entry);
    }
}

/// The status bar tells how many entries are unread and the latest of them, cut
/// to 57 characters and an ellipsis where it has more than 60.
pub proof fn law_status_bar_tells_the_latest(
    b: Logbook,
    sum: Option<(usize, bool, usize)>,
    note: Option<(String, bool)>,
)
    requires
        b.wf(),
        call_ensures(Logbook::unread_summary, (&b,), sum),
        call_ensures(Logbook::status_note, (&b,), note),
    ensures
        sum is Some <==> note is Some,
        note matches Some(n) ==> {
            let msg = b.entries@[(sum->0).2 as int].message@;
            &&& n.1 == (sum->0).1
            &&& msg.len() <= 60 ==> n.0@ == "\u{26a0} "@ + text::decimal((sum->0).0 as int) + "  "@
                + msg
            &&& msg.len() > 60 ==> n.0@ == "\u{26a0} "@ + text::decimal((sum->0).0 as int) + "  "@ + (
            msg.take(57) + "\u{2026}"@)
        },
{
}

} // verus!
