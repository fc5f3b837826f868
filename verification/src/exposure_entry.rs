//! Exposure times as they are typed in: a number with or without a unit.

use crate::text;
use vstd::prelude::*;
use vstd::string::*;

verus! {

/// The unit of a time that was typed in.
#[derive(Clone, Copy, PartialEq, Eq, Structural, Debug)]
pub enum TimeUnit {
    Microseconds,
    Milliseconds,
    Seconds,
}

/// How many microseconds a unit holds.
pub open spec fn unit_micros(u: TimeUnit) -> u32 {
    match u {
        TimeUnit::Microseconds => 1,
        TimeUnit::Milliseconds => 1000,
        TimeUnit::Seconds => 1000000,
    }
}

impl TimeUnit {
    /// How many microseconds the unit holds.
    pub fn micros(self) -> (r: u32)
        ensures
            r == unit_micros(self),
    {
        match self {
            TimeUnit::Microseconds => 1,
            TimeUnit::Milliseconds => 1000,
            TimeUnit::Seconds => 1000000,
        }
    }
}

/// A way to read an entry: the number that it would be, and its unit.
#[verifier::ext_equal]
pub struct ReadingSpec {
    pub number: Seq<char>,
    pub unit: TimeUnit,
}

/// A way to read an entry.
#[derive(PartialEq, Eq, Debug)]
pub struct Reading {
    pub number: String,
    pub unit: TimeUnit,
}

impl View for Reading {
    type V = ReadingSpec;

    open spec fn view(&self) -> ReadingSpec {
        ReadingSpec { number: self.number@, unit: self.unit }
    }
}

/// The reading of an entry that ends with a suffix: what stands before it,
/// without white space around it.
pub open spec fn with_suffix(s: Seq<char>, suffix: Seq<char>, unit: TimeUnit) -> Seq<ReadingSpec> {
    if text::ends_with(s, suffix) {
        seq![ReadingSpec { number: text::trimmed(s.take(s.len() - suffix.len())), unit }]
    } else {
        Seq::empty()
    }
}

/// The ways to read an entry, in the order in which they are tried. Without a
/// unit it is microseconds.
pub open spec fn entry_readings(entry: Seq<char>) -> Seq<ReadingSpec> {
    let s = text::trimmed(entry);
    with_suffix(s, "ms"@, TimeUnit::Milliseconds) + with_suffix(
        s,
        "\u{b5}s"@,
        TimeUnit::Microseconds,
    ) + with_suffix(s, "us"@, TimeUnit::Microseconds) + with_suffix(s, "s"@, TimeUnit::Seconds)
        + seq![ReadingSpec { number: s, unit: TimeUnit::Microseconds }]
}

/// What readings say.
pub open spec fn reading_specs(v: Seq<Reading>) -> Seq<ReadingSpec> {
    v.map_values(|x: Reading| x@)
}

fn push_suffixed(list: &mut Vec<Reading>, s: &str, suffix: &str, unit: TimeUnit)
    ensures
        reading_specs(final(list)@) == reading_specs(old(list)@) + with_suffix(s@, suffix@, unit),
{
    let ghost before = list@;
    match text::strip_suffix(s, suffix) {
        Some(rest) => {
            list.push(Reading { number: text::trim(rest).to_string(), unit });
        },
        None => {},
    }
    assert(reading_specs(list@) =~= reading_specs(before) + with_suffix(s@, suffix@, unit));
}

/// The ways to read an entry, in the order in which they are tried.
pub fn readings(entry: &str) -> (r: Vec<Reading>)
    ensures
        reading_specs(r@) == entry_readings(entry@),
{
    let s: &str = text::trim(entry);
    let mut list: Vec<Reading> = Vec::new();
    push_suffixed(&mut list, s, "ms", TimeUnit::Milliseconds);
    push_suffixed(&mut list, s, "\u{b5}s", TimeUnit::Microseconds);
    push_suffixed(&mut list, s, "us", TimeUnit::Microseconds);
    push_suffixed(&mut list, s, "s", TimeUnit::Seconds);
    let ghost before = list@;
    list.push(Reading { number: s.to_string(), unit: TimeUnit::Microseconds });
    assert(reading_specs(list@) =~= reading_specs(before).push(
        ReadingSpec { number: s@, unit: TimeUnit::Microseconds },
    ));
    assert(reading_specs(list@) =~= entry_readings(entry@));
    list
}

/// Does `parse` make `out` of a text?
pub open spec fn reads<F, P: Fn(&str) -> Option<F>>(
    parse: P,
    number: Seq<char>,
    out: Option<F>,
) -> bool {
    exists|t: &str| t@ == number && #[trigger] call_ensures(parse, (t,), out)
}

/// The time that was typed in, as a number and its unit: the first reading
/// whose number `parse` accepts.
pub fn typed_time<F, P: Fn(&str) -> Option<F>>(entry: &str, parse: P) -> (r: Option<(F, TimeUnit)>)
    requires
        forall|t: &str| call_requires(parse, (t,)),
    ensures
        ({
            let all = entry_readings(entry@);
            match r {
                Some((x, unit)) => exists|i: int|
                    0 <= i < all.len() && unit == (#[trigger] all[i]).unit && reads(
                        parse,
                        all[i].number,
                        Some(x),
                    ) && forall|j: int|
                        0 <= j < i ==> reads(parse, (#[trigger] all[j]).number, None::<F>),
                None => forall|j: int|
                    0 <= j < all.len() ==> reads(parse, (#[trigger] all[j]).number, None::<F>),
            }
        }),
{
    let list: Vec<Reading> = readings(entry);
    let ghost all = entry_readings(entry@);
    let n: usize = list.len();
    assert(n == all.len());
    for i in 0..n
        invariant
            n == list.len(),
            n == all.len(),
            all == entry_readings(entry@),
            reading_specs(list@) == all,
            forall|t: &str| call_requires(parse, (t,)),
            forall|j: int| 0 <= j < i ==> reads(parse, (#[trigger] all[j]).number, None::<F>),
    {
        let t: &str = list[i].number.as_str();
        assert(reading_specs(list@)[i as int] == list@[i as int]@);
        assert(t@ == all[i as int].number);
        match parse(t) {
            Some(x) => {
                assert(reads(parse, all[i as int].number, Some(x)));
                return Some((x, list[i].unit));
            },
            None => {
                assert(reads(parse, all[i as int].number, None::<F>));
            },
        }
    }
    None
}

/// A unit behind a number is taken off first, with or without a blank before
/// it; a number that does not end with an `s` is read as microseconds and in no
/// other way.
pub proof fn law_unit_is_read(number: Seq<char>)
    requires
        number.len() > 0,
        !text::is_white_space(number[0]),
        !text::is_white_space(number.last()),
        number.last() != 's',
    ensures
        entry_readings(number) == seq![
            ReadingSpec { number, unit: TimeUnit::Microseconds },
        ],
        entry_readings(number + "ms"@)[0] == (ReadingSpec {
            number,
            unit: TimeUnit::Milliseconds,
        }),
        entry_readings(number + "us"@)[0] == (ReadingSpec {
            number,
            unit: TimeUnit::Microseconds,
        }),
        entry_readings(number + "\u{b5}s"@)[0] == (ReadingSpec {
            number,
            unit: TimeUnit::Microseconds,
        }),
        entry_readings(number + " ms"@)[0] == (ReadingSpec {
            number,
            unit: TimeUnit::Milliseconds,
        }),
        number.last() != 'm' && number.last() != 'u' && number.last() != '\u{b5}'
            ==> entry_readings(number + "s"@)[0] == (ReadingSpec {
            number,
            unit: TimeUnit::Seconds,
        }),
{
    reveal_strlit("ms");
    reveal_strlit(" ms");
    reveal_strlit("us");
    reveal_strlit("\u{b5}s");
    reveal_strlit("s");
    let n = number.len() as int;
    text::lemma_trimmed_idle(number);
    assert forall|suffix: Seq<char>|
        #![trigger text::ends_with(number, suffix)]
        suffix.len() > 0 && suffix.last() == 's' implies !text::ends_with(number, suffix) by {
        if text::ends_with(number, suffix) {
            assert(number.skip(n - suffix.len()).last() == number.last());
        }
    }
    assert(entry_readings(number) =~= seq![ReadingSpec { number, unit: TimeUnit::Microseconds }]);
    lemma_suffix_off(number, "ms"@);
    lemma_suffix_off(number, "us"@);
    lemma_suffix_off(number, "\u{b5}s"@);
    lemma_suffix_off(number, "s"@);
    let us = number + "us"@;
    assert(!text::ends_with(us, "ms"@)) by {
        assert(us.skip(n)[0] == 'u');
    }
    assert(!text::ends_with(us, "\u{b5}s"@)) by {
        assert(us.skip(n)[0] == 'u');
    }
    let mu = number + "\u{b5}s"@;
    assert(!text::ends_with(mu, "ms"@)) by {
        assert(mu.skip(n)[0] == '\u{b5}');
    }
    let blank = number + " ms"@;
    text::lemma_trimmed_idle(blank);
    assert(blank.skip(n + 1) =~= "ms"@);
    assert(blank.take(n + 1) =~= number.push(' '));
    assert(number.push(' ').drop_last() =~= number);
    assert(text::trimmed(number.push(' ')) == number) by {
        reveal_with_fuel(text::trimmed_end, 3);
        assert(text::is_white_space(' '));
    }
    let sec = number + "s"@;
    if number.last() != 'm' && number.last() != 'u' && number.last() != '\u{b5}' {
        assert(sec.skip(n - 1)[0] == number.last());
        assert(!text::ends_with(sec, "ms"@));
        assert(!text::ends_with(sec, "us"@));
        assert(!text::ends_with(sec, "\u{b5}s"@));
    }
}

proof fn lemma_suffix_off(number: Seq<char>, suffix: Seq<char>)
    requires
        number.len() > 0,
        !text::is_white_space(number[0]),
        !text::is_white_space(number.last()),
        suffix.len() > 0,
        !text::is_white_space(suffix.last()),
    ensures
        text::trimmed(number + suffix) == number + suffix,
        text::ends_with(number + suffix, suffix),
        text::trimmed((number + suffix).take(number.len() as int)) == number,
{
    let s = number + suffix;
    text::lemma_trimmed_idle(s);
    text::lemma_trimmed_idle(number);
    assert(s.skip(number.len() as int) =~= suffix);
    assert(s.take(number.len() as int) =~= number);
}

/// A millisecond is a thousand microseconds, and a second a thousand of those.
pub proof fn law_units_are_a_thousand_apart(us: u32, ms: u32, s: u32)
    requires
        call_ensures(TimeUnit::micros, (TimeUnit::Microseconds,), us),
        call_ensures(TimeUnit::micros, (TimeUnit::Milliseconds,), ms),
        call_ensures(TimeUnit::micros, (TimeUnit::Seconds,), s),
    ensures
        us == 1,
        ms == 1000 * us,
        s == 1000 * ms,
{
}

/// A number that can be read is taken in the unit that stands behind it, and in
/// microseconds where none does.
pub proof fn law_typed_time_has_its_unit<F, P: Fn(&str) -> Option<F>>(
    entry: &str,
    number: Seq<char>,
    x: F,
    parse: P,
    r: Option<(F, TimeUnit)>,
)
    requires
        forall|t: &str| call_requires(parse, (t,)),
        number.len() > 0,
        !text::is_white_space(number[0]),
        !text::is_white_space(number.last()),
        number.last() != 's' && number.last() != 'm' && number.last() != 'u' && number.last()
            != '\u{b5}',
        forall|t: &str, out: Option<F>|
            t@ == number && #[trigger] call_ensures(parse, (t,), out) ==> out == Some(x),
        call_ensures(typed_time::<F, P>, (entry, parse), r),
    ensures
        entry@ == number ==> r == Some((x, TimeUnit::Microseconds)),
        entry@ == number + "us"@ ==> r == Some((x, TimeUnit::Microseconds)),
        entry@ == number + "\u{b5}s"@ ==> r == Some((x, TimeUnit::Microseconds)),
        entry@ == number + "ms"@ ==> r == Some((x, TimeUnit::Milliseconds)),
        entry@ == number + " ms"@ ==> r == Some((x, TimeUnit::Milliseconds)),
        entry@ == number + "s"@ ==> r == Some((x, TimeUnit::Seconds)),
{
    law_unit_is_read(number);
    let all = entry_readings(entry@);
    assert(all.len() > 0);
    if all[0].number == number {
        assert(!reads(parse, number, None::<F>));
        match r {
            Some((y, unit)) => {
                let i = choose|i: int|
                    0 <= i < all.len() && unit == (#[trigger] all[i]).unit && reads(
                        parse,
                        all[i].number,
                        Some(y),
                    ) && forall|j: int|
                        0 <= j < i ==> reads(parse, (#[trigger] all[j]).number, None::<F>);
                assert(i == 0) by {
                    if i > 0 {
                        assert(reads(parse, all[0].number, None::<F>));
                    }
                }
            },
            None => {
                assert(reads(parse, all[0].number, None::<F>));
            },
        }
    }
}

/// What cannot be read in any way gives no time.
pub proof fn law_unreadable_entry_gives_no_time<F, P: Fn(&str) -> Option<F>>(
    entry: &str,
    parse: P,
    r: Option<(F, TimeUnit)>,
)
    requires
        forall|t: &str| call_requires(parse, (t,)),
        forall|t: &str, out: Option<F>| #[trigger] call_ensures(parse, (t,), out) ==> out is None,
        call_ensures(typed_time::<F, P>, (entry, parse), r),
    ensures
        r is None,
{
}

} // verus!
