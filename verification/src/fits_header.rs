//! Keyword cards and writing them into a FITS header.

use crate::text;
use fitskit::{Header, HeaderValue};
use vstd::prelude::*;

verus! {

/// A FITS header of the `fitskit` crate: a list of keyword cards.
#[verifier::external_type_specification]
#[verifier::external_body]
pub struct ExHeader(fitskit::Header);

/// A value of a FITS keyword, of the `fitskit` crate.
#[verifier::external_type_specification]
#[verifier::external_body]
pub struct ExHeaderValue(fitskit::HeaderValue);

/// The cards that a header holds, in order: name, value, comment.
pub uninterp spec fn header_cards(h: Header) -> Seq<
    (Seq<char>, Option<HeaderValue>, Option<Seq<char>>),
>;

/// The header value that is an integer.
pub uninterp spec fn integer_value(n: i64) -> HeaderValue;

/// The header value that is a floating-point number without fraction.
pub uninterp spec fn whole_value(n: i32) -> HeaderValue;

/// The header value that is a text.
pub uninterp spec fn string_value(s: Seq<char>) -> HeaderValue;

/// The header value that is a truth value.
pub uninterp spec fn logical_value(b: bool) -> HeaderValue;

/// Builds [`HeaderValue::Integer`].
#[verifier::external_body]
fn make_integer(n: i64) -> (r: HeaderValue)
    ensures
        r == integer_value(n),
{
    HeaderValue::Integer(n)
}

/// Builds [`HeaderValue::Float`] from a whole number, which converts exactly.
#[verifier::external_body]
fn make_whole(n: i32) -> (r: HeaderValue)
    ensures
        r == whole_value(n),
{
    HeaderValue::Float(n.into())
}

/// Builds [`HeaderValue::String`].
#[verifier::external_body]
fn make_string(s: &str) -> (r: HeaderValue)
    ensures
        r == string_value(s@),
{
    HeaderValue::String(s.to_string())
}

/// Builds [`HeaderValue::Logical`].
#[verifier::external_body]
fn make_logical(b: bool) -> (r: HeaderValue)
    ensures
        r == logical_value(b),
{
    HeaderValue::Logical(b)
}

/// Do two keyword names agree but for the case of ASCII letters?
pub open spec fn same_keyword(a: Seq<char>, b: Seq<char>) -> bool {
    a.len() == b.len() && forall|i: int|
        0 <= i < a.len() ==> text::ascii_lower(#[trigger] a[i]) == text::ascii_lower(b[i])
}

/// Where the first card with a name stands; the number of cards where there is
/// none.
pub open spec fn card_index(
    cards: Seq<(Seq<char>, Option<HeaderValue>, Option<Seq<char>>)>,
    name: Seq<char>,
) -> int
    decreases cards.len(),
{
    if cards.len() == 0 {
        0
    } else if same_keyword(cards[0].0, name) {
        0
    } else {
        1 + card_index(cards.skip(1), name)
    }
}

/// The cards after setting a keyword: the first card of that name is updated
/// in place, keeping its comment unless a new one is given; without one a card
/// is appended.
pub open spec fn with_card(
    cards: Seq<(Seq<char>, Option<HeaderValue>, Option<Seq<char>>)>,
    name: Seq<char>,
    value: HeaderValue,
    comment: Option<Seq<char>>,
) -> Seq<(Seq<char>, Option<HeaderValue>, Option<Seq<char>>)> {
    let i = card_index(cards, name);
    if i < cards.len() {
        cards.update(
            i,
            (
                cards[i].0,
                Some(value),
                if comment is Some {
                    comment
                } else {
                    cards[i].2
                },
            ),
        )
    } else {
        cards.push((name, Some(value), comment))
    }
}

/// A keyword name as FITS has it: ASCII capitals, digits, `-` and `_`.
pub open spec fn is_keyword(name: Seq<char>) -> bool {
    forall|i: int|
        0 <= i < name.len() ==> {
            let n = #[trigger] name[i] as u32;
            65 <= n <= 90 || 48 <= n <= 57 || n == 45 || n == 95
        }
}

/// The view of an optional comment.
pub open spec fn comment_view(c: Option<&str>) -> Option<Seq<char>> {
    match c {
        Some(x) => Some(x@),
        None => None,
    }
}

/// Calls [`Header::set`]: updates the first card of that name in place, or
/// appends a card. The name is stored in upper case, which a name of capitals
/// already is.
#[verifier::external_body]
fn set_card(header: &mut Header, name: &str, value: HeaderValue, comment: Option<&str>)
    requires
        is_keyword(name@),
    ensures
        header_cards(*final(header)) == with_card(
            header_cards(*old(header)),
            name@,
            value,
            comment_view(comment),
        ),
{
    header.set(name, value, comment)
}

// ---------------------------------------------------------------------------
// Cards to write

/// What a card says, with `F` for floating-point numbers.
#[derive(PartialEq, Eq, Debug)]
pub enum CardValue<F> {
    Text(String),
    Integer(i64),
    /// A floating-point number without fraction.
    Whole(i32),
    Real(F),
    Logical(bool),
}

/// A card to write.
#[derive(PartialEq, Eq, Debug)]
pub struct Card<F> {
    pub name: &'static str,
    pub value: CardValue<F>,
    pub comment: Option<&'static str>,
}

/// What a card says, as a mathematical value.
#[verifier::ext_equal]
pub enum ValueSpec<F> {
    Text(Seq<char>),
    Integer(int),
    Whole(int),
    Real(F),
    Logical(bool),
}

/// A card to write, as a mathematical value.
#[verifier::ext_equal]
pub struct CardSpec<F> {
    pub name: Seq<char>,
    pub value: ValueSpec<F>,
    pub comment: Option<Seq<char>>,
}

impl<F> View for Card<F> {
    type V = CardSpec<F>;

    open spec fn view(&self) -> CardSpec<F> {
        CardSpec {
            name: self.name@,
            value: match self.value {
                CardValue::Text(s) => ValueSpec::Text(s@),
                CardValue::Integer(n) => ValueSpec::Integer(n as int),
                CardValue::Whole(n) => ValueSpec::Whole(n as int),
                CardValue::Real(x) => ValueSpec::Real(x),
                CardValue::Logical(b) => ValueSpec::Logical(b),
            },
            comment: comment_view(self.comment),
        }
    }
}

/// The contents of a list of cards.
pub open spec fn card_specs<F>(list: Seq<Card<F>>) -> Seq<CardSpec<F>> {
    list.map_values(|c: Card<F>| c@)
}

/// A card with a comment.
pub open spec fn card<F>(name: Seq<char>, value: ValueSpec<F>, comment: Seq<char>) -> CardSpec<F> {
    CardSpec { name, value, comment: Some(comment) }
}

/// Appends a card.
pub fn push_card<F>(
    list: &mut Vec<Card<F>>,
    name: &'static str,
    value: CardValue<F>,
    comment: Option<&'static str>,
)
    requires
        is_keyword(name@),
        all_keywords(old(list)@),
    ensures
        all_keywords(final(list)@),
        card_specs(final(list)@) == card_specs(old(list)@).push(
            (Card { name, value, comment })@,
        ),
{
    let ghost before = list@;
    list.push(Card { name, value, comment });
    assert(card_specs(list@) =~= card_specs(before).push((Card { name, value, comment })@));
}

/// Is `v` the header value for `value`, where `float` makes those of `F`?
pub open spec fn stands_for<F, W: Fn(F) -> HeaderValue>(
    value: CardValue<F>,
    float: W,
    v: HeaderValue,
) -> bool {
    match value {
        CardValue::Text(s) => v == string_value(s@),
        CardValue::Integer(n) => v == integer_value(n),
        CardValue::Whole(n) => v == whole_value(n),
        CardValue::Real(x) => call_ensures(float, (x,), v),
        CardValue::Logical(b) => v == logical_value(b),
    }
}

/// Is `values` a list of header values for the cards?
pub open spec fn stand_for_all<F, W: Fn(F) -> HeaderValue>(
    cards: Seq<Card<F>>,
    float: W,
    values: Seq<HeaderValue>,
) -> bool {
    values.len() == cards.len() && forall|i: int|
        0 <= i < cards.len() ==> stands_for(cards[i].value, float, #[trigger] values[i])
}

/// The cards of a header after the cards `list` were set one after the other
/// to `values`.
pub open spec fn with_all<F>(
    cards: Seq<(Seq<char>, Option<HeaderValue>, Option<Seq<char>>)>,
    list: Seq<Card<F>>,
    values: Seq<HeaderValue>,
) -> Seq<(Seq<char>, Option<HeaderValue>, Option<Seq<char>>)>
    decreases list.len(),
{
    if list.len() == 0 {
        cards
    } else {
        with_card(
            with_all(cards, list.drop_last(), values),
            list.last().name@,
            values[list.len() - 1],
            comment_view(list.last().comment),
        )
    }
}

/// Are all names keywords?
pub open spec fn all_keywords<F>(list: Seq<Card<F>>) -> bool {
    forall|i: int| 0 <= i < list.len() ==> is_keyword((#[trigger] list[i]).name@)
}

fn value_for<F: Copy, W: Fn(F) -> HeaderValue>(value: &CardValue<F>, float: &W) -> (r: HeaderValue)
    requires
        forall|x: F| call_requires(*float, (x,)),
    ensures
        stands_for(*value, *float, r),
{
    match value {
        CardValue::Text(s) => make_string(s.as_str()),
        CardValue::Integer(n) => make_integer(*n),
        CardValue::Whole(n) => make_whole(*n),
        CardValue::Real(x) => float(*x),
        CardValue::Logical(b) => make_logical(*b),
    }
}

/// Writes cards into a header, in order.
pub fn write_cards<F: Copy, W: Fn(F) -> HeaderValue>(
    header: &mut Header,
    list: &Vec<Card<F>>,
    float: W,
)
    requires
        all_keywords(list@),
        forall|x: F| call_requires(float, (x,)),
    ensures
        exists|values: Seq<HeaderValue>|
            #[trigger] stand_for_all(list@, float, values) && header_cards(*final(header))
                == with_all(header_cards(*old(header)), list@, values),
{
    let ghost mut values: Seq<HeaderValue> = Seq::empty();
    let ghost start = header_cards(*header);
    for i in 0..list.len()
        invariant
            all_keywords(list@),
            forall|x: F| call_requires(float, (x,)),
            stand_for_all(list@.take(i as int), float, values),
            header_cards(*header) == with_all(start, list@.take(i as int), values),
    {
        let v: HeaderValue = value_for(&list[i].value, &float);
        let ghost before = values;
        proof {
            values = values.push(v);
            assert(list@.take(i as int + 1).drop_last() =~= list@.take(i as int));
            lemma_with_all_prefix(start, list@.take(i as int), before, values);
        }
        set_card(header, list[i].name, v, list[i].comment);
        assert(stand_for_all(list@.take(i as int + 1), float, values)) by {
            assert forall|k: int| 0 <= k < i + 1 implies stands_for(
                list@.take(i as int + 1)[k].value,
                float,
                #[trigger] values[k],
            ) by {
                if k < i {
                    assert(values[k] == before[k]);
                    assert(list@.take(i as int)[k] == list@.take(i as int + 1)[k]);
                }
            }
        }
    }
    assert(list@.take(list@.len() as int) =~= list@);
}

/// Values beyond the cards written do not matter.
proof fn lemma_with_all_prefix<F>(
    cards: Seq<(Seq<char>, Option<HeaderValue>, Option<Seq<char>>)>,
    list: Seq<Card<F>>,
    a: Seq<HeaderValue>,
    b: Seq<HeaderValue>,
)
    requires
        a.len() >= list.len(),
        b.len() >= list.len(),
        forall|i: int| 0 <= i < list.len() ==> a[i] == b[i],
    ensures
        with_all(cards, list, a) == with_all(cards, list, b),
    decreases list.len(),
{
    if list.len() > 0 {
        lemma_with_all_prefix(cards, list.drop_last(), a, b);
    }
}

/// A keyword that was set is there, with the value it was set to.
pub proof fn law_set_keyword_is_found(
    cards: Seq<(Seq<char>, Option<HeaderValue>, Option<Seq<char>>)>,
    name: Seq<char>,
    value: HeaderValue,
    comment: Option<Seq<char>>,
)
    ensures
        ({
            let after = with_card(cards, name, value, comment);
            let i = card_index(after, name);
            &&& i < after.len()
            &&& same_keyword(after[i].0, name)
            &&& after[i].1 == Some(value)
        }),
{
    lemma_card_index(cards, name);
    let i = card_index(cards, name);
    let after = with_card(cards, name, value, comment);
    assert forall|k: int| 0 <= k < i implies !same_keyword((#[trigger] after[k]).0, name) by {
        assert(after[k].0 == cards[k].0);
    }
    assert(same_keyword(after[i].0, name));
    lemma_card_index_is(after, name, i);
}

/// Setting a keyword leaves every card of another name as it was.
pub proof fn law_set_keyword_keeps_others(
    cards: Seq<(Seq<char>, Option<HeaderValue>, Option<Seq<char>>)>,
    name: Seq<char>,
    value: HeaderValue,
    comment: Option<Seq<char>>,
    i: int,
)
    requires
        0 <= i < cards.len(),
        !same_keyword(cards[i].0, name),
    ensures
        with_card(cards, name, value, comment).len() >= cards.len(),
        with_card(cards, name, value, comment)[i] == cards[i],
{
    lemma_card_index(cards, name);
}

/// The index of a keyword is that of the first card with it.
pub proof fn lemma_card_index(
    cards: Seq<(Seq<char>, Option<HeaderValue>, Option<Seq<char>>)>,
    name: Seq<char>,
)
    ensures
        0 <= card_index(cards, name) <= cards.len(),
        card_index(cards, name) < cards.len() ==> same_keyword(
            cards[card_index(cards, name)].0,
            name,
        ),
        forall|k: int|
            0 <= k < card_index(cards, name) ==> !same_keyword((#[trigger] cards[k]).0, name),
    decreases cards.len(),
{
    if cards.len() > 0 && !same_keyword(cards[0].0, name) {
        lemma_card_index(cards.skip(1), name);
        assert forall|k: int| 0 <= k < card_index(cards, name) implies !same_keyword(
            (#[trigger] cards[k]).0,
            name,
        ) by {
            if k > 0 {
                assert(cards.skip(1)[k - 1] == cards[k]);
            }
        }
    }
}

proof fn lemma_card_index_is(
    cards: Seq<(Seq<char>, Option<HeaderValue>, Option<Seq<char>>)>,
    name: Seq<char>,
    i: int,
)
    requires
        0 <= i < cards.len(),
        same_keyword(cards[i].0, name),
        forall|k: int| 0 <= k < i ==> !same_keyword((#[trigger] cards[k]).0, name),
    ensures
        card_index(cards, name) == i,
    decreases cards.len(),
{
    if i > 0 {
        assert(!same_keyword(cards[0].0, name));
        assert forall|k: int| 0 <= k < i - 1 implies !same_keyword(
            (#[trigger] cards.skip(1)[k]).0,
            name,
        ) by {
            assert(cards.skip(1)[k] == cards[k + 1]);
        }
        lemma_card_index_is(cards.skip(1), name, i - 1);
    }
}

/// Do the cards have different names?
pub open spec fn distinct_names<F>(list: Seq<Card<F>>) -> bool {
    forall|a: int, b: int|
        #![trigger list[a], list[b]]
        0 <= a < b < list.len() ==> !same_keyword(list[a].name@, list[b].name@)
}

/// After cards with different names were written, each of them is found under
/// its name, with its value.
pub proof fn law_written_cards_are_found<F>(
    cards: Seq<(Seq<char>, Option<HeaderValue>, Option<Seq<char>>)>,
    list: Seq<Card<F>>,
    values: Seq<HeaderValue>,
    i: int,
)
    requires
        0 <= i < list.len() <= values.len(),
        distinct_names(list),
    ensures
        ({
            let after = with_all(cards, list, values);
            let j = card_index(after, list[i].name@);
            &&& j < after.len()
            &&& same_keyword(after[j].0, list[i].name@)
            &&& after[j].1 == Some(values[i])
        }),
    decreases list.len(),
{
    let n = list.len() as int;
    let before = with_all(cards, list.drop_last(), values);
    let last = list.last();
    let after = with_all(cards, list, values);
    if i == n - 1 {
        law_set_keyword_is_found(before, last.name@, values[n - 1], comment_view(last.comment));
    } else {
        let name = list[i].name@;
        assert(list.drop_last()[i] == list[i]);
        law_written_cards_are_found(cards, list.drop_last(), values, i);
        let j = card_index(before, name);
        lemma_card_index(before, name);
        lemma_card_index(before, last.name@);
        assert(list[n - 1] == last);
        assert(!same_keyword(name, last.name@));
        assert(!same_keyword(before[j].0, last.name@)) by {
            if same_keyword(before[j].0, last.name@) {
                assert forall|k: int| 0 <= k < name.len() implies text::ascii_lower(#[trigger] name[k])
                    == text::ascii_lower(last.name@[k]) by {
                    assert(text::ascii_lower(before[j].0[k]) == text::ascii_lower(name[k]));
                    assert(text::ascii_lower(before[j].0[k]) == text::ascii_lower(last.name@[k]));
                }
            }
        }
        assert forall|k: int| 0 <= k < j implies !same_keyword((#[trigger] after[k]).0, name) by {
            assert(!same_keyword(before[k].0, name));
            assert(after[k].0 == before[k].0);
        }
        assert(after[j] == before[j]);
        lemma_card_index_is(after, name, j);
    }
}

/// Does a list hold a card with this name and this value?
pub open spec fn says<F>(list: Seq<Card<F>>, name: Seq<char>, value: ValueSpec<F>) -> bool {
    exists|i: int|
        0 <= i < list.len() && (#[trigger] list[i]).name@ == name && match (list[i].value, value) {
            (CardValue::Text(s), ValueSpec::Text(t)) => s@ == t,
            (CardValue::Integer(m), ValueSpec::Integer(n)) => m == n,
            (CardValue::Whole(m), ValueSpec::Whole(n)) => m == n,
            (CardValue::Real(x), ValueSpec::Real(y)) => x == y,
            (CardValue::Logical(a), ValueSpec::Logical(b)) => a == b,
            _ => false,
        }
}

/// Does a list hold no card with this name?
pub open spec fn lacks<F>(list: Seq<Card<F>>, name: Seq<char>) -> bool {
    forall|i: int| 0 <= i < list.len() ==> (#[trigger] list[i]).name@ != name
}

/// What the card at `i` says.
pub proof fn lemma_card_says<F>(list: Seq<Card<F>>, i: int)
    requires
        0 <= i < list.len(),
    ensures
        says(list, card_specs(list)[i].name, card_specs(list)[i].value),
{
    assert(card_specs(list)[i] == list[i]@);
    assert(list[i].name@ == card_specs(list)[i].name);
}

/// A card that is appended comes last, with its own name, value and comment,
/// and the cards before it stay.
pub proof fn law_appended_card_is_last<F>(
    list: &mut Vec<Card<F>>,
    name: &'static str,
    value: CardValue<F>,
    comment: Option<&'static str>,
)
    requires
        is_keyword(name@),
        all_keywords(old(list)@),
        call_ensures(push_card::<F>, (list, name, value, comment), ()),
    ensures
        final(list).len() == old(list).len() + 1,
        final(list)@.last().name@ == name@,
        match (value, final(list)@.last().value) {
            (CardValue::Text(s), CardValue::Text(t)) => s@ == t@,
            (CardValue::Integer(m), CardValue::Integer(n)) => m == n,
            (CardValue::Whole(m), CardValue::Whole(n)) => m == n,
            (CardValue::Real(x), CardValue::Real(y)) => x == y,
            (CardValue::Logical(a), CardValue::Logical(b)) => a == b,
            _ => false,
        },
        match (comment, final(list)@.last().comment) {
            (Some(a), Some(b)) => a@ == b@,
            (None, None) => true,
            _ => false,
        },
        forall|i: int|
            0 <= i < old(list).len() ==> (#[trigger] final(list)@[i])@ == old(list)@[i]@,
{
    let n = old(list).len() as int;
    assert(card_specs(final(list)@).len() == final(list).len());
    assert(card_specs(old(list)@).len() == n);
    assert(card_specs(final(list)@)[n] == final(list)@[n]@);
    assert forall|i: int| 0 <= i < n implies (#[trigger] final(list)@[i])@ == old(list)@[i]@ by {
        assert(card_specs(final(list)@)[i] == final(list)@[i]@);
        assert(card_specs(old(list)@)[i] == old(list)@[i]@);
    }
}

/// Cards with different names that are written into a header are all found
/// there: a text as the text, a number as the number, a truth value as the
/// truth value.
pub proof fn law_written_values_are_found<F: Copy, W: Fn(F) -> HeaderValue>(
    header: &mut Header,
    list: Vec<Card<F>>,
    float: W,
    i: int,
)
    requires
        all_keywords(list@),
        distinct_names(list@),
        forall|x: F| call_requires(float, (x,)),
        call_ensures(write_cards::<F, W>, (header, &list, float), ()),
        0 <= i < list.len(),
    ensures
        ({
            let h = header_cards(*final(header));
            let j = card_index(h, list@[i].name@);
            &&& 0 <= j < h.len()
            &&& h[j].1 is Some
            &&& match list@[i].value {
                CardValue::Text(s) => h[j].1->0 == string_value(s@),
                CardValue::Integer(n) => h[j].1->0 == integer_value(n),
                CardValue::Whole(n) => h[j].1->0 == whole_value(n),
                CardValue::Real(x) => call_ensures(float, (x,), h[j].1->0),
                CardValue::Logical(b) => h[j].1->0 == logical_value(b),
            }
        }),
{
    let before = header_cards(*old(header));
    let h = header_cards(*final(header));
    let values = choose|values: Seq<HeaderValue>|
        #[trigger] stand_for_all(list@, float, values) && h == with_all(before, list@, values);
    law_written_cards_are_found(before, list@, values, i);
    lemma_card_index(h, list@[i].name@);
    assert(stands_for(list@[i].value, float, values[i]));
}

} // verus!
