//! FITS WCS keywords from a live plate solve, so recorded frames open in other
//! software already on the sky.
//!
//! The solve gives a gnomonic (TAN) fit: a reference point on the sky (CRVAL),
//! the pixel it lands on (CRPIX), and a CD matrix mapping pixel offsets from
//! CRPIX to East and North tangent-plane offsets. That is exactly the FITS
//! `RA---TAN` / `DEC--TAN` description.

use crate::fits_header;
use crate::fits_header::{Card, CardSpec, CardValue, ValueSpec};
use crate::text;
use fitskit::{Header, HeaderValue};
use vstd::prelude::*;

verus! {

/// The keyword values for one frame, with `F` for floating-point numbers.
#[derive(Clone, Copy, PartialEq, Eq, Debug)]
pub struct WcsKeys<F> {
    /// 1-based FITS pixel coordinates of the reference point.
    pub crpix: [F; 2],
    /// Reference point `[RA, Dec]`, degrees.
    pub crval_deg: [F; 2],
    /// `[[CD1_1, CD1_2], [CD2_1, CD2_2]]`, degrees per pixel.
    pub cd_deg: [[F; 2]; 2],
}

/// The WCS cards for the given keyword values, in the order in which they are
/// written.
pub open spec fn wcs_cards<F>(k: WcsKeys<F>) -> Seq<CardSpec<F>> {
    seq![
        fits_header::card("WCSAXES"@, ValueSpec::Integer(2), "number of WCS axes"@),
        fits_header::card("CTYPE1"@, ValueSpec::Text("RA---TAN"@), "gnomonic projection, RA"@),
        fits_header::card("CTYPE2"@, ValueSpec::Text("DEC--TAN"@), "gnomonic projection, Dec"@),
        CardSpec { name: "CUNIT1"@, value: ValueSpec::Text("deg"@), comment: None },
        CardSpec { name: "CUNIT2"@, value: ValueSpec::Text("deg"@), comment: None },
        fits_header::card("CRPIX1"@, ValueSpec::Real(k.crpix[0]), "reference pixel, 1-based"@),
        fits_header::card("CRPIX2"@, ValueSpec::Real(k.crpix[1]), "reference pixel, 1-based"@),
        fits_header::card(
            "CRVAL1"@,
            ValueSpec::Real(k.crval_deg[0]),
            "RA at reference pixel (deg)"@,
        ),
        fits_header::card(
            "CRVAL2"@,
            ValueSpec::Real(k.crval_deg[1]),
            "Dec at reference pixel (deg)"@,
        ),
        fits_header::card("CD1_1"@, ValueSpec::Real(k.cd_deg[0][0]), "deg/pixel"@),
        fits_header::card("CD1_2"@, ValueSpec::Real(k.cd_deg[0][1]), "deg/pixel"@),
        fits_header::card("CD2_1"@, ValueSpec::Real(k.cd_deg[1][0]), "deg/pixel"@),
        fits_header::card("CD2_2"@, ValueSpec::Real(k.cd_deg[1][1]), "deg/pixel"@),
        fits_header::card("RADESYS"@, ValueSpec::Text("ICRS"@), "celestial reference frame"@),
        fits_header::card("EQUINOX"@, ValueSpec::Whole(2000), "equinox of coordinates"@),
        fits_header::card(
            "PLTSOLVD"@,
            ValueSpec::Logical(true),
            "WCS from the live plate solve"@,
        ),
    ]
}

/// Are these the WCS cards for the given keyword values?
pub open spec fn are_wcs_cards<F>(k: WcsKeys<F>, c: Seq<Card<F>>) -> bool {
    fits_header::card_specs(c) == wcs_cards(k)
}

/// The names of the WCS cards are FITS keywords.
proof fn lemma_wcs_names()
    ensures
        fits_header::is_keyword("WCSAXES"@),
        fits_header::is_keyword("CTYPE1"@),
        fits_header::is_keyword("CTYPE2"@),
        fits_header::is_keyword("CUNIT1"@),
        fits_header::is_keyword("CUNIT2"@),
        fits_header::is_keyword("CRPIX1"@),
        fits_header::is_keyword("CRPIX2"@),
        fits_header::is_keyword("CRVAL1"@),
        fits_header::is_keyword("CRVAL2"@),
        fits_header::is_keyword("CD1_1"@),
        fits_header::is_keyword("CD1_2"@),
        fits_header::is_keyword("CD2_1"@),
        fits_header::is_keyword("CD2_2"@),
        fits_header::is_keyword("RADESYS"@),
        fits_header::is_keyword("EQUINOX"@),
        fits_header::is_keyword("PLTSOLVD"@),
{
    reveal_strlit("WCSAXES");
    reveal_strlit("CTYPE1");
    reveal_strlit("CTYPE2");
    reveal_strlit("CUNIT1");
    reveal_strlit("CUNIT2");
    reveal_strlit("CRPIX1");
    reveal_strlit("CRPIX2");
    reveal_strlit("CRVAL1");
    reveal_strlit("CRVAL2");
    reveal_strlit("CD1_1");
    reveal_strlit("CD1_2");
    reveal_strlit("CD2_1");
    reveal_strlit("CD2_2");
    reveal_strlit("RADESYS");
    reveal_strlit("EQUINOX");
    reveal_strlit("PLTSOLVD");
}

/// What a plate solve says of the frame it solved.
#[derive(Clone, Copy, PartialEq, Eq, Debug)]
pub struct SolvedFrame<F> {
    pub width: u32,
    pub height: u32,
    /// Offset of the optical center from the image center, in pixels.
    pub crpix: [F; 2],
    /// Reference point `[RA, Dec]`, radians.
    pub crval_rad: [F; 2],
    /// The CD matrix, radians per pixel.
    pub cd_rad: [[F; 2]; 2],
}

/// May `k` be the keyword values for a solved frame? `pixel` gives the
/// reference pixel along an axis from the length of the axis and the offset of
/// the optical center, `ra` the right ascension in degrees, and `degrees` any
/// other angle in degrees.
pub open spec fn keys_of_solve<F, P: Fn(u32, F) -> F, A: Fn(F) -> F, D: Fn(F) -> F>(
    s: SolvedFrame<F>,
    pixel: P,
    ra: A,
    degrees: D,
    k: WcsKeys<F>,
) -> bool {
    &&& call_ensures(pixel, (s.width, s.crpix[0]), k.crpix[0])
    &&& call_ensures(pixel, (s.height, s.crpix[1]), k.crpix[1])
    &&& call_ensures(ra, (s.crval_rad[0],), k.crval_deg[0])
    &&& call_ensures(degrees, (s.crval_rad[1],), k.crval_deg[1])
    &&& call_ensures(degrees, (s.cd_rad[0][0],), k.cd_deg[0][0])
    &&& call_ensures(degrees, (s.cd_rad[0][1],), k.cd_deg[0][1])
    &&& call_ensures(degrees, (s.cd_rad[1][0],), k.cd_deg[1][0])
    &&& call_ensures(degrees, (s.cd_rad[1][1],), k.cd_deg[1][1])
}

/// The eight numbers of the keyword values.
pub open spec fn key_numbers<F>(k: WcsKeys<F>) -> Seq<F> {
    seq![
        k.crpix[0],
        k.crpix[1],
        k.crval_deg[0],
        k.crval_deg[1],
        k.cd_deg[0][0],
        k.cd_deg[0][1],
        k.cd_deg[1][0],
        k.cd_deg[1][1],
    ]
}

/// Is `r` what becomes of the keyword values `k`? They stand if every number
/// is finite, and are given up if one is not.
pub open spec fn kept_if_finite<F, N: Fn(F) -> bool>(
    k: WcsKeys<F>,
    finite: N,
    r: Option<WcsKeys<F>>,
) -> bool {
    match r {
        Some(v) => v == k && forall|i: int|
            0 <= i < 8 ==> call_ensures(finite, (#[trigger] key_numbers(k)[i],), true),
        None => exists|i: int|
            0 <= i < 8 && call_ensures(finite, (#[trigger] key_numbers(k)[i],), false),
    }
}

impl<F: Copy> WcsKeys<F> {
    /// The keyword values for a frame of the given size, from the last solve:
    /// `None` when the solve was of a differently sized frame (a region or
    /// binning change since the last lock), since the reference pixel and the
    /// scale would then describe a different image, and `None` when a number
    /// is not finite. The floating-point steps are passed in.
    pub fn from_solution<
        P: Fn(u32, F) -> F,
        A: Fn(F) -> F,
        D: Fn(F) -> F,
        N: Fn(F) -> bool,
    >(
        s: &SolvedFrame<F>,
        width: u32,
        height: u32,
        pixel: P,
        ra: A,
        degrees: D,
        finite: N,
    ) -> (r: Option<WcsKeys<F>>)
        requires
            forall|n: u32, x: F| call_requires(pixel, (n, x)),
            forall|x: F| call_requires(ra, (x,)),
            forall|x: F| call_requires(degrees, (x,)),
            forall|x: F| call_requires(finite, (x,)),
        ensures
            (s.width, s.height) != (width, height) ==> r is None,
            (s.width, s.height) == (width, height) ==> exists|k: WcsKeys<F>| #[trigger]
                keys_of_solve(*s, pixel, ra, degrees, k) && kept_if_finite(k, finite, r),
    {
        if s.width != width || s.height != height {
            return None;
        }
        let k: WcsKeys<F> = WcsKeys {
            crpix: [pixel(width, s.crpix[0]), pixel(height, s.crpix[1])],
            crval_deg: [ra(s.crval_rad[0]), degrees(s.crval_rad[1])],
            cd_deg: [
                [degrees(s.cd_rad[0][0]), degrees(s.cd_rad[0][1])],
                [degrees(s.cd_rad[1][0]), degrees(s.cd_rad[1][1])],
            ],
        };
        assert(keys_of_solve(*s, pixel, ra, degrees, k));
        let numbers: Vec<F> = vec![
            k.crpix[0],
            k.crpix[1],
            k.crval_deg[0],
            k.crval_deg[1],
            k.cd_deg[0][0],
            k.cd_deg[0][1],
            k.cd_deg[1][0],
            k.cd_deg[1][1],
        ];
        assert(numbers@ =~= key_numbers(k));
        let mut i: usize = 0;
        while i < 8
            invariant
                i <= 8,
                numbers@ == key_numbers(k),
                keys_of_solve(*s, pixel, ra, degrees, k),
                (s.width, s.height) == (width, height),
                forall|x: F| call_requires(finite, (x,)),
                forall|j: int|
                    0 <= j < i ==> call_ensures(finite, (#[trigger] key_numbers(k)[j],), true),
            decreases 8 - i,
        {
            let ok: bool = finite(numbers[i]);
            if !ok {
                assert(call_ensures(finite, (key_numbers(k)[i as int],), false));
                assert(kept_if_finite(k, finite, None));
                return None;
            }
            i = i + 1;
        }
        assert(kept_if_finite(k, finite, Some(k)));
        Some(k)
    }

    /// Appends the WCS cards to a list, in the order in which they are written.
    pub fn push_cards(&self, list: &mut Vec<Card<F>>)
        requires
            fits_header::all_keywords(old(list)@),
        ensures
            fits_header::all_keywords(final(list)@),
            fits_header::card_specs(final(list)@) == fits_header::card_specs(old(list)@)
                + wcs_cards(*self),
    {
        proof {
            lemma_wcs_names();
        }
        let ghost before = fits_header::card_specs(list@);
        fits_header::push_card(list, "WCSAXES", CardValue::Integer(2), Some("number of WCS axes"));
        fits_header::push_card(
            list,
            "CTYPE1",
            CardValue::Text("RA---TAN".to_string()),
            Some("gnomonic projection, RA"),
        );
        fits_header::push_card(
            list,
            "CTYPE2",
            CardValue::Text("DEC--TAN".to_string()),
            Some("gnomonic projection, Dec"),
        );
        fits_header::push_card(list, "CUNIT1", CardValue::Text("deg".to_string()), None);
        fits_header::push_card(list, "CUNIT2", CardValue::Text("deg".to_string()), None);
        fits_header::push_card(
            list,
            "CRPIX1",
            CardValue::Real(self.crpix[0]),
            Some("reference pixel, 1-based"),
        );
        fits_header::push_card(
            list,
            "CRPIX2",
            CardValue::Real(self.crpix[1]),
            Some("reference pixel, 1-based"),
        );
        fits_header::push_card(
            list,
            "CRVAL1",
            CardValue::Real(self.crval_deg[0]),
            Some("RA at reference pixel (deg)"),
        );
        fits_header::push_card(
            list,
            "CRVAL2",
            CardValue::Real(self.crval_deg[1]),
            Some("Dec at reference pixel (deg)"),
        );
        fits_header::push_card(
            list,
            "CD1_1",
            CardValue::Real(self.cd_deg[0][0]),
            Some("deg/pixel"),
        );
        fits_header::push_card(
            list,
            "CD1_2",
            CardValue::Real(self.cd_deg[0][1]),
            Some("deg/pixel"),
        );
        fits_header::push_card(
            list,
            "CD2_1",
            CardValue::Real(self.cd_deg[1][0]),
            Some("deg/pixel"),
        );
        fits_header::push_card(
            list,
            "CD2_2",
            CardValue::Real(self.cd_deg[1][1]),
            Some("deg/pixel"),
        );
        fits_header::push_card(
            list,
            "RADESYS",
            CardValue::Text("ICRS".to_string()),
            Some("celestial reference frame"),
        );
        fits_header::push_card(
            list,
            "EQUINOX",
            CardValue::Whole(2000),
            Some("equinox of coordinates"),
        );
        fits_header::push_card(
            list,
            "PLTSOLVD",
            CardValue::Logical(true),
            Some("WCS from the live plate solve"),
        );
        assert(fits_header::card_specs(list@) =~= before + wcs_cards(*self));
    }

    /// The WCS cards, in the order in which they are written.
    pub fn cards(&self) -> (r: Vec<Card<F>>)
        ensures
            are_wcs_cards(*self, r@),
            fits_header::all_keywords(r@),
    {
        let mut c: Vec<Card<F>> = Vec::new();
        self.push_cards(&mut c);
        assert(fits_header::card_specs(c@) =~= wcs_cards(*self));
        c
    }

    /// Writes the keywords into a FITS header; `float` makes the header values
    /// of floating-point numbers.
    pub fn write<W: Fn(F) -> HeaderValue>(&self, header: &mut Header, float: W)
        requires
            forall|x: F| call_requires(float, (x,)),
        ensures
            exists|cards: Seq<Card<F>>, values: Seq<HeaderValue>|
                are_wcs_cards(*self, cards) && #[trigger] fits_header::stand_for_all(
                    cards,
                    float,
                    values,
                ) && fits_header::header_cards(*final(header)) == fits_header::with_all(
                    fits_header::header_cards(*old(header)),
                    cards,
                    values,
                ),
    {
        let list: Vec<Card<F>> = self.cards();
        fits_header::write_cards(header, &list, float);
    }
}

/// A number that tells the names of the WCS cards apart.
spec fn name_mark(s: Seq<char>) -> int {
    ((s.len() * 256 + text::ascii_lower(s[1]) as u32) * 256 + text::ascii_lower(
        s[2],
    ) as u32) * 256 + text::ascii_lower(s.last()) as u32
}

proof fn lemma_wcs_names_differ<F>(k: WcsKeys<F>, c: Seq<Card<F>>)
    requires
        are_wcs_cards(k, c),
    ensures
        fits_header::distinct_names(c),
{
    reveal_strlit("WCSAXES");
    reveal_strlit("CTYPE1");
    reveal_strlit("CTYPE2");
    reveal_strlit("CUNIT1");
    reveal_strlit("CUNIT2");
    reveal_strlit("CRPIX1");
    reveal_strlit("CRPIX2");
    reveal_strlit("CRVAL1");
    reveal_strlit("CRVAL2");
    reveal_strlit("CD1_1");
    reveal_strlit("CD1_2");
    reveal_strlit("CD2_1");
    reveal_strlit("CD2_2");
    reveal_strlit("RADESYS");
    reveal_strlit("EQUINOX");
    reveal_strlit("PLTSOLVD");
    let names = fits_header::card_specs(c);
    assert(names == wcs_cards(k));
    assert(wcs_cards(k).len() == 16);
    assert(c.len() == names.len());
    let marks = Seq::new(16, |i: int| name_mark(names[i].name));
    let m = |len: int, a: int, b: int, z: int| ((len * 256 + a) * 256 + b) * 256 + z;
    assert(marks[0] == m(7, 99, 115, 115));
    assert(marks[1] == m(6, 116, 121, 49));
    assert(marks[2] == m(6, 116, 121, 50));
    assert(marks[3] == m(6, 117, 110, 49));
    assert(marks[4] == m(6, 117, 110, 50));
    assert(marks[5] == m(6, 114, 112, 49));
    assert(marks[6] == m(6, 114, 112, 50));
    assert(marks[7] == m(6, 114, 118, 49));
    assert(marks[8] == m(6, 114, 118, 50));
    assert(marks[9] == m(5, 100, 49, 49));
    assert(marks[10] == m(5, 100, 49, 50));
    assert(marks[11] == m(5, 100, 50, 49));
    assert(marks[12] == m(5, 100, 50, 50));
    assert(marks[13] == m(7, 97, 100, 115));
    assert(marks[14] == m(7, 113, 117, 120));
    assert(marks[15] == m(8, 108, 116, 100));
    assert forall|a: int, b: int|
        #![trigger c[a], c[b]]
        0 <= a < b < c.len() implies !fits_header::same_keyword(c[a].name@, c[b].name@) by {
        if fits_header::same_keyword(c[a].name@, c[b].name@) {
            let x = c[a].name@;
            let y = c[b].name@;
            assert(names[a].name == x && names[b].name == y);
            assert(marks[a] == name_mark(x) && marks[b] == name_mark(y));
            assert(5 <= x.len());
            assert(text::ascii_lower(x[1]) == text::ascii_lower(y[1]));
            assert(text::ascii_lower(x[2]) == text::ascii_lower(y[2]));
            assert(text::ascii_lower(x[x.len() - 1]) == text::ascii_lower(
                y[y.len() - 1],
            ));
            assert(marks[a] == marks[b]);
            assert(false);
        }
    }
}

/// After the keywords of a solve were written into a header, each of them is
/// found there with its value.
pub proof fn law_wcs_keywords_are_found<F>(
    k: WcsKeys<F>,
    before: Seq<(Seq<char>, Option<HeaderValue>, Option<Seq<char>>)>,
    cards: Seq<Card<F>>,
    values: Seq<HeaderValue>,
    i: int,
)
    requires
        are_wcs_cards(k, cards),
        values.len() == cards.len(),
        0 <= i < cards.len(),
    ensures
        ({
            let after = fits_header::with_all(before, cards, values);
            let j = fits_header::card_index(after, cards[i].name@);
            &&& j < after.len()
            &&& fits_header::same_keyword(after[j].0, cards[i].name@)
            &&& after[j].1 == Some(values[i])
        }),
{
    lemma_wcs_names_differ(k, cards);
    fits_header::law_written_cards_are_found(before, cards, values, i);
}

// ---------------------------------------------------------------------------
// Reading the keywords back

/// The value of the first card with a name.
pub open spec fn value_under<F>(cards: Seq<CardSpec<F>>, name: Seq<char>) -> Option<ValueSpec<F>>
    decreases cards.len(),
{
    if cards.len() == 0 {
        None
    } else if cards[0].name == name {
        Some(cards[0].value)
    } else {
        value_under(cards.skip(1), name)
    }
}

/// Does a reader that looks numbers up by keyword get `k` back?
pub open spec fn reads_back<F>(cards: Seq<CardSpec<F>>, k: WcsKeys<F>) -> bool {
    &&& value_under(cards, "CRPIX1"@) == Some(ValueSpec::Real(k.crpix[0]))
    &&& value_under(cards, "CRPIX2"@) == Some(ValueSpec::Real(k.crpix[1]))
    &&& value_under(cards, "CRVAL1"@) == Some(ValueSpec::Real(k.crval_deg[0]))
    &&& value_under(cards, "CRVAL2"@) == Some(ValueSpec::Real(k.crval_deg[1]))
    &&& value_under(cards, "CD1_1"@) == Some(ValueSpec::Real(k.cd_deg[0][0]))
    &&& value_under(cards, "CD1_2"@) == Some(ValueSpec::Real(k.cd_deg[0][1]))
    &&& value_under(cards, "CD2_1"@) == Some(ValueSpec::Real(k.cd_deg[1][0]))
    &&& value_under(cards, "CD2_2"@) == Some(ValueSpec::Real(k.cd_deg[1][1]))
}

/// Does a reader find a gnomonic projection of right ascension and declination
/// in degrees, in the frame and equinox that the solve is in?
pub open spec fn reads_as_tan<F>(cards: Seq<CardSpec<F>>) -> bool {
    &&& value_under(cards, "WCSAXES"@) == Some(ValueSpec::<F>::Integer(2))
    &&& value_under(cards, "CTYPE1"@) == Some(ValueSpec::<F>::Text("RA---TAN"@))
    &&& value_under(cards, "CTYPE2"@) == Some(ValueSpec::<F>::Text("DEC--TAN"@))
    &&& value_under(cards, "CUNIT1"@) == Some(ValueSpec::<F>::Text("deg"@))
    &&& value_under(cards, "CUNIT2"@) == Some(ValueSpec::<F>::Text("deg"@))
    &&& value_under(cards, "RADESYS"@) == Some(ValueSpec::<F>::Text("ICRS"@))
    &&& value_under(cards, "EQUINOX"@) == Some(ValueSpec::<F>::Whole(2000))
    &&& value_under(cards, "PLTSOLVD"@) == Some(ValueSpec::<F>::Logical(true))
}

proof fn lemma_value_under<F>(cards: Seq<CardSpec<F>>, i: int)
    requires
        0 <= i < cards.len(),
        forall|j: int| 0 <= j < i ==> (#[trigger] cards[j]).name != cards[i].name,
    ensures
        value_under(cards, cards[i].name) == Some(cards[i].value),
    decreases cards.len(),
{
    if i > 0 {
        assert(cards[0].name != cards[i].name);
        assert(cards.skip(1)[i - 1] == cards[i]);
        assert forall|j: int| 0 <= j < i - 1 implies (#[trigger] cards.skip(1)[j]).name
            != cards.skip(1)[i - 1].name by {
            assert(cards.skip(1)[j] == cards[j + 1]);
        }
        lemma_value_under(cards.skip(1), i - 1);
    }
}

proof fn lemma_wcs_cards_read_back<F>(k: WcsKeys<F>)
    ensures
        reads_back(wcs_cards(k), k),
        reads_as_tan(wcs_cards(k)),
{
    reveal_strlit("WCSAXES");
    reveal_strlit("CTYPE1");
    reveal_strlit("CTYPE2");
    reveal_strlit("CUNIT1");
    reveal_strlit("CUNIT2");
    reveal_strlit("CRPIX1");
    reveal_strlit("CRPIX2");
    reveal_strlit("CRVAL1");
    reveal_strlit("CRVAL2");
    reveal_strlit("CD1_1");
    reveal_strlit("CD1_2");
    reveal_strlit("CD2_1");
    reveal_strlit("CD2_2");
    reveal_strlit("RADESYS");
    reveal_strlit("EQUINOX");
    reveal_strlit("PLTSOLVD");
    let c = wcs_cards(k);
    let marks = Seq::new(16, |i: int| name_mark(c[i].name));
    let m = |len: int, a: int, b: int, z: int| ((len * 256 + a) * 256 + b) * 256 + z;
    assert(marks[0] == m(7, 99, 115, 115));
    assert(marks[1] == m(6, 116, 121, 49));
    assert(marks[2] == m(6, 116, 121, 50));
    assert(marks[3] == m(6, 117, 110, 49));
    assert(marks[4] == m(6, 117, 110, 50));
    assert(marks[5] == m(6, 114, 112, 49));
    assert(marks[6] == m(6, 114, 112, 50));
    assert(marks[7] == m(6, 114, 118, 49));
    assert(marks[8] == m(6, 114, 118, 50));
    assert(marks[9] == m(5, 100, 49, 49));
    assert(marks[10] == m(5, 100, 49, 50));
    assert(marks[11] == m(5, 100, 50, 49));
    assert(marks[12] == m(5, 100, 50, 50));
    assert(marks[13] == m(7, 97, 100, 115));
    assert(marks[14] == m(7, 113, 117, 120));
    assert(marks[15] == m(8, 108, 116, 100));
    assert forall|i: int| 0 <= i < 16 implies value_under(c, #[trigger] c[i].name) == Some(
        c[i].value,
    ) by {
        assert forall|j: int| 0 <= j < i implies (#[trigger] c[j]).name != c[i].name by {
            assert(marks[j] == name_mark(c[j].name) && marks[i] == name_mark(c[i].name));
            assert(marks[j] != marks[i]);
        }
        lemma_value_under(c, i);
    }
    assert(c[0].name == "WCSAXES"@ && c[1].name == "CTYPE1"@ && c[2].name == "CTYPE2"@);
    assert(c[3].name == "CUNIT1"@ && c[4].name == "CUNIT2"@);
    assert(c[5].name == "CRPIX1"@ && c[6].name == "CRPIX2"@);
    assert(c[7].name == "CRVAL1"@ && c[8].name == "CRVAL2"@);
    assert(c[9].name == "CD1_1"@ && c[10].name == "CD1_2"@);
    assert(c[11].name == "CD2_1"@ && c[12].name == "CD2_2"@);
    assert(c[13].name == "RADESYS"@ && c[14].name == "EQUINOX"@ && c[15].name == "PLTSOLVD"@);
}

/// The cards say what the keyword values are: looking each keyword up gives the
/// number it stands for, so that a reader rebuilds the very same values.
pub proof fn law_cards_read_back<F: Copy>(k: WcsKeys<F>, list: Vec<Card<F>>)
    requires
        call_ensures(WcsKeys::<F>::cards, (&k,), list),
    ensures
        reads_back(fits_header::card_specs(list@), k),
        reads_as_tan(fits_header::card_specs(list@)),
{
    lemma_wcs_cards_read_back(k);
}

/// Cards that are appended to a list leave it as it was, and read back as the
/// values they were made from.
pub proof fn law_pushed_cards_read_back<F: Copy>(k: WcsKeys<F>, list: &mut Vec<Card<F>>)
    requires
        fits_header::all_keywords(old(list)@),
        call_ensures(WcsKeys::<F>::push_cards, (&k, list), ()),
    ensures
        ({
            let n = old(list)@.len() as int;
            let cards = fits_header::card_specs(final(list)@);
            &&& cards.take(n) == fits_header::card_specs(old(list)@)
            &&& reads_back(cards.skip(n), k)
            &&& reads_as_tan(cards.skip(n))
        }),
{
    lemma_wcs_cards_read_back(k);
    let n = old(list)@.len() as int;
    let cards = fits_header::card_specs(final(list)@);
    assert(cards.skip(n) =~= wcs_cards(k));
    assert(cards.take(n) =~= fits_header::card_specs(old(list)@));
}

/// Does a header hold, under a keyword, the header value that stands for a
/// number?
pub open spec fn header_holds<F, W: Fn(F) -> HeaderValue>(
    cards: Seq<(Seq<char>, Option<HeaderValue>, Option<Seq<char>>)>,
    name: Seq<char>,
    x: F,
    float: W,
) -> bool {
    let j = fits_header::card_index(cards, name);
    0 <= j < cards.len() && cards[j].1 is Some && call_ensures(float, (x,), cards[j].1->0)
}

/// After the keywords of a solve were written into a header, whatever stood
/// there before, each number is found under its own keyword.
pub proof fn law_written_numbers_are_found<F: Copy, W: Fn(F) -> HeaderValue>(
    k: WcsKeys<F>,
    header: &mut Header,
    float: W,
)
    requires
        call_ensures(WcsKeys::<F>::write::<W>, (&k, header, float), ()),
    ensures
        ({
            let h = fits_header::header_cards(*final(header));
            &&& header_holds(h, "CRPIX1"@, k.crpix[0], float)
            &&& header_holds(h, "CRPIX2"@, k.crpix[1], float)
            &&& header_holds(h, "CRVAL1"@, k.crval_deg[0], float)
            &&& header_holds(h, "CRVAL2"@, k.crval_deg[1], float)
            &&& header_holds(h, "CD1_1"@, k.cd_deg[0][0], float)
            &&& header_holds(h, "CD1_2"@, k.cd_deg[0][1], float)
            &&& header_holds(h, "CD2_1"@, k.cd_deg[1][0], float)
            &&& header_holds(h, "CD2_2"@, k.cd_deg[1][1], float)
        }),
{
    let before = fits_header::header_cards(*old(header));
    let h = fits_header::header_cards(*final(header));
    let (cards, values) = choose|cards: Seq<Card<F>>, values: Seq<HeaderValue>|
        are_wcs_cards(k, cards) && #[trigger] fits_header::stand_for_all(cards, float, values) && h
            == fits_header::with_all(before, cards, values);
    let specs = fits_header::card_specs(cards);
    assert(specs == wcs_cards(k));
    assert(specs.len() == 16);
    lemma_wcs_cards_read_back(k);
    assert forall|i: int| 5 <= i < 13 implies {
        let j = fits_header::card_index(h, (#[trigger] specs[i]).name);
        &&& 0 <= j < h.len()
        &&& h[j].1 == Some(values[i])
        &&& specs[i].value matches ValueSpec::Real(x) ==> call_ensures(float, (x,), values[i])
    } by {
        law_wcs_keywords_are_found(k, before, cards, values, i);
        fits_header::lemma_card_index(h, specs[i].name);
        assert(specs[i] == cards[i]@);
        assert(fits_header::stands_for(cards[i].value, float, values[i]));
    }
    assert(specs[5].name == "CRPIX1"@ && specs[6].name == "CRPIX2"@);
    assert(specs[7].name == "CRVAL1"@ && specs[8].name == "CRVAL2"@);
    assert(specs[9].name == "CD1_1"@ && specs[10].name == "CD1_2"@);
    assert(specs[11].name == "CD2_1"@ && specs[12].name == "CD2_2"@);
}

/// The keyword values of a solve are those of its own axes and angles: the
/// first pixel coordinate goes with the width, the second with the height, and
/// each angle of the solve becomes the keyword value in its place. A frame of
/// another size has none.
pub proof fn law_keys_are_those_of_the_solve<
    F: Copy,
    P: Fn(u32, F) -> F,
    A: Fn(F) -> F,
    D: Fn(F) -> F,
    N: Fn(F) -> bool,
>(
    s: SolvedFrame<F>,
    width: u32,
    height: u32,
    pixel: P,
    ra: A,
    degrees: D,
    finite: N,
    r: Option<WcsKeys<F>>,
)
    requires
        forall|n: u32, x: F| call_requires(pixel, (n, x)),
        forall|x: F| call_requires(ra, (x,)),
        forall|x: F| call_requires(degrees, (x,)),
        forall|x: F| call_requires(finite, (x,)),
        call_ensures(
            WcsKeys::<F>::from_solution::<P, A, D, N>,
            (&s, width, height, pixel, ra, degrees, finite),
            r,
        ),
    ensures
        s.width != width || s.height != height ==> r is None,
        r matches Some(k) ==> {
            &&& call_ensures(pixel, (width, s.crpix[0]), k.crpix[0])
            &&& call_ensures(pixel, (height, s.crpix[1]), k.crpix[1])
            &&& call_ensures(ra, (s.crval_rad[0],), k.crval_deg[0])
            &&& call_ensures(degrees, (s.crval_rad[1],), k.crval_deg[1])
            &&& call_ensures(degrees, (s.cd_rad[0][0],), k.cd_deg[0][0])
            &&& call_ensures(degrees, (s.cd_rad[0][1],), k.cd_deg[0][1])
            &&& call_ensures(degrees, (s.cd_rad[1][0],), k.cd_deg[1][0])
            &&& call_ensures(degrees, (s.cd_rad[1][1],), k.cd_deg[1][1])
            &&& call_ensures(finite, (k.crpix[0],), true)
            &&& call_ensures(finite, (k.crpix[1],), true)
            &&& call_ensures(finite, (k.crval_deg[0],), true)
            &&& call_ensures(finite, (k.crval_deg[1],), true)
            &&& call_ensures(finite, (k.cd_deg[0][0],), true)
            &&& call_ensures(finite, (k.cd_deg[0][1],), true)
            &&& call_ensures(finite, (k.cd_deg[1][0],), true)
            &&& call_ensures(finite, (k.cd_deg[1][1],), true)
        },
        s.width == width && s.height == height && (forall|x: F|
            !#[trigger] call_ensures(finite, (x,), false)) ==> r is Some,
{
    if let Some(k) = r {
        let n = key_numbers(k);
        assert(n[0] == k.crpix[0] && n[1] == k.crpix[1]);
        assert(n[2] == k.crval_deg[0] && n[3] == k.crval_deg[1]);
        assert(n[4] == k.cd_deg[0][0] && n[5] == k.cd_deg[0][1]);
        assert(n[6] == k.cd_deg[1][0] && n[7] == k.cd_deg[1][1]);
    }
}

/// What is found under a keyword, a card says.
proof fn lemma_found_is_said<F>(list: Seq<Card<F>>, name: Seq<char>)
    ensures
        value_under(fits_header::card_specs(list), name) matches Some(v) ==> fits_header::says(
            list,
            name,
            v,
        ),
{
    let s = fits_header::card_specs(list);
    if let Some(v) = value_under(s, name) {
        let i = lemma_found_at(s, name);
        fits_header::lemma_card_says(list, i);
    }
}

proof fn lemma_found_at<F>(cards: Seq<CardSpec<F>>, name: Seq<char>) -> (i: int)
    requires
        value_under(cards, name) is Some,
    ensures
        0 <= i < cards.len(),
        cards[i].name == name,
        value_under(cards, name) == Some(cards[i].value),
    decreases cards.len(),
{
    if cards[0].name == name {
        0
    } else {
        1 + lemma_found_at(cards.skip(1), name)
    }
}

/// Every keyword of a solve is on a card of its own, with the number or the
/// text that it stands for.
pub proof fn law_cards_say_each_keyword<F: Copy>(k: WcsKeys<F>, list: Vec<Card<F>>)
    requires
        call_ensures(WcsKeys::<F>::cards, (&k,), list),
    ensures
        list.len() == 16,
        fits_header::says(list@, "CRPIX1"@, ValueSpec::Real(k.crpix[0])),
        fits_header::says(list@, "CRPIX2"@, ValueSpec::Real(k.crpix[1])),
        fits_header::says(list@, "CRVAL1"@, ValueSpec::Real(k.crval_deg[0])),
        fits_header::says(list@, "CRVAL2"@, ValueSpec::Real(k.crval_deg[1])),
        fits_header::says(list@, "CD1_1"@, ValueSpec::Real(k.cd_deg[0][0])),
        fits_header::says(list@, "CD1_2"@, ValueSpec::Real(k.cd_deg[0][1])),
        fits_header::says(list@, "CD2_1"@, ValueSpec::Real(k.cd_deg[1][0])),
        fits_header::says(list@, "CD2_2"@, ValueSpec::Real(k.cd_deg[1][1])),
        fits_header::says(list@, "WCSAXES"@, ValueSpec::Integer(2)),
        fits_header::says(list@, "CTYPE1"@, ValueSpec::Text("RA---TAN"@)),
        fits_header::says(list@, "CTYPE2"@, ValueSpec::Text("DEC--TAN"@)),
        fits_header::says(list@, "CUNIT1"@, ValueSpec::Text("deg"@)),
        fits_header::says(list@, "CUNIT2"@, ValueSpec::Text("deg"@)),
        fits_header::says(list@, "RADESYS"@, ValueSpec::Text("ICRS"@)),
        fits_header::says(list@, "EQUINOX"@, ValueSpec::Whole(2000)),
        fits_header::says(list@, "PLTSOLVD"@, ValueSpec::Logical(true)),
{
    lemma_wcs_cards_read_back(k);
    assert(fits_header::card_specs(list@).len() == list.len());
    lemma_found_is_said(list@, "CRPIX1"@);
    lemma_found_is_said(list@, "CRPIX2"@);
    lemma_found_is_said(list@, "CRVAL1"@);
    lemma_found_is_said(list@, "CRVAL2"@);
    lemma_found_is_said(list@, "CD1_1"@);
    lemma_found_is_said(list@, "CD1_2"@);
    lemma_found_is_said(list@, "CD2_1"@);
    lemma_found_is_said(list@, "CD2_2"@);
    lemma_found_is_said(list@, "WCSAXES"@);
    lemma_found_is_said(list@, "CTYPE1"@);
    lemma_found_is_said(list@, "CTYPE2"@);
    lemma_found_is_said(list@, "CUNIT1"@);
    lemma_found_is_said(list@, "CUNIT2"@);
    lemma_found_is_said(list@, "RADESYS"@);
    lemma_found_is_said(list@, "EQUINOX"@);
    lemma_found_is_said(list@, "PLTSOLVD"@);
}

} // verus!
