//! Source identity, descriptor parsing, and the backend registry.
//!
//! Everything about *selecting* a source lives here: the [`CameraSource`]
//! identity type, the `scheme:` descriptor grammar, and one [`Backend`] entry
//! per camera backend. Menus, the command line and refresh all go through
//! [`backends`], so adding a backend means adding one entry to it.

use crate::text;
use vstd::prelude::*;
use vstd::string::*;

verus! {

/// Identity of an input source. Every variant but `NoSource` has a stable string
/// form (the *descriptor*, e.g. `toupcam:<id>`, `file:<path>`) used as the
/// command-line format and as the picker's key: one scheme per backend.
#[derive(Clone, PartialEq, Eq, Debug)]
pub enum CameraSource {
    /// Nothing is selected.
    NoSource,
    FitsFile(String),
    SVBony(i32),
    Gev(String),
    /// ToupTek camera, identified by its opaque enumeration id.
    Toupcam(String),
    /// INDI/INDIGO server address ("host" or "host:port").
    Indi(String),
}

/// What a [`CameraSource`] identifies, as a mathematical value.
#[verifier::ext_equal]
pub enum SourceId {
    NoSource,
    FitsFile(Seq<char>),
    SVBony(int),
    Gev(Seq<char>),
    Toupcam(Seq<char>),
    Indi(Seq<char>),
}

impl View for CameraSource {
    type V = SourceId;

    open spec fn view(&self) -> SourceId {
        match self {
            CameraSource::NoSource => SourceId::NoSource,
            CameraSource::FitsFile(p) => SourceId::FitsFile(p@),
            CameraSource::SVBony(id) => SourceId::SVBony(*id as int),
            CameraSource::Gev(id) => SourceId::Gev(id@),
            CameraSource::Toupcam(id) => SourceId::Toupcam(id@),
            CameraSource::Indi(host) => SourceId::Indi(host@),
        }
    }
}

/// The descriptor scheme of a source; `None` where it has none.
pub open spec fn scheme_of(id: SourceId) -> Option<Seq<char>> {
    match id {
        SourceId::NoSource => None,
        SourceId::FitsFile(_) => Some("file"@),
        SourceId::SVBony(_) => Some("svb"@),
        SourceId::Gev(_) => Some("gev"@),
        SourceId::Toupcam(_) => Some("toupcam"@),
        SourceId::Indi(_) => Some("indi"@),
    }
}

/// The part of a descriptor behind its scheme.
pub open spec fn address_of(id: SourceId) -> Seq<char> {
    match id {
        SourceId::NoSource => Seq::empty(),
        SourceId::FitsFile(p) => p,
        SourceId::SVBony(n) => text::decimal(n),
        SourceId::Gev(id) => id,
        SourceId::Toupcam(id) => id,
        SourceId::Indi(host) => host,
    }
}

/// The stable string form of a source: its scheme, a colon, its address.
pub open spec fn descriptor_of(id: SourceId) -> Option<Seq<char>> {
    match scheme_of(id) {
        Some(scheme) => Some(scheme + seq![':'] + address_of(id)),
        None => None,
    }
}

/// The view of an optional text.
pub open spec fn text_view(t: Option<&str>) -> Option<Seq<char>> {
    match t {
        Some(x) => Some(x@),
        None => None,
    }
}

/// The view of an optional owned text.
pub open spec fn string_view(t: Option<String>) -> Option<Seq<char>> {
    match t {
        Some(x) => Some(x@),
        None => None,
    }
}

/// The view of the outcome of parsing a source.
pub open spec fn parsed_view(r: Result<CameraSource, String>) -> Result<SourceId, Seq<char>> {
    match r {
        Ok(s) => Ok(s@),
        Err(e) => Err(e@),
    }
}

// ---------------------------------------------------------------------------
// Addresses of the single backends

/// `s` without the `//` pairs that it begins with.
pub open spec fn without_slashes(s: Seq<char>) -> Seq<char>
    decreases s.len(),
{
    if s.len() >= 2 && s[0] == '/' && s[1] == '/' {
        without_slashes(s.skip(2))
    } else {
        s
    }
}

/// What the text behind `svb:` stands for.
pub open spec fn parsed_svb(id: Seq<char>) -> Result<SourceId, Seq<char>> {
    match text::parsed_int(id, i32::MIN as int, i32::MAX as int) {
        Some(n) => Ok(SourceId::SVBony(n)),
        None => Err("invalid SVBony camera id '"@ + id + "'"@),
    }
}

/// What the text behind `indi:` stands for.
pub open spec fn parsed_indi(host: Seq<char>) -> Result<SourceId, Seq<char>> {
    let host = without_slashes(host);
    if host.len() == 0 {
        Err("indi: needs a server address (indi:host[:port])"@)
    } else {
        Ok(SourceId::Indi(host))
    }
}

/// Reads an SVBony camera id.
pub fn parse_svb(id: &str) -> (r: Result<CameraSource, String>)
    ensures
        parsed_view(r) == parsed_svb(id@),
{
    match text::parse_i32(id) {
        Some(n) => Ok(CameraSource::SVBony(n)),
        None => Err(text::join3("invalid SVBony camera id '", id, "'")),
    }
}

/// Takes any text as a ToupTek enumeration id.
pub fn parse_toupcam(id: &str) -> (r: Result<CameraSource, String>)
    ensures
        parsed_view(r) == Ok::<SourceId, Seq<char>>(SourceId::Toupcam(id@)),
{
    Ok(CameraSource::Toupcam(id.to_string()))
}

/// Takes any text as a GigE Vision device id.
pub fn parse_gev(id: &str) -> (r: Result<CameraSource, String>)
    ensures
        parsed_view(r) == Ok::<SourceId, Seq<char>>(SourceId::Gev(id@)),
{
    Ok(CameraSource::Gev(id.to_string()))
}

/// Reads an INDI server address; the `//` of a URL may stand before it.
pub fn parse_indi(host: &str) -> (r: Result<CameraSource, String>)
    ensures
        parsed_view(r) == parsed_indi(host@),
{
    let v: Vec<char> = text::chars_of(host);
    let n: usize = v.len();
    let mut i: usize = 0;
    assert(host@.skip(0) =~= host@);
    while n - i >= 2 && v[i] == '/' && v[i + 1] == '/'
        invariant
            n == v.len(),
            v@ == host@,
            i <= n,
            without_slashes(host@.skip(i as int)) == without_slashes(host@),
        decreases n - i,
    {
        assert(host@.skip(i as int).skip(2) =~= host@.skip(i + 2));
        i = i + 2;
    }
    let rest: &str = host.substring_char(i, n);
    assert(rest@ =~= host@.skip(i as int));
    if rest.is_empty() {
        Err("indi: needs a server address (indi:host[:port])".to_string())
    } else {
        Ok(CameraSource::Indi(rest.to_string()))
    }
}

/// An IPv4 address in dotted decimal, no octet with a leading zero.
pub open spec fn ipv4_text(a: u8, b: u8, c: u8, d: u8) -> Seq<char> {
    text::decimal(a as int) + seq!['.'] + (text::decimal(b as int) + seq!['.'] + (text::decimal(c as int) + seq!['.']
        + text::decimal(d as int)))
}

/// Does `s` write an IPv4 address in dotted decimal?
pub open spec fn is_ipv4(s: Seq<char>) -> bool {
    exists|a: u8, b: u8, c: u8, d: u8| s == #[trigger] ipv4_text(a, b, c, d)
}

/// What a typed GigE camera address stands for.
pub open spec fn manual_gev_spec(s: Seq<char>) -> Result<SourceId, Seq<char>> {
    let s = text::trimmed(s);
    if is_ipv4(s) {
        Ok(SourceId::Gev(s))
    } else {
        Err("Invalid IP: '"@ + s + "'"@)
    }
}

/// Reads one octet: plain decimal, no sign, no leading zero, at most 255.
fn parse_octet(s: &str) -> (r: Option<u8>)
    ensures
        match r {
            Some(v) => s@ == text::decimal(v as int),
            None => forall|v: u8| s@ != #[trigger] text::decimal(v as int),
        },
{
    let n = text::parse_u16(s);
    proof {
        assert forall|v: u8| s@ == #[trigger] text::decimal(v as int) implies text::parsed_int(
            s@,
            0,
            u16::MAX as int,
        ) == Some(v as int) by {
            text::lemma_parse_decimal(v as int, 0, u16::MAX as int);
        }
    }
    match n {
        Some(v) => {
            if v <= 255 {
                let canonical: String = text::int_text(v as i128);
                if text::same_text(canonical.as_str(), s) {
                    let octet: u8 = v as u8;
                    assert(octet as int == v as int);
                    return Some(octet);
                }
                assert forall|w: u8| s@ != #[trigger] text::decimal(w as int) by {}
            }
            None
        },
        None => None,
    }
}

/// Text that begins with an octet and a dot splits there.
proof fn lemma_octet_dot(v: u8, rest: Seq<char>)
    ensures
        text::split_first(text::decimal(v as int) + seq!['.'] + rest, '.') == Some((text::decimal(v as int), rest)),
{
    let head = text::decimal(v as int);
    let s = head + seq!['.'] + rest;
    text::lemma_decimal_nat(v as nat);
    assert forall|k: int| 0 <= k < head.len() implies s[k] != '.' by {
        assert(text::is_digit(head[k]));
    }
    text::lemma_first_index(s, '.', head.len() as int);
    assert(s.take(head.len() as int) =~= head);
    assert(s.skip(head.len() as int + 1) =~= rest);
}

/// Reads an IPv4 address in dotted decimal.
pub fn parse_ipv4(s: &str) -> (r: Option<(u8, u8, u8, u8)>)
    ensures
        match r {
            Some((a, b, c, d)) => s@ == ipv4_text(a, b, c, d),
            None => !is_ipv4(s@),
        },
{
    proof {
        assert forall|a: u8, b: u8, c: u8, d: u8| s@ == #[trigger] ipv4_text(a, b, c, d) implies {
            let r2 = text::decimal(c as int) + seq!['.'] + text::decimal(d as int);
            let r1 = text::decimal(b as int) + seq!['.'] + r2;
            &&& text::split_first(s@, '.') == Some((text::decimal(a as int), r1))
            &&& text::split_first(r1, '.') == Some((text::decimal(b as int), r2))
            &&& text::split_first(r2, '.') == Some((text::decimal(c as int), text::decimal(d as int)))
        } by {
            let r2 = text::decimal(c as int) + seq!['.'] + text::decimal(d as int);
            let r1 = text::decimal(b as int) + seq!['.'] + r2;
            lemma_octet_dot(a, r1);
            lemma_octet_dot(b, r2);
            lemma_octet_dot(c, text::decimal(d as int));
        }
    }
    let (p0, r1) = match text::split_once(s, '.') {
        Some(p) => p,
        None => { return None; },
    };
    let (p1, r2) = match text::split_once(r1, '.') {
        Some(p) => p,
        None => { return None; },
    };
    let (p2, p3) = match text::split_once(r2, '.') {
        Some(p) => p,
        None => { return None; },
    };
    proof {
        lemma_split_first_joins(s@, '.');
        lemma_split_first_joins(r1@, '.');
        lemma_split_first_joins(r2@, '.');
    }
    match (parse_octet(p0), parse_octet(p1), parse_octet(p2), parse_octet(p3)) {
        (Some(a), Some(b), Some(c), Some(d)) => Some((a, b, c, d)),
        _ => None,
    }
}

/// The two parts around the first `c`, with `c` between them, make the text.
proof fn lemma_split_first_joins(s: Seq<char>, c: char)
    ensures
        match text::split_first(s, c) {
            Some((a, b)) => s == a + seq![c] + b,
            None => true,
        },
    decreases s.len(),
{
    lemma_first_index_holds(s, c);
    let i = text::first_index(s, c);
    if i < s.len() {
        assert(s =~= s.take(i) + seq![c] + s.skip(i + 1));
    }
}

proof fn lemma_first_index_holds(s: Seq<char>, c: char)
    ensures
        0 <= text::first_index(s, c) <= s.len(),
        text::first_index(s, c) < s.len() ==> s[text::first_index(s, c)] == c,
    decreases s.len(),
{
    if s.len() > 0 && s[0] != c {
        lemma_first_index_holds(s.skip(1), c);
    }
}

/// Turns a typed GigE camera address into a source.
pub fn manual_gev(s: &str) -> (r: Result<CameraSource, String>)
    ensures
        parsed_view(r) == manual_gev_spec(s@),
{
    let s = text::trim(s);
    match parse_ipv4(s) {
        Some(_) => Ok(CameraSource::Gev(s.to_string())),
        None => Err(text::join3("Invalid IP: '", s, "'")),
    }
}

// ---------------------------------------------------------------------------
// The backend registry

/// The camera backends.
#[derive(Clone, Copy, PartialEq, Eq, Structural, Debug)]
pub enum BackendKind {
    SVBony,
    Toupcam,
    Gev,
    Indi,
}

/// Inline address-entry row for backends whose devices are addressed rather
/// than (only) discovered: GigE by IP, INDI by host and port.
#[derive(Clone, Copy, PartialEq, Eq, Debug)]
pub struct ManualEntrySpec {
    /// Field label ("IP", "Server").
    pub label: &'static str,
    /// Placeholder shown in the empty field ("192.168.0.2").
    pub hint: &'static str,
    /// Initial field text at startup (may be empty).
    pub default: &'static str,
    /// The form of address that the field takes.
    pub form: AddressForm,
}

/// The forms of a typed address.
#[derive(Clone, Copy, PartialEq, Eq, Structural, Debug)]
pub enum AddressForm {
    /// An IPv4 address of a GigE Vision camera.
    Ipv4,
    /// Host and optional port of an INDI server.
    Server,
}

/// What a typed address stands for.
pub open spec fn made_source(form: AddressForm, s: Seq<char>) -> Result<SourceId, Seq<char>> {
    match form {
        AddressForm::Ipv4 => manual_gev_spec(s),
        AddressForm::Server => parsed_indi(s),
    }
}

impl ManualEntrySpec {
    /// Validates the typed address and turns it into a source identity.
    pub fn make_source(&self, s: &str) -> (r: Result<CameraSource, String>)
        ensures
            parsed_view(r) == made_source(self.form, s@),
    {
        match self.form {
            AddressForm::Ipv4 => manual_gev(s),
            AddressForm::Server => parse_indi(s),
        }
    }
}

/// A selectable backend: its descriptor scheme and how its devices are found.
#[derive(Clone, Copy, PartialEq, Eq, Debug)]
pub struct Backend {
    pub kind: BackendKind,
    /// Descriptor scheme, e.g. `"svb"` in `svb:0`.
    pub scheme: &'static str,
    /// Display name ("SVBony", "GigE Vision"): group header in the Connect
    /// dialog and the suffix on Source menu labels.
    pub name: &'static str,
    /// Whether devices can be enumerated; an address-only backend (INDI) is
    /// connected through a typed address instead.
    pub discovers: bool,
    /// Address-entry row shown in the Connect dialog, if this backend can be
    /// reached by a typed address.
    pub manual: Option<ManualEntrySpec>,
}

/// What the text behind a backend's scheme stands for.
pub open spec fn parsed_rest(kind: BackendKind, rest: Seq<char>) -> Result<SourceId, Seq<char>> {
    match kind {
        BackendKind::SVBony => parsed_svb(rest),
        BackendKind::Toupcam => Ok(SourceId::Toupcam(rest)),
        BackendKind::Gev => Ok(SourceId::Gev(rest)),
        BackendKind::Indi => parsed_indi(rest),
    }
}

impl Backend {
    /// Parses the part after `scheme:` into a source identity.
    pub fn parse(&self, rest: &str) -> (r: Result<CameraSource, String>)
        ensures
            parsed_view(r) == parsed_rest(self.kind, rest@),
    {
        match self.kind {
            BackendKind::SVBony => parse_svb(rest),
            BackendKind::Toupcam => parse_toupcam(rest),
            BackendKind::Gev => parse_gev(rest),
            BackendKind::Indi => parse_indi(rest),
        }
    }
}

/// The registry's entry for `kind`.
pub open spec fn entry_for(kind: BackendKind) -> Backend {
    match kind {
        BackendKind::SVBony => Backend {
            kind,
            scheme: "svb",
            name: "SVBony",
            discovers: true,
            manual: None,
        },
        BackendKind::Toupcam => Backend {
            kind,
            scheme: "toupcam",
            name: "ToupTek",
            discovers: true,
            manual: None,
        },
        BackendKind::Gev => Backend {
            kind,
            scheme: "gev",
            name: "GigE Vision",
            discovers: true,
            manual: Some(
                ManualEntrySpec {
                    label: "IP",
                    hint: "192.168.0.2",
                    default: "",
                    form: AddressForm::Ipv4,
                },
            ),
        },
        BackendKind::Indi => Backend {
            kind,
            scheme: "indi",
            name: "INDI",
            discovers: false,
            manual: Some(
                ManualEntrySpec {
                    label: "Server",
                    hint: "localhost:7624",
                    default: "localhost",
                    form: AddressForm::Server,
                },
            ),
        },
    }
}

/// The registry in its order.
pub open spec fn registry() -> Seq<Backend> {
    seq![
        entry_for(BackendKind::SVBony),
        entry_for(BackendKind::Toupcam),
        entry_for(BackendKind::Gev),
        entry_for(BackendKind::Indi),
    ]
}

/// Every backend, in the order in which menus and dialogs show them.
pub fn backends() -> (r: Vec<Backend>)
    ensures
        r@ == registry(),
{
    let mut v: Vec<Backend> = Vec::new();
    v.push(
        Backend {
            kind: BackendKind::SVBony,
            scheme: "svb",
            name: "SVBony",
            discovers: true,
            manual: None,
        },
    );
    v.push(
        Backend {
            kind: BackendKind::Toupcam,
            scheme: "toupcam",
            name: "ToupTek",
            discovers: true,
            manual: None,
        },
    );
    // Cameras reachable by unicast do not always answer broadcast discovery,
    // so a raw IP must also work.
    v.push(
        Backend {
            kind: BackendKind::Gev,
            scheme: "gev",
            name: "GigE Vision",
            discovers: true,
            manual: Some(
                ManualEntrySpec {
                    label: "IP",
                    hint: "192.168.0.2",
                    default: "",
                    form: AddressForm::Ipv4,
                },
            ),
        },
    );
    v.push(
        Backend {
            kind: BackendKind::Indi,
            scheme: "indi",
            name: "INDI",
            discovers: false,
            manual: Some(
                ManualEntrySpec {
                    label: "Server",
                    hint: "localhost:7624",
                    default: "localhost",
                    form: AddressForm::Server,
                },
            ),
        },
    );
    v
}

/// The first backend of `list` with the given scheme.
pub open spec fn backend_for(list: Seq<Backend>, scheme: Seq<char>) -> Option<Backend>
    decreases list.len(),
{
    if list.len() == 0 {
        None
    } else if list[0].scheme@ == scheme {
        Some(list[0])
    } else {
        backend_for(list.skip(1), scheme)
    }
}

/// What is found by a scheme has that scheme.
pub proof fn lemma_backend_for(list: Seq<Backend>, scheme: Seq<char>)
    ensures
        backend_for(list, scheme) matches Some(b) ==> b.scheme@ == scheme && list.contains(b),
    decreases list.len(),
{
    if list.len() > 0 {
        if list[0].scheme@ != scheme {
            lemma_backend_for(list.skip(1), scheme);
            if let Some(b) = backend_for(list.skip(1), scheme) {
                let k = choose|k: int| 0 <= k < list.skip(1).len() && list.skip(1)[k] == b;
                assert(list[k + 1] == b);
            }
        } else {
            assert(list[0] == list[0]);
        }
    }
}

/// The first backend of `list` with the given scheme.
pub fn find_backend(list: &Vec<Backend>, scheme: &str) -> (r: Option<Backend>)
    ensures
        r == backend_for(list@, scheme@),
{
    assert(list@.skip(0) =~= list@);
    let mut i: usize = 0;
    while i < list.len()
        invariant
            i <= list.len(),
            backend_for(list@.skip(i as int), scheme@) == backend_for(list@, scheme@),
        decreases list.len() - i,
    {
        let b: Backend = list[i];
        if text::same_text(b.scheme, scheme) {
            return Some(b);
        }
        assert(list@.skip(i as int).skip(1) =~= list@.skip(i + 1));
        i = i + 1;
    }
    None
}

/// The build feature and the short name that go with a known scheme, compiled
/// in or not, so that a descriptor for a missing backend says how to get it.
pub open spec fn known_scheme(scheme: Seq<char>) -> Option<(Seq<char>, Seq<char>)> {
    if scheme == "svb"@ {
        Some(("svbony"@, "SVBony"@))
    } else if scheme == "toupcam"@ {
        Some(("toupcam"@, "ToupTek"@))
    } else if scheme == "gev"@ {
        Some(("gev"@, "GigE"@))
    } else if scheme == "indi"@ {
        Some(("indi"@, "INDI"@))
    } else {
        None
    }
}

/// The build feature and the short name of a known scheme.
pub fn find_known_scheme(scheme: &str) -> (r: Option<(&'static str, &'static str)>)
    ensures
        text::pair_view(r) == known_scheme(scheme@),
{
    if text::same_text(scheme, "svb") {
        Some(("svbony", "SVBony"))
    } else if text::same_text(scheme, "toupcam") {
        Some(("toupcam", "ToupTek"))
    } else if text::same_text(scheme, "gev") {
        Some(("gev", "GigE"))
    } else if text::same_text(scheme, "indi") {
        Some(("indi", "INDI"))
    } else {
        None
    }
}

/// The schemes of `list`, each followed by `:/`, one after the other.
pub open spec fn scheme_hints(list: Seq<Backend>) -> Seq<char>
    decreases list.len(),
{
    if list.len() == 0 {
        Seq::empty()
    } else {
        scheme_hints(list.drop_last()) + list.last().scheme@ + ":/"@
    }
}

/// What a text without a known scheme stands for: a FITS file if a file of
/// that name exists, else nothing.
pub open spec fn parsed_bare(list: Seq<Backend>, t: Seq<char>, exists_on_disk: bool) -> Result<
    SourceId,
    Seq<char>,
> {
    if exists_on_disk {
        Ok(SourceId::FitsFile(t))
    } else {
        Err(
            "unrecognized source '"@ + t + "' (expected a FITS path or "@ + scheme_hints(list)
                + "file:)"@,
        )
    }
}

/// Is the trimmed text `t` one that only the file system can decide on: it has
/// neither the `file:` scheme nor a scheme of a backend or a known one?
pub open spec fn is_bare(list: Seq<Backend>, t: Seq<char>) -> bool {
    &&& !text::begins_with(t, "file:"@)
    &&& match text::split_first(t, ':') {
        Some((scheme, _)) => backend_for(list, scheme) is None && known_scheme(scheme) is None,
        None => true,
    }
}

/// What the descriptor `s` stands for where `list` is the backends at hand and
/// `exists_on_disk` says whether the trimmed text names an existing file.
pub open spec fn parsed_descriptor(
    list: Seq<Backend>,
    s: Seq<char>,
    exists_on_disk: bool,
) -> Result<SourceId, Seq<char>> {
    let t = text::trimmed(s);
    if text::begins_with(t, "file:"@) {
        Ok(SourceId::FitsFile(t.skip("file:"@.len() as int)))
    } else {
        match text::split_first(t, ':') {
            Some((scheme, rest)) => match backend_for(list, scheme) {
                Some(b) => parsed_rest(b.kind, rest),
                None => match known_scheme(scheme) {
                    Some((feature, name)) => Err(
                        "this build has no "@ + name + " support (rebuild with --features "@
                            + feature + ")"@,
                    ),
                    None => parsed_bare(list, t, exists_on_disk),
                },
            },
            None => parsed_bare(list, t, exists_on_disk),
        }
    }
}

/// Calls [`std::path::Path::exists`]. The answer depends on the file system, so
/// nothing is said of it.
#[verifier::external_body]
fn path_exists(s: &str) -> bool {
    std::path::Path::new(s).exists()
}

/// The schemes of `list`, each followed by `:/`.
fn scheme_list(list: &Vec<Backend>) -> (r: String)
    ensures
        r@ == scheme_hints(list@),
{
    let mut r: String = String::new();
    for i in 0..list.len()
        invariant
            r@ == scheme_hints(list@.take(i as int)),
    {
        assert(list@.take(i as int + 1).drop_last() =~= list@.take(i as int));
        r.append(list[i].scheme);
        r.append(":/");
    }
    assert(list@.take(list@.len() as int) =~= list@);
    r
}

/// Outcome of the part of descriptor parsing that needs no file system.
enum Scanned<'a> {
    Decided(Result<CameraSource, String>),
    Bare(&'a str),
}

/// Decides on a descriptor as far as its text alone allows.
fn scan_descriptor<'a>(list: &Vec<Backend>, s: &'a str) -> (r: Scanned<'a>)
    ensures
        match r {
            Scanned::Decided(x) => !is_bare(list@, text::trimmed(s@)) && (forall|e: bool|
                parsed_view(x) == #[trigger] parsed_descriptor(list@, s@, e)),
            Scanned::Bare(t) => t@ == text::trimmed(s@) && is_bare(list@, t@) && (forall|e: bool|
                #[trigger] parsed_descriptor(list@, s@, e) == parsed_bare(list@, t@, e)),
        },
{
    let t = text::trim(s);
    match text::strip_prefix(t, "file:") {
        Some(path) => { return Scanned::Decided(Ok(CameraSource::FitsFile(path.to_string()))); },
        None => {},
    }
    match text::split_once(t, ':') {
        Some((scheme, rest)) => {
            match find_backend(list, scheme) {
                Some(b) => { return Scanned::Decided(b.parse(rest)); },
                None => {},
            }
            match find_known_scheme(scheme) {
                Some((feature, name)) => {
                    return Scanned::Decided(
                        Err(
                            text::join5(
                                "this build has no ",
                                name,
                                " support (rebuild with --features ",
                                feature,
                                ")",
                            ),
                        ),
                    );
                },
                None => {},
            }
        },
        None => {},
    }
    Scanned::Bare(t)
}

/// What a bare text stands for.
fn finish_bare(list: &Vec<Backend>, t: &str, exists_on_disk: bool) -> (r: Result<
    CameraSource,
    String,
>)
    ensures
        parsed_view(r) == parsed_bare(list@, t@, exists_on_disk),
{
    if exists_on_disk {
        // A bare existing path means a FITS file (drag onto the app, "open with").
        return Ok(CameraSource::FitsFile(t.to_string()));
    }
    let schemes: String = scheme_list(list);
    Err(
        text::join5(
            "unrecognized source '",
            t,
            "' (expected a FITS path or ",
            schemes.as_str(),
            "file:)",
        ),
    )
}

/// Parses a descriptor against the backends at hand, where `exists_on_disk`
/// says whether the trimmed text is the path of an existing file.
pub fn parse_with(list: &Vec<Backend>, s: &str, exists_on_disk: bool) -> (r: Result<
    CameraSource,
    String,
>)
    ensures
        parsed_view(r) == parsed_descriptor(list@, s@, exists_on_disk),
{
    match scan_descriptor(list, s) {
        Scanned::Decided(x) => x,
        Scanned::Bare(t) => finish_bare(list, t, exists_on_disk),
    }
}

impl CameraSource {
    /// Descriptor scheme of this source ("file", "svb", ...); `None` for
    /// `Self::NoSource`. The key for looking up this source's [`Backend`].
    pub fn scheme(&self) -> (r: Option<&'static str>)
        ensures
            text_view(r) == scheme_of(self@),
    {
        match self {
            CameraSource::NoSource => None,
            CameraSource::FitsFile(_) => Some("file"),
            CameraSource::SVBony(_) => Some("svb"),
            CameraSource::Gev(_) => Some("gev"),
            CameraSource::Toupcam(_) => Some("toupcam"),
            CameraSource::Indi(_) => Some("indi"),
        }
    }

    /// The stable string form of this source; `None` for `Self::NoSource`.
    pub fn descriptor(&self) -> (r: Option<String>)
        ensures
            string_view(r) == descriptor_of(self@),
    {
        proof {
            reveal_strlit("file");
            reveal_strlit("file:");
            reveal_strlit("svb");
            reveal_strlit("svb:");
            reveal_strlit("gev");
            reveal_strlit("gev:");
            reveal_strlit("toupcam");
            reveal_strlit("toupcam:");
            reveal_strlit("indi");
            reveal_strlit("indi:");
            assert("file:"@ =~= "file"@ + seq![':']);
            assert("svb:"@ =~= "svb"@ + seq![':']);
            assert("gev:"@ =~= "gev"@ + seq![':']);
            assert("toupcam:"@ =~= "toupcam"@ + seq![':']);
            assert("indi:"@ =~= "indi"@ + seq![':']);
        }
        match self {
            CameraSource::NoSource => None,
            CameraSource::FitsFile(p) => Some(text::join2("file:", p.as_str())),
            CameraSource::SVBony(id) => {
                let n: String = text::int_text(*id as i128);
                Some(text::join2("svb:", n.as_str()))
            },
            CameraSource::Gev(id) => Some(text::join2("gev:", id.as_str())),
            CameraSource::Toupcam(id) => Some(text::join2("toupcam:", id.as_str())),
            CameraSource::Indi(host) => Some(text::join2("indi:", host.as_str())),
        }
    }

    /// Parses a descriptor or a bare FITS path. A bare path is one that the
    /// file system decides on: for every other text the result is fixed by
    /// the text alone.
    pub fn parse_descriptor(s: &str) -> (r: Result<CameraSource, String>)
        ensures
            parsed_view(r) == parsed_descriptor(registry(), s@, true) || parsed_view(r)
                == parsed_descriptor(registry(), s@, false),
    {
        let list: Vec<Backend> = backends();
        match scan_descriptor(&list, s) {
            Scanned::Decided(x) => {
                assert(parsed_view(x) == parsed_descriptor(registry(), s@, true));
                x
            },
            Scanned::Bare(t) => {
                let there: bool = path_exists(t);
                assert(parsed_descriptor(registry(), s@, there) == parsed_bare(
                    registry(),
                    t@,
                    there,
                ));
                finish_bare(&list, t, there)
            },
        }
    }

    /// Do the two values identify the same source?
    pub fn same(&self, other: &CameraSource) -> (r: bool)
        ensures
            r == (self@ == other@),
    {
        match (self, other) {
            (CameraSource::NoSource, CameraSource::NoSource) => true,
            (CameraSource::FitsFile(a), CameraSource::FitsFile(b)) => *a == *b,
            (CameraSource::SVBony(a), CameraSource::SVBony(b)) => *a == *b,
            (CameraSource::Gev(a), CameraSource::Gev(b)) => *a == *b,
            (CameraSource::Toupcam(a), CameraSource::Toupcam(b)) => *a == *b,
            (CameraSource::Indi(a), CameraSource::Indi(b)) => *a == *b,
            _ => false,
        }
    }

    /// A second value that identifies the same source.
    pub fn copy_of(&self) -> (r: CameraSource)
        ensures
            r@ == self@,
    {
        match self {
            CameraSource::NoSource => CameraSource::NoSource,
            CameraSource::FitsFile(p) => CameraSource::FitsFile(p.clone()),
            CameraSource::SVBony(id) => CameraSource::SVBony(*id),
            CameraSource::Gev(id) => CameraSource::Gev(id.clone()),
            CameraSource::Toupcam(id) => CameraSource::Toupcam(id.clone()),
            CameraSource::Indi(host) => CameraSource::Indi(host.clone()),
        }
    }
}

// ---------------------------------------------------------------------------
// Discovered devices

/// An enumerated SVBony camera.
#[derive(Clone, PartialEq, Eq, Debug)]
pub struct SvbonyDevice {
    pub camera_id: i32,
    pub name: String,
    pub serial: String,
}

/// An enumerated ToupTek camera.
#[derive(Clone, PartialEq, Eq, Debug)]
pub struct ToupcamDevice {
    pub id: String,
    pub display_name: String,
}

/// An enumerated or addressed GigE Vision camera.
#[derive(Clone, PartialEq, Eq, Debug)]
pub struct GevDevice {
    pub id: String,
    pub display_name: String,
    /// The camera's address in dotted decimal.
    pub ip: String,
}

/// What opening a discovered camera needs. FITS files and INDI servers never
/// appear here; they are addressed, not discovered.
#[derive(Clone, PartialEq, Eq, Debug)]
pub enum SourceInfo {
    SVBony(SvbonyDevice),
    Gev(GevDevice),
    Toupcam(ToupcamDevice),
}

/// The content of a [`SourceInfo`].
#[verifier::ext_equal]
pub enum DeviceId {
    SVBony { camera_id: int, name: Seq<char>, serial: Seq<char> },
    Gev { id: Seq<char>, display_name: Seq<char>, ip: Seq<char> },
    Toupcam { id: Seq<char>, display_name: Seq<char> },
}

impl View for SourceInfo {
    type V = DeviceId;

    open spec fn view(&self) -> DeviceId {
        match self {
            SourceInfo::SVBony(d) => DeviceId::SVBony {
                camera_id: d.camera_id as int,
                name: d.name@,
                serial: d.serial@,
            },
            SourceInfo::Gev(d) => DeviceId::Gev {
                id: d.id@,
                display_name: d.display_name@,
                ip: d.ip@,
            },
            SourceInfo::Toupcam(d) => DeviceId::Toupcam { id: d.id@, display_name: d.display_name@ },
        }
    }
}

impl SourceInfo {
    /// A second value with the same content.
    pub fn copy_of(&self) -> (r: SourceInfo)
        ensures
            r@ == self@,
    {
        match self {
            SourceInfo::SVBony(d) => SourceInfo::SVBony(
                SvbonyDevice {
                    camera_id: d.camera_id,
                    name: d.name.clone(),
                    serial: d.serial.clone(),
                },
            ),
            SourceInfo::Gev(d) => SourceInfo::Gev(
                GevDevice {
                    id: d.id.clone(),
                    display_name: d.display_name.clone(),
                    ip: d.ip.clone(),
                },
            ),
            SourceInfo::Toupcam(d) => SourceInfo::Toupcam(
                ToupcamDevice { id: d.id.clone(), display_name: d.display_name.clone() },
            ),
        }
    }
}

/// One discovered, openable device: identity, display strings, and what
/// opening it needs.
#[derive(Clone, PartialEq, Eq, Debug)]
pub struct DiscoveredSource {
    pub source: CameraSource,
    /// Device display name ("SVBONY SV305", "Daheng MER2-160-75GM", ...).
    pub name: String,
    /// Secondary detail shown in parentheses (serial, IP); may be empty.
    pub detail: String,
    /// Backend display name ("SVBony", "GigE Vision"), the menu label suffix.
    /// Stamped from the registry entry by [`Backend::discover_devices`] so it
    /// can never drift from the group header it is filtered by.
    pub backend: &'static str,
    pub info: SourceInfo,
}

/// The content of a [`DiscoveredSource`].
#[verifier::ext_equal]
pub struct DiscoveredId {
    pub source: SourceId,
    pub name: Seq<char>,
    pub detail: Seq<char>,
    pub backend: Seq<char>,
    pub info: DeviceId,
}

impl View for DiscoveredSource {
    type V = DiscoveredId;

    open spec fn view(&self) -> DiscoveredId {
        DiscoveredId {
            source: self.source@,
            name: self.name@,
            detail: self.detail@,
            backend: self.backend@,
            info: self.info@,
        }
    }
}

/// The contents of a row of discovered devices.
pub open spec fn rows(v: Seq<DiscoveredSource>) -> Seq<DiscoveredId> {
    v.map_values(|d: DiscoveredSource| d@)
}

/// `"<name> (<detail>)"`, or the name alone where there is no detail.
pub open spec fn title_of(d: DiscoveredId) -> Seq<char> {
    if d.detail.len() == 0 {
        d.name
    } else {
        d.name + " ("@ + d.detail + ")"@
    }
}

/// `"<name> (<detail>) \u{2014} <backend>"`.
pub open spec fn label_of(d: DiscoveredId) -> Seq<char> {
    title_of(d) + " \u{2014} "@ + d.backend
}

impl DiscoveredSource {
    /// The row text inside a backend's dialog group.
    pub fn title(&self) -> (r: String)
        ensures
            r@ == title_of(self@),
    {
        if self.detail.as_str().is_empty() {
            self.name.clone()
        } else {
            text::join4(self.name.as_str(), " (", self.detail.as_str(), ")")
        }
    }

    /// The row text in the Source menu.
    pub fn label(&self) -> (r: String)
        ensures
            r@ == label_of(self@),
    {
        let t: String = self.title();
        text::join3(t.as_str(), " \u{2014} ", self.backend)
    }
}

/// The row that stands for an enumerated device, not yet stamped.
pub open spec fn row_for(info: DeviceId) -> DiscoveredId {
    match info {
        DeviceId::SVBony { camera_id, name, serial } => DiscoveredId {
            source: SourceId::SVBony(camera_id),
            name,
            detail: serial,
            backend: ""@,
            info,
        },
        DeviceId::Gev { id, display_name, ip } => DiscoveredId {
            source: SourceId::Gev(id),
            name: display_name,
            detail: ip,
            backend: ""@,
            info,
        },
        DeviceId::Toupcam { id, display_name } => DiscoveredId {
            source: SourceId::Toupcam(id),
            name: display_name,
            detail: Seq::empty(),
            backend: ""@,
            info,
        },
    }
}

/// Turns an enumerated device into an unstamped row.
pub fn discovered_row(info: &SourceInfo) -> (r: DiscoveredSource)
    ensures
        r@ == row_for(info@),
{
    let (source, name, detail) = match info {
        SourceInfo::SVBony(d) => (
            CameraSource::SVBony(d.camera_id),
            d.name.clone(),
            d.serial.clone(),
        ),
        SourceInfo::Gev(d) => (
            CameraSource::Gev(d.id.clone()),
            d.display_name.clone(),
            d.ip.clone(),
        ),
        SourceInfo::Toupcam(d) => (
            CameraSource::Toupcam(d.id.clone()),
            d.display_name.clone(),
            String::new(),
        ),
    };
    DiscoveredSource { source, name, detail, backend: "", info: info.copy_of() }
}

/// The rows for enumerated devices, stamped with a backend's name.
pub open spec fn stamped(found: Seq<SourceInfo>, name: Seq<char>) -> Seq<DiscoveredId> {
    found.map_values(|i: SourceInfo| DiscoveredId { backend: name, ..row_for(i@) })
}

impl Backend {
    /// The rows for this backend's enumerated devices (none for an
    /// address-only backend), each stamped with this entry's group label: the
    /// single owner of `DiscoveredSource::backend`.
    pub fn discover_devices(&self, found: &Vec<SourceInfo>) -> (r: Vec<DiscoveredSource>)
        ensures
            rows(r@) == (if self.discovers { stamped(found@, self.name@) } else { Seq::empty() }),
    {
        let mut v: Vec<DiscoveredSource> = Vec::new();
        if !self.discovers {
            assert(rows(v@) =~= Seq::<DiscoveredId>::empty());
            return v;
        }
        for i in 0..found.len()
            invariant
                rows(v@) =~= stamped(found@.take(i as int), self.name@),
        {
            let mut d: DiscoveredSource = discovered_row(&found[i]);
            d.backend = self.name;
            let ghost before = v@;
            v.push(d);
            assert(rows(v@) =~= rows(before).push(d@));
            assert(stamped(found@.take(i as int + 1), self.name@) =~= stamped(
                found@.take(i as int),
                self.name@,
            ).push(d@));
        }
        assert(found@.take(found@.len() as int) =~= found@);
        v
    }
}

/// The rows of every backend of `list`, in its order, where `found` holds
/// what each backend enumerated.
pub open spec fn all_rows(list: Seq<Backend>, found: Seq<Vec<SourceInfo>>) -> Seq<DiscoveredId>
    decreases list.len(),
{
    if list.len() == 0 || found.len() == 0 {
        Seq::empty()
    } else {
        (if list[0].discovers {
            stamped(found[0]@, list[0].name@)
        } else {
            Seq::empty()
        }) + all_rows(list.skip(1), found.skip(1))
    }
}

/// Merges what every backend enumerated: startup and the Source menu's Refresh
/// both go through here. `found` holds one list per entry of [`backends`].
pub fn discover_all(found: &Vec<Vec<SourceInfo>>) -> (r: Vec<DiscoveredSource>)
    ensures
        rows(r@) == all_rows(registry(), found@),
{
    let list: Vec<Backend> = backends();
    let mut v: Vec<DiscoveredSource> = Vec::new();
    let mut i: usize = 0;
    proof {
        assert(list@.skip(0) =~= list@);
        assert(found@.skip(0) =~= found@);
        assert(rows(v@) =~= Seq::<DiscoveredId>::empty());
        assert(rows(v@) + all_rows(list@, found@) =~= all_rows(list@, found@));
    }
    while i < list.len() && i < found.len()
        invariant
            i <= list.len(),
            i <= found.len(),
            list@ == registry(),
            rows(v@) + all_rows(list@.skip(i as int), found@.skip(i as int)) == all_rows(
                registry(),
                found@,
            ),
        decreases list.len() - i,
    {
        let mut more: Vec<DiscoveredSource> = list[i].discover_devices(&found[i]);
        proof {
            assert(list@.skip(i as int).skip(1) =~= list@.skip(i + 1));
            assert(found@.skip(i as int).skip(1) =~= found@.skip(i + 1));
            let tail = all_rows(list@.skip(i + 1), found@.skip(i + 1));
            assert(rows(v@ + more@) =~= rows(v@) + rows(more@));
            assert(rows(v@) + (rows(more@) + tail) =~= (rows(v@) + rows(more@)) + tail);
        }
        v.append(&mut more);
        i = i + 1;
    }
    assert(rows(v@) + Seq::<DiscoveredId>::empty() =~= rows(v@));
    v
}

impl DiscoveredSource {
    /// A second value with the same content.
    pub fn copy_of(&self) -> (r: DiscoveredSource)
        ensures
            r@ == self@,
    {
        DiscoveredSource {
            source: self.source.copy_of(),
            name: self.name.clone(),
            detail: self.detail.clone(),
            backend: self.backend,
            info: self.info.copy_of(),
        }
    }
}

/// The position of the backend named `name` in `list`; its length where there
/// is none.
pub open spec fn rank_in(list: Seq<Backend>, name: Seq<char>) -> int
    decreases list.len(),
{
    if list.len() == 0 {
        0
    } else if list[0].name@ == name {
        0
    } else {
        1 + rank_in(list.skip(1), name)
    }
}

/// The position of the backend named `name` in `list`.
fn rank(list: &Vec<Backend>, name: &str) -> (r: usize)
    ensures
        r as int == rank_in(list@, name@),
{
    assert(list@.skip(0) =~= list@);
    let mut i: usize = 0;
    while i < list.len()
        invariant
            i <= list.len(),
            i + rank_in(list@.skip(i as int), name@) == rank_in(list@, name@),
        decreases list.len() - i,
    {
        if text::same_text(list[i].name, name) {
            return i;
        }
        assert(list@.skip(i as int).skip(1) =~= list@.skip(i + 1));
        i = i + 1;
    }
    i
}

/// Does the row belong to a backend before the `k`th of the registry?
pub open spec fn before_rank(k: int) -> spec_fn(DiscoveredId) -> bool {
    |d: DiscoveredId| rank_in(registry(), d.backend) < k
}

/// Does the row belong to a backend after the `k`th of the registry?
pub open spec fn after_rank(k: int) -> spec_fn(DiscoveredId) -> bool {
    |d: DiscoveredId| rank_in(registry(), d.backend) > k
}

/// `old` with the rows of the backend named `name` replaced by `fresh`, in
/// the place that the registry's order gives that backend.
pub open spec fn spliced(
    old_rows: Seq<DiscoveredId>,
    name: Seq<char>,
    fresh: Seq<DiscoveredId>,
) -> Seq<DiscoveredId> {
    let k = rank_in(registry(), name);
    old_rows.filter(before_rank(k)) + fresh + old_rows.filter(after_rank(k))
}

/// Which rows [`select_rows`] picks.
#[derive(Clone, Copy, PartialEq, Eq, Structural)]
enum Side {
    Before,
    After,
}

spec fn side_pick(side: Side, k: int) -> spec_fn(DiscoveredId) -> bool {
    match side {
        Side::Before => before_rank(k),
        Side::After => after_rank(k),
    }
}

fn select_rows(v: &Vec<DiscoveredSource>, side: Side, k: usize) -> (r: Vec<DiscoveredSource>)
    ensures
        rows(r@) == rows(v@).filter(side_pick(side, k as int)),
{
    let list: Vec<Backend> = backends();
    let mut out: Vec<DiscoveredSource> = Vec::new();
    let ghost pick = side_pick(side, k as int);
    proof {
        reveal(Seq::filter);
        assert(rows(v@).take(0) =~= Seq::<DiscoveredId>::empty());
        assert(rows(out@) =~= Seq::<DiscoveredId>::empty());
    }
    for i in 0..v.len()
        invariant
            list@ == registry(),
            pick == side_pick(side, k as int),
            rows(out@) == rows(v@).take(i as int).filter(pick),
    {
        let at: usize = rank(&list, v[i].backend);
        let take: bool = match side {
            Side::Before => at < k,
            Side::After => at > k,
        };
        proof {
            reveal(Seq::filter);
            assert(rows(v@).take(i as int + 1).drop_last() =~= rows(v@).take(i as int));
            assert(rows(v@).take(i as int + 1).last() == v@[i as int]@);
            assert(take == pick(v@[i as int]@));
        }
        if take {
            let ghost before = out@;
            let d: DiscoveredSource = v[i].copy_of();
            out.push(d);
            assert(rows(out@) =~= rows(before).push(d@));
        }
    }
    assert(rows(v@).take(v@.len() as int) =~= rows(v@));
    out
}

/// Replaces one backend's rows by freshly enumerated ones, in place.
pub fn splice_rows(
    old_rows: &Vec<DiscoveredSource>,
    b: &Backend,
    found: &Vec<SourceInfo>,
) -> (r: Vec<DiscoveredSource>)
    ensures
        rows(r@) == spliced(
            rows(old_rows@),
            b.name@,
            if b.discovers { stamped(found@, b.name@) } else { Seq::empty() },
        ),
{
    let list: Vec<Backend> = backends();
    let k: usize = rank(&list, b.name);
    let mut out: Vec<DiscoveredSource> = select_rows(old_rows, Side::Before, k);
    let mut fresh: Vec<DiscoveredSource> = b.discover_devices(found);
    let mut behind: Vec<DiscoveredSource> = select_rows(old_rows, Side::After, k);
    proof {
        assert(rows(out@ + fresh@) =~= rows(out@) + rows(fresh@));
        assert(rows(out@ + fresh@ + behind@) =~= rows(out@) + rows(fresh@) + rows(behind@));
    }
    out.append(&mut fresh);
    out.append(&mut behind);
    out
}

/// Where the first row that identifies `id` stands; the number of rows where
/// there is none.
pub open spec fn row_index(v: Seq<DiscoveredId>, id: SourceId) -> int
    decreases v.len(),
{
    if v.len() == 0 {
        0
    } else if v[0].source == id {
        0
    } else {
        1 + row_index(v.skip(1), id)
    }
}

/// The first row that identifies `source`.
pub fn find_row(v: &Vec<DiscoveredSource>, source: &CameraSource) -> (r: Option<usize>)
    ensures
        match r {
            Some(i) => i < v.len() && i as int == row_index(rows(v@), source@) && v@[i as int]@.source
                == source@,
            None => row_index(rows(v@), source@) == v.len(),
        },
{
    assert(rows(v@).skip(0) =~= rows(v@));
    let mut i: usize = 0;
    while i < v.len()
        invariant
            i <= v.len(),
            i + row_index(rows(v@).skip(i as int), source@) == row_index(rows(v@), source@),
        decreases v.len() - i,
    {
        assert(rows(v@).skip(i as int)[0] == v@[i as int]@);
        if v[i].source.same(source) {
            return Some(i);
        }
        assert(rows(v@).skip(i as int).skip(1) =~= rows(v@).skip(i + 1));
        i = i + 1;
    }
    None
}

/// A row as the Source menu presents it: its source and its label.
pub open spec fn menu_row(d: DiscoveredId) -> (SourceId, Seq<char>) {
    (d.source, label_of(d))
}

/// Every discovered source with its menu label: the unified list that the
/// Source menu presents.
pub fn discovered_source_list(v: &Vec<DiscoveredSource>) -> (r: Vec<(CameraSource, String)>)
    ensures
        r.len() == v.len(),
        forall|i: int|
            0 <= i < v.len() ==> (#[trigger] r@[i].0@, r@[i].1@) == menu_row(v@[i]@),
{
    let mut out: Vec<(CameraSource, String)> = Vec::new();
    for i in 0..v.len()
        invariant
            out.len() == i,
            forall|j: int| 0 <= j < i ==> (#[trigger] out@[j].0@, out@[j].1@) == menu_row(v@[j]@),
    {
        let source: CameraSource = v[i].source.copy_of();
        let label: String = v[i].label();
        out.push((source, label));
    }
    out
}

/// The label of a source, where `file_name` is the last component of a FITS
/// file's path: a device goes by its discovered name, or by its descriptor
/// once it is no longer visible.
pub open spec fn source_label_of(
    id: SourceId,
    discovered: Seq<DiscoveredId>,
    file_name: Seq<char>,
) -> Seq<char> {
    match id {
        SourceId::NoSource => "No source"@,
        SourceId::FitsFile(_) => "FITS: "@ + file_name,
        SourceId::Indi(host) => "INDI: "@ + host,
        _ => {
            let i = row_index(discovered, id);
            if i < discovered.len() {
                discovered[i].name
            } else {
                descriptor_of(id)->Some_0
            }
        },
    }
}

/// Human-readable label for a source whose file name is already known.
pub fn label_with_file_name(
    source: &CameraSource,
    discovered: &Vec<DiscoveredSource>,
    file_name: &str,
) -> (r: String)
    ensures
        r@ == source_label_of(source@, rows(discovered@), file_name@),
{
    match source {
        CameraSource::NoSource => "No source".to_string(),
        CameraSource::FitsFile(_) => text::join2("FITS: ", file_name),
        CameraSource::Indi(host) => text::join2("INDI: ", host.as_str()),
        _ => match find_row(discovered, source) {
            Some(i) => discovered[i].name.clone(),
            None => match source.descriptor() {
                Some(d) => d,
                None => String::new(),
            },
        },
    }
}

/// A path without the slashes and the `.` components at its end.
pub open spec fn without_tail(path: Seq<char>) -> Seq<char>
    decreases path.len(),
{
    if path.len() > 0 && path.last() == '/' {
        without_tail(path.drop_last())
    } else if path.len() > 1 && path.last() == '.' && path[path.len() - 2] == '/' {
        without_tail(path.drop_last())
    } else {
        path
    }
}

/// The last component of a path that reads the same on every platform, slashes
/// and `.` components at its end left aside: what stands behind its last `/`,
/// or all of it where there is none. A path with a backslash, one with a colon
/// before its first `/`, one that begins with two slashes, and one without a
/// last component or with the last component `.` or `..` does not.
pub open spec fn plain_name(path: Seq<char>) -> Option<Seq<char>> {
    let first = match text::split_first(path, '/') {
        Some((before, _)) => before,
        None => path,
    };
    let short = without_tail(path);
    let last = match text::split_last(short, '/') {
        Some((_, behind)) => behind,
        None => short,
    };
    if path.contains('\\') || first.contains(':') || text::begins_with(path, "//"@) || last.len()
        == 0 || last == "."@ || last == ".."@ {
        None
    } else {
        Some(last)
    }
}

/// Calls [`std::path::Path::file_name`] and
/// [`std::ffi::OsStr::to_string_lossy`]: the last component of the path, empty
/// where it has none. For a path that reads the same on every platform that is
/// what stands behind the last `/`, once slashes and `.` components at the end
/// are left aside. For any other nothing is said of the result: what separates
/// components, and which of them count, depends on the platform.
#[verifier::external_body]
fn file_name_of(path: &str) -> (r: String)
    ensures
        plain_name(path@) matches Some(n) ==> r@ == n,
{
    std::path::Path::new(path).file_name().unwrap_or_default().to_string_lossy().into_owned()
}

/// Human-readable label for the current image source. A FITS file goes by the
/// last component of its path.
pub fn source_label(source: &CameraSource, discovered: &Vec<DiscoveredSource>) -> (r: String)
    ensures
        exists|file_name: Seq<char>|
            r@ == #[trigger] source_label_of(source@, rows(discovered@), file_name) && (
            source@ matches SourceId::FitsFile(p) ==> (plain_name(p) matches Some(n) ==> file_name
                == n)),
{
    let file_name: String = match source {
        CameraSource::FitsFile(path) => file_name_of(path.as_str()),
        _ => String::new(),
    };
    label_with_file_name(source, discovered, file_name.as_str())
}

/// Host and port of an INDI address: the port is what stands behind the last
/// colon if that is a port number, else the default.
pub open spec fn host_port(addr: Seq<char>, default_port: int) -> (Seq<char>, int) {
    let t = text::trimmed(addr);
    match text::split_last(t, ':') {
        Some((h, p)) => match text::parsed_int(p, 0, u16::MAX as int) {
            Some(n) => (h, n),
            None => (t, default_port),
        },
        None => (t, default_port),
    }
}

/// Splits an INDI address into host and port.
pub fn split_host_port(addr: &str, default_port: u16) -> (r: (String, u16))
    ensures
        (r.0@, r.1 as int) == host_port(addr@, default_port as int),
{
    let t = text::trim(addr);
    match text::rsplit_once(t, ':') {
        Some((h, p)) => match text::parse_u16(p) {
            Some(n) => (h.to_string(), n),
            None => (t.to_string(), default_port),
        },
        None => (t.to_string(), default_port),
    }
}

// ---------------------------------------------------------------------------
// Laws

/// Reading a source's descriptor gives the source back, for every source
/// whose address does not end in white space, and for an INDI server whose
/// address is not empty and does not begin with `//`.
pub proof fn law_descriptor_round_trip(id: SourceId, exists_on_disk: bool)
    requires
        id !is NoSource,
        id matches SourceId::SVBony(n) ==> i32::MIN <= n <= i32::MAX,
        id matches SourceId::Indi(host) ==> host.len() > 0 && without_slashes(host) == host,
        address_of(id).len() > 0 ==> !text::is_white_space(address_of(id).last()),
    ensures
        parsed_descriptor(registry(), descriptor_of(id)->Some_0, exists_on_disk) == Ok::<
            SourceId,
            Seq<char>,
        >(id),
{
    reveal_strlit("file");
    reveal_strlit("svb");
    reveal_strlit("gev");
    reveal_strlit("toupcam");
    reveal_strlit("indi");
    reveal_strlit("file:");
    let scheme = scheme_of(id)->Some_0;
    let addr = address_of(id);
    let d = descriptor_of(id)->Some_0;
    text::lemma_trimmed_idle(d);
    text::lemma_first_index(d, ':', scheme.len() as int);
    assert(d.take(scheme.len() as int) =~= scheme);
    assert(d.skip(scheme.len() as int + 1) =~= addr);
    law_registry_schemes();
    if id is FitsFile {
        assert(d.take(5) =~= "file:"@);
        assert(d.skip(5) =~= addr);
    } else {
        assert(d.take(5)[0] != "file:"@[0] || d.len() < 5);
        if let SourceId::SVBony(n) = id {
            text::lemma_parse_decimal(n, i32::MIN as int, i32::MAX as int);
        }
    }
}

/// The schemes and the names of the registry are all different, `file` is
/// none of them, and looking one up finds its own entry.
pub proof fn law_registry_schemes()
    ensures
        forall|i: int, j: int|
            #![trigger registry()[i], registry()[j]]
            0 <= i < j < registry().len() ==> registry()[i].scheme@ != registry()[j].scheme@
                && registry()[i].name@ != registry()[j].name@,
        forall|i: int|
            0 <= i < registry().len() ==> (#[trigger] registry()[i]).scheme@ != "file"@
                && backend_for(registry(), registry()[i].scheme@) == Some(registry()[i])
                && known_scheme(registry()[i].scheme@) is Some,
        forall|k: BackendKind|
            backend_for(registry(), (#[trigger] entry_for(k)).scheme@) == Some(entry_for(k)),
{
    reveal_strlit("file");
    reveal_strlit("svb");
    reveal_strlit("gev");
    reveal_strlit("toupcam");
    reveal_strlit("indi");
    reveal_strlit("SVBony");
    reveal_strlit("ToupTek");
    reveal_strlit("GigE Vision");
    reveal_strlit("INDI");
    reveal_with_fuel(backend_for, 5);
    assert("svb"@[0] == 's' && "gev"@[0] == 'g');
    assert("file"@[0] == 'f' && "indi"@[0] == 'i');
    let r = registry();
    assert("SVBony"@.len() == 6 && "ToupTek"@.len() == 7 && "GigE Vision"@.len() == 11
        && "INDI"@.len() == 4);
    assert forall|i: int, j: int|
        #![trigger r[i], r[j]]
        0 <= i < j < r.len() implies r[i].scheme@ != r[j].scheme@ && r[i].name@ != r[j].name@ by {
        assert(i == 0 || i == 1 || i == 2);
        assert(j == 1 || j == 2 || j == 3);
    }
    assert(r.skip(1)[0] == r[1]);
    assert(r.skip(1).skip(1)[0] == r[2]);
    assert(r.skip(1).skip(1).skip(1)[0] == r[3]);
}

/// What is left of a text without its leading `//` pairs begins with none,
/// and ends as the text did.
proof fn lemma_without_slashes(s: Seq<char>)
    ensures
        without_slashes(without_slashes(s)) == without_slashes(s),
        without_slashes(s).len() <= s.len(),
        without_slashes(s).len() > 0 ==> without_slashes(s).last() == s.last(),
    decreases s.len(),
{
    if s.len() >= 2 && s[0] == '/' && s[1] == '/' {
        lemma_without_slashes(s.skip(2));
    }
}

/// Whatever text a source was read from, the source's own descriptor reads
/// back as that source: descriptors can be stored and used again.
pub proof fn law_parsed_source_is_stable(
    s: Seq<char>,
    exists_on_disk: bool,
    exists_later: bool,
    id: SourceId,
)
    requires
        parsed_descriptor(registry(), s, exists_on_disk) == Ok::<SourceId, Seq<char>>(id),
    ensures
        id !is NoSource,
        parsed_descriptor(registry(), descriptor_of(id)->Some_0, exists_later) == Ok::<
            SourceId,
            Seq<char>,
        >(id),
{
    reveal_strlit("file:");
    let t = text::trimmed(s);
    text::lemma_trimmed_ends(s);
    lemma_first_index_holds(t, ':');
    let i = text::first_index(t, ':');
    if let SourceId::SVBony(n) = id {
        text::lemma_decimal_nat(if n < 0 { (-n) as nat } else { n as nat });
        assert(text::is_digit(text::decimal(n).last())) by {
            let d = text::decimal_nat(if n < 0 { (-n) as nat } else { n as nat });
            assert(text::is_digit(d[d.len() - 1]));
            assert(text::decimal(n).last() == d.last());
        }
    }
    if let SourceId::Indi(_) = id {
        lemma_without_slashes(t.skip(i + 1));
    }
    law_descriptor_round_trip(id, exists_later);
}

/// A descriptor with the scheme of a backend that is not at hand is refused
/// with a message that names the cameras it is for and the build feature to
/// add.
pub proof fn law_missing_backend_names_feature(
    list: Seq<Backend>,
    scheme: Seq<char>,
    rest: Seq<char>,
    exists_on_disk: bool,
)
    requires
        known_scheme(scheme) is Some,
        backend_for(list, scheme) is None,
    ensures
        parsed_descriptor(list, scheme + seq![':'] + rest, exists_on_disk) is Err,
        text::has_substring(
            parsed_descriptor(list, scheme + seq![':'] + rest, exists_on_disk)->Err_0,
            known_scheme(scheme)->Some_0.0,
        ),
        text::has_substring(
            parsed_descriptor(list, scheme + seq![':'] + rest, exists_on_disk)->Err_0,
            known_scheme(scheme)->Some_0.1,
        ),
{
    reveal_strlit("svb");
    reveal_strlit("gev");
    reveal_strlit("toupcam");
    reveal_strlit("indi");
    reveal_strlit("file:");
    let p = scheme + seq![':'];
    text::lemma_trimmed_behind(p, rest);
    let d = p + text::trimmed_end(rest);
    text::lemma_first_index(d, ':', scheme.len() as int);
    assert(d.take(scheme.len() as int) =~= scheme);
    assert(d.take(5)[0] != "file:"@[0] || d.len() < 5);
    let (feature, name) = known_scheme(scheme)->Some_0;
    let head = "this build has no "@ + name + " support (rebuild with --features "@;
    let msg = head + feature + ")"@;
    assert(msg.subrange(head.len() as int, head.len() as int + feature.len() as int) =~= feature);
    assert(text::stands_at(msg, feature, head.len() as int));
    let start = "this build has no "@;
    assert(msg.subrange(start.len() as int, start.len() as int + name.len() as int) =~= name);
    assert(text::stands_at(msg, name, start.len() as int));
}

/// Do the rows stand in the registry's order?
pub open spec fn in_registry_order(v: Seq<DiscoveredId>) -> bool {
    forall|i: int, j: int|
        #![trigger v[i], v[j]]
        0 <= i < j < v.len() ==> rank_in(registry(), v[i].backend) <= rank_in(
            registry(),
            v[j].backend,
        )
}

proof fn lemma_filter_keeps_order(v: Seq<DiscoveredId>, pick: spec_fn(DiscoveredId) -> bool)
    requires
        in_registry_order(v),
    ensures
        in_registry_order(v.filter(pick)),
        forall|i: int| 0 <= i < v.filter(pick).len() ==> pick(#[trigger] v.filter(pick)[i]),
        forall|i: int|
            0 <= i < v.filter(pick).len() ==> v.contains(#[trigger] v.filter(pick)[i]),
    decreases v.len(),
{
    reveal(Seq::filter);
    if v.len() > 0 {
        let w = v.drop_last();
        lemma_filter_keeps_order(w, pick);
        assert forall|i: int| 0 <= i < v.filter(pick).len() implies v.contains(
            #[trigger] v.filter(pick)[i],
        ) by {
            if i < w.filter(pick).len() {
                assert(w.contains(w.filter(pick)[i]));
                let k = choose|k: int| 0 <= k < w.len() && w[k] == w.filter(pick)[i];
                assert(v[k] == w[k]);
            } else {
                assert(v[v.len() - 1] == v.last());
            }
        }
        assert forall|i: int, j: int|
            #![trigger v.filter(pick)[i], v.filter(pick)[j]]
            0 <= i < j < v.filter(pick).len() implies rank_in(
            registry(),
            v.filter(pick)[i].backend,
        ) <= rank_in(registry(), v.filter(pick)[j].backend) by {
            if j < w.filter(pick).len() {
                assert(w.filter(pick)[i] == v.filter(pick)[i]);
                assert(w.filter(pick)[j] == v.filter(pick)[j]);
            } else {
                assert(w.contains(w.filter(pick)[i]));
                let k = choose|k: int| 0 <= k < w.len() && w[k] == w.filter(pick)[i];
                assert(v[k] == w[k]);
                assert(v.filter(pick)[j] == v[v.len() - 1]);
            }
        }
    }
}

/// Refreshing one backend keeps the rows in the registry's order.
pub proof fn law_splice_keeps_order(
    old_rows: Seq<DiscoveredId>,
    name: Seq<char>,
    fresh: Seq<DiscoveredId>,
)
    requires
        in_registry_order(old_rows),
        forall|i: int| 0 <= i < fresh.len() ==> (#[trigger] fresh[i]).backend == name,
    ensures
        in_registry_order(spliced(old_rows, name, fresh)),
{
    let k = rank_in(registry(), name);
    lemma_filter_keeps_order(old_rows, before_rank(k));
    lemma_filter_keeps_order(old_rows, after_rank(k));
}

proof fn lemma_filter_twice(
    v: Seq<DiscoveredId>,
    first: spec_fn(DiscoveredId) -> bool,
    then_by: spec_fn(DiscoveredId) -> bool,
)
    ensures
        (forall|d: DiscoveredId| #[trigger] then_by(d) ==> first(d)) ==> v.filter(first).filter(
            then_by,
        ) == v.filter(then_by),
        (forall|d: DiscoveredId| #[trigger] then_by(d) ==> !first(d)) ==> v.filter(first).filter(
            then_by,
        ) == Seq::<DiscoveredId>::empty(),
    decreases v.len(),
{
    reveal(Seq::filter);
    if v.len() > 0 {
        let w = v.drop_last();
        lemma_filter_twice(w, first, then_by);
        assert(v.filter(first).drop_last() =~= w.filter(first) || !first(v.last()));
    }
}

/// The rows of one backend.
pub open spec fn rows_of(v: Seq<DiscoveredId>, name: Seq<char>) -> Seq<DiscoveredId> {
    v.filter(|d: DiscoveredId| d.backend == name)
}

/// Refreshing one backend replaces its rows by the fresh ones and leaves every
/// other backend's rows as they were.
pub proof fn law_splice_replaces_one_backend(
    old_rows: Seq<DiscoveredId>,
    name: Seq<char>,
    fresh: Seq<DiscoveredId>,
    other: Seq<char>,
)
    requires
        forall|i: int| 0 <= i < fresh.len() ==> (#[trigger] fresh[i]).backend == name,
        rank_in(registry(), other) != rank_in(registry(), name),
    ensures
        rows_of(spliced(old_rows, name, fresh), other) == rows_of(old_rows, other),
        rows_of(spliced(old_rows, name, fresh), name) == fresh,
{
    let k = rank_in(registry(), name);
    let a = old_rows.filter(before_rank(k));
    let b = old_rows.filter(after_rank(k));
    let is_other = |d: DiscoveredId| d.backend == other;
    let is_own = |d: DiscoveredId| d.backend == name;
    Seq::filter_distributes_over_add(a + fresh, b, is_other);
    Seq::filter_distributes_over_add(a, fresh, is_other);
    Seq::filter_distributes_over_add(a + fresh, b, is_own);
    Seq::filter_distributes_over_add(a, fresh, is_own);
    lemma_filter_twice(old_rows, before_rank(k), is_other);
    lemma_filter_twice(old_rows, after_rank(k), is_other);
    lemma_filter_twice(old_rows, before_rank(k), is_own);
    lemma_filter_twice(old_rows, after_rank(k), is_own);
    lemma_filter_all(fresh, is_own);
    fresh.lemma_all_neg_filter_empty(is_other);
    assert(a.filter(is_own) =~= Seq::<DiscoveredId>::empty());
    assert(b.filter(is_own) =~= Seq::<DiscoveredId>::empty());
    assert(fresh.filter(is_other) =~= Seq::<DiscoveredId>::empty());
}

proof fn lemma_filter_all(v: Seq<DiscoveredId>, pick: spec_fn(DiscoveredId) -> bool)
    requires
        forall|i: int| 0 <= i < v.len() ==> pick(#[trigger] v[i]),
    ensures
        v.filter(pick) == v,
    decreases v.len(),
{
    reveal(Seq::filter);
    if v.len() > 0 {
        lemma_filter_all(v.drop_last(), pick);
        assert(v.drop_last().push(v.last()) =~= v);
    }
}

/// A backend of the registry ranks where it stands there.
proof fn lemma_registry_ranks(i: int)
    requires
        0 <= i < registry().len(),
    ensures
        rank_in(registry(), registry()[i].name@) == i,
{
    law_registry_schemes();
    reveal_with_fuel(rank_in, 5);
    let r = registry();
    assert(r.skip(1)[0] == r[1]);
    assert(r.skip(1).skip(1)[0] == r[2]);
    assert(r.skip(1).skip(1).skip(1)[0] == r[3]);
}

/// The rows of the backends from the `k`th on belong to those backends, in
/// their order.
proof fn lemma_rows_ranked(k: int, found: Seq<Vec<SourceInfo>>)
    requires
        0 <= k <= registry().len(),
    ensures
        in_registry_order(all_rows(registry().skip(k), found)),
        forall|i: int|
            0 <= i < all_rows(registry().skip(k), found).len() ==> k <= rank_in(
                registry(),
                (#[trigger] all_rows(registry().skip(k), found)[i]).backend,
            ) < registry().len(),
    decreases registry().len() - k,
{
    let list = registry().skip(k);
    if list.len() > 0 && found.len() > 0 {
        lemma_rows_ranked(k + 1, found.skip(1));
        lemma_registry_ranks(k);
        assert(list.skip(1) =~= registry().skip(k + 1));
        assert(list[0] == registry()[k]);
        let head = if list[0].discovers {
            stamped(found[0]@, list[0].name@)
        } else {
            Seq::empty()
        };
        let tail = all_rows(registry().skip(k + 1), found.skip(1));
        let all = all_rows(list, found);
        assert(all == head + tail);
        assert forall|i: int| 0 <= i < all.len() implies k <= rank_in(
            registry(),
            (#[trigger] all[i]).backend,
        ) < registry().len() by {
            if i < head.len() {
                assert(all[i] == head[i]);
            } else {
                assert(all[i] == tail[i - head.len()]);
            }
        }
        assert forall|i: int, j: int|
            #![trigger all[i], all[j]]
            0 <= i < j < all.len() implies rank_in(registry(), all[i].backend) <= rank_in(
            registry(),
            all[j].backend,
        ) by {
            if j < head.len() {
                assert(all[i] == head[i] && all[j] == head[j]);
            } else if i < head.len() {
                assert(all[i] == head[i] && all[j] == tail[j - head.len()]);
            } else {
                assert(all[i] == tail[i - head.len()] && all[j] == tail[j - head.len()]);
            }
        }
    }
}

/// Whatever the backends enumerate, the discovered rows stand in the
/// registry's order, and each belongs to a backend of the registry: every
/// device has a group in the Connect window.
pub proof fn law_discovered_in_registry_order(found: Seq<Vec<SourceInfo>>)
    ensures
        in_registry_order(all_rows(registry(), found)),
        forall|i: int|
            0 <= i < all_rows(registry(), found).len() ==> 0 <= rank_in(
                registry(),
                (#[trigger] all_rows(registry(), found)[i]).backend,
            ) < registry().len(),
{
    lemma_rows_ranked(0, found);
    assert(registry().skip(0) =~= registry());
}

/// The row that is looked up identifies the source, no row before it does, and
/// where none is found there is none.
pub proof fn lemma_row_index(v: Seq<DiscoveredId>, id: SourceId)
    ensures
        0 <= row_index(v, id) <= v.len(),
        row_index(v, id) < v.len() ==> v[row_index(v, id)].source == id,
        forall|j: int| 0 <= j < row_index(v, id) ==> (#[trigger] v[j]).source != id,
    decreases v.len(),
{
    if v.len() > 0 && v[0].source != id {
        let rest = v.skip(1);
        lemma_row_index(rest, id);
        assert forall|j: int| 0 <= j < row_index(v, id) implies (#[trigger] v[j]).source != id by {
            if j > 0 {
                assert(v[j] == rest[j - 1]);
            }
        }
    }
}

/// Do the two values name the same source: the same file, the same camera, the
/// same server?
pub open spec fn names_same(a: CameraSource, b: CameraSource) -> bool {
    match (a, b) {
        (CameraSource::NoSource, CameraSource::NoSource) => true,
        (CameraSource::FitsFile(p), CameraSource::FitsFile(q)) => p@ == q@,
        (CameraSource::SVBony(m), CameraSource::SVBony(n)) => m == n,
        (CameraSource::Gev(p), CameraSource::Gev(q)) => p@ == q@,
        (CameraSource::Toupcam(p), CameraSource::Toupcam(q)) => p@ == q@,
        (CameraSource::Indi(p), CameraSource::Indi(q)) => p@ == q@,
        _ => false,
    }
}

/// Is `source` the camera that the device is?
pub open spec fn is_source_of(source: CameraSource, device: SourceInfo) -> bool {
    match device {
        SourceInfo::SVBony(d) => source matches CameraSource::SVBony(n) && n == d.camera_id,
        SourceInfo::Gev(d) => source matches CameraSource::Gev(id) && id@ == d.id@,
        SourceInfo::Toupcam(d) => source matches CameraSource::Toupcam(id) && id@ == d.id@,
    }
}

/// Do the two values describe the same device, in every field?
pub open spec fn same_device(a: SourceInfo, b: SourceInfo) -> bool {
    match (a, b) {
        (SourceInfo::SVBony(x), SourceInfo::SVBony(y)) => x.camera_id == y.camera_id && x.name@
            == y.name@ && x.serial@ == y.serial@,
        (SourceInfo::Gev(x), SourceInfo::Gev(y)) => x.id@ == y.id@ && x.display_name@
            == y.display_name@ && x.ip@ == y.ip@,
        (SourceInfo::Toupcam(x), SourceInfo::Toupcam(y)) => x.id@ == y.id@ && x.display_name@
            == y.display_name@,
        _ => false,
    }
}

/// Two sources are told apart by what they name, and a copy names what the
/// source does.
pub proof fn law_sources_are_told_apart(
    a: CameraSource,
    b: CameraSource,
    same: bool,
    copy: CameraSource,
)
    requires
        call_ensures(CameraSource::same, (&a, &b), same),
        call_ensures(CameraSource::copy_of, (&a,), copy),
    ensures
        same == names_same(a, b),
        names_same(a, copy),
{
}

/// A copy of a device or of a row holds everything that it holds.
pub proof fn law_copies_are_whole(
    device: SourceInfo,
    row: DiscoveredSource,
    device_copy: SourceInfo,
    row_copy: DiscoveredSource,
)
    requires
        call_ensures(SourceInfo::copy_of, (&device,), device_copy),
        call_ensures(DiscoveredSource::copy_of, (&row,), row_copy),
    ensures
        same_device(device, device_copy),
        same_device(row.info, row_copy.info),
        names_same(row.source, row_copy.source),
        row.name@ == row_copy.name@,
        row.detail@ == row_copy.detail@,
        row.backend@ == row_copy.backend@,
{
}

/// Looking a source up gives the first row that names it, and fails only where
/// no row does.
pub proof fn law_first_row_is_found(
    v: Vec<DiscoveredSource>,
    source: CameraSource,
    r: Option<usize>,
)
    requires
        call_ensures(find_row, (&v, &source), r),
    ensures
        match r {
            Some(i) => i < v.len() && names_same(v@[i as int].source, source) && (forall|j: int|
                #![trigger v@[j]]
                0 <= j < i ==> !names_same(v@[j].source, source)),
            None => forall|j: int|
                #![trigger v@[j]]
                0 <= j < v.len() ==> !names_same(v@[j].source, source),
        },
{
    lemma_row_index(rows(v@), source@);
    assert forall|j: int|
        #![trigger v@[j]]
        0 <= j < row_index(rows(v@), source@) implies !names_same(v@[j].source, source) by {
        assert(rows(v@)[j] == v@[j]@);
    }
}

/// A device becomes a row that names it: its source is the device's own, its
/// name is the one the device goes by, and the detail is the serial number or
/// the address.
pub proof fn law_row_stands_for_its_device(device: SourceInfo, r: DiscoveredSource)
    requires
        call_ensures(discovered_row, (&device,), r),
    ensures
        is_source_of(r.source, device),
        same_device(r.info, device),
        match device {
            SourceInfo::SVBony(d) => r.name@ == d.name@ && r.detail@ == d.serial@,
            SourceInfo::Gev(d) => r.name@ == d.display_name@ && r.detail@ == d.ip@,
            SourceInfo::Toupcam(d) => r.name@ == d.display_name@ && r.detail@.len() == 0,
        },
{
}

/// A backend that enumerates gives one row per device, in their order, each
/// under the backend's own name. One that does not gives none.
pub proof fn law_devices_become_rows(
    b: Backend,
    found: Vec<SourceInfo>,
    r: Vec<DiscoveredSource>,
    i: int,
)
    requires
        call_ensures(Backend::discover_devices, (&b, &found), r),
    ensures
        r.len() == (if b.discovers { found.len() } else { 0 }),
        0 <= i < r.len() ==> r@[i].backend@ == b.name@ && is_source_of(r@[i].source, found@[i])
            && same_device(r@[i].info, found@[i]) && match found@[i] {
            SourceInfo::SVBony(d) => r@[i].name@ == d.name@ && r@[i].detail@ == d.serial@,
            SourceInfo::Gev(d) => r@[i].name@ == d.display_name@ && r@[i].detail@ == d.ip@,
            SourceInfo::Toupcam(d) => r@[i].name@ == d.display_name@ && r@[i].detail@.len() == 0,
        },
{
    assert(rows(r@).len() == r.len());
    if 0 <= i < r.len() {
        assert(rows(r@)[i] == r@[i]@);
    }
}

/// Startup and Refresh list every device that the three enumerating backends
/// found, SVBony first, then ToupTek, then GigE Vision, and nothing else.
pub proof fn law_every_device_is_listed(
    found: Vec<Vec<SourceInfo>>,
    r: Vec<DiscoveredSource>,
    i: int,
)
    requires
        found.len() == 4,
        call_ensures(discover_all, (&found,), r),
    ensures
        r.len() == found@[0].len() + found@[1].len() + found@[2].len(),
        0 <= i < found@[0].len() ==> r@[i].backend@ == "SVBony"@ && same_device(
            r@[i].info,
            found@[0]@[i],
        ) && is_source_of(r@[i].source, found@[0]@[i]),
        0 <= i < found@[1].len() ==> ({
            let row = r@[found@[0].len() + i];
            row.backend@ == "ToupTek"@ && same_device(row.info, found@[1]@[i]) && is_source_of(
                row.source,
                found@[1]@[i],
            )
        }),
        0 <= i < found@[2].len() ==> ({
            let row = r@[found@[0].len() + found@[1].len() + i];
            row.backend@ == "GigE Vision"@ && same_device(row.info, found@[2]@[i])
                && is_source_of(row.source, found@[2]@[i])
        }),
{
    let list = registry();
    let f = found@;
    assert(list.skip(1)[0] == list[1]);
    assert(list.skip(1).skip(1)[0] == list[2]);
    assert(list.skip(1).skip(1).skip(1)[0] == list[3]);
    assert(f.skip(1)[0] == f[1]);
    assert(f.skip(1).skip(1)[0] == f[2]);
    assert(f.skip(1).skip(1).skip(1)[0] == f[3]);
    reveal_with_fuel(all_rows, 5);
    let a = stamped(f[0]@, "SVBony"@);
    let b = stamped(f[1]@, "ToupTek"@);
    let c = stamped(f[2]@, "GigE Vision"@);
    assert(rows(r@) =~= a + (b + c));
    assert(rows(r@).len() == r.len());
    if 0 <= i < found@[0].len() {
        assert(rows(r@)[i] == r@[i]@);
        assert(rows(r@)[i] == a[i]);
    }
    if 0 <= i < found@[1].len() {
        assert(rows(r@)[a.len() + i] == r@[a.len() + i]@);
        assert(rows(r@)[a.len() + i] == b[i]);
    }
    if 0 <= i < found@[2].len() {
        assert(rows(r@)[a.len() + b.len() + i] == r@[a.len() + b.len() + i]@);
        assert(rows(r@)[a.len() + b.len() + i] == c[i]);
    }
}

/// A row reads as its name, with the detail in parentheses where there is one,
/// and in the Source menu the backend's name follows.
pub proof fn law_rows_are_labeled(d: DiscoveredSource, title: String, label: String)
    requires
        call_ensures(DiscoveredSource::title, (&d,), title),
        call_ensures(DiscoveredSource::label, (&d,), label),
    ensures
        d.detail@.len() == 0 ==> title@ == d.name@,
        d.detail@.len() > 0 ==> title@ == d.name@ + " ("@ + d.detail@ + ")"@,
        label@ == title@ + " \u{2014} "@ + d.backend@,
{
}

/// The Source menu shows every row, in order, with its source and its label.
pub proof fn law_menu_shows_every_row(
    v: Vec<DiscoveredSource>,
    r: Vec<(CameraSource, String)>,
    i: int,
    label: String,
)
    requires
        0 <= i < v.len(),
        call_ensures(discovered_source_list, (&v,), r),
        call_ensures(DiscoveredSource::label, (&v@[i],), label),
    ensures
        r.len() == v.len(),
        names_same(r@[i].0, v@[i].source),
        r@[i].1@ == label@,
{
    assert((r@[i].0@, r@[i].1@) == menu_row(v@[i]@));
}

/// The label of a source names it: a file by its name, a server by its
/// address, a camera by the name it was discovered under. One that is no longer
/// visible goes by its descriptor.
pub proof fn law_label_names_the_source(
    source: CameraSource,
    discovered: Vec<DiscoveredSource>,
    file_name: &str,
    r: String,
    i: Option<usize>,
    descriptor: Option<String>,
)
    requires
        call_ensures(label_with_file_name, (&source, &discovered, file_name), r),
        call_ensures(find_row, (&discovered, &source), i),
        call_ensures(CameraSource::descriptor, (&source,), descriptor),
    ensures
        match source {
            CameraSource::NoSource => r@ == "No source"@,
            CameraSource::FitsFile(_) => r@ == "FITS: "@ + file_name@,
            CameraSource::Indi(h) => r@ == "INDI: "@ + h@,
            _ => match i {
                Some(k) => r@ == discovered@[k as int].name@,
                None => descriptor matches Some(d) && r@ == d@,
            },
        },
{
    lemma_row_index(rows(discovered@), source@);
    if let Some(k) = i {
        assert(rows(discovered@)[k as int] == discovered@[k as int]@);
    }
}

/// Every source but none has a descriptor: its own scheme, a colon and what
/// identifies it.
pub proof fn law_descriptors_name_the_source(
    source: CameraSource,
    scheme: Option<&'static str>,
    r: Option<String>,
)
    requires
        call_ensures(CameraSource::scheme, (&source,), scheme),
        call_ensures(CameraSource::descriptor, (&source,), r),
    ensures
        match source {
            CameraSource::NoSource => scheme is None && r is None,
            CameraSource::FitsFile(p) => scheme is Some && r is Some && scheme->0@ == "file"@
                && r->0@ == "file"@ + seq![':'] + p@,
            CameraSource::SVBony(n) => scheme is Some && r is Some && scheme->0@ == "svb"@
                && r->0@ == "svb"@ + seq![':'] + text::decimal(n as int),
            CameraSource::Gev(id) => scheme is Some && r is Some && scheme->0@ == "gev"@
                && r->0@ == "gev"@ + seq![':'] + id@,
            CameraSource::Toupcam(id) => scheme is Some && r is Some && scheme->0@ == "toupcam"@
                && r->0@ == "toupcam"@ + seq![':'] + id@,
            CameraSource::Indi(h) => scheme is Some && r is Some && scheme->0@ == "indi"@
                && r->0@ == "indi"@ + seq![':'] + h@,
        },
{
}

/// The last character of a number is a digit.
proof fn lemma_decimal_last(n: int)
    ensures
        text::decimal(n).len() > 0,
        text::is_digit(text::decimal(n).last()),
        !text::is_white_space(text::decimal(n).last()),
{
    let m = if n < 0 {
        (-n) as nat
    } else {
        n as nat
    };
    text::lemma_decimal_nat(m);
    let d = text::decimal_nat(m);
    assert(text::is_digit(d[d.len() - 1]));
    assert(text::decimal(n).last() == d.last());
}

/// A descriptor that was written of a source is read as that source, whether
/// or not a file of that name exists. An address that ends in white space, and
/// one of a server that is empty or begins with `//`, are not kept.
pub proof fn law_written_descriptor_is_read_back(
    source: CameraSource,
    list: Vec<Backend>,
    d: Option<String>,
    t: &str,
    on_disk: bool,
    r: Result<CameraSource, String>,
)
    requires
        source !is NoSource,
        source matches CameraSource::Indi(h) ==> h@.len() > 0 && !(h@.len() >= 2 && h@[0] == '/'
            && h@[1] == '/') && !text::is_white_space(h@.last()),
        source matches CameraSource::FitsFile(p) ==> (p@.len() > 0 ==> !text::is_white_space(
            p@.last(),
        )),
        source matches CameraSource::Gev(p) ==> (p@.len() > 0 ==> !text::is_white_space(p@.last())),
        source matches CameraSource::Toupcam(p) ==> (p@.len() > 0 ==> !text::is_white_space(
            p@.last(),
        )),
        call_ensures(backends, (), list),
        call_ensures(CameraSource::descriptor, (&source,), d),
        d is Some ==> t@ == d->0@,
        call_ensures(parse_with, (&list, t, on_disk), r),
    ensures
        d is Some,
        r matches Ok(s) && names_same(s, source),
{
    if let CameraSource::SVBony(n) = source {
        lemma_decimal_last(n as int);
    }
    law_descriptor_round_trip(source@, on_disk);
}

/// The registry: SVBony and ToupTek cameras are enumerated, GigE Vision ones
/// are enumerated or addressed, and an INDI server is addressed only.
pub proof fn law_registry_holds_four_backends(r: Vec<Backend>)
    requires
        call_ensures(backends, (), r),
    ensures
        r.len() == 4,
        r@[0].scheme@ == "svb"@ && r@[0].name@ == "SVBony"@ && r@[0].kind == BackendKind::SVBony,
        r@[1].scheme@ == "toupcam"@ && r@[1].name@ == "ToupTek"@ && r@[1].kind
            == BackendKind::Toupcam,
        r@[2].scheme@ == "gev"@ && r@[2].name@ == "GigE Vision"@ && r@[2].kind == BackendKind::Gev,
        r@[3].scheme@ == "indi"@ && r@[3].name@ == "INDI"@ && r@[3].kind == BackendKind::Indi,
        r@[0].discovers && r@[1].discovers && r@[2].discovers && !r@[3].discovers,
        r@[0].manual is None && r@[1].manual is None,
        r@[2].manual matches Some(m) && m.label@ == "IP"@ && m.hint@ == "192.168.0.2"@
            && m.default@ == ""@ && m.form == AddressForm::Ipv4,
        r@[3].manual matches Some(m) && m.label@ == "Server"@ && m.hint@ == "localhost:7624"@
            && m.default@ == "localhost"@ && m.form == AddressForm::Server,
{
}

/// A backend is found by its scheme: the first one that has it, and none only
/// where none has it.
pub proof fn law_backend_is_found_by_scheme(
    list: Vec<Backend>,
    scheme: &str,
    r: Option<Backend>,
)
    requires
        call_ensures(find_backend, (&list, scheme), r),
    ensures
        match r {
            Some(b) => b.scheme@ == scheme@ && list@.contains(b),
            None => forall|i: int| 0 <= i < list.len() ==> (#[trigger] list@[i]).scheme@ != scheme@,
        },
{
    lemma_backend_for(list@, scheme@);
    if r is None {
        lemma_no_backend(list@, scheme@);
    }
}

proof fn lemma_no_backend(list: Seq<Backend>, scheme: Seq<char>)
    requires
        backend_for(list, scheme) is None,
    ensures
        forall|i: int| 0 <= i < list.len() ==> (#[trigger] list[i]).scheme@ != scheme,
    decreases list.len(),
{
    if list.len() > 0 {
        lemma_no_backend(list.skip(1), scheme);
        assert forall|i: int| 0 <= i < list.len() implies (#[trigger] list[i]).scheme@ != scheme by {
            if i > 0 {
                assert(list[i] == list.skip(1)[i - 1]);
            }
        }
    }
}

/// Each known scheme goes with the feature that its backend is built by and
/// with the cameras it is for.
pub proof fn law_known_schemes_name_their_feature(
    scheme: &str,
    r: Option<(&'static str, &'static str)>,
)
    requires
        call_ensures(find_known_scheme, (scheme,), r),
    ensures
        scheme@ == "svb"@ ==> (r matches Some(p) && p.0@ == "svbony"@ && p.1@ == "SVBony"@),
        scheme@ == "toupcam"@ ==> (r matches Some(p) && p.0@ == "toupcam"@ && p.1@ == "ToupTek"@),
        scheme@ == "gev"@ ==> (r matches Some(p) && p.0@ == "gev"@ && p.1@ == "GigE"@),
        scheme@ == "indi"@ ==> (r matches Some(p) && p.0@ == "indi"@ && p.1@ == "INDI"@),
        r is Some ==> scheme@ == "svb"@ || scheme@ == "toupcam"@ || scheme@ == "gev"@ || scheme@
            == "indi"@,
{
    reveal_strlit("svb");
    reveal_strlit("gev");
    reveal_strlit("toupcam");
    reveal_strlit("indi");
    assert("svb"@[0] == 's' && "gev"@[0] == 'g' && "toupcam"@[0] == 't' && "indi"@[0] == 'i');
}

/// The text behind a scheme is read in that backend's own way: a number for an
/// SVBony camera, any id for a ToupTek or a GigE Vision one, and a server
/// address for INDI.
pub proof fn law_addresses_are_read_by_their_backend(
    b: Backend,
    rest: &str,
    r: Result<CameraSource, String>,
)
    requires
        call_ensures(Backend::parse, (&b, rest), r),
    ensures
        b.kind == BackendKind::Toupcam ==> (r matches Ok(CameraSource::Toupcam(id)) && id@
            == rest@),
        b.kind == BackendKind::Gev ==> (r matches Ok(CameraSource::Gev(id)) && id@ == rest@),
        b.kind == BackendKind::SVBony ==> match r {
            Ok(s) => s matches CameraSource::SVBony(n) && text::parsed_int(
                rest@,
                -0x8000_0000,
                0x7fff_ffff,
            ) == Some(n as int),
            Err(e) => text::parsed_int(rest@, -0x8000_0000, 0x7fff_ffff) is None && e@
                == "invalid SVBony camera id '"@ + rest@ + "'"@,
        },
        b.kind == BackendKind::Indi ==> (r matches Ok(s) ==> (s matches CameraSource::Indi(h)
            && h@.len() > 0)),
        b.kind == BackendKind::Indi && rest@.len() > 0 && rest@[0] != '/' ==> (r matches Ok(
            CameraSource::Indi(h),
        ) && h@ == rest@),
        b.kind == BackendKind::Indi && rest@.len() == 0 ==> (r matches Err(e) && e@
            == "indi: needs a server address (indi:host[:port])"@),
{
}

/// The `//` of a URL before a server address makes no difference.
pub proof fn law_slashes_before_a_server_are_dropped(
    plain: &str,
    url: &str,
    a: Result<CameraSource, String>,
    b: Result<CameraSource, String>,
)
    requires
        url@ == seq!['/', '/'] + plain@,
        call_ensures(parse_indi, (plain,), a),
        call_ensures(parse_indi, (url,), b),
    ensures
        match (a, b) {
            (Ok(s), Ok(t)) => names_same(s, t),
            (Err(s), Err(t)) => s@ == t@,
            _ => false,
        },
{
    assert(url@.skip(2) =~= plain@);
}

/// Two different quadruples of octets are written differently.
proof fn lemma_ipv4_text_is_unique(a: u8, b: u8, c: u8, d: u8, e: u8, f: u8, g: u8, h: u8)
    requires
        ipv4_text(a, b, c, d) == ipv4_text(e, f, g, h),
    ensures
        a == e && b == f && c == g && d == h,
{
    let r2 = text::decimal(c as int) + seq!['.'] + text::decimal(d as int);
    let r1 = text::decimal(b as int) + seq!['.'] + r2;
    let s2 = text::decimal(g as int) + seq!['.'] + text::decimal(h as int);
    let s1 = text::decimal(f as int) + seq!['.'] + s2;
    lemma_octet_dot(a, r1);
    lemma_octet_dot(b, r2);
    lemma_octet_dot(c, text::decimal(d as int));
    lemma_octet_dot(e, s1);
    lemma_octet_dot(f, s2);
    lemma_octet_dot(g, text::decimal(h as int));
    text::lemma_parse_decimal(a as int, 0, 255);
    text::lemma_parse_decimal(b as int, 0, 255);
    text::lemma_parse_decimal(c as int, 0, 255);
    text::lemma_parse_decimal(d as int, 0, 255);
    text::lemma_parse_decimal(e as int, 0, 255);
    text::lemma_parse_decimal(f as int, 0, 255);
    text::lemma_parse_decimal(g as int, 0, 255);
    text::lemma_parse_decimal(h as int, 0, 255);
}

/// An address in dotted decimal is read as its four octets, in their order,
/// and nothing else is read as an address.
pub proof fn law_octets_are_read_in_order(
    s: &str,
    r: Option<(u8, u8, u8, u8)>,
    a: u8,
    b: u8,
    c: u8,
    d: u8,
)
    requires
        call_ensures(parse_ipv4, (s,), r),
    ensures
        r == Some((a, b, c, d)) <==> s@ == text::decimal(a as int) + seq!['.'] + (text::decimal(
            b as int,
        ) + seq!['.'] + (text::decimal(c as int) + seq!['.'] + text::decimal(d as int))),
{
    if s@ == ipv4_text(a, b, c, d) {
        if let Some((e, f, g, h)) = r {
            lemma_ipv4_text_is_unique(a, b, c, d, e, f, g, h);
        }
    }
}

/// A typed GigE address is taken where it is an address, without the white
/// space around it, and refused by name where it is not.
pub proof fn law_typed_gev_address(
    s: &str,
    t: &str,
    octets: Option<(u8, u8, u8, u8)>,
    r: Result<CameraSource, String>,
    m: ManualEntrySpec,
    made: Result<CameraSource, String>,
)
    requires
        t@ == text::trimmed(s@),
        m.form == AddressForm::Ipv4,
        call_ensures(parse_ipv4, (t,), octets),
        call_ensures(manual_gev, (s,), r),
        call_ensures(ManualEntrySpec::make_source, (&m, s), made),
    ensures
        octets is Some ==> (r matches Ok(CameraSource::Gev(id)) && id@ == t@),
        octets is None ==> (r matches Err(e) && e@ == "Invalid IP: '"@ + t@ + "'"@),
        match (r, made) {
            (Ok(x), Ok(y)) => names_same(x, y),
            (Err(x), Err(y)) => x@ == y@,
            _ => false,
        },
{
    if let Some((a, b, c, d)) = octets {
        assert(t@ == ipv4_text(a, b, c, d));
    }
}

/// A typed server address is read as the descriptor's is.
pub proof fn law_typed_server_address(
    s: &str,
    m: ManualEntrySpec,
    b: Backend,
    made: Result<CameraSource, String>,
    parsed: Result<CameraSource, String>,
)
    requires
        m.form == AddressForm::Server,
        b.kind == BackendKind::Indi,
        call_ensures(ManualEntrySpec::make_source, (&m, s), made),
        call_ensures(Backend::parse, (&b, s), parsed),
    ensures
        match (made, parsed) {
            (Ok(x), Ok(y)) => names_same(x, y),
            (Err(x), Err(y)) => x@ == y@,
            _ => false,
        },
{
}

/// A bare path is a FITS file where there is one of that name. Where there is
/// none it is refused, and the message repeats it.
pub proof fn law_bare_path_is_a_file(
    list: Vec<Backend>,
    s: &str,
    on_disk: bool,
    r: Result<CameraSource, String>,
)
    requires
        forall|i: int| 0 <= i < s@.len() ==> s@[i] != ':',
        call_ensures(parse_with, (&list, s, on_disk), r),
    ensures
        on_disk ==> (r matches Ok(CameraSource::FitsFile(p)) && p@ == text::trimmed(s@)),
        !on_disk ==> (r matches Err(e) && text::begins_with(
            e@,
            "unrecognized source '"@ + text::trimmed(s@),
        )),
{
    let t = text::trimmed(s@);
    lemma_trimmed_within(s@);
    text::lemma_first_index(t, ':', t.len() as int);
    reveal_strlit("file:");
    if text::begins_with(t, "file:"@) {
        assert(t[4] == t.take(5)[4]);
    }
    if let Err(e) = r {
        let head = "unrecognized source '"@ + t;
        assert(e@.take(head.len() as int) =~= head);
    }
}

/// Trimming adds no character.
proof fn lemma_trimmed_within(s: Seq<char>)
    ensures
        forall|i: int|
            0 <= i < text::trimmed(s).len() ==> s.contains(#[trigger] text::trimmed(s)[i]),
{
    lemma_trimmed_start_within(s);
    lemma_trimmed_end_within(text::trimmed_start(s));
    let m = text::trimmed_start(s);
    assert forall|i: int| 0 <= i < text::trimmed(s).len() implies s.contains(
        #[trigger] text::trimmed(s)[i],
    ) by {
        assert(m.contains(text::trimmed_end(m)[i]));
        let k = choose|k: int| 0 <= k < m.len() && m[k] == text::trimmed_end(m)[i];
        assert(s.contains(m[k]));
    }
}

proof fn lemma_trimmed_start_within(s: Seq<char>)
    ensures
        forall|i: int|
            0 <= i < text::trimmed_start(s).len() ==> s.contains(
                #[trigger] text::trimmed_start(s)[i],
            ),
    decreases s.len(),
{
    if s.len() > 0 && text::is_white_space(s[0]) {
        let w = s.skip(1);
        lemma_trimmed_start_within(w);
        assert forall|i: int| 0 <= i < text::trimmed_start(s).len() implies s.contains(
            #[trigger] text::trimmed_start(s)[i],
        ) by {
            assert(w.contains(text::trimmed_start(w)[i]));
            let k = choose|k: int| 0 <= k < w.len() && w[k] == text::trimmed_start(w)[i];
            assert(s[k + 1] == w[k]);
        }
    }
}

proof fn lemma_trimmed_end_within(s: Seq<char>)
    ensures
        forall|i: int|
            0 <= i < text::trimmed_end(s).len() ==> s.contains(#[trigger] text::trimmed_end(s)[i]),
    decreases s.len(),
{
    if s.len() > 0 && text::is_white_space(s.last()) {
        let w = s.drop_last();
        lemma_trimmed_end_within(w);
        assert forall|i: int| 0 <= i < text::trimmed_end(s).len() implies s.contains(
            #[trigger] text::trimmed_end(s)[i],
        ) by {
            assert(w.contains(text::trimmed_end(w)[i]));
            let k = choose|k: int| 0 <= k < w.len() && w[k] == text::trimmed_end(w)[i];
            assert(s[k] == w[k]);
        }
    }
}

/// A server address splits into host and port where a port number stands
/// behind its last colon. Without a colon the port is the default.
pub proof fn law_server_address_splits(
    addr: &str,
    default_port: u16,
    host: Seq<char>,
    port: u16,
    r: (String, u16),
)
    requires
        call_ensures(split_host_port, (addr, default_port), r),
        host.len() > 0,
        !text::is_white_space(host[0]),
        !text::is_white_space(host.last()),
    ensures
        addr@ == host + seq![':'] + text::decimal(port as int) ==> r.0@ == host && r.1 == port,
        addr@ == host && !host.contains(':') ==> r.0@ == host && r.1 == default_port,
{
    if addr@ == host + seq![':'] + text::decimal(port as int) {
        lemma_decimal_last(port as int);
        text::lemma_decimal_nat(port as nat);
        text::lemma_trimmed_idle(addr@);
        assert forall|k: int| host.len() < k < addr@.len() implies addr@[k] != ':' by {
            assert(text::is_digit(text::decimal_nat(port as nat)[k - host.len() - 1]));
        }
        text::lemma_last_index(addr@, ':', host.len() as int);
        assert(addr@.take(host.len() as int) =~= host);
        assert(addr@.skip(host.len() as int + 1) =~= text::decimal(port as int));
        text::lemma_parse_decimal(port as int, 0, u16::MAX as int);
    }
    if addr@ == host && !host.contains(':') {
        text::lemma_trimmed_idle(host);
        text::lemma_last_index(host, ':', -1);
    }
}

/// Refreshing one backend replaces its rows and no others: the other backends'
/// rows are there as before, and its own are the devices it found.
pub proof fn law_refresh_touches_one_backend(
    old_rows: Vec<DiscoveredSource>,
    list: Vec<Backend>,
    i: int,
    j: int,
    found: Vec<SourceInfo>,
    r: Vec<DiscoveredSource>,
)
    requires
        call_ensures(backends, (), list),
        0 <= i < 4,
        0 <= j < 4,
        i != j,
        call_ensures(splice_rows, (&old_rows, &list@[i], &found), r),
    ensures
        rows(r@).filter(|d: DiscoveredId| d.backend == list@[j].name@) == rows(
            old_rows@,
        ).filter(|d: DiscoveredId| d.backend == list@[j].name@),
        list@[i].discovers ==> rows(r@).filter(
            |d: DiscoveredId| d.backend == list@[i].name@,
        ).len() == found.len(),
        !list@[i].discovers ==> rows(r@).filter(
            |d: DiscoveredId| d.backend == list@[i].name@,
        ).len() == 0,
{
    lemma_registry_ranks(i);
    lemma_registry_ranks(j);
    let name = registry()[i].name@;
    let fresh = if registry()[i].discovers {
        stamped(found@, name)
    } else {
        Seq::empty()
    };
    assert forall|k: int| 0 <= k < fresh.len() implies (#[trigger] fresh[k]).backend == name by {}
    law_splice_replaces_one_backend(rows(old_rows@), name, fresh, registry()[j].name@);
}

/// The text of a descriptor decides, whatever is on the disk: a scheme of a
/// backend is read by that backend, and `file:` names a file.
pub proof fn law_descriptor_is_read_by_its_scheme(
    s: &str,
    list: Vec<Backend>,
    k: int,
    t: &str,
    rest: &str,
    r: Result<CameraSource, String>,
    own: Result<CameraSource, String>,
)
    requires
        call_ensures(backends, (), list),
        0 <= k < 4,
        t@ == text::trimmed(s@),
        t@ == list@[k].scheme@ + seq![':'] + rest@,
        call_ensures(CameraSource::parse_descriptor, (s,), r),
        call_ensures(Backend::parse, (&list@[k], rest), own),
    ensures
        match (r, own) {
            (Ok(x), Ok(y)) => names_same(x, y),
            (Err(x), Err(y)) => x@ == y@,
            _ => false,
        },
{
    law_registry_schemes();
    reveal_strlit("file");
    reveal_strlit("svb");
    reveal_strlit("gev");
    reveal_strlit("toupcam");
    reveal_strlit("indi");
    reveal_strlit("file:");
    let b = list@[k];
    assert(b == registry()[k]);
    let n = b.scheme@.len() as int;
    assert(b.scheme@ == "svb"@ || b.scheme@ == "toupcam"@ || b.scheme@ == "gev"@ || b.scheme@
        == "indi"@);
    text::lemma_first_index(t@, ':', n);
    assert(t@.take(n) =~= b.scheme@);
    assert(t@.skip(n + 1) =~= rest@);
    assert(t@.take(5)[0] != "file:"@[0] || t@.len() < 5);
    assert(!text::begins_with(t@, "file:"@));
}

/// A file that is named by `file:` is that file, and a bare path is a file or
/// is refused.
pub proof fn law_files_are_read_as_files(s: &str, r: Result<CameraSource, String>)
    requires
        call_ensures(CameraSource::parse_descriptor, (s,), r),
    ensures
        text::begins_with(text::trimmed(s@), "file:"@) ==> (r matches Ok(CameraSource::FitsFile(p))
            && p@ == text::trimmed(s@).skip(5)),
        !s@.contains(':') ==> match r {
            Ok(x) => x matches CameraSource::FitsFile(p) && p@ == text::trimmed(s@),
            Err(e) => text::begins_with(e@, "unrecognized source '"@ + text::trimmed(s@)),
        },
{
    reveal_strlit("file:");
    let t = text::trimmed(s@);
    lemma_trimmed_within(s@);
    if !s@.contains(':') {
        assert forall|k: int| 0 <= k < t.len() implies t[k] != ':' by {
            assert(s@.contains(t[k]));
        }
        text::lemma_first_index(t, ':', t.len() as int);
        if text::begins_with(t, "file:"@) {
            assert(t[4] == t.take(5)[4]);
        }
        if let Err(e) = r {
            let head = "unrecognized source '"@ + t;
            assert(e@.take(head.len() as int) =~= head);
        }
    }
}

/// The text behind a scheme is what identifies the camera.
pub proof fn law_ids_are_taken_whole(
    id: &str,
    n: i32,
    a: Result<CameraSource, String>,
    b: Result<CameraSource, String>,
    c: Result<CameraSource, String>,
)
    requires
        call_ensures(parse_svb, (id,), a),
        call_ensures(parse_toupcam, (id,), b),
        call_ensures(parse_gev, (id,), c),
    ensures
        id@ == text::decimal(n as int) ==> a == Ok::<CameraSource, String>(CameraSource::SVBony(n)),
        a matches Err(e) ==> e@ == "invalid SVBony camera id '"@ + id@ + "'"@,
        a matches Ok(x) ==> x is SVBony,
        b matches Ok(CameraSource::Toupcam(t)) && t@ == id@,
        c matches Ok(CameraSource::Gev(t)) && t@ == id@,
{
    text::lemma_parse_decimal(n as int, i32::MIN as int, i32::MAX as int);
}

/// A file goes by the last part of its path.
pub proof fn law_file_is_labeled_by_its_name(
    source: CameraSource,
    discovered: Vec<DiscoveredSource>,
    path: String,
    dir: Seq<char>,
    name: Seq<char>,
    r: String,
)
    requires
        source == CameraSource::FitsFile(path),
        call_ensures(source_label, (&source, &discovered), r),
        path@ == dir + seq!['/'] + name,
        plain_name(path@) == Some(name),
    ensures
        r@ == "FITS: "@ + name,
{
}

/// What is no file is labeled as it is with any file name.
pub proof fn law_other_sources_need_no_file_name(
    source: CameraSource,
    discovered: Vec<DiscoveredSource>,
    any: &str,
    r: String,
    t: String,
)
    requires
        source !is FitsFile,
        call_ensures(source_label, (&source, &discovered), r),
        call_ensures(label_with_file_name, (&source, &discovered, any), t),
    ensures
        r@ == t@,
{
}

/// A text that names nothing is refused with the schemes that would have been
/// taken, and one for a backend that is not at hand with the way to get it.
pub proof fn law_refusals_say_what_is_taken(
    s: &str,
    list: Vec<Backend>,
    r: Result<CameraSource, String>,
    fewer: Vec<Backend>,
    scheme: &str,
    rest: Seq<char>,
    known: Option<(&'static str, &'static str)>,
    on_disk: bool,
    q: Result<CameraSource, String>,
    t: &str,
)
    requires
        call_ensures(backends, (), list),
        !s@.contains(':'),
        call_ensures(parse_with, (&list, s, false), r),
        call_ensures(find_known_scheme, (scheme,), known),
        known is Some,
        forall|i: int| 0 <= i < fewer.len() ==> (#[trigger] fewer@[i]).scheme@ != scheme@,
        t@ == scheme@ + seq![':'] + rest,
        rest.len() > 0 ==> !text::is_white_space(rest.last()),
        call_ensures(parse_with, (&fewer, t, on_disk), q),
    ensures
        r matches Err(e) && e@ == "unrecognized source '"@ + text::trimmed(s@)
            + "' (expected a FITS path or "@ + ("svb"@ + ":/"@ + "toupcam"@ + ":/"@ + "gev"@ + ":/"@
            + "indi"@ + ":/"@) + "file:)"@,
        q matches Err(e) && e@ == "this build has no "@ + (known->0).1@
            + " support (rebuild with --features "@ + (known->0).0@ + ")"@,
{
    reveal_strlit("svb");
    reveal_strlit("gev");
    reveal_strlit("toupcam");
    reveal_strlit("indi");
    reveal_strlit("file:");
    let a = text::trimmed(s@);
    lemma_trimmed_within(s@);
    assert forall|k: int| 0 <= k < a.len() implies a[k] != ':' by {
        assert(s@.contains(a[k]));
    }
    text::lemma_first_index(a, ':', a.len() as int);
    if text::begins_with(a, "file:"@) {
        assert(a[4] == a.take(5)[4]);
    }
    let reg = registry();
    reveal_with_fuel(scheme_hints, 5);
    assert(reg.drop_last().last() == reg[2]);
    assert(reg.drop_last().drop_last().last() == reg[1]);
    assert(reg.drop_last().drop_last().drop_last().last() == reg[0]);
    assert(reg.drop_last().drop_last().drop_last().drop_last() =~= Seq::<Backend>::empty());
    assert(scheme_hints(reg) =~= "svb"@ + ":/"@ + "toupcam"@ + ":/"@ + "gev"@ + ":/"@ + "indi"@
        + ":/"@);
    let n = scheme@.len() as int;
    text::lemma_trimmed_idle(t@);
    text::lemma_first_index(t@, ':', n);
    assert(t@.take(n) =~= scheme@);
    assert(t@.take(5)[0] != "file:"@[0] || t@.len() < 5);
    lemma_backend_for(fewer@, scheme@);
}

} // verus!
