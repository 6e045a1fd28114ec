use vstd::prelude::*;

verus! {

/// A runtime version: one of the three known releases, or any other version
/// string kept verbatim.
#[derive(Clone, Debug, Eq, Hash)]
pub enum RuntimeVersion {
    V2,
    V3,
    V4,
    Unknown(String),
}

/// The mathematical value of a `RuntimeVersion`.
pub enum VersionView {
    V2,
    V3,
    V4,
    Unknown(Seq<char>),
}

impl View for RuntimeVersion {
    type V = VersionView;

    open spec fn view(&self) -> VersionView {
        match self {
            RuntimeVersion::V2 => VersionView::V2,
            RuntimeVersion::V3 => VersionView::V3,
            RuntimeVersion::V4 => VersionView::V4,
            RuntimeVersion::Unknown(s) => VersionView::Unknown(s@),
        }
    }
}

/// The version string of the 2.0 runtime.
pub open spec fn v2_text() -> Seq<char> {
    "v2.0.50727"@
}

/// The version string of the 3.0 runtime.
pub open spec fn v3_text() -> Seq<char> {
    "v3.0"@
}

/// The version string of the 4.0 runtime.
pub open spec fn v4_text() -> Seq<char> {
    "v4.0.30319"@
}

/// Whether `s` is one of the three known version strings.
pub open spec fn is_known_text(s: Seq<char>) -> bool {
    s == v2_text() || s == v3_text() || s == v4_text()
}

/// The version that the string `s` denotes.
pub open spec fn parse_version(s: Seq<char>) -> VersionView {
    if s == v2_text() {
        VersionView::V2
    } else if s == v3_text() {
        VersionView::V3
    } else if s == v4_text() {
        VersionView::V4
    } else {
        VersionView::Unknown(s)
    }
}

/// The string that the version `v` stands for.
pub open spec fn version_text(v: VersionView) -> Seq<char> {
    match v {
        VersionView::V2 => v2_text(),
        VersionView::V3 => v3_text(),
        VersionView::V4 => v4_text(),
        VersionView::Unknown(s) => s,
    }
}

/// The three known version strings are pairwise distinct.
pub proof fn lemma_known_texts_distinct()
    ensures
        v2_text() != v3_text(),
        v2_text() != v4_text(),
        v3_text() != v4_text(),
{
    reveal_strlit("v2.0.50727");
    reveal_strlit("v3.0");
    reveal_strlit("v4.0.30319");
    assert(v2_text().len() != v3_text().len());
    assert(v3_text().len() != v4_text().len());
    assert(v2_text()[1] != v4_text()[1]);
}

/// Each known version and its version string convert into each other.
pub proof fn lemma_known_round_trip()
    ensures
        version_text(VersionView::V2) == v2_text(),
        version_text(VersionView::V3) == v3_text(),
        version_text(VersionView::V4) == v4_text(),
        parse_version(v2_text()) == VersionView::V2,
        parse_version(v3_text()) == VersionView::V3,
        parse_version(v4_text()) == VersionView::V4,
{
    lemma_known_texts_distinct();
}

/// A string that names no known version becomes the fallback variant holding
/// that very string, and converts back to it.
pub proof fn lemma_unknown_preserved(s: Seq<char>)
    requires
        !is_known_text(s),
    ensures
        parse_version(s) == VersionView::Unknown(s),
        version_text(parse_version(s)) == s,
{
}

/// Every string converts to a version and back to itself.
pub proof fn lemma_text_of_parse(s: Seq<char>)
    ensures
        version_text(parse_version(s)) == s,
{
}

/// Every version whose fallback string names no known version converts to its
/// string and back to itself.
pub proof fn lemma_parse_of_text(v: VersionView)
    requires
        v is Unknown ==> !is_known_text(version_text(v)),
    ensures
        parse_version(version_text(v)) == v,
{
    lemma_known_texts_distinct();
}

/// What `String::from_utf16_lossy` makes of the UTF-16 code units `units`.
pub uninterp spec fn utf16_lossy(units: Seq<u16>) -> Seq<char>;

/// Relies on `String::from_utf16_lossy`: the decoded string, which depends on
/// the code units alone; where no unit is a surrogate, each unit decodes to
/// the character of that code.
#[verifier::external_body]
fn decode_utf16_lossy(units: &[u16]) -> (r: String)
    ensures
        r@ == utf16_lossy(units@),
        (forall|i: int| 0 <= i < units@.len() ==> !(0xD800 <= #[trigger] units@[i] <= 0xDFFF))
            ==> r@.len() == units@.len() && forall|i: int|
            0 <= i < units@.len() ==> #[trigger] (r@[i] as u32) == units@[i] as u32,
{
    String::from_utf16_lossy(units)
}

/// Whether `n` is where the text in `units` ends: at its first NUL unit, or at
/// its end where it holds none.
pub open spec fn is_text_end(units: Seq<u16>, n: int) -> bool {
    &&& 0 <= n <= units.len()
    &&& n == units.len() || units[n] == 0
    &&& forall|j: int| 0 <= j < n ==> units[j] != 0
}

/// The length of the text in `units`, up to its first NUL unit.
pub open spec fn text_end(units: Seq<u16>) -> int {
    choose|n: int| is_text_end(units, n)
}

/// The code units of the text in `units`, without the NUL that ends it and
/// what follows.
pub open spec fn wide_text(units: Seq<u16>) -> Seq<u16> {
    units.take(text_end(units))
}

/// A text end is unique.
pub proof fn lemma_text_end_unique(units: Seq<u16>, n: int)
    requires
        is_text_end(units, n),
    ensures
        text_end(units) == n,
{
    let m = text_end(units);
    assert(is_text_end(units, m));
    if m < n {
        assert(units[m] != 0);
    } else if n < m {
        assert(units[n] != 0);
    }
}

/// The position of the first NUL unit in `units`, or its length where it
/// holds none.
pub fn find_text_end(units: &[u16]) -> (n: usize)
    ensures
        is_text_end(units@, n as int),
        n as int == text_end(units@),
{
    let mut i: usize = 0;
    while i < units.len() && units[i] != 0
        invariant
            0 <= i <= units@.len(),
            forall|j: int| 0 <= j < i ==> units@[j] != 0,
        decreases units@.len() - i,
    {
        i = i + 1;
    }
    proof {
        lemma_text_end_unique(units@, i as int);
    }
    i
}

/// The version named by a version string held in UTF-16 code units, as the
/// native version query hands it out: the text ends at the first NUL unit.
pub fn version_from_wide(units: &Vec<u16>) -> (r: RuntimeVersion)
    ensures
        r@ == parse_version(utf16_lossy(wide_text(units@))),
{
    let n = find_text_end(units.as_slice());
    let text = decode_utf16_lossy(&units.as_slice()[0..n]);
    RuntimeVersion::from_string(text)
}

/// The version of a runtime as the native version query reports it: the
/// UTF-16 version string where the query succeeded, otherwise the fallback
/// variant holding the empty string.
pub fn version_from_reply(reply: Option<Vec<u16>>) -> (r: RuntimeVersion)
    ensures
        r@ == match reply {
            Some(units) => parse_version(utf16_lossy(wide_text(units@))),
            None => VersionView::Unknown(Seq::empty()),
        },
{
    match reply {
        Some(units) => version_from_wide(&units),
        None => RuntimeVersion::Unknown(String::new()),
    }
}

impl RuntimeVersion {
    /// The version string of this version.
    pub fn to_string(&self) -> (r: String)
        ensures
            r@ == version_text(self@),
    {
        match self {
            RuntimeVersion::V2 => String::from_str("v2.0.50727"),
            RuntimeVersion::V3 => String::from_str("v3.0"),
            RuntimeVersion::V4 => String::from_str("v4.0.30319"),
            RuntimeVersion::Unknown(s) => s.clone(),
        }
    }

    /// The version that the string `s` denotes: a known version for its
    /// version string, otherwise the fallback variant holding `s` itself.
    pub open spec fn spec_from_string(s: String) -> RuntimeVersion {
        if s@ == v2_text() {
            RuntimeVersion::V2
        } else if s@ == v3_text() {
            RuntimeVersion::V3
        } else if s@ == v4_text() {
            RuntimeVersion::V4
        } else {
            RuntimeVersion::Unknown(s)
        }
    }

    /// The version that the string `s` denotes.
    pub fn from_string(s: String) -> (r: RuntimeVersion)
        ensures
            r == Self::spec_from_string(s),
            r@ == parse_version(s@),
    {
        if s == String::from_str("v2.0.50727") {
            RuntimeVersion::V2
        } else if s == String::from_str("v3.0") {
            RuntimeVersion::V3
        } else if s == String::from_str("v4.0.30319") {
            RuntimeVersion::V4
        } else {
            RuntimeVersion::Unknown(s)
        }
    }

    /// A copy of this version.
    pub fn duplicate(&self) -> (r: RuntimeVersion)
        ensures
            r == *self,
    {
        match self {
            RuntimeVersion::V2 => RuntimeVersion::V2,
            RuntimeVersion::V3 => RuntimeVersion::V3,
            RuntimeVersion::V4 => RuntimeVersion::V4,
            RuntimeVersion::Unknown(s) => RuntimeVersion::Unknown(s.clone()),
        }
    }

    /// Whether this is one of the three known versions.
    pub fn is_known(&self) -> (r: bool)
        ensures
            r == !(self@ is Unknown),
    {
        !matches!(self, RuntimeVersion::Unknown(_))
    }
}

impl PartialEq for RuntimeVersion {
    fn eq(&self, other: &RuntimeVersion) -> (r: bool) {
        match (self, other) {
            (RuntimeVersion::V2, RuntimeVersion::V2) => true,
            (RuntimeVersion::V3, RuntimeVersion::V3) => true,
            (RuntimeVersion::V4, RuntimeVersion::V4) => true,
            (RuntimeVersion::Unknown(a), RuntimeVersion::Unknown(b)) => *a == *b,
            _ => false,
        }
    }
}

impl vstd::std_specs::cmp::PartialEqSpecImpl for RuntimeVersion {
    open spec fn obeys_eq_spec() -> bool {
        true
    }

    open spec fn eq_spec(&self, other: &RuntimeVersion) -> bool {
        self@ == other@
    }
}

impl From<String> for RuntimeVersion {
    fn from(s: String) -> (r: RuntimeVersion) {
        RuntimeVersion::from_string(s)
    }
}

impl vstd::std_specs::convert::FromSpecImpl<String> for RuntimeVersion {
    open spec fn obeys_from_spec() -> bool {
        true
    }

    open spec fn from_spec(s: String) -> RuntimeVersion {
        RuntimeVersion::spec_from_string(s)
    }
}

} // verus!
