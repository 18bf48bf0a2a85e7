//! Semantic versions as plain values: three numbers, pre-release identifiers
//! and build metadata. The grammar is `semver`'s; precedence is decided here.
use crate::error::{AppInfoError, ErrorKind};
use vstd::prelude::*;
use vstd::std_specs::iter::IteratorSpec;

verus! {

/// One dot-separated part of a pre-release or of build metadata.
#[derive(Clone, Debug, PartialEq, Eq)]
pub enum Identifier {
    /// Digits only, without a leading zero.
    Numeric(u64),
    /// Anything else: letters, digits and hyphens.
    AlphaNumeric(String),
}

pub enum IdentifierView {
    Numeric(u64),
    AlphaNumeric(Seq<char>),
}

impl View for Identifier {
    type V = IdentifierView;

    open spec fn view(&self) -> IdentifierView {
        match self {
            Identifier::Numeric(n) => IdentifierView::Numeric(*n),
            Identifier::AlphaNumeric(s) => IdentifierView::AlphaNumeric(s@),
        }
    }
}

/// A version `MAJOR.MINOR.PATCH[-PRE][+BUILD]`.
///
/// `==` and `<` go by `precedence`, which ignores the build metadata.
#[derive(Clone, Debug)]
pub struct Version {
    pub major: u64,
    pub minor: u64,
    pub patch: u64,
    pub pre: Vec<Identifier>,
    pub build: Vec<Identifier>,
}

pub struct VersionView {
    pub major: u64,
    pub minor: u64,
    pub patch: u64,
    pub pre: Seq<IdentifierView>,
    pub build: Seq<IdentifierView>,
}

pub open spec fn identifiers_view(ids: Seq<Identifier>) -> Seq<IdentifierView> {
    ids.map_values(|id: Identifier| id@)
}

impl View for Version {
    type V = VersionView;

    open spec fn view(&self) -> VersionView {
        VersionView {
            major: self.major,
            minor: self.minor,
            patch: self.patch,
            pre: identifiers_view(self.pre@),
            build: identifiers_view(self.build@),
        }
    }
}

/// How one version stands to another.
#[derive(Clone, Copy, Debug, PartialEq, Eq, Structural)]
pub enum Precedence {
    Lower,
    Same,
    Higher,
}

impl Precedence {
    /// The same comparison read from the other side.
    pub open spec fn flipped(self) -> Precedence {
        match self {
            Precedence::Lower => Precedence::Higher,
            Precedence::Same => Precedence::Same,
            Precedence::Higher => Precedence::Lower,
        }
    }
}

/// The most hyphens that may join the parts of one identifier.
pub const MAX_HYPHENS: usize = 255;

/// Whether no identifier from here on is joined by more than `MAX_HYPHENS`
/// hyphens, `run` of them already seen in the current one. A `.` or a `+`
/// starts a new identifier; so does the first hyphen of a text when no `+`
/// came before it (`fresh`), which is the one that sets off the pre-release.
pub open spec fn hyphens_fit(text: Seq<char>, run: nat, fresh: bool) -> bool
    decreases text.len(),
{
    if text.len() == 0 {
        true
    } else if text[0] == '-' {
        if fresh {
            hyphens_fit(text.drop_first(), 0, false)
        } else {
            run < MAX_HYPHENS && hyphens_fit(text.drop_first(), run + 1, false)
        }
    } else if text[0] == '+' {
        hyphens_fit(text.drop_first(), 0, false)
    } else if text[0] == '.' {
        hyphens_fit(text.drop_first(), 0, fresh)
    } else {
        hyphens_fit(text.drop_first(), run, fresh)
    }
}

/// Whether every identifier in `text` is joined by at most `MAX_HYPHENS`
/// hyphens.
pub open spec fn identifiers_fit(text: Seq<char>) -> bool {
    hyphens_fit(text, 0, true)
}

/// What `semver::Version::parse` makes of `text`: the version's parts, or
/// `None` where it reports an error.
pub uninterp spec fn semver_parsed(text: Seq<char>) -> Option<VersionView>;

/// The version that `text` spells, if it spells one that is accepted here.
pub open spec fn parsed(text: Seq<char>) -> Option<VersionView> {
    if identifiers_fit(text) {
        semver_parsed(text)
    } else {
        None
    }
}

/// `semver::Version::parse`, its result copied field by field. Claims only
/// that the outcome depends on the text alone. Its parser panics on an
/// identifier whose parts are joined by more than `MAX_HYPHENS` hyphens;
/// `identifiers_fit` leaves those texts out.
#[verifier::external_body]
fn semver_parse(text: &str) -> (r: Result<Version, semver::SemVerError>)
    requires
        identifiers_fit(text@),
    ensures
        match r {
            Ok(v) => semver_parsed(text@) == Some(v@),
            Err(_) => semver_parsed(text@) is None,
        },
{
    let own = |id: semver::Identifier| match id {
        semver::Identifier::Numeric(n) => Identifier::Numeric(n),
        semver::Identifier::AlphaNumeric(s) => Identifier::AlphaNumeric(s),
    };
    semver::Version::parse(text).map(|v| Version {
        major: v.major,
        minor: v.minor,
        patch: v.patch,
        pre: v.pre.into_iter().map(own).collect(),
        build: v.build.into_iter().map(own).collect(),
    })
}

/// Builds a `semver::SemVerError::ParseError` that carries `message`.
/// Nothing is claimed of it.
#[verifier::external_body]
fn semver_error(message: &str) -> semver::SemVerError {
    semver::SemVerError::ParseError(message.to_string())
}

fn check_identifiers_fit(text: &str) -> (fit: bool)
    ensures
        fit == identifiers_fit(text@),
{
    broadcast use {vstd::string::axiom_spec_iter, vstd::string::next_postcondition};

    let mut rest = text.chars();
    let mut run: usize = 0;
    let mut fresh = true;
    loop
        invariant
            run <= MAX_HYPHENS,
            identifiers_fit(text@) == hyphens_fit(rest.remaining(), run as nat, fresh),
            rest.decrease() is Some,
        decreases rest.decrease()->0,
    {
        match rest.next() {
            None => {
                return true;
            },
            Some(c) => {
                if c == '-' {
                    if fresh {
                        fresh = false;
                        run = 0;
                    } else if run < MAX_HYPHENS {
                        run = run + 1;
                    } else {
                        return false;
                    }
                } else if c == '+' {
                    fresh = false;
                    run = 0;
                } else if c == '.' {
                    run = 0;
                }
            },
        }
    }
}

pub open spec fn order_numbers(a: int, b: int) -> Precedence {
    if a < b {
        Precedence::Lower
    } else if a > b {
        Precedence::Higher
    } else {
        Precedence::Same
    }
}

/// Whether `c` comes before `d` by code point.
pub open spec fn char_before(c: char, d: char) -> bool {
    (c as u32) < (d as u32)
}

/// Lexicographic order of two texts by code point; a proper prefix is lower.
pub open spec fn order_texts(a: Seq<char>, b: Seq<char>) -> Precedence
    decreases a.len(),
{
    if a.len() == 0 {
        if b.len() == 0 {
            Precedence::Same
        } else {
            Precedence::Lower
        }
    } else if b.len() == 0 {
        Precedence::Higher
    } else if a[0] != b[0] {
        if char_before(a[0], b[0]) {
            Precedence::Lower
        } else {
            Precedence::Higher
        }
    } else {
        order_texts(a.drop_first(), b.drop_first())
    }
}

/// A number is lower than any text; numbers go by value, texts by
/// `order_texts`.
pub open spec fn order_identifier(a: IdentifierView, b: IdentifierView) -> Precedence {
    match (a, b) {
        (IdentifierView::Numeric(x), IdentifierView::Numeric(y)) => order_numbers(
            x as int,
            y as int,
        ),
        (IdentifierView::Numeric(_), IdentifierView::AlphaNumeric(_)) => Precedence::Lower,
        (IdentifierView::AlphaNumeric(_), IdentifierView::Numeric(_)) => Precedence::Higher,
        (IdentifierView::AlphaNumeric(s), IdentifierView::AlphaNumeric(t)) => order_texts(s, t),
    }
}

/// Lexicographic order of two identifier lists; a proper prefix is lower.
pub open spec fn order_identifiers(a: Seq<IdentifierView>, b: Seq<IdentifierView>) -> Precedence
    decreases a.len(),
{
    if a.len() == 0 {
        if b.len() == 0 {
            Precedence::Same
        } else {
            Precedence::Lower
        }
    } else if b.len() == 0 {
        Precedence::Higher
    } else if order_identifier(a[0], b[0]) != Precedence::Same {
        order_identifier(a[0], b[0])
    } else {
        order_identifiers(a.drop_first(), b.drop_first())
    }
}

/// Semantic-version precedence: major, minor and patch by value; then a
/// version without a pre-release is higher than one with; then the
/// pre-releases by `order_identifiers`. Build metadata plays no part.
pub open spec fn precedence(a: VersionView, b: VersionView) -> Precedence {
    if a.major != b.major {
        order_numbers(a.major as int, b.major as int)
    } else if a.minor != b.minor {
        order_numbers(a.minor as int, b.minor as int)
    } else if a.patch != b.patch {
        order_numbers(a.patch as int, b.patch as int)
    } else if a.pre.len() == 0 && b.pre.len() == 0 {
        Precedence::Same
    } else if a.pre.len() == 0 {
        Precedence::Higher
    } else if b.pre.len() == 0 {
        Precedence::Lower
    } else {
        order_identifiers(a.pre, b.pre)
    }
}

fn compare_numbers(a: u64, b: u64) -> (r: Precedence)
    ensures
        r == order_numbers(a as int, b as int),
{
    if a < b {
        Precedence::Lower
    } else if a > b {
        Precedence::Higher
    } else {
        Precedence::Same
    }
}

fn compare_texts(a: &str, b: &str) -> (r: Precedence)
    ensures
        r == order_texts(a@, b@),
{
    broadcast use {vstd::string::axiom_spec_iter, vstd::string::next_postcondition};

    let mut left = a.chars();
    let mut right = b.chars();
    loop
        invariant
            order_texts(a@, b@) == order_texts(left.remaining(), right.remaining()),
            left.decrease() is Some,
        decreases left.decrease()->0,
    {
        match left.next() {
            None => {
                return match right.next() {
                    None => Precedence::Same,
                    Some(_) => Precedence::Lower,
                };
            },
            Some(x) => match right.next() {
                None => {
                    return Precedence::Higher;
                },
                Some(y) => {
                    if x != y {
                        return if (x as u32) < (y as u32) {
                            Precedence::Lower
                        } else {
                            Precedence::Higher
                        };
                    }
                },
            },
        }
    }
}

fn compare_identifier(a: &Identifier, b: &Identifier) -> (r: Precedence)
    ensures
        r == order_identifier(a@, b@),
{
    match a {
        Identifier::Numeric(x) => match b {
            Identifier::Numeric(y) => compare_numbers(*x, *y),
            Identifier::AlphaNumeric(_) => Precedence::Lower,
        },
        Identifier::AlphaNumeric(s) => match b {
            Identifier::Numeric(_) => Precedence::Higher,
            Identifier::AlphaNumeric(t) => compare_texts(s.as_str(), t.as_str()),
        },
    }
}

fn compare_identifiers(a: &Vec<Identifier>, b: &Vec<Identifier>) -> (r: Precedence)
    ensures
        r == order_identifiers(identifiers_view(a@), identifiers_view(b@)),
{
    let ghost av = identifiers_view(a@);
    let ghost bv = identifiers_view(b@);
    let mut i: usize = 0;
    assert(av.skip(0) =~= av && bv.skip(0) =~= bv);
    while i < a.len() && i < b.len()
        invariant
            av == identifiers_view(a@),
            bv == identifiers_view(b@),
            i <= a.len(),
            i <= b.len(),
            order_identifiers(av, bv) == order_identifiers(av.skip(i as int), bv.skip(i as int)),
        decreases a.len() - i,
    {
        let step = compare_identifier(&a[i], &b[i]);
        assert(av.skip(i as int).drop_first() =~= av.skip(i + 1));
        assert(bv.skip(i as int).drop_first() =~= bv.skip(i + 1));
        assert(av.skip(i as int)[0] == a@[i as int]@);
        assert(bv.skip(i as int)[0] == b@[i as int]@);
        match step {
            Precedence::Same => {},
            Precedence::Lower => {
                return Precedence::Lower;
            },
            Precedence::Higher => {
                return Precedence::Higher;
            },
        }
        i = i + 1;
    }
    if i < b.len() {
        Precedence::Lower
    } else if i < a.len() {
        Precedence::Higher
    } else {
        Precedence::Same
    }
}

impl Version {
    /// Reads `text` as a semantic version. Fails with kind `SemVer` exactly
    /// where `text` spells no version: where `semver` rejects it, or where
    /// one of its identifiers is joined by more than `MAX_HYPHENS` hyphens.
    pub fn parse(text: &str) -> (r: Result<Version, AppInfoError>)
        ensures
            match r {
                Ok(v) => parsed(text@) == Some(v@),
                Err(e) => parsed(text@) is None && e.kind() == ErrorKind::SemVer,
            },
    {
        if !check_identifiers_fit(text) {
            return Err(AppInfoError::SemVer(semver_error("too many hyphens in an identifier")));
        }
        match semver_parse(text) {
            Ok(version) => Ok(version),
            Err(err) => Err(AppInfoError::SemVer(err)),
        }
    }

    /// Where `self` stands to `other` by semantic-version precedence.
    pub fn precedence(&self, other: &Version) -> (r: Precedence)
        ensures
            r == precedence(self@, other@),
    {
        if self.major != other.major {
            compare_numbers(self.major, other.major)
        } else if self.minor != other.minor {
            compare_numbers(self.minor, other.minor)
        } else if self.patch != other.patch {
            compare_numbers(self.patch, other.patch)
        } else if self.pre.len() == 0 && other.pre.len() == 0 {
            Precedence::Same
        } else if self.pre.len() == 0 {
            Precedence::Higher
        } else if other.pre.len() == 0 {
            Precedence::Lower
        } else {
            compare_identifiers(&self.pre, &other.pre)
        }
    }
}

proof fn lemma_chars_ordered(c: char, d: char)
    ensures
        c != d ==> (char_before(c, d) <==> !char_before(d, c)),
{
}

proof fn lemma_texts_flip(a: Seq<char>, b: Seq<char>)
    ensures
        order_texts(b, a) == order_texts(a, b).flipped(),
    decreases a.len(),
{
    if a.len() > 0 && b.len() > 0 {
        if a[0] == b[0] {
            lemma_texts_flip(a.drop_first(), b.drop_first());
        } else {
            lemma_chars_ordered(a[0], b[0]);
        }
    }
}

proof fn lemma_texts_same(a: Seq<char>, b: Seq<char>)
    ensures
        order_texts(a, b) == Precedence::Same <==> a == b,
    decreases a.len(),
{
    if a.len() > 0 && b.len() > 0 {
        if a[0] == b[0] {
            lemma_texts_same(a.drop_first(), b.drop_first());
            if a.drop_first() == b.drop_first() {
                assert(a =~= seq![a[0]] + a.drop_first());
                assert(b =~= seq![b[0]] + b.drop_first());
            }
        }
    } else if a.len() == 0 && b.len() == 0 {
        assert(a =~= b);
    }
}

proof fn lemma_texts_transitive(a: Seq<char>, b: Seq<char>, c: Seq<char>)
    requires
        order_texts(a, b) == Precedence::Lower,
        order_texts(b, c) == Precedence::Lower,
    ensures
        order_texts(a, c) == Precedence::Lower,
    decreases a.len(),
{
    if a.len() > 0 && a[0] == b[0] && b[0] == c[0] {
        lemma_texts_transitive(a.drop_first(), b.drop_first(), c.drop_first());
    }
}

proof fn lemma_identifier_flip(a: IdentifierView, b: IdentifierView)
    ensures
        order_identifier(b, a) == order_identifier(a, b).flipped(),
{
    if let (IdentifierView::AlphaNumeric(s), IdentifierView::AlphaNumeric(t)) = (a, b) {
        lemma_texts_flip(s, t);
    }
}

proof fn lemma_identifier_same(a: IdentifierView, b: IdentifierView)
    ensures
        order_identifier(a, b) == Precedence::Same <==> a == b,
{
    if let (IdentifierView::AlphaNumeric(s), IdentifierView::AlphaNumeric(t)) = (a, b) {
        lemma_texts_same(s, t);
    }
}

proof fn lemma_identifier_transitive(a: IdentifierView, b: IdentifierView, c: IdentifierView)
    requires
        order_identifier(a, b) == Precedence::Lower,
        order_identifier(b, c) == Precedence::Lower,
    ensures
        order_identifier(a, c) == Precedence::Lower,
{
    if let (
        IdentifierView::AlphaNumeric(s),
        IdentifierView::AlphaNumeric(t),
        IdentifierView::AlphaNumeric(u),
    ) = (a, b, c) {
        lemma_texts_transitive(s, t, u);
    }
}

proof fn lemma_identifiers_flip(a: Seq<IdentifierView>, b: Seq<IdentifierView>)
    ensures
        order_identifiers(b, a) == order_identifiers(a, b).flipped(),
    decreases a.len(),
{
    if a.len() > 0 && b.len() > 0 {
        lemma_identifier_flip(a[0], b[0]);
        lemma_identifiers_flip(a.drop_first(), b.drop_first());
    }
}

proof fn lemma_identifiers_same(a: Seq<IdentifierView>, b: Seq<IdentifierView>)
    ensures
        order_identifiers(a, b) == Precedence::Same <==> a == b,
    decreases a.len(),
{
    if a.len() > 0 && b.len() > 0 {
        lemma_identifier_same(a[0], b[0]);
        lemma_identifiers_same(a.drop_first(), b.drop_first());
        if a[0] == b[0] && a.drop_first() == b.drop_first() {
            assert(a =~= seq![a[0]] + a.drop_first());
            assert(b =~= seq![b[0]] + b.drop_first());
        }
    } else if a.len() == 0 && b.len() == 0 {
        assert(a =~= b);
    }
}

proof fn lemma_identifiers_transitive(
    a: Seq<IdentifierView>,
    b: Seq<IdentifierView>,
    c: Seq<IdentifierView>,
)
    requires
        order_identifiers(a, b) == Precedence::Lower,
        order_identifiers(b, c) == Precedence::Lower,
    ensures
        order_identifiers(a, c) == Precedence::Lower,
    decreases a.len(),
{
    if a.len() > 0 {
        lemma_identifier_same(a[0], b[0]);
        lemma_identifier_same(b[0], c[0]);
        lemma_identifier_same(a[0], c[0]);
        if a[0] == b[0] && b[0] == c[0] {
            lemma_identifiers_transitive(a.drop_first(), b.drop_first(), c.drop_first());
        } else if a[0] != b[0] && b[0] != c[0] {
            lemma_identifier_transitive(a[0], b[0], c[0]);
        }
    }
}

/// Two versions have the same precedence exactly where they differ in
/// nothing but their build metadata.
pub proof fn same_precedence_means_same_but_for_build(a: VersionView, b: VersionView)
    ensures
        precedence(a, b) == Precedence::Same <==> a.major == b.major && a.minor == b.minor
            && a.patch == b.patch && a.pre == b.pre,
{
    lemma_identifiers_same(a.pre, b.pre);
    if a.pre.len() == 0 && b.pre.len() == 0 {
        assert(a.pre =~= b.pre);
    }
}

/// Read from the other side, a comparison gives the opposite answer: `a` is
/// lower than `b` exactly where `b` is higher than `a`.
pub proof fn precedence_is_antisymmetric(a: VersionView, b: VersionView)
    ensures
        precedence(b, a) == precedence(a, b).flipped(),
{
    lemma_identifiers_flip(a.pre, b.pre);
}

/// Lower than something lower is lower.
pub proof fn precedence_is_transitive(a: VersionView, b: VersionView, c: VersionView)
    requires
        precedence(a, b) == Precedence::Lower,
        precedence(b, c) == Precedence::Lower,
    ensures
        precedence(a, c) == Precedence::Lower,
{
    if a.major == b.major && b.major == c.major && a.minor == b.minor && b.minor == c.minor
        && a.patch == b.patch && b.patch == c.patch && a.pre.len() > 0 && b.pre.len() > 0
        && c.pre.len() > 0 {
        lemma_identifiers_transitive(a.pre, b.pre, c.pre);
    }
}

} // verus!
