//! The parser for the project metadata file.
//!
//! The file is read line by line, as described in [`crate::config`]:
//! section headers, `key = "value"` lines, `key = ["a", "b"]` lines, blank
//! lines and `#` comments; unrecognized sections, keys and lines are
//! ignored without their value text being inspected, and a `#` comment may
//! follow a recognized value.  The grammar is deliberately narrower than a
//! full manifest parser's: recognized values are double-quoted without
//! escape sequences, their arrays fit on one line, and — the reading being
//! strictly line-based — a line that spells a section header inside some
//! ignored multi-line value is taken as that header.  The executable
//! parser mirrors, line by line, the specification-level parser defined
//! here, and its contract ties the two together exactly.

use vstd::prelude::*;

use crate::config::{CargoToml, LambdaSpec, LambdaSpecView, ManifestView, opt_view, strings_view};
use crate::error::KnownFailures;

verus! {

/// The characters that trimming removes around keys, values and headers.
pub open spec fn is_space(c: char) -> bool {
    c == ' ' || c == '\t' || c == '\r'
}

/// The first position in `[i, j)` holding a non-space character, or `j`.
pub open spec fn first_non_space(s: Seq<char>, i: int, j: int) -> int
    decreases j - i when i <= j
{
    if i < j && is_space(s[i]) {
        first_non_space(s, i + 1, j)
    } else {
        i
    }
}

/// The position one past the last non-space character in `[i, j)`, or `i`.
pub open spec fn last_non_space(s: Seq<char>, i: int, j: int) -> int
    decreases j - i when i <= j
{
    if j > i && is_space(s[j - 1]) {
        last_non_space(s, i, j - 1)
    } else {
        j
    }
}

/// The first position in `[i, j)` holding `c`, or `j` when there is none.
pub open spec fn find_from(s: Seq<char>, i: int, j: int, c: char) -> int
    decreases j - i when i <= j
{
    if i < j {
        if s[i] == c {
            i
        } else {
            find_from(s, i + 1, j, c)
        }
    } else {
        j
    }
}

/// The first position in `[i, j)` holding a `]` that stands outside the
/// double-quoted strings, or `j` when there is none; `inq` says whether
/// position `i` is inside a quoted string.
pub open spec fn find_close(s: Seq<char>, i: int, j: int, inq: bool) -> int
    decreases j - i when i <= j
{
    if i >= j {
        j
    } else if !inq && s[i] == ']' {
        i
    } else if s[i] == '"' {
        find_close(s, i + 1, j, !inq)
    } else {
        find_close(s, i + 1, j, inq)
    }
}

pub proof fn lemma_first_non_space_bounds(s: Seq<char>, i: int, j: int)
    requires
        i <= j,
    ensures
        i <= first_non_space(s, i, j) <= j,
    decreases j - i,
{
    if i < j && is_space(s[i]) {
        lemma_first_non_space_bounds(s, i + 1, j);
    }
}

pub proof fn lemma_find_from_bounds(s: Seq<char>, i: int, j: int, c: char)
    requires
        i <= j,
    ensures
        i <= find_from(s, i, j, c) <= j,
    decreases j - i,
{
    if i < j && s[i] != c {
        lemma_find_from_bounds(s, i + 1, j, c);
    }
}

/// A value on the right-hand side of a `key = value` line.
pub enum TomlValue {
    /// A double-quoted string.
    Text(String),
    /// An array of double-quoted strings.
    List(Vec<String>),
}

/// The mathematical content of a [`TomlValue`].
pub enum TomlValueView {
    Text(Seq<char>),
    List(Seq<Seq<char>>),
}

impl View for TomlValue {
    type V = TomlValueView;

    open spec fn view(&self) -> TomlValueView {
        match self {
            TomlValue::Text(s) => TomlValueView::Text(s@),
            TomlValue::List(v) => TomlValueView::List(strings_view(v@)),
        }
    }
}

/// The items of an array value: each element of `[i, j)` must be a
/// double-quoted string, elements separated by commas, no trailing comma.
/// `None` when the range is malformed.
pub open spec fn spec_items(s: Seq<char>, i: int, j: int) -> Option<Seq<Seq<char>>>
    decreases j - i when i <= j via spec_items_dec
{
    let a = first_non_space(s, i, j);
    if a >= j {
        Option::None
    } else if s[a] != '"' {
        Option::None
    } else {
        let q = find_from(s, a + 1, j, '"');
        if q >= j {
            Option::None
        } else {
            let item = s.subrange(a + 1, q);
            let k = first_non_space(s, q + 1, j);
            if k >= j {
                Option::Some(seq![item])
            } else if s[k] == ',' {
                match spec_items(s, k + 1, j) {
                    Option::None => Option::None,
                    Option::Some(rest) => Option::Some(seq![item] + rest),
                }
            } else {
                Option::None
            }
        }
    }
}

#[via_fn]
proof fn spec_items_dec(s: Seq<char>, i: int, j: int) {
    if i <= j {
        lemma_first_non_space_bounds(s, i, j);
        let a = first_non_space(s, i, j);
        if a < j && s[a] == '"' {
            lemma_find_from_bounds(s, a + 1, j, '"');
            let q = find_from(s, a + 1, j, '"');
            if q < j {
                lemma_first_non_space_bounds(s, q + 1, j);
            }
        }
    }
}

/// A well-formed value in `[a, b)` (already trimmed on both sides):
/// a double-quoted string without inner quotes, or a bracketed array of
/// double-quoted strings.  `None` when neither shape fits.
pub open spec fn spec_value(s: Seq<char>, a: int, b: int) -> Option<TomlValueView> {
    if b - a >= 2 && s[a] == '"' && find_from(s, a + 1, b, '"') == b - 1 {
        Option::Some(TomlValueView::Text(s.subrange(a + 1, b - 1)))
    } else if b - a >= 2 && s[a] == '[' && s[b - 1] == ']' {
        if first_non_space(s, a + 1, b - 1) >= b - 1 {
            Option::Some(TomlValueView::List(Seq::empty()))
        } else {
            match spec_items(s, a + 1, b - 1) {
                Option::None => Option::None,
                Option::Some(its) => Option::Some(TomlValueView::List(its)),
            }
        }
    } else {
        Option::None
    }
}

/// Which section of the metadata file the parser is inside.
#[derive(Clone, Copy, PartialEq, Eq, Structural)]
pub enum Section {
    /// Before the first section header.
    Preamble,
    /// Inside `[package]`.
    Package,
    /// Inside the latest `[[bin]]`.
    Bin,
    /// Inside `[lambda]`.
    Lambda,
    /// Inside a section this tool does not recognize.
    Other,
}

/// The parser's accumulator while folding over the lines.
pub struct ParseState {
    pub section: Section,
    pub package_name: Option<String>,
    /// One entry per `[[bin]]` header seen; `None` until its `name` key is read.
    pub bins: Vec<Option<String>>,
    /// The raw `[lambda]` override block collected so far.
    pub overrides: LambdaSpec,
}

/// The mathematical content of a [`ParseState`].
pub struct ParseStateView {
    pub section: Section,
    pub package_name: Option<Seq<char>>,
    pub bins: Seq<Option<Seq<char>>>,
    pub overrides: LambdaSpecView,
}

impl View for ParseState {
    type V = ParseStateView;

    open spec fn view(&self) -> ParseStateView {
        ParseStateView {
            section: self.section,
            package_name: opt_view(self.package_name),
            bins: self.bins@.map_values(|o: Option<String>| opt_view(o)),
            overrides: self.overrides@,
        }
    }
}

/// The state the parser starts from: no section, nothing collected.
pub open spec fn init_state() -> ParseStateView {
    ParseStateView {
        section: Section::Preamble,
        package_name: Option::None,
        bins: Seq::empty(),
        overrides: LambdaSpecView {
            artifact_name: Option::None,
            output_package_path: Option::None,
            build_command: Option::None,
            extra_artifacts: Seq::empty(),
        },
    }
}

/// How one `key = value` line updates the state, given the current section;
/// the value stands in `[va, vb)` of the file text.  Only the recognized
/// keys of the recognized sections are read, and only they must carry a
/// value of the stated shape; every other key is ignored without its value
/// text being inspected.  A `name` key inside `[[bin]]` names the latest
/// declared binary target.
pub open spec fn spec_apply(
    st: ParseStateView,
    s: Seq<char>,
    key: Seq<char>,
    va: int,
    vb: int,
) -> Option<ParseStateView> {
    match st.section {
        Section::Package => if key == "name"@ {
            match spec_value(s, va, vb) {
                Option::Some(TomlValueView::Text(t)) => Option::Some(
                    ParseStateView { package_name: Option::Some(t), ..st },
                ),
                _ => Option::None,
            }
        } else {
            Option::Some(st)
        },
        Section::Bin => if key == "name"@ {
            match spec_value(s, va, vb) {
                Option::Some(TomlValueView::Text(t)) => if st.bins.len() > 0 {
                    Option::Some(
                        ParseStateView {
                            bins: st.bins.update(st.bins.len() - 1, Option::Some(t)),
                            ..st
                        },
                    )
                } else {
                    Option::None
                },
                _ => Option::None,
            }
        } else {
            Option::Some(st)
        },
        Section::Lambda => if key == "artifact_name"@ {
            match spec_value(s, va, vb) {
                Option::Some(TomlValueView::Text(t)) => Option::Some(
                    ParseStateView {
                        overrides: LambdaSpecView {
                            artifact_name: Option::Some(t),
                            ..st.overrides
                        },
                        ..st
                    },
                ),
                _ => Option::None,
            }
        } else if key == "output_package_path"@ {
            match spec_value(s, va, vb) {
                Option::Some(TomlValueView::Text(t)) => Option::Some(
                    ParseStateView {
                        overrides: LambdaSpecView {
                            output_package_path: Option::Some(t),
                            ..st.overrides
                        },
                        ..st
                    },
                ),
                _ => Option::None,
            }
        } else if key == "build_command"@ {
            match spec_value(s, va, vb) {
                Option::Some(TomlValueView::Text(t)) => Option::Some(
                    ParseStateView {
                        overrides: LambdaSpecView {
                            build_command: Option::Some(t),
                            ..st.overrides
                        },
                        ..st
                    },
                ),
                _ => Option::None,
            }
        } else if key == "extra_artifacts"@ {
            match spec_value(s, va, vb) {
                Option::Some(TomlValueView::List(items)) => Option::Some(
                    ParseStateView {
                        overrides: LambdaSpecView { extra_artifacts: items, ..st.overrides },
                        ..st
                    },
                ),
                _ => Option::None,
            }
        } else {
            Option::Some(st)
        },
        Section::Preamble => Option::Some(st),
        Section::Other => Option::Some(st),
    }
}

/// Where the value that starts at `va` ends, within `[va, b)`: one past a
/// quoted string's closing quote, or one past an array's closing bracket,
/// provided only blanks or a `#` comment follow; otherwise the whole
/// range, so that a value with trailing junk keeps its ill shape.
pub open spec fn spec_value_end(s: Seq<char>, va: int, b: int) -> int {
    let vb = if va < b && s[va] == '"' {
        let q = find_from(s, va + 1, b, '"');
        if q < b {
            q + 1
        } else {
            b
        }
    } else if va < b && s[va] == '[' {
        let c = find_close(s, va + 1, b, false);
        if c < b {
            c + 1
        } else {
            b
        }
    } else {
        b
    };
    let t = first_non_space(s, vb, b);
    if t >= b || s[t] == '#' {
        vb
    } else {
        b
    }
}

/// How one line `[i, j)` of the file updates the state: blank lines and
/// comments change nothing; a bracketed header switches the section; a
/// `key = value` line is applied through [`spec_apply`]; any other line —
/// a continuation of some ignored multi-line value, a line without `=` —
/// is ignored.  `None` exactly when a recognized key of a recognized
/// section carries a value that is not of the stated shape (or names a
/// binary target where none was declared).
pub open spec fn spec_handle_line(s: Seq<char>, i: int, j: int, st: ParseStateView) -> Option<
    ParseStateView,
> {
    let a = first_non_space(s, i, j);
    if a >= j {
        Option::Some(st)
    } else if s[a] == '#' {
        Option::Some(st)
    } else {
        let b = last_non_space(s, a, j);
        if s[a] == '[' && s[b - 1] == ']' {
            if s.subrange(a, b) == "[package]"@ {
                Option::Some(ParseStateView { section: Section::Package, ..st })
            } else if s.subrange(a, b) == "[[bin]]"@ {
                Option::Some(
                    ParseStateView {
                        section: Section::Bin,
                        bins: st.bins.push(Option::None),
                        ..st
                    },
                )
            } else if s.subrange(a, b) == "[lambda]"@ {
                Option::Some(ParseStateView { section: Section::Lambda, ..st })
            } else {
                Option::Some(ParseStateView { section: Section::Other, ..st })
            }
        } else {
            let e = find_from(s, a, b, '=');
            if e >= b {
                Option::Some(st)
            } else {
                let kb = last_non_space(s, a, e);
                if kb <= a {
                    Option::Some(st)
                } else {
                    let va = first_non_space(s, e + 1, b);
                    spec_apply(st, s, s.subrange(a, kb), va, spec_value_end(s, va, b))
                }
            }
        }
    }
}

/// Folds [`spec_handle_line`] over the lines of `s`, starting at `i`.
pub open spec fn spec_parse_from(s: Seq<char>, i: int, st: ParseStateView) -> Option<ParseStateView>
    decreases s.len() - i when 0 <= i <= s.len() via spec_parse_from_dec
{
    if i >= s.len() {
        Option::Some(st)
    } else {
        let j = find_from(s, i, s.len() as int, '\n');
        match spec_handle_line(s, i, j, st) {
            Option::None => Option::None,
            Option::Some(st2) => if j < s.len() {
                spec_parse_from(s, j + 1, st2)
            } else {
                Option::Some(st2)
            },
        }
    }
}

#[via_fn]
proof fn spec_parse_from_dec(s: Seq<char>, i: int, st: ParseStateView) {
    if 0 <= i < s.len() {
        lemma_find_from_bounds(s, i, s.len() as int, '\n');
    }
}

/// The name carried by a finished binary-target entry.
pub open spec fn opt_val(o: Option<Seq<char>>) -> Seq<char> {
    match o {
        Option::Some(t) => t,
        Option::None => Seq::empty(),
    }
}

/// Every declared binary target has been given a name.
pub open spec fn all_named(bins: Seq<Option<Seq<char>>>) -> bool {
    forall|k: int| 0 <= k < bins.len() ==> bins[k] is Some
}

/// The names of the declared binary targets, in declaration order.
pub open spec fn bin_names_of(bins: Seq<Option<Seq<char>>>) -> Seq<Seq<char>> {
    bins.map_values(|o: Option<Seq<char>>| opt_val(o))
}

/// What parsing a whole metadata file yields: `None` when some line is
/// malformed, the package name is missing, or a `[[bin]]` section was never
/// named; otherwise the package name, the binary-target names in order, and
/// the raw override block.
pub open spec fn spec_parse_manifest(s: Seq<char>) -> Option<ManifestView> {
    match spec_parse_from(s, 0, init_state()) {
        Option::None => Option::None,
        Option::Some(st) => match st.package_name {
            Option::None => Option::None,
            Option::Some(name) => if all_named(st.bins) {
                Option::Some(
                    ManifestView {
                        package_name: name,
                        bin_names: bin_names_of(st.bins),
                        overrides: st.overrides,
                    },
                )
            } else {
                Option::None
            },
        },
    }
}

fn is_space_char(c: char) -> (r: bool)
    ensures
        r == is_space(c),
{
    c == ' ' || c == '\t' || c == '\r'
}

fn first_non_space_at(v: &Vec<char>, i: usize, j: usize) -> (r: usize)
    requires
        i <= j,
        j <= v.len(),
    ensures
        r == first_non_space(v@, i as int, j as int),
        i <= r <= j,
        r < j ==> !is_space(v@[r as int]),
    decreases j - i,
{
    if i < j && is_space_char(v[i]) {
        first_non_space_at(v, i + 1, j)
    } else {
        i
    }
}

fn last_non_space_at(v: &Vec<char>, i: usize, j: usize) -> (r: usize)
    requires
        i <= j,
        j <= v.len(),
    ensures
        r == last_non_space(v@, i as int, j as int),
        i <= r <= j,
        r > i ==> !is_space(v@[r - 1]),
        forall|t: int| r <= t < j ==> is_space(v@[t]),
    decreases j - i,
{
    if j > i && is_space_char(v[j - 1]) {
        last_non_space_at(v, i, j - 1)
    } else {
        j
    }
}

pub(crate) fn find_char(v: &Vec<char>, i: usize, j: usize, c: char) -> (r: usize)
    requires
        i <= j,
        j <= v.len(),
    ensures
        r == find_from(v@, i as int, j as int, c),
        i <= r <= j,
        r < j ==> v@[r as int] == c,
    decreases j - i,
{
    if i < j {
        if v[i] == c {
            i
        } else {
            find_char(v, i + 1, j, c)
        }
    } else {
        j
    }
}

fn find_close_at(v: &Vec<char>, i: usize, j: usize, inq: bool) -> (r: usize)
    requires
        i <= j,
        j <= v.len(),
    ensures
        r == find_close(v@, i as int, j as int, inq),
        i <= r <= j,
    decreases j - i,
{
    if i >= j {
        j
    } else if !inq && v[i] == ']' {
        i
    } else if v[i] == '"' {
        find_close_at(v, i + 1, j, !inq)
    } else {
        find_close_at(v, i + 1, j, inq)
    }
}

/// Finds the end of the value that starts at `va`, honoring a trailing
/// comment after a well-delimited value.
fn value_end_at(v: &Vec<char>, va: usize, b: usize) -> (r: usize)
    requires
        va <= b,
        b <= v.len(),
    ensures
        r == spec_value_end(v@, va as int, b as int),
        va <= r <= b,
{
    let vb = if va < b && v[va] == '"' {
        let q = find_char(v, va + 1, b, '"');
        if q < b {
            q + 1
        } else {
            b
        }
    } else if va < b && v[va] == '[' {
        let c = find_close_at(v, va + 1, b, false);
        if c < b {
            c + 1
        } else {
            b
        }
    } else {
        b
    };
    let t = first_non_space_at(v, vb, b);
    if t >= b || v[t] == '#' {
        vb
    } else {
        b
    }
}

/// Whether the characters in `[a, b)` spell exactly the literal `lit`.
fn range_matches(v: &Vec<char>, a: usize, b: usize, lit: &str) -> (r: bool)
    requires
        a <= b,
        b <= v.len(),
    ensures
        r == (v@.subrange(a as int, b as int) == lit@),
{
    let n = lit.unicode_len();
    if n != b - a {
        return false;
    }
    let mut k: usize = 0;
    while k < n
        invariant
            a <= b <= v.len(),
            n == b - a,
            n == lit@.len(),
            k <= n,
            forall|t: int| 0 <= t < k ==> v@[a + t] == lit@[t],
        decreases n - k,
    {
        if v[a + k] != lit.get_char(k) {
            assert(v@.subrange(a as int, b as int)[k as int] != lit@[k as int]);
            return false;
        }
        k += 1;
    }
    proof {
        assert(v@.subrange(a as int, b as int) =~= lit@);
    }
    true
}

/// Converts a string to the vector of its characters.
pub(crate) fn chars_vec(s: &str) -> (r: Vec<char>)
    ensures
        r@ == s@,
{
    let n = s.unicode_len();
    let mut r: Vec<char> = Vec::new();
    let mut i: usize = 0;
    while i < n
        invariant
            i <= n,
            n == s@.len(),
            r@ == s@.subrange(0, i as int),
        decreases n - i,
    {
        let c = s.get_char(i);
        r.push(c);
        proof {
            assert(r@ =~= s@.subrange(0, i + 1));
        }
        i += 1;
    }
    proof {
        assert(s@.subrange(0, n as int) =~= s@);
    }
    r
}

/// Parses the comma-separated quoted strings in `[i, j)`.
fn parse_items(doc: &str, v: &Vec<char>, i: usize, j: usize) -> (r: Option<Vec<String>>)
    requires
        v@ == doc@,
        i <= j,
        j <= v.len(),
    ensures
        match spec_items(v@, i as int, j as int) {
            Option::None => r is None,
            Option::Some(its) => r matches Option::Some(xs) && strings_view(xs@) == its,
        },
    decreases j - i,
{
    let a = first_non_space_at(v, i, j);
    if a >= j {
        return Option::None;
    }
    if v[a] != '"' {
        return Option::None;
    }
    let q = find_char(v, a + 1, j, '"');
    if q >= j {
        return Option::None;
    }
    let item = doc.substring_char(a + 1, q).to_owned();
    let ghost item_view = item@;
    let k = first_non_space_at(v, q + 1, j);
    if k >= j {
        let mut xs: Vec<String> = Vec::new();
        xs.push(item);
        proof {
            assert(strings_view(xs@) =~= seq![item_view]);
        }
        Option::Some(xs)
    } else if v[k] == ',' {
        match parse_items(doc, v, k + 1, j) {
            Option::None => Option::None,
            Option::Some(rest) => {
                let ghost rest_view = strings_view(rest@);
                let mut xs: Vec<String> = Vec::new();
                xs.push(item);
                let mut rest = rest;
                xs.append(&mut rest);
                proof {
                    assert(strings_view(xs@) =~= seq![item_view] + rest_view);
                }
                Option::Some(xs)
            },
        }
    } else {
        Option::None
    }
}

/// Parses the value part `[a, b)` of a `key = value` line.
fn parse_value(doc: &str, v: &Vec<char>, a: usize, b: usize) -> (r: Option<TomlValue>)
    requires
        v@ == doc@,
        a <= b,
        b <= v.len(),
    ensures
        match spec_value(v@, a as int, b as int) {
            Option::None => r is None,
            Option::Some(val) => r matches Option::Some(x) && x@ == val,
        },
{
    if b - a >= 2 && v[a] == '"' {
        let q = find_char(v, a + 1, b, '"');
        if q == b - 1 {
            Option::Some(TomlValue::Text(doc.substring_char(a + 1, b - 1).to_owned()))
        } else {
            Option::None
        }
    } else if b - a >= 2 && v[a] == '[' && v[b - 1] == ']' {
        let inner = first_non_space_at(v, a + 1, b - 1);
        if inner >= b - 1 {
            let xs: Vec<String> = Vec::new();
            proof {
                assert(strings_view(xs@) =~= Seq::<Seq<char>>::empty());
            }
            Option::Some(TomlValue::List(xs))
        } else {
            match parse_items(doc, v, a + 1, b - 1) {
                Option::None => Option::None,
                Option::Some(xs) => Option::Some(TomlValue::List(xs)),
            }
        }
    } else {
        Option::None
    }
}

/// Applies one recognized or ignored `key = value` pair to the state; the
/// value stands in `[va, vb)` and is only parsed when the key is one that
/// the current section recognizes.
fn apply_key(
    doc: &str,
    v: &Vec<char>,
    st: ParseState,
    ka: usize,
    kb: usize,
    va: usize,
    vb: usize,
) -> (r: Option<ParseState>)
    requires
        v@ == doc@,
        ka <= kb,
        kb <= v.len(),
        va <= vb,
        vb <= v.len(),
    ensures
        match spec_apply(st@, v@, v@.subrange(ka as int, kb as int), va as int, vb as int) {
            Option::None => r is None,
            Option::Some(s2) => r matches Option::Some(x) && x@ == s2,
        },
{
    match st.section {
        Section::Package => {
            if range_matches(v, ka, kb, "name") {
                match parse_value(doc, v, va, vb) {
                    Option::Some(TomlValue::Text(t)) => {
                        let mut st = st;
                        st.package_name = Option::Some(t);
                        Option::Some(st)
                    },
                    _ => Option::None,
                }
            } else {
                Option::Some(st)
            }
        },
        Section::Bin => {
            if range_matches(v, ka, kb, "name") {
                match parse_value(doc, v, va, vb) {
                    Option::Some(TomlValue::Text(t)) => {
                        if st.bins.len() > 0 {
                            let mut st = st;
                            let ghost old_bins = st.bins@;
                            st.bins.pop();
                            st.bins.push(Option::Some(t));
                            proof {
                                assert(st.bins@ =~= old_bins.update(
                                    old_bins.len() - 1,
                                    st.bins@[old_bins.len() - 1],
                                ));
                                assert(st@.bins =~= old_bins.map_values(
                                    |o: Option<String>| opt_view(o),
                                ).update(old_bins.len() - 1, st@.bins[old_bins.len() - 1]));
                            }
                            Option::Some(st)
                        } else {
                            Option::None
                        }
                    },
                    _ => Option::None,
                }
            } else {
                Option::Some(st)
            }
        },
        Section::Lambda => {
            if range_matches(v, ka, kb, "artifact_name") {
                match parse_value(doc, v, va, vb) {
                    Option::Some(TomlValue::Text(t)) => {
                        let mut st = st;
                        st.overrides.artifact_name = Option::Some(t);
                        Option::Some(st)
                    },
                    _ => Option::None,
                }
            } else if range_matches(v, ka, kb, "output_package_path") {
                match parse_value(doc, v, va, vb) {
                    Option::Some(TomlValue::Text(t)) => {
                        let mut st = st;
                        st.overrides.output_package_path = Option::Some(t);
                        Option::Some(st)
                    },
                    _ => Option::None,
                }
            } else if range_matches(v, ka, kb, "build_command") {
                match parse_value(doc, v, va, vb) {
                    Option::Some(TomlValue::Text(t)) => {
                        let mut st = st;
                        st.overrides.build_command = Option::Some(t);
                        Option::Some(st)
                    },
                    _ => Option::None,
                }
            } else if range_matches(v, ka, kb, "extra_artifacts") {
                match parse_value(doc, v, va, vb) {
                    Option::Some(TomlValue::List(items)) => {
                        let mut st = st;
                        st.overrides.extra_artifacts = items;
                        Option::Some(st)
                    },
                    _ => Option::None,
                }
            } else {
                Option::Some(st)
            }
        },
        Section::Preamble => Option::Some(st),
        Section::Other => Option::Some(st),
    }
}

/// Applies one line `[i, j)` of the file to the state.
fn handle_line(doc: &str, v: &Vec<char>, i: usize, j: usize, st: ParseState) -> (r: Option<
    ParseState,
>)
    requires
        v@ == doc@,
        i <= j,
        j <= v.len(),
    ensures
        match spec_handle_line(v@, i as int, j as int, st@) {
            Option::None => r is None,
            Option::Some(s2) => r matches Option::Some(x) && x@ == s2,
        },
{
    let a = first_non_space_at(v, i, j);
    if a >= j {
        return Option::Some(st);
    }
    if v[a] == '#' {
        return Option::Some(st);
    }
    let b = last_non_space_at(v, a, j);
    assert(b > a);
    if v[a] == '[' && v[b - 1] == ']' {
        if range_matches(v, a, b, "[package]") {
            let mut st = st;
            st.section = Section::Package;
            Option::Some(st)
        } else if range_matches(v, a, b, "[[bin]]") {
            let mut st = st;
            st.section = Section::Bin;
            let ghost old_bins = st@.bins;
            st.bins.push(Option::None);
            proof {
                assert(st@.bins =~= old_bins.push(Option::None));
            }
            Option::Some(st)
        } else if range_matches(v, a, b, "[lambda]") {
            let mut st = st;
            st.section = Section::Lambda;
            Option::Some(st)
        } else {
            let mut st = st;
            st.section = Section::Other;
            Option::Some(st)
        }
    } else {
        let e = find_char(v, a, b, '=');
        if e >= b {
            return Option::Some(st);
        }
        let kb = last_non_space_at(v, a, e);
        if kb <= a {
            return Option::Some(st);
        }
        let va = first_non_space_at(v, e + 1, b);
        let vb = value_end_at(v, va, b);
        apply_key(doc, v, st, a, kb, va, vb)
    }
}

/// Folds [`handle_line`] over the lines of the file, starting at `i`.
fn parse_from(doc: &str, v: &Vec<char>, i: usize, st: ParseState) -> (r: Option<ParseState>)
    requires
        v@ == doc@,
        i <= v.len(),
    ensures
        match spec_parse_from(v@, i as int, st@) {
            Option::None => r is None,
            Option::Some(fin) => r matches Option::Some(x) && x@ == fin,
        },
    decreases v.len() - i,
{
    if i >= v.len() {
        return Option::Some(st);
    }
    let j = find_char(v, i, v.len(), '\n');
    match handle_line(doc, v, i, j, st) {
        Option::None => Option::None,
        Option::Some(st2) => if j < v.len() {
            parse_from(doc, v, j + 1, st2)
        } else {
            Option::Some(st2)
        },
    }
}

/// Extracts the names of the binary targets; `None` when some `[[bin]]`
/// section was never given a `name`.
fn collect_bin_names(bins: &Vec<Option<String>>) -> (r: Option<Vec<String>>)
    ensures
        all_named(bins@.map_values(|o: Option<String>| opt_view(o))) <==> r is Some,
        r matches Option::Some(xs) ==> strings_view(xs@) == bin_names_of(
            bins@.map_values(|o: Option<String>| opt_view(o)),
        ),
{
    let ghost bview = bins@.map_values(|o: Option<String>| opt_view(o));
    let mut out: Vec<String> = Vec::new();
    let mut k: usize = 0;
    while k < bins.len()
        invariant
            k <= bins.len(),
            bview == bins@.map_values(|o: Option<String>| opt_view(o)),
            out@.len() == k,
            forall|t: int| 0 <= t < k ==> bview[t] is Some,
            forall|t: int| 0 <= t < k ==> #[trigger] out@[t]@ == opt_val(bview[t]),
        decreases bins.len() - k,
    {
        match &bins[k] {
            Option::None => {
                assert(bview[k as int] is None);
                return Option::None;
            },
            Option::Some(name) => {
                assert(bview[k as int] == opt_view(bins@[k as int]));
                out.push(name.clone());
            },
        }
        k += 1;
    }
    proof {
        assert(strings_view(out@) =~= bin_names_of(bview));
    }
    Option::Some(out)
}

/// Parses the text of a project metadata file.
///
/// Returns the package name, the declared binary targets in order, and the
/// raw override block; fails with [`KnownFailures::TomlError`] exactly when
/// the text is not a well-formed metadata file.
pub fn parse_cargo_toml(content: &str) -> (r: Result<CargoToml, KnownFailures>)
    ensures
        match spec_parse_manifest(content@) {
            Option::Some(m) => r matches Ok(t) && t@ == m,
            Option::None => r matches Err(e) && e matches KnownFailures::TomlError(_),
        },
{
    let v = chars_vec(content);
    let st = ParseState {
        section: Section::Preamble,
        package_name: Option::None,
        bins: Vec::new(),
        overrides: LambdaSpec {
            artifact_name: Option::None,
            output_package_path: Option::None,
            build_command: Option::None,
            extra_artifacts: Vec::new(),
        },
    };
    proof {
        assert(st@.bins =~= init_state().bins);
        assert(st@.overrides.extra_artifacts =~= init_state().overrides.extra_artifacts);
        assert(st@ == init_state());
    }
    match parse_from(content, &v, 0, st) {
        Option::None => Err(
            KnownFailures::TomlError("the project metadata file is malformed".to_owned()),
        ),
        Option::Some(st) => {
            match st.package_name {
                Option::None => Err(
                    KnownFailures::TomlError(
                        "the project metadata file declares no package name".to_owned(),
                    ),
                ),
                Option::Some(name) => {
                    match collect_bin_names(&st.bins) {
                        Option::None => Err(
                            KnownFailures::TomlError(
                                "a binary target in the project metadata file has no name".to_owned(),
                            ),
                        ),
                        Option::Some(bin_names) => Ok(
                            CargoToml { package_name: name, bin_names, lambda: st.overrides },
                        ),
                    }
                },
            }
        },
    }
}

} // verus!
