//! The text form of the manifest: rendering a section sequence to the
//! human-editable key/value format and parsing it back. The parser is strict:
//! headers must name recognized sections, escapes are not supported inside
//! strings, and every failure carries the offending line number.

use vstd::prelude::*;
use crate::config::DocV;
use crate::value::{
    dec_doc, enc_doc, entry_list_view, pairs_view, secs_view, ErrV, FormatError, Item, ItemV,
    ScalarItem, ScalarV, Section, SectionPath, SectionV,
};

verus! {

// ---------------------------------------------------------------------------
// Scanners
// ---------------------------------------------------------------------------

/// The index of the first line break at or after `i`, or the text's length.
pub open spec fn line_end(t: Seq<char>, i: int) -> int
    decreases t.len() - i,
{
    if i < 0 || i >= t.len() {
        t.len() as int
    } else if t[i] == '\n' {
        i
    } else {
        line_end(t, i + 1)
    }
}

/// The index of the first string delimiter or escape character at or after
/// `i`, or the text's length.
pub open spec fn scan_quote(s: Seq<char>, i: int) -> int
    decreases s.len() - i,
{
    if i < 0 || i >= s.len() {
        s.len() as int
    } else if s[i] == '"' || s[i] == '\\' {
        i
    } else {
        scan_quote(s, i + 1)
    }
}

/// The index of the first space at or after `i`, or the text's length.
pub open spec fn find_space(s: Seq<char>, i: int) -> int
    decreases s.len() - i,
{
    if i < 0 || i >= s.len() {
        s.len() as int
    } else if s[i] == ' ' {
        i
    } else {
        find_space(s, i + 1)
    }
}

/// The index of the first comma or space at or after `i`, or the text's
/// length.
pub open spec fn scan_delim(s: Seq<char>, i: int) -> int
    decreases s.len() - i,
{
    if i < 0 || i >= s.len() {
        s.len() as int
    } else if s[i] == ',' || s[i] == ' ' {
        i
    } else {
        scan_delim(s, i + 1)
    }
}

// ---------------------------------------------------------------------------
// Parsing one line
// ---------------------------------------------------------------------------

/// Parse a quoted string starting at `i`: the content up to the next
/// delimiter, and the position after the closing quote. Escapes are refused.
pub open spec fn parse_quoted(s: Seq<char>, i: int) -> Option<(Seq<char>, int)> {
    if 0 <= i < s.len() && s[i] == '"' {
        let j = scan_quote(s, i + 1);
        if j < s.len() && s[j] == '"' {
            Some((s.subrange(i + 1, j), j + 1))
        } else {
            None
        }
    } else {
        None
    }
}

/// Parse `key = ` starting at `i`: a bare or quoted key followed by the
/// equals separator; gives the key and the position of the value.
pub open spec fn parse_key_eq(s: Seq<char>, i: int) -> Option<(Seq<char>, int)> {
    if 0 <= i < s.len() && s[i] == '"' {
        match parse_quoted(s, i) {
            Some((k, j)) => {
                if j + 2 < s.len() && s[j] == ' ' && s[j + 1] == '=' && s[j + 2] == ' ' {
                    Some((k, j + 3))
                } else {
                    None
                }
            },
            None => None,
        }
    } else {
        let j = find_space(s, i);
        if 0 <= i < j && j + 2 < s.len() && s[j + 1] == '=' && s[j + 2] == ' ' {
            Some((s.subrange(i, j), j + 3))
        } else {
            None
        }
    }
}

/// Parse one inline-table scalar starting at `i`: a quoted string or a
/// boolean word.
pub open spec fn parse_scalar(s: Seq<char>, i: int) -> Option<(ScalarV, int)> {
    if 0 <= i < s.len() && s[i] == '"' {
        match parse_quoted(s, i) {
            Some((c, j)) => Some((ScalarV::Text(c), j)),
            None => None,
        }
    } else if 0 <= i <= s.len() {
        let j = scan_delim(s, i);
        if s.subrange(i, j) == "true"@ {
            Some((ScalarV::Flag(true), j))
        } else if s.subrange(i, j) == "false"@ {
            Some((ScalarV::Flag(false), j))
        } else {
            None
        }
    } else {
        None
    }
}

/// Parse the elements of a non-empty string list after the opening bracket.
pub open spec fn parse_list_items(s: Seq<char>, i: int, acc: Seq<Seq<char>>) -> Option<
    (Seq<Seq<char>>, int),
>
    decreases s.len() - i,
{
    match parse_quoted(s, i) {
        Some((c, j)) => {
            if j < s.len() && s[j] == ']' {
                Some((acc.push(c), j + 1))
            } else if j + 1 < s.len() && s[j] == ',' && s[j + 1] == ' ' {
                if j + 2 <= i {
                    None
                } else {
                    parse_list_items(s, j + 2, acc.push(c))
                }
            } else {
                None
            }
        },
        None => None,
    }
}

/// Parse the pairs of a non-empty inline table after the opening brace.
pub open spec fn parse_pairs(s: Seq<char>, i: int, acc: Seq<(Seq<char>, ScalarV)>) -> Option<
    (Seq<(Seq<char>, ScalarV)>, int),
>
    decreases s.len() - i,
{
    match parse_key_eq(s, i) {
        Some((k, j)) => match parse_scalar(s, j) {
            Some((v, e)) => {
                if e + 1 < s.len() && s[e] == ',' && s[e + 1] == ' ' {
                    if e + 2 <= i {
                        None
                    } else {
                        parse_pairs(s, e + 2, acc.push((k, v)))
                    }
                } else if e + 1 < s.len() && s[e] == ' ' && s[e + 1] == '}' {
                    Some((acc.push((k, v)), e + 2))
                } else {
                    None
                }
            },
            None => None,
        },
        None => None,
    }
}

/// Parse a whole entry value; it must cover the rest of the line exactly.
pub open spec fn parse_item(s: Seq<char>) -> Option<ItemV> {
    if s == "true"@ {
        Some(ItemV::Flag(true))
    } else if s == "false"@ {
        Some(ItemV::Flag(false))
    } else if s.len() == 0 {
        None
    } else if s[0] == '"' {
        match parse_quoted(s, 0) {
            Some((c, j)) => if j == s.len() {
                Some(ItemV::Text(c))
            } else {
                None
            },
            None => None,
        }
    } else if s[0] == '[' {
        if s.len() == 2 && s[1] == ']' {
            Some(ItemV::List(Seq::<Seq<char>>::empty()))
        } else {
            match parse_list_items(s, 1, Seq::<Seq<char>>::empty()) {
                Some((xs, j)) => if j == s.len() {
                    Some(ItemV::List(xs))
                } else {
                    None
                },
                None => None,
            }
        }
    } else if s[0] == '{' {
        if s.len() == 2 && s[1] == '}' {
            Some(ItemV::Table(Seq::<(Seq<char>, ScalarV)>::empty()))
        } else if s.len() >= 2 && s[1] == ' ' {
            match parse_pairs(s, 2, Seq::<(Seq<char>, ScalarV)>::empty()) {
                Some((ps, j)) => if j == s.len() {
                    Some(ItemV::Table(ps))
                } else {
                    None
                },
                None => None,
            }
        } else {
            None
        }
    } else {
        None
    }
}

/// The text of each recognized section header.
pub open spec fn header_text(p: SectionPath) -> Seq<char> {
    match p {
        SectionPath::Project => "[project]"@,
        SectionPath::Build => "[build]"@,
        SectionPath::Targets => "[targets]"@,
        SectionPath::TargetsJvm => "[targets.jvm]"@,
        SectionPath::TargetsIosArm64 => "[targets.ios-arm64]"@,
        SectionPath::TargetsIosX64 => "[targets.ios-x64]"@,
        SectionPath::TargetsIosSimulatorArm64 => "[targets.ios-simulator-arm64]"@,
        SectionPath::TargetsLinuxX64 => "[targets.linux-x64]"@,
        SectionPath::TargetsMacosArm64 => "[targets.macos-arm64]"@,
        SectionPath::TargetsWindowsX64 => "[targets.windows-x64]"@,
        SectionPath::TargetsNative => "[targets.native]"@,
        SectionPath::TargetsNativeBinary => "[targets.native.binary]"@,
        SectionPath::Dependencies => "[dependencies]"@,
        SectionPath::DependenciesCommon => "[dependencies.common]"@,
        SectionPath::DependenciesJvm => "[dependencies.jvm]"@,
        SectionPath::DependenciesTest => "[dependencies.test]"@,
        SectionPath::Test => "[test]"@,
        SectionPath::Repositories => "[repositories]"@,
    }
}

/// The section a header line names, if any.
pub open spec fn header_path(line: Seq<char>) -> Option<SectionPath> {
    if line == "[project]"@ {
        Some(SectionPath::Project)
    } else if line == "[build]"@ {
        Some(SectionPath::Build)
    } else if line == "[targets]"@ {
        Some(SectionPath::Targets)
    } else if line == "[targets.jvm]"@ {
        Some(SectionPath::TargetsJvm)
    } else if line == "[targets.ios-arm64]"@ {
        Some(SectionPath::TargetsIosArm64)
    } else if line == "[targets.ios-x64]"@ {
        Some(SectionPath::TargetsIosX64)
    } else if line == "[targets.ios-simulator-arm64]"@ {
        Some(SectionPath::TargetsIosSimulatorArm64)
    } else if line == "[targets.linux-x64]"@ {
        Some(SectionPath::TargetsLinuxX64)
    } else if line == "[targets.macos-arm64]"@ {
        Some(SectionPath::TargetsMacosArm64)
    } else if line == "[targets.windows-x64]"@ {
        Some(SectionPath::TargetsWindowsX64)
    } else if line == "[targets.native]"@ {
        Some(SectionPath::TargetsNative)
    } else if line == "[targets.native.binary]"@ {
        Some(SectionPath::TargetsNativeBinary)
    } else if line == "[dependencies]"@ {
        Some(SectionPath::Dependencies)
    } else if line == "[dependencies.common]"@ {
        Some(SectionPath::DependenciesCommon)
    } else if line == "[dependencies.jvm]"@ {
        Some(SectionPath::DependenciesJvm)
    } else if line == "[dependencies.test]"@ {
        Some(SectionPath::DependenciesTest)
    } else if line == "[test]"@ {
        Some(SectionPath::Test)
    } else if line == "[repositories]"@ {
        Some(SectionPath::Repositories)
    } else {
        None
    }
}

// ---------------------------------------------------------------------------
// Parsing the whole text
// ---------------------------------------------------------------------------

/// Line numbers saturate at the machine limit.
pub open spec fn next_line(ln: int) -> int {
    if ln >= usize::MAX as int {
        ln
    } else {
        ln + 1
    }
}

pub open spec fn opt_secs(cur: Option<SectionV>) -> Seq<SectionV> {
    match cur {
        Some(s) => seq![s],
        None => Seq::<SectionV>::empty(),
    }
}

/// Fold the text line by line: blank and comment lines are skipped, a header
/// opens a new section, an entry extends the open one.
pub open spec fn parse_secs(
    t: Seq<char>,
    i: int,
    ln: int,
    cur: Option<SectionV>,
    done: Seq<SectionV>,
) -> Result<Seq<SectionV>, ErrV>
    decreases t.len() + 1 - i,
{
    if i < 0 || i >= t.len() {
        Ok(done + opt_secs(cur))
    } else {
        let e = line_end(t, i);
        if e < i || e > t.len() {
            Err(ErrV::Syntax { line: ln })
        } else {
            let line = t.subrange(i, e);
            if line.len() == 0 || line[0] == '#' {
                parse_secs(t, e + 1, next_line(ln), cur, done)
            } else if line[0] == '[' {
                match header_path(line) {
                    Some(p) => parse_secs(
                        t,
                        e + 1,
                        next_line(ln),
                        Some(SectionV { path: p, entries: Seq::<(Seq<char>, ItemV)>::empty() }),
                        done + opt_secs(cur),
                    ),
                    None => Err(ErrV::UnknownSection { line: ln }),
                }
            } else {
                match parse_key_eq(line, 0) {
                    Some((k, j)) => match parse_item(line.subrange(j, line.len() as int)) {
                        Some(item) => match cur {
                            Some(sv) => parse_secs(
                                t,
                                e + 1,
                                next_line(ln),
                                Some(SectionV { path: sv.path, entries: sv.entries.push((k, item)) }),
                                done,
                            ),
                            None => Err(ErrV::OrphanEntry { line: ln }),
                        },
                        None => Err(ErrV::Syntax { line: ln }),
                    },
                    None => Err(ErrV::Syntax { line: ln }),
                }
            }
        }
    }
}

/// Parse the whole manifest text into a document.
pub open spec fn parse_doc(t: Seq<char>) -> Result<DocV, ErrV> {
    match parse_secs(t, 0, 1, None, Seq::<SectionV>::empty()) {
        Ok(ss) => dec_doc(ss),
        Err(e) => Err(e),
    }
}

// ---------------------------------------------------------------------------
// Rendering
// ---------------------------------------------------------------------------

/// A string between its delimiters.
pub open spec fn quoted(s: Seq<char>) -> Seq<char> {
    seq!['"'] + s + seq!['"']
}

/// A character that may stand in a bare key.
pub open spec fn bare_char(c: char) -> bool {
    ('a' <= c && c <= 'z') || ('A' <= c && c <= 'Z') || ('0' <= c && c <= '9') || c == '-'
        || c == '_'
}

/// A key rendered without quotes: non-empty, bare characters only.
pub open spec fn bare_key(k: Seq<char>) -> bool {
    k.len() > 0 && forall|i: int| 0 <= i < k.len() ==> bare_char(#[trigger] k[i])
}

pub open spec fn render_key(k: Seq<char>) -> Seq<char> {
    if bare_key(k) {
        k
    } else {
        quoted(k)
    }
}

pub open spec fn render_scalar(v: ScalarV) -> Seq<char> {
    match v {
        ScalarV::Text(s) => quoted(s),
        ScalarV::Flag(b) => if b {
            "true"@
        } else {
            "false"@
        },
    }
}

pub open spec fn render_list_items(xs: Seq<Seq<char>>, i: int) -> Seq<char>
    decreases xs.len() - i,
{
    if i < 0 || i >= xs.len() {
        Seq::<char>::empty()
    } else if i == xs.len() - 1 {
        quoted(xs[i])
    } else {
        quoted(xs[i]) + ", "@ + render_list_items(xs, i + 1)
    }
}

pub open spec fn render_pairs(ps: Seq<(Seq<char>, ScalarV)>, i: int) -> Seq<char>
    decreases ps.len() - i,
{
    if i < 0 || i >= ps.len() {
        Seq::<char>::empty()
    } else if i == ps.len() - 1 {
        render_key(ps[i].0) + " = "@ + render_scalar(ps[i].1)
    } else {
        render_key(ps[i].0) + " = "@ + render_scalar(ps[i].1) + ", "@ + render_pairs(ps, i + 1)
    }
}

pub open spec fn render_item(item: ItemV) -> Seq<char> {
    match item {
        ItemV::Text(s) => quoted(s),
        ItemV::Flag(b) => if b {
            "true"@
        } else {
            "false"@
        },
        ItemV::List(xs) => if xs.len() == 0 {
            "[]"@
        } else {
            seq!['['] + render_list_items(xs, 0) + seq![']']
        },
        ItemV::Table(ps) => if ps.len() == 0 {
            "{}"@
        } else {
            "{ "@ + render_pairs(ps, 0) + " }"@
        },
    }
}

pub open spec fn render_entries(es: Seq<(Seq<char>, ItemV)>, i: int) -> Seq<char>
    decreases es.len() - i,
{
    if i < 0 || i >= es.len() {
        Seq::<char>::empty()
    } else {
        render_key(es[i].0) + " = "@ + render_item(es[i].1) + seq!['\n'] + render_entries(
            es,
            i + 1,
        )
    }
}

pub open spec fn render_sec(s: SectionV) -> Seq<char> {
    header_text(s.path) + seq!['\n'] + render_entries(s.entries, 0) + seq!['\n']
}

pub open spec fn render_secs(ss: Seq<SectionV>, i: int) -> Seq<char>
    decreases ss.len() - i,
{
    if i < 0 || i >= ss.len() {
        Seq::<char>::empty()
    } else {
        render_sec(ss[i]) + render_secs(ss, i + 1)
    }
}

/// Render a document in the canonical text form: fixed declaration order,
/// absent sections not written, one blank line after each section.
pub open spec fn render_doc(d: DocV) -> Seq<char> {
    render_secs(enc_doc(d), 0)
}

} // verus!

// ---------------------------------------------------------------------------
// Executable parsing
// ---------------------------------------------------------------------------

verus! {

fn line_end_x(s: &str, from: usize) -> (r: usize)
    requires
        from <= s@.len(),
    ensures
        r as int == line_end(s@, from as int),
        from <= r <= s@.len(),
{
    let n = s.unicode_len();
    let mut i = from;
    while i < n
        invariant
            from <= i <= n,
            n == s@.len(),
            line_end(s@, from as int) == line_end(s@, i as int),
        decreases n - i,
    {
        if s.get_char(i) == '\n' {
            return i;
        }
        i = i + 1;
    }
    i
}

fn scan_quote_x(s: &str, from: usize) -> (r: usize)
    requires
        from <= s@.len(),
    ensures
        r as int == scan_quote(s@, from as int),
        from <= r <= s@.len(),
{
    let n = s.unicode_len();
    let mut i = from;
    while i < n
        invariant
            from <= i <= n,
            n == s@.len(),
            scan_quote(s@, from as int) == scan_quote(s@, i as int),
        decreases n - i,
    {
        let c = s.get_char(i);
        if c == '"' || c == '\\' {
            return i;
        }
        i = i + 1;
    }
    i
}

fn find_space_x(s: &str, from: usize) -> (r: usize)
    requires
        from <= s@.len(),
    ensures
        r as int == find_space(s@, from as int),
        from <= r <= s@.len(),
{
    let n = s.unicode_len();
    let mut i = from;
    while i < n
        invariant
            from <= i <= n,
            n == s@.len(),
            find_space(s@, from as int) == find_space(s@, i as int),
        decreases n - i,
    {
        if s.get_char(i) == ' ' {
            return i;
        }
        i = i + 1;
    }
    i
}

fn scan_delim_x(s: &str, from: usize) -> (r: usize)
    requires
        from <= s@.len(),
    ensures
        r as int == scan_delim(s@, from as int),
        from <= r <= s@.len(),
{
    let n = s.unicode_len();
    let mut i = from;
    while i < n
        invariant
            from <= i <= n,
            n == s@.len(),
            scan_delim(s@, from as int) == scan_delim(s@, i as int),
        decreases n - i,
    {
        let c = s.get_char(i);
        if c == ',' || c == ' ' {
            return i;
        }
        i = i + 1;
    }
    i
}

fn parse_quoted_x(s: &str, i: usize) -> (r: Option<(String, usize)>)
    ensures
        r matches Some(p) ==> parse_quoted(s@, i as int) == Some((p.0@, p.1 as int))
            && p.1 <= s@.len(),
        r is None ==> parse_quoted(s@, i as int) is None,
{
    let n = s.unicode_len();
    if i < n && s.get_char(i) == '"' {
        let j = scan_quote_x(s, i + 1);
        if j < n && s.get_char(j) == '"' {
            Some((s.substring_char(i + 1, j).to_owned(), j + 1))
        } else {
            None
        }
    } else {
        None
    }
}

fn parse_key_eq_x(s: &str, i: usize) -> (r: Option<(String, usize)>)
    ensures
        r matches Some(p) ==> parse_key_eq(s@, i as int) == Some((p.0@, p.1 as int))
            && p.1 <= s@.len(),
        r is None ==> parse_key_eq(s@, i as int) is None,
{
    let n = s.unicode_len();
    if i < n && s.get_char(i) == '"' {
        match parse_quoted_x(s, i) {
            Some((k, j)) => {
                if n >= 3 && j < n - 2 && s.get_char(j) == ' ' && s.get_char(j + 1) == '='
                    && s.get_char(j + 2) == ' ' {
                    Some((k, j + 3))
                } else {
                    None
                }
            },
            None => None,
        }
    } else {
        let j = find_space_x(s, if i < n { i } else { n });
        proof {
            if i >= n {
                assert(find_space(s@, i as int) == s@.len());
            }
        }
        if i < j && n >= 3 && j < n - 2 && s.get_char(j + 1) == '=' && s.get_char(j + 2) == ' ' {
            Some((s.substring_char(i, j).to_owned(), j + 3))
        } else {
            None
        }
    }
}

fn parse_scalar_x(s: &str, i: usize) -> (r: Option<(ScalarItem, usize)>)
    requires
        i <= s@.len(),
    ensures
        r matches Some(p) ==> parse_scalar(s@, i as int) == Some((p.0@, p.1 as int))
            && p.1 <= s@.len(),
        r is None ==> parse_scalar(s@, i as int) is None,
{
    let n = s.unicode_len();
    if i < n && s.get_char(i) == '"' {
        match parse_quoted_x(s, i) {
            Some((c, j)) => Some((ScalarItem::Text(c), j)),
            None => None,
        }
    } else {
        let j = scan_delim_x(s, i);
        let w = s.substring_char(i, j);
        if crate::value::str_eq(w, "true") {
            Some((ScalarItem::Flag(true), j))
        } else if crate::value::str_eq(w, "false") {
            Some((ScalarItem::Flag(false), j))
        } else {
            None
        }
    }
}

fn parse_list_items_x(s: &str, i: usize, acc: Vec<String>) -> (r: Option<(Vec<String>, usize)>)
    ensures
        r matches Some(p) ==> parse_list_items(s@, i as int, acc.deep_view()) == Some(
            (p.0.deep_view(), p.1 as int),
        ) && p.1 <= s@.len(),
        r is None ==> parse_list_items(s@, i as int, acc.deep_view()) is None,
    decreases s@.len() - i,
{
    let n = s.unicode_len();
    match parse_quoted_x(s, i) {
        Some((c, j)) => {
            if j < n && s.get_char(j) == ']' {
                let ghost prev = acc.deep_view();
                let mut acc2 = acc;
                acc2.push(c);
                proof {
                    assert(acc2.deep_view() =~= prev.push(acc2@[acc2@.len() - 1]@));
                }
                Some((acc2, j + 1))
            } else if n >= 2 && j < n - 1 && s.get_char(j) == ',' && s.get_char(j + 1) == ' ' {
                if j + 2 <= i {
                    None
                } else {
                    let ghost prev = acc.deep_view();
                    let mut acc2 = acc;
                    acc2.push(c);
                    proof {
                        assert(acc2.deep_view() =~= prev.push(acc2@[acc2@.len() - 1]@));
                    }
                    parse_list_items_x(s, j + 2, acc2)
                }
            } else {
                None
            }
        },
        None => None,
    }
}

fn parse_pairs_x(s: &str, i: usize, acc: Vec<(String, ScalarItem)>) -> (r: Option<
    (Vec<(String, ScalarItem)>, usize),
>)
    ensures
        r matches Some(p) ==> parse_pairs(s@, i as int, pairs_view(acc@)) == Some(
            (pairs_view(p.0@), p.1 as int),
        ) && p.1 <= s@.len(),
        r is None ==> parse_pairs(s@, i as int, pairs_view(acc@)) is None,
    decreases s@.len() - i,
{
    let n = s.unicode_len();
    match parse_key_eq_x(s, i) {
        Some((k, j)) => match parse_scalar_x(s, j) {
            Some((v, e)) => {
                if n >= 2 && e < n - 1 && s.get_char(e) == ',' && s.get_char(e + 1) == ' ' {
                    if e + 2 <= i {
                        None
                    } else {
                        let ghost prev = pairs_view(acc@);
                        let mut acc2 = acc;
                        acc2.push((k, v));
                        proof {
                            assert(pairs_view(acc2@) =~= prev.push(
                                (acc2@[acc2@.len() - 1].0@, acc2@[acc2@.len() - 1].1@),
                            ));
                        }
                        parse_pairs_x(s, e + 2, acc2)
                    }
                } else if n >= 2 && e < n - 1 && s.get_char(e) == ' ' && s.get_char(e + 1) == '}' {
                    let ghost prev = pairs_view(acc@);
                    let mut acc2 = acc;
                    acc2.push((k, v));
                    proof {
                        assert(pairs_view(acc2@) =~= prev.push(
                            (acc2@[acc2@.len() - 1].0@, acc2@[acc2@.len() - 1].1@),
                        ));
                    }
                    Some((acc2, e + 2))
                } else {
                    None
                }
            },
            None => None,
        },
        None => None,
    }
}

fn parse_item_x(s: &str) -> (r: Option<Item>)
    ensures
        r matches Some(item) ==> parse_item(s@) == Some(item@),
        r is None ==> parse_item(s@) is None,
{
    let n = s.unicode_len();
    if crate::value::str_eq(s, "true") {
        Some(Item::Flag(true))
    } else if crate::value::str_eq(s, "false") {
        Some(Item::Flag(false))
    } else if n == 0 {
        None
    } else if s.get_char(0) == '"' {
        match parse_quoted_x(s, 0) {
            Some((c, j)) => if j == n {
                Some(Item::Text(c))
            } else {
                None
            },
            None => None,
        }
    } else if s.get_char(0) == '[' {
        if n == 2 && s.get_char(1) == ']' {
            let empty_list: Vec<String> = Vec::new();
            proof {
                assert(empty_list.deep_view() =~= Seq::<Seq<char>>::empty());
            }
            Some(Item::List(empty_list))
        } else {
            let acc0: Vec<String> = Vec::new();
            proof {
                assert(acc0.deep_view() =~= Seq::<Seq<char>>::empty());
            }
            match parse_list_items_x(s, 1, acc0) {
                Some((xs, j)) => if j == n {
                    Some(Item::List(xs))
                } else {
                    None
                },
                None => None,
            }
        }
    } else if s.get_char(0) == '{' {
        if n == 2 && s.get_char(1) == '}' {
            let empty_pairs: Vec<(String, ScalarItem)> = Vec::new();
            proof {
                assert(pairs_view(empty_pairs@) =~= Seq::<(Seq<char>, ScalarV)>::empty());
            }
            Some(Item::Table(empty_pairs))
        } else if n >= 2 && s.get_char(1) == ' ' {
            let acc0: Vec<(String, ScalarItem)> = Vec::new();
            proof {
                assert(pairs_view(acc0@) =~= Seq::<(Seq<char>, ScalarV)>::empty());
            }
            match parse_pairs_x(s, 2, acc0) {
                Some((ps, j)) => if j == n {
                    Some(Item::Table(ps))
                } else {
                    None
                },
                None => None,
            }
        } else {
            None
        }
    } else {
        None
    }
}

fn header_path_x(line: &str) -> (r: Option<SectionPath>)
    ensures
        r == header_path(line@),
{
    if crate::value::str_eq(line, "[project]") {
        Some(SectionPath::Project)
    } else if crate::value::str_eq(line, "[build]") {
        Some(SectionPath::Build)
    } else if crate::value::str_eq(line, "[targets]") {
        Some(SectionPath::Targets)
    } else if crate::value::str_eq(line, "[targets.jvm]") {
        Some(SectionPath::TargetsJvm)
    } else if crate::value::str_eq(line, "[targets.ios-arm64]") {
        Some(SectionPath::TargetsIosArm64)
    } else if crate::value::str_eq(line, "[targets.ios-x64]") {
        Some(SectionPath::TargetsIosX64)
    } else if crate::value::str_eq(line, "[targets.ios-simulator-arm64]") {
        Some(SectionPath::TargetsIosSimulatorArm64)
    } else if crate::value::str_eq(line, "[targets.linux-x64]") {
        Some(SectionPath::TargetsLinuxX64)
    } else if crate::value::str_eq(line, "[targets.macos-arm64]") {
        Some(SectionPath::TargetsMacosArm64)
    } else if crate::value::str_eq(line, "[targets.windows-x64]") {
        Some(SectionPath::TargetsWindowsX64)
    } else if crate::value::str_eq(line, "[targets.native]") {
        Some(SectionPath::TargetsNative)
    } else if crate::value::str_eq(line, "[targets.native.binary]") {
        Some(SectionPath::TargetsNativeBinary)
    } else if crate::value::str_eq(line, "[dependencies]") {
        Some(SectionPath::Dependencies)
    } else if crate::value::str_eq(line, "[dependencies.common]") {
        Some(SectionPath::DependenciesCommon)
    } else if crate::value::str_eq(line, "[dependencies.jvm]") {
        Some(SectionPath::DependenciesJvm)
    } else if crate::value::str_eq(line, "[dependencies.test]") {
        Some(SectionPath::DependenciesTest)
    } else if crate::value::str_eq(line, "[test]") {
        Some(SectionPath::Test)
    } else if crate::value::str_eq(line, "[repositories]") {
        Some(SectionPath::Repositories)
    } else {
        None
    }
}

/// The ghost model of an open section under construction.
pub open spec fn osec(cur: Option<Section>) -> Option<SectionV> {
    match cur {
        Some(s) => Some(s@),
        None => None,
    }
}

proof fn lemma_parse_secs_past_end(
    t: Seq<char>,
    i1: int,
    i2: int,
    ln: int,
    cur: Option<SectionV>,
    done: Seq<SectionV>,
)
    requires
        i1 >= t.len(),
        i2 >= t.len(),
        i1 >= 0,
        i2 >= 0,
    ensures
        parse_secs(t, i1, ln, cur, done) == parse_secs(t, i2, ln, cur, done),
{
}

/// Parse the whole text into its sections.
#[verifier::rlimit(100)]
pub fn parse_secs_x(t: &str, i: usize, ln: usize, cur: Option<Section>, done: Vec<Section>) -> (r:
    Result<Vec<Section>, FormatError>)
    requires
        i <= t@.len(),
        ln as int <= i as int + 1,
    ensures
        r matches Ok(ss) ==> parse_secs(t@, i as int, ln as int, osec(cur), secs_view(done@))
            == Ok::<Seq<SectionV>, ErrV>(secs_view(ss@)),
        r matches Err(e) ==> parse_secs(t@, i as int, ln as int, osec(cur), secs_view(done@))
            == Err::<Seq<SectionV>, ErrV>(e@),
    decreases t@.len() + 1 - i,
{
    let n = t.unicode_len();
    if i >= n {
        let mut done2 = done;
        let ghost prev = secs_view(done2@);
        match cur {
            Some(s) => {
                done2.push(s);
                proof {
                    assert(secs_view(done2@) =~= prev + opt_secs(osec(Some(done2@[done2@.len()
                        - 1]))));
                }
            },
            None => {
                proof {
                    assert(secs_view(done2@) =~= prev + opt_secs(None));
                }
            },
        }
        proof {
            assert(secs_view(done2@) == secs_view(done@) + opt_secs(osec(cur)));
            assert(parse_secs(t@, i as int, ln as int, osec(cur), secs_view(done@))
                == Ok::<Seq<SectionV>, ErrV>(secs_view(done@) + opt_secs(osec(cur))));
        }
        Ok(done2)
    } else {
        let e = line_end_x(t, i);
        let line = t.substring_char(i, e);
        let line_n = line.unicode_len();
        if line_n == 0 || line.get_char(0) == '#' {
            proof {
                assert(parse_secs(t@, i as int, ln as int, osec(cur), secs_view(done@))
                    == parse_secs(t@, e as int + 1, next_line(ln as int), osec(cur),
                        secs_view(done@)));
            }
            {
                        let nxt = if e < n { e + 1 } else { n };
                        proof {
                            if e >= n {
                                lemma_parse_secs_past_end(t@, e as int + 1, nxt as int,
                                    next_line(ln as int), osec(cur), secs_view(done@));
                            }
                        }
                        parse_secs_x(t, nxt, if ln < usize::MAX { ln + 1 } else { ln }, cur, done)
                    }
        } else if line.get_char(0) == '[' {
            match header_path_x(line) {
                Some(p) => {
                    let mut done2 = done;
                    let ghost prev = secs_view(done2@);
                    match cur {
                        Some(s) => {
                            done2.push(s);
                            proof {
                                assert(secs_view(done2@) =~= prev + opt_secs(osec(Some(
                                    done2@[done2@.len() - 1]))));
                            }
                        },
                        None => {
                            proof {
                                assert(secs_view(done2@) =~= prev + opt_secs(None));
                            }
                        },
                    }
                    let fresh = Section { path: p, entries: Vec::new() };
                    proof {
                        assert(entry_list_view(fresh.entries@) =~= Seq::<(Seq<char>, ItemV)>::empty());
                        assert(parse_secs(t@, i as int, ln as int, osec(cur), secs_view(done@))
                            == parse_secs(t@, e as int + 1, next_line(ln as int),
                                Some(SectionV { path: p, entries: Seq::<(Seq<char>, ItemV)>::empty() }),
                                secs_view(done@) + opt_secs(osec(cur))));
                    }
                    {
                        let nxt = if e < n { e + 1 } else { n };
                        proof {
                            if e >= n {
                                lemma_parse_secs_past_end(t@, e as int + 1, nxt as int,
                                    next_line(ln as int), osec(Some(fresh)), secs_view(done2@));
                            }
                        }
                        parse_secs_x(t, nxt, if ln < usize::MAX { ln + 1 } else { ln }, Some(fresh), done2)
                    }
                },
                None => Err(FormatError::UnknownSection { line: ln }),
            }
        } else {
            match parse_key_eq_x(line, 0) {
                Some((k, j)) => {
                    let value = line.substring_char(j, line_n);
                    match parse_item_x(value) {
                        Some(item) => match cur {
                            Some(sv) => {
                                let mut sv2 = sv;
                                let ghost prev = entry_list_view(sv2.entries@);
                                sv2.entries.push((k, item));
                                proof {
                                    assert(entry_list_view(sv2.entries@) =~= prev.push(
                                        (sv2.entries@[sv2.entries@.len() - 1].0@,
                                        sv2.entries@[sv2.entries@.len() - 1].1@),
                                    ));
                                    assert(parse_secs(t@, i as int, ln as int, osec(cur),
                                        secs_view(done@)) == parse_secs(t@, e as int + 1,
                                        next_line(ln as int), Some(sv2@), secs_view(done@)));
                                }
                                {
                        let nxt = if e < n { e + 1 } else { n };
                        proof {
                            if e >= n {
                                lemma_parse_secs_past_end(t@, e as int + 1, nxt as int,
                                    next_line(ln as int), osec(Some(sv2)), secs_view(done@));
                            }
                        }
                        parse_secs_x(t, nxt, if ln < usize::MAX { ln + 1 } else { ln }, Some(sv2), done)
                    }
                            },
                            None => Err(FormatError::OrphanEntry { line: ln }),
                        },
                        None => Err(FormatError::Syntax { line: ln }),
                    }
                },
                None => Err(FormatError::Syntax { line: ln }),
            }
        }
    }
}

} // verus!

// ---------------------------------------------------------------------------
// Executable rendering
// ---------------------------------------------------------------------------

verus! {

fn push_quoted(out: &mut String, s: &str)
    ensures
        final(out)@ == old(out)@ + quoted(s@),
{
    out.append("\"");
    out.append(s);
    out.append("\"");
    proof {
        reveal_strlit("\"");
        assert("\""@ =~= seq!['"']);
        assert(final(out)@ =~= old(out)@ + quoted(s@));
    }
}

fn is_bare_key_x(s: &str) -> (r: bool)
    ensures
        r == bare_key(s@),
{
    let n = s.unicode_len();
    if n == 0 {
        return false;
    }
    let mut i: usize = 0;
    while i < n
        invariant
            0 <= i <= n,
            n == s@.len(),
            forall|j: int| 0 <= j < i ==> bare_char(#[trigger] s@[j]),
        decreases n - i,
    {
        let c = s.get_char(i);
        let u = c as u32;
        let ok = (97 <= u && u <= 122) || (65 <= u && u <= 90) || (48 <= u && u <= 57) || u == 45
            || u == 95;
        proof {
            assert(ok == bare_char(c));
        }
        if !ok {
            return false;
        }
        i = i + 1;
    }
    true
}

fn push_key(out: &mut String, k: &str)
    ensures
        final(out)@ == old(out)@ + render_key(k@),
{
    if is_bare_key_x(k) {
        out.append(k);
    } else {
        push_quoted(out, k);
    }
}

fn push_scalar(out: &mut String, v: &ScalarItem)
    ensures
        final(out)@ == old(out)@ + render_scalar(v@),
{
    match v {
        ScalarItem::Text(s) => push_quoted(out, s.as_str()),
        ScalarItem::Flag(b) => {
            if *b {
                out.append("true");
            } else {
                out.append("false");
            }
        },
    }
}

fn push_list_items(out: &mut String, xs: &Vec<String>, i: usize)
    requires
        i <= xs.len(),
    ensures
        final(out)@ == old(out)@ + render_list_items(xs.deep_view(), i as int),
    decreases xs.len() - i,
{
    if i < xs.len() {
        push_quoted(out, xs[i].as_str());
        proof {
            assert(xs.deep_view()[i as int] == xs@[i as int]@);
        }
        if i + 1 < xs.len() {
            out.append(", ");
            push_list_items(out, xs, i + 1);
        }
    }
}

fn push_pairs(out: &mut String, ps: &Vec<(String, ScalarItem)>, i: usize)
    requires
        i <= ps.len(),
    ensures
        final(out)@ == old(out)@ + render_pairs(pairs_view(ps@), i as int),
    decreases ps.len() - i,
{
    if i < ps.len() {
        let (k, v) = &ps[i];
        push_key(out, k.as_str());
        out.append(" = ");
        push_scalar(out, v);
        proof {
            assert(pairs_view(ps@)[i as int] == (ps@[i as int].0@, ps@[i as int].1@));
        }
        if i + 1 < ps.len() {
            out.append(", ");
            push_pairs(out, ps, i + 1);
        }
    }
}

fn push_item(out: &mut String, item: &Item)
    ensures
        final(out)@ == old(out)@ + render_item(item@),
{
    match item {
        Item::Text(s) => push_quoted(out, s.as_str()),
        Item::Flag(b) => {
            if *b {
                out.append("true");
            } else {
                out.append("false");
            }
        },
        Item::List(xs) => {
            if xs.len() == 0 {
                out.append("[]");
            } else {
                out.append("[");
                push_list_items(out, xs, 0);
                out.append("]");
                proof {
                    reveal_strlit("[");
                    reveal_strlit("]");
                    assert("["@ =~= seq!['[']);
                    assert("]"@ =~= seq![']']);
                    assert(final(out)@ =~= old(out)@ + render_item(item@));
                }
            }
        },
        Item::Table(ps) => {
            if ps.len() == 0 {
                out.append("{}");
            } else {
                out.append("{ ");
                push_pairs(out, ps, 0);
                out.append(" }");
                proof {
                    assert(final(out)@ =~= old(out)@ + render_item(item@));
                }
            }
        },
    }
}

fn push_entries(out: &mut String, es: &Vec<(String, Item)>, i: usize)
    requires
        i <= es.len(),
    ensures
        final(out)@ == old(out)@ + render_entries(entry_list_view(es@), i as int),
    decreases es.len() - i,
{
    if i < es.len() {
        let (k, item) = &es[i];
        push_key(out, k.as_str());
        out.append(" = ");
        push_item(out, item);
        out.append("\n");
        proof {
            reveal_strlit("\n");
            assert("\n"@ =~= seq!['\n']);
            assert(entry_list_view(es@)[i as int] == (es@[i as int].0@, es@[i as int].1@));
        }
        push_entries(out, es, i + 1);
        proof {
            assert(final(out)@ =~= old(out)@ + render_entries(entry_list_view(es@), i as int));
        }
    }
}

fn push_header(out: &mut String, p: SectionPath)
    ensures
        final(out)@ == old(out)@ + header_text(p),
{
    match p {
        SectionPath::Project => out.append("[project]"),
        SectionPath::Build => out.append("[build]"),
        SectionPath::Targets => out.append("[targets]"),
        SectionPath::TargetsJvm => out.append("[targets.jvm]"),
        SectionPath::TargetsIosArm64 => out.append("[targets.ios-arm64]"),
        SectionPath::TargetsIosX64 => out.append("[targets.ios-x64]"),
        SectionPath::TargetsIosSimulatorArm64 => out.append("[targets.ios-simulator-arm64]"),
        SectionPath::TargetsLinuxX64 => out.append("[targets.linux-x64]"),
        SectionPath::TargetsMacosArm64 => out.append("[targets.macos-arm64]"),
        SectionPath::TargetsWindowsX64 => out.append("[targets.windows-x64]"),
        SectionPath::TargetsNative => out.append("[targets.native]"),
        SectionPath::TargetsNativeBinary => out.append("[targets.native.binary]"),
        SectionPath::Dependencies => out.append("[dependencies]"),
        SectionPath::DependenciesCommon => out.append("[dependencies.common]"),
        SectionPath::DependenciesJvm => out.append("[dependencies.jvm]"),
        SectionPath::DependenciesTest => out.append("[dependencies.test]"),
        SectionPath::Test => out.append("[test]"),
        SectionPath::Repositories => out.append("[repositories]"),
    }
}

pub(crate) fn push_sec(out: &mut String, s: &Section)
    ensures
        final(out)@ == old(out)@ + render_sec(s@),
{
    push_header(out, s.path);
    out.append("\n");
    push_entries(out, &s.entries, 0);
    out.append("\n");
    proof {
        reveal_strlit("\n");
        assert("\n"@ =~= seq!['\n']);
        assert(final(out)@ =~= old(out)@ + render_sec(s@));
    }
}

/// Render a section sequence in order.
pub(crate) fn push_secs(out: &mut String, ss: &Vec<Section>, i: usize)
    requires
        i <= ss.len(),
    ensures
        final(out)@ == old(out)@ + render_secs(secs_view(ss@), i as int),
    decreases ss.len() - i,
{
    if i < ss.len() {
        push_sec(out, &ss[i]);
        proof {
            assert(secs_view(ss@)[i as int] == ss@[i as int]@);
        }
        push_secs(out, ss, i + 1);
        proof {
            assert(final(out)@ =~= old(out)@ + render_secs(secs_view(ss@), i as int));
        }
    }
}

} // verus!
