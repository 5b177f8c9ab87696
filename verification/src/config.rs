//! The configuration document: one recognized key, `worktree_path`, whose
//! value names the directory under which all managed worktrees live. The
//! value stands in double quotes with `\"`, `\\` and `\n` escapes, so any
//! path survives a save and a later load. This module renders and parses
//! the document text; reading and writing the file itself happens outside
//! the crate.

use vstd::prelude::*;
use crate::strutil::{
    concat3,
    find_nl,
    is_prefix,
    lemma_find_nl_at,
    lemma_find_nl_bounds,
    lemma_find_nl_shift,
    lines_of,
    push_char,
    str_has_prefix,
    strip_cr,
};

verus! {

/// The loaded configuration, immutable for the process lifetime.
#[derive(Debug, PartialEq, Eq)]
pub struct GitsyConfig {
    pub worktree_path: String,
}

/// A config document that cannot be used: the key is missing, or its line
/// is not a quoted assignment.
#[derive(Clone, Copy, PartialEq, Eq, Structural, Debug)]
pub enum ConfigError {
    MissingField,
    MalformedDocument,
}

/// The one recognized key.
pub open spec fn cfg_key() -> Seq<char> {
    "worktree_path"@
}

/// The rendered form of one path character: double quote, backslash and
/// newline take a backslash escape, everything else stands as it is.
pub open spec fn esc_char(c: char) -> Seq<char> {
    if c == '"' {
        seq!['\\', '"']
    } else if c == '\\' {
        seq!['\\', '\\']
    } else if c == '\n' {
        seq!['\\', 'n']
    } else {
        seq![c]
    }
}

/// The escaped form of a whole path.
pub open spec fn escape_path(p: Seq<char>) -> Seq<char>
    decreases p.len(),
{
    if p.len() == 0 {
        Seq::empty()
    } else {
        esc_char(p[0]) + escape_path(p.drop_first())
    }
}

/// The rendered form of a configuration: the key, an equals sign, and the
/// escaped value in double quotes, on a single terminated line.
pub open spec fn spec_render_config(path: Seq<char>) -> Seq<char> {
    "worktree_path = \""@ + escape_path(path) + "\"\n"@
}

/// First index at or after `i` that does not hold a space.
pub open spec fn skip_spaces(l: Seq<char>, i: int) -> int
    decreases l.len() - i,
{
    if 0 <= i < l.len() && l[i] == ' ' {
        skip_spaces(l, i + 1)
    } else {
        i
    }
}

/// Everything at or after `i` is spaces.
pub open spec fn all_spaces(l: Seq<char>, i: int) -> bool {
    forall|j: int| i <= j < l.len() ==> l[j] == ' '
}

/// The unescaped value that starts at `i`, just inside the quotes, paired
/// with the index after the closing quote. `None` when the quote never
/// closes or an escape is not one of `\"`, `\\`, `\n`.
pub open spec fn scan_value(l: Seq<char>, i: int) -> Option<(Seq<char>, int)>
    decreases l.len() - i,
{
    if i < 0 || i >= l.len() {
        None
    } else if l[i] == '"' {
        Some((Seq::empty(), i + 1))
    } else if l[i] == '\\' {
        if i + 1 < l.len() && (l[i + 1] == '"' || l[i + 1] == '\\' || l[i + 1] == 'n') {
            let decoded = if l[i + 1] == 'n' {
                '\n'
            } else {
                l[i + 1]
            };
            match scan_value(l, i + 2) {
                Some(r) => Some((seq![decoded] + r.0, r.1)),
                None => None,
            }
        } else {
            None
        }
    } else {
        match scan_value(l, i + 1) {
            Some(r) => Some((seq![l[i]] + r.0, r.1)),
            None => None,
        }
    }
}

/// The value of a line that starts with the key: spaces, an equals sign,
/// spaces, and a quoted escaped value followed only by spaces. `None` when
/// the line has the key but not that shape.
pub open spec fn key_line_value(l: Seq<char>) -> Option<Seq<char>> {
    let a = skip_spaces(l, cfg_key().len() as int);
    if a < l.len() && l[a] == '=' {
        let b = skip_spaces(l, a + 1);
        if b < l.len() && l[b] == '"' {
            match scan_value(l, b + 1) {
                Some(r) => if all_spaces(l, r.1) {
                    Some(r.0)
                } else {
                    None
                },
                None => None,
            }
        } else {
            None
        }
    } else {
        None
    }
}

/// The configured path in the document: the first line that starts with
/// the key decides; no such line means the field is missing.
pub open spec fn doc_value(lines: Seq<Seq<char>>) -> Result<Seq<char>, ConfigError>
    decreases lines.len(),
{
    if lines.len() == 0 {
        Err(ConfigError::MissingField)
    } else if is_prefix(cfg_key(), lines[0]) {
        match key_line_value(lines[0]) {
            Some(v) => Ok(v),
            None => Err(ConfigError::MalformedDocument),
        }
    } else {
        doc_value(lines.drop_first())
    }
}

/// What parsing a whole document yields.
pub open spec fn spec_parse_config(text: Seq<char>) -> Result<Seq<char>, ConfigError> {
    doc_value(lines_of(text))
}

/// Escaping one more character extends the escaped form at its end.
proof fn lemma_escape_path_snoc(p: Seq<char>, c: char)
    ensures
        escape_path(p.push(c)) == escape_path(p) + esc_char(c),
    decreases p.len(),
{
    if p.len() == 0 {
        assert(p.push(c)[0] == c);
        assert(p.push(c).drop_first() =~= Seq::<char>::empty());
        assert(esc_char(c) + escape_path(Seq::<char>::empty()) =~= esc_char(c));
        assert(escape_path(p) + esc_char(c) =~= esc_char(c));
    } else {
        assert(p.push(c)[0] == p[0]);
        assert(p.push(c).drop_first() =~= p.drop_first().push(c));
        lemma_escape_path_snoc(p.drop_first(), c);
        assert(esc_char(p[0]) + (escape_path(p.drop_first()) + esc_char(c)) =~= (esc_char(p[0])
            + escape_path(p.drop_first())) + esc_char(c));
    }
}

/// The escaped form never holds a newline: the newline itself is rendered
/// as a backslash and the letter n.
proof fn lemma_escape_path_no_newline(p: Seq<char>)
    ensures
        forall|i: int| 0 <= i < escape_path(p).len() ==> escape_path(p)[i] != '\n',
    decreases p.len(),
{
    if p.len() > 0 {
        lemma_escape_path_no_newline(p.drop_first());
        let h = esc_char(p[0]);
        let t = escape_path(p.drop_first());
        assert(escape_path(p) == h + t);
        assert(forall|i: int| 0 <= i < h.len() ==> h[i] != '\n');
        assert forall|i: int| 0 <= i < escape_path(p).len() implies escape_path(p)[i] != '\n' by {
            if i < h.len() {
                assert(escape_path(p)[i] == h[i]);
            } else {
                assert(escape_path(p)[i] == t[i - h.len()]);
            }
        }
    }
}

/// Scanning an escaped path up to its closing quote recovers the path.
proof fn lemma_scan_escaped(l: Seq<char>, i: int, p: Seq<char>)
    requires
        0 <= i,
        i + escape_path(p).len() < l.len(),
        l.subrange(i, i + escape_path(p).len() as int) == escape_path(p),
        l[i + escape_path(p).len() as int] == '"',
    ensures
        scan_value(l, i) == Some((p, i + escape_path(p).len() + 1)),
    decreases p.len(),
{
    let esc = escape_path(p);
    if p.len() == 0 {
        assert(l[i] == '"');
        assert(p =~= Seq::<char>::empty());
    } else {
        let c = p[0];
        let p1 = p.drop_first();
        let e1 = escape_path(p1);
        let d = esc_char(c).len() as int;
        assert(esc == esc_char(c) + e1);
        assert(l.subrange(i, i + esc.len() as int)[0] == l[i]);
        assert(esc[0] == esc_char(c)[0]);
        if d == 2 {
            assert(l.subrange(i, i + esc.len() as int)[1] == l[i + 1]);
            assert(esc[1] == esc_char(c)[1]);
        }
        assert forall|j: int|
            0 <= j < e1.len() implies l.subrange(i + d, i + d + e1.len() as int)[j] == e1[j] by {
            assert(l.subrange(i, i + esc.len() as int)[d + j] == l[i + d + j]);
            assert(esc[d + j] == e1[j]);
            assert(l.subrange(i + d, i + d + e1.len() as int)[j] == l[i + d + j]);
        }
        assert(l.subrange(i + d, i + d + e1.len() as int) =~= e1);
        lemma_scan_escaped(l, i + d, p1);
        assert(seq![c] + p1 =~= p);
        if c == '"' {
            assert(l[i] == '\\' && l[i + 1] == '"');
        } else if c == '\\' {
            assert(l[i] == '\\' && l[i + 1] == '\\');
        } else if c == '\n' {
            assert(l[i] == '\\' && l[i + 1] == 'n');
        } else {
            assert(l[i] == c);
        }
    }
}

impl GitsyConfig {
    pub fn new(worktree_path: String) -> (c: GitsyConfig)
        ensures
            c.worktree_path@ == worktree_path@,
    {
        GitsyConfig { worktree_path }
    }

    /// Render the document that `parse_config` reads back.
    pub fn render(&self) -> (r: String)
        ensures
            r@ == spec_render_config(self.worktree_path@),
    {
        let s = self.worktree_path.as_str();
        let n = s.unicode_len();
        let mut acc = String::from_str("worktree_path = \"");
        let mut i: usize = 0;
        proof {
            assert(s@.subrange(0, 0) =~= Seq::<char>::empty());
            assert("worktree_path = \""@ + escape_path(Seq::<char>::empty())
                =~= "worktree_path = \""@);
        }
        while i < n
            invariant
                i <= n,
                n == s@.len(),
                s@ == self.worktree_path@,
                acc@ == "worktree_path = \""@ + escape_path(s@.subrange(0, i as int)),
            decreases n - i,
        {
            let c = s.get_char(i);
            if c == '"' {
                push_char(&mut acc, '\\');
                push_char(&mut acc, '"');
            } else if c == '\\' {
                push_char(&mut acc, '\\');
                push_char(&mut acc, '\\');
            } else if c == '\n' {
                push_char(&mut acc, '\\');
                push_char(&mut acc, 'n');
            } else {
                push_char(&mut acc, c);
            }
            proof {
                let p = s@.subrange(0, i as int);
                lemma_escape_path_snoc(p, c);
                assert(s@.subrange(0, i as int + 1) =~= p.push(c));
                assert(acc@ =~= "worktree_path = \""@ + escape_path(p.push(c)));
            }
            i = i + 1;
        }
        proof {
            assert(s@.subrange(0, n as int) =~= s@);
        }
        acc.concat("\"\n")
    }
}

proof fn lemma_skip_spaces_at(l: Seq<char>, i: int, k: int)
    requires
        0 <= i <= k <= l.len(),
        forall|j: int| i <= j < k ==> l[j] == ' ',
        k == l.len() || l[k] != ' ',
    ensures
        skip_spaces(l, i) == k,
    decreases k - i,
{
    if i < k {
        lemma_skip_spaces_at(l, i + 1, k);
    }
}

/// The value of one recognized key line; the caller has checked that the
/// line starts with the key.
#[verifier::loop_isolation(false)]
fn parse_key_line(line: &str) -> (r: Option<String>)
    requires
        is_prefix(cfg_key(), line@),
    ensures
        match key_line_value(line@) {
            Some(v) => r matches Some(s) && s@ == v,
            None => r is None,
        },
{
    proof {
        reveal_strlit("worktree_path");
    }
    let nl = line.unicode_len();
    let mut a: usize = 13;
    while a < nl && line.get_char(a) == ' '
        invariant
            13 <= a <= nl,
            nl == line@.len(),
            skip_spaces(line@, 13) == skip_spaces(line@, a as int),
        decreases nl - a,
    {
        a = a + 1;
    }
    proof {
        assert(skip_spaces(line@, a as int) == a as int);
    }
    if a >= nl || line.get_char(a) != '=' {
        return None;
    }
    let mut b: usize = a + 1;
    while b < nl && line.get_char(b) == ' '
        invariant
            a + 1 <= b <= nl,
            nl == line@.len(),
            skip_spaces(line@, a + 1) == skip_spaces(line@, b as int),
        decreases nl - b,
    {
        b = b + 1;
    }
    proof {
        assert(skip_spaces(line@, b as int) == b as int);
    }
    if b >= nl || line.get_char(b) != '"' {
        return None;
    }
    // Scan the quoted value, undoing the escapes, until the closing quote.
    let mut val = String::new();
    let mut e: usize = b + 1;
    proof {
        match scan_value(line@, b + 1) {
            Some(r) => {
                assert(Seq::<char>::empty() + r.0 =~= r.0);
            },
            None => {},
        }
    }
    while e < nl && line.get_char(e) != '"'
        invariant
            b + 1 <= e <= nl,
            nl == line@.len(),
            (scan_value(line@, e as int) matches Some(r) ==> scan_value(line@, b + 1) == Some(
                (val@ + r.0, r.1),
            )),
            (scan_value(line@, e as int) is None ==> scan_value(line@, b + 1) is None),
        decreases nl - e,
    {
        let ghost old_e = e as int;
        let ghost old_val = val@;
        if line.get_char(e) == '\\' {
            if e + 1 >= nl {
                proof {
                    assert(scan_value(line@, old_e) is None);
                }
                return None;
            }
            let c2 = line.get_char(e + 1);
            if c2 == '"' || c2 == '\\' || c2 == 'n' {
                let decoded = if c2 == 'n' {
                    '\n'
                } else {
                    c2
                };
                push_char(&mut val, decoded);
                e = e + 2;
                proof {
                    match scan_value(line@, e as int) {
                        Some(r) => {
                            assert(scan_value(line@, old_e) == Some(
                                (seq![decoded] + r.0, r.1),
                            ));
                            assert(old_val + (seq![decoded] + r.0) =~= val@ + r.0);
                        },
                        None => {
                            assert(scan_value(line@, old_e) is None);
                        },
                    }
                }
            } else {
                proof {
                    assert(scan_value(line@, old_e) is None);
                }
                return None;
            }
        } else {
            let d = line.get_char(e);
            push_char(&mut val, d);
            e = e + 1;
            proof {
                match scan_value(line@, e as int) {
                    Some(r) => {
                        assert(scan_value(line@, old_e) == Some((seq![d] + r.0, r.1)));
                        assert(old_val + (seq![d] + r.0) =~= val@ + r.0);
                    },
                    None => {
                        assert(scan_value(line@, old_e) is None);
                    },
                }
            }
        }
    }
    if e >= nl {
        proof {
            assert(scan_value(line@, e as int) is None);
        }
        return None;
    }
    proof {
        assert(scan_value(line@, e as int) == Some((Seq::<char>::empty(), e + 1)));
        assert(val@ + Seq::<char>::empty() =~= val@);
        assert(scan_value(line@, b + 1) == Some((val@, e + 1)));
    }
    let mut k: usize = e + 1;
    while k < nl
        invariant
            e + 1 <= k <= nl,
            nl == line@.len(),
            forall|j: int| e + 1 <= j < k ==> line@[j] == ' ',
        decreases nl - k,
    {
        if line.get_char(k) != ' ' {
            proof {
                assert(!all_spaces(line@, e + 1));
            }
            return None;
        }
        k = k + 1;
    }
    proof {
        assert(all_spaces(line@, e + 1));
    }
    Some(val)
}

/// Parse a config document. The first line that starts with the key
/// decides: its quoted value with the escapes undone, or a
/// malformed-document error; a document with no such line misses the
/// field.
pub fn parse_config(text: &str) -> (r: Result<GitsyConfig, ConfigError>)
    ensures
        match spec_parse_config(text@) {
            Ok(v) => r matches Ok(c) && c.worktree_path@ == v,
            Err(e) => r matches Err(e2) && e2 == e,
        },
{
    let n = text.unicode_len();
    let mut i: usize = 0;
    proof {
        assert(text@.subrange(0, n as int) =~= text@);
    }
    while i < n
        invariant
            i <= n,
            n == text@.len(),
            doc_value(lines_of(text@.subrange(i as int, n as int))) == spec_parse_config(text@),
        decreases n - i,
    {
        let ghost suffix = text@.subrange(i as int, n as int);
        let mut j: usize = i;
        while j < n && text.get_char(j) != '\n'
            invariant
                i <= j <= n,
                n == text@.len(),
                find_nl(text@, i as int) == find_nl(text@, j as int),
            decreases n - j,
        {
            j = j + 1;
        }
        proof {
            lemma_find_nl_bounds(text@, j as int);
            assert(j == find_nl(text@, i as int));
            lemma_find_nl_shift(text@, i as int, i as int);
            assert(find_nl(suffix, 0) == j - i);
        }
        let mut line_end = j;
        if j < n && line_end > i && text.get_char(line_end - 1) == '\r' {
            line_end = line_end - 1;
        }
        let line = text.substring_char(i, line_end);
        let ghost rest_suffix = text@.subrange(if j < n { j + 1 } else { n as int }, n as int);
        proof {
            if j < n {
                assert(suffix.subrange(0, j - i) =~= text@.subrange(i as int, j as int));
                assert(suffix.subrange(j - i + 1, suffix.len() as int) =~= rest_suffix);
                assert(line@ =~= strip_cr(text@.subrange(i as int, j as int)));
                assert(lines_of(suffix) == seq![line@] + lines_of(rest_suffix));
            } else {
                assert(line@ =~= suffix);
                assert(rest_suffix =~= Seq::<char>::empty());
                assert(lines_of(suffix) == seq![line@] + lines_of(rest_suffix));
            }
            assert((seq![line@] + lines_of(rest_suffix)).drop_first() =~= lines_of(rest_suffix));
            assert((seq![line@] + lines_of(rest_suffix))[0] == line@);
        }
        if str_has_prefix(line, "worktree_path") {
            match parse_key_line(line) {
                Some(v) => {
                    return Ok(GitsyConfig { worktree_path: v });
                },
                None => {
                    return Err(ConfigError::MalformedDocument);
                },
            }
        }
        i = if j < n {
            j + 1
        } else {
            n
        };
    }
    proof {
        assert(text@.subrange(n as int, n as int) =~= Seq::<char>::empty());
    }
    Err(ConfigError::MissingField)
}

/// Parsing a rendered configuration returns exactly the rendered path,
/// whatever characters the path holds.
pub proof fn lemma_config_round_trip(path: Seq<char>)
    ensures
        spec_parse_config(spec_render_config(path)) == Ok::<Seq<char>, ConfigError>(path),
{
    reveal_strlit("worktree_path");
    reveal_strlit("worktree_path = \"");
    reveal_strlit("\"\n");
    let pre = "worktree_path = \""@;
    let post = "\"\n"@;
    let esc = escape_path(path);
    let doc = spec_render_config(path);
    let len = doc.len() as int;
    lemma_escape_path_no_newline(path);
    assert(len == 19 + esc.len());
    assert(doc[len - 1] == '\n');
    assert(forall|j: int| 0 <= j < len - 1 ==> doc[j] != '\n') by {
        assert(forall|j: int| 0 <= j < 17 ==> doc[j] == pre[j]);
        assert(forall|j: int| 17 <= j < 17 + esc.len() ==> doc[j] == esc[j - 17]);
        assert(doc[len - 2] == post[0]);
    }
    lemma_find_nl_at(doc, 0, len - 1);
    let line = doc.subrange(0, len - 1);
    assert(line[line.len() - 1] == '"');
    assert(strip_cr(line) == line);
    assert(doc.subrange(len, len) =~= Seq::<char>::empty());
    assert(lines_of(doc) == seq![line] + lines_of(Seq::<char>::empty()));
    assert(lines_of(doc) =~= seq![line]);
    // The single line starts with the key and parses back to the path.
    assert(line.subrange(0, 13) =~= cfg_key());
    assert(is_prefix(cfg_key(), line));
    assert(line[13] == ' ' && line[14] == '=');
    lemma_skip_spaces_at(line, 13, 14);
    assert(line[15] == ' ' && line[16] == '"');
    lemma_skip_spaces_at(line, 15, 16);
    assert(line.subrange(17, 17 + esc.len() as int) =~= esc);
    assert(line[17 + esc.len() as int] == '"');
    lemma_scan_escaped(line, 17, path);
    assert(scan_value(line, 17) == Some((path, 18 + esc.len() as int)));
    assert(all_spaces(line, 18 + esc.len() as int));
    assert(key_line_value(line) == Some(path));
    assert(doc_value(seq![line]) == Ok::<Seq<char>, ConfigError>(path));
}

} // verus!
