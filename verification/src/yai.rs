//! Yet another INI-like file parser.
//!
//! A parser for the somewhat simplified format of the os-release file as
//! found in recent Linux distributions: one `NAME=VALUE` entry per line,
//! with POSIX-shell-like quoting and backslash escaping, and with blank
//! and comment lines ignored.
//!
//! The grammar, applied independently to each line:
//! - a line of whitespace, optionally followed by `#` and arbitrary text,
//!   is a comment and produces no entry;
//! - otherwise the line must be `NAME=VALUE`, where `NAME` is one or more
//!   characters from `[A-Za-z0-9_]`;
//! - a single-quoted value is taken verbatim and may not contain another
//!   single quote;
//! - a double-quoted or unquoted value has each `\X` collapsed to `X`; an
//!   escape with no following character is an error.

use vstd::prelude::*;

use crate::strutil::{chars_to_string, line_seq, split_lines, str_eq, to_chars};

verus! {

/// An error that occurred during parsing.
#[derive(Debug)]
pub enum YAIError {
    /// A backslash at the end of the line.
    BackslashAtEnd(String),
    /// An invalid line in the os-release file.
    BadLine(String),
    /// A quoted value contains the quote character.
    QuoteInQuoted(String),
    /// Mismatched open/close quotes.
    MismatchedQuotes(String),
    /// Could not read the os-release file.
    FileRead(String),
    /// An internal error occurred.
    Internal(String),
}

/// The ways a line can fail to parse.
#[derive(Debug, Clone, Copy, PartialEq, Eq, Structural)]
pub enum Reject {
    /// A backslash at the end of the line.
    BackslashAtEnd,
    /// The line matches neither the comment nor the `NAME=VALUE` form.
    BadLine,
    /// A single-quoted value contains another single quote.
    QuoteInQuoted,
    /// An opening quote without the matching closing quote.
    MismatchedQuotes,
}

/// What parsing a single line yields: nothing, an entry, or a rejection.
pub enum LineParse {
    /// A comment or blank line.
    Skip,
    /// A `NAME=VALUE` entry, decoded.
    Entry { key: Seq<char>, value: Seq<char> },
    /// The line is rejected.
    Fail { kind: Reject },
}

/// True for the characters a key name may consist of.
pub open spec fn is_name_char(c: char) -> bool {
    ('A' <= c && c <= 'Z') || ('a' <= c && c <= 'z') || ('0' <= c && c <= '9') || c == '_'
}

/// The whitespace that may precede a comment marker.
pub open spec fn is_space_char(c: char) -> bool {
    c == ' ' || c == '\t' || c == '\r' || c == '\u{b}' || c == '\u{c}'
}

/// A quote character.
pub open spec fn is_quote(c: char) -> bool {
    c == '\'' || c == '"'
}

/// True when the text holds a single-quote character anywhere.
pub open spec fn has_single_quote(s: Seq<char>) -> bool {
    exists|k: int| 0 <= k < s.len() && s[k] == '\''
}

/// True when the line, from position `i` on, is whitespace optionally
/// followed by `#` and arbitrary text.
pub open spec fn comment_from(s: Seq<char>, i: int) -> bool
    decreases s.len() - i,
{
    if i < 0 || i >= s.len() {
        true
    } else if s[i] == '#' {
        true
    } else if is_space_char(s[i]) {
        comment_from(s, i + 1)
    } else {
        false
    }
}

/// True for a comment or blank line.
pub open spec fn is_comment_line(s: Seq<char>) -> bool {
    comment_from(s, 0)
}

/// The position right after the run of name characters starting at `i`.
pub open spec fn name_end(s: Seq<char>, i: int) -> int
    decreases s.len() - i,
{
    if i < 0 || i >= s.len() {
        s.len() as int
    } else if is_name_char(s[i]) {
        name_end(s, i + 1)
    } else {
        i
    }
}

/// Backslash-escape collapsing, folded over the characters from the left:
/// the first component tells whether an escape is still pending at the end
/// (a trailing backslash), the second holds the collapsed text.
pub open spec fn collapse(s: Seq<char>) -> (bool, Seq<char>)
    decreases s.len(),
{
    if s.len() == 0 {
        (false, Seq::empty())
    } else {
        let p = collapse(s.drop_last());
        if p.0 || s.last() != '\\' {
            (false, p.1.push(s.last()))
        } else {
            (true, p.1)
        }
    }
}

/// How the text after the `=` sign is decoded into a value.
///
/// A leading quote opens a quoted value; the closing quote is the line's
/// last character when that is a quote character. A single-quoted value is
/// taken verbatim and may not contain a single quote; a double-quoted or
/// unquoted one has its backslash escapes collapsed.
pub open spec fn value_parse(rest: Seq<char>) -> Result<Seq<char>, Reject> {
    if rest.len() > 0 && rest[0] == '\'' {
        let tail = rest.drop_first();
        let quoted = if tail.len() > 0 && is_quote(tail.last()) {
            tail.drop_last()
        } else {
            tail
        };
        if has_single_quote(quoted) {
            Err(Reject::QuoteInQuoted)
        } else if !(tail.len() > 0 && tail.last() == '\'') {
            Err(Reject::MismatchedQuotes)
        } else {
            Ok(quoted)
        }
    } else if rest.len() > 0 && rest[0] == '"' {
        let tail = rest.drop_first();
        let quoted = if tail.len() > 0 && is_quote(tail.last()) {
            tail.drop_last()
        } else {
            tail
        };
        if !(tail.len() > 0 && tail.last() == '"') {
            Err(Reject::MismatchedQuotes)
        } else if collapse(quoted).0 {
            Err(Reject::BackslashAtEnd)
        } else {
            Ok(collapse(quoted).1)
        }
    } else {
        if collapse(rest).0 {
            Err(Reject::BackslashAtEnd)
        } else {
            Ok(collapse(rest).1)
        }
    }
}

proof fn lemma_all_spaces_comment(s: Seq<char>, i: int)
    requires
        0 <= i <= s.len(),
        forall|k: int| i <= k < s.len() ==> is_space_char(#[trigger] s[k]),
    ensures
        comment_from(s, i),
    decreases s.len() - i,
{
    if i < s.len() {
        lemma_all_spaces_comment(s, i + 1);
    }
}

proof fn lemma_spaces_then_hash_comment(s: Seq<char>, i: int, h: int)
    requires
        0 <= i <= h < s.len(),
        s[h] == '#',
        forall|k: int| i <= k < h ==> is_space_char(#[trigger] s[k]),
    ensures
        comment_from(s, i),
    decreases h - i,
{
    if i < h {
        lemma_spaces_then_hash_comment(s, i + 1, h);
    }
}

/// A line consisting of whitespace alone, or of whitespace followed by a
/// `#` and arbitrary text, is a comment: it parses to no entry and to no
/// error.
pub proof fn lemma_comment_lines(s: Seq<char>)
    requires
        (forall|k: int| 0 <= k < s.len() ==> is_space_char(#[trigger] s[k])) || (exists|h: int|
            0 <= h < s.len() && s[h] == '#' && (forall|k: int|
                0 <= k < h ==> is_space_char(#[trigger] s[k]))),
    ensures
        line_parse(s) == LineParse::Skip,
{
    if forall|k: int| 0 <= k < s.len() ==> is_space_char(#[trigger] s[k]) {
        lemma_all_spaces_comment(s, 0);
    } else {
        let h = choose|h: int|
            0 <= h < s.len() && s[h] == '#' && (forall|k: int|
                0 <= k < h ==> is_space_char(#[trigger] s[k]));
        lemma_spaces_then_hash_comment(s, 0, h);
    }
}

/// The complete model of parsing one line.
pub open spec fn line_parse(s: Seq<char>) -> LineParse {
    if is_comment_line(s) {
        LineParse::Skip
    } else {
        let n = name_end(s, 0);
        if 1 <= n && n < s.len() && s[n] == '=' {
            match value_parse(s.subrange(n + 1, s.len() as int)) {
                Ok(v) => LineParse::Entry { key: s.subrange(0, n), value: v },
                Err(kind) => LineParse::Fail { kind },
            }
        } else {
            LineParse::Fail { kind: Reject::BadLine }
        }
    }
}

/// True when the returned value is the one the model prescribes for the
/// line: an entry's key and value match, a rejected line yields the error
/// of the right kind carrying the offending line itself.
pub open spec fn line_result_matches(
    s: Seq<char>,
    r: Result<Option<(String, String)>, YAIError>,
) -> bool {
    match line_parse(s) {
        LineParse::Skip => r matches Ok(None),
        LineParse::Entry { key, value } => {
            r matches Ok(Some(kv)) && kv.0@ == key && kv.1@ == value
        },
        LineParse::Fail { kind } => match kind {
            Reject::BackslashAtEnd => r matches Err(YAIError::BackslashAtEnd(l)) && l@ == s,
            Reject::BadLine => r matches Err(YAIError::BadLine(l)) && l@ == s,
            Reject::QuoteInQuoted => r matches Err(YAIError::QuoteInQuoted(l)) && l@ == s,
            Reject::MismatchedQuotes => r matches Err(YAIError::MismatchedQuotes(l)) && l@ == s,
        },
    }
}

/// Tests a character for membership in the key-name alphabet.
fn name_char(c: char) -> (r: bool)
    ensures
        r == is_name_char(c),
{
    ('A' <= c && c <= 'Z') || ('a' <= c && c <= 'z') || ('0' <= c && c <= '9') || c == '_'
}

/// Tests a character for being comment-leading whitespace.
fn space_char(c: char) -> (r: bool)
    ensures
        r == is_space_char(c),
{
    c == ' ' || c == '\t' || c == '\r' || c == '\u{b}' || c == '\u{c}'
}

/// Collapses backslash escapes over `cs[from..to]`, reporting a pending
/// escape (a trailing backslash) alongside the collapsed characters.
fn collapse_range(cs: &Vec<char>, from: usize, to: usize) -> (r: (bool, Vec<char>))
    requires
        from <= to <= cs@.len(),
    ensures
        r.0 == collapse(cs@.subrange(from as int, to as int)).0,
        r.1@ == collapse(cs@.subrange(from as int, to as int)).1,
{
    let mut esc: bool = false;
    let mut acc: Vec<char> = Vec::new();
    let mut i: usize = from;
    while i < to
        invariant
            from <= i <= to <= cs@.len(),
            esc == collapse(cs@.subrange(from as int, i as int)).0,
            acc@ == collapse(cs@.subrange(from as int, i as int)).1,
        decreases to - i,
    {
        let c = cs[i];
        proof {
            assert(cs@.subrange(from as int, i + 1 as int).drop_last() =~= cs@.subrange(
                from as int,
                i as int,
            ));
            assert(cs@.subrange(from as int, i + 1 as int).last() == cs@[i as int]);
        }
        if esc || c != '\\' {
            acc.push(c);
            esc = false;
        } else {
            esc = true;
        }
        i = i + 1;
    }
    (esc, acc)
}

/// Copies `cs[from..to]` into a fresh string.
fn range_to_string(cs: &Vec<char>, from: usize, to: usize) -> (r: String)
    requires
        from <= to <= cs@.len(),
    ensures
        r@ == cs@.subrange(from as int, to as int),
{
    let mut v: Vec<char> = Vec::new();
    let mut i: usize = from;
    while i < to
        invariant
            from <= i <= to <= cs@.len(),
            v@ == cs@.subrange(from as int, i as int),
        decreases to - i,
    {
        v.push(cs[i]);
        i = i + 1;
        proof {
            assert(v@ =~= cs@.subrange(from as int, i as int));
        }
    }
    chars_to_string(&v)
}

/// Parses one line, given as its characters.
#[verifier::loop_isolation(false)]
pub fn parse_line_chars(cs: &Vec<char>) -> (r: Result<Option<(String, String)>, YAIError>)
    ensures
        line_result_matches(cs@, r),
{
    let n: usize = cs.len();

    // Does the comment branch of the grammar accept the line?
    let mut i: usize = 0;
    while i < n && space_char(cs[i])
        invariant
            i <= n,
            n == cs@.len(),
            is_comment_line(cs@) == comment_from(cs@, i as int),
        decreases n - i,
    {
        i = i + 1;
    }
    if i == n || cs[i] == '#' {
        return Ok(None);
    }
    assert(!is_comment_line(cs@));

    // Scan the key name; an `=` must follow it.
    let mut j: usize = 0;
    while j < n && name_char(cs[j])
        invariant
            j <= n,
            n == cs@.len(),
            name_end(cs@, 0) == name_end(cs@, j as int),
        decreases n - j,
    {
        j = j + 1;
    }
    assert(name_end(cs@, 0) == j);
    if j == 0 || j == n || cs[j] != '=' {
        return Err(YAIError::BadLine(chars_to_string(cs)));
    }
    let name = range_to_string(cs, 0, j);

    // Decode the value after the `=`.
    let b: usize = j + 1;
    let ghost rest = cs@.subrange(b as int, n as int);

    if b < n && (cs[b] == '\'' || cs[b] == '"') {
        let single = cs[b] == '\'';
        // The closing quote is the line's last character, when that is a
        // quote character at all.
        let has_close = n > b + 1 && (cs[n - 1] == '\'' || cs[n - 1] == '"');
        let qend: usize = if has_close {
            n - 1
        } else {
            n
        };
        proof {
            assert(rest.drop_first() =~= cs@.subrange(b + 1 as int, n as int));
            if rest.drop_first().len() > 0 {
                assert(rest.drop_first().last() == cs@[n - 1 as int]);
                assert(rest.drop_first().drop_last() =~= cs@.subrange(b + 1 as int, n - 1 as int));
            }
            assert(cs@.subrange(b + 1 as int, qend as int) == if rest.drop_first().len() > 0
                && is_quote(rest.drop_first().last()) {
                rest.drop_first().drop_last()
            } else {
                rest.drop_first()
            });
        }
        if single {
            // Verbatim value; a stray single quote inside is an error.
            let ghost quoted = cs@.subrange(b + 1 as int, qend as int);
            let mut k: usize = b + 1;
            while k < qend
                invariant
                    b + 1 <= k <= qend <= n,
                    n == cs@.len(),
                    quoted == cs@.subrange(b + 1 as int, qend as int),
                    forall|m: int| b + 1 <= m < k ==> cs@[m] != '\'',
                decreases qend - k,
            {
                if cs[k] == '\'' {
                    proof {
                        assert(0 <= k - (b + 1) < quoted.len() && quoted[k - (b + 1)] == '\'');
                        assert(has_single_quote(quoted));
                    }
                    return Err(YAIError::QuoteInQuoted(chars_to_string(cs)));
                }
                k = k + 1;
            }
            proof {
                assert(forall|m: int| 0 <= m < quoted.len() ==> quoted[m] == cs@[m + b + 1]);
                assert(forall|m: int| 0 <= m < quoted.len() ==> quoted[m] != '\'');
                assert(!has_single_quote(quoted));
            }
            if !(has_close && cs[n - 1] == '\'') {
                return Err(YAIError::MismatchedQuotes(chars_to_string(cs)));
            }
            let value = range_to_string(cs, b + 1, qend);
            return Ok(Some((name, value)));
        } else {
            if !(has_close && cs[n - 1] == '"') {
                return Err(YAIError::MismatchedQuotes(chars_to_string(cs)));
            }
            let (pending, collapsed) = collapse_range(cs, b + 1, qend);
            if pending {
                return Err(YAIError::BackslashAtEnd(chars_to_string(cs)));
            }
            let value = chars_to_string(&collapsed);
            return Ok(Some((name, value)));
        }
    } else {
        // Unquoted: the whole remainder, escapes collapsed.
        let (pending, collapsed) = collapse_range(cs, b, n);
        if pending {
            return Err(YAIError::BackslashAtEnd(chars_to_string(cs)));
        }
        let value = chars_to_string(&collapsed);
        return Ok(Some((name, value)));
    }
}

/// Parses one line of an os-release-style file.
///
/// A comment or blank line yields no entry; a `NAME=VALUE` line yields the
/// name and the decoded value; anything else is rejected with an error
/// naming the offending line.
pub fn parse_line(line: &str) -> (r: Result<Option<(String, String)>, YAIError>)
    ensures
        line_result_matches(line@, r),
{
    let cs = to_chars(line);
    parse_line_chars(&cs)
}

/// The mapping described by a sequence of entries: later entries override
/// earlier ones with the same key.
pub open spec fn entries_map(s: Seq<(String, String)>) -> Map<Seq<char>, Seq<char>>
    decreases s.len(),
{
    if s.len() == 0 {
        Map::empty()
    } else {
        entries_map(s.drop_last()).insert(s.last().0@, s.last().1@)
    }
}

/// True when no key occurs twice among the entries.
pub open spec fn unique_keys(s: Seq<(String, String)>) -> bool {
    forall|i: int, j: int| 0 <= i < j < s.len() ==> s[i].0@ != s[j].0@
}

proof fn lemma_entries_map_dom(s: Seq<(String, String)>)
    ensures
        forall|k: Seq<char>|
            #[trigger] entries_map(s).dom().contains(k) <==> exists|i: int|
                0 <= i < s.len() && s[i].0@ == k,
    decreases s.len(),
{
    if s.len() > 0 {
        let d = s.drop_last();
        lemma_entries_map_dom(d);
        assert forall|k: Seq<char>|
            #[trigger] entries_map(s).dom().contains(k) <==> (exists|i: int|
                0 <= i < s.len() && s[i].0@ == k) by {
            if entries_map(s).dom().contains(k) {
                if k == s.last().0@ {
                    assert(s[s.len() - 1].0@ == k);
                } else {
                    assert(entries_map(d).dom().contains(k));
                    let i = choose|i: int| 0 <= i < d.len() && d[i].0@ == k;
                    assert(d[i] == s[i]);
                    assert(s[i].0@ == k);
                }
            }
            if exists|i: int| 0 <= i < s.len() && s[i].0@ == k {
                let i = choose|i: int| 0 <= i < s.len() && s[i].0@ == k;
                if i == s.len() - 1 {
                    assert(entries_map(s).dom().contains(k));
                } else {
                    assert(d[i] == s[i]);
                    assert(d[i].0@ == k);
                    assert(entries_map(d).dom().contains(k));
                    assert(entries_map(s).dom().contains(k));
                }
            }
        }
    }
}

proof fn lemma_entries_map_at(s: Seq<(String, String)>, i: int)
    requires
        0 <= i < s.len(),
        forall|j: int| i < j < s.len() ==> s[j].0@ != s[i].0@,
    ensures
        entries_map(s).dom().contains(s[i].0@),
        entries_map(s)[s[i].0@] == s[i].1@,
    decreases s.len(),
{
    if i < s.len() - 1 {
        assert(s.drop_last()[i] == s[i]);
        lemma_entries_map_at(s.drop_last(), i);
    }
}

proof fn lemma_entries_map_absent(s: Seq<(String, String)>, k: Seq<char>)
    requires
        forall|i: int| 0 <= i < s.len() ==> s[i].0@ != k,
    ensures
        !entries_map(s).dom().contains(k),
{
    lemma_entries_map_dom(s);
}

proof fn lemma_entries_map_finite(s: Seq<(String, String)>)
    ensures
        entries_map(s).dom().finite(),
    decreases s.len(),
{
    if s.len() > 0 {
        lemma_entries_map_finite(s.drop_last());
    }
}

proof fn lemma_entries_map_card(s: Seq<(String, String)>)
    requires
        unique_keys(s),
    ensures
        entries_map(s).dom().len() == s.len(),
    decreases s.len(),
{
    if s.len() > 0 {
        assert(unique_keys(s.drop_last()));
        lemma_entries_map_card(s.drop_last());
        lemma_entries_map_finite(s.drop_last());
        lemma_entries_map_absent(s.drop_last(), s.last().0@);
    }
}

proof fn lemma_entries_map_update(s: Seq<(String, String)>, i: int, e: (String, String))
    requires
        unique_keys(s),
        0 <= i < s.len(),
        e.0@ == s[i].0@,
    ensures
        entries_map(s.update(i, e)) == entries_map(s).insert(e.0@, e.1@),
        unique_keys(s.update(i, e)),
    decreases s.len(),
{
    let t = s.update(i, e);
    assert(unique_keys(t));
    if i == s.len() - 1 {
        assert(t.drop_last() =~= s.drop_last());
        assert(entries_map(t) == entries_map(s.drop_last()).insert(e.0@, e.1@));
        assert(entries_map(s.drop_last()).insert(s.last().0@, s.last().1@).insert(e.0@, e.1@)
            =~= entries_map(s.drop_last()).insert(e.0@, e.1@));
    } else {
        assert(t.drop_last() =~= s.drop_last().update(i, e));
        assert(s.drop_last()[i] == s[i]);
        assert(unique_keys(s.drop_last()));
        lemma_entries_map_update(s.drop_last(), i, e);
        assert(t.last() == s.last());
        assert(entries_map(t) == entries_map(s.drop_last()).insert(e.0@, e.1@).insert(
            s.last().0@,
            s.last().1@,
        ));
        // The two keys differ, so the insertions commute.
        assert(s.last().0@ != e.0@);
        assert(entries_map(s.drop_last()).insert(e.0@, e.1@).insert(s.last().0@, s.last().1@)
            =~= entries_map(s.drop_last()).insert(s.last().0@, s.last().1@).insert(e.0@, e.1@));
    }
}

/// A mapping of key names to decoded values, as parsed from an
/// os-release-style file. Each key is held at most once; inserting an
/// existing key replaces its value.
pub struct KeyValues {
    entries: Vec<(String, String)>,
}

impl View for KeyValues {
    type V = Map<Seq<char>, Seq<char>>;

    closed spec fn view(&self) -> Map<Seq<char>, Seq<char>> {
        entries_map(self.entries@)
    }
}

impl KeyValues {
    /// Each key occurs at most once among the stored entries.
    pub closed spec fn wf(self) -> bool {
        unique_keys(self.entries@)
    }

    /// Creates an empty mapping.
    pub fn new() -> (r: KeyValues)
        ensures
            r@ == Map::<Seq<char>, Seq<char>>::empty(),
            r.wf(),
    {
        KeyValues { entries: Vec::new() }
    }

    /// Adds an entry, replacing the value of a key already present.
    #[verifier::loop_isolation(false)]
    pub fn insert(&mut self, key: String, value: String)
        requires
            old(self).wf(),
        ensures
            final(self).wf(),
            final(self)@ == old(self)@.insert(key@, value@),
    {
        let n: usize = self.entries.len();
        let mut i: usize = 0;
        while i < n
            invariant
                i <= n,
                self.entries@ == old(self).entries@,
                forall|j: int| 0 <= j < i ==> self.entries@[j].0@ != key@,
            decreases n - i,
        {
            if str_eq(self.entries[i].0.as_str(), key.as_str()) {
                proof {
                    lemma_entries_map_update(self.entries@, i as int, (key, value));
                }
                self.entries[i] = (key, value);
                return;
            }
            i = i + 1;
        }
        proof {
            lemma_entries_map_absent(self.entries@, key@);
            let t = self.entries@.push((key, value));
            assert(t.drop_last() =~= self.entries@);
            assert forall|a: int, b: int| 0 <= a < b < t.len() implies t[a].0@ != t[b].0@ by {
                if b == t.len() - 1 {
                    assert(t[a] == self.entries@[a]);
                }
            }
        }
        self.entries.push((key, value));
    }

    /// Looks a key up, returning a reference to its value when present.
    #[verifier::loop_isolation(false)]
    pub fn get<'a>(&'a self, key: &str) -> (r: Option<&'a String>)
        requires
            self.wf(),
        ensures
            r is Some <==> self@.dom().contains(key@),
            r matches Some(v) ==> v@ == self@[key@],
    {
        let n: usize = self.entries.len();
        let mut i: usize = 0;
        while i < n
            invariant
                i <= n,
                n == self.entries@.len(),
                forall|j: int| 0 <= j < i ==> self.entries@[j].0@ != key@,
            decreases n - i,
        {
            if str_eq(self.entries[i].0.as_str(), key) {
                proof {
                    lemma_entries_map_at(self.entries@, i as int);
                }
                return Some(&self.entries[i].1);
            }
            i = i + 1;
        }
        proof {
            lemma_entries_map_absent(self.entries@, key@);
        }
        None
    }

    /// The number of keys held.
    pub fn len(&self) -> (r: usize)
        requires
            self.wf(),
        ensures
            r == self@.dom().len(),
    {
        proof {
            lemma_entries_map_card(self.entries@);
        }
        self.entries.len()
    }
}

/// The mapping obtained by folding the parsed lines from position `i` on
/// into `acc`, or the first rejected line with the kind of its rejection.
pub open spec fn parse_lines_from(
    ls: Seq<Seq<char>>,
    i: int,
    acc: Map<Seq<char>, Seq<char>>,
) -> Result<Map<Seq<char>, Seq<char>>, (Reject, Seq<char>)>
    decreases ls.len() - i,
{
    if i < 0 || i >= ls.len() {
        Ok(acc)
    } else {
        match line_parse(ls[i]) {
            LineParse::Skip => parse_lines_from(ls, i + 1, acc),
            LineParse::Entry { key, value } => parse_lines_from(ls, i + 1, acc.insert(key, value)),
            LineParse::Fail { kind } => Err((kind, ls[i])),
        }
    }
}

/// The complete model of parsing a whole text: its lines folded in order
/// into a mapping, where later lines override earlier ones, or the first
/// rejected line.
pub open spec fn text_parse(t: Seq<char>) -> Result<
    Map<Seq<char>, Seq<char>>,
    (Reject, Seq<char>),
> {
    parse_lines_from(line_seq(t), 0, Map::empty())
}

/// True when the returned value is the one the model prescribes for the
/// whole text.
pub open spec fn text_result_matches(t: Seq<char>, r: Result<KeyValues, YAIError>) -> bool {
    match text_parse(t) {
        Ok(m) => r matches Ok(kv) && kv@ == m && kv.wf(),
        Err((kind, l)) => match kind {
            Reject::BackslashAtEnd => r matches Err(YAIError::BackslashAtEnd(s)) && s@ == l,
            Reject::BadLine => r matches Err(YAIError::BadLine(s)) && s@ == l,
            Reject::QuoteInQuoted => r matches Err(YAIError::QuoteInQuoted(s)) && s@ == l,
            Reject::MismatchedQuotes => r matches Err(YAIError::MismatchedQuotes(s)) && s@ == l,
        },
    }
}

/// Parses a whole os-release-style text, line by line.
///
/// Comment and blank lines are ignored; each `NAME=VALUE` line adds an
/// entry, a later line overriding an earlier one with the same name; the
/// first malformed line makes the whole parse fail with its error.
#[verifier::loop_isolation(false)]
pub fn parse_text(text: &str) -> (r: Result<KeyValues, YAIError>)
    ensures
        text_result_matches(text@, r),
{
    let cs = to_chars(text);
    let lines = split_lines(&cs);
    let ghost ls = lines.deep_view();
    proof {
        assert(ls == line_seq(text@));
    }
    let mut kv = KeyValues::new();
    let n: usize = lines.len();
    let mut i: usize = 0;
    while i < n
        invariant
            i <= n,
            n == lines@.len(),
            kv.wf(),
            text_parse(text@) == parse_lines_from(ls, i as int, kv@),
        decreases n - i,
    {
        proof {
            assert(ls[i as int] == lines@[i as int].deep_view());
            assert(ls[i as int] =~= lines@[i as int]@);
        }
        let r = parse_line_chars(&lines[i]);
        proof {
            assert(line_result_matches(ls[i as int], r));
        }
        match r {
            Ok(None) => {
                proof {
                    assert(line_parse(ls[i as int]) is Skip);
                    assert(parse_lines_from(ls, i as int, kv@) == parse_lines_from(
                        ls,
                        i + 1,
                        kv@,
                    ));
                }
            },
            Ok(Some(entry)) => {
                proof {
                    assert(line_parse(ls[i as int]) is Entry);
                }
                let ghost lm = line_parse(ls[i as int]);
                let (key, value) = entry;
                proof {
                    assert(key@ == lm->key && value@ == lm->value);
                    assert(parse_lines_from(ls, i as int, kv@) == parse_lines_from(
                        ls,
                        i + 1,
                        kv@.insert(lm->key, lm->value),
                    ));
                }
                kv.insert(key, value);
            },
            Err(e) => {
                proof {
                    assert(line_parse(ls[i as int]) is Fail);
                }
                return Err(e);
            },
        }
        i = i + 1;
    }
    Ok(kv)
}

} // verus!
