//! Text and byte helpers shared by the parsers of the init and of ktctl:
//! splitting by separators, comparisons and integer encodings.

use vstd::prelude::*;
use vstd::string::*;

verus! {

pub open spec fn opt_bytes(o: Option<Vec<u8>>) -> Option<Seq<u8>> {
    match o {
        Some(v) => Some(v@),
        None => None,
    }
}

pub open spec fn opt_str(o: Option<&str>) -> Option<Seq<char>> {
    match o {
        Some(v) => Some(v@),
        None => None,
    }
}

pub open spec fn opt_string(o: Option<String>) -> Option<Seq<char>> {
    match o {
        Some(v) => Some(v@),
        None => None,
    }
}

/// The texts of a sequence of strings
pub open spec fn strings(v: Seq<String>) -> Seq<Seq<char>> {
    v.map_values(|s: String| s@)
}

/// What a splitting function cuts at.
#[derive(Clone, Copy, PartialEq, Eq, Debug)]
pub enum Sep {
    /// One given character
    Char(char),
    /// Any ASCII whitespace character: space, tab, line feed, form feed, carriage return
    AsciiWhitespace,
}

pub open spec fn is_ascii_ws(c: char) -> bool {
    c == ' ' || c == '\t' || c == '\n' || c == '\x0C' || c == '\r'
}

pub open spec fn is_sep(c: char, sep: Sep) -> bool {
    match sep {
        Sep::Char(s) => c == s,
        Sep::AsciiWhitespace => is_ascii_ws(c),
    }
}

pub fn char_is_sep(c: char, sep: Sep) -> (r: bool)
    ensures
        r == is_sep(c, sep),
{
    match sep {
        Sep::Char(s) => c == s,
        Sep::AsciiWhitespace => c == ' ' || c == '\t' || c == '\n' || c == '\x0C' || c == '\r',
    }
}

/// `k` is the position of the first separator of `t`
pub open spec fn is_first_sep(t: Seq<char>, sep: Sep, k: int) -> bool {
    &&& 0 <= k < t.len()
    &&& is_sep(t[k], sep)
    &&& forall|j: int| 0 <= j < k ==> !is_sep(#[trigger] t[j], sep)
}

pub open spec fn has_sep(t: Seq<char>, sep: Sep) -> bool {
    exists|k: int| is_first_sep(t, sep, k)
}

pub open spec fn first_sep(t: Seq<char>, sep: Sep) -> int {
    choose|k: int| is_first_sep(t, sep, k)
}

/// The pieces of `t` between separators, as `str::split` gives them
/// (an empty text gives one empty piece).
pub open spec fn split_seq(t: Seq<char>, sep: Sep) -> Seq<Seq<char>>
    decreases t.len(),
{
    if has_sep(t, sep) {
        let k = first_sep(t, sep);
        seq![t.take(k)] + split_seq(t.skip(k + 1), sep)
    } else {
        seq![t]
    }
}

/// The pieces of a sequence that are not empty, in order
pub open spec fn non_empty(pieces: Seq<Seq<char>>) -> Seq<Seq<char>>
    decreases pieces.len(),
{
    if pieces.len() == 0 {
        Seq::empty()
    } else if pieces[0].len() == 0 {
        non_empty(pieces.drop_first())
    } else {
        seq![pieces[0]] + non_empty(pieces.drop_first())
    }
}

/// The words of `t` as `str::split_ascii_whitespace` gives them
pub open spec fn words(t: Seq<char>) -> Seq<Seq<char>> {
    non_empty(split_seq(t, Sep::AsciiWhitespace))
}

pub open spec fn strip_cr(p: Seq<char>) -> Seq<char> {
    if p.len() > 0 && p.last() == '\r' {
        p.drop_last()
    } else {
        p
    }
}

/// The lines of `t` as `str::lines` gives them: cut at line feeds, a carriage
/// return before a line feed dropped, and no empty line after a final line feed.
pub open spec fn lines_seq(t: Seq<char>) -> Seq<Seq<char>> {
    let pieces = split_seq(t, Sep::Char('\n'));
    let kept = if pieces.last().len() == 0 {
        pieces.drop_last()
    } else {
        pieces
    };
    kept.map_values(|p: Seq<char>| strip_cr(p))
}

/// The lines of `s`, as `str::lines` gives them
pub fn split_lines(s: &str) -> (r: Vec<String>)
    ensures
        r.deep_view() == lines_seq(s@),
{
    let pieces = split_str(s, Sep::Char('\n'));
    proof {
        lemma_split_len(s@, Sep::Char('\n'));
    }
    let ghost ps = pieces.deep_view();
    let n = pieces.len();
    let keep = if pieces[n - 1].unicode_len() == 0 {
        n - 1
    } else {
        n
    };
    let ghost kept = if ps.last().len() == 0 {
        ps.drop_last()
    } else {
        ps
    };
    assert(kept =~= ps.take(keep as int));
    let mut out: Vec<String> = Vec::new();
    let mut i: usize = 0;
    while i < keep
        invariant
            keep <= pieces.len(),
            ps == pieces.deep_view(),
            kept =~= ps.take(keep as int),
            0 <= i <= keep,
            out.deep_view() == kept.take(i as int).map_values(|p: Seq<char>| strip_cr(p)),
        decreases keep - i,
    {
        let p = pieces[i].as_str();
        let m = p.unicode_len();
        let line = if m > 0 && p.get_char(m - 1) == '\r' {
            p.substring_char(0, m - 1).to_owned()
        } else {
            p.to_owned()
        };
        proof {
            assert(ps[i as int] == p@);
            if m > 0 && p@[m - 1] == '\r' {
                assert(line@ =~= p@.drop_last());
            }
        }
        let ghost before = out.deep_view();
        out.push(line);
        proof {
            assert(out.deep_view() =~= before.push(strip_cr(kept[i as int])));
            assert(kept.take(i + 1).map_values(|p: Seq<char>| strip_cr(p)) =~= kept.take(
                i as int,
            ).map_values(|p: Seq<char>| strip_cr(p)).push(strip_cr(kept[i as int])));
        }
        i = i + 1;
    }
    assert(kept.take(keep as int) =~= kept);
    out
}

pub proof fn lemma_first_sep_unique(t: Seq<char>, sep: Sep, k1: int, k2: int)
    requires
        is_first_sep(t, sep, k1),
        is_first_sep(t, sep, k2),
    ensures
        k1 == k2,
{
    if k1 < k2 {
        assert(!is_sep(t[k1], sep));
    } else if k2 < k1 {
        assert(!is_sep(t[k2], sep));
    }
}

/// Unfolds one step of `split_seq` at a known first separator
pub proof fn lemma_split_at_first(t: Seq<char>, sep: Sep, k: int)
    requires
        is_first_sep(t, sep, k),
    ensures
        split_seq(t, sep) == seq![t.take(k)] + split_seq(t.skip(k + 1), sep),
{
    assert(has_sep(t, sep));
    lemma_first_sep_unique(t, sep, k, first_sep(t, sep));
}

/// A text without separators is a single piece
pub proof fn lemma_split_no_sep(t: Seq<char>, sep: Sep)
    requires
        forall|j: int| 0 <= j < t.len() ==> !is_sep(#[trigger] t[j], sep),
    ensures
        split_seq(t, sep) == seq![t],
{
    if has_sep(t, sep) {
        let k = first_sep(t, sep);
        assert(is_sep(t[k], sep));
    }
}

/// `split_seq` never gives an empty list of pieces
pub proof fn lemma_split_len(t: Seq<char>, sep: Sep)
    ensures
        split_seq(t, sep).len() >= 1,
    decreases t.len(),
{
    if has_sep(t, sep) {
        let k = first_sep(t, sep);
        lemma_split_len(t.skip(k + 1), sep);
    }
}

/// Splits `s` at each separator, as `str::split` does.
pub fn split_str(s: &str, sep: Sep) -> (r: Vec<String>)
    ensures
        r.deep_view() == split_seq(s@, sep),
{
    let n = s.unicode_len();
    let mut out: Vec<String> = Vec::new();
    let mut start: usize = 0;
    let mut i: usize = 0;
    proof {
        assert(s@.skip(0) =~= s@);
    }
    while i < n
        invariant
            n == s@.len(),
            0 <= start <= i <= n,
            forall|j: int| start <= j < i ==> !is_sep(#[trigger] s@[j], sep),
            out.deep_view() + split_seq(s@.skip(start as int), sep) == split_seq(s@, sep),
        decreases n - i,
    {
        let c = s.get_char(i);
        if char_is_sep(c, sep) {
            let piece = s.substring_char(start, i).to_owned();
            proof {
                let t = s@.skip(start as int);
                assert(is_first_sep(t, sep, (i - start) as int)) by {
                    assert forall|j: int| 0 <= j < (i - start) implies !is_sep(#[trigger] t[j], sep) by {
                        assert(t[j] == s@[start + j]);
                    }
                }
                lemma_split_at_first(t, sep, (i - start) as int);
                assert(t.take((i - start) as int) =~= s@.subrange(start as int, i as int));
                assert(t.skip((i - start) as int + 1) =~= s@.skip(i + 1));
            }
            let ghost old_out = out.deep_view();
            out.push(piece);
            proof {
                assert(out.deep_view() =~= old_out.push(piece@));
                assert(out.deep_view() + split_seq(s@.skip(i + 1), sep) =~= old_out + (seq![
                    s@.subrange(start as int, i as int),
                ] + split_seq(s@.skip(i + 1), sep)));
            }
            start = i + 1;
        }
        i = i + 1;
    }
    let last = s.substring_char(start, n).to_owned();
    proof {
        let t = s@.skip(start as int);
        assert forall|j: int| 0 <= j < t.len() implies !is_sep(#[trigger] t[j], sep) by {
            assert(t[j] == s@[start + j]);
        }
        lemma_split_no_sep(t, sep);
        assert(t =~= s@.subrange(start as int, n as int));
    }
    let ghost old_out = out.deep_view();
    out.push(last);
    proof {
        assert(out.deep_view() =~= old_out.push(last@));
        assert(old_out + seq![last@] =~= old_out.push(last@));
    }
    out
}

/// The words of `s`, as `str::split_ascii_whitespace` gives them
pub fn split_words(s: &str) -> (r: Vec<String>)
    ensures
        r.deep_view() == words(s@),
{
    let pieces = split_str(s, Sep::AsciiWhitespace);
    let mut out: Vec<String> = Vec::new();
    let mut i: usize = 0;
    proof {
        assert(pieces.deep_view().skip(0) =~= pieces.deep_view());
    }
    while i < pieces.len()
        invariant
            0 <= i <= pieces.len(),
            out.deep_view() + non_empty(pieces.deep_view().skip(i as int)) == words(s@),
        decreases pieces.len() - i,
    {
        let ghost rest = pieces.deep_view().skip(i as int);
        proof {
            assert(rest.drop_first() =~= pieces.deep_view().skip(i + 1));
            assert(rest[0] == pieces[i as int]@);
        }
        if pieces[i].unicode_len() > 0 {
            let ghost old_out = out.deep_view();
            out.push(pieces[i].clone());
            proof {
                assert(out.deep_view() =~= old_out.push(pieces[i as int]@));
                assert(old_out.push(pieces[i as int]@) + non_empty(rest.drop_first()) =~= old_out
                    + (seq![rest[0]] + non_empty(rest.drop_first())));
            }
        }
        i = i + 1;
    }
    proof {
        assert(pieces.deep_view().skip(i as int) =~= Seq::<Seq<char>>::empty());
        assert(out.deep_view() + Seq::<Seq<char>>::empty() =~= out.deep_view());
    }
    out
}

/// Whether two texts are equal
pub fn str_eq(a: &str, b: &str) -> (r: bool)
    ensures
        r == (a@ == b@),
{
    let n = a.unicode_len();
    let m = b.unicode_len();
    if n != m {
        return false;
    }
    let mut i: usize = 0;
    while i < n
        invariant
            n == a@.len(),
            m == b@.len(),
            n == m,
            0 <= i <= n,
            forall|j: int| 0 <= j < i ==> a@[j] == b@[j],
        decreases n - i,
    {
        if a.get_char(i) != b.get_char(i) {
            return false;
        }
        i = i + 1;
    }
    assert(a@ =~= b@);
    true
}

pub open spec fn is_prefix(p: Seq<char>, s: Seq<char>) -> bool {
    p.len() <= s.len() && s.take(p.len() as int) == p
}

/// Whether `s` begins with `prefix`
pub fn starts_with(s: &str, prefix: &str) -> (r: bool)
    ensures
        r == is_prefix(prefix@, s@),
{
    let n = s.unicode_len();
    let m = prefix.unicode_len();
    if m > n {
        return false;
    }
    let mut i: usize = 0;
    while i < m
        invariant
            n == s@.len(),
            m == prefix@.len(),
            m <= n,
            0 <= i <= m,
            forall|j: int| 0 <= j < i ==> s@[j] == prefix@[j],
        decreases m - i,
    {
        if s.get_char(i) != prefix.get_char(i) {
            proof {
                assert(s@.take(m as int)[i as int] != prefix@[i as int]);
            }
            return false;
        }
        i = i + 1;
    }
    assert(s@.take(m as int) =~= prefix@);
    true
}

/// Whether `s` is one of the texts in `list`
pub open spec fn seq_has(list: Seq<Seq<char>>, s: Seq<char>) -> bool {
    exists|i: int| 0 <= i < list.len() && list[i] == s
}

pub fn contains_str(list: &[String], s: &str) -> (r: bool)
    ensures
        r == seq_has(list@.map_values(|x: String| x@), s@),
{
    let ghost l = list@.map_values(|x: String| x@);
    let mut i: usize = 0;
    while i < list.len()
        invariant
            0 <= i <= list.len(),
            l == list@.map_values(|x: String| x@),
            forall|j: int| 0 <= j < i ==> l[j] != s@,
        decreases list.len() - i,
    {
        if str_eq(list[i].as_str(), s) {
            assert(l[i as int] == s@);
            return true;
        }
        i = i + 1;
    }
    false
}

/// The index of the first `=` of `t`, if any
pub open spec fn split_once_eq(t: Seq<char>) -> Option<(Seq<char>, Seq<char>)> {
    if has_sep(t, Sep::Char('=')) {
        let k = first_sep(t, Sep::Char('='));
        Some((t.take(k), t.skip(k + 1)))
    } else {
        None
    }
}

/// Cuts `s` at its first `ch`, as `str::split_once` does
pub open spec fn split_once_seq(t: Seq<char>, ch: char) -> Option<(Seq<char>, Seq<char>)> {
    if has_sep(t, Sep::Char(ch)) {
        let k = first_sep(t, Sep::Char(ch));
        Some((t.take(k), t.skip(k + 1)))
    } else {
        None
    }
}

pub fn split_once(s: &str, ch: char) -> (r: Option<(String, String)>)
    ensures
        match r {
            Some((a, b)) => split_once_seq(s@, ch) == Some((a@, b@)),
            None => split_once_seq(s@, ch) is None,
        },
{
    let n = s.unicode_len();
    let mut i: usize = 0;
    while i < n
        invariant
            n == s@.len(),
            0 <= i <= n,
            forall|j: int| 0 <= j < i ==> !is_sep(#[trigger] s@[j], Sep::Char(ch)),
        decreases n - i,
    {
        if s.get_char(i) == ch {
            let a = s.substring_char(0, i).to_owned();
            let b = s.substring_char(i + 1, n).to_owned();
            proof {
                assert(is_first_sep(s@, Sep::Char(ch), i as int));
                lemma_first_sep_unique(s@, Sep::Char(ch), i as int, first_sep(s@, Sep::Char(ch)));
                assert(a@ =~= s@.take(i as int));
                assert(b@ =~= s@.skip(i + 1));
            }
            return Some((a, b));
        }
        i = i + 1;
    }
    proof {
        if has_sep(s@, Sep::Char(ch)) {
            let k = first_sep(s@, Sep::Char(ch));
            assert(is_sep(s@[k], Sep::Char(ch)));
        }
    }
    None
}

/// `t` with every trailing `ch` removed, as `str::trim_end_matches` with a character does
pub open spec fn trim_end_seq(t: Seq<char>, ch: char) -> Seq<char>
    decreases t.len(),
{
    if t.len() > 0 && t.last() == ch {
        trim_end_seq(t.drop_last(), ch)
    } else {
        t
    }
}

pub fn trim_end_char(s: &str, ch: char) -> (r: String)
    ensures
        r@ == trim_end_seq(s@, ch),
{
    let mut n = s.unicode_len();
    proof {
        assert(s@.take(n as int) =~= s@);
    }
    while n > 0 && s.get_char(n - 1) == ch
        invariant
            n <= s@.len(),
            trim_end_seq(s@.take(n as int), ch) == trim_end_seq(s@, ch),
        decreases n,
    {
        proof {
            assert(s@.take(n as int).drop_last() =~= s@.take(n - 1));
        }
        n = n - 1;
    }
    let r = s.substring_char(0, n).to_owned();
    proof {
        assert(r@ =~= s@.take(n as int));
    }
    r
}

/// Texts joined into one, with `delim` between each two
pub open spec fn join_seq(parts: Seq<Seq<char>>, delim: Seq<char>) -> Seq<char>
    decreases parts.len(),
{
    if parts.len() == 0 {
        Seq::empty()
    } else if parts.len() == 1 {
        parts[0]
    } else {
        join_seq(parts.drop_last(), delim) + delim + parts.last()
    }
}

/// Joins `parts` with `delim` between each two, as `[String]::join` does
pub fn join_strs(parts: &[String], delim: &str) -> (r: String)
    ensures
        r@ == join_seq(parts@.map_values(|p: String| p@), delim@),
{
    let ghost all = parts@.map_values(|p: String| p@);
    let mut out = String::new();
    let mut i: usize = 0;
    proof {
        assert(all.take(0) =~= Seq::<Seq<char>>::empty());
    }
    while i < parts.len()
        invariant
            0 <= i <= parts.len(),
            all == parts@.map_values(|p: String| p@),
            out@ == join_seq(all.take(i as int), delim@),
        decreases parts.len() - i,
    {
        proof {
            assert(all.take(i + 1).drop_last() =~= all.take(i as int));
            assert(all.take(i + 1).last() == parts[i as int]@);
        }
        if i > 0 {
            out.append(delim);
        } else {
            assert(all.take(1) =~= seq![parts[0]@]);
        }
        out.append(parts[i].as_str());
        i = i + 1;
    }
    proof {
        assert(all.take(parts.len() as int) =~= all);
    }
    out
}


// ---------------------------------------------------------------------------
// Bytes cut at a delimiter

pub open spec fn is_first_byte(t: Seq<u8>, d: u8, k: int) -> bool {
    &&& 0 <= k < t.len()
    &&& t[k] == d
    &&& forall|j: int| 0 <= j < k ==> #[trigger] t[j] != d
}

pub open spec fn has_byte(t: Seq<u8>, d: u8) -> bool {
    exists|k: int| is_first_byte(t, d, k)
}

pub open spec fn first_byte(t: Seq<u8>, d: u8) -> int {
    choose|k: int| is_first_byte(t, d, k)
}

/// The records of `t`: cut after each `d`, the `d` removed; bytes after the
/// last `d` make a last record when there are any
pub open spec fn records(t: Seq<u8>, d: u8) -> Seq<Seq<u8>>
    decreases t.len(),
{
    if t.len() == 0 {
        Seq::empty()
    } else if has_byte(t, d) {
        let k = first_byte(t, d);
        seq![t.take(k)] + records(t.skip(k + 1), d)
    } else {
        seq![t]
    }
}

pub proof fn lemma_first_byte_unique(t: Seq<u8>, d: u8, k1: int, k2: int)
    requires
        is_first_byte(t, d, k1),
        is_first_byte(t, d, k2),
    ensures
        k1 == k2,
{
    if k1 < k2 {
        assert(t[k1] != d);
    } else if k2 < k1 {
        assert(t[k2] != d);
    }
}

/// Cuts `data` into records at each `d`, as repeated `BufRead::read_until`
/// calls give them (the delimiter removed)
pub fn split_records(data: &[u8], d: u8) -> (r: Vec<Vec<u8>>)
    ensures
        r.deep_view() == records(data@, d),
{
    let n = data.len();
    let mut out: Vec<Vec<u8>> = Vec::new();
    let mut start: usize = 0;
    let mut cur: Vec<u8> = Vec::new();
    let mut i: usize = 0;
    proof {
        assert(data@.skip(0) =~= data@);
    }
    while i < n
        invariant
            n == data@.len(),
            0 <= start <= i <= n,
            cur@ == data@.subrange(start as int, i as int),
            forall|j: int| start <= j < i ==> #[trigger] data@[j] != d,
            out.deep_view() + records(data@.skip(start as int), d) == records(data@, d),
        decreases n - i,
    {
        if data[i] == d {
            proof {
                let t = data@.skip(start as int);
                assert(is_first_byte(t, d, (i - start) as int)) by {
                    assert forall|j: int| 0 <= j < (i - start) implies #[trigger] t[j] != d by {
                        assert(t[j] == data@[start + j]);
                    }
                }
                assert(has_byte(t, d));
                lemma_first_byte_unique(t, d, (i - start) as int, first_byte(t, d));
                assert(t.take((i - start) as int) =~= cur@);
                assert(t.skip((i - start) as int + 1) =~= data@.skip(i + 1));
            }
            let ghost old_out = out.deep_view();
            assert(cur.deep_view() =~= cur@);
            out.push(cur);
            proof {
                assert(out.deep_view() =~= old_out.push(data@.subrange(start as int, i as int)));
                assert(out.deep_view() + records(data@.skip(i + 1), d) =~= old_out + (seq![
                    data@.subrange(start as int, i as int),
                ] + records(data@.skip(i + 1), d)));
            }
            cur = Vec::new();
            start = i + 1;
        } else {
            cur.push(data[i]);
            proof {
                assert(cur@ =~= data@.subrange(start as int, i + 1));
            }
        }
        i = i + 1;
    }
    proof {
        let t = data@.skip(start as int);
        assert(t =~= cur@);
        if has_byte(t, d) {
            let k = first_byte(t, d);
            assert(t[k] == data@[start + k]);
        }
    }
    if start < n {
        let ghost old_out = out.deep_view();
        assert(cur.deep_view() =~= cur@);
        out.push(cur);
        proof {
            assert(out.deep_view() =~= old_out.push(data@.skip(start as int)));
            assert(old_out + seq![data@.skip(start as int)] =~= old_out.push(data@.skip(start as int)));
        }
    } else {
        proof {
            assert(out.deep_view() + Seq::<Seq<u8>>::empty() =~= out.deep_view());
        }
    }
    out
}

/// Records followed each by the delimiter
pub open spec fn terminated(recs: Seq<Seq<u8>>, d: u8) -> Seq<u8>
    decreases recs.len(),
{
    if recs.len() == 0 {
        Seq::empty()
    } else {
        recs[0].push(d) + terminated(recs.drop_first(), d)
    }
}

/// Records written each with a trailing delimiter are read back as the same
/// records, when none holds the delimiter
pub proof fn lemma_records_terminated(recs: Seq<Seq<u8>>, d: u8)
    requires
        forall|i: int, j: int| 0 <= i < recs.len() && 0 <= j < recs[i].len() ==> #[trigger] recs[i][j] != d,
    ensures
        records(terminated(recs, d), d) == recs,
    decreases recs.len(),
{
    if recs.len() == 0 {
        assert(records(terminated(recs, d), d) =~= recs);
    } else {
        let t = terminated(recs, d);
        let r0 = recs[0];
        let rest = recs.drop_first();
        assert forall|i: int, j: int| 0 <= i < rest.len() && 0 <= j < rest[i].len() implies #[trigger] rest[i][j] != d by {
            assert(rest[i] == recs[i + 1]);
        }
        lemma_records_terminated(rest, d);
        let k = r0.len() as int;
        assert(is_first_byte(t, d, k)) by {
            assert forall|j: int| 0 <= j < k implies #[trigger] t[j] != d by {
                assert(t[j] == r0[j]);
            }
        }
        lemma_first_byte_unique(t, d, k, first_byte(t, d));
        assert(t.take(k) =~= r0);
        assert(t.skip(k + 1) =~= terminated(rest, d));
        assert(records(t, d) =~= seq![r0] + rest);
    }
}

/// A byte that occurs in `t` has a first occurrence
pub proof fn lemma_has_byte_of(t: Seq<u8>, d: u8, j: int)
    requires
        0 <= j < t.len(),
        t[j] == d,
    ensures
        has_byte(t, d),
    decreases j,
{
    if forall|i: int| 0 <= i < j ==> t[i] != d {
        assert(is_first_byte(t, d, j));
    } else {
        let i = choose|i: int| 0 <= i < j && t[i] == d;
        lemma_has_byte_of(t, d, i);
    }
}

/// No record holds the delimiter
pub proof fn lemma_records_no_delim(t: Seq<u8>, d: u8)
    ensures
        forall|i: int, j: int|
            0 <= i < records(t, d).len() && 0 <= j < records(t, d)[i].len() ==> #[trigger] records(t, d)[i][j] != d,
    decreases t.len(),
{
    if t.len() == 0 {
    } else if has_byte(t, d) {
        let k = first_byte(t, d);
        lemma_records_no_delim(t.skip(k + 1), d);
        let rs = records(t, d);
        assert forall|i: int, j: int| 0 <= i < rs.len() && 0 <= j < rs[i].len() implies #[trigger] rs[i][j] != d by {
            if i == 0 {
                assert(rs[0] == t.take(k));
                assert(t.take(k)[j] == t[j]);
            } else {
                assert(rs[i] == records(t.skip(k + 1), d)[i - 1]);
            }
        }
    } else {
        let rs = records(t, d);
        assert forall|i: int, j: int| 0 <= i < rs.len() && 0 <= j < rs[i].len() implies #[trigger] rs[i][j] != d by {
            assert(rs[i] == t);
            if t[j] == d {
                lemma_has_byte_of(t, d, j);
            }
        }
    }
}

pub proof fn lemma_terminated_append(a: Seq<Seq<u8>>, b: Seq<Seq<u8>>, d: u8)
    ensures
        terminated(a + b, d) == terminated(a, d) + terminated(b, d),
    decreases a.len(),
{
    if a.len() == 0 {
        assert(a + b =~= b);
        assert(terminated(a, d) + terminated(b, d) =~= terminated(b, d));
    } else {
        assert((a + b)[0] == a[0]);
        assert((a + b).drop_first() =~= a.drop_first() + b);
        lemma_terminated_append(a.drop_first(), b, d);
        assert(terminated(a + b, d) =~= terminated(a, d) + terminated(b, d));
    }
}

/// Bytes that end with the delimiter (or are empty) are their records, each
/// followed by the delimiter
pub proof fn lemma_terminated_records(t: Seq<u8>, d: u8)
    requires
        t.len() == 0 || t.last() == d,
    ensures
        terminated(records(t, d), d) == t,
    decreases t.len(),
{
    if t.len() == 0 {
    } else {
        lemma_has_byte_of(t, d, t.len() - 1);
        let k = first_byte(t, d);
        let rest = t.skip(k + 1);
        assert(rest.len() == 0 || rest.last() == d) by {
            if rest.len() > 0 {
                assert(rest.last() == t.last());
            }
        }
        lemma_terminated_records(rest, d);
        let rs = records(t, d);
        assert(rs[0] == t.take(k));
        assert(rs.drop_first() =~= records(rest, d));
        assert(t.take(k).push(d) + rest =~= t);
    }
}

/// Appending a record and the delimiter to bytes that end with the
/// delimiter appends that record
pub proof fn lemma_records_append(t: Seq<u8>, rec: Seq<u8>, d: u8)
    requires
        t.len() == 0 || t.last() == d,
        forall|j: int| 0 <= j < rec.len() ==> rec[j] != d,
    ensures
        records(t + rec.push(d), d) == records(t, d).push(rec),
{
    let rs = records(t, d);
    lemma_terminated_records(t, d);
    lemma_records_no_delim(t, d);
    lemma_terminated_append(rs, seq![rec], d);
    assert(seq![rec].drop_first() =~= Seq::<Seq<u8>>::empty());
    assert(terminated(seq![rec], d) =~= rec.push(d)) by {
        reveal_with_fuel(terminated, 2);
    }
    assert(rs + seq![rec] =~= rs.push(rec));
    let all = rs.push(rec);
    assert forall|i: int, j: int| 0 <= i < all.len() && 0 <= j < all[i].len() implies #[trigger] all[i][j] != d by {
        if i < rs.len() {
            assert(all[i] == rs[i]);
        }
    }
    lemma_records_terminated(all, d);
}

/// The text UTF-8 bytes encode (`String::from_utf8`). When the bytes are not
/// valid UTF-8 the error's displayed text is returned; what that text says is
/// not stated.
#[verifier::external_body]
pub(crate) fn utf8_to_string(bytes: Vec<u8>) -> (r: Result<String, String>)
    ensures
        r is Ok <==> vstd::utf8::valid_utf8(bytes@),
        r matches Ok(s) ==> s@ == vstd::utf8::decode_utf8(bytes@),
{
    match String::from_utf8(bytes) {
        Ok(s) => Ok(s),
        Err(e) => Err(e.to_string()),
    }
}

/// Joins `base` and `p` as `PathBuf::push` does on Unix: an absolute `p`
/// replaces `base`, otherwise a `/` separates them unless `base` already ends
/// with one
pub open spec fn spec_join_path(base: Seq<char>, p: Seq<char>) -> Seq<char> {
    if p.len() > 0 && p[0] == '/' {
        p
    } else if base.len() == 0 || base.last() == '/' {
        base + p
    } else {
        base + "/"@ + p
    }
}

pub fn join_path(base: &str, p: &str) -> (r: String)
    ensures
        r@ == spec_join_path(base@, p@),
{
    let pn = p.unicode_len();
    if pn > 0 && p.get_char(0) == '/' {
        return p.to_owned();
    }
    let bn = base.unicode_len();
    let mut r = base.to_owned();
    if bn == 0 || base.get_char(bn - 1) == '/' {
        r.append(p);
    } else {
        r.append("/");
        r.append(p);
    }
    r
}

// ---------------------------------------------------------------------------
// Integers in little-endian bytes

pub open spec fn le_bytes_u32(x: u32) -> Seq<u8> {
    seq![
        (x % 256) as u8,
        ((x / 256) % 256) as u8,
        ((x / 65536) % 256) as u8,
        ((x / 16777216) % 256) as u8,
    ]
}

pub open spec fn u32_from_le(b: Seq<u8>) -> u32
    recommends
        b.len() == 4,
{
    (b[0] as int + 256 * b[1] as int + 65536 * b[2] as int + 16777216 * b[3] as int) as u32
}

pub open spec fn le_bytes_i32(x: i32) -> Seq<u8> {
    le_bytes_u32(x as u32)
}

pub open spec fn i32_from_le(b: Seq<u8>) -> i32
    recommends
        b.len() == 4,
{
    u32_from_le(b) as i32
}

/// The four little-endian bytes of `x`, as `u32::to_le_bytes` gives them
pub fn u32_to_le(x: u32) -> (r: Vec<u8>)
    ensures
        r@ == le_bytes_u32(x),
{
    let mut r: Vec<u8> = Vec::new();
    r.push((x % 256) as u8);
    r.push(((x / 256) % 256) as u8);
    r.push(((x / 65536) % 256) as u8);
    r.push(((x / 16777216) % 256) as u8);
    assert(r@ =~= le_bytes_u32(x));
    r
}

/// The number that four little-endian bytes encode, as `u32::from_le_bytes` reads them
pub fn u32_from_le_bytes(b0: u8, b1: u8, b2: u8, b3: u8) -> (r: u32)
    ensures
        r == u32_from_le(seq![b0, b1, b2, b3]),
{
    let v: u64 = b0 as u64 + 256 * (b1 as u64) + 65536 * (b2 as u64) + 16777216 * (b3 as u64);
    assert(v < 0x1_0000_0000);
    v as u32
}

pub fn i32_to_le(x: i32) -> (r: Vec<u8>)
    ensures
        r@ == le_bytes_i32(x),
{
    u32_to_le(x as u32)
}

pub fn i32_from_le_bytes(b0: u8, b1: u8, b2: u8, b3: u8) -> (r: i32)
    ensures
        r == i32_from_le(seq![b0, b1, b2, b3]),
{
    u32_from_le_bytes(b0, b1, b2, b3) as i32
}

/// Reading back the bytes of a `u32` gives the `u32`
pub proof fn lemma_u32_le_roundtrip(x: u32)
    ensures
        u32_from_le(le_bytes_u32(x)) == x,
{
    let b = le_bytes_u32(x);
    let x0 = x % 256;
    let x1 = (x / 256) % 256;
    let x2 = (x / 65536) % 256;
    let x3 = (x / 16777216) % 256;
    assert(x as int == x0 + 256 * x1 + 65536 * x2 + 16777216 * x3) by (nonlinear_arith)
        requires
            x0 == x % 256,
            x1 == (x / 256) % 256,
            x2 == (x / 65536) % 256,
            x3 == (x / 16777216) % 256,
            x < 0x1_0000_0000,
    ;
}

/// Reading back the bytes of an `i32` gives the `i32`
pub proof fn lemma_i32_le_roundtrip(x: i32)
    ensures
        i32_from_le(le_bytes_i32(x)) == x,
{
    lemma_u32_le_roundtrip(x as u32);
    assert(((x as u32) as i32) == x) by (bit_vector);
}

// ---------------------------------------------------------------------------
// Decimal text of integers

pub open spec fn digit_char(d: nat) -> char {
    ((d % 10) + 48) as char
}

/// The decimal digits of `n`, without sign, as `to_string` writes them
pub open spec fn decimal_nat(n: nat) -> Seq<char>
    decreases n,
{
    if n < 10 {
        seq![digit_char(n)]
    } else {
        decimal_nat(n / 10) + seq![digit_char(n % 10)]
    }
}

/// The decimal text of `i`, as `to_string` writes it for any integer type
pub open spec fn decimal(i: int) -> Seq<char> {
    if i < 0 {
        seq!['-'] + decimal_nat((-i) as nat)
    } else {
        decimal_nat(i as nat)
    }
}

fn digit_str(d: u64) -> (r: &'static str)
    requires
        d < 10,
    ensures
        r@ == seq![digit_char(d as nat)],
{
    proof {
        reveal_strlit("0");
        reveal_strlit("1");
        reveal_strlit("2");
        reveal_strlit("3");
        reveal_strlit("4");
        reveal_strlit("5");
        reveal_strlit("6");
        reveal_strlit("7");
        reveal_strlit("8");
        reveal_strlit("9");
    }
    if d == 0 {
        "0"
    } else if d == 1 {
        "1"
    } else if d == 2 {
        "2"
    } else if d == 3 {
        "3"
    } else if d == 4 {
        "4"
    } else if d == 5 {
        "5"
    } else if d == 6 {
        "6"
    } else if d == 7 {
        "7"
    } else if d == 8 {
        "8"
    } else {
        "9"
    }
}

/// The decimal text of a `u64`
pub fn u64_to_decimal(n: u64) -> (r: String)
    ensures
        r@ == decimal_nat(n as nat),
    decreases n,
{
    if n < 10 {
        String::from_str(digit_str(n))
    } else {
        let mut r = u64_to_decimal(n / 10);
        r.append(digit_str(n % 10));
        proof {
            assert(digit_char((n % 10) as nat) == digit_char(n as nat % 10));
        }
        r
    }
}

/// The decimal text of an `i64`, with a minus sign when negative
pub fn i64_to_decimal(i: i64) -> (r: String)
    ensures
        r@ == decimal(i as int),
{
    if i < 0 {
        let m: u64 = if i == i64::MIN {
            9223372036854775808u64
        } else {
            (-i) as u64
        };
        let d = u64_to_decimal(m);
        let r = String::from_str("-").concat(d.as_str());
        proof {
            reveal_strlit("-");
        }
        r
    } else {
        u64_to_decimal(i as u64)
    }
}

} // verus!
