//! Small verified building blocks for assembling source text:
//! string equality, joining, decimal rendering and escaping.

use vstd::prelude::*;

verus! {

/// Relies on `String::push`: appends the given character to the end of the string.
pub assume_specification[ String::push ](s: &mut String, ch: char)
    ensures
        final(s)@ == old(s)@.push(ch),
;

/// Character-wise equality of two string slices.
pub fn str_eq(a: &str, b: &str) -> (r: bool)
    ensures
        r == (a@ == b@),
{
    let a_len = a.unicode_len();
    let b_len = b.unicode_len();
    if a_len != b_len {
        return false;
    }
    let mut i: usize = 0;
    while i < a_len
        invariant
            a_len == a@.len(),
            b_len == b@.len(),
            a_len == b_len,
            i <= a_len,
            forall|j: int| 0 <= j < i ==> a@[j] == b@[j],
        decreases a_len - i,
    {
        if a.get_char(i) != b.get_char(i) {
            return false;
        }
        i = i + 1;
    }
    proof {
        assert(a@ =~= b@);
    }
    true
}

/// Equality of an owned string and a string slice.
pub fn string_eq_str(a: &String, b: &str) -> (r: bool)
    ensures
        r == (a@ == b@),
{
    str_eq(a.as_str(), b)
}

/// The parts of `parts` joined with `sep` between each two.
pub open spec fn join_with(parts: Seq<Seq<char>>, sep: Seq<char>) -> Seq<char>
    decreases parts.len(),
{
    if parts.len() == 0 {
        Seq::empty()
    } else if parts.len() == 1 {
        parts[0]
    } else {
        join_with(parts.drop_last(), sep) + sep + parts.last()
    }
}

/// The views of a sequence of owned strings.
pub open spec fn views_of(parts: Seq<String>) -> Seq<Seq<char>> {
    parts.map_values(|s: String| s@)
}

/// Joins owned strings with a separator.
pub fn join_strings(parts: &Vec<String>, sep: &str) -> (r: String)
    ensures
        r@ == join_with(views_of(parts@), sep@),
{
    let mut r = String::new();
    let mut i: usize = 0;
    while i < parts.len()
        invariant
            i <= parts@.len(),
            r@ == join_with(views_of(parts@).take(i as int), sep@),
        decreases parts@.len() - i,
    {
        if i > 0 {
            r.append(sep);
        }
        r.append(parts[i].as_str());
        proof {
            assert(views_of(parts@).take(i + 1).drop_last() =~= views_of(parts@).take(
                i as int,
            ));
            assert(views_of(parts@).take(i + 1).last() == parts@[i as int]@);
        }
        i = i + 1;
    }
    proof {
        assert(views_of(parts@).take(parts@.len() as int) =~= views_of(parts@));
    }
    r
}

/// The decimal digit for a value below ten.
pub open spec fn dec_digit(d: nat) -> char {
    if d == 0 {
        '0'
    } else if d == 1 {
        '1'
    } else if d == 2 {
        '2'
    } else if d == 3 {
        '3'
    } else if d == 4 {
        '4'
    } else if d == 5 {
        '5'
    } else if d == 6 {
        '6'
    } else if d == 7 {
        '7'
    } else if d == 8 {
        '8'
    } else {
        '9'
    }
}

/// The decimal rendering of a natural number, without sign or padding.
pub open spec fn dec_str(n: nat) -> Seq<char>
    decreases n,
{
    if n < 10 {
        seq![dec_digit(n)]
    } else {
        dec_str(n / 10).push(dec_digit(n % 10))
    }
}

fn dec_digit_exec(d: u64) -> (c: char)
    requires
        d < 10,
    ensures
        c == dec_digit(d as nat),
{
    match d {
        0 => '0',
        1 => '1',
        2 => '2',
        3 => '3',
        4 => '4',
        5 => '5',
        6 => '6',
        7 => '7',
        8 => '8',
        _ => '9',
    }
}

/// Renders a number in decimal.
pub fn u64_to_dec(n: u64) -> (r: String)
    ensures
        r@ == dec_str(n as nat),
    decreases n,
{
    if n < 10 {
        let mut r = String::new();
        r.push(dec_digit_exec(n));
        return r;
    }
    let mut r = u64_to_dec(n / 10);
    r.push(dec_digit_exec(n % 10));
    r
}

/// `n` occurs in `h` starting at position `i`.
pub open spec fn contains_at(h: Seq<char>, n: Seq<char>, i: int) -> bool {
    0 <= i && i + n.len() <= h.len() && h.subrange(i, i + n.len()) == n
}

/// `n` occurs somewhere in `h`.
pub open spec fn text_contains(h: Seq<char>, n: Seq<char>) -> bool {
    exists|i: int| contains_at(h, n, i)
}

/// Substring search.
pub fn str_contains(h: &str, n: &str) -> (r: bool)
    ensures
        r == text_contains(h@, n@),
{
    let h_len = h.unicode_len();
    let n_len = n.unicode_len();
    if n_len > h_len {
        proof {
            assert(forall|i: int| !contains_at(h@, n@, i));
        }
        return false;
    }
    if n_len == 0 {
        proof {
            assert(h@.subrange(0, 0) =~= n@);
            assert(contains_at(h@, n@, 0));
        }
        return true;
    }
    let mut i: usize = 0;
    while i <= h_len - n_len
        invariant
            h_len == h@.len(),
            n_len == n@.len(),
            1 <= n_len <= h_len,
            i <= h_len - n_len + 1,
            forall|k: int| 0 <= k < i ==> !contains_at(h@, n@, k),
        decreases h_len - n_len + 1 - i,
    {
        let mut j: usize = 0;
        let mut matches_here = true;
        while j < n_len && matches_here
            invariant
                h_len == h@.len(),
                n_len == n@.len(),
                i + n_len <= h_len,
                j <= n_len,
                matches_here ==> forall|l: int| 0 <= l < j ==> h@[i + l] == n@[l],
                !matches_here ==> !contains_at(h@, n@, i as int),
            decreases n_len - j + (if matches_here {
                1int
            } else {
                0int
            }),
        {
            if h.get_char(i + j) != n.get_char(j) {
                matches_here = false;
                proof {
                    assert(h@.subrange(i as int, i + n@.len())[j as int] != n@[j as int]);
                }
            } else {
                j = j + 1;
            }
        }
        if matches_here {
            proof {
                assert(h@.subrange(i as int, i + n@.len()) =~= n@);
                assert(contains_at(h@, n@, i as int));
            }
            return true;
        }
        i = i + 1;
        proof {
            assert forall|k: int| 0 <= k < i implies !contains_at(h@, n@, k) by {
                if k == i - 1 {
                    assert(!contains_at(h@, n@, k));
                }
            }
        }
    }
    proof {
        assert forall|k: int| !contains_at(h@, n@, k) by {
            if 0 <= k <= h@.len() - n@.len() {
                assert(!contains_at(h@, n@, k));
            }
        }
    }
    false
}

/// The characters that may stand between a mustache opening and the marker
/// deciding a partial construct: whitespace, the whitespace-control tilde,
/// and the block sign.
pub open spec fn partial_filler(c: char) -> bool {
    c == ' ' || c == '\t' || c == '\n' || c == '\r' || c == '~' || c == '#'
}

/// After skipping filler, the next character opens a partial include (`>`)
/// or a decorator such as an inline partial (`*`).
pub open spec fn partial_tail(t: Seq<char>, j: int) -> bool
    decreases t.len() - j,
{
    if j < 0 || j >= t.len() {
        false
    } else if t[j] == '>' || t[j] == '*' {
        true
    } else if partial_filler(t[j]) {
        partial_tail(t, j + 1)
    } else {
        false
    }
}

/// The template uses partial or decorator syntax somewhere: a `{{` opening
/// followed, possibly after whitespace, tildes and block signs, by `>` or
/// `*`.
pub open spec fn uses_partials(t: Seq<char>) -> bool {
    exists|i: int|
        0 <= i && i + 2 <= t.len() && #[trigger] t[i] == '{' && t[i + 1] == '{' && partial_tail(
            t,
            i + 2,
        )
}

/// Scans a template for partial or decorator syntax.
pub fn template_uses_partials(t: &str) -> (r: bool)
    ensures
        r == uses_partials(t@),
{
    let len = t.unicode_len();
    let mut i: usize = 0;
    while i < len
        invariant
            len == t@.len(),
            i <= len,
            forall|k: int|
                0 <= k < i ==> !(k + 2 <= t@.len() && #[trigger] t@[k] == '{' && t@[k + 1] == '{'
                    && partial_tail(t@, k + 2)),
        decreases len - i,
    {
        if i + 1 < len && t.get_char(i) == '{' && t.get_char(i + 1) == '{' {
            let mut j = i + 2;
            let mut verdict = false;
            let mut decided = false;
            while j < len && !decided
                invariant
                    len == t@.len(),
                    i + 2 <= j <= len,
                    !decided ==> partial_tail(t@, i + 2) == partial_tail(t@, j as int),
                    decided ==> verdict == partial_tail(t@, i + 2),
                decreases len - j + (if decided {
                    0int
                } else {
                    1int
                }),
            {
                let c = t.get_char(j);
                if c == '>' || c == '*' {
                    verdict = true;
                    decided = true;
                } else if c == ' ' || c == '\t' || c == '\n' || c == '\r' || c == '~' || c
                    == '#' {
                    j = j + 1;
                } else {
                    verdict = false;
                    decided = true;
                }
            }
            if decided && verdict {
                proof {
                    assert(0 <= i && i + 2 <= t@.len() && t@[i as int] == '{' && t@[i + 1] == '{'
                        && partial_tail(t@, i + 2));
                }
                return true;
            }
        }
        i = i + 1;
        proof {
            assert forall|k: int|
                0 <= k < i implies !(k + 2 <= t@.len() && #[trigger] t@[k] == '{' && t@[k + 1]
                == '{' && partial_tail(t@, k + 2)) by {
                if k == i - 1 {
                }
            }
        }
    }
    false
}

/// The segments of `s` split on `::`, scanning left to right; the text after
/// the last separator is a segment of its own, and a text without any
/// separator is one single segment.
pub open spec fn split_path_rec(s: Seq<char>, cur: Seq<char>) -> Seq<Seq<char>>
    decreases s.len(),
{
    if s.len() >= 2 && s[0] == ':' && s[1] == ':' {
        seq![cur] + split_path_rec(s.skip(2), Seq::empty())
    } else if s.len() == 0 {
        seq![cur]
    } else {
        split_path_rec(s.drop_first(), cur.push(s[0]))
    }
}

/// The `::`-separated segments of a qualified name.
pub open spec fn split_path(s: Seq<char>) -> Seq<Seq<char>> {
    split_path_rec(s, Seq::empty())
}

/// Splits a qualified name on `::`.
pub fn split_double_colon(s: &str) -> (r: Vec<String>)
    ensures
        views_of(r@) == split_path(s@),
{
    let len = s.unicode_len();
    let mut done: Vec<String> = Vec::new();
    let mut cur = String::new();
    let mut i: usize = 0;
    proof {
        assert(s@.skip(0) =~= s@);
        assert(views_of(done@) + split_path_rec(s@, cur@) =~= split_path_rec(s@, cur@));
    }
    while i < len
        invariant
            len == s@.len(),
            i <= len,
            split_path(s@) == views_of(done@) + split_path_rec(s@.skip(i as int), cur@),
        decreases len - i,
    {
        let ghost prev = s@.skip(i as int);
        let ghost done0 = done@;
        let ghost cur0 = cur@;
        if i + 1 < len && s.get_char(i) == ':' && s.get_char(i + 1) == ':' {
            done.push(cur);
            cur = String::new();
            proof {
                assert(prev[0] == ':' && prev[1] == ':');
                assert(prev.skip(2) =~= s@.skip(i + 2));
                assert(views_of(done0) + split_path_rec(prev, cur0) =~= views_of(done@)
                    + split_path_rec(s@.skip(i + 2), cur@));
            }
            i = i + 2;
        } else {
            let c = s.get_char(i);
            cur.push(c);
            proof {
                assert(prev.drop_first() =~= s@.skip(i + 1));
                assert(prev.len() >= 2 ==> !(prev[0] == ':' && prev[1] == ':'));
                assert(cur@ == cur0.push(prev[0]));
            }
            i = i + 1;
        }
    }
    let ghost done1 = done@;
    let ghost cur1 = cur@;
    done.push(cur);
    proof {
        assert(s@.skip(len as int) =~= Seq::<char>::empty());
        assert(views_of(done1) + split_path_rec(s@.skip(len as int), cur1) =~= views_of(
            done@,
        ));
    }
    done
}

/// How one character is written inside a double-quoted source literal.
pub open spec fn literal_escape_char(c: char) -> Seq<char> {
    if c == '"' {
        seq!['\\', '"']
    } else if c == '\\' {
        seq!['\\', '\\']
    } else {
        seq![c]
    }
}

/// A text with every quote and backslash escaped, fit for a double-quoted literal.
pub open spec fn literal_escape(s: Seq<char>) -> Seq<char>
    decreases s.len(),
{
    if s.len() == 0 {
        Seq::empty()
    } else {
        literal_escape(s.drop_last()) + literal_escape_char(s.last())
    }
}

/// Escapes a text so that it can stand inside a double-quoted literal.
pub fn escape_for_literal(s: &str) -> (r: String)
    ensures
        r@ == literal_escape(s@),
{
    let len = s.unicode_len();
    let mut r = String::new();
    let mut i: usize = 0;
    while i < len
        invariant
            len == s@.len(),
            i <= len,
            r@ == literal_escape(s@.take(i as int)),
        decreases len - i,
    {
        let c = s.get_char(i);
        if c == '"' {
            r.push('\\');
            r.push('"');
        } else if c == '\\' {
            r.push('\\');
            r.push('\\');
        } else {
            r.push(c);
        }
        proof {
            assert(s@.take(i + 1).drop_last() =~= s@.take(i as int));
            assert(s@.take(i + 1).last() == s@[i as int]);
        }
        i = i + 1;
    }
    proof {
        assert(s@.take(len as int) =~= s@);
    }
    r
}

/// A text without any colon splits into itself as the one segment.
pub proof fn lemma_split_no_sep(s: Seq<char>, cur: Seq<char>)
    requires
        forall|i: int| 0 <= i < s.len() ==> s[i] != ':',
    ensures
        split_path_rec(s, cur) == seq![cur + s],
    decreases s.len(),
{
    if s.len() == 0 {
        assert(cur + s =~= cur);
    } else {
        lemma_split_no_sep(s.drop_first(), cur.push(s[0]));
        assert(cur.push(s[0]) + s.drop_first() =~= cur + s);
    }
}

} // verus!
