use vstd::prelude::*;
use vstd::string::StrSliceExecFns;

verus! {

/// True when `pat` stands in `s` at position `i`.
pub open spec fn match_at(s: Seq<char>, pat: Seq<char>, i: int) -> bool {
    0 <= i && i + pat.len() <= s.len() && s.subrange(i, i + pat.len()) == pat
}

/// True when `pat` stands somewhere in `s`.
pub open spec fn contains_seq(s: Seq<char>, pat: Seq<char>) -> bool {
    exists|i: int| match_at(s, pat, i)
}

/// The position of the first occurrence of `pat` in `s` at or after `from`,
/// or the length of `s` when there is none.
pub open spec fn find_pat_from(s: Seq<char>, pat: Seq<char>, from: int) -> int
    decreases s.len() - from,
{
    if from < 0 || from >= s.len() || from + pat.len() > s.len() {
        s.len() as int
    } else if match_at(s, pat, from) {
        from
    } else {
        find_pat_from(s, pat, from + 1)
    }
}

/// The first occurrence is an occurrence, nothing matches before it, and the
/// length of `s` stands for "no occurrence at all".
pub proof fn lemma_find_pat_from(s: Seq<char>, pat: Seq<char>, from: int)
    requires
        0 <= from <= s.len(),
        pat.len() >= 1,
    ensures
        from <= find_pat_from(s, pat, from) <= s.len(),
        find_pat_from(s, pat, from) < s.len() ==> match_at(s, pat, find_pat_from(s, pat, from))
            && find_pat_from(s, pat, from) + pat.len() <= s.len(),
        forall|k: int| from <= k < find_pat_from(s, pat, from) ==> !match_at(s, pat, k),
        find_pat_from(s, pat, from) == s.len() ==> forall|k: int|
            from <= k ==> !match_at(s, pat, k),
    decreases s.len() - from,
{
    if from + pat.len() > s.len() {
        assert forall|k: int| from <= k implies !match_at(s, pat, k) by {}
    } else if match_at(s, pat, from) {
    } else {
        lemma_find_pat_from(s, pat, from + 1);
    }
}

/// Character-by-character equality of two string slices.
pub fn str_eq(a: &str, b: &str) -> (r: bool)
    ensures
        r == (a@ == b@),
{
    let an = a.unicode_len();
    let bn = b.unicode_len();
    if an != bn {
        return false;
    }
    let mut i: usize = 0;
    while i < an
        invariant
            i <= an,
            an == a@.len(),
            an == b@.len(),
            forall|k: int| 0 <= k < i ==> a@[k] == b@[k],
        decreases an - i,
    {
        if a.get_char(i) != b.get_char(i) {
            return false;
        }
        i = i + 1;
    }
    proof {
        assert(a@ =~= b@);
    }
    true
}

/// Whether `pat` stands in `s` at position `i`.
fn match_at_exec(s: &str, pat: &str, i: usize) -> (r: bool)
    requires
        i + pat@.len() <= s@.len(),
        s@.len() <= usize::MAX,
    ensures
        r == match_at(s@, pat@, i as int),
{
    let m = pat.unicode_len();
    let sub = s.substring_char(i, i + m);
    str_eq(sub, pat)
}

/// The position of the first occurrence of `pat` in `s` at or after `from`,
/// or the length of `s` when there is none.
pub fn find_pat(s: &str, pat: &str, from: usize) -> (r: usize)
    requires
        from <= s@.len(),
        pat@.len() >= 1,
    ensures
        r == find_pat_from(s@, pat@, from as int),
        from <= r <= s@.len(),
{
    proof {
        lemma_find_pat_from(s@, pat@, from as int);
    }
    let n = s.unicode_len();
    let m = pat.unicode_len();
    let mut i: usize = from;
    loop
        invariant
            from <= i <= n,
            n == s@.len(),
            m == pat@.len(),
            m >= 1,
            find_pat_from(s@, pat@, from as int) == find_pat_from(s@, pat@, i as int),
        decreases n - i,
    {
        if m > n - i {
            return n;
        }
        if match_at_exec(s, pat, i) {
            return i;
        }
        i = i + 1;
    }
}

/// Whether `pat` stands anywhere in `s`.
pub fn str_contains(s: &str, pat: &str) -> (r: bool)
    requires
        pat@.len() >= 1,
    ensures
        r == contains_seq(s@, pat@),
{
    let n = s.unicode_len();
    let f = find_pat(s, pat, 0);
    proof {
        lemma_find_pat_from(s@, pat@, 0);
    }
    f < n
}

/// The characters treated as blank inside a line.
pub open spec fn is_blank(c: char) -> bool {
    c == ' ' || c == '\t' || c == '\r'
}

/// The first position at or after `from` whose character is not blank, or the
/// length of `s`.
pub open spec fn skip_blank_from(s: Seq<char>, from: int) -> int
    decreases s.len() - from,
{
    if from < 0 || from >= s.len() {
        s.len() as int
    } else if is_blank(s[from]) {
        skip_blank_from(s, from + 1)
    } else {
        from
    }
}

/// The length of `s` once its trailing blank characters are removed.
pub open spec fn rtrim_len(s: Seq<char>) -> int
    decreases s.len(),
{
    if s.len() == 0 {
        0
    } else if is_blank(s.last()) {
        rtrim_len(s.drop_last())
    } else {
        s.len() as int
    }
}

/// `s` with its leading and trailing blank characters removed.
pub open spec fn trimmed(s: Seq<char>) -> Seq<char> {
    let t = s.subrange(skip_blank_from(s, 0), s.len() as int);
    t.subrange(0, rtrim_len(t))
}

fn is_blank_char(c: char) -> (r: bool)
    ensures
        r == is_blank(c),
{
    c == ' ' || c == '\t' || c == '\r'
}

/// `line` with its leading and trailing blank characters removed.
pub fn trim_blank(line: &str) -> (r: String)
    ensures
        r@ == trimmed(line@),
{
    let n = line.unicode_len();
    let mut a: usize = 0;
    while a < n && is_blank_char(line.get_char(a))
        invariant
            a <= n,
            n == line@.len(),
            skip_blank_from(line@, 0) == skip_blank_from(line@, a as int),
        decreases n - a,
    {
        a = a + 1;
    }
    assert(skip_blank_from(line@, 0) == a as int);
    let t = line.substring_char(a, n);
    let tn = n - a;
    proof {
        assert(t@.subrange(0, tn as int) =~= t@);
    }
    let mut b: usize = tn;
    while b > 0 && is_blank_char(t.get_char(b - 1))
        invariant
            b <= tn,
            tn == t@.len(),
            rtrim_len(t@) == rtrim_len(t@.subrange(0, b as int)),
        decreases b,
    {
        proof {
            assert(t@.subrange(0, b as int).drop_last() =~= t@.subrange(0, b as int - 1));
        }
        b = b - 1;
    }
    proof {
        assert(t@.subrange(0, tn as int) =~= t@);
        if b > 0 {
            assert(rtrim_len(t@.subrange(0, b as int)) == b as int);
        }
    }
    let out = t.substring_char(0, b);
    proof {
        assert(out@ =~= trimmed(line@));
    }
    out.to_owned()
}

/// Whether `line` starts with the prefix `p`.
pub fn has_prefix(line: &str, p: &str) -> (r: bool)
    ensures
        r == match_at(line@, p@, 0),
{
    let n = line.unicode_len();
    let m = p.unicode_len();
    if m > n {
        return false;
    }
    match_at_exec(line, p, 0)
}

/// The text of `line` after the prefix `p`, with surrounding blanks removed.
pub open spec fn field_value(line: Seq<char>, p: Seq<char>) -> Seq<char> {
    trimmed(line.subrange(p.len() as int, line.len() as int))
}

/// Extract the field value of `line` behind the prefix `p`.
pub fn extract_field(line: &str, p: &str) -> (r: String)
    requires
        match_at(line@, p@, 0),
    ensures
        r@ == field_value(line@, p@),
{
    let n = line.unicode_len();
    let m = p.unicode_len();
    let rest = line.substring_char(m, n);
    trim_blank(rest)
}

} // verus!
