use vstd::prelude::*;

verus! {

/// Characters treated as blank space when lines, prompts and commands are
/// trimmed.
pub open spec fn is_space_char(c: char) -> bool {
    c == ' ' || c == '\t' || c == '\r' || c == '\n'
}

/// Executable twin of `is_space_char`.
pub fn is_space(c: char) -> (r: bool)
    ensures
        r == is_space_char(c),
{
    c == ' ' || c == '\t' || c == '\r' || c == '\n'
}

/// Number of blank-space characters at the front of `s`.
pub open spec fn leading_spaces(s: Seq<char>) -> int
    decreases s.len(),
{
    if s.len() == 0 || !is_space_char(s[0]) {
        0
    } else {
        1 + leading_spaces(s.drop_first())
    }
}

/// Number of blank-space characters at the back of `s`.
pub open spec fn trailing_spaces(s: Seq<char>) -> int
    decreases s.len(),
{
    if s.len() == 0 || !is_space_char(s.last()) {
        0
    } else {
        1 + trailing_spaces(s.drop_last())
    }
}

/// `s` with blank space removed from both ends.
pub open spec fn trim_spec(s: Seq<char>) -> Seq<char> {
    let front = s.subrange(leading_spaces(s), s.len() as int);
    front.subrange(0, front.len() - trailing_spaces(front))
}

/// A position where the blank space at the front stops determines
/// `leading_spaces` exactly.
pub proof fn lemma_leading_spaces_at(s: Seq<char>, k: int)
    requires
        0 <= k <= s.len(),
        forall|j: int| 0 <= j < k ==> is_space_char(s[j]),
        k < s.len() ==> !is_space_char(s[k]),
    ensures
        leading_spaces(s) == k,
    decreases s.len(),
{
    if k == 0 {
    } else {
        assert(is_space_char(s[0]));
        lemma_leading_spaces_at(s.drop_first(), k - 1);
    }
}

/// A position where the blank space at the back starts determines
/// `trailing_spaces` exactly.
pub proof fn lemma_trailing_spaces_at(s: Seq<char>, m: int)
    requires
        0 <= m <= s.len(),
        forall|j: int| m <= j < s.len() ==> is_space_char(s[j]),
        m > 0 ==> !is_space_char(s[m - 1]),
    ensures
        trailing_spaces(s) == s.len() - m,
    decreases s.len(),
{
    if m == s.len() {
        if m > 0 {
            assert(!is_space_char(s.last()));
        }
    } else {
        assert(is_space_char(s.last()));
        lemma_trailing_spaces_at(s.drop_last(), m);
    }
}

/// Removes blank space from both ends of `s`.
pub fn trim_str<'a>(s: &'a str) -> (r: &'a str)
    ensures
        r@ == trim_spec(s@),
{
    let n = s.unicode_len();
    let mut start: usize = 0;
    while start < n && is_space(s.get_char(start))
        invariant
            n == s@.len(),
            start <= n,
            forall|j: int| 0 <= j < start ==> is_space_char(s@[j]),
        decreases n - start,
    {
        start = start + 1;
    }
    let mut end: usize = n;
    while end > start && is_space(s.get_char(end - 1))
        invariant
            n == s@.len(),
            start <= end <= n,
            forall|j: int| end <= j < n ==> is_space_char(s@[j]),
        decreases end,
    {
        end = end - 1;
    }
    proof {
        lemma_leading_spaces_at(s@, start as int);
        let front = s@.subrange(start as int, n as int);
        lemma_trailing_spaces_at(front, end - start);
        assert(front.subrange(0, end - start) =~= s@.subrange(start as int, end as int));
    }
    s.substring_char(start, end)
}

/// Character-wise string equality.
pub fn str_eq(a: &str, b: &str) -> (r: bool)
    ensures
        r == (a@ == b@),
{
    let na = a.unicode_len();
    let nb = b.unicode_len();
    if na != nb {
        return false;
    }
    let mut i: usize = 0;
    while i < na
        invariant
            na == a@.len(),
            na == b@.len(),
            i <= na,
            forall|j: int| 0 <= j < i ==> a@[j] == b@[j],
        decreases na - i,
    {
        if a.get_char(i) != b.get_char(i) {
            return false;
        }
        i = i + 1;
    }
    proof {
        assert(a@ =~= b@);
    }
    true
}

/// Whether `p` is a prefix of `s`, character by character.
pub fn str_starts_with(s: &str, p: &str) -> (r: bool)
    ensures
        r == p@.is_prefix_of(s@),
{
    let ns = s.unicode_len();
    let np = p.unicode_len();
    if np > ns {
        assert(!p@.is_prefix_of(s@));
        return false;
    }
    let mut i: usize = 0;
    while i < np
        invariant
            ns == s@.len(),
            np == p@.len(),
            np <= ns,
            i <= np,
            forall|j: int| 0 <= j < i ==> s@[j] == p@[j],
        decreases np - i,
    {
        if s.get_char(i) != p.get_char(i) {
            assert(!p@.is_prefix_of(s@));
            return false;
        }
        i = i + 1;
    }
    proof {
        assert(p@ =~= s@.subrange(0, p@.len() as int));
    }
    true
}

/// The segments of `s` between occurrences of the separator `sep`: one
/// segment more than there are separators, empty segments kept.
pub open spec fn split_sep(s: Seq<char>, sep: char) -> Seq<Seq<char>>
    decreases s.len(),
{
    if s.len() == 0 {
        seq![Seq::<char>::empty()]
    } else if s[0] == sep {
        seq![Seq::<char>::empty()] + split_sep(s.drop_first(), sep)
    } else {
        let rest = split_sep(s.drop_first(), sep);
        seq![seq![s[0]] + rest[0]] + rest.drop_first()
    }
}

pub proof fn lemma_split_sep_nonempty(s: Seq<char>, sep: char)
    ensures
        split_sep(s, sep).len() >= 1,
    decreases s.len(),
{
    if s.len() > 0 {
        lemma_split_sep_nonempty(s.drop_first(), sep);
    }
}

/// Splitting behaves like scanning: when the first `i` characters hold no
/// separator, the text up to `i` is the head segment — the whole text when
/// `i` reaches the end, else everything before the separator at `i`, with
/// the split of what follows it behind.
pub proof fn lemma_split_sep_peel(s: Seq<char>, sep: char, i: int)
    requires
        0 <= i <= s.len(),
        forall|j: int| 0 <= j < i ==> s[j] != sep,
    ensures
        i == s.len() ==> split_sep(s, sep) == seq![s],
        i < s.len() && s[i] == sep ==> split_sep(s, sep) == seq![s.subrange(0, i)] + split_sep(
            s.subrange(i + 1, s.len() as int),
            sep,
        ),
    decreases i,
{
    lemma_split_sep_nonempty(s, sep);
    if i == 0 {
        if s.len() == 0 {
            assert(s =~= Seq::<char>::empty());
            assert(split_sep(s, sep) =~= seq![s]);
        } else if s[0] == sep {
            assert(s.subrange(0, 0) =~= Seq::<char>::empty());
            assert(s.subrange(1, s.len() as int) =~= s.drop_first());
            assert(split_sep(s, sep) =~= seq![s.subrange(0, 0)] + split_sep(
                s.subrange(1, s.len() as int),
                sep,
            ));
        }
    } else {
        assert(s[0] != sep);
        let d = s.drop_first();
        lemma_split_sep_peel(d, sep, i - 1);
        let rest = split_sep(d, sep);
        lemma_split_sep_nonempty(d, sep);
        if i == s.len() {
            assert(rest == seq![d]);
            assert(seq![s[0]] + rest[0] =~= s);
            assert(rest.drop_first() =~= Seq::<Seq<char>>::empty());
            assert(split_sep(s, sep) =~= seq![s]);
        } else if s[i] == sep {
            assert(d[i - 1] == sep);
            assert(rest == seq![d.subrange(0, i - 1)] + split_sep(
                d.subrange(i, d.len() as int),
                sep,
            ));
            assert(seq![s[0]] + rest[0] =~= s.subrange(0, i));
            assert(d.subrange(i, d.len() as int) =~= s.subrange(i + 1, s.len() as int));
            assert(rest.drop_first() =~= split_sep(s.subrange(i + 1, s.len() as int), sep));
            assert(split_sep(s, sep) =~= seq![s.subrange(0, i)] + split_sep(
                s.subrange(i + 1, s.len() as int),
                sep,
            ));
        }
    }
}

} // verus!
