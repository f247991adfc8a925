use crate::text::{lemma_split_sep_peel, split_sep, trim_spec, trim_str};
use vstd::prelude::*;

verus! {

/// The segments of `s` between newline characters: one segment more than
/// there are newlines, empty segments kept.
pub open spec fn split_newlines(s: Seq<char>) -> Seq<Seq<char>> {
    split_sep(s, '\n')
}

/// A carriage return left at the end of a line by a CRLF ending is
/// dropped.
pub open spec fn strip_cr(l: Seq<char>) -> Seq<char> {
    if l.len() > 0 && l.last() == '\r' {
        l.drop_last()
    } else {
        l
    }
}

/// Every line with its CRLF carriage return dropped.
pub open spec fn strip_all(ls: Seq<Seq<char>>) -> Seq<Seq<char>> {
    ls.map_values(|l: Seq<char>| strip_cr(l))
}

/// The lines of a text as a line reader yields them: split at every
/// newline, no extra empty line for a final newline, carriage returns of
/// CRLF endings dropped.
pub open spec fn lines_of(s: Seq<char>) -> Seq<Seq<char>> {
    if s.len() == 0 {
        Seq::empty()
    } else if s.last() == '\n' {
        strip_all(split_newlines(s).drop_last())
    } else {
        strip_all(split_newlines(s))
    }
}

/// Splits a text into its lines, as `lines_of` says.
pub fn split_lines(s: &str) -> (r: Vec<String>)
    ensures
        r.deep_view() == lines_of(s@),
{
    let n = s.unicode_len();
    let mut r: Vec<String> = Vec::new();
    if n == 0 {
        proof {
            assert(r.deep_view() =~= lines_of(s@));
        }
        return r;
    }
    let ghost mut segs: Seq<Seq<char>> = Seq::empty();
    let mut start: usize = 0;
    let mut i: usize = 0;
    proof {
        assert(s@.subrange(0, n as int) =~= s@);
        assert(segs + split_newlines(s@) =~= split_newlines(s@));
        assert(r.deep_view() =~= strip_all(segs));
    }
    while i < n
        invariant
            n == s@.len(),
            n > 0,
            start <= i <= n,
            forall|j: int| start <= j < i ==> s@[j] != '\n',
            start > 0 ==> s@[start - 1] == '\n',
            split_newlines(s@) == segs + split_newlines(s@.subrange(start as int, n as int)),
            r.deep_view() == strip_all(segs),
        decreases n - i,
    {
        if s.get_char(i) == '\n' {
            let end: usize = if i > start && s.get_char(i - 1) == '\r' {
                i - 1
            } else {
                i
            };
            let ghost r0 = r.deep_view();
            let ghost segs0 = segs;
            r.push(String::from_str(s.substring_char(start, end)));
            proof {
                let suffix = s@.subrange(start as int, n as int);
                lemma_split_sep_peel(suffix, '\n', i - start);
                let line = s@.subrange(start as int, i as int);
                assert(suffix.subrange(0, i - start) =~= line);
                assert(suffix.subrange(i - start + 1, suffix.len() as int) =~= s@.subrange(
                    i + 1,
                    n as int,
                ));
                assert(strip_cr(line) =~= s@.subrange(start as int, end as int));
                segs = segs0 + seq![line];
                assert((segs0 + seq![line]) + split_newlines(s@.subrange(i + 1, n as int))
                    =~= segs0 + (seq![line] + split_newlines(s@.subrange(i + 1, n as int))));
                assert(split_newlines(s@) == segs + split_newlines(
                    s@.subrange(i + 1 as int, n as int),
                ));
                assert(strip_all(segs0).len() == segs0.len());
                assert(r0.len() == segs0.len());
                assert(r@.len() == r0.len() + 1);
                assert(segs.len() == segs0.len() + 1);
                assert forall|k: int| 0 <= k < segs.len() implies r.deep_view()[k] == #[trigger] strip_all(
                    segs,
                )[k] by {
                    assert(strip_all(segs)[k] == strip_cr(segs[k]));
                    assert(r.deep_view()[k] == r@[k]@);
                    if k < segs0.len() {
                        assert(segs[k] == segs0[k]);
                        assert(r.deep_view()[k] == r0[k]);
                        assert(r0[k] == strip_all(segs0)[k]);
                        assert(strip_all(segs0)[k] == strip_cr(segs0[k]));
                    } else {
                        assert(segs[k] == line);
                        assert(r.deep_view()[k] == s@.subrange(start as int, end as int));
                    }
                }
                assert(r.deep_view() =~= strip_all(segs));
            }
            start = i + 1;
        }
        i = i + 1;
    }
    if start < n {
        let end: usize = if s.get_char(n - 1) == '\r' {
            n - 1
        } else {
            n
        };
        let ghost r0 = r.deep_view();
        let ghost segs0 = segs;
        r.push(String::from_str(s.substring_char(start, end)));
        proof {
            let suffix = s@.subrange(start as int, n as int);
            lemma_split_sep_peel(suffix, '\n', suffix.len() as int);
            assert(strip_cr(suffix) =~= s@.subrange(start as int, end as int));
            segs = segs0 + seq![suffix];
            assert(split_newlines(s@) =~= segs);
            assert(strip_all(segs0).len() == segs0.len());
            assert(r0.len() == segs0.len());
            assert(r@.len() == r0.len() + 1);
            assert(segs.len() == segs0.len() + 1);
            assert forall|k: int| 0 <= k < segs.len() implies r.deep_view()[k] == #[trigger] strip_all(
                segs,
            )[k] by {
                assert(strip_all(segs)[k] == strip_cr(segs[k]));
                assert(r.deep_view()[k] == r@[k]@);
                if k < segs0.len() {
                    assert(segs[k] == segs0[k]);
                    assert(r.deep_view()[k] == r0[k]);
                    assert(r0[k] == strip_all(segs0)[k]);
                    assert(strip_all(segs0)[k] == strip_cr(segs0[k]));
                } else {
                    assert(segs[k] == suffix);
                    assert(r.deep_view()[k] == s@.subrange(start as int, end as int));
                }
            }
            assert(r.deep_view() =~= strip_all(segs));
            assert(s@.last() != '\n');
            assert(r.deep_view() == lines_of(s@));
        }
    } else {
        proof {
            let suffix = s@.subrange(start as int, n as int);
            assert(suffix.len() == 0);
            assert(suffix =~= Seq::<char>::empty());
            assert(split_newlines(suffix) == seq![Seq::<char>::empty()]);
            assert(s@[start - 1] == '\n');
            assert(s@.last() == '\n');
            assert(split_newlines(s@).drop_last() =~= segs);
            assert(r.deep_view() == lines_of(s@));
        }
    }
    r
}

/// Paragraph lines joined back together by single newlines.
pub open spec fn join_lines(ls: Seq<Seq<char>>) -> Seq<char>
    decreases ls.len(),
{
    if ls.len() == 0 {
        Seq::empty()
    } else if ls.len() == 1 {
        ls[0]
    } else {
        join_lines(ls.drop_last()) + "\n"@ + ls.last()
    }
}

/// Joins paragraph lines with newlines, as `join_lines` says.
pub fn join_lines_exec(ls: &Vec<String>) -> (r: String)
    ensures
        r@ == join_lines(ls.deep_view()),
{
    let mut r = String::new();
    if ls.len() == 0 {
        return r;
    }
    r.append(ls[0].as_str());
    let mut i: usize = 1;
    while i < ls.len()
        invariant
            1 <= i <= ls@.len(),
            r@ == join_lines(ls.deep_view().subrange(0, i as int)),
        decreases ls@.len() - i,
    {
        r.append("\n");
        r.append(ls[i].as_str());
        proof {
            let prefix = ls.deep_view().subrange(0, i + 1);
            assert(prefix.drop_last() =~= ls.deep_view().subrange(0, i as int));
            assert(prefix.last() == ls@[i as int]@);
        }
        i = i + 1;
    }
    proof {
        assert(ls.deep_view().subrange(0, ls@.len() as int) =~= ls.deep_view());
    }
    r
}

/// The prompts a script yields, walked line by line with the lines of the
/// unfinished paragraph carried along: a line whose trimmed form starts
/// with `#` is a comment and dropped; a blank line closes the paragraph,
/// if one is open; any other line joins the paragraph, trimmed.
pub open spec fn paragraphs_rec(lines: Seq<Seq<char>>, cur: Seq<Seq<char>>) -> Seq<Seq<char>>
    decreases lines.len(),
{
    if lines.len() == 0 {
        if cur.len() == 0 {
            Seq::empty()
        } else {
            seq![join_lines(cur)]
        }
    } else {
        let l = trim_spec(lines[0]);
        let rest = lines.drop_first();
        if l.len() > 0 && l[0] == '#' {
            paragraphs_rec(rest, cur)
        } else if l.len() == 0 {
            if cur.len() == 0 {
                paragraphs_rec(rest, cur)
            } else {
                seq![join_lines(cur)] + paragraphs_rec(rest, Seq::empty())
            }
        } else {
            paragraphs_rec(rest, cur.push(l))
        }
    }
}

/// The prompts of a whole script: one per paragraph, comment lines
/// excluded, each the newline-joined trimmed lines of its paragraph.
pub open spec fn script_prompts(s: Seq<char>) -> Seq<Seq<char>> {
    paragraphs_rec(lines_of(s), Seq::empty())
}

/// Parses a script into the prompts to run, one per paragraph, as
/// `script_prompts` says.
pub fn parse_script(text: &str) -> (prompts: Vec<String>)
    ensures
        prompts.deep_view() == script_prompts(text@),
{
    let lines = split_lines(text);
    let ghost all = lines.deep_view();
    let mut prompts: Vec<String> = Vec::new();
    let mut cur: Vec<String> = Vec::new();
    let mut i: usize = 0;
    proof {
        assert(all.subrange(0, all.len() as int) =~= all);
        assert(prompts.deep_view() =~= Seq::<Seq<char>>::empty());
        assert(cur.deep_view() =~= Seq::<Seq<char>>::empty());
        assert(Seq::<Seq<char>>::empty() + paragraphs_rec(all, Seq::<Seq<char>>::empty())
            =~= paragraphs_rec(all, Seq::<Seq<char>>::empty()));
    }
    while i < lines.len()
        invariant
            i <= lines@.len(),
            all == lines.deep_view(),
            paragraphs_rec(all, Seq::empty()) == prompts.deep_view() + paragraphs_rec(
                all.subrange(i as int, all.len() as int),
                cur.deep_view(),
            ),
        decreases lines@.len() - i,
    {
        let ghost suffix = all.subrange(i as int, all.len() as int);
        let ghost p0 = prompts.deep_view();
        let ghost c0 = cur.deep_view();
        proof {
            assert(suffix[0] == all[i as int]);
            assert(all[i as int] == lines@[i as int]@);
            assert(suffix.drop_first() =~= all.subrange(i + 1, all.len() as int));
        }
        let t = trim_str(lines[i].as_str());
        let tn = t.unicode_len();
        if tn > 0 && t.get_char(0) == '#' {
            proof {
                assert(paragraphs_rec(suffix, c0) == paragraphs_rec(suffix.drop_first(), c0));
            }
        } else if tn == 0 {
            if cur.len() > 0 {
                prompts.push(join_lines_exec(&cur));
                cur = Vec::new();
                proof {
                    assert(cur.deep_view() =~= Seq::<Seq<char>>::empty());
                    assert(prompts.deep_view() =~= p0.push(join_lines(c0)));
                    assert(paragraphs_rec(suffix, c0) == seq![join_lines(c0)] + paragraphs_rec(
                        suffix.drop_first(),
                        Seq::empty(),
                    ));
                    assert(p0 + (seq![join_lines(c0)] + paragraphs_rec(
                        suffix.drop_first(),
                        Seq::empty(),
                    )) =~= p0.push(join_lines(c0)) + paragraphs_rec(
                        suffix.drop_first(),
                        Seq::empty(),
                    ));
                }
            } else {
                proof {
                    assert(c0.len() == 0);
                    assert(paragraphs_rec(suffix, c0) == paragraphs_rec(suffix.drop_first(), c0));
                }
            }
        } else {
            cur.push(String::from_str(t));
            proof {
                assert(cur.deep_view() =~= c0.push(t@));
                assert(paragraphs_rec(suffix, c0) == paragraphs_rec(
                    suffix.drop_first(),
                    c0.push(trim_spec(suffix[0])),
                ));
            }
        }
        i = i + 1;
    }
    proof {
        assert(all.subrange(all.len() as int, all.len() as int) =~= Seq::<Seq<char>>::empty());
    }
    let ghost p0 = prompts.deep_view();
    let ghost c0 = cur.deep_view();
    if cur.len() > 0 {
        prompts.push(join_lines_exec(&cur));
        proof {
            assert(prompts.deep_view() =~= p0.push(join_lines(c0)));
            assert(p0 + seq![join_lines(c0)] =~= p0.push(join_lines(c0)));
        }
    } else {
        proof {
            assert(c0.len() == 0);
            assert(p0 + Seq::<Seq<char>>::empty() =~= p0);
        }
    }
    prompts
}

} // verus!
