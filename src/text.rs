//! White space as Unicode defines it, and the two text transforms built on it:
//! collapsing runs of white space and trimming it from both ends.
use vstd::prelude::*;

verus! {

/// The Unicode `White_Space` property: the characters that `char::is_whitespace`,
/// `str::trim` and the regular-expression class `\s` all treat as white space.
pub open spec fn is_white_space(c: char) -> bool {
    let u = c as u32;
    (0x9 <= u && u <= 0xd) || u == 0x20 || u == 0x85 || u == 0xa0 || u == 0x1680 || (0x2000 <= u
        && u <= 0x200a) || u == 0x2028 || u == 0x2029 || u == 0x202f || u == 0x205f || u == 0x3000
}

/// `s` with every maximal run of white space replaced by one `' '`; `after_space`
/// tells whether such a replacement has just been written.
pub open spec fn collapse_from(s: Seq<char>, after_space: bool) -> Seq<char>
    decreases s.len(),
{
    if s.len() == 0 {
        Seq::empty()
    } else if is_white_space(s[0]) {
        if after_space {
            collapse_from(s.drop_first(), true)
        } else {
            seq![' '] + collapse_from(s.drop_first(), true)
        }
    } else {
        seq![s[0]] + collapse_from(s.drop_first(), false)
    }
}

/// `s` with every maximal run of white space replaced by a single space.
pub open spec fn collapse_white_space(s: Seq<char>) -> Seq<char> {
    collapse_from(s, false)
}

/// `s` without its leading white space.
pub open spec fn trim_start(s: Seq<char>) -> Seq<char>
    decreases s.len(),
{
    if s.len() > 0 && is_white_space(s[0]) {
        trim_start(s.drop_first())
    } else {
        s
    }
}

/// `s` without its trailing white space.
pub open spec fn trim_end(s: Seq<char>) -> Seq<char>
    decreases s.len(),
{
    if s.len() > 0 && is_white_space(s.last()) {
        trim_end(s.drop_last())
    } else {
        s
    }
}

/// `s` without leading or trailing white space, as `str::trim` returns it.
pub open spec fn trim_white_space(s: Seq<char>) -> Seq<char> {
    trim_end(trim_start(s))
}

/// No two neighbouring characters of `s` are both white space.
pub open spec fn has_no_white_space_run(s: Seq<char>) -> bool {
    forall|i: int| 0 <= i < s.len() - 1 ==> !(#[trigger] is_white_space(s[i]) && is_white_space(s[i + 1]))
}

/// `s` neither starts nor ends with white space.
pub open spec fn has_no_edge_white_space(s: Seq<char>) -> bool {
    s.len() > 0 ==> !is_white_space(s[0]) && !is_white_space(s.last())
}

proof fn lemma_collapse_from(s: Seq<char>, after_space: bool)
    ensures
        has_no_white_space_run(collapse_from(s, after_space)),
        after_space && collapse_from(s, after_space).len() > 0 ==> !is_white_space(
            collapse_from(s, after_space)[0],
        ),
    decreases s.len(),
{
    if s.len() > 0 {
        lemma_collapse_from(s.drop_first(), true);
        lemma_collapse_from(s.drop_first(), false);
        let out = collapse_from(s, after_space);
        if is_white_space(s[0]) {
            if !after_space {
                let rest = collapse_from(s.drop_first(), true);
                assert forall|i: int| 0 <= i < out.len() - 1 implies !(#[trigger] is_white_space(out[i])
                    && is_white_space(out[i + 1])) by {
                    if i > 0 {
                        assert(out[i] == rest[i - 1]);
                        assert(out[i + 1] == rest[i]);
                    } else {
                        assert(out[1] == rest[0]);
                    }
                }
            }
        } else {
            let rest = collapse_from(s.drop_first(), false);
            assert forall|i: int| 0 <= i < out.len() - 1 implies !(#[trigger] is_white_space(out[i])
                && is_white_space(out[i + 1])) by {
                if i > 0 {
                    assert(out[i] == rest[i - 1]);
                    assert(out[i + 1] == rest[i]);
                } else {
                    assert(out[0] == s[0]);
                }
            }
        }
    }
}

proof fn lemma_trim_start(s: Seq<char>)
    ensures
        trim_start(s) == s.subrange(s.len() - trim_start(s).len(), s.len() as int),
        trim_start(s).len() <= s.len(),
        trim_start(s).len() > 0 ==> !is_white_space(trim_start(s)[0]),
    decreases s.len(),
{
    if s.len() > 0 && is_white_space(s[0]) {
        lemma_trim_start(s.drop_first());
        assert(trim_start(s) =~= s.subrange(s.len() - trim_start(s).len(), s.len() as int));
    } else {
        assert(s =~= s.subrange(0, s.len() as int));
    }
}

proof fn lemma_trim_end(s: Seq<char>)
    ensures
        trim_end(s) == s.subrange(0, trim_end(s).len() as int),
        trim_end(s).len() <= s.len(),
        trim_end(s).len() > 0 ==> !is_white_space(trim_end(s).last()),
    decreases s.len(),
{
    if s.len() > 0 && is_white_space(s.last()) {
        lemma_trim_end(s.drop_last());
        assert(trim_end(s) =~= s.subrange(0, trim_end(s).len() as int));
    } else {
        assert(s =~= s.subrange(0, s.len() as int));
    }
}

/// Collapsing white space and then trimming it leaves no run of two or more
/// white-space characters and no white space at either end.
pub proof fn lemma_cleaned_white_space(s: Seq<char>)
    ensures
        has_no_white_space_run(trim_white_space(collapse_white_space(s))),
        has_no_edge_white_space(trim_white_space(collapse_white_space(s))),
{
    let c = collapse_white_space(s);
    let a = trim_start(c);
    let b = trim_end(a);
    lemma_collapse_from(s, false);
    lemma_trim_start(c);
    lemma_trim_end(a);
    assert forall|i: int| 0 <= i < b.len() - 1 implies !(#[trigger] is_white_space(b[i])
        && is_white_space(b[i + 1])) by {
        let k = c.len() - a.len();
        assert(b[i] == c[i + k]);
        assert(b[i + 1] == c[i + 1 + k]);
    }
    if b.len() > 0 {
        assert(b[0] == a[0]);
    }
}

} // verus!
