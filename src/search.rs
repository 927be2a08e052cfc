//! Planning a search: the optimised query split into sub-queries, and limits on how
//! many sub-queries and results are kept.
use vstd::prelude::*;

verus! {

/// The pieces of `s` between `;` separators, as `str::split(';')` yields them.
pub open spec fn semicolon_fields(s: Seq<char>) -> Seq<Seq<char>>
    decreases s.len(),
{
    if s.len() == 0 {
        seq![Seq::empty()]
    } else {
        let rest = semicolon_fields(s.drop_last());
        if s.last() == ';' {
            rest.push(Seq::empty())
        } else {
            rest.update(rest.len() - 1, rest.last().push(s.last()))
        }
    }
}

/// `s` without its line feeds.
pub open spec fn without_newlines(s: Seq<char>) -> Seq<char>
    decreases s.len(),
{
    if s.len() == 0 {
        s
    } else if s.last() == '\n' {
        without_newlines(s.drop_last())
    } else {
        without_newlines(s.drop_last()).push(s.last())
    }
}

/// The sub-queries of an optimised query: where it holds a `;`, the pieces between
/// separators, each without line feeds; otherwise the query itself.
pub open spec fn search_queries(s: Seq<char>) -> Seq<Seq<char>> {
    if s.contains(';') {
        semicolon_fields(s).map_values(|f: Seq<char>| without_newlines(f))
    } else {
        seq![s]
    }
}

/// The first `max` items of `items` where `max` is given and not negative; all of
/// them otherwise.
pub open spec fn limited<T>(items: Seq<T>, max: Option<i32>) -> Seq<T> {
    match max {
        Some(m) => if 0 <= m && m < items.len() {
            items.take(m as int)
        } else {
            items
        },
        None => items,
    }
}

proof fn lemma_fields_nonempty(s: Seq<char>)
    ensures
        semicolon_fields(s).len() >= 1,
    decreases s.len(),
{
    if s.len() > 0 {
        lemma_fields_nonempty(s.drop_last());
    }
}

/// Splits an optimised query into its sub-queries: at each `;`, with line feeds
/// removed from each piece, where the query holds a `;`; otherwise the whole query.
pub fn split_search_queries(optimised: &str) -> (r: Vec<String>)
    ensures
        r@.map_values(|q: String| q@) == search_queries(optimised@),
{
    let n = optimised.unicode_len();
    let mut done: Vec<String> = Vec::new();
    let mut current = String::new();
    let mut separated = false;
    let mut i: usize = 0;
    assert(optimised@.take(0) =~= Seq::<char>::empty());
    while i < n
        invariant
            n == optimised@.len(),
            i <= n,
            separated == optimised@.take(i as int).contains(';'),
            semicolon_fields(optimised@.take(i as int)).map_values(|f: Seq<char>| without_newlines(f))
                =~= done@.map_values(|q: String| q@).push(current@),
        decreases n - i,
    {
        let ghost before = optimised@.take(i as int);
        let ghost after = optimised@.take(i as int + 1);
        let ghost fields = semicolon_fields(before);
        proof {
            assert(after.drop_last() =~= before);
            assert(after.last() == optimised@[i as int]);
            lemma_fields_nonempty(before);
            let mapped = fields.map_values(|f: Seq<char>| without_newlines(f));
            assert(mapped.len() == done@.len() + 1);
            assert(mapped[mapped.len() - 1] == current@);
            assert(without_newlines(fields.last()) == current@);
        }
        let c = optimised.get_char(i);
        if c == ';' {
            let ghost old_done = done@.map_values(|q: String| q@);
            let piece = current;
            done.push(piece);
            current = String::new();
            separated = true;
            proof {
                assert(after.contains(';')) by {
                    assert(after[i as int] == ';');
                }
                assert(semicolon_fields(after) == fields.push(Seq::empty()));
                assert(without_newlines(Seq::<char>::empty()) == Seq::<char>::empty());
                assert(done@.map_values(|q: String| q@) =~= old_done.push(piece@));
                assert(semicolon_fields(after).map_values(|f: Seq<char>| without_newlines(f))
                    =~= done@.map_values(|q: String| q@).push(current@));
            }
        } else {
            let ghost old_current = current@;
            if c != '\n' {
                current.append(optimised.substring_char(i, i + 1));
            }
            proof {
                let last = fields.last();
                assert(last.push(c).drop_last() =~= last);
                assert(last.push(c).last() == c);
                if c != '\n' {
                    assert(optimised@.subrange(i as int, i as int + 1) =~= seq![c]);
                    assert(current@ =~= old_current.push(c));
                }
                assert(without_newlines(last.push(c)) =~= current@);
                assert(semicolon_fields(after) == fields.update(fields.len() - 1, last.push(c)));
                let mapped = fields.map_values(|f: Seq<char>| without_newlines(f));
                assert(mapped =~= done@.map_values(|q: String| q@).push(old_current));
                assert(semicolon_fields(after).map_values(|f: Seq<char>| without_newlines(f))
                    =~= mapped.update(mapped.len() - 1, without_newlines(last.push(c))));
                assert(after.contains(';') == before.contains(';')) by {
                    if after.contains(';') {
                        let k = choose|k: int| 0 <= k < after.len() && after[k] == ';';
                        assert(k < i);
                        assert(before[k] == ';');
                    }
                    if before.contains(';') {
                        let k = choose|k: int| 0 <= k < before.len() && before[k] == ';';
                        assert(after[k] == ';');
                    }
                }
                assert(semicolon_fields(after).map_values(|f: Seq<char>| without_newlines(f))
                    =~= done@.map_values(|q: String| q@).push(current@));
            }
        }
        i += 1;
    }
    assert(optimised@.take(n as int) =~= optimised@);
    if separated {
        done.push(current);
        done
    } else {
        let mut whole: Vec<String> = Vec::new();
        whole.push(String::from_str(optimised));
        assert(whole@.map_values(|q: String| q@) =~= seq![optimised@]);
        whole
    }
}

/// Keeps the first `max` of `items` where `max` is given and not negative.
pub fn take_at_most<T>(items: Vec<T>, max: Option<i32>) -> (r: Vec<T>)
    ensures
        r@ == limited(items@, max),
{
    let mut items = items;
    match max {
        Some(m) => {
            if 0 <= m && (m as usize) < items.len() {
                items.truncate(m as usize);
            }
        },
        None => {},
    }
    items
}

} // verus!
