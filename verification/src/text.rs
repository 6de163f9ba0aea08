//! Splitting of specification strings.
//!
//! Mount specifications are comma-separated `key=value` tokens, and
//! destination paths are slash-separated segments; both reduce to two
//! operations: splitting a string at every occurrence of a separator,
//! and splitting a token at the first occurrence of one.

use vstd::prelude::*;

verus! {

/// The pieces of `s` between occurrences of `sep`: one piece more than
/// there are separators, each piece free of `sep`, in order.
pub open spec fn spec_split(s: Seq<char>, sep: char) -> Seq<Seq<char>>
    decreases s.len(),
{
    if s.len() == 0 {
        seq![Seq::<char>::empty()]
    } else if s[0] == sep {
        seq![Seq::<char>::empty()] + spec_split(s.drop_first(), sep)
    } else {
        let rest = spec_split(s.drop_first(), sep);
        seq![seq![s[0]] + rest[0]] + rest.drop_first()
    }
}

/// A split always yields at least one piece.
pub proof fn lemma_split_nonempty(s: Seq<char>, sep: char)
    ensures
        spec_split(s, sep).len() >= 1,
    decreases s.len(),
{
    if s.len() == 0 {
    } else {
        lemma_split_nonempty(s.drop_first(), sep);
    }
}

/// The first piece with `p` glued onto its front.
pub open spec fn prepend_first(p: Seq<char>, ss: Seq<Seq<char>>) -> Seq<Seq<char>>
    recommends
        ss.len() >= 1,
{
    seq![p + ss[0]] + ss.drop_first()
}

/// Splits `s` at every occurrence of `sep`.
pub fn split_on(s: &str, sep: char) -> (r: Vec<String>)
    ensures
        r@.map_values(|t: String| t@) == spec_split(s@, sep),
{
    let n: usize = s.unicode_len();
    let mut done: Vec<String> = Vec::new();
    let mut cur: String = String::new();
    proof {
        lemma_split_nonempty(s@, sep);
        assert(prepend_first(cur@, spec_split(s@.subrange(0, n as int), sep)) =~~= spec_split(
            s@.subrange(0, n as int),
            sep,
        ));
        assert(s@.subrange(0, n as int) =~= s@);
    }
    let mut i: usize = 0;
    while i < n
        invariant
            0 <= i <= n,
            n == s@.len(),
            spec_split(s@, sep) =~~= done@.map_values(|t: String| t@) + prepend_first(
                cur@,
                spec_split(s@.subrange(i as int, n as int), sep),
            ),
        decreases n - i,
    {
        let ghost tail_i = s@.subrange(i as int, n as int);
        let ghost tail_i1 = s@.subrange(i as int + 1, n as int);
        proof {
            assert(tail_i.len() > 0);
            assert(tail_i[0] == s@[i as int]);
            assert(tail_i.drop_first() =~= tail_i1);
            lemma_split_nonempty(tail_i1, sep);
        }
        let c = s.get_char(i);
        if c == sep {
            proof {
                assert(spec_split(tail_i, sep) =~~= seq![Seq::<char>::empty()] + spec_split(
                    tail_i1,
                    sep,
                ));
                assert(cur@ + Seq::<char>::empty() =~= cur@);
                assert(done@.map_values(|t: String| t@) + prepend_first(
                    cur@,
                    spec_split(tail_i, sep),
                ) =~~= done@.push(cur).map_values(|t: String| t@) + prepend_first(
                    Seq::<char>::empty(),
                    spec_split(tail_i1, sep),
                ));
            }
            done.push(cur);
            cur = String::new();
        } else {
            let ch = s.substring_char(i, i + 1);
            proof {
                let rest = spec_split(tail_i1, sep);
                assert(spec_split(tail_i, sep) =~~= seq![seq![tail_i[0]] + rest[0]]
                    + rest.drop_first());
                assert(ch@ =~= seq![s@[i as int]]);
                assert(cur@ + (seq![tail_i[0]] + rest[0]) =~= (cur@ + ch@) + rest[0]);
                assert(prepend_first(cur@, spec_split(tail_i, sep)) =~~= prepend_first(
                    cur@ + ch@,
                    rest,
                ));
            }
            cur.append(ch);
        }
        i = i + 1;
    }
    proof {
        assert(s@.subrange(n as int, n as int) =~= Seq::<char>::empty());
        assert(prepend_first(cur@, spec_split(Seq::<char>::empty(), sep)) =~~= seq![cur@]);
        assert(done@.map_values(|t: String| t@) + seq![cur@] =~~= done@.push(cur).map_values(
            |t: String| t@,
        ));
    }
    done.push(cur);
    done
}

/// The parts of `t` before and after the first occurrence of `sep`, if
/// `sep` occurs at all.
pub open spec fn spec_split_once(t: Seq<char>, sep: char) -> Option<(Seq<char>, Seq<char>)>
    decreases t.len(),
{
    if t.len() == 0 {
        None
    } else if t[0] == sep {
        Some((Seq::<char>::empty(), t.drop_first()))
    } else {
        match spec_split_once(t.drop_first(), sep) {
            None => None,
            Some(kv) => Some((seq![t[0]] + kv.0, kv.1)),
        }
    }
}

/// Where `sep` first occurs at position `j`, the split is the part
/// before `j` and the part after it.
pub proof fn lemma_split_once_found(t: Seq<char>, sep: char, j: int)
    requires
        0 <= j < t.len(),
        t[j] == sep,
        forall|k: int| 0 <= k < j ==> t[k] != sep,
    ensures
        spec_split_once(t, sep) == Some((t.subrange(0, j), t.subrange(j + 1, t.len() as int))),
    decreases j,
{
    if j == 0 {
        assert(t.subrange(0, 0) =~= Seq::<char>::empty());
        assert(t.subrange(1, t.len() as int) =~= t.drop_first());
    } else {
        let d = t.drop_first();
        assert(forall|k: int| 0 <= k < j - 1 ==> d[k] != sep);
        lemma_split_once_found(d, sep, j - 1);
        assert(seq![t[0]] + d.subrange(0, j - 1) =~= t.subrange(0, j));
        assert(d.subrange(j, d.len() as int) =~= t.subrange(j + 1, t.len() as int));
    }
}

/// Where `sep` does not occur, there is nothing to split.
pub proof fn lemma_split_once_none(t: Seq<char>, sep: char)
    requires
        forall|k: int| 0 <= k < t.len() ==> t[k] != sep,
    ensures
        spec_split_once(t, sep) is None,
    decreases t.len(),
{
    if t.len() > 0 {
        lemma_split_once_none(t.drop_first(), sep);
    }
}

/// Splits `t` at the first occurrence of `sep`; `None` where `sep`
/// does not occur in `t`.
pub fn split_once_on(t: &str, sep: char) -> (r: Option<(String, String)>)
    ensures
        match spec_split_once(t@, sep) {
            None => r is None,
            Some(kv) => (r matches Some(p) && p.0@ == kv.0 && p.1@ == kv.1),
        },
{
    let n: usize = t.unicode_len();
    let mut j: usize = 0;
    while j < n
        invariant
            0 <= j <= n,
            n == t@.len(),
            forall|k: int| 0 <= k < j ==> t@[k] != sep,
        decreases n - j,
    {
        let c = t.get_char(j);
        if c == sep {
            proof {
                lemma_split_once_found(t@, sep, j as int);
            }
            let before = String::from_str(t.substring_char(0, j));
            let after = String::from_str(t.substring_char(j + 1, n));
            return Some((before, after));
        }
        j = j + 1;
    }
    proof {
        lemma_split_once_none(t@, sep);
    }
    None
}

} // verus!
