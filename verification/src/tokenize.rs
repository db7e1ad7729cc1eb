//! The tokenizer pass that precedes the command-line state machine.
//!
//! Every raw argument is first split on each `=` character, so
//! `--flag=value` becomes `--flag`, `value`.  Then every token that starts
//! with a single `-` (not `--`) and is longer than two characters is split
//! after its second character, so `-n1024` becomes `-n`, `1024`.

use vstd::prelude::*;

verus! {

/// The character sequences of a sequence of strings.
pub open spec fn views(v: Seq<String>) -> Seq<Seq<char>> {
    v.map_values(|s: String| s@)
}

/// Pieces of `s` between occurrences of `c`; always at least one piece.
pub open spec fn split_on(s: Seq<char>, c: char) -> Seq<Seq<char>>
    decreases s.len(),
{
    if s.len() == 0 {
        seq![Seq::<char>::empty()]
    } else {
        let rest = split_on(s.drop_first(), c);
        if s[0] == c {
            seq![Seq::<char>::empty()] + rest
        } else {
            seq![seq![s[0]] + rest[0]] + rest.drop_first()
        }
    }
}

pub proof fn lemma_split_on_nonempty(s: Seq<char>, c: char)
    ensures
        split_on(s, c).len() >= 1,
    decreases s.len(),
{
    if s.len() > 0 {
        lemma_split_on_nonempty(s.drop_first(), c);
    }
}

/// If no `c` occurs in the first `k` characters of `s`, the first piece of
/// `s` begins with those characters and the rest of the split is the split
/// of the remainder.
pub proof fn lemma_split_on_prefix(s: Seq<char>, c: char, k: int)
    requires
        0 <= k <= s.len(),
        forall|j: int| 0 <= j < k ==> s[j] != c,
    ensures
        split_on(s, c) == seq![s.take(k) + split_on(s.skip(k), c)[0]] + split_on(
            s.skip(k),
            c,
        ).drop_first(),
    decreases k,
{
    if k == 0 {
        lemma_split_on_nonempty(s, c);
        assert(s.skip(0) =~= s);
        assert(s.take(0) + split_on(s, c)[0] =~= split_on(s, c)[0]);
        assert(split_on(s, c) =~~= seq![split_on(s, c)[0]] + split_on(s, c).drop_first());
    } else {
        lemma_split_on_prefix(s.drop_first(), c, k - 1);
        let q = split_on(s.drop_first().skip(k - 1), c);
        lemma_split_on_nonempty(q[0], c);
        assert(s.drop_first().skip(k - 1) =~= s.skip(k));
        assert(s.drop_first().take(k - 1) =~= s.take(k).drop_first());
        let rest = split_on(s.drop_first(), c);
        assert(rest == seq![s.drop_first().take(k - 1) + q[0]] + q.drop_first());
        assert(rest.drop_first() =~~= q.drop_first());
        assert(seq![s[0]] + rest[0] =~= s.take(k) + q[0]);
        assert(split_on(s, c) =~~= seq![s.take(k) + split_on(s.skip(k), c)[0]] + split_on(
            s.skip(k),
            c,
        ).drop_first());
    }
}

/// A string free of `c` splits into itself alone.
pub proof fn lemma_split_on_absent(s: Seq<char>, c: char)
    requires
        forall|j: int| 0 <= j < s.len() ==> s[j] != c,
    ensures
        split_on(s, c) == seq![s],
{
    lemma_split_on_prefix(s, c, s.len() as int);
    assert(s.skip(s.len() as int) =~= Seq::<char>::empty());
    assert(s.take(s.len() as int) =~= s);
    assert(s + split_on(Seq::<char>::empty(), c)[0] =~= s);
    assert(split_on(s, c) =~~= seq![s]);
}

/// The second pass: a glued short flag such as `-n1024` is cut after its
/// second character; every other token is kept whole.
pub open spec fn glue_split(t: Seq<char>) -> Seq<Seq<char>> {
    if t.len() > 2 && t[0] == '-' && t[1] != '-' {
        seq![t.take(2), t.skip(2)]
    } else {
        seq![t]
    }
}

/// First pass over the whole argument list.
pub open spec fn split_all(args: Seq<Seq<char>>) -> Seq<Seq<char>>
    decreases args.len(),
{
    if args.len() == 0 {
        Seq::<Seq<char>>::empty()
    } else {
        split_on(args[0], '=') + split_all(args.drop_first())
    }
}

/// Second pass over the whole token list.
pub open spec fn glue_all(toks: Seq<Seq<char>>) -> Seq<Seq<char>>
    decreases toks.len(),
{
    if toks.len() == 0 {
        Seq::<Seq<char>>::empty()
    } else {
        glue_split(toks[0]) + glue_all(toks.drop_first())
    }
}

/// The token stream the state machine consumes, as a function of the raw
/// argument list.
pub open spec fn preprocess_spec(args: Seq<Seq<char>>) -> Seq<Seq<char>> {
    glue_all(split_all(args))
}

pub proof fn lemma_split_all_append(a: Seq<Seq<char>>, b: Seq<Seq<char>>)
    ensures
        split_all(a + b) == split_all(a) + split_all(b),
    decreases a.len(),
{
    if a.len() == 0 {
        assert(a + b =~~= b);
        assert(split_all(a) + split_all(b) =~~= split_all(b));
    } else {
        lemma_split_all_append(a.drop_first(), b);
        assert((a + b).drop_first() =~~= a.drop_first() + b);
        assert((a + b)[0] == a[0]);
        assert(split_on(a[0], '=') + (split_all(a.drop_first()) + split_all(b)) =~~= (split_on(
            a[0],
            '=',
        ) + split_all(a.drop_first())) + split_all(b));
    }
}

pub proof fn lemma_glue_all_append(a: Seq<Seq<char>>, b: Seq<Seq<char>>)
    ensures
        glue_all(a + b) == glue_all(a) + glue_all(b),
    decreases a.len(),
{
    if a.len() == 0 {
        assert(a + b =~~= b);
        assert(glue_all(a) + glue_all(b) =~~= glue_all(b));
    } else {
        lemma_glue_all_append(a.drop_first(), b);
        assert((a + b).drop_first() =~~= a.drop_first() + b);
        assert((a + b)[0] == a[0]);
        assert(glue_split(a[0]) + (glue_all(a.drop_first()) + glue_all(b)) =~~= (glue_split(a[0])
            + glue_all(a.drop_first())) + glue_all(b));
    }
}

/// Splits one raw argument on every `=` character.
pub fn split_eq_token(s: &str) -> (out: Vec<String>)
    ensures
        views(out@) == split_on(s@, '='),
{
    let mut out: Vec<String> = Vec::new();
    let n = s.unicode_len();
    let mut start: usize = 0;
    let mut i: usize = 0;
    proof {
        assert(s@.skip(0) =~= s@);
        assert(views(out@) =~~= Seq::<Seq<char>>::empty());
        assert(views(out@) + split_on(s@, '=') =~~= split_on(s@, '='));
    }
    while i < n
        invariant
            n == s@.len(),
            0 <= start <= i <= n,
            forall|j: int| start <= j < i ==> s@[j] != '=',
            split_on(s@, '=') == views(out@) + split_on(s@.skip(start as int), '='),
        decreases n - i,
    {
        if s.get_char(i) == '=' {
            let piece = s.substring_char(start, i).to_owned();
            proof {
                let tail = s@.skip(start as int);
                assert(forall|j: int| 0 <= j < i - start ==> tail[j] != '=');
                lemma_split_on_prefix(tail, '=', i - start as int);
                let q = split_on(tail.skip(i - start as int), '=');
                assert(tail.skip(i - start as int) =~= s@.skip(i as int));
                assert(tail.take(i - start as int) =~= piece@);
                assert(s@.skip(i as int)[0] == '=');
                assert(s@.skip(i as int).drop_first() =~= s@.skip(i + 1));
                assert(piece@ + split_on(s@.skip(i as int), '=')[0] =~= piece@);
                assert(split_on(tail, '=') =~~= seq![piece@] + split_on(s@.skip(i + 1), '='));
                assert(views(out@.push(piece)) =~~= views(out@).push(piece@));
                assert(views(out@) + (seq![piece@] + split_on(s@.skip(i + 1), '=')) =~~= views(
                    out@,
                ).push(piece@) + split_on(s@.skip(i + 1), '='));
            }
            out.push(piece);
            start = i + 1;
        }
        i = i + 1;
    }
    let piece = s.substring_char(start, n).to_owned();
    proof {
        let tail = s@.skip(start as int);
        lemma_split_on_prefix(tail, '=', n - start as int);
        assert(tail.skip(n - start as int) =~= Seq::<char>::empty());
        assert(tail.take(n - start as int) =~= piece@);
        assert(piece@ + split_on(Seq::<char>::empty(), '=')[0] =~= piece@);
        assert(split_on(tail, '=') =~~= seq![piece@]);
        assert(views(out@.push(piece)) =~~= views(out@).push(piece@));
        assert(views(out@) + seq![piece@] =~~= views(out@).push(piece@));
    }
    out.push(piece);
    out
}

/// Runs both tokenizer passes over the raw argument list.
pub fn preprocess_args(args: &Vec<String>) -> (out: Vec<String>)
    ensures
        views(out@) == preprocess_spec(views(args@)),
{
    let mut mid: Vec<String> = Vec::new();
    let mut i: usize = 0;
    while i < args.len()
        invariant
            0 <= i <= args@.len(),
            views(mid@) == split_all(views(args@).take(i as int)),
        decreases args@.len() - i,
    {
        let mut pieces = split_eq_token(args[i].as_str());
        let ghost mv = views(mid@);
        let ghost pv = views(pieces@);
        proof {
            let pre = views(args@).take(i as int);
            let one = seq![views(args@)[i as int]];
            lemma_split_all_append(pre, one);
            assert(views(args@)[i as int] == args@[i as int]@);
            assert(pv == split_on(args@[i as int]@, '='));
            assert(views(args@).take(i + 1) =~~= pre + one);
            assert(one.drop_first() =~~= Seq::<Seq<char>>::empty());
            assert(split_all(one.drop_first()) =~~= Seq::<Seq<char>>::empty());
            assert(split_all(one) =~~= split_on(one[0], '=') + split_all(one.drop_first()));
            assert(split_all(one) =~~= pv);
            assert(mv + pv =~~= split_all(views(args@).take(i + 1)));
        }
        mid.append(&mut pieces);
        proof {
            assert(views(mid@) =~~= mv + pv);
        }
        i = i + 1;
    }
    proof {
        assert(views(args@).take(args@.len() as int) =~~= views(args@));
    }
    let mut out: Vec<String> = Vec::new();
    let mut k: usize = 0;
    while k < mid.len()
        invariant
            0 <= k <= mid@.len(),
            views(mid@) == split_all(views(args@)),
            views(out@) == glue_all(views(mid@).take(k as int)),
        decreases mid@.len() - k,
    {
        proof {
            let pre = views(mid@).take(k as int);
            let one = seq![views(mid@)[k as int]];
            lemma_glue_all_append(pre, one);
            assert(views(mid@)[k as int] == mid@[k as int]@);
            assert(views(mid@).take(k + 1) =~~= pre + one);
            assert(one.drop_first() =~~= Seq::<Seq<char>>::empty());
            assert(glue_all(one.drop_first()) =~~= Seq::<Seq<char>>::empty());
            assert(glue_all(one) =~~= glue_split(one[0]) + glue_all(one.drop_first()));
            assert(glue_all(one) =~~= glue_split(mid@[k as int]@));
        }
        let t = mid[k].as_str();
        let n = t.unicode_len();
        if n > 2 && t.get_char(0) == '-' && t.get_char(1) != '-' {
            let head = t.substring_char(0, 2).to_owned();
            let rest = t.substring_char(2, n).to_owned();
            proof {
                assert(head@ =~= t@.take(2));
                assert(rest@ =~= t@.skip(2));
                assert(views(out@.push(head).push(rest)) =~~= views(out@).push(head@).push(rest@));
                assert(views(out@) + seq![t@.take(2), t@.skip(2)] =~~= views(out@).push(
                    t@.take(2),
                ).push(t@.skip(2)));
            }
            out.push(head);
            out.push(rest);
        } else {
            let whole = mid[k].clone();
            proof {
                assert(glue_split(t@) =~~= seq![t@]);
                assert(views(out@.push(whole)) =~~= views(out@).push(whole@));
                assert(views(out@) + seq![t@] =~~= views(out@).push(t@));
            }
            out.push(whole);
        }
        k = k + 1;
    }
    proof {
        assert(views(mid@).take(mid@.len() as int) =~~= views(mid@));
    }
    out
}

} // verus!
