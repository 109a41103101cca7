use vstd::prelude::*;
use crate::input::append_char;

verus! {

/// The segments of `s` between colons, empty ones included, in order.
pub open spec fn pieces(s: Seq<char>) -> Seq<Seq<char>>
    decreases s.len(),
{
    if s.len() == 0 {
        seq![Seq::<char>::empty()]
    } else {
        let before = pieces(s.drop_last());
        if s.last() == ':' {
            before.push(Seq::<char>::empty())
        } else {
            before.update(before.len() - 1, before.last().push(s.last()))
        }
    }
}

/// The non-empty segments, in order.
pub open spec fn keep_filled(segs: Seq<Seq<char>>) -> Seq<Seq<char>>
    decreases segs.len(),
{
    if segs.len() == 0 {
        Seq::empty()
    } else if segs.last().len() > 0 {
        keep_filled(segs.drop_last()).push(segs.last())
    } else {
        keep_filled(segs.drop_last())
    }
}

/// A stored artist field decoded: split on `:`, empty names dropped.
pub open spec fn artist_tokens(s: Seq<char>) -> Seq<Seq<char>> {
    keep_filled(pieces(s))
}

/// Names joined with `:` between them.
pub open spec fn colon_joined(parts: Seq<Seq<char>>) -> Seq<char>
    decreases parts.len(),
{
    if parts.len() == 0 {
        Seq::empty()
    } else if parts.len() == 1 {
        parts[0]
    } else {
        colon_joined(parts.drop_last()) + seq![':'] + parts.last()
    }
}

/// A name that survives being stored: not empty and free of `:`.
pub open spec fn storable_name(p: Seq<char>) -> bool {
    p.len() > 0 && !p.contains(':')
}

proof fn lemma_pieces_nonempty(s: Seq<char>)
    ensures
        pieces(s).len() >= 1,
    decreases s.len(),
{
    if s.len() > 0 {
        lemma_pieces_nonempty(s.drop_last());
    }
}

proof fn lemma_pieces_push(s: Seq<char>, c: char)
    ensures
        pieces(s.push(c)) == if c == ':' {
            pieces(s).push(Seq::<char>::empty())
        } else {
            pieces(s).update(pieces(s).len() - 1, pieces(s).last().push(c))
        },
{
    assert(s.push(c).drop_last() =~= s);
}

proof fn lemma_pieces_append(a: Seq<char>, y: Seq<char>)
    requires
        !y.contains(':'),
    ensures
        pieces(a + y) == pieces(a).update(pieces(a).len() - 1, pieces(a).last() + y),
        pieces(a + y).len() == pieces(a).len(),
    decreases y.len(),
{
    lemma_pieces_nonempty(a);
    if y.len() == 0 {
        assert(a + y =~= a);
        assert(pieces(a).last() + y =~= pieces(a).last());
        assert(pieces(a).update(pieces(a).len() - 1, pieces(a).last()) =~= pieces(a));
    } else {
        let y0 = y.drop_last();
        let c = y.last();
        assert(!y0.contains(':')) by {
            if y0.contains(':') {
                let i = choose|i: int| 0 <= i < y0.len() && y0[i] == ':';
                assert(y[i] == ':');
            }
        }
        assert(c != ':') by {
            assert(y[y.len() - 1] == c);
        }
        lemma_pieces_append(a, y0);
        assert(a + y =~= (a + y0).push(c));
        lemma_pieces_push(a + y0, c);
        let p = pieces(a);
        let q = pieces(a + y0);
        assert(q.len() == p.len());
        assert(q.last() == p.last() + y0);
        assert((p.last() + y0).push(c) =~= p.last() + y);
        assert(pieces(a + y) == q.update(q.len() - 1, q.last().push(c)));
        assert(pieces(a + y) =~= p.update(p.len() - 1, p.last() + y));
    }
}

proof fn lemma_keep_filled_push(segs: Seq<Seq<char>>, x: Seq<char>)
    ensures
        keep_filled(segs.push(x)) == if x.len() > 0 {
            keep_filled(segs).push(x)
        } else {
            keep_filled(segs)
        },
{
    assert(segs.push(x).drop_last() =~= segs);
}

/// Decoding a field made by joining names with `:` gives the names back, provided
/// each name is not empty and holds no `:`.
pub proof fn lemma_tokens_of_joined(parts: Seq<Seq<char>>)
    requires
        forall|i: int| 0 <= i < parts.len() ==> storable_name(#[trigger] parts[i]),
    ensures
        artist_tokens(colon_joined(parts)) == parts,
    decreases parts.len(),
{
    let e = Seq::<char>::empty();
    if parts.len() == 0 {
        assert(pieces(e) == seq![e]);
        lemma_keep_filled_push(Seq::<Seq<char>>::empty(), e);
        assert(seq![e] =~= Seq::<Seq<char>>::empty().push(e));
    } else if parts.len() == 1 {
        let p = parts[0];
        assert(storable_name(parts[0]));
        lemma_pieces_append(e, p);
        assert(e + p =~= p);
        assert(pieces(e).update(0, e + p) =~= Seq::<Seq<char>>::empty().push(p));
        lemma_keep_filled_push(Seq::<Seq<char>>::empty(), p);
        assert(Seq::<Seq<char>>::empty().push(p) =~= parts);
    } else {
        let init = parts.drop_last();
        let l = parts.last();
        assert(storable_name(parts[parts.len() - 1]));
        assert forall|i: int| 0 <= i < init.len() implies storable_name(#[trigger] init[i]) by {
            assert(storable_name(parts[i]));
        }
        lemma_tokens_of_joined(init);
        let j = colon_joined(init);
        lemma_pieces_nonempty(j);
        lemma_pieces_push(j, ':');
        assert(j + seq![':'] =~= j.push(':'));
        lemma_pieces_append(j.push(':'), l);
        let pj = pieces(j);
        let q = pj.push(e);
        assert(e + l =~= l);
        assert(q.update(q.len() - 1, q.last() + l) =~= pj.push(l));
        lemma_keep_filled_push(pj, l);
        assert(init.push(l) =~= parts);
    }
}

/// Splits a stored artist field on `:`, dropping empty names.
pub fn split_artists(s: &str) -> (r: Vec<String>)
    ensures
        r.deep_view() == artist_tokens(s@),
{
    let n = s.unicode_len();
    let mut out: Vec<String> = Vec::new();
    let mut start: usize = 0;
    let mut i: usize = 0;
    proof {
        assert(s@.subrange(0, 0) =~= Seq::<char>::empty());
        assert(s@.subrange(0, 0) =~= s@.subrange(0, 0));
        assert(pieces(Seq::<char>::empty()).drop_last() =~= Seq::<Seq<char>>::empty());
    }
    while i < n
        invariant
            n == s@.len(),
            start <= i <= n,
            pieces(s@.subrange(0, i as int)).len() >= 1,
            pieces(s@.subrange(0, i as int)).last() == s@.subrange(start as int, i as int),
            out.deep_view() == keep_filled(pieces(s@.subrange(0, i as int)).drop_last()),
        decreases n - i,
    {
        let c = s.get_char(i);
        let ghost pre = s@.subrange(0, i as int);
        let ghost old_out = out.deep_view();
        proof {
            assert(s@.subrange(0, i + 1) =~= pre.push(c));
            lemma_pieces_push(pre, c);
            lemma_pieces_nonempty(pre);
        }
        if c == ':' {
            proof {
                let p = pieces(pre);
                assert(p.push(Seq::<char>::empty()).drop_last() =~= p);
                assert(p =~= p.drop_last().push(p.last()));
                lemma_keep_filled_push(p.drop_last(), p.last());
            }
            if start < i {
                let tok = s.substring_char(start, i).to_owned();
                out.push(tok);
                proof {
                    assert(out.deep_view() =~= old_out.push(s@.subrange(start as int, i as int)));
                }
            }
            start = i + 1;
            proof {
                assert(s@.subrange(start as int, i + 1) =~= Seq::<char>::empty());
            }
        } else {
            proof {
                let p = pieces(pre);
                let q = p.update(p.len() - 1, p.last().push(c));
                assert(q.drop_last() =~= p.drop_last());
                assert(s@.subrange(start as int, i + 1) =~= s@.subrange(start as int, i as int).push(c));
            }
        }
        i += 1;
    }
    proof {
        assert(s@.subrange(0, n as int) =~= s@);
        let p = pieces(s@);
        assert(p =~= p.drop_last().push(p.last()));
        lemma_keep_filled_push(p.drop_last(), p.last());
    }
    if start < n {
        let ghost old_out = out.deep_view();
        let tok = s.substring_char(start, n).to_owned();
        out.push(tok);
        proof {
            assert(out.deep_view() =~= old_out.push(s@.subrange(start as int, n as int)));
        }
    }
    out
}

/// Joins names with `:` between them.
pub fn join_artists(parts: &Vec<String>) -> (r: String)
    ensures
        r@ == colon_joined(parts.deep_view()),
{
    let mut out = String::new();
    let mut i: usize = 0;
    proof {
        reveal_strlit(":");
        assert(parts.deep_view().subrange(0, 0) =~= Seq::<Seq<char>>::empty());
    }
    while i < parts.len()
        invariant
            i <= parts.len(),
            out@ == colon_joined(parts.deep_view().subrange(0, i as int)),
        decreases parts.len() - i,
    {
        let ghost pv = parts.deep_view();
        proof {
            reveal_strlit(":");
            assert(pv.subrange(0, i + 1).drop_last() =~= pv.subrange(0, i as int));
        }
        if i > 0 {
            out.append(":");
        }
        out.append(parts[i].as_str());
        proof {
            if i == 0 {
                assert(out@ =~= pv.subrange(0, 1)[0]);
            } else {
                assert(out@ =~= colon_joined(pv.subrange(0, i as int)) + seq![':'] + pv[i as int]);
            }
        }
        i += 1;
    }
    proof {
        assert(parts.deep_view().subrange(0, parts.len() as int) =~= parts.deep_view());
    }
    out
}

/// Whether `s` holds `pat` somewhere.
pub open spec fn holds_text(s: Seq<char>, pat: Seq<char>) -> bool {
    exists|i: int| 0 <= i && i + pat.len() <= s.len() && #[trigger] s.subrange(i, i + pat.len()) == pat
}

/// Whether `s` holds the characters of `pat` at position `at`.
fn matches_at(s: &str, n: usize, pat: &str, m: usize, at: usize) -> (r: bool)
    requires
        n == s@.len(),
        m == pat@.len(),
        at + m <= n,
    ensures
        r == (s@.subrange(at as int, at + m) == pat@),
{
    let mut j: usize = 0;
    while j < m
        invariant
            n == s@.len(),
            m == pat@.len(),
            at + m <= n,
            j <= m,
            forall|t: int| 0 <= t < j ==> s@[at + t] == pat@[t],
        decreases m - j,
    {
        if s.get_char(at + j) != pat.get_char(j) {
            proof {
                assert(s@.subrange(at as int, at + m)[j as int] != pat@[j as int]);
            }
            return false;
        }
        j += 1;
    }
    proof {
        assert(s@.subrange(at as int, at + m) =~= pat@);
    }
    true
}

/// Whether `s` holds `pat` somewhere.
pub fn contains_text(s: &str, pat: &str) -> (r: bool)
    ensures
        r == holds_text(s@, pat@),
{
    let n = s.unicode_len();
    let m = pat.unicode_len();
    if m > n {
        return false;
    }
    if m == 0 {
        proof {
            assert(s@.subrange(0int, 0int + pat@.len()) =~= pat@);
        }
        return true;
    }
    let mut at: usize = 0;
    while at <= n - m
        invariant
            n == s@.len(),
            m == pat@.len(),
            0 < m <= n,
            at <= n - m + 1,
            forall|i: int| 0 <= i < at ==> #[trigger] s@.subrange(i, i + m) != pat@,
        decreases n - at,
    {
        if matches_at(s, n, pat, m, at) {
            return true;
        }
        at += 1;
    }
    false
}

/// The character of a decimal digit.
pub open spec fn digit_char(d: nat) -> char {
    if d == 0 {
        '0'
    } else if d == 1 {
        '1'
    } else if d == 2 {
        '2'
    } else if d == 3 {
        '3'
    } else if d == 4 {
        '4'
    } else if d == 5 {
        '5'
    } else if d == 6 {
        '6'
    } else if d == 7 {
        '7'
    } else if d == 8 {
        '8'
    } else {
        '9'
    }
}

/// The decimal digits of `n`, most significant first.
pub open spec fn decimal(n: nat) -> Seq<char>
    decreases n,
{
    if n < 10 {
        seq![digit_char(n)]
    } else {
        decimal(n / 10).push(digit_char(n % 10))
    }
}

fn digit(d: usize) -> (c: char)
    requires
        d < 10,
    ensures
        c == digit_char(d as nat),
{
    if d == 0 {
        '0'
    } else if d == 1 {
        '1'
    } else if d == 2 {
        '2'
    } else if d == 3 {
        '3'
    } else if d == 4 {
        '4'
    } else if d == 5 {
        '5'
    } else if d == 6 {
        '6'
    } else if d == 7 {
        '7'
    } else if d == 8 {
        '8'
    } else {
        '9'
    }
}

/// `n` written in decimal.
pub fn decimal_text(n: usize) -> (r: String)
    ensures
        r@ == decimal(n as nat),
    decreases n,
{
    if n < 10 {
        let mut r = String::new();
        append_char(&mut r, digit(n));
        proof {
            assert(r@ =~= seq![digit_char(n as nat)]);
        }
        r
    } else {
        let mut r = decimal_text(n / 10);
        append_char(&mut r, digit(n % 10));
        r
    }
}

} // verus!
