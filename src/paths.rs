use vstd::prelude::*;

verus! {

/// The last component of a `/`-separated path: what follows the last `/`.
pub open spec fn last_component(p: Seq<char>) -> Seq<char>
    decreases p.len(),
{
    if p.len() == 0 {
        Seq::empty()
    } else if p.last() == '/' {
        Seq::empty()
    } else {
        last_component(p.drop_last()).push(p.last())
    }
}

/// Everything before the last component, the separator included.
pub open spec fn parent_prefix(p: Seq<char>) -> Seq<char> {
    p.subrange(0, p.len() - last_component(p).len())
}

proof fn lemma_last_component_push(p: Seq<char>, c: char)
    ensures
        last_component(p.push(c)) == if c == '/' {
            Seq::<char>::empty()
        } else {
            last_component(p).push(c)
        },
{
    assert(p.push(c).drop_last() =~= p);
}

/// Where the last component of `s` starts.
fn name_start(s: &str) -> (r: usize)
    ensures
        r <= s@.len(),
        s@.subrange(r as int, s@.len() as int) == last_component(s@),
{
    let n = s.unicode_len();
    let mut start: usize = 0;
    let mut i: usize = 0;
    proof {
        assert(s@.subrange(0, 0) =~= Seq::<char>::empty());
    }
    while i < n
        invariant
            n == s@.len(),
            start <= i <= n,
            last_component(s@.subrange(0, i as int)) == s@.subrange(start as int, i as int),
        decreases n - i,
    {
        let c = s.get_char(i);
        proof {
            assert(s@.subrange(0, i + 1) =~= s@.subrange(0, i as int).push(c));
            lemma_last_component_push(s@.subrange(0, i as int), c);
        }
        if c == '/' {
            start = i + 1;
            proof {
                assert(s@.subrange(start as int, i + 1) =~= Seq::<char>::empty());
            }
        } else {
            proof {
                assert(s@.subrange(start as int, i + 1) =~= s@.subrange(start as int, i as int).push(c));
            }
        }
        i += 1;
    }
    proof {
        assert(s@.subrange(0, n as int) =~= s@);
    }
    start
}

/// The file name of a path.
pub fn file_name_of(path: &str) -> (r: String)
    ensures
        r@ == last_component(path@),
{
    let start = name_start(path);
    let n = path.unicode_len();
    path.substring_char(start, n).to_owned()
}

/// The path with its last component replaced by `name`.
pub fn with_file_name(path: &str, name: &str) -> (r: String)
    ensures
        r@ == parent_prefix(path@) + name@,
{
    let start = name_start(path);
    let mut r = path.substring_char(0, start).to_owned();
    r.append(name);
    r
}

} // verus!
