//! Small conversions between strings and character vectors.
use vstd::prelude::*;

verus! {

/// Every character differs from `.`.
pub open spec fn dot_free(s: Seq<char>) -> bool {
    forall|i: int| 0 <= i < s.len() ==> #[trigger] s[i] != '.'
}

/// `i` is the position of the first `.` in `s`.
pub open spec fn first_dot_at(s: Seq<char>, i: int) -> bool {
    0 <= i < s.len() && s[i] == '.' && dot_free(s.take(i))
}

/// The text before and after the first `.`, if there is one.
pub open spec fn split_at_dot(s: Seq<char>) -> Option<(Seq<char>, Seq<char>)> {
    if exists|i: int| first_dot_at(s, i) {
        let i = choose|i: int| first_dot_at(s, i);
        Some((s.take(i), s.skip(i + 1)))
    } else {
        None
    }
}

pub proof fn lemma_first_dot_unique(s: Seq<char>, i: int, j: int)
    requires
        first_dot_at(s, i),
        first_dot_at(s, j),
    ensures
        i == j,
{
    if i < j {
        assert(s.take(j)[i] == '.');
    } else if j < i {
        assert(s.take(i)[j] == '.');
    }
}

/// Joining a dot-free text and any text with a `.` splits back into the two.
pub proof fn lemma_split_joined(a: Seq<char>, b: Seq<char>)
    requires
        dot_free(a),
    ensures
        split_at_dot(a + seq!['.'] + b) == Some((a, b)),
{
    let s = a + seq!['.'] + b;
    let n = a.len() as int;
    assert(s.take(n) =~= a);
    assert(s.skip(n + 1) =~= b);
    assert(first_dot_at(s, n));
    let i = choose|i: int| first_dot_at(s, i);
    lemma_first_dot_unique(s, i, n);
}

/// Relies on `String::push`: appends one character.
#[verifier::external_body]
fn push_char(s: &mut String, c: char)
    ensures
        final(s)@ == old(s)@.push(c),
{
    s.push(c)
}

pub fn chars_of(s: &str) -> (r: Vec<char>)
    ensures
        r@ == s@,
{
    broadcast use vstd::string::group_string_axioms;

    let mut r: Vec<char> = Vec::new();
    for c in it: s.chars()
        invariant
            it.seq() == s@,
            r@ == s@.take(it.index() as int),
    {
        proof {
            assert(s@.take(it.index() as int + 1) =~= s@.take(it.index() as int).push(c));
        }
        r.push(c);
    }
    proof {
        assert(s@.take(s@.len() as int) =~= s@);
    }
    r
}

pub fn string_of(v: &Vec<char>) -> (r: String)
    ensures
        r@ == v@,
{
    let mut r = String::new();
    let mut i: usize = 0;
    while i < v.len()
        invariant
            i <= v@.len(),
            r@ == v@.take(i as int),
        decreases v@.len() - i,
    {
        proof {
            assert(v@.take(i as int + 1) =~= v@.take(i as int).push(v@[i as int]));
        }
        push_char(&mut r, v[i]);
        i = i + 1;
    }
    proof {
        assert(v@.take(v@.len() as int) =~= v@);
    }
    r
}

/// The characters of `v` from `lo` up to `hi`.
pub fn copy_range(v: &Vec<char>, lo: usize, hi: usize) -> (r: Vec<char>)
    requires
        lo <= hi <= v@.len(),
    ensures
        r@ == v@.subrange(lo as int, hi as int),
{
    let mut r: Vec<char> = Vec::new();
    let mut i: usize = lo;
    while i < hi
        invariant
            lo <= i <= hi <= v@.len(),
            r@ == v@.subrange(lo as int, i as int),
        decreases hi - i,
    {
        proof {
            assert(v@.subrange(lo as int, i as int + 1) =~= v@.subrange(lo as int, i as int).push(
                v@[i as int],
            ));
        }
        r.push(v[i]);
        i = i + 1;
    }
    r
}

/// Splits at the first `.`.
pub fn split_once_at_dot(s: &Vec<char>) -> (r: Option<(Vec<char>, Vec<char>)>)
    ensures
        r is None <==> dot_free(s@),
        r is None <==> split_at_dot(s@) is None,
        r matches Some((a, b)) ==> split_at_dot(s@) == Some((a@, b@)),
{
    let mut i: usize = 0;
    while i < s.len()
        invariant
            i <= s@.len(),
            dot_free(s@.take(i as int)),
        decreases s@.len() - i,
    {
        if s[i] == '.' {
            let a = copy_range(s, 0, i);
            let b = copy_range(s, i + 1, s.len());
            proof {
                assert(first_dot_at(s@, i as int));
                let j = choose|j: int| first_dot_at(s@, j);
                lemma_first_dot_unique(s@, i as int, j);
                assert(a@ =~= s@.take(i as int));
                assert(b@ =~= s@.skip(i + 1));
                assert(s@[i as int] == '.');
            }
            return Some((a, b));
        }
        proof {
            assert forall|k: int| 0 <= k < i + 1 implies #[trigger] s@.take(i + 1)[k] != '.' by {
                if k < i {
                    assert(s@.take(i as int)[k] == s@[k]);
                }
            }
        }
        i = i + 1;
    }
    proof {
        assert(s@.take(s@.len() as int) =~= s@);
        if exists|j: int| first_dot_at(s@, j) {
            let j = choose|j: int| first_dot_at(s@, j);
            assert(s@[j] == '.');
        }
    }
    None
}

/// Equality of two character sequences, reading every position whatever the
/// outcome so that the time taken does not tell where they differ.
pub fn same_chars(a: &Vec<char>, b: &Vec<char>) -> (r: bool)
    ensures
        r == (a@ == b@),
{
    if a.len() != b.len() {
        return false;
    }
    let mut mismatches: usize = 0;
    let mut i: usize = 0;
    while i < a.len()
        invariant
            i <= a@.len(),
            a@.len() == b@.len(),
            mismatches <= i,
            (mismatches == 0) == (forall|k: int| 0 <= k < i ==> a@[k] == b@[k]),
        decreases a@.len() - i,
    {
        let step: usize = (a[i] != b[i]) as usize;
        mismatches = mismatches + step;
        i = i + 1;
    }
    proof {
        if mismatches == 0 {
            assert(a@ =~= b@);
        }
    }
    mismatches == 0
}

} // verus!
