use vstd::prelude::*;
use vstd::string::StrSliceExecFns;

verus! {

/// An ASCII decimal digit.
pub open spec fn is_digit(c: char) -> bool {
    48 <= (c as u32) && (c as u32) <= 57
}

pub open spec fn all_digits(s: Seq<char>) -> bool {
    forall|i: int| 0 <= i < s.len() ==> is_digit(#[trigger] s[i])
}

/// The number that a string of decimal digits denotes.
pub open spec fn digits_value(s: Seq<char>) -> nat
    decreases s.len(),
{
    if s.len() == 0 {
        0
    } else {
        digits_value(s.drop_last()) * 10 + ((s.last() as u32) - 48) as nat
    }
}

/// A component without the one leading `+` that an unsigned number may carry.
pub open spec fn unsigned_body(s: Seq<char>) -> Seq<char> {
    if s.len() > 0 && s[0] == '+' {
        s.skip(1)
    } else {
        s
    }
}

/// The value of one dotted component: the unsigned 32-bit number it spells
/// (optionally after one `+`), or zero when it spells none.
pub open spec fn component_value(s: Seq<char>) -> u32 {
    let d = unsigned_body(s);
    if d.len() > 0 && all_digits(d) && digits_value(d) <= u32::MAX {
        digits_value(d) as u32
    } else {
        0
    }
}

/// The pieces of `s` between dots; `n` dots give `n + 1` pieces.
pub open spec fn split_dots(s: Seq<char>) -> Seq<Seq<char>>
    decreases s.len(),
{
    if s.len() == 0 {
        seq![Seq::empty()]
    } else {
        let prev = split_dots(s.drop_last());
        if s.last() == '.' {
            prev.push(Seq::empty())
        } else {
            prev.update(prev.len() - 1, prev.last().push(s.last()))
        }
    }
}

/// The component sequence of a dotted string.
pub open spec fn components(s: Seq<char>) -> Seq<u32> {
    split_dots(s).map_values(|p: Seq<char>| component_value(p))
}

/// `s` without its leading `v`s.
pub open spec fn trim_v(s: Seq<char>) -> Seq<char>
    decreases s.len(),
{
    if s.len() > 0 && s[0] == 'v' {
        trim_v(s.skip(1))
    } else {
        s
    }
}

/// The version that a raw version string or release tag denotes.
pub open spec fn version_of(s: Seq<char>) -> Seq<u32> {
    components(trim_v(s))
}

/// Lexicographic order, item by item from the left; a proper prefix is smaller.
pub open spec fn seq_greater(a: Seq<u32>, b: Seq<u32>) -> bool
    decreases a.len(),
{
    if a.len() == 0 {
        false
    } else if b.len() == 0 {
        true
    } else if a[0] != b[0] {
        a[0] > b[0]
    } else {
        seq_greater(a.skip(1), b.skip(1))
    }
}

/// `a` is greater than `b` at their first differing position.
pub open spec fn first_difference_greater(a: Seq<u32>, b: Seq<u32>) -> bool {
    exists|k: int|
        0 <= k < a.len() && k < b.len() && (forall|j: int| 0 <= j < k ==> a[j] == b[j])
            && #[trigger] a[k] > b[k]
}

proof fn lemma_digits_value_grows(s: Seq<char>)
    requires
        s.len() > 0,
    ensures
        digits_value(s) >= digits_value(s.drop_last()),
{
}

/// Parses the component `s[start..end]`.
fn component_at(s: &str, start: usize, end: usize) -> (r: u32)
    requires
        start <= end <= s@.len(),
    ensures
        r == component_value(s@.subrange(start as int, end as int)),
{
    let ghost piece = s@.subrange(start as int, end as int);
    let mut first: usize = start;
    if first < end && s.get_char(first) == '+' {
        first = first + 1;
    }
    let ghost body = s@.subrange(first as int, end as int);
    assert(body =~= unsigned_body(piece));
    if first == end {
        return 0;
    }
    let mut acc: u64 = 0;
    let mut overflow = false;
    let mut i: usize = first;
    while i < end
        invariant
            start <= first <= i <= end <= s@.len(),
            first < end,
            piece == s@.subrange(start as int, end as int),
            body == s@.subrange(first as int, end as int),
            body == unsigned_body(piece),
            all_digits(s@.subrange(first as int, i as int)),
            !overflow ==> acc == digits_value(s@.subrange(first as int, i as int)) && acc
                <= u32::MAX,
            overflow ==> digits_value(s@.subrange(first as int, i as int)) > u32::MAX,
        decreases end - i,
    {
        let c = s.get_char(i);
        let cu = c as u32;
        if cu < 48 || cu > 57 {
            assert(body[i - first] == c);
            assert(!is_digit(body[i - first]));
            assert(!all_digits(body));
            return 0;
        }
        let ghost prev = s@.subrange(first as int, i as int);
        let ghost next = s@.subrange(first as int, i + 1);
        assert(next.drop_last() =~= prev);
        assert(next.last() == c);
        proof {
            lemma_digits_value_grows(next);
        }
        assert(all_digits(next)) by {
            assert forall|j: int| 0 <= j < next.len() implies is_digit(#[trigger] next[j]) by {
                if j < prev.len() {
                    assert(next[j] == prev[j]);
                }
            }
        }
        if !overflow {
            acc = acc * 10 + (cu - 48) as u64;
            if acc > 4294967295 {
                overflow = true;
            }
        }
        i = i + 1;
    }
    assert(s@.subrange(first as int, i as int) =~= body);
    if overflow {
        0
    } else {
        acc as u32
    }
}

/// The component sequence of `s[from..]`.
fn components_from(s: &str, from: usize) -> (r: Vec<u32>)
    requires
        from <= s@.len(),
    ensures
        r@ == components(s@.subrange(from as int, s@.len() as int)),
{
    let n = s.unicode_len();
    let mut out: Vec<u32> = Vec::new();
    let mut start: usize = from;
    let mut i: usize = from;
    let ghost mut parts: Seq<Seq<char>> = Seq::empty();
    assert(s@.subrange(from as int, from as int) =~= Seq::<char>::empty());
    assert(split_dots(s@.subrange(from as int, from as int)) =~= parts.push(
        s@.subrange(start as int, from as int),
    ));
    while i < n
        invariant
            n == s@.len(),
            from <= start <= i <= n,
            split_dots(s@.subrange(from as int, i as int)) == parts.push(
                s@.subrange(start as int, i as int),
            ),
            out@ == parts.map_values(|p: Seq<char>| component_value(p)),
        decreases n - i,
    {
        let c = s.get_char(i);
        let ghost t = s@.subrange(from as int, i + 1);
        assert(t.drop_last() =~= s@.subrange(from as int, i as int));
        assert(t.last() == c);
        let ghost cur = s@.subrange(start as int, i as int);
        assert(split_dots(t.drop_last()) == parts.push(cur));
        if c == '.' {
            let v = component_at(s, start, i);
            out.push(v);
            proof {
                parts = parts.push(s@.subrange(start as int, i as int));
            }
            assert(out@ =~= parts.map_values(|p: Seq<char>| component_value(p)));
            start = i + 1;
            assert(s@.subrange(start as int, i + 1) =~= Seq::<char>::empty());
            assert(split_dots(t) =~= parts.push(s@.subrange(start as int, i + 1)));
        } else {
            assert(cur.push(c) =~= s@.subrange(start as int, i + 1));
            assert(split_dots(t) =~= parts.push(s@.subrange(start as int, i + 1)));
        }
        i = i + 1;
    }
    let v = component_at(s, start, n);
    out.push(v);
    proof {
        parts = parts.push(s@.subrange(start as int, n as int));
    }
    assert(out@ =~= parts.map_values(|p: Seq<char>| component_value(p)));
    out
}

proof fn lemma_trim_v_skip(s: Seq<char>, i: int)
    requires
        0 <= i <= s.len(),
        forall|j: int| 0 <= j < i ==> s[j] == 'v',
    ensures
        trim_v(s) == trim_v(s.skip(i)),
    decreases i,
{
    if i > 0 {
        assert(s.skip(1).skip(i - 1) =~= s.skip(i));
        lemma_trim_v_skip(s.skip(1), i - 1);
    } else {
        assert(s.skip(0) =~= s);
    }
}

/// Parses a version string or release tag: leading `v`s are dropped, the rest
/// is split on `.`, and each piece that is no unsigned 32-bit number counts as 0.
pub fn parse_version(s: &str) -> (r: Vec<u32>)
    ensures
        r@ == version_of(s@),
{
    let n = s.unicode_len();
    let mut i: usize = 0;
    while i < n && s.get_char(i) == 'v'
        invariant
            n == s@.len(),
            i <= n,
            forall|j: int| 0 <= j < i ==> s@[j] == 'v',
        decreases n - i,
    {
        i = i + 1;
    }
    proof {
        lemma_trim_v_skip(s@, i as int);
        assert(s@.skip(i as int) =~= s@.subrange(i as int, n as int));
    }
    components_from(s, i)
}

/// Whether `a` sorts after `b`, item by item from the left, a proper prefix being smaller.
pub fn sorts_after(a: &Vec<u32>, b: &Vec<u32>) -> (r: bool)
    ensures
        r == seq_greater(a@, b@),
{
    let mut i: usize = 0;
    assert(a@.skip(0) =~= a@);
    assert(b@.skip(0) =~= b@);
    while i < a.len() && i < b.len()
        invariant
            i <= a@.len(),
            i <= b@.len(),
            seq_greater(a@, b@) == seq_greater(a@.skip(i as int), b@.skip(i as int)),
        decreases a.len() - i,
    {
        assert(a@.skip(i as int)[0] == a@[i as int]);
        assert(b@.skip(i as int)[0] == b@[i as int]);
        if a[i] != b[i] {
            return a[i] > b[i];
        }
        assert(a@.skip(i as int).skip(1) =~= a@.skip(i + 1));
        assert(b@.skip(i as int).skip(1) =~= b@.skip(i + 1));
        i = i + 1;
    }
    i < a.len()
}

/// Whether the release `remote` is newer than the running version `local`.
pub fn is_newer(remote: &str, local: &str) -> (r: bool)
    ensures
        r == seq_greater(version_of(remote@), version_of(local@)),
{
    let a = parse_version(remote);
    let b = parse_version(local);
    sorts_after(&a, &b)
}

proof fn lemma_seq_greater_first_difference(a: Seq<u32>, b: Seq<u32>)
    requires
        a.len() == b.len(),
    ensures
        seq_greater(a, b) <==> first_difference_greater(a, b),
    decreases a.len(),
{
    if a.len() == 0 {
    } else if a[0] != b[0] {
        if a[0] > b[0] {
            assert(a[0] > b[0]);
        }
        if first_difference_greater(a, b) {
            let k = choose|k: int|
                0 <= k < a.len() && k < b.len() && (forall|j: int| 0 <= j < k ==> a[j] == b[j])
                    && #[trigger] a[k] > b[k];
            if k > 0 {
                assert(a[0] == b[0]);
            }
        }
    } else {
        let (a1, b1) = (a.skip(1), b.skip(1));
        lemma_seq_greater_first_difference(a1, b1);
        if first_difference_greater(a1, b1) {
            let k = choose|k: int|
                0 <= k < a1.len() && k < b1.len() && (forall|j: int| 0 <= j < k ==> a1[j] == b1[j])
                    && #[trigger] a1[k] > b1[k];
            assert(a[k + 1] > b[k + 1]);
            assert forall|j: int| 0 <= j < k + 1 implies a[j] == b[j] by {
                if j > 0 {
                    assert(a[j] == a1[j - 1]);
                    assert(b[j] == b1[j - 1]);
                }
            }
        }
        if first_difference_greater(a, b) {
            let k = choose|k: int|
                0 <= k < a.len() && k < b.len() && (forall|j: int| 0 <= j < k ==> a[j] == b[j])
                    && #[trigger] a[k] > b[k];
            assert(k > 0);
            assert(a1[k - 1] > b1[k - 1]);
            assert forall|j: int| 0 <= j < k - 1 implies a1[j] == b1[j] by {
                assert(a[j + 1] == b[j + 1]);
            }
        }
    }
}

proof fn lemma_seq_greater_irreflexive(a: Seq<u32>)
    ensures
        !seq_greater(a, a),
    decreases a.len(),
{
    if a.len() > 0 {
        lemma_seq_greater_irreflexive(a.skip(1));
    }
}

/// Where two versions have the same number of components, one is newer than
/// the other exactly when it is greater at the first component where they differ.
pub proof fn lemma_newer_is_lexicographic(remote: Seq<char>, local: Seq<char>)
    requires
        version_of(remote).len() == version_of(local).len(),
    ensures
        seq_greater(version_of(remote), version_of(local)) <==> first_difference_greater(
            version_of(remote),
            version_of(local),
        ),
{
    lemma_seq_greater_first_difference(version_of(remote), version_of(local));
}

/// No version is newer than itself.
pub proof fn lemma_not_newer_than_itself(v: Seq<char>)
    ensures
        !seq_greater(version_of(v), version_of(v)),
{
    lemma_seq_greater_irreflexive(version_of(v));
}

} // verus!
