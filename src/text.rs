use vstd::prelude::*;

verus! {

/// `c` is an ASCII decimal digit.
pub open spec fn is_digit(c: u8) -> bool {
    48 <= c <= 57
}

/// The value of a string of decimal digits.
pub open spec fn digits_value(s: Seq<u8>) -> nat
    decreases s.len(),
{
    if s.len() == 0 {
        0
    } else {
        digits_value(s.drop_last()) * 10 + (s.last() - 48) as nat
    }
}

/// What std's `from_ascii` reads from `s` for an unsigned type whose
/// largest value is `max`: an optional `+`, then one or more digits whose
/// value does not exceed `max`.
pub open spec fn spec_parse_decimal(s: Seq<u8>, max: nat) -> Option<nat> {
    let d = unsigned_part(s);
    if d.len() > 0 && all_digits(d) && digits_value(d) <= max {
        Some(digits_value(d))
    } else {
        None
    }
}

/// `s` without a leading `+`.
pub open spec fn unsigned_part(s: Seq<u8>) -> Seq<u8> {
    if s.len() > 0 && s[0] == 43 {
        s.drop_first()
    } else {
        s
    }
}

pub open spec fn all_digits(d: Seq<u8>) -> bool {
    forall|i: int| 0 <= i < d.len() ==> is_digit(#[trigger] d[i])
}

proof fn lemma_digits_prefix_grows(s: Seq<u8>, i: int)
    requires
        0 <= i <= s.len(),
        forall|k: int| 0 <= k < s.len() ==> is_digit(#[trigger] s[k]),
    ensures
        digits_value(s.subrange(0, i)) <= digits_value(s),
    decreases s.len() - i,
{
    if i < s.len() {
        lemma_digits_prefix_grows(s, i + 1);
        assert(s.subrange(0, i + 1).drop_last() == s.subrange(0, i));
    } else {
        assert(s.subrange(0, i) == s);
    }
}

/// Reads an unsigned decimal number no larger than `max` as std's
/// `from_ascii` does.
pub fn parse_decimal(s: &[u8], max: u64) -> (r: Option<u64>)
    ensures
        r is Some <==> spec_parse_decimal(s@, max as nat) is Some,
        r matches Some(v) ==> v as nat == spec_parse_decimal(s@, max as nat)->0,
{
    let start: usize = if s.len() > 0 && s[0] == 43 { 1 } else { 0 };
    let ghost d = unsigned_part(s@);
    proof {
        assert(d == s@.subrange(start as int, s@.len() as int));
    }
    if start == s.len() {
        return None;
    }
    let mut value: u64 = 0;
    let mut i: usize = start;
    while i < s.len()
        invariant
            start <= i <= s@.len(),
            d == unsigned_part(s@),
            d == s@.subrange(start as int, s@.len() as int),
            forall|k: int| start <= k < i ==> is_digit(#[trigger] s@[k]),
            value as nat == digits_value(s@.subrange(start as int, i as int)),
            value <= max,
        decreases s@.len() - i,
    {
        let c = s[i];
        if c < 48 || c > 57 {
            proof {
                assert(d[i - start] == c);
                assert(!is_digit(d[i - start]));
            }
            return None;
        }
        let digit = (c - 48) as u64;
        proof {
            assert(s@.subrange(start as int, i + 1).drop_last() == s@.subrange(start as int, i as int));
        }
        if digit > max || value > (max - digit) / 10 {
            proof {
                assert(value * 10 + digit > max) by (nonlinear_arith)
                    requires digit > max || value > (max - digit) / 10, max >= 0, digit >= 0, value >= 0;
                let p = s@.subrange(start as int, i + 1);
                if all_digits(d) {
                    assert(p == d.subrange(0, i + 1 - start));
                    lemma_digits_prefix_grows(d, i + 1 - start);
                }
            }
            return None;
        }
        proof {
            assert(value * 10 + digit <= max) by (nonlinear_arith)
                requires value <= (max - digit) / 10, digit <= max, max >= 0, digit >= 0;
        }
        value = value * 10 + digit;
        i += 1;
    }
    proof {
        assert(s@.subrange(start as int, i as int) == d);
        assert forall|k: int| 0 <= k < d.len() implies is_digit(#[trigger] d[k]) by {
            assert(d[k] == s@[k + start]);
        }
    }
    Some(value)
}

/// `i` is the first position of `b` in `s`.
pub open spec fn is_first(s: Seq<u8>, b: u8, i: int) -> bool {
    0 <= i < s.len() && s[i] == b && forall|j: int| 0 <= j < i ==> s[j] != b
}

/// The first position of `b` in `s`, if it occurs.
pub open spec fn first_index(s: Seq<u8>, b: u8) -> Option<int> {
    if exists|i: int| is_first(s, b, i) {
        Some(choose|i: int| is_first(s, b, i))
    } else {
        None
    }
}

/// Finds the first position of `b` in `s`.
pub fn position(s: &[u8], b: u8) -> (r: Option<usize>)
    ensures
        r matches Some(i) ==> first_index(s@, b) == Some(i as int) && i < s@.len() && s@[i as int] == b,
        r is None ==> first_index(s@, b) is None && forall|j: int| 0 <= j < s@.len() ==> s@[j] != b,
{
    let mut i: usize = 0;
    while i < s.len()
        invariant
            i <= s@.len(),
            forall|j: int| 0 <= j < i ==> s@[j] != b,
        decreases s@.len() - i,
    {
        if s[i] == b {
            proof {
                assert(is_first(s@, b, i as int));
                let k = choose|k: int| is_first(s@, b, k);
                assert(k == i) by {
                    if k < i {
                        assert(s@[k] != b);
                    }
                    if k > i {
                        assert(s@[i as int] != b);
                    }
                };
            }
            return Some(i);
        }
        i += 1;
    }
    None
}

/// The pieces of `s` between occurrences of `b`, as `split` gives them:
/// one more piece than there are separators.
pub open spec fn split_on(s: Seq<u8>, b: u8) -> Seq<Seq<u8>>
    decreases s.len(),
{
    if exists|i: int| is_first(s, b, i) {
        let i = choose|i: int| is_first(s, b, i);
        seq![s.subrange(0, i)] + split_on(s.subrange(i + 1, s.len() as int), b)
    } else {
        seq![s]
    }
}

/// Splitting at the first separator, at `i`, gives the piece before it and
/// the pieces of the rest.
pub proof fn lemma_split_step(s: Seq<u8>, b: u8, i: int)
    requires
        is_first(s, b, i),
    ensures
        split_on(s, b) == seq![s.subrange(0, i)] + split_on(s.subrange(i + 1, s.len() as int), b),
{
    let k = choose|k: int| is_first(s, b, k);
    assert(k == i) by {
        if k < i {
            assert(s[k] != b);
        }
        if k > i {
            assert(s[i] != b);
        }
    }
}

/// `p` occurs in `s` at `i`.
pub open spec fn occurs_at(s: Seq<u8>, p: Seq<u8>, i: int) -> bool {
    0 <= i && i + p.len() <= s.len() && s.subrange(i, i + p.len()) == p
}

/// `i` is the first occurrence of the non-empty `p` in `s`.
pub open spec fn is_first_sub(s: Seq<u8>, p: Seq<u8>, i: int) -> bool {
    p.len() > 0 && occurs_at(s, p, i) && forall|j: int| 0 <= j < i ==> !occurs_at(s, p, j)
}

/// The pieces of `s` between the non-overlapping occurrences of `p`, found
/// from the left, as `str::split` with a string pattern gives them.
pub open spec fn split_on_sub(s: Seq<u8>, p: Seq<u8>) -> Seq<Seq<u8>>
    decreases s.len(),
{
    if exists|i: int| is_first_sub(s, p, i) {
        let i = choose|i: int| is_first_sub(s, p, i);
        seq![s.subrange(0, i)] + split_on_sub(s.subrange(i + p.len(), s.len() as int), p)
    } else {
        seq![s]
    }
}

pub proof fn lemma_split_sub_step(s: Seq<u8>, p: Seq<u8>, i: int)
    requires
        is_first_sub(s, p, i),
    ensures
        split_on_sub(s, p) == seq![s.subrange(0, i)] + split_on_sub(s.subrange(i + p.len(), s.len() as int), p),
{
    let k = choose|k: int| is_first_sub(s, p, k);
    assert(k == i) by {
        if k < i {
            assert(!occurs_at(s, p, k));
        }
        if k > i {
            assert(!occurs_at(s, p, i));
        }
    }
}

/// Finds the first occurrence of the non-empty `p` in `s`.
pub fn find_sub(s: &[u8], p: &[u8]) -> (r: Option<usize>)
    requires
        p@.len() > 0,
    ensures
        r matches Some(i) ==> is_first_sub(s@, p@, i as int),
        r is None ==> !exists|i: int| is_first_sub(s@, p@, i),
{
    if p.len() > s.len() {
        proof {
            assert forall|i: int| !is_first_sub(s@, p@, i) by {}
        }
        return None;
    }
    let sl = s.len();
    let last = sl - p.len();
    let mut i: usize = 0;
    while i <= last
        invariant
            last == s@.len() - p@.len(),
            sl == s@.len(),
            p@.len() > 0,
            p@.len() <= s@.len(),
            forall|j: int| 0 <= j < i ==> !occurs_at(s@, p@, j),
        decreases last + 1 - i,
    {
        let mut k: usize = 0;
        let mut same = true;
        while k < p.len()
            invariant
                k <= p@.len(),
                i <= last,
                p@.len() <= s@.len(),
                sl == s@.len(),
                last == s@.len() - p@.len(),
                same == (forall|m: int| 0 <= m < k ==> s@[i + m] == p@[m]),
            decreases p@.len() - k,
        {
            if s[i + k] != p[k] {
                same = false;
            }
            k += 1;
        }
        if same {
            proof {
                assert(s@.subrange(i as int, i + p@.len()) =~= p@);
            }
            return Some(i);
        }
        proof {
            assert(!occurs_at(s@, p@, i as int)) by {
                if occurs_at(s@, p@, i as int) {
                    assert forall|m: int| 0 <= m < p@.len() implies s@[i + m] == p@[m] by {
                        assert(s@.subrange(i as int, i + p@.len())[m] == p@[m]);
                    }
                }
            }
        }
        if i == last {
            proof {
                assert forall|j: int| !is_first_sub(s@, p@, j) by {
                    if is_first_sub(s@, p@, j) {
                        assert(j <= last);
                    }
                }
            }
            return None;
        }
        i += 1;
    }
    None
}

/// `s` starts with `p`.
pub fn starts_with(s: &[u8], p: &[u8]) -> (r: bool)
    ensures
        r == (p@.len() <= s@.len() && s@.subrange(0, p@.len() as int) == p@),
{
    if p.len() > s.len() {
        return false;
    }
    let head = vstd::slice::slice_subrange(s, 0, p.len());
    bytes_eq(head, p)
}

/// `dir` with `component` appended as `PathBuf::push` does on Unix: an
/// absolute component replaces the path, otherwise a `/` separates the two
/// unless the path is empty or already ends with one.
pub open spec fn spec_join(dir: Seq<u8>, component: Seq<u8>) -> Seq<u8> {
    if component.len() > 0 && component[0] == 47 {
        component
    } else if dir.len() == 0 || dir.last() == 47 {
        dir + component
    } else {
        dir + seq![47u8] + component
    }
}

/// Appends a path component; see `spec_join`.
pub fn join(dir: &[u8], component: &[u8]) -> (r: Vec<u8>)
    ensures
        r@ == spec_join(dir@, component@),
{
    let mut r: Vec<u8> = Vec::new();
    if component.len() > 0 && component[0] == 47 {
        push_bytes(&mut r, component);
        proof {
            assert(r@ =~= component@);
        }
        return r;
    }
    push_bytes(&mut r, dir);
    if dir.len() > 0 && dir[dir.len() - 1] != 47 {
        r.push(47);
    }
    push_bytes(&mut r, component);
    proof {
        assert(r@ =~= spec_join(dir@, component@));
    }
    r
}

/// The ASCII decimal digits of `n`.
pub open spec fn spec_decimal(n: nat) -> Seq<u8>
    decreases n,
{
    if n < 10 {
        seq![(n + 48) as u8]
    } else {
        spec_decimal(n / 10).push((n % 10 + 48) as u8)
    }
}

/// Appends the decimal digits of `n` to `out`.
pub fn push_decimal(out: &mut Vec<u8>, n: u64)
    ensures
        final(out)@ == old(out)@ + spec_decimal(n as nat),
    decreases n,
{
    if n >= 10 {
        push_decimal(out, n / 10);
    }
    out.push((n % 10) as u8 + 48);
    proof {
        if n < 10 {
            assert(final(out)@ =~= old(out)@ + spec_decimal(n as nat));
        } else {
            assert(final(out)@ =~= old(out)@ + spec_decimal(n as nat));
        }
    }
}

/// A byte for a debug listing: printable ASCII as itself, anything else as
/// a backslash and its decimal value.
pub open spec fn shown(x: u8) -> Seq<u8> {
    if 0x21 <= x <= 0x7e {
        seq![x]
    } else {
        seq![92u8] + spec_decimal(x as nat)
    }
}

/// The debug listing of `xs`.
pub open spec fn spec_show_bytes(xs: Seq<u8>) -> Seq<u8>
    decreases xs.len(),
{
    if xs.len() == 0 {
        seq![]
    } else {
        spec_show_bytes(xs.drop_last()) + shown(xs.last())
    }
}

/// Lists raw bytes readably, for diagnostics.
pub fn show_bytes(xs: &[u8]) -> (r: Vec<u8>)
    ensures
        r@ == spec_show_bytes(xs@),
{
    let mut r: Vec<u8> = Vec::new();
    let mut i: usize = 0;
    while i < xs.len()
        invariant
            i <= xs@.len(),
            r@ == spec_show_bytes(xs@.subrange(0, i as int)),
        decreases xs@.len() - i,
    {
        let x = xs[i];
        if x >= 0x21 && x <= 0x7e {
            r.push(x);
        } else {
            r.push(92);
            push_decimal(&mut r, x as u64);
        }
        proof {
            assert(xs@.subrange(0, i + 1).drop_last() =~= xs@.subrange(0, i as int));
            assert(r@ =~= spec_show_bytes(xs@.subrange(0, i + 1)));
        }
        i += 1;
    }
    proof {
        assert(xs@.subrange(0, i as int) =~= xs@);
    }
    r
}

/// Whether two byte strings are equal.
pub fn bytes_eq(a: &[u8], b: &[u8]) -> (r: bool)
    ensures
        r == (a@ == b@),
{
    if a.len() != b.len() {
        return false;
    }
    let mut i: usize = 0;
    while i < a.len()
        invariant
            i <= a@.len(),
            a@.len() == b@.len(),
            forall|j: int| 0 <= j < i ==> a@[j] == b@[j],
        decreases a@.len() - i,
    {
        if a[i] != b[i] {
            return false;
        }
        i += 1;
    }
    proof {
        assert(a@ =~= b@);
    }
    true
}

/// Appends a byte string.
pub fn push_bytes(out: &mut Vec<u8>, s: &[u8])
    ensures
        final(out)@ == old(out)@ + s@,
{
    let mut i: usize = 0;
    while i < s.len()
        invariant
            i <= s@.len(),
            out@ == old(out)@ + s@.subrange(0, i as int),
        decreases s@.len() - i,
    {
        out.push(s[i]);
        i += 1;
        proof {
            assert(out@ =~= old(out)@ + s@.subrange(0, i as int));
        }
    }
    proof {
        assert(s@.subrange(0, i as int) =~= s@);
    }
}

} // verus!
