//! Character-level helpers shared by the SQL text routines.

use vstd::prelude::*;

verus! {

/// Append one character to a string (`String::push`).
#[verifier::external_body]
pub(crate) fn push_char(s: &mut String, c: char)
    ensures
        final(s)@ == old(s)@.push(c),
{
    s.push(c);
}

/// Append the characters `v[a..b]` to a string.
pub fn push_range(s: &mut String, v: &Vec<char>, a: usize, b: usize)
    requires
        a <= b <= v.len(),
    ensures
        final(s)@ == old(s)@ + v@.subrange(a as int, b as int),
{
    let mut k = a;
    while k < b
        invariant
            a <= k <= b <= v.len(),
            s@ == old(s)@ + v@.subrange(a as int, k as int),
        decreases b - k,
    {
        push_char(s, v[k]);
        k = k + 1;
        assert(v@.subrange(a as int, k as int) =~= v@.subrange(a as int, k - 1).push(v@[k - 1]));
    }
}

/// Append all characters of `v` to a string.
pub fn push_all(s: &mut String, v: &Vec<char>)
    ensures
        final(s)@ == old(s)@ + v@,
{
    push_range(s, v, 0, v.len());
    assert(v@.subrange(0, v@.len() as int) =~= v@);
}

/// Append a string slice to a string.
pub fn push_str_verified(s: &mut String, t: &str)
    ensures
        final(s)@ == old(s)@ + t@,
{
    let cs = chars_of(t);
    push_all(s, &cs);
}

/// A string holding exactly the characters of `v`.
pub fn string_from_chars(v: &Vec<char>) -> (r: String)
    ensures
        r@ == v@,
{
    let mut s = String::new();
    push_all(&mut s, v);
    assert(s@ =~= v@);
    s
}

/// Does `a[start..end]` equal `b`?
pub fn range_eq(a: &Vec<char>, start: usize, end: usize, b: &Vec<char>) -> (r: bool)
    requires
        start <= end <= a.len(),
    ensures
        r == (a@.subrange(start as int, end as int) == b@),
{
    if end - start != b.len() {
        return false;
    }
    let mut k: usize = 0;
    while k < b.len()
        invariant
            start + b.len() == end <= a.len(),
            k <= b.len(),
            forall|j: int| 0 <= j < k ==> a@[start + j] == b@[j],
        decreases b.len() - k,
    {
        if a[start + k] != b[k] {
            assert(a@.subrange(start as int, end as int)[k as int] != b@[k as int]);
            return false;
        }
        k = k + 1;
    }
    assert(a@.subrange(start as int, end as int) =~= b@);
    true
}

/// The ASCII digit character of a value below ten.
pub open spec fn digit_char(d: nat) -> char {
    ((d + 48) as u8) as char
}

/// The decimal representation of a natural number, most significant digit first.
pub open spec fn decimal(n: nat) -> Seq<char>
    decreases n,
{
    if n < 10 {
        seq![digit_char(n)]
    } else {
        decimal(n / 10).push(digit_char(n % 10))
    }
}

/// Append the decimal representation of `n` (`n.to_string()`).
pub fn push_decimal(s: &mut String, n: usize)
    ensures
        final(s)@ == old(s)@ + decimal(n as nat),
    decreases n,
{
    if n < 10 {
        let b: u8 = (n as u8) + 48;
        push_char(s, b as char);
        assert(old(s)@ + decimal(n as nat) =~= old(s)@.push(b as char));
    } else {
        push_decimal(s, n / 10);
        let b: u8 = ((n % 10) as u8) + 48;
        push_char(s, b as char);
        assert(old(s)@ + decimal(n as nat) =~= old(s)@ + decimal((n / 10) as nat) + seq![b as char]);
    }
}

/// Append the decimal representation of `n` (`n.to_string()`).
pub fn push_decimal_u64(s: &mut String, n: u64)
    ensures
        final(s)@ == old(s)@ + decimal(n as nat),
    decreases n,
{
    if n < 10 {
        let b: u8 = (n as u8) + 48;
        push_char(s, b as char);
        assert(old(s)@ + decimal(n as nat) =~= old(s)@.push(b as char));
    } else {
        push_decimal_u64(s, n / 10);
        let b: u8 = ((n % 10) as u8) + 48;
        push_char(s, b as char);
        assert(old(s)@ + decimal(n as nat) =~= old(s)@ + decimal((n / 10) as nat) + seq![b as char]);
    }
}

/// The decimal representation of an integer, with a leading `-` when negative.
pub open spec fn signed_decimal(x: int) -> Seq<char> {
    if x < 0 {
        seq!['-'] + decimal((-x) as nat)
    } else {
        decimal(x as nat)
    }
}

/// Append the decimal representation of `x` (`x.to_string()`).
pub fn push_signed(s: &mut String, x: i64)
    ensures
        final(s)@ == old(s)@ + signed_decimal(x as int),
{
    if x < 0 {
        push_char(s, '-');
        let m: u64 = if x == i64::MIN {
            9223372036854775808u64
        } else {
            (-x) as u64
        };
        push_decimal_u64(s, m);
        assert(old(s)@ + signed_decimal(x as int) =~= old(s)@.push('-') + decimal(m as nat));
    } else {
        push_decimal_u64(s, x as u64);
    }
}

/// Decimal representations are never empty and consist of digit characters.
pub proof fn lemma_decimal_digits(n: nat)
    ensures
        decimal(n).len() >= 1,
        forall|k: int| 0 <= k < decimal(n).len() ==> '0' <= #[trigger] decimal(n)[k] <= '9',
        decimal(n).last() == digit_char(n % 10),
    decreases n,
{
    if n >= 10 {
        lemma_decimal_digits(n / 10);
        assert forall|k: int| 0 <= k < decimal(n).len() implies '0' <= #[trigger] decimal(n)[k] <= '9' by {
            if k < decimal(n / 10).len() {
                assert(decimal(n)[k] == decimal(n / 10)[k]);
            }
        }
    }
}

/// Distinct numbers have distinct decimal representations.
pub proof fn lemma_decimal_injective(a: nat, b: nat)
    requires
        decimal(a) == decimal(b),
    ensures
        a == b,
    decreases a + b,
{
    lemma_decimal_digits(a);
    lemma_decimal_digits(b);
    assert(digit_char(a % 10) == digit_char(b % 10));
    assert(((a % 10 + 48) as u8) as char == ((b % 10 + 48) as u8) as char);
    assert(a % 10 == b % 10);
    if a < 10 && b < 10 {
    } else if a >= 10 && b >= 10 {
        assert(decimal(a / 10) =~= decimal(a).drop_last());
        assert(decimal(b / 10) =~= decimal(b).drop_last());
        lemma_decimal_injective(a / 10, b / 10);
    } else if a < 10 {
        lemma_decimal_digits(b / 10);
        assert(decimal(b).len() >= 2);
    } else {
        lemma_decimal_digits(a / 10);
        assert(decimal(a).len() >= 2);
    }
}

/// ASCII lower-casing of one character; other characters are unchanged.
pub open spec fn ascii_lower(c: char) -> char {
    if 'A' <= c && c <= 'Z' {
        ((c as u32) + 32) as char
    } else {
        c
    }
}

/// ASCII lower-casing of a character sequence.
pub open spec fn ascii_lower_seq(s: Seq<char>) -> Seq<char> {
    s.map_values(|c: char| ascii_lower(c))
}

/// `p` occurs in `s` starting at position `i`.
pub open spec fn occurs_at(s: Seq<char>, p: Seq<char>, i: int) -> bool {
    0 <= i && i + p.len() <= s.len() && s.subrange(i, i + p.len()) == p
}

/// `p` occurs somewhere in `s`.
pub open spec fn occurs_in(s: Seq<char>, p: Seq<char>) -> bool {
    exists|i: int| occurs_at(s, p, i)
}

/// Lower-case one ASCII letter.
pub fn lower_char(c: char) -> (r: char)
    ensures
        r == ascii_lower(c),
{
    if 'A' <= c && c <= 'Z' {
        let b: u8 = c as u8;
        assert(b == c as u32);
        let r = (b + 32) as char;
        r
    } else {
        c
    }
}

/// The characters of a string slice, in order.
pub fn chars_of(s: &str) -> (r: Vec<char>)
    ensures
        r@ == s@,
{
    let mut out: Vec<char> = Vec::new();
    for c in it: s.chars()
        invariant
            it.seq() == s@,
            out@ == it.seq().take(it.index() as int),
    {
        out.push(c);
    }
    out
}

/// Exact comparison of a character vector with a character slice.
pub fn chars_eq(a: &Vec<char>, b: &[char]) -> (r: bool)
    ensures
        r == (a@ == b@),
{
    if a.len() != b.len() {
        return false;
    }
    let mut i: usize = 0;
    while i < a.len()
        invariant
            a.len() == b.len(),
            i <= a.len(),
            forall|j: int| 0 <= j < i ==> a@[j] == b@[j],
        decreases a.len() - i,
    {
        if a[i] != b[i] {
            return false;
        }
        i = i + 1;
    }
    assert(a@ =~= b@);
    true
}

/// Does `p` occur in `s` at position `i`?
pub fn occurs_at_exec(s: &Vec<char>, p: &[char], i: usize) -> (r: bool)
    ensures
        r == occurs_at(s@, p@, i as int),
{
    if i > s.len() || p.len() > s.len() - i {
        return false;
    }
    let mut j: usize = 0;
    while j < p.len()
        invariant
            i + p.len() <= s.len(),
            j <= p.len(),
            forall|k: int| 0 <= k < j ==> s@[i + k] == p@[k],
        decreases p.len() - j,
    {
        if s[i + j] != p[j] {
            assert(s@.subrange(i as int, i + p.len())[j as int] != p@[j as int]);
            return false;
        }
        j = j + 1;
    }
    assert(s@.subrange(i as int, i + p.len()) =~= p@);
    true
}

/// Does `p` occur anywhere in `s`?
pub fn occurs_in_exec(s: &Vec<char>, p: &[char]) -> (r: bool)
    ensures
        r == occurs_in(s@, p@),
{
    let mut i: usize = 0;
    loop
        invariant
            i <= s.len(),
            forall|k: int| 0 <= k < i ==> !occurs_at(s@, p@, k),
        decreases s.len() - i,
    {
        if occurs_at_exec(s, p, i) {
            return true;
        }
        if i == s.len() {
            assert forall|k: int| !occurs_at(s@, p@, k) by {
                if 0 <= k < i {
                }
            }
            return false;
        }
        i = i + 1;
    }
}

/// ASCII lower-casing of a character vector.
pub fn lower_chars(s: &Vec<char>) -> (r: Vec<char>)
    ensures
        r@ == ascii_lower_seq(s@),
{
    let mut out: Vec<char> = Vec::new();
    let mut i: usize = 0;
    while i < s.len()
        invariant
            i <= s.len(),
            out@ == ascii_lower_seq(s@.take(i as int)),
        decreases s.len() - i,
    {
        let c = lower_char(s[i]);
        out.push(c);
        i = i + 1;
        assert(ascii_lower_seq(s@.take(i as int)) =~= ascii_lower_seq(s@.take(i - 1)).push(c));
    }
    assert(s@.take(i as int) =~= s@);
    out
}


/// The order of strings: by their characters' code points, a proper prefix
/// before any longer string. It is the order of their UTF-8 bytes.
pub open spec fn chars_lt(a: Seq<char>, b: Seq<char>) -> bool
    decreases a.len(),
{
    if a.len() == 0 {
        b.len() > 0
    } else if b.len() == 0 {
        false
    } else if a[0] == b[0] {
        chars_lt(a.drop_first(), b.drop_first())
    } else {
        (a[0] as u32) < (b[0] as u32)
    }
}

/// No string comes before itself, and two strings are never each before the
/// other.
pub proof fn lemma_chars_lt_asymmetric(a: Seq<char>, b: Seq<char>)
    ensures
        !chars_lt(a, a),
        chars_lt(a, b) ==> !chars_lt(b, a),
    decreases a.len(),
{
    if a.len() > 0 {
        lemma_chars_lt_asymmetric(a.drop_first(), a.drop_first());
        if b.len() > 0 {
            lemma_chars_lt_asymmetric(a.drop_first(), b.drop_first());
        }
    }
}

/// The order of strings is transitive.
pub proof fn lemma_chars_lt_transitive(a: Seq<char>, b: Seq<char>, c: Seq<char>)
    requires
        chars_lt(a, b),
        chars_lt(b, c),
    ensures
        chars_lt(a, c),
    decreases a.len(),
{
    if a.len() > 0 && b.len() > 0 && c.len() > 0 {
        if a[0] == b[0] && b[0] == c[0] {
            lemma_chars_lt_transitive(a.drop_first(), b.drop_first(), c.drop_first());
        }
    }
}

/// Does `a` come before `b` in the order of strings?
pub fn str_lt(a: &str, b: &str) -> (r: bool)
    ensures
        r == chars_lt(a@, b@),
{
    let x = chars_of(a);
    let y = chars_of(b);
    let mut k: usize = 0;
    assert(x@.skip(0) =~= x@);
    assert(y@.skip(0) =~= y@);
    while k < x.len() && k < y.len() && x[k] == y[k]
        invariant
            k <= x.len(),
            k <= y.len(),
            chars_lt(x@, y@) == chars_lt(x@.skip(k as int), y@.skip(k as int)),
        decreases x.len() - k,
    {
        assert(x@.skip(k as int).drop_first() =~= x@.skip(k + 1));
        assert(y@.skip(k as int).drop_first() =~= y@.skip(k + 1));
        k = k + 1;
    }
    if k == x.len() {
        k < y.len()
    } else if k == y.len() {
        false
    } else {
        assert(x@.skip(k as int)[0] == x@[k as int]);
        assert(y@.skip(k as int)[0] == y@[k as int]);
        (x[k] as u32) < (y[k] as u32)
    }
}

/// The strings of `s` are in order: none comes before an earlier one.
pub open spec fn strings_sorted(s: Seq<String>) -> bool {
    forall|i: int, j: int| 0 <= i < j < s.len() ==> !chars_lt(#[trigger] s[j]@, #[trigger] s[i]@)
}

/// Inserting into a sequence adds the element to its multiset.
proof fn lemma_insert_multiset<A>(s: Seq<A>, pos: int, x: A)
    requires
        0 <= pos <= s.len(),
    ensures
        s.insert(pos, x).to_multiset() == s.to_multiset().insert(x),
{
    let t = s.insert(pos, x);
    s.insert_ensures(pos, x);
    assert(t.remove(pos) =~= s);
    t.to_multiset_ensures();
    assert(t[pos] == x);
    assert(t.contains(x));
    assert(t.to_multiset() =~= s.to_multiset().insert(x));
}

/// Sorts strings in the order of [`chars_lt`].
pub fn sort_strings(v: Vec<String>) -> (r: Vec<String>)
    ensures
        strings_sorted(r@),
        r@.to_multiset() == v@.to_multiset(),
{
    broadcast use vstd::seq_lib::group_to_multiset_ensures;

    let ghost orig = v@;
    let mut rest = v;
    let mut out: Vec<String> = Vec::new();
    proof {
        assert(out@.to_multiset() =~= vstd::multiset::Multiset::empty());
        assert(out@.to_multiset().add(rest@.to_multiset()) =~= orig.to_multiset());
    }
    while rest.len() > 0
        invariant
            strings_sorted(out@),
            out@.to_multiset().add(rest@.to_multiset()) == orig.to_multiset(),
        decreases rest.len(),
    {
        let ghost before = rest@;
        let x = rest.pop().unwrap();
        proof {
            assert(before =~= rest@.push(x));
        }
        let mut k: usize = 0;
        while k < out.len() && !str_lt(x.as_str(), out[k].as_str())
            invariant
                k <= out.len(),
                forall|i: int| 0 <= i < k ==> !chars_lt(x@, #[trigger] out@[i]@),
            decreases out.len() - k,
        {
            k = k + 1;
        }
        let ghost old_out = out@;
        proof {
            old_out.insert_ensures(k as int, x);
            lemma_insert_multiset(old_out, k as int, x);
        }
        out.insert(k, x);
        proof {
            let n = out@;
            assert forall|i: int, j: int| 0 <= i < j < n.len() implies !chars_lt(
                #[trigger] n[j]@,
                #[trigger] n[i]@,
            ) by {
                if j < k {
                    assert(n[i] == old_out[i] && n[j] == old_out[j]);
                } else if j == k {
                    assert(n[i] == old_out[i]);
                } else if i == k {
                    // x comes before old_out[k], which is not after old_out[j - 1].
                    let y = old_out[j - 1];
                    assert(n[j] == y);
                    assert(k < out.len() - 1);
                    assert(chars_lt(x@, old_out[k as int]@));
                    if j - 1 > k {
                        assert(!chars_lt(y@, old_out[k as int]@));
                    }
                    if chars_lt(y@, x@) {
                        lemma_chars_lt_transitive(y@, x@, old_out[k as int]@);
                        lemma_chars_lt_asymmetric(y@, old_out[k as int]@);
                    }
                } else if i < k {
                    assert(n[i] == old_out[i] && n[j] == old_out[j - 1]);
                } else {
                    assert(n[i] == old_out[i - 1] && n[j] == old_out[j - 1]);
                }
            }
            assert(old_out.to_multiset().add(before.to_multiset()) == orig.to_multiset());
            rest@.to_multiset_ensures();
            assert(before.to_multiset() =~= rest@.to_multiset().insert(x));
            assert(out@.to_multiset() =~= old_out.to_multiset().insert(x));
            assert(out@.to_multiset().add(rest@.to_multiset()) =~= orig.to_multiset());
        }
    }
    out
}

} // verus!
