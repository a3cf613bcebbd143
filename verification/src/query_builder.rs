//! Incremental construction of SQL queries with bound parameters.

use vstd::prelude::*;
use crate::arguments::{
    Arguments, bind_prefix_len, lemma_trim_bind_prefix_idempotent, lookup_index, named_view,
    prefix_run, trim_bind_prefix, values_view,
};
use crate::codec::Encode;
use crate::error::EncodeError;
use crate::query::{Query, QueryStatement, query_sql, quote_identifier, quoted_ident};
use crate::error::{Error, Result};
use crate::scan::{
    contains_numeric_parameter, has_numeric, lemma_rewrite_without_matches_is_identity,
    lookup_rename, renames_view, rewrite_named_parameters, rewritten, scan,
};
use crate::value::{Value, ValueView};
use crate::values::{EntryView, ExprView, Values, ValuesEntry, values_entries, values_keys};
use crate::text::{
    chars_of, decimal, lemma_decimal_injective, push_char, push_decimal, push_str_verified,
    string_from_chars,
};

verus! {

/// The `i`-th renaming candidate for `base`: `base_i`.
pub open spec fn candidate(base: Seq<char>, i: nat) -> Seq<char> {
    base + seq!['_'] + decimal(i)
}

/// `i` is the first suffix (from 1) whose candidate is not in `used`.
pub open spec fn is_first_free(base: Seq<char>, used: Set<Seq<char>>, i: nat) -> bool {
    &&& i >= 1
    &&& !used.contains(candidate(base, i))
    &&& forall|j: nat| 1 <= j < i ==> used.contains(#[trigger] candidate(base, j))
}

/// The unique identifier made from `base` by appending the first numeric
/// suffix that is not used yet.
pub open spec fn disambiguated(base: Seq<char>, used: Set<Seq<char>>) -> Seq<char> {
    candidate(base, choose|i: nat| is_first_free(base, used, i))
}

/// Different suffixes give different candidates.
proof fn lemma_candidate_injective(base: Seq<char>, i: nat, j: nat)
    requires
        candidate(base, i) == candidate(base, j),
    ensures
        i == j,
{
    let p = base.len() + 1;
    assert(decimal(i) =~= candidate(base, i).skip(p as int));
    assert(decimal(j) =~= candidate(base, j).skip(p as int));
    lemma_decimal_injective(i, j);
}

/// If the candidates `1..=m` all occur in `s`, then `s` has at least `m` elements.
proof fn lemma_candidates_fit(base: Seq<char>, s: Seq<Seq<char>>, m: nat)
    requires
        forall|j: nat| 1 <= j <= m ==> s.contains(#[trigger] candidate(base, j)),
    ensures
        m <= s.len(),
    decreases m,
{
    if m > 0 {
        assert(s.contains(candidate(base, m)));
        let idx = choose|k: int| 0 <= k < s.len() && s[k] == candidate(base, m);
        let s2 = s.remove(idx);
        assert forall|j: nat| 1 <= j <= (m - 1) as nat implies s2.contains(
            #[trigger] candidate(base, j),
        ) by {
            assert(s.contains(candidate(base, j)));
            let p = choose|k: int| 0 <= k < s.len() && s[k] == candidate(base, j);
            if p == idx {
                lemma_candidate_injective(base, j, m);
            }
            if p < idx {
                assert(s2[p] == s[p]);
            } else {
                assert(s2[p - 1] == s[p]);
            }
        }
        lemma_candidates_fit(base, s2, (m - 1) as nat);
    }
}

/// Is `v[k]` equal to `target`, for some `k`?
fn contains_chars(v: &Vec<Vec<char>>, target: &Vec<char>) -> (r: bool)
    ensures
        r == v@.map_values(|x: Vec<char>| x@).contains(target@),
{
    let ghost vv = v@.map_values(|x: Vec<char>| x@);
    let mut k: usize = 0;
    while k < v.len()
        invariant
            k <= v.len(),
            vv == v@.map_values(|x: Vec<char>| x@),
            forall|j: int| 0 <= j < k ==> vv[j] != target@,
        decreases v.len() - k,
    {
        if crate::text::range_eq(&v[k], 0, v[k].len(), target) {
            assert(v@[k as int]@.subrange(0, v@[k as int]@.len() as int) =~= v@[k as int]@);
            assert(vv[k as int] == target@);
            return true;
        }
        assert(v@[k as int]@.subrange(0, v@[k as int]@.len() as int) =~= v@[k as int]@);
        k = k + 1;
    }
    false
}

/// Returns a unique named-parameter identifier by appending the first numeric
/// suffix `_1`, `_2`, ... that is not used yet, and records it as used.
pub fn disambiguate_name(name: &Vec<char>, used: &mut Vec<Vec<char>>) -> (r: Vec<char>)
    requires
        old(used)@.len() < usize::MAX,
    ensures
        r@ == disambiguated(name@, old(used)@.map_values(|x: Vec<char>| x@).to_set()),
        final(used)@.map_values(|x: Vec<char>| x@) == old(used)@.map_values(|x: Vec<char>| x@).push(r@),
{
    let ghost uv = used@.map_values(|x: Vec<char>| x@);
    let mut suffix: usize = 1;
    loop
        invariant
            1 <= suffix <= uv.len() + 1,
            uv.len() < usize::MAX,
            uv == used@.map_values(|x: Vec<char>| x@),
            uv == old(used)@.map_values(|x: Vec<char>| x@),
            forall|j: nat| 1 <= j < suffix ==> uv.contains(#[trigger] candidate(name@, j)),
        decreases uv.len() + 1 - suffix,
    {
        let mut cand: Vec<char> = Vec::new();
        let mut k: usize = 0;
        while k < name.len()
            invariant
                k <= name.len(),
                cand@ == name@.take(k as int),
            decreases name.len() - k,
        {
            cand.push(name[k]);
            k = k + 1;
            assert(cand@ =~= name@.take(k as int));
        }
        cand.push('_');
        let mut s = String::new();
        push_decimal(&mut s, suffix);
        let digits = crate::text::chars_of(s.as_str());
        let mut k: usize = 0;
        let ghost c0 = cand@;
        while k < digits.len()
            invariant
                k <= digits.len(),
                cand@ == c0 + digits@.take(k as int),
            decreases digits.len() - k,
        {
            cand.push(digits[k]);
            k = k + 1;
            assert(cand@ =~= c0 + digits@.take(k as int));
        }
        assert(cand@ =~= candidate(name@, suffix as nat));
        if !contains_chars(used, &cand) {
            proof {
                let ghost st = uv.to_set();
                assert(is_first_free(name@, st, suffix as nat));
                let i = choose|i: nat| is_first_free(name@, st, i);
                if i < suffix {
                    assert(st.contains(candidate(name@, i)));
                } else if i > suffix {
                    assert(st.contains(candidate(name@, suffix as nat)));
                }
            }
            let ghost cv = cand@;
            used.push(cand.clone());
            assert(used@.map_values(|x: Vec<char>| x@) =~= uv.push(cv));
            return cand;
        }
        proof {
            assert forall|j: nat| 1 <= j <= suffix implies uv.contains(#[trigger] candidate(name@, j)) by {
            }
            lemma_candidates_fit(name@, uv, suffix as nat);
        }
        suffix = suffix + 1;
    }
}

/// Some suffix is free: the first free suffix exists for any finite list of used names.
pub proof fn lemma_first_free_exists(base: Seq<char>, used: Seq<Seq<char>>)
    ensures
        exists|i: nat| is_first_free(base, used.to_set(), i),
{
    lemma_first_free_from(base, used, 1);
}

/// Searching upward from `j`, past used candidates, reaches a free one.
proof fn lemma_first_free_from(base: Seq<char>, used: Seq<Seq<char>>, j: nat)
    requires
        j >= 1,
        forall|l: nat| 1 <= l < j ==> used.to_set().contains(#[trigger] candidate(base, l)),
    ensures
        exists|i: nat| is_first_free(base, used.to_set(), i),
    decreases used.len() + 1 - j,
{
    if !used.to_set().contains(candidate(base, j)) {
        assert(is_first_free(base, used.to_set(), j));
    } else {
        assert forall|l: nat| 1 <= l <= j implies used.contains(#[trigger] candidate(base, l)) by {
            assert(used.to_set().contains(candidate(base, l)));
        }
        lemma_candidates_fit(base, used, j);
        lemma_first_free_from(base, used, j + 1);
    }
}

/// The disambiguated name is a free candidate.
pub proof fn lemma_disambiguated_fresh(base: Seq<char>, used: Seq<Seq<char>>)
    ensures
        !used.contains(disambiguated(base, used.to_set())),
{
    lemma_first_free_exists(base, used);
    let i = choose|i: nat| is_first_free(base, used.to_set(), i);
    assert(!used.to_set().contains(candidate(base, i)));
}

/// The prefix given to the named parameters of embedded expressions.
pub open spec fn expr_prefix() -> Seq<char> {
    "__musq_expr_"@
}

/// The names of (name, position) pairs.
pub open spec fn pair_names(s: Seq<(Seq<char>, usize)>) -> Seq<Seq<char>> {
    s.map_values(|p: (Seq<char>, usize)| p.0)
}

/// Bind one named argument of an appended fragment: under a fresh
/// `__musq_expr_` name when composing an expression (`ns`), under a fresh
/// suffixed name when the name is already bound, else under its own name.
/// Returns the named bindings, the used names, and the renames so far.
pub open spec fn compose_one(
    named: Seq<(Seq<char>, usize)>,
    used: Seq<Seq<char>>,
    rn: Seq<(Seq<char>, Seq<char>)>,
    entry: (Seq<char>, usize),
    base: nat,
    ns: bool,
) -> (Seq<(Seq<char>, usize)>, Seq<Seq<char>>, Seq<(Seq<char>, Seq<char>)>) {
    let name = entry.0;
    let pos = (base + entry.1) as usize;
    if ns {
        let nn = disambiguated(expr_prefix() + name, used.to_set());
        (named.push((nn, pos)), used.push(nn), rn.push((name, nn)))
    } else if lookup_index(named, name) is Some {
        let nn = disambiguated(name, used.to_set());
        (named.push((nn, pos)), used.push(nn), rn.push((name, nn)))
    } else {
        (named.push((name, pos)), used.push(name), rn)
    }
}

/// Bind all named arguments `other` of an appended fragment in order.
pub open spec fn compose_all(
    named: Seq<(Seq<char>, usize)>,
    used: Seq<Seq<char>>,
    rn: Seq<(Seq<char>, Seq<char>)>,
    other: Seq<(Seq<char>, usize)>,
    base: nat,
    ns: bool,
) -> (Seq<(Seq<char>, usize)>, Seq<Seq<char>>, Seq<(Seq<char>, Seq<char>)>)
    decreases other.len(),
{
    if other.len() == 0 {
        (named, used, rn)
    } else {
        let (a, b, c) = compose_all(named, used, rn, other.drop_last(), base, ns);
        compose_one(a, b, c, other.last(), base, ns)
    }
}

/// The names that must not be reused: those already bound, and, when not
/// composing an expression, also the fragment's own names.
pub open spec fn initial_used(named: Seq<(Seq<char>, usize)>, other: Seq<(Seq<char>, usize)>, ns: bool) -> Seq<Seq<char>> {
    if ns {
        pair_names(named)
    } else {
        pair_names(named) + pair_names(other)
    }
}

/// The name a fragment's parameter `n` is written under after composition.
pub open spec fn written_name(rn: Seq<(Seq<char>, Seq<char>)>, n: Seq<char>) -> Seq<char> {
    match lookup_rename(rn, n) {
        Some(w) => w,
        None => n,
    }
}

/// The invariant of composing the first `k` named arguments of a fragment
/// onto the bindings `named0`.
pub open spec fn compose_inv(
    named0: Seq<(Seq<char>, usize)>,
    other: Seq<(Seq<char>, usize)>,
    k: int,
    base: nat,
    named: Seq<(Seq<char>, usize)>,
    used: Seq<Seq<char>>,
    rn: Seq<(Seq<char>, Seq<char>)>,
) -> bool {
    &&& named.len() == named0.len() + k
    &&& named.take(named0.len() as int) == named0
    &&& pair_names(named).no_duplicates()
    &&& forall|x: Seq<char>| pair_names(named).contains(x) ==> used.contains(x)
    &&& forall|m: int| k <= m < other.len() ==> lookup_rename(rn, #[trigger] other[m].0) is None
    &&& forall|m: int|
        0 <= m < k ==> #[trigger] named[named0.len() + m] == (
            written_name(rn, other[m].0),
            (base + other[m].1) as usize,
        )
}

/// A rename appended after the others is found only for names no earlier
/// rename covers.
proof fn lemma_lookup_rename_push(
    rn: Seq<(Seq<char>, Seq<char>)>,
    p: (Seq<char>, Seq<char>),
    x: Seq<char>,
)
    ensures
        lookup_rename(rn.push(p), x) == match lookup_rename(rn, x) {
            Some(w) => Some(w),
            None => if p.0 == x {
                Some(p.1)
            } else {
                None
            },
        },
    decreases rn.len(),
{
    if rn.len() > 0 {
        assert(rn.push(p)[0] == rn[0]);
        assert(rn.push(p).drop_first() =~= rn.drop_first().push(p));
        lemma_lookup_rename_push(rn.drop_first(), p, x);
    } else {
        assert(rn.push(p)[0] == p);
        assert(rn.push(p).drop_first() =~= Seq::<(Seq<char>, Seq<char>)>::empty());
        assert(lookup_rename(rn.push(p).drop_first(), x) is None);
    }
}

/// Lookup fails exactly for names that do not occur.
proof fn lemma_lookup_index_absent(pairs: Seq<(Seq<char>, usize)>, x: Seq<char>)
    ensures
        lookup_index(pairs, x) is None <==> !pair_names(pairs).contains(x),
    decreases pairs.len(),
{
    if pairs.len() > 0 {
        lemma_lookup_index_absent(pairs.drop_first(), x);
        assert(pair_names(pairs.drop_first()) =~= pair_names(pairs).drop_first());
        if pair_names(pairs).contains(x) && pairs[0].0 != x {
            let i = choose|i: int| 0 <= i < pair_names(pairs).len() && pair_names(pairs)[i] == x;
            assert(pair_names(pairs.drop_first())[i - 1] == x);
        }
        if pair_names(pairs.drop_first()).contains(x) {
            let i = choose|i: int|
                0 <= i < pair_names(pairs.drop_first()).len() && pair_names(pairs.drop_first())[i]
                    == x;
            assert(pair_names(pairs)[i + 1] == x);
        }
        if pairs[0].0 == x {
            assert(pair_names(pairs)[0] == x);
        }
    }
}

/// With distinct names, lookup finds each pair's own position.
proof fn lemma_lookup_index_unique(pairs: Seq<(Seq<char>, usize)>, i: int)
    requires
        pair_names(pairs).no_duplicates(),
        0 <= i < pairs.len(),
    ensures
        lookup_index(pairs, pairs[i].0) == Some(pairs[i].1),
    decreases pairs.len(),
{
    if i > 0 {
        assert(pair_names(pairs)[0] != pair_names(pairs)[i]);
        assert(pair_names(pairs.drop_first()) =~= pair_names(pairs).drop_first());
        assert(pairs.drop_first()[i - 1] == pairs[i]);
        lemma_lookup_index_unique(pairs.drop_first(), i - 1);
    }
}

/// Appending pairs keeps every lookup that already succeeds.
proof fn lemma_lookup_index_extend(pairs: Seq<(Seq<char>, usize)>, pre: Seq<(Seq<char>, usize)>, x: Seq<char>)
    requires
        pre.len() <= pairs.len(),
        pairs.take(pre.len() as int) == pre,
        lookup_index(pre, x) is Some,
    ensures
        lookup_index(pairs, x) == lookup_index(pre, x),
    decreases pre.len(),
{
    assert(pairs[0] == pre[0]);
    if pre[0].0 != x {
        assert(pairs.drop_first().take(pre.len() - 1) =~= pre.drop_first());
        lemma_lookup_index_extend(pairs.drop_first(), pre.drop_first(), x);
    }
}

/// One more composed argument keeps the composition invariant.
proof fn lemma_compose_step(
    named0: Seq<(Seq<char>, usize)>,
    other: Seq<(Seq<char>, usize)>,
    k: int,
    base: nat,
    ns: bool,
    named: Seq<(Seq<char>, usize)>,
    used: Seq<Seq<char>>,
    rn: Seq<(Seq<char>, Seq<char>)>,
)
    requires
        0 <= k < other.len(),
        pair_names(other).no_duplicates(),
        compose_inv(named0, other, k, base, named, used, rn),
    ensures
        ({
            let (a, b, c) = compose_one(named, used, rn, other[k], base, ns);
            compose_inv(named0, other, k + 1, base, a, b, c)
        }),
{
    let (a, b, c) = compose_one(named, used, rn, other[k], base, ns);
    let name = other[k].0;
    let pos = (base + other[k].1) as usize;
    let n0 = named0.len() as int;
    let new_name: Seq<char> = if ns {
        disambiguated(expr_prefix() + name, used.to_set())
    } else if lookup_index(named, name) is Some {
        disambiguated(name, used.to_set())
    } else {
        name
    };
    assert(a == named.push((new_name, pos)));
    assert(b == used.push(new_name));
    assert(pair_names(a) =~= pair_names(named).push(new_name));
    // the new name is not bound yet
    if ns {
        lemma_disambiguated_fresh(expr_prefix() + name, used);
    } else if lookup_index(named, name) is Some {
        lemma_disambiguated_fresh(name, used);
    } else {
        lemma_lookup_index_absent(named, name);
    }
    assert(!pair_names(named).contains(new_name));
    assert(pair_names(a).no_duplicates()) by {
        assert forall|i: int, j: int|
            0 <= i < pair_names(a).len() && 0 <= j < pair_names(a).len() && i != j implies
            pair_names(a)[i] != pair_names(a)[j] by {
            if i < named.len() && j < named.len() {
                assert(pair_names(a)[i] == pair_names(named)[i]);
                assert(pair_names(a)[j] == pair_names(named)[j]);
            } else if i < named.len() {
                assert(pair_names(a)[i] == pair_names(named)[i]);
            } else if j < named.len() {
                assert(pair_names(a)[j] == pair_names(named)[j]);
            }
        }
    }
    assert forall|x: Seq<char>| pair_names(a).contains(x) implies b.contains(x) by {
        let i = choose|i: int| 0 <= i < pair_names(a).len() && pair_names(a)[i] == x;
        if i < named.len() {
            assert(pair_names(named)[i] == x);
            assert(used.contains(x));
            let j = choose|j: int| 0 <= j < used.len() && used[j] == x;
            assert(b[j] == x);
        } else {
            assert(b[used.len() as int] == x);
        }
    }
    assert(a.take(n0) =~= named.take(n0));
    // later fragment names have no rename yet
    assert(lookup_rename(rn, name) is None);
    assert forall|m: int| k + 1 <= m < other.len() implies lookup_rename(c, #[trigger] other[m].0) is None by {
        assert(pair_names(other)[m] != pair_names(other)[k]);
        assert(lookup_rename(rn, other[m].0) is None);
        if c != rn {
            lemma_lookup_rename_push(rn, (name, new_name), other[m].0);
        }
    }
    assert forall|m: int| 0 <= m < k + 1 implies #[trigger] a[n0 + m] == (
        written_name(c, other[m].0),
        (base + other[m].1) as usize,
    ) by {
        if m < k {
            assert(a[n0 + m] == named[n0 + m]);
            assert(pair_names(other)[m] != pair_names(other)[k]);
            if c != rn {
                lemma_lookup_rename_push(rn, (name, new_name), other[m].0);
            }
        } else {
            assert(a[n0 + m] == (new_name, pos));
            if c != rn {
                lemma_lookup_rename_push(rn, (name, new_name), name);
            }
        }
    }
}

/// Composing the first `k` named arguments of a fragment keeps the invariant.
proof fn lemma_compose_prefix(
    named0: Seq<(Seq<char>, usize)>,
    used0: Seq<Seq<char>>,
    other: Seq<(Seq<char>, usize)>,
    base: nat,
    ns: bool,
    k: int,
)
    requires
        0 <= k <= other.len(),
        pair_names(named0).no_duplicates(),
        pair_names(other).no_duplicates(),
        forall|x: Seq<char>| pair_names(named0).contains(x) ==> used0.contains(x),
    ensures
        ({
            let (a, b, c) = compose_all(named0, used0, seq![], other.take(k), base, ns);
            compose_inv(named0, other, k, base, a, b, c)
        }),
    decreases k,
{
    if k == 0 {
        assert(other.take(0).len() == 0);
        assert(named0.take(named0.len() as int) =~= named0);
    } else {
        assert(other.take(k).drop_last() =~= other.take(k - 1));
        assert(other.take(k).last() == other[k - 1]);
        lemma_compose_prefix(named0, used0, other, base, ns, k - 1);
        let (a, b, c) = compose_all(named0, used0, seq![], other.take(k - 1), base, ns);
        lemma_compose_step(named0, other, k - 1, base, ns, a, b, c);
    }
}

/// Composing a fragment onto a query keeps every existing named binding,
/// keeps all names distinct, and makes each named parameter of the fragment,
/// under the name it is written with afterwards, refer to its own argument
/// moved behind the existing ones.
pub proof fn lemma_fragment_parameters_rebased(
    named0: Seq<(Seq<char>, usize)>,
    other: Seq<(Seq<char>, usize)>,
    base: nat,
    ns: bool,
)
    requires
        pair_names(named0).no_duplicates(),
        pair_names(other).no_duplicates(),
    ensures
        ({
            let (nm, used, rn) = compose_all(
                named0,
                initial_used(named0, other, ns),
                seq![],
                other,
                base,
                ns,
            );
            &&& nm.len() == named0.len() + other.len()
            &&& pair_names(nm).no_duplicates()
            &&& forall|x: Seq<char>|
                #[trigger] lookup_index(named0, x) is Some ==> lookup_index(nm, x) == lookup_index(
                    named0,
                    x,
                )
            &&& forall|m: int|
                0 <= m < other.len() ==> lookup_index(nm, written_name(rn, #[trigger] other[m].0))
                    == Some((base + other[m].1) as usize)
        }),
{
    let used0 = initial_used(named0, other, ns);
    assert forall|x: Seq<char>| pair_names(named0).contains(x) implies used0.contains(x) by {
        let i = choose|i: int| 0 <= i < pair_names(named0).len() && pair_names(named0)[i] == x;
        assert(used0[i] == x);
    }
    lemma_compose_prefix(named0, used0, other, base, ns, other.len() as int);
    assert(other.take(other.len() as int) =~= other);
    let (nm, used, rn) = compose_all(named0, used0, seq![], other, base, ns);
    assert forall|x: Seq<char>| #[trigger] lookup_index(named0, x) is Some implies lookup_index(nm, x)
        == lookup_index(named0, x) by {
        lemma_lookup_index_extend(nm, named0, x);
    }
    assert forall|m: int| 0 <= m < other.len() implies lookup_index(
        nm,
        written_name(rn, #[trigger] other[m].0),
    ) == Some((base + other[m].1) as usize) by {
        let i = named0.len() + m;
        assert(nm[i] == (written_name(rn, other[m].0), (base + other[m].1) as usize));
        lemma_lookup_index_unique(nm, i);
    }
}

/// The bindings and the renames that composing the named arguments `other`
/// of a fragment onto `named0` produces, the fragment's arguments placed
/// after `base` existing ones.
pub open spec fn compose(
    named0: Seq<(Seq<char>, usize)>,
    other: Seq<(Seq<char>, usize)>,
    base: nat,
    ns: bool,
) -> (Seq<(Seq<char>, usize)>, Seq<(Seq<char>, Seq<char>)>) {
    let (nm, _used, rn) = compose_all(named0, initial_used(named0, other, ns), seq![], other, base, ns);
    (nm, rn)
}

/// The characters of a list of names.
pub open spec fn used_view(v: Seq<Vec<char>>) -> Seq<Seq<char>> {
    v.map_values(|x: Vec<char>| x@)
}

/// An error of query composition with message `msg`.
pub fn query_error(msg: &str) -> (r: Error)
    ensures
        r matches Error::Query(s) && s@ == msg@,
{
    let chars = chars_of(msg);
    Error::Query(string_from_chars(&chars))
}

/// The message of a fragment with numeric placeholders.
pub open spec fn numeric_fragment_message() -> Seq<char> {
    "numeric SQL parameters are not supported in composed query fragments"@
}

/// Incrementally build a SQL query with bound parameters.
#[derive(Debug)]
pub struct QueryBuilder {
    /// Accumulated SQL string.
    pub sql: String,
    /// Bound arguments.
    pub arguments: Arguments,
    /// Whether the query is tainted with raw SQL.
    pub tainted: bool,
}

/// The content of a query builder.
#[verifier::ext_equal]
pub struct BuilderView {
    /// The SQL text so far.
    pub sql: Seq<char>,
    /// The bound values.
    pub values: Seq<ValueView>,
    /// The named parameters and their argument positions.
    pub named: Seq<(Seq<char>, usize)>,
    /// Whether raw SQL was embedded.
    pub tainted: bool,
}

impl View for QueryBuilder {
    type V = BuilderView;

    open spec fn view(&self) -> BuilderView {
        BuilderView {
            sql: self.sql@,
            values: values_view(self.arguments.values@),
            named: named_view(self.arguments.named@),
            tainted: self.tainted,
        }
    }
}

/// `b` with the SQL text `t` appended.
pub open spec fn sql_push(b: BuilderView, t: Seq<char>) -> BuilderView {
    BuilderView { sql: b.sql + t, ..b }
}

/// `b` with the value `v` bound as the next positional argument.
pub open spec fn value_push(b: BuilderView, v: ValueView) -> BuilderView {
    BuilderView { values: b.values.push(v), ..b }
}

/// `b` with the fragment `sql`, carrying the arguments `values` and `named`,
/// appended: the fragment's named parameters composed onto the bound ones and
/// renamed in its text accordingly, its values after the bound ones.
pub open spec fn append_fragment(
    b: BuilderView,
    sql: Seq<char>,
    values: Seq<ValueView>,
    named: Seq<(Seq<char>, usize)>,
    tainted: bool,
    ns: bool,
) -> BuilderView {
    let (nm, rn) = compose(b.named, named, b.values.len(), ns);
    BuilderView {
        sql: b.sql + rewritten(sql, rn),
        values: b.values + values,
        named: nm,
        tainted: b.tainted || tainted,
    }
}

/// The names of distinct-named arguments are distinct.
proof fn lemma_names_distinct(a: &Arguments)
    requires
        a.wf(),
    ensures
        pair_names(named_view(a.named@)).no_duplicates(),
{
    assert forall|i: int, j: int|
        0 <= i < pair_names(named_view(a.named@)).len() && 0 <= j < pair_names(
            named_view(a.named@),
        ).len() && i != j implies pair_names(named_view(a.named@))[i] != pair_names(
        named_view(a.named@),
    )[j] by {
        if i < j {
            assert(a.named@[i].0@ != a.named@[j].0@);
        } else {
            assert(a.named@[j].0@ != a.named@[i].0@);
        }
    }
}

/// Refuses SQL with numeric placeholders (`?1`, `$2`) outside strings and
/// comments, which cannot be renumbered when fragments are composed.
pub fn reject_numeric_parameters(sql: &str) -> (r: Result<()>)
    ensures
        r is Err <==> has_numeric(scan(sql@)),
        r matches Err(e) ==> (e matches Error::Query(m) && m@ == numeric_fragment_message()),
        sql@.len() <= usize::MAX,
{
    if contains_numeric_parameter(sql) {
        return Err(
            query_error("numeric SQL parameters are not supported in composed query fragments"),
        );
    }
    Ok(())
}

impl QueryBuilder {
    /// Append a SQL fragment with arguments, rebasing and renaming named
    /// parameters as needed; with `ns`, every named parameter of the fragment
    /// gets a fresh `__musq_expr_` name.
    fn push_fragment(&mut self, sql: String, other: Arguments, tainted: bool, ns: bool) -> (r: Result<()>)
        requires
            old(self).arguments.wf(),
            other.wf(),
            old(self).arguments.named@.len() + 2 * other.named@.len() < usize::MAX,
        ensures
            final(self).arguments.wf(),
            has_numeric(scan(sql@)) ==> (r matches Err(Error::Query(m)) && m@
                == numeric_fragment_message()) && *final(self) == *old(self),
            !has_numeric(scan(sql@)) ==> r is Ok && final(self)@ == append_fragment(
                old(self)@,
                sql@,
                values_view(other.values@),
                named_view(other.named@),
                tainted,
                ns,
            ),
    {
        reject_numeric_parameters(sql.as_str())?;
        let ghost old_self = *self;
        let ghost named0 = named_view(self.arguments.named@);
        let ghost onv = named_view(other.named@);
        let ghost other_values = other.values@;
        proof {
            lemma_names_distinct(&self.arguments);
            lemma_names_distinct(&other);
        }
        let base = self.arguments.values.len();
        let Arguments { values: mut ovalues, named: onamed } = other;
        self.arguments.values.append(&mut ovalues);
        let total = self.arguments.values.len();
        let mut used: Vec<Vec<char>> = Vec::new();
        let mut i: usize = 0;
        while i < self.arguments.named.len()
            invariant
                i <= self.arguments.named@.len(),
                named0 == named_view(self.arguments.named@),
                used_view(used@) == pair_names(named0).take(i as int),
            decreases self.arguments.named@.len() - i,
        {
            let c = chars_of(self.arguments.named[i].0.as_str());
            assert(c@ == pair_names(named0)[i as int]);
            let ghost before = used@;
            used.push(c);
            assert(used@ == before.push(c));
            assert(used_view(used@) =~= used_view(before).push(c@));
            assert(pair_names(named0).take(i + 1) =~= pair_names(named0).take(i as int).push(c@));
            i = i + 1;
            assert(used_view(used@) =~= pair_names(named0).take(i as int));
        }
        assert(pair_names(named0).take(named0.len() as int) =~= pair_names(named0));
        if !ns {
            let mut i: usize = 0;
            let ghost u1 = used_view(used@);
            while i < onamed.len()
                invariant
                    i <= onamed@.len(),
                    onv == named_view(onamed@),
                    used_view(used@) == u1 + pair_names(onv).take(i as int),
                decreases onamed@.len() - i,
            {
                let c = chars_of(onamed[i].0.as_str());
                assert(c@ == pair_names(onv)[i as int]);
                let ghost before = used@;
                used.push(c);
                assert(used_view(used@) =~= used_view(before).push(c@));
                assert(pair_names(onv).take(i + 1) =~= pair_names(onv).take(i as int).push(c@));
                i = i + 1;
                assert(used_view(used@) =~= u1 + pair_names(onv).take(i as int));
            }
            assert(pair_names(onv).take(onv.len() as int) =~= pair_names(onv));
        }
        let ghost used0 = used_view(used@);
        assert(used0 == initial_used(named0, onv, ns));
        assert forall|x: Seq<char>| pair_names(named0).contains(x) implies used0.contains(x) by {
            let j = choose|j: int| 0 <= j < pair_names(named0).len() && pair_names(named0)[j] == x;
            assert(used0[j] == x);
        }
        let prefix = chars_of("__musq_expr_");
        let mut renames: Vec<(String, String)> = Vec::new();
        let mut k: usize = 0;
        assert(onv.take(0) =~= Seq::<(Seq<char>, usize)>::empty());
        while k < onamed.len()
            invariant
                k <= onamed@.len(),
                onv == named_view(onamed@),
                pair_names(named0).no_duplicates(),
                pair_names(onv).no_duplicates(),
                forall|x: Seq<char>| pair_names(named0).contains(x) ==> used0.contains(x),
                used0 == initial_used(named0, onv, ns),
                prefix@ == expr_prefix(),
                base == old_self.arguments.values@.len(),
                self.arguments.values@ == old_self.arguments.values@ + other_values,
                total == base + other_values.len(),
                self.sql == old_self.sql,
                self.tainted == old_self.tainted,
                forall|j: int| 0 <= j < onamed@.len() ==> 1 <= (#[trigger] onamed@[j]).1 <= other_values.len(),
                used@.len() == used0.len() + k,
                used0.len() + onamed@.len() < usize::MAX,
                (named_view(self.arguments.named@), used_view(used@), renames_view(renames@))
                    == compose_all(named0, used0, seq![], onv.take(k as int), base as nat, ns),
            decreases onamed@.len() - k,
        {
            proof {
                lemma_compose_prefix(named0, used0, onv, base as nat, ns, k as int);
                assert(onv.take(k + 1).drop_last() =~= onv.take(k as int));
                assert(onv.take(k + 1).last() == onv[k as int]);
            }
            let ghost cur_used = used_view(used@);
            let name = chars_of(onamed[k].0.as_str());
            let pos = base + onamed[k].1;
            if ns {
                let mut b = prefix.clone();
                let mut j: usize = 0;
                while j < name.len()
                    invariant
                        j <= name@.len(),
                        b@ == prefix@ + name@.take(j as int),
                    decreases name@.len() - j,
                {
                    b.push(name[j]);
                    j = j + 1;
                    assert(b@ =~= prefix@ + name@.take(j as int));
                }
                assert(name@.take(name@.len() as int) =~= name@);
                let nn = disambiguate_name(&b, &mut used);
                let nns = string_from_chars(&nn);
                renames.push((onamed[k].0.clone(), nns.clone()));
                self.arguments.named.push((nns, pos));
            } else if self.arguments.find_named(&name).is_some() {
                let nn = disambiguate_name(&name, &mut used);
                let nns = string_from_chars(&nn);
                renames.push((onamed[k].0.clone(), nns.clone()));
                self.arguments.named.push((nns, pos));
            } else {
                used.push(name);
                self.arguments.named.push((onamed[k].0.clone(), pos));
                assert(used_view(used@) =~= cur_used.push(onv[k as int].0));
            }
            proof {
                assert(named_view(self.arguments.named@) =~= compose_all(
                    named0,
                    used0,
                    seq![],
                    onv.take(k + 1),
                    base as nat,
                    ns,
                ).0);
                assert(used_view(used@) =~= compose_all(
                    named0,
                    used0,
                    seq![],
                    onv.take(k + 1),
                    base as nat,
                    ns,
                ).1);
                assert(renames_view(renames@) =~= compose_all(
                    named0,
                    used0,
                    seq![],
                    onv.take(k + 1),
                    base as nat,
                    ns,
                ).2);
            }
            k = k + 1;
        }
        proof {
            assert(onv.take(onv.len() as int) =~= onv);
            lemma_compose_prefix(named0, used0, onv, base as nat, ns, onv.len() as int);
        }
        let ghost sql0 = sql@;
        let mut sql = sql;
        if renames.len() > 0 {
            sql = rewrite_named_parameters(sql.as_str(), &renames);
        } else {
            proof {
                lemma_rewrite_without_matches_is_identity(sql@, renames_view(renames@));
            }
        }
        push_str_verified(&mut self.sql, sql.as_str());
        self.tainted = self.tainted || tainted;
        proof {
            assert(self.sql@ == old_self.sql@ + rewritten(sql0, renames_view(renames@)));
            assert(compose(named0, onv, base as nat, ns) == (named_view(self.arguments.named@), renames_view(renames@)));
            let nm = named_view(self.arguments.named@);
            assert(values_view(self.arguments.values@) =~= values_view(old_self.arguments.values@)
                + values_view(other_values));
            assert forall|i: int, j: int|
                0 <= i < j < self.arguments.named@.len() implies self.arguments.named@[i].0@
                != self.arguments.named@[j].0@ by {
                assert(pair_names(nm)[i] == self.arguments.named@[i].0@);
                assert(pair_names(nm)[j] == self.arguments.named@[j].0@);
            }
            assert forall|i: int| 0 <= i < self.arguments.named@.len() implies 1 <= (
            #[trigger] self.arguments.named@[i]).1 <= self.arguments.values@.len() by {
                if i < named0.len() {
                    assert(nm.take(named0.len() as int)[i] == named0[i]);
                    assert(old_self.arguments.named@[i].1 == named0[i].1);
                } else {
                    let m = i - named0.len();
                    assert(onamed@[m].1 == onv[m].1);
                    assert(1 <= onamed@[m].1 <= other_values.len());
                    assert(nm[named0.len() + m] == (written_name(renames_view(renames@), onv[m].0), (base + onv[m].1) as usize));
                }
            }
        }
        Ok(())
    }
}

/// The texts `parts` joined with `sep` between neighbours.
pub open spec fn join(parts: Seq<Seq<char>>, sep: Seq<char>) -> Seq<char>
    decreases parts.len(),
{
    if parts.len() == 0 {
        seq![]
    } else if parts.len() == 1 {
        parts[0]
    } else {
        join(parts.drop_last(), sep) + sep + parts.last()
    }
}

/// `n` positional placeholders separated by commas: `?, ?, ?`.
pub open spec fn placeholders(n: nat) -> Seq<char> {
    join(Seq::new(n, |i: int| seq!['?']), ", "@)
}

/// Joining one more part appends the separator (unless first) and the part.
pub proof fn lemma_join_push(parts: Seq<Seq<char>>, sep: Seq<char>, p: Seq<char>)
    ensures
        join(parts.push(p), sep) == if parts.len() == 0 {
            p
        } else {
            join(parts, sep) + sep + p
        },
{
    assert(parts.push(p).drop_last() =~= parts);
}

/// The text of one more placeholder.
pub proof fn lemma_placeholders_next(n: nat)
    ensures
        placeholders(n + 1) == if n == 0 {
            seq!['?']
        } else {
            placeholders(n) + ", "@ + seq!['?']
        },
{
    let parts = Seq::new(n, |i: int| seq!['?']);
    assert(Seq::new(n + 1, |i: int| seq!['?']) =~= parts.push(seq!['?']));
    lemma_join_push(parts, ", "@, seq!['?']);
}

/// The message of an empty named bind parameter.
pub open spec fn empty_name_message() -> Seq<char> {
    "empty named bind parameter"@
}

/// Normalize a named bind argument into the bare SQLite parameter name:
/// without its leading `:`, `@`, `$` and `?` characters.
fn normalize_bind_name(name: &str) -> (r: Result<String>)
    ensures
        trim_bind_prefix(name@).len() > 0 ==> (r matches Ok(s) && s@ == trim_bind_prefix(name@)),
        trim_bind_prefix(name@).len() == 0 ==> (r matches Err(Error::Query(m)) && m@
            == empty_name_message()),
{
    let chars = chars_of(name);
    let start = bind_prefix_len(&chars);
    if start == chars.len() {
        return Err(query_error("empty named bind parameter"));
    }
    let mut out = String::new();
    crate::text::push_range(&mut out, &chars, start, chars.len());
    assert(chars@.subrange(start as int, chars@.len() as int) =~= trim_bind_prefix(name@));
    Ok(out)
}

impl QueryBuilder {
    /// Well-formed bound arguments.
    pub open spec fn wf(&self) -> bool {
        self.arguments.wf()
    }

    /// Create a new, empty query builder.
    pub fn new() -> (r: QueryBuilder)
        ensures
            r.wf(),
            r@.sql.len() == 0,
            r@.values.len() == 0,
            r@.named.len() == 0,
            !r@.tainted,
    {
        QueryBuilder { sql: String::new(), arguments: Arguments::new(), tainted: false }
    }

    /// Create a builder from existing parts.
    pub(crate) fn from_parts(sql: String, arguments: Arguments, tainted: bool) -> (r: QueryBuilder)
        ensures
            r.sql == sql,
            r.arguments == arguments,
            r.tainted == tainted,
    {
        QueryBuilder { sql, arguments, tainted }
    }

    /// Append raw SQL to the query.
    pub fn push_sql(&mut self, sql: &str)
        ensures
            final(self)@ == sql_push(old(self)@, sql@),
            final(self).arguments == old(self).arguments,
    {
        push_str_verified(&mut self.sql, sql);
    }

    /// Append raw SQL and mark the query as tainted.
    pub fn push_raw(&mut self, raw: &str)
        ensures
            final(self)@ == (BuilderView { tainted: true, ..sql_push(old(self)@, raw@) }),
            final(self).arguments == old(self).arguments,
    {
        push_str_verified(&mut self.sql, raw);
        self.tainted = true;
    }

    /// Add a positional bind parameter and append the placeholder.
    pub fn push_bind<T: Encode>(&mut self, value: &T) -> (r: Result<()>)
        requires
            old(self).wf(),
        ensures
            final(self).wf(),
            match value.encoding() {
                Ok(v) => r is Ok && final(self)@ == sql_push(value_push(old(self)@, v), seq!['?']),
                Err(m) => (r matches Err(Error::Encode(EncodeError::Conversion(s))) && s@ == m)
                    && final(self)@ == old(self)@,
            },
    {
        self.arguments.add(value)?;
        push_char(&mut self.sql, '?');
        Ok(())
    }

    /// Add a named bind parameter and append the placeholder. The name may
    /// carry SQLite's `:`, `@`, `$` or `?` prefix; it is written with `:`.
    pub fn push_bind_named<T: Encode>(&mut self, name: &str, value: &T) -> (r: Result<()>)
        requires
            old(self).wf(),
            old(self).arguments.values@.len() < usize::MAX,
        ensures
            final(self).wf(),
            trim_bind_prefix(name@).len() == 0 ==> (r matches Err(Error::Query(m)) && m@
                == empty_name_message()) && final(self)@ == old(self)@,
            trim_bind_prefix(name@).len() > 0 ==> match value.encoding() {
                Ok(v) => r is Ok && final(self).sql@ == old(self).sql@ + seq![':']
                    + trim_bind_prefix(name@) && final(self).tainted == old(self).tainted
                    && match lookup_index(old(self)@.named, trim_bind_prefix(name@)) {
                    Some(idx) => final(self)@.values == old(self)@.values.update(idx - 1, v)
                        && final(self)@.named == old(self)@.named,
                    None => final(self)@.values == old(self)@.values.push(v)
                        && final(self)@.named == old(self)@.named.push(
                        (trim_bind_prefix(name@), final(self)@.values.len() as usize),
                    ),
                },
                Err(m) => (r matches Err(Error::Encode(EncodeError::Conversion(s))) && s@ == m)
                    && final(self)@ == old(self)@,
            },
    {
        let ghost given = name@;
        let name = normalize_bind_name(name)?;
        proof {
            lemma_trim_bind_prefix_idempotent(given);
        }
        let ghost sql0 = self.sql@;
        match self.arguments.add_named(name.as_str(), value) {
            Ok(()) => {},
            Err(e) => {
                assert(self@ =~= old(self)@);
                return Err(e);
            },
        }
        push_char(&mut self.sql, ':');
        push_str_verified(&mut self.sql, name.as_str());
        assert(self.sql@ =~= sql0 + seq![':'] + name@);
        Ok(())
    }

    /// Append a comma-separated list of bound values, each as `?`. A value
    /// that fails to encode ends the list with an error after its
    /// placeholder was written.
    pub fn push_values<T: Encode>(&mut self, values: Vec<T>) -> (r: Result<()>)
        requires
            old(self).wf(),
        ensures
            final(self).wf(),
            final(self).tainted == old(self).tainted,
            final(self)@.named == old(self)@.named,
            match first_encode_failure(values@) {
                None => r is Ok && final(self).sql@ == old(self).sql@ + placeholders(
                    values@.len(),
                ) && final(self)@.values == old(self)@.values + encodings(values@),
                Some(j) => (r matches Err(Error::Encode(EncodeError::Conversion(s))) && s@
                    == values@[j].encoding()->Err_0) && final(self).sql@ == old(self).sql@
                    + placeholders((j + 1) as nat) && final(self)@.values == old(self)@.values
                    + encodings(values@.take(j)),
            },
    {
        let mut k: usize = 0;
        while k < values.len()
            invariant
                k <= values@.len(),
                self.wf(),
                self.tainted == old(self).tainted,
                self@.named == old(self)@.named,
                forall|j: int| 0 <= j < k ==> (#[trigger] values@[j].encoding()) is Ok,
                self.sql@ == old(self).sql@ + placeholders(k as nat),
                self@.values == old(self)@.values + encodings(values@.take(k as int)),
            decreases values@.len() - k,
        {
            if k > 0 {
                push_str_verified(&mut self.sql, ", ");
            }
            push_char(&mut self.sql, '?');
            proof {
                lemma_placeholders_next(k as nat);
                assert(values@.take(k + 1).drop_last() =~= values@.take(k as int));
            }
            let ghost before = self@.values;
            match self.arguments.add(&values[k]) {
                Ok(()) => {},
                Err(e) => {
                    proof {
                        lemma_first_encode_failure(values@, k as int);
                    }
                    return Err(e);
                },
            }
            k = k + 1;
            assert(self@.values =~= old(self)@.values + encodings(values@.take(k as int)));
        }
        proof {
            lemma_no_encode_failure(values@);
            assert(values@.take(values@.len() as int) =~= values@);
        }
        Ok(())
    }

    /// Append a comma-separated list of quoted identifiers; an empty list is
    /// an error.
    pub fn push_idents(&mut self, idents: &[&str]) -> (r: Result<()>)
        ensures
            final(self).arguments == old(self).arguments,
            final(self).tainted == old(self).tainted,
            idents@.len() == 0 ==> (r matches Err(Error::Query(m)) && m@ == "empty idents"@)
                && final(self).sql@ == old(self).sql@,
            idents@.len() > 0 ==> r is Ok && final(self).sql@ == old(self).sql@ + join(
                quoted_all(idents@),
                ", "@,
            ),
    {
        let mut k: usize = 0;
        while k < idents.len()
            invariant
                k <= idents@.len(),
                self.arguments == old(self).arguments,
                self.tainted == old(self).tainted,
                self.sql@ == old(self).sql@ + join(quoted_all(idents@.take(k as int)), ", "@),
            decreases idents@.len() - k,
        {
            if k > 0 {
                push_str_verified(&mut self.sql, ", ");
            }
            let q = quote_identifier(idents[k]);
            push_str_verified(&mut self.sql, q.as_str());
            proof {
                assert(quoted_all(idents@.take(k + 1)) =~= quoted_all(idents@.take(k as int)).push(
                    quoted_ident(idents@[k as int]@),
                ));
                lemma_join_push(quoted_all(idents@.take(k as int)), ", "@, quoted_ident(idents@[k as int]@));
            }
            k = k + 1;
        }
        if k == 0 {
            assert(join(quoted_all(idents@.take(0)), ", "@) =~= Seq::<char>::empty());
            return Err(query_error("empty idents"));
        }
        assert(idents@.take(k as int) =~= idents@);
        Ok(())
    }

    /// Finalize the builder into a [`Query`].
    pub fn build(self) -> (r: Query)
        ensures
            r.statement == QueryStatement::Sql(self.sql),
            r.arguments == Some(self.arguments),
            r.tainted == self.tainted,
    {
        Query {
            statement: QueryStatement::Sql(self.sql),
            arguments: Some(self.arguments),
            tainted: self.tainted,
        }
    }
}

impl Default for QueryBuilder {
    fn default() -> (r: QueryBuilder)
        ensures
            r.wf(),
            r@.sql.len() == 0,
            r@.values.len() == 0,
            r@.named.len() == 0,
            !r@.tainted,
    {
        QueryBuilder::new()
    }
}

/// The quoted forms of identifiers.
pub open spec fn quoted_all(idents: Seq<&str>) -> Seq<Seq<char>> {
    idents.map_values(|s: &str| quoted_ident(s@))
}

/// The encoded values of items that all encode.
pub open spec fn encodings<T: Encode>(items: Seq<T>) -> Seq<ValueView> {
    items.map_values(|t: T| t.encoding()->Ok_0)
}

/// The position of the first item that fails to encode, if any.
pub open spec fn first_encode_failure<T: Encode>(items: Seq<T>) -> Option<int> {
    if exists|j: int| 0 <= j < items.len() && (#[trigger] items[j].encoding()) is Err {
        Some(
            choose|j: int|
                0 <= j < items.len() && (#[trigger] items[j].encoding()) is Err && forall|l: int|
                    0 <= l < j ==> (#[trigger] items[l].encoding()) is Ok,
        )
    } else {
        None
    }
}

/// When every earlier item encodes and item `k` fails, `k` is the first failure.
proof fn lemma_first_encode_failure<T: Encode>(items: Seq<T>, k: int)
    requires
        0 <= k < items.len(),
        items[k].encoding() is Err,
        forall|j: int| 0 <= j < k ==> (#[trigger] items[j].encoding()) is Ok,
    ensures
        first_encode_failure(items) == Some(k),
{
    assert(0 <= k < items.len() && items[k].encoding() is Err);
    let c = choose|j: int|
        0 <= j < items.len() && (#[trigger] items[j].encoding()) is Err && forall|l: int|
            0 <= l < j ==> (#[trigger] items[l].encoding()) is Ok;
    if c < k {
        assert(items[c].encoding() is Ok);
    } else if c > k {
        assert(items[k].encoding() is Ok);
    }
}

/// When every item encodes there is no failure.
proof fn lemma_no_encode_failure<T: Encode>(items: Seq<T>)
    requires
        forall|j: int| 0 <= j < items.len() ==> (#[trigger] items[j].encoding()) is Ok,
    ensures
        first_encode_failure(items) is None,
{
}

/// The clause a list of column/value entries is written as.
pub enum ClauseKind {
    /// The value list of an `INSERT`: `?` or the expression.
    InsertValues,
    /// The assignments of an `UPDATE ... SET`: `"col" = ?`.
    SetAssignments,
    /// The conditions of a `WHERE`: `"col" = ?`, or `"col" IS NULL` for NULL.
    WhereConditions,
}

/// Appending an expression fragment (with fresh parameter names); fails,
/// changing nothing, when it has numeric placeholders.
pub open spec fn expr_step(b: BuilderView, x: ExprView) -> (BuilderView, bool) {
    if has_numeric(scan(x.sql)) {
        (b, false)
    } else {
        (append_fragment(b, x.sql, x.values, x.named, x.tainted, true), true)
    }
}

/// Writing one column/value entry of a clause.
pub open spec fn clause_step(kind: ClauseKind, b: BuilderView, key: Seq<char>, e: EntryView) -> (
    BuilderView,
    bool,
) {
    match kind {
        ClauseKind::InsertValues => match e {
            EntryView::Value(v) => (value_push(sql_push(b, seq!['?']), v), true),
            EntryView::Expr(x) => expr_step(b, x),
        },
        ClauseKind::SetAssignments => {
            let b1 = sql_push(b, quoted_ident(key));
            match e {
                EntryView::Value(v) => (value_push(sql_push(b1, " = ?"@), v), true),
                EntryView::Expr(x) => expr_step(sql_push(b1, " = "@), x),
            }
        },
        ClauseKind::WhereConditions => {
            let b1 = sql_push(b, quoted_ident(key));
            match e {
                EntryView::Value(v) => if v is Null {
                    (sql_push(b1, " IS NULL"@), true)
                } else {
                    (value_push(sql_push(b1, " = ?"@), v), true)
                },
                EntryView::Expr(x) => expr_step(sql_push(b1, " = "@), x),
            }
        },
    }
}

/// Writing the first `k` entries of a clause, `sep` between them, stopping
/// at the first entry that fails.
pub open spec fn clause_upto(
    kind: ClauseKind,
    b: BuilderView,
    keys: Seq<Seq<char>>,
    entries: Seq<EntryView>,
    sep: Seq<char>,
    k: nat,
) -> (BuilderView, bool)
    decreases k,
{
    if k == 0 {
        (b, true)
    } else {
        let (p, ok) = clause_upto(kind, b, keys, entries, sep, (k - 1) as nat);
        if !ok {
            (p, false)
        } else {
            clause_step(
                kind,
                if k > 1 {
                    sql_push(p, sep)
                } else {
                    p
                },
                keys[k - 1],
                entries[k - 1],
            )
        }
    }
}

/// Once a clause has failed, the later entries change nothing.
proof fn lemma_clause_failed_stays(
    kind: ClauseKind,
    b: BuilderView,
    keys: Seq<Seq<char>>,
    entries: Seq<EntryView>,
    sep: Seq<char>,
    k: nat,
    n: nat,
)
    requires
        k <= n,
        !clause_upto(kind, b, keys, entries, sep, k).1,
    ensures
        clause_upto(kind, b, keys, entries, sep, n) == clause_upto(kind, b, keys, entries, sep, k),
    decreases n - k,
{
    if k < n {
        lemma_clause_failed_stays(kind, b, keys, entries, sep, k, (n - 1) as nat);
    }
}

/// The number of named arguments of the expression entries.
pub open spec fn expr_named_total(entries: Seq<EntryView>) -> nat
    decreases entries.len(),
{
    if entries.len() == 0 {
        0
    } else {
        (match entries[0] {
            EntryView::Expr(x) => x.named.len(),
            EntryView::Value(_) => 0,
        }) + expr_named_total(entries.drop_first())
    }
}

/// The message of a clause over no values.
pub open spec fn empty_values_message() -> Seq<char> {
    "empty values"@
}

/// The assignment of an upsert for one column: `"col" = excluded."col"`.
pub open spec fn upsert_assignment(key: Seq<char>) -> Seq<char> {
    quoted_ident(key) + " = excluded."@ + quoted_ident(key)
}

/// The assignments of an upsert for the columns not excluded.
pub open spec fn upsert_parts(keys: Seq<Seq<char>>, excluded: Seq<Seq<char>>) -> Seq<Seq<char>>
    decreases keys.len(),
{
    if keys.len() == 0 {
        seq![]
    } else {
        let p = upsert_parts(keys.drop_last(), excluded);
        if excluded.contains(keys.last()) {
            p
        } else {
            p.push(upsert_assignment(keys.last()))
        }
    }
}

/// An upsert has no assignment, and is refused, exactly when every column
/// is excluded.
pub proof fn lemma_upsert_parts_empty(keys: Seq<Seq<char>>, excluded: Seq<Seq<char>>)
    ensures
        upsert_parts(keys, excluded).len() == 0 <==> forall|j: int|
            0 <= j < keys.len() ==> excluded.contains(#[trigger] keys[j]),
    decreases keys.len(),
{
    if keys.len() > 0 {
        lemma_upsert_parts_empty(keys.drop_last(), excluded);
        if upsert_parts(keys, excluded).len() == 0 {
            assert forall|j: int| 0 <= j < keys.len() implies excluded.contains(#[trigger] keys[j]) by {
                if j < keys.len() - 1 {
                    assert(keys.drop_last()[j] == keys[j]);
                }
            }
        }
        if forall|j: int| 0 <= j < keys.len() ==> excluded.contains(#[trigger] keys[j]) {
            assert(excluded.contains(keys[keys.len() - 1]));
            assert forall|j: int| 0 <= j < keys.drop_last().len() implies excluded.contains(
                #[trigger] keys.drop_last()[j],
            ) by {
                assert(keys.drop_last()[j] == keys[j]);
            }
        }
    }
}

/// The text views of string slices.
pub open spec fn str_views(v: Seq<&str>) -> Seq<Seq<char>> {
    v.map_values(|s: &str| s@)
}

/// Does `list` hold a string equal to `key`?
fn contains_str(list: &[&str], key: &Vec<char>) -> (r: bool)
    ensures
        r == str_views(list@).contains(key@),
{
    let mut k: usize = 0;
    while k < list.len()
        invariant
            k <= list@.len(),
            forall|j: int| 0 <= j < k ==> list@[j]@ != key@,
        decreases list@.len() - k,
    {
        let c = chars_of(list[k]);
        if crate::text::range_eq(&c, 0, c.len(), key) {
            assert(c@.subrange(0, c@.len() as int) =~= c@);
            assert(str_views(list@)[k as int] == key@);
            return true;
        }
        assert(c@.subrange(0, c@.len() as int) =~= c@);
        k = k + 1;
    }
    proof {
        if str_views(list@).contains(key@) {
            let j = choose|j: int| 0 <= j < str_views(list@).len() && str_views(list@)[j] == key@;
            assert(list@[j]@ == key@);
        }
    }
    false
}

/// The keys of the entries as characters.
fn key_chars(keys: &Vec<String>) -> (r: Vec<Vec<char>>)
    ensures
        used_view(r@) == keys@.map_values(|k: String| k@),
{
    let mut out: Vec<Vec<char>> = Vec::new();
    let mut k: usize = 0;
    while k < keys.len()
        invariant
            k <= keys@.len(),
            used_view(out@) == keys@.take(k as int).map_values(|k: String| k@),
        decreases keys@.len() - k,
    {
        let c = chars_of(keys[k].as_str());
        let ghost before = out@;
        out.push(c);
        assert(used_view(out@) =~= used_view(before).push(c@));
        assert(keys@.take(k + 1).map_values(|k: String| k@) =~= keys@.take(k as int).map_values(
            |k: String| k@,
        ).push(keys@[k as int]@));
        k = k + 1;
    }
    assert(keys@.take(keys@.len() as int) =~= keys@);
    out
}

/// Appending a fragment adds exactly its named arguments.
proof fn lemma_append_fragment_named_len(
    b: BuilderView,
    sql: Seq<char>,
    values: Seq<ValueView>,
    named: Seq<(Seq<char>, usize)>,
    tainted: bool,
    ns: bool,
)
    requires
        pair_names(b.named).no_duplicates(),
        pair_names(named).no_duplicates(),
    ensures
        append_fragment(b, sql, values, named, tainted, ns).named.len() == b.named.len()
            + named.len(),
        pair_names(append_fragment(b, sql, values, named, tainted, ns).named).no_duplicates(),
{
    lemma_fragment_parameters_rebased(b.named, named, b.values.len(), ns);
}

impl QueryBuilder {
    /// Write the entries of a clause, `sep` between them.
    fn push_entries(
        &mut self,
        kind: ClauseKind,
        keys: &Vec<String>,
        entries: &Vec<ValuesEntry>,
        sep: &str,
    ) -> (r: Result<()>)
        requires
            old(self).wf(),
            keys@.len() == entries@.len(),
            forall|i: int| 0 <= i < entries@.len() ==> (#[trigger] entries@[i]).wf(),
            old(self).arguments.named@.len() + 2 * expr_named_total(
                entries@.map_values(|e: ValuesEntry| e@),
            ) < usize::MAX,
        ensures
            final(self).wf(),
            (final(self)@, r is Ok) == clause_upto(
                kind,
                old(self)@,
                keys@.map_values(|k: String| k@),
                entries@.map_values(|e: ValuesEntry| e@),
                sep@,
                entries@.len() as nat,
            ),
            r is Err ==> (r matches Err(Error::Query(m)) && m@ == numeric_fragment_message()),
    {
        let ghost kv = keys@.map_values(|k: String| k@);
        let ghost ev = entries@.map_values(|e: ValuesEntry| e@);
        let mut k: usize = 0;
        assert(ev.skip(0) =~= ev);
        while k < entries.len()
            invariant
                k <= entries@.len(),
                keys@.len() == entries@.len(),
                kv == keys@.map_values(|k: String| k@),
                ev == entries@.map_values(|e: ValuesEntry| e@),
                forall|i: int| 0 <= i < entries@.len() ==> (#[trigger] entries@[i]).wf(),
                self.wf(),
                self.arguments.named@.len() + 2 * expr_named_total(ev.skip(k as int)) < usize::MAX,
                clause_upto(kind, old(self)@, kv, ev, sep@, k as nat) == (self@, true),
            decreases entries@.len() - k,
        {
            let ghost start = self@;
            if k > 0 {
                push_str_verified(&mut self.sql, sep);
            }
            let ghost b = self@;
            assert(b == if k > 0 { sql_push(start, sep@) } else { start });
            assert(ev.skip(k as int).drop_first() =~= ev.skip(k + 1));
            assert(ev.skip(k as int)[0] == ev[k as int]);
            match kind {
                ClauseKind::InsertValues => {},
                _ => {
                    let q = quote_identifier(keys[k].as_str());
                    push_str_verified(&mut self.sql, q.as_str());
                },
            }
            match &entries[k] {
                ValuesEntry::Value(v) => {
                    let is_insert = match kind {
                        ClauseKind::InsertValues => true,
                        _ => false,
                    };
                    let is_where = match kind {
                        ClauseKind::WhereConditions => true,
                        _ => false,
                    };
                    if is_where && v.is_null() {
                        push_str_verified(&mut self.sql, " IS NULL");
                    } else {
                        if is_insert {
                            push_char(&mut self.sql, '?');
                        } else {
                            push_str_verified(&mut self.sql, " = ?");
                        }
                        let ghost before = self.arguments.values@;
                        self.arguments.values.push(v.duplicate());
                        assert(values_view(self.arguments.values@) =~= values_view(before).push(v@));
                    }
                },
                ValuesEntry::Expr(x) => {
                    match kind {
                        ClauseKind::InsertValues => {},
                        _ => {
                            push_str_verified(&mut self.sql, " = ");
                        },
                    }
                    let xa = x.arguments.duplicate();
                    proof {
                        lemma_names_distinct(&self.arguments);
                        lemma_names_distinct(&xa);
                        lemma_append_fragment_named_len(
                            self@,
                            x.sql@,
                            values_view(xa.values@),
                            named_view(xa.named@),
                            x.tainted,
                            true,
                        );
                    }
                    let ghost b1 = self@;
                    match self.push_fragment(x.sql.clone(), xa, x.tainted, true) {
                        Ok(()) => {},
                        Err(e) => {
                            proof {
                                assert(self@ == b1);
                                assert(clause_step(kind, b, kv[k as int], ev[k as int]) == (self@, false));
                                lemma_clause_failed_stays(kind, old(self)@, kv, ev, sep@, (k + 1) as nat, entries@.len() as nat);
                            }
                            return Err(e);
                        },
                    }
                },
            }
            proof {
                assert(self@ =~= clause_step(kind, b, kv[k as int], ev[k as int]).0);
            }
            k = k + 1;
        }
        Ok(())
    }

    /// Append an INSERT column/value list from provided values:
    /// `("a", "b") VALUES (?, expr)`.
    pub fn push_insert(&mut self, values: &Values) -> (r: Result<()>)
        requires
            old(self).wf(),
            values.wf(),
            old(self).arguments.named@.len() + 2 * expr_named_total(values_entries(values))
                < usize::MAX,
        ensures
            final(self).wf(),
            values_keys(values).len() == 0 ==> (r matches Err(Error::Query(m)) && m@
                == empty_values_message()) && final(self)@ == old(self)@,
            values_keys(values).len() > 0 ==> ({
                let head = sql_push(
                    old(self)@,
                    seq!['('] + join(values_keys(values).map_values(|k: Seq<char>| quoted_ident(k)), ", "@)
                        + ") VALUES ("@,
                );
                let (b, ok) = clause_upto(
                    ClauseKind::InsertValues,
                    head,
                    values_keys(values),
                    values_entries(values),
                    ", "@,
                    values_keys(values).len(),
                );
                &&& ok ==> r is Ok && final(self)@ == sql_push(b, seq![')'])
                &&& !ok ==> (r matches Err(Error::Query(m)) && m@ == numeric_fragment_message())
                    && final(self)@ == b
            }),
    {
        if values.is_empty() {
            return Err(query_error("empty values"));
        }
        let keys = values.keys();
        let ghost kv = values_keys(values);
        assert(keys@.map_values(|k: String| k@) =~= kv);
        push_char(&mut self.sql, '(');
        let mut k: usize = 0;
        let ghost s0 = self.sql@;
        while k < keys.len()
            invariant
                k <= keys@.len(),
                keys@.map_values(|k: String| k@) == kv,
                self.arguments == old(self).arguments,
                self.tainted == old(self).tainted,
                self.sql@ == s0 + join(kv.take(k as int).map_values(|k: Seq<char>| quoted_ident(k)), ", "@),
            decreases keys@.len() - k,
        {
            if k > 0 {
                push_str_verified(&mut self.sql, ", ");
            }
            let q = quote_identifier(keys[k].as_str());
            push_str_verified(&mut self.sql, q.as_str());
            proof {
                let qs = kv.take(k as int).map_values(|k: Seq<char>| quoted_ident(k));
                assert(kv.take(k + 1).map_values(|k: Seq<char>| quoted_ident(k)) =~= qs.push(quoted_ident(kv[k as int])));
                lemma_join_push(qs, ", "@, quoted_ident(kv[k as int]));
            }
            k = k + 1;
        }
        assert(kv.take(kv.len() as int) =~= kv);
        push_str_verified(&mut self.sql, ") VALUES (");
        assert(self@ =~= sql_push(
            old(self)@,
            seq!['('] + join(kv.map_values(|k: Seq<char>| quoted_ident(k)), ", "@) + ") VALUES ("@,
        ));
        assert(values.entries@.map_values(|e: ValuesEntry| e@) == values_entries(values));
        self.push_entries(ClauseKind::InsertValues, &keys, &values.entries, ", ")?;
        push_char(&mut self.sql, ')');
        Ok(())
    }

    /// Append a SET clause from provided values: `"a" = ?, "b" = expr`.
    pub fn push_set(&mut self, values: &Values) -> (r: Result<()>)
        requires
            old(self).wf(),
            values.wf(),
            old(self).arguments.named@.len() + 2 * expr_named_total(values_entries(values))
                < usize::MAX,
        ensures
            final(self).wf(),
            values_keys(values).len() == 0 ==> (r matches Err(Error::Query(m)) && m@
                == empty_values_message()) && final(self)@ == old(self)@,
            values_keys(values).len() > 0 ==> (final(self)@, r is Ok) == clause_upto(
                ClauseKind::SetAssignments,
                old(self)@,
                values_keys(values),
                values_entries(values),
                ", "@,
                values_keys(values).len(),
            ),
            values_keys(values).len() > 0 && r is Err ==> (r matches Err(Error::Query(m)) && m@
                == numeric_fragment_message()),
    {
        if values.is_empty() {
            return Err(query_error("empty values"));
        }
        let keys = values.keys();
        assert(keys@.map_values(|k: String| k@) =~= values_keys(values));
        self.push_entries(ClauseKind::SetAssignments, &keys, &values.entries, ", ")
    }

    /// Append a WHERE clause from provided values: `"a" = ? AND "b" IS NULL`;
    /// no values give `1=1`.
    pub fn push_where(&mut self, values: &Values) -> (r: Result<()>)
        requires
            old(self).wf(),
            values.wf(),
            old(self).arguments.named@.len() + 2 * expr_named_total(values_entries(values))
                < usize::MAX,
        ensures
            final(self).wf(),
            values_keys(values).len() == 0 ==> r is Ok && final(self)@ == sql_push(
                old(self)@,
                "1=1"@,
            ),
            values_keys(values).len() > 0 ==> (final(self)@, r is Ok) == clause_upto(
                ClauseKind::WhereConditions,
                old(self)@,
                values_keys(values),
                values_entries(values),
                " AND "@,
                values_keys(values).len(),
            ),
            values_keys(values).len() > 0 && r is Err ==> (r matches Err(Error::Query(m)) && m@
                == numeric_fragment_message()),
    {
        if values.is_empty() {
            push_str_verified(&mut self.sql, "1=1");
            return Ok(());
        }
        let keys = values.keys();
        assert(keys@.map_values(|k: String| k@) =~= values_keys(values));
        self.push_entries(ClauseKind::WhereConditions, &keys, &values.entries, " AND ")
    }

    /// Append an UPSERT update clause, `"a" = excluded."a", ...`, for the
    /// columns not named in `exclude`.
    pub fn push_upsert(&mut self, values: &Values, exclude: &[&str]) -> (r: Result<()>)
        requires
            values.wf(),
        ensures
            final(self).arguments == old(self).arguments,
            final(self).tainted == old(self).tainted,
            upsert_parts(values_keys(values), str_views(exclude@)).len() == 0 <==> forall|j: int|
                0 <= j < values_keys(values).len() ==> str_views(exclude@).contains(
                    #[trigger] values_keys(values)[j],
                ),
            upsert_parts(values_keys(values), str_views(exclude@)).len() == 0 ==> (r matches Err(
                Error::Query(m),
            ) && m@ == empty_values_message()) && final(self).sql@ == old(self).sql@,
            upsert_parts(values_keys(values), str_views(exclude@)).len() > 0 ==> r is Ok
                && final(self).sql@ == old(self).sql@ + join(
                upsert_parts(values_keys(values), str_views(exclude@)),
                ", "@,
            ),
    {
        let ghost ex = str_views(exclude@);
        let ghost kv = values_keys(values);
        proof {
            lemma_upsert_parts_empty(kv, ex);
        }
        if values.is_empty() {
            return Err(query_error("empty values"));
        }
        let keys = values.keys();
        let kc = key_chars(&keys);
        assert(used_view(kc@) =~= kv);
        let mut all_excluded = true;
        let mut k: usize = 0;
        while k < kc.len()
            invariant
                k <= kc@.len(),
                used_view(kc@) == kv,
                ex == str_views(exclude@),
                all_excluded == forall|j: int| 0 <= j < k ==> ex.contains(#[trigger] kv[j]),
            decreases kc@.len() - k,
        {
            let c = contains_str(exclude, &kc[k]);
            assert(kc@[k as int]@ == kv[k as int]);
            all_excluded = all_excluded && c;
            k = k + 1;
        }
        if all_excluded {
            return Err(query_error("empty values"));
        }
        let mut first = true;
        let mut k: usize = 0;
        while k < kc.len()
            invariant
                k <= kc@.len(),
                used_view(kc@) == kv,
                keys@.map_values(|k: String| k@) == kv,
                keys@.len() == kc@.len(),
                ex == str_views(exclude@),
                self.arguments == old(self).arguments,
                self.tainted == old(self).tainted,
                first == (upsert_parts(kv.take(k as int), ex).len() == 0),
                self.sql@ == old(self).sql@ + join(upsert_parts(kv.take(k as int), ex), ", "@),
            decreases kc@.len() - k,
        {
            assert(kv.take(k + 1).drop_last() =~= kv.take(k as int));
            assert(kc@[k as int]@ == kv[k as int]);
            if contains_str(exclude, &kc[k]) {
                k = k + 1;
                continue;
            }
            if !first {
                push_str_verified(&mut self.sql, ", ");
            }
            first = false;
            let ident = quote_identifier(keys[k].as_str());
            let ghost before = self.sql@;
            push_str_verified(&mut self.sql, ident.as_str());
            push_str_verified(&mut self.sql, " = excluded.");
            push_str_verified(&mut self.sql, ident.as_str());
            proof {
                let p = upsert_parts(kv.take(k as int), ex);
                assert(keys@[k as int]@ == kv[k as int]);
                lemma_join_push(p, ", "@, upsert_assignment(kv[k as int]));
                assert(self.sql@ =~= old(self).sql@ + join(p.push(upsert_assignment(kv[k as int])), ", "@));
            }
            k = k + 1;
        }
        assert(kv.take(kv.len() as int) =~= kv);
        if first {
            return Err(query_error("empty values"));
        }
        Ok(())
    }
}

/// The argument values a query carries (none once taken).
pub open spec fn query_values(q: Query) -> Seq<ValueView> {
    match q.arguments {
        Some(a) => values_view(a.values@),
        None => seq![],
    }
}

/// The named arguments a query carries (none once taken).
pub open spec fn query_named(q: Query) -> Seq<(Seq<char>, usize)> {
    match q.arguments {
        Some(a) => named_view(a.named@),
        None => seq![],
    }
}

/// The query's arguments, if any, are well formed.
pub open spec fn query_wf(q: Query) -> bool {
    q.arguments matches Some(a) ==> a.wf()
}

/// Appending a query: nothing for empty SQL; a failure, changing nothing,
/// for SQL with numeric placeholders; otherwise a space (unless the builder
/// is empty) and the query as a fragment.
pub open spec fn query_step(b: BuilderView, q: Query) -> (BuilderView, bool) {
    let sql = query_sql(&q);
    if sql.len() == 0 {
        (b, true)
    } else if has_numeric(scan(sql)) {
        (b, false)
    } else {
        let b1 = if b.sql.len() > 0 {
            sql_push(b, seq![' '])
        } else {
            b
        };
        (append_fragment(b1, sql, query_values(q), query_named(q), q.tainted, false), true)
    }
}

impl QueryBuilder {
    /// Attempt to append another [`Query`] to this builder, with a single
    /// space in between if needed. Its arguments are merged and its named
    /// parameters re-based (and renamed where a name is taken) so that they
    /// refer to the right values. Numeric placeholders such as `?1` and `$1`
    /// are rejected, since their absolute indices cannot be re-based.
    pub fn try_push_query(&mut self, query: Query) -> (r: Result<()>)
        requires
            old(self).wf(),
            query_wf(query),
            old(self).arguments.named@.len() + 2 * query_named(query).len() < usize::MAX,
        ensures
            final(self).wf(),
            (final(self)@, r is Ok) == query_step(old(self)@, query),
            r is Err ==> (r matches Err(Error::Query(m)) && m@ == numeric_fragment_message()),
    {
        if !query.sql().is_empty() {
            let needs_space = !self.sql.as_str().is_empty();
            let tainted = query.tainted;
            let saved = self.sql.clone();
            if needs_space {
                push_char(&mut self.sql, ' ');
            }
            let ghost b1 = self@;
            let ghost q = query;
            let sql = match query.statement {
                QueryStatement::Sql(sql) => sql,
                QueryStatement::Prepared(statement) => statement.sql,
            };
            let arguments = match query.arguments {
                Some(a) => a,
                None => Arguments::new(),
            };
            assert(values_view(arguments.values@) =~= query_values(q));
            assert(named_view(arguments.named@) =~= query_named(q));
            match self.push_fragment(sql, arguments, tainted, false) {
                Ok(()) => {},
                Err(err) => {
                    if needs_space {
                        self.sql = saved;
                    }
                    return Err(err);
                },
            }
        }
        Ok(())
    }

    /// Append another [`Query`] to this builder, as
    /// [`try_push_query`](Self::try_push_query) does; the query must not
    /// contain numeric placeholders such as `?1` or `$1`.
    pub fn push_query(&mut self, query: Query)
        requires
            old(self).wf(),
            query_wf(query),
            old(self).arguments.named@.len() + 2 * query_named(query).len() < usize::MAX,
            !has_numeric(scan(query_sql(&query))),
        ensures
            final(self).wf(),
            final(self)@ == query_step(old(self)@, query).0,
    {
        let _ = self.try_push_query(query);
    }

    /// Append a collection of conditions as one `WHERE` clause, if it is not
    /// empty.
    pub fn push_conditions(&mut self, conditions: Conditions) -> (r: Result<()>)
        requires
            old(self).wf(),
            conditions.wf(),
            old(self).arguments.named@.len() + 2 * conditions_named_total(conditions.fragments@)
                < usize::MAX,
        ensures
            final(self).wf(),
            conditions.fragments@.len() == 0 ==> r is Ok && final(self)@ == old(self)@,
            conditions.fragments@.len() > 0 ==> ({
                let (c, ok) = conditions_upto(
                    conditions.fragments@,
                    conditions.fragments@.len() as nat,
                );
                &&& !ok ==> (r matches Err(Error::Query(m)) && m@ == numeric_fragment_message())
                    && final(self)@ == old(self)@
                &&& ok ==> exists|q: Query|
                    {
                        &&& query_sql(&q) == c.sql
                        &&& query_values(q) == c.values
                        &&& query_named(q) == c.named
                        &&& q.tainted == c.tainted
                        &&& (final(self)@, r is Ok) == query_step(old(self)@, q)
                    }
                &&& ok && r is Err ==> (r matches Err(Error::Query(m)) && m@
                    == numeric_fragment_message())
            }),
    {
        match conditions.into_query()? {
            Some(query) => self.try_push_query(query),
            None => Ok(()),
        }
    }
}

/// The builder state of `WHERE` and the first `k` conditions joined with
/// ` AND`, stopping at the first condition that fails.
pub open spec fn conditions_upto(frags: Seq<Query>, k: nat) -> (BuilderView, bool)
    decreases k,
{
    if k == 0 {
        (
            BuilderView {
                sql: "WHERE"@,
                values: seq![],
                named: seq![],
                tainted: false,
            },
            true,
        )
    } else {
        let (p, ok) = conditions_upto(frags, (k - 1) as nat);
        if !ok {
            (p, false)
        } else {
            query_step(
                if k > 1 {
                    sql_push(p, " AND"@)
                } else {
                    p
                },
                frags[k - 1],
            )
        }
    }
}

/// The number of named arguments of the first conditions.
pub open spec fn conditions_named_total(frags: Seq<Query>) -> nat
    decreases frags.len(),
{
    if frags.len() == 0 {
        0
    } else {
        conditions_named_total(frags.drop_last()) + query_named(frags.last()).len()
    }
}

/// A collection of typed query fragments joined as one `WHERE` clause.
#[derive(Debug)]
pub struct Conditions {
    /// Conditions in insertion order.
    pub fragments: Vec<Query>,
}

impl Default for Conditions {
    fn default() -> (r: Conditions)
        ensures
            r.fragments@.len() == 0,
    {
        Conditions::new()
    }
}

impl Conditions {
    /// Every condition's arguments are well formed.
    pub open spec fn wf(&self) -> bool {
        forall|i: int| 0 <= i < self.fragments@.len() ==> query_wf(#[trigger] self.fragments@[i])
    }

    /// Create an empty condition collection.
    pub fn new() -> (r: Conditions)
        ensures
            r.fragments@.len() == 0,
    {
        Conditions { fragments: Vec::new() }
    }

    /// Add one condition fragment.
    pub fn push(&mut self, condition: Query)
        ensures
            final(self).fragments@ == old(self).fragments@.push(condition),
    {
        self.fragments.push(condition);
    }

    /// Add one condition fragment and return the collection.
    pub fn with(self, condition: Query) -> (r: Conditions)
        ensures
            r.fragments@ == self.fragments@.push(condition),
    {
        let mut c = self;
        c.push(condition);
        c
    }

    /// Returns `true` when the collection has no condition fragments.
    pub fn is_empty(&self) -> (r: bool)
        ensures
            r == (self.fragments@.len() == 0),
    {
        self.fragments.len() == 0
    }

    /// Build the complete clause, if this collection is not empty.
    pub fn into_query(self) -> (r: Result<Option<Query>>)
        requires
            self.wf(),
            2 * conditions_named_total(self.fragments@) < usize::MAX,
        ensures
            self.fragments@.len() == 0 ==> r matches Ok(None),
            self.fragments@.len() > 0 ==> ({
                let (c, ok) = conditions_upto(self.fragments@, self.fragments@.len() as nat);
                &&& ok ==> (r matches Ok(Some(q)) && query_sql(&q) == c.sql && query_values(q)
                    == c.values && query_named(q) == c.named && q.tainted == c.tainted
                    && query_wf(q) && query_named(q).len() <= conditions_named_total(
                    self.fragments@,
                ))
                &&& !ok ==> (r matches Err(Error::Query(m)) && m@ == numeric_fragment_message())
            }),
    {
        if self.fragments.len() == 0 {
            return Ok(None);
        }
        let ghost frags = self.fragments@;
        let n = self.fragments.len();
        let mut builder = QueryBuilder::new();
        builder.push_sql("WHERE");
        let mut rest = self.fragments;
        let mut index: usize = 0;
        assert(builder@ =~= conditions_upto(frags, 0).0);
        while rest.len() > 0
            invariant
                index + rest@.len() == frags.len(),
                frags.len() == n,
                frags == self.fragments@,
                rest@ == frags.skip(index as int),
                forall|i: int| 0 <= i < frags.len() ==> query_wf(#[trigger] frags[i]),
                2 * conditions_named_total(frags) < usize::MAX,
                builder.wf(),
                builder@.named.len() <= conditions_named_total(frags.take(index as int)),
                conditions_upto(frags, index as nat) == (builder@, true),
            decreases rest@.len(),
        {
            let condition = rest.remove(0);
            assert(condition == frags[index as int]);
            assert(rest@ =~= frags.skip(index + 1));
            if index > 0 {
                builder.push_sql(" AND");
            }
            proof {
                assert(frags.take(index + 1).drop_last() =~= frags.take(index as int));
                lemma_conditions_total_prefix(frags, index + 1);
                lemma_names_distinct(&builder.arguments);
                if condition.arguments is Some {
                    lemma_names_distinct(&condition.arguments->Some_0);
                }
                assert(pair_names(query_named(condition)).no_duplicates());
            }
            let ghost before = builder@;
            let res = builder.try_push_query(condition);
            proof {
                if res is Ok && query_sql(&condition).len() > 0 {
                    let b1 = if before.sql.len() > 0 { sql_push(before, seq![' ']) } else { before };
                    lemma_append_fragment_named_len(
                        b1,
                        query_sql(&condition),
                        query_values(condition),
                        query_named(condition),
                        condition.tainted,
                        false,
                    );
                }
            }
            match res {
                Ok(()) => {},
                Err(e) => {
                    proof {
                        lemma_conditions_failed_stays(frags, (index + 1) as nat, frags.len() as nat);
                    }
                    return Err(e);
                },
            }
            index = index + 1;
        }
        assert(frags.take(frags.len() as int) =~= frags);
        Ok(Some(builder.build()))
    }
}

/// The named arguments of a prefix of the conditions are no more than those of all.
proof fn lemma_conditions_total_prefix(frags: Seq<Query>, k: int)
    requires
        0 <= k <= frags.len(),
    ensures
        conditions_named_total(frags.take(k)) <= conditions_named_total(frags),
    decreases frags.len() - k,
{
    if k < frags.len() {
        lemma_conditions_total_prefix(frags, k + 1);
        assert(frags.take(k + 1).drop_last() =~= frags.take(k));
    } else {
        assert(frags.take(k) =~= frags);
    }
}

/// Once a condition has failed, the later ones change nothing.
proof fn lemma_conditions_failed_stays(frags: Seq<Query>, k: nat, n: nat)
    requires
        k <= n,
        !conditions_upto(frags, k).1,
    ensures
        conditions_upto(frags, n) == conditions_upto(frags, k),
    decreases n - k,
{
    if k < n {
        lemma_conditions_failed_stays(frags, k, (n - 1) as nat);
    }
}

/// Two entries that differ at most in the value they bind: both values,
/// both NULL or both not, or the same expression.
pub open spec fn same_shape(a: EntryView, b: EntryView) -> bool {
    match (a, b) {
        (EntryView::Value(x), EntryView::Value(y)) => (x is Null) == (y is Null),
        _ => a == b,
    }
}

/// Two builders that agree in everything but the values they have bound,
/// of which they hold as many.
pub open spec fn same_text(p: BuilderView, q: BuilderView) -> bool {
    &&& p.sql == q.sql
    &&& p.named == q.named
    &&& p.tainted == q.tainted
    &&& p.values.len() == q.values.len()
}

/// One clause entry keeps two builders' texts alike.
proof fn lemma_clause_step_same_text(
    kind: ClauseKind,
    p: BuilderView,
    q: BuilderView,
    key: Seq<char>,
    a: EntryView,
    b: EntryView,
)
    requires
        same_text(p, q),
        same_shape(a, b),
    ensures
        clause_step(kind, p, key, a).1 == clause_step(kind, q, key, b).1,
        same_text(clause_step(kind, p, key, a).0, clause_step(kind, q, key, b).0),
{
}

/// Values are bound as parameters, never written into the SQL: clauses
/// written from entries of the same shape have the same SQL text, named
/// parameters, taint and outcome, whatever values they bind.
pub proof fn lemma_values_never_spliced(
    kind: ClauseKind,
    p: BuilderView,
    q: BuilderView,
    keys: Seq<Seq<char>>,
    a: Seq<EntryView>,
    b: Seq<EntryView>,
    sep: Seq<char>,
    k: nat,
)
    requires
        same_text(p, q),
        k <= a.len(),
        a.len() == b.len(),
        forall|i: int| 0 <= i < a.len() ==> same_shape(#[trigger] a[i], b[i]),
    ensures
        clause_upto(kind, p, keys, a, sep, k).1 == clause_upto(kind, q, keys, b, sep, k).1,
        same_text(clause_upto(kind, p, keys, a, sep, k).0, clause_upto(kind, q, keys, b, sep, k).0),
    decreases k,
{
    if k > 0 {
        let j = (k - 1) as nat;
        lemma_values_never_spliced(kind, p, q, keys, a, b, sep, j);
        let (p1, ok1) = clause_upto(kind, p, keys, a, sep, j);
        let (q1, ok2) = clause_upto(kind, q, keys, b, sep, j);
        if ok1 {
            let p2 = if k > 1 { sql_push(p1, sep) } else { p1 };
            let q2 = if k > 1 { sql_push(q1, sep) } else { q1 };
            assert(same_shape(a[k - 1], b[k - 1]));
            lemma_clause_step_same_text(kind, p2, q2, keys[k - 1], a[k - 1], b[k - 1]);
        }
    }
}

/// In a `WHERE` clause a NULL value is written as `"col" IS NULL` and binds
/// nothing; any other value is written as `"col" = ?` and bound.
pub proof fn lemma_where_null_is_null(b: BuilderView, key: Seq<char>, v: ValueView)
    ensures
        v is Null ==> clause_step(ClauseKind::WhereConditions, b, key, EntryView::Value(v)) == (
            sql_push(b, quoted_ident(key) + " IS NULL"@),
            true,
        ),
        !(v is Null) ==> clause_step(ClauseKind::WhereConditions, b, key, EntryView::Value(v)) == (
            value_push(sql_push(b, quoted_ident(key) + " = ?"@), v),
            true,
        ),
{
    assert(sql_push(sql_push(b, quoted_ident(key)), " IS NULL"@).sql =~= b.sql + (quoted_ident(key)
        + " IS NULL"@));
    assert(sql_push(sql_push(b, quoted_ident(key)), " = ?"@).sql =~= b.sql + (quoted_ident(key)
        + " = ?"@));
}

/// Composition never loses taint: a builder stays tainted, and a tainted
/// fragment or query taints it.
pub proof fn lemma_taint_propagates(
    b: BuilderView,
    sql: Seq<char>,
    values: Seq<ValueView>,
    named: Seq<(Seq<char>, usize)>,
    tainted: bool,
    ns: bool,
    q: Query,
)
    ensures
        append_fragment(b, sql, values, named, tainted, ns).tainted == (b.tainted || tainted),
        query_step(b, q).1 && query_sql(&q).len() > 0 ==> query_step(b, q).0.tainted == (b.tainted
            || q.tainted),
        b.tainted ==> query_step(b, q).0.tainted,
{
}

} // verus!
