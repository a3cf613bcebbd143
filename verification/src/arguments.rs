//! Bind arguments and the plan that assigns them to statement parameters.

use vstd::prelude::*;
use crate::codec::Encode;
use crate::error::{Error, Result};
use crate::text::{chars_of, decimal, push_char, push_decimal, push_range, push_str_verified, range_eq, string_from_chars};
use crate::value::{Value, ValueView};

verus! {

/// Is `c` one of the SQLite parameter prefixes that named binds may carry?
pub open spec fn is_bind_prefix(c: char) -> bool {
    c == ':' || c == '@' || c == '$' || c == '?'
}

/// Number of leading parameter-prefix characters of `s`.
pub open spec fn prefix_run(s: Seq<char>) -> nat
    decreases s.len(),
{
    if s.len() > 0 && is_bind_prefix(s[0]) {
        1 + prefix_run(s.drop_first())
    } else {
        0
    }
}

/// `s` with all leading parameter-prefix characters removed
/// (`trim_start_matches([':', '@', '$', '?'])`).
pub open spec fn trim_bind_prefix(s: Seq<char>) -> Seq<char> {
    s.skip(prefix_run(s) as int)
}

proof fn lemma_prefix_run(s: Seq<char>)
    ensures
        prefix_run(s) <= s.len(),
        forall|k: int| 0 <= k < prefix_run(s) ==> is_bind_prefix(#[trigger] s[k]),
        prefix_run(s) < s.len() ==> !is_bind_prefix(s[prefix_run(s) as int]),
    decreases s.len(),
{
    if s.len() > 0 && is_bind_prefix(s[0]) {
        lemma_prefix_run(s.drop_first());
        assert forall|k: int| 0 <= k < prefix_run(s) implies is_bind_prefix(#[trigger] s[k]) by {
            if k > 0 {
                assert(s[k] == s.drop_first()[k - 1]);
            }
        }
    }
}

/// Trimming the parameter prefix a second time changes nothing.
pub proof fn lemma_trim_bind_prefix_idempotent(s: Seq<char>)
    ensures
        trim_bind_prefix(trim_bind_prefix(s)) == trim_bind_prefix(s),
{
    lemma_prefix_run(s);
    let t = trim_bind_prefix(s);
    if t.len() > 0 {
        assert(t[0] == s[prefix_run(s) as int]);
    }
    assert(prefix_run(t) == 0);
    assert(t.skip(0) =~= t);
}

/// Position after the leading parameter-prefix characters of `s`.
pub fn bind_prefix_len(s: &Vec<char>) -> (r: usize)
    ensures
        r == prefix_run(s@),
        r <= s.len(),
{
    proof {
        lemma_prefix_run(s@);
    }
    let mut k: usize = 0;
    while k < s.len() && (s[k] == ':' || s[k] == '@' || s[k] == '$' || s[k] == '?')
        invariant
            k <= prefix_run(s@),
            forall|j: int| 0 <= j < k ==> is_bind_prefix(s@[j]),
            prefix_run(s@) <= s@.len(),
            forall|j: int| 0 <= j < prefix_run(s@) ==> is_bind_prefix(#[trigger] s@[j]),
            prefix_run(s@) < s@.len() ==> !is_bind_prefix(s@[prefix_run(s@) as int]),
        decreases s.len() - k,
    {
        k = k + 1;
    }
    k
}

/// The first index bound to `name` in a list of (name, index) pairs.
pub open spec fn lookup_index(pairs: Seq<(Seq<char>, usize)>, name: Seq<char>) -> Option<usize>
    decreases pairs.len(),
{
    if pairs.len() == 0 {
        None
    } else if pairs[0].0 == name {
        Some(pairs[0].1)
    } else {
        lookup_index(pairs.drop_first(), name)
    }
}

/// The character view of named-argument pairs.
pub open spec fn named_view(named: Seq<(String, usize)>) -> Seq<(Seq<char>, usize)> {
    named.map_values(|p: (String, usize)| (p.0@, p.1))
}

/// Bind arguments: the encoded values in position order and the named
/// parameters with their 1-based argument positions.
#[derive(Debug, Clone)]
pub struct Arguments {
    /// Encoded argument values.
    pub values: Vec<Value>,
    /// Named parameters and their argument positions (1-based), each name once.
    pub named: Vec<(String, usize)>,
}

impl Default for Arguments {
    fn default() -> (r: Arguments)
        ensures
            r.wf(),
            r.values@.len() == 0,
            r.named@.len() == 0,
    {
        Arguments::new()
    }
}

/// The views of a vector of values.
pub open spec fn values_view(v: Seq<Value>) -> Seq<ValueView> {
    v.map_values(|x: Value| x@)
}

impl Arguments {
    /// Each name occurs once and refers to an existing argument.
    pub open spec fn wf(&self) -> bool {
        &&& forall|i: int, j: int|
            0 <= i < j < self.named@.len() ==> self.named@[i].0@ != self.named@[j].0@
        &&& forall|i: int|
            0 <= i < self.named@.len() ==> 1 <= (#[trigger] self.named@[i]).1 <= self.values@.len()
    }

    /// Empty arguments.
    pub fn new() -> (r: Arguments)
        ensures
            r.wf(),
            r.values@.len() == 0,
            r.named@.len() == 0,
    {
        Arguments { values: Vec::new(), named: Vec::new() }
    }

    /// A copy of these arguments with the same content.
    pub fn duplicate(&self) -> (r: Arguments)
        ensures
            values_view(r.values@) == values_view(self.values@),
            named_view(r.named@) == named_view(self.named@),
            r.values@.len() == self.values@.len(),
            r.named@.len() == self.named@.len(),
            self.wf() ==> r.wf(),
    {
        let mut values: Vec<Value> = Vec::new();
        let mut k: usize = 0;
        while k < self.values.len()
            invariant
                k <= self.values.len(),
                values@.len() == k,
                forall|j: int| 0 <= j < k ==> (#[trigger] values@[j])@ == self.values@[j]@,
            decreases self.values.len() - k,
        {
            values.push(self.values[k].duplicate());
            k = k + 1;
        }
        let mut named: Vec<(String, usize)> = Vec::new();
        let mut k: usize = 0;
        while k < self.named.len()
            invariant
                k <= self.named.len(),
                named@.len() == k,
                forall|j: int| 0 <= j < k ==> (#[trigger] named@[j]).0@ == self.named@[j].0@ && named@[j].1 == self.named@[j].1,
            decreases self.named.len() - k,
        {
            named.push((self.named[k].0.clone(), self.named[k].1));
            k = k + 1;
        }
        assert(values_view(values@) =~= values_view(self.values@));
        assert(named_view(named@) =~= named_view(self.named@));
        Arguments { values, named }
    }

    /// Position of the named argument `name` (compared by characters).
    pub(crate) fn find_named(&self, name: &Vec<char>) -> (r: Option<usize>)
        ensures
            match r {
                Some(k) => k < self.named@.len() && self.named@[k as int].0@ == name@
                    && lookup_index(named_view(self.named@), name@) == Some(self.named@[k as int].1),
                None => lookup_index(named_view(self.named@), name@) is None,
            },
    {
        let ghost nv = named_view(self.named@);
        let mut k: usize = 0;
        assert(nv.skip(0) =~= nv);
        while k < self.named.len()
            invariant
                k <= self.named.len(),
                nv == named_view(self.named@),
                nv.len() == self.named@.len(),
                lookup_index(nv, name@) == lookup_index(nv.skip(k as int), name@),
            decreases self.named.len() - k,
        {
            let key = chars_of(self.named[k].0.as_str());
            assert(nv.skip(k as int).drop_first() =~= nv.skip(k + 1));
            assert(nv.skip(k as int)[0] == (self.named@[k as int].0@, self.named@[k as int].1));
            if range_eq(&key, 0, key.len(), name) {
                assert(key@.subrange(0, key@.len() as int) =~= key@);
                return Some(k);
            }
            assert(key@.subrange(0, key@.len() as int) =~= key@);
            k = k + 1;
        }
        None
    }

    /// Append an encoded value as the next positional argument.
    pub fn add<T: Encode>(&mut self, value: T) -> (r: Result<()>)
        requires
            old(self).wf(),
        ensures
            final(self).wf(),
            match value.encoding() {
                Ok(v) => r is Ok && values_view(final(self).values@) == values_view(
                    old(self).values@,
                ).push(v) && final(self).named@ == old(self).named@,
                Err(m) => (r matches Err(Error::Encode(crate::error::EncodeError::Conversion(s)))
                    && s@ == m) && final(self).values@ == old(self).values@ && final(self).named@
                    == old(self).named@,
            },
    {
        match value.encode() {
            Ok(v) => {
                self.values.push(v);
                proof {
                    assert(values_view(self.values@) =~= values_view(old(self).values@).push(
                        value.encoding()->Ok_0,
                    ));
                }
                Ok(())
            },
            Err(e) => Err(Error::Encode(e)),
        }
    }

    /// Add a bind parameter by name. The provided `name` may include the
    /// SQLite prefix (`:`, `@`, or `$`) but it is not required. Binding a name
    /// a second time replaces its value in place.
    pub fn add_named<T: Encode>(&mut self, name: &str, value: T) -> (r: Result<()>)
        requires
            old(self).wf(),
            old(self).values@.len() < usize::MAX,
        ensures
            final(self).wf(),
            match value.encoding() {
                Ok(v) => r is Ok && match lookup_index(
                    named_view(old(self).named@),
                    trim_bind_prefix(name@),
                ) {
                    Some(idx) => values_view(final(self).values@) == values_view(
                        old(self).values@,
                    ).update(idx - 1, v) && final(self).named@ == old(self).named@,
                    None => values_view(final(self).values@) == values_view(
                        old(self).values@,
                    ).push(v) && named_view(final(self).named@) == named_view(
                        old(self).named@,
                    ).push((trim_bind_prefix(name@), final(self).values@.len() as usize)),
                },
                Err(m) => (r matches Err(Error::Encode(crate::error::EncodeError::Conversion(s)))
                    && s@ == m) && final(self).values@ == old(self).values@ && final(self).named@
                    == old(self).named@,
            },
    {
        let chars = chars_of(name);
        let start = bind_prefix_len(&chars);
        let mut trimmed: Vec<char> = Vec::new();
        let mut k = start;
        assert(trimmed@ =~= chars@.subrange(start as int, k as int));
        while k < chars.len()
            invariant
                start <= k <= chars.len(),
                start == prefix_run(chars@),
                trimmed@ == chars@.subrange(start as int, k as int),
            decreases chars.len() - k,
        {
            trimmed.push(chars[k]);
            k = k + 1;
            assert(trimmed@ =~= chars@.subrange(start as int, k as int));
        }
        assert(trimmed@ =~= trim_bind_prefix(name@));
        let encoded = match value.encode() {
            Ok(v) => v,
            Err(e) => {
                return Err(Error::Encode(e));
            },
        };
        match self.find_named(&trimmed) {
            Some(pos) => {
                let index = self.named[pos].1;
                assert(1 <= self.named@[pos as int].1 <= self.values@.len());
                self.values.set(index - 1, encoded);
                proof {
                    assert(values_view(self.values@) =~= values_view(old(self).values@).update(
                        index - 1,
                        value.encoding()->Ok_0,
                    ));
                }
            },
            None => {
                self.values.push(encoded);
                let idx = self.values.len();
                let key = string_from_chars(&trimmed);
                proof {
                    assert forall|i: int| 0 <= i < self.named@.len() implies self.named@[i].0@
                        != trimmed@ by {
                        if self.named@[i].0@ == trimmed@ {
                            lemma_lookup_some(named_view(self.named@), trimmed@, i);
                        }
                    }
                }
                self.named.push((key, idx));
                proof {
                    assert(values_view(self.values@) =~= values_view(old(self).values@).push(
                        value.encoding()->Ok_0,
                    ));
                    assert(named_view(self.named@) =~= named_view(old(self).named@).push(
                        (trimmed@, idx),
                    ));
                }
            },
        }
        Ok(())
    }
}

/// A name that occurs in the list is found by lookup.
proof fn lemma_lookup_some(pairs: Seq<(Seq<char>, usize)>, name: Seq<char>, i: int)
    requires
        0 <= i < pairs.len(),
        pairs[i].0 == name,
    ensures
        lookup_index(pairs, name) is Some,
    decreases pairs.len(),
{
    if pairs[0].0 != name {
        assert(pairs.drop_first()[i - 1] == pairs[i]);
        lemma_lookup_some(pairs.drop_first(), name, i - 1);
    }
}

/// Is `b` an ASCII decimal digit byte?
pub open spec fn is_digit_byte(b: u8) -> bool {
    48 <= b <= 57
}

/// Number of leading digit bytes of `t`.
pub open spec fn leading_digit_bytes(t: Seq<u8>) -> nat
    decreases t.len(),
{
    if t.len() > 0 && is_digit_byte(t[0]) {
        1 + leading_digit_bytes(t.drop_first())
    } else {
        0
    }
}

/// The number written by a sequence of digit bytes.
pub open spec fn digit_bytes_value(t: Seq<u8>) -> nat
    decreases t.len(),
{
    if t.len() == 0 {
        0
    } else {
        digit_bytes_value(t.drop_last()) * 10 + (t.last() - 48) as nat
    }
}

/// `atoi::atoi::<usize>` on a byte slice: an optional `+` or `-` sign
/// followed by the longest run of ASCII digits. Without a sign at least one
/// digit is needed. After `+` the digits' value is returned when it fits in a
/// `usize`; after `-` only a run of zeros (possibly empty) gives `0`. Overflow
/// gives `None`.
pub open spec fn atoi_usize(t: Seq<u8>) -> Option<usize> {
    if t.len() == 0 {
        None
    } else if t[0] == 43u8 {
        let r = t.drop_first();
        let v = digit_bytes_value(r.take(leading_digit_bytes(r) as int));
        if v <= usize::MAX {
            Some(v as usize)
        } else {
            None
        }
    } else if t[0] == 45u8 {
        let r = t.drop_first();
        if digit_bytes_value(r.take(leading_digit_bytes(r) as int)) == 0 {
            Some(0)
        } else {
            None
        }
    } else {
        let n = leading_digit_bytes(t);
        let v = digit_bytes_value(t.take(n as int));
        if n == 0 {
            None
        } else if v <= usize::MAX {
            Some(v as usize)
        } else {
            None
        }
    }
}

/// `atoi::atoi::<usize>`: parses the leading decimal digits of `text` after an
/// optional sign. The contract claims the result is [`atoi_usize`] of the
/// bytes, as the crate's `from_radix_10_signed_checked` computes it.
#[verifier::external_body]
fn atoi_bytes(text: &[u8]) -> (r: Option<usize>)
    ensures
        r == atoi_usize(text@),
{
    atoi::atoi::<usize>(text)
}

/// The number written by a sequence of digit characters.
pub open spec fn digits_value(s: Seq<char>) -> nat
    decreases s.len(),
{
    if s.len() == 0 {
        0
    } else {
        digits_value(s.drop_last()) * 10 + (s.last() as u32 - 48) as nat
    }
}

/// A valid numeric SQL parameter `?NNN`: exactly one `?`, then digits without
/// a leading zero whose value fits in a `usize`.
pub open spec fn question_param(s: Seq<char>) -> Option<usize> {
    if s.len() >= 2 && s[0] == '?' && s[1] != '?' && s[1] != '0' && (forall|k: int|
        1 <= k < s.len() ==> '0' <= #[trigger] s[k] <= '9') && digits_value(s.drop_first())
        <= usize::MAX {
        Some(digits_value(s.drop_first()) as usize)
    } else {
        None
    }
}

/// The error message of an invalid numeric parameter.
pub open spec fn invalid_numeric_message(name: Seq<char>) -> Seq<char> {
    "invalid numeric SQL parameter: "@ + name
}

/// A protocol error with message `m`.
pub open spec fn is_protocol(e: Error, m: Seq<char>) -> bool {
    e matches Error::Protocol(s) && s@ == m
}

/// A protocol error carrying `prefix` followed by `name`.
fn protocol_error(prefix: &str, name: &Vec<char>) -> (r: Error)
    ensures
        is_protocol(r, prefix@ + name@),
{
    let mut s = String::new();
    push_str_verified(&mut s, prefix);
    push_range(&mut s, name, 0, name.len());
    assert(name@.subrange(0, name@.len() as int) =~= name@);
    Error::Protocol(s)
}

/// Parse a numeric SQL parameter of the form `?NNN` from its characters.
pub fn parse_question_param_chars(name: &Vec<char>) -> (r: Result<usize>)
    ensures
        match question_param(name@) {
            Some(n) => r matches Ok(x) && x == n,
            None => r matches Err(e) && is_protocol(e, invalid_numeric_message(name@)),
        },
{
    if name.len() < 2 || name[0] != '?' || name[1] == '?' || name[1] == '0' {
        return Err(protocol_error("invalid numeric SQL parameter: ", name));
    }
    let mut value: usize = 0;
    let mut k: usize = 1;
    while k < name.len()
        invariant
            1 <= k <= name.len(),
            name@.len() >= 2,
            forall|j: int| 1 <= j < k ==> '0' <= #[trigger] name@[j] <= '9',
            value == digits_value(name@.subrange(1, k as int)),
        decreases name.len() - k,
    {
        let c = name[k];
        if !('0' <= c && c <= '9') {
            proof {
                assert(!('0' <= name@[k as int] <= '9'));
            }
            return Err(protocol_error("invalid numeric SQL parameter: ", name));
        }
        let d: u32 = (c as u32) - 48;
        assert(name@.subrange(1, k + 1).drop_last() =~= name@.subrange(1, k as int));
        let v1 = value.checked_mul(10);
        let v2 = match v1 {
            Some(m) => m.checked_add(d as usize),
            None => None,
        };
        match v2 {
            Some(v) => {
                value = v;
            },
            None => {
                proof {
                    let rest = name@.drop_first();
                    if forall|j: int| 1 <= j < name@.len() ==> '0' <= #[trigger] name@[j] <= '9' {
                        assert forall|j: int| 0 <= j < rest.len() implies '0' <= #[trigger] rest[j]
                            <= '9' by {
                            assert(rest[j] == name@[j + 1]);
                        }
                        lemma_digits_value_monotone(rest, k as int);
                        assert(rest.subrange(0, k as int) =~= name@.subrange(1, k + 1));
                    }
                }
                return Err(protocol_error("invalid numeric SQL parameter: ", name));
            },
        }
        k = k + 1;
    }
    assert(name@.subrange(1, name@.len() as int) =~= name@.drop_first());
    Ok(value)
}

/// Extending a digit sequence never decreases its value.
proof fn lemma_digits_value_monotone(s: Seq<char>, k: int)
    requires
        0 <= k <= s.len(),
        forall|j: int| 0 <= j < s.len() ==> '0' <= #[trigger] s[j] <= '9',
    ensures
        digits_value(s.subrange(0, k)) <= digits_value(s),
    decreases s.len() - k,
{
    if k < s.len() {
        lemma_digits_value_monotone(s, k + 1);
        assert(s.subrange(0, k + 1).drop_last() =~= s.subrange(0, k));
    } else {
        assert(s.subrange(0, k) =~= s);
    }
}

/// Parse a numeric SQL parameter of the form `?NNN`.
pub fn parse_question_param(name: &str) -> (r: Result<usize>)
    ensures
        match question_param(name@) {
            Some(n) => r matches Ok(x) && x == n,
            None => r matches Err(e) && is_protocol(e, invalid_numeric_message(name@)),
        },
{
    let chars = chars_of(name);
    parse_question_param_chars(&chars)
}

/// The message of a parameter name with an unsupported prefix.
pub open spec fn unsupported_message(name: Seq<char>) -> Seq<char> {
    "unsupported SQL parameter format: "@ + name
}

/// The message of a parameter that refers past the last argument.
pub open spec fn out_of_bounds_message(len: nat, index: nat) -> Seq<char> {
    "bind parameter index out of bounds: the len is "@ + decimal(len) + ", but the index is "@
        + decimal(index)
}

/// A pending list of (name, position) pairs for names that no argument was
/// bound to.
pub type LocalNames = Seq<(Seq<char>, usize)>;

/// Resolve a named parameter: an explicitly named argument, else a position
/// already given to the same name, else the next free position.
pub open spec fn resolve_named(
    named: Seq<(Seq<char>, usize)>,
    local: LocalNames,
    next: usize,
    rest: Seq<char>,
) -> (usize, usize, LocalNames) {
    match lookup_index(named, rest) {
        Some(i) => (i, next, local),
        None => match lookup_index(local, rest) {
            Some(i) => (i, next, local),
            None => ((next + 1) as usize, (next + 1) as usize, local.push((rest, (next + 1) as usize))),
        },
    }
}

/// Resolve one statement parameter to an argument position.
pub open spec fn resolve_param(
    named: Seq<(Seq<char>, usize)>,
    local: LocalNames,
    next: usize,
    name: Option<Seq<char>>,
) -> core::result::Result<(usize, usize, LocalNames), Seq<char>> {
    match name {
        None => Ok(((next + 1) as usize, (next + 1) as usize, local)),
        Some(nm) => if nm.len() > 0 && nm[0] == '?' {
            match question_param(nm) {
                Some(v) => Ok((v, next, local)),
                None => Err(invalid_numeric_message(nm)),
            }
        } else if nm.len() > 0 && nm[0] == '$' {
            match atoi_usize(vstd::utf8::encode_utf8(nm.drop_first())) {
                Some(v) => Ok((v, next, local)),
                None => Ok(resolve_named(named, local, next, nm.drop_first())),
            }
        } else if nm.len() > 0 && (nm[0] == ':' || nm[0] == '@') {
            Ok(resolve_named(named, local, next, nm.drop_first()))
        } else {
            Err(unsupported_message(nm))
        },
    }
}

/// The argument positions of the parameters `names[k..]` and the final
/// counter, or the error message of the first parameter that fails.
pub open spec fn plan_from(
    named: Seq<(Seq<char>, usize)>,
    nvalues: nat,
    names: Seq<Option<Seq<char>>>,
    k: int,
    next: usize,
    local: LocalNames,
) -> core::result::Result<(Seq<usize>, usize), Seq<char>>
    decreases names.len() - k,
{
    if k < 0 || k >= names.len() {
        Ok((seq![], next))
    } else {
        match resolve_param(named, local, next, names[k]) {
            Err(m) => Err(m),
            Ok((n, next2, local2)) => if n > nvalues {
                Err(out_of_bounds_message(nvalues, n as nat))
            } else {
                match plan_from(named, nvalues, names, k + 1, next2, local2) {
                    Err(m) => Err(m),
                    Ok((rest, fin)) => Ok((seq![n] + rest, fin)),
                }
            },
        }
    }
}

/// The largest position among named arguments (0 when there are none).
pub open spec fn max_named(named: Seq<(Seq<char>, usize)>) -> nat
    decreases named.len(),
{
    if named.len() == 0 {
        0
    } else {
        let m = max_named(named.drop_first());
        if named[0].1 > m {
            named[0].1 as nat
        } else {
            m
        }
    }
}

/// The character views of optional parameter names.
pub open spec fn names_view(names: Seq<Option<String>>) -> Seq<Option<Seq<char>>> {
    names.map_values(|n: Option<String>| match n {
        Some(s) => Some(s@),
        None => None,
    })
}

/// The binding plan for statement parameters named `names` (parameter
/// `k + 1` is named `names[k]`), numbering unnamed parameters after
/// `offset`: the argument position of each parameter and how many positions
/// past `offset` were consumed.
pub open spec fn bind_plan_spec(
    named: Seq<(Seq<char>, usize)>,
    nvalues: nat,
    names: Seq<Option<Seq<char>>>,
    offset: usize,
) -> core::result::Result<(Seq<usize>, usize), Seq<char>> {
    let start = if max_named(named) > offset {
        max_named(named) as usize
    } else {
        offset
    };
    match plan_from(named, nvalues, names, 0, start, seq![]) {
        Ok((idx, fin)) => Ok((idx, (fin - offset) as usize)),
        Err(m) => Err(m),
    }
}

/// Unnamed parameters from `k` on take the positions after `next`, one each.
proof fn lemma_unnamed_from(
    named: Seq<(Seq<char>, usize)>,
    nvalues: nat,
    names: Seq<Option<Seq<char>>>,
    k: int,
    next: usize,
    local: LocalNames,
)
    requires
        0 <= k <= names.len(),
        forall|j: int| 0 <= j < names.len() ==> #[trigger] names[j] is None,
        next + (names.len() - k) <= nvalues,
        nvalues <= usize::MAX,
    ensures
        plan_from(named, nvalues, names, k, next, local) == Ok::<(Seq<usize>, usize), Seq<char>>((
            Seq::new((names.len() - k) as nat, |i: int| (next + 1 + i) as usize),
            (next + (names.len() - k)) as usize,
        )),
    decreases names.len() - k,
{
    if k < names.len() {
        assert(names[k] is None);
        lemma_unnamed_from(named, nvalues, names, k + 1, (next + 1) as usize, local);
        assert(seq![(next + 1) as usize] + Seq::new(
            (names.len() - (k + 1)) as nat,
            |i: int| ((next + 1) as usize + 1 + i) as usize,
        ) =~= Seq::new((names.len() - k) as nat, |i: int| (next + 1 + i) as usize));
    } else {
        assert(Seq::new(0, |i: int| (next + 1 + i) as usize) =~= Seq::<usize>::empty());
    }
}

/// Unnamed parameters (`?` with no number) take consecutive argument
/// positions after `offset`, one each, and all of them count as used: with
/// no named arguments, a plan for `n` unnamed parameters binds positions
/// `offset + 1` to `offset + n` and consumes `n` positions, as long as there
/// are that many arguments.
pub proof fn lemma_unnamed_params_consecutive(
    nvalues: nat,
    names: Seq<Option<Seq<char>>>,
    offset: usize,
)
    requires
        forall|j: int| 0 <= j < names.len() ==> #[trigger] names[j] is None,
        offset + names.len() <= nvalues,
        nvalues <= usize::MAX,
    ensures
        bind_plan_spec(seq![], nvalues, names, offset) == Ok::<(Seq<usize>, usize), Seq<char>>((
            Seq::new(names.len(), |i: int| (offset + 1 + i) as usize),
            names.len() as usize,
        )),
{
    assert(max_named(seq![]) == 0);
    lemma_unnamed_from(seq![], nvalues, names, 0, offset, seq![]);
}

/// A name used twice refers to one argument: with no named arguments, a
/// statement whose two parameters are both `:a` binds both to the first
/// position after `offset`, and consumes one position.
pub proof fn lemma_repeated_name_shares_position(nvalues: nat, a: Seq<char>, offset: usize)
    requires
        offset < nvalues,
        nvalues <= usize::MAX,
    ensures
        bind_plan_spec(
            seq![],
            nvalues,
            seq![Some(seq![':'] + a), Some(seq![':'] + a)],
            offset,
        ) == Ok::<(Seq<usize>, usize), Seq<char>>((
            seq![(offset + 1) as usize, (offset + 1) as usize],
            1usize,
        )),
{
    let nm = seq![':'] + a;
    let names = seq![Some(nm), Some(nm)];
    assert(nm.drop_first() =~= a);
    assert(max_named(seq![]) == 0);
    let p = (offset + 1) as usize;
    let local1: LocalNames = seq![(a, p)];
    assert(seq![(a, p)][0].0 == a);
    assert(lookup_index(local1, a) == Some(p));
    assert(plan_from(seq![], nvalues, names, 2, p, local1) == Ok::<(Seq<usize>, usize), Seq<char>>((seq![], p)));
    assert(plan_from(seq![], nvalues, names, 1, p, local1) == Ok::<(Seq<usize>, usize), Seq<char>>((seq![p] + seq![], p)));
    assert(seq![p] + Seq::<usize>::empty() =~= seq![p]);
    assert(Seq::<(Seq<char>, usize)>::empty().push((a, p)) =~= local1);
    assert(seq![p] + seq![p] =~= seq![p, p]);
}

/// No `$` parameter denotes the position 0 (SQLite's `$0`-like names).
pub open spec fn no_zero_dollar(names: Seq<Option<Seq<char>>>) -> bool {
    forall|k: int|
        0 <= k < names.len() ==> (#[trigger] names[k] matches Some(nm) ==> (nm.len() > 0 && nm[0]
            == '$' ==> atoi_usize(vstd::utf8::encode_utf8(nm.drop_first())) != Some(0usize)))
}

/// Named positions never exceed the number of arguments.
proof fn lemma_max_named_bound(args: &Arguments)
    requires
        args.wf(),
    ensures
        max_named(named_view(args.named@)) <= args.values@.len(),
{
    let nv = named_view(args.named@);
    assert forall|i: int| 0 <= i < nv.len() implies (#[trigger] nv[i]).1 <= args.values@.len() by {
        assert(nv[i].1 == args.named@[i].1);
    }
    lemma_max_named_le(nv, args.values@.len());
}

/// If every position is at most `b`, so is their maximum.
proof fn lemma_max_named_le(named: Seq<(Seq<char>, usize)>, b: nat)
    requires
        forall|i: int| 0 <= i < named.len() ==> (#[trigger] named[i]).1 <= b,
    ensures
        max_named(named) <= b,
    decreases named.len(),
{
    if named.len() > 0 {
        assert forall|i: int| 0 <= i < named.drop_first().len() implies (
        #[trigger] named.drop_first()[i]).1 <= b by {
            assert(named.drop_first()[i] == named[i + 1]);
        }
        lemma_max_named_le(named.drop_first(), b);
        assert(named[0].1 <= b);
    }
}

/// The view of local (name, position) pairs.
pub open spec fn local_view(v: Seq<(Vec<char>, usize)>) -> LocalNames {
    v.map_values(|p: (Vec<char>, usize)| (p.0@, p.1))
}

/// Position given to `name` among the pending local names.
fn find_local(local: &Vec<(Vec<char>, usize)>, name: &Vec<char>) -> (r: Option<usize>)
    ensures
        lookup_index(local_view(local@), name@) == r,
{
    let ghost lv = local_view(local@);
    let mut k: usize = 0;
    assert(lv.skip(0) =~= lv);
    while k < local.len()
        invariant
            k <= local.len(),
            lv == local_view(local@),
            lv.len() == local@.len(),
            lookup_index(lv, name@) == lookup_index(lv.skip(k as int), name@),
        decreases local.len() - k,
    {
        assert(lv.skip(k as int).drop_first() =~= lv.skip(k + 1));
        assert(lv.skip(k as int)[0] == (local@[k as int].0@, local@[k as int].1));
        if range_eq(&local[k].0, 0, local[k].0.len(), name) {
            assert(local@[k as int].0@.subrange(0, local@[k as int].0@.len() as int) =~= local@[k as int].0@);
            return Some(local[k].1);
        }
        assert(local@[k as int].0@.subrange(0, local@[k as int].0@.len() as int) =~= local@[k as int].0@);
        k = k + 1;
    }
    None
}

/// The out-of-bounds protocol error.
fn out_of_bounds_error(len: usize, index: usize) -> (r: Error)
    ensures
        is_protocol(r, out_of_bounds_message(len as nat, index as nat)),
{
    let mut s = String::new();
    push_str_verified(&mut s, "bind parameter index out of bounds: the len is ");
    push_decimal(&mut s, len);
    push_str_verified(&mut s, ", but the index is ");
    push_decimal(&mut s, index);
    Error::Protocol(s)
}

impl Arguments {
    /// Largest position among named arguments.
    fn max_named_index(&self) -> (r: usize)
        ensures
            r == max_named(named_view(self.named@)),
    {
        let ghost nv = named_view(self.named@);
        let mut m: usize = 0;
        let mut k: usize = self.named.len();
        assert(nv.skip(k as int) =~= Seq::<(Seq<char>, usize)>::empty());
        while k > 0
            invariant
                k <= self.named.len(),
                nv == named_view(self.named@),
                nv.len() == self.named@.len(),
                m == max_named(nv.skip(k as int)),
            decreases k,
        {
            k = k - 1;
            assert(nv.skip(k as int).drop_first() =~= nv.skip(k + 1));
            if self.named[k].1 > m {
                m = self.named[k].1;
            }
        }
        assert(nv.skip(0) =~= nv);
        m
    }

    /// Resolve a named parameter whose prefix is removed.
    fn resolve_named_exec(
        &self,
        local: &mut Vec<(Vec<char>, usize)>,
        next: &mut usize,
        rest: Vec<char>,
    ) -> (r: usize)
        requires
            *old(next) < usize::MAX,
        ensures
            ({
                let (n, next2, local2) = resolve_named(
                    named_view(self.named@),
                    local_view(old(local)@),
                    *old(next),
                    rest@,
                );
                &&& r == n
                &&& *final(next) == next2
                &&& local_view(final(local)@) == local2
            }),
    {
        match self.find_named(&rest) {
            Some(pos) => self.named[pos].1,
            None => match find_local(local, &rest) {
                Some(i) => i,
                None => {
                    *next = *next + 1;
                    let n = *next;
                    let ghost rv = rest@;
                    local.push((rest, n));
                    assert(local_view(local@) =~= local_view(old(local)@).push((rv, n)));
                    n
                },
            },
        }
    }

    /// Resolve one parameter.
    fn resolve_param_exec(
        &self,
        local: &mut Vec<(Vec<char>, usize)>,
        next: &mut usize,
        name: &Option<String>,
    ) -> (r: Result<usize>)
        requires
            *old(next) < usize::MAX,
        ensures
            match resolve_param(
                named_view(self.named@),
                local_view(old(local)@),
                *old(next),
                match *name {
                    Some(s) => Some(s@),
                    None => None,
                },
            ) {
                Ok((n, next2, local2)) => r matches Ok(x) && x == n && *final(next) == next2
                    && local_view(final(local)@) == local2,
                Err(m) => r matches Err(e) && is_protocol(e, m),
            },
    {
        match name {
            None => {
                *next = *next + 1;
                Ok(*next)
            },
            Some(nm) => {
                let chars = chars_of(nm.as_str());
                if chars.len() > 0 && chars[0] == '?' {
                    parse_question_param_chars(&chars)
                } else if chars.len() > 0 && (chars[0] == '$' || chars[0] == ':' || chars[0] == '@') {
                    let mut rest: Vec<char> = Vec::new();
                    let mut k: usize = 1;
                    while k < chars.len()
                        invariant
                            1 <= k <= chars.len(),
                            rest@ == chars@.subrange(1, k as int),
                        decreases chars.len() - k,
                    {
                        rest.push(chars[k]);
                        k = k + 1;
                        assert(rest@ =~= chars@.subrange(1, k as int));
                    }
                    assert(rest@ =~= chars@.drop_first());
                    if chars[0] == '$' {
                        let rest_str = string_from_chars(&rest);
                        let parsed = atoi_bytes(rest_str.as_str().as_bytes());
                        if let Some(v) = parsed {
                            return Ok(v);
                        }
                    }
                    Ok(self.resolve_named_exec(local, next, rest))
                } else {
                    Err(protocol_error("unsupported SQL parameter format: ", &chars))
                }
            },
        }
    }

    /// Assign each statement parameter to an argument position. Parameter
    /// `k + 1` of the statement is named `names[k]` (or unnamed). Numeric
    /// `?NNN` and `$NNN` parameters take the written position, named
    /// parameters take the position of the argument bound to that name or else
    /// a fresh position shared by all uses of the name, and unnamed parameters
    /// take the next position after `offset` (or after the named arguments).
    /// Returns the position of each parameter and how many positions past
    /// `offset` were consumed.
    pub fn bind_plan(&self, names: &Vec<Option<String>>, offset: usize) -> (r: Result<(Vec<usize>, usize)>)
        requires
            self.wf(),
            offset + names.len() < usize::MAX,
            self.values.len() + names.len() < usize::MAX,
            no_zero_dollar(names_view(names@)),
        ensures
            match bind_plan_spec(
                named_view(self.named@),
                self.values@.len(),
                names_view(names@),
                offset,
            ) {
                Ok((idx, used)) => r matches Ok((v, u)) && v@ == idx && u == used,
                Err(m) => r matches Err(e) && is_protocol(e, m),
            },
    {
        let ghost nv = named_view(self.named@);
        let ghost ns = names_view(names@);
        let nvalues = self.values.len();
        let mut next = offset;
        let m = self.max_named_index();
        if m > next {
            next = m;
        }
        proof {
            lemma_max_named_bound(self);
        }
        let ghost start = next;
        assert(start == (if max_named(nv) > offset { max_named(nv) as usize } else { offset }));
        let mut local: Vec<(Vec<char>, usize)> = Vec::new();
        let mut out: Vec<usize> = Vec::new();
        let mut k: usize = 0;
        assert(local_view(local@) =~= Seq::<(Seq<char>, usize)>::empty());
        assert(out@ + Seq::<usize>::empty() =~= out@);
        while k < names.len()
            invariant
                k <= names.len(),
                nv == named_view(self.named@),
                ns == names_view(names@),
                ns.len() == names@.len(),
                nvalues == self.values@.len(),
                offset <= next,
                next <= (if offset > nvalues { offset } else { nvalues }) + k,
                offset + names.len() < usize::MAX,
                nvalues + names.len() < usize::MAX,
                start >= offset,
                start == (if max_named(nv) > offset { max_named(nv) as usize } else { offset }),
                match plan_from(nv, nvalues as nat, ns, 0, start, seq![]) {
                    Ok((idx, fin)) => match plan_from(nv, nvalues as nat, ns, k as int, next, local_view(local@)) {
                        Ok((rest, fin2)) => idx == out@ + rest && fin == fin2,
                        Err(_) => false,
                    },
                    Err(m) => plan_from(nv, nvalues as nat, ns, k as int, next, local_view(local@)) == Err::<(Seq<usize>, usize), Seq<char>>(m),
                },
            decreases names.len() - k,
        {
            let ghost old_next = next;
            let ghost old_local = local_view(local@);
            assert(ns[k as int] == match names@[k as int] {
                Some(s) => Some(s@),
                None => None,
            });
            let n = self.resolve_param_exec(&mut local, &mut next, &names[k]);
            let n = match n {
                Ok(n) => n,
                Err(e) => {
                    proof {
                        let res = resolve_param(nv, old_local, old_next, ns[k as int]);
                        assert(res is Err);
                        assert(plan_from(nv, nvalues as nat, ns, k as int, old_next, old_local) == Err::<(Seq<usize>, usize), Seq<char>>(res->Err_0));
                        assert(plan_from(nv, nvalues as nat, ns, 0, start, seq![]) == Err::<(Seq<usize>, usize), Seq<char>>(res->Err_0));
                        assert(bind_plan_spec(nv, nvalues as nat, ns, offset) == Err::<(Seq<usize>, usize), Seq<char>>(res->Err_0));
                        assert(is_protocol(e, res->Err_0));
                    }
                    return Err(e);
                },
            };
            if n > nvalues {
                proof {
                    assert(plan_from(nv, nvalues as nat, ns, k as int, old_next, old_local) == Err::<(Seq<usize>, usize), Seq<char>>(out_of_bounds_message(nvalues as nat, n as nat)));
                }
                return Err(out_of_bounds_error(nvalues, n));
            }
            proof {
                let tail = plan_from(nv, nvalues as nat, ns, k + 1, next, local_view(local@));
                assert(plan_from(nv, nvalues as nat, ns, k as int, old_next, old_local) == match tail {
                    Err(m) => Err(m),
                    Ok((rest, fin)) => Ok((seq![n] + rest, fin)),
                });
                match tail {
                    Ok((rest, fin)) => {
                        assert(out@.push(n) + rest =~= out@ + (seq![n] + rest));
                    },
                    Err(_) => {},
                }
            }
            out.push(n);
            k = k + 1;
        }
        proof {
            assert(plan_from(nv, nvalues as nat, ns, k as int, next, local_view(local@)) == Ok::<(Seq<usize>, usize), Seq<char>>((seq![], next)));
            assert(out@ + Seq::<usize>::empty() =~= out@);
        }
        let used = next - offset;
        Ok((out, used))
    }
}

} // verus!
