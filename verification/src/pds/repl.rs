//! AXON-REPL protection domain: evaluates AxonScript expressions sent by
//! Phoenix-Console: sovereign builtins, one `let` binding per session, and
//! integer arithmetic with `+ - * /`.
use vstd::prelude::*;
use vstd::string::StringSliceAdditionalSpecFns;
use crate::bytes::{
    bytes_equal, first_true, has_prefix, last_true_end, lemma_first_true, lemma_first_true_props,
    lemma_last_true_end, lemma_last_true_end_props, starts_with,
};

verus! {

pub const SOVEREIGN_PROOF: u64 = 0x4153;
/// Protection domains the REPL reports.
pub const PD_COUNT: usize = 10;
pub const REPL_EVAL_LABEL: u32 = 0x8000;
pub const REPL_RESULT_LABEL: u32 = 0x8001;
pub const REPL_EXPR_MAX: usize = 128;
pub const REPL_RESULT_MAX: usize = 128;

/// Space or tab.
pub open spec fn is_blank(b: u8) -> bool {
    b == 32 || b == 9
}

/// Which bytes of `s` are not blank.
pub open spec fn solid(s: Seq<u8>) -> Seq<bool> {
    s.map_values(|b: u8| !is_blank(b))
}

/// `s` without its leading and trailing blanks.
pub open spec fn trimmed(s: Seq<u8>) -> Seq<u8> {
    let a = first_true(solid(s));
    let e = last_true_end(solid(s));
    if a >= e {
        Seq::empty()
    } else {
        s.subrange(a as int, e as int)
    }
}

/// Which bytes of `s` are `c`.
pub open spec fn hits(s: Seq<u8>, c: u8) -> Seq<bool> {
    s.map_values(|b: u8| b == c)
}

/// Index of the first `c` in `s`.
pub open spec fn first_index(s: Seq<u8>, c: u8) -> Option<nat> {
    let i = first_true(hits(s, c));
    if i < s.len() { Some(i) } else { None }
}

/// Index of the last `c` in `s`.
pub open spec fn last_index(s: Seq<u8>, c: u8) -> Option<nat> {
    let e = last_true_end(hits(s, c));
    if e > 0 { Some((e - 1) as nat) } else { None }
}

/// An ASCII decimal digit.
pub open spec fn is_digit(b: u8) -> bool {
    48 <= b <= 57
}

/// The number written by the decimal digits `d`.
pub open spec fn decimal_value(d: Seq<u8>) -> nat
    decreases d.len(),
{
    if d.len() == 0 {
        0
    } else {
        decimal_value(d.drop_last()) * 10 + (d.last() - 48) as nat
    }
}

/// Every byte of `d` is a decimal digit.
pub open spec fn all_digits(d: Seq<u8>) -> bool {
    forall|i: int| 0 <= i < d.len() ==> is_digit(#[trigger] d[i])
}

/// The digits of a literal: all of it, or all but a leading `-`.
pub open spec fn magnitude_digits(s: Seq<u8>) -> Seq<u8> {
    if s.len() > 0 && s[0] == 45 { s.skip(1) } else { s }
}

/// The integer literal `s`: an optional `-` and at least one digit, whose
/// magnitude fits in an `i64`.
pub open spec fn literal_value(s: Seq<u8>) -> Option<i64> {
    let d = magnitude_digits(s);
    if s.len() == 0 || d.len() == 0 || !all_digits(d) || decimal_value(d) > i64::MAX {
        None
    } else if s[0] == 45 {
        Some((-(decimal_value(d) as int)) as i64)
    } else {
        Some(decimal_value(d) as i64)
    }
}

/// Trimming never makes a string longer.
pub proof fn lemma_trimmed_len(s: Seq<u8>)
    ensures
        trimmed(s).len() <= s.len(),
{
    lemma_first_true_props(solid(s));
    lemma_last_true_end_props(solid(s));
}

/// `s` without its leading and trailing spaces and tabs.
pub fn trim(s: &[u8]) -> (r: &[u8])
    ensures
        r@ == trimmed(s@),
{
    let ghost sl = solid(s@);
    let mut start: usize = 0;
    while start < s.len() && (s[start] == 32 || s[start] == 9)
        invariant
            0 <= start <= s@.len(),
            sl == solid(s@),
            forall|j: int| 0 <= j < start ==> !sl[j],
        decreases s@.len() - start,
    {
        start = start + 1;
    }
    proof {
        lemma_first_true(sl, start as nat);
    }
    let mut end: usize = s.len();
    while end > 0 && (s[end - 1] == 32 || s[end - 1] == 9)
        invariant
            0 <= end <= s@.len(),
            sl == solid(s@),
            forall|j: int| end <= j < s@.len() ==> !sl[j],
        decreases end,
    {
        end = end - 1;
    }
    proof {
        lemma_last_true_end(sl, end as nat);
    }
    if start >= end {
        let e: &[u8] = vstd::slice::slice_subrange(s, 0, 0);
        assert(e@ =~= Seq::<u8>::empty());
        e
    } else {
        vstd::slice::slice_subrange(s, start, end)
    }
}

/// Index of the first `c` in `s`.
pub fn find(s: &[u8], c: u8) -> (r: Option<usize>)
    ensures
        match r {
            Some(i) => first_index(s@, c) == Some(i as nat),
            None => first_index(s@, c) is None,
        },
{
    let ghost h = hits(s@, c);
    let mut i: usize = 0;
    while i < s.len()
        invariant
            0 <= i <= s@.len(),
            h == hits(s@, c),
            forall|j: int| 0 <= j < i ==> !h[j],
        decreases s@.len() - i,
    {
        if s[i] == c {
            proof {
                lemma_first_true(h, i as nat);
            }
            return Some(i);
        }
        i = i + 1;
    }
    proof {
        lemma_first_true(h, i as nat);
    }
    None
}

/// Index of the last `c` in `s`.
pub fn rfind(s: &[u8], c: u8) -> (r: Option<usize>)
    ensures
        match r {
            Some(i) => last_index(s@, c) == Some(i as nat),
            None => last_index(s@, c) is None,
        },
{
    let ghost h = hits(s@, c);
    let mut e: usize = s.len();
    while e > 0
        invariant
            0 <= e <= s@.len(),
            h == hits(s@, c),
            forall|j: int| e <= j < s@.len() ==> !h[j],
        decreases e,
    {
        if s[e - 1] == c {
            proof {
                lemma_last_true_end(h, e as nat);
            }
            return Some(e - 1);
        }
        e = e - 1;
    }
    proof {
        lemma_last_true_end(h, 0);
    }
    None
}

/// The value of a prefix never exceeds the value of the whole digit string.
pub proof fn lemma_decimal_prefix(d: Seq<u8>, k: int)
    requires
        0 <= k <= d.len(),
        all_digits(d),
    ensures
        decimal_value(d.take(k)) <= decimal_value(d),
    decreases d.len() - k,
{
    if k < d.len() {
        lemma_decimal_prefix(d, k + 1);
        assert(d.take(k + 1).drop_last() =~= d.take(k));
        assert(d.take(k + 1).last() == d[k]);
        assert(is_digit(d[k]));
    } else {
        assert(d.take(k) =~= d);
    }
}

/// Parses an integer literal: an optional `-` then decimal digits; `None`
/// for anything else or a magnitude beyond `i64::MAX`.
pub fn parse_i64(s: &[u8]) -> (r: Option<i64>)
    ensures
        r == literal_value(s@),
{
    if s.len() == 0 {
        return None;
    }
    let neg = s[0] == 45;
    let digits: &[u8] = if neg { vstd::slice::slice_subrange(s, 1, s.len()) } else { s };
    let ghost d = magnitude_digits(s@);
    assert(digits@ =~= d);
    if digits.len() == 0 {
        return None;
    }
    let mut n: i64 = 0;
    let mut i: usize = 0;
    while i < digits.len()
        invariant
            0 <= i <= digits@.len(),
            forall|j: int| 0 <= j < i ==> is_digit(#[trigger] digits@[j]),
            n == decimal_value(digits@.take(i as int)),
            0 <= n,
            digits@ == d,
            d == magnitude_digits(s@),
            neg == (s@[0] == 45),
            s@.len() > 0,
        decreases digits@.len() - i,
    {
        let b = digits[i];
        if b < 48 || b > 57 {
            assert(!is_digit(d[i as int]));
            assert(!all_digits(d));
            return None;
        }
        assert(digits@.take(i + 1).drop_last() =~= digits@.take(i as int));
        let m = n.checked_mul(10);
        match m {
            None => {
                proof {
                    assert(digits@.take(i + 1).last() == b);
                    assert(decimal_value(digits@.take(i + 1)) > i64::MAX);
                    if all_digits(d) {
                        lemma_decimal_prefix(d, i + 1);
                    }
                }
                return None;
            },
            Some(m) => {
                let a = m.checked_add((b - 48) as i64);
                match a {
                    None => {
                        proof {
                            assert(digits@.take(i + 1).last() == b);
                            assert(decimal_value(digits@.take(i + 1)) > i64::MAX);
                            if all_digits(d) {
                                lemma_decimal_prefix(d, i + 1);
                            }
                        }
                        return None;
                    },
                    Some(v) => {
                        n = v;
                    },
                }
            },
        }
        i = i + 1;
    }
    assert(digits@.take(i as int) =~= digits@);
    if neg {
        Some(-n)
    } else {
        Some(n)
    }
}


/// The operator pair of precedence level `k`: `+ -` at level 0, `* /` at
/// level 1.
pub open spec fn level_ops(k: int) -> (u8, u8) {
    if k == 0 {
        (43, 45)
    } else {
        (42, 47)
    }
}

/// Which bytes of `s` are `a` or `b`.
pub open spec fn hits_either(s: Seq<u8>, a: u8, b: u8) -> Seq<bool> {
    s.map_values(|x: u8| x == a || x == b)
}

/// Index of the last `a` or `b` in `s`.
pub open spec fn last_either(s: Seq<u8>, a: u8, b: u8) -> Option<nat> {
    let e = last_true_end(hits_either(s, a, b));
    if e > 0 { Some((e - 1) as nat) } else { None }
}

/// `l op r` with wrapping `+ - *` and truncating `/`; division by zero has
/// no value.
pub open spec fn apply_op(op: u8, l: i64, r: i64) -> Option<i64> {
    if op == 43 {
        Some(l.wrapping_add(r))
    } else if op == 45 {
        Some(l.wrapping_sub(r))
    } else if op == 42 {
        Some(l.wrapping_mul(r))
    } else if r != 0 {
        l.checked_div(r)
    } else {
        None
    }
}

/// The value of an arithmetic expression: a literal, or else split at the
/// last `+` or `-` and both sides evaluated, or else at the last `*` or `/`
/// (an operator in first position is skipped). `*` and `/` bind tighter than
/// `+` and `-`, and each level groups to the left.
pub open spec fn arith(s: Seq<u8>) -> Option<i64>
    decreases s.len(), 3int,
{
    let t = trimmed(s);
    if t.len() == 0 {
        None
    } else if literal_value(t) is Some {
        literal_value(t)
    } else {
        proof {
            lemma_trimmed_len(s);
        }
        arith_from(t, 0)
    }
}

/// The value of the trimmed, non-literal expression `t`, trying the
/// precedence levels from the `k`-th on.
pub open spec fn arith_from(t: Seq<u8>, k: int) -> Option<i64>
    decreases t.len(), 2 - k,
{
    if k < 0 || k >= 2 {
        None
    } else {
        match last_either(t, level_ops(k).0, level_ops(k).1) {
            None => arith_from(t, k + 1),
            Some(p) => if p == 0 {
                arith_from(t, k + 1)
            } else {
                proof {
                    lemma_last_true_end_props(hits_either(t, level_ops(k).0, level_ops(k).1));
                }
                match arith(t.take(p as int)) {
                    None => None,
                    Some(l) => match arith(t.skip(p as int + 1)) {
                        None => None,
                        Some(r) => apply_op(t[p as int], l, r),
                    },
                }
            },
        }
    }
}

/// Dividing `i64::MIN` by -1 overflows.
pub open spec fn div_overflows(op: u8, l: i64, r: i64) -> bool {
    op == 47 && r == -1 && l == i64::MIN
}

/// Evaluating `s` reaches the overflowing division `i64::MIN / -1`.
pub open spec fn arith_traps(s: Seq<u8>) -> bool
    decreases s.len(), 3int,
{
    let t = trimmed(s);
    if t.len() == 0 || literal_value(t) is Some {
        false
    } else {
        proof {
            lemma_trimmed_len(s);
        }
        traps_from(t, 0)
    }
}

/// Evaluating `t` from the `k`-th precedence level on reaches the
/// overflowing division.
pub open spec fn traps_from(t: Seq<u8>, k: int) -> bool
    decreases t.len(), 2 - k,
{
    if k < 0 || k >= 2 {
        false
    } else {
        match last_either(t, level_ops(k).0, level_ops(k).1) {
            None => traps_from(t, k + 1),
            Some(p) => if p == 0 {
                traps_from(t, k + 1)
            } else {
                proof {
                    lemma_last_true_end_props(hits_either(t, level_ops(k).0, level_ops(k).1));
                }
                arith_traps(t.take(p as int)) || (arith(t.take(p as int)) is Some && (arith_traps(t.skip(p as int + 1)) || (
                arith(t.skip(p as int + 1)) is Some && div_overflows(t[p as int], arith(t.take(p as int))->0, arith(t.skip(p as int + 1))->0))))
            },
        }
    }
}

/// Index of the last `a` or `b` in `s`.
fn rfind_either(s: &[u8], a: u8, b: u8) -> (r: Option<usize>)
    ensures
        match r {
            Some(i) => last_either(s@, a, b) == Some(i as nat),
            None => last_either(s@, a, b) is None,
        },
{
    let ghost h = hits_either(s@, a, b);
    let mut e: usize = s.len();
    while e > 0
        invariant
            0 <= e <= s@.len(),
            h == hits_either(s@, a, b),
            forall|j: int| e <= j < s@.len() ==> !h[j],
        decreases e,
    {
        if s[e - 1] == a || s[e - 1] == b {
            proof {
                lemma_last_true_end(h, e as nat);
            }
            return Some(e - 1);
        }
        e = e - 1;
    }
    proof {
        lemma_last_true_end(h, 0);
    }
    None
}

/// Evaluates integer arithmetic: a literal, or `lhs op rhs` split at the last
/// `+` or `-`, else at the last `*` or `/`; `None` when any part has no value.
pub fn eval_arithmetic(expr: &[u8]) -> (r: Option<i64>)
    requires
        !arith_traps(expr@),
    ensures
        r == arith(expr@),
    decreases expr@.len(),
{
    let s = trim(expr);
    if s.len() == 0 {
        return None;
    }
    if let Some(n) = parse_i64(s) {
        return Some(n);
    }
    proof {
        lemma_trimmed_len(expr@);
    }
    let firsts: [u8; 2] = [43, 42];
    let seconds: [u8; 2] = [45, 47];
    let mut k: usize = 0;
    while k < 2
        invariant
            0 <= k <= 2,
            s@ == trimmed(expr@),
            s@.len() <= expr@.len(),
            s@.len() > 0,
            literal_value(s@) is None,
            firsts@ == seq![43u8, 42u8],
            seconds@ == seq![45u8, 47u8],
            arith(expr@) == arith_from(s@, k as int),
            !traps_from(s@, k as int),
        decreases 2 - k,
    {
        let a = firsts[k];
        let b = seconds[k];
        assert((a, b) == level_ops(k as int));
        match rfind_either(s, a, b) {
            Some(pos) => {
                if pos != 0 {
                    proof {
                        lemma_last_true_end_props(hits_either(s@, a, b));
                        assert(hits_either(s@, a, b).len() == s@.len());
                    }
                    let n: usize = s.len();
                    assert(pos < n);
                    let op = s[pos];
                    let left = vstd::slice::slice_subrange(s, 0, pos);
                    let right = vstd::slice::slice_subrange(s, pos + 1, s.len());
                    assert(left@ =~= s@.take(pos as int));
                    assert(right@ =~= s@.skip(pos + 1));
                    let lhs = match eval_arithmetic(left) {
                        Some(v) => v,
                        None => {
                            return None;
                        },
                    };
                    let rhs = match eval_arithmetic(right) {
                        Some(v) => v,
                        None => {
                            return None;
                        },
                    };
                    if op == 43 {
                        return Some(lhs.wrapping_add(rhs));
                    } else if op == 45 {
                        return Some(lhs.wrapping_sub(rhs));
                    } else if op == 42 {
                        return Some(lhs.wrapping_mul(rhs));
                    } else if rhs != 0 {
                        return lhs.checked_div(rhs);
                    } else {
                        return None;
                    }
                }
            },
            None => {},
        }
        assert(arith_from(s@, k as int) == arith_from(s@, k + 1));
        assert(traps_from(s@, k as int) == traps_from(s@, k + 1));
        k = k + 1;
    }
    None
}


/// A value the REPL can return.
#[derive(Clone, Copy)]
pub enum ReplVal {
    Int(i64),
    Str(&'static str),
    /// The sovereign proof.
    Sovereign,
    /// The expression has no value.
    Error,
}

/// The builtin named by the whole of `e`, if any.
pub open spec fn builtin(e: Seq<u8>) -> Option<ReplVal> {
    if e == "sovereign()".spec_bytes() {
        Some(ReplVal::Sovereign)
    } else if e == "pd_count()".spec_bytes() {
        Some(ReplVal::Int(PD_COUNT as i64))
    } else if e == "version()".spec_bytes() {
        Some(ReplVal::Str("ASL v1.0 [seL4 15.0.0]"))
    } else if e == "help".spec_bytes() {
        Some(ReplVal::Str("sovereign() pd_count() version() let x=<expr> help exit"))
    } else if e == "exit".spec_bytes() {
        Some(ReplVal::Str("__EXIT__"))
    } else {
        None
    }
}

/// The sovereign builtins: `sovereign()`, `pd_count()`, `version()`, `help`
/// and `exit`.
pub fn eval_builtin(expr: &[u8]) -> (r: Option<ReplVal>)
    ensures
        r == builtin(expr@),
{
    if bytes_equal(expr, "sovereign()".as_bytes()) {
        Some(ReplVal::Sovereign)
    } else if bytes_equal(expr, "pd_count()".as_bytes()) {
        Some(ReplVal::Int(PD_COUNT as i64))
    } else if bytes_equal(expr, "version()".as_bytes()) {
        Some(ReplVal::Str("ASL v1.0 [seL4 15.0.0]"))
    } else if bytes_equal(expr, "help".as_bytes()) {
        Some(ReplVal::Str("sovereign() pd_count() version() let x=<expr> help exit"))
    } else if bytes_equal(expr, "exit".as_bytes()) {
        Some(ReplVal::Str("__EXIT__"))
    } else {
        None
    }
}

/// The name and the value expression of a `let <name> = <expr>` binding.
pub open spec fn let_parts(e: Seq<u8>) -> Option<(Seq<u8>, Seq<u8>)> {
    let s = trimmed(e);
    let rest = s.skip(4);
    if !starts_with(s, "let ".spec_bytes()) {
        None
    } else {
        match first_index(rest, 61) {
            None => None,
            Some(q) => Some((trimmed(rest.take(q as int)), trimmed(rest.skip(q as int + 1)))),
        }
    }
}

/// The REPL session: one `let` binding, its name held in a 32-byte buffer.
pub struct ReplSession {
    pub let_name: [u8; 32],
    pub let_name_len: usize,
    pub let_val: i64,
}

/// A bound name is at most 31 bytes.
pub open spec fn session_wf(s: ReplSession) -> bool {
    s.let_name_len <= 31
}

/// The name currently bound.
pub open spec fn bound_name(s: ReplSession) -> Seq<u8> {
    s.let_name@.take(s.let_name_len as int)
}

/// The value of `name` in the session.
pub open spec fn lookup(s: ReplSession, name: Seq<u8>) -> Option<i64> {
    if s.let_name_len > 0 && name == bound_name(s) { Some(s.let_val) } else { None }
}

/// The first 31 bytes of `name`: what a binding keeps.
pub open spec fn kept_name(name: Seq<u8>) -> Seq<u8> {
    if name.len() <= 31 { name } else { name.take(31) }
}

/// Evaluating `expr` in the session reaches no overflowing division.
pub open spec fn eval_safe(sess: ReplSession, expr: Seq<u8>) -> bool {
    let s = trimmed(expr);
    if s.len() == 0 || builtin(s) is Some {
        true
    } else if starts_with(s, "let ".spec_bytes()) {
        match let_parts(s) {
            Some((n, v)) => !arith_traps(v),
            None => true,
        }
    } else if lookup(sess, s) is Some {
        true
    } else {
        !arith_traps(s)
    }
}

/// The value of `expr` in the session `sess`.
pub open spec fn eval_value(sess: ReplSession, expr: Seq<u8>) -> ReplVal {
    let s = trimmed(expr);
    if s.len() == 0 {
        ReplVal::Str("")
    } else if builtin(s) is Some {
        builtin(s)->0
    } else if starts_with(s, "let ".spec_bytes()) {
        match let_parts(s) {
            Some((n, v)) => match arith(v) {
                Some(x) => ReplVal::Int(x),
                None => ReplVal::Error,
            },
            None => ReplVal::Error,
        }
    } else if lookup(sess, s) is Some {
        ReplVal::Int(lookup(sess, s)->0)
    } else {
        match arith(s) {
            Some(x) => ReplVal::Int(x),
            None => ReplVal::Error,
        }
    }
}

/// The binding after evaluating `expr` in `sess`: a `let` whose value
/// expression has a value rebinds; anything else leaves the session alone.
pub open spec fn eval_binding(sess: ReplSession, expr: Seq<u8>) -> Option<(Seq<u8>, i64)> {
    let s = trimmed(expr);
    if s.len() == 0 || builtin(s) is Some || !starts_with(s, "let ".spec_bytes()) {
        None
    } else {
        match let_parts(s) {
            Some((n, v)) => match arith(v) {
                Some(x) => Some((kept_name(n), x)),
                None => None,
            },
            None => None,
        }
    }
}

/// Trimming twice is trimming once.
pub proof fn lemma_trimmed_idempotent(s: Seq<u8>)
    ensures
        trimmed(trimmed(s)) == trimmed(s),
{
    let t = trimmed(s);
    lemma_first_true_props(solid(s));
    lemma_last_true_end_props(solid(s));
    let a = first_true(solid(s));
    let e = last_true_end(solid(s));
    if a < e {
        assert forall|j: int| 0 <= j < t.len() implies solid(t)[j] == solid(s)[a + j] by {}
        assert(solid(t)[0]);
        lemma_first_true(solid(t), 0);
        assert(solid(t)[t.len() - 1]);
        lemma_last_true_end(solid(t), t.len());
        assert(t.subrange(0, t.len() as int) =~= t);
    } else {
        assert(t.len() == 0);
    }
}

impl ReplSession {
    pub fn new() -> (s: Self)
        ensures
            session_wf(s),
            s.let_name_len == 0,
            s.let_val == 0,
            s.let_name@ == Seq::new(32, |i: int| 0u8),
    {
        let s = ReplSession { let_name: [0u8; 32], let_name_len: 0, let_val: 0 };
        assert(s.let_name@ =~= Seq::new(32, |i: int| 0u8));
        s
    }

    /// The value of `name`, when it is the bound name.
    pub fn lookup_name(&self, name: &[u8]) -> (r: Option<i64>)
        requires
            session_wf(*self),
        ensures
            r == lookup(*self, name@),
    {
        if self.let_name_len > 0 {
            let bound = vstd::slice::slice_subrange(self.let_name.as_slice(), 0, self.let_name_len);
            if bytes_equal(name, bound) {
                return Some(self.let_val);
            }
        }
        None
    }

    /// `let <name> = <expr>`: evaluates the expression and binds its value
    /// to the name (kept to 31 bytes). `None`, and no binding, when the text
    /// is not such a binding or the expression has no value.
    pub fn eval_let(&mut self, expr: &[u8]) -> (r: Option<ReplVal>)
        requires
            session_wf(*old(self)),
            let_parts(expr@) matches Some((n, v)) ==> !arith_traps(v),
        ensures
            session_wf(*final(self)),
            match let_parts(expr@) {
                Some((n, v)) => match arith(v) {
                    Some(x) => r == Some(ReplVal::Int(x)) && final(self).let_val == x
                        && bound_name(*final(self)) == kept_name(n) && final(self).let_name_len == kept_name(n).len(),
                    None => r is None && *final(self) == *old(self),
                },
                None => r is None && *final(self) == *old(self),
            },
    {
        let s = trim(expr);
        if !has_prefix(s, "let ".as_bytes()) {
            return None;
        }
        proof {
            reveal_strlit("let ");
            assert(vstd::string::is_ascii("let "));
            crate::bytes::lemma_ascii_bytes("let ");
        }
        let rest = vstd::slice::slice_subrange(s, 4, s.len());
        assert(rest@ =~= s@.skip(4));
        let eq = match find(rest, 61) {
            Some(q) => q,
            None => {
                return None;
            },
        };
        proof {
            lemma_first_true_props(hits(rest@, 61));
        }
        let before = vstd::slice::slice_subrange(rest, 0, eq);
        let after = vstd::slice::slice_subrange(rest, eq + 1, rest.len());
        assert(before@ =~= rest@.take(eq as int));
        assert(after@ =~= rest@.skip(eq + 1));
        let name = trim(before);
        let val_expr = trim(after);
        let val = match eval_arithmetic(val_expr) {
            Some(v) => v,
            None => {
                return None;
            },
        };
        let n = if name.len() < 31 { name.len() } else { 31 };
        let mut i: usize = 0;
        while i < n
            invariant
                n <= 31,
                n <= name@.len(),
                0 <= i <= n,
                self.let_name@.len() == 32,
                forall|k: int| 0 <= k < i ==> self.let_name@[k] == name@[k],
            decreases n - i,
        {
            self.let_name[i] = name[i];
            i = i + 1;
        }
        self.let_name_len = n;
        self.let_val = val;
        assert(bound_name(*self) =~= kept_name(name@));
        Some(ReplVal::Int(val))
    }

    /// Evaluates an expression: empty is the empty string; then a builtin,
    /// a `let` binding (its value, or `Err`), the bound name, arithmetic;
    /// anything else is `Err`.
    pub fn evaluate(&mut self, expr: &[u8]) -> (r: ReplVal)
        requires
            session_wf(*old(self)),
            eval_safe(*old(self), expr@),
        ensures
            session_wf(*final(self)),
            r == eval_value(*old(self), expr@),
            match eval_binding(*old(self), expr@) {
                Some((n, x)) => bound_name(*final(self)) == n && final(self).let_name_len == n.len() && final(self).let_val == x,
                None => *final(self) == *old(self),
            },
    {
        let s = trim(expr);
        if s.len() == 0 {
            return ReplVal::Str("");
        }
        if let Some(v) = eval_builtin(s) {
            return v;
        }
        if has_prefix(s, "let ".as_bytes()) {
            proof {
                lemma_trimmed_idempotent(expr@);
            }
            return match self.eval_let(s) {
                Some(v) => v,
                None => ReplVal::Error,
            };
        }
        if let Some(v) = self.lookup_name(s) {
            return ReplVal::Int(v);
        }
        proof {
            lemma_trimmed_idempotent(expr@);
        }
        match eval_arithmetic(s) {
            Some(n) => ReplVal::Int(n),
            None => ReplVal::Error,
        }
    }
}


/// A name bound by `let` reads back as its value: after an evaluation that
/// binds `n` to `x`, evaluating `n` gives `x`, for a name that is not a
/// builtin, does not itself start a `let`, and has no blank at either end.
pub proof fn lemma_let_reads_back(before: ReplSession, expr: Seq<u8>, after: ReplSession)
    requires
        session_wf(before),
        session_wf(after),
        eval_binding(before, expr) is Some,
        ({
            let (n, x) = eval_binding(before, expr)->0;
            &&& bound_name(after) == n
            &&& after.let_name_len == n.len()
            &&& after.let_val == x
            &&& n.len() > 0
            &&& trimmed(n) == n
            &&& builtin(n) is None
            &&& !starts_with(n, "let ".spec_bytes())
        }),
    ensures
        ({
            let (n, x) = eval_binding(before, expr)->0;
            eval_value(after, n) == ReplVal::Int(x)
        }),
{
}

/// The decimal digits of `v`, most significant first; empty for 0.
pub open spec fn digits_of(v: nat) -> Seq<u8>
    decreases v,
{
    if v == 0 {
        Seq::empty()
    } else {
        digits_of(v / 10).push((48 + v % 10) as u8)
    }
}

/// `n` in decimal, with a leading `-` when negative.
pub open spec fn decimal_text(n: i64) -> Seq<u8> {
    if n == 0 {
        seq![48u8]
    } else if n < 0 {
        seq![45u8] + digits_of((-(n as int)) as nat)
    } else {
        digits_of(n as nat)
    }
}

/// Powers of ten.
pub open spec fn pow10(k: nat) -> nat
    decreases k,
{
    if k == 0 { 1 } else { 10 * pow10((k - 1) as nat) }
}

/// A number below `10^k` has at most `k` digits.
pub proof fn lemma_digits_len(v: nat, k: nat)
    requires
        v < pow10(k),
    ensures
        digits_of(v).len() <= k,
    decreases k,
{
    if v > 0 {
        assert(k > 0);
        let p = pow10((k - 1) as nat);
        assert(v / 10 < p) by (nonlinear_arith)
            requires
                v < 10 * p,
        ;
        lemma_digits_len(v / 10, (k - 1) as nat);
    }
}

/// Every `i64` magnitude has at most 19 digits.
pub proof fn lemma_i64_digits(v: nat)
    requires
        v <= i64::MAX,
    ensures
        digits_of(v).len() <= 19,
{
    reveal_with_fuel(pow10, 20);
    assert(pow10(19) == 10000000000000000000nat);
    lemma_digits_len(v, 19);
}

/// Writes `n` in decimal at the start of `buf` and returns the length
/// written; the rest of `buf` is untouched.
pub fn fmt_i64(n: i64, buf: &mut [u8; 22]) -> (r: usize)
    requires
        n != i64::MIN,
    ensures
        r == decimal_text(n).len(),
        r <= 20,
        final(buf)@.take(r as int) == decimal_text(n),
        final(buf)@.skip(r as int) == old(buf)@.skip(r as int),
{
    if n == 0 {
        buf[0] = 48;
        assert(buf@.take(1) =~= seq![48u8]);
        assert(buf@.skip(1) =~= old(buf)@.skip(1));
        return 1;
    }
    let neg = n < 0;
    let mut v: i64 = if neg { -n } else { n };
    let ghost orig: nat = v as nat;
    proof {
        lemma_i64_digits(orig);
    }
    let mut tmp = [0u8; 20];
    let mut i: usize = 0;
    while v > 0
        invariant
            0 <= v,
            i + digits_of(v as nat).len() == digits_of(orig).len(),
            digits_of(orig).len() <= 19,
            digits_of(orig) == digits_of(v as nat) + tmp@.take(i as int).reverse(),
            tmp@.len() == 20,
        decreases v,
    {
        assert(digits_of(v as nat) == digits_of((v / 10) as nat).push((48 + v % 10) as u8));
        let d = (v % 10) as u8;
        tmp[i] = 48 + d;
        proof {
            assert(tmp@.take(i + 1).reverse() =~= seq![(48 + d) as u8] + tmp@.take(i as int).reverse());
            assert(digits_of((v / 10) as nat).push((48 + v % 10) as u8) + tmp@.take(i as int).reverse()
                =~= digits_of((v / 10) as nat) + tmp@.take(i + 1).reverse());
        }
        v = v / 10;
        i = i + 1;
    }
    assert(digits_of(orig) =~= tmp@.take(i as int).reverse());
    let mut out: usize = 0;
    if neg {
        buf[0] = 45;
        out = 1;
    }
    let ghost start: int = out as int;
    let mut j: usize = i;
    while j > 0
        invariant
            0 <= j <= i,
            i <= 19,
            start == (if neg { 1int } else { 0int }),
            out == start + (i - j),
            tmp@.len() == 20,
            buf@.len() == 22,
            neg ==> buf@[0] == 45,
            forall|k: int| start <= k < out ==> #[trigger] buf@[k] == tmp@[i - 1 - (k - start)],
            forall|k: int| out <= k < 22 ==> buf@[k] == old(buf)@[k],
        decreases j,
    {
        buf[out] = tmp[j - 1];
        out = out + 1;
        j = j - 1;
    }
    proof {
        let t = decimal_text(n);
        assert(t.len() == out);
        assert forall|k: int| 0 <= k < out implies buf@[k] == t[k] by {
            if k >= start {
                assert(buf@[k] == tmp@[i - 1 - (k - start)]);
            }
        }
        assert(buf@.take(out as int) =~= t);
        assert(buf@.skip(out as int) =~= old(buf)@.skip(out as int));
    }
    out
}

/// The text shown for a value.
pub open spec fn rendered(v: ReplVal) -> Seq<u8> {
    match v {
        ReplVal::Sovereign => "axon_main() -> 0x4153".spec_bytes(),
        ReplVal::Int(n) => decimal_text(n),
        ReplVal::Str(s) => s.spec_bytes(),
        ReplVal::Error => "error: unknown expression".spec_bytes(),
    }
}

/// Copies as much of `src` as fits at the start of `buf`; returns how much.
fn copy_prefix(src: &[u8], buf: &mut [u8]) -> (r: usize)
    ensures
        r == if src@.len() < old(buf)@.len() { src@.len() } else { old(buf)@.len() },
        final(buf)@ == src@.take(r as int) + old(buf)@.skip(r as int),
{
    let n = if src.len() < buf.len() { src.len() } else { buf.len() };
    let mut i: usize = 0;
    while i < n
        invariant
            n <= src@.len(),
            n <= buf@.len(),
            buf@.len() == old(buf)@.len(),
            0 <= i <= n,
            buf@ == src@.take(i as int) + old(buf)@.skip(i as int),
        decreases n - i,
    {
        buf[i] = src[i];
        assert(buf@ =~= src@.take(i + 1) + old(buf)@.skip(i + 1));
        i = i + 1;
    }
    n
}

/// Writes the text of `val` at the start of `buf`, cut to its length, and
/// returns the length written.
pub fn format_result(val: ReplVal, buf: &mut [u8]) -> (r: usize)
    requires
        !(val matches ReplVal::Int(n) && n == i64::MIN),
    ensures
        r == if rendered(val).len() < old(buf)@.len() { rendered(val).len() } else { old(buf)@.len() },
        final(buf)@ == rendered(val).take(r as int) + old(buf)@.skip(r as int),
{
    match val {
        ReplVal::Sovereign => copy_prefix("axon_main() -> 0x4153".as_bytes(), buf),
        ReplVal::Int(n) => {
            let mut tmp = [0u8; 22];
            let len = fmt_i64(n, &mut tmp);
            let digits = vstd::slice::slice_subrange(tmp.as_slice(), 0, len);
            assert(digits@ =~= decimal_text(n));
            copy_prefix(digits, buf)
        },
        ReplVal::Str(s) => copy_prefix(s.as_bytes(), buf),
        ReplVal::Error => copy_prefix("error: unknown expression".as_bytes(), buf),
    }
}


/// An evaluation request from Phoenix-Console.
pub struct ReplRequest {
    pub tag: u64,
    pub label: u32,
    pub seq: u32,
    pub proof: u64,
    /// Length of the expression in `expr`.
    pub len: u32,
    pub expr: [u8; REPL_EXPR_MAX],
}

/// The tag of an evaluation request.
pub const REPL_REQUEST_TAG: u64 = 0xA16_0001;

/// The buffer of a request carrying `expr`: its first `REPL_EXPR_MAX` bytes,
/// then zeros.
pub open spec fn request_buffer(expr: Seq<u8>) -> Seq<u8> {
    Seq::new(REPL_EXPR_MAX as nat, |i: int| if i < expr.len() { expr[i] } else { 0u8 })
}

impl ReplRequest {
    /// The request Phoenix-Console sends to evaluate `expr` as number `seq`:
    /// the sovereign proof, the evaluation label, the length of `expr`, and
    /// as much of `expr` as the buffer holds.
    pub fn new(seq: u32, expr: &[u8]) -> (r: Self)
        requires
            expr@.len() <= u32::MAX,
        ensures
            r.tag == REPL_REQUEST_TAG,
            r.label == REPL_EVAL_LABEL,
            r.seq == seq,
            r.proof == SOVEREIGN_PROOF,
            r.len == expr@.len(),
            r.expr@ == request_buffer(expr@),
            request_authentic(r),
            expr@.len() <= REPL_EXPR_MAX ==> request_expr(r) == expr@,
    {
        let mut buf = [0u8; REPL_EXPR_MAX];
        let n = if expr.len() < REPL_EXPR_MAX { expr.len() } else { REPL_EXPR_MAX };
        let mut i: usize = 0;
        while i < n
            invariant
                n <= expr@.len(),
                n <= REPL_EXPR_MAX,
                0 <= i <= n,
                buf@.len() == REPL_EXPR_MAX,
                forall|k: int| 0 <= k < i ==> buf@[k] == expr@[k],
                forall|k: int| i <= k < REPL_EXPR_MAX ==> buf@[k] == 0u8,
            decreases n - i,
        {
            buf[i] = expr[i];
            i = i + 1;
        }
        assert(buf@ =~= request_buffer(expr@));
        let r = ReplRequest {
            tag: REPL_REQUEST_TAG,
            label: REPL_EVAL_LABEL,
            seq,
            proof: SOVEREIGN_PROOF,
            len: expr.len() as u32,
            expr: buf,
        };
        assert(expr@.len() <= REPL_EXPR_MAX ==> request_expr(r) =~= expr@);
        r
    }
}

/// What the REPL answers: the line to print, and whether the console goes on.
pub struct ReplReply {
    pub proceed: bool,
    pub line: Vec<u8>,
}

/// The request carries the sovereign proof and the evaluation label.
pub open spec fn request_authentic(req: ReplRequest) -> bool {
    req.proof == SOVEREIGN_PROOF && req.label == REPL_EVAL_LABEL
}

/// The expression of a request: its first `len` bytes, at most the buffer.
pub open spec fn request_expr(req: ReplRequest) -> Seq<u8> {
    if req.len as int <= REPL_EXPR_MAX { req.expr@.take(req.len as int) } else { req.expr@ }
}

/// The value asks the console to stop.
pub open spec fn is_exit(v: ReplVal) -> bool {
    v matches ReplVal::Str(s) && s.spec_bytes() == "__EXIT__".spec_bytes()
}

/// The value can be shown: the minimum `i64` has no decimal form here.
pub open spec fn showable(v: ReplVal) -> bool {
    !(v matches ReplVal::Int(n) && n == i64::MIN)
}

impl ReplSession {
    /// Handles one request: a request without the sovereign proof or the
    /// evaluation label is dropped; `exit` stops the console; anything else
    /// is evaluated and its text (cut to `REPL_RESULT_MAX` bytes) returned.
    pub fn handle_request(&mut self, req: &ReplRequest) -> (r: ReplReply)
        requires
            session_wf(*old(self)),
            request_authentic(*req) ==> eval_safe(*old(self), request_expr(*req))
                && showable(eval_value(*old(self), request_expr(*req))),
        ensures
            session_wf(*final(self)),
            !request_authentic(*req) ==> !r.proceed && r.line@ == "[REPL] FATAL: proof mismatch — dropping request".spec_bytes()
                && *final(self) == *old(self),
            request_authentic(*req) ==> {
                let v = eval_value(*old(self), request_expr(*req));
                let t = rendered(v);
                &&& match eval_binding(*old(self), request_expr(*req)) {
                    Some((n, x)) => bound_name(*final(self)) == n && final(self).let_name_len == n.len() && final(self).let_val == x,
                    None => *final(self) == *old(self),
                }
                &&& is_exit(v) ==> !r.proceed && r.line@ == "[REPL] exit requested — Phoenix-Console halting".spec_bytes()
                &&& !is_exit(v) ==> r.proceed && r.line@ == (if t.len() <= REPL_RESULT_MAX { t } else { t.take(REPL_RESULT_MAX as int) })
            },
    {
        if req.proof != SOVEREIGN_PROOF || req.label != REPL_EVAL_LABEL {
            return ReplReply { proceed: false, line: vstd::slice::slice_to_vec("[REPL] FATAL: proof mismatch — dropping request".as_bytes()) };
        }
        let len = if (req.len as usize) < REPL_EXPR_MAX { req.len as usize } else { REPL_EXPR_MAX };
        let expr = vstd::slice::slice_subrange(req.expr.as_slice(), 0, len);
        assert(expr@ =~= request_expr(*req));
        let val = self.evaluate(expr);
        if let ReplVal::Str(s) = val {
            if bytes_equal(s.as_bytes(), "__EXIT__".as_bytes()) {
                return ReplReply { proceed: false, line: vstd::slice::slice_to_vec("[REPL] exit requested — Phoenix-Console halting".as_bytes()) };
            }
        }
        let mut result_buf = [0u8; 128];
        let result_len = format_result(val, &mut result_buf);
        let shown = vstd::slice::slice_subrange(result_buf.as_slice(), 0, result_len);
        assert(shown@ =~= (if rendered(val).len() <= REPL_RESULT_MAX { rendered(val) } else { rendered(val).take(REPL_RESULT_MAX as int) }));
        ReplReply { proceed: true, line: vstd::slice::slice_to_vec(shown) }
    }
}

} // verus!

verus! {

/// Powers of ten are positive.
proof fn lemma_pow10_pos(k: nat)
    ensures
        pow10(k) >= 1,
    decreases k,
{
    if k > 0 {
        lemma_pow10_pos((k - 1) as nat);
    }
}

/// Powers of ten grow with the exponent.
proof fn lemma_pow10_mono(a: nat, b: nat)
    requires
        a <= b,
    ensures
        pow10(a) <= pow10(b),
    decreases b,
{
    if a < b {
        lemma_pow10_mono(a, (b - 1) as nat);
        lemma_pow10_pos((b - 1) as nat);
    }
}

/// `10^a * 10^b == 10^(a + b)`.
proof fn lemma_pow10_add(a: nat, b: nat)
    ensures
        pow10(a) * pow10(b) == pow10(a + b),
    decreases b,
{
    if b > 0 {
        let b1 = (b - 1) as nat;
        lemma_pow10_add(a, b1);
        let p = pow10(a);
        let q = pow10(b1);
        assert(pow10(b) == 10 * q);
        assert((a + b - 1) as nat == a + b1);
        assert(pow10(a + b) == 10 * pow10(a + b1));
        assert(p * (10 * q) == 10 * (p * q)) by (nonlinear_arith);
    } else {
        assert(pow10(a) * 1 == pow10(a));
    }
}

/// `10^18`, the largest power of ten below `i64::MAX`.
proof fn lemma_pow10_18()
    ensures
        pow10(18) == 1_000_000_000_000_000_000nat,
{
    reveal_with_fuel(pow10, 19);
}

/// The value of `k` decimal digits is below `10^k`.
proof fn lemma_decimal_bound(d: Seq<u8>)
    requires
        all_digits(d),
    ensures
        decimal_value(d) < pow10(d.len()),
    decreases d.len(),
{
    if d.len() > 0 {
        let e = d.drop_last();
        assert(all_digits(e)) by {
            assert forall|i: int| 0 <= i < e.len() implies is_digit(#[trigger] e[i]) by {
                assert(e[i] == d[i]);
            }
        }
        lemma_decimal_bound(e);
        assert(is_digit(d[d.len() - 1]));
        assert(pow10(d.len()) == 10 * pow10(e.len()));
    }
}

/// A literal of `k` bytes lies strictly between `-10^k` and `10^k`.
proof fn lemma_literal_bound(t: Seq<u8>)
    requires
        literal_value(t) is Some,
    ensures
        -(pow10(t.len()) as int) < literal_value(t)->0 < pow10(t.len()),
{
    let d = magnitude_digits(t);
    lemma_decimal_bound(d);
    lemma_pow10_mono(d.len(), t.len());
}

/// `l op r` on operands below `10^a` and `10^b` in size stays below
/// `10^(a + b + 1)`, so no operation of a short expression overflows.
proof fn lemma_apply_small(op: u8, l: i64, r: i64, a: nat, b: nat)
    requires
        op == 43 || op == 45 || op == 42 || op == 47,
        -(pow10(a) as int) < l < pow10(a),
        -(pow10(b) as int) < r < pow10(b),
        a + b + 1 <= 18,
    ensures
        !div_overflows(op, l, r),
        apply_op(op, l, r) matches Some(x) ==> -(pow10(a + b + 1) as int) < x < pow10(a + b + 1),
{
    let p = pow10(a);
    let q = pow10(b);
    let n = pow10(a + b + 1);
    lemma_pow10_pos(a);
    lemma_pow10_pos(b);
    lemma_pow10_add(a, b);
    lemma_pow10_18();
    lemma_pow10_mono(a + b + 1, 18);
    lemma_pow10_mono(a, 18);
    assert(n == 10 * pow10(a + b));
    assert(p * q == pow10(a + b));
    assert(p + q <= 10 * (p * q)) by (nonlinear_arith)
        requires
            p >= 1,
            q >= 1,
    ;
    let li = l as int;
    let ri = r as int;
    if op == 43 {
        assert(l.wrapping_add(r) == li + ri);
    } else if op == 45 {
        assert(l.wrapping_sub(r) == li - ri);
    } else if op == 42 {
        assert(-(p * q) < li * ri < p * q) by (nonlinear_arith)
            requires
                -(p as int) < li < p,
                -(q as int) < ri < q,
        ;
        let m = li * ri;
        assert(-0x8000_0000_0000_0000 < m < 0x8000_0000_0000_0000);
        if m >= 0 {
            assert(m % 0x1_0000_0000_0000_0000int == m) by (nonlinear_arith)
                requires
                    0 <= m < 0x1_0000_0000_0000_0000int,
            ;
        } else {
            assert(m % 0x1_0000_0000_0000_0000int == m + 0x1_0000_0000_0000_0000int) by (nonlinear_arith)
                requires
                    -0x1_0000_0000_0000_0000int <= m < 0,
            ;
        }
        assert(l.wrapping_mul(r) == m);
    } else if r != 0 {
        let o = l.checked_div(r);
        assert(o matches Some(x) ==> -(p as int) < x < p) by {
            if li == 0 {
            } else if li > 0 && ri > 0 {
                assert(li / ri <= li) by (nonlinear_arith)
                    requires
                        li > 0,
                        ri > 0,
                ;
                assert(li / ri >= 0) by (nonlinear_arith)
                    requires
                        li > 0,
                        ri > 0,
                ;
            } else if li < 0 && ri < 0 {
                assert((li * -1) / (ri * -1) <= li * -1) by (nonlinear_arith)
                    requires
                        li < 0,
                        ri < 0,
                ;
                assert((li * -1) / (ri * -1) >= 0) by (nonlinear_arith)
                    requires
                        li < 0,
                        ri < 0,
                ;
            } else if li < 0 {
                assert((li * -1) / ri <= li * -1) by (nonlinear_arith)
                    requires
                        li < 0,
                        ri > 0,
                ;
                assert((li * -1) / ri >= 0) by (nonlinear_arith)
                    requires
                        li < 0,
                        ri > 0,
                ;
            } else {
                assert(li / (ri * -1) <= li) by (nonlinear_arith)
                    requires
                        li > 0,
                        ri < 0,
                ;
                assert(li / (ri * -1) >= 0) by (nonlinear_arith)
                    requires
                        li > 0,
                        ri < 0,
                ;
            }
        }
    }
}

/// An expression of at most 18 bytes never reaches the overflowing division,
/// and its value, if any, lies strictly between `-10^k` and `10^k` for its
/// length `k`.
pub proof fn lemma_arith_small(s: Seq<u8>)
    requires
        s.len() <= 18,
    ensures
        !arith_traps(s),
        arith(s) matches Some(x) ==> -(pow10(s.len()) as int) < x < pow10(s.len()),
    decreases s.len(), 3int,
{
    let t = trimmed(s);
    lemma_trimmed_len(s);
    lemma_pow10_mono(t.len(), s.len());
    if t.len() == 0 {
    } else if literal_value(t) is Some {
        lemma_literal_bound(t);
    } else {
        lemma_from_small(t, 0);
    }
}

/// `lemma_arith_small` for the operator levels from the `k`-th on.
proof fn lemma_from_small(t: Seq<u8>, k: int)
    requires
        t.len() <= 18,
    ensures
        !traps_from(t, k),
        arith_from(t, k) matches Some(x) ==> -(pow10(t.len()) as int) < x < pow10(t.len()),
    decreases t.len(), 2 - k,
{
    if k < 0 || k >= 2 {
    } else {
        match last_either(t, level_ops(k).0, level_ops(k).1) {
            None => {
                lemma_from_small(t, k + 1);
            },
            Some(p) => {
                if p == 0 {
                    lemma_from_small(t, k + 1);
                } else {
                    let h = hits_either(t, level_ops(k).0, level_ops(k).1);
                    lemma_last_true_end_props(h);
                    assert(h[p as int]);
                    let a = t.take(p as int);
                    let b = t.skip(p as int + 1);
                    lemma_arith_small(a);
                    lemma_arith_small(b);
                    if arith(a) is Some && arith(b) is Some {
                        lemma_apply_small(t[p as int], arith(a)->0, arith(b)->0, a.len(), b.len());
                        assert(a.len() + b.len() + 1 == t.len());
                    }
                }
            },
        }
    }
}

/// A value that a short expression can yield: strictly between `-10^18` and
/// `10^18`.
pub open spec fn small_value(x: i64) -> bool {
    -1_000_000_000_000_000_000 < x < 1_000_000_000_000_000_000
}

/// Any expression of at most 18 bytes can be handled: evaluating it reaches
/// no overflowing division and, in a session whose bound value is small,
/// yields a showable value and binds only small values.
pub proof fn lemma_eval_small(sess: ReplSession, e: Seq<u8>)
    requires
        session_wf(sess),
        small_value(sess.let_val),
        e.len() <= 18,
    ensures
        eval_safe(sess, e),
        showable(eval_value(sess, e)),
        eval_binding(sess, e) matches Some((n, x)) ==> small_value(x),
{
    let s = trimmed(e);
    lemma_trimmed_len(e);
    lemma_pow10_18();
    lemma_pow10_mono(s.len(), 18);
    if s.len() == 0 || builtin(s) is Some {
    } else if starts_with(s, "let ".spec_bytes()) {
        reveal_strlit("let ");
        assert(vstd::string::is_ascii("let "));
        crate::bytes::lemma_ascii_bytes("let ");
        lemma_trimmed_idempotent(e);
        assert(s.len() >= 4);
        let rest = s.skip(4);
        match first_index(rest, 61) {
            None => {},
            Some(q) => {
                lemma_first_true_props(hits(rest, 61));
                assert(q < rest.len());
                let v0 = rest.skip(q as int + 1);
                assert(v0.len() <= s.len());
                let v = trimmed(v0);
                lemma_trimmed_len(v0);
                lemma_arith_small(v);
                lemma_pow10_mono(v.len(), 18);
                assert(let_parts(s) == Some((trimmed(rest.take(q as int)), v)));
            },
        }
    } else if lookup(sess, s) is Some {
    } else {
        lemma_arith_small(s);
    }
}

/// The expressions the REPL evaluates for the boot log.
pub open spec fn demo_exprs() -> Seq<Seq<u8>> {
    seq![
        "sovereign()".spec_bytes(),
        "version()".spec_bytes(),
        "pd_count()".spec_bytes(),
        "let x = 21 + 21".spec_bytes(),
        "x".spec_bytes(),
        "1 + 2 * 3".spec_bytes(),
        "help".spec_bytes(),
    ]
}

/// The line the REPL prints for an authentic request evaluating `e` in
/// `sess`: the exit notice, or the value's text cut to `REPL_RESULT_MAX`.
pub open spec fn reply_line(sess: ReplSession, e: Seq<u8>) -> Seq<u8> {
    let v = eval_value(sess, e);
    let t = rendered(v);
    if is_exit(v) {
        "[REPL] exit requested — Phoenix-Console halting".spec_bytes()
    } else if t.len() <= REPL_RESULT_MAX {
        t
    } else {
        t.take(REPL_RESULT_MAX as int)
    }
}

/// `s2` is the session after evaluating `e` in `s`: rebound by a `let` whose
/// value expression has a value, otherwise unchanged.
pub open spec fn demo_step(s: ReplSession, e: Seq<u8>, s2: ReplSession) -> bool {
    &&& session_wf(s2)
    &&& match eval_binding(s, e) {
        Some((n, x)) => bound_name(s2) == n && s2.let_name_len == n.len() && s2.let_val == x,
        None => s2 == s,
    }
}

/// What the REPL prints for the expressions `es`, evaluated in the sessions
/// `ss` in turn: the prompt, the expression echoed, the answer.
pub open spec fn demo_text(ss: Seq<ReplSession>, es: Seq<Seq<u8>>) -> Seq<u8>
    decreases es.len(),
{
    if es.len() == 0 || ss.len() == 0 {
        Seq::empty()
    } else {
        demo_text(ss.drop_last(), es.drop_last()) + "phoenix@aieonyx:~$ ".spec_bytes() + es.last() + seq![10u8]
            + reply_line(ss.last(), es.last()) + seq![10u8]
    }
}

/// The sessions of a demo run: starting with no binding, each the session
/// after the previous expression.
pub open spec fn demo_sessions(ss: Seq<ReplSession>) -> bool {
    &&& ss.len() == 8
    &&& session_wf(ss[0]) && ss[0].let_name_len == 0
    &&& forall|i: int| 0 <= i < 7 ==> #[trigger] demo_step(ss[i], demo_exprs()[i], ss[i + 1])
}

/// Every demo expression is at most 18 bytes long.
proof fn lemma_demo_short()
    ensures
        demo_exprs().len() == 7,
        forall|i: int| 0 <= i < 7 ==> (#[trigger] demo_exprs()[i]).len() <= 18,
{
    reveal_strlit("sovereign()");
    reveal_strlit("version()");
    reveal_strlit("pd_count()");
    reveal_strlit("let x = 21 + 21");
    reveal_strlit("x");
    reveal_strlit("1 + 2 * 3");
    reveal_strlit("help");
    assert(vstd::string::is_ascii("sovereign()"));
    assert(vstd::string::is_ascii("version()"));
    assert(vstd::string::is_ascii("pd_count()"));
    assert(vstd::string::is_ascii("let x = 21 + 21"));
    assert(vstd::string::is_ascii("x"));
    assert(vstd::string::is_ascii("1 + 2 * 3"));
    assert(vstd::string::is_ascii("help"));
    crate::bytes::lemma_ascii_bytes("sovereign()");
    crate::bytes::lemma_ascii_bytes("version()");
    crate::bytes::lemma_ascii_bytes("pd_count()");
    crate::bytes::lemma_ascii_bytes("let x = 21 + 21");
    crate::bytes::lemma_ascii_bytes("x");
    crate::bytes::lemma_ascii_bytes("1 + 2 * 3");
    crate::bytes::lemma_ascii_bytes("help");
}

/// The AXON-REPL PD entry: announces itself, then evaluates the demo
/// expressions in one session, each after the prompt and echoed, and prints
/// each answer; returns the sovereign proof.
pub fn axon_repl_main(out: &mut Vec<u8>) -> (r: u64)
    ensures
        r == SOVEREIGN_PROOF,
        exists|ss: Seq<ReplSession>| #![auto]
            demo_sessions(ss) && final(out)@ == old(out)@
                + "[AXON-REPL] PD online — AxonScript evaluator ready\n".spec_bytes() + demo_text(ss.take(7), demo_exprs()),
{
    crate::pds::console::append_bytes(out, "[AXON-REPL] PD online — AxonScript evaluator ready\n".as_bytes());
    let ghost head = out@;
    let demo: [&[u8]; 7] = [
        "sovereign()".as_bytes(),
        "version()".as_bytes(),
        "pd_count()".as_bytes(),
        "let x = 21 + 21".as_bytes(),
        "x".as_bytes(),
        "1 + 2 * 3".as_bytes(),
        "help".as_bytes(),
    ];
    proof {
        lemma_demo_short();
    }
    assert(forall|k: int| 0 <= k < 7 ==> (#[trigger] demo@[k])@ == demo_exprs()[k]);
    let mut session = ReplSession::new();
    let ghost mut ss: Seq<ReplSession> = seq![session];
    let mut i: usize = 0;
    while i < 7
        invariant
            0 <= i <= 7,
            forall|k: int| 0 <= k < 7 ==> (#[trigger] demo@[k])@ == demo_exprs()[k],
            forall|k: int| 0 <= k < 7 ==> (#[trigger] demo_exprs()[k]).len() <= 18,
            demo_exprs().len() == 7,
            ss.len() == i + 1,
            ss[i as int] == session,
            session_wf(session),
            small_value(session.let_val),
            session_wf(ss[0]) && ss[0].let_name_len == 0,
            forall|k: int| 0 <= k < i ==> #[trigger] demo_step(ss[k], demo_exprs()[k], ss[k + 1]),
            out@ == head + demo_text(ss.take(i as int), demo_exprs().take(i as int)),
        decreases 7 - i,
    {
        let expr = demo[i];
        let ghost before = session;
        let ghost out0 = out@;
        let req = ReplRequest::new(i as u32, expr);
        crate::pds::console::append_bytes(out, "phoenix@aieonyx:~$ ".as_bytes());
        crate::pds::console::append_bytes(out, expr);
        out.push(10);
        proof {
            lemma_eval_small(session, expr@);
        }
        let reply = session.handle_request(&req);
        crate::pds::console::append_bytes(out, reply.line.as_slice());
        out.push(10);
        proof {
            assert(reply.line@ == reply_line(before, demo_exprs()[i as int]));
            assert(demo_step(before, demo_exprs()[i as int], session));
            let ss1 = ss.push(session);
            assert(ss1.take(i + 1) =~= ss);
            assert(ss.drop_last() =~= ss.take(i as int));
            assert(demo_exprs().take(i + 1).drop_last() =~= demo_exprs().take(i as int));
            assert(demo_exprs().take(i + 1).last() == demo_exprs()[i as int]);
            assert(out@ =~= head + demo_text(ss1.take(i + 1), demo_exprs().take(i + 1)));
            assert forall|k: int| 0 <= k < i + 1 implies #[trigger] demo_step(ss1[k], demo_exprs()[k], ss1[k + 1]) by {
                if k < i {
                    assert(ss1[k] == ss[k] && ss1[k + 1] == ss[k + 1]);
                }
            }
            ss = ss1;
        }
        i = i + 1;
    }
    assert(demo_exprs().take(7) =~= demo_exprs());
    assert(demo_sessions(ss));
    SOVEREIGN_PROOF
}

/// Only the bound name reads back, and it reads back the bound value: a
/// name that is looked up successfully has exactly the length and the bytes
/// of the bound name, so no two different names (a name and a longer text
/// that starts with it, say) both read back.
pub proof fn lemma_lookup_exact(s: ReplSession, n1: Seq<u8>, n2: Seq<u8>)
    requires
        session_wf(s),
    ensures
        lookup(s, n1) matches Some(v) ==> v == s.let_val && s.let_name_len > 0 && n1.len() == s.let_name_len
            && forall|i: int| 0 <= i < n1.len() ==> n1[i] == s.let_name@[i],
        lookup(s, n1) is Some && lookup(s, n2) is Some ==> n1 == n2,
        s.let_name_len > 0 ==> lookup(s, s.let_name@.take(s.let_name_len as int)) == Some(s.let_val),
        s.let_name_len == 0 ==> lookup(s, n1) is None,
{
}

} // verus!
