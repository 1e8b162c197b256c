//! Character-level helpers on text: escaping names for reuse inside a
//! pattern, picking one comma-separated field, reading numbers, replacing a
//! literal piece and writing a fixed-width hexadecimal number.
use vstd::prelude::*;

verus! {

/// The characters of `s`, in order.
pub fn chars_of(s: &str) -> (r: Vec<char>)
    ensures
        r@ == s@,
{
    let mut v: Vec<char> = Vec::new();
    for c in it: s.chars()
        invariant
            v@ == it.seq().subrange(0, it.index() as int),
    {
        v.push(c);
    }
    assert(v@ =~= s@);
    v
}

/// What one character becomes once escaped: `$` gets a backslash before it.
pub open spec fn escape_char(c: char) -> Seq<char> {
    if c == '$' {
        seq!['\\', '$']
    } else {
        seq![c]
    }
}

/// `s` with every `$` written as `\$`, so that it stands for itself in a pattern.
pub open spec fn escape_dollars(s: Seq<char>) -> Seq<char>
    decreases s.len(),
{
    if s.len() == 0 {
        Seq::empty()
    } else {
        escape_dollars(s.drop_last()) + escape_char(s.last())
    }
}

/// Every `$` of an escaped text has a backslash just before it, and a text
/// without `$` is left as it is.
pub proof fn lemma_escape_dollars_guards_every_dollar(s: Seq<char>)
    ensures
        forall|i: int|
            0 <= i < escape_dollars(s).len() && #[trigger] escape_dollars(s)[i] == '$' ==> i
                >= 1 && escape_dollars(s)[i - 1] == '\\',
        (forall|i: int| 0 <= i < s.len() ==> s[i] != '$') ==> escape_dollars(s) == s,
    decreases s.len(),
{
    if s.len() > 0 {
        let p = s.drop_last();
        lemma_escape_dollars_guards_every_dollar(p);
        let e = escape_dollars(s);
        let ep = escape_dollars(p);
        assert forall|i: int| 0 <= i < e.len() && #[trigger] e[i] == '$' implies i >= 1 && e[i
            - 1] == '\\' by {
            if i < ep.len() {
                assert(e[i] == ep[i]);
                assert(e[i - 1] == ep[i - 1]);
            }
        }
        if forall|i: int| 0 <= i < s.len() ==> s[i] != '$' {
            assert(forall|i: int| 0 <= i < p.len() ==> p[i] == s[i]);
            assert(s.last() != '$');
            assert(e =~= s);
        }
    }
}

/// Escapes every `$` of a captured name before it is put into a pattern.
pub fn escape_dollars_in(s: &str) -> (r: String)
    ensures
        r@ == escape_dollars(s@),
{
    let cs = chars_of(s);
    let n = cs.len();
    let mut r = String::new();
    let mut start: usize = 0;
    let mut i: usize = 0;
    while i < n
        invariant
            start <= i <= n,
            n == s@.len(),
            cs@ == s@,
            r@ + s@.subrange(start as int, i as int) == escape_dollars(s@.subrange(0, i as int)),
        decreases n - i,
    {
        let ghost before = r@ + s@.subrange(start as int, i as int);
        assert(s@.subrange(0, i + 1).drop_last() =~= s@.subrange(0, i as int));
        if cs[i] == '$' {
            let run = s.substring_char(start, i);
            r.append(run);
            proof {
                reveal_strlit("\\$");
            }
            r.append("\\$");
            start = i + 1;
            assert(s@.subrange(start as int, start as int) =~= Seq::<char>::empty());
            assert(r@ + s@.subrange(start as int, i + 1) =~= before + escape_char(s@[i as int]));
        } else {
            assert(s@.subrange(start as int, i + 1) =~= s@.subrange(start as int, i as int).push(
                s@[i as int],
            ));
            assert(r@ + s@.subrange(start as int, i + 1) =~= before + escape_char(s@[i as int]));
        }
        i = i + 1;
    }
    let tail = s.substring_char(start, n);
    r.append(tail);
    assert(s@.subrange(0, n as int) =~= s@);
    r
}

/// The pieces of `s` between commas, in order; a text without commas is one piece.
pub open spec fn split_commas(s: Seq<char>) -> Seq<Seq<char>>
    decreases s.len(),
{
    if s.len() == 0 {
        seq![Seq::empty()]
    } else {
        let f = split_commas(s.drop_last());
        if s.last() == ',' {
            f.push(Seq::empty())
        } else {
            f.update(f.len() - 1, f.last().push(s.last()))
        }
    }
}

/// The piece of `s` at position `k` once split at commas, if there are that many.
pub fn nth_field(s: &str, k: u64) -> (r: Option<String>)
    ensures
        match r {
            Some(f) => k < split_commas(s@).len() && f@ == split_commas(s@)[k as int],
            None => k >= split_commas(s@).len(),
        },
{
    let cs = chars_of(s);
    let n = cs.len();
    let mut field: usize = 0;
    let mut start: usize = 0;
    let mut found: Option<String> = None;
    let mut i: usize = 0;
    assert(s@.subrange(0, 0) =~= Seq::<char>::empty());
    while i < n
        invariant
            start <= i <= n,
            field <= i,
            n == s@.len(),
            cs@ == s@,
            field as int == split_commas(s@.subrange(0, i as int)).len() - 1,
            split_commas(s@.subrange(0, i as int)).last() == s@.subrange(start as int, i as int),
            (field as int) <= (k as int) ==> found is None,
            (k as int) < (field as int) ==> (found matches Some(f) && f@ == split_commas(
                s@.subrange(0, i as int),
            )[k as int]),
        decreases n - i,
    {
        let ghost pre = s@.subrange(0, i as int);
        assert(s@.subrange(0, i + 1).drop_last() =~= pre);
        if cs[i] == ',' {
            if field as u64 == k {
                found = Some(s.substring_char(start, i).to_string());
            }
            field = field + 1;
            start = i + 1;
            assert(s@.subrange(start as int, start as int) =~= Seq::<char>::empty());
        } else {
            assert(s@.subrange(start as int, i + 1) =~= s@.subrange(start as int, i as int).push(
                s@[i as int],
            ));
        }
        i = i + 1;
    }
    assert(s@.subrange(0, n as int) =~= s@);
    if field as u64 == k {
        Some(s.substring_char(start, n).to_string())
    } else {
        found
    }
}

/// The value of a digit in base `radix` (10 or 16; both cases of letters count).
pub open spec fn digit_value(c: char, radix: nat) -> Option<nat> {
    let d: int = if '0' <= c && c <= '9' {
        (c as int) - ('0' as int)
    } else if 'a' <= c && c <= 'f' {
        (c as int) - ('a' as int) + 10
    } else if 'A' <= c && c <= 'F' {
        (c as int) - ('A' as int) + 10
    } else {
        -1
    };
    if 0 <= d && d < radix {
        Some(d as nat)
    } else {
        None
    }
}

/// The number that the digits of `s` write in base `radix`; none if a character is no digit.
pub open spec fn digits_value(s: Seq<char>, radix: nat) -> Option<nat>
    decreases s.len(),
{
    if s.len() == 0 {
        Some(0)
    } else {
        match (digits_value(s.drop_last(), radix), digit_value(s.last(), radix)) {
            (Some(v), Some(d)) => Some(v * radix + d),
            _ => None,
        }
    }
}

/// The number that `s` writes in base `radix`: at least one digit, nothing else, within `u64`.
pub open spec fn parsed_number(s: Seq<char>, radix: nat) -> Option<u64> {
    if s.len() > 0 && digits_value(s, radix) is Some && digits_value(s, radix)->0 <= u64::MAX {
        Some(digits_value(s, radix)->0 as u64)
    } else {
        None
    }
}

proof fn lemma_digits_prefix(s: Seq<char>, radix: nat, i: int)
    requires
        0 <= i <= s.len(),
        radix >= 1,
    ensures
        digits_value(s.subrange(0, i), radix) is None ==> digits_value(s, radix) is None,
        (digits_value(s.subrange(0, i), radix) is Some && digits_value(s, radix) is Some)
            ==> digits_value(s, radix)->0 >= digits_value(s.subrange(0, i), radix)->0,
    decreases s.len(),
{
    if i < s.len() {
        lemma_digits_prefix(s.drop_last(), radix, i);
        assert(s.drop_last().subrange(0, i) =~= s.subrange(0, i));
        if let (Some(v), Some(d)) = (digits_value(s.drop_last(), radix), digit_value(s.last(), radix)) {
            assert(v * radix + d >= v) by (nonlinear_arith)
                requires
                    radix >= 1,
            ;
        }
    } else {
        assert(s.subrange(0, i) =~= s);
    }
}

fn digit_of(c: char, radix: u64) -> (r: Option<u64>)
    requires
        radix == 10 || radix == 16,
    ensures
        match r {
            Some(d) => digit_value(c, radix as nat) == Some(d as nat),
            None => digit_value(c, radix as nat) is None,
        },
{
    let d: u64 = if '0' <= c && c <= '9' {
        (c as u64) - ('0' as u64)
    } else if 'a' <= c && c <= 'f' {
        (c as u64) - ('a' as u64) + 10
    } else if 'A' <= c && c <= 'F' {
        (c as u64) - ('A' as u64) + 10
    } else {
        return None;
    };
    if d < radix {
        Some(d)
    } else {
        None
    }
}

/// Reads the number that `s` writes in base `radix` (10 or 16).
pub fn parse_number(s: &str, radix: u64) -> (r: Option<u64>)
    requires
        radix == 10 || radix == 16,
    ensures
        r == parsed_number(s@, radix as nat),
{
    let cs = chars_of(s);
    let n = cs.len();
    if n == 0 {
        return None;
    }
    let mut v: u64 = 0;
    let mut i: usize = 0;
    assert(s@.subrange(0, 0) =~= Seq::<char>::empty());
    while i < n
        invariant
            i <= n,
            n == s@.len(),
            cs@ == s@,
            radix == 10 || radix == 16,
            digits_value(s@.subrange(0, i as int), radix as nat) == Some(v as nat),
        decreases n - i,
    {
        assert(s@.subrange(0, i + 1).drop_last() =~= s@.subrange(0, i as int));
        match digit_of(cs[i], radix) {
            None => {
                proof {
                    lemma_digits_prefix(s@, radix as nat, i + 1);
                }
                return None;
            },
            Some(d) => {
                let q: u64 = (u64::MAX - d) / radix;
                if v > q {
                    proof {
                        assert(v * radix + d > u64::MAX) by (nonlinear_arith)
                            requires
                                v > q,
                                q as int == ((u64::MAX as int) - (d as int)) / (radix as int),
                                radix > 0,
                                d <= u64::MAX,
                        ;
                        lemma_digits_prefix(s@, radix as nat, i + 1);
                    }
                    return None;
                }
                assert(v * radix + d <= u64::MAX) by (nonlinear_arith)
                    requires
                        v <= q,
                        q as int == ((u64::MAX as int) - (d as int)) / (radix as int),
                        radix > 0,
                        d <= u64::MAX,
                ;
                v = v * radix + d;
            },
        }
        i = i + 1;
    }
    assert(s@.subrange(0, n as int) =~= s@);
    Some(v)
}

/// `s` with each occurrence of `from`, taken left to right without overlap,
/// replaced by `to`.
pub open spec fn replace_literal(s: Seq<char>, from: Seq<char>, to: Seq<char>) -> Seq<char>
    decreases s.len(),
{
    if from.len() == 0 || s.len() < from.len() {
        s
    } else if s.subrange(0, from.len() as int) == from {
        to + replace_literal(s.subrange(from.len() as int, s.len() as int), from, to)
    } else {
        seq![s[0]] + replace_literal(s.drop_first(), from, to)
    }
}

fn occurs_at(cs: &Vec<char>, i: usize, pat: &Vec<char>) -> (r: bool)
    requires
        i <= cs.len(),
    ensures
        r == (i + pat.len() <= cs.len() && cs@.subrange(i as int, i + pat.len()) == pat@),
{
    if pat.len() > cs.len() - i {
        return false;
    }
    let mut j: usize = 0;
    while j < pat.len()
        invariant
            j <= pat.len(),
            i + pat.len() <= cs.len(),
            forall|t: int| 0 <= t < j ==> cs@[i + t] == pat@[t],
        decreases pat.len() - j,
    {
        if cs[i + j] != pat[j] {
            assert(cs@.subrange(i as int, i + pat.len())[j as int] != pat@[j as int]);
            return false;
        }
        j = j + 1;
    }
    assert(cs@.subrange(i as int, i + pat.len()) =~= pat@);
    true
}

/// Replaces each occurrence of `from` in `s`, left to right, by `to`.
pub fn replace_all_literal(s: &str, from: &str, to: &str) -> (r: String)
    requires
        from@.len() > 0,
    ensures
        r@ == replace_literal(s@, from@, to@),
{
    let cs = chars_of(s);
    let pat = chars_of(from);
    let n = cs.len();
    let mut r = String::new();
    let mut start: usize = 0;
    let mut i: usize = 0;
    assert(s@.subrange(0, n as int) =~= s@);
    assert(r@ + s@.subrange(0, 0) =~= Seq::<char>::empty());
    while i < n
        invariant
            start <= i <= n,
            n == s@.len(),
            cs@ == s@,
            pat@ == from@,
            pat@.len() > 0,
            r@ + s@.subrange(start as int, i as int) + replace_literal(
                s@.subrange(i as int, n as int),
                from@,
                to@,
            ) == replace_literal(s@, from@, to@),
        decreases n - i,
    {
        let ghost rest = s@.subrange(i as int, n as int);
        let ghost before = r@ + s@.subrange(start as int, i as int);
        if occurs_at(&cs, i, &pat) {
            assert(rest.subrange(0, from@.len() as int) =~= from@);
            assert(rest.subrange(from@.len() as int, rest.len() as int) =~= s@.subrange(
                i + pat.len(),
                n as int,
            ));
            let run = s.substring_char(start, i);
            r.append(run);
            r.append(to);
            i = i + pat.len();
            start = i;
            assert(s@.subrange(start as int, start as int) =~= Seq::<char>::empty());
            assert(r@ + s@.subrange(start as int, i as int) =~= before + to@);
        } else {
            assert(rest.drop_first() =~= s@.subrange(i + 1, n as int));
            proof {
                if rest.len() >= from@.len() {
                    assert(rest.subrange(0, from@.len() as int) =~= s@.subrange(
                        i as int,
                        i + pat.len(),
                    ));
                }
            }
            assert(s@.subrange(start as int, i + 1) =~= s@.subrange(start as int, i as int).push(
                s@[i as int],
            ));
            assert(before + rest =~= before + seq![s@[i as int]] + rest.drop_first());
            i = i + 1;
            assert(r@ + s@.subrange(start as int, i as int) =~= before + seq![s@[i - 1]]);
        }
    }
    let tail = s.substring_char(start, n);
    r.append(tail);
    assert(s@.subrange(n as int, n as int) =~= Seq::<char>::empty());
    r
}

/// The sixteen hexadecimal digits, lower case, in order.
pub open spec fn hex_alphabet() -> Seq<char> {
    "0123456789abcdef"@
}

/// Sixteen to the power `e`.
pub open spec fn pow16(e: nat) -> nat
    decreases e,
{
    if e == 0 {
        1
    } else {
        16 * pow16((e - 1) as nat)
    }
}

/// `v` in exactly eight lower-case hexadecimal digits, leading zeros kept.
pub open spec fn hex8(v: u32) -> Seq<char> {
    Seq::new(8, |i: int| hex_alphabet()[((v as nat / pow16((7 - i) as nat)) % 16) as int])
}

/// Writes `v` in eight lower-case hexadecimal digits.
pub fn hex8_of(v: u32) -> (r: String)
    ensures
        r@ == hex8(v),
{
    let digits = "0123456789abcdef";
    proof {
        reveal_strlit("0123456789abcdef");
        reveal_with_fuel(pow16, 8);
    }
    let mut r = String::new();
    let mut p: u32 = 268435456;
    let mut i: usize = 0;
    while i < 8
        invariant
            i <= 8,
            digits@ == hex_alphabet(),
            digits@.len() == 16,
            i < 8 ==> p as nat == pow16((7 - i) as nat),
            p > 0,
            r@ == hex8(v).subrange(0, i as int),
        decreases 8 - i,
    {
        let d: usize = ((v / p) % 16) as usize;
        let one = digits.substring_char(d, d + 1);
        r.append(one);
        assert(r@ =~= hex8(v).subrange(0, i + 1));
        if i < 7 {
            let ghost q = pow16((6 - i) as nat);
            assert(pow16((7 - i) as nat) == 16 * q);
            assert((16 * q) / 16 == q) by (nonlinear_arith);
            p = p / 16;
        }
        i = i + 1;
    }
    assert(r@ =~= hex8(v));
    r
}

} // verus!
