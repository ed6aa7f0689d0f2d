//! Building the tool's text output: decimal numbers, padding, lists and
//! case-insensitive comparison, each against a spec of the characters produced.
use vstd::prelude::*;

verus! {

/// The decimal digit character for `d` (meaningful for `d < 10`).
pub open spec fn digit_char(d: nat) -> char {
    if d == 0 {
        '0'
    } else if d == 1 {
        '1'
    } else if d == 2 {
        '2'
    } else if d == 3 {
        '3'
    } else if d == 4 {
        '4'
    } else if d == 5 {
        '5'
    } else if d == 6 {
        '6'
    } else if d == 7 {
        '7'
    } else if d == 8 {
        '8'
    } else {
        '9'
    }
}

/// The decimal representation of `n`, most significant digit first, without
/// leading zeros (as `{}` formats an unsigned integer).
pub open spec fn decimal(n: nat) -> Seq<char>
    decreases n,
{
    if n < 10 {
        seq![digit_char(n)]
    } else {
        decimal(n / 10).push(digit_char(n % 10))
    }
}

/// The decimal representation of a signed integer (as `{}` formats it).
pub open spec fn signed_decimal(i: int) -> Seq<char> {
    if i < 0 {
        seq!['-'] + decimal((-i) as nat)
    } else {
        decimal(i as nat)
    }
}

/// `s` followed by spaces up to `width` characters (as `{:<width}` formats it).
pub open spec fn pad_right(s: Seq<char>, width: nat) -> Seq<char> {
    if s.len() >= width {
        s
    } else {
        s + Seq::new((width - s.len()) as nat, |i: int| ' ')
    }
}

/// The elements of `items` in decimal, separated by `", "`.
pub open spec fn decimal_items(items: Seq<nat>) -> Seq<char>
    decreases items.len(),
{
    if items.len() == 0 {
        Seq::empty()
    } else if items.len() == 1 {
        decimal(items[0])
    } else {
        decimal_items(items.drop_last()) + seq![',', ' '] + decimal(items.last())
    }
}

/// A list of unsigned integers as `{:?}` formats it: `[1, 2, 3]`.
pub open spec fn debug_list(items: Seq<nat>) -> Seq<char> {
    seq!['['] + decimal_items(items) + seq![']']
}

/// An optional unsigned integer as `{:?}` formats it: `Some(3)` or `None`.
pub open spec fn debug_option(o: Option<nat>) -> Seq<char> {
    match o {
        Some(n) => seq!['S', 'o', 'm', 'e', '('] + decimal(n) + seq![')'],
        None => seq!['N', 'o', 'n', 'e'],
    }
}

/// The code point of `c` with ASCII upper-case letters mapped to lower case.
pub open spec fn ascii_folded(c: char) -> u32 {
    if 'A' <= c && c <= 'Z' {
        (c as u32 + 32) as u32
    } else {
        c as u32
    }
}

/// Two texts are equal up to ASCII case (as `str::eq_ignore_ascii_case`).
pub open spec fn eq_ignore_ascii_case_spec(a: Seq<char>, b: Seq<char>) -> bool {
    &&& a.len() == b.len()
    &&& forall|i: int| 0 <= i < a.len() ==> #[trigger] ascii_folded(a[i]) == ascii_folded(b[i])
}

fn digit_str(d: u128) -> (s: &'static str)
    requires
        d < 10,
    ensures
        s@ == seq![digit_char(d as nat)],
{
    if d == 0 {
        proof { reveal_strlit("0"); }
        "0"
    } else if d == 1 {
        proof { reveal_strlit("1"); }
        "1"
    } else if d == 2 {
        proof { reveal_strlit("2"); }
        "2"
    } else if d == 3 {
        proof { reveal_strlit("3"); }
        "3"
    } else if d == 4 {
        proof { reveal_strlit("4"); }
        "4"
    } else if d == 5 {
        proof { reveal_strlit("5"); }
        "5"
    } else if d == 6 {
        proof { reveal_strlit("6"); }
        "6"
    } else if d == 7 {
        proof { reveal_strlit("7"); }
        "7"
    } else if d == 8 {
        proof { reveal_strlit("8"); }
        "8"
    } else {
        proof { reveal_strlit("9"); }
        "9"
    }
}

/// Appends the decimal representation of `n` to `out`.
pub fn push_decimal(out: &mut String, n: u128)
    ensures
        final(out)@ == old(out)@ + decimal(n as nat),
    decreases n,
{
    if n >= 10 {
        push_decimal(out, n / 10);
    }
    out.append(digit_str(n % 10));
    proof {
        if n >= 10 {
            assert(decimal(n as nat) == decimal((n / 10) as nat).push(digit_char((n % 10) as nat)));
        }
    }
    assert(final(out)@ =~= old(out)@ + decimal(n as nat));
}

/// Appends the decimal representation of the signed `i` to `out`.
pub fn push_signed_decimal(out: &mut String, i: i64)
    ensures
        final(out)@ == old(out)@ + signed_decimal(i as int),
{
    if i < 0 {
        proof { reveal_strlit("-"); }
        out.append("-");
        let magnitude: u128 = (0i128 - (i as i128)) as u128;
        push_decimal(out, magnitude);
        assert(final(out)@ =~= old(out)@ + signed_decimal(i as int));
    } else {
        push_decimal(out, i as u128);
    }
}

/// The decimal representation of `n` as a new string.
pub fn decimal_string(n: u128) -> (s: String)
    ensures
        s@ == decimal(n as nat),
{
    let mut s = String::new();
    push_decimal(&mut s, n);
    assert(s@ =~= decimal(n as nat));
    s
}

/// Appends `s` padded with spaces on the right to `width` characters.
pub fn push_padded(out: &mut String, s: &str, width: usize)
    ensures
        final(out)@ == old(out)@ + pad_right(s@, width as nat),
{
    out.append(s);
    let len = s.unicode_len();
    let mut k = len;
    proof { reveal_strlit(" "); }
    while k < width
        invariant
            len == s@.len(),
            k >= len,
            k <= width || k == len,
            out@ == old(out)@ + s@ + Seq::new((k - len) as nat, |i: int| ' '),
        decreases width - k,
    {
        proof { reveal_strlit(" "); }
        out.append(" ");
        k = k + 1;
        assert(out@ =~= old(out)@ + s@ + Seq::new((k - len) as nat, |i: int| ' '));
    }
    proof {
        if s@.len() >= width {
            assert(k == len);
            assert(out@ =~= old(out)@ + pad_right(s@, width as nat));
        } else {
            assert(k == width);
            assert(out@ =~= old(out)@ + pad_right(s@, width as nat));
        }
    }
}

/// Appends the list `items` as `{:?}` formats it.
pub fn push_debug_list(out: &mut String, items: &[u128])
    ensures
        final(out)@ == old(out)@ + debug_list(u128_nats(items@)),
{
    let ghost nats = u128_nats(items@);
    proof {
        reveal_strlit("[");
        reveal_strlit("]");
        reveal_strlit(", ");
    }
    out.append("[");
    let n = items.len();
    let mut k: usize = 0;
    while k < n
        invariant
            n == items@.len(),
            k <= n,
            nats == u128_nats(items@),
            out@ == old(out)@ + seq!['['] + decimal_items(nats.take(k as int)),
        decreases n - k,
    {
        proof { reveal_strlit(", "); }
        if k > 0 {
            out.append(", ");
        }
        push_decimal(out, items[k]);
        proof {
            let t = nats.take(k + 1);
            assert(t.drop_last() =~= nats.take(k as int));
            assert(t.last() == items@[k as int] as nat);
            if k == 0 {
                assert(t.len() == 1);
                assert(nats.take(0) =~= Seq::<nat>::empty());
                assert(decimal_items(nats.take(0)) =~= Seq::<char>::empty());
            }
        }
        k = k + 1;
        assert(out@ =~= old(out)@ + seq!['['] + decimal_items(nats.take(k as int)));
    }
    out.append("]");
    assert(nats.take(n as int) =~= nats);
    assert(out@ =~= old(out)@ + debug_list(nats));
}

/// Appends the optional value `o` as `{:?}` formats it.
pub fn push_debug_option(out: &mut String, o: Option<u128>)
    ensures
        final(out)@ == old(out)@ + debug_option(
            match o {
                Some(v) => Some(v as nat),
                None => None,
            },
        ),
{
    match o {
        Some(v) => {
            proof {
                reveal_strlit("Some(");
                reveal_strlit(")");
            }
            out.append("Some(");
            push_decimal(out, v);
            out.append(")");
            assert(final(out)@ =~= old(out)@ + debug_option(Some(v as nat)));
        },
        None => {
            proof { reveal_strlit("None"); }
            out.append("None");
            assert(final(out)@ =~= old(out)@ + debug_option(None));
        },
    }
}

fn ascii_fold(c: char) -> (r: u32)
    ensures
        r == ascii_folded(c),
{
    let x = c as u32;
    if 65 <= x && x <= 90 {
        x + 32
    } else {
        x
    }
}

/// Whether `a` and `b` are equal up to ASCII case.
pub fn eq_ignore_ascii_case(a: &str, b: &str) -> (r: bool)
    ensures
        r == eq_ignore_ascii_case_spec(a@, b@),
{
    let n = a.unicode_len();
    let m = b.unicode_len();
    if n != m {
        return false;
    }
    let mut k: usize = 0;
    while k < n
        invariant
            n == a@.len(),
            n == b@.len(),
            k <= n,
            forall|i: int| 0 <= i < k ==> #[trigger] ascii_folded(a@[i]) == ascii_folded(b@[i]),
        decreases n - k,
    {
        if ascii_fold(a.get_char(k)) != ascii_fold(b.get_char(k)) {
            assert(!(ascii_folded(a@[k as int]) == ascii_folded(b@[k as int])));
            return false;
        }
        k = k + 1;
    }
    true
}

/// The unsigned integers of `v` as mathematical integers.
pub open spec fn usize_nats(v: Seq<usize>) -> Seq<nat> {
    v.map_values(|x: usize| x as nat)
}

/// The unsigned integers of `v` as mathematical integers.
pub open spec fn u64_nats(v: Seq<u64>) -> Seq<nat> {
    v.map_values(|x: u64| x as nat)
}

/// The unsigned integers of `v` as mathematical integers.
pub open spec fn u128_nats(v: Seq<u128>) -> Seq<nat> {
    v.map_values(|x: u128| x as nat)
}

/// `v` with each element widened to 128 bits.
pub fn widen_usizes(v: &[usize]) -> (r: Vec<u128>)
    ensures
        u128_nats(r@) == usize_nats(v@),
{
    let mut r: Vec<u128> = Vec::new();
    let n = v.len();
    let mut k: usize = 0;
    while k < n
        invariant
            n == v@.len(),
            k <= n,
            r@.len() == k,
            u128_nats(r@) == usize_nats(v@.take(k as int)),
        decreases n - k,
    {
        let ghost old_r = r@;
        r.push(v[k] as u128);
        proof {
            let t = v@.take(k + 1);
            assert forall|i: int| 0 <= i < k + 1 implies #[trigger] u128_nats(r@)[i] == usize_nats(
                t,
            )[i] by {
                if i < k {
                    assert(u128_nats(old_r)[i] == usize_nats(v@.take(k as int))[i]);
                }
            }
        }
        k = k + 1;
        assert(u128_nats(r@) =~= usize_nats(v@.take(k as int)));
    }
    assert(v@.take(n as int) =~= v@);
    r
}

/// `v` with each element widened to 128 bits.
pub fn widen_u64s(v: &[u64]) -> (r: Vec<u128>)
    ensures
        u128_nats(r@) == u64_nats(v@),
{
    let mut r: Vec<u128> = Vec::new();
    let n = v.len();
    let mut k: usize = 0;
    while k < n
        invariant
            n == v@.len(),
            k <= n,
            r@.len() == k,
            u128_nats(r@) == u64_nats(v@.take(k as int)),
        decreases n - k,
    {
        let ghost old_r = r@;
        r.push(v[k] as u128);
        proof {
            let t = v@.take(k + 1);
            assert forall|i: int| 0 <= i < k + 1 implies #[trigger] u128_nats(r@)[i] == u64_nats(
                t,
            )[i] by {
                if i < k {
                    assert(u128_nats(old_r)[i] == u64_nats(v@.take(k as int))[i]);
                }
            }
        }
        k = k + 1;
        assert(u128_nats(r@) =~= u64_nats(v@.take(k as int)));
    }
    assert(v@.take(n as int) =~= v@);
    r
}

/// Padding keeps the text as a prefix and makes it at least `width` long,
/// adding only spaces and nothing when the text is already that long.
pub proof fn lemma_pad_right(s: Seq<char>, width: nat)
    ensures
        pad_right(s, width).len() == if s.len() >= width {
            s.len()
        } else {
            width
        },
        pad_right(s, width).take(s.len() as int) == s,
        forall|i: int|
            s.len() <= i < pad_right(s, width).len() ==> #[trigger] pad_right(s, width)[i] == ' ',
{
    assert(pad_right(s, width).take(s.len() as int) =~= s);
}

/// The value of a decimal digit character (meaningful for `'0'..='9'`).
pub open spec fn digit_value(c: char) -> int {
    c as int - '0' as int
}

/// The number a string of decimal digits denotes, most significant first.
pub open spec fn digits_value(s: Seq<char>) -> int
    decreases s.len(),
{
    if s.len() == 0 {
        0
    } else {
        digits_value(s.drop_last()) * 10 + digit_value(s.last())
    }
}

/// The decimal text of `n` is made of digits only, starts with a non-zero
/// digit unless `n` is zero (then it is just `0`), and denotes `n`.
pub proof fn lemma_decimal_denotes_its_number(n: nat)
    ensures
        decimal(n).len() >= 1,
        forall|i: int| 0 <= i < decimal(n).len() ==> '0' <= #[trigger] decimal(n)[i] <= '9',
        digits_value(decimal(n)) == n,
        n == 0 <==> decimal(n) == seq!['0'],
        n != 0 ==> decimal(n)[0] != '0',
    decreases n,
{
    if n < 10 {
        assert(digits_value(decimal(n)) == digits_value(decimal(n).drop_last()) * 10 + digit_value(
            decimal(n).last(),
        ));
        assert(decimal(n).drop_last() =~= Seq::<char>::empty());
    } else {
        lemma_decimal_denotes_its_number(n / 10);
        let d = decimal(n / 10);
        assert(decimal(n) == d.push(digit_char(n % 10)));
        assert(decimal(n).drop_last() =~= d);
        assert(n / 10 != 0);
        assert(decimal(n)[0] == d[0]);
        assert forall|i: int| 0 <= i < decimal(n).len() implies '0' <= #[trigger] decimal(n)[i]
            <= '9' by {
            if i < d.len() {
                assert(decimal(n)[i] == d[i]);
            }
        }
        assert(decimal(n) != seq!['0']) by {
            assert(decimal(n).len() >= 2);
        }
    }
}

/// Different numbers have different decimal texts.
pub proof fn lemma_decimal_injective(m: nat, n: nat)
    ensures
        decimal(m) == decimal(n) ==> m == n,
{
    lemma_decimal_denotes_its_number(m);
    lemma_decimal_denotes_its_number(n);
}

} // verus!
