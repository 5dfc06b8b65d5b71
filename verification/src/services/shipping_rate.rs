//! Shipping rates: the countries a rate applies to are stored as their
//! numbers, written in decimal and separated by commas.
use vstd::prelude::*;

use crate::text::chars_of;

verus! {

/// The decimal digit character for `d` in `0..10`.
pub open spec fn digit_char(d: int) -> char {
    (d + 48) as char
}

/// Whether `c` is a decimal digit.
pub open spec fn is_digit(c: char) -> bool {
    '0' <= c <= '9'
}

/// Whether every character of `s` is a decimal digit.
pub open spec fn all_digits(s: Seq<char>) -> bool {
    forall|i: int| 0 <= i < s.len() ==> is_digit(#[trigger] s[i])
}

/// The digits of `n` in decimal, without leading zeros (`0` for zero).
pub open spec fn decimal_digits(n: nat) -> Seq<char>
    decreases n,
{
    if n < 10 {
        seq![digit_char(n as int)]
    } else {
        decimal_digits(n / 10) + seq![digit_char((n % 10) as int)]
    }
}

/// `n` written in decimal, with a leading `-` when it is negative.
pub open spec fn decimal_of(n: int) -> Seq<char> {
    if n < 0 {
        seq!['-'] + decimal_digits((-n) as nat)
    } else {
        decimal_digits(n as nat)
    }
}

/// The number that the decimal digits `s` stand for.
pub open spec fn digits_value(s: Seq<char>) -> int
    decreases s.len(),
{
    if s.len() == 0 {
        0
    } else {
        digits_value(s.drop_last()) * 10 + (s.last() as int - 48)
    }
}

/// `s` read as a 32-bit integer: an optional `+` or `-` followed by one or
/// more decimal digits, whose value fits.
pub open spec fn spec_parse_i32(s: Seq<char>) -> Option<i32> {
    if s.len() == 0 {
        None
    } else {
        let neg = s[0] == '-';
        let ds = if s[0] == '-' || s[0] == '+' {
            s.drop_first()
        } else {
            s
        };
        let v = if neg {
            -digits_value(ds)
        } else {
            digits_value(ds)
        };
        if ds.len() == 0 || !all_digits(ds) || !(i32::MIN <= v <= i32::MAX) {
            None
        } else {
            Some(v as i32)
        }
    }
}

/// Whether `s` holds no comma.
pub open spec fn comma_free(s: Seq<char>) -> bool {
    forall|i: int| 0 <= i < s.len() ==> s[i] != ','
}

/// The pieces `ps` joined by commas.
pub open spec fn join_comma(ps: Seq<Seq<char>>) -> Seq<char>
    decreases ps.len(),
{
    if ps.len() == 0 {
        seq![]
    } else if ps.len() == 1 {
        ps[0]
    } else {
        ps[0] + seq![','] + join_comma(ps.drop_first())
    }
}

/// Whether `ps` are the pieces of `s` between its commas.
pub open spec fn is_comma_split(s: Seq<char>, ps: Seq<Seq<char>>) -> bool {
    &&& ps.len() >= 1
    &&& join_comma(ps) == s
    &&& forall|k: int| 0 <= k < ps.len() ==> comma_free(#[trigger] ps[k])
}

/// The pieces of `s` between its commas (one piece where it has none).
pub open spec fn split_comma(s: Seq<char>) -> Seq<Seq<char>> {
    choose|ps: Seq<Seq<char>>| is_comma_split(s, ps)
}

/// The stored form of a list of country numbers: nothing for an empty list,
/// else their decimal forms joined by commas.
pub open spec fn spec_encode_countries(codes: Seq<i32>) -> Option<Seq<char>> {
    if codes.len() == 0 {
        None
    } else {
        Some(join_comma(codes.map_values(|c: i32| decimal_of(c as int))))
    }
}

/// Whether every piece of the stored form `s` reads as a 32-bit integer.
pub open spec fn countries_readable(s: Seq<char>) -> bool {
    forall|k: int|
        0 <= k < split_comma(s).len() ==> (#[trigger] spec_parse_i32(split_comma(s)[k])) is Some
}

/// The country numbers that a stored form stands for.
pub open spec fn spec_decode_countries(countries: Option<Seq<char>>) -> Seq<i32> {
    match countries {
        None => seq![],
        Some(s) => split_comma(s).map_values(|p: Seq<char>| spec_parse_i32(p)->0),
    }
}

proof fn lemma_join_push(ps: Seq<Seq<char>>, p: Seq<char>)
    requires
        ps.len() >= 1,
    ensures
        join_comma(ps.push(p)) == join_comma(ps) + seq![','] + p,
    decreases ps.len(),
{
    let q = ps.push(p);
    if ps.len() == 1 {
        assert(q.drop_first() =~= seq![p]);
        assert(join_comma(seq![p]) == p);
        assert(q[0] == ps[0]);
        assert(join_comma(q) == q[0] + seq![','] + join_comma(q.drop_first()));
    } else {
        assert(q.drop_first() =~= ps.drop_first().push(p));
        lemma_join_push(ps.drop_first(), p);
        assert(q[0] == ps[0]);
        assert(join_comma(q) == q[0] + seq![','] + join_comma(q.drop_first()));
        assert(join_comma(ps) == ps[0] + seq![','] + join_comma(ps.drop_first()));
        assert(join_comma(q) =~= join_comma(ps) + seq![','] + p);
    }
}

proof fn lemma_join_extend_last(ps: Seq<Seq<char>>, x: Seq<char>)
    requires
        ps.len() >= 1,
    ensures
        join_comma(ps.update(ps.len() - 1, ps.last() + x)) == join_comma(ps) + x,
    decreases ps.len(),
{
    let qs = ps.update(ps.len() - 1, ps.last() + x);
    if ps.len() == 1 {
    } else {
        assert(qs.drop_first() =~= ps.drop_first().update(
            ps.drop_first().len() - 1,
            ps.drop_first().last() + x,
        ));
        lemma_join_extend_last(ps.drop_first(), x);
    }
}

proof fn lemma_join_len(ps: Seq<Seq<char>>)
    requires
        ps.len() >= 2,
    ensures
        join_comma(ps) == ps[0] + seq![','] + join_comma(ps.drop_first()),
        join_comma(ps)[ps[0].len() as int] == ',',
{
}

/// The pieces of a string between its commas are determined by the string.
pub proof fn lemma_comma_split_unique(s: Seq<char>, ps1: Seq<Seq<char>>, ps2: Seq<Seq<char>>)
    requires
        is_comma_split(s, ps1),
        is_comma_split(s, ps2),
    ensures
        ps1 == ps2,
    decreases ps1.len(),
{
    if ps1.len() == 1 && ps2.len() == 1 {
        assert(ps1 =~= ps2);
    } else if ps1.len() == 1 {
        lemma_join_len(ps2);
        assert(comma_free(ps1[0]));
        assert(s[ps2[0].len() as int] == ',');
    } else if ps2.len() == 1 {
        lemma_join_len(ps1);
        assert(comma_free(ps2[0]));
        assert(s[ps1[0].len() as int] == ',');
    } else {
        lemma_join_len(ps1);
        lemma_join_len(ps2);
        let a = ps1[0].len() as int;
        let b = ps2[0].len() as int;
        if a < b {
            assert(comma_free(ps2[0]));
            assert(s[a] == ps2[0][a]);
        } else if b < a {
            assert(comma_free(ps1[0]));
            assert(s[b] == ps1[0][b]);
        } else {
            assert(ps1[0] =~= s.subrange(0, a));
            assert(ps2[0] =~= s.subrange(0, a));
            let rest = s.subrange(a + 1, s.len() as int);
            assert(join_comma(ps1.drop_first()) =~= rest);
            assert(join_comma(ps2.drop_first()) =~= rest);
            assert forall|k: int| 0 <= k < ps1.drop_first().len() implies comma_free(
                #[trigger] ps1.drop_first()[k],
            ) by {
                assert(comma_free(ps1[k + 1]));
            }
            assert forall|k: int| 0 <= k < ps2.drop_first().len() implies comma_free(
                #[trigger] ps2.drop_first()[k],
            ) by {
                assert(comma_free(ps2[k + 1]));
            }
            lemma_comma_split_unique(rest, ps1.drop_first(), ps2.drop_first());
            assert(ps1 =~= ps2) by {
                assert forall|k: int| 0 <= k < ps1.len() implies ps1[k] == ps2[k] by {
                    if k > 0 {
                        assert(ps1[k] == ps1.drop_first()[k - 1]);
                        assert(ps2[k] == ps2.drop_first()[k - 1]);
                    }
                }
            }
        }
    }
}

/// Any comma split of `s` is the one that `split_comma` names.
pub proof fn lemma_split_comma_is(s: Seq<char>, ps: Seq<Seq<char>>)
    requires
        is_comma_split(s, ps),
    ensures
        split_comma(s) == ps,
{
    lemma_comma_split_unique(s, split_comma(s), ps);
}

proof fn lemma_decimal_digits(n: nat)
    ensures
        decimal_digits(n).len() >= 1,
        all_digits(decimal_digits(n)),
        digits_value(decimal_digits(n)) == n,
    decreases n,
{
    if n < 10 {
        let c = digit_char(n as int);
        assert(seq![c].drop_last() =~= Seq::<char>::empty());
        assert(c as int == n + 48);
        assert(digits_value(Seq::<char>::empty()) == 0);
        assert(decimal_digits(n) == seq![c]);
        assert(digits_value(seq![c]) == digits_value(seq![c].drop_last()) * 10 + (seq![c].last() as int - 48));
    } else {
        lemma_decimal_digits(n / 10);
        let d = decimal_digits(n / 10);
        let c = digit_char((n % 10) as int);
        assert(c as int == (n % 10) + 48);
        assert((d + seq![c]).drop_last() =~= d);
        assert((d + seq![c]).last() == c);
        assert(decimal_digits(n) == d + seq![c]);
        assert(digits_value(d + seq![c]) == digits_value((d + seq![c]).drop_last()) * 10 + ((d + seq![c]).last() as int - 48));
        assert(all_digits(d + seq![c])) by {
            assert forall|i: int| 0 <= i < (d + seq![c]).len() implies is_digit(
                #[trigger] (d + seq![c])[i],
            ) by {
                if i < d.len() {
                    assert((d + seq![c])[i] == d[i]);
                }
            }
        }
    }
}

/// Reading back the decimal form of a 32-bit integer gives that integer.
pub proof fn lemma_parse_decimal(n: i32)
    ensures
        spec_parse_i32(decimal_of(n as int)) == Some(n),
        comma_free(decimal_of(n as int)),
{
    if n < 0 {
        lemma_decimal_digits((-n) as nat);
        let d = decimal_digits((-n) as nat);
        assert((seq!['-'] + d).drop_first() =~= d);
        assert(comma_free(seq!['-'] + d)) by {
            assert forall|i: int| 0 <= i < (seq!['-'] + d).len() implies (seq!['-'] + d)[i]
                != ',' by {
                if i > 0 {
                    assert((seq!['-'] + d)[i] == d[i - 1]);
                    assert(is_digit(d[i - 1]));
                }
            }
        }
    } else {
        lemma_decimal_digits(n as nat);
        let d = decimal_digits(n as nat);
        assert(is_digit(d[0]));
        assert(comma_free(d)) by {
            assert forall|i: int| 0 <= i < d.len() implies d[i] != ',' by {
                assert(is_digit(d[i]));
            }
        }
    }
}

/// Storing a list of country numbers and reading it back gives the list.
pub proof fn lemma_countries_round_trip(codes: Seq<i32>)
    ensures
        spec_decode_countries(spec_encode_countries(codes)) == codes,
{
    if codes.len() > 0 {
        let ps = codes.map_values(|c: i32| decimal_of(c as int));
        let s = join_comma(ps);
        assert forall|k: int| 0 <= k < ps.len() implies comma_free(#[trigger] ps[k]) by {
            lemma_parse_decimal(codes[k]);
        }
        lemma_split_comma_is(s, ps);
        let back = ps.map_values(|p: Seq<char>| spec_parse_i32(p)->0);
        assert forall|k: int| 0 <= k < codes.len() implies back[k] == codes[k] by {
            lemma_parse_decimal(codes[k]);
        }
        assert(back =~= codes);
    }
}

/// The one-character string of the digit `d`.
fn digit_str(d: u32) -> (r: &'static str)
    requires
        d < 10,
    ensures
        r@ == seq![digit_char(d as int)],
{
    proof {
        reveal_strlit("0");
        reveal_strlit("1");
        reveal_strlit("2");
        reveal_strlit("3");
        reveal_strlit("4");
        reveal_strlit("5");
        reveal_strlit("6");
        reveal_strlit("7");
        reveal_strlit("8");
        reveal_strlit("9");
    }
    if d == 0 {
        "0"
    } else if d == 1 {
        "1"
    } else if d == 2 {
        "2"
    } else if d == 3 {
        "3"
    } else if d == 4 {
        "4"
    } else if d == 5 {
        "5"
    } else if d == 6 {
        "6"
    } else if d == 7 {
        "7"
    } else if d == 8 {
        "8"
    } else {
        "9"
    }
}

fn append_digits(s: &mut String, m: u32)
    ensures
        final(s)@ == old(s)@ + decimal_digits(m as nat),
    decreases m,
{
    if m >= 10 {
        append_digits(s, m / 10);
    }
    s.append(digit_str(m % 10));
    proof {
        if m >= 10 {
            assert(decimal_digits(m as nat) == decimal_digits((m / 10) as nat) + seq![
                digit_char((m % 10) as int),
            ]);
        }
    }
}

/// Appends `n` in decimal to `s`.
pub fn append_decimal(s: &mut String, n: i32)
    ensures
        final(s)@ == old(s)@ + decimal_of(n as int),
{
    if n < 0 {
        s.append("-");
        proof {
            reveal_strlit("-");
        }
        let m: u32 = (-(n as i64)) as u32;
        append_digits(s, m);
    } else {
        append_digits(s, n as u32);
    }
}

/// Reads the characters `p` as a 32-bit integer.
pub fn parse_i32_chars(p: &Vec<char>) -> (r: Option<i32>)
    ensures
        r == spec_parse_i32(p@),
{
    let n = p.len();
    if n == 0 {
        return None;
    }
    let neg = p[0] == '-';
    let start: usize = if p[0] == '-' || p[0] == '+' {
        1
    } else {
        0
    };
    let ghost ds = if p@[0] == '-' || p@[0] == '+' {
        p@.drop_first()
    } else {
        p@
    };
    assert(ds =~= p@.subrange(start as int, n as int));
    if start == n {
        return None;
    }
    if !all_digits_exec(p, start) {
        return None;
    }
    let mut acc: i64 = 0;
    let mut i: usize = start;
    while i < n
        invariant
            start <= i <= n == p@.len(),
            ds == p@.subrange(start as int, n as int),
            ds == (if p@[0] == '-' || p@[0] == '+' {
                p@.drop_first()
            } else {
                p@
            }),
            all_digits(ds),
            acc == digits_value(p@.subrange(start as int, i as int)),
            0 <= acc <= 2147483648,
        decreases n - i,
    {
        let c = p[i];
        assert(is_digit(c)) by {
            assert(ds[i - start] == c);
        }
        let d = (c as u32 - 48) as i64;
        assert(p@.subrange(start as int, i + 1).drop_last() =~= p@.subrange(start as int, i as int));
        let next = acc * 10 + d;
        assert(digits_value(p@.subrange(start as int, i + 1)) == next);
        if next > 2147483648 {
            proof {
                lemma_digits_value_grows(ds, i + 1 - start);
                assert(ds.subrange(0, i + 1 - start) =~= p@.subrange(start as int, i + 1));
                assert(digits_value(ds) > 2147483648);
                let v = if p@[0] == '-' { -digits_value(ds) } else { digits_value(ds) };
                assert(!(i32::MIN <= v <= i32::MAX));
            }
            return None;
        }
        acc = next;
        i = i + 1;
    }
    assert(p@.subrange(start as int, n as int) =~= ds);
    if neg {
        Some((-acc) as i32)
    } else if acc > 2147483647 {
        None
    } else {
        Some(acc as i32)
    }
}

/// Whether the characters of `p` from `from` on are all decimal digits.
fn all_digits_exec(p: &Vec<char>, from: usize) -> (r: bool)
    requires
        from <= p@.len(),
    ensures
        r == all_digits(p@.subrange(from as int, p@.len() as int)),
{
    let n = p.len();
    let mut i = from;
    while i < n
        invariant
            from <= i <= n == p@.len(),
            all_digits(p@.subrange(from as int, i as int)),
        decreases n - i,
    {
        if p[i] < '0' || p[i] > '9' {
            assert(p@.subrange(from as int, n as int)[i - from] == p@[i as int]);
            return false;
        }
        assert forall|j: int| 0 <= j < i + 1 - from implies is_digit(
            #[trigger] p@.subrange(from as int, i + 1)[j],
        ) by {
            if j < i - from {
                assert(p@.subrange(from as int, i as int)[j] == p@.subrange(from as int, i + 1)[j]);
            }
        }
        i = i + 1;
    }
    true
}

/// Among digit strings, a longer prefix never stands for a smaller number.
proof fn lemma_digits_value_grows(s: Seq<char>, k: int)
    requires
        0 <= k <= s.len(),
        all_digits(s),
    ensures
        digits_value(s.subrange(0, k)) <= digits_value(s),
        0 <= digits_value(s.subrange(0, k)),
    decreases s.len() - k,
{
    lemma_digits_value_nonneg(s.subrange(0, k));
    if k < s.len() {
        let t = s.subrange(0, k + 1);
        assert(t.drop_last() =~= s.subrange(0, k));
        assert(is_digit(s[k]));
        lemma_digits_value_grows(s, k + 1);
    } else {
        assert(s.subrange(0, k) =~= s);
    }
}

proof fn lemma_digits_value_nonneg(s: Seq<char>)
    requires
        all_digits(s),
    ensures
        0 <= digits_value(s),
    decreases s.len(),
{
    if s.len() > 0 {
        assert(all_digits(s.drop_last())) by {
            assert forall|i: int| 0 <= i < s.drop_last().len() implies is_digit(
                #[trigger] s.drop_last()[i],
            ) by {
                assert(s.drop_last()[i] == s[i]);
            }
        }
        lemma_digits_value_nonneg(s.drop_last());
        assert(is_digit(s[s.len() - 1]));
    }
}

/// Shipping rates of offers.
pub struct ShippingRateService {}

impl ShippingRateService {
    /// Writes country numbers as they are stored: nothing for none, else their
    /// decimal forms separated by commas.
    pub fn encode_countries(country_codes: Vec<i32>) -> (r: Option<String>)
        ensures
            r matches Some(s) ==> spec_encode_countries(country_codes@) == Some(s@),
            r is None ==> spec_encode_countries(country_codes@) is None,
    {
        let n = country_codes.len();
        if n == 0 {
            return None;
        }
        let ghost ps = country_codes@.map_values(|c: i32| decimal_of(c as int));
        let mut s = String::new();
        let mut i: usize = 0;
        while i < n
            invariant
                n == country_codes@.len(),
                0 <= i <= n,
                ps == country_codes@.map_values(|c: i32| decimal_of(c as int)),
                s@ == join_comma(ps.take(i as int)),
            decreases n - i,
        {
            if i > 0 {
                s.append(",");
                proof {
                    reveal_strlit(",");
                }
            }
            append_decimal(&mut s, country_codes[i]);
            proof {
                assert(ps.take(i + 1) =~= ps.take(i as int).push(ps[i as int]));
                if i > 0 {
                    lemma_join_push(ps.take(i as int), ps[i as int]);
                } else {
                    assert(ps.take(1) =~= seq![ps[0]]);
                }
            }
            i = i + 1;
        }
        assert(ps.take(n as int) =~= ps);
        Some(s)
    }

    /// Reads the stored country numbers back: none for nothing stored.
    pub fn decode_countries(countries: Option<String>) -> (r: Vec<i32>)
        requires
            countries matches Some(s) ==> countries_readable(s@),
        ensures
            r@ == spec_decode_countries(
                match countries {
                    Some(s) => Some(s@),
                    None => None,
                },
            ),
    {
        match countries {
            None => Vec::new(),
            Some(s) => {
                let pieces = split_commas(s.as_str());
                let ghost ps = pieces.0@;
                proof {
                    lemma_split_comma_is(s@, ps);
                }
                let pv = pieces.1;
                let mut r: Vec<i32> = Vec::new();
                let mut k: usize = 0;
                while k < pv.len()
                    invariant
                        pv@.len() == ps.len(),
                        forall|j: int| 0 <= j < pv@.len() ==> (#[trigger] pv@[j])@ == ps[j],
                        split_comma(s@) == ps,
                        countries_readable(s@),
                        0 <= k <= pv@.len(),
                        r@ =~= ps.take(k as int).map_values(|p: Seq<char>| spec_parse_i32(p)->0),
                    decreases pv@.len() - k,
                {
                    let v = parse_i32_chars(&pv[k]);
                    assert(spec_parse_i32(ps[k as int]) is Some);
                    match v {
                        Some(x) => r.push(x),
                        None => {},
                    }
                    assert(ps.take(k + 1) =~= ps.take(k as int).push(ps[k as int]));
                    k = k + 1;
                }
                assert(ps.take(pv@.len() as int) =~= ps);
                r
            },
        }
    }

    /// Whether a stored form of country numbers can be read back.
    pub fn countries_decodable(countries: &Option<String>) -> (r: bool)
        ensures
            r == (countries matches Some(s) ==> countries_readable(s@)),
    {
        match countries {
            None => true,
            Some(s) => {
                let pieces = split_commas(s.as_str());
                let ghost ps = pieces.0@;
                proof {
                    lemma_split_comma_is(s@, ps);
                }
                let pv = pieces.1;
                let mut k: usize = 0;
                while k < pv.len()
                    invariant
                        pv@.len() == ps.len(),
                        forall|j: int| 0 <= j < pv@.len() ==> (#[trigger] pv@[j])@ == ps[j],
                        split_comma(s@) == ps,
                        *countries == Some(*s),
                        0 <= k <= pv@.len(),
                        forall|j: int| 0 <= j < k ==> (#[trigger] spec_parse_i32(ps[j])) is Some,
                    decreases pv@.len() - k,
                {
                    if parse_i32_chars(&pv[k]).is_none() {
                        assert(spec_parse_i32(split_comma(s@)[k as int]) is None);
                        assert(!countries_readable(s@));
                        return false;
                    }
                    k = k + 1;
                }
                true
            },
        }
    }
}

/// The pieces of `s` between its commas.
fn split_commas(s: &str) -> (r: (Ghost<Seq<Seq<char>>>, Vec<Vec<char>>))
    ensures
        is_comma_split(s@, r.0@),
        r.1@.len() == r.0@.len(),
        forall|j: int| 0 <= j < r.1@.len() ==> (#[trigger] r.1@[j])@ == r.0@[j],
{
    let v = chars_of(s);
    let n = v.len();
    let mut done: Vec<Vec<char>> = Vec::new();
    let mut piece: Vec<char> = Vec::new();
    let ghost mut ds: Seq<Seq<char>> = seq![];
    let mut i: usize = 0;
    while i < n
        invariant
            i <= n == v@.len(),
            v@ == s@,
            done@.len() == ds.len(),
            forall|j: int| 0 <= j < done@.len() ==> (#[trigger] done@[j])@ == ds[j],
            forall|j: int| 0 <= j < ds.len() ==> comma_free(#[trigger] ds[j]),
            comma_free(piece@),
            join_comma(ds.push(piece@)) == v@.take(i as int),
        decreases n - i,
    {
        let c = v[i];
        let ghost old_ds = ds;
        let ghost old_piece = piece@;
        if c == ',' {
            proof {
                lemma_join_push(ds.push(piece@), seq![]);
                ds = ds.push(piece@);
            }
            done.push(piece);
            piece = Vec::new();
            assert(ds.push(piece@) =~= old_ds.push(old_piece).push(seq![]));
        } else {
            piece.push(c);
            proof {
                assert(piece@ =~= old_piece + seq![c]);
                lemma_join_extend_last(ds.push(old_piece), seq![c]);
                assert(ds.push(old_piece).update(ds.len() as int, old_piece + seq![c]) =~= ds.push(
                    piece@,
                ));
                assert forall|j: int| 0 <= j < piece@.len() implies piece@[j] != ',' by {
                    if j < old_piece.len() {
                        assert(piece@[j] == old_piece[j]);
                    }
                }
            }
        }
        assert(v@.take(i + 1) =~= v@.take(i as int) + seq![c]);
        i = i + 1;
    }
    let ghost last = piece@;
    done.push(piece);
    proof {
        ds = ds.push(last);
        assert(v@.take(n as int) =~= v@);
    }
    (Ghost(ds), done)
}

proof fn lemma_decimal_digits_lead(n: nat)
    ensures
        n >= 1 ==> decimal_digits(n)[0] != '0',
    decreases n,
{
    if n >= 10 {
        lemma_decimal_digits(n / 10);
        lemma_decimal_digits_lead(n / 10);
        assert((decimal_digits(n / 10) + seq![digit_char((n % 10) as int)])[0] == decimal_digits(n / 10)[0]);
    } else if n >= 1 {
        assert(digit_char(n as int) as int == n + 48);
    }
}

/// The stored form of country numbers is their decimal forms joined by
/// commas: no numbers are stored as nothing, one number as its decimal form,
/// and one more number adds a comma and its decimal form. The decimal form
/// of a number is its digits, most significant first, without a leading
/// zero, led by `-` where the number is negative.
pub proof fn lemma_countries_stored_form(codes: Seq<i32>, c: i32)
    ensures
        spec_encode_countries(seq![]) is None,
        spec_encode_countries(seq![c]) == Some(decimal_of(c as int)),
        codes.len() > 0 ==> spec_encode_countries(codes.push(c)) == Some(
            spec_encode_countries(codes)->0 + seq![','] + decimal_of(c as int),
        ),
        c >= 0 ==> all_digits(decimal_of(c as int)) && digits_value(decimal_of(c as int)) == c
            && decimal_of(c as int).len() >= 1 && (c > 0 ==> decimal_of(c as int)[0] != '0'),
        c < 0 ==> decimal_of(c as int)[0] == '-' && all_digits(decimal_of(c as int).drop_first())
            && digits_value(decimal_of(c as int).drop_first()) == -c && decimal_of(
            c as int,
        ).drop_first()[0] != '0',
{
    let f = |x: i32| decimal_of(x as int);
    assert(seq![c].map_values(f) =~= seq![decimal_of(c as int)]);
    assert(Seq::<i32>::empty().len() == 0);
    if codes.len() > 0 {
        assert(codes.push(c).map_values(f) =~= codes.map_values(f).push(decimal_of(c as int)));
        lemma_join_push(codes.map_values(f), decimal_of(c as int));
    }
    if c >= 0 {
        lemma_decimal_digits(c as nat);
        lemma_decimal_digits_lead(c as nat);
    } else {
        lemma_decimal_digits((-c) as nat);
        lemma_decimal_digits_lead((-c) as nat);
        assert((seq!['-'] + decimal_digits((-c) as nat)).drop_first() =~= decimal_digits((-c) as nat));
    }
}

/// Decimal digits are read most significant first: a digit put in front of
/// `s` counts ten to the power of the length of `s` times its value.
pub proof fn lemma_digits_most_significant_first(d: char, s: Seq<char>)
    ensures
        digits_value(seq![d] + s) == (d as int - 48) * vstd::arithmetic::power::pow(10, s.len())
            + digits_value(s),
    decreases s.len(),
{
    vstd::arithmetic::power::lemma_pow0(10);
    if s.len() == 0 {
        let t = seq![d] + s;
        assert(t.drop_last() =~= Seq::<char>::empty());
        assert(t.last() == d);
        assert(digits_value(t) == digits_value(t.drop_last()) * 10 + (t.last() as int - 48));
    } else {
        lemma_digits_most_significant_first(d, s.drop_last());
        assert((seq![d] + s).drop_last() =~= seq![d] + s.drop_last());
        assert((seq![d] + s).last() == s.last());
        let n = s.drop_last().len();
        vstd::arithmetic::power::lemma_pow_adds(10, n, 1);
        vstd::arithmetic::power::lemma_pow1(10);
        assert(((d as int - 48) * vstd::arithmetic::power::pow(10, n) + digits_value(s.drop_last())) * 10
            == (d as int - 48) * (vstd::arithmetic::power::pow(10, n) * 10) + digits_value(
            s.drop_last(),
        ) * 10) by (nonlinear_arith);
    }
}

/// A country number is read from one or more decimal digits, led by an
/// optional `+` or `-`, whose value fits in 32 bits; anything else, the
/// empty text among it, is not read.
pub proof fn lemma_parse_i32_reads_signed_digits(ds: Seq<char>)
    requires
        ds.len() > 0,
        all_digits(ds),
    ensures
        spec_parse_i32(Seq::<char>::empty()) is None,
        spec_parse_i32(seq!['-']) is None,
        spec_parse_i32(seq!['+']) is None,
        digits_value(ds) <= i32::MAX ==> spec_parse_i32(ds) == Some(digits_value(ds) as i32)
            && spec_parse_i32(seq!['+'] + ds) == Some(digits_value(ds) as i32),
        digits_value(ds) <= -(i32::MIN as int) ==> spec_parse_i32(seq!['-'] + ds) == Some(
            (-digits_value(ds)) as i32,
        ),
        digits_value(ds) > -(i32::MIN as int) ==> spec_parse_i32(seq!['-'] + ds) is None,
        digits_value(ds) > i32::MAX ==> spec_parse_i32(ds) is None,
{
    assert((seq!['-'] + ds).drop_first() =~= ds);
    assert((seq!['+'] + ds).drop_first() =~= ds);
    assert(ds[0] != '-' && ds[0] != '+') by {
        assert(is_digit(ds[0]));
    }
    assert(seq!['-'].drop_first().len() == 0);
    assert(seq!['+'].drop_first().len() == 0);
    lemma_digits_value_nonneg(ds);
}

} // verus!
