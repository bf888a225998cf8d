//! Text building blocks shared by the ledger messages: decimal rendering of
//! integers and the `Debug` rendering of strings and optional strings.
use vstd::prelude::*;

verus! {

/// The character of a decimal digit.
pub open spec fn digit_char(d: nat) -> char {
    if d == 0 {
        '0'
    } else if d == 1 {
        '1'
    } else if d == 2 {
        '2'
    } else if d == 3 {
        '3'
    } else if d == 4 {
        '4'
    } else if d == 5 {
        '5'
    } else if d == 6 {
        '6'
    } else if d == 7 {
        '7'
    } else if d == 8 {
        '8'
    } else {
        '9'
    }
}

/// Decimal digits of a natural number, most significant first, without
/// leading zeros (zero itself is "0").
pub open spec fn nat_decimal(n: nat) -> Seq<char>
    decreases n,
{
    if n < 10 {
        seq![digit_char(n)]
    } else {
        nat_decimal(n / 10) + seq![digit_char(n % 10)]
    }
}

/// Decimal text of an integer, as `{}` prints it: a minus sign before the
/// digits of a negative number.
pub open spec fn int_decimal(n: int) -> Seq<char> {
    if n < 0 {
        seq!['-'] + nat_decimal((-n) as nat)
    } else {
        nat_decimal(n as nat)
    }
}

fn digit_str(d: u64) -> (s: &'static str)
    requires
        d < 10,
    ensures
        s@ == seq![digit_char(d as nat)],
{
    proof {
        reveal_strlit("0");
        reveal_strlit("1");
        reveal_strlit("2");
        reveal_strlit("3");
        reveal_strlit("4");
        reveal_strlit("5");
        reveal_strlit("6");
        reveal_strlit("7");
        reveal_strlit("8");
        reveal_strlit("9");
    }
    if d == 0 {
        "0"
    } else if d == 1 {
        "1"
    } else if d == 2 {
        "2"
    } else if d == 3 {
        "3"
    } else if d == 4 {
        "4"
    } else if d == 5 {
        "5"
    } else if d == 6 {
        "6"
    } else if d == 7 {
        "7"
    } else if d == 8 {
        "8"
    } else {
        "9"
    }
}

/// Appends the decimal digits of `n` to `s`.
pub fn append_decimal(s: &mut String, n: u64)
    ensures
        final(s)@ == old(s)@ + nat_decimal(n as nat),
    decreases n,
{
    if n >= 10 {
        append_decimal(s, n / 10);
    }
    s.append(digit_str(n % 10));
}

/// Appends the decimal text of `n` (with its sign) to `s`.
pub fn append_i32(s: &mut String, n: i32)
    ensures
        final(s)@ == old(s)@ + int_decimal(n as int),
{
    if n < 0 {
        s.append("-");
        proof {
            reveal_strlit("-");
        }
        let m: i64 = n as i64;
        let mag: u64 = (-m) as u64;
        append_decimal(s, mag);
    } else {
        append_decimal(s, n as u64);
    }
}

/// The decimal text of `n`, as `n.to_string()` renders an `i32`.
pub fn i32_to_string(n: i32) -> (s: String)
    ensures
        s@ == int_decimal(n as int),
{
    let mut s = String::new();
    append_i32(&mut s, n);
    s
}

/// What `format!("{:?}", s)` writes for a string slice `s`: std's `Debug`
/// rendering, the text in double quotes with special characters escaped.
pub uninterp spec fn str_debug(s: Seq<char>) -> Seq<char>;

/// std's `Debug` rendering of a string slice (`<str as Debug>::fmt`, through
/// `format!`). The contract claims only that the result is a function of the
/// characters of `s`, named `str_debug`; the escaping itself is left unsaid.
#[verifier::external_body]
pub(crate) fn debug_str(s: &str) -> (r: String)
    ensures
        r@ == str_debug(s@),
{
    format!("{:?}", s)
}

/// The characters of an optional string slice.
pub open spec fn opt_str_view(o: Option<&str>) -> Option<Seq<char>> {
    match o {
        Some(s) => Some(s@),
        None => None,
    }
}

/// The characters of an optional string.
pub open spec fn opt_string_view(o: Option<String>) -> Option<Seq<char>> {
    match o {
        Some(s) => Some(s@),
        None => None,
    }
}

/// `Debug` of an `Option<&str>`: `Some(..)` around the string's rendering, or
/// `None`.
pub open spec fn option_str_debug(o: Option<Seq<char>>) -> Seq<char> {
    match o {
        Some(s) => "Some("@ + str_debug(s) + ")"@,
        None => "None"@,
    }
}

/// The rendering of `format!("{:?}", o)` for an optional string slice.
pub fn debug_option_str(o: Option<&str>) -> (r: String)
    ensures
        r@ == option_str_debug(opt_str_view(o)),
{
    match o {
        Some(s) => {
            let mut r = String::from_str("Some(");
            let d = debug_str(s);
            r.append(d.as_str());
            r.append(")");
            r
        },
        None => String::from_str("None"),
    }
}

/// The text of an optional value where an absent one reads `null`.
pub open spec fn or_null(o: Option<Seq<char>>) -> Seq<char> {
    match o {
        Some(s) => s,
        None => "null"@,
    }
}

/// Appends `o`'s text, or `null` when it is absent.
pub fn append_or_null(s: &mut String, o: &Option<String>)
    ensures
        final(s)@ == old(s)@ + or_null(opt_string_view(*o)),
{
    match o {
        Some(v) => s.append(v.as_str()),
        None => s.append("null"),
    }
}

/// The number that a text of decimal digits stands for, reading the digits
/// from the most significant one.
pub open spec fn decimal_value(s: Seq<char>) -> int
    decreases s.len(),
{
    if s.len() == 0 {
        0
    } else {
        decimal_value(s.drop_last()) * 10 + (s.last() as int - '0' as int)
    }
}

/// Whether every character of a text is a decimal digit.
pub open spec fn all_digits(s: Seq<char>) -> bool {
    forall|i: int| 0 <= i < s.len() ==> '0' <= #[trigger] s[i] <= '9'
}

/// The character of a decimal digit is a digit, and stands for it.
pub proof fn lemma_digit_char(d: nat)
    requires
        d < 10,
    ensures
        '0' <= digit_char(d) <= '9',
        digit_char(d) as int - '0' as int == d,
        d != 0 ==> digit_char(d) != '0',
{
}

/// The decimal text of a natural number is made of digits, has no leading
/// zero (unless it is "0"), and reads back as that number.
pub proof fn lemma_nat_decimal_reads_back(n: nat)
    ensures
        nat_decimal(n).len() > 0,
        all_digits(nat_decimal(n)),
        n != 0 ==> nat_decimal(n)[0] != '0',
        nat_decimal(n).len() == 1 <==> n < 10,
        decimal_value(nat_decimal(n)) == n,
    decreases n,
{
    let s = nat_decimal(n);
    if n < 10 {
        lemma_digit_char(n);
        assert(s.drop_last() =~= seq![]);
        assert(decimal_value(s.drop_last()) == 0);
        assert(decimal_value(s) == decimal_value(s.drop_last()) * 10 + (s.last() as int - '0' as int));
    } else {
        lemma_digit_char(n % 10);
        lemma_nat_decimal_reads_back(n / 10);
        let p = nat_decimal(n / 10);
        assert(s.drop_last() =~= p);
        assert(s.last() == digit_char(n % 10));
        assert(s[0] == p[0]);
        assert forall|i: int| 0 <= i < s.len() implies '0' <= #[trigger] s[i] <= '9' by {
            if i < p.len() {
                assert(s[i] == p[i]);
            }
        }
        assert(n == (n / 10) * 10 + n % 10);
        assert(decimal_value(s) == decimal_value(p) * 10 + (s.last() as int - '0' as int));
        assert(decimal_value(s) == (n / 10) * 10 + n % 10);
    }
}

/// Different integers have different decimal texts, and the text of a
/// negative number, and only of one, starts with a minus sign.
pub proof fn lemma_int_decimal_injective(a: int, b: int)
    ensures
        int_decimal(a) == int_decimal(b) <==> a == b,
        int_decimal(a).len() > 0,
        int_decimal(a)[0] == '-' <==> a < 0,
{
    lemma_nat_decimal_reads_back((if a < 0 { -a } else { a }) as nat);
    lemma_nat_decimal_reads_back((if b < 0 { -b } else { b }) as nat);
    if a < 0 {
        let d = nat_decimal((-a) as nat);
        assert(int_decimal(a).drop_first() =~= d);
    }
    if b < 0 {
        let d = nat_decimal((-b) as nat);
        assert(int_decimal(b).drop_first() =~= d);
    }
    if int_decimal(a) == int_decimal(b) {
        assert(int_decimal(a)[0] == int_decimal(b)[0]);
    }
}

/// In two texts that share what comes before and what comes after, the
/// parts in between are the same when the texts are.
pub proof fn lemma_middle_determined(a: Seq<char>, x1: Seq<char>, x2: Seq<char>, b: Seq<char>)
    requires
        a + x1 + b == a + x2 + b,
    ensures
        x1 == x2,
{
    let s1 = a + x1 + b;
    let s2 = a + x2 + b;
    assert(s1.len() == s2.len());
    assert(x1.len() == x2.len());
    assert forall|i: int| 0 <= i < x1.len() implies x1[i] == x2[i] by {
        assert(s1[a.len() + i] == x1[i]);
        assert(s2[a.len() + i] == x2[i]);
    }
    assert(x1 =~= x2);
}

/// An optional value reads as itself when present and as `null` when
/// absent; the `{:?}` text of an optional string is `Some(..)` around the
/// string's own `{:?}` text, or `None`; and the characters of an optional
/// string are those of the string it holds.
pub proof fn lemma_optional_text(o: Option<Seq<char>>, s: &str, t: String)
    ensures
        o matches Some(v) ==> or_null(o) == v,
        o is None ==> or_null(o) == "null"@,
        o matches Some(v) ==> option_str_debug(o) == "Some("@ + str_debug(v) + ")"@,
        o is None ==> option_str_debug(o) == "None"@,
        opt_str_view(Some(s)) == Some(s@),
        opt_str_view(None) == None::<Seq<char>>,
        opt_string_view(Some(t)) == Some(t@),
        opt_string_view(None) == None::<Seq<char>>,
{
}

} // verus!
