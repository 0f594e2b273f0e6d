//! Verified text building blocks: string equality, decimal rendering,
//! separator joins, and percent-encoding of URL components.

use vstd::prelude::*;
use vstd::string::StrSliceExecFns;
use vstd::string::StringExecFns;
use vstd::utf8::encode_utf8;

verus! {

/// Character-by-character string equality.
pub fn str_equal(a: &str, b: &str) -> (r: bool)
    ensures
        r == (a@ == b@),
{
    let alen = a.unicode_len();
    let blen = b.unicode_len();
    if alen != blen {
        return false;
    }
    let mut i: usize = 0;
    while i < alen
        invariant
            i <= alen,
            alen == a@.len(),
            alen == b@.len(),
            forall|j: int| 0 <= j < i ==> a@[j] == b@[j],
        decreases alen - i,
    {
        if a.get_char(i) != b.get_char(i) {
            return false;
        }
        i = i + 1;
    }
    proof {
        assert(a@ =~= b@);
    }
    true
}

/// Copy a vector of strings, element by element.
pub fn clone_string_vec(v: &Vec<String>) -> (r: Vec<String>)
    ensures
        r@ == v@,
{
    let mut r: Vec<String> = Vec::new();
    let n = v.len();
    let mut i: usize = 0;
    while i < n
        invariant
            i <= n,
            n == v.len(),
            r@ =~= v@.take(i as int),
        decreases n - i,
    {
        r.push(v[i].clone());
        proof {
            assert(r@ =~= v@.take(i as int + 1));
        }
        i = i + 1;
    }
    proof {
        assert(v@.take(n as int) =~= v@);
    }
    r
}

/// The decimal digit character for a value below ten.
pub open spec fn spec_digit_char(d: int) -> char {
    if d == 0 {
        '0'
    } else if d == 1 {
        '1'
    } else if d == 2 {
        '2'
    } else if d == 3 {
        '3'
    } else if d == 4 {
        '4'
    } else if d == 5 {
        '5'
    } else if d == 6 {
        '6'
    } else if d == 7 {
        '7'
    } else if d == 8 {
        '8'
    } else {
        '9'
    }
}

/// The one-character string for a decimal digit.
pub fn digit_str(d: u64) -> (r: &'static str)
    requires
        d < 10,
    ensures
        r@ == seq![spec_digit_char(d as int)],
{
    proof {
        reveal_strlit("0");
        reveal_strlit("1");
        reveal_strlit("2");
        reveal_strlit("3");
        reveal_strlit("4");
        reveal_strlit("5");
        reveal_strlit("6");
        reveal_strlit("7");
        reveal_strlit("8");
        reveal_strlit("9");
    }
    let r = if d == 0 {
        "0"
    } else if d == 1 {
        "1"
    } else if d == 2 {
        "2"
    } else if d == 3 {
        "3"
    } else if d == 4 {
        "4"
    } else if d == 5 {
        "5"
    } else if d == 6 {
        "6"
    } else if d == 7 {
        "7"
    } else if d == 8 {
        "8"
    } else {
        "9"
    };
    proof {
        assert(r@ =~= seq![spec_digit_char(d as int)]);
    }
    r
}

/// The usual decimal rendering of a non-negative integer, without padding.
pub open spec fn spec_decimal(n: nat) -> Seq<char>
    decreases n,
{
    if n < 10 {
        seq![spec_digit_char(n as int)]
    } else {
        spec_decimal(n / 10) + seq![spec_digit_char((n % 10) as int)]
    }
}

/// Append the decimal rendering of `n` to `out`.
pub fn push_decimal(out: &mut String, n: u64)
    ensures
        final(out)@ == old(out)@ + spec_decimal(n as nat),
    decreases n,
{
    if n >= 10 {
        push_decimal(out, n / 10);
    }
    let d = digit_str(n % 10);
    out.append(d);
    proof {
        assert(old(out)@ + spec_decimal(n as nat) =~= final(out)@);
    }
}

/// The decimal rendering of a signed integer: a minus sign before the
/// rendering of the magnitude.
pub open spec fn spec_decimal_int(i: int) -> Seq<char> {
    if i < 0 {
        seq!['-'] + spec_decimal((-i) as nat)
    } else {
        spec_decimal(i as nat)
    }
}

/// Append the decimal rendering of a signed value to `out`.
pub fn push_decimal_i32(out: &mut String, v: i32)
    ensures
        final(out)@ == old(out)@ + spec_decimal_int(v as int),
{
    if v < 0 {
        out.append("-");
        let magnitude: u64 = (-(v as i64)) as u64;
        push_decimal(out, magnitude);
        proof {
            reveal_strlit("-");
            assert(magnitude as int == -(v as int));
            assert("-"@ =~= seq!['-']);
            assert(old(out)@ + spec_decimal_int(v as int) =~= final(out)@);
        }
    } else {
        push_decimal(out, v as u64);
    }
}

/// The parts glued together with `sep` between consecutive parts.
pub open spec fn spec_join(parts: Seq<Seq<char>>, sep: Seq<char>) -> Seq<char>
    decreases parts.len(),
{
    if parts.len() == 0 {
        Seq::empty()
    } else if parts.len() == 1 {
        parts[0]
    } else {
        parts[0] + sep + spec_join(parts.drop_first(), sep)
    }
}

/// Appending one more part extends the join by a separator and that part
/// (or is just that part, when there was nothing yet).
pub proof fn lemma_join_push(parts: Seq<Seq<char>>, sep: Seq<char>, x: Seq<char>)
    ensures
        spec_join(parts.push(x), sep) == if parts.len() == 0 {
            x
        } else {
            spec_join(parts, sep) + sep + x
        },
    decreases parts.len(),
{
    if parts.len() == 0 {
        assert(spec_join(parts.push(x), sep) == parts.push(x)[0]);
        assert(parts.push(x)[0] == x);
    } else if parts.len() == 1 {
        assert(parts.push(x).drop_first() =~= seq![x]);
        assert(spec_join(seq![x], sep) == x);
        assert(parts.push(x)[0] == parts[0]);
        assert(spec_join(parts.push(x), sep) == parts[0] + sep + x);
        assert(spec_join(parts, sep) == parts[0]);
    } else {
        lemma_join_push(parts.drop_first(), sep, x);
        assert(parts.push(x).drop_first() =~= parts.drop_first().push(x));
        assert(spec_join(parts.push(x), sep) == parts[0] + sep + (spec_join(
            parts.drop_first(),
            sep,
        ) + sep + x));
        assert(parts[0] + sep + (spec_join(parts.drop_first(), sep) + sep + x) =~= (parts[0] + sep
            + spec_join(parts.drop_first(), sep)) + sep + x);
    }
}

/// Glue the parts together with `sep` between consecutive parts.
pub fn join_strings(parts: &Vec<String>, sep: &str) -> (r: String)
    ensures
        r@ == spec_join(parts.deep_view(), sep@),
{
    let mut r = String::new();
    let n = parts.len();
    let mut i: usize = 0;
    while i < n
        invariant
            i <= n,
            n == parts.len(),
            r@ == spec_join(parts.deep_view().take(i as int), sep@),
        decreases n - i,
    {
        if i > 0 {
            r.append(sep);
        }
        r.append(parts[i].as_str());
        proof {
            let dv = parts.deep_view();
            lemma_join_push(dv.take(i as int), sep@, dv[i as int]);
            assert(dv.take(i as int).push(dv[i as int]) =~= dv.take(i as int + 1));
        }
        i = i + 1;
    }
    proof {
        assert(parts.deep_view().take(n as int) =~= parts.deep_view());
    }
    r
}

/// The views of a sequence of strings.
pub open spec fn spec_views(s: Seq<String>) -> Seq<Seq<char>> {
    s.map_values(|t: String| t@)
}

/// A string vector's deep view is the views of its elements.
pub proof fn lemma_string_vec_views(v: &Vec<String>)
    ensures
        v.deep_view() == spec_views(v@),
{
    assert forall|k: int| 0 <= k < v@.len() implies v.deep_view()[k] == spec_views(v@)[k] by {
        assert(v.deep_view()[k] == v@[k]@);
        assert(spec_views(v@)[k] == v@[k]@);
    }
    assert(v.deep_view() =~= spec_views(v@));
}

/// Pushing one string extends the views by that string's view.
pub proof fn lemma_views_push(s: Seq<String>, x: String)
    ensures
        spec_views(s.push(x)) == spec_views(s).push(x@),
{
    assert forall|k: int| 0 <= k < s.len() + 1 implies spec_views(s.push(x))[k] == spec_views(
        s,
    ).push(x@)[k] by {
        assert(spec_views(s.push(x))[k] == s.push(x)[k]@);
        if k < s.len() {
            assert(s.push(x)[k] == s[k]);
            assert(spec_views(s)[k] == s[k]@);
        }
    }
    assert(spec_views(s.push(x)) =~= spec_views(s).push(x@));
}

/// The bytes that percent-encoding passes through unchanged: ASCII
/// alphanumerics and '-', '.', '_', '~'.
pub open spec fn is_url_unreserved_byte(b: u8) -> bool {
    (48 <= b <= 57) || (65 <= b <= 90) || (97 <= b <= 122) || b == 45 || b == 46 || b == 95 || b
        == 126
}

/// The uppercase hexadecimal digit character for a value below sixteen.
pub open spec fn spec_hex_upper(d: int) -> char {
    if d < 10 {
        spec_digit_char(d)
    } else if d == 10 {
        'A'
    } else if d == 11 {
        'B'
    } else if d == 12 {
        'C'
    } else if d == 13 {
        'D'
    } else if d == 14 {
        'E'
    } else {
        'F'
    }
}

/// How one byte comes out of percent-encoding: unreserved bytes stand as
/// themselves, every other byte as '%' and two uppercase hex digits.
pub open spec fn spec_encoded_byte(b: u8) -> Seq<char> {
    if is_url_unreserved_byte(b) {
        seq![b as char]
    } else {
        seq!['%', spec_hex_upper(b as int / 16), spec_hex_upper(b as int % 16)]
    }
}

/// Percent-encoding of a byte sequence.
pub open spec fn spec_percent_encode_bytes(bytes: Seq<u8>) -> Seq<char>
    decreases bytes.len(),
{
    if bytes.len() == 0 {
        Seq::empty()
    } else {
        spec_encoded_byte(bytes[0]) + spec_percent_encode_bytes(bytes.drop_first())
    }
}

/// Percent-encoding of a string: its UTF-8 bytes, each encoded.
pub open spec fn spec_url_encode(s: Seq<char>) -> Seq<char> {
    spec_percent_encode_bytes(encode_utf8(s))
}

/// Relies on urlencoding::encode: it percent-encodes every byte of the
/// argument's UTF-8 form except ASCII alphanumerics and '-', '.', '_', '~',
/// writing '%' and two uppercase hexadecimal digits for each encoded byte.
#[verifier::external_body]
pub(crate) fn url_encode(s: &str) -> (r: String)
    ensures
        r@ == spec_url_encode(s@),
{
    urlencoding::encode(s).into_owned()
}

} // verus!
