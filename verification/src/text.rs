//! Text helpers: exact string comparison, and the std text functions that
//! the decoders rely on.

use vstd::prelude::*;
use vstd::string::StringExecFns;
use vstd::string::StringSliceAdditionalSpecFns;

verus! {

broadcast use vstd::utf8::encode_utf8_decode_utf8;

/// Compares two string slices by their characters.
pub fn str_equals(a: &str, b: &str) -> (r: bool)
    ensures
        r == (a@ == b@),
{
    let ab = a.as_bytes();
    let bb = b.as_bytes();
    if ab.len() != bb.len() {
        return false;
    }
    let mut i: usize = 0;
    while i < ab.len()
        invariant
            ab@ == a.spec_bytes(),
            bb@ == b.spec_bytes(),
            ab@.len() == bb@.len(),
            0 <= i <= ab@.len(),
            forall|j: int| 0 <= j < i ==> ab@[j] == bb@[j],
        decreases ab@.len() - i,
    {
        if ab[i] != bb[i] {
            return false;
        }
        i = i + 1;
    }
    assert(ab@ =~= bb@);
    assert(vstd::utf8::decode_utf8(a.spec_bytes()) == a@);
    assert(vstd::utf8::decode_utf8(b.spec_bytes()) == b@);
    true
}

/// What `str::to_uppercase` of std returns for the given characters.
pub uninterp spec fn spec_to_uppercase(s: Seq<char>) -> Seq<char>;

/// Calls `str::to_uppercase` of std. Its documentation defines uppercase by the
/// Unicode Derived Core Property `Uppercase` and promises nothing shorter to state,
/// so the contract only ties the result to the argument through a name.
#[verifier::external_body]
pub(crate) fn to_uppercase(s: &str) -> (r: String)
    ensures
        r@ == spec_to_uppercase(s@),
{
    s.to_uppercase()
}

/// The characters with the Unicode property `White_Space`: tab, line feed,
/// vertical tab, form feed, carriage return, space, next line, no-break space,
/// ogham space mark, the spaces from en quad to hair space, line separator,
/// paragraph separator, narrow no-break space, medium mathematical space and
/// ideographic space.
pub open spec fn spec_is_white_space(c: char) -> bool {
    let u = c as u32;
    ||| 0x09 <= u <= 0x0d
    ||| u == 0x20
    ||| u == 0x85
    ||| u == 0xa0
    ||| u == 0x1680
    ||| 0x2000 <= u <= 0x200a
    ||| u == 0x2028
    ||| u == 0x2029
    ||| u == 0x202f
    ||| u == 0x205f
    ||| u == 0x3000
}

/// The characters without their leading white space.
pub open spec fn spec_trim_start(s: Seq<char>) -> Seq<char>
    decreases s.len(),
{
    if s.len() > 0 && spec_is_white_space(s[0]) {
        spec_trim_start(s.drop_first())
    } else {
        s
    }
}

/// The characters without their trailing white space.
pub open spec fn spec_trim_end(s: Seq<char>) -> Seq<char>
    decreases s.len(),
{
    if s.len() > 0 && spec_is_white_space(s.last()) {
        spec_trim_end(s.drop_last())
    } else {
        s
    }
}

/// The characters without leading and trailing white space.
pub open spec fn spec_trim(s: Seq<char>) -> Seq<char> {
    spec_trim_end(spec_trim_start(s))
}

/// Text made only of white space trims to nothing.
pub proof fn lemma_blank_trims_to_empty(s: Seq<char>)
    requires
        forall|i: int| 0 <= i < s.len() ==> spec_is_white_space(#[trigger] s[i]),
    ensures
        spec_trim(s).len() == 0,
    decreases s.len(),
{
    if s.len() > 0 {
        assert forall|i: int| 0 <= i < s.drop_first().len() implies spec_is_white_space(#[trigger] s.drop_first()[i]) by {
            assert(s.drop_first()[i] == s[i + 1]);
        }
        lemma_blank_trims_to_empty(s.drop_first());
        assert(spec_is_white_space(s[0]));
        assert(spec_trim_start(s) == spec_trim_start(s.drop_first()));
    }
}

/// Calls `str::trim` of std: the text without leading and trailing white
/// space, where the documentation defines white space by the Unicode property
/// `White_Space`, the fixed list of characters that `spec_is_white_space` names.
#[verifier::external_body]
pub(crate) fn trim(s: &str) -> (r: &str)
    ensures
        r@ == spec_trim(s@),
{
    s.trim()
}

/// The value of a decimal digit character.
pub open spec fn spec_digit(c: char) -> Option<int> {
    if '0' <= c <= '9' {
        Some(c as int - '0' as int)
    } else {
        None
    }
}

/// The number that a non-empty run of decimal digits spells; `None` if a
/// character is not a digit.
pub open spec fn spec_digits_value(s: Seq<char>) -> Option<int>
    decreases s.len(),
{
    if s.len() == 0 {
        Some(0)
    } else {
        match (spec_digits_value(s.drop_last()), spec_digit(s.last())) {
            (Some(v), Some(d)) => Some(v * 10 + d),
            _ => None,
        }
    }
}

/// What `<u64 as FromStr>::from_str` accepts: an optional `+`, then one or
/// more decimal digits, of a value that fits in 64 bits.
pub open spec fn spec_parse_u64(s: Seq<char>) -> Option<u64> {
    let digits = if s.len() > 0 && s[0] == '+' { s.drop_first() } else { s };
    if digits.len() == 0 {
        None
    } else {
        match spec_digits_value(digits) {
            Some(v) => if v <= u64::MAX { Some(v as u64) } else { None },
            None => None,
        }
    }
}

proof fn lemma_ascii_byte(c: char, b: u8)
    requires
        (c as nat) < 128,
        c as u8 == b,
    ensures
        c as int == b as int,
{
    let u = c as u32;
    assert(u < 128);
    assert(c as u8 == u as u8);
    assert(u < 128 ==> (u as u8) as u32 == u) by (bit_vector);
}

proof fn lemma_digits_are_digits(s: Seq<char>, j: int)
    requires
        spec_digits_value(s) is Some,
        0 <= j < s.len(),
    ensures
        spec_digit(s[j]) is Some,
    decreases s.len(),
{
    if j < s.len() - 1 {
        assert(s.drop_last()[j] == s[j]);
        lemma_digits_are_digits(s.drop_last(), j);
    }
}

proof fn lemma_digits_prefix_grows(s: Seq<char>, k: int)
    requires
        spec_digits_value(s) is Some,
        0 <= k <= s.len(),
    ensures
        spec_digits_value(s.subrange(0, k)) is Some,
        spec_digits_value(s)->0 >= spec_digits_value(s.subrange(0, k))->0 >= 0,
    decreases s.len(),
{
    if k == s.len() {
        assert(s.subrange(0, k) =~= s);
        lemma_digits_nonneg(s);
    } else {
        assert(s.drop_last().subrange(0, k) =~= s.subrange(0, k));
        lemma_digits_prefix_grows(s.drop_last(), k);
        lemma_digits_nonneg(s.drop_last());
    }
}

proof fn lemma_digits_nonneg(s: Seq<char>)
    ensures
        spec_digits_value(s) matches Some(v) ==> v >= 0,
    decreases s.len(),
{
    if s.len() > 0 {
        lemma_digits_nonneg(s.drop_last());
    }
}

fn invalid_digit() -> (r: String) {
    String::from_str("invalid digit found in string")
}

/// Parses an unsigned 64-bit integer as `<u64 as FromStr>::from_str` of std
/// does: an optional `+`, then one or more decimal digits, of a value that
/// fits in 64 bits. The error texts are std's, except that text holding a
/// character outside ASCII is reported as holding an invalid digit.
pub(crate) fn parse_u64(s: &str) -> (r: Result<u64, String>)
    ensures
        match spec_parse_u64(s@) {
            Some(v) => r == Ok::<u64, String>(v),
            None => r is Err,
        },
{
    broadcast use vstd::utf8::is_ascii_chars_encode_utf8, vstd::utf8::is_ascii_chars_nat_bound;

    let ghost cs = s@;
    if !s.is_ascii() {
        proof {
            let j = choose|j: int| 0 <= j < cs.len() && !('\0' <= #[trigger] cs[j] <= '\u{7f}');
            let digits = if cs.len() > 0 && cs[0] == '+' { cs.drop_first() } else { cs };
            if digits.len() > 0 && spec_digits_value(digits) is Some {
                if cs.len() > 0 && cs[0] == '+' {
                    assert(j > 0);
                    assert(digits[j - 1] == cs[j]);
                    lemma_digits_are_digits(digits, j - 1);
                } else {
                    lemma_digits_are_digits(digits, j);
                }
            }
        }
        return Err(invalid_digit());
    }
    let b = s.as_bytes();
    let n: usize = b.len();
    assert(b@.len() == cs.len());
    if n == 0 {
        return Err(String::from_str("cannot parse integer from empty string"));
    }
    assert(cs[0] as u8 == b@[0]);
    assert((cs[0] as nat) < 128);
    proof {
        lemma_ascii_byte(cs[0], b@[0]);
    }
    let start: usize = if b[0] == 0x2b { 1 } else { 0 };
    let ghost digits = cs.subrange(start as int, n as int);
    assert(start == 1 ==> digits =~= cs.drop_first());
    assert(start == 0 ==> digits =~= cs);
    assert(start == 1 <==> cs[0] == '+');
    if start == n {
        return Err(invalid_digit());
    }
    let mut i: usize = start;
    let mut v: u64 = 0;
    assert(cs.subrange(start as int, start as int) =~= Seq::<char>::empty());
    while i < n
        invariant
            b@.len() == n,
            cs.len() == n,
            forall|j: int| 0 <= j < n ==> cs[j] as u8 == #[trigger] b@[j],
            forall|j: int| 0 <= j < n ==> (#[trigger] cs[j] as nat) < 128,
            start <= i <= n,
            digits == cs.subrange(start as int, n as int),
            digits == (if cs.len() > 0 && cs[0] == '+' { cs.drop_first() } else { cs }),
            digits.len() > 0,
            cs == s@,
            spec_digits_value(cs.subrange(start as int, i as int)) == Some(v as int),
        decreases n - i,
    {
        let c: u8 = b[i];
        let ghost prefix = cs.subrange(start as int, i + 1);
        assert(prefix.drop_last() =~= cs.subrange(start as int, i as int));
        assert(prefix.last() == cs[i as int]);
        assert(digits[i - start] == cs[i as int]);
        proof {
            lemma_ascii_byte(cs[i as int], c);
        }
        if c < 0x30 || c > 0x39 {
            proof {
                if spec_digits_value(digits) is Some {
                    lemma_digits_are_digits(digits, i - start);
                }
            }
            return Err(invalid_digit());
        }
        let d: u64 = (c - 0x30) as u64;
        assert(spec_digit(cs[i as int]) == Some(d as int));
        assert(spec_digits_value(prefix) == Some(v * 10 + d));
        if v > (u64::MAX - d) / 10 {
            proof {
                assert(v * 10 + d > u64::MAX) by (nonlinear_arith)
                    requires v > (u64::MAX - d) / 10, d <= 9;
                assert(digits.len() > 0);
                if spec_digits_value(digits) is Some {
                    assert(digits.subrange(0, i + 1 - start) =~= prefix);
                    lemma_digits_prefix_grows(digits, i + 1 - start);
                    assert(spec_digits_value(digits)->0 > u64::MAX);
                }
            }
            return Err(String::from_str("number too large to fit in target type"));
        }
        assert(v * 10 + d <= u64::MAX) by (nonlinear_arith)
            requires v <= (u64::MAX - d) / 10, d <= 9;
        v = v * 10 + d;
        i = i + 1;
    }
    assert(cs.subrange(start as int, n as int) =~= digits);
    Ok(v)
}

} // verus!
