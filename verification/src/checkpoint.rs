//! Parsing and formatting of the persisted scan checkpoint: a single
//! positive integer, the next block height to scan. A missing or corrupt
//! value falls back to height one.

use vstd::prelude::*;
use vstd::arithmetic::div_mod::lemma_fundamental_div_mod;

verus! {

/// Line-break characters that a stored value may carry and that parsing
/// ignores.
pub open spec fn spec_is_newline(c: char) -> bool {
    c == '\n' || c == '\r'
}

/// `s` with every line-break character removed.
pub open spec fn spec_strip_newlines(s: Seq<char>) -> Seq<char>
    decreases s.len(),
{
    if s.len() == 0 {
        Seq::empty()
    } else if spec_is_newline(s.last()) {
        spec_strip_newlines(s.drop_last())
    } else {
        spec_strip_newlines(s.drop_last()).push(s.last())
    }
}

/// `c` is a decimal digit.
pub open spec fn spec_is_digit(c: char) -> bool {
    '0' as u32 <= c as u32 && c as u32 <= '9' as u32
}

/// The numeric value of a decimal digit.
pub open spec fn spec_digit_val(c: char) -> int {
    c as u32 as int - '0' as u32 as int
}

/// Every character of `s` is a decimal digit.
pub open spec fn spec_all_digits(s: Seq<char>) -> bool {
    forall|i: int| 0 <= i < s.len() ==> spec_is_digit(s[i])
}

/// The value of a digit string read most-significant first.
pub open spec fn spec_digits_value(s: Seq<char>) -> int
    decreases s.len(),
{
    if s.len() == 0 {
        0
    } else {
        spec_digits_value(s.drop_last()) * 10 + spec_digit_val(s.last())
    }
}

/// What a stored checkpoint text denotes: line breaks are ignored, and the
/// rest must be a positive decimal integer that a height can hold;
/// otherwise the scan starts over at height one.
pub open spec fn spec_parse_checkpoint(s: Seq<char>) -> int {
    let t = spec_strip_newlines(s);
    if t.len() > 0 && spec_all_digits(t) && 1 <= spec_digits_value(t) && spec_digits_value(t)
        <= u64::MAX as int {
        spec_digits_value(t)
    } else {
        1
    }
}

/// Stripping line breaks distributes over concatenation.
proof fn lemma_strip_concat(a: Seq<char>, b: Seq<char>)
    ensures
        spec_strip_newlines(a + b) == spec_strip_newlines(a) + spec_strip_newlines(b),
    decreases b.len(),
{
    if b.len() == 0 {
        assert(a + b =~= a);
        assert(spec_strip_newlines(a) + spec_strip_newlines(b) =~= spec_strip_newlines(a));
    } else {
        lemma_strip_concat(a, b.drop_last());
        assert((a + b).drop_last() =~= a + b.drop_last());
        assert((a + b).last() == b.last());
        if spec_is_newline(b.last()) {
        } else {
            assert(spec_strip_newlines(a) + spec_strip_newlines(b) =~= (spec_strip_newlines(a)
                + spec_strip_newlines(b.drop_last())).push(b.last()));
        }
    }
}

/// A digit string's value is never negative.
proof fn lemma_digits_value_nonneg(s: Seq<char>)
    requires
        spec_all_digits(s),
    ensures
        spec_digits_value(s) >= 0,
    decreases s.len(),
{
    if s.len() > 0 {
        assert(forall|i: int|
            0 <= i < s.drop_last().len() ==> spec_is_digit(#[trigger] s.drop_last()[i]));
        lemma_digits_value_nonneg(s.drop_last());
    }
}

/// A digit string's value is at least the value of any of its prefixes.
proof fn lemma_digits_value_prefix_le(s: Seq<char>, i: int)
    requires
        spec_all_digits(s),
        0 <= i <= s.len(),
    ensures
        spec_digits_value(s.subrange(0, i)) <= spec_digits_value(s),
    decreases s.len() - i,
{
    if i == s.len() {
        assert(s.subrange(0, i) =~= s);
    } else {
        lemma_digits_value_prefix_le(s, i + 1);
        assert(s.subrange(0, i + 1).drop_last() =~= s.subrange(0, i));
        assert(s.subrange(0, i + 1).last() == s[i]);
        assert(forall|k: int|
            0 <= k < s.subrange(0, i).len() ==> spec_is_digit(#[trigger] s.subrange(0, i)[k]));
        lemma_digits_value_nonneg(s.subrange(0, i));
    }
}

/// Reads a stored checkpoint text: the persisted height, or one if the
/// value is missing its digits, not positive, or too large for a height.
pub fn parse_checkpoint(text: &str) -> (h: u64)
    ensures
        h as int == spec_parse_checkpoint(text@),
        h >= 1,
{
    let n = text.unicode_len();
    let mut i: usize = 0;
    let mut acc: u64 = 0;
    let mut seen: bool = false;
    while i < n
        invariant
            text@.len() == n,
            i <= n,
            spec_all_digits(spec_strip_newlines(text@.subrange(0, i as int))),
            seen == (spec_strip_newlines(text@.subrange(0, i as int)).len() > 0),
            acc as int == spec_digits_value(spec_strip_newlines(text@.subrange(0, i as int))),
        decreases n - i,
    {
        let ghost pre = text@.subrange(0, i as int);
        let ghost pre1 = text@.subrange(0, i as int + 1);
        proof {
            assert(pre1.drop_last() =~= pre);
            assert(pre1.last() == text@[i as int]);
        }
        let c = text.get_char(i);
        if c == '\n' || c == '\r' {
            assert(spec_strip_newlines(pre1) == spec_strip_newlines(pre));
        } else {
            let code = c as u32;
            if '0' as u32 <= code && code <= '9' as u32 {
                let d: u64 = (code - '0' as u32) as u64;
                proof {
                    assert(spec_strip_newlines(pre1) == spec_strip_newlines(pre).push(c));
                    assert(spec_strip_newlines(pre1).drop_last() =~= spec_strip_newlines(pre));
                    assert(forall|k: int|
                        0 <= k < spec_strip_newlines(pre1).len() ==> spec_is_digit(
                            #[trigger] spec_strip_newlines(pre1)[k],
                        ));
                    assert(spec_digits_value(spec_strip_newlines(pre1)) == acc as int * 10
                        + d as int);
                }
                if acc > (u64::MAX - d) / 10 {
                    proof {
                        let m = (u64::MAX - d) as int;
                        lemma_fundamental_div_mod(m, 10);
                        assert(acc as int * 10 + d as int > u64::MAX as int);
                        let rest = text@.subrange(i as int + 1, n as int);
                        assert(text@ =~= pre1 + rest);
                        lemma_strip_concat(pre1, rest);
                        let t = spec_strip_newlines(text@);
                        if spec_all_digits(t) {
                            let k = spec_strip_newlines(pre1).len() as int;
                            assert(t.subrange(0, k) =~= spec_strip_newlines(pre1));
                            lemma_digits_value_prefix_le(t, k);
                            assert(spec_digits_value(t) > u64::MAX as int);
                        }
                    }
                    return 1;
                }
                acc = acc * 10 + d;
                seen = true;
            } else {
                proof {
                    let rest = text@.subrange(i as int + 1, n as int);
                    assert(text@ =~= pre1 + rest);
                    lemma_strip_concat(pre1, rest);
                    assert(spec_strip_newlines(pre1) == spec_strip_newlines(pre).push(c));
                    let t = spec_strip_newlines(text@);
                    let k = spec_strip_newlines(pre).len() as int;
                    assert(t[k] == c);
                    assert(!spec_is_digit(c));
                    assert(!spec_all_digits(t));
                }
                return 1;
            }
        }
        i += 1;
    }
    proof {
        assert(text@.subrange(0, n as int) =~= text@);
    }
    if !seen {
        return 1;
    }
    if acc == 0 {
        return 1;
    }
    acc
}

/// Reads the checkpoint as handed over by storage: the parsed height, or
/// one where no checkpoint exists at all.
pub fn load_checkpoint(text: &Option<String>) -> (h: u64)
    ensures
        text matches Some(s) ==> h as int == spec_parse_checkpoint(s@),
        text is None ==> h == 1,
        h >= 1,
{
    match text {
        Option::Some(s) => parse_checkpoint(s.as_str()),
        Option::None => 1,
    }
}

/// The decimal digit for a value below ten.
pub open spec fn spec_digit_char(d: int) -> char {
    if d == 0 {
        '0'
    } else if d == 1 {
        '1'
    } else if d == 2 {
        '2'
    } else if d == 3 {
        '3'
    } else if d == 4 {
        '4'
    } else if d == 5 {
        '5'
    } else if d == 6 {
        '6'
    } else if d == 7 {
        '7'
    } else if d == 8 {
        '8'
    } else {
        '9'
    }
}

/// The decimal rendering of a non-negative value, most-significant digit
/// first, without leading zeroes (a single zero renders as "0").
pub open spec fn spec_format_height(n: int) -> Seq<char>
    decreases n,
{
    if n < 10 {
        seq![spec_digit_char(n)]
    } else {
        spec_format_height(n / 10).push(spec_digit_char(n % 10))
    }
}

/// The one-character string for a digit value.
fn digit_str(d: u64) -> (s: &'static str)
    requires
        d < 10,
    ensures
        s@ == seq![spec_digit_char(d as int)],
{
    if d == 0 {
        proof {
            reveal_strlit("0");
            assert("0"@ =~= seq![spec_digit_char(0)]);
        }
        "0"
    } else if d == 1 {
        proof {
            reveal_strlit("1");
            assert("1"@ =~= seq![spec_digit_char(1)]);
        }
        "1"
    } else if d == 2 {
        proof {
            reveal_strlit("2");
            assert("2"@ =~= seq![spec_digit_char(2)]);
        }
        "2"
    } else if d == 3 {
        proof {
            reveal_strlit("3");
            assert("3"@ =~= seq![spec_digit_char(3)]);
        }
        "3"
    } else if d == 4 {
        proof {
            reveal_strlit("4");
            assert("4"@ =~= seq![spec_digit_char(4)]);
        }
        "4"
    } else if d == 5 {
        proof {
            reveal_strlit("5");
            assert("5"@ =~= seq![spec_digit_char(5)]);
        }
        "5"
    } else if d == 6 {
        proof {
            reveal_strlit("6");
            assert("6"@ =~= seq![spec_digit_char(6)]);
        }
        "6"
    } else if d == 7 {
        proof {
            reveal_strlit("7");
            assert("7"@ =~= seq![spec_digit_char(7)]);
        }
        "7"
    } else if d == 8 {
        proof {
            reveal_strlit("8");
            assert("8"@ =~= seq![spec_digit_char(8)]);
        }
        "8"
    } else {
        proof {
            reveal_strlit("9");
            assert("9"@ =~= seq![spec_digit_char(9)]);
        }
        "9"
    }
}

/// Renders a height for storage: its decimal digits.
pub fn format_checkpoint(h: u64) -> (s: String)
    ensures
        s@ == spec_format_height(h as int),
    decreases h,
{
    if h < 10 {
        let d = digit_str(h);
        String::from_str(d)
    } else {
        let mut s = format_checkpoint(h / 10);
        let d = digit_str(h % 10);
        s.append(d);
        proof {
            assert(s@ =~= spec_format_height(h as int));
        }
        s
    }
}

/// Every character of a rendered height is a digit, and there is at least
/// one.
proof fn lemma_format_digits(n: int)
    requires
        n >= 0,
    ensures
        spec_all_digits(spec_format_height(n)),
        spec_format_height(n).len() >= 1,
    decreases n,
{
    if n < 10 {
        assert(spec_is_digit(spec_digit_char(n)));
        assert(spec_format_height(n) == seq![spec_digit_char(n)]);
    } else {
        lemma_format_digits(n / 10);
        assert(spec_is_digit(spec_digit_char(n % 10)));
        assert(forall|k: int|
            0 <= k < spec_format_height(n).len() ==> spec_is_digit(
                #[trigger] spec_format_height(n)[k],
            ));
    }
}

/// Stripping line breaks leaves a pure digit string unchanged.
proof fn lemma_strip_digits_identity(s: Seq<char>)
    requires
        spec_all_digits(s),
    ensures
        spec_strip_newlines(s) == s,
    decreases s.len(),
{
    if s.len() > 0 {
        assert(forall|i: int|
            0 <= i < s.drop_last().len() ==> spec_is_digit(#[trigger] s.drop_last()[i]));
        lemma_strip_digits_identity(s.drop_last());
        assert(spec_is_digit(s.last()));
        assert(!spec_is_newline(s.last()));
        assert(s.drop_last().push(s.last()) =~= s);
    }
}

/// Reading back a rendered value yields the value.
proof fn lemma_format_value(n: int)
    requires
        n >= 0,
    ensures
        spec_digits_value(spec_format_height(n)) == n,
    decreases n,
{
    if n < 10 {
        assert(spec_format_height(n) == seq![spec_digit_char(n)]);
        assert(seq![spec_digit_char(n)].drop_last() =~= Seq::<char>::empty());
        assert(seq![spec_digit_char(n)].last() == spec_digit_char(n));
        assert(spec_digits_value(Seq::<char>::empty()) == 0);
        assert(spec_digit_val(spec_digit_char(n)) == n);
        assert(spec_digits_value(seq![spec_digit_char(n)]) == 0 * 10 + n);
    } else {
        lemma_format_value(n / 10);
        assert(spec_format_height(n) == spec_format_height(n / 10).push(spec_digit_char(n % 10)));
        assert(spec_format_height(n).len() > 0);
        assert(spec_format_height(n).drop_last() =~= spec_format_height(n / 10));
        assert(spec_format_height(n).last() == spec_digit_char(n % 10));
        assert(spec_digit_val(spec_digit_char(n % 10)) == n % 10);
        assert(spec_digits_value(spec_format_height(n)) == spec_digits_value(
            spec_format_height(n).drop_last(),
        ) * 10 + spec_digit_val(spec_format_height(n).last()));
        lemma_fundamental_div_mod(n, 10);
    }
}

/// Law: the checkpoint round trip is exact. A height persisted by the
/// scanner and read back at the next start yields exactly that height: a
/// restarted run resumes at the first unprocessed height, neither skipping
/// nor repeating a block.
pub proof fn lemma_checkpoint_round_trip(h: u64)
    requires
        1 <= h,
    ensures
        spec_parse_checkpoint(spec_format_height(h as int)) == h as int,
{
    lemma_format_digits(h as int);
    lemma_strip_digits_identity(spec_format_height(h as int));
    lemma_format_value(h as int);
}

} // verus!
