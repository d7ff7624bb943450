//! Small proved helpers on text: comparison, splitting a topic into its
//! segments, and decimal numbers.
use vstd::prelude::*;
use vstd::string::*;
use vstd::utf8::valid_utf8;

verus! {

/// `std::str::from_utf8`: the bytes as text, where they are UTF-8; the text
/// has exactly those bytes.
#[verifier::external_body]
pub(crate) fn utf8_text(bytes: &[u8]) -> (text: Option<&str>)
    ensures
        match text {
            Some(s) => valid_utf8(bytes@) && s.spec_bytes() == bytes@,
            None => !valid_utf8(bytes@),
        },
{
    std::str::from_utf8(bytes).ok()
}

/// Whether two strings hold the same characters.
pub fn same_text(a: &str, b: &str) -> (same: bool)
    ensures
        same == (a@ == b@),
{
    let left = a.to_owned();
    let right = b.to_owned();
    left == right
}

/// The position of the first `/` in `s`, or the length of `s` where it has none.
pub open spec fn find_slash(s: Seq<char>) -> int
    decreases s.len(),
{
    if s.len() == 0 {
        0
    } else if s[0] == '/' {
        0
    } else {
        1 + find_slash(s.drop_first())
    }
}

/// The pieces of `s` between its `/` characters, in order. A string without
/// `/` is its own single segment; two `/` in a row enclose an empty segment.
pub open spec fn segments(s: Seq<char>) -> Seq<Seq<char>>
    decreases s.len(),
{
    let cut = find_slash(s);
    if 0 <= cut < s.len() {
        seq![s.take(cut)] + segments(s.skip(cut + 1))
    } else {
        seq![s]
    }
}

/// `find_slash` is the one position before which no `/` stands and at which
/// one does, or the end.
pub proof fn lemma_find_slash(s: Seq<char>, cut: int)
    requires
        0 <= cut <= s.len(),
        forall|k: int| 0 <= k < cut ==> s[k] != '/',
        cut < s.len() ==> s[cut] == '/',
    ensures
        find_slash(s) == cut,
    decreases s.len(),
{
    if s.len() == 0 {
    } else if cut == 0 {
    } else {
        let rest = s.drop_first();
        assert forall|k: int| 0 <= k < cut - 1 implies rest[k] != '/' by {
            assert(rest[k] == s[k + 1]);
        }
        lemma_find_slash(rest, cut - 1);
    }
}

/// A string without `/` is one segment.
pub proof fn lemma_segments_single(s: Seq<char>)
    requires
        forall|k: int| 0 <= k < s.len() ==> s[k] != '/',
    ensures
        segments(s) == seq![s],
{
    lemma_find_slash(s, s.len() as int);
}

/// A string whose first `/` stands at `cut` is the segment before it, followed
/// by the segments of what comes after it.
pub proof fn lemma_segments_cut(s: Seq<char>, cut: int)
    requires
        0 <= cut < s.len(),
        forall|k: int| 0 <= k < cut ==> s[k] != '/',
        s[cut] == '/',
    ensures
        segments(s) == seq![s.take(cut)] + segments(s.skip(cut + 1)),
{
    lemma_find_slash(s, cut);
}

/// Every string has at least one segment.
pub proof fn lemma_segments_nonempty(s: Seq<char>)
    ensures
        segments(s).len() >= 1,
    decreases s.len(),
{
    let cut = find_slash(s);
    if 0 <= cut < s.len() {
        lemma_segments_nonempty(s.skip(cut + 1));
    }
}

/// Splits `s` at each `/`.
pub fn split_segments(s: &str) -> (pieces: Vec<String>)
    ensures
        pieces@.map_values(|p: String| p@) == segments(s@),
{
    let total = s.unicode_len();
    let mut pieces: Vec<String> = Vec::new();
    let mut start: usize = 0;
    let mut at: usize = 0;
    proof {
        assert(s@.skip(0) =~= s@);
        assert(pieces@.map_values(|p: String| p@) + segments(s@) =~= segments(s@));
    }
    while at < total
        invariant
            total == s@.len(),
            0 <= start <= at <= total,
            forall|k: int| start <= k < at ==> s@[k] != '/',
            segments(s@) == pieces@.map_values(|p: String| p@) + segments(s@.skip(start as int)),
        decreases total - at,
    {
        let c = s.get_char(at);
        if c == '/' {
            let piece = s.substring_char(start, at).to_owned();
            proof {
                let rest = s@.skip(start as int);
                let cut = at - start;
                assert forall|k: int| 0 <= k < cut implies rest[k] != '/' by {
                    assert(rest[k] == s@[start + k]);
                }
                assert(rest[cut] == s@[at as int]);
                lemma_segments_cut(rest, cut);
                assert(rest.take(cut) =~= s@.subrange(start as int, at as int));
                assert(rest.skip(cut + 1) =~= s@.skip(at + 1));
                assert(pieces@.push(piece).map_values(|p: String| p@) =~= pieces@.map_values(
                    |p: String| p@,
                ) + seq![piece@]);
            }
            pieces.push(piece);
            start = at + 1;
        }
        at = at + 1;
    }
    let piece = s.substring_char(start, total).to_owned();
    proof {
        let rest = s@.skip(start as int);
        assert forall|k: int| 0 <= k < rest.len() implies rest[k] != '/' by {
            assert(rest[k] == s@[start + k]);
        }
        lemma_segments_single(rest);
        assert(rest =~= s@.subrange(start as int, total as int));
        assert(pieces@.push(piece).map_values(|p: String| p@) =~= pieces@.map_values(
            |p: String| p@,
        ) + seq![piece@]);
    }
    pieces.push(piece);
    pieces
}

/// The character that writes the digit `d`.
pub open spec fn digit_char(d: nat) -> char {
    if d == 0 {
        '0'
    } else if d == 1 {
        '1'
    } else if d == 2 {
        '2'
    } else if d == 3 {
        '3'
    } else if d == 4 {
        '4'
    } else if d == 5 {
        '5'
    } else if d == 6 {
        '6'
    } else if d == 7 {
        '7'
    } else if d == 8 {
        '8'
    } else {
        '9'
    }
}

/// The digit that `c` writes, if it writes one.
pub open spec fn digit_value(c: char) -> Option<nat> {
    if c == '0' {
        Some(0)
    } else if c == '1' {
        Some(1)
    } else if c == '2' {
        Some(2)
    } else if c == '3' {
        Some(3)
    } else if c == '4' {
        Some(4)
    } else if c == '5' {
        Some(5)
    } else if c == '6' {
        Some(6)
    } else if c == '7' {
        Some(7)
    } else if c == '8' {
        Some(8)
    } else if c == '9' {
        Some(9)
    } else {
        None
    }
}

/// `n` written in decimal, without leading zeros.
pub open spec fn decimal_text(n: nat) -> Seq<char>
    decreases n,
{
    if n < 10 {
        seq![digit_char(n)]
    } else {
        decimal_text(n / 10).push(digit_char(n % 10))
    }
}

/// The number that `s` writes in decimal: `None` where `s` is empty or holds
/// anything but digits.
pub open spec fn decimal_value(s: Seq<char>) -> Option<nat>
    decreases s.len(),
{
    if s.len() == 0 {
        None
    } else if s.len() == 1 {
        digit_value(s[0])
    } else {
        match (decimal_value(s.drop_last()), digit_value(s.last())) {
            (Some(high), Some(low)) => Some(10 * high + low),
            _ => None,
        }
    }
}

/// Reading back what `decimal_text` wrote gives the number again.
pub proof fn lemma_decimal_round_trip(n: nat)
    ensures
        decimal_value(decimal_text(n)) == Some(n),
        decimal_text(n).len() >= 1,
    decreases n,
{
    if n < 10 {
        assert(decimal_text(n).len() == 1);
        assert(decimal_text(n)[0] == digit_char(n));
    } else {
        lemma_decimal_round_trip(n / 10);
        let high = decimal_text(n / 10);
        let all = high.push(digit_char(n % 10));
        assert(all.drop_last() =~= high);
        assert(all.last() == digit_char(n % 10));
        assert(digit_value(digit_char(n % 10)) == Some(n % 10));
    }
}

fn digit_str(d: u64) -> (s: &'static str)
    requires
        d < 10,
    ensures
        s@ == seq![digit_char(d as nat)],
{
    proof {
        reveal_strlit("0");
        reveal_strlit("1");
        reveal_strlit("2");
        reveal_strlit("3");
        reveal_strlit("4");
        reveal_strlit("5");
        reveal_strlit("6");
        reveal_strlit("7");
        reveal_strlit("8");
        reveal_strlit("9");
    }
    let s = if d == 0 {
        "0"
    } else if d == 1 {
        "1"
    } else if d == 2 {
        "2"
    } else if d == 3 {
        "3"
    } else if d == 4 {
        "4"
    } else if d == 5 {
        "5"
    } else if d == 6 {
        "6"
    } else if d == 7 {
        "7"
    } else if d == 8 {
        "8"
    } else {
        "9"
    };
    assert(s@ =~= seq![digit_char(d as nat)]);
    s
}

/// Writes `n` in decimal.
pub fn u64_to_decimal(n: u64) -> (text: String)
    ensures
        text@ == decimal_text(n as nat),
    decreases n,
{
    if n < 10 {
        digit_str(n).to_owned()
    } else {
        let mut text = u64_to_decimal(n / 10);
        text.append(digit_str(n % 10));
        assert(text@ =~= decimal_text((n / 10) as nat).push(digit_char((n % 10) as nat)));
        text
    }
}

fn digit_of(c: char) -> (d: Option<u64>)
    ensures
        match d {
            Some(v) => digit_value(c) == Some(v as nat) && v < 10,
            None => digit_value(c) is None,
        },
{
    if c == '0' {
        Some(0)
    } else if c == '1' {
        Some(1)
    } else if c == '2' {
        Some(2)
    } else if c == '3' {
        Some(3)
    } else if c == '4' {
        Some(4)
    } else if c == '5' {
        Some(5)
    } else if c == '6' {
        Some(6)
    } else if c == '7' {
        Some(7)
    } else if c == '8' {
        Some(8)
    } else if c == '9' {
        Some(9)
    } else {
        None
    }
}

/// A text that writes a number writes one in each of its beginnings, and a
/// longer beginning never writes a smaller number.
proof fn lemma_decimal_prefix(s: Seq<char>, len: int)
    requires
        1 <= len <= s.len(),
        decimal_value(s) is Some,
    ensures
        decimal_value(s.take(len)) is Some,
        decimal_value(s.take(len))->0 <= decimal_value(s)->0,
    decreases s.len(),
{
    if len == s.len() {
        assert(s.take(len) =~= s);
    } else {
        assert(s.len() >= 2);
        lemma_decimal_prefix(s.drop_last(), len);
        assert(s.drop_last().take(len) =~= s.take(len));
    }
}

/// Reads a decimal number that fits in 64 bits.
pub fn parse_u64_decimal(s: &str) -> (number: Option<u64>)
    ensures
        match number {
            Some(n) => decimal_value(s@) == Some(n as nat),
            None => decimal_value(s@) matches Some(v) ==> v > u64::MAX,
        },
{
    let total = s.unicode_len();
    if total == 0 {
        return None;
    }
    let mut value: u64 = 0;
    let mut at: usize = 0;
    while at < total
        invariant
            total == s@.len(),
            0 <= at <= total,
            at > 0 ==> decimal_value(s@.take(at as int)) == Some(value as nat),
            at == 0 ==> value == 0,
        decreases total - at,
    {
        let c = s.get_char(at);
        let ghost before = s@.take(at as int);
        let ghost now = s@.take(at + 1);
        proof {
            assert(now.drop_last() =~= before);
            assert(now.last() == c);
        }
        match digit_of(c) {
            None => {
                proof {
                    if decimal_value(s@) is Some {
                        lemma_decimal_prefix(s@, at + 1);
                    }
                }
                return None;
            },
            Some(d) => {
                if value > (u64::MAX - d) / 10 {
                    proof {
                        if decimal_value(s@) is Some {
                            lemma_decimal_prefix(s@, at + 1);
                            assert(at > 0);
                            assert(decimal_value(now) == Some(10 * (value as nat) + (d as nat)));
                        }
                    }
                    return None;
                }
                proof {
                    if at > 0 {
                        assert(decimal_value(now) == Some(10 * (value as nat) + (d as nat)));
                    } else {
                        assert(now.len() == 1);
                        assert(now[0] == c);
                    }
                }
                value = value * 10 + d;
            },
        }
        at = at + 1;
    }
    assert(s@.take(total as int) =~= s@);
    Some(value)
}

} // verus!
