//! The packet identifiers of the protocol's packet enum: each variant's
//! identifier is an integer literal that must fit in a `u16`, and no two
//! variants may share one.
//!
//! A literal may use `_` separators and a `0x`, `0o` or `0b` radix prefix;
//! the digits are then read as `u16::from_str_radix` reads them.

use vstd::prelude::*;

verus! {

broadcast use vstd::std_specs::hash::group_hash_axioms;

/// Why a literal is not a `u16`, in the terms of `u16::from_str_radix`.
#[derive(Debug, Clone, Copy, PartialEq, Eq, Structural)]
pub enum IdError {
    /// There are no digits.
    Empty,
    /// A character is not a digit of the radix.
    InvalidDigit,
    /// The value exceeds `u16::MAX`.
    Overflow,
}

/// Why a list of packet identifiers is not acceptable.
#[derive(Debug, Clone, Copy, PartialEq, Eq, Structural)]
pub enum PacketIdError {
    /// The literal at this position is not a `u16`.
    Invalid(usize, IdError),
    /// The identifier at this position was given before.
    Duplicate(usize, u16),
}

/// The literal's text without `_` separators.
pub open spec fn strip_underscores(s: Seq<char>) -> Seq<char>
    decreases s.len(),
{
    if s.len() == 0 {
        s
    } else if s.last() == '_' {
        strip_underscores(s.drop_last())
    } else {
        strip_underscores(s.drop_last()).push(s.last())
    }
}

/// The digits and the radix that a prefix (`0x`, `0o`, `0b`, or none) selects.
pub open spec fn split_radix(t: Seq<char>) -> (Seq<char>, u32) {
    if t.len() >= 2 && t[0] == '0' && t[1] == 'x' {
        (t.skip(2), 16)
    } else if t.len() >= 2 && t[0] == '0' && t[1] == 'o' {
        (t.skip(2), 8)
    } else if t.len() >= 2 && t[0] == '0' && t[1] == 'b' {
        (t.skip(2), 2)
    } else {
        (t, 10)
    }
}

/// The value of a digit in a radix (`0`-`9`, then letters of either case).
pub open spec fn digit_value(c: char, radix: u32) -> Option<int> {
    let v: int = if '0' <= c && c <= '9' {
        c as int - 48
    } else if 'a' <= c && c <= 'z' {
        c as int - 87
    } else if 'A' <= c && c <= 'Z' {
        c as int - 55
    } else {
        99
    };
    if v < radix {
        Some(v)
    } else {
        None
    }
}

/// Reading digits left to right, stopping at the first digit that is
/// invalid or that makes the value exceed `u16::MAX`.
pub open spec fn scan_digits(d: Seq<char>, radix: u32) -> Result<int, IdError>
    decreases d.len(),
{
    if d.len() == 0 {
        Ok(0)
    } else {
        match scan_digits(d.drop_last(), radix) {
            Err(e) => Err(e),
            Ok(v) => match digit_value(d.last(), radix) {
                None => Err(IdError::InvalidDigit),
                Some(x) => if v * radix + x > u16::MAX {
                    Err(IdError::Overflow)
                } else {
                    Ok(v * radix + x)
                },
            },
        }
    }
}

/// What `u16::from_str_radix` gives for `d`: a lone sign is invalid, one
/// leading `+` is allowed, and no digits at all is `Empty`.
pub open spec fn parse_u16_radix(d: Seq<char>, radix: u32) -> Result<u16, IdError> {
    if d.len() == 0 {
        Err(IdError::Empty)
    } else if d.len() == 1 && (d[0] == '+' || d[0] == '-') {
        Err(IdError::InvalidDigit)
    } else {
        let body = if d[0] == '+' {
            d.drop_first()
        } else {
            d
        };
        match scan_digits(body, radix) {
            Ok(v) => Ok(v as u16),
            Err(e) => Err(e),
        }
    }
}

/// What a packet identifier literal stands for.
pub open spec fn numeric_id_spec(literal: Seq<char>) -> Result<u16, IdError> {
    let (digits, radix) = split_radix(strip_underscores(literal));
    parse_u16_radix(digits, radix)
}

/// Whether two characters are the same up to the case of a letter.
pub open spec fn same_up_to_case(a: char, b: char) -> bool {
    ||| a == b
    ||| 'a' <= a && a <= 'z' && b as int == a as int - 32
    ||| 'a' <= b && b <= 'z' && a as int == b as int - 32
}

/// A letter is a digit whatever its case: a lowercase letter has the value of
/// its uppercase form, in every radix.
pub proof fn lemma_digit_case_insensitive(lower: char, upper: char, radix: u32)
    requires
        'a' <= lower && lower <= 'z',
        upper as int == lower as int - 32,
    ensures
        digit_value(lower, radix) == digit_value(upper, radix),
{
}

/// The digits count up from `0`: `0`-`9` are worth 0 to 9 and the letters,
/// in either case, 10 to 35; a character is a digit of a radix exactly when
/// its worth is below the radix.
pub proof fn lemma_digit_values(c: char, radix: u32)
    ensures
        '0' <= c && c <= '9' ==> digit_value(c, radix) == (if (c as int) - ('0' as int) < radix {
            Some((c as int) - ('0' as int))
        } else {
            None
        }),
        'a' <= c && c <= 'z' ==> digit_value(c, radix) == (if (c as int) - ('a' as int) + 10 < radix {
            Some((c as int) - ('a' as int) + 10)
        } else {
            None
        }),
        'A' <= c && c <= 'Z' ==> digit_value(c, radix) == (if (c as int) - ('A' as int) + 10 < radix {
            Some((c as int) - ('A' as int) + 10)
        } else {
            None
        }),
{
}

/// Digits read the same whatever the case of their letters.
pub proof fn lemma_scan_case_insensitive(s: Seq<char>, t: Seq<char>, radix: u32)
    requires
        s.len() == t.len(),
        forall|i: int| 0 <= i < s.len() ==> same_up_to_case(#[trigger] s[i], t[i]),
    ensures
        scan_digits(s, radix) == scan_digits(t, radix),
    decreases s.len(),
{
    if s.len() > 0 {
        lemma_scan_case_insensitive(s.drop_last(), t.drop_last(), radix);
        let (a, b) = (s.last(), t.last());
        assert(same_up_to_case(s[s.len() - 1], t[t.len() - 1]));
        if a != b {
            if 'a' <= a && a <= 'z' {
                lemma_digit_case_insensitive(a, b, radix);
            } else {
                lemma_digit_case_insensitive(b, a, radix);
            }
        }
    }
}

/// A literal without `_` separators reads as itself.
proof fn lemma_strip_without_underscores(s: Seq<char>)
    requires
        forall|i: int| 0 <= i < s.len() ==> #[trigger] s[i] != '_',
    ensures
        strip_underscores(s) == s,
    decreases s.len(),
{
    if s.len() > 0 {
        lemma_strip_without_underscores(s.drop_last());
        assert(s.drop_last().push(s.last()) =~= s);
    }
}

/// A hexadecimal identifier has the same value whatever the case of its
/// letter digits: `0xff` is `0xFF`, as `u16::from_str_radix` reads it.
pub proof fn lemma_hex_literal_case_insensitive(s: Seq<char>, t: Seq<char>)
    requires
        s.len() == t.len(),
        forall|i: int| 0 <= i < s.len() ==> same_up_to_case(#[trigger] s[i], t[i]),
        forall|i: int| 0 <= i < s.len() ==> #[trigger] s[i] != '_',
    ensures
        numeric_id_spec("0x"@ + s) == numeric_id_spec("0x"@ + t),
        numeric_id_spec("0x"@ + s) == parse_u16_radix(s, 16),
{
    reveal_strlit("0x");
    assert forall|i: int| 0 <= i < t.len() implies #[trigger] t[i] != '_' by {
        assert(same_up_to_case(s[i], t[i]));
    }
    let (ls, lt) = ("0x"@ + s, "0x"@ + t);
    assert forall|i: int| 0 <= i < ls.len() implies #[trigger] ls[i] != '_' by {
        if i >= 2 {
            assert(ls[i] == s[i - 2]);
        }
    }
    assert forall|i: int| 0 <= i < lt.len() implies #[trigger] lt[i] != '_' by {
        if i >= 2 {
            assert(lt[i] == t[i - 2]);
        }
    }
    lemma_strip_without_underscores(ls);
    lemma_strip_without_underscores(lt);
    assert(ls.skip(2) =~= s);
    assert(lt.skip(2) =~= t);
    lemma_scan_case_insensitive(s, t, 16);
    if s.len() > 0 {
        lemma_scan_case_insensitive(s.drop_first(), t.drop_first(), 16);
        assert(same_up_to_case(s[0], t[0]));
    }
}

/// Dropping separators from two texts one after the other is dropping them
/// from each.
proof fn lemma_strip_concat(a: Seq<char>, b: Seq<char>)
    ensures
        strip_underscores(a + b) == strip_underscores(a) + strip_underscores(b),
    decreases b.len(),
{
    if b.len() == 0 {
        assert(a + b =~= a);
        assert(strip_underscores(a) + strip_underscores(b) =~= strip_underscores(a));
    } else {
        lemma_strip_concat(a, b.drop_last());
        assert((a + b).drop_last() =~= a + b.drop_last());
        assert((a + b).last() == b.last());
        if b.last() != '_' {
            assert(strip_underscores(a) + strip_underscores(b.drop_last()).push(b.last())
                =~= (strip_underscores(a) + strip_underscores(b.drop_last())).push(b.last()));
        }
    }
}

/// An `_` separator anywhere in a literal changes nothing: the literal is
/// read as if it were not there.
pub proof fn lemma_underscore_ignored(a: Seq<char>, b: Seq<char>)
    ensures
        numeric_id_spec(a + seq!['_'] + b) == numeric_id_spec(a + b),
{
    lemma_strip_concat(a + seq!['_'], b);
    lemma_strip_concat(a, seq!['_']);
    lemma_strip_concat(a, b);
    assert(seq!['_'].drop_last() =~= Seq::<char>::empty());
    assert(strip_underscores(seq!['_']) =~= Seq::<char>::empty()) by {
        reveal_with_fuel(strip_underscores, 2);
    }
    assert(strip_underscores(a) + Seq::<char>::empty() =~= strip_underscores(a));
}

/// The prefix selects the radix: `0x` reads the rest in base 16, `0o` in
/// base 8, `0b` in base 2.
pub proof fn lemma_radix_prefixes(s: Seq<char>)
    requires
        forall|i: int| 0 <= i < s.len() ==> #[trigger] s[i] != '_',
    ensures
        numeric_id_spec("0x"@ + s) == parse_u16_radix(s, 16),
        numeric_id_spec("0o"@ + s) == parse_u16_radix(s, 8),
        numeric_id_spec("0b"@ + s) == parse_u16_radix(s, 2),
{
    reveal_strlit("0x");
    reveal_strlit("0o");
    reveal_strlit("0b");
    lemma_strip_without_underscores(s);
    lemma_strip_concat("0x"@, s);
    lemma_strip_concat("0o"@, s);
    lemma_strip_concat("0b"@, s);
    lemma_strip_without_underscores("0x"@);
    lemma_strip_without_underscores("0o"@);
    lemma_strip_without_underscores("0b"@);
    assert(strip_underscores("0x"@) == "0x"@);
    assert(strip_underscores("0o"@) == "0o"@);
    assert(strip_underscores("0b"@) == "0b"@);
    assert(("0x"@ + s).skip(2) =~= s);
    assert(("0o"@ + s).skip(2) =~= s);
    assert(("0b"@ + s).skip(2) =~= s);
}

/// A literal that does not start with a radix prefix is read in base 10.
pub proof fn lemma_decimal_without_prefix(s: Seq<char>)
    requires
        forall|i: int| 0 <= i < s.len() ==> #[trigger] s[i] != '_',
        !(s.len() >= 2 && s[0] == '0' && (s[1] == 'x' || s[1] == 'o' || s[1] == 'b')),
    ensures
        numeric_id_spec(s) == parse_u16_radix(s, 10),
{
    lemma_strip_without_underscores(s);
}

/// The value of a digit in a radix of at most 36.
fn to_digit(c: char, radix: u32) -> (value: Option<u32>)
    requires
        2 <= radix <= 36,
    ensures
        value matches Some(v) ==> digit_value(c, radix) == Some(v as int),
        value is None ==> digit_value(c, radix) is None,
{
    let v: u32 = if '0' <= c && c <= '9' {
        (c as u32) - 48
    } else if 'a' <= c && c <= 'z' {
        (c as u32) - 87
    } else if 'A' <= c && c <= 'Z' {
        (c as u32) - 55
    } else {
        99
    };
    if v < radix {
        Some(v)
    } else {
        None
    }
}

/// Once the value read so far exceeds `u16::MAX`, reading on cannot bring
/// it back: a scan that fails on a prefix fails the same way on the whole.
proof fn lemma_scan_prefix_error(d: Seq<char>, radix: u32, i: int)
    requires
        0 <= i <= d.len(),
        scan_digits(d.take(i), radix) is Err,
    ensures
        scan_digits(d, radix) == scan_digits(d.take(i), radix),
    decreases d.len() - i,
{
    if i < d.len() {
        assert(d.take(i + 1).drop_last() =~= d.take(i));
        lemma_scan_prefix_error(d, radix, i + 1);
    } else {
        assert(d.take(i) =~= d);
    }
}

/// Reads `digits[start..]` as `u16::from_str_radix` does.
fn parse_radix(digits: &Vec<char>, start: usize, radix: u32) -> (value: Result<u16, IdError>)
    requires
        start <= digits@.len(),
        radix == 2 || radix == 8 || radix == 10 || radix == 16,
    ensures
        value == parse_u16_radix(digits@.skip(start as int), radix),
{
    let ghost d = digits@.skip(start as int);
    let len = digits.len() - start;
    if len == 0 {
        return Err(IdError::Empty);
    }
    if len == 1 && (digits[start] == '+' || digits[start] == '-') {
        return Err(IdError::InvalidDigit);
    }
    let first: usize = if digits[start] == '+' {
        start + 1
    } else {
        start
    };
    let ghost body = digits@.skip(first as int);
    assert(body =~= if d[0] == '+' {
        d.drop_first()
    } else {
        d
    });
    let ghost result = match scan_digits(body, radix) {
        Ok(v) => Ok::<u16, IdError>(v as u16),
        Err(e) => Err::<u16, IdError>(e),
    };
    assert(parse_u16_radix(d, radix) == result);
    let mut acc: u32 = 0;
    let mut i: usize = first;
    while i < digits.len()
        invariant
            first <= i <= digits@.len(),
            parse_u16_radix(digits@.skip(start as int), radix) == result,
            result == match scan_digits(body, radix) {
                Ok(v) => Ok::<u16, IdError>(v as u16),
                Err(e) => Err::<u16, IdError>(e),
            },
            body == digits@.skip(first as int),
            2 <= radix <= 16,
            acc <= u16::MAX,
            scan_digits(body.take(i - first), radix) == Ok::<int, IdError>(acc as int),
        decreases digits@.len() - i,
    {
        let ghost k: int = i - first;
        assert(body.take(k + 1).drop_last() =~= body.take(k));
        assert(body.take(k + 1).last() == digits@[i as int]);
        match to_digit(digits[i], radix) {
            None => {
                proof {
                    lemma_scan_prefix_error(body, radix, k + 1);
                }
                return Err(IdError::InvalidDigit);
            },
            Some(x) => {
                assert(acc * radix <= 65535 * 16) by (nonlinear_arith)
                    requires
                        acc <= 65535,
                        radix <= 16,
                ;
                let next: u32 = acc * radix + x;
                if next > 65535 {
                    proof {
                        lemma_scan_prefix_error(body, radix, k + 1);
                    }
                    return Err(IdError::Overflow);
                }
                acc = next;
            },
        }
        i = i + 1;
    }
    assert(body.take(i - first) =~= body);
    Ok(acc as u16)
}

/// Reads a packet identifier literal: `_` separators are dropped, a `0x`,
/// `0o` or `0b` prefix selects the radix, and the digits must make a `u16`.
pub fn numeric_id(literal: &str) -> (id: Result<u16, IdError>)
    ensures
        id == numeric_id_spec(literal@),
{
    let n = literal.unicode_len();
    let mut text: Vec<char> = Vec::new();
    let mut i: usize = 0;
    while i < n
        invariant
            i <= n,
            n == literal@.len(),
            text@ == strip_underscores(literal@.take(i as int)),
        decreases n - i,
    {
        let c = literal.get_char(i);
        assert(literal@.take(i + 1).drop_last() =~= literal@.take(i as int));
        assert(literal@.take(i + 1).last() == c);
        if c != '_' {
            text.push(c);
        }
        i = i + 1;
    }
    assert(literal@.take(n as int) =~= literal@);
    let ghost t = text@;
    if text.len() >= 2 && text[0] == '0' && text[1] == 'x' {
        parse_radix(&text, 2, 16)
    } else if text.len() >= 2 && text[0] == '0' && text[1] == 'o' {
        parse_radix(&text, 2, 8)
    } else if text.len() >= 2 && text[0] == '0' && text[1] == 'b' {
        parse_radix(&text, 2, 2)
    } else {
        assert(t.skip(0) =~= t);
        parse_radix(&text, 0, 10)
    }
}

/// What checking a list of identifier literals gives: the identifiers, or
/// the first problem in order (a literal that is no `u16`, or an identifier
/// given before).
pub open spec fn check_ids_spec(literals: Seq<Seq<char>>) -> Result<Seq<u16>, PacketIdError>
    decreases literals.len(),
{
    if literals.len() == 0 {
        Ok(Seq::empty())
    } else {
        match check_ids_spec(literals.drop_last()) {
            Err(e) => Err(e),
            Ok(ids) => match numeric_id_spec(literals.last()) {
                Err(e) => Err(PacketIdError::Invalid((literals.len() - 1) as usize, e)),
                Ok(id) => if ids.contains(id) {
                    Err(PacketIdError::Duplicate((literals.len() - 1) as usize, id))
                } else {
                    Ok(ids.push(id))
                },
            },
        }
    }
}

/// Checks the identifier literals of a packet enum's variants, in order:
/// each must be a `u16` and none may repeat an earlier one.
pub fn check_packet_ids(literals: &Vec<String>) -> (ids: Result<Vec<u16>, PacketIdError>)
    ensures
        ids matches Ok(v) ==> check_ids_spec(literals.deep_view()) == Ok::<
            Seq<u16>,
            PacketIdError,
        >(v@),
        ids matches Err(e) ==> check_ids_spec(literals.deep_view()) == Err::<
            Seq<u16>,
            PacketIdError,
        >(e),
{
    let ghost all = literals.deep_view();
    let mut seen: std::collections::HashSet<u16> = std::collections::HashSet::new();
    let mut ids: Vec<u16> = Vec::new();
    let mut i: usize = 0;
    while i < literals.len()
        invariant
            i <= literals@.len(),
            all == literals.deep_view(),
            check_ids_spec(all.take(i as int)) == Ok::<Seq<u16>, PacketIdError>(ids@),
            forall|x: u16| seen@.contains(x) <==> ids@.contains(x),
        decreases literals@.len() - i,
    {
        let ghost prefix = all.take(i + 1);
        assert(prefix.drop_last() =~= all.take(i as int));
        assert(prefix.last() == literals@[i as int]@);
        let id = match numeric_id(literals[i].as_str()) {
            Ok(id) => id,
            Err(e) => {
                proof {
                    lemma_check_prefix_error(all, i + 1);
                }
                return Err(PacketIdError::Invalid(i, e));
            },
        };
        if !seen.insert(id) {
            proof {
                lemma_check_prefix_error(all, i + 1);
            }
            return Err(PacketIdError::Duplicate(i, id));
        }
        let ghost before = ids@;
        ids.push(id);
        assert forall|x: u16| seen@.contains(x) <==> ids@.contains(x) by {
            if ids@.contains(x) && x != id {
                let j = choose|j: int| 0 <= j < ids@.len() && ids@[j] == x;
                assert(before[j] == x);
            }
            if before.contains(x) {
                let j = choose|j: int| 0 <= j < before.len() && before[j] == x;
                assert(ids@[j] == x);
            }
            assert(ids@[before.len() as int] == id);
        }
        i = i + 1;
    }
    assert(all.take(i as int) =~= all);
    Ok(ids)
}

/// A check that fails on a prefix fails the same way on the whole list.
proof fn lemma_check_prefix_error(literals: Seq<Seq<char>>, i: int)
    requires
        0 <= i <= literals.len(),
        check_ids_spec(literals.take(i)) is Err,
    ensures
        check_ids_spec(literals) == check_ids_spec(literals.take(i)),
    decreases literals.len() - i,
{
    if i < literals.len() {
        assert(literals.take(i + 1).drop_last() =~= literals.take(i));
        lemma_check_prefix_error(literals, i + 1);
    } else {
        assert(literals.take(i) =~= literals);
    }
}

/// Accepted identifiers are pairwise different.
pub proof fn lemma_checked_ids_distinct(literals: Seq<Seq<char>>)
    requires
        check_ids_spec(literals) is Ok,
    ensures
        check_ids_spec(literals)->Ok_0.len() == literals.len(),
        forall|a: int, b: int|
            0 <= a < b < check_ids_spec(literals)->Ok_0.len() ==> check_ids_spec(literals)->Ok_0[a]
                != check_ids_spec(literals)->Ok_0[b],
    decreases literals.len(),
{
    if literals.len() > 0 {
        lemma_checked_ids_distinct(literals.drop_last());
        let prev = check_ids_spec(literals.drop_last())->Ok_0;
        let ids = check_ids_spec(literals)->Ok_0;
        assert(ids == prev.push(ids.last()));
        assert forall|a: int, b: int| 0 <= a < b < ids.len() implies ids[a] != ids[b] by {
            if b == ids.len() - 1 {
                assert(prev.contains(ids[a]) ==> true);
                if ids[a] == ids[b] {
                    assert(prev[a] == ids.last());
                    assert(prev.contains(ids.last()));
                }
            }
        }
    }
}

} // verus!
