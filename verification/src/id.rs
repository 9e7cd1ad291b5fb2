//! Identifier derivation: a movie's identifier is the decimal rendering of a
//! 64-bit hash of its name.

use vstd::prelude::*;
use std::collections::hash_map::DefaultHasher;
use std::hash::Hasher;
use vstd::std_specs::hash::DefaultHasherAdditionalSpecFns;
use vstd::string::StrSliceExecFns;
use vstd::string::StringExecFns;

verus! {

/// A movie identifier: the decimal string form of the 64-bit name hash.
pub type MovieId = String;

/// The character for a single decimal digit value.
pub open spec fn digit_char(d: nat) -> char {
    if d == 0 {
        '0'
    } else if d == 1 {
        '1'
    } else if d == 2 {
        '2'
    } else if d == 3 {
        '3'
    } else if d == 4 {
        '4'
    } else if d == 5 {
        '5'
    } else if d == 6 {
        '6'
    } else if d == 7 {
        '7'
    } else if d == 8 {
        '8'
    } else {
        '9'
    }
}

/// Whether a character is a decimal digit.
pub open spec fn is_digit(c: char) -> bool {
    ||| c == '0'
    ||| c == '1'
    ||| c == '2'
    ||| c == '3'
    ||| c == '4'
    ||| c == '5'
    ||| c == '6'
    ||| c == '7'
    ||| c == '8'
    ||| c == '9'
}

/// The numeric value of a decimal digit character.
pub open spec fn char_digit(c: char) -> nat {
    if c == '0' {
        0
    } else if c == '1' {
        1
    } else if c == '2' {
        2
    } else if c == '3' {
        3
    } else if c == '4' {
        4
    } else if c == '5' {
        5
    } else if c == '6' {
        6
    } else if c == '7' {
        7
    } else if c == '8' {
        8
    } else {
        9
    }
}

/// Whether every character of `s` is a decimal digit.
pub open spec fn all_digits(s: Seq<char>) -> bool {
    forall|i: int| 0 <= i < s.len() ==> is_digit(#[trigger] s[i])
}

/// The decimal rendering of a natural number, most significant digit first,
/// with no leading zeros (zero itself renders as "0").
pub open spec fn dec_digits(n: nat) -> Seq<char>
    decreases n,
{
    if n < 10 {
        seq![digit_char(n)]
    } else {
        dec_digits(n / 10).push(digit_char(n % 10))
    }
}

/// The numeric value of a sequence of decimal digit characters.
pub open spec fn dec_value(s: Seq<char>) -> nat
    decreases s.len(),
{
    if s.len() == 0 {
        0
    } else {
        dec_value(s.drop_last()) * 10 + char_digit(s.last())
    }
}

/// Renders `n % 10` and pushes the matching digit character onto `out`.
fn push_digit_char(out: &mut String, d: u64)
    requires
        d < 10,
    ensures
        final(out)@ == old(out)@.push(digit_char(d as nat)),
{
    let ghost prev = out@;
    if d == 0 {
        out.append("0");
    } else if d == 1 {
        out.append("1");
    } else if d == 2 {
        out.append("2");
    } else if d == 3 {
        out.append("3");
    } else if d == 4 {
        out.append("4");
    } else if d == 5 {
        out.append("5");
    } else if d == 6 {
        out.append("6");
    } else if d == 7 {
        out.append("7");
    } else if d == 8 {
        out.append("8");
    } else {
        out.append("9");
    }
    proof {
        reveal_strlit("0");
        reveal_strlit("1");
        reveal_strlit("2");
        reveal_strlit("3");
        reveal_strlit("4");
        reveal_strlit("5");
        reveal_strlit("6");
        reveal_strlit("7");
        reveal_strlit("8");
        reveal_strlit("9");
        assert(out@ =~= prev.push(digit_char(d as nat)));
    }
}

/// Appends the decimal rendering of `n` to `out`.
fn push_decimal(out: &mut String, n: u64)
    ensures
        final(out)@ == old(out)@ + dec_digits(n as nat),
    decreases n,
{
    if n >= 10 {
        push_decimal(out, n / 10);
        push_digit_char(out, n % 10);
        assert(out@ =~= old(out)@ + dec_digits(n as nat));
    } else {
        push_digit_char(out, n);
        assert(out@ =~= old(out)@ + dec_digits(n as nat));
    }
}

/// The decimal string form of a 64-bit value.
pub fn u64_to_decimal(n: u64) -> (s: String)
    ensures
        s@ == dec_digits(n as nat),
{
    let mut s = String::new();
    push_decimal(&mut s, n);
    proof {
        assert(s@ =~= dec_digits(n as nat));
    }
    s
}

/// A decimal rendering consists of digits, is never empty, and starts with
/// '0' only for the value zero; its value is the number it renders.
pub proof fn lemma_dec_digits_props(n: nat)
    ensures
        dec_digits(n).len() >= 1,
        all_digits(dec_digits(n)),
        dec_value(dec_digits(n)) == n,
        dec_digits(n)[0] == '0' ==> n == 0,
    decreases n,
{
    if n < 10 {
        let s = dec_digits(n);
        assert(s =~= seq![digit_char(n)]);
        assert(s.drop_last() =~= Seq::<char>::empty());
        assert(dec_value(Seq::<char>::empty()) == 0);
        assert(dec_value(s) == dec_value(s.drop_last()) * 10 + char_digit(s.last()));
        assert(s.last() == digit_char(n));
        assert(dec_value(s) == char_digit(digit_char(n)));
    } else {
        lemma_dec_digits_props(n / 10);
        let s = dec_digits(n);
        assert(s.drop_last() =~= dec_digits(n / 10));
        assert(dec_value(s) == (n / 10) * 10 + char_digit(digit_char(n % 10)));
        assert(char_digit(digit_char(n % 10)) == n % 10);
        assert((n / 10) * 10 + n % 10 == n) by {
            vstd::arithmetic::div_mod::lemma_fundamental_div_mod(n as int, 10);
        }
        assert(s[0] == dec_digits(n / 10)[0]);
    }
}

/// Two different values never share a decimal rendering.
pub proof fn lemma_dec_digits_injective(a: nat, b: nat)
    requires
        dec_digits(a) == dec_digits(b),
    ensures
        a == b,
{
    lemma_dec_digits_props(a);
    lemma_dec_digits_props(b);
}

/// A nonempty digit string with a nonzero leading digit has a positive
/// value, at least 10 if it is more than one digit long.
proof fn lemma_digit_string_value_pos(s: Seq<char>)
    requires
        s.len() >= 1,
        all_digits(s),
        s[0] != '0',
    ensures
        dec_value(s) >= 1,
        s.len() >= 2 ==> dec_value(s) >= 10,
    decreases s.len(),
{
    if s.len() == 1 {
        assert(s.drop_last() =~= Seq::<char>::empty());
        assert(dec_value(Seq::<char>::empty()) == 0);
        assert(dec_value(s) == dec_value(s.drop_last()) * 10 + char_digit(s.last()));
        assert(dec_value(s) == char_digit(s[0]));
    } else {
        let s1 = s.drop_last();
        assert(s1[0] == s[0]);
        lemma_digit_string_value_pos(s1);
    }
}

/// A digit string in canonical form (nonempty, no leading zero) is exactly
/// the decimal rendering of its own value.
pub proof fn lemma_canonical_digits_unique(s: Seq<char>)
    requires
        s.len() >= 1,
        all_digits(s),
        s.len() > 1 ==> s[0] != '0',
    ensures
        s == dec_digits(dec_value(s)),
    decreases s.len(),
{
    if s.len() == 1 {
        let c = s[0];
        assert(s.drop_last() =~= Seq::<char>::empty());
        assert(dec_value(Seq::<char>::empty()) == 0);
        assert(dec_value(s) == dec_value(s.drop_last()) * 10 + char_digit(s.last()));
        assert(dec_value(s) == char_digit(c));
        assert(is_digit(c));
        assert(digit_char(char_digit(c)) == c);
        assert(s =~= dec_digits(dec_value(s)));
    } else {
        let s1 = s.drop_last();
        let c = s.last();
        let d = char_digit(c);
        let v1 = dec_value(s1);
        let v = dec_value(s);
        assert(v == v1 * 10 + d);
        assert(s1[0] == s[0]);
        assert(all_digits(s1));
        lemma_digit_string_value_pos(s1);
        assert(v >= 10);
        assert(v / 10 == v1 && v % 10 == d) by {
            vstd::arithmetic::div_mod::lemma_fundamental_div_mod_converse(
                v as int,
                10,
                v1 as int,
                d as int,
            );
        }
        lemma_canonical_digits_unique(s1);
        assert(is_digit(c));
        assert(digit_char(char_digit(c)) == c);
        assert(s =~= dec_digits(v1).push(digit_char(d)));
        assert(dec_digits(v) == dec_digits(v / 10).push(digit_char(v % 10)));
    }
}

/// Extending a digit string on the right never decreases its value.
proof fn lemma_dec_value_prefix(s: Seq<char>, i: int)
    requires
        0 <= i <= s.len(),
    ensures
        dec_value(s) >= dec_value(s.subrange(0, i)),
    decreases s.len() - i,
{
    if i == s.len() {
        assert(s.subrange(0, i) =~= s);
    } else {
        let p = s.subrange(0, i);
        let q = s.subrange(0, i + 1);
        assert(q.drop_last() =~= p);
        assert(dec_value(q) == dec_value(p) * 10 + char_digit(q.last()));
        lemma_dec_value_prefix(s, i + 1);
    }
}

/// The 64-bit hash of a movie name: the standard library's default hasher,
/// fed the name's UTF-8 bytes. vstd models the hasher's result as a pure
/// function of the bytes written, so the hash is a function of the name.
pub open spec fn spec_name_hash(name: Seq<char>) -> u64 {
    DefaultHasher::spec_finish(seq![vstd::utf8::encode_utf8(name)])
}

/// The identifier derived from a movie name: the decimal string of its hash.
pub open spec fn spec_movie_id(name: Seq<char>) -> Seq<char> {
    dec_digits(spec_name_hash(name) as nat)
}

/// Hashes a movie name to its 64-bit identifier value.
pub(crate) fn name_hash(name: &str) -> (h: u64)
    ensures
        h == spec_name_hash(name@),
{
    let mut hasher = DefaultHasher::new();
    hasher.write(name.as_bytes());
    proof {
        assert(hasher@ =~= seq![vstd::utf8::encode_utf8(name@)]);
    }
    hasher.finish()
}

/// Law: identifier derivation is deterministic — deriving an identifier
/// from the same name twice always yields the same value.
pub proof fn lemma_movie_id_deterministic(name1: Seq<char>, name2: Seq<char>)
    requires
        name1 == name2,
    ensures
        spec_movie_id(name1) == spec_movie_id(name2),
{
}

/// Derives the identifier for a movie name: hash the name, render the hash
/// in decimal. Deterministic — the same name always yields the same id.
pub fn generate_new_movie_id(key: &str) -> (id: MovieId)
    ensures
        id@ == spec_movie_id(key@),
{
    let h = name_hash(key);
    u64_to_decimal(h)
}

/// Reads an identifier string back as the 64-bit value it renders.
/// Succeeds exactly on the canonical decimal form of a 64-bit value:
/// no other string is the rendering of any value.
pub fn parse_movie_id(s: &str) -> (r: Option<u64>)
    ensures
        match r {
            Some(n) => s@ == dec_digits(n as nat),
            None => forall|n: u64| s@ != dec_digits(n as nat),
        },
{
    let len = s.unicode_len();
    if len == 0 {
        proof {
            assert forall|n: u64| s@ != dec_digits(n as nat) by {
                lemma_dec_digits_props(n as nat);
            }
        }
        return None;
    }
    if len > 1 && s.get_char(0) == '0' {
        proof {
            assert forall|n: u64| s@ != dec_digits(n as nat) by {
                lemma_dec_digits_props(n as nat);
            }
        }
        return None;
    }
    let mut i: usize = 0;
    let mut acc: u64 = 0;
    while i < len
        invariant
            0 <= i <= len,
            len == s@.len(),
            all_digits(s@.subrange(0, i as int)),
            acc as nat == dec_value(s@.subrange(0, i as int)),
        decreases len - i,
    {
        let c = s.get_char(i);
        let d: u64 = if c == '0' {
            0
        } else if c == '1' {
            1
        } else if c == '2' {
            2
        } else if c == '3' {
            3
        } else if c == '4' {
            4
        } else if c == '5' {
            5
        } else if c == '6' {
            6
        } else if c == '7' {
            7
        } else if c == '8' {
            8
        } else if c == '9' {
            9
        } else {
            proof {
                assert(!is_digit(s@[i as int]));
                assert forall|n: u64| s@ != dec_digits(n as nat) by {
                    lemma_dec_digits_props(n as nat);
                }
            }
            return None;
        };
        proof {
            assert(s@.subrange(0, i + 1).drop_last() =~= s@.subrange(0, i as int));
            assert(s@.subrange(0, i + 1).last() == s@[i as int]);
            assert(char_digit(s@[i as int]) == d as nat);
        }
        if acc > u64::MAX / 10 || (acc == u64::MAX / 10 && d > u64::MAX % 10) {
            proof {
                assert(dec_value(s@.subrange(0, i + 1)) > u64::MAX);
                lemma_dec_value_prefix(s@, i + 1);
                assert forall|n: u64| s@ != dec_digits(n as nat) by {
                    lemma_dec_digits_props(n as nat);
                }
            }
            return None;
        }
        acc = acc * 10 + d;
        i = i + 1;
    }
    proof {
        assert(s@.subrange(0, len as int) =~= s@);
        lemma_canonical_digits_unique(s@);
    }
    Some(acc)
}

} // verus!
