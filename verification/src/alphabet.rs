//! The alphabet that identifiers are drawn from, and the character class that
//! identifiers supplied from outside are held to.

use vstd::prelude::*;
use vstd::string::*;
use vstd::utf8::is_ascii_chars;

verus! {

/// Number of symbols in the base62 alphabet.
pub const BASE62_LEN: usize = 62;

/// Table to retrieve base62 symbols from.
pub const BASE62: &'static str = "0123456789ABCDEFGHIJKLMNOPQRSTUVWXYZabcdefghijklmnopqrstuvwxyz";

/// The symbol at position `k` of the base62 alphabet: the digits, then the
/// upper-case letters, then the lower-case letters.
pub open spec fn base62_symbol(k: int) -> char
    recommends
        0 <= k < 62,
{
    if k < 10 {
        ('0' as int + k) as char
    } else if k < 36 {
        ('A' as int + (k - 10)) as char
    } else {
        ('a' as int + (k - 36)) as char
    }
}

/// Membership in the base62 alphabet: `c` stands at some position of the table.
pub open spec fn is_base62(c: char) -> bool {
    exists|k: int| 0 <= k < 62 && #[trigger] base62_symbol(k) == c
}

/// The ASCII alphanumeric character class: a digit, an upper-case or a
/// lower-case letter of ASCII.
pub open spec fn is_ascii_alnum(c: char) -> bool {
    ||| '0' <= c <= '9'
    ||| 'A' <= c <= 'Z'
    ||| 'a' <= c <= 'z'
}

/// `char::is_ascii_alphanumeric` of std tells whether the character is one of
/// U+0030 '0' ..= U+0039 '9', U+0041 'A' ..= U+005A 'Z' and
/// U+0061 'a' ..= U+007A 'z'.
pub assume_specification[ char::is_ascii_alphanumeric ](c: &char) -> (yes: bool)
    ensures
        yes == is_ascii_alnum(*c),
;

/// The two checks agree: a character is a symbol of the base62 alphabet if
/// and only if it is ASCII alphanumeric.
pub proof fn lemma_base62_is_alphanumeric(c: char)
    ensures
        is_base62(c) <==> is_ascii_alnum(c),
{
    if is_ascii_alnum(c) {
        let k: int = if '0' <= c <= '9' {
            c as int - '0' as int
        } else if 'A' <= c <= 'Z' {
            c as int - 'A' as int + 10
        } else {
            c as int - 'a' as int + 36
        };
        assert(0 <= k < 62 && base62_symbol(k) == c);
    }
}

/// The alphabet holds 62 different symbols: no two positions share one.
pub proof fn lemma_symbols_distinct(j: int, k: int)
    requires
        0 <= j < 62,
        0 <= k < 62,
        j != k,
    ensures
        base62_symbol(j) != base62_symbol(k),
{
}

/// The table holds exactly the symbols of the alphabet, in order.
pub proof fn lemma_table_is_alphabet()
    ensures
        BASE62@.len() == 62,
        forall|k: int| 0 <= k < 62 ==> BASE62@[k] == base62_symbol(k),
        is_ascii_chars(BASE62@),
{
    reveal_strlit("0123456789ABCDEFGHIJKLMNOPQRSTUVWXYZabcdefghijklmnopqrstuvwxyz");
}

/// The one-symbol text that a sample selects: the table entry at the sample's
/// remainder modulo the table's length.
pub fn symbol(sample: usize) -> (s: &'static str)
    ensures
        s@ == seq![base62_symbol(sample as int % 62)],
{
    let k: usize = sample % BASE62_LEN;
    proof {
        lemma_table_is_alphabet();
    }
    let s = BASE62.substring_ascii(k, k + 1);
    assert(s@ =~= seq![base62_symbol(k as int)]);
    s
}

} // verus!
