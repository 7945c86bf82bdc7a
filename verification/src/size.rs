//! Syntactic validation of human-readable sizes such as `5GB` or `1024`.
use vstd::prelude::*;

verus! {

/// The lower-case form of a character, as far as the unit letters are
/// concerned: the ASCII capitals and the Kelvin sign, whose lower-case form is
/// the letter `k`.
pub open spec fn unit_lower(c: char) -> char {
    if c == 'B' {
        'b'
    } else if c == 'K' || c == '\u{212A}' {
        'k'
    } else if c == 'M' {
        'm'
    } else if c == 'G' {
        'g'
    } else if c == 'T' {
        't'
    } else {
        c
    }
}

/// `s` ends with `suffix` when letter case is ignored. `suffix` is lower-case.
pub open spec fn ends_with_ignoring_case(s: Seq<char>, suffix: Seq<char>) -> bool {
    &&& suffix.len() <= s.len()
    &&& forall|i: int|
        0 <= i < suffix.len() ==> unit_lower(#[trigger] s[s.len() - suffix.len() + i]) == suffix[i]
}

/// `s` ends with one of the unit suffixes b, kb, mb, gb, tb, k, m, g, t,
/// in either case.
pub open spec fn ends_with_unit(s: Seq<char>) -> bool {
    ||| ends_with_ignoring_case(s, seq!['b'])
    ||| ends_with_ignoring_case(s, seq!['k', 'b'])
    ||| ends_with_ignoring_case(s, seq!['m', 'b'])
    ||| ends_with_ignoring_case(s, seq!['g', 'b'])
    ||| ends_with_ignoring_case(s, seq!['t', 'b'])
    ||| ends_with_ignoring_case(s, seq!['k'])
    ||| ends_with_ignoring_case(s, seq!['m'])
    ||| ends_with_ignoring_case(s, seq!['g'])
    ||| ends_with_ignoring_case(s, seq!['t'])
}

pub open spec fn is_decimal_digit(c: char) -> bool {
    '0' <= c <= '9'
}

/// Every character of `s` is a decimal digit: a raw byte count. The empty
/// string has no character that is not a digit.
pub open spec fn all_decimal_digits(s: Seq<char>) -> bool {
    forall|i: int| 0 <= i < s.len() ==> is_decimal_digit(#[trigger] s[i])
}

/// A size is accepted when it ends with a unit suffix or consists of digits
/// only. Nothing is said about its magnitude.
pub open spec fn valid_size(s: Seq<char>) -> bool {
    ends_with_unit(s) || all_decimal_digits(s)
}

/// A character that ends a unit suffix, in either case.
pub open spec fn is_size_unit(c: char) -> bool {
    let l = unit_lower(c);
    l == 'b' || l == 'k' || l == 'm' || l == 'g' || l == 't'
}

/// A string ends with a unit suffix exactly when its last character is a unit
/// letter: every suffix ends in one, and each unit letter is a suffix itself.
pub proof fn lemma_unit_suffix_is_last_letter(s: Seq<char>)
    ensures
        ends_with_unit(s) <==> (s.len() > 0 && is_size_unit(s.last())),
{
    if s.len() > 0 {
        let last = s.last();
        let l = unit_lower(last);
        if is_size_unit(last) {
            let one = seq![l];
            assert(ends_with_ignoring_case(s, one)) by {
                assert forall|i: int| 0 <= i < one.len() implies unit_lower(
                    #[trigger] s[s.len() - one.len() + i],
                ) == one[i] by {
                    assert(s[s.len() - one.len() + i] == last);
                }
            }
            assert(one =~= seq!['b'] || one =~= seq!['k'] || one =~= seq!['m'] || one =~= seq!['g']
                || one =~= seq!['t']);
        } else {
            assert forall|suffix: Seq<char>|
                suffix.len() > 0 && is_size_unit(suffix.last()) && unit_lower(suffix.last())
                    == suffix.last() implies !ends_with_ignoring_case(s, suffix) by {
                if ends_with_ignoring_case(s, suffix) {
                    let i = suffix.len() - 1;
                    assert(unit_lower(s[s.len() - suffix.len() + i]) == suffix[i]);
                }
            }
            assert(seq!['k', 'b'].last() == 'b');
            assert(seq!['m', 'b'].last() == 'b');
            assert(seq!['g', 'b'].last() == 'b');
            assert(seq!['t', 'b'].last() == 'b');
            assert(seq!['b'].last() == 'b');
            assert(seq!['k'].last() == 'k');
            assert(seq!['m'].last() == 'm');
            assert(seq!['g'].last() == 'g');
            assert(seq!['t'].last() == 't');
        }
    }
}

fn unit_letter(c: char) -> (r: bool)
    ensures
        r == is_size_unit(c),
{
    c == 'b' || c == 'B' || c == 'k' || c == 'K' || c == '\u{212A}' || c == 'm' || c == 'M' || c
        == 'g' || c == 'G' || c == 't' || c == 'T'
}

fn decimal_digit(c: char) -> (r: bool)
    ensures
        r == is_decimal_digit(c),
{
    '0' <= c && c <= '9'
}

/// Decides whether `size` is accepted as a size.
pub fn check_size(size: &str) -> (ok: bool)
    ensures
        ok == valid_size(size@),
{
    let n: usize = size.unicode_len();
    proof {
        lemma_unit_suffix_is_last_letter(size@);
    }
    if n > 0 && unit_letter(size.get_char(n - 1)) {
        return true;
    }
    let mut i: usize = 0;
    while i < n
        invariant
            n == size@.len(),
            i <= n,
            !ends_with_unit(size@),
            forall|j: int| 0 <= j < i ==> is_decimal_digit(#[trigger] size@[j]),
        decreases n - i,
    {
        if !decimal_digit(size.get_char(i)) {
            assert(!is_decimal_digit(size@[i as int]));
            return false;
        }
        i += 1;
    }
    true
}

} // verus!
