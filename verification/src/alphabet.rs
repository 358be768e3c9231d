//! The 32-symbol bech32 data alphabet and suffix validation.

use vstd::prelude::*;

verus! {

/// The fixed, protocol-mandated leading segment of every mainnet segwit
/// address: the hrp "bc", the separator '1' and the witness-version symbol.
pub open spec fn hrp_prefix() -> Seq<char> {
    seq!['b', 'c', '1', 'q']
}

/// Whether `p` is a leading segment of `s`.
pub open spec fn starts_with(s: Seq<char>, p: Seq<char>) -> bool {
    p.len() <= s.len() && s.subrange(0, p.len() as int) == p
}

/// Decides whether the string `s` begins with the string `p`, character for
/// character.
pub fn str_starts_with(s: &str, p: &str) -> (r: bool)
    ensures
        r == starts_with(s@, p@),
{
    let n = s.unicode_len();
    let m = p.unicode_len();
    if m > n {
        assert(!starts_with(s@, p@));
        return false;
    }
    let mut i: usize = 0;
    while i < m
        invariant
            n == s@.len(),
            m == p@.len(),
            m <= n,
            0 <= i <= m,
            forall|j: int| 0 <= j < i ==> s@[j] == p@[j],
        decreases m - i,
    {
        if s.get_char(i) != p.get_char(i) {
            assert(s@.subrange(0, m as int)[i as int] != p@[i as int]);
            return false;
        }
        i += 1;
    }
    assert(s@.subrange(0, m as int) =~= p@);
    true
}

/// Whether `c` is one of the 32 symbols of the bech32 data alphabet.
pub open spec fn is_alphabet_char(c: char) -> bool {
    ||| c == 'q' ||| c == 'p' ||| c == 'z' ||| c == 'r'
    ||| c == 'y' ||| c == '9' ||| c == 'x' ||| c == '8'
    ||| c == 'g' ||| c == 'f' ||| c == '2' ||| c == 't'
    ||| c == 'v' ||| c == 'd' ||| c == 'w' ||| c == '0'
    ||| c == 's' ||| c == '3' ||| c == 'j' ||| c == 'n'
    ||| c == '5' ||| c == '4' ||| c == 'k' ||| c == 'h'
    ||| c == 'c' ||| c == 'e' ||| c == '6' ||| c == 'm'
    ||| c == 'u' ||| c == 'a' ||| c == '7' ||| c == 'l'
}

/// Whether every character of `s` belongs to the alphabet.
pub open spec fn all_alphabet(s: Seq<char>) -> bool {
    forall|i: int| 0 <= i < s.len() ==> is_alphabet_char(#[trigger] s[i])
}

/// Decides membership in the bech32 data alphabet.
pub fn alphabet_char(c: char) -> (r: bool)
    ensures
        r == is_alphabet_char(c),
{
    c == 'q' || c == 'p' || c == 'z' || c == 'r'
        || c == 'y' || c == '9' || c == 'x' || c == '8'
        || c == 'g' || c == 'f' || c == '2' || c == 't'
        || c == 'v' || c == 'd' || c == 'w' || c == '0'
        || c == 's' || c == '3' || c == 'j' || c == 'n'
        || c == '5' || c == '4' || c == 'k' || c == 'h'
        || c == 'c' || c == 'e' || c == '6' || c == 'm'
        || c == 'u' || c == 'a' || c == '7' || c == 'l'
}

/// Returns the first character of `s` outside the alphabet, or `None` when
/// every character of `s` belongs to it.
pub fn first_invalid_char(s: &str) -> (r: Option<char>)
    ensures
        r is None <==> all_alphabet(s@),
        r matches Some(c) ==> exists|i: int|
            0 <= i < s@.len() && !is_alphabet_char(#[trigger] s@[i]) && c == s@[i]
            && (forall|j: int| 0 <= j < i ==> is_alphabet_char(#[trigger] s@[j])),
{
    let n = s.unicode_len();
    let mut i: usize = 0;
    while i < n
        invariant
            n == s@.len(),
            0 <= i <= n,
            forall|j: int| 0 <= j < i ==> is_alphabet_char(#[trigger] s@[j]),
        decreases n - i,
    {
        let c = s.get_char(i);
        if !alphabet_char(c) {
            return Some(c);
        }
        i += 1;
    }
    None
}

} // verus!
