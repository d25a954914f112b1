//! The base-58 alphabet and the codec between byte payloads and their
//! base-58 string form, verified against the radix arithmetic of
//! `bignum`.

use vstd::prelude::*;

use crate::bignum::be256;
use crate::bignum::be58;
use crate::bignum::bytes256_of;
use crate::bignum::canonical;
use crate::bignum::digits58;
use crate::bignum::digits58_of;
use crate::bignum::divmod58;
use crate::bignum::le256;
use crate::bignum::le58;
use crate::bignum::lemma_bytes256_of_props;
use crate::bignum::lemma_digits58_of_props;
use crate::bignum::lemma_le256_bytes_inverse;
use crate::bignum::lemma_le256_pos;
use crate::bignum::lemma_le58_digits_inverse;
use crate::bignum::lemma_rev_le256;
use crate::bignum::lemma_rev_le58;
use crate::bignum::lemma_rev_rev;
use crate::bignum::mul58add;
use crate::bignum::rev;
use crate::bignum::reverse_bytes;
use vstd::arithmetic::div_mod::lemma_fundamental_div_mod_converse;

verus! {

/// The digit's character in the base-58 alphabet (a blank for anything
/// out of range).
pub open spec fn b58_char(d: int) -> char {
    if d == 0 {
        '1'
    } else if d == 1 {
        '2'
    } else if d == 2 {
        '3'
    } else if d == 3 {
        '4'
    } else if d == 4 {
        '5'
    } else if d == 5 {
        '6'
    } else if d == 6 {
        '7'
    } else if d == 7 {
        '8'
    } else if d == 8 {
        '9'
    } else if d == 9 {
        'A'
    } else if d == 10 {
        'B'
    } else if d == 11 {
        'C'
    } else if d == 12 {
        'D'
    } else if d == 13 {
        'E'
    } else if d == 14 {
        'F'
    } else if d == 15 {
        'G'
    } else if d == 16 {
        'H'
    } else if d == 17 {
        'J'
    } else if d == 18 {
        'K'
    } else if d == 19 {
        'L'
    } else if d == 20 {
        'M'
    } else if d == 21 {
        'N'
    } else if d == 22 {
        'P'
    } else if d == 23 {
        'Q'
    } else if d == 24 {
        'R'
    } else if d == 25 {
        'S'
    } else if d == 26 {
        'T'
    } else if d == 27 {
        'U'
    } else if d == 28 {
        'V'
    } else if d == 29 {
        'W'
    } else if d == 30 {
        'X'
    } else if d == 31 {
        'Y'
    } else if d == 32 {
        'Z'
    } else if d == 33 {
        'a'
    } else if d == 34 {
        'b'
    } else if d == 35 {
        'c'
    } else if d == 36 {
        'd'
    } else if d == 37 {
        'e'
    } else if d == 38 {
        'f'
    } else if d == 39 {
        'g'
    } else if d == 40 {
        'h'
    } else if d == 41 {
        'i'
    } else if d == 42 {
        'j'
    } else if d == 43 {
        'k'
    } else if d == 44 {
        'm'
    } else if d == 45 {
        'n'
    } else if d == 46 {
        'o'
    } else if d == 47 {
        'p'
    } else if d == 48 {
        'q'
    } else if d == 49 {
        'r'
    } else if d == 50 {
        's'
    } else if d == 51 {
        't'
    } else if d == 52 {
        'u'
    } else if d == 53 {
        'v'
    } else if d == 54 {
        'w'
    } else if d == 55 {
        'x'
    } else if d == 56 {
        'y'
    } else if d == 57 {
        'z'
    } else {
        ' '
    }
}

/// The character's value in the base-58 alphabet, `-1` for a character
/// outside it.
pub open spec fn b58_digit(c: char) -> int {
    match c {
        '1' => 0,
        '2' => 1,
        '3' => 2,
        '4' => 3,
        '5' => 4,
        '6' => 5,
        '7' => 6,
        '8' => 7,
        '9' => 8,
        'A' => 9,
        'B' => 10,
        'C' => 11,
        'D' => 12,
        'E' => 13,
        'F' => 14,
        'G' => 15,
        'H' => 16,
        'J' => 17,
        'K' => 18,
        'L' => 19,
        'M' => 20,
        'N' => 21,
        'P' => 22,
        'Q' => 23,
        'R' => 24,
        'S' => 25,
        'T' => 26,
        'U' => 27,
        'V' => 28,
        'W' => 29,
        'X' => 30,
        'Y' => 31,
        'Z' => 32,
        'a' => 33,
        'b' => 34,
        'c' => 35,
        'd' => 36,
        'e' => 37,
        'f' => 38,
        'g' => 39,
        'h' => 40,
        'i' => 41,
        'j' => 42,
        'k' => 43,
        'm' => 44,
        'n' => 45,
        'o' => 46,
        'p' => 47,
        'q' => 48,
        'r' => 49,
        's' => 50,
        't' => 51,
        'u' => 52,
        'v' => 53,
        'w' => 54,
        'x' => 55,
        'y' => 56,
        'z' => 57,
        _ => -1,
    }
}

/// Reading a digit's character back gives the digit.
pub proof fn lemma_b58_char_digit(d: int)
    requires
        0 <= d < 58,
    ensures
        b58_digit(b58_char(d)) == d,
{
}

/// Writing a character's digit back gives the character.
pub proof fn lemma_b58_digit_char(c: char)
    requires
        b58_digit(c) >= 0,
    ensures
        0 <= b58_digit(c) < 58,
        b58_char(b58_digit(c)) == c,
{
}

/// The character string of a digit string, most significant first.
pub open spec fn b58_chars_of(ds: Seq<u8>) -> Seq<char> {
    Seq::new(ds.len(), |i: int| b58_char(ds[i] as int))
}

/// The base-58 string of a big-endian byte payload whose first byte is
/// not zero.
pub open spec fn b58_string_of(p: Seq<u8>) -> Seq<char> {
    b58_chars_of(rev(digits58_of(be256(p))))
}

/// The character's value in the base-58 alphabet, `255` for a character
/// outside it.
fn b58_digit_value(c: char) -> (r: u8)
    ensures
        r < 58 <==> b58_digit(c) >= 0,
        r < 58 ==> r == b58_digit(c),
{
    match c {
            '1' => 0,
            '2' => 1,
            '3' => 2,
            '4' => 3,
            '5' => 4,
            '6' => 5,
            '7' => 6,
            '8' => 7,
            '9' => 8,
            'A' => 9,
            'B' => 10,
            'C' => 11,
            'D' => 12,
            'E' => 13,
            'F' => 14,
            'G' => 15,
            'H' => 16,
            'J' => 17,
            'K' => 18,
            'L' => 19,
            'M' => 20,
            'N' => 21,
            'P' => 22,
            'Q' => 23,
            'R' => 24,
            'S' => 25,
            'T' => 26,
            'U' => 27,
            'V' => 28,
            'W' => 29,
            'X' => 30,
            'Y' => 31,
            'Z' => 32,
            'a' => 33,
            'b' => 34,
            'c' => 35,
            'd' => 36,
            'e' => 37,
            'f' => 38,
            'g' => 39,
            'h' => 40,
            'i' => 41,
            'j' => 42,
            'k' => 43,
            'm' => 44,
            'n' => 45,
            'o' => 46,
            'p' => 47,
            'q' => 48,
            'r' => 49,
            's' => 50,
            't' => 51,
            'u' => 52,
            'v' => 53,
            'w' => 54,
            'x' => 55,
            'y' => 56,
            'z' => 57,
            _ => 255,
    }
}

/// Append the digit's character to the string being built.
fn push_b58_char(out: &mut String, d: u8)
    requires
        d < 58,
    ensures
        final(out)@ == old(out)@.push(b58_char(d as int)),
{
    match d {
            0 => {
                out.append("1");
                proof {
                    reveal_strlit("1");
                    assert(final(out)@ =~= old(out)@.push(b58_char(0)));
                }
            },
            1 => {
                out.append("2");
                proof {
                    reveal_strlit("2");
                    assert(final(out)@ =~= old(out)@.push(b58_char(1)));
                }
            },
            2 => {
                out.append("3");
                proof {
                    reveal_strlit("3");
                    assert(final(out)@ =~= old(out)@.push(b58_char(2)));
                }
            },
            3 => {
                out.append("4");
                proof {
                    reveal_strlit("4");
                    assert(final(out)@ =~= old(out)@.push(b58_char(3)));
                }
            },
            4 => {
                out.append("5");
                proof {
                    reveal_strlit("5");
                    assert(final(out)@ =~= old(out)@.push(b58_char(4)));
                }
            },
            5 => {
                out.append("6");
                proof {
                    reveal_strlit("6");
                    assert(final(out)@ =~= old(out)@.push(b58_char(5)));
                }
            },
            6 => {
                out.append("7");
                proof {
                    reveal_strlit("7");
                    assert(final(out)@ =~= old(out)@.push(b58_char(6)));
                }
            },
            7 => {
                out.append("8");
                proof {
                    reveal_strlit("8");
                    assert(final(out)@ =~= old(out)@.push(b58_char(7)));
                }
            },
            8 => {
                out.append("9");
                proof {
                    reveal_strlit("9");
                    assert(final(out)@ =~= old(out)@.push(b58_char(8)));
                }
            },
            9 => {
                out.append("A");
                proof {
                    reveal_strlit("A");
                    assert(final(out)@ =~= old(out)@.push(b58_char(9)));
                }
            },
            10 => {
                out.append("B");
                proof {
                    reveal_strlit("B");
                    assert(final(out)@ =~= old(out)@.push(b58_char(10)));
                }
            },
            11 => {
                out.append("C");
                proof {
                    reveal_strlit("C");
                    assert(final(out)@ =~= old(out)@.push(b58_char(11)));
                }
            },
            12 => {
                out.append("D");
                proof {
                    reveal_strlit("D");
                    assert(final(out)@ =~= old(out)@.push(b58_char(12)));
                }
            },
            13 => {
                out.append("E");
                proof {
                    reveal_strlit("E");
                    assert(final(out)@ =~= old(out)@.push(b58_char(13)));
                }
            },
            14 => {
                out.append("F");
                proof {
                    reveal_strlit("F");
                    assert(final(out)@ =~= old(out)@.push(b58_char(14)));
                }
            },
            15 => {
                out.append("G");
                proof {
                    reveal_strlit("G");
                    assert(final(out)@ =~= old(out)@.push(b58_char(15)));
                }
            },
            16 => {
                out.append("H");
                proof {
                    reveal_strlit("H");
                    assert(final(out)@ =~= old(out)@.push(b58_char(16)));
                }
            },
            17 => {
                out.append("J");
                proof {
                    reveal_strlit("J");
                    assert(final(out)@ =~= old(out)@.push(b58_char(17)));
                }
            },
            18 => {
                out.append("K");
                proof {
                    reveal_strlit("K");
                    assert(final(out)@ =~= old(out)@.push(b58_char(18)));
                }
            },
            19 => {
                out.append("L");
                proof {
                    reveal_strlit("L");
                    assert(final(out)@ =~= old(out)@.push(b58_char(19)));
                }
            },
            20 => {
                out.append("M");
                proof {
                    reveal_strlit("M");
                    assert(final(out)@ =~= old(out)@.push(b58_char(20)));
                }
            },
            21 => {
                out.append("N");
                proof {
                    reveal_strlit("N");
                    assert(final(out)@ =~= old(out)@.push(b58_char(21)));
                }
            },
            22 => {
                out.append("P");
                proof {
                    reveal_strlit("P");
                    assert(final(out)@ =~= old(out)@.push(b58_char(22)));
                }
            },
            23 => {
                out.append("Q");
                proof {
                    reveal_strlit("Q");
                    assert(final(out)@ =~= old(out)@.push(b58_char(23)));
                }
            },
            24 => {
                out.append("R");
                proof {
                    reveal_strlit("R");
                    assert(final(out)@ =~= old(out)@.push(b58_char(24)));
                }
            },
            25 => {
                out.append("S");
                proof {
                    reveal_strlit("S");
                    assert(final(out)@ =~= old(out)@.push(b58_char(25)));
                }
            },
            26 => {
                out.append("T");
                proof {
                    reveal_strlit("T");
                    assert(final(out)@ =~= old(out)@.push(b58_char(26)));
                }
            },
            27 => {
                out.append("U");
                proof {
                    reveal_strlit("U");
                    assert(final(out)@ =~= old(out)@.push(b58_char(27)));
                }
            },
            28 => {
                out.append("V");
                proof {
                    reveal_strlit("V");
                    assert(final(out)@ =~= old(out)@.push(b58_char(28)));
                }
            },
            29 => {
                out.append("W");
                proof {
                    reveal_strlit("W");
                    assert(final(out)@ =~= old(out)@.push(b58_char(29)));
                }
            },
            30 => {
                out.append("X");
                proof {
                    reveal_strlit("X");
                    assert(final(out)@ =~= old(out)@.push(b58_char(30)));
                }
            },
            31 => {
                out.append("Y");
                proof {
                    reveal_strlit("Y");
                    assert(final(out)@ =~= old(out)@.push(b58_char(31)));
                }
            },
            32 => {
                out.append("Z");
                proof {
                    reveal_strlit("Z");
                    assert(final(out)@ =~= old(out)@.push(b58_char(32)));
                }
            },
            33 => {
                out.append("a");
                proof {
                    reveal_strlit("a");
                    assert(final(out)@ =~= old(out)@.push(b58_char(33)));
                }
            },
            34 => {
                out.append("b");
                proof {
                    reveal_strlit("b");
                    assert(final(out)@ =~= old(out)@.push(b58_char(34)));
                }
            },
            35 => {
                out.append("c");
                proof {
                    reveal_strlit("c");
                    assert(final(out)@ =~= old(out)@.push(b58_char(35)));
                }
            },
            36 => {
                out.append("d");
                proof {
                    reveal_strlit("d");
                    assert(final(out)@ =~= old(out)@.push(b58_char(36)));
                }
            },
            37 => {
                out.append("e");
                proof {
                    reveal_strlit("e");
                    assert(final(out)@ =~= old(out)@.push(b58_char(37)));
                }
            },
            38 => {
                out.append("f");
                proof {
                    reveal_strlit("f");
                    assert(final(out)@ =~= old(out)@.push(b58_char(38)));
                }
            },
            39 => {
                out.append("g");
                proof {
                    reveal_strlit("g");
                    assert(final(out)@ =~= old(out)@.push(b58_char(39)));
                }
            },
            40 => {
                out.append("h");
                proof {
                    reveal_strlit("h");
                    assert(final(out)@ =~= old(out)@.push(b58_char(40)));
                }
            },
            41 => {
                out.append("i");
                proof {
                    reveal_strlit("i");
                    assert(final(out)@ =~= old(out)@.push(b58_char(41)));
                }
            },
            42 => {
                out.append("j");
                proof {
                    reveal_strlit("j");
                    assert(final(out)@ =~= old(out)@.push(b58_char(42)));
                }
            },
            43 => {
                out.append("k");
                proof {
                    reveal_strlit("k");
                    assert(final(out)@ =~= old(out)@.push(b58_char(43)));
                }
            },
            44 => {
                out.append("m");
                proof {
                    reveal_strlit("m");
                    assert(final(out)@ =~= old(out)@.push(b58_char(44)));
                }
            },
            45 => {
                out.append("n");
                proof {
                    reveal_strlit("n");
                    assert(final(out)@ =~= old(out)@.push(b58_char(45)));
                }
            },
            46 => {
                out.append("o");
                proof {
                    reveal_strlit("o");
                    assert(final(out)@ =~= old(out)@.push(b58_char(46)));
                }
            },
            47 => {
                out.append("p");
                proof {
                    reveal_strlit("p");
                    assert(final(out)@ =~= old(out)@.push(b58_char(47)));
                }
            },
            48 => {
                out.append("q");
                proof {
                    reveal_strlit("q");
                    assert(final(out)@ =~= old(out)@.push(b58_char(48)));
                }
            },
            49 => {
                out.append("r");
                proof {
                    reveal_strlit("r");
                    assert(final(out)@ =~= old(out)@.push(b58_char(49)));
                }
            },
            50 => {
                out.append("s");
                proof {
                    reveal_strlit("s");
                    assert(final(out)@ =~= old(out)@.push(b58_char(50)));
                }
            },
            51 => {
                out.append("t");
                proof {
                    reveal_strlit("t");
                    assert(final(out)@ =~= old(out)@.push(b58_char(51)));
                }
            },
            52 => {
                out.append("u");
                proof {
                    reveal_strlit("u");
                    assert(final(out)@ =~= old(out)@.push(b58_char(52)));
                }
            },
            53 => {
                out.append("v");
                proof {
                    reveal_strlit("v");
                    assert(final(out)@ =~= old(out)@.push(b58_char(53)));
                }
            },
            54 => {
                out.append("w");
                proof {
                    reveal_strlit("w");
                    assert(final(out)@ =~= old(out)@.push(b58_char(54)));
                }
            },
            55 => {
                out.append("x");
                proof {
                    reveal_strlit("x");
                    assert(final(out)@ =~= old(out)@.push(b58_char(55)));
                }
            },
            56 => {
                out.append("y");
                proof {
                    reveal_strlit("y");
                    assert(final(out)@ =~= old(out)@.push(b58_char(56)));
                }
            },
            57 => {
                out.append("z");
                proof {
                    reveal_strlit("z");
                    assert(final(out)@ =~= old(out)@.push(b58_char(57)));
                }
            },
            _ => {
                proof {
                    assert(false);
                }
            },
    }
}

/// Zero bytes, for the leading-`1` convention of the codec.
pub open spec fn zero_bytes(n: nat) -> Seq<u8> {
    Seq::new(n, |i: int| 0u8)
}

/// Encode a big-endian byte payload as its base-58 string. The
/// gateway's payloads open with the network prefix byte, which is never
/// zero, so no leading-zero-byte convention arises here.
pub fn b58_encode(payload: &Vec<u8>) -> (r: String)
    requires
        payload@.len() > 0,
        payload@[0] != 0,
    ensures
        r@ == b58_string_of(payload@),
{
    let ghost n_val = be256(payload@);
    let le = reverse_bytes(payload);
    proof {
        lemma_rev_le256(payload@);
        assert(le@.last() == payload@[0]);
        assert(canonical(le@));
    }
    let mut digits: Vec<u8> = Vec::new();
    let mut v = le;
    proof {
        assert(digits@ + digits58_of(le256(v@)) =~= digits58_of(n_val));
    }
    while v.len() > 0
        invariant
            canonical(v@),
            digits58(digits@),
            digits@ + digits58_of(le256(v@)) == digits58_of(n_val),
        decreases le256(v@),
    {
        proof {
            lemma_le256_pos(v@);
        }
        let (q, r) = divmod58(&v);
        proof {
            let big = le256(v@);
            lemma_fundamental_div_mod_converse(
                big as int,
                58,
                le256(q@) as int,
                r as int,
            );
            assert(digits58_of(big) == seq![(big % 58) as u8] + digits58_of(big / 58));
            assert(digits@ + seq![r] + digits58_of(le256(q@)) =~= digits@ + digits58_of(big));
            assert((digits@ + seq![r]) + digits58_of(le256(q@)) =~= digits@ + seq![r]
                + digits58_of(le256(q@)));
            assert(digits@.push(r) =~= digits@ + seq![r]);
        }
        digits.push(r);
        v = q;
    }
    proof {
        assert(le256(v@) == 0);
        assert(digits58_of(le256(v@)) =~= Seq::<u8>::empty());
        assert(digits@ + digits58_of(le256(v@)) =~= digits@);
        assert(digits@ == digits58_of(n_val));
    }
    let mut out = String::new();
    let mut i: usize = digits.len();
    while i > 0
        invariant
            0 <= i <= digits@.len(),
            digits58(digits@),
            out@.len() == digits@.len() - i,
            forall|j: int| 0 <= j < out@.len() ==> out@[j] == b58_char(
                digits@[digits@.len() - 1 - j] as int,
            ),
        decreases i,
    {
        i = i - 1;
        push_b58_char(&mut out, digits[i]);
    }
    proof {
        assert(out@ =~= b58_chars_of(rev(digits@)));
    }
    out
}

/// Decode a base-58 string back into its big-endian byte payload:
/// every character must be an alphabet digit, each leading `1` stands
/// for one leading zero byte. Exactly the strings that `b58_encode`
/// produces come back as the payload they were made from; a payload
/// whose first byte is not zero comes only from that one string.
pub fn b58_decode(s: &str) -> (r: Option<Vec<u8>>)
    ensures
        forall|p: Seq<u8>|
            p.len() > 0 && p[0] != 0 && s@ == b58_string_of(p) ==> (r matches Some(v)
                && v@ == p),
        r matches Some(v) ==> ((v@.len() > 0 && v@[0] != 0) ==> s@ == b58_string_of(v@)),
{
    let n = s.unicode_len();
    let mut ds: Vec<u8> = Vec::new();
    let mut i: usize = 0;
    while i < n
        invariant
            0 <= i <= n,
            n == s@.len(),
            ds@.len() == i,
            forall|j: int| 0 <= j < i ==> (ds@[j] < 58 && ds@[j] == b58_digit(s@[j])),
        decreases n - i,
    {
        let c = s.get_char(i);
        let d = b58_digit_value(c);
        if d >= 58 {
            proof {
                assert forall|p: Seq<u8>|
                    p.len() > 0 && p[0] != 0 && s@ == b58_string_of(p) implies false by {
                    lemma_digits58_of_props(be256(p));
                    let digs = rev(digits58_of(be256(p)));
                    assert(s@[i as int] == b58_char(digs[i as int] as int));
                    assert(digs[i as int] < 58);
                    lemma_b58_char_digit(digs[i as int] as int);
                };
            }
            return None;
        }
        ds.push(d);
        i = i + 1;
    }
    let mut z: usize = 0;
    while z < ds.len() && ds[z] == 0
        invariant
            0 <= z <= ds@.len(),
            forall|j: int| 0 <= j < z ==> ds@[j] == 0,
        decreases ds@.len() - z,
    {
        z = z + 1;
    }
    let mut acc: Vec<u8> = Vec::new();
    let mut k: usize = 0;
    proof {
        assert(be58(ds@.subrange(0, 0)) == 0);
    }
    while k < ds.len()
        invariant
            0 <= k <= ds@.len(),
            forall|j: int| 0 <= j < ds@.len() ==> ds@[j] < 58,
            canonical(acc@),
            le256(acc@) == be58(ds@.subrange(0, k as int)),
        decreases ds@.len() - k,
    {
        let d = ds[k];
        proof {
            let pre = ds@.subrange(0, k as int);
            let cur = ds@.subrange(0, k + 1);
            assert(cur.drop_last() =~= pre);
            assert(cur.last() == ds@[k as int]);
        }
        acc = mul58add(acc, d);
        k = k + 1;
    }
    proof {
        assert(ds@.subrange(0, ds@.len() as int) =~= ds@);
    }
    let mut out_le = acc;
    let ghost acc_view = out_le@;
    let mut t: usize = 0;
    while t < z
        invariant
            0 <= t <= z,
            out_le@ == acc_view + zero_bytes(t as nat),
        decreases z - t,
    {
        proof {
            assert(acc_view + zero_bytes((t + 1) as nat) =~= (acc_view + zero_bytes(
                t as nat,
            )).push(0u8));
        }
        out_le.push(0);
        t = t + 1;
    }
    let out = reverse_bytes(&out_le);
    proof {
        let big = le256(acc_view);
        assert(big == be58(ds@));
        // Soundness: a returned payload with a non-zero first byte can
        // only have come from the canonical digit string of its value.
        if out@.len() > 0 && out@[0] != 0 {
            assert(out@[0] == out_le@.last());
            if z > 0 {
                assert(out_le@.last() == 0);
                assert(false);
            }
            assert(out_le@ =~= acc_view);
            assert(ds@.len() > 0) by {
                if ds@.len() == 0 {
                    assert(be58(ds@) == 0);
                    if acc_view.len() > 0 {
                        lemma_le256_pos(acc_view);
                    }
                }
            }
            assert(ds@[0] != 0);
            let dle = rev(ds@);
            assert(dle.last() == ds@[0]);
            assert(canonical(dle));
            assert(digits58(dle));
            lemma_rev_le58(ds@);
            assert(le58(dle) == big);
            lemma_le58_digits_inverse(dle);
            assert(digits58_of(big) == dle);
            lemma_le256_bytes_inverse(acc_view);
            assert(bytes256_of(big) == acc_view);
            lemma_rev_le256(out@);
            lemma_rev_rev(out_le@);
            assert(rev(out@) == out_le@);
            assert(be256(out@) == le256(acc_view));
            assert(b58_string_of(out@) == b58_chars_of(rev(digits58_of(big))));
            lemma_rev_rev(ds@);
            assert(rev(digits58_of(big)) == ds@);
            assert forall|j: int| 0 <= j < s@.len() implies s@[j] == b58_chars_of(ds@)[j] by {
                assert(ds@[j] == b58_digit(s@[j]));
                lemma_b58_digit_char(s@[j]);
            };
            assert(s@ =~= b58_chars_of(ds@));
        }
        // Completeness: the encoding of any payload with a non-zero
        // first byte decodes to that payload.
        assert forall|p: Seq<u8>|
            p.len() > 0 && p[0] != 0 && s@ == b58_string_of(p) implies out@ == p by {
            let pn = be256(p);
            lemma_digits58_of_props(pn);
            let digs = digits58_of(pn);
            lemma_rev_le256(p);
            assert(rev(p).last() == p[0]);
            assert(canonical(rev(p)));
            lemma_le256_pos(rev(p));
            assert(pn > 0);
            assert(digs.len() > 0);
            assert(ds@.len() == s@.len());
            assert forall|j: int| 0 <= j < ds@.len() implies ds@[j] == rev(digs)[j] by {
                assert(s@[j] == b58_char(rev(digs)[j] as int));
                assert(rev(digs)[j] < 58);
                lemma_b58_char_digit(rev(digs)[j] as int);
            };
            assert(ds@ =~= rev(digs));
            assert(ds@[0] == digs.last());
            assert(digs.last() != 0);
            assert(z == 0);
            lemma_rev_le58(ds@);
            lemma_rev_rev(digs);
            assert(rev(ds@) == digs);
            assert(le58(digs) == be58(ds@));
            assert(big == pn);
            lemma_le256_bytes_inverse(acc_view);
            lemma_le256_bytes_inverse(rev(p));
            assert(le256(rev(p)) == pn);
            assert(acc_view == rev(p));
            assert(out_le@ =~= acc_view);
            lemma_rev_rev(p);
            assert(out@ == p);
        };
    }
    Some(out)
}

/// Two payloads with non-zero first bytes and the same base-58 string
/// are the same payload.
pub proof fn lemma_b58_string_injective(p: Seq<u8>, q: Seq<u8>)
    requires
        p.len() > 0,
        p[0] != 0,
        q.len() > 0,
        q[0] != 0,
        b58_string_of(p) == b58_string_of(q),
    ensures
        p == q,
{
    let np = be256(p);
    let nq = be256(q);
    lemma_digits58_of_props(np);
    lemma_digits58_of_props(nq);
    let dp = rev(digits58_of(np));
    let dq = rev(digits58_of(nq));
    assert(b58_chars_of(dp).len() == b58_chars_of(dq).len());
    assert forall|i: int| 0 <= i < dp.len() implies dp[i] == dq[i] by {
        assert(b58_chars_of(dp)[i] == b58_chars_of(dq)[i]);
        assert(dp[i] < 58);
        assert(dq[i] < 58);
        lemma_b58_char_digit(dp[i] as int);
        lemma_b58_char_digit(dq[i] as int);
    };
    assert(dp =~= dq);
    lemma_rev_rev(digits58_of(np));
    lemma_rev_rev(digits58_of(nq));
    assert(digits58_of(np) == digits58_of(nq));
    assert(np == nq);
    lemma_rev_le256(p);
    lemma_rev_le256(q);
    assert(rev(p).last() == p[0]);
    assert(rev(q).last() == q[0]);
    lemma_le256_bytes_inverse(rev(p));
    lemma_le256_bytes_inverse(rev(q));
    assert(rev(p) == rev(q));
    lemma_rev_rev(p);
    lemma_rev_rev(q);
}

} // verus!
