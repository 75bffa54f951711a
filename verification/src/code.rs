//! Generation of the short, human-typeable codes that key sessions.
//!
//! A code is `CODE_LEN` characters, each drawn independently and uniformly
//! from a fixed 36-character alphabet chosen to avoid visually confusable
//! characters and vowels. The only randomness in the library enters here,
//! through a single trusted wrapper around the operating system's random
//! source.

use vstd::prelude::*;

verus! {

/// Number of characters in a session code.
pub const CODE_LEN: usize = 6;

/// Number of characters in the code alphabet.
pub const ALPHABET_LEN: usize = 36;

/// The code alphabet, by position: `6789BCDFGHJKLMNPQRTWbcdfghjkmnpqrtwz`.
pub open spec fn alphabet_char(i: int) -> char {
    if i == 0 {
        '6'
    } else if i == 1 {
        '7'
    } else if i == 2 {
        '8'
    } else if i == 3 {
        '9'
    } else if i == 4 {
        'B'
    } else if i == 5 {
        'C'
    } else if i == 6 {
        'D'
    } else if i == 7 {
        'F'
    } else if i == 8 {
        'G'
    } else if i == 9 {
        'H'
    } else if i == 10 {
        'J'
    } else if i == 11 {
        'K'
    } else if i == 12 {
        'L'
    } else if i == 13 {
        'M'
    } else if i == 14 {
        'N'
    } else if i == 15 {
        'P'
    } else if i == 16 {
        'Q'
    } else if i == 17 {
        'R'
    } else if i == 18 {
        'T'
    } else if i == 19 {
        'W'
    } else if i == 20 {
        'b'
    } else if i == 21 {
        'c'
    } else if i == 22 {
        'd'
    } else if i == 23 {
        'f'
    } else if i == 24 {
        'g'
    } else if i == 25 {
        'h'
    } else if i == 26 {
        'j'
    } else if i == 27 {
        'k'
    } else if i == 28 {
        'm'
    } else if i == 29 {
        'n'
    } else if i == 30 {
        'p'
    } else if i == 31 {
        'q'
    } else if i == 32 {
        'r'
    } else if i == 33 {
        't'
    } else if i == 34 {
        'w'
    } else {
        'z'
    }
}

/// Whether `c` is one of the alphabet's characters.
pub open spec fn in_alphabet(c: char) -> bool {
    exists|i: int| 0 <= i < ALPHABET_LEN && alphabet_char(i) == c
}

/// Whether `s` has the exact shape of a session code: `CODE_LEN`
/// characters, all from the alphabet.
pub open spec fn valid_code(s: Seq<char>) -> bool {
    &&& s.len() == CODE_LEN
    &&& forall|k: int| 0 <= k < s.len() ==> in_alphabet(s[k])
}

/// Relies on `rand::rngs::SysRng` (the operating system's random source):
/// `try_next_u32` yields a random `u32` or reports that the source failed.
/// Nothing can be promised of the value drawn, so the wrapper has no
/// contract beyond its shape: `None` only when the source failed.
#[verifier::external_body]
fn draw_random_u32() -> (r: Option<u32>) {
    match rand::TryRng::try_next_u32(&mut rand::rngs::SysRng) {
        Ok(v) => Some(v),
        Err(_) => None,
    }
}

/// The alphabet character at position `i`, as a one-character string slice
/// suitable for appending to a `String`.
fn alphabet_symbol(i: usize) -> (s: &'static str)
    requires
        i < ALPHABET_LEN,
    ensures
        s@.len() == 1,
        s@[0] == alphabet_char(i as int),
{
    let s: &'static str = if i == 0 {
        "6"
    } else if i == 1 {
        "7"
    } else if i == 2 {
        "8"
    } else if i == 3 {
        "9"
    } else if i == 4 {
        "B"
    } else if i == 5 {
        "C"
    } else if i == 6 {
        "D"
    } else if i == 7 {
        "F"
    } else if i == 8 {
        "G"
    } else if i == 9 {
        "H"
    } else if i == 10 {
        "J"
    } else if i == 11 {
        "K"
    } else if i == 12 {
        "L"
    } else if i == 13 {
        "M"
    } else if i == 14 {
        "N"
    } else if i == 15 {
        "P"
    } else if i == 16 {
        "Q"
    } else if i == 17 {
        "R"
    } else if i == 18 {
        "T"
    } else if i == 19 {
        "W"
    } else if i == 20 {
        "b"
    } else if i == 21 {
        "c"
    } else if i == 22 {
        "d"
    } else if i == 23 {
        "f"
    } else if i == 24 {
        "g"
    } else if i == 25 {
        "h"
    } else if i == 26 {
        "j"
    } else if i == 27 {
        "k"
    } else if i == 28 {
        "m"
    } else if i == 29 {
        "n"
    } else if i == 30 {
        "p"
    } else if i == 31 {
        "q"
    } else if i == 32 {
        "r"
    } else if i == 33 {
        "t"
    } else if i == 34 {
        "w"
    } else {
        "z"
    };
    proof {
        reveal_strlit("6");
        reveal_strlit("7");
        reveal_strlit("8");
        reveal_strlit("9");
        reveal_strlit("B");
        reveal_strlit("C");
        reveal_strlit("D");
        reveal_strlit("F");
        reveal_strlit("G");
        reveal_strlit("H");
        reveal_strlit("J");
        reveal_strlit("K");
        reveal_strlit("L");
        reveal_strlit("M");
        reveal_strlit("N");
        reveal_strlit("P");
        reveal_strlit("Q");
        reveal_strlit("R");
        reveal_strlit("T");
        reveal_strlit("W");
        reveal_strlit("b");
        reveal_strlit("c");
        reveal_strlit("d");
        reveal_strlit("f");
        reveal_strlit("g");
        reveal_strlit("h");
        reveal_strlit("j");
        reveal_strlit("k");
        reveal_strlit("m");
        reveal_strlit("n");
        reveal_strlit("p");
        reveal_strlit("q");
        reveal_strlit("r");
        reveal_strlit("t");
        reveal_strlit("w");
        reveal_strlit("z");
    }
    s
}

/// Draw a fresh candidate code: `CODE_LEN` independent draws from the
/// random source, each reduced to an alphabet position. Returns `None`
/// only when the random source fails (source exhaustion, fatal in
/// practice and expected never to occur).
pub fn gen_code() -> (r: Option<String>)
    ensures
        r matches Some(code) ==> valid_code(code@),
{
    let mut code = String::new();
    let mut k: usize = 0;
    while k < CODE_LEN
        invariant
            k <= CODE_LEN,
            code@.len() == k,
            forall|j: int| 0 <= j < k ==> in_alphabet(code@[j]),
        decreases CODE_LEN - k,
    {
        let v = match draw_random_u32() {
            Some(v) => v,
            None => {
                return None;
            },
        };
        let idx: usize = (v % (ALPHABET_LEN as u32)) as usize;
        let sym = alphabet_symbol(idx);
        code.append(sym);
        proof {
            assert(in_alphabet(alphabet_char(idx as int)));
        }
        k = k + 1;
    }
    Some(code)
}

} // verus!
