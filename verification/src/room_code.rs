//! Four-letter room codes.
//!
//! A room code is exactly four ASCII letters, kept in canonical upper case.
//! The 26^4 = 456976 possible codes are in bijection with the indices
//! `0 .. 456976`, which the registry uses as keys.

use vstd::prelude::*;

verus! {

/// Number of distinct room codes: 26 to the fourth power.
pub const MAX_CODE: u32 = 456976;

/// Why a piece of text failed to parse as a room code.
#[derive(Clone, Copy, PartialEq, Eq, Structural, Debug)]
pub enum ParseError {
    /// The text is not exactly four ASCII letters.
    InvalidFormat,
}

/// A room code: four upper-case ASCII letters.
#[derive(Clone, Copy, PartialEq, Eq, Structural, Debug, Hash)]
pub struct RoomCode {
    pub c0: u8,
    pub c1: u8,
    pub c2: u8,
    pub c3: u8,
}

/// `b` is the ASCII value of an upper-case letter.
pub open spec fn upper_letter(b: u8) -> bool {
    65 <= b <= 90
}

/// The canonical upper-case letter for `c`, other characters unchanged.
pub open spec fn upper_char(c: char) -> char {
    if 97 <= c as int <= 122 {
        ((c as int) - 32) as char
    } else {
        c
    }
}

/// `c` is an ASCII letter of either case.
pub open spec fn letter_char(c: char) -> bool {
    (65 <= c as int <= 90) || (97 <= c as int <= 122)
}

impl RoomCode {
    /// All four bytes are upper-case letters.
    pub open spec fn wf(self) -> bool {
        upper_letter(self.c0) && upper_letter(self.c1) && upper_letter(self.c2)
            && upper_letter(self.c3)
    }

    /// The dense index of this code in `0 .. MAX_CODE`.
    pub open spec fn idx(self) -> int {
        (self.c0 - 65) * 17576 + (self.c1 - 65) * 676 + (self.c2 - 65) * 26 + (self.c3 - 65)
    }

    /// The four characters of the code, in order.
    pub open spec fn chars(self) -> Seq<char> {
        seq![self.c0 as char, self.c1 as char, self.c2 as char, self.c3 as char]
    }
}

/// The code whose dense index is `i`.
pub open spec fn code_of_index(i: int) -> RoomCode {
    RoomCode {
        c0: (65 + i / 17576) as u8,
        c1: (65 + (i % 17576) / 676) as u8,
        c2: (65 + (i % 676) / 26) as u8,
        c3: (65 + i % 26) as u8,
    }
}

/// Text parses as a room code: exactly four letters, either case.
pub open spec fn parse_ok(s: Seq<char>) -> bool {
    s.len() == 4 && letter_char(s[0]) && letter_char(s[1]) && letter_char(s[2]) && letter_char(
        s[3],
    )
}

/// A well-formed code lies in the code space.
pub proof fn lemma_idx_bounds(c: RoomCode)
    requires
        c.wf(),
    ensures
        0 <= c.idx() < MAX_CODE,
{
}

/// Decomposing an index recovers exactly the digits it was built from.
proof fn lemma_digits(a: int, b: int, c: int, d: int)
    requires
        0 <= a < 26,
        0 <= b < 26,
        0 <= c < 26,
        0 <= d < 26,
    ensures
        (a * 17576 + b * 676 + c * 26 + d) / 17576 == a,
        ((a * 17576 + b * 676 + c * 26 + d) % 17576) / 676 == b,
        ((a * 17576 + b * 676 + c * 26 + d) % 676) / 26 == c,
        (a * 17576 + b * 676 + c * 26 + d) % 26 == d,
{
    let n = a * 17576 + b * 676 + c * 26 + d;
    assert(n / 17576 == a && n % 17576 == b * 676 + c * 26 + d) by (nonlinear_arith)
        requires
            0 <= a < 26 && 0 <= b < 26 && 0 <= c < 26 && 0 <= d < 26 && n == a * 17576 + b * 676
                + c * 26 + d,
    ;
    assert((b * 676 + c * 26 + d) / 676 == b && (b * 676 + c * 26 + d) % 676 == c * 26 + d)
        by (nonlinear_arith)
        requires
            0 <= b < 26 && 0 <= c < 26 && 0 <= d < 26,
    ;
    assert((c * 26 + d) / 26 == c && (c * 26 + d) % 26 == d) by (nonlinear_arith)
        requires
            0 <= c < 26 && 0 <= d < 26,
    ;
    assert(n % 676 == c * 26 + d) by (nonlinear_arith)
        requires
            0 <= a < 26 && 0 <= b < 26 && 0 <= c < 26 && 0 <= d < 26 && n == a * 17576 + b * 676
                + c * 26 + d,
    ;
}

/// Index and code are inverse to each other over the full code space:
/// `code_of_index(c.idx()) == c` for every well-formed code.
pub proof fn lemma_code_index_roundtrip(c: RoomCode)
    requires
        c.wf(),
    ensures
        code_of_index(c.idx()) == c,
{
    lemma_digits(c.c0 - 65, c.c1 - 65, c.c2 - 65, c.c3 - 65);
}

/// The index is injective: distinct well-formed codes have distinct indices.
pub proof fn lemma_idx_injective(a: RoomCode, b: RoomCode)
    requires
        a.wf(),
        b.wf(),
        a.idx() == b.idx(),
    ensures
        a == b,
{
    lemma_code_index_roundtrip(a);
    lemma_code_index_roundtrip(b);
}

/// The index of the code built for `i` is `i` again, and the code is
/// well formed: the other direction of the bijection.
pub proof fn lemma_index_code_roundtrip(i: int)
    requires
        0 <= i < MAX_CODE,
    ensures
        code_of_index(i).wf(),
        code_of_index(i).idx() == i,
{
    assert(0 <= i / 17576 < 26 && 0 <= (i % 17576) / 676 < 26 && 0 <= (i % 676) / 26 < 26 && 0 <= i
        % 26 < 26 && (i / 17576) * 17576 + ((i % 17576) / 676) * 676 + ((i % 676) / 26) * 26 + i
        % 26 == i) by (nonlinear_arith)
        requires
            0 <= i < 456976,
    ;
}

impl RoomCode {
    /// Builds the code with dense index `i`.
    pub fn from_index(i: u32) -> (c: RoomCode)
        requires
            i < MAX_CODE,
        ensures
            c.wf(),
            c.idx() == i,
            c == code_of_index(i as int),
    {
        proof {
            lemma_index_code_roundtrip(i as int);
        }
        let d0 = i / 17576;
        let r0 = i % 17576;
        let d1 = r0 / 676;
        let r1 = r0 % 676;
        let d2 = r1 / 26;
        let d3 = r1 % 26;
        RoomCode {
            c0: 65 + d0 as u8,
            c1: 65 + d1 as u8,
            c2: 65 + d2 as u8,
            c3: 65 + d3 as u8,
        }
    }

    /// The dense index of this code.
    pub fn to_index(&self) -> (i: u32)
        requires
            self.wf(),
        ensures
            i == self.idx(),
            i < MAX_CODE,
    {
        (self.c0 as u32 - 65) * 17576 + (self.c1 as u32 - 65) * 676 + (self.c2 as u32 - 65) * 26 + (
        self.c3 as u32 - 65)
    }

    /// Parses `s` as a room code: exactly four ASCII letters, either case,
    /// canonicalized to upper case.  Anything else is `InvalidFormat`.
    pub fn from_str(s: &str) -> (r: Result<RoomCode, ParseError>)
        ensures
            r is Ok <==> parse_ok(s@),
            r matches Ok(c) ==> c.wf() && c.chars() =~= s@.map_values(|ch: char| upper_char(ch)),
    {
        if s.unicode_len() != 4 {
            return Err(ParseError::InvalidFormat);
        }
        let b0 = match char_to_letter(s.get_char(0)) {
            Some(b) => b,
            None => {
                return Err(ParseError::InvalidFormat);
            },
        };
        let b1 = match char_to_letter(s.get_char(1)) {
            Some(b) => b,
            None => {
                return Err(ParseError::InvalidFormat);
            },
        };
        let b2 = match char_to_letter(s.get_char(2)) {
            Some(b) => b,
            None => {
                return Err(ParseError::InvalidFormat);
            },
        };
        let b3 = match char_to_letter(s.get_char(3)) {
            Some(b) => b,
            None => {
                return Err(ParseError::InvalidFormat);
            },
        };
        Ok(RoomCode { c0: b0, c1: b1, c2: b2, c3: b3 })
    }

    /// Renders the code as its four-letter text, always upper case.
    pub fn as_string(&self) -> (r: String)
        requires
            self.wf(),
        ensures
            r@ =~= self.chars(),
    {
        let mut r = String::new();
        r.append(letter_str(self.c0));
        r.append(letter_str(self.c1));
        r.append(letter_str(self.c2));
        r.append(letter_str(self.c3));
        r
    }
}

/// For all valid four-letter inputs, parsing then rendering gives back the
/// input in upper case.  `c` is what [`RoomCode::from_str`] guarantees of a
/// parsed code and `r` what [`RoomCode::as_string`] guarantees of its text,
/// so together: the rendering of the parsed code is the upper-cased input.
pub proof fn lemma_parse_format(s: Seq<char>, c: RoomCode, r: Seq<char>)
    requires
        parse_ok(s),
        c.chars() =~= s.map_values(|ch: char| upper_char(ch)),
        r =~= c.chars(),
    ensures
        r == s.map_values(|ch: char| upper_char(ch)),
        r.len() == s.len(),
{
}

/// The upper-case letter byte for `c`, or `None` if `c` is not an ASCII
/// letter.
fn char_to_letter(c: char) -> (r: Option<u8>)
    ensures
        r is Some <==> letter_char(c),
        r matches Some(b) ==> upper_letter(b) && b as char == upper_char(c),
{
    let u = c as u32;
    if 65 <= u && u <= 90 {
        proof {
            assert(c == (u as int) as char);
        }
        Some(u as u8)
    } else if 97 <= u && u <= 122 {
        proof {
            assert((u - 32) as char as int == u - 32);
        }
        Some((u - 32) as u8)
    } else {
        None
    }
}

/// The one-character text for an upper-case letter byte.
fn letter_str(b: u8) -> (r: &'static str)
    requires
        upper_letter(b),
    ensures
        r@.len() == 1,
        r@[0] == b as char,
{
    proof {
        reveal_strlit("A");
        reveal_strlit("B");
        reveal_strlit("C");
        reveal_strlit("D");
        reveal_strlit("E");
        reveal_strlit("F");
        reveal_strlit("G");
        reveal_strlit("H");
        reveal_strlit("I");
        reveal_strlit("J");
        reveal_strlit("K");
        reveal_strlit("L");
        reveal_strlit("M");
        reveal_strlit("N");
        reveal_strlit("O");
        reveal_strlit("P");
        reveal_strlit("Q");
        reveal_strlit("R");
        reveal_strlit("S");
        reveal_strlit("T");
        reveal_strlit("U");
        reveal_strlit("V");
        reveal_strlit("W");
        reveal_strlit("X");
        reveal_strlit("Y");
        reveal_strlit("Z");
    }
    match b {
        65 => "A",
        66 => "B",
        67 => "C",
        68 => "D",
        69 => "E",
        70 => "F",
        71 => "G",
        72 => "H",
        73 => "I",
        74 => "J",
        75 => "K",
        76 => "L",
        77 => "M",
        78 => "N",
        79 => "O",
        80 => "P",
        81 => "Q",
        82 => "R",
        83 => "S",
        84 => "T",
        85 => "U",
        86 => "V",
        87 => "W",
        88 => "X",
        89 => "Y",
        _ => "Z",
    }
}

} // verus!
