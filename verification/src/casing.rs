//! Identifier casing rules used by the renderer: snake case, upper snake
//! case, and first-character capitalization.

use convert_case::{Case, Casing};
use vstd::prelude::*;
use vstd::string::{StrSliceExecFns, StringExecFns};

verus! {

/// The lower-case, underscore-separated form of an identifier, as the
/// casing library computes it.
pub uninterp spec fn snake_of(s: Seq<char>) -> Seq<char>;

/// The upper-case, underscore-separated form of an identifier, as the
/// casing library computes it.
pub uninterp spec fn upper_snake_of(s: Seq<char>) -> Seq<char>;

/// Relies on convert_case's `Casing::to_case` with `Case::Snake`: the
/// result depends on the input characters alone.
#[verifier::external_body]
pub fn to_snake(s: &str) -> (r: String)
    ensures
        r@ == snake_of(s@),
{
    s.to_case(Case::Snake)
}

/// Relies on convert_case's `Casing::to_case` with `Case::UpperSnake`: the
/// result depends on the input characters alone.
#[verifier::external_body]
pub fn to_upper_snake(s: &str) -> (r: String)
    ensures
        r@ == upper_snake_of(s@),
{
    s.to_case(Case::UpperSnake)
}

/// The ASCII upper-case form of a character; any other character is
/// unchanged.
pub open spec fn upper_char(c: char) -> char {
    if c == 'a' {
        'A'
    } else if c == 'b' {
        'B'
    } else if c == 'c' {
        'C'
    } else if c == 'd' {
        'D'
    } else if c == 'e' {
        'E'
    } else if c == 'f' {
        'F'
    } else if c == 'g' {
        'G'
    } else if c == 'h' {
        'H'
    } else if c == 'i' {
        'I'
    } else if c == 'j' {
        'J'
    } else if c == 'k' {
        'K'
    } else if c == 'l' {
        'L'
    } else if c == 'm' {
        'M'
    } else if c == 'n' {
        'N'
    } else if c == 'o' {
        'O'
    } else if c == 'p' {
        'P'
    } else if c == 'q' {
        'Q'
    } else if c == 'r' {
        'R'
    } else if c == 's' {
        'S'
    } else if c == 't' {
        'T'
    } else if c == 'u' {
        'U'
    } else if c == 'v' {
        'V'
    } else if c == 'w' {
        'W'
    } else if c == 'x' {
        'X'
    } else if c == 'y' {
        'Y'
    } else if c == 'z' {
        'Z'
    } else {
        c
    }
}

/// The identifier with its first character uppercased and the remainder
/// unchanged; empty input stays empty.
pub open spec fn spec_capitalize(s: Seq<char>) -> Seq<char> {
    if s.len() == 0 {
        s
    } else {
        seq![upper_char(s[0])] + s.drop_first()
    }
}

fn upper_char_str(c: char) -> (r: Option<&'static str>)
    ensures
        match r {
            Some(u) => u@ == seq![upper_char(c)],
            None => upper_char(c) == c,
        },
{
    match c {
        'a' => {
            proof {
                reveal_strlit("A");
                assert("A"@ =~= seq![upper_char('a')]);
            }
            Some("A")
        },
        'b' => {
            proof {
                reveal_strlit("B");
                assert("B"@ =~= seq![upper_char('b')]);
            }
            Some("B")
        },
        'c' => {
            proof {
                reveal_strlit("C");
                assert("C"@ =~= seq![upper_char('c')]);
            }
            Some("C")
        },
        'd' => {
            proof {
                reveal_strlit("D");
                assert("D"@ =~= seq![upper_char('d')]);
            }
            Some("D")
        },
        'e' => {
            proof {
                reveal_strlit("E");
                assert("E"@ =~= seq![upper_char('e')]);
            }
            Some("E")
        },
        'f' => {
            proof {
                reveal_strlit("F");
                assert("F"@ =~= seq![upper_char('f')]);
            }
            Some("F")
        },
        'g' => {
            proof {
                reveal_strlit("G");
                assert("G"@ =~= seq![upper_char('g')]);
            }
            Some("G")
        },
        'h' => {
            proof {
                reveal_strlit("H");
                assert("H"@ =~= seq![upper_char('h')]);
            }
            Some("H")
        },
        'i' => {
            proof {
                reveal_strlit("I");
                assert("I"@ =~= seq![upper_char('i')]);
            }
            Some("I")
        },
        'j' => {
            proof {
                reveal_strlit("J");
                assert("J"@ =~= seq![upper_char('j')]);
            }
            Some("J")
        },
        'k' => {
            proof {
                reveal_strlit("K");
                assert("K"@ =~= seq![upper_char('k')]);
            }
            Some("K")
        },
        'l' => {
            proof {
                reveal_strlit("L");
                assert("L"@ =~= seq![upper_char('l')]);
            }
            Some("L")
        },
        'm' => {
            proof {
                reveal_strlit("M");
                assert("M"@ =~= seq![upper_char('m')]);
            }
            Some("M")
        },
        'n' => {
            proof {
                reveal_strlit("N");
                assert("N"@ =~= seq![upper_char('n')]);
            }
            Some("N")
        },
        'o' => {
            proof {
                reveal_strlit("O");
                assert("O"@ =~= seq![upper_char('o')]);
            }
            Some("O")
        },
        'p' => {
            proof {
                reveal_strlit("P");
                assert("P"@ =~= seq![upper_char('p')]);
            }
            Some("P")
        },
        'q' => {
            proof {
                reveal_strlit("Q");
                assert("Q"@ =~= seq![upper_char('q')]);
            }
            Some("Q")
        },
        'r' => {
            proof {
                reveal_strlit("R");
                assert("R"@ =~= seq![upper_char('r')]);
            }
            Some("R")
        },
        's' => {
            proof {
                reveal_strlit("S");
                assert("S"@ =~= seq![upper_char('s')]);
            }
            Some("S")
        },
        't' => {
            proof {
                reveal_strlit("T");
                assert("T"@ =~= seq![upper_char('t')]);
            }
            Some("T")
        },
        'u' => {
            proof {
                reveal_strlit("U");
                assert("U"@ =~= seq![upper_char('u')]);
            }
            Some("U")
        },
        'v' => {
            proof {
                reveal_strlit("V");
                assert("V"@ =~= seq![upper_char('v')]);
            }
            Some("V")
        },
        'w' => {
            proof {
                reveal_strlit("W");
                assert("W"@ =~= seq![upper_char('w')]);
            }
            Some("W")
        },
        'x' => {
            proof {
                reveal_strlit("X");
                assert("X"@ =~= seq![upper_char('x')]);
            }
            Some("X")
        },
        'y' => {
            proof {
                reveal_strlit("Y");
                assert("Y"@ =~= seq![upper_char('y')]);
            }
            Some("Y")
        },
        'z' => {
            proof {
                reveal_strlit("Z");
                assert("Z"@ =~= seq![upper_char('z')]);
            }
            Some("Z")
        },
        _ => None,
    }
}

/// Uppercases the first character of an identifier and leaves the rest
/// unchanged. Not a full case conversion: only the first character moves.
pub fn capitalize(s: &str) -> (r: String)
    ensures
        r@ == spec_capitalize(s@),
{
    let len = s.unicode_len();
    if len == 0 {
        let r = String::new();
        proof {
            assert(r@ =~= s@);
        }
        r
    } else {
        let c = s.get_char(0);
        match upper_char_str(c) {
            Some(u) => {
                let mut r = String::from_str(u);
                r.append(s.substring_char(1, len));
                proof {
                    assert(r@ =~= seq![upper_char(s@[0])] + s@.drop_first());
                }
                r
            },
            None => {
                let r = s.to_owned();
                proof {
                    assert(r@ =~= seq![upper_char(s@[0])] + s@.drop_first());
                }
                r
            },
        }
    }
}

} // verus!
