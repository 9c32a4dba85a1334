//! The supported ABI parameter types and the parser for their canonical
//! text spellings.
//!
//! The grammar is the closed subset the generator supports: `bool`,
//! `address`, `uint<M>` (with `M` a multiple of eight up to 256, or absent
//! for 256), `bytes<N>` (1 to 32), `bytes`, the array suffixes `[]` and
//! `[<n>]`, and parenthesized tuples. Anything else is an unsupported type
//! and aborts generation.

use vstd::prelude::*;
use vstd::string::StrSliceExecFns;

verus! {

broadcast use vstd::std_specs::vec::group_vec_axioms, vstd::seq::group_seq_axioms;

/// An ABI parameter type, as the generator models it.
#[derive(Debug, PartialEq, Eq)]
pub enum ParamKind {
    Bool,
    Address,
    Uint(usize),
    FixedBytes(usize),
    Bytes,
    Array(Box<ParamKind>),
    FixedArray(Box<ParamKind>, usize),
    Tuple(Vec<ParamKind>),
}

/// The mathematical shape of a parameter type: what a `ParamKind` value
/// denotes, with sizes as unbounded integers and tuples as sequences.
pub ghost enum ParamTy {
    Bool,
    Address,
    Uint(int),
    FixedBytes(int),
    Bytes,
    Array(Box<ParamTy>),
    FixedArray(Box<ParamTy>, int),
    Tuple(Seq<ParamTy>),
}

/// The denotation of a `ParamKind` value.
pub open spec fn pk_view(t: ParamKind) -> ParamTy
    decreases t,
{
    match t {
        ParamKind::Bool => ParamTy::Bool,
        ParamKind::Address => ParamTy::Address,
        ParamKind::Uint(w) => ParamTy::Uint(w as int),
        ParamKind::FixedBytes(n) => ParamTy::FixedBytes(n as int),
        ParamKind::Bytes => ParamTy::Bytes,
        ParamKind::Array(inner) => ParamTy::Array(Box::new(pk_view(*inner))),
        ParamKind::FixedArray(inner, n) => ParamTy::FixedArray(Box::new(pk_view(*inner)), n as int),
        ParamKind::Tuple(items) => ParamTy::Tuple(pk_view_list(items@)),
    }
}

/// The denotations of a sequence of parameter types, elementwise.
pub open spec fn pk_view_list(items: Seq<ParamKind>) -> Seq<ParamTy>
    decreases items,
{
    if items.len() == 0 {
        Seq::empty()
    } else {
        seq![pk_view(items[0])] + pk_view_list(items.drop_first())
    }
}

impl View for ParamKind {
    type V = ParamTy;

    open spec fn view(&self) -> ParamTy {
        pk_view(*self)
    }
}

/// `pk_view_list` maps `pk_view` over the sequence, elementwise.
pub proof fn lemma_pk_view_list(items: Seq<ParamKind>)
    ensures
        pk_view_list(items).len() == items.len(),
        forall|i: int| 0 <= i < items.len() ==> pk_view_list(items)[i] == pk_view(items[i]),
    decreases items,
{
    if items.len() > 0 {
        lemma_pk_view_list(items.drop_first());
        assert forall|i: int| 0 <= i < items.len() implies pk_view_list(items)[i] == pk_view(
            items[i],
        ) by {
            if i > 0 {
                assert(items.drop_first()[i - 1] == items[i]);
            }
        }
    }
}

/// A decimal digit character.
pub open spec fn is_digit(c: char) -> bool {
    c == '0' || c == '1' || c == '2' || c == '3' || c == '4' || c == '5' || c == '6' || c == '7'
        || c == '8' || c == '9'
}

/// The value of a decimal digit character.
pub open spec fn digit_val(c: char) -> int {
    if c == '0' {
        0
    } else if c == '1' {
        1
    } else if c == '2' {
        2
    } else if c == '3' {
        3
    } else if c == '4' {
        4
    } else if c == '5' {
        5
    } else if c == '6' {
        6
    } else if c == '7' {
        7
    } else if c == '8' {
        8
    } else {
        9
    }
}

/// The index just past the run of digit characters starting at `i`.
pub open spec fn scan_digits(s: Seq<char>, i: int) -> int
    decreases s.len() - i,
{
    if 0 <= i < s.len() && is_digit(s[i]) {
        scan_digits(s, i + 1)
    } else {
        i
    }
}

/// The value of the digit characters `s[i..j]` read as a decimal number.
pub open spec fn digits_val(s: Seq<char>, i: int, j: int) -> int
    decreases j - i,
{
    if i >= j {
        0
    } else {
        digits_val(s, i, j - 1) * 10 + digit_val(s[j - 1])
    }
}

/// Ten to the given power.
pub open spec fn pow10(n: nat) -> int
    decreases n,
{
    if n == 0 {
        1
    } else {
        10 * pow10((n - 1) as nat)
    }
}

pub proof fn lemma_pow10_mono(a: nat, b: nat)
    requires
        a <= b,
    ensures
        1 <= pow10(a) <= pow10(b),
    decreases b,
{
    if b > 0 {
        if a == b {
            lemma_pow10_mono((a - 1) as nat, (b - 1) as nat);
        } else {
            lemma_pow10_mono(a, (b - 1) as nat);
        }
    }
}

pub proof fn lemma_pow10_values()
    ensures
        pow10(8) == 100000000,
        pow10(9) == 1000000000,
{
    assert(pow10(0) == 1);
    assert(pow10(1) == 10);
    assert(pow10(2) == 100);
    assert(pow10(3) == 1000);
    assert(pow10(4) == 10000);
    assert(pow10(5) == 100000);
    assert(pow10(6) == 1000000);
    assert(pow10(7) == 10000000);
    assert(pow10(8) == 100000000);
    assert(pow10(9) == 1000000000);
}

/// A run of size digits is well-formed: nonempty, at most nine digits,
/// and without a leading zero (unless it is the single digit `0`).
pub open spec fn valid_digits(s: Seq<char>, i: int, j: int) -> bool {
    i < j && j - i <= 9 && (j - i == 1 || s[i] != '0')
}

/// The word `w` occurs in `s` starting at `i`.
pub open spec fn match_at(s: Seq<char>, i: int, w: Seq<char>) -> bool {
    0 <= i && i + w.len() <= s.len() && s.subrange(i, i + w.len()) == w
}

/// Parses a base type name starting at `i`: `bool`, `address`, `uint`
/// with an optional width, or `bytes` with an optional length.
pub open spec fn spec_parse_atom(s: Seq<char>, i: int) -> Option<(ParamTy, int)> {
    if match_at(s, i, "address"@) {
        Some((ParamTy::Address, i + "address"@.len()))
    } else if match_at(s, i, "bool"@) {
        Some((ParamTy::Bool, i + "bool"@.len()))
    } else if match_at(s, i, "uint"@) {
        let d = i + "uint"@.len();
        let k = scan_digits(s, d);
        if k == d {
            Some((ParamTy::Uint(256), k))
        } else if valid_digits(s, d, k) && 8 <= digits_val(s, d, k) <= 256 && digits_val(s, d, k)
            % 8 == 0 {
            Some((ParamTy::Uint(digits_val(s, d, k)), k))
        } else {
            None
        }
    } else if match_at(s, i, "bytes"@) {
        let d = i + "bytes"@.len();
        let k = scan_digits(s, d);
        if k == d {
            Some((ParamTy::Bytes, k))
        } else if valid_digits(s, d, k) && 1 <= digits_val(s, d, k) <= 32 {
            Some((ParamTy::FixedBytes(digits_val(s, d, k)), k))
        } else {
            None
        }
    } else {
        None
    }
}

/// Parses one full type starting at `i`: a tuple or a base type name,
/// followed by any array suffixes. Returns the type and the index just
/// past it.
pub open spec fn spec_parse_at(s: Seq<char>, i: int) -> Option<(ParamTy, int)>
    decreases s.len() - i, 1int,
{
    if 0 <= i < s.len() && s[i] == '(' {
        if i + 1 < s.len() && s[i + 1] == ')' {
            spec_parse_suffix(s, i + 2, ParamTy::Tuple(Seq::empty()))
        } else {
            match spec_parse_items(s, i + 1) {
                Some((items, j)) => if i < j <= s.len() {
                    spec_parse_suffix(s, j, ParamTy::Tuple(items))
                } else {
                    None
                },
                None => None,
            }
        }
    } else if 0 <= i <= s.len() {
        match spec_parse_atom(s, i) {
            Some((t, j)) => if i < j <= s.len() {
                spec_parse_suffix(s, j, t)
            } else {
                None
            },
            None => None,
        }
    } else {
        None
    }
}

/// Parses a comma-separated list of types, then the closing parenthesis.
/// Returns the item types and the index just past the parenthesis.
pub open spec fn spec_parse_items(s: Seq<char>, i: int) -> Option<(Seq<ParamTy>, int)>
    decreases s.len() - i, 2int,
{
    if !(0 <= i <= s.len()) {
        None
    } else {
        match spec_parse_at(s, i) {
            Some((t, j)) => if i < j < s.len() {
                if s[j] == ',' {
                    match spec_parse_items(s, j + 1) {
                        Some((rest, m)) => Some((seq![t] + rest, m)),
                        None => None,
                    }
                } else if s[j] == ')' {
                    Some((seq![t], j + 1))
                } else {
                    None
                }
            } else {
                None
            },
            None => None,
        }
    }
}

/// Applies the array suffixes starting at `i` to the already parsed type
/// `t`: `[]` wraps it in a growable array, `[<n>]` in a fixed one.
pub open spec fn spec_parse_suffix(s: Seq<char>, i: int, t: ParamTy) -> Option<(ParamTy, int)>
    decreases s.len() - i, 0int,
{
    if 0 <= i < s.len() && s[i] == '[' {
        if i + 1 < s.len() && s[i + 1] == ']' {
            spec_parse_suffix(s, i + 2, ParamTy::Array(Box::new(t)))
        } else {
            let k = scan_digits(s, i + 1);
            if valid_digits(s, i + 1, k) && k < s.len() && s[k] == ']' {
                spec_parse_suffix(s, k + 1, ParamTy::FixedArray(Box::new(t), digits_val(s, i + 1, k)))
            } else {
                None
            }
        }
    } else {
        Some((t, i))
    }
}

/// The supported ABI type grammar: `Some` exactly on the raw type texts
/// the generator accepts, with the type they spell.
pub open spec fn spec_parse_type(s: Seq<char>) -> Option<ParamTy> {
    match spec_parse_at(s, 0) {
        Some((t, j)) => if j == s.len() {
            Some(t)
        } else {
            None
        },
        None => None,
    }
}

fn is_digit_char(c: char) -> (r: bool)
    ensures
        r == is_digit(c),
{
    c == '0' || c == '1' || c == '2' || c == '3' || c == '4' || c == '5' || c == '6' || c == '7'
        || c == '8' || c == '9'
}

fn digit_of(c: char) -> (r: u64)
    ensures
        r as int == digit_val(c),
        r <= 9,
{
    if c == '0' {
        0
    } else if c == '1' {
        1
    } else if c == '2' {
        2
    } else if c == '3' {
        3
    } else if c == '4' {
        4
    } else if c == '5' {
        5
    } else if c == '6' {
        6
    } else if c == '7' {
        7
    } else if c == '8' {
        8
    } else {
        9
    }
}

fn matches_at(s: &str, i: usize, w: &str) -> (r: bool)
    requires
        i <= s@.len(),
    ensures
        r == match_at(s@, i as int, w@),
{
    let slen = s.unicode_len();
    let wlen = w.unicode_len();
    if wlen > slen - i {
        return false;
    }
    let mut j: usize = 0;
    while j < wlen
        invariant
            0 <= j <= wlen,
            i + wlen <= slen,
            slen == s@.len(),
            wlen == w@.len(),
            forall|q: int| 0 <= q < j ==> s@[i + q] == w@[q],
        decreases wlen - j,
    {
        if s.get_char(i + j) != w.get_char(j) {
            proof {
                if match_at(s@, i as int, w@) {
                    assert(s@.subrange(i as int, i + w@.len())[j as int] == s@[i + j]);
                }
            }
            return false;
        }
        j = j + 1;
    }
    proof {
        assert(s@.subrange(i as int, i + w@.len()) =~= w@);
    }
    true
}

fn scan_digits_from(s: &str, i: usize) -> (r: usize)
    requires
        i <= s@.len(),
    ensures
        r as int == scan_digits(s@, i as int),
        i <= r <= s@.len(),
{
    let len = s.unicode_len();
    let mut j = i;
    while j < len && is_digit_char(s.get_char(j))
        invariant
            i <= j <= len,
            len == s@.len(),
            scan_digits(s@, i as int) == scan_digits(s@, j as int),
        decreases len - j,
    {
        j = j + 1;
    }
    proof {
        assert(scan_digits(s@, j as int) == j as int);
    }
    j
}

fn check_valid_digits(s: &str, i: usize, j: usize) -> (r: bool)
    requires
        i <= j <= s@.len(),
    ensures
        r == valid_digits(s@, i as int, j as int),
{
    i < j && j - i <= 9 && (j - i == 1 || s.get_char(i) != '0')
}

fn read_digits_val(s: &str, i: usize, j: usize) -> (r: u64)
    requires
        i <= j <= s@.len(),
        j - i <= 9,
    ensures
        r as int == digits_val(s@, i as int, j as int),
        r < 1000000000,
{
    let mut v: u64 = 0;
    let mut q = i;
    proof {
        lemma_pow10_mono(0, 9);
    }
    while q < j
        invariant
            i <= q <= j,
            j <= s@.len(),
            j - i <= 9,
            v as int == digits_val(s@, i as int, q as int),
            (v as int) < pow10((q - i) as nat),
        decreases j - q,
    {
        proof {
            lemma_pow10_values();
            lemma_pow10_mono((q - i) as nat, 8);
        }
        let d = digit_of(s.get_char(q));
        v = v * 10 + d;
        proof {
            assert(pow10((q + 1 - i) as nat) == 10 * pow10((q - i) as nat));
        }
        q = q + 1;
    }
    proof {
        lemma_pow10_values();
        lemma_pow10_mono((q - i) as nat, 9);
    }
    v
}

fn parse_atom(s: &str, i: usize) -> (r: Option<(ParamKind, usize)>)
    requires
        i <= s@.len(),
    ensures
        match r {
            Some((t, j)) => spec_parse_atom(s@, i as int) == Some((t@, j as int)) && i < j
                <= s@.len(),
            None => spec_parse_atom(s@, i as int) is None,
        },
{
    let len = s.unicode_len();
    if matches_at(s, i, "address") {
        proof {
            reveal_strlit("address");
        }
        Some((ParamKind::Address, i + 7))
    } else if matches_at(s, i, "bool") {
        proof {
            reveal_strlit("bool");
        }
        Some((ParamKind::Bool, i + 4))
    } else if matches_at(s, i, "uint") {
        proof {
            reveal_strlit("uint");
        }
        let k = scan_digits_from(s, i + 4);
        if k == i + 4 {
            Some((ParamKind::Uint(256), k))
        } else if check_valid_digits(s, i + 4, k) {
            let v = read_digits_val(s, i + 4, k);
            if 8 <= v && v <= 256 && v % 8 == 0 {
                Some((ParamKind::Uint(v as usize), k))
            } else {
                None
            }
        } else {
            None
        }
    } else if matches_at(s, i, "bytes") {
        proof {
            reveal_strlit("bytes");
        }
        let k = scan_digits_from(s, i + 5);
        if k == i + 5 {
            Some((ParamKind::Bytes, k))
        } else if check_valid_digits(s, i + 5, k) {
            let v = read_digits_val(s, i + 5, k);
            if 1 <= v && v <= 32 {
                Some((ParamKind::FixedBytes(v as usize), k))
            } else {
                None
            }
        } else {
            None
        }
    } else {
        None
    }
}

fn parse_at(s: &str, i: usize) -> (r: Option<(ParamKind, usize)>)
    requires
        i <= s@.len(),
    ensures
        match r {
            Some((t, j)) => spec_parse_at(s@, i as int) == Some((t@, j as int)) && i < j
                <= s@.len(),
            None => spec_parse_at(s@, i as int) is None,
        },
    decreases s@.len() - i, 1int,
{
    let len = s.unicode_len();
    if i < len && s.get_char(i) == '(' {
        if i + 1 < len && s.get_char(i + 1) == ')' {
            let no_items: Vec<ParamKind> = Vec::new();
            proof {
                assert(pk_view_list(no_items@) =~= Seq::<ParamTy>::empty());
                assert(pk_view(ParamKind::Tuple(no_items)) == ParamTy::Tuple(
                    Seq::<ParamTy>::empty(),
                ));
            }
            parse_suffix(s, i + 2, ParamKind::Tuple(no_items))
        } else {
            match parse_items(s, i + 1) {
                Some((items, j)) => parse_suffix(s, j, ParamKind::Tuple(items)),
                None => None,
            }
        }
    } else {
        match parse_atom(s, i) {
            Some((t, j)) => parse_suffix(s, j, t),
            None => None,
        }
    }
}

fn parse_items(s: &str, i: usize) -> (r: Option<(Vec<ParamKind>, usize)>)
    requires
        i <= s@.len(),
    ensures
        match r {
            Some((items, j)) => spec_parse_items(s@, i as int) == Some(
                (pk_view_list(items@), j as int),
            ) && i < j <= s@.len(),
            None => spec_parse_items(s@, i as int) is None,
        },
    decreases s@.len() - i, 2int,
{
    let len = s.unicode_len();
    match parse_at(s, i) {
        Some((t, j)) => {
            if j < len {
                let c = s.get_char(j);
                if c == ',' {
                    match parse_items(s, j + 1) {
                        Some((rest, m)) => {
                            let ghost rest_view = rest@;
                            let mut items: Vec<ParamKind> = Vec::new();
                            items.push(t);
                            let mut tail = rest;
                            items.append(&mut tail);
                            proof {
                                lemma_pk_view_list(items@);
                                lemma_pk_view_list(rest_view);
                                assert(items@ =~= seq![t] + rest_view);
                                assert(pk_view_list(items@) =~= seq![t@] + pk_view_list(
                                    rest_view,
                                ));
                            }
                            Some((items, m))
                        },
                        None => None,
                    }
                } else if c == ')' {
                    let mut items: Vec<ParamKind> = Vec::new();
                    items.push(t);
                    proof {
                        lemma_pk_view_list(items@);
                        assert(pk_view_list(items@) =~= seq![t@]);
                    }
                    Some((items, j + 1))
                } else {
                    None
                }
            } else {
                None
            }
        },
        None => None,
    }
}

fn parse_suffix(s: &str, i: usize, t: ParamKind) -> (r: Option<(ParamKind, usize)>)
    requires
        i <= s@.len(),
    ensures
        match r {
            Some((u, j)) => spec_parse_suffix(s@, i as int, t@) == Some((u@, j as int)) && i <= j
                <= s@.len(),
            None => spec_parse_suffix(s@, i as int, t@) is None,
        },
    decreases s@.len() - i, 0int,
{
    let len = s.unicode_len();
    if i < len && s.get_char(i) == '[' {
        if i + 1 < len && s.get_char(i + 1) == ']' {
            parse_suffix(s, i + 2, ParamKind::Array(Box::new(t)))
        } else {
            let k = scan_digits_from(s, i + 1);
            if check_valid_digits(s, i + 1, k) && k < len && s.get_char(k) == ']' {
                let v = read_digits_val(s, i + 1, k);
                parse_suffix(s, k + 1, ParamKind::FixedArray(Box::new(t), v as usize))
            } else {
                None
            }
        }
    } else {
        Some((t, i))
    }
}

/// Parses a raw ABI type text into the type it spells, exactly when the
/// text lies in the supported grammar; any other text is an unsupported
/// type, for the caller to report with its context.
pub fn parse_param_type(s: &str) -> (r: Option<ParamKind>)
    ensures
        match r {
            Some(t) => spec_parse_type(s@) == Some(t@),
            None => spec_parse_type(s@) is None,
        },
{
    let len = s.unicode_len();
    match parse_at(s, 0) {
        Some((t, j)) => {
            if j == len {
                Some(t)
            } else {
                None
            }
        },
        None => None,
    }
}

} // verus!
