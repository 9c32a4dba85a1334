//! The type mapper: every supported ABI parameter type has one
//! target-language type expression, composed recursively for arrays and
//! tuples.
//!
//! Every unsigned-integer width maps to the single 256-bit representation:
//! a deliberate widening the generator inherits, kept as a documented
//! limitation rather than widened silently per width.

use vstd::prelude::*;
use vstd::string::{StrSliceExecFns, StringExecFns};

use crate::abi::{lemma_pk_view_list, pk_view, pk_view_list, ParamKind, ParamTy};
use crate::strutil::{dec_str, usize_to_string};

verus! {

broadcast use vstd::std_specs::vec::group_vec_axioms, vstd::seq::group_seq_axioms;

/// The target type expression for a parameter type.
pub open spec fn spec_map_type(t: ParamTy) -> Seq<char>
    decreases t,
{
    match t {
        ParamTy::Bool => "bool"@,
        ParamTy::Address => "H160"@,
        ParamTy::Uint(_) => "U256"@,
        ParamTy::FixedBytes(n) => "[u8; "@ + dec_str(n as nat) + "]"@,
        ParamTy::Bytes => "Vec<u8>"@,
        ParamTy::Array(inner) => "Vec<"@ + spec_map_type(*inner) + ">"@,
        ParamTy::FixedArray(inner, n) => "["@ + spec_map_type(*inner) + "; "@ + dec_str(n as nat)
            + "]"@,
        ParamTy::Tuple(items) => "("@ + spec_map_list(items) + ")"@,
    }
}

/// The comma-joined target type expressions of a tuple's items.
pub open spec fn spec_map_list(items: Seq<ParamTy>) -> Seq<char>
    decreases items,
{
    if items.len() == 0 {
        Seq::empty()
    } else if items.len() == 1 {
        spec_map_type(items[0])
    } else {
        spec_map_list(items.drop_last()) + ", "@ + spec_map_type(items.last())
    }
}

/// Renders the target type expression of a parameter type.
pub fn convert_type(t: &ParamKind) -> (r: String)
    ensures
        r@ == spec_map_type(t@),
    decreases t,
{
    match t {
        ParamKind::Bool => String::from_str("bool"),
        ParamKind::Address => String::from_str("H160"),
        ParamKind::Uint(_) => String::from_str("U256"),
        ParamKind::FixedBytes(n) => {
            let mut s = String::from_str("[u8; ");
            let num = usize_to_string(*n);
            s.append(num.as_str());
            s.append("]");
            s
        },
        ParamKind::Bytes => String::from_str("Vec<u8>"),
        ParamKind::Array(inner) => {
            let mut s = String::from_str("Vec<");
            let body = convert_type(inner);
            s.append(body.as_str());
            s.append(">");
            s
        },
        ParamKind::FixedArray(inner, n) => {
            let mut s = String::from_str("[");
            let body = convert_type(inner);
            s.append(body.as_str());
            s.append("; ");
            let num = usize_to_string(*n);
            s.append(num.as_str());
            s.append("]");
            s
        },
        ParamKind::Tuple(items) => {
            let mut s = String::from_str("(");
            let body = convert_list(items);
            s.append(body.as_str());
            s.append(")");
            s
        },
    }
}

fn convert_list(items: &Vec<ParamKind>) -> (r: String)
    ensures
        r@ == spec_map_list(pk_view_list(items@)),
    decreases items,
{
    let ghost tys = pk_view_list(items@);
    proof {
        lemma_pk_view_list(items@);
    }
    let mut r = String::new();
    let mut i: usize = 0;
    while i < items.len()
        invariant
            0 <= i <= items.len(),
            tys == pk_view_list(items@),
            tys.len() == items@.len(),
            forall|j: int| 0 <= j < items@.len() ==> tys[j] == pk_view(items@[j]),
            r@ == spec_map_list(tys.take(i as int)),
        decreases items.len() - i,
    {
        if i > 0 {
            r.append(", ");
        }
        let piece = convert_type(&items[i]);
        r.append(piece.as_str());
        proof {
            assert(tys.take(i + 1).drop_last() =~= tys.take(i as int));
            assert(tys.take(i + 1).last() == tys[i as int]);
            if i == 0 {
                assert(spec_map_list(tys.take(1)) == spec_map_type(tys[0]));
            }
        }
        i = i + 1;
    }
    proof {
        assert(tys.take(items@.len() as int) =~= tys);
    }
    r
}

} // verus!
