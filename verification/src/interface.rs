//! The interface selector: which entries of an interface description are
//! wrapped, and the normalized function-description records built for them.
//!
//! An entry is eligible exactly when it is a function, is not read-only
//! (`view`), and every declared output has the ABI type `bool`. Eligible
//! entries are normalized in input order; a parameter type outside the
//! supported grammar aborts the run, naming the offending function, the
//! input and its raw type text.

use vstd::prelude::*;
use vstd::string::StringExecFns;

use crate::abi::{parse_param_type, spec_parse_type};
use crate::err::{GenError, UnsupportedType};
use crate::mapper::{convert_type, spec_map_type};
use crate::selector::{compute_selector, selector_of, signature_of, spec_signature};
use crate::strutil::str_eq;

verus! {

broadcast use vstd::std_specs::vec::group_vec_axioms, vstd::seq::group_seq_axioms;

/// One declared input of an interface entry: its name and its raw ABI type
/// text.
#[derive(Debug, Clone)]
pub struct AbiInput {
    pub name: String,
    pub type_text: String,
}

/// One entry of the interface description, reduced to the fields the
/// selector reads. Fields that the description does not give as strings
/// are carried as empty strings.
#[derive(Debug, Clone)]
pub struct AbiEntry {
    pub entry_type: String,
    pub name: String,
    pub state_mutability: String,
    pub inputs: Vec<AbiInput>,
    pub outputs: Vec<String>,
}

/// One normalized function input: its name, the raw ABI type text used in
/// the canonical signature, and the rendered target type expression.
#[derive(Debug, Clone)]
pub struct InputParameter {
    pub name: String,
    pub abi_type_text: String,
    pub target_type: String,
}

/// One function the generator wraps: the name, the normalized inputs in
/// declared order, the fixed `bool` output kind, the canonical signature,
/// and its 4-byte selector.
#[derive(Debug, Clone)]
pub struct FunctionDescription {
    pub name: String,
    pub inputs: Vec<InputParameter>,
    pub output: String,
    pub signature: String,
    pub selector: Vec<u8>,
}

/// The eligibility rule: a non-`view` function whose every declared output
/// is `bool`.
pub open spec fn spec_eligible(e: AbiEntry) -> bool {
    &&& e.entry_type@ == "function"@
    &&& e.state_mutability@ != "view"@
    &&& forall|i: int| 0 <= i < e.outputs@.len() ==> (#[trigger] e.outputs@[i])@ == "bool"@
}

/// The input's raw type text lies in the supported grammar.
pub open spec fn spec_input_ok(q: AbiInput) -> bool {
    spec_parse_type(q.type_text@) is Some
}

/// The normalized parameter records the declared input faithfully: same
/// name, the raw type text kept, and the target type mapped from it.
pub open spec fn spec_input_matches(q: AbiInput, p: InputParameter) -> bool {
    &&& p.name@ == q.name@
    &&& p.abi_type_text@ == q.type_text@
    &&& match spec_parse_type(q.type_text@) {
        Some(t) => p.target_type@ == spec_map_type(t),
        None => false,
    }
}

/// The function description is exactly what the entry declares: name and
/// inputs kept in order, output fixed to `bool`, the canonical signature
/// built from the raw type texts, and the selector derived from it.
pub open spec fn spec_describes(e: AbiEntry, f: FunctionDescription) -> bool {
    &&& f.name@ == e.name@
    &&& f.output@ == "bool"@
    &&& f.inputs@.len() == e.inputs@.len()
    &&& forall|i: int| 0 <= i < e.inputs@.len() ==> spec_input_matches(
        #[trigger] e.inputs@[i],
        f.inputs@[i],
    )
    &&& f.signature@ == spec_signature(e.name@, e.inputs@.map_values(|q: AbiInput| q.type_text@))
    &&& f.selector@ == selector_of(f.signature@)
    &&& f.selector@.len() == 4
}

/// The eligible entries of the description, in order.
pub open spec fn spec_selected(entries: Seq<AbiEntry>) -> Seq<AbiEntry> {
    entries.filter(|e: AbiEntry| spec_eligible(e))
}

/// Decides the eligibility rule for one entry.
pub fn is_eligible(e: &AbiEntry) -> (r: bool)
    ensures
        r == spec_eligible(*e),
{
    if !str_eq(e.entry_type.as_str(), "function") {
        return false;
    }
    if str_eq(e.state_mutability.as_str(), "view") {
        return false;
    }
    let mut i: usize = 0;
    while i < e.outputs.len()
        invariant
            0 <= i <= e.outputs@.len(),
            forall|j: int| 0 <= j < i ==> (#[trigger] e.outputs@[j])@ == "bool"@,
        decreases e.outputs@.len() - i,
    {
        if !str_eq(e.outputs[i].as_str(), "bool") {
            return false;
        }
        i = i + 1;
    }
    true
}

/// Normalizes one eligible entry into its function description. Succeeds
/// exactly when every declared input type lies in the supported grammar;
/// otherwise reports the first offending input, naming the function, the
/// input and its raw type text.
pub fn describe_function(e: &AbiEntry) -> (r: Result<FunctionDescription, GenError>)
    requires
        spec_eligible(*e),
    ensures
        match r {
            Ok(f) => spec_describes(*e, f) && forall|i: int|
                0 <= i < e.inputs@.len() ==> spec_input_ok(#[trigger] e.inputs@[i]),
            Err(err) => match err {
                GenError::UnsupportedAbiType(u) => u.function@ == e.name@ && exists|i: int|
                    0 <= i < e.inputs@.len() && !spec_input_ok(#[trigger] e.inputs@[i])
                        && u.input@ == e.inputs@[i].name@ && u.type_text@
                        == e.inputs@[i].type_text@ && (forall|j: int|
                        0 <= j < i ==> spec_input_ok(#[trigger] e.inputs@[j])),
                _ => false,
            },
        },
{
    let mut params: Vec<InputParameter> = Vec::new();
    let mut texts: Vec<String> = Vec::new();
    let mut i: usize = 0;
    while i < e.inputs.len()
        invariant
            0 <= i <= e.inputs@.len(),
            params@.len() == i,
            texts@.len() == i,
            forall|j: int| 0 <= j < i ==> spec_input_ok(#[trigger] e.inputs@[j]),
            forall|j: int|
                0 <= j < i ==> spec_input_matches(#[trigger] e.inputs@[j], params@[j]),
            forall|j: int| 0 <= j < i ==> (#[trigger] texts@[j])@ == e.inputs@[j].type_text@,
        decreases e.inputs@.len() - i,
    {
        let q = &e.inputs[i];
        match parse_param_type(q.type_text.as_str()) {
            Some(t) => {
                let target = convert_type(&t);
                params.push(
                    InputParameter {
                        name: q.name.clone(),
                        abi_type_text: q.type_text.clone(),
                        target_type: target,
                    },
                );
                texts.push(q.type_text.clone());
            },
            None => {
                return Err(
                    GenError::UnsupportedAbiType(
                        UnsupportedType {
                            function: e.name.clone(),
                            input: q.name.clone(),
                            type_text: q.type_text.clone(),
                        },
                    ),
                );
            },
        }
        i = i + 1;
    }
    let sig = signature_of(e.name.as_str(), &texts);
    let sel = compute_selector(sig.as_str());
    proof {
        assert(texts@.map_values(|t: String| t@) =~= e.inputs@.map_values(
            |q: AbiInput| q.type_text@,
        ));
    }
    Ok(
        FunctionDescription {
            name: e.name.clone(),
            inputs: params,
            output: String::from_str("bool"),
            signature: sig,
            selector: sel,
        },
    )
}

/// Selects the eligible entries, in order, and normalizes each. Succeeds
/// exactly when every input type of every eligible entry lies in the
/// supported grammar; ineligible entries are skipped and never inspected
/// for types. A failure names an eligible function, one of its inputs and
/// that input's raw type text, and that input's type is indeed
/// unsupported.
pub fn select_functions(entries: &Vec<AbiEntry>) -> (r: Result<
    Vec<FunctionDescription>,
    GenError,
>)
    ensures
        match r {
            Ok(fs) => {
                &&& fs@.len() == spec_selected(entries@).len()
                &&& forall|i: int|
                    0 <= i < fs@.len() ==> spec_describes(
                        spec_selected(entries@)[i],
                        #[trigger] fs@[i],
                    )
                &&& forall|i: int|
                    0 <= i < entries@.len() && spec_eligible(#[trigger] entries@[i])
                        ==> forall|j: int|
                        0 <= j < entries@[i].inputs@.len() ==> spec_input_ok(
                            #[trigger] entries@[i].inputs@[j],
                        )
            },
            Err(err) => match err {
                GenError::UnsupportedAbiType(u) => exists|i: int|
                    0 <= i < entries@.len() && spec_eligible(#[trigger] entries@[i])
                        && entries@[i].name@ == u.function@ && exists|j: int|
                        0 <= j < entries@[i].inputs@.len() && !spec_input_ok(
                            #[trigger] entries@[i].inputs@[j],
                        ) && entries@[i].inputs@[j].name@ == u.input@
                            && entries@[i].inputs@[j].type_text@ == u.type_text@,
                _ => false,
            },
        },
{
    let mut fs: Vec<FunctionDescription> = Vec::new();
    let mut i: usize = 0;
    while i < entries.len()
        invariant
            0 <= i <= entries@.len(),
            fs@.len() == spec_selected(entries@.take(i as int)).len(),
            forall|k: int|
                0 <= k < fs@.len() ==> spec_describes(
                    spec_selected(entries@.take(i as int))[k],
                    #[trigger] fs@[k],
                ),
            forall|k: int|
                0 <= k < i && spec_eligible(#[trigger] entries@[k]) ==> forall|j: int|
                    0 <= j < entries@[k].inputs@.len() ==> spec_input_ok(
                        #[trigger] entries@[k].inputs@[j],
                    ),
        decreases entries@.len() - i,
    {
        let e = &entries[i];
        if is_eligible(e) {
            match describe_function(e) {
                Ok(f) => {
                    fs.push(f);
                },
                Err(err) => {
                    proof {
                        match &err {
                            GenError::UnsupportedAbiType(u) => {
                                let k = choose|k: int|
                                    0 <= k < e.inputs@.len() && !spec_input_ok(
                                        #[trigger] e.inputs@[k],
                                    ) && u.input@ == e.inputs@[k].name@ && u.type_text@
                                        == e.inputs@[k].type_text@ && (forall|j: int|
                                        0 <= j < k ==> spec_input_ok(#[trigger] e.inputs@[j]));
                                assert(0 <= k < entries@[i as int].inputs@.len()
                                    && !spec_input_ok(entries@[i as int].inputs@[k])
                                    && entries@[i as int].inputs@[k].name@ == u.input@
                                    && entries@[i as int].inputs@[k].type_text@
                                    == u.type_text@);
                            },
                            _ => {
                                assert(false);
                            },
                        }
                    }
                    return Err(err);
                },
            }
        }
        proof {
            reveal(Seq::filter);
            let pre = entries@.take(i as int);
            let cur = entries@.take(i + 1);
            assert(cur.drop_last() =~= pre);
            assert(cur.last() == entries@[i as int]);
            if spec_eligible(entries@[i as int]) {
                assert(spec_selected(cur) =~= spec_selected(pre).push(entries@[i as int]));
            } else {
                assert(spec_selected(cur) =~= spec_selected(pre));
            }
        }
        i = i + 1;
    }
    proof {
        assert(entries@.take(entries@.len() as int) =~= entries@);
    }
    Ok(fs)
}

} // verus!
