//! The generation pipeline: one linear pass from interface description
//! text to rendered module source. Any failure aborts the whole run with
//! a single error and no output.

use vstd::prelude::*;

use crate::err::GenError;
use crate::interface::{
    select_functions, spec_describes, spec_eligible, spec_input_ok, spec_selected, AbiEntry,
    FunctionDescription,
};
use crate::jsoninput::{json_wf, parse_interface};
use crate::render::{
    lemma_describes_render, lemma_render_lists_congruent, render_module, spec_render_module,
    spec_selector_const, spec_render_function, ModuleDescription,
};

verus! {

/// The output is the rendered module whose functions describe, in order,
/// exactly the eligible entries of the description.
pub open spec fn spec_generated(
    entries: Seq<AbiEntry>,
    name: Seq<char>,
    evm_id: Seq<char>,
    fs: Vec<FunctionDescription>,
    out: Seq<char>,
) -> bool {
    &&& fs@.len() == spec_selected(entries).len()
    &&& (forall|i: int|
        0 <= i < fs@.len() ==> spec_describes(spec_selected(entries)[i], #[trigger] fs@[i]))
    &&& out == spec_render_module(name, evm_id, fs@)
}

/// Everything the pipeline owes on success: some function descriptions
/// describe, in order, exactly the eligible entries, the output is the
/// rendered module made of them, and every input type of every eligible
/// entry lies in the supported grammar.
pub open spec fn spec_generate_ok(
    entries: Seq<AbiEntry>,
    name: Seq<char>,
    evm_id: Seq<char>,
    out: Seq<char>,
) -> bool {
    &&& exists|fs: Vec<FunctionDescription>| spec_generated(entries, name, evm_id, fs, out)
    &&& forall|i: int|
        0 <= i < entries.len() && spec_eligible(#[trigger] entries[i]) ==> forall|j: int|
            0 <= j < entries[i].inputs@.len() ==> spec_input_ok(#[trigger] entries[i].inputs@[j])
}

/// Generates the wrapper module source from already extracted records:
/// selects the eligible entries, normalizes each, and renders the module.
/// Succeeds exactly when every input type of every eligible entry lies in
/// the supported grammar; ineligible entries never fail the run. A
/// failure names an eligible function, one of its inputs and that input's
/// raw type text, and that input's type is indeed unsupported.
pub fn generate_from_entries(entries: &Vec<AbiEntry>, module_name: &str, evm_id: &str) -> (r:
    Result<String, GenError>)
    ensures
        match r {
            Ok(out) => spec_generate_ok(entries@, module_name@, evm_id@, out@),
            Err(err) => match err {
                GenError::UnsupportedAbiType(u) => exists|i: int|
                    0 <= i < entries@.len() && spec_eligible(#[trigger] entries@[i])
                        && entries@[i].name@ == u.function@ && exists|j: int|
                        0 <= j < entries@[i].inputs@.len() && !spec_input_ok(
                            #[trigger] entries@[i].inputs@[j],
                        ) && entries@[i].inputs@[j].name@ == u.input@
                            && entries@[i].inputs@[j].type_text@ == u.type_text@,
                _ => false,
            },
        },
{
    let functions = match select_functions(entries) {
        Ok(fs) => fs,
        Err(e) => {
            return Err(e);
        },
    };
    let m = ModuleDescription {
        name: module_name.to_owned(),
        evm_id: evm_id.to_owned(),
        functions,
    };
    let out = render_module(&m);
    proof {
        assert(spec_generated(entries@, module_name@, evm_id@, m.functions, out@));
        assert(spec_generate_ok(entries@, module_name@, evm_id@, out@));
    }
    Ok(out)
}

/// Generation is deterministic: for one sequence of extracted entries,
/// one module name and one environment identifier, any two generated
/// outputs are equal — whatever function descriptions each run built.
pub proof fn lemma_generation_deterministic(
    entries: Seq<AbiEntry>,
    name: Seq<char>,
    evm_id: Seq<char>,
    fs1: Vec<FunctionDescription>,
    fs2: Vec<FunctionDescription>,
    out1: Seq<char>,
    out2: Seq<char>,
)
    requires
        spec_generated(entries, name, evm_id, fs1, out1),
        spec_generated(entries, name, evm_id, fs2, out2),
    ensures
        out1 == out2,
{
    let sel = spec_selected(entries);
    assert forall|i: int| 0 <= i < fs1@.len() implies spec_render_function(#[trigger] fs1@[i])
        == spec_render_function(fs2@[i]) && spec_selector_const(fs1@[i]) == spec_selector_const(
        fs2@[i],
    ) by {
        lemma_describes_render(sel[i], fs1@[i], fs2@[i]);
    }
    lemma_render_lists_congruent(fs1@, fs2@);
}

/// Runs the whole pipeline on the raw description text: parse, select,
/// render. Text that is not well-formed JSON fails with
/// `MalformedDescription`, and only such text does; a parameter type
/// outside the supported grammar fails with `UnsupportedAbiType`, naming
/// the function, input and type text; nothing is produced on failure.
pub fn generate(text: &str, module_name: &str, evm_id: &str) -> (r: Result<String, GenError>)
    ensures
        match r {
            Ok(out) => json_wf(text@) && (exists|entries: Seq<AbiEntry>|
                #[trigger] spec_generate_ok(entries, module_name@, evm_id@, out@)),
            Err(e) => match e {
                GenError::MalformedDescription => !json_wf(text@),
                GenError::UnsupportedAbiType(_) => json_wf(text@),
            },
        },
{
    let entries = match parse_interface(text) {
        Ok(es) => es,
        Err(e) => {
            return Err(e);
        },
    };
    generate_from_entries(&entries, module_name, evm_id)
}

} // verus!
