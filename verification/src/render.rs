//! The module renderer: fills the fixed wrapper-module template with the
//! module-level facts — module name, environment identifier, and the
//! function descriptions — applying the casing rules per slot.
//!
//! The template text itself is a fixed compiled-in asset; the renderer
//! only binds its slots. All decisions (filtering, selector computation,
//! type resolution) are already complete in the `ModuleDescription`.

use vstd::prelude::*;
use vstd::string::{StrSliceExecFns, StringExecFns};

use crate::casing::{capitalize, snake_of, spec_capitalize, to_snake, to_upper_snake, upper_snake_of};
use crate::interface::{spec_describes, spec_input_matches, AbiEntry, FunctionDescription, InputParameter};
use crate::selector::{hex_str, to_hex};

verus! {

broadcast use vstd::std_specs::vec::group_vec_axioms, vstd::seq::group_seq_axioms;

/// The module-level generation request: the module name, the environment
/// identifier text (inserted verbatim), and the functions to wrap, in
/// order.
#[derive(Debug, Clone)]
pub struct ModuleDescription {
    pub name: String,
    pub evm_id: String,
    pub functions: Vec<FunctionDescription>,
}

/// One parameter declaration: `name: Type`.
pub open spec fn spec_param_decl(p: InputParameter) -> Seq<char> {
    p.name@ + ": "@ + p.target_type@
}

/// The parameter declaration list of a function, comma-joined.
pub open spec fn spec_param_decls(inputs: Seq<InputParameter>) -> Seq<char>
    decreases inputs.len(),
{
    if inputs.len() == 0 {
        Seq::empty()
    } else if inputs.len() == 1 {
        spec_param_decl(inputs[0])
    } else {
        spec_param_decls(inputs.drop_last()) + ", "@ + spec_param_decl(inputs.last())
    }
}

/// The bare argument name list of a function, comma-joined.
pub open spec fn spec_arg_names(inputs: Seq<InputParameter>) -> Seq<char>
    decreases inputs.len(),
{
    if inputs.len() == 0 {
        Seq::empty()
    } else if inputs.len() == 1 {
        inputs[0].name@
    } else {
        spec_arg_names(inputs.drop_last()) + ", "@ + inputs.last().name@
    }
}

/// One serialization call: `name.tokenize()`.
pub open spec fn spec_tokenize_call(p: InputParameter) -> Seq<char> {
    p.name@ + ".tokenize()"@
}

/// The serialization call list of a function, one call per line.
pub open spec fn spec_tokenize_calls(inputs: Seq<InputParameter>) -> Seq<char>
    decreases inputs.len(),
{
    if inputs.len() == 0 {
        Seq::empty()
    } else if inputs.len() == 1 {
        spec_tokenize_call(inputs[0])
    } else {
        spec_tokenize_calls(inputs.drop_last()) + ",\n                "@ + spec_tokenize_call(
            inputs.last(),
        )
    }
}

/// The selector constant lines of one function: its canonical signature
/// in a comment, and the 4-byte constant in lowercase hexadecimal.
pub open spec fn spec_selector_const(f: FunctionDescription) -> Seq<char> {
    "    // Selector for `"@ + f.signature@ + "`\n    const "@ + upper_snake_of(f.name@)
        + "_SELECTOR: [u8; 4] = hex![\""@ + hex_str(f.selector@) + "\"];\n"@
}

/// The selector constant lines of all functions, in order.
pub open spec fn spec_selector_consts(fs: Seq<FunctionDescription>) -> Seq<char>
    decreases fs.len(),
{
    if fs.len() == 0 {
        Seq::empty()
    } else {
        spec_selector_consts(fs.drop_last()) + spec_selector_const(fs.last())
    }
}

/// The two call-forwarding operations of one function: the public entry
/// point returning the boolean success indicator, and the private helper
/// that serializes the selector followed by the encoded inputs.
pub open spec fn spec_render_function(f: FunctionDescription) -> Seq<char> {
    "        /// Send `"@ + f.name@ + "` call to contract\n        #[ink(message)]\n        pub fn "@
        + snake_of(f.name@) + "("@ + spec_param_decls(f.inputs@) + ") -> "@ + f.output@
        + " {\n            let encoded_input = Self::"@ + snake_of(f.name@) + "_encode("@
        + spec_arg_names(f.inputs@)
        + ");\n            self.env()\n                .extension()\n                .xvm_call(\n                    super::EVM_ID,\n                    Vec::from(self.evm_address.as_ref()),\n                    encoded_input,\n                )\n                .is_ok()\n        }\n\n        fn "@
        + snake_of(f.name@) + "_encode("@ + spec_param_decls(f.inputs@)
        + ") -> Vec<u8> {\n            let mut encoded = "@ + upper_snake_of(f.name@)
        + "_SELECTOR.to_vec();\n            let input = [\n                "@
        + spec_tokenize_calls(f.inputs@)
        + "\n            ];\n\n            encoded.extend(&ethabi::encode(&input));\n            encoded\n        }\n"@
}

/// The call-forwarding operations of all functions, in order.
pub open spec fn spec_render_functions(fs: Seq<FunctionDescription>) -> Seq<char>
    decreases fs.len(),
{
    if fs.len() == 0 {
        Seq::empty()
    } else {
        spec_render_functions(fs.drop_last()) + spec_render_function(fs.last())
    }
}

/// The full rendered module: header and pragma lines, the environment
/// identifier constant, the selector constants, the storage type and
/// constructor, the forwarding operations, and the fixed serialization
/// capability.
pub open spec fn spec_render_module(name: Seq<char>, evm_id: Seq<char>, fs: Seq<
    FunctionDescription,
>) -> Seq<char> {
    "//! Wrapper module over an EVM contract interface.\n#![cfg_attr(not(feature = \"std\"), no_std)]\n\nuse ink_lang as ink;\npub use self::"@
        + name + "::{\n    "@ + spec_capitalize(name) + ",\n    "@ + spec_capitalize(name)
        + "Ref,\n};\n\n/// EVM ID from runtime\nconst EVM_ID: u8 = "@ + evm_id
        + ";\n\n/// The EVM ERC20 delegation contract.\n#[ink::contract(env = xvm_environment::XvmDefaultEnvironment)]\nmod "@
        + name + " {\n"@ + spec_selector_consts(fs)
        + "\n    use ethabi::{\n        ethereum_types::{\n            H160,\n            U256,\n        },\n        Token,\n    };\n    use hex_literal::hex;\n    use ink_prelude::vec::Vec;\n\n    #[ink(storage)]\n    pub struct "@
        + spec_capitalize(name) + " {\n        evm_address: H160,\n    }\n\n    impl "@
        + spec_capitalize(name)
        + " {\n        /// Create new abstraction from given contract address.\n        #[ink(constructor)]\n        pub fn new(evm_address: H160) -> Self {\n            Self { evm_address }\n        }\n\n"@
        + spec_render_functions(fs)
        + "    }\n\n    trait Tokenize {\n        fn tokenize(&self) -> Token;\n    }\n\n    impl<T: Tokenize> Tokenize for Vec<T> {\n        fn tokenize(&self) -> Token {\n            Token::Array(self.iter().map(Tokenize::tokenize).collect())\n        }\n    }\n\n    impl<A: Tokenize, B: Tokenize> Tokenize for (A, B) {\n        fn tokenize(&self) -> Token {\n            Token::Tuple(vec![self.0.tokenize(), self.1.tokenize()])\n        }\n    }\n\n    impl Tokenize for H160 {\n        fn tokenize(&self) -> Token {\n            Token::Address(*self)\n        }\n    }\n\n    impl Tokenize for U256 {\n        fn tokenize(&self) -> Token {\n            Token::Uint(*self)\n        }\n    }\n\n    impl Tokenize for bool {\n        fn tokenize(&self) -> Token {\n            Token::Bool(*self)\n        }\n    }\n\n    impl<T: Tokenize, const N: usize> Tokenize for [T; N] {\n        fn tokenize(&self) -> Token {\n            Token::FixedArray(self.iter().map(Tokenize::tokenize).collect())\n        }\n    }\n}\n"@
}

pub proof fn lemma_param_decls_congruent(a: Seq<InputParameter>, b: Seq<InputParameter>)
    requires
        a.len() == b.len(),
        forall|i: int| 0 <= i < a.len() ==> spec_param_decl(#[trigger] a[i]) == spec_param_decl(
            b[i],
        ),
    ensures
        spec_param_decls(a) == spec_param_decls(b),
    decreases a.len(),
{
    if a.len() > 1 {
        assert forall|i: int| 0 <= i < a.drop_last().len() implies spec_param_decl(
            #[trigger] a.drop_last()[i],
        ) == spec_param_decl(b.drop_last()[i]) by {
            assert(a.drop_last()[i] == a[i]);
            assert(b.drop_last()[i] == b[i]);
        }
        lemma_param_decls_congruent(a.drop_last(), b.drop_last());
    }
}

pub proof fn lemma_arg_names_congruent(a: Seq<InputParameter>, b: Seq<InputParameter>)
    requires
        a.len() == b.len(),
        forall|i: int| 0 <= i < a.len() ==> (#[trigger] a[i]).name@ == b[i].name@,
    ensures
        spec_arg_names(a) == spec_arg_names(b),
    decreases a.len(),
{
    if a.len() > 1 {
        assert forall|i: int| 0 <= i < a.drop_last().len() implies (#[trigger] a.drop_last()[i]).name@
            == b.drop_last()[i].name@ by {
            assert(a.drop_last()[i] == a[i]);
            assert(b.drop_last()[i] == b[i]);
        }
        lemma_arg_names_congruent(a.drop_last(), b.drop_last());
    }
}

pub proof fn lemma_tokenize_calls_congruent(a: Seq<InputParameter>, b: Seq<InputParameter>)
    requires
        a.len() == b.len(),
        forall|i: int| 0 <= i < a.len() ==> spec_tokenize_call(#[trigger] a[i])
            == spec_tokenize_call(b[i]),
    ensures
        spec_tokenize_calls(a) == spec_tokenize_calls(b),
    decreases a.len(),
{
    if a.len() > 1 {
        assert forall|i: int| 0 <= i < a.drop_last().len() implies spec_tokenize_call(
            #[trigger] a.drop_last()[i],
        ) == spec_tokenize_call(b.drop_last()[i]) by {
            assert(a.drop_last()[i] == a[i]);
            assert(b.drop_last()[i] == b[i]);
        }
        lemma_tokenize_calls_congruent(a.drop_last(), b.drop_last());
    }
}

/// Two descriptions of one entry fill every template slot identically:
/// `spec_describes` pins everything the renderer reads.
pub proof fn lemma_describes_render(e: AbiEntry, f1: FunctionDescription, f2: FunctionDescription)
    requires
        spec_describes(e, f1),
        spec_describes(e, f2),
    ensures
        spec_render_function(f1) == spec_render_function(f2),
        spec_selector_const(f1) == spec_selector_const(f2),
{
    assert forall|i: int| 0 <= i < f1.inputs@.len() implies spec_param_decl(
        #[trigger] f1.inputs@[i],
    ) == spec_param_decl(f2.inputs@[i]) && f1.inputs@[i].name@ == f2.inputs@[i].name@
        && spec_tokenize_call(f1.inputs@[i]) == spec_tokenize_call(f2.inputs@[i]) by {
        assert(spec_input_matches(e.inputs@[i], f1.inputs@[i]));
        assert(spec_input_matches(e.inputs@[i], f2.inputs@[i]));
    }
    lemma_param_decls_congruent(f1.inputs@, f2.inputs@);
    lemma_arg_names_congruent(f1.inputs@, f2.inputs@);
    lemma_tokenize_calls_congruent(f1.inputs@, f2.inputs@);
}

/// Lists of slot-identical functions render identically, constant lines
/// and forwarding operations alike.
pub proof fn lemma_render_lists_congruent(a: Seq<FunctionDescription>, b: Seq<FunctionDescription>)
    requires
        a.len() == b.len(),
        forall|i: int|
            0 <= i < a.len() ==> spec_render_function(#[trigger] a[i]) == spec_render_function(
                b[i],
            ) && spec_selector_const(a[i]) == spec_selector_const(b[i]),
    ensures
        spec_render_functions(a) == spec_render_functions(b),
        spec_selector_consts(a) == spec_selector_consts(b),
    decreases a.len(),
{
    if a.len() > 0 {
        assert forall|i: int| 0 <= i < a.drop_last().len() implies spec_render_function(
            #[trigger] a.drop_last()[i],
        ) == spec_render_function(b.drop_last()[i]) && spec_selector_const(a.drop_last()[i])
            == spec_selector_const(b.drop_last()[i]) by {
            assert(a.drop_last()[i] == a[i]);
            assert(b.drop_last()[i] == b[i]);
        }
        lemma_render_lists_congruent(a.drop_last(), b.drop_last());
        assert(a.last() == a[a.len() - 1]);
        assert(b.last() == b[a.len() - 1]);
    }
}

fn render_param_decls(inputs: &Vec<InputParameter>) -> (r: String)
    ensures
        r@ == spec_param_decls(inputs@),
{
    let mut r = String::new();
    let mut i: usize = 0;
    while i < inputs.len()
        invariant
            0 <= i <= inputs@.len(),
            r@ == spec_param_decls(inputs@.take(i as int)),
        decreases inputs@.len() - i,
    {
        if i > 0 {
            r.append(", ");
        }
        let p = &inputs[i];
        r.append(p.name.as_str());
        r.append(": ");
        r.append(p.target_type.as_str());
        proof {
            assert(inputs@.take(i + 1).drop_last() =~= inputs@.take(i as int));
            assert(inputs@.take(i + 1).last() == inputs@[i as int]);
            assert(r@ =~= spec_param_decls(inputs@.take(i + 1)));
        }
        i = i + 1;
    }
    proof {
        assert(inputs@.take(inputs@.len() as int) =~= inputs@);
    }
    r
}

fn render_arg_names(inputs: &Vec<InputParameter>) -> (r: String)
    ensures
        r@ == spec_arg_names(inputs@),
{
    let mut r = String::new();
    let mut i: usize = 0;
    while i < inputs.len()
        invariant
            0 <= i <= inputs@.len(),
            r@ == spec_arg_names(inputs@.take(i as int)),
        decreases inputs@.len() - i,
    {
        if i > 0 {
            r.append(", ");
        }
        r.append(inputs[i].name.as_str());
        proof {
            assert(inputs@.take(i + 1).drop_last() =~= inputs@.take(i as int));
            assert(inputs@.take(i + 1).last() == inputs@[i as int]);
            assert(r@ =~= spec_arg_names(inputs@.take(i + 1)));
        }
        i = i + 1;
    }
    proof {
        assert(inputs@.take(inputs@.len() as int) =~= inputs@);
    }
    r
}

fn render_tokenize_calls(inputs: &Vec<InputParameter>) -> (r: String)
    ensures
        r@ == spec_tokenize_calls(inputs@),
{
    let mut r = String::new();
    let mut i: usize = 0;
    while i < inputs.len()
        invariant
            0 <= i <= inputs@.len(),
            r@ == spec_tokenize_calls(inputs@.take(i as int)),
        decreases inputs@.len() - i,
    {
        if i > 0 {
            r.append(",\n                ");
        }
        r.append(inputs[i].name.as_str());
        r.append(".tokenize()");
        proof {
            assert(inputs@.take(i + 1).drop_last() =~= inputs@.take(i as int));
            assert(inputs@.take(i + 1).last() == inputs@[i as int]);
            assert(r@ =~= spec_tokenize_calls(inputs@.take(i + 1)));
        }
        i = i + 1;
    }
    proof {
        assert(inputs@.take(inputs@.len() as int) =~= inputs@);
    }
    r
}

/// Renders the selector constant lines of one function.
pub fn render_selector_const(f: &FunctionDescription) -> (r: String)
    ensures
        r@ == spec_selector_const(*f),
{
    let upper = to_upper_snake(f.name.as_str());
    let hexs = to_hex(&f.selector);
    let mut r = String::from_str("    // Selector for `");
    r.append(f.signature.as_str());
    r.append("`\n    const ");
    r.append(upper.as_str());
    r.append("_SELECTOR: [u8; 4] = hex![\"");
    r.append(hexs.as_str());
    r.append("\"];\n");
    r
}

/// Renders the two call-forwarding operations of one function.
pub fn render_function(f: &FunctionDescription) -> (r: String)
    ensures
        r@ == spec_render_function(*f),
{
    let snake = to_snake(f.name.as_str());
    let upper = to_upper_snake(f.name.as_str());
    let decls = render_param_decls(&f.inputs);
    let args = render_arg_names(&f.inputs);
    let toks = render_tokenize_calls(&f.inputs);
    let mut r = String::from_str("        /// Send `");
    r.append(f.name.as_str());
    r.append("` call to contract\n        #[ink(message)]\n        pub fn ");
    r.append(snake.as_str());
    r.append("(");
    r.append(decls.as_str());
    r.append(") -> ");
    r.append(f.output.as_str());
    r.append(" {\n            let encoded_input = Self::");
    r.append(snake.as_str());
    r.append("_encode(");
    r.append(args.as_str());
    r.append(
        ");\n            self.env()\n                .extension()\n                .xvm_call(\n                    super::EVM_ID,\n                    Vec::from(self.evm_address.as_ref()),\n                    encoded_input,\n                )\n                .is_ok()\n        }\n\n        fn ",
    );
    r.append(snake.as_str());
    r.append("_encode(");
    r.append(decls.as_str());
    r.append(") -> Vec<u8> {\n            let mut encoded = ");
    r.append(upper.as_str());
    r.append("_SELECTOR.to_vec();\n            let input = [\n                ");
    r.append(toks.as_str());
    r.append(
        "\n            ];\n\n            encoded.extend(&ethabi::encode(&input));\n            encoded\n        }\n",
    );
    r
}

fn render_selector_consts(fs: &Vec<FunctionDescription>) -> (r: String)
    ensures
        r@ == spec_selector_consts(fs@),
{
    let mut r = String::new();
    let mut i: usize = 0;
    while i < fs.len()
        invariant
            0 <= i <= fs@.len(),
            r@ == spec_selector_consts(fs@.take(i as int)),
        decreases fs@.len() - i,
    {
        let piece = render_selector_const(&fs[i]);
        r.append(piece.as_str());
        proof {
            assert(fs@.take(i + 1).drop_last() =~= fs@.take(i as int));
            assert(fs@.take(i + 1).last() == fs@[i as int]);
        }
        i = i + 1;
    }
    proof {
        assert(fs@.take(fs@.len() as int) =~= fs@);
    }
    r
}

fn render_functions(fs: &Vec<FunctionDescription>) -> (r: String)
    ensures
        r@ == spec_render_functions(fs@),
{
    let mut r = String::new();
    let mut i: usize = 0;
    while i < fs.len()
        invariant
            0 <= i <= fs@.len(),
            r@ == spec_render_functions(fs@.take(i as int)),
        decreases fs@.len() - i,
    {
        let piece = render_function(&fs[i]);
        r.append(piece.as_str());
        proof {
            assert(fs@.take(i + 1).drop_last() =~= fs@.take(i as int));
            assert(fs@.take(i + 1).last() == fs@[i as int]);
        }
        i = i + 1;
    }
    proof {
        assert(fs@.take(fs@.len() as int) =~= fs@);
    }
    r
}

/// Renders the whole wrapper module for the given generation request.
pub fn render_module(m: &ModuleDescription) -> (r: String)
    ensures
        r@ == spec_render_module(m.name@, m.evm_id@, m.functions@),
{
    let cap = capitalize(m.name.as_str());
    let consts = render_selector_consts(&m.functions);
    let fns = render_functions(&m.functions);
    let mut r = String::from_str(
        "//! Wrapper module over an EVM contract interface.\n#![cfg_attr(not(feature = \"std\"), no_std)]\n\nuse ink_lang as ink;\npub use self::",
    );
    r.append(m.name.as_str());
    r.append("::{\n    ");
    r.append(cap.as_str());
    r.append(",\n    ");
    r.append(cap.as_str());
    r.append("Ref,\n};\n\n/// EVM ID from runtime\nconst EVM_ID: u8 = ");
    r.append(m.evm_id.as_str());
    r.append(
        ";\n\n/// The EVM ERC20 delegation contract.\n#[ink::contract(env = xvm_environment::XvmDefaultEnvironment)]\nmod ",
    );
    r.append(m.name.as_str());
    r.append(" {\n");
    r.append(consts.as_str());
    r.append(
        "\n    use ethabi::{\n        ethereum_types::{\n            H160,\n            U256,\n        },\n        Token,\n    };\n    use hex_literal::hex;\n    use ink_prelude::vec::Vec;\n\n    #[ink(storage)]\n    pub struct ",
    );
    r.append(cap.as_str());
    r.append(" {\n        evm_address: H160,\n    }\n\n    impl ");
    r.append(cap.as_str());
    r.append(
        " {\n        /// Create new abstraction from given contract address.\n        #[ink(constructor)]\n        pub fn new(evm_address: H160) -> Self {\n            Self { evm_address }\n        }\n\n",
    );
    r.append(fns.as_str());
    r.append(
        "    }\n\n    trait Tokenize {\n        fn tokenize(&self) -> Token;\n    }\n\n    impl<T: Tokenize> Tokenize for Vec<T> {\n        fn tokenize(&self) -> Token {\n            Token::Array(self.iter().map(Tokenize::tokenize).collect())\n        }\n    }\n\n    impl<A: Tokenize, B: Tokenize> Tokenize for (A, B) {\n        fn tokenize(&self) -> Token {\n            Token::Tuple(vec![self.0.tokenize(), self.1.tokenize()])\n        }\n    }\n\n    impl Tokenize for H160 {\n        fn tokenize(&self) -> Token {\n            Token::Address(*self)\n        }\n    }\n\n    impl Tokenize for U256 {\n        fn tokenize(&self) -> Token {\n            Token::Uint(*self)\n        }\n    }\n\n    impl Tokenize for bool {\n        fn tokenize(&self) -> Token {\n            Token::Bool(*self)\n        }\n    }\n\n    impl<T: Tokenize, const N: usize> Tokenize for [T; N] {\n        fn tokenize(&self) -> Token {\n            Token::FixedArray(self.iter().map(Tokenize::tokenize).collect())\n        }\n    }\n}\n",
    );
    r
}

} // verus!
