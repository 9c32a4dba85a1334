use sumi::abi::{parse_param_type, ParamKind};
use sumi::casing::{capitalize, to_snake, to_upper_snake};
use sumi::err::{GenError, UnsupportedType};
use sumi::interface::{describe_function, is_eligible, select_functions, AbiEntry, AbiInput};
use sumi::mapper::convert_type;
use sumi::pipeline::{generate, generate_from_entries};
use sumi::selector::{compute_selector, signature_of, to_hex};
use sumi::strutil::{join_strings, str_eq, usize_to_string};

fn entry(
    entry_type: &str,
    name: &str,
    state_mutability: &str,
    inputs: &[(&str, &str)],
    outputs: &[&str],
) -> AbiEntry {
    AbiEntry {
        entry_type: entry_type.to_string(),
        name: name.to_string(),
        state_mutability: state_mutability.to_string(),
        inputs: inputs
            .iter()
            .map(|(n, t)| AbiInput { name: n.to_string(), type_text: t.to_string() })
            .collect(),
        outputs: outputs.iter().map(|t| t.to_string()).collect(),
    }
}

#[test]
fn selector_known_vector() {
    let sel = compute_selector("transfer(address,uint256)");
    assert_eq!(sel, vec![0xa9u8, 0x05, 0x9c, 0xbb]);
    assert_eq!(to_hex(&sel), "a9059cbb");
}

#[test]
fn selector_of_balance_of() {
    let sel = compute_selector("approve(address,uint256)");
    assert_eq!(to_hex(&sel), "095ea7b3");
}

#[test]
fn signature_construction() {
    let types = vec!["address".to_string(), "uint256".to_string()];
    let sig = signature_of("approve", &types);
    assert_eq!(sig, "approve(address,uint256)");
}

#[test]
fn signature_of_no_inputs() {
    let sig = signature_of("pause", &Vec::new());
    assert_eq!(sig, "pause()");
}

#[test]
fn type_mapping_recurses() {
    let t = ParamKind::FixedArray(Box::new(ParamKind::Array(Box::new(ParamKind::Bool))), 3);
    assert_eq!(convert_type(&t), "[Vec<bool>; 3]");
}

#[test]
fn type_mapping_base_cases() {
    assert_eq!(convert_type(&ParamKind::Bool), "bool");
    assert_eq!(convert_type(&ParamKind::Address), "H160");
    assert_eq!(convert_type(&ParamKind::Uint(8)), "U256");
    assert_eq!(convert_type(&ParamKind::Uint(256)), "U256");
    assert_eq!(convert_type(&ParamKind::Bytes), "Vec<u8>");
    assert_eq!(convert_type(&ParamKind::FixedBytes(32)), "[u8; 32]");
}

#[test]
fn type_mapping_tuple() {
    let t = ParamKind::Tuple(vec![ParamKind::Address, ParamKind::Uint(256)]);
    assert_eq!(convert_type(&t), "(H160, U256)");
}

#[test]
fn parse_simple_types() {
    assert_eq!(parse_param_type("bool").unwrap(), ParamKind::Bool);
    assert_eq!(parse_param_type("address").unwrap(), ParamKind::Address);
    assert_eq!(parse_param_type("uint").unwrap(), ParamKind::Uint(256));
    assert_eq!(parse_param_type("uint256").unwrap(), ParamKind::Uint(256));
    assert_eq!(parse_param_type("uint8").unwrap(), ParamKind::Uint(8));
    assert_eq!(parse_param_type("bytes").unwrap(), ParamKind::Bytes);
    assert_eq!(parse_param_type("bytes32").unwrap(), ParamKind::FixedBytes(32));
}

#[test]
fn parse_composite_types() {
    assert_eq!(
        parse_param_type("address[]").unwrap(),
        ParamKind::Array(Box::new(ParamKind::Address))
    );
    assert_eq!(
        parse_param_type("uint256[4]").unwrap(),
        ParamKind::FixedArray(Box::new(ParamKind::Uint(256)), 4)
    );
    assert_eq!(
        parse_param_type("uint256[4][]").unwrap(),
        ParamKind::Array(Box::new(ParamKind::FixedArray(Box::new(ParamKind::Uint(256)), 4)))
    );
    assert_eq!(
        parse_param_type("(address,uint256)").unwrap(),
        ParamKind::Tuple(vec![ParamKind::Address, ParamKind::Uint(256)])
    );
    assert_eq!(
        parse_param_type("(bool,(address,bytes32)[])").unwrap(),
        ParamKind::Tuple(vec![
            ParamKind::Bool,
            ParamKind::Array(Box::new(ParamKind::Tuple(vec![
                ParamKind::Address,
                ParamKind::FixedBytes(32)
            ]))),
        ])
    );
}

#[test]
fn parse_rejects_unsupported() {
    for bad in [
        "string", "int256", "function", "", "uint7", "uint0", "uint264", "bytes0", "bytes33",
        "bool[", "bool]", "(bool", "bool,", "(bool,)", "uint256[04]", "boolean", "uint256x",
    ] {
        match parse_param_type(bad) {
            None => {}
            other => panic!("expected no parse for {:?}, got {:?}", bad, other),
        }
    }
}

#[test]
fn casing_formatters() {
    assert_eq!(to_snake("transferFrom"), "transfer_from");
    assert_eq!(to_upper_snake("transferFrom"), "TRANSFER_FROM");
    assert_eq!(capitalize("erc20"), "Erc20");
}

#[test]
fn capitalize_edge_cases() {
    assert_eq!(capitalize(""), "");
    assert_eq!(capitalize("Abc"), "Abc");
    assert_eq!(capitalize("x"), "X");
}

#[test]
fn filtering_selects_only_bool_nonview() {
    let entries = vec![
        entry("function", "totalSupply", "view", &[], &["uint256"]),
        entry("function", "transfer", "nonpayable", &[("to", "address"), ("amount", "uint256")], &[
            "bool",
        ]),
        entry("function", "rate", "nonpayable", &[], &["uint256"]),
    ];
    let fs = select_functions(&entries).unwrap();
    assert_eq!(fs.len(), 1);
    assert_eq!(fs[0].name, "transfer");
    assert_eq!(fs[0].signature, "transfer(address,uint256)");
    assert_eq!(fs[0].output, "bool");
    assert_eq!(to_hex(&fs[0].selector), "a9059cbb");
}

#[test]
fn filtering_skips_events_and_keeps_order() {
    let entries = vec![
        entry("event", "Transfer", "", &[("to", "address")], &[]),
        entry("function", "b", "nonpayable", &[], &["bool"]),
        entry("function", "a", "payable", &[], &[]),
    ];
    let fs = select_functions(&entries).unwrap();
    assert_eq!(fs.len(), 2);
    assert_eq!(fs[0].name, "b");
    assert_eq!(fs[1].name, "a");
}

#[test]
fn eligibility_rule() {
    assert!(is_eligible(&entry("function", "f", "nonpayable", &[], &["bool"])));
    assert!(is_eligible(&entry("function", "f", "payable", &[], &[])));
    assert!(!is_eligible(&entry("function", "f", "view", &[], &["bool"])));
    assert!(!is_eligible(&entry("event", "f", "nonpayable", &[], &["bool"])));
    assert!(!is_eligible(&entry("function", "f", "nonpayable", &[], &["uint256"])));
    assert!(!is_eligible(&entry("function", "f", "nonpayable", &[], &["bool", "uint256"])));
}

#[test]
fn describe_builds_full_record() {
    let e = entry("function", "approve", "nonpayable", &[("spender", "address"), (
        "amount",
        "uint256",
    )], &["bool"]);
    let f = describe_function(&e).unwrap();
    assert_eq!(f.name, "approve");
    assert_eq!(f.inputs.len(), 2);
    assert_eq!(f.inputs[0].name, "spender");
    assert_eq!(f.inputs[0].abi_type_text, "address");
    assert_eq!(f.inputs[0].target_type, "H160");
    assert_eq!(f.inputs[1].target_type, "U256");
    assert_eq!(f.signature, "approve(address,uint256)");
    assert_eq!(to_hex(&f.selector), "095ea7b3");
}

#[test]
fn unsupported_input_fails_generation() {
    let entries = vec![entry("function", "setName", "nonpayable", &[("name", "string")], &[
        "bool",
    ])];
    match generate_from_entries(&entries, "erc20", "0x0F") {
        Err(GenError::UnsupportedAbiType(u)) => {
            assert_eq!(u.function, "setName");
            assert_eq!(u.input, "name");
            assert_eq!(u.type_text, "string");
        }
        other => panic!("expected unsupported type, got {:?}", other),
    }
}

#[test]
fn failure_scenario_string_input() {
    let json_text = r#"[{"type":"function","name":"setName","stateMutability":"nonpayable","inputs":[{"name":"name","type":"string"}],"outputs":[{"type":"bool"}]}]"#;
    match generate(json_text, "erc20", "0x0F") {
        Err(GenError::UnsupportedAbiType(u)) => {
            assert_eq!(u.function, "setName");
            assert_eq!(u.input, "name");
            assert_eq!(u.type_text, "string");
        }
        other => panic!("expected unsupported type, got {:?}", other),
    }
}

#[test]
fn malformed_description_fails() {
    match generate("not json at all {", "erc20", "0x0F") {
        Err(GenError::MalformedDescription) => {},
        other => panic!("expected malformed description, got {:?}", other),
    }
}

#[test]
fn error_messages() {
    assert_eq!(GenError::MalformedDescription.message(), "malformed interface description");
    let u = UnsupportedType {
        function: "setName".to_string(),
        input: "name".to_string(),
        type_text: "string".to_string(),
    };
    assert_eq!(
        GenError::UnsupportedAbiType(u).message(),
        "unsupported ABI type `string` of input `name` in function `setName`"
    );
}

#[test]
fn end_to_end_scenario() {
    let json_text = r#"[{"type":"function","name":"transfer","stateMutability":"nonpayable","inputs":[{"name":"to","type":"address"},{"name":"amount","type":"uint256"}],"outputs":[{"type":"bool"}]}]"#;
    let out = generate(json_text, "erc20", "0x0F").unwrap();
    assert!(out.contains("// Selector for `transfer(address,uint256)`"));
    assert!(out.contains("const TRANSFER_SELECTOR: [u8; 4] = hex![\"a9059cbb\"];"));
    assert!(out.contains("pub fn transfer(to: H160, amount: U256) -> bool {"));
    assert!(out.contains("fn transfer_encode(to: H160, amount: U256) -> Vec<u8> {"));
    assert!(out.contains("pub struct Erc20 {"));
    assert!(out.contains("mod erc20 {"));
    assert!(out.contains("const EVM_ID: u8 = 0x0F;"));
    assert!(out.contains("impl Erc20 {"));
    assert!(out.contains("Erc20Ref,"));
    assert!(out.contains("trait Tokenize {"));
}

#[test]
fn end_to_end_empty_description() {
    let out = generate("[]", "bridge", "0x1F").unwrap();
    assert!(out.contains("mod bridge {"));
    assert!(out.contains("pub struct Bridge {"));
    assert!(out.contains("const EVM_ID: u8 = 0x1F;"));
    assert!(!out.contains("_SELECTOR"));
}

#[test]
fn lenient_extraction_ignores_extra_entries() {
    let json_text = r#"[
        {"type":"event","name":"Transfer","inputs":[{"name":"value","type":"uint256"}]},
        {"type":"function","name":"mint","stateMutability":"nonpayable",
         "inputs":[{"name":"to","type":"address"}],"outputs":[{"type":"bool"}]}
    ]"#;
    let out = generate(json_text, "token", "0x0F").unwrap();
    assert!(out.contains("pub fn mint(to: H160) -> bool {"));
    assert!(!out.contains("Transfer"));
}

#[test]
fn string_helpers() {
    assert!(str_eq("abc", "abc"));
    assert!(!str_eq("abc", "abd"));
    assert!(!str_eq("abc", "ab"));
    assert_eq!(usize_to_string(0), "0");
    assert_eq!(usize_to_string(90210), "90210");
    let parts = vec!["a".to_string(), "b".to_string(), "c".to_string()];
    assert_eq!(join_strings(&parts, ", "), "a, b, c");
    assert_eq!(join_strings(&Vec::new(), ", "), "");
}

#[test]
fn hex_rendering() {
    assert_eq!(to_hex(&vec![0u8, 15, 16, 255]), "000f10ff");
    assert_eq!(to_hex(&Vec::new()), "");
}
