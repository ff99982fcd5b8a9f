use edgedb_tokio_ext::tx_variant::{derive_tx_variant, FnSignature, Param, ParamType, PathSegment};

fn seg(ident: &str) -> PathSegment {
    PathSegment { ident: ident.to_string(), has_arguments: false }
}

fn ref_param(pattern: &str, segments: Vec<PathSegment>) -> Param {
    Param { pattern: pattern.to_string(), ty: ParamType::RefPath { mutable: false, segments } }
}

fn transaction() -> ParamType {
    ParamType::RefPath { mutable: true, segments: vec![seg("edgedb_tokio"), seg("Transaction")] }
}

#[test]
fn tx_variant_test_macro_output() {
    let input = FnSignature {
        name: "my_db_func".to_string(),
        params: vec![ref_param("client", vec![seg("edgedb_tokio"), seg("Client")])],
    };
    let output = derive_tx_variant(&input);
    assert_eq!(output.name, "my_db_func_tx");
    assert_eq!(output.params[0].ty, transaction());
    assert_eq!(input.name, "my_db_func");
}

#[test]
fn bare_client_reference_is_rewritten() {
    let input = FnSignature {
        name: "sample_db_function".to_string(),
        params: vec![ref_param("id", vec![seg("Uuid")]), ref_param("client", vec![seg("Client")])],
    };
    let output = derive_tx_variant(&input);
    assert_eq!(output.name, "sample_db_function_tx");
    assert_eq!(output.params[0], ref_param("id", vec![seg("Uuid")]));
    assert_eq!(output.params[1].pattern, "client");
    assert_eq!(output.params[1].ty, transaction());
}

#[test]
fn client_with_arguments_is_kept() {
    let generic = PathSegment { ident: "Client".to_string(), has_arguments: true };
    let input = FnSignature {
        name: "f".to_string(),
        params: vec![
            ref_param("c", vec![generic]),
            Param { pattern: "n".to_string(), ty: ParamType::Other("i64".to_string()) },
        ],
    };
    let output = derive_tx_variant(&input);
    assert_eq!(output.name, "f_tx");
    assert_eq!(output.params, input.params);
}

#[test]
fn function_without_parameters_is_renamed() {
    let input = FnSignature { name: "g".to_string(), params: vec![] };
    let output = derive_tx_variant(&input);
    assert_eq!(output, FnSignature { name: "g_tx".to_string(), params: vec![] });
}
