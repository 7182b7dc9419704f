use motoko_bridge::errors::BridgeError;
use motoko_bridge::idl::candid_to_js;

const SERVICE: &str = "service : { ping : (nat) -> (nat) }";

#[test]
fn a_valid_interface_compiles_to_binding_text() {
    let out = candid_to_js(SERVICE.to_string()).expect("the interface compiles");
    assert!(!out.is_empty());
    assert_ne!(out, SERVICE);
    assert!(out.contains("ping"));
}

#[test]
fn identical_source_yields_identical_binding_text() {
    let a = candid_to_js(SERVICE.to_string()).expect("the interface compiles");
    let b = candid_to_js(SERVICE.to_string()).expect("the interface compiles");
    assert_eq!(a, b);
}

#[test]
fn a_parse_error_is_an_interface_description_error() {
    let r = candid_to_js("service : {".to_string());
    assert!(matches!(r, Err(BridgeError::InterfaceDescription(_))));
}

#[test]
fn a_type_error_is_an_interface_description_error() {
    let r = candid_to_js("service : { f : (undefined_name) -> () }".to_string());
    assert!(matches!(r, Err(BridgeError::InterfaceDescription(_))));
}
