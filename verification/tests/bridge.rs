use motoko_bridge::bridge::Bridge;
use motoko_bridge::errors::BridgeError;
use motoko_bridge::marshal::HostValue;
use motoko_bridge::settings::Settings;

const COUNTER_SOURCE: &str = "actor { var x = 0; public func increment() : async Nat { x := x + 1; x } }";

fn ready_bridge() -> Bridge {
    let mut b = Bridge::empty();
    b.update_settings(Settings { verbosity: 2 });
    b
}

fn expect_text(r: Result<HostValue, BridgeError>) -> String {
    match r {
        Ok(HostValue::Text(s)) => s,
        other => panic!("expected a text host value, got {:?}", other),
    }
}

#[test]
fn diagnostics_before_initialization_fail_fast() {
    let b = Bridge::empty();
    assert!(matches!(b.diagnostic_emits(2), Err(BridgeError::UninitializedSettings)));
}

#[test]
fn diagnostics_emit_iff_verbosity_meets_threshold() {
    let mut b = Bridge::empty();
    b.update_settings(Settings { verbosity: 2 });
    assert_eq!(b.diagnostic_emits(0).unwrap(), true);
    assert_eq!(b.diagnostic_emits(2).unwrap(), true);
    assert_eq!(b.diagnostic_emits(3).unwrap(), false);
    b.update_settings(Settings { verbosity: 0 });
    assert_eq!(b.diagnostic_emits(0).unwrap(), true);
    assert_eq!(b.diagnostic_emits(1).unwrap(), false);
}

#[test]
fn entry_points_before_initialization_fail_fast() {
    let mut b = Bridge::empty();
    assert!(matches!(
        b.update_canister("a.mo".to_string(), "a".to_string(), COUNTER_SOURCE.to_string()),
        Err(BridgeError::UninitializedSettings)
    ));
    assert!(matches!(
        b.call_canister("a".to_string(), "increment".to_string(), vec![]),
        Err(BridgeError::UninitializedSettings)
    ));
    assert!(matches!(b.remove_canister("a".to_string()), Err(BridgeError::UninitializedSettings)));
}

#[test]
fn counter_scenario_commits_mutations_across_calls() {
    let mut b = ready_bridge();
    b.update_canister("a.mo".to_string(), "a".to_string(), COUNTER_SOURCE.to_string())
        .expect("the counter source compiles and installs");
    let first = b.call_canister("a".to_string(), "increment".to_string(), vec![]);
    assert_eq!(expect_text(first), "1");
    let second = b.call_canister("a".to_string(), "increment".to_string(), vec![]);
    assert_eq!(expect_text(second), "2");
}

#[test]
fn created_actor_answers_an_existing_method() {
    let mut b = ready_bridge();
    b.update_canister("a.mo".to_string(), "a".to_string(), COUNTER_SOURCE.to_string())
        .expect("the counter source compiles and installs");
    assert!(b.call_canister("a".to_string(), "increment".to_string(), vec![]).is_ok());
}

#[test]
fn syntax_error_installs_nothing() {
    let mut b = ready_bridge();
    let r = b.update_canister("a.mo".to_string(), "a".to_string(), "actor { var x = ".to_string());
    assert!(matches!(r, Err(BridgeError::CompileOrInstall(_))));
    let call = b.call_canister("a".to_string(), "anyMethod".to_string(), vec![]);
    assert!(matches!(call, Err(BridgeError::Call(_))));
}

#[test]
fn failed_upgrade_keeps_the_previous_actor() {
    let mut b = ready_bridge();
    b.update_canister("a.mo".to_string(), "a".to_string(), COUNTER_SOURCE.to_string())
        .expect("the counter source compiles and installs");
    assert_eq!(expect_text(b.call_canister("a".to_string(), "increment".to_string(), vec![])), "1");
    let r = b.update_canister("a.mo".to_string(), "a".to_string(), "actor { nonsense ".to_string());
    assert!(matches!(r, Err(BridgeError::CompileOrInstall(_))));
    let after = b.call_canister("a".to_string(), "increment".to_string(), vec![]);
    assert_eq!(expect_text(after), "2");
}

#[test]
fn calling_a_missing_method_leaves_the_counter_untouched() {
    let mut b = ready_bridge();
    b.update_canister("a.mo".to_string(), "a".to_string(), COUNTER_SOURCE.to_string())
        .expect("the counter source compiles and installs");
    assert_eq!(expect_text(b.call_canister("a".to_string(), "increment".to_string(), vec![])), "1");
    let missing = b.call_canister("a".to_string(), "absent".to_string(), vec![]);
    assert!(matches!(missing, Err(BridgeError::Call(_))));
    let after = b.call_canister("a".to_string(), "increment".to_string(), vec![]);
    assert_eq!(expect_text(after), "2");
}

#[test]
fn removing_an_absent_actor_reports_false() {
    let mut b = ready_bridge();
    assert_eq!(b.remove_canister("ghost".to_string()).unwrap(), false);
}

#[test]
fn removing_a_live_actor_reports_true_and_forgets_it() {
    let mut b = ready_bridge();
    b.update_canister("a.mo".to_string(), "a".to_string(), COUNTER_SOURCE.to_string())
        .expect("the counter source compiles and installs");
    assert_eq!(b.remove_canister("a".to_string()).unwrap(), true);
    assert_eq!(b.remove_canister("a".to_string()).unwrap(), false);
    let call = b.call_canister("a".to_string(), "increment".to_string(), vec![]);
    assert!(matches!(call, Err(BridgeError::Call(_))));
}

#[test]
fn a_thirty_digit_nat_crosses_the_vm_exactly() {
    let mut b = ready_bridge();
    let source =
        "actor { public func big() : async Nat { 123456789012345678901234567890 } }";
    b.update_canister("big.mo".to_string(), "big".to_string(), source.to_string())
        .expect("the big-number source compiles and installs");
    let r = b.call_canister("big".to_string(), "big".to_string(), vec![]);
    assert_eq!(expect_text(r), "123456789012345678901234567890");
}

#[test]
fn an_unrepresentable_result_is_an_unsupported_value_error() {
    let mut b = ready_bridge();
    let source = "actor { public func pair() : async (Nat, Nat) { (1, 2) } }";
    b.update_canister("p.mo".to_string(), "p".to_string(), source.to_string())
        .expect("the pair source compiles and installs");
    let r = b.call_canister("p".to_string(), "pair".to_string(), vec![]);
    assert!(matches!(r, Err(BridgeError::UnsupportedValue(_))));
}

#[test]
fn error_messages_carry_their_diagnostics() {
    let e = BridgeError::CompileOrInstall("it broke".to_string());
    assert_eq!(e.message(), "it broke");
    assert_eq!(BridgeError::UninitializedSettings.message(), "Uninitialized settings");
}

#[test]
fn each_supported_variant_crosses_the_vm() {
    let mut b = ready_bridge();
    let source = "actor { \
        public func give_bool() : async Bool { true }; \
        public func give_char() : async Char { 'z' }; \
        public func give_text() : async Text { \"hi\" }; \
        public func give_null() : async Null { null }; \
        public func give_unit() : async () { }; \
        public func give_float() : async Float { 1.5 }; \
        public func give_opt() : async ?Nat { ?3 } \
    }";
    b.update_canister("v.mo".to_string(), "v".to_string(), source.to_string())
        .expect("the variants source compiles and installs");
    let call = |b: &mut motoko_bridge::bridge::Bridge, m: &str| {
        b.call_canister("v".to_string(), m.to_string(), vec![]).unwrap()
    };
    assert!(matches!(call(&mut b, "give_bool"), HostValue::Bool(true)));
    assert_eq!(expect_text(Ok(call(&mut b, "give_char"))), "z");
    assert_eq!(expect_text(Ok(call(&mut b, "give_text"))), "hi");
    assert!(matches!(call(&mut b, "give_null"), HostValue::Null));
    assert!(matches!(call(&mut b, "give_unit"), HostValue::Undefined));
    match call(&mut b, "give_float") {
        HostValue::NumberBits(bits) => assert_eq!(bits, 1.5f64.to_bits()),
        other => panic!("expected a number host value, got {:?}", other),
    }
    assert_eq!(expect_text(Ok(call(&mut b, "give_opt"))), "3");
}
