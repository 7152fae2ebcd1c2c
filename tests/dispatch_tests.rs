use ledger_node::dispatch::{handle_rpc, Handled, INTERNAL_ERROR, INVALID_PARAMS, METHOD_NOT_FOUND};
use ledger_node::ledger::Ledger;
use ledger_node::rpc::{make_error, Param, RpcReply, RpcRequest};
use serde_json::Value;

fn request(method: &str, params: &[(&str, &str)], id: Value) -> RpcRequest {
    RpcRequest {
        jsonrpc: "2.0".to_string(),
        method: method.to_string(),
        params: Some(
            params
                .iter()
                .map(|(k, v)| Param { key: k.to_string(), text: Some(v.to_string()) })
                .collect(),
        ),
        id,
    }
}

fn result_of(h: &Handled) -> &str {
    match &h.reply {
        RpcReply::Success(r) => &r.result,
        RpcReply::Failure(e) => panic!("unexpected error {} {}", e.error.code, e.error.message),
    }
}

fn error_of(h: &Handled) -> (i32, &str) {
    match &h.reply {
        RpcReply::Success(r) => panic!("unexpected success {}", r.result),
        RpcReply::Failure(e) => (e.error.code, e.error.message.as_str()),
    }
}

fn balance(ledger: &mut Ledger, id: &str) -> String {
    let h = handle_rpc(request("balance", &[("id", id)], Value::from(9)), ledger);
    assert!(!h.needs_confirmation);
    result_of(&h).to_string()
}

#[test]
fn alice_pays_bob() {
    let mut ledger = Ledger::new();
    let h = handle_rpc(request("create_account", &[("id", "alice"), ("balance", "100")], Value::from(1)), &mut ledger);
    assert_eq!(result_of(&h), "Account created: id=alice, balance=100");
    assert!(h.needs_confirmation);
    let h = handle_rpc(request("create_account", &[("id", "bob"), ("balance", "0")], Value::from(2)), &mut ledger);
    assert!(h.needs_confirmation);
    let h = handle_rpc(
        request("transfer", &[("from", "alice"), ("to", "bob"), ("amount", "50")], Value::from(3)),
        &mut ledger,
    );
    assert_eq!(result_of(&h), "Transfer successful: alice to bob amount 50");
    assert!(h.needs_confirmation);
    assert_eq!(balance(&mut ledger, "alice"), "50");
    assert_eq!(balance(&mut ledger, "bob"), "50");
}

#[test]
fn transfer_from_carol_fails() {
    let mut ledger = Ledger::new();
    handle_rpc(request("create_account", &[("id", "bob"), ("balance", "0")], Value::from(1)), &mut ledger);
    let h = handle_rpc(
        request("transfer", &[("from", "carol"), ("to", "bob"), ("amount", "5")], Value::from(2)),
        &mut ledger,
    );
    assert_eq!(error_of(&h), (INTERNAL_ERROR, "Account from does not exist"));
    assert_eq!(INTERNAL_ERROR, -32603);
    assert!(!h.needs_confirmation);
}

#[test]
fn unknown_method_is_not_found() {
    let mut ledger = Ledger::new();
    let h = handle_rpc(request("foo", &[], Value::from(7)), &mut ledger);
    assert_eq!(error_of(&h), (METHOD_NOT_FOUND, "Method not found"));
    assert_eq!(METHOD_NOT_FOUND, -32601);
    match &h.reply {
        RpcReply::Failure(e) => {
            assert_eq!(e.id, Value::from(7));
            assert_eq!(e.jsonrpc, "2.0");
            assert!(e.error.data.is_none());
        }
        RpcReply::Success(_) => panic!("expected an error"),
    }
}

#[test]
fn non_numeric_amount_is_invalid() {
    let mut ledger = Ledger::new();
    handle_rpc(request("create_account", &[("id", "a"), ("balance", "10")], Value::from(1)), &mut ledger);
    handle_rpc(request("create_account", &[("id", "b"), ("balance", "10")], Value::from(2)), &mut ledger);
    let h = handle_rpc(
        request("transfer", &[("from", "a"), ("to", "b"), ("amount", "abc")], Value::from(3)),
        &mut ledger,
    );
    assert_eq!(error_of(&h), (INVALID_PARAMS, "Invalid amount"));
    assert_eq!(INVALID_PARAMS, -32602);
    assert_eq!(balance(&mut ledger, "a"), "10");
}

#[test]
fn insufficient_funds_is_a_rule_error() {
    let mut ledger = Ledger::new();
    handle_rpc(request("create_account", &[("id", "a"), ("balance", "10")], Value::from(1)), &mut ledger);
    handle_rpc(request("create_account", &[("id", "b"), ("balance", "3")], Value::from(2)), &mut ledger);
    let h = handle_rpc(
        request("transfer", &[("from", "a"), ("to", "b"), ("amount", "11")], Value::from(3)),
        &mut ledger,
    );
    assert_eq!(error_of(&h), (INTERNAL_ERROR, "Insufficient funds"));
    assert_eq!(balance(&mut ledger, "a"), "10");
    assert_eq!(balance(&mut ledger, "b"), "3");
}

#[test]
fn missing_receiver_is_a_rule_error() {
    let mut ledger = Ledger::new();
    handle_rpc(request("create_account", &[("id", "a"), ("balance", "10")], Value::from(1)), &mut ledger);
    let h = handle_rpc(
        request("transfer", &[("from", "a"), ("to", "z"), ("amount", "1")], Value::from(3)),
        &mut ledger,
    );
    assert_eq!(error_of(&h), (INTERNAL_ERROR, "Account to does not exist"));
}

#[test]
fn receiver_overflow_is_invalid() {
    let mut ledger = Ledger::new();
    handle_rpc(request("create_account", &[("id", "a"), ("balance", "10")], Value::from(1)), &mut ledger);
    handle_rpc(
        request("create_account", &[("id", "b"), ("balance", "18446744073709551615")], Value::from(2)),
        &mut ledger,
    );
    let h = handle_rpc(
        request("transfer", &[("from", "a"), ("to", "b"), ("amount", "1")], Value::from(3)),
        &mut ledger,
    );
    assert_eq!(error_of(&h), (INVALID_PARAMS, "Invalid balance for account to"));
    assert_eq!(balance(&mut ledger, "a"), "10");
}

#[test]
fn unknown_account_balance_is_zero() {
    let mut ledger = Ledger::new();
    assert_eq!(balance(&mut ledger, "ghost"), "0");
}

#[test]
fn create_with_bad_balance_is_invalid() {
    let mut ledger = Ledger::new();
    let h = handle_rpc(request("create_account", &[("id", "a"), ("balance", "ten")], Value::from(1)), &mut ledger);
    assert_eq!(error_of(&h), (INVALID_PARAMS, "Invalid balance"));
    assert!(!h.needs_confirmation);
    assert_eq!(balance(&mut ledger, "a"), "0");
}

#[test]
fn create_overwrites_through_rpc() {
    let mut ledger = Ledger::new();
    handle_rpc(request("create_account", &[("id", "a"), ("balance", "10")], Value::from(1)), &mut ledger);
    handle_rpc(request("create_account", &[("id", "a"), ("balance", "4")], Value::from(2)), &mut ledger);
    assert_eq!(balance(&mut ledger, "a"), "4");
}

#[test]
fn missing_params_are_invalid() {
    let mut ledger = Ledger::new();
    for method in ["create_account", "balance", "transfer"] {
        let req = RpcRequest {
            jsonrpc: "2.0".to_string(),
            method: method.to_string(),
            params: None,
            id: Value::Null,
        };
        let h = handle_rpc(req, &mut ledger);
        assert_eq!(error_of(&h), (INVALID_PARAMS, "Invalid params"));
    }
    let h = handle_rpc(request("transfer", &[("from", "a"), ("to", "b")], Value::from(1)), &mut ledger);
    assert_eq!(error_of(&h), (INVALID_PARAMS, "Invalid params"));
}

#[test]
fn non_string_param_is_invalid() {
    let mut ledger = Ledger::new();
    let req = RpcRequest {
        jsonrpc: "2.0".to_string(),
        method: "balance".to_string(),
        params: Some(vec![Param { key: "id".to_string(), text: None }]),
        id: Value::from("x"),
    };
    let h = handle_rpc(req, &mut ledger);
    assert_eq!(error_of(&h), (INVALID_PARAMS, "Invalid params"));
}

#[test]
fn success_echoes_request_id() {
    let mut ledger = Ledger::new();
    let h = handle_rpc(request("balance", &[("id", "a")], Value::from("corr-1")), &mut ledger);
    match &h.reply {
        RpcReply::Success(r) => {
            assert_eq!(r.id, Value::from("corr-1"));
            assert_eq!(r.jsonrpc, "2.0");
        }
        RpcReply::Failure(_) => panic!("expected success"),
    }
}

#[test]
fn make_error_fills_envelope() {
    let e = make_error(-32602, "Invalid params".to_string(), Value::from(5));
    assert_eq!(e.jsonrpc, "2.0");
    assert_eq!(e.error.code, -32602);
    assert_eq!(e.error.message, "Invalid params");
    assert!(e.error.data.is_none());
    assert_eq!(e.id, Value::from(5));
}
