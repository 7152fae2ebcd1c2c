use vstd::prelude::*;
use crate::decimal::{decimal, decimal_string, parse_u64, parsed_u64};
use crate::ledger::{
    after_transfer, balance_of, created_message, transfer_message, transfer_outcome, Ledger,
    LedgerError,
};
use crate::rpc::{
    find_param, make_error, param_text, protocol_version, reply_answer, reply_id,
    reply_well_formed, Param, RpcReply, RpcRequest, RpcResponse,
};

verus! {

/// The method is none of those the node serves.
pub const METHOD_NOT_FOUND: i32 = -32601;

/// The parameters are missing or malformed, or a number in them is not one.
pub const INVALID_PARAMS: i32 = -32602;

/// The request broke a rule of the ledger.
pub const INTERNAL_ERROR: i32 = -32603;

/// What a reply says: the result text, or an error code and message.
pub type Answer = Result<Seq<char>, (i32, Seq<char>)>;

pub open spec fn error_code(e: LedgerError) -> i32 {
    match e {
        LedgerError::InvalidAmount => INVALID_PARAMS,
        LedgerError::BalanceOverflow => INVALID_PARAMS,
        _ => INTERNAL_ERROR,
    }
}

pub open spec fn error_message(e: LedgerError) -> Seq<char> {
    match e {
        LedgerError::InvalidAmount => "Invalid amount"@,
        LedgerError::FromNotFound => "Account from does not exist"@,
        LedgerError::ToNotFound => "Account to does not exist"@,
        LedgerError::InsufficientFunds => "Insufficient funds"@,
        LedgerError::BalanceOverflow => "Invalid balance for account to"@,
    }
}

pub open spec fn invalid_params() -> Answer {
    Err((INVALID_PARAMS, "Invalid params"@))
}

/// The methods whose success changes the ledger and so waits for the next
/// block boundary.
pub open spec fn is_mutating(method: Seq<char>) -> bool {
    method == "create_account"@ || method == "transfer"@
}

pub open spec fn params_view(params: Option<Vec<Param>>) -> Option<Seq<Param>> {
    match params {
        Some(p) => Some(p@),
        None => None,
    }
}

/// `create_account` with `id` and `balance`: the balance must be a `u64`.
pub open spec fn create_answer(params: Option<Seq<Param>>) -> Answer {
    match params {
        Some(ps) => match (param_text(ps, "id"@), param_text(ps, "balance"@)) {
            (Some(id), Some(b)) => match parsed_u64(b) {
                Some(v) => Ok(created_message(id, v)),
                None => Err((INVALID_PARAMS, "Invalid balance"@)),
            },
            _ => invalid_params(),
        },
        None => invalid_params(),
    }
}

/// `balance` with `id`: the balance in decimal, zero for an unknown account.
pub open spec fn balance_answer(params: Option<Seq<Param>>, book: Map<Seq<char>, u64>) -> Answer {
    match params {
        Some(ps) => match param_text(ps, "id"@) {
            Some(id) => Ok(decimal(balance_of(book, id) as nat)),
            None => invalid_params(),
        },
        None => invalid_params(),
    }
}

/// `transfer` with `from`, `to` and `amount`.
pub open spec fn transfer_answer(params: Option<Seq<Param>>, book: Map<Seq<char>, u64>) -> Answer {
    match params {
        Some(ps) => match (param_text(ps, "from"@), param_text(ps, "to"@), param_text(ps, "amount"@)) {
            (Some(from), Some(to), Some(amount)) => match transfer_outcome(book, from, to, amount) {
                Ok(_) => Ok(transfer_message(from, to, amount)),
                Err(e) => Err((error_code(e), error_message(e))),
            },
            _ => invalid_params(),
        },
        None => invalid_params(),
    }
}

/// What the node answers to `method` with `params` when its accounts are
/// `book`.
pub open spec fn expected_answer(
    method: Seq<char>,
    params: Option<Seq<Param>>,
    book: Map<Seq<char>, u64>,
) -> Answer {
    if method == "create_account"@ {
        create_answer(params)
    } else if method == "balance"@ {
        balance_answer(params, book)
    } else if method == "transfer"@ {
        transfer_answer(params, book)
    } else {
        Err((METHOD_NOT_FOUND, "Method not found"@))
    }
}

/// The accounts after the node has served `method` with `params`.
pub open spec fn expected_book(
    method: Seq<char>,
    params: Option<Seq<Param>>,
    book: Map<Seq<char>, u64>,
) -> Map<Seq<char>, u64> {
    match params {
        Some(ps) => if method == "create_account"@ {
            match (param_text(ps, "id"@), param_text(ps, "balance"@)) {
                (Some(id), Some(b)) => match parsed_u64(b) {
                    Some(v) => book.insert(id, v),
                    None => book,
                },
                _ => book,
            }
        } else if method == "transfer"@ {
            match (param_text(ps, "from"@), param_text(ps, "to"@), param_text(ps, "amount"@)) {
                (Some(from), Some(to), Some(amount)) => after_transfer(book, from, to, amount),
                _ => book,
            }
        } else {
            book
        },
        None => book,
    }
}

pub open spec fn answer_of(r: Result<String, (i32, String)>) -> Answer {
    match r {
        Ok(t) => Ok(t@),
        Err((code, message)) => Err((code, message@)),
    }
}

/// The reply to a request, and whether it must wait for the next block
/// boundary before it is released.
pub struct Handled {
    pub reply: RpcReply,
    pub needs_confirmation: bool,
}

fn error_of(e: LedgerError) -> (r: (i32, String))
    ensures
        r.0 == error_code(e),
        r.1@ == error_message(e),
{
    match e {
        LedgerError::InvalidAmount => (INVALID_PARAMS, String::from_str("Invalid amount")),
        LedgerError::FromNotFound => (INTERNAL_ERROR, String::from_str("Account from does not exist")),
        LedgerError::ToNotFound => (INTERNAL_ERROR, String::from_str("Account to does not exist")),
        LedgerError::InsufficientFunds => (INTERNAL_ERROR, String::from_str("Insufficient funds")),
        LedgerError::BalanceOverflow => (
            INVALID_PARAMS,
            String::from_str("Invalid balance for account to"),
        ),
    }
}

fn invalid_params_error() -> (r: Result<String, (i32, String)>)
    ensures
        answer_of(r) == invalid_params(),
{
    Err((INVALID_PARAMS, String::from_str("Invalid params")))
}

fn serve_create(params: &Option<Vec<Param>>, ledger: &mut Ledger) -> (r: Result<String, (i32, String)>)
    requires
        old(ledger).wf(),
    ensures
        final(ledger).wf(),
        answer_of(r) == create_answer(params_view(*params)),
        final(ledger)@ == expected_book("create_account"@, params_view(*params), old(ledger)@),
{
    let ps = match params {
        Some(ps) => ps,
        None => return invalid_params_error(),
    };
    let id = match find_param(ps, "id") {
        Some(id) => id,
        None => return invalid_params_error(),
    };
    let balance = match find_param(ps, "balance") {
        Some(b) => b,
        None => return invalid_params_error(),
    };
    match parse_u64(balance.as_str()) {
        Some(v) => Ok(ledger.create_or_overwrite(id.as_str(), v)),
        None => Err((INVALID_PARAMS, String::from_str("Invalid balance"))),
    }
}

fn serve_balance(params: &Option<Vec<Param>>, ledger: &Ledger) -> (r: Result<String, (i32, String)>)
    requires
        ledger.wf(),
    ensures
        answer_of(r) == balance_answer(params_view(*params), ledger@),
{
    let ps = match params {
        Some(ps) => ps,
        None => return invalid_params_error(),
    };
    match find_param(ps, "id") {
        Some(id) => Ok(decimal_string(ledger.get(id.as_str()))),
        None => invalid_params_error(),
    }
}

fn serve_transfer(params: &Option<Vec<Param>>, ledger: &mut Ledger) -> (r: Result<String, (i32, String)>)
    requires
        old(ledger).wf(),
    ensures
        final(ledger).wf(),
        answer_of(r) == transfer_answer(params_view(*params), old(ledger)@),
        final(ledger)@ == expected_book("transfer"@, params_view(*params), old(ledger)@),
{
    let ps = match params {
        Some(ps) => ps,
        None => return invalid_params_error(),
    };
    proof {
        reveal_strlit("create_account");
        reveal_strlit("transfer");
    }
    assert("transfer"@.len() != "create_account"@.len());
    let from = match find_param(ps, "from") {
        Some(t) => t,
        None => return invalid_params_error(),
    };
    let to = match find_param(ps, "to") {
        Some(t) => t,
        None => return invalid_params_error(),
    };
    let amount = match find_param(ps, "amount") {
        Some(t) => t,
        None => return invalid_params_error(),
    };
    match ledger.transfer(from.as_str(), to.as_str(), amount.as_str()) {
        Ok(msg) => Ok(msg),
        Err(e) => Err(error_of(e)),
    }
}

/// Serves one request against the ledger: routes it by method, applies it,
/// and builds the reply, which echoes the request's identifier. A change to
/// the ledger is made at once; `needs_confirmation` tells the caller to hold
/// the reply until the next block boundary.
pub fn handle_rpc(req: RpcRequest, ledger: &mut Ledger) -> (h: Handled)
    requires
        old(ledger).wf(),
    ensures
        final(ledger).wf(),
        reply_well_formed(h.reply),
        reply_id(h.reply) == req.id,
        reply_answer(h.reply) == expected_answer(req.method@, params_view(req.params), old(ledger)@),
        final(ledger)@ == expected_book(req.method@, params_view(req.params), old(ledger)@),
        h.needs_confirmation == (is_mutating(req.method@) && expected_answer(
            req.method@,
            params_view(req.params),
            old(ledger)@,
        ) is Ok),
{
    proof {
        reveal_strlit("create_account");
        reveal_strlit("balance");
        reveal_strlit("transfer");
    }
    assert("balance"@.len() != "create_account"@.len());
    assert("balance"@.len() != "transfer"@.len());
    let mutating: bool;
    let outcome = if req.method == String::from_str("create_account") {
        mutating = true;
        serve_create(&req.params, ledger)
    } else if req.method == String::from_str("balance") {
        mutating = false;
        serve_balance(&req.params, ledger)
    } else if req.method == String::from_str("transfer") {
        mutating = true;
        serve_transfer(&req.params, ledger)
    } else {
        mutating = false;
        Err((METHOD_NOT_FOUND, String::from_str("Method not found")))
    };
    match outcome {
        Ok(result) => Handled {
            reply: RpcReply::Success(
                RpcResponse { jsonrpc: String::from_str("2.0"), result, id: req.id },
            ),
            needs_confirmation: mutating,
        },
        Err((code, message)) => Handled {
            reply: RpcReply::Failure(make_error(code, message, req.id)),
            needs_confirmation: false,
        },
    }
}

} // verus!
