use vstd::prelude::*;

verus! {

/// A JSON value that the node carries through untouched: the caller's
/// correlation identifier and the optional error detail.
#[verifier::external_type_specification]
#[verifier::external_body]
pub struct ExJsonValue(serde_json::Value);

/// One member of a request's parameter object: its key and, where its value
/// is a JSON string, that string.
pub struct Param {
    pub key: String,
    pub text: Option<String>,
}

/// A request envelope. `params` holds the members of the parameter object,
/// or is `None` where the parameters are absent or not an object.
pub struct RpcRequest {
    pub jsonrpc: String,
    pub method: String,
    pub params: Option<Vec<Param>>,
    pub id: serde_json::Value,
}

/// A success envelope: the human-readable result and the caller's
/// identifier.
pub struct RpcResponse {
    pub jsonrpc: String,
    pub result: String,
    pub id: serde_json::Value,
}

/// The error member of an error envelope.
pub struct ErrorObject {
    pub code: i32,
    pub message: String,
    pub data: Option<serde_json::Value>,
}

/// An error envelope.
pub struct RpcError {
    pub jsonrpc: String,
    pub error: ErrorObject,
    pub id: serde_json::Value,
}

/// The envelope that answers a request.
pub enum RpcReply {
    Success(RpcResponse),
    Failure(RpcError),
}

/// The protocol version that every envelope carries.
pub open spec fn protocol_version() -> Seq<char> {
    "2.0"@
}

/// The text of the parameter `key`: that of the first member with this key,
/// if its value is a string; none if there is no such member or its value
/// is not a string.
pub open spec fn param_text(params: Seq<Param>, key: Seq<char>) -> Option<Seq<char>>
    decreases params.len(),
{
    if params.len() == 0 {
        None
    } else if params[0].key@ == key {
        match params[0].text {
            Some(t) => Some(t@),
            None => None,
        }
    } else {
        param_text(params.drop_first(), key)
    }
}

/// What a reply says, without its identifier: the result text, or the error
/// code and message.
pub open spec fn reply_answer(reply: RpcReply) -> Result<Seq<char>, (i32, Seq<char>)> {
    match reply {
        RpcReply::Success(r) => Ok(r.result@),
        RpcReply::Failure(e) => Err((e.error.code, e.error.message@)),
    }
}

pub open spec fn reply_id(reply: RpcReply) -> serde_json::Value {
    match reply {
        RpcReply::Success(r) => r.id,
        RpcReply::Failure(e) => e.id,
    }
}

/// The envelope is well formed: it names the protocol version, and an
/// error carries no detail.
pub open spec fn reply_well_formed(reply: RpcReply) -> bool {
    match reply {
        RpcReply::Success(r) => r.jsonrpc@ == protocol_version(),
        RpcReply::Failure(e) => e.jsonrpc@ == protocol_version() && e.error.data is None,
    }
}

/// The text of the parameter `key`, found as `param_text` says.
pub fn find_param(params: &Vec<Param>, key: &str) -> (r: Option<String>)
    ensures
        match r {
            Some(t) => param_text(params@, key@) == Some(t@),
            None => param_text(params@, key@) is None,
        },
{
    let wanted = String::from_str(key);
    let mut i: usize = 0;
    assert(params@.subrange(0, params.len() as int) =~= params@);
    while i < params.len()
        invariant
            i <= params.len(),
            wanted@ == key@,
            param_text(params@, key@) == param_text(params@.subrange(i as int, params.len() as int), key@),
        decreases params.len() - i,
    {
        let ghost rest = params@.subrange(i as int, params.len() as int);
        assert(rest.drop_first() =~= params@.subrange(i + 1, params.len() as int));
        assert(rest[0] == params@[i as int]);
        if params[i].key == wanted {
            return match &params[i].text {
                Some(t) => Some(t.clone()),
                None => None,
            };
        }
        i += 1;
    }
    None
}

/// An error envelope with the given code and message, echoing `id`.
pub fn make_error(code: i32, message: String, id: serde_json::Value) -> (e: RpcError)
    ensures
        e.jsonrpc@ == protocol_version(),
        e.error.code == code,
        e.error.message == message,
        e.error.data is None,
        e.id == id,
{
    RpcError {
        jsonrpc: String::from_str("2.0"),
        error: ErrorObject { code, message, data: None },
        id,
    }
}

} // verus!
