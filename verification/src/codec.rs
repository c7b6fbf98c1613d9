//! Trusted calls that render and parse: hex (the `hex` crate), base64 and
//! JSON (`cosmwasm_std`).
use crate::msg::{AckResponse, AckResponseV, Attribute, Event};
use crate::proto::utf8;
use crate::text::{base64, hex_decode};
use vstd::prelude::*;

verus! {

/// `hex::decode` on the string's bytes: refused for an odd length or a
/// byte that is no hex digit (either case accepted), else the decoded bytes.
#[verifier::external_body]
pub(crate) fn hex_decode_str(s: &str) -> (res: Option<Vec<u8>>)
    ensures
        match res {
            Some(v) => hex_decode(utf8(s@)) == Some(v@),
            None => hex_decode(utf8(s@)) is None,
        },
{
    hex::decode(s).ok()
}

/// `cosmwasm_std::Binary::to_base64`: standard base64 with padding.
#[verifier::external_body]
pub(crate) fn base64_encode(data: &[u8]) -> (res: String)
    ensures
        res@ == base64(data@),
{
    cosmwasm_std::Binary::from(data).to_base64()
}

/// The JSON that `cosmwasm_std::to_json_binary` writes for a
/// `CosmosMsg::Stargate` with this type url and body.
pub uninterp spec fn stargate_json(type_url: Seq<char>, value: Seq<u8>) -> Seq<u8>;

/// `cosmwasm_std::to_json_binary` of a `CosmosMsg::Stargate`: a message of
/// a string and a binary always serializes, and its bytes are
/// `stargate_json` of the type url and body.
#[verifier::external_body]
pub(crate) fn stargate_msg_json(type_url: &str, value: &[u8]) -> (res: Option<Vec<u8>>)
    ensures
        res is Some,
        res matches Some(v) ==> v@ == stargate_json(type_url@, value@),
{
    #[allow(deprecated)]
    let msg: cosmwasm_std::CosmosMsg = cosmwasm_std::CosmosMsg::Stargate {
        type_url: type_url.to_string(),
        value: cosmwasm_std::Binary::from(value),
    };
    cosmwasm_std::to_json_binary(&msg).ok().map(|b| b.to_vec())
}

/// What `cosmwasm_std::from_json::<Response>` reads from these bytes: the
/// response's attributes and events, or `None` where it refuses them.
pub uninterp spec fn response_of_json(json: Seq<u8>) -> Option<AckResponseV>;

/// `cosmwasm_std::from_json::<Response>`, keeping the attributes and the
/// events: the result is `response_of_json` of the bytes.
#[verifier::external_body]
pub(crate) fn parse_response_json(json: &[u8]) -> (res: Option<AckResponse>)
    ensures
        res.deep_view() == response_of_json(json@),
{
    let r: cosmwasm_std::Response = cosmwasm_std::from_json(json).ok()?;
    let attr = |a: cosmwasm_std::Attribute| Attribute { key: a.key, value: a.value };
    Some(AckResponse {
        attributes: r.attributes.into_iter().map(attr).collect(),
        events: r.events.into_iter().map(|e| Event {
            ty: e.ty,
            attributes: e.attributes.into_iter().map(attr).collect(),
        }).collect(),
    })
}

} // verus!
