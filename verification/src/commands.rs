//! Upload messages for the wasm byte code that a headstash deployment
//! stores on Secret Network.
use crate::msg::{IcaMsg, IcaMsgV, StdError};
use crate::proto::{store_code_body, store_code_value};
use crate::text::str_equal;
use vstd::prelude::*;

verus! {

/// The type url of Secret Network's `MsgStoreCode`.
pub open spec fn store_code_type_url() -> Seq<char> {
    "/secret.compute.v1beta1.MsgStoreCode"@
}

/// The message that stores `wasm` on Secret Network on behalf of `sender`.
pub open spec fn store_code_msg(sender: Seq<char>, wasm: Seq<u8>) -> IcaMsgV {
    IcaMsgV::Stargate { type_url: store_code_type_url(), value: store_code_body(sender, wasm) }
}

/// Builds the `MsgStoreCode` that uploads `wasm` on behalf of `sender`.
pub fn store_code(sender: &str, wasm: &[u8]) -> (res: IcaMsg)
    ensures
        res.deep_view() == store_code_msg(sender@, wasm@),
{
    IcaMsg::Stargate {
        type_url: String::from_str("/secret.compute.v1beta1.MsgStoreCode"),
        value: store_code_value(sender, wasm),
    }
}

/// The contracts whose byte code the deployment ships with.
#[derive(Debug)]
pub enum EmbeddedWasm {
    CwHeadstash,
    Snip120u,
    Circuitboard,
}

/// The byte code that the deployment ships with, one blob per contract.
#[derive(Debug)]
pub struct WasmBlobs {
    pub cw_headstash: Vec<u8>,
    pub snip120u: Vec<u8>,
    pub circuitboard: Vec<u8>,
}

/// The contract that an upload names: `cw-headstash`, `snip120u` or
/// `scrt-headstash-circuitboard`.
pub open spec fn embedded_wasm_of(name: Seq<char>) -> Option<EmbeddedWasm> {
    if name == "cw-headstash"@ {
        Some(EmbeddedWasm::CwHeadstash)
    } else if name == "snip120u"@ {
        Some(EmbeddedWasm::Snip120u)
    } else if name == "scrt-headstash-circuitboard"@ {
        Some(EmbeddedWasm::Circuitboard)
    } else {
        None
    }
}

impl WasmBlobs {
    pub open spec fn blob(&self, w: EmbeddedWasm) -> Seq<u8> {
        match w {
            EmbeddedWasm::CwHeadstash => self.cw_headstash@,
            EmbeddedWasm::Snip120u => self.snip120u@,
            EmbeddedWasm::Circuitboard => self.circuitboard@,
        }
    }
}

/// The upload of the shipped contract named `wasm`, on behalf of `sender`;
/// an unknown name is refused with "bad contract upload".
pub fn upload_contract_msg(sender: &str, wasm: &str, blobs: &WasmBlobs) -> (res: Result<
    IcaMsg,
    StdError,
>)
    ensures
        match embedded_wasm_of(wasm@) {
            Some(w) => res matches Ok(m) && m.deep_view() == store_code_msg(sender@, blobs.blob(w)),
            None => res matches Err(StdError::GenericErr(e)) && e@ == "bad contract upload"@,
        },
{
    let bin: &Vec<u8> = if str_equal(wasm, "cw-headstash") {
        &blobs.cw_headstash
    } else if str_equal(wasm, "snip120u") {
        &blobs.snip120u
    } else if str_equal(wasm, "scrt-headstash-circuitboard") {
        &blobs.circuitboard
    } else {
        return Err(StdError::GenericErr(String::from_str("bad contract upload")));
    };
    Ok(store_code(sender, bin.as_slice()))
}

} // verus!
