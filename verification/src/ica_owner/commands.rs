//! Upload of byte code that the caller supplies.
use crate::commands::{store_code, store_code_msg};
use crate::msg::{IcaMsg, StdError};
use vstd::prelude::*;

verus! {

/// Defines the msg to upload the given wasm byte code on behalf of `sender`.
pub fn upload_contract_msg(sender: &str, wasm: Vec<u8>) -> (res: Result<IcaMsg, StdError>)
    ensures
        res matches Ok(m) && m.deep_view() == store_code_msg(sender@, wasm@),
{
    Ok(store_code(sender, wasm.as_slice()))
}

} // verus!
