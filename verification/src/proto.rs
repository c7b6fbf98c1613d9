//! Protobuf encoding through `anybuf`, and the Secret Network / Cosmos SDK
//! messages that the contracts frame with it.
use anybuf::Anybuf;
use crate::text::u128_to_decimal;
use crate::msg::{Coin, CoinV};
use crate::text::decimal;
use vstd::prelude::*;
use vstd::string::*;

verus! {

/// Protobuf's unsigned varint: seven bits per byte, least significant group
/// first, the top bit set on every byte but the last.
pub open spec fn varint(n: nat) -> Seq<u8>
    decreases n,
{
    if n < 128 {
        seq![n as u8]
    } else {
        seq![(n % 128 + 128) as u8] + varint(n / 128)
    }
}

/// A length-delimited field (wire type 2): tag, length, payload.
pub open spec fn len_record(field: nat, data: Seq<u8>) -> Seq<u8> {
    varint(field * 8 + 2) + varint(data.len()) + data
}

/// A `bytes`/`string`/message field as `anybuf` writes it: nothing at all
/// when the payload is empty (the proto3 default), else a length-delimited
/// record.
pub open spec fn len_field(field: nat, data: Seq<u8>) -> Seq<u8> {
    if data.len() == 0 {
        Seq::empty()
    } else {
        len_record(field, data)
    }
}

/// A `uint64` field: nothing when the value is 0, else tag (wire type 0)
/// and the varint of the value.
pub open spec fn uint64_field(field: nat, value: nat) -> Seq<u8> {
    if value == 0 {
        Seq::empty()
    } else {
        varint(field * 8) + varint(value)
    }
}

/// The UTF-8 bytes of a string.
pub open spec fn utf8(s: Seq<char>) -> Seq<u8> {
    vstd::utf8::encode_utf8(s)
}

/// A valid protobuf field number.
pub open spec fn valid_field(field: u32) -> bool {
    1 <= field < 0x2000_0000
}

#[verifier::external_type_specification]
#[verifier::external_body]
pub struct ExAnybuf(Anybuf);

/// The bytes that an `anybuf::Anybuf` encoder holds so far.
pub uninterp spec fn anybuf_bytes(buf: Anybuf) -> Seq<u8>;

/// `Anybuf::new`: an encoder that holds no bytes.
#[verifier::external_body]
fn pb_new() -> (res: Anybuf)
    ensures
        anybuf_bytes(res) == Seq::<u8>::empty(),
{
    Anybuf::new()
}

/// `Anybuf::append_string`: appends the string's UTF-8 bytes as a
/// length-delimited field, or nothing when the string is empty.
#[verifier::external_body]
fn pb_string(buf: Anybuf, field: u32, data: &str) -> (res: Anybuf)
    requires
        valid_field(field),
    ensures
        anybuf_bytes(res) == anybuf_bytes(buf) + len_field(field as nat, utf8(data@)),
{
    buf.append_string(field, data)
}

/// `Anybuf::append_bytes`: appends the bytes as a length-delimited field, or
/// nothing when they are empty.
#[verifier::external_body]
fn pb_bytes(buf: Anybuf, field: u32, data: &[u8]) -> (res: Anybuf)
    requires
        valid_field(field),
    ensures
        anybuf_bytes(res) == anybuf_bytes(buf) + len_field(field as nat, data@),
{
    buf.append_bytes(field, data)
}

/// `Anybuf::append_uint64`: appends a varint field, or nothing for 0.
#[verifier::external_body]
fn pb_uint64(buf: Anybuf, field: u32, value: u64) -> (res: Anybuf)
    requires
        valid_field(field),
    ensures
        anybuf_bytes(res) == anybuf_bytes(buf) + uint64_field(field as nat, value as nat),
{
    buf.append_uint64(field, value)
}

/// `Anybuf::append_message`: appends the nested encoder's bytes as a
/// length-delimited field, or nothing when it holds no bytes.
#[verifier::external_body]
fn pb_message(buf: Anybuf, field: u32, msg: &Anybuf) -> (res: Anybuf)
    requires
        valid_field(field),
    ensures
        anybuf_bytes(res) == anybuf_bytes(buf) + len_field(field as nat, anybuf_bytes(*msg)),
{
    buf.append_message(field, msg)
}

/// `Anybuf::append_repeated_message` with one message: appends its bytes as
/// a length-delimited record, also when they are empty.
#[verifier::external_body]
fn pb_repeated_message_one(buf: Anybuf, field: u32, msg: &Anybuf) -> (res: Anybuf)
    requires
        valid_field(field),
    ensures
        anybuf_bytes(res) == anybuf_bytes(buf) + len_record(field as nat, anybuf_bytes(*msg)),
{
    buf.append_repeated_message(field, &[msg])
}

/// `Anybuf::into_vec`: the bytes encoded so far.
#[verifier::external_body]
fn pb_into_vec(buf: Anybuf) -> (res: Vec<u8>)
    ensures
        res@ == anybuf_bytes(buf),
{
    buf.into_vec()
}

/// The body of `/secret.compute.v1beta1.MsgStoreCode`: sender (1), wasm
/// byte code (2).
pub open spec fn store_code_body(sender: Seq<char>, wasm: Seq<u8>) -> Seq<u8> {
    len_field(1, utf8(sender)) + len_field(2, wasm)
}

/// Encodes a `MsgStoreCode` body.
pub fn store_code_value(sender: &str, wasm: &[u8]) -> (res: Vec<u8>)
    ensures
        res@ == store_code_body(sender@, wasm@),
{
    let b = pb_new();
    let b = pb_string(b, 1, sender);
    let b = pb_bytes(b, 2, wasm);
    pb_into_vec(b)
}

/// The body of `/secret.compute.v1beta1.MsgInstantiateContract`: sender
/// (1), callback code hash (2), code id (3), label (4), init message (5),
/// code hash (8).
pub open spec fn instantiate_contract_body(
    sender: Seq<char>,
    code_hash: Seq<char>,
    code_id: u64,
    label: Seq<char>,
    init_msg: Seq<u8>,
) -> Seq<u8> {
    len_field(1, utf8(sender)) + len_field(2, utf8(code_hash)) + uint64_field(3, code_id as nat)
        + len_field(4, utf8(label)) + len_field(5, init_msg) + len_field(8, utf8(code_hash))
}

/// Encodes a `MsgInstantiateContract` body for Secret Network.
pub fn instantiate_contract_value(
    sender: &str,
    code_hash: &str,
    code_id: u64,
    label: &str,
    init_msg: &[u8],
) -> (res: Vec<u8>)
    ensures
        res@ == instantiate_contract_body(sender@, code_hash@, code_id, label@, init_msg@),
{
    let b = pb_new();
    let b = pb_string(b, 1, sender);
    let b = pb_string(b, 2, code_hash);
    let b = pb_uint64(b, 3, code_id);
    let b = pb_string(b, 4, label);
    let b = pb_bytes(b, 5, init_msg);
    let b = pb_string(b, 8, code_hash);
    pb_into_vec(b)
}

/// The body of `/secret.compute.v1beta1.MsgExecuteContract`: sender (1),
/// contract (2), message (3).
pub open spec fn execute_contract_body(sender: Seq<char>, contract: Seq<char>, msg: Seq<u8>) -> Seq<
    u8,
> {
    len_field(1, utf8(sender)) + len_field(2, utf8(contract)) + len_field(3, msg)
}

/// Encodes a `MsgExecuteContract` body for Secret Network.
pub fn execute_contract_value(sender: &str, contract: &str, msg: &[u8]) -> (res: Vec<u8>)
    ensures
        res@ == execute_contract_body(sender@, contract@, msg@),
{
    let b = pb_new();
    let b = pb_string(b, 1, sender);
    let b = pb_string(b, 2, contract);
    let b = pb_bytes(b, 3, msg);
    pb_into_vec(b)
}

/// The `Coin` of one `uscrt` that a fee grant allows.
pub open spec fn feegrant_coin() -> Seq<u8> {
    len_field(1, utf8("uscrt"@)) + len_field(2, utf8("1"@))
}

/// A `BasicAllowance` with a spend limit of that one coin.
pub open spec fn basic_allowance() -> Seq<u8> {
    len_record(1, feegrant_coin())
}

/// The basic allowance as an `Any`: type url (1), value (2).
pub open spec fn basic_allowance_any() -> Seq<u8> {
    len_field(1, utf8("/cosmos.feegrant.v1beta1.BasicAllowance"@)) + len_field(2, basic_allowance())
}

/// The message that the allowance pays for: claiming the headstash and
/// redeeming its tokens are both executions of a Secret contract.
pub open spec fn allowed_message() -> Seq<char> {
    "/secret.compute.v1beta1.MsgExecuteContract"@
}

/// An `AllowedMsgAllowance` that restricts the basic allowance (1) to the
/// allowed message type (2).
pub open spec fn allowed_msg_allowance() -> Seq<u8> {
    len_field(1, basic_allowance_any()) + len_field(2, utf8(allowed_message()))
}

/// The allowance as an `Any`: type url (1), value (2).
pub open spec fn allowance_any() -> Seq<u8> {
    len_field(1, utf8("/cosmos.feegrant.v1beta1.AllowedMsgAllowance"@)) + len_field(2, allowed_msg_allowance())
}

/// The body of `/cosmos.feegrant.v1beta1.MsgGrantAllowance`: granter (1),
/// grantee (2), allowance (3).
pub open spec fn grant_allowance_body(granter: Seq<char>, grantee: Seq<char>) -> Seq<u8> {
    len_field(1, utf8(granter)) + len_field(2, utf8(grantee)) + len_field(3, allowance_any())
}

/// Encodes a `MsgGrantAllowance` body that grants `grantee`, from
/// `granter`, an allowance of one `uscrt` for Secret contract executions
/// only.
pub fn grant_allowance_value(granter: &str, grantee: &str) -> (res: Vec<u8>)
    ensures
        res@ == grant_allowance_body(granter@, grantee@),
{
    let token = pb_new();
    let token = pb_string(token, 1, "uscrt");
    let token = pb_string(token, 2, "1");
    let basic = pb_new();
    let basic = pb_repeated_message_one(basic, 1, &token);
    let basic_any = pb_new();
    let basic_any = pb_string(basic_any, 1, "/cosmos.feegrant.v1beta1.BasicAllowance");
    let basic_any = pb_message(basic_any, 2, &basic);
    let allowed = pb_new();
    let allowed = pb_message(allowed, 1, &basic_any);
    let allowed = pb_string(allowed, 2, "/secret.compute.v1beta1.MsgExecuteContract");
    let allowance = pb_new();
    let allowance = pb_string(allowance, 1, "/cosmos.feegrant.v1beta1.AllowedMsgAllowance");
    let allowance = pb_message(allowance, 2, &allowed);
    let b = pb_new();
    let b = pb_string(b, 1, granter);
    let b = pb_string(b, 2, grantee);
    let b = pb_message(b, 3, &allowance);
    pb_into_vec(b)
}

/// A `Coin`: denomination (1), amount as a decimal string (2).
pub open spec fn coin_body(c: CoinV) -> Seq<u8> {
    len_field(1, utf8(c.denom)) + len_field(2, utf8(decimal(c.amount as nat)))
}

/// The coins, in order, as records of the repeated field `field`.
pub open spec fn coins_field(field: nat, coins: Seq<CoinV>) -> Seq<u8>
    decreases coins.len(),
{
    if coins.len() == 0 {
        Seq::empty()
    } else {
        coins_field(field, coins.drop_last()) + len_record(field, coin_body(coins.last()))
    }
}

/// The body of `/cosmos.bank.v1beta1.MsgSend`: sender (1), recipient (2),
/// the coins (3).
pub open spec fn bank_send_body(from: Seq<char>, to: Seq<char>, amount: Seq<CoinV>) -> Seq<u8> {
    len_field(1, utf8(from)) + len_field(2, utf8(to)) + coins_field(3, amount)
}

/// Encodes a `MsgSend` body that sends `amount` from `from` to `to`.
pub fn bank_send_value(from: &str, to: &str, amount: &Vec<Coin>) -> (res: Vec<u8>)
    ensures
        res@ == bank_send_body(from@, to@, amount.deep_view()),
{
    let b = pb_new();
    let b = pb_string(b, 1, from);
    let mut b = pb_string(b, 2, to);
    let ghost head = len_field(1, utf8(from@)) + len_field(2, utf8(to@));
    let ghost all = amount.deep_view();
    let mut i: usize = 0;
    assert(all.subrange(0, 0) =~= Seq::<CoinV>::empty());
    assert(head + coins_field(3, all.subrange(0, 0)) =~= head);
    while i < amount.len()
        invariant
            i <= amount@.len(),
            all == amount.deep_view(),
            anybuf_bytes(b) == head + coins_field(3, all.subrange(0, i as int)),
        decreases amount@.len() - i,
    {
        let c = pb_new();
        let c = pb_string(c, 1, amount[i].denom.as_str());
        let amt = u128_to_decimal(amount[i].amount);
        let c = pb_string(c, 2, amt.as_str());
        let ghost before = anybuf_bytes(b);
        b = pb_repeated_message_one(b, 3, &c);
        proof {
            assert(all[i as int] == amount[i as int].deep_view());
            assert(anybuf_bytes(c) == coin_body(all[i as int]));
            assert(all.subrange(0, i + 1).drop_last() =~= all.subrange(0, i as int));
            assert(all.subrange(0, i + 1).last() == all[i as int]);
            assert(anybuf_bytes(b) =~= head + coins_field(3, all.subrange(0, i + 1)));
        }
        i = i + 1;
    }
    assert(all.subrange(0, amount@.len() as int) =~= all);
    pb_into_vec(b)
}

} // verus!
