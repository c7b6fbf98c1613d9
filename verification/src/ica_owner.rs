//! The ICA owner: a contract on Terp Network that creates interchain
//! accounts on Secret Network through ICA controller contracts and drives a
//! headstash deployment through them, one step per message.
use crate::codec::{parse_response_json, response_of_json};
use crate::text::{parse_u64_decimal, u64_to_decimal};
use crate::commands::{embedded_wasm_of, store_code, store_code_msg, upload_contract_msg, EmbeddedWasm, WasmBlobs};
use crate::keyed::KeyedList;
use crate::msg::{
    AckResponse, AckResponseV, Attribute, AttributeV, Coin, CoinV, ContractInfo, ContractInfoV,
    CosmosMsg, CosmosMsgV, EventV, Headstash, HeadstashInitMsg, HeadstashInitMsgV, IcaMsg, IcaMsgV,
    Response, ResponseV, SecretExecMsg, SecretExecMsgV, Snip20InitMsg, Snip20InitMsgV, StdError,
    WasmInitMsg, WasmInitMsgV, empty_response,
};
use crate::ownership::{assert_owner, owner_check, OwnershipAction, OwnershipError};
use crate::proto::grant_allowance_body;
use crate::proto::grant_allowance_value;
use crate::text::{decimal, parse_decimal_u64, str_equal};
use vstd::prelude::*;

pub mod commands;

verus! {

/// The attribute key under which a message names its acknowledgement
/// callback.
pub const CUSTOM_CALLBACK: &'static str = "ica_callback_id";

/// The parameters of one token of the headstash.
#[derive(Debug)]
pub struct HeadstashTokenParams {
    /// The token's display name.
    pub name: String,
    /// The SNIP-120u symbol.
    pub symbol: String,
    /// The native denomination on Terp Network.
    pub native: String,
    /// The IBC denomination on Secret Network.
    pub ibc: String,
    /// The address of its SNIP-120u contract, once created.
    pub snip_addr: Option<String>,
}

pub struct HeadstashTokenParamsV {
    pub name: Seq<char>,
    pub symbol: Seq<char>,
    pub native: Seq<char>,
    pub ibc: Seq<char>,
    pub snip_addr: Option<Seq<char>>,
}

impl DeepView for HeadstashTokenParams {
    type V = HeadstashTokenParamsV;

    open spec fn deep_view(&self) -> HeadstashTokenParamsV {
        HeadstashTokenParamsV {
            name: self.name@,
            symbol: self.symbol@,
            native: self.native@,
            ibc: self.ibc@,
            snip_addr: self.snip_addr.deep_view(),
        }
    }
}

/// The parameters of a headstash deployment.
#[derive(Debug)]
pub struct HeadstashParams {
    /// The code id of the SNIP-120u contract on Secret Network.
    pub snip120u_code_id: u64,
    /// The code hash of the SNIP-120u contract.
    pub snip120u_code_hash: String,
    /// The code id of the headstash contract, once uploaded.
    pub headstash_code_id: Option<u64>,
    /// The tokens of the headstash.
    pub token_params: Vec<HeadstashTokenParams>,
    /// The address of the headstash contract, once instantiated.
    pub headstash: Option<String>,
}

/// The ordering of an IBC channel.
#[derive(Debug)]
pub enum IbcOrder {
    Unordered,
    Ordered,
}

/// The options with which an ICA controller opens its channel.
#[derive(Debug)]
pub struct ChannelOpenInitOptions {
    pub connection_id: String,
    pub counterparty_connection_id: String,
    pub counterparty_port_id: Option<String>,
    pub channel_ordering: Option<IbcOrder>,
}

/// An IBC channel, as the controller reports it when it opens.
#[derive(Debug)]
pub struct IbcChannel {
    pub endpoint_port_id: String,
    pub endpoint_channel_id: String,
    pub counterparty_port_id: String,
    pub counterparty_channel_id: String,
    pub order: IbcOrder,
    pub version: String,
    pub connection_id: String,
}

/// The status of an ICA channel.
#[derive(Debug)]
pub enum ChannelStatus {
    Uninitialized,
    Init,
    TryOpen,
    Open,
    Closed,
}

/// An ICA channel and its status.
#[derive(Debug)]
pub struct ChannelState {
    pub channel: IbcChannel,
    pub channel_status: ChannelStatus,
}

/// How the ICA host expects its transactions encoded.
#[derive(Debug, PartialEq, Eq, Structural, Clone, Copy)]
pub enum TxEncoding {
    Protobuf,
    Proto3Json,
}

/// ContractState is the state of the IBC application.
#[derive(Debug)]
pub struct ContractState {
    /// The code ID of the cw-ica-controller contract.
    pub ica_controller_code_id: u64,
    /// The account that may authorize fee grants for the owner, if any.
    pub feegranter: Option<String>,
}

impl ContractState {
    /// Creates a new ContractState.
    pub fn new(ica_controller_code_id: u64) -> (res: ContractState)
        ensures
            res.ica_controller_code_id == ica_controller_code_id,
            res.feegranter is None,
    {
        ContractState { ica_controller_code_id, feegranter: None }
    }
}

/// IcaState is the state of the ICA.
#[derive(Debug)]
pub struct IcaState {
    pub ica_id: u64,
    pub ica_addr: String,
    pub tx_encoding: TxEncoding,
    pub channel_state: ChannelState,
}

impl IcaState {
    /// Creates a new [`IcaState`].
    pub fn new(ica_id: u64, ica_addr: String, tx_encoding: TxEncoding, channel_state: ChannelState) -> (res: IcaState)
        ensures
            res == (IcaState { ica_id, ica_addr, tx_encoding, channel_state }),
    {
        IcaState { ica_id, ica_addr, tx_encoding, channel_state }
    }
}

/// IcaContractState is the state of the cw-ica-controller contract.
#[derive(Debug)]
pub struct IcaContractState {
    pub contract_addr: String,
    pub ica_state: Option<IcaState>,
    pub headstash_params: HeadstashParams,
}

impl IcaContractState {
    /// Creates a new [`IcaContractState`].
    pub fn new(contract_addr: String, headstash_params: HeadstashParams) -> (res: IcaContractState)
        ensures
            res == (IcaContractState { contract_addr, ica_state: None, headstash_params }),
    {
        IcaContractState { contract_addr, ica_state: None, headstash_params }
    }
}

/// The parameters of a SNIP-25 token.
#[derive(Debug)]
pub struct Snip25InitParams {
    pub ibc_hash: String,
    pub native: String,
}

/// The message that instantiates the ICA owner.
#[derive(Debug)]
pub struct InstantiateMsg {
    pub admin: Option<String>,
    pub ica_controller_code_id: u64,
    pub snip25_code_id: u64,
}

/// The queries of the ICA owner.
#[derive(Debug)]
pub enum QueryMsg {
    /// GetContractState returns the contact's state.
    GetContractState {},
    /// GetIcaState returns the ICA state for the given ICA ID.
    GetIcaContractState { ica_id: u64 },
    /// GetIcaCount returns the number of ICAs.
    GetIcaCount {},
    /// The contract's ownership.
    Ownership {},
}

/// Which step of the deployment an acknowledgement answers.
#[derive(Debug, PartialEq, Eq, Structural, Clone, Copy)]
pub enum HeadstashCallback {
    UploadHeadstash,
    InstantiateHeadstash,
    InstantiateSnip120us,
    SetHeadstashAsSnipMinter,
    FundHeadstash,
    AddHeadstashers,
    AuthorizeFeeGrants,
}

/// The name under which a callback travels in the `ica_callback_id`
/// attribute.
pub open spec fn callback_name(c: HeadstashCallback) -> Seq<char> {
    match c {
        HeadstashCallback::UploadHeadstash => "upload_headstash"@,
        HeadstashCallback::InstantiateHeadstash => "instantiate_headstash"@,
        HeadstashCallback::InstantiateSnip120us => "instantiate_snip120us"@,
        HeadstashCallback::SetHeadstashAsSnipMinter => "set_headstash_as_snip_minter"@,
        HeadstashCallback::FundHeadstash => "fund_headstash"@,
        HeadstashCallback::AddHeadstashers => "add_headstashers"@,
        HeadstashCallback::AuthorizeFeeGrants => "authorize_fee_grants"@,
    }
}

/// The callback that a name stands for, if any.
pub open spec fn callback_of_name(s: Seq<char>) -> Option<HeadstashCallback> {
    if s == "upload_headstash"@ {
        Some(HeadstashCallback::UploadHeadstash)
    } else if s == "instantiate_headstash"@ {
        Some(HeadstashCallback::InstantiateHeadstash)
    } else if s == "instantiate_snip120us"@ {
        Some(HeadstashCallback::InstantiateSnip120us)
    } else if s == "set_headstash_as_snip_minter"@ {
        Some(HeadstashCallback::SetHeadstashAsSnipMinter)
    } else if s == "fund_headstash"@ {
        Some(HeadstashCallback::FundHeadstash)
    } else if s == "add_headstashers"@ {
        Some(HeadstashCallback::AddHeadstashers)
    } else if s == "authorize_fee_grants"@ {
        Some(HeadstashCallback::AuthorizeFeeGrants)
    } else {
        None
    }
}

impl HeadstashCallback {
    /// The callback's name.
    pub fn as_string(&self) -> (res: String)
        ensures
            res@ == callback_name(*self),
    {
        match self {
            HeadstashCallback::UploadHeadstash => String::from_str("upload_headstash"),
            HeadstashCallback::InstantiateHeadstash => String::from_str("instantiate_headstash"),
            HeadstashCallback::InstantiateSnip120us => String::from_str("instantiate_snip120us"),
            HeadstashCallback::SetHeadstashAsSnipMinter => String::from_str(
                "set_headstash_as_snip_minter",
            ),
            HeadstashCallback::FundHeadstash => String::from_str("fund_headstash"),
            HeadstashCallback::AddHeadstashers => String::from_str("add_headstashers"),
            HeadstashCallback::AuthorizeFeeGrants => String::from_str("authorize_fee_grants"),
        }
    }

    /// The callback that a name stands for, if any.
    pub fn from_name(s: &str) -> (res: Option<HeadstashCallback>)
        ensures
            res == callback_of_name(s@),
    {
        if str_equal(s, "upload_headstash") {
            Some(HeadstashCallback::UploadHeadstash)
        } else if str_equal(s, "instantiate_headstash") {
            Some(HeadstashCallback::InstantiateHeadstash)
        } else if str_equal(s, "instantiate_snip120us") {
            Some(HeadstashCallback::InstantiateSnip120us)
        } else if str_equal(s, "set_headstash_as_snip_minter") {
            Some(HeadstashCallback::SetHeadstashAsSnipMinter)
        } else if str_equal(s, "fund_headstash") {
            Some(HeadstashCallback::FundHeadstash)
        } else if str_equal(s, "add_headstashers") {
            Some(HeadstashCallback::AddHeadstashers)
        } else if str_equal(s, "authorize_fee_grants") {
            Some(HeadstashCallback::AuthorizeFeeGrants)
        } else {
            None
        }
    }
}

/// A callback's name reads back as the same callback.
pub proof fn lemma_callback_name_roundtrip(c: HeadstashCallback)
    ensures
        callback_of_name(callback_name(c)) == Some(c),
{
    reveal_strlit("upload_headstash");
    reveal_strlit("instantiate_headstash");
    reveal_strlit("instantiate_snip120us");
    reveal_strlit("set_headstash_as_snip_minter");
    reveal_strlit("fund_headstash");
    reveal_strlit("add_headstashers");
    reveal_strlit("authorize_fee_grants");
    let names = seq![
        "upload_headstash"@,
        "instantiate_headstash"@,
        "instantiate_snip120us"@,
        "set_headstash_as_snip_minter"@,
        "fund_headstash"@,
        "add_headstashers"@,
        "authorize_fee_grants"@,
    ];
    assert("upload_headstash"@[0] != "add_headstashers"@[0]);
    assert("instantiate_headstash"@[12] != "instantiate_snip120us"@[12]);
    assert(forall|i: int, j: int|
        0 <= i < j < 7 && names[i].len() == names[j].len() ==> names[i] != names[j]);
}


/// The label of the SNIP-120u instantiation for a token.
pub open spec fn snip120u_label(name: Seq<char>) -> Seq<char> {
    "SNIP120U For Secret Network - "@ + name
}

/// The seed that each SNIP-120u contract starts its randomness from.
pub open spec fn snip120u_prng_seed() -> Seq<u8> {
    crate::proto::utf8("eretjeretskeretjablereteretjeretskeretjableret"@)
}

/// The instantiation of the SNIP-120u contract of token `coin`.
pub open spec fn snip120u_instantiate(
    sender: Seq<char>,
    coin: HeadstashTokenParamsV,
    code_hash: Seq<char>,
    code_id: u64,
    headstash: Option<Seq<char>>,
    symbol: Seq<char>,
) -> IcaMsgV {
    IcaMsgV::SecretInstantiate {
        sender,
        code_hash,
        code_id,
        label: snip120u_label(coin.name),
        init: Snip20InitMsgV {
            name: "Terp Network SNIP120U - "@ + coin.name,
            admin: headstash,
            symbol,
            decimals: 6,
            prng_seed: snip120u_prng_seed(),
            supported_denoms: seq![coin.ibc],
        },
    }
}

/// Instantiates a SNIP-120u token on Secret Network, with the headstash as
/// its admin and the token's IBC denomination as its one supported denom.
pub fn form_instantiate_snip120u(
    sender: String,
    coin: HeadstashTokenParams,
    code_hash: String,
    code_id: u64,
    headstash: Option<String>,
    symbol: String,
) -> (res: IcaMsg)
    ensures
        res.deep_view() == snip120u_instantiate(
            sender@,
            coin.deep_view(),
            code_hash@,
            code_id,
            headstash.deep_view(),
            symbol@,
        ),
{
    let name = String::from_str("Terp Network SNIP120U - ").concat(coin.name.as_str());
    let label = String::from_str("SNIP120U For Secret Network - ").concat(coin.name.as_str());
    let mut supported_denoms: Vec<String> = Vec::new();
    supported_denoms.push(coin.ibc);
    let init = Snip20InitMsg {
        name,
        admin: headstash,
        symbol,
        decimals: 6,
        prng_seed: "eretjeretskeretjablereteretjeretskeretjableret".as_bytes_vec(),
        supported_denoms,
    };
    assert(init.supported_denoms.deep_view() =~= seq![coin.ibc@]);
    IcaMsg::SecretInstantiate { sender, code_hash, code_id, label, init }
}

/// The message that makes `headstash` a minter of the SNIP-120u contract.
pub open spec fn authorize_minter(sender: Seq<char>, headstash: Seq<char>, snip120u: Seq<char>) -> IcaMsgV {
    IcaMsgV::SecretExecute {
        sender,
        contract: snip120u,
        msg: SecretExecMsgV::AddMinters { minters: seq![headstash] },
    }
}

/// Makes `headstash` a minter of the SNIP-120u contract `snip120u`.
pub fn form_authorize_minter(sender: String, headstash: String, snip120u: String) -> (res: IcaMsg)
    ensures
        res.deep_view() == authorize_minter(sender@, headstash@, snip120u@),
{
    let mut minters: Vec<String> = Vec::new();
    minters.push(headstash);
    assert(minters.deep_view() =~= seq![headstash@]);
    IcaMsg::SecretExecute { sender, contract: snip120u, msg: SecretExecMsg::AddMinters { minters } }
}

/// The nanoseconds in a second.
pub const NANOS_PER_SECOND: u64 = 1_000_000_000;

/// An ICS-20 transfer of `coin` to `snip120u` over `channel_id`, timing out
/// `seconds` after `time_nanos`.
pub fn form_ibc_transfer_msg(
    time_nanos: u64,
    seconds: u64,
    snip120u: String,
    channel_id: String,
    coin: Coin,
) -> (res: CosmosMsg)
    requires
        time_nanos + seconds * 1_000_000_000 <= u64::MAX,
    ensures
        res.deep_view() == (CosmosMsgV::IbcTransfer {
            channel_id: channel_id@,
            to_address: snip120u@,
            amount: coin.deep_view(),
            timeout_nanos: (time_nanos + seconds * 1_000_000_000) as u64,
        }),
{
    let timeout_nanos = time_nanos + seconds * NANOS_PER_SECOND;
    CosmosMsg::IbcTransfer { channel_id, to_address: snip120u, amount: coin, timeout_nanos }
}

/// The message that registers claims with the headstash contract.
pub open spec fn add_headstash(sender: Seq<char>, headstash: Seq<char>, to_add: Seq<crate::msg::HeadstashV>) -> IcaMsgV {
    IcaMsgV::SecretExecute {
        sender,
        contract: headstash,
        msg: SecretExecMsgV::AddHeadstash { headstash: to_add },
    }
}

/// Registers the claims `to_add` with the headstash contract.
pub fn form_add_headstash(sender: String, headstash: String, to_add: Vec<Headstash>) -> (res: IcaMsg)
    ensures
        res.deep_view() == add_headstash(sender@, headstash@, to_add.deep_view()),
{
    IcaMsg::SecretExecute {
        sender,
        contract: headstash,
        msg: SecretExecMsg::AddHeadstash { headstash: to_add },
    }
}

/// The fee grant of one `uscrt` from `sender` to `grantee`.
pub open spec fn authorize_feegrant(sender: Seq<char>, grantee: Seq<char>) -> IcaMsgV {
    IcaMsgV::Stargate {
        type_url: "/cosmos.feegrant.v1beta1.MsgGrantAllowance"@,
        value: grant_allowance_body(sender, grantee),
    }
}

/// Grants `grantee`, from `sender`, an allowance of one `uscrt` for Secret
/// contract executions only.
pub fn form_authorize_feegrant(sender: String, grantee: String) -> (res: IcaMsg)
    ensures
        res.deep_view() == authorize_feegrant(sender@, grantee@),
{
    let value = grant_allowance_value(sender.as_str(), grantee.as_str());
    IcaMsg::Stargate {
        type_url: String::from_str("/cosmos.feegrant.v1beta1.MsgGrantAllowance"),
        value,
    }
}

/// The label of the wasm contracts that the ICA instantiates.
pub open spec fn headstash_label() -> Seq<char> {
    "Secret-Headstash Airdrop Contract: Terp Network"@
}

/// Instantiates the secret headstash contract (no admin, no funds).
pub fn instantiate_headstash_msg(code_id: u64, scrt_headstash_msg: HeadstashInitMsg) -> (res: IcaMsg)
    ensures
        res.deep_view() == (IcaMsgV::WasmInstantiate {
            admin: None,
            code_id,
            label: headstash_label(),
            msg: WasmInitMsgV::Headstash(scrt_headstash_msg.deep_view()),
        }),
{
    IcaMsg::WasmInstantiate {
        admin: None,
        code_id,
        label: String::from_str("Secret-Headstash Airdrop Contract: Terp Network"),
        msg: WasmInitMsg::Headstash(scrt_headstash_msg),
    }
}

/// Instantiates the headstash circuit board (no admin, no funds).
pub fn instantiate_secret_cw_ica_controller_msg(code_id: u64, instantiate_msg: crate::circuitboard::InstantiateMsg) -> (res: IcaMsg)
    ensures
        res.deep_view() == (IcaMsgV::WasmInstantiate {
            admin: None,
            code_id,
            label: headstash_label(),
            msg: WasmInitMsgV::Circuitboard(instantiate_msg.deep_view()),
        }),
{
    IcaMsg::WasmInstantiate {
        admin: None,
        code_id,
        label: String::from_str("Secret-Headstash Airdrop Contract: Terp Network"),
        msg: WasmInitMsg::Circuitboard(instantiate_msg),
    }
}

/// Sends the messages through the ICA controller contract `controller`.
pub fn send_msg_as_ica(msgs: Vec<IcaMsg>, controller: String) -> (res: CosmosMsg)
    ensures
        res.deep_view() == (CosmosMsgV::IcaExecute {
            controller: controller@,
            messages: msgs.deep_view(),
        }),
{
    CosmosMsg::IcaExecute { controller, messages: msgs }
}


/// Why the ICA owner refuses a message.
#[derive(Debug)]
pub enum ContractError {
    Std(StdError),
    Instantiate2AddressError(String),
    CwIcaControllerError(String),
    NoCoinSentMatchesHeadstashParams,
    NoIcaInfo,
    CallbackError,
    NoHeadstashInfo,
    SnipTokenNotSet,
    NoHeadstashCodeId,
    NoHeadstashContract,
    IcaInfoNotSet,
    OwnershipCannotBeRenounced,
    OwnershipError(OwnershipError),
    Unauthorized,
    NoSnipContractAddr,
    NotValidFeegranter,
    /// An acknowledgement lacks an event attribute that its callback reads:
    /// the handler aborts there.
    CallbackAborted,
}

/// The storage of the ICA owner.
#[derive(Debug)]
pub struct IcaOwnerStore {
    /// The owner recorded by `cw_ownable`.
    pub owner: Option<String>,
    /// The contract state.
    pub state: Option<ContractState>,
    /// The state of each ICA controller, by ICA id.
    pub ica_states: KeyedList<u64, IcaContractState>,
    /// The number of ICA controllers created.
    pub ica_count: Option<u64>,
    /// The ICA id of each controller contract, by its address.
    pub addr_to_ica_id: KeyedList<String, u64>,
}

impl IcaOwnerStore {
    /// The ICA states by id.
    pub open spec fn icas(&self) -> Map<u64, IcaContractState> {
        self.ica_states.map()
    }

    /// The ICA ids by controller address.
    pub open spec fn ids(&self) -> Map<Seq<char>, u64> {
        self.addr_to_ica_id.map()
    }

    /// The ICA count, 0 before the first ICA.
    pub open spec fn count(&self) -> u64 {
        match self.ica_count {
            Some(c) => c,
            None => 0,
        }
    }
}

/// Instantiates the ICA owner: the owner is the message's admin, else the
/// sender (a valid address), and the contract state records the
/// controller's code id.
pub fn instantiate(msg: InstantiateMsg, sender: String) -> (res: IcaOwnerStore)
    ensures
        res.owner.deep_view() == Some(
            match msg.admin {
                Some(a) => a@,
                None => sender@,
            },
        ),
        res.state matches Some(st) && st.ica_controller_code_id == msg.ica_controller_code_id
            && st.feegranter is None,
        res.icas() == Map::<u64, IcaContractState>::empty(),
        res.ids() == Map::<Seq<char>, u64>::empty(),
        res.ica_count is None,
{
    let owner = match msg.admin {
        Some(a) => a,
        None => sender,
    };
    IcaOwnerStore {
        owner: Some(owner),
        state: Some(ContractState::new(msg.ica_controller_code_id)),
        ica_states: KeyedList::new(),
        ica_count: None,
        addr_to_ica_id: KeyedList::new(),
    }
}

/// Returns the saved contract state.
pub fn state(store: &IcaOwnerStore) -> (res: Result<&ContractState, StdError>)
    ensures
        match store.state {
            Some(st) => res matches Ok(r) && *r == st,
            None => res matches Err(StdError::NotFound(_)),
        },
{
    match &store.state {
        Some(st) => Ok(st),
        None => Err(StdError::NotFound(String::from_str("ContractState"))),
    }
}

/// Returns the saved ICA state for the given ICA ID.
pub fn ica_state(store: &IcaOwnerStore, ica_id: u64) -> (res: Result<&IcaContractState, StdError>)
    ensures
        match res {
            Ok(r) => store.icas().contains_key(ica_id) && *r == store.icas()[ica_id],
            Err(e) => !store.icas().contains_key(ica_id) && e is NotFound,
        },
{
    match store.ica_states.get(&ica_id) {
        Some(st) => Ok(st),
        None => Err(StdError::NotFound(String::from_str("IcaContractState"))),
    }
}

/// Returns the number of ICAs created, 0 before the first.
pub fn ica_count(store: &IcaOwnerStore) -> (res: Result<u64, StdError>)
    ensures
        res == Ok::<u64, StdError>(store.count()),
{
    match store.ica_count {
        Some(c) => Ok(c),
        None => Ok(0),
    }
}

/// What the account lookup refuses with: the owner check's error, else
/// `NotFound` for an unknown ICA id.
pub open spec fn account_refusal(
    store: &IcaOwnerStore,
    sender: Seq<char>,
    ica_id: u64,
    e: ContractError,
) -> bool {
    match owner_check(store.owner.deep_view(), sender) {
        Err(o) => e matches ContractError::OwnershipError(f) && f == o,
        Ok(_) => !store.icas().contains_key(ica_id) && e matches ContractError::Std(StdError::NotFound(_)),
    }
}

/// The account lookup succeeds: `sender` is the owner and the ICA id is
/// known.
pub open spec fn account_ok(store: &IcaOwnerStore, sender: Seq<char>, ica_id: u64) -> bool {
    owner_check(store.owner.deep_view(), sender) is Ok && store.icas().contains_key(ica_id)
}

/// Retrieves the ICA controller of the given account id; only the contract
/// owner may.
pub fn retrieve_ica_owner_account(store: &IcaOwnerStore, sender: &String, ica_id: u64) -> (res: Result<String, ContractError>)
    ensures
        match res {
            Ok(a) => account_ok(store, sender@, ica_id) && a@ == store.icas()[ica_id].contract_addr@,
            Err(e) => !account_ok(store, sender@, ica_id) && account_refusal(store, sender@, ica_id, e),
        },
{
    if let Err(e) = assert_owner(&store.owner, sender) {
        return Err(ContractError::OwnershipError(e));
    }
    match store.ica_states.get(&ica_id) {
        Some(st) => Ok(st.contract_addr.clone()),
        None => Err(ContractError::Std(StdError::NotFound(String::from_str("IcaContractState")))),
    }
}

/// The answer to a step that the ICA runs: the messages through the
/// controller, and the callback to expect.
pub open spec fn ica_call_response(controller: Seq<char>, msgs: Seq<IcaMsgV>, cb: HeadstashCallback) -> ResponseV {
    ResponseV {
        messages: seq![CosmosMsgV::IcaExecute { controller, messages: msgs }],
        attributes: seq![AttributeV { key: "ica_callback_id"@, value: callback_name(cb) }],
        events: Seq::empty(),
    }
}

fn ica_call(controller: String, msgs: Vec<IcaMsg>, cb: HeadstashCallback) -> (res: Response)
    ensures
        res.deep_view() == ica_call_response(controller@, msgs.deep_view(), cb),
{
    let msg = send_msg_as_ica(msgs, controller);
    let mut res = Response::new();
    res.messages.push(msg);
    res.attributes.push(Attribute { key: String::from_str("ica_callback_id"), value: cb.as_string() });
    assert(res.messages.deep_view() =~= seq![msg.deep_view()]);
    assert(res.attributes.deep_view() =~= seq![AttributeV { key: "ica_callback_id"@, value: callback_name(cb) }]);
    res
}

/// How an upload through the ICA answered.
pub open spec fn upload_outcome(
    store: &IcaOwnerStore,
    sender: String,
    ica_id: u64,
    contract: String,
    blobs: &WasmBlobs,
    res: Result<Response, ContractError>,
) -> bool {
    &&& !account_ok(store, sender@, ica_id) ==> (res matches Err(e) && account_refusal(store, sender@, ica_id, e))
    &&& account_ok(store, sender@, ica_id) ==> match embedded_wasm_of(contract@) {
        Some(w) => res matches Ok(r) && r.deep_view() == ica_call_response(
            store.icas()[ica_id].contract_addr@,
            seq![store_code_msg(sender@, blobs.blob(w))],
            HeadstashCallback::UploadHeadstash,
        ),
        None => res matches Err(ContractError::Std(StdError::GenericErr(e))) && e@ == "bad contract upload"@,
    }
}

/// Uploads the shipped contract named `contract` through the ICA; the
/// upload's sender is the caller.
pub fn ica_upload_contract_on_secret(
    store: &IcaOwnerStore,
    sender: String,
    ica_id: u64,
    contract: String,
    blobs: &WasmBlobs,
) -> (res: Result<Response, ContractError>)
    ensures
        upload_outcome(store, sender, ica_id, contract, blobs, res),
{
    let controller = match retrieve_ica_owner_account(store, &sender, ica_id) {
        Ok(c) => c,
        Err(e) => return Err(e),
    };
    let upload = match upload_contract_msg(sender.as_str(), contract.as_str(), blobs) {
        Ok(m) => m,
        Err(e) => return Err(ContractError::Std(e)),
    };
    let mut msgs: Vec<IcaMsg> = Vec::new();
    msgs.push(upload);
    assert(msgs.deep_view() =~= seq![upload.deep_view()]);
    Ok(ica_call(controller, msgs, HeadstashCallback::UploadHeadstash))
}

/// How registering claims through the ICA answered.
pub open spec fn add_claimers_outcome(
    store: &IcaOwnerStore,
    sender: String,
    ica_id: u64,
    to_add: Vec<Headstash>,
    res: Result<Response, ContractError>,
) -> bool {
    &&& !account_ok(store, sender@, ica_id) ==> (res matches Err(e) && account_refusal(store, sender@, ica_id, e))
    &&& account_ok(store, sender@, ica_id) ==> {
        let st = store.icas()[ica_id];
        match st.ica_state {
            None => res matches Err(ContractError::IcaInfoNotSet),
            Some(ica) => match st.headstash_params.headstash {
                None => res matches Err(ContractError::NoHeadstashContract),
                Some(hs) => res matches Ok(r) && r.deep_view() == ica_call_response(
                    st.contract_addr@,
                    seq![add_headstash(ica.ica_addr@, hs@, to_add.deep_view())],
                    HeadstashCallback::AddHeadstashers,
                ),
            },
        }
    }
}

/// Registers claims with the headstash contract through the ICA: needs the
/// ICA's channel to be open and the headstash contract to be known.
pub fn ica_add_headstash_claimers(
    store: &IcaOwnerStore,
    sender: String,
    ica_id: u64,
    to_add: Vec<Headstash>,
) -> (res: Result<Response, ContractError>)
    ensures
        add_claimers_outcome(store, sender, ica_id, to_add, res),
{
    let controller = match retrieve_ica_owner_account(store, &sender, ica_id) {
        Ok(c) => c,
        Err(e) => return Err(e),
    };
    let st = match store.ica_states.get(&ica_id) {
        Some(st) => st,
        None => return Err(ContractError::Std(StdError::NotFound(String::from_str("IcaContractState")))),
    };
    let mut msgs: Vec<IcaMsg> = Vec::new();
    match &st.ica_state {
        Some(ica) => match &st.headstash_params.headstash {
            Some(hs) => {
                let msg = form_add_headstash(ica.ica_addr.clone(), hs.clone(), to_add);
                msgs.push(msg);
                assert(msgs.deep_view() =~= seq![msg.deep_view()]);
            },
            None => return Err(ContractError::NoHeadstashContract),
        },
        None => return Err(ContractError::IcaInfoNotSet),
    }
    Ok(ica_call(controller, msgs, HeadstashCallback::AddHeadstashers))
}


fn clone_opt_string(o: &Option<String>) -> (res: Option<String>)
    ensures
        res.deep_view() == o.deep_view(),
{
    match o {
        Some(s) => Some(s.clone()),
        None => None,
    }
}

/// The fee grants of one `uscrt` from `granter` to each grantee.
pub open spec fn feegrant_msgs(granter: Seq<char>, grantees: Seq<Seq<char>>) -> Seq<IcaMsgV> {
    grantees.map_values(|g: Seq<char>| authorize_feegrant(granter, g))
}

/// How granting fee allowances through the ICA answered.
pub open spec fn feegrant_outcome(
    store: &IcaOwnerStore,
    sender: String,
    ica_id: u64,
    to_grant: Vec<String>,
    owner: Option<Result<String, StdError>>,
    res: Result<Response, ContractError>,
) -> bool {
    &&& match store.state {
        None => res matches Err(ContractError::Std(StdError::NotFound(_))),
        Some(st) => match owner {
            Some(o) if !(st.feegranter matches Some(b) && sender@ == b@) && owner_check(
                store.owner.deep_view(),
                sender@,
            ) is Err => match st.feegranter {
                Some(_) => res matches Err(ContractError::NotValidFeegranter),
                None => res matches Err(ContractError::OwnershipError(f)) && owner_check(
                    store.owner.deep_view(),
                    sender@,
                ) == Err::<(), OwnershipError>(f),
            },
            Some(Err(e)) => res matches Err(ContractError::Std(f)) && f == e,
            _ => {
                let acting = match owner {
                    Some(Ok(a)) => a@,
                    _ => sender@,
                };
                &&& !account_ok(store, acting, ica_id) ==> (res matches Err(e) && account_refusal(
                    store,
                    acting,
                    ica_id,
                    e,
                ))
                &&& account_ok(store, acting, ica_id) ==> {
                    let ica_st = store.icas()[ica_id];
                    match ica_st.ica_state {
                        None => res matches Err(ContractError::IcaInfoNotSet),
                        Some(ica) => res matches Ok(r) && r.deep_view() == ica_call_response(
                            ica_st.contract_addr@,
                            feegrant_msgs(ica.ica_addr@, to_grant.deep_view()),
                            HeadstashCallback::AuthorizeFeeGrants,
                        ),
                    }
                }
            },
        },
    }
}

/// Grants each address in `to_grant` a fee allowance from the ICA. The
/// owner may call it for itself; with `owner` given (its address validation
/// passed along), the owner or the recorded fee granter may call it on that
/// owner's behalf, and the owner check then applies to `owner`. A sender who
/// is neither is refused: with `NotValidFeegranter` where a fee granter is
/// recorded, else by the owner check.
pub fn ica_authorize_feegrant(
    store: &IcaOwnerStore,
    sender: String,
    ica_id: u64,
    to_grant: Vec<String>,
    owner: Option<Result<String, StdError>>,
) -> (res: Result<Response, ContractError>)
    ensures
        feegrant_outcome(store, sender, ica_id, to_grant, owner, res),
{
    let st = match &store.state {
        Some(st) => st,
        None => return Err(ContractError::Std(StdError::NotFound(String::from_str("ContractState")))),
    };
    let acting = match owner {
        Some(o) => {
            let is_granter = match &st.feegranter {
                Some(b) => sender == *b,
                None => false,
            };
            if !is_granter {
                if let Err(e) = assert_owner(&store.owner, &sender) {
                    return match &st.feegranter {
                        Some(_) => Err(ContractError::NotValidFeegranter),
                        None => Err(ContractError::OwnershipError(e)),
                    };
                }
            }
            match o {
                Ok(a) => a,
                Err(e) => return Err(ContractError::Std(e)),
            }
        },
        None => sender,
    };
    let controller = match retrieve_ica_owner_account(store, &acting, ica_id) {
        Ok(c) => c,
        Err(e) => return Err(e),
    };
    let ica_st = match store.ica_states.get(&ica_id) {
        Some(s) => s,
        None => return Err(ContractError::Std(StdError::NotFound(String::from_str("IcaContractState")))),
    };
    let ica = match &ica_st.ica_state {
        Some(ica) => ica,
        None => return Err(ContractError::IcaInfoNotSet),
    };
    let mut msgs: Vec<IcaMsg> = Vec::new();
    let mut i: usize = 0;
    while i < to_grant.len()
        invariant
            i <= to_grant@.len(),
            msgs.deep_view() == feegrant_msgs(ica.ica_addr@, to_grant.deep_view().subrange(0, i as int)),
        decreases to_grant@.len() - i,
    {
        let msg = form_authorize_feegrant(ica.ica_addr.clone(), to_grant[i].clone());
        let ghost prev = msgs.deep_view();
        msgs.push(msg);
        proof {
            assert(to_grant.deep_view().subrange(0, i + 1) =~= to_grant.deep_view().subrange(0, i as int).push(to_grant[i as int]@));
            assert(msgs.deep_view() =~= prev.push(msg.deep_view()));
            assert(feegrant_msgs(ica.ica_addr@, to_grant.deep_view().subrange(0, i + 1)) =~= feegrant_msgs(ica.ica_addr@, to_grant.deep_view().subrange(0, i as int)).push(authorize_feegrant(ica.ica_addr@, to_grant[i as int]@)));
        }
        i = i + 1;
    }
    assert(to_grant.deep_view().subrange(0, to_grant@.len() as int) =~= to_grant.deep_view());
    Ok(ica_call(controller, msgs, HeadstashCallback::AuthorizeFeeGrants))
}

/// The minter authorizations of the headstash on each SNIP-120u contract.
pub open spec fn minter_msgs(sender: Seq<char>, headstash: Seq<char>, snips: Seq<Seq<char>>) -> Seq<IcaMsgV> {
    snips.map_values(|s: Seq<char>| authorize_minter(sender, headstash, s))
}

/// Once the ICA's channel is open, the minter step needs the headstash
/// contract to be known.
pub open spec fn minter_requirement(store: &IcaOwnerStore, sender: Seq<char>, ica_id: u64) -> bool {
    account_ok(store, sender, ica_id) && store.icas()[ica_id].ica_state is Some
        ==> store.icas()[ica_id].headstash_params.headstash is Some
}

/// Every token records its SNIP-120u contract.
pub open spec fn snips_recorded(params: Seq<HeadstashTokenParamsV>) -> bool {
    forall|i: int| 0 <= i < params.len() ==> (#[trigger] params[i]).snip_addr is Some
}

/// The SNIP-120u contracts that the tokens record, in order.
pub open spec fn token_snips(params: Seq<HeadstashTokenParamsV>) -> Seq<Seq<char>> {
    params.map_values(|t: HeadstashTokenParamsV| t.snip_addr.unwrap())
}

/// How authorizing the headstash as a SNIP-120u minter answered.
pub open spec fn minter_outcome(
    store: &IcaOwnerStore,
    sender: String,
    ica_id: u64,
    res: Result<Response, ContractError>,
) -> bool {
    &&& !account_ok(store, sender@, ica_id) ==> (res matches Err(e) && account_refusal(store, sender@, ica_id, e))
    &&& account_ok(store, sender@, ica_id) ==> {
        let st = store.icas()[ica_id];
        let params = st.headstash_params.token_params.deep_view();
        match st.ica_state {
            None => res matches Err(ContractError::IcaInfoNotSet),
            Some(ica) => if !snips_recorded(params) {
                res matches Err(ContractError::NoSnipContractAddr)
            } else {
                res matches Ok(r) && r.deep_view() == ica_call_response(
                    st.contract_addr@,
                    minter_msgs(ica.ica_addr@, st.headstash_params.headstash.unwrap()@, token_snips(params)),
                    HeadstashCallback::SetHeadstashAsSnipMinter,
                )
            },
        }
    }
}

/// Makes the headstash contract a minter of the SNIP-120u contract of every
/// token, through the ICA. The ICA's channel must be open (the headstash
/// contract is then known) and every token must record its SNIP-120u
/// contract.
#[verifier::loop_isolation(false)]
pub fn ica_authorize_snip120u_minter(store: &IcaOwnerStore, sender: String, ica_id: u64) -> (res: Result<Response, ContractError>)
    requires
        minter_requirement(store, sender@, ica_id),
    ensures
        minter_outcome(store, sender, ica_id, res),
{
    let controller = match retrieve_ica_owner_account(store, &sender, ica_id) {
        Ok(c) => c,
        Err(e) => return Err(e),
    };
    let st = match store.ica_states.get(&ica_id) {
        Some(s) => s,
        None => return Err(ContractError::Std(StdError::NotFound(String::from_str("IcaContractState")))),
    };
    let ica = match &st.ica_state {
        Some(ica) => ica,
        None => return Err(ContractError::IcaInfoNotSet),
    };
    let hs = match &st.headstash_params.headstash {
        Some(h) => h,
        None => return Err(ContractError::NoHeadstashContract),
    };
    let tokens = &st.headstash_params.token_params;
    let ghost params = tokens.deep_view();
    let mut msgs: Vec<IcaMsg> = Vec::new();
    let mut i: usize = 0;
    assert(params.subrange(0, 0) =~= Seq::<HeadstashTokenParamsV>::empty());
    assert(token_snips(params.subrange(0, 0)) =~= Seq::<Seq<char>>::empty());
    assert(msgs.deep_view() =~= Seq::<IcaMsgV>::empty());
    while i < tokens.len()
        invariant
            i <= tokens@.len(),
            params == tokens.deep_view(),
            forall|k: int| 0 <= k < i ==> (#[trigger] params[k]).snip_addr is Some,
            msgs.deep_view() == minter_msgs(ica.ica_addr@, hs@, token_snips(params.subrange(0, i as int))),
        decreases tokens@.len() - i,
    {
        assert(params[i as int] == tokens[i as int].deep_view());
        let snip = match &tokens[i].snip_addr {
            Some(a) => a.clone(),
            None => {
                assert(params[i as int].snip_addr is None);
                return Err(ContractError::NoSnipContractAddr);
            },
        };
        let msg = form_authorize_minter(ica.ica_addr.clone(), hs.clone(), snip);
        let ghost prev = msgs.deep_view();
        msgs.push(msg);
        proof {
            assert(params.subrange(0, i + 1) =~= params.subrange(0, i as int).push(params[i as int]));
            assert(token_snips(params.subrange(0, i + 1)) =~= token_snips(params.subrange(0, i as int)).push(
                params[i as int].snip_addr.unwrap(),
            ));
            assert(msgs.deep_view() =~= prev.push(msg.deep_view()));
            assert(minter_msgs(ica.ica_addr@, hs@, token_snips(params.subrange(0, i + 1))) =~= minter_msgs(
                ica.ica_addr@,
                hs@,
                token_snips(params.subrange(0, i as int)),
            ).push(authorize_minter(ica.ica_addr@, hs@, params[i as int].snip_addr.unwrap())));
        }
        i = i + 1;
    }
    assert(params.subrange(0, tokens@.len() as int) =~= params);
    Ok(ica_call(controller, msgs, HeadstashCallback::SetHeadstashAsSnipMinter))
}


/// The first token of `params` with the native denomination `native`.
pub open spec fn find_native(params: Seq<HeadstashTokenParamsV>, native: Seq<char>) -> Option<HeadstashTokenParamsV>
    decreases params.len(),
{
    if params.len() == 0 {
        None
    } else if params[0].native == native {
        Some(params[0])
    } else {
        find_native(params.drop_first(), native)
    }
}

fn find_native_index(params: &Vec<HeadstashTokenParams>, native: &String) -> (res: Option<usize>)
    ensures
        match res {
            Some(i) => i < params@.len() && find_native(params.deep_view(), native@) == Some(
                params.deep_view()[i as int],
            ),
            None => find_native(params.deep_view(), native@) is None,
        },
{
    let ghost all = params.deep_view();
    let mut i: usize = 0;
    assert(all.subrange(0, all.len() as int) =~= all);
    while i < params.len()
        invariant
            i <= params@.len(),
            all == params.deep_view(),
            find_native(all, native@) == find_native(all.subrange(i as int, all.len() as int), native@),
        decreases params@.len() - i,
    {
        let ghost rest = all.subrange(i as int, all.len() as int);
        assert(rest[0] == all[i as int]);
        if params[i].native == *native {
            return Some(i);
        }
        assert(rest.drop_first() =~= all.subrange(i + 1, all.len() as int));
        i = i + 1;
    }
    None
}

/// The SNIP-120u instantiations for the requested tokens, in order, one per
/// token: with the symbol that the headstash records for the token's native
/// denomination, or the token's own symbol where the headstash has none.
pub open spec fn snip120u_msgs(
    sender: Seq<char>,
    tokens: Seq<HeadstashTokenParamsV>,
    params: Seq<HeadstashTokenParamsV>,
    code_hash: Seq<char>,
    code_id: u64,
    headstash: Option<Seq<char>>,
) -> Seq<IcaMsgV>
    decreases tokens.len(),
{
    if tokens.len() == 0 {
        Seq::empty()
    } else {
        let rest = snip120u_msgs(sender, tokens.drop_last(), params, code_hash, code_id, headstash);
        match find_native(params, tokens.last().native) {
            Some(t) => rest.push(
                snip120u_instantiate(sender, tokens.last(), code_hash, code_id, headstash, t.symbol),
            ),
            None => rest.push(
                snip120u_instantiate(sender, tokens.last(), code_hash, code_id, headstash, tokens.last().symbol),
            ),
        }
    }
}

/// How instantiating the SNIP-120u contracts through the ICA answered.
pub open spec fn snip120us_outcome(
    store: &IcaOwnerStore,
    sender: String,
    ica_id: u64,
    tokens: Vec<HeadstashTokenParams>,
    res: Result<Response, ContractError>,
) -> bool {
    &&& !account_ok(store, sender@, ica_id) ==> (res matches Err(e) && account_refusal(store, sender@, ica_id, e))
    &&& account_ok(store, sender@, ica_id) ==> {
        let st = store.icas()[ica_id];
        let hp = st.headstash_params;
        res matches Ok(r) && r.deep_view() == ica_call_response(
            st.contract_addr@,
            snip120u_msgs(
                st.contract_addr@,
                tokens.deep_view(),
                hp.token_params.deep_view(),
                hp.snip120u_code_hash@,
                hp.snip120u_code_id,
                hp.headstash.deep_view(),
            ),
            HeadstashCallback::InstantiateSnip120us,
        )
    }
}

/// Instantiates, through the ICA, a SNIP-120u contract for every requested
/// token, with the controller contract as the sender.
#[verifier::loop_isolation(false)]
pub fn ica_instantiate_terp_network_snip120us(
    store: &IcaOwnerStore,
    sender: String,
    ica_id: u64,
    tokens: Vec<HeadstashTokenParams>,
) -> (res: Result<Response, ContractError>)
    ensures
        snip120us_outcome(store, sender, ica_id, tokens, res),
{
    let controller = match retrieve_ica_owner_account(store, &sender, ica_id) {
        Ok(c) => c,
        Err(e) => return Err(e),
    };
    let st = match store.ica_states.get(&ica_id) {
        Some(s) => s,
        None => return Err(ContractError::Std(StdError::NotFound(String::from_str("IcaContractState")))),
    };
    let hp = &st.headstash_params;
    let ghost all = tokens.deep_view();
    let ghost toks = tokens@;
    let ghost params = hp.token_params.deep_view();
    let n = tokens.len();
    let mut rest = tokens;
    let mut msgs: Vec<IcaMsg> = Vec::new();
    let mut done: usize = 0;
    assert(msgs.deep_view() =~= Seq::<IcaMsgV>::empty());
    while done < n
        invariant
            n == all.len(),
            n == toks.len(),
            all == toks.map_values(|t: HeadstashTokenParams| t.deep_view()),
            done <= n,
            rest@ == toks.subrange(done as int, n as int),
            params == hp.token_params.deep_view(),
            msgs.deep_view() == snip120u_msgs(
                controller@,
                all.subrange(0, done as int),
                params,
                hp.snip120u_code_hash@,
                hp.snip120u_code_id,
                hp.headstash.deep_view(),
            ),
        decreases n - done,
    {
        let token = rest.remove(0);
        proof {
            assert(token == toks[done as int]);
            assert(token.deep_view() == all[done as int]);
            assert(all.subrange(0, done + 1).drop_last() =~= all.subrange(0, done as int));
            assert(all.subrange(0, done + 1).last() == all[done as int]);
            assert(rest@ =~= toks.subrange(done + 1, n as int));
        }
        let found = find_native_index(&hp.token_params, &token.native);
        let ghost prev = msgs.deep_view();
        let symbol = match found {
            Some(k) => hp.token_params[k].symbol.clone(),
            None => token.symbol.clone(),
        };
        let msg = form_instantiate_snip120u(
            controller.clone(),
            token,
            hp.snip120u_code_hash.clone(),
            hp.snip120u_code_id,
            clone_opt_string(&hp.headstash),
            symbol,
        );
        msgs.push(msg);
        assert(msgs.deep_view() =~= prev.push(msg.deep_view()));
        done = done + 1;
    }
    assert(all.subrange(0, n as int) =~= all);
    Ok(ica_call(controller, msgs, HeadstashCallback::InstantiateSnip120us))
}

/// The nanoseconds in a year of 365 days.
pub open spec fn year_nanos() -> nat {
    365 * 86_400 * 1_000_000_000
}

/// The headstash can be instantiated: the ICA's channel is open, the
/// headstash code is uploaded and every token has its SNIP-120u contract.
pub open spec fn ready_to_instantiate(st: IcaContractState) -> bool {
    &&& st.ica_state is Some
    &&& st.headstash_params.headstash_code_id is Some
    &&& forall|i: int|
        0 <= i < st.headstash_params.token_params@.len() ==> (#[trigger] st.headstash_params.token_params@[i]).snip_addr is Some
}

/// The instantiate message of the headstash: claims open at `start_date`
/// and close a year after `block_time_nanos`; the first two tokens' SNIP-120u
/// contracts are its tokens and the ICA is its admin.
pub open spec fn headstash_init(st: IcaContractState, block_time_nanos: u64, start_date: u64, total_amount: u128) -> HeadstashInitMsgV {
    let hp = st.headstash_params;
    HeadstashInitMsgV {
        claim_msg_plaintext: "{wallet}"@,
        end_date: Some((block_time_nanos + year_nanos()) as u64),
        snip20_1: ContractInfoV {
            address: hp.token_params@[0].snip_addr.unwrap()@,
            code_hash: hp.snip120u_code_hash@,
        },
        snip20_2: Some(
            ContractInfoV {
                address: hp.token_params@[1].snip_addr.unwrap()@,
                code_hash: hp.snip120u_code_hash@,
            },
        ),
        start_date: Some(start_date),
        total_amount,
        viewing_key: "eretskeretjablret"@,
        admin: st.ica_state.unwrap().ica_addr@,
    }
}

/// An instantiation of the headstash that goes ahead names two tokens,
/// and its end date, a year after the block time, fits in a `u64`.
pub open spec fn headstash_instantiation_requirement(
    store: &IcaOwnerStore,
    sender: Seq<char>,
    block_time_nanos: u64,
    ica_id: u64,
) -> bool {
    account_ok(store, sender, ica_id) && ready_to_instantiate(store.icas()[ica_id]) ==> {
        &&& store.icas()[ica_id].headstash_params.token_params@.len() >= 2
        &&& block_time_nanos + year_nanos() <= u64::MAX
    }
}

/// How instantiating the headstash contract through the ICA answered.
pub open spec fn headstash_instantiation_outcome(
    store: &IcaOwnerStore,
    sender: String,
    block_time_nanos: u64,
    ica_id: u64,
    start_date: u64,
    total_amount: u128,
    res: Result<Response, ContractError>,
) -> bool {
    &&& !store.icas().contains_key(ica_id) ==> (res matches Err(ContractError::Std(StdError::NotFound(_))))
    &&& store.icas().contains_key(ica_id) && !account_ok(store, sender@, ica_id) ==> (res matches Err(e)
        && account_refusal(store, sender@, ica_id, e))
    &&& account_ok(store, sender@, ica_id) ==> {
        let st = store.icas()[ica_id];
        let hp = st.headstash_params;
        if st.ica_state is None {
            res matches Err(ContractError::NoIcaInfo)
        } else if hp.headstash_code_id is None {
            res matches Err(ContractError::NoHeadstashCodeId)
        } else if !ready_to_instantiate(st) {
            res matches Err(ContractError::NoSnipContractAddr)
        } else {
            res matches Ok(r) && r.deep_view() == ica_call_response(
                st.contract_addr@,
                seq![
                    IcaMsgV::WasmInstantiate {
                        admin: None,
                        code_id: hp.headstash_code_id.unwrap(),
                        label: headstash_label(),
                        msg: WasmInitMsgV::Headstash(headstash_init(st, block_time_nanos, start_date, total_amount)),
                    },
                ],
                HeadstashCallback::InstantiateHeadstash,
            )
        }
    }
}

/// Instantiates the secret headstash contract through the ICA.
#[verifier::loop_isolation(false)]
pub fn ica_instantiate_headstash_contract(
    store: &IcaOwnerStore,
    sender: String,
    block_time_nanos: u64,
    ica_id: u64,
    start_date: u64,
    total_amount: u128,
) -> (res: Result<Response, ContractError>)
    requires
        headstash_instantiation_requirement(store, sender@, block_time_nanos, ica_id),
    ensures
        headstash_instantiation_outcome(store, sender, block_time_nanos, ica_id, start_date, total_amount, res),
{
    let st = match store.ica_states.get(&ica_id) {
        Some(s) => s,
        None => return Err(ContractError::Std(StdError::NotFound(String::from_str("IcaContractState")))),
    };
    let controller = match retrieve_ica_owner_account(store, &sender, ica_id) {
        Ok(c) => c,
        Err(e) => return Err(e),
    };
    let hp = &st.headstash_params;
    let ica = match &st.ica_state {
        Some(ica) => ica,
        None => return Err(ContractError::NoIcaInfo),
    };
    let code_id = match hp.headstash_code_id {
        Some(c) => c,
        None => return Err(ContractError::NoHeadstashCodeId),
    };
    let mut i: usize = 0;
    while i < hp.token_params.len()
        invariant
            i <= hp.token_params@.len(),
            forall|j: int| 0 <= j < i ==> (#[trigger] hp.token_params@[j]).snip_addr is Some,
        decreases hp.token_params@.len() - i,
    {
        if hp.token_params[i].snip_addr.is_none() {
            return Err(ContractError::NoSnipContractAddr);
        }
        i = i + 1;
    }
    let snip1 = match &hp.token_params[0].snip_addr {
        Some(a) => a.clone(),
        None => return Err(ContractError::NoSnipContractAddr),
    };
    let snip2 = match &hp.token_params[1].snip_addr {
        Some(a) => a.clone(),
        None => return Err(ContractError::NoSnipContractAddr),
    };
    let end_date = block_time_nanos + 365 * 86_400 * NANOS_PER_SECOND;
    let init = HeadstashInitMsg {
        claim_msg_plaintext: String::from_str("{wallet}"),
        end_date: Some(end_date),
        snip20_1: ContractInfo { address: snip1, code_hash: hp.snip120u_code_hash.clone() },
        snip20_2: Some(ContractInfo { address: snip2, code_hash: hp.snip120u_code_hash.clone() }),
        start_date: Some(start_date),
        total_amount,
        viewing_key: String::from_str("eretskeretjablret"),
        admin: ica.ica_addr.clone(),
    };
    let msg = instantiate_headstash_msg(code_id, init);
    let mut msgs: Vec<IcaMsg> = Vec::new();
    msgs.push(msg);
    assert(msgs.deep_view() =~= seq![msg.deep_view()]);
    Ok(ica_call(controller, msgs, HeadstashCallback::InstantiateHeadstash))
}

/// Why a transfer of funds to the SNIP-120u contracts is refused.
#[derive(Debug)]
pub enum FundRefusal {
    /// A coin's denomination is none of the headstash's tokens.
    NoCoinMatch,
    /// A coin's token has no SNIP-120u contract yet.
    NoSnipAddr,
}

/// The ICS-20 transfers of the sent coins to their tokens' SNIP-120u
/// contracts, in order, or why they are refused.
pub open spec fn fund_transfers(
    params: Seq<HeadstashTokenParamsV>,
    funds: Seq<CoinV>,
    channel_id: Seq<char>,
    timeout_nanos: u64,
) -> Result<Seq<CosmosMsgV>, FundRefusal>
    decreases funds.len(),
{
    if funds.len() == 0 {
        Ok(Seq::empty())
    } else {
        match find_native(params, funds[0].denom) {
            None => Err(FundRefusal::NoCoinMatch),
            Some(t) => match t.snip_addr {
                None => Err(FundRefusal::NoSnipAddr),
                Some(a) => match fund_transfers(params, funds.drop_first(), channel_id, timeout_nanos) {
                    Ok(rest) => Ok(
                        seq![
                            CosmosMsgV::IbcTransfer {
                                channel_id,
                                to_address: a,
                                amount: funds[0],
                                timeout_nanos,
                            },
                        ] + rest,
                    ),
                    Err(e) => Err(e),
                },
            },
        }
    }
}

/// The first coin sent reaches a transfer: its token is known and has its
/// SNIP-120u contract.
pub open spec fn first_coin_transfers(
    params: Seq<HeadstashTokenParamsV>,
    funds: Seq<CoinV>,
) -> bool {
    &&& funds.len() > 0
    &&& find_native(params, funds[0].denom) matches Some(t)
    &&& t.snip_addr is Some
}

/// A transfer that goes ahead times out ten minutes after the block time,
/// which must fit in a `u64`.
pub open spec fn transfer_requirement(
    store: &IcaOwnerStore,
    sender: Seq<char>,
    block_time_nanos: u64,
    ica_id: u64,
    funds: Seq<CoinV>,
) -> bool {
    account_ok(store, sender, ica_id) && first_coin_transfers(
        store.icas()[ica_id].headstash_params.token_params.deep_view(),
        funds,
    ) ==> block_time_nanos + 600 * 1_000_000_000 <= u64::MAX
}

/// How transferring the sent funds to the SNIP-120u contracts answered.
pub open spec fn transfer_outcome(
    store: &IcaOwnerStore,
    sender: String,
    block_time_nanos: u64,
    ica_id: u64,
    channel_id: String,
    funds: Vec<Coin>,
    res: Result<Response, ContractError>,
) -> bool {
    &&& !account_ok(store, sender@, ica_id) ==> (res matches Err(e) && account_refusal(store, sender@, ica_id, e))
    &&& account_ok(store, sender@, ica_id) ==> match fund_transfers(
        store.icas()[ica_id].headstash_params.token_params.deep_view(),
        funds.deep_view(),
        channel_id@,
        (block_time_nanos + 600 * 1_000_000_000) as u64,
    ) {
        Ok(msgs) => res matches Ok(r) && r.deep_view() == (ResponseV {
            messages: msgs,
            attributes: seq![AttributeV { key: "ica_callback_id"@, value: callback_name(HeadstashCallback::FundHeadstash) }],
            events: Seq::empty(),
        }),
        Err(FundRefusal::NoCoinMatch) => res matches Err(ContractError::NoCoinSentMatchesHeadstashParams),
        Err(FundRefusal::NoSnipAddr) => res matches Err(ContractError::NoSnipContractAddr),
    }
}

/// Transfers each sent coin over `channel_id` to its token's SNIP-120u
/// contract, timing out ten minutes after `block_time_nanos`; owner only.
#[verifier::loop_isolation(false)]
pub fn ibc_transfer_to_snip_contracts(
    store: &IcaOwnerStore,
    sender: String,
    block_time_nanos: u64,
    ica_id: u64,
    channel_id: String,
    funds: Vec<Coin>,
) -> (res: Result<Response, ContractError>)
    requires
        transfer_requirement(store, sender@, block_time_nanos, ica_id, funds.deep_view()),
    ensures
        transfer_outcome(store, sender, block_time_nanos, ica_id, channel_id, funds, res),
{
    if let Err(e) = assert_owner(&store.owner, &sender) {
        return Err(ContractError::OwnershipError(e));
    }
    let st = match store.ica_states.get(&ica_id) {
        Some(s) => s,
        None => return Err(ContractError::Std(StdError::NotFound(String::from_str("IcaContractState")))),
    };
    let ghost params = st.headstash_params.token_params.deep_view();
    let ghost all = funds.deep_view();
    let ghost coins = funds@;
    let ghost timeout = (block_time_nanos + 600 * 1_000_000_000) as u64;
    let n = funds.len();
    let mut rest = funds;
    let mut msgs: Vec<CosmosMsg> = Vec::new();
    let mut done: usize = 0;
    assert(all.subrange(0, n as int) =~= all);
    assert(msgs.deep_view() =~= Seq::<CosmosMsgV>::empty());
    while done < n
        invariant
            n == all.len(),
            n == coins.len(),
            all == coins.map_values(|c: Coin| c.deep_view()),
            done <= n,
            rest@ == coins.subrange(done as int, n as int),
            params == st.headstash_params.token_params.deep_view(),
            done > 0 ==> first_coin_transfers(params, all),
            first_coin_transfers(params, all) ==> block_time_nanos + 600 * 1_000_000_000 <= u64::MAX,
            timeout == (block_time_nanos + 600 * 1_000_000_000) as u64,
            fund_transfers(params, all, channel_id@, timeout) == match fund_transfers(
                params,
                all.subrange(done as int, n as int),
                channel_id@,
                timeout,
            ) {
                Ok(r) => Ok(msgs.deep_view() + r),
                Err(e) => Err(e),
            },
        decreases n - done,
    {
        let coin = rest.remove(0);
        let ghost sub = all.subrange(done as int, n as int);
        proof {
            assert(coin == coins[done as int]);
            assert(coin.deep_view() == sub[0]);
            assert(sub.drop_first() =~= all.subrange(done + 1, n as int));
            assert(rest@ =~= coins.subrange(done + 1, n as int));
            if done == 0 {
                assert(sub =~= all);
            }
        }
        let k = match find_native_index(&st.headstash_params.token_params, &coin.denom) {
            Some(k) => k,
            None => return Err(ContractError::NoCoinSentMatchesHeadstashParams),
        };
        let snip = match &st.headstash_params.token_params[k].snip_addr {
            Some(a) => a.clone(),
            None => return Err(ContractError::NoSnipContractAddr),
        };
        let msg = form_ibc_transfer_msg(block_time_nanos, 600, snip, channel_id.clone(), coin);
        let ghost prev = msgs.deep_view();
        msgs.push(msg);
        proof {
            assert(msgs.deep_view() =~= prev.push(msg.deep_view()));
            let tail = fund_transfers(params, all.subrange(done + 1, n as int), channel_id@, timeout);
            if let Ok(r) = tail {
                assert(prev + (seq![msg.deep_view()] + r) =~= msgs.deep_view() + r);
            }
        }
        done = done + 1;
    }
    let mut res = Response::new();
    res.messages = msgs;
    res.attributes.push(Attribute {
        key: String::from_str("ica_callback_id"),
        value: HeadstashCallback::FundHeadstash.as_string(),
    });
    proof {
        assert(all.subrange(n as int, n as int) =~= Seq::<CoinV>::empty());
        assert(msgs.deep_view() + Seq::<CosmosMsgV>::empty() =~= msgs.deep_view());
        assert(res.attributes.deep_view() =~= seq![AttributeV { key: "ica_callback_id"@, value: callback_name(HeadstashCallback::FundHeadstash) }]);
    }
    Ok(res)
}


/// How instantiating the circuit board through the ICA answered: one
/// message that makes the controller instantiate it.
pub open spec fn circuitboard_outcome(
    store: &IcaOwnerStore,
    sender: String,
    ica_id: u64,
    code_id: u64,
    init: crate::circuitboard::InstantiateMsg,
    res: Result<Response, ContractError>,
) -> bool {
    &&& !account_ok(store, sender@, ica_id) ==> (res matches Err(e) && account_refusal(store, sender@, ica_id, e))
    &&& account_ok(store, sender@, ica_id) ==> (res matches Ok(r) && r.deep_view() == (ResponseV {
        messages: seq![
            CosmosMsgV::IcaExecute {
                controller: store.icas()[ica_id].contract_addr@,
                messages: seq![
                    IcaMsgV::WasmInstantiate {
                        admin: None,
                        code_id,
                        label: headstash_label(),
                        msg: WasmInitMsgV::Circuitboard(init.deep_view()),
                    },
                ],
            },
        ],
        attributes: Seq::empty(),
        events: Seq::empty(),
    }))
}

/// Instantiates the headstash circuit board from code `code_id` with
/// `init`, through the ICA; owner only.
pub fn ica_instantiate_headstash_circuitboard(
    store: &IcaOwnerStore,
    sender: String,
    ica_id: u64,
    code_id: u64,
    init: crate::circuitboard::InstantiateMsg,
) -> (res: Result<Response, ContractError>)
    ensures
        circuitboard_outcome(store, sender, ica_id, code_id, init, res),
{
    let controller = match retrieve_ica_owner_account(store, &sender, ica_id) {
        Ok(c) => c,
        Err(e) => return Err(e),
    };
    let ghost init_v = init.deep_view();
    let msg = instantiate_secret_cw_ica_controller_msg(code_id, init);
    let mut msgs: Vec<IcaMsg> = Vec::new();
    msgs.push(msg);
    assert(msgs.deep_view() =~= seq![msg.deep_view()]);
    let m = send_msg_as_ica(msgs, controller);
    let mut res = Response::new();
    res.messages.push(m);
    assert(res.messages.deep_view() =~= seq![m.deep_view()]);
    Ok(res)
}

/// Refuses to renounce ownership; any other change of ownership may go on.
pub fn update_ownership(action: &OwnershipAction) -> (res: Result<(), ContractError>)
    ensures
        res is Ok <==> !(action is RenounceOwnership),
        res matches Err(e) ==> e is OwnershipCannotBeRenounced,
{
    match action {
        OwnershipAction::RenounceOwnership => Err(ContractError::OwnershipCannotBeRenounced),
        _ => Ok(()),
    }
}

/// What instantiating a new ICA controller takes: its future ICA id, code
/// id, label and salt, and this contract as its admin, owner and callback
/// receiver.
#[derive(Debug)]
pub struct IcaControllerPlan {
    pub ica_id: u64,
    pub code_id: u64,
    pub label: String,
    pub salt: String,
    pub admin: String,
}

/// The label of the ICA controller with the given id.
pub open spec fn controller_label(contract: Seq<char>, ica_id: u64) -> Seq<char> {
    "ica-controller-"@ + contract + "-"@ + decimal(ica_id as nat)
}

/// How planning a new ICA controller answered.
pub open spec fn plan_outcome(
    store: &IcaOwnerStore,
    sender: String,
    contract_address: String,
    block_seconds: u64,
    salt: Option<String>,
    res: Result<IcaControllerPlan, ContractError>,
) -> bool {
    &&& match owner_check(store.owner.deep_view(), sender@) {
        Err(o) => res matches Err(ContractError::OwnershipError(f)) && f == o,
        Ok(_) => match store.state {
            None => res matches Err(ContractError::Std(StdError::NotFound(_))),
            Some(st) => res matches Ok(p) && {
                &&& p.ica_id == store.count()
                &&& p.code_id == st.ica_controller_code_id
                &&& p.label@ == controller_label(contract_address@, store.count())
                &&& p.salt@ == match salt {
                    Some(x) => x@,
                    None => decimal(block_seconds as nat),
                }
                &&& p.admin@ == contract_address@
            },
        },
    }
}

/// Plans a new ICA controller, for the owner only: it gets the next ICA id,
/// the label `ica-controller-{contract}-{id}` and the given salt, else the
/// block time in seconds.
pub fn create_ica_contract(
    store: &IcaOwnerStore,
    sender: String,
    contract_address: String,
    block_seconds: u64,
    salt: Option<String>,
) -> (res: Result<IcaControllerPlan, ContractError>)
    ensures
        plan_outcome(store, sender, contract_address, block_seconds, salt, res),
{
    if let Err(e) = assert_owner(&store.owner, &sender) {
        return Err(ContractError::OwnershipError(e));
    }
    let st = match &store.state {
        Some(st) => st,
        None => return Err(ContractError::Std(StdError::NotFound(String::from_str("ContractState")))),
    };
    let ica_id = match store.ica_count {
        Some(c) => c,
        None => 0,
    };
    let salt = match salt {
        Some(x) => x,
        None => u64_to_decimal(block_seconds),
    };
    let id_str = u64_to_decimal(ica_id);
    let label = String::from_str("ica-controller-").concat(contract_address.as_str()).concat("-").concat(id_str.as_str());
    Ok(IcaControllerPlan { ica_id, code_id: st.ica_controller_code_id, label, salt, admin: contract_address })
}

/// `new` is `old` with the controller `contract_addr` recorded under the
/// id `id`, the current count, and the count advanced past it.
pub open spec fn registered(
    old: IcaOwnerStore,
    new: IcaOwnerStore,
    contract_addr: String,
    headstash_params: HeadstashParams,
    id: u64,
) -> bool {
    &&& id == old.count()
    &&& new.icas() == old.icas().insert(id, IcaContractState { contract_addr, ica_state: None, headstash_params })
    &&& new.ids() == old.ids().insert(contract_addr@, id)
    &&& new.ica_count == Some((id + 1) as u64)
    &&& new.owner == old.owner
    &&& new.state == old.state
}

/// Records a newly instantiated ICA controller under the next ICA id and
/// counts it; the id is returned.
pub fn register_ica_contract(store: &mut IcaOwnerStore, contract_addr: String, headstash_params: HeadstashParams) -> (res: u64)
    requires
        old(store).count() < u64::MAX,
    ensures
        registered(*old(store), *final(store), contract_addr, headstash_params, res),
{
    let ica_id = match store.ica_count {
        Some(c) => c,
        None => 0,
    };
    let initial_state = IcaContractState::new(contract_addr.clone(), headstash_params);
    store.ica_states.insert(ica_id, initial_state);
    store.addr_to_ica_id.insert(contract_addr, ica_id);
    store.ica_count = Some(ica_id + 1);
    ica_id
}


/// The outcome of an ICA packet.
#[derive(Debug)]
pub enum AckData {
    /// The host's answer: the JSON of a response.
    Result(Vec<u8>),
    /// The host's error.
    Error(String),
}

/// The callbacks that an ICA controller sends its owner.
#[derive(Debug)]
pub enum IcaControllerCallbackMsg {
    OnAcknowledgementPacketCallback { ica_acknowledgement: AckData },
    OnTimeoutPacketCallback {},
    OnChannelOpenAckCallback { channel: IbcChannel, ica_address: String, tx_encoding: TxEncoding },
}

/// The value of the first `ica_callback_id` attribute.
pub open spec fn callback_value(attrs: Seq<AttributeV>) -> Option<Seq<char>>
    decreases attrs.len(),
{
    if attrs.len() == 0 {
        None
    } else if attrs[0].key == "ica_callback_id"@ {
        Some(attrs[0].value)
    } else {
        callback_value(attrs.drop_first())
    }
}

/// The callback that an acknowledged response names, if any.
pub open spec fn ack_callback(r: AckResponseV) -> Option<HeadstashCallback> {
    match callback_value(r.attributes) {
        Some(v) => callback_of_name(v),
        None => None,
    }
}

/// The first event of the given type.
pub open spec fn first_event(events: Seq<EventV>, ty: Seq<char>) -> Option<EventV>
    decreases events.len(),
{
    if events.len() == 0 {
        None
    } else if events[0].ty == ty {
        Some(events[0])
    } else {
        first_event(events.drop_first(), ty)
    }
}

/// Every event of the given type carries an attribute.
pub open spec fn events_have_attribute(events: Seq<EventV>, ty: Seq<char>) -> bool {
    forall|i: int| 0 <= i < events.len() && (#[trigger] events[i]).ty == ty ==> events[i].attributes.len() >= 1
}

/// The acknowledged response carries the event attributes that its
/// callback reads.
pub open spec fn ack_complete(st: IcaContractState, r: AckResponseV) -> bool {
    match ack_callback(r) {
        Some(HeadstashCallback::UploadHeadstash) => first_event(r.events, "store_code"@) matches Some(e)
            ==> e.attributes.len() >= 2,
        Some(HeadstashCallback::InstantiateHeadstash) => first_event(r.events, "instantiate"@) matches Some(e)
            ==> e.attributes.len() >= 1,
        Some(HeadstashCallback::InstantiateSnip120us) => {
            &&& events_have_attribute(r.events, "instantiate"@)
        },
        _ => true,
    }
}

/// `new` is `old` with the uploaded headstash code recorded.
pub open spec fn with_headstash_code(
    old: IcaContractState,
    new: IcaContractState,
    code_id: u64,
    checksum: Seq<char>,
) -> bool {
    &&& new.contract_addr == old.contract_addr
    &&& new.ica_state == old.ica_state
    &&& new.headstash_params.snip120u_code_id == old.headstash_params.snip120u_code_id
    &&& new.headstash_params.token_params == old.headstash_params.token_params
    &&& new.headstash_params.headstash == old.headstash_params.headstash
    &&& new.headstash_params.headstash_code_id == Some(code_id)
    &&& new.headstash_params.snip120u_code_hash@ == checksum
}

/// `new` is `old` with the headstash contract's address recorded.
pub open spec fn with_headstash_addr(
    old: IcaContractState,
    new: IcaContractState,
    addr: Seq<char>,
) -> bool {
    &&& new.contract_addr == old.contract_addr
    &&& new.ica_state == old.ica_state
    &&& new.headstash_params.snip120u_code_id == old.headstash_params.snip120u_code_id
    &&& new.headstash_params.snip120u_code_hash == old.headstash_params.snip120u_code_hash
    &&& new.headstash_params.token_params == old.headstash_params.token_params
    &&& new.headstash_params.headstash_code_id == old.headstash_params.headstash_code_id
    &&& new.headstash_params.headstash.deep_view() == Some(addr)
}

/// The first attribute value of each `instantiate` event, in order: the
/// addresses of the contracts that a step instantiated.
pub open spec fn instantiated_addrs(events: Seq<EventV>) -> Seq<Seq<char>>
    decreases events.len(),
{
    if events.len() == 0 {
        Seq::empty()
    } else {
        let rest = instantiated_addrs(events.drop_last());
        if events.last().ty == "instantiate"@ {
            rest.push(events.last().attributes[0].value)
        } else {
            rest
        }
    }
}

/// The addresses of a prefix of the events are followed by those of the
/// rest.
pub proof fn lemma_instantiated_addrs_split(events: Seq<EventV>, i: int)
    requires
        0 <= i <= events.len(),
    ensures
        instantiated_addrs(events) == instantiated_addrs(events.subrange(0, i)) + instantiated_addrs(
            events.subrange(i, events.len() as int),
        ),
    decreases events.len(),
{
    if i == events.len() {
        assert(events.subrange(0, i) =~= events);
        assert(events.subrange(i, events.len() as int) =~= Seq::<EventV>::empty());
        assert(instantiated_addrs(events) + Seq::<Seq<char>>::empty() =~= instantiated_addrs(events));
    } else {
        let t = events.drop_last();
        lemma_instantiated_addrs_split(t, i);
        assert(events.subrange(0, i) =~= t.subrange(0, i));
        let tail = events.subrange(i, events.len() as int);
        assert(tail.drop_last() =~= t.subrange(i, t.len() as int));
        assert(tail.last() == events.last());
        let a = instantiated_addrs(t.subrange(0, i));
        let b = instantiated_addrs(t.subrange(i, t.len() as int));
        if events.last().ty == "instantiate"@ {
            assert((a + b).push(events.last().attributes[0].value) =~= a + b.push(events.last().attributes[0].value));
        }
    }
}

/// The token with `addr` as its SNIP-120u contract.
pub open spec fn with_snip_addr(t: HeadstashTokenParamsV, addr: Seq<char>) -> HeadstashTokenParamsV {
    HeadstashTokenParamsV { name: t.name, symbol: t.symbol, native: t.native, ibc: t.ibc, snip_addr: Some(addr) }
}

/// `new` is `old` with the i-th address as the SNIP-120u contract of its
/// i-th token, for each address; later tokens are kept.
pub open spec fn with_snips(old: IcaContractState, new: IcaContractState, addrs: Seq<Seq<char>>) -> bool {
    let t = old.headstash_params.token_params.deep_view();
    let u = new.headstash_params.token_params.deep_view();
    &&& new.contract_addr == old.contract_addr
    &&& new.ica_state == old.ica_state
    &&& new.headstash_params.snip120u_code_id == old.headstash_params.snip120u_code_id
    &&& new.headstash_params.snip120u_code_hash == old.headstash_params.snip120u_code_hash
    &&& new.headstash_params.headstash_code_id == old.headstash_params.headstash_code_id
    &&& new.headstash_params.headstash == old.headstash_params.headstash
    &&& u.len() == t.len()
    &&& forall|m: int|
        0 <= m < t.len() ==> #[trigger] u[m] == if m < addrs.len() {
            with_snip_addr(t[m], addrs[m])
        } else {
            t[m]
        }
}

/// The store is `old` but for the ICA state under `ica_id`.
pub open spec fn only_ica_changed(old: IcaOwnerStore, new: IcaOwnerStore, ica_id: u64) -> bool {
    &&& new.owner == old.owner
    &&& new.state == old.state
    &&& new.ids() == old.ids()
    &&& new.ica_count == old.ica_count
    &&& new.icas().contains_key(ica_id)
    &&& new.icas() == old.icas().insert(ica_id, new.icas()[ica_id])
}

/// What an acknowledged response does to the ICA state `st` under
/// `ica_id`: the step it answers records the uploaded code, the headstash
/// address or each SNIP-120u address; a response that names no known
/// step is refused.
pub open spec fn ack_applied(
    old: IcaOwnerStore,
    new: IcaOwnerStore,
    ica_id: u64,
    st: IcaContractState,
    r: AckResponseV,
    res: Result<Response, ContractError>,
) -> bool {
    match ack_callback(r) {
        None => res matches Err(ContractError::CallbackError) && new == old,
        Some(HeadstashCallback::UploadHeadstash) => match first_event(r.events, "store_code"@) {
            None => res matches Ok(x) && x.deep_view() == empty_response() && new == old,
            Some(e) => match parse_decimal_u64(e.attributes[1].value) {
                None => res matches Err(ContractError::Std(StdError::ParseErr(_))) && new == old,
                Some(code_id) => {
                    &&& res matches Ok(x) && x.deep_view() == empty_response()
                    &&& only_ica_changed(old, new, ica_id)
                    &&& with_headstash_code(st, new.icas()[ica_id], code_id, e.attributes[0].value)
                },
            },
        },
        Some(HeadstashCallback::InstantiateHeadstash) => match first_event(r.events, "instantiate"@) {
            None => res matches Ok(x) && x.deep_view() == empty_response() && new == old,
            Some(e) => {
                &&& res matches Ok(x) && x.deep_view() == empty_response()
                &&& only_ica_changed(old, new, ica_id)
                &&& with_headstash_addr(st, new.icas()[ica_id], e.attributes[0].value)
            },
        },
        Some(HeadstashCallback::InstantiateSnip120us) => {
            &&& res matches Ok(x) && x.deep_view() == empty_response()
            &&& only_ica_changed(old, new, ica_id)
            &&& with_snips(st, new.icas()[ica_id], instantiated_addrs(r.events))
        },
        Some(_) => res matches Ok(x) && x.deep_view() == empty_response() && new == old,
    }
}


fn find_callback_value(attrs: &Vec<Attribute>) -> (res: Option<usize>)
    ensures
        match res {
            Some(i) => i < attrs@.len() && callback_value(attrs.deep_view()) == Some(attrs@[i as int].value@),
            None => callback_value(attrs.deep_view()) is None,
        },
{
    let ghost all = attrs.deep_view();
    let n = attrs.len();
    let mut i: usize = 0;
    assert(all.subrange(0, n as int) =~= all);
    while i < n
        invariant
            n == attrs@.len(),
            all == attrs.deep_view(),
            i <= n,
            callback_value(all) == callback_value(all.subrange(i as int, n as int)),
        decreases n - i,
    {
        assert(all.subrange(i as int, n as int)[0] == all[i as int]);
        if str_equal(attrs[i].key.as_str(), "ica_callback_id") {
            return Some(i);
        }
        assert(all.subrange(i as int, n as int).drop_first() =~= all.subrange(i + 1, n as int));
        i = i + 1;
    }
    None
}

fn find_first_event(events: &Vec<crate::msg::Event>, ty: &str) -> (res: Option<usize>)
    ensures
        match res {
            Some(i) => i < events@.len() && first_event(events.deep_view(), ty@) == Some(events.deep_view()[i as int])
                && events.deep_view()[i as int].ty == ty@,
            None => first_event(events.deep_view(), ty@) is None,
        },
{
    let ghost all = events.deep_view();
    let n = events.len();
    let mut i: usize = 0;
    assert(all.subrange(0, n as int) =~= all);
    while i < n
        invariant
            n == events@.len(),
            all == events.deep_view(),
            i <= n,
            first_event(all, ty@) == first_event(all.subrange(i as int, n as int), ty@),
        decreases n - i,
    {
        assert(all.subrange(i as int, n as int)[0] == all[i as int]);
        if str_equal(events[i].ty.as_str(), ty) {
            return Some(i);
        }
        assert(all.subrange(i as int, n as int).drop_first() =~= all.subrange(i + 1, n as int));
        i = i + 1;
    }
    None
}

fn events_have_attribute_exec(events: &Vec<crate::msg::Event>, ty: &str) -> (res: bool)
    ensures
        res == events_have_attribute(events.deep_view(), ty@),
{
    let mut i: usize = 0;
    while i < events.len()
        invariant
            i <= events@.len(),
            forall|j: int| 0 <= j < i && (#[trigger] events.deep_view()[j]).ty == ty@ ==> events.deep_view()[j].attributes.len() >= 1,
        decreases events@.len() - i,
    {
        if str_equal(events[i].ty.as_str(), ty) && events[i].attributes.len() == 0 {
            assert(events.deep_view()[i as int].attributes.len() == 0);
            return false;
        }
        i = i + 1;
    }
    true
}

/// Whether the acknowledged response carries the event attributes that its
/// callback reads.
pub fn ack_is_complete(st: &IcaContractState, r: &AckResponse) -> (res: bool)
    ensures
        res == ack_complete(*st, r.deep_view()),
{
    let cb = match find_callback_value(&r.attributes) {
        Some(i) => HeadstashCallback::from_name(r.attributes[i].value.as_str()),
        None => None,
    };
    match cb {
        Some(HeadstashCallback::UploadHeadstash) => match find_first_event(&r.events, "store_code") {
            Some(k) => r.events[k].attributes.len() >= 2,
            None => true,
        },
        Some(HeadstashCallback::InstantiateHeadstash) => match find_first_event(&r.events, "instantiate") {
            Some(k) => r.events[k].attributes.len() >= 1,
            None => true,
        },
        Some(HeadstashCallback::InstantiateSnip120us) => {
            events_have_attribute_exec(&r.events, "instantiate")
        },
        _ => true,
    }
}

/// Applies an acknowledged response to the ICA state under `ica_id`.
pub fn apply_ack_response(store: &mut IcaOwnerStore, ica_id: u64, r: &AckResponse) -> (res: Result<Response, ContractError>)
    requires
        old(store).icas().contains_key(ica_id),
        ack_complete(old(store).icas()[ica_id], r.deep_view()),
    ensures
        ack_applied(*old(store), *final(store), ica_id, old(store).icas()[ica_id], r.deep_view(), res),
{
    let ghost st = store.icas()[ica_id];
    let cb = match find_callback_value(&r.attributes) {
        Some(i) => HeadstashCallback::from_name(r.attributes[i].value.as_str()),
        None => None,
    };
    let cb = match cb {
        Some(c) => c,
        None => return Err(ContractError::CallbackError),
    };
    match cb {
        HeadstashCallback::UploadHeadstash => {
            let k = match find_first_event(&r.events, "store_code") {
                Some(k) => k,
                None => return Ok(Response::new()),
            };
            let ev = &r.events[k];
            assert(ev.attributes.deep_view()[1] == ev.attributes@[1].deep_view());
            assert(ev.attributes.deep_view()[0] == ev.attributes@[0].deep_view());
            let code_id = match parse_u64_decimal(ev.attributes[1].value.as_str()) {
                Some(c) => c,
                None => return Err(ContractError::Std(StdError::ParseErr(String::from_str("u64")))),
            };
            let checksum = ev.attributes[0].value.clone();
            let mut entry = match store.ica_states.take(&ica_id) {
                Some(e) => e,
                None => return Err(ContractError::Std(StdError::NotFound(String::from_str("IcaContractState")))),
            };
            entry.headstash_params.headstash_code_id = Some(code_id);
            entry.headstash_params.snip120u_code_hash = checksum;
            let ghost new_entry = entry;
            store.ica_states.insert(ica_id, entry);
            assert(store.icas() =~= old(store).icas().insert(ica_id, new_entry));
            assert(only_ica_changed(*old(store), *store, ica_id));
            assert(with_headstash_code(st, store.icas()[ica_id], code_id, ev.attributes@[0].value@));
            Ok(Response::new())
        },
        HeadstashCallback::InstantiateHeadstash => {
            let k = match find_first_event(&r.events, "instantiate") {
                Some(k) => k,
                None => return Ok(Response::new()),
            };
            assert(r.events[k as int].attributes.deep_view()[0] == r.events[k as int].attributes@[0].deep_view());
            let addr = r.events[k].attributes[0].value.clone();
            let mut entry = match store.ica_states.take(&ica_id) {
                Some(e) => e,
                None => return Err(ContractError::Std(StdError::NotFound(String::from_str("IcaContractState")))),
            };
            entry.headstash_params.headstash = Some(addr);
            let ghost new_entry = entry;
            store.ica_states.insert(ica_id, entry);
            assert(store.icas() =~= old(store).icas().insert(ica_id, new_entry));
            assert(only_ica_changed(*old(store), *store, ica_id));
            Ok(Response::new())
        },
        HeadstashCallback::InstantiateSnip120us => {
            let mut entry = match store.ica_states.take(&ica_id) {
                Some(e) => e,
                None => return Err(ContractError::Std(StdError::NotFound(String::from_str("IcaContractState")))),
            };
            let ghost all = r.events.deep_view();
            let ghost t = st.headstash_params.token_params.deep_view();
            let n = r.events.len();
            let mut i: usize = 0;
            let mut j: usize = 0;
            assert(all.subrange(0, 0) =~= Seq::<EventV>::empty());
            while i < n
                invariant
                    n == r.events@.len(),
                    all == r.events.deep_view(),
                    i <= n,
                    j == instantiated_addrs(all.subrange(0, i as int)).len(),
                    j <= i,
                    events_have_attribute(all, "instantiate"@),
                    t == st.headstash_params.token_params.deep_view(),
                    entry.contract_addr == st.contract_addr,
                    entry.ica_state == st.ica_state,
                    entry.headstash_params.snip120u_code_id == st.headstash_params.snip120u_code_id,
                    entry.headstash_params.snip120u_code_hash == st.headstash_params.snip120u_code_hash,
                    entry.headstash_params.headstash_code_id == st.headstash_params.headstash_code_id,
                    entry.headstash_params.headstash == st.headstash_params.headstash,
                    entry.headstash_params.token_params.deep_view().len() == t.len(),
                    forall|m: int|
                        0 <= m < t.len() ==> #[trigger] entry.headstash_params.token_params.deep_view()[m] == if m
                            < j {
                            with_snip_addr(t[m], instantiated_addrs(all.subrange(0, i as int))[m])
                        } else {
                            t[m]
                        },
                decreases n - i,
            {
                let ghost prev = instantiated_addrs(all.subrange(0, i as int));
                proof {
                    assert(all.subrange(0, i + 1).drop_last() =~= all.subrange(0, i as int));
                    assert(all.subrange(0, i + 1).last() == all[i as int]);
                    lemma_instantiated_addrs_split(all, i + 1);
                }
                if str_equal(r.events[i].ty.as_str(), "instantiate") {
                    assert(all[i as int].ty == "instantiate"@);
                    assert(all[i as int].attributes.len() >= 1);
                    assert(instantiated_addrs(all.subrange(0, i + 1)) == prev.push(all[i as int].attributes[0].value));
                    assert(r.events[i as int].attributes.deep_view()[0] == r.events[i as int].attributes@[0].deep_view());
                    let addr = r.events[i].attributes[0].value.clone();
                    let ghost before = entry.headstash_params.token_params.deep_view();
                    let ghost before_raw = entry.headstash_params.token_params@;
                    if j < entry.headstash_params.token_params.len() {
                        entry.headstash_params.token_params[j].snip_addr = Some(addr);
                    }
                    proof {
                        let after = entry.headstash_params.token_params.deep_view();
                        assert(entry.headstash_params.token_params@.len() == before_raw.len());
                        assert forall|m: int| 0 <= m < t.len() implies #[trigger] after[m] == if m < j + 1 {
                            with_snip_addr(t[m], prev.push(addr@)[m])
                        } else {
                            t[m]
                        } by {
                            if m != j {
                                assert(entry.headstash_params.token_params@[m] == before_raw[m]);
                                assert(after[m] == before[m]);
                            } else {
                                assert(before[m] == t[m]);
                                assert(after[m] == with_snip_addr(t[m], addr@));
                            }
                        }
                    }
                    j = j + 1;
                }
                i = i + 1;
            }
            assert(all.subrange(0, n as int) =~= all);
            let ghost new_entry = entry;
            store.ica_states.insert(ica_id, entry);
            assert(store.icas() =~= old(store).icas().insert(ica_id, new_entry));
            assert(only_ica_changed(*old(store), *store, ica_id));
            assert(with_snips(st, store.icas()[ica_id], instantiated_addrs(all)));
            Ok(Response::new())
        },
        _ => {
            assert(ack_callback(r.deep_view()) == Some(cb));
            Ok(Response::new())
        },
    }
}

/// What handling a callback from `sender` does: an unknown controller, or
/// one whose ICA state is missing, is refused with `NotFound`; an open
/// channel records the ICA; an acknowledged response completes the step it
/// answers (refused with `CallbackAborted` where it lacks the event
/// attributes that its step reads); an error or a timeout changes nothing.
pub open spec fn callback_handled(
    old: IcaOwnerStore,
    new: IcaOwnerStore,
    sender: Seq<char>,
    callback_msg: IcaControllerCallbackMsg,
    res: Result<Response, ContractError>,
) -> bool {
    if !old.ids().contains_key(sender) || !old.icas().contains_key(old.ids()[sender]) {
        res matches Err(ContractError::Std(StdError::NotFound(_))) && new == old
    } else {
        let ica_id = old.ids()[sender];
        let st = old.icas()[ica_id];
        match callback_msg {
            IcaControllerCallbackMsg::OnAcknowledgementPacketCallback {
                ica_acknowledgement: AckData::Result(bytes),
            } => match response_of_json(bytes@) {
                None => res matches Err(ContractError::Std(StdError::ParseErr(_))) && new == old,
                Some(r) => if ack_complete(st, r) {
                    ack_applied(old, new, ica_id, st, r, res)
                } else {
                    res matches Err(ContractError::CallbackAborted) && new == old
                },
            },
            IcaControllerCallbackMsg::OnChannelOpenAckCallback { channel, ica_address, tx_encoding } => {
                &&& res matches Ok(x) && x.deep_view() == empty_response()
                &&& only_ica_changed(old, new, ica_id)
                &&& new.icas()[ica_id] == (IcaContractState {
                    contract_addr: st.contract_addr,
                    ica_state: Some(
                        IcaState {
                            ica_id,
                            ica_addr: ica_address,
                            tx_encoding,
                            channel_state: ChannelState { channel, channel_status: ChannelStatus::Open },
                        },
                    ),
                    headstash_params: st.headstash_params,
                })
            },
            _ => res matches Ok(x) && x.deep_view() == empty_response() && new == old,
        }
    }
}

/// Handles a callback of an ICA controller: the sender must be a recorded
/// controller. An open channel records the ICA; an acknowledged response
/// completes the step it answers; errors and timeouts change nothing.
pub fn ica_callback_handler(
    store: &mut IcaOwnerStore,
    sender: String,
    callback_msg: IcaControllerCallbackMsg,
) -> (res: Result<Response, ContractError>)
    ensures
        callback_handled(*old(store), *final(store), sender@, callback_msg, res),
{
    let ica_id = match store.addr_to_ica_id.get(&sender) {
        Some(i) => *i,
        None => return Err(ContractError::Std(StdError::NotFound(String::from_str("u64")))),
    };
    if !store.ica_states.contains(&ica_id) {
        return Err(ContractError::Std(StdError::NotFound(String::from_str("IcaContractState"))));
    }
    match callback_msg {
        IcaControllerCallbackMsg::OnAcknowledgementPacketCallback { ica_acknowledgement } => match ica_acknowledgement {
            AckData::Result(bytes) => {
                let r = match parse_response_json(bytes.as_slice()) {
                    Some(r) => r,
                    None => return Err(ContractError::Std(StdError::ParseErr(String::from_str("Response")))),
                };
                let complete = match store.ica_states.get(&ica_id) {
                    Some(st) => ack_is_complete(st, &r),
                    None => false,
                };
                if !complete {
                    return Err(ContractError::CallbackAborted);
                }
                apply_ack_response(store, ica_id, &r)
            },
            AckData::Error(_) => Ok(Response::new()),
        },
        IcaControllerCallbackMsg::OnTimeoutPacketCallback {} => Ok(Response::new()),
        IcaControllerCallbackMsg::OnChannelOpenAckCallback { channel, ica_address, tx_encoding } => {
            let st = match store.ica_states.take(&ica_id) {
                Some(e) => e,
                None => return Err(ContractError::Std(StdError::NotFound(String::from_str("IcaContractState")))),
            };
            let entry = IcaContractState {
                contract_addr: st.contract_addr,
                ica_state: Some(
                    IcaState::new(
                        ica_id,
                        ica_address,
                        tx_encoding,
                        ChannelState { channel, channel_status: ChannelStatus::Open },
                    ),
                ),
                headstash_params: st.headstash_params,
            };
            let ghost new_entry = entry;
            store.ica_states.insert(ica_id, entry);
            assert(store.icas() =~= old(store).icas().insert(ica_id, new_entry));
            Ok(Response::new())
        },
    }
}


/// The execute messages of the ICA owner.
#[derive(Debug)]
pub enum ExecuteMsg {
    CreateIcaContract {
        salt: Option<String>,
        channel_open_init_options: ChannelOpenInitOptions,
        headstash_params: HeadstashParams,
    },
    /// 1. Upload a shipped contract's code.
    UploadContractOnSecret { ica_id: u64, wasm: String },
    ReceiveIcaCallback(IcaControllerCallbackMsg),
    /// 2. Instantiate the secret headstash contract on Secret Network.
    InstantiateHeadstash { ica_id: u64, start_date: u64, total: u128 },
    /// 3. Instantiate a SNIP-120u contract for the given tokens.
    InstantiateSnip120u { ica_id: u64, tokens: Vec<HeadstashTokenParams> },
    /// 4. Authorize the headstash contract as a minter of the SNIP-120u contracts.
    AuthorizeMinter { ica_id: u64 },
    /// 5. Transfer each sent token over ICS-20.
    IBCTransferTokens { ica_id: u64, channel_id: String },
    /// 6. Add eligible addresses to the headstash.
    AddHeadstashClaimers { ica_id: u64, to_add: Vec<Headstash> },
    /// 7. Grant fee allowances; `owner`, where given, is the owner to act
    /// for, as its address validation came out.
    AuthorizeFeegrant { ica_id: u64, to_grant: Vec<String>, owner: Option<Result<String, StdError>> },
    UpdateOwnership(OwnershipAction),
    /// Instantiate the headstash circuit board from code `code_id`.
    InstantiateSecretHeadstashCircuitboard { ica_id: u64, code_id: u64, init: crate::circuitboard::InstantiateMsg },
}

/// What the chain tells an execute call besides its message.
#[derive(Debug)]
pub struct ExecEnv {
    /// The sender of the message.
    pub sender: String,
    /// The address of this contract.
    pub contract_address: String,
    /// The block time, in nanoseconds.
    pub block_time_nanos: u64,
    /// The coins sent with the message.
    pub funds: Vec<Coin>,
}

/// What an execute message comes to.
#[derive(Debug)]
pub enum ExecuteStep {
    /// The answer to the message.
    Answer(Result<Response, ContractError>),
    /// Instantiate the planned ICA controller with these options and
    /// parameters, then record it with `register_ica_contract`.
    InstantiateController {
        plan: IcaControllerPlan,
        channel_open_init_options: ChannelOpenInitOptions,
        headstash_params: HeadstashParams,
    },
    /// Apply this change of ownership, then answer with an empty response.
    UpdateOwnership(OwnershipAction),
}

/// What an execute message of a given kind needs of the store and the chain.
pub open spec fn execute_requirement(store: &IcaOwnerStore, env: ExecEnv, msg: ExecuteMsg) -> bool {
    match msg {
        ExecuteMsg::AuthorizeMinter { ica_id } => minter_requirement(store, env.sender@, ica_id),
        ExecuteMsg::InstantiateHeadstash { ica_id, .. } => headstash_instantiation_requirement(
            store,
            env.sender@,
            env.block_time_nanos,
            ica_id,
        ),
        ExecuteMsg::IBCTransferTokens { ica_id, .. } => transfer_requirement(
            store,
            env.sender@,
            env.block_time_nanos,
            ica_id,
            env.funds.deep_view(),
        ),
        _ => true,
    }
}

/// The block time in whole seconds.
pub open spec fn block_seconds(env: ExecEnv) -> u64 {
    (env.block_time_nanos / 1_000_000_000) as u64
}

/// How an execute message that leaves the store as it is came out.
pub open spec fn executed(store: &IcaOwnerStore, env: ExecEnv, msg: ExecuteMsg, blobs: &WasmBlobs, res: ExecuteStep) -> bool {
    match msg {
        ExecuteMsg::CreateIcaContract { salt, channel_open_init_options, headstash_params } => match res {
            ExecuteStep::Answer(Err(e)) => plan_outcome(
                store,
                env.sender,
                env.contract_address,
                block_seconds(env),
                salt,
                Err(e),
            ),
            ExecuteStep::InstantiateController { plan, channel_open_init_options: c, headstash_params: h } => {
                &&& plan_outcome(store, env.sender, env.contract_address, block_seconds(env), salt, Ok(plan))
                &&& c == channel_open_init_options
                &&& h == headstash_params
            },
            _ => false,
        },
        ExecuteMsg::UpdateOwnership(action) => match action {
            OwnershipAction::RenounceOwnership => res matches ExecuteStep::Answer(
                Err(ContractError::OwnershipCannotBeRenounced),
            ),
            _ => res == ExecuteStep::UpdateOwnership(action),
        },
        ExecuteMsg::UploadContractOnSecret { ica_id, wasm } => res matches ExecuteStep::Answer(r)
            && upload_outcome(store, env.sender, ica_id, wasm, blobs, r),
        ExecuteMsg::InstantiateHeadstash { ica_id, start_date, total } => res matches ExecuteStep::Answer(r)
            && headstash_instantiation_outcome(store, env.sender, env.block_time_nanos, ica_id, start_date, total, r),
        ExecuteMsg::InstantiateSnip120u { ica_id, tokens } => res matches ExecuteStep::Answer(r)
            && snip120us_outcome(store, env.sender, ica_id, tokens, r),
        ExecuteMsg::AuthorizeMinter { ica_id } => res matches ExecuteStep::Answer(r) && minter_outcome(
            store,
            env.sender,
            ica_id,
            r,
        ),
        ExecuteMsg::IBCTransferTokens { ica_id, channel_id } => res matches ExecuteStep::Answer(r)
            && transfer_outcome(store, env.sender, env.block_time_nanos, ica_id, channel_id, env.funds, r),
        ExecuteMsg::AddHeadstashClaimers { ica_id, to_add } => res matches ExecuteStep::Answer(r)
            && add_claimers_outcome(store, env.sender, ica_id, to_add, r),
        ExecuteMsg::AuthorizeFeegrant { ica_id, to_grant, owner } => res matches ExecuteStep::Answer(r)
            && feegrant_outcome(store, env.sender, ica_id, to_grant, owner, r),
        ExecuteMsg::InstantiateSecretHeadstashCircuitboard { ica_id, code_id, init } => res matches ExecuteStep::Answer(
            r,
        ) && circuitboard_outcome(store, env.sender, ica_id, code_id, init, r),
        ExecuteMsg::ReceiveIcaCallback(_) => false,
    }
}

/// How an execute message came out: a callback goes through the callback
/// handler; every other message leaves the store as it is.
pub open spec fn execute_outcome(
    before: IcaOwnerStore,
    after: IcaOwnerStore,
    env: ExecEnv,
    msg: ExecuteMsg,
    blobs: WasmBlobs,
    res: ExecuteStep,
) -> bool {
    match msg {
        ExecuteMsg::ReceiveIcaCallback(cb) => res matches ExecuteStep::Answer(r) && callback_handled(
            before,
            after,
            env.sender@,
            cb,
            r,
        ),
        _ => after == before && executed(&before, env, msg, &blobs, res),
    }
}

/// Runs an execute message: a callback goes to the callback handler, which
/// may update the store; every other message leaves the store as it is and
/// goes to its step's handler, except that a new ICA controller and a change
/// of ownership come back as steps for the caller to carry out.
pub fn execute(store: &mut IcaOwnerStore, env: ExecEnv, msg: ExecuteMsg, blobs: &WasmBlobs) -> (res: ExecuteStep)
    requires
        execute_requirement(&*old(store), env, msg),
    ensures
        execute_outcome(*old(store), *final(store), env, msg, *blobs, res),
{
    let ExecEnv { sender, contract_address, block_time_nanos, funds } = env;
    match msg {
        ExecuteMsg::CreateIcaContract { salt, channel_open_init_options, headstash_params } => {
            match create_ica_contract(store, sender, contract_address, block_time_nanos / 1_000_000_000, salt) {
                Ok(plan) => ExecuteStep::InstantiateController { plan, channel_open_init_options, headstash_params },
                Err(e) => ExecuteStep::Answer(Err(e)),
            }
        },
        ExecuteMsg::UploadContractOnSecret { ica_id, wasm } => ExecuteStep::Answer(
            ica_upload_contract_on_secret(store, sender, ica_id, wasm, blobs),
        ),
        ExecuteMsg::ReceiveIcaCallback(cb) => ExecuteStep::Answer(ica_callback_handler(store, sender, cb)),
        ExecuteMsg::InstantiateHeadstash { ica_id, start_date, total } => ExecuteStep::Answer(
            ica_instantiate_headstash_contract(store, sender, block_time_nanos, ica_id, start_date, total),
        ),
        ExecuteMsg::InstantiateSnip120u { ica_id, tokens } => ExecuteStep::Answer(
            ica_instantiate_terp_network_snip120us(store, sender, ica_id, tokens),
        ),
        ExecuteMsg::AuthorizeMinter { ica_id } => ExecuteStep::Answer(
            ica_authorize_snip120u_minter(store, sender, ica_id),
        ),
        ExecuteMsg::IBCTransferTokens { ica_id, channel_id } => ExecuteStep::Answer(
            ibc_transfer_to_snip_contracts(store, sender, block_time_nanos, ica_id, channel_id, funds),
        ),
        ExecuteMsg::AddHeadstashClaimers { ica_id, to_add } => ExecuteStep::Answer(
            ica_add_headstash_claimers(store, sender, ica_id, to_add),
        ),
        ExecuteMsg::AuthorizeFeegrant { ica_id, to_grant, owner } => ExecuteStep::Answer(
            ica_authorize_feegrant(store, sender, ica_id, to_grant, owner),
        ),
        ExecuteMsg::UpdateOwnership(action) => match update_ownership(&action) {
            Ok(()) => ExecuteStep::UpdateOwnership(action),
            Err(e) => ExecuteStep::Answer(Err(e)),
        },
        ExecuteMsg::InstantiateSecretHeadstashCircuitboard { ica_id, code_id, init } => ExecuteStep::Answer(
            ica_instantiate_headstash_circuitboard(store, sender, ica_id, code_id, init),
        ),
    }
}

/// The registry is consistent: the ICA ids are exactly those below the
/// count, and ids and controller addresses lead to each other one to one.
pub open spec fn registry_consistent(s: IcaOwnerStore) -> bool {
    &&& forall|a: Seq<char>| #[trigger] s.ids().contains_key(a) ==> s.icas().contains_key(s.ids()[a])
        && s.icas()[s.ids()[a]].contract_addr@ == a
    &&& forall|id: u64| #[trigger] s.icas().contains_key(id) <==> id < s.count()
    &&& forall|id: u64| #[trigger] s.icas().contains_key(id) ==> s.ids().contains_key(s.icas()[id].contract_addr@)
        && s.ids()[s.icas()[id].contract_addr@] == id
}

/// A store with no ICA recorded, as instantiation leaves it, is consistent.
pub proof fn lemma_empty_registry_consistent(s: IcaOwnerStore)
    requires
        s.icas() == Map::<u64, IcaContractState>::empty(),
        s.ids() == Map::<Seq<char>, u64>::empty(),
        s.ica_count is None,
    ensures
        registry_consistent(s),
{
}

/// Recording a new ICA controller at an address not yet recorded keeps the
/// registry consistent, and the controller's id is fresh: no ICA state was
/// recorded under it before.
pub proof fn lemma_register_keeps_registry(
    old: IcaOwnerStore,
    new: IcaOwnerStore,
    contract_addr: String,
    headstash_params: HeadstashParams,
    id: u64,
)
    requires
        registry_consistent(old),
        old.count() < u64::MAX,
        !old.ids().contains_key(contract_addr@),
        registered(old, new, contract_addr, headstash_params, id),
    ensures
        registry_consistent(new),
        !old.icas().contains_key(id),
        new.count() == id + 1,
{
    assert forall|a: Seq<char>| #[trigger] new.ids().contains_key(a) implies new.icas().contains_key(new.ids()[a])
        && new.icas()[new.ids()[a]].contract_addr@ == a by {
        if a != contract_addr@ {
            assert(old.ids().contains_key(a));
            assert(old.ids()[a] < old.count());
        }
    }
    assert forall|i: u64| #[trigger] new.icas().contains_key(i) <==> i < new.count() by {
        if i < old.count() {
            assert(old.icas().contains_key(i));
        }
    }
    assert forall|i: u64| #[trigger] new.icas().contains_key(i) implies new.ids().contains_key(
        new.icas()[i].contract_addr@,
    ) && new.ids()[new.icas()[i].contract_addr@] == i by {
        if i != id {
            assert(old.icas().contains_key(i));
            assert(old.ids().contains_key(old.icas()[i].contract_addr@));
            assert(old.icas()[i].contract_addr@ != contract_addr@);
        }
    }
}

proof fn lemma_entry_update_keeps_registry(old: IcaOwnerStore, new: IcaOwnerStore, id: u64)
    requires
        registry_consistent(old),
        old.icas().contains_key(id),
        only_ica_changed(old, new, id),
        new.icas()[id].contract_addr == old.icas()[id].contract_addr,
    ensures
        registry_consistent(new),
{
    assert forall|a: Seq<char>| #[trigger] new.ids().contains_key(a) implies new.icas().contains_key(new.ids()[a])
        && new.icas()[new.ids()[a]].contract_addr@ == a by {
        assert(old.ids().contains_key(a));
    }
    assert forall|i: u64| #[trigger] new.icas().contains_key(i) <==> i < new.count() by {
        assert(old.icas().contains_key(i) <==> i < old.count());
    }
    assert forall|i: u64| #[trigger] new.icas().contains_key(i) implies new.ids().contains_key(
        new.icas()[i].contract_addr@,
    ) && new.ids()[new.icas()[i].contract_addr@] == i by {
        assert(old.icas().contains_key(i));
    }
}

/// Every callback keeps the registry consistent: no callback moves a
/// controller or records an ICA under a new id.
pub proof fn lemma_callback_keeps_registry(
    old: IcaOwnerStore,
    new: IcaOwnerStore,
    sender: Seq<char>,
    callback_msg: IcaControllerCallbackMsg,
    res: Result<Response, ContractError>,
)
    requires
        registry_consistent(old),
        callback_handled(old, new, sender, callback_msg, res),
    ensures
        registry_consistent(new),
{
    if old.ids().contains_key(sender) && old.icas().contains_key(old.ids()[sender]) && new != old {
        lemma_entry_update_keeps_registry(old, new, old.ids()[sender]);
    }
}

/// Every execute message keeps the registry consistent.
pub proof fn lemma_execute_keeps_registry(
    before: IcaOwnerStore,
    after: IcaOwnerStore,
    env: ExecEnv,
    msg: ExecuteMsg,
    blobs: WasmBlobs,
    res: ExecuteStep,
)
    requires
        registry_consistent(before),
        execute_outcome(before, after, env, msg, blobs, res),
    ensures
        registry_consistent(after),
{
    if let ExecuteMsg::ReceiveIcaCallback(cb) = msg {
        if let ExecuteStep::Answer(r) = res {
            lemma_callback_keeps_registry(before, after, env.sender@, cb, r);
        }
    }
}

/// Reading an ICA's state after its controller reported the open channel
/// gives back what the controller reported, under the controller that
/// reported it.
pub proof fn lemma_open_channel_read_back(
    old: IcaOwnerStore,
    new: IcaOwnerStore,
    sender: Seq<char>,
    channel: IbcChannel,
    ica_address: String,
    tx_encoding: TxEncoding,
    res: Result<Response, ContractError>,
)
    requires
        registry_consistent(old),
        old.ids().contains_key(sender),
        callback_handled(
            old,
            new,
            sender,
            IcaControllerCallbackMsg::OnChannelOpenAckCallback { channel, ica_address, tx_encoding },
            res,
        ),
    ensures
        res is Ok,
        new.icas().contains_key(old.ids()[sender]),
        new.icas()[old.ids()[sender]].contract_addr@ == sender,
        new.icas()[old.ids()[sender]].ica_state == Some(
            IcaState {
                ica_id: old.ids()[sender],
                ica_addr: ica_address,
                tx_encoding,
                channel_state: ChannelState { channel, channel_status: ChannelStatus::Open },
            },
        ),
{
}

/// After the upload step's acknowledgement, the ICA's state records the
/// uploaded code id and checksum, so the headstash can then be
/// instantiated from that code.
pub proof fn lemma_upload_ack_records_code(
    old: IcaOwnerStore,
    new: IcaOwnerStore,
    sender: Seq<char>,
    bytes: Vec<u8>,
    res: Result<Response, ContractError>,
    r: AckResponseV,
    e: EventV,
    code_id: u64,
)
    requires
        old.ids().contains_key(sender),
        old.icas().contains_key(old.ids()[sender]),
        callback_handled(
            old,
            new,
            sender,
            IcaControllerCallbackMsg::OnAcknowledgementPacketCallback { ica_acknowledgement: AckData::Result(bytes) },
            res,
        ),
        response_of_json(bytes@) == Some(r),
        ack_complete(old.icas()[old.ids()[sender]], r),
        ack_callback(r) == Some(HeadstashCallback::UploadHeadstash),
        first_event(r.events, "store_code"@) == Some(e),
        parse_decimal_u64(e.attributes[1].value) == Some(code_id),
    ensures
        res is Ok,
        new.icas()[old.ids()[sender]].headstash_params.headstash_code_id == Some(code_id),
        new.icas()[old.ids()[sender]].headstash_params.snip120u_code_hash@ == e.attributes[0].value,
{
}


/// No execute message takes the owner away: the recorded owner is left as
/// it is (so a store with an owner, as instantiation leaves it, keeps one),
/// and a change of ownership handed back to be applied is never a
/// renunciation.
pub proof fn lemma_execute_keeps_owner(
    before: IcaOwnerStore,
    after: IcaOwnerStore,
    env: ExecEnv,
    msg: ExecuteMsg,
    blobs: WasmBlobs,
    res: ExecuteStep,
)
    requires
        execute_outcome(before, after, env, msg, blobs, res),
    ensures
        after.owner == before.owner,
        before.owner is Some ==> after.owner is Some,
        !(res matches ExecuteStep::UpdateOwnership(OwnershipAction::RenounceOwnership)),
{
}

/// After `k` controllers have been recorded, one after the other, on the
/// store that instantiation leaves, they have the ids `0` to `k - 1` in
/// order and the count, which `ica_count` answers, is `k`.
pub proof fn lemma_count_after_registrations(
    stores: Seq<IcaOwnerStore>,
    addrs: Seq<String>,
    params: Seq<HeadstashParams>,
    ids: Seq<u64>,
)
    requires
        stores.len() == addrs.len() + 1,
        params.len() == addrs.len(),
        ids.len() == addrs.len(),
        addrs.len() <= u64::MAX,
        stores[0].ica_count is None,
        forall|i: int|
            #![trigger addrs[i]]
            0 <= i < addrs.len() ==> registered(stores[i], stores[i + 1], addrs[i], params[i], ids[i]),
    ensures
        stores.last().count() == addrs.len(),
        forall|i: int| 0 <= i < ids.len() ==> #[trigger] ids[i] == i,
    decreases addrs.len(),
{
    if addrs.len() > 0 {
        let k = addrs.len() - 1;
        lemma_count_after_registrations(stores.drop_last(), addrs.drop_last(), params.drop_last(), ids.drop_last());
        assert(stores.drop_last().last() == stores[k]);
        assert(addrs[k] == addrs[k]);
        assert(registered(stores[k], stores[k + 1], addrs[k], params[k], ids[k]));
        assert forall|i: int| 0 <= i < ids.len() implies #[trigger] ids[i] == i by {
            if i < k {
                assert(ids.drop_last()[i] == ids[i]);
            }
        }
    }
}

/// Once the SNIP-120u step's acknowledgement has recorded a contract for
/// every token, the minter step (channel open, headstash known) makes the
/// headstash a minter of each recorded contract, in the order of the
/// acknowledgement's `instantiate` events.
pub proof fn lemma_minter_after_snip_ack(
    before: IcaOwnerStore,
    after: IcaOwnerStore,
    sender: Seq<char>,
    bytes: Vec<u8>,
    ack_res: Result<Response, ContractError>,
    r: AckResponseV,
    owner: String,
    res: Result<Response, ContractError>,
)
    requires
        before.ids().contains_key(sender),
        before.icas().contains_key(before.ids()[sender]),
        callback_handled(
            before,
            after,
            sender,
            IcaControllerCallbackMsg::OnAcknowledgementPacketCallback { ica_acknowledgement: AckData::Result(bytes) },
            ack_res,
        ),
        response_of_json(bytes@) == Some(r),
        ack_complete(before.icas()[before.ids()[sender]], r),
        ack_callback(r) == Some(HeadstashCallback::InstantiateSnip120us),
        instantiated_addrs(r.events).len() >= before.icas()[before.ids()[sender]].headstash_params.token_params@.len(),
        account_ok(&after, owner@, before.ids()[sender]),
        after.icas()[before.ids()[sender]].ica_state is Some,
        after.icas()[before.ids()[sender]].headstash_params.headstash is Some,
        minter_outcome(&after, owner, before.ids()[sender], res),
    ensures
        ({
            let st = after.icas()[before.ids()[sender]];
            let n = st.headstash_params.token_params@.len();
            res matches Ok(x) && x.deep_view() == ica_call_response(
                st.contract_addr@,
                minter_msgs(
                    st.ica_state.unwrap().ica_addr@,
                    st.headstash_params.headstash.unwrap()@,
                    instantiated_addrs(r.events).subrange(0, n as int),
                ),
                HeadstashCallback::SetHeadstashAsSnipMinter,
            )
        }),
{
    let id = before.ids()[sender];
    let old_st = before.icas()[id];
    let st = after.icas()[id];
    let addrs = instantiated_addrs(r.events);
    let t = old_st.headstash_params.token_params.deep_view();
    let u = st.headstash_params.token_params.deep_view();
    assert(with_snips(old_st, st, addrs));
    assert forall|m: int| 0 <= m < u.len() implies (#[trigger] u[m]).snip_addr is Some by {
        assert(u[m] == with_snip_addr(t[m], addrs[m]));
    }
    assert(token_snips(u) =~= addrs.subrange(0, u.len() as int)) by {
        assert forall|m: int| 0 <= m < u.len() implies #[trigger] token_snips(u)[m] == addrs[m] by {
            assert(u[m] == with_snip_addr(t[m], addrs[m]));
        }
    }
}


/// An upload through the ICA stores the byte code of the contract it
/// names: `cw-headstash` its blob, `snip120u` its blob and
/// `scrt-headstash-circuitboard` its blob, each in one `MsgStoreCode` sent
/// by the caller through the ICA's controller; any other name is refused.
pub proof fn lemma_upload_stores_the_named_blob(
    store: IcaOwnerStore,
    sender: String,
    ica_id: u64,
    contract: String,
    blobs: WasmBlobs,
    res: Result<Response, ContractError>,
)
    requires
        upload_outcome(&store, sender, ica_id, contract, &blobs, res),
        account_ok(&store, sender@, ica_id),
    ensures
        contract@ == "cw-headstash"@ ==> (res matches Ok(r) && r.deep_view().messages == seq![
            CosmosMsgV::IcaExecute {
                controller: store.icas()[ica_id].contract_addr@,
                messages: seq![IcaMsgV::Stargate {
                    type_url: "/secret.compute.v1beta1.MsgStoreCode"@,
                    value: crate::proto::store_code_body(sender@, blobs.cw_headstash@),
                }],
            },
        ]),
        contract@ == "snip120u"@ ==> (res matches Ok(r) && r.deep_view().messages == seq![
            CosmosMsgV::IcaExecute {
                controller: store.icas()[ica_id].contract_addr@,
                messages: seq![IcaMsgV::Stargate {
                    type_url: "/secret.compute.v1beta1.MsgStoreCode"@,
                    value: crate::proto::store_code_body(sender@, blobs.snip120u@),
                }],
            },
        ]),
        contract@ == "scrt-headstash-circuitboard"@ ==> (res matches Ok(r) && r.deep_view().messages == seq![
            CosmosMsgV::IcaExecute {
                controller: store.icas()[ica_id].contract_addr@,
                messages: seq![IcaMsgV::Stargate {
                    type_url: "/secret.compute.v1beta1.MsgStoreCode"@,
                    value: crate::proto::store_code_body(sender@, blobs.circuitboard@),
                }],
            },
        ]),
        contract@ != "cw-headstash"@ && contract@ != "snip120u"@ && contract@ != "scrt-headstash-circuitboard"@
            ==> res is Err,
{
    reveal_strlit("cw-headstash");
    reveal_strlit("snip120u");
    reveal_strlit("scrt-headstash-circuitboard");
    assert("snip120u"@.len() != "cw-headstash"@.len());
    assert("scrt-headstash-circuitboard"@.len() != "cw-headstash"@.len());
    assert("scrt-headstash-circuitboard"@.len() != "snip120u"@.len());
    assert(embedded_wasm_of("snip120u"@) == Some(EmbeddedWasm::Snip120u));
    assert(embedded_wasm_of("scrt-headstash-circuitboard"@) == Some(EmbeddedWasm::Circuitboard));
}

/// Registering claims through the ICA sends one execution of the headstash
/// contract, with the ICA's own address as its sender, that adds exactly
/// the claims asked for.
pub proof fn lemma_claims_sent_by_the_ica_to_the_headstash(
    store: IcaOwnerStore,
    sender: String,
    ica_id: u64,
    to_add: Vec<Headstash>,
    res: Result<Response, ContractError>,
)
    requires
        add_claimers_outcome(&store, sender, ica_id, to_add, res),
        res is Ok,
    ensures
        store.icas().contains_key(ica_id),
        store.icas()[ica_id].ica_state is Some,
        store.icas()[ica_id].headstash_params.headstash is Some,
        res.unwrap().deep_view().messages == seq![
            CosmosMsgV::IcaExecute {
                controller: store.icas()[ica_id].contract_addr@,
                messages: seq![IcaMsgV::SecretExecute {
                    sender: store.icas()[ica_id].ica_state.unwrap().ica_addr@,
                    contract: store.icas()[ica_id].headstash_params.headstash.unwrap()@,
                    msg: SecretExecMsgV::AddHeadstash { headstash: to_add.deep_view() },
                }],
            },
        ],
{
}

/// The instantiations of the SNIP-120u contracts, one per requested token
/// and in order, each sent by `sender`, with `headstash` as admin, the
/// given code and the token's IBC denomination as its one supported denom.
proof fn lemma_snip120u_msgs_shape(
    sender: Seq<char>,
    tokens: Seq<HeadstashTokenParamsV>,
    params: Seq<HeadstashTokenParamsV>,
    code_hash: Seq<char>,
    code_id: u64,
    headstash: Option<Seq<char>>,
)
    ensures
        snip120u_msgs(sender, tokens, params, code_hash, code_id, headstash).len() == tokens.len(),
        forall|i: int|
            0 <= i < tokens.len() ==> ((#[trigger] snip120u_msgs(sender, tokens, params, code_hash, code_id, headstash)[i])
                matches IcaMsgV::SecretInstantiate { sender: s, code_hash: h, code_id: c, init, .. }
                && s == sender && h == code_hash && c == code_id && init.admin == headstash
                && init.supported_denoms == seq![tokens[i].ibc]),
    decreases tokens.len(),
{
    if tokens.len() > 0 {
        lemma_snip120u_msgs_shape(sender, tokens.drop_last(), params, code_hash, code_id, headstash);
        let rest = snip120u_msgs(sender, tokens.drop_last(), params, code_hash, code_id, headstash);
        let all = snip120u_msgs(sender, tokens, params, code_hash, code_id, headstash);
        assert forall|i: int| 0 <= i < tokens.len() implies ((#[trigger] all[i])
            matches IcaMsgV::SecretInstantiate { sender: s, code_hash: h, code_id: c, init, .. }
            && s == sender && h == code_hash && c == code_id && init.admin == headstash
            && init.supported_denoms == seq![tokens[i].ibc]) by {
            if i < tokens.len() - 1 {
                assert(all[i] == rest[i]);
                assert(tokens.drop_last()[i] == tokens[i]);
            }
        }
    }
}

/// Instantiating the SNIP-120u contracts through the ICA sends one
/// instantiation per requested token, in order: each from the ICA's
/// controller, with the recorded SNIP-120u code, with the recorded
/// headstash (whatever it is, none included) as admin, and supporting the
/// token's IBC denomination.
pub proof fn lemma_snip120u_admin_is_the_headstash(
    store: IcaOwnerStore,
    sender: String,
    ica_id: u64,
    tokens: Vec<HeadstashTokenParams>,
    res: Result<Response, ContractError>,
)
    requires
        snip120us_outcome(&store, sender, ica_id, tokens, res),
        account_ok(&store, sender@, ica_id),
    ensures
        res is Ok,
        res.unwrap().deep_view().messages.len() == 1,
        (res.unwrap().deep_view().messages[0] matches CosmosMsgV::IcaExecute { controller, messages }
            && controller == store.icas()[ica_id].contract_addr@
            && messages.len() == tokens.len()
            && forall|i: int| 0 <= i < tokens.len() ==> ((#[trigger] messages[i])
                matches IcaMsgV::SecretInstantiate { sender: s, code_hash: h, code_id: c, init, .. }
                && s == store.icas()[ica_id].contract_addr@
                && h == store.icas()[ica_id].headstash_params.snip120u_code_hash@
                && c == store.icas()[ica_id].headstash_params.snip120u_code_id
                && init.admin == store.icas()[ica_id].headstash_params.headstash.deep_view()
                && init.supported_denoms == seq![tokens@[i].ibc@])),
{
    let st = store.icas()[ica_id];
    let hp = st.headstash_params;
    lemma_snip120u_msgs_shape(
        st.contract_addr@,
        tokens.deep_view(),
        hp.token_params.deep_view(),
        hp.snip120u_code_hash@,
        hp.snip120u_code_id,
        hp.headstash.deep_view(),
    );
    assert forall|i: int| 0 <= i < tokens.len() implies tokens.deep_view()[i].ibc == tokens@[i].ibc@ by {
        assert(tokens.deep_view()[i] == tokens@[i].deep_view());
    }
}

/// The transfers of the sent coins, one per coin and in order: each over
/// the channel asked for, of exactly that coin, to the SNIP-120u contract
/// of the first token with the coin's denomination.
proof fn lemma_fund_transfers_shape(
    params: Seq<HeadstashTokenParamsV>,
    funds: Seq<CoinV>,
    channel_id: Seq<char>,
    timeout_nanos: u64,
)
    requires
        fund_transfers(params, funds, channel_id, timeout_nanos) is Ok,
    ensures
        fund_transfers(params, funds, channel_id, timeout_nanos).unwrap().len() == funds.len(),
        forall|i: int| 0 <= i < funds.len() ==> ((#[trigger] fund_transfers(params, funds, channel_id, timeout_nanos).unwrap()[i])
            matches CosmosMsgV::IbcTransfer { channel_id: c, to_address: a, amount, timeout_nanos: t }
            && c == channel_id && amount == funds[i] && t == timeout_nanos
            && find_native(params, funds[i].denom) is Some
            && find_native(params, funds[i].denom).unwrap().snip_addr == Some(a)),
    decreases funds.len(),
{
    if funds.len() > 0 {
        let tail = funds.drop_first();
        lemma_fund_transfers_shape(params, tail, channel_id, timeout_nanos);
        let msgs = fund_transfers(params, funds, channel_id, timeout_nanos).unwrap();
        let rest = fund_transfers(params, tail, channel_id, timeout_nanos).unwrap();
        assert forall|i: int| 0 <= i < funds.len() implies ((#[trigger] msgs[i])
            matches CosmosMsgV::IbcTransfer { channel_id: c, to_address: a, amount, timeout_nanos: t }
            && c == channel_id && amount == funds[i] && t == timeout_nanos
            && find_native(params, funds[i].denom) is Some
            && find_native(params, funds[i].denom).unwrap().snip_addr == Some(a)) by {
            if i > 0 {
                assert(msgs[i] == rest[i - 1]);
                assert(tail[i - 1] == funds[i]);
            }
        }
    }
}

/// The token that `find_native` finds is one of the tokens, with the
/// denomination looked for.
proof fn lemma_find_native_index(params: Seq<HeadstashTokenParamsV>, native: Seq<char>) -> (k: int)
    requires
        find_native(params, native) is Some,
    ensures
        0 <= k < params.len(),
        params[k] == find_native(params, native).unwrap(),
        params[k].native == native,
    decreases params.len(),
{
    if params[0].native == native {
        0
    } else {
        let k = lemma_find_native_index(params.drop_first(), native);
        k + 1
    }
}

/// Funding the headstash sends, for each coin sent and in order, one ICS-20
/// transfer of exactly that coin (same denomination and amount) over the
/// channel asked for, to the SNIP-120u contract of a token of the coin's
/// denomination, timing out ten minutes after the block time.
pub proof fn lemma_each_sent_coin_goes_to_its_snip(
    store: IcaOwnerStore,
    sender: String,
    block_time_nanos: u64,
    ica_id: u64,
    channel_id: String,
    funds: Vec<Coin>,
    res: Result<Response, ContractError>,
)
    requires
        transfer_outcome(&store, sender, block_time_nanos, ica_id, channel_id, funds, res),
        res is Ok,
    ensures
        res.unwrap().deep_view().messages.len() == funds.len(),
        forall|i: int| 0 <= i < funds.len() ==> ((#[trigger] res.unwrap().deep_view().messages[i])
            matches CosmosMsgV::IbcTransfer { channel_id: c, to_address: a, amount, timeout_nanos: t }
            && c == channel_id@ && amount == funds@[i].deep_view()
            && t == (block_time_nanos + 600 * 1_000_000_000) as u64
            && exists|k: int| 0 <= k < store.icas()[ica_id].headstash_params.token_params@.len()
                && store.icas()[ica_id].headstash_params.token_params@[k].native@ == funds@[i].denom@
                && store.icas()[ica_id].headstash_params.token_params@[k].snip_addr.deep_view() == Some(a)),
{
    let tp = store.icas()[ica_id].headstash_params.token_params;
    let params = tp.deep_view();
    let f = funds.deep_view();
    let tn = (block_time_nanos + 600 * 1_000_000_000) as u64;
    lemma_fund_transfers_shape(params, f, channel_id@, tn);
    let msgs = res.unwrap().deep_view().messages;
    assert forall|i: int| 0 <= i < funds.len() implies ((#[trigger] msgs[i])
        matches CosmosMsgV::IbcTransfer { channel_id: c, to_address: a, amount, timeout_nanos: t }
        && c == channel_id@ && amount == funds@[i].deep_view()
        && t == tn
        && exists|k: int| 0 <= k < tp@.len() && tp@[k].native@ == funds@[i].denom@
            && tp@[k].snip_addr.deep_view() == Some(a)) by {
        assert(f[i] == funds@[i].deep_view());
        let k = lemma_find_native_index(params, f[i].denom);
        assert(params[k] == tp@[k].deep_view());
    }
}

/// The first event of a type is the one at the first position that has it.
proof fn lemma_first_event_at(events: Seq<EventV>, ty: Seq<char>, k: int)
    requires
        0 <= k < events.len(),
        events[k].ty == ty,
        forall|j: int| 0 <= j < k ==> (#[trigger] events[j]).ty != ty,
    ensures
        first_event(events, ty) == Some(events[k]),
    decreases k,
{
    if k > 0 {
        let t = events.drop_first();
        assert forall|j: int| 0 <= j < k - 1 implies (#[trigger] t[j]).ty != ty by {
            assert(t[j] == events[j + 1]);
        }
        lemma_first_event_at(t, ty, k - 1);
    }
}

/// After the headstash instantiation's acknowledgement, the headstash that
/// the ICA's state records is the value of the first attribute of the
/// response's first `instantiate` event; the ICA and the tokens are kept.
pub proof fn lemma_headstash_ack_records_first_instantiate(
    old: IcaOwnerStore,
    new: IcaOwnerStore,
    sender: Seq<char>,
    bytes: Vec<u8>,
    res: Result<Response, ContractError>,
    r: AckResponseV,
    k: int,
)
    requires
        old.ids().contains_key(sender),
        old.icas().contains_key(old.ids()[sender]),
        callback_handled(
            old,
            new,
            sender,
            IcaControllerCallbackMsg::OnAcknowledgementPacketCallback { ica_acknowledgement: AckData::Result(bytes) },
            res,
        ),
        response_of_json(bytes@) == Some(r),
        ack_callback(r) == Some(HeadstashCallback::InstantiateHeadstash),
        0 <= k < r.events.len(),
        r.events[k].ty == "instantiate"@,
        forall|j: int| 0 <= j < k ==> (#[trigger] r.events[j]).ty != "instantiate"@,
        r.events[k].attributes.len() >= 1,
    ensures
        res is Ok,
        new.icas()[old.ids()[sender]].headstash_params.headstash.deep_view() == Some(r.events[k].attributes[0].value),
        new.icas()[old.ids()[sender]].headstash_params.token_params == old.icas()[old.ids()[sender]].headstash_params.token_params,
        new.icas()[old.ids()[sender]].ica_state == old.icas()[old.ids()[sender]].ica_state,
{
    lemma_first_event_at(r.events, "instantiate"@, k);
}

} // verus!
