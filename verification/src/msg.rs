//! The messages, attributes and events that the contracts emit, as plain
//! values, each with its mathematical view.
use vstd::prelude::*;

verus! {

/// An amount of one denomination.
#[derive(Debug)]
pub struct Coin {
    pub denom: String,
    pub amount: u128,
}

pub struct CoinV {
    pub denom: Seq<char>,
    pub amount: u128,
}

impl DeepView for Coin {
    type V = CoinV;

    open spec fn deep_view(&self) -> CoinV {
        CoinV { denom: self.denom@, amount: self.amount }
    }
}

impl Coin {
    pub fn duplicate(&self) -> (res: Coin)
        ensures
            res.deep_view() == self.deep_view(),
    {
        Coin { denom: self.denom.clone(), amount: self.amount }
    }
}

/// A key-value attribute of a response or an event.
#[derive(Debug)]
pub struct Attribute {
    pub key: String,
    pub value: String,
}

pub struct AttributeV {
    pub key: Seq<char>,
    pub value: Seq<char>,
}

impl DeepView for Attribute {
    type V = AttributeV;

    open spec fn deep_view(&self) -> AttributeV {
        AttributeV { key: self.key@, value: self.value@ }
    }
}

/// An event with its type and attributes.
#[derive(Debug)]
pub struct Event {
    pub ty: String,
    pub attributes: Vec<Attribute>,
}

pub struct EventV {
    pub ty: Seq<char>,
    pub attributes: Seq<AttributeV>,
}

impl DeepView for Event {
    type V = EventV;

    open spec fn deep_view(&self) -> EventV {
        EventV { ty: self.ty@, attributes: self.attributes.deep_view() }
    }
}

/// A claim that a headstash contract registers: an address and its amount.
#[derive(Debug)]
pub struct Headstash {
    pub addr: String,
    pub amount: u128,
}

pub struct HeadstashV {
    pub addr: Seq<char>,
    pub amount: u128,
}

impl DeepView for Headstash {
    type V = HeadstashV;

    open spec fn deep_view(&self) -> HeadstashV {
        HeadstashV { addr: self.addr@, amount: self.amount }
    }
}

/// A contract on Secret Network: its address and code hash.
#[derive(Debug)]
pub struct ContractInfo {
    pub address: String,
    pub code_hash: String,
}

pub struct ContractInfoV {
    pub address: Seq<char>,
    pub code_hash: Seq<char>,
}

impl DeepView for ContractInfo {
    type V = ContractInfoV;

    open spec fn deep_view(&self) -> ContractInfoV {
        ContractInfoV { address: self.address@, code_hash: self.code_hash@ }
    }
}

/// The instantiate message of a SNIP-120u token contract (its initial
/// balances and its config are always absent).
#[derive(Debug)]
pub struct Snip20InitMsg {
    pub name: String,
    pub admin: Option<String>,
    pub symbol: String,
    pub decimals: u8,
    pub prng_seed: Vec<u8>,
    pub supported_denoms: Vec<String>,
}

pub struct Snip20InitMsgV {
    pub name: Seq<char>,
    pub admin: Option<Seq<char>>,
    pub symbol: Seq<char>,
    pub decimals: u8,
    pub prng_seed: Seq<u8>,
    pub supported_denoms: Seq<Seq<char>>,
}

impl DeepView for Snip20InitMsg {
    type V = Snip20InitMsgV;

    open spec fn deep_view(&self) -> Snip20InitMsgV {
        Snip20InitMsgV {
            name: self.name@,
            admin: self.admin.deep_view(),
            symbol: self.symbol@,
            decimals: self.decimals,
            prng_seed: self.prng_seed@,
            supported_denoms: self.supported_denoms.deep_view(),
        }
    }
}

/// The execute messages that the ICA sends to contracts on Secret Network.
#[derive(Debug)]
pub enum SecretExecMsg {
    /// A SNIP-20 `add_minters` (with no padding).
    AddMinters { minters: Vec<String> },
    /// A headstash `add`: registers claims.
    AddHeadstash { headstash: Vec<Headstash> },
    /// A SNIP-20 `transfer_from` (no memo, decoys, entropy or padding).
    TransferFrom { owner: String, recipient: String, amount: u128 },
}

pub enum SecretExecMsgV {
    AddMinters { minters: Seq<Seq<char>> },
    AddHeadstash { headstash: Seq<HeadstashV> },
    TransferFrom { owner: Seq<char>, recipient: Seq<char>, amount: u128 },
}

impl DeepView for SecretExecMsg {
    type V = SecretExecMsgV;

    open spec fn deep_view(&self) -> SecretExecMsgV {
        match self {
            SecretExecMsg::AddMinters { minters } => SecretExecMsgV::AddMinters {
                minters: minters.deep_view(),
            },
            SecretExecMsg::AddHeadstash { headstash } => SecretExecMsgV::AddHeadstash {
                headstash: headstash.deep_view(),
            },
            SecretExecMsg::TransferFrom { owner, recipient, amount } => SecretExecMsgV::TransferFrom {
                owner: owner@,
                recipient: recipient@,
                amount: *amount,
            },
        }
    }
}

/// The instantiate message of the secret headstash contract.
#[derive(Debug)]
pub struct HeadstashInitMsg {
    pub claim_msg_plaintext: String,
    pub end_date: Option<u64>,
    pub snip20_1: ContractInfo,
    pub snip20_2: Option<ContractInfo>,
    pub start_date: Option<u64>,
    pub total_amount: u128,
    pub viewing_key: String,
    pub admin: String,
}

pub struct HeadstashInitMsgV {
    pub claim_msg_plaintext: Seq<char>,
    pub end_date: Option<u64>,
    pub snip20_1: ContractInfoV,
    pub snip20_2: Option<ContractInfoV>,
    pub start_date: Option<u64>,
    pub total_amount: u128,
    pub viewing_key: Seq<char>,
    pub admin: Seq<char>,
}

impl DeepView for HeadstashInitMsg {
    type V = HeadstashInitMsgV;

    open spec fn deep_view(&self) -> HeadstashInitMsgV {
        HeadstashInitMsgV {
            claim_msg_plaintext: self.claim_msg_plaintext@,
            end_date: self.end_date,
            snip20_1: self.snip20_1.deep_view(),
            snip20_2: self.snip20_2.deep_view(),
            start_date: self.start_date,
            total_amount: self.total_amount,
            viewing_key: self.viewing_key@,
            admin: self.admin@,
        }
    }
}

/// The instantiate messages of wasm contracts that the ICA creates.
#[derive(Debug)]
pub enum WasmInitMsg {
    Headstash(HeadstashInitMsg),
    Circuitboard(crate::circuitboard::InstantiateMsg),
}

pub enum WasmInitMsgV {
    Headstash(HeadstashInitMsgV),
    Circuitboard(crate::circuitboard::InstantiateMsgV),
}

impl DeepView for WasmInitMsg {
    type V = WasmInitMsgV;

    open spec fn deep_view(&self) -> WasmInitMsgV {
        match self {
            WasmInitMsg::Headstash(m) => WasmInitMsgV::Headstash(m.deep_view()),
            WasmInitMsg::Circuitboard(m) => WasmInitMsgV::Circuitboard(m.deep_view()),
        }
    }
}

/// A message that the interchain account executes on the host chain.
#[allow(inconsistent_fields)]
#[derive(Debug)]
pub enum IcaMsg {
    /// A protobuf message, by type url and encoded body.
    Stargate { type_url: String, value: Vec<u8> },
    /// A wasm instantiation with a JSON init message (no funds).
    WasmInstantiate { admin: Option<String>, code_id: u64, label: String, msg: WasmInitMsg },
    /// A `MsgInstantiateContract` of a SNIP-120u token; its body is
    /// `proto::instantiate_contract_value` of these fields and the JSON of
    /// `init`.
    SecretInstantiate {
        sender: String,
        code_hash: String,
        code_id: u64,
        label: String,
        init: Snip20InitMsg,
    },
    /// A `MsgExecuteContract`; its body is `proto::execute_contract_value`
    /// of these fields and the JSON of `msg`.
    SecretExecute { sender: String, contract: String, msg: SecretExecMsg },
}

#[allow(inconsistent_fields)]
pub enum IcaMsgV {
    Stargate { type_url: Seq<char>, value: Seq<u8> },
    WasmInstantiate {
        admin: Option<Seq<char>>,
        code_id: u64,
        label: Seq<char>,
        msg: WasmInitMsgV,
    },
    SecretInstantiate {
        sender: Seq<char>,
        code_hash: Seq<char>,
        code_id: u64,
        label: Seq<char>,
        init: Snip20InitMsgV,
    },
    SecretExecute { sender: Seq<char>, contract: Seq<char>, msg: SecretExecMsgV },
}

impl DeepView for IcaMsg {
    type V = IcaMsgV;

    open spec fn deep_view(&self) -> IcaMsgV {
        match self {
            IcaMsg::Stargate { type_url, value } => IcaMsgV::Stargate {
                type_url: type_url@,
                value: value@,
            },
            IcaMsg::WasmInstantiate { admin, code_id, label, msg } => IcaMsgV::WasmInstantiate {
                admin: admin.deep_view(),
                code_id: *code_id,
                label: label@,
                msg: msg.deep_view(),
            },
            IcaMsg::SecretInstantiate { sender, code_hash, code_id, label, init } =>
                IcaMsgV::SecretInstantiate {
                sender: sender@,
                code_hash: code_hash@,
                code_id: *code_id,
                label: label@,
                init: init.deep_view(),
            },
            IcaMsg::SecretExecute { sender, contract, msg } => IcaMsgV::SecretExecute {
                sender: sender@,
                contract: contract@,
                msg: msg.deep_view(),
            },
        }
    }
}

/// A message that a contract sends on its own chain.
#[derive(Debug)]
pub enum CosmosMsg {
    /// A protobuf message, by type url and encoded body.
    Stargate { type_url: String, value: Vec<u8> },
    /// `SendCosmosMsgs` to an ICA controller contract (no memo, no timeout):
    /// the controller relays the messages to its interchain account.
    IcaExecute { controller: String, messages: Vec<IcaMsg> },
    /// An ICS-20 transfer that times out at `timeout_nanos` (no memo).
    IbcTransfer { channel_id: String, to_address: String, amount: Coin, timeout_nanos: u64 },
}

pub enum CosmosMsgV {
    Stargate { type_url: Seq<char>, value: Seq<u8> },
    IcaExecute { controller: Seq<char>, messages: Seq<IcaMsgV> },
    IbcTransfer {
        channel_id: Seq<char>,
        to_address: Seq<char>,
        amount: CoinV,
        timeout_nanos: u64,
    },
}

impl DeepView for CosmosMsg {
    type V = CosmosMsgV;

    open spec fn deep_view(&self) -> CosmosMsgV {
        match self {
            CosmosMsg::Stargate { type_url, value } => CosmosMsgV::Stargate {
                type_url: type_url@,
                value: value@,
            },
            CosmosMsg::IcaExecute { controller, messages } => CosmosMsgV::IcaExecute {
                controller: controller@,
                messages: messages.deep_view(),
            },
            CosmosMsg::IbcTransfer { channel_id, to_address, amount, timeout_nanos } =>
                CosmosMsgV::IbcTransfer {
                channel_id: channel_id@,
                to_address: to_address@,
                amount: amount.deep_view(),
                timeout_nanos: *timeout_nanos,
            },
        }
    }
}

/// What a contract entry point answers: messages to send, attributes and
/// events.
#[derive(Debug)]
pub struct Response {
    pub messages: Vec<CosmosMsg>,
    pub attributes: Vec<Attribute>,
    pub events: Vec<Event>,
}

pub struct ResponseV {
    pub messages: Seq<CosmosMsgV>,
    pub attributes: Seq<AttributeV>,
    pub events: Seq<EventV>,
}

impl DeepView for Response {
    type V = ResponseV;

    open spec fn deep_view(&self) -> ResponseV {
        ResponseV {
            messages: self.messages.deep_view(),
            attributes: self.attributes.deep_view(),
            events: self.events.deep_view(),
        }
    }
}

pub open spec fn empty_response() -> ResponseV {
    ResponseV { messages: Seq::empty(), attributes: Seq::empty(), events: Seq::empty() }
}

impl Response {
    /// A response with nothing in it.
    pub fn new() -> (res: Response)
        ensures
            res.deep_view() == empty_response(),
    {
        let res = Response { messages: Vec::new(), attributes: Vec::new(), events: Vec::new() };
        assert(res.messages.deep_view() =~= Seq::<CosmosMsgV>::empty());
        assert(res.attributes.deep_view() =~= Seq::<AttributeV>::empty());
        assert(res.events.deep_view() =~= Seq::<EventV>::empty());
        res
    }
}

/// The attributes and events of a response that an acknowledgement carries.
#[derive(Debug)]
pub struct AckResponse {
    pub attributes: Vec<Attribute>,
    pub events: Vec<Event>,
}

pub struct AckResponseV {
    pub attributes: Seq<AttributeV>,
    pub events: Seq<EventV>,
}

impl DeepView for AckResponse {
    type V = AckResponseV;

    open spec fn deep_view(&self) -> AckResponseV {
        AckResponseV { attributes: self.attributes.deep_view(), events: self.events.deep_view() }
    }
}

/// The standard errors of a contract.
#[derive(Debug)]
pub enum StdError {
    GenericErr(String),
    NotFound(String),
    ParseErr(String),
    SerializeErr(String),
    InvalidHex(String),
}

} // verus!
