//! The headstash circuit board on Secret Network: it creates ICA
//! controllers, checks that an Ethereum key signed a claim before it moves
//! tokens, and keeps its records in two singletons (state, count) and a bucket
//! whose ICA states and ICA ids share one namespace.
use crate::codec::hex_decode_str;
use crate::text::u64_to_decimal;
use crate::ica_owner::{
    ChannelOpenInitOptions, ChannelState, ChannelStatus, IbcChannel, IcaControllerCallbackMsg, TxEncoding,
};
pub use crate::ica_owner::IcaState;
use crate::keyed::KeyedList;
use crate::msg::{Coin, CoinV, CosmosMsg, CosmosMsgV, Event, EventV, IcaMsg, IcaMsgV, Response, ResponseV, SecretExecMsg, SecretExecMsgV, StdError, empty_response};
use crate::proto::{bank_send_body, bank_send_value, utf8};
use crate::text::{hex_decode, replace_all, seq_contains, str_contains, str_equal, str_replace, decimal};
use vstd::prelude::*;
use vstd::string::*;

verus! {

/// The reply id under which an ICA controller's instantiation is recorded.
pub const INIT_ID: u64 = 71;


/// The message that instantiates the circuit board.
#[derive(Debug)]
pub struct InstantiateMsg {
    pub owner: Option<String>,
    pub ica_controller_code_id: u64,
    pub ica_controller_code_hash: String,
    pub headstash_addr: String,
    pub bloom_plaintxt_msg: String,
}

pub struct InstantiateMsgV {
    pub owner: Option<Seq<char>>,
    pub ica_controller_code_id: u64,
    pub ica_controller_code_hash: Seq<char>,
    pub headstash_addr: Seq<char>,
    pub bloom_plaintxt_msg: Seq<char>,
}

impl DeepView for InstantiateMsg {
    type V = InstantiateMsgV;

    open spec fn deep_view(&self) -> InstantiateMsgV {
        InstantiateMsgV {
            owner: self.owner.deep_view(),
            ica_controller_code_id: self.ica_controller_code_id,
            ica_controller_code_hash: self.ica_controller_code_hash@,
            headstash_addr: self.headstash_addr@,
            bloom_plaintxt_msg: self.bloom_plaintxt_msg@,
        }
    }
}

/// The execute messages of the circuit board.
pub enum ExecuteMsg {
    CreateIcaContract { channel_open_init_options: ChannelOpenInitOptions },
    /// IbcBloom sends a predefined action from the ICA controller to the ICA host.
    IbcBloom {
        /// The ICA ID.
        ica_id: u64,
        /// The recipient's address, on the counterparty chain, to send the tokens to from ICA host.
        to_address: String,
        /// eth pubkey that generates the signature
        eth_pubkey: String,
        /// eth_sig is ethereum signature hash generated from the to_address string.
        eth_sig: String,
    },
    ReceiveIcaCallback(IcaControllerCallbackMsg),
}

/// The queries of the circuit board.
#[derive(Debug)]
pub enum QueryMsg {
    /// GetContractState returns the contact's state.
    GetContractState {},
    /// GetIcaState returns the ICA state for the given ICA ID.
    GetIcaContractState { ica_id: u64 },
    /// GetIcaCount returns the number of ICAs.
    GetIcaCount {},
}

/// Why the circuit board refuses a message.
#[derive(Debug)]
pub enum ContractError {
    Std(StdError),
    ProstEncodeError(String),
    Unauthorized,
    IcaInfoNotSet,
    UnknownReplyId(u64),
}

/// ContractState is the state of the IBC application.
#[derive(Debug)]
pub struct ContractState {
    /// The admin of this contract.
    pub admin: String,
    /// The code ID of the cw-ica-controller contract.
    pub ica_controller_code_id: u64,
    /// The code hash of the cw-ica-controller contract.
    pub ica_controller_code_hash: String,
    /// {wallet1} {wallet2}
    pub bloom_plaintxt_msg: String,
    /// contract addr of headstash.
    pub headstash_addr: String,
}

/// IcaContractState is the state of the cw-ica-controller contract.
#[derive(Debug)]
pub struct IcaContractState {
    pub contract_addr: String,
    pub ica_state: Option<IcaState>,
}

impl IcaContractState {
    /// Creates a new [`IcaContractState`].
    pub fn new(contract_addr: String) -> (res: IcaContractState)
        ensures
            res == (IcaContractState { contract_addr, ica_state: None }),
    {
        IcaContractState { contract_addr, ica_state: None }
    }
}

/// A SNIP-120u amount to move and its contract.
#[derive(Debug)]
pub struct BloomSnip120u {
    pub amount: u128,
    pub address: String,
}

/// The claim text with the sender and the secondary address filled in.
pub open spec fn plaintext_of(claim: Seq<char>, sender: Seq<char>, secondary: Seq<char>) -> Seq<char> {
    replace_all(replace_all(claim, "{wallet}"@, sender), "{secondary_address}"@, secondary)
}

/// Fills `{wallet}` with the sender and `{secondary_address}` with the
/// secondary address in the claim text.
pub fn compute_plaintext_msg(claim_plaintxt: &String, sender: &String, secondary_address: &str) -> (res: String)
    ensures
        res@ == plaintext_of(claim_plaintxt@, sender@, secondary_address@),
{
    proof {
        reveal_strlit("{wallet}");
        reveal_strlit("{secondary_address}");
    }
    let plaintext_msg = str_replace(claim_plaintxt.as_str(), "{wallet}", sender.as_str());
    str_replace(plaintext_msg.as_str(), "{secondary_address}", secondary_address)
}

/// The longest claim text, in bytes.
pub const MAX_PLAINTEXT_BYTES: usize = 1000;

/// Accepts a claim text that holds both placeholders and has at most 1000
/// bytes.
pub fn validate_plaintext_msg(plaintext_msg: String) -> (res: Result<(), StdError>)
    ensures
        match res {
            Ok(()) => seq_contains(plaintext_msg@, "{wallet}"@) && seq_contains(
                plaintext_msg@,
                "{secondary_address}"@,
            ) && utf8(plaintext_msg@).len() <= 1000,
            Err(StdError::GenericErr(m)) => if !seq_contains(plaintext_msg@, "{wallet}"@) || !seq_contains(
                plaintext_msg@,
                "{secondary_address}"@,
            ) {
                m@ == "Plaintext message must contain `{{wallet}}` and `{{secondary_address}}` strings"@
            } else {
                utf8(plaintext_msg@).len() > 1000 && m@ == "Plaintext message is too long"@
            },
            Err(_) => false,
        },
{
    if !str_contains(plaintext_msg.as_str(), "{wallet}") || !str_contains(
        plaintext_msg.as_str(),
        "{secondary_address}",
    ) {
        return Err(
            StdError::GenericErr(
                String::from_str(
                    "Plaintext message must contain `{{wallet}}` and `{{secondary_address}}` strings",
                ),
            ),
        );
    }
    if plaintext_msg.as_str().as_bytes().len() > MAX_PLAINTEXT_BYTES {
        return Err(StdError::GenericErr(String::from_str("Plaintext message is too long")));
    }
    Ok(())
}

/// What an Ethereum signature check runs on: the filled-in claim text and
/// the decoded signature.
#[derive(Debug)]
pub struct EthereumText {
    pub plaintext: String,
    pub signature: Vec<u8>,
}

/// Fills in the claim text and decodes the hex signature; a signature that
/// is no hex is refused with "Could not decode {eth_sig}".
pub fn validate_ethereum_text(
    sender: &String,
    claim_plaintxt: &String,
    eth_sig: &String,
    secondary_address: &str,
) -> (res: Result<EthereumText, StdError>)
    ensures
        match hex_decode(utf8(eth_sig@)) {
            Some(sig) => res matches Ok(t) && t.plaintext@ == plaintext_of(claim_plaintxt@, sender@, secondary_address@)
                && t.signature@ == sig,
            None => res matches Err(StdError::InvalidHex(m)) && m@ == "Could not decode "@ + eth_sig@,
        },
{
    let plaintext = compute_plaintext_msg(claim_plaintxt, sender, secondary_address);
    match hex_decode_str(eth_sig.as_str()) {
        Some(signature) => Ok(EthereumText { plaintext, signature }),
        None => Err(StdError::InvalidHex(String::from_str("Could not decode ").concat(eth_sig.as_str()))),
    }
}

/// Turns the outcome of the Ethereum signature check into the claim's
/// validation: a signature that does not verify is refused with "cannot
/// validate eth_sig".
pub fn validate_claim(verified: Result<bool, StdError>) -> (res: Result<(), StdError>)
    ensures
        match verified {
            Ok(true) => res is Ok,
            Ok(false) => res matches Err(StdError::GenericErr(m)) && m@ == "cannot validate eth_sig"@,
            Err(e) => res matches Err(f) && f == e,
        },
{
    match verified {
        Ok(true) => Ok(()),
        Ok(false) => Err(StdError::GenericErr(String::from_str("cannot validate eth_sig"))),
        Err(e) => Err(e),
    }
}

/// The owner that a verified bloom answers with: the Ethereum key that
/// signed the claim, so that each key stands for its own owner.
pub open spec fn bloom_owner(eth_pubkey: Seq<char>) -> Seq<char> {
    eth_pubkey
}

impl ContractState {
    /// Creates a new ContractState.
    pub fn new(
        admin: String,
        ica_controller_code_id: u64,
        ica_controller_code_hash: String,
        bloom_plaintxt_msg: String,
        headstash_addr: String,
    ) -> (res: ContractState)
        ensures
            res == (ContractState {
                admin,
                ica_controller_code_id,
                ica_controller_code_hash,
                bloom_plaintxt_msg,
                headstash_addr,
            }),
    {
        ContractState {
            admin,
            ica_controller_code_id,
            ica_controller_code_hash,
            bloom_plaintxt_msg,
            headstash_addr,
        }
    }

    /// Checks if the address is the admin
    pub fn verify_admin(&self, sender: &str) -> (res: Result<(), ContractError>)
        ensures
            res is Ok <==> self.admin@ == sender@,
            res matches Err(e) ==> e is Unauthorized,
    {
        if str_equal(self.admin.as_str(), sender) {
            Ok(())
        } else {
            Err(ContractError::Unauthorized)
        }
    }

    /// Checks a bloom: the signature must decode, and `verified` is the
    /// outcome of checking it against `eth_pubkey` over the claim text
    /// filled in with the sender and the destination. Answers the owner
    /// that the bloom acts for: the signing key.
    pub fn verify_headstash_bloom(
        &self,
        sender: &String,
        eth_pubkey: &String,
        eth_sig: &String,
        bloom_plaintxt: &String,
        destination_addr: &String,
        verified: Result<bool, StdError>,
    ) -> (res: Result<String, ContractError>)
        ensures
            match hex_decode(utf8(eth_sig@)) {
                None => res matches Err(ContractError::Std(StdError::InvalidHex(m))) && m@ == "Could not decode "@
                    + eth_sig@,
                Some(_) => match verified {
                    Ok(true) => res matches Ok(o) && o@ == bloom_owner(eth_pubkey@),
                    Ok(false) => res matches Err(ContractError::Std(StdError::GenericErr(m)))
                        && m@ == "cannot validate eth_sig"@,
                    Err(e) => res matches Err(ContractError::Std(f)) && f == e,
                },
            },
    {
        match validate_ethereum_text(sender, bloom_plaintxt, eth_sig, destination_addr.as_str()) {
            Ok(_) => {},
            Err(e) => return Err(ContractError::Std(e)),
        }
        match validate_claim(verified) {
            Ok(()) => Ok(eth_pubkey.clone()),
            Err(e) => Err(ContractError::Std(e)),
        }
    }
}


/// The little-endian bytes of `n`, `k` of them.
pub open spec fn le_bytes(n: nat, k: nat) -> Seq<u8>
    decreases k,
{
    if k == 0 {
        Seq::empty()
    } else {
        seq![(n % 256) as u8] + le_bytes(n / 256, (k - 1) as nat)
    }
}

/// The storage key of an ICA id: its 8 little-endian bytes.
pub open spec fn id_key(ica_id: u64) -> Seq<u8> {
    le_bytes(ica_id as nat, 8)
}

/// The storage key of an address: its UTF-8 bytes.
pub open spec fn addr_key(addr: Seq<char>) -> Seq<u8> {
    utf8(addr)
}

/// The 8 little-endian bytes of an ICA id (`u64::to_le_bytes`).
pub fn id_key_bytes(ica_id: u64) -> (res: Vec<u8>)
    ensures
        res@ == id_key(ica_id),
{
    let mut v: Vec<u8> = Vec::new();
    let mut n: u64 = ica_id;
    let mut i: usize = 0;
    while i < 8
        invariant
            i <= 8,
            le_bytes(ica_id as nat, 8) == v@ + le_bytes(n as nat, (8 - i) as nat),
        decreases 8 - i,
    {
        let ghost rest = le_bytes((n / 256) as nat, (7 - i) as nat);
        assert(le_bytes(n as nat, (8 - i) as nat) == seq![(n % 256) as u8] + rest);
        let ghost old_v = v@;
        v.push((n % 256) as u8);
        assert(old_v + (seq![(n % 256) as u8] + rest) =~= v@ + rest);
        n = n / 256;
        i = i + 1;
    }
    assert(v@ + le_bytes(n as nat, 0) =~= v@);
    v
}

/// An entry of the bucket `ica_states`: an ICA state under an id key, or
/// an ICA id under an address key.
#[derive(Debug)]
pub enum BucketEntry {
    Ica(IcaContractState),
    Id(u64),
}

/// The storage of the circuit board.
#[derive(Debug)]
pub struct CircuitStore {
    /// The contract state, under the key `state`.
    pub config: Option<ContractState>,
    /// The ICA count, under the key `ica_count`.
    pub count: Option<u64>,
    pub bucket: KeyedList<Vec<u8>, BucketEntry>,
}

impl CircuitStore {
    pub open spec fn entries(&self) -> Map<Seq<u8>, BucketEntry> {
        self.bucket.map()
    }
}

/// What loading the contract state gives.
pub open spec fn config_load(store: CircuitStore) -> Result<ContractState, ()> {
    match store.config {
        Some(st) => Ok(st),
        None => Err(()),
    }
}

/// Loads the contract state: refused when none is saved.
pub fn config_r(store: &CircuitStore) -> (res: Result<&ContractState, StdError>)
    ensures
        match store.config {
            Some(st) => res matches Ok(r) && *r == st,
            None => res matches Err(StdError::NotFound(_)),
        },
{
    match &store.config {
        Some(st) => Ok(st),
        None => Err(StdError::NotFound(String::from_str("ContractState"))),
    }
}

/// Saves the contract state.
pub fn config_w(store: &mut CircuitStore, state: ContractState)
    ensures
        final(store).config == Some(state),
        final(store).count == old(store).count,
        final(store).entries() == old(store).entries(),
{
    store.config = Some(state);
}

/// Loads the ICA count: refused when none is saved.
pub fn ica_count_r(store: &CircuitStore) -> (res: Result<u64, StdError>)
    ensures
        match store.count {
            Some(c) => res matches Ok(r) && r == c,
            None => res matches Err(StdError::NotFound(_)),
        },
{
    match store.count {
        Some(c) => Ok(c),
        None => Err(StdError::NotFound(String::from_str("u64"))),
    }
}

/// Saves the ICA count.
pub fn ica_count_w(store: &mut CircuitStore, count: u64)
    ensures
        final(store).count == Some(count),
        final(store).config == old(store).config,
        final(store).entries() == old(store).entries(),
{
    store.count = Some(count);
}

/// The ICA count, 0 where none is saved.
pub open spec fn count_or_zero(store: CircuitStore) -> u64 {
    match store.count {
        Some(c) => c,
        None => 0,
    }
}

/// Loads the ICA state under an id: refused when there is none or the key
/// holds an ICA id.
pub fn ica_states_r(store: &CircuitStore, ica_id: u64) -> (res: Result<&IcaContractState, StdError>)
    ensures
        match store.entries().get(id_key(ica_id)) {
            Some(BucketEntry::Ica(st)) => res matches Ok(r) && *r == st,
            Some(BucketEntry::Id(_)) => res matches Err(StdError::ParseErr(_)),
            None => res matches Err(StdError::NotFound(_)),
        },
{
    let key = id_key_bytes(ica_id);
    assert(key.deep_view() =~= key@);
    match store.bucket.get(&key) {
        Some(BucketEntry::Ica(st)) => Ok(st),
        Some(BucketEntry::Id(_)) => Err(StdError::ParseErr(String::from_str("IcaContractState"))),
        None => Err(StdError::NotFound(String::from_str("IcaContractState"))),
    }
}

/// Saves an ICA state under its id.
pub fn ica_states_w(store: &mut CircuitStore, ica_id: u64, state: IcaContractState)
    ensures
        final(store).entries() == old(store).entries().insert(id_key(ica_id), BucketEntry::Ica(state)),
        final(store).config == old(store).config,
        final(store).count == old(store).count,
{
    let key = id_key_bytes(ica_id);
    assert(key.deep_view() =~= key@);
    store.bucket.insert(key, BucketEntry::Ica(state));
}

/// Loads the ICA id of a controller address: refused when there is none or
/// the key holds an ICA state.
pub fn addr_to_ica_id_r(store: &CircuitStore, addr: &String) -> (res: Result<u64, StdError>)
    ensures
        match store.entries().get(addr_key(addr@)) {
            Some(BucketEntry::Id(i)) => res matches Ok(r) && r == i,
            Some(BucketEntry::Ica(_)) => res matches Err(StdError::ParseErr(_)),
            None => res matches Err(StdError::NotFound(_)),
        },
{
    let key = addr.as_str().as_bytes_vec();
    assert(key.deep_view() =~= key@);
    match store.bucket.get(&key) {
        Some(BucketEntry::Id(i)) => Ok(*i),
        Some(BucketEntry::Ica(_)) => Err(StdError::ParseErr(String::from_str("u64"))),
        None => Err(StdError::NotFound(String::from_str("u64"))),
    }
}

/// Saves the ICA id of a controller address.
pub fn addr_to_ica_ir_w(store: &mut CircuitStore, addr: &String, ica_id: u64)
    ensures
        final(store).entries() == old(store).entries().insert(addr_key(addr@), BucketEntry::Id(ica_id)),
        final(store).config == old(store).config,
        final(store).count == old(store).count,
{
    let key = addr.as_str().as_bytes_vec();
    assert(key.deep_view() =~= key@);
    store.bucket.insert(key, BucketEntry::Id(ica_id));
}

/// Instantiates the circuit board: the admin is the message's owner (a
/// valid address), else the sender.
pub fn instantiate(msg: InstantiateMsg, sender: String) -> (res: CircuitStore)
    ensures
        res.config matches Some(st) && {
            &&& st.admin@ == match msg.owner {
                Some(o) => o@,
                None => sender@,
            }
            &&& st.ica_controller_code_id == msg.ica_controller_code_id
            &&& st.ica_controller_code_hash == msg.ica_controller_code_hash
            &&& st.bloom_plaintxt_msg == msg.bloom_plaintxt_msg
            &&& st.headstash_addr == msg.headstash_addr
        },
        res.count is None,
        res.entries() == Map::<Seq<u8>, BucketEntry>::empty(),
{
    let admin = match msg.owner {
        Some(a) => a,
        None => sender,
    };
    let state = ContractState::new(
        admin,
        msg.ica_controller_code_id,
        msg.ica_controller_code_hash,
        msg.bloom_plaintxt_msg,
        msg.headstash_addr,
    );
    let mut store = CircuitStore { config: None, count: None, bucket: KeyedList::new() };
    config_w(&mut store, state);
    store
}

/// Returns the saved contract state.
pub fn state(store: &CircuitStore) -> (res: Result<&ContractState, StdError>)
    ensures
        match store.config {
            Some(st) => res matches Ok(r) && *r == st,
            None => res matches Err(StdError::NotFound(_)),
        },
{
    config_r(store)
}

/// Returns the saved ICA state for the given ICA ID.
pub fn ica_state(store: &CircuitStore, ica_id: u64) -> (res: Result<&IcaContractState, StdError>)
    ensures
        match store.entries().get(id_key(ica_id)) {
            Some(BucketEntry::Ica(st)) => res matches Ok(r) && *r == st,
            Some(BucketEntry::Id(_)) => res matches Err(StdError::ParseErr(_)),
            None => res matches Err(StdError::NotFound(_)),
        },
{
    ica_states_r(store, ica_id)
}

/// Returns the number of ICAs recorded, 0 before the first.
pub fn ica_count(store: &CircuitStore) -> (res: Result<u64, StdError>)
    ensures
        res == Ok::<u64, StdError>(count_or_zero(*store)),
{
    match ica_count_r(store) {
        Ok(c) => Ok(c),
        Err(_) => Ok(0),
    }
}

/// The instantiation of a new ICA controller, sent as a submessage whose
/// reply always comes back under `reply_id`.
#[derive(Debug)]
pub struct IcaControllerInstantiation {
    pub code_id: u64,
    pub code_hash: String,
    pub label: String,
    /// The controller's admin, owner and callback receiver: this contract.
    pub admin: String,
    /// The code hash that callbacks reach this contract with.
    pub callback_code_hash: String,
    pub channel_open_init_options: ChannelOpenInitOptions,
    pub reply_id: u64,
}

/// The label of the ICA controller with the given count.
pub open spec fn controller_label(contract: Seq<char>, count: u64) -> Seq<char> {
    "icacontroller-"@ + contract + "-"@ + decimal(count as nat)
}

/// How creating a new ICA controller answered.
pub open spec fn controller_outcome(
    store: &CircuitStore,
    sender: String,
    contract_address: String,
    channel_open_init_options: ChannelOpenInitOptions,
    res: Result<IcaControllerInstantiation, ContractError>,
) -> bool {
    &&& match store.config {
        None => res matches Err(ContractError::Std(StdError::NotFound(_))),
        Some(st) => if st.admin@ != sender@ {
            res matches Err(ContractError::Unauthorized)
        } else {
            res matches Ok(p) && {
                &&& p.code_id == st.ica_controller_code_id
                &&& p.code_hash@ == st.ica_controller_code_hash@
                &&& p.callback_code_hash@ == st.ica_controller_code_hash@
                &&& p.label@ == controller_label(contract_address@, count_or_zero(*store))
                &&& p.admin@ == contract_address@
                &&& p.channel_open_init_options == channel_open_init_options
                &&& p.reply_id == INIT_ID
            }
        },
    }
}

/// Creates a new ICA controller; admin only.
pub fn create_ica_contract(
    store: &CircuitStore,
    sender: String,
    contract_address: String,
    channel_open_init_options: ChannelOpenInitOptions,
) -> (res: Result<IcaControllerInstantiation, ContractError>)
    ensures
        controller_outcome(store, sender, contract_address, channel_open_init_options, res),
{
    let st = match config_r(store) {
        Ok(s) => s,
        Err(e) => return Err(ContractError::Std(e)),
    };
    if !str_equal(st.admin.as_str(), sender.as_str()) {
        return Err(ContractError::Unauthorized);
    }
    let count = match ica_count_r(store) {
        Ok(c) => c,
        Err(_) => 0,
    };
    let count_str = u64_to_decimal(count);
    let label = String::from_str("icacontroller-").concat(contract_address.as_str()).concat("-").concat(count_str.as_str());
    Ok(IcaControllerInstantiation {
        code_id: st.ica_controller_code_id,
        code_hash: st.ica_controller_code_hash.clone(),
        label,
        admin: contract_address,
        callback_code_hash: st.ica_controller_code_hash.clone(),
        channel_open_init_options,
        reply_id: INIT_ID,
    })
}

/// The outcome of a submessage: its events, or its error.
#[derive(Debug)]
pub enum SubMsgResult {
    Success(Vec<Event>),
    Failure(String),
}

/// The address in the last `contract_address` attribute of an
/// `instantiate` event, if any.
pub open spec fn instantiated_address(events: Seq<EventV>) -> Option<Seq<char>>
    decreases events.len(),
{
    if events.len() == 0 {
        None
    } else {
        let last = events.last();
        match (if last.ty == "instantiate"@ { last_contract_address(last.attributes) } else { None }) {
            Some(a) => Some(a),
            None => instantiated_address(events.drop_last()),
        }
    }
}

/// The value of the last `contract_address` attribute, if any.
pub open spec fn last_contract_address(attrs: Seq<crate::msg::AttributeV>) -> Option<Seq<char>>
    decreases attrs.len(),
{
    if attrs.len() == 0 {
        None
    } else if attrs.last().key == "contract_address"@ {
        Some(attrs.last().value)
    } else {
        last_contract_address(attrs.drop_last())
    }
}

fn find_contract_address(events: &Vec<Event>) -> (res: Option<String>)
    ensures
        res.deep_view() == instantiated_address(events.deep_view()),
{
    let ghost all = events.deep_view();
    let mut found: Option<String> = None;
    let mut i: usize = 0;
    assert(all.subrange(0, 0) =~= Seq::<EventV>::empty());
    while i < events.len()
        invariant
            i <= events@.len(),
            all == events.deep_view(),
            found.deep_view() == instantiated_address(all.subrange(0, i as int)),
        decreases events@.len() - i,
    {
        let ev = &events[i];
        let ghost sub = all.subrange(0, i + 1);
        assert(sub.drop_last() =~= all.subrange(0, i as int));
        assert(sub.last() == ev.deep_view());
        if str_equal(ev.ty.as_str(), "instantiate") {
            let ghost attrs = ev.attributes.deep_view();
            let mut in_event: Option<String> = None;
            let mut j: usize = 0;
            assert(attrs.subrange(0, 0) =~= Seq::<crate::msg::AttributeV>::empty());
            while j < ev.attributes.len()
                invariant
                    j <= ev.attributes@.len(),
                    attrs == ev.attributes.deep_view(),
                    in_event.deep_view() == last_contract_address(attrs.subrange(0, j as int)),
                decreases ev.attributes@.len() - j,
            {
                let ghost asub = attrs.subrange(0, j + 1);
                assert(asub.drop_last() =~= attrs.subrange(0, j as int));
                assert(asub.last() == ev.attributes[j as int].deep_view());
                if str_equal(ev.attributes[j].key.as_str(), "contract_address") {
                    in_event = Some(ev.attributes[j].value.clone());
                }
                j = j + 1;
            }
            assert(attrs.subrange(0, ev.attributes@.len() as int) =~= attrs);
            if in_event.is_some() {
                found = in_event;
            }
        }
        i = i + 1;
    }
    assert(all.subrange(0, events@.len() as int) =~= all);
    found
}

/// How an instantiation reply answered `res` and took the store from
/// `before` to `after`.
pub open spec fn init_reply_recorded(
    before: CircuitStore,
    after: CircuitStore,
    result: SubMsgResult,
    res: Result<Response, ContractError>,
) -> bool {
    &&& res matches Ok(r) && r.deep_view() == empty_response()
    &&& match result {
        SubMsgResult::Success(events) => match instantiated_address(events.deep_view()) {
            Some(addr) => {
                let c = count_or_zero(before);
                &&& after.entries().dom() == before.entries().dom().insert(id_key(c)).insert(addr_key(addr))
                &&& after.entries()[addr_key(addr)] == BucketEntry::Id(c)
                &&& addr_key(addr) != id_key(c) ==> (after.entries()[id_key(c)] matches BucketEntry::Ica(st)
                    && st.contract_addr@ == addr && st.ica_state is None)
                &&& forall|k: Seq<u8>| k != addr_key(addr) && k != id_key(c) && #[trigger] before.entries().contains_key(k)
                    ==> after.entries()[k] == before.entries()[k]
                &&& after.count == Some((c + 1) as u64)
                &&& after.config == before.config
            },
            None => after == before,
        },
        SubMsgResult::Failure(_) => after == before,
    }
}

/// Records the ICA controller that an instantiation reply reports: under
/// the current count (0 where the count cannot be loaded) its state, under
/// its address that count, and the count plus one as the count. A
/// failed instantiation, or one that reports no address, changes nothing.
pub fn save_ica_contract_init_reply(store: &mut CircuitStore, result: SubMsgResult) -> (res: Result<Response, ContractError>)
    requires
        (result matches SubMsgResult::Success(events) && instantiated_address(events.deep_view()) is Some)
            ==> count_or_zero(*old(store)) < u64::MAX,
    ensures
        init_reply_recorded(*old(store), *final(store), result, res),
{
    let count = match ica_count_r(store) {
        Ok(c) => c,
        Err(_) => 0,
    };
    match result {
        SubMsgResult::Success(events) => {
            let addr = find_contract_address(&events);
            if let Some(addr) = addr {
                let ghost before = store.entries();
                ica_states_w(store, count, IcaContractState::new(addr.clone()));
                addr_to_ica_ir_w(store, &addr, count);
                ica_count_w(store, count + 1);
                assert(store.entries().dom() =~= before.dom().insert(id_key(count)).insert(addr_key(addr@)));
            }
        },
        SubMsgResult::Failure(_) => {},
    }
    Ok(Response::new())
}

/// Dispatches a submessage reply: only an ICA controller's instantiation is
/// expected.
pub fn reply(store: &mut CircuitStore, id: u64, result: SubMsgResult) -> (res: Result<Response, ContractError>)
    requires
        id == INIT_ID && (result matches SubMsgResult::Success(events) && instantiated_address(events.deep_view()) is Some)
            ==> count_or_zero(*old(store)) < u64::MAX,
    ensures
        id != INIT_ID ==> (res matches Err(ContractError::UnknownReplyId(i)) && i == id && *final(store) == *old(store)),
        id == INIT_ID ==> init_reply_recorded(*old(store), *final(store), result, res),
{
    if id == INIT_ID {
        save_ica_contract_init_reply(store, result)
    } else {
        Err(ContractError::UnknownReplyId(id))
    }
}


/// How a callback from the controller at `sender` answered `res` and took
/// the store from `before` to `after`.
pub open spec fn callback_recorded(
    before: CircuitStore,
    after: CircuitStore,
    sender: Seq<char>,
    callback_msg: IcaControllerCallbackMsg,
    res: Result<Response, ContractError>,
) -> bool {
    match before.entries().get(addr_key(sender)) {
        None => res matches Err(ContractError::Std(StdError::NotFound(_))) && after == before,
        Some(BucketEntry::Ica(_)) => res matches Err(ContractError::Std(StdError::ParseErr(_))) && after == before,
        Some(BucketEntry::Id(ica_id)) => match before.entries().get(id_key(ica_id)) {
            None => res matches Err(ContractError::Std(StdError::NotFound(_))) && after == before,
            Some(BucketEntry::Id(_)) => res matches Err(ContractError::Std(StdError::ParseErr(_))) && after == before,
            Some(BucketEntry::Ica(st)) => {
                &&& res matches Ok(r) && r.deep_view() == empty_response()
                &&& match callback_msg {
                    IcaControllerCallbackMsg::OnChannelOpenAckCallback { channel, ica_address, tx_encoding } => {
                        &&& after.config == before.config
                        &&& after.count == before.count
                        &&& after.entries() == before.entries().insert(
                            id_key(ica_id),
                            BucketEntry::Ica(IcaContractState {
                                contract_addr: st.contract_addr,
                                ica_state: Some(IcaState {
                                    ica_id,
                                    ica_addr: ica_address,
                                    tx_encoding,
                                    channel_state: ChannelState { channel, channel_status: ChannelStatus::Open },
                                }),
                            }),
                        )
                    },
                    _ => after == before,
                }
            },
        },
    }
}

/// Handles a callback of an ICA controller: the sender's ICA id and state
/// must load; an open channel records the ICA, anything else changes
/// nothing.
pub fn ica_callback_handler(store: &mut CircuitStore, sender: String, callback_msg: IcaControllerCallbackMsg) -> (res: Result<Response, ContractError>)
    ensures
        callback_recorded(*old(store), *final(store), sender@, callback_msg, res),
{
    let ica_id = match addr_to_ica_id_r(store, &sender) {
        Ok(i) => i,
        Err(e) => return Err(ContractError::Std(e)),
    };
    let contract_addr = match ica_states_r(store, ica_id) {
        Ok(st) => st.contract_addr.clone(),
        Err(e) => return Err(ContractError::Std(e)),
    };
    if let IcaControllerCallbackMsg::OnChannelOpenAckCallback { channel, ica_address, tx_encoding } = callback_msg {
        let updated = IcaContractState {
            contract_addr,
            ica_state: Some(
                IcaState::new(ica_id, ica_address, tx_encoding, ChannelState { channel, channel_status: ChannelStatus::Open }),
            ),
        };
        ica_states_w(store, ica_id, updated);
    }
    Ok(Response::new())
}

/// The bank send that the ICA runs for a bloom: the funds from the ICA's
/// account to the destination.
pub open spec fn bloom_send(ica_addr: Seq<char>, to_address: Seq<char>, funds: Seq<CoinV>) -> IcaMsgV {
    IcaMsgV::Stargate {
        type_url: "/cosmos.bank.v1beta1.MsgSend"@,
        value: bank_send_body(ica_addr, to_address, funds),
    }
}

/// How sending a bloom answered.
pub open spec fn bloom_outcome(
    store: &CircuitStore,
    sender: String,
    ica_id: u64,
    to_address: String,
    eth_pubkey: String,
    eth_sig: String,
    funds: Vec<Coin>,
    verified: Result<bool, StdError>,
    res: Result<Response, ContractError>,
) -> bool {
    match config_load(*store) {
        Err(_) => res matches Err(ContractError::Std(StdError::NotFound(_))),
        Ok(st) => match hex_decode(utf8(eth_sig@)) {
            None => res matches Err(ContractError::Std(StdError::InvalidHex(m))) && m@ == "Could not decode "@ + eth_sig@,
            Some(_) => match verified {
                Err(e) => res matches Err(ContractError::Std(f)) && f == e,
                Ok(false) => res matches Err(ContractError::Std(StdError::GenericErr(m))) && m@ == "cannot validate eth_sig"@,
                Ok(true) => match store.entries().get(id_key(ica_id)) {
                    None => res matches Err(ContractError::Std(StdError::NotFound(_))),
                    Some(BucketEntry::Id(_)) => res matches Err(ContractError::Std(StdError::ParseErr(_))),
                    Some(BucketEntry::Ica(ica)) => match ica.ica_state {
                        None => res matches Err(ContractError::IcaInfoNotSet),
                        Some(info) => res matches Ok(r) && r.deep_view() == (ResponseV {
                            messages: seq![
                                CosmosMsgV::IcaExecute {
                                    controller: ica.contract_addr@,
                                    messages: seq![bloom_send(info.ica_addr@, to_address@, funds.deep_view())],
                                },
                            ],
                            attributes: Seq::empty(),
                            events: Seq::empty(),
                        }),
                    },
                },
            },
        },
    }
}

/// Sends a bloom: the claim must verify (`verified` is the outcome of
/// checking `eth_sig` against `eth_pubkey` over the claim text filled in
/// with the sender and `to_address`), and the ICA's channel must be open;
/// the ICA then sends the funds included with the bloom to `to_address`.
pub fn send_ibc_bloom(
    store: &CircuitStore,
    sender: String,
    ica_id: u64,
    to_address: String,
    eth_pubkey: String,
    eth_sig: String,
    funds: Vec<Coin>,
    verified: Result<bool, StdError>,
) -> (res: Result<Response, ContractError>)
    ensures
        bloom_outcome(store, sender, ica_id, to_address, eth_pubkey, eth_sig, funds, verified, res),
{
    let st = match config_r(store) {
        Ok(s) => s,
        Err(e) => return Err(ContractError::Std(e)),
    };
    match st.verify_headstash_bloom(&sender, &eth_pubkey, &eth_sig, &st.bloom_plaintxt_msg, &to_address, verified) {
        Ok(_) => {},
        Err(e) => return Err(e),
    }
    let ica = match ica_states_r(store, ica_id) {
        Ok(i) => i,
        Err(e) => return Err(ContractError::Std(e)),
    };
    let info = match &ica.ica_state {
        Some(info) => info,
        None => return Err(ContractError::IcaInfoNotSet),
    };
    let send = IcaMsg::Stargate {
        type_url: String::from_str("/cosmos.bank.v1beta1.MsgSend"),
        value: bank_send_value(info.ica_addr.as_str(), to_address.as_str(), &funds),
    };
    let mut msgs: Vec<IcaMsg> = Vec::new();
    msgs.push(send);
    assert(msgs.deep_view() =~= seq![send.deep_view()]);
    let m = CosmosMsg::IcaExecute { controller: ica.contract_addr.clone(), messages: msgs };
    let mut res = Response::new();
    res.messages.push(m);
    assert(res.messages.deep_view() =~= seq![m.deep_view()]);
    Ok(res)
}

/// What an execute message of the circuit board comes to.
#[derive(Debug)]
pub enum CircuitStep {
    /// The answer to the message.
    Answer(Result<Response, ContractError>),
    /// Send this instantiation of a new ICA controller as a submessage,
    /// whose reply comes back to `reply`.
    Instantiate(IcaControllerInstantiation),
}

/// Runs an execute message sent by `sender` to this contract at
/// `contract_address`, with `funds`. For an `IbcBloom`, `verified` is the
/// outcome of checking its signature (see `send_ibc_bloom`); other messages
/// ignore it. Only a callback may update the store.
pub fn execute(
    store: &mut CircuitStore,
    sender: String,
    contract_address: String,
    msg: ExecuteMsg,
    funds: Vec<Coin>,
    verified: Result<bool, StdError>,
) -> (res: CircuitStep)
    ensures
        match msg {
            ExecuteMsg::CreateIcaContract { channel_open_init_options } => {
                &&& *final(store) == *old(store)
                &&& match res {
                    CircuitStep::Answer(Err(e)) => controller_outcome(
                        &*old(store),
                        sender,
                        contract_address,
                        channel_open_init_options,
                        Err(e),
                    ),
                    CircuitStep::Instantiate(p) => controller_outcome(
                        &*old(store),
                        sender,
                        contract_address,
                        channel_open_init_options,
                        Ok(p),
                    ),
                    _ => false,
                }
            },
            ExecuteMsg::IbcBloom { ica_id, to_address, eth_pubkey, eth_sig } => {
                &&& *final(store) == *old(store)
                &&& res matches CircuitStep::Answer(r) && bloom_outcome(
                    &*old(store),
                    sender,
                    ica_id,
                    to_address,
                    eth_pubkey,
                    eth_sig,
                    funds,
                    verified,
                    r,
                )
            },
            ExecuteMsg::ReceiveIcaCallback(cb) => res matches CircuitStep::Answer(r) && callback_recorded(
                *old(store),
                *final(store),
                sender@,
                cb,
                r,
            ),
        },
{
    match msg {
        ExecuteMsg::CreateIcaContract { channel_open_init_options } => match create_ica_contract(
            store,
            sender,
            contract_address,
            channel_open_init_options,
        ) {
            Ok(p) => CircuitStep::Instantiate(p),
            Err(e) => CircuitStep::Answer(Err(e)),
        },
        ExecuteMsg::IbcBloom { ica_id, to_address, eth_pubkey, eth_sig } => CircuitStep::Answer(
            send_ibc_bloom(store, sender, ica_id, to_address, eth_pubkey, eth_sig, funds, verified),
        ),
        ExecuteMsg::ReceiveIcaCallback(cb) => CircuitStep::Answer(ica_callback_handler(store, sender, cb)),
    }
}


/// Once a reply has recorded the controller at `addr` under the current
/// count, that controller's channel-open callback goes through, and reading
/// the ICA state under that id gives back the controller and the ICA that it
/// reported. (An address whose bytes are the id's key shares its entry, so
/// it is left out.)
pub proof fn lemma_channel_open_after_reply(
    s0: CircuitStore,
    s1: CircuitStore,
    s2: CircuitStore,
    events: Vec<Event>,
    addr: Seq<char>,
    reply_res: Result<Response, ContractError>,
    channel: IbcChannel,
    ica_address: String,
    tx_encoding: TxEncoding,
    callback_res: Result<Response, ContractError>,
)
    requires
        instantiated_address(events.deep_view()) == Some(addr),
        addr_key(addr) != id_key(count_or_zero(s0)),
        init_reply_recorded(s0, s1, SubMsgResult::Success(events), reply_res),
        callback_recorded(
            s1,
            s2,
            addr,
            IcaControllerCallbackMsg::OnChannelOpenAckCallback { channel, ica_address, tx_encoding },
            callback_res,
        ),
    ensures
        callback_res is Ok,
        s2.entries().get(id_key(count_or_zero(s0))) matches Some(BucketEntry::Ica(st)) && st.contract_addr@ == addr
            && st.ica_state == Some(
            IcaState {
                ica_id: count_or_zero(s0),
                ica_addr: ica_address,
                tx_encoding,
                channel_state: ChannelState { channel, channel_status: ChannelStatus::Open },
            },
        ),
{
    let c = count_or_zero(s0);
    assert(s1.entries().contains_key(addr_key(addr)));
    assert(s1.entries().contains_key(id_key(c)));
}


/// How many of the replies report an instantiated controller.
pub open spec fn replies_recorded(results: Seq<SubMsgResult>) -> nat
    decreases results.len(),
{
    if results.len() == 0 {
        0
    } else {
        replies_recorded(results.drop_last()) + match results.last() {
            SubMsgResult::Success(events) => if instantiated_address(events.deep_view()) is Some {
                1nat
            } else {
                0nat
            },
            SubMsgResult::Failure(_) => 0nat,
        }
    }
}

/// After a run of instantiation replies on the store that instantiation
/// leaves, the count, which `ica_count` answers, is the number of replies
/// that reported a controller.
pub proof fn lemma_count_after_replies(
    stores: Seq<CircuitStore>,
    results: Seq<SubMsgResult>,
    answers: Seq<Result<Response, ContractError>>,
)
    requires
        stores.len() == results.len() + 1,
        answers.len() == results.len(),
        replies_recorded(results) <= u64::MAX,
        stores[0].count is None,
        forall|i: int|
            #![trigger results[i]]
            0 <= i < results.len() ==> init_reply_recorded(stores[i], stores[i + 1], results[i], answers[i]),
    ensures
        count_or_zero(stores.last()) == replies_recorded(results),
    decreases results.len(),
{
    if results.len() > 0 {
        let k = results.len() - 1;
        lemma_count_after_replies(stores.drop_last(), results.drop_last(), answers.drop_last());
        assert(stores.drop_last().last() == stores[k]);
        assert(results.drop_last().len() == k);
        assert(init_reply_recorded(stores[k], stores[k + 1], results[k], answers[k]));
    }
}

} // verus!
