use headstash::ica_owner::{execute, ChannelOpenInitOptions, ExecuteMsg, ExecuteStep};
use headstash::commands::WasmBlobs;
use headstash::ica_owner::{
    create_ica_contract, ibc_transfer_to_snip_contracts, ica_add_headstash_claimers,
    ica_authorize_feegrant, ica_authorize_snip120u_minter, ica_callback_handler, ica_count,
    ica_instantiate_headstash_circuitboard, ica_instantiate_headstash_contract,
    ica_instantiate_terp_network_snip120us, ica_state, ica_upload_contract_on_secret, instantiate,
    register_ica_contract, update_ownership, AckData, ContractError, HeadstashCallback,
    HeadstashParams, HeadstashTokenParams, IbcChannel, IbcOrder, IcaControllerCallbackMsg,
    IcaOwnerStore, InstantiateMsg, TxEncoding,
};
use headstash::msg::{Coin, CosmosMsg, Headstash, IcaMsg, SecretExecMsg, StdError, WasmInitMsg};
use headstash::ownership::{OwnershipAction, OwnershipError};
use headstash::proto::{grant_allowance_value, store_code_value};

fn token(name: &str, native: &str, snip: Option<&str>) -> HeadstashTokenParams {
    HeadstashTokenParams {
        name: name.to_string(),
        symbol: format!("s{name}"),
        native: native.to_string(),
        ibc: format!("ibc/{native}"),
        snip_addr: snip.map(|s| s.to_string()),
    }
}

fn params(tokens: Vec<HeadstashTokenParams>) -> HeadstashParams {
    HeadstashParams {
        snip120u_code_id: 5,
        snip120u_code_hash: "snip-hash".to_string(),
        headstash_code_id: None,
        token_params: tokens,
        headstash: None,
    }
}

fn channel() -> IbcChannel {
    IbcChannel {
        endpoint_port_id: "wasm.ctrl".to_string(),
        endpoint_channel_id: "channel-1".to_string(),
        counterparty_port_id: "icahost".to_string(),
        counterparty_channel_id: "channel-9".to_string(),
        order: IbcOrder::Ordered,
        version: "ics27-1".to_string(),
        connection_id: "connection-0".to_string(),
    }
}

fn owner_store() -> IcaOwnerStore {
    instantiate(
        InstantiateMsg { admin: Some("owner".to_string()), ica_controller_code_id: 11, snip25_code_id: 12 },
        "deployer".to_string(),
    )
}

fn with_ica(tokens: Vec<HeadstashTokenParams>) -> IcaOwnerStore {
    let mut store = owner_store();
    let id = register_ica_contract(&mut store, "controller".to_string(), params(tokens));
    assert_eq!(id, 0);
    store
}

fn open_channel(store: &mut IcaOwnerStore) {
    let cb = IcaControllerCallbackMsg::OnChannelOpenAckCallback {
        channel: channel(),
        ica_address: "secret1ica".to_string(),
        tx_encoding: TxEncoding::Protobuf,
    };
    ica_callback_handler(store, "controller".to_string(), cb).unwrap();
}

fn ack(store: &mut IcaOwnerStore, response: cosmwasm_std::Response) -> Result<headstash::msg::Response, ContractError> {
    let bytes = cosmwasm_std::to_json_vec(&response).unwrap();
    let cb = IcaControllerCallbackMsg::OnAcknowledgementPacketCallback { ica_acknowledgement: AckData::Result(bytes) };
    ica_callback_handler(store, "controller".to_string(), cb)
}

fn callback_value(res: &headstash::msg::Response) -> String {
    assert_eq!(res.attributes.len(), 1);
    assert_eq!(res.attributes[0].key, "ica_callback_id");
    res.attributes[0].value.clone()
}

#[test]
fn instantiate_takes_admin_else_sender() {
    let store = owner_store();
    assert_eq!(store.owner.as_deref(), Some("owner"));
    let store = instantiate(
        InstantiateMsg { admin: None, ica_controller_code_id: 3, snip25_code_id: 4 },
        "deployer".to_string(),
    );
    assert_eq!(store.owner.as_deref(), Some("deployer"));
    assert_eq!(store.state.as_ref().unwrap().ica_controller_code_id, 3);
    assert_eq!(ica_count(&store).unwrap(), 0);
}

#[test]
fn create_plans_label_and_salt() {
    let store = owner_store();
    let plan = create_ica_contract(&store, "owner".to_string(), "terp1self".to_string(), 1700, None).unwrap();
    assert_eq!(plan.ica_id, 0);
    assert_eq!(plan.code_id, 11);
    assert_eq!(plan.label, "ica-controller-terp1self-0");
    assert_eq!(plan.salt, "1700");
    assert_eq!(plan.admin, "terp1self");
    let plan = create_ica_contract(&store, "owner".to_string(), "terp1self".to_string(), 1700, Some("s".to_string())).unwrap();
    assert_eq!(plan.salt, "s");
    let err = create_ica_contract(&store, "x".to_string(), "terp1self".to_string(), 1, None).unwrap_err();
    assert!(matches!(err, ContractError::OwnershipError(OwnershipError::NotOwner)));
}

#[test]
fn registered_ids_are_sequential() {
    let mut store = owner_store();
    assert_eq!(register_ica_contract(&mut store, "c0".to_string(), params(vec![])), 0);
    assert_eq!(register_ica_contract(&mut store, "c1".to_string(), params(vec![])), 1);
    assert_eq!(ica_count(&store).unwrap(), 2);
    assert_eq!(ica_state(&store, 1).unwrap().contract_addr, "c1");
    let plan = create_ica_contract(&store, "owner".to_string(), "me".to_string(), 0, None).unwrap();
    assert_eq!(plan.ica_id, 2);
    assert_eq!(plan.label, "ica-controller-me-2");
}

#[test]
fn channel_open_is_read_back() {
    let mut store = with_ica(vec![]);
    open_channel(&mut store);
    let st = ica_state(&store, 0).unwrap();
    let ica = st.ica_state.as_ref().unwrap();
    assert_eq!(ica.ica_id, 0);
    assert_eq!(ica.ica_addr, "secret1ica");
    assert_eq!(ica.tx_encoding, TxEncoding::Protobuf);
    assert_eq!(ica.channel_state.channel.endpoint_channel_id, "channel-1");
    assert!(matches!(ica.channel_state.channel_status, headstash::ica_owner::ChannelStatus::Open));
}

#[test]
fn callbacks_from_unknown_controllers_are_refused() {
    let mut store = with_ica(vec![]);
    let cb = IcaControllerCallbackMsg::OnTimeoutPacketCallback {};
    let err = ica_callback_handler(&mut store, "stranger".to_string(), cb).unwrap_err();
    assert!(matches!(err, ContractError::Std(StdError::NotFound(_))));
}

#[test]
fn upload_ack_records_code_id_and_checksum() {
    let mut store = with_ica(vec![]);
    let response = cosmwasm_std::Response::<cosmwasm_std::Empty>::new()
        .add_attribute("ica_callback_id", "upload_headstash")
        .add_event(cosmwasm_std::Event::new("store_code").add_attribute("checksum", "abc").add_attribute("code_id", "42"));
    ack(&mut store, response).unwrap();
    let hp = &ica_state(&store, 0).unwrap().headstash_params;
    assert_eq!(hp.headstash_code_id, Some(42));
    assert_eq!(hp.snip120u_code_hash, "abc");
}

#[test]
fn upload_ack_with_a_bad_code_id_is_refused() {
    let mut store = with_ica(vec![]);
    let response = cosmwasm_std::Response::<cosmwasm_std::Empty>::new()
        .add_attribute("ica_callback_id", "upload_headstash")
        .add_event(cosmwasm_std::Event::new("store_code").add_attribute("checksum", "abc").add_attribute("code_id", "x"));
    let err = ack(&mut store, response).unwrap_err();
    assert!(matches!(err, ContractError::Std(StdError::ParseErr(_))));
    assert_eq!(ica_state(&store, 0).unwrap().headstash_params.headstash_code_id, None);
}

#[test]
fn upload_ack_missing_attributes_aborts() {
    let mut store = with_ica(vec![]);
    let response = cosmwasm_std::Response::<cosmwasm_std::Empty>::new()
        .add_attribute("ica_callback_id", "upload_headstash")
        .add_event(cosmwasm_std::Event::new("store_code").add_attribute("checksum", "abc"));
    assert!(matches!(ack(&mut store, response), Err(ContractError::CallbackAborted)));
}

#[test]
fn ack_without_callback_attribute_is_refused() {
    let mut store = with_ica(vec![]);
    let response = cosmwasm_std::Response::<cosmwasm_std::Empty>::new().add_attribute("other", "x");
    assert!(matches!(ack(&mut store, response), Err(ContractError::CallbackError)));
    let response = cosmwasm_std::Response::<cosmwasm_std::Empty>::new().add_attribute("ica_callback_id", "unknown");
    assert!(matches!(ack(&mut store, response), Err(ContractError::CallbackError)));
}

#[test]
fn malformed_ack_json_is_refused() {
    let mut store = with_ica(vec![]);
    let cb = IcaControllerCallbackMsg::OnAcknowledgementPacketCallback {
        ica_acknowledgement: AckData::Result(b"not json".to_vec()),
    };
    let err = ica_callback_handler(&mut store, "controller".to_string(), cb).unwrap_err();
    assert!(matches!(err, ContractError::Std(StdError::ParseErr(_))));
}

#[test]
fn error_acks_and_timeouts_change_nothing() {
    let mut store = with_ica(vec![]);
    let cb = IcaControllerCallbackMsg::OnAcknowledgementPacketCallback {
        ica_acknowledgement: AckData::Error("boom".to_string()),
    };
    let res = ica_callback_handler(&mut store, "controller".to_string(), cb).unwrap();
    assert!(res.messages.is_empty());
    assert!(ica_state(&store, 0).unwrap().ica_state.is_none());
}

#[test]
fn instantiate_acks_record_headstash_and_each_snip() {
    let mut store = with_ica(vec![token("TERP", "uterp", None), token("THIOL", "uthiol", None)]);
    let response = cosmwasm_std::Response::<cosmwasm_std::Empty>::new()
        .add_attribute("ica_callback_id", "instantiate_headstash")
        .add_event(cosmwasm_std::Event::new("instantiate").add_attribute("contract_address", "secret1hs"));
    ack(&mut store, response).unwrap();
    assert_eq!(ica_state(&store, 0).unwrap().headstash_params.headstash.as_deref(), Some("secret1hs"));
    let response = cosmwasm_std::Response::<cosmwasm_std::Empty>::new()
        .add_attribute("ica_callback_id", "instantiate_snip120us")
        .add_event(cosmwasm_std::Event::new("instantiate").add_attribute("contract_address", "secret1a"))
        .add_event(cosmwasm_std::Event::new("instantiate").add_attribute("contract_address", "secret1b"));
    ack(&mut store, response).unwrap();
    let tp = &ica_state(&store, 0).unwrap().headstash_params.token_params;
    assert_eq!(tp[0].snip_addr.as_deref(), Some("secret1a"));
    assert_eq!(tp[1].snip_addr.as_deref(), Some("secret1b"));
}

#[test]
fn snip_ack_fills_tokens_in_order_and_keeps_the_rest() {
    let mut store = with_ica(vec![token("TERP", "uterp", None), token("THIOL", "uthiol", Some("old"))]);
    let response = cosmwasm_std::Response::<cosmwasm_std::Empty>::new()
        .add_attribute("ica_callback_id", "instantiate_snip120us")
        .add_event(cosmwasm_std::Event::new("wasm").add_attribute("x", "y"))
        .add_event(cosmwasm_std::Event::new("instantiate").add_attribute("contract_address", "secret1a"));
    ack(&mut store, response).unwrap();
    let tp = &ica_state(&store, 0).unwrap().headstash_params.token_params;
    assert_eq!(tp[0].snip_addr.as_deref(), Some("secret1a"));
    assert_eq!(tp[1].snip_addr.as_deref(), Some("old"));
    let response = cosmwasm_std::Response::<cosmwasm_std::Empty>::new()
        .add_attribute("ica_callback_id", "instantiate_snip120us")
        .add_event(cosmwasm_std::Event::new("instantiate").add_attribute("contract_address", "a"))
        .add_event(cosmwasm_std::Event::new("instantiate").add_attribute("contract_address", "b"))
        .add_event(cosmwasm_std::Event::new("instantiate").add_attribute("contract_address", "c"));
    ack(&mut store, response).unwrap();
    let tp = &ica_state(&store, 0).unwrap().headstash_params.token_params;
    assert_eq!(tp.len(), 2);
    assert_eq!(tp[0].snip_addr.as_deref(), Some("a"));
    assert_eq!(tp[1].snip_addr.as_deref(), Some("b"));
}

#[test]
fn upload_goes_through_the_ica() {
    let store = with_ica(vec![]);
    let blobs = WasmBlobs { cw_headstash: vec![7], snip120u: vec![8], circuitboard: vec![9] };
    let res = ica_upload_contract_on_secret(&store, "owner".to_string(), 0, "cw-headstash".to_string(), &blobs).unwrap();
    assert_eq!(callback_value(&res), "upload_headstash");
    match &res.messages[0] {
        CosmosMsg::IcaExecute { controller, messages } => {
            assert_eq!(controller, "controller");
            assert!(matches!(&messages[0], IcaMsg::Stargate { value, .. } if *value == store_code_value("owner", &[7])));
        }
        _ => panic!("expected an ICA execution"),
    }
    let err = ica_upload_contract_on_secret(&store, "owner".to_string(), 3, "cw-headstash".to_string(), &blobs).unwrap_err();
    assert!(matches!(err, ContractError::Std(StdError::NotFound(_))));
    let err = ica_upload_contract_on_secret(&store, "owner".to_string(), 0, "other".to_string(), &blobs).unwrap_err();
    assert!(matches!(err, ContractError::Std(StdError::GenericErr(m)) if m == "bad contract upload"));
}

#[test]
fn headstash_instantiation_needs_each_step_done() {
    let mut store = with_ica(vec![token("TERP", "uterp", None), token("THIOL", "uthiol", None)]);
    let t = 1_000_000_000u64;
    let err = ica_instantiate_headstash_contract(&store, "owner".to_string(), t, 0, 5, 100).unwrap_err();
    assert!(matches!(err, ContractError::NoIcaInfo));
    open_channel(&mut store);
    let err = ica_instantiate_headstash_contract(&store, "owner".to_string(), t, 0, 5, 100).unwrap_err();
    assert!(matches!(err, ContractError::NoHeadstashCodeId));
    let response = cosmwasm_std::Response::<cosmwasm_std::Empty>::new()
        .add_attribute("ica_callback_id", "upload_headstash")
        .add_event(cosmwasm_std::Event::new("store_code").add_attribute("checksum", "h").add_attribute("code_id", "9"));
    ack(&mut store, response).unwrap();
    let err = ica_instantiate_headstash_contract(&store, "owner".to_string(), t, 0, 5, 100).unwrap_err();
    assert!(matches!(err, ContractError::NoSnipContractAddr));
    let err = ica_instantiate_headstash_contract(&store, "owner".to_string(), t, 8, 5, 100).unwrap_err();
    assert!(matches!(err, ContractError::Std(StdError::NotFound(_))));
}

#[test]
fn headstash_instantiation_message() {
    let mut store = with_ica(vec![token("TERP", "uterp", Some("secret1a")), token("THIOL", "uthiol", Some("secret1b"))]);
    open_channel(&mut store);
    let response = cosmwasm_std::Response::<cosmwasm_std::Empty>::new()
        .add_attribute("ica_callback_id", "upload_headstash")
        .add_event(cosmwasm_std::Event::new("store_code").add_attribute("checksum", "h").add_attribute("code_id", "9"));
    ack(&mut store, response).unwrap();
    let t = 1_000_000_000u64;
    let res = ica_instantiate_headstash_contract(&store, "owner".to_string(), t, 0, 5, 100).unwrap();
    assert_eq!(callback_value(&res), "instantiate_headstash");
    let CosmosMsg::IcaExecute { messages, .. } = &res.messages[0] else { panic!("expected an ICA execution") };
    let IcaMsg::WasmInstantiate { admin, code_id, label, msg: WasmInitMsg::Headstash(init) } = &messages[0] else {
        panic!("expected the headstash instantiation")
    };
    assert_eq!(*admin, None);
    assert_eq!(*code_id, 9);
    assert_eq!(label, "Secret-Headstash Airdrop Contract: Terp Network");
    assert_eq!(init.claim_msg_plaintext, "{wallet}");
    assert_eq!(init.end_date, Some(t + 365 * 86_400 * 1_000_000_000));
    assert_eq!(init.start_date, Some(5));
    assert_eq!(init.total_amount, 100);
    assert_eq!(init.snip20_1.address, "secret1a");
    assert_eq!(init.snip20_1.code_hash, "h");
    assert_eq!(init.snip20_2.as_ref().unwrap().address, "secret1b");
    assert_eq!(init.viewing_key, "eretskeretjablret");
    assert_eq!(init.admin, "secret1ica");
}

#[test]
fn snip120u_instantiations_for_every_token() {
    let store = with_ica(vec![token("TERP", "uterp", None), token("THIOL", "uthiol", None)]);
    let asked = vec![token("Terp", "uterp", None), token("Other", "uother", None), token("Thiol", "uthiol", None)];
    let res = ica_instantiate_terp_network_snip120us(&store, "owner".to_string(), 0, asked).unwrap();
    let CosmosMsg::IcaExecute { messages, .. } = &res.messages[0] else { panic!("expected an ICA execution") };
    assert_eq!(messages.len(), 3);
    let IcaMsg::SecretInstantiate { init, .. } = &messages[1] else { panic!("expected a SNIP-120u instantiation") };
    assert_eq!(init.symbol, "sOther");
    let IcaMsg::SecretInstantiate { init, .. } = &messages[2] else { panic!("expected a SNIP-120u instantiation") };
    assert_eq!(init.symbol, "sTHIOL");
    let asked = vec![token("Terp", "uterp", None), token("Thiol", "uthiol", None)];
    let res = ica_instantiate_terp_network_snip120us(&store, "owner".to_string(), 0, asked).unwrap();
    assert_eq!(callback_value(&res), "instantiate_snip120us");
    let CosmosMsg::IcaExecute { messages, .. } = &res.messages[0] else { panic!("expected an ICA execution") };
    assert_eq!(messages.len(), 2);
    let IcaMsg::SecretInstantiate { sender, code_hash, code_id, label, init } = &messages[0] else {
        panic!("expected a SNIP-120u instantiation")
    };
    assert_eq!(sender, "controller");
    assert_eq!(code_hash, "snip-hash");
    assert_eq!(*code_id, 5);
    assert_eq!(label, "SNIP120U For Secret Network - Terp");
    assert_eq!(init.name, "Terp Network SNIP120U - Terp");
    assert_eq!(init.symbol, "sTERP");
    assert_eq!(init.decimals, 6);
    assert_eq!(init.supported_denoms, vec!["ibc/uterp".to_string()]);
    assert_eq!(init.prng_seed, b"eretjeretskeretjablereteretjeretskeretjableret".to_vec());
}

#[test]
fn minters_before_and_after_the_channel_opens() {
    let mut store = with_ica(vec![token("TERP", "uterp", None), token("THIOL", "uthiol", None)]);
    let err = ica_authorize_snip120u_minter(&store, "owner".to_string(), 0).unwrap_err();
    assert!(matches!(err, ContractError::IcaInfoNotSet));
    open_channel(&mut store);
    let response = cosmwasm_std::Response::<cosmwasm_std::Empty>::new()
        .add_attribute("ica_callback_id", "instantiate_headstash")
        .add_event(cosmwasm_std::Event::new("instantiate").add_attribute("contract_address", "secret1hs"));
    ack(&mut store, response).unwrap();
    let err = ica_authorize_snip120u_minter(&store, "owner".to_string(), 0).unwrap_err();
    assert!(matches!(err, ContractError::NoSnipContractAddr));
    let response = cosmwasm_std::Response::<cosmwasm_std::Empty>::new()
        .add_attribute("ica_callback_id", "instantiate_snip120us")
        .add_event(cosmwasm_std::Event::new("instantiate").add_attribute("contract_address", "secret1a"))
        .add_event(cosmwasm_std::Event::new("instantiate").add_attribute("contract_address", "secret1b"));
    ack(&mut store, response).unwrap();
    let res = ica_authorize_snip120u_minter(&store, "owner".to_string(), 0).unwrap();
    assert_eq!(callback_value(&res), "set_headstash_as_snip_minter");
    let CosmosMsg::IcaExecute { messages, .. } = &res.messages[0] else { panic!("expected an ICA execution") };
    assert_eq!(messages.len(), 2);
    let IcaMsg::SecretExecute { sender, contract, msg: SecretExecMsg::AddMinters { minters } } = &messages[1] else {
        panic!("expected add_minters")
    };
    assert_eq!(sender, "secret1ica");
    assert_eq!(contract, "secret1b");
    assert_eq!(minters, &vec!["secret1hs".to_string()]);
    let err = ica_authorize_snip120u_minter(&store, "stranger".to_string(), 0).unwrap_err();
    assert!(matches!(err, ContractError::OwnershipError(OwnershipError::NotOwner)));
}

#[test]
fn claimers_need_channel_and_headstash() {
    let mut store = with_ica(vec![]);
    let add = || vec![Headstash { addr: "0xabc".to_string(), amount: 5 }];
    assert!(matches!(ica_add_headstash_claimers(&store, "owner".to_string(), 0, add()), Err(ContractError::IcaInfoNotSet)));
    open_channel(&mut store);
    assert!(matches!(ica_add_headstash_claimers(&store, "owner".to_string(), 0, add()), Err(ContractError::NoHeadstashContract)));
    let response = cosmwasm_std::Response::<cosmwasm_std::Empty>::new()
        .add_attribute("ica_callback_id", "instantiate_headstash")
        .add_event(cosmwasm_std::Event::new("instantiate").add_attribute("contract_address", "secret1hs"));
    ack(&mut store, response).unwrap();
    let res = ica_add_headstash_claimers(&store, "owner".to_string(), 0, add()).unwrap();
    assert_eq!(callback_value(&res), "add_headstashers");
    let CosmosMsg::IcaExecute { messages, .. } = &res.messages[0] else { panic!("expected an ICA execution") };
    let IcaMsg::SecretExecute { contract, msg: SecretExecMsg::AddHeadstash { headstash }, .. } = &messages[0] else {
        panic!("expected add")
    };
    assert_eq!(contract, "secret1hs");
    assert_eq!(headstash[0].addr, "0xabc");
}

#[test]
fn feegrants_by_owner_and_by_feegranter() {
    let mut store = with_ica(vec![]);
    open_channel(&mut store);
    let res = ica_authorize_feegrant(&store, "owner".to_string(), 0, vec!["g1".to_string(), "g2".to_string()], None).unwrap();
    assert_eq!(callback_value(&res), "authorize_fee_grants");
    let CosmosMsg::IcaExecute { messages, .. } = &res.messages[0] else { panic!("expected an ICA execution") };
    assert_eq!(messages.len(), 2);
    assert!(matches!(&messages[1], IcaMsg::Stargate { type_url, value }
        if type_url == "/cosmos.feegrant.v1beta1.MsgGrantAllowance" && *value == grant_allowance_value("secret1ica", "g2")));
    store.state.as_mut().unwrap().feegranter = Some("granter".to_string());
    let err = ica_authorize_feegrant(&store, "someone".to_string(), 0, vec![], Some(Ok("owner".to_string()))).unwrap_err();
    assert!(matches!(err, ContractError::NotValidFeegranter));
    assert!(ica_authorize_feegrant(&store, "granter".to_string(), 0, vec![], Some(Ok("owner".to_string()))).is_ok());
    assert!(ica_authorize_feegrant(&store, "owner".to_string(), 0, vec![], Some(Ok("owner".to_string()))).is_ok());
    store.state.as_mut().unwrap().feegranter = None;
    let err = ica_authorize_feegrant(&store, "someone".to_string(), 0, vec![], Some(Ok("owner".to_string()))).unwrap_err();
    assert!(matches!(err, ContractError::OwnershipError(OwnershipError::NotOwner)));
    let res = ica_authorize_feegrant(&store, "owner".to_string(), 0, vec!["g3".to_string()], Some(Ok("owner".to_string()))).unwrap();
    let CosmosMsg::IcaExecute { messages, .. } = &res.messages[0] else { panic!("expected an ICA execution") };
    assert!(matches!(&messages[0], IcaMsg::Stargate { value, .. } if *value == grant_allowance_value("secret1ica", "g3")));
    store.state.as_mut().unwrap().feegranter = Some("granter".to_string());
    let err = ica_authorize_feegrant(&store, "granter".to_string(), 0, vec![], Some(Err(StdError::GenericErr("bad addr".to_string())))).unwrap_err();
    assert!(matches!(err, ContractError::Std(StdError::GenericErr(m)) if m == "bad addr"));
    let err = ica_authorize_feegrant(&store, "granter".to_string(), 0, vec![], None).unwrap_err();
    assert!(matches!(err, ContractError::OwnershipError(OwnershipError::NotOwner)));
}

#[test]
fn funds_go_to_their_snip_contracts() {
    let store = with_ica(vec![token("TERP", "uterp", Some("secret1a")), token("THIOL", "uthiol", None)]);
    let coin = |d: &str, a: u128| Coin { denom: d.to_string(), amount: a };
    let t = 5_000_000_000u64;
    let res = ibc_transfer_to_snip_contracts(&store, "owner".to_string(), t, 0, "channel-7".to_string(), vec![coin("uterp", 10)]).unwrap();
    assert_eq!(callback_value(&res), "fund_headstash");
    assert!(matches!(&res.messages[0], CosmosMsg::IbcTransfer { channel_id, to_address, amount, timeout_nanos }
        if channel_id == "channel-7" && to_address == "secret1a" && amount.amount == 10 && *timeout_nanos == t + 600_000_000_000));
    let err = ibc_transfer_to_snip_contracts(&store, "owner".to_string(), t, 0, "c".to_string(), vec![coin("uterp", 1), coin("uthiol", 2)]).unwrap_err();
    assert!(matches!(err, ContractError::NoSnipContractAddr));
    let err = ibc_transfer_to_snip_contracts(&store, "owner".to_string(), t, 0, "c".to_string(), vec![coin("uatom", 1)]).unwrap_err();
    assert!(matches!(err, ContractError::NoCoinSentMatchesHeadstashParams));
    let res = ibc_transfer_to_snip_contracts(&store, "owner".to_string(), t, 0, "c".to_string(), vec![]).unwrap();
    assert!(res.messages.is_empty());
}

fn board_init() -> headstash::circuitboard::InstantiateMsg {
    headstash::circuitboard::InstantiateMsg {
        owner: None,
        ica_controller_code_id: 3,
        ica_controller_code_hash: "h".to_string(),
        headstash_addr: "secret1hs".to_string(),
        bloom_plaintxt_msg: "{wallet} {secondary_address}".to_string(),
    }
}

#[test]
fn circuitboard_is_instantiated_through_the_ica() {
    let store = with_ica(vec![]);
    let res = ica_instantiate_headstash_circuitboard(&store, "owner".to_string(), 0, 44, board_init()).unwrap();
    assert!(res.attributes.is_empty());
    assert_eq!(res.messages.len(), 1);
    let CosmosMsg::IcaExecute { controller, messages } = &res.messages[0] else { panic!("expected an ICA execution") };
    assert_eq!(controller, "controller");
    let IcaMsg::WasmInstantiate { admin, code_id, msg: WasmInitMsg::Circuitboard(init), .. } = &messages[0] else {
        panic!("expected the circuit board's instantiation")
    };
    assert_eq!(*admin, None);
    assert_eq!(*code_id, 44);
    assert_eq!(init.headstash_addr, "secret1hs");
    assert!(ica_instantiate_headstash_circuitboard(&store, "x".to_string(), 0, 44, board_init()).is_err());
}

#[test]
fn ownership_cannot_be_renounced() {
    assert!(matches!(update_ownership(&OwnershipAction::RenounceOwnership), Err(ContractError::OwnershipCannotBeRenounced)));
    assert!(update_ownership(&OwnershipAction::AcceptOwnership).is_ok());
}

#[test]
fn callback_names_read_back() {
    for cb in [
        HeadstashCallback::UploadHeadstash,
        HeadstashCallback::InstantiateHeadstash,
        HeadstashCallback::InstantiateSnip120us,
        HeadstashCallback::SetHeadstashAsSnipMinter,
        HeadstashCallback::FundHeadstash,
        HeadstashCallback::AddHeadstashers,
        HeadstashCallback::AuthorizeFeeGrants,
    ] {
        assert_eq!(HeadstashCallback::from_name(&cb.as_string()), Some(cb));
    }
}

fn exec_env(sender: &str, funds: Vec<Coin>) -> headstash::ica_owner::ExecEnv {
    headstash::ica_owner::ExecEnv {
        sender: sender.to_string(),
        contract_address: "owner-contract".to_string(),
        block_time_nanos: 1_700_000_000_000_000_000,
        funds,
    }
}

#[test]
fn execute_plans_a_controller_and_hands_back_ownership_changes() {
    let mut store = owner_store();
    let msg = ExecuteMsg::CreateIcaContract {
        salt: None,
        channel_open_init_options: ChannelOpenInitOptions {
            connection_id: "connection-0".to_string(),
            counterparty_connection_id: "connection-1".to_string(),
            counterparty_port_id: None,
            channel_ordering: None,
        },
        headstash_params: params(vec![]),
    };
    let blobs = WasmBlobs { cw_headstash: vec![1], snip120u: vec![2], circuitboard: vec![9] };
    match execute(&mut store, exec_env("owner", vec![]), msg, &blobs) {
        ExecuteStep::InstantiateController { plan, .. } => {
            assert_eq!(plan.ica_id, 0);
            assert_eq!(plan.code_id, 11);
            assert_eq!(plan.label, "ica-controller-owner-contract-0");
            assert_eq!(plan.salt, "1700000000");
            assert_eq!(plan.admin, "owner-contract");
        }
        other => panic!("unexpected step {other:?}"),
    }
    let step = execute(&mut store, exec_env("owner", vec![]), ExecuteMsg::UpdateOwnership(OwnershipAction::AcceptOwnership), &blobs);
    assert!(matches!(step, ExecuteStep::UpdateOwnership(OwnershipAction::AcceptOwnership)));
    let step = execute(&mut store, exec_env("owner", vec![]), ExecuteMsg::UpdateOwnership(OwnershipAction::RenounceOwnership), &blobs);
    assert!(matches!(step, ExecuteStep::Answer(Err(ContractError::OwnershipCannotBeRenounced))));
    let step = execute(&mut store, exec_env("stranger", vec![]), ExecuteMsg::AuthorizeMinter { ica_id: 0 }, &blobs);
    assert!(matches!(step, ExecuteStep::Answer(Err(ContractError::OwnershipError(OwnershipError::NotOwner)))));
}

#[test]
fn execute_routes_callbacks_and_steps() {
    let mut store = with_ica(vec![token("terp", "uterp", Some("secret1snip"))]);
    let blobs = WasmBlobs { cw_headstash: vec![1, 2], snip120u: vec![3], circuitboard: vec![9] };
    let cb = IcaControllerCallbackMsg::OnChannelOpenAckCallback {
        channel: channel(),
        ica_address: "secret1ica".to_string(),
        tx_encoding: TxEncoding::Protobuf,
    };
    let step = execute(&mut store, exec_env("controller", vec![]), ExecuteMsg::ReceiveIcaCallback(cb), &blobs);
    assert!(matches!(step, ExecuteStep::Answer(Ok(_))));
    assert_eq!(ica_state(&store, 0).unwrap().ica_state.as_ref().unwrap().ica_addr, "secret1ica");
    let msg = ExecuteMsg::UploadContractOnSecret { ica_id: 0, wasm: "snip120u".to_string() };
    match execute(&mut store, exec_env("owner", vec![]), msg, &blobs) {
        ExecuteStep::Answer(Ok(res)) => assert_eq!(callback_value(&res), "upload_headstash"),
        other => panic!("unexpected step {other:?}"),
    }
    let funds = vec![Coin { denom: "uterp".to_string(), amount: 5 }];
    let msg = ExecuteMsg::IBCTransferTokens { ica_id: 0, channel_id: "channel-3".to_string() };
    match execute(&mut store, exec_env("owner", funds), msg, &blobs) {
        ExecuteStep::Answer(Ok(res)) => match &res.messages[0] {
            CosmosMsg::IbcTransfer { to_address, timeout_nanos, .. } => {
                assert_eq!(to_address, "secret1snip");
                assert_eq!(*timeout_nanos, 1_700_000_600_000_000_000);
            }
            other => panic!("unexpected message {other:?}"),
        },
        other => panic!("unexpected step {other:?}"),
    }
}

#[test]
fn upload_ack_reads_decimal_code_ids() {
    for (text, expected) in [("0", Some(0u64)), ("+7", Some(7)), ("18446744073709551615", Some(u64::MAX))] {
        let mut store = with_ica(vec![]);
        let response = cosmwasm_std::Response::<cosmwasm_std::Empty>::new()
            .add_attribute("ica_callback_id", "upload_headstash")
            .add_event(cosmwasm_std::Event::new("store_code").add_attribute("checksum", "c").add_attribute("code_id", text));
        ack(&mut store, response).unwrap();
        assert_eq!(ica_state(&store, 0).unwrap().headstash_params.headstash_code_id, expected);
    }
    for text in ["", "-1", "4x", "18446744073709551616"] {
        let mut store = with_ica(vec![]);
        let response = cosmwasm_std::Response::<cosmwasm_std::Empty>::new()
            .add_attribute("ica_callback_id", "upload_headstash")
            .add_event(cosmwasm_std::Event::new("store_code").add_attribute("checksum", "c").add_attribute("code_id", text));
        assert!(matches!(ack(&mut store, response), Err(ContractError::Std(StdError::ParseErr(_)))));
    }
}

#[test]
fn upload_ack_code_id_round_trips() {
    for n in [0u64, 9, 10, 99, 100, 65535, u64::MAX] {
        let mut store = with_ica(vec![]);
        let response = cosmwasm_std::Response::<cosmwasm_std::Empty>::new()
            .add_attribute("ica_callback_id", "upload_headstash")
            .add_event(cosmwasm_std::Event::new("store_code").add_attribute("checksum", "c").add_attribute("code_id", n.to_string()));
        ack(&mut store, response).unwrap();
        assert_eq!(ica_state(&store, 0).unwrap().headstash_params.headstash_code_id, Some(n));
    }
}
