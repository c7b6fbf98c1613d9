use headstash::circuitboard::{execute, CircuitStep, ExecuteMsg};
use headstash::circuitboard::{
    compute_plaintext_msg, create_ica_contract, ica_callback_handler, ica_count, ica_state, id_key_bytes,
    instantiate, reply, save_ica_contract_init_reply, send_ibc_bloom, state, validate_claim,
    validate_ethereum_text, validate_plaintext_msg, CircuitStore, ContractError,
    InstantiateMsg, SubMsgResult, INIT_ID,
};
use headstash::ica_owner::{ChannelOpenInitOptions, IbcChannel, IbcOrder, IcaControllerCallbackMsg, TxEncoding};
use headstash::msg::{Attribute, Coin, CosmosMsg, Event, IcaMsg, StdError};
use headstash::proto::bank_send_value;

fn board() -> CircuitStore {
    instantiate(
        InstantiateMsg {
            owner: None,
            ica_controller_code_id: 3,
            ica_controller_code_hash: "ctrl-hash".to_string(),
            headstash_addr: "secret1hs".to_string(),
            bloom_plaintxt_msg: "{wallet} sends to {secondary_address}".to_string(),
        },
        "admin".to_string(),
    )
}

fn options() -> ChannelOpenInitOptions {
    ChannelOpenInitOptions {
        connection_id: "connection-0".to_string(),
        counterparty_connection_id: "connection-1".to_string(),
        counterparty_port_id: None,
        channel_ordering: None,
    }
}

fn instantiated(addr: &str) -> SubMsgResult {
    SubMsgResult::Success(vec![Event {
        ty: "instantiate".to_string(),
        attributes: vec![
            Attribute { key: "code_id".to_string(), value: "3".to_string() },
            Attribute { key: "contract_address".to_string(), value: addr.to_string() },
        ],
    }])
}

#[test]
fn plaintext_is_filled_in() {
    let msg = compute_plaintext_msg(&"{wallet} sends to {secondary_address}".to_string(), &"secret1me".to_string(), "0xdead");
    assert_eq!(msg, "secret1me sends to 0xdead");
    let twice = compute_plaintext_msg(&"{wallet}{wallet}".to_string(), &"a".to_string(), "b");
    assert_eq!(twice, "aa");
}

#[test]
fn plaintext_validation() {
    assert!(validate_plaintext_msg("{wallet} {secondary_address}".to_string()).is_ok());
    let err = validate_plaintext_msg("{wallet} only".to_string()).unwrap_err();
    assert!(matches!(err, StdError::GenericErr(m)
        if m == "Plaintext message must contain `{{wallet}}` and `{{secondary_address}}` strings"));
    let long = format!("{{wallet}}{{secondary_address}}{}", "x".repeat(1000));
    let err = validate_plaintext_msg(long).unwrap_err();
    assert!(matches!(err, StdError::GenericErr(m) if m == "Plaintext message is too long"));
    let exact = format!("{{wallet}}{{secondary_address}}{}", "x".repeat(1000 - 27));
    assert_eq!(exact.len(), 1000);
    assert!(validate_plaintext_msg(exact).is_ok());
}

#[test]
fn ethereum_text_decodes_the_signature() {
    let t = validate_ethereum_text(&"me".to_string(), &"{wallet}:{secondary_address}".to_string(), &"0a0B".to_string(), "dst").unwrap();
    assert_eq!(t.plaintext, "me:dst");
    assert_eq!(t.signature, vec![0x0a, 0x0b]);
    let err = validate_ethereum_text(&"me".to_string(), &"x".to_string(), &"0xzz".to_string(), "dst").unwrap_err();
    assert!(matches!(err, StdError::InvalidHex(m) if m == "Could not decode 0xzz"));
}

#[test]
fn claim_validation_follows_the_signature_check() {
    assert!(validate_claim(Ok(true)).is_ok());
    assert!(matches!(validate_claim(Ok(false)), Err(StdError::GenericErr(m)) if m == "cannot validate eth_sig"));
    assert!(matches!(validate_claim(Err(StdError::ParseErr("p".to_string()))), Err(StdError::ParseErr(_))));
}

#[test]
fn id_keys_are_little_endian() {
    assert_eq!(id_key_bytes(1), vec![1, 0, 0, 0, 0, 0, 0, 0]);
    assert_eq!(id_key_bytes(0x0102), vec![2, 1, 0, 0, 0, 0, 0, 0]);
    assert_eq!(id_key_bytes(u64::MAX), vec![255; 8]);
}

#[test]
fn admin_creates_controllers() {
    let store = board();
    let plan = create_ica_contract(&store, "admin".to_string(), "secret1board".to_string(), options()).unwrap();
    assert_eq!(plan.label, "icacontroller-secret1board-0");
    assert_eq!(plan.code_id, 3);
    assert_eq!(plan.code_hash, "ctrl-hash");
    assert_eq!(plan.reply_id, INIT_ID);
    let err = create_ica_contract(&store, "x".to_string(), "secret1board".to_string(), options()).unwrap_err();
    assert!(matches!(err, ContractError::Unauthorized));
}

#[test]
fn other_reply_ids_are_refused() {
    let mut store = board();
    let err = reply(&mut store, 420, instantiated("secret1ctrl")).unwrap_err();
    assert!(matches!(err, ContractError::UnknownReplyId(420)));
    assert!(state(&store).is_ok());
    assert_eq!(ica_count(&store).unwrap(), 0);
}

#[test]
fn init_reply_records_the_controller_and_keeps_the_state() {
    let mut store = board();
    assert_eq!(ica_count(&store).unwrap(), 0);
    reply(&mut store, INIT_ID, instantiated("secret1ctrl")).unwrap();
    assert_eq!(ica_state(&store, 0).unwrap().contract_addr, "secret1ctrl");
    assert_eq!(ica_count(&store).unwrap(), 1);
    assert_eq!(state(&store).unwrap().admin, "admin");
    let p = create_ica_contract(&store, "admin".to_string(), "secret1board".to_string(), options()).unwrap();
    assert_eq!(p.label, "icacontroller-secret1board-1");
    reply(&mut store, INIT_ID, instantiated("secret1ctrl2")).unwrap();
    assert_eq!(ica_count(&store).unwrap(), 2);
    assert_eq!(ica_state(&store, 1).unwrap().contract_addr, "secret1ctrl2");
}

#[test]
fn failed_or_addressless_replies_change_nothing() {
    let mut store = board();
    save_ica_contract_init_reply(&mut store, SubMsgResult::Failure("boom".to_string())).unwrap();
    save_ica_contract_init_reply(&mut store, SubMsgResult::Success(vec![])).unwrap();
    assert!(state(&store).is_ok());
    assert!(matches!(ica_state(&store, 0), Err(StdError::NotFound(_))));
}

#[test]
fn channel_open_is_recorded() {
    let mut store = board();
    reply(&mut store, INIT_ID, instantiated("secret1ctrl")).unwrap();
    let cb = IcaControllerCallbackMsg::OnChannelOpenAckCallback {
        channel: IbcChannel {
            endpoint_port_id: "p".to_string(),
            endpoint_channel_id: "channel-3".to_string(),
            counterparty_port_id: "icahost".to_string(),
            counterparty_channel_id: "channel-4".to_string(),
            order: IbcOrder::Ordered,
            version: "v".to_string(),
            connection_id: "connection-0".to_string(),
        },
        ica_address: "terp1ica".to_string(),
        tx_encoding: TxEncoding::Proto3Json,
    };
    ica_callback_handler(&mut store, "secret1ctrl".to_string(), cb).unwrap();
    let ica = ica_state(&store, 0).unwrap().ica_state.as_ref().unwrap();
    assert_eq!(ica.ica_addr, "terp1ica");
    let err = ica_callback_handler(&mut store, "nobody".to_string(), IcaControllerCallbackMsg::OnTimeoutPacketCallback {}).unwrap_err();
    assert!(matches!(err, ContractError::Std(StdError::NotFound(_))));
}

fn funds() -> Vec<Coin> {
    vec![Coin { denom: "uscrt".to_string(), amount: 4 }, Coin { denom: "uterp".to_string(), amount: 9 }]
}

#[test]
fn bloom_checks_before_moving_tokens() {
    let store = board();
    let bloom = |sig: &str, verified: Result<bool, StdError>| {
        send_ibc_bloom(&store, "me".to_string(), 0, "dst".to_string(), "0xkey".to_string(), sig.to_string(), funds(), verified)
    };
    let err = bloom("zz", Ok(true)).unwrap_err();
    assert!(matches!(err, ContractError::Std(StdError::InvalidHex(_))));
    let err = bloom("00", Ok(false)).unwrap_err();
    assert!(matches!(err, ContractError::Std(StdError::GenericErr(m)) if m == "cannot validate eth_sig"));
    let err = bloom("00", Ok(true)).unwrap_err();
    assert!(matches!(err, ContractError::Std(StdError::NotFound(_))));
}

#[test]
fn bloom_sends_the_funds_to_the_destination() {
    let mut store = board();
    headstash::circuitboard::ica_states_w(&mut store, 0, headstash::circuitboard::IcaContractState::new("secret1ctrl".to_string()));
    let err = send_ibc_bloom(&store, "me".to_string(), 0, "dst".to_string(), "0xkey".to_string(), "00".to_string(), funds(), Ok(true)).unwrap_err();
    assert!(matches!(err, ContractError::IcaInfoNotSet));
    headstash::circuitboard::addr_to_ica_ir_w(&mut store, &"secret1ctrl".to_string(), 0);
    let cb = IcaControllerCallbackMsg::OnChannelOpenAckCallback {
        channel: IbcChannel {
            endpoint_port_id: "p".to_string(),
            endpoint_channel_id: "channel-3".to_string(),
            counterparty_port_id: "icahost".to_string(),
            counterparty_channel_id: "channel-4".to_string(),
            order: IbcOrder::Unordered,
            version: "v".to_string(),
            connection_id: "connection-0".to_string(),
        },
        ica_address: "secret1ica".to_string(),
        tx_encoding: TxEncoding::Protobuf,
    };
    ica_callback_handler(&mut store, "secret1ctrl".to_string(), cb).unwrap();
    let res = send_ibc_bloom(&store, "me".to_string(), 0, "dst".to_string(), "0xkey".to_string(), "00".to_string(), funds(), Ok(true)).unwrap();
    assert_eq!(res.messages.len(), 1);
    let CosmosMsg::IcaExecute { controller, messages } = &res.messages[0] else { panic!("expected an ICA execution") };
    assert_eq!(controller, "secret1ctrl");
    assert_eq!(messages.len(), 1);
    let IcaMsg::Stargate { type_url, value } = &messages[0] else { panic!("expected a bank send") };
    assert_eq!(type_url, "/cosmos.bank.v1beta1.MsgSend");
    assert_eq!(*value, bank_send_value("secret1ica", "dst", &funds()));
}

#[test]
fn the_bloom_owner_is_the_signing_key() {
    let b = board();
    let st = state(&b).unwrap();
    let owner = |key: &str| {
        st.verify_headstash_bloom(&"me".to_string(), &key.to_string(), &"00".to_string(), &st.bloom_plaintxt_msg, &"dst".to_string(), Ok(true))
            .unwrap()
    };
    assert_eq!(owner("0xaaa"), "0xaaa");
    assert_ne!(owner("0xaaa"), owner("0xbbb"));
}

#[test]
fn board_execute_routes_each_message() {
    let mut store = board();
    let step = execute(
        &mut store,
        "admin".to_string(),
        "board".to_string(),
        ExecuteMsg::CreateIcaContract { channel_open_init_options: options() },
        vec![],
        Ok(true),
    );
    match step {
        CircuitStep::Instantiate(p) => {
            assert_eq!(p.label, "icacontroller-board-0");
            assert_eq!(p.reply_id, INIT_ID);
        }
        other => panic!("unexpected step {other:?}"),
    }
    let step = execute(
        &mut store,
        "stranger".to_string(),
        "board".to_string(),
        ExecuteMsg::CreateIcaContract { channel_open_init_options: options() },
        vec![],
        Ok(true),
    );
    assert!(matches!(step, CircuitStep::Answer(Err(ContractError::Unauthorized))));
    let bloom = ExecuteMsg::IbcBloom {
        ica_id: 0,
        to_address: "0xdead".to_string(),
        eth_pubkey: "0x02".to_string(),
        eth_sig: "zz".to_string(),
    };
    let step = execute(&mut store, "me".to_string(), "board".to_string(), bloom, vec![], Ok(true));
    assert!(matches!(step, CircuitStep::Answer(Err(ContractError::Std(StdError::InvalidHex(_))))));
    let cb = IcaControllerCallbackMsg::OnTimeoutPacketCallback {};
    let step = execute(&mut store, "unknown".to_string(), "board".to_string(), ExecuteMsg::ReceiveIcaCallback(cb), vec![], Ok(true));
    assert!(matches!(step, CircuitStep::Answer(Err(ContractError::Std(StdError::NotFound(_))))));
}
