use headstash::glob::{execute, ExecuteMsg};
use headstash::glob::{
    add_glob, get_ica_upload_msg, instantiate, manifest_wasm_blob, ContractError, Glob, GlobStore,
    InstantiateMsg,
};
use headstash::msg::{IcaMsg, StdError};
use headstash::ownership::OwnershipError;
use headstash::proto::store_code_value;

fn glob(key: &str, blob: &[u8]) -> Glob {
    Glob { key: key.to_string(), blob: blob.to_vec() }
}

fn filed_store() -> GlobStore {
    let mut store = instantiate(InstantiateMsg { owner: "owner".to_string() });
    add_glob(&mut store, "owner".to_string(), vec![glob("cw-headstash", &[1, 2, 3]), glob("snip120u", &[4, 5])]).unwrap();
    store
}

#[test]
fn owner_files_blobs_and_reads_them_back() {
    let mut store = instantiate(InstantiateMsg { owner: "owner".to_string() });
    let res = add_glob(&mut store, "owner".to_string(), vec![glob("a", &[1]), glob("b", &[2, 3])]).unwrap();
    assert_eq!(res.events.len(), 1);
    assert_eq!(res.events[0].ty, "glob");
    let keys: Vec<(String, String)> =
        res.events[0].attributes.iter().map(|a| (a.key.clone(), a.value.clone())).collect();
    assert_eq!(keys, vec![("glob-key".to_string(), "a".to_string()), ("glob-key".to_string(), "b".to_string())]);
    assert_eq!(store.globs.get(&"a".to_string()), Some(&vec![1u8]));
    assert_eq!(store.globs.get(&"b".to_string()), Some(&vec![2u8, 3]));
    assert_eq!(store.globs.get(&"c".to_string()), None);
}

#[test]
fn refiling_a_key_is_refused_and_nothing_is_filed() {
    let mut store = instantiate(InstantiateMsg { owner: "owner".to_string() });
    add_glob(&mut store, "owner".to_string(), vec![glob("a", &[1])]).unwrap();
    let err = add_glob(&mut store, "owner".to_string(), vec![glob("z", &[9]), glob("a", &[7])]).unwrap_err();
    match err {
        ContractError::KeyExists { key } => assert_eq!(key, "a"),
        _ => panic!("expected KeyExists"),
    }
    assert_eq!(store.globs.get(&"a".to_string()), Some(&vec![1u8]));
    assert!(!store.globs.contains(&"z".to_string()));
}

#[test]
fn a_key_repeated_in_one_batch_is_refused() {
    let mut store = instantiate(InstantiateMsg { owner: "owner".to_string() });
    let err = add_glob(&mut store, "owner".to_string(), vec![glob("k", &[1]), glob("k", &[2])]).unwrap_err();
    assert!(matches!(err, ContractError::KeyExists { key } if key == "k"));
    assert_eq!(store.globs.entries().len(), 0);
}

#[test]
fn only_the_owner_files_blobs() {
    let mut store = instantiate(InstantiateMsg { owner: "owner".to_string() });
    let err = add_glob(&mut store, "thief".to_string(), vec![glob("a", &[1])]).unwrap_err();
    assert!(matches!(err, ContractError::Ownership(OwnershipError::NotOwner)));
    store.owner = None;
    let err = add_glob(&mut store, "owner".to_string(), vec![glob("a", &[1])]).unwrap_err();
    assert!(matches!(err, ContractError::Ownership(OwnershipError::NoOwner)));
}

#[test]
fn upload_message_of_a_shipped_blob() {
    match get_ica_upload_msg("ica", "snip120u", &filed_store()).unwrap() {
        IcaMsg::Stargate { type_url, value } => {
            assert_eq!(type_url, "/secret.compute.v1beta1.MsgStoreCode");
            assert_eq!(value, store_code_value("ica", &[4, 5]));
        }
        _ => panic!("expected a stargate message"),
    }
    let err = get_ica_upload_msg("ica", "scrt-headstash-circuitboard", &filed_store()).unwrap_err();
    assert!(matches!(err, StdError::GenericErr(m) if m == "bad contract upload"));
}

#[test]
fn manifest_hands_out_the_upload_message() {
    let store = filed_store();
    let res = manifest_wasm_blob(&store, "owner".to_string(), "ica".to_string(), "cw-headstash".to_string(), 7).unwrap();
    #[allow(deprecated)]
    let msg: cosmwasm_std::CosmosMsg = cosmwasm_std::CosmosMsg::Stargate {
        type_url: "/secret.compute.v1beta1.MsgStoreCode".to_string(),
        value: store_code_value("ica", &[1, 2, 3]).into(),
    };
    let expected = cosmwasm_std::to_json_binary(&msg).unwrap().to_base64();
    let ev = &res.events[0];
    assert_eq!(ev.ty, "headstash");
    let attrs: Vec<(&str, &str)> = ev.attributes.iter().map(|a| (a.key.as_str(), a.value.as_str())).collect();
    assert_eq!(
        attrs,
        vec![("ica-upload-msg", expected.as_str()), ("sender", "ica"), ("owner", "owner"), ("ica-id", "7")]
    );
}

#[test]
fn manifest_refuses_strangers_and_unknown_blobs() {
    let store = filed_store();
    let err = manifest_wasm_blob(&store, "x".to_string(), "ica".to_string(), "cw-headstash".to_string(), 1).unwrap_err();
    assert!(matches!(err, ContractError::Ownership(OwnershipError::NotOwner)));
    let err = manifest_wasm_blob(&store, "owner".to_string(), "ica".to_string(), "nope".to_string(), 1).unwrap_err();
    assert!(matches!(err, ContractError::Std(StdError::GenericErr(m)) if m == "bad contract upload"));
}

#[test]
fn glob_execute_routes_each_message() {
    let mut store = filed_store();
    let res = execute(&mut store, "owner".to_string(), ExecuteMsg::AddGlob { globs: vec![glob("a", &[1])] }).unwrap();
    assert_eq!(res.events[0].ty, "glob");
    assert_eq!(store.globs.get(&"a".to_string()), Some(&vec![1u8]));
    let take = ExecuteMsg::TakeGlob { id: 3, sender: "ica".to_string(), key: "snip120u".to_string() };
    let res = execute(&mut store, "owner".to_string(), take).unwrap();
    assert_eq!(res.events[0].ty, "headstash");
    assert_eq!(res.events[0].attributes[3].value, "3");
    let take = ExecuteMsg::TakeGlob { id: 3, sender: "ica".to_string(), key: "snip120u".to_string() };
    let err = execute(&mut store, "stranger".to_string(), take).unwrap_err();
    assert!(matches!(err, ContractError::Ownership(OwnershipError::NotOwner)));
}

#[test]
fn uploads_carry_any_filed_blob() {
    let mut store = filed_store();
    add_glob(&mut store, "owner".to_string(), vec![glob("custom", &[7, 7])]).unwrap();
    match get_ica_upload_msg("ica", "custom", &store).unwrap() {
        IcaMsg::Stargate { value, .. } => assert_eq!(value, store_code_value("ica", &[7, 7])),
        _ => panic!("expected a stargate message"),
    }
}

#[test]
fn instantiate_records_the_contract_version() {
    let store = instantiate(InstantiateMsg { owner: "owner".to_string() });
    let v = store.version.as_ref().unwrap();
    assert_eq!(v.contract, "crates.io:cw-glob");
    assert_eq!(v.version, "0.1.0");
}
