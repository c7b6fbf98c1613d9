//! The wasm-blob store: an owner files compressed byte code under keys and
//! asks for the message that uploads a filed blob through an ICA.
use crate::codec::{base64_encode, stargate_json, stargate_msg_json};
use crate::text::u64_to_decimal;
use crate::commands::{store_code, store_code_msg, store_code_type_url};
use crate::keyed::KeyedList;
use crate::msg::{Attribute, AttributeV, IcaMsg, Event, EventV, Response, ResponseV, StdError};
use crate::ownership::{assert_owner, owner_check, OwnershipError};
use crate::proto::store_code_body;
use crate::text::{base64, decimal, str_equal};
use vstd::prelude::*;

verus! {

/// The contract name recorded with `cw2`.
pub const CONTRACT_NAME: &'static str = "crates.io:cw-glob";

/// The message that instantiates the store.
#[derive(Debug)]
pub struct InstantiateMsg {
    pub owner: String,
}

/// A blob to file under a key.
#[derive(Debug)]
pub struct Glob {
    /// The key used to store the blob
    pub key: String,
    /// The wasm
    pub blob: Vec<u8>,
}

/// The execute messages of the store.
pub enum ExecuteMsg {
    AddGlob { globs: Vec<Glob> },
    TakeGlob {
        /// ica-account id for the cw-ica-owner
        id: u64,
        /// Address to include in the CosmosMsg with the wasm blob.
        sender: String,
        /// The wasm blob key to upload.
        key: String,
    },
}

/// The store answers no queries: the query message carries nothing.
#[derive(Debug)]
pub struct QueryMsg {}

/// Why the store refuses a message.
#[derive(Debug)]
pub enum ContractError {
    Std(StdError),
    Ownership(OwnershipError),
    KeyExists { key: String },
}

/// The version of the contract code recorded under `contract_info` (`cw2`).
pub const CONTRACT_VERSION: &'static str = "0.1.0";

/// A contract's name and version, as `cw2` records them.
#[derive(Debug)]
pub struct ContractVersion {
    pub contract: String,
    pub version: String,
}

/// The state of the store: its owner and the filed blobs by key.
#[derive(Debug)]
pub struct GlobStore {
    pub owner: Option<String>,
    /// The recorded contract name and version.
    pub version: Option<ContractVersion>,
    pub globs: KeyedList<String, Vec<u8>>,
}

impl GlobStore {
    /// The filed blobs, by key.
    pub open spec fn blobs(&self) -> Map<Seq<char>, Vec<u8>> {
        self.globs.map()
    }
}

/// Instantiates the store with its (validated) owner, the contract's name
/// and version, and no blobs.
pub fn instantiate(msg: InstantiateMsg) -> (res: GlobStore)
    ensures
        res.owner.deep_view() == Some(msg.owner@),
        res.version matches Some(v) && v.contract@ == CONTRACT_NAME@ && v.version@ == CONTRACT_VERSION@,
        res.blobs() == Map::<Seq<char>, Vec<u8>>::empty(),
{
    let version = ContractVersion {
        contract: String::from_str(CONTRACT_NAME),
        version: String::from_str(CONTRACT_VERSION),
    };
    GlobStore { owner: Some(msg.owner), version: Some(version), globs: KeyedList::new() }
}

/// The key of glob `i` is already filed or repeats an earlier key of the
/// batch.
pub open spec fn conflicts_at(m: Map<Seq<char>, Vec<u8>>, g: Seq<Glob>, i: int) -> bool {
    m.contains_key(g[i].key@) || exists|j: int| 0 <= j < i && g[j].key@ == g[i].key@
}

/// The blobs filed in order.
pub open spec fn file_all(m: Map<Seq<char>, Vec<u8>>, g: Seq<Glob>) -> Map<Seq<char>, Vec<u8>>
    decreases g.len(),
{
    if g.len() == 0 {
        m
    } else {
        file_all(m, g.drop_last()).insert(g.last().key@, g.last().blob)
    }
}

/// The event that reports the filed keys.
pub open spec fn glob_event(g: Seq<Glob>) -> EventV {
    EventV {
        ty: "glob"@,
        attributes: g.map_values(|x: Glob| AttributeV { key: "glob-key"@, value: x.key@ }),
    }
}

/// How filing `globs` for `owner` answered `res` and took the store from
/// `before` to `after`.
pub open spec fn globs_filed(
    before: GlobStore,
    after: GlobStore,
    owner: Seq<char>,
    globs: Seq<Glob>,
    res: Result<Response, ContractError>,
) -> bool {
    &&& match res {
        Err(ContractError::Ownership(e)) => owner_check(before.owner.deep_view(), owner)
            == Err::<(), _>(e) && after.blobs() == before.blobs(),
        Err(ContractError::KeyExists { key }) => {
            &&& owner_check(before.owner.deep_view(), owner) is Ok
            &&& exists|i: int|
                0 <= i < globs.len() && conflicts_at(before.blobs(), globs, i) && key@
                    == globs[i].key@ && forall|k: int|
                    0 <= k < i ==> !conflicts_at(before.blobs(), globs, k)
            &&& after.blobs() == before.blobs()
        },
        Err(ContractError::Std(_)) => false,
        Ok(r) => {
            &&& owner_check(before.owner.deep_view(), owner) is Ok
            &&& forall|i: int| 0 <= i < globs.len() ==> !conflicts_at(before.blobs(), globs, i)
            &&& after.blobs() == file_all(before.blobs(), globs)
            &&& r.deep_view() == (ResponseV {
                messages: Seq::empty(),
                attributes: Seq::empty(),
                events: seq![glob_event(globs)],
            })
        },
    }
    &&& after.owner == before.owner
    &&& after.version == before.version
}

/// Files each blob under its key, for the owner only. A key that is already
/// filed, or that repeats an earlier key of the batch, refuses the whole
/// batch with `KeyExists` naming the first such key, and nothing is filed.
pub fn add_glob(store: &mut GlobStore, owner: String, globs: Vec<Glob>) -> (res: Result<
    Response,
    ContractError,
>)
    ensures
        globs_filed(*old(store), *final(store), owner@, globs@, res),
{
    if let Err(e) = assert_owner(&store.owner, &owner) {
        return Err(ContractError::Ownership(e));
    }
    let ghost m = store.blobs();
    let n = globs.len();
    let mut i: usize = 0;
    while i < n
        invariant
            n == globs@.len(),
            i <= n,
            m == store.blobs(),
            m == old(store).blobs(),
            store.owner == old(store).owner,
            store.version == old(store).version,
            owner_check(old(store).owner.deep_view(), owner@) is Ok,
            forall|k: int| 0 <= k < i ==> !conflicts_at(m, globs@, k),
        decreases n - i,
    {
        let mut dup = store.globs.contains(&globs[i].key);
        let mut j: usize = 0;
        while j < i && !dup
            invariant
                n == globs@.len(),
                j <= i < n,
                dup == (m.contains_key(globs@[i as int].key@) || exists|l: int|
                    0 <= l < j && globs@[l].key@ == globs@[i as int].key@),
            decreases i - j,
        {
            if str_equal(globs[j].key.as_str(), globs[i].key.as_str()) {
                dup = true;
                assert(globs@[j as int].key@ == globs@[i as int].key@);
            }
            j = j + 1;
        }
        assert(dup == conflicts_at(m, globs@, i as int)) by {
            if !dup {
                assert(j == i);
                assert(!m.contains_key(globs@[i as int].key@));
                assert(forall|l: int| 0 <= l < i ==> globs@[l].key@ != globs@[i as int].key@);
            } else if !m.contains_key(globs@[i as int].key@) {
                let l = choose|l: int| 0 <= l < j && globs@[l].key@ == globs@[i as int].key@;
                assert(0 <= l < i && globs@[l].key@ == globs@[i as int].key@);
            }
        }
        if dup {
            return Err(ContractError::KeyExists { key: globs[i].key.clone() });
        }
        i = i + 1;
    }
    let ghost all = globs@;
    let mut rest = globs;
    let mut attrs: Vec<Attribute> = Vec::new();
    let mut done: usize = 0;
    while done < n
        invariant
            n == all.len(),
            done <= n,
            rest@ == all.subrange(done as int, n as int),
            store.blobs() == file_all(m, all.subrange(0, done as int)),
            attrs.deep_view() == all.subrange(0, done as int).map_values(
                |x: Glob| AttributeV { key: "glob-key"@, value: x.key@ },
            ),
            store.owner == old(store).owner,
            store.version == old(store).version,
        decreases n - done,
    {
        let g = rest.remove(0);
        proof {
            assert(all.subrange(0, done + 1).drop_last() =~= all.subrange(0, done as int));
            assert(all.subrange(0, done + 1).last() == g);
        }
        let ghost old_attrs = attrs.deep_view();
        attrs.push(Attribute { key: String::from_str("glob-key"), value: g.key.clone() });
        assert(attrs.deep_view() =~= old_attrs.push(AttributeV { key: "glob-key"@, value: g.key@ }));
        store.globs.insert(g.key, g.blob);
        done = done + 1;
        proof {
            assert(rest@ =~= all.subrange(done as int, n as int));
            assert(all.subrange(0, done as int) =~= all.subrange(0, done - 1).push(g));
            assert(all.subrange(0, done as int).map_values(
                |x: Glob| AttributeV { key: "glob-key"@, value: x.key@ },
            ) =~= all.subrange(0, done - 1).map_values(
                |x: Glob| AttributeV { key: "glob-key"@, value: x.key@ },
            ).push(AttributeV { key: "glob-key"@, value: g.key@ }));
        }
    }
    assert(all.subrange(0, n as int) =~= all);
    let mut res = Response::new();
    res.events.push(Event { ty: String::from_str("glob"), attributes: attrs });
    assert(res.events.deep_view() =~= seq![glob_event(all)]);
    Ok(res)
}

/// The upload of the blob filed under `wasm`, on behalf of `sender`; a key
/// with no blob is refused with "bad contract upload".
pub fn get_ica_upload_msg(sender: &str, wasm: &str, store: &GlobStore) -> (res: Result<IcaMsg, StdError>)
    ensures
        match store.blobs().get(wasm@) {
            Some(b) => res matches Ok(m) && m.deep_view() == store_code_msg(sender@, b@),
            None => res matches Err(StdError::GenericErr(e)) && e@ == "bad contract upload"@,
        },
{
    let key = String::from_str(wasm);
    match store.globs.get(&key) {
        Some(b) => Ok(store_code(sender, b.as_slice())),
        None => Err(StdError::GenericErr(String::from_str("bad contract upload"))),
    }
}

/// The event that hands out an upload message: the base64 of its JSON, the
/// sender, the owner and the ICA id.
pub open spec fn manifest_response(
    upload_json: Seq<u8>,
    sender: Seq<char>,
    owner: Seq<char>,
    id: u64,
) -> ResponseV {
    ResponseV {
        messages: Seq::empty(),
        attributes: Seq::empty(),
        events: seq![
            EventV {
                ty: "headstash"@,
                attributes: seq![
                    AttributeV { key: "ica-upload-msg"@, value: base64(upload_json) },
                    AttributeV { key: "sender"@, value: sender },
                    AttributeV { key: "owner"@, value: owner },
                    AttributeV { key: "ica-id"@, value: decimal(id as nat) },
                ],
            },
        ],
    }
}

/// How handing out the upload of the blob filed under `wasm` on behalf of
/// `sender`, asked by `owner`, answered `res`.
pub open spec fn manifest_outcome(
    store: GlobStore,
    owner: Seq<char>,
    sender: Seq<char>,
    wasm: Seq<char>,
    id: u64,
    res: Result<Response, ContractError>,
) -> bool {
    match owner_check(store.owner.deep_view(), owner) {
        Err(e) => res matches Err(ContractError::Ownership(f)) && f == e,
        Ok(_) => match store.blobs().get(wasm) {
            None => res matches Err(ContractError::Std(StdError::GenericErr(e))) && e@
                == "bad contract upload"@,
            Some(b) => res matches Ok(r) && r.deep_view() == manifest_response(
                stargate_json(store_code_type_url(), store_code_body(sender, b@)),
                sender,
                owner,
                id,
            ),
        },
    }
}

/// For the owner only: answers with an event that carries the upload
/// message of the blob filed under `wasm` on behalf of `sender`.
pub fn manifest_wasm_blob(
    store: &GlobStore,
    owner: String,
    sender: String,
    wasm: String,
    id: u64,
) -> (res: Result<Response, ContractError>)
    ensures
        manifest_outcome(*store, owner@, sender@, wasm@, id, res),
{
    if let Err(e) = assert_owner(&store.owner, &owner) {
        return Err(ContractError::Ownership(e));
    }
    let msg = match get_ica_upload_msg(sender.as_str(), wasm.as_str(), store) {
        Ok(m) => m,
        Err(e) => return Err(ContractError::Std(e)),
    };
    let json = match &msg {
        IcaMsg::Stargate { type_url, value } => stargate_msg_json(type_url.as_str(), value.as_slice()),
        _ => None,
    };
    let json = match json {
        Some(j) => j,
        None => return Err(ContractError::Std(StdError::SerializeErr(String::from_str("CosmosMsg")))),
    };
    let mut attributes: Vec<Attribute> = Vec::new();
    attributes.push(Attribute { key: String::from_str("ica-upload-msg"), value: base64_encode(json.as_slice()) });
    attributes.push(Attribute { key: String::from_str("sender"), value: sender });
    attributes.push(Attribute { key: String::from_str("owner"), value: owner });
    attributes.push(Attribute { key: String::from_str("ica-id"), value: u64_to_decimal(id) });
    let ghost attrs = attributes.deep_view();
    let mut res = Response::new();
    res.events.push(Event { ty: String::from_str("headstash"), attributes });
    proof {
        assert(attrs =~= seq![
            AttributeV { key: "ica-upload-msg"@, value: base64(json@) },
            AttributeV { key: "sender"@, value: sender@ },
            AttributeV { key: "owner"@, value: owner@ },
            AttributeV { key: "ica-id"@, value: decimal(id as nat) },
        ]);
        assert(res.events.deep_view() =~= manifest_response(json@, sender@, owner@, id).events);
    }
    Ok(res)
}


/// Runs an execute message of the store, sent by `sender`. The address that
/// `TakeGlob` names is taken as already validated.
pub fn execute(store: &mut GlobStore, sender: String, msg: ExecuteMsg) -> (res: Result<
    Response,
    ContractError,
>)
    ensures
        match msg {
            ExecuteMsg::AddGlob { globs } => globs_filed(*old(store), *final(store), sender@, globs@, res),
            ExecuteMsg::TakeGlob { id, sender: upload_sender, key } => {
                &&& manifest_outcome(*old(store), sender@, upload_sender@, key@, id, res)
                &&& *final(store) == *old(store)
            },
        },
{
    match msg {
        ExecuteMsg::AddGlob { globs } => add_glob(store, sender, globs),
        ExecuteMsg::TakeGlob { id, sender: upload_sender, key } => manifest_wasm_blob(
            store,
            sender,
            upload_sender,
            key,
            id,
        ),
    }
}

/// An accepted batch keeps every blob filed before it, files each of its
/// blobs under its key, and files nothing else.
pub proof fn lemma_filed_blobs_read_back(m: Map<Seq<char>, Vec<u8>>, g: Seq<Glob>)
    requires
        forall|i: int| 0 <= i < g.len() ==> !conflicts_at(m, g, i),
    ensures
        forall|k: Seq<char>| #[trigger] m.contains_key(k) ==> file_all(m, g).contains_key(k) && file_all(m, g)[k] == m[k],
        forall|i: int| 0 <= i < g.len() ==> file_all(m, g).contains_key(#[trigger] g[i].key@) && file_all(m, g)[g[i].key@] == g[i].blob,
        forall|k: Seq<char>| #[trigger] file_all(m, g).contains_key(k) ==> m.contains_key(k) || exists|i: int|
            0 <= i < g.len() && g[i].key@ == k,
    decreases g.len(),
{
    if g.len() > 0 {
        let p = g.drop_last();
        assert forall|i: int| 0 <= i < p.len() implies !conflicts_at(m, p, i) by {
            assert(!conflicts_at(m, g, i));
            assert forall|j: int| 0 <= j < i implies p[j].key@ != p[i].key@ by {
                assert(g[j].key@ != g[i].key@);
            }
        }
        lemma_filed_blobs_read_back(m, p);
        let last = g.last();
        assert(!conflicts_at(m, g, g.len() - 1));
        assert forall|i: int| 0 <= i < g.len() implies file_all(m, g).contains_key(#[trigger] g[i].key@)
            && file_all(m, g)[g[i].key@] == g[i].blob by {
            if i < g.len() - 1 {
                assert(p[i] == g[i]);
                assert(g[i].key@ != last.key@);
            }
        }
        assert forall|k: Seq<char>| #[trigger] file_all(m, g).contains_key(k) implies m.contains_key(k) || exists|i: int|
            0 <= i < g.len() && g[i].key@ == k by {
            if k != last.key@ {
                assert(file_all(m, p).contains_key(k));
                if !m.contains_key(k) {
                    let i = choose|i: int| 0 <= i < p.len() && p[i].key@ == k;
                    assert(g[i].key@ == k);
                }
            } else {
                assert(g[g.len() - 1].key@ == k);
            }
        }
    }
}

/// A batch that names a key filed before, or names a key twice, is never
/// accepted.
pub proof fn lemma_refiling_refused(m: Map<Seq<char>, Vec<u8>>, g: Seq<Glob>, i: int, j: int)
    requires
        0 <= i < g.len(),
        0 <= j <= i,
        m.contains_key(g[i].key@) || (j < i && g[j].key@ == g[i].key@),
    ensures
        !(forall|k: int| 0 <= k < g.len() ==> !conflicts_at(m, g, k)),
{
    assert(conflicts_at(m, g, i));
}

} // verus!
