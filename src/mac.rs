use vstd::prelude::*;

use vodozemac::sas::EstablishedSas;

use crate::content::{
    comma_joined, join_key_ids, lemma_str_less_irreflexive, str_eq, str_less, str_lt, MacContent,
};
use crate::crypto::calculate_mac;
use crate::flow::{CancelCode, FlowId};
use crate::ids::{ed25519_key_id, ed25519_key_id_of, Device, SasIds, UserIdentity};

verus! {

proof fn lemma_push_contains(s: Seq<Seq<char>>, x: Seq<char>, y: Seq<char>)
    ensures
        s.push(x).contains(y) == (s.contains(y) || x == y),
{
    if s.contains(y) {
        let j = choose|j: int| 0 <= j < s.len() && s[j] == y;
        assert(s.push(x)[j] == y);
    }
    if x == y {
        assert(s.push(x)[s.len() as int] == y);
    }
    if s.push(x).contains(y) {
        let j = choose|j: int| 0 <= j < s.push(x).len() && s.push(x)[j] == y;
        if j < s.len() {
            assert(s[j] == y);
        }
    }
}

/// The info prefix for the MACs we send: our user and device, then theirs,
/// then the flow id.
pub open spec fn mac_info_send(ids: SasIds, flow_id: Seq<char>) -> Seq<char> {
    "MATRIX_KEY_VERIFICATION_MAC"@ + ids.account.user_id@ + ids.account.device_id@
        + ids.other_device.user_id@ + ids.other_device.device_id@ + flow_id
}

/// The info prefix for the MACs we receive: their user and device, then ours,
/// then the flow id.
pub open spec fn mac_info_receive(ids: SasIds, flow_id: Seq<char>) -> Seq<char> {
    "MATRIX_KEY_VERIFICATION_MAC"@ + ids.other_device.user_id@ + ids.other_device.device_id@
        + ids.account.user_id@ + ids.account.device_id@ + flow_id
}

fn mac_info(
    first_user: &str,
    first_device: &str,
    second_user: &str,
    second_device: &str,
    flow_id: &str,
) -> (r: String)
    ensures
        r@ == "MATRIX_KEY_VERIFICATION_MAC"@ + first_user@ + first_device@ + second_user@
            + second_device@ + flow_id@,
{
    let mut r = "MATRIX_KEY_VERIFICATION_MAC".to_string();
    r.append(first_user);
    r.append(first_device);
    r.append(second_user);
    r.append(second_device);
    r.append(flow_id);
    r
}

/// Builds the info prefix for the MACs we send.
pub fn extra_mac_info_send(ids: &SasIds, flow_id: &str) -> (r: String)
    ensures
        r@ == mac_info_send(*ids, flow_id@),
{
    mac_info(
        ids.account.user_id.as_str(),
        ids.account.device_id.as_str(),
        ids.other_device.user_id.as_str(),
        ids.other_device.device_id.as_str(),
        flow_id,
    )
}

/// Builds the info prefix for the MACs we receive.
pub fn extra_mac_info_receive(ids: &SasIds, flow_id: &str) -> (r: String)
    ensures
        r@ == mac_info_receive(*ids, flow_id@),
{
    mac_info(
        ids.other_device.user_id.as_str(),
        ids.other_device.device_id.as_str(),
        ids.account.user_id.as_str(),
        ids.account.device_id.as_str(),
        flow_id,
    )
}

/// The key ids we MAC, in order: our device key, and our master key when we
/// trust our own identity.
pub open spec fn our_mac_key_ids(ids: SasIds) -> Seq<Seq<char>> {
    let d = ed25519_key_id(ids.account.device_id@);
    if ids.own_identity is Some && ids.own_identity->Some_0.verified {
        let m = ed25519_key_id(ids.own_identity->Some_0.master_key@);
        if str_less(d, m) {
            seq![d, m]
        } else if str_less(m, d) {
            seq![m, d]
        } else {
            seq![m]
        }
    } else {
        seq![d]
    }
}

fn with_info(info: &str, suffix: &str) -> (r: String)
    ensures
        r@ == info@ + suffix@,
{
    let mut r = info.to_string();
    r.append(suffix);
    r
}

/// The key of ours that a key id names, if we MAC it: our master key when we
/// trust our own identity, else our device's Ed25519 key.
pub open spec fn our_known_key(ids: SasIds, key_id: Seq<char>) -> Option<Seq<char>> {
    if ids.own_identity is Some && ids.own_identity->Some_0.verified && key_id == ed25519_key_id(
        ids.own_identity->Some_0.master_key@,
    ) {
        Some(ids.own_identity->Some_0.master_key@)
    } else if key_id == ed25519_key_id(ids.account.device_id@) {
        Some(ids.account.ed25519_key@)
    } else {
        None
    }
}

/// The input and the info of the MAC we send for one of our key ids: the
/// key itself, under the sending info followed by the key id.
pub fn our_mac_input(ids: &SasIds, flow_id: &str, key_id: &str) -> (r: Option<(String, String)>)
    ensures
        r is Some <==> our_known_key(*ids, key_id@) is Some,
        r is Some ==> r->Some_0.0@ == our_known_key(*ids, key_id@)->Some_0 && r->Some_0.1@
            == mac_info_send(*ids, flow_id@) + key_id@,
{
    let info = with_info(extra_mac_info_send(ids, flow_id).as_str(), key_id);
    match &ids.own_identity {
        Some(own) => {
            if own.verified && str_eq(key_id, ed25519_key_id_of(own.master_key.as_str()).as_str()) {
                return Some((own.master_key.clone(), info));
            }
        },
        None => {},
    }
    if str_eq(key_id, ed25519_key_id_of(ids.account.device_id.as_str()).as_str()) {
        Some((ids.account.ed25519_key.clone(), info))
    } else {
        None
    }
}

/// The input and the info of the MAC we take over the key ids of a MAC
/// message: the ids joined by commas, under `info` followed by `KEY_IDS`.
pub fn keys_mac_input(info: &str, content: &MacContent) -> (r: (String, String))
    ensures
        r.0@ == comma_joined(content.key_ids()),
        r.1@ == info@ + "KEY_IDS"@,
{
    (join_key_ids(content), with_info(info, "KEY_IDS"))
}

/// Builds the MAC message for our keys: for each of our key ids, the MAC of
/// the key that `our_mac_input` gives, and the MAC that `keys_mac_input` gives
/// over the ids under the sending info.
pub fn get_mac_content(sas: &EstablishedSas, ids: &SasIds, flow_id: &FlowId) -> (r: MacContent)
    ensures
        r.flow_id == *flow_id,
        r.wf(),
        r.key_ids() == our_mac_key_ids(*ids),
{
    let device_key_id = ed25519_key_id_of(ids.account.device_id.as_str());
    let mut key_ids: Vec<String> = Vec::new();
    match &ids.own_identity {
        Some(own) if own.verified => {
            let master_key_id = ed25519_key_id_of(own.master_key.as_str());
            if str_lt(device_key_id.as_str(), master_key_id.as_str()) {
                key_ids.push(device_key_id);
                key_ids.push(master_key_id);
            } else if str_lt(master_key_id.as_str(), device_key_id.as_str()) {
                key_ids.push(master_key_id);
                key_ids.push(device_key_id);
            } else {
                // The two ids are the same: as in a map, one entry remains.
                key_ids.push(master_key_id);
            }
        },
        _ => {
            key_ids.push(device_key_id);
        },
    }
    assert(key_ids@.map_values(|k: String| k@) =~= our_mac_key_ids(*ids));
    assert(forall|j: int| 0 <= j < key_ids@.len() ==> our_known_key(*ids, #[trigger] key_ids@[j]@) is Some);
    let mut mac: Vec<(String, String)> = Vec::new();
    let mut i: usize = 0;
    while i < key_ids.len()
        invariant
            i <= key_ids@.len(),
            key_ids@.map_values(|k: String| k@) == our_mac_key_ids(*ids),
            mac@.len() == i,
            forall|j: int| 0 <= j < i ==> #[trigger] mac@[j].0@ == key_ids@[j]@,
            forall|j: int| 0 <= j < key_ids@.len() ==> our_known_key(*ids, #[trigger] key_ids@[j]@) is Some,
        decreases key_ids@.len() - i,
    {
        let key_id = key_ids[i].as_str();
        assert(key_ids@.map_values(|k: String| k@)[i as int] == key_id@);
        let (input, info) = our_mac_input(ids, flow_id.as_str(), key_id).unwrap();
        let value = calculate_mac(sas, input.as_str(), info.as_str());
        mac.push((key_ids[i].clone(), value));
        i = i + 1;
    }
    let r0 = MacContent { flow_id: flow_id.clone(), mac, keys: String::new() };
    assert(r0.key_ids() =~= our_mac_key_ids(*ids));
    let (keys_input, keys_info) = keys_mac_input(
        extra_mac_info_send(ids, flow_id.as_str()).as_str(),
        &r0,
    );
    let keys = calculate_mac(sas, keys_input.as_str(), keys_info.as_str());
    let r = MacContent { keys, ..r0 };
    assert(r.key_ids() =~= our_mac_key_ids(*ids));
    r
}

/// Whether the other side's MACs name the key under `key_id`.
pub open spec fn announces(content: MacContent, key_id: Seq<char>) -> bool {
    content.key_ids().contains(key_id)
}

/// The key id of the other device's Ed25519 key.
pub open spec fn their_device_key_id(ids: SasIds) -> Seq<char> {
    ed25519_key_id(ids.other_device.device_id@)
}

/// Whether the MAC message names the other user's master key (and it is not
/// also the id of their device key).
pub open spec fn announces_their_master_key(ids: SasIds, content: MacContent) -> bool {
    &&& ids.other_identity is Some
    &&& ed25519_key_id(ids.other_identity->Some_0.master_key@) != their_device_key_id(ids)
    &&& announces(content, ed25519_key_id(ids.other_identity->Some_0.master_key@))
}

/// What a MAC message that passed proves: the other device, once, when its
/// Ed25519 key id appears, and the other user's identity, once, when its
/// master key id appears.
pub open spec fn macs_proved(
    ids: SasIds,
    content: MacContent,
    devices: Seq<Device>,
    identities: Seq<UserIdentity>,
) -> bool {
    &&& devices == if announces(content, their_device_key_id(ids)) {
        seq![ids.other_device]
    } else {
        Seq::<Device>::empty()
    }
    &&& identities == if announces_their_master_key(ids, content) {
        seq![ids.other_identity->Some_0]
    } else {
        Seq::<UserIdentity>::empty()
    }
}

/// The key that a key id of the other side names, if we know it: the other
/// device's Ed25519 key, or the other user's master key.
pub open spec fn known_key(ids: SasIds, key_id: Seq<char>) -> Option<Seq<char>> {
    if key_id == their_device_key_id(ids) {
        Some(ids.other_device.ed25519_key@)
    } else if ids.other_identity is Some && key_id == ed25519_key_id(
        ids.other_identity->Some_0.master_key@,
    ) {
        Some(ids.other_identity->Some_0.master_key@)
    } else {
        None
    }
}

/// The input and the info of the MAC we expect for a key id of the other
/// side, if we know its key: the key itself, under the receiving info followed
/// by the key id.
pub fn mac_input(ids: &SasIds, flow_id: &str, key_id: &str) -> (r: Option<(String, String)>)
    ensures
        r is Some <==> known_key(*ids, key_id@) is Some,
        r is Some ==> r->Some_0.0@ == known_key(*ids, key_id@)->Some_0 && r->Some_0.1@
            == mac_info_receive(*ids, flow_id@) + key_id@,
{
    let info = with_info(extra_mac_info_receive(ids, flow_id).as_str(), key_id);
    if str_eq(key_id, ed25519_key_id_of(ids.other_device.device_id.as_str()).as_str()) {
        return Some((ids.other_device.ed25519_key.clone(), info));
    }
    match &ids.other_identity {
        Some(identity) => {
            if str_eq(key_id, ed25519_key_id_of(identity.master_key.as_str()).as_str()) {
                Some((identity.master_key.clone(), info))
            } else {
                None
            }
        },
        None => None,
    }
}

/// The verdict on the first `n` entries of a MAC message, given the MAC we
/// computed for each entry: a known key whose MAC differs fails the message;
/// a known key whose MAC matches is proved; an unknown key is passed over.
pub open spec fn entries_verdict(
    ids: SasIds,
    entries: Seq<(String, String)>,
    computed: Seq<Seq<char>>,
    n: int,
) -> Result<(Seq<Device>, Seq<UserIdentity>), CancelCode>
    decreases n,
{
    if n <= 0 {
        Ok((Seq::empty(), Seq::empty()))
    } else {
        match entries_verdict(ids, entries, computed, n - 1) {
            Err(e) => Err(e),
            Ok((devices, identities)) => {
                let key_id = entries[n - 1].0@;
                if key_id == their_device_key_id(ids) {
                    if computed[n - 1] == entries[n - 1].1@ {
                        Ok((devices.push(ids.other_device), identities))
                    } else {
                        Err(CancelCode::KeyMismatch)
                    }
                } else if known_key(ids, key_id) is Some {
                    if computed[n - 1] == entries[n - 1].1@ {
                        Ok((devices, identities.push(ids.other_identity->Some_0)))
                    } else {
                        Err(CancelCode::KeyMismatch)
                    }
                } else {
                    Ok((devices, identities))
                }
            },
        }
    }
}

/// The verdict on a MAC message, given the MAC we computed over its key ids
/// and the MAC we computed for each entry.
pub open spec fn mac_verdict(
    ids: SasIds,
    content: MacContent,
    keys_mac: Seq<char>,
    computed: Seq<Seq<char>>,
) -> Result<(Seq<Device>, Seq<UserIdentity>), CancelCode> {
    if keys_mac != content.keys@ {
        Err(CancelCode::KeyMismatch)
    } else {
        entries_verdict(ids, content.mac@, computed, content.mac@.len() as int)
    }
}

/// Whether a transition that succeeded when `ok` matches the decision `v`:
/// on success it carries the devices and identities that `v` lists.
pub open spec fn follows_verdict(
    ok: bool,
    devices: Seq<Device>,
    identities: Seq<UserIdentity>,
    v: Result<(Seq<Device>, Seq<UserIdentity>), CancelCode>,
) -> bool {
    match v {
        Ok((d, i)) => ok && devices == d && identities == i,
        Err(_) => !ok,
    }
}

/// A result carries the verdict.
pub open spec fn gives_verdict(
    r: Result<(Vec<Device>, Vec<UserIdentity>), CancelCode>,
    v: Result<(Seq<Device>, Seq<UserIdentity>), CancelCode>,
) -> bool {
    match (r, v) {
        (Ok((d, i)), Ok((vd, vi))) => d@ == vd && i@ == vi,
        (Err(e), Err(ve)) => e == ve,
        _ => false,
    }
}

proof fn lemma_verdict_failure_stays(
    ids: SasIds,
    entries: Seq<(String, String)>,
    computed: Seq<Seq<char>>,
    i: int,
    n: int,
)
    requires
        0 <= i <= n,
        entries_verdict(ids, entries, computed, i) == Err::<
            (Seq<Device>, Seq<UserIdentity>),
            CancelCode,
        >(CancelCode::KeyMismatch),
    ensures
        entries_verdict(ids, entries, computed, n) == Err::<
            (Seq<Device>, Seq<UserIdentity>),
            CancelCode,
        >(CancelCode::KeyMismatch),
    decreases n - i,
{
    if i < n {
        lemma_verdict_failure_stays(ids, entries, computed, i, n - 1);
    }
}

/// A MAC message is rejected as soon as one MAC differs from the one we
/// compute: the MAC over the key ids, or the MAC of any key we know. So a
/// message whose MAC input was altered in any byte, which changes the MAC we
/// compute, fails with `KeyMismatch`.
pub proof fn lemma_altered_mac_rejected(
    ids: SasIds,
    content: MacContent,
    keys_mac: Seq<char>,
    computed: Seq<Seq<char>>,
    j: int,
)
    requires
        computed.len() == content.mac@.len(),
        keys_mac != content.keys@ || (0 <= j < content.mac@.len() && known_key(
            ids,
            content.mac@[j].0@,
        ) is Some && computed[j] != content.mac@[j].1@),
    ensures
        mac_verdict(ids, content, keys_mac, computed) == Err::<
            (Seq<Device>, Seq<UserIdentity>),
            CancelCode,
        >(CancelCode::KeyMismatch),
{
    if keys_mac == content.keys@ {
        let entries = content.mac@;
        lemma_verdict_failure_is_key_mismatch(ids, entries, computed, j);
        if entries_verdict(ids, entries, computed, j) is Ok {
            assert(entries_verdict(ids, entries, computed, j + 1) is Err);
        }
        lemma_verdict_failure_stays(ids, entries, computed, j + 1, entries.len() as int);
    }
}

/// Decides on a MAC message of the other side from the MACs we computed: over
/// its key ids (`keys_mac`), and for each entry (`computed`, in the entries'
/// order; an entry whose key we do not know may have any value there).
pub fn verify_macs(
    ids: &SasIds,
    content: &MacContent,
    keys_mac: &str,
    computed: &Vec<String>,
) -> (r: Result<(Vec<Device>, Vec<UserIdentity>), CancelCode>)
    requires
        computed@.len() == content.mac@.len(),
        content.wf(),
    ensures
        gives_verdict(
            r,
            mac_verdict(*ids, *content, keys_mac@, computed@.map_values(|s: String| s@)),
        ),
        r is Ok ==> macs_proved(*ids, *content, r->Ok_0.0@, r->Ok_0.1@),
{
    let ghost comp = computed@.map_values(|s: String| s@);
    if !str_eq(keys_mac, content.keys.as_str()) {
        return Err(CancelCode::KeyMismatch);
    }
    let device_key_id = ed25519_key_id_of(ids.other_device.device_id.as_str());
    let mut devices: Vec<Device> = Vec::new();
    let mut identities: Vec<UserIdentity> = Vec::new();
    let ghost key_ids = content.key_ids();
    let ghost dk = their_device_key_id(*ids);
    let mut i: usize = 0;
    while i < content.mac.len()
        invariant
            i <= content.mac@.len(),
            computed@.len() == content.mac@.len(),
            comp == computed@.map_values(|s: String| s@),
            key_ids == content.key_ids(),
            device_key_id@ == dk,
            dk == their_device_key_id(*ids),
            entries_verdict(*ids, content.mac@, comp, i as int) == Ok::<
                (Seq<Device>, Seq<UserIdentity>),
                CancelCode,
            >((devices@, identities@)),
            content.wf(),
            devices@ == if key_ids.subrange(0, i as int).contains(dk) {
                seq![ids.other_device]
            } else {
                Seq::<Device>::empty()
            },
            identities@ == if ids.other_identity is Some && ed25519_key_id(
                ids.other_identity->Some_0.master_key@,
            ) != dk && key_ids.subrange(0, i as int).contains(
                ed25519_key_id(ids.other_identity->Some_0.master_key@),
            ) {
                seq![ids.other_identity->Some_0]
            } else {
                Seq::<UserIdentity>::empty()
            },
        decreases content.mac@.len() - i,
    {
        let key_id = &content.mac[i].0;
        let key_mac = &content.mac[i].1;
        assert(key_ids[i as int] == key_id@);
        assert(comp[i as int] == computed@[i as int]@);
        assert(key_ids.subrange(0, i + 1) =~= key_ids.subrange(0, i as int).push(key_id@));
        proof {
            assert forall|j: int| 0 <= j < i implies #[trigger] key_ids[j] != key_id@ by {
                assert(str_less(content.mac@[j].0@, content.mac@[i as int].0@));
                if key_ids[j] == key_id@ {
                    lemma_str_less_irreflexive(key_id@);
                }
            }
            if key_ids.subrange(0, i as int).contains(key_id@) {
                let j = choose|j: int|
                    0 <= j < i && #[trigger] key_ids.subrange(0, i as int)[j] == key_id@;
                assert(key_ids[j] == key_id@);
            }
            lemma_push_contains(key_ids.subrange(0, i as int), key_id@, dk);
            if ids.other_identity is Some {
                lemma_push_contains(
                    key_ids.subrange(0, i as int),
                    key_id@,
                    ed25519_key_id(ids.other_identity->Some_0.master_key@),
                );
            }
        }
        if *key_id == device_key_id {
            if computed[i] != *key_mac {
                proof {
                    lemma_verdict_failure_stays(
                        *ids,
                        content.mac@,
                        comp,
                        i + 1,
                        content.mac@.len() as int,
                    );
                }
                return Err(CancelCode::KeyMismatch);
            }
            devices.push(ids.other_device.clone());
            assert(devices@ =~= seq![ids.other_device]);
        } else {
            match &ids.other_identity {
                Some(identity) => {
                    let master_key_id = ed25519_key_id_of(identity.master_key.as_str());
                    if *key_id == master_key_id {
                        if computed[i] != *key_mac {
                            proof {
                                lemma_verdict_failure_stays(
                                    *ids,
                                    content.mac@,
                                    comp,
                                    i + 1,
                                    content.mac@.len() as int,
                                );
                            }
                            return Err(CancelCode::KeyMismatch);
                        }
                        identities.push(identity.clone());
                        assert(identities@ =~= seq![ids.other_identity->Some_0]);
                    }
                },
                None => {},
            }
        }
        i = i + 1;
    }
    assert(key_ids.subrange(0, i as int) =~= key_ids);
    Ok((devices, identities))
}

/// Checks the MAC message of the other side. Returns the devices and the
/// identities whose keys it proved.
///
/// A message whose key ids are not in order is refused with
/// `InvalidMessage`. Else the MAC over the key ids is computed on what
/// `keys_mac_input` gives under the receiving info, the MAC of each key we
/// know on what `mac_input` gives, and the verdict is the one of
/// `verify_macs` on those MACs: the keys MAC must match, every MAC of a key we
/// know must match, keys we do not know are passed over.
pub fn receive_mac_event(
    sas: &EstablishedSas,
    ids: &SasIds,
    flow_id: &str,
    content: &MacContent,
) -> (r: Result<(Vec<Device>, Vec<UserIdentity>), CancelCode>)
    ensures
        !content.wf() ==> r is Err && r->Err_0 == CancelCode::InvalidMessage,
        content.wf() ==> exists|keys_mac: Seq<char>, computed: Seq<Seq<char>>|
            computed.len() == content.mac@.len() && #[trigger] gives_verdict(
                r,
                mac_verdict(*ids, *content, keys_mac, computed),
            ),
        content.wf() && r is Err ==> r->Err_0 == CancelCode::KeyMismatch,
        r is Ok ==> content.wf() && macs_proved(*ids, *content, r->Ok_0.0@, r->Ok_0.1@),
{
    if !content.is_sorted() {
        return Err(CancelCode::InvalidMessage);
    }
    let info = extra_mac_info_receive(ids, flow_id);
    let (keys_input, keys_info) = keys_mac_input(info.as_str(), content);
    let keys_mac = calculate_mac(sas, keys_input.as_str(), keys_info.as_str());
    let mut computed: Vec<String> = Vec::new();
    let mut i: usize = 0;
    while i < content.mac.len()
        invariant
            i <= content.mac@.len(),
            computed@.len() == i,
        decreases content.mac@.len() - i,
    {
        let mac = match mac_input(ids, flow_id, content.mac[i].0.as_str()) {
            Some((input, key_info)) => calculate_mac(sas, input.as_str(), key_info.as_str()),
            None => String::new(),
        };
        computed.push(mac);
        i = i + 1;
    }
    let r = verify_macs(ids, content, keys_mac.as_str(), &computed);
    proof {
        let v = mac_verdict(*ids, *content, keys_mac@, computed@.map_values(|s: String| s@));
        assert(gives_verdict(r, v));
        if r is Err {
            assert(v is Err);
            if keys_mac@ == content.keys@ {
                lemma_verdict_failure_is_key_mismatch(
                    *ids,
                    content.mac@,
                    computed@.map_values(|s: String| s@),
                    content.mac@.len() as int,
                );
            }
        }
    }
    r
}

proof fn lemma_verdict_failure_is_key_mismatch(
    ids: SasIds,
    entries: Seq<(String, String)>,
    computed: Seq<Seq<char>>,
    n: int,
)
    ensures
        entries_verdict(ids, entries, computed, n) is Err ==> entries_verdict(
            ids,
            entries,
            computed,
            n,
        )->Err_0 == CancelCode::KeyMismatch,
    decreases n,
{
    if n > 0 {
        lemma_verdict_failure_is_key_mismatch(ids, entries, computed, n - 1);
    }
}

} // verus!
