use vstd::prelude::*;

use crate::ids::SasIds;

verus! {

/// The first six SAS bytes read as one 48-bit big-endian number.
pub open spec fn sas_number(b: Seq<u8>) -> u64 {
    (b[0] as u64) << 40u64 | (b[1] as u64) << 32u64 | (b[2] as u64) << 24u64 | (b[3] as u64)
        << 16u64 | (b[4] as u64) << 8u64 | (b[5] as u64)
}

/// The `k`-th emoji index: bits `6k` to `6k + 5` of the SAS bytes, counted from
/// the most significant bit.
pub open spec fn emoji_index(b: Seq<u8>, k: int) -> u8 {
    ((sas_number(b) >> ((42 - 6 * k) as u64)) & 63u64) as u8
}

/// The `k`-th decimal: bits `13k` to `13k + 12` of the SAS bytes, counted from
/// the most significant bit, plus 1000, modulo 10000.
pub open spec fn decimal_value(b: Seq<u8>, k: int) -> u16 {
    ((((sas_number(b) >> ((35 - 13 * k) as u64)) & 8191u64) + 1000) % 10000) as u16
}

fn sas_number_of(bytes: &Vec<u8>) -> (r: u64)
    requires
        bytes@.len() == 6,
    ensures
        r == sas_number(bytes@),
{
    (bytes[0] as u64) << 40u64 | (bytes[1] as u64) << 32u64 | (bytes[2] as u64) << 24u64 | (
    bytes[3] as u64) << 16u64 | (bytes[4] as u64) << 8u64 | (bytes[5] as u64)
}

/// The seven emoji indices of six SAS bytes, each in `0..64`.
pub fn emoji_indices(bytes: &Vec<u8>) -> (r: [u8; 7])
    requires
        bytes@.len() == 6,
    ensures
        forall|k: int| 0 <= k < 7 ==> #[trigger] r@[k] == emoji_index(bytes@, k),
        forall|k: int| 0 <= k < 7 ==> #[trigger] r@[k] < 64,
{
    let num = sas_number_of(bytes);
    let r = [
        ((num >> 42u64) & 63u64) as u8,
        ((num >> 36u64) & 63u64) as u8,
        ((num >> 30u64) & 63u64) as u8,
        ((num >> 24u64) & 63u64) as u8,
        ((num >> 18u64) & 63u64) as u8,
        ((num >> 12u64) & 63u64) as u8,
        ((num >> 6u64) & 63u64) as u8,
    ];
    assert forall|s: u64| #[trigger] (num >> s) & 63u64 < 64 by {
        assert((num >> s) & 63u64 < 64) by (bit_vector);
    }
    assert forall|k: int| 0 <= k < 7 implies #[trigger] r@[k] == emoji_index(bytes@, k) by {
        assert(r@[0] == emoji_index(bytes@, 0));
        assert(r@[1] == emoji_index(bytes@, 1));
        assert(r@[2] == emoji_index(bytes@, 2));
        assert(r@[3] == emoji_index(bytes@, 3));
        assert(r@[4] == emoji_index(bytes@, 4));
        assert(r@[5] == emoji_index(bytes@, 5));
        assert(r@[6] == emoji_index(bytes@, 6));
    }
    r
}

/// The three decimals of six SAS bytes, each in `1000..=9191`.
pub fn decimals(bytes: &Vec<u8>) -> (r: (u16, u16, u16))
    requires
        bytes@.len() == 6,
    ensures
        r.0 == decimal_value(bytes@, 0),
        r.1 == decimal_value(bytes@, 1),
        r.2 == decimal_value(bytes@, 2),
        1000 <= r.0 <= 9191,
        1000 <= r.1 <= 9191,
        1000 <= r.2 <= 9191,
{
    let num = sas_number_of(bytes);
    let first = (num >> 35u64) & 8191u64;
    let second = (num >> 22u64) & 8191u64;
    let third = (num >> 9u64) & 8191u64;
    assert(first <= 8191) by (bit_vector)
        requires first == (num >> 35u64) & 8191u64;
    assert(second <= 8191) by (bit_vector)
        requires second == (num >> 22u64) & 8191u64;
    assert(third <= 8191) by (bit_vector)
        requires third == (num >> 9u64) & 8191u64;
    ((first + 1000) as u16, (second + 1000) as u16, (third + 1000) as u16)
}

/// The info string for the SAS bytes: the initiator's user, device and
/// ephemeral key, then the responder's, then the flow id, separated by `|`.
pub open spec fn sas_info(
    ids: SasIds,
    our_key: Seq<char>,
    their_key: Seq<char>,
    flow_id: Seq<char>,
    we_started: bool,
) -> Seq<char> {
    let ours = ids.account.user_id@ + "|"@ + ids.account.device_id@ + "|"@ + our_key;
    let theirs = ids.other_device.user_id@ + "|"@ + ids.other_device.device_id@ + "|"@ + their_key;
    if we_started {
        "MATRIX_KEY_VERIFICATION_SAS|"@ + ours + "|"@ + theirs + "|"@ + flow_id
    } else {
        "MATRIX_KEY_VERIFICATION_SAS|"@ + theirs + "|"@ + ours + "|"@ + flow_id
    }
}

fn party_info(user_id: &str, device_id: &str, key: &str) -> (r: String)
    ensures
        r@ == user_id@ + "|"@ + device_id@ + "|"@ + key@,
{
    let mut r = user_id.to_string();
    r.append("|");
    r.append(device_id);
    r.append("|");
    r.append(key);
    r
}

/// Builds the info string for the SAS bytes.
pub fn extra_info_sas(
    ids: &SasIds,
    our_key: &str,
    their_key: &str,
    flow_id: &str,
    we_started: bool,
) -> (r: String)
    ensures
        r@ == sas_info(*ids, our_key@, their_key@, flow_id@, we_started),
{
    let ours = party_info(ids.account.user_id.as_str(), ids.account.device_id.as_str(), our_key);
    let theirs = party_info(
        ids.other_device.user_id.as_str(),
        ids.other_device.device_id.as_str(),
        their_key,
    );
    let (first, second) = if we_started {
        (ours, theirs)
    } else {
        (theirs, ours)
    };
    let mut r = "MATRIX_KEY_VERIFICATION_SAS|".to_string();
    r.append(first.as_str());
    r.append("|");
    r.append(second.as_str());
    r.append("|");
    r.append(flow_id);
    r
}

} // verus!
