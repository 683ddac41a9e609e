use vstd::prelude::*;

use crate::crypto::{base64_encode, base64_of, json_quoted, json_string, sha256, sha256_of};
use crate::flow::FlowId;
use crate::protocols::{AcceptV1Content, ProtocolName, SasV1Content};

verus! {

/// The method that a start message proposes.
pub enum StartMethod {
    SasV1(SasV1Content),
    /// Any other method, by its name.
    Other(String),
}

/// The content of an `m.key.verification.start` message.
pub struct StartContent {
    pub from_device: String,
    pub flow_id: FlowId,
    pub method: StartMethod,
}

/// The method that an accept message answers with.
pub enum AcceptMethod {
    SasV1(AcceptV1Content),
    /// Any other method, by its name.
    Other(String),
}

/// The content of an `m.key.verification.accept` message.
pub struct AcceptContent {
    pub flow_id: FlowId,
    pub method: AcceptMethod,
}

/// The content of an `m.key.verification.key` message.
pub struct KeyContent {
    pub flow_id: FlowId,
    /// The raw bytes of the sender's ephemeral Curve25519 public key.
    pub key: Vec<u8>,
}

/// The content of an `m.key.verification.mac` message.
pub struct MacContent {
    pub flow_id: FlowId,
    /// Pairs of a key id and the base64 MAC of that key, ordered by key id.
    pub mac: Vec<(String, String)>,
    /// The base64 MAC of the comma-joined key ids.
    pub keys: String,
}

/// The content of an `m.key.verification.done` message.
pub struct DoneContent {
    pub flow_id: FlowId,
}

/// Code-point order on strings: the order of a `String` key in a sorted map.
pub open spec fn str_less(a: Seq<char>, b: Seq<char>) -> bool
    decreases a.len(),
{
    if b.len() == 0 {
        false
    } else if a.len() == 0 {
        true
    } else if a[0] != b[0] {
        (a[0] as u32) < (b[0] as u32)
    } else {
        str_less(a.drop_first(), b.drop_first())
    }
}

/// Whether two strings are equal.
pub(crate) fn str_eq(a: &str, b: &str) -> (r: bool)
    ensures
        r == (a@ == b@),
{
    a.to_string() == b.to_string()
}

/// Whether one string comes before another in code-point order.
pub fn str_lt(a: &str, b: &str) -> (r: bool)
    ensures
        r == str_less(a@, b@),
{
    let la = a.unicode_len();
    let lb = b.unicode_len();
    let mut i: usize = 0;
    assert(a@.subrange(0, la as int) =~= a@);
    assert(b@.subrange(0, lb as int) =~= b@);
    while i < la && i < lb
        invariant
            la == a@.len(),
            lb == b@.len(),
            i <= la,
            i <= lb,
            str_less(a@, b@) == str_less(
                a@.subrange(i as int, la as int),
                b@.subrange(i as int, lb as int),
            ),
        decreases la - i,
    {
        let ca = a.get_char(i);
        let cb = b.get_char(i);
        let ghost sa = a@.subrange(i as int, la as int);
        let ghost sb = b@.subrange(i as int, lb as int);
        assert(sa[0] == ca && sb[0] == cb);
        if ca != cb {
            return (ca as u32) < (cb as u32);
        }
        assert(sa.drop_first() =~= a@.subrange(i + 1, la as int));
        assert(sb.drop_first() =~= b@.subrange(i + 1, lb as int));
        i = i + 1;
    }
    i < lb
}

/// No string comes before itself.
pub proof fn lemma_str_less_irreflexive(a: Seq<char>)
    ensures
        !str_less(a, a),
    decreases a.len(),
{
    if a.len() > 0 {
        lemma_str_less_irreflexive(a.drop_first());
    }
}

/// Code-point order is transitive.
pub proof fn lemma_str_less_transitive(a: Seq<char>, b: Seq<char>, c: Seq<char>)
    requires
        str_less(a, b),
        str_less(b, c),
    ensures
        str_less(a, c),
    decreases a.len(),
{
    if a.len() > 0 && a[0] == b[0] && b[0] == c[0] {
        lemma_str_less_transitive(a.drop_first(), b.drop_first(), c.drop_first());
    }
}

impl MacContent {
    /// The key ids are in strictly increasing order, as in a sorted map; so
    /// no key id appears twice.
    pub open spec fn wf(&self) -> bool {
        forall|i: int, j: int|
            0 <= i < j < self.mac@.len() ==> str_less(
                #[trigger] self.mac@[i].0@,
                #[trigger] self.mac@[j].0@,
            )
    }

    /// Whether the key ids are in strictly increasing order.
    pub fn is_sorted(&self) -> (r: bool)
        ensures
            r == self.wf(),
    {
        let n = self.mac.len();
        if n == 0 {
            return true;
        }
        let mut i: usize = 0;
        while i + 1 < n
            invariant
                n == self.mac@.len(),
                n > 0,
                i < n,
                forall|j: int, k: int|
                    0 <= j < k <= i ==> str_less(
                        #[trigger] self.mac@[j].0@,
                        #[trigger] self.mac@[k].0@,
                    ),
            decreases n - i,
        {
            if !str_lt(self.mac[i].0.as_str(), self.mac[i + 1].0.as_str()) {
                assert(!str_less(self.mac@[i as int].0@, self.mac@[i + 1].0@));
                return false;
            }
            assert forall|j: int, k: int| 0 <= j < k <= i + 1 implies str_less(
                #[trigger] self.mac@[j].0@,
                #[trigger] self.mac@[k].0@,
            ) by {
                if k == i + 1 && j < i {
                    lemma_str_less_transitive(
                        self.mac@[j].0@,
                        self.mac@[i as int].0@,
                        self.mac@[k].0@,
                    );
                }
            }
            i = i + 1;
        }
        true
    }

    /// The key ids of the message, in order.
    pub open spec fn key_ids(&self) -> Seq<Seq<char>> {
        self.mac@.map_values(|e: (String, String)| e.0@)
    }
}

/// Items joined by commas.
pub open spec fn comma_joined(s: Seq<Seq<char>>) -> Seq<char>
    decreases s.len(),
{
    if s.len() == 0 {
        Seq::empty()
    } else if s.len() == 1 {
        s[0]
    } else {
        comma_joined(s.drop_last()) + ","@ + s.last()
    }
}

/// The key ids of a MAC message joined by commas: the input of its keys MAC.
pub fn join_key_ids(content: &MacContent) -> (r: String)
    ensures
        r@ == comma_joined(content.key_ids()),
{
    let mut r = String::new();
    let mut i: usize = 0;
    let ghost ids = content.key_ids();
    while i < content.mac.len()
        invariant
            i <= content.mac@.len(),
            ids == content.key_ids(),
            r@ == comma_joined(ids.subrange(0, i as int)),
        decreases content.mac@.len() - i,
    {
        assert(ids.subrange(0, i + 1).drop_last() =~= ids.subrange(0, i as int));
        if i > 0 {
            r.append(",");
        } else {
            assert(r@ =~= Seq::<char>::empty());
        }
        r.append(content.mac[i].0.as_str());
        i = i + 1;
        assert(r@ =~= comma_joined(ids.subrange(0, i as int)));
    }
    assert(ids.subrange(0, i as int) =~= ids);
    r
}

/// The JSON items of a list of protocol names, without the brackets.
pub open spec fn json_items<T: ProtocolName>(s: Seq<T>) -> Seq<char>
    decreases s.len(),
{
    if s.len() == 0 {
        Seq::empty()
    } else if s.len() == 1 {
        json_quoted(s[0].spec_name())
    } else {
        json_items(s.drop_last()) + ","@ + json_quoted(s.last().spec_name())
    }
}

/// A list of protocol names as a JSON array.
pub open spec fn json_list<T: ProtocolName>(s: Seq<T>) -> Seq<char> {
    "["@ + json_items(s) + "]"@
}

/// Writes a list of protocol names as a JSON array.
pub fn write_json_list<T: ProtocolName>(v: &Vec<T>) -> (r: String)
    ensures
        r@ == json_list(v@),
{
    let mut items = String::new();
    let mut i: usize = 0;
    while i < v.len()
        invariant
            i <= v@.len(),
            items@ == json_items(v@.subrange(0, i as int)),
        decreases v@.len() - i,
    {
        assert(v@.subrange(0, i + 1).drop_last() =~= v@.subrange(0, i as int));
        if i > 0 {
            items.append(",");
        } else {
            assert(items@ =~= Seq::<char>::empty());
        }
        let name = v[i].name();
        let quoted = json_string(name.as_str());
        items.append(quoted.as_str());
        i = i + 1;
        assert(items@ =~= json_items(v@.subrange(0, i as int)));
    }
    assert(v@.subrange(0, i as int) =~= v@);
    let mut r = "[".to_string();
    r.append(items.as_str());
    r.append("]");
    r
}

/// The fields of a SAS start offer that come before the flow binding.
pub open spec fn start_json_head(from_device: Seq<char>, c: SasV1Content) -> Seq<char> {
    "{\"from_device\":"@ + json_quoted(from_device) + ",\"hashes\":"@ + json_list(c.hashes@)
        + ",\"key_agreement_protocols\":"@ + json_list(c.key_agreement_protocols@)
}

/// The fields of a SAS start offer that come after the in-room flow binding.
pub open spec fn start_json_tail(c: SasV1Content) -> Seq<char> {
    ",\"message_authentication_codes\":"@ + json_list(c.message_authentication_codes@)
        + ",\"method\":\"m.sas.v1\",\"short_authentication_string\":"@ + json_list(
        c.short_authentication_string@,
    )
}

/// The canonical JSON of a SAS start message: keys in lexicographic order,
/// no whitespace.
pub open spec fn canonical_start_json(
    from_device: Seq<char>,
    flow_id: FlowId,
    c: SasV1Content,
) -> Seq<char> {
    match flow_id {
        FlowId::ToDevice(t) => start_json_head(from_device, c) + start_json_tail(c)
            + ",\"transaction_id\":"@ + json_quoted(t@) + "}"@,
        FlowId::InRoom(_, e) => start_json_head(from_device, c) + ",\"m.relates_to\":{\"event_id\":"@
            + json_quoted(e@) + ",\"rel_type\":\"m.reference\"}"@ + start_json_tail(c) + "}"@,
    }
}

/// The commitment of the responder: base64 of the SHA-256 of its public key in
/// base64 followed by the canonical JSON of the start message.
pub open spec fn commitment_of(
    public_key: Seq<u8>,
    from_device: Seq<char>,
    flow_id: FlowId,
    c: SasV1Content,
) -> Seq<char> {
    base64_of(sha256_of(base64_of(public_key) + canonical_start_json(from_device, flow_id, c)))
}

/// Writes the canonical JSON of a SAS start message.
pub fn canonical_json(from_device: &str, flow_id: &FlowId, c: &SasV1Content) -> (r: String)
    ensures
        r@ == canonical_start_json(from_device@, *flow_id, *c),
{
    let mut head = "{\"from_device\":".to_string();
    head.append(json_string(from_device).as_str());
    head.append(",\"hashes\":");
    head.append(write_json_list(&c.hashes).as_str());
    head.append(",\"key_agreement_protocols\":");
    head.append(write_json_list(&c.key_agreement_protocols).as_str());

    let mut tail = ",\"message_authentication_codes\":".to_string();
    tail.append(write_json_list(&c.message_authentication_codes).as_str());
    tail.append(",\"method\":\"m.sas.v1\",\"short_authentication_string\":");
    tail.append(write_json_list(&c.short_authentication_string).as_str());

    match flow_id {
        FlowId::ToDevice(t) => {
            let mut r = head;
            r.append(tail.as_str());
            r.append(",\"transaction_id\":");
            r.append(json_string(t.as_str()).as_str());
            r.append("}");
            r
        },
        FlowId::InRoom(_, e) => {
            let mut r = head;
            r.append(",\"m.relates_to\":{\"event_id\":");
            r.append(json_string(e.as_str()).as_str());
            r.append(",\"rel_type\":\"m.reference\"}");
            r.append(tail.as_str());
            r.append("}");
            r
        },
    }
}

/// Computes the commitment that binds a public key to a SAS start message.
pub fn calculate_commitment(
    public_key: &Vec<u8>,
    from_device: &str,
    flow_id: &FlowId,
    c: &SasV1Content,
) -> (r: String)
    ensures
        r@ == commitment_of(public_key@, from_device@, *flow_id, *c),
        r@.len() == 43,
{
    let mut input = base64_encode(public_key);
    input.append(canonical_json(from_device, flow_id, c).as_str());
    let digest = sha256(input.as_str());
    base64_encode(&digest)
}

impl StartContent {
    /// Two start messages say the same thing.
    pub open spec fn same_as(&self, o: &StartContent) -> bool {
        &&& self.from_device@ == o.from_device@
        &&& self.flow_id == o.flow_id
        &&& match (self.method, o.method) {
            (StartMethod::SasV1(a), StartMethod::SasV1(b)) => a.same_as(&b),
            (StartMethod::Other(a), StartMethod::Other(b)) => a@ == b@,
            _ => false,
        }
    }
}

impl Clone for StartContent {
    fn clone(&self) -> (r: Self)
        ensures
            r.same_as(self),
    {
        StartContent {
            from_device: self.from_device.clone(),
            flow_id: self.flow_id.clone(),
            method: match &self.method {
                StartMethod::SasV1(c) => StartMethod::SasV1(c.clone()),
                StartMethod::Other(m) => StartMethod::Other(m.clone()),
            },
        }
    }
}

} // verus!
