//! The tool-array manifest: a byte-level scan of the serialized tool array
//! that splits it into its top-level items, fingerprints each of them, and
//! keeps a name-keyed detail entry for the leading tools.

use vstd::prelude::*;
use vstd::string::StringSliceAdditionalSpecFns;
use crate::fingerprint::{hmac_text, Fingerprint, FingerprintStream, Fingerprinter};
use crate::manifest::{
    join_commas, json_array, min_int, omitted_entries, ListManifest, ManifestObservation, ObservationStatus,
    OmittedManifest, RETAINED_LEAVES,
};

verus! {

/// How many leading tools keep a detail entry; a maximal record then stays
/// below the record-size cap.
pub const RETAINED_TOOL_DETAILS: usize = 256;

/// ASCII whitespace as `u8::is_ascii_whitespace` defines it.
pub open spec fn is_json_space(b: u8) -> bool {
    b == 32 || b == 9 || b == 10 || b == 12 || b == 13
}

fn is_ascii_whitespace(b: u8) -> (r: bool)
    ensures
        r == is_json_space(b),
{
    b == 32 || b == 9 || b == 10 || b == 12 || b == 13
}

/// Where the scan stands relative to the array.
#[derive(Clone, Copy, Debug, PartialEq, Eq, Structural)]
pub enum ToolScanState {
    BeforeArray,
    BetweenItems,
    InItem,
    AfterArray,
}

/// The mathematical state of the scan: the lexical position plus the items
/// completed so far and the bytes of the item being read.
pub ghost struct ScanModel {
    pub state: ToolScanState,
    pub depth: int,
    pub in_string: bool,
    pub escaped: bool,
    pub invalid: bool,
    pub has_current: bool,
    pub current: Seq<u8>,
    pub items: Seq<Seq<u8>>,
}

pub open spec fn initial_scan() -> ScanModel {
    ScanModel {
        state: ToolScanState::BeforeArray,
        depth: 0,
        in_string: false,
        escaped: false,
        invalid: false,
        has_current: false,
        current: Seq::empty(),
        items: Seq::empty(),
    }
}

/// The lexical effect of one byte that belongs to an item.
pub open spec fn lex_byte(m: ScanModel, b: u8) -> ScanModel {
    if m.in_string {
        if m.escaped {
            ScanModel { escaped: false, ..m }
        } else if b == 92 {
            ScanModel { escaped: true, ..m }
        } else if b == 34 {
            ScanModel { in_string: false, ..m }
        } else {
            m
        }
    } else if b == 34 {
        ScanModel { in_string: true, ..m }
    } else if b == 123 || b == 91 {
        ScanModel { depth: m.depth + 1, ..m }
    } else if (b == 125 || b == 93) && m.depth > 0 {
        ScanModel { depth: m.depth - 1, ..m }
    } else if b == 125 {
        ScanModel { invalid: true, ..m }
    } else {
        m
    }
}

/// One byte of an item: recorded in the current item, then lexed.
pub open spec fn item_byte(m: ScanModel, b: u8) -> ScanModel {
    let recorded = if m.has_current { ScanModel { current: m.current.push(b), ..m } } else { m };
    lex_byte(recorded, b)
}

/// Closes the current item.
pub open spec fn close_item(m: ScanModel) -> ScanModel {
    if !m.has_current {
        ScanModel { invalid: true, ..m }
    } else {
        ScanModel { items: m.items.push(m.current), has_current: false, current: Seq::empty(), ..m }
    }
}

/// The scan's step on one byte of the serialized array.
pub open spec fn scan_byte(m: ScanModel, b: u8) -> ScanModel {
    match m.state {
        ToolScanState::BeforeArray => {
            if b == 91 {
                ScanModel { state: ToolScanState::BetweenItems, ..m }
            } else if !is_json_space(b) {
                ScanModel { invalid: true, ..m }
            } else {
                m
            }
        },
        ToolScanState::BetweenItems => {
            if b == 93 {
                ScanModel { state: ToolScanState::AfterArray, ..m }
            } else if b != 44 && !is_json_space(b) {
                item_byte(
                    ScanModel {
                        state: ToolScanState::InItem,
                        has_current: true,
                        current: Seq::empty(),
                        ..m
                    },
                    b,
                )
            } else {
                m
            }
        },
        ToolScanState::InItem => {
            if !m.in_string && m.depth == 0 && (b == 44 || b == 93) {
                let closed = close_item(m);
                ScanModel {
                    state: if b == 44 {
                        ToolScanState::BetweenItems
                    } else {
                        ToolScanState::AfterArray
                    },
                    ..closed
                }
            } else {
                item_byte(m, b)
            }
        },
        ToolScanState::AfterArray => {
            if !is_json_space(b) {
                ScanModel { invalid: true, ..m }
            } else {
                m
            }
        },
    }
}

/// The scan state after `bytes`, starting from `m`.
pub open spec fn scan_from(m: ScanModel, bytes: Seq<u8>) -> ScanModel
    decreases bytes.len(),
{
    if bytes.len() == 0 {
        m
    } else {
        scan_byte(scan_from(m, bytes.drop_last()), bytes.last())
    }
}

/// The scan ended on a complete, well-nested array.
pub open spec fn scan_complete(m: ScanModel) -> bool {
    &&& !m.invalid
    &&& m.state == ToolScanState::AfterArray
    &&& !m.has_current
    &&& !m.in_string
    &&& m.depth == 0
}

/// The top-level items of a serialized array, when the scan accepts it.
pub open spec fn tool_items(bytes: Seq<u8>) -> Option<Seq<Seq<u8>>> {
    let m = scan_from(initial_scan(), bytes);
    if scan_complete(m) {
        Option::Some(m.items)
    } else {
        Option::None
    }
}

/// A member of a parsed JSON object, as plain values: its key, its value's
/// text when the value is a JSON string, and the value's compact
/// re-serialization (`None` when it could not be re-serialized).
pub struct JsonMember {
    pub key: String,
    pub text: Option<String>,
    pub json: Option<Vec<u8>>,
}

pub open spec fn member_view(member: JsonMember) -> (Seq<char>, Option<Seq<char>>, Option<Seq<u8>>) {
    (
        member.key@,
        match member.text {
            Option::None => Option::None,
            Option::Some(t) => Option::Some(t@),
        },
        match member.json {
            Option::None => Option::None,
            Option::Some(j) => Option::Some(j@),
        },
    )
}

pub open spec fn members_view(members: Seq<JsonMember>) -> Seq<(Seq<char>, Option<Seq<char>>, Option<Seq<u8>>)> {
    members.map_values(|member: JsonMember| member_view(member))
}

/// The members of the JSON object that `item` holds, in `serde_json`'s
/// order, or `None` when `item` is not one JSON object.
pub uninterp spec fn json_object_members(item: Seq<u8>) -> Option<
    Seq<(Seq<char>, Option<Seq<char>>, Option<Seq<u8>>)>,
>;

/// Parses `item` with `serde_json::from_slice` into a
/// `serde_json::Map<String, Value>` and hands out each member as plain
/// values: the key, `Value::as_str` of the value, and `serde_json::to_vec` of
/// the value.
///
/// The contract names the result: it depends on the item's bytes alone.
#[verifier::external_body]
fn parse_json_object(item: &[u8]) -> (members: Option<Vec<JsonMember>>)
    ensures
        match members {
            Option::None => json_object_members(item@) is None,
            Option::Some(ms) => json_object_members(item@) == Option::Some(members_view(ms@)),
        },
{
    let object: serde_json::Map<String, serde_json::Value> = serde_json::from_slice(item).ok()?;
    let members = object.iter().map(|(key, value)| JsonMember {
        key: key.clone(),
        text: value.as_str().map(str::to_string),
        json: serde_json::to_vec(value).ok(),
    });
    Some(members.collect())
}

/// The first member named `key`.
pub open spec fn member_named(
    members: Seq<(Seq<char>, Option<Seq<char>>, Option<Seq<u8>>)>,
    key: Seq<char>,
) -> Option<(Seq<char>, Option<Seq<char>>, Option<Seq<u8>>)>
    decreases members.len(),
{
    if members.len() == 0 {
        Option::None
    } else if members[0].0 == key {
        Option::Some(members[0])
    } else {
        member_named(members.drop_first(), key)
    }
}

/// A member's re-serialization, when the member is there.
pub open spec fn member_json(
    member: Option<(Seq<char>, Option<Seq<char>>, Option<Seq<u8>>)>,
) -> Option<Option<Seq<u8>>> {
    match member {
        Option::None => Option::None,
        Option::Some(m) => Option::Some(m.2),
    }
}

/// What a tool's detail reads from its members: the string value of `name`
/// (empty when there is none or it is not a string), and the
/// re-serialization of `description` and `parameters` (outer `None`: the
/// member is absent or the tool is not a JSON object; inner `None`: it could
/// not be re-serialized).
pub open spec fn fields_of_members(
    members: Option<Seq<(Seq<char>, Option<Seq<char>>, Option<Seq<u8>>)>>,
) -> (Seq<char>, Option<Option<Seq<u8>>>, Option<Option<Seq<u8>>>) {
    match members {
        Option::None => (Seq::empty(), Option::None, Option::None),
        Option::Some(ms) => (
            match member_named(ms, "name"@) {
                Option::Some(m) => match m.1 {
                    Option::Some(t) => t,
                    Option::None => Seq::empty(),
                },
                Option::None => Seq::empty(),
            },
            member_json(member_named(ms, "description"@)),
            member_json(member_named(ms, "parameters"@)),
        ),
    }
}

/// What one serialized tool's detail reads from it.
pub open spec fn tool_fields(item: Seq<u8>) -> (
    Seq<char>,
    Option<Option<Seq<u8>>>,
    Option<Option<Seq<u8>>>,
) {
    fields_of_members(json_object_members(item))
}

pub open spec fn field_view(field: Option<Option<Vec<u8>>>) -> Option<Option<Seq<u8>>> {
    match field {
        Option::None => Option::None,
        Option::Some(Option::None) => Option::Some(Option::None),
        Option::Some(Option::Some(v)) => Option::Some(Option::Some(v@)),
    }
}

fn key_is(key: &String, wanted: &str) -> (same: bool)
    ensures
        same == (key@ == wanted@),
{
    let wanted = wanted.to_owned();
    String::eq(key, &wanted)
}

/// The position of the first member named `key`.
fn find_member(members: &[JsonMember], key: &str) -> (found: Option<usize>)
    ensures
        match member_named(members_view(members@), key@) {
            Option::None => found is None,
            Option::Some(m) => found matches Option::Some(i) && i < members@.len()
                && member_view(members@[i as int]) == m,
        },
{
    let ghost all = members_view(members@);
    assert(all.skip(0) == all);
    let mut i: usize = 0;
    while i < members.len()
        invariant
            i <= members@.len(),
            all == members_view(members@),
            member_named(all, key@) == member_named(all.skip(i as int), key@),
        decreases members@.len() - i,
    {
        proof {
            assert(all.skip(i as int)[0] == member_view(members@[i as int]));
            assert(all.skip(i as int).drop_first() == all.skip(i + 1));
        }
        if key_is(&members[i].key, key) {
            return Option::Some(i);
        }
        i = i + 1;
    }
    proof {
        assert(all.skip(i as int).len() == 0);
    }
    Option::None
}

fn copy_bytes(bytes: &Vec<u8>) -> (copy: Vec<u8>)
    ensures
        copy@ == bytes@,
{
    let mut copy: Vec<u8> = Vec::new();
    crate::fingerprint::append_bytes(&mut copy, bytes.as_slice());
    copy
}

fn member_json_copy(members: &[JsonMember], key: &str) -> (field: Option<Option<Vec<u8>>>)
    ensures
        field_view(field) == member_json(member_named(members_view(members@), key@)),
{
    match find_member(members, key) {
        Option::None => Option::None,
        Option::Some(i) => match &members[i].json {
            Option::None => Option::Some(Option::None),
            Option::Some(json) => Option::Some(Option::Some(copy_bytes(json))),
        },
    }
}

pub open spec fn optional_members_view(members: Option<&[JsonMember]>) -> Option<
    Seq<(Seq<char>, Option<Seq<char>>, Option<Seq<u8>>)>,
> {
    match members {
        Option::None => Option::None,
        Option::Some(ms) => Option::Some(members_view(ms@)),
    }
}

/// Picks a tool's name, description and parameters from its parsed members;
/// a tool without a string name gets the empty name.
pub fn tool_fields_from_members(members: Option<&[JsonMember]>) -> (fields: (
    String,
    Option<Option<Vec<u8>>>,
    Option<Option<Vec<u8>>>,
))
    ensures
        (fields.0@, field_view(fields.1), field_view(fields.2)) == fields_of_members(
            optional_members_view(members),
        ),
{
    match members {
        Option::None => (String::new(), Option::None, Option::None),
        Option::Some(ms) => {
            let name = match find_member(ms, "name") {
                Option::Some(i) => match &ms[i].text {
                    Option::Some(text) => text.clone(),
                    Option::None => String::new(),
                },
                Option::None => String::new(),
            };
            (name, member_json_copy(ms, "description"), member_json_copy(ms, "parameters"))
        },
    }
}

/// Sub-field fingerprints for one serialized tool, keyed by its plaintext name.
///
/// Tool names are intentionally stored in the clear: they are bounded,
/// low-sensitivity identifiers, and name-keyed diffs let an analyzer say which
/// tool changed rather than only which array position changed.
pub struct ToolDetailEntry {
    pub name: String,
    pub descriptor: Fingerprint,
    pub description: ManifestObservation<Fingerprint>,
    pub parameters: ManifestObservation<Fingerprint>,
}

/// A member's fingerprint under `domain`: missing when absent, unavailable
/// when it could not be serialized.
pub open spec fn field_describes(
    obs: ManifestObservation<Fingerprint>,
    key: Seq<u8>,
    domain: Seq<u8>,
    field: Option<Option<Seq<u8>>>,
) -> bool {
    match field {
        Option::None => obs.is_status(ObservationStatus::Missing),
        Option::Some(Option::None) => obs.is_status(ObservationStatus::Unavailable),
        Option::Some(Option::Some(json)) => obs matches ManifestObservation::Observed(f)
            && f.describes(key, domain, json),
    }
}

pub open spec fn item_domain() -> Seq<u8> {
    "logical.tools.item".spec_bytes()
}

impl ToolDetailEntry {
    pub open spec fn describes(self, key: Seq<u8>, item: Seq<u8>) -> bool {
        let fields = tool_fields(item);
        &&& self.name@ == fields.0
        &&& self.descriptor.describes(key, item_domain(), item)
        &&& field_describes(
            self.description,
            key,
            "logical.tools.detail.description".spec_bytes(),
            fields.1,
        )
        &&& field_describes(
            self.parameters,
            key,
            "logical.tools.detail.parameters".spec_bytes(),
            fields.2,
        )
    }
}

/// Name-keyed manifest of the serialized tool array.
pub struct ToolsDetailManifest {
    pub count: usize,
    pub retained: Vec<ToolDetailEntry>,
    pub omitted: OmittedManifest,
}

impl ToolsDetailManifest {
    pub open spec fn describes(self, key: Seq<u8>, items: Seq<Seq<u8>>) -> bool {
        &&& self.count == items.len()
        &&& self.retained@.len() == min_int(items.len() as int, RETAINED_TOOL_DETAILS as int)
        &&& forall|i: int|
            0 <= i < self.retained@.len() ==> #[trigger] self.retained@[i].describes(key, items[i])
        &&& self.omitted.count == items.len() - self.retained@.len()
        &&& self.omitted.hmac@ == hmac_text(
            key,
            "logical.tools.detail.omitted".spec_bytes(),
            omitted_entries(key, item_domain(), items, RETAINED_TOOL_DETAILS as int, items.len() as int),
        )
    }
}

fn field_observation(
    fingerprinter: &Fingerprinter,
    domain: &[u8],
    field: &Option<Option<Vec<u8>>>,
) -> (obs: ManifestObservation<Fingerprint>)
    ensures
        field_describes(obs, fingerprinter.key(), domain@, field_view(*field)),
{
    match field {
        Option::None => ManifestObservation::Status { status: ObservationStatus::Missing },
        Option::Some(Option::None) => ManifestObservation::Status {
            status: ObservationStatus::Unavailable,
        },
        Option::Some(Option::Some(json)) => ManifestObservation::Observed(
            fingerprinter.fingerprint_bytes(domain, json.as_slice()),
        ),
    }
}

/// Reduces one serialized tool to its plaintext name plus keyed sub-field
/// fingerprints; a tool without a string name is retained with an empty name
/// rather than dropped, so counts stay exact.
pub fn tool_detail(
    fingerprinter: &Fingerprinter,
    item_bytes: &[u8],
    descriptor: &Fingerprint,
) -> (entry: ToolDetailEntry)
    requires
        descriptor.describes(fingerprinter.key(), item_domain(), item_bytes@),
    ensures
        entry.describes(fingerprinter.key(), item_bytes@),
{
    let members = parse_json_object(item_bytes);
    let fields = tool_fields_from_members(
        match &members {
            Option::Some(ms) => Option::Some(ms.as_slice()),
            Option::None => Option::None,
        },
    );
    let description = field_observation(
        fingerprinter,
        "logical.tools.detail.description".as_bytes(),
        &fields.1,
    );
    let parameters = field_observation(
        fingerprinter,
        "logical.tools.detail.parameters".as_bytes(),
        &fields.2,
    );
    ToolDetailEntry { name: fields.0, descriptor: descriptor.duplicate(), description, parameters }
}

/// The streaming scanner that fingerprints the tool array while it is written.
pub struct ToolManifestWriter<'a> {
    fingerprinter: &'a Fingerprinter,
    total: FingerprintStream<'a>,
    omitted: FingerprintStream<'a>,
    current: Option<FingerprintStream<'a>>,
    current_bytes: Vec<u8>,
    retained: Vec<Fingerprint>,
    details: Vec<ToolDetailEntry>,
    details_omitted: FingerprintStream<'a>,
    count: usize,
    state: ToolScanState,
    depth: usize,
    in_string: bool,
    escaped: bool,
    invalid: bool,
    model: Ghost<ScanModel>,
    input: Ghost<Seq<u8>>,
}

impl<'a> ToolManifestWriter<'a> {
    pub closed spec fn key(&self) -> Seq<u8> {
        self.fingerprinter.key()
    }

    /// The bytes scanned so far.
    pub closed spec fn input(&self) -> Seq<u8> {
        self.input@
    }

    /// The scan state reached on the bytes so far.
    pub closed spec fn model(&self) -> ScanModel {
        self.model@
    }

    /// The writer's fields and streams agree with the scan state `m`.
    pub closed spec fn consistent(&self, m: ScanModel) -> bool {
        let key = self.fingerprinter.key();
        &&& self.state == m.state
        &&& self.depth as int == m.depth
        &&& self.in_string == m.in_string
        &&& self.escaped == m.escaped
        &&& self.invalid == m.invalid
        &&& self.count == m.items.len()
        &&& m.has_current == self.current.is_some()
        &&& (self.current matches Option::Some(c) ==> {
            &&& c.wf()
            &&& c.key() == key
            &&& c.domain() == item_domain()
            &&& c.absorbed() == m.current
        })
        &&& (m.has_current && self.count < RETAINED_TOOL_DETAILS) ==> self.current_bytes@
            == m.current
        &&& self.retained@.len() == min_int(self.count as int, RETAINED_LEAVES as int)
        &&& forall|i: int|
            0 <= i < self.retained@.len() ==> #[trigger] self.retained@[i].describes(
                key,
                item_domain(),
                m.items[i],
            )
        &&& self.omitted.wf()
        &&& self.omitted.key() == key
        &&& self.omitted.domain() == "logical.tools.omitted".spec_bytes()
        &&& self.omitted.absorbed() == omitted_entries(
            key,
            item_domain(),
            m.items,
            RETAINED_LEAVES as int,
            self.count as int,
        )
        &&& self.details@.len() == min_int(self.count as int, RETAINED_TOOL_DETAILS as int)
        &&& forall|i: int|
            0 <= i < self.details@.len() ==> #[trigger] self.details@[i].describes(key, m.items[i])
        &&& self.details_omitted.wf()
        &&& self.details_omitted.key() == key
        &&& self.details_omitted.domain() == "logical.tools.detail.omitted".spec_bytes()
        &&& self.details_omitted.absorbed() == omitted_entries(
            key,
            item_domain(),
            m.items,
            RETAINED_TOOL_DETAILS as int,
            self.count as int,
        )
        &&& self.total.wf()
        &&& self.total.key() == key
        &&& self.total.domain() == "logical.tools".spec_bytes()
    }

    /// Everything except the whole-array stream matches the scan of the input.
    pub closed spec fn scan_wf(&self) -> bool {
        let m = self.model@;
        &&& m == scan_from(initial_scan(), self.input@)
        &&& self.consistent(m)
        &&& 0 <= m.depth <= self.input@.len()
        &&& self.count + (if m.has_current { 1int } else { 0int }) <= self.input@.len()
    }

    pub closed spec fn wf(&self) -> bool {
        &&& self.scan_wf()
        &&& self.total.absorbed() == self.input@
    }

    /// A scanner that has read nothing yet.
    pub fn new(fingerprinter: &'a Fingerprinter) -> (writer: ToolManifestWriter<'a>)
        ensures
            writer.wf(),
            writer.key() == fingerprinter.key(),
            writer.input() == Seq::<u8>::empty(),
            writer.model() == scan_from(initial_scan(), writer.input()),
    {
        let writer = ToolManifestWriter {
            fingerprinter,
            total: fingerprinter.stream("logical.tools".as_bytes()),
            omitted: fingerprinter.stream("logical.tools.omitted".as_bytes()),
            current: Option::None,
            current_bytes: Vec::new(),
            retained: Vec::new(),
            details: Vec::new(),
            details_omitted: fingerprinter.stream("logical.tools.detail.omitted".as_bytes()),
            count: 0,
            state: ToolScanState::BeforeArray,
            depth: 0,
            in_string: false,
            escaped: false,
            invalid: false,
            model: Ghost(initial_scan()),
            input: Ghost(Seq::empty()),
        };
        assert(scan_from(initial_scan(), Seq::<u8>::empty()) == initial_scan());
        writer
    }

    /// Records `byte` in the current item and lexes it.
    fn scan_item_byte(&mut self, byte: u8)
        requires
            old(self).current matches Option::Some(c) ==> c.wf(),
            old(self).depth < usize::MAX,
        ensures
            final(self).fingerprinter == old(self).fingerprinter,
            final(self).total == old(self).total,
            final(self).omitted == old(self).omitted,
            final(self).details_omitted == old(self).details_omitted,
            final(self).retained == old(self).retained,
            final(self).details == old(self).details,
            final(self).count == old(self).count,
            final(self).state == old(self).state,
            final(self).model == old(self).model,
            final(self).input == old(self).input,
            final(self).current.is_some() == old(self).current.is_some(),
            final(self).current matches Option::Some(c) ==> {
                &&& c.wf()
                &&& c.key() == old(self).current.unwrap().key()
                &&& c.domain() == old(self).current.unwrap().domain()
                &&& c.absorbed() == old(self).current.unwrap().absorbed().push(byte)
            },
            (old(self).current.is_some() && old(self).count < RETAINED_TOOL_DETAILS)
                ==> final(self).current_bytes@ == old(self).current_bytes@.push(byte),
            ({
                let m = lex_byte(
                    ScanModel {
                        depth: old(self).depth as int,
                        in_string: old(self).in_string,
                        escaped: old(self).escaped,
                        invalid: old(self).invalid,
                        ..old(self).model@
                    },
                    byte,
                );
                &&& final(self).depth as int == m.depth
                &&& final(self).in_string == m.in_string
                &&& final(self).escaped == m.escaped
                &&& final(self).invalid == m.invalid
            }),
    {
        match self.current.take() {
            Option::Some(mut current) => {
                let single: Vec<u8> = vec![byte];
                current.absorb(single.as_slice());
                assert(single@ == seq![byte]);
                if self.count < RETAINED_TOOL_DETAILS {
                    self.current_bytes.push(byte);
                }
                self.current = Option::Some(current);
            },
            Option::None => {},
        }
        if self.in_string {
            if self.escaped {
                self.escaped = false;
            } else if byte == 92 {
                self.escaped = true;
            } else if byte == 34 {
                self.in_string = false;
            }
            return;
        }
        if byte == 34 {
            self.in_string = true;
        } else if byte == 123 || byte == 91 {
            self.depth = self.depth + 1;
        } else if (byte == 125 || byte == 93) && self.depth > 0 {
            self.depth = self.depth - 1;
        } else if byte == 125 {
            self.invalid = true;
        }
    }

    /// Closes the current item: fingerprints it, keeps its detail entry or
    /// absorbs it into the omitted-detail digest, and likewise for the list.
    fn finish_item(&mut self, m: Ghost<ScanModel>)
        requires
            old(self).consistent(m@),
            old(self).count < usize::MAX,
        ensures
            final(self).consistent(close_item(m@)),
            final(self).fingerprinter == old(self).fingerprinter,
            final(self).total == old(self).total,
            final(self).model == old(self).model,
            final(self).input == old(self).input,
    {
        let ghost key = self.fingerprinter.key();
        let ghost items = m@.items;
        match self.current.take() {
            Option::None => {
                self.invalid = true;
            },
            Option::Some(current) => {
                let finished = current.finish();
                let ghost next_items = items.push(m@.current);
                proof {
                    lemma_omitted_entries_extend(key, item_domain(), items, m@.current,
                        RETAINED_LEAVES as int, self.count as int);
                    lemma_omitted_entries_extend(key, item_domain(), items, m@.current,
                        RETAINED_TOOL_DETAILS as int, self.count as int);
                    assert(omitted_entries(key, item_domain(), next_items, RETAINED_LEAVES as int,
                        self.count + 1) == omitted_entries(key, item_domain(), next_items,
                        RETAINED_LEAVES as int, self.count as int) + (if self.count
                        >= RETAINED_LEAVES {
                        crate::fingerprint::entry_bytes(self.count as int, m@.current.len() as int,
                            crate::fingerprint::digest_of(key, item_domain(), m@.current))
                    } else {
                        Seq::empty()
                    }));
                    assert(omitted_entries(key, item_domain(), next_items,
                        RETAINED_TOOL_DETAILS as int, self.count + 1) == omitted_entries(key,
                        item_domain(), next_items, RETAINED_TOOL_DETAILS as int, self.count as int)
                        + (if self.count >= RETAINED_TOOL_DETAILS {
                        crate::fingerprint::entry_bytes(self.count as int, m@.current.len() as int,
                            crate::fingerprint::digest_of(key, item_domain(), m@.current))
                    } else {
                        Seq::empty()
                    }));
                }
                if self.count < RETAINED_TOOL_DETAILS {
                    let entry = tool_detail(
                        self.fingerprinter,
                        self.current_bytes.as_slice(),
                        &finished.fingerprint,
                    );
                    self.details.push(entry);
                    self.current_bytes.clear();
                } else {
                    self.details_omitted.absorb_entry(self.count, &finished);
                }
                if self.count < RETAINED_LEAVES {
                    self.retained.push(finished.fingerprint);
                } else {
                    self.omitted.absorb_entry(self.count, &finished);
                }
                self.count = self.count + 1;
                proof {
                    assert forall|i: int| 0 <= i < self.retained@.len() implies #[trigger]
                        self.retained@[i].describes(key, item_domain(), next_items[i]) by {
                        if i < self.count - 1 {
                            assert(next_items[i] == items[i]);
                        }
                    }
                    assert forall|i: int| 0 <= i < self.details@.len() implies #[trigger]
                        self.details@[i].describes(key, next_items[i]) by {
                        if i < self.count - 1 {
                            assert(next_items[i] == items[i]);
                        }
                    }
                }
            },
        }
    }

    /// Scans more of the serialized array and adds it to the whole-array fingerprint.
    pub fn write(&mut self, bytes: &[u8])
        requires
            old(self).wf(),
            old(self).input().len() + bytes@.len() <= usize::MAX,
        ensures
            final(self).wf(),
            final(self).input() == old(self).input() + bytes@,
            final(self).key() == old(self).key(),
            final(self).model() == scan_from(initial_scan(), final(self).input()),
    {
        self.total.absorb(bytes);
        let ghost start = self.input@;
        let mut i: usize = 0;
        while i < bytes.len()
            invariant
                i <= bytes@.len(),
                start.len() + bytes@.len() <= usize::MAX,
                self.scan_wf(),
                self.input@ == start + bytes@.take(i as int),
                self.total.absorbed() == start + bytes@,
                self.fingerprinter == old(self).fingerprinter,
            decreases bytes@.len() - i,
        {
            self.scan(bytes[i]);
            assert(bytes@.take(i + 1) == bytes@.take(i as int).push(bytes@[i as int]));
            i = i + 1;
        }
        assert(bytes@.take(bytes@.len() as int) == bytes@);
    }

    /// Completes the manifests when the input was one complete, well-nested array.
    pub fn finish(self) -> (manifests: Option<(ListManifest, ToolsDetailManifest)>)
        requires
            self.wf(),
        ensures
            scan_complete(self.model()) <==> manifests is Some,
            tool_items(self.input()) is Some <==> manifests is Some,
            manifests matches Option::Some((list, detail)) ==> {
                &&& list.body.describes(self.key(), "logical.tools".spec_bytes(), self.input())
                &&& list.describes_items(
                    self.key(),
                    item_domain(),
                    "logical.tools.omitted".spec_bytes(),
                    self.model().items,
                )
                &&& detail.describes(self.key(), self.model().items)
                &&& tool_items(self.input()) == Option::Some(self.model().items)
            },
    {
        if self.invalid || self.state != ToolScanState::AfterArray || self.current.is_some()
            || self.in_string || self.depth != 0 {
            return Option::None;
        }
        let total = self.total.finish();
        let omitted = self.omitted.finish();
        let details_omitted = self.details_omitted.finish();
        let detail_count = self.count - self.details.len();
        let list_count = self.count - self.retained.len();
        let detail = ToolsDetailManifest {
            count: self.count,
            omitted: OmittedManifest { count: detail_count, hmac: details_omitted.fingerprint.hmac },
            retained: self.details,
        };
        let list = ListManifest {
            body: total.fingerprint,
            count: self.count,
            omitted: OmittedManifest { count: list_count, hmac: omitted.fingerprint.hmac },
            retained: self.retained,
        };
        Option::Some((list, detail))
    }

    /// One byte of the serialized array.
    fn scan(&mut self, byte: u8)
        requires
            old(self).scan_wf(),
            old(self).input@.len() < usize::MAX,
        ensures
            final(self).scan_wf(),
            final(self).input@ == old(self).input@.push(byte),
            final(self).fingerprinter == old(self).fingerprinter,
            final(self).total == old(self).total,
    {
        let ghost m = self.model@;
        let ghost before = self.input@;
        let ghost next = scan_byte(m, byte);
        match self.state {
            ToolScanState::BeforeArray => {
                if byte == 91 {
                    self.state = ToolScanState::BetweenItems;
                } else if !is_ascii_whitespace(byte) {
                    self.invalid = true;
                }
            },
            ToolScanState::BetweenItems => {
                if byte == 93 {
                    self.state = ToolScanState::AfterArray;
                } else if byte != 44 && !is_ascii_whitespace(byte) {
                    self.current = Option::Some(self.fingerprinter.stream("logical.tools.item".as_bytes()));
                    self.current_bytes.clear();
                    self.state = ToolScanState::InItem;
                    self.scan_item_byte(byte);
                }
            },
            ToolScanState::InItem => {
                if !self.in_string && self.depth == 0 && (byte == 44 || byte == 93) {
                    self.finish_item(Ghost(m));
                    self.state = if byte == 44 {
                        ToolScanState::BetweenItems
                    } else {
                        ToolScanState::AfterArray
                    };
                } else {
                    self.scan_item_byte(byte);
                }
            },
            ToolScanState::AfterArray => {
                if !is_ascii_whitespace(byte) {
                    self.invalid = true;
                }
            },
        }
        self.model = Ghost(next);
        self.input = Ghost(before.push(byte));
        assert(before.push(byte).drop_last() == before);
    }
}

/// The list and detail manifests of the tool array, or why there are none.
pub struct ToolManifests {
    pub list: ManifestObservation<ListManifest>,
    pub detail: ManifestObservation<ToolsDetailManifest>,
}

/// Manifests of the serialized tool array: missing when the request has no
/// tools, unavailable when the bytes are not one complete array.
pub fn tools_manifest(fingerprinter: &Fingerprinter, tools: Option<&[u8]>) -> (manifests: ToolManifests)
    ensures
        tools is None ==> manifests.list.is_status(ObservationStatus::Missing)
            && manifests.detail.is_status(ObservationStatus::Missing),
        tools matches Option::Some(bytes) ==> match tool_items(bytes@) {
            Option::None => manifests.list.is_status(ObservationStatus::Unavailable)
                && manifests.detail.is_status(ObservationStatus::Unavailable),
            Option::Some(items) => {
                &&& manifests.list matches ManifestObservation::Observed(list)
                &&& list.body.describes(fingerprinter.key(), "logical.tools".spec_bytes(), bytes@)
                &&& list.describes_items(
                    fingerprinter.key(),
                    item_domain(),
                    "logical.tools.omitted".spec_bytes(),
                    items,
                )
                &&& manifests.detail matches ManifestObservation::Observed(detail)
                &&& detail.describes(fingerprinter.key(), items)
            },
        },
{
    match tools {
        Option::None => ToolManifests {
            list: ManifestObservation::Status { status: ObservationStatus::Missing },
            detail: ManifestObservation::Status { status: ObservationStatus::Missing },
        },
        Option::Some(bytes) => {
            let mut writer = ToolManifestWriter::new(fingerprinter);
            let length = bytes.len();
            assert(length == bytes@.len());
            writer.write(bytes);
            assert(Seq::<u8>::empty() + bytes@ == bytes@);
            match writer.finish() {
                Option::None => ToolManifests {
                    list: ManifestObservation::Status { status: ObservationStatus::Unavailable },
                    detail: ManifestObservation::Status { status: ObservationStatus::Unavailable },
                },
                Option::Some((list, detail)) => ToolManifests {
                    list: ManifestObservation::Observed(list),
                    detail: ManifestObservation::Observed(detail),
                },
            }
        },
    }
}

/// The scan between items, with `items` completed.
pub open spec fn between_items(items: Seq<Seq<u8>>) -> ScanModel {
    ScanModel { state: ToolScanState::BetweenItems, ..ScanModel { items, ..initial_scan() } }
}

/// The scan at the end of a whole top-level item `item`, with `items` completed before it.
pub open spec fn at_item_end(items: Seq<Seq<u8>>, item: Seq<u8>) -> ScanModel {
    ScanModel {
        state: ToolScanState::InItem,
        has_current: true,
        current: item,
        ..between_items(items)
    }
}

/// A serialized value that the scan reads as one whole top-level item: it
/// starts an item, and at its end the scan is back at depth zero, outside any
/// string, with the value as the current item.
pub open spec fn scans_as_item(item: Seq<u8>) -> bool {
    &&& item.len() > 0
    &&& scan_from(between_items(Seq::empty()), item) == at_item_end(Seq::empty(), item)
}

/// `m` with `prior` completed items before its own.
pub open spec fn with_prior(m: ScanModel, prior: Seq<Seq<u8>>) -> ScanModel {
    ScanModel { items: prior + m.items, ..m }
}

proof fn lemma_scan_concat(m: ScanModel, a: Seq<u8>, b: Seq<u8>)
    ensures
        scan_from(m, a + b) == scan_from(scan_from(m, a), b),
    decreases b.len(),
{
    if b.len() == 0 {
        assert(a + b == a);
    } else {
        lemma_scan_concat(m, a, b.drop_last());
        assert((a + b).drop_last() == a + b.drop_last());
        assert((a + b).last() == b.last());
    }
}

proof fn lemma_scan_one(m: ScanModel, b: u8)
    ensures
        scan_from(m, seq![b]) == scan_byte(m, b),
{
    assert(seq![b].drop_last() == Seq::<u8>::empty());
    assert(scan_from(m, Seq::<u8>::empty()) == m);
}

proof fn lemma_scan_byte_prior(m: ScanModel, prior: Seq<Seq<u8>>, b: u8)
    ensures
        scan_byte(with_prior(m, prior), b) == with_prior(scan_byte(m, b), prior),
{
    assert(prior + m.items.push(m.current) == (prior + m.items).push(m.current));
}

proof fn lemma_scan_prior(m: ScanModel, prior: Seq<Seq<u8>>, bytes: Seq<u8>)
    ensures
        scan_from(with_prior(m, prior), bytes) == with_prior(scan_from(m, bytes), prior),
    decreases bytes.len(),
{
    if bytes.len() > 0 {
        lemma_scan_prior(m, prior, bytes.drop_last());
        lemma_scan_byte_prior(scan_from(m, bytes.drop_last()), prior, bytes.last());
    }
}

proof fn lemma_scan_array_prefix(items: Seq<Seq<u8>>, n: int)
    requires
        1 <= n <= items.len(),
        forall|i: int| 0 <= i < items.len() ==> scans_as_item(#[trigger] items[i]),
    ensures
        scan_from(initial_scan(), seq![91u8] + join_commas(items.take(n))) == at_item_end(
            items.take(n - 1),
            items[n - 1],
        ),
    decreases n,
{
    let open = seq![91u8];
    lemma_scan_one(initial_scan(), 91u8);
    if n == 1 {
        assert(join_commas(items.take(1)) == items[0]);
        lemma_scan_concat(initial_scan(), open, items[0]);
        assert(scans_as_item(items[0]));
        assert(items.take(0) == Seq::<Seq<u8>>::empty());
    } else {
        lemma_scan_array_prefix(items, n - 1);
        let head = open + join_commas(items.take(n - 1));
        let prev = items.take(n - 1);
        assert(prev.len() >= 1);
        assert(items.take(n).drop_last() == prev);
        assert(items.take(n).last() == items[n - 1]);
        assert(join_commas(items.take(n)) == join_commas(prev) + seq![44u8] + items[n - 1]);
        assert(open + join_commas(items.take(n)) == (head + seq![44u8]) + items[n - 1]);
        lemma_scan_concat(initial_scan(), head + seq![44u8], items[n - 1]);
        lemma_scan_concat(initial_scan(), head, seq![44u8]);
        assert(prev.drop_last() == items.take(n - 2));
        lemma_scan_one(at_item_end(items.take(n - 2), items[n - 2]), 44u8);
        let done = items.take(n - 2).push(items[n - 2]);
        assert(done == items.take(n - 1));
        assert(scan_from(initial_scan(), head + seq![44u8]) == between_items(items.take(n - 1)));
        assert(between_items(items.take(n - 1)) == with_prior(
            between_items(Seq::empty()),
            items.take(n - 1),
        ));
        lemma_scan_prior(between_items(Seq::empty()), items.take(n - 1), items[n - 1]);
        assert(scans_as_item(items[n - 1]));
        assert(items.take(n - 1) + Seq::<Seq<u8>>::empty() == items.take(n - 1));
    }
}

/// The scan gives back exactly the items that a compact array was made of,
/// when each of them is one whole serialized value.
pub proof fn lemma_tool_items_of_array(items: Seq<Seq<u8>>)
    requires
        forall|i: int| 0 <= i < items.len() ==> scans_as_item(#[trigger] items[i]),
    ensures
        tool_items(json_array(items)) == Option::Some(items),
{
    let close = seq![93u8];
    if items.len() == 0 {
        assert(json_array(items) == seq![91u8] + close);
        lemma_scan_concat(initial_scan(), seq![91u8], close);
        lemma_scan_one(initial_scan(), 91u8);
        lemma_scan_one(between_items(Seq::empty()), 93u8);
    } else {
        let n = items.len() as int;
        lemma_scan_array_prefix(items, n);
        assert(items.take(n) == items);
        let head = seq![91u8] + join_commas(items);
        assert(json_array(items) == head + close);
        lemma_scan_concat(initial_scan(), head, close);
        lemma_scan_one(at_item_end(items.take(n - 1), items[n - 1]), 93u8);
        assert(items.take(n - 1).push(items[n - 1]) == items);
    }
}

/// A JSON value as its compact serialization spells it: a literal (number,
/// `true`, `false`, `null`) as its bytes, a string as the bytes between its
/// quotes (escapes kept), an array, or an object with its keys' bytes.
pub ghost enum JsonValue {
    Literal(Seq<u8>),
    Text(Seq<u8>),
    List(Seq<JsonValue>),
    Object(Seq<(Seq<u8>, JsonValue)>),
}

/// A string's contents scanned from `escaped`: the escape state at its end,
/// or `None` when an unescaped quote ends the string early.
pub open spec fn string_scan(escaped: bool, text: Seq<u8>) -> Option<bool>
    decreases text.len(),
{
    if text.len() == 0 {
        Option::Some(escaped)
    } else {
        match string_scan(escaped, text.drop_last()) {
            Option::None => Option::None,
            Option::Some(e) => if e {
                Option::Some(false)
            } else if text.last() == 92 {
                Option::Some(true)
            } else if text.last() == 34 {
                Option::None
            } else {
                Option::Some(false)
            },
        }
    }
}

/// A string's contents: no unescaped quote, and no escape left open.
pub open spec fn string_contents_ok(text: Seq<u8>) -> bool {
    string_scan(false, text) == Option::Some(false)
}

/// A literal's bytes: at least one, none of them a quote, a bracket, a
/// brace, a comma or whitespace.
pub open spec fn literal_ok(bytes: Seq<u8>) -> bool {
    &&& bytes.len() > 0
    &&& forall|i: int|
        0 <= i < bytes.len() ==> {
            let b = #[trigger] bytes[i];
            b != 34 && b != 44 && b != 91 && b != 93 && b != 123 && b != 125 && !is_json_space(b)
        }
}

pub open spec fn text_bytes(text: Seq<u8>) -> Seq<u8> {
    seq![34u8] + text + seq![34u8]
}

/// The compact serialization of a JSON value.
pub open spec fn json_bytes(value: JsonValue) -> Seq<u8>
    decreases value, 0nat,
{
    match value {
        JsonValue::Literal(bytes) => bytes,
        JsonValue::Text(text) => text_bytes(text),
        JsonValue::List(items) => seq![91u8] + json_list_bytes(items, items.len()) + seq![93u8],
        JsonValue::Object(members) => seq![123u8] + json_member_bytes(members, members.len())
            + seq![125u8],
    }
}

/// The first `n` elements, serialized and separated by commas.
pub open spec fn json_list_bytes(items: Seq<JsonValue>, n: nat) -> Seq<u8>
    decreases items, n,
{
    if n == 0 || n > items.len() {
        Seq::empty()
    } else if n == 1 {
        json_bytes(items[0])
    } else {
        json_list_bytes(items, (n - 1) as nat) + seq![44u8] + json_bytes(items[n - 1])
    }
}

/// The first `n` members, each a quoted key, a colon and a value, separated by commas.
pub open spec fn json_member_bytes(members: Seq<(Seq<u8>, JsonValue)>, n: nat) -> Seq<u8>
    decreases members, n,
{
    if n == 0 || n > members.len() {
        Seq::empty()
    } else if n == 1 {
        text_bytes(members[0].0) + seq![58u8] + json_bytes(members[0].1)
    } else {
        json_member_bytes(members, (n - 1) as nat) + seq![44u8] + (text_bytes(members[n - 1].0)
            + seq![58u8] + json_bytes(members[n - 1].1))
    }
}

/// A well-formed JSON value: its literals, strings and keys are well formed.
pub open spec fn json_ok(value: JsonValue) -> bool
    decreases value, 0nat,
{
    match value {
        JsonValue::Literal(bytes) => literal_ok(bytes),
        JsonValue::Text(text) => string_contents_ok(text),
        JsonValue::List(items) => json_list_ok(items, items.len()),
        JsonValue::Object(members) => json_members_ok(members, members.len()),
    }
}

pub open spec fn json_list_ok(items: Seq<JsonValue>, n: nat) -> bool
    decreases items, n,
{
    if n == 0 || n > items.len() {
        true
    } else {
        json_list_ok(items, (n - 1) as nat) && json_ok(items[n - 1])
    }
}

pub open spec fn json_members_ok(members: Seq<(Seq<u8>, JsonValue)>, n: nat) -> bool
    decreases members, n,
{
    if n == 0 || n > members.len() {
        true
    } else {
        json_members_ok(members, (n - 1) as nat) && string_contents_ok(members[n - 1].0) && json_ok(
            members[n - 1].1,
        )
    }
}

/// The scan inside an item, at `depth`, with the item's bytes so far.
pub open spec fn in_item_at(
    depth: int,
    current: Seq<u8>,
    items: Seq<Seq<u8>>,
    in_string: bool,
    escaped: bool,
) -> ScanModel {
    ScanModel {
        state: ToolScanState::InItem,
        depth,
        in_string,
        escaped,
        invalid: false,
        has_current: true,
        current,
        items,
    }
}

proof fn lemma_scan_literal(bytes: Seq<u8>, depth: int, current: Seq<u8>, items: Seq<Seq<u8>>)
    requires
        depth >= 0,
        forall|i: int|
            0 <= i < bytes.len() ==> {
                let b = #[trigger] bytes[i];
                b != 34 && b != 44 && b != 91 && b != 93 && b != 123 && b != 125
            },
    ensures
        scan_from(in_item_at(depth, current, items, false, false), bytes) == in_item_at(
            depth,
            current + bytes,
            items,
            false,
            false,
        ),
    decreases bytes.len(),
{
    if bytes.len() == 0 {
        assert(current + bytes == current);
    } else {
        let rest = bytes.drop_last();
        assert forall|i: int| 0 <= i < rest.len() implies {
            let b = #[trigger] rest[i];
            b != 34 && b != 44 && b != 91 && b != 93 && b != 123 && b != 125
        } by {
            assert(rest[i] == bytes[i]);
        }
        lemma_scan_literal(rest, depth, current, items);
        assert(bytes.last() == bytes[bytes.len() - 1]);
        assert((current + rest).push(bytes.last()) == current + bytes);
    }
}

proof fn lemma_scan_string(
    text: Seq<u8>,
    depth: int,
    current: Seq<u8>,
    items: Seq<Seq<u8>>,
    escaped: bool,
    end: bool,
)
    requires
        depth >= 0,
        string_scan(escaped, text) == Option::Some(end),
    ensures
        scan_from(in_item_at(depth, current, items, true, escaped), text) == in_item_at(
            depth,
            current + text,
            items,
            true,
            end,
        ),
    decreases text.len(),
{
    if text.len() == 0 {
        assert(current + text == current);
    } else {
        let rest = text.drop_last();
        let e = string_scan(escaped, rest).unwrap();
        lemma_scan_string(rest, depth, current, items, escaped, e);
        assert((current + rest).push(text.last()) == current + text);
    }
}

proof fn lemma_scan_text(text: Seq<u8>, depth: int, current: Seq<u8>, items: Seq<Seq<u8>>)
    requires
        depth >= 0,
        string_contents_ok(text),
    ensures
        scan_from(in_item_at(depth, current, items, false, false), text_bytes(text)) == in_item_at(
            depth,
            current + text_bytes(text),
            items,
            false,
            false,
        ),
{
    let start = in_item_at(depth, current, items, false, false);
    let quote = seq![34u8];
    lemma_scan_concat(start, quote + text, quote);
    lemma_scan_concat(start, quote, text);
    lemma_scan_one(start, 34u8);
    lemma_scan_string(text, depth, current + quote, items, false, false);
    lemma_scan_one(in_item_at(depth, current + quote + text, items, true, false), 34u8);
    assert(current + quote + text + quote == current + text_bytes(text));
    assert(current.push(34u8) == current + quote);
    assert((current + quote + text).push(34u8) == current + quote + text + quote);
}

proof fn lemma_scan_value(value: JsonValue, depth: int, current: Seq<u8>, items: Seq<Seq<u8>>)
    requires
        depth >= 0,
        json_ok(value),
    ensures
        scan_from(in_item_at(depth, current, items, false, false), json_bytes(value)) == in_item_at(
            depth,
            current + json_bytes(value),
            items,
            false,
            false,
        ),
    decreases value, 0nat,
{
    let start = in_item_at(depth, current, items, false, false);
    match value {
        JsonValue::Literal(bytes) => {
            lemma_scan_literal(bytes, depth, current, items);
        },
        JsonValue::Text(text) => {
            lemma_scan_text(text, depth, current, items);
        },
        JsonValue::List(elements) => {
            let open = seq![91u8];
            let body = json_list_bytes(elements, elements.len());
            let close = seq![93u8];
            lemma_scan_concat(start, open + body, close);
            lemma_scan_concat(start, open, body);
            lemma_scan_one(start, 91u8);
            assert(current.push(91u8) == current + open);
            lemma_scan_list(elements, elements.len(), depth + 1, current + open, items);
            lemma_scan_one(in_item_at(depth + 1, current + open + body, items, false, false), 93u8);
            assert((current + open + body).push(93u8) == current + (open + body + close));
        },
        JsonValue::Object(members) => {
            let open = seq![123u8];
            let body = json_member_bytes(members, members.len());
            let close = seq![125u8];
            lemma_scan_concat(start, open + body, close);
            lemma_scan_concat(start, open, body);
            lemma_scan_one(start, 123u8);
            assert(current.push(123u8) == current + open);
            lemma_scan_members(members, members.len(), depth + 1, current + open, items);
            lemma_scan_one(in_item_at(depth + 1, current + open + body, items, false, false), 125u8);
            assert((current + open + body).push(125u8) == current + (open + body + close));
        },
    }
}

proof fn lemma_scan_list(
    elements: Seq<JsonValue>,
    n: nat,
    depth: int,
    current: Seq<u8>,
    items: Seq<Seq<u8>>,
)
    requires
        depth >= 1,
        n <= elements.len(),
        json_list_ok(elements, n),
    ensures
        scan_from(in_item_at(depth, current, items, false, false), json_list_bytes(elements, n))
            == in_item_at(depth, current + json_list_bytes(elements, n), items, false, false),
    decreases elements, n,
{
    if n == 0 {
        assert(current + json_list_bytes(elements, n) == current);
    } else if n == 1 {
        lemma_scan_value(elements[0], depth, current, items);
    } else {
        let head = json_list_bytes(elements, (n - 1) as nat);
        let last = json_bytes(elements[n - 1]);
        let start = in_item_at(depth, current, items, false, false);
        lemma_scan_list(elements, (n - 1) as nat, depth, current, items);
        lemma_scan_concat(start, head + seq![44u8], last);
        lemma_scan_concat(start, head, seq![44u8]);
        lemma_scan_one(in_item_at(depth, current + head, items, false, false), 44u8);
        assert((current + head).push(44u8) == current + (head + seq![44u8]));
        lemma_scan_value(elements[n - 1], depth, current + (head + seq![44u8]), items);
        assert(current + (head + seq![44u8]) + last == current + (head + seq![44u8] + last));
    }
}

proof fn lemma_scan_members(
    members: Seq<(Seq<u8>, JsonValue)>,
    n: nat,
    depth: int,
    current: Seq<u8>,
    items: Seq<Seq<u8>>,
)
    requires
        depth >= 1,
        n <= members.len(),
        json_members_ok(members, n),
    ensures
        scan_from(in_item_at(depth, current, items, false, false), json_member_bytes(members, n))
            == in_item_at(depth, current + json_member_bytes(members, n), items, false, false),
    decreases members, n,
{
    if n == 0 {
        assert(current + json_member_bytes(members, n) == current);
    } else {
        let (prefix, at) = if n == 1 {
            (Seq::<u8>::empty(), current)
        } else {
            let head = json_member_bytes(members, (n - 1) as nat);
            (head + seq![44u8], current + (head + seq![44u8]))
        };
        let start = in_item_at(depth, current, items, false, false);
        if n > 1 {
            let head = json_member_bytes(members, (n - 1) as nat);
            lemma_scan_members(members, (n - 1) as nat, depth, current, items);
            lemma_scan_concat(start, head, seq![44u8]);
            lemma_scan_one(in_item_at(depth, current + head, items, false, false), 44u8);
            assert((current + head).push(44u8) == current + (head + seq![44u8]));
        } else {
            assert(current + prefix == current);
        }
        assert(scan_from(start, prefix) == in_item_at(depth, at, items, false, false));
        let key = text_bytes(members[n - 1].0);
        let colon = seq![58u8];
        let value = json_bytes(members[n - 1].1);
        let here = in_item_at(depth, at, items, false, false);
        lemma_scan_text(members[n - 1].0, depth, at, items);
        assert forall|i: int| 0 <= i < colon.len() implies {
            let b = #[trigger] colon[i];
            b != 34 && b != 44 && b != 91 && b != 93 && b != 123 && b != 125
        } by {}
        lemma_scan_literal(colon, depth, at + key, items);
        lemma_scan_value(members[n - 1].1, depth, at + key + colon, items);
        lemma_scan_concat(here, key + colon, value);
        lemma_scan_concat(here, key, colon);
        lemma_scan_concat(start, prefix, key + colon + value);
        assert(json_member_bytes(members, n) == prefix + (key + colon + value));
        assert(at + key + colon + value == current + json_member_bytes(members, n));
    }
}

/// The serialization of a well-formed JSON value is one whole top-level item
/// to the scan.
pub proof fn lemma_json_value_scans_as_item(value: JsonValue)
    requires
        json_ok(value),
    ensures
        scans_as_item(json_bytes(value)),
{
    let bytes = json_bytes(value);
    let empty = Seq::<u8>::empty();
    let no_items = Seq::<Seq<u8>>::empty();
    let inside = in_item_at(0, empty, no_items, false, false);
    lemma_scan_value(value, 0, empty, no_items);
    assert(empty + bytes == bytes);
    match value {
        JsonValue::Literal(literal) => {
            assert(literal_ok(literal));
            let b = literal[0];
            assert(b != 34 && b != 44 && b != 91 && b != 93 && b != 123 && b != 125 && !is_json_space(b));
        },
        _ => {},
    }
    assert(bytes.len() > 0);
    let first = seq![bytes[0]];
    let rest = bytes.skip(1);
    assert(bytes == first + rest);
    lemma_scan_concat(between_items(no_items), first, rest);
    lemma_scan_concat(inside, first, rest);
    lemma_scan_one(between_items(no_items), bytes[0]);
    lemma_scan_one(inside, bytes[0]);
    assert(scan_byte(between_items(no_items), bytes[0]) == scan_byte(inside, bytes[0]));
}

/// The scan gives back exactly the serialized values a compact array of
/// well-formed JSON values was made of.
pub proof fn lemma_tool_items_of_json_values(values: Seq<JsonValue>)
    requires
        forall|i: int| 0 <= i < values.len() ==> json_ok(#[trigger] values[i]),
    ensures
        tool_items(json_array(values.map_values(|value: JsonValue| json_bytes(value))))
            == Option::Some(values.map_values(|value: JsonValue| json_bytes(value))),
{
    let items = values.map_values(|value: JsonValue| json_bytes(value));
    assert forall|i: int| 0 <= i < items.len() implies scans_as_item(#[trigger] items[i]) by {
        lemma_json_value_scans_as_item(values[i]);
    }
    lemma_tool_items_of_array(items);
}

/// Items beyond `hi` do not change the omitted entries below it.
pub proof fn lemma_omitted_entries_extend(
    key: Seq<u8>,
    domain: Seq<u8>,
    items: Seq<Seq<u8>>,
    item: Seq<u8>,
    lo: int,
    hi: int,
)
    requires
        0 <= lo,
        0 <= hi <= items.len(),
    ensures
        omitted_entries(key, domain, items.push(item), lo, hi) == omitted_entries(
            key,
            domain,
            items,
            lo,
            hi,
        ),
    decreases hi - lo,
{
    if hi > lo {
        lemma_omitted_entries_extend(key, domain, items, item, lo, hi - 1);
        assert(items.push(item)[hi - 1] == items[hi - 1]);
    }
}

} // verus!
