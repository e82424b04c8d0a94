//! The logical request: the finalized request value, held as the compact JSON
//! of each of its members, and its fingerprint manifest.

use vstd::prelude::*;
use vstd::string::StringSliceAdditionalSpecFns;
use crate::fingerprint::{hmac_text, Fingerprint, Fingerprinter};
use crate::manifest::{
    list_manifest, optional_byte_slice, optional_describes, optional_identity, str_bytes, views,
    ListManifest, ManifestObservation,
};
use crate::tools::{tool_items, tools_manifest, ToolsDetailManifest};
use crate::types::AttemptContext;

verus! {

/// A finalized Responses request, member by member, each member held as the
/// compact JSON it serializes to (`body` is the whole request's serialization).
/// Optional members are `None` when the request omits them.
pub struct LogicalRequest {
    pub body: Vec<u8>,
    pub model: Vec<u8>,
    pub instructions: Vec<u8>,
    pub input: Vec<Vec<u8>>,
    pub tools: Option<Vec<u8>>,
    pub tool_choice: Vec<u8>,
    pub parallel_tool_calls: Vec<u8>,
    pub reasoning: Option<Vec<u8>>,
    pub store: Vec<u8>,
    pub stream: Vec<u8>,
    pub stream_options: Option<Vec<u8>>,
    pub included: Vec<u8>,
    pub service_tier: Option<Vec<u8>>,
    pub prompt_cache_key: Option<Vec<u8>>,
    pub text: Option<Vec<u8>>,
    pub client_metadata: Option<Vec<u8>>,
    pub access_programs: Option<Vec<u8>>,
}

pub open spec fn vec_bytes(value: Option<Vec<u8>>) -> Option<Seq<u8>> {
    match value {
        Option::None => Option::None,
        Option::Some(v) => Option::Some(v@),
    }
}

fn option_slice(value: &Option<Vec<u8>>) -> (slice: Option<&[u8]>)
    ensures
        crate::manifest::slice_bytes(slice) == vec_bytes(*value),
{
    match value {
        Option::None => Option::None,
        Option::Some(v) => Option::Some(v.as_slice()),
    }
}

/// The domain of the request's list of extra response fields: "logical."
/// followed by that member's serialized name.
pub open spec fn included_domain() -> Seq<u8> {
    seq![108u8, 111, 103, 105, 99, 97, 108, 46, 105, 110, 99, 108, 117, 100, 101]
}

fn included_domain_bytes() -> (domain: Vec<u8>)
    ensures
        domain@ == included_domain(),
{
    let domain = vec![108u8, 111, 103, 105, 99, 97, 108, 46, 105, 110, 99, 108, 117, 100, 101];
    assert(domain@ == included_domain());
    domain
}

/// Fingerprints of every member of the logical request.
pub struct LogicalManifest {
    pub body: Fingerprint,
    pub model: Fingerprint,
    pub instructions: Fingerprint,
    pub input: ListManifest,
    pub tools: ManifestObservation<ListManifest>,
    pub tools_detail: ManifestObservation<ToolsDetailManifest>,
    pub tool_choice: Fingerprint,
    pub parallel_tool_calls: Fingerprint,
    pub reasoning: ManifestObservation<Fingerprint>,
    pub store: Fingerprint,
    pub stream: Fingerprint,
    pub stream_options: ManifestObservation<Fingerprint>,
    pub included: Fingerprint,
    pub service_tier: ManifestObservation<Fingerprint>,
    pub prompt_cache_key: ManifestObservation<Fingerprint>,
    pub text: ManifestObservation<Fingerprint>,
    pub client_metadata: ManifestObservation<Fingerprint>,
    pub access_programs: ManifestObservation<Fingerprint>,
}

impl LogicalManifest {
    /// Each member is fingerprinted under its own `logical.*` domain.
    pub open spec fn describes(self, key: Seq<u8>, request: LogicalRequest) -> bool {
        &&& self.body.describes(key, "logical.body".spec_bytes(), request.body@)
        &&& self.model.describes(key, "logical.model".spec_bytes(), request.model@)
        &&& self.instructions.describes(
            key,
            "logical.instructions".spec_bytes(),
            request.instructions@,
        )
        &&& self.input.describes(
            key,
            "logical.input".spec_bytes(),
            "logical.input.item".spec_bytes(),
            "logical.input.omitted".spec_bytes(),
            views(request.input@),
        )
        &&& match request.tools {
            Option::None => self.tools.is_status(crate::manifest::ObservationStatus::Missing)
                && self.tools_detail.is_status(crate::manifest::ObservationStatus::Missing),
            Option::Some(bytes) => match tool_items(bytes@) {
                Option::None => self.tools.is_status(
                    crate::manifest::ObservationStatus::Unavailable,
                ) && self.tools_detail.is_status(crate::manifest::ObservationStatus::Unavailable),
                Option::Some(items) => {
                    &&& self.tools matches ManifestObservation::Observed(list)
                    &&& list.body.describes(key, "logical.tools".spec_bytes(), bytes@)
                    &&& list.describes_items(
                        key,
                        crate::tools::item_domain(),
                        "logical.tools.omitted".spec_bytes(),
                        items,
                    )
                    &&& self.tools_detail matches ManifestObservation::Observed(detail)
                    &&& detail.describes(key, items)
                },
            },
        }
        &&& self.tool_choice.describes(key, "logical.tool_choice".spec_bytes(), request.tool_choice@)
        &&& self.parallel_tool_calls.describes(
            key,
            "logical.parallel_tool_calls".spec_bytes(),
            request.parallel_tool_calls@,
        )
        &&& optional_describes(
            self.reasoning,
            key,
            "logical.reasoning".spec_bytes(),
            vec_bytes(request.reasoning),
        )
        &&& self.store.describes(key, "logical.store".spec_bytes(), request.store@)
        &&& self.stream.describes(key, "logical.stream".spec_bytes(), request.stream@)
        &&& optional_describes(
            self.stream_options,
            key,
            "logical.stream_options".spec_bytes(),
            vec_bytes(request.stream_options),
        )
        &&& self.included.describes(key, included_domain(), request.included@)
        &&& optional_describes(
            self.service_tier,
            key,
            "logical.service_tier".spec_bytes(),
            vec_bytes(request.service_tier),
        )
        &&& optional_describes(
            self.prompt_cache_key,
            key,
            "logical.prompt_cache_key".spec_bytes(),
            vec_bytes(request.prompt_cache_key),
        )
        &&& optional_describes(
            self.text,
            key,
            "logical.text".spec_bytes(),
            vec_bytes(request.text),
        )
        &&& optional_describes(
            self.client_metadata,
            key,
            "logical.client_metadata".spec_bytes(),
            vec_bytes(request.client_metadata),
        )
        &&& optional_describes(
            self.access_programs,
            key,
            "logical.access_programs".spec_bytes(),
            vec_bytes(request.access_programs),
        )
    }

    /// Fingerprints the finalized logical request.
    pub fn new(fingerprinter: &Fingerprinter, request: &LogicalRequest) -> (manifest: Self)
        ensures
            manifest.describes(fingerprinter.key(), *request),
    {
        let tool_manifests = tools_manifest(fingerprinter, option_slice(&request.tools));
        LogicalManifest {
            body: fingerprinter.fingerprint_bytes("logical.body".as_bytes(), request.body.as_slice()),
            model: fingerprinter.fingerprint_bytes(
                "logical.model".as_bytes(),
                request.model.as_slice(),
            ),
            instructions: fingerprinter.fingerprint_bytes(
                "logical.instructions".as_bytes(),
                request.instructions.as_slice(),
            ),
            input: list_manifest(
                fingerprinter,
                "logical.input".as_bytes(),
                "logical.input.item".as_bytes(),
                "logical.input.omitted".as_bytes(),
                request.input.as_slice(),
            ),
            tools: tool_manifests.list,
            tools_detail: tool_manifests.detail,
            tool_choice: fingerprinter.fingerprint_bytes(
                "logical.tool_choice".as_bytes(),
                request.tool_choice.as_slice(),
            ),
            parallel_tool_calls: fingerprinter.fingerprint_bytes(
                "logical.parallel_tool_calls".as_bytes(),
                request.parallel_tool_calls.as_slice(),
            ),
            reasoning: optional_byte_slice(
                fingerprinter,
                "logical.reasoning".as_bytes(),
                option_slice(&request.reasoning),
            ),
            store: fingerprinter.fingerprint_bytes("logical.store".as_bytes(), request.store.as_slice()),
            stream: fingerprinter.fingerprint_bytes(
                "logical.stream".as_bytes(),
                request.stream.as_slice(),
            ),
            stream_options: optional_byte_slice(
                fingerprinter,
                "logical.stream_options".as_bytes(),
                option_slice(&request.stream_options),
            ),
            included: fingerprinter.fingerprint_bytes(
                included_domain_bytes().as_slice(),
                request.included.as_slice(),
            ),
            service_tier: optional_byte_slice(
                fingerprinter,
                "logical.service_tier".as_bytes(),
                option_slice(&request.service_tier),
            ),
            prompt_cache_key: optional_byte_slice(
                fingerprinter,
                "logical.prompt_cache_key".as_bytes(),
                option_slice(&request.prompt_cache_key),
            ),
            text: optional_byte_slice(
                fingerprinter,
                "logical.text".as_bytes(),
                option_slice(&request.text),
            ),
            client_metadata: optional_byte_slice(
                fingerprinter,
                "logical.client_metadata".as_bytes(),
                option_slice(&request.client_metadata),
            ),
            access_programs: optional_byte_slice(
                fingerprinter,
                "logical.access_programs".as_bytes(),
                option_slice(&request.access_programs),
            ),
        }
    }
}

/// Lineage identities, each fingerprinted under its own domain.
pub struct LineageManifest {
    pub thread_id: ManifestObservation<Fingerprint>,
    pub session_id: ManifestObservation<Fingerprint>,
    pub turn_id: ManifestObservation<Fingerprint>,
    pub parent_id: ManifestObservation<Fingerprint>,
    pub affinity_id: ManifestObservation<Fingerprint>,
    pub previous_response_id: ManifestObservation<Fingerprint>,
}

impl LineageManifest {
    pub open spec fn describes(self, key: Seq<u8>, context: AttemptContext) -> bool {
        &&& optional_describes(
            self.thread_id,
            key,
            "identity.thread".spec_bytes(),
            str_bytes(context.thread_id),
        )
        &&& optional_describes(
            self.session_id,
            key,
            "identity.session".spec_bytes(),
            str_bytes(context.session_id),
        )
        &&& optional_describes(
            self.turn_id,
            key,
            "identity.turn".spec_bytes(),
            str_bytes(context.turn_id),
        )
        &&& optional_describes(
            self.parent_id,
            key,
            "identity.parent".spec_bytes(),
            str_bytes(context.parent_id),
        )
        &&& optional_describes(
            self.affinity_id,
            key,
            "identity.affinity".spec_bytes(),
            str_bytes(context.affinity_id),
        )
        &&& optional_describes(
            self.previous_response_id,
            key,
            "identity.previous_response".spec_bytes(),
            str_bytes(context.previous_response_id),
        )
    }

    /// Fingerprints each lineage identity of the context.
    pub fn new(fingerprinter: &Fingerprinter, context: AttemptContext<'_>) -> (manifest: Self)
        ensures
            manifest.describes(fingerprinter.key(), context),
    {
        LineageManifest {
            thread_id: optional_identity(
                fingerprinter,
                "identity.thread".as_bytes(),
                context.thread_id,
            ),
            session_id: optional_identity(
                fingerprinter,
                "identity.session".as_bytes(),
                context.session_id,
            ),
            turn_id: optional_identity(fingerprinter, "identity.turn".as_bytes(), context.turn_id),
            parent_id: optional_identity(
                fingerprinter,
                "identity.parent".as_bytes(),
                context.parent_id,
            ),
            affinity_id: optional_identity(
                fingerprinter,
                "identity.affinity".as_bytes(),
                context.affinity_id,
            ),
            previous_response_id: optional_identity(
                fingerprinter,
                "identity.previous_response".as_bytes(),
                context.previous_response_id,
            ),
        }
    }
}

/// The fingerprint a manifest entry holds for an optional member: `missing`
/// when the request omits it, otherwise the member's digest text and length.
pub open spec fn optional_member_fingerprint(
    obs: ManifestObservation<Fingerprint>,
    key: Seq<u8>,
    domain: Seq<u8>,
    member: Option<Vec<u8>>,
) -> bool {
    match member {
        Option::None => obs.is_status(crate::manifest::ObservationStatus::Missing),
        Option::Some(v) => obs matches ManifestObservation::Observed(f) && f.hmac@ == hmac_text(
            key,
            domain,
            v@,
        ) && f.bytes == v@.len(),
    }
}

/// Each entry of a request's logical manifest is the keyed digest of that
/// very member under that member's own domain, with the member's length:
/// the model entry hashes the model, the instructions entry the instructions,
/// and so on for every member.
pub proof fn lemma_logical_manifest_hashes_each_member(
    manifest: LogicalManifest,
    key: Seq<u8>,
    request: LogicalRequest,
)
    requires
        manifest.describes(key, request),
    ensures
        manifest.body.hmac@ == hmac_text(key, "logical.body".spec_bytes(), request.body@),
        manifest.body.bytes == request.body@.len(),
        manifest.model.hmac@ == hmac_text(key, "logical.model".spec_bytes(), request.model@),
        manifest.model.bytes == request.model@.len(),
        manifest.instructions.hmac@ == hmac_text(
            key,
            "logical.instructions".spec_bytes(),
            request.instructions@,
        ),
        manifest.instructions.bytes == request.instructions@.len(),
        manifest.input.count == request.input@.len(),
        manifest.tool_choice.hmac@ == hmac_text(
            key,
            "logical.tool_choice".spec_bytes(),
            request.tool_choice@,
        ),
        manifest.tool_choice.bytes == request.tool_choice@.len(),
        manifest.parallel_tool_calls.hmac@ == hmac_text(
            key,
            "logical.parallel_tool_calls".spec_bytes(),
            request.parallel_tool_calls@,
        ),
        manifest.parallel_tool_calls.bytes == request.parallel_tool_calls@.len(),
        manifest.store.hmac@ == hmac_text(key, "logical.store".spec_bytes(), request.store@),
        manifest.store.bytes == request.store@.len(),
        manifest.stream.hmac@ == hmac_text(key, "logical.stream".spec_bytes(), request.stream@),
        manifest.stream.bytes == request.stream@.len(),
        manifest.included.hmac@ == hmac_text(key, included_domain(), request.included@),
        manifest.included.bytes == request.included@.len(),
        optional_member_fingerprint(
            manifest.reasoning,
            key,
            "logical.reasoning".spec_bytes(),
            request.reasoning,
        ),
        optional_member_fingerprint(
            manifest.stream_options,
            key,
            "logical.stream_options".spec_bytes(),
            request.stream_options,
        ),
        optional_member_fingerprint(
            manifest.service_tier,
            key,
            "logical.service_tier".spec_bytes(),
            request.service_tier,
        ),
        optional_member_fingerprint(
            manifest.prompt_cache_key,
            key,
            "logical.prompt_cache_key".spec_bytes(),
            request.prompt_cache_key,
        ),
        optional_member_fingerprint(manifest.text, key, "logical.text".spec_bytes(), request.text),
        optional_member_fingerprint(
            manifest.client_metadata,
            key,
            "logical.client_metadata".spec_bytes(),
            request.client_metadata,
        ),
        optional_member_fingerprint(
            manifest.access_programs,
            key,
            "logical.access_programs".spec_bytes(),
            request.access_programs,
        ),
{
}

/// Two requests that differ only in their instructions get the same model
/// fingerprint, while their instructions fingerprints hash different
/// messages.
#[verifier::rlimit(40)]
pub proof fn lemma_instructions_change_only_their_fingerprint(
    first: LogicalManifest,
    second: LogicalManifest,
    key: Seq<u8>,
    first_request: LogicalRequest,
    second_request: LogicalRequest,
)
    requires
        first.describes(key, first_request),
        second.describes(key, second_request),
        first_request.model@ == second_request.model@,
        first_request.instructions@ != second_request.instructions@,
    ensures
        first.model.hmac@ == second.model.hmac@,
        crate::fingerprint::framed("logical.instructions".spec_bytes(), first_request.instructions@)
            != crate::fingerprint::framed(
            "logical.instructions".spec_bytes(),
            second_request.instructions@,
        ),
        first.instructions.hmac@ == hmac_text(
            key,
            "logical.instructions".spec_bytes(),
            first_request.instructions@,
        ),
        second.instructions.hmac@ == hmac_text(
            key,
            "logical.instructions".spec_bytes(),
            second_request.instructions@,
        ),
{
    lemma_logical_manifest_hashes_each_member(first, key, first_request);
    lemma_logical_manifest_hashes_each_member(second, key, second_request);
    let domain = "logical.instructions".spec_bytes();
    let frame = crate::fingerprint::domain_frame(domain);
    assert((frame + first_request.instructions@).skip(frame.len() as int) == first_request.instructions@);
    assert((frame + second_request.instructions@).skip(frame.len() as int)
        == second_request.instructions@);
}

} // verus!
