//! Outbound notification adapter: the closed taxonomy of domain events, the
//! pure conversion of each event into a generic event envelope, and the
//! optional-initialization policy for the delivery client.
//!
//! The envelope carries the event's own fields as a JSON payload, a
//! platform-version metadata entry, routing labels and an optional explicit
//! timestamp; event identity is left to the delivery client.

use vstd::prelude::*;
use vstd::string::StrSliceExecFns;
use vstd::string::StringExecFns;
use vstd::utf8::encode_utf8;

use crate::ids::uuid_chars;
use crate::ids::Uuid;
use crate::json::append_json_string;
use crate::json::json_string;
use crate::time::rfc3339_chars;
use crate::time::Timestamp;

verus! {

/// The version of the emitting platform, carried in every envelope's
/// metadata.
pub open spec fn platform_version_chars() -> Seq<char> {
    "0.1.0"@
}

/// The version of the emitting platform, as a string.
pub fn platform_version() -> (r: String)
    ensures
        r@ == platform_version_chars(),
{
    "0.1.0".to_owned()
}

/// An opaque endpoint URL, carried through to the delivery client and never
/// inspected here.
///
/// Relies on `reqwest::Url` (a re-export of `url::Url`) only as a value to
/// hold; nothing is assumed of its behaviour.
#[verifier::external_type_specification]
#[verifier::external_body]
pub struct ExUrl(reqwest::Url);

/// A handle on the delivery client: the endpoint and the credentials it was
/// configured with, immutable after construction.
pub struct Hook0Client {
    pub api_url: reqwest::Url,
    pub application_id: Uuid,
    pub application_secret: Uuid,
}

impl Hook0Client {
    /// Builds a handle from a complete configuration triple.
    pub fn new(api_url: reqwest::Url, application_id: Uuid, application_secret: &Uuid) -> (c:
        Hook0Client)
        ensures
            c.api_url == api_url,
            c.application_id == application_id,
            c.application_secret == *application_secret,
    {
        Hook0Client { api_url, application_id, application_secret: *application_secret }
    }

    /// The endpoint this handle reports events to.
    pub fn api_url(&self) -> (r: &reqwest::Url)
        ensures
            *r == self.api_url,
    {
        &self.api_url
    }

    /// The application identifier this handle was configured with.
    pub fn application_id(&self) -> (r: &Uuid)
        ensures
            *r == self.application_id,
    {
        &self.application_id
    }
}

/// Produces a client handle exactly when the whole configuration triple is
/// present; any absent field yields nothing, and never an error. The handle
/// reports the endpoint and credentials it was given.
pub fn initialize(
    api_url: Option<reqwest::Url>,
    application_id: Option<Uuid>,
    application_secret: Option<Uuid>,
) -> (r: Option<Hook0Client>)
    ensures
        r is Some <==> (api_url is Some && application_id is Some && application_secret is Some),
        r matches Some(c) ==> {
            &&& c.api_url == api_url->0
            &&& c.application_id == application_id->0
            &&& c.application_secret == application_secret->0
        },
{
    match (api_url, application_id, application_secret) {
        (Some(url), Some(id), Some(secret)) => Some(Hook0Client::new(url, id, &secret)),
        _ => None,
    }
}

/// A record of an organization having been created.
#[derive(Debug, Clone)]
pub struct EventOrganizationCreated {
    pub organization_id: Uuid,
    pub name: String,
    pub created_at: Timestamp,
    pub created_by: Uuid,
}

/// A record of an event type having been created in an application.
#[derive(Debug, Clone)]
pub struct EventEventTypeCreated {
    pub application_id: Uuid,
    pub service_name: String,
    pub resource_type_name: String,
    pub verb_name: String,
    pub event_type_name: String,
    pub created_at: Timestamp,
    pub created_by: Option<Uuid>,
}

/// The closed set of domain events that are notified outward. Adding a kind
/// of notifiable event means adding a variant and its conversion here.
#[derive(Debug, Clone)]
pub enum Hook0ClientEvent {
    OrganizationCreated(EventOrganizationCreated),
    EventTypeCreated(EventEventTypeCreated),
}

/// The JSON text for an optional identifier: the quoted canonical form, or
/// `null` when absent.
pub open spec fn opt_uuid_json_chars(o: Option<Uuid>) -> Seq<char> {
    match o {
        Option::None => "null"@,
        Option::Some(u) => "\""@ + uuid_chars(u.value) + "\""@,
    }
}

/// The JSON payload text for [`EventOrganizationCreated`]: all of the
/// event's own fields, in declaration order.
pub open spec fn org_created_payload_chars(e: EventOrganizationCreated) -> Seq<char> {
    "{\"organization_id\":\""@ + uuid_chars(e.organization_id.value) + "\",\"name\":"@
        + json_string(e.name@) + ",\"created_at\":\""@ + rfc3339_chars(e.created_at)
        + "\",\"created_by\":\""@ + uuid_chars(e.created_by.value) + "\"}"@
}

/// The JSON payload text for [`EventEventTypeCreated`]: all of the event's
/// own fields, in declaration order.
pub open spec fn event_type_created_payload_chars(e: EventEventTypeCreated) -> Seq<char> {
    "{\"application_id\":\""@ + uuid_chars(e.application_id.value) + "\",\"service_name\":"@
        + json_string(e.service_name@) + ",\"resource_type_name\":"@ + json_string(
        e.resource_type_name@,
    ) + ",\"verb_name\":"@ + json_string(e.verb_name@) + ",\"event_type_name\":"@ + json_string(
        e.event_type_name@,
    ) + ",\"created_at\":\""@ + rfc3339_chars(e.created_at) + "\",\"created_by\":"@
        + opt_uuid_json_chars(e.created_by) + "}"@
}

/// The view of a list of key/value pairs: both sides as character sequences.
pub open spec fn pairs_view(v: Seq<(String, String)>) -> Seq<(Seq<char>, Seq<char>)> {
    v.map_values(|kv: (String, String)| (kv.0@, kv.1@))
}

/// The mathematical model of a generic event envelope.
#[verifier::ext_equal]
pub ghost struct EnvelopeModel {
    pub event_id: Option<u128>,
    pub event_type: Seq<char>,
    pub payload: Seq<u8>,
    pub payload_content_type: Seq<char>,
    pub metadata: Seq<(Seq<char>, Seq<char>)>,
    pub occurred_at: Option<Timestamp>,
    pub labels: Seq<(Seq<char>, Seq<char>)>,
}

/// The generic, self-describing envelope handed to the delivery client.
#[derive(Debug, Clone, PartialEq, Eq)]
pub struct Event {
    pub event_id: Option<Uuid>,
    pub event_type: String,
    pub payload: Vec<u8>,
    pub payload_content_type: String,
    pub metadata: Vec<(String, String)>,
    pub occurred_at: Option<Timestamp>,
    pub labels: Vec<(String, String)>,
}

impl View for Event {
    type V = EnvelopeModel;

    open spec fn view(&self) -> EnvelopeModel {
        EnvelopeModel {
            event_id: match self.event_id {
                Option::Some(u) => Option::Some(u.value),
                Option::None => Option::None,
            },
            event_type: self.event_type@,
            payload: self.payload@,
            payload_content_type: self.payload_content_type@,
            metadata: pairs_view(self.metadata@),
            occurred_at: self.occurred_at,
            labels: pairs_view(self.labels@),
        }
    }
}

/// The envelope that the conversion produces for a domain event: a fixed
/// per-variant event type, the event's fields as a JSON payload, one
/// platform-version metadata entry, per-variant labels, an explicit
/// timestamp only for created event types, and no identity.
///
/// Note the asymmetry between the variants: an organization creation leaves
/// `occurred_at` to the delivery client's receipt time, while an event-type
/// creation supplies its own `created_at`. Whether the omission in the first
/// variant is intentional is an open question; it is preserved as observed
/// behaviour because downstream consumers may rely on it.
pub open spec fn envelope_spec(e: Hook0ClientEvent) -> EnvelopeModel {
    match e {
        Hook0ClientEvent::OrganizationCreated(ev) => EnvelopeModel {
            event_id: Option::None,
            event_type: "api.organization.created"@,
            payload: encode_utf8(org_created_payload_chars(ev)),
            payload_content_type: "application/json"@,
            metadata: seq![("hook0_version"@, platform_version_chars())],
            occurred_at: Option::None,
            labels: Seq::empty(),
        },
        Hook0ClientEvent::EventTypeCreated(ev) => EnvelopeModel {
            event_id: Option::None,
            event_type: "api.event_type.created"@,
            payload: encode_utf8(event_type_created_payload_chars(ev)),
            payload_content_type: "application/json"@,
            metadata: seq![("hook0_version"@, platform_version_chars())],
            occurred_at: Option::Some(ev.created_at),
            labels: seq![("application_id"@, uuid_chars(ev.application_id.value))],
        },
    }
}

impl EventOrganizationCreated {
    /// Whether the record's timestamp names an actual instant.
    pub open spec fn wf(self) -> bool {
        self.created_at.is_valid()
    }

    /// The stable wire identifier of this kind of event.
    pub fn event_type(&self) -> (r: &'static str)
        ensures
            r@ == "api.organization.created"@,
    {
        "api.organization.created"
    }

    /// Organization creations carry no routing labels.
    pub fn labels(&self) -> (r: Vec<(String, String)>)
        ensures
            pairs_view(r@) == Seq::<(Seq<char>, Seq<char>)>::empty(),
    {
        let r: Vec<(String, String)> = Vec::new();
        assert(pairs_view(r@) =~= Seq::<(Seq<char>, Seq<char>)>::empty());
        r
    }
}

impl EventEventTypeCreated {
    /// Whether the record's timestamp names an actual instant.
    pub open spec fn wf(self) -> bool {
        self.created_at.is_valid()
    }

    /// The stable wire identifier of this kind of event.
    pub fn event_type(&self) -> (r: &'static str)
        ensures
            r@ == "api.event_type.created"@,
    {
        "api.event_type.created"
    }

    /// Event-type creations carry one routing label: the application the
    /// event type belongs to.
    pub fn labels(&self) -> (r: Vec<(String, String)>)
        ensures
            pairs_view(r@) == seq![("application_id"@, uuid_chars(self.application_id.value))],
    {
        let mut r: Vec<(String, String)> = Vec::new();
        r.push(("application_id".to_owned(), self.application_id.to_hyphenated_string()));
        assert(pairs_view(r@) =~= seq![
            ("application_id"@, uuid_chars(self.application_id.value)),
        ]);
        r
    }
}

impl From<EventOrganizationCreated> for Hook0ClientEvent {
    fn from(e: EventOrganizationCreated) -> (r: Self) {
        Hook0ClientEvent::OrganizationCreated(e)
    }
}

impl vstd::std_specs::convert::FromSpecImpl<EventOrganizationCreated> for Hook0ClientEvent {
    open spec fn obeys_from_spec() -> bool {
        true
    }

    open spec fn from_spec(e: EventOrganizationCreated) -> Self {
        Hook0ClientEvent::OrganizationCreated(e)
    }
}

impl From<EventEventTypeCreated> for Hook0ClientEvent {
    fn from(e: EventEventTypeCreated) -> (r: Self) {
        Hook0ClientEvent::EventTypeCreated(e)
    }
}

impl vstd::std_specs::convert::FromSpecImpl<EventEventTypeCreated> for Hook0ClientEvent {
    open spec fn obeys_from_spec() -> bool {
        true
    }

    open spec fn from_spec(e: EventEventTypeCreated) -> Self {
        Hook0ClientEvent::EventTypeCreated(e)
    }
}

/// Appends the JSON text for an optional identifier.
fn append_opt_uuid(out: &mut String, o: &Option<Uuid>)
    ensures
        final(out)@ == old(out)@ + opt_uuid_json_chars(*o),
{
    match o {
        Option::None => {
            out.append("null");
        },
        Option::Some(u) => {
            out.append("\"");
            let us = u.to_hyphenated_string();
            out.append(us.as_str());
            out.append("\"");
            assert(out@ =~= old(out)@ + opt_uuid_json_chars(*o));
        },
    }
}

/// Builds the JSON payload text for an organization creation.
fn build_org_created_payload(e: &EventOrganizationCreated) -> (r: String)
    requires
        e.wf(),
    ensures
        r@ == org_created_payload_chars(*e),
{
    let mut out = String::new();
    out.append("{\"organization_id\":\"");
    let id_text = e.organization_id.to_hyphenated_string();
    out.append(id_text.as_str());
    out.append("\",\"name\":");
    append_json_string(&mut out, e.name.as_str());
    out.append(",\"created_at\":\"");
    let at_text = e.created_at.to_rfc3339_string();
    out.append(at_text.as_str());
    out.append("\",\"created_by\":\"");
    let by_text = e.created_by.to_hyphenated_string();
    out.append(by_text.as_str());
    out.append("\"}");
    assert(out@ =~= org_created_payload_chars(*e));
    out
}

/// Builds the JSON payload text for an event-type creation.
fn build_event_type_created_payload(e: &EventEventTypeCreated) -> (r: String)
    requires
        e.wf(),
    ensures
        r@ == event_type_created_payload_chars(*e),
{
    let mut out = String::new();
    out.append("{\"application_id\":\"");
    let id_text = e.application_id.to_hyphenated_string();
    out.append(id_text.as_str());
    out.append("\",\"service_name\":");
    append_json_string(&mut out, e.service_name.as_str());
    out.append(",\"resource_type_name\":");
    append_json_string(&mut out, e.resource_type_name.as_str());
    out.append(",\"verb_name\":");
    append_json_string(&mut out, e.verb_name.as_str());
    out.append(",\"event_type_name\":");
    append_json_string(&mut out, e.event_type_name.as_str());
    out.append(",\"created_at\":\"");
    let at_text = e.created_at.to_rfc3339_string();
    out.append(at_text.as_str());
    out.append("\",\"created_by\":");
    append_opt_uuid(&mut out, &e.created_by);
    out.append("}");
    assert(out@ =~= event_type_created_payload_chars(*e));
    out
}

/// Builds the metadata common to every envelope: the platform-version tag.
fn metadata_entries() -> (r: Vec<(String, String)>)
    ensures
        pairs_view(r@) == seq![("hook0_version"@, platform_version_chars())],
{
    let mut r: Vec<(String, String)> = Vec::new();
    r.push(("hook0_version".to_owned(), platform_version()));
    assert(pairs_view(r@) =~= seq![("hook0_version"@, platform_version_chars())]);
    r
}

impl Hook0ClientEvent {
    /// Whether the event's timestamp names an actual instant.
    pub open spec fn wf(self) -> bool {
        match self {
            Hook0ClientEvent::OrganizationCreated(e) => e.wf(),
            Hook0ClientEvent::EventTypeCreated(e) => e.wf(),
        }
    }

    /// Converts the domain event into the generic envelope, exactly as
    /// [`envelope_spec`] describes: pure, total over well-formed events, and
    /// free of any input/output.
    pub fn mk_hook0_event(self) -> (r: Event)
        requires
            self.wf(),
        ensures
            r@ == envelope_spec(self),
    {
        let ghost orig = self;
        match self {
            Hook0ClientEvent::OrganizationCreated(ev) => {
                let payload_text = build_org_created_payload(&ev);
                let payload = payload_text.as_str().as_bytes_vec();
                let event_type = ev.event_type().to_owned();
                let labels = ev.labels();
                let r = Event {
                    event_id: Option::None,
                    event_type,
                    payload,
                    payload_content_type: "application/json".to_owned(),
                    metadata: metadata_entries(),
                    occurred_at: Option::None,
                    labels,
                };
                assert(r@ =~= envelope_spec(orig));
                r
            },
            Hook0ClientEvent::EventTypeCreated(ev) => {
                let payload_text = build_event_type_created_payload(&ev);
                let payload = payload_text.as_str().as_bytes_vec();
                let event_type = ev.event_type().to_owned();
                let labels = ev.labels();
                let occurred_at = Option::Some(ev.created_at);
                let r = Event {
                    event_id: Option::None,
                    event_type,
                    payload,
                    payload_content_type: "application/json".to_owned(),
                    metadata: metadata_entries(),
                    occurred_at,
                    labels,
                };
                assert(r@ =~= envelope_spec(orig));
                r
            },
        }
    }
}

/// Law: the conversion is deterministic and keeps no memory between calls —
/// equal domain events are owed equal envelope models, so converting the same
/// event twice produces structurally identical envelopes.
pub proof fn lemma_conversion_deterministic(
    e1: Hook0ClientEvent,
    e2: Hook0ClientEvent,
    r1: EnvelopeModel,
    r2: EnvelopeModel,
)
    requires
        e1 == e2,
        r1 == envelope_spec(e1),
        r2 == envelope_spec(e2),
    ensures
        r1 == r2,
{
}

/// Law: every envelope carries a non-empty event type, fixed per variant,
/// and the two variants' identifiers differ from each other.
pub proof fn lemma_event_type_variant_specific(e: Hook0ClientEvent)
    ensures
        envelope_spec(e).event_type.len() > 0,
        e is OrganizationCreated ==> envelope_spec(e).event_type == "api.organization.created"@,
        e is EventTypeCreated ==> envelope_spec(e).event_type == "api.event_type.created"@,
        "api.organization.created"@ != "api.event_type.created"@,
{
    reveal_strlit("api.organization.created");
    reveal_strlit("api.event_type.created");
}

/// Law: an organization creation carries no labels; an event-type creation
/// carries exactly one label pair, keyed `application_id`, whose value is
/// the event's application identifier.
pub proof fn lemma_labels_by_variant(e: Hook0ClientEvent)
    ensures
        e is OrganizationCreated ==> envelope_spec(e).labels.len() == 0,
        e matches Hook0ClientEvent::EventTypeCreated(ev) ==> envelope_spec(e).labels == seq![
            ("application_id"@, uuid_chars(ev.application_id.value)),
        ],
{
}

/// Law: an organization creation supplies no explicit timestamp, leaving the
/// receipt time to the delivery client; an event-type creation supplies its
/// own creation instant.
pub proof fn lemma_occurred_at_by_variant(e: Hook0ClientEvent)
    ensures
        e is OrganizationCreated ==> envelope_spec(e).occurred_at is None,
        e matches Hook0ClientEvent::EventTypeCreated(ev) ==> envelope_spec(e).occurred_at
            == Option::Some(ev.created_at),
{
}

/// Law: every envelope's metadata holds at least one entry, and one of them
/// tags the emitting platform's version.
pub proof fn lemma_metadata_platform_version(e: Hook0ClientEvent)
    ensures
        envelope_spec(e).metadata.len() >= 1,
        exists|i: int|
            0 <= i < envelope_spec(e).metadata.len() && envelope_spec(e).metadata[i] == (
                "hook0_version"@,
                platform_version_chars(),
            ),
{
    assert(envelope_spec(e).metadata[0] == ("hook0_version"@, platform_version_chars()));
}

/// Law: the conversion never assigns an event identity; that is the delivery
/// client's responsibility.
pub proof fn lemma_event_id_unset(e: Hook0ClientEvent)
    ensures
        envelope_spec(e).event_id is None,
{
}

} // verus!
