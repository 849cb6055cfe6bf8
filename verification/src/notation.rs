//! The notation in which a node logs values: that of Rust's `Debug`.

use crate::base58::base58;
use crate::decimal::{decimal, to_decimal};
use crate::message::{
    ListMode, ListModeView, ListRequest, ModelReq, ModelReqView, ModelRes, ModelResView,
};
use crate::peer::Peer;
use vstd::prelude::*;

verus! {

/// The text `text` in double quotes, with what needs it escaped: what the `Debug` of a `str` writes.
pub uninterp spec fn quoted(text: Seq<char>) -> Seq<char>;

/// Calls the `Debug` formatting of `str`.
///
/// Trusted: what it writes depends on the text alone, and has the name `quoted`. Which characters
/// it escapes, and how, is left unsaid: that is a matter of the standard library's tables.
#[verifier::external_body]
fn quote(text: &str) -> (q: String)
    ensures
        q@ == quoted(text@),
{
    format!("{:?}", text)
}

/// The notation of a truth value.
pub open spec fn bool_form(b: bool) -> Seq<char> {
    if b {
        "true"@
    } else {
        "false"@
    }
}

/// The notation of a model, `parameters` being that of its parameters.
pub open spec fn model_form(id: usize, parameters: Seq<char>, public: bool) -> Seq<char> {
    "ModelReq { id: "@ + decimal(id as nat) + ", parameters: "@ + parameters + ", public: "@
        + bool_form(public) + " }"@
}

/// The notation of a resource, `hardware` being that of its hardware.
pub open spec fn resource_form(
    id: usize,
    hardware: Seq<char>,
    power: usize,
    speed: usize,
) -> Seq<char> {
    "ModelRes { id: "@ + decimal(id as nat) + ", hardware: "@ + hardware + ", power: "@ + decimal(
        power as nat,
    ) + ", speed: "@ + decimal(speed as nat) + " }"@
}

/// The notation of what the variant `name` holds, `inner` being that of the value inside.
pub open spec fn variant_form(name: Seq<char>, inner: Seq<char>) -> Seq<char> {
    name + "("@ + inner + ")"@
}

/// The notation of a request, `mode` being that of its mode.
pub open spec fn request_form(mode: Seq<char>) -> Seq<char> {
    "ListRequest { mode: "@ + mode + " }"@
}

/// The text `text` in double quotes. In base 58 nothing needs escaping.
pub open spec fn in_quotes(text: Seq<char>) -> Seq<char> {
    "\""@ + text + "\""@
}

/// The notation of the model `m`.
pub open spec fn model_notation(m: ModelReqView) -> Seq<char> {
    model_form(m.id, quoted(m.parameters), m.public)
}

/// The notation of the resource `r`.
pub open spec fn resource_notation(r: ModelResView) -> Seq<char> {
    resource_form(r.id, quoted(r.hardware), r.power, r.speed)
}

/// The notation of the mode `mode`.
pub open spec fn mode_notation(mode: ListModeView) -> Seq<char> {
    match mode {
        ListModeView::ALL => "ALL"@,
        ListModeView::One(peer) => variant_form("One"@, quoted(peer)),
        ListModeView::ModelSpecs(specs) => variant_form("ModelSpecs"@, quoted(specs)),
        ListModeView::ModelSpecsReq(specs) => variant_form("ModelSpecsReq"@, quoted(specs)),
        ListModeView::ModelConfReq(config) => variant_form("ModelConfReq"@, quoted(config)),
        ListModeView::Model(model) => variant_form("Model"@, model_notation(model)),
    }
}

/// The notation of a request with the mode `mode`.
pub open spec fn request_notation(mode: ListModeView) -> Seq<char> {
    request_form(mode_notation(mode))
}

/// The notation of the peer `peer`.
pub open spec fn peer_notation(peer: Seq<u8>) -> Seq<char> {
    variant_form("PeerId"@, in_quotes(base58(peer)))
}

/// The notation of a peer that may be known.
pub open spec fn source_notation(source: Option<Seq<u8>>) -> Seq<char> {
    match source {
        Some(peer) => variant_form("Some"@, peer_notation(peer)),
        None => "None"@,
    }
}

/// Writes a model, `parameters` being the notation of its parameters.
pub fn write_model(id: usize, parameters: &str, public: bool) -> (text: String)
    ensures
        text@ == model_form(id, parameters@, public),
{
    let mut text = "ModelReq { id: ".to_owned();
    text.append(to_decimal(id as u64).as_str());
    text.append(", parameters: ");
    text.append(parameters);
    text.append(", public: ");
    text.append(
        if public {
            "true"
        } else {
            "false"
        },
    );
    text.append(" }");
    text
}

/// Writes a resource, `hardware` being the notation of its hardware.
pub fn write_resource(id: usize, hardware: &str, power: usize, speed: usize) -> (text: String)
    ensures
        text@ == resource_form(id, hardware@, power, speed),
{
    let mut text = "ModelRes { id: ".to_owned();
    text.append(to_decimal(id as u64).as_str());
    text.append(", hardware: ");
    text.append(hardware);
    text.append(", power: ");
    text.append(to_decimal(power as u64).as_str());
    text.append(", speed: ");
    text.append(to_decimal(speed as u64).as_str());
    text.append(" }");
    text
}

/// Writes what the variant `name` holds, `inner` being the notation of the value inside.
pub fn write_variant(name: &str, inner: &str) -> (text: String)
    ensures
        text@ == variant_form(name@, inner@),
{
    let mut text = name.to_owned();
    text.append("(");
    text.append(inner);
    text.append(")");
    text
}

/// Writes a request, `mode` being the notation of its mode.
pub fn write_request(mode: &str) -> (text: String)
    ensures
        text@ == request_form(mode@),
{
    let mut text = "ListRequest { mode: ".to_owned();
    text.append(mode);
    text.append(" }");
    text
}

/// Puts `text` in double quotes as it stands.
pub fn put_in_quotes(text: &str) -> (q: String)
    ensures
        q@ == in_quotes(text@),
{
    let mut q = "\"".to_owned();
    q.append(text);
    q.append("\"");
    q
}

/// Text after a fixed beginning, in quotes that escape what needs it.
pub fn write_quoted(start: &str, text: &str) -> (line: String)
    ensures
        line@ == start@ + quoted(text@),
{
    start.to_owned().concat(quote(text).as_str())
}

impl ModelReq {
    /// The model in the notation of the log.
    pub fn notation(&self) -> (text: String)
        ensures
            text@ == model_notation(self@),
    {
        write_model(self.id, quote(self.parameters.as_str()).as_str(), self.public)
    }
}

impl ModelRes {
    /// The resource in the notation of the log.
    pub fn notation(&self) -> (text: String)
        ensures
            text@ == resource_notation(self@),
    {
        let hardware = quote(self.hardware.as_str());
        write_resource(self.id, hardware.as_str(), self.power, self.speed)
    }
}

impl ListRequest {
    /// The request in the notation of the log.
    pub fn notation(&self) -> (text: String)
        ensures
            text@ == request_notation(self@),
    {
        let mode = match &self.mode {
            ListMode::ALL => "ALL".to_owned(),
            ListMode::One(peer) => write_variant("One", quote(peer.as_str()).as_str()),
            ListMode::ModelSpecs(specs) => write_variant(
                "ModelSpecs",
                quote(specs.as_str()).as_str(),
            ),
            ListMode::ModelSpecsReq(specs) => write_variant(
                "ModelSpecsReq",
                quote(specs.as_str()).as_str(),
            ),
            ListMode::ModelConfReq(config) => write_variant(
                "ModelConfReq",
                quote(config.as_str()).as_str(),
            ),
            ListMode::Model(model) => write_variant("Model", model.notation().as_str()),
        };
        write_request(mode.as_str())
    }
}

impl Peer {
    /// The peer in the notation of the log.
    pub fn notation(&self) -> (text: String)
        ensures
            text@ == peer_notation(self@),
    {
        write_variant("PeerId", put_in_quotes(self.text().as_str()).as_str())
    }
}

/// A model is written with its name and each of its fields, under the field's name.
pub proof fn lemma_model_is_written_whole(m: ModelReqView)
    ensures
        m.public ==> model_notation(m) == "ModelReq { id: "@ + decimal(m.id as nat)
            + ", parameters: "@ + quoted(m.parameters) + ", public: "@ + "true"@ + " }"@,
        !m.public ==> model_notation(m) == "ModelReq { id: "@ + decimal(m.id as nat)
            + ", parameters: "@ + quoted(m.parameters) + ", public: "@ + "false"@ + " }"@,
{
}

/// A resource is written with its name and each of its fields, under the field's name.
pub proof fn lemma_resource_is_written_whole(r: ModelResView)
    ensures
        resource_notation(r) == "ModelRes { id: "@ + decimal(r.id as nat) + ", hardware: "@
            + quoted(r.hardware) + ", power: "@ + decimal(r.power as nat) + ", speed: "@ + decimal(
            r.speed as nat,
        ) + " }"@,
{
}

/// A request is written with its name, its mode, and what its mode holds.
pub proof fn lemma_request_is_written_whole(text: Seq<char>, model: ModelReqView)
    ensures
        request_notation(ListModeView::ALL) == "ListRequest { mode: "@ + "ALL"@ + " }"@,
        request_notation(ListModeView::One(text)) == "ListRequest { mode: "@ + ("One"@ + "("@
            + quoted(text) + ")"@) + " }"@,
        request_notation(ListModeView::ModelSpecs(text)) == "ListRequest { mode: "@ + ("ModelSpecs"@
            + "("@ + quoted(text) + ")"@) + " }"@,
        request_notation(ListModeView::ModelSpecsReq(text)) == "ListRequest { mode: "@ + (
        "ModelSpecsReq"@ + "("@ + quoted(text) + ")"@) + " }"@,
        request_notation(ListModeView::ModelConfReq(text)) == "ListRequest { mode: "@ + (
        "ModelConfReq"@ + "("@ + quoted(text) + ")"@) + " }"@,
        request_notation(ListModeView::Model(model)) == "ListRequest { mode: "@ + ("Model"@ + "("@
            + model_notation(model) + ")"@) + " }"@,
{
}

/// A peer is written with the text of its identifier, in quotes; one that may be known says whether
/// it is.
pub proof fn lemma_peer_is_written_with_its_text(peer: Seq<u8>)
    ensures
        peer_notation(peer) == "PeerId"@ + "("@ + ("\""@ + base58(peer) + "\""@) + ")"@,
        source_notation(Some(peer)) == "Some"@ + "("@ + peer_notation(peer) + ")"@,
        source_notation(None) == "None"@,
{
}

/// What a notation is made of stands between its fixed texts as it was given.
pub proof fn lemma_forms(
    id: usize,
    power: usize,
    speed: usize,
    public: bool,
    inner: Seq<char>,
    name: Seq<char>,
)
    ensures
        model_form(id, inner, public) == "ModelReq { id: "@ + decimal(id as nat) + ", parameters: "@
            + inner + ", public: "@ + (if public {
            "true"@
        } else {
            "false"@
        }) + " }"@,
        resource_form(id, inner, power, speed) == "ModelRes { id: "@ + decimal(id as nat)
            + ", hardware: "@ + inner + ", power: "@ + decimal(power as nat) + ", speed: "@
            + decimal(speed as nat) + " }"@,
        variant_form(name, inner) == name + "("@ + inner + ")"@,
        request_form(inner) == "ListRequest { mode: "@ + inner + " }"@,
        in_quotes(inner) == "\""@ + inner + "\""@,
{
}

} // verus!
