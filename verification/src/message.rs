//! What nodes tell each other: model requests, resources, and the requests and responses that
//! carry them.

use vstd::prelude::*;

verus! {

/// The topic on which nodes broadcast.
pub const TOPIC: &'static str = "test-net";

/// The protocol over which one node asks another.
pub const EXCHANGE_PROTOCOL: &'static str = "/model-exchange/1";

/// The seconds between two heartbeats of the broadcast mesh.
pub const HEARTBEAT_SECONDS: u64 = 10;

/// Where the node listens over QUIC: every interface, and a port that the system picks.
pub const LISTEN_QUIC: &'static str = "/ip4/0.0.0.0/udp/0/quic-v1";

/// Where the node listens over TCP: every interface, and a port that the system picks.
pub const LISTEN_TCP: &'static str = "/ip4/0.0.0.0/tcp/0";

/// The file that lists the models of this node.
pub const STORAGE_FILE_PATH: &'static str = "./models.json";

/// The file that lists the resources of this node.
pub const AVAILABILITY_FILE_PATH: &'static str = "./resources.json";

/// The model configuration that a verifier asks a prover to generate, as JSON.
pub const MODEL_CONFIG: &'static str = "{\"id\":1,\"parameters\":\"picxelate\",\"public\":false}";

/// A model that is asked for.
#[derive(Debug)]
pub struct ModelReq {
    pub id: usize,
    /// Where the model's definition is kept: the name of a storage bucket.
    pub parameters: String,
    pub public: bool,
}

/// What a `ModelReq` says.
#[verifier::ext_equal]
pub struct ModelReqView {
    pub id: usize,
    pub parameters: Seq<char>,
    pub public: bool,
}

impl View for ModelReq {
    type V = ModelReqView;

    open spec fn view(&self) -> ModelReqView {
        ModelReqView { id: self.id, parameters: self.parameters@, public: self.public }
    }
}

impl ModelReq {
    pub fn new(id: usize, parameters: String, public: bool) -> (model: Self)
        ensures
            model@ == (ModelReqView { id, parameters: parameters@, public }),
    {
        Self { id, parameters, public }
    }
}

impl Clone for ModelReq {
    fn clone(&self) -> (copy: Self)
        ensures
            copy@ == self@,
    {
        Self {
            id: self.id,
            parameters: self.parameters.clone(),
            public: self.public,
        }
    }
}

/// Resources that a node has, or that a model needs.
#[derive(Debug)]
pub struct ModelRes {
    pub id: usize,
    pub hardware: String,
    pub power: usize,
    pub speed: usize,
}

/// What a `ModelRes` says.
#[verifier::ext_equal]
pub struct ModelResView {
    pub id: usize,
    pub hardware: Seq<char>,
    pub power: usize,
    pub speed: usize,
}

impl View for ModelRes {
    type V = ModelResView;

    open spec fn view(&self) -> ModelResView {
        ModelResView {
            id: self.id,
            hardware: self.hardware@,
            power: self.power,
            speed: self.speed,
        }
    }
}

impl Clone for ModelRes {
    fn clone(&self) -> (copy: Self)
        ensures
            copy@ == self@,
    {
        Self {
            id: self.id,
            hardware: self.hardware.clone(),
            power: self.power,
            speed: self.speed,
        }
    }
}

/// What each model of a list says.
pub open spec fn models_view(models: Seq<ModelReq>) -> Seq<ModelReqView> {
    models.map_values(|m: ModelReq| m@)
}

/// What each entry of a list of resources says.
pub open spec fn resources_view(resources: Seq<ModelRes>) -> Seq<ModelResView> {
    resources.map_values(|r: ModelRes| r@)
}

/// What a request or a response is about.
#[derive(Debug)]
pub enum ListMode {
    /// Everything, of every node.
    ALL,
    /// Everything, of the node with this identifier.
    One(String),
    /// A verifier's broadcast of the resources that a model needs.
    ModelSpecs(String),
    /// A prover's offer to generate the model that needs these resources.
    ModelSpecsReq(String),
    /// A verifier's request to generate the model with this configuration.
    ModelConfReq(String),
    /// A prover's model.
    Model(ModelReq),
}

/// What a `ListMode` says.
#[verifier::ext_equal]
pub enum ListModeView {
    ALL,
    One(Seq<char>),
    ModelSpecs(Seq<char>),
    ModelSpecsReq(Seq<char>),
    ModelConfReq(Seq<char>),
    Model(ModelReqView),
}

impl View for ListMode {
    type V = ListModeView;

    open spec fn view(&self) -> ListModeView {
        match self {
            ListMode::ALL => ListModeView::ALL,
            ListMode::One(peer) => ListModeView::One(peer@),
            ListMode::ModelSpecs(specs) => ListModeView::ModelSpecs(specs@),
            ListMode::ModelSpecsReq(specs) => ListModeView::ModelSpecsReq(specs@),
            ListMode::ModelConfReq(config) => ListModeView::ModelConfReq(config@),
            ListMode::Model(model) => ListModeView::Model(model@),
        }
    }
}

/// A request, broadcast or sent to one node. Its view is that of its mode.
#[derive(Debug)]
pub struct ListRequest {
    pub mode: ListMode,
}

impl View for ListRequest {
    type V = ListModeView;

    open spec fn view(&self) -> ListModeView {
        self.mode@
    }
}

/// A response: models for the node whose identifier is `receiver`.
#[derive(Debug)]
pub struct ListResponse {
    pub mode: ListMode,
    pub data: Vec<ModelReq>,
    pub receiver: String,
}

/// What a `ListResponse` says.
#[verifier::ext_equal]
pub struct ListResponseView {
    pub mode: ListModeView,
    pub data: Seq<ModelReqView>,
    pub receiver: Seq<char>,
}

impl View for ListResponse {
    type V = ListResponseView;

    open spec fn view(&self) -> ListResponseView {
        ListResponseView {
            mode: self.mode@,
            data: models_view(self.data@),
            receiver: self.receiver@,
        }
    }
}

/// A model says what its fields hold.
pub proof fn lemma_model_says(m: ModelReq)
    ensures
        m@.id == m.id,
        m@.parameters == m.parameters@,
        m@.public == m.public,
{
}

/// A resource says what its fields hold.
pub proof fn lemma_resource_says(r: ModelRes)
    ensures
        r@.id == r.id,
        r@.hardware == r.hardware@,
        r@.power == r.power,
        r@.speed == r.speed,
{
}

/// A list of models says what each of its models says, in order, and so does one of resources.
pub proof fn lemma_lists_say(models: Seq<ModelReq>, resources: Seq<ModelRes>)
    ensures
        models_view(models).len() == models.len(),
        forall|i: int| 0 <= i < models.len() ==> #[trigger] models_view(models)[i] == models[i]@,
        resources_view(resources).len() == resources.len(),
        forall|i: int|
            0 <= i < resources.len() ==> #[trigger] resources_view(resources)[i] == resources[i]@,
{
}

/// A request says what its mode says: the variant, and what the variant holds.
pub proof fn lemma_request_says(r: ListRequest)
    ensures
        r.mode is ALL <==> r@ is ALL,
        r.mode matches ListMode::One(t) ==> r@ == ListModeView::One(t@),
        r.mode matches ListMode::ModelSpecs(t) ==> r@ == ListModeView::ModelSpecs(t@),
        r.mode matches ListMode::ModelSpecsReq(t) ==> r@ == ListModeView::ModelSpecsReq(t@),
        r.mode matches ListMode::ModelConfReq(t) ==> r@ == ListModeView::ModelConfReq(t@),
        r.mode matches ListMode::Model(m) ==> r@ == ListModeView::Model(m@),
{
}

/// A response says what its fields hold.
pub proof fn lemma_response_says(r: ListResponse)
    ensures
        r@.mode == r.mode@,
        r@.receiver == r.receiver@,
        r@.data.len() == r.data@.len(),
        forall|i: int| 0 <= i < r.data@.len() ==> #[trigger] r@.data[i] == r.data@[i]@,
{
}

} // verus!
