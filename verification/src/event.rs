//! What happens to a node, what it does about it, and what it is waiting for meanwhile.

use crate::generation::{self, Job, JobView};
use crate::message::{
    self, ListModeView, ListRequest, ListResponse, ListResponseView, ModelReq, ModelReqView,
    ModelRes, ModelResView,
};
use crate::notice::{Notice, NoticeView};
use crate::peer::Peer;
use crate::resources;
use vstd::prelude::*;

verus! {

/// Something that happens to a node: first what comes from its user and from the network, then
/// the replies to what the node itself asked for.
#[derive(Debug)]
pub enum Event {
    /// The user typed a line.
    Line(String),
    /// Peers were found on the local network.
    Discovered(Vec<Peer>),
    /// Peers on the local network have not been heard of for too long.
    Expired(Vec<Peer>),
    /// The node listens on an address.
    Listening(String),
    /// A broadcast arrived: the peer that passed it on, the one that wrote it, if that is known,
    /// and what it says when read as a response and when read as a request.
    Broadcast {
        from: Peer,
        source: Option<Peer>,
        as_response: Option<ListResponse>,
        as_request: Option<ListRequest>,
    },
    /// Another node asks this one.
    Request { from: Peer, request: ListRequest },
    /// Another node responds to what this one asked.
    Response { from: Peer, response: ListResponse },
    /// Anything else that the network reports.
    Other,
    /// The peers on the local network, each as often as it has addresses.
    PeersListed(Vec<Peer>),
    /// The models of this node, or why they could not be read.
    ModelsRead(Result<Vec<ModelReq>, String>),
    /// The resources of this node, or why they could not be read.
    ResourcesRead(Result<Vec<ModelRes>, String>),
    /// The resources that a text states, if it states any.
    SpecsParsed(Option<ModelRes>),
    /// The model that a text configures, if it configures one.
    ConfigParsed(Option<ModelReq>),
    /// The jobs that generate a model are done.
    ModelGenerated,
}

/// What an `Event` says.
#[verifier::ext_equal]
pub enum EventView {
    Line(Seq<char>),
    Discovered(Seq<Seq<u8>>),
    Expired(Seq<Seq<u8>>),
    Listening(Seq<char>),
    Broadcast {
        from: Seq<u8>,
        source: Option<Seq<u8>>,
        as_response: Option<ListResponseView>,
        as_request: Option<ListModeView>,
    },
    Request { from: Seq<u8>, request: ListModeView },
    Response { from: Seq<u8>, response: ListResponseView },
    Other,
    PeersListed(Seq<Seq<u8>>),
    ModelsRead(Result<Seq<ModelReqView>, Seq<char>>),
    ResourcesRead(Result<Seq<ModelResView>, Seq<char>>),
    SpecsParsed(Option<ModelResView>),
    ConfigParsed(Option<ModelReqView>),
    ModelGenerated,
}

/// The identifiers of `peers`.
pub open spec fn peers_view(peers: Seq<Peer>) -> Seq<Seq<u8>> {
    peers.map_values(|p: Peer| p@)
}

/// The identifier of a peer that may be known.
pub open spec fn source_view(source: Option<Peer>) -> Option<Seq<u8>> {
    match source {
        Some(p) => Some(p@),
        None => None,
    }
}

impl View for Event {
    type V = EventView;

    open spec fn view(&self) -> EventView {
        match self {
            Event::Line(line) => EventView::Line(line@),
            Event::Discovered(peers) => EventView::Discovered(peers_view(peers@)),
            Event::Expired(peers) => EventView::Expired(peers_view(peers@)),
            Event::Listening(address) => EventView::Listening(address@),
            Event::Broadcast { from, source, as_response, as_request } => EventView::Broadcast {
                from: from@,
                source: source_view(*source),
                as_response: match as_response {
                    Some(r) => Some(r@),
                    None => None,
                },
                as_request: match as_request {
                    Some(r) => Some(r@),
                    None => None,
                },
            },
            Event::Request { from, request } => EventView::Request {
                from: from@,
                request: request@,
            },
            Event::Response { from, response } => EventView::Response {
                from: from@,
                response: response@,
            },
            Event::Other => EventView::Other,
            Event::PeersListed(peers) => EventView::PeersListed(peers_view(peers@)),
            Event::ModelsRead(Ok(models)) => EventView::ModelsRead(
                Ok(message::models_view(models@)),
            ),
            Event::ModelsRead(Err(e)) => EventView::ModelsRead(Err(e@)),
            Event::ResourcesRead(outcome) => EventView::ResourcesRead(
                resources::outcome_view(*outcome),
            ),
            Event::SpecsParsed(wanted) => EventView::SpecsParsed(resources::wanted_view(*wanted)),
            Event::ConfigParsed(Some(model)) => EventView::ConfigParsed(Some(model@)),
            Event::ConfigParsed(None) => EventView::ConfigParsed(None),
            Event::ModelGenerated => EventView::ModelGenerated,
        }
    }
}

/// Something that the node does. The last six ask for something, and an event brings the reply.
#[derive(Debug)]
pub enum Action {
    /// To tell the user something.
    Notify(Notice),
    /// To keep broadcasting to a peer.
    AddExplicitPeer(Peer),
    /// To stop doing so.
    RemoveExplicitPeer(Peer),
    /// To broadcast a request.
    Publish(ListRequest),
    /// To ask one peer.
    Send { to: Peer, request: ListRequest },
    /// To look up the peers on the local network.
    ListPeers,
    /// To read the models of this node.
    ReadModels,
    /// To read the resources of this node.
    ReadResources,
    /// To find out which resources a text states.
    ParseSpecs(String),
    /// To find out which model a text configures.
    ParseConfig(String),
    /// To do the jobs that generate a model, in order.
    Generate(Vec<Job>),
}

/// What an `Action` says.
#[verifier::ext_equal]
pub enum ActionView {
    Notify(NoticeView),
    AddExplicitPeer(Seq<u8>),
    RemoveExplicitPeer(Seq<u8>),
    Publish(ListModeView),
    Send { to: Seq<u8>, request: ListModeView },
    ListPeers,
    ReadModels,
    ReadResources,
    ParseSpecs(Seq<char>),
    ParseConfig(Seq<char>),
    Generate(Seq<JobView>),
}

impl View for Action {
    type V = ActionView;

    open spec fn view(&self) -> ActionView {
        match self {
            Action::Notify(notice) => ActionView::Notify(notice@),
            Action::AddExplicitPeer(peer) => ActionView::AddExplicitPeer(peer@),
            Action::RemoveExplicitPeer(peer) => ActionView::RemoveExplicitPeer(peer@),
            Action::Publish(request) => ActionView::Publish(request@),
            Action::Send { to, request } => ActionView::Send { to: to@, request: request@ },
            Action::ListPeers => ActionView::ListPeers,
            Action::ReadModels => ActionView::ReadModels,
            Action::ReadResources => ActionView::ReadResources,
            Action::ParseSpecs(specs) => ActionView::ParseSpecs(specs@),
            Action::ParseConfig(config) => ActionView::ParseConfig(config@),
            Action::Generate(jobs) => ActionView::Generate(generation::jobs_view(jobs@)),
        }
    }
}

/// What each action of a list says.
pub open spec fn actions_view(actions: Seq<Action>) -> Seq<ActionView> {
    actions.map_values(|a: Action| a@)
}

/// What the node is waiting for.
#[derive(Debug)]
pub enum Stage {
    /// For its user and the network.
    Idle,
    /// For the peers on the local network.
    ListingPeers,
    /// For its own models.
    ListingModels,
    /// For its own resources, to answer a peer that asked for everything.
    Reporting { to: Peer },
    /// For the resources that a peer's broadcast states.
    ReadingSpecs { to: Peer, specs: String },
    /// For its own resources, to weigh them against those that a peer's broadcast states.
    Weighing { to: Peer, specs: String, wanted: ModelRes },
    /// For the model that a peer's request configures.
    ReadingConfig,
    /// For a model to be generated.
    Generating,
}

/// What a `Stage` says.
#[verifier::ext_equal]
pub enum StageView {
    Idle,
    ListingPeers,
    ListingModels,
    Reporting { to: Seq<u8> },
    ReadingSpecs { to: Seq<u8>, specs: Seq<char> },
    Weighing { to: Seq<u8>, specs: Seq<char>, wanted: ModelResView },
    ReadingConfig,
    Generating,
}

impl View for Stage {
    type V = StageView;

    open spec fn view(&self) -> StageView {
        match self {
            Stage::Idle => StageView::Idle,
            Stage::ListingPeers => StageView::ListingPeers,
            Stage::ListingModels => StageView::ListingModels,
            Stage::Reporting { to } => StageView::Reporting { to: to@ },
            Stage::ReadingSpecs { to, specs } => StageView::ReadingSpecs {
                to: to@,
                specs: specs@,
            },
            Stage::Weighing { to, specs, wanted } => StageView::Weighing {
                to: to@,
                specs: specs@,
                wanted: wanted@,
            },
            Stage::ReadingConfig => StageView::ReadingConfig,
            Stage::Generating => StageView::Generating,
        }
    }
}

/// Whether `event` is what a node in `stage` is waiting for.
pub open spec fn awaits(stage: StageView, event: EventView) -> bool {
    match event {
        EventView::PeersListed(_) => stage is ListingPeers,
        EventView::ModelsRead(_) => stage is ListingModels,
        EventView::ResourcesRead(_) => stage is Reporting || stage is Weighing,
        EventView::SpecsParsed(_) => stage is ReadingSpecs,
        EventView::ConfigParsed(_) => stage is ReadingConfig,
        EventView::ModelGenerated => stage is Generating,
        _ => stage is Idle,
    }
}

impl Stage {
    /// Whether `event` is what a node in this stage is waiting for.
    pub fn awaits(&self, event: &Event) -> (r: bool)
        ensures
            r == awaits(self@, event@),
    {
        match event {
            Event::PeersListed(_) => matches!(self, Stage::ListingPeers),
            Event::ModelsRead(_) => matches!(self, Stage::ListingModels),
            Event::ResourcesRead(_) => matches!(
                self,
                Stage::Reporting { .. } | Stage::Weighing { .. }
            ),
            Event::SpecsParsed(_) => matches!(self, Stage::ReadingSpecs { .. }),
            Event::ConfigParsed(_) => matches!(self, Stage::ReadingConfig),
            Event::ModelGenerated => matches!(self, Stage::Generating),
            _ => matches!(self, Stage::Idle),
        }
    }
}

/// A list of peers says the identifier of each, in order, and a list of actions what each says.
pub proof fn lemma_lists_say(peers: Seq<Peer>, actions: Seq<Action>)
    ensures
        peers_view(peers).len() == peers.len(),
        forall|i: int| 0 <= i < peers.len() ==> #[trigger] peers_view(peers)[i] == peers[i]@,
        actions_view(actions).len() == actions.len(),
        forall|i: int| 0 <= i < actions.len() ==> #[trigger] actions_view(actions)[i] == actions[i]@,
{
}

/// An event says what it brings, and nothing of that is lost.
pub proof fn lemma_event_says(e: Event)
    ensures
        e matches Event::Line(line) ==> e@ == EventView::Line(line@),
        e matches Event::Discovered(p) ==> e@ == EventView::Discovered(
            p@.map_values(|p: Peer| p@),
        ),
        e matches Event::Expired(p) ==> e@ == EventView::Expired(p@.map_values(|p: Peer| p@)),
        e matches Event::Listening(address) ==> e@ == EventView::Listening(address@),
        e matches Event::Broadcast { from, source, as_response, as_request } ==> {
            &&& e@ matches EventView::Broadcast {
                from: f,
                source: s,
                as_response: resp,
                as_request: req,
            }
            &&& f == from@
            &&& source matches Some(p) ==> s == Some(p@)
            &&& source is None ==> s is None
            &&& as_response matches Some(r) ==> resp == Some(r@)
            &&& as_response is None ==> resp is None
            &&& as_request matches Some(r) ==> req == Some(r@)
            &&& as_request is None ==> req is None
        },
        e matches Event::Request { from, request } ==> e@ == (EventView::Request {
            from: from@,
            request: request@,
        }),
        e matches Event::Response { from, response } ==> e@ == (EventView::Response {
            from: from@,
            response: response@,
        }),
        e is Other ==> e@ is Other,
        e matches Event::PeersListed(p) ==> e@ == EventView::PeersListed(
            p@.map_values(|p: Peer| p@),
        ),
        e matches Event::ModelsRead(Ok(models)) ==> e@ == EventView::ModelsRead(
            Ok(models@.map_values(|m: ModelReq| m@)),
        ),
        e matches Event::ModelsRead(Err(x)) ==> e@ == EventView::ModelsRead(Err(x@)),
        e matches Event::ResourcesRead(Ok(entries)) ==> e@ == EventView::ResourcesRead(
            Ok(entries@.map_values(|r: ModelRes| r@)),
        ),
        e matches Event::ResourcesRead(Err(x)) ==> e@ == EventView::ResourcesRead(Err(x@)),
        e matches Event::SpecsParsed(Some(w)) ==> e@ == EventView::SpecsParsed(Some(w@)),
        e matches Event::SpecsParsed(None) ==> e@ == EventView::SpecsParsed(None),
        e matches Event::ConfigParsed(Some(m)) ==> e@ == EventView::ConfigParsed(Some(m@)),
        e matches Event::ConfigParsed(None) ==> e@ == EventView::ConfigParsed(None),
        e is ModelGenerated ==> e@ is ModelGenerated,
{
    match e {
        Event::Discovered(p) => assert(peers_view(p@) =~= p@.map_values(|p: Peer| p@)),
        Event::Expired(p) => assert(peers_view(p@) =~= p@.map_values(|p: Peer| p@)),
        Event::PeersListed(p) => assert(peers_view(p@) =~= p@.map_values(|p: Peer| p@)),
        Event::ModelsRead(Ok(models)) => assert(message::models_view(models@)
            =~= models@.map_values(|m: ModelReq| m@)),
        Event::ResourcesRead(Ok(entries)) => assert(message::resources_view(entries@)
            =~= entries@.map_values(|r: ModelRes| r@)),
        _ => {},
    }
}

/// An action says what is to be done, and nothing of that is lost.
pub proof fn lemma_action_says(a: Action)
    ensures
        a matches Action::Notify(notice) ==> a@ == ActionView::Notify(notice@),
        a matches Action::AddExplicitPeer(peer) ==> a@ == ActionView::AddExplicitPeer(peer@),
        a matches Action::RemoveExplicitPeer(peer) ==> a@ == ActionView::RemoveExplicitPeer(peer@),
        a matches Action::Publish(request) ==> a@ == ActionView::Publish(request@),
        a matches Action::Send { to, request } ==> a@ == (ActionView::Send {
            to: to@,
            request: request@,
        }),
        a is ListPeers ==> a@ is ListPeers,
        a is ReadModels ==> a@ is ReadModels,
        a is ReadResources ==> a@ is ReadResources,
        a matches Action::ParseSpecs(specs) ==> a@ == ActionView::ParseSpecs(specs@),
        a matches Action::ParseConfig(config) ==> a@ == ActionView::ParseConfig(config@),
        a matches Action::Generate(jobs) ==> a@ == ActionView::Generate(
            jobs@.map_values(|j: Job| j@),
        ),
{
    if let Action::Generate(jobs) = a {
        assert(generation::jobs_view(jobs@) =~= jobs@.map_values(|j: Job| j@));
    }
}

/// A stage says what the node is waiting for, and for whom.
pub proof fn lemma_stage_says(s: Stage)
    ensures
        s is Idle ==> s@ is Idle,
        s is ListingPeers ==> s@ is ListingPeers,
        s is ListingModels ==> s@ is ListingModels,
        s matches Stage::Reporting { to } ==> s@ == (StageView::Reporting { to: to@ }),
        s matches Stage::ReadingSpecs { to, specs } ==> s@ == (StageView::ReadingSpecs {
            to: to@,
            specs: specs@,
        }),
        s matches Stage::Weighing { to, specs, wanted } ==> s@ == (StageView::Weighing {
            to: to@,
            specs: specs@,
            wanted: wanted@,
        }),
        s is ReadingConfig ==> s@ is ReadingConfig,
        s is Generating ==> s@ is Generating,
{
}

} // verus!
