//! What a node tells its user, and the lines in which it says so.

use crate::base58;
use crate::decimal::{decimal, to_decimal};
use crate::event::{peers_view, source_view};
use crate::message::{
    self, ListModeView, ListRequest, ModelReq, ModelReqView, ModelRes, ModelResView,
};
use crate::notation;
use crate::peer::Peer;
use vstd::prelude::*;

verus! {

/// Something that the node tells its user.
#[derive(Debug)]
pub enum Notice {
    /// A peer was found on the local network.
    PeerDiscovered(Peer),
    /// A peer has not been heard of for too long.
    PeerExpired(Peer),
    /// The node listens on an address.
    Listening(String),
    /// The command that the node is about to carry out.
    Command(String),
    /// A line that is no command.
    UnknownCommand(String),
    /// The peers on the local network.
    Peers(Vec<Peer>),
    /// The node is about to look up its models.
    LookingUpModels,
    /// The models of this node.
    Models(Vec<ModelReq>),
    /// The models of this node could not be read.
    ModelsUnreadable(String),
    /// The models of this node could not be read for a peer that asked every node for everything.
    AnswerUnreadable(String),
    /// The resources of this node.
    Resources(Vec<ModelRes>),
    /// The resources of this node could not be read.
    ResourcesUnreadable(String),
    /// Models that another node sent to this one.
    Response { from: Peer, models: Vec<ModelReq> },
    /// The node that wrote a broadcast asks every node for everything.
    AllRequested { request: ListRequest, source: Option<Peer> },
    /// The node that wrote a broadcast asks this one for everything, and the peer that passed the
    /// broadcast on gets the answer.
    OneRequested { request: ListRequest, source: Option<Peer>, from: Peer },
    /// Where the definition of the model is kept that is about to be generated.
    Location(String),
    /// The node with this identifier has generated a model.
    Generated(String),
}

/// What a `Notice` says.
#[verifier::ext_equal]
pub enum NoticeView {
    PeerDiscovered(Seq<u8>),
    PeerExpired(Seq<u8>),
    Listening(Seq<char>),
    Command(Seq<char>),
    UnknownCommand(Seq<char>),
    Peers(Seq<Seq<u8>>),
    LookingUpModels,
    Models(Seq<ModelReqView>),
    ModelsUnreadable(Seq<char>),
    AnswerUnreadable(Seq<char>),
    Resources(Seq<ModelResView>),
    ResourcesUnreadable(Seq<char>),
    Response { from: Seq<u8>, models: Seq<ModelReqView> },
    AllRequested { request: ListModeView, source: Option<Seq<u8>> },
    OneRequested { request: ListModeView, source: Option<Seq<u8>>, from: Seq<u8> },
    Location(Seq<char>),
    Generated(Seq<char>),
}

impl View for Notice {
    type V = NoticeView;

    open spec fn view(&self) -> NoticeView {
        match self {
            Notice::PeerDiscovered(peer) => NoticeView::PeerDiscovered(peer@),
            Notice::PeerExpired(peer) => NoticeView::PeerExpired(peer@),
            Notice::Listening(address) => NoticeView::Listening(address@),
            Notice::Command(line) => NoticeView::Command(line@),
            Notice::UnknownCommand(line) => NoticeView::UnknownCommand(line@),
            Notice::Peers(peers) => NoticeView::Peers(peers_view(peers@)),
            Notice::LookingUpModels => NoticeView::LookingUpModels,
            Notice::Models(models) => NoticeView::Models(message::models_view(models@)),
            Notice::ModelsUnreadable(e) => NoticeView::ModelsUnreadable(e@),
            Notice::AnswerUnreadable(e) => NoticeView::AnswerUnreadable(e@),
            Notice::Resources(resources) => NoticeView::Resources(
                message::resources_view(resources@),
            ),
            Notice::ResourcesUnreadable(e) => NoticeView::ResourcesUnreadable(e@),
            Notice::Response { from, models } => NoticeView::Response {
                from: from@,
                models: message::models_view(models@),
            },
            Notice::AllRequested { request, source } => NoticeView::AllRequested {
                request: request@,
                source: source_view(*source),
            },
            Notice::OneRequested { request, source, from } => NoticeView::OneRequested {
                request: request@,
                source: source_view(*source),
                from: from@,
            },
            Notice::Location(bucket) => NoticeView::Location(bucket@),
            Notice::Generated(node) => NoticeView::Generated(node@),
        }
    }
}

/// Where a line goes.
#[derive(Clone, Copy, Debug, PartialEq, Eq, Structural)]
pub enum Channel {
    /// To the user.
    Output,
    /// To the log, for information.
    Info,
    /// To the log, as an error.
    Error,
}

/// A line of text, and where it goes.
#[derive(Debug)]
pub struct Line {
    pub channel: Channel,
    pub text: String,
}

/// What a `Line` says.
#[verifier::ext_equal]
pub struct LineView {
    pub channel: Channel,
    pub text: Seq<char>,
}

impl View for Line {
    type V = LineView;

    open spec fn view(&self) -> LineView {
        LineView { channel: self.channel, text: self.text@ }
    }
}

/// What each of `lines` says.
pub open spec fn lines_view(lines: Seq<Line>) -> Seq<LineView> {
    lines.map_values(|l: Line| l@)
}

/// What announces a peer that was found.
pub const DISCOVERED: &'static str = "mDNS discovered a new peer: ";

/// What announces a peer that was lost.
pub const EXPIRED: &'static str = "mDNS discover peer has expired: ";

/// What announces an address.
pub const LISTENING: &'static str = "Local node is listening on ";

/// What answers a line that is no command.
pub const UNKNOWN_COMMAND: &'static str = "unknown $command";

/// What comes before a command.
pub const COMMAND: &'static str = "Command is ";

/// The heading of the peers on the local network.
pub const PEERS: &'static str = "Discovered Peers:";

/// What comes before the models of this node are looked up.
pub const LOOKING_UP_MODELS: &'static str = "Local models empty";

/// What comes before the number of models of this node.
pub const MODELS: &'static str = "Local models (";

/// What comes before the number of resources of this node.
pub const RESOURCES: &'static str = "Local resources (";

/// What comes after such a number.
pub const COUNT_END: &'static str = ")";

/// What comes before the reason why the models could not be read.
pub const MODELS_ERROR: &'static str = "error fetching local models: ";

/// What comes before that reason where they were read for another node.
pub const ANSWER_ERROR: &'static str = "error fetching local models to answer ALL request, ";

/// What comes before the reason why the resources could not be read.
pub const RESOURCES_ERROR: &'static str = "error fetching local resources: ";

/// What comes before the peer that sent a response.
pub const RESPONSE: &'static str = "Response from ";

/// What comes after that peer.
pub const RESPONSE_END: &'static str = ":";

/// What comes before a request to every node.
pub const RECEIVED_ALL: &'static str = "Received ALL req: ";

/// What comes before a request to this node.
pub const RECEIVED: &'static str = "Received req: ";

/// What comes before the node that wrote a request.
pub const FROM: &'static str = " from ";

/// What comes before a request that is answered.
pub const SENDING: &'static str = "Sending req: ";

/// What comes before the node that wrote a request that is answered.
pub const BACK_TO: &'static str = " back to: ";

/// What comes before the peer that gets the answer.
pub const BACK_TO_PEER: &'static str = " back to peer: ";

/// What comes before the place where a model's definition is kept.
pub const LOCATION: &'static str = "Location: ";

/// What comes before the node that has generated a model.
pub const GENERATED: &'static str = "Model generated locally at peer ";

/// What comes before a request that a peer sent to this node alone.
pub const GOT_REQUEST: &'static str = "Got message ";

/// What comes before the peer that sent it.
pub const GOT_REQUEST_FROM: &'static str = " in request_response from : ";

/// What comes before the text of a broadcast.
pub const GOT_BROADCAST: &'static str = "Got message: '";

/// What comes before the identifier of a broadcast.
pub const GOT_BROADCAST_ID: &'static str = "' with id: ";

/// What comes before the peer that passed a broadcast on.
pub const GOT_BROADCAST_FROM: &'static str = " from peer: ";

/// The line `text` for the user.
pub open spec fn output(text: Seq<char>) -> Seq<LineView> {
    seq![LineView { channel: Channel::Output, text }]
}

/// The line `text` for the log.
pub open spec fn info(text: Seq<char>) -> Seq<LineView> {
    seq![LineView { channel: Channel::Info, text }]
}

/// The line `text` for the log, as an error.
pub open spec fn error(text: Seq<char>) -> Seq<LineView> {
    seq![LineView { channel: Channel::Error, text }]
}

/// The heading of `count` things.
pub open spec fn counted(heading: Seq<char>, count: nat) -> Seq<char> {
    heading + decimal(count) + COUNT_END@
}

/// A line for each of `peers`, in order: its text.
pub open spec fn peer_lines(peers: Seq<Seq<u8>>) -> Seq<LineView> {
    peers.map_values(
        |peer: Seq<u8>| LineView { channel: Channel::Info, text: base58::base58(peer) },
    )
}

/// A line for each of `models`, in order.
pub open spec fn model_lines(models: Seq<ModelReqView>) -> Seq<LineView> {
    models.map_values(
        |m: ModelReqView| LineView { channel: Channel::Info, text: notation::model_notation(m) },
    )
}

/// A line for each of `resources`, in order.
pub open spec fn resource_lines(resources: Seq<ModelResView>) -> Seq<LineView> {
    resources.map_values(
        |r: ModelResView|
            LineView { channel: Channel::Info, text: notation::resource_notation(r) },
    )
}

/// The lines on a request to this node, by the notations of the request and of the node that wrote
/// it, and the text of the peer that gets the answer.
pub open spec fn one_requested(
    request: Seq<char>,
    source: Seq<char>,
    from: Seq<char>,
) -> Seq<LineView> {
    info(RECEIVED@ + request + FROM@ + source) + info(SENDING@ + request + BACK_TO@ + source)
        + info(SENDING@ + request + BACK_TO_PEER@ + notation::in_quotes(from))
}

/// The lines in which `notice` is told.
pub open spec fn lines(notice: NoticeView) -> Seq<LineView> {
    match notice {
        NoticeView::PeerDiscovered(peer) => output(DISCOVERED@ + base58::base58(peer)),
        NoticeView::PeerExpired(peer) => output(EXPIRED@ + base58::base58(peer)),
        NoticeView::Listening(address) => output(LISTENING@ + address),
        NoticeView::Command(cmd) => info(COMMAND@ + notation::quoted(cmd)),
        NoticeView::UnknownCommand(line) => error(UNKNOWN_COMMAND@) + info(
            COMMAND@ + notation::quoted(line),
        ),
        NoticeView::Peers(peers) => info(PEERS@) + peer_lines(peers),
        NoticeView::LookingUpModels => info(LOOKING_UP_MODELS@),
        NoticeView::Models(models) => info(counted(MODELS@, models.len())) + model_lines(models),
        NoticeView::ModelsUnreadable(e) => error(MODELS_ERROR@ + e),
        NoticeView::AnswerUnreadable(e) => error(ANSWER_ERROR@ + e),
        NoticeView::Resources(resources) => info(counted(RESOURCES@, resources.len()))
            + resource_lines(resources),
        NoticeView::ResourcesUnreadable(e) => error(RESOURCES_ERROR@ + e),
        NoticeView::Response { from, models } => info(
            RESPONSE@ + notation::peer_notation(from) + RESPONSE_END@,
        ) + model_lines(models),
        NoticeView::AllRequested { request, source } => info(
            RECEIVED_ALL@ + notation::request_notation(request) + FROM@
                + notation::source_notation(source),
        ),
        NoticeView::OneRequested { request, source, from } => one_requested(
            notation::request_notation(request),
            notation::source_notation(source),
            base58::base58(from),
        ),
        NoticeView::Location(bucket) => output(LOCATION@ + notation::quoted(bucket)),
        NoticeView::Generated(node) => output(GENERATED@ + notation::in_quotes(node)),
    }
}

/// The one line `text`.
fn just(channel: Channel, text: String) -> (told: Vec<Line>)
    ensures
        lines_view(told@) == seq![LineView { channel, text: text@ }],
{
    let mut told: Vec<Line> = Vec::new();
    told.push(Line { channel, text });
    assert(lines_view(told@) =~= seq![LineView { channel, text: text@ }]);
    told
}

/// The one line `start` followed by `rest`.
fn line(channel: Channel, start: &str, rest: &str) -> (told: Vec<Line>)
    ensures
        lines_view(told@) == seq![LineView { channel, text: start@ + rest@ }],
{
    just(channel, start.to_owned().concat(rest))
}

/// The one line that heads `count` things.
fn counted_line(heading: &str, count: usize) -> (told: Vec<Line>)
    ensures
        lines_view(told@) == info(counted(heading@, count as nat)),
{
    let mut text = heading.to_owned();
    text.append(to_decimal(count as u64).as_str());
    text.append(COUNT_END);
    just(Channel::Info, text)
}

/// Adds the line `text` for the log.
fn add_info(told: &mut Vec<Line>, text: String)
    ensures
        lines_view(final(told)@) == lines_view(old(told)@) + info(text@),
{
    told.push(Line { channel: Channel::Info, text });
    assert(lines_view(told@) =~= lines_view(old(told)@) + info(text@));
}

/// Adds a line for each of `models`.
fn add_models(told: &mut Vec<Line>, models: &Vec<ModelReq>)
    ensures
        lines_view(final(told)@) == lines_view(old(told)@) + model_lines(
            message::models_view(models@),
        ),
{
    let ghost before = lines_view(told@);
    let ghost all = message::models_view(models@);
    assert(before + model_lines(all.take(0)) =~= before);
    for i in 0..models.len()
        invariant
            all == message::models_view(models@),
            lines_view(told@) == before + model_lines(all.take(i as int)),
    {
        add_info(told, models[i].notation());
        assert(lines_view(told@) =~= before + model_lines(all.take(i + 1)));
    }
    assert(all.take(models@.len() as int) =~= all);
}

/// Adds a line for each of `resources`.
fn add_resources(told: &mut Vec<Line>, resources: &Vec<ModelRes>)
    ensures
        lines_view(final(told)@) == lines_view(old(told)@) + resource_lines(
            message::resources_view(resources@),
        ),
{
    let ghost before = lines_view(told@);
    let ghost all = message::resources_view(resources@);
    assert(before + resource_lines(all.take(0)) =~= before);
    for i in 0..resources.len()
        invariant
            all == message::resources_view(resources@),
            lines_view(told@) == before + resource_lines(all.take(i as int)),
    {
        add_info(told, resources[i].notation());
        assert(lines_view(told@) =~= before + resource_lines(all.take(i + 1)));
    }
    assert(all.take(resources@.len() as int) =~= all);
}

/// Adds a line for each of `peers`.
fn add_peers(told: &mut Vec<Line>, peers: &Vec<Peer>)
    ensures
        lines_view(final(told)@) == lines_view(old(told)@) + peer_lines(peers_view(peers@)),
{
    let ghost before = lines_view(told@);
    let ghost all = peers_view(peers@);
    assert(before + peer_lines(all.take(0)) =~= before);
    for i in 0..peers.len()
        invariant
            all == peers_view(peers@),
            lines_view(told@) == before + peer_lines(all.take(i as int)),
    {
        add_info(told, peers[i].text());
        assert(lines_view(told@) =~= before + peer_lines(all.take(i + 1)));
    }
    assert(all.take(peers@.len() as int) =~= all);
}

/// The text `start`, `first`, `middle` and `second`, one after the other.
pub fn between(start: &str, first: &str, middle: &str, second: &str) -> (text: String)
    ensures
        text@ == start@ + first@ + middle@ + second@,
{
    let mut text = start.to_owned();
    text.append(first);
    text.append(middle);
    text.append(second);
    text
}

/// The notation of a peer that may be known.
fn write_source(source: &Option<Peer>) -> (text: String)
    ensures
        text@ == notation::source_notation(source_view(*source)),
{
    match source {
        Some(peer) => notation::write_variant("Some", peer.notation().as_str()),
        None => "None".to_owned(),
    }
}

/// The lines on a request to this node, by the notations of the request and of the node that wrote
/// it, and the text of the peer that gets the answer.
pub fn tell_one_requested(request: &str, source: &str, from: &str) -> (told: Vec<Line>)
    ensures
        lines_view(told@) == one_requested(request@, source@, from@),
{
    let mut told = just(Channel::Info, between(RECEIVED, request, FROM, source));
    add_info(&mut told, between(SENDING, request, BACK_TO, source));
    let peer = notation::put_in_quotes(from);
    add_info(&mut told, between(SENDING, request, BACK_TO_PEER, peer.as_str()));
    told
}

/// The line on a request that the peer `from` sent to this node alone.
pub fn got_request(request: &ListRequest, from: &Peer) -> (line: Line)
    ensures
        line@ == (LineView {
            channel: Channel::Output,
            text: "Got message "@ + notation::request_notation(request@)
                + " in request_response from : "@ + notation::peer_notation(from@),
        }),
{
    let text = between(
        GOT_REQUEST,
        request.notation().as_str(),
        GOT_REQUEST_FROM,
        from.notation().as_str(),
    );
    Line { channel: Channel::Output, text }
}

/// The line on a broadcast with the identifier `id` and the text `said`, which the peer `from`
/// passed on.
pub fn got_broadcast(said: &str, id: &str, from: &Peer) -> (line: Line)
    ensures
        line@ == (LineView {
            channel: Channel::Output,
            text: "Got message: '"@ + said@ + "' with id: "@ + id@ + " from peer: "@
                + base58::base58(from@),
        }),
{
    let mut text = between(GOT_BROADCAST, said, GOT_BROADCAST_ID, id);
    text.append(GOT_BROADCAST_FROM);
    text.append(from.text().as_str());
    Line { channel: Channel::Output, text }
}

impl Notice {
    /// The lines in which the notice is told.
    pub fn lines(&self) -> (told: Vec<Line>)
        ensures
            lines_view(told@) == lines(self@),
    {
        match self {
            Notice::PeerDiscovered(peer) => line(
                Channel::Output,
                DISCOVERED,
                peer.text().as_str(),
            ),
            Notice::PeerExpired(peer) => line(Channel::Output, EXPIRED, peer.text().as_str()),
            Notice::Listening(address) => line(Channel::Output, LISTENING, address.as_str()),
            Notice::Command(cmd) => just(
                Channel::Info,
                notation::write_quoted(COMMAND, cmd.as_str()),
            ),
            Notice::UnknownCommand(line) => {
                let mut told = just(Channel::Error, UNKNOWN_COMMAND.to_owned());
                add_info(&mut told, notation::write_quoted(COMMAND, line.as_str()));
                told
            },
            Notice::Peers(peers) => {
                let mut told = just(Channel::Info, PEERS.to_owned());
                add_peers(&mut told, peers);
                told
            },
            Notice::LookingUpModels => just(Channel::Info, LOOKING_UP_MODELS.to_owned()),
            Notice::Models(models) => {
                let mut told = counted_line(MODELS, models.len());
                add_models(&mut told, models);
                told
            },
            Notice::ModelsUnreadable(e) => line(Channel::Error, MODELS_ERROR, e.as_str()),
            Notice::AnswerUnreadable(e) => line(Channel::Error, ANSWER_ERROR, e.as_str()),
            Notice::Resources(resources) => {
                let mut told = counted_line(RESOURCES, resources.len());
                add_resources(&mut told, resources);
                told
            },
            Notice::ResourcesUnreadable(e) => line(Channel::Error, RESOURCES_ERROR, e.as_str()),
            Notice::Response { from, models } => {
                let mut heading = RESPONSE.to_owned();
                heading.append(from.notation().as_str());
                heading.append(RESPONSE_END);
                let mut told = just(Channel::Info, heading);
                add_models(&mut told, models);
                told
            },
            Notice::AllRequested { request, source } => {
                let writer = write_source(source);
                let text = between(
                    RECEIVED_ALL,
                    request.notation().as_str(),
                    FROM,
                    writer.as_str(),
                );
                just(Channel::Info, text)
            },
            Notice::OneRequested { request, source, from } => tell_one_requested(
                request.notation().as_str(),
                write_source(source).as_str(),
                from.text().as_str(),
            ),
            Notice::Location(bucket) => just(
                Channel::Output,
                notation::write_quoted(LOCATION, bucket.as_str()),
            ),
            Notice::Generated(node) => line(
                Channel::Output,
                GENERATED,
                notation::put_in_quotes(node.as_str()).as_str(),
            ),
        }
    }
}

/// A notice says what it tells, and nothing of that is lost.
pub proof fn lemma_notice_says(n: Notice)
    ensures
        n matches Notice::PeerDiscovered(peer) ==> n@ == NoticeView::PeerDiscovered(peer@),
        n matches Notice::PeerExpired(peer) ==> n@ == NoticeView::PeerExpired(peer@),
        n matches Notice::Listening(address) ==> n@ == NoticeView::Listening(address@),
        n matches Notice::Command(line) ==> n@ == NoticeView::Command(line@),
        n matches Notice::UnknownCommand(line) ==> n@ == NoticeView::UnknownCommand(line@),
        n matches Notice::Peers(peers) ==> n@ == NoticeView::Peers(peers@.map_values(|p: Peer| p@)),
        n is LookingUpModels ==> n@ is LookingUpModels,
        n matches Notice::Models(models) ==> n@ == NoticeView::Models(
            models@.map_values(|m: ModelReq| m@),
        ),
        n matches Notice::ModelsUnreadable(e) ==> n@ == NoticeView::ModelsUnreadable(e@),
        n matches Notice::AnswerUnreadable(e) ==> n@ == NoticeView::AnswerUnreadable(e@),
        n matches Notice::Resources(entries) ==> n@ == NoticeView::Resources(
            entries@.map_values(|r: ModelRes| r@),
        ),
        n matches Notice::ResourcesUnreadable(e) ==> n@ == NoticeView::ResourcesUnreadable(e@),
        n matches Notice::Response { from, models } ==> n@ == (NoticeView::Response {
            from: from@,
            models: models@.map_values(|m: ModelReq| m@),
        }),
        n matches Notice::AllRequested { request, source } ==> {
            &&& n@ matches NoticeView::AllRequested { request: r, source: s }
            &&& r == request@
            &&& source matches Some(p) ==> s == Some(p@)
            &&& source is None ==> s is None
        },
        n matches Notice::OneRequested { request, source, from } ==> {
            &&& n@ matches NoticeView::OneRequested { request: r, source: s, from: f }
            &&& r == request@
            &&& f == from@
            &&& source matches Some(p) ==> s == Some(p@)
            &&& source is None ==> s is None
        },
        n matches Notice::Location(bucket) ==> n@ == NoticeView::Location(bucket@),
        n matches Notice::Generated(node) ==> n@ == NoticeView::Generated(node@),
{
    match n {
        Notice::Peers(peers) => assert(peers_view(peers@) =~= peers@.map_values(|p: Peer| p@)),
        Notice::Models(models) => assert(message::models_view(models@) =~= models@.map_values(
            |m: ModelReq| m@,
        )),
        Notice::Resources(entries) => assert(message::resources_view(entries@)
            =~= entries@.map_values(|r: ModelRes| r@)),
        Notice::Response { from, models } => assert(message::models_view(models@)
            =~= models@.map_values(|m: ModelReq| m@)),
        _ => {},
    }
}

/// A list of lines says each of them, in order, with where it goes.
pub proof fn lemma_lines_say(told: Seq<Line>, i: int)
    requires
        0 <= i < told.len(),
    ensures
        lines_view(told).len() == told.len(),
        lines_view(told)[i].channel == told[i].channel,
        lines_view(told)[i].text == told[i].text@,
{
}

/// The user is told in one line of a peer that is found, of one that is lost and of an address, each
/// by its text; of a model's place; and of the node that has generated a model.
pub proof fn lemma_told_to_the_user(peer: Seq<u8>, text: Seq<char>)
    ensures
        lines(NoticeView::PeerDiscovered(peer)) == seq![
            LineView {
                channel: Channel::Output,
                text: "mDNS discovered a new peer: "@ + base58::base58(peer),
            },
        ],
        lines(NoticeView::PeerExpired(peer)) == seq![
            LineView {
                channel: Channel::Output,
                text: "mDNS discover peer has expired: "@ + base58::base58(peer),
            },
        ],
        lines(NoticeView::Listening(text)) == seq![
            LineView { channel: Channel::Output, text: "Local node is listening on "@ + text },
        ],
        lines(NoticeView::Location(text)) == seq![
            LineView { channel: Channel::Output, text: "Location: "@ + notation::quoted(text) },
        ],
        lines(NoticeView::Generated(text)) == seq![
            LineView {
                channel: Channel::Output,
                text: "Model generated locally at peer "@ + ("\""@ + text + "\""@),
            },
        ],
{
}

/// The log gets a command as it was typed, and before one that is none an error. It gets each reason
/// why something could not be read, as an error, behind what was being read.
pub proof fn lemma_commands_and_errors_are_logged(text: Seq<char>)
    ensures
        lines(NoticeView::Command(text)) == seq![
            LineView { channel: Channel::Info, text: "Command is "@ + notation::quoted(text) },
        ],
        lines(NoticeView::UnknownCommand(text)) == seq![
            LineView { channel: Channel::Error, text: "unknown $command"@ },
            LineView { channel: Channel::Info, text: "Command is "@ + notation::quoted(text) },
        ],
        lines(NoticeView::LookingUpModels) == seq![
            LineView { channel: Channel::Info, text: "Local models empty"@ },
        ],
        lines(NoticeView::ModelsUnreadable(text)) == seq![
            LineView { channel: Channel::Error, text: "error fetching local models: "@ + text },
        ],
        lines(NoticeView::AnswerUnreadable(text)) == seq![
            LineView {
                channel: Channel::Error,
                text: "error fetching local models to answer ALL request, "@ + text,
            },
        ],
        lines(NoticeView::ResourcesUnreadable(text)) == seq![
            LineView { channel: Channel::Error, text: "error fetching local resources: "@ + text },
        ],
{
    assert(lines(NoticeView::UnknownCommand(text)) =~= seq![
        LineView { channel: Channel::Error, text: "unknown $command"@ },
        LineView { channel: Channel::Info, text: "Command is "@ + notation::quoted(text) },
    ]);
}

/// A list is logged whole: its heading, with the number of its entries where it is the node's own or
/// with the peer that it came from, and then one line for each entry, in order.
pub proof fn lemma_lists_are_logged_whole(
    models: Seq<ModelReqView>,
    resources: Seq<ModelResView>,
    peers: Seq<Seq<u8>>,
    from: Seq<u8>,
)
    ensures
        ({
            let told = lines(NoticeView::Models(models));
            &&& told.len() == 1 + models.len()
            &&& told[0] == (LineView {
                channel: Channel::Info,
                text: "Local models ("@ + decimal(models.len()) + ")"@,
            })
            &&& forall|i: int|
                0 <= i < models.len() ==> #[trigger] told[1 + i] == (LineView {
                    channel: Channel::Info,
                    text: notation::model_notation(models[i]),
                })
        }),
        ({
            let told = lines(NoticeView::Resources(resources));
            &&& told.len() == 1 + resources.len()
            &&& told[0] == (LineView {
                channel: Channel::Info,
                text: "Local resources ("@ + decimal(resources.len()) + ")"@,
            })
            &&& forall|i: int|
                0 <= i < resources.len() ==> #[trigger] told[1 + i] == (LineView {
                    channel: Channel::Info,
                    text: notation::resource_notation(resources[i]),
                })
        }),
        ({
            let told = lines(NoticeView::Peers(peers));
            &&& told.len() == 1 + peers.len()
            &&& told[0] == (LineView { channel: Channel::Info, text: "Discovered Peers:"@ })
            &&& forall|i: int|
                0 <= i < peers.len() ==> #[trigger] told[1 + i] == (LineView {
                    channel: Channel::Info,
                    text: base58::base58(peers[i]),
                })
        }),
        ({
            let told = lines(NoticeView::Response { from, models });
            &&& told.len() == 1 + models.len()
            &&& told[0] == (LineView {
                channel: Channel::Info,
                text: "Response from "@ + notation::peer_notation(from) + ":"@,
            })
            &&& forall|i: int|
                0 <= i < models.len() ==> #[trigger] told[1 + i] == (LineView {
                    channel: Channel::Info,
                    text: notation::model_notation(models[i]),
                })
        }),
{
}

/// A request is logged with the node that wrote it, and one to this node also with the peer that
/// gets the answer.
pub proof fn lemma_requests_are_logged(
    request: ListModeView,
    source: Option<Seq<u8>>,
    from: Seq<u8>,
)
    ensures
        ({
            let r = notation::request_notation(request);
            let s = notation::source_notation(source);
            let peer = "\""@ + base58::base58(from) + "\""@;
            let told = lines(NoticeView::OneRequested { request, source, from });
            &&& lines(NoticeView::AllRequested { request, source }) == seq![
                LineView {
                    channel: Channel::Info,
                    text: "Received ALL req: "@ + r + " from "@ + s,
                },
            ]
            &&& told.len() == 3
            &&& told[0] == (LineView {
                channel: Channel::Info,
                text: "Received req: "@ + r + " from "@ + s,
            })
            &&& told[1] == (LineView {
                channel: Channel::Info,
                text: "Sending req: "@ + r + " back to: "@ + s,
            })
            &&& told[2] == (LineView {
                channel: Channel::Info,
                text: "Sending req: "@ + r + " back to peer: "@ + peer,
            })
            &&& told == one_requested(r, s, base58::base58(from))
        }),
{
}

/// The three lines on a request to this node hold the texts that they are given as they stand.
pub proof fn lemma_lines_on_one_request(request: Seq<char>, source: Seq<char>, from: Seq<char>)
    ensures
        one_requested(request, source, from).len() == 3,
        one_requested(request, source, from)[0] == (LineView {
            channel: Channel::Info,
            text: "Received req: "@ + request + " from "@ + source,
        }),
        one_requested(request, source, from)[1] == (LineView {
            channel: Channel::Info,
            text: "Sending req: "@ + request + " back to: "@ + source,
        }),
        one_requested(request, source, from)[2] == (LineView {
            channel: Channel::Info,
            text: "Sending req: "@ + request + " back to peer: "@ + ("\""@ + from + "\""@),
        }),
{
}

} // verus!
