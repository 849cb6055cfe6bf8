//! The commands that a user types.

use vstd::prelude::*;

verus! {

/// The command that lists the peers of the node.
pub const LIST_PEERS: &'static str = "ls p";

/// What a command about models starts with.
pub const MODELS: &'static str = "ls r";

/// What a command about models starts with when an argument follows.
pub const MODELS_WITH_ARGUMENT: &'static str = "ls r ";

/// The argument that asks every node for everything.
pub const EVERYTHING: &'static str = "all";

/// What a line asks for.
#[derive(Debug)]
pub enum Command {
    /// To list the peers that the node knows.
    ListPeers,
    /// To ask every node for everything.
    BroadcastAll,
    /// To ask for a node with the resources that the text states.
    BroadcastSpecs(String),
    /// To list the models of this node.
    ListModels,
    /// Nothing that the node knows.
    Unknown,
}

/// What a `Command` says.
#[verifier::ext_equal]
pub enum CommandView {
    ListPeers,
    BroadcastAll,
    BroadcastSpecs(Seq<char>),
    ListModels,
    Unknown,
}

impl View for Command {
    type V = CommandView;

    open spec fn view(&self) -> CommandView {
        match self {
            Command::ListPeers => CommandView::ListPeers,
            Command::BroadcastAll => CommandView::BroadcastAll,
            Command::BroadcastSpecs(specs) => CommandView::BroadcastSpecs(specs@),
            Command::ListModels => CommandView::ListModels,
            Command::Unknown => CommandView::Unknown,
        }
    }
}

/// What the command `cmd` about models asks for. Without an argument it is about this node.
pub open spec fn models_command(cmd: Seq<char>) -> CommandView {
    if !MODELS_WITH_ARGUMENT@.is_prefix_of(cmd) {
        CommandView::ListModels
    } else if cmd == MODELS_WITH_ARGUMENT@ + EVERYTHING@ {
        CommandView::BroadcastAll
    } else {
        CommandView::BroadcastSpecs(cmd.skip(MODELS_WITH_ARGUMENT@.len() as int))
    }
}

/// What `line` asks for.
pub open spec fn command(line: Seq<char>) -> CommandView {
    if line == LIST_PEERS@ {
        CommandView::ListPeers
    } else if MODELS@.is_prefix_of(line) {
        models_command(line)
    } else {
        CommandView::Unknown
    }
}

/// Whether two texts are the same.
pub fn same_text(a: &str, b: &str) -> (r: bool)
    ensures
        r == (a@ == b@),
{
    a.to_owned() == b.to_owned()
}

/// Whether `text` starts with `prefix`.
pub fn starts_with(text: &str, prefix: &str) -> (r: bool)
    ensures
        r == prefix@.is_prefix_of(text@),
{
    let n: usize = prefix.unicode_len();
    n <= text.unicode_len() && same_text(text.substring_char(0, n), prefix)
}

/// What follows `prefix` in `text`, if `text` starts with it.
pub fn strip_prefix<'a>(text: &'a str, prefix: &str) -> (rest: Option<&'a str>)
    ensures
        match rest {
            Some(r) => text@ == prefix@ + r@,
            None => !prefix@.is_prefix_of(text@),
        },
{
    if starts_with(text, prefix) {
        let n: usize = prefix.unicode_len();
        let rest = text.substring_char(n, text.unicode_len());
        assert(text@ =~= prefix@ + rest@);
        Some(rest)
    } else {
        None
    }
}

/// Reads a command about models.
pub fn parse_models_command(cmd: &str) -> (command: Command)
    ensures
        command@ == models_command(cmd@),
{
    match strip_prefix(cmd, MODELS_WITH_ARGUMENT) {
        Some(argument) => {
            assert(cmd@.skip(MODELS_WITH_ARGUMENT@.len() as int) =~= argument@);
            assert(cmd@.take(MODELS_WITH_ARGUMENT@.len() as int) =~= MODELS_WITH_ARGUMENT@);
            assert((MODELS_WITH_ARGUMENT@ + EVERYTHING@).skip(MODELS_WITH_ARGUMENT@.len() as int)
                =~= EVERYTHING@);
            if same_text(argument, EVERYTHING) {
                Command::BroadcastAll
            } else {
                Command::BroadcastSpecs(argument.to_owned())
            }
        },
        None => Command::ListModels,
    }
}

/// Reads a line.
pub fn parse_command(line: &str) -> (r: Command)
    ensures
        r@ == command(line@),
{
    if same_text(line, LIST_PEERS) {
        Command::ListPeers
    } else if starts_with(line, MODELS) {
        parse_models_command(line)
    } else {
        Command::Unknown
    }
}

/// What a user types behind the command is broadcast as it is, unless it asks for everything.
pub proof fn lemma_argument_is_broadcast(argument: Seq<char>)
    ensures
        command(MODELS_WITH_ARGUMENT@ + argument) == (if argument == EVERYTHING@ {
            CommandView::BroadcastAll
        } else {
            CommandView::BroadcastSpecs(argument)
        }),
{
    reveal_strlit("ls p");
    reveal_strlit("ls r");
    reveal_strlit("ls r ");
    let line = MODELS_WITH_ARGUMENT@ + argument;
    assert(line.len() >= 5);
    assert(line.take(4) =~= MODELS@);
    assert(line.take(5) =~= MODELS_WITH_ARGUMENT@);
    assert(line.skip(5) =~= argument);
    assert((MODELS_WITH_ARGUMENT@ + EVERYTHING@).skip(5) =~= EVERYTHING@);
}

/// The peers are listed by the line `ls p` and by no other.
pub proof fn lemma_one_line_lists_peers(line: Seq<char>)
    ensures
        command(line) is ListPeers <==> line == "ls p"@,
{
}

/// A line that neither lists the peers nor starts with `ls r` is no command, and every other is.
pub proof fn lemma_unknown_lines(line: Seq<char>)
    ensures
        command(line) is Unknown <==> line != "ls p"@ && !(line.len() >= 4 && line[0] == 'l'
            && line[1] == 's' && line[2] == ' ' && line[3] == 'r'),
{
    reveal_strlit("ls p");
    reveal_strlit("ls r");
    if line.len() >= 4 {
        if line[0] == 'l' && line[1] == 's' && line[2] == ' ' && line[3] == 'r' {
            assert(MODELS@ =~= line.subrange(0, 4));
        }
        if MODELS@.is_prefix_of(line) {
            assert(line.subrange(0, 4)[0] == 'l');
            assert(line.subrange(0, 4)[1] == 's');
            assert(line.subrange(0, 4)[2] == ' ');
            assert(line.subrange(0, 4)[3] == 'r');
        }
    }
}

/// Behind `ls r` and a space stands an argument: `all` asks every node for everything, and any other
/// is a statement of resources, kept to the last character.
pub proof fn lemma_arguments(argument: Seq<char>)
    ensures
        argument == "all"@ ==> command("ls r "@ + argument) is BroadcastAll && models_command(
            "ls r "@ + argument,
        ) is BroadcastAll,
        argument != "all"@ ==> command("ls r "@ + argument) == CommandView::BroadcastSpecs(argument)
            && models_command("ls r "@ + argument) == CommandView::BroadcastSpecs(argument),
{
    lemma_argument_is_broadcast(argument);
    reveal_strlit("ls p");
    reveal_strlit("ls r");
    reveal_strlit("ls r ");
    let line = MODELS_WITH_ARGUMENT@ + argument;
    assert(line.subrange(0, 4) =~= MODELS@);
    assert(line[3] == 'r');
    assert(LIST_PEERS@[3] == 'p');
}

/// Without a space behind `ls r` there is no argument, and the line is about this node's models.
pub proof fn lemma_no_argument(rest: Seq<char>)
    requires
        rest.len() == 0 || rest[0] != ' ',
    ensures
        command("ls r"@ + rest) is ListModels,
{
    reveal_strlit("ls p");
    reveal_strlit("ls r");
    reveal_strlit("ls r ");
    let line = "ls r"@ + rest;
    assert(line.subrange(0, 4) =~= MODELS@);
    assert(line[3] == 'r');
    assert(LIST_PEERS@[3] == 'p');
    if MODELS_WITH_ARGUMENT@.is_prefix_of(line) {
        assert(line.subrange(0, 5)[4] == ' ');
        assert(line[4] == rest[0]);
    }
}

/// A command about models that is no argument behind `ls r` and a space is about this node's models.
pub proof fn lemma_models_command_without_argument(cmd: Seq<char>)
    requires
        forall|argument: Seq<char>| cmd != #[trigger] ("ls r "@ + argument),
    ensures
        models_command(cmd) is ListModels,
{
    reveal_strlit("ls r ");
    if MODELS_WITH_ARGUMENT@.is_prefix_of(cmd) {
        assert(cmd =~= "ls r "@ + cmd.skip(5));
    }
}

} // verus!
