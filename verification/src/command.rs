//! The commands that a message can invoke, and what answers each.
//!
//! A message invokes a command where it starts with the prefix and the
//! command's keyword, and the keyword ends the message or white space
//! follows it. Keywords are matched letter for letter.

use vstd::prelude::*;
use crate::action::{answer_plainly, deliver, delivery, plain_answer, script_view, Action, ActionView};
use crate::request::{
    message_seq, outcome_view, parse_args, parse_line, RequestError, RequestErrorView, VoteRequest,
    VoteRequestView,
};
use crate::template::{consensus, reply_to, simple_vote};
use crate::text::{chars_of, is_space, is_whitespace, stands_at};

verus! {

/// The keyword of the command that answers "Pong!".
pub const PING: &'static str = "ping";

/// The keyword of the command that opens a vote.
pub const VOTE: &'static str = "vote";

/// The answer to a ping.
pub const PONG: &'static str = "Pong!";

/// Whether `content` invokes the command of `keyword` under `prefix`.
pub open spec fn invokes(prefix: Seq<char>, content: Seq<char>, keyword: Seq<char>) -> bool {
    let head = prefix + keyword;
    &&& head.is_prefix_of(content)
    &&& (content.len() == head.len() || is_space(content[head.len() as int]))
}

/// A command keyword.
#[derive(Debug, Clone, Copy, PartialEq, Eq)]
pub enum Keyword {
    Ping,
    Vote,
}

/// The keyword that `content` invokes under `prefix`, if any.
pub open spec fn keyword_of(prefix: Seq<char>, content: Seq<char>) -> Option<Keyword> {
    if invokes(prefix, content, PING@) {
        Some(Keyword::Ping)
    } else if invokes(prefix, content, VOTE@) {
        Some(Keyword::Vote)
    } else {
        None
    }
}

fn invoked(prefix: &Vec<char>, content: &Vec<char>, keyword: &str) -> (r: bool)
    ensures
        r == invokes(prefix@, content@, keyword@),
{
    let word = chars_of(keyword);
    let ghost p = prefix@.len() as int;
    let ghost end = p + word@.len();
    if !stands_at(content, 0, prefix) {
        assert(!(prefix@ + word@).is_prefix_of(content@)) by {
            if (prefix@ + word@).is_prefix_of(content@) {
                assert(content@.subrange(0, p) =~= prefix@);
            }
        }
        return false;
    }
    if !stands_at(content, prefix.len(), &word) {
        assert(!(prefix@ + word@).is_prefix_of(content@)) by {
            if (prefix@ + word@).is_prefix_of(content@) {
                assert forall|j: int| 0 <= j < word@.len() implies content@.subrange(p, end)[j]
                    == word@[j] by {
                    assert(content@.subrange(0, end)[p + j] == (prefix@ + word@)[p + j]);
                }
                assert(content@.subrange(p, end) =~= word@);
            }
        }
        return false;
    }
    assert(prefix.len() + word.len() <= content.len());
    assert((prefix@ + word@).is_prefix_of(content@)) by {
        assert(content@.subrange(0, end) =~= content@.subrange(0, p) + content@.subrange(p, end));
    }
    let end = prefix.len() + word.len();
    end == content.len() || is_whitespace(content[end])
}

/// Finds the keyword that `content` invokes under `prefix`, if any.
pub fn recognize(prefix: &str, content: &str) -> (keyword: Option<Keyword>)
    ensures
        keyword == keyword_of(prefix@, content@),
{
    let prefix = chars_of(prefix);
    let content = chars_of(content);
    if invoked(&prefix, &content, PING) {
        Some(Keyword::Ping)
    } else if invoked(&prefix, &content, VOTE) {
        Some(Keyword::Vote)
    } else {
        None
    }
}

/// A command, ready to be answered: a vote carries the request that its
/// line spelled, or the reason why it spelled none.
#[derive(Debug, PartialEq, Eq)]
pub enum Command {
    Ping,
    Vote(Result<VoteRequest, RequestError>),
}

/// The mathematical value of a [`Command`].
pub enum CommandView {
    Ping,
    Vote(Result<VoteRequestView, RequestErrorView>),
}

impl View for Command {
    type V = CommandView;

    open spec fn view(&self) -> CommandView {
        match self {
            Command::Ping => CommandView::Ping,
            Command::Vote(outcome) => CommandView::Vote(outcome_view(*outcome)),
        }
    }
}

/// The value of an optional command.
pub open spec fn optional_command(command: Option<Command>) -> Option<CommandView> {
    match command {
        Some(command) => Some(command@),
        None => None,
    }
}

/// The command that `content` invokes under `prefix`, if any. A vote is
/// read from the whole of `content`, prefix and keyword included: they make
/// up the command word, or its beginning.
pub open spec fn routed(prefix: Seq<char>, content: Seq<char>) -> Option<CommandView> {
    match keyword_of(prefix, content) {
        Some(Keyword::Ping) => Some(CommandView::Ping),
        Some(Keyword::Vote) => Some(CommandView::Vote(parse_line(content))),
        None => None,
    }
}

/// What answers a vote line: the delivery of the reply to its request, or
/// the error's text as a plain answer.
pub open spec fn vote_response(outcome: Result<VoteRequestView, RequestErrorView>) -> Seq<
    ActionView,
> {
    match outcome {
        Ok(request) => delivery(reply_to(request)),
        Err(error) => plain_answer(message_seq(error)),
    }
}

/// What answers a command.
pub open spec fn response(command: CommandView) -> Seq<ActionView> {
    match command {
        CommandView::Ping => plain_answer(PONG@),
        CommandView::Vote(outcome) => vote_response(outcome),
    }
}

/// What answers a message: the response to the command that it invokes,
/// and nothing where it invokes none.
pub open spec fn answer(prefix: Seq<char>, content: Seq<char>) -> Seq<ActionView> {
    match routed(prefix, content) {
        Some(command) => response(command),
        None => Seq::empty(),
    }
}

/// Finds the command that `content` invokes under `prefix`, if any, and
/// reads the request of a vote.
pub fn route(prefix: &str, content: &str) -> (command: Option<Command>)
    ensures
        optional_command(command) == routed(prefix@, content@),
{
    match recognize(prefix, content) {
        Some(Keyword::Ping) => Some(Command::Ping),
        Some(Keyword::Vote) => Some(Command::Vote(parse_args(content))),
        None => None,
    }
}

/// Answers a ping.
pub fn ping() -> (script: Vec<Action>)
    ensures
        script_view(script@) == plain_answer(PONG@),
{
    answer_plainly(PONG.to_owned())
}

/// Answers the outcome of reading a vote line.
pub fn answer_vote(outcome: Result<VoteRequest, RequestError>) -> (script: Vec<Action>)
    ensures
        script_view(script@) == vote_response(outcome_view(outcome)),
{
    match outcome {
        Ok(args) => if args.simple {
            deliver(simple_vote(args))
        } else {
            deliver(consensus(args))
        },
        Err(e) => answer_plainly(e.message()),
    }
}

/// Answers a vote line: reads the request from `content` and answers the
/// outcome.
pub fn vote(content: &str) -> (script: Vec<Action>)
    ensures
        script_view(script@) == vote_response(parse_line(content@)),
{
    answer_vote(parse_args(content))
}

/// Answers a command.
pub fn respond(command: Command) -> (script: Vec<Action>)
    ensures
        script_view(script@) == response(command@),
{
    match command {
        Command::Ping => ping(),
        Command::Vote(outcome) => answer_vote(outcome),
    }
}

/// Answers a message.
pub fn handle(prefix: &str, content: &str) -> (script: Vec<Action>)
    ensures
        script_view(script@) == answer(prefix@, content@),
{
    match route(prefix, content) {
        Some(command) => respond(command),
        None => Vec::new(),
    }
}

/// A vote line that spells no request is answered by one plain reply,
/// which carries the error's text: no panel is sent and no reaction is
/// attached.
pub proof fn lemma_failed_vote_answers_plainly(error: RequestErrorView)
    ensures
        vote_response(Err::<VoteRequestView, RequestErrorView>(error)) == seq![
            ActionView::ReplyText { text: message_seq(error) },
        ],
{
}

/// No message invokes both commands. One that does not start with the
/// prefix invokes none.
pub proof fn lemma_keywords_exclude_each_other(prefix: Seq<char>, content: Seq<char>)
    ensures
        !(invokes(prefix, content, PING@) && invokes(prefix, content, VOTE@)),
        !prefix.is_prefix_of(content) ==> keyword_of(prefix, content) is None,
{
    reveal_strlit("ping");
    reveal_strlit("vote");
    if invokes(prefix, content, PING@) && invokes(prefix, content, VOTE@) {
        let n = prefix.len() as int;
        assert(content.subrange(0, n + 4)[n] == (prefix + PING@)[n]);
        assert(content.subrange(0, n + 4)[n] == (prefix + VOTE@)[n]);
    }
    if keyword_of(prefix, content) is Some {
        let keyword = if invokes(prefix, content, PING@) {
            PING@
        } else {
            VOTE@
        };
        let n = prefix.len() as int;
        assert(content.subrange(0, n) =~= content.subrange(0, n + keyword.len()).subrange(0, n));
        assert((prefix + keyword).subrange(0, n) =~= prefix);
    }
}

} // verus!
