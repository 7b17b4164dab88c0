//! The two reaction templates, and the reply that a vote request becomes.

use vstd::prelude::*;
use crate::request::{VoteRequest, VoteRequestView};

verus! {

/// The reactions of a two-option vote: in favor, against.
pub const SIMPLE_REACT: [char; 2] = ['\u{2705}', '\u{274E}'];

/// The reactions of a five-option vote: strongly in favor, in favor,
/// neutral, against, strongly against.
pub const DEFAULT_REACT: [char; 5] = ['\u{2705}', '\u{1F1EB}', '\u{1F1F3}', '\u{1F1E6}', '\u{274E}'];

/// What the reactions of a two-option vote mean.
pub const SIMPLE_OPTIONS: &'static str = "\u{2705} - In Favor   \u{274E} - Against";

/// What the reactions of a five-option vote mean.
pub const DEFAULT_OPTIONS: &'static str =
    "\u{2705} - Strongly In Favor  \n               \u{1F1EB} - In Favor  \n               \u{1F1F3} - Neutral\n               \u{1F1E6} - Against\n               \u{274E} - Strongly Against";

/// The title of every reply that opens a vote.
pub const TITLE: &'static str = "PROPOSAL";

/// A fixed pairing of reactions and the text that says what each means.
#[derive(Debug, Clone, Copy, PartialEq, Eq)]
pub enum ReactionTemplate {
    /// Two options.
    Simple,
    /// Five options.
    Consensus,
}

impl ReactionTemplate {
    /// The template of a vote: `Simple` where the request says so,
    /// `Consensus` otherwise.
    pub open spec fn chosen_by(simple: bool) -> ReactionTemplate {
        if simple {
            ReactionTemplate::Simple
        } else {
            ReactionTemplate::Consensus
        }
    }

    /// The reactions of the template, in the order in which they are offered.
    pub open spec fn reaction_seq(self) -> Seq<char> {
        match self {
            ReactionTemplate::Simple => SIMPLE_REACT@,
            ReactionTemplate::Consensus => DEFAULT_REACT@,
        }
    }

    /// The text that explains the reactions.
    pub open spec fn options_seq(self) -> Seq<char> {
        match self {
            ReactionTemplate::Simple => SIMPLE_OPTIONS@,
            ReactionTemplate::Consensus => DEFAULT_OPTIONS@,
        }
    }

    /// Picks the template of a vote.
    pub fn select(simple: bool) -> (template: ReactionTemplate)
        ensures
            template == ReactionTemplate::chosen_by(simple),
    {
        if simple {
            ReactionTemplate::Simple
        } else {
            ReactionTemplate::Consensus
        }
    }

    /// The reactions of the template, in order.
    pub fn reactions(self) -> (reactions: &'static [char])
        ensures
            reactions@ == self.reaction_seq(),
    {
        match self {
            ReactionTemplate::Simple => SIMPLE_REACT.as_slice(),
            ReactionTemplate::Consensus => DEFAULT_REACT.as_slice(),
        }
    }

    /// The text that explains the reactions.
    pub fn options_text(self) -> (text: &'static str)
        ensures
            text@ == self.options_seq(),
    {
        match self {
            ReactionTemplate::Simple => SIMPLE_OPTIONS,
            ReactionTemplate::Consensus => DEFAULT_OPTIONS,
        }
    }
}

/// The reply that opens a vote: a panel with a title, the proposal and the
/// options, and the reactions to attach to it, in order.
#[derive(Debug, Clone, PartialEq, Eq)]
pub struct ReplySpec {
    pub title: String,
    pub description: String,
    pub options_text: String,
    pub reactions: Vec<char>,
}

/// The mathematical value of a [`ReplySpec`].
pub struct ReplySpecView {
    pub title: Seq<char>,
    pub description: Seq<char>,
    pub options_text: Seq<char>,
    pub reactions: Seq<char>,
}

impl View for ReplySpec {
    type V = ReplySpecView;

    open spec fn view(&self) -> ReplySpecView {
        ReplySpecView {
            title: self.title@,
            description: self.description@,
            options_text: self.options_text@,
            reactions: self.reactions@,
        }
    }
}

/// The reply to a vote request under a template.
pub open spec fn reply_under(request: VoteRequestView, template: ReactionTemplate) -> ReplySpecView {
    ReplySpecView {
        title: TITLE@,
        description: request.proposal,
        options_text: template.options_seq(),
        reactions: template.reaction_seq(),
    }
}

/// The reply to a vote request: under the template that the request chooses.
pub open spec fn reply_to(request: VoteRequestView) -> ReplySpecView {
    reply_under(request, ReactionTemplate::chosen_by(request.simple))
}

/// Builds the reply that shows the proposal of `args` above `vote_desc` and
/// offers `reactions`, in their order.
pub fn vote_impl(args: VoteRequest, reactions: &[char], vote_desc: &str) -> (reply: ReplySpec)
    ensures
        reply@ == (ReplySpecView {
            title: TITLE@,
            description: args.proposal@,
            options_text: vote_desc@,
            reactions: reactions@,
        }),
{
    let mut offered: Vec<char> = Vec::new();
    let mut i: usize = 0;
    while i < reactions.len()
        invariant
            i <= reactions.len(),
            offered@ == reactions@.take(i as int),
        decreases reactions.len() - i,
    {
        offered.push(reactions[i]);
        i += 1;
    }
    assert(offered@ == reactions@);
    ReplySpec {
        title: TITLE.to_owned(),
        description: args.proposal,
        options_text: vote_desc.to_owned(),
        reactions: offered,
    }
}

/// The reply to `args` as a two-option vote.
pub fn simple_vote(args: VoteRequest) -> (reply: ReplySpec)
    ensures
        reply@ == reply_under(args@, ReactionTemplate::Simple),
{
    vote_impl(args, ReactionTemplate::Simple.reactions(), ReactionTemplate::Simple.options_text())
}

/// The reply to `args` as a five-option vote.
pub fn consensus(args: VoteRequest) -> (reply: ReplySpec)
    ensures
        reply@ == reply_under(args@, ReactionTemplate::Consensus),
{
    vote_impl(
        args,
        ReactionTemplate::Consensus.reactions(),
        ReactionTemplate::Consensus.options_text(),
    )
}

} // verus!
