//! The vote request and the grammar that reads it from command words.
//!
//! A vote is asked for as `vote [-s|--simple] [--] PROPOSAL`. The first word
//! of a command line is the command word itself and is never looked at. The
//! words after it are read from left to right:
//!
//! * `-s` and `--simple` ask for the two-option vote;
//! * `-h` and `--help` ask for the usage text, which comes back as an error;
//! * `--` ends the options: every word after it is taken as it stands;
//! * any other word of two or more characters that starts with `-` is an
//!   unknown flag;
//! * every other word is an operand. Exactly one operand is wanted: the
//!   proposal. A proposal of several words has to be quoted into one.
//!
//! The first word that cannot be accepted decides the error. A line that
//! read to its end is then checked for its proposal, which must be there
//! and must not be empty, and for a flag given twice.

use vstd::prelude::*;
use vstd::string::*;
use crate::text::{chars_of, same_text};
use crate::tokenize::{shell_split, split_error_text, split_words, words_view};

verus! {

/// A request to open a vote on `proposal`, with two options where `simple`
/// is set and with five otherwise.
#[derive(Debug, Clone, PartialEq, Eq)]
pub struct VoteRequest {
    pub simple: bool,
    pub proposal: String,
}

/// The mathematical value of a [`VoteRequest`].
pub struct VoteRequestView {
    pub simple: bool,
    pub proposal: Seq<char>,
}

impl View for VoteRequest {
    type V = VoteRequestView;

    open spec fn view(&self) -> VoteRequestView {
        VoteRequestView { simple: self.simple, proposal: self.proposal@ }
    }
}

/// Why a command line yields no vote request.
#[derive(Debug, Clone, PartialEq, Eq)]
pub enum RequestError {
    /// The line could not be split into words; `detail` is the splitter's
    /// own account of it.
    Tokenize { detail: String },
    /// The usage text was asked for.
    HelpRequested,
    /// A word looked like a flag and is none that the command knows.
    UnknownFlag { flag: String },
    /// An operand came after the proposal.
    UnexpectedArgument { argument: String },
    /// The line holds no proposal.
    MissingProposal,
    /// The proposal is the empty word.
    EmptyProposal,
    /// The simple-vote flag was given more than once.
    RepeatedFlag,
}

/// The mathematical value of a [`RequestError`].
pub enum RequestErrorView {
    Tokenize { detail: Seq<char> },
    HelpRequested,
    UnknownFlag { flag: Seq<char> },
    UnexpectedArgument { argument: Seq<char> },
    MissingProposal,
    EmptyProposal,
    RepeatedFlag,
}

impl View for RequestError {
    type V = RequestErrorView;

    open spec fn view(&self) -> RequestErrorView {
        match self {
            RequestError::Tokenize { detail } => RequestErrorView::Tokenize { detail: detail@ },
            RequestError::HelpRequested => RequestErrorView::HelpRequested,
            RequestError::UnknownFlag { flag } => RequestErrorView::UnknownFlag { flag: flag@ },
            RequestError::UnexpectedArgument { argument } => RequestErrorView::UnexpectedArgument {
                argument: argument@,
            },
            RequestError::MissingProposal => RequestErrorView::MissingProposal,
            RequestError::EmptyProposal => RequestErrorView::EmptyProposal,
            RequestError::RepeatedFlag => RequestErrorView::RepeatedFlag,
        }
    }
}

/// How every usage error ends: the shape of the command, and where to
/// learn more.
pub const USAGE: &'static str =
    "\n\nUSAGE:\n    vote [FLAGS] <PROPOSAL>\n\nFor more information try --help";

/// The text that answers a request for help.
pub const HELP: &'static str =
    "vote\n\nUSAGE:\n    vote [FLAGS] <PROPOSAL>\n\nFLAGS:\n    -h, --help      Prints help information\n    -s, --simple    Offers two options instead of five\n\nARGS:\n    <PROPOSAL>    What to vote on; quote it if it holds spaces";

/// The text that tells a user what was wrong with the command line.
pub open spec fn message_seq(e: RequestErrorView) -> Seq<char> {
    match e {
        RequestErrorView::Tokenize { detail } => "Parsing Error: "@ + detail,
        RequestErrorView::HelpRequested => HELP@,
        RequestErrorView::UnknownFlag { flag } => "error: Found argument '"@ + flag
            + "' which wasn't expected, or isn't valid in this context"@ + USAGE@,
        RequestErrorView::UnexpectedArgument { argument } => "error: Found argument '"@ + argument
            + "' which wasn't expected, or isn't valid in this context"@ + USAGE@,
        RequestErrorView::MissingProposal =>
            "error: The following required arguments were not provided:\n    <PROPOSAL>"@ + USAGE@,
        RequestErrorView::EmptyProposal =>
            "error: The argument '<PROPOSAL>' requires a value but none was supplied"@ + USAGE@,
        RequestErrorView::RepeatedFlag =>
            "error: The argument '--simple' was provided more than once, but cannot be used multiple times"@
                + USAGE@,
    }
}

impl RequestError {
    /// The text that tells a user what was wrong with the command line.
    pub fn message(&self) -> (text: String)
        ensures
            text@ == message_seq(self@),
    {
        match self {
            RequestError::Tokenize { detail } => {
                let mut text = "Parsing Error: ".to_owned();
                text.append(detail.as_str());
                text
            },
            RequestError::HelpRequested => HELP.to_owned(),
            RequestError::UnknownFlag { flag } => unexpected(flag.as_str()),
            RequestError::UnexpectedArgument { argument } => unexpected(argument.as_str()),
            RequestError::MissingProposal => {
                let mut text =
                    "error: The following required arguments were not provided:\n    <PROPOSAL>".to_owned();
                text.append(USAGE);
                text
            },
            RequestError::EmptyProposal => {
                let mut text =
                    "error: The argument '<PROPOSAL>' requires a value but none was supplied".to_owned();
                text.append(USAGE);
                text
            },
            RequestError::RepeatedFlag => {
                let mut text =
                    "error: The argument '--simple' was provided more than once, but cannot be used multiple times".to_owned();
                text.append(USAGE);
                text
            },
        }
    }
}

/// The complaint about a word that has no place on the line.
fn unexpected(word: &str) -> (text: String)
    ensures
        text@ == "error: Found argument '"@ + word@
            + "' which wasn't expected, or isn't valid in this context"@ + USAGE@,
{
    let mut text = "error: Found argument '".to_owned();
    text.append(word);
    text.append("' which wasn't expected, or isn't valid in this context");
    text.append(USAGE);
    text
}

/// The value of a parse, request or error.
pub open spec fn outcome_view(r: Result<VoteRequest, RequestError>) -> Result<
    VoteRequestView,
    RequestErrorView,
> {
    match r {
        Ok(request) => Ok(request@),
        Err(error) => Err(error@),
    }
}

/// What a word stands for while options are still being read.
#[derive(Debug, Clone, Copy, PartialEq, Eq)]
pub enum TokenKind {
    /// `-s` or `--simple`.
    Simple,
    /// `-h` or `--help`.
    Help,
    /// `--`.
    EndOfOptions,
    /// Any other word of two or more characters that starts with `-`.
    Unknown,
    /// Every other word, the empty word and a lone `-` among them.
    Operand,
}

/// The kind of the word `t`.
pub open spec fn token_kind(t: Seq<char>) -> TokenKind {
    if t == "-s"@ || t == "--simple"@ {
        TokenKind::Simple
    } else if t == "-h"@ || t == "--help"@ {
        TokenKind::Help
    } else if t == "--"@ {
        TokenKind::EndOfOptions
    } else if t.len() >= 2 && t[0] == '-' {
        TokenKind::Unknown
    } else {
        TokenKind::Operand
    }
}

/// Decides [`token_kind`].
pub fn classify(token: &str) -> (kind: TokenKind)
    ensures
        kind == token_kind(token@),
{
    if same_text(token, "-s") || same_text(token, "--simple") {
        TokenKind::Simple
    } else if same_text(token, "-h") || same_text(token, "--help") {
        TokenKind::Help
    } else if same_text(token, "--") {
        TokenKind::EndOfOptions
    } else {
        let chars = chars_of(token);
        if chars.len() >= 2 && chars[0] == '-' {
            TokenKind::Unknown
        } else {
            TokenKind::Operand
        }
    }
}

/// What has been read of a command line so far.
pub struct Progress {
    /// The simple-vote flag was seen.
    pub simple: bool,
    /// It was seen more than once.
    pub repeated: bool,
    /// The first operand, if one was seen.
    pub proposal: Option<Seq<char>>,
    /// `--` was seen: the words that follow are operands.
    pub operands_only: bool,
}

/// Nothing read yet.
pub open spec fn nothing_read() -> Progress {
    Progress { simple: false, repeated: false, proposal: None, operands_only: false }
}

/// The verdict on a line that was read to its end.
pub open spec fn conclude(p: Progress) -> Result<VoteRequestView, RequestErrorView> {
    match p.proposal {
        None => Err(RequestErrorView::MissingProposal),
        Some(proposal) => if proposal.len() == 0 {
            Err(RequestErrorView::EmptyProposal)
        } else if p.repeated {
            Err(RequestErrorView::RepeatedFlag)
        } else {
            Ok(VoteRequestView { simple: p.simple, proposal })
        },
    }
}

/// Reads `words` from index `i` on, with `p` read before it.
pub open spec fn read_from(words: Seq<Seq<char>>, i: int, p: Progress) -> Result<
    VoteRequestView,
    RequestErrorView,
>
    decreases words.len() - i,
{
    if i >= words.len() {
        conclude(p)
    } else {
        let word = words[i];
        let kind = if p.operands_only {
            TokenKind::Operand
        } else {
            token_kind(word)
        };
        match kind {
            TokenKind::Simple => read_from(
                words,
                i + 1,
                Progress { simple: true, repeated: p.repeated || p.simple, ..p },
            ),
            TokenKind::Help => Err(RequestErrorView::HelpRequested),
            TokenKind::EndOfOptions => read_from(words, i + 1, Progress { operands_only: true, ..p }),
            TokenKind::Unknown => Err(RequestErrorView::UnknownFlag { flag: word }),
            TokenKind::Operand => if p.proposal is Some {
                Err(RequestErrorView::UnexpectedArgument { argument: word })
            } else {
                read_from(words, i + 1, Progress { proposal: Some(word), ..p })
            },
        }
    }
}

/// The vote request that the words of a command line spell, the command
/// word first.
pub open spec fn parse_words(words: Seq<Seq<char>>) -> Result<VoteRequestView, RequestErrorView> {
    read_from(words, 1, nothing_read())
}

/// The vote request that a command line spells.
pub open spec fn parse_line(line: Seq<char>) -> Result<VoteRequestView, RequestErrorView> {
    match shell_split(line) {
        Some(words) => parse_words(words),
        None => Err(RequestErrorView::Tokenize { detail: "missing closing quote"@ }),
    }
}

/// The characters of an optional string.
pub open spec fn optional_text(s: Option<String>) -> Option<Seq<char>> {
    match s {
        Some(s) => Some(s@),
        None => None,
    }
}

/// Reads a vote request from the words of a command line, the command word
/// first.
pub fn parse_tokens(words: &Vec<String>) -> (r: Result<VoteRequest, RequestError>)
    ensures
        outcome_view(r) == parse_words(words_view(words@)),
        r matches Ok(request) ==> request.proposal@.len() > 0,
{
    proof {
        lemma_request_holds_a_word(words_view(words@));
    }
    let mut simple = false;
    let mut repeated = false;
    let mut proposal: Option<String> = None;
    let mut operands_only = false;
    let mut i: usize = 1;
    while i < words.len()
        invariant
            1 <= i,
            read_from(
                words_view(words@),
                i as int,
                Progress { simple, repeated, proposal: optional_text(proposal), operands_only },
            ) == parse_words(words_view(words@)),
        decreases words.len() - i,
    {
        let word = &words[i];
        let kind = if operands_only {
            TokenKind::Operand
        } else {
            classify(word.as_str())
        };
        match kind {
            TokenKind::Simple => {
                repeated = repeated || simple;
                simple = true;
            },
            TokenKind::Help => {
                return Err(RequestError::HelpRequested);
            },
            TokenKind::EndOfOptions => {
                operands_only = true;
            },
            TokenKind::Unknown => {
                return Err(RequestError::UnknownFlag { flag: word.clone() });
            },
            TokenKind::Operand => {
                if proposal.is_some() {
                    return Err(RequestError::UnexpectedArgument { argument: word.clone() });
                }
                proposal = Some(word.clone());
            },
        }
        i += 1;
    }
    match proposal {
        None => Err(RequestError::MissingProposal),
        Some(proposal) => if proposal.as_str().is_empty() {
            Err(RequestError::EmptyProposal)
        } else if repeated {
            Err(RequestError::RepeatedFlag)
        } else {
            Ok(VoteRequest { simple, proposal })
        },
    }
}

/// Reads a vote request from a command line: splits the line into words as
/// a shell would, then reads the words.
pub fn parse_args(input: &str) -> (r: Result<VoteRequest, RequestError>)
    ensures
        outcome_view(r) == parse_line(input@),
        r matches Ok(request) ==> request.proposal@.len() > 0,
{
    match split_words(input) {
        Ok(words) => parse_tokens(&words),
        Err(e) => Err(RequestError::Tokenize { detail: split_error_text(&e) }),
    }
}

/// The words of a line that holds the command word, the proposal and, where
/// `flag` is given, that flag before the proposal or after it.
pub open spec fn plain_line(
    command: Seq<char>,
    flag: Option<Seq<char>>,
    flag_first: bool,
    proposal: Seq<char>,
) -> Seq<Seq<char>> {
    match flag {
        None => seq![command, proposal],
        Some(flag) => if flag_first {
            seq![command, flag, proposal]
        } else {
            seq![command, proposal, flag]
        },
    }
}

/// Whether the word at index `i` of a line is read as an operand: it is one
/// by its kind, or `--` stands somewhere before it.
pub open spec fn operand_at(words: Seq<Seq<char>>, i: int) -> bool {
    ||| token_kind(words[i]) == TokenKind::Operand
    ||| exists|j: int| 1 <= j < i && token_kind(#[trigger] words[j]) == TokenKind::EndOfOptions
}

/// A word that does not start with `-`, and any word of fewer than two
/// characters, is an operand.
pub proof fn lemma_plain_word_is_operand(word: Seq<char>)
    requires
        word.len() < 2 || word[0] != '-',
    ensures
        token_kind(word) == TokenKind::Operand,
{
    reveal_strlit("-s");
    reveal_strlit("--simple");
    reveal_strlit("-h");
    reveal_strlit("--help");
    reveal_strlit("--");
}

/// A line that holds one operand, which is not empty, and at most one
/// simple-vote flag, before the operand or after it, yields the request for
/// that operand, simple exactly where the flag is there.
pub proof fn lemma_one_proposal_is_accepted(
    command: Seq<char>,
    flag: Option<Seq<char>>,
    flag_first: bool,
    proposal: Seq<char>,
)
    requires
        token_kind(proposal) == TokenKind::Operand,
        proposal.len() > 0,
        flag matches Some(f) ==> token_kind(f) == TokenKind::Simple,
    ensures
        parse_words(plain_line(command, flag, flag_first, proposal)) == Ok::<
            VoteRequestView,
            RequestErrorView,
        >(VoteRequestView { simple: flag is Some, proposal }),
{
    reveal_with_fuel(read_from, 4);
}

/// The same of a command line: where splitting it gives the command word,
/// one operand that is not empty and at most one simple-vote flag, the
/// line yields the request for that operand.
pub proof fn lemma_line_of_one_proposal(
    line: Seq<char>,
    command: Seq<char>,
    flag: Option<Seq<char>>,
    flag_first: bool,
    proposal: Seq<char>,
)
    requires
        token_kind(proposal) == TokenKind::Operand,
        proposal.len() > 0,
        flag matches Some(f) ==> token_kind(f) == TokenKind::Simple,
    ensures
        shell_split(line) == Some(plain_line(command, flag, flag_first, proposal)) ==> parse_line(
            line,
        ) == Ok::<VoteRequestView, RequestErrorView>(
            VoteRequestView { simple: flag is Some, proposal },
        ),
{
    lemma_one_proposal_is_accepted(command, flag, flag_first, proposal);
}

/// After `--` the next word is the proposal as it stands, whatever it
/// looks like, as long as it is not empty and nothing follows it.
pub proof fn lemma_separator_protects_proposal(command: Seq<char>, proposal: Seq<char>)
    requires
        proposal.len() > 0,
    ensures
        parse_words(seq![command, "--"@, proposal]) == Ok::<VoteRequestView, RequestErrorView>(
            VoteRequestView { simple: false, proposal },
        ),
{
    assert(token_kind("--"@) == TokenKind::EndOfOptions) by {
        reveal_strlit("--");
        reveal_strlit("-s");
        reveal_strlit("--simple");
        reveal_strlit("-h");
        reveal_strlit("--help");
        assert("--"@[1] != "-s"@[1]);
        assert("--"@[1] != "-h"@[1]);
        assert("--"@.len() < "--help"@.len() < "--simple"@.len());
    }
    reveal_with_fuel(read_from, 4);
}

proof fn lemma_read_without_operand(words: Seq<Seq<char>>, k: int, p: Progress)
    requires
        1 <= k,
        p.proposal is None,
        p.operands_only ==> k >= words.len(),
        forall|i: int| k <= i < words.len() ==> !operand_at(words, i),
    ensures
        read_from(words, k, p) is Err,
    decreases words.len() - k,
{
    if k < words.len() {
        assert(!operand_at(words, k));
        match token_kind(words[k]) {
            TokenKind::Simple => {
                lemma_read_without_operand(
                    words,
                    k + 1,
                    Progress { simple: true, repeated: p.repeated || p.simple, ..p },
                );
            },
            TokenKind::EndOfOptions => {
                if k + 1 < words.len() {
                    assert(operand_at(words, k + 1));
                }
                lemma_read_without_operand(words, k + 1, Progress { operands_only: true, ..p });
            },
            _ => {},
        }
    }
}

/// A line without an operand yields no request.
pub proof fn lemma_no_operand_no_request(words: Seq<Seq<char>>)
    requires
        forall|i: int| 1 <= i < words.len() ==> !operand_at(words, i),
    ensures
        parse_words(words) is Err,
{
    lemma_read_without_operand(words, 1, nothing_read());
}

/// No command line without an operand yields a request, whether it can
/// be split into words or not.
pub proof fn lemma_line_without_operand(line: Seq<char>)
    ensures
        match shell_split(line) {
            Some(words) => (forall|i: int| 1 <= i < words.len() ==> !operand_at(words, i))
                ==> parse_line(line) is Err,
            None => parse_line(line) is Err,
        },
{
    match shell_split(line) {
        Some(words) => {
            if forall|i: int| 1 <= i < words.len() ==> !operand_at(words, i) {
                lemma_no_operand_no_request(words);
            }
        },
        None => {},
    }
}

proof fn lemma_read_keeps_proposal(words: Seq<Seq<char>>, k: int, p: Progress)
    requires
        1 <= k,
    ensures
        read_from(words, k, p) matches Ok(request) ==> {
            &&& request.proposal.len() > 0
            &&& p.proposal matches Some(first) ==> request.proposal == first
            &&& p.proposal is None ==> exists|i: int|
                k <= i < words.len() && request.proposal == #[trigger] words[i]
        },
    decreases words.len() - k,
{
    if k < words.len() {
        let word = words[k];
        let kind = if p.operands_only {
            TokenKind::Operand
        } else {
            token_kind(word)
        };
        match kind {
            TokenKind::Simple => {
                lemma_read_keeps_proposal(
                    words,
                    k + 1,
                    Progress { simple: true, repeated: p.repeated || p.simple, ..p },
                );
            },
            TokenKind::EndOfOptions => {
                lemma_read_keeps_proposal(words, k + 1, Progress { operands_only: true, ..p });
            },
            TokenKind::Operand => {
                if p.proposal is None {
                    lemma_read_keeps_proposal(words, k + 1, Progress { proposal: Some(word), ..p });
                    if read_from(words, k, p) is Ok {
                        assert(read_from(words, k, p)->Ok_0.proposal == words[k]);
                    }
                }
            },
            _ => {},
        }
    }
}

/// The proposal of a request is never empty, and it is one of the words of
/// the line, the command word aside.
pub proof fn lemma_request_holds_a_word(words: Seq<Seq<char>>)
    ensures
        parse_words(words) matches Ok(request) ==> {
            &&& request.proposal.len() > 0
            &&& exists|i: int| 1 <= i < words.len() && request.proposal == #[trigger] words[i]
        },
{
    lemma_read_keeps_proposal(words, 1, nothing_read());
}

/// A line that cannot be split into words yields no request: it yields
/// the error that says so, and no other line yields that error.
pub proof fn lemma_unsplit_line_no_request(line: Seq<char>)
    ensures
        shell_split(line) is None <==> (parse_line(line) matches Err(e) && e is Tokenize),
{
    match shell_split(line) {
        Some(words) => {
            lemma_read_never_tokenize(words, 1, nothing_read());
        },
        None => {},
    }
}

proof fn lemma_read_never_tokenize(words: Seq<Seq<char>>, k: int, p: Progress)
    ensures
        !(read_from(words, k, p) matches Err(e) && e is Tokenize),
    decreases words.len() - k,
{
    if k < words.len() {
        let word = words[k];
        let kind = if p.operands_only {
            TokenKind::Operand
        } else {
            token_kind(word)
        };
        match kind {
            TokenKind::Simple => {
                lemma_read_never_tokenize(
                    words,
                    k + 1,
                    Progress { simple: true, repeated: p.repeated || p.simple, ..p },
                );
            },
            TokenKind::EndOfOptions => {
                lemma_read_never_tokenize(words, k + 1, Progress { operands_only: true, ..p });
            },
            TokenKind::Operand => {
                if p.proposal is None {
                    lemma_read_never_tokenize(words, k + 1, Progress { proposal: Some(word), ..p });
                }
            },
            _ => {},
        }
    }
}

} // verus!
