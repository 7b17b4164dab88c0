use zsh_bot::request::{
    classify, parse_args, parse_tokens, RequestError, TokenKind, VoteRequest, HELP, USAGE,
};

fn words(list: &[&str]) -> Vec<String> {
    list.iter().map(|w| w.to_string()).collect()
}

fn request(simple: bool, proposal: &str) -> VoteRequest {
    VoteRequest { simple, proposal: proposal.to_string() }
}

#[test]
fn simple_vote_with_quoted_proposal() {
    assert_eq!(parse_args("vote -s \"Pizza Friday?\""), Ok(request(true, "Pizza Friday?")));
}

#[test]
fn consensus_vote_with_quoted_proposal() {
    assert_eq!(parse_args("vote \"Adopt RFC 9\""), Ok(request(false, "Adopt RFC 9")));
}

#[test]
fn long_flag_selects_simple() {
    assert_eq!(parse_args("vote --simple lunch"), Ok(request(true, "lunch")));
}

#[test]
fn flag_may_follow_the_proposal() {
    assert_eq!(parse_args("vote lunch -s"), Ok(request(true, "lunch")));
    assert_eq!(parse_args("vote lunch --simple"), Ok(request(true, "lunch")));
}

#[test]
fn command_word_is_never_read() {
    assert_eq!(parse_args("./vote lunch"), Ok(request(false, "lunch")));
    assert_eq!(parse_args("-s lunch"), Ok(request(false, "lunch")));
    assert_eq!(parse_args("--help lunch"), Ok(request(false, "lunch")));
    assert_eq!(parse_args("lunch"), Err(RequestError::MissingProposal));
}

#[test]
fn missing_proposal_is_an_error() {
    assert_eq!(parse_args("vote"), Err(RequestError::MissingProposal));
    assert_eq!(parse_args("vote -s"), Err(RequestError::MissingProposal));
    assert_eq!(parse_args("vote --simple"), Err(RequestError::MissingProposal));
    assert_eq!(parse_args("vote --"), Err(RequestError::MissingProposal));
    assert_eq!(parse_args("vote -s -s"), Err(RequestError::MissingProposal));
}

#[test]
fn empty_line_has_no_proposal() {
    assert_eq!(parse_args(""), Err(RequestError::MissingProposal));
    assert_eq!(parse_args("   \t\n"), Err(RequestError::MissingProposal));
    assert_eq!(parse_tokens(&Vec::new()), Err(RequestError::MissingProposal));
}

#[test]
fn empty_proposal_is_an_error() {
    assert_eq!(parse_args("vote \"\""), Err(RequestError::EmptyProposal));
    assert_eq!(parse_args("vote -s ''"), Err(RequestError::EmptyProposal));
    assert_eq!(parse_tokens(&words(&["vote", ""])), Err(RequestError::EmptyProposal));
}

#[test]
fn unterminated_double_quote_is_a_tokenize_error() {
    assert_eq!(
        parse_args("vote \"unterminated"),
        Err(RequestError::Tokenize { detail: "missing closing quote".to_string() })
    );
}

#[test]
fn unterminated_single_quote_is_a_tokenize_error() {
    assert_eq!(
        parse_args("vote 'unterminated"),
        Err(RequestError::Tokenize { detail: "missing closing quote".to_string() })
    );
}

#[test]
fn quote_cut_short_after_backslash_is_a_tokenize_error() {
    assert_eq!(
        parse_args("vote \"a\\"),
        Err(RequestError::Tokenize { detail: "missing closing quote".to_string() })
    );
}

#[test]
fn tokenize_error_wins_over_everything_else() {
    assert!(matches!(parse_args("vote -h -x a b \"c"), Err(RequestError::Tokenize { .. })));
}

#[test]
fn quotes_and_backslashes_are_removed() {
    assert_eq!(parse_args("vote 'a b'"), Ok(request(false, "a b")));
    assert_eq!(parse_args("vote a\\ b"), Ok(request(false, "a b")));
    assert_eq!(parse_args("vote \"say \\\"hi\\\"\""), Ok(request(false, "say \"hi\"")));
    assert_eq!(parse_args("vote a'b'\"c\""), Ok(request(false, "abc")));
}

#[test]
fn comment_ends_the_line() {
    assert_eq!(parse_args("vote lunch # today"), Ok(request(false, "lunch")));
    assert_eq!(parse_args("vote # lunch"), Err(RequestError::MissingProposal));
}

#[test]
fn unquoted_words_are_separate_operands() {
    assert_eq!(
        parse_args("vote Pizza Friday?"),
        Err(RequestError::UnexpectedArgument { argument: "Friday?".to_string() })
    );
    assert_eq!(
        parse_args("vote -s a b c"),
        Err(RequestError::UnexpectedArgument { argument: "b".to_string() })
    );
}

#[test]
fn unknown_flags_are_errors() {
    assert_eq!(
        parse_args("vote -x lunch"),
        Err(RequestError::UnknownFlag { flag: "-x".to_string() })
    );
    assert_eq!(
        parse_args("vote lunch --fast"),
        Err(RequestError::UnknownFlag { flag: "--fast".to_string() })
    );
    assert_eq!(
        parse_args("vote -V"),
        Err(RequestError::UnknownFlag { flag: "-V".to_string() })
    );
    assert_eq!(
        parse_args("vote --simple=yes lunch"),
        Err(RequestError::UnknownFlag { flag: "--simple=yes".to_string() })
    );
    assert_eq!(
        parse_args("vote -ss lunch"),
        Err(RequestError::UnknownFlag { flag: "-ss".to_string() })
    );
    assert_eq!(
        parse_args("vote -S lunch"),
        Err(RequestError::UnknownFlag { flag: "-S".to_string() })
    );
}

#[test]
fn help_is_reported_as_an_error() {
    assert_eq!(parse_args("vote -h"), Err(RequestError::HelpRequested));
    assert_eq!(parse_args("vote --help"), Err(RequestError::HelpRequested));
    assert_eq!(parse_args("vote lunch -s --help"), Err(RequestError::HelpRequested));
}

#[test]
fn first_offending_word_decides() {
    assert_eq!(
        parse_args("vote -x -h"),
        Err(RequestError::UnknownFlag { flag: "-x".to_string() })
    );
    assert_eq!(parse_args("vote -h -x"), Err(RequestError::HelpRequested));
    assert_eq!(
        parse_args("vote a b -h"),
        Err(RequestError::UnexpectedArgument { argument: "b".to_string() })
    );
    assert_eq!(parse_args("vote a -h b"), Err(RequestError::HelpRequested));
}

#[test]
fn repeated_flag_is_an_error() {
    assert_eq!(parse_args("vote -s -s lunch"), Err(RequestError::RepeatedFlag));
    assert_eq!(parse_args("vote -s lunch --simple"), Err(RequestError::RepeatedFlag));
    assert_eq!(parse_args("vote lunch -s -s -s"), Err(RequestError::RepeatedFlag));
}

#[test]
fn end_of_options_protects_the_proposal() {
    assert_eq!(parse_args("vote -- -s"), Ok(request(false, "-s")));
    assert_eq!(parse_args("vote -s -- --help"), Ok(request(true, "--help")));
    assert_eq!(parse_args("vote -- --"), Ok(request(false, "--")));
    assert_eq!(
        parse_args("vote -- a -s"),
        Err(RequestError::UnexpectedArgument { argument: "-s".to_string() })
    );
    assert_eq!(parse_args("vote a --"), Ok(request(false, "a")));
}

#[test]
fn lone_dash_is_an_operand() {
    assert_eq!(parse_args("vote -"), Ok(request(false, "-")));
    assert_eq!(parse_args("vote -s -"), Ok(request(true, "-")));
}

#[test]
fn proposal_is_kept_verbatim() {
    assert_eq!(
        parse_args("vote '  \u{2705} caf\u{e9}\tna\u{ef}ve  '"),
        Ok(request(false, "  \u{2705} caf\u{e9}\tna\u{ef}ve  "))
    );
}

#[test]
fn parse_tokens_reads_words_as_given() {
    assert_eq!(parse_tokens(&words(&["vote", "a b", "-s"])), Ok(request(true, "a b")));
    assert_eq!(parse_tokens(&words(&["vote"])), Err(RequestError::MissingProposal));
    assert_eq!(
        parse_tokens(&words(&["vote", "--", "", "x"])),
        Err(RequestError::UnexpectedArgument { argument: "x".to_string() })
    );
}

#[test]
fn words_are_classified() {
    assert_eq!(classify("-s"), TokenKind::Simple);
    assert_eq!(classify("--simple"), TokenKind::Simple);
    assert_eq!(classify("-h"), TokenKind::Help);
    assert_eq!(classify("--help"), TokenKind::Help);
    assert_eq!(classify("--"), TokenKind::EndOfOptions);
    assert_eq!(classify("-x"), TokenKind::Unknown);
    assert_eq!(classify("--simple "), TokenKind::Unknown);
    assert_eq!(classify("---"), TokenKind::Unknown);
    assert_eq!(classify("-\u{2705}"), TokenKind::Unknown);
    assert_eq!(classify(""), TokenKind::Operand);
    assert_eq!(classify("-"), TokenKind::Operand);
    assert_eq!(classify("s"), TokenKind::Operand);
    assert_eq!(classify("a-b"), TokenKind::Operand);
    assert_eq!(classify("\u{2705}"), TokenKind::Operand);
}

#[test]
fn tokenize_message_quotes_the_splitter() {
    let e = parse_args("vote \"unterminated").unwrap_err();
    assert_eq!(e.message(), "Parsing Error: missing closing quote");
}

#[test]
fn usage_errors_end_with_the_usage() {
    assert_eq!(
        USAGE,
        "\n\nUSAGE:\n    vote [FLAGS] <PROPOSAL>\n\nFor more information try --help"
    );
    assert_eq!(
        RequestError::MissingProposal.message(),
        format!(
            "error: The following required arguments were not provided:\n    <PROPOSAL>{}",
            USAGE
        )
    );
    assert_eq!(
        RequestError::EmptyProposal.message(),
        format!("error: The argument '<PROPOSAL>' requires a value but none was supplied{}", USAGE)
    );
    assert_eq!(
        RequestError::RepeatedFlag.message(),
        format!(
            "error: The argument '--simple' was provided more than once, but cannot be used multiple times{}",
            USAGE
        )
    );
}

#[test]
fn unexpected_words_are_named_in_the_message() {
    assert_eq!(
        RequestError::UnknownFlag { flag: "-x".to_string() }.message(),
        format!(
            "error: Found argument '-x' which wasn't expected, or isn't valid in this context{}",
            USAGE
        )
    );
    assert_eq!(
        RequestError::UnexpectedArgument { argument: "Friday?".to_string() }.message(),
        format!(
            "error: Found argument 'Friday?' which wasn't expected, or isn't valid in this context{}",
            USAGE
        )
    );
}

#[test]
fn help_message_is_the_help_text() {
    assert_eq!(RequestError::HelpRequested.message(), HELP);
    assert!(HELP.starts_with("vote\n\nUSAGE:\n    vote [FLAGS] <PROPOSAL>\n"));
    assert!(HELP.contains("-s, --simple"));
    assert!(HELP.contains("-h, --help"));
}
