//! The vote grammar, said without reading order: which lines spell which
//! request.

use vstd::prelude::*;
use crate::request::{
    nothing_read, operand_at, parse_words, read_from, token_kind, Progress, RequestErrorView,
    TokenKind, VoteRequestView,
};

verus! {

/// The word at `i` is read as the simple-vote flag.
pub open spec fn flag_at(words: Seq<Seq<char>>, i: int) -> bool {
    !operand_at(words, i) && token_kind(words[i]) == TokenKind::Simple
}

/// The word at `i` is read as a flag that cannot be accepted: a request for
/// help, or a flag that the command does not know.
pub open spec fn refused_at(words: Seq<Seq<char>>, i: int) -> bool {
    !operand_at(words, i) && (token_kind(words[i]) == TokenKind::Help || token_kind(words[i])
        == TokenKind::Unknown)
}

/// Whether the words of a line, the command word first, spell `request`:
/// no word is refused, exactly one is an operand, which is the proposal and
/// is not empty, and the simple-vote flag stands at most once, and does so
/// where the request is simple.
pub open spec fn spells(words: Seq<Seq<char>>, request: VoteRequestView) -> bool {
    &&& request.proposal.len() > 0
    &&& exists|k: int|
        {
            &&& 1 <= k < words.len()
            &&& #[trigger] operand_at(words, k)
            &&& words[k] == request.proposal
        }
    &&& forall|i: int, j: int|
        1 <= i < j < words.len() ==> !(#[trigger] operand_at(words, i) && #[trigger] operand_at(
            words,
            j,
        ))
    &&& forall|i: int| 1 <= i < words.len() ==> !#[trigger] refused_at(words, i)
    &&& forall|i: int, j: int|
        1 <= i < j < words.len() ==> !(#[trigger] flag_at(words, i) && #[trigger] flag_at(words, j))
    &&& request.simple <==> exists|i: int| 1 <= i < words.len() && #[trigger] flag_at(words, i)
}

/// Whether `p` is what reading the words before index `k` leaves behind.
spec fn describes(words: Seq<Seq<char>>, k: int, p: Progress) -> bool {
    &&& forall|i: int| 1 <= i < k && i < words.len() ==> !#[trigger] refused_at(words, i)
    &&& p.operands_only <==> exists|j: int|
        1 <= j < k && j < words.len() && token_kind(#[trigger] words[j]) == TokenKind::EndOfOptions
    &&& p.simple <==> exists|i: int| 1 <= i < k && i < words.len() && #[trigger] flag_at(words, i)
    &&& p.repeated <==> exists|i: int, j: int|
        1 <= i < j < k && j < words.len() && #[trigger] flag_at(words, i) && #[trigger] flag_at(
            words,
            j,
        )
    &&& match p.proposal {
        None => forall|i: int| 1 <= i < k && i < words.len() ==> !#[trigger] operand_at(words, i),
        Some(first) => exists|m: int|
            {
                &&& 1 <= m < k
                &&& m < words.len()
                &&& #[trigger] operand_at(words, m)
                &&& words[m] == first
                &&& forall|i: int|
                    1 <= i < k && i < words.len() && #[trigger] operand_at(words, i) ==> i == m
            },
    }
}

proof fn lemma_read_spells(words: Seq<Seq<char>>, k: int, p: Progress, request: VoteRequestView)
    requires
        1 <= k,
        describes(words, k, p),
    ensures
        read_from(words, k, p) == Ok::<VoteRequestView, RequestErrorView>(request) <==> spells(
            words,
            request,
        ),
    decreases words.len() - k,
{
    if k >= words.len() {
        match p.proposal {
            None => {},
            Some(first) => {
                let m = choose|m: int|
                    {
                        &&& 1 <= m < k
                        &&& m < words.len()
                        &&& #[trigger] operand_at(words, m)
                        &&& words[m] == first
                        &&& forall|i: int|
                            1 <= i < k && i < words.len() && #[trigger] operand_at(words, i) ==> i
                                == m
                    };
                if spells(words, request) {
                    let q = choose|q: int|
                        {
                            &&& 1 <= q < words.len()
                            &&& #[trigger] operand_at(words, q)
                            &&& words[q] == request.proposal
                        };
                    assert(q == m);
                }
            },
        }
    } else {
        let word = words[k];
        if p.operands_only {
            assert(operand_at(words, k));
        } else {
            assert(operand_at(words, k) <==> token_kind(word) == TokenKind::Operand);
        }
        let kind = if p.operands_only {
            TokenKind::Operand
        } else {
            token_kind(word)
        };
        match kind {
            TokenKind::Simple => {
                let next = Progress { simple: true, repeated: p.repeated || p.simple, ..p };
                assert(flag_at(words, k));
                assert(describes(words, k + 1, next));
                lemma_read_spells(words, k + 1, next, request);
            },
            TokenKind::EndOfOptions => {
                let next = Progress { operands_only: true, ..p };
                assert(describes(words, k + 1, next));
                lemma_read_spells(words, k + 1, next, request);
            },
            TokenKind::Help => {
                assert(refused_at(words, k));
            },
            TokenKind::Unknown => {
                assert(refused_at(words, k));
            },
            TokenKind::Operand => {
                match p.proposal {
                    Some(first) => {
                        let m = choose|m: int|
                            {
                                &&& 1 <= m < k
                                &&& m < words.len()
                                &&& #[trigger] operand_at(words, m)
                                &&& words[m] == first
                                &&& forall|i: int|
                                    1 <= i < k && i < words.len() && #[trigger] operand_at(words, i)
                                        ==> i == m
                            };
                        assert(operand_at(words, m) && operand_at(words, k));
                    },
                    None => {
                        let next = Progress { proposal: Some(word), ..p };
                        assert(describes(words, k + 1, next));
                        lemma_read_spells(words, k + 1, next, request);
                    },
                }
            },
        }
    }
}

/// The word at `i` cannot be accepted: it is refused as a flag, or it is
/// an operand and not the first one.
pub open spec fn offends_at(words: Seq<Seq<char>>, i: int) -> bool {
    ||| refused_at(words, i)
    ||| operand_at(words, i) && exists|j: int| 1 <= j < i && #[trigger] operand_at(words, j)
}

/// The error that an offending word stands for.
pub open spec fn offence(words: Seq<Seq<char>>, i: int) -> RequestErrorView {
    if operand_at(words, i) {
        RequestErrorView::UnexpectedArgument { argument: words[i] }
    } else if token_kind(words[i]) == TokenKind::Help {
        RequestErrorView::HelpRequested
    } else {
        RequestErrorView::UnknownFlag { flag: words[i] }
    }
}

/// The verdict on a line without an offending word: it lacks its proposal,
/// or its proposal is empty, or the flag stands twice, or it spells a
/// request.
pub open spec fn verdict(words: Seq<Seq<char>>) -> Result<VoteRequestView, RequestErrorView> {
    if forall|i: int| 1 <= i < words.len() ==> !#[trigger] operand_at(words, i) {
        Err(RequestErrorView::MissingProposal)
    } else {
        let k = choose|k: int| 1 <= k < words.len() && #[trigger] operand_at(words, k);
        if words[k].len() == 0 {
            Err(RequestErrorView::EmptyProposal)
        } else if exists|i: int, j: int|
            1 <= i < j < words.len() && #[trigger] flag_at(words, i) && #[trigger] flag_at(words, j) {
            Err(RequestErrorView::RepeatedFlag)
        } else {
            Ok(
                VoteRequestView {
                    simple: exists|i: int| 1 <= i < words.len() && #[trigger] flag_at(words, i),
                    proposal: words[k],
                },
            )
        }
    }
}

proof fn lemma_read_to_offence(words: Seq<Seq<char>>, m: int, p: Progress, k: int)
    requires
        1 <= m <= k < words.len(),
        describes(words, m, p),
        offends_at(words, k),
        forall|i: int| 1 <= i < k ==> !#[trigger] offends_at(words, i),
    ensures
        read_from(words, m, p) == Err::<VoteRequestView, RequestErrorView>(offence(words, k)),
    decreases k - m,
{
    let word = words[m];
    if p.operands_only {
        assert(operand_at(words, m));
    } else {
        assert(operand_at(words, m) <==> token_kind(word) == TokenKind::Operand);
    }
    if m < k {
        assert(!offends_at(words, m));
        let kind = if p.operands_only {
            TokenKind::Operand
        } else {
            token_kind(word)
        };
        match kind {
            TokenKind::Simple => {
                let next = Progress { simple: true, repeated: p.repeated || p.simple, ..p };
                assert(flag_at(words, m));
                assert(describes(words, m + 1, next));
                lemma_read_to_offence(words, m + 1, next, k);
            },
            TokenKind::EndOfOptions => {
                let next = Progress { operands_only: true, ..p };
                assert(describes(words, m + 1, next));
                lemma_read_to_offence(words, m + 1, next, k);
            },
            TokenKind::Operand => {
                let next = Progress { proposal: Some(word), ..p };
                assert(describes(words, m + 1, next));
                lemma_read_to_offence(words, m + 1, next, k);
            },
            _ => {
                assert(refused_at(words, m));
            },
        }
    }
}

/// The first word that cannot be accepted decides the error.
pub proof fn lemma_first_offence_decides(words: Seq<Seq<char>>, k: int)
    requires
        1 <= k < words.len(),
        offends_at(words, k),
        forall|i: int| 1 <= i < k ==> !#[trigger] offends_at(words, i),
    ensures
        parse_words(words) == Err::<VoteRequestView, RequestErrorView>(offence(words, k)),
{
    lemma_read_to_offence(words, 1, nothing_read(), k);
}

proof fn lemma_read_to_end(words: Seq<Seq<char>>, m: int, p: Progress)
    requires
        1 <= m,
        describes(words, m, p),
        forall|i: int| 1 <= i < words.len() ==> !#[trigger] offends_at(words, i),
    ensures
        read_from(words, m, p) == verdict(words),
    decreases words.len() - m,
{
    if m >= words.len() {
        if !(forall|i: int| 1 <= i < words.len() ==> !#[trigger] operand_at(words, i)) {
            let k = choose|k: int| 1 <= k < words.len() && #[trigger] operand_at(words, k);
            assert(!offends_at(words, k));
            match p.proposal {
                None => {},
                Some(first) => {
                    let f = choose|f: int|
                        {
                            &&& 1 <= f < m
                            &&& f < words.len()
                            &&& #[trigger] operand_at(words, f)
                            &&& words[f] == first
                            &&& forall|i: int|
                                1 <= i < m && i < words.len() && #[trigger] operand_at(words, i)
                                    ==> i == f
                        };
                    assert(f == k);
                },
            }
        }
    } else {
        let word = words[m];
        if p.operands_only {
            assert(operand_at(words, m));
        } else {
            assert(operand_at(words, m) <==> token_kind(word) == TokenKind::Operand);
        }
        assert(!offends_at(words, m));
        let kind = if p.operands_only {
            TokenKind::Operand
        } else {
            token_kind(word)
        };
        match kind {
            TokenKind::Simple => {
                let next = Progress { simple: true, repeated: p.repeated || p.simple, ..p };
                assert(flag_at(words, m));
                assert(describes(words, m + 1, next));
                lemma_read_to_end(words, m + 1, next);
            },
            TokenKind::EndOfOptions => {
                let next = Progress { operands_only: true, ..p };
                assert(describes(words, m + 1, next));
                lemma_read_to_end(words, m + 1, next);
            },
            TokenKind::Operand => {
                let next = Progress { proposal: Some(word), ..p };
                assert(describes(words, m + 1, next));
                lemma_read_to_end(words, m + 1, next);
            },
            _ => {
                assert(refused_at(words, m));
            },
        }
    }
}

/// A line without an offending word is judged as a whole.
pub proof fn lemma_unoffending_line(words: Seq<Seq<char>>)
    requires
        forall|i: int| 1 <= i < words.len() ==> !#[trigger] offends_at(words, i),
    ensures
        parse_words(words) == verdict(words),
{
    lemma_read_to_end(words, 1, nothing_read());
}

/// The words of a line yield a request exactly where they spell it.
pub proof fn lemma_accepted_lines(words: Seq<Seq<char>>, request: VoteRequestView)
    ensures
        parse_words(words) == Ok::<VoteRequestView, RequestErrorView>(request) <==> spells(
            words,
            request,
        ),
{
    lemma_read_spells(words, 1, nothing_read(), request);
}

} // verus!
