//! Carrying out the answer to one message, one operation after the other.
//!
//! The library decides what is to be done and in which order; the caller
//! does it and reports how each operation went. The operations of a script
//! are offered strictly in order. The first failure ends the script: what
//! was done stays done, and nothing more is offered.

use vstd::prelude::*;
use crate::action::{panel, script_view, Action, ActionView};
use crate::command::{answer, handle, vote_response};
use crate::request::{RequestErrorView, VoteRequestView};
use crate::template::{reply_to, ReactionTemplate};

verus! {

/// The state of carrying out a script.
#[derive(Debug)]
pub struct Dispatch {
    script: Vec<Action>,
    performed: usize,
    aborted: bool,
}

/// The mathematical value of a [`Dispatch`].
pub struct DispatchView {
    /// The operations to carry out, in order.
    pub script: Seq<ActionView>,
    /// How many of them were carried out.
    pub performed: nat,
    /// Whether one of them failed.
    pub aborted: bool,
}

impl DispatchView {
    /// The state in which nothing of `script` was carried out yet.
    pub open spec fn start(script: Seq<ActionView>) -> DispatchView {
        DispatchView { script, performed: 0, aborted: false }
    }

    /// No more was carried out than the script holds.
    pub open spec fn wf(self) -> bool {
        self.performed <= self.script.len()
    }

    /// The operation to carry out next, if any is left and none failed.
    pub open spec fn pending(self) -> Option<ActionView> {
        if self.aborted || self.performed >= self.script.len() {
            None
        } else {
            Some(self.script[self.performed as int])
        }
    }

    /// The state after the pending operation succeeded or failed. Where
    /// nothing is pending, nothing changes.
    pub open spec fn after(self, succeeded: bool) -> DispatchView {
        if self.pending() is None {
            self
        } else if succeeded {
            DispatchView { performed: self.performed + 1, ..self }
        } else {
            DispatchView { aborted: true, ..self }
        }
    }

    /// The operations that are offered, in order, while the outcomes of
    /// carrying them out come in as `outcomes` says.
    pub open spec fn offered(self, outcomes: Seq<bool>) -> Seq<ActionView>
        decreases outcomes.len(),
    {
        if outcomes.len() == 0 {
            Seq::empty()
        } else {
            match self.pending() {
                None => Seq::empty(),
                Some(action) => seq![action] + self.after(outcomes[0]).offered(outcomes.skip(1)),
            }
        }
    }
}

/// The value of an optional action.
pub open spec fn optional_action(action: Option<&Action>) -> Option<ActionView> {
    match action {
        Some(action) => Some(action@),
        None => None,
    }
}

impl View for Dispatch {
    type V = DispatchView;

    closed spec fn view(&self) -> DispatchView {
        DispatchView {
            script: script_view(self.script@),
            performed: self.performed as nat,
            aborted: self.aborted,
        }
    }
}

impl Dispatch {
    #[verifier::type_invariant]
    spec fn within_script(self) -> bool {
        self.performed <= self.script.len()
    }

    /// Starts on `script`.
    pub fn new(script: Vec<Action>) -> (dispatch: Dispatch)
        ensures
            dispatch@ == DispatchView::start(script_view(script@)),
    {
        Dispatch { script, performed: 0, aborted: false }
    }

    /// Starts on the answer to the message `content`, for commands under
    /// `prefix`.
    pub fn begin(prefix: &str, content: &str) -> (dispatch: Dispatch)
        ensures
            dispatch@ == DispatchView::start(answer(prefix@, content@)),
    {
        Dispatch::new(handle(prefix, content))
    }

    /// The operation to carry out next, if any.
    pub fn next_action(&self) -> (next: Option<&Action>)
        ensures
            self@.wf(),
            optional_action(next) == self@.pending(),
    {
        proof {
            use_type_invariant(self);
        }
        if self.aborted || self.performed >= self.script.len() {
            None
        } else {
            Some(&self.script[self.performed])
        }
    }

    /// Takes note of how the pending operation went.
    pub fn record(&mut self, succeeded: bool)
        ensures
            final(self)@ == old(self)@.after(succeeded),
            final(self)@.wf(),
    {
        proof {
            use_type_invariant(&*self);
        }
        if !self.aborted && self.performed < self.script.len() {
            if succeeded {
                self.performed = self.performed + 1;
            } else {
                self.aborted = true;
            }
        }
    }

    /// How many operations were carried out.
    pub fn performed(&self) -> (n: usize)
        ensures
            n == self@.performed,
            n <= self@.script.len(),
    {
        proof {
            use_type_invariant(self);
        }
        self.performed
    }

    /// Whether an operation failed, so that the rest was given up.
    pub fn has_failed(&self) -> (failed: bool)
        ensures
            failed == self@.aborted,
    {
        self.aborted
    }

    /// Whether the whole script was carried out.
    pub fn is_complete(&self) -> (complete: bool)
        ensures
            complete == (!self@.aborted && self@.performed == self@.script.len()),
    {
        proof {
            use_type_invariant(self);
        }
        !self.aborted && self.performed == self.script.len()
    }
}

/// Whatever the outcomes, what is offered is an initial piece of what is
/// left of the script: nothing is skipped, repeated or reordered. A state
/// in which an operation has failed offers nothing.
pub proof fn lemma_offered_follows_script(state: DispatchView, outcomes: Seq<bool>)
    requires
        state.wf(),
    ensures
        state.offered(outcomes).is_prefix_of(state.script.skip(state.performed as int)),
        state.aborted ==> state.offered(outcomes).len() == 0,
    decreases outcomes.len(),
{
    let left = state.script.skip(state.performed as int);
    if outcomes.len() > 0 && state.pending() is Some {
        let next = state.after(outcomes[0]);
        lemma_offered_follows_script(next, outcomes.skip(1));
        let more = next.offered(outcomes.skip(1));
        assert(state.offered(outcomes) == seq![left[0]] + more);
        if outcomes[0] {
            assert(left.skip(1) =~= state.script.skip(next.performed as int));
            assert forall|i: int| 0 <= i < more.len() implies more[i] == left[i + 1] by {
                assert(more[i] == left.skip(1).subrange(0, more.len() as int)[i]);
            }
        }
        assert(state.offered(outcomes) =~= left.subrange(0, state.offered(outcomes).len() as int));
    } else {
        assert(state.offered(outcomes) =~= left.subrange(0, 0));
    }
}

/// Where every operation succeeds and outcomes keep coming in, the whole
/// script is offered.
pub proof fn lemma_success_offers_all(state: DispatchView, outcomes: Seq<bool>)
    requires
        state.wf(),
        !state.aborted,
        outcomes.len() >= state.script.len() - state.performed,
        forall|i: int| 0 <= i < outcomes.len() ==> outcomes[i],
    ensures
        state.offered(outcomes) == state.script.skip(state.performed as int),
    decreases outcomes.len(),
{
    if outcomes.len() > 0 && state.pending() is Some {
        lemma_success_offers_all(state.after(outcomes[0]), outcomes.skip(1));
    }
    assert(state.offered(outcomes) =~= state.script.skip(state.performed as int));
}

/// The reactions of a vote are offered in the order of its template: in
/// every run of the answer to a vote request, the panel comes first and the
/// operation after `i` others attaches the template's reaction `i - 1`.
pub proof fn lemma_reactions_in_template_order(request: VoteRequestView, outcomes: Seq<bool>)
    ensures
        ({
            let template = ReactionTemplate::chosen_by(request.simple);
            let script = vote_response(Ok::<VoteRequestView, RequestErrorView>(request));
            let offered = DispatchView::start(script).offered(outcomes);
            &&& script.len() == 1 + template.reaction_seq().len()
            &&& offered.len() <= script.len()
            &&& offered.len() > 0 ==> offered[0] == panel(reply_to(request))
            &&& forall|i: int|
                1 <= i < offered.len() ==> offered[i] == (ActionView::React {
                    emoji: template.reaction_seq()[i - 1] as int,
                })
        }),
{
    let script = vote_response(Ok::<VoteRequestView, RequestErrorView>(request));
    let offered = DispatchView::start(script).offered(outcomes);
    lemma_offered_follows_script(DispatchView::start(script), outcomes);
    assert(script.skip(0) =~= script);
    assert forall|i: int| 0 <= i < offered.len() implies offered[i] == script[i] by {
        assert(offered[i] == script.subrange(0, offered.len() as int)[i]);
    }
}

} // verus!
