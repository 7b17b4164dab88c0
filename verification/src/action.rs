//! The outbound operations that answer a message.

use vstd::prelude::*;
use crate::template::{ReplySpec, ReplySpecView};

verus! {

/// The label above the options in a panel that opens a vote.
pub const OPTIONS_LABEL: &'static str = "Voting options:";

/// One operation for the chat client to carry out.
#[derive(Debug, Clone, PartialEq, Eq)]
pub enum Action {
    /// Reply to the triggering message with plain text.
    ReplyText { text: String },
    /// Send a panel to the channel of the triggering message: a title, a
    /// description, and one labelled field.
    SendRich { title: String, description: String, field_label: String, field_value: String },
    /// Attach a reaction to the panel that was sent.
    React { emoji: char },
}

/// The mathematical value of an [`Action`]. A reaction stands in it as its
/// code point.
pub enum ActionView {
    ReplyText { text: Seq<char> },
    SendRich {
        title: Seq<char>,
        description: Seq<char>,
        field_label: Seq<char>,
        field_value: Seq<char>,
    },
    React { emoji: int },
}

impl View for Action {
    type V = ActionView;

    open spec fn view(&self) -> ActionView {
        match self {
            Action::ReplyText { text } => ActionView::ReplyText { text: text@ },
            Action::SendRich { title, description, field_label, field_value } => ActionView::SendRich {
                title: title@,
                description: description@,
                field_label: field_label@,
                field_value: field_value@,
            },
            Action::React { emoji } => ActionView::React { emoji: *emoji as int },
        }
    }
}

impl Action {
    /// The operation that attaches `emoji`.
    pub fn react(emoji: char) -> (action: Action)
        ensures
            action@ == (ActionView::React { emoji: emoji as int }),
    {
        Action::React { emoji }
    }
}

/// The values of a sequence of actions, in order.
pub open spec fn script_view(actions: Seq<Action>) -> Seq<ActionView> {
    Seq::new(actions.len(), |i: int| actions[i]@)
}

/// The panel of a reply.
pub open spec fn panel(reply: ReplySpecView) -> ActionView {
    ActionView::SendRich {
        title: reply.title,
        description: reply.description,
        field_label: OPTIONS_LABEL@,
        field_value: reply.options_text,
    }
}

/// The operations that deliver a reply: the panel first, then one
/// reaction after the other, in the order of the reply.
pub open spec fn delivery(reply: ReplySpecView) -> Seq<ActionView> {
    seq![panel(reply)] + Seq::new(
        reply.reactions.len(),
        |i: int| ActionView::React { emoji: reply.reactions[i] as int },
    )
}

/// The operation that answers with plain text, and does nothing else.
pub open spec fn plain_answer(text: Seq<char>) -> Seq<ActionView> {
    seq![ActionView::ReplyText { text }]
}

/// Lays out the operations that deliver `reply`.
pub fn deliver(reply: ReplySpec) -> (script: Vec<Action>)
    ensures
        script_view(script@) == delivery(reply@),
{
    let ghost wanted = reply@;
    let ReplySpec { title, description, options_text, reactions } = reply;
    let mut script: Vec<Action> = Vec::new();
    script.push(
        Action::SendRich {
            title,
            description,
            field_label: OPTIONS_LABEL.to_owned(),
            field_value: options_text,
        },
    );
    let mut i: usize = 0;
    while i < reactions.len()
        invariant
            i <= reactions.len(),
            reactions@ == wanted.reactions,
            script.len() == i + 1,
            script[0]@ == panel(wanted),
            forall|j: int|
                0 <= j < i ==> script[j + 1]@ == (ActionView::React { emoji: reactions[j] as int }),
        decreases reactions.len() - i,
    {
        script.push(Action::react(reactions[i]));
        i += 1;
    }
    assert(script_view(script@) =~= delivery(wanted)) by {
        assert forall|k: int| 0 <= k < script.len() implies script_view(script@)[k] == delivery(
            wanted,
        )[k] by {
            if k > 0 {
                assert(script[(k - 1) + 1]@ == (ActionView::React {
                    emoji: reactions[k - 1] as int,
                }));
            }
        }
    }
    script
}

/// Lays out the one operation that answers with `text`.
pub fn answer_plainly(text: String) -> (script: Vec<Action>)
    ensures
        script_view(script@) == plain_answer(text@),
{
    let mut script: Vec<Action> = Vec::new();
    script.push(Action::ReplyText { text });
    script
}

} // verus!
