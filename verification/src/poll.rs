//! Poll content construction: start blocks with fresh answer ids, the
//! plain-text fallback rendering, and response / end payloads.

use vstd::prelude::*;

use crate::decimal::spec_decimal;
use crate::decimal::u64_to_decimal;

verus! {

/// The largest number of answers a poll start block accepts.
pub const MAX_POLL_ANSWERS: usize = 20;

/// How poll votes are disclosed while the poll is open.
#[derive(Clone, Copy, Debug, PartialEq, Eq, Structural)]
pub enum PollKind {
    Disclosed,
    Undisclosed,
}

/// The caller-supplied description of a poll.
#[derive(Clone, Debug, PartialEq)]
pub struct PollData {
    pub question: String,
    pub answers: Vec<String>,
    pub max_selections: u8,
    pub poll_kind: PollKind,
}

/// One answer of a poll start block, carrying its generated id.
#[derive(Clone, Debug, PartialEq)]
pub struct PollAnswer {
    pub id: String,
    pub text: String,
}

/// The structured poll start block: the question and the answers with their
/// generated, collision-free ids.
#[derive(Clone, Debug, PartialEq)]
pub struct PollStartContentBlock {
    pub question: String,
    pub answers: Vec<PollAnswer>,
    pub kind: PollKind,
    pub max_selections: u8,
}

/// A poll start event payload: the structured block plus the plain-text
/// fallback for clients that cannot render structured polls.
#[derive(Clone, Debug, PartialEq)]
pub struct PollStartEventContent {
    pub fallback_text: String,
    pub block: PollStartContentBlock,
}

/// A poll response payload, addressed to the poll's start event.
#[derive(Clone, Debug, PartialEq)]
pub struct PollResponseContent {
    pub poll_start_event_id: String,
    pub answers: Vec<String>,
}

/// A poll end payload, addressed to the poll's start event.
#[derive(Clone, Debug, PartialEq)]
pub struct PollEndContent {
    pub poll_start_event_id: String,
    pub text: String,
}

/// One numbered line of the fallback rendering.
pub open spec fn spec_poll_line(number: nat, answer: Seq<char>) -> Seq<char> {
    seq!['\n'] + spec_decimal(number) + ". "@ + answer
}

/// The numbered lines for `answers`, the first line carrying `start`.
pub open spec fn spec_fallback_lines(answers: Seq<Seq<char>>, start: nat) -> Seq<char>
    decreases answers.len(),
{
    if answers.len() == 0 {
        Seq::empty()
    } else {
        spec_poll_line(start, answers[0]) + spec_fallback_lines(answers.drop_first(), start + 1)
    }
}

/// The whole fallback rendering: the question, then one numbered line per
/// answer, 1-based.
pub open spec fn spec_fallback_text(question: Seq<char>, answers: Seq<Seq<char>>) -> Seq<char> {
    question + spec_fallback_lines(answers, 1)
}

proof fn lemma_fallback_lines_snoc(answers: Seq<Seq<char>>, x: Seq<char>, start: nat)
    ensures
        spec_fallback_lines(answers.push(x), start) == spec_fallback_lines(answers, start)
            + spec_poll_line(start + answers.len(), x),
    decreases answers.len(),
{
    if answers.len() == 0 {
        assert(answers.push(x)[0] == x);
        assert(answers.push(x).drop_first() =~= Seq::<Seq<char>>::empty());
        assert(spec_fallback_lines(answers.push(x), start) == spec_poll_line(start, x)
            + spec_fallback_lines(Seq::<Seq<char>>::empty(), start + 1));
        assert(spec_poll_line(start, x) + Seq::<char>::empty() =~= spec_poll_line(start, x));
        assert(Seq::<char>::empty() + spec_poll_line(start, x) =~= spec_poll_line(start, x));
    } else {
        let rest = answers.drop_first();
        assert(answers.push(x)[0] == answers[0]);
        assert(answers.push(x).drop_first() =~= rest.push(x));
        assert(spec_fallback_lines(answers.push(x), start) == spec_poll_line(start, answers[0])
            + spec_fallback_lines(rest.push(x), start + 1));
        lemma_fallback_lines_snoc(rest, x, start + 1);
        assert(start + 1 + rest.len() == start + answers.len());
        assert((spec_poll_line(start, answers[0]) + spec_fallback_lines(rest, start + 1))
            + spec_poll_line(start + answers.len(), x) =~= spec_poll_line(start, answers[0]) + (
        spec_fallback_lines(rest, start + 1) + spec_poll_line(start + answers.len(), x)));
    }
}

impl PollData {
    /// The plain-text fallback rendering: the question, then a numbered
    /// list with one answer per line, 1-based.
    pub fn fallback_text(&self) -> (r: String)
        ensures
            r@ == spec_fallback_text(self.question@, self.answers.deep_view()),
    {
        let ghost answer_views: Seq<Seq<char>> = self.answers.deep_view();
        let mut acc = self.question.clone();
        proof {
            assert(answer_views.take(0) =~= Seq::<Seq<char>>::empty());
            assert(acc@ =~= spec_fallback_text(self.question@, answer_views.take(0)));
        }
        let mut i: usize = 0;
        while i < self.answers.len()
            invariant
                i <= self.answers.len(),
                answer_views == self.answers.deep_view(),
                answer_views.len() == self.answers.len(),
                acc@ == spec_fallback_text(self.question@, answer_views.take(i as int)),
            decreases self.answers.len() - i,
        {
            acc.append("\n");
            let number = u64_to_decimal((i as u64) + 1);
            acc.append(number.as_str());
            acc.append(". ");
            acc.append(self.answers[i].as_str());
            proof {
                reveal_strlit("\n");
                reveal_strlit(". ");
                lemma_fallback_lines_snoc(answer_views.take(i as int), answer_views[i as int], 1);
                assert(answer_views.take(i + 1) =~= answer_views.take(i as int).push(
                    answer_views[i as int],
                ));
                assert(self.answers@[i as int]@ == answer_views[i as int]);
                assert(acc@ =~= spec_fallback_text(self.question@, answer_views.take(i + 1)));
            }
            i += 1;
        }
        proof {
            assert(answer_views.take(self.answers.len() as int) =~= answer_views);
        }
        acc
    }

    /// Builds the structured start block, generating one fresh answer id per
    /// answer. Fails when the answer list is empty or longer than
    /// [`MAX_POLL_ANSWERS`].
    pub fn start_block(&self) -> (r: Result<PollStartContentBlock, crate::error::ClientError>)
        ensures
            r is Ok <==> 1 <= self.answers@.len() <= MAX_POLL_ANSWERS,
            r matches Ok(b) ==> {
                &&& b.question@ == self.question@
                &&& b.kind == self.poll_kind
                &&& b.max_selections == self.max_selections
                &&& b.answers@.len() == self.answers@.len()
                &&& forall|i: int|
                    0 <= i < b.answers@.len() ==> (#[trigger] b.answers@[i]).text@
                        == self.answers@[i]@ && b.answers@[i].id@.len() == 36
            },
            r matches Err(e) ==> e is Generic,
    {
        if self.answers.len() < 1 || self.answers.len() > MAX_POLL_ANSWERS {
            return Err(
                crate::error::ClientError::Generic {
                    message: String::from_str("Failed to create poll answers"),
                },
            );
        }
        let mut answers: Vec<PollAnswer> = Vec::new();
        let mut i: usize = 0;
        while i < self.answers.len()
            invariant
                i <= self.answers.len(),
                answers@.len() == i,
                forall|j: int|
                    0 <= j < i ==> (#[trigger] answers@[j]).text@ == self.answers@[j]@
                        && answers@[j].id@.len() == 36,
            decreases self.answers.len() - i,
        {
            let answer = PollAnswer { id: fresh_answer_id(), text: self.answers[i].clone() };
            answers.push(answer);
            i += 1;
        }
        Ok(
            PollStartContentBlock {
                question: self.question.clone(),
                answers,
                kind: self.poll_kind,
                max_selections: self.max_selections,
            },
        )
    }
}


/// New content for an edit: a replacement message, or a replacement poll.
#[derive(Clone, Debug, PartialEq)]
pub enum EditedContent {
    RoomMessage { content: crate::content::MessageContent },
    PollStart { poll_data: PollData },
}

/// An edit payload ready for the collaborator: a poll edit carries the
/// rebuilt start block together with its fallback rendering.
#[derive(Clone, Debug, PartialEq)]
pub enum EditPayload {
    RoomMessage { content: crate::content::MessageContent },
    PollStart { fallback_text: String, new_content: PollStartContentBlock },
}

impl EditedContent {
    /// Builds the payload the edit will carry: a poll edit regenerates
    /// the start block, with fresh answer ids, and its fallback text.
    pub fn into_edit_payload(self) -> (r: Result<EditPayload, crate::error::ClientError>)
        ensures
            self matches EditedContent::RoomMessage { content } ==> r == Ok::<
                EditPayload,
                crate::error::ClientError,
            >(EditPayload::RoomMessage { content }),
            self matches EditedContent::PollStart { poll_data } ==> {
                &&& r is Ok <==> 1 <= poll_data.answers@.len() <= MAX_POLL_ANSWERS
                &&& r matches Ok(p) ==> (p matches EditPayload::PollStart {
                    fallback_text,
                    new_content,
                } && fallback_text@ == spec_fallback_text(
                    poll_data.question@,
                    poll_data.answers.deep_view(),
                ) && new_content.question@ == poll_data.question@ && new_content.kind
                    == poll_data.poll_kind && new_content.max_selections
                    == poll_data.max_selections && new_content.answers@.len()
                    == poll_data.answers@.len())
                &&& r matches Err(e) ==> e is Generic
            },
    {
        match self {
            EditedContent::RoomMessage { content } => Ok(EditPayload::RoomMessage { content }),
            EditedContent::PollStart { poll_data } => {
                let fallback_text = poll_data.fallback_text();
                match poll_data.start_block() {
                    Ok(new_content) => Ok(EditPayload::PollStart { fallback_text, new_content }),
                    Err(e) => Err(e),
                }
            },
        }
    }
}

/// Relies on `uuid::Uuid::new_v4` and its hyphenated rendering: a freshly
/// generated random identifier always renders as 36 characters. Nothing
/// more is assumed of the random value.
#[verifier::external_body]
fn fresh_answer_id() -> (r: String)
    ensures
        r@.len() == 36,
{
    uuid::Uuid::new_v4().to_string()
}

} // verus!
