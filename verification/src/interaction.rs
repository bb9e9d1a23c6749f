//! One exchange with the endpoint, step by step, and the loop around it.
//!
//! The driver does the outside work: it reads a line, sends a payload, reads
//! a response body, prints. After each piece of outside work it hands the
//! outcome to a function of this module, which decides what happens next.
//!
//! An exchange, or turn, is a straight line: `begin_turn` records the
//! question and yields the payload to send; `check_status` judges what came
//! back from sending; `finish_turn` judges the body and records the reply.
//! A failure at any step ends the turn. `TurnRecord` is a turn as a
//! mathematical value, and the lemmas on it say how turns make the
//! conversation grow.
//!
//! The loop around the exchanges is a machine of two states: `advance` takes
//! the loop's state and what the driver saw, and gives the next state and
//! what the driver is to do.

use crate::errors::CustomError;
use crate::json::{json_document, parse, JsonValue};
use crate::request_body::{MessageView, OpenAIRequestBody, RequestView, Role};
use vstd::prelude::*;

verus! {

/// The only status code that counts as success.
pub const STATUS_OK: u16 = 200;

/// The reply that a response document carries: the string found under
/// `choices`, position 0, `message`, `content`. `None` where a step of that
/// path is missing or what stands at its end is not a string.
pub open spec fn reply_content(document: JsonValue) -> Option<Seq<char>> {
    match document.member("choices"@) {
        Some(choices) => match choices.element(0) {
            Some(choice) => match choice.member("message"@) {
                Some(message) => match message.member("content"@) {
                    Some(content) => content.text(),
                    None => None,
                },
                None => None,
            },
            None => None,
        },
        None => None,
    }
}

/// The reply that a response body carries: that of the document it holds.
/// `None` where the body is not JSON or the document carries no reply.
pub open spec fn reply_in(body: Seq<char>) -> Option<Seq<char>> {
    match json_document(body) {
        Some(document) => reply_content(document),
        None => None,
    }
}

/// Finds the reply in a response document.
pub fn extract_reply(document: &JsonValue) -> (reply: Option<String>)
    ensures
        reply is Some <==> reply_content(*document) is Some,
        reply matches Some(text) ==> reply_content(*document) == Some(text@),
{
    let choices = match document.get("choices") {
        Some(v) => v,
        None => {
            return None;
        },
    };
    let choice = match choices.at(0) {
        Some(v) => v,
        None => {
            return None;
        },
    };
    let message = match choice.get("message") {
        Some(v) => v,
        None => {
            return None;
        },
    };
    let content = match message.get("content") {
        Some(v) => v,
        None => {
            return None;
        },
    };
    match content.as_str() {
        Some(text) => Some(text.to_owned()),
        None => None,
    }
}

/// Whether what sending gave lets the exchange go on: a response came back,
/// and its status is 200.
pub open spec fn accepted(sent: Result<u16, reqwest::Error>) -> bool {
    sent == Ok::<u16, reqwest::Error>(STATUS_OK)
}

/// The reply that reading the response gave, if it gave one.
pub open spec fn reply_of(received: Result<String, reqwest::Error>) -> Option<Seq<char>> {
    match received {
        Ok(body) => reply_in(body@),
        Err(_) => None,
    }
}

/// The conversation after the last step of an exchange: with the reply as an
/// `Assistant` message at its end if there is a reply, as it was if not.
pub open spec fn answered(
    before: RequestView,
    received: Result<String, reqwest::Error>,
) -> RequestView {
    match reply_of(received) {
        Some(text) => before.with_message(Role::Assistant, text),
        None => before,
    }
}

/// First step of an exchange. Records the user's text as a `User` message,
/// whatever happens afterwards, and encodes the whole conversation as the
/// payload to send.
pub fn begin_turn(request_body: &mut OpenAIRequestBody, user_input: String) -> (payload: Result<
    String,
    CustomError,
>)
    ensures
        final(request_body)@ == old(request_body)@.with_message(Role::User, user_input@),
        (match final(request_body)@.json() {
            Some(json) => payload matches Ok(text) && text@ == json,
            None => payload matches Err(CustomError::Serialization(_)),
        }),
{
    request_body.add_new_message(Role::User, user_input);
    request_body.serialize()
}

/// Second step of an exchange. Takes what sending the payload gave: the
/// response's status code, or the transport's failure. Only status 200 lets
/// the exchange go on.
pub fn check_status(sent: Result<u16, reqwest::Error>) -> (outcome: Result<(), CustomError>)
    ensures
        outcome is Ok <==> accepted(sent),
        sent matches Err(cause) ==> outcome == Err::<(), CustomError>(
            CustomError::Request(cause),
        ),
        sent matches Ok(code) ==> code != STATUS_OK ==> outcome == Err::<(), CustomError>(
            CustomError::Response(code),
        ),
{
    match sent {
        Ok(code) => if code == STATUS_OK {
            Ok(())
        } else {
            Err(CustomError::Response(code))
        },
        Err(cause) => Err(CustomError::Request(cause)),
    }
}

/// Records the reply of a response document as an `Assistant` message and
/// hands it back for display. A document without a reply changes nothing and
/// gives `NoMessageFound`.
pub fn record_reply(request_body: &mut OpenAIRequestBody, document: &JsonValue) -> (reply: Result<
    String,
    CustomError,
>)
    ensures
        (match reply_content(*document) {
            Some(text) => {
                &&& reply matches Ok(shown) && shown@ == text
                &&& final(request_body)@ == old(request_body)@.with_message(Role::Assistant, text)
            },
            None => {
                &&& reply == Err::<String, CustomError>(CustomError::NoMessageFound)
                &&& *final(request_body) == *old(request_body)
            },
        }),
{
    match extract_reply(document) {
        Some(text) => {
            request_body.add_new_message(Role::Assistant, text.clone());
            Ok(text)
        },
        None => Err(CustomError::NoMessageFound),
    }
}

/// Last step of an exchange. Takes what reading the response gave: the body,
/// or the transport's failure. Where the body is JSON and carries a reply, the
/// reply is recorded as an `Assistant` message and handed back for display.
/// In every other case the conversation stays as it is, and the error tells
/// which step failed.
pub fn finish_turn(
    request_body: &mut OpenAIRequestBody,
    received: Result<String, reqwest::Error>,
) -> (reply: Result<String, CustomError>)
    ensures
        final(request_body)@ == answered(old(request_body)@, received),
        (match reply_of(received) {
            Some(text) => reply matches Ok(shown) && shown@ == text,
            None => reply is Err && *final(request_body) == *old(request_body),
        }),
        received matches Err(cause) ==> reply == Err::<String, CustomError>(
            CustomError::ReadResponse(cause),
        ),
        received matches Ok(body) && json_document(body@) is None ==> reply matches Err(
            CustomError::ParseJson(_),
        ),
        received matches Ok(body) && json_document(body@) is Some && reply_in(body@) is None
            ==> reply == Err::<String, CustomError>(CustomError::NoMessageFound),
{
    let body = match received {
        Ok(body) => body,
        Err(cause) => {
            return Err(CustomError::ReadResponse(cause));
        },
    };
    let document = match parse(body.as_str()) {
        Ok(document) => document,
        Err(e) => {
            return Err(e);
        },
    };
    record_reply(request_body, &document)
}

/// One turn as the outside world played it: what the user typed, what sending
/// the payload gave, and what reading the response gave. What a step gave
/// counts only if the turn got as far as that step.
pub struct TurnRecord {
    pub input: Seq<char>,
    pub sent: Result<u16, reqwest::Error>,
    pub received: Result<String, reqwest::Error>,
}

impl TurnRecord {
    /// Whether the first two steps let the turn reach the last one: the
    /// conversation with the question in it can be encoded, and what sending
    /// gave is accepted.
    pub open spec fn reaches_reading(self, before: RequestView) -> bool {
        before.with_message(Role::User, self.input).json() is Some && accepted(self.sent)
    }

    /// The reply that the turn ends with on a given conversation, or `None`
    /// where one of its steps fails.
    #[verifier::opaque]
    pub open spec fn reply(self, before: RequestView) -> Option<Seq<char>> {
        if self.reaches_reading(before) {
            reply_of(self.received)
        } else {
            None
        }
    }

    /// The conversation after the turn: what `begin_turn` makes of it, and
    /// then, if the turn reaches the last step, what `finish_turn` makes of
    /// that.
    #[verifier::opaque]
    pub open spec fn apply(self, before: RequestView) -> RequestView {
        let asked = before.with_message(Role::User, self.input);
        if self.reaches_reading(before) {
            answered(asked, self.received)
        } else {
            asked
        }
    }
}

/// Plays a whole turn whose outside outcomes are already known, as a recorded
/// session is played again: `begin_turn`, then `check_status` on what sending
/// gave, then `finish_turn` on what reading gave. The first step that fails
/// ends the turn, and what the later steps gave is not looked at.
pub fn replay_turn(
    request_body: &mut OpenAIRequestBody,
    user_input: String,
    sent: Result<u16, reqwest::Error>,
    received: Result<String, reqwest::Error>,
) -> (reply: Result<String, CustomError>)
    ensures
        final(request_body)@ == (TurnRecord { input: user_input@, sent, received }).apply(
            old(request_body)@,
        ),
        (match (TurnRecord { input: user_input@, sent, received }).reply(old(request_body)@) {
            Some(text) => reply matches Ok(shown) && shown@ == text,
            None => reply is Err,
        }),
        (match old(request_body)@.with_message(Role::User, user_input@).json() {
            None => reply matches Err(CustomError::Serialization(_)),
            Some(_) => match sent {
                Err(cause) => reply == Err::<String, CustomError>(CustomError::Request(cause)),
                Ok(code) => if code != STATUS_OK {
                    reply == Err::<String, CustomError>(CustomError::Response(code))
                } else {
                    match received {
                        Err(cause) => reply == Err::<String, CustomError>(
                            CustomError::ReadResponse(cause),
                        ),
                        Ok(body) => match json_document(body@) {
                            None => reply matches Err(CustomError::ParseJson(_)),
                            Some(document) => match reply_content(document) {
                                None => reply == Err::<String, CustomError>(
                                    CustomError::NoMessageFound,
                                ),
                                Some(text) => reply matches Ok(shown) && shown@ == text,
                            },
                        },
                    }
                },
            },
        }),
{
    proof {
        reveal(TurnRecord::reply);
        reveal(TurnRecord::apply);
    }
    match begin_turn(request_body, user_input) {
        Ok(_) => {},
        Err(e) => {
            return Err(e);
        },
    }
    match check_status(sent) {
        Ok(()) => {},
        Err(e) => {
            return Err(e);
        },
    }
    finish_turn(request_body, received)
}

/// The conversation after a run of turns, one after the other.
pub open spec fn after_turns(start: RequestView, turns: Seq<TurnRecord>) -> RequestView
    decreases turns.len(),
{
    if turns.len() == 0 {
        start
    } else {
        turns.last().apply(after_turns(start, turns.drop_last()))
    }
}

/// Whether the turn at a position of a run ends with a reply, on the
/// conversation that the turns before it left.
pub open spec fn turn_succeeds(start: RequestView, turns: Seq<TurnRecord>, i: int) -> bool {
    turns[i].reply(after_turns(start, turns.take(i))) is Some
}

/// Whether each turn of a run ends with a reply.
pub open spec fn all_succeed(start: RequestView, turns: Seq<TurnRecord>) -> bool {
    forall|i: int| 0 <= i < turns.len() ==> #[trigger] turn_succeeds(start, turns, i)
}

/// Whether the conversation after a run of turns holds the question and the
/// reply of the turn at a position where a run of successes puts them: behind
/// what was there at the start and two messages for each earlier turn.
pub open spec fn turn_is_recorded(start: RequestView, turns: Seq<TurnRecord>, i: int) -> bool {
    let end = after_turns(start, turns);
    let before = after_turns(start, turns.take(i));
    let at = start.messages.len() + 2 * i;
    &&& end.messages[at] == MessageView { role: Role::User, content: turns[i].input }
    &&& end.messages[at + 1] == MessageView {
        role: Role::Assistant,
        content: turns[i].reply(before)->Some_0,
    }
}

/// A turn that fails, at whichever step, leaves the conversation with the
/// user's message at its end and nothing after it.
pub proof fn lemma_failed_turn_keeps_question(before: RequestView, turn: TurnRecord)
    requires
        turn.reply(before) is None,
    ensures
        turn.apply(before).model == before.model,
        turn.apply(before).messages == before.messages.push(
            MessageView { role: Role::User, content: turn.input },
        ),
{
    reveal(TurnRecord::reply);
    reveal(TurnRecord::apply);
}

/// A turn that succeeds adds the user's message and then the reply, as an
/// `Assistant` message, and nothing else.
pub proof fn lemma_successful_turn_adds_both(before: RequestView, turn: TurnRecord)
    requires
        turn.reply(before) is Some,
    ensures
        turn.apply(before).model == before.model,
        turn.apply(before).messages == before.messages.push(
            MessageView { role: Role::User, content: turn.input },
        ).push(MessageView { role: Role::Assistant, content: turn.reply(before)->Some_0 }),
{
    reveal(TurnRecord::reply);
    reveal(TurnRecord::apply);
}

/// Turns only ever add to the conversation: whatever their outcomes, the
/// messages that were there stay where they were, the model stays, and each
/// turn adds one message or two.
pub proof fn lemma_turns_only_append(start: RequestView, turns: Seq<TurnRecord>)
    ensures
        after_turns(start, turns).model == start.model,
        start.messages.len() + turns.len() <= after_turns(start, turns).messages.len()
            <= start.messages.len() + 2 * turns.len(),
        after_turns(start, turns).messages.take(start.messages.len() as int)
            == start.messages,
    decreases turns.len(),
{
    if turns.len() > 0 {
        let before = after_turns(start, turns.drop_last());
        lemma_turns_only_append(start, turns.drop_last());
        if turns.last().reply(before) is Some {
            lemma_successful_turn_adds_both(before, turns.last());
        } else {
            lemma_failed_turn_keeps_question(before, turns.last());
        }
    }
}

/// After a run of turns that all succeed, the conversation holds two more
/// messages for each turn: on a conversation that began with its one `System`
/// message, one plus twice the number of turns. What was there stays in front,
/// and the new messages stand in the order in which they were made: each
/// question, then its reply.
pub proof fn lemma_successful_turns(start: RequestView, turns: Seq<TurnRecord>)
    requires
        all_succeed(start, turns),
    ensures
        after_turns(start, turns).messages.len() == start.messages.len() + 2 * turns.len(),
        start.messages.len() == 1 ==> after_turns(start, turns).messages.len() == 1 + 2
            * turns.len(),
        after_turns(start, turns).messages.take(start.messages.len() as int) == start.messages,
        forall|i: int| 0 <= i < turns.len() ==> #[trigger] turn_is_recorded(start, turns, i),
    decreases turns.len(),
{
    lemma_turns_only_append(start, turns);
    if turns.len() > 0 {
        let earlier = turns.drop_last();
        let last = turns.last();
        let n = earlier.len() as int;
        let before = after_turns(start, earlier);
        assert forall|i: int| 0 <= i < n implies #[trigger] turn_succeeds(start, earlier, i) by {
            assert(turn_succeeds(start, turns, i));
            assert(earlier.take(i) == turns.take(i));
        }
        lemma_successful_turns(start, earlier);
        assert(turn_succeeds(start, turns, n));
        assert(turns.take(n) == earlier);
        lemma_successful_turn_adds_both(before, last);
        assert forall|i: int| 0 <= i < turns.len() implies #[trigger] turn_is_recorded(
            start,
            turns,
            i,
        ) by {
            if i < n {
                assert(turn_is_recorded(start, earlier, i));
                assert(earlier.take(i) == turns.take(i));
            }
        }
    }
}

/// Whether a character is whitespace as `char::is_whitespace` tells it: the
/// characters with the Unicode property `White_Space`.
pub uninterp spec fn is_whitespace(c: char) -> bool;

/// A text without the whitespace it begins with.
pub open spec fn trim_start(text: Seq<char>) -> Seq<char>
    decreases text.len(),
{
    if text.len() > 0 && is_whitespace(text.first()) {
        trim_start(text.drop_first())
    } else {
        text
    }
}

/// A text without the whitespace it ends with.
pub open spec fn trim_end(text: Seq<char>) -> Seq<char>
    decreases text.len(),
{
    if text.len() > 0 && is_whitespace(text.last()) {
        trim_end(text.drop_last())
    } else {
        text
    }
}

/// A text without the whitespace around it.
pub open spec fn trimmed(text: Seq<char>) -> Seq<char> {
    trim_end(trim_start(text))
}

/// `str::trim` returns the slice that is left when leading and trailing
/// whitespace is removed. What is left neither begins nor ends with
/// whitespace.
pub assume_specification[ str::trim ](text: &str) -> (inner: &str)
    ensures
        inner@ == trimmed(text@),
        inner@.len() > 0 ==> !is_whitespace(inner@.first()) && !is_whitespace(inner@.last()),
;

/// The number of a character, with the ASCII letters `A` to `Z` counted as
/// `a` to `z`.
pub open spec fn fold_ascii_case(c: char) -> int {
    if 'A' <= c <= 'Z' {
        c as int + 32
    } else {
        c as int
    }
}

/// Whether two texts are the same but for the case of ASCII letters.
pub open spec fn same_ignoring_ascii_case(a: Seq<char>, b: Seq<char>) -> bool {
    &&& a.len() == b.len()
    &&& forall|i: int| 0 <= i < a.len() ==> fold_ascii_case(a[i]) == fold_ascii_case(b[i])
}

/// `str::eq_ignore_ascii_case` tells whether two slices match when `A` to `Z`
/// are taken as `a` to `z` and every other character as itself.
pub assume_specification[ str::eq_ignore_ascii_case ](a: &str, b: &str) -> (same: bool)
    ensures
        same == same_ignoring_ascii_case(a@, b@),
;

/// Whether a trimmed line of input asks to end the session: it is the word
/// `exit` in any mix of upper and lower case.
pub open spec fn is_exit_command(input: Seq<char>) -> bool {
    same_ignoring_ascii_case(input, "exit"@)
}

/// Where the interactive loop stands. Once it is `Terminated` it stays so.
#[derive(Clone, Copy, Debug, PartialEq, Eq, Structural)]
pub enum LoopState {
    Running,
    Terminated,
}

/// What the outside world handed to the loop.
#[derive(Debug)]
pub enum LoopEvent {
    /// The input stream failed.
    InputFailed,
    /// A line was read; this is what is left of it once trimmed.
    Line(String),
    /// The exchange that was asked for went through.
    TurnSucceeded,
    /// The exchange that was asked for failed.
    TurnFailed(CustomError),
}

/// What the driver of the loop is to do next.
#[derive(Debug)]
pub enum LoopAction {
    /// Read the next line.
    Prompt,
    /// Run an exchange with this text.
    Exchange(String),
    /// Write this line to the error stream, then read the next line.
    Report(String),
    /// Leave the loop.
    Stop,
}

/// A `LoopAction` as a mathematical value.
pub enum LoopActionView {
    Prompt,
    Exchange(Seq<char>),
    Report(Seq<char>),
    Stop,
}

impl View for LoopAction {
    type V = LoopActionView;

    open spec fn view(&self) -> LoopActionView {
        match self {
            LoopAction::Prompt => LoopActionView::Prompt,
            LoopAction::Exchange(text) => LoopActionView::Exchange(text@),
            LoopAction::Report(line) => LoopActionView::Report(line@),
            LoopAction::Stop => LoopActionView::Stop,
        }
    }
}

/// The loop's next state and action, as mathematical values: the action is
/// given with the text it carries, if any.
pub open spec fn loop_step(state: LoopState, event: LoopEvent) -> (LoopState, LoopActionView) {
    match state {
        LoopState::Terminated => (LoopState::Terminated, LoopActionView::Stop),
        LoopState::Running => match event {
            LoopEvent::InputFailed => (LoopState::Terminated, LoopActionView::Stop),
            LoopEvent::Line(input) => if is_exit_command(input@) {
                (LoopState::Terminated, LoopActionView::Stop)
            } else {
                (LoopState::Running, LoopActionView::Exchange(input@))
            },
            LoopEvent::TurnSucceeded => (LoopState::Running, LoopActionView::Prompt),
            LoopEvent::TurnFailed(error) => (
                LoopState::Running,
                LoopActionView::Report(error.description()),
            ),
        },
    }
}

/// The word `exit`, however its letters are cased, ends a running loop, and
/// no exchange is asked for.
pub proof fn lemma_exit_ends_loop(input: String)
    requires
        input@.len() == 4,
        input@[0] == 'e' || input@[0] == 'E',
        input@[1] == 'x' || input@[1] == 'X',
        input@[2] == 'i' || input@[2] == 'I',
        input@[3] == 't' || input@[3] == 'T',
    ensures
        loop_step(LoopState::Running, LoopEvent::Line(input)) == (
            LoopState::Terminated,
            LoopActionView::Stop,
        ),
{
    reveal_strlit("exit");
}

/// Removes the whitespace around a line of input, as it was read.
pub fn trim_input(line: &str) -> (input: String)
    ensures
        input@ == trimmed(line@),
{
    line.trim().to_owned()
}

/// Tells whether a trimmed line asks to end the session.
pub fn is_exit(input: &str) -> (exit: bool)
    ensures
        exit == is_exit_command(input@),
{
    input.eq_ignore_ascii_case("exit")
}

/// Moves the interactive loop on by one event.
///
/// A failed input stream and the word `exit` end the loop, and no exchange is
/// asked for. Any other line asks for an exchange. However an exchange ends,
/// the loop runs on; a failure is reported first.
pub fn advance(state: LoopState, event: LoopEvent) -> (next: (LoopState, LoopAction))
    ensures
        next.0 == loop_step(state, event).0,
        next.1@ == loop_step(state, event).1,
{
    match state {
        LoopState::Terminated => (LoopState::Terminated, LoopAction::Stop),
        LoopState::Running => match event {
            LoopEvent::InputFailed => (LoopState::Terminated, LoopAction::Stop),
            LoopEvent::Line(input) => if is_exit(input.as_str()) {
                (LoopState::Terminated, LoopAction::Stop)
            } else {
                (LoopState::Running, LoopAction::Exchange(input))
            },
            LoopEvent::TurnSucceeded => (LoopState::Running, LoopAction::Prompt),
            LoopEvent::TurnFailed(error) => (
                LoopState::Running,
                LoopAction::Report(error.describe()),
            ),
        },
    }
}

} // verus!
