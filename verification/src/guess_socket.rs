//! Decisions of the `/ws/guess` websocket endpoint.
//!
//! Each time the server invokes the endpoint, the handler either greets a
//! new session, ignores a closed one, or reads one frame: first its length,
//! then (if the length fits the configured limit) its payload, and answers it.
//! The socket work is done by the caller, which performs the actions that
//! [`step`] returns and feeds back what it observed as the next [`Event`].
use vstd::prelude::*;
use vstd::slice::slice_subrange;
use vstd::string::StringSliceAdditionalSpecFns;
use vstd::utf8::valid_utf8;

verus! {

/// What the node keeps about one player of the guessing game; it keeps
/// nothing yet.
pub struct RelicClient {}

/// Milliseconds the endpoint waits before answering an accepted payload.
pub const REPLY_DELAY_MS: u32 = 1000;

/// A frame the endpoint sends on the socket.
pub enum OutFrame {
    /// An unfragmented text frame with these bytes.
    Text(Vec<u8>),
    /// A close frame with an empty payload.
    Close,
}

/// Why a handler invocation failed.
#[derive(Debug, Clone, Copy, PartialEq, Eq)]
pub enum EndpointError {
    /// The announced frame is longer than the configured maximum payload.
    RequestTooBig,
}

/// Where one handler invocation stands.
#[derive(Debug, Clone, Copy, PartialEq, Eq)]
pub enum Phase {
    /// Nothing has happened yet in this invocation.
    Start,
    /// The handler waits for the length of the incoming frame.
    AwaitLength,
    /// The handler waits for the payload of a frame of `len` bytes.
    AwaitPayload { len: usize },
    /// The invocation is over.
    Finished,
}

/// What the caller observed on the socket.
pub enum Event {
    /// The server invoked the handler; the flags describe the session.
    Invoked { is_new: bool, is_closed: bool },
    /// The incoming frame announces `len` payload bytes.
    LengthReceived { len: usize },
    /// The payload buffer after reading the frame into it.
    PayloadReceived { buf: Vec<u8> },
}

/// What the caller must do next.
pub enum Action {
    /// Send this frame.
    Send(OutFrame),
    /// Read the length of the incoming frame (a receive into an empty buffer).
    ReceiveLength,
    /// Read the payload of the frame into a zeroed buffer of `capacity` bytes.
    ReceivePayload { capacity: usize },
    /// Wait this many milliseconds.
    Pause { millis: u32 },
    /// End the invocation with this outcome.
    Finish(Result<(), EndpointError>),
}

/// Mathematical form of [`OutFrame`].
pub enum FrameView {
    Text(Seq<u8>),
    Close,
}

/// Mathematical form of [`Event`].
pub enum EventView {
    Invoked { is_new: bool, is_closed: bool },
    LengthReceived { len: usize },
    PayloadReceived { buf: Seq<u8> },
}

/// Mathematical form of [`Action`].
pub enum ActionView {
    Send(FrameView),
    ReceiveLength,
    ReceivePayload { capacity: usize },
    Pause { millis: u32 },
    Finish(Result<(), EndpointError>),
}

impl View for OutFrame {
    type V = FrameView;

    open spec fn view(&self) -> FrameView {
        match self {
            OutFrame::Text(bytes) => FrameView::Text(bytes@),
            OutFrame::Close => FrameView::Close,
        }
    }
}

impl View for Event {
    type V = EventView;

    open spec fn view(&self) -> EventView {
        match self {
            Event::Invoked { is_new, is_closed } => EventView::Invoked {
                is_new: *is_new,
                is_closed: *is_closed,
            },
            Event::LengthReceived { len } => EventView::LengthReceived { len: *len },
            Event::PayloadReceived { buf } => EventView::PayloadReceived { buf: buf@ },
        }
    }
}

impl View for Action {
    type V = ActionView;

    open spec fn view(&self) -> ActionView {
        match self {
            Action::Send(frame) => ActionView::Send(frame@),
            Action::ReceiveLength => ActionView::ReceiveLength,
            Action::ReceivePayload { capacity } => ActionView::ReceivePayload {
                capacity: *capacity,
            },
            Action::Pause { millis } => ActionView::Pause { millis: *millis },
            Action::Finish(outcome) => ActionView::Finish(*outcome),
        }
    }
}

/// The actions' views, in order.
pub open spec fn actions_view(actions: Seq<Action>) -> Seq<ActionView> {
    actions.map_values(|a: Action| a@)
}

/// ASCII `Hi`.
pub open spec fn greeting() -> Seq<u8> {
    seq![72u8, 105]
}

/// ASCII `Request too big`.
pub open spec fn too_big_notice() -> Seq<u8> {
    seq![82u8, 101, 113, 117, 101, 115, 116, 32, 116, 111, 111, 32, 98, 105, 103]
}

/// ASCII `[UTF-8 Error]`.
pub open spec fn utf8_error_notice() -> Seq<u8> {
    seq![91u8, 85, 84, 70, 45, 56, 32, 69, 114, 114, 111, 114, 93]
}

/// ASCII `Please enter a number between 1 and 100 (`.
pub open spec fn prompt_head() -> Seq<u8> {
    seq![
        80u8, 108, 101, 97, 115, 101, 32, 101, 110, 116, 101, 114, 32, 97, 32, 110, 117, 109, 98,
        101, 114, 32, 98, 101, 116, 119, 101, 101, 110, 32, 49, 32, 97, 110, 100, 32, 49, 48, 48,
        32, 40,
    ]
}

/// ASCII `)`.
pub open spec fn prompt_tail() -> Seq<u8> {
    seq![41u8]
}

/// The answer to an accepted payload: the prompt with the payload's text
/// between its parentheses.
pub open spec fn prompt_for(payload: Seq<u8>) -> Seq<u8> {
    prompt_head() + payload + prompt_tail()
}

/// Whether `event` is one the caller can observe while the handler is in `phase`.
pub open spec fn fits(phase: Phase, event: EventView) -> bool {
    match phase {
        Phase::Start => event is Invoked,
        Phase::AwaitLength => event is LengthReceived,
        Phase::AwaitPayload { len } => event matches EventView::PayloadReceived { buf } && len
            <= buf.len(),
        Phase::Finished => false,
    }
}

/// The endpoint's transition table: from the phase and what was observed,
/// the next phase and the actions to perform, in order.
pub open spec fn spec_step(max_len: usize, phase: Phase, event: EventView) -> (
    Phase,
    Seq<ActionView>,
) {
    match (phase, event) {
        (Phase::Start, EventView::Invoked { is_new, is_closed }) => {
            if is_new {
                (
                    Phase::Finished,
                    seq![
                        ActionView::Send(FrameView::Text(greeting())),
                        ActionView::Finish(Ok(())),
                    ],
                )
            } else if is_closed {
                (Phase::Finished, seq![ActionView::Finish(Ok(()))])
            } else {
                (Phase::AwaitLength, seq![ActionView::ReceiveLength])
            }
        },
        (Phase::AwaitLength, EventView::LengthReceived { len }) => {
            if len > max_len {
                (
                    Phase::Finished,
                    seq![
                        ActionView::Send(FrameView::Text(too_big_notice())),
                        ActionView::Send(FrameView::Close),
                        ActionView::Finish(Err(EndpointError::RequestTooBig)),
                    ],
                )
            } else {
                (
                    Phase::AwaitPayload { len },
                    seq![ActionView::ReceivePayload { capacity: max_len }],
                )
            }
        },
        (Phase::AwaitPayload { len }, EventView::PayloadReceived { buf }) => {
            let payload = buf.take(len as int);
            if valid_utf8(payload) {
                (
                    Phase::Finished,
                    seq![
                        ActionView::Pause { millis: REPLY_DELAY_MS },
                        ActionView::Send(FrameView::Text(prompt_for(payload))),
                        ActionView::Finish(Ok(())),
                    ],
                )
            } else {
                (
                    Phase::Finished,
                    seq![
                        ActionView::Send(FrameView::Text(utf8_error_notice())),
                        ActionView::Finish(Ok(())),
                    ],
                )
            }
        },
        _ => (phase, seq![]),
    }
}

/// Decodes `bytes` as UTF-8 text with `std::str::from_utf8`. Its documentation
/// states that it fails exactly when the bytes are not valid UTF-8, and that
/// on success the text is those very bytes; that is what this contract claims.
#[verifier::external_body]
fn utf8_text(bytes: &[u8]) -> (res: Option<&str>)
    ensures
        res is Some <==> valid_utf8(bytes@),
        res matches Some(text) ==> text.spec_bytes() == bytes@,
{
    match std::str::from_utf8(bytes) {
        Ok(text) => Some(text),
        Err(_) => None,
    }
}

fn text_frame(bytes: Vec<u8>) -> (res: Action)
    ensures
        res@ == ActionView::Send(FrameView::Text(bytes@)),
{
    Action::Send(OutFrame::Text(bytes))
}

/// The answer to a payload whose text is `text`.
fn prompt_bytes(text: &str) -> (res: Vec<u8>)
    ensures
        res@ == prompt_for(text.spec_bytes()),
{
    let mut reply: Vec<u8> = vec![
        80u8, 108, 101, 97, 115, 101, 32, 101, 110, 116, 101, 114, 32, 97, 32, 110, 117, 109, 98,
        101, 114, 32, 98, 101, 116, 119, 101, 101, 110, 32, 49, 32, 97, 110, 100, 32, 49, 48, 48,
        32, 40,
    ];
    assert(reply@ =~= prompt_head());
    reply.extend_from_slice(text.as_bytes());
    reply.push(41u8);
    assert(reply@ =~= prompt_for(text.spec_bytes()));
    reply
}

/// Advances one handler invocation: given the phase and what the caller
/// observed, returns the next phase and the actions to perform, in order.
pub fn step(max_len: usize, phase: Phase, event: Event) -> (res: (Phase, Vec<Action>))
    requires
        fits(phase, event@),
    ensures
        (res.0, actions_view(res.1@)) == spec_step(max_len, phase, event@),
{
    let ghost ev = event@;
    match (phase, event) {
        (Phase::Start, Event::Invoked { is_new, is_closed }) => {
            if is_new {
                let actions = vec![text_frame(vec![72u8, 105]), Action::Finish(Ok(()))];
                assert(actions_view(actions@) =~= spec_step(max_len, phase, ev).1);
                (Phase::Finished, actions)
            } else if is_closed {
                let actions = vec![Action::Finish(Ok(()))];
                assert(actions_view(actions@) =~= spec_step(max_len, phase, ev).1);
                (Phase::Finished, actions)
            } else {
                let actions = vec![Action::ReceiveLength];
                assert(actions_view(actions@) =~= spec_step(max_len, phase, ev).1);
                (Phase::AwaitLength, actions)
            }
        },
        (Phase::AwaitLength, Event::LengthReceived { len }) => {
            if len > max_len {
                let notice = vec![
                    82u8, 101, 113, 117, 101, 115, 116, 32, 116, 111, 111, 32, 98, 105, 103,
                ];
                let actions = vec![
                    text_frame(notice),
                    Action::Send(OutFrame::Close),
                    Action::Finish(Err(EndpointError::RequestTooBig)),
                ];
                assert(actions_view(actions@) =~= spec_step(max_len, phase, ev).1);
                (Phase::Finished, actions)
            } else {
                let actions = vec![Action::ReceivePayload { capacity: max_len }];
                assert(actions_view(actions@) =~= spec_step(max_len, phase, ev).1);
                (Phase::AwaitPayload { len }, actions)
            }
        },
        (Phase::AwaitPayload { len }, Event::PayloadReceived { buf }) => {
            let payload = slice_subrange(buf.as_slice(), 0, len);
            assert(payload@ =~= buf@.take(len as int));
            match utf8_text(payload) {
                Some(text) => {
                    let actions = vec![
                        Action::Pause { millis: REPLY_DELAY_MS },
                        text_frame(prompt_bytes(text)),
                        Action::Finish(Ok(())),
                    ];
                    assert(actions_view(actions@) =~= spec_step(max_len, phase, ev).1);
                    (Phase::Finished, actions)
                },
                None => {
                    let notice = vec![91u8, 85, 84, 70, 45, 56, 32, 69, 114, 114, 111, 114, 93];
                    let actions = vec![text_frame(notice), Action::Finish(Ok(()))];
                    assert(actions_view(actions@) =~= spec_step(max_len, phase, ev).1);
                    (Phase::Finished, actions)
                },
            }
        },
        _ => {
            assert(false);
            (phase, Vec::new())
        },
    }
}

/// The phase reached and the actions issued when the handler, starting in
/// `phase`, observes `events` one after the other.
pub open spec fn spec_run(max_len: usize, phase: Phase, events: Seq<EventView>) -> (
    Phase,
    Seq<ActionView>,
)
    decreases events.len(),
{
    if events.len() == 0 {
        (phase, seq![])
    } else {
        let (next, first) = spec_step(max_len, phase, events[0]);
        let (last, rest) = spec_run(max_len, next, events.drop_first());
        (last, first + rest)
    }
}

/// Whether each of `events` can be observed in the phase that the handler
/// has reached when it comes, starting from `phase`.
pub open spec fn is_possible_run(max_len: usize, phase: Phase, events: Seq<EventView>) -> bool
    decreases events.len(),
{
    events.len() == 0 || (fits(phase, events[0]) && is_possible_run(
        max_len,
        spec_step(max_len, phase, events[0]).0,
        events.drop_first(),
    ))
}

/// Whether some event of `events` announces a frame longer than `max_len`.
pub open spec fn announces_oversized_frame(max_len: usize, events: Seq<EventView>) -> bool {
    exists|i: int|
        0 <= i < events.len() && (#[trigger] events[i] matches EventView::LengthReceived { len }
            && len > max_len)
}

/// The rules one invocation keeps, for a run that observed `events` and
/// ended in `last` after issuing `actions`: it asks for the frame length at
/// most once, and for the payload at most once and only after the length,
/// into a buffer of exactly `max_len` bytes; it finishes at most once, as its
/// last action, exactly when it reaches the finished phase; and it fails
/// exactly when a frame longer than `max_len` was announced.
pub open spec fn follows_protocol(
    max_len: usize,
    events: Seq<EventView>,
    last: Phase,
    actions: Seq<ActionView>,
) -> bool {
    &&& forall|i: int, j: int|
        0 <= i < actions.len() && 0 <= j < actions.len() && #[trigger] actions[i] is ReceiveLength
            && #[trigger] actions[j] is ReceiveLength ==> i == j
    &&& forall|i: int, j: int|
        0 <= i < actions.len() && 0 <= j < actions.len() && #[trigger] actions[i] is ReceivePayload
            && #[trigger] actions[j] is ReceivePayload ==> i == j
    &&& forall|j: int|
        0 <= j < actions.len() && #[trigger] actions[j] is ReceivePayload ==> (exists|i: int|
            0 <= i < j && #[trigger] actions[i] is ReceiveLength) && actions[j]
            == ActionView::ReceivePayload { capacity: max_len }
    &&& forall|j: int|
        0 <= j < actions.len() && #[trigger] actions[j] is Finish ==> j == actions.len() - 1
    &&& (last == Phase::Finished <==> (actions.len() > 0 && actions.last() is Finish))
    &&& ((actions.len() > 0 && actions.last() == ActionView::Finish(
        Err(EndpointError::RequestTooBig),
    )) <==> announces_oversized_frame(max_len, events))
}

/// One invocation of the endpoint, from its start, sees at most three events
/// and follows the socket's protocol (see [`follows_protocol`]).
pub proof fn lemma_invocation_protocol(max_len: usize, events: Seq<EventView>)
    requires
        is_possible_run(max_len, Phase::Start, events),
    ensures
        events.len() <= 3,
        follows_protocol(
            max_len,
            events,
            spec_run(max_len, Phase::Start, events).0,
            spec_run(max_len, Phase::Start, events).1,
        ),
{
    reveal_with_fuel(spec_run, 4);
    reveal_with_fuel(is_possible_run, 4);
    let e = events;
    let (last, actions) = spec_run(max_len, Phase::Start, e);
    if e.len() == 0 {
        assert(actions =~= Seq::<ActionView>::empty());
        assert(!announces_oversized_frame(max_len, e));
    } else {
        let (p1, a1) = spec_step(max_len, Phase::Start, e[0]);
        let e1 = e.drop_first();
        assert(e[0] is Invoked);
        if p1 == Phase::Finished {
            assert(e1.len() == 0);
            assert(actions =~= a1);
            assert(!announces_oversized_frame(max_len, e));
        } else {
            assert(p1 == Phase::AwaitLength);
            assert(a1 =~= seq![ActionView::ReceiveLength]);
            if e1.len() == 0 {
                assert(actions =~= a1);
                assert(!announces_oversized_frame(max_len, e));
            } else {
                assert(e1[0] == e[1]);
                let (p2, a2) = spec_step(max_len, p1, e1[0]);
                let e2 = e1.drop_first();
                let len = e[1]->len;
                if len > max_len {
                    assert(e2.len() == 0);
                    assert(actions =~= a1 + a2);
                    assert(e[1] matches EventView::LengthReceived { len } && len > max_len);
                    assert(announces_oversized_frame(max_len, e));
                } else {
                    assert(p2 == Phase::AwaitPayload { len });
                    assert(a2 =~= seq![ActionView::ReceivePayload { capacity: max_len }]);
                    if e2.len() == 0 {
                        assert(actions =~= a1 + a2);
                        assert(actions[1] is ReceivePayload && actions[0] is ReceiveLength);
                        assert(!announces_oversized_frame(max_len, e));
                    } else {
                        assert(e2[0] == e[2]);
                        let (p3, a3) = spec_step(max_len, p2, e2[0]);
                        let e3 = e2.drop_first();
                        assert(p3 == Phase::Finished);
                        assert(e3.len() == 0);
                        assert(actions =~= a1 + a2 + a3);
                        assert(actions[1] is ReceivePayload && actions[0] is ReceiveLength);
                        assert(!announces_oversized_frame(max_len, e));
                    }
                }
            }
        }
    }
}

/// The answer to an accepted, well-formed payload carries the payload itself
/// between the prompt's parentheses.
pub proof fn lemma_reply_echoes_payload(max_len: usize, len: usize, buf: Seq<u8>)
    requires
        len <= buf.len(),
        valid_utf8(buf.take(len as int)),
    ensures
        spec_step(max_len, Phase::AwaitPayload { len }, EventView::PayloadReceived { buf }).1[1]
            matches ActionView::Send(FrameView::Text(reply)) ==> (reply.subrange(
            prompt_head().len() as int,
            prompt_head().len() + len,
        ) == buf.take(len as int) && reply.len() == prompt_head().len() + len + 1),
        spec_step(max_len, Phase::AwaitPayload { len }, EventView::PayloadReceived { buf }).1[1] is Send,
{
    let reply = prompt_for(buf.take(len as int));
    assert(reply.subrange(prompt_head().len() as int, prompt_head().len() + len) =~= buf.take(
        len as int,
    ));
}

/// A session event is answered the same way whatever the payload limit: a
/// new session is greeted with the two bytes `Hi` and the invocation ends
/// successfully; a closed session ends the invocation successfully with
/// nothing sent; any other session is asked for the length of its frame.
pub proof fn lemma_session_answers(max_len: usize, other_max_len: usize, is_new: bool, is_closed: bool)
    ensures
        spec_step(max_len, Phase::Start, EventView::Invoked { is_new, is_closed }) == spec_step(
            other_max_len,
            Phase::Start,
            EventView::Invoked { is_new, is_closed },
        ),
        is_new ==> spec_step(max_len, Phase::Start, EventView::Invoked { is_new, is_closed }) == (
            Phase::Finished,
            seq![
                ActionView::Send(FrameView::Text(seq![72u8, 105u8])),
                ActionView::Finish(Ok(())),
            ],
        ),
        !is_new && is_closed ==> spec_step(
            max_len,
            Phase::Start,
            EventView::Invoked { is_new, is_closed },
        ) == (Phase::Finished, seq![ActionView::Finish(Ok(()))]),
        !is_new && !is_closed ==> spec_step(
            max_len,
            Phase::Start,
            EventView::Invoked { is_new, is_closed },
        ) == (Phase::AwaitLength, seq![ActionView::ReceiveLength]),
{
    let a = spec_step(max_len, Phase::Start, EventView::Invoked { is_new, is_closed }).1;
    if is_new {
        assert(a =~= seq![
            ActionView::Send(FrameView::Text(seq![72u8, 105u8])),
            ActionView::Finish(Ok(())),
        ]);
    }
}

/// Every frame announced longer than the payload limit, by any margin, is
/// refused the same way: the text `Request too big`, then a close frame, then
/// the invocation fails with `RequestTooBig`. A frame within the limit is
/// read into a buffer of exactly the limit's size.
pub proof fn lemma_frame_length_answers(max_len: usize, len: usize)
    ensures
        len > max_len ==> spec_step(max_len, Phase::AwaitLength, EventView::LengthReceived { len })
            == (
            Phase::Finished,
            seq![
                ActionView::Send(
                    FrameView::Text(
                        seq![82u8, 101u8, 113u8, 117u8, 101u8, 115u8, 116u8, 32u8, 116u8, 111u8, 111u8, 32u8, 98u8, 105u8, 103u8],
                    ),
                ),
                ActionView::Send(FrameView::Close),
                ActionView::Finish(Err(EndpointError::RequestTooBig)),
            ],
        ),
        len <= max_len ==> spec_step(
            max_len,
            Phase::AwaitLength,
            EventView::LengthReceived { len },
        ) == (Phase::AwaitPayload { len }, seq![ActionView::ReceivePayload { capacity: max_len }]),
{
    let a = spec_step(max_len, Phase::AwaitLength, EventView::LengthReceived { len }).1;
    if len > max_len {
        assert(too_big_notice() =~= seq![82u8, 101u8, 113u8, 117u8, 101u8, 115u8, 116u8, 32u8, 116u8, 111u8, 111u8, 32u8, 98u8, 105u8, 103u8]);
    }
}

/// A payload whose first `len` bytes are valid UTF-8 is answered, after a
/// pause of one second, with the text `Please enter a number between 1 and 100 (`
/// followed by exactly those bytes and `)`, and the invocation ends
/// successfully; no close frame is sent. Otherwise the answer is the text
/// `[UTF-8 Error]` and the invocation ends successfully.
pub proof fn lemma_payload_answers(max_len: usize, len: usize, buf: Seq<u8>)
    requires
        len <= buf.len(),
    ensures
        valid_utf8(buf.take(len as int)) ==> spec_step(
            max_len,
            Phase::AwaitPayload { len },
            EventView::PayloadReceived { buf },
        ) == (
            Phase::Finished,
            seq![
                ActionView::Pause { millis: 1000 },
                ActionView::Send(
                    FrameView::Text(
                        seq![
                            80u8, 108u8, 101u8, 97u8, 115u8, 101u8, 32u8, 101u8, 110u8, 116u8,
                            101u8, 114u8, 32u8, 97u8, 32u8, 110u8, 117u8, 109u8, 98u8, 101u8,
                            114u8, 32u8, 98u8, 101u8, 116u8, 119u8, 101u8, 101u8, 110u8, 32u8,
                            49u8, 32u8, 97u8, 110u8, 100u8, 32u8, 49u8, 48u8, 48u8, 32u8, 40u8,
                        ] + buf.take(len as int) + seq![41u8],
                    ),
                ),
                ActionView::Finish(Ok(())),
            ],
        ),
        !valid_utf8(buf.take(len as int)) ==> spec_step(
            max_len,
            Phase::AwaitPayload { len },
            EventView::PayloadReceived { buf },
        ) == (
            Phase::Finished,
            seq![
                ActionView::Send(
                    FrameView::Text(
                        seq![91u8, 85u8, 84u8, 70u8, 45u8, 56u8, 32u8, 69u8, 114u8, 114u8, 111u8, 114u8, 93u8],
                    ),
                ),
                ActionView::Finish(Ok(())),
            ],
        ),
        forall|i: int|
            0 <= i < spec_step(
                max_len,
                Phase::AwaitPayload { len },
                EventView::PayloadReceived { buf },
            ).1.len() ==> #[trigger] spec_step(
                max_len,
                Phase::AwaitPayload { len },
                EventView::PayloadReceived { buf },
            ).1[i] != ActionView::Send(FrameView::Close),
{
    assert(prompt_head() =~= seq![
        80u8, 108u8, 101u8, 97u8, 115u8, 101u8, 32u8, 101u8, 110u8, 116u8, 101u8, 114u8, 32u8,
        97u8, 32u8, 110u8, 117u8, 109u8, 98u8, 101u8, 114u8, 32u8, 98u8, 101u8, 116u8, 119u8,
        101u8, 101u8, 110u8, 32u8, 49u8, 32u8, 97u8, 110u8, 100u8, 32u8, 49u8, 48u8, 48u8, 32u8,
        40u8,
    ]);
    assert(utf8_error_notice() =~= seq![91u8, 85u8, 84u8, 70u8, 45u8, 56u8, 32u8, 69u8, 114u8, 114u8, 111u8, 114u8, 93u8]);
}

} // verus!
