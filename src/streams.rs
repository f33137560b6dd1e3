//! The two pull-based transfer state machines. The producer answers each
//! `bytes_requested` with one chunk of local input; the consumer asks for each
//! chunk with `request_bytes`. Whoever runs the topic feeds them events and
//! performs the reads, writes and sends that they decide on.

use vstd::prelude::*;
use vstd::string::StringExecFns;

use crate::client::HeyError;
use crate::wire::{
    base64_decoded, base64_of, decode_base64, encode_base64, is_custom, is_plain_json_text,
    json_member_text, json_string_member, json_string_object, payload_of, Message, MessageView,
    StreamEvent,
};

verus! {

/// The most bytes that one chunk carries.
pub const CHUNK_SIZE: usize = 1_000_000;

/// The length of the base64 text of a full chunk.
pub const MAX_ENCODED_CHUNK: usize = 1_333_336;

/// The name of the channel topic of a stream, `streams:<name>`.
pub fn topic_name(stream: &str) -> (topic: String)
    ensures
        topic@ == "streams:"@ + stream@,
{
    let mut topic = String::from_str("streams:");
    topic.append(stream);
    topic
}

/// Where the producer stands.
#[derive(Clone, Copy, Debug, PartialEq, Eq, Structural)]
pub enum ProducerState {
    ReadyToProduce,
    Done,
}

/// What the producer asks of its runner after an event.
#[derive(Clone, Copy, Debug, PartialEq, Eq, Structural)]
pub enum ProducerAction {
    /// Nothing to do.
    Ignore,
    /// Read up to this many bytes of local input and hand the outcome to
    /// [`ProducerState::on_read`].
    ReadChunk(usize),
}

/// The outcome of one read of local input.
#[derive(Debug)]
pub enum ReadOutcome {
    /// The bytes read; none means the end of the input.
    Chunk(Vec<u8>),
    /// The read failed.
    Failed,
}

/// The producer reads local input on this event.
pub open spec fn producer_reads(state: ProducerState, event: StreamEvent) -> bool {
    state is ReadyToProduce && is_custom(event, "bytes_requested"@)
}

/// The producer's next state and the message it sends after a read.
pub open spec fn after_read(read: ReadOutcome) -> (ProducerState, MessageView) {
    match read {
        ReadOutcome::Chunk(bytes) => if bytes@.len() == 0 {
            (ProducerState::Done, MessageView::Done { error: false })
        } else {
            (ProducerState::ReadyToProduce, MessageView::Bytes(base64_of(bytes@)))
        },
        ReadOutcome::Failed => (ProducerState::Done, MessageView::Done { error: true }),
    }
}

/// One step of the producer: an event, with `read` as what a read of local
/// input would give if the event calls for one. This is what
/// [`ProducerState::on_event`] does, followed by [`ProducerState::on_read`]
/// where it asks for a read.
pub open spec fn producer_step(state: ProducerState, event: StreamEvent, read: ReadOutcome) -> (
    ProducerState,
    Option<MessageView>,
) {
    if producer_reads(state, event) {
        (after_read(read).0, Some(after_read(read).1))
    } else {
        (state, None)
    }
}

impl ProducerState {
    /// A producer that has announced itself and waits for pulls.
    pub fn new() -> (s: ProducerState)
        ensures
            s is ReadyToProduce,
    {
        ProducerState::ReadyToProduce
    }

    /// Whether the producer has finished.
    pub fn is_done(&self) -> (r: bool)
        ensures
            r == (*self is Done),
    {
        match self {
            ProducerState::Done => true,
            ProducerState::ReadyToProduce => false,
        }
    }

    /// Decides on an event: a pull while ready asks for one read of a chunk;
    /// everything else is ignored.
    pub fn on_event(&self, event: &StreamEvent) -> (action: ProducerAction)
        ensures
            action == if producer_reads(*self, *event) {
                ProducerAction::ReadChunk(CHUNK_SIZE)
            } else {
                ProducerAction::Ignore
            },
    {
        if self.is_done() {
            ProducerAction::Ignore
        } else if event.is_named("bytes_requested") {
            ProducerAction::ReadChunk(CHUNK_SIZE)
        } else {
            ProducerAction::Ignore
        }
    }

    /// Takes the outcome of the read that [`ProducerState::on_event`] asked
    /// for: a chunk goes out as `bytes`; the end of the input, or a failed
    /// read, ends the transfer with `done`.
    pub fn on_read(&self, read: ReadOutcome) -> (r: (ProducerState, Option<Message>))
        requires
            read matches ReadOutcome::Chunk(bytes) ==> bytes@.len() <= CHUNK_SIZE,
        ensures
            *self is ReadyToProduce ==> r.0 == after_read(read).0 && r.1 is Some && r.1->0@
                == after_read(read).1,
            *self is Done ==> r.0 == ProducerState::Done && r.1 is None,
            r.1 matches Some(Message::Bytes(text)) ==> is_plain_json_text(text@) && text@.len()
                <= MAX_ENCODED_CHUNK,
    {
        if self.is_done() {
            return (ProducerState::Done, None);
        }
        match read {
            ReadOutcome::Chunk(bytes) => {
                if bytes.len() == 0 {
                    (ProducerState::Done, Some(Message::Done { error: false }))
                } else {
                    let text = encode_base64(bytes.as_slice());
                    proof {
                        assert(is_plain_json_text(text@)) by {
                            assert forall|i: int| 0 <= i < text@.len() implies {
                                let c = #[trigger] text@[i];
                                c != '"' && c != '\\' && (c as u32) >= 0x20
                            } by {
                                assert(crate::wire::is_base64_symbol(text@[i]));
                            }
                        }
                    }
                    (ProducerState::ReadyToProduce, Some(Message::Bytes(text)))
                }
            },
            ReadOutcome::Failed => (ProducerState::Done, Some(Message::Done { error: true })),
        }
    }
}

/// The messages a producer sends on a freshly joined topic.
pub fn producer_opening() -> (messages: Vec<Message>)
    ensures
        messages@.len() == 1,
        messages@[0]@ == MessageView::ProducerJoin,
{
    let mut messages: Vec<Message> = Vec::new();
    messages.push(Message::ProducerJoin);
    messages
}

/// Where the consumer stands.
#[derive(Clone, Copy, Debug, PartialEq, Eq, Structural)]
pub enum ConsumerState {
    Consuming,
    Done,
}

/// What the consumer asks of its runner after an event.
#[derive(Debug)]
pub enum ConsumerAction {
    /// Nothing to do.
    Ignore,
    /// Write these bytes to local output, then send `request_bytes`.
    Deliver(Vec<u8>),
    /// The stream is complete: stop.
    Finish,
}

/// The mathematical content of a [`ConsumerAction`].
pub enum ConsumerActionView {
    Ignore,
    Deliver(Seq<u8>),
    Finish,
}

impl View for ConsumerAction {
    type V = ConsumerActionView;

    open spec fn view(&self) -> ConsumerActionView {
        match self {
            ConsumerAction::Ignore => ConsumerActionView::Ignore,
            ConsumerAction::Deliver(bytes) => ConsumerActionView::Deliver(bytes@),
            ConsumerAction::Finish => ConsumerActionView::Finish,
        }
    }
}

impl ConsumerAction {
    /// The message to send once the action is carried out: `request_bytes`
    /// after a delivery, nothing otherwise.
    pub fn reply(&self) -> (m: Option<Message>)
        ensures
            m is Some <==> self@ is Deliver,
            m matches Some(message) ==> message@ == MessageView::RequestBytes,
    {
        match self {
            ConsumerAction::Deliver(_) => Some(Message::RequestBytes),
            _ => None,
        }
    }
}

/// The chunk that a `bytes` payload carries: the base64 text of its `data`
/// member, no longer than a full chunk's text, decoded.
pub open spec fn chunk_of_payload(payload: Seq<char>) -> Option<Seq<u8>> {
    match json_member_text(payload, "data"@) {
        Some(text) => if text.len() <= MAX_ENCODED_CHUNK {
            base64_decoded(text)
        } else {
            None
        },
        None => None,
    }
}

/// One step of the consumer; nothing where the event is a `bytes` event whose
/// payload cannot be read, which abandons the transfer.
pub open spec fn consumer_step(state: ConsumerState, event: StreamEvent) -> Option<
    (ConsumerState, ConsumerActionView),
> {
    if state is Consuming && is_custom(event, "bytes"@) {
        match event {
            StreamEvent::Custom { payload, .. } => match chunk_of_payload(payload@) {
                Some(bytes) => Some((ConsumerState::Consuming, ConsumerActionView::Deliver(bytes))),
                None => None,
            },
            StreamEvent::Defined => None,
        }
    } else if state is Consuming && is_custom(event, "no_more_data"@) {
        Some((ConsumerState::Done, ConsumerActionView::Finish))
    } else {
        Some((state, ConsumerActionView::Ignore))
    }
}

/// The payload that a producer sends with the chunk `bytes`.
pub open spec fn chunk_payload(bytes: Seq<u8>) -> Seq<char> {
    json_string_object("data"@, base64_of(bytes))
}

/// Decodes the chunk in a `bytes` payload.
fn read_chunk(payload: &str) -> (r: Option<Vec<u8>>)
    ensures
        match chunk_of_payload(payload@) {
            Some(bytes) => r matches Some(v) && v@ == bytes,
            None => r is None,
        },
        forall|bytes: Seq<u8>|
            payload@ == #[trigger] chunk_payload(bytes) && is_plain_json_text(base64_of(bytes))
                && base64_of(bytes).len() <= MAX_ENCODED_CHUNK ==> (r matches Some(v) && v@
                == bytes),
{
    proof {
        reveal_strlit("data");
    }
    let text = match json_string_member(payload, "data") {
        Some(text) => text,
        None => return None,
    };
    if text.as_str().unicode_len() > MAX_ENCODED_CHUNK {
        return None;
    }
    decode_base64(text.as_str())
}

impl ConsumerState {
    /// A consumer that has announced itself and asked for the first chunk.
    pub fn new() -> (s: ConsumerState)
        ensures
            s is Consuming,
    {
        ConsumerState::Consuming
    }

    /// Whether the consumer has finished.
    pub fn is_done(&self) -> (r: bool)
        ensures
            r == (*self is Done),
    {
        match self {
            ConsumerState::Done => true,
            ConsumerState::Consuming => false,
        }
    }

    /// Takes the outcome of decoding a `bytes` payload: while consuming, the
    /// chunk is delivered, and a payload that could not be decoded is a fatal
    /// protocol error; a finished consumer ignores it.
    pub fn accept_chunk(&self, decoded: Option<Vec<u8>>) -> (r: Result<
        (ConsumerState, ConsumerAction),
        HeyError,
    >)
        ensures
            *self is Done ==> (r matches Ok((s, a)) && s is Done && a@ == ConsumerActionView::Ignore),
            *self is Consuming ==> match decoded {
                Some(bytes) => r matches Ok((s, a)) && s is Consuming && a@
                    == ConsumerActionView::Deliver(bytes@),
                None => r matches Err(HeyError::FatalProtocolError),
            },
    {
        if self.is_done() {
            return Ok((ConsumerState::Done, ConsumerAction::Ignore));
        }
        match decoded {
            Some(bytes) => Ok((ConsumerState::Consuming, ConsumerAction::Deliver(bytes))),
            None => Err(HeyError::FatalProtocolError),
        }
    }

    /// Decides on an event: a chunk is delivered and the next one asked for,
    /// `no_more_data` ends the transfer, everything else is ignored.
    pub fn on_event(&self, event: &StreamEvent) -> (r: Result<
        (ConsumerState, ConsumerAction),
        HeyError,
    >)
        ensures
            match consumer_step(*self, *event) {
                Some((s, a)) => r matches Ok((s2, a2)) && s2 == s && a2@ == a,
                None => r matches Err(HeyError::FatalProtocolError),
            },
            forall|bytes: Seq<u8>|
                *self is Consuming && is_custom(*event, "bytes"@) && (
                *event matches StreamEvent::Custom { payload, .. } && payload@
                    == #[trigger] chunk_payload(bytes)) && is_plain_json_text(base64_of(bytes))
                    && base64_of(bytes).len() <= MAX_ENCODED_CHUNK ==> (r matches Ok((s2, a2))
                    && s2 is Consuming && a2@ == ConsumerActionView::Deliver(bytes)),
    {
        if self.is_done() {
            return Ok((ConsumerState::Done, ConsumerAction::Ignore));
        }
        if event.is_named("bytes") {
            match event {
                StreamEvent::Custom { payload, .. } => self.accept_chunk(
                    read_chunk(payload.as_str()),
                ),
                StreamEvent::Defined => Err(HeyError::FatalProtocolError),
            }
        } else if event.is_named("no_more_data") {
            Ok((ConsumerState::Done, ConsumerAction::Finish))
        } else {
            Ok((*self, ConsumerAction::Ignore))
        }
    }
}

/// The messages a consumer sends on a freshly joined topic: it announces
/// itself and asks for the first chunk.
pub fn consumer_opening() -> (messages: Vec<Message>)
    ensures
        messages@.len() == 2,
        messages@[0]@ == MessageView::ConsumerJoin,
        messages@[1]@ == MessageView::RequestBytes,
{
    let mut messages: Vec<Message> = Vec::new();
    messages.push(Message::ConsumerJoin);
    messages.push(Message::RequestBytes);
    messages
}

/// The chunks in which a producer reads `input` when each read fills its
/// buffer of [`CHUNK_SIZE`] bytes unless the input ends first.
pub open spec fn chunks_of(input: Seq<u8>) -> Seq<Seq<u8>>
    decreases input.len(),
{
    if input.len() == 0 {
        Seq::empty()
    } else if input.len() <= CHUNK_SIZE {
        seq![input]
    } else {
        seq![input.take(CHUNK_SIZE as int)] + chunks_of(input.skip(CHUNK_SIZE as int))
    }
}

/// Reading in full chunks cuts the input into pieces of 1 to [`CHUNK_SIZE`]
/// bytes that, put back together in order, are the input.
pub proof fn chunks_cover_input(input: Seq<u8>)
    ensures
        forall|k: int|
            0 <= k < chunks_of(input).len() ==> 1 <= (#[trigger] chunks_of(input)[k]).len()
                <= CHUNK_SIZE,
        chunks_of(input).flatten() == input,
    decreases input.len(),
{
    if input.len() > CHUNK_SIZE {
        let rest = input.skip(CHUNK_SIZE as int);
        chunks_cover_input(rest);
        let all = chunks_of(input);
        assert(all.drop_first() =~= chunks_of(rest));
        assert(input =~= input.take(CHUNK_SIZE as int) + rest);
        assert(all.first() == input.take(CHUNK_SIZE as int));
        assert(all.flatten() == all.first() + all.drop_first().flatten());
        assert forall|k: int| 0 <= k < all.len() implies 1 <= (#[trigger] all[k]).len()
            <= CHUNK_SIZE by {
            if k > 0 {
                assert(all[k] == chunks_of(rest)[k - 1]);
            }
        }
    } else if input.len() > 0 {
        let all = chunks_of(input);
        assert(all.drop_first() =~= Seq::<Seq<u8>>::empty());
        assert(all.drop_first().flatten() == Seq::<u8>::empty());
        assert(all.flatten() == all.first() + all.drop_first().flatten());
        assert(input + Seq::<u8>::empty() =~= input);
    } else {
        assert(input =~= Seq::<u8>::empty());
    }
}

/// Carries `input` from a producer to a consumer in memory. Each round the
/// producer is pulled with `bytes_requested` and reads the next chunk of at
/// most [`CHUNK_SIZE`] bytes; its `bytes` message goes to the consumer under
/// the same event name and payload text that a topic would carry, and the
/// consumer's delivery is appended to the output.
///
/// Returns the output and the messages the producer sent: one `bytes` message
/// with the base64 text of each chunk of [`chunks_of`], in order, each of which
/// the consumer reads back as that chunk, then `done` without the error flag.
/// The output is the chunks put back together, which is the input.
pub fn relay_in_memory(input: &[u8]) -> (r: (Vec<u8>, Vec<Message>))
    ensures
        r.1@.len() == chunks_of(input@).len() + 1,
        forall|k: int|
            0 <= k < chunks_of(input@).len() ==> (#[trigger] r.1@[k])@ == MessageView::Bytes(
                base64_of(chunks_of(input@)[k]),
            ),
        forall|k: int|
            0 <= k < chunks_of(input@).len() ==> chunk_of_payload(payload_of((#[trigger] r.1@[k])@))
                == Some(chunks_of(input@)[k]),
        r.1@[chunks_of(input@).len() as int]@ == (MessageView::Done { error: false }),
        forall|k: int|
            0 <= k < chunks_of(input@).len() ==> 1 <= (#[trigger] chunks_of(input@)[k]).len()
                <= CHUNK_SIZE,
        r.0@ == chunks_of(input@).flatten(),
        r.0@ == input@,
{
    proof {
        chunks_cover_input(input@);
    }
    let mut producer = ProducerState::new();
    let mut consumer = ConsumerState::new();
    let mut output: Vec<u8> = Vec::new();
    let mut sent: Vec<Message> = Vec::new();
    let mut pos: usize = 0;
    let ghost mut seen: Seq<Seq<u8>> = Seq::empty();
    let pull = StreamEvent::custom("bytes_requested", "{}");
    proof {
        assert(input@.skip(0) =~= input@);
    }
    while !producer.is_done()
        invariant
            pos <= input@.len(),
            output@ == input@.subrange(0, pos as int),
            consumer is Consuming,
            is_custom(pull, "bytes_requested"@),
            producer is ReadyToProduce ==> sent@.len() == seen.len() && chunks_of(input@)
                == seen + chunks_of(input@.skip(pos as int)),
            producer is Done ==> pos == input@.len() && sent@.len() == seen.len() + 1 && seen
                == chunks_of(input@) && sent@[seen.len() as int]@ == (MessageView::Done {
                error: false,
            }),
            forall|k: int|
                0 <= k < seen.len() ==> (#[trigger] sent@[k])@ == MessageView::Bytes(
                    base64_of(seen[k]),
                ),
            forall|k: int|
                0 <= k < seen.len() ==> chunk_of_payload(payload_of((#[trigger] sent@[k])@))
                    == Some(seen[k]),
        decreases 2 * (input@.len() - pos) + if producer is Done {
            0int
        } else {
            1int
        },
    {
        let max = match producer.on_event(&pull) {
            ProducerAction::ReadChunk(max) => max,
            ProducerAction::Ignore => {
                proof {
                    assert(false);
                }
                return (output, sent);
            },
        };
        let end: usize = if input.len() - pos > max {
            pos + max
        } else {
            input.len()
        };
        let chunk = vstd::slice::slice_to_vec(vstd::slice::slice_subrange(input, pos, end));
        let ghost chunk_bytes = chunk@;
        let ghost rest = input@.skip(pos as int);
        proof {
            if rest.len() > CHUNK_SIZE {
                assert(chunk_bytes =~= rest.take(CHUNK_SIZE as int));
                assert(rest.skip(CHUNK_SIZE as int) =~= input@.skip(end as int));
            } else if rest.len() > 0 {
                assert(chunk_bytes =~= rest);
                assert(input@.skip(end as int) =~= Seq::<u8>::empty());
            }
        }
        let (next, message) = producer.on_read(ReadOutcome::Chunk(chunk));
        producer = next;
        let message = match message {
            Some(message) => message,
            None => {
                proof {
                    assert(false);
                }
                return (output, sent);
            },
        };
        if let Message::Bytes(_) = message {
            let event = StreamEvent::custom(message.kind(), message.payload().as_str());
            assert(event matches StreamEvent::Custom { payload, .. } && payload@
                == chunk_payload(chunk_bytes));
            match consumer.on_event(&event) {
                Ok((state, ConsumerAction::Deliver(mut bytes))) => {
                    assert(bytes@ == chunk_bytes);
                    output.append(&mut bytes);
                    consumer = state;
                    assert(input@.subrange(0, end as int) =~= input@.subrange(0, pos as int)
                        + chunk_bytes);
                    pos = end;
                },
                _ => {
                    proof {
                        assert(false);
                    }
                    return (output, sent);
                },
            }
            proof {
                assert(chunk_of_payload(payload_of(message@)) == Some(chunk_bytes));
                assert(seq![chunk_bytes] + chunks_of(input@.skip(pos as int)) =~= chunks_of(
                    rest,
                ));
                assert(chunks_of(input@) =~= (seen + seq![chunk_bytes]) + chunks_of(
                    input@.skip(pos as int),
                ));
                seen = seen + seq![chunk_bytes];
            }
        } else {
            proof {
                assert(chunks_of(input@) =~= seen);
            }
        }
        sent.push(message);
    }
    (output, sent)
}

/// The producer's state before step `i` of a run that starts ready. Step `k`
/// of the run is the event `steps[k].0`, with `steps[k].1` the outcome of the
/// read it may call for.
pub open spec fn producer_state_at(steps: Seq<(StreamEvent, ReadOutcome)>, i: nat) -> ProducerState
    decreases i,
{
    if i == 0 {
        ProducerState::ReadyToProduce
    } else {
        let k = (i - 1) as nat;
        producer_step(producer_state_at(steps, k), steps[k as int].0, steps[k as int].1).0
    }
}

/// What the producer sends at step `i` of a run.
pub open spec fn producer_sent(steps: Seq<(StreamEvent, ReadOutcome)>, i: nat) -> Option<
    MessageView,
> {
    producer_step(producer_state_at(steps, i), steps[i as int].0, steps[i as int].1).1
}

/// A chunk goes out.
pub open spec fn sends_bytes(sent: Option<MessageView>) -> bool {
    sent matches Some(MessageView::Bytes(_))
}

/// A `done` goes out.
pub open spec fn sends_done(sent: Option<MessageView>) -> bool {
    sent matches Some(MessageView::Done { .. })
}

proof fn producer_done_stays(steps: Seq<(StreamEvent, ReadOutcome)>, i: nat, j: nat)
    requires
        i <= j <= steps.len(),
        producer_state_at(steps, i) is Done,
    ensures
        producer_state_at(steps, j) is Done,
    decreases j - i,
{
    if i < j {
        producer_done_stays(steps, i, (j - 1) as nat);
    }
}

/// The producer never pushes: whatever it sends at a step answers that step's
/// `bytes_requested`, so between two `bytes` events there is always a
/// `bytes_requested` event (the one the second answers).
pub proof fn producer_sends_only_when_pulled(steps: Seq<(StreamEvent, ReadOutcome)>)
    ensures
        forall|i: nat|
            i < steps.len() && (#[trigger] producer_sent(steps, i)) is Some ==> is_custom(
                steps[i as int].0,
                "bytes_requested"@,
            ),
        forall|i: nat, j: nat|
            i < j < steps.len() && sends_bytes(#[trigger] producer_sent(steps, i)) && sends_bytes(
                #[trigger] producer_sent(steps, j),
            ) ==> exists|m: nat|
                i < m <= j && is_custom(#[trigger] steps[m as int].0, "bytes_requested"@),
{
    assert forall|i: nat, j: nat|
        i < j < steps.len() && sends_bytes(#[trigger] producer_sent(steps, i)) && sends_bytes(
            #[trigger] producer_sent(steps, j),
        ) implies exists|m: nat|
        i < m <= j && is_custom(#[trigger] steps[m as int].0, "bytes_requested"@) by {
        assert(is_custom(steps[j as int].0, "bytes_requested"@));
    }
}

proof fn producer_finishes_once(steps: Seq<(StreamEvent, ReadOutcome)>, i: nat)
    requires
        i < steps.len(),
        producer_state_at(steps, i) is ReadyToProduce,
        producer_state_at(steps, i + 1) is Done,
    ensures
        forall|j: nat| j < i ==> !sends_done(#[trigger] producer_sent(steps, j)),
        forall|j: nat| i < j < steps.len() ==> (#[trigger] producer_sent(steps, j)) is None,
{
    assert forall|j: nat| j < i implies !sends_done(#[trigger] producer_sent(steps, j)) by {
        if producer_state_at(steps, j + 1) is Done {
            producer_done_stays(steps, j + 1, i);
        }
    }
    assert forall|j: nat| i < j < steps.len() implies (#[trigger] producer_sent(
        steps,
        j,
    )) is None by {
        producer_done_stays(steps, i + 1, j);
    }
}

/// Reaching the end of local input while producing sends exactly one `done`,
/// without the error flag, and nothing at all afterwards.
pub proof fn producer_end_of_input(steps: Seq<(StreamEvent, ReadOutcome)>, i: nat)
    requires
        i < steps.len(),
        producer_state_at(steps, i) is ReadyToProduce,
        is_custom(steps[i as int].0, "bytes_requested"@),
        steps[i as int].1 matches ReadOutcome::Chunk(bytes) && bytes@.len() == 0,
    ensures
        producer_sent(steps, i) == Some(MessageView::Done { error: false }),
        forall|j: nat| j < steps.len() && j != i ==> !sends_done(#[trigger] producer_sent(steps, j)),
        forall|j: nat| i < j < steps.len() ==> (#[trigger] producer_sent(steps, j)) is None,
{
    producer_finishes_once(steps, i);
}

/// A failed read of local input while producing sends exactly one `done`, with
/// the error flag, and nothing at all afterwards.
pub proof fn producer_read_failure(steps: Seq<(StreamEvent, ReadOutcome)>, i: nat)
    requires
        i < steps.len(),
        producer_state_at(steps, i) is ReadyToProduce,
        is_custom(steps[i as int].0, "bytes_requested"@),
        steps[i as int].1 is Failed,
    ensures
        producer_sent(steps, i) == Some(MessageView::Done { error: true }),
        forall|j: nat| j < steps.len() && j != i ==> !sends_done(#[trigger] producer_sent(steps, j)),
        forall|j: nat| i < j < steps.len() ==> (#[trigger] producer_sent(steps, j)) is None,
{
    producer_finishes_once(steps, i);
}

/// The consumer's state before step `i` of a run that starts consuming;
/// nothing once a step has abandoned the transfer.
pub open spec fn consumer_state_at(events: Seq<StreamEvent>, i: nat) -> Option<ConsumerState>
    decreases i,
{
    if i == 0 {
        Some(ConsumerState::Consuming)
    } else {
        let k = (i - 1) as nat;
        match consumer_state_at(events, k) {
            Some(state) => match consumer_step(state, events[k as int]) {
                Some((next, _)) => Some(next),
                None => None,
            },
            None => None,
        }
    }
}

/// The consumer sends `request_bytes` at step `i` of a run: it delivers a
/// chunk there.
pub open spec fn consumer_requests(events: Seq<StreamEvent>, i: nat) -> bool {
    match consumer_state_at(events, i) {
        Some(state) => consumer_step(state, events[i as int]) matches Some(
            (_, ConsumerActionView::Deliver(_)),
        ),
        None => false,
    }
}

/// The consumer asks for a chunk only on receiving one (beyond the single
/// request of its opening), so between two `request_bytes` it sends there is
/// always a `bytes` event received (the one the second answers).
pub proof fn consumer_requests_only_after_chunk(events: Seq<StreamEvent>)
    ensures
        forall|i: nat|
            i < events.len() && #[trigger] consumer_requests(events, i) ==> is_custom(
                events[i as int],
                "bytes"@,
            ),
        forall|i: nat, j: nat|
            i < j < events.len() && #[trigger] consumer_requests(events, i)
                && #[trigger] consumer_requests(events, j) ==> exists|m: nat|
                i < m <= j && is_custom(#[trigger] events[m as int], "bytes"@),
{
    assert forall|i: nat, j: nat|
        i < j < events.len() && #[trigger] consumer_requests(events, i)
            && #[trigger] consumer_requests(events, j) implies exists|m: nat|
        i < m <= j && is_custom(#[trigger] events[m as int], "bytes"@) by {
        assert(is_custom(events[j as int], "bytes"@));
    }
}

proof fn consumer_done_stays(events: Seq<StreamEvent>, i: nat, j: nat)
    requires
        i <= j <= events.len(),
        consumer_state_at(events, i) == Some(ConsumerState::Done),
    ensures
        consumer_state_at(events, j) == Some(ConsumerState::Done),
    decreases j - i,
{
    if i < j {
        consumer_done_stays(events, i, (j - 1) as nat);
    }
}

/// Receiving `no_more_data` while consuming ends the consumer, which asks for
/// no further bytes, then or later.
pub proof fn consumer_stops_on_no_more_data(events: Seq<StreamEvent>, i: nat)
    requires
        i < events.len(),
        consumer_state_at(events, i) == Some(ConsumerState::Consuming),
        is_custom(events[i as int], "no_more_data"@),
    ensures
        consumer_state_at(events, i + 1) == Some(ConsumerState::Done),
        forall|j: nat| i <= j < events.len() ==> !#[trigger] consumer_requests(events, j),
{
    reveal_strlit("bytes");
    reveal_strlit("no_more_data");
    assert("bytes"@.len() != "no_more_data"@.len());
    assert(!is_custom(events[i as int], "bytes"@));
    assert forall|j: nat| i <= j < events.len() implies !#[trigger] consumer_requests(
        events,
        j,
    ) by {
        if j > i {
            consumer_done_stays(events, i + 1, j);
        }
    }
}

} // verus!
