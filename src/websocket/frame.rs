//! Frame codec: classification of received frames and the action that each
//! one calls for in the receive loop.
use vstd::prelude::*;

verus! {

/// A frame as the transport delivers it.
pub enum RawFrame {
    Binary(Vec<u8>),
    Text(String),
    Ping(Vec<u8>),
    Pong(Vec<u8>),
    /// A close frame, with its reason when the peer gave one.
    Close(Option<String>),
    /// Any other frame kind.
    Other,
}

/// A frame that is not market data.
pub enum ControlFrame {
    Ping(Vec<u8>),
    Close(Option<String>),
    Text(String),
    Unknown,
}

/// A received frame, sorted into market data and control frames.
pub enum Classified {
    /// A binary payload, to be decoded against the feed's message schema.
    Binary(Vec<u8>),
    Control(ControlFrame),
}

/// What the receive loop learns at one turn.
pub enum ListenEvent<M> {
    /// A binary frame decoded to a message.
    Decoded(M),
    /// A binary frame that the schema decoder rejected, with the decoder's error.
    DecodeFailed(String),
    /// A control frame.
    Control(ControlFrame),
    /// The transport failed to deliver a frame; the stream goes on.
    ReceiveFailed(String),
    /// The transport failed to send a reply (a pong).
    SendFailed(String),
    /// The stream ended.
    EndOfStream,
}

/// Something worth reporting that does not stop the receive loop.
pub enum Diagnostic {
    DecodeFailed(String),
    UnexpectedText(String),
    TransportError(String),
}

/// What the receive loop does in answer to an event.
pub enum Action<M> {
    /// Hand the message to the consumer.
    Deliver(M),
    /// Reply with a pong frame carrying this payload.
    SendPong(Vec<u8>),
    /// Report a diagnostic and go on.
    Report(Diagnostic),
    /// Nothing to do; go on.
    Continue,
    /// The stream is over: leave the loop.
    Finish,
}

/// The classification of a raw frame.
pub open spec fn classify_spec(f: RawFrame) -> Classified {
    match f {
        RawFrame::Binary(b) => Classified::Binary(b),
        RawFrame::Text(t) => Classified::Control(ControlFrame::Text(t)),
        RawFrame::Ping(p) => Classified::Control(ControlFrame::Ping(p)),
        RawFrame::Close(c) => Classified::Control(ControlFrame::Close(c)),
        RawFrame::Pong(_) => Classified::Control(ControlFrame::Unknown),
        RawFrame::Other => Classified::Control(ControlFrame::Unknown),
    }
}

/// `t` reads `pong` when ASCII case is ignored.
pub open spec fn is_pong_text(t: Seq<char>) -> bool {
    &&& t.len() == 4
    &&& (t[0] == 'p' || t[0] == 'P')
    &&& (t[1] == 'o' || t[1] == 'O')
    &&& (t[2] == 'n' || t[2] == 'N')
    &&& (t[3] == 'g' || t[3] == 'G')
}

/// The events that end the receive loop: a close frame and the end of the stream.
pub open spec fn ends_stream<M>(e: ListenEvent<M>) -> bool {
    match e {
        ListenEvent::EndOfStream => true,
        ListenEvent::Control(ControlFrame::Close(_)) => true,
        _ => false,
    }
}

/// The action that answers an event.
pub open spec fn action_spec<M>(e: ListenEvent<M>) -> Action<M> {
    match e {
        ListenEvent::Decoded(m) => Action::Deliver(m),
        ListenEvent::DecodeFailed(err) => Action::Report(Diagnostic::DecodeFailed(err)),
        ListenEvent::Control(ControlFrame::Ping(p)) => Action::SendPong(p),
        ListenEvent::Control(ControlFrame::Text(t)) => if is_pong_text(t@) {
            Action::Continue
        } else {
            Action::Report(Diagnostic::UnexpectedText(t))
        },
        ListenEvent::Control(ControlFrame::Close(_)) => Action::Finish,
        ListenEvent::Control(ControlFrame::Unknown) => Action::Continue,
        ListenEvent::ReceiveFailed(err) => Action::Report(Diagnostic::TransportError(err)),
        ListenEvent::SendFailed(err) => Action::Report(Diagnostic::TransportError(err)),
        ListenEvent::EndOfStream => Action::Finish,
    }
}

/// Sorts a received frame into a binary payload or a control frame.
/// Pong frames and frames of other kinds need no answer and become `Unknown`.
pub fn classify(f: RawFrame) -> (r: Classified)
    ensures
        r == classify_spec(f),
{
    match f {
        RawFrame::Binary(b) => Classified::Binary(b),
        RawFrame::Text(t) => Classified::Control(ControlFrame::Text(t)),
        RawFrame::Ping(p) => Classified::Control(ControlFrame::Ping(p)),
        RawFrame::Close(c) => Classified::Control(ControlFrame::Close(c)),
        RawFrame::Pong(_) => Classified::Control(ControlFrame::Unknown),
        RawFrame::Other => Classified::Control(ControlFrame::Unknown),
    }
}

/// Whether a text frame is the keepalive answer `pong`, ignoring ASCII case.
pub fn is_pong(t: &str) -> (r: bool)
    ensures
        r == is_pong_text(t@),
{
    if t.unicode_len() != 4 {
        return false;
    }
    let c0 = t.get_char(0);
    let c1 = t.get_char(1);
    let c2 = t.get_char(2);
    let c3 = t.get_char(3);
    (c0 == 'p' || c0 == 'P') && (c1 == 'o' || c1 == 'O') && (c2 == 'n' || c2 == 'N') && (c3 == 'g'
        || c3 == 'G')
}

/// The action that the receive loop takes for an event.
pub fn action_for<M>(e: ListenEvent<M>) -> (r: Action<M>)
    ensures
        r == action_spec(e),
{
    match e {
        ListenEvent::Decoded(m) => Action::Deliver(m),
        ListenEvent::DecodeFailed(err) => Action::Report(Diagnostic::DecodeFailed(err)),
        ListenEvent::Control(ControlFrame::Ping(p)) => Action::SendPong(p),
        ListenEvent::Control(ControlFrame::Text(t)) => {
            if is_pong(t.as_str()) {
                Action::Continue
            } else {
                Action::Report(Diagnostic::UnexpectedText(t))
            }
        },
        ListenEvent::Control(ControlFrame::Close(_)) => Action::Finish,
        ListenEvent::Control(ControlFrame::Unknown) => Action::Continue,
        ListenEvent::ReceiveFailed(err) => Action::Report(Diagnostic::TransportError(err)),
        ListenEvent::SendFailed(err) => Action::Report(Diagnostic::TransportError(err)),
        ListenEvent::EndOfStream => Action::Finish,
    }
}

/// Whether an event ends the receive loop.
pub fn is_terminal<M>(e: &ListenEvent<M>) -> (r: bool)
    ensures
        r == ends_stream(*e),
{
    match e {
        ListenEvent::EndOfStream => true,
        ListenEvent::Control(ControlFrame::Close(_)) => true,
        _ => false,
    }
}

/// A ping is answered by exactly one pong that carries the same payload, and
/// the loop goes on.
pub proof fn lemma_ping_answered<M>(payload: Vec<u8>)
    ensures
        action_spec(ListenEvent::<M>::Control(ControlFrame::Ping(payload))) == Action::<M>::SendPong(
            payload,
        ),
        !ends_stream(ListenEvent::<M>::Control(ControlFrame::Ping(payload))),
{
}

/// A binary frame that fails to decode reaches no consumer and does not end
/// the loop; the next frame that decodes is delivered.
pub proof fn lemma_undecodable_skipped<M>(err: String, next: M)
    ensures
        !(action_spec(ListenEvent::<M>::DecodeFailed(err)) is Deliver),
        !(action_spec(ListenEvent::<M>::DecodeFailed(err)) is Finish),
        !ends_stream(ListenEvent::<M>::DecodeFailed(err)),
        action_spec(ListenEvent::Decoded(next)) == Action::Deliver(next),
{
}

/// The actions of the receive loop over a sequence of events, in order,
/// up to and including the one that ends the stream.
pub open spec fn loop_actions<M>(events: Seq<ListenEvent<M>>) -> Seq<Action<M>>
    decreases events.len(),
{
    if events.len() == 0 {
        Seq::empty()
    } else if ends_stream(events[0]) {
        seq![action_spec(events[0])]
    } else {
        seq![action_spec(events[0])] + loop_actions(events.drop_first())
    }
}

/// The messages that a sequence of actions hands to the consumer, in order.
pub open spec fn delivered<M>(actions: Seq<Action<M>>) -> Seq<M>
    decreases actions.len(),
{
    if actions.len() == 0 {
        Seq::empty()
    } else {
        match actions[0] {
            Action::Deliver(m) => seq![m] + delivered(actions.drop_first()),
            _ => delivered(actions.drop_first()),
        }
    }
}

/// The payloads of the pongs that a sequence of actions sends, in order.
pub open spec fn pongs_sent<M>(actions: Seq<Action<M>>) -> Seq<Vec<u8>>
    decreases actions.len(),
{
    if actions.len() == 0 {
        Seq::empty()
    } else {
        match actions[0] {
            Action::SendPong(p) => seq![p] + pongs_sent(actions.drop_first()),
            _ => pongs_sent(actions.drop_first()),
        }
    }
}

/// The messages decoded from binary frames before the stream ends, in order.
pub open spec fn decoded_before_end<M>(events: Seq<ListenEvent<M>>) -> Seq<M>
    decreases events.len(),
{
    if events.len() == 0 || ends_stream(events[0]) {
        Seq::empty()
    } else {
        match events[0] {
            ListenEvent::Decoded(m) => seq![m] + decoded_before_end(events.drop_first()),
            _ => decoded_before_end(events.drop_first()),
        }
    }
}

/// The payloads of the pings received before the stream ends, in order.
pub open spec fn pings_before_end<M>(events: Seq<ListenEvent<M>>) -> Seq<Vec<u8>>
    decreases events.len(),
{
    if events.len() == 0 || ends_stream(events[0]) {
        Seq::empty()
    } else {
        match events[0] {
            ListenEvent::Control(ControlFrame::Ping(p)) => seq![p] + pings_before_end(
                events.drop_first(),
            ),
            _ => pings_before_end(events.drop_first()),
        }
    }
}

/// Over any run of the receive loop, the consumer gets exactly the messages
/// that decoded, in arrival order: frames that failed to decode add nothing
/// and stop nothing.
pub proof fn lemma_loop_delivers_decoded<M>(events: Seq<ListenEvent<M>>)
    ensures
        delivered(loop_actions(events)) == decoded_before_end(events),
    decreases events.len(),
{
    if events.len() > 0 {
        let first = seq![action_spec(events[0])];
        if ends_stream(events[0]) {
            assert(first.drop_first() =~= Seq::<Action<M>>::empty());
            assert(action_spec(events[0]) is Finish);
            assert(delivered(first) == delivered(first.drop_first()));
            assert(delivered(Seq::<Action<M>>::empty()) == Seq::<M>::empty());
        } else {
            lemma_loop_delivers_decoded(events.drop_first());
            let rest = loop_actions(events.drop_first());
            assert(loop_actions(events) == first + rest);
            assert((first + rest).drop_first() =~= rest);
            assert((first + rest)[0] == action_spec(events[0]));
            match events[0] {
                ListenEvent::Decoded(m) => {
                    assert(delivered(first + rest) == seq![m] + delivered(rest));
                    assert(decoded_before_end(events) == seq![m] + decoded_before_end(
                        events.drop_first(),
                    ));
                },
                _ => {
                    assert(!(action_spec(events[0]) is Deliver));
                    assert(delivered(first + rest) == delivered(rest));
                    assert(decoded_before_end(events) == decoded_before_end(events.drop_first()));
                },
            }
        }
    }
}

/// Over any run of the receive loop, each ping is answered by one pong with
/// the same payload, in arrival order, and no other pong is sent.
pub proof fn lemma_loop_answers_pings<M>(events: Seq<ListenEvent<M>>)
    ensures
        pongs_sent(loop_actions(events)) == pings_before_end(events),
    decreases events.len(),
{
    if events.len() > 0 {
        let first = seq![action_spec(events[0])];
        if ends_stream(events[0]) {
            assert(first.drop_first() =~= Seq::<Action<M>>::empty());
            assert(action_spec(events[0]) is Finish);
            assert(pongs_sent(first) == pongs_sent(first.drop_first()));
            assert(pongs_sent(Seq::<Action<M>>::empty()) == Seq::<Vec<u8>>::empty());
        } else {
            lemma_loop_answers_pings(events.drop_first());
            let rest = loop_actions(events.drop_first());
            assert(loop_actions(events) == first + rest);
            assert((first + rest).drop_first() =~= rest);
            assert((first + rest)[0] == action_spec(events[0]));
            match events[0] {
                ListenEvent::Control(ControlFrame::Ping(p)) => {
                    assert(pongs_sent(first + rest) == seq![p] + pongs_sent(rest));
                    assert(pings_before_end(events) == seq![p] + pings_before_end(
                        events.drop_first(),
                    ));
                },
                _ => {
                    assert(!(action_spec(events[0]) is SendPong));
                    assert(pongs_sent(first + rest) == pongs_sent(rest));
                    assert(pings_before_end(events) == pings_before_end(events.drop_first()));
                },
            }
        }
    }
}

} // verus!
