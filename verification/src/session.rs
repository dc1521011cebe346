//! One transport session: whether it is open, and the frames that wait to be
//! written to it. The heartbeat duties and the event emitters act on it; a
//! driver takes the waiting frames and writes them to the wire.

use vstd::prelude::*;
use crate::config::texts_of;
use crate::error::{already_closed, BridgeError};
use crate::message::{
    console_frame, error_frame, is_frame, is_ping, is_ping_frame, ping_frame, pong_frame,
    WireMessage,
};

verus! {

/// What one wait of the reader ended with.
#[derive(Debug)]
pub enum Inbound {
    /// A text message arrived.
    Text(String),
    /// A message that is no text arrived.
    Other,
    /// Nothing arrived within the heartbeat timeout.
    TimedOut,
    /// The transport reported an error.
    Failed,
    /// The stream of inbound messages ended.
    Ended,
}

/// A session as a mathematical value.
pub struct SessionView {
    /// The address that the session is connected to.
    pub endpoint: Seq<char>,
    /// Whether the session is still open.
    pub open: bool,
    /// The frames that wait to be written, oldest first.
    pub pending: Seq<Seq<char>>,
}

impl SessionView {
    /// The session with the frame of `m` added behind the waiting frames.
    pub open spec fn with_frame(self, m: WireMessage) -> SessionView {
        SessionView { pending: self.pending.push(m.frame()), ..self }
    }

    /// The session after an attempt to write `m`: an open session takes the
    /// frame, a closed one stays as it is.
    pub open spec fn after_write(self, m: WireMessage) -> SessionView {
        if self.open {
            self.with_frame(m)
        } else {
            self
        }
    }

    /// The session, closed. The waiting frames stay.
    pub open spec fn shut(self) -> SessionView {
        SessionView { open: false, ..self }
    }

    /// The session with nothing waiting.
    pub open spec fn drained(self) -> SessionView {
        SessionView { pending: Seq::empty(), ..self }
    }

    /// The session after the reader has dealt with one wait. A ping is
    /// answered with one pong; any other message changes nothing; silence, an
    /// error or the end of the stream closes the session. A closed session
    /// stays as it is.
    pub open spec fn after_inbound(self, inbound: Inbound) -> SessionView {
        if !self.open {
            self
        } else {
            match inbound {
                Inbound::Text(t) => if is_ping(t@) {
                    self.with_frame(WireMessage::Pong)
                } else {
                    self
                },
                Inbound::Other => self,
                Inbound::TimedOut | Inbound::Failed | Inbound::Ended => self.shut(),
            }
        }
    }

    /// Whether the reader goes on to wait again after dealing with one wait:
    /// it does on an open session after any message.
    pub open spec fn reader_goes_on(self, inbound: Inbound) -> bool {
        self.open && (inbound is Text || inbound is Other)
    }

    /// The session after the pinger has beaten `beats` times.
    pub open spec fn after_beats(self, beats: nat) -> SessionView
        decreases beats,
    {
        if beats == 0 {
            self
        } else {
            self.after_beats((beats - 1) as nat).after_write(WireMessage::Ping)
        }
    }

    /// Every waiting frame is the whole frame of one message.
    pub open spec fn well_framed(self) -> bool {
        forall|i: int| 0 <= i < self.pending.len() ==> is_frame(#[trigger] self.pending[i])
    }
}

/// One transport session.
pub struct Session {
    endpoint: String,
    open: bool,
    outbox: Vec<String>,
}

impl View for Session {
    type V = SessionView;

    closed spec fn view(&self) -> SessionView {
        SessionView { endpoint: self.endpoint@, open: self.open, pending: texts_of(self.outbox@) }
    }
}

impl Session {
    #[verifier::type_invariant]
    spec fn whole_frames(self) -> bool {
        self@.well_framed()
    }

    /// A session to `endpoint`, open, with nothing waiting.
    pub fn new(endpoint: String) -> (s: Self)
        ensures
            s@ == (SessionView { endpoint: endpoint@, open: true, pending: Seq::empty() }),
    {
        let s = Session { endpoint, open: true, outbox: Vec::new() };
        assert(s@.pending =~= Seq::empty());
        s
    }

    /// The address that the session is connected to.
    pub fn endpoint(&self) -> (address: &str)
        ensures
            address@ == self@.endpoint,
    {
        self.endpoint.as_str()
    }

    pub fn is_open(&self) -> (open: bool)
        ensures
            open == self@.open,
    {
        self.open
    }

    /// The number of frames that wait to be written.
    pub fn pending_len(&self) -> (n: usize)
        ensures
            n == self@.pending.len(),
    {
        self.outbox.len()
    }

    /// Closes the session. It is never open again.
    pub fn close(&mut self)
        ensures
            final(self)@ == old(self)@.shut(),
    {
        proof {
            use_type_invariant(&*self);
            assert(self@.shut().well_framed());
        }
        self.open = false;
    }

    /// Hands out the frames that wait to be written, oldest first, and
    /// leaves none waiting. Each is the whole frame of one message.
    pub fn take_pending(&mut self) -> (frames: Vec<String>)
        ensures
            texts_of(frames@) == old(self)@.pending,
            final(self)@ == old(self)@.drained(),
            forall|i: int| 0 <= i < frames@.len() ==> is_frame(#[trigger] frames@[i]@),
    {
        proof {
            use_type_invariant(&*self);
        }
        let mut frames: Vec<String> = Vec::new();
        core::mem::swap(&mut self.outbox, &mut frames);
        assert(self@.pending =~= Seq::empty());
        assert forall|i: int| 0 <= i < frames@.len() implies is_frame(#[trigger] frames@[i]@) by {
            assert(old(self)@.pending[i] == frames@[i]@);
        }
        frames
    }

    /// The write path: an open session takes the frame, a closed one refuses
    /// it as the transport would.
    pub(crate) fn write(&mut self, frame: String, Ghost(m): Ghost<WireMessage>) -> (r: Result<
        (),
        BridgeError,
    >)
        requires
            frame@ == m.frame(),
        ensures
            final(self)@ == old(self)@.after_write(m),
            old(self)@.open ==> r is Ok,
            !old(self)@.open ==> r matches Err(BridgeError::Ws(_)),
    {
        proof {
            use_type_invariant(&*self);
        }
        if self.open {
            let mut frames: Vec<String> = Vec::new();
            core::mem::swap(&mut self.outbox, &mut frames);
            frames.push(frame);
            assert(texts_of(frames@) =~= old(self)@.pending.push(m.frame()));
            assert(is_frame(m.frame()));
            self.outbox = frames;
            Ok(())
        } else {
            Err(BridgeError::Ws(already_closed()))
        }
    }

    /// Writes a console event with the given timestamp.
    ///
    /// On an open session the frame joins the waiting frames. On a closed one
    /// the call fails with a transport error and nothing is written.
    pub fn emit_console(&mut self, level: &str, message: &str, timestamp: u64) -> (r: Result<
        (),
        BridgeError,
    >)
        ensures
            final(self)@ == old(self)@.after_write(
                WireMessage::Console { level: level@, message: message@, timestamp },
            ),
            old(self)@.open ==> r is Ok,
            !old(self)@.open ==> r matches Err(BridgeError::Ws(_)),
    {
        let frame = console_frame(level, message, timestamp);
        self.write(frame, Ghost(WireMessage::Console { level: level@, message: message@, timestamp }))
    }

    /// Writes an error event with the given timestamp.
    ///
    /// On an open session the frame joins the waiting frames. On a closed one
    /// the call fails with a transport error and nothing is written.
    pub fn emit_error(&mut self, message: &str, timestamp: u64) -> (r: Result<(), BridgeError>)
        ensures
            final(self)@ == old(self)@.after_write(
                WireMessage::Error { message: message@, timestamp },
            ),
            old(self)@.open ==> r is Ok,
            !old(self)@.open ==> r matches Err(BridgeError::Ws(_)),
    {
        let frame = error_frame(message, timestamp);
        self.write(frame, Ghost(WireMessage::Error { message: message@, timestamp }))
    }

    /// One beat of the pinger: writes a ping. On a closed session the write
    /// fails with a transport error, which ends the pinger.
    pub fn beat(&mut self) -> (r: Result<(), BridgeError>)
        ensures
            final(self)@ == old(self)@.after_write(WireMessage::Ping),
            old(self)@.open ==> r is Ok,
            !old(self)@.open ==> r matches Err(BridgeError::Ws(_)),
    {
        let frame = ping_frame();
        self.write(frame, Ghost(WireMessage::Ping))
    }

    /// One round of the reader: deals with what a wait ended with, and says
    /// whether the reader waits again.
    ///
    /// A ping is answered with exactly one pong, queued before the call
    /// returns. Any other message, a text that is no JSON among them, is
    /// passed over. Silence for the whole timeout, a transport error or the
    /// end of the stream close the session and end the reader.
    pub fn receive(&mut self, inbound: Inbound) -> (goes_on: bool)
        ensures
            final(self)@ == old(self)@.after_inbound(inbound),
            goes_on == old(self)@.reader_goes_on(inbound),
    {
        if !self.open {
            return false;
        }
        match inbound {
            Inbound::Text(text) => {
                if is_ping_frame(text.as_str()) {
                    let frame = pong_frame();
                    let _ = self.write(frame, Ghost(WireMessage::Pong));
                }
                true
            },
            Inbound::Other => true,
            Inbound::TimedOut | Inbound::Failed | Inbound::Ended => {
                self.close();
                false
            },
        }
    }
}

/// However often the pinger has beaten, silence for the whole timeout closes
/// the session: beats are no inbound traffic.
pub proof fn lemma_silence_closes_despite_beats(s: SessionView, beats: nat)
    ensures
        !s.after_beats(beats).after_inbound(Inbound::TimedOut).open,
        s.after_beats(beats).open == s.open,
        !s.after_beats(beats).reader_goes_on(Inbound::TimedOut),
    decreases beats,
{
    if beats > 0 {
        lemma_silence_closes_despite_beats(s, (beats - 1) as nat);
    }
}

/// A closed session takes no frame, whatever is written to it.
pub proof fn lemma_closed_session_takes_nothing(s: SessionView, m: WireMessage)
    requires
        !s.open,
    ensures
        s.after_write(m) == s,
{
}

/// Writing and reading keep every waiting frame whole: each is the frame of
/// one message, never a part of one and never two run together.
pub proof fn lemma_frames_stay_whole(s: SessionView, m: WireMessage, inbound: Inbound)
    requires
        s.well_framed(),
    ensures
        s.after_write(m).well_framed(),
        s.after_inbound(inbound).well_framed(),
{
    assert(is_frame(m.frame()));
    assert(is_frame(WireMessage::Pong.frame()));
}

} // verus!
