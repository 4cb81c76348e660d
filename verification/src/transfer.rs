//! The transfer pipeline: reading a whole chip, or writing an image to it,
//! page by page and always followed by a verification pass.
//!
//! A transfer is a state machine. Each state has one exchange under way;
//! `step` takes what came of it and gives either the next state with its
//! exchange, or the end of the transfer. The machine is defined once, as the
//! spec function [`next`] on [`State`], and `Transfer::step` computes it.

use vstd::prelude::*;
use crate::error::Error;
use crate::page::{build_page, page_agrees, page_count, page_matches, padded_page, pages_needed};
use crate::serial_io::{
    ack_reply, close_frame, page_reply, read_frame, select_frame, write_frame, Event, Exchange,
    Request, Session, WRITE_ACK,
};
use crate::variant::{EepromVariant, PAGE_SIZE};

verus! {

/// The operation that a transfer performs.
#[derive(Clone, Copy, Debug, PartialEq, Eq, Structural)]
pub enum Action {
    /// Read the whole chip.
    ReadRom,
    /// Write an image to the chip.
    WriteRom,
}

/// The part of a transfer that is under way.
#[derive(Clone, Copy, Debug, PartialEq, Eq, Structural)]
pub enum Phase {
    /// The select-device frame is being sent.
    Opening,
    /// A page is being read from the chip, or written to it.
    Moving,
    /// A page is being read back and compared.
    Verifying,
}

/// The state of a transfer, as a value of the model.
pub ghost struct State {
    /// The addressing family that the session is opened with.
    pub device_type_id: u8,
    /// The chip's capacity in bytes.
    pub capacity: int,
    pub action: Action,
    pub phase: Phase,
    /// The index of the page whose exchange is under way.
    pub page: int,
    /// Writing, and verifying: the image that the chip is to hold.
    /// Reading: the pages received so far, in order.
    pub image: Seq<u8>,
}

/// What a step comes to, as a value of the model.
pub ghost enum Progress {
    /// The transfer goes on in this state, whose exchange is the next to be
    /// carried out.
    Continue(State),
    /// The transfer is over. `farewell` is the close-session frame if the
    /// session had been opened; `outcome` is the verified image or the error.
    Finish { farewell: Option<Seq<u8>>, outcome: Result<Seq<u8>, Error> },
}

impl State {
    /// The state in which a transfer starts.
    pub open spec fn opening(action: Action, variant: EepromVariant, image: Seq<u8>) -> State {
        State {
            device_type_id: variant.family().id(),
            capacity: variant.capacity() as int,
            action,
            phase: Phase::Opening,
            page: 0,
            image,
        }
    }

    /// The number of pages that the phase under way covers: when reading,
    /// those of the chip; when writing or verifying, those of the image.
    pub open spec fn pages(self) -> int {
        if self.action == Action::ReadRom && self.phase != Phase::Verifying {
            self.capacity / 256
        } else {
            page_count(self.image.len() as int)
        }
    }

    /// The states that a transfer can be in.
    pub open spec fn wf(self) -> bool {
        &&& 0 < self.capacity <= 65536
        &&& self.capacity % 256 == 0
        &&& self.image.len() <= self.capacity
        &&& match self.phase {
            Phase::Opening => self.page == 0 && (self.action == Action::ReadRom
                ==> self.image.len() == 0),
            Phase::Moving => 0 <= self.page < self.pages() && (self.action == Action::ReadRom
                ==> self.image.len() == 256 * self.page),
            Phase::Verifying => 0 <= self.page < self.pages() && (self.action == Action::ReadRom
                ==> self.image.len() == self.capacity),
        }
    }

    /// The exchange that is under way in this state.
    pub open spec fn request(self) -> Request {
        match self.phase {
            Phase::Opening => Request { frame: select_frame(self.device_type_id), reply_len: 0 },
            Phase::Moving => match self.action {
                Action::ReadRom => Request { frame: read_frame(self.page as u8), reply_len: 256 },
                Action::WriteRom => Request {
                    frame: write_frame(self.page as u8, padded_page(self.image, self.page)),
                    reply_len: 1,
                },
            },
            Phase::Verifying => Request { frame: read_frame(self.page as u8), reply_len: 256 },
        }
    }

    /// The number of exchanges that are still to come, this one included,
    /// if none of them fails.
    pub open spec fn remaining(self) -> int {
        match self.phase {
            Phase::Opening => 1 + self.pages() + match self.action {
                Action::ReadRom => self.capacity / 256,
                Action::WriteRom => self.pages(),
            },
            Phase::Moving => self.pages() - self.page + match self.action {
                Action::ReadRom => self.capacity / 256,
                Action::WriteRom => self.pages(),
            },
            Phase::Verifying => self.pages() - self.page,
        }
    }
}

/// The end of a transfer whose session had been opened: the close-session
/// frame goes out, whatever the outcome.
pub open spec fn closed(outcome: Result<Seq<u8>, Error>) -> Progress {
    Progress::Finish { farewell: Some(close_frame()), outcome }
}

/// The verification pass over the pages of `s.image`, from page 0; with no
/// page to check the transfer ends in success.
pub open spec fn verify_from(s: State) -> Progress {
    if page_count(s.image.len() as int) > 0 {
        Progress::Continue(State { phase: Phase::Verifying, page: 0, ..s })
    } else {
        closed(Ok(s.image))
    }
}

/// The first page exchange, once the session is open.
pub open spec fn move_from(s: State) -> Progress {
    if s.action == Action::ReadRom || page_count(s.image.len() as int) > 0 {
        Progress::Continue(State { phase: Phase::Moving, page: 0, ..s })
    } else {
        verify_from(s)
    }
}

/// The transition of the machine: what follows in state `s` when the exchange
/// under way came to `event`, the bytes received or `None` for a failure of
/// the link.
///
/// Every failure ends the transfer at once. Pages are taken in increasing
/// order from 0, none is skipped and none is tried again.
pub open spec fn next(s: State, event: Option<Seq<u8>>) -> Progress {
    match s.phase {
        Phase::Opening => match event {
            Some(_) => move_from(s),
            None => Progress::Finish { farewell: None, outcome: Err(Error::Transport) },
        },
        Phase::Moving => match s.action {
            Action::ReadRom => match page_reply(event) {
                Ok(data) => if s.page + 1 < s.pages() {
                    Progress::Continue(State { page: s.page + 1, image: s.image + data, ..s })
                } else {
                    verify_from(State { image: s.image + data, ..s })
                },
                Err(e) => closed(Err(e)),
            },
            Action::WriteRom => match ack_reply(event) {
                Ok(_) => if s.page + 1 < s.pages() {
                    Progress::Continue(State { page: s.page + 1, ..s })
                } else {
                    verify_from(s)
                },
                Err(e) => closed(Err(e)),
            },
        },
        Phase::Verifying => match page_reply(event) {
            Ok(data) => if !page_agrees(s.image, s.page, data) {
                closed(Err(Error::VerifyFailed))
            } else if s.page + 1 < s.pages() {
                Progress::Continue(State { page: s.page + 1, ..s })
            } else {
                closed(Ok(s.image))
            },
            Err(e) => closed(Err(e)),
        },
    }
}

/// A step from a state that a transfer can be in leads to such a state
/// again, with one exchange fewer to come.
pub proof fn lemma_next_keeps_wf(s: State, event: Option<Seq<u8>>)
    requires
        s.wf(),
    ensures
        next(s, event) matches Progress::Continue(t) ==> t.wf() && t.remaining() == s.remaining()
            - 1 && t.capacity == s.capacity && t.action == s.action && t.device_type_id
            == s.device_type_id,
        s.remaining() >= 1,
{
}

/// A failure of the link ends the transfer at once with a transport error,
/// whatever exchange was under way: nothing is tried again.
pub proof fn failed_exchange_ends_transfer(s: State)
    ensures
        next(s, None) matches Progress::Finish { outcome, .. } && outcome == Err::<
            Seq<u8>,
            Error,
        >(Error::Transport),
{
}

/// A page write that is answered with anything but the single byte `0xA5`
/// ends the transfer with `NoWriteAck`: the session is closed, and no page
/// after the failing one is sent.
pub proof fn unacknowledged_write_ends_transfer(s: State, reply: Seq<u8>)
    requires
        s.wf(),
        s.action == Action::WriteRom,
        s.phase == Phase::Moving,
        !(reply.len() == 1 && reply[0] == WRITE_ACK),
    ensures
        next(s, Some(reply)) == closed(Err(Error::NoWriteAck)),
{
}

/// Whether `events`, taken one for each exchange in turn, bring the transfer
/// in state `s` to its end with the last of them.
pub open spec fn ends_with(s: State, events: Seq<Option<Seq<u8>>>) -> bool
    decreases events.len(),
{
    events.len() > 0 && match next(s, events[0]) {
        Progress::Continue(t) => ends_with(t, events.drop_first()),
        Progress::Finish { .. } => events.len() == 1,
    }
}

/// The frames that go out, in order, when the transfer in state `s` is
/// driven by `events`: the frame of each exchange, and the farewell of the
/// step that ends the transfer.
pub open spec fn frames_sent(s: State, events: Seq<Option<Seq<u8>>>) -> Seq<Seq<u8>>
    decreases events.len(),
{
    if events.len() == 0 {
        Seq::empty()
    } else {
        seq![s.request().frame] + match next(s, events[0]) {
            Progress::Continue(t) => frames_sent(t, events.drop_first()),
            Progress::Finish { farewell, .. } => match farewell {
                Some(frame) => seq![frame],
                None => Seq::empty(),
            },
        }
    }
}

/// Whatever the exchanges come to, a transfer whose session was opened sends
/// the close-session frame exactly once, as the last frame of all. That
/// holds too where a page exchange in the middle fails.
pub proof fn session_closed_exactly_once(s: State, events: Seq<Option<Seq<u8>>>)
    requires
        s.wf(),
        ends_with(s, events),
        s.phase == Phase::Opening ==> events[0] is Some,
    ensures
        frames_sent(s, events).len() >= 2,
        frames_sent(s, events).last() == close_frame(),
        forall|i: int|
            0 <= i < frames_sent(s, events).len() - 1 ==> frames_sent(s, events)[i]
                != close_frame(),
    decreases events.len(),
{
    let head = seq![s.request().frame];
    assert(s.request().frame.len() != close_frame().len());
    lemma_next_keeps_wf(s, events[0]);
    match next(s, events[0]) {
        Progress::Continue(t) => {
            session_closed_exactly_once(t, events.drop_first());
            let rest = frames_sent(t, events.drop_first());
            assert(frames_sent(s, events) == head + rest);
        },
        Progress::Finish { farewell, .. } => {
            assert(farewell == Some(close_frame()));
            assert(frames_sent(s, events) == head + seq![close_frame()]);
        },
    }
}

/// A transfer whose select-device frame could not be sent ends at once with
/// a transport error: the session was never opened, and no close-session
/// frame goes out.
pub proof fn failed_opening_sends_nothing_more(s: State)
    requires
        s.phase == Phase::Opening,
    ensures
        next(s, None) == (Progress::Finish { farewell: None, outcome: Err(Error::Transport) }),
        frames_sent(s, seq![None]) == seq![select_frame(s.device_type_id)],
{
    assert(frames_sent(s, seq![None]) =~= seq![select_frame(s.device_type_id)]);
}

/// A transfer under way. It owns the session for as long as the transfer
/// lasts, and every value of it is a state that a transfer can be in.
#[derive(Debug)]
pub struct Transfer {
    session: Session,
    capacity: usize,
    action: Action,
    phase: Phase,
    page: usize,
    image: Vec<u8>,
}

impl View for Transfer {
    type V = State;

    closed spec fn view(&self) -> State {
        State {
            device_type_id: self.session.device_type_id(),
            capacity: self.capacity as int,
            action: self.action,
            phase: self.phase,
            page: self.page as int,
            image: self.image@,
        }
    }
}

/// The end of a transfer.
#[derive(Debug)]
pub struct Completion {
    /// The close-session frame, to be sent without regard to whether sending
    /// succeeds. It is absent only where the session was never opened.
    pub farewell: Option<Vec<u8>>,
    /// The image that the chip was verified to hold, or why the transfer was
    /// given up.
    pub outcome: Result<Vec<u8>, Error>,
}

/// What `Transfer::step` gives.
#[derive(Debug)]
pub enum Step {
    /// Carry out the exchange, then step the transfer with what came of it.
    Continue(Transfer, Exchange),
    /// The transfer is over.
    Finish(Completion),
}

impl View for Step {
    type V = Progress;

    open spec fn view(&self) -> Progress {
        match self {
            Step::Continue(transfer, _) => Progress::Continue(transfer@),
            Step::Finish(completion) => Progress::Finish {
                farewell: match completion.farewell {
                    Some(frame) => Some(frame@),
                    None => None,
                },
                outcome: match completion.outcome {
                    Ok(image) => Ok(image@),
                    Err(e) => Err(e),
                },
            },
        }
    }
}

/// Appends a page to the pages received so far.
fn append_page(image: &mut Vec<u8>, data: &[u8; 256])
    ensures
        final(image)@ == old(image)@ + data@,
{
    let mut k: usize = 0;
    while k < 256
        invariant
            k <= 256,
            image@.len() == old(image)@.len() + k,
            forall|j: int| 0 <= j < old(image)@.len() ==> image@[j] == old(image)@[j],
            forall|j: int| 0 <= j < k ==> image@[old(image)@.len() + j] == data@[j],
        decreases 256 - k,
    {
        image.push(data[k]);
        k += 1;
    }
    assert(image@ =~= old(image)@ + data@);
}

/// Ends a transfer whose session is open.
fn finish(session: Session, outcome: Result<Vec<u8>, Error>) -> (step: Step)
    ensures
        step@ == closed(
            match outcome {
                Ok(image) => Ok(image@),
                Err(e) => Err(e),
            },
        ),
{
    Step::Finish(Completion { farewell: Some(session.close()), outcome })
}

/// Goes on with the exchange of page `page` in `phase`.
fn proceed(
    session: Session,
    capacity: usize,
    action: Action,
    phase: Phase,
    page: usize,
    image: Vec<u8>,
) -> (step: Step)
    requires
        phase != Phase::Opening,
        (State {
            device_type_id: session.device_type_id(),
            capacity: capacity as int,
            action,
            phase,
            page: page as int,
            image: image@,
        }).wf(),
    ensures
        step@ == Progress::Continue(
            State {
                device_type_id: session.device_type_id(),
                capacity: capacity as int,
                action,
                phase,
                page: page as int,
                image: image@,
            },
        ),
        step matches Step::Continue(t, x) && x@ == t@.request(),
{
    let index: u8 = page as u8;
    let exchange = match (phase, action) {
        (Phase::Moving, Action::WriteRom) => {
            let buffer: [u8; 256] = build_page(image.as_slice(), page);
            session.write_page(index, &buffer)
        },
        _ => session.read_page(index),
    };
    Step::Continue(Transfer { session, capacity, action, phase, page, image }, exchange)
}

/// Runs the verification pass against `expected`, on the session that the
/// pages were moved on.
fn verify_rom(session: Session, capacity: usize, action: Action, expected: Vec<u8>) -> (step: Step)
    requires
        0 < capacity <= 65536,
        capacity % 256 == 0,
        expected@.len() <= capacity,
        action == Action::ReadRom ==> expected@.len() == capacity,
    ensures
        step@ == verify_from(
            State {
                device_type_id: session.device_type_id(),
                capacity: capacity as int,
                action,
                phase: Phase::Moving,
                page: 0,
                image: expected@,
            },
        ),
        step matches Step::Continue(t, x) ==> x@ == t@.request(),
{
    if pages_needed(expected.len()) > 0 {
        proceed(session, capacity, action, Phase::Verifying, 0, expected)
    } else {
        finish(session, Ok(expected))
    }
}

impl Transfer {
    #[verifier::type_invariant]
    spec fn well_formed(&self) -> bool {
        self@.wf()
    }

    /// The operation that the transfer performs.
    pub fn action(&self) -> (action: Action)
        ensures
            action == self@.action,
    {
        self.action
    }

    /// The part of the transfer that is under way.
    pub fn phase(&self) -> (phase: Phase)
        ensures
            phase == self@.phase,
    {
        self.phase
    }

    /// The index of the page whose exchange is under way.
    pub fn page(&self) -> (page: usize)
        ensures
            page == self@.page,
    {
        self.page
    }

    /// The number of pages that the phase under way covers.
    pub fn pages(&self) -> (pages: usize)
        ensures
            pages == self@.pages(),
    {
        match (self.action, self.phase) {
            (Action::ReadRom, Phase::Opening) | (Action::ReadRom, Phase::Moving) => self.capacity
                / PAGE_SIZE,
            _ => pages_needed(self.image.len()),
        }
    }

    /// Starts a full read of the chip. The exchange opens the session.
    pub fn read_rom(variant: EepromVariant) -> (started: (Transfer, Exchange))
        ensures
            started.0@ == State::opening(Action::ReadRom, variant, Seq::empty()),
            started.1@ == started.0@.request(),
    {
        let (session, exchange) = Session::open(variant);
        let capacity: usize = variant.get_capacity();
        let transfer = Transfer {
            session,
            capacity,
            action: Action::ReadRom,
            phase: Phase::Opening,
            page: 0,
            image: Vec::new(),
        };
        (transfer, exchange)
    }

    /// Starts a full write of `rom` to the chip. An image that is longer
    /// than the chip's capacity is refused before any exchange is made;
    /// otherwise the exchange opens the session.
    pub fn write_rom(variant: EepromVariant, rom: Vec<u8>) -> (started: Result<
        (Transfer, Exchange),
        Error,
    >)
        ensures
            rom@.len() > variant.capacity() ==> started is Err && started->Err_0
                == Error::RomTooBig,
            rom@.len() <= variant.capacity() ==> started is Ok && started->Ok_0.0@
                == State::opening(Action::WriteRom, variant, rom@) && started->Ok_0.1@
                == started->Ok_0.0@.request(),
    {
        let capacity: usize = variant.get_capacity();
        if rom.len() > capacity {
            return Err(Error::RomTooBig);
        }
        let (session, exchange) = Session::open(variant);
        let transfer = Transfer {
            session,
            capacity,
            action: Action::WriteRom,
            phase: Phase::Opening,
            page: 0,
            image: rom,
        };
        Ok((transfer, exchange))
    }

    /// Takes what came of the exchange under way and gives what follows:
    /// the value of [`next`] for this state and `event`, and with a state
    /// that goes on, the exchange of that state.
    pub fn step(self, event: Event) -> (step: Step)
        ensures
            step@ == next(self@, event@),
            step matches Step::Continue(t, x) ==> x@ == t@.request(),
    {
        proof {
            use_type_invariant(&self);
        }
        let Transfer { session, capacity, action, phase, page, image } = self;
        match phase {
            Phase::Opening => match event {
                Event::Reply(_) => match action {
                    Action::ReadRom => proceed(session, capacity, action, Phase::Moving, 0, image),
                    Action::WriteRom => if pages_needed(image.len()) > 0 {
                        proceed(session, capacity, action, Phase::Moving, 0, image)
                    } else {
                        verify_rom(session, capacity, action, image)
                    },
                },
                Event::Failed => Step::Finish(
                    Completion { farewell: None, outcome: Err(Error::Transport) },
                ),
            },
            Phase::Moving => match action {
                Action::ReadRom => match session.page_received(&event) {
                    Ok(data) => {
                        let mut image = image;
                        append_page(&mut image, &data);
                        if page + 1 < capacity / PAGE_SIZE {
                            proceed(session, capacity, action, Phase::Moving, page + 1, image)
                        } else {
                            verify_rom(session, capacity, action, image)
                        }
                    },
                    Err(e) => finish(session, Err(e)),
                },
                Action::WriteRom => match session.write_acknowledged(&event) {
                    Ok(_) => if page + 1 < pages_needed(image.len()) {
                        proceed(session, capacity, action, Phase::Moving, page + 1, image)
                    } else {
                        verify_rom(session, capacity, action, image)
                    },
                    Err(e) => finish(session, Err(e)),
                },
            },
            Phase::Verifying => match session.page_received(&event) {
                Ok(data) => if !page_matches(image.as_slice(), page, &data) {
                    finish(session, Err(Error::VerifyFailed))
                } else if page + 1 < pages_needed(image.len()) {
                    proceed(session, capacity, action, Phase::Verifying, page + 1, image)
                } else {
                    finish(session, Ok(image))
                },
                Err(e) => finish(session, Err(e)),
            },
        }
    }
}

} // verus!
