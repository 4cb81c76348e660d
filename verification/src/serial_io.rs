//! The session with the programmer: the four wire commands as byte frames,
//! and the reading of what the programmer sends back.
//!
//! Nothing here touches a serial port. A command is handed out as an
//! [`Exchange`], which the caller carries out on its transport; what came of
//! it is handed back as an [`Event`].

use vstd::prelude::*;
use vstd::string::StringExecFns;
use crate::error::Error;
use crate::variant::EepromVariant;

verus! {

/// First byte of a select-device frame, the letter `d`.
pub const SELECT_DEVICE: u8 = 0x64;

/// First byte of a read-page frame, the letter `r`.
pub const READ_PAGE: u8 = 0x72;

/// First byte of a write-page frame, the letter `w`.
pub const WRITE_PAGE: u8 = 0x77;

/// The only byte of a close-session frame, the letter `q`.
pub const CLOSE_SESSION: u8 = 0x71;

/// The byte with which the programmer acknowledges a page write.
pub const WRITE_ACK: u8 = 0xA5;

/// The speed of the serial link, in baud, unless the caller sets another.
pub const DEFAULT_BAUD_RATE: u32 = 9600;

/// The number of seconds after which an exchange is given up, unless the
/// caller sets another. The transport has to have such a limit, so that a
/// programmer that falls silent cannot hold a transfer up for ever.
pub const DEFAULT_TIMEOUT_SECS: u64 = 10;

/// The frame that switches the programmer to the addressing family `id`.
pub open spec fn select_frame(id: u8) -> Seq<u8> {
    seq![SELECT_DEVICE, id]
}

/// The frame that asks for page `page`.
pub open spec fn read_frame(page: u8) -> Seq<u8> {
    seq![READ_PAGE, page]
}

/// The frame that stores `data` in page `page`: the command, the page index
/// and the data, with no length and no checksum.
pub open spec fn write_frame(page: u8, data: Seq<u8>) -> Seq<u8> {
    seq![WRITE_PAGE, page] + data
}

/// The frame that ends the session.
pub open spec fn close_frame() -> Seq<u8> {
    seq![CLOSE_SESSION]
}

/// What a read-page exchange came to: the page, if exactly 256 bytes arrived;
/// a transport error if the link failed or the reply has another length.
pub open spec fn page_reply(event: Option<Seq<u8>>) -> Result<Seq<u8>, Error> {
    match event {
        Some(bytes) => if bytes.len() == 256 {
            Ok(bytes)
        } else {
            Err(Error::Transport)
        },
        None => Err(Error::Transport),
    }
}

/// What a write-page exchange came to: success, if the reply is the single
/// byte `0xA5`; `NoWriteAck` for any other reply; a transport error if the
/// link failed.
pub open spec fn ack_reply(event: Option<Seq<u8>>) -> Result<(), Error> {
    match event {
        Some(bytes) => if bytes.len() == 1 && bytes[0] == WRITE_ACK {
            Ok(())
        } else {
            Err(Error::NoWriteAck)
        },
        None => Err(Error::Transport),
    }
}

/// One command for the transport: send `frame` in full, then receive exactly
/// `reply_len` bytes.
#[derive(Debug, PartialEq, Eq)]
pub struct Exchange {
    pub frame: Vec<u8>,
    pub reply_len: usize,
}

/// An exchange as a value of the model: the bytes of the frame and the
/// length of the reply.
pub ghost struct Request {
    pub frame: Seq<u8>,
    pub reply_len: int,
}

impl View for Exchange {
    type V = Request;

    open spec fn view(&self) -> Request {
        Request { frame: self.frame@, reply_len: self.reply_len as int }
    }
}

/// What came of an exchange.
#[derive(Debug, PartialEq, Eq)]
pub enum Event {
    /// The frame was sent and these bytes were received.
    Reply(Vec<u8>),
    /// Sending or receiving failed, or timed out.
    Failed,
}

impl View for Event {
    type V = Option<Seq<u8>>;

    /// The bytes received, or `None` where the link failed.
    open spec fn view(&self) -> Option<Seq<u8>> {
        match self {
            Event::Reply(bytes) => Some(bytes@),
            Event::Failed => None,
        }
    }
}

/// A session with the programmer, switched to one addressing family.
///
/// A session comes into being together with its select-device frame, and
/// `close` uses it up: no page frame can be built before the one or after the
/// other.
#[derive(Debug)]
pub struct Session {
    device_type_id: u8,
}

impl Session {
    /// The addressing family that the session was opened with.
    pub closed spec fn device_type_id(&self) -> u8 {
        self.device_type_id
    }

    /// Opens a session for `variant`. The exchange sends the select-device
    /// frame, to which the programmer gives no reply.
    pub fn open(variant: EepromVariant) -> (opened: (Session, Exchange))
        ensures
            opened.0.device_type_id() == variant.family().id(),
            opened.1.frame@ == select_frame(variant.family().id()),
            opened.1.reply_len == 0,
    {
        let id: u8 = variant.get_type().get_id();
        let mut frame: Vec<u8> = Vec::with_capacity(2);
        frame.push(SELECT_DEVICE);
        frame.push(id);
        assert(frame@ =~= select_frame(id));
        (Session { device_type_id: id }, Exchange { frame, reply_len: 0 })
    }

    /// The exchange that reads page `page_addr`: the read-page frame, answered
    /// by the 256 bytes of the page.
    pub fn read_page(&self, page_addr: u8) -> (exchange: Exchange)
        ensures
            exchange.frame@ == read_frame(page_addr),
            exchange.reply_len == 256,
    {
        let mut frame: Vec<u8> = Vec::with_capacity(2);
        frame.push(READ_PAGE);
        frame.push(page_addr);
        assert(frame@ =~= read_frame(page_addr));
        Exchange { frame, reply_len: 256 }
    }

    /// The exchange that writes `data` to page `page_addr`: the write-page
    /// frame, answered by one acknowledgement byte.
    pub fn write_page(&self, page_addr: u8, data: &[u8; 256]) -> (exchange: Exchange)
        ensures
            exchange.frame@ == write_frame(page_addr, data@),
            exchange.reply_len == 1,
    {
        let mut frame: Vec<u8> = Vec::with_capacity(258);
        frame.push(WRITE_PAGE);
        frame.push(page_addr);
        let mut k: usize = 0;
        while k < 256
            invariant
                k <= 256,
                frame@.len() == 2 + k,
                frame@[0] == WRITE_PAGE,
                frame@[1] == page_addr,
                forall|j: int| 0 <= j < k ==> frame@[2 + j] == data@[j],
            decreases 256 - k,
        {
            frame.push(data[k]);
            k += 1;
        }
        assert(frame@ =~= write_frame(page_addr, data@));
        Exchange { frame, reply_len: 1 }
    }

    /// Reads the outcome of a read-page exchange.
    pub fn page_received(&self, event: &Event) -> (page: Result<[u8; 256], Error>)
        ensures
            page is Ok <==> page_reply(event@) is Ok,
            page matches Ok(data) ==> page_reply(event@) == Ok::<Seq<u8>, Error>(data@),
            page matches Err(e) ==> page_reply(event@) == Err::<Seq<u8>, Error>(e),
    {
        match event {
            Event::Reply(bytes) => {
                if bytes.len() != 256 {
                    return Err(Error::Transport);
                }
                let mut data: [u8; 256] = [0u8; 256];
                let mut k: usize = 0;
                while k < 256
                    invariant
                        k <= 256,
                        bytes@.len() == 256,
                        forall|j: int| 0 <= j < k ==> data@[j] == bytes@[j],
                    decreases 256 - k,
                {
                    data[k] = bytes[k];
                    k += 1;
                }
                assert(data@ =~= bytes@);
                Ok(data)
            },
            Event::Failed => Err(Error::Transport),
        }
    }

    /// Reads the outcome of a write-page exchange.
    pub fn write_acknowledged(&self, event: &Event) -> (outcome: Result<(), Error>)
        ensures
            outcome == ack_reply(event@),
    {
        match event {
            Event::Reply(bytes) => {
                if bytes.len() == 1 && bytes[0] == WRITE_ACK {
                    Ok(())
                } else {
                    Err(Error::NoWriteAck)
                }
            },
            Event::Failed => Err(Error::Transport),
        }
    }

    /// Ends the session and gives the close-session frame. The frame is to
    /// be sent without regard to whether sending succeeds: there is no reply
    /// to it, and nothing follows it.
    pub fn close(self) -> (frame: Vec<u8>)
        ensures
            frame@ == close_frame(),
    {
        let mut frame: Vec<u8> = Vec::with_capacity(1);
        frame.push(CLOSE_SESSION);
        assert(frame@ =~= close_frame());
        frame
    }
}

/// A serial port of the host, as far as the search for the programmer looks
/// at it.
#[derive(Debug, PartialEq, Eq)]
pub struct PortInfo {
    /// The name under which the port is opened.
    pub port_name: String,
    /// The manufacturer that a USB port reports, if it is one and reports
    /// any.
    pub manufacturer: Option<String>,
}

impl PortInfo {
    /// Whether the port is one of a programmer: a USB port whose
    /// manufacturer is `Teensyduino`.
    pub open spec fn is_programmer(self) -> bool {
        self.manufacturer matches Some(name) && name@ == "Teensyduino"@
    }

    /// Computes `is_programmer`.
    pub fn is_programmer_port(&self) -> (found: bool)
        ensures
            found == self.is_programmer(),
    {
        match &self.manufacturer {
            Some(name) => {
                let wanted: String = String::from_str("Teensyduino");
                *name == wanted
            },
            None => false,
        }
    }
}

/// The ports of programmers among `ports`, in the order of `ports`.
pub open spec fn programmers(ports: Seq<PortInfo>) -> Seq<PortInfo> {
    ports.filter(|port: PortInfo| port.is_programmer())
}

/// Picks the ports of programmers out of the host's serial ports, in the
/// order in which they were found.
pub fn find_serial_ports(ports: Vec<PortInfo>) -> (found: Vec<PortInfo>)
    ensures
        found@ == programmers(ports@),
{
    let ghost all = ports@;
    let mut found: Vec<PortInfo> = Vec::new();
    proof {
        reveal(Seq::filter);
    }
    for port in iter: ports
        invariant
            iter.seq() == all,
            found@ == programmers(all.take(iter.index() as int)),
    {
        proof {
            reveal(Seq::filter);
            let n = iter.index() as int;
            assert(all.take(n + 1).drop_last() =~= all.take(n));
            assert(all.take(n + 1).last() == port);
        }
        if port.is_programmer_port() {
            found.push(port);
        }
    }
    assert(all.take(all.len() as int) =~= all);
    found
}

} // verus!
