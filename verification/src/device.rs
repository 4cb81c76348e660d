//! A model of a programmer that does what the protocol lays down, and what
//! holds of a transfer that runs against it from the first exchange to the
//! end: what was written is read back, and verification passes exactly where
//! the chip holds the image.

use vstd::prelude::*;
use crate::error::Error;
use crate::page::{padded_page, page_agrees, page_count, page_len};
use crate::serial_io::{
    ack_reply, close_frame, page_reply, read_frame, select_frame, write_frame, READ_PAGE,
    SELECT_DEVICE, WRITE_ACK, WRITE_PAGE,
};
use crate::transfer::{lemma_next_keeps_wf, next, Action, Phase, Progress, State};
use crate::variant::EepromVariant;

verus! {

/// The 256 bytes of page `page` of the chip.
pub open spec fn page_of(memory: Seq<u8>, page: int) -> Seq<u8> {
    memory.subrange(256 * page, 256 * page + 256)
}

/// The chip's memory after `data` was stored as page `page`.
pub open spec fn stored(memory: Seq<u8>, page: int, data: Seq<u8>) -> Seq<u8> {
    Seq::new(
        memory.len(),
        |i: int|
            if 256 * page <= i < 256 * page + 256 {
                data[i - 256 * page]
            } else {
                memory[i]
            },
    )
}

/// The chip's memory after `image` was written to it: the image, zeros up to
/// the end of the image's last page, and behind that what was there before.
pub open spec fn written(memory: Seq<u8>, image: Seq<u8>) -> Seq<u8> {
    Seq::new(
        memory.len(),
        |i: int|
            if i < image.len() {
                image[i]
            } else if i < 256 * page_count(image.len() as int) {
                0u8
            } else {
                memory[i]
            },
    )
}

/// What the programmer makes of a frame: the chip's memory afterwards, and
/// what the exchange comes to.
pub ghost struct Answer {
    pub memory: Seq<u8>,
    pub event: Option<Seq<u8>>,
}

/// The programmer's answer to `frame`, with a chip that holds `memory`.
///
/// A select-device frame is taken without a reply. A read-page frame is
/// answered with the page. A write-page frame stores its data and is
/// acknowledged with `0xA5`. Whatever else arrives, a page beyond the chip
/// included, is left unanswered.
pub open spec fn answer(memory: Seq<u8>, frame: Seq<u8>) -> Answer {
    if frame.len() == 2 && frame[0] == SELECT_DEVICE {
        Answer { memory, event: Some(Seq::empty()) }
    } else if frame.len() == 2 && frame[0] == READ_PAGE && 256 * (frame[1] + 1) <= memory.len() {
        Answer { memory, event: Some(page_of(memory, frame[1] as int)) }
    } else if frame.len() == 258 && frame[0] == WRITE_PAGE && 256 * (frame[1] + 1) <= memory.len() {
        Answer {
            memory: stored(memory, frame[1] as int, frame.subrange(2, 258)),
            event: Some(seq![WRITE_ACK]),
        }
    } else {
        Answer { memory, event: None }
    }
}

/// How a transfer ends: its outcome, what the chip then holds, and the
/// frames that were sent on the way, in order.
pub ghost struct Ending {
    pub outcome: Result<Seq<u8>, Error>,
    pub memory: Seq<u8>,
    pub frames: Seq<Seq<u8>>,
}

/// The read-page frames for the pages from `from` up to `to`, in order.
pub open spec fn read_frames(from: int, to: int) -> Seq<Seq<u8>> {
    Seq::new((to - from) as nat, |k: int| read_frame((from + k) as u8))
}

/// The write-page frames for the pages of `image` from `from` up to `to`, in
/// order, each with its page of the image padded with zeros.
pub open spec fn write_frames(image: Seq<u8>, from: int, to: int) -> Seq<Seq<u8>> {
    Seq::new(
        (to - from) as nat,
        |k: int| write_frame((from + k) as u8, padded_page(image, from + k)),
    )
}

/// The frames of a write that succeeds: select-device, the pages of the
/// image in order, the same pages read back in order, close-session.
pub open spec fn frames_of_write(variant: EepromVariant, rom: Seq<u8>) -> Seq<Seq<u8>> {
    let pages = page_count(rom.len() as int);
    seq![select_frame(variant.family().id())] + write_frames(rom, 0, pages) + read_frames(
        0,
        pages,
    ) + seq![close_frame()]
}

/// The frames of a read that succeeds: select-device, the pages of the chip
/// in order, the same pages once more for verification, close-session.
pub open spec fn frames_of_read(variant: EepromVariant) -> Seq<Seq<u8>> {
    let pages = variant.capacity() as int / 256;
    seq![select_frame(variant.family().id())] + read_frames(0, pages) + read_frames(0, pages)
        + seq![close_frame()]
}

/// The transfer from state `s` to its end, against a programmer whose chip
/// holds `memory`: each exchange is answered by `answer`, and the answer is
/// what the next step takes.
pub open spec fn run(s: State, memory: Seq<u8>) -> Ending
    decreases s.remaining(),
    when s.wf()
    via run_decreases
{
    let frame = s.request().frame;
    let a = answer(memory, frame);
    match next(s, a.event) {
        Progress::Continue(t) => {
            let rest = run(t, a.memory);
            Ending { frames: seq![frame] + rest.frames, ..rest }
        },
        Progress::Finish { farewell, outcome } => Ending {
            outcome,
            memory: a.memory,
            frames: match farewell {
                Some(last) => seq![frame, last],
                None => seq![frame],
            },
        },
    }
}

#[via_fn]
proof fn run_decreases(s: State, memory: Seq<u8>) {
    lemma_next_keeps_wf(s, answer(memory, s.request().frame).event);
}

/// A read-page frame for a page of the chip is answered with that page, and
/// the chip is left as it was.
proof fn lemma_answer_read(memory: Seq<u8>, page: int)
    requires
        0 <= page < 256,
        256 * (page + 1) <= memory.len(),
    ensures
        answer(memory, read_frame(page as u8)) == (Answer {
            memory,
            event: Some(page_of(memory, page)),
        }),
        page_reply(Some(page_of(memory, page))) == Ok::<Seq<u8>, Error>(page_of(memory, page)),
{
}

/// A write-page frame for a page of the chip stores the data and is
/// acknowledged.
proof fn lemma_answer_write(memory: Seq<u8>, page: int, data: Seq<u8>)
    requires
        0 <= page < 256,
        256 * (page + 1) <= memory.len(),
        data.len() == 256,
    ensures
        answer(memory, write_frame(page as u8, data)) == (Answer {
            memory: stored(memory, page, data),
            event: Some(seq![WRITE_ACK]),
        }),
        ack_reply(Some(seq![WRITE_ACK])) == Ok::<(), Error>(()),
{
    let frame = write_frame(page as u8, data);
    assert(frame.subrange(2, 258) =~= data);
}

/// A page read from the chip agrees with an image exactly if the chip holds
/// the image's bytes of that page.
proof fn lemma_page_agrees(image: Seq<u8>, memory: Seq<u8>, page: int)
    requires
        0 <= page,
        256 * (page + 1) <= memory.len(),
    ensures
        page_agrees(image, page, page_of(memory, page)) <==> (forall|i: int|
            256 * page <= i < 256 * (page + 1) && i < image.len() ==> memory[i] == image[i]),
{
    let data = page_of(memory, page);
    let count = page_len(image.len() as int, page);
    if page_agrees(image, page, data) {
        assert forall|i: int|
            256 * page <= i < 256 * (page + 1) && i < image.len() implies memory[i] == image[i] by {
            let k = i - 256 * page;
            assert(0 <= k < count);
            assert(data[k] == image[256 * page + k]);
        }
    }
    if forall|i: int|
        256 * page <= i < 256 * (page + 1) && i < image.len() ==> memory[i] == image[i] {
        assert forall|k: int| 0 <= k < count implies #[trigger] data[k] == image[256 * page
            + k] by {
            let i = 256 * page + k;
            assert(memory[i] == image[i]);
        }
    }
}

/// Verification from page `s.page` on, where the pages before it agreed: it
/// passes exactly if the chip holds the image, and it changes nothing.
proof fn lemma_verify_run(s: State, memory: Seq<u8>)
    requires
        s.wf(),
        s.phase == Phase::Verifying,
        memory.len() == s.capacity,
        forall|i: int| 0 <= i < 256 * s.page && i < s.image.len() ==> memory[i] == s.image[i],
    ensures
        run(s, memory).memory == memory,
        run(s, memory).outcome == if forall|i: int|
            0 <= i < s.image.len() ==> memory[i] == s.image[i] {
            Ok::<Seq<u8>, Error>(s.image)
        } else {
            Err::<Seq<u8>, Error>(Error::VerifyFailed)
        },
        run(s, memory).outcome is Ok ==> run(s, memory).frames == read_frames(s.page, s.pages())
            + seq![close_frame()],
    decreases s.remaining(),
{
    let data = page_of(memory, s.page);
    let frame = read_frame(s.page as u8);
    let closing = seq![close_frame()];
    lemma_answer_read(memory, s.page);
    lemma_page_agrees(s.image, memory, s.page);
    lemma_next_keeps_wf(s, Some(data));
    if page_agrees(s.image, s.page, data) {
        if s.page + 1 < s.pages() {
            let t = State { page: s.page + 1, ..s };
            assert(next(s, Some(data)) == Progress::Continue(t));
            lemma_verify_run(t, memory);
            assert(seq![frame] + (read_frames(t.page, s.pages()) + closing) =~= read_frames(
                s.page,
                s.pages(),
            ) + closing);
        } else {
            assert(seq![frame, close_frame()] =~= read_frames(s.page, s.pages()) + closing);
        }
    }
}

/// Reading from page `s.page` on, where the pages before it were received
/// as the chip holds them: the transfer gives the whole of the chip's memory
/// and changes nothing.
proof fn lemma_read_run(s: State, memory: Seq<u8>)
    requires
        s.wf(),
        s.action == Action::ReadRom,
        s.phase == Phase::Moving,
        memory.len() == s.capacity,
        s.image == memory.subrange(0, 256 * s.page),
    ensures
        run(s, memory) == (Ending {
            outcome: Ok(memory),
            memory,
            frames: read_frames(s.page, s.pages()) + (read_frames(0, s.pages()) + seq![
                close_frame(),
            ]),
        }),
    decreases s.remaining(),
{
    let data = page_of(memory, s.page);
    let frame = read_frame(s.page as u8);
    let tail = read_frames(0, s.pages()) + seq![close_frame()];
    lemma_answer_read(memory, s.page);
    lemma_next_keeps_wf(s, Some(data));
    let image = s.image + data;
    assert(image =~= memory.subrange(0, 256 * (s.page + 1)));
    if s.page + 1 < s.pages() {
        let t = State { page: s.page + 1, image, ..s };
        assert(next(s, Some(data)) == Progress::Continue(t));
        lemma_read_run(t, memory);
        assert(seq![frame] + (read_frames(t.page, s.pages()) + tail) =~= read_frames(
            s.page,
            s.pages(),
        ) + tail);
    } else {
        assert(image =~= memory);
        let t = State { phase: Phase::Verifying, page: 0, image, ..s };
        assert(next(s, Some(data)) == Progress::Continue(t));
        lemma_verify_run(t, memory);
        assert(seq![frame] + tail =~= read_frames(s.page, s.pages()) + tail);
    }
}

/// Writing from page `s.page` on, where the pages before it were stored:
/// the transfer succeeds, and the chip then holds the image, padded with
/// zeros to the end of its last page.
proof fn lemma_write_run(s: State, memory: Seq<u8>)
    requires
        s.wf(),
        s.action == Action::WriteRom,
        s.phase == Phase::Moving,
        memory.len() == s.capacity,
        forall|i: int| 0 <= i < 256 * s.page ==> memory[i] == written(memory, s.image)[i],
    ensures
        run(s, memory) == (Ending {
            outcome: Ok(s.image),
            memory: written(memory, s.image),
            frames: write_frames(s.image, s.page, s.pages()) + (read_frames(0, s.pages()) + seq![
                close_frame(),
            ]),
        }),
    decreases s.remaining(),
{
    let data = padded_page(s.image, s.page);
    let frame = write_frame(s.page as u8, data);
    let tail = read_frames(0, s.pages()) + seq![close_frame()];
    lemma_answer_write(memory, s.page, data);
    lemma_next_keeps_wf(s, Some(seq![WRITE_ACK]));
    let after = stored(memory, s.page, data);
    assert(written(after, s.image) =~= written(memory, s.image));
    if s.page + 1 < s.pages() {
        let t = State { page: s.page + 1, ..s };
        assert(next(s, Some(seq![WRITE_ACK])) == Progress::Continue(t));
        lemma_write_run(t, after);
        assert(seq![frame] + (write_frames(s.image, t.page, s.pages()) + tail) =~= write_frames(
            s.image,
            s.page,
            s.pages(),
        ) + tail);
    } else {
        let t = State { phase: Phase::Verifying, page: 0, ..s };
        assert(next(s, Some(seq![WRITE_ACK])) == Progress::Continue(t));
        assert(after =~= written(memory, s.image));
        lemma_verify_run(t, after);
        assert(seq![frame] + tail =~= write_frames(s.image, s.page, s.pages()) + tail);
    }
}

/// Writing an image that fits the chip succeeds against such a programmer,
/// verification included. It leaves the chip holding the image, zeros from
/// the image's end to the end of its last page, and its old content behind
/// that; and it sends the frames of `frames_of_write`, no other and in that
/// order.
pub proof fn write_stores_image(variant: EepromVariant, rom: Seq<u8>, memory: Seq<u8>)
    requires
        rom.len() <= variant.capacity(),
        memory.len() == variant.capacity(),
    ensures
        run(State::opening(Action::WriteRom, variant, rom), memory) == (Ending {
            outcome: Ok(rom),
            memory: written(memory, rom),
            frames: frames_of_write(variant, rom),
        }),
{
    let s = State::opening(Action::WriteRom, variant, rom);
    let pages = page_count(rom.len() as int);
    let head = seq![select_frame(variant.family().id())];
    let tail = read_frames(0, pages) + seq![close_frame()];
    variant.lemma_capacity_in_whole_pages();
    lemma_next_keeps_wf(s, Some(Seq::empty()));
    if pages > 0 {
        let t = State { phase: Phase::Moving, page: 0, ..s };
        assert(next(s, Some(Seq::empty())) == Progress::Continue(t));
        lemma_write_run(t, memory);
        assert(head + (write_frames(rom, 0, pages) + tail) =~= frames_of_write(variant, rom));
    } else {
        assert(written(memory, rom) =~= memory);
        assert(seq![select_frame(variant.family().id()), close_frame()] =~= frames_of_write(
            variant,
            rom,
        ));
    }
}

/// Reading the chip succeeds against such a programmer, verification
/// included. It gives the chip's memory byte for byte, leaves the chip as it
/// was, and sends the frames of `frames_of_read`, no other and in that
/// order.
pub proof fn read_gives_memory(variant: EepromVariant, memory: Seq<u8>)
    requires
        memory.len() == variant.capacity(),
    ensures
        run(State::opening(Action::ReadRom, variant, Seq::empty()), memory) == (Ending {
            outcome: Ok(memory),
            memory,
            frames: frames_of_read(variant),
        }),
{
    let s = State::opening(Action::ReadRom, variant, Seq::empty());
    let pages = variant.capacity() as int / 256;
    let head = seq![select_frame(variant.family().id())];
    let tail = read_frames(0, pages) + seq![close_frame()];
    variant.lemma_capacity_in_whole_pages();
    lemma_next_keeps_wf(s, Some(Seq::empty()));
    let t = State { phase: Phase::Moving, page: 0, ..s };
    assert(next(s, Some(Seq::empty())) == Progress::Continue(t));
    assert(t.image =~= memory.subrange(0, 0));
    lemma_read_run(t, memory);
    assert(head + (read_frames(0, pages) + tail) =~= frames_of_read(variant));
}

/// Round trip: after an image was written, a read of the whole chip gives a
/// buffer of the chip's capacity that starts with the image, byte for byte,
/// and holds zeros from the image's end to the end of its last page.
pub proof fn write_then_read_round_trip(variant: EepromVariant, rom: Seq<u8>, memory: Seq<u8>)
    requires
        rom.len() <= variant.capacity(),
        memory.len() == variant.capacity(),
    ensures
        ({
            let after_write = run(State::opening(Action::WriteRom, variant, rom), memory);
            let after_read = run(
                State::opening(Action::ReadRom, variant, Seq::empty()),
                after_write.memory,
            );
            &&& after_write.outcome == Ok::<Seq<u8>, Error>(rom)
            &&& after_read.outcome is Ok
            &&& after_read.outcome->Ok_0.len() == variant.capacity()
            &&& after_read.outcome->Ok_0.subrange(0, rom.len() as int) == rom
            &&& forall|i: int|
                rom.len() <= i < 256 * page_count(rom.len() as int)
                    ==> after_read.outcome->Ok_0[i] == 0u8
        }),
{
    write_stores_image(variant, rom, memory);
    let chip = written(memory, rom);
    read_gives_memory(variant, chip);
    assert(chip.subrange(0, rom.len() as int) =~= rom);
}

/// Verification fails wherever the chip differs from the image in a byte of
/// the image, whichever byte that is.
pub proof fn verify_detects_difference(s: State, memory: Seq<u8>, at: int)
    requires
        s.wf(),
        s.phase == Phase::Verifying,
        s.page == 0,
        memory.len() == s.capacity,
        0 <= at < s.image.len(),
        memory[at] != s.image[at],
    ensures
        run(s, memory).outcome == Err::<Seq<u8>, Error>(Error::VerifyFailed),
{
    lemma_verify_run(s, memory);
}

/// Verification passes wherever the chip holds the bytes of the image,
/// whatever it holds behind them: the rest of the last page is not compared.
pub proof fn verify_ignores_padding(s: State, memory: Seq<u8>)
    requires
        s.wf(),
        s.phase == Phase::Verifying,
        s.page == 0,
        memory.len() == s.capacity,
        forall|i: int| 0 <= i < s.image.len() ==> memory[i] == s.image[i],
    ensures
        run(s, memory).outcome == Ok::<Seq<u8>, Error>(s.image),
{
    lemma_verify_run(s, memory);
}

} // verus!
