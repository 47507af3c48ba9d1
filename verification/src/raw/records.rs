//! The records of an archive body.
//!
//! Behind the archive header stands a sequence of records. Each begins with a
//! control word of four bytes, a signed number whose magnitude is the length
//! of the compressed payload that follows. A control word of zero ends the
//! sequence, and so does the end of the buffer.

use crate::bytes::{be_i32, in_bounds, ByteReader};
use crate::result::Error;
use vstd::prelude::*;

verus! {

/// The width of a control word.
pub const CONTROL_WORD_SIZE: usize = 4;

/// The capability to decompress the payload of a record.
///
/// The framing of records does not depend on how they are compressed. An
/// implementation returns the decompressed bytes, or nothing where the
/// payload is not valid for its scheme.
pub trait Decompressor {
    /// Decompresses `payload`.
    fn decompress(&self, payload: &[u8]) -> Option<Vec<u8>>;
}

/// The decompressor for payloads that are stored as they are.
#[derive(Debug, Clone, Copy)]
pub struct Uncompressed;

impl Decompressor for Uncompressed {
    /// Gives the payload back, byte for byte.
    fn decompress(&self, payload: &[u8]) -> (r: Option<Vec<u8>>)
        ensures
            r matches Some(copy) && copy@ == payload@,
    {
        let mut copy: Vec<u8> = Vec::new();
        let mut i: usize = 0;
        while i < payload.len()
            invariant
                i <= payload@.len(),
                copy@ == payload@.take(i as int),
            decreases payload@.len() - i,
        {
            copy.push(payload[i]);
            i = i + 1;
        }
        Some(copy)
    }
}

/// A decompressed record: a buffer that holds zero or more messages, owned by
/// whoever asked for it.
#[derive(Debug, Clone, PartialEq, Eq)]
pub struct Record {
    /// The decompressed bytes.
    pub data: Vec<u8>,
}

impl View for Record {
    type V = Seq<u8>;

    open spec fn view(&self) -> Seq<u8> {
        self.data@
    }
}

impl Record {
    /// A reader at the start of the record's bytes.
    pub fn reader(&self) -> (r: ByteReader<'_>)
        ensures
            r.bytes() == self@,
            r.pos() == 0,
    {
        ByteReader::new(self.data.as_slice())
    }
}

/// The magnitude of a control word.
pub open spec fn magnitude(control_word: i32) -> int {
    if control_word < 0 {
        -control_word
    } else {
        control_word as int
    }
}

/// What stands at `at` of an archive body: the end of the records, or the
/// compressed payload of the next record.
///
/// The records end where the buffer ends and where the control word is zero.
/// A control word that is cut off is an unexpected end; a payload that is
/// longer than what is left is a corrupt record.
pub open spec fn frame_at(s: Seq<u8>, at: int) -> Result<Option<Seq<u8>>, Error> {
    let size = magnitude(be_i32(s, at));
    let payload = at + CONTROL_WORD_SIZE;
    if at >= s.len() {
        Ok(None)
    } else if !in_bounds(s, at, CONTROL_WORD_SIZE as int) {
        Err(Error::UnexpectedEof)
    } else if size == 0 {
        Ok(None)
    } else if !in_bounds(s, payload, size) {
        Err(Error::CorruptRecord)
    } else {
        Ok(Some(s.subrange(payload, payload + size)))
    }
}

/// What a decompressed payload becomes: a record, or a corrupt record where
/// the payload did not decompress.
pub open spec fn record_result(decompressed: Option<Vec<u8>>) -> Result<Record, Error> {
    match decompressed {
        Some(data) => Ok(Record { data }),
        None => Err(Error::CorruptRecord),
    }
}

/// Decides [`record_result`].
pub fn record_from(decompressed: Option<Vec<u8>>) -> (r: Result<Record, Error>)
    ensures
        r == record_result(decompressed),
{
    match decompressed {
        Some(data) => Ok(Record { data }),
        None => Err(Error::CorruptRecord),
    }
}

/// A single pass over the records of an archive body.
///
/// The framer owns its reader, so nobody else can move it. It hands out one
/// record after the other and ends for good at the end of the records and at
/// the first failure: after a bad record nobody can tell where the next one
/// begins.
pub struct RecordFramer<'a> {
    reader: ByteReader<'a>,
    finished: bool,
}

impl<'a> RecordFramer<'a> {
    /// The bytes that the framer reads from.
    pub closed spec fn bytes(self) -> Seq<u8> {
        self.reader.bytes()
    }

    /// The position of the next control word.
    pub closed spec fn pos(self) -> int {
        self.reader.pos()
    }

    /// Whether the pass has ended.
    pub closed spec fn finished(self) -> bool {
        self.finished
    }

    /// What the framer meets next: nothing once the pass has ended, and else
    /// what stands at its position.
    pub open spec fn upcoming(self) -> Result<Option<Seq<u8>>, Error> {
        if self.finished() {
            Ok(None)
        } else {
            frame_at(self.bytes(), self.pos())
        }
    }

    /// A framer over what `reader` has left, which is to be the body of an
    /// archive: what follows the archive header.
    pub fn new(reader: ByteReader<'a>) -> (r: Self)
        ensures
            r.bytes() == reader.bytes(),
            r.pos() == reader.pos(),
            !r.finished(),
    {
        RecordFramer { reader, finished: false }
    }

    /// Whether the pass has ended.
    pub fn is_finished(&self) -> (r: bool)
        ensures
            r == self.finished(),
    {
        self.finished
    }

    /// The compressed payload of the next record, or nothing at the end of
    /// the records.
    ///
    /// After a payload the framer stands at the next control word. After the
    /// end or a failure the pass has ended, and every later call gives
    /// nothing.
    pub fn next_frame(&mut self) -> (r: Result<Option<Vec<u8>>, Error>)
        ensures
            final(self).bytes() == old(self).bytes(),
            match old(self).upcoming() {
                Ok(Some(payload)) => {
                    &&& r matches Ok(Some(found)) && found@ == payload
                    &&& final(self).pos() == old(self).pos() + CONTROL_WORD_SIZE + payload.len()
                    &&& !final(self).finished()
                },
                Ok(None) => {
                    &&& r == Ok::<Option<Vec<u8>>, Error>(None)
                    &&& final(self).pos() == old(self).pos()
                    &&& final(self).finished()
                },
                Err(e) => {
                    &&& r == Err::<Option<Vec<u8>>, Error>(e)
                    &&& final(self).pos() == old(self).pos()
                    &&& final(self).finished()
                },
            },
    {
        if self.finished {
            return Ok(None);
        }
        self.finished = true;
        let left: usize = self.reader.remaining();
        if left == 0 {
            return Ok(None);
        }
        if left < CONTROL_WORD_SIZE {
            return Err(Error::UnexpectedEof);
        }
        let at: usize = self.reader.position();
        let control_word: i64 = self.reader.i32_at(at) as i64;
        let size: i64 = if control_word < 0 {
            -control_word
        } else {
            control_word
        };
        if size == 0 {
            return Ok(None);
        }
        if size as u64 > (left - CONTROL_WORD_SIZE) as u64 {
            return Err(Error::CorruptRecord);
        }
        let size: usize = size as usize;
        let payload: Vec<u8> = self.reader.bytes_at(at + CONTROL_WORD_SIZE, size);
        self.reader.advance(CONTROL_WORD_SIZE + size);
        self.finished = false;
        Ok(Some(payload))
    }

    /// The next record, decompressed by `decompressor`, or nothing at the end
    /// of the records.
    ///
    /// The decompressor is handed exactly the payload that
    /// [`RecordFramer::next_frame`] finds. Whether that payload decompresses
    /// is the decompressor's to say; a payload that does not is a corrupt
    /// record and ends the pass.
    pub fn next_record<D: Decompressor>(&mut self, decompressor: &D) -> (r: Result<
        Option<Record>,
        Error,
    >)
        ensures
            final(self).bytes() == old(self).bytes(),
            match old(self).upcoming() {
                Ok(Some(payload)) => {
                    ||| {
                        &&& r matches Ok(Some(_))
                        &&& final(self).pos() == old(self).pos() + CONTROL_WORD_SIZE
                            + payload.len()
                        &&& !final(self).finished()
                    }
                    ||| {
                        &&& r == Err::<Option<Record>, Error>(Error::CorruptRecord)
                        &&& final(self).finished()
                    }
                },
                Ok(None) => {
                    &&& r == Ok::<Option<Record>, Error>(None)
                    &&& final(self).pos() == old(self).pos()
                    &&& final(self).finished()
                },
                Err(e) => {
                    &&& r == Err::<Option<Record>, Error>(e)
                    &&& final(self).pos() == old(self).pos()
                    &&& final(self).finished()
                },
            },
    {
        match self.next_frame() {
            Err(e) => Err(e),
            Ok(None) => Ok(None),
            Ok(Some(payload)) => {
                match record_from(decompressor.decompress(payload.as_slice())) {
                    Ok(record) => Ok(Some(record)),
                    Err(e) => {
                        self.finished = true;
                        Err(e)
                    },
                }
            },
        }
    }
}

/// A control word of zero ends the records without an error, and so does the
/// end of the buffer.
pub proof fn law_zero_control_word_ends_records(s: Seq<u8>, at: int)
    requires
        0 <= at,
    ensures
        in_bounds(s, at, CONTROL_WORD_SIZE as int) && be_i32(s, at) == 0 ==> frame_at(s, at)
            == Ok::<Option<Seq<u8>>, Error>(None),
        at >= s.len() ==> frame_at(s, at) == Ok::<Option<Seq<u8>>, Error>(None),
        frame_at(s, at) matches Ok(Some(payload)) ==> payload.len() == magnitude(be_i32(s, at))
            && payload.len() > 0,
{
}

} // verus!
