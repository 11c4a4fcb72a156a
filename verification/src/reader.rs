//! Reading a file chunk by chunk, within the byte range that was asked for.
use crate::error::VfsError;
use rustic_core::RusticError;
use vstd::prelude::*;

verus! {

/// The number of bytes fetched from the repository at a time: 4 MiB.
///
/// Large enough to spread the cost of a call over many bytes, small enough to
/// keep a single allocation modest.
pub const BUFFER_SIZE: usize = 4_194_304;

/// The smaller of two numbers.
pub open spec fn smaller(a: nat, b: nat) -> nat {
    if a <= b {
        a
    } else {
        b
    }
}

/// The part of a file that a reader has yet to serve.
pub struct ReadWindow {
    /// The offset in the file of the next byte.
    pub pos: nat,
    /// The number of bytes left, or `None` to read to the end of the file.
    pub remaining: Option<nat>,
}

impl ReadWindow {
    /// The number of bytes the next fetch asks for.
    pub open spec fn chunk_size(self) -> nat {
        match self.remaining {
            Some(remaining) => smaller(BUFFER_SIZE as nat, remaining),
            None => BUFFER_SIZE as nat,
        }
    }

    /// Whether the range has been served in full.
    pub open spec fn is_exhausted(self) -> bool {
        self.remaining == Some(0nat)
    }

    /// The window after `count` bytes have been served from its start.
    pub open spec fn advance(self, count: nat) -> ReadWindow {
        ReadWindow {
            pos: self.pos + count,
            remaining: match self.remaining {
                Some(remaining) => Some((remaining - smaller(count, remaining)) as nat),
                None => None,
            },
        }
    }

    /// The bytes of a file with the given content that fall into the window.
    pub open spec fn bytes_in(self, content: Seq<u8>) -> Seq<u8> {
        match self.remaining {
            Some(remaining) => slice_of(content, self.pos, remaining),
            None => slice_of(content, self.pos, content.len()),
        }
    }

    /// What the next read returns where every fetch is answered from `content`.
    pub open spec fn next_chunk(self, content: Seq<u8>) -> Seq<u8> {
        if self.is_exhausted() {
            seq![]
        } else {
            slice_of(content, self.pos, self.chunk_size())
        }
    }

    /// What all reads return, one after the other up to the first that returns
    /// nothing, where every fetch is answered from `content`.
    pub open spec fn all_chunks(self, content: Seq<u8>) -> Seq<u8>
        decreases content.len() - self.pos,
    {
        let chunk = self.next_chunk(content);
        if chunk.len() == 0 {
            seq![]
        } else {
            chunk + self.advance(chunk.len()).all_chunks(content)
        }
    }
}

/// The bytes of `content` from `offset` on, at most `size` of them: fewer at the
/// end, none behind it.
pub open spec fn slice_of(content: Seq<u8>, offset: nat, size: nat) -> Seq<u8> {
    content.subrange(
        smaller(offset, content.len()) as int,
        smaller(offset + size, content.len()) as int,
    )
}

/// The window of a range of a file: `size` bytes from `offset` on, or all from
/// there on where `size` is `None`. Both are cut to what the machine can address.
pub open spec fn window_of(offset: u64, size: Option<u64>) -> ReadWindow {
    ReadWindow {
        pos: offset as usize as nat,
        remaining: match size {
            Some(size) => Some(size as usize as nat),
            None => None,
        },
    }
}

/// A fetch that a reader asks for: `size` bytes of the file from `offset` on.
#[derive(Clone, Copy, Debug, PartialEq, Eq, Structural)]
pub struct ReadRequest {
    /// The offset in the file of the first byte.
    pub offset: usize,
    /// The number of bytes to fetch at most.
    pub size: usize,
}

/// Serves the bytes of an open file, in chunks of at most [`BUFFER_SIZE`].
///
/// The reader decides what to fetch and keeps track of what has been served;
/// whoever holds the repository does the fetching. A read is one call of
/// [`next_request`](VfsReader::next_request), the fetch it asks for, and one call
/// of [`read`](VfsReader::read) with the reply.
#[derive(Debug)]
pub struct VfsReader {
    /// Current read position as a byte offset into the file.
    pos: usize,
    /// Remaining bytes to serve, or `None` if reading to end-of-file.
    len: Option<usize>,
}

impl View for VfsReader {
    type V = ReadWindow;

    closed spec fn view(&self) -> ReadWindow {
        ReadWindow {
            pos: self.pos as nat,
            remaining: match self.len {
                Some(len) => Some(len as nat),
                None => None,
            },
        }
    }
}

impl VfsReader {
    /// A reader that starts at the byte offset `pos` and serves at most `len`
    /// bytes, or the rest of the file where `len` is `None`.
    pub fn new(pos: usize, len: Option<usize>) -> (reader: VfsReader)
        ensures
            reader@.pos == pos,
            len is None ==> reader@.remaining is None,
            len is Some ==> reader@.remaining == Some(len->0 as nat),
    {
        VfsReader { pos, len }
    }

    /// A reader of a range of a file: `size` bytes from `offset` on, or all from
    /// there on where `size` is `None`.
    pub fn of_range(offset: u64, size: Option<u64>) -> (reader: VfsReader)
        ensures
            reader@ == window_of(offset, size),
    {
        let pos: usize = #[verifier::truncate]
        (offset as usize);
        let len: Option<usize> = match size {
            Some(size) => Some(
                #[verifier::truncate]
                (size as usize),
            ),
            None => None,
        };
        VfsReader::new(pos, len)
    }

    /// What the next read has to fetch, or `None` where the range has been served
    /// in full: that read returns no bytes, and fetches nothing.
    pub fn next_request(&self) -> (request: Option<ReadRequest>)
        ensures
            request is None <==> self@.is_exhausted(),
            request matches Some(r) ==> r.offset == self@.pos && r.size == self@.chunk_size(),
    {
        let size: usize = match self.len {
            Some(remaining) => {
                if remaining == 0 {
                    return None;
                }
                if BUFFER_SIZE <= remaining {
                    BUFFER_SIZE
                } else {
                    remaining
                }
            },
            None => BUFFER_SIZE,
        };
        Some(ReadRequest { offset: self.pos, size })
    }

    /// Take the reply to the fetch: the next bytes of the file, which the read
    /// returns and the window moves past, or an error, which leaves the window
    /// where it is.
    pub fn read(&mut self, reply: Result<Vec<u8>, Box<RusticError>>) -> (data: Result<
        Vec<u8>,
        VfsError,
    >)
        requires
            reply matches Ok(bytes) ==> old(self)@.pos + bytes@.len() <= usize::MAX,
        ensures
            match reply {
                Ok(bytes) => data == Ok::<Vec<u8>, VfsError>(bytes) && final(self)@ == old(
                    self,
                )@.advance(bytes@.len()),
                Err(source) => data == Err::<Vec<u8>, VfsError>(VfsError::ReadFile { source })
                    && final(self)@ == old(self)@,
            },
    {
        match reply {
            Ok(bytes) => {
                let count: usize = bytes.len();
                self.pos = self.pos + count;
                if let Some(remaining) = self.len {
                    self.len = Some(
                        if count <= remaining {
                            remaining - count
                        } else {
                            0
                        },
                    );
                }
                Ok(bytes)
            },
            Err(source) => Err(VfsError::ReadFile { source }),
        }
    }
}

/// A fetch asks for at least one byte, and for no more than a chunk or than what
/// is left of the range.
pub proof fn law_fetch_is_bounded(window: ReadWindow)
    requires
        !window.is_exhausted(),
    ensures
        0 < window.chunk_size() <= BUFFER_SIZE,
        window.remaining matches Some(remaining) ==> window.chunk_size() <= remaining,
{
}

/// One read serves the front of the window and leaves the rest of it, however
/// much of what it asked for the fetch returns.
pub proof fn law_read_moves_along_the_window(window: ReadWindow, content: Seq<u8>, count: nat)
    requires
        count <= window.next_chunk(content).len(),
    ensures
        window.bytes_in(content) == window.next_chunk(content).take(count as int)
            + window.advance(count).bytes_in(content),
{
    let chunk = window.next_chunk(content);
    assert(window.bytes_in(content) =~= chunk.take(count as int) + window.advance(
        count,
    ).bytes_in(content));
}

/// Reading until a read returns nothing gives exactly the bytes of the file that
/// fall into the range: from the offset to the end of the range or of the file,
/// whichever comes first.
pub proof fn law_reads_add_up_to_the_range(window: ReadWindow, content: Seq<u8>)
    ensures
        window.all_chunks(content) == window.bytes_in(content),
    decreases content.len() - window.pos,
{
    let chunk = window.next_chunk(content);
    if chunk.len() == 0 {
        assert(window.bytes_in(content) =~= seq![]);
    } else {
        let next = window.advance(chunk.len());
        law_read_moves_along_the_window(window, content, chunk.len());
        law_reads_add_up_to_the_range(next, content);
        assert(chunk.take(chunk.len() as int) =~= chunk);
    }
}

/// Reading a range of a file gives its bytes from the offset on, as many as were
/// asked for or as there are, whichever is less; without a size, all of them.
pub proof fn law_range_read_is_the_range(content: Seq<u8>, offset: u64, size: Option<u64>)
    requires
        offset <= usize::MAX,
        size matches Some(size) ==> size <= usize::MAX,
    ensures
        window_of(offset, size).all_chunks(content) == slice_of(
            content,
            offset as nat,
            match size {
                Some(size) => size as nat,
                None => content.len(),
            },
        ),
{
    law_reads_add_up_to_the_range(window_of(offset, size), content);
}

/// A full read from the start gives back the whole file.
pub proof fn law_full_read_is_the_file(content: Seq<u8>)
    ensures
        window_of(0, None).all_chunks(content) == content,
{
    let window = window_of(0, None);
    law_reads_add_up_to_the_range(window, content);
    assert(window.bytes_in(content) =~= content);
}

/// A reader starts at the offset and with the number of bytes that it is given.
pub proof fn law_reader_starts_where_it_is_told(pos: usize, len: Option<usize>, reader: VfsReader)
    requires
        call_ensures(VfsReader::new, (pos, len), reader),
    ensures
        reader@.pos == pos,
        len matches Some(len) ==> reader@.remaining == Some(len as nat),
        len is None ==> reader@.remaining is None,
{
}

/// What a call asks to fetch: nothing where no bytes are left; otherwise the bytes at
/// the position of the reader, as many as are left and at most 4 MiB, or 4 MiB where
/// there is no limit.
pub proof fn law_request_is_the_next_chunk(reader: &VfsReader, request: Option<ReadRequest>)
    requires
        call_ensures(VfsReader::next_request, (reader,), request),
    ensures
        request is None <==> reader@.remaining == Some(0nat),
        request matches Some(r) ==> {
            &&& r.offset == reader@.pos
            &&& reader@.remaining is None ==> r.size == 4_194_304
            &&& reader@.remaining matches Some(left) ==> {
                &&& left <= 4_194_304 ==> r.size == left
                &&& left >= 4_194_304 ==> r.size == 4_194_304
            }
        },
{
}

/// A reader of a range is at its offset with its size left. Its first request starts
/// there and is for the size, up to 4 MiB; for an empty range there is none.
pub proof fn law_first_request_of_a_range(
    offset: u64,
    size: Option<u64>,
    reader: VfsReader,
    request: Option<ReadRequest>,
)
    requires
        call_ensures(VfsReader::of_range, (offset, size), reader),
        call_ensures(VfsReader::next_request, (&reader,), request),
    ensures
        reader@.pos == offset as usize,
        reader@.remaining is None <==> size is None,
        size matches Some(size) ==> reader@.remaining == Some(size as usize as nat),
        size is None ==> request == Some(
            ReadRequest { offset: offset as usize, size: 4_194_304usize },
        ),
        size matches Some(size) ==> {
            &&& size as usize == 0 ==> request is None
            &&& 0 < size as usize <= 4_194_304 ==> request == Some(
                ReadRequest { offset: offset as usize, size: size as usize },
            )
            &&& size as usize > 4_194_304 ==> request == Some(
                ReadRequest { offset: offset as usize, size: 4_194_304usize },
            )
        },
{
}

/// A read hands on the bytes of the reply and moves the reader behind them: by as
/// many as there are, and with as many less left. An error is handed on as the
/// cause, and moves nothing.
pub proof fn law_read_serves_the_reply(
    reader: &mut VfsReader,
    reply: Result<Vec<u8>, Box<RusticError>>,
    data: Result<Vec<u8>, VfsError>,
)
    requires
        call_ensures(VfsReader::read, (reader, reply), data),
    ensures
        reply matches Ok(bytes) ==> {
            &&& data == Ok::<Vec<u8>, VfsError>(bytes)
            &&& final(reader)@.pos == old(reader)@.pos + bytes@.len()
            &&& old(reader)@.remaining is None <==> final(reader)@.remaining is None
            &&& old(reader)@.remaining matches Some(left) ==> final(reader)@.remaining == Some(
                if bytes@.len() <= left {
                    (left - bytes@.len()) as nat
                } else {
                    0nat
                },
            )
        },
        reply matches Err(source) ==> {
            &&& data matches Err(VfsError::ReadFile { source: s }) && s == source
            &&& final(reader)@.pos == old(reader)@.pos
            &&& final(reader)@.remaining == old(reader)@.remaining
        },
{
}

/// Reading a range until a read returns nothing gives the bytes of the file from the
/// offset to the end of the range, or to the end of the file if that comes first or
/// there is no size.
pub proof fn law_range_read_is_part_of_the_file(
    content: Seq<u8>,
    offset: u64,
    size: Option<u64>,
    from: int,
    to: int,
)
    requires
        offset <= usize::MAX,
        size matches Some(size) ==> size <= usize::MAX,
        from == if offset <= content.len() {
            offset as int
        } else {
            content.len() as int
        },
        size is None ==> to == content.len(),
        size matches Some(size) ==> to == if offset + size <= content.len() {
            offset + size
        } else {
            content.len() as int
        },
    ensures
        window_of(offset, size).all_chunks(content) == content.subrange(from, to),
{
    law_range_read_is_the_range(content, offset, size);
}

} // verus!
