//! The file delivery engine: which stored file a request names, how it is
//! labelled, and when a delivered file is due for removal.

use vstd::prelude::*;

use crate::error::RelayError;
use crate::text::{contains_dot_dot, has_dot_dot};

verus! {

/// The longest piece of a file read and sent in one step.
pub const CHUNK_SIZE: u64 = 65536;

/// The two client-supplied segments are refused: either holds `..`.
pub open spec fn segments_refused(bot: Seq<char>, file: Seq<char>) -> bool {
    has_dot_dot(bot) || has_dot_dot(file)
}

/// The stored file that the segments name: the storage root, the bot
/// segment and the file segment, joined by `/`.
pub open spec fn stored_path(root: Seq<char>, bot: Seq<char>, file: Seq<char>) -> Seq<char> {
    root + "/"@ + bot + "/"@ + file
}

/// Refuses a pair of segments either of which holds `..`; this is decided
/// on the text alone, before any access to the disk.
pub fn check_segments(bot: &str, file: &str) -> (r: Result<(), RelayError>)
    ensures
        r is Err <==> segments_refused(bot@, file@),
        r is Err ==> r == Err::<(), RelayError>(RelayError::InvalidPath),
{
    if contains_dot_dot(bot) {
        return Err(RelayError::InvalidPath);
    }
    if contains_dot_dot(file) {
        return Err(RelayError::InvalidPath);
    }
    Ok(())
}

/// The path under `root` for the bot segment `bot` and the file segment `file`.
pub fn storage_path(root: &str, bot: &str, file: &str) -> (r: String)
    ensures
        r@ == stored_path(root@, bot@, file@),
{
    let mut out = String::from_str(root);
    out.append("/");
    out.append(bot);
    out.append("/");
    out.append(file);
    out
}

/// The path to open for a file request, or `InvalidPath` when either
/// segment holds `..`.
pub fn resolve_file(root: &str, bot: &str, file: &str) -> (r: Result<String, RelayError>)
    ensures
        segments_refused(bot@, file@) ==> r == Err::<String, RelayError>(RelayError::InvalidPath),
        !segments_refused(bot@, file@) ==> r is Ok && r->Ok_0@ == stored_path(root@, bot@, file@),
{
    match check_segments(bot, file) {
        Err(e) => Err(e),
        Ok(()) => Ok(storage_path(root, bot, file)),
    }
}

/// The position of the last `c` in `s`, or -1 where there is none.
pub open spec fn last_index_of(s: Seq<char>, c: char) -> int
    decreases s.len(),
{
    if s.len() == 0 {
        -1
    } else if s.last() == c {
        s.len() - 1
    } else {
        last_index_of(s.drop_last(), c)
    }
}

proof fn lemma_last_index_bounds(s: Seq<char>, c: char)
    ensures
        -1 <= last_index_of(s, c) < s.len(),
        last_index_of(s, c) >= 0 ==> s[last_index_of(s, c)] == c,
    decreases s.len(),
{
    if s.len() > 0 && s.last() != c {
        lemma_last_index_bounds(s.drop_last(), c);
    }
}

/// The extension of the last component of `path`: what follows the last
/// dot of the file name, where that dot is not the name's first character.
pub open spec fn file_extension(path: Seq<char>) -> Option<Seq<char>> {
    let dot = last_index_of(path, '.');
    if dot > last_index_of(path, '/') + 1 {
        Some(path.subrange(dot + 1, path.len() as int))
    } else {
        None
    }
}

fn find_last(s: &str, c: char) -> (r: Option<usize>)
    ensures
        match r {
            Some(i) => i as int == last_index_of(s@, c),
            None => last_index_of(s@, c) == -1,
        },
{
    let n = s.unicode_len();
    let mut found: Option<usize> = None;
    let mut i: usize = 0;
    while i < n
        invariant
            n == s@.len(),
            i <= n,
            match found {
                Some(j) => j as int == last_index_of(s@.take(i as int), c),
                None => last_index_of(s@.take(i as int), c) == -1,
            },
        decreases n - i,
    {
        assert(s@.take(i as int + 1).drop_last() =~= s@.take(i as int));
        if s.get_char(i) == c {
            found = Some(i);
        }
        i = i + 1;
    }
    assert(s@.take(n as int) =~= s@);
    found
}

/// The extension of `path`'s file name, if it has one.
pub fn extension_of(path: &str) -> (r: Option<&str>)
    ensures
        match r {
            Some(e) => file_extension(path@) == Some(e@),
            None => file_extension(path@) is None,
        },
{
    let n = path.unicode_len();
    let slash = find_last(path, '/');
    proof {
        lemma_last_index_bounds(path@, '/');
        lemma_last_index_bounds(path@, '.');
    }
    match find_last(path, '.') {
        None => None,
        Some(dot) => {
            let name_start: usize = match slash {
                Some(j) => j + 1,
                None => 0,
            };
            if dot > name_start {
                Some(path.substring_char(dot + 1, n))
            } else {
                None
            }
        },
    }
}

/// The media type that the outside table of extensions gives for `ext`.
pub uninterp spec fn media_type_of_extension(ext: Seq<char>) -> Seq<char>;

/// Relies on `actix_files::file_extension_to_mime`, which looks the
/// extension up (without regard to case) in mime_guess's table and yields
/// `application/octet-stream` where it finds nothing; its result depends on
/// the extension alone.
#[verifier::external_body]
fn extension_media_type(ext: &str) -> (r: String)
    ensures
        r@ == media_type_of_extension(ext@),
{
    actix_files::file_extension_to_mime(ext).to_string()
}

/// The media type announced for a file at `path`: the one its extension
/// maps to, or the generic octet stream when the name has no extension.
pub open spec fn content_type_spec(path: Seq<char>) -> Seq<char> {
    match file_extension(path) {
        Some(e) => media_type_of_extension(e),
        None => "application/octet-stream"@,
    }
}

/// The `Content-Type` value for the file at `path`.
pub fn content_type_for(path: &str) -> (r: String)
    ensures
        r@ == content_type_spec(path@),
{
    match extension_of(path) {
        Some(ext) => extension_media_type(ext),
        None => String::from_str("application/octet-stream"),
    }
}

/// The removal of a fully delivered file, to be carried out apart from the
/// session that earned it. A file already gone counts as removed.
pub struct DeletionIntent {
    pub path: String,
}

/// One delivery of a stored file: its resolved path, the size seen when its
/// metadata was read, and the number of bytes handed to the client so far.
pub struct FileSession {
    path: String,
    size: u64,
    delivered: u64,
}

/// The state of a session: path, size at open time, bytes delivered.
pub type SessionView = (Seq<char>, nat, nat);

/// The state after a chunk of `n` bytes has been handed to the client.
pub open spec fn after_chunk(s: SessionView, n: nat) -> SessionView {
    (s.0, s.1, s.2 + n)
}

/// The file of session `s` is due for removal: every byte has been delivered.
pub open spec fn removal_due(s: SessionView) -> bool {
    s.2 == s.1
}

/// Bytes still owed to the client in state `s`.
pub open spec fn remaining_of(s: SessionView) -> nat {
    (s.1 - s.2) as nat
}

/// How long the next read is in state `s`: what is owed, at most one chunk.
pub open spec fn next_read_spec(s: SessionView) -> nat {
    if remaining_of(s) < CHUNK_SIZE {
        remaining_of(s)
    } else {
        CHUNK_SIZE as nat
    }
}

/// The outcome of one read from the file: `Some(n)` for `n` bytes (zero at
/// the end of the file), `None` for an I/O error.
pub type ReadOutcome = Option<u64>;

impl View for FileSession {
    type V = SessionView;

    closed spec fn view(&self) -> SessionView {
        (self.path@, self.size as nat, self.delivered as nat)
    }
}

impl FileSession {
    /// The counter never passes the size recorded at open time.
    pub closed spec fn wf(&self) -> bool {
        self.delivered <= self.size
    }

    /// A session for the file at `path`, whose metadata gave `size` bytes.
    pub fn open(path: String, size: u64) -> (r: FileSession)
        ensures
            r.wf(),
            r@ == (path@, size as nat, 0nat),
    {
        FileSession { path, size, delivered: 0 }
    }

    pub fn path(&self) -> (r: &str)
        ensures
            r@ == self@.0,
    {
        self.path.as_str()
    }

    /// The size announced in `Content-Length`.
    pub fn size(&self) -> (r: u64)
        ensures
            r == self@.1,
    {
        self.size
    }

    pub fn delivered(&self) -> (r: u64)
        ensures
            r == self@.2,
    {
        self.delivered
    }

    /// How many bytes to read next; zero once the whole file has been sent.
    pub fn next_read_len(&self) -> (r: u64)
        requires
            self.wf(),
        ensures
            r == next_read_spec(self@),
            0 < r <= CHUNK_SIZE || (r == 0 && removal_due(self@)),
    {
        let remaining = self.size - self.delivered;
        if remaining < CHUNK_SIZE {
            remaining
        } else {
            CHUNK_SIZE
        }
    }

    /// Takes in the outcome of a read of at most `next_read_len` bytes. A
    /// chunk is counted and handed on; an error, or the file ending before
    /// its recorded size, ends the stream as a streaming failure.
    pub fn on_read(&mut self, outcome: ReadOutcome) -> (r: Result<u64, RelayError>)
        requires
            old(self).wf(),
            match outcome {
                Some(n) => n <= next_read_spec(old(self)@),
                None => true,
            },
        ensures
            final(self).wf(),
            match outcome {
                Some(n) => if n > 0 {
                    &&& r == Ok::<u64, RelayError>(n)
                    &&& final(self)@ == after_chunk(old(self)@, n as nat)
                } else {
                    &&& *final(self) == *old(self)
                    &&& r == Err::<u64, RelayError>(RelayError::StreamingFailure)
                },
                None => {
                    &&& *final(self) == *old(self)
                    &&& r == Err::<u64, RelayError>(RelayError::StreamingFailure)
                },
            },
    {
        match outcome {
            Some(n) => {
                if n > 0 {
                    self.delivered = self.delivered + n;
                    Ok(n)
                } else {
                    Err(RelayError::StreamingFailure)
                }
            },
            None => Err(RelayError::StreamingFailure),
        }
    }

    /// Whether the whole file has been delivered.
    pub fn is_complete(&self) -> (r: bool)
        ensures
            r == removal_due(self@),
    {
        self.delivered == self.size
    }

    /// Ends the session, whatever ended it: the file is to be removed
    /// exactly when every byte of it was delivered.
    pub fn finish(self) -> (r: Option<DeletionIntent>)
        ensures
            r is Some <==> removal_due(self@),
            r is Some ==> r->Some_0.path@ == self@.0,
    {
        if self.delivered == self.size {
            Some(DeletionIntent { path: self.path })
        } else {
            None
        }
    }
}

/// The state reached from `s` once the chunks `chunks` have been delivered
/// in order.
pub open spec fn replay(s: SessionView, chunks: Seq<nat>) -> SessionView
    decreases chunks.len(),
{
    if chunks.len() == 0 {
        s
    } else {
        replay(after_chunk(s, chunks[0]), chunks.drop_first())
    }
}

/// The total length of `chunks`.
pub open spec fn total(chunks: Seq<nat>) -> nat
    decreases chunks.len(),
{
    if chunks.len() == 0 {
        0
    } else {
        chunks[0] + total(chunks.drop_first())
    }
}

/// The state reached from `s` when every read returns all it asked for.
pub open spec fn read_through(s: SessionView) -> SessionView
    recommends
        s.2 <= s.1,
    decreases remaining_of(s),
{
    if s.2 >= s.1 {
        s
    } else {
        read_through(after_chunk(s, next_read_spec(s)))
    }
}

proof fn lemma_replay_counts(s: SessionView, chunks: Seq<nat>)
    ensures
        replay(s, chunks) == (s.0, s.1, s.2 + total(chunks)),
    decreases chunks.len(),
{
    if chunks.len() > 0 {
        lemma_replay_counts(after_chunk(s, chunks[0]), chunks.drop_first());
    }
}

/// A delivery counts exactly the bytes handed out, and its file is due for
/// removal exactly when their total equals the size recorded at open time:
/// a client that stops after fewer bytes leaves the file in place.
pub proof fn lemma_removal_needs_full_delivery(path: Seq<char>, size: nat, chunks: Seq<nat>)
    ensures
        replay((path, size, 0), chunks) == (path, size, total(chunks)),
        removal_due(replay((path, size, 0), chunks)) <==> total(chunks) == size,
{
    lemma_replay_counts((path, size, 0), chunks);
}

/// When every read returns what it asked for, a delivery sends exactly the
/// recorded size, no more, and ends with the file due for removal.
pub proof fn lemma_full_reads_complete(s: SessionView)
    requires
        s.2 <= s.1,
    ensures
        read_through(s).0 == s.0,
        read_through(s).1 == s.1,
        read_through(s).2 == s.1,
        removal_due(read_through(s)),
    decreases remaining_of(s),
{
    if s.2 < s.1 {
        lemma_full_reads_complete(after_chunk(s, next_read_spec(s)));
    }
}

/// Two deliveries of the same file, each with a counter of its own and each
/// carried through in full, both end with a removal of that same path.
pub proof fn lemma_concurrent_full_reads_both_remove(a: SessionView, b: SessionView)
    requires
        a.0 == b.0,
        a.2 <= a.1,
        b.2 <= b.1,
    ensures
        removal_due(read_through(a)),
        removal_due(read_through(b)),
        read_through(a).0 == read_through(b).0,
{
    lemma_full_reads_complete(a);
    lemma_full_reads_complete(b);
}

} // verus!
