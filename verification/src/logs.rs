//! Local log files: their names and retention, the size-based rotation plan, the errors
//! of setting logging up, and the writer that redacts each chunk before the sink sees it.

use vstd::prelude::*;
use vstd::utf8::{decode_utf8, encode_utf8, valid_utf8};
use crate::redact::{redact_secrets, redacted_text};
use crate::text::{decimal, decimal_u128};

verus! {

/// The directory, under the application data directory, that holds the logs.
pub const LOG_DIR_NAME: &'static str = "logs";

/// The name of the current log file; archives add `.1`, `.2`, ...
pub const LOG_FILE_NAME: &'static str = "gdom.log";

/// The filter used when the environment sets none.
pub const DEFAULT_ENV_FILTER: &'static str = "info";

/// A log file is rotated before it grows past this size.
pub const MAX_LOG_FILE_BYTES: u64 = 10485760;

/// At most this many log files are kept, the current one included.
pub const MAX_LOG_FILES: u32 = 5;

/// Errors of setting up file logging.
#[derive(Clone, Debug, PartialEq, Eq)]
pub enum LogError {
    CreateDirectory { path: String, source: String },
    Io(String),
    AlreadyInitialized,
}

impl LogError {
    pub open spec fn message(&self) -> Seq<char> {
        match self {
            LogError::CreateDirectory { path, source } => "could not create log directory "@ + path@ + ": "@ + source@,
            LogError::Io(error) => "log I/O error: "@ + error@,
            LogError::AlreadyInitialized => "tracing subscriber is already initialized"@,
        }
    }

    /// The message shown for this error.
    pub fn to_string(&self) -> (r: String)
        ensures r@ == self.message(),
    {
        match self {
            LogError::CreateDirectory { path, source } =>
                String::from_str("could not create log directory ").concat(path.as_str()).concat(": ").concat(source.as_str()),
            LogError::Io(error) => String::from_str("log I/O error: ").concat(error.as_str()),
            LogError::AlreadyInitialized => String::from_str("tracing subscriber is already initialized"),
        }
    }
}

/// `s` starts with `prefix`.
pub open spec fn has_prefix(s: Seq<char>, prefix: Seq<char>) -> bool {
    prefix.len() <= s.len() && s.subrange(0, prefix.len() as int) == prefix
}

/// `s` ends with `suffix`.
pub open spec fn has_suffix(s: Seq<char>, suffix: Seq<char>) -> bool {
    suffix.len() <= s.len() && s.subrange(s.len() - suffix.len(), s.len() as int) == suffix
}

/// A character that separates path components on some platform.
pub open spec fn is_path_separator(c: char) -> bool {
    c == '/' || c == '\\'
}

/// A name that can only ever be read as one relative component: not empty, with no
/// separator and no drive colon.
pub open spec fn is_plain_name(name: Seq<char>) -> bool {
    name.len() > 0 && forall|i: int| 0 <= i < name.len() ==> !is_path_separator(#[trigger] name[i]) && name[i] != ':'
}

/// A Windows verbatim path (`\\?\...`), whose components are rebuilt when joined.
pub open spec fn is_verbatim(dir: Seq<char>) -> bool {
    has_prefix(dir, seq!['\\', '\\', '?', '\\'])
}

/// A bare Windows drive such as `C:`, to which a name is joined without a separator.
pub open spec fn is_bare_drive(dir: Seq<char>) -> bool {
    dir.len() == 2 && dir[1] == ':'
}

/// `r` is `name` joined to the directory `dir`: the name alone for an empty directory,
/// appended directly after a separator the platform knows, and otherwise after the
/// platform's separator (none after a bare Windows drive).
pub open spec fn joined_path(dir: Seq<char>, name: Seq<char>, r: Seq<char>) -> bool {
    if dir.len() == 0 {
        r == name
    } else if dir.last() == '/' {
        r == dir + name
    } else if dir.last() == '\\' {
        r == dir + name || r == dir + seq!['/'] + name
    } else {
        r == dir + seq!['/'] + name || r == dir + seq!['\\'] + name || (is_bare_drive(dir) && r == dir + name)
    }
}

/// `std::path::Path::join` of a directory and a file name, as text. The name is one
/// relative component, so it never replaces the directory. Which separator is used, and
/// whether a backslash ends a directory, differs between platforms and is left open; so is the
/// result under a Windows verbatim directory, whose components are rebuilt.
#[verifier::external_body]
fn join_path(dir: &str, name: &str) -> (r: String)
    requires
        is_plain_name(name@),
    ensures
        !is_verbatim(dir@) ==> joined_path(dir@, name@, r@),
{
    std::path::Path::new(dir).join(name).to_string_lossy().into_owned()
}

/// The path of the current log file inside `log_dir`.
pub fn log_file_path(log_dir: &str) -> (r: String)
    ensures
        !is_verbatim(log_dir@) ==> joined_path(log_dir@, LOG_FILE_NAME@, r@),
{
    proof {
        reveal_strlit("gdom.log");
        assert(is_plain_name(LOG_FILE_NAME@));
    }
    join_path(log_dir, LOG_FILE_NAME)
}

/// The file name of a log generation: the current file for zero, `<name>.<n>` for archive `n`.
pub open spec fn generation_name(file_name: Seq<char>, generation: u32) -> Seq<char> {
    if generation == 0 { file_name } else { file_name + "."@ + decimal(generation as nat) }
}

/// Names the file of log generation `generation`.
pub fn generation_file_name(file_name: &str, generation: u32) -> (r: String)
    ensures r@ == generation_name(file_name@, generation),
{
    if generation == 0 {
        String::from_str(file_name)
    } else {
        String::from_str(file_name).concat(".").concat(decimal_u128(generation as u128).as_str())
    }
}

/// A write rotates the file first when the file already holds something and the write
/// would take it past the limit.
pub open spec fn rotates_before(written: u64, incoming: u64, max_bytes: u64) -> bool {
    written > 0 && (if written + incoming > u64::MAX { u64::MAX as int } else { written + incoming }) > max_bytes
}

/// Decides whether a write of `incoming` bytes rotates the log first.
pub fn needs_rotation(written: u64, incoming: u64, max_bytes: u64) -> (r: bool)
    ensures r == rotates_before(written, incoming, max_bytes),
{
    written > 0 && written.saturating_add(incoming) > max_bytes
}

/// How a rotation shifts the archives when `max_files` files are kept: the oldest
/// generation is deleted, every other archive moves one generation up, newest last moved,
/// and the current file becomes the first archive.
#[derive(Clone, Debug, PartialEq, Eq)]
pub struct RotationPlan {
    pub delete: u32,
    pub moves: Vec<(u32, u32)>,
}

/// Plans a rotation; none when a single file is kept (the current file is truncated in place).
pub fn rotation_plan(max_files: u32) -> (r: Option<RotationPlan>)
    ensures
        max_files <= 1 ==> r is None,
        max_files > 1 ==> (r matches Some(plan) && {
            let last = (max_files - 1) as int;
            &&& plan.delete == last
            &&& plan.moves@.len() == last
            &&& forall|k: int| 0 <= k < last ==> (#[trigger] plan.moves@[k]) == ((last - 1 - k) as u32, (last - k) as u32)
            &&& plan.moves@ == planned_moves(max_files)
        }),
{
    if max_files <= 1 {
        return None;
    }
    let last: u32 = max_files - 1;
    let mut moves: Vec<(u32, u32)> = Vec::new();
    let mut generation: u32 = last;
    while generation > 1
        invariant
            1 <= generation <= last,
            last == max_files - 1,
            moves@.len() == last - generation,
            forall|k: int| 0 <= k < moves@.len() ==> (#[trigger] moves@[k]) == ((last - 1 - k) as u32, (last - k) as u32),
        decreases generation,
    {
        moves.push((generation - 1, generation));
        generation = generation - 1;
    }
    moves.push((0, 1));
    assert(moves@ =~= planned_moves(max_files));
    Some(RotationPlan { delete: last, moves })
}

/// The moves of a rotation that keeps `max_files` files: archive `g` becomes archive
/// `g + 1`, from the newest archive down, and the current file becomes archive 1.
pub open spec fn planned_moves(max_files: u32) -> Seq<(u32, u32)> {
    let last = max_files - 1;
    Seq::new(last as nat, |k: int| ((last - 1 - k) as u32, (last - k) as u32))
}

/// The log directory as sizes by generation (0 the current file, `g` the archive `g`),
/// after the moves of a rotation; a move whose source is missing does nothing.
pub open spec fn apply_moves(files: Map<int, nat>, moves: Seq<(u32, u32)>) -> Map<int, nat>
    decreases moves.len(),
{
    if moves.len() == 0 {
        files
    } else {
        let (from, to) = moves[0];
        let next = if files.contains_key(from as int) {
            files.remove(from as int).insert(to as int, files[from as int])
        } else {
            files
        };
        apply_moves(next, moves.drop_first())
    }
}

/// The log directory after one write of `len` bytes, every file operation succeeding:
/// when `needs_rotation` says so, the oldest archive is deleted, the others shift as
/// `rotation_plan` says and a new, empty current file is opened; then the bytes are
/// appended to the current file.
pub open spec fn after_write(files: Map<int, nat>, len: u64, max_bytes: u64, max_files: u32) -> Map<int, nat> {
    let current: nat = if files.contains_key(0) { files[0] } else { 0 };
    if current <= u64::MAX && rotates_before(current as u64, len, max_bytes) {
        let shifted = if max_files <= 1 {
            files
        } else {
            apply_moves(files.remove((max_files - 1) as int), planned_moves(max_files))
        };
        shifted.insert(0, len as nat)
    } else {
        files.insert(0, current + len as nat)
    }
}

/// The log directory after a sequence of writes.
pub open spec fn after_writes(files: Map<int, nat>, writes: Seq<u64>, max_bytes: u64, max_files: u32) -> Map<int, nat>
    decreases writes.len(),
{
    if writes.len() == 0 {
        files
    } else {
        after_write(after_writes(files, writes.drop_last(), max_bytes, max_files), writes.last(), max_bytes, max_files)
    }
}

/// Every file is one of the `max_files` generations and holds at most `max_bytes` bytes.
pub open spec fn within_retention(files: Map<int, nat>, max_bytes: u64, max_files: u32) -> bool {
    forall|g: int| #[trigger] files.contains_key(g) ==> 0 <= g < max_files && files[g] <= max_bytes
}

proof fn lemma_moves_keep_retention(files: Map<int, nat>, moves: Seq<(u32, u32)>, max_bytes: u64, max_files: u32)
    requires
        within_retention(files, max_bytes, max_files),
        forall|k: int| 0 <= k < moves.len() ==> (#[trigger] moves[k]).1 < max_files,
    ensures within_retention(apply_moves(files, moves), max_bytes, max_files),
    decreases moves.len(),
{
    if moves.len() > 0 {
        let (from, to) = moves[0];
        let next = if files.contains_key(from as int) {
            files.remove(from as int).insert(to as int, files[from as int])
        } else {
            files
        };
        assert(within_retention(next, max_bytes, max_files));
        assert forall|k: int| 0 <= k < moves.drop_first().len() implies (#[trigger] moves.drop_first()[k]).1 < max_files by {
            assert(moves.drop_first()[k] == moves[k + 1]);
        }
        lemma_moves_keep_retention(next, moves.drop_first(), max_bytes, max_files);
    }
}

proof fn lemma_write_keeps_retention(files: Map<int, nat>, len: u64, max_bytes: u64, max_files: u32)
    requires
        1 <= max_bytes < u64::MAX,
        max_files >= 1,
        len <= max_bytes,
        within_retention(files, max_bytes, max_files),
    ensures within_retention(after_write(files, len, max_bytes, max_files), max_bytes, max_files),
{
    let current: nat = if files.contains_key(0) { files[0] } else { 0 };
    assert(current <= max_bytes);
    let r = after_write(files, len, max_bytes, max_files);
    if rotates_before(current as u64, len, max_bytes) {
        let shifted = if max_files <= 1 {
            files
        } else {
            apply_moves(files.remove((max_files - 1) as int), planned_moves(max_files))
        };
        if max_files > 1 {
            let last = (max_files - 1) as int;
            assert(within_retention(files.remove(last), max_bytes, max_files));
            assert forall|k: int| 0 <= k < planned_moves(max_files).len()
                implies (#[trigger] planned_moves(max_files)[k]).1 < max_files by {}
            lemma_moves_keep_retention(files.remove(last), planned_moves(max_files), max_bytes, max_files);
        }
        assert(within_retention(shifted, max_bytes, max_files));
        assert(r == shifted.insert(0, len as nat));
    } else {
        assert(current + len <= max_bytes);
        assert(r == files.insert(0, current + len as nat));
    }
}

/// Log rotation keeps its promise: starting from files within the limits (an empty
/// directory among them), any sequence of writes of at most `max_bytes` bytes each leaves
/// only the current file and archives `1` to `max_files - 1`, each of at most `max_bytes`
/// bytes. (With a limit of `u64::MAX` the saturating byte count stops rotation, so that
/// limit is left out.)
pub proof fn lemma_rotation_keeps_retention(files: Map<int, nat>, writes: Seq<u64>, max_bytes: u64, max_files: u32)
    requires
        1 <= max_bytes < u64::MAX,
        max_files >= 1,
        within_retention(files, max_bytes, max_files),
        forall|i: int| 0 <= i < writes.len() ==> #[trigger] writes[i] <= max_bytes,
    ensures within_retention(after_writes(files, writes, max_bytes, max_files), max_bytes, max_files),
    decreases writes.len(),
{
    if writes.len() > 0 {
        assert forall|i: int| 0 <= i < writes.drop_last().len() implies #[trigger] writes.drop_last()[i] <= max_bytes by {
            assert(writes.drop_last()[i] == writes[i]);
        }
        lemma_rotation_keeps_retention(files, writes.drop_last(), max_bytes, max_files);
        lemma_write_keeps_retention(after_writes(files, writes.drop_last(), max_bytes, max_files), writes.last(), max_bytes, max_files);
    }
}

/// The text `String::from_utf8_lossy` makes of a byte string.
pub uninterp spec fn lossy_decode(bytes: Seq<u8>) -> Seq<char>;

/// `String::from_utf8_lossy`: valid UTF-8 decodes as it is; other bytes become
/// replacement characters.
#[verifier::external_body]
fn utf8_lossy(bytes: &[u8]) -> (r: String)
    ensures
        r@ == lossy_decode(bytes@),
        valid_utf8(bytes@) ==> r@ == decode_utf8(bytes@),
{
    String::from_utf8_lossy(bytes).into_owned()
}

/// The bytes a redacting writer forwards for a chunk: the chunk read as UTF-8, redacted,
/// and encoded again.
pub open spec fn redacted_chunk(bytes: Seq<u8>) -> Seq<u8> {
    encode_utf8(redacted_text(lossy_decode(bytes)))
}

/// Something that takes bytes in order.
pub trait ByteSink {
    spec fn written(&self) -> Seq<u8>;

    fn write_all_bytes(&mut self, bytes: &[u8])
        ensures final(self).written() == old(self).written() + bytes@;
}

impl ByteSink for Vec<u8> {
    open spec fn written(&self) -> Seq<u8> {
        self@
    }

    fn write_all_bytes(&mut self, bytes: &[u8]) {
        let mut i: usize = 0;
        let ghost start = self@;
        while i < bytes.len()
            invariant
                i <= bytes@.len(),
                self@ == start + bytes@.take(i as int),
            decreases bytes@.len() - i,
        {
            self.push(bytes[i]);
            assert(bytes@.take(i + 1) =~= bytes@.take(i as int).push(bytes@[i as int]));
            i += 1;
        }
        assert(bytes@.take(bytes@.len() as int) =~= bytes@);
    }
}

/// A writer that redacts every chunk before its sink sees it.
pub struct RedactingWriter<W> {
    inner: W,
}

impl<W> RedactingWriter<W> {
    pub closed spec fn sink(&self) -> W {
        self.inner
    }

    pub fn new(inner: W) -> (r: Self)
        ensures r.sink() == inner,
    {
        RedactingWriter { inner }
    }

    /// The sink, with everything written so far.
    pub fn into_inner(self) -> (r: W)
        ensures r == self.sink(),
    {
        self.inner
    }
}

impl<W: ByteSink> RedactingWriter<W> {
    /// Writes one chunk: the sink receives the redacted text and the whole chunk counts as
    /// written.
    pub fn write(&mut self, buf: &[u8]) -> (n: usize)
        ensures
            n == buf@.len(),
            final(self).sink().written() == old(self).sink().written() + redacted_chunk(buf@),
            valid_utf8(buf@) ==> final(self).sink().written()
                == old(self).sink().written() + encode_utf8(redacted_text(decode_utf8(buf@))),
    {
        let text = utf8_lossy(buf);
        let redacted = redact_secrets(text.as_str());
        self.inner.write_all_bytes(redacted.as_str().as_bytes());
        buf.len()
    }
}

/// Makes redacting writers around the writers its inner factory makes.
pub struct RedactingMakeWriter<M> {
    inner: M,
}

impl<M> RedactingMakeWriter<M> {
    pub closed spec fn factory(&self) -> M {
        self.inner
    }

    pub fn new(inner: M) -> (r: Self)
        ensures r.factory() == inner,
    {
        RedactingMakeWriter { inner }
    }

    /// The inner factory.
    pub fn inner(&self) -> (r: &M)
        ensures *r == self.factory(),
    {
        &self.inner
    }
}

} // verus!
