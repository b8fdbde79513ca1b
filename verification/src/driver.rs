//! Backend selection and the whole-file limit.
use std::sync::Arc;
use bytes::Bytes;
use vstd::prelude::*;
use crate::bytes_spec::content;
use crate::text::{decimal, decimal_text, lowered, lowered_is_idempotent};

verus! {

/// Largest file the whole-file operations accept, in bytes.
///
/// A whole-file read or write holds a pool thread for the whole transfer and
/// the whole file resident, so a large file wants `open` with positional reads
/// and writes instead.
pub const WHOLE_FILE_LIMIT: usize = 8 * 1024 * 1024;

/// What sort of failure a [`DriverError`] is.
#[derive(Clone, Copy, Debug, PartialEq, Eq, Structural)]
pub enum ErrorKind {
    /// An argument was not acceptable.
    InvalidInput,
}

/// An error of the driver: its sort and its message.
#[derive(Debug)]
pub struct DriverError {
    kind: ErrorKind,
    message: String,
}

impl DriverError {
    /// The sort of the failure.
    pub closed spec fn spec_kind(&self) -> ErrorKind {
        self.kind
    }

    /// The text that reports the failure.
    pub closed spec fn spec_message(&self) -> Seq<char> {
        self.message@
    }

    fn invalid_input(message: String) -> (r: DriverError)
        ensures
            r.spec_kind() == ErrorKind::InvalidInput,
            r.spec_message() == message@,
    {
        DriverError { kind: ErrorKind::InvalidInput, message }
    }

    /// The sort of the failure.
    pub fn kind(&self) -> (r: ErrorKind)
        ensures
            r == self.spec_kind(),
    {
        self.kind
    }

    /// The text that reports the failure.
    pub fn message(&self) -> (r: &str)
        ensures
            r@ == self.spec_message(),
    {
        self.message.as_str()
    }
}

/// The report for a length above [`WHOLE_FILE_LIMIT`].
pub open spec fn over_limit_message(len: nat) -> Seq<char> {
    decimal(len) + " bytes exceeds the "@ + decimal(WHOLE_FILE_LIMIT as nat)
        + " byte whole-file limit; open the file and use read_exact_at or write_all_at"@
}

/// Whether an error is the rejection of a length above [`WHOLE_FILE_LIMIT`].
pub open spec fn rejects_len(e: DriverError, len: nat) -> bool {
    &&& e.spec_kind() == ErrorKind::InvalidInput
    &&& e.spec_message() == over_limit_message(len)
}

fn over_limit(len: u64) -> (r: DriverError)
    ensures
        rejects_len(r, len as nat),
{
    let mut message = decimal_text(len);
    message.append(" bytes exceeds the ");
    message.append(decimal_text(WHOLE_FILE_LIMIT as u64).as_str());
    message.append(" byte whole-file limit; open the file and use read_exact_at or write_all_at");
    DriverError::invalid_input(message)
}

/// Accepts a length that a whole-file operation may move.
pub fn check_whole_file_len(len: usize) -> (r: Result<(), DriverError>)
    ensures
        r is Ok <==> len <= WHOLE_FILE_LIMIT,
        r matches Err(e) ==> rejects_len(e, len as nat),
{
    if len > WHOLE_FILE_LIMIT {
        return Err(over_limit(len as u64));
    }
    Ok(())
}

/// Backend selection for an [`IoDriver`].
#[derive(Clone, Copy, Debug, PartialEq, Eq, Structural)]
pub enum BackendKind {
    /// Probe for the best available backend.
    Auto,
    /// Positional syscalls on the bounded syscall pool.
    Psync,
}

/// The backend that a `LORE_IO_BACKEND` value names, ASCII case aside.
pub open spec fn backend_named(value: Seq<char>) -> Option<BackendKind> {
    let name = lowered(value);
    if name == ""@ || name == "auto"@ {
        Some(BackendKind::Auto)
    } else if name == "psync"@ {
        Some(BackendKind::Psync)
    } else {
        None
    }
}

/// The report for a `LORE_IO_BACKEND` value that names no backend.
pub open spec fn unsupported_message(value: Seq<char>) -> Seq<char> {
    "unsupported LORE_IO_BACKEND \""@ + lowered(value) + "\" (supported: auto, psync)"@
}

/// Whether an error is the rejection of a `LORE_IO_BACKEND` value.
pub open spec fn rejects_value(e: DriverError, value: Seq<char>) -> bool {
    &&& e.spec_kind() == ErrorKind::InvalidInput
    &&& e.spec_message() == unsupported_message(value)
}

/// Parses a `LORE_IO_BACKEND` value.
pub fn backend_kind_from_value(value: &str) -> (r: Result<BackendKind, DriverError>)
    ensures
        match backend_named(value@) {
            Some(kind) => r == Ok::<BackendKind, DriverError>(kind),
            None => r is Err && rejects_value(r->Err_0, value@),
        },
{
    let name = value.to_ascii_lowercase();
    if name == "".to_owned() || name == "auto".to_owned() {
        Ok(BackendKind::Auto)
    } else if name == "psync".to_owned() {
        Ok(BackendKind::Psync)
    } else {
        let mut message = "unsupported LORE_IO_BACKEND \"".to_owned();
        message.append(name.as_str());
        message.append("\" (supported: auto, psync)");
        Err(DriverError::invalid_input(message))
    }
}

/// The backend of positional syscalls on the shared syscall pool.
#[derive(Clone, Copy, Debug, PartialEq, Eq, Structural)]
pub struct PsyncDriver;

/// The backends a driver can dispatch to.
#[derive(Clone, Copy, Debug, PartialEq, Eq, Structural)]
pub enum DriverInner {
    /// See [`PsyncDriver`].
    Psync(PsyncDriver),
}

/// A file I/O driver instance dispatching to one backend.
///
/// Cloning is cheap and clones share the backend.
pub struct IoDriver {
    inner: Arc<DriverInner>,
}

impl View for IoDriver {
    type V = DriverInner;

    closed spec fn view(&self) -> DriverInner {
        *self.inner
    }
}

impl Clone for IoDriver {
    fn clone(&self) -> (r: IoDriver)
        ensures
            r@ == self@,
    {
        IoDriver { inner: self.inner.clone() }
    }
}

/// The backend that a selection resolves to.
pub open spec fn resolved(kind: BackendKind) -> DriverInner {
    match kind {
        BackendKind::Auto | BackendKind::Psync => DriverInner::Psync(PsyncDriver),
    }
}

/// A whole-file read that may go to its backend: open, stat, read `len` bytes,
/// close.
#[derive(Clone, Copy, Debug, PartialEq, Eq, Structural)]
pub struct WholeFileRead {
    /// The backend that reads.
    pub backend: DriverInner,
    /// The length of the file, all of which is read.
    pub len: usize,
}

/// A whole-file write that may go to its backend: create or truncate, write,
/// sync the file's data when `durable`, stat, close.
pub struct WholeFileWrite {
    /// The backend that writes.
    pub backend: DriverInner,
    /// What the file is to hold.
    pub data: Bytes,
    /// Whether the file's data is synced before the write is reported done.
    pub durable: bool,
}

impl IoDriver {
    /// A driver on the backend that `kind` selects.
    pub fn new(kind: BackendKind) -> (r: Result<IoDriver, DriverError>)
        ensures
            r is Ok,
            r->Ok_0@ == resolved(kind),
    {
        let inner = match kind {
            BackendKind::Auto | BackendKind::Psync => DriverInner::Psync(PsyncDriver),
        };
        Ok(IoDriver { inner: Arc::new(inner) })
    }

    /// A driver honoring the value of `LORE_IO_BACKEND`, failing on an
    /// unrecognised one.
    ///
    /// `None` stands for a variable that is not set, and for nothing else. A
    /// value that is not text comes with U+FFFD in place of what is not text,
    /// and is unrecognised like any other: see [`value_that_is_not_text_is_unknown`].
    pub fn from_env(value: Option<&str>) -> (r: Result<IoDriver, DriverError>)
        ensures
            match value {
                None => r is Ok && r->Ok_0@ == resolved(BackendKind::Auto),
                Some(value) => match backend_named(value@) {
                    Some(kind) => r is Ok && r->Ok_0@ == resolved(kind),
                    None => r is Err && rejects_value(r->Err_0, value@),
                },
            },
    {
        let kind = match value {
            Some(value) => match backend_kind_from_value(value) {
                Ok(kind) => kind,
                Err(error) => return Err(error),
            },
            None => BackendKind::Auto,
        };
        IoDriver::new(kind)
    }

    /// The driver of a whole process, from the value of `LORE_IO_BACKEND` as
    /// [`IoDriver::from_env`] takes it.
    ///
    /// An unrecognised value falls back to the probed backend rather than
    /// failing; the error comes along so that it can be reported.
    pub fn global(value: Option<&str>) -> (r: (IoDriver, Option<DriverError>))
        ensures
            match value {
                None => r.0@ == resolved(BackendKind::Auto) && r.1 is None,
                Some(value) => match backend_named(value@) {
                    Some(kind) => r.0@ == resolved(kind) && r.1 is None,
                    None => {
                        &&& r.0@ == resolved(BackendKind::Auto)
                        &&& r.1 is Some
                        &&& rejects_value(r.1->Some_0, value@)
                    },
                },
            },
    {
        match IoDriver::from_env(value) {
            Ok(driver) => (driver, None),
            Err(error) => (IoDriver::new(BackendKind::Auto).unwrap(), Some(error)),
        }
    }

    /// The name of the selected backend, for logs and benchmarks.
    pub fn backend_name(&self) -> (r: &'static str)
        ensures
            match self@ {
                DriverInner::Psync(_) => r@ == "psync"@,
            },
    {
        match &*self.inner {
            DriverInner::Psync(_) => "psync",
        }
    }

    /// The backend that the driver's operations go to.
    pub fn backend(&self) -> (r: DriverInner)
        ensures
            r == self@,
    {
        *self.inner
    }

    /// Reads an entire file as a single backend dispatch.
    ///
    /// `len` is the length that stat reports of the file. The read fails with
    /// `InvalidInput` for a file larger than [`WHOLE_FILE_LIMIT`].
    pub fn read_file_bytes(&self, len: u64) -> (r: Result<WholeFileRead, DriverError>)
        ensures
            match r {
                Ok(read) => {
                    &&& len <= WHOLE_FILE_LIMIT
                    &&& read.backend == self@
                    &&& read.len == len
                },
                Err(e) => len > WHOLE_FILE_LIMIT && rejects_len(e, len as nat),
            },
    {
        if len > WHOLE_FILE_LIMIT as u64 {
            return Err(over_limit(len));
        }
        Ok(WholeFileRead { backend: *self.inner, len: len as usize })
    }

    /// Writes `data` as the entire contents of a file in a single backend
    /// dispatch.
    ///
    /// Fails with `InvalidInput` for data larger than [`WHOLE_FILE_LIMIT`]. The
    /// backend does not see a rejected call, so it cannot have truncated an
    /// existing file.
    pub fn write_file_bytes(&self, data: Bytes, durable: bool) -> (r: Result<
        WholeFileWrite,
        DriverError,
    >)
        ensures
            match r {
                Ok(write) => {
                    &&& content(data).len() <= WHOLE_FILE_LIMIT
                    &&& write == (WholeFileWrite { backend: self@, data, durable })
                },
                Err(e) => {
                    &&& content(data).len() > WHOLE_FILE_LIMIT
                    &&& rejects_len(e, content(data).len())
                },
            },
    {
        match check_whole_file_len(data.len()) {
            Ok(()) => Ok(WholeFileWrite { backend: *self.inner, data, durable }),
            Err(error) => Err(error),
        }
    }
}

/// ASCII case does not matter in a `LORE_IO_BACKEND` value.
pub proof fn backend_case_is_ignored(a: Seq<char>, b: Seq<char>)
    requires
        lowered(a) == lowered(b),
    ensures
        backend_named(a) == backend_named(b),
        unsupported_message(a) == unsupported_message(b),
        backend_named(lowered(a)) == backend_named(a),
{
    lowered_is_idempotent(a);
}

/// A `LORE_IO_BACKEND` value that is not text, with U+FFFD in place of what is
/// not text, names no backend.
pub proof fn value_that_is_not_text_is_unknown(value: Seq<char>)
    requires
        value.contains('\u{FFFD}'),
    ensures
        backend_named(value) is None,
{
    reveal_strlit("");
    reveal_strlit("auto");
    reveal_strlit("psync");
    let i = choose|i: int| 0 <= i < value.len() && value[i] == '\u{FFFD}';
    let name = lowered(value);
    assert(0 <= i < name.len() && name[i] == '\u{FFFD}');
    assert(name != ""@ && name != "auto"@ && name != "psync"@) by {
        assert(forall|j: int| 0 <= j < "auto"@.len() ==> "auto"@[j] != '\u{FFFD}');
        assert(forall|j: int| 0 <= j < "psync"@.len() ==> "psync"@[j] != '\u{FFFD}');
    }
}

/// Every selection resolves to the one backend there is.
pub proof fn every_selection_is_psync(kind: BackendKind)
    ensures
        resolved(kind) == DriverInner::Psync(PsyncDriver),
{
}

} // verus!
