//! A safe handle around `libmagic`, which recognizes the type of data held
//! in a file or a buffer.
//!
//! The engine itself is reached over its C surface by the embedding program.
//! This library holds what that program decides around each engine call: the
//! flags handed to the engine, how database sources are encoded, how each
//! answer becomes a result or a typed error, and that a handle is released
//! exactly once.
use libc::c_int;
use vstd::prelude::*;

pub mod flags;
pub mod version;

pub use flags::Flags;
pub use version::version;

verus! {

use vstd::string::StringSliceAdditionalSpecFns;

/// The engine call that failed.
#[derive(Clone, Copy, PartialEq, Eq, Debug, Structural)]
pub enum ErrorKind {
    /// The engine could not allocate a handle.
    OpenFailed,
    /// Loading databases for queries failed.
    LoadFailed,
    /// Checking databases for consistency failed.
    CheckFailed,
    /// Compiling databases failed.
    CompileFailed,
    /// Listing the entries of databases failed.
    ListFailed,
    /// Classifying a file or a buffer failed.
    QueryFailed,
}

/// The error type used in this crate: the engine's own message, tagged with
/// the call that failed.
#[derive(PartialEq, Eq, Clone, Debug)]
pub struct FileMagicError {
    pub desc: String,
    pub kind: ErrorKind,
}

impl FileMagicError {
    /// A fixed summary of every error of this type.
    pub fn description(&self) -> (r: &'static str)
        ensures
            r@ == "internal libmagic error"@,
    {
        "internal libmagic error"
    }

    /// The message carried by this error.
    pub fn to_string(&self) -> (r: String)
        ensures
            r@ == self.desc@,
    {
        self.desc.clone()
    }
}

/// The message reported when the engine cannot allocate a handle, where no
/// engine message can be asked for.
pub open spec fn open_failure_text() -> Seq<char> {
    "errno"@
}

/// The message reported when a call failed and the engine holds no message.
pub open spec fn unknown_error_text() -> Seq<char> {
    "unknown error"@
}

/// The message of a failed call, given what the engine reported last.
pub open spec fn failure_text(last_error: Option<String>) -> Seq<char> {
    match last_error {
        Some(e) => e@,
        None => unknown_error_text(),
    }
}

/// The engine's encoding of a list of database paths: the paths joined by
/// colons, in order.
pub open spec fn joined(paths: Seq<Seq<char>>) -> Seq<char>
    decreases paths.len(),
{
    if paths.len() <= 1 {
        if paths.len() == 0 {
            Seq::empty()
        } else {
            paths[0]
        }
    } else {
        joined(paths.drop_last()) + seq![':'] + paths.last()
    }
}

/// The paths of a list of sources.
pub open spec fn paths_of(sources: Seq<String>) -> Seq<Seq<char>> {
    sources.map_values(|s: String| s@)
}

/// The database argument of a load, check, compile or list call: none for no
/// source, which selects the engine's compiled-in default database, and
/// otherwise the sources in the engine's colon-separated form.
pub fn db_filenames(sources: &[String]) -> (r: Option<String>)
    ensures
        sources@.len() == 0 <==> r is None,
        r matches Some(s) ==> s@ == joined(paths_of(sources@)),
{
    if sources.len() == 0 {
        return None;
    }
    let ghost paths = paths_of(sources@);
    let mut acc: String = sources[0].clone();
    let mut i: usize = 1;
    proof {
        reveal_strlit(":");
        assert(paths.subrange(0, 1) =~= seq![paths[0]]);
    }
    while i < sources.len()
        invariant
            1 <= i <= sources@.len(),
            paths == paths_of(sources@),
            acc@ == joined(paths.subrange(0, i as int)),
        decreases sources@.len() - i,
    {
        let ghost before = acc@;
        acc.append(":");
        acc.append(sources[i].as_str());
        proof {
            reveal_strlit(":");
            let next = paths.subrange(0, i as int + 1);
            assert(next.drop_last() =~= paths.subrange(0, i as int));
            assert(next.last() == sources@[i as int]@);
            assert(acc@ =~= before + seq![':'] + next.last());
        }
        i = i + 1;
    }
    proof {
        assert(paths.subrange(0, i as int) =~= paths);
    }
    Some(acc)
}

/// Whether a text can reach the engine as a C string: no byte of it is NUL.
pub open spec fn nul_free(bytes: Seq<u8>) -> bool {
    forall|i: int| 0 <= i < bytes.len() ==> bytes[i] != 0
}

/// The message reported for a path that cannot reach the engine.
pub open spec fn nul_path_text() -> Seq<char> {
    "path holds a NUL byte"@
}

/// Checks that `path` can be handed to the engine for a call of the given
/// kind: it fails, tagged with that kind, exactly when a byte of it is NUL.
pub fn check_path(path: &str, kind: ErrorKind) -> (r: Result<(), FileMagicError>)
    ensures
        r is Ok <==> nul_free(path.spec_bytes()),
        r matches Err(e) ==> e.kind == kind && e.desc@ == nul_path_text(),
{
    let bytes = path.as_bytes();
    let mut i: usize = 0;
    while i < bytes.len()
        invariant
            bytes@ == path.spec_bytes(),
            0 <= i <= bytes@.len(),
            forall|j: int| 0 <= j < i ==> bytes@[j] != 0,
        decreases bytes@.len() - i,
    {
        if bytes[i] == 0 {
            return Err(FileMagicError { desc: "path holds a NUL byte".to_owned(), kind });
        }
        i = i + 1;
    }
    Ok(())
}

/// The state of one engine handle, from a successful open to its release.
///
/// The engine's handle itself stays with the program that makes the engine
/// calls; this value records what the library knows of it and settles every
/// answer of the engine.
pub struct Magic {
    flags: Flags,
    released: bool,
}

impl Magic {
    /// The flags in effect on the engine handle.
    pub closed spec fn active_flags(self) -> Flags {
        self.flags
    }

    /// Whether the engine handle has been released.
    pub closed spec fn is_released(self) -> bool {
        self.released
    }

    /// The handle after a release.
    pub closed spec fn after_release(self) -> Magic {
        Magic { released: true, ..self }
    }

    /// The error reported for a call of the given kind that failed, given
    /// what the engine reported last.
    pub fn magic_failure(kind: ErrorKind, last_error: Option<String>) -> (r: FileMagicError)
        ensures
            r.kind == kind,
            r.desc@ == failure_text(last_error),
    {
        match last_error {
            Some(e) => FileMagicError { desc: e, kind },
            None => FileMagicError { desc: "unknown error".to_owned(), kind },
        }
    }

    /// The bits handed to the engine's open call: the caller's flags with
    /// the error-reporting bit forced on, so that operating system errors
    /// surface as errors and not inside the result text.
    pub fn open_bits(flags: Flags) -> (r: c_int)
        ensures
            r == flags@ | flags::ERROR,
    {
        (flags | Flags::error()).bits()
    }

    /// Settles an open call made with `open_bits(flags)`; `allocated` tells
    /// whether the engine handed back a handle.
    pub fn open(flags: Flags, allocated: bool) -> (r: Result<Magic, FileMagicError>)
        ensures
            allocated <==> r is Ok,
            r matches Ok(m) ==> !m.is_released() && m.active_flags()@ == flags@ | flags::ERROR,
            r matches Err(e) ==> e.kind == ErrorKind::OpenFailed && e.desc@ == open_failure_text(),
    {
        if allocated {
            Ok(Magic { flags: flags | Flags::error(), released: false })
        } else {
            Err(FileMagicError { desc: "errno".to_owned(), kind: ErrorKind::OpenFailed })
        }
    }

    /// The flags in effect on the engine handle.
    pub fn flags(&self) -> (r: Flags)
        ensures
            r == self.active_flags(),
    {
        self.flags
    }

    /// Whether the engine handle has been released.
    pub fn released(&self) -> (r: bool)
        ensures
            r == self.is_released(),
    {
        self.released
    }

    /// Settles a call that answers with a status, zero for success.
    fn status_result(kind: ErrorKind, status: c_int, last_error: Option<String>) -> (r: Result<
        (),
        FileMagicError,
    >)
        ensures
            status == 0 <==> r is Ok,
            r matches Err(e) ==> e.kind == kind && e.desc@ == failure_text(last_error),
    {
        if status == 0 {
            Ok(())
        } else {
            Err(Magic::magic_failure(kind, last_error))
        }
    }

    /// Settles a query, which answers with a text or with nothing.
    fn text_result(text: Option<String>, last_error: Option<String>) -> (r: Result<
        String,
        FileMagicError,
    >)
        ensures
            text is Some <==> r is Ok,
            r matches Ok(t) ==> text == Some(t),
            r matches Err(e) ==> e.kind == ErrorKind::QueryFailed && e.desc@ == failure_text(
                last_error,
            ),
    {
        match text {
            Some(t) => Ok(t),
            None => Err(Magic::magic_failure(ErrorKind::QueryFailed, last_error)),
        }
    }

    /// Settles a load call made with `db_filenames(sources)`, given its
    /// status and the engine's last message.
    pub fn load(&self, status: c_int, last_error: Option<String>) -> (r: Result<(), FileMagicError>)
        requires
            !self.is_released(),
        ensures
            status == 0 <==> r is Ok,
            r matches Err(e) ==> e.kind == ErrorKind::LoadFailed && e.desc@ == failure_text(
                last_error,
            ),
    {
        Magic::status_result(ErrorKind::LoadFailed, status, last_error)
    }

    /// Settles a check call made with `db_filenames(sources)`.
    pub fn check(&self, status: c_int, last_error: Option<String>) -> (r: Result<
        (),
        FileMagicError,
    >)
        requires
            !self.is_released(),
        ensures
            status == 0 <==> r is Ok,
            r matches Err(e) ==> e.kind == ErrorKind::CheckFailed && e.desc@ == failure_text(
                last_error,
            ),
    {
        Magic::status_result(ErrorKind::CheckFailed, status, last_error)
    }

    /// Settles a compile call made with `db_filenames(sources)`; the engine
    /// names each compiled file after the base name of its source, with
    /// `.mgc` appended.
    pub fn compile(&self, status: c_int, last_error: Option<String>) -> (r: Result<
        (),
        FileMagicError,
    >)
        requires
            !self.is_released(),
        ensures
            status == 0 <==> r is Ok,
            r matches Err(e) ==> e.kind == ErrorKind::CompileFailed && e.desc@ == failure_text(
                last_error,
            ),
    {
        Magic::status_result(ErrorKind::CompileFailed, status, last_error)
    }

    /// Settles a list call made with `db_filenames(sources)`.
    pub fn list(&self, status: c_int, last_error: Option<String>) -> (r: Result<(), FileMagicError>)
        requires
            !self.is_released(),
        ensures
            status == 0 <==> r is Ok,
            r matches Err(e) ==> e.kind == ErrorKind::ListFailed && e.desc@ == failure_text(
                last_error,
            ),
    {
        Magic::status_result(ErrorKind::ListFailed, status, last_error)
    }

    /// Settles a set-flags call made with `flags.bits()`; the engine answers
    /// -1 when it refuses the flags, and then keeps those it had.
    pub fn set_flags(&mut self, flags: Flags, status: c_int) -> (r: bool)
        requires
            !old(self).is_released(),
        ensures
            r == (status != -1),
            !final(self).is_released(),
            r ==> final(self).active_flags() == flags,
            !r ==> final(self).active_flags() == old(self).active_flags(),
    {
        if status != -1 {
            self.flags = flags;
            true
        } else {
            false
        }
    }

    /// Settles a query of a file: `text` is the engine's description, or
    /// none where the engine failed.
    pub fn file(&self, text: Option<String>, last_error: Option<String>) -> (r: Result<
        String,
        FileMagicError,
    >)
        requires
            !self.is_released(),
        ensures
            text is Some <==> r is Ok,
            r matches Ok(t) ==> text == Some(t),
            r matches Err(e) ==> e.kind == ErrorKind::QueryFailed && e.desc@ == failure_text(
                last_error,
            ),
    {
        Magic::text_result(text, last_error)
    }

    /// Settles a query of a buffer: `text` is the engine's description, or
    /// none where the engine failed.
    pub fn buffer(&self, text: Option<String>, last_error: Option<String>) -> (r: Result<
        String,
        FileMagicError,
    >)
        requires
            !self.is_released(),
        ensures
            text is Some <==> r is Ok,
            r matches Ok(t) ==> text == Some(t),
            r matches Err(e) ==> e.kind == ErrorKind::QueryFailed && e.desc@ == failure_text(
                last_error,
            ),
    {
        Magic::text_result(text, last_error)
    }

    /// Marks the handle released; true exactly when the engine's close call
    /// is still owed, which is on the first release only.
    pub fn release(&mut self) -> (r: bool)
        ensures
            r == !old(self).is_released(),
            *final(self) == old(self).after_release(),
    {
        let owed = !self.released;
        self.released = true;
        owed
    }
}

/// Whatever flags a caller opens a handle with, the engine is asked for
/// those flags with the error-reporting bit set on top: every bit that the
/// caller asked for is kept, and `ERROR` is always among them.
pub proof fn lemma_open_reports_errors(flags: Flags)
    ensures
        (flags@ | flags::ERROR) & flags::ERROR == flags::ERROR,
        (flags@ | flags::ERROR) & flags@ == flags@,
        flags@ & flags::ERROR == flags::ERROR ==> (flags@ | flags::ERROR) == flags@,
{
    let b = flags@;
    assert((b | 0x200i32) & 0x200i32 == 0x200i32) by (bit_vector);
    assert((b | 0x200i32) & b == b) by (bit_vector);
    assert(b & 0x200i32 == 0x200i32 ==> (b | 0x200i32) == b) by (bit_vector);
}

/// Releasing a handle a second time owes the engine no close call, and
/// changes nothing: the close call is made at most once per handle.
pub proof fn lemma_release_once(m: Magic)
    ensures
        m.after_release().is_released(),
        m.after_release().after_release() == m.after_release(),
        m.after_release().active_flags() == m.active_flags(),
{
}

} // verus!
