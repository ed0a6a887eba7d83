//! Named temporary files: creation through the retry protocol, and the
//! move-only lifecycle of the owner object.

use vstd::prelude::*;

use crate::error::ErrorKind;
use crate::util::is_candidate_path;
use crate::util::join;
use crate::util::tmpname;
use crate::util::NUM_RETRIES;

verus! {

/// The default length of the random name segment.
pub const NUM_RAND_CHARS: usize = 6;

/// Take ownership of a value and drop it, so a handle can be released before
/// its path is removed.
fn discard<T>(_t: T) {
}

/// A named temporary file: an owned pair of an open handle and the
/// filesystem path it was created at.
///
/// The type is generic in the handle `H` it owns; the filesystem primitives
/// that act on the path — removal, atomic replacement, reopening — are passed
/// to each method as a closure, and the method's contract relates its result
/// to the closure's. The lifecycle is move-only: `close`, `persist`,
/// `persist_noclobber` and `into_file` consume the owner, so no operation is
/// possible on a consumed file.
///
/// The library's methods never remove the path behind the owner's back; a
/// caller who wants deletion on end of scope wraps the owner in a type of its
/// own with a destructor, which cannot report a deletion failure — use
/// [`NamedTempFile::close`] to observe one. No cleanup happens on abnormal
/// process termination.
pub struct NamedTempFile<H> {
    file: H,
    path: String,
}

/// Error returned when persisting a temporary file fails.
///
/// It carries the failure and returns ownership of the still-live temporary
/// file, so a failed persist loses neither the data nor the handle: the
/// caller may retry, inspect, or explicitly close it.
pub struct PersistError<H> {
    /// The underlying failure.
    pub error: ErrorKind,
    /// The temporary file that could not be persisted.
    pub file: NamedTempFile<H>,
}

/// What persisting `file` at `new_path` returns: on success, the very handle
/// the file owned, after the replacement primitive accepted the move of the
/// file's path onto `new_path`; on failure, the primitive's error together
/// with the file, unchanged — the same handle and the same path.
pub open spec fn persist_outcome<H, Rp: FnOnce(String, String, bool) -> Result<(), ErrorKind>>(
    replace: Rp,
    file: NamedTempFile<H>,
    new_path: String,
    overwrite: bool,
    r: Result<H, PersistError<H>>,
) -> bool {
    match r {
        Ok(h) => h == file.spec_file() && call_ensures(
            replace,
            (file.spec_path(), new_path, overwrite),
            Result::<(), ErrorKind>::Ok(()),
        ),
        Err(pe) => pe.file == file && call_ensures(
            replace,
            (file.spec_path(), new_path, overwrite),
            Result::<(), ErrorKind>::Err(pe.error),
        ),
    }
}

impl<H> NamedTempFile<H> {
    /// The path this file was created at.
    pub closed spec fn spec_path(self) -> String {
        self.path
    }

    /// The handle this file owns.
    pub closed spec fn spec_file(self) -> H {
        self.file
    }

    /// Create a named temporary file under `dir` with the default
    /// configuration, creating it exclusively through `create`.
    ///
    /// See [`NamedTempFileBuilder::create_in`] for the contract; the prefix
    /// is `.tmp`, the suffix empty, and the random segment
    /// [`NUM_RAND_CHARS`] characters long.
    pub fn new_in<C: Fn(String) -> Result<H, ErrorKind>>(dir: &str, create: C) -> (r: Result<
        NamedTempFile<H>,
        ErrorKind,
    >)
        requires
            forall|p: String|
                is_candidate_path(p@, dir@, ".tmp"@, Seq::<char>::empty(), NUM_RAND_CHARS as nat)
                    ==> #[trigger] call_requires(create, (p,)),
        ensures
            match r {
                Ok(t) => is_candidate_path(
                    t.spec_path()@,
                    dir@,
                    ".tmp"@,
                    Seq::<char>::empty(),
                    NUM_RAND_CHARS as nat,
                ) && call_ensures(create, (t.spec_path(),), Result::<H, ErrorKind>::Ok(t.spec_file())),
                Err(e) => exists|p: String|
                    is_candidate_path(
                        p@,
                        dir@,
                        ".tmp"@,
                        Seq::<char>::empty(),
                        NUM_RAND_CHARS as nat,
                    ) && #[trigger] call_ensures(create, (p,), Result::<H, ErrorKind>::Err(e)),
            },
    {
        NamedTempFileBuilder::new().create_in(dir, create)
    }

    /// The temporary file's path.
    pub fn path(&self) -> (r: &str)
        ensures
            r@ == self.spec_path()@,
    {
        self.path.as_str()
    }

    /// A reference to the underlying handle.
    pub fn file(&self) -> (r: &H)
        ensures
            *r == self.spec_file(),
    {
        &self.file
    }

    /// Close the file: release the handle, then remove the path through
    /// `remove`, reporting its outcome — in contrast with a destructor-driven
    /// cleanup, which has no channel to report a deletion failure.
    pub fn close<D: FnOnce(String) -> Result<(), ErrorKind>>(self, remove: D) -> (r: Result<
        (),
        ErrorKind,
    >)
        requires
            call_requires(remove, (self.spec_path(),)),
        ensures
            call_ensures(remove, (self.spec_path(),), r),
    {
        let NamedTempFile { file, path } = self;
        discard(file);
        remove(path)
    }

    /// Persist the temporary file at `new_path` through `replace`, the
    /// caller's atomic-replacement primitive, invoked with overwriting
    /// allowed: an existing entity at `new_path` is replaced.
    ///
    /// On success the owner is consumed, no further removal of the temporary
    /// path ever happens, and the handle is returned bare. On failure nothing
    /// is lost: the error carries the file back, fully live.
    pub fn persist<Rp: FnOnce(String, String, bool) -> Result<(), ErrorKind>>(
        self,
        new_path: String,
        replace: Rp,
    ) -> (r: Result<H, PersistError<H>>)
        requires
            call_requires(replace, (self.spec_path(), new_path, true)),
        ensures
            persist_outcome(replace, self, new_path, true, r),
    {
        let res = replace(self.path.clone(), new_path, true);
        match res {
            Ok(u) => {
                proof {
                    assert(res == Result::<(), ErrorKind>::Ok(u) && u == ());
                }
                let NamedTempFile { file, path } = self;
                Ok(file)
            },
            Err(e) => Err(PersistError { error: e, file: self }),
        }
    }

    /// Persist the temporary file at `new_path` only if no entity exists
    /// there: `replace` is invoked with overwriting forbidden, and must fail
    /// when `new_path` is taken.
    ///
    /// This operation is not atomic as a whole: checking the target and
    /// renaming are distinct steps in the primitive layer, a known limitation
    /// rather than a guarantee this library could make. As with
    /// [`NamedTempFile::persist`], a failure returns the file intact inside
    /// the error.
    pub fn persist_noclobber<Rp: FnOnce(String, String, bool) -> Result<(), ErrorKind>>(
        self,
        new_path: String,
        replace: Rp,
    ) -> (r: Result<H, PersistError<H>>)
        requires
            call_requires(replace, (self.spec_path(), new_path, false)),
        ensures
            persist_outcome(replace, self, new_path, false, r),
    {
        let res = replace(self.path.clone(), new_path, false);
        match res {
            Ok(u) => {
                proof {
                    assert(res == Result::<(), ErrorKind>::Ok(u) && u == ());
                }
                let NamedTempFile { file, path } = self;
                Ok(file)
            },
            Err(e) => Err(PersistError { error: e, file: self }),
        }
    }

    /// Reopen the file: obtain an independent handle to the same entity
    /// through `open`, the caller's open-by-path primitive. The owner itself
    /// is untouched.
    pub fn reopen<Ro: FnOnce(String) -> Result<H, ErrorKind>>(&self, open: Ro) -> (r: Result<
        H,
        ErrorKind,
    >)
        requires
            call_requires(open, (self.spec_path(),)),
        ensures
            call_ensures(open, (self.spec_path(),), r),
    {
        open(self.path.clone())
    }

    /// Convert the owner into its bare handle, removing the path eagerly
    /// through `remove` on a best-effort basis: a removal failure is
    /// discarded, since the owner is gone and no further cleanup will run.
    pub fn into_file<D: FnOnce(String) -> Result<(), ErrorKind>>(self, remove: D) -> (r: H)
        requires
            call_requires(remove, (self.spec_path(),)),
        ensures
            r == self.spec_file(),
    {
        let NamedTempFile { file, path } = self;
        let _ = remove(path);
        file
    }
}

/// Persist-if-absent on a taken target fails with the already-exists error
/// and returns the original file intact — the same handle and the same path.
/// When every outcome the replacement primitive admits for this invocation
/// (overwriting forbidden) is an already-exists failure, as its contract
/// demands while the target exists, the operation's result carries exactly
/// that error and the unchanged file.
pub proof fn lemma_noclobber_on_taken_target_returns_file_intact<
    H,
    Rp: FnOnce(String, String, bool) -> Result<(), ErrorKind>,
>(
    replace: Rp,
    file: NamedTempFile<H>,
    new_path: String,
    r: Result<H, PersistError<H>>,
)
    requires
        persist_outcome(replace, file, new_path, false, r),
        forall|out: Result<(), ErrorKind>|
            #[trigger] call_ensures(replace, (file.spec_path(), new_path, false), out)
                ==> out == Result::<(), ErrorKind>::Err(ErrorKind::AlreadyExists),
    ensures
        r matches Err(pe) && pe.error == ErrorKind::AlreadyExists && pe.file == file,
{
}

impl<H> From<PersistError<H>> for NamedTempFile<H> {
    /// A failed persist hands the temporary file back.
    fn from(pe: PersistError<H>) -> (r: NamedTempFile<H>) {
        pe.file
    }
}

impl<H> vstd::std_specs::convert::FromSpecImpl<PersistError<H>> for NamedTempFile<H> {
    open spec fn obeys_from_spec() -> bool {
        true
    }

    open spec fn from_spec(pe: PersistError<H>) -> Self {
        pe.file
    }
}

impl<H> From<PersistError<H>> for ErrorKind {
    /// A failed persist carries the underlying failure.
    fn from(pe: PersistError<H>) -> (r: ErrorKind) {
        pe.error
    }
}

impl<H> vstd::std_specs::convert::FromSpecImpl<PersistError<H>> for ErrorKind {
    open spec fn obeys_from_spec() -> bool {
        true
    }

    open spec fn from_spec(pe: PersistError<H>) -> Self {
        pe.error
    }
}

/// Configuration for a named temporary file: a filename prefix and suffix —
/// path separators in them are legal but not advisable — and the length of
/// the random segment between the two. Immutable once built; one builder may
/// create any number of independent files.
#[derive(Clone, Debug, PartialEq, Eq)]
pub struct NamedTempFileBuilder {
    random_len: usize,
    prefix: String,
    suffix: String,
}

impl NamedTempFileBuilder {
    /// The configured filename prefix.
    pub closed spec fn spec_prefix(self) -> Seq<char> {
        self.prefix@
    }

    /// The configured filename suffix.
    pub closed spec fn spec_suffix(self) -> Seq<char> {
        self.suffix@
    }

    /// The configured length of the random name segment.
    pub closed spec fn spec_random_len(self) -> nat {
        self.random_len as nat
    }

    /// A builder with the default configuration: prefix `.tmp`, an empty
    /// suffix, and a random segment of [`NUM_RAND_CHARS`] characters.
    pub fn new() -> (r: NamedTempFileBuilder)
        ensures
            r.spec_prefix() == ".tmp"@,
            r.spec_suffix() == Seq::<char>::empty(),
            r.spec_random_len() == NUM_RAND_CHARS as nat,
    {
        proof {
            reveal_strlit("");
        }
        NamedTempFileBuilder {
            random_len: NUM_RAND_CHARS,
            prefix: ".tmp".to_owned(),
            suffix: "".to_owned(),
        }
    }

    /// Set a custom filename prefix. Default: `.tmp`.
    pub fn prefix(self, prefix: &str) -> (r: NamedTempFileBuilder)
        ensures
            r.spec_prefix() == prefix@,
            r.spec_suffix() == self.spec_suffix(),
            r.spec_random_len() == self.spec_random_len(),
    {
        NamedTempFileBuilder { prefix: prefix.to_owned(), ..self }
    }

    /// Set a custom filename suffix. Default: empty.
    pub fn suffix(self, suffix: &str) -> (r: NamedTempFileBuilder)
        ensures
            r.spec_suffix() == suffix@,
            r.spec_prefix() == self.spec_prefix(),
            r.spec_random_len() == self.spec_random_len(),
    {
        NamedTempFileBuilder { suffix: suffix.to_owned(), ..self }
    }

    /// Set the length of the random name segment. Zero is legal: the name
    /// degenerates to the plain prefix and suffix, and collisions then rest
    /// entirely on the retry loop. Default: [`NUM_RAND_CHARS`].
    pub fn rand_bytes(self, rand: usize) -> (r: NamedTempFileBuilder)
        ensures
            r.spec_random_len() == rand as nat,
            r.spec_prefix() == self.spec_prefix(),
            r.spec_suffix() == self.spec_suffix(),
    {
        NamedTempFileBuilder { random_len: rand, ..self }
    }

    /// Create the named temporary file under `dir`, creating it exclusively
    /// through `create`: the caller's primitive that opens a fresh file at
    /// the given path for reading and writing and fails with
    /// [`ErrorKind::AlreadyExists`] — distinctly, and leaving nothing behind
    /// — when the path is taken.
    ///
    /// Candidate paths are generated as the retry protocol describes (see
    /// [`crate::util::create_helper`]): an already-exists failure is retried
    /// with a fresh random name, any other failure is returned at once, and
    /// after [`NUM_RETRIES`] collisions the already-exists error is returned.
    /// A successful owner holds exactly the handle `create` returned and the
    /// candidate path it was created at.
    pub fn create_in<H, C: Fn(String) -> Result<H, ErrorKind>>(&self, dir: &str, create: C) -> (r:
        Result<NamedTempFile<H>, ErrorKind>)
        requires
            forall|p: String|
                is_candidate_path(
                    p@,
                    dir@,
                    self.spec_prefix(),
                    self.spec_suffix(),
                    self.spec_random_len(),
                ) ==> #[trigger] call_requires(create, (p,)),
        ensures
            match r {
                Ok(t) => is_candidate_path(
                    t.spec_path()@,
                    dir@,
                    self.spec_prefix(),
                    self.spec_suffix(),
                    self.spec_random_len(),
                ) && call_ensures(create, (t.spec_path(),), Result::<H, ErrorKind>::Ok(t.spec_file())),
                Err(e) => exists|p: String|
                    is_candidate_path(
                        p@,
                        dir@,
                        self.spec_prefix(),
                        self.spec_suffix(),
                        self.spec_random_len(),
                    ) && #[trigger] call_ensures(create, (p,), Result::<H, ErrorKind>::Err(e)),
            },
    {
        let mut attempts: u32 = 0;
        while attempts < NUM_RETRIES
            invariant
                forall|p: String|
                    is_candidate_path(
                        p@,
                        dir@,
                        self.spec_prefix(),
                        self.spec_suffix(),
                        self.spec_random_len(),
                    ) ==> #[trigger] call_requires(create, (p,)),
                attempts > 0 ==> exists|p: String|
                    is_candidate_path(
                        p@,
                        dir@,
                        self.spec_prefix(),
                        self.spec_suffix(),
                        self.spec_random_len(),
                    ) && #[trigger] call_ensures(
                        create,
                        (p,),
                        Result::<H, ErrorKind>::Err(ErrorKind::AlreadyExists),
                    ),
            decreases NUM_RETRIES - attempts,
        {
            let name = tmpname(self.prefix.as_str(), self.suffix.as_str(), self.random_len);
            let path = join(dir, name.as_str());
            let kept = path.clone();
            match create(path) {
                Ok(file) => {
                    return Ok(NamedTempFile { file, path: kept });
                },
                Err(e) => {
                    if e == ErrorKind::AlreadyExists {
                        attempts += 1;
                    } else {
                        return Err(e);
                    }
                },
            }
        }
        Err(ErrorKind::AlreadyExists)
    }
}

} // verus!
