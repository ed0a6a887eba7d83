//! Random candidate names and the create-with-retry protocol.

use vstd::prelude::*;

use crate::error::ErrorKind;

verus! {

/// True of the characters a random name segment may contain: the 62-symbol
/// alphabet of ASCII digits and lower- and upper-case letters.
pub open spec fn is_alnum(c: char) -> bool {
    ('0' <= c && c <= '9') || ('a' <= c && c <= 'z') || ('A' <= c && c <= 'Z')
}

/// The character the given random byte is mapped to: bytes are reduced
/// modulo 62 and spread over digits, then lower-case, then upper-case
/// letters.
pub open spec fn alnum_of_byte(b: u8) -> char {
    let v = b % 62;
    if v < 10 {
        (v + 48) as char
    } else if v < 36 {
        (v - 10 + 97) as char
    } else {
        (v - 36 + 65) as char
    }
}

/// Map one random byte into the name alphabet.
fn alnum_byte(b: u8) -> (c: char)
    ensures
        c == alnum_of_byte(b),
        is_alnum(c),
{
    let v = b % 62;
    if v < 10 {
        (v + 48) as char
    } else if v < 36 {
        (v - 10 + 97) as char
    } else {
        (v - 36 + 65) as char
    }
}

/// A sequence of random bytes of the requested length.
///
/// Relies on `rand::rng` together with `rand::Rng::fill_bytes`: the buffer is
/// filled in place, so only its length is known; nothing is promised of the
/// byte values, which are random.
#[verifier::external_body]
fn random_bytes(n: usize) -> (r: Vec<u8>)
    ensures
        r@.len() == n,
{
    let mut buf = vec![0u8; n];
    rand::Rng::fill_bytes(&mut rand::rng(), buf.as_mut_slice());
    buf
}

/// Append one character to a string.
///
/// Relies on `String::push`: it appends exactly the given character to the
/// end of the string.
#[verifier::external_body]
fn push_char(s: &mut String, c: char)
    ensures
        final(s)@ == old(s)@.push(c),
{
    s.push(c);
}

/// True of a random name segment: `len` characters, each from the name
/// alphabet.
pub open spec fn is_rand_segment(s: Seq<char>, len: nat) -> bool {
    s.len() == len && forall|i: int| 0 <= i < s.len() ==> is_alnum(#[trigger] s[i])
}

/// True of every name the generator can hand out for the given prefix,
/// suffix and random-segment length: the prefix, then `rand_len` characters
/// of the name alphabet, then the suffix.
pub open spec fn is_generated_name(
    n: Seq<char>,
    prefix: Seq<char>,
    suffix: Seq<char>,
    rand_len: nat,
) -> bool {
    &&& n.len() == prefix.len() + rand_len + suffix.len()
    &&& n.subrange(0, prefix.len() as int) == prefix
    &&& is_rand_segment(n.subrange(prefix.len() as int, (prefix.len() + rand_len) as int), rand_len)
    &&& n.subrange((prefix.len() + rand_len) as int, n.len() as int) == suffix
}

/// Generate one candidate filename: the prefix, a segment of `rand_len`
/// characters drawn from the 62-symbol alphabet of digits and letters, and
/// the suffix. Purely local: no filesystem is touched.
pub fn tmpname(prefix: &str, suffix: &str, rand_len: usize) -> (r: String)
    ensures
        is_generated_name(r@, prefix@, suffix@, rand_len as nat),
{
    let mut buf: String = prefix.to_owned();
    let bytes = random_bytes(rand_len);
    let mut i: usize = 0;
    while i < rand_len
        invariant
            bytes@.len() == rand_len,
            0 <= i <= rand_len,
            buf@.len() == prefix@.len() + i,
            buf@.subrange(0, prefix@.len() as int) == prefix@,
            forall|j: int|
                prefix@.len() <= j < buf@.len() ==> is_alnum(#[trigger] buf@[j]),
        decreases rand_len - i,
    {
        let c = alnum_byte(bytes[i]);
        push_char(&mut buf, c);
        i += 1;
    }
    vstd::string::StringExecFns::append(&mut buf, suffix);
    proof {
        assert(buf@.subrange(0, prefix@.len() as int) =~= prefix@);
        assert(buf@.subrange((prefix@.len() + rand_len) as int, buf@.len() as int) =~= suffix@);
        assert(is_rand_segment(
            buf@.subrange(prefix@.len() as int, (prefix@.len() + rand_len) as int),
            rand_len as nat,
        ));
    }
    buf
}

/// The full path of a directory entry: the directory, a separator, the name.
pub open spec fn join_path(dir: Seq<char>, name: Seq<char>) -> Seq<char> {
    dir + seq!['/'] + name
}

/// Join a directory and a filename with a path separator.
pub fn join(dir: &str, name: &str) -> (r: String)
    ensures
        r@ == join_path(dir@, name@),
{
    let mut buf: String = dir.to_owned();
    vstd::string::StringExecFns::append(&mut buf, "/");
    vstd::string::StringExecFns::append(&mut buf, name);
    proof {
        reveal_strlit("/");
        assert(buf@ =~= join_path(dir@, name@));
    }
    buf
}

/// True of every path the retry protocol may hand to its creation callback:
/// a generated name for the given prefix, suffix and random-segment length,
/// joined under the given directory.
pub open spec fn is_candidate_path(
    p: Seq<char>,
    dir: Seq<char>,
    prefix: Seq<char>,
    suffix: Seq<char>,
    rand_len: nat,
) -> bool {
    exists|n: Seq<char>|
        #[trigger] is_generated_name(n, prefix, suffix, rand_len) && p == join_path(dir, n)
}

/// How many creation attempts the retry protocol makes before giving up.
/// Collisions are astronomically rare at the default random-segment length,
/// so exhausting the bound signals a misconfigured zero-length segment or a
/// misbehaving filesystem, not transient load.
pub const NUM_RETRIES: u32 = 65536;

/// The create-with-retry protocol. Generate a fresh candidate path under
/// `dir` and hand it to `f`, the caller's exclusive-creation operation;
/// return its outcome, except that an already-exists failure — a name
/// collision — is retried with a new name, up to [`NUM_RETRIES`] attempts.
/// When the bound is exhausted every attempt has failed with already-exists,
/// and that error is returned rather than looping on.
///
/// Whatever comes back is an outcome that `f` admits on some candidate path:
/// a success, an error `f` reported that is not retryable, or the
/// already-exists error that each of the exhausted attempts reported.
pub fn create_helper<R, F: Fn(String) -> Result<R, ErrorKind>>(
    dir: &str,
    prefix: &str,
    suffix: &str,
    rand_len: usize,
    f: F,
) -> (r: Result<R, ErrorKind>)
    requires
        forall|p: String|
            is_candidate_path(p@, dir@, prefix@, suffix@, rand_len as nat)
                ==> #[trigger] call_requires(f, (p,)),
    ensures
        exists|p: String|
            is_candidate_path(p@, dir@, prefix@, suffix@, rand_len as nat)
                && #[trigger] call_ensures(f, (p,), r),
{
    let mut attempts: u32 = 0;
    while attempts < NUM_RETRIES
        invariant
            forall|p: String|
                is_candidate_path(p@, dir@, prefix@, suffix@, rand_len as nat)
                    ==> #[trigger] call_requires(f, (p,)),
            attempts > 0 ==> exists|p: String|
                is_candidate_path(p@, dir@, prefix@, suffix@, rand_len as nat)
                    && #[trigger] call_ensures(
                    f,
                    (p,),
                    Result::<R, ErrorKind>::Err(
                        ErrorKind::AlreadyExists,
                    ),
                ),
        decreases NUM_RETRIES - attempts,
    {
        let name = tmpname(prefix, suffix, rand_len);
        let path = join(dir, &name);
        proof {
            assert(is_generated_name(name@, prefix@, suffix@, rand_len as nat)
                && path@ == join_path(dir@, name@));
        }
        let res = f(path);
        match res {
            Err(e) => {
                if e == ErrorKind::AlreadyExists {
                    attempts += 1;
                } else {
                    return Err(e);
                }
            },
            Ok(v) => {
                return Ok(v);
            },
        }
    }
    Err(ErrorKind::AlreadyExists)
}

/// Exhausting the retry bound yields the already-exists error rather than
/// non-termination: the protocol's result is always an outcome its creation
/// operation admits on some candidate path, so when every outcome the
/// operation admits is an already-exists failure — a filesystem on which
/// every name is taken — the overall result is exactly that failure.
/// Termination itself is checked on the loop, whose attempts are bounded by
/// [`NUM_RETRIES`].
pub proof fn lemma_retry_exhaustion_reports_already_exists<
    R,
    F: Fn(String) -> Result<R, ErrorKind>,
>(
    f: F,
    dir: Seq<char>,
    prefix: Seq<char>,
    suffix: Seq<char>,
    rand_len: nat,
    r: Result<R, ErrorKind>,
)
    requires
        exists|p: String|
            is_candidate_path(p@, dir, prefix, suffix, rand_len) && #[trigger] call_ensures(
                f,
                (p,),
                r,
            ),
        forall|p: String, out: Result<R, ErrorKind>|
            #[trigger] call_ensures(f, (p,), out) ==> out == Result::<
                R,
                ErrorKind,
            >::Err(ErrorKind::AlreadyExists),
    ensures
        r == Result::<R, ErrorKind>::Err(ErrorKind::AlreadyExists),
{
}

} // verus!
