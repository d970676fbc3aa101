use vstd::prelude::*;
use vstd::string::StringExecFns;
use vstd::string::StringSliceAdditionalSpecFns;

verus! {

/// The ASCII code of `-`.
pub const MINUS: u8 = 45;

/// The ASCII code of `+`.
pub const PLUS: u8 = 43;

/// The ASCII code of `0`.
pub const ZERO: u8 = 48;

/// The ASCII code of `9`.
pub const NINE: u8 = 57;

/// Whether a byte is an ASCII decimal digit.
pub open spec fn is_digit(b: u8) -> bool {
    ZERO <= b <= NINE
}

/// Whether every byte of `s` is an ASCII decimal digit.
pub open spec fn all_digits(s: Seq<u8>) -> bool {
    forall|i: int| 0 <= i < s.len() ==> is_digit(#[trigger] s[i])
}

/// The number that a run of decimal digits denotes, most significant first.
pub open spec fn digits_value(s: Seq<u8>) -> int
    decreases s.len(),
{
    if s.len() == 0 {
        0
    } else {
        digits_value(s.drop_last()) * 10 + (s.last() - ZERO)
    }
}

/// The integer that a text denotes: an optional `+` or `-` followed by at
/// least one decimal digit, and nothing else.
pub open spec fn signed_value(s: Seq<u8>) -> Option<int> {
    if s.len() > 0 && (s[0] == MINUS || s[0] == PLUS) {
        let d = s.drop_first();
        if d.len() > 0 && all_digits(d) {
            Some(if s[0] == MINUS { -digits_value(d) } else { digits_value(d) })
        } else {
            None
        }
    } else if s.len() > 0 && all_digits(s) {
        Some(digits_value(s))
    } else {
        None
    }
}

/// The 32-bit integer that a text denotes, if it denotes one in range.
pub open spec fn i32_text_value(s: Seq<u8>) -> Option<int> {
    match signed_value(s) {
        Some(v) => if i32::MIN <= v <= i32::MAX {
            Some(v)
        } else {
            None
        },
        None => None,
    }
}

/// An optional machine integer seen as a mathematical one.
pub open spec fn int_of(r: Option<i32>) -> Option<int> {
    match r {
        Some(n) => Some(n as int),
        None => None,
    }
}

proof fn lemma_digits_nonneg(s: Seq<u8>)
    requires
        all_digits(s),
    ensures
        digits_value(s) >= 0,
    decreases s.len(),
{
    if s.len() > 0 {
        lemma_digits_nonneg(s.drop_last());
    }
}

proof fn lemma_prefix_at_most(s: Seq<u8>, k: int)
    requires
        all_digits(s),
        0 <= k <= s.len(),
    ensures
        digits_value(s.subrange(0, k)) <= digits_value(s),
    decreases s.len(),
{
    if k == s.len() {
        assert(s.subrange(0, k) =~= s);
    } else {
        let t = s.drop_last();
        assert(t.subrange(0, k) =~= s.subrange(0, k));
        lemma_prefix_at_most(t, k);
        lemma_digits_nonneg(t);
    }
}

/// Reads a text as a 32-bit integer: an optional sign and decimal digits.
pub fn parse_i32(s: &[u8]) -> (r: Option<i32>)
    ensures
        int_of(r) == i32_text_value(s@),
{
    let len = s.len();
    if len == 0 {
        return None;
    }
    let neg = s[0] == MINUS;
    let st: usize = if s[0] == MINUS || s[0] == PLUS { 1 } else { 0 };
    if st == len {
        assert(s@.drop_first().len() == 0);
        return None;
    }
    let ghost d = s@.subrange(st as int, len as int);
    assert(st == 1 ==> d =~= s@.drop_first());
    assert(st == 0 ==> d =~= s@);
    let mut acc: u64 = 0;
    let mut i: usize = st;
    while i < len
        invariant
            st <= 1,
            st <= i <= len,
            len == s@.len(),
            d == s@.subrange(st as int, len as int),
            st == 1 ==> d == s@.drop_first(),
            st == 0 ==> d == s@,
            (st == 1) == (s@[0] == MINUS || s@[0] == PLUS),
            neg == (s@[0] == MINUS),
            acc <= 2147483648,
            all_digits(d.subrange(0, i - st)),
            acc == digits_value(d.subrange(0, i - st)),
        decreases len - i,
    {
        let b = s[i];
        if b < ZERO || b > NINE {
            assert(!is_digit(d[i - st]));
            assert(!all_digits(d));
            return None;
        }
        let ghost k = i - st;
        assert(d.subrange(0, k + 1).drop_last() =~= d.subrange(0, k));
        assert(all_digits(d.subrange(0, k + 1))) by {
            assert forall|j: int| 0 <= j < k + 1 implies is_digit(#[trigger] d.subrange(0, k + 1)[j]) by {
                if j < k {
                    assert(d.subrange(0, k + 1)[j] == d.subrange(0, k)[j]);
                }
            }
        }
        assert(d.subrange(0, k + 1).last() == b);
        acc = acc * 10 + (b - ZERO) as u64;
        assert(acc == digits_value(d.subrange(0, k + 1)));
        i = i + 1;
        if acc > 2147483648 {
            proof {
                if all_digits(d) {
                    lemma_prefix_at_most(d, k + 1);
                    assert(digits_value(d) > 2147483648);
                    if st == 1 {
                        assert(signed_value(s@) == Some(
                            if s@[0] == MINUS { -digits_value(d) } else { digits_value(d) },
                        ));
                    } else {
                        assert(signed_value(s@) == Some(digits_value(d)));
                    }
                } else {
                    assert(signed_value(s@) is None);
                }
            }
            return None;
        }
    }
    assert(d.subrange(0, len - st) =~= d);
    if neg {
        Some((0i64 - acc as i64) as i32)
    } else if acc > 2147483647 {
        None
    } else {
        Some(acc as i32)
    }
}

/// Why the target process identifier could not be obtained.
#[derive(Clone, Copy, Debug, PartialEq, Eq, Structural)]
pub enum ResolveError {
    /// The identifier given on the command line is not an integer.
    PidArgMalformed,
    /// The sentinel file does not exist.
    PidFileMissing,
    /// The sentinel file does not hold a non-negative decimal integer.
    PidFileMalformed,
}

/// Where the identifier of the process to signal comes from.
pub enum PidSource {
    /// A fixed, non-negative identifier.
    Explicit(i32),
    /// A sentinel file whose whole contents are the identifier.
    FromFile(String),
}

/// The sentinel file read when none is named.
pub open spec fn default_pid_file() -> Seq<char> {
    "/tmp/flutter.pid"@
}

/// The source that the command-line values select: a non-negative identifier
/// is used as it is; a negative one, or none, sends the resolver to the
/// sentinel file (the named one, else the default).
pub open spec fn source_of_args(
    pid: Option<Seq<u8>>,
    pid_file: Option<Seq<char>>,
) -> Result<PidSourceView, ResolveError> {
    let file = match pid_file {
        Some(p) => p,
        None => default_pid_file(),
    };
    match pid {
        None => Ok(PidSourceView::FromFile(file)),
        Some(t) => match i32_text_value(t) {
            None => Err(ResolveError::PidArgMalformed),
            Some(n) => if n >= 0 {
                Ok(PidSourceView::Explicit(n))
            } else {
                Ok(PidSourceView::FromFile(file))
            },
        },
    }
}

/// A source of identifiers, with the file path as characters.
pub ghost enum PidSourceView {
    Explicit(int),
    FromFile(Seq<char>),
}

impl View for PidSource {
    type V = PidSourceView;

    open spec fn view(&self) -> PidSourceView {
        match self {
            PidSource::Explicit(n) => PidSourceView::Explicit(*n as int),
            PidSource::FromFile(p) => PidSourceView::FromFile(p@),
        }
    }
}

/// The identifier read from a sentinel file's contents: the whole text must
/// be a non-negative decimal integer that fits in 32 bits.
pub open spec fn pid_of_contents(text: Seq<u8>) -> Result<int, ResolveError> {
    match i32_text_value(text) {
        Some(n) => if n >= 0 {
            Ok(n)
        } else {
            Err(ResolveError::PidFileMalformed)
        },
        None => Err(ResolveError::PidFileMalformed),
    }
}

/// What resolving a source gives: `contents` is the sentinel file's text, or
/// `None` where the file does not exist. An explicit identifier needs no file.
pub open spec fn resolution(source: PidSourceView, contents: Option<Seq<u8>>) -> Result<
    int,
    ResolveError,
> {
    match source {
        PidSourceView::Explicit(n) => Ok(n),
        PidSourceView::FromFile(_) => match contents {
            None => Err(ResolveError::PidFileMissing),
            Some(t) => pid_of_contents(t),
        },
    }
}

/// A resolved identifier seen as a mathematical one.
pub open spec fn result_int(r: Result<i32, ResolveError>) -> Result<int, ResolveError> {
    match r {
        Ok(n) => Ok(n as int),
        Err(e) => Err(e),
    }
}

impl PidSource {
    /// Whether the source is well formed: an explicit identifier is never negative.
    pub open spec fn wf(&self) -> bool {
        match self {
            PidSource::Explicit(n) => *n >= 0,
            PidSource::FromFile(_) => true,
        }
    }

    /// Picks the source from the command-line values: the identifier text,
    /// if given, and the sentinel file's path, if given.
    pub fn from_args(pid: Option<&str>, pid_file: Option<&str>) -> (r: Result<PidSource, ResolveError>)
        ensures
            match r {
                Ok(src) => src.wf() && Ok::<PidSourceView, ResolveError>(src@) == source_of_args(
                    match pid {
                        None => None,
                        Some(t) => Some(t.spec_bytes()),
                    },
                    match pid_file {
                        None => None,
                        Some(p) => Some(p@),
                    },
                ),
                Err(e) => Err::<PidSourceView, ResolveError>(e) == source_of_args(
                    match pid {
                        None => None,
                        Some(t) => Some(t.spec_bytes()),
                    },
                    match pid_file {
                        None => None,
                        Some(p) => Some(p@),
                    },
                ),
            },
    {
        let explicit = match pid {
            None => None,
            Some(t) => match parse_i32(t.as_bytes()) {
                None => {
                    return Err(ResolveError::PidArgMalformed);
                },
                Some(n) => if n >= 0 {
                    Some(n)
                } else {
                    None
                },
            },
        };
        match explicit {
            Some(n) => Ok(PidSource::Explicit(n)),
            None => {
                let path = match pid_file {
                    Some(p) => String::from_str(p),
                    None => String::from_str("/tmp/flutter.pid"),
                };
                Ok(PidSource::FromFile(path))
            },
        }
    }

    /// The sentinel file that resolving this source reads; none for an
    /// explicit identifier, which is resolved without any I/O.
    pub fn file_path(&self) -> (r: Option<&String>)
        ensures
            match self@ {
                PidSourceView::Explicit(_) => r is None,
                PidSourceView::FromFile(p) => r is Some && r->0@ == p,
            },
    {
        match self {
            PidSource::Explicit(_) => None,
            PidSource::FromFile(p) => Some(p),
        }
    }
}

/// Reads the identifier from a sentinel file's contents.
pub fn pid_from_contents(text: &str) -> (r: Result<i32, ResolveError>)
    ensures
        result_int(r) == pid_of_contents(text.spec_bytes()),
{
    match parse_i32(text.as_bytes()) {
        Some(n) => if n >= 0 {
            Ok(n)
        } else {
            Err(ResolveError::PidFileMalformed)
        },
        None => Err(ResolveError::PidFileMalformed),
    }
}

/// Resolves the identifier of the process to signal. `contents` is what the
/// sentinel file holds, or `None` where it does not exist; it is not looked at
/// for an explicit identifier. A resolved identifier is never negative.
pub fn resolve(source: &PidSource, contents: Option<&str>) -> (r: Result<i32, ResolveError>)
    requires
        source.wf(),
    ensures
        result_int(r) == resolution(
            source@,
            match contents {
                None => None,
                Some(t) => Some(t.spec_bytes()),
            },
        ),
        r matches Ok(n) ==> n >= 0,
{
    match source {
        PidSource::Explicit(n) => Ok(*n),
        PidSource::FromFile(_) => match contents {
            None => Err(ResolveError::PidFileMissing),
            Some(t) => pid_from_contents(t),
        },
    }
}

/// An explicit identifier resolves to itself whatever any file holds, and
/// its source names no file to read.
pub proof fn lemma_explicit_resolves_to_itself(n: int, contents: Option<Seq<u8>>)
    requires
        n >= 0,
    ensures
        resolution(PidSourceView::Explicit(n), contents) == Ok::<int, ResolveError>(n),
{
}

/// A sentinel file that does not exist is reported as missing.
pub proof fn lemma_missing_file_is_fatal(path: Seq<char>)
    ensures
        resolution(PidSourceView::FromFile(path), None) == Err::<int, ResolveError>(
            ResolveError::PidFileMissing,
        ),
{
}

} // verus!
