use vstd::prelude::*;
use vstd::string::{StrSliceExecFns, StringExecFns};

use crate::clock::utc_year_month_now;
use crate::digest::hex_digit;
use crate::error::AppError;

verus! {

/// Decimal digits of `n`, most significant first, without leading zeros.
pub open spec fn decimal(n: nat) -> Seq<char>
    decreases n,
{
    if n < 10 {
        seq![hex_digit(n as int)]
    } else {
        decimal(n / 10).push(hex_digit((n % 10) as int))
    }
}

/// `n` in decimal, with leading zeros up to `width` characters.
pub open spec fn zero_padded(n: nat, width: nat) -> Seq<char> {
    let d = decimal(n);
    if d.len() < width {
        Seq::new((width - d.len()) as nat, |i: int| '0') + d
    } else {
        d
    }
}

/// A year as it names a directory: four digits at least, a minus sign
/// counting as one of them.
pub open spec fn year_dir_of(year: int) -> Seq<char> {
    if year >= 0 {
        zero_padded(year as nat, 4)
    } else {
        seq!['-'] + zero_padded((-year) as nat, 3)
    }
}

/// A month as it names a directory: two digits at least.
pub open spec fn month_dir_of(month: nat) -> Seq<char> {
    zero_padded(month, 2)
}

/// The file name of a stored object: its digest in hex and `.webp`.
pub open spec fn object_file_of(sha_hex: Seq<char>) -> Seq<char> {
    sha_hex + ".webp"@
}

/// The path of a stored object below the storage root:
/// `/{year}/{month}/{digest}.webp`.
pub open spec fn object_path_of(year: int, month: nat, sha_hex: Seq<char>) -> Seq<char> {
    "/"@ + year_dir_of(year) + "/"@ + month_dir_of(month) + "/"@ + object_file_of(sha_hex)
}

fn digit_text(d: u64) -> (r: &'static str)
    requires
        d < 10,
    ensures
        r@ == seq![hex_digit(d as int)],
{
    proof {
        reveal_strlit("0");
        reveal_strlit("1");
        reveal_strlit("2");
        reveal_strlit("3");
        reveal_strlit("4");
        reveal_strlit("5");
        reveal_strlit("6");
        reveal_strlit("7");
        reveal_strlit("8");
        reveal_strlit("9");
    }
    let r = if d == 0 {
        "0"
    } else if d == 1 {
        "1"
    } else if d == 2 {
        "2"
    } else if d == 3 {
        "3"
    } else if d == 4 {
        "4"
    } else if d == 5 {
        "5"
    } else if d == 6 {
        "6"
    } else if d == 7 {
        "7"
    } else if d == 8 {
        "8"
    } else {
        "9"
    };
    assert(r@ =~= seq![hex_digit(d as int)]);
    r
}

fn decimal_len(n: u64) -> (r: u64)
    ensures
        r == decimal(n as nat).len(),
    decreases n,
{
    if n < 10 {
        1
    } else {
        let k = decimal_len(n / 10);
        proof {
            lemma_decimal_len_bound((n / 10) as nat);
        }
        k + 1
    }
}

proof fn lemma_decimal_len_bound(n: nat)
    ensures
        decimal(n).len() <= n + 1,
    decreases n,
{
    if n >= 10 {
        lemma_decimal_len_bound(n / 10);
    }
}

fn append_decimal(s: &mut String, n: u64)
    ensures
        final(s)@ == old(s)@ + decimal(n as nat),
    decreases n,
{
    if n >= 10 {
        append_decimal(s, n / 10);
    }
    s.append(digit_text(n % 10));
}

fn append_padded(s: &mut String, n: u64, width: usize)
    ensures
        final(s)@ == old(s)@ + zero_padded(n as nat, width as nat),
{
    let len = decimal_len(n);
    let w = width as u64;
    let ghost start = s@;
    if len < w {
        let mut i: u64 = 0;
        while i < w - len
            invariant
                len < w,
                w == width,
                len == decimal(n as nat).len(),
                i <= w - len,
                s@ == start + Seq::new(i as nat, |j: int| '0'),
            decreases w - len - i,
        {
            s.append("0");
            proof {
                reveal_strlit("0");
            }
            i = i + 1;
            assert(s@ =~= start + Seq::new(i as nat, |j: int| '0'));
        }
    }
    append_decimal(s, n);
    assert(s@ =~= start + zero_padded(n as nat, width as nat));
}

/// The directory name of a year.
pub fn year_dir(year: i32) -> (r: String)
    ensures
        r@ == year_dir_of(year as int),
{
    let mut s = String::new();
    if year >= 0 {
        append_padded(&mut s, year as u64, 4);
    } else {
        s.append("-");
        proof {
            reveal_strlit("-");
        }
        let m = -(year as i64);
        append_padded(&mut s, m as u64, 3);
        assert(s@ =~= year_dir_of(year as int));
    }
    s
}

/// The directory name of a month.
pub fn month_dir(month: u32) -> (r: String)
    ensures
        r@ == month_dir_of(month as nat),
{
    let mut s = String::new();
    append_padded(&mut s, month as u64, 2);
    s
}

/// The file name of the object with digest `sha_hex`.
pub fn object_file(sha_hex: &str) -> (r: String)
    ensures
        r@ == object_file_of(sha_hex@),
{
    let mut s = String::from_str(sha_hex);
    s.append(".webp");
    s
}

/// Where an object is stored below the storage root.
pub struct ObjectLocation {
    pub year_dir: String,
    pub month_dir: String,
    pub file_name: String,
    pub relative_path: String,
}

/// The location of the object with digest `sha_hex` committed in `year`
/// and `month`: the path is `/{year}/{month}/{digest}.webp`.
pub fn locate(year: i32, month: u32, sha_hex: &str) -> (r: ObjectLocation)
    ensures
        r.year_dir@ == year_dir_of(year as int),
        r.month_dir@ == month_dir_of(month as nat),
        r.file_name@ == object_file_of(sha_hex@),
        r.relative_path@ == object_path_of(year as int, month as nat, sha_hex@),
{
    let y = year_dir(year);
    let m = month_dir(month);
    let f = object_file(sha_hex);
    let mut p = String::from_str("/");
    p.append(y.as_str());
    p.append("/");
    p.append(m.as_str());
    p.append("/");
    p.append(f.as_str());
    ObjectLocation { year_dir: y, month_dir: m, file_name: f, relative_path: p }
}

/// The location of the object with digest `sha_hex` committed now, by the
/// current UTC year and month.
pub fn locate_now(sha_hex: &str) -> (r: ObjectLocation)
    ensures
        exists|year: i32, month: u32|
            1 <= month <= 12 && r.relative_path@ == object_path_of(
                year as int,
                month as nat,
                sha_hex@,
            ) && r.year_dir@ == year_dir_of(year as int) && r.month_dir@ == month_dir_of(
                month as nat,
            ),
        r.file_name@ == object_file_of(sha_hex@),
{
    let (year, month) = utc_year_month_now();
    locate(year, month, sha_hex)
}

/// What a look at the destination path found.
#[derive(Clone, Copy, Debug, PartialEq, Eq, Structural)]
pub enum Probe {
    Present,
    Absent,
    Failed,
}

/// How the move of the staged file onto the destination went.
#[derive(Clone, Copy, Debug, PartialEq, Eq, Structural)]
pub enum MoveResult {
    Moved,
    DestinationExists,
    Failed,
}

/// What to do after looking at the destination.
#[derive(Clone, Copy, Debug, PartialEq, Eq, Structural)]
pub enum CommitStep {
    /// Move the staged file onto the destination.
    MoveIntoPlace,
    /// The object is already stored: the staged file is removed and the
    /// upload succeeds.
    AlreadyStored,
    /// The commit failed: the staged file is removed.
    Abort(AppError),
}

/// How a successful commit left the store.
#[derive(Clone, Copy, Debug, PartialEq, Eq, Structural)]
pub enum Disposition {
    /// The staged file became the stored object.
    Stored,
    /// The object was already there; the staged copy is discarded.
    Deduplicated,
}

/// The commit rule: an object already present is a successful dedup; an
/// absent one is moved into place; a failed look is an internal error.
pub open spec fn probe_step(p: Probe) -> CommitStep {
    match p {
        Probe::Present => CommitStep::AlreadyStored,
        Probe::Absent => CommitStep::MoveIntoPlace,
        Probe::Failed => CommitStep::Abort(AppError::Internal),
    }
}

/// The outcome of the move: a move that lost the race to a concurrent
/// commit of the same object is a dedup like any other; other failures are
/// internal errors.
pub open spec fn move_outcome(m: MoveResult) -> Result<Disposition, AppError> {
    match m {
        MoveResult::Moved => Ok(Disposition::Stored),
        MoveResult::DestinationExists => Ok(Disposition::Deduplicated),
        MoveResult::Failed => Err(AppError::Internal),
    }
}

/// Decides the next commit step from a look at the destination.
pub fn after_probe(p: Probe) -> (r: CommitStep)
    ensures
        r == probe_step(p),
{
    match p {
        Probe::Present => CommitStep::AlreadyStored,
        Probe::Absent => CommitStep::MoveIntoPlace,
        Probe::Failed => CommitStep::Abort(AppError::Internal),
    }
}

/// Decides the commit's outcome from the move of the staged file. Unless
/// the result is `Stored`, the staged file is still there and is removed.
pub fn after_move(m: MoveResult) -> (r: Result<Disposition, AppError>)
    ensures
        r == move_outcome(m),
{
    match m {
        MoveResult::Moved => Ok(Disposition::Stored),
        MoveResult::DestinationExists => Ok(Disposition::Deduplicated),
        MoveResult::Failed => Err(AppError::Internal),
    }
}

/// `s` without its trailing `/` characters.
pub open spec fn trim_trailing_slashes(s: Seq<char>) -> Seq<char>
    decreases s.len(),
{
    if s.len() > 0 && s.last() == '/' {
        trim_trailing_slashes(s.drop_last())
    } else {
        s
    }
}

/// The public URL of a stored object: the base URL without its trailing
/// slashes, then the object's path.
pub fn public_url(public_base_url: &str, relative_path: &str) -> (r: String)
    ensures
        r@ == trim_trailing_slashes(public_base_url@) + relative_path@,
{
    let mut end = public_base_url.unicode_len();
    assert(public_base_url@.take(end as int) =~= public_base_url@);
    while end > 0 && public_base_url.get_char(end - 1) == '/'
        invariant
            end <= public_base_url@.len(),
            trim_trailing_slashes(public_base_url@.take(end as int)) == trim_trailing_slashes(
                public_base_url@,
            ),
        decreases end,
    {
        assert(public_base_url@.take(end as int).drop_last() =~= public_base_url@.take(
            end as int - 1,
        ));
        end = end - 1;
    }
    let base = public_base_url.substring_char(0, end);
    assert(trim_trailing_slashes(public_base_url@.take(end as int)) == base@);
    let mut s = String::from_str(base);
    s.append(relative_path);
    s
}

/// The answer to a successful upload.
pub struct UploadResponse {
    pub url: String,
    pub path: String,
    pub sha256: String,
    pub size: u64,
}

impl UploadResponse {
    /// The answer for the object at `path` with digest `sha256` and `size`
    /// bytes, published under `public_base_url`.
    pub fn new(public_base_url: &str, path: String, sha256: String, size: u64) -> (r:
        UploadResponse)
        ensures
            r.url@ == trim_trailing_slashes(public_base_url@) + path@,
            r.path@ == path@,
            r.sha256@ == sha256@,
            r.size == size,
    {
        let url = public_url(public_base_url, path.as_str());
        UploadResponse { url, path, sha256, size }
    }
}

} // verus!
