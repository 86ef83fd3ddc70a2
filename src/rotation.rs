//! One rotation: choosing an image among the directory's entries, and what
//! came of the attempt.
use vstd::prelude::*;

verus! {

/// Why a rotation, or a reconfiguration's persistence, failed.
#[derive(Debug, Clone, Copy, PartialEq, Eq, Structural)]
pub enum RotationError {
    /// The image directory could not be listed.
    DirectoryUnreadable,
    /// The directory holds no eligible image.
    NoCandidates,
    /// The desktop refused the image, or it vanished before use.
    ApplyFailure,
    /// The configuration store could not save a new interval.
    PersistenceFailure,
}

/// The result of one rotation attempt, reported and never acted on.
#[derive(Debug, Clone, PartialEq, Eq)]
pub enum RotationOutcome {
    /// The image at this path was applied.
    Applied(String),
    /// The attempt failed.
    Failed(RotationError),
}

} // verus!

verus! {

/// A direct entry of the image directory, as listed.
#[derive(Debug, Clone, PartialEq, Eq)]
pub struct DirEntryInfo {
    /// The entry's file name.
    pub name: String,
    /// Whether the entry is a regular file.
    pub is_file: bool,
}

/// The character code of `c` with an ASCII capital letter made small.
pub open spec fn ascii_lower_code(c: char) -> u32 {
    if 65 <= c as u32 && c as u32 <= 90 {
        (c as u32 + 32) as u32
    } else {
        c as u32
    }
}

/// `a` and `b` are equal up to the case of ASCII letters.
pub open spec fn eq_ignore_ascii_case(a: Seq<char>, b: Seq<char>) -> bool {
    &&& a.len() == b.len()
    &&& forall|j: int| 0 <= j < a.len() ==> ascii_lower_code(a[j]) == ascii_lower_code(b[j])
}

/// The file name `name` has the extension `ext` (which holds no dot), up to
/// ASCII case: it ends with a dot and `ext`, and something stands before
/// that dot (a name that starts with its only dot has no extension).
pub open spec fn has_extension(name: Seq<char>, ext: Seq<char>) -> bool {
    &&& name.len() > ext.len() + 1
    &&& name[name.len() - ext.len() - 1] == '.'
    &&& eq_ignore_ascii_case(name.subrange(name.len() - ext.len(), name.len() as int), ext)
}

/// An image is a file whose extension is jpg or png, in any ASCII case.
pub open spec fn is_image_name(name: Seq<char>) -> bool {
    has_extension(name, "jpg"@) || has_extension(name, "png"@)
}

/// An entry is a candidate for rotation: a regular file with an image name.
pub open spec fn is_candidate(e: DirEntryInfo) -> bool {
    e.is_file && is_image_name(e.name@)
}

/// The names of the candidates among `entries`, in listing order.
pub open spec fn candidates(entries: Seq<DirEntryInfo>) -> Seq<Seq<char>>
    decreases entries.len(),
{
    if entries.len() == 0 {
        seq![]
    } else {
        let prev = candidates(entries.drop_last());
        if is_candidate(entries.last()) {
            prev.push(entries.last().name@)
        } else {
            prev
        }
    }
}

fn lower_code(c: char) -> (r: u32)
    ensures
        r == ascii_lower_code(c),
{
    let u = c as u32;
    if 65 <= u && u <= 90 {
        u + 32
    } else {
        u
    }
}

/// Whether the file name `name` has the extension `ext`, up to ASCII case.
pub fn name_has_extension(name: &str, ext: &str) -> (r: bool)
    ensures
        r == has_extension(name@, ext@),
{
    let n = name.unicode_len();
    let m = ext.unicode_len();
    if n <= m || n - m <= 1 {
        return false;
    }
    if name.get_char(n - m - 1) != '.' {
        return false;
    }
    let ghost tail = name@.subrange(n - m, n as int);
    let mut i: usize = 0;
    while i < m
        invariant
            n == name@.len(),
            m == ext@.len(),
            n > m + 1,
            tail == name@.subrange(n - m, n as int),
            0 <= i <= m,
            forall|j: int| 0 <= j < i ==> ascii_lower_code(tail[j]) == ascii_lower_code(ext@[j]),
        decreases m - i,
    {
        if lower_code(name.get_char(n - m + i)) != lower_code(ext.get_char(i)) {
            assert(tail[i as int] == name@[n - m + i]);
            return false;
        }
        i = i + 1;
    }
    true
}

/// Whether `name` is the name of an image: its extension is jpg or png.
pub fn is_image_file_name(name: &str) -> (r: bool)
    ensures
        r == is_image_name(name@),
{
    name_has_extension(name, "jpg") || name_has_extension(name, "png")
}

/// The names of the candidates among `entries`, in listing order.
pub fn image_candidates(entries: &Vec<DirEntryInfo>) -> (r: Vec<String>)
    ensures
        r@.len() == candidates(entries@).len(),
        forall|k: int| 0 <= k < r@.len() ==> r@[k]@ == candidates(entries@)[k],
{
    let mut r: Vec<String> = Vec::new();
    let mut i: usize = 0;
    while i < entries.len()
        invariant
            0 <= i <= entries@.len(),
            r@.len() == candidates(entries@.subrange(0, i as int)).len(),
            forall|k: int|
                0 <= k < r@.len() ==> r@[k]@ == candidates(entries@.subrange(0, i as int))[k],
        decreases entries@.len() - i,
    {
        let e = &entries[i];
        let ghost before = entries@.subrange(0, i as int);
        let ghost after = entries@.subrange(0, i + 1);
        assert(after.drop_last() =~= before);
        assert(after.last() == entries@[i as int]);
        if e.is_file && is_image_file_name(e.name.as_str()) {
            r.push(e.name.clone());
        }
        i = i + 1;
    }
    assert(entries@.subrange(0, entries@.len() as int) =~= entries@);
    r
}

/// Relies on rand's `SliceRandom::choose`, with the thread-local generator:
/// `None` for an empty slice, else one of its elements.
#[verifier::external_body]
fn choose_random(items: &Vec<String>) -> (r: Option<String>)
    ensures
        items@.len() == 0 <==> r is None,
        r matches Some(s) ==> exists|i: int| 0 <= i < items@.len() && items@[i]@ == s@,
{
    rand::seq::SliceRandom::choose(items.as_slice(), &mut rand::thread_rng()).cloned()
}

/// Chooses at random the name of one candidate among `entries`; fails with
/// `NoCandidates` exactly when there is none.
pub fn select_image(entries: &Vec<DirEntryInfo>) -> (r: Result<String, RotationError>)
    ensures
        candidates(entries@).len() == 0 <==> r == Err::<String, RotationError>(
            RotationError::NoCandidates,
        ),
        r is Ok || r == Err::<String, RotationError>(RotationError::NoCandidates),
        r matches Ok(s) ==> candidates(entries@).contains(s@),
{
    let names = image_candidates(entries);
    match choose_random(&names) {
        Some(s) => {
            let ghost i = choose|i: int| 0 <= i < names@.len() && names@[i]@ == s@;
            assert(candidates(entries@)[i] == s@);
            Ok(s)
        },
        None => Err(RotationError::NoCandidates),
    }
}

/// The selection step of a rotation, given the directory's listing, or
/// `None` where the directory could not be read.
pub fn select_for_rotation(listing: &Option<Vec<DirEntryInfo>>) -> (r: Result<String, RotationError>)
    ensures
        listing is None ==> r == Err::<String, RotationError>(RotationError::DirectoryUnreadable),
        listing matches Some(entries) ==> {
            &&& candidates(entries@).len() == 0 <==> r == Err::<String, RotationError>(
                RotationError::NoCandidates,
            )
            &&& r is Ok || r == Err::<String, RotationError>(RotationError::NoCandidates)
            &&& r matches Ok(s) ==> candidates(entries@).contains(s@)
        },
{
    match listing {
        Some(entries) => select_image(entries),
        None => Err(RotationError::DirectoryUnreadable),
    }
}

} // verus!
