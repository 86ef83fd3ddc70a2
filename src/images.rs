//! The image library as shown to the user: each regular file of the image
//! directory with the address at which the local image server serves it.
use vstd::prelude::*;
use crate::rotation::DirEntryInfo;

verus! {

/// A file of the image library and the address that serves it.
#[derive(Debug, Clone, PartialEq, Eq)]
pub struct FileInfo {
    /// The file's name.
    pub name: String,
    /// The address of the file on the local image server.
    pub data: String,
}

/// The address at which the local image server serves `name`.
pub open spec fn url_of(name: Seq<char>) -> Seq<char> {
    "http://127.0.0.1:8080/"@ + name
}

/// The files among `entries`, in listing order, each with its address.
pub open spec fn listed_files(entries: Seq<DirEntryInfo>) -> Seq<(Seq<char>, Seq<char>)>
    decreases entries.len(),
{
    if entries.len() == 0 {
        seq![]
    } else {
        let prev = listed_files(entries.drop_last());
        if entries.last().is_file {
            prev.push((entries.last().name@, url_of(entries.last().name@)))
        } else {
            prev
        }
    }
}

/// The address at which the local image server serves `name`.
pub fn file_url(name: &str) -> (r: String)
    ensures
        r@ == url_of(name@),
{
    let mut url = String::from_str("http://127.0.0.1:8080/");
    url.append(name);
    url
}

/// The regular files among `entries`, in listing order, each with its
/// address on the local image server.
pub fn list_files(entries: &Vec<DirEntryInfo>) -> (r: Vec<FileInfo>)
    ensures
        r@.len() == listed_files(entries@).len(),
        forall|k: int|
            0 <= k < r@.len() ==> (#[trigger] r@[k]).name@ == listed_files(entries@)[k].0
                && r@[k].data@ == listed_files(entries@)[k].1,
{
    let mut r: Vec<FileInfo> = Vec::new();
    let mut i: usize = 0;
    while i < entries.len()
        invariant
            0 <= i <= entries@.len(),
            r@.len() == listed_files(entries@.subrange(0, i as int)).len(),
            forall|k: int|
                0 <= k < r@.len() ==> (#[trigger] r@[k]).name@ == listed_files(
                    entries@.subrange(0, i as int),
                )[k].0 && r@[k].data@ == listed_files(entries@.subrange(0, i as int))[k].1,
        decreases entries@.len() - i,
    {
        let e = &entries[i];
        let ghost before = entries@.subrange(0, i as int);
        let ghost after = entries@.subrange(0, i + 1);
        assert(after.drop_last() =~= before);
        assert(after.last() == entries@[i as int]);
        if e.is_file {
            let name = e.name.clone();
            let data = file_url(e.name.as_str());
            r.push(FileInfo { name, data });
        }
        i = i + 1;
    }
    assert(entries@.subrange(0, entries@.len() as int) =~= entries@);
    r
}

} // verus!
