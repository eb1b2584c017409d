//! Loose-object bookkeeping: the path an object hash maps to inside a bare
//! repository, the header of a raw Git object, and the harvest step that
//! recovers new objects from a scratch tree after a push.

use vstd::prelude::*;
use vstd::utf8::{valid_utf8, decode_utf8};
use crate::errors::Error;
use crate::text::utf8_to_str;

verus! {

/// The first index at which `x` occurs in `s`, or -1 when it does not.
pub open spec fn spec_index_of<T>(s: Seq<T>, x: T) -> int
    decreases s.len(),
{
    if s.len() == 0 {
        -1
    } else if s[0] == x {
        0
    } else {
        let r = spec_index_of(s.drop_first(), x);
        if r == -1 {
            -1
        } else {
            r + 1
        }
    }
}

pub proof fn lemma_index_of_found<T>(s: Seq<T>, x: T, i: int)
    requires
        0 <= i < s.len(),
        s[i] == x,
        forall|k: int| 0 <= k < i ==> s[k] != x,
    ensures
        spec_index_of(s, x) == i,
    decreases i,
{
    if i == 0 {
    } else {
        let t = s.drop_first();
        assert(forall|k: int| 0 <= k < i - 1 ==> t[k] != x);
        lemma_index_of_found(t, x, i - 1);
    }
}

pub proof fn lemma_index_of_none<T>(s: Seq<T>, x: T)
    requires
        forall|k: int| 0 <= k < s.len() ==> s[k] != x,
    ensures
        spec_index_of(s, x) == -1,
    decreases s.len(),
{
    if s.len() > 0 {
        lemma_index_of_none(s.drop_first(), x);
    }
}

pub proof fn lemma_index_of_properties<T>(s: Seq<T>, x: T)
    ensures
        spec_index_of(s, x) >= -1,
        spec_index_of(s, x) >= 0 ==> spec_index_of(s, x) < s.len() && s[spec_index_of(s, x)] == x,
        spec_index_of(s, x) == -1 ==> forall|k: int| 0 <= k < s.len() ==> s[k] != x,
    decreases s.len(),
{
    if s.len() > 0 && s[0] != x {
        lemma_index_of_properties(s.drop_first(), x);
        if spec_index_of(s, x) == -1 {
            assert(spec_index_of(s.drop_first(), x) == -1);
            assert forall|k: int| 0 <= k < s.len() implies s[k] != x by {
                if k > 0 {
                    assert(s.drop_first()[k - 1] == s[k]);
                }
            }
        }
    }
}

/// The path of a loose object relative to the repository root: the first two
/// hash characters name the directory, the rest name the file. A degenerate
/// hash shorter than two characters is kept whole.
pub open spec fn spec_object_path(hash: Seq<char>) -> Seq<char> {
    if hash.len() < 2 {
        "objects/"@ + hash
    } else {
        "objects/"@ + hash.take(2) + "/"@ + hash.skip(2)
    }
}

/// Computes the loose-object path of a hash.
pub fn get_object_path(hash: &str) -> (r: String)
    ensures
        r@ =~= spec_object_path(hash@),
{
    let len: usize = hash.unicode_len();
    let mut out = "objects/".to_owned();
    if len < 2 {
        out.append(hash);
    } else {
        out.append(hash.substring_char(0, 2));
        out.append("/");
        out.append(hash.substring_char(2, len));
    }
    out
}

/// Splits a raw Git object into its type tag and payload. The bytes up to
/// the first null byte must be a UTF-8 header of exactly two space-separated
/// words; everything after the null byte is the payload.
pub fn extract_git_object(content: &[u8]) -> (r: Result<(String, Vec<u8>), Error>)
    ensures
        ({
            let p = spec_index_of(content@, 0u8);
            &&& (r is Ok <==> (p >= 0 && valid_utf8(content@.take(p)) && ({
                let hdr = decode_utf8(content@.take(p));
                let q = spec_index_of(hdr, ' ');
                q >= 0 && spec_index_of(hdr.skip(q + 1), ' ') == -1
            })))
            &&& (r is Ok ==> ({
                let hdr = decode_utf8(content@.take(p));
                let q = spec_index_of(hdr, ' ');
                r->Ok_0.0@ =~= hdr.take(q) && r->Ok_0.1@ =~= content@.skip(p + 1)
            }))
            &&& (r is Err ==> r->Err_0 is Malformed)
        }),
{
    let n: usize = content.len();
    let mut p: usize = 0;
    let mut found: bool = false;
    while p < n && !found
        invariant
            n == content@.len(),
            p <= n,
            !found ==> forall|k: int| 0 <= k < p ==> content@[k] != 0u8,
            found ==> p < n && content@[p as int] == 0u8
                && forall|k: int| 0 <= k < p ==> content@[k] != 0u8,
        decreases n - p + (if found { 0int } else { 1int }),
    {
        if *vstd::slice::slice_index_get(content, p) == 0 {
            found = true;
        } else {
            p = p + 1;
        }
    }
    if !found {
        proof {
            lemma_index_of_none(content@, 0u8);
        }
        return Err(Error::Malformed {
            message: "Invalid Git object format: missing null byte separator".to_owned(),
        });
    }
    proof {
        lemma_index_of_found(content@, 0u8, p as int);
    }
    let header_bytes = vstd::slice::slice_subrange(content, 0, p);
    proof {
        assert(header_bytes@ =~= content@.take(p as int));
    }
    let header = match utf8_to_str(header_bytes) {
        Some(h) => h,
        None => {
            return Err(Error::Malformed { message: "Invalid Git object header".to_owned() });
        },
    };
    proof {
        vstd::utf8::encode_utf8_decode_utf8(header@);
        assert(decode_utf8(content@.take(p as int)) =~= header@);
    }
    let hlen: usize = header.unicode_len();
    let mut q: usize = 0;
    let mut space_found: bool = false;
    while q < hlen && !space_found
        invariant
            hlen == header@.len(),
            q <= hlen,
            !space_found ==> forall|k: int| 0 <= k < q ==> header@[k] != ' ',
            space_found ==> q < hlen && header@[q as int] == ' '
                && forall|k: int| 0 <= k < q ==> header@[k] != ' ',
        decreases hlen - q + (if space_found { 0int } else { 1int }),
    {
        if header.get_char(q) == ' ' {
            space_found = true;
        } else {
            q = q + 1;
        }
    }
    if !space_found {
        proof {
            lemma_index_of_none(header@, ' ');
        }
        return Err(Error::Malformed { message: "Invalid Git object header format".to_owned() });
    }
    proof {
        lemma_index_of_found(header@, ' ', q as int);
    }
    let mut t: usize = q + 1;
    while t < hlen
        invariant
            hlen == header@.len(),
            q < t <= hlen,
            forall|k: int| q < k < t ==> header@[k] != ' ',
            n == content@.len(),
            p < n,
            spec_index_of(content@, 0u8) == p as int,
            valid_utf8(content@.take(p as int)),
            decode_utf8(content@.take(p as int)) == header@,
            spec_index_of(header@, ' ') == q as int,
        decreases hlen - t,
    {
        if header.get_char(t) == ' ' {
            proof {
                assert(header@.skip(q + 1)[t - q - 1] == ' ');
                lemma_index_of_properties(header@.skip(q + 1), ' ');
            }
            return Err(Error::Malformed {
                message: "Invalid Git object header format".to_owned(),
            });
        }
        t = t + 1;
    }
    proof {
        assert(forall|k: int| 0 <= k < header@.skip(q + 1).len()
            ==> #[trigger] header@.skip(q + 1)[k] == header@[k + q + 1]);
        lemma_index_of_none(header@.skip(q + 1), ' ');
    }
    let obj_type = header.substring_char(0, q).to_owned();
    let payload_slice = vstd::slice::slice_subrange(content, p + 1, n);
    let payload = vstd::slice::slice_to_vec(payload_slice);
    proof {
        assert(obj_type@ =~= header@.take(q as int));
        assert(payload@ =~= content@.skip(p + 1));
    }
    Ok((obj_type, payload))
}

/// One regular file found while walking the `objects` tree of a scratch
/// repository: the name of its parent directory and its own file name.
#[derive(Debug, Clone)]
pub struct ObjEntry {
    pub dir_name: String,
    pub file_name: String,
}

/// A harvested object: the hash reconstructed from the tree walk and the
/// path of its file relative to the repository root.
#[derive(Debug, Clone)]
pub struct HarvestItem {
    pub hash: String,
    pub rel_path: String,
}

/// Reconstructs each walked file's object hash (parent directory name plus
/// file name) and its loose-object path.
pub fn harvest_items(entries: &Vec<ObjEntry>) -> (r: Vec<HarvestItem>)
    ensures
        r@.len() == entries@.len(),
        forall|i: int| 0 <= i < entries@.len() ==> {
            &&& (#[trigger] r@[i]).hash@ =~= entries@[i].dir_name@ + entries@[i].file_name@
            &&& r@[i].rel_path@ =~= "objects/"@ + entries@[i].dir_name@ + "/"@
                + entries@[i].file_name@
        },
{
    let mut out: Vec<HarvestItem> = Vec::new();
    let mut i: usize = 0;
    while i < entries.len()
        invariant
            i <= entries@.len(),
            out@.len() == i,
            forall|k: int| 0 <= k < i ==> {
                &&& (#[trigger] out@[k]).hash@ =~= entries@[k].dir_name@ + entries@[k].file_name@
                &&& out@[k].rel_path@ =~= "objects/"@ + entries@[k].dir_name@ + "/"@
                    + entries@[k].file_name@
            },
        decreases entries@.len() - i,
    {
        let entry = &entries[i];
        let mut hash = entry.dir_name.clone();
        hash.append(entry.file_name.as_str());
        let mut rel_path = "objects/".to_owned();
        rel_path.append(entry.dir_name.as_str());
        rel_path.append("/");
        rel_path.append(entry.file_name.as_str());
        out.push(HarvestItem { hash, rel_path });
        i = i + 1;
    }
    out
}

/// The outcome of asking the ledger whether it already holds an object.
#[derive(Debug, Clone)]
pub enum Lookup {
    /// The ledger answered that the object is present.
    Exists,
    /// The ledger answered that the object is absent.
    Absent,
    /// The ledger could not be asked; the message carries the transport error.
    Unknown { message: String },
}

/// The harvested items that are new to the ledger: an item is kept unless
/// its lookup positively reported it present. An unanswered lookup keeps the
/// item, so an unreachable ledger re-uploads rather than drops.
pub open spec fn spec_selected(items: Seq<HarvestItem>, lookups: Seq<Lookup>) -> Seq<HarvestItem>
    decreases items.len(),
{
    if items.len() == 0 {
        Seq::empty()
    } else {
        let i = items.len() - 1;
        let init = spec_selected(items.drop_last(), lookups);
        if i < lookups.len() && lookups[i] is Exists {
            init
        } else {
            init.push(items.last())
        }
    }
}

/// Filters the harvested items down to those the ledger does not hold yet.
pub fn select_new_objects(items: &Vec<HarvestItem>, lookups: &Vec<Lookup>) -> (r: Vec<
    HarvestItem,
>)
    ensures
        r@ =~= spec_selected(items@, lookups@),
{
    let mut out: Vec<HarvestItem> = Vec::new();
    let mut i: usize = 0;
    while i < items.len()
        invariant
            i <= items@.len(),
            out@ =~= spec_selected(items@.take(i as int), lookups@),
        decreases items@.len() - i,
    {
        let keep: bool = if i < lookups.len() {
            !(matches!(&lookups[i], Lookup::Exists))
        } else {
            true
        };
        if keep {
            let item = &items[i];
            out.push(HarvestItem {
                hash: item.hash.clone(),
                rel_path: item.rel_path.clone(),
            });
            proof {
                assert(HarvestItem {
                    hash: items@[i as int].hash,
                    rel_path: items@[i as int].rel_path,
                } == items@[i as int]);
            }
        }
        proof {
            assert(items@.take(i + 1).drop_last() =~= items@.take(i as int));
            assert(items@.take(i + 1).last() == items@[i as int]);
        }
        i = i + 1;
    }
    proof {
        assert(items@.take(items@.len() as int) =~= items@);
    }
    out
}

/// One blob to fetch while materializing: the store locator and the
/// destination path relative to the repository root.
#[derive(Debug, Clone)]
pub struct DownloadJob {
    pub cid: String,
    pub rel_path: String,
}

/// Lays out the blob downloads of a materialization: one per ledger object,
/// its locator bytes read as text and its destination derived from its hash.
pub fn plan_downloads(objects: &Vec<crate::ledger::Object>) -> (r: Result<Vec<DownloadJob>, Error>)
    ensures
        r is Ok <==> (forall|i: int| 0 <= i < objects@.len()
            ==> valid_utf8((#[trigger] objects@[i])@.ipfs_url)),
        r is Ok ==> ({
            &&& r->Ok_0@.len() == objects@.len()
            &&& forall|i: int| 0 <= i < objects@.len() ==> {
                &&& (#[trigger] r->Ok_0@[i]).cid@ =~= decode_utf8(objects@[i]@.ipfs_url)
                &&& r->Ok_0@[i].rel_path@ =~= spec_object_path(objects@[i]@.hash)
            }
        }),
        r is Err ==> r->Err_0 is Malformed,
{
    let mut out: Vec<DownloadJob> = Vec::new();
    let mut i: usize = 0;
    while i < objects.len()
        invariant
            i <= objects@.len(),
            out@.len() == i,
            forall|k: int| 0 <= k < i ==> valid_utf8((#[trigger] objects@[k])@.ipfs_url),
            forall|k: int| 0 <= k < i ==> {
                &&& (#[trigger] out@[k]).cid@ =~= decode_utf8(objects@[k]@.ipfs_url)
                &&& out@[k].rel_path@ =~= spec_object_path(objects@[k]@.hash)
            },
        decreases objects@.len() - i,
    {
        let object = &objects[i];
        let cid = match utf8_to_str(object.ipfs_url.as_slice()) {
            Some(c) => c.to_owned(),
            None => {
                return Err(Error::Malformed {
                    message: "Invalid object locator".to_owned(),
                });
            },
        };
        proof {
            vstd::utf8::encode_utf8_decode_utf8(cid@);
        }
        let rel_path = get_object_path(object.hash.as_str());
        out.push(DownloadJob { cid, rel_path });
        i = i + 1;
    }
    Ok(out)
}

} // verus!
