//! The ledger-held data model: refs, objects and the handle of a deployed
//! ledger contract, together with the invariants a ref must meet before a
//! scratch repository may be materialized from it, and the post-write
//! verification that guards against a ledger that drops state silently.

use vstd::prelude::*;
use vstd::utf8::{valid_utf8, decode_utf8};
use crate::errors::Error;
use crate::text::{spec_is_hex_char, spec_has_prefix, str_eq, utf8_to_str, spec_hex_char_of, hex_digit_str};

verus! {

/// A ref as the ledger stores it: a name, the raw bytes of its target,
/// an activity flag, and the address that pushed it.
#[derive(Debug, Clone)]
pub struct Ref {
    pub name: String,
    pub data: Vec<u8>,
    pub is_active: bool,
    pub pusher: Vec<u8>,
}

/// The mathematical shadow of a [`Ref`].
pub struct RefV {
    pub name: Seq<char>,
    pub data: Seq<u8>,
    pub is_active: bool,
    pub pusher: Seq<u8>,
}

impl View for Ref {
    type V = RefV;

    open spec fn view(&self) -> RefV {
        RefV {
            name: self.name@,
            data: self.data@,
            is_active: self.is_active,
            pusher: self.pusher@,
        }
    }
}

/// An object as the ledger stores it: its content hash, the opaque locator
/// of its bytes in the blob store, and the address that pushed it.
#[derive(Debug, Clone)]
pub struct Object {
    pub hash: String,
    pub ipfs_url: Vec<u8>,
    pub pusher: Vec<u8>,
}

/// The mathematical shadow of an [`Object`].
pub struct ObjectV {
    pub hash: Seq<char>,
    pub ipfs_url: Seq<u8>,
    pub pusher: Seq<u8>,
}

impl View for Object {
    type V = ObjectV;

    open spec fn view(&self) -> ObjectV {
        ObjectV {
            hash: self.hash@,
            ipfs_url: self.ipfs_url@,
            pusher: self.pusher@,
        }
    }
}

/// A ref name must live under the `refs/` namespace.
pub open spec fn spec_valid_ref_name(name: Seq<char>) -> bool {
    spec_has_prefix(name, "refs/"@)
}

/// A ref target must be exactly forty lowercase hexadecimal characters.
pub open spec fn spec_valid_target(target: Seq<char>) -> bool {
    target.len() == 40 && forall|i: int| 0 <= i < 40 ==> spec_is_hex_char(#[trigger] target[i])
}

/// An active ref may be materialized only if its target bytes decode to a
/// valid forty-digit hash and its name is namespaced.
pub open spec fn spec_ref_ok(r: RefV) -> bool {
    valid_utf8(r.data) && spec_valid_target(decode_utf8(r.data)) && spec_valid_ref_name(r.name)
}

/// Every active ref of the sequence meets the materialization invariant.
pub open spec fn spec_active_refs_ok(refs: Seq<RefV>) -> bool {
    forall|i: int| 0 <= i < refs.len() && (#[trigger] refs[i]).is_active ==> spec_ref_ok(refs[i])
}

/// One file of a scratch repository: a path relative to the repository root
/// and the text written there.
#[derive(Debug, Clone)]
pub struct RefFile {
    pub path: String,
    pub content: String,
}

/// The mathematical shadow of a [`RefFile`].
pub struct RefFileV {
    pub path: Seq<char>,
    pub content: Seq<char>,
}

impl View for RefFile {
    type V = RefFileV;

    open spec fn view(&self) -> RefFileV {
        RefFileV { path: self.path@, content: self.content@ }
    }
}

/// The file a valid active ref turns into: its name as the path, its target
/// followed by a newline as the content.
pub open spec fn spec_file_of(r: RefV) -> RefFileV {
    RefFileV { path: r.name, content: decode_utf8(r.data) + "\n"@ }
}

/// The files that materializing a ref sequence writes: one per active ref,
/// in ledger order.
pub open spec fn spec_ref_files(refs: Seq<RefV>) -> Seq<RefFileV>
    decreases refs.len(),
{
    if refs.len() == 0 {
        Seq::empty()
    } else {
        let init = spec_ref_files(refs.drop_last());
        if refs.last().is_active {
            init.push(spec_file_of(refs.last()))
        } else {
            init
        }
    }
}

/// The views of a ref vector.
pub open spec fn spec_ref_views(refs: Seq<Ref>) -> Seq<RefV> {
    refs.map_values(|r: Ref| r@)
}

/// Validates every active ref and lays out the files of a scratch
/// repository. Any violation rejects the whole set: a partial repository is
/// never handed to a protocol operation.
pub fn materialize_refs(refs: &Vec<Ref>) -> (r: Result<Vec<RefFile>, Error>)
    ensures
        r is Ok <==> spec_active_refs_ok(spec_ref_views(refs@)),
        r is Ok ==> r->Ok_0@.map_values(|f: RefFile| f@) =~= spec_ref_files(spec_ref_views(refs@)),
        r is Err ==> r->Err_0 is Malformed,
{
    let ghost views = spec_ref_views(refs@);
    let mut out: Vec<RefFile> = Vec::new();
    let mut i: usize = 0;
    while i < refs.len()
        invariant
            i <= refs@.len(),
            views == spec_ref_views(refs@),
            spec_active_refs_ok(views.take(i as int)),
            out@.map_values(|f: RefFile| f@) =~= spec_ref_files(views.take(i as int)),
        decreases refs@.len() - i,
    {
        let entry = &refs[i];
        if entry.is_active {
            let target = match utf8_to_str(entry.data.as_slice()) {
                Some(t) => t,
                None => {
                    proof {
                        assert(views[i as int] == refs@[i as int]@);
                        assert(!spec_ref_ok(views[i as int]));
                        assert(!spec_active_refs_ok(views));
                    }
                    return Err(Error::Malformed {
                        message: "Failed to convert ref data to string".to_owned(),
                    });
                },
            };
            proof {
                vstd::utf8::encode_utf8_decode_utf8(target@);
            }
            if !is_valid_target(target) || !has_ref_prefix(entry.name.as_str()) {
                proof {
                    assert(views[i as int] == refs@[i as int]@);
                    assert(decode_utf8(views[i as int].data) =~= target@);
                    assert(!spec_ref_ok(views[i as int]));
                    assert(!spec_active_refs_ok(views));
                }
                let mut message = "Malformed ref ".to_owned();
                message.append(entry.name.as_str());
                message.append(": ");
                message.append(target);
                return Err(Error::Malformed { message });
            }
            let mut content = target.to_owned();
            content.append("\n");
            out.push(RefFile { path: entry.name.clone(), content });
            proof {
                assert(views[i as int] == refs@[i as int]@);
                assert(spec_ref_ok(views[i as int]));
            }
        }
        proof {
            assert(views.take(i + 1).drop_last() =~= views.take(i as int));
            assert(views.take(i + 1).last() == views[i as int]);
            assert(spec_active_refs_ok(views.take(i + 1)));
        }
        i = i + 1;
    }
    proof {
        assert(views.take(views.len() as int) =~= views);
    }
    Ok(out)
}

/// Decides `spec_valid_target` for a candidate hash.
pub fn is_valid_target(target: &str) -> (r: bool)
    ensures
        r == spec_valid_target(target@),
{
    let len: usize = target.unicode_len();
    if len != 40 {
        return false;
    }
    let mut i: usize = 0;
    while i < 40
        invariant
            target@.len() == 40,
            i <= 40,
            forall|k: int| 0 <= k < i ==> spec_is_hex_char(#[trigger] target@[k]),
        decreases 40 - i,
    {
        if crate::text::hex_val(target.get_char(i)) >= 16 {
            return false;
        }
        i = i + 1;
    }
    true
}

/// Decides `spec_valid_ref_name` for a candidate name.
pub fn has_ref_prefix(name: &str) -> (r: bool)
    ensures
        r == spec_valid_ref_name(name@),
{
    proof {
        reveal_strlit("refs/");
    }
    let len: usize = name.unicode_len();
    if len < 5 {
        return false;
    }
    let ok = name.get_char(0) == 'r' && name.get_char(1) == 'e' && name.get_char(2) == 'f'
        && name.get_char(3) == 's' && name.get_char(4) == '/';
    proof {
        if ok {
            assert(name@.subrange(0, 5) =~= "refs/"@);
        } else {
            assert(name@.subrange(0, 5)[0] == name@[0]);
            assert(name@.subrange(0, 5)[1] == name@[1]);
            assert(name@.subrange(0, 5)[2] == name@[2]);
            assert(name@.subrange(0, 5)[3] == name@[3]);
            assert(name@.subrange(0, 5)[4] == name@[4]);
        }
    }
    ok
}

/// A submitted ref name is observable in a ledger read-back: some ref of
/// that name is present and active.
pub open spec fn spec_ref_observed(name: Seq<char>, ledger: Seq<RefV>) -> bool {
    exists|j: int| 0 <= j < ledger.len() && (#[trigger] ledger[j]).name =~= name && ledger[j].is_active
}

/// Confirms that every submitted ref name is present and active in a fresh
/// ledger read; a write that is not observable afterwards is fatal.
pub fn verify_refs_stored(names: &Vec<String>, ledger: &Vec<Ref>) -> (r: Result<(), Error>)
    ensures
        r is Ok <==> (forall|i: int| 0 <= i < names@.len()
            ==> spec_ref_observed(#[trigger] names@[i]@, spec_ref_views(ledger@))),
        r is Err ==> (r->Err_0 matches Error::VerificationFailed { name }
            && !spec_ref_observed(name@, spec_ref_views(ledger@))
            && exists|i: int| 0 <= i < names@.len() && #[trigger] names@[i]@ =~= name@),
{
    let ghost lviews = spec_ref_views(ledger@);
    let mut i: usize = 0;
    while i < names.len()
        invariant
            i <= names@.len(),
            lviews == spec_ref_views(ledger@),
            forall|k: int| 0 <= k < i ==> spec_ref_observed(#[trigger] names@[k]@, lviews),
        decreases names@.len() - i,
    {
        let name = &names[i];
        let mut found: bool = false;
        let mut j: usize = 0;
        while j < ledger.len()
            invariant
                j <= ledger@.len(),
                lviews == spec_ref_views(ledger@),
                found ==> spec_ref_observed(name@, lviews),
                !found ==> forall|t: int| 0 <= t < j
                    ==> !((#[trigger] lviews[t]).name =~= name@ && lviews[t].is_active),
            decreases ledger@.len() - j,
        {
            let candidate = &ledger[j];
            if candidate.is_active && str_eq(candidate.name.as_str(), name.as_str()) {
                proof {
                    assert(lviews[j as int] == ledger@[j as int]@);
                }
                found = true;
            }
            j = j + 1;
        }
        if !found {
            proof {
                assert(!spec_ref_observed(name@, lviews));
                assert(names@[i as int]@ =~= name@);
            }
            return Err(Error::VerificationFailed { name: name.clone() });
        }
        i = i + 1;
    }
    Ok(())
}

/// The handle of one deployed ledger contract: its twenty address bytes.
#[derive(Debug, Clone)]
pub struct LedgerHandle {
    pub address_bytes: Vec<u8>,
}

/// The `0x`-prefixed lowercase hexadecimal spelling of a byte sequence.
pub open spec fn spec_hex_of_bytes(bytes: Seq<u8>) -> Seq<char>
    decreases bytes.len(),
{
    if bytes.len() == 0 {
        Seq::empty()
    } else {
        spec_hex_of_bytes(bytes.drop_last())
            + seq![
                spec_hex_char_of(bytes.last() as int / 16),
                spec_hex_char_of(bytes.last() as int % 16),
            ]
    }
}

impl LedgerHandle {
    /// The handle's well-formedness: a ledger address has twenty bytes.
    pub open spec fn wf(self) -> bool {
        self.address_bytes@.len() == 20
    }

    /// Renders the handle as a `0x`-prefixed lowercase hexadecimal address.
    pub fn address(&self) -> (r: String)
        ensures
            r@ =~= "0x"@ + spec_hex_of_bytes(self.address_bytes@),
    {
        let ghost bytes = self.address_bytes@;
        let mut out = "0x".to_owned();
        let mut i: usize = 0;
        while i < self.address_bytes.len()
            invariant
                i <= bytes.len(),
                self.address_bytes@ == bytes,
                out@ =~= "0x"@ + spec_hex_of_bytes(bytes.take(i as int)),
            decreases bytes.len() - i,
        {
            let b = self.address_bytes[i];
            out.append(hex_digit_str(b / 16));
            out.append(hex_digit_str(b % 16));
            proof {
                assert(bytes.take(i + 1).drop_last() =~= bytes.take(i as int));
                assert(bytes.take(i + 1).last() == bytes[i as int]);
            }
            i = i + 1;
        }
        proof {
            assert(bytes.take(bytes.len() as int) =~= bytes);
        }
        out
    }
}

} // verus!
