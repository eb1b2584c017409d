//! The per-request decision machine. Every protocol operation shares the
//! shape: look the repository up, materialize a scratch repository from the
//! ledger, run the Git executable, respond; receive-pack additionally
//! harvests and persists. The machine makes every decision; the shell only
//! performs the commanded I/O and reports what happened. A request's scratch
//! directory is the shell's to create and to discard on every exit path.

use vstd::prelude::*;
use vstd::utf8::{valid_utf8, decode_utf8};
use crate::errors::{Error, ErrorV};
use crate::ledger::{
    Ref, RefFile, spec_ref_views, spec_active_refs_ok, spec_ref_files, materialize_refs,
    verify_refs_stored, spec_ref_observed,
};
use crate::objects::{
    Lookup, ObjEntry, HarvestItem, DownloadJob, harvest_items, select_new_objects, spec_selected,
    plan_downloads, spec_object_path,
};
use crate::pktline::{spec_advertisement_header, frame_advertisement};
use crate::text::{spec_trim, trim_str};
use crate::wants::{parse_wanted_objects, check_wants, spec_wanted_objects};

verus! {

/// Which protocol operation this request is.
#[derive(Debug, Clone, Copy, PartialEq, Eq, Structural)]
pub enum Op {
    /// A ref advertisement; `upload` tells which service it announces.
    InfoRefs { upload: bool },
    /// Fetch/clone negotiation.
    UploadPack,
    /// Push negotiation.
    ReceivePack,
}

/// The modes the Git executable is invoked in.
#[derive(Debug, Clone, Copy, PartialEq, Eq, Structural)]
pub enum GitCmd {
    /// `init --bare` in the scratch directory.
    InitBare,
    /// `update-server-info` in the scratch directory.
    UpdateServerInfo,
    /// `upload-pack --advertise-refs .` or `receive-pack --advertise-refs .`.
    Advertise { upload: bool },
    /// `upload-pack --stateless-rpc .` with the request body on its input.
    UploadPackRpc,
    /// `receive-pack --stateless-rpc .` with the request body on its input.
    ReceivePackRpc,
}

/// One ref file found while walking `refs/heads` and `refs/tags` of the
/// scratch tree after a push: its path relative to the repository root and
/// the text it holds.
#[derive(Debug)]
pub struct RefSnapshot {
    pub rel_path: String,
    pub content: String,
}

/// What the shell observed while executing the machine's last command.
#[derive(Debug)]
pub enum Event {
    /// Whether the registry holds the repository.
    RepoLookup { found: bool },
    /// A Git invocation finished: its exit success, output and error text.
    GitDone { ok: bool, stdout: Vec<u8>, stderr_text: String },
    /// The ledger returned its refs.
    RefsFetched { refs: Vec<Ref> },
    /// A ledger read failed with this transport error.
    LedgerFailed { message: String },
    /// The scratch directories and ref files are in place.
    MaterializeDone,
    /// The ledger's answers to the commanded existence checks, in order.
    ExistenceChecked { results: Vec<Lookup> },
    /// The ledger returned its objects.
    ObjectsFetched { objects: Vec<crate::ledger::Object> },
    /// Every commanded blob download succeeded.
    DownloadsDone,
    /// A blob download ran out of strategies and rounds.
    DownloadFailed,
    /// The scratch tree was walked after the push.
    TreeScanned { objects: Vec<ObjEntry>, ref_files: Vec<RefSnapshot> },
    /// Every commanded blob upload succeeded; the content ids, in order.
    UploadsDone { cids: Vec<String> },
    /// A blob upload ran out of attempts.
    UploadFailed { message: String },
    /// The commanded ledger write succeeded.
    LedgerWriteDone,
    /// The commanded ledger write is over with this error.
    LedgerWriteFailed { error: Error },
}

/// What the shell must do next.
#[derive(Debug)]
pub enum Action {
    /// Ask the registry for the repository's handle.
    LookupRepo,
    /// Run the Git executable in this mode, with these bytes on its input.
    RunGit { cmd: GitCmd, input: Vec<u8> },
    /// Read all refs from the ledger.
    FetchRefs,
    /// Create the standard scratch directories and write these ref files.
    Materialize { files: Vec<RefFile> },
    /// Ask the ledger whether it holds each of these hashes, in order.
    CheckExistence { hashes: Vec<String> },
    /// Read all objects from the ledger.
    FetchObjects,
    /// Fetch each blob into its destination, by the download policy.
    DownloadObjects { jobs: Vec<DownloadJob> },
    /// Walk the scratch tree for loose objects and ref files.
    ScanTree,
    /// Upload each of these files to the blob store, by the upload policy.
    UploadObjects { items: Vec<HarvestItem> },
    /// Write these object rows to the ledger, by the write policy.
    SubmitObjects { hashes: Vec<String>, locators: Vec<String> },
    /// Write these ref rows to the ledger, by the write policy.
    SubmitRefs { names: Vec<String>, targets: Vec<String> },
}

/// Where the request stands; the payload of a phase is what later phases
/// still need.
#[derive(Debug)]
pub enum Phase {
    /// Awaiting the registry's answer.
    Lookup,
    /// Awaiting the result of `init --bare`.
    Init,
    /// Awaiting the ledger's refs.
    Refs,
    /// Awaiting the scratch directories and ref files.
    Materialize,
    /// Awaiting the existence answers for the requested hashes.
    Wants { wants: Vec<String> },
    /// Awaiting the ledger's objects.
    Objects,
    /// Awaiting the blob downloads.
    Downloads,
    /// Awaiting the result of `update-server-info`.
    ServerInfo,
    /// Awaiting the exit of the operation's main Git command.
    Run,
    /// Awaiting the scratch tree walk.
    Scan { response: Vec<u8> },
    /// Awaiting the existence answers for the harvested objects.
    ObjExist {
        response: Vec<u8>,
        items: Vec<HarvestItem>,
        names: Vec<String>,
        targets: Vec<String>,
    },
    /// Awaiting the blob uploads of the new objects.
    Uploads { response: Vec<u8>, hashes: Vec<String>, names: Vec<String>, targets: Vec<String> },
    /// Awaiting the ledger write of the new object rows.
    StoreObjects { response: Vec<u8>, names: Vec<String>, targets: Vec<String> },
    /// Awaiting the ledger write of the changed refs.
    StoreRefs { response: Vec<u8>, names: Vec<String> },
    /// Awaiting the ledger re-read that verifies the ref write.
    Verify { response: Vec<u8>, names: Vec<String> },
    /// The request is over.
    Done { result: Result<Vec<u8>, Error> },
}

/// One in-flight request.
#[derive(Debug)]
pub struct Session {
    pub op: Op,
    pub repo: String,
    pub body: Vec<u8>,
    pub phase: Phase,
}

/// The service name an advertisement announces.
pub open spec fn spec_service_name(upload: bool) -> Seq<char> {
    if upload {
        "git-upload-pack"@
    } else {
        "git-receive-pack"@
    }
}

/// The literal of `spec_service_name`, known to be ASCII and short.
fn service_str(upload: bool) -> (r: &'static str)
    ensures
        r@ =~= spec_service_name(upload),
        r.is_ascii(),
        r@.len() < 100,
{
    proof {
        reveal_strlit("git-upload-pack");
        reveal_strlit("git-receive-pack");
        assert(vstd::utf8::is_ascii_chars("git-upload-pack"@));
        assert(vstd::utf8::is_ascii_chars("git-receive-pack"@));
    }
    if upload {
        "git-upload-pack"
    } else {
        "git-receive-pack"
    }
}

/// Pointwise equality of a string vector's views with a sequence.
pub open spec fn spec_same_strings(a: Seq<String>, b: Seq<String>) -> bool {
    a.len() == b.len() && forall|i: int| 0 <= i < a.len() ==> (#[trigger] a[i])@ == b[i]@
}

/// A field-by-field copy of a string vector.
fn clone_strings(v: &Vec<String>) -> (r: Vec<String>)
    ensures
        spec_same_strings(r@, v@),
{
    let mut out: Vec<String> = Vec::new();
    let mut i: usize = 0;
    while i < v.len()
        invariant
            i <= v@.len(),
            out@.len() == i,
            forall|k: int| 0 <= k < i ==> (#[trigger] out@[k])@ == v@[k]@,
        decreases v@.len() - i,
    {
        out.push(v[i].clone());
        i = i + 1;
    }
    out
}

/// A byte-for-byte copy of a request body.
fn copy_bytes(v: &Vec<u8>) -> (r: Vec<u8>)
    ensures
        r@ =~= v@,
{
    let mut out: Vec<u8> = Vec::new();
    let mut i: usize = 0;
    while i < v.len()
        invariant
            i <= v@.len(),
            out@ =~= v@.take(i as int),
        decreases v@.len() - i,
    {
        out.push(v[i]);
        proof {
            assert(v@.take(i + 1) =~= v@.take(i as int).push(v@[i as int]));
        }
        i = i + 1;
    }
    proof {
        assert(v@.take(v@.len() as int) =~= v@);
    }
    out
}

/// The hashes of a harvested item list.
fn hash_list(items: &Vec<HarvestItem>) -> (r: Vec<String>)
    ensures
        r@.len() == items@.len(),
        forall|i: int| 0 <= i < items@.len() ==> (#[trigger] r@[i])@ == items@[i].hash@,
{
    let mut out: Vec<String> = Vec::new();
    let mut i: usize = 0;
    while i < items.len()
        invariant
            i <= items@.len(),
            out@.len() == i,
            forall|k: int| 0 <= k < i ==> (#[trigger] out@[k])@ == items@[k].hash@,
        decreases items@.len() - i,
    {
        out.push(items[i].hash.clone());
        i = i + 1;
    }
    out
}

/// Reconstructs the logical ref rows of the walked ref files: the relative
/// path is the ref name, the trimmed content is the target.
fn harvest_refs(files: &Vec<RefSnapshot>) -> (r: (Vec<String>, Vec<String>))
    ensures
        r.0@.len() == files@.len(),
        r.1@.len() == files@.len(),
        forall|i: int| 0 <= i < files@.len() ==> (#[trigger] r.0@[i])@ == files@[i].rel_path@,
        forall|i: int| 0 <= i < files@.len() ==> (#[trigger] r.1@[i])@ == spec_trim(
            files@[i].content@,
        ),
{
    let mut names: Vec<String> = Vec::new();
    let mut targets: Vec<String> = Vec::new();
    let mut i: usize = 0;
    while i < files.len()
        invariant
            i <= files@.len(),
            names@.len() == i,
            targets@.len() == i,
            forall|k: int| 0 <= k < i ==> (#[trigger] names@[k])@ == files@[k].rel_path@,
            forall|k: int| 0 <= k < i ==> (#[trigger] targets@[k])@ == spec_trim(
                files@[k].content@,
            ),
        decreases files@.len() - i,
    {
        let file = &files[i];
        names.push(file.rel_path.clone());
        targets.push(trim_str(file.content.as_str()));
        i = i + 1;
    }
    (names, targets)
}

/// The views of a string vector.
pub open spec fn spec_str_views(v: Seq<String>) -> Seq<Seq<char>> {
    v.map_values(|s: String| s@)
}

/// After a push is persisted (or when nothing is to persist): no changed
/// refs ends the request with the executable's output; otherwise the ref
/// rows are written and verification follows.
pub open spec fn spec_refs_stage(
    response: Seq<u8>,
    names: Seq<Seq<char>>,
    targets: Seq<Seq<char>>,
    post: Session,
    act: Option<Action>,
) -> bool {
    if names.len() == 0 {
        &&& post.phase matches Phase::Done { result } && (result matches Ok(b) && b@ == response)
        &&& act is None
    } else {
        &&& post.phase matches Phase::StoreRefs { response: r2, names: n2 }
            && r2@ == response && spec_str_views(n2@) == names
        &&& act matches Some(Action::SubmitRefs { names: an, targets: at })
            && spec_str_views(an@) == names && spec_str_views(at@) == targets
    }
}

fn refs_stage(
    op: Op,
    repo: String,
    body: Vec<u8>,
    response: Vec<u8>,
    names: Vec<String>,
    targets: Vec<String>,
) -> (r: (Session, Option<Action>))
    ensures
        r.0.op == op && r.0.repo@ == repo@ && r.0.body@ == body@,
        spec_refs_stage(response@, spec_str_views(names@), spec_str_views(targets@), r.0, r.1),
{
    if names.len() == 0 {
        proof {
            assert(spec_str_views(names@).len() == 0);
        }
        (
            Session { op, repo, body, phase: Phase::Done { result: Ok(response) } },
            None,
        )
    } else {
        let kept = clone_strings(&names);
        proof {
            assert(spec_str_views(kept@) =~= spec_str_views(names@));
        }
        (
            Session { op, repo, body, phase: Phase::StoreRefs { response, names: kept } },
            Some(Action::SubmitRefs { names, targets }),
        )
    }
}

/// The transition relation of a request. Each arm pins the next phase and
/// the commanded action for one observation; an observation that does not
/// belong to the current phase changes nothing and commands nothing.
pub open spec fn spec_step(pre: Session, ev: Event, post: Session, act: Option<Action>) -> bool {
    post.op == pre.op && post.repo@ == pre.repo@ && post.body@ == pre.body@
    && match (pre.phase, ev) {
        (Phase::Lookup, Event::RepoLookup { found }) => {
            if found {
                &&& post.phase is Init
                &&& act matches Some(Action::RunGit { cmd, input })
                    && cmd == GitCmd::InitBare && input@.len() == 0
            } else {
                &&& post.phase matches Phase::Done { result }
                    && (result matches Err(e) && e@ is NotFound)
                &&& act is None
            }
        },
        (Phase::Init, Event::GitDone { ok, stdout, stderr_text }) => {
            if ok {
                post.phase is Refs && act == Some(Action::FetchRefs)
            } else {
                &&& post.phase matches Phase::Done { result } && (result matches Err(e)
                    && e@ matches ErrorV::SubprocessFailed { message }
                    && message == "Failed to initialize git repo: "@ + stderr_text@)
                &&& act is None
            }
        },
        (Phase::Refs, Event::RefsFetched { refs }) => {
            let views = spec_ref_views(refs@);
            if pre.op is UploadPack && refs@.len() == 0 {
                &&& post.phase matches Phase::Done { result }
                    && (result matches Err(e) && e@ is EmptyRepository)
                &&& act is None
            } else if !spec_active_refs_ok(views) {
                &&& post.phase matches Phase::Done { result }
                    && (result matches Err(e) && e@ is Malformed)
                &&& act is None
            } else {
                &&& post.phase is Materialize
                &&& act matches Some(Action::Materialize { files })
                    && files@.map_values(|f: RefFile| f@) == spec_ref_files(views)
            }
        },
        (Phase::Refs, Event::LedgerFailed { message }) => {
            &&& post.phase matches Phase::Done { result } && (result matches Err(e)
                && e@ matches ErrorV::UpstreamUnavailable { message: m } && m == message@)
            &&& act is None
        },
        (Phase::Materialize, Event::MaterializeDone) => match pre.op {
            Op::InfoRefs { upload: _ } => {
                &&& post.phase is ServerInfo
                &&& act matches Some(Action::RunGit { cmd, input })
                    && cmd == GitCmd::UpdateServerInfo && input@.len() == 0
            },
            Op::ReceivePack => post.phase is Objects && act == Some(Action::FetchObjects),
            Op::UploadPack => {
                if !valid_utf8(pre.body@) {
                    &&& post.phase matches Phase::Done { result }
                        && (result matches Err(e) && e@ is Malformed)
                    &&& act is None
                } else {
                    let wanted = spec_wanted_objects(decode_utf8(pre.body@));
                    if wanted.len() == 0 {
                        post.phase is Objects && act == Some(Action::FetchObjects)
                    } else {
                        &&& post.phase matches Phase::Wants { wants }
                            && wants@.map_values(|t: String| t@) == wanted
                        &&& act matches Some(Action::CheckExistence { hashes })
                            && hashes@.map_values(|t: String| t@) == wanted
                    }
                }
            },
        },
        (Phase::Wants { wants }, Event::ExistenceChecked { results }) => {
            if forall|i: int| 0 <= i < wants@.len()
                ==> i < results@.len() && (#[trigger] results@[i]) is Exists {
                post.phase is Objects && act == Some(Action::FetchObjects)
            } else {
                &&& post.phase matches Phase::Done { result } && (result matches Err(e)
                    && ((e@ matches ErrorV::NotOurRef { hash } && exists|j: int|
                        0 <= j < wants@.len() && hash == (#[trigger] wants@[j])@
                            && j < results@.len() && results@[j] is Absent)
                        || e@ is UpstreamUnavailable))
                &&& act is None
            }
        },
        (Phase::Objects, Event::ObjectsFetched { objects }) => {
            if exists|i: int| 0 <= i < objects@.len()
                && !valid_utf8((#[trigger] objects@[i])@.ipfs_url) {
                &&& post.phase matches Phase::Done { result }
                    && (result matches Err(e) && e@ is Malformed)
                &&& act is None
            } else if objects@.len() == 0 {
                &&& post.phase is Run
                &&& act matches Some(Action::RunGit { cmd, input })
                    && cmd == spec_rpc_cmd(pre.op) && input@ == pre.body@
            } else {
                &&& post.phase is Downloads
                &&& act matches Some(Action::DownloadObjects { jobs }) && ({
                    &&& jobs@.len() == objects@.len()
                    &&& forall|i: int| 0 <= i < objects@.len() ==> {
                        &&& (#[trigger] jobs@[i]).cid@ == decode_utf8(objects@[i]@.ipfs_url)
                        &&& jobs@[i].rel_path@ == spec_object_path(objects@[i]@.hash)
                    }
                })
            }
        },
        (Phase::Objects, Event::LedgerFailed { message }) => {
            &&& post.phase matches Phase::Done { result } && (result matches Err(e)
                && e@ matches ErrorV::UpstreamUnavailable { message: m } && m == message@)
            &&& act is None
        },
        (Phase::Downloads, Event::DownloadsDone) => {
            &&& post.phase is Run
            &&& act matches Some(Action::RunGit { cmd, input })
                && cmd == spec_rpc_cmd(pre.op) && input@ == pre.body@
        },
        (Phase::Downloads, Event::DownloadFailed) => {
            &&& post.phase matches Phase::Done { result }
                && (result matches Err(e) && e@ is DownloadFailed)
            &&& act is None
        },
        (Phase::ServerInfo, Event::GitDone { ok: _, stdout: _, stderr_text: _ }) => {
            match pre.op {
                Op::InfoRefs { upload } => {
                    &&& post.phase is Run
                    &&& act matches Some(Action::RunGit { cmd, input })
                        && cmd == (GitCmd::Advertise { upload }) && input@.len() == 0
                },
                _ => post.phase == pre.phase && act is None,
            }
        },
        (Phase::Run, Event::GitDone { ok, stdout, stderr_text }) => match pre.op {
            Op::InfoRefs { upload } => {
                if ok {
                    &&& post.phase matches Phase::Done { result } && (result matches Ok(b)
                        && b@ == vstd::utf8::encode_utf8(spec_advertisement_header(
                            spec_service_name(upload))) + stdout@)
                    &&& act is None
                } else {
                    &&& post.phase matches Phase::Done { result } && (result matches Err(e)
                        && e@ matches ErrorV::SubprocessFailed { message }
                        && message == "Failed to generate refs advertisement: "@ + stderr_text@)
                    &&& act is None
                }
            },
            Op::UploadPack => {
                if !ok && stdout@.len() == 0 {
                    &&& post.phase matches Phase::Done { result } && (result matches Err(e)
                        && e@ matches ErrorV::SubprocessFailed { message }
                        && message == "git upload-pack failed: "@ + stderr_text@)
                    &&& act is None
                } else {
                    &&& post.phase matches Phase::Done { result }
                        && (result matches Ok(b) && b@ == stdout@)
                    &&& act is None
                }
            },
            Op::ReceivePack => {
                if ok {
                    &&& post.phase matches Phase::Scan { response } && response@ == stdout@
                    &&& act == Some(Action::ScanTree)
                } else {
                    &&& post.phase matches Phase::Done { result } && (result matches Err(e)
                        && e@ matches ErrorV::SubprocessFailed { message }
                        && message == "git receive-pack failed: "@ + stderr_text@)
                    &&& act is None
                }
            },
        },
        (Phase::Scan { response }, Event::TreeScanned { objects, ref_files }) => {
            let n = objects@.len();
            if n == 0 {
                spec_refs_stage(
                    response@,
                    spec_snapshot_names(ref_files@),
                    spec_snapshot_targets(ref_files@),
                    post,
                    act,
                )
            } else {
                &&& post.phase matches Phase::ObjExist { response: r2, items, names, targets }
                    && ({
                        &&& r2@ == response@
                        &&& spec_harvested_items(objects@, items@)
                        &&& spec_harvested_refs(ref_files@, names@, targets@)
                    })
                &&& act matches Some(Action::CheckExistence { hashes }) && ({
                    &&& hashes@.len() == n
                    &&& forall|i: int| 0 <= i < n ==> (#[trigger] hashes@[i])@
                        == objects@[i].dir_name@ + objects@[i].file_name@
                })
            }
        },
        (Phase::ObjExist { response, items, names, targets },
            Event::ExistenceChecked { results }) => {
            let kept = spec_selected(items@, results@);
            if kept.len() == 0 {
                spec_refs_stage(
                    response@,
                    spec_str_views(names@),
                    spec_str_views(targets@),
                    post,
                    act,
                )
            } else {
                &&& post.phase matches Phase::Uploads { response: r2, hashes, names: n2,
                    targets: t2 } && ({
                        &&& r2@ == response@
                        &&& hashes@.len() == kept.len()
                        &&& forall|i: int| 0 <= i < kept.len()
                            ==> (#[trigger] hashes@[i])@ == kept[i].hash@
                        &&& spec_same_strings(n2@, names@)
                        &&& spec_same_strings(t2@, targets@)
                    })
                &&& act matches Some(Action::UploadObjects { items: sent }) && sent@ == kept
            }
        },
        (Phase::Uploads { response, hashes, names, targets }, Event::UploadsDone { cids }) => {
            &&& post.phase matches Phase::StoreObjects { response: r2, names: n2, targets: t2 }
                && r2@ == response@ && spec_same_strings(n2@, names@)
                && spec_same_strings(t2@, targets@)
            &&& act matches Some(Action::SubmitObjects { hashes: h2, locators })
                && spec_same_strings(h2@, hashes@) && spec_same_strings(locators@, cids@)
        },
        (Phase::Uploads { response, hashes, names, targets },
            Event::UploadFailed { message }) => {
            &&& post.phase matches Phase::Done { result } && (result matches Err(e)
                && e@ matches ErrorV::UploadFailed { message: m }
                && m == "Failed to upload object to IPFS: "@ + message@)
            &&& act is None
        },
        (Phase::StoreObjects { response, names, targets }, Event::LedgerWriteDone) => {
            spec_refs_stage(
                response@,
                spec_str_views(names@),
                spec_str_views(targets@),
                post,
                act,
            )
        },
        (Phase::StoreObjects { response, names, targets },
            Event::LedgerWriteFailed { error }) => {
            &&& post.phase matches Phase::Done { result } && (result matches Err(e)
                && e@ matches ErrorV::LedgerWriteFailed { message }
                && message == "Failed to store object hashes in blockchain: "@
                    + error.spec_message())
            &&& act is None
        },
        (Phase::StoreRefs { response, names }, Event::LedgerWriteDone) => {
            &&& post.phase matches Phase::Verify { response: r2, names: n2 }
                && r2@ == response@ && spec_same_strings(n2@, names@)
            &&& act == Some(Action::FetchRefs)
        },
        (Phase::StoreRefs { response, names }, Event::LedgerWriteFailed { error }) => {
            &&& post.phase matches Phase::Done { result } && (result matches Err(e)
                && e@ matches ErrorV::LedgerWriteFailed { message }
                && message == "Failed to store refs in blockchain: "@ + error.spec_message())
            &&& act is None
        },
        (Phase::Verify { response, names }, Event::RefsFetched { refs }) => {
            if forall|i: int| 0 <= i < names@.len()
                ==> spec_ref_observed((#[trigger] names@[i])@, spec_ref_views(refs@)) {
                &&& post.phase matches Phase::Done { result }
                    && (result matches Ok(b) && b@ == response@)
                &&& act is None
            } else {
                &&& post.phase matches Phase::Done { result } && (result matches Err(e)
                    && e@ matches ErrorV::VerificationFailed { name }
                    && !spec_ref_observed(name, spec_ref_views(refs@)))
                &&& act is None
            }
        },
        (Phase::Verify { response, names }, Event::LedgerFailed { message }) => {
            &&& post.phase matches Phase::Done { result } && (result matches Err(e)
                && e@ matches ErrorV::UpstreamUnavailable { message: m } && m == message@)
            &&& act is None
        },
        (p, _) => post.phase == p && act is None,
    }
}

/// The stateless-RPC command of an operation; advertisement operations never
/// reach a phase that uses it.
pub open spec fn spec_rpc_cmd(op: Op) -> GitCmd {
    match op {
        Op::UploadPack => GitCmd::UploadPackRpc,
        _ => GitCmd::ReceivePackRpc,
    }
}

/// The harvested items of the walked object entries: hash and loose path of
/// each walked file, in order.
pub open spec fn spec_harvested_items(entries: Seq<ObjEntry>, items: Seq<HarvestItem>) -> bool {
    &&& items.len() == entries.len()
    &&& forall|i: int| 0 <= i < entries.len() ==> {
        &&& (#[trigger] items[i]).hash@ == entries[i].dir_name@ + entries[i].file_name@
        &&& items[i].rel_path@ == "objects/"@ + entries[i].dir_name@ + "/"@
            + entries[i].file_name@
    }
}

/// The ref names a walked ref-file list spells, in order.
pub open spec fn spec_snapshot_names(files: Seq<RefSnapshot>) -> Seq<Seq<char>> {
    files.map_values(|f: RefSnapshot| f.rel_path@)
}

/// The ref targets a walked ref-file list spells, in order.
pub open spec fn spec_snapshot_targets(files: Seq<RefSnapshot>) -> Seq<Seq<char>> {
    files.map_values(|f: RefSnapshot| spec_trim(f.content@))
}

/// The harvested ref rows of the walked ref files: the relative path is the
/// name, the trimmed content is the target, in order.
pub open spec fn spec_harvested_refs(
    files: Seq<RefSnapshot>,
    names: Seq<String>,
    targets: Seq<String>,
) -> bool {
    &&& names.len() == files.len()
    &&& targets.len() == files.len()
    &&& forall|i: int| 0 <= i < files.len() ==> (#[trigger] names[i])@ == files[i].rel_path@
    &&& forall|i: int| 0 <= i < files.len() ==> (#[trigger] targets[i])@ == spec_trim(
        files[i].content@,
    )
}

impl Session {
    /// Starts a ref advertisement request. A service other than the two pack
    /// services is refused at once, before any lookup or scratch work.
    pub fn new_info_refs(repo: String, service: &str) -> (r: (Session, Option<Action>))
        ensures
            r.0.repo@ == repo@,
            crate::pktline::spec_known_service(service@) ==> ({
                &&& r.0.op == (Op::InfoRefs { upload: service@ == "git-upload-pack"@ })
                &&& r.0.phase is Lookup
                &&& r.1 == Some(Action::LookupRepo)
            }),
            !crate::pktline::spec_known_service(service@) ==> ({
                &&& r.0.phase matches Phase::Done { result } && (result matches Err(e)
                    && e@ matches ErrorV::UnknownService { service: s } && s == service@)
                &&& r.1 is None
            }),
    {
        match crate::pktline::classify_service(service) {
            Ok(upload) => (
                Session {
                    op: Op::InfoRefs { upload },
                    repo,
                    body: Vec::new(),
                    phase: Phase::Lookup,
                },
                Some(Action::LookupRepo),
            ),
            Err(e) => (
                Session {
                    op: Op::InfoRefs { upload: false },
                    repo,
                    body: Vec::new(),
                    phase: Phase::Done { result: Err(e) },
                },
                None,
            ),
        }
    }

    /// Starts a fetch/clone negotiation request.
    pub fn new_upload_pack(repo: String, body: Vec<u8>) -> (r: (Session, Option<Action>))
        ensures
            r.0.op is UploadPack,
            r.0.repo@ == repo@,
            r.0.body@ == body@,
            r.0.phase is Lookup,
            r.1 == Some(Action::LookupRepo),
    {
        (Session { op: Op::UploadPack, repo, body, phase: Phase::Lookup },
            Some(Action::LookupRepo))
    }

    /// Starts a push request.
    pub fn new_receive_pack(repo: String, body: Vec<u8>) -> (r: (Session, Option<Action>))
        ensures
            r.0.op is ReceivePack,
            r.0.repo@ == repo@,
            r.0.body@ == body@,
            r.0.phase is Lookup,
            r.1 == Some(Action::LookupRepo),
    {
        (Session { op: Op::ReceivePack, repo, body, phase: Phase::Lookup },
            Some(Action::LookupRepo))
    }

    /// One decision of the request: consumes the observation of the last
    /// command and yields the next state and, unless the request is over,
    /// the next command.
    pub fn step(self, ev: Event) -> (r: (Session, Option<Action>))
        ensures
            spec_step(self, ev, r.0, r.1),
    {
        let Session { op, repo, body, phase } = self;
        match (phase, ev) {
            (Phase::Lookup, Event::RepoLookup { found }) => {
                if found {
                    (
                        Session { op, repo, body, phase: Phase::Init },
                        Some(Action::RunGit { cmd: GitCmd::InitBare, input: Vec::new() }),
                    )
                } else {
                    (
                        Session {
                            op, repo, body,
                            phase: Phase::Done { result: Err(Error::NotFound) },
                        },
                        None,
                    )
                }
            },
            (Phase::Init, Event::GitDone { ok, stdout: _, stderr_text }) => {
                if ok {
                    (Session { op, repo, body, phase: Phase::Refs }, Some(Action::FetchRefs))
                } else {
                    let mut message = "Failed to initialize git repo: ".to_owned();
                    message.append(stderr_text.as_str());
                    (
                        Session {
                            op, repo, body,
                            phase: Phase::Done {
                                result: Err(Error::SubprocessFailed { message }),
                            },
                        },
                        None,
                    )
                }
            },
            (Phase::Refs, Event::RefsFetched { refs }) => {
                if matches!(op, Op::UploadPack) && refs.len() == 0 {
                    (
                        Session {
                            op, repo, body,
                            phase: Phase::Done { result: Err(Error::EmptyRepository) },
                        },
                        None,
                    )
                } else {
                    match materialize_refs(&refs) {
                        Ok(files) => (
                            Session { op, repo, body, phase: Phase::Materialize },
                            Some(Action::Materialize { files }),
                        ),
                        Err(e) => (
                            Session { op, repo, body, phase: Phase::Done { result: Err(e) } },
                            None,
                        ),
                    }
                }
            },
            (Phase::Refs, Event::LedgerFailed { message }) => (
                Session {
                    op, repo, body,
                    phase: Phase::Done {
                        result: Err(Error::UpstreamUnavailable { message }),
                    },
                },
                None,
            ),
            (Phase::Materialize, Event::MaterializeDone) => match op {
                Op::InfoRefs { upload: _ } => (
                    Session { op, repo, body, phase: Phase::ServerInfo },
                    Some(Action::RunGit { cmd: GitCmd::UpdateServerInfo, input: Vec::new() }),
                ),
                Op::ReceivePack => (
                    Session { op, repo, body, phase: Phase::Objects },
                    Some(Action::FetchObjects),
                ),
                Op::UploadPack => {
                    match parse_wanted_objects(body.as_slice()) {
                        Err(e) => (
                            Session { op, repo, body, phase: Phase::Done { result: Err(e) } },
                            None,
                        ),
                        Ok(wants) => {
                            if wants.len() == 0 {
                                (
                                    Session { op, repo, body, phase: Phase::Objects },
                                    Some(Action::FetchObjects),
                                )
                            } else {
                                let hashes = clone_strings(&wants);
                                proof {
                                    assert(hashes@.map_values(|t: String| t@)
                                        =~= wants@.map_values(|t: String| t@));
                                }
                                (
                                    Session { op, repo, body, phase: Phase::Wants { wants } },
                                    Some(Action::CheckExistence { hashes }),
                                )
                            }
                        },
                    }
                },
            },
            (Phase::Wants { wants }, Event::ExistenceChecked { results }) => {
                match check_wants(&wants, &results) {
                    Ok(()) => (
                        Session { op, repo, body, phase: Phase::Objects },
                        Some(Action::FetchObjects),
                    ),
                    Err(e) => (
                        Session { op, repo, body, phase: Phase::Done { result: Err(e) } },
                        None,
                    ),
                }
            },
            (Phase::Objects, Event::ObjectsFetched { objects }) => {
                match plan_downloads(&objects) {
                    Err(e) => (
                        Session { op, repo, body, phase: Phase::Done { result: Err(e) } },
                        None,
                    ),
                    Ok(jobs) => {
                        if jobs.len() == 0 {
                            let input = copy_bytes(&body);
                            let cmd = rpc_cmd(op);
                            (
                                Session { op, repo, body, phase: Phase::Run },
                                Some(Action::RunGit { cmd, input }),
                            )
                        } else {
                            (
                                Session { op, repo, body, phase: Phase::Downloads },
                                Some(Action::DownloadObjects { jobs }),
                            )
                        }
                    },
                }
            },
            (Phase::Objects, Event::LedgerFailed { message }) => (
                Session {
                    op, repo, body,
                    phase: Phase::Done {
                        result: Err(Error::UpstreamUnavailable { message }),
                    },
                },
                None,
            ),
            (Phase::Downloads, Event::DownloadsDone) => {
                let input = copy_bytes(&body);
                let cmd = rpc_cmd(op);
                (Session { op, repo, body, phase: Phase::Run },
                    Some(Action::RunGit { cmd, input }))
            },
            (Phase::Downloads, Event::DownloadFailed) => (
                Session {
                    op, repo, body,
                    phase: Phase::Done { result: Err(Error::DownloadFailed) },
                },
                None,
            ),
            (Phase::ServerInfo, Event::GitDone { ok: _, stdout: _, stderr_text: _ }) => {
                match op {
                    Op::InfoRefs { upload } => (
                        Session { op, repo, body, phase: Phase::Run },
                        Some(Action::RunGit {
                            cmd: GitCmd::Advertise { upload },
                            input: Vec::new(),
                        }),
                    ),
                    _ => (Session { op, repo, body, phase: Phase::ServerInfo }, None),
                }
            },
            (Phase::Run, Event::GitDone { ok, stdout, stderr_text }) => match op {
                Op::InfoRefs { upload } => {
                    if ok {
                        let framed = frame_advertisement(service_str(upload), &stdout);
                        (
                            Session {
                                op, repo, body,
                                phase: Phase::Done { result: Ok(framed) },
                            },
                            None,
                        )
                    } else {
                        let mut message = "Failed to generate refs advertisement: ".to_owned();
                        message.append(stderr_text.as_str());
                        (
                            Session {
                                op, repo, body,
                                phase: Phase::Done {
                                    result: Err(Error::SubprocessFailed { message }),
                                },
                            },
                            None,
                        )
                    }
                },
                Op::UploadPack => {
                    if !ok && stdout.len() == 0 {
                        let mut message = "git upload-pack failed: ".to_owned();
                        message.append(stderr_text.as_str());
                        (
                            Session {
                                op, repo, body,
                                phase: Phase::Done {
                                    result: Err(Error::SubprocessFailed { message }),
                                },
                            },
                            None,
                        )
                    } else {
                        (
                            Session {
                                op, repo, body,
                                phase: Phase::Done { result: Ok(stdout) },
                            },
                            None,
                        )
                    }
                },
                Op::ReceivePack => {
                    if ok {
                        (
                            Session {
                                op, repo, body,
                                phase: Phase::Scan { response: stdout },
                            },
                            Some(Action::ScanTree),
                        )
                    } else {
                        let mut message = "git receive-pack failed: ".to_owned();
                        message.append(stderr_text.as_str());
                        (
                            Session {
                                op, repo, body,
                                phase: Phase::Done {
                                    result: Err(Error::SubprocessFailed { message }),
                                },
                            },
                            None,
                        )
                    }
                },
            },
            (Phase::Scan { response }, Event::TreeScanned { objects, ref_files }) => {
                let items = harvest_items(&objects);
                let (names, targets) = harvest_refs(&ref_files);
                proof {
                    assert(spec_str_views(names@) =~= spec_snapshot_names(ref_files@));
                    assert(spec_str_views(targets@) =~= spec_snapshot_targets(ref_files@));
                }
                if items.len() == 0 {
                    refs_stage(op, repo, body, response, names, targets)
                } else {
                    let hashes = hash_list(&items);
                    (
                        Session {
                            op, repo, body,
                            phase: Phase::ObjExist { response, items, names, targets },
                        },
                        Some(Action::CheckExistence { hashes }),
                    )
                }
            },
            (Phase::ObjExist { response, items, names, targets },
                Event::ExistenceChecked { results }) => {
                let kept = select_new_objects(&items, &results);
                if kept.len() == 0 {
                    refs_stage(op, repo, body, response, names, targets)
                } else {
                    let hashes = hash_list(&kept);
                    (
                        Session {
                            op, repo, body,
                            phase: Phase::Uploads { response, hashes, names, targets },
                        },
                        Some(Action::UploadObjects { items: kept }),
                    )
                }
            },
            (Phase::Uploads { response, hashes, names, targets },
                Event::UploadsDone { cids }) => {
                let submitted = clone_strings(&hashes);
                (
                    Session {
                        op, repo, body,
                        phase: Phase::StoreObjects { response, names, targets },
                    },
                    Some(Action::SubmitObjects { hashes: submitted, locators: cids }),
                )
            },
            (Phase::Uploads { response: _, hashes: _, names: _, targets: _ },
                Event::UploadFailed { message }) => {
                let mut text = "Failed to upload object to IPFS: ".to_owned();
                text.append(message.as_str());
                (
                    Session {
                        op, repo, body,
                        phase: Phase::Done {
                            result: Err(Error::UploadFailed { message: text }),
                        },
                    },
                    None,
                )
            },
            (Phase::StoreObjects { response, names, targets }, Event::LedgerWriteDone) => {
                refs_stage(op, repo, body, response, names, targets)
            },
            (Phase::StoreObjects { response: _, names: _, targets: _ },
                Event::LedgerWriteFailed { error }) => {
                let mut text = "Failed to store object hashes in blockchain: ".to_owned();
                let detail = error.message();
                text.append(detail.as_str());
                (
                    Session {
                        op, repo, body,
                        phase: Phase::Done {
                            result: Err(Error::LedgerWriteFailed { message: text }),
                        },
                    },
                    None,
                )
            },
            (Phase::StoreRefs { response, names }, Event::LedgerWriteDone) => (
                Session { op, repo, body, phase: Phase::Verify { response, names } },
                Some(Action::FetchRefs),
            ),
            (Phase::StoreRefs { response: _, names: _ }, Event::LedgerWriteFailed { error }) => {
                let mut text = "Failed to store refs in blockchain: ".to_owned();
                let detail = error.message();
                text.append(detail.as_str());
                (
                    Session {
                        op, repo, body,
                        phase: Phase::Done {
                            result: Err(Error::LedgerWriteFailed { message: text }),
                        },
                    },
                    None,
                )
            },
            (Phase::Verify { response, names }, Event::RefsFetched { refs }) => {
                match verify_refs_stored(&names, &refs) {
                    Ok(()) => (
                        Session {
                            op, repo, body,
                            phase: Phase::Done { result: Ok(response) },
                        },
                        None,
                    ),
                    Err(e) => (
                        Session { op, repo, body, phase: Phase::Done { result: Err(e) } },
                        None,
                    ),
                }
            },
            (Phase::Verify { response: _, names: _ }, Event::LedgerFailed { message }) => (
                Session {
                    op, repo, body,
                    phase: Phase::Done {
                        result: Err(Error::UpstreamUnavailable { message }),
                    },
                },
                None,
            ),
            (p, _) => (Session { op, repo, body, phase: p }, None),
        }
    }
}

/// The executable's RPC mode of an operation.
fn rpc_cmd(op: Op) -> (r: GitCmd)
    ensures
        r == spec_rpc_cmd(op),
{
    match op {
        Op::UploadPack => GitCmd::UploadPackRpc,
        _ => GitCmd::ReceivePackRpc,
    }
}

/// A requested hash the ledger does not hold ends the request at the wants
/// gate: the session is over with an error and nothing further — in
/// particular no Git invocation — is commanded.
pub proof fn lemma_missing_want_never_spawns(
    pre: Session,
    wants: Vec<String>,
    results: Vec<Lookup>,
    post: Session,
    act: Option<Action>,
    j: int,
)
    requires
        pre.phase == (Phase::Wants { wants }),
        0 <= j < wants@.len(),
        !(j < results@.len() && results@[j] is Exists),
        spec_step(pre, Event::ExistenceChecked { results }, post, act),
    ensures
        post.phase matches Phase::Done { result } && result is Err,
        act is None,
{
}

/// The pack subprocess is commanded only after every gate of its operation
/// has passed: a single step emits the stateless-RPC command only out of the
/// object-fetch or download phases, which upload-pack reaches only through
/// the wants gate.
pub proof fn lemma_rpc_only_after_gates(pre: Session, ev: Event, post: Session, act: Option<
    Action,
>)
    requires
        spec_step(pre, ev, post, act),
        act matches Some(Action::RunGit { cmd, input: _ })
            && (cmd is UploadPackRpc || cmd is ReceivePackRpc),
    ensures
        pre.phase is Objects || pre.phase is Downloads,
{
}

/// For a fetch/clone request, the object-fetch phase — the only way toward
/// the pack subprocess — is entered through the wants gate alone: either
/// every requested hash was positively present, or the body requested
/// nothing at all.
pub proof fn lemma_upload_objects_only_after_wants(
    pre: Session,
    ev: Event,
    post: Session,
    act: Option<Action>,
)
    requires
        spec_step(pre, ev, post, act),
        pre.op is UploadPack,
        post.phase is Objects,
        !(pre.phase is Objects),
    ensures
        (pre.phase matches Phase::Wants { wants } && ev matches Event::ExistenceChecked {
            results } && forall|i: int| 0 <= i < wants@.len()
                ==> i < results@.len() && (#[trigger] results@[i]) is Exists)
        || (pre.phase is Materialize && valid_utf8(pre.body@)
            && spec_wanted_objects(decode_utf8(pre.body@)).len() == 0),
{
}

/// A ref set with an invalid active ref is rejected while materializing,
/// before any further command: the request ends with a `Malformed` error and
/// no subprocess, write or download is ever commanded from that step.
pub proof fn lemma_malformed_ref_rejected(
    pre: Session,
    refs: Vec<Ref>,
    post: Session,
    act: Option<Action>,
)
    requires
        pre.phase is Refs,
        !spec_active_refs_ok(spec_ref_views(refs@)),
        !(pre.op is UploadPack && refs@.len() == 0),
        spec_step(pre, Event::RefsFetched { refs }, post, act),
    ensures
        post.phase matches Phase::Done { result } && (result matches Err(e) && e@ is Malformed),
        act is None,
{
}

/// A push is reported successful only when, after its ref write, every
/// submitted ref name was observed present and active in a fresh ledger
/// read; a name that cannot be observed fails the request.
pub proof fn lemma_push_success_requires_verification(
    pre: Session,
    refs: Vec<Ref>,
    post: Session,
    act: Option<Action>,
    response: Vec<u8>,
    names: Vec<String>,
)
    requires
        pre.phase == (Phase::Verify { response, names }),
        spec_step(pre, Event::RefsFetched { refs }, post, act),
        post.phase matches Phase::Done { result } && result is Ok,
    ensures
        forall|i: int| 0 <= i < names@.len()
            ==> spec_ref_observed((#[trigger] names@[i])@, spec_ref_views(refs@)),
{
    assert(pre.phase matches Phase::Verify { response: r0, names: n0 }
        && n0 == names && r0 == response);
    if !(forall|i: int| 0 <= i < names@.len()
        ==> spec_ref_observed((#[trigger] names@[i])@, spec_ref_views(refs@))) {
        assert(post.phase matches Phase::Done { result } && result is Err);
        assert(false);
    }
}

} // verus!
