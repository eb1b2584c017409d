use dgit::ledger::Ref;
use dgit::objects::{Lookup, ObjEntry};
use dgit::session::{Action, Event, GitCmd, Phase, RefSnapshot, Session};

const TARGET: &str = "0123456789abcdef0123456789abcdef01234567";
const ZEROS: &str = "0000000000000000000000000000000000000000";

fn main_ref() -> Ref {
    Ref {
        name: "refs/heads/main".to_string(),
        data: TARGET.as_bytes().to_vec(),
        is_active: true,
        pusher: vec![0u8; 20],
    }
}

fn git_ok(stdout: &[u8]) -> Event {
    Event::GitDone { ok: true, stdout: stdout.to_vec(), stderr_text: String::new() }
}

fn done_err(session: &Session) -> &dgit::Error {
    match &session.phase {
        Phase::Done { result: Err(e) } => e,
        other => panic!("expected a failed session, got {:?}", other),
    }
}

fn done_ok(session: &Session) -> &Vec<u8> {
    match &session.phase {
        Phase::Done { result: Ok(b) } => b,
        other => panic!("expected a finished session, got {:?}", other),
    }
}

#[test]
fn unknown_repository_fails_lookup() {
    let (s, a) = Session::new_upload_pack("ghost".to_string(), b"0000".to_vec());
    assert!(matches!(a, Some(Action::LookupRepo)));
    let (s, a) = s.step(Event::RepoLookup { found: false });
    assert!(a.is_none());
    assert_eq!(done_err(&s).message(), "Repository not found");
}

#[test]
fn unknown_service_fails_before_lookup() {
    let (s, a) = Session::new_info_refs("demo".to_string(), "git-frobnicate");
    assert!(a.is_none());
    assert_eq!(done_err(&s).message(), "Unknown service: git-frobnicate");
}

#[test]
fn advertisement_on_zero_refs_still_frames_header_and_flush() {
    let (s, _) = Session::new_info_refs("demo".to_string(), "git-upload-pack");
    let (s, a) = s.step(Event::RepoLookup { found: true });
    assert!(matches!(a, Some(Action::RunGit { cmd: GitCmd::InitBare, .. })));
    let (s, a) = s.step(git_ok(b""));
    assert!(matches!(a, Some(Action::FetchRefs)));
    let (s, a) = s.step(Event::RefsFetched { refs: Vec::new() });
    match a {
        Some(Action::Materialize { files }) => assert!(files.is_empty()),
        other => panic!("expected materialization, got {:?}", other),
    }
    let (s, a) = s.step(Event::MaterializeDone);
    assert!(matches!(a, Some(Action::RunGit { cmd: GitCmd::UpdateServerInfo, .. })));
    let (s, a) = s.step(git_ok(b""));
    assert!(matches!(a, Some(Action::RunGit { cmd: GitCmd::Advertise { upload: true }, .. })));
    let (s, a) = s.step(git_ok(b"00000000"));
    assert!(a.is_none());
    let mut expected = b"001e# service=git-upload-pack\n0000".to_vec();
    expected.extend_from_slice(b"00000000");
    assert_eq!(done_ok(&s), &expected);
}

#[test]
fn advertisement_survives_failed_update_server_info() {
    let (s, _) = Session::new_info_refs("demo".to_string(), "git-receive-pack");
    let (s, _) = s.step(Event::RepoLookup { found: true });
    let (s, _) = s.step(git_ok(b""));
    let (s, _) = s.step(Event::RefsFetched { refs: vec![main_ref()] });
    let (s, _) = s.step(Event::MaterializeDone);
    let (s, a) = s.step(Event::GitDone {
        ok: false,
        stdout: Vec::new(),
        stderr_text: "no dumb protocol".to_string(),
    });
    assert!(matches!(a, Some(Action::RunGit { cmd: GitCmd::Advertise { upload: false }, .. })));
    let (s, _) = s.step(git_ok(b"adv"));
    assert!(done_ok(&s).ends_with(b"adv"));
}

#[test]
fn upload_pack_on_empty_repository_is_refused() {
    let (s, _) = Session::new_upload_pack("demo".to_string(), b"0000".to_vec());
    let (s, _) = s.step(Event::RepoLookup { found: true });
    let (s, _) = s.step(git_ok(b""));
    let (s, a) = s.step(Event::RefsFetched { refs: Vec::new() });
    assert!(a.is_none());
    assert_eq!(done_err(&s).message(), "Repository has no refs");
}

#[test]
fn malformed_ref_aborts_before_any_further_command() {
    let (s, _) = Session::new_upload_pack("demo".to_string(), b"0000".to_vec());
    let (s, _) = s.step(Event::RepoLookup { found: true });
    let (s, _) = s.step(git_ok(b""));
    let bad = Ref {
        name: "refs/heads/main".to_string(),
        data: b"too short".to_vec(),
        is_active: true,
        pusher: vec![0u8; 20],
    };
    let (s, a) = s.step(Event::RefsFetched { refs: vec![bad] });
    assert!(a.is_none());
    assert!(matches!(done_err(&s), dgit::Error::Malformed { .. }));
}

#[test]
fn missing_want_fails_and_never_spawns_the_executable() {
    let body = format!("0032want {}\n0000", ZEROS).into_bytes();
    let (s, _) = Session::new_upload_pack("demo".to_string(), body);
    let (s, _) = s.step(Event::RepoLookup { found: true });
    let (s, _) = s.step(git_ok(b""));
    let (s, _) = s.step(Event::RefsFetched { refs: vec![main_ref()] });
    let (s, a) = s.step(Event::MaterializeDone);
    match a {
        Some(Action::CheckExistence { hashes }) => assert_eq!(hashes, vec![ZEROS.to_string()]),
        other => panic!("expected an existence check, got {:?}", other),
    }
    let (s, a) = s.step(Event::ExistenceChecked { results: vec![Lookup::Absent] });
    assert!(a.is_none());
    assert_eq!(
        done_err(&s).message(),
        format!("upload-pack: not our ref {}", ZEROS)
    );
}

#[test]
fn upload_pack_happy_path_streams_body_and_returns_stdout() {
    let body = format!("0032want {}\n0000", TARGET).into_bytes();
    let (s, _) = Session::new_upload_pack("demo".to_string(), body.clone());
    let (s, _) = s.step(Event::RepoLookup { found: true });
    let (s, _) = s.step(git_ok(b""));
    let (s, _) = s.step(Event::RefsFetched { refs: vec![main_ref()] });
    let (s, _) = s.step(Event::MaterializeDone);
    let (s, a) = s.step(Event::ExistenceChecked { results: vec![Lookup::Exists] });
    assert!(matches!(a, Some(Action::FetchObjects)));
    let object = dgit::ledger::Object {
        hash: TARGET.to_string(),
        ipfs_url: b"QmLocator".to_vec(),
        pusher: vec![0u8; 20],
    };
    let (s, a) = s.step(Event::ObjectsFetched { objects: vec![object] });
    match a {
        Some(Action::DownloadObjects { jobs }) => {
            assert_eq!(jobs.len(), 1);
            assert_eq!(jobs[0].cid, "QmLocator");
            assert_eq!(jobs[0].rel_path, format!("objects/01/{}", &TARGET[2..]));
        },
        other => panic!("expected downloads, got {:?}", other),
    }
    let (s, a) = s.step(Event::DownloadsDone);
    match a {
        Some(Action::RunGit { cmd, input }) => {
            assert!(matches!(cmd, GitCmd::UploadPackRpc));
            assert_eq!(input, body);
        },
        other => panic!("expected the executable, got {:?}", other),
    }
    let (s, a) = s.step(git_ok(b"PACKDATA"));
    assert!(a.is_none());
    assert_eq!(done_ok(&s), &b"PACKDATA".to_vec());
}

#[test]
fn upload_pack_partial_output_survives_nonzero_exit() {
    let (s, _) = Session::new_upload_pack("demo".to_string(), b"0000".to_vec());
    let (s, _) = s.step(Event::RepoLookup { found: true });
    let (s, _) = s.step(git_ok(b""));
    let (s, _) = s.step(Event::RefsFetched { refs: vec![main_ref()] });
    let (s, _) = s.step(Event::MaterializeDone);
    let (s, _) = s.step(Event::ObjectsFetched { objects: Vec::new() });
    let (s, a) = s.step(Event::GitDone {
        ok: false,
        stdout: b"partial".to_vec(),
        stderr_text: "negotiation hiccup".to_string(),
    });
    assert!(a.is_none());
    assert_eq!(done_ok(&s), &b"partial".to_vec());

    let (s2, _) = Session::new_upload_pack("demo".to_string(), b"0000".to_vec());
    let (s2, _) = s2.step(Event::RepoLookup { found: true });
    let (s2, _) = s2.step(git_ok(b""));
    let (s2, _) = s2.step(Event::RefsFetched { refs: vec![main_ref()] });
    let (s2, _) = s2.step(Event::MaterializeDone);
    let (s2, _) = s2.step(Event::ObjectsFetched { objects: Vec::new() });
    let (s2, _) = s2.step(Event::GitDone {
        ok: false,
        stdout: Vec::new(),
        stderr_text: "fatal".to_string(),
    });
    assert_eq!(done_err(&s2).message(), "git upload-pack failed: fatal");
}

#[test]
fn receive_pack_persists_harvest_and_verifies_refs() {
    let body = b"push-data".to_vec();
    let (s, _) = Session::new_receive_pack("demo".to_string(), body.clone());
    let (s, _) = s.step(Event::RepoLookup { found: true });
    let (s, _) = s.step(git_ok(b""));
    let (s, _) = s.step(Event::RefsFetched { refs: Vec::new() });
    let (s, a) = s.step(Event::MaterializeDone);
    assert!(matches!(a, Some(Action::FetchObjects)));
    let (s, a) = s.step(Event::ObjectsFetched { objects: Vec::new() });
    match a {
        Some(Action::RunGit { cmd, input }) => {
            assert!(matches!(cmd, GitCmd::ReceivePackRpc));
            assert_eq!(input, body);
        },
        other => panic!("expected the executable, got {:?}", other),
    }
    let (s, a) = s.step(git_ok(b"unpack ok"));
    assert!(matches!(a, Some(Action::ScanTree)));
    let entry = ObjEntry { dir_name: "01".to_string(), file_name: TARGET[2..].to_string() };
    let snapshot = RefSnapshot {
        rel_path: "refs/heads/main".to_string(),
        content: format!("{}\n", TARGET),
    };
    let (s, a) = s.step(Event::TreeScanned {
        objects: vec![entry],
        ref_files: vec![snapshot],
    });
    match a {
        Some(Action::CheckExistence { hashes }) => assert_eq!(hashes, vec![TARGET.to_string()]),
        other => panic!("expected an existence check, got {:?}", other),
    }
    let (s, a) = s.step(Event::ExistenceChecked { results: vec![Lookup::Absent] });
    match a {
        Some(Action::UploadObjects { items }) => {
            assert_eq!(items.len(), 1);
            assert_eq!(items[0].rel_path, format!("objects/01/{}", &TARGET[2..]));
        },
        other => panic!("expected uploads, got {:?}", other),
    }
    let (s, a) = s.step(Event::UploadsDone { cids: vec!["QmNew".to_string()] });
    match a {
        Some(Action::SubmitObjects { hashes, locators }) => {
            assert_eq!(hashes, vec![TARGET.to_string()]);
            assert_eq!(locators, vec!["QmNew".to_string()]);
        },
        other => panic!("expected an object write, got {:?}", other),
    }
    let (s, a) = s.step(Event::LedgerWriteDone);
    match a {
        Some(Action::SubmitRefs { names, targets }) => {
            assert_eq!(names, vec!["refs/heads/main".to_string()]);
            assert_eq!(targets, vec![TARGET.to_string()]);
        },
        other => panic!("expected a ref write, got {:?}", other),
    }
    let (s, a) = s.step(Event::LedgerWriteDone);
    assert!(matches!(a, Some(Action::FetchRefs)));
    let (s, a) = s.step(Event::RefsFetched { refs: vec![main_ref()] });
    assert!(a.is_none());
    assert_eq!(done_ok(&s), &b"unpack ok".to_vec());
}

#[test]
fn receive_pack_fails_when_the_ref_write_cannot_be_verified() {
    let (s, _) = Session::new_receive_pack("demo".to_string(), b"p".to_vec());
    let (s, _) = s.step(Event::RepoLookup { found: true });
    let (s, _) = s.step(git_ok(b""));
    let (s, _) = s.step(Event::RefsFetched { refs: Vec::new() });
    let (s, _) = s.step(Event::MaterializeDone);
    let (s, _) = s.step(Event::ObjectsFetched { objects: Vec::new() });
    let (s, _) = s.step(git_ok(b"unpack ok"));
    let snapshot = RefSnapshot {
        rel_path: "refs/heads/main".to_string(),
        content: format!("{}\n", TARGET),
    };
    let (s, _) = s.step(Event::TreeScanned { objects: Vec::new(), ref_files: vec![snapshot] });
    let (s, _) = s.step(Event::LedgerWriteDone);
    let (s, a) = s.step(Event::RefsFetched { refs: Vec::new() });
    assert!(a.is_none());
    assert_eq!(
        done_err(&s).message(),
        "Failed to verify ref was stored in blockchain: refs/heads/main"
    );
}

#[test]
fn receive_pack_nonzero_exit_is_fatal() {
    let (s, _) = Session::new_receive_pack("demo".to_string(), b"p".to_vec());
    let (s, _) = s.step(Event::RepoLookup { found: true });
    let (s, _) = s.step(git_ok(b""));
    let (s, _) = s.step(Event::RefsFetched { refs: Vec::new() });
    let (s, _) = s.step(Event::MaterializeDone);
    let (s, _) = s.step(Event::ObjectsFetched { objects: Vec::new() });
    let (s, a) = s.step(Event::GitDone {
        ok: false,
        stdout: b"some output".to_vec(),
        stderr_text: "unpack error".to_string(),
    });
    assert!(a.is_none());
    assert_eq!(done_err(&s).message(), "git receive-pack failed: unpack error");
}

#[test]
fn push_with_nothing_new_responds_without_writes() {
    let (s, _) = Session::new_receive_pack("demo".to_string(), b"p".to_vec());
    let (s, _) = s.step(Event::RepoLookup { found: true });
    let (s, _) = s.step(git_ok(b""));
    let (s, _) = s.step(Event::RefsFetched { refs: Vec::new() });
    let (s, _) = s.step(Event::MaterializeDone);
    let (s, _) = s.step(Event::ObjectsFetched { objects: Vec::new() });
    let (s, _) = s.step(git_ok(b"up to date"));
    let (s, a) = s.step(Event::TreeScanned { objects: Vec::new(), ref_files: Vec::new() });
    assert!(a.is_none());
    assert_eq!(done_ok(&s), &b"up to date".to_vec());
}

#[test]
fn push_skips_objects_the_ledger_already_holds() {
    let (s, _) = Session::new_receive_pack("demo".to_string(), b"p".to_vec());
    let (s, _) = s.step(Event::RepoLookup { found: true });
    let (s, _) = s.step(git_ok(b""));
    let (s, _) = s.step(Event::RefsFetched { refs: Vec::new() });
    let (s, _) = s.step(Event::MaterializeDone);
    let (s, _) = s.step(Event::ObjectsFetched { objects: Vec::new() });
    let (s, _) = s.step(git_ok(b"ok"));
    let entry = ObjEntry { dir_name: "01".to_string(), file_name: TARGET[2..].to_string() };
    let (s, _) = s.step(Event::TreeScanned { objects: vec![entry], ref_files: Vec::new() });
    let (s, a) = s.step(Event::ExistenceChecked { results: vec![Lookup::Exists] });
    assert!(a.is_none());
    assert_eq!(done_ok(&s), &b"ok".to_vec());
}

#[test]
fn download_failure_fails_the_request() {
    let (s, _) = Session::new_receive_pack("demo".to_string(), b"p".to_vec());
    let (s, _) = s.step(Event::RepoLookup { found: true });
    let (s, _) = s.step(git_ok(b""));
    let (s, _) = s.step(Event::RefsFetched { refs: Vec::new() });
    let (s, _) = s.step(Event::MaterializeDone);
    let object = dgit::ledger::Object {
        hash: TARGET.to_string(),
        ipfs_url: b"QmGone".to_vec(),
        pusher: vec![0u8; 20],
    };
    let (s, _) = s.step(Event::ObjectsFetched { objects: vec![object] });
    let (s, a) = s.step(Event::DownloadFailed);
    assert!(a.is_none());
    assert_eq!(done_err(&s).message(), "Failed to download from IPFS after all attempts");
}

#[test]
fn a_stray_event_changes_nothing() {
    let (s, _) = Session::new_upload_pack("demo".to_string(), b"0000".to_vec());
    let (s, a) = s.step(Event::MaterializeDone);
    assert!(a.is_none());
    assert!(matches!(s.phase, Phase::Lookup));
    let (s, a) = s.step(Event::RepoLookup { found: true });
    assert!(matches!(a, Some(Action::RunGit { cmd: GitCmd::InitBare, .. })));
    assert!(matches!(s.phase, Phase::Init));
}

#[test]
fn ledger_read_failure_is_surfaced() {
    let (s, _) = Session::new_receive_pack("demo".to_string(), b"p".to_vec());
    let (s, _) = s.step(Event::RepoLookup { found: true });
    let (s, _) = s.step(git_ok(b""));
    let (s, a) = s.step(Event::LedgerFailed { message: "rpc timeout".to_string() });
    assert!(a.is_none());
    assert_eq!(done_err(&s).message(), "rpc timeout");
}
