use stream_gears::chunk::ChunkScheduler;
use stream_gears::chunk::VideoFile;
use stream_gears::chunk::pre_upload_check;
use stream_gears::chunk::reassemble;
use stream_gears::chunk::split_into_chunks;
use stream_gears::errors::AuthError;
use stream_gears::errors::FlowError;
use stream_gears::flow::UploadFlow;
use stream_gears::line::ProbeSample;
use stream_gears::line::UploadLine;
use stream_gears::session::Session;
use stream_gears::session::auth_outcome_with_context;
use stream_gears::studio::PyCredit;
use stream_gears::studio::StudioPre;
use stream_gears::studio::SubmitResponse;
use stream_gears::studio::UploadedVideoPart;

fn one_file_pre() -> StudioPre {
    StudioPre {
        video_path: vec![String::from("movie.mp4")],
        cookie_file: String::from("cookies.json"),
        line: None,
        limit: 3,
        title: String::from("ten megabytes"),
        tid: 171,
        tag: String::from(""),
        copyright: 2,
        source: String::from(""),
        desc: String::from(""),
        dynamic: String::from(""),
        cover: String::from(""),
        dtime: None,
        dolby: 0,
        lossless_music: 0,
        no_reprint: 0,
        open_elec: 0,
        up_close_reply: false,
        up_selection_reply: false,
        up_close_danmu: false,
        desc_v2_credit: Vec::<PyCredit>::new(),
    }
}

/// Authenticate, upload one 10 MB file with limit 3, submit the standard
/// way, and get back a plain alphanumeric identifier.
#[test]
fn upload_one_file_end_to_end() {
    let flow = UploadFlow::new(one_file_pre());

    // The credential file was read and the platform accepted it.
    let session = Session::from_web_cookies(String::from("sess-token"), String::from("csrf"));
    let flow = flow.on_auth(Ok(session)).expect("authentication succeeded");

    // No explicit line: the probe outcomes decide.
    let samples = vec![
        ProbeSample { line: UploadLine::Bda2, latency_ms: Some(70) },
        ProbeSample { line: UploadLine::Ws, latency_ms: Some(35) },
        ProbeSample { line: UploadLine::Qn, latency_ms: None },
    ];
    let flow = flow.on_line(&samples);
    assert_eq!(flow.line, Some(UploadLine::Ws));

    // Stream the file: 10 MB, 4 MB chunks, at most 3 in flight.
    let data = vec![0xabu8; 10 * 1024 * 1024];
    let file = VideoFile { file_name: String::from("movie.mp4"), total_size: data.len() as u64 };
    assert_eq!(pre_upload_check(&file), Ok(()));
    let chunks = split_into_chunks(&data, 4 * 1024 * 1024);
    assert_eq!(chunks.len(), 3);
    let mut sched = ChunkScheduler::new(chunks.len(), 3);
    while !sched.all_done() {
        while sched.can_start() {
            sched.start_chunk();
            assert!(sched.in_flight_count() <= 3);
        }
        sched.finish_chunk();
    }
    // What the storage endpoint received reassembles to the file.
    assert_eq!(reassemble(&chunks), data);

    let flow = flow.record_part(UploadedVideoPart {
        remote_ref: String::from("n230101ab12345cd"),
        file_name: String::from("movie.mp4"),
    });
    assert!(flow.parts_complete());
    let flow = flow.assemble();

    // No cover configured: nothing to resolve.
    assert!(!flow.cover_pending());
    let flow = flow.on_cover_resolved(None);

    // Standard submission succeeded with status zero.
    let resp = SubmitResponse { code: 0, bvid: Some(String::from("BV1xy4z9abCd")) };
    let bvid = flow.on_submit_response(resp).expect("submission succeeded");
    assert_eq!(bvid, "BV1xy4z9abCd");
    assert!(!bvid.is_empty());
    assert!(bvid.chars().all(|c| c.is_ascii_alphanumeric()));
}

/// A missing credential file aborts with the I/O flavour, tagged with
/// the path, and stays distinguishable from a rejected credential.
#[test]
fn missing_cookie_file_fails_with_io_flavour() {
    let flow = UploadFlow::new(one_file_pre());
    let err = flow.on_auth(Err(AuthError::Io)).expect_err("operation must abort");
    match err {
        FlowError::Auth { err, cookie_file } => {
            assert_eq!(err, AuthError::Io);
            assert_ne!(err, AuthError::InvalidCredential);
            assert_eq!(cookie_file, "cookies.json");
        }
        _ => panic!("authentication failures carry the auth flavour"),
    }
}

/// A credential the platform rejected keeps its own flavour.
#[test]
fn rejected_credential_stays_distinguishable() {
    let flow = UploadFlow::new(one_file_pre());
    let err = flow.on_auth(Err(AuthError::InvalidCredential)).expect_err("operation must abort");
    assert!(matches!(
        err,
        FlowError::Auth { err: AuthError::InvalidCredential, .. }
    ));
}

#[test]
fn cover_failure_names_the_cover_path() {
    let mut pre = one_file_pre();
    pre.cover = String::from("covers/one.png");
    let flow = UploadFlow::new(pre);
    let session = Session::from_web_cookies(String::from("sess-token"), String::from("csrf"));
    let flow = flow.on_auth(Ok(session)).unwrap();
    let flow = flow.on_line(&Vec::new());
    let flow = flow.record_part(UploadedVideoPart {
        remote_ref: String::from("n1"),
        file_name: String::from("movie.mp4"),
    });
    let flow = flow.assemble();
    assert!(flow.cover_pending());
    let err = flow.on_cover_failure();
    assert!(matches!(
        err,
        FlowError::Upload { err: stream_gears::errors::UploadError::CoverUploadFailure, ref path }
            if path == "covers/one.png"
    ));
}

#[test]
fn resolved_cover_replaces_the_reference() {
    let mut pre = one_file_pre();
    pre.cover = String::from("covers/one.png");
    let flow = UploadFlow::new(pre);
    let session = Session::from_web_qrcode(String::from("sess-token"), String::from("uid"));
    let flow = flow.on_auth(Ok(session)).unwrap();
    let flow = flow.on_line(&Vec::new());
    let flow = flow.record_part(UploadedVideoPart {
        remote_ref: String::from("n1"),
        file_name: String::from("movie.mp4"),
    });
    let flow = flow.assemble();
    assert!(flow.cover_pending());
    let flow = flow.on_cover_resolved(Some(String::from("https://img.example/cover.png")));
    assert_eq!(flow.record().cover, "https://img.example/cover.png");
    assert_eq!(flow.record().videos.len(), 1);
}

#[test]
fn auth_outcome_keeps_io_and_rejection_apart() {
    let ok = auth_outcome_with_context(
        Ok(Session::from_web_cookies(String::from("sess-token"), String::from("c"))),
        String::from("cookies.json"),
    );
    assert!(ok.is_ok());
    let io = auth_outcome_with_context(Err(AuthError::Io), String::from("cookies.json"));
    assert!(matches!(io, Err(FlowError::Auth { err: AuthError::Io, .. })));
    let rejected =
        auth_outcome_with_context(Err(AuthError::InvalidCredential), String::from("cookies.json"));
    assert!(matches!(
        rejected,
        Err(FlowError::Auth { err: AuthError::InvalidCredential, .. })
    ));
}

/// Parts keep caller-supplied input order, one per file.
#[test]
fn parts_keep_input_order() {
    let mut pre = one_file_pre();
    pre.video_path = vec![
        String::from("one.mp4"),
        String::from("two.mp4"),
        String::from("three.mp4"),
    ];
    let flow = UploadFlow::new(pre);
    let session = Session::from_web_cookies(String::from("sess-token"), String::from("c"));
    let mut flow = flow.on_auth(Ok(session)).unwrap().on_line(&Vec::new());
    for name in ["one.mp4", "two.mp4", "three.mp4"] {
        assert!(!flow.parts_complete());
        flow = flow.record_part(UploadedVideoPart {
            remote_ref: format!("ref-{name}"),
            file_name: String::from(name),
        });
    }
    assert!(flow.parts_complete());
    let flow = flow.assemble();
    let flow = flow.on_cover_resolved(None);
    let videos = &flow.record().videos;
    assert_eq!(videos.len(), 3);
    assert_eq!(videos[0].file_name, "one.mp4");
    assert_eq!(videos[1].file_name, "two.mp4");
    assert_eq!(videos[2].file_name, "three.mp4");
}
