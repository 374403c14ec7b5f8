use rush::commands::cat;
use rush::commands::cat::FileRead;
use rush::commands::command::BuiltinData;
use rush::commands::ls::{EntryName, Listing};
use rush::outputhandler::OutputHandler;
use rush::parse_input;
use rush::pipeline::{
    first_hit, search_candidates, split_search_path, PipeSession, Request, RunOutput, StageData,
    Step,
};

fn emitted(step: Step) -> Vec<u8> {
    match step {
        Step::Progressed(e) => e,
        Step::ExitRequested => panic!("unexpected exit"),
    }
}

#[test]
fn pipeline_ls_into_cat_matches_cat_on_a_file() {
    // run `ls /d | cat` with a directory holding entries a and b
    let mut session = PipeSession::new(
        parse_input("ls /d | cat"),
        "/cw".to_string(),
        "/hm".to_string(),
    );
    match session.next_request() {
        Request::ListDirs(paths) => assert_eq!(paths, vec!["/d".to_string()]),
        _ => panic!("expected a listing request"),
    }
    let listing = Listing::Directory {
        label: "/d".to_string(),
        entries: vec![
            EntryName::Text("a".to_string()),
            EntryName::Text("b".to_string()),
        ],
    };
    let e1 = emitted(session.step(StageData::Builtin(BuiltinData::Ls(vec![listing]))));
    assert_eq!(e1.as_slice(), b"");
    let ls_stdout = session.carry().clone();
    match session.next_request() {
        Request::ReadFiles(files) => assert_eq!(files.len(), 0),
        _ => panic!("expected a read request"),
    }
    let reads: Vec<FileRead> = Vec::new();
    emitted(session.step(StageData::Builtin(BuiltinData::Cat(reads))));
    assert!(session.finished());
    let piped_result = session.finish();

    // what cat alone prints for a file holding exactly ls's output bytes
    let mut oh = OutputHandler::new();
    let file = vec![FileRead::Data { label: "f".to_string(), bytes: ls_stdout }];
    cat::execute(&mut oh, &file, None);
    assert_eq!(piped_result.stdout, oh.stdout().into_bytes());
    assert_eq!(piped_result.stderr.as_slice(), b"");
}

#[test]
fn failing_first_stage_is_isolated() {
    // `ls /does/not/exist | pwd`: the error is reported, the carry is
    // empty, and pwd still reports the real working directory
    let mut session = PipeSession::new(
        parse_input("ls /does/not/exist | pwd"),
        "/work".to_string(),
        "/hm".to_string(),
    );
    match session.next_request() {
        Request::ListDirs(paths) => assert_eq!(paths, vec!["/does/not/exist".to_string()]),
        _ => panic!("expected a listing request"),
    }
    let listing = Listing::Inaccessible { label: "/does/not/exist".to_string() };
    let e1 = emitted(session.step(StageData::Builtin(BuiltinData::Ls(vec![listing]))));
    assert_eq!(e1.as_slice(), b"\nCannot access /does/not/exist");
    assert_eq!(session.carry().len(), 0);
    assert!(matches!(session.next_request(), Request::Internal));
    emitted(session.step(StageData::Nothing));
    let result = session.finish();
    assert_eq!(result.stdout.as_slice(), b"\n/work");
    assert_eq!(result.stderr.as_slice(), b"\nCannot access /does/not/exist");
}

#[test]
fn unknown_command_reports_not_found() {
    let mut session = PipeSession::new(
        parse_input("zzzznotfound"),
        "/cw".to_string(),
        "/hm".to_string(),
    );
    match session.next_request() {
        Request::Run(rs) => {
            assert_eq!(rs.program, "zzzznotfound");
            assert_eq!(rs.argv.len(), 0);
            assert_eq!(rs.input.len(), 0);
        },
        _ => panic!("expected a run request"),
    }
    let e = emitted(session.step(StageData::NotFound));
    assert_eq!(e.as_slice(), b"zzzznotfound is not defined in path");
    let result = session.finish();
    assert_eq!(result.stdout.as_slice(), b"");
    assert_eq!(result.stderr.as_slice(), b"zzzznotfound is not defined in path");
    assert_eq!(result.status, None);
}

#[test]
fn pwd_twice_prints_the_same_text() {
    let run = || {
        let mut session = PipeSession::new(
            parse_input("pwd"),
            "/same/place".to_string(),
            "/hm".to_string(),
        );
        assert!(matches!(session.next_request(), Request::Internal));
        emitted(session.step(StageData::Nothing));
        session.finish().stdout
    };
    let first = run();
    let second = run();
    assert_eq!(first, second);
    assert_eq!(first.as_slice(), b"\n/same/place");
}

#[test]
fn external_stage_hands_over_child_output() {
    let mut session = PipeSession::new(
        parse_input("sort -r"),
        "/cw".to_string(),
        "/hm".to_string(),
    );
    match session.next_request() {
        Request::Run(rs) => {
            assert_eq!(rs.program, "sort");
            // positional arguments come first, flags after
            assert_eq!(rs.argv, vec!["-r".to_string()]);
        },
        _ => panic!("expected a run request"),
    }
    let out = RunOutput { stdout: b"B\nA".to_vec(), stderr: b"warn".to_vec(), status: 3 };
    let e = emitted(session.step(StageData::Ran(out)));
    assert_eq!(e.as_slice(), b"warn");
    let result = session.finish();
    assert_eq!(result.stdout.as_slice(), b"B\nA");
    assert_eq!(result.stderr.as_slice(), b"warn");
    assert_eq!(result.status, Some(3));
}

#[test]
fn argv_order_is_arguments_then_flags() {
    let mut session = PipeSession::new(
        parse_input("prog -x one -y two"),
        "/cw".to_string(),
        "/hm".to_string(),
    );
    match session.next_request() {
        Request::Run(rs) => {
            assert_eq!(
                rs.argv,
                vec!["one".to_string(), "two".to_string(), "-x".to_string(), "-y".to_string()]
            );
        },
        _ => panic!("expected a run request"),
    }
}

#[test]
fn empty_stage_passes_the_carry_through() {
    let mut session = PipeSession::new(
        parse_input("pwd |"),
        "/keep".to_string(),
        "/hm".to_string(),
    );
    emitted(session.step(StageData::Nothing));
    let before = session.carry().clone();
    assert!(matches!(session.next_request(), Request::Internal));
    emitted(session.step(StageData::Nothing));
    assert_eq!(session.carry(), &before);
    assert_eq!(session.finish().stdout.as_slice(), b"\n/keep");
}

#[test]
fn exit_terminates_the_run() {
    let mut session = PipeSession::new(
        parse_input("exit"),
        "/cw".to_string(),
        "/hm".to_string(),
    );
    assert!(matches!(session.next_request(), Request::Internal));
    match session.step(StageData::Nothing) {
        Step::ExitRequested => {},
        Step::Progressed(_) => panic!("expected the exit signal"),
    }
    assert!(session.finished());
    assert!(session.exited());
}

#[test]
fn exit_mid_pipeline_abandons_later_stages() {
    let mut session = PipeSession::new(
        parse_input("pwd | exit | pwd"),
        "/cw".to_string(),
        "/hm".to_string(),
    );
    emitted(session.step(StageData::Nothing));
    match session.step(StageData::Nothing) {
        Step::ExitRequested => {},
        Step::Progressed(_) => panic!("expected the exit signal"),
    }
    assert!(session.finished());
}

#[test]
fn piped_input_feeds_external_stage() {
    let mut session = PipeSession::new(
        parse_input("pwd | tr"),
        "/here".to_string(),
        "/hm".to_string(),
    );
    emitted(session.step(StageData::Nothing));
    match session.next_request() {
        Request::Run(rs) => assert_eq!(rs.input.as_slice(), b"\n/here"),
        _ => panic!("expected a run request"),
    }
}

#[test]
fn search_path_splits_on_colons() {
    assert_eq!(
        split_search_path("/bin:/usr/bin::/opt"),
        vec![
            "/bin".to_string(),
            "/usr/bin".to_string(),
            "".to_string(),
            "/opt".to_string(),
        ]
    );
}

#[test]
fn candidates_join_name_onto_directories() {
    let dirs = vec!["/bin".to_string(), "".to_string()];
    assert_eq!(
        search_candidates("prog", &dirs),
        vec!["/bin/prog".to_string(), "prog".to_string()]
    );
}

#[test]
fn first_hit_takes_the_first_match() {
    assert_eq!(first_hit(&vec![false, true, true]), Some(1));
    assert_eq!(first_hit(&vec![false, false]), None);
    let none: Vec<bool> = Vec::new();
    assert_eq!(first_hit(&none), None);
}

#[test]
fn failing_middle_stage_still_runs_the_third() {
    // `pwd | zzzmissing | cat`: the middle stage is not found, contributes
    // an empty carry, and the third stage still runs on that empty input
    let mut session = PipeSession::new(
        parse_input("pwd | zzzmissing | cat"),
        "/cw".to_string(),
        "/hm".to_string(),
    );
    emitted(session.step(StageData::Nothing));
    let e = emitted(session.step(StageData::NotFound));
    assert_eq!(e.as_slice(), b"zzzmissing is not defined in path");
    assert_eq!(session.carry().len(), 0);
    let reads: Vec<FileRead> = Vec::new();
    emitted(session.step(StageData::Builtin(BuiltinData::Cat(reads))));
    let result = session.finish();
    // cat saw piped input holding zero bytes and emitted it as one chunk
    assert_eq!(result.stdout.as_slice(), b"\n");
}

#[test]
fn ls_without_arguments_lists_the_working_directory() {
    let session = PipeSession::new(
        parse_input("ls"),
        "/cw".to_string(),
        "/hm".to_string(),
    );
    match session.next_request() {
        Request::ListDirs(paths) => assert_eq!(paths, vec!["/cw".to_string()]),
        _ => panic!("expected a listing request"),
    }
}
