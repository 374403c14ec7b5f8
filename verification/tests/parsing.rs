use rush::commands::command::{classify, get_output_type, Command, Kind, Output};
use rush::parse_input;
use rush::text::str_chars;

#[test]
fn single_stage_partition_is_stable() {
    // flags and arguments keep their own encounter order however they
    // interleave
    match parse_input("ls -a foo -b bar") {
        Command::Ls(fc) => {
            assert_eq!(fc.flags, vec!["-a".to_string(), "-b".to_string()]);
            assert_eq!(fc.files, vec!["foo".to_string(), "bar".to_string()]);
        },
        _ => panic!("expected an ls stage"),
    }
}

#[test]
fn empty_line_is_empty_stage() {
    assert!(matches!(parse_input(""), Command::Empty));
}

#[test]
fn blank_line_is_empty_stage() {
    assert!(matches!(parse_input("   "), Command::Empty));
}

#[test]
fn no_pipe_yields_single_stage() {
    assert!(matches!(parse_input("pwd"), Command::Pwd(_)));
    assert!(!matches!(parse_input("pwd"), Command::Piped(_)));
}

#[test]
fn pipe_splits_stages() {
    match parse_input("ls /d | cat") {
        Command::Piped(stages) => {
            assert_eq!(stages.len(), 2);
            assert!(matches!(stages[0], Command::Ls(_)));
            assert!(matches!(stages[1], Command::Cat(_)));
        },
        _ => panic!("expected a pipeline"),
    }
}

#[test]
fn trailing_pipe_yields_empty_stage() {
    match parse_input("ls |") {
        Command::Piped(stages) => {
            assert_eq!(stages.len(), 2);
            assert!(matches!(stages[0], Command::Ls(_)));
            assert!(matches!(stages[1], Command::Empty));
        },
        _ => panic!("expected a pipeline"),
    }
}

#[test]
fn classification_is_case_sensitive_exact() {
    assert_eq!(classify(&str_chars("ls")), Kind::BuiltinLs);
    assert_eq!(classify(&str_chars("pwd")), Kind::BuiltinPwd);
    assert_eq!(classify(&str_chars("cat")), Kind::BuiltinCat);
    assert_eq!(classify(&str_chars("exit")), Kind::Exit);
    assert_eq!(classify(&str_chars("Ls")), Kind::External);
    assert_eq!(classify(&str_chars("LS")), Kind::External);
    assert_eq!(classify(&str_chars("Cat")), Kind::External);
    assert_eq!(classify(&str_chars("EXIT")), Kind::External);
    assert_eq!(classify(&str_chars("zzzznotfound")), Kind::External);
    assert_eq!(classify(&str_chars("")), Kind::External);
    assert_eq!(classify(&str_chars("-a")), Kind::External);
}

#[test]
fn unknown_name_parses_as_external_program() {
    match parse_input("zzzznotfound -v thing") {
        Command::Program(pc) => {
            assert_eq!(pc.cmd, "zzzznotfound");
            assert_eq!(pc.flags, vec!["-v".to_string()]);
            assert_eq!(pc.args, vec!["thing".to_string()]);
        },
        _ => panic!("expected an external stage"),
    }
}

#[test]
fn exit_parses_as_exit() {
    assert!(matches!(parse_input("exit"), Command::Exit));
}

#[test]
fn redirection_names_a_file() {
    let (out, err) = get_output_type("cmd > target");
    match out {
        Output::File(f) => assert_eq!(f, "target"),
        Output::Standard => panic!("expected a file redirection"),
    }
    assert!(matches!(err, Output::Standard));
}

#[test]
fn no_redirection_is_standard() {
    let (out, err) = get_output_type("cmd target");
    assert!(matches!(out, Output::Standard));
    assert!(matches!(err, Output::Standard));
}

#[test]
fn bare_trailing_gt_names_no_file() {
    let (out, _) = get_output_type("cmd >");
    assert!(matches!(out, Output::Standard));
}
