use rush::commands::cat;
use rush::commands::cat::FileRead;
use rush::commands::ls;
use rush::commands::ls::{EntryName, Listing};
use rush::commands::pwd;
use rush::commands::utils::construct_paths;
use rush::outputhandler::OutputHandler;

#[test]
fn ls_lists_a_directory_in_order() {
    let mut oh = OutputHandler::new();
    let listings = vec![Listing::Directory {
        label: "/d".to_string(),
        entries: vec![
            EntryName::Text("a".to_string()),
            EntryName::Text("b".to_string()),
        ],
    }];
    ls::execute(&mut oh, &listings);
    assert_eq!(oh.stdout(), "\n/d: \na\nb\n\n");
    assert_eq!(oh.stderr(), "");
}

#[test]
fn ls_reports_inaccessible_path() {
    let mut oh = OutputHandler::new();
    let listings = vec![Listing::Inaccessible { label: "/does/not/exist".to_string() }];
    ls::execute(&mut oh, &listings);
    assert_eq!(oh.stdout(), "");
    assert_eq!(oh.stderr(), "\nCannot access /does/not/exist");
}

#[test]
fn ls_reports_non_directory() {
    let mut oh = OutputHandler::new();
    let listings = vec![Listing::NotDirectory { label: "/etc/hosts".to_string() }];
    ls::execute(&mut oh, &listings);
    assert_eq!(oh.stderr(), "\n/etc/hosts is not a directory");
}

#[test]
fn ls_reports_non_unicode_entry() {
    let mut oh = OutputHandler::new();
    let listings = vec![Listing::Directory {
        label: "/d".to_string(),
        entries: vec![EntryName::Text("a".to_string()), EntryName::NonText],
    }];
    ls::execute(&mut oh, &listings);
    assert_eq!(oh.stdout(), "\n/d: \na\n\n");
    assert_eq!(oh.stderr(), "\nDirectory contains non-unicode filename");
}

#[test]
fn pwd_reports_the_working_directory() {
    let mut oh = OutputHandler::new();
    pwd::execute(&mut oh, "/home/someone");
    assert_eq!(oh.stdout(), "\n/home/someone");
    assert_eq!(oh.stderr(), "");
}

#[test]
fn cat_emits_file_contents() {
    let mut oh = OutputHandler::new();
    let reads = vec![FileRead::Data { label: "f".to_string(), bytes: b"hello".to_vec() }];
    cat::execute(&mut oh, &reads, None);
    assert_eq!(oh.stdout(), "\nhello");
    assert_eq!(oh.stderr(), "");
}

#[test]
fn cat_emits_piped_input_after_files() {
    let mut oh = OutputHandler::new();
    let reads = vec![FileRead::Data { label: "f".to_string(), bytes: b"one".to_vec() }];
    let piped = b"two".to_vec();
    cat::execute(&mut oh, &reads, Some(&piped));
    assert_eq!(oh.stdout(), "\none\ntwo");
}

#[test]
fn cat_reports_unreadable_file() {
    let mut oh = OutputHandler::new();
    let reads = vec![FileRead::Unreadable { label: "/nope".to_string() }];
    cat::execute(&mut oh, &reads, None);
    assert_eq!(oh.stdout(), "");
    assert_eq!(oh.stderr(), "\nCannot access /nope");
}

#[test]
fn cat_reports_non_text_content() {
    let mut oh = OutputHandler::new();
    let reads = vec![FileRead::Data { label: "blob".to_string(), bytes: vec![0xff, 0xfe] }];
    cat::execute(&mut oh, &reads, None);
    assert_eq!(oh.stdout(), "");
    assert_eq!(oh.stderr(), "\nblob is not valid unicode");
}

#[test]
fn cat_reports_non_text_piped_input() {
    let mut oh = OutputHandler::new();
    let reads: Vec<FileRead> = Vec::new();
    let piped = vec![0xffu8];
    cat::execute(&mut oh, &reads, Some(&piped));
    assert_eq!(oh.stdout(), "");
    assert_eq!(oh.stderr(), "\nPiped input is not valid unicode");
}

#[test]
fn construct_paths_defaults_to_the_working_directory() {
    let none: Vec<String> = Vec::new();
    assert_eq!(construct_paths(&none, "/cw", "/hm"), vec!["/cw".to_string()]);
}

#[test]
fn construct_paths_expands_prefixes() {
    let args = vec![
        "./x".to_string(),
        "~/x".to_string(),
        "~".to_string(),
        "~x".to_string(),
        "/abs".to_string(),
        "rel".to_string(),
    ];
    assert_eq!(
        construct_paths(&args, "/cw", "/hm"),
        vec![
            "/cw/x".to_string(),
            "/hm/x".to_string(),
            "/hm".to_string(),
            "/hm/x".to_string(),
            "/abs".to_string(),
            "/cw/rel".to_string(),
        ]
    );
}
