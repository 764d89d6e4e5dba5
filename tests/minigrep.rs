use worker_pool::minigrep::{
    contains, find_matches, lines, search, search_case_insensitive, search_folded, Config,
};

#[test]
fn one_result() {
    let query = "duct";
    let contents = "\\\nRust:\nsafe, fast, productive.\nPick three.\n";
    assert_eq!(vec!["safe, fast, productive."], search(query, contents));
}

#[test]
fn case_insensitive() {
    let query = "rUsT";
    let contents = "\\\nRust:\nsafe, fast, productive.\nPick three.\nTrust me.\n";
    assert_eq!(
        vec!["Rust:", "Trust me."],
        search_case_insensitive(query, contents)
    );
}

#[test]
fn lines_split_like_std() {
    for text in ["", "a", "a\n", "a\r\nb", "\n\nx\r", "one\ntwo\r\n\r\nthree", "\r\n"] {
        let expected: Vec<&str> = text.lines().collect();
        assert_eq!(expected, lines(text), "text {:?}", text);
    }
}

#[test]
fn contains_finds_runs() {
    assert!(contains("productive", "duct"));
    assert!(contains("abc", ""));
    assert!(contains("", ""));
    assert!(!contains("duc", "duct"));
    assert!(!contains("Rust", "rust"));
    assert!(contains("héllo wörld", "ö"));
}

#[test]
fn search_is_case_sensitive() {
    let contents = "Rust:\nTrust me.\nRUSTY";
    assert_eq!(vec!["Trust me."], search("rust", contents));
    assert!(search("absent", contents).is_empty());
}

#[test]
fn empty_query_matches_every_line() {
    assert_eq!(vec!["a", "", "b"], search("", "a\n\nb\n"));
}

#[test]
fn config_needs_query_and_path() {
    let prog = vec![String::from("minigrep")];
    assert_eq!(Config::build(&vec![], false).err(), Some("Query not found!"));
    assert_eq!(Config::build(&prog, false).err(), Some("Query not found!"));
    let two = vec![String::from("minigrep"), String::from("to")];
    assert_eq!(Config::build(&two, false).err(), Some("File path not found!"));
    let three = vec![
        String::from("minigrep"),
        String::from("to"),
        String::from("poem.txt"),
        String::from("extra"),
    ];
    let c = Config::build(&three, true).ok().unwrap();
    assert_eq!(c.query, "to");
    assert_eq!(c.file_path, "poem.txt");
    assert!(c.ignore_case);
}

#[test]
fn find_matches_follows_ignore_case() {
    let contents = "Rust:\nTrust me.";
    let mut c = Config {
        query: String::from("RUST"),
        file_path: String::from("f"),
        ignore_case: false,
    };
    assert!(find_matches(&c, contents).is_empty());
    c.ignore_case = true;
    assert_eq!(vec!["Rust:", "Trust me."], find_matches(&c, contents));
}

#[test]
fn folded_search_lowers_each_line() {
    let contents = "Rust:\nTRUST me.\nsafe";
    assert_eq!(vec!["Rust:", "TRUST me."], search_folded("rust", contents));
    assert!(search_folded("RUST", contents).is_empty());
}
