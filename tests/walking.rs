use minigrep::{
    eligible, eligible_files, file_result, FileProbe, FileResult, ResultBuffer, SearchError,
    WalkEntry, MAX_FILE_SIZE, SNIFF_LEN,
};

fn entry(path: &str, parents: &[&str], size: u64, head: Vec<u8>) -> WalkEntry {
    WalkEntry {
        path: String::from(path),
        parents: parents.iter().map(|p| String::from(*p)).collect(),
        is_file: true,
        probe: Some(FileProbe { size, head }),
    }
}

#[test]
fn plain_text_file_is_eligible() {
    assert!(eligible(&entry("a.txt", &["src"], 10, b"hello".to_vec())));
    assert!(eligible(&entry("b.txt", &[], MAX_FILE_SIZE, Vec::new())));
}

#[test]
fn large_or_binary_files_are_left_out() {
    let entries = vec![
        entry("keep.txt", &[], 5, b"match".to_vec()),
        entry("big.txt", &[], MAX_FILE_SIZE + 1, b"match".to_vec()),
        entry("bin.dat", &[], 6, vec![b'm', 0, b'a', b't', b'c', b'h']),
        entry("late.dat", &[], 2000, {
            let mut v = vec![b'x'; SNIFF_LEN];
            v.push(0);
            v
        }),
    ];
    let kept: Vec<String> = eligible_files(entries).into_iter().map(|e| e.path).collect();
    assert_eq!(vec!["keep.txt", "late.dat"], kept);
}

#[test]
fn hidden_directories_and_non_files_are_left_out() {
    let mut dir = entry("src", &[], 0, Vec::new());
    dir.is_file = false;
    let unprobed = WalkEntry { probe: None, ..entry("gone.txt", &[], 0, Vec::new()) };
    let entries = vec![
        entry(".hidden_file", &[], 1, b"x".to_vec()),
        entry(".git/config", &[".git"], 1, b"x".to_vec()),
        entry("a/.cache/b.txt", &["a", ".cache"], 1, b"x".to_vec()),
        dir,
        unprobed,
    ];
    let kept: Vec<String> = eligible_files(entries).into_iter().map(|e| e.path).collect();
    assert_eq!(vec![".hidden_file"], kept);
}

#[test]
fn file_result_keeps_only_nonempty_successes() {
    let found = file_result(String::from("a"), Ok(vec![String::from("1:x")])).unwrap();
    assert_eq!("a", found.path);
    assert_eq!(vec!["1:x"], found.lines);
    assert!(file_result(String::from("b"), Ok(Vec::new())).is_none());
    assert!(file_result(String::from("c"), Err(SearchError::Io(String::from("gone")))).is_none());
    assert!(file_result(String::from("d"), Err(SearchError::InvalidPattern(String::from("*")))).is_none());
}

fn result(path: &str, lines: &[&str]) -> FileResult {
    FileResult { path: String::from(path), lines: lines.iter().map(|l| String::from(*l)).collect() }
}

fn collect(order: &[&str]) -> Vec<(String, Vec<String>)> {
    let mut buffer = ResultBuffer::new();
    for name in order {
        let lines: &[&str] = if *name == "empty" { &[] } else { &["1:hit", "3:hit"] };
        buffer.push(result(name, lines));
    }
    buffer.into_results().into_iter().map(|r| (r.path, r.lines)).collect()
}

#[test]
fn buffer_holds_whole_nonempty_results() {
    let got = collect(&["a", "empty", "b"]);
    assert_eq!(2, got.len());
    assert_eq!("a", got[0].0);
    assert_eq!(vec!["1:hit", "3:hit"], got[0].1);
    assert_eq!("b", got[1].0);
    let mut buffer = ResultBuffer::new();
    assert_eq!(0, buffer.len());
    buffer.push(result("x", &["only"]));
    assert_eq!(1, buffer.len());
}

#[test]
fn collection_order_does_not_change_the_set() {
    let mut first = collect(&["a", "b", "empty", "c"]);
    let mut second = collect(&["c", "empty", "a", "b"]);
    first.sort();
    second.sort();
    assert_eq!(first, second);
    assert_eq!(3, first.len());
}
