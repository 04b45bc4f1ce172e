use minigrep::{search, SearchConfig};

#[test]
fn case_sensitive() {
    let query = "duct";
    let contents = "\
Rust:
safe, fast, productive.
Pick three.
Duct tape";

    let config = SearchConfig {
        ignore_case: false,
        line_number: false,
        invert_match: false,
        whole_word: false,
        regex: false,
    };

    assert_eq!(
        vec!["safe, fast, productive."],
        search(query, contents, &config).unwrap()
    );
}

#[test]
fn case_insensitive() {
    let query = "rUsT";
    let contents = "\
Rust:
safe, fast, productive.
Trust me.";

    let config = SearchConfig {
        ignore_case: true,
        line_number: false,
        invert_match: false,
        whole_word: false,
        regex: false,
    };

    assert_eq!(
        vec!["Rust:", "Trust me."],
        search(query, contents, &config).unwrap()
    );
}

#[test]
fn with_line_number() {
    let query = "fast";
    let contents = "\
Rust:
safe, fast, productive.
Pick three.";

    let config = SearchConfig {
        ignore_case: false,
        line_number: true,
        invert_match: false,
        whole_word: false,
        regex: false,
    };

    assert_eq!(
        vec!["2:safe, fast, productive."],
        search(query, contents, &config).unwrap()
    );
}

#[test]
fn case_insensitive_with_line_number() {
    let query = "rust";
    let contents = "\
Rust:
safe, fast, productive.
Trust me.";

    let config = SearchConfig {
        ignore_case: true,
        line_number: true,
        invert_match: false,
        whole_word: false,
        regex: false,
    };

    assert_eq!(
        vec!["1:Rust:", "3:Trust me."],
        search(query, contents, &config).unwrap()
    );
}



#[test]
fn invert_match() {
    let query = "fast";
    let contents = "\
Rust:
safe, fast, productive.
Pick three.
Trust me.";

    let config = SearchConfig {
        ignore_case: false,
        line_number: false,
        invert_match: true,
        whole_word: false,
        regex: true,
    };

    assert_eq!(
        vec!["Rust:", "Pick three.", "Trust me."],
        search(query, contents, &config).unwrap()
    );
}

#[test]
fn invert_match_with_line_number() {
    let query = "fast";
    let contents = "\
Rust:
safe, fast, productive.
Pick three.
Trust me.";

    let config = SearchConfig {
        ignore_case: false,
        line_number: true,
        invert_match: true,
        whole_word: false,
        regex: true,
    };

    assert_eq!(
        vec!["1:Rust:", "3:Pick three.", "4:Trust me."],
        search(query, contents, &config).unwrap()
    );
}

#[test]
fn whole_word_match() {
    let query = "rust";
    let contents = "\
Rust language
Trust me with rust
rust is great
rusty old car";

    let config = SearchConfig {
        ignore_case: true,
        line_number: false,
        invert_match: false,
        whole_word: true,
        regex: true,
    };

    assert_eq!(
        vec!["Rust language", "Trust me with rust", "rust is great"],
        search(query, contents, &config).unwrap()
    );
}

#[test]
fn whole_word_no_match() {
    let query = "car";
    let contents = "\
I care about cars
Careful with the car
scar on my arm";

    let config = SearchConfig {
        ignore_case: false,
        line_number: false,
        invert_match: false,
        whole_word: true,
        regex: true,
    };

    assert_eq!(
        vec!["Careful with the car"],
        search(query, contents, &config).unwrap()
    );
}

#[test]
fn whole_word_with_line_number() {
    let query = "me";
    let contents = "\
Trust me
Some text here
Meet me at home
Welcome to the party";

    let config = SearchConfig {
        ignore_case: false,
        line_number: true,
        invert_match: false,
        whole_word: true,
        regex: true,
    };

    assert_eq!(
        vec!["1:Trust me", "3:Meet me at home"],
        search(query, contents, &config).unwrap()
    );
}

#[test]
fn invert_match_and_whole_word() {
    let query = "rust";
    let contents = "\
Rust language
Trust me with rust
rust is great
rusty old car
Python programming";

    let config = SearchConfig {
        ignore_case: true,
        line_number: false,
        invert_match: true,
        whole_word: true,
        regex: true,
    };

    assert_eq!(
        vec!["rusty old car", "Python programming"],
        search(query, contents, &config).unwrap()
    );
}

#[test]
fn regex_basic() {
    let query = r"r.st";
    let contents = "\
Rust programming
Python code
Trust me
rest well";

    let config = SearchConfig {
        ignore_case: false,
        line_number: false,
        invert_match: false,
        whole_word: false,
        regex: true,
    };

    assert_eq!(
        vec!["Trust me", "rest well"],
        search(query, contents, &config).unwrap()
    );
}

#[test]
fn regex_case_insensitive() {
    let query = r"RUST";
    let contents = "\
Rust programming
Python code
Trust with rust";

    let config = SearchConfig {
        ignore_case: true,
        line_number: false,
        invert_match: false,
        whole_word: false,  
        regex: true,
    };

    assert_eq!(
        vec!["Rust programming", "Trust with rust"],
        search(query, contents, &config).unwrap()
    );
}

#[test]
fn invalid_regex_should_return_error() {

    let query = r"*";
    let contents = "some text\nto search through";

    let config = SearchConfig {
        ignore_case: false,
        line_number: false,
        invert_match: false,
        whole_word: false,
        regex: true,
    };


    let result = search(query, contents, &config);


    assert!(result.is_err(), "Expected an error for invalid regex, but got Ok");

}

#[test]
fn search_in_empty_contents() {
    let query = "a";
    let contents = "";
    let config = SearchConfig {
        ignore_case: false,
        line_number: false,
        invert_match: false,
        whole_word: false,
        regex: true,
    };

    assert_eq!(
        Vec::<&str>::new(),
        search(query, contents, &config).unwrap()
    );
}

#[test]
fn regex_with_whole_word() {
    let query = "rust";
    let contents = "\
Rust programming
Trust with rust
rusty old car";

    let config = SearchConfig {
        ignore_case: true,
        line_number: false,
        invert_match: false,
        whole_word: true,
        regex: true,
    };

    let result = search(query, contents, &config).unwrap();
    
    assert_eq!(
        vec!["Rust programming", "Trust with rust"],
        result
    );
}

#[test]
fn whole_word_with_punctuation() {
    let query = "test";
    let contents = "\
This is a test.
Testing phase
test,case
(test)
test!
testing123";

    let config = SearchConfig {
        ignore_case: false,
        line_number: false,
        invert_match: false,
        whole_word: true,
        regex: true,
    };

    let result = search(query, contents, &config).unwrap();
    

    assert_eq!(
        vec!["This is a test.", "test,case", "(test)", "test!"],
        result
    );
}
