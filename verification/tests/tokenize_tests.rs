use sailfish::preprocess_args;

fn prep(list: &[&str]) -> Vec<String> {
    preprocess_args(&list.iter().map(|s| s.to_string()).collect())
}

#[test]
fn equals_signs_split_tokens() {
    assert_eq!(prep(&["--flag=value"]), ["--flag", "value"]);
    assert_eq!(prep(&["a=b=c"]), ["a", "b", "c"]);
}

#[test]
fn glued_short_flags_split_after_two_characters() {
    assert_eq!(prep(&["-n1024"]), ["-n", "1024"]);
    assert_eq!(prep(&["-c0.5"]), ["-c", "0.5"]);
}

#[test]
fn long_flags_and_short_tokens_stay_whole() {
    assert_eq!(prep(&["--resolution"]), ["--resolution"]);
    assert_eq!(prep(&["-n"]), ["-n"]);
    assert_eq!(prep(&["plain"]), ["plain"]);
}

#[test]
fn passes_compose_over_the_whole_list() {
    assert_eq!(
        prep(&["--flag=value", "-n1024", "plain", "-o", "dir"]),
        ["--flag", "value", "-n", "1024", "plain", "-o", "dir"]
    );
}

#[test]
fn empty_pieces_are_kept() {
    assert_eq!(prep(&["--res="]), ["--res", ""]);
    assert_eq!(prep(&["="]), ["", ""]);
    assert_eq!(prep(&[""]), [""]);
}
