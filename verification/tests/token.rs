use sheepit::text::{
    appended, ends_with, find_first, replace_first, starts_with, strip_prefix, strip_suffix,
};
use sheepit::token::{TokenTrimmer, VERSION};

#[test]
fn new_empty_text() {
    let result = TokenTrimmer::new("", "$token");
    assert_eq!(None, result)
}

#[test]
fn new_empty_token() {
    let result = TokenTrimmer::new(" text ", "");
    assert_eq!(None, result)
}

#[test]
fn new_no_token_found() {
    let result = TokenTrimmer::new("my string", "$token");
    assert_eq!(None, result)
}

#[test]
fn new_token_at_start() {
    let result = TokenTrimmer::new("$token suffix", "$token");
    let expected = TokenTrimmer { before_token: "", after_token: " suffix" };
    assert_eq!(Some(expected), result)
}

#[test]
fn new_token_at_end() {
    let result = TokenTrimmer::new("prefix $token", "$token");
    let expected = TokenTrimmer { before_token: "prefix ", after_token: "" };
    assert_eq!(Some(expected), result)
}

#[test]
fn new_token_in_middle() {
    let result = TokenTrimmer::new("prefix $token suffix", "$token");
    let expected = TokenTrimmer { before_token: "prefix ", after_token: " suffix" };
    assert_eq!(Some(expected), result)
}

#[test]
fn new_only_token() {
    let result = TokenTrimmer::new("$token", "$token");
    assert_eq!(None, result)
}

#[test]
fn trim_text_trims_suffix_and_prefix() {
    let token_trimmer =
        TokenTrimmer::new("prefix_$token_suffix", "$token").expect("trimmer should exist");
    let trimmed_text = token_trimmer.trim_text("prefix_1.0.0_suffix");
    assert_eq!("1.0.0", trimmed_text)
}

#[test]
fn trim_text_trims_prefix() {
    let token_trimmer = TokenTrimmer::new("prefix_$token", "$token").expect("trimmer should exist");
    let trimmed_text = token_trimmer.trim_text("prefix_1.0.0_suffix");
    assert_eq!("1.0.0_suffix", trimmed_text)
}

#[test]
fn trim_text_trims_prefix_no_suffix() {
    let token_trimmer = TokenTrimmer::new("prefix_$token", "$token").expect("trimmer should exist");
    let trimmed_text = token_trimmer.trim_text("prefix_1.0.0");
    assert_eq!("1.0.0", trimmed_text)
}

#[test]
fn trim_text_trims_suffix() {
    let token_trimmer = TokenTrimmer::new("$token_suffix", "$token").expect("trimmer should exist");
    let trimmed_text = token_trimmer.trim_text("prefix_1.0.0_suffix");
    assert_eq!("prefix_1.0.0", trimmed_text)
}

#[test]
fn trim_text_trims_no_prefix() {
    let token_trimmer = TokenTrimmer::new("$token_suffix", "$token").expect("trimmer should exist");
    let trimmed_text = token_trimmer.trim_text("1.0.0_suffix");
    assert_eq!("1.0.0", trimmed_text)
}

#[test]
fn version_marker_is_the_braced_word() {
    assert_eq!("{version}", VERSION)
}

#[test]
fn new_splits_at_the_leftmost_of_two_tokens() {
    let result = TokenTrimmer::new("a$tokenb$tokenc", "$token");
    let expected = TokenTrimmer { before_token: "a", after_token: "b$tokenc" };
    assert_eq!(Some(expected), result)
}

#[test]
fn new_counts_characters_not_bytes() {
    let result = TokenTrimmer::new("héllo→{version}←wörld", "{version}");
    let expected = TokenTrimmer { before_token: "héllo→", after_token: "←wörld" };
    assert_eq!(Some(expected), result)
}

#[test]
fn trim_text_leaves_a_value_without_the_fixed_text() {
    let token_trimmer =
        TokenTrimmer::new("release_{version}_xxx", VERSION).expect("trimmer should exist");
    assert_eq!("2.0.0", token_trimmer.trim_text("2.0.0"));
    assert_eq!("", token_trimmer.trim_text(""));
}

#[test]
fn trimming_gives_back_what_was_put_in_the_pattern() {
    let pattern = "release_{version}_xxx";
    let token_trimmer = TokenTrimmer::new(pattern, VERSION).expect("trimmer should exist");
    for value in ["1.2.3", "", "release_", "_xxx", "{version}", "release_1_xxx"] {
        let filled = replace_first(pattern, VERSION, value);
        assert_eq!(value, token_trimmer.trim_text(&filled));
    }
}

#[test]
fn find_first_gives_the_leftmost_position() {
    let text: Vec<char> = "abcabc".chars().collect();
    let bc: Vec<char> = "bc".chars().collect();
    let cd: Vec<char> = "cd".chars().collect();
    let empty: Vec<char> = Vec::new();
    assert_eq!(Some(1), find_first(&text, &bc));
    assert_eq!(None, find_first(&text, &cd));
    assert_eq!(Some(0), find_first(&text, &empty));
    assert_eq!(Some(0), find_first(&empty, &empty));
    assert_eq!(None, find_first(&empty, &bc));
    assert_eq!(Some(0), find_first(&text, &text));
}

#[test]
fn replace_first_replaces_one_occurrence() {
    assert_eq!("xbcabc", replace_first("abcabc", "a", "x"));
    assert_eq!("abcabc", replace_first("abcabc", "d", "x"));
    assert_eq!("abcab", replace_first("abcabc", "cabc", "cab"));
    assert_eq!("xabc", replace_first("abc", "", "x"));
    assert_eq!("", replace_first("abc", "abc", ""));
    assert_eq!("x", replace_first("", "", "x"));
}

#[test]
fn replace_first_agrees_with_replacen() {
    let texts = ["", "a", "aa", "abab", "version_{version}_{version}", "ébé"];
    let patterns = ["", "a", "ab", "b", "{version}", "é", "zz"];
    for text in texts {
        for pattern in patterns {
            assert_eq!(text.replacen(pattern, "<>", 1), replace_first(text, pattern, "<>"));
        }
    }
}

#[test]
fn prefixes_and_suffixes() {
    assert!(starts_with("id_rsa", "id_"));
    assert!(!starts_with("id", "id_"));
    assert!(starts_with("id_rsa", ""));
    assert!(ends_with("id_rsa.pub", ".pub"));
    assert!(!ends_with("pub", ".pub"));
    assert!(ends_with("", ""));
    assert_eq!("rsa", strip_prefix("id_rsa", "id_"));
    assert_eq!("id_rsa", strip_prefix("id_rsa", "rsa"));
    assert_eq!("id_", strip_suffix("id_rsa", "rsa"));
    assert_eq!("id_rsa", strip_suffix("id_rsa", "id_"));
    assert_eq!("", strip_suffix("abc", "abc"));
}

#[test]
fn appended_puts_one_text_behind_the_other() {
    assert_eq!("refs/heads/x", appended("refs/heads/", "x"));
    assert_eq!("x", appended("", "x"));
    assert_eq!("x", appended("x", ""));
}
