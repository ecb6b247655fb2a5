use system_manager_server::text::{
    begins_with, lines, listed, same_text, text_of, to_chars, trim, whitespace, words,
};

const SAMPLES: [&str; 22] = [
    "",
    " ",
    "\n",
    "\r\n",
    "a",
    "a\n",
    "a\r\n",
    "a\rb",
    "a\r",
    "\ra\n",
    "a\n\nb",
    "a\r\r\nb\n",
    "one two  three\tfour\nfive",
    "  leading and trailing  ",
    "apt/stable 1.2.3 amd64 [upgradable from: 1.2.2]\nvim/stable 9.0 amd64\n",
    "tab\tseparated\u{b}vertical\u{c}feed",
    "no\u{a0}break\u{2003}em\u{3000}ideographic",
    "\u{85}next\u{2028}line\u{2029}para",
    "zero\u{200b}width",
    "ünïcödé wörds hier",
    "\n\n\n",
    "x\n\r\ny\r\n\r\n",
];

#[test]
fn words_agree_with_the_standard_library() {
    for sample in SAMPLES {
        let expected: Vec<String> = sample.split_whitespace().map(|word| word.to_string()).collect();
        assert_eq!(words(sample), expected, "words of {:?}", sample);
    }
}

#[test]
fn lines_agree_with_the_standard_library() {
    for sample in SAMPLES {
        let expected: Vec<String> = sample.lines().map(|line| line.to_string()).collect();
        assert_eq!(lines(sample), expected, "lines of {:?}", sample);
    }
}

#[test]
fn trim_agrees_with_the_standard_library() {
    for sample in SAMPLES {
        assert_eq!(trim(sample), sample.trim().to_string(), "trim of {:?}", sample);
    }
}

#[test]
fn whitespace_agrees_with_the_standard_library() {
    for code in 0..0x11_0000u32 {
        if let Some(c) = char::from_u32(code) {
            assert_eq!(whitespace(c), c.is_whitespace(), "character {:x}", code);
        }
    }
}

#[test]
fn words_of_a_line_of_updates() {
    assert_eq!(words("vim  9.1\tamd64"), vec!["vim".to_string(), "9.1".to_string(), "amd64".to_string()]);
    assert!(words(" \t ").is_empty());
}

#[test]
fn lines_drop_the_carriage_return_before_a_line_feed() {
    assert_eq!(lines("a\r\nb\n"), vec!["a".to_string(), "b".to_string()]);
    assert_eq!(lines("a\rb"), vec!["a\rb".to_string()]);
    assert_eq!(lines("\n"), vec!["".to_string()]);
    assert!(lines("").is_empty());
}

#[test]
fn characters_and_back() {
    let chars = to_chars("héllo");
    assert_eq!(chars, vec!['h', 'é', 'l', 'l', 'o']);
    assert_eq!(text_of(&chars, 1, 4), "éll");
    assert_eq!(text_of(&chars, 2, 2), "");
    assert_eq!(text_of(&chars, 0, 5), "héllo");
}

#[test]
fn comparing_texts() {
    assert!(same_text("sudo", "sudo"));
    assert!(!same_text("sudo", "sudo "));
    assert!(!same_text("sudo", "Sudo"));
    assert!(same_text("", ""));
    assert!(begins_with(&to_chars("plugin/x"), &to_chars("plugin/")));
    assert!(begins_with(&to_chars("plugin/"), &to_chars("plugin/")));
    assert!(!begins_with(&to_chars("plugin"), &to_chars("plugin/")));
    assert!(begins_with(&to_chars("abc"), &to_chars("")));
    assert!(!begins_with(&to_chars("xplugin/"), &to_chars("plugin/")));
}

#[test]
fn looking_up_a_text() {
    let names = vec!["adm".to_string(), "wheel".to_string()];
    assert!(listed(&names, "wheel"));
    assert!(!listed(&names, "whee"));
    assert!(!listed(&Vec::new(), "wheel"));
}
