use luafmt::config::Config;
use luafmt::util::{get_positon_after_newline, trim_end_spaces_and_tabs};

#[test]
fn test_trim_end_spaces_and_tabs() {
    assert_eq!(trim_end_spaces_and_tabs(&"abc\t  \t  ".to_string()), "abc");
    assert_eq!(trim_end_spaces_and_tabs(&"abc\t  \n\t  ".to_string()), "abc\t  \n");
    assert_eq!(trim_end_spaces_and_tabs(&"abc\t  \r\t  ".to_string()), "abc\t  \r");
}

#[test]
fn test_position_after_newline() {
    let cfg = Config::default();
    assert_eq!(get_positon_after_newline("abc\t  \n  ", &cfg), 3);
    assert_eq!(get_positon_after_newline("abc\t  \n  absdsrf", &cfg), 10);
    assert_eq!(get_positon_after_newline("\nabc\t dasdsadas \n  asdasdas\nabsdsrf", &cfg), 8);
}

#[test]
fn test_longest_hint() {
    assert_eq!(luafmt::util::longest_hint("ab", "c"), "ab");
    assert_eq!(luafmt::util::longest_hint("a", "bc"), "bc");
    assert_eq!(luafmt::util::longest_hint("ab", "cd"), "ab");
}

#[test]
fn test_write_indent() {
    let mut cfg = Config::default();
    assert!(cfg.set("indentation_string", "  "));
    let mut state = luafmt::config::State::default();
    state.indent_level = 2;
    let mut out: Vec<char> = Vec::new();
    luafmt::util::write_indent(&mut out, &cfg, &state);
    let s: String = out.iter().collect();
    assert_eq!(s, "    ");
    state.indent_level = -1;
    let mut out2: Vec<char> = Vec::new();
    luafmt::util::write_indent(&mut out2, &cfg, &state);
    assert_eq!(out2.len(), 0);
}
