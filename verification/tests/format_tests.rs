use luafmt::config::Config;
use luafmt::format_str;
use luafmt::LuaError;

fn fmt(src: &str, cfg: &Config) -> String {
    match format_str(src, cfg) {
        Ok(out) => out.iter().collect(),
        Err(_) => panic!("formatting failed for {:?}", src),
    }
}

fn cfg_of(pairs: &[(&str, &str)]) -> Config {
    let mut cfg = Config::default();
    for (name, value) in pairs {
        assert!(cfg.set(name, value), "option {} = {} was refused", name, value);
    }
    cfg
}

#[test]
fn statements_one_per_line() {
    let cfg = cfg_of(&[("indentation_string", "  "), ("newline_format_statement", "1")]);
    assert_eq!(fmt("a=1 b=2", &cfg), "a = 1\nb = 2");
}

fn table_cfg() -> Config {
    cfg_of(&[
        ("indentation_string", "  "),
        ("max_width", "20"),
        ("enable_oneline_iv_table", "true"),
        ("newline_format_table_field", "1"),
        ("newline_format_table_constructor", "1"),
        ("write_trailing_field_separator", "true"),
    ])
}

#[test]
fn sequential_table_stays_on_one_line() {
    assert_eq!(fmt("t={1,2,3}", &table_cfg()), "t = {1, 2, 3}");
}

#[test]
fn keyed_table_breaks_per_field() {
    assert_eq!(
        fmt("t={a=1,b=2,c=3}", &table_cfg()),
        "t = {\n  a = 1,\n  b = 2,\n  c = 3,\n}"
    );
}

fn if_cfg() -> Config {
    cfg_of(&[("max_width", "10"), ("enable_oneline_if", "true"), ("newline_format_if", "1")])
}

#[test]
fn short_if_stays_on_one_line() {
    assert_eq!(fmt("if x then y() end", &if_cfg()), "if x then y() end");
}

#[test]
fn wide_if_breaks_across_lines() {
    assert_eq!(
        fmt("if xxxxxxx then yyyyyyy() end", &if_cfg()),
        "if xxxxxxx then\nyyyyyyy()\nend"
    );
}

#[test]
fn comments_can_be_removed() {
    let cfg = cfg_of(&[("remove_comments", "true")]);
    assert_eq!(fmt("x = 1 -- note", &cfg), "x = 1");
}

#[test]
fn level_two_long_bracket_round_trips() {
    let cfg = Config::default();
    let src = "x = [==[ long [[ string ]] ]==]";
    assert_eq!(fmt(src, &cfg), src);
}

#[test]
fn comment_padding_comes_only_from_options() {
    // with no option set, nothing is put around a comment block; the line
    // break closing the line comment is part of the block itself
    assert_eq!(fmt("x = 1 -- note", &Config::default()), "x = 1-- note\n");
    // the configured hint supplies the padding before a line comment
    let cfg = cfg_of(&[("hint_before_comment", " ")]);
    assert_eq!(fmt("x = 1 -- note", &cfg), "x = 1 -- note\n");
    // replace_zero_spaces_with_hint forces a single space when no hint is set
    let cfg2 = cfg_of(&[("replace_zero_spaces_with_hint", "true")]);
    assert_eq!(fmt("x = 1 -- note", &cfg2), "x = 1 -- note\n");
}

#[test]
fn multiline_comment_padding_comes_only_from_options() {
    assert_eq!(fmt("y = 2 --[[ c ]] z = 3", &Config::default()), "y = 2--[[ c ]]z = 3");
    let cfg = cfg_of(&[("hint_before_comment", " "), ("hint_after_multiline_comment", " ")]);
    assert_eq!(fmt("y = 2 --[[ c ]] z = 3", &cfg), "y = 2 --[[ c ]] z = 3");
}

#[test]
fn removal_options_give_the_flat_rendering_exactly() {
    let cfg = cfg_of(&[("remove_comments", "true"), ("remove_newlines", "true")]);
    assert_eq!(fmt("while x do y() end", &cfg), "while x do y() end");
    assert_eq!(fmt("if a then b() else c() end", &cfg), "if a then b() else c() end");
    assert_eq!(fmt("local t = { a = 1, 2 } -- gone", &cfg), "local t = {a = 1, 2}");
}

#[test]
fn comments_are_preserved_by_default() {
    let cfg = Config::default();
    let out = fmt("x = 1 -- note\ny = 2", &cfg);
    assert!(out.contains("-- note"), "comment lost: {:?}", out);
    assert!(out.contains("y = 2"), "code lost: {:?}", out);
}

fn sample_sources() -> Vec<&'static str> {
    vec![
        "a=1 b=2",
        "local x = 10\nlocal y = x + 1\nprint(x, y)",
        "function f(a, b)\n  return a + b\nend\nf(1, 2)",
        "t = { a = 1, b = 2, 3, 4 }",
        "for i = 1, 10 do t[i] = i * i end",
        "for k, v in pairs(t) do print(k, v) end",
        "while x > 0 do x = x - 1 end",
        "repeat x = x + 1 until x == 10",
        "if a then b() elseif c then d() else e() end",
        "do local z = 1 end",
        "obj:method(1, 2).field[3] = \"s\" .. 'c' .. [[long]]",
        "local f = function(...) return ... end",
        "goto top ::top:: break",
        "return 1, 2;",
        "x = 1 -- one\n-- two\ny = 2 --[[ three ]] z = 3",
        "#!/usr/bin/lua\nprint(1)",
        "local M = {}\nfunction M.new(n)\n  local self = { count = n or 0 }\n  return setmetatable(self, { __index = M })\nend\nfunction M:step()\n  if self.count > 0 then\n    self.count = self.count - 1\n  else\n    self.count = 0 -- floor\n  end\n  return self.count\nend\nreturn M",
    ]
}

fn sample_configs() -> Vec<Config> {
    vec![
        Config::default(),
        cfg_of(&[("indentation_string", "  "), ("newline_format_statement", "1")]),
        table_cfg(),
        if_cfg(),
        cfg_of(&[("remove_comments", "true"), ("remove_newlines", "true")]),
        cfg_of(&[
            ("indentation_string", "\t"),
            ("newline_format_statement", "1"),
            ("newline_format_function", "1"),
            ("newline_format_if", "1"),
            ("newline_format_do_end", "1"),
            ("newline_format_while", "1"),
            ("newline_format_repeat_until", "1"),
            ("newline_format_for", "1"),
        ]),
        cfg_of(&[
            ("max_width", "30"),
            ("newline_format_function", "1"),
            ("enable_oneline_top_level_function", "true"),
            ("enable_oneline_scoped_function", "true"),
            ("newline_format_binary_op", "1"),
            ("enable_oneline_binary_op", "true"),
        ]),
        cfg_of(&[("field_separator", ";"), ("write_newline_at_eof", "true")]),
    ]
}

#[test]
fn formatting_is_idempotent() {
    for src in sample_sources() {
        for cfg in sample_configs() {
            let once = fmt(src, &cfg);
            let twice = fmt(&once, &cfg);
            assert_eq!(once, twice, "not idempotent for {:?}", src);
        }
    }
}

fn token_kinds(src: &str) -> Vec<luafmt::lexer::Token> {
    let chars: Vec<char> = src.chars().collect();
    match luafmt::lexer::tokenize(&chars, 0) {
        Ok(toks) => toks.into_iter().map(|t| t.1).collect(),
        Err(e) => panic!("lexing failed for {:?}: {:?}", src, e),
    }
}

#[test]
fn formatting_preserves_the_token_stream() {
    for src in sample_sources() {
        if src.starts_with("#!") {
            // the shebang line is not made of tokens
            continue;
        }
        for cfg in sample_configs() {
            if cfg.write_trailing_field_separator == Some(true)
                || cfg.field_separator.is_some()
            {
                // those options add or rewrite separator tokens on purpose
                continue;
            }
            let out = fmt(src, &cfg);
            assert_eq!(
                token_kinds(src),
                token_kinds(&out),
                "token stream changed for {:?} -> {:?}",
                src,
                out
            );
        }
    }
}

#[test]
fn trailing_separator_adds_one_comma_token() {
    let out = fmt("t = { a = 1, b = 2, 3, 4 }", &table_cfg());
    let before = token_kinds("t = { a = 1, b = 2, 3, 4 }");
    let after = token_kinds(&out);
    assert_eq!(after.len(), before.len() + 1);
    assert_eq!(after[after.len() - 3], luafmt::lexer::Token::Comma);
}

#[test]
fn every_gap_character_sits_in_exactly_one_span() {
    for src in sample_sources() {
        if src.starts_with("#!") {
            continue;
        }
        let chars: Vec<char> = src.chars().collect();
        let toks = match luafmt::lexer::tokenize(&chars, 0) {
            Ok(toks) => toks,
            Err(_) => panic!("lexing failed"),
        };
        let node = match luafmt::parser::parse_lua(&chars) {
            Ok(node) => node,
            Err(_) => panic!("parsing failed"),
        };
        let mut spans: Vec<luafmt::lua_ast::Loc> = Vec::new();
        node.collect_spans(&mut spans);
        let n = chars.len();
        let mut in_token = vec![false; n];
        for (l, t, r) in &toks {
            if !matches!(t, luafmt::lexer::Token::EOF) {
                for p in *l..*r {
                    in_token[p] = true;
                }
            }
        }
        let mut count = vec![0usize; n];
        for s in &spans {
            for p in s.0..s.1 {
                count[p] += 1;
            }
        }
        for p in 0..n {
            if in_token[p] {
                assert_eq!(count[p], 0, "token char {} lies in a span in {:?}", p, src);
            } else {
                assert_eq!(count[p], 1, "gap char {} covered {} times in {:?}", p, count[p], src);
            }
        }
    }
}

#[test]
fn one_line_table_commits_only_within_the_width() {
    let cfg = cfg_of(&[
        ("indentation_string", "  "),
        ("max_width", "12"),
        ("newline_format_table_constructor", "1"),
        ("newline_format_table_field", "1"),
        ("enable_oneline_table_constructor", "true"),
    ]);
    assert_eq!(fmt("t={a=1}", &cfg), "t = {a = 1}");
    let out = fmt("t={aaa=1,bb=2}", &cfg);
    assert!(out.contains('\n'), "expected a break: {:?}", out);
    for line in out.lines() {
        assert!(line.chars().count() <= 12, "line too wide: {:?}", line);
    }
}

#[test]
fn suffix_chain_breaks_when_configured() {
    let cfg = cfg_of(&[("indentation_string", "  "), ("newline_format_var_suffix", "1")]);
    assert_eq!(fmt("x = obj.aaa.bbb:ccc()", &cfg), "x = obj\n.aaa\n.bbb\n:ccc()");
}

#[test]
fn shebang_line_is_kept() {
    let out = fmt("#!/usr/bin/lua\nprint(1)", &Config::default());
    assert_eq!(out, "#!/usr/bin/lua\nprint(1)");
}

#[test]
fn unknown_symbol_is_a_lex_error() {
    let r = format_str("x = $", &Config::default());
    assert!(matches!(
        r,
        Err(LuaError::Parse(luafmt::parser::ParseError::Lexical(
            luafmt::lexer::LexicalError::UnrecognizedSymbol(4, '$')
        )))
    ));
}

#[test]
fn unterminated_string_is_a_lex_error() {
    let r = format_str("x = \"abc", &Config::default());
    assert!(matches!(
        r,
        Err(LuaError::Parse(luafmt::parser::ParseError::Lexical(
            luafmt::lexer::LexicalError::UnexpectedEOF
        )))
    ));
}

#[test]
fn unterminated_long_bracket_is_a_lex_error() {
    let r = format_str("x = [==[ never closed ]]", &Config::default());
    assert!(matches!(
        r,
        Err(LuaError::Parse(luafmt::parser::ParseError::Lexical(
            luafmt::lexer::LexicalError::UnexpectedEOF
        )))
    ));
}

#[test]
fn syntax_error_reports_offset_and_token() {
    let r = format_str("if x", &Config::default());
    match r {
        Err(LuaError::Parse(luafmt::parser::ParseError::UnexpectedToken(off, text))) => {
            assert_eq!(off, 4);
            let s: String = text.iter().collect();
            assert_eq!(s, "<EOF>");
        }
        _ => panic!("expected a syntax error"),
    }
    let r2 = format_str("x =", &Config::default());
    assert!(matches!(
        r2,
        Err(LuaError::Parse(luafmt::parser::ParseError::UnexpectedToken(_, _)))
    ));
    let r3 = format_str("a.b", &Config::default());
    match r3 {
        Err(LuaError::Parse(luafmt::parser::ParseError::UnexpectedToken(off, text))) => {
            assert_eq!(off, 0);
            let s: String = text.iter().collect();
            assert_eq!(s, "\"a\"");
        }
        _ => panic!("expected a syntax error"),
    }
}

#[test]
fn empty_input_formats_to_nothing() {
    assert_eq!(fmt("", &Config::default()), "");
}

#[test]
fn newline_at_eof_option() {
    let cfg = cfg_of(&[("write_newline_at_eof", "true")]);
    let out = fmt("x = 1", &cfg);
    assert_eq!(out, "x = 1\n");
}

#[test]
fn config_set_accepts_and_refuses() {
    let mut cfg = Config::default();
    assert!(cfg.set("max_width", "20"));
    assert_eq!(cfg.max_width, Some(20));
    assert!(!cfg.set("max_width", "abc"));
    assert_eq!(cfg.max_width, Some(20));
    assert!(cfg.set("remove_comments", "true"));
    assert_eq!(cfg.remove_comments, Some(true));
    assert!(!cfg.set("remove_comments", "yes"));
    assert!(cfg.set("indentation_string", "    "));
    let ind: String = cfg.indentation_string.clone().unwrap().iter().collect();
    assert_eq!(ind, "    ");
    assert!(!cfg.set("no_such_option", "1"));
    assert!(!cfg.set("max_width", "99999999999999999999999999"));
}

#[test]
fn field_separator_is_normalized_when_configured() {
    let cfg = cfg_of(&[("field_separator", ";")]);
    assert_eq!(fmt("t = {1, 2}", &cfg), "t = {1; 2}");
}

#[test]
fn source_separator_is_kept_when_not_configured() {
    let cfg = Config::default();
    assert_eq!(fmt("t = {1; 2}", &cfg), "t = {1; 2}");
}

#[test]
fn remove_spaces_between_tokens_is_exposed() {
    // the space hint echoes its span unless the option removes it
    let cfg = cfg_of(&[("remove_spaces_between_tokens", "true")]);
    let buf: Vec<char> = "a   b".chars().collect();
    let hint = luafmt::loc_hint::SpaceLocHint::new(luafmt::lua_ast::Loc(1, 4), vec![' ']);
    let mut out: Vec<char> = Vec::new();
    let state = luafmt::config::State::default();
    hint.configured_write(&mut out, &cfg, &buf, &state);
    let s: String = out.iter().collect();
    assert_eq!(s, " ");
    let mut out2: Vec<char> = Vec::new();
    let hint2 = luafmt::loc_hint::SpaceLocHint::new(luafmt::lua_ast::Loc(1, 4), vec![' ']);
    hint2.configured_write(&mut out2, &Config::default(), &buf, &state);
    let s2: String = out2.iter().collect();
    assert_eq!(s2, "   ");
}

#[test]
fn balanced_state_after_formatting() {
    // the printer hands its state back balanced; the library asserts this
    // internally, and a caller driving configured_write sees it too
    let chars: Vec<char> = "if a then while b do c() end end".chars().collect();
    let node = match luafmt::parser::parse_lua(&chars) {
        Ok(n) => n,
        Err(_) => panic!("parse failed"),
    };
    let mut out: Vec<char> = Vec::new();
    let mut state = luafmt::config::State::default();
    let cfg = cfg_of(&[("indentation_string", "  "), ("newline_format_if", "1"), ("newline_format_while", "1")]);
    assert!(node.configured_write(&mut out, &cfg, &chars, &mut state).is_ok());
    assert_eq!(state.indent_level, 0);
    assert_eq!(state.function_nested_level, 0);
}

#[test]
fn binary_op_breaks_before_or_after_the_operator() {
    let before = cfg_of(&[
        ("indentation_string", "  "),
        ("max_width", "10"),
        ("newline_format_binary_op", "1"),
        ("enable_oneline_binary_op", "true"),
    ]);
    assert_eq!(fmt("x = aaaa + bbbb", &before), "x = aaaa\n  + bbbb");
    let after = cfg_of(&[
        ("indentation_string", "  "),
        ("max_width", "10"),
        ("newline_format_binary_op", "2"),
        ("enable_oneline_binary_op", "true"),
    ]);
    assert_eq!(fmt("x = aaaa + bbbb", &after), "x = aaaa +\n  bbbb");
    let wide = cfg_of(&[
        ("indentation_string", "  "),
        ("max_width", "30"),
        ("newline_format_binary_op", "1"),
        ("enable_oneline_binary_op", "true"),
    ]);
    assert_eq!(fmt("x = aaaa + bbbb", &wide), "x = aaaa + bbbb");
}

#[test]
fn expression_list_earns_its_indent_only_when_it_breaks() {
    let cfg = cfg_of(&[
        ("indentation_string", "  "),
        ("newline_format_exp_list_first", "1"),
        ("indent_exp_list", "true"),
    ]);
    assert_eq!(fmt("x = 1", &cfg), "x =\n  1");
}

#[test]
fn function_bodies_collapse_per_nesting_policy() {
    let top = cfg_of(&[
        ("max_width", "40"),
        ("newline_format_function", "1"),
        ("enable_oneline_top_level_function", "true"),
    ]);
    assert_eq!(fmt("f = function() return 1 end", &top), "f = function() return 1 end");
    let scoped_only = cfg_of(&[
        ("max_width", "40"),
        ("newline_format_function", "1"),
        ("enable_oneline_scoped_function", "true"),
    ]);
    assert_eq!(
        fmt("f = function() return 1 end", &scoped_only),
        "f = function()\nreturn 1\nend"
    );
}

#[test]
fn zero_width_spans_render_as_their_placeholders() {
    // the zero-space hint is the default here, so the switch changes nothing
    let cfg = cfg_of(&[("replace_zero_spaces_with_hint", "true")]);
    assert_eq!(fmt("y=-x", &cfg), "y = -x");
    assert_eq!(fmt("y=-x", &Config::default()), "y = -x");
}

#[test]
fn indent_format_zero_keeps_the_body_flat() {
    let indented = cfg_of(&[("indentation_string", "  "), ("newline_format_do_end", "1")]);
    assert_eq!(fmt("do x = 1 end", &indented), "do\n  x = 1\nend");
    let flat = cfg_of(&[
        ("indentation_string", "  "),
        ("newline_format_do_end", "1"),
        ("do_end_indent_format", "0"),
    ]);
    assert_eq!(fmt("do x = 1 end", &flat), "do\nx = 1\nend");
    let flat_if = cfg_of(&[
        ("indentation_string", "  "),
        ("newline_format_if", "1"),
        ("if_indent_format", "0"),
    ]);
    assert_eq!(fmt("if a then b() end", &flat_if), "if a then\nb()\nend");
}

#[test]
fn nested_sequential_tables_stay_inline() {
    assert_eq!(fmt("t={{1},{2}}", &table_cfg()), "t = {{1}, {2}}");
}
