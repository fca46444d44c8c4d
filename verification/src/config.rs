//! Formatting options and the mutable printer state.
//!
//! Every option is absent by default; a behavior is enabled only when its
//! option is explicitly set.

use vstd::prelude::*;

use crate::util::{chars_eq_str, clone_chars};

verus! {

pub struct Config {
    // comments
    pub hint_after_multiline_comment: Option<Vec<char>>,
    pub hint_after_multiline_comment_text: Option<Vec<char>>,
    pub hint_before_comment: Option<Vec<char>>,
    pub hint_before_multiline_comment_text: Option<Vec<char>>,
    pub hint_before_oneline_comment_text: Option<Vec<char>>,
    pub remove_comments: Option<bool>,
    pub remove_newlines: Option<bool>,
    pub remove_spaces_between_tokens: Option<bool>,
    pub replace_zero_spaces_with_hint: Option<bool>,
    // indent
    pub indentation_string: Option<Vec<char>>,
    pub indent_every_statement: Option<bool>,
    pub indent_oneline_comments: Option<bool>,
    pub indent_multiline_comments: Option<bool>,
    pub indent_first_oneline_comment: Option<bool>,
    pub indent_first_multiline_comment: Option<bool>,
    pub indent_exp_list: Option<bool>,
    pub indent_one_line_exp_list: Option<bool>,
    pub indent_var_suffix: Option<bool>,
    pub indent_one_line_var_suffix: Option<bool>,
    pub do_end_indent_format: Option<usize>,
    pub for_indent_format: Option<usize>,
    pub function_indent_format: Option<usize>,
    pub if_indent_format: Option<usize>,
    pub repeat_until_indent_format: Option<usize>,
    pub while_do_indent_format: Option<usize>,
    // per-construct line breaks
    pub newline_format_statement: Option<usize>,
    pub newline_format_exp_list: Option<usize>,
    pub newline_format_exp_list_first: Option<usize>,
    pub newline_format_binary_op: Option<usize>,
    pub newline_format_table_constructor: Option<usize>,
    pub newline_format_table_field: Option<usize>,
    pub newline_format_function: Option<usize>,
    pub newline_format_if: Option<usize>,
    pub newline_format_do_end: Option<usize>,
    pub newline_format_while: Option<usize>,
    pub newline_format_repeat_until: Option<usize>,
    pub newline_format_for: Option<usize>,
    pub newline_format_var_suffix: Option<usize>,
    // one-line probes
    pub enable_oneline_binary_op: Option<bool>,
    pub enable_oneline_table_constructor: Option<bool>,
    pub enable_oneline_table_field: Option<bool>,
    pub enable_oneline_iv_table: Option<bool>,
    pub enable_oneline_if: Option<bool>,
    pub enable_oneline_top_level_function: Option<bool>,
    pub enable_oneline_scoped_function: Option<bool>,
    pub enable_oneline_exp_list: Option<bool>,
    pub enable_oneline_var_suffix: Option<bool>,
    // other
    pub max_width: Option<usize>,
    pub hint_table_constructor: Option<Vec<char>>,
    pub field_separator: Option<Vec<char>>,
    pub write_trailing_field_separator: Option<bool>,
    pub write_newline_at_eof: Option<bool>,
}

pub open spec fn spec_default_config() -> Config {
    Config {
        hint_after_multiline_comment: None,
        hint_after_multiline_comment_text: None,
        hint_before_comment: None,
        hint_before_multiline_comment_text: None,
        hint_before_oneline_comment_text: None,
        remove_comments: None,
        remove_newlines: None,
        remove_spaces_between_tokens: None,
        replace_zero_spaces_with_hint: None,
        indentation_string: None,
        indent_every_statement: None,
        indent_oneline_comments: None,
        indent_multiline_comments: None,
        indent_first_oneline_comment: None,
        indent_first_multiline_comment: None,
        indent_exp_list: None,
        indent_one_line_exp_list: None,
        indent_var_suffix: None,
        indent_one_line_var_suffix: None,
        do_end_indent_format: None,
        for_indent_format: None,
        function_indent_format: None,
        if_indent_format: None,
        repeat_until_indent_format: None,
        while_do_indent_format: None,
        newline_format_statement: None,
        newline_format_exp_list: None,
        newline_format_exp_list_first: None,
        newline_format_binary_op: None,
        newline_format_table_constructor: None,
        newline_format_table_field: None,
        newline_format_function: None,
        newline_format_if: None,
        newline_format_do_end: None,
        newline_format_while: None,
        newline_format_repeat_until: None,
        newline_format_for: None,
        newline_format_var_suffix: None,
        enable_oneline_binary_op: None,
        enable_oneline_table_constructor: None,
        enable_oneline_table_field: None,
        enable_oneline_iv_table: None,
        enable_oneline_if: None,
        enable_oneline_top_level_function: None,
        enable_oneline_scoped_function: None,
        enable_oneline_exp_list: None,
        enable_oneline_var_suffix: None,
        max_width: None,
        hint_table_constructor: None,
        field_separator: None,
        write_trailing_field_separator: None,
        write_newline_at_eof: None,
    }
}

impl Config {
    /// A configuration with every option absent.
    pub fn default() -> (r: Config)
        ensures
            r == spec_default_config(),
    {
        Config {
            hint_after_multiline_comment: None,
            hint_after_multiline_comment_text: None,
            hint_before_comment: None,
            hint_before_multiline_comment_text: None,
            hint_before_oneline_comment_text: None,
            remove_comments: None,
            remove_newlines: None,
            remove_spaces_between_tokens: None,
            replace_zero_spaces_with_hint: None,
            indentation_string: None,
            indent_every_statement: None,
            indent_oneline_comments: None,
            indent_multiline_comments: None,
            indent_first_oneline_comment: None,
            indent_first_multiline_comment: None,
            indent_exp_list: None,
            indent_one_line_exp_list: None,
            indent_var_suffix: None,
            indent_one_line_var_suffix: None,
            do_end_indent_format: None,
            for_indent_format: None,
            function_indent_format: None,
            if_indent_format: None,
            repeat_until_indent_format: None,
            while_do_indent_format: None,
            newline_format_statement: None,
            newline_format_exp_list: None,
            newline_format_exp_list_first: None,
            newline_format_binary_op: None,
            newline_format_table_constructor: None,
            newline_format_table_field: None,
            newline_format_function: None,
            newline_format_if: None,
            newline_format_do_end: None,
            newline_format_while: None,
            newline_format_repeat_until: None,
            newline_format_for: None,
            newline_format_var_suffix: None,
            enable_oneline_binary_op: None,
            enable_oneline_table_constructor: None,
            enable_oneline_table_field: None,
            enable_oneline_iv_table: None,
            enable_oneline_if: None,
            enable_oneline_top_level_function: None,
            enable_oneline_scoped_function: None,
            enable_oneline_exp_list: None,
            enable_oneline_var_suffix: None,
            max_width: None,
            hint_table_constructor: None,
            field_separator: None,
            write_trailing_field_separator: None,
            write_newline_at_eof: None,
        }
    }
}

/// Mutable printer state: the open indentation levels and the number of open
/// function bodies.
#[derive(Clone, Copy, PartialEq, Eq, Structural)]
pub struct State {
    pub indent_level: isize,
    pub function_nested_level: usize,
}

impl State {
    /// The state a fresh top-level print starts from: both counters at zero.
    pub fn default() -> (r: State)
        ensures
            r.indent_level == 0,
            r.function_nested_level == 0,
    {
        State { indent_level: 0, function_nested_level: 0 }
    }
}

/// The one failure a print can meet: an indentation or nesting counter that
/// cannot move any further.
pub enum FormatError {
    StateOverflow,
}

/// Opens one indentation level.
pub fn inc_indent(state: &mut State) -> (r: Result<(), FormatError>)
    ensures
        r.is_ok() ==> final(state).indent_level == old(state).indent_level + 1
            && final(state).function_nested_level == old(state).function_nested_level,
{
    if state.indent_level == isize::MAX {
        Err(FormatError::StateOverflow)
    } else {
        state.indent_level = state.indent_level + 1;
        Ok(())
    }
}

/// Closes one indentation level; callers open a level first, so the counter
/// cannot underflow.
pub fn dec_indent(state: &mut State)
    requires
        old(state).indent_level > isize::MIN,
    ensures
        final(state).indent_level == old(state).indent_level - 1,
        final(state).function_nested_level == old(state).function_nested_level,
{
    state.indent_level = state.indent_level - 1;
}

/// Opens one function body.
pub fn inc_func_level(state: &mut State) -> (r: Result<(), FormatError>)
    ensures
        r.is_ok() ==> final(state).function_nested_level == old(
            state,
        ).function_nested_level + 1 && final(state).indent_level == old(state).indent_level,
{
    if state.function_nested_level == usize::MAX {
        Err(FormatError::StateOverflow)
    } else {
        state.function_nested_level = state.function_nested_level + 1;
        Ok(())
    }
}

/// Opens one indentation level when `on` holds; a construct whose indent
/// format option turns indentation off keeps its body at the current level.
pub fn inc_indent_if(state: &mut State, on: bool) -> (r: Result<(), FormatError>)
    ensures
        r.is_ok() && on ==> final(state).indent_level == old(state).indent_level + 1,
        r.is_ok() && !on ==> *final(state) == *old(state),
        r.is_ok() ==> final(state).function_nested_level == old(state).function_nested_level,
{
    if on {
        inc_indent(state)
    } else {
        Ok(())
    }
}

/// Closes the level `inc_indent_if` opened under the same condition.
pub fn dec_indent_if(state: &mut State, on: bool)
    requires
        on ==> old(state).indent_level > isize::MIN,
    ensures
        on ==> final(state).indent_level == old(state).indent_level - 1,
        !on ==> *final(state) == *old(state),
        final(state).function_nested_level == old(state).function_nested_level,
{
    if on {
        dec_indent(state);
    }
}

/// Closes one function body; callers open one first.
pub fn dec_func_level(state: &mut State)
    requires
        old(state).function_nested_level > 0,
    ensures
        final(state).function_nested_level == old(state).function_nested_level - 1,
        final(state).indent_level == old(state).indent_level,
{
    state.function_nested_level = state.function_nested_level - 1;
}

/// The decimal value of one digit character, or a negative number for
/// anything else.
pub open spec fn digit_of(c: char) -> int {
    if c == '0' {
        0
    } else if c == '1' {
        1
    } else if c == '2' {
        2
    } else if c == '3' {
        3
    } else if c == '4' {
        4
    } else if c == '5' {
        5
    } else if c == '6' {
        6
    } else if c == '7' {
        7
    } else if c == '8' {
        8
    } else if c == '9' {
        9
    } else {
        -1
    }
}

/// The value of a digit string read in base ten.
pub open spec fn digits_val(s: Seq<char>) -> int
    decreases s.len(),
{
    if s.len() == 0 {
        0
    } else {
        digits_val(s.drop_last()) * 10 + digit_of(s.last())
    }
}

/// What `set` accepts as a boolean value.
pub open spec fn spec_parse_bool(s: Seq<char>) -> Option<bool> {
    if s == "true"@ {
        Some(true)
    } else if s == "false"@ {
        Some(false)
    } else {
        None
    }
}

/// What `set` accepts as a numeric value: a non-empty run of digits whose
/// value fits the machine.
pub open spec fn spec_parse_usize(s: Seq<char>) -> Option<usize> {
    if s.len() > 0 && (forall|i: int| 0 <= i < s.len() ==> digit_of(#[trigger] s[i]) >= 0)
        && digits_val(s) <= usize::MAX {
        Some(digits_val(s) as usize)
    } else {
        None
    }
}

/// On an all-digit string the value of a prefix never exceeds the value of
/// the whole, and neither is negative.
proof fn lemma_digits_val_mono(s: Seq<char>, i: int)
    requires
        0 <= i <= s.len(),
        forall|j: int| 0 <= j < s.len() ==> digit_of(#[trigger] s[j]) >= 0,
    ensures
        0 <= digits_val(s.subrange(0, i)) <= digits_val(s),
    decreases s.len() - i,
{
    if i == s.len() {
        assert(s.subrange(0, i) =~= s);
        lemma_digits_val_nonneg(s.subrange(0, i), s);
    } else {
        lemma_digits_val_mono(s, i + 1);
        let a = s.subrange(0, i);
        let b = s.subrange(0, i + 1);
        assert(b.drop_last() =~= a);
        assert(digits_val(b) == digits_val(a) * 10 + digit_of(s[i]));
        lemma_digits_val_nonneg(a, s);
        assert(digits_val(a) <= digits_val(a) * 10) by (nonlinear_arith)
            requires
                digits_val(a) >= 0,
        ;
    }
}

/// The value of an all-digit string is not negative.
proof fn lemma_digits_val_nonneg(p: Seq<char>, s: Seq<char>)
    requires
        p.len() <= s.len(),
        forall|j: int| 0 <= j < s.len() ==> digit_of(#[trigger] s[j]) >= 0,
        forall|j: int| 0 <= j < p.len() ==> p[j] == s[j],
    ensures
        digits_val(p) >= 0,
    decreases p.len(),
{
    if p.len() > 0 {
        lemma_digits_val_nonneg(p.drop_last(), s);
        assert(digit_of(p.last()) == digit_of(s[p.len() - 1]));
        assert(digits_val(p.drop_last()) * 10 >= 0) by (nonlinear_arith)
            requires
                digits_val(p.drop_last()) >= 0,
        ;
    }
}

/// Reads a boolean value as `set` defines it.
pub fn parse_bool(v: &Vec<char>) -> (r: Option<bool>)
    ensures
        r == spec_parse_bool(v@),
{
    if crate::util::chars_eq_str(v, "true") {
        Some(true)
    } else if crate::util::chars_eq_str(v, "false") {
        Some(false)
    } else {
        None
    }
}

fn digit_value(c: char) -> (r: Option<usize>)
    ensures
        match r {
            Some(d) => digit_of(c) == d && d <= 9,
            None => digit_of(c) < 0,
        },
{
    match c {
        '0' => Some(0),
        '1' => Some(1),
        '2' => Some(2),
        '3' => Some(3),
        '4' => Some(4),
        '5' => Some(5),
        '6' => Some(6),
        '7' => Some(7),
        '8' => Some(8),
        '9' => Some(9),
        _ => None,
    }
}

/// Reads a numeric value as `set` defines it; a value too large for the
/// machine is rejected.
#[verifier::loop_isolation(false)]
pub fn parse_usize(v: &Vec<char>) -> (r: Option<usize>)
    ensures
        r == spec_parse_usize(v@),
{
    let n = v.len();
    if n == 0 {
        return None;
    }
    let mut acc: usize = 0;
    let mut i: usize = 0;
    while i < n
        invariant
            i <= n,
            forall|j: int| 0 <= j < i ==> digit_of(#[trigger] v@[j]) >= 0,
            acc == digits_val(v@.subrange(0, i as int)),
        decreases n - i,
    {
        let c = v[i];
        match digit_value(c) {
            None => {
                proof {
                    assert(digit_of(v@[i as int]) < 0);
                }
                return None;
            }
            Some(d) => {
                if acc > (usize::MAX - d) / 10 {
                    // the value no longer fits; no digit string with this
                    // prefix can fit either
                    proof {
                        let pre = v@.subrange(0, i as int);
                        let pre1 = v@.subrange(0, i + 1 as int);
                        assert(pre1.drop_last() =~= pre);
                        assert(digits_val(pre1) == acc * 10 + d);
                        assert(acc * 10 + d > usize::MAX) by (nonlinear_arith)
                            requires
                                acc > (usize::MAX - d) / 10,
                                0 <= d <= 9,
                        ;
                        if forall|j: int| 0 <= j < v@.len() ==> digit_of(#[trigger] v@[j]) >= 0 {
                            lemma_digits_val_mono(v@, i + 1);
                        }
                    }
                    return None;
                }
                proof {
                    let pre = v@.subrange(0, i as int);
                    let pre1 = v@.subrange(0, i + 1 as int);
                    assert(pre1.drop_last() =~= pre);
                    assert(acc * 10 + d <= usize::MAX) by (nonlinear_arith)
                        requires
                            acc <= (usize::MAX - d) / 10,
                            0 <= d <= 9,
                    ;
                }
                acc = acc * 10 + d;
                i = i + 1;
            }
        }
    }
    proof {
        assert(v@.subrange(0, n as int) =~= v@);
    }
    Some(acc)
}

/// What one call of `set` does: which option the name selects, how the
/// value reads for that option's type, and that nothing else moves.
pub open spec fn spec_set(old: Config, new: Config, name: Seq<char>, value: Seq<char>, ok: bool) -> bool {
    if name == "hint_after_multiline_comment"@ {
        ok && (match new.hint_after_multiline_comment {
            Some(v) => v@ == value,
            None => false,
        }) && new == (Config { hint_after_multiline_comment: new.hint_after_multiline_comment, ..old })
    } else if name == "hint_after_multiline_comment_text"@ {
        ok && (match new.hint_after_multiline_comment_text {
            Some(v) => v@ == value,
            None => false,
        }) && new == (Config { hint_after_multiline_comment_text: new.hint_after_multiline_comment_text, ..old })
    } else if name == "hint_before_comment"@ {
        ok && (match new.hint_before_comment {
            Some(v) => v@ == value,
            None => false,
        }) && new == (Config { hint_before_comment: new.hint_before_comment, ..old })
    } else if name == "hint_before_multiline_comment_text"@ {
        ok && (match new.hint_before_multiline_comment_text {
            Some(v) => v@ == value,
            None => false,
        }) && new == (Config { hint_before_multiline_comment_text: new.hint_before_multiline_comment_text, ..old })
    } else if name == "hint_before_oneline_comment_text"@ {
        ok && (match new.hint_before_oneline_comment_text {
            Some(v) => v@ == value,
            None => false,
        }) && new == (Config { hint_before_oneline_comment_text: new.hint_before_oneline_comment_text, ..old })
    } else if name == "indentation_string"@ {
        ok && (match new.indentation_string {
            Some(v) => v@ == value,
            None => false,
        }) && new == (Config { indentation_string: new.indentation_string, ..old })
    } else if name == "hint_table_constructor"@ {
        ok && (match new.hint_table_constructor {
            Some(v) => v@ == value,
            None => false,
        }) && new == (Config { hint_table_constructor: new.hint_table_constructor, ..old })
    } else if name == "field_separator"@ {
        ok && (match new.field_separator {
            Some(v) => v@ == value,
            None => false,
        }) && new == (Config { field_separator: new.field_separator, ..old })
    } else if name == "remove_comments"@ {
        match spec_parse_bool(value) {
            Some(b) => ok && new == (Config { remove_comments: Some(b), ..old }),
            None => !ok && new == old,
        }
    } else if name == "remove_newlines"@ {
        match spec_parse_bool(value) {
            Some(b) => ok && new == (Config { remove_newlines: Some(b), ..old }),
            None => !ok && new == old,
        }
    } else if name == "remove_spaces_between_tokens"@ {
        match spec_parse_bool(value) {
            Some(b) => ok && new == (Config { remove_spaces_between_tokens: Some(b), ..old }),
            None => !ok && new == old,
        }
    } else if name == "replace_zero_spaces_with_hint"@ {
        match spec_parse_bool(value) {
            Some(b) => ok && new == (Config { replace_zero_spaces_with_hint: Some(b), ..old }),
            None => !ok && new == old,
        }
    } else if name == "indent_every_statement"@ {
        match spec_parse_bool(value) {
            Some(b) => ok && new == (Config { indent_every_statement: Some(b), ..old }),
            None => !ok && new == old,
        }
    } else if name == "indent_oneline_comments"@ {
        match spec_parse_bool(value) {
            Some(b) => ok && new == (Config { indent_oneline_comments: Some(b), ..old }),
            None => !ok && new == old,
        }
    } else if name == "indent_multiline_comments"@ {
        match spec_parse_bool(value) {
            Some(b) => ok && new == (Config { indent_multiline_comments: Some(b), ..old }),
            None => !ok && new == old,
        }
    } else if name == "indent_first_oneline_comment"@ {
        match spec_parse_bool(value) {
            Some(b) => ok && new == (Config { indent_first_oneline_comment: Some(b), ..old }),
            None => !ok && new == old,
        }
    } else if name == "indent_first_multiline_comment"@ {
        match spec_parse_bool(value) {
            Some(b) => ok && new == (Config { indent_first_multiline_comment: Some(b), ..old }),
            None => !ok && new == old,
        }
    } else if name == "indent_exp_list"@ {
        match spec_parse_bool(value) {
            Some(b) => ok && new == (Config { indent_exp_list: Some(b), ..old }),
            None => !ok && new == old,
        }
    } else if name == "indent_one_line_exp_list"@ {
        match spec_parse_bool(value) {
            Some(b) => ok && new == (Config { indent_one_line_exp_list: Some(b), ..old }),
            None => !ok && new == old,
        }
    } else if name == "indent_var_suffix"@ {
        match spec_parse_bool(value) {
            Some(b) => ok && new == (Config { indent_var_suffix: Some(b), ..old }),
            None => !ok && new == old,
        }
    } else if name == "indent_one_line_var_suffix"@ {
        match spec_parse_bool(value) {
            Some(b) => ok && new == (Config { indent_one_line_var_suffix: Some(b), ..old }),
            None => !ok && new == old,
        }
    } else if name == "enable_oneline_binary_op"@ {
        match spec_parse_bool(value) {
            Some(b) => ok && new == (Config { enable_oneline_binary_op: Some(b), ..old }),
            None => !ok && new == old,
        }
    } else if name == "enable_oneline_table_constructor"@ {
        match spec_parse_bool(value) {
            Some(b) => ok && new == (Config { enable_oneline_table_constructor: Some(b), ..old }),
            None => !ok && new == old,
        }
    } else if name == "enable_oneline_table_field"@ {
        match spec_parse_bool(value) {
            Some(b) => ok && new == (Config { enable_oneline_table_field: Some(b), ..old }),
            None => !ok && new == old,
        }
    } else if name == "enable_oneline_iv_table"@ {
        match spec_parse_bool(value) {
            Some(b) => ok && new == (Config { enable_oneline_iv_table: Some(b), ..old }),
            None => !ok && new == old,
        }
    } else if name == "enable_oneline_if"@ {
        match spec_parse_bool(value) {
            Some(b) => ok && new == (Config { enable_oneline_if: Some(b), ..old }),
            None => !ok && new == old,
        }
    } else if name == "enable_oneline_top_level_function"@ {
        match spec_parse_bool(value) {
            Some(b) => ok && new == (Config { enable_oneline_top_level_function: Some(b), ..old }),
            None => !ok && new == old,
        }
    } else if name == "enable_oneline_scoped_function"@ {
        match spec_parse_bool(value) {
            Some(b) => ok && new == (Config { enable_oneline_scoped_function: Some(b), ..old }),
            None => !ok && new == old,
        }
    } else if name == "enable_oneline_exp_list"@ {
        match spec_parse_bool(value) {
            Some(b) => ok && new == (Config { enable_oneline_exp_list: Some(b), ..old }),
            None => !ok && new == old,
        }
    } else if name == "enable_oneline_var_suffix"@ {
        match spec_parse_bool(value) {
            Some(b) => ok && new == (Config { enable_oneline_var_suffix: Some(b), ..old }),
            None => !ok && new == old,
        }
    } else if name == "write_trailing_field_separator"@ {
        match spec_parse_bool(value) {
            Some(b) => ok && new == (Config { write_trailing_field_separator: Some(b), ..old }),
            None => !ok && new == old,
        }
    } else if name == "write_newline_at_eof"@ {
        match spec_parse_bool(value) {
            Some(b) => ok && new == (Config { write_newline_at_eof: Some(b), ..old }),
            None => !ok && new == old,
        }
    } else if name == "do_end_indent_format"@ {
        match spec_parse_usize(value) {
            Some(u) => ok && new == (Config { do_end_indent_format: Some(u), ..old }),
            None => !ok && new == old,
        }
    } else if name == "for_indent_format"@ {
        match spec_parse_usize(value) {
            Some(u) => ok && new == (Config { for_indent_format: Some(u), ..old }),
            None => !ok && new == old,
        }
    } else if name == "function_indent_format"@ {
        match spec_parse_usize(value) {
            Some(u) => ok && new == (Config { function_indent_format: Some(u), ..old }),
            None => !ok && new == old,
        }
    } else if name == "if_indent_format"@ {
        match spec_parse_usize(value) {
            Some(u) => ok && new == (Config { if_indent_format: Some(u), ..old }),
            None => !ok && new == old,
        }
    } else if name == "repeat_until_indent_format"@ {
        match spec_parse_usize(value) {
            Some(u) => ok && new == (Config { repeat_until_indent_format: Some(u), ..old }),
            None => !ok && new == old,
        }
    } else if name == "while_do_indent_format"@ {
        match spec_parse_usize(value) {
            Some(u) => ok && new == (Config { while_do_indent_format: Some(u), ..old }),
            None => !ok && new == old,
        }
    } else if name == "newline_format_statement"@ {
        match spec_parse_usize(value) {
            Some(u) => ok && new == (Config { newline_format_statement: Some(u), ..old }),
            None => !ok && new == old,
        }
    } else if name == "newline_format_exp_list"@ {
        match spec_parse_usize(value) {
            Some(u) => ok && new == (Config { newline_format_exp_list: Some(u), ..old }),
            None => !ok && new == old,
        }
    } else if name == "newline_format_exp_list_first"@ {
        match spec_parse_usize(value) {
            Some(u) => ok && new == (Config { newline_format_exp_list_first: Some(u), ..old }),
            None => !ok && new == old,
        }
    } else if name == "newline_format_binary_op"@ {
        match spec_parse_usize(value) {
            Some(u) => ok && new == (Config { newline_format_binary_op: Some(u), ..old }),
            None => !ok && new == old,
        }
    } else if name == "newline_format_table_constructor"@ {
        match spec_parse_usize(value) {
            Some(u) => ok && new == (Config { newline_format_table_constructor: Some(u), ..old }),
            None => !ok && new == old,
        }
    } else if name == "newline_format_table_field"@ {
        match spec_parse_usize(value) {
            Some(u) => ok && new == (Config { newline_format_table_field: Some(u), ..old }),
            None => !ok && new == old,
        }
    } else if name == "newline_format_function"@ {
        match spec_parse_usize(value) {
            Some(u) => ok && new == (Config { newline_format_function: Some(u), ..old }),
            None => !ok && new == old,
        }
    } else if name == "newline_format_if"@ {
        match spec_parse_usize(value) {
            Some(u) => ok && new == (Config { newline_format_if: Some(u), ..old }),
            None => !ok && new == old,
        }
    } else if name == "newline_format_do_end"@ {
        match spec_parse_usize(value) {
            Some(u) => ok && new == (Config { newline_format_do_end: Some(u), ..old }),
            None => !ok && new == old,
        }
    } else if name == "newline_format_while"@ {
        match spec_parse_usize(value) {
            Some(u) => ok && new == (Config { newline_format_while: Some(u), ..old }),
            None => !ok && new == old,
        }
    } else if name == "newline_format_repeat_until"@ {
        match spec_parse_usize(value) {
            Some(u) => ok && new == (Config { newline_format_repeat_until: Some(u), ..old }),
            None => !ok && new == old,
        }
    } else if name == "newline_format_for"@ {
        match spec_parse_usize(value) {
            Some(u) => ok && new == (Config { newline_format_for: Some(u), ..old }),
            None => !ok && new == old,
        }
    } else if name == "newline_format_var_suffix"@ {
        match spec_parse_usize(value) {
            Some(u) => ok && new == (Config { newline_format_var_suffix: Some(u), ..old }),
            None => !ok && new == old,
        }
    } else if name == "max_width"@ {
        match spec_parse_usize(value) {
            Some(u) => ok && new == (Config { max_width: Some(u), ..old }),
            None => !ok && new == old,
        }
    } else {
        !ok && new == old
    }
}

impl Config {
    /// Sets the option called `option_name` to `value_str`. Returns false,
    /// and changes nothing, when the name is unknown or the value does not
    /// read as the option's type.
    pub fn set(&mut self, option_name: &str, value_str: &str) -> (ok: bool)
        ensures
            spec_set(*old(self), *final(self), option_name@, value_str@, ok),
    {
        let name = crate::util::to_chars(option_name);
        let value = crate::util::to_chars(value_str);
        if chars_eq_str(&name, "hint_after_multiline_comment") {
            self.hint_after_multiline_comment = Some(clone_chars(&value));
            true
        } else if chars_eq_str(&name, "hint_after_multiline_comment_text") {
            self.hint_after_multiline_comment_text = Some(clone_chars(&value));
            true
        } else if chars_eq_str(&name, "hint_before_comment") {
            self.hint_before_comment = Some(clone_chars(&value));
            true
        } else if chars_eq_str(&name, "hint_before_multiline_comment_text") {
            self.hint_before_multiline_comment_text = Some(clone_chars(&value));
            true
        } else if chars_eq_str(&name, "hint_before_oneline_comment_text") {
            self.hint_before_oneline_comment_text = Some(clone_chars(&value));
            true
        } else if chars_eq_str(&name, "indentation_string") {
            self.indentation_string = Some(clone_chars(&value));
            true
        } else if chars_eq_str(&name, "hint_table_constructor") {
            self.hint_table_constructor = Some(clone_chars(&value));
            true
        } else if chars_eq_str(&name, "field_separator") {
            self.field_separator = Some(clone_chars(&value));
            true
        } else if chars_eq_str(&name, "remove_comments") {
            match parse_bool(&value) {
                Some(b) => {
                    self.remove_comments = Some(b);
                    true
                }
                None => false,
            }
        } else if chars_eq_str(&name, "remove_newlines") {
            match parse_bool(&value) {
                Some(b) => {
                    self.remove_newlines = Some(b);
                    true
                }
                None => false,
            }
        } else if chars_eq_str(&name, "remove_spaces_between_tokens") {
            match parse_bool(&value) {
                Some(b) => {
                    self.remove_spaces_between_tokens = Some(b);
                    true
                }
                None => false,
            }
        } else if chars_eq_str(&name, "replace_zero_spaces_with_hint") {
            match parse_bool(&value) {
                Some(b) => {
                    self.replace_zero_spaces_with_hint = Some(b);
                    true
                }
                None => false,
            }
        } else if chars_eq_str(&name, "indent_every_statement") {
            match parse_bool(&value) {
                Some(b) => {
                    self.indent_every_statement = Some(b);
                    true
                }
                None => false,
            }
        } else if chars_eq_str(&name, "indent_oneline_comments") {
            match parse_bool(&value) {
                Some(b) => {
                    self.indent_oneline_comments = Some(b);
                    true
                }
                None => false,
            }
        } else if chars_eq_str(&name, "indent_multiline_comments") {
            match parse_bool(&value) {
                Some(b) => {
                    self.indent_multiline_comments = Some(b);
                    true
                }
                None => false,
            }
        } else if chars_eq_str(&name, "indent_first_oneline_comment") {
            match parse_bool(&value) {
                Some(b) => {
                    self.indent_first_oneline_comment = Some(b);
                    true
                }
                None => false,
            }
        } else if chars_eq_str(&name, "indent_first_multiline_comment") {
            match parse_bool(&value) {
                Some(b) => {
                    self.indent_first_multiline_comment = Some(b);
                    true
                }
                None => false,
            }
        } else if chars_eq_str(&name, "indent_exp_list") {
            match parse_bool(&value) {
                Some(b) => {
                    self.indent_exp_list = Some(b);
                    true
                }
                None => false,
            }
        } else if chars_eq_str(&name, "indent_one_line_exp_list") {
            match parse_bool(&value) {
                Some(b) => {
                    self.indent_one_line_exp_list = Some(b);
                    true
                }
                None => false,
            }
        } else if chars_eq_str(&name, "indent_var_suffix") {
            match parse_bool(&value) {
                Some(b) => {
                    self.indent_var_suffix = Some(b);
                    true
                }
                None => false,
            }
        } else if chars_eq_str(&name, "indent_one_line_var_suffix") {
            match parse_bool(&value) {
                Some(b) => {
                    self.indent_one_line_var_suffix = Some(b);
                    true
                }
                None => false,
            }
        } else if chars_eq_str(&name, "enable_oneline_binary_op") {
            match parse_bool(&value) {
                Some(b) => {
                    self.enable_oneline_binary_op = Some(b);
                    true
                }
                None => false,
            }
        } else if chars_eq_str(&name, "enable_oneline_table_constructor") {
            match parse_bool(&value) {
                Some(b) => {
                    self.enable_oneline_table_constructor = Some(b);
                    true
                }
                None => false,
            }
        } else if chars_eq_str(&name, "enable_oneline_table_field") {
            match parse_bool(&value) {
                Some(b) => {
                    self.enable_oneline_table_field = Some(b);
                    true
                }
                None => false,
            }
        } else if chars_eq_str(&name, "enable_oneline_iv_table") {
            match parse_bool(&value) {
                Some(b) => {
                    self.enable_oneline_iv_table = Some(b);
                    true
                }
                None => false,
            }
        } else if chars_eq_str(&name, "enable_oneline_if") {
            match parse_bool(&value) {
                Some(b) => {
                    self.enable_oneline_if = Some(b);
                    true
                }
                None => false,
            }
        } else if chars_eq_str(&name, "enable_oneline_top_level_function") {
            match parse_bool(&value) {
                Some(b) => {
                    self.enable_oneline_top_level_function = Some(b);
                    true
                }
                None => false,
            }
        } else if chars_eq_str(&name, "enable_oneline_scoped_function") {
            match parse_bool(&value) {
                Some(b) => {
                    self.enable_oneline_scoped_function = Some(b);
                    true
                }
                None => false,
            }
        } else if chars_eq_str(&name, "enable_oneline_exp_list") {
            match parse_bool(&value) {
                Some(b) => {
                    self.enable_oneline_exp_list = Some(b);
                    true
                }
                None => false,
            }
        } else if chars_eq_str(&name, "enable_oneline_var_suffix") {
            match parse_bool(&value) {
                Some(b) => {
                    self.enable_oneline_var_suffix = Some(b);
                    true
                }
                None => false,
            }
        } else if chars_eq_str(&name, "write_trailing_field_separator") {
            match parse_bool(&value) {
                Some(b) => {
                    self.write_trailing_field_separator = Some(b);
                    true
                }
                None => false,
            }
        } else if chars_eq_str(&name, "write_newline_at_eof") {
            match parse_bool(&value) {
                Some(b) => {
                    self.write_newline_at_eof = Some(b);
                    true
                }
                None => false,
            }
        } else if chars_eq_str(&name, "do_end_indent_format") {
            match parse_usize(&value) {
                Some(u) => {
                    self.do_end_indent_format = Some(u);
                    true
                }
                None => false,
            }
        } else if chars_eq_str(&name, "for_indent_format") {
            match parse_usize(&value) {
                Some(u) => {
                    self.for_indent_format = Some(u);
                    true
                }
                None => false,
            }
        } else if chars_eq_str(&name, "function_indent_format") {
            match parse_usize(&value) {
                Some(u) => {
                    self.function_indent_format = Some(u);
                    true
                }
                None => false,
            }
        } else if chars_eq_str(&name, "if_indent_format") {
            match parse_usize(&value) {
                Some(u) => {
                    self.if_indent_format = Some(u);
                    true
                }
                None => false,
            }
        } else if chars_eq_str(&name, "repeat_until_indent_format") {
            match parse_usize(&value) {
                Some(u) => {
                    self.repeat_until_indent_format = Some(u);
                    true
                }
                None => false,
            }
        } else if chars_eq_str(&name, "while_do_indent_format") {
            match parse_usize(&value) {
                Some(u) => {
                    self.while_do_indent_format = Some(u);
                    true
                }
                None => false,
            }
        } else if chars_eq_str(&name, "newline_format_statement") {
            match parse_usize(&value) {
                Some(u) => {
                    self.newline_format_statement = Some(u);
                    true
                }
                None => false,
            }
        } else if chars_eq_str(&name, "newline_format_exp_list") {
            match parse_usize(&value) {
                Some(u) => {
                    self.newline_format_exp_list = Some(u);
                    true
                }
                None => false,
            }
        } else if chars_eq_str(&name, "newline_format_exp_list_first") {
            match parse_usize(&value) {
                Some(u) => {
                    self.newline_format_exp_list_first = Some(u);
                    true
                }
                None => false,
            }
        } else if chars_eq_str(&name, "newline_format_binary_op") {
            match parse_usize(&value) {
                Some(u) => {
                    self.newline_format_binary_op = Some(u);
                    true
                }
                None => false,
            }
        } else if chars_eq_str(&name, "newline_format_table_constructor") {
            match parse_usize(&value) {
                Some(u) => {
                    self.newline_format_table_constructor = Some(u);
                    true
                }
                None => false,
            }
        } else if chars_eq_str(&name, "newline_format_table_field") {
            match parse_usize(&value) {
                Some(u) => {
                    self.newline_format_table_field = Some(u);
                    true
                }
                None => false,
            }
        } else if chars_eq_str(&name, "newline_format_function") {
            match parse_usize(&value) {
                Some(u) => {
                    self.newline_format_function = Some(u);
                    true
                }
                None => false,
            }
        } else if chars_eq_str(&name, "newline_format_if") {
            match parse_usize(&value) {
                Some(u) => {
                    self.newline_format_if = Some(u);
                    true
                }
                None => false,
            }
        } else if chars_eq_str(&name, "newline_format_do_end") {
            match parse_usize(&value) {
                Some(u) => {
                    self.newline_format_do_end = Some(u);
                    true
                }
                None => false,
            }
        } else if chars_eq_str(&name, "newline_format_while") {
            match parse_usize(&value) {
                Some(u) => {
                    self.newline_format_while = Some(u);
                    true
                }
                None => false,
            }
        } else if chars_eq_str(&name, "newline_format_repeat_until") {
            match parse_usize(&value) {
                Some(u) => {
                    self.newline_format_repeat_until = Some(u);
                    true
                }
                None => false,
            }
        } else if chars_eq_str(&name, "newline_format_for") {
            match parse_usize(&value) {
                Some(u) => {
                    self.newline_format_for = Some(u);
                    true
                }
                None => false,
            }
        } else if chars_eq_str(&name, "newline_format_var_suffix") {
            match parse_usize(&value) {
                Some(u) => {
                    self.newline_format_var_suffix = Some(u);
                    true
                }
                None => false,
            }
        } else if chars_eq_str(&name, "max_width") {
            match parse_usize(&value) {
                Some(u) => {
                    self.max_width = Some(u);
                    true
                }
                None => false,
            }
        } else {
            false
        }
    }
}

} // verus!
