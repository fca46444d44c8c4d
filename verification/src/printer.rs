//! The printer: one rule per syntax-tree variant, combining literal text,
//! location hints, indentation deltas and child recursions in output order.
//!
//! Before committing a multi-line rendering of a candidate construct, the
//! printer re-renders the subtree on a scratch buffer with the construct's
//! own line-break options masked, measures the result, and either commits
//! that one-line text or falls back to the multi-line rule. The mask always
//! shrinks, which is what bounds the recursion.
//!
//! Every function here restores the indentation and function-nesting
//! counters it changes: on success the state comes back exactly as it was,
//! which is the balanced-indent guarantee of the library.

use vstd::prelude::*;

use crate::comment::{push_equals, render_comment_block};
use crate::config::{
    dec_func_level, dec_indent, dec_indent_if, inc_func_level, inc_indent, inc_indent_if, Config,
    FormatError, State,
};
use crate::loc_hint::{write_comment_hint, write_comment_hint_chars};
use crate::lua_ast::{Loc, Node, Str};
use crate::util::{
    clone_chars, push_chars, push_str, trim_end_in_place, width_after_newline, write_indent,
};

verus! {

/// The options a running probe has masked off. A probe disables the
/// line-break options of the construct it measures so that the scratch
/// rendering stays on one line.
#[derive(Clone, Copy, PartialEq, Eq, Structural)]
pub struct Probe {
    pub no_tc: bool,
    pub no_tf: bool,
    pub no_if: bool,
    pub no_fn: bool,
    pub no_trailing_sep: bool,
}

impl Probe {
    pub fn none() -> (r: Probe)
        ensures
            r == (Probe {
                no_tc: false,
                no_tf: false,
                no_if: false,
                no_fn: false,
                no_trailing_sep: false,
            }),
    {
        Probe { no_tc: false, no_tf: false, no_if: false, no_fn: false, no_trailing_sep: false }
    }
}

pub open spec fn spec_nf_tc(cfg: Config, pr: Probe) -> Option<usize> {
    if pr.no_tc {
        None
    } else {
        cfg.newline_format_table_constructor
    }
}

pub open spec fn spec_nf_tf(cfg: Config, pr: Probe) -> Option<usize> {
    if pr.no_tf {
        None
    } else {
        cfg.newline_format_table_field
    }
}

pub open spec fn spec_nf_if(cfg: Config, pr: Probe) -> Option<usize> {
    if pr.no_if {
        None
    } else {
        cfg.newline_format_if
    }
}

pub open spec fn spec_nf_fn(cfg: Config, pr: Probe) -> Option<usize> {
    if pr.no_fn {
        None
    } else {
        cfg.newline_format_function
    }
}

/// How many probe triggers are still armed: each one a line-break option
/// that is set and not masked. Masking one strictly shrinks this, which
/// bounds the probe recursion.
pub open spec fn probe_rank(cfg: Config, pr: Probe) -> nat {
    (if cfg.newline_format_table_constructor is Some && !pr.no_tc {
        1nat
    } else {
        0nat
    }) + (if cfg.newline_format_table_field is Some && !pr.no_tf {
        1nat
    } else {
        0nat
    }) + (if cfg.newline_format_if is Some && !pr.no_if {
        1nat
    } else {
        0nat
    }) + (if cfg.newline_format_function is Some && !pr.no_fn {
        1nat
    } else {
        0nat
    })
}

fn nf_tc(cfg: &Config, pr: Probe) -> (r: Option<usize>)
    ensures
        r == spec_nf_tc(*cfg, pr),
{
    if pr.no_tc {
        None
    } else {
        cfg.newline_format_table_constructor
    }
}

fn nf_tf(cfg: &Config, pr: Probe) -> (r: Option<usize>)
    ensures
        r == spec_nf_tf(*cfg, pr),
{
    if pr.no_tf {
        None
    } else {
        cfg.newline_format_table_field
    }
}

fn nf_if(cfg: &Config, pr: Probe) -> (r: Option<usize>)
    ensures
        r == spec_nf_if(*cfg, pr),
{
    if pr.no_if {
        None
    } else {
        cfg.newline_format_if
    }
}

fn nf_fn(cfg: &Config, pr: Probe) -> (r: Option<usize>)
    ensures
        r == spec_nf_fn(*cfg, pr),
{
    if pr.no_fn {
        None
    } else {
        cfg.newline_format_function
    }
}

/// Whether a construct's indent format option leaves indentation on: only
/// an explicit zero turns it off.
fn indent_format_on(opt: &Option<usize>) -> (r: bool)
    ensures
        r == !(*opt == Some(0usize)),
{
    !matches!(opt, Some(0))
}

/// The trailing-separator option, forced off inside a one-line table probe.
fn trailing_sep(cfg: &Config, pr: Probe) -> (r: Option<bool>)
    ensures
        r == if pr.no_trailing_sep {
            Some(false)
        } else {
            cfg.write_trailing_field_separator
        },
{
    if pr.no_trailing_sep {
        Some(false)
    } else {
        cfg.write_trailing_field_separator
    }
}

/// Writes the comment hint of `loc` with a literal placeholder; a span that
/// does not fit the buffer renders as the placeholder alone.
fn hint(f: &mut Vec<char>, cfg: &Config, buf: &Vec<char>, state: &State, loc: Loc, ph: &str)
    ensures
        cfg.remove_comments == Some(true) && cfg.remove_newlines == Some(true) ==> final(f)@
            == old(f)@ + ph@,
{
    if loc.0 <= loc.1 && loc.1 <= buf.len() {
        write_comment_hint(f, cfg, buf, state, loc.0, loc.1, ph);
    } else {
        write_comment_hint(f, cfg, buf, state, 0, 0, ph);
    }
}

/// As `hint`, with the placeholder taken from the configuration.
fn hint_chars(
    f: &mut Vec<char>,
    cfg: &Config,
    buf: &Vec<char>,
    state: &State,
    loc: Loc,
    ph: &Vec<char>,
)
    ensures
        cfg.remove_comments == Some(true) && cfg.remove_newlines == Some(true) ==> final(f)@
            == old(f)@ + ph@,
{
    if loc.0 <= loc.1 && loc.1 <= buf.len() {
        write_comment_hint_chars(f, cfg, buf, state, loc.0, loc.1, ph);
    } else {
        write_comment_hint_chars(f, cfg, buf, state, 0, 0, ph);
    }
}

/// What the end of the buffer looks like right after a line break: the
/// newline itself, then the indentation owed at `state`.
pub open spec fn ends_in_fresh_line(s: Seq<char>, cfg: Config, state: State) -> bool {
    let ind = crate::util::spec_indent(cfg, state);
    s.len() >= ind.len() + 1 && s.subrange(s.len() - ind.len() - 1, s.len() as int) == seq!['\n']
        + ind
}

/// Ends the current line: echoes the comments of `loc`, trims trailing
/// blanks, and starts a fresh line at the current indentation.
fn write_break(f: &mut Vec<char>, cfg: &Config, buf: &Vec<char>, state: &State, loc: Loc)
    ensures
        ends_in_fresh_line(final(f)@, *cfg, *state),
        cfg.remove_comments == Some(true) ==> final(f)@ == old(f)@.subrange(
            0,
            crate::util::spec_trimmed_len(old(f)@) as int,
        ) + seq!['\n'] + crate::util::spec_indent(*cfg, *state),
{
    let block = if loc.0 <= loc.1 && loc.1 <= buf.len() {
        render_comment_block(buf, cfg, state, loc.0, loc.1, false)
    } else {
        render_comment_block(buf, cfg, state, 0, 0, false)
    };
    if block.len() > 0 {
        if f.len() > 0 {
            let last = f[f.len() - 1];
            if last != ' ' && last != '\t' && last != '\n' {
                f.push(' ');
            }
        }
        push_chars(f, &block);
    }
    trim_end_in_place(f);
    f.push('\n');
    write_indent(f, cfg, state);
    proof {
        let ind = crate::util::spec_indent(*cfg, *state);
        assert(f@.subrange(f@.len() - ind.len() - 1, f@.len() as int) =~= seq!['\n'] + ind);
    }
}

/// A conditional line break: a fresh line when `nl` holds, the comment hint
/// of `loc` otherwise.
fn cond_newline(
    f: &mut Vec<char>,
    cfg: &Config,
    buf: &Vec<char>,
    state: &State,
    nl: bool,
    loc: Loc,
    ph: &str,
)
    ensures
        nl ==> ends_in_fresh_line(final(f)@, *cfg, *state),
        !nl && cfg.remove_comments == Some(true) && cfg.remove_newlines == Some(true)
            ==> final(f)@ == old(f)@ + ph@,
        nl && cfg.remove_comments == Some(true) ==> final(f)@ == old(f)@.subrange(
            0,
            crate::util::spec_trimmed_len(old(f)@) as int,
        ) + seq!['\n'] + crate::util::spec_indent(*cfg, *state),
{
    if nl {
        write_break(f, cfg, buf, state, loc);
    } else {
        hint(f, cfg, buf, state, loc, ph);
    }
}

/// As `cond_newline`, with the placeholder taken from the configuration.
fn cond_newline_chars(
    f: &mut Vec<char>,
    cfg: &Config,
    buf: &Vec<char>,
    state: &State,
    nl: bool,
    loc: Loc,
    ph: &Vec<char>,
)
    ensures
        nl ==> ends_in_fresh_line(final(f)@, *cfg, *state),
        !nl && cfg.remove_comments == Some(true) && cfg.remove_newlines == Some(true)
            ==> final(f)@ == old(f)@ + ph@,
{
    if nl {
        write_break(f, cfg, buf, state, loc);
    } else {
        hint_chars(f, cfg, buf, state, loc, ph);
    }
}

/// How many newlines `v` holds; a probe fails when a scratch rendering adds
/// one.
fn count_newlines(v: &Vec<char>) -> (r: usize)
    ensures
        r as int == crate::util::spec_newline_count(v@),
{
    let mut count: usize = 0;
    let mut i: usize = 0;
    while i < v.len()
        invariant
            count <= i <= v@.len(),
            count as int == crate::util::spec_newline_count(v@.subrange(0, i as int)),
        decreases v@.len() - i,
    {
        proof {
            assert(v@.subrange(0, i + 1).drop_last() =~= v@.subrange(0, i as int));
        }
        if v[i] == '\n' {
            count = count + 1;
        }
        i = i + 1;
    }
    proof {
        assert(v@.subrange(0, v@.len() as int) =~= v@);
    }
    count
}

/// The default hint put before a non-first list element of this kind: no
/// padding before a semicolon, a call-argument form, an index, a member or
/// a table constructor, one space before anything else.
pub open spec fn spec_list_item_prefix_hint(nd: Node) -> Seq<char> {
    match nd {
        Node::Semicolon(..) => ""@,
        Node::ArgsRoundBrackets(..) => ""@,
        Node::ArgsRoundBracketsEmpty(..) => ""@,
        Node::TableIndex(..) => ""@,
        Node::TableMember(..) => ""@,
        Node::FnMethodCall(..) => ""@,
        Node::TableConstructor(..) => ""@,
        Node::TableConstructorEmpty(..) => ""@,
        _ => " "@,
    }
}

/// The default hint put before a list element of this kind.
fn list_item_prefix_hint(nd: &Node) -> (r: &'static str)
    ensures
        r@ == spec_list_item_prefix_hint(*nd),
{
    match nd {
        Node::Semicolon(..) => "",
        Node::ArgsRoundBrackets(..) => "",
        Node::ArgsRoundBracketsEmpty(..) => "",
        Node::TableIndex(..) => "",
        Node::TableMember(..) => "",
        Node::FnMethodCall(..) => "",
        Node::TableConstructor(..) => "",
        Node::TableConstructorEmpty(..) => "",
        _ => " ",
    }
}

/// Renders `node` on a scratch copy of the output and state; the probe
/// succeeds when nothing failed, no line break was added, and the last line
/// stays within `max_width`.
fn probe_node_fits(
    node: &Node,
    f: &Vec<char>,
    cfg: &Config,
    buf: &Vec<char>,
    state: &State,
    pr: Probe,
) -> (r: bool)
    ensures
        r ==> cfg.max_width is Some,
    decreases *node, probe_rank(*cfg, pr), 3nat,
{
    let w = match cfg.max_width {
        Some(w) => w,
        None => {
            return false;
        }
    };
    let base_nl = count_newlines(f);
    let mut tf = clone_chars(f);
    let mut ts = *state;
    match write_node(node, &mut tf, cfg, buf, &mut ts, pr) {
        Err(_) => false,
        Ok(()) => {
            if count_newlines(&tf) > base_nl {
                false
            } else {
                width_after_newline(&tf) <= w
            }
        }
    }
}

/// Probes the head of a method-call suffix, `:` and the method name alone.
fn probe_method_head(
    n1: &Node,
    l0: Loc,
    f: &Vec<char>,
    cfg: &Config,
    buf: &Vec<char>,
    state: &State,
    pr: Probe,
) -> (r: bool)
    decreases *n1, probe_rank(*cfg, pr), 3nat,
{
    let w = match cfg.max_width {
        Some(w) => w,
        None => {
            return false;
        }
    };
    let base_nl = count_newlines(f);
    let mut tf = clone_chars(f);
    let mut ts = *state;
    push_str(&mut tf, ":");
    hint(&mut tf, cfg, buf, &ts, l0, "");
    match write_node(n1, &mut tf, cfg, buf, &mut ts, pr) {
        Err(_) => false,
        Ok(()) => {
            if count_newlines(&tf) > base_nl {
                false
            } else {
                width_after_newline(&tf) <= w
            }
        }
    }
}

/// Probes the tail of a binary operation: the hints, the operator, and the
/// right operand.
fn probe_binop_tail(
    r_nd: &Node,
    tok: &Str,
    l0: Loc,
    l1: Loc,
    f: &Vec<char>,
    cfg: &Config,
    buf: &Vec<char>,
    state: &State,
    pr: Probe,
) -> (r: bool)
    decreases *r_nd, probe_rank(*cfg, pr), 3nat,
{
    let w = match cfg.max_width {
        Some(w) => w,
        None => {
            return false;
        }
    };
    let base_nl = count_newlines(f);
    let mut tf = clone_chars(f);
    let mut ts = *state;
    hint(&mut tf, cfg, buf, &ts, l0, " ");
    push_chars(&mut tf, &tok.0);
    hint(&mut tf, cfg, buf, &ts, l1, " ");
    match write_node(r_nd, &mut tf, cfg, buf, &mut ts, pr) {
        Err(_) => false,
        Ok(()) => {
            if count_newlines(&tf) > base_nl {
                false
            } else {
                width_after_newline(&tf) <= w
            }
        }
    }
}

/// The one-line probe for an if-chain. The whole construct must render
/// without a line break, and the head — `if`, the condition, `then` — must
/// fit within the width; the tail after `then` is the allowance. A
/// committed rendering adds no line break to the buffer.
fn test_oneline_if(
    node: &Node,
    e1: &Node,
    l0: Loc,
    l1: Loc,
    f: &Vec<char>,
    cfg: &Config,
    buf: &Vec<char>,
    state: &State,
    pr2: Probe,
) -> (r: Option<Vec<char>>)
    requires
        decreases_to!(*node => *e1),
    ensures
        match r {
            Some(tf) => cfg.max_width is Some && crate::util::spec_newline_count(tf@)
                <= crate::util::spec_newline_count(f@),
            None => true,
        },
    decreases *node, probe_rank(*cfg, pr2), 3nat,
{
    let w = match cfg.max_width {
        Some(w) => w,
        None => {
            return None;
        }
    };
    let base_nl = count_newlines(f);
    let mut hf = clone_chars(f);
    let mut hs = *state;
    push_str(&mut hf, "if");
    hint(&mut hf, cfg, buf, &hs, l0, " ");
    match write_node(e1, &mut hf, cfg, buf, &mut hs, pr2) {
        Err(_) => {
            return None;
        }
        Ok(()) => {}
    }
    hint(&mut hf, cfg, buf, &hs, l1, " ");
    push_str(&mut hf, "then");
    if count_newlines(&hf) > base_nl {
        return None;
    }
    if width_after_newline(&hf) > w {
        return None;
    }
    let mut tf = clone_chars(f);
    let mut ts = *state;
    match write_node(node, &mut tf, cfg, buf, &mut ts, pr2) {
        Err(_) => {
            return None;
        }
        Ok(()) => {}
    }
    if count_newlines(&tf) > base_nl {
        return None;
    }
    Some(tf)
}

/// The one-line probe for a function body: a committed rendering adds no
/// line break and its last line stays within the width.
fn test_oneline_function(
    node: &Node,
    f: &Vec<char>,
    cfg: &Config,
    buf: &Vec<char>,
    state: &State,
    pr2: Probe,
) -> (r: Option<Vec<char>>)
    ensures
        match r {
            Some(tf) => cfg.max_width is Some && crate::util::spec_newline_count(tf@)
                <= crate::util::spec_newline_count(f@) && crate::util::spec_width_after_newline(
                tf@,
            ) <= cfg.max_width->0,
            None => true,
        },
    decreases *node, probe_rank(*cfg, pr2), 3nat,
{
    let w = match cfg.max_width {
        Some(w) => w,
        None => {
            return None;
        }
    };
    let base_nl = count_newlines(f);
    let mut tf = clone_chars(f);
    let mut ts = *state;
    match write_node(node, &mut tf, cfg, buf, &mut ts, pr2) {
        Err(_) => {
            return None;
        }
        Ok(()) => {}
    }
    if count_newlines(&tf) > base_nl {
        return None;
    }
    if width_after_newline(&tf) > w {
        return None;
    }
    Some(tf)
}

/// The one-line probe for a table constructor, measured from the current
/// position: a committed rendering adds no line break and its last line
/// stays within the width.
fn test_oneline_tc(
    node: &Node,
    f: &Vec<char>,
    cfg: &Config,
    buf: &Vec<char>,
    state: &State,
    pr2: Probe,
) -> (r: Option<Vec<char>>)
    ensures
        match r {
            Some(tf) => cfg.max_width is Some && crate::util::spec_newline_count(tf@)
                <= crate::util::spec_newline_count(f@) && crate::util::spec_width_after_newline(
                tf@,
            ) <= cfg.max_width->0,
            None => true,
        },
    decreases *node, probe_rank(*cfg, pr2), 3nat,
{
    let w = match cfg.max_width {
        Some(w) => w,
        None => {
            return None;
        }
    };
    let base_nl = count_newlines(f);
    let mut tf = clone_chars(f);
    let mut ts = *state;
    match write_node(node, &mut tf, cfg, buf, &mut ts, pr2) {
        Err(_) => {
            return None;
        }
        Ok(()) => {}
    }
    if count_newlines(&tf) > base_nl {
        return None;
    }
    if width_after_newline(&tf) > w {
        return None;
    }
    Some(tf)
}

/// The fallback one-line probe for a table constructor: the same rendering
/// measured from a fresh line at the current indentation. A committed
/// rendering keeps its last line within the width.
fn test_oneline_tc_after_nl(
    node: &Node,
    f: &Vec<char>,
    cfg: &Config,
    buf: &Vec<char>,
    state: &State,
    pr2: Probe,
) -> (r: Option<Vec<char>>)
    ensures
        match r {
            Some(tf) => cfg.max_width is Some && crate::util::spec_width_after_newline(tf@)
                <= cfg.max_width->0,
            None => true,
        },
    decreases *node, probe_rank(*cfg, pr2), 3nat,
{
    let w = match cfg.max_width {
        Some(w) => w,
        None => {
            return None;
        }
    };
    let mut tf = clone_chars(f);
    let mut ts = *state;
    write_break(&mut tf, cfg, buf, &ts, Loc(0, 0));
    let base_nl = count_newlines(&tf);
    match write_node(node, &mut tf, cfg, buf, &mut ts, pr2) {
        Err(_) => {
            return None;
        }
        Ok(()) => {}
    }
    if count_newlines(&tf) > base_nl {
        return None;
    }
    if width_after_newline(&tf) > w {
        return None;
    }
    Some(tf)
}

/// The one-line probe for a single table field: it can pass only when a
/// width is set and the per-field break option is armed.
fn test_oneline_table_field(
    nd: &Node,
    f: &Vec<char>,
    cfg: &Config,
    buf: &Vec<char>,
    state: &State,
    pr: Probe,
) -> (r: bool)
    ensures
        r ==> cfg.max_width is Some && spec_nf_tf(*cfg, pr) is Some,
    decreases *nd, probe_rank(*cfg, pr), 4nat,
{
    if cfg.max_width.is_some() && nf_tf(cfg, pr).is_some() {
        probe_node_fits(nd, f, cfg, buf, state, pr)
    } else {
        false
    }
}

/// Whether a non-first list element asks for a line break before itself.
/// Outside the probe-dependent cases the decision is fixed by the options
/// alone, and the contract says which way.
fn need_newline(
    nd: &Node,
    parent: &Node,
    f: &Vec<char>,
    cfg: &Config,
    buf: &Vec<char>,
    state: &State,
    pr: Probe,
) -> (r: bool)
    requires
        decreases_to!(*parent => *nd),
    ensures
        !(parent is StatementList || parent is ExpList || parent is ElseIfThenVec || parent
            is Fields || parent is VarSuffixList) ==> r == false,
        parent is StatementList ==> r == cfg.newline_format_statement is Some,
        parent is ElseIfThenVec ==> r == (spec_nf_if(*cfg, pr) == Some(1usize)),
        parent is ExpList && cfg.newline_format_exp_list != Some(1usize) ==> r == false,
        parent is ExpList && cfg.newline_format_exp_list == Some(1usize)
            && cfg.enable_oneline_exp_list != Some(true) ==> r == true,
        parent is Fields && spec_nf_tf(*cfg, pr) is None ==> r == false,
        parent is Fields && spec_nf_tf(*cfg, pr) is Some && cfg.enable_oneline_iv_table == Some(
            true,
        ) && parent->Fields_2.is_all_sequential == Some(true) ==> r == false,
        parent is Fields && spec_nf_tf(*cfg, pr) is Some && !(cfg.enable_oneline_iv_table
            == Some(true) && parent->Fields_2.is_all_sequential == Some(true))
            && cfg.enable_oneline_table_field != Some(true) ==> r == true,
        parent is VarSuffixList && !(nd is FnMethodCall || nd is TableMember) ==> r == false,
        parent is VarSuffixList && (nd is FnMethodCall || nd is TableMember)
            && cfg.newline_format_var_suffix is None ==> r == false,
        parent is VarSuffixList && (nd is FnMethodCall || nd is TableMember)
            && cfg.newline_format_var_suffix is Some && cfg.enable_oneline_var_suffix != Some(
            true,
        ) ==> r == true,
    decreases *nd, probe_rank(*cfg, pr), 5nat,
{
    match parent {
        Node::StatementList(..) => cfg.newline_format_statement.is_some(),
        Node::ExpList(..) => {
            if matches!(cfg.newline_format_exp_list, Some(1)) {
                if matches!(cfg.enable_oneline_exp_list, Some(true)) {
                    !probe_node_fits(nd, f, cfg, buf, state, pr)
                } else {
                    true
                }
            } else {
                false
            }
        }
        Node::ElseIfThenVec(..) => matches!(nf_if(cfg, pr), Some(1)),
        Node::Fields(_, _, opts) => {
            if nf_tf(cfg, pr).is_some() {
                if matches!(cfg.enable_oneline_iv_table, Some(true)) && matches!(
                    opts.is_all_sequential,
                    Some(true),
                ) {
                    false
                } else if matches!(cfg.enable_oneline_table_field, Some(true)) {
                    !test_oneline_table_field(nd, f, cfg, buf, state, pr)
                } else {
                    true
                }
            } else {
                false
            }
        }
        Node::VarSuffixList(..) => {
            match nd {
                Node::FnMethodCall(_, locs, n1, n2) => {
                    if cfg.newline_format_var_suffix.is_some() {
                        if matches!(cfg.enable_oneline_var_suffix, Some(true)) {
                            let head_only = match &**n2 {
                                Node::TableConstructorEmpty(..) => true,
                                Node::TableConstructor(..) => true,
                                Node::ArgsRoundBracketsEmpty(..) => true,
                                Node::ArgsRoundBrackets(..) => cfg
                                    .newline_format_exp_list_first
                                    .is_some(),
                                _ => false,
                            };
                            if head_only {
                                !probe_method_head(n1, locs[0], f, cfg, buf, state, pr)
                            } else {
                                !probe_node_fits(nd, f, cfg, buf, state, pr)
                            }
                        } else {
                            true
                        }
                    } else {
                        false
                    }
                }
                Node::TableMember(..) => {
                    if cfg.newline_format_var_suffix.is_some() {
                        if matches!(cfg.enable_oneline_var_suffix, Some(true)) {
                            !probe_node_fits(nd, f, cfg, buf, state, pr)
                        } else {
                            true
                        }
                    } else {
                        false
                    }
                }
                _ => false,
            }
        }
        _ => false,
    }
}

/// Whether the first list element asks for a line break before itself.
/// As for `need_newline`, every probe-free case is pinned down.
fn need_first_newline(
    nd: &Node,
    parent: &Node,
    f: &Vec<char>,
    cfg: &Config,
    buf: &Vec<char>,
    state: &State,
    pr: Probe,
) -> (r: bool)
    requires
        decreases_to!(*parent => *nd),
    ensures
        !(parent is Fields || parent is ExpList || parent is VarSuffixList) ==> r == false,
        parent is ExpList && cfg.newline_format_exp_list_first != Some(1usize) ==> r == false,
        parent is ExpList && cfg.newline_format_exp_list_first == Some(1usize)
            && cfg.enable_oneline_exp_list != Some(true) ==> r == true,
        parent is Fields && spec_nf_tf(*cfg, pr) is None ==> r == false,
        parent is Fields && spec_nf_tf(*cfg, pr) is Some && cfg.enable_oneline_iv_table == Some(
            true,
        ) && parent->Fields_2.is_all_sequential == Some(true) ==> r == !(
        parent->Fields_2.is_single_child == Some(true)),
        parent is Fields && spec_nf_tf(*cfg, pr) is Some && !(cfg.enable_oneline_iv_table
            == Some(true) && parent->Fields_2.is_all_sequential == Some(true))
            && cfg.enable_oneline_table_field != Some(true) ==> r == true,
        parent is VarSuffixList && !(nd is FnMethodCall || nd is TableMember) ==> r == false,
        parent is VarSuffixList && (nd is FnMethodCall || nd is TableMember)
            && cfg.newline_format_var_suffix is None ==> r == false,
        parent is VarSuffixList && (nd is FnMethodCall || nd is TableMember)
            && cfg.newline_format_var_suffix is Some && cfg.enable_oneline_var_suffix != Some(
            true,
        ) ==> r == true,
    decreases *nd, probe_rank(*cfg, pr), 6nat,
{
    match parent {
        Node::Fields(_, _, opts) => {
            if nf_tf(cfg, pr).is_some() {
                if matches!(cfg.enable_oneline_iv_table, Some(true)) && matches!(
                    opts.is_all_sequential,
                    Some(true),
                ) {
                    !matches!(opts.is_single_child, Some(true))
                } else if matches!(cfg.enable_oneline_table_field, Some(true)) {
                    !test_oneline_table_field(nd, f, cfg, buf, state, pr)
                } else {
                    true
                }
            } else {
                false
            }
        }
        Node::ExpList(..) => {
            if matches!(cfg.newline_format_exp_list_first, Some(1)) {
                if matches!(cfg.enable_oneline_exp_list, Some(true)) {
                    !probe_node_fits(nd, f, cfg, buf, state, pr)
                } else {
                    true
                }
            } else {
                false
            }
        }
        Node::VarSuffixList(..) => need_newline(nd, parent, f, cfg, buf, state, pr),
        _ => false,
    }
}

/// Decides whether a value on the right of `=`, `in` or `return` earns an
/// indent scope: only a suffix chain or expression list that is configured
/// to indent and either always does so or actually breaks when rendered.
fn test_indent(
    n2: &Node,
    hl: Loc,
    hph: &str,
    f: &Vec<char>,
    cfg: &Config,
    buf: &Vec<char>,
    state: &State,
    pr: Probe,
) -> (r: bool)
    ensures
        !(n2 is VarSuffixList || n2 is ExpList) ==> r == false,
        n2 is VarSuffixList && n2->VarSuffixList_1@.len() == 0 ==> r == false,
        n2 is VarSuffixList && cfg.indent_var_suffix != Some(true) ==> r == false,
        n2 is VarSuffixList && n2->VarSuffixList_1@.len() > 0 && cfg.indent_var_suffix == Some(
            true,
        ) && cfg.indent_one_line_var_suffix == Some(true) ==> r == true,
        n2 is ExpList && n2->ExpList_1@.len() == 0 ==> r == false,
        n2 is ExpList && n2->ExpList_1@.len() == 1 && cfg.newline_format_exp_list_first is None
            ==> r == (cfg.indent_exp_list == Some(true) && cfg.indent_one_line_exp_list == Some(
            true,
        )),
        n2 is ExpList && !(n2->ExpList_1@.len() == 1 && cfg.newline_format_exp_list_first
            is None) && cfg.indent_exp_list != Some(true) ==> r == false,
        n2 is ExpList && n2->ExpList_1@.len() > 0 && !(n2->ExpList_1@.len() == 1
            && cfg.newline_format_exp_list_first is None) && cfg.indent_exp_list == Some(true)
            && cfg.indent_one_line_exp_list == Some(true) ==> r == true,
    decreases *n2, probe_rank(*cfg, pr), 5nat,
{
    match n2 {
        Node::VarSuffixList(_, suffs) => {
            if suffs.len() == 0 {
                false
            } else if !matches!(cfg.indent_var_suffix, Some(true)) {
                false
            } else if matches!(cfg.indent_one_line_var_suffix, Some(true)) {
                true
            } else {
                let mut tf = clone_chars(f);
                let mut ts = *state;
                hint(&mut tf, cfg, buf, &ts, hl, hph);
                match write_list(n2, &mut tf, cfg, buf, &mut ts, pr) {
                    Ok(b) => b,
                    Err(_) => false,
                }
            }
        }
        Node::ExpList(_, exprs) => {
            if exprs.len() == 0 {
                false
            } else if exprs.len() == 1 && cfg.newline_format_exp_list_first.is_none() {
                matches!(cfg.indent_exp_list, Some(true)) && matches!(
                    cfg.indent_one_line_exp_list,
                    Some(true),
                )
            } else if !matches!(cfg.indent_exp_list, Some(true)) {
                false
            } else if matches!(cfg.indent_one_line_exp_list, Some(true)) {
                true
            } else {
                let mut tf = clone_chars(f);
                let mut ts = *state;
                hint(&mut tf, cfg, buf, &ts, hl, hph);
                match write_sep_list(n2, &mut tf, cfg, buf, &mut ts, pr) {
                    Ok(b) => b,
                    Err(_) => false,
                }
            }
        }
        _ => false,
    }
}

/// Renders an unseparated list — statements, else-if links, suffix chains —
/// and says whether any element went to its own line.
#[verifier::loop_isolation(false)]
#[verifier::rlimit(100)]
#[verifier::spinoff_prover]
fn write_list(
    node: &Node,
    f: &mut Vec<char>,
    cfg: &Config,
    buf: &Vec<char>,
    state: &mut State,
    pr: Probe,
) -> (r: Result<bool, FormatError>)
    ensures
        r.is_ok() ==> *final(state) == *old(state),
        !(node is StatementList || node is VarSuffixList || node is ElseIfThenVec) ==> r
            == Ok::<bool, FormatError>(false) && final(f)@ == old(f)@,
        r.is_ok() && flat_cfg(*cfg) && pr == spec_probe_none() && (node is StatementList || node
            is VarSuffixList || node is ElseIfThenVec) ==> final(f)@ == old(f)@ + flat_text(
            *node,
            *cfg,
        ),
    decreases *node, probe_rank(*cfg, pr), 1nat,
{
    let newlines_enabled = match node {
        Node::StatementList(..) => cfg.newline_format_statement.is_some(),
        Node::ElseIfThenVec(..) => nf_if(cfg, pr).is_some(),
        Node::VarSuffixList(..) => cfg.newline_format_var_suffix.is_some(),
        _ => false,
    };
    let items = match node {
        Node::StatementList(_, items) => items,
        Node::VarSuffixList(_, items) => items,
        Node::ElseIfThenVec(_, items) => items,
        _ => {
            return Ok(false);
        }
    };
    let mut wrote = false;
    let mut i: usize = 0;
    proof {
        if flat_cfg(*cfg) && pr == spec_probe_none() {
            assert(f@ =~= old(f)@ + flat_plain_items(items@, *cfg, 0));
        }
    }
    while i < items.len()
        invariant
            *state == *old(state),
            i <= items@.len(),
            flat_cfg(*cfg) && pr == spec_probe_none() ==> f@ == old(f)@ + flat_plain_items(
                items@,
                *cfg,
                i as int,
            ),
        decreases items@.len() - i,
    {
        proof {
            assert(decreases_to!(*node => items@[i as int].1));
        }
        let l1 = items[i].0;
        let nd = &items[i].1;
        let nl = if newlines_enabled {
            if i == 0 {
                need_first_newline(nd, node, f, cfg, buf, state, pr)
            } else {
                need_newline(nd, node, f, cfg, buf, state, pr)
            }
        } else {
            false
        };
        proof {
            if flat_cfg(*cfg) && pr == spec_probe_none() {
                assert(!newlines_enabled);
            }
        }
        if nl {
            write_break(f, cfg, buf, state, l1);
            wrote = true;
        } else {
            let ph = if i == 0 {
                ""
            } else {
                list_item_prefix_hint(nd)
            };
            hint(f, cfg, buf, state, l1, ph);
        }
        write_node(nd, f, cfg, buf, state, pr)?;
        proof {
            if flat_cfg(*cfg) && pr == spec_probe_none() {
                assert(f@ =~= old(f)@ + flat_plain_items(items@, *cfg, i + 1));
            }
        }
        i = i + 1;
    }
    proof {
        if flat_cfg(*cfg) && pr == spec_probe_none() && (node is StatementList || node
            is VarSuffixList || node is ElseIfThenVec) {
            assert(f@ =~= old(f)@ + flat_text(*node, *cfg));
        }
    }
    Ok(wrote)
}

/// Renders a separated list — fields, expressions, names, parameters,
/// dotted function names — and says whether any element went to its own
/// line.
#[verifier::loop_isolation(false)]
#[verifier::rlimit(100)]
#[verifier::spinoff_prover]
fn write_sep_list(
    node: &Node,
    f: &mut Vec<char>,
    cfg: &Config,
    buf: &Vec<char>,
    state: &mut State,
    pr: Probe,
) -> (r: Result<bool, FormatError>)
    ensures
        r.is_ok() ==> *final(state) == *old(state),
        !(node is Fields || node is ExpList || node is NameList || node is ParList || node
            is VarList || node is FuncName || node is FuncNameSelf) ==> r == Ok::<
            bool,
            FormatError,
        >(false) && final(f)@ == old(f)@,
        r.is_ok() && flat_cfg(*cfg) && pr == spec_probe_none() && (node is Fields || node
            is ExpList || node is NameList || node is ParList || node is VarList || node
            is FuncName) ==> final(f)@ == old(f)@ + flat_text(*node, *cfg),
        r.is_ok() && flat_cfg(*cfg) && pr == spec_probe_none() && node is FuncNameSelf
            ==> final(f)@ == old(f)@ + flat_sep_items(
            node->FuncNameSelf_2@,
            *cfg,
            false,
            ""@,
            "."@,
            node->FuncNameSelf_2@.len() as int,
        ),
    decreases *node, probe_rank(*cfg, pr), 1nat,
{
    let is_fields = matches!(node, Node::Fields(..));
    let ws: &str = match node {
        Node::FuncName(..) => "",
        Node::FuncNameSelf(..) => "",
        _ => " ",
    };
    let sep_default: &str = match node {
        Node::FuncName(..) => ".",
        Node::FuncNameSelf(..) => ".",
        _ => ",",
    };
    let newlines_enabled = match node {
        Node::Fields(..) => matches!(nf_tf(cfg, pr), Some(1)),
        Node::ExpList(..) => cfg.newline_format_exp_list.is_some()
            || cfg.newline_format_exp_list_first.is_some(),
        _ => false,
    };
    let trailing = match node {
        Node::Fields(_, _, opts) => {
            if matches!(cfg.enable_oneline_iv_table, Some(true)) && matches!(
                opts.is_all_sequential,
                Some(true),
            ) {
                false
            } else {
                matches!(trailing_sep(cfg, pr), Some(true))
            }
        }
        _ => false,
    };
    let items = match node {
        Node::Fields(_, items, _) => items,
        Node::ExpList(_, items) => items,
        Node::NameList(_, items) => items,
        Node::ParList(_, items) => items,
        Node::VarList(_, items) => items,
        Node::FuncName(_, items) => items,
        Node::FuncNameSelf(_, _, items, _) => items,
        _ => {
            return Ok(false);
        }
    };
    let mut wrote = false;
    let mut i: usize = 0;
    proof {
        if flat_cfg(*cfg) && pr == spec_probe_none() {
            assert(f@ =~= old(f)@ + flat_sep_items(items@, *cfg, is_fields, ws@, sep_default@, 0));
        }
    }
    while i < items.len()
        invariant
            *state == *old(state),
            i <= items@.len(),
            flat_cfg(*cfg) && pr == spec_probe_none() ==> f@ == old(f)@ + flat_sep_items(
                items@,
                *cfg,
                is_fields,
                ws@,
                sep_default@,
                i as int,
            ),
        decreases items@.len() - i,
    {
        proof {
            assert(decreases_to!(*node => items@[i as int].1));
        }
        let l1 = items[i].0;
        let nd = &items[i].1;
        if i > 0 {
            write_separator(f, cfg, is_fields, &items[i - 1].3, sep_default);
        }
        let nl = if newlines_enabled {
            if i == 0 {
                need_first_newline(nd, node, f, cfg, buf, state, pr)
            } else {
                need_newline(nd, node, f, cfg, buf, state, pr)
            }
        } else {
            false
        };
        if nl {
            write_break(f, cfg, buf, state, l1);
            wrote = true;
        } else {
            let ph = if i == 0 {
                ""
            } else {
                ws
            };
            hint(f, cfg, buf, state, l1, ph);
        }
        write_node(nd, f, cfg, buf, state, pr)?;
        let l2 = items[i].2;
        hint(f, cfg, buf, state, l2, "");
        proof {
            if flat_cfg(*cfg) && pr == spec_probe_none() {
                assert(f@ =~= old(f)@ + flat_sep_items(
                    items@,
                    *cfg,
                    is_fields,
                    ws@,
                    sep_default@,
                    i + 1,
                ));
            }
        }
        i = i + 1;
    }
    if trailing && items.len() > 0 {
        write_separator(f, cfg, is_fields, &items[items.len() - 1].3, sep_default);
    }
    proof {
        if flat_cfg(*cfg) && pr == spec_probe_none() {
            if !(node is FuncNameSelf) {
                assert(f@ =~= old(f)@ + flat_text(*node, *cfg));
            } else {
                assert(f@ =~= old(f)@ + flat_sep_items(
                    items@,
                    *cfg,
                    is_fields,
                    ws@,
                    sep_default@,
                    items@.len() as int,
                ));
            }
        }
    }
    Ok(wrote)
}

/// The exact text a leaf node appends: the fixed spelling of a keyword
/// leaf, a literal's payload between its delimiters, the shebang line with
/// its line break. Composite nodes render through hints and recursion and
/// get no single text here.
pub open spec fn spec_leaf_text(node: Node) -> Option<Seq<char>> {
    match node {
        Node::Nil(_) => Some("nil"@),
        Node::False(_) => Some("false"@),
        Node::True(_) => Some("true"@),
        Node::VarArg(_) => Some("..."@),
        Node::Break(_) => Some("break"@),
        Node::Semicolon(_) => Some(";"@),
        Node::Name(_, s) => Some(s@),
        Node::Numeral(_, s) => Some(s@),
        Node::NormalStringLiteral(_, s) => Some("\""@ + s@ + "\""@),
        Node::CharStringLiteral(_, s) => Some("'"@ + s@ + "'"@),
        Node::MultiLineStringLiteral(_, k, s) => Some(
            "["@ + crate::util::repeat_chars(seq!['='], k as nat) + "["@ + s@ + "]"@
                + crate::util::repeat_chars(seq!['='], k as nat) + "]"@,
        ),
        Node::SheBang(_, s) => Some(s@ + "\n"@),
        Node::RetStatNone(_) => Some("return"@),
        _ => None,
    }
}

/// The exact text of a node built from delimiters and hints alone, once
/// the removal options reduce every hint to its placeholder.
pub open spec fn spec_flat_atom(node: Node, cfg: Config) -> Option<Seq<char>> {
    match node {
        Node::DoEnd(_, _) => Some("do"@ + " "@ + "end"@),
        Node::ArgsRoundBracketsEmpty(_, _) => Some("("@ + ""@ + ")"@),
        Node::TableConstructorEmpty(_, _) => Some(
            "{"@ + (match cfg.hint_table_constructor {
                Some(h) => h@,
                None => Seq::empty(),
            }) + "}"@,
        ),
        _ => None,
    }
}

/// The probe mask a top-level call starts from: nothing masked.
pub open spec fn spec_probe_none() -> Probe {
    Probe { no_tc: false, no_tf: false, no_if: false, no_fn: false, no_trailing_sep: false }
}

/// The placeholder a table-constructor hint falls back to.
pub open spec fn spec_tc_hint(cfg: Config) -> Seq<char> {
    match cfg.hint_table_constructor {
        Some(h) => h@,
        None => Seq::empty(),
    }
}

/// A configuration under which every rule prints flat: comments and line
/// breaks are removed, so every hint stands as its placeholder; no width
/// and no per-construct break option is set, so no probe is armed and no
/// rule breaks a line; and no newline is owed at the end. Under such a
/// configuration the text every rule appends is pinned exactly, by
/// `flat_text`.
pub open spec fn flat_cfg(cfg: Config) -> bool {
    &&& cfg.remove_comments == Some(true)
    &&& cfg.remove_newlines == Some(true)
    &&& cfg.max_width is None
    &&& cfg.newline_format_statement is None
    &&& cfg.newline_format_exp_list is None
    &&& cfg.newline_format_exp_list_first is None
    &&& cfg.newline_format_binary_op is None
    &&& cfg.newline_format_table_constructor is None
    &&& cfg.newline_format_table_field is None
    &&& cfg.newline_format_function is None
    &&& cfg.newline_format_if is None
    &&& cfg.newline_format_do_end is None
    &&& cfg.newline_format_while is None
    &&& cfg.newline_format_for is None
    &&& cfg.newline_format_repeat_until is None
    &&& cfg.newline_format_var_suffix is None
    &&& cfg.write_newline_at_eof != Some(true)
}

/// The flat text of the first `i` elements of an unseparated list: the
/// first element after an empty placeholder, every later one after its
/// default prefix hint.
pub open spec fn flat_plain_items(items: Seq<(Loc, Node)>, cfg: Config, i: int) -> Seq<char>
    decreases items, i,
{
    if i <= 0 || i > items.len() {
        Seq::empty()
    } else if i == 1 {
        ""@ + flat_text(items[0].1, cfg)
    } else {
        flat_plain_items(items, cfg, i - 1) + spec_list_item_prefix_hint(items[i - 1].1)
            + flat_text(items[i - 1].1, cfg)
    }
}

/// The flat text of the first `i` elements of a separated list: each
/// element after the first is preceded by its separator — picked by
/// `spec_separator` from the text recorded for the element before it — and
/// the list's padding, and every element is followed by an empty trailing
/// placeholder.
pub open spec fn flat_sep_items(
    items: Seq<(Loc, Node, Loc, Vec<char>)>,
    cfg: Config,
    is_fields: bool,
    ws: Seq<char>,
    sep_default: Seq<char>,
    i: int,
) -> Seq<char>
    decreases items, i,
{
    if i <= 0 || i > items.len() {
        Seq::empty()
    } else if i == 1 {
        ""@ + flat_text(items[0].1, cfg) + ""@
    } else {
        flat_sep_items(items, cfg, is_fields, ws, sep_default, i - 1) + spec_separator(
            cfg,
            is_fields,
            items[i - 2].3@,
            sep_default,
        ) + ws + flat_text(items[i - 1].1, cfg) + ""@
    }
}

/// The exact text one rule appends under a flat configuration (see
/// `flat_cfg`): the rule's keywords, delimiters, hint placeholders and
/// children, in the order they appear in the output.
pub open spec fn flat_text(node: Node, cfg: Config) -> Seq<char>
    decreases node, 0int,
{
    match node {
        Node::BinaryOp(_, _, tok, n0, n1) => flat_text(*n0, cfg) + " "@ + tok.0@ + " "@
            + flat_text(*n1, cfg),
        Node::UnaryOp(_, _, tok, n0) => tok.0@ + ""@ + flat_text(*n0, cfg),
        Node::UnaryNot(_, _, n0) => "not"@ + " "@ + flat_text(*n0, cfg),
        Node::Var(_, _, n0, n1) => flat_text(*n0, cfg) + ""@ + flat_text(*n1, cfg),
        Node::RoundBrackets(_, _, n0) => "("@ + ""@ + flat_text(*n0, cfg) + ""@ + ")"@,
        Node::ArgsRoundBrackets(_, _, n0) => "("@ + ""@ + flat_text(*n0, cfg) + ""@ + ")"@,
        Node::ArgsRoundBracketsEmpty(_, _) => "("@ + ""@ + ")"@,
        Node::Nil(_) => "nil"@,
        Node::False(_) => "false"@,
        Node::True(_) => "true"@,
        Node::VarArg(_) => "..."@,
        Node::Break(_) => "break"@,
        Node::Numeral(_, s) => s@,
        Node::NormalStringLiteral(_, s) => "\""@ + s@ + "\""@,
        Node::CharStringLiteral(_, s) => "'"@ + s@ + "'"@,
        Node::MultiLineStringLiteral(_, k, s) => "["@ + crate::util::repeat_chars(
            seq!['='],
            k as nat,
        ) + "["@ + s@ + "]"@ + crate::util::repeat_chars(seq!['='], k as nat) + "]"@,
        Node::TableConstructor(_, _, n0, _) => "{"@ + spec_tc_hint(cfg) + flat_text(*n0, cfg)
            + spec_tc_hint(cfg) + "}"@,
        Node::TableConstructorEmpty(_, _) => "{"@ + spec_tc_hint(cfg) + "}"@,
        Node::Fields(_, items, opts) => flat_sep_items(
            items@,
            cfg,
            true,
            " "@,
            ","@,
            items@.len() as int,
        ) + (if items@.len() > 0 && !(cfg.enable_oneline_iv_table == Some(true)
            && opts.is_all_sequential == Some(true)) && cfg.write_trailing_field_separator
            == Some(true) {
            spec_separator(cfg, true, items@[items@.len() - 1].3@, ","@)
        } else {
            Seq::empty()
        }),
        Node::FieldNamedBracket(_, _, n0, n1) => "["@ + ""@ + flat_text(*n0, cfg) + ""@ + "]"@
            + " "@ + "="@ + " "@ + flat_text(*n1, cfg),
        Node::FieldNamed(_, _, n0, n1) => flat_text(*n0, cfg) + " "@ + "="@ + " "@ + flat_text(
            *n1,
            cfg,
        ),
        Node::FieldSequential(_, n0) => flat_text(*n0, cfg),
        Node::TableIndex(_, _, n0) => "["@ + ""@ + flat_text(*n0, cfg) + ""@ + "]"@,
        Node::TableMember(_, _, n0) => "."@ + ""@ + flat_text(*n0, cfg),
        Node::ExpList(_, items) => flat_sep_items(
            items@,
            cfg,
            false,
            " "@,
            ","@,
            items@.len() as int,
        ),
        Node::NameList(_, items) => flat_sep_items(
            items@,
            cfg,
            false,
            " "@,
            ","@,
            items@.len() as int,
        ),
        Node::ParList(_, items) => flat_sep_items(
            items@,
            cfg,
            false,
            " "@,
            ","@,
            items@.len() as int,
        ),
        Node::VarList(_, items) => flat_sep_items(
            items@,
            cfg,
            false,
            " "@,
            ","@,
            items@.len() as int,
        ),
        Node::VarRoundSuffix(_, _, n0, n1) => "("@ + ""@ + flat_text(*n0, cfg) + ""@ + ")"@ + ""@
            + flat_text(*n1, cfg),
        Node::VarSuffixList(_, items) => flat_plain_items(items@, cfg, items@.len() as int),
        Node::FnMethodCall(_, _, n0, n1) => ":"@ + ""@ + flat_text(*n0, cfg) + ""@ + flat_text(
            *n1,
            cfg,
        ),
        Node::FunctionDef(_, _, n0) => "function"@ + ""@ + flat_text(*n0, cfg),
        Node::FuncBody(_, _) => "("@ + ""@ + ")"@ + " "@ + "end"@,
        Node::FuncBodyB(_, _, n0) => "("@ + ""@ + ")"@ + " "@ + flat_text(*n0, cfg) + " "@
            + "end"@,
        Node::FuncPBody(_, _, n0) => "("@ + ""@ + flat_text(*n0, cfg) + ""@ + ")"@ + " "@
            + "end"@,
        Node::FuncPBodyB(_, _, n0, n1) => "("@ + ""@ + flat_text(*n0, cfg) + ""@ + ")"@ + " "@
            + flat_text(*n1, cfg) + " "@ + "end"@,
        Node::FuncName(_, items) => flat_sep_items(
            items@,
            cfg,
            false,
            ""@,
            "."@,
            items@.len() as int,
        ),
        Node::FuncNameSelf(_, _, items, n0) => flat_sep_items(
            items@,
            cfg,
            false,
            ""@,
            "."@,
            items@.len() as int,
        ) + ""@ + ":"@ + ""@ + flat_text(*n0, cfg),
        Node::FuncDecl(_, _, n0, n1) => "function"@ + " "@ + flat_text(*n0, cfg) + ""@
            + flat_text(*n1, cfg),
        Node::LocalFuncDecl(_, _, n0, n1) => "local"@ + " "@ + "function"@ + " "@ + flat_text(
            *n0,
            cfg,
        ) + ""@ + flat_text(*n1, cfg),
        Node::StatementList(_, items) => flat_plain_items(items@, cfg, items@.len() as int),
        Node::DoEnd(_, _) => "do"@ + " "@ + "end"@,
        Node::DoBEnd(_, _, n0) => "do"@ + " "@ + flat_text(*n0, cfg) + " "@ + "end"@,
        Node::VarsExprs(_, _, n0, n1) => flat_text(*n0, cfg) + " "@ + "="@ + " "@ + flat_text(
            *n1,
            cfg,
        ),
        Node::Name(_, s) => s@,
        Node::Label(_, _, n0) => "::"@ + ""@ + flat_text(*n0, cfg) + ""@ + "::"@,
        Node::GoTo(_, _, n0) => "goto"@ + " "@ + flat_text(*n0, cfg),
        Node::WhileDo(_, _, n0) => "while"@ + " "@ + flat_text(*n0, cfg) + " "@ + "do"@ + " "@
            + "end"@,
        Node::WhileDoB(_, _, n0, n1) => "while"@ + " "@ + flat_text(*n0, cfg) + " "@ + "do"@
            + " "@ + flat_text(*n1, cfg) + " "@ + "end"@,
        Node::RepeatUntil(_, _, n0) => "repeat"@ + " "@ + "until"@ + " "@ + flat_text(*n0, cfg),
        Node::RepeatBUntil(_, _, n0, n1) => "repeat"@ + " "@ + flat_text(*n0, cfg) + " "@
            + "until"@ + " "@ + flat_text(*n1, cfg),
        Node::ForInt(_, _, n0, n1, n2) => "for"@ + " "@ + flat_text(*n0, cfg) + " "@ + "="@
            + " "@ + flat_text(*n1, cfg) + ""@ + ","@ + " "@ + flat_text(*n2, cfg) + " "@ + "do"@
            + " "@ + "end"@,
        Node::ForIntB(_, _, n0, n1, n2, n3) => "for"@ + " "@ + flat_text(*n0, cfg) + " "@ + "="@
            + " "@ + flat_text(*n1, cfg) + ""@ + ","@ + " "@ + flat_text(*n2, cfg) + " "@ + "do"@
            + " "@ + flat_text(*n3, cfg) + " "@ + "end"@,
        Node::ForIntStep(_, _, n0, n1, n2, n3) => "for"@ + " "@ + flat_text(*n0, cfg) + " "@
            + "="@ + " "@ + flat_text(*n1, cfg) + ""@ + ","@ + " "@ + flat_text(*n2, cfg) + ""@
            + ","@ + " "@ + flat_text(*n3, cfg) + " "@ + "do"@ + " "@ + "end"@,
        Node::ForIntStepB(_, _, n0, n1, n2, n3, n4) => "for"@ + " "@ + flat_text(*n0, cfg) + " "@
            + "="@ + " "@ + flat_text(*n1, cfg) + ""@ + ","@ + " "@ + flat_text(*n2, cfg) + ""@
            + ","@ + " "@ + flat_text(*n3, cfg) + " "@ + "do"@ + " "@ + flat_text(*n4, cfg) + " "@
            + "end"@,
        Node::ForRange(_, _, n0, n1) => "for"@ + " "@ + flat_text(*n0, cfg) + " "@ + "in"@ + " "@
            + flat_text(*n1, cfg) + " "@ + "do"@ + " "@ + "end"@,
        Node::ForRangeB(_, _, n0, n1, n2) => "for"@ + " "@ + flat_text(*n0, cfg) + " "@ + "in"@
            + " "@ + flat_text(*n1, cfg) + " "@ + "do"@ + " "@ + flat_text(*n2, cfg) + " "@
            + "end"@,
        Node::LocalNames(_, _, n0) => "local"@ + " "@ + flat_text(*n0, cfg),
        Node::LocalNamesExprs(_, _, n0, n1) => "local"@ + " "@ + flat_text(*n0, cfg) + " "@
            + "="@ + " "@ + flat_text(*n1, cfg),
        Node::IfThen(_, _, n0) => "if"@ + " "@ + flat_text(*n0, cfg) + " "@ + "then"@ + " "@
            + "end"@,
        Node::IfThenB(_, _, n0, n1) => "if"@ + " "@ + flat_text(*n0, cfg) + " "@ + "then"@ + " "@
            + flat_text(*n1, cfg) + " "@ + "end"@,
        Node::IfThenElse(_, _, n0) => "if"@ + " "@ + flat_text(*n0, cfg) + " "@ + "then"@ + " "@
            + "else"@ + " "@ + "end"@,
        Node::IfThenBElse(_, _, n0, n1) => "if"@ + " "@ + flat_text(*n0, cfg) + " "@ + "then"@
            + " "@ + flat_text(*n1, cfg) + " "@ + "else"@ + " "@ + "end"@,
        Node::IfThenElseB(_, _, n0, n1) => "if"@ + " "@ + flat_text(*n0, cfg) + " "@ + "then"@
            + " "@ + "else"@ + " "@ + flat_text(*n1, cfg) + " "@ + "end"@,
        Node::IfThenBElseB(_, _, n0, n1, n2) => "if"@ + " "@ + flat_text(*n0, cfg) + " "@
            + "then"@ + " "@ + flat_text(*n1, cfg) + " "@ + "else"@ + " "@ + flat_text(*n2, cfg)
            + " "@ + "end"@,
        Node::IfThenElseIf(_, _, n0, n1) => "if"@ + " "@ + flat_text(*n0, cfg) + " "@ + "then"@
            + " "@ + flat_text(*n1, cfg) + " "@ + "end"@,
        Node::IfThenBElseIf(_, _, n0, n1, n2) => "if"@ + " "@ + flat_text(*n0, cfg) + " "@
            + "then"@ + " "@ + flat_text(*n1, cfg) + " "@ + flat_text(*n2, cfg) + " "@ + "end"@,
        Node::IfThenElseIfElse(_, _, n0, n1) => "if"@ + " "@ + flat_text(*n0, cfg) + " "@
            + "then"@ + " "@ + flat_text(*n1, cfg) + " "@ + "else"@ + " "@ + "end"@,
        Node::IfThenBElseIfElse(_, _, n0, n1, n2) => "if"@ + " "@ + flat_text(*n0, cfg) + " "@
            + "then"@ + " "@ + flat_text(*n1, cfg) + " "@ + flat_text(*n2, cfg) + " "@ + "else"@
            + " "@ + "end"@,
        Node::IfThenElseIfElseB(_, _, n0, n1, n2) => "if"@ + " "@ + flat_text(*n0, cfg) + " "@
            + "then"@ + " "@ + flat_text(*n1, cfg) + " "@ + "else"@ + " "@ + flat_text(*n2, cfg)
            + " "@ + "end"@,
        Node::IfThenBElseIfElseB(_, _, n0, n1, n2, n3) => "if"@ + " "@ + flat_text(*n0, cfg)
            + " "@ + "then"@ + " "@ + flat_text(*n1, cfg) + " "@ + flat_text(*n2, cfg) + " "@
            + "else"@ + " "@ + flat_text(*n3, cfg) + " "@ + "end"@,
        Node::ElseIfThenVec(_, items) => flat_plain_items(items@, cfg, items@.len() as int),
        Node::ElseIfThen(_, _, n0) => "elseif"@ + " "@ + flat_text(*n0, cfg) + " "@ + "then"@,
        Node::ElseIfThenB(_, _, n0, n1) => "elseif"@ + " "@ + flat_text(*n0, cfg) + " "@
            + "then"@ + " "@ + flat_text(*n1, cfg),
        Node::RetStatNone(_) => "return"@,
        Node::RetStatExpr(_, _, n0) => "return"@ + " "@ + flat_text(*n0, cfg),
        Node::RetStatNoneComma(_, _) => "return"@ + ""@ + ";"@,
        Node::RetStatExprComma(_, _, n0) => "return"@ + " "@ + flat_text(*n0, cfg) + ""@ + ";"@,
        Node::StatsRetStat(_, _, n0, n1) => flat_text(*n0, cfg) + " "@ + flat_text(*n1, cfg),
        Node::Chunk(_, n0, _) => ""@ + flat_text(*n0, cfg) + ""@,
        Node::SheBangChunk(_, n0, _, n1, _) => ""@ + flat_text(*n0, cfg) + ""@ + flat_text(
            *n1,
            cfg,
        ) + ""@,
        Node::Semicolon(_) => ";"@,
        Node::SheBang(_, s) => s@ + "\n"@,
    }
}


/// The rules for the plain statement forms: `do`, `while`, `repeat`,
/// `for`, `local`, labels, `goto` and assignment. Split out of
/// `write_node` so each proof stays a tractable size.
#[verifier::rlimit(100)]
#[verifier::spinoff_prover]
fn write_stat_node(
    node: &Node,
    f: &mut Vec<char>,
    cfg: &Config,
    buf: &Vec<char>,
    state: &mut State,
    pr: Probe,
) -> (r: Result<(), FormatError>)
    requires
        node is DoEnd || node is DoBEnd || node is VarsExprs || node is Name || node
            is Label || node is GoTo || node is LocalNames || node is LocalNamesExprs,
    ensures
        r.is_ok() ==> *final(state) == *old(state),
        match spec_leaf_text(*node) {
            Some(txt) => r.is_ok() ==> final(f)@ == old(f)@ + txt,
            None => true,
        },
        match spec_flat_atom(*node, *cfg) {
            Some(txt) => r.is_ok() && cfg.remove_comments == Some(true)
                && cfg.remove_newlines == Some(true) ==> final(f)@ == old(f)@ + txt,
            None => true,
        },
        r.is_ok() && flat_cfg(*cfg) && pr == spec_probe_none() ==> final(f)@ == old(f)@
            + flat_text(*node, *cfg),
    decreases *node, probe_rank(*cfg, pr), 1nat,
{
    match node {
        Node::DoEnd(_, locs) => {
            push_str(f, "do");
            hint(f, cfg, buf, state, locs[0], " ");
            push_str(f, "end");
            Ok(())
        }
        Node::DoBEnd(_, locs, b) => {
            let ind_fmt = indent_format_on(&cfg.do_end_indent_format);
            let nl = matches!(cfg.newline_format_do_end, Some(1));
            push_str(f, "do");
            inc_indent_if(state, ind_fmt)?;
            cond_newline(f, cfg, buf, state, nl, locs[0], " ");
            write_node(b, f, cfg, buf, state, pr)?;
            dec_indent_if(state, ind_fmt);
            cond_newline(f, cfg, buf, state, nl, locs[1], " ");
            push_str(f, "end");
            Ok(())
        }
        Node::VarsExprs(_, locs, n1, n2) => {
            write_node(n1, f, cfg, buf, state, pr)?;
            hint(f, cfg, buf, state, locs[0], " ");
            push_str(f, "=");
            let ind = test_indent(n2, locs[1], " ", f, cfg, buf, state, pr);
            if ind {
                inc_indent(state)?;
            }
            hint(f, cfg, buf, state, locs[1], " ");
            write_node(n2, f, cfg, buf, state, pr)?;
            if ind {
                dec_indent(state);
            }
            Ok(())
        }
        Node::Name(_, s) => {
            push_chars(f, s);
            Ok(())
        }
        Node::Label(_, locs, n) => {
            push_str(f, "::");
            hint(f, cfg, buf, state, locs[0], "");
            write_node(n, f, cfg, buf, state, pr)?;
            hint(f, cfg, buf, state, locs[1], "");
            push_str(f, "::");
            Ok(())
        }
        Node::GoTo(_, locs, n) => {
            push_str(f, "goto");
            hint(f, cfg, buf, state, locs[0], " ");
            write_node(n, f, cfg, buf, state, pr)
        }
        Node::LocalNames(_, locs, n) => {
            push_str(f, "local");
            hint(f, cfg, buf, state, locs[0], " ");
            write_node(n, f, cfg, buf, state, pr)
        }
        Node::LocalNamesExprs(_, locs, n1, n2) => {
            push_str(f, "local");
            hint(f, cfg, buf, state, locs[0], " ");
            write_node(n1, f, cfg, buf, state, pr)?;
            hint(f, cfg, buf, state, locs[1], " ");
            push_str(f, "=");
            let ind = test_indent(n2, locs[2], " ", f, cfg, buf, state, pr);
            if ind {
                inc_indent(state)?;
            }
            hint(f, cfg, buf, state, locs[2], " ");
            write_node(n2, f, cfg, buf, state, pr)?;
            if ind {
                dec_indent(state);
            }
            Ok(())
        }
        _ => {
            proof {
                assert(false);
            }
            Ok(())
        }
    }
}


/// The rules for the if-chains without an `elseif` link: every
/// combination of a then-body, an else and an else-body. Split out of
/// `write_node` so each proof stays a tractable size.
#[verifier::rlimit(100)]
#[verifier::spinoff_prover]
fn write_if_node(
    node: &Node,
    f: &mut Vec<char>,
    cfg: &Config,
    buf: &Vec<char>,
    state: &mut State,
    pr: Probe,
) -> (r: Result<(), FormatError>)
    requires
        node is IfThen || node is IfThenB || node is IfThenElse || node is IfThenBElse
            || node is IfThenElseB || node is IfThenBElseB,
    ensures
        r.is_ok() ==> *final(state) == *old(state),
        match spec_leaf_text(*node) {
            Some(txt) => r.is_ok() ==> final(f)@ == old(f)@ + txt,
            None => true,
        },
        match spec_flat_atom(*node, *cfg) {
            Some(txt) => r.is_ok() && cfg.remove_comments == Some(true)
                && cfg.remove_newlines == Some(true) ==> final(f)@ == old(f)@ + txt,
            None => true,
        },
        r.is_ok() && flat_cfg(*cfg) && pr == spec_probe_none() ==> final(f)@ == old(f)@
            + flat_text(*node, *cfg),
    decreases *node, probe_rank(*cfg, pr), 1nat,
{
    match node {
        Node::IfThen(_, locs, e1) => {
            if if_probe_enabled(cfg, pr) {
                let pr2 = mask_if(pr);
                proof {
                    assert(probe_rank(*cfg, pr2) < probe_rank(*cfg, pr));
                }
                match test_oneline_if(node, e1, locs[0], locs[1], f, cfg, buf, state, pr2) {
                    Some(tf) => {
                        *f = tf;
                        return Ok(());
                    }
                    None => {}
                }
            }
            let nl = matches!(nf_if(cfg, pr), Some(1));
            push_str(f, "if");
            hint(f, cfg, buf, state, locs[0], " ");
            write_node(e1, f, cfg, buf, state, pr)?;
            hint(f, cfg, buf, state, locs[1], " ");
            push_str(f, "then");
            cond_newline(f, cfg, buf, state, nl, locs[2], " ");
            push_str(f, "end");
            Ok(())
        }
        Node::IfThenB(_, locs, e1, b1) => {
            let ind_fmt = indent_format_on(&cfg.if_indent_format);
            if if_probe_enabled(cfg, pr) {
                let pr2 = mask_if(pr);
                proof {
                    assert(probe_rank(*cfg, pr2) < probe_rank(*cfg, pr));
                }
                match test_oneline_if(node, e1, locs[0], locs[1], f, cfg, buf, state, pr2) {
                    Some(tf) => {
                        *f = tf;
                        return Ok(());
                    }
                    None => {}
                }
            }
            let nl = matches!(nf_if(cfg, pr), Some(1));
            push_str(f, "if");
            hint(f, cfg, buf, state, locs[0], " ");
            write_node(e1, f, cfg, buf, state, pr)?;
            hint(f, cfg, buf, state, locs[1], " ");
            push_str(f, "then");
            inc_indent_if(state, ind_fmt)?;
            cond_newline(f, cfg, buf, state, nl, locs[2], " ");
            write_node(b1, f, cfg, buf, state, pr)?;
            dec_indent_if(state, ind_fmt);
            cond_newline(f, cfg, buf, state, nl, locs[3], " ");
            push_str(f, "end");
            Ok(())
        }
        Node::IfThenElse(_, locs, e1) => {
            if if_probe_enabled(cfg, pr) {
                let pr2 = mask_if(pr);
                proof {
                    assert(probe_rank(*cfg, pr2) < probe_rank(*cfg, pr));
                }
                match test_oneline_if(node, e1, locs[0], locs[1], f, cfg, buf, state, pr2) {
                    Some(tf) => {
                        *f = tf;
                        return Ok(());
                    }
                    None => {}
                }
            }
            let nl = matches!(nf_if(cfg, pr), Some(1));
            push_str(f, "if");
            hint(f, cfg, buf, state, locs[0], " ");
            write_node(e1, f, cfg, buf, state, pr)?;
            hint(f, cfg, buf, state, locs[1], " ");
            push_str(f, "then");
            hint(f, cfg, buf, state, locs[2], " ");
            push_str(f, "else");
            cond_newline(f, cfg, buf, state, nl, locs[3], " ");
            push_str(f, "end");
            Ok(())
        }
        Node::IfThenBElse(_, locs, e1, b1) => {
            let ind_fmt = indent_format_on(&cfg.if_indent_format);
            if if_probe_enabled(cfg, pr) {
                let pr2 = mask_if(pr);
                proof {
                    assert(probe_rank(*cfg, pr2) < probe_rank(*cfg, pr));
                }
                match test_oneline_if(node, e1, locs[0], locs[1], f, cfg, buf, state, pr2) {
                    Some(tf) => {
                        *f = tf;
                        return Ok(());
                    }
                    None => {}
                }
            }
            let nl = matches!(nf_if(cfg, pr), Some(1));
            push_str(f, "if");
            hint(f, cfg, buf, state, locs[0], " ");
            write_node(e1, f, cfg, buf, state, pr)?;
            hint(f, cfg, buf, state, locs[1], " ");
            push_str(f, "then");
            inc_indent_if(state, ind_fmt)?;
            cond_newline(f, cfg, buf, state, nl, locs[2], " ");
            write_node(b1, f, cfg, buf, state, pr)?;
            dec_indent_if(state, ind_fmt);
            cond_newline(f, cfg, buf, state, nl, locs[3], " ");
            push_str(f, "else");
            cond_newline(f, cfg, buf, state, nl, locs[4], " ");
            push_str(f, "end");
            Ok(())
        }
        Node::IfThenElseB(_, locs, e1, b2) => {
            let ind_fmt = indent_format_on(&cfg.if_indent_format);
            if if_probe_enabled(cfg, pr) {
                let pr2 = mask_if(pr);
                proof {
                    assert(probe_rank(*cfg, pr2) < probe_rank(*cfg, pr));
                }
                match test_oneline_if(node, e1, locs[0], locs[1], f, cfg, buf, state, pr2) {
                    Some(tf) => {
                        *f = tf;
                        return Ok(());
                    }
                    None => {}
                }
            }
            let nl = matches!(nf_if(cfg, pr), Some(1));
            push_str(f, "if");
            hint(f, cfg, buf, state, locs[0], " ");
            write_node(e1, f, cfg, buf, state, pr)?;
            hint(f, cfg, buf, state, locs[1], " ");
            push_str(f, "then");
            hint(f, cfg, buf, state, locs[2], " ");
            push_str(f, "else");
            inc_indent_if(state, ind_fmt)?;
            cond_newline(f, cfg, buf, state, nl, locs[3], " ");
            write_node(b2, f, cfg, buf, state, pr)?;
            dec_indent_if(state, ind_fmt);
            cond_newline(f, cfg, buf, state, nl, locs[4], " ");
            push_str(f, "end");
            Ok(())
        }
        Node::IfThenBElseB(_, locs, e1, b1, b2) => {
            let ind_fmt = indent_format_on(&cfg.if_indent_format);
            if if_probe_enabled(cfg, pr) {
                let pr2 = mask_if(pr);
                proof {
                    assert(probe_rank(*cfg, pr2) < probe_rank(*cfg, pr));
                }
                match test_oneline_if(node, e1, locs[0], locs[1], f, cfg, buf, state, pr2) {
                    Some(tf) => {
                        *f = tf;
                        return Ok(());
                    }
                    None => {}
                }
            }
            let nl = matches!(nf_if(cfg, pr), Some(1));
            push_str(f, "if");
            hint(f, cfg, buf, state, locs[0], " ");
            write_node(e1, f, cfg, buf, state, pr)?;
            hint(f, cfg, buf, state, locs[1], " ");
            push_str(f, "then");
            inc_indent_if(state, ind_fmt)?;
            cond_newline(f, cfg, buf, state, nl, locs[2], " ");
            write_node(b1, f, cfg, buf, state, pr)?;
            dec_indent_if(state, ind_fmt);
            cond_newline(f, cfg, buf, state, nl, locs[3], " ");
            push_str(f, "else");
            inc_indent_if(state, ind_fmt)?;
            cond_newline(f, cfg, buf, state, nl, locs[4], " ");
            write_node(b2, f, cfg, buf, state, pr)?;
            dec_indent_if(state, ind_fmt);
            cond_newline(f, cfg, buf, state, nl, locs[5], " ");
            push_str(f, "end");
            Ok(())
        }
        _ => {
            proof {
                assert(false);
            }
            Ok(())
        }
    }
}


/// The rules for the four function-body forms: with and without a
/// parameter list, with and without a body. Split out of `write_node` so
/// each proof stays a tractable size.
#[verifier::rlimit(100)]
#[verifier::spinoff_prover]
fn write_funcbody_node(
    node: &Node,
    f: &mut Vec<char>,
    cfg: &Config,
    buf: &Vec<char>,
    state: &mut State,
    pr: Probe,
) -> (r: Result<(), FormatError>)
    requires
        node is FuncBody || node is FuncBodyB || node is FuncPBody || node is FuncPBodyB,
    ensures
        r.is_ok() ==> *final(state) == *old(state),
        match spec_leaf_text(*node) {
            Some(txt) => r.is_ok() ==> final(f)@ == old(f)@ + txt,
            None => true,
        },
        match spec_flat_atom(*node, *cfg) {
            Some(txt) => r.is_ok() && cfg.remove_comments == Some(true)
                && cfg.remove_newlines == Some(true) ==> final(f)@ == old(f)@ + txt,
            None => true,
        },
        r.is_ok() && flat_cfg(*cfg) && pr == spec_probe_none() ==> final(f)@ == old(f)@
            + flat_text(*node, *cfg),
    decreases *node, probe_rank(*cfg, pr), 1nat,
{
    match node {
        Node::FuncBody(_, locs) => {
            if fn_probe_enabled(cfg, state, pr) {
                let pr2 = Probe {
                    no_tc: pr.no_tc,
                    no_tf: pr.no_tf,
                    no_if: pr.no_if,
                    no_fn: true,
                    no_trailing_sep: pr.no_trailing_sep,
                };
                proof {
                    assert(probe_rank(*cfg, pr2) < probe_rank(*cfg, pr));
                }
                match test_oneline_function(node, f, cfg, buf, state, pr2) {
                    Some(tf) => {
                        *f = tf;
                        return Ok(());
                    }
                    None => {}
                }
            }
            let nl = matches!(nf_fn(cfg, pr), Some(1));
            push_str(f, "(");
            hint(f, cfg, buf, state, locs[0], "");
            push_str(f, ")");
            cond_newline(f, cfg, buf, state, nl, locs[1], " ");
            push_str(f, "end");
            Ok(())
        }
        Node::FuncBodyB(_, locs, n2) => {
            let ind_fmt = indent_format_on(&cfg.function_indent_format);
            if fn_probe_enabled(cfg, state, pr) {
                let pr2 = Probe {
                    no_tc: pr.no_tc,
                    no_tf: pr.no_tf,
                    no_if: pr.no_if,
                    no_fn: true,
                    no_trailing_sep: pr.no_trailing_sep,
                };
                proof {
                    assert(probe_rank(*cfg, pr2) < probe_rank(*cfg, pr));
                }
                match test_oneline_function(node, f, cfg, buf, state, pr2) {
                    Some(tf) => {
                        *f = tf;
                        return Ok(());
                    }
                    None => {}
                }
            }
            let nl = matches!(nf_fn(cfg, pr), Some(1));
            push_str(f, "(");
            hint(f, cfg, buf, state, locs[0], "");
            push_str(f, ")");
            inc_indent_if(state, ind_fmt)?;
            inc_func_level(state)?;
            cond_newline(f, cfg, buf, state, nl, locs[1], " ");
            write_node(n2, f, cfg, buf, state, pr)?;
            dec_indent_if(state, ind_fmt);
            dec_func_level(state);
            cond_newline(f, cfg, buf, state, nl, locs[2], " ");
            push_str(f, "end");
            Ok(())
        }
        Node::FuncPBody(_, locs, n1) => {
            let ind_fmt = indent_format_on(&cfg.function_indent_format);
            if fn_probe_enabled(cfg, state, pr) {
                let pr2 = Probe {
                    no_tc: pr.no_tc,
                    no_tf: pr.no_tf,
                    no_if: pr.no_if,
                    no_fn: true,
                    no_trailing_sep: pr.no_trailing_sep,
                };
                proof {
                    assert(probe_rank(*cfg, pr2) < probe_rank(*cfg, pr));
                }
                match test_oneline_function(node, f, cfg, buf, state, pr2) {
                    Some(tf) => {
                        *f = tf;
                        return Ok(());
                    }
                    None => {}
                }
            }
            let nl = matches!(nf_fn(cfg, pr), Some(1));
            push_str(f, "(");
            inc_indent_if(state, ind_fmt)?;
            hint(f, cfg, buf, state, locs[0], "");
            write_node(n1, f, cfg, buf, state, pr)?;
            hint(f, cfg, buf, state, locs[1], "");
            dec_indent_if(state, ind_fmt);
            push_str(f, ")");
            cond_newline(f, cfg, buf, state, nl, locs[2], " ");
            push_str(f, "end");
            Ok(())
        }
        Node::FuncPBodyB(_, locs, n1, n2) => {
            let ind_fmt = indent_format_on(&cfg.function_indent_format);
            if fn_probe_enabled(cfg, state, pr) {
                let pr2 = Probe {
                    no_tc: pr.no_tc,
                    no_tf: pr.no_tf,
                    no_if: pr.no_if,
                    no_fn: true,
                    no_trailing_sep: pr.no_trailing_sep,
                };
                proof {
                    assert(probe_rank(*cfg, pr2) < probe_rank(*cfg, pr));
                }
                match test_oneline_function(node, f, cfg, buf, state, pr2) {
                    Some(tf) => {
                        *f = tf;
                        return Ok(());
                    }
                    None => {}
                }
            }
            let nl = matches!(nf_fn(cfg, pr), Some(1));
            push_str(f, "(");
            inc_indent_if(state, ind_fmt)?;
            hint(f, cfg, buf, state, locs[0], "");
            write_node(n1, f, cfg, buf, state, pr)?;
            hint(f, cfg, buf, state, locs[1], "");
            dec_indent_if(state, ind_fmt);
            push_str(f, ")");
            inc_indent_if(state, ind_fmt)?;
            inc_func_level(state)?;
            cond_newline(f, cfg, buf, state, nl, locs[2], " ");
            write_node(n2, f, cfg, buf, state, pr)?;
            dec_indent_if(state, ind_fmt);
            dec_func_level(state);
            cond_newline(f, cfg, buf, state, nl, locs[3], " ");
            push_str(f, "end");
            Ok(())
        }
        _ => {
            proof {
                assert(false);
            }
            Ok(())
        }
    }
}


/// The rules for the `while` and `repeat` loop heads, with and without a
/// body. Split out of `write_node` so each proof stays a tractable size.
#[verifier::rlimit(100)]
#[verifier::spinoff_prover]
fn write_loop_node(
    node: &Node,
    f: &mut Vec<char>,
    cfg: &Config,
    buf: &Vec<char>,
    state: &mut State,
    pr: Probe,
) -> (r: Result<(), FormatError>)
    requires
        node is WhileDo || node is WhileDoB || node is RepeatUntil || node is RepeatBUntil,
    ensures
        r.is_ok() ==> *final(state) == *old(state),
        match spec_leaf_text(*node) {
            Some(txt) => r.is_ok() ==> final(f)@ == old(f)@ + txt,
            None => true,
        },
        match spec_flat_atom(*node, *cfg) {
            Some(txt) => r.is_ok() && cfg.remove_comments == Some(true)
                && cfg.remove_newlines == Some(true) ==> final(f)@ == old(f)@ + txt,
            None => true,
        },
        r.is_ok() && flat_cfg(*cfg) && pr == spec_probe_none() ==> final(f)@ == old(f)@
            + flat_text(*node, *cfg),
    decreases *node, probe_rank(*cfg, pr), 1nat,
{
    match node {
        Node::WhileDo(_, locs, e) => {
            let nl = matches!(cfg.newline_format_while, Some(1));
            push_str(f, "while");
            hint(f, cfg, buf, state, locs[0], " ");
            write_node(e, f, cfg, buf, state, pr)?;
            hint(f, cfg, buf, state, locs[1], " ");
            push_str(f, "do");
            cond_newline(f, cfg, buf, state, nl, locs[2], " ");
            push_str(f, "end");
            Ok(())
        }
        Node::WhileDoB(_, locs, e, b) => {
            let ind_fmt = indent_format_on(&cfg.while_do_indent_format);
            let nl = matches!(cfg.newline_format_while, Some(1));
            push_str(f, "while");
            hint(f, cfg, buf, state, locs[0], " ");
            write_node(e, f, cfg, buf, state, pr)?;
            hint(f, cfg, buf, state, locs[1], " ");
            push_str(f, "do");
            inc_indent_if(state, ind_fmt)?;
            cond_newline(f, cfg, buf, state, nl, locs[2], " ");
            write_node(b, f, cfg, buf, state, pr)?;
            dec_indent_if(state, ind_fmt);
            cond_newline(f, cfg, buf, state, nl, locs[3], " ");
            push_str(f, "end");
            Ok(())
        }
        Node::RepeatUntil(_, locs, e) => {
            let nl = matches!(cfg.newline_format_repeat_until, Some(1));
            push_str(f, "repeat");
            cond_newline(f, cfg, buf, state, nl, locs[0], " ");
            push_str(f, "until");
            hint(f, cfg, buf, state, locs[1], " ");
            write_node(e, f, cfg, buf, state, pr)
        }
        Node::RepeatBUntil(_, locs, b, e) => {
            let ind_fmt = indent_format_on(&cfg.repeat_until_indent_format);
            let nl = matches!(cfg.newline_format_repeat_until, Some(1));
            push_str(f, "repeat");
            inc_indent_if(state, ind_fmt)?;
            cond_newline(f, cfg, buf, state, nl, locs[0], " ");
            write_node(b, f, cfg, buf, state, pr)?;
            dec_indent_if(state, ind_fmt);
            cond_newline(f, cfg, buf, state, nl, locs[1], " ");
            push_str(f, "until");
            hint(f, cfg, buf, state, locs[2], " ");
            write_node(e, f, cfg, buf, state, pr)
        }
        _ => {
            proof {
                assert(false);
            }
            Ok(())
        }
    }
}


/// The rules for the numeric and range `for` heads, with and without a
/// step and a body. Split out of `write_node` so each proof stays a
/// tractable size.
#[verifier::rlimit(100)]
#[verifier::spinoff_prover]
fn write_for_node(
    node: &Node,
    f: &mut Vec<char>,
    cfg: &Config,
    buf: &Vec<char>,
    state: &mut State,
    pr: Probe,
) -> (r: Result<(), FormatError>)
    requires
        node is ForInt || node is ForIntB || node is ForIntStep || node is ForIntStepB
            || node is ForRange || node is ForRangeB,
    ensures
        r.is_ok() ==> *final(state) == *old(state),
        match spec_leaf_text(*node) {
            Some(txt) => r.is_ok() ==> final(f)@ == old(f)@ + txt,
            None => true,
        },
        match spec_flat_atom(*node, *cfg) {
            Some(txt) => r.is_ok() && cfg.remove_comments == Some(true)
                && cfg.remove_newlines == Some(true) ==> final(f)@ == old(f)@ + txt,
            None => true,
        },
        r.is_ok() && flat_cfg(*cfg) && pr == spec_probe_none() ==> final(f)@ == old(f)@
            + flat_text(*node, *cfg),
    decreases *node, probe_rank(*cfg, pr), 1nat,
{
    match node {
        Node::ForInt(_, locs, n, e1, e2) => {
            push_str(f, "for");
            hint(f, cfg, buf, state, locs[0], " ");
            write_node(n, f, cfg, buf, state, pr)?;
            hint(f, cfg, buf, state, locs[1], " ");
            push_str(f, "=");
            hint(f, cfg, buf, state, locs[2], " ");
            write_node(e1, f, cfg, buf, state, pr)?;
            hint(f, cfg, buf, state, locs[3], "");
            push_str(f, ",");
            hint(f, cfg, buf, state, locs[4], " ");
            write_node(e2, f, cfg, buf, state, pr)?;
            hint(f, cfg, buf, state, locs[5], " ");
            push_str(f, "do");
            hint(f, cfg, buf, state, locs[6], " ");
            push_str(f, "end");
            Ok(())
        }
        Node::ForIntB(_, locs, n, e1, e2, b) => {
            let ind_fmt = indent_format_on(&cfg.for_indent_format);
            let nl = matches!(cfg.newline_format_for, Some(1));
            push_str(f, "for");
            hint(f, cfg, buf, state, locs[0], " ");
            write_node(n, f, cfg, buf, state, pr)?;
            hint(f, cfg, buf, state, locs[1], " ");
            push_str(f, "=");
            hint(f, cfg, buf, state, locs[2], " ");
            write_node(e1, f, cfg, buf, state, pr)?;
            hint(f, cfg, buf, state, locs[3], "");
            push_str(f, ",");
            hint(f, cfg, buf, state, locs[4], " ");
            write_node(e2, f, cfg, buf, state, pr)?;
            hint(f, cfg, buf, state, locs[5], " ");
            push_str(f, "do");
            inc_indent_if(state, ind_fmt)?;
            cond_newline(f, cfg, buf, state, nl, locs[6], " ");
            write_node(b, f, cfg, buf, state, pr)?;
            dec_indent_if(state, ind_fmt);
            cond_newline(f, cfg, buf, state, nl, locs[7], " ");
            push_str(f, "end");
            Ok(())
        }
        Node::ForIntStep(_, locs, n, e1, e2, e3) => {
            let nl = matches!(cfg.newline_format_for, Some(1));
            push_str(f, "for");
            hint(f, cfg, buf, state, locs[0], " ");
            write_node(n, f, cfg, buf, state, pr)?;
            hint(f, cfg, buf, state, locs[1], " ");
            push_str(f, "=");
            hint(f, cfg, buf, state, locs[2], " ");
            write_node(e1, f, cfg, buf, state, pr)?;
            hint(f, cfg, buf, state, locs[3], "");
            push_str(f, ",");
            hint(f, cfg, buf, state, locs[4], " ");
            write_node(e2, f, cfg, buf, state, pr)?;
            hint(f, cfg, buf, state, locs[5], "");
            push_str(f, ",");
            hint(f, cfg, buf, state, locs[6], " ");
            write_node(e3, f, cfg, buf, state, pr)?;
            hint(f, cfg, buf, state, locs[7], " ");
            push_str(f, "do");
            cond_newline(f, cfg, buf, state, nl, locs[8], " ");
            push_str(f, "end");
            Ok(())
        }
        Node::ForIntStepB(_, locs, n, e1, e2, e3, b) => {
            let ind_fmt = indent_format_on(&cfg.for_indent_format);
            let nl = matches!(cfg.newline_format_for, Some(1));
            push_str(f, "for");
            hint(f, cfg, buf, state, locs[0], " ");
            write_node(n, f, cfg, buf, state, pr)?;
            hint(f, cfg, buf, state, locs[1], " ");
            push_str(f, "=");
            hint(f, cfg, buf, state, locs[2], " ");
            write_node(e1, f, cfg, buf, state, pr)?;
            hint(f, cfg, buf, state, locs[3], "");
            push_str(f, ",");
            hint(f, cfg, buf, state, locs[4], " ");
            write_node(e2, f, cfg, buf, state, pr)?;
            hint(f, cfg, buf, state, locs[5], "");
            push_str(f, ",");
            hint(f, cfg, buf, state, locs[6], " ");
            write_node(e3, f, cfg, buf, state, pr)?;
            hint(f, cfg, buf, state, locs[7], " ");
            push_str(f, "do");
            inc_indent_if(state, ind_fmt)?;
            cond_newline(f, cfg, buf, state, nl, locs[8], " ");
            write_node(b, f, cfg, buf, state, pr)?;
            dec_indent_if(state, ind_fmt);
            cond_newline(f, cfg, buf, state, nl, locs[9], " ");
            push_str(f, "end");
            Ok(())
        }
        Node::ForRange(_, locs, n, e) => {
            let nl = matches!(cfg.newline_format_for, Some(1));
            push_str(f, "for");
            hint(f, cfg, buf, state, locs[0], " ");
            write_node(n, f, cfg, buf, state, pr)?;
            hint(f, cfg, buf, state, locs[1], " ");
            push_str(f, "in");
            let ind = test_indent(e, locs[2], " ", f, cfg, buf, state, pr);
            if ind {
                inc_indent(state)?;
            }
            hint(f, cfg, buf, state, locs[2], " ");
            write_node(e, f, cfg, buf, state, pr)?;
            if ind {
                dec_indent(state);
            }
            hint(f, cfg, buf, state, locs[3], " ");
            push_str(f, "do");
            cond_newline(f, cfg, buf, state, nl, locs[4], " ");
            push_str(f, "end");
            Ok(())
        }
        Node::ForRangeB(_, locs, n, e, b) => {
            let ind_fmt = indent_format_on(&cfg.for_indent_format);
            let nl = matches!(cfg.newline_format_for, Some(1));
            push_str(f, "for");
            hint(f, cfg, buf, state, locs[0], " ");
            write_node(n, f, cfg, buf, state, pr)?;
            hint(f, cfg, buf, state, locs[1], " ");
            push_str(f, "in");
            let ind = test_indent(e, locs[2], " ", f, cfg, buf, state, pr);
            if ind {
                inc_indent(state)?;
            }
            hint(f, cfg, buf, state, locs[2], " ");
            write_node(e, f, cfg, buf, state, pr)?;
            if ind {
                dec_indent(state);
            }
            hint(f, cfg, buf, state, locs[3], " ");
            push_str(f, "do");
            inc_indent_if(state, ind_fmt)?;
            cond_newline(f, cfg, buf, state, nl, locs[4], " ");
            write_node(b, f, cfg, buf, state, pr)?;
            dec_indent_if(state, ind_fmt);
            cond_newline(f, cfg, buf, state, nl, locs[5], " ");
            push_str(f, "end");
            Ok(())
        }
        _ => {
            proof {
                assert(false);
            }
            Ok(())
        }
    }
}


/// The rules for the if-chains that continue with an `elseif` chain.
/// Split out of `write_node` so each proof stays a tractable size.
#[verifier::rlimit(100)]
#[verifier::spinoff_prover]
fn write_elseif_node(
    node: &Node,
    f: &mut Vec<char>,
    cfg: &Config,
    buf: &Vec<char>,
    state: &mut State,
    pr: Probe,
) -> (r: Result<(), FormatError>)
    requires
        node is IfThenElseIf || node is IfThenBElseIf || node is IfThenElseIfElse || node
            is IfThenBElseIfElse || node is IfThenElseIfElseB || node is IfThenBElseIfElseB,
    ensures
        r.is_ok() ==> *final(state) == *old(state),
        match spec_leaf_text(*node) {
            Some(txt) => r.is_ok() ==> final(f)@ == old(f)@ + txt,
            None => true,
        },
        match spec_flat_atom(*node, *cfg) {
            Some(txt) => r.is_ok() && cfg.remove_comments == Some(true)
                && cfg.remove_newlines == Some(true) ==> final(f)@ == old(f)@ + txt,
            None => true,
        },
        r.is_ok() && flat_cfg(*cfg) && pr == spec_probe_none() ==> final(f)@ == old(f)@
            + flat_text(*node, *cfg),
    decreases *node, probe_rank(*cfg, pr), 1nat,
{
    match node {
        Node::IfThenElseIf(_, locs, e1, n) => {
            if if_probe_enabled(cfg, pr) {
                let pr2 = mask_if(pr);
                proof {
                    assert(probe_rank(*cfg, pr2) < probe_rank(*cfg, pr));
                }
                match test_oneline_if(node, e1, locs[0], locs[1], f, cfg, buf, state, pr2) {
                    Some(tf) => {
                        *f = tf;
                        return Ok(());
                    }
                    None => {}
                }
            }
            let nl = matches!(nf_if(cfg, pr), Some(1));
            push_str(f, "if");
            hint(f, cfg, buf, state, locs[0], " ");
            write_node(e1, f, cfg, buf, state, pr)?;
            hint(f, cfg, buf, state, locs[1], " ");
            push_str(f, "then");
            cond_newline(f, cfg, buf, state, nl, locs[2], " ");
            write_node(n, f, cfg, buf, state, pr)?;
            cond_newline(f, cfg, buf, state, nl, locs[3], " ");
            push_str(f, "end");
            Ok(())
        }
        Node::IfThenBElseIf(_, locs, e1, b1, n) => {
            let ind_fmt = indent_format_on(&cfg.if_indent_format);
            if if_probe_enabled(cfg, pr) {
                let pr2 = mask_if(pr);
                proof {
                    assert(probe_rank(*cfg, pr2) < probe_rank(*cfg, pr));
                }
                match test_oneline_if(node, e1, locs[0], locs[1], f, cfg, buf, state, pr2) {
                    Some(tf) => {
                        *f = tf;
                        return Ok(());
                    }
                    None => {}
                }
            }
            let nl = matches!(nf_if(cfg, pr), Some(1));
            push_str(f, "if");
            hint(f, cfg, buf, state, locs[0], " ");
            write_node(e1, f, cfg, buf, state, pr)?;
            hint(f, cfg, buf, state, locs[1], " ");
            push_str(f, "then");
            inc_indent_if(state, ind_fmt)?;
            cond_newline(f, cfg, buf, state, nl, locs[2], " ");
            write_node(b1, f, cfg, buf, state, pr)?;
            dec_indent_if(state, ind_fmt);
            cond_newline(f, cfg, buf, state, nl, locs[3], " ");
            write_node(n, f, cfg, buf, state, pr)?;
            cond_newline(f, cfg, buf, state, nl, locs[4], " ");
            push_str(f, "end");
            Ok(())
        }
        Node::IfThenElseIfElse(_, locs, e1, n) => {
            if if_probe_enabled(cfg, pr) {
                let pr2 = mask_if(pr);
                proof {
                    assert(probe_rank(*cfg, pr2) < probe_rank(*cfg, pr));
                }
                match test_oneline_if(node, e1, locs[0], locs[1], f, cfg, buf, state, pr2) {
                    Some(tf) => {
                        *f = tf;
                        return Ok(());
                    }
                    None => {}
                }
            }
            let nl = matches!(nf_if(cfg, pr), Some(1));
            push_str(f, "if");
            hint(f, cfg, buf, state, locs[0], " ");
            write_node(e1, f, cfg, buf, state, pr)?;
            hint(f, cfg, buf, state, locs[1], " ");
            push_str(f, "then");
            cond_newline(f, cfg, buf, state, nl, locs[2], " ");
            write_node(n, f, cfg, buf, state, pr)?;
            cond_newline(f, cfg, buf, state, nl, locs[3], " ");
            push_str(f, "else");
            cond_newline(f, cfg, buf, state, nl, locs[4], " ");
            push_str(f, "end");
            Ok(())
        }
        Node::IfThenBElseIfElse(_, locs, e1, b1, n) => {
            let ind_fmt = indent_format_on(&cfg.if_indent_format);
            if if_probe_enabled(cfg, pr) {
                let pr2 = mask_if(pr);
                proof {
                    assert(probe_rank(*cfg, pr2) < probe_rank(*cfg, pr));
                }
                match test_oneline_if(node, e1, locs[0], locs[1], f, cfg, buf, state, pr2) {
                    Some(tf) => {
                        *f = tf;
                        return Ok(());
                    }
                    None => {}
                }
            }
            let nl = matches!(nf_if(cfg, pr), Some(1));
            push_str(f, "if");
            hint(f, cfg, buf, state, locs[0], " ");
            write_node(e1, f, cfg, buf, state, pr)?;
            hint(f, cfg, buf, state, locs[1], " ");
            push_str(f, "then");
            inc_indent_if(state, ind_fmt)?;
            cond_newline(f, cfg, buf, state, nl, locs[2], " ");
            write_node(b1, f, cfg, buf, state, pr)?;
            dec_indent_if(state, ind_fmt);
            cond_newline(f, cfg, buf, state, nl, locs[3], " ");
            write_node(n, f, cfg, buf, state, pr)?;
            cond_newline(f, cfg, buf, state, nl, locs[4], " ");
            push_str(f, "else");
            cond_newline(f, cfg, buf, state, nl, locs[5], " ");
            push_str(f, "end");
            Ok(())
        }
        Node::IfThenElseIfElseB(_, locs, e1, n, b2) => {
            let ind_fmt = indent_format_on(&cfg.if_indent_format);
            if if_probe_enabled(cfg, pr) {
                let pr2 = mask_if(pr);
                proof {
                    assert(probe_rank(*cfg, pr2) < probe_rank(*cfg, pr));
                }
                match test_oneline_if(node, e1, locs[0], locs[1], f, cfg, buf, state, pr2) {
                    Some(tf) => {
                        *f = tf;
                        return Ok(());
                    }
                    None => {}
                }
            }
            let nl = matches!(nf_if(cfg, pr), Some(1));
            push_str(f, "if");
            hint(f, cfg, buf, state, locs[0], " ");
            write_node(e1, f, cfg, buf, state, pr)?;
            hint(f, cfg, buf, state, locs[1], " ");
            push_str(f, "then");
            cond_newline(f, cfg, buf, state, nl, locs[2], " ");
            write_node(n, f, cfg, buf, state, pr)?;
            cond_newline(f, cfg, buf, state, nl, locs[3], " ");
            push_str(f, "else");
            inc_indent_if(state, ind_fmt)?;
            cond_newline(f, cfg, buf, state, nl, locs[4], " ");
            write_node(b2, f, cfg, buf, state, pr)?;
            dec_indent_if(state, ind_fmt);
            cond_newline(f, cfg, buf, state, nl, locs[5], " ");
            push_str(f, "end");
            Ok(())
        }
        Node::IfThenBElseIfElseB(_, locs, e1, b1, n, b2) => {
            let ind_fmt = indent_format_on(&cfg.if_indent_format);
            if if_probe_enabled(cfg, pr) {
                let pr2 = mask_if(pr);
                proof {
                    assert(probe_rank(*cfg, pr2) < probe_rank(*cfg, pr));
                }
                match test_oneline_if(node, e1, locs[0], locs[1], f, cfg, buf, state, pr2) {
                    Some(tf) => {
                        *f = tf;
                        return Ok(());
                    }
                    None => {}
                }
            }
            let nl = matches!(nf_if(cfg, pr), Some(1));
            push_str(f, "if");
            hint(f, cfg, buf, state, locs[0], " ");
            write_node(e1, f, cfg, buf, state, pr)?;
            hint(f, cfg, buf, state, locs[1], " ");
            push_str(f, "then");
            inc_indent_if(state, ind_fmt)?;
            cond_newline(f, cfg, buf, state, nl, locs[2], " ");
            write_node(b1, f, cfg, buf, state, pr)?;
            dec_indent_if(state, ind_fmt);
            cond_newline(f, cfg, buf, state, nl, locs[3], " ");
            write_node(n, f, cfg, buf, state, pr)?;
            cond_newline(f, cfg, buf, state, nl, locs[4], " ");
            push_str(f, "else");
            inc_indent_if(state, ind_fmt)?;
            cond_newline(f, cfg, buf, state, nl, locs[5], " ");
            write_node(b2, f, cfg, buf, state, pr)?;
            dec_indent_if(state, ind_fmt);
            cond_newline(f, cfg, buf, state, nl, locs[6], " ");
            push_str(f, "end");
            Ok(())
        }
        _ => {
            proof {
                assert(false);
            }
            Ok(())
        }
    }
}

/// Renders one node. On success the indentation and nesting counters come
/// back exactly as they were: every increment this rule performs is paired
/// with a decrement on the same path.
#[verifier::rlimit(100)]
#[verifier::spinoff_prover]
pub(crate) fn write_node(
    node: &Node,
    f: &mut Vec<char>,
    cfg: &Config,
    buf: &Vec<char>,
    state: &mut State,
    pr: Probe,
) -> (r: Result<(), FormatError>)
    ensures
        r.is_ok() ==> *final(state) == *old(state),
        r.is_ok() && (node is Chunk || node is SheBangChunk) && cfg.write_newline_at_eof == Some(
            true,
        ) ==> ends_in_fresh_line(final(f)@, *cfg, *old(state)),
        match spec_leaf_text(*node) {
            Some(txt) => r.is_ok() ==> final(f)@ == old(f)@ + txt,
            None => true,
        },
        match spec_flat_atom(*node, *cfg) {
            Some(txt) => r.is_ok() && cfg.remove_comments == Some(true)
                && cfg.remove_newlines == Some(true) ==> final(f)@ == old(f)@ + txt,
            None => true,
        },
        r.is_ok() && flat_cfg(*cfg) && pr == spec_probe_none() ==> final(f)@ == old(f)@
            + flat_text(*node, *cfg),
    decreases *node, probe_rank(*cfg, pr), 2nat,
{
    match node {
        Node::BinaryOp(_, locs, tok, lhs, rhs) => {
            inc_indent(state)?;
            write_node(lhs, f, cfg, buf, state, pr)?;
            let mut nl1 = matches!(cfg.newline_format_binary_op, Some(1));
            let mut nl2 = matches!(cfg.newline_format_binary_op, Some(2));
            if (nl1 || nl2) && matches!(cfg.enable_oneline_binary_op, Some(true)) {
                if probe_binop_tail(rhs, tok, locs[0], locs[1], f, cfg, buf, state, pr) {
                    nl1 = false;
                    nl2 = false;
                }
            }
            cond_newline(f, cfg, buf, state, nl1, locs[0], " ");
            push_chars(f, &tok.0);
            cond_newline(f, cfg, buf, state, nl2, locs[1], " ");
            write_node(rhs, f, cfg, buf, state, pr)?;
            dec_indent(state);
            Ok(())
        }
        Node::UnaryOp(_, locs, tok, rhs) => {
            push_chars(f, &tok.0);
            hint(f, cfg, buf, state, locs[0], "");
            write_node(rhs, f, cfg, buf, state, pr)
        }
        Node::UnaryNot(_, locs, rhs) => {
            push_str(f, "not");
            hint(f, cfg, buf, state, locs[0], " ");
            write_node(rhs, f, cfg, buf, state, pr)
        }
        Node::Var(_, locs, n1, n2) => {
            write_node(n1, f, cfg, buf, state, pr)?;
            let ind = test_indent(n2, locs[0], "", f, cfg, buf, state, pr);
            if ind {
                inc_indent(state)?;
            }
            hint(f, cfg, buf, state, locs[0], "");
            write_node(n2, f, cfg, buf, state, pr)?;
            if ind {
                dec_indent(state);
            }
            Ok(())
        }
        Node::RoundBrackets(_, locs, inner) => {
            push_str(f, "(");
            hint(f, cfg, buf, state, locs[0], "");
            write_node(inner, f, cfg, buf, state, pr)?;
            hint(f, cfg, buf, state, locs[1], "");
            push_str(f, ")");
            Ok(())
        }
        Node::ArgsRoundBrackets(_, locs, inner) => {
            push_str(f, "(");
            let ind = test_indent(inner, locs[0], "", f, cfg, buf, state, pr);
            if ind {
                inc_indent(state)?;
            }
            hint(f, cfg, buf, state, locs[0], "");
            write_node(inner, f, cfg, buf, state, pr)?;
            if ind {
                dec_indent(state);
            }
            hint(f, cfg, buf, state, locs[1], "");
            push_str(f, ")");
            Ok(())
        }
        Node::ArgsRoundBracketsEmpty(_, locs) => {
            push_str(f, "(");
            hint(f, cfg, buf, state, locs[0], "");
            push_str(f, ")");
            Ok(())
        }
        Node::Nil(_) => {
            push_str(f, "nil");
            Ok(())
        }
        Node::False(_) => {
            push_str(f, "false");
            Ok(())
        }
        Node::True(_) => {
            push_str(f, "true");
            Ok(())
        }
        Node::VarArg(_) => {
            push_str(f, "...");
            Ok(())
        }
        Node::Break(_) => {
            push_str(f, "break");
            Ok(())
        }
        Node::Numeral(_, s) => {
            push_chars(f, s);
            Ok(())
        }
        Node::NormalStringLiteral(_, s) => {
            push_str(f, "\"");
            push_chars(f, s);
            push_str(f, "\"");
            Ok(())
        }
        Node::CharStringLiteral(_, s) => {
            push_str(f, "'");
            push_chars(f, s);
            push_str(f, "'");
            Ok(())
        }
        Node::MultiLineStringLiteral(_, level, s) => {
            push_str(f, "[");
            push_equals(f, *level);
            push_str(f, "[");
            push_chars(f, s);
            push_str(f, "]");
            push_equals(f, *level);
            push_str(f, "]");
            Ok(())
        }
        Node::TableConstructor(_, locs, fields, opts) => {
            let ind_ol = matches!(opts.is_first_child, Some(true));
            if ind_ol {
                inc_indent(state)?;
            }
            if cfg.max_width.is_some() && nf_tc(cfg, pr).is_some() && matches!(
                cfg.enable_oneline_table_constructor,
                Some(true),
            ) {
                let pr2 = Probe {
                    no_tc: true,
                    no_tf: true,
                    no_if: pr.no_if,
                    no_fn: pr.no_fn,
                    no_trailing_sep: true,
                };
                proof {
                    assert(probe_rank(*cfg, pr2) < probe_rank(*cfg, pr));
                }
                match test_oneline_tc(node, f, cfg, buf, state, pr2) {
                    Some(tf) => {
                        *f = tf;
                        if ind_ol {
                            dec_indent(state);
                        }
                        return Ok(());
                    }
                    None => {}
                }
                match test_oneline_tc_after_nl(node, f, cfg, buf, state, pr2) {
                    Some(tf) => {
                        *f = tf;
                        if ind_ol {
                            dec_indent(state);
                        }
                        return Ok(());
                    }
                    None => {}
                }
            }
            if ind_ol {
                dec_indent(state);
            }
            let empty_hint: Vec<char> = Vec::new();
            let ind = !(matches!(cfg.enable_oneline_iv_table, Some(true)) && matches!(
                opts.is_all_sequential,
                Some(true),
            ) && !matches!(opts.is_single_child, Some(false)));
            if ind {
                inc_indent(state)?;
            }
            push_str(f, "{");
            inc_func_level(state)?;
            match &cfg.hint_table_constructor {
                Some(h) => {
                    hint_chars(f, cfg, buf, state, locs[0], h);
                }
                None => {
                    hint_chars(f, cfg, buf, state, locs[0], &empty_hint);
                }
            }
            write_node(fields, f, cfg, buf, state, pr)?;
            let mut nl = matches!(nf_tc(cfg, pr), Some(1));
            match cfg.max_width {
                Some(w) => {
                    if width_after_newline(f) >= w {
                        nl = true;
                    }
                }
                None => {}
            }
            nl = nl && ind;
            if ind {
                dec_indent(state);
            }
            dec_func_level(state);
            match &cfg.hint_table_constructor {
                Some(h) => {
                    cond_newline_chars(f, cfg, buf, state, nl, locs[1], h);
                }
                None => {
                    cond_newline_chars(f, cfg, buf, state, nl, locs[1], &empty_hint);
                }
            }
            push_str(f, "}");
            Ok(())
        }
        Node::TableConstructorEmpty(_, locs) => {
            let empty_hint: Vec<char> = Vec::new();
            push_str(f, "{");
            match &cfg.hint_table_constructor {
                Some(h) => {
                    hint_chars(f, cfg, buf, state, locs[0], h);
                }
                None => {
                    hint_chars(f, cfg, buf, state, locs[0], &empty_hint);
                }
            }
            push_str(f, "}");
            Ok(())
        }
        Node::Fields(..) => {
            write_sep_list(node, f, cfg, buf, state, pr)?;
            Ok(())
        }
        Node::FieldNamedBracket(_, locs, e1, e2) => {
            push_str(f, "[");
            hint(f, cfg, buf, state, locs[0], "");
            write_node(e1, f, cfg, buf, state, pr)?;
            hint(f, cfg, buf, state, locs[1], "");
            push_str(f, "]");
            hint(f, cfg, buf, state, locs[2], " ");
            push_str(f, "=");
            hint(f, cfg, buf, state, locs[3], " ");
            write_node(e2, f, cfg, buf, state, pr)
        }
        Node::FieldNamed(_, locs, e1, e2) => {
            write_node(e1, f, cfg, buf, state, pr)?;
            hint(f, cfg, buf, state, locs[0], " ");
            push_str(f, "=");
            hint(f, cfg, buf, state, locs[1], " ");
            write_node(e2, f, cfg, buf, state, pr)
        }
        Node::FieldSequential(_, e) => write_node(e, f, cfg, buf, state, pr),
        Node::TableIndex(_, locs, e) => {
            push_str(f, "[");
            hint(f, cfg, buf, state, locs[0], "");
            write_node(e, f, cfg, buf, state, pr)?;
            hint(f, cfg, buf, state, locs[1], "");
            push_str(f, "]");
            Ok(())
        }
        Node::TableMember(_, locs, n) => {
            push_str(f, ".");
            hint(f, cfg, buf, state, locs[0], "");
            write_node(n, f, cfg, buf, state, pr)
        }
        Node::ExpList(..) => {
            write_sep_list(node, f, cfg, buf, state, pr)?;
            Ok(())
        }
        Node::NameList(..) => {
            write_sep_list(node, f, cfg, buf, state, pr)?;
            Ok(())
        }
        Node::ParList(..) => {
            write_sep_list(node, f, cfg, buf, state, pr)?;
            Ok(())
        }
        Node::VarList(..) => {
            write_sep_list(node, f, cfg, buf, state, pr)?;
            Ok(())
        }
        Node::VarRoundSuffix(_, locs, n1, n2) => {
            push_str(f, "(");
            hint(f, cfg, buf, state, locs[0], "");
            write_node(n1, f, cfg, buf, state, pr)?;
            hint(f, cfg, buf, state, locs[1], "");
            push_str(f, ")");
            let ind = test_indent(n2, locs[0], "", f, cfg, buf, state, pr);
            if ind {
                inc_indent(state)?;
            }
            hint(f, cfg, buf, state, locs[2], "");
            write_node(n2, f, cfg, buf, state, pr)?;
            if ind {
                dec_indent(state);
            }
            Ok(())
        }
        Node::VarSuffixList(..) => {
            write_list(node, f, cfg, buf, state, pr)?;
            Ok(())
        }
        Node::FnMethodCall(_, locs, n1, n2) => {
            push_str(f, ":");
            hint(f, cfg, buf, state, locs[0], "");
            write_node(n1, f, cfg, buf, state, pr)?;
            hint(f, cfg, buf, state, locs[1], "");
            write_node(n2, f, cfg, buf, state, pr)
        }
        Node::FunctionDef(_, locs, n) => {
            push_str(f, "function");
            hint(f, cfg, buf, state, locs[0], "");
            write_node(n, f, cfg, buf, state, pr)
        }
        Node::FuncBody(..)
        | Node::FuncBodyB(..)
        | Node::FuncPBody(..)
        | Node::FuncPBodyB(..) => write_funcbody_node(node, f, cfg, buf, state, pr),
        Node::FuncName(..) => {
            write_sep_list(node, f, cfg, buf, state, pr)?;
            Ok(())
        }
        Node::FuncNameSelf(_, locs, _, n) => {
            write_sep_list(node, f, cfg, buf, state, pr)?;
            hint(f, cfg, buf, state, locs[0], "");
            push_str(f, ":");
            hint(f, cfg, buf, state, locs[1], "");
            write_node(n, f, cfg, buf, state, pr)
        }
        Node::FuncDecl(_, locs, n1, n2) => {
            push_str(f, "function");
            hint(f, cfg, buf, state, locs[0], " ");
            write_node(n1, f, cfg, buf, state, pr)?;
            hint(f, cfg, buf, state, locs[1], "");
            write_node(n2, f, cfg, buf, state, pr)
        }
        Node::LocalFuncDecl(_, locs, n1, n2) => {
            push_str(f, "local");
            hint(f, cfg, buf, state, locs[0], " ");
            push_str(f, "function");
            hint(f, cfg, buf, state, locs[1], " ");
            write_node(n1, f, cfg, buf, state, pr)?;
            hint(f, cfg, buf, state, locs[2], "");
            write_node(n2, f, cfg, buf, state, pr)
        }
        Node::StatementList(..) => {
            write_list(node, f, cfg, buf, state, pr)?;
            Ok(())
        }
        Node::DoEnd(..)
        | Node::DoBEnd(..)
        | Node::VarsExprs(..)
        | Node::Name(..)
        | Node::Label(..)
        | Node::GoTo(..)
        | Node::LocalNames(..)
        | Node::LocalNamesExprs(..) => write_stat_node(node, f, cfg, buf, state, pr),
        Node::WhileDo(..)
        | Node::WhileDoB(..)
        | Node::RepeatUntil(..)
        | Node::RepeatBUntil(..) => write_loop_node(node, f, cfg, buf, state, pr),
        Node::ForInt(..)
        | Node::ForIntB(..)
        | Node::ForIntStep(..)
        | Node::ForIntStepB(..)
        | Node::ForRange(..)
        | Node::ForRangeB(..) => write_for_node(node, f, cfg, buf, state, pr),
        Node::IfThen(..)
        | Node::IfThenB(..)
        | Node::IfThenElse(..)
        | Node::IfThenBElse(..)
        | Node::IfThenElseB(..)
        | Node::IfThenBElseB(..) => write_if_node(node, f, cfg, buf, state, pr),
        Node::IfThenElseIf(..)
        | Node::IfThenBElseIf(..)
        | Node::IfThenElseIfElse(..)
        | Node::IfThenBElseIfElse(..)
        | Node::IfThenElseIfElseB(..)
        | Node::IfThenBElseIfElseB(..) => write_elseif_node(node, f, cfg, buf, state, pr),
        Node::ElseIfThenVec(..) => {
            write_list(node, f, cfg, buf, state, pr)?;
            Ok(())
        }
        Node::ElseIfThen(_, locs, e) => {
            push_str(f, "elseif");
            hint(f, cfg, buf, state, locs[0], " ");
            write_node(e, f, cfg, buf, state, pr)?;
            hint(f, cfg, buf, state, locs[1], " ");
            push_str(f, "then");
            Ok(())
        }
        Node::ElseIfThenB(_, locs, e, b) => {
            let ind_fmt = indent_format_on(&cfg.if_indent_format);
            let nl = matches!(nf_if(cfg, pr), Some(1));
            push_str(f, "elseif");
            hint(f, cfg, buf, state, locs[0], " ");
            write_node(e, f, cfg, buf, state, pr)?;
            hint(f, cfg, buf, state, locs[1], " ");
            push_str(f, "then");
            inc_indent_if(state, ind_fmt)?;
            cond_newline(f, cfg, buf, state, nl, locs[2], " ");
            write_node(b, f, cfg, buf, state, pr)?;
            dec_indent_if(state, ind_fmt);
            Ok(())
        }
        Node::RetStatNone(_) => {
            push_str(f, "return");
            Ok(())
        }
        Node::RetStatExpr(_, locs, n) => {
            push_str(f, "return");
            let ind = test_indent(n, locs[0], " ", f, cfg, buf, state, pr);
            if ind {
                inc_indent(state)?;
            }
            hint(f, cfg, buf, state, locs[0], " ");
            write_node(n, f, cfg, buf, state, pr)?;
            if ind {
                dec_indent(state);
            }
            Ok(())
        }
        Node::RetStatNoneComma(_, locs) => {
            push_str(f, "return");
            hint(f, cfg, buf, state, locs[0], "");
            push_str(f, ";");
            Ok(())
        }
        Node::RetStatExprComma(_, locs, n) => {
            push_str(f, "return");
            let ind = test_indent(n, locs[0], " ", f, cfg, buf, state, pr);
            if ind {
                inc_indent(state)?;
            }
            hint(f, cfg, buf, state, locs[0], " ");
            write_node(n, f, cfg, buf, state, pr)?;
            hint(f, cfg, buf, state, locs[1], "");
            if ind {
                dec_indent(state);
            }
            push_str(f, ";");
            Ok(())
        }
        Node::StatsRetStat(_, locs, n1, n2) => {
            let nl = cfg.newline_format_statement.is_some();
            write_node(n1, f, cfg, buf, state, pr)?;
            cond_newline(f, cfg, buf, state, nl, locs[0], " ");
            write_node(n2, f, cfg, buf, state, pr)
        }
        Node::Chunk(locl, n, locr) => {
            hint(f, cfg, buf, state, *locl, "");
            write_node(n, f, cfg, buf, state, pr)?;
            let nl = matches!(cfg.write_newline_at_eof, Some(true));
            cond_newline(f, cfg, buf, state, nl, *locr, "");
            Ok(())
        }
        Node::SheBangChunk(locl, n, locm, b, locr) => {
            hint(f, cfg, buf, state, *locl, "");
            write_node(n, f, cfg, buf, state, pr)?;
            hint(f, cfg, buf, state, *locm, "");
            write_node(b, f, cfg, buf, state, pr)?;
            let nl = matches!(cfg.write_newline_at_eof, Some(true));
            cond_newline(f, cfg, buf, state, nl, *locr, "");
            Ok(())
        }
        Node::Semicolon(_) => {
            push_str(f, ";");
            Ok(())
        }
        Node::SheBang(_, s) => {
            push_chars(f, s);
            push_str(f, "\n");
            Ok(())
        }
    }
}

/// Whether the one-line probe for an if-chain is armed.
fn if_probe_enabled(cfg: &Config, pr: Probe) -> (r: bool)
    ensures
        r ==> spec_nf_if(*cfg, pr) is Some,
{
    cfg.max_width.is_some() && matches!(cfg.enable_oneline_if, Some(true)) && nf_if(
        cfg,
        pr,
    ).is_some()
}

/// Masks the if line-break option for a probe.
fn mask_if(pr: Probe) -> (r: Probe)
    ensures
        r == (Probe {
            no_tc: pr.no_tc,
            no_tf: pr.no_tf,
            no_if: true,
            no_fn: pr.no_fn,
            no_trailing_sep: pr.no_trailing_sep,
        }),
{
    Probe {
        no_tc: pr.no_tc,
        no_tf: pr.no_tf,
        no_if: true,
        no_fn: pr.no_fn,
        no_trailing_sep: pr.no_trailing_sep,
    }
}

/// Whether the one-line probe for a function body is armed: at the top
/// level and in nested scopes it is enabled separately.
fn fn_probe_enabled(cfg: &Config, state: &State, pr: Probe) -> (r: bool)
    ensures
        r ==> spec_nf_fn(*cfg, pr) is Some,
{
    cfg.max_width.is_some() && nf_fn(cfg, pr).is_some() && ((state.function_nested_level == 0
        && matches!(cfg.enable_oneline_top_level_function, Some(true))) || (
    state.function_nested_level > 0 && matches!(cfg.enable_oneline_scoped_function, Some(true))))
}

/// The separator one list element gets: the configured field separator,
/// the separator text the source used, or the list's default.
pub open spec fn spec_separator(
    cfg: Config,
    is_fields: bool,
    recorded: Seq<char>,
    sep_default: Seq<char>,
) -> Seq<char> {
    if is_fields {
        match cfg.field_separator {
            Some(fs) => fs@,
            None => if recorded.len() > 0 {
                recorded
            } else {
                sep_default
            },
        }
    } else {
        sep_default
    }
}

/// Writes one list separator, exactly as `spec_separator` picks it.
fn write_separator(
    f: &mut Vec<char>,
    cfg: &Config,
    is_fields: bool,
    recorded: &Vec<char>,
    sep_default: &str,
)
    ensures
        final(f)@ == old(f)@ + spec_separator(*cfg, is_fields, recorded@, sep_default@),
{
    if is_fields {
        match &cfg.field_separator {
            Some(fs) => {
                push_chars(f, fs);
            }
            None => {
                if recorded.len() > 0 {
                    push_chars(f, recorded);
                } else {
                    push_str(f, sep_default);
                }
            }
        }
    } else {
        push_str(f, sep_default);
    }
}

impl Node {
    /// Renders this node against the configuration, echoing comments from
    /// the source buffer the spans point into. On success the printer state
    /// is exactly what it was: indentation and function nesting balance out
    /// over every rule.
    pub fn configured_write(
        &self,
        f: &mut Vec<char>,
        cfg: &Config,
        buf: &Vec<char>,
        state: &mut State,
    ) -> (r: Result<(), FormatError>)
        ensures
            r.is_ok() ==> *final(state) == *old(state),
            r.is_ok() && (self is Chunk || self is SheBangChunk) && cfg.write_newline_at_eof
                == Some(true) ==> ends_in_fresh_line(final(f)@, *cfg, *old(state)),
            match spec_leaf_text(*self) {
                Some(txt) => r.is_ok() ==> final(f)@ == old(f)@ + txt,
                None => true,
            },
            r.is_ok() && flat_cfg(*cfg) ==> final(f)@ == old(f)@ + flat_text(*self, *cfg),
    {
        write_node(self, f, cfg, buf, state, Probe::none())
    }
}

} // verus!
