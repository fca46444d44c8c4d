//! The comment sub-pass: scans the text of an inter-token span for comments
//! and re-renders them, keeping or dropping the layout around them as the
//! configuration asks.

use vstd::prelude::*;

use crate::config::{Config, State};
use crate::util::{push_range, push_str, write_indent};

verus! {

/// One thing found inside a span: a line break, a `--` comment running to
/// the end of its line, or a long-bracket comment of some level. Comment
/// payload boundaries are absolute offsets into the source buffer.
pub(crate) enum CommentItem {
    Newline,
    OneLine { from: usize, to: usize },
    Multi { level: usize, from: usize, to: usize },
}

pub(crate) open spec fn item_in_range(it: CommentItem, r: int) -> bool {
    match it {
        CommentItem::Newline => true,
        CommentItem::OneLine { from, to } => from <= to <= r,
        CommentItem::Multi { level, from, to } => from <= to <= r,
    }
}

/// Offset of the `]` opening the first level-`level` closer in
/// `buf[from..to]`, if any.
#[verifier::loop_isolation(false)]
fn find_long_close(buf: &Vec<char>, level: usize, from: usize, to: usize) -> (r: Option<usize>)
    requires
        from <= to <= buf@.len(),
    ensures
        match r {
            Some(j) => from <= j && j + level + 1 < to && buf@[j as int] == ']' && buf@[j + level
                + 1] == ']',
            None => true,
        },
{
    let mut i: usize = from;
    while i < to
        invariant
            from <= i,
            to <= buf@.len(),
        decreases to - i,
    {
        if buf[i] == ']' {
            let mut k: usize = 0;
            while i + 1 + k < to && buf[i + 1 + k] == '='
                invariant
                    i + 1 + k <= to,
                decreases to - (i + 1 + k),
            {
                k = k + 1;
            }
            if k == level && i + 1 + k < to && buf[i + 1 + k] == ']' {
                return Some(i);
            }
        }
        i = i + 1;
    }
    None
}

/// Scans `buf[l..r]` into newline and comment items; whitespace other than
/// newlines is dropped.
#[verifier::loop_isolation(false)]
pub(crate) fn scan_comments(buf: &Vec<char>, l: usize, r: usize) -> (items: Vec<CommentItem>)
    requires
        l <= r <= buf@.len(),
    ensures
        forall|i: int| 0 <= i < items@.len() ==> item_in_range(#[trigger] items@[i], r as int),
{
    let mut items: Vec<CommentItem> = Vec::new();
    let mut i: usize = l;
    while i < r
        invariant
            l <= i,
            r <= buf@.len(),
            forall|k: int| 0 <= k < items@.len() ==> item_in_range(#[trigger] items@[k], r as int),
        decreases r - i,
    {
        let c = buf[i];
        if c == '\n' {
            items.push(CommentItem::Newline);
            i = i + 1;
        } else if c == '-' && i + 1 < r && buf[i + 1] == '-' {
            let j = i + 2;
            let mut is_long = false;
            let mut level: usize = 0;
            if j < r && buf[j] == '[' {
                let mut k: usize = 0;
                while j + 1 + k < r && buf[j + 1 + k] == '='
                    invariant
                        j + 1 + k <= r,
                    decreases r - (j + 1 + k),
                {
                    k = k + 1;
                }
                if j + 1 + k < r && buf[j + 1 + k] == '[' {
                    is_long = true;
                    level = k;
                }
            }
            if is_long {
                let body = j + 2 + level;
                if body > r {
                    // the opener ran to the end of the span
                    items.push(CommentItem::Multi { level, from: r, to: r });
                    i = r;
                } else {
                    match find_long_close(buf, level, body, r) {
                        Some(m) => {
                            items.push(CommentItem::Multi { level, from: body, to: m });
                            i = m + level + 2;
                        }
                        None => {
                            items.push(CommentItem::Multi { level, from: body, to: r });
                            i = r;
                        }
                    }
                }
            } else {
                let mut e: usize = j;
                while e < r && buf[e] != '\n'
                    invariant
                        j <= e <= r,
                    decreases r - e,
                {
                    e = e + 1;
                }
                items.push(CommentItem::OneLine { from: j, to: e });
                i = e;
            }
        } else {
            i = i + 1;
        }
    }
    items
}

/// Appends `k` equals signs to `out`.
#[verifier::loop_isolation(false)]
pub(crate) fn push_equals(out: &mut Vec<char>, k: usize)
    ensures
        final(out)@ == old(out)@ + crate::util::repeat_chars(seq!['='], k as nat),
{
    let mut i: usize = 0;
    while i < k
        invariant
            i <= k,
            out@ == old(out)@ + crate::util::repeat_chars(seq!['='], i as nat),
        decreases k - i,
    {
        out.push('=');
        proof {
            assert(out@ =~= old(out)@ + crate::util::repeat_chars(seq!['='], (i + 1) as nat));
        }
        i = i + 1;
    }
}

/// Renders the comments (and, when `keep_newlines` is set, the line breaks)
/// of `buf[l..r]` into a fresh block. Comments keep their text; a line
/// comment is always closed off by a line break before anything else may
/// follow it.
#[verifier::loop_isolation(false)]
pub(crate) fn render_comment_block(
    buf: &Vec<char>,
    cfg: &Config,
    state: &State,
    l: usize,
    r: usize,
    keep_newlines: bool,
) -> (block: Vec<char>)
    requires
        l <= r <= buf@.len(),
    ensures
        cfg.remove_comments == Some(true) && (cfg.remove_newlines == Some(true)
            || !keep_newlines) ==> block@.len() == 0,
{
    let items = scan_comments(buf, l, r);
    let mut block: Vec<char> = Vec::new();
    let remove_comments = matches!(cfg.remove_comments, Some(true));
    let remove_newlines = matches!(cfg.remove_newlines, Some(true));
    let mut pending_nl = false;
    let mut idx: usize = 0;
    while idx < items.len()
        invariant
            r <= buf@.len(),
            forall|k: int| 0 <= k < items@.len() ==> item_in_range(#[trigger] items@[k], r as int),
            remove_comments && (remove_newlines || !keep_newlines) ==> block@.len() == 0
                && !pending_nl,
        decreases items@.len() - idx,
    {
        match items[idx] {
            CommentItem::Newline => {
                if pending_nl || (keep_newlines && !remove_newlines) {
                    block.push('\n');
                    write_indent(&mut block, cfg, state);
                    pending_nl = false;
                }
            }
            CommentItem::OneLine { from, to } => {
                if !remove_comments {
                    if pending_nl {
                        block.push('\n');
                        write_indent(&mut block, cfg, state);
                    } else if block.len() > 0 {
                        let last = block[block.len() - 1];
                        if last != '\n' && last != ' ' && last != '\t' {
                            block.push(' ');
                        }
                    }
                    push_str(&mut block, "--");
                    match &cfg.hint_before_oneline_comment_text {
                        Some(h) => {
                            crate::util::push_chars(&mut block, h);
                        }
                        None => {}
                    }
                    push_range(&mut block, buf, from, to);
                    pending_nl = true;
                }
            }
            CommentItem::Multi { level, from, to } => {
                if !remove_comments {
                    if pending_nl {
                        block.push('\n');
                        write_indent(&mut block, cfg, state);
                        pending_nl = false;
                    } else if block.len() > 0 {
                        let last = block[block.len() - 1];
                        if last != '\n' && last != ' ' && last != '\t' {
                            block.push(' ');
                        }
                    }
                    push_str(&mut block, "--[");
                    push_equals(&mut block, level);
                    block.push('[');
                    match &cfg.hint_before_multiline_comment_text {
                        Some(h) => {
                            crate::util::push_chars(&mut block, h);
                        }
                        None => {}
                    }
                    push_range(&mut block, buf, from, to);
                    match &cfg.hint_after_multiline_comment_text {
                        Some(h) => {
                            crate::util::push_chars(&mut block, h);
                        }
                        None => {}
                    }
                    block.push(']');
                    push_equals(&mut block, level);
                    block.push(']');
                }
            }
        }
        idx = idx + 1;
    }
    if pending_nl && keep_newlines {
        // a line comment that the source did not close: end its line
        block.push('\n');
        write_indent(&mut block, cfg, state);
    }
    block
}

} // verus!
