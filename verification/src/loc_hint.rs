//! Location-hint writers. A hint stands between two emitted tokens and
//! expands either to the comments the original source kept there or to a
//! configured placeholder.

use vstd::prelude::*;

use crate::comment::render_comment_block;
use crate::config::{Config, State};
use crate::lua_ast::Loc;
use crate::util::{push_chars, push_range};

verus! {

/// `new` extends `old` without rewriting what was already there.
pub open spec fn appends(old: Seq<char>, new: Seq<char>) -> bool {
    new.len() >= old.len() && new.subrange(0, old.len() as int) == old
}

/// What writing a rendered comment block appends: the placeholder when the
/// block is empty; otherwise the block, padded in front when it opens with
/// `-` and behind when it closes with `]`. The padding is the configured
/// hint; with no hint set, a comment sitting right against the code gets a
/// single space only when `replace_zero_spaces_with_hint` asks for one, and
/// nothing otherwise.
pub open spec fn spec_formatted_block(
    cfg: Config,
    block: Seq<char>,
    placeholder: Seq<char>,
) -> Seq<char> {
    if block.len() == 0 {
        placeholder
    } else {
        (if block[0] == '-' {
            match cfg.hint_before_comment {
                Some(h) => h@,
                None => if cfg.replace_zero_spaces_with_hint == Some(true) {
                    seq![' ']
                } else {
                    Seq::empty()
                },
            }
        } else {
            Seq::empty()
        }) + block + (if block[block.len() - 1] == ']' {
            match cfg.hint_after_multiline_comment {
                Some(h) => h@,
                None => if cfg.replace_zero_spaces_with_hint == Some(true) {
                    seq![' ']
                } else {
                    Seq::empty()
                },
            }
        } else {
            Seq::empty()
        })
    }
}

/// Writes the comment block of the span `l..r`, or `placeholder` when the
/// block comes out empty.
pub(crate) fn write_comment_hint_chars(
    f: &mut Vec<char>,
    cfg: &Config,
    buf: &Vec<char>,
    state: &State,
    l: usize,
    r: usize,
    placeholder: &Vec<char>,
)
    requires
        l <= r <= buf@.len(),
    ensures
        appends(old(f)@, final(f)@),
        cfg.remove_comments == Some(true) && cfg.remove_newlines == Some(true) ==> final(f)@
            == old(f)@ + placeholder@,
{
    let block = render_comment_block(buf, cfg, state, l, r, true);
    let hint = CommentLocHint(Loc(l, r), crate::util::clone_chars(placeholder));
    hint.write_formatted_comment_block(f, cfg, &block);
}

/// As `write_comment_hint_chars`, with the placeholder given as a literal.
pub(crate) fn write_comment_hint(
    f: &mut Vec<char>,
    cfg: &Config,
    buf: &Vec<char>,
    state: &State,
    l: usize,
    r: usize,
    placeholder: &str,
)
    requires
        l <= r <= buf@.len(),
    ensures
        appends(old(f)@, final(f)@),
        cfg.remove_comments == Some(true) && cfg.remove_newlines == Some(true) ==> final(f)@
            == old(f)@ + placeholder@,
{
    let ph = crate::util::to_chars(placeholder);
    write_comment_hint_chars(f, cfg, buf, state, l, r, &ph);
}

/// A hint that renders the comments found in its span, or its placeholder.
pub struct CommentLocHint(pub Loc, pub Vec<char>);

impl CommentLocHint {
    pub fn new(loc: Loc, s: Vec<char>) -> (r: CommentLocHint)
        ensures
            r.0 == loc,
            r.1@ == s@,
    {
        CommentLocHint(loc, s)
    }

    pub fn get_loc(&self) -> (r: Loc)
        ensures
            r == self.0,
    {
        self.0
    }

    /// Writes an already rendered comment block, exactly as
    /// `spec_formatted_block` lays it out: the placeholder when the block
    /// is empty, otherwise the block between the configured paddings.
    pub fn write_formatted_comment_block(
        &self,
        f: &mut Vec<char>,
        cfg: &Config,
        comment_block: &Vec<char>,
    )
        ensures
            final(f)@ == old(f)@ + spec_formatted_block(*cfg, comment_block@, self.1@),
            appends(old(f)@, final(f)@),
    {
        let ghost f0 = f@;
        if comment_block.len() == 0 {
            // a span without comments renders as its placeholder, whatever
            // width it had
            push_chars(f, &self.1);
        } else {
            if comment_block[0] == '-' {
                match &cfg.hint_before_comment {
                    Some(h) => {
                        push_chars(f, h);
                    }
                    None => {
                        if matches!(cfg.replace_zero_spaces_with_hint, Some(true)) {
                            f.push(' ');
                        }
                    }
                }
            }
            push_chars(f, comment_block);
            if comment_block[comment_block.len() - 1] == ']' {
                match &cfg.hint_after_multiline_comment {
                    Some(h) => {
                        push_chars(f, h);
                    }
                    None => {
                        if matches!(cfg.replace_zero_spaces_with_hint, Some(true)) {
                            f.push(' ');
                        }
                    }
                }
            }
        }
        proof {
            assert(f@ =~= f0 + spec_formatted_block(*cfg, comment_block@, self.1@));
            assert(f@.subrange(0, f0.len() as int) =~= f0);
        }
    }

    /// Renders the comments of the span and hands them to
    /// `write_formatted_comment_block`.
    pub fn configured_write(
        &self,
        f: &mut Vec<char>,
        cfg: &Config,
        buf: &Vec<char>,
        state: &State,
    )
        requires
            self.0.0 <= self.0.1 <= buf@.len(),
        ensures
            appends(old(f)@, final(f)@),
            cfg.remove_comments == Some(true) && cfg.remove_newlines == Some(true) ==> final(f)@
                == old(f)@ + self.1@,
    {
        let block = render_comment_block(buf, cfg, state, self.0.0, self.0.1, true);
        self.write_formatted_comment_block(f, cfg, &block);
    }
}

/// A hint that echoes its span verbatim, or its placeholder when the
/// configuration removes spaces between tokens.
pub struct SpaceLocHint(pub Loc, pub Vec<char>);

impl SpaceLocHint {
    pub fn new(loc: Loc, s: Vec<char>) -> (r: SpaceLocHint)
        ensures
            r.0 == loc,
            r.1@ == s@,
    {
        SpaceLocHint(loc, s)
    }

    pub fn get_loc(&self) -> (r: Loc)
        ensures
            r == self.0,
    {
        self.0
    }

    pub fn configured_write(
        &self,
        f: &mut Vec<char>,
        cfg: &Config,
        buf: &Vec<char>,
        _state: &State,
    )
        requires
            self.0.0 <= self.0.1 <= buf@.len(),
        ensures
            final(f)@ == old(f)@ + if cfg.remove_spaces_between_tokens == Some(true) {
                self.1@
            } else {
                buf@.subrange(self.0.0 as int, self.0.1 as int)
            },
    {
        if matches!(cfg.remove_spaces_between_tokens, Some(true)) {
            push_chars(f, &self.1);
        } else {
            push_range(f, buf, self.0.0, self.0.1);
        }
    }
}

} // verus!
