//! A source-preserving formatter for Lua programs.
//!
//! The pipeline is lexer -> parser -> syntax tree -> configurable printer:
//! `lexer` turns the source characters into offset-tagged tokens, `parser`
//! builds one syntax tree whose nodes carry the spans between tokens, and the
//! printer walks that tree against a `Config`, echoing comments from the
//! original source and deciding per construct whether it fits on one line.

pub mod comment;
pub mod config;
pub mod lexer;
pub mod loc_hint;
pub mod lua_ast;
pub mod parser;
pub mod printer;
pub mod util;

use vstd::prelude::*;

use crate::config::{Config, FormatError, State};
use crate::lua_ast::Node;
use crate::parser::ParseError;

verus! {

/// Why a run over one source text stopped: the text did not lex or parse,
/// or the printer hit its internal limit.
pub enum LuaError {
    Parse(ParseError),
    Format(FormatError),
}

/// Formats Lua source text: lexes and parses it, then prints the tree
/// against `cfg`. After the root returns, the printer state is balanced:
/// both its counters stand at zero again. A lexical error comes back only
/// when the input really holds one of the failing shapes `sp_lex_error`
/// describes: an unclosed literal or comment, or a character that opens no
/// token.
pub fn format_chunk(input: &Vec<char>, cfg: &Config) -> (r: Result<Vec<char>, LuaError>)
    ensures
        match r {
            Ok(out) => cfg.write_newline_at_eof == Some(true) ==> out@.len() > 0 && out@[out@.len()
                - 1] == '\n',
            Err(LuaError::Parse(ParseError::Lexical(e))) => exists|p: int|
                0 <= p && #[trigger] crate::lexer::sp_lex_error(input@, p, e),
            Err(_) => true,
        },
{
    let node: Node = match crate::parser::parse_lua(input) {
        Ok(node) => node,
        Err(e) => {
            return Err(LuaError::Parse(e));
        }
    };
    let mut out: Vec<char> = Vec::new();
    let mut state = State::default();
    match node.configured_write(&mut out, cfg, input, &mut state) {
        Ok(()) => {
            // the balanced-indent guarantee, visible at the root
            assert(state.indent_level == 0);
            assert(state.function_nested_level == 0);
            proof {
                if cfg.write_newline_at_eof == Some(true) {
                    let ind = crate::util::spec_indent(*cfg, state);
                    assert(ind.len() == 0);
                    assert(out@.subrange(out@.len() - 1, out@.len() as int) =~= seq!['\n'] + ind);
                    assert((seq!['\n'] + ind)[0] == '\n');
                    assert(out@.subrange(out@.len() - 1, out@.len() as int)[0] == out@[out@.len()
                        - 1]);
                    assert(out@[out@.len() - 1] == '\n');
                }
            }
            Ok(out)
        }
        Err(e) => Err(LuaError::Format(e)),
    }
}

/// Program switches the command line recognizes beside the formatting
/// options: rewriting files in place, and descending into directories.
#[derive(Clone, Copy, PartialEq, Eq, Structural, Debug)]
pub struct ProgramOpts {
    pub inplace: bool,
    pub recursive: bool,
}

impl ProgramOpts {
    /// Both switches off.
    pub fn default() -> (r: ProgramOpts)
        ensures
            r.inplace == false,
            r.recursive == false,
    {
        ProgramOpts { inplace: false, recursive: false }
    }
}

/// As `format_chunk`, from a string slice.
pub fn format_str(input: &str, cfg: &Config) -> (r: Result<Vec<char>, LuaError>)
    ensures
        match r {
            Ok(out) => cfg.write_newline_at_eof == Some(true) ==> out@.len() > 0 && out@[out@.len()
                - 1] == '\n',
            Err(LuaError::Parse(ParseError::Lexical(e))) => exists|p: int|
                0 <= p && #[trigger] crate::lexer::sp_lex_error(input@, p, e),
            Err(_) => true,
        },
{
    let chars = crate::util::to_chars(input);
    format_chunk(&chars, cfg)
}

} // verus!
