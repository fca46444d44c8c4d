//! Small text helpers shared by the lexer, the comment renderer and the
//! printer: appending to character buffers, measuring the current line, and
//! trimming trailing blanks.

use vstd::prelude::*;

use crate::config::{Config, State};

verus! {

/// `s` repeated `n` times, back to back.
pub open spec fn repeat_chars(s: Seq<char>, n: nat) -> Seq<char>
    decreases n,
{
    if n == 0 {
        Seq::empty()
    } else {
        repeat_chars(s, (n - 1) as nat) + s
    }
}

/// Index of the last `'\n'` in `s`, or `0` when there is none.
pub open spec fn spec_last_newline(s: Seq<char>) -> int
    decreases s.len(),
{
    if s.len() == 0 {
        0
    } else if s[s.len() - 1] == '\n' {
        s.len() - 1
    } else {
        spec_last_newline(s.drop_last())
    }
}

/// Visual width of the last line of `s`: the distance from the last newline
/// (or from the start, when there is none) to the end.
pub open spec fn spec_width_after_newline(s: Seq<char>) -> int {
    s.len() - spec_last_newline(s)
}

pub open spec fn spec_has_newline(s: Seq<char>) -> bool {
    exists|i: int| 0 <= i < s.len() && s[i] == '\n'
}

/// How many newline characters `s` holds.
pub open spec fn spec_newline_count(s: Seq<char>) -> int
    decreases s.len(),
{
    if s.len() == 0 {
        0
    } else {
        spec_newline_count(s.drop_last()) + if s[s.len() - 1] == '\n' {
            1int
        } else {
            0int
        }
    }
}

/// Length of `s` once trailing spaces and tabs are dropped.
pub open spec fn spec_trimmed_len(s: Seq<char>) -> nat
    decreases s.len(),
{
    if s.len() == 0 {
        0
    } else if s[s.len() - 1] == ' ' || s[s.len() - 1] == '\t' {
        spec_trimmed_len(s.drop_last())
    } else {
        s.len()
    }
}

/// Appends every character of the string slice `s` to `out`.
pub fn push_str(out: &mut Vec<char>, s: &str)
    ensures
        final(out)@ == old(out)@ + s@,
{
    let n = s.unicode_len();
    let mut i: usize = 0;
    while i < n
        invariant
            n == s@.len(),
            i <= n,
            out@ == old(out)@ + s@.subrange(0, i as int),
        decreases n - i,
    {
        let c = s.get_char(i);
        out.push(c);
        i = i + 1;
        proof {
            assert(out@ =~= old(out)@ + s@.subrange(0, i as int));
        }
    }
    proof {
        assert(out@ =~= old(out)@ + s@);
    }
}

/// Appends every character of `s` to `out`.
pub fn push_chars(out: &mut Vec<char>, s: &Vec<char>)
    ensures
        final(out)@ == old(out)@ + s@,
{
    let mut i: usize = 0;
    while i < s.len()
        invariant
            i <= s@.len(),
            out@ == old(out)@ + s@.subrange(0, i as int),
        decreases s@.len() - i,
    {
        out.push(s[i]);
        i = i + 1;
        proof {
            assert(out@ =~= old(out)@ + s@.subrange(0, i as int));
        }
    }
    proof {
        assert(out@ =~= old(out)@ + s@);
    }
}

/// Appends `buf[from..to]` to `out`.
pub fn push_range(out: &mut Vec<char>, buf: &Vec<char>, from: usize, to: usize)
    requires
        from <= to <= buf@.len(),
    ensures
        final(out)@ == old(out)@ + buf@.subrange(from as int, to as int),
{
    let mut i: usize = from;
    while i < to
        invariant
            from <= i <= to <= buf@.len(),
            out@ == old(out)@ + buf@.subrange(from as int, i as int),
        decreases to - i,
    {
        out.push(buf[i]);
        i = i + 1;
        proof {
            assert(out@ =~= old(out)@ + buf@.subrange(from as int, i as int));
        }
    }
    proof {
        assert(out@ =~= old(out)@ + buf@.subrange(from as int, to as int));
    }
}

/// A fresh copy of `s`.
pub fn clone_chars(s: &Vec<char>) -> (r: Vec<char>)
    ensures
        r@ == s@,
{
    let mut out: Vec<char> = Vec::new();
    push_chars(&mut out, s);
    proof {
        assert(out@ =~= s@);
    }
    out
}

/// The characters of `s`, one by one.
pub fn to_chars(s: &str) -> (r: Vec<char>)
    ensures
        r@ == s@,
{
    let mut out: Vec<char> = Vec::new();
    push_str(&mut out, s);
    proof {
        assert(out@ =~= s@);
    }
    out
}

/// Whether `v` and the string slice `s` hold the same characters.
pub fn chars_eq_str(v: &Vec<char>, s: &str) -> (r: bool)
    ensures
        r == (v@ == s@),
{
    let n = s.unicode_len();
    if v.len() != n {
        proof {
            assert(v@ != s@);
        }
        return false;
    }
    let mut i: usize = 0;
    while i < n
        invariant
            n == s@.len(),
            v@.len() == n,
            i <= n,
            forall|k: int| 0 <= k < i ==> v@[k] == s@[k],
        decreases n - i,
    {
        if v[i] != s.get_char(i) {
            proof {
                assert(v@ != s@);
            }
            return false;
        }
        i = i + 1;
    }
    proof {
        assert(v@ =~= s@);
    }
    true
}

/// Whether `s` contains a newline character.
pub fn contains_newline(s: &Vec<char>) -> (r: bool)
    ensures
        r == spec_has_newline(s@),
{
    let mut i: usize = 0;
    while i < s.len()
        invariant
            i <= s@.len(),
            forall|k: int| 0 <= k < i ==> s@[k] != '\n',
        decreases s@.len() - i,
    {
        if s[i] == '\n' {
            proof {
                assert(spec_has_newline(s@));
            }
            return true;
        }
        i = i + 1;
    }
    false
}

/// Width of the last line of `s`, as `spec_width_after_newline` counts it.
pub fn width_after_newline(s: &Vec<char>) -> (r: usize)
    ensures
        r as int == spec_width_after_newline(s@),
{
    let n = s.len();
    proof {
        assert(s@.subrange(0, n as int) =~= s@);
    }
    let mut j: usize = n;
    while j > 0
        invariant
            j <= n,
            n == s@.len(),
            spec_last_newline(s@) == spec_last_newline(s@.subrange(0, j as int)),
        decreases j,
    {
        if s[j - 1] == '\n' {
            proof {
                assert(s@.subrange(0, j as int).len() == j);
                assert(s@.subrange(0, j as int)[j - 1] == '\n');
            }
            return n - (j - 1);
        }
        proof {
            let sub = s@.subrange(0, j as int);
            assert(sub[j - 1] != '\n');
            assert(sub.drop_last() =~= s@.subrange(0, j - 1 as int));
        }
        j = j - 1;
    }
    proof {
        assert(s@.subrange(0, 0) =~= Seq::<char>::empty());
        assert(spec_last_newline(s@) == 0);
    }
    n
}

/// Removes trailing spaces and tabs from the end of `f`.
pub fn trim_end_in_place(f: &mut Vec<char>)
    ensures
        final(f)@ == old(f)@.subrange(0, spec_trimmed_len(old(f)@) as int),
{
    let mut keep = true;
    while keep && f.len() > 0
        invariant
            f@.len() <= old(f)@.len(),
            f@ == old(f)@.subrange(0, f@.len() as int),
            keep ==> spec_trimmed_len(old(f)@) == spec_trimmed_len(f@),
            !keep ==> f@ == old(f)@.subrange(0, spec_trimmed_len(old(f)@) as int),
        decreases f@.len() + (if keep { 1int } else { 0int }),
    {
        let last = f[f.len() - 1];
        if last == ' ' || last == '\t' {
            f.pop();
            proof {
                assert(f@ =~= old(f)@.subrange(0, f@.len() as int));
            }
        } else {
            keep = false;
            proof {
                assert(spec_trimmed_len(f@) == f@.len());
                assert(f@ =~= old(f)@.subrange(0, spec_trimmed_len(old(f)@) as int));
            }
        }
    }
    proof {
        if keep {
            assert(f@.len() == 0);
            assert(spec_trimmed_len(f@) == 0);
            assert(f@ =~= old(f)@.subrange(0, spec_trimmed_len(old(f)@) as int));
        }
    }
}

/// The longer of the two hints; `hint1` wins a tie.
pub fn longest_hint<'a>(hint1: &'a str, hint2: &'a str) -> (r: &'a str)
    ensures
        r@ == if hint1@.len() < hint2@.len() {
            hint2@
        } else {
            hint1@
        },
{
    if hint1.unicode_len() < hint2.unicode_len() {
        hint2
    } else {
        hint1
    }
}

/// The trimmed length never exceeds the length.
pub proof fn lemma_trimmed_len_le(s: Seq<char>)
    ensures
        spec_trimmed_len(s) <= s.len(),
    decreases s.len(),
{
    if s.len() > 0 && (s[s.len() - 1] == ' ' || s[s.len() - 1] == '\t') {
        lemma_trimmed_len_le(s.drop_last());
    }
}

/// `string` with its trailing spaces and tabs removed.
pub fn trim_end_spaces_and_tabs<'a>(string: &'a String) -> (r: &'a str)
    ensures
        r@ == string@.subrange(0, spec_trimmed_len(string@) as int),
{
    let s = string.as_str();
    let n = s.unicode_len();
    proof {
        lemma_trimmed_len_le(s@);
        assert(s@.subrange(0, n as int) =~= s@);
    }
    let mut k: usize = n;
    while k > 0
        invariant
            k <= n,
            n == s@.len(),
            s@ == string@,
            spec_trimmed_len(s@) == spec_trimmed_len(s@.subrange(0, k as int)),
        decreases k,
    {
        let c = s.get_char(k - 1);
        if c == ' ' || c == '\t' {
            proof {
                let sub = s@.subrange(0, k as int);
                assert(sub[k - 1] == ' ' || sub[k - 1] == '\t');
                assert(sub.drop_last() =~= s@.subrange(0, k - 1 as int));
            }
            k = k - 1;
        } else {
            proof {
                let sub = s@.subrange(0, k as int);
                assert(sub[k - 1] != ' ' && sub[k - 1] != '\t');
                assert(spec_trimmed_len(sub) == k);
            }
            return s.substring_char(0, k);
        }
    }
    proof {
        assert(s@.subrange(0, 0) =~= Seq::<char>::empty());
        assert(spec_trimmed_len(s@) == 0);
    }
    s.substring_char(0, 0)
}

/// Distance from the last newline of `s` to its end; the length of `s` when
/// it holds no newline.
pub fn get_positon_after_newline(s: &str, _cfg: &Config) -> (r: usize)
    ensures
        r as int == spec_width_after_newline(s@),
{
    let v = to_chars(s);
    width_after_newline(&v)
}

/// The indentation owed at `state`: the configured indentation string
/// repeated once per open level, nothing when the level is negative or no
/// indentation string is configured.
pub open spec fn spec_indent(cfg: Config, state: State) -> Seq<char> {
    match cfg.indentation_string {
        Some(s) => repeat_chars(
            s@,
            if state.indent_level < 0 {
                0nat
            } else {
                state.indent_level as nat
            },
        ),
        None => Seq::empty(),
    }
}

/// Writes the indentation owed at `state` to the end of `f`.
pub fn write_indent(f: &mut Vec<char>, cfg: &Config, state: &State)
    ensures
        final(f)@ == old(f)@ + spec_indent(*cfg, *state),
{
    match &cfg.indentation_string {
        Some(ind) => {
            let n: usize = if state.indent_level < 0 {
                0
            } else {
                state.indent_level as usize
            };
            let mut k: usize = 0;
            while k < n
                invariant
                    k <= n,
                    f@ == old(f)@ + repeat_chars(ind@, k as nat),
                    cfg.indentation_string == Some(*ind),
                decreases n - k,
            {
                push_chars(f, ind);
                k = k + 1;
            }
            proof {
                assert(n as nat == if state.indent_level < 0 {
                    0nat
                } else {
                    state.indent_level as nat
                });
            }
        }
        None => {
            proof {
                assert(f@ =~= old(f)@ + spec_indent(*cfg, *state));
            }
        }
    }
}

} // verus!
