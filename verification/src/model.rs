//! The mathematical model of patch segmentation.
//!
//! A patch stream is a sequence of lines, each a sequence of characters.
//! Segmentation is a two-state automaton: before the first boundary marker,
//! lines are discarded; from the first marker on, lines accumulate in a
//! buffer that is cut at each further marker.  At end of stream the final
//! buffer loses the two trailer lines and becomes the last section.  The
//! functions here state that automaton; the executable splitter is proved
//! against them.

use vstd::prelude::*;

use crate::SplitError;

verus! {

/// A whitespace character: the Unicode White_Space set, which is also what
/// the token-extraction pattern of the executable scanner treats as a
/// token separator.
pub open spec fn is_wspace(c: char) -> bool {
    ||| c == '\u{0009}'
    ||| c == '\u{000A}'
    ||| c == '\u{000B}'
    ||| c == '\u{000C}'
    ||| c == '\u{000D}'
    ||| c == ' '
    ||| c == '\u{0085}'
    ||| c == '\u{00A0}'
    ||| c == '\u{1680}'
    ||| c == '\u{2000}'
    ||| c == '\u{2001}'
    ||| c == '\u{2002}'
    ||| c == '\u{2003}'
    ||| c == '\u{2004}'
    ||| c == '\u{2005}'
    ||| c == '\u{2006}'
    ||| c == '\u{2007}'
    ||| c == '\u{2008}'
    ||| c == '\u{2009}'
    ||| c == '\u{200A}'
    ||| c == '\u{2028}'
    ||| c == '\u{2029}'
    ||| c == '\u{202F}'
    ||| c == '\u{205F}'
    ||| c == '\u{3000}'
}

/// A boundary marker opens a section: the line begins with `diff `.
pub open spec fn is_marker_line(s: Seq<char>) -> bool {
    s.len() >= 5 && s.subrange(0, 5) == seq!['d', 'i', 'f', 'f', ' ']
}

/// Length of the run of whitespace at the end of a line.
pub open spec fn tail_wspace_len(s: Seq<char>) -> nat
    decreases s.len(),
{
    if s.len() == 0 {
        0
    } else if is_wspace(s.last()) {
        1 + tail_wspace_len(s.drop_last())
    } else {
        0
    }
}

/// Length of the run of non-whitespace characters at the end of a line.
pub open spec fn tail_token_len(s: Seq<char>) -> nat
    decreases s.len(),
{
    if s.len() == 0 {
        0
    } else if is_wspace(s.last()) {
        0
    } else {
        1 + tail_token_len(s.drop_last())
    }
}

/// The line with its trailing whitespace (line terminator included) removed.
pub open spec fn stripped(s: Seq<char>) -> Seq<char> {
    s.take(s.len() - tail_wspace_len(s))
}

/// The last whitespace-delimited token of a line, or nothing where the line
/// holds no non-whitespace character.
pub open spec fn last_token(s: Seq<char>) -> Option<Seq<char>> {
    let core = stripped(s);
    if tail_token_len(core) == 0 {
        Option::None
    } else {
        Option::Some(core.subrange(core.len() - tail_token_len(core), core.len() as int))
    }
}

/// The target name a marker line carries: its last token with the first two
/// characters (a diff-tool path prefix such as `b/`) dropped.  Nothing where
/// no token can be extracted or the token is too short to carry a name.
pub open spec fn target_of(s: Seq<char>) -> Option<Seq<char>> {
    match last_token(s) {
        Option::None => Option::None,
        Option::Some(t) => if t.len() >= 2 {
            Option::Some(t.subrange(2, t.len() as int))
        } else {
            Option::None
        },
    }
}

/// The artifact name of a target: every path separator becomes an
/// underscore, so the name is filesystem-flat.
pub open spec fn flat_name(s: Seq<char>) -> Seq<char> {
    s.map_values(|c: char| if c == '/' { '_' } else { c })
}

/// One section of the patch: the target it belongs to and its lines.
#[verifier::ext_equal]
pub ghost struct SectionModel {
    pub target: Seq<char>,
    pub lines: Seq<Seq<char>>,
}

/// The segmenter's state between two lines: whether the first marker has
/// been seen, the target and buffered lines of the section being read, and
/// the sections already cut.
#[verifier::ext_equal]
pub ghost struct SplitState {
    pub started: bool,
    pub target: Seq<char>,
    pub buf: Seq<Seq<char>>,
    pub done: Seq<SectionModel>,
}

/// The state before any line: no marker seen, everything empty.
pub open spec fn init_state() -> SplitState {
    SplitState { started: false, target: Seq::empty(), buf: Seq::empty(), done: Seq::empty() }
}

/// One transition of the automaton.  A marker cuts the buffered section
/// (which must hold more than its own marker line) and opens a new one named
/// by the marker's target; any other line is buffered once the first marker
/// has been seen and discarded before it.
pub open spec fn step(st: SplitState, line: Seq<char>) -> Result<SplitState, SplitError> {
    if is_marker_line(line) {
        if st.started && st.buf.len() <= 1 {
            Result::Err(SplitError::MalformedPatch)
        } else {
            match target_of(line) {
                Option::None => Result::Err(SplitError::MalformedPatch),
                Option::Some(t) => Result::Ok(
                    SplitState {
                        started: true,
                        target: t,
                        buf: seq![line],
                        done: if st.started {
                            st.done.push(SectionModel { target: st.target, lines: st.buf })
                        } else {
                            st.done
                        },
                    },
                ),
            }
        }
    } else if st.started {
        Result::Ok(
            SplitState { started: true, target: st.target, buf: st.buf.push(line), done: st.done },
        )
    } else {
        Result::Ok(st)
    }
}

/// The state after the first `n` lines of the stream, or the error on which
/// the automaton stopped.
pub open spec fn run_steps(ls: Seq<Seq<char>>, n: int) -> Result<SplitState, SplitError>
    decreases n,
{
    if n <= 0 {
        Result::Ok(init_state())
    } else {
        match run_steps(ls, n - 1) {
            Result::Ok(st) => step(st, ls[n - 1]),
            Result::Err(e) => Result::Err(e),
        }
    }
}

/// End of stream: the final buffer must reach past the two-line trailer;
/// the trailer is dropped and the remainder becomes the last section.
pub open spec fn finish_state(st: SplitState) -> Result<Seq<SectionModel>, SplitError> {
    if !st.started || st.buf.len() <= 2 {
        Result::Err(SplitError::MalformedPatch)
    } else {
        Result::Ok(
            st.done.push(
                SectionModel { target: st.target, lines: st.buf.subrange(0, st.buf.len() - 2) },
            ),
        )
    }
}

/// What splitting a whole stream yields: its sections in order, or the
/// error that makes it malformed.
pub open spec fn split_spec(ls: Seq<Seq<char>>) -> Result<Seq<SectionModel>, SplitError> {
    match run_steps(ls, ls.len() as int) {
        Result::Ok(st) => finish_state(st),
        Result::Err(e) => Result::Err(e),
    }
}

/// Number of boundary markers in the stream.
pub open spec fn marker_count(ls: Seq<Seq<char>>) -> nat
    decreases ls.len(),
{
    if ls.len() == 0 {
        0
    } else {
        marker_count(ls.drop_last()) + (if is_marker_line(ls.last()) {
            1nat
        } else {
            0nat
        })
    }
}

/// Number of lines before the first boundary marker (all of them, where the
/// stream holds none).
pub open spec fn preamble_len(ls: Seq<Seq<char>>) -> nat
    decreases ls.len(),
{
    if ls.len() == 0 {
        0
    } else {
        let p = preamble_len(ls.drop_last());
        if p < ls.len() - 1 || is_marker_line(ls.last()) {
            p
        } else {
            ls.len()
        }
    }
}

/// All lines of a run of sections, in order.
pub open spec fn concat_lines(secs: Seq<SectionModel>) -> Seq<Seq<char>>
    decreases secs.len(),
{
    if secs.len() == 0 {
        Seq::empty()
    } else {
        concat_lines(secs.drop_last()) + secs.last().lines
    }
}

} // verus!
