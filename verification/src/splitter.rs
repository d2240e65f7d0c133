//! The stream segmenter: a two-state automaton over the lines of a combined
//! patch.
//!
//! Feed the lines to a [`Splitter`] in order; each time a boundary marker
//! shows that the previous section is complete, that section is handed back,
//! so a caller can write it out before the next line is read.  At end of
//! stream, [`Splitter::finish`] drops the two-line trailer and yields the
//! last section.  [`split_patch`] runs the whole pass over a vector of
//! lines at once.

use vstd::prelude::*;

use crate::SplitError;
use crate::boundary::{line_is_marker, target_name};
use crate::laws::lemma_run_steps_err_stays;
use crate::model::{
    SectionModel, SplitState, finish_state, init_state, is_marker_line, run_steps, split_spec,
    step,
};

verus! {

/// One section of the patch: the lines belonging to one target, the marker
/// line first, in stream order.
#[derive(Debug, PartialEq, Eq)]
pub struct Section {
    pub target: String,
    pub lines: Vec<String>,
}

impl View for Section {
    type V = SectionModel;

    open spec fn view(&self) -> SectionModel {
        SectionModel { target: self.target@, lines: self.lines.deep_view() }
    }
}

impl DeepView for Section {
    type V = SectionModel;

    open spec fn deep_view(&self) -> SectionModel {
        self.view()
    }
}

/// The segmenter.  Before the first marker it discards lines; from the first
/// marker on it buffers them, cutting the buffer at each further marker.
pub struct Splitter {
    started: bool,
    target: String,
    buf: Vec<String>,
    done: Ghost<Seq<SectionModel>>,
}

impl View for Splitter {
    type V = SplitState;

    closed spec fn view(&self) -> SplitState {
        SplitState {
            started: self.started,
            target: self.target@,
            buf: self.buf.deep_view(),
            done: self.done@,
        }
    }
}

impl Splitter {
    /// A segmenter that has seen no line yet.
    pub fn new() -> (r: Splitter)
        ensures
            r@ == init_state(),
    {
        let r = Splitter {
            started: false,
            target: String::new(),
            buf: Vec::new(),
            done: Ghost(Seq::empty()),
        };
        proof {
            assert(r@ =~= init_state());
        }
        r
    }

    /// Consume one line of the stream.  A completed section comes back the
    /// moment the next boundary marker is seen; the error says the input is
    /// malformed, and leaves the segmenter as it was.
    pub fn feed(&mut self, line: String) -> (r: Result<Option<Section>, SplitError>)
        ensures
            match step(old(self)@, line@) {
                Result::Ok(st) => {
                    &&& final(self)@ == st
                    &&& r is Ok
                    &&& (r->Ok_0 is Some <==> old(self)@.started && is_marker_line(line@))
                    &&& r->Ok_0 matches Option::Some(sec) ==> sec@ == (SectionModel {
                        target: old(self)@.target,
                        lines: old(self)@.buf,
                    })
                },
                Result::Err(e) => {
                    &&& r == Result::<Option<Section>, SplitError>::Err(e)
                    &&& final(self)@ == old(self)@
                },
            },
    {
        if line_is_marker(line.as_str()) {
            if self.started && self.buf.len() <= 1 {
                return Result::Err(SplitError::MalformedPatch);
            }
            let t = match target_name(line.as_str()) {
                Result::Ok(t) => t,
                Result::Err(e) => {
                    return Result::Err(e);
                },
            };
            if self.started {
                let mut prev_target = t;
                core::mem::swap(&mut self.target, &mut prev_target);
                let mut prev_buf: Vec<String> = Vec::new();
                core::mem::swap(&mut self.buf, &mut prev_buf);
                self.buf.push(line);
                let sec = Section { target: prev_target, lines: prev_buf };
                self.done = Ghost(self.done@.push(sec@));
                proof {
                    assert(self.buf.deep_view() =~= seq![line@]);
                    assert(sec@ =~= (SectionModel {
                        target: old(self)@.target,
                        lines: old(self)@.buf,
                    }));
                    assert(self@ =~= step(old(self)@, line@)->Ok_0);
                }
                Result::Ok(Option::Some(sec))
            } else {
                self.started = true;
                self.target = t;
                self.buf = Vec::new();
                self.buf.push(line);
                proof {
                    assert(self.buf.deep_view() =~= seq![line@]);
                    assert(self@ =~= step(old(self)@, line@)->Ok_0);
                }
                Result::Ok(Option::None)
            }
        } else if self.started {
            self.buf.push(line);
            proof {
                assert(self.buf.deep_view() =~= old(self)@.buf.push(line@));
                assert(self@ =~= step(old(self)@, line@)->Ok_0);
            }
            Result::Ok(Option::None)
        } else {
            proof {
                assert(self@ =~= step(old(self)@, line@)->Ok_0);
            }
            Result::Ok(Option::None)
        }
    }

    /// End of stream.  The final buffer must reach past the fixed two-line
    /// trailer; the trailer is dropped and the rest is the last section.
    pub fn finish(self) -> (r: Result<Section, SplitError>)
        ensures
            match finish_state(self@) {
                Result::Ok(secs) => r matches Result::Ok(sec) && sec@ == secs.last(),
                Result::Err(e) => r == Result::<Section, SplitError>::Err(e),
            },
    {
        let ghost st = self@;
        if !self.started {
            return Result::Err(SplitError::MalformedPatch);
        }
        if self.buf.len() <= 2 {
            return Result::Err(SplitError::MalformedPatch);
        }
        let mut lines = self.buf;
        lines.pop();
        lines.pop();
        proof {
            assert(lines.deep_view() =~= st.buf.subrange(0, st.buf.len() - 2));
        }
        let sec = Section { target: self.target, lines };
        proof {
            assert(sec@ =~= finish_state(st)->Ok_0.last());
        }
        Result::Ok(sec)
    }
}

/// Split a whole patch stream, given as its lines in order, into its
/// sections, or report the error that makes it malformed.
pub fn split_patch(lines: &Vec<String>) -> (r: Result<Vec<Section>, SplitError>)
    ensures
        match split_spec(lines.deep_view()) {
            Result::Ok(m) => r matches Result::Ok(secs) && secs.deep_view() == m,
            Result::Err(e) => r == Result::<Vec<Section>, SplitError>::Err(e),
        },
{
    let ghost ls = lines.deep_view();
    let mut sp = Splitter::new();
    let mut out: Vec<Section> = Vec::new();
    let n = lines.len();
    let mut i: usize = 0;
    while i < n
        invariant
            n == lines@.len(),
            ls == lines.deep_view(),
            i <= n,
            run_steps(ls, i as int) == Result::<SplitState, SplitError>::Ok(sp@),
            out.deep_view() == sp@.done,
        decreases n - i,
    {
        let line = lines[i].clone();
        proof {
            assert(line@ == ls[i as int]);
        }
        match sp.feed(line) {
            Result::Ok(opt) => {
                match opt {
                    Option::Some(sec) => {
                        out.push(sec);
                        proof {
                            assert(out.deep_view() =~= sp@.done);
                        }
                    },
                    Option::None => {},
                }
            },
            Result::Err(e) => {
                proof {
                    lemma_run_steps_err_stays(ls, i + 1, ls.len() as int);
                }
                return Result::Err(e);
            },
        }
        i = i + 1;
    }
    match sp.finish() {
        Result::Ok(sec) => {
            proof {
                assert(ls.len() as int == n as int);
            }
            out.push(sec);
            proof {
                assert(out.deep_view() =~= split_spec(ls)->Ok_0);
            }
            Result::Ok(out)
        },
        Result::Err(e) => Result::Err(e),
    }
}

} // verus!
