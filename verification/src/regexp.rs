//! The state of one regular-expression object.
//!
//! The engine stores the pattern source, the flags and the match cursor;
//! running the pattern against text is the host's work, and the engine
//! consumes the match result it hands back (see the regular-expression
//! builtins).

use vstd::prelude::*;

verus! {

/// The mutable state of one regular expression.
#[derive(Debug)]
pub struct RegExpData {
    /// The pattern source text.
    pub source: String,
    /// Whether `.` also matches line terminators.
    pub dotall: bool,
    /// Whether whitespace in the pattern is ignored.
    pub extended: bool,
    /// Whether matching resumes from the last match cursor.
    pub global: bool,
    /// Whether matching ignores letter case.
    pub ignore_case: bool,
    /// Whether `^` and `$` match at line breaks.
    pub multiline: bool,
    /// The cursor from which a global match resumes.
    pub last_index: usize,
}

impl Clone for RegExpData {
    /// An exact copy: the copy equals the original.
    fn clone(&self) -> (r: RegExpData)
        ensures
            r == *self,
    {
        RegExpData {
            source: self.source.clone(),
            dotall: self.dotall,
            extended: self.extended,
            global: self.global,
            ignore_case: self.ignore_case,
            multiline: self.multiline,
            last_index: self.last_index,
        }
    }
}

impl RegExpData {
    /// A fresh expression with an empty source and every flag clear.
    pub fn new() -> (r: RegExpData)
        ensures
            r.source@ == Seq::<char>::empty(),
            r.dotall == false,
            r.extended == false,
            r.global == false,
            r.ignore_case == false,
            r.multiline == false,
            r.last_index == 0,
    {
        RegExpData {
            source: String::new(),
            dotall: false,
            extended: false,
            global: false,
            ignore_case: false,
            multiline: false,
            last_index: 0,
        }
    }

    /// Sets every flag named in the given flag string: `s`, `x`, `g`, `i`
    /// and `m` in any order and any number; other characters are ignored.
    pub fn apply_flags(&mut self, flags: &Vec<char>)
        ensures
            final(self).source == old(self).source,
            final(self).last_index == old(self).last_index,
            final(self).dotall == (old(self).dotall || flags@.contains('s')),
            final(self).extended == (old(self).extended || flags@.contains('x')),
            final(self).global == (old(self).global || flags@.contains('g')),
            final(self).ignore_case == (old(self).ignore_case || flags@.contains('i')),
            final(self).multiline == (old(self).multiline || flags@.contains('m')),
    {
        let mut i: usize = 0;
        while i < flags.len()
            invariant
                i <= flags@.len(),
                self.source == old(self).source,
                self.last_index == old(self).last_index,
                self.dotall == (old(self).dotall || flags@.subrange(0, i as int).contains('s')),
                self.extended == (old(self).extended || flags@.subrange(0, i as int).contains(
                    'x',
                )),
                self.global == (old(self).global || flags@.subrange(0, i as int).contains('g')),
                self.ignore_case == (old(self).ignore_case || flags@.subrange(
                    0,
                    i as int,
                ).contains('i')),
                self.multiline == (old(self).multiline || flags@.subrange(0, i as int).contains(
                    'm',
                )),
            decreases flags@.len() - i,
        {
            let c = flags[i];
            proof {
                let pre = flags@.subrange(0, i as int);
                let post = flags@.subrange(0, i + 1);
                assert(post =~= pre.push(flags@[i as int]));
                assert forall|x: char| #[trigger]
                    post.contains(x) <==> (pre.contains(x) || flags@[i as int] == x) by {
                    if post.contains(x) {
                        let k = choose|k: int| 0 <= k < post.len() && post[k] == x;
                        if k < pre.len() {
                            assert(pre[k] == x);
                        }
                    }
                    if pre.contains(x) {
                        let k = choose|k: int| 0 <= k < pre.len() && pre[k] == x;
                        assert(post[k] == x);
                    }
                    if flags@[i as int] == x {
                        assert(post[post.len() - 1] == x);
                    }
                }
            }
            match c {
                's' => {
                    self.dotall = true;
                },
                'x' => {
                    self.extended = true;
                },
                'g' => {
                    self.global = true;
                },
                'i' => {
                    self.ignore_case = true;
                },
                'm' => {
                    self.multiline = true;
                },
                _ => {},
            }
            i += 1;
        }
        proof {
            assert(flags@.subrange(0, flags@.len() as int) =~= flags@);
        }
    }
}

/// One match of a pattern against text, as the host reports it back: where
/// the whole match starts, and the matched text of the whole pattern and
/// each capture group, in group order (`None` for a group that did not
/// participate).
#[derive(Debug)]
pub struct RegExpMatch {
    pub start: usize,
    pub groups: Vec<Option<String>>,
}

} // verus!
