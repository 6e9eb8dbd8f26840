//! The `[i/N]` marker in front of each progress line.

use crate::text::{decimal_digits, from_chars, push_decimal, push_str};
use vstd::prelude::*;

verus! {

/// The marker of step `current` of `total`: `[current/total]`.
pub open spec fn marker_text(current: nat, total: nat) -> Seq<char> {
    seq!['['] + decimal_digits(current) + seq!['/'] + decimal_digits(total) + seq![']']
}

/// A progress line: the marker, a space, and what was done.
pub open spec fn progress_line(current: nat, total: nat, detail: Seq<char>) -> Seq<char> {
    marker_text(current, total) + seq![' '] + detail
}

/// Marks which step of how many a progress line reports.
pub struct ProgressMarker {
    display: Vec<char>,
}

impl View for ProgressMarker {
    type V = Seq<char>;

    closed spec fn view(&self) -> Seq<char> {
        self.display@
    }
}

impl ProgressMarker {
    pub fn new(current: usize, total: usize) -> (marker: Self)
        ensures
            marker@ == marker_text(current as nat, total as nat),
    {
        let mut display: Vec<char> = Vec::new();
        display.push('[');
        push_decimal(&mut display, current as u128);
        display.push('/');
        push_decimal(&mut display, total as u128);
        display.push(']');
        proof {
            assert(display@ =~= marker_text(current as nat, total as nat));
        }
        ProgressMarker { display }
    }

    /// The progress line for `detail`.
    pub fn annotate(&self, detail: &str) -> (line: String)
        ensures
            line@ == self@ + seq![' '] + detail@,
    {
        let mut line: Vec<char> = Vec::new();
        let mut i: usize = 0;
        while i < self.display.len()
            invariant
                i <= self.display.len(),
                line@ == self.display@.take(i as int),
            decreases self.display.len() - i,
        {
            line.push(self.display[i]);
            proof {
                assert(self.display@.take(i + 1) =~= self.display@.take(i as int).push(
                    self.display@[i as int],
                ));
            }
            i += 1;
        }
        proof {
            assert(self.display@.take(self.display.len() as int) =~= self.display@);
        }
        line.push(' ');
        push_str(&mut line, detail);
        from_chars(&line)
    }
}

} // verus!
