//! Typing into a type layer: what each editing step does to the text being
//! edited and to the caret.
//!
//! The text is held as its characters, and the caret as the number of
//! characters before it. Moving up or down a line, or to a line's ends,
//! needs the laid-out text, which only the window has: those keys come back
//! as [`TextOutcome::Layout`].

use vstd::prelude::*;
use crate::input::TextStep;

verus! {

/// The keys that move by the layout.
#[derive(Debug, Clone, Copy, PartialEq, Eq, Structural)]
pub enum LayoutMove {
    Up,
    Down,
    Home,
    End,
}

/// What a key does.
#[derive(Debug, PartialEq, Eq)]
pub enum TextOutcome {
    /// The text changes (and is laid out again); the caret moves here.
    Edit { text: Vec<char>, caret: usize },
    /// Only the caret moves.
    Caret(usize),
    /// The window moves the caret by the laid-out lines.
    Layout(LayoutMove),
    Commit,
    Cancel,
    /// Nothing changes.
    Nothing,
}

/// The outcome, with the text taken as a sequence.
pub enum Outcome {
    Edit(Seq<char>, nat),
    Caret(nat),
    Layout(LayoutMove),
    Commit,
    Cancel,
    Nothing,
}

pub open spec fn outcome_of(o: TextOutcome) -> Outcome {
    match o {
        TextOutcome::Edit { text, caret } => Outcome::Edit(text@, caret as nat),
        TextOutcome::Caret(c) => Outcome::Caret(c as nat),
        TextOutcome::Layout(m) => Outcome::Layout(m),
        TextOutcome::Commit => Outcome::Commit,
        TextOutcome::Cancel => Outcome::Cancel,
        TextOutcome::Nothing => Outcome::Nothing,
    }
}

/// A caret past the end stands at the end.
pub open spec fn clamp_caret(t: Seq<char>, caret: nat) -> nat {
    if caret <= t.len() { caret } else { t.len() }
}

/// `s` put into `t` before the character at `c`.
pub open spec fn splice(t: Seq<char>, c: nat, s: Seq<char>) -> Seq<char> {
    t.take(c as int) + s + t.skip(c as int)
}

/// What `step` does to `t` with the caret at `caret`; `typed` is what an
/// insert puts in.
pub open spec fn spec_text_step(t: Seq<char>, caret: nat, step: TextStep, typed: Seq<char>) -> Outcome {
    let c = clamp_caret(t, caret);
    match step {
        TextStep::Insert => Outcome::Edit(splice(t, c, typed), c + typed.len()),
        TextStep::Newline => Outcome::Edit(splice(t, c, seq!['\n']), c + 1),
        TextStep::Backspace => if c == 0 {
            Outcome::Nothing
        } else {
            Outcome::Edit(t.take(c - 1) + t.skip(c as int), (c - 1) as nat)
        },
        TextStep::Delete => if c >= t.len() {
            Outcome::Nothing
        } else {
            Outcome::Edit(t.take(c as int) + t.skip((c + 1) as int), c)
        },
        TextStep::Left => Outcome::Caret(if c == 0 { 0 } else { (c - 1) as nat }),
        TextStep::Right => Outcome::Caret(if c < t.len() { c + 1 } else { c }),
        TextStep::Up => Outcome::Layout(LayoutMove::Up),
        TextStep::Down => Outcome::Layout(LayoutMove::Down),
        TextStep::Home => Outcome::Layout(LayoutMove::Home),
        TextStep::End => Outcome::Layout(LayoutMove::End),
        TextStep::Commit => Outcome::Commit,
        TextStep::Cancel => Outcome::Cancel,
    }
}

/// Copy `t[from..to]` onto the end of `out`.
fn push_range(out: &mut Vec<char>, t: &Vec<char>, from: usize, to: usize)
    requires
        from <= to <= t@.len(),
    ensures
        final(out)@ == old(out)@ + t@.subrange(from as int, to as int),
{
    let mut i = from;
    while i < to
        invariant
            from <= i <= to <= t@.len(),
            out@ == old(out)@ + t@.subrange(from as int, i as int),
        decreases to - i,
    {
        out.push(t[i]);
        assert(t@.subrange(from as int, i + 1) =~= t@.subrange(from as int, i as int).push(t@[i as int]));
        i = i + 1;
    }
}

/// Apply `step` to the text `t` with the caret at `caret`; `typed` is what
/// an insert puts in.
pub fn text_step(t: &Vec<char>, caret: usize, step: TextStep, typed: &Vec<char>) -> (r: TextOutcome)
    requires
        t@.len() + typed@.len() + 1 <= usize::MAX,
    ensures
        outcome_of(r) == spec_text_step(t@, caret as nat, step, typed@),
{
    let n = t.len();
    let c = if caret <= n { caret } else { n };
    match step {
        TextStep::Insert => {
            let mut out: Vec<char> = Vec::new();
            push_range(&mut out, t, 0, c);
            push_range(&mut out, typed, 0, typed.len());
            push_range(&mut out, t, c, n);
            assert(out@ =~= splice(t@, c as nat, typed@));
            let k = c + typed.len();
            TextOutcome::Edit { text: out, caret: k }
        },
        TextStep::Newline => {
            let mut out: Vec<char> = Vec::new();
            push_range(&mut out, t, 0, c);
            out.push('\n');
            push_range(&mut out, t, c, n);
            assert(out@ =~= splice(t@, c as nat, seq!['\n']));
            TextOutcome::Edit { text: out, caret: c + 1 }
        },
        TextStep::Backspace => {
            if c == 0 {
                TextOutcome::Nothing
            } else {
                let mut out: Vec<char> = Vec::new();
                push_range(&mut out, t, 0, c - 1);
                push_range(&mut out, t, c, n);
                assert(out@ =~= t@.take(c - 1) + t@.skip(c as int));
                TextOutcome::Edit { text: out, caret: c - 1 }
            }
        },
        TextStep::Delete => {
            if c >= n {
                TextOutcome::Nothing
            } else {
                let mut out: Vec<char> = Vec::new();
                push_range(&mut out, t, 0, c);
                push_range(&mut out, t, c + 1, n);
                assert(out@ =~= t@.take(c as int) + t@.skip(c + 1));
                TextOutcome::Edit { text: out, caret: c }
            }
        },
        TextStep::Left => TextOutcome::Caret(if c == 0 { 0 } else { c - 1 }),
        TextStep::Right => TextOutcome::Caret(if c < n { c + 1 } else { c }),
        TextStep::Up => TextOutcome::Layout(LayoutMove::Up),
        TextStep::Down => TextOutcome::Layout(LayoutMove::Down),
        TextStep::Home => TextOutcome::Layout(LayoutMove::Home),
        TextStep::End => TextOutcome::Layout(LayoutMove::End),
        TextStep::Commit => TextOutcome::Commit,
        TextStep::Cancel => TextOutcome::Cancel,
    }
}

/// Typing a character and then Backspace gives back the text as it was,
/// with the caret where it was (or at the end, if it stood past it).
pub proof fn backspace_undoes_a_typed_character(t: Seq<char>, caret: nat, x: char, none: Seq<char>)
    ensures
        spec_text_step(t, caret, TextStep::Insert, seq![x]) matches Outcome::Edit(t2, c2)
            && spec_text_step(t2, c2, TextStep::Backspace, none) == Outcome::Edit(t, clamp_caret(t, caret)),
{
    let c = clamp_caret(t, caret);
    let t2 = splice(t, c, seq![x]);
    assert(t2.take(c as int) =~= t.take(c as int));
    assert(t2.skip((c + 1) as int) =~= t.skip(c as int));
    assert(t2.take(c as int) + t2.skip((c + 1) as int) =~= t);
}

/// Delete removes the character after the caret and leaves the caret; the
/// text keeps everything before it.
pub proof fn delete_keeps_what_is_before_the_caret(t: Seq<char>, caret: nat, none: Seq<char>)
    requires
        caret < t.len(),
    ensures
        spec_text_step(t, caret, TextStep::Delete, none) matches Outcome::Edit(t2, c2)
            && c2 == caret && t2.len() + 1 == t.len() && t2.take(caret as int) == t.take(caret as int),
{
    let t2 = t.take(caret as int) + t.skip((caret + 1) as int);
    assert(t2.take(caret as int) =~= t.take(caret as int));
}

/// Typing puts the typed characters at the caret, keeping everything before
/// and after it, and leaves the caret just after them; a newline is one
/// typed line break.
pub proof fn typing_goes_in_at_the_caret(t: Seq<char>, caret: nat, typed: Seq<char>)
    requires
        caret <= t.len(),
    ensures
        spec_text_step(t, caret, TextStep::Insert, typed) matches Outcome::Edit(t2, c2) && {
            &&& t2.len() == t.len() + typed.len()
            &&& c2 == caret + typed.len()
            &&& forall|i: int| 0 <= i < caret ==> t2[i] == t[i]
            &&& forall|i: int| 0 <= i < typed.len() ==> t2[caret + i] == typed[i]
            &&& forall|i: int| caret <= i < t.len() ==> t2[i + typed.len()] == t[i]
        },
        spec_text_step(t, caret, TextStep::Newline, typed) matches Outcome::Edit(t2, c2) && {
            &&& t2.len() == t.len() + 1 && c2 == caret + 1 && t2[caret as int] == '\n'
        },
{
}

/// Backspace removes the character before the caret and moves the caret
/// back over it; at the start it does nothing. The arrows move the caret
/// one character, stopping at the ends, and never change the text.
pub proof fn backspace_and_arrows_move_one_character(t: Seq<char>, caret: nat, typed: Seq<char>)
    requires
        caret <= t.len(),
    ensures
        caret == 0 ==> spec_text_step(t, caret, TextStep::Backspace, typed) == Outcome::Nothing,
        caret > 0 ==> (spec_text_step(t, caret, TextStep::Backspace, typed) matches Outcome::Edit(t2, c2) && {
            &&& t2.len() + 1 == t.len() && c2 + 1 == caret
            &&& forall|i: int| 0 <= i < caret - 1 ==> t2[i] == t[i]
            &&& forall|i: int| caret <= i < t.len() ==> t2[i - 1] == t[i]
        }),
        caret == t.len() ==> spec_text_step(t, caret, TextStep::Delete, typed) == Outcome::Nothing,
        spec_text_step(t, caret, TextStep::Left, typed) == Outcome::Caret(if caret > 0 { (caret - 1) as nat } else { 0 }),
        spec_text_step(t, caret, TextStep::Right, typed) == Outcome::Caret(if caret < t.len() { caret + 1 } else { caret }),
        spec_text_step(t, caret, TextStep::Home, typed) == Outcome::Layout(LayoutMove::Home),
        spec_text_step(t, caret, TextStep::End, typed) == Outcome::Layout(LayoutMove::End),
        spec_text_step(t, caret, TextStep::Up, typed) == Outcome::Layout(LayoutMove::Up),
        spec_text_step(t, caret, TextStep::Down, typed) == Outcome::Layout(LayoutMove::Down),
        spec_text_step(t, caret, TextStep::Commit, typed) == Outcome::Commit,
        spec_text_step(t, caret, TextStep::Cancel, typed) == Outcome::Cancel,
{
}

} // verus!
