use vstd::prelude::*;

use crate::fuzzy::is_subseq;
use crate::history::texts;
use crate::input::InputState;

verus! {

/// The entries of `s` that the query fuzzily matches, in their order.
pub open spec fn fuzzy_filter(s: Seq<Seq<char>>, q: Seq<char>) -> Seq<Seq<char>>
    decreases s.len(),
{
    if s.len() == 0 {
        s
    } else if is_subseq(q, s.last()) {
        fuzzy_filter(s.drop_last(), q).push(s.last())
    } else {
        fuzzy_filter(s.drop_last(), q)
    }
}

/// The suggestions offered for `query`: the entries that it matches.
pub fn suggestions(entries: &Vec<String>, query: &str) -> (r: Vec<String>)
    ensures
        texts(r@) == fuzzy_filter(texts(entries@), query@),
{
    let mut out: Vec<String> = Vec::new();
    let mut k: usize = 0;
    assert(texts(entries@).take(0) =~= Seq::<Seq<char>>::empty());
    while k < entries.len()
        invariant
            k <= entries.len(),
            texts(out@) == fuzzy_filter(texts(entries@).take(k as int), query@),
        decreases entries.len() - k,
    {
        let ghost old_out = out@;
        assert(texts(entries@).take(k + 1).drop_last() =~= texts(entries@).take(k as int));
        assert(texts(entries@).take(k + 1).last() == entries@[k as int]@);
        if crate::fuzzy::matches(entries[k].as_str(), query) {
            out.push(entries[k].clone());
            assert(texts(out@) =~= texts(old_out).push(entries@[k as int]@));
        }
        k = k + 1;
    }
    assert(texts(entries@).take(entries.len() as int) =~= texts(entries@));
    out
}

/// The command line: its text field and the highlighted suggestion, if any.
pub struct CommandPaletteState {
    input: InputState,
    selected: Option<usize>,
}

impl CommandPaletteState {
    pub closed spec fn input_spec(&self) -> InputState {
        self.input
    }

    pub closed spec fn selected_spec(&self) -> Option<usize> {
        self.selected
    }

    pub open spec fn wf(&self) -> bool {
        self.input_spec().wf()
    }

    /// A palette holding `cmd`, with no suggestion highlighted.
    pub fn new(cmd: &str) -> (r: CommandPaletteState)
        ensures
            r.wf(),
            r.input_spec()@.text == cmd@,
            r.input_spec()@.cursor == cmd@.len(),
            r.selected_spec() is None,
    {
        CommandPaletteState { input: InputState::new(cmd), selected: None }
    }

    pub fn input(&mut self) -> (r: &mut InputState)
        ensures
            *r == old(self).input_spec(),
            final(self).input_spec() == *final(r),
            final(self).selected_spec() == old(self).selected_spec(),
    {
        &mut self.input
    }

    pub fn value(&self) -> (r: String)
        ensures
            r@ == self.input_spec()@.text,
    {
        self.input.value()
    }

    pub fn selected(&self) -> (r: Option<usize>)
        ensures
            r == self.selected_spec(),
    {
        self.selected
    }

    /// Highlights the next of `count` suggestions, stopping at the last.
    pub fn select_next(&mut self, count: usize)
        ensures
            final(self).input_spec() == old(self).input_spec(),
            final(self).selected_spec() == if count == 0 {
                None
            } else {
                match old(self).selected_spec() {
                    None => Some(0usize),
                    Some(i) => Some(if i + 1 < count { (i + 1) as usize } else { (count - 1) as usize }),
                }
            },
    {
        if count == 0 {
            self.selected = None;
        } else {
            self.selected = match self.selected {
                None => Some(0),
                Some(i) => Some(if i < count - 1 { i + 1 } else { count - 1 }),
            };
        }
    }

    /// Highlights the previous suggestion; from the first one, none is highlighted.
    pub fn select_previous(&mut self)
        ensures
            final(self).input_spec() == old(self).input_spec(),
            final(self).selected_spec() == match old(self).selected_spec() {
                None => None,
                Some(i) => if i == 0 { None } else { Some((i - 1) as usize) },
            },
    {
        self.selected = match self.selected {
            None => None,
            Some(i) => if i == 0 {
                None
            } else {
                Some(i - 1)
            },
        };
    }

    pub fn deselect(&mut self)
        ensures
            final(self).input_spec() == old(self).input_spec(),
            final(self).selected_spec() is None,
    {
        self.selected = None;
    }

    /// Replaces the text by a chosen suggestion and clears the highlight.
    pub fn set_input(&mut self, text: &str)
        ensures
            final(self).wf(),
            final(self).input_spec()@.text == text@,
            final(self).input_spec()@.cursor == text@.len(),
            final(self).selected_spec() is None,
    {
        self.input = InputState::new(text);
        self.selected = None;
    }
}

} // verus!
