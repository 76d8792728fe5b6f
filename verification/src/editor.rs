//! What a gutter reads of the editor: the line-numbering mode and the
//! breakpoints of each file.

use vstd::hash_map::StringHashMap;
use vstd::prelude::*;

verus! {

/// How the line-number gutter counts.
#[derive(Clone, Copy, Debug, PartialEq, Eq)]
pub enum LineNumber {
    /// Every line shows its own number.
    Absolute,
    /// The cursor's line shows its own number, every other line its
    /// distance from the cursor's line.
    Relative,
}

/// The part of the editor's configuration that gutters read.
#[derive(Clone, Copy, Debug, PartialEq, Eq)]
pub struct Config {
    pub line_number: LineNumber,
}

/// A breakpoint as the debugger last reported it.
#[derive(Debug, PartialEq, Eq)]
pub struct Breakpoint {
    /// The line it sits on, counted from zero.
    pub line: usize,
    /// Whether the debugger has confirmed it.
    pub verified: bool,
    /// The expression that must hold for it to stop execution.
    pub condition: Option<String>,
    /// The message to log in place of stopping.
    pub log_message: Option<String>,
}

/// The editor state that gutters are bound to.
pub struct Editor {
    pub config: Config,
    /// The breakpoints on record, by the path of their file.
    pub breakpoints: StringHashMap<Vec<Breakpoint>>,
}

impl Editor {
    /// The breakpoints on record for the file at `path`: none where the
    /// editor has no entry for it.
    pub open spec fn breakpoints_at(&self, path: Seq<char>) -> Seq<Breakpoint> {
        if self.breakpoints@.contains_key(path) {
            self.breakpoints@[path]@
        } else {
            Seq::empty()
        }
    }

    /// An editor with the given configuration and no breakpoints.
    pub fn new(config: Config) -> (editor: Editor)
        ensures
            editor.config == config,
            editor.breakpoints@ == Map::<Seq<char>, Vec<Breakpoint>>::empty(),
    {
        Editor { config, breakpoints: StringHashMap::new() }
    }

    /// Records `breakpoints` as the breakpoints of the file at `path`, in
    /// place of what was on record for it.
    pub fn set_breakpoints(&mut self, path: &str, breakpoints: Vec<Breakpoint>)
        ensures
            final(self).config == old(self).config,
            final(self).breakpoints@ == old(self).breakpoints@.insert(path@, breakpoints),
    {
        self.breakpoints.insert(path.to_owned(), breakpoints);
    }

    /// The breakpoints on record for the file at `path`, if there is an
    /// entry for it.
    pub fn breakpoints_for(&self, path: &str) -> (found: Option<&Vec<Breakpoint>>)
        ensures
            match found {
                Some(list) => self.breakpoints@.contains_key(path@) && *list
                    == self.breakpoints@[path@],
                None => !self.breakpoints@.contains_key(path@),
            },
    {
        self.breakpoints.get(path)
    }
}

} // verus!
