use vstd::math::min;
use vstd::prelude::*;

verus! {

/// The severity of a console entry. Drawing picks a colour from it; that
/// mapping lives with the drawing code, outside this library.
#[derive(Clone, Copy, Debug, PartialEq, Eq, Structural)]
pub enum ConsoleEntryType {
    Log,
    Warning,
    Error,
    Debug,
}

/// Pushed after an entry whose text has more lines than the console window.
pub const LONG_ENTRY_WARNING: &'static str =
    "Previous entry contains too many lines to display fully";

/// Number of newline characters in `s`.
pub open spec fn newline_count(s: Seq<char>) -> nat
    decreases s.len(),
{
    if s.len() == 0 {
        0
    } else {
        newline_count(s.drop_last()) + if s.last() == '\n' {
            1nat
        } else {
            0nat
        }
    }
}

/// Number of lines in `s`, as `str::lines` counts them: every newline ends a
/// line, and a nonempty tail after the last newline is one more line.
pub open spec fn line_count(s: Seq<char>) -> nat {
    if s.len() == 0 {
        0
    } else if s.last() == '\n' {
        newline_count(s)
    } else {
        newline_count(s) + 1
    }
}

proof fn lemma_newline_count_le_len(s: Seq<char>)
    ensures
        newline_count(s) <= s.len(),
    decreases s.len(),
{
    if s.len() > 0 {
        lemma_newline_count_le_len(s.drop_last());
    }
}

/// Count the lines of a text as `str::lines` does.
pub fn count_lines(s: &str) -> (n: usize)
    ensures
        n == line_count(s@),
{
    let len = s.unicode_len();
    let mut newlines: usize = 0;
    let mut i: usize = 0;
    while i < len
        invariant
            i <= len,
            len == s@.len(),
            newlines == newline_count(s@.take(i as int)),
            newlines <= i,
        decreases len - i,
    {
        let c = s.get_char(i);
        proof {
            assert(s@.take(i + 1).drop_last() =~= s@.take(i as int));
            assert(s@.take(i + 1).last() == s@[i as int]);
        }
        if c == '\n' {
            newlines = newlines + 1;
        }
        i = i + 1;
    }
    proof {
        assert(s@.take(len as int) =~= s@);
    }
    if len == 0 {
        0
    } else {
        let last = s.get_char(len - 1);
        if last == '\n' {
            newlines
        } else {
            proof {
                assert(s@.drop_last() =~= s@.take(len - 1));
                lemma_newline_count_le_len(s@.drop_last());
            }
            newlines + 1
        }
    }
}

/// The mathematical content of a `ConsoleEntry`.
#[verifier::ext_equal]
pub ghost struct ConsoleEntryView {
    pub text: Seq<char>,
    pub kind: ConsoleEntryType,
    pub dups: nat,
    pub dups_changed: bool,
}

impl ConsoleEntryView {
    /// A proposed entry repeats this one when text and kind both match.
    pub open spec fn is_duplicate(self, text: Seq<char>, kind: ConsoleEntryType) -> bool {
        self.kind == kind && self.text == text
    }

    /// One more duplicate was collapsed into this entry; the count saturates
    /// just past `ConsoleEntry::MAX_DUPLICATES`.
    pub open spec fn incr_dups(self) -> Self {
        ConsoleEntryView {
            text: self.text,
            kind: self.kind,
            dups: if self.dups <= ConsoleEntry::MAX_DUPLICATES as nat {
                self.dups + 1
            } else {
                self.dups
            },
            dups_changed: true,
        }
    }
}

/// One console entry with its duplicate-collapsing state.
pub struct ConsoleEntry {
    pub text: String,
    pub kind: ConsoleEntryType,
    /// Number of duplicates
    pub dups: usize,
    /// Whether `dups` changed since last draw
    pub dups_changed: bool,
}

impl View for ConsoleEntry {
    type V = ConsoleEntryView;

    open spec fn view(&self) -> ConsoleEntryView {
        ConsoleEntryView {
            text: self.text@,
            kind: self.kind,
            dups: self.dups as nat,
            dups_changed: self.dups_changed,
        }
    }
}

impl ConsoleEntry {
    pub const FONT_SIZE: i32 = 8;

    pub const PADDING: i32 = 4;

    /// Half of `PADDING`.
    pub const HALF_PADDING: i32 = 2;

    /// `FONT_SIZE` plus `PADDING`.
    pub const LINE_HEIGHT: i32 = 12;

    /// After this many collapsed duplicates the gutter just shows "99+".
    pub const MAX_DUPLICATES: usize = 99;

    pub const GUTTER_WIDTH: i32 = 24;

    pub fn new(s: String, kind: ConsoleEntryType) -> (e: Self)
        ensures
            e@ == (ConsoleEntryView { text: s@, kind, dups: 0, dups_changed: true }),
    {
        Self {
            text: s,
            kind,
            dups: 0,
            dups_changed: true,  // from null to 0
        }
    }

    pub fn clear_dups_changed(&mut self)
        ensures
            final(self)@ == (ConsoleEntryView { dups_changed: false, ..old(self)@ }),
    {
        self.dups_changed = false;
    }

    pub fn num_lines(&self) -> (n: usize)
        ensures
            n == line_count(self@.text),
    {
        count_lines(self.text.as_str())
    }

    pub fn is_duplicate(&self, prop_text: &String, prop_kind: &ConsoleEntryType) -> (r: bool)
        ensures
            r == self@.is_duplicate(prop_text@, *prop_kind),
    {
        (self.kind == *prop_kind) && (self.text == *prop_text)
    }

    pub fn incr_dups(&mut self)
        ensures
            final(self)@ == old(self)@.incr_dups(),
    {
        self.dups_changed = true;
        if self.dups <= Self::MAX_DUPLICATES {
            self.dups = self.dups + 1;
        }
    }

    pub fn height(&self) -> (h: i32)
        requires
            line_count(self@.text) * ConsoleEntry::LINE_HEIGHT as int <= i32::MAX as int,
        ensures
            h == line_count(self@.text) * ConsoleEntry::LINE_HEIGHT as int,
    {
        let n = self.num_lines();
        (n as i32) * ConsoleEntry::LINE_HEIGHT
    }
}

/// The mathematical content of a `Console`.
#[verifier::ext_equal]
pub ghost struct ConsoleView {
    pub entries: Seq<ConsoleEntryView>,
    pub start_entry: nat,
}

impl ConsoleView {
    /// The greatest start index that scrolling down can reach: the console
    /// never scrolls past the point where the last entries could fill it.
    pub open spec fn max_start(self) -> nat {
        if self.entries.len() > Console::MAX_LINES as nat {
            (self.entries.len() - Console::MAX_LINES as nat) as nat
        } else {
            0
        }
    }

    pub open spec fn scroll_up(self) -> Self {
        ConsoleView {
            entries: self.entries,
            start_entry: if self.start_entry > 0 {
                (self.start_entry - 1) as nat
            } else {
                0
            },
        }
    }

    pub open spec fn scroll_down(self) -> Self {
        ConsoleView {
            entries: self.entries,
            start_entry: min(self.start_entry as int + 1, self.max_start() as int) as nat,
        }
    }

    /// The proposed entry would collapse into the most recent one.
    pub open spec fn repeats_last(self, text: Seq<char>, kind: ConsoleEntryType) -> bool {
        self.entries.len() > 0 && self.entries.last().is_duplicate(text, kind)
    }

    /// Collapse into the most recent entry when it repeats, else append a
    /// fresh entry and scroll down to keep the newest entry in view.
    pub open spec fn push_plain(self, text: Seq<char>, kind: ConsoleEntryType) -> Self {
        if self.repeats_last(text, kind) {
            ConsoleView {
                entries: self.entries.update(
                    self.entries.len() - 1,
                    self.entries.last().incr_dups(),
                ),
                start_entry: self.start_entry,
            }
        } else {
            (ConsoleView {
                entries: self.entries.push(
                    ConsoleEntryView { text, kind, dups: 0, dups_changed: true },
                ),
                start_entry: self.start_entry,
            }).scroll_down()
        }
    }

    /// `push_plain`, followed, when a fresh entry has more lines than the
    /// console window can ever show, by a warning entry and one more scroll.
    pub open spec fn push_entry(self, text: Seq<char>, kind: ConsoleEntryType) -> Self {
        let pushed = self.push_plain(text, kind);
        if !self.repeats_last(text, kind) && line_count(text) > Console::MAX_LINES as nat {
            pushed.push_plain(LONG_ENTRY_WARNING@, ConsoleEntryType::Warning).scroll_down()
        } else {
            pushed
        }
    }
}

/// Total number of lines over a run of entries.
pub open spec fn lines_total(s: Seq<ConsoleEntryView>) -> nat
    decreases s.len(),
{
    if s.len() == 0 {
        0
    } else {
        lines_total(s.drop_last()) + line_count(s.last().text)
    }
}

/// An append-only log console with duplicate collapsing and a scroll window.
pub struct Console {
    pub entries: Vec<ConsoleEntry>,
    pub start_entry: usize,
}

impl View for Console {
    type V = ConsoleView;

    open spec fn view(&self) -> ConsoleView {
        ConsoleView {
            entries: self.entries@.map_values(|e: ConsoleEntry| e@),
            start_entry: self.start_entry as nat,
        }
    }
}

impl Console {
    /// Maximum lines visible in the console at a time (it can hold more)
    pub const MAX_LINES: usize = 10;

    pub const INSET_X: i32 = 12;

    pub const INSET_Y: i32 = 12;

    pub const VISIBLE_WIDTH: i32 = 200;

    /// `MAX_LINES` times `ConsoleEntry::LINE_HEIGHT`.
    pub const VISIBLE_HEIGHT: i32 = 120;

    pub fn new() -> (c: Self)
        ensures
            c@.entries =~= Seq::<ConsoleEntryView>::empty(),
            c@.start_entry == 0,
    {
        Self { entries: Vec::new(), start_entry: 0 }
    }

    pub fn scroll_up(&mut self)
        ensures
            final(self)@ == old(self)@.scroll_up(),
    {
        if self.start_entry > 0 {
            self.start_entry = self.start_entry - 1;
        }
    }

    pub fn scroll_down(&mut self)
        ensures
            final(self)@ == old(self)@.scroll_down(),
    {
        let len = self.entries.len();
        let max_start = if len >= Console::MAX_LINES {
            len - Console::MAX_LINES
        } else {
            0
        };
        let next = if self.start_entry < usize::MAX {
            self.start_entry + 1
        } else {
            usize::MAX
        };
        self.start_entry = if next < max_start {
            next
        } else {
            max_start
        };
    }

    /// The entries in the scroll window: the longest run from `start_entry`
    /// whose total line count stays under `MAX_LINES`.
    pub fn visible_entries(&self) -> (r: Vec<&ConsoleEntry>)
        ensures
            self@.start_entry >= self@.entries.len() ==> r@.len() == 0,
            self@.start_entry + r@.len() <= self@.entries.len() || r@.len() == 0,
            forall|i: int|
                0 <= i < r@.len() ==> r@[i]@ == self@.entries[self@.start_entry + i],
            r@.len() > 0 ==> lines_total(
                self@.entries.subrange(
                    self@.start_entry as int,
                    self@.start_entry + r@.len() as int,
                ),
            ) < Console::MAX_LINES as nat,
            self@.start_entry + r@.len() < self@.entries.len() ==> lines_total(
                self@.entries.subrange(
                    self@.start_entry as int,
                    self@.start_entry + r@.len() as int + 1,
                ),
            ) >= Console::MAX_LINES as nat,
    {
        let mut r: Vec<&ConsoleEntry> = Vec::new();
        let n = self.entries.len();
        let mut idx: usize = self.start_entry;
        if idx >= n {
            return r;
        }
        let mut lines_added: usize = 0;
        let ghost s: int = self@.start_entry as int;
        while idx < n
            invariant
                s == self@.start_entry as int,
                self@.start_entry <= idx <= n,
                n == self@.entries.len(),
                r@.len() == idx - self@.start_entry,
                forall|i: int|
                    0 <= i < r@.len() ==> r@[i]@ == self@.entries[self@.start_entry + i],
                lines_added == lines_total(self@.entries.subrange(s, idx as int)),
                lines_added < Console::MAX_LINES,
            decreases n - idx,
        {
            let entry = &self.entries[idx];
            let nl = entry.num_lines();
            let new_total = if nl >= Console::MAX_LINES - lines_added {
                Console::MAX_LINES
            } else {
                lines_added + nl
            };
            proof {
                assert(self@.entries.subrange(s, idx + 1).drop_last() =~= self@.entries.subrange(
                    s,
                    idx as int,
                ));
                assert(self@.entries.subrange(s, idx + 1).last() == self@.entries[idx as int]);
            }
            if new_total < Console::MAX_LINES {
                r.push(entry);
                lines_added = new_total;
                idx = idx + 1;
            } else {
                return r;
            }
        }
        r
    }

    /// Add one entry: collapse it into the most recent entry when it repeats,
    /// else append it and scroll down.
    fn push_plain(&mut self, text: String, kind: ConsoleEntryType)
        ensures
            final(self)@ == old(self)@.push_plain(text@, kind),
    {
        let len = self.entries.len();
        if len > 0 && self.entries[len - 1].is_duplicate(&text, &kind) {
            self.entries[len - 1].incr_dups();
            return ;
        }
        self.entries.push(ConsoleEntry::new(text, kind));
        self.scroll_down();
    }

    /// Add a log/warning/error/debug to the console. An entry taller than the
    /// console window is followed by a one-line warning; the warning itself is
    /// one line, so no second warning can follow it.
    fn push_entry(&mut self, text: String, kind: ConsoleEntryType)
        ensures
            final(self)@ == old(self)@.push_entry(text@, kind),
    {
        let long = count_lines(text.as_str()) > Console::MAX_LINES;
        let len = self.entries.len();
        let repeat = len > 0 && self.entries[len - 1].is_duplicate(&text, &kind);
        self.push_plain(text, kind);
        if !repeat && long {
            self.push_plain(LONG_ENTRY_WARNING.to_owned(), ConsoleEntryType::Warning);
            self.scroll_down();
        }
    }

    pub fn log(&mut self, text: &str)
        ensures
            final(self)@ == old(self)@.push_entry(text@, ConsoleEntryType::Log),
    {
        self.push_entry(text.to_owned(), ConsoleEntryType::Log);
    }

    pub fn warn(&mut self, text: &str)
        ensures
            final(self)@ == old(self)@.push_entry(text@, ConsoleEntryType::Warning),
    {
        self.push_entry(text.to_owned(), ConsoleEntryType::Warning);
    }

    pub fn err(&mut self, text: &str)
        ensures
            final(self)@ == old(self)@.push_entry(text@, ConsoleEntryType::Error),
    {
        self.push_entry(text.to_owned(), ConsoleEntryType::Error);
    }

    pub fn debug(&mut self, text: &str)
        ensures
            final(self)@ == old(self)@.push_entry(text@, ConsoleEntryType::Debug),
    {
        self.push_entry(text.to_owned(), ConsoleEntryType::Debug);
    }
}

} // verus!
