//! Moving through the files and records of an analysis, as a browser does.

use vstd::prelude::*;

verus! {

/// What a key asks a browser to do.
#[derive(Debug, Clone, Copy, PartialEq, Eq, Structural)]
pub enum BrowseCommand {
    Quit,
    NextRecord,
    PreviousRecord,
    NextFile,
    PreviousFile,
    Nothing,
}

/// Which file and which record of it a browser shows.
#[derive(Debug, Clone, Copy, PartialEq, Eq, Structural)]
pub struct Selection {
    pub file: usize,
    pub record: usize,
    pub should_quit: bool,
}

/// The place after `index` among `count` places, going round; a place
/// beyond the last counts as the last.
pub open spec fn spec_next_index(index: usize, count: usize) -> usize {
    if count == 0 {
        index
    } else if index >= count - 1 {
        0
    } else {
        (index + 1) as usize
    }
}

/// The place before `index` among `count` places, going round.
pub open spec fn spec_previous_index(index: usize, count: usize) -> usize {
    if count == 0 {
        index
    } else if index == 0 {
        (count - 1) as usize
    } else {
        (index - 1) as usize
    }
}

impl Selection {
    /// The selection after a command, on an analysis of `files` files
    /// whose selected file has `records` records.
    pub open spec fn spec_apply(self, command: BrowseCommand, files: usize, records: usize) -> Selection {
        match command {
            BrowseCommand::Quit => Selection { should_quit: true, ..self },
            BrowseCommand::NextRecord => Selection { record: spec_next_index(self.record, records), ..self },
            BrowseCommand::PreviousRecord => Selection {
                record: spec_previous_index(self.record, records),
                ..self
            },
            BrowseCommand::NextFile => if files == 0 {
                self
            } else {
                Selection { file: spec_next_index(self.file, files), record: 0, ..self }
            },
            BrowseCommand::PreviousFile => if files == 0 {
                self
            } else {
                Selection { file: spec_previous_index(self.file, files), record: 0, ..self }
            },
            BrowseCommand::Nothing => self,
        }
    }

    /// The first record of the first file.
    pub fn new() -> (s: Self)
        ensures
            s == (Selection { file: 0, record: 0, should_quit: false }),
    {
        Selection { file: 0, record: 0, should_quit: false }
    }

    /// Whether the browser is to close.
    pub fn should_quit(&self) -> (r: bool)
        ensures
            r == self.should_quit,
    {
        self.should_quit
    }

    /// Carries a command out.
    pub fn apply(&mut self, command: BrowseCommand, files: usize, records: usize)
        ensures
            *final(self) == old(self).spec_apply(command, files, records),
    {
        match command {
            BrowseCommand::Quit => {
                self.should_quit = true;
            },
            BrowseCommand::NextRecord => {
                self.record = next_index(self.record, records);
            },
            BrowseCommand::PreviousRecord => {
                self.record = previous_index(self.record, records);
            },
            BrowseCommand::NextFile => {
                if files > 0 {
                    self.file = next_index(self.file, files);
                    self.record = 0;
                }
            },
            BrowseCommand::PreviousFile => {
                if files > 0 {
                    self.file = previous_index(self.file, files);
                    self.record = 0;
                }
            },
            BrowseCommand::Nothing => {},
        }
    }
}

fn next_index(index: usize, count: usize) -> (r: usize)
    ensures
        r == spec_next_index(index, count),
{
    if count == 0 {
        index
    } else if index >= count - 1 {
        0
    } else {
        index + 1
    }
}

fn previous_index(index: usize, count: usize) -> (r: usize)
    ensures
        r == spec_previous_index(index, count),
{
    if count == 0 {
        index
    } else if index == 0 {
        count - 1
    } else {
        index - 1
    }
}

/// A selection that points at a file and a record that exist keeps doing
/// so whatever the command, and going to the next place is the same as
/// adding one and starting over at the end.
pub proof fn lemma_selection_stays_inside(s: Selection, command: BrowseCommand, files: usize, records: usize)
    requires
        s.file < files,
        s.record < records,
    ensures
        s.spec_apply(command, files, records).file < files,
        command == BrowseCommand::NextRecord || command == BrowseCommand::PreviousRecord
            ==> s.spec_apply(command, files, records).record < records,
        spec_next_index(s.record, records) == (s.record + 1) % (records as int),
        spec_next_index(s.file, files) == (s.file + 1) % (files as int),
{
    lemma_wraps(s.record as int, records as int);
    lemma_wraps(s.file as int, files as int);
}

/// One more than the last place, modulo the number of places, is the
/// first place; one more than any other place is itself.
proof fn lemma_wraps(index: int, count: int)
    requires
        0 <= index < count,
    ensures
        (index + 1) % count == if index == count - 1 {
            0
        } else {
            index + 1
        },
{
    if index == count - 1 {
        vstd::arithmetic::div_mod::lemma_mod_self_0(count);
    } else {
        vstd::arithmetic::div_mod::lemma_small_mod((index + 1) as nat, count as nat);
    }
}

} // verus!
