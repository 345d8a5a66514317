//! Process files: which file the pipeline on the canvas was opened from,
//! whether it can be saved back there, and what opening or saving one does
//! to the canvas and the console.

use vstd::prelude::*;
use crate::canvas::{connection_triples, ConnectedCurves};
use crate::catalog::{operators_model, OperatorInUseList};
use crate::log::{added_message, log_error, log_normal, log_success, stamped, ConsoleLog, LogModel};
use crate::operator::Operator;

verus! {

/// Whether the canvas holds a process opened from a file, and which file.
#[derive(Debug)]
pub struct ProcessFileState {
    pub editing_existing_process: bool,
    pub currernt_process_path: Option<String>,
    pub file_needs_to_be_saved: bool,
}

impl Default for ProcessFileState {
    fn default() -> (s: Self)
        ensures
            !s.editing_existing_process,
            s.currernt_process_path is None,
            !s.file_needs_to_be_saved,
    {
        ProcessFileState {
            editing_existing_process: false,
            currernt_process_path: None,
            file_needs_to_be_saved: false,
        }
    }
}

pub open spec fn normal_of(m: LogModel, msg: Seq<char>) -> bool {
    m matches LogModel::Normal(s) && stamped(s, msg)
}

pub open spec fn success_msg(m: LogModel, msg: Seq<char>) -> bool {
    m matches LogModel::Success(s) && stamped(s, msg)
}

pub open spec fn error_msg(m: LogModel, msg: Seq<char>) -> bool {
    m matches LogModel::Error(s) && stamped(s, msg)
}

impl ProcessFileState {
    pub fn reset(&mut self)
        ensures
            !final(self).editing_existing_process,
            final(self).currernt_process_path is None,
            !final(self).file_needs_to_be_saved,
    {
        self.editing_existing_process = false;
        self.currernt_process_path = None;
        self.file_needs_to_be_saved = false;
    }

    /// The process can be saved in place: it was opened from a file, and
    /// that file is known.
    pub fn can_save(&self) -> (b: bool)
        ensures
            b == (self.editing_existing_process && self.currernt_process_path is Some),
    {
        self.editing_existing_process && self.currernt_process_path.is_some()
    }

    /// The file dialog of "Open process" closed with `path` (`None` when it
    /// was cancelled). A chosen file becomes the current process file, and
    /// the console says "Opening process"; the answer tells whether to read
    /// it. A cancelled dialog makes the console say "Failed to open process
    /// file".
    pub fn process_file_chosen(&mut self, console_log: &mut ConsoleLog, path: Option<String>) -> (read_it: bool)
        ensures
            read_it == path is Some,
            final(self).editing_existing_process == old(self).editing_existing_process,
            final(self).file_needs_to_be_saved == old(self).file_needs_to_be_saved,
            match path {
                Some(p) => final(self).currernt_process_path matches Some(q) && q@ == p@
                    && exists|m: LogModel|
                    normal_of(m, "Opening process"@) && added_message(*old(console_log), *final(console_log), m),
                None => final(self).currernt_process_path == old(self).currernt_process_path
                    && exists|m: LogModel|
                    error_msg(m, "Failed to open process file"@) && added_message(*old(console_log), *final(console_log), m),
            },
    {
        match path {
            Some(p) => {
                let entry = log_normal("Opening process");
                let ghost m = entry@;
                console_log.new_message(entry);
                self.currernt_process_path = Some(p);
                assert(normal_of(m, "Opening process"@));
                true
            },
            None => {
                let entry = log_error("Failed to open process file");
                let ghost m = entry@;
                console_log.new_message(entry);
                assert(error_msg(m, "Failed to open process file"@));
                false
            },
        }
    }

    /// The chosen process file was read. When it parsed, `loaded` holds its
    /// operators, already placed on the canvas: they become the operators in
    /// use, no connection is left, and the process counts as opened from
    /// its file. When it did not parse, the state is reset and the console
    /// shows the parse error.
    pub fn process_file_loaded(
        &mut self,
        console_log: &mut ConsoleLog,
        in_use: &mut OperatorInUseList,
        curves: &mut ConnectedCurves,
        loaded: Result<Vec<Operator>, String>,
    )
        ensures
            match loaded {
                Ok(ops) => {
                    &&& operators_model(final(in_use).0@) == operators_model(ops@)
                    &&& final(curves).0@.len() == 0
                    &&& final(self).editing_existing_process
                    &&& final(self).currernt_process_path == old(self).currernt_process_path
                    &&& final(self).file_needs_to_be_saved == old(self).file_needs_to_be_saved
                    &&& *final(console_log) == *old(console_log)
                },
                Err(e) => {
                    &&& !final(self).editing_existing_process
                    &&& final(self).currernt_process_path is None
                    &&& !final(self).file_needs_to_be_saved
                    &&& operators_model(final(in_use).0@) == operators_model(old(in_use).0@)
                    &&& connection_triples(final(curves).0@) == connection_triples(old(curves).0@)
                    &&& exists|m: LogModel|
                        error_msg(m, e@) && added_message(*old(console_log), *final(console_log), m)
                },
            },
    {
        match loaded {
            Ok(ops) => {
                in_use.0 = ops;
                curves.0 = Vec::new();
                self.editing_existing_process = true;
            },
            Err(e) => {
                self.reset();
                let entry = log_error(e.as_str());
                let ghost m = entry@;
                console_log.new_message(entry);
                assert(error_msg(m, e@));
            },
        }
    }
}

/// Writing the process file finished, successfully (`saved`) or not: the
/// console says "Process has been saved" or "Failed to save new process".
pub fn record_save_result(console_log: &mut ConsoleLog, saved: bool)
    ensures
        saved ==> exists|m: LogModel|
            success_msg(m, "Process has been saved"@) && added_message(*old(console_log), *final(console_log), m),
        !saved ==> exists|m: LogModel|
            error_msg(m, "Failed to save new process"@) && added_message(*old(console_log), *final(console_log), m),
{
    if saved {
        let entry = log_success("Process has been saved");
        let ghost m = entry@;
        console_log.new_message(entry);
        assert(success_msg(m, "Process has been saved"@));
    } else {
        let entry = log_error("Failed to save new process");
        let ghost m = entry@;
        console_log.new_message(entry);
        assert(error_msg(m, "Failed to save new process"@));
    }
}

} // verus!
