//! Running a pipeline: the run button, the walk along the chain of
//! operators (each runs as a background task, and its result becomes the
//! input of the next), the events that the tasks send back, and the tabs.

use vstd::prelude::*;
use crate::data::{DataModel, DataValue};
use crate::log::{
    added_message, create_log_with_timestamp, stamped, ConsoleLog, LogModel, LogType,
};

verus! {

broadcast use vstd::std_specs::vec::group_vec_axioms;

#[derive(Clone, Copy, Debug, PartialEq, Eq, Structural)]
pub enum ViewingTab {
    Design,
    Result,
}

impl Default for ViewingTab {
    fn default() -> (t: Self)
        ensures
            t == ViewingTab::Design,
    {
        ViewingTab::Design
    }
}

/// Which tab is shown, whether a run is going on, and the operator (by
/// entity) that runs now.
#[derive(Debug)]
pub struct UiState {
    pub viewing_tab: ViewingTab,
    pub is_running: bool,
    pub executing_operator: Option<u64>,
}

impl Default for UiState {
    fn default() -> (s: Self)
        ensures
            s.viewing_tab == ViewingTab::Design,
            !s.is_running,
            s.executing_operator is None,
    {
        UiState { viewing_tab: ViewingTab::Design, is_running: false, executing_operator: None }
    }
}

/// The state of the background task of the operator that runs now.
#[derive(Debug)]
pub enum TaskPoll {
    /// No task has been started for it.
    NoTask,
    /// Its task is still running.
    Pending,
    /// Its task finished with this result.
    Finished(DataValue),
}

/// What the run loop does next.
#[derive(Debug)]
pub enum ExecutionAction {
    /// No operator runs.
    Idle,
    /// Start the task of the operator that runs now.
    SpawnTask,
    /// Its task is still running: wait.
    Wait,
    /// The task failed: the run is over.
    Stopped,
    /// The last operator of the chain is done: the run is over.
    Finished,
    /// The operator `next` runs now; when `pass_on` holds data, it becomes
    /// that operator's input.
    Advance { next: u64, pass_on: Option<DataValue> },
}

/// `m` is a success message stamped onto `msg`.
pub open spec fn success_of(m: LogModel, msg: Seq<char>) -> bool {
    m matches LogModel::Success(s) && stamped(s, msg)
}

/// `m` is an error message stamped onto `msg`.
pub open spec fn error_of(m: LogModel, msg: Seq<char>) -> bool {
    m matches LogModel::Error(s) && stamped(s, msg)
}

/// The texts of the run button: its label and its style class.
#[derive(Debug)]
pub struct RunButtonStyle {
    pub text: &'static str,
    pub class: &'static str,
}

/// How the two tabs look: the style class of each tab button, and which
/// page is shown (the shown page is also drawn on top).
#[derive(Debug)]
pub struct TabLayout {
    pub design_class: &'static str,
    pub result_class: &'static str,
    pub design_shown: bool,
}

impl UiState {
    /// One step of the run loop for the operator that runs now, whose task
    /// is in state `poll` and whose next operator is `next_operator`.
    /// A failed task ends the run. A task that finishes hands the run on to
    /// the next operator, passing its result on unless it is `Empty`; when
    /// there is no next operator the run is over and the console says
    /// "Finished process".
    pub fn step_execution(
        &mut self,
        console_log: &mut ConsoleLog,
        poll: TaskPoll,
        next_operator: Option<u64>,
    ) -> (action: ExecutionAction)
        ensures
            final(self).viewing_tab == old(self).viewing_tab,
            old(self).executing_operator is None ==> action is Idle && *final(self) == *old(self)
                && *final(console_log) == *old(console_log),
            old(self).executing_operator is Some ==> match poll {
                TaskPoll::NoTask => action is SpawnTask && *final(self) == *old(self)
                    && *final(console_log) == *old(console_log),
                TaskPoll::Pending => action is Wait && *final(self) == *old(self)
                    && *final(console_log) == *old(console_log),
                TaskPoll::Finished(r) => if r@ is Error {
                    &&& action is Stopped
                    &&& !final(self).is_running
                    &&& final(self).executing_operator is None
                    &&& *final(console_log) == *old(console_log)
                } else {
                    &&& final(self).executing_operator == next_operator
                    &&& match next_operator {
                        None => {
                            &&& action is Finished
                            &&& !final(self).is_running
                            &&& exists|m: LogModel|
                                success_of(m, "Finished process"@) && added_message(
                                    *old(console_log),
                                    *final(console_log),
                                    m,
                                )
                        },
                        Some(n) => {
                            &&& final(self).is_running == old(self).is_running
                            &&& *final(console_log) == *old(console_log)
                            &&& action matches ExecutionAction::Advance { next, pass_on } && next
                                == n && if r@ is Empty {
                                pass_on is None
                            } else {
                                pass_on matches Some(d) && d@ == r@
                            }
                        },
                    }
                },
            },
    {
        if self.executing_operator.is_none() {
            return ExecutionAction::Idle;
        }
        match poll {
            TaskPoll::NoTask => ExecutionAction::SpawnTask,
            TaskPoll::Pending => ExecutionAction::Wait,
            TaskPoll::Finished(result) => {
                if result.is_error() {
                    self.is_running = false;
                    self.executing_operator = None;
                    return ExecutionAction::Stopped;
                }
                self.executing_operator = next_operator;
                match next_operator {
                    None => {
                        self.is_running = false;
                        let log = create_log_with_timestamp("Finished process");
                        let entry = LogType::Success(log);
                        let ghost m = entry@;
                        console_log.new_message(entry);
                        assert(success_of(m, "Finished process"@));
                        ExecutionAction::Finished
                    },
                    Some(n) => {
                        let pass_on = if result.is_empty() {
                            None
                        } else {
                            Some(result)
                        };
                        ExecutionAction::Advance { next: n, pass_on }
                    },
                }
            },
        }
    }

    /// The run button was pressed while a run was going on: the run stops,
    /// and the console says "Stopped process". The answer is the operator
    /// that was running, if any.
    pub fn handle_stop_running_process(&mut self, console_log: &mut ConsoleLog) -> (was_running:
        Option<u64>)
        ensures
            was_running == old(self).executing_operator,
            !final(self).is_running,
            final(self).executing_operator is None,
            final(self).viewing_tab == old(self).viewing_tab,
            exists|m: LogModel|
                error_of(m, "Stopped process"@) && added_message(
                    *old(console_log),
                    *final(console_log),
                    m,
                ),
    {
        let was_running = self.executing_operator;
        self.is_running = false;
        self.executing_operator = None;
        let entry = LogType::Error(create_log_with_timestamp("Stopped process"));
        let ghost m = entry@;
        console_log.new_message(entry);
        assert(error_of(m, "Stopped process"@));
        was_running
    }

    /// The run button was pressed while no run was going on. `operators`
    /// lists the operators on the canvas, each as (entity, whether it starts
    /// a chain). The first that starts a chain runs first: a new console
    /// session opens and says "Started process". When none does, the
    /// console says "You need connected operators to start the process".
    pub fn handle_start_running_process(
        &mut self,
        console_log: &mut ConsoleLog,
        operators: &Vec<(u64, bool)>,
    )
        requires
            old(console_log).last_key_count < usize::MAX,
        ensures
            final(self).viewing_tab == old(self).viewing_tab,
            match first_starter(operators@) {
                Some(i) => {
                    &&& final(self).executing_operator == Some(operators@[i].0)
                    &&& final(self).is_running
                    &&& final(console_log).last_key_count == old(console_log).last_key_count + 1
                    &&& exists|m: LogModel|
                        success_of(m, "Started process"@) && final(console_log).sessions()
                            == old(console_log).sessions().insert(
                            final(console_log).last_key_count,
                            seq![m],
                        )
                },
                None => {
                    &&& final(self).executing_operator == old(self).executing_operator
                    &&& final(self).is_running == old(self).is_running
                    &&& old(self).executing_operator is None ==> exists|m: LogModel|
                        error_of(m, "You need connected operators to start the process"@)
                            && added_message(*old(console_log), *final(console_log), m)
                    &&& old(self).executing_operator is Some ==> *final(console_log) == *old(
                        console_log,
                    )
                },
            },
    {
        let mut i: usize = 0;
        while i < operators.len()
            invariant
                i <= operators@.len(),
                forall|j: int| 0 <= j < i ==> !operators@[j].1,
                *self == *old(self),
                *console_log == *old(console_log),
                old(console_log).last_key_count < usize::MAX,
            decreases operators@.len() - i,
        {
            if operators[i].1 {
                self.executing_operator = Some(operators[i].0);
                self.is_running = true;
                let entry = LogType::Success(create_log_with_timestamp("Started process"));
                let ghost m = entry@;
                let ghost k = (console_log.last_key_count + 1) as usize;
                console_log.new_session();
                console_log.new_message(entry);
                proof {
                    assert(Seq::<LogModel>::empty().push(m) =~= seq![m]);
                    assert(console_log.sessions() =~= old(console_log).sessions().insert(k, seq![m]));
                    assert(success_of(m, "Started process"@));
                    assert(final_sessions_ok(*old(console_log), *console_log, m, k));
                    assert(first_starter(operators@) == Some(i as int)) by {
                        lemma_first_starter(operators@, i as int);
                    }
                }
                return;
            }
            i = i + 1;
        }
        assert(first_starter(operators@) is None);
        if self.executing_operator.is_none() {
            let entry = LogType::Error(
                create_log_with_timestamp("You need connected operators to start the process"),
            );
            let ghost m = entry@;
            console_log.new_message(entry);
            assert(error_of(m, "You need connected operators to start the process"@));
        }
    }

    /// The run button was pressed: it stops a run that is going on, and
    /// starts one otherwise (see the two functions above). The answer is
    /// the operator that was running when a run was stopped.
    pub fn on_run_btn_clicked(&mut self, console_log: &mut ConsoleLog, operators: &Vec<(u64, bool)>) -> (stopped: Option<
        u64,
    >)
        requires
            old(console_log).last_key_count < usize::MAX,
        ensures
            final(self).viewing_tab == old(self).viewing_tab,
            old(self).is_running ==> {
                &&& !final(self).is_running
                &&& final(self).executing_operator is None
                &&& stopped == old(self).executing_operator
                &&& exists|m: LogModel|
                    error_of(m, "Stopped process"@) && added_message(
                        *old(console_log),
                        *final(console_log),
                        m,
                    )
            },
            !old(self).is_running ==> stopped is None && match first_starter(operators@) {
                Some(i) => {
                    &&& final(self).is_running
                    &&& final(self).executing_operator == Some(operators@[i].0)
                    &&& final(console_log).last_key_count == old(console_log).last_key_count + 1
                    &&& exists|m: LogModel|
                        success_of(m, "Started process"@) && final(console_log).sessions()
                            == old(console_log).sessions().insert(
                            final(console_log).last_key_count,
                            seq![m],
                        )
                },
                None => {
                    &&& final(self).is_running == old(self).is_running
                    &&& final(self).executing_operator == old(self).executing_operator
                    &&& old(self).executing_operator is None ==> exists|m: LogModel|
                        error_of(m, "You need connected operators to start the process"@)
                            && added_message(*old(console_log), *final(console_log), m)
                    &&& old(self).executing_operator is Some ==> *final(console_log) == *old(
                        console_log,
                    )
                },
            },
    {
        if self.is_running {
            self.handle_stop_running_process(console_log)
        } else {
            self.handle_start_running_process(console_log, operators);
            None
        }
    }

    /// The label and style of the run button: "Stop" while running, "Run"
    /// otherwise.
    pub fn run_button_style(&self) -> (s: RunButtonStyle)
        ensures
            self.is_running ==> s.text@ == "Stop"@ && s.class@ == "is-danger"@,
            !self.is_running ==> s.text@ == "Run"@ && s.class@ == "is-success"@,
    {
        if self.is_running {
            RunButtonStyle { text: "Stop", class: "is-danger" }
        } else {
            RunButtonStyle { text: "Run", class: "is-success" }
        }
    }

    /// How the tabs look for the tab being viewed: its button is
    /// highlighted and its page shown on top; the other page is hidden.
    pub fn tab_layout(&self) -> (l: TabLayout)
        ensures
            self.viewing_tab == ViewingTab::Design ==> l.design_shown && l.design_class@
                == "is-primary-dark"@ && l.result_class@ == "is-light"@,
            self.viewing_tab == ViewingTab::Result ==> !l.design_shown && l.design_class@
                == "is-light"@ && l.result_class@ == "is-primary-dark"@,
    {
        match self.viewing_tab {
            ViewingTab::Design => TabLayout {
                design_class: "is-primary-dark",
                result_class: "is-light",
                design_shown: true,
            },
            ViewingTab::Result => TabLayout {
                design_class: "is-light",
                result_class: "is-primary-dark",
                design_shown: false,
            },
        }
    }
}

/// Position of the first operator that starts a chain.
pub open spec fn first_starter(ops: Seq<(u64, bool)>) -> Option<int> {
    if exists|i: int| 0 <= i < ops.len() && #[trigger] ops[i].1 {
        Some(choose|i: int| 0 <= i < ops.len() && #[trigger] ops[i].1 && forall|j: int| 0 <= j < i ==> !ops[j].1)
    } else {
        None
    }
}

proof fn lemma_first_starter(ops: Seq<(u64, bool)>, i: int)
    requires
        0 <= i < ops.len(),
        ops[i].1,
        forall|j: int| 0 <= j < i ==> !ops[j].1,
    ensures
        first_starter(ops) == Some(i),
{
    assert(exists|k: int| 0 <= k < ops.len() && #[trigger] ops[k].1 && forall|j: int| 0 <= j < k ==> !ops[j].1);
    let k = choose|k: int| 0 <= k < ops.len() && #[trigger] ops[k].1 && forall|j: int| 0 <= j < k ==> !ops[j].1;
    if k < i {
        assert(!ops[k].1);
    } else if k > i {
        assert(!ops[i].1);
    }
}

spec fn final_sessions_ok(before: ConsoleLog, after: ConsoleLog, m: LogModel, k: usize) -> bool {
    &&& after.last_key_count == k
    &&& after.sessions() == before.sessions().insert(k, seq![m])
}

/// The events that background tasks send back.
#[derive(Debug)]
pub enum TaskChannelEvent {
    LogMessage(LogType),
    SetTestData(DataValue),
    UpdatePreReadContentAfterSelectAttributes(DataValue),
    Empty,
}

/// The test rows set aside by "Train & Test split".
#[derive(Debug)]
pub struct TestSet(pub Option<DataValue>);

impl Default for TestSet {
    fn default() -> (t: Self)
        ensures
            t.0 is None,
    {
        TestSet(None)
    }
}

/// Handles one event from a background task: a log message goes to the
/// console, and test data that is a table becomes the test set; other
/// events change nothing.
pub fn handle_task_event(event: TaskChannelEvent, console_log: &mut ConsoleLog, test_set: &mut TestSet)
    ensures
        match event {
            TaskChannelEvent::LogMessage(l) => added_message(*old(console_log), *final(console_log), l@)
                && *final(test_set) == *old(test_set),
            TaskChannelEvent::SetTestData(d) => *final(console_log) == *old(console_log) && if d@ is Table {
                final(test_set).0 matches Some(t) && t@ == d@
            } else {
                *final(test_set) == *old(test_set)
            },
            _ => *final(console_log) == *old(console_log) && *final(test_set) == *old(test_set),
        },
{
    match event {
        TaskChannelEvent::LogMessage(l) => console_log.new_message(l),
        TaskChannelEvent::SetTestData(data) => {
            if data.is_table() {
                test_set.0 = Some(data);
            }
        },
        _ => {},
    }
}

/// The table read ahead of a run from the file picked for "Read CSV", whose
/// columns the property panel offers.
#[derive(Debug)]
pub struct PreReadCsvOrExcelContent(pub DataValue);

impl Default for PreReadCsvOrExcelContent {
    fn default() -> (c: Self)
        ensures
            c.0@ is Empty,
    {
        PreReadCsvOrExcelContent(DataValue::Empty)
    }
}

impl PreReadCsvOrExcelContent {
    pub fn get(&self) -> (d: &DataValue)
        ensures
            *d == self.0,
    {
        &self.0
    }

    /// A read-ahead result came in. A table is kept, and the answer is
    /// `true` (the reader is done, and the properties that list columns are
    /// refreshed); anything else is passed over.
    pub fn accept(&mut self, result: DataValue) -> (kept: bool)
        ensures
            kept == (result@ is Table),
            kept ==> final(self).0@ == result@,
            !kept ==> final(self).0@ == old(self).0@,
    {
        if result.is_table() {
            self.0 = result;
            true
        } else {
            false
        }
    }
}

/// The entity of the root of the design page.
#[derive(Debug)]
pub struct DesignPageRootEntity(pub Option<u64>);

/// The entity of the root of the result page.
#[derive(Debug)]
pub struct ResultPageRootEntity(pub Option<u64>);

impl DesignPageRootEntity {
    pub fn get(&self) -> (e: &Option<u64>)
        ensures
            *e == self.0,
    {
        &self.0
    }
}

impl ResultPageRootEntity {
    pub fn get(&self) -> (e: &Option<u64>)
        ensures
            *e == self.0,
    {
        &self.0
    }
}

} // verus!
