//! The console log: messages in sessions, a new session for each run of the
//! pipeline, and log lines stamped with the wall-clock time.

use vstd::prelude::*;
use std::collections::HashMap;

verus! {

broadcast use {vstd::std_specs::hash::group_hash_axioms, vstd::std_specs::vec::group_vec_axioms};

/// A console message, by how it is shown.
#[derive(Debug)]
pub enum LogType {
    Normal(String),
    Success(String),
    Error(String),
}

pub enum LogModel {
    Normal(Seq<char>),
    Success(Seq<char>),
    Error(Seq<char>),
}

impl View for LogType {
    type V = LogModel;

    open spec fn view(&self) -> LogModel {
        match self {
            LogType::Normal(s) => LogModel::Normal(s@),
            LogType::Success(s) => LogModel::Success(s@),
            LogType::Error(s) => LogModel::Error(s@),
        }
    }
}

impl Default for LogType {
    fn default() -> (r: Self)
        ensures
            r@ == LogModel::Normal(Seq::empty()),
    {
        LogType::Normal(String::new())
    }
}

/// `t` has the shape of a clock time "HH:MM:SS".
pub open spec fn clock_shape(t: Seq<char>) -> bool {
    &&& t.len() == 8
    &&& t[2] == ':' && t[5] == ':'
    &&& forall|i: int| 0 <= i < 8 && i != 2 && i != 5 ==> '0' <= #[trigger] t[i] <= '9'
}

/// `m` is `msg` stamped with a clock time: "[LOG][HH:MM:SS] " then `msg`.
pub open spec fn stamped(m: Seq<char>, msg: Seq<char>) -> bool {
    &&& m.len() == 16 + msg.len()
    &&& m.subrange(0, 6) == "[LOG]["@
    &&& clock_shape(m.subrange(6, 14))
    &&& m.subrange(14, 16) == "] "@
    &&& m.subrange(16, m.len() as int) == msg
}

/// `chrono::Local::now().format("%H:%M:%S")`: the local wall-clock time as
/// "HH:MM:SS", each field zero-padded to two digits. Which time it is, is
/// not stated.
#[verifier::external_body]
fn clock_time() -> (t: String)
    ensures
        clock_shape(t@),
{
    chrono::Local::now().format("%H:%M:%S").to_string()
}

/// The log line for `msg` stamped with the clock time `time`.
pub fn stamp_log_line(time: &str, msg: &str) -> (r: String)
    ensures
        r@ == "[LOG]["@ + time@ + "] "@ + msg@,
{
    String::from_str("[LOG][").concat(time).concat("] ").concat(msg)
}

/// A log line: "[LOG][HH:MM:SS] " followed by `msg`, stamped with the
/// current local time.
pub fn create_log_with_timestamp(msg: &str) -> (r: String)
    ensures
        stamped(r@, msg@),
{
    proof {
        reveal_strlit("[LOG][");
        reveal_strlit("] ");
    }
    let t = clock_time();
    let r = stamp_log_line(t.as_str(), msg);
    assert(r@.subrange(0, 6) =~= "[LOG]["@);
    assert(r@.subrange(6, 14) =~= t@);
    assert(r@.subrange(14, 16) =~= "] "@);
    assert(r@.subrange(16, r@.len() as int) =~= msg@);
    r
}

/// A normal console message stamped with the current time.
pub fn log_normal(msg: &str) -> (r: LogType)
    ensures
        r@ matches LogModel::Normal(s) && stamped(s, msg@),
{
    LogType::Normal(create_log_with_timestamp(msg))
}

/// A success console message stamped with the current time.
pub fn log_success(msg: &str) -> (r: LogType)
    ensures
        r@ matches LogModel::Success(s) && stamped(s, msg@),
{
    LogType::Success(create_log_with_timestamp(msg))
}

/// An error console message stamped with the current time.
pub fn log_error(msg: &str) -> (r: LogType)
    ensures
        r@ matches LogModel::Error(s) && stamped(s, msg@),
{
    LogType::Error(create_log_with_timestamp(msg))
}

/// Console messages grouped in sessions. Each run of the pipeline opens a
/// new session under the next key; messages go to the session under
/// `last_key_count`.
#[derive(Debug)]
pub struct ConsoleLog {
    pub messages: HashMap<usize, Vec<LogType>>,
    pub last_key_count: usize,
}

pub open spec fn log_seq(v: Vec<LogType>) -> Seq<LogModel> {
    Seq::new(v@.len(), |i: int| v@[i]@)
}

/// `after` is `before` with `m` added at the end of the current session
/// (or unchanged, when there is no current session).
pub open spec fn added_message(before: ConsoleLog, after: ConsoleLog, m: LogModel) -> bool {
    &&& after.last_key_count == before.last_key_count
    &&& before.wf() ==> after.sessions() == before.sessions().insert(
        before.last_key_count,
        before.sessions()[before.last_key_count].push(m),
    )
    &&& !before.wf() ==> after.sessions() == before.sessions()
}

impl ConsoleLog {
    /// The sessions, each as the sequence of its messages.
    pub open spec fn sessions(&self) -> Map<usize, Seq<LogModel>> {
        Map::new(|k: usize| self.messages@.contains_key(k), |k: usize| log_seq(self.messages@[k]))
    }

    /// The current session exists.
    pub open spec fn wf(&self) -> bool {
        self.sessions().contains_key(self.last_key_count)
    }

    /// Opens a new session under the next key, empty, and makes it the
    /// current one.
    pub fn new_session(&mut self)
        requires
            old(self).last_key_count < usize::MAX,
        ensures
            final(self).last_key_count == old(self).last_key_count + 1,
            final(self).sessions() == old(self).sessions().insert(
                final(self).last_key_count,
                Seq::empty(),
            ),
            final(self).wf(),
    {
        self.last_key_count = self.last_key_count + 1;
        let empty: Vec<LogType> = Vec::new();
        assert(log_seq(empty) =~= Seq::<LogModel>::empty());
        self.messages.insert(self.last_key_count, empty);
        proof {
            assert(self.sessions() =~= old(self).sessions().insert(self.last_key_count, Seq::empty()));
        }
    }

    /// Adds `log` at the end of the current session, when that session
    /// exists; otherwise nothing changes.
    pub fn new_message(&mut self, log: LogType)
        ensures
            added_message(*old(self), *final(self), log@),
            final(self).wf() == old(self).wf(),
    {
        let key = self.last_key_count;
        let ghost lv = log@;
        match self.messages.remove(&key) {
            Some(mut v) => {
                let ghost before = log_seq(v);
                v.push(log);
                proof {
                    assert(log_seq(v) =~= before.push(lv));
                }
                self.messages.insert(key, v);
                proof {
                    assert(self.sessions() =~= old(self).sessions().insert(
                        key,
                        old(self).sessions()[key].push(lv),
                    ));
                }
            },
            None => {
                proof {
                    assert(self.messages@ == old(self).messages@);
                }
            },
        }
    }

    /// The last message of the current session, if any (the one the console
    /// panel shows when the log changes).
    pub fn latest_message(&self) -> (r: Option<&LogType>)
        ensures
            match r {
                Some(m) => self.wf() && self.sessions()[self.last_key_count].len() > 0 && m@
                    == self.sessions()[self.last_key_count].last(),
                None => !self.wf() || self.sessions()[self.last_key_count].len() == 0,
            },
    {
        match self.messages.get(&self.last_key_count) {
            Some(v) => {
                if v.len() == 0 {
                    None
                } else {
                    Some(&v[v.len() - 1])
                }
            },
            None => None,
        }
    }
}

impl ConsoleLog {
    /// A log with one session, key 1, holding the normal message
    /// "[`time`] Application started".
    pub fn started_at(time: &str) -> (r: ConsoleLog)
        ensures
            r.last_key_count == 1,
            r.sessions().dom() == set![1usize],
            r.sessions()[1usize] == seq![LogModel::Normal("["@ + time@ + "] Application started"@)],
    {
        let mut messages: HashMap<usize, Vec<LogType>> = HashMap::new();
        let last_key_count: usize = 1;
        let log = String::from_str("[").concat(time).concat("] Application started");
        let mut first: Vec<LogType> = Vec::new();
        first.push(LogType::Normal(log));
        assert(log_seq(first) =~= seq![LogModel::Normal("["@ + time@ + "] Application started"@)]);
        messages.insert(last_key_count, first);
        let r = ConsoleLog { messages, last_key_count };
        assert(r.sessions().dom() =~= set![1usize]);
        r
    }
}

impl Default for ConsoleLog {
    /// A log with one session, key 1, holding the message
    /// "[HH:MM:SS] Application started" stamped with the current local time.
    fn default() -> (r: Self)
        ensures
            r.last_key_count == 1,
            r.sessions().dom() == set![1usize],
            r.sessions()[1usize].len() == 1,
            r.sessions()[1usize][0] matches LogModel::Normal(s) && s.len() == 30 && s[0] == '['
                && clock_shape(s.subrange(1, 9)) && s.subrange(9, 30) == "] Application started"@,
    {
        proof {
            reveal_strlit("[");
            reveal_strlit("] Application started");
        }
        let t = clock_time();
        let r = ConsoleLog::started_at(t.as_str());
        proof {
            let s = "["@ + t@ + "] Application started"@;
            assert(s.subrange(1, 9) =~= t@);
            assert(s.subrange(9, 30) =~= "] Application started"@);
        }
        r
    }
}

} // verus!
