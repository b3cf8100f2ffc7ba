//! The execution record of one command: an append-only list of log entries
//! that is sealed once, when the command ends.

use vstd::prelude::*;
use vstd::string::StringExecFns;

verus! {

/// How far an execution record has come.
#[derive(Clone, Copy, Debug, PartialEq, Eq, Structural)]
pub enum UpdateStatus {
    /// Created, nothing has run yet.
    Queued,
    /// The command is running.
    InProgress,
    /// Sealed: outcome and end time are recorded.
    Complete,
}

/// The command that an execution record belongs to.
#[derive(Clone, Copy, Debug, PartialEq, Eq, Structural)]
pub enum Operation {
    DeployStack,
    PullStack,
    StartStack,
    RestartStack,
    PauseStack,
    UnpauseStack,
    StopStack,
    DestroyStack,
}

/// One labelled entry of an execution record.
#[derive(Debug, PartialEq, Eq)]
pub struct Log {
    /// The label of the step that wrote the entry.
    pub stage: String,
    pub command: String,
    pub stdout: String,
    pub stderr: String,
    pub success: bool,
    pub start_ts: i64,
    pub end_ts: i64,
}

/// Mathematical view of [`Log`].
pub struct LogView {
    pub stage: Seq<char>,
    pub command: Seq<char>,
    pub stdout: Seq<char>,
    pub stderr: Seq<char>,
    pub success: bool,
    pub start_ts: i64,
    pub end_ts: i64,
}

impl DeepView for Log {
    type V = LogView;

    open spec fn deep_view(&self) -> LogView {
        LogView {
            stage: self.stage@,
            command: self.command@,
            stdout: self.stdout@,
            stderr: self.stderr@,
            success: self.success,
            start_ts: self.start_ts,
            end_ts: self.end_ts,
        }
    }
}

impl View for Log {
    type V = LogView;

    open spec fn view(&self) -> LogView {
        self.deep_view()
    }
}

impl Clone for Log {
    fn clone(&self) -> (res: Self)
        ensures
            res@ == self@,
    {
        Log {
            stage: self.stage.clone(),
            command: self.command.clone(),
            stdout: self.stdout.clone(),
            stderr: self.stderr.clone(),
            success: self.success,
            start_ts: self.start_ts,
            end_ts: self.end_ts,
        }
    }
}

/// The execution record of one command.
#[derive(Debug, PartialEq, Eq)]
pub struct Update {
    pub id: String,
    pub operation: Operation,
    /// The resource the command is aimed at.
    pub target: String,
    /// The principal that asked for the command.
    pub operator: String,
    pub start_ts: i64,
    /// Whether every entry succeeded; recorded when the record is sealed.
    pub success: bool,
    pub logs: Vec<Log>,
    pub end_ts: Option<i64>,
    pub status: UpdateStatus,
}

/// Mathematical view of [`Update`].
pub struct UpdateView {
    pub id: Seq<char>,
    pub operation: Operation,
    pub target: Seq<char>,
    pub operator: Seq<char>,
    pub start_ts: i64,
    pub success: bool,
    pub logs: Seq<LogView>,
    pub end_ts: Option<i64>,
    pub status: UpdateStatus,
}

impl DeepView for Update {
    type V = UpdateView;

    open spec fn deep_view(&self) -> UpdateView {
        UpdateView {
            id: self.id@,
            operation: self.operation,
            target: self.target@,
            operator: self.operator@,
            start_ts: self.start_ts,
            success: self.success,
            logs: self.logs.deep_view(),
            end_ts: self.end_ts.deep_view(),
            status: self.status,
        }
    }
}

impl View for Update {
    type V = UpdateView;

    open spec fn view(&self) -> UpdateView {
        self.deep_view()
    }
}

impl Clone for Update {
    fn clone(&self) -> (res: Self)
        ensures
            res@ == self@,
    {
        let logs = self.logs.clone();
        assert(logs.deep_view() =~= self.logs.deep_view());
        Update {
            id: self.id.clone(),
            operation: self.operation,
            target: self.target.clone(),
            operator: self.operator.clone(),
            start_ts: self.start_ts,
            success: self.success,
            logs,
            end_ts: self.end_ts.clone(),
            status: self.status,
        }
    }
}

impl LogView {
    /// An informational entry written at `now`.
    pub open spec fn simple(stage: Seq<char>, msg: Seq<char>, now: i64) -> LogView {
        LogView {
            stage,
            command: Seq::empty(),
            stdout: msg,
            stderr: Seq::empty(),
            success: true,
            start_ts: now,
            end_ts: now,
        }
    }

    /// An entry that records a failure at `now`.
    pub open spec fn error(stage: Seq<char>, msg: Seq<char>, now: i64) -> LogView {
        LogView {
            stage,
            command: Seq::empty(),
            stdout: Seq::empty(),
            stderr: msg,
            success: false,
            start_ts: now,
            end_ts: now,
        }
    }
}

/// Every entry succeeded.
pub open spec fn all_logs_success(logs: Seq<LogView>) -> bool {
    forall|i: int| 0 <= i < logs.len() ==> (#[trigger] logs[i]).success
}

impl UpdateView {
    /// The record with one more entry at its end.
    pub open spec fn push_log(self, log: LogView) -> UpdateView {
        UpdateView { logs: self.logs.push(log), ..self }
    }

    /// The record with the entries of `more` at its end.
    pub open spec fn extend_logs(self, more: Seq<LogView>) -> UpdateView {
        UpdateView { logs: self.logs + more, ..self }
    }

    /// The record sealed at `now`.
    pub open spec fn finalize(self, now: i64) -> UpdateView {
        UpdateView {
            success: all_logs_success(self.logs),
            end_ts: Some(now),
            status: UpdateStatus::Complete,
            ..self
        }
    }

    /// The record is sealed.
    pub open spec fn is_finalized(self) -> bool {
        self.status == UpdateStatus::Complete
    }
}

impl Log {
    /// An informational entry written at `now`.
    pub fn simple(stage: &str, msg: String, now: i64) -> (log: Log)
        ensures
            log@ == LogView::simple(stage@, msg@, now),
    {
        Log {
            stage: String::from_str(stage),
            command: String::new(),
            stdout: msg,
            stderr: String::new(),
            success: true,
            start_ts: now,
            end_ts: now,
        }
    }

    /// An entry that records a failure at `now`.
    pub fn error(stage: &str, msg: String, now: i64) -> (log: Log)
        ensures
            log@ == LogView::error(stage@, msg@, now),
    {
        Log {
            stage: String::from_str(stage),
            command: String::new(),
            stdout: String::new(),
            stderr: msg,
            success: false,
            start_ts: now,
            end_ts: now,
        }
    }
}

/// Tells whether every entry succeeded.
pub fn logs_succeeded(logs: &Vec<Log>) -> (res: bool)
    ensures
        res == all_logs_success(logs.deep_view()),
{
    let mut i: usize = 0;
    while i < logs.len()
        invariant
            i <= logs.len(),
            forall|j: int| 0 <= j < i ==> (#[trigger] logs.deep_view()[j]).success,
        decreases logs.len() - i,
    {
        if !logs[i].success {
            assert(!logs.deep_view()[i as int].success);
            return false;
        }
        i += 1;
    }
    true
}

impl Update {
    /// A fresh record for `operation` on `target`, created at `now`.
    pub fn new(operation: Operation, target: String, operator: String, now: i64) -> (update: Update)
        ensures
            update@ == (UpdateView {
                id: Seq::empty(),
                operation,
                target: target@,
                operator: operator@,
                start_ts: now,
                success: false,
                logs: Seq::empty(),
                end_ts: None,
                status: UpdateStatus::Queued,
            }),
    {
        let update = Update {
            id: String::new(),
            operation,
            target,
            operator,
            start_ts: now,
            success: false,
            logs: Vec::new(),
            end_ts: None,
            status: UpdateStatus::Queued,
        };
        assert(update.logs.deep_view() =~= Seq::empty());
        update
    }

    /// Appends one entry.
    pub fn push_log(&mut self, log: Log)
        ensures
            final(self)@ == old(self)@.push_log(log@),
    {
        self.logs.push(log);
        assert(self.logs.deep_view() =~= old(self).logs.deep_view().push(log@));
    }

    /// Appends an informational entry written at `now`.
    pub fn push_simple_log(&mut self, stage: &str, msg: String, now: i64)
        ensures
            final(self)@ == old(self)@.push_log(LogView::simple(stage@, msg@, now)),
    {
        self.push_log(Log::simple(stage, msg, now));
    }

    /// Appends an entry that records a failure at `now`.
    pub fn push_error_log(&mut self, stage: &str, msg: String, now: i64)
        ensures
            final(self)@ == old(self)@.push_log(LogView::error(stage@, msg@, now)),
    {
        self.push_log(Log::error(stage, msg, now));
    }

    /// Appends the entries of `more`, in their order.
    pub fn extend_logs(&mut self, more: Vec<Log>)
        ensures
            final(self)@ == old(self)@.extend_logs(more.deep_view()),
    {
        let mut more = more;
        let ghost added = more.deep_view();
        self.logs.append(&mut more);
        assert(self.logs.deep_view() =~= old(self).logs.deep_view() + added);
    }

    /// Seals the record at `now`: the outcome is that of its entries.
    pub fn finalize(&mut self, now: i64)
        ensures
            final(self)@ == old(self)@.finalize(now),
    {
        self.success = logs_succeeded(&self.logs);
        self.end_ts = Some(now);
        self.status = UpdateStatus::Complete;
    }

    /// Tells whether the record is sealed.
    pub fn is_finalized(&self) -> (res: bool)
        ensures
            res == self@.is_finalized(),
    {
        self.status == UpdateStatus::Complete
    }
}

} // verus!
