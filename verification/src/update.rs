//! The audit record of one executed operation: created when the operation
//! starts, extended by log segments, finalized once, and fixed from then on.

use vstd::prelude::*;

verus! {

/// One segment of an update's log: a stage of the operation with what it
/// printed and whether it succeeded.
#[derive(Clone, Debug, PartialEq, Eq)]
pub struct Log {
    pub stage: String,
    pub command: String,
    pub stdout: String,
    pub stderr: String,
    pub success: bool,
    pub start_ts: i64,
    pub end_ts: i64,
}

/// A log segment as a mathematical value.
pub struct LogView {
    pub stage: Seq<char>,
    pub command: Seq<char>,
    pub stdout: Seq<char>,
    pub stderr: Seq<char>,
    pub success: bool,
    pub start_ts: i64,
    pub end_ts: i64,
}

impl View for Log {
    type V = LogView;

    open spec fn view(&self) -> LogView {
        LogView {
            stage: self.stage@,
            command: self.command@,
            stdout: self.stdout@,
            stderr: self.stderr@,
            success: self.success,
            start_ts: self.start_ts,
            end_ts: self.end_ts,
        }
    }
}

/// The segment that [`Log::simple`] builds.
pub open spec fn simple_log(stage: Seq<char>, message: Seq<char>, now: i64) -> LogView {
    LogView {
        stage,
        command: Seq::empty(),
        stdout: message,
        stderr: Seq::empty(),
        success: true,
        start_ts: now,
        end_ts: now,
    }
}

/// The segment that [`Log::error`] builds.
pub open spec fn error_log(stage: Seq<char>, message: Seq<char>, now: i64) -> LogView {
    LogView {
        stage,
        command: Seq::empty(),
        stdout: Seq::empty(),
        stderr: message,
        success: false,
        start_ts: now,
        end_ts: now,
    }
}

impl Log {
    /// A successful segment that carries a message and took no time.
    pub fn simple(stage: &str, message: String, now: i64) -> (log: Log)
        ensures
            log@ == simple_log(stage@, message@, now),
    {
        Log {
            stage: stage.to_owned(),
            command: String::new(),
            stdout: message,
            stderr: String::new(),
            success: true,
            start_ts: now,
            end_ts: now,
        }
    }

    /// A failed segment that carries the failure's message.
    pub fn error(stage: &str, message: String, now: i64) -> (log: Log)
        ensures
            log@ == error_log(stage@, message@, now),
    {
        Log {
            stage: stage.to_owned(),
            command: String::new(),
            stdout: String::new(),
            stderr: message,
            success: false,
            start_ts: now,
            end_ts: now,
        }
    }

    /// A copy of the segment.
    pub fn duplicate(&self) -> (log: Log)
        ensures
            log@ == self@,
    {
        Log {
            stage: self.stage.clone(),
            command: self.command.clone(),
            stdout: self.stdout.clone(),
            stderr: self.stderr.clone(),
            success: self.success,
            start_ts: self.start_ts,
            end_ts: self.end_ts,
        }
    }
}

/// The views of a sequence of segments.
pub open spec fn log_views(logs: Seq<Log>) -> Seq<LogView> {
    logs.map_values(|log: Log| log@)
}

/// Whether every segment succeeded.
pub open spec fn all_success(logs: Seq<LogView>) -> bool {
    forall|i: int| 0 <= i < logs.len() ==> (#[trigger] logs[i]).success
}

/// Whether every segment succeeded.
pub fn all_logs_success(logs: &Vec<Log>) -> (success: bool)
    ensures
        success == all_success(log_views(logs@)),
{
    let mut i: usize = 0;
    while i < logs.len()
        invariant
            i <= logs@.len(),
            forall|k: int| 0 <= k < i ==> (#[trigger] log_views(logs@)[k]).success,
        decreases logs@.len() - i,
    {
        if !logs[i].success {
            assert(!log_views(logs@)[i as int].success);
            return false;
        }
        i += 1;
    }
    true
}

/// A copy of a sequence of segments.
pub fn duplicate_logs(logs: &Vec<Log>) -> (copy: Vec<Log>)
    ensures
        log_views(copy@) == log_views(logs@),
{
    let mut copy: Vec<Log> = Vec::new();
    let mut i: usize = 0;
    while i < logs.len()
        invariant
            i <= logs@.len(),
            copy@.len() == i,
            forall|k: int| 0 <= k < i ==> (#[trigger] copy@[k])@ == logs@[k]@,
        decreases logs@.len() - i,
    {
        copy.push(logs[i].duplicate());
        i += 1;
    }
    assert(log_views(copy@) =~= log_views(logs@));
    copy
}

/// The kinds of operation an update can record.
#[derive(Clone, Copy, Debug, PartialEq, Eq, Structural)]
pub enum Operation {
    StartStack,
    RestartStack,
    PauseStack,
    UnpauseStack,
    StopStack,
    DestroyStack,
}

/// How far the recorded operation has come.
#[derive(Clone, Copy, Debug, PartialEq, Eq, Structural)]
pub enum UpdateStatus {
    Queued,
    InProgress,
    Complete,
}

/// The audit record of one operation on one stack.
#[derive(Debug)]
pub struct Update {
    operation: Operation,
    target: String,
    operator: String,
    start_ts: i64,
    end_ts: Option<i64>,
    success: bool,
    status: UpdateStatus,
    logs: Vec<Log>,
}

/// An update as a mathematical value.
pub struct UpdateView {
    pub operation: Operation,
    pub target: Seq<char>,
    pub operator: Seq<char>,
    pub start_ts: i64,
    pub end_ts: Option<i64>,
    pub success: bool,
    pub status: UpdateStatus,
    pub logs: Seq<LogView>,
}

impl UpdateView {
    /// An update is finalized when its status is `Complete`.
    pub open spec fn finalized(self) -> bool {
        self.status == UpdateStatus::Complete
    }

    /// The update with one more segment; a finalized update stays as it is.
    pub open spec fn with_log(self, log: LogView) -> UpdateView {
        if self.finalized() {
            self
        } else {
            UpdateView { logs: self.logs.push(log), ..self }
        }
    }

    /// The update after it was finalized at `now`: the end time is set, the
    /// status is `Complete`, and the operation succeeded if every segment
    /// did. A finalized update stays as it is.
    pub open spec fn finalized_at(self, now: i64) -> UpdateView {
        if self.finalized() {
            self
        } else {
            UpdateView {
                end_ts: Some(now),
                success: all_success(self.logs),
                status: UpdateStatus::Complete,
                ..self
            }
        }
    }

    /// A finalized update has an end time, and an update in progress has
    /// none and is not yet marked successful.
    pub open spec fn consistent(self) -> bool {
        &&& self.finalized() <==> self.end_ts is Some
        &&& self.finalized() ==> self.success == all_success(self.logs)
        &&& !self.finalized() ==> !self.success
    }
}

/// The update that [`Update::new`] builds.
pub open spec fn started_update(
    operation: Operation,
    target: Seq<char>,
    operator: Seq<char>,
    now: i64,
) -> UpdateView {
    UpdateView {
        operation,
        target,
        operator,
        start_ts: now,
        end_ts: None,
        success: false,
        status: UpdateStatus::InProgress,
        logs: Seq::empty(),
    }
}

impl View for Update {
    type V = UpdateView;

    closed spec fn view(&self) -> UpdateView {
        UpdateView {
            operation: self.operation,
            target: self.target@,
            operator: self.operator@,
            start_ts: self.start_ts,
            end_ts: self.end_ts,
            success: self.success,
            status: self.status,
            logs: log_views(self.logs@),
        }
    }
}

impl Update {
    /// The record of an operation that starts at `now`: in progress, with
    /// no segment yet.
    pub fn new(operation: Operation, target: &str, operator: &str, now: i64) -> (update: Update)
        ensures
            update@ == started_update(operation, target@, operator@, now),
            update@.consistent(),
    {
        let update = Update {
            operation,
            target: target.to_owned(),
            operator: operator.to_owned(),
            start_ts: now,
            end_ts: None,
            success: false,
            status: UpdateStatus::InProgress,
            logs: Vec::new(),
        };
        assert(update@.logs =~= Seq::empty());
        update
    }

    /// Appends a segment, and says whether it did: a finalized update
    /// takes no more segments.
    pub fn push_log(&mut self, log: Log) -> (appended: bool)
        requires
            old(self)@.consistent(),
        ensures
            final(self)@ == old(self)@.with_log(log@),
            final(self)@.consistent(),
            appended == !old(self)@.finalized(),
    {
        match self.status {
            UpdateStatus::Complete => false,
            _ => {
                self.logs.push(log);
                assert(log_views(self.logs@) =~= log_views(old(self).logs@).push(log@));
                true
            },
        }
    }

    /// Finalizes the update at `now`. Finalizing a second time changes
    /// nothing.
    pub fn finalize(&mut self, now: i64)
        requires
            old(self)@.consistent(),
        ensures
            final(self)@ == old(self)@.finalized_at(now),
            final(self)@.consistent(),
            final(self)@.finalized(),
    {
        match self.status {
            UpdateStatus::Complete => {},
            _ => {
                self.success = all_logs_success(&self.logs);
                self.end_ts = Some(now);
                self.status = UpdateStatus::Complete;
            },
        }
    }

    /// A copy of the update as it stands.
    pub fn duplicate(&self) -> (copy: Update)
        ensures
            copy@ == self@,
    {
        Update {
            operation: self.operation,
            target: self.target.clone(),
            operator: self.operator.clone(),
            start_ts: self.start_ts,
            end_ts: self.end_ts,
            success: self.success,
            status: self.status,
            logs: duplicate_logs(&self.logs),
        }
    }

    /// Whether the update is finalized.
    pub fn is_finalized(&self) -> (finalized: bool)
        ensures
            finalized == self@.finalized(),
    {
        match self.status {
            UpdateStatus::Complete => true,
            _ => false,
        }
    }

    /// The kind of operation recorded.
    pub fn operation(&self) -> (operation: Operation)
        ensures
            operation == self@.operation,
    {
        self.operation
    }

    /// The id of the stack operated on.
    pub fn target(&self) -> (target: &String)
        ensures
            target@ == self@.target,
    {
        &self.target
    }

    /// The id of the user who asked for the operation.
    pub fn operator(&self) -> (operator: &String)
        ensures
            operator@ == self@.operator,
    {
        &self.operator
    }

    /// When the operation started.
    pub fn start_ts(&self) -> (ts: i64)
        ensures
            ts == self@.start_ts,
    {
        self.start_ts
    }

    /// When the operation ended; absent until the update is finalized.
    pub fn end_ts(&self) -> (ts: Option<i64>)
        ensures
            ts == self@.end_ts,
    {
        self.end_ts
    }

    /// Whether the operation succeeded; `false` until the update is
    /// finalized.
    pub fn success(&self) -> (success: bool)
        ensures
            success == self@.success,
    {
        self.success
    }

    /// How far the operation has come.
    pub fn status(&self) -> (status: UpdateStatus)
        ensures
            status == self@.status,
    {
        self.status
    }

    /// The segments appended so far, oldest first.
    pub fn logs(&self) -> (logs: &Vec<Log>)
        ensures
            log_views(logs@) == self@.logs,
    {
        &self.logs
    }
}

} // verus!
