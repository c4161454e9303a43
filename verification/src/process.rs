//! One schedulable process, its lifecycle state and its metrics.

use crate::decimal::{decimal_i32, parse_i32};
use vstd::prelude::*;
use vstd::string::StringExecFns;

verus! {

/// The state of a process that takes part in scheduling. A process that has
/// not arrived yet, or has finished, has no state.
#[derive(PartialEq, Eq, Structural, Clone, Copy, Debug)]
pub enum ProcessState {
    Ready,
    Running,
}

/// The mathematical model of a [`Process`]: the same fields over unbounded
/// integers, with the per-tick transitions as spec functions.
pub struct ProcessView {
    pub name: Seq<char>,
    pub arrival_time: int,
    pub burst_time: int,
    pub time_remaining: int,
    pub state: Option<ProcessState>,
    pub turnaround_time: int,
    pub response_time: int,
    pub wait_time: int,
    pub finish_time: int,
    pub last_selection_time: Option<int>,
}

impl ProcessView {
    /// A process as it is created: nothing executed yet, inactive, every
    /// metric at zero.
    pub open spec fn fresh(name: Seq<char>, arrival_time: int, burst_time: int) -> ProcessView {
        ProcessView {
            name,
            arrival_time,
            burst_time,
            time_remaining: burst_time,
            state: None,
            turnaround_time: 0,
            response_time: 0,
            wait_time: 0,
            finish_time: 0,
            last_selection_time: None,
        }
    }

    /// No execution time is left.
    pub open spec fn finished(self) -> bool {
        self.time_remaining == 0
    }

    /// The process is eligible to run at `time`.
    pub open spec fn arrived(self, time: int) -> bool {
        self.arrival_time <= time
    }

    /// The process has never executed.
    pub open spec fn never_ran(self) -> bool {
        self.time_remaining == self.burst_time
    }

    /// The process is made the running one at `cur_time`.
    pub open spec fn select(self, cur_time: int) -> ProcessView {
        ProcessView {
            state: Some(ProcessState::Running),
            last_selection_time: Some(cur_time),
            ..self
        }
    }

    /// The process is put back among the ready ones, unless it has finished.
    pub open spec fn deselect(self) -> ProcessView {
        if self.finished() {
            self
        } else {
            ProcessView { state: Some(ProcessState::Ready), ..self }
        }
    }

    /// One unit of simulated time passes, at clock value `cur_time`.
    ///
    /// - inactive: nothing changes;
    /// - ready: one more tick of turnaround and of waiting, and of response
    ///   time while the process has never executed;
    /// - running: one more tick of turnaround and one tick less remaining;
    ///   with the last tick the process becomes inactive and `cur_time` is
    ///   its finish time.
    pub open spec fn tick(self, cur_time: int) -> ProcessView {
        match self.state {
            None => self,
            Some(ProcessState::Ready) => ProcessView {
                turnaround_time: self.turnaround_time + 1,
                wait_time: self.wait_time + 1,
                response_time: if self.never_ran() {
                    self.response_time + 1
                } else {
                    self.response_time
                },
                ..self
            },
            Some(ProcessState::Running) => if self.time_remaining == 1 {
                ProcessView {
                    turnaround_time: self.turnaround_time + 1,
                    time_remaining: 0,
                    state: None,
                    finish_time: cur_time,
                    ..self
                }
            } else {
                ProcessView {
                    turnaround_time: self.turnaround_time + 1,
                    time_remaining: self.time_remaining - 1,
                    ..self
                }
            },
        }
    }

    /// The invariant of a process that is driven as intended: the remaining
    /// time lies between zero and the burst time, and a finished process is
    /// inactive.
    pub open spec fn wf(self) -> bool {
        &&& 0 <= self.time_remaining <= self.burst_time
        &&& self.finished() ==> self.state is None
    }

    /// Every integer of the model fits the machine type of its field.
    pub open spec fn fits(self) -> bool {
        &&& i32::MIN <= self.arrival_time <= i32::MAX
        &&& i32::MIN <= self.burst_time <= i32::MAX
        &&& i32::MIN <= self.time_remaining <= i32::MAX
        &&& i32::MIN <= self.turnaround_time <= i32::MAX
        &&& i32::MIN <= self.response_time <= i32::MAX
        &&& i32::MIN <= self.wait_time <= i32::MAX
        &&& i32::MIN <= self.finish_time <= i32::MAX
        &&& self.last_selection_time matches Some(t) ==> i32::MIN <= t <= i32::MAX
    }
}

/// One schedulable job with its accumulated metrics.
pub struct Process {
    /// Identifier; the library attaches no meaning to it.
    pub name: String,
    /// Tick at which the process becomes eligible to run.
    pub arrival_time: i32,
    /// Ticks of execution that the process needs in all.
    pub burst_time: i32,
    /// Ticks of execution still owed.
    pub time_remaining: i32,
    /// `None` before arrival and after finishing.
    pub state: Option<ProcessState>,
    /// Ticks spent ready or running.
    pub turnaround_time: i32,
    /// Ticks spent ready before the first execution.
    pub response_time: i32,
    /// Ticks spent ready.
    pub wait_time: i32,
    /// Clock value at which the last tick of execution was done; 0 until then.
    pub finish_time: i32,
    /// Clock value of the latest selection.
    pub last_selection_time: Option<i32>,
}

impl View for Process {
    type V = ProcessView;

    open spec fn view(&self) -> ProcessView {
        ProcessView {
            name: self.name@,
            arrival_time: self.arrival_time as int,
            burst_time: self.burst_time as int,
            time_remaining: self.time_remaining as int,
            state: self.state,
            turnaround_time: self.turnaround_time as int,
            response_time: self.response_time as int,
            wait_time: self.wait_time as int,
            finish_time: self.finish_time as int,
            last_selection_time: match self.last_selection_time {
                Some(t) => Some(t as int),
                None => None,
            },
        }
    }
}

impl Clone for Process {
    /// A copy that is equal to the process in every field.
    fn clone(&self) -> (copy: Process)
        ensures
            copy == *self,
    {
        Process {
            name: self.name.clone(),
            arrival_time: self.arrival_time,
            burst_time: self.burst_time,
            time_remaining: self.time_remaining,
            state: self.state,
            turnaround_time: self.turnaround_time,
            response_time: self.response_time,
            wait_time: self.wait_time,
            finish_time: self.finish_time,
            last_selection_time: self.last_selection_time,
        }
    }
}

/// Why a record could not be read.
#[derive(PartialEq, Eq, Structural, Clone, Copy, Debug)]
pub enum ParseError {
    /// The arrival or burst field is not a base-10 signed 32-bit integer.
    InvalidNumber,
}

/// The text of each token.
pub open spec fn token_texts(tokens: Seq<&str>) -> Seq<Seq<char>> {
    tokens.map_values(|t: &str| t@)
}

/// The value of the `k`-th field of a labelled record: the token behind the
/// `k`-th label, or the empty string where the record ends before it.
pub open spec fn field_value(tokens: Seq<Seq<char>>, k: int) -> Seq<char> {
    if 2 * k + 1 < tokens.len() {
        tokens[2 * k + 1]
    } else {
        Seq::empty()
    }
}

/// The value of the `k`-th field of a labelled record read as a number: 0
/// where the record ends before the field, else what its token denotes as a
/// base-10 signed 32-bit integer, and `None` where it denotes none.
pub open spec fn numeric_field(tokens: Seq<Seq<char>>, k: int) -> Option<int> {
    if 2 * k + 1 < tokens.len() {
        decimal_i32(tokens[2 * k + 1])
    } else {
        Some(0)
    }
}

/// The process that a labelled record `label name label arrival label burst`
/// describes. The labels are not looked at. A record that ends early is
/// tolerated: a missing name is empty and a missing number is 0. The record
/// is rejected exactly when its arrival or its burst token is present and is
/// not a base-10 signed 32-bit integer.
pub open spec fn parsed_record(tokens: Seq<Seq<char>>) -> Result<ProcessView, ParseError> {
    match (numeric_field(tokens, 1), numeric_field(tokens, 2)) {
        (Some(arrival), Some(burst)) => Ok(
            ProcessView::fresh(field_value(tokens, 0), arrival, burst),
        ),
        _ => Err(ParseError::InvalidNumber),
    }
}

/// A record is accepted exactly when each numeric token that it holds is a
/// base-10 signed 32-bit integer. One that ends before its arrival field
/// describes a process with arrival and burst time 0, and one that ends
/// before its name a process without a name.
pub proof fn lemma_record_accepted(tokens: Seq<Seq<char>>)
    ensures
        parsed_record(tokens) is Ok <==> (tokens.len() > 3 ==> decimal_i32(tokens[3]) is Some)
            && (tokens.len() > 5 ==> decimal_i32(tokens[5]) is Some),
        tokens.len() < 4 ==> parsed_record(tokens) == Ok::<ProcessView, ParseError>(
            ProcessView::fresh(field_value(tokens, 0), 0, 0),
        ),
        tokens.len() < 2 ==> parsed_record(tokens) == Ok::<ProcessView, ParseError>(
            ProcessView::fresh(Seq::empty(), 0, 0),
        ),
{
}

/// The `k`-th field of a record as text.
fn field_token<'a>(tokens: &[&'a str], k: usize) -> (token: &'a str)
    requires
        k <= 2,
    ensures
        token@ == field_value(token_texts(tokens@), k as int),
{
    let at: usize = 2 * k + 1;
    if at < tokens.len() {
        tokens[at]
    } else {
        let empty: &'a str = "";
        proof {
            reveal_strlit("");
        }
        assert(empty@ =~= Seq::<char>::empty());
        empty
    }
}

/// The `k`-th field of a record as a number.
fn numeric_token(tokens: &[&str], k: usize) -> (value: Option<i32>)
    requires
        k <= 2,
    ensures
        (match value {
            Some(v) => numeric_field(token_texts(tokens@), k as int) == Some(v as int),
            None => numeric_field(token_texts(tokens@), k as int) is None,
        }),
{
    let at: usize = 2 * k + 1;
    if at < tokens.len() {
        parse_i32(tokens[at])
    } else {
        Some(0)
    }
}

impl Process {
    /// Creates an inactive process that still owes its whole burst time.
    /// The values are taken as they are, negative ones too.
    pub fn new(name: String, arrival_time: i32, burst_time: i32) -> (p: Process)
        ensures
            p@ == ProcessView::fresh(name@, arrival_time as int, burst_time as int),
            burst_time >= 0 ==> p@.wf(),
    {
        Process {
            name,
            arrival_time,
            burst_time,
            time_remaining: burst_time,
            state: None,
            turnaround_time: 0,
            response_time: 0,
            wait_time: 0,
            finish_time: 0,
            last_selection_time: None,
        }
    }

    /// Reads a process from the whitespace-separated tokens of a record
    /// `label name label arrival label burst`. Fields that the record ends
    /// before are taken as an empty name and as 0; a numeric token that is
    /// present and is no base-10 signed 32-bit integer is an error.
    pub fn parse(tokens: &[&str]) -> (r: Result<Process, ParseError>)
        ensures
            (match r {
                Ok(p) => parsed_record(token_texts(tokens@)) == Ok::<ProcessView, ParseError>(p@),
                Err(e) => parsed_record(token_texts(tokens@)) == Err::<ProcessView, ParseError>(e),
            }),
    {
        let name: String = String::from_str(field_token(tokens, 0));
        let arrival_time: i32 = match numeric_token(tokens, 1) {
            Some(v) => v,
            None => {
                return Err(ParseError::InvalidNumber);
            },
        };
        let burst_time: i32 = match numeric_token(tokens, 2) {
            Some(v) => v,
            None => {
                return Err(ParseError::InvalidNumber);
            },
        };
        Ok(Process::new(name, arrival_time, burst_time))
    }

    /// Lets one unit of simulated time pass for this process, at clock value
    /// `cur_time`. The counters must have room for the tick.
    pub fn tick(&mut self, cur_time: i32)
        requires
            old(self)@.tick(cur_time as int).fits(),
        ensures
            final(self)@ == old(self)@.tick(cur_time as int),
            old(self).state is None ==> final(self)@ == old(self)@,
            final(self).time_remaining <= old(self).time_remaining,
            old(self)@.wf() ==> final(self)@.wf(),
    {
        match self.state {
            None => {},
            Some(ProcessState::Ready) => {
                self.turnaround_time += 1;
                self.wait_time += 1;
                if self.burst_time == self.time_remaining {
                    self.response_time += 1;
                }
            },
            Some(ProcessState::Running) => {
                self.turnaround_time += 1;
                self.time_remaining -= 1;
                if self.time_remaining == 0 {
                    self.finish(cur_time);
                }
            },
        }
    }

    /// Makes this the running process and notes `cur_time` as the time of
    /// its latest selection.
    pub fn select(&mut self, cur_time: i32)
        ensures
            final(self)@ == old(self)@.select(cur_time as int),
            old(self)@.wf() && !old(self)@.finished() ==> final(self)@.wf(),
    {
        self.state = Some(ProcessState::Running);
        self.last_selection_time = Some(cur_time);
    }

    /// Puts the process back among the ready ones; a finished process stays
    /// as it is.
    pub fn deselect(&mut self)
        ensures
            final(self)@ == old(self)@.deselect(),
            old(self)@.finished() ==> final(self)@ == old(self)@,
            old(self)@.wf() ==> final(self)@.wf(),
    {
        if !self.finished() {
            self.state = Some(ProcessState::Ready);
        }
    }

    /// Makes the process inactive and records `cur_time` as its finish time.
    fn finish(&mut self, cur_time: i32)
        ensures
            final(self)@ == (ProcessView {
                state: None,
                finish_time: cur_time as int,
                ..old(self)@
            }),
    {
        self.state = None;
        self.finish_time = cur_time;
    }

    /// Whether no execution time is left.
    pub fn finished(&self) -> (done: bool)
        ensures
            done == self@.finished(),
            done == (self.time_remaining == 0),
    {
        self.time_remaining == 0
    }

    /// Whether the process has arrived at `time`.
    pub fn arrived(&self, time: i32) -> (here: bool)
        ensures
            here == self@.arrived(time as int),
            here == (self.arrival_time <= time),
    {
        self.arrival_time <= time
    }
}

} // verus!
