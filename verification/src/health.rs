//! The health channel: a record of fixed layout that the agent shares with
//! a supervising process, where there is one. Each field has one writer and
//! is stored as a whole; nothing is locked, and a reader may see a value
//! that is a moment old. The host maps the record and hands its values in
//! and out; what each operation does to them is decided here.

use vstd::prelude::*;

verus! {

/// Size of the shared record in bytes.
pub const RECORD_SIZE: usize = 24;

/// The values of the shared record.
#[derive(Debug, Clone, Copy, PartialEq, Eq, Structural)]
pub struct HealthStatus {
    /// Second, since the epoch, of the last check that succeeded.
    pub last_success: i64,
    /// Number of checks that failed since the last one that succeeded.
    pub consecutive_failures: i32,
    /// 1 once the agent has shown that it runs.
    pub is_alive: i32,
    /// 1 once the agent asks the supervisor to end the guarded program.
    pub should_kill_base: i32,
    /// 1 once the supervisor asks the agent to kill.
    pub parent_requests_kill: i32,
}

/// A field of the shared record.
#[derive(Debug, Clone, Copy, PartialEq, Eq, Structural)]
pub enum Field {
    LastSuccess,
    ConsecutiveFailures,
    IsAlive,
    ShouldKillBase,
    ParentRequestsKill,
}

impl Field {
    /// Where the field begins in the record.
    pub open spec fn spec_offset(self) -> nat {
        match self {
            Field::LastSuccess => 0,
            Field::ConsecutiveFailures => 8,
            Field::IsAlive => 12,
            Field::ShouldKillBase => 16,
            Field::ParentRequestsKill => 20,
        }
    }

    /// How many bytes the field takes.
    pub open spec fn spec_width(self) -> nat {
        match self {
            Field::LastSuccess => 8,
            _ => 4,
        }
    }

    /// Whether the agent is the field's writer; the supervisor writes the
    /// others.
    pub open spec fn spec_written_by_agent(self) -> bool {
        !(self is ParentRequestsKill)
    }

    /// Whether the agent is the field's writer, and so the host stores it
    /// after the agent's operations. The one field that the supervisor
    /// writes is only ever read.
    #[verifier::when_used_as_spec(spec_written_by_agent)]
    pub fn written_by_agent(self) -> (owned: bool)
        ensures
            owned == self.spec_written_by_agent(),
    {
        match self {
            Field::ParentRequestsKill => false,
            _ => true,
        }
    }

    /// Where the field begins in the record.
    pub fn offset(self) -> (at: usize)
        ensures
            at == self.spec_offset(),
    {
        match self {
            Field::LastSuccess => 0,
            Field::ConsecutiveFailures => 8,
            Field::IsAlive => 12,
            Field::ShouldKillBase => 16,
            Field::ParentRequestsKill => 20,
        }
    }

    /// How many bytes the field takes.
    pub fn width(self) -> (bytes: usize)
        ensures
            bytes == self.spec_width(),
    {
        match self {
            Field::LastSuccess => 8,
            _ => 4,
        }
    }
}

/// Every field lies inside the record, at a multiple of its width, and no
/// two fields share a byte.
pub proof fn lemma_layout(a: Field, b: Field)
    ensures
        a.spec_offset() + a.spec_width() <= RECORD_SIZE,
        a.spec_offset() % a.spec_width() == 0,
        a != b ==> a.spec_offset() + a.spec_width() <= b.spec_offset() || b.spec_offset()
            + b.spec_width() <= a.spec_offset(),
{
}

impl HealthStatus {
    /// The value that the record holds in `field`.
    pub open spec fn spec_value(self, field: Field) -> int {
        match field {
            Field::LastSuccess => self.last_success as int,
            Field::ConsecutiveFailures => self.consecutive_failures as int,
            Field::IsAlive => self.is_alive as int,
            Field::ShouldKillBase => self.should_kill_base as int,
            Field::ParentRequestsKill => self.parent_requests_kill as int,
        }
    }

    /// The value that the record holds in `field`.
    pub fn value(&self, field: Field) -> (value: i64)
        ensures
            value == self.spec_value(field),
    {
        match field {
            Field::LastSuccess => self.last_success,
            Field::ConsecutiveFailures => self.consecutive_failures as i64,
            Field::IsAlive => self.is_alive as i64,
            Field::ShouldKillBase => self.should_kill_base as i64,
            Field::ParentRequestsKill => self.parent_requests_kill as i64,
        }
    }

    /// The record once the agent has shown that it runs.
    pub open spec fn beaten(self) -> HealthStatus {
        HealthStatus { is_alive: 1, ..self }
    }

    /// The record after a check. A success clears the count of failures and
    /// stamps the time; a failure adds one to the count, which stays at the
    /// largest number it can hold. Either way the agent has shown that it
    /// runs.
    pub open spec fn updated(self, success: bool, now: i64) -> HealthStatus {
        if success {
            HealthStatus { consecutive_failures: 0, last_success: now, is_alive: 1, ..self }
        } else if self.consecutive_failures < i32::MAX {
            HealthStatus {
                consecutive_failures: (self.consecutive_failures + 1) as i32,
                is_alive: 1,
                ..self
            }
        } else {
            HealthStatus { is_alive: 1, ..self }
        }
    }

    /// The record once the agent asks for the guarded program to be ended.
    pub open spec fn kill_base_requested(self) -> HealthStatus {
        HealthStatus { should_kill_base: 1, ..self }
    }

    /// Whether the supervisor asks the agent to kill.
    pub open spec fn kill_requested(self) -> bool {
        self.parent_requests_kill == 1
    }
}

/// The agent's end of the health channel. Without a record behind it the
/// monitor is inert: every operation leaves it as it is.
#[derive(Debug, Clone, Copy)]
pub struct HealthMonitor {
    record: Option<HealthStatus>,
}

impl View for HealthMonitor {
    type V = Option<HealthStatus>;

    closed spec fn view(&self) -> Option<HealthStatus> {
        self.record
    }
}

/// The record behind a monitor that may be absent.
pub open spec fn record_of(monitor: Option<HealthMonitor>) -> Option<HealthStatus> {
    match monitor {
        Some(monitor) => monitor@,
        None => None,
    }
}

impl HealthMonitor {
    /// The monitor over the record that the host found mapped. Where no
    /// segment was named, or the named one could not be opened, there is no
    /// monitor.
    pub fn new(mapped: Option<HealthStatus>) -> (monitor: Option<HealthMonitor>)
        ensures
            monitor is Some <==> mapped is Some,
            record_of(monitor) == mapped,
    {
        match mapped {
            Some(record) => Some(HealthMonitor { record: Some(record) }),
            None => None,
        }
    }

    /// A monitor with no record behind it.
    pub fn inert() -> (monitor: HealthMonitor)
        ensures
            monitor@ is None,
    {
        HealthMonitor { record: None }
    }

    /// The record as it stands, for the host to store.
    pub fn status(&self) -> (record: Option<HealthStatus>)
        ensures
            record == self@,
    {
        self.record
    }

    /// Records how a check went, at the second `now` since the epoch.
    pub fn update(&mut self, success: bool, now: i64)
        ensures
            final(self)@ == match old(self)@ {
                Some(record) => Some(record.updated(success, now)),
                None => None,
            },
    {
        if let Some(record) = self.record {
            let mut record = record;
            if success {
                record.consecutive_failures = 0;
                record.last_success = now;
            } else {
                record.consecutive_failures = match record.consecutive_failures.checked_add(1) {
                    Some(count) => count,
                    None => record.consecutive_failures,
                };
            }
            record.is_alive = 1;
            self.record = Some(record);
        }
    }

    /// Asks the supervisor to end the guarded program.
    pub fn request_kill_base(&mut self)
        ensures
            final(self)@ == match old(self)@ {
                Some(record) => Some(record.kill_base_requested()),
                None => None,
            },
    {
        if let Some(record) = self.record {
            let mut record = record;
            record.should_kill_base = 1;
            self.record = Some(record);
        }
    }

    /// Shows that the agent runs.
    pub fn heartbeat(&mut self)
        ensures
            final(self)@ == match old(self)@ {
                Some(record) => Some(record.beaten()),
                None => None,
            },
    {
        if let Some(record) = self.record {
            let mut record = record;
            record.is_alive = 1;
            self.record = Some(record);
        }
    }

    /// Whether the supervisor asks the agent to kill. An inert monitor
    /// never does.
    pub fn is_kill_requested(&self) -> (requested: bool)
        ensures
            requested == match self@ {
                Some(record) => record.kill_requested(),
                None => false,
            },
    {
        match self.record {
            Some(record) => record.parent_requests_kill == 1,
            None => false,
        }
    }
}

/// The agent's operations change no field but those it is the writer of.
pub proof fn lemma_supervisor_fields_kept(
    record: HealthStatus,
    field: Field,
    success: bool,
    now: i64,
)
    requires
        !field.written_by_agent(),
    ensures
        record.beaten().spec_value(field) == record.spec_value(field),
        record.updated(success, now).spec_value(field) == record.spec_value(field),
        record.kill_base_requested().spec_value(field) == record.spec_value(field),
{
}

} // verus!
