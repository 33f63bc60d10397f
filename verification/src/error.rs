//! What an operation can fail with.

use vstd::prelude::*;
use crate::text::{decimal, decimal_text};

verus! {

/// The two votes a recipient can cast on a task.
#[derive(Clone, Copy, Debug, PartialEq, Eq, Structural)]
pub enum Vote {
    /// In favour: the voter joins `resolved`.
    Resolve,
    /// Against: the voter joins `rejected`.
    Reject,
}

impl Vote {
    /// The status that a task takes when the vote carries: `1` or `-1`.
    pub open spec fn spec_status(self) -> i8 {
        match self {
            Vote::Resolve => 1i8,
            Vote::Reject => -1i8,
        }
    }

    /// The status that a task takes when the vote carries: `1` for approved, `-1` for
    /// rejected.
    #[verifier::when_used_as_spec(spec_status)]
    pub fn status(self) -> (s: i8)
        ensures
            s == self.spec_status(),
    {
        match self {
            Vote::Resolve => 1,
            Vote::Reject => -1,
        }
    }

    /// The write that records the vote.
    pub open spec fn spec_write(self) -> Write {
        match self {
            Vote::Resolve => Write::TaskResolve,
            Vote::Reject => Write::TaskReject,
        }
    }

    /// The write that records the vote.
    #[verifier::when_used_as_spec(spec_write)]
    pub fn write(self) -> (w: Write)
        ensures
            w == self.spec_write(),
    {
        match self {
            Vote::Resolve => Write::TaskResolve,
            Vote::Reject => Write::TaskReject,
        }
    }

    /// The vote that an acknowledgement of the given status casts: `1` resolves, `-1`
    /// rejects, anything else is no vote.
    pub open spec fn spec_of_status(status: i8) -> Option<Vote> {
        if status == 1 {
            Some(Vote::Resolve)
        } else if status == -1 {
            Some(Vote::Reject)
        } else {
            None
        }
    }

    /// The vote that an acknowledgement of the given status casts.
    #[verifier::when_used_as_spec(spec_of_status)]
    pub fn of_status(status: i8) -> (v: Option<Vote>)
        ensures
            v == Vote::spec_of_status(status),
    {
        if status == 1 {
            Some(Vote::Resolve)
        } else if status == -1 {
            Some(Vote::Reject)
        } else {
            None
        }
    }
}

/// The conditional writes whose condition the store can find unmet.
#[derive(Clone, Copy, Debug, PartialEq, Eq, Structural)]
pub enum Write {
    TaskSave,
    TaskUpdate,
    TaskResolve,
    TaskReject,
    NotificationSave,
    NotificationUpdate,
    GroupNotificationSave,
}

/// The limits that the input of a new task must keep.
#[derive(Clone, Copy, Debug, PartialEq, Eq, Structural)]
pub enum Limit {
    /// `threshold` lies in `0..=256`.
    Threshold,
    /// At most 4 approvers.
    Approvers,
    /// At most 256 assignees.
    Assignees,
    /// `group_role`, where given, lies in `-1..=2`.
    GroupRole,
}

/// The fields that a request to delete must give.
#[derive(Clone, Copy, Debug, PartialEq, Eq, Structural)]
pub enum Required {
    Id,
    Tid,
    Sender,
}

/// Why an operation did not succeed.
#[derive(Clone, Debug, PartialEq, Eq)]
pub enum Error {
    /// A field name that the operation does not take.
    InvalidField(String),
    /// A value of the wrong kind for the named field.
    InvalidValue(String),
    /// An acknowledgement whose status is neither `-1` nor `1`.
    InvalidStatus(i8),
    /// An input beyond one of the limits.
    OutOfRange(Limit),
    /// A request without a field that it must give.
    MissingField(Required),
    /// The voter is neither approver nor assignee of a task that names both approvers
    /// and assignees.
    Forbidden(Vote),
    /// The row that was asked for is not there.
    NotFound,
    /// The version token that the caller holds is not the stored one.
    Stale { stored: i64, given: i64 },
    /// The store did not apply a conditional write.
    Conflict(Write),
    /// The store failed; the text is what it said.
    Store(String),
    /// The reply does not answer the statement that was issued.
    BadReply,
}

impl Error {
    /// The status code of each error.
    pub open spec fn spec_code(self) -> u16 {
        match self {
            Error::InvalidField(_) => 400,
            Error::InvalidValue(_) => 400,
            Error::InvalidStatus(_) => 400,
            Error::OutOfRange(_) => 400,
            Error::MissingField(_) => 400,
            Error::Forbidden(_) => 403,
            Error::NotFound => 404,
            Error::Stale { .. } => 409,
            Error::Conflict(_) => 409,
            Error::Store(_) => 500,
            Error::BadReply => 500,
        }
    }

    /// The status code under which the error is reported: 400 for a rejected input, 403
    /// for a vote without permission, 404 for a missing row, 409 for a conflict that a
    /// caller can retry after fetching again, 500 for a failure of the store.
    pub fn code(&self) -> (c: u16)
        ensures
            c == self.spec_code(),
    {
        match self {
            Error::InvalidField(_) => 400,
            Error::InvalidValue(_) => 400,
            Error::InvalidStatus(_) => 400,
            Error::OutOfRange(_) => 400,
            Error::MissingField(_) => 400,
            Error::Forbidden(_) => 403,
            Error::NotFound => 404,
            Error::Stale { .. } => 409,
            Error::Conflict(_) => 409,
            Error::Store(_) => 500,
            Error::BadReply => 500,
        }
    }

    /// Whether a caller can retry after fetching the current state again.
    pub fn is_retryable(&self) -> (r: bool)
        ensures
            r == (self.spec_code() == 409),
    {
        match self {
            Error::Stale { .. } => true,
            Error::Conflict(_) => true,
            _ => false,
        }
    }
}

impl Write {
    /// What is said when the store did not apply the write.
    pub open spec fn complaint(self) -> Seq<char> {
        match self {
            Write::TaskSave => "Task save failed, please try again"@,
            Write::TaskUpdate => "Task update failed, please try again"@,
            Write::TaskResolve => "Task update_resolved failed, please try again"@,
            Write::TaskReject => "Task update_rejected failed, please try again"@,
            Write::NotificationSave => "Notification save failed, please try again"@,
            Write::NotificationUpdate => "Notification update failed, please try again"@,
            Write::GroupNotificationSave => "GroupNotification save failed, please try again"@,
        }
    }
}

impl Limit {
    /// What is said when the limit is broken.
    pub open spec fn complaint(self) -> Seq<char> {
        match self {
            Limit::Threshold => "threshold must be in the range 0 to 256"@,
            Limit::Approvers => "approvers must be at most 4"@,
            Limit::Assignees => "assignees must be at most 256"@,
            Limit::GroupRole => "group_role must be in the range -1 to 2"@,
        }
    }
}

impl Required {
    /// What is said when the field is missing.
    pub open spec fn complaint(self) -> Seq<char> {
        match self {
            Required::Id => "Missing required field `id`"@,
            Required::Tid => "Missing required field `tid`"@,
            Required::Sender => "Missing required field `sender`"@,
        }
    }
}

impl Error {
    /// The text of each error.
    pub open spec fn spec_message(self) -> Seq<char> {
        match self {
            Error::InvalidField(f) => "Invalid field: "@ + f@,
            Error::InvalidValue(f) => "Invalid value for field: "@ + f@,
            Error::InvalidStatus(s) => "invalid status, expected -1 or 1, got "@ + decimal(s as int),
            Error::OutOfRange(l) => l.complaint(),
            Error::MissingField(r) => r.complaint(),
            Error::Forbidden(Vote::Resolve) => "can not resolve task"@,
            Error::Forbidden(Vote::Reject) => "can not reject task"@,
            Error::NotFound => "not found"@,
            Error::Stale { stored, given } => "Task updated_at conflict, expected updated_at "@ + decimal(
                stored as int,
            ) + ", got "@ + decimal(given as int),
            Error::Conflict(w) => w.complaint(),
            Error::Store(m) => m@,
            Error::BadReply => "unexpected reply from the store"@,
        }
    }

    /// The text under which the error is reported.
    pub fn message(&self) -> (m: String)
        ensures
            m@ == self.spec_message(),
    {
        match self {
            Error::InvalidField(f) => {
                let mut m = String::from_str("Invalid field: ");
                m.append(f.as_str());
                m
            },
            Error::InvalidValue(f) => {
                let mut m = String::from_str("Invalid value for field: ");
                m.append(f.as_str());
                m
            },
            Error::InvalidStatus(s) => {
                let mut m = String::from_str("invalid status, expected -1 or 1, got ");
                let n = decimal_text(*s as i64);
                m.append(n.as_str());
                m
            },
            Error::OutOfRange(l) => match l {
                Limit::Threshold => String::from_str("threshold must be in the range 0 to 256"),
                Limit::Approvers => String::from_str("approvers must be at most 4"),
                Limit::Assignees => String::from_str("assignees must be at most 256"),
                Limit::GroupRole => String::from_str("group_role must be in the range -1 to 2"),
            },
            Error::MissingField(r) => match r {
                Required::Id => String::from_str("Missing required field `id`"),
                Required::Tid => String::from_str("Missing required field `tid`"),
                Required::Sender => String::from_str("Missing required field `sender`"),
            },
            Error::Forbidden(Vote::Resolve) => String::from_str("can not resolve task"),
            Error::Forbidden(Vote::Reject) => String::from_str("can not reject task"),
            Error::NotFound => String::from_str("not found"),
            Error::Stale { stored, given } => {
                let mut m = String::from_str("Task updated_at conflict, expected updated_at ");
                let a = decimal_text(*stored);
                m.append(a.as_str());
                m.append(", got ");
                let b = decimal_text(*given);
                m.append(b.as_str());
                m
            },
            Error::Conflict(w) => match w {
                Write::TaskSave => String::from_str("Task save failed, please try again"),
                Write::TaskUpdate => String::from_str("Task update failed, please try again"),
                Write::TaskResolve => String::from_str("Task update_resolved failed, please try again"),
                Write::TaskReject => String::from_str("Task update_rejected failed, please try again"),
                Write::NotificationSave => String::from_str("Notification save failed, please try again"),
                Write::NotificationUpdate => String::from_str("Notification update failed, please try again"),
                Write::GroupNotificationSave => String::from_str(
                    "GroupNotification save failed, please try again",
                ),
            },
            Error::Store(m) => m.clone(),
            Error::BadReply => String::from_str("unexpected reply from the store"),
        }
    }
}

} // verus!
