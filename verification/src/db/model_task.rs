//! The task record: who must decide, who has voted, and what was decided.

use vstd::prelude::*;
use crate::columns::Columns;
use crate::error::{Error, Vote, Write};
use crate::field::{same, texts, Field};
use crate::id::Id;
use crate::idset::IdSet;
use crate::statement::{
    plays,
    task_assignees,
    task_delete,
    task_get,
    task_insert,
    task_list,
    task_purge,
    task_set_status,
    task_update,
    task_vote,
    Move,
    Statement,
};
use crate::store::{Change, Next, Reply, ReplyView, Trip, Value};

verus! {

/// A task that its owner put up for approval.
///
/// `status` is `-1` (rejected), `0` (pending) or `1` (approved). `updated_at` is also
/// the version token of the row: a scalar update names the token it saw, and is refused
/// when the stored one differs. `_fields` names the columns that were last read into the
/// record.
#[derive(Clone, Debug)]
pub struct Task {
    pub uid: Id,
    pub id: Id,
    pub gid: Id,
    pub status: i8,
    pub kind: String,
    pub created_at: i64,
    pub updated_at: i64,
    pub duedate: i64,
    pub threshold: i16,
    pub approvers: IdSet,
    pub assignees: IdSet,
    pub resolved: IdSet,
    pub rejected: IdSet,
    pub message: String,
    pub payload: Vec<u8>,
    pub _fields: Vec<String>,
}

/// What a task holds, as mathematical values.
pub struct TaskView {
    pub uid: Id,
    pub id: Id,
    pub gid: Id,
    pub status: i8,
    pub kind: Seq<char>,
    pub created_at: i64,
    pub updated_at: i64,
    pub duedate: i64,
    pub threshold: i16,
    pub approvers: Set<Id>,
    pub assignees: Set<Id>,
    pub resolved: Set<Id>,
    pub rejected: Set<Id>,
    pub message: Seq<char>,
    pub payload: Seq<u8>,
    pub fields: Seq<Seq<char>>,
}

impl View for Task {
    type V = TaskView;

    open spec fn view(&self) -> TaskView {
        TaskView {
            uid: self.uid,
            id: self.id,
            gid: self.gid,
            status: self.status,
            kind: self.kind@,
            created_at: self.created_at,
            updated_at: self.updated_at,
            duedate: self.duedate,
            threshold: self.threshold,
            approvers: self.approvers@,
            assignees: self.assignees@,
            resolved: self.resolved@,
            rejected: self.rejected@,
            message: self.message@,
            payload: self.payload@,
            fields: texts(self._fields@),
        }
    }
}

impl TaskView {
    /// The record in which nothing is set.
    pub open spec fn blank() -> TaskView {
        TaskView {
            uid: Id::nil(),
            id: Id::nil(),
            gid: Id::nil(),
            status: 0,
            kind: Seq::empty(),
            created_at: 0,
            updated_at: 0,
            duedate: 0,
            threshold: 0,
            approvers: Set::empty(),
            assignees: Set::empty(),
            resolved: Set::empty(),
            rejected: Set::empty(),
            message: Seq::empty(),
            payload: Seq::empty(),
            fields: Seq::empty(),
        }
    }

    /// The blank record of the task `id` of the owner `uid`.
    pub open spec fn keyed(uid: Id, id: Id) -> TaskView {
        TaskView { uid, id, ..TaskView::blank() }
    }

    /// This record with the columns `cols` taken from `row`. `fields` stays.
    pub open spec fn absorb(self, row: TaskView, cols: Columns) -> TaskView {
        TaskView {
            uid: if cols.uid { row.uid } else { self.uid },
            id: if cols.id { row.id } else { self.id },
            gid: if cols.gid { row.gid } else { self.gid },
            status: if cols.status { row.status } else { self.status },
            kind: if cols.kind { row.kind } else { self.kind },
            created_at: if cols.created_at { row.created_at } else { self.created_at },
            updated_at: if cols.updated_at { row.updated_at } else { self.updated_at },
            duedate: if cols.duedate { row.duedate } else { self.duedate },
            threshold: if cols.threshold { row.threshold } else { self.threshold },
            approvers: if cols.approvers { row.approvers } else { self.approvers },
            assignees: if cols.assignees { row.assignees } else { self.assignees },
            resolved: if cols.resolved { row.resolved } else { self.resolved },
            rejected: if cols.rejected { row.rejected } else { self.rejected },
            message: if cols.message { row.message } else { self.message },
            payload: if cols.payload { row.payload } else { self.payload },
            fields: self.fields,
        }
    }

    /// The columns `cols` of this record, the others blank.
    pub open spec fn only(self, cols: Columns) -> TaskView {
        TaskView::blank().absorb(self, cols)
    }

    /// The record as a row of the store: no list of fields goes with it.
    pub open spec fn row(self) -> TaskView {
        TaskView { fields: Seq::empty(), ..self }
    }
}

/// The columns of the task table, in the order of the record.
pub open spec fn every_field() -> Seq<Field> {
    seq![
        Field::Uid,
        Field::Id,
        Field::Gid,
        Field::Status,
        Field::Kind,
        Field::CreatedAt,
        Field::UpdatedAt,
        Field::Duedate,
        Field::Threshold,
        Field::Approvers,
        Field::Assignees,
        Field::Resolved,
        Field::Rejected,
        Field::Message,
        Field::Payload,
    ]
}

/// `s`, with `l` added at the end where `s` lacks it.
pub open spec fn with_label(s: Seq<Seq<char>>, l: Seq<char>) -> Seq<Seq<char>> {
    if s.contains(l) {
        s
    } else {
        s.push(l)
    }
}

/// Whether every name in `input` names a column.
pub open spec fn all_known(input: Seq<Seq<char>>) -> bool {
    forall|i: int| 0 <= i < input.len() ==> Field::known(#[trigger] input[i])
}

/// Whether `input[i]` is the first name that names no column.
pub open spec fn first_unknown(input: Seq<Seq<char>>, i: int) -> bool {
    &&& 0 <= i < input.len()
    &&& !Field::known(input[i])
    &&& forall|j: int| 0 <= j < i ==> Field::known(#[trigger] input[j])
}

/// The columns that a read of `input` fetches. An empty request stands for every
/// column. Otherwise the group, the status and the kind are always fetched too, and the
/// owner and the task id where the caller needs the row's identity (`with_pk`); what is
/// added comes after the names asked for, each at most once.
pub open spec fn selection(input: Seq<Seq<char>>, with_pk: bool) -> Seq<Seq<char>> {
    if input.len() == 0 {
        Field::labels(every_field())
    } else {
        let base = with_label(
            with_label(with_label(input, Field::Gid.label()), Field::Status.label()),
            Field::Kind.label(),
        );
        if with_pk {
            with_label(with_label(base, Field::Uid.label()), Field::Id.label())
        } else {
            base
        }
    }
}

/// What [`Task::select_fields`] returns for a request: the columns to fetch, or the
/// first name of the request that names no column.
pub open spec fn selected(select: Seq<String>, with_pk: bool) -> Result<Seq<Seq<char>>, Error> {
    if all_known(texts(select)) {
        Ok(selection(texts(select), with_pk))
    } else {
        Err(Error::InvalidField(select[choose|i: int| first_unknown(texts(select), i)]))
    }
}

/// At most one name is the first that names no column.
pub proof fn lemma_first_unknown(input: Seq<Seq<char>>, i: int, j: int)
    requires
        first_unknown(input, i),
        first_unknown(input, j),
    ensures
        i == j,
{
    if i < j {
        assert(Field::known(input[i]));
    }
    if j < i {
        assert(Field::known(input[j]));
    }
}

/// A copy of the names.
pub fn copy_names(v: &Vec<String>) -> (r: Vec<String>)
    ensures
        r@ == v@,
{
    let mut r: Vec<String> = Vec::new();
    let mut i: usize = 0;
    while i < v.len()
        invariant
            i <= v.len(),
            r@ == v@.take(i as int),
        decreases v.len() - i,
    {
        r.push(v[i].clone());
        assert(r@ =~= v@.take(i + 1));
        i += 1;
    }
    assert(v@.take(v.len() as int) == v@);
    r
}

/// Whether `name` occurs in `v`.
pub fn has_name(v: &Vec<String>, name: &String) -> (r: bool)
    ensures
        r == texts(v@).contains(name@),
{
    let mut i: usize = 0;
    while i < v.len()
        invariant
            i <= v.len(),
            forall|j: int| 0 <= j < i ==> texts(v@)[j] != name@,
        decreases v.len() - i,
    {
        if v[i] == *name {
            assert(texts(v@)[i as int] == name@);
            return true;
        }
        i += 1;
    }
    false
}

/// Adds the name of `f` at the end of `v` where `v` lacks it.
fn ensure_field(v: &mut Vec<String>, f: Field)
    ensures
        texts(final(v)@) == with_label(texts(old(v)@), f.label()),
{
    let name = f.name();
    if !has_name(v, &name) {
        v.push(name);
        assert(texts(v@) =~= texts(old(v)@).push(f.label()));
    }
}

impl Task {
    /// The record in which nothing is set.
    pub fn new() -> (t: Task)
        ensures
            t@ == TaskView::blank(),
    {
        let t = Task {
            uid: Id::zero(),
            id: Id::zero(),
            gid: Id::zero(),
            status: 0,
            kind: String::new(),
            created_at: 0,
            updated_at: 0,
            duedate: 0,
            threshold: 0,
            approvers: IdSet::new(),
            assignees: IdSet::new(),
            resolved: IdSet::new(),
            rejected: IdSet::new(),
            message: String::new(),
            payload: Vec::new(),
            _fields: Vec::new(),
        };
        assert(texts(t._fields@) =~= Seq::<Seq<char>>::empty());
        t
    }

    /// The blank record of the task `id` of the owner `uid`.
    pub fn with_pk(uid: Id, id: Id) -> (t: Task)
        ensures
            t@ == TaskView::keyed(uid, id),
    {
        let mut t = Task::new();
        t.uid = uid;
        t.id = id;
        t
    }

    /// The names of all columns, in the order of the record.
    pub fn fields() -> (v: Vec<String>)
        ensures
            texts(v@) == Field::labels(every_field()),
    {
        let mut v: Vec<String> = Vec::new();
        v.push(Field::Uid.name());
        v.push(Field::Id.name());
        v.push(Field::Gid.name());
        v.push(Field::Status.name());
        v.push(Field::Kind.name());
        v.push(Field::CreatedAt.name());
        v.push(Field::UpdatedAt.name());
        v.push(Field::Duedate.name());
        v.push(Field::Threshold.name());
        v.push(Field::Approvers.name());
        v.push(Field::Assignees.name());
        v.push(Field::Resolved.name());
        v.push(Field::Rejected.name());
        v.push(Field::Message.name());
        v.push(Field::Payload.name());
        assert(texts(v@) =~= Field::labels(every_field()));
        v
    }

    /// The columns to fetch for a reader who asks for `select_fields`: see
    /// [`selection`]. A name of no column is refused, the first such name in the error.
    pub fn select_fields(select_fields: Vec<String>, with_pk: bool) -> (r: Result<Vec<String>, Error>)
        ensures
            match r {
                Ok(v) => {
                    &&& all_known(texts(select_fields@))
                    &&& texts(v@) == selection(texts(select_fields@), with_pk)
                },
                Err(e) => exists|i: int|
                    {
                        &&& first_unknown(texts(select_fields@), i)
                        &&& e == Error::InvalidField(select_fields@[i])
                    },
            },
            match r {
                Ok(v) => selected(select_fields@, with_pk) == Ok::<Seq<Seq<char>>, Error>(texts(v@)),
                Err(e) => selected(select_fields@, with_pk) == Err::<Seq<Seq<char>>, Error>(e),
            },
    {
        if select_fields.len() == 0 {
            return Ok(Task::fields());
        }
        let ghost input = texts(select_fields@);
        let mut i: usize = 0;
        while i < select_fields.len()
            invariant
                i <= select_fields.len(),
                input == texts(select_fields@),
                forall|j: int| 0 <= j < i ==> Field::known(#[trigger] input[j]),
            decreases select_fields.len() - i,
        {
            if Field::parse(&select_fields[i]).is_none() {
                let bad = select_fields[i].clone();
                proof {
                    assert(first_unknown(input, i as int));
                    let k = choose|k: int| first_unknown(input, k);
                    lemma_first_unknown(input, i as int, k);
                }
                return Err(Error::InvalidField(bad));
            }
            i += 1;
        }
        let mut out = select_fields;
        ensure_field(&mut out, Field::Gid);
        ensure_field(&mut out, Field::Status);
        ensure_field(&mut out, Field::Kind);
        if with_pk {
            ensure_field(&mut out, Field::Uid);
            ensure_field(&mut out, Field::Id);
        }
        Ok(out)
    }

    /// Takes from `row` the columns that `fields` names; the other columns stay.
    pub fn fill(&mut self, row: &Task, fields: &Vec<String>)
        ensures
            final(self)@ == old(self)@.absorb(row@, Columns::picked(texts(fields@))),
    {
        let cols = Columns::of(fields);
        self.fill_marks(row, cols);
        self.fill_times(row, cols);
        self.fill_sets(row, cols);
    }

    fn fill_marks(&mut self, row: &Task, cols: Columns)
        ensures
            final(self)@ == (TaskView {
                uid: if cols.uid { row.uid } else { old(self).uid },
                id: if cols.id { row.id } else { old(self).id },
                gid: if cols.gid { row.gid } else { old(self).gid },
                status: if cols.status { row.status } else { old(self).status },
                kind: if cols.kind { row.kind@ } else { old(self).kind@ },
                ..old(self)@
            }),
    {
        if cols.uid {
            self.uid = row.uid;
        }
        if cols.id {
            self.id = row.id;
        }
        if cols.gid {
            self.gid = row.gid;
        }
        if cols.status {
            self.status = row.status;
        }
        if cols.kind {
            self.kind = row.kind.clone();
        }
    }

    fn fill_times(&mut self, row: &Task, cols: Columns)
        ensures
            final(self)@ == (TaskView {
                created_at: if cols.created_at { row.created_at } else { old(self).created_at },
                updated_at: if cols.updated_at { row.updated_at } else { old(self).updated_at },
                duedate: if cols.duedate { row.duedate } else { old(self).duedate },
                threshold: if cols.threshold { row.threshold } else { old(self).threshold },
                message: if cols.message { row.message@ } else { old(self).message@ },
                payload: if cols.payload { row.payload@ } else { old(self).payload@ },
                ..old(self)@
            }),
    {
        if cols.created_at {
            self.created_at = row.created_at;
        }
        if cols.updated_at {
            self.updated_at = row.updated_at;
        }
        if cols.duedate {
            self.duedate = row.duedate;
        }
        if cols.threshold {
            self.threshold = row.threshold;
        }
        if cols.message {
            self.message = row.message.clone();
        }
        if cols.payload {
            self.payload = row.payload.clone();
            assert(self.payload@ =~= row.payload@);
        }
    }

    fn fill_sets(&mut self, row: &Task, cols: Columns)
        ensures
            final(self)@ == (TaskView {
                approvers: if cols.approvers { row.approvers@ } else { old(self).approvers@ },
                assignees: if cols.assignees { row.assignees@ } else { old(self).assignees@ },
                resolved: if cols.resolved { row.resolved@ } else { old(self).resolved@ },
                rejected: if cols.rejected { row.rejected@ } else { old(self).rejected@ },
                ..old(self)@
            }),
    {
        if cols.approvers {
            self.approvers = row.approvers.duplicate();
        }
        if cols.assignees {
            self.assignees = row.assignees.duplicate();
        }
        if cols.resolved {
            self.resolved = row.resolved.duplicate();
        }
        if cols.rejected {
            self.rejected = row.rejected.duplicate();
        }
    }
}

impl Default for Task {
    fn default() -> (t: Task)
        ensures
            t@ == TaskView::blank(),
    {
        Task::new()
    }
}

/// How far the casting of a vote has come: what was asked of the store last.
#[derive(Clone, Copy, Debug, PartialEq, Eq, Structural)]
pub enum VoteStage {
    /// Nothing yet.
    Begin,
    /// The approvers and assignees of the task.
    Members,
    /// The write that records the vote.
    Recorded,
    /// The threshold, the status and both sets of voters.
    Tally,
    /// The write of the new status.
    Settled,
}

/// The columns read before a vote: who may vote. With them come the group, the status
/// and the kind, as with every read.
pub open spec fn member_fields() -> Seq<Seq<char>> {
    Field::labels(seq![Field::Approvers, Field::Assignees, Field::Gid, Field::Status, Field::Kind])
}

/// The columns read after a vote: what decides the status.
pub open spec fn tally_fields() -> Seq<Seq<char>> {
    Field::labels(
        seq![
            Field::Threshold,
            Field::Status,
            Field::Resolved,
            Field::Rejected,
            Field::Gid,
            Field::Kind,
        ],
    )
}

impl TaskView {
    /// Whether `voter` may vote: a task that names both approvers and assignees takes
    /// votes from them alone; one that names no approver, or no assignee, takes them
    /// from anyone.
    pub open spec fn permits(self, voter: Id) -> bool {
        ||| self.approvers.is_empty()
        ||| self.assignees.is_empty()
        ||| self.approvers.contains(voter)
        ||| self.assignees.contains(voter)
    }

    /// Whether a vote of `voter` can decide the task: the approvers can, or everyone
    /// where there is no approver.
    pub open spec fn decides(self, voter: Id) -> bool {
        self.approvers.is_empty() || self.approvers.contains(voter)
    }

    /// Whether the votes on the side of `vote` carry: they reach the threshold and
    /// outnumber the other side. A negative threshold is never reached.
    pub open spec fn carried(self, vote: Vote) -> bool {
        match vote {
            Vote::Resolve => 0 <= self.threshold <= self.resolved.len() && self.resolved.len()
                > self.rejected.len(),
            Vote::Reject => 0 <= self.threshold <= self.rejected.len() && self.rejected.len()
                > self.resolved.len(),
        }
    }

    /// Whether a vote of `voter` now turns the status: the task does not have the
    /// status of the vote yet, the voter can decide, and the side of the vote carries.
    ///
    /// No status is final: a task that was approved becomes rejected when later a vote
    /// against carries, and the other way round. Votes that came in before count on.
    pub open spec fn flips(self, voter: Id, vote: Vote) -> bool {
        self.status != vote.spec_status() && self.decides(voter) && self.carried(vote)
    }
}

/// One step of casting a vote on the task `t`, from the stage and the store's reply:
/// the record afterwards and the move.
///
/// The steps in order: read who may vote; refuse a voter who may not, which is one who
/// is neither approver nor assignee of a task that names both; record the vote
/// (no version check: votes merge); read threshold, status and both sets again; write
/// the status of the vote where [`TaskView::flips`] holds. A missing row, a failure of
/// the store, a write that was not applied or a reply of the wrong kind ends it with the
/// error.
pub open spec fn vote_step(t: TaskView, voter: Id, vote: Vote, stage: VoteStage, reply: ReplyView) -> (
    TaskView,
    Move<VoteStage, bool>,
) {
    match stage {
        VoteStage::Begin => (
            TaskView { fields: member_fields(), ..t },
            Move::Run(Statement::TaskGet { uid: t.uid, id: t.id, fields: member_fields() }, VoteStage::Members),
        ),
        VoteStage::Members => match reply {
            ReplyView::Task(row) => {
                let t1 = t.absorb(row, Columns::picked(member_fields()));
                if t1.permits(voter) {
                    (
                        t1,
                        Move::Run(
                            Statement::TaskVote { uid: t1.uid, id: t1.id, voter, vote },
                            VoteStage::Recorded,
                        ),
                    )
                } else {
                    (t1, Move::Done(Err(Error::Forbidden(vote))))
                }
            },
            _ => (t, Move::Done(Err(reply.fault()))),
        },
        VoteStage::Recorded => match reply {
            ReplyView::Applied(true) => (
                TaskView { fields: tally_fields(), ..t },
                Move::Run(Statement::TaskGet { uid: t.uid, id: t.id, fields: tally_fields() }, VoteStage::Tally),
            ),
            ReplyView::Applied(false) => (t, Move::Done(Err(Error::Conflict(vote.spec_write())))),
            _ => (t, Move::Done(Err(reply.fault()))),
        },
        VoteStage::Tally => match reply {
            ReplyView::Task(row) => {
                let t1 = t.absorb(row, Columns::picked(tally_fields()));
                if t1.flips(voter, vote) {
                    (
                        t1,
                        Move::Run(
                            Statement::TaskSetStatus { uid: t1.uid, id: t1.id, status: vote.spec_status() },
                            VoteStage::Settled,
                        ),
                    )
                } else {
                    (t1, Move::Done(Ok(true)))
                }
            },
            _ => (t, Move::Done(Err(reply.fault()))),
        },
        VoteStage::Settled => match reply {
            ReplyView::Applied(true) => (t, Move::Done(Ok(true))),
            ReplyView::Applied(false) => (t, Move::Done(Err(Error::Conflict(vote.spec_write())))),
            _ => (t, Move::Done(Err(reply.fault()))),
        },
    }
}

/// The names of the columns read before a vote.
fn member_names() -> (v: Vec<String>)
    ensures
        texts(v@) == member_fields(),
{
    let mut v: Vec<String> = Vec::new();
    v.push(Field::Approvers.name());
    v.push(Field::Assignees.name());
    v.push(Field::Gid.name());
    v.push(Field::Status.name());
    v.push(Field::Kind.name());
    assert(texts(v@) =~= member_fields());
    v
}

/// The names of the columns read after a vote.
fn tally_names() -> (v: Vec<String>)
    ensures
        texts(v@) == tally_fields(),
{
    let mut v: Vec<String> = Vec::new();
    v.push(Field::Threshold.name());
    v.push(Field::Status.name());
    v.push(Field::Resolved.name());
    v.push(Field::Rejected.name());
    v.push(Field::Gid.name());
    v.push(Field::Kind.name());
    assert(texts(v@) =~= tally_fields());
    v
}

impl Task {
    /// Whether `voter` may vote on the task: anyone may unless the task names both
    /// approvers and assignees, and then those alone.
    pub fn permits(&self, voter: &Id) -> (r: bool)
        ensures
            r == self@.permits(*voter),
    {
        self.approvers.is_empty() || self.assignees.is_empty() || self.approvers.contains(voter)
            || self.assignees.contains(voter)
    }

    /// Whether a vote of `voter` can decide the task.
    pub fn decides(&self, voter: &Id) -> (r: bool)
        ensures
            r == self@.decides(*voter),
    {
        self.approvers.is_empty() || self.approvers.contains(voter)
    }

    /// Whether the votes on the side of `vote` carry.
    pub fn carried(&self, vote: Vote) -> (r: bool)
        ensures
            r == self@.carried(vote),
    {
        if self.threshold < 0 {
            return false;
        }
        let need: usize = self.threshold as usize;
        let yes: usize = self.resolved.len();
        let no: usize = self.rejected.len();
        match vote {
            Vote::Resolve => yes >= need && yes > no,
            Vote::Reject => no >= need && no > yes,
        }
    }

    /// Whether a vote of `voter` now turns the status of the task.
    pub fn flips(&self, voter: &Id, vote: Vote) -> (r: bool)
        ensures
            r == self@.flips(*voter, vote),
    {
        self.status != vote.status() && self.decides(voter) && self.carried(vote)
    }

    /// One step of casting `vote` for `voter`: see [`vote_step`].
    pub fn cast_vote(&mut self, voter: Id, vote: Vote, stage: VoteStage, reply: Reply) -> (next: Next<
        VoteStage,
        bool,
    >)
        ensures
            final(self)@ == vote_step(old(self)@, voter, vote, stage, reply@).0,
            plays(next, vote_step(old(self)@, voter, vote, stage, reply@).1),
    {
        match stage {
            VoteStage::Begin => {
                self._fields = member_names();
                Next::Run(task_get(self.uid, self.id, member_names()), VoteStage::Members)
            },
            VoteStage::Members => match reply {
                Reply::Task(row) => {
                    let names = member_names();
                    self.fill(&row, &names);
                    if self.permits(&voter) {
                        Next::Run(task_vote(self.uid, self.id, voter, vote), VoteStage::Recorded)
                    } else {
                        Next::Done(Err(Error::Forbidden(vote)))
                    }
                },
                other => Next::Done(Err(other.into_fault())),
            },
            VoteStage::Recorded => match reply {
                Reply::Applied(true) => {
                    self._fields = tally_names();
                    Next::Run(task_get(self.uid, self.id, tally_names()), VoteStage::Tally)
                },
                Reply::Applied(false) => Next::Done(Err(Error::Conflict(vote.write()))),
                other => Next::Done(Err(other.into_fault())),
            },
            VoteStage::Tally => match reply {
                Reply::Task(row) => {
                    let names = tally_names();
                    self.fill(&row, &names);
                    if self.flips(&voter, vote) {
                        Next::Run(task_set_status(self.uid, self.id, vote.status()), VoteStage::Settled)
                    } else {
                        Next::Done(Ok(true))
                    }
                },
                other => Next::Done(Err(other.into_fault())),
            },
            VoteStage::Settled => match reply {
                Reply::Applied(true) => Next::Done(Ok(true)),
                Reply::Applied(false) => Next::Done(Err(Error::Conflict(vote.write()))),
                other => Next::Done(Err(other.into_fault())),
            },
        }
    }

    /// One step of casting a vote in favour: the voter leaves `rejected` and joins
    /// `resolved`, and the task becomes approved where that vote carries. See
    /// [`vote_step`].
    pub fn update_resolved(&mut self, assignee: Id, stage: VoteStage, reply: Reply) -> (next: Next<
        VoteStage,
        bool,
    >)
        ensures
            final(self)@ == vote_step(old(self)@, assignee, Vote::Resolve, stage, reply@).0,
            plays(next, vote_step(old(self)@, assignee, Vote::Resolve, stage, reply@).1),
    {
        self.cast_vote(assignee, Vote::Resolve, stage, reply)
    }

    /// One step of casting a vote against: the voter leaves `resolved` and joins
    /// `rejected`, and the task becomes rejected where that vote carries. See
    /// [`vote_step`].
    pub fn update_rejected(&mut self, assignee: Id, stage: VoteStage, reply: Reply) -> (next: Next<
        VoteStage,
        bool,
    >)
        ensures
            final(self)@ == vote_step(old(self)@, assignee, Vote::Reject, stage, reply@).0,
            plays(next, vote_step(old(self)@, assignee, Vote::Reject, stage, reply@).1),
    {
        self.cast_vote(assignee, Vote::Reject, stage, reply)
    }
}

/// One step of reading the task `t`: the record afterwards and the move.
///
/// First the columns of [`selected`] are asked for, and `fields` holds their names; a
/// name of no column ends the read with the error. Then the row that came back is taken
/// in; a missing row ends it with [`Error::NotFound`].
pub open spec fn get_step(t: TaskView, select: Seq<String>, stage: Trip, reply: ReplyView) -> (
    TaskView,
    Move<Trip, ()>,
) {
    match stage {
        Trip::Ask => match selected(select, false) {
            Ok(fields) => (
                TaskView { fields, ..t },
                Move::Run(Statement::TaskGet { uid: t.uid, id: t.id, fields }, Trip::Answer),
            ),
            Err(e) => (t, Move::Done(Err(e))),
        },
        Trip::Answer => match reply {
            ReplyView::Task(row) => (t.absorb(row, Columns::picked(t.fields)), Move::Done(Ok(()))),
            _ => (t, Move::Done(Err(reply.fault()))),
        },
    }
}

/// One step of inserting the task `t` at the time `now`: the record afterwards and the
/// move. The insert is refused with a conflict where a task with the same key is there.
pub open spec fn save_step(t: TaskView, now: i64, stage: Trip, reply: ReplyView) -> (
    TaskView,
    Move<Trip, bool>,
) {
    match stage {
        Trip::Ask => {
            let t1 = TaskView { updated_at: now, fields: Field::labels(every_field()), ..t };
            (t1, Move::Run(Statement::TaskInsert { row: t1 }, Trip::Answer))
        },
        Trip::Answer => match reply {
            ReplyView::Applied(true) => (t, Move::Done(Ok(true))),
            ReplyView::Applied(false) => (t, Move::Done(Err(Error::Conflict(Write::TaskSave)))),
            _ => (t, Move::Done(Err(reply.fault()))),
        },
    }
}

/// The scalars to set, after the changes were checked.
pub struct Patch {
    pub duedate: Option<i64>,
    pub message: Option<Seq<char>>,
}

/// Whether the change names a column that a scalar update does not take.
pub open spec fn bad_name(c: Change) -> bool {
    c.field@ != "duedate"@ && c.field@ != "message"@
}

/// Whether the change gives a value of the wrong kind: the due date is a big integer,
/// the message a text.
pub open spec fn bad_value(c: Change) -> bool {
    if c.field@ == "duedate"@ {
        !(c.value is BigInt)
    } else {
        !(c.value is Text)
    }
}

/// Whether `cols[i]` is the first change with a bad name.
pub open spec fn first_bad_name(cols: Seq<Change>, i: int) -> bool {
    &&& 0 <= i < cols.len()
    &&& bad_name(cols[i])
    &&& forall|j: int| 0 <= j < i ==> !bad_name(#[trigger] cols[j])
}

/// Whether `cols[i]` is the first change with a value of the wrong kind.
pub open spec fn first_bad_value(cols: Seq<Change>, i: int) -> bool {
    &&& 0 <= i < cols.len()
    &&& bad_value(cols[i])
    &&& forall|j: int| 0 <= j < i ==> !bad_value(#[trigger] cols[j])
}

/// What the changes set: of two for one column the later counts.
pub open spec fn patch_of(cols: Seq<Change>) -> Patch
    decreases cols.len(),
{
    if cols.len() == 0 {
        Patch { duedate: None, message: None }
    } else {
        let p = patch_of(cols.drop_last());
        let c = cols.last();
        if c.field@ == "duedate"@ {
            match c.value {
                Value::BigInt(d) => Patch { duedate: Some(d), ..p },
                _ => p,
            }
        } else if c.field@ == "message"@ {
            match c.value {
                Value::Text(m) => Patch { message: Some(m@), ..p },
                _ => p,
            }
        } else {
            p
        }
    }
}

/// The changes as a patch, or why they are refused: only `duedate` and `message` can be
/// set, the first other name is an [`Error::InvalidField`]; where all names are good,
/// the first value of the wrong kind is an [`Error::InvalidValue`] with its column.
pub open spec fn checked(cols: Seq<Change>) -> Result<Patch, Error> {
    if exists|i: int| first_bad_name(cols, i) {
        Err(Error::InvalidField(cols[choose|i: int| first_bad_name(cols, i)].field))
    } else if exists|i: int| first_bad_value(cols, i) {
        Err(Error::InvalidValue(cols[choose|i: int| first_bad_value(cols, i)].field))
    } else {
        Ok(patch_of(cols))
    }
}

/// At most one change is the first with a bad name, and at most one the first with a
/// value of the wrong kind.
pub proof fn lemma_first_bad(cols: Seq<Change>, i: int, j: int)
    ensures
        first_bad_name(cols, i) && first_bad_name(cols, j) ==> i == j,
        first_bad_value(cols, i) && first_bad_value(cols, j) ==> i == j,
{
    if first_bad_name(cols, i) && first_bad_name(cols, j) {
        if i < j {
            assert(!bad_name(cols[i]));
        }
        if j < i {
            assert(!bad_name(cols[j]));
        }
    }
    if first_bad_value(cols, i) && first_bad_value(cols, j) {
        if i < j {
            assert(!bad_value(cols[i]));
        }
        if j < i {
            assert(!bad_value(cols[j]));
        }
    }
}

/// How far a scalar update has come: what was asked of the store last.
#[derive(Clone, Copy, Debug, PartialEq, Eq, Structural)]
pub enum UpdateStage {
    /// Nothing yet.
    Begin,
    /// The status and the version token of the task.
    Read,
    /// The write, which stamps the task with `stamp`.
    Written { stamp: i64 },
}

/// The columns read before a scalar update.
pub open spec fn update_fields() -> Seq<Seq<char>> {
    Field::labels(seq![Field::Status, Field::UpdatedAt, Field::Gid, Field::Kind])
}

/// One step of a scalar update of the task `t`: the record afterwards and the move.
///
/// `updated_at` is the version token that the caller saw, `now` the time to stamp the
/// task with. The changes are checked first, at every stage. Then the stored token is
/// read; where it is not `updated_at` the update ends with [`Error::Stale`]. Then the
/// write goes out under the condition that the token is still `updated_at`; where the
/// store does not apply it, the update ends with a conflict. After the write the record
/// holds the new token, which is also the result's meaning: `Ok(true)`.
///
/// The token is the time stamp itself. Of two writers that hold one token only one
/// gets through as long as the one that writes first stamps the task with a `now` other
/// than that token; with `now` equal to the token the write leaves the token as it was,
/// and the second writer gets through as well.
pub open spec fn update_step(
    t: TaskView,
    cols: Seq<Change>,
    updated_at: i64,
    now: i64,
    stage: UpdateStage,
    reply: ReplyView,
) -> (TaskView, Move<UpdateStage, bool>) {
    match checked(cols) {
        Err(e) => (t, Move::Done(Err(e))),
        Ok(patch) => match stage {
            UpdateStage::Begin => (
                TaskView { fields: update_fields(), ..t },
                Move::Run(
                    Statement::TaskGet { uid: t.uid, id: t.id, fields: update_fields() },
                    UpdateStage::Read,
                ),
            ),
            UpdateStage::Read => match reply {
                ReplyView::Task(row) => {
                    let t1 = t.absorb(row, Columns::picked(update_fields()));
                    if t1.updated_at != updated_at {
                        (t1, Move::Done(Err(Error::Stale { stored: t1.updated_at, given: updated_at })))
                    } else {
                        (
                            t1,
                            Move::Run(
                                Statement::TaskUpdate {
                                    uid: t1.uid,
                                    id: t1.id,
                                    expected: updated_at,
                                    updated_at: now,
                                    duedate: patch.duedate,
                                    message: patch.message,
                                },
                                UpdateStage::Written { stamp: now },
                            ),
                        )
                    }
                },
                _ => (t, Move::Done(Err(reply.fault()))),
            },
            UpdateStage::Written { stamp } => match reply {
                ReplyView::Applied(true) => (TaskView { updated_at: stamp, ..t }, Move::Done(Ok(true))),
                ReplyView::Applied(false) => (t, Move::Done(Err(Error::Conflict(Write::TaskUpdate)))),
                _ => (t, Move::Done(Err(reply.fault()))),
            },
        },
    }
}

/// How far an update of the assignees has come: what was asked of the store last.
#[derive(Clone, Copy, Debug, PartialEq, Eq, Structural)]
pub enum AssigneesStage {
    /// Nothing yet.
    Begin,
    /// The version token of the task.
    Read,
    /// The removal, which stamps the task with `stamp`.
    Removed { stamp: i64 },
    /// The addition.
    Added,
}

/// The columns read before an update of the assignees.
pub open spec fn assignees_fields() -> Seq<Seq<char>> {
    Field::labels(seq![Field::UpdatedAt, Field::Gid, Field::Status, Field::Kind])
}

/// One step of an update of the assignees of the task `t`: the record afterwards and
/// the move.
///
/// The stored version token is read and held against `updated_at` once. Then `remove`
/// is merged out, unless it is empty, under the condition that the token is still
/// `updated_at`; then `add` is merged in, unless it is empty, under the condition that
/// the token is the stamp of the removal (or still `updated_at` where nothing was
/// removed). Each write stamps the task with the time of the first. A write that the
/// store does not apply ends the update with a conflict: what the removal did stays.
pub open spec fn assignees_step(
    t: TaskView,
    remove: Seq<Id>,
    add: Seq<Id>,
    updated_at: i64,
    now: i64,
    stage: AssigneesStage,
    reply: ReplyView,
) -> (TaskView, Move<AssigneesStage, bool>) {
    match stage {
        AssigneesStage::Begin => (
            TaskView { fields: assignees_fields(), ..t },
            Move::Run(
                Statement::TaskGet { uid: t.uid, id: t.id, fields: assignees_fields() },
                AssigneesStage::Read,
            ),
        ),
        AssigneesStage::Read => match reply {
            ReplyView::Task(row) => {
                let t1 = t.absorb(row, Columns::picked(assignees_fields()));
                if t1.updated_at != updated_at {
                    (t1, Move::Done(Err(Error::Stale { stored: t1.updated_at, given: updated_at })))
                } else if remove.len() > 0 {
                    (
                        t1,
                        Move::Run(
                            Statement::TaskAssignees {
                                uid: t1.uid,
                                id: t1.id,
                                expected: updated_at,
                                updated_at: now,
                                ids: remove,
                                add: false,
                            },
                            AssigneesStage::Removed { stamp: now },
                        ),
                    )
                } else if add.len() > 0 {
                    (
                        t1,
                        Move::Run(
                            Statement::TaskAssignees {
                                uid: t1.uid,
                                id: t1.id,
                                expected: updated_at,
                                updated_at: now,
                                ids: add,
                                add: true,
                            },
                            AssigneesStage::Added,
                        ),
                    )
                } else {
                    (t1, Move::Done(Ok(true)))
                }
            },
            _ => (t, Move::Done(Err(reply.fault()))),
        },
        AssigneesStage::Removed { stamp } => match reply {
            ReplyView::Applied(true) => if add.len() > 0 {
                (
                    t,
                    Move::Run(
                        Statement::TaskAssignees {
                            uid: t.uid,
                            id: t.id,
                            expected: stamp,
                            updated_at: stamp,
                            ids: add,
                            add: true,
                        },
                        AssigneesStage::Added,
                    ),
                )
            } else {
                (t, Move::Done(Ok(true)))
            },
            ReplyView::Applied(false) => (t, Move::Done(Err(Error::Conflict(Write::TaskUpdate)))),
            _ => (t, Move::Done(Err(reply.fault()))),
        },
        AssigneesStage::Added => match reply {
            ReplyView::Applied(true) => (t, Move::Done(Ok(true))),
            ReplyView::Applied(false) => (t, Move::Done(Err(Error::Conflict(Write::TaskUpdate)))),
            _ => (t, Move::Done(Err(reply.fault()))),
        },
    }
}

/// How far the deletion of a task has come: what was asked of the store last.
#[derive(Clone, Copy, Debug, PartialEq, Eq, Structural)]
pub enum DeleteStage {
    /// Nothing yet.
    Begin,
    /// The task, all columns.
    Read,
    /// The delete.
    Deleted,
}

/// One step of deleting the task `t`: the record afterwards and the move.
///
/// The task is read first. Where that gives no row, for whatever reason, the task
/// counts as gone already and the result is `Ok(false)`: no error. Otherwise the row is
/// deleted and the result is `Ok(true)`.
pub open spec fn delete_step(t: TaskView, stage: DeleteStage, reply: ReplyView) -> (
    TaskView,
    Move<DeleteStage, bool>,
) {
    match stage {
        DeleteStage::Begin => {
            let fields = Field::labels(every_field());
            (
                TaskView { fields, ..t },
                Move::Run(Statement::TaskGet { uid: t.uid, id: t.id, fields }, DeleteStage::Read),
            )
        },
        DeleteStage::Read => match reply {
            ReplyView::Task(row) => {
                let t1 = t.absorb(row, Columns::picked(t.fields));
                (t1, Move::Run(Statement::TaskDelete { uid: t1.uid, id: t1.id }, DeleteStage::Deleted))
            },
            _ => (t, Move::Done(Ok(false))),
        },
        DeleteStage::Deleted => match reply {
            ReplyView::Done => (t, Move::Done(Ok(true))),
            _ => (t, Move::Done(Err(reply.fault()))),
        },
    }
}

/// One step of deleting the tasks of the owner `uid`, all of them or those of one
/// status.
pub open spec fn purge_step(uid: Id, status: Option<i8>, stage: Trip, reply: ReplyView) -> Move<Trip, ()> {
    match stage {
        Trip::Ask => Move::Run(Statement::TaskPurge { uid, status }, Trip::Answer),
        Trip::Answer => match reply {
            ReplyView::Done => Move::Done(Ok(())),
            _ => Move::Done(Err(reply.fault())),
        },
    }
}

/// A row of a page as the record that a reader gets: the asked columns of the row on a
/// blank record, with the names of the columns.
pub open spec fn listed(row: TaskView, fields: Seq<Seq<char>>) -> TaskView {
    TaskView { fields, ..row.only(Columns::picked(fields)) }
}

/// The names of the columns read before a scalar update.
fn update_names() -> (v: Vec<String>)
    ensures
        texts(v@) == update_fields(),
{
    let mut v: Vec<String> = Vec::new();
    v.push(Field::Status.name());
    v.push(Field::UpdatedAt.name());
    v.push(Field::Gid.name());
    v.push(Field::Kind.name());
    assert(texts(v@) =~= update_fields());
    v
}

/// The names of the columns read before an update of the assignees.
fn assignees_names() -> (v: Vec<String>)
    ensures
        texts(v@) == assignees_fields(),
{
    let mut v: Vec<String> = Vec::new();
    v.push(Field::UpdatedAt.name());
    v.push(Field::Gid.name());
    v.push(Field::Status.name());
    v.push(Field::Kind.name());
    assert(texts(v@) =~= assignees_fields());
    v
}

/// Checks the changes of a scalar update: see [`checked`].
pub fn check_changes(cols: &Vec<Change>) -> (r: Result<(Option<i64>, Option<String>), Error>)
    ensures
        match r {
            Ok((duedate, message)) => checked(cols@) == Ok::<Patch, Error>(
                Patch {
                    duedate,
                    message: match message {
                        Some(m) => Some(m@),
                        None => None,
                    },
                },
            ),
            Err(e) => checked(cols@) == Err::<Patch, Error>(e),
        },
{
    let mut i: usize = 0;
    while i < cols.len()
        invariant
            i <= cols.len(),
            forall|j: int| 0 <= j < i ==> !bad_name(#[trigger] cols@[j]),
        decreases cols.len() - i,
    {
        if !same(&cols[i].field, "duedate") && !same(&cols[i].field, "message") {
            proof {
                assert(first_bad_name(cols@, i as int));
                let k = choose|k: int| first_bad_name(cols@, k);
                lemma_first_bad(cols@, i as int, k);
            }
            return Err(Error::InvalidField(cols[i].field.clone()));
        }
        i += 1;
    }
    assert(!(exists|k: int| first_bad_name(cols@, k))) by {
        if exists|k: int| first_bad_name(cols@, k) {
            let k = choose|k: int| first_bad_name(cols@, k);
            assert(!bad_name(cols@[k]));
        }
    }
    let mut duedate: Option<i64> = None;
    let mut message: Option<String> = None;
    let mut i: usize = 0;
    assert(cols@.take(0).len() == 0);
    while i < cols.len()
        invariant
            i <= cols.len(),
            forall|j: int| 0 <= j < cols.len() ==> !bad_name(#[trigger] cols@[j]),
            forall|j: int| 0 <= j < i ==> !bad_value(#[trigger] cols@[j]),
            patch_of(cols@.take(i as int)) == (Patch {
                duedate,
                message: match message {
                    Some(m) => Some(m@),
                    None => None,
                },
            }),
        decreases cols.len() - i,
    {
        proof {
            assert(cols@.take(i + 1).drop_last() == cols@.take(i as int));
            assert(cols@.take(i + 1).last() == cols@[i as int]);
            assert(!bad_name(cols@[i as int]));
        }
        let is_duedate = same(&cols[i].field, "duedate");
        let mut bad = false;
        match &cols[i].value {
            Value::BigInt(d) => {
                if is_duedate {
                    duedate = Some(*d);
                } else {
                    bad = true;
                }
            },
            Value::Text(m) => {
                if is_duedate {
                    bad = true;
                } else {
                    message = Some(m.clone());
                }
            },
            _ => {
                bad = true;
            },
        }
        if bad {
            proof {
                assert(bad_value(cols@[i as int]));
                assert(first_bad_value(cols@, i as int));
                let k = choose|k: int| first_bad_value(cols@, k);
                lemma_first_bad(cols@, i as int, k);
            }
            return Err(Error::InvalidValue(cols[i].field.clone()));
        }
        i += 1;
    }
    assert(cols@.take(cols.len() as int) == cols@);
    assert(!(exists|k: int| first_bad_value(cols@, k))) by {
        if exists|k: int| first_bad_value(cols@, k) {
            let k = choose|k: int| first_bad_value(cols@, k);
            assert(!bad_value(cols@[k]));
        }
    }
    Ok((duedate, message))
}

impl Task {
    /// One step of reading the task: see [`get_step`].
    pub fn get_one(&mut self, select_fields: Vec<String>, stage: Trip, reply: Reply) -> (next: Next<Trip, ()>)
        ensures
            final(self)@ == get_step(old(self)@, select_fields@, stage, reply@).0,
            plays(next, get_step(old(self)@, select_fields@, stage, reply@).1),
    {
        match stage {
            Trip::Ask => match Task::select_fields(select_fields, false) {
                Ok(fields) => {
                    self._fields = copy_names(&fields);
                    Next::Run(task_get(self.uid, self.id, fields), Trip::Answer)
                },
                Err(e) => Next::Done(Err(e)),
            },
            Trip::Answer => match reply {
                Reply::Task(row) => {
                    let names = copy_names(&self._fields);
                    self.fill(&row, &names);
                    Next::Done(Ok(()))
                },
                other => Next::Done(Err(other.into_fault())),
            },
        }
    }

    /// The end of an insert, from the store's reply: see [`save_step`].
    pub fn saved(reply: Reply) -> (r: Result<bool, Error>)
        ensures
            forall|t: TaskView, now: i64|
                #[trigger] save_step(t, now, Trip::Answer, reply@).1 == Move::<Trip, bool>::Done(r),
    {
        match reply {
            Reply::Applied(true) => Ok(true),
            Reply::Applied(false) => Err(Error::Conflict(Write::TaskSave)),
            other => Err(other.into_fault()),
        }
    }

    /// One step of inserting the task: see [`save_step`].
    pub fn save(&mut self, now: i64, stage: Trip, reply: Reply) -> (next: Next<Trip, bool>)
        ensures
            final(self)@ == save_step(old(self)@, now, stage, reply@).0,
            plays(next, save_step(old(self)@, now, stage, reply@).1),
    {
        match stage {
            Trip::Ask => {
                self.updated_at = now;
                self._fields = Task::fields();
                Next::Run(task_insert(self), Trip::Answer)
            },
            Trip::Answer => match reply {
                Reply::Applied(true) => Next::Done(Ok(true)),
                Reply::Applied(false) => Next::Done(Err(Error::Conflict(Write::TaskSave))),
                other => Next::Done(Err(other.into_fault())),
            },
        }
    }

    /// One step of a scalar update: see [`update_step`]. `now` should differ from
    /// `updated_at`: a write that stamps the task with the token it replaces leaves the
    /// token unchanged, and does not shut out another writer who holds it.
    pub fn update(
        &mut self,
        cols: &Vec<Change>,
        updated_at: i64,
        now: i64,
        stage: UpdateStage,
        reply: Reply,
    ) -> (next: Next<UpdateStage, bool>)
        ensures
            final(self)@ == update_step(old(self)@, cols@, updated_at, now, stage, reply@).0,
            plays(next, update_step(old(self)@, cols@, updated_at, now, stage, reply@).1),
    {
        let (duedate, message) = match check_changes(cols) {
            Ok(p) => p,
            Err(e) => {
                return Next::Done(Err(e));
            },
        };
        match stage {
            UpdateStage::Begin => {
                self._fields = update_names();
                Next::Run(task_get(self.uid, self.id, update_names()), UpdateStage::Read)
            },
            UpdateStage::Read => match reply {
                Reply::Task(row) => {
                    let names = update_names();
                    self.fill(&row, &names);
                    if self.updated_at != updated_at {
                        Next::Done(Err(Error::Stale { stored: self.updated_at, given: updated_at }))
                    } else {
                        Next::Run(
                            task_update(self.uid, self.id, updated_at, now, duedate, message),
                            UpdateStage::Written { stamp: now },
                        )
                    }
                },
                other => Next::Done(Err(other.into_fault())),
            },
            UpdateStage::Written { stamp } => match reply {
                Reply::Applied(true) => {
                    self.updated_at = stamp;
                    Next::Done(Ok(true))
                },
                Reply::Applied(false) => Next::Done(Err(Error::Conflict(Write::TaskUpdate))),
                other => Next::Done(Err(other.into_fault())),
            },
        }
    }

    /// One step of an update of the assignees: see [`assignees_step`].
    pub fn update_assignees(
        &mut self,
        remove: &Vec<Id>,
        add: &Vec<Id>,
        updated_at: i64,
        now: i64,
        stage: AssigneesStage,
        reply: Reply,
    ) -> (next: Next<AssigneesStage, bool>)
        ensures
            final(self)@ == assignees_step(old(self)@, remove@, add@, updated_at, now, stage, reply@).0,
            plays(next, assignees_step(old(self)@, remove@, add@, updated_at, now, stage, reply@).1),
    {
        match stage {
            AssigneesStage::Begin => {
                self._fields = assignees_names();
                Next::Run(task_get(self.uid, self.id, assignees_names()), AssigneesStage::Read)
            },
            AssigneesStage::Read => match reply {
                Reply::Task(row) => {
                    let names = assignees_names();
                    self.fill(&row, &names);
                    if self.updated_at != updated_at {
                        Next::Done(Err(Error::Stale { stored: self.updated_at, given: updated_at }))
                    } else if remove.len() > 0 {
                        Next::Run(
                            task_assignees(self.uid, self.id, updated_at, now, remove, false),
                            AssigneesStage::Removed { stamp: now },
                        )
                    } else if add.len() > 0 {
                        Next::Run(
                            task_assignees(self.uid, self.id, updated_at, now, add, true),
                            AssigneesStage::Added,
                        )
                    } else {
                        Next::Done(Ok(true))
                    }
                },
                other => Next::Done(Err(other.into_fault())),
            },
            AssigneesStage::Removed { stamp } => match reply {
                Reply::Applied(true) => {
                    if add.len() > 0 {
                        Next::Run(
                            task_assignees(self.uid, self.id, stamp, stamp, add, true),
                            AssigneesStage::Added,
                        )
                    } else {
                        Next::Done(Ok(true))
                    }
                },
                Reply::Applied(false) => Next::Done(Err(Error::Conflict(Write::TaskUpdate))),
                other => Next::Done(Err(other.into_fault())),
            },
            AssigneesStage::Added => match reply {
                Reply::Applied(true) => Next::Done(Ok(true)),
                Reply::Applied(false) => Next::Done(Err(Error::Conflict(Write::TaskUpdate))),
                other => Next::Done(Err(other.into_fault())),
            },
        }
    }

    /// One step of deleting the task: see [`delete_step`].
    pub fn delete(&mut self, stage: DeleteStage, reply: Reply) -> (next: Next<DeleteStage, bool>)
        ensures
            final(self)@ == delete_step(old(self)@, stage, reply@).0,
            plays(next, delete_step(old(self)@, stage, reply@).1),
    {
        match stage {
            DeleteStage::Begin => {
                self._fields = Task::fields();
                Next::Run(task_get(self.uid, self.id, Task::fields()), DeleteStage::Read)
            },
            DeleteStage::Read => match reply {
                Reply::Task(row) => {
                    let names = copy_names(&self._fields);
                    self.fill(&row, &names);
                    Next::Run(task_delete(self.uid, self.id), DeleteStage::Deleted)
                },
                _ => Next::Done(Ok(false)),
            },
            DeleteStage::Deleted => match reply {
                Reply::Done => Next::Done(Ok(true)),
                other => Next::Done(Err(other.into_fault())),
            },
        }
    }

    /// One step of deleting the tasks of an owner: see [`purge_step`].
    pub fn batch_delete_by_uid(uid: Id, status: Option<i8>, stage: Trip, reply: Reply) -> (next: Next<
        Trip,
        (),
    >)
        ensures
            plays(next, purge_step(uid, status, stage, reply@)),
    {
        match stage {
            Trip::Ask => Next::Run(task_purge(uid, status), Trip::Answer),
            Trip::Answer => match reply {
                Reply::Done => Next::Done(Ok(())),
                other => Next::Done(Err(other.into_fault())),
            },
        }
    }

    /// One step of reading a page of the tasks of the owner `uid`.
    ///
    /// The columns are those of [`selected`] with the row's identity; a name of no
    /// column ends the read with the error, at either stage. The statement asks for at
    /// most `page_size` tasks, of the status `status` where one is given, below
    /// `page_token` where one is given. Each row that comes back is handed out as
    /// [`listed`] says, in the order of the reply.
    pub fn list(
        uid: Id,
        select_fields: Vec<String>,
        page_size: u16,
        page_token: Option<Id>,
        status: Option<i8>,
        stage: Trip,
        reply: Reply,
    ) -> (next: Next<Trip, Vec<Task>>)
        ensures
            match selected(select_fields@, true) {
                Err(e) => next matches Next::Done(Err(err)) && err == e,
                Ok(fields) => match stage {
                    Trip::Ask => next matches Next::Run(q, Trip::Answer) && q@ == (Statement::TaskList {
                        uid,
                        fields,
                        page_size,
                        page_token,
                        status,
                    }).query(),
                    Trip::Answer => match reply@ {
                        ReplyView::Tasks(rows) => {
                            &&& next matches Next::Done(Ok(docs))
                            &&& docs@.len() == rows.len()
                            &&& forall|i: int|
                                0 <= i < rows.len() ==> (#[trigger] docs@[i])@ == listed(rows[i], fields)
                        },
                        _ => next matches Next::Done(Err(err)) && err == reply@.fault(),
                    },
                },
            },
    {
        let fields = match Task::select_fields(select_fields, true) {
            Ok(fields) => fields,
            Err(e) => {
                return Next::Done(Err(e));
            },
        };
        match stage {
            Trip::Ask => Next::Run(task_list(uid, fields, page_size, page_token, status), Trip::Answer),
            Trip::Answer => match reply {
                Reply::Tasks(rows) => {
                    let mut docs: Vec<Task> = Vec::new();
                    let mut i: usize = 0;
                    while i < rows.len()
                        invariant
                            i <= rows.len(),
                            docs@.len() == i,
                            forall|j: int|
                                0 <= j < i ==> (#[trigger] docs@[j])@ == listed(rows@[j]@, texts(fields@)),
                        decreases rows.len() - i,
                    {
                        let mut doc = Task::new();
                        doc.fill(&rows[i], &fields);
                        doc._fields = copy_names(&fields);
                        docs.push(doc);
                        i += 1;
                    }
                    Next::Done(Ok(docs))
                },
                other => Next::Done(Err(other.into_fault())),
            },
        }
    }
}

} // verus!
