//! What holds of the operations when the store behaves as the model says.

use vstd::prelude::*;
use crate::api::task::{ack_step, AckStage};
use crate::columns::Columns;
use crate::db::model_notification::{sweep_step, NotificationView, SweepStage};
use crate::db::model_task::{
    checked,
    member_fields,
    tally_fields,
    update_fields,
    update_step,
    vote_step,
    TaskView,
    UpdateStage,
    VoteStage,
};
use crate::error::{Error, Vote, Write};
use crate::store::Change;
use crate::field::Field;
use crate::id::Id;
use crate::model::Store;
use crate::statement::{Move, Statement};
use crate::store::ReplyView;

verus! {

impl TaskView {
    /// The row after `voter` has cast `vote` and the status was settled: the vote is
    /// merged in, and the status is that of the vote where the vote turns it.
    pub open spec fn cast(self, voter: Id, vote: Vote) -> TaskView {
        let merged = self.voted(voter, vote);
        if merged.flips(voter, vote) {
            TaskView { status: vote.spec_status(), ..merged }
        } else {
            merged
        }
    }

    /// The row after `voter` has tried to cast `vote`: a voter who may not vote changes
    /// nothing.
    pub open spec fn polled(self, voter: Id, vote: Vote) -> TaskView {
        if self.permits(voter) {
            self.cast(voter, vote)
        } else {
            self
        }
    }

    /// The row after a history of votes, each cast in full before the next.
    pub open spec fn after_votes(self, votes: Seq<(Id, Vote)>) -> TaskView
        decreases votes.len(),
    {
        if votes.len() == 0 {
            self
        } else {
            self.after_votes(votes.drop_last()).polled(votes.last().0, votes.last().1)
        }
    }

    /// Whether a vote of `voter` crosses the line now: the voter may vote and can
    /// decide, and with this vote merged in the side of the vote carries.
    pub open spec fn crossing(self, voter: Id, vote: Vote) -> bool {
        self.permits(voter) && self.decides(voter) && self.voted(voter, vote).carried(vote)
    }

    /// Whether the task has the status `status` after some vote of the history.
    pub open spec fn reached(self, votes: Seq<(Id, Vote)>, status: i8) -> bool {
        exists|k: int| 1 <= k <= votes.len() && (#[trigger] self.after_votes(votes.take(k))).status == status
    }

    /// Whether some vote of the history is a vote `vote` that crosses the line when it
    /// is cast.
    pub open spec fn crossed(self, votes: Seq<(Id, Vote)>, vote: Vote) -> bool {
        exists|k: int|
            0 <= k < votes.len() && votes[k].1 == vote && (#[trigger] self.after_votes(
                votes.take(k),
            )).crossing(votes[k].0, vote)
    }
}

/// Runs a vote against the store from a stage on: every statement is answered by the
/// store at once, and nothing else touches the store in between. `fuel` bounds the
/// number of statements.
pub open spec fn run_vote(
    s: Store,
    t: TaskView,
    voter: Id,
    vote: Vote,
    stage: VoteStage,
    reply: ReplyView,
    fuel: nat,
) -> (Store, Result<bool, Error>)
    decreases fuel,
{
    let (t1, mv) = vote_step(t, voter, vote, stage, reply);
    match mv {
        Move::Done(r) => (s, r),
        Move::Run(stmt, next) => if fuel == 0 {
            (s, Err(Error::BadReply))
        } else {
            run_vote(s.after(stmt), t1, voter, vote, next, s.reply(stmt), (fuel - 1) as nat)
        },
    }
}

/// A whole vote of `voter` on the task `id` of `uid`, run alone against the store.
pub open spec fn vote_alone(s: Store, uid: Id, id: Id, voter: Id, vote: Vote) -> (Store, Result<bool, Error>) {
    run_vote(s, TaskView::keyed(uid, id), voter, vote, VoteStage::Begin, ReplyView::Start, 4)
}

/// Which columns the two reads of a vote fetch.
proof fn lemma_vote_columns()
    ensures
        Columns::picked(member_fields()) == (Columns {
            approvers: true,
            assignees: true,
            gid: true,
            status: true,
            kind: true,
            ..Columns::none()
        }),
        Columns::picked(tally_fields()) == (Columns {
            threshold: true,
            status: true,
            resolved: true,
            rejected: true,
            gid: true,
            kind: true,
            ..Columns::none()
        }),
{
    let m = seq![Field::Approvers, Field::Assignees, Field::Gid, Field::Status, Field::Kind];
    let t = seq![
        Field::Threshold,
        Field::Status,
        Field::Resolved,
        Field::Rejected,
        Field::Gid,
        Field::Kind,
    ];
    Columns::lemma_picked_labels(m);
    Columns::lemma_picked_labels(t);
    let cm = Columns { approvers: true, assignees: true, gid: true, status: true, kind: true, ..Columns::none() };
    let ct = Columns {
        threshold: true,
        status: true,
        resolved: true,
        rejected: true,
        gid: true,
        kind: true,
        ..Columns::none()
    };
    assert forall|f: Field| Columns::picked(member_fields()).has(f) == cm.has(f) by {
        assert(Columns::picked(Field::labels(m)).has(f) == m.contains(f));
        assert(m[0] == Field::Approvers && m[1] == Field::Assignees && m[2] == Field::Gid && m[3]
            == Field::Status && m[4] == Field::Kind);
    }
    Columns::lemma_same(Columns::picked(member_fields()), cm);
    assert forall|f: Field| Columns::picked(tally_fields()).has(f) == ct.has(f) by {
        assert(Columns::picked(Field::labels(t)).has(f) == t.contains(f));
        assert(t[0] == Field::Threshold && t[1] == Field::Status && t[2] == Field::Resolved && t[3]
            == Field::Rejected && t[4] == Field::Gid && t[5] == Field::Kind);
    }
    Columns::lemma_same(Columns::picked(tally_fields()), ct);
}

/// A vote run alone does to the store what [`TaskView::polled`] does to the row: a task
/// that is not there is reported missing, a voter who may not vote is refused, both
/// without a write; otherwise the row ends as [`TaskView::cast`] says and the vote
/// succeeds.
pub proof fn lemma_vote_alone(s: Store, uid: Id, id: Id, voter: Id, vote: Vote)
    ensures
        !s.tasks.contains_key((uid, id)) ==> vote_alone(s, uid, id, voter, vote) == (s, Err::<bool, Error>(Error::NotFound)),
        s.tasks.contains_key((uid, id)) && !s.tasks[(uid, id)].permits(voter) ==> vote_alone(
            s,
            uid,
            id,
            voter,
            vote,
        ) == (s, Err::<bool, Error>(Error::Forbidden(vote))),
        s.tasks.contains_key((uid, id)) && s.tasks[(uid, id)].permits(voter) ==> vote_alone(
            s,
            uid,
            id,
            voter,
            vote,
        ) == (
            Store { tasks: s.tasks.insert((uid, id), s.tasks[(uid, id)].cast(voter, vote)), ..s },
            Ok::<bool, Error>(true),
        ),
{
    lemma_vote_columns();
    reveal_with_fuel(run_vote, 5);
    let t0 = TaskView::keyed(uid, id);
    let (t1, m1) = vote_step(t0, voter, vote, VoteStage::Begin, ReplyView::Start);
    let get1 = Statement::TaskGet { uid, id, fields: member_fields() };
    assert(m1 == Move::<VoteStage, bool>::Run(get1, VoteStage::Members));
    assert(s.after(get1) == s);
    if s.tasks.contains_key((uid, id)) {
        let row = s.tasks[(uid, id)];
        let (t2, m2) = vote_step(t1, voter, vote, VoteStage::Members, s.reply(get1));
        assert(t2.approvers == row.approvers && t2.assignees == row.assignees);
        assert(t2.uid == uid && t2.id == id);
        assert(t2.permits(voter) == row.permits(voter));
        if row.permits(voter) {
            let write = Statement::TaskVote { uid, id, voter, vote };
            assert(m2 == Move::<VoteStage, bool>::Run(write, VoteStage::Recorded));
            let s2 = s.after(write);
            let merged = row.voted(voter, vote);
            assert(s2.tasks == s.tasks.insert((uid, id), merged));
            assert(s.reply(write) == ReplyView::Applied(true));
            let (t3, m3) = vote_step(t2, voter, vote, VoteStage::Recorded, s.reply(write));
            let get2 = Statement::TaskGet { uid, id, fields: tally_fields() };
            assert(m3 == Move::<VoteStage, bool>::Run(get2, VoteStage::Tally));
            assert(s2.after(get2) == s2);
            let (t4, m4) = vote_step(t3, voter, vote, VoteStage::Tally, s2.reply(get2));
            assert(t4.approvers == merged.approvers);
            assert(t4.threshold == merged.threshold && t4.status == merged.status && t4.resolved
                == merged.resolved && t4.rejected == merged.rejected);
            assert(t4.flips(voter, vote) == merged.flips(voter, vote));
            if merged.flips(voter, vote) {
                let set = Statement::TaskSetStatus { uid, id, status: vote.spec_status() };
                assert(m4 == Move::<VoteStage, bool>::Run(set, VoteStage::Settled));
                let s3 = s2.after(set);
                assert(s3.tasks =~= s.tasks.insert((uid, id), row.cast(voter, vote)));
                assert(s2.reply(set) == ReplyView::Applied(true));
                assert(s3 == Store { tasks: s.tasks.insert((uid, id), row.cast(voter, vote)), ..s });
            } else {
                assert(s2 == Store { tasks: s.tasks.insert((uid, id), row.cast(voter, vote)), ..s });
            }
        }
    }
}

/// After a vote, the voter is in the set of that vote and not in the other one, and
/// nobody else has moved: whatever the row held before.
pub proof fn lemma_vote_exclusive(row: TaskView, voter: Id, vote: Vote)
    ensures
        row.cast(voter, vote).resolved.contains(voter) == (vote == Vote::Resolve),
        row.cast(voter, vote).rejected.contains(voter) == (vote == Vote::Reject),
        forall|other: Id|
            other != voter ==> {
                &&& row.cast(voter, vote).resolved.contains(other) == row.resolved.contains(other)
                &&& row.cast(voter, vote).rejected.contains(other) == row.rejected.contains(other)
            },
{
}

/// Votes merge: recording the votes of two voters in either order gives the same row,
/// so that of two votes recorded at the same time none is lost; and recording one vote
/// twice is recording it once.
pub proof fn lemma_votes_merge(row: TaskView, a: Id, va: Vote, b: Id, vb: Vote)
    ensures
        a != b ==> row.voted(a, va).voted(b, vb) == row.voted(b, vb).voted(a, va),
        row.voted(a, va).voted(a, va) == row.voted(a, va),
        a != b ==> {
            &&& row.voted(a, va).voted(b, vb).resolved.contains(a) == (va == Vote::Resolve)
            &&& row.voted(a, va).voted(b, vb).rejected.contains(a) == (va == Vote::Reject)
            &&& row.voted(a, va).voted(b, vb).resolved.contains(b) == (vb == Vote::Resolve)
            &&& row.voted(a, va).voted(b, vb).rejected.contains(b) == (vb == Vote::Reject)
        },
{
    let ab = row.voted(a, va).voted(b, vb);
    let ba = row.voted(b, vb).voted(a, va);
    if a != b {
        assert(ab.resolved =~= ba.resolved);
        assert(ab.rejected =~= ba.rejected);
    }
    let once = row.voted(a, va);
    let twice = once.voted(a, va);
    assert(twice.resolved =~= once.resolved);
    assert(twice.rejected =~= once.rejected);
}

/// Nobody is in both sets of voters, whatever votes are cast by whomever in whatever
/// order, if nobody was in both before.
pub proof fn lemma_votes_exclusive(row: TaskView, votes: Seq<(Id, Vote)>)
    requires
        row.resolved.disjoint(row.rejected),
    ensures
        row.after_votes(votes).resolved.disjoint(row.after_votes(votes).rejected),
    decreases votes.len(),
{
    if votes.len() > 0 {
        lemma_votes_exclusive(row, votes.drop_last());
        let before = row.after_votes(votes.drop_last());
        lemma_vote_exclusive(before, votes.last().0, votes.last().1);
    }
}

/// One voter is in at most one of the two sets after any history of votes, if that
/// voter was in at most one before.
pub proof fn lemma_voter_exclusive(row: TaskView, votes: Seq<(Id, Vote)>, voter: Id)
    requires
        !(row.resolved.contains(voter) && row.rejected.contains(voter)),
    ensures
        !(row.after_votes(votes).resolved.contains(voter) && row.after_votes(votes).rejected.contains(
            voter,
        )),
    decreases votes.len(),
{
    if votes.len() > 0 {
        lemma_voter_exclusive(row, votes.drop_last(), voter);
        let before = row.after_votes(votes.drop_last());
        lemma_vote_exclusive(before, votes.last().0, votes.last().1);
    }
}

/// The status after one vote: that of the vote where the vote crosses the line, and
/// the one before otherwise. Votes touch nothing but the status and the two sets.
pub proof fn lemma_status_after_vote(row: TaskView, voter: Id, vote: Vote)
    ensures
        row.polled(voter, vote).status == if row.crossing(voter, vote) {
            vote.spec_status()
        } else {
            row.status
        },
        row.polled(voter, vote).threshold == row.threshold,
        row.polled(voter, vote).approvers == row.approvers,
        row.polled(voter, vote).assignees == row.assignees,
{
}

/// A task that does not have the status of `vote` at first has it after some vote of a
/// history exactly if some vote `vote` of the history crossed the line: it was cast by a
/// voter who can decide, and with it the votes on its side reached the threshold and
/// outnumbered the other side.
pub proof fn lemma_threshold(row: TaskView, votes: Seq<(Id, Vote)>, vote: Vote)
    requires
        row.status != vote.spec_status(),
    ensures
        row.reached(votes, vote.spec_status()) <==> row.crossed(votes, vote),
    decreases votes.len(),
{
    let target = vote.spec_status();
    if votes.len() == 0 {
    } else {
        let head = votes.drop_last();
        let n = head.len() as int;
        lemma_threshold(row, head, vote);
        assert forall|k: int| 0 <= k <= n implies #[trigger] votes.take(k) == head.take(k) by {
            assert(votes.take(k) =~= head.take(k));
        }
        assert(votes.take(n + 1) == votes);
        assert(votes.take(n) == head);
        let before = row.after_votes(head);
        let last = votes.last();
        lemma_status_after_vote(before, last.0, last.1);
        if row.reached(votes, target) {
            let k = choose|k: int| 1 <= k <= votes.len() && (#[trigger] row.after_votes(votes.take(k))).status == target;
            if k <= n {
                assert(row.after_votes(head.take(k)).status == target);
                assert(row.reached(head, target));
                let j = choose|j: int|
                    0 <= j < head.len() && head[j].1 == vote && (#[trigger] row.after_votes(head.take(j))).crossing(
                        head[j].0,
                        vote,
                    );
                assert(votes.take(j) == head.take(j));
                assert(votes[j] == head[j]);
                assert(row.crossed(votes, vote));
            } else {
                assert(row.after_votes(votes).status == target);
                if before.status == target {
                    if n == 0 {
                        assert(before == row);
                    } else {
                        assert(head.take(n) == head);
                        assert(row.after_votes(head.take(n)).status == target);
                        assert(row.reached(head, target));
                        let j = choose|j: int|
                            0 <= j < head.len() && head[j].1 == vote && (#[trigger] row.after_votes(
                                head.take(j),
                            )).crossing(head[j].0, vote);
                        assert(votes.take(j) == head.take(j));
                        assert(votes[j] == head[j]);
                        assert(row.crossed(votes, vote));
                    }
                } else {
                    assert(before.crossing(last.0, last.1));
                    assert(last.1 == vote);
                    assert(row.after_votes(votes.take(n)).crossing(votes[n].0, vote));
                    assert(row.crossed(votes, vote));
                }
            }
        }
        if row.crossed(votes, vote) {
            let j = choose|j: int|
                0 <= j < votes.len() && votes[j].1 == vote && (#[trigger] row.after_votes(votes.take(j))).crossing(
                    votes[j].0,
                    vote,
                );
            if j < n {
                assert(votes.take(j) == head.take(j));
                assert(votes[j] == head[j]);
                assert(row.crossed(head, vote));
                let k = choose|k: int| 1 <= k <= head.len() && (#[trigger] row.after_votes(head.take(k))).status == target;
                assert(votes.take(k) == head.take(k));
                assert(row.after_votes(votes.take(k)).status == target);
                assert(row.reached(votes, target));
            } else {
                assert(j == n);
                assert(before.crossing(last.0, vote));
                assert(row.after_votes(votes).status == target);
                assert(row.after_votes(votes.take(n + 1)).status == target);
                assert(row.reached(votes, target));
            }
        }
    }
}

/// Every statement leaves rows under their own keys.
pub proof fn lemma_sound_after(s: Store, stmt: Statement)
    requires
        s.sound(),
    ensures
        s.after(stmt).sound(),
{
    let a = s.after(stmt);
    assert forall|k: (Id, Id)| #[trigger] a.tasks.contains_key(k) implies a.tasks[k].uid == k.0 && a.tasks[k].id
        == k.1 by {
        if s.tasks.contains_key(k) {
            assert(s.tasks[k].uid == k.0);
        }
    }
    assert forall|k: (Id, Id, Id)| #[trigger] a.notifications.contains_key(k) implies a.notifications[k].uid
        == k.0 && a.notifications[k].tid == k.1 && a.notifications[k].sender == k.2 by {
        if s.notifications.contains_key(k) {
            assert(s.notifications[k].uid == k.0);
        }
    }
    assert forall|k: (Id, Id, Id)| #[trigger]
        a.group_notifications.contains_key(k) implies a.group_notifications[k].gid == k.0
        && a.group_notifications[k].tid == k.1 && a.group_notifications[k].sender == k.2 by {
        if s.group_notifications.contains_key(k) {
            assert(s.group_notifications[k].gid == k.0);
        }
    }
}

/// Runs the deletion of the notifications of a task against the store from a stage on,
/// as far as `replies` goes: the first reply is given to the step of the stage, and each
/// statement that follows is answered by the next. The replies are whatever they are:
/// nothing is asked of them.
pub open spec fn run_sweep(
    s: Store,
    tid: Id,
    found: Seq<NotificationView>,
    stage: SweepStage,
    replies: Seq<ReplyView>,
) -> Store
    decreases replies.len(),
{
    if replies.len() == 0 {
        s
    } else {
        let (f1, mv) = sweep_step(tid, found, stage, replies[0]);
        match mv {
            Move::Done(_) => s,
            Move::Run(stmt, next) => run_sweep(s.after(stmt), tid, f1, next, replies.skip(1)),
        }
    }
}

/// No statement on the notifications touches a task or a group notification: not a
/// delete of one, not a delete of many, not the write of an acknowledgement.
pub proof fn lemma_notifications_apart(s: Store, stmt: Statement)
    requires
        stmt is NotificationGet || stmt is NotificationInsert || stmt is NotificationUpdate
            || stmt is NotificationDelete || stmt is NotificationScan || stmt is NotificationPurge
            || stmt is NotificationList,
    ensures
        s.after(stmt).tasks == s.tasks,
        s.after(stmt).group_notifications == s.group_notifications,
{
}

/// Deleting the notifications of a task leaves every task as it was, status and votes
/// included, and every group notification: however far the deletion gets, and whatever
/// the store answers.
pub proof fn lemma_sweep_keeps_tasks(
    s: Store,
    tid: Id,
    found: Seq<NotificationView>,
    stage: SweepStage,
    replies: Seq<ReplyView>,
)
    ensures
        run_sweep(s, tid, found, stage, replies).tasks == s.tasks,
        run_sweep(s, tid, found, stage, replies).group_notifications == s.group_notifications,
    decreases replies.len(),
{
    if replies.len() > 0 {
        let (f1, mv) = sweep_step(tid, found, stage, replies[0]);
        match mv {
            Move::Done(_) => {},
            Move::Run(stmt, next) => {
                lemma_notifications_apart(s, stmt);
                lemma_sweep_keeps_tasks(s.after(stmt), tid, f1, next, replies.skip(1));
            },
        }
    }
}

/// A delete of the notifications of one recipient with one status takes away exactly
/// those: a notification of another recipient, or with another status, stays as it
/// was.
pub proof fn lemma_purge_by_status(s: Store, uid: Id, status: i8, k: (Id, Id, Id))
    ensures
        ({
            let after = s.after(Statement::NotificationPurge { uid, status: Some(status) });
            &&& after.notifications.contains_key(k) == (s.notifications.contains_key(k) && !(k.0 == uid
                && s.notifications[k].status == status))
            &&& after.notifications.contains_key(k) ==> after.notifications[k] == s.notifications[k]
            &&& after.tasks == s.tasks
        }),
{
}

/// A scalar update whose read is answered by the store `seen` and whose write, if it
/// comes to one, runs on the store `s`: the store afterwards and the result. Other
/// writers may have been at work between the two; with `seen == s` the update runs
/// alone.
pub open spec fn update_between(
    seen: Store,
    s: Store,
    uid: Id,
    id: Id,
    cols: Seq<Change>,
    token: i64,
    now: i64,
) -> (Store, Result<bool, Error>) {
    let (t1, m1) = update_step(TaskView::keyed(uid, id), cols, token, now, UpdateStage::Begin, ReplyView::Start);
    match m1 {
        Move::Done(r) => (s, r),
        Move::Run(get, s1) => {
            let (t2, m2) = update_step(t1, cols, token, now, s1, seen.reply(get));
            match m2 {
                Move::Done(r) => (s, r),
                Move::Run(write, s2) => {
                    let (t3, m3) = update_step(t2, cols, token, now, s2, s.reply(write));
                    match m3 {
                        Move::Done(r) => (s.after(write), r),
                        Move::Run(_, _) => (s.after(write), Err(Error::BadReply)),
                    }
                },
            }
        },
    }
}

/// Which columns the read of a scalar update fetches.
proof fn lemma_update_columns()
    ensures
        Columns::picked(update_fields()) == (Columns {
            status: true,
            updated_at: true,
            gid: true,
            kind: true,
            ..Columns::none()
        }),
{
    let u = seq![Field::Status, Field::UpdatedAt, Field::Gid, Field::Kind];
    Columns::lemma_picked_labels(u);
    let cu = Columns { status: true, updated_at: true, gid: true, kind: true, ..Columns::none() };
    assert forall|f: Field| Columns::picked(update_fields()).has(f) == cu.has(f) by {
        assert(Columns::picked(Field::labels(u)).has(f) == u.contains(f));
        assert(u[0] == Field::Status && u[1] == Field::UpdatedAt && u[2] == Field::Gid && u[3] == Field::Kind);
    }
    Columns::lemma_same(Columns::picked(update_fields()), cu);
}

/// What a scalar update with good changes does between two stores: it fails with
/// [`Error::Stale`] where the token it read is not its own, and writes nothing; it
/// fails with a conflict where the token has changed between its read and its write,
/// and writes nothing; otherwise it succeeds, and the row holds the patch and the new
/// token.
pub proof fn lemma_update_between(
    seen: Store,
    s: Store,
    uid: Id,
    id: Id,
    cols: Seq<Change>,
    token: i64,
    now: i64,
)
    requires
        checked(cols) is Ok,
        seen.tasks.contains_key((uid, id)),
    ensures
        ({
            let patch = checked(cols)->Ok_0;
            let stored = seen.tasks[(uid, id)].updated_at;
            update_between(seen, s, uid, id, cols, token, now) == if stored != token {
                (s, Err::<bool, Error>(Error::Stale { stored, given: token }))
            } else if !s.tasks.contains_key((uid, id)) || s.tasks[(uid, id)].updated_at != token {
                (s, Err::<bool, Error>(Error::Conflict(Write::TaskUpdate)))
            } else {
                (
                    Store {
                        tasks: s.tasks.insert(
                            (uid, id),
                            s.tasks[(uid, id)].patched(now, patch.duedate, patch.message),
                        ),
                        ..s
                    },
                    Ok::<bool, Error>(true),
                )
            }
        }),
{
    lemma_update_columns();
    let patch = checked(cols)->Ok_0;
    let (t1, m1) = update_step(TaskView::keyed(uid, id), cols, token, now, UpdateStage::Begin, ReplyView::Start);
    let get = Statement::TaskGet { uid, id, fields: update_fields() };
    assert(m1 == Move::<UpdateStage, bool>::Run(get, UpdateStage::Read));
    let (t2, m2) = update_step(t1, cols, token, now, UpdateStage::Read, seen.reply(get));
    let stored = seen.tasks[(uid, id)].updated_at;
    assert(t2.updated_at == stored);
    assert(t2.uid == uid && t2.id == id);
    if stored == token {
        let write = Statement::TaskUpdate {
            uid,
            id,
            expected: token,
            updated_at: now,
            duedate: patch.duedate,
            message: patch.message,
        };
        assert(m2 == Move::<UpdateStage, bool>::Run(write, UpdateStage::Written { stamp: now }));
        if !s.tasks.contains_key((uid, id)) || s.tasks[(uid, id)].updated_at != token {
            assert(s.after(write) == s);
        } else {
            assert(s.after(write) == Store {
                tasks: s.tasks.insert((uid, id), s.tasks[(uid, id)].patched(now, patch.duedate, patch.message)),
                ..s
            });
        }
    }
}

/// Of two scalar updates that name the same version token, one succeeds and the other
/// fails with a conflict, whether the other read before the first wrote or after; and
/// the other succeeds when it is tried again with the token that the first left.
///
/// The token is a time stamp: this needs that the first update stamps the task with a
/// time other than the token it replaces.
pub proof fn lemma_one_update_wins(
    s: Store,
    uid: Id,
    id: Id,
    token: i64,
    first: Seq<Change>,
    first_now: i64,
    other: Seq<Change>,
    other_now: i64,
)
    requires
        s.tasks.contains_key((uid, id)),
        s.tasks[(uid, id)].updated_at == token,
        checked(first) is Ok,
        checked(other) is Ok,
        first_now != token,
    ensures
        ({
            let (after, won) = update_between(s, s, uid, id, first, token, first_now);
            let raced = update_between(s, after, uid, id, other, token, other_now);
            let late = update_between(after, after, uid, id, other, token, other_now);
            let again = update_between(after, after, uid, id, other, first_now, other_now);
            &&& won == Ok::<bool, Error>(true)
            &&& after.tasks[(uid, id)].updated_at == first_now
            &&& raced == (after, Err::<bool, Error>(Error::Conflict(Write::TaskUpdate)))
            &&& late == (after, Err::<bool, Error>(Error::Stale { stored: first_now, given: token }))
            &&& again.1 == Ok::<bool, Error>(true)
            &&& again.0.tasks[(uid, id)].updated_at == other_now
        }),
{
    lemma_update_between(s, s, uid, id, first, token, first_now);
    let (after, won) = update_between(s, s, uid, id, first, token, first_now);
    assert(after.tasks.contains_key((uid, id)));
    lemma_update_between(s, after, uid, id, other, token, other_now);
    lemma_update_between(after, after, uid, id, other, token, other_now);
    lemma_update_between(after, after, uid, id, other, first_now, other_now);
}

/// Runs an acknowledgement against the store from a stage on, every statement answered
/// by the store at once. `fuel` bounds the number of statements.
pub open spec fn run_ack(
    s: Store,
    doc: NotificationView,
    task: TaskView,
    uid: Id,
    tid: Id,
    sender: Id,
    status: i8,
    message: Seq<char>,
    stage: AckStage,
    reply: ReplyView,
    fuel: nat,
) -> (Store, Result<bool, Error>)
    decreases fuel,
{
    let (d1, t1, mv) = ack_step(doc, task, uid, tid, sender, status, message, stage, reply);
    match mv {
        Move::Done(r) => (s, r),
        Move::Run(stmt, next) => if fuel == 0 {
            (s, Err(Error::BadReply))
        } else {
            run_ack(
                s.after(stmt),
                d1,
                t1,
                uid,
                tid,
                sender,
                status,
                message,
                next,
                s.reply(stmt),
                (fuel - 1) as nat,
            )
        },
    }
}

/// A whole acknowledgement, run alone against the store.
pub open spec fn ack_alone(s: Store, uid: Id, tid: Id, sender: Id, status: i8, message: Seq<char>) -> (
    Store,
    Result<bool, Error>,
) {
    run_ack(
        s,
        NotificationView::keyed(uid, tid, sender),
        TaskView::blank(),
        uid,
        tid,
        sender,
        status,
        message,
        AckStage::Begin,
        ReplyView::Start,
        6,
    )
}

/// How many statements a vote can still issue after the one of the stage.
pub open spec fn vote_rank(stage: VoteStage) -> nat {
    match stage {
        VoteStage::Begin => 4,
        VoteStage::Members => 3,
        VoteStage::Recorded => 2,
        VoteStage::Tally => 1,
        VoteStage::Settled => 0,
    }
}

/// The store after an acknowledgement whose vote has ended with `voted` on the store
/// `s`: where the vote succeeded, the notification under the key holds the new status
/// and message.
pub open spec fn ack_settled(
    s: Store,
    voted: Result<bool, Error>,
    key: (Id, Id, Id),
    status: i8,
    message: Seq<char>,
) -> (Store, Result<bool, Error>) {
    match voted {
        Err(e) => (s, Err(e)),
        Ok(_) => (
            Store {
                notifications: s.notifications.insert(
                    key,
                    NotificationView { status, message, ..s.notifications[key] },
                ),
                ..s
            },
            Ok(true),
        ),
    }
}

/// A vote run from any stage leaves the notifications alone.
pub proof fn lemma_vote_keeps_notifications(
    s: Store,
    t: TaskView,
    voter: Id,
    vote: Vote,
    stage: VoteStage,
    reply: ReplyView,
    fuel: nat,
)
    ensures
        run_vote(s, t, voter, vote, stage, reply, fuel).0.notifications == s.notifications,
        run_vote(s, t, voter, vote, stage, reply, fuel).0.group_notifications == s.group_notifications,
    decreases fuel,
{
    let (t1, mv) = vote_step(t, voter, vote, stage, reply);
    match mv {
        Move::Done(_) => {},
        Move::Run(stmt, next) => {
            if fuel > 0 {
                lemma_vote_keeps_notifications(s.after(stmt), t1, voter, vote, next, s.reply(stmt), (fuel - 1) as nat);
            }
        },
    }
}

/// The part of an acknowledgement that votes does what the vote alone does, and then
/// writes the acknowledgement if the vote succeeded.
pub proof fn lemma_ack_voting(
    s: Store,
    doc: NotificationView,
    task: TaskView,
    uid: Id,
    tid: Id,
    sender: Id,
    status: i8,
    message: Seq<char>,
    stage: VoteStage,
    reply: ReplyView,
    fuel: nat,
)
    requires
        Vote::spec_of_status(status) is Some,
        fuel >= vote_rank(stage),
        s.notifications.contains_key((doc.uid, doc.tid, doc.sender)),
    ensures
        ({
            let vote = Vote::spec_of_status(status)->Some_0;
            let (sv, rv) = run_vote(s, task, doc.uid, vote, stage, reply, fuel);
            run_ack(s, doc, task, uid, tid, sender, status, message, AckStage::Voting(stage), reply, fuel + 1)
                == ack_settled(sv, rv, (doc.uid, doc.tid, doc.sender), status, message)
        }),
    decreases fuel,
{
    let vote = Vote::spec_of_status(status)->Some_0;
    let key = (doc.uid, doc.tid, doc.sender);
    let (t1, mv) = vote_step(task, doc.uid, vote, stage, reply);
    reveal_with_fuel(run_ack, 3);
    match mv {
        Move::Done(Err(e)) => {},
        Move::Done(Ok(_)) => {
            let acked = NotificationView { status, message, ..doc };
            let write = Statement::NotificationUpdate { uid: doc.uid, tid: doc.tid, sender: doc.sender, status, message };
            assert(s.reply(write) == ReplyView::Applied(true));
            assert(s.after(write) == Store {
                notifications: s.notifications.insert(key, NotificationView { status, message, ..s.notifications[key] }),
                ..s
            });
        },
        Move::Run(stmt, next) => {
            assert(vote_rank(next) < vote_rank(stage));
            assert(s.after(stmt).notifications == s.notifications);
            lemma_ack_voting(
                s.after(stmt),
                doc,
                t1,
                uid,
                tid,
                sender,
                status,
                message,
                next,
                s.reply(stmt),
                (fuel - 1) as nat,
            );
        },
    }
}

/// What an acknowledgement run alone comes to: a status that is no vote is refused; a
/// missing notification is reported; a notification that holds the status already gives
/// `Ok(false)` and nothing is written; otherwise the recipient's vote is cast on the
/// task of the notification, and where that succeeds the notification takes the status
/// and the message.
pub proof fn lemma_ack_alone(s: Store, uid: Id, tid: Id, sender: Id, status: i8, message: Seq<char>)
    requires
        s.sound(),
    ensures
        ack_alone(s, uid, tid, sender, status, message) == match Vote::spec_of_status(status) {
            None => (s, Err::<bool, Error>(Error::InvalidStatus(status))),
            Some(vote) => if !s.notifications.contains_key((uid, tid, sender)) {
                (s, Err::<bool, Error>(Error::NotFound))
            } else if s.notifications[(uid, tid, sender)].status == status {
                (s, Ok::<bool, Error>(false))
            } else {
                let (sv, rv) = vote_alone(s, sender, tid, uid, vote);
                ack_settled(sv, rv, (uid, tid, sender), status, message)
            },
        },
{
    reveal_with_fuel(run_ack, 3);
    reveal_with_fuel(run_vote, 2);
    let key = (uid, tid, sender);
    match Vote::spec_of_status(status) {
        None => {},
        Some(vote) => {
            let d0 = NotificationView::keyed(uid, tid, sender);
            let get = Statement::NotificationGet { uid, tid, sender };
            let (d1, t1, m1) = ack_step(
                d0,
                TaskView::blank(),
                uid,
                tid,
                sender,
                status,
                message,
                AckStage::Begin,
                ReplyView::Start,
            );
            assert(m1 == Move::<AckStage, bool>::Run(get, AckStage::Loaded));
            assert(s.after(get) == s);
            if s.notifications.contains_key(key) {
                let row = s.notifications[key];
                let (d2, t2, m2) = ack_step(
                    d1,
                    t1,
                    uid,
                    tid,
                    sender,
                    status,
                    message,
                    AckStage::Loaded,
                    s.reply(get),
                );
                assert(d2.uid == uid && d2.tid == tid && d2.sender == sender);
                if row.status != status {
                    let members = Statement::TaskGet { uid: sender, id: tid, fields: member_fields() };
                    assert(m2 == Move::<AckStage, bool>::Run(members, AckStage::Voting(VoteStage::Members)));
                    assert(s.after(members) == s);
                    lemma_ack_voting(
                        s,
                        d2,
                        t2,
                        uid,
                        tid,
                        sender,
                        status,
                        message,
                        VoteStage::Members,
                        s.reply(members),
                        3,
                    );
                }
            }
        },
    }
}

/// An acknowledgement that is repeated changes nothing the second time; and where the
/// first one succeeded, the second one answers `Ok(false)`.
pub proof fn lemma_ack_twice(s: Store, uid: Id, tid: Id, sender: Id, status: i8, message: Seq<char>)
    requires
        s.sound(),
    ensures
        ({
            let (once, first) = ack_alone(s, uid, tid, sender, status, message);
            let (twice, second) = ack_alone(once, uid, tid, sender, status, message);
            &&& twice == once
            &&& first is Ok ==> second == Ok::<bool, Error>(false)
        }),
{
    lemma_ack_alone(s, uid, tid, sender, status, message);
    let (once, first) = ack_alone(s, uid, tid, sender, status, message);
    let key = (uid, tid, sender);
    match Vote::spec_of_status(status) {
        None => {},
        Some(vote) => {
            if s.notifications.contains_key(key) && s.notifications[key].status != status {
                lemma_vote_alone(s, sender, tid, uid, vote);
                lemma_vote_keeps_notifications(
                    s,
                    TaskView::keyed(sender, tid),
                    uid,
                    vote,
                    VoteStage::Begin,
                    ReplyView::Start,
                    4,
                );
                let (sv, rv) = vote_alone(s, sender, tid, uid, vote);
                if rv is Ok {
                    assert(once.notifications[key].status == status);
                    assert(once.sound()) by {
                        assert forall|k: (Id, Id)| #[trigger] once.tasks.contains_key(k) implies once.tasks[k].uid
                            == k.0 && once.tasks[k].id == k.1 by {
                            if k != (sender, tid) {
                                assert(s.tasks.contains_key(k));
                            }
                        }
                        assert forall|k: (Id, Id, Id)| #[trigger]
                            once.notifications.contains_key(k) implies once.notifications[k].uid == k.0
                            && once.notifications[k].tid == k.1 && once.notifications[k].sender == k.2 by {
                            if k != key {
                                assert(s.notifications.contains_key(k));
                            }
                        }
                    }
                } else {
                    assert(once == s);
                }
            }
            lemma_ack_alone(once, uid, tid, sender, status, message);
        },
    }
}

/// An acknowledgement with the status that the notification holds ends at once, with
/// `Ok(false)`: it issues no statement after the read, so no vote and no write.
pub proof fn lemma_ack_same_status(
    doc: NotificationView,
    task: TaskView,
    uid: Id,
    tid: Id,
    sender: Id,
    status: i8,
    message: Seq<char>,
    row: NotificationView,
)
    requires
        Vote::spec_of_status(status) is Some,
        row.status == status,
    ensures
        ack_step(
            doc,
            task,
            uid,
            tid,
            sender,
            status,
            message,
            AckStage::Loaded,
            ReplyView::Notification(row),
        ).2 == Move::<AckStage, bool>::Done(Ok(false)),
{
}

} // verus!
