use taskbase::api::notification::{
    batch_delete as notification_batch_delete, delete as notification_delete, list as notification_list,
    DeleteNotificationInput, FeedStage, NotificationOutput,
};
use taskbase::api::task::{
    ack, create, delete, get, list, AckStage, AckTaskInput, CreateStage, CreateTaskInput, DeleteTaskInput,
    QueryTask, TeardownStage,
};
use taskbase::api::Pagination;
use taskbase::db::model_notification::SweepStage;
use taskbase::db::model_task::{AssigneesStage, DeleteStage, UpdateStage, VoteStage};
use taskbase::db::{GroupNotification, Notification, Task};
use taskbase::error::{Error, Required, Vote, Write};
use taskbase::id::Id;
use taskbase::idset::IdSet;
use taskbase::store::{Change, Fetch, Next, Query, Reply, Table, Trip, Value};

fn id(n: u8) -> Id {
    let mut raw = [0u8; 12];
    raw[11] = n;
    Id::from_raw(raw)
}

fn set(ids: &[Id]) -> IdSet {
    IdSet::from_ids(&ids.to_vec())
}

fn sorted(s: &IdSet) -> Vec<Id> {
    let mut v = s.to_vec();
    v.sort_by_key(|x| x.raw);
    v
}

fn names(v: &[&str]) -> Vec<String> {
    v.iter().map(|s| s.to_string()).collect()
}

/// A store in memory that understands the statements by their text.
struct Fake {
    tasks: Vec<Task>,
    notifications: Vec<Notification>,
    groups: Vec<GroupNotification>,
    log: Vec<String>,
}

fn as_id(v: &Value) -> Id {
    match v {
        Value::Id(x) => *x,
        other => panic!("not an id: {:?}", other),
    }
}

fn as_i8(v: &Value) -> i8 {
    match v {
        Value::TinyInt(x) => *x,
        other => panic!("not a tinyint: {:?}", other),
    }
}

fn as_i16(v: &Value) -> i16 {
    match v {
        Value::SmallInt(x) => *x,
        other => panic!("not a smallint: {:?}", other),
    }
}

fn as_i32(v: &Value) -> i32 {
    match v {
        Value::Int(x) => *x,
        other => panic!("not an int: {:?}", other),
    }
}

fn as_i64(v: &Value) -> i64 {
    match v {
        Value::BigInt(x) => *x,
        other => panic!("not a bigint: {:?}", other),
    }
}

fn as_text(v: &Value) -> String {
    match v {
        Value::Text(x) => x.clone(),
        other => panic!("not a text: {:?}", other),
    }
}

fn as_bytes(v: &Value) -> Vec<u8> {
    match v {
        Value::Bytes(x) => x.clone(),
        other => panic!("not bytes: {:?}", other),
    }
}

fn as_ids(v: &Value) -> Vec<Id> {
    match v {
        Value::Ids(x) => x.clone(),
        other => panic!("not a set of ids: {:?}", other),
    }
}

const TASK_INSERT: &str = "INSERT INTO task (uid,id,gid,status,kind,created_at,updated_at,duedate,threshold,approvers,assignees,resolved,rejected,message,payload) VALUES (?,?,?,?,?,?,?,?,?,?,?,?,?,?,?) IF NOT EXISTS";
const TASK_GET_TAIL: &str = " FROM task WHERE uid=? AND id=? LIMIT 1";
const VOTE_RESOLVE: &str =
    "UPDATE task SET rejected=rejected-{?}, resolved=resolved+{?} WHERE uid=? AND id=? IF EXISTS";
const VOTE_REJECT: &str =
    "UPDATE task SET resolved=resolved-{?}, rejected=rejected+{?} WHERE uid=? AND id=? IF EXISTS";
const SET_STATUS: &str = "UPDATE task SET status=? WHERE uid=? AND id=? IF EXISTS";
const TASK_DELETE: &str = "DELETE FROM task WHERE uid=? AND id=?";
const SCAN_TAIL: &str = " LIMIT ? BYPASS CACHE USING TIMEOUT 3s";
const NOTIFICATION_GET: &str =
    "SELECT uid,tid,sender,status,message FROM notification WHERE uid=? AND tid=? AND sender=? LIMIT 1";
const NOTIFICATION_INSERT: &str =
    "INSERT INTO notification (uid,tid,sender,status,message) VALUES (?,?,?,?,?) IF NOT EXISTS";
const NOTIFICATION_UPDATE: &str =
    "UPDATE notification SET status=?,message=? WHERE uid=? AND tid=? AND sender=? IF EXISTS";
const NOTIFICATION_DELETE: &str = "DELETE FROM notification WHERE uid=? AND tid=? AND sender=?";
const NOTIFICATION_SCAN: &str =
    "SELECT uid,tid,sender FROM notification WHERE tid=? LIMIT ? BYPASS CACHE USING TIMEOUT 3s";
const GROUP_GET: &str =
    "SELECT gid,tid,sender,role FROM group_notification WHERE gid=? AND tid=? AND sender=? LIMIT 1";
const GROUP_INSERT: &str = "INSERT INTO group_notification (gid,tid,sender,role) VALUES (?,?,?,?) IF NOT EXISTS";
const GROUP_DELETE: &str = "DELETE FROM group_notification WHERE gid=? AND tid=? AND sender=?";

impl Fake {
    fn new() -> Fake {
        Fake { tasks: Vec::new(), notifications: Vec::new(), groups: Vec::new(), log: Vec::new() }
    }

    fn task(&self, uid: Id, id: Id) -> Option<usize> {
        self.tasks.iter().position(|t| t.uid == uid && t.id == id)
    }

    fn notification(&self, uid: Id, tid: Id, sender: Id) -> Option<usize> {
        self.notifications.iter().position(|n| n.uid == uid && n.tid == tid && n.sender == sender)
    }

    fn group(&self, gid: Id, tid: Id, sender: Id) -> Option<usize> {
        self.groups.iter().position(|n| n.gid == gid && n.tid == tid && n.sender == sender)
    }

    fn project(row: &Task, fields: &[String]) -> Task {
        let mut t = Task::new();
        for f in fields {
            match f.as_str() {
                "uid" => t.uid = row.uid,
                "id" => t.id = row.id,
                "gid" => t.gid = row.gid,
                "status" => t.status = row.status,
                "kind" => t.kind = row.kind.clone(),
                "created_at" => t.created_at = row.created_at,
                "updated_at" => t.updated_at = row.updated_at,
                "duedate" => t.duedate = row.duedate,
                "threshold" => t.threshold = row.threshold,
                "approvers" => t.approvers = row.approvers.clone(),
                "assignees" => t.assignees = row.assignees.clone(),
                "resolved" => t.resolved = row.resolved.clone(),
                "rejected" => t.rejected = row.rejected.clone(),
                "message" => t.message = row.message.clone(),
                "payload" => t.payload = row.payload.clone(),
                other => panic!("unknown column {}", other),
            }
        }
        t
    }

    fn run(&mut self, q: &Query) -> Reply {
        self.log.push(q.cql.clone());
        let p = &q.params;
        let cql = q.cql.as_str();
        if cql.starts_with("SELECT ") && cql.ends_with(TASK_GET_TAIL) {
            assert_eq!(q.fetch, Fetch::One(Table::Task));
            assert_eq!(cql, format!("SELECT {}{}", q.fields.join(","), TASK_GET_TAIL));
            assert_eq!(p.len(), 2);
            return match self.task(as_id(&p[0]), as_id(&p[1])) {
                Some(i) => Reply::Task(Fake::project(&self.tasks[i], &q.fields)),
                None => Reply::NotFound,
            };
        }
        if cql == TASK_INSERT {
            assert_eq!(q.fetch, Fetch::Applied);
            assert_eq!(p.len(), 15);
            let mut t = Task::with_pk(as_id(&p[0]), as_id(&p[1]));
            t.gid = as_id(&p[2]);
            t.status = as_i8(&p[3]);
            t.kind = as_text(&p[4]);
            t.created_at = as_i64(&p[5]);
            t.updated_at = as_i64(&p[6]);
            t.duedate = as_i64(&p[7]);
            t.threshold = as_i16(&p[8]);
            t.approvers = IdSet::from_ids(&as_ids(&p[9]));
            t.assignees = IdSet::from_ids(&as_ids(&p[10]));
            t.resolved = IdSet::from_ids(&as_ids(&p[11]));
            t.rejected = IdSet::from_ids(&as_ids(&p[12]));
            t.message = as_text(&p[13]);
            t.payload = as_bytes(&p[14]);
            if self.task(t.uid, t.id).is_some() {
                return Reply::Applied(false);
            }
            self.tasks.push(t);
            return Reply::Applied(true);
        }
        if cql.starts_with("UPDATE task SET updated_at=?") {
            assert_eq!(q.fetch, Fetch::Applied);
            let tail = " WHERE uid=? AND id=? IF updated_at=?";
            assert!(cql.ends_with(tail));
            let sets = &cql["UPDATE task SET updated_at=?".len()..cql.len() - tail.len()];
            let n = p.len();
            let (uid, tid, expected) = (as_id(&p[n - 3]), as_id(&p[n - 2]), as_i64(&p[n - 1]));
            let i = match self.task(uid, tid) {
                Some(i) if self.tasks[i].updated_at == expected => i,
                _ => return Reply::Applied(false),
            };
            self.tasks[i].updated_at = as_i64(&p[0]);
            match sets {
                "" => assert_eq!(n, 4),
                ",duedate=?" => self.tasks[i].duedate = as_i64(&p[1]),
                ",message=?" => self.tasks[i].message = as_text(&p[1]),
                ",duedate=?,message=?" => {
                    self.tasks[i].duedate = as_i64(&p[1]);
                    self.tasks[i].message = as_text(&p[2]);
                }
                other => panic!("unknown sets {}", other),
            }
            return Reply::Applied(true);
        }
        if cql.starts_with("UPDATE task SET assignees=assignees") {
            assert_eq!(q.fetch, Fetch::Applied);
            let add = cql.starts_with("UPDATE task SET assignees=assignees+{ ");
            let n = p.len() - 4;
            let marks = vec!["?"; n].join(",");
            let sign = if add { "+" } else { "-" };
            assert_eq!(
                cql,
                format!(
                    "UPDATE task SET assignees=assignees{}{{ {} }}, updated_at=? WHERE uid=? AND id=? IF updated_at=?",
                    sign, marks
                )
            );
            let (stamp, uid, tid, expected) =
                (as_i64(&p[n]), as_id(&p[n + 1]), as_id(&p[n + 2]), as_i64(&p[n + 3]));
            let i = match self.task(uid, tid) {
                Some(i) if self.tasks[i].updated_at == expected => i,
                _ => return Reply::Applied(false),
            };
            for v in &p[..n] {
                if add {
                    self.tasks[i].assignees.insert(as_id(v));
                } else {
                    self.tasks[i].assignees.remove(&as_id(v));
                }
            }
            self.tasks[i].updated_at = stamp;
            return Reply::Applied(true);
        }
        if cql == VOTE_RESOLVE || cql == VOTE_REJECT {
            assert_eq!(q.fetch, Fetch::Applied);
            assert_eq!(p.len(), 4);
            assert_eq!(p[0], p[1]);
            let voter = as_id(&p[0]);
            let i = match self.task(as_id(&p[2]), as_id(&p[3])) {
                Some(i) => i,
                None => return Reply::Applied(false),
            };
            if cql == VOTE_RESOLVE {
                self.tasks[i].rejected.remove(&voter);
                self.tasks[i].resolved.insert(voter);
            } else {
                self.tasks[i].resolved.remove(&voter);
                self.tasks[i].rejected.insert(voter);
            }
            return Reply::Applied(true);
        }
        if cql == SET_STATUS {
            assert_eq!(q.fetch, Fetch::Applied);
            return match self.task(as_id(&p[1]), as_id(&p[2])) {
                Some(i) => {
                    self.tasks[i].status = as_i8(&p[0]);
                    Reply::Applied(true)
                }
                None => Reply::Applied(false),
            };
        }
        if cql == TASK_DELETE {
            assert_eq!(q.fetch, Fetch::Nothing);
            let (uid, tid) = (as_id(&p[0]), as_id(&p[1]));
            self.tasks.retain(|t| !(t.uid == uid && t.id == tid));
            return Reply::Done;
        }
        if cql == "DELETE FROM task WHERE uid=?" {
            let uid = as_id(&p[0]);
            self.tasks.retain(|t| t.uid != uid);
            return Reply::Done;
        }
        if cql == "DELETE FROM task WHERE uid=? AND status=?" {
            let (uid, status) = (as_id(&p[0]), as_i8(&p[1]));
            self.tasks.retain(|t| !(t.uid == uid && t.status == status));
            return Reply::Done;
        }
        if cql.starts_with("SELECT ") && cql.contains(" FROM task WHERE uid=?") && cql.ends_with(SCAN_TAIL) {
            let head = format!("SELECT {} FROM task WHERE uid=?", q.fields.join(","));
            let rest = &cql[head.len()..cql.len() - SCAN_TAIL.len()];
            assert!(cql.starts_with(&head));
            let uid = as_id(&p[0]);
            let (status, token) = match rest {
                "" => (None, None),
                " AND status=?" => (Some(as_i8(&p[1])), None),
                " AND id<?" => (None, Some(as_id(&p[1]))),
                " AND status=? AND id<?" => (Some(as_i8(&p[1])), Some(as_id(&p[2]))),
                other => panic!("unknown filter {}", other),
            };
            let limit = as_i32(&p[p.len() - 1]);
            assert_eq!(limit, q.page_size);
            assert_eq!(q.fetch, if token.is_some() { Fetch::Page(Table::Task) } else { Fetch::All(Table::Task) });
            let mut rows: Vec<&Task> = self
                .tasks
                .iter()
                .filter(|t| t.uid == uid)
                .filter(|t| status.map_or(true, |s| t.status == s))
                .filter(|t| token.map_or(true, |k| t.id.raw < k.raw))
                .collect();
            rows.sort_by(|a, b| b.id.raw.cmp(&a.id.raw));
            rows.truncate(limit as usize);
            return Reply::Tasks(rows.into_iter().map(|t| Fake::project(t, &q.fields)).collect());
        }
        if cql == NOTIFICATION_GET {
            assert_eq!(q.fetch, Fetch::One(Table::Notification));
            return match self.notification(as_id(&p[0]), as_id(&p[1]), as_id(&p[2])) {
                Some(i) => Reply::Notification(self.notifications[i].clone()),
                None => Reply::NotFound,
            };
        }
        if cql == NOTIFICATION_INSERT {
            assert_eq!(q.fetch, Fetch::Applied);
            let mut n = Notification::with_pk(as_id(&p[0]), as_id(&p[1]), as_id(&p[2]));
            n.status = as_i8(&p[3]);
            n.message = as_text(&p[4]);
            if self.notification(n.uid, n.tid, n.sender).is_some() {
                return Reply::Applied(false);
            }
            self.notifications.push(n);
            return Reply::Applied(true);
        }
        if cql == NOTIFICATION_UPDATE {
            assert_eq!(q.fetch, Fetch::Applied);
            return match self.notification(as_id(&p[2]), as_id(&p[3]), as_id(&p[4])) {
                Some(i) => {
                    self.notifications[i].status = as_i8(&p[0]);
                    self.notifications[i].message = as_text(&p[1]);
                    Reply::Applied(true)
                }
                None => Reply::Applied(false),
            };
        }
        if cql == NOTIFICATION_DELETE {
            assert_eq!(q.fetch, Fetch::Nothing);
            let (uid, tid, sender) = (as_id(&p[0]), as_id(&p[1]), as_id(&p[2]));
            self.notifications.retain(|n| !(n.uid == uid && n.tid == tid && n.sender == sender));
            return Reply::Done;
        }
        if cql == NOTIFICATION_SCAN {
            assert_eq!(q.fetch, Fetch::All(Table::Notification));
            assert_eq!(q.page_size, 1000);
            assert_eq!(as_i32(&p[1]), 1000);
            let tid = as_id(&p[0]);
            return Reply::Notifications(
                self.notifications
                    .iter()
                    .filter(|n| n.tid == tid)
                    .take(1000)
                    .map(|n| Notification::with_pk(n.uid, n.tid, n.sender))
                    .collect(),
            );
        }
        if cql == "DELETE FROM notification WHERE uid=?" {
            let uid = as_id(&p[0]);
            self.notifications.retain(|n| n.uid != uid);
            return Reply::Done;
        }
        if cql == "DELETE FROM notification WHERE uid=? AND status=?" {
            let (uid, status) = (as_id(&p[0]), as_i8(&p[1]));
            self.notifications.retain(|n| !(n.uid == uid && n.status == status));
            return Reply::Done;
        }
        if cql.starts_with("SELECT uid,tid,sender,status,message FROM notification WHERE uid=?")
            && cql.ends_with(SCAN_TAIL)
        {
            let head = "SELECT uid,tid,sender,status,message FROM notification WHERE uid=?";
            let rest = &cql[head.len()..cql.len() - SCAN_TAIL.len()];
            let uid = as_id(&p[0]);
            let (status, token) = match rest {
                "" => (None, None),
                " AND status=?" => (Some(as_i8(&p[1])), None),
                " AND tid<?" => (None, Some(as_id(&p[1]))),
                " AND status=? AND tid<?" => (Some(as_i8(&p[1])), Some(as_id(&p[2]))),
                other => panic!("unknown filter {}", other),
            };
            let limit = as_i32(&p[p.len() - 1]);
            let mut rows: Vec<&Notification> = self
                .notifications
                .iter()
                .filter(|n| n.uid == uid)
                .filter(|n| status.map_or(true, |s| n.status == s))
                .filter(|n| token.map_or(true, |k| n.tid.raw < k.raw))
                .collect();
            rows.sort_by(|a, b| b.tid.raw.cmp(&a.tid.raw));
            rows.truncate(limit as usize);
            return Reply::Notifications(rows.into_iter().cloned().collect());
        }
        if cql == GROUP_GET {
            return match self.group(as_id(&p[0]), as_id(&p[1]), as_id(&p[2])) {
                Some(i) => Reply::GroupNotification(self.groups[i].clone()),
                None => Reply::NotFound,
            };
        }
        if cql == GROUP_INSERT {
            let mut n = GroupNotification::with_pk(as_id(&p[0]), as_id(&p[1]), as_id(&p[2]));
            n.role = as_i8(&p[3]);
            if self.group(n.gid, n.tid, n.sender).is_some() {
                return Reply::Applied(false);
            }
            self.groups.push(n);
            return Reply::Applied(true);
        }
        if cql == GROUP_DELETE {
            let (gid, tid, sender) = (as_id(&p[0]), as_id(&p[1]), as_id(&p[2]));
            self.groups.retain(|n| !(n.gid == gid && n.tid == tid && n.sender == sender));
            return Reply::Done;
        }
        if cql.starts_with("SELECT gid,tid,sender,role FROM group_notification WHERE gid=?")
            && cql.ends_with(SCAN_TAIL)
        {
            let head = "SELECT gid,tid,sender,role FROM group_notification WHERE gid=?";
            let rest = &cql[head.len()..cql.len() - SCAN_TAIL.len()];
            let gid = as_id(&p[0]);
            let (role, token) = match rest {
                "" => (None, None),
                " AND role=?" => (Some(as_i8(&p[1])), None),
                " AND tid<?" => (None, Some(as_id(&p[1]))),
                " AND role=? AND tid<?" => (Some(as_i8(&p[1])), Some(as_id(&p[2]))),
                other => panic!("unknown filter {}", other),
            };
            let limit = as_i32(&p[p.len() - 1]);
            let mut rows: Vec<&GroupNotification> = self
                .groups
                .iter()
                .filter(|n| n.gid == gid)
                .filter(|n| role.map_or(true, |r| n.role == r))
                .filter(|n| token.map_or(true, |k| n.tid.raw < k.raw))
                .collect();
            rows.sort_by(|a, b| b.tid.raw.cmp(&a.tid.raw));
            rows.truncate(limit as usize);
            return Reply::GroupNotifications(rows.into_iter().cloned().collect());
        }
        panic!("the store does not know this statement: {}", cql);
    }

    /// Runs an operation to its end, answering each statement from the store.
    fn drive<S: Copy, T>(&mut self, start: S, mut step: impl FnMut(S, Reply) -> Next<S, T>) -> Result<T, Error> {
        let mut stage = start;
        let mut reply = Reply::Start;
        let mut rounds = 0;
        loop {
            match step(stage, reply) {
                Next::Run(q, s) => {
                    reply = self.run(&q);
                    stage = s;
                }
                Next::Done(r) => return r,
            }
            rounds += 1;
            assert!(rounds < 10_000, "the operation does not end");
        }
    }

    fn resolve(&mut self, owner: Id, task: Id, voter: Id) -> Result<bool, Error> {
        let mut t = Task::with_pk(owner, task);
        self.drive(VoteStage::Begin, |s, r| t.update_resolved(voter, s, r))
    }

    fn reject(&mut self, owner: Id, task: Id, voter: Id) -> Result<bool, Error> {
        let mut t = Task::with_pk(owner, task);
        self.drive(VoteStage::Begin, |s, r| t.update_rejected(voter, s, r))
    }

    fn ack(&mut self, uid: Id, tid: Id, sender: Id, status: i8, message: &str) -> Result<bool, Error> {
        let input = AckTaskInput { uid, tid, sender, status, message: message.to_string() };
        let mut doc = Notification::default();
        let mut task = Task::new();
        self.drive(AckStage::Begin, |s, r| ack(&input, &mut doc, &mut task, s, r))
    }

    fn create(&mut self, input: &CreateTaskInput, now: i64) -> Result<taskbase::api::task::TaskOutput, Error> {
        let mut doc = Task::new();
        self.drive(CreateStage::Begin, |s, r| create(input, &mut doc, now, s, r))
    }
}

const OWNER: u8 = 100;
const GROUP: u8 = 101;
const A: u8 = 1;
const B: u8 = 2;
const C: u8 = 3;
const D: u8 = 4;

fn input(threshold: i16, approvers: &[u8], assignees: &[u8]) -> CreateTaskInput {
    CreateTaskInput {
        uid: id(OWNER),
        gid: id(GROUP),
        kind: "review".to_string(),
        threshold,
        approvers: approvers.iter().map(|n| id(*n)).collect(),
        assignees: assignees.iter().map(|n| id(*n)).collect(),
        message: "please look".to_string(),
        payload: vec![7, 8, 9],
        group_role: None,
    }
}

#[test]
fn threshold_of_two_is_crossed_by_the_second_vote() {
    let mut fake = Fake::new();
    let out = fake.create(&input(2, &[], &[A, B, C]), 1000).unwrap();
    let task = out.id;

    assert_eq!(fake.resolve(id(OWNER), task, id(A)), Ok(true));
    assert_eq!(sorted(&fake.tasks[0].resolved), vec![id(A)]);
    assert_eq!(fake.tasks[0].status, 0);

    assert_eq!(fake.resolve(id(OWNER), task, id(B)), Ok(true));
    assert_eq!(sorted(&fake.tasks[0].resolved), vec![id(A), id(B)]);
    assert_eq!(fake.tasks[0].status, 1);

    // One vote against does not carry: one is below the threshold of two.
    assert_eq!(fake.reject(id(OWNER), task, id(C)), Ok(true));
    assert_eq!(sorted(&fake.tasks[0].rejected), vec![id(C)]);
    assert_eq!(sorted(&fake.tasks[0].resolved), vec![id(A), id(B)]);
    assert_eq!(fake.tasks[0].status, 1);
}

#[test]
fn an_assignee_votes_but_only_an_approver_decides() {
    let mut fake = Fake::new();
    let out = fake.create(&input(1, &[A], &[B]), 1000).unwrap();
    let task = out.id;

    assert_eq!(fake.resolve(id(OWNER), task, id(B)), Ok(true));
    assert_eq!(sorted(&fake.tasks[0].resolved), vec![id(B)]);
    assert_eq!(fake.tasks[0].status, 0);

    assert_eq!(fake.resolve(id(OWNER), task, id(A)), Ok(true));
    assert_eq!(sorted(&fake.tasks[0].resolved), vec![id(A), id(B)]);
    assert_eq!(fake.tasks[0].status, 1);
}

#[test]
fn rejecting_mirrors_resolving() {
    let mut fake = Fake::new();
    let out = fake.create(&input(1, &[A], &[B]), 1000).unwrap();
    let task = out.id;

    assert_eq!(fake.reject(id(OWNER), task, id(B)), Ok(true));
    assert_eq!(fake.tasks[0].status, 0);
    assert_eq!(fake.reject(id(OWNER), task, id(A)), Ok(true));
    assert_eq!(fake.tasks[0].status, -1);
    assert_eq!(sorted(&fake.tasks[0].rejected), vec![id(A), id(B)]);
}

#[test]
fn an_approved_task_can_still_be_rejected() {
    let mut fake = Fake::new();
    let out = fake.create(&input(1, &[], &[A, B, C]), 1000).unwrap();
    let task = out.id;
    assert_eq!(fake.resolve(id(OWNER), task, id(A)), Ok(true));
    assert_eq!(fake.tasks[0].status, 1);
    assert_eq!(fake.reject(id(OWNER), task, id(B)), Ok(true));
    assert_eq!(fake.tasks[0].status, 1);
    assert_eq!(fake.reject(id(OWNER), task, id(C)), Ok(true));
    assert_eq!(fake.tasks[0].status, -1);
    assert_eq!(fake.reject(id(OWNER), task, id(A)), Ok(true));
    assert_eq!(fake.tasks[0].status, -1);
    assert!(fake.tasks[0].resolved.is_empty());
    assert_eq!(fake.tasks[0].rejected.len(), 3);
}

#[test]
fn a_stranger_may_not_vote_where_approvers_and_assignees_are_named() {
    let mut fake = Fake::new();
    let out = fake.create(&input(1, &[A], &[B]), 1000).unwrap();
    assert_eq!(fake.resolve(id(OWNER), out.id, id(D)), Err(Error::Forbidden(Vote::Resolve)));
    assert_eq!(fake.reject(id(OWNER), out.id, id(D)), Err(Error::Forbidden(Vote::Reject)));
    assert!(fake.tasks[0].resolved.is_empty());
    assert!(fake.tasks[0].rejected.is_empty());
    assert_eq!(fake.tasks[0].status, 0);
    assert!(!fake.log.iter().any(|q| q == VOTE_RESOLVE || q == VOTE_REJECT));
}

#[test]
fn a_stranger_votes_and_decides_where_no_approver_is_named() {
    let mut fake = Fake::new();
    let out = fake.create(&input(1, &[], &[B]), 1000).unwrap();
    assert_eq!(fake.resolve(id(OWNER), out.id, id(D)), Ok(true));
    assert_eq!(sorted(&fake.tasks[0].resolved), vec![id(D)]);
    assert_eq!(fake.tasks[0].status, 1);

    let out = fake.create(&input(1, &[], &[B]), 1001).unwrap();
    assert_eq!(fake.reject(id(OWNER), out.id, id(D)), Ok(true));
    assert_eq!(sorted(&fake.tasks[1].rejected), vec![id(D)]);
    assert_eq!(fake.tasks[1].status, -1);
}

#[test]
fn a_stranger_votes_but_does_not_decide_where_no_assignee_is_named() {
    let mut fake = Fake::new();
    let out = fake.create(&input(1, &[A], &[]), 1000).unwrap();
    assert_eq!(fake.resolve(id(OWNER), out.id, id(D)), Ok(true));
    assert_eq!(sorted(&fake.tasks[0].resolved), vec![id(D)]);
    assert_eq!(fake.tasks[0].status, 0);
    assert_eq!(fake.resolve(id(OWNER), out.id, id(A)), Ok(true));
    assert_eq!(fake.tasks[0].status, 1);
}

#[test]
fn anyone_votes_where_nobody_is_named() {
    let mut fake = Fake::new();
    let out = fake.create(&input(1, &[], &[]), 1000).unwrap();
    assert_eq!(fake.resolve(id(OWNER), out.id, id(D)), Ok(true));
    assert_eq!(fake.tasks[0].status, 1);
}

#[test]
fn a_voter_is_in_one_set_at_most() {
    let mut fake = Fake::new();
    let out = fake.create(&input(5, &[], &[A, B]), 1000).unwrap();
    let task = out.id;
    for round in 0..3 {
        fake.resolve(id(OWNER), task, id(A)).unwrap();
        assert!(fake.tasks[0].resolved.contains(&id(A)));
        assert!(!fake.tasks[0].rejected.contains(&id(A)));
        fake.reject(id(OWNER), task, id(A)).unwrap();
        assert!(!fake.tasks[0].resolved.contains(&id(A)));
        assert!(fake.tasks[0].rejected.contains(&id(A)));
        if round == 1 {
            fake.reject(id(OWNER), task, id(B)).unwrap();
        }
    }
    assert_eq!(fake.tasks[0].rejected.len(), 2);
    assert_eq!(fake.tasks[0].resolved.len(), 0);
}

#[test]
fn a_tie_decides_nothing() {
    let mut fake = Fake::new();
    let out = fake.create(&input(1, &[], &[A, B]), 1000).unwrap();
    let task = out.id;
    fake.tasks[0].rejected = set(&[id(B)]);
    assert_eq!(fake.resolve(id(OWNER), task, id(A)), Ok(true));
    assert_eq!(fake.tasks[0].status, 0);
}

#[test]
fn a_vote_on_a_missing_task_is_not_found() {
    let mut fake = Fake::new();
    assert_eq!(fake.resolve(id(OWNER), id(9), id(A)), Err(Error::NotFound));
}

#[test]
fn a_vote_that_the_store_does_not_apply_is_a_conflict() {
    let mut t = Task::with_pk(id(OWNER), id(9));
    t.approvers = set(&[id(A)]);
    assert!(matches!(
        t.update_resolved(id(A), VoteStage::Recorded, Reply::Applied(false)),
        Next::Done(Err(Error::Conflict(Write::TaskResolve)))
    ));
    assert!(matches!(
        t.update_rejected(id(A), VoteStage::Settled, Reply::Applied(false)),
        Next::Done(Err(Error::Conflict(Write::TaskReject)))
    ));
    assert!(matches!(
        t.update_resolved(id(A), VoteStage::Tally, Reply::Failed("timeout".to_string())),
        Next::Done(Err(Error::Store(m))) if m == "timeout"
    ));
    assert!(matches!(
        t.update_resolved(id(A), VoteStage::Members, Reply::Done),
        Next::Done(Err(Error::BadReply))
    ));
}

#[test]
fn creating_fans_out_to_the_group_and_to_everyone() {
    let mut fake = Fake::new();
    let mut i = input(1, &[A], &[B, C]);
    i.group_role = Some(1);
    let out = fake.create(&i, 1234).unwrap();
    assert_eq!(out.uid, id(OWNER));
    assert_eq!(out.gid, id(GROUP));
    assert_eq!(out.status, 0);
    assert_eq!(out.kind, "review");
    assert_eq!(out.created_at, Some(1234));
    assert_eq!(out.updated_at, Some(1234));
    assert_eq!(out.threshold, Some(1));
    assert_eq!(out.approvers, Some(vec![id(A)]));
    assert_eq!(out.assignees, Some(vec![id(B), id(C)]));
    assert_eq!(out.resolved, Some(vec![]));
    assert_eq!(out.rejected, Some(vec![]));
    assert_eq!(out.message, Some("please look".to_string()));
    assert_eq!(out.payload, Some(vec![7, 8, 9]));

    assert_eq!(fake.tasks.len(), 1);
    assert_eq!(fake.tasks[0].id, out.id);
    assert_eq!(fake.groups.len(), 1);
    assert_eq!((fake.groups[0].gid, fake.groups[0].tid, fake.groups[0].sender), (id(GROUP), out.id, id(OWNER)));
    assert_eq!(fake.groups[0].role, 1);
    let told: Vec<Id> = fake.notifications.iter().map(|n| n.uid).collect();
    assert_eq!(told, vec![id(A), id(B), id(C)]);
    for n in &fake.notifications {
        assert_eq!((n.tid, n.sender, n.status), (out.id, id(OWNER), 0));
    }
    assert_eq!(
        fake.log,
        vec![TASK_INSERT, GROUP_INSERT, NOTIFICATION_INSERT, NOTIFICATION_INSERT, NOTIFICATION_INSERT]
    );
}

#[test]
fn creating_twice_draws_two_identities() {
    let mut fake = Fake::new();
    let a = fake.create(&input(1, &[A], &[]), 1).unwrap();
    let b = fake.create(&input(1, &[A], &[]), 2).unwrap();
    assert_ne!(a.id, b.id);
    assert_ne!(a.id, Id::zero());
    assert_eq!(fake.tasks.len(), 2);
}

#[test]
fn a_notification_that_fails_does_not_fail_the_creation() {
    let i = input(1, &[A], &[B]);
    let mut doc = Task::new();
    let q = match create(&i, &mut doc, 5, CreateStage::Begin, Reply::Start) {
        Next::Run(q, CreateStage::Saved) => q,
        other => panic!("{:?}", other),
    };
    assert_eq!(q.cql, TASK_INSERT);
    let next = create(&i, &mut doc, 5, CreateStage::Saved, Reply::Applied(true));
    assert!(matches!(next, Next::Run(_, CreateStage::Approver { next: 1 })));
    let next = create(&i, &mut doc, 5, CreateStage::Approver { next: 1 }, Reply::Failed("down".to_string()));
    assert!(matches!(next, Next::Run(_, CreateStage::Assignee { next: 1 })));
    let next = create(&i, &mut doc, 5, CreateStage::Assignee { next: 1 }, Reply::Applied(false));
    match next {
        Next::Done(Ok(out)) => assert_eq!(out.id, doc.id),
        other => panic!("{:?}", other),
    }
}

#[test]
fn a_task_that_is_there_already_is_a_conflict() {
    let i = input(1, &[A], &[B]);
    let mut doc = Task::new();
    create(&i, &mut doc, 5, CreateStage::Begin, Reply::Start);
    let next = create(&i, &mut doc, 5, CreateStage::Saved, Reply::Applied(false));
    assert!(matches!(next, Next::Done(Err(Error::Conflict(Write::TaskSave)))));
}

#[test]
fn acking_with_the_status_held_is_a_no_op() {
    let mut fake = Fake::new();
    let out = fake.create(&input(1, &[A], &[B]), 1000).unwrap();
    let task = out.id;

    assert_eq!(fake.ack(id(A), task, id(OWNER), 1, "fine"), Ok(true));
    assert_eq!(fake.tasks[0].status, 1);
    let n = fake.notification(id(A), task, id(OWNER)).unwrap();
    assert_eq!(fake.notifications[n].status, 1);
    assert_eq!(fake.notifications[n].message, "fine");

    let before = fake.log.len();
    assert_eq!(fake.ack(id(A), task, id(OWNER), 1, "again"), Ok(false));
    assert_eq!(&fake.log[before..], &[NOTIFICATION_GET.to_string()]);
    assert_eq!(fake.notifications[n].message, "fine");
    assert_eq!(sorted(&fake.tasks[0].resolved), vec![id(A)]);
}

#[test]
fn acking_votes_before_it_writes_the_notification() {
    let mut fake = Fake::new();
    let out = fake.create(&input(1, &[A], &[B]), 1000).unwrap();
    let before = fake.log.len();
    assert_eq!(fake.ack(id(B), out.id, id(OWNER), -1, "no"), Ok(true));
    let log: Vec<&str> = fake.log[before..].iter().map(|s| s.as_str()).collect();
    assert_eq!(
        log,
        vec![
            NOTIFICATION_GET,
            "SELECT approvers,assignees,gid,status,kind FROM task WHERE uid=? AND id=? LIMIT 1",
            VOTE_REJECT,
            "SELECT threshold,status,resolved,rejected,gid,kind FROM task WHERE uid=? AND id=? LIMIT 1",
            NOTIFICATION_UPDATE,
        ]
    );
    assert_eq!(sorted(&fake.tasks[0].rejected), vec![id(B)]);
    assert_eq!(fake.tasks[0].status, 0);
}

#[test]
fn acking_refuses_a_status_that_is_no_vote() {
    let mut fake = Fake::new();
    assert_eq!(fake.ack(id(A), id(9), id(OWNER), 0, ""), Err(Error::InvalidStatus(0)));
    assert_eq!(fake.ack(id(A), id(9), id(OWNER), 2, ""), Err(Error::InvalidStatus(2)));
    assert!(fake.log.is_empty());
}

#[test]
fn acking_without_a_notification_is_not_found() {
    let mut fake = Fake::new();
    assert_eq!(fake.ack(id(A), id(9), id(OWNER), 1, ""), Err(Error::NotFound));
}

#[test]
fn acking_a_task_that_refuses_the_voter_leaves_the_notification() {
    let mut fake = Fake::new();
    let out = fake.create(&input(1, &[A], &[B]), 1000).unwrap();
    fake.notifications.push(Notification::with_pk(id(D), out.id, id(OWNER)));
    assert_eq!(fake.ack(id(D), out.id, id(OWNER), 1, "me too"), Err(Error::Forbidden(Vote::Resolve)));
    let n = fake.notification(id(D), out.id, id(OWNER)).unwrap();
    assert_eq!(fake.notifications[n].status, 0);
}

fn change(field: &str, value: Value) -> Change {
    Change { field: field.to_string(), value }
}

fn update(fake: &mut Fake, task: Id, cols: &Vec<Change>, token: i64, now: i64) -> (Result<bool, Error>, i64) {
    let mut t = Task::with_pk(id(OWNER), task);
    let r = fake.drive(UpdateStage::Begin, |s, r| t.update(cols, token, now, s, r));
    (r, t.updated_at)
}

#[test]
fn a_scalar_update_stamps_a_new_token() {
    let mut fake = Fake::new();
    let out = fake.create(&input(1, &[A], &[B]), 1000).unwrap();
    let cols = vec![change("duedate", Value::BigInt(77)), change("message", Value::Text("new".to_string()))];
    let (r, token) = update(&mut fake, out.id, &cols, 1000, 2000);
    assert_eq!(r, Ok(true));
    assert_eq!(token, 2000);
    assert_eq!(fake.tasks[0].updated_at, 2000);
    assert_eq!(fake.tasks[0].duedate, 77);
    assert_eq!(fake.tasks[0].message, "new");
    assert_eq!(
        fake.log.last().unwrap(),
        "UPDATE task SET updated_at=?,duedate=?,message=? WHERE uid=? AND id=? IF updated_at=?"
    );
}

#[test]
fn of_two_updates_on_one_token_one_wins() {
    let mut fake = Fake::new();
    let out = fake.create(&input(1, &[A], &[B]), 1000).unwrap();
    let first = vec![change("duedate", Value::BigInt(1))];
    let other = vec![change("message", Value::Text("other".to_string()))];

    // Both read the token 1000, then both write.
    let mut a = Task::with_pk(id(OWNER), out.id);
    let mut b = Task::with_pk(id(OWNER), out.id);
    let qa = match a.update(&first, 1000, 2000, UpdateStage::Begin, Reply::Start) {
        Next::Run(q, UpdateStage::Read) => q,
        other => panic!("{:?}", other),
    };
    let qb = match b.update(&other, 1000, 3000, UpdateStage::Begin, Reply::Start) {
        Next::Run(q, UpdateStage::Read) => q,
        other => panic!("{:?}", other),
    };
    let ra = fake.run(&qa);
    let rb = fake.run(&qb);
    let (wa, sa) = match a.update(&first, 1000, 2000, UpdateStage::Read, ra) {
        Next::Run(q, s) => (q, s),
        other => panic!("{:?}", other),
    };
    let (wb, sb) = match b.update(&other, 1000, 3000, UpdateStage::Read, rb) {
        Next::Run(q, s) => (q, s),
        other => panic!("{:?}", other),
    };
    assert_eq!(sa, UpdateStage::Written { stamp: 2000 });
    let ra = fake.run(&wa);
    let rb = fake.run(&wb);
    assert!(matches!(a.update(&first, 1000, 2000, sa, ra), Next::Done(Ok(true))));
    assert!(matches!(
        b.update(&other, 1000, 3000, sb, rb),
        Next::Done(Err(Error::Conflict(Write::TaskUpdate)))
    ));
    assert_eq!(a.updated_at, 2000);
    assert_eq!(fake.tasks[0].duedate, 1);
    assert_eq!(fake.tasks[0].message, "please look");

    // The loser comes late with the old token, fetches again, and wins.
    let (r, _) = update(&mut fake, out.id, &other, 1000, 3000);
    assert_eq!(r, Err(Error::Stale { stored: 2000, given: 1000 }));
    let (r, token) = update(&mut fake, out.id, &other, 2000, 3000);
    assert_eq!(r, Ok(true));
    assert_eq!(token, 3000);
    assert_eq!(fake.tasks[0].message, "other");
}

#[test]
fn a_scalar_update_takes_only_duedate_and_message() {
    let mut fake = Fake::new();
    let cols = vec![change("duedate", Value::BigInt(1)), change("status", Value::TinyInt(1))];
    let (r, _) = update(&mut fake, id(9), &cols, 0, 1);
    assert_eq!(r, Err(Error::InvalidField("status".to_string())));
    let cols = vec![change("duedate", Value::Text("soon".to_string()))];
    let (r, _) = update(&mut fake, id(9), &cols, 0, 1);
    assert_eq!(r, Err(Error::InvalidValue("duedate".to_string())));
    let cols = vec![change("message", Value::BigInt(3))];
    let (r, _) = update(&mut fake, id(9), &cols, 0, 1);
    assert_eq!(r, Err(Error::InvalidValue("message".to_string())));
    assert!(fake.log.is_empty());
    let (r, _) = update(&mut fake, id(9), &vec![], 0, 1);
    assert_eq!(r, Err(Error::NotFound));
}

fn assign(fake: &mut Fake, task: Id, remove: &[u8], add: &[u8], token: i64, now: i64) -> Result<bool, Error> {
    let remove: Vec<Id> = remove.iter().map(|n| id(*n)).collect();
    let add: Vec<Id> = add.iter().map(|n| id(*n)).collect();
    let mut t = Task::with_pk(id(OWNER), task);
    fake.drive(AssigneesStage::Begin, |s, r| t.update_assignees(&remove, &add, token, now, s, r))
}

#[test]
fn assignees_are_removed_then_added() {
    let mut fake = Fake::new();
    let out = fake.create(&input(1, &[A], &[B, C]), 1000).unwrap();
    let before = fake.log.len();
    assert_eq!(assign(&mut fake, out.id, &[B], &[D, A], 1000, 2000), Ok(true));
    assert_eq!(sorted(&fake.tasks[0].assignees), vec![id(A), id(C), id(D)]);
    assert_eq!(fake.tasks[0].updated_at, 2000);
    let log: Vec<&str> = fake.log[before..].iter().map(|s| s.as_str()).collect();
    assert_eq!(
        log,
        vec![
            "SELECT updated_at,gid,status,kind FROM task WHERE uid=? AND id=? LIMIT 1",
            "UPDATE task SET assignees=assignees-{ ? }, updated_at=? WHERE uid=? AND id=? IF updated_at=?",
            "UPDATE task SET assignees=assignees+{ ?,? }, updated_at=? WHERE uid=? AND id=? IF updated_at=?",
        ]
    );
    assert_eq!(assign(&mut fake, out.id, &[B], &[], 1000, 3000), Err(Error::Stale { stored: 2000, given: 1000 }));
    assert_eq!(assign(&mut fake, out.id, &[], &[], 2000, 3000), Ok(true));
    assert_eq!(fake.tasks[0].updated_at, 2000);
    assert_eq!(assign(&mut fake, out.id, &[], &[B], 2000, 3000), Ok(true));
    assert_eq!(sorted(&fake.tasks[0].assignees), vec![id(A), id(B), id(C), id(D)]);
}

#[test]
fn a_failed_addition_leaves_the_removal() {
    let remove = vec![id(B)];
    let add = vec![id(D)];
    let mut t = Task::with_pk(id(OWNER), id(9));
    let next = t.update_assignees(&remove, &add, 5, 6, AssigneesStage::Removed { stamp: 6 }, Reply::Applied(true));
    let q = match next {
        Next::Run(q, AssigneesStage::Added) => q,
        other => panic!("{:?}", other),
    };
    assert_eq!(
        q.params,
        vec![Value::Id(id(D)), Value::BigInt(6), Value::Id(id(OWNER)), Value::Id(id(9)), Value::BigInt(6)]
    );
    let next = t.update_assignees(&remove, &add, 5, 6, AssigneesStage::Added, Reply::Applied(false));
    assert!(matches!(next, Next::Done(Err(Error::Conflict(Write::TaskUpdate)))));
}

fn teardown(fake: &mut Fake, task: Option<Id>) -> Result<bool, Error> {
    let input = DeleteTaskInput { uid: id(OWNER), id: task, status: None };
    let mut doc = Task::new();
    let mut found = Vec::new();
    fake.drive(TeardownStage::Begin, |s, r| delete(&input, &mut doc, &mut found, s, r))
}

#[test]
fn deleting_a_task_takes_its_notifications_along() {
    let mut fake = Fake::new();
    let mut i = input(1, &[A], &[B, C]);
    i.group_role = Some(0);
    let kept = fake.create(&i, 1).unwrap();
    let gone = fake.create(&i, 2).unwrap();
    assert_eq!(fake.notifications.len(), 6);
    assert_eq!(teardown(&mut fake, Some(gone.id)), Ok(true));
    assert_eq!(fake.tasks.len(), 1);
    assert_eq!(fake.tasks[0].id, kept.id);
    assert_eq!(fake.groups.len(), 1);
    assert_eq!(fake.groups[0].tid, kept.id);
    assert_eq!(fake.notifications.len(), 3);
    assert!(fake.notifications.iter().all(|n| n.tid == kept.id));

    assert_eq!(teardown(&mut fake, Some(gone.id)), Ok(false));
    assert_eq!(teardown(&mut fake, None), Err(Error::MissingField(Required::Id)));
}

#[test]
fn deleting_notifications_leaves_the_task_alone() {
    let mut fake = Fake::new();
    let out = fake.create(&input(1, &[A], &[B, C]), 1000).unwrap();
    fake.ack(id(A), out.id, id(OWNER), 1, "ok").unwrap();
    fake.ack(id(B), out.id, id(OWNER), -1, "no").unwrap();
    let status = fake.tasks[0].status;
    let resolved = sorted(&fake.tasks[0].resolved);
    let rejected = sorted(&fake.tasks[0].rejected);
    let token = fake.tasks[0].updated_at;

    let mut found = Vec::new();
    let r = fake.drive(SweepStage::Begin, |s, r| Notification::batch_delete_by_tid(out.id, &mut found, s, r));
    assert_eq!(r, Ok(()));
    assert!(fake.notifications.is_empty());
    assert_eq!(fake.tasks.len(), 1);
    assert_eq!(fake.tasks[0].status, status);
    assert_eq!(sorted(&fake.tasks[0].resolved), resolved);
    assert_eq!(sorted(&fake.tasks[0].rejected), rejected);
    assert_eq!(fake.tasks[0].updated_at, token);
}

#[test]
fn a_batch_delete_by_status_leaves_the_acked_ones() {
    let mut fake = Fake::new();
    let one = fake.create(&input(1, &[A], &[B]), 1).unwrap();
    let two = fake.create(&input(1, &[A], &[B]), 2).unwrap();
    fake.ack(id(A), one.id, id(OWNER), 1, "ok").unwrap();

    let input = DeleteNotificationInput { uid: id(A), tid: None, sender: None, status: Some(0) };
    let r = fake.drive(Trip::Ask, |s, r| notification_batch_delete(&input, s, r));
    assert_eq!(r, Ok(true));
    assert_eq!(fake.log.last().unwrap(), "DELETE FROM notification WHERE uid=? AND status=?");
    assert!(fake.notification(id(A), one.id, id(OWNER)).is_some());
    assert!(fake.notification(id(A), two.id, id(OWNER)).is_none());
    assert!(fake.notification(id(B), one.id, id(OWNER)).is_some());
    assert!(fake.notification(id(B), two.id, id(OWNER)).is_some());

    let input = DeleteNotificationInput { uid: id(B), tid: None, sender: None, status: None };
    let r = fake.drive(Trip::Ask, |s, r| notification_batch_delete(&input, s, r));
    assert_eq!(r, Ok(true));
    assert_eq!(fake.log.last().unwrap(), "DELETE FROM notification WHERE uid=?");
    assert_eq!(fake.notifications.len(), 1);
}

#[test]
fn deleting_one_notification_needs_its_key() {
    let mut fake = Fake::new();
    let out = fake.create(&input(1, &[A], &[B]), 1).unwrap();
    let input = DeleteNotificationInput { uid: id(A), tid: None, sender: Some(id(OWNER)), status: None };
    assert_eq!(
        fake.drive(Trip::Ask, |s, r| notification_delete(&input, s, r)),
        Err(Error::MissingField(Required::Tid))
    );
    let input = DeleteNotificationInput { uid: id(A), tid: Some(out.id), sender: None, status: None };
    assert_eq!(
        fake.drive(Trip::Ask, |s, r| notification_delete(&input, s, r)),
        Err(Error::MissingField(Required::Sender))
    );
    let input = DeleteNotificationInput { uid: id(A), tid: Some(out.id), sender: Some(id(OWNER)), status: None };
    assert_eq!(fake.drive(Trip::Ask, |s, r| notification_delete(&input, s, r)), Ok(true));
    assert!(fake.notification(id(A), out.id, id(OWNER)).is_none());
    assert_eq!(fake.notifications.len(), 1);
}

#[test]
fn reading_a_task_shows_what_was_asked_for() {
    let mut fake = Fake::new();
    let out = fake.create(&input(3, &[A], &[B]), 1000).unwrap();
    let input = QueryTask { uid: id(OWNER), id: out.id, fields: names(&["threshold", "assignees"]) };
    let mut doc = Task::new();
    let got = fake.drive(Trip::Ask, |s, r| get(&input, &mut doc, s, r)).unwrap();
    assert_eq!(
        fake.log.last().unwrap(),
        "SELECT threshold,assignees,gid,status,kind FROM task WHERE uid=? AND id=? LIMIT 1"
    );
    assert_eq!((got.uid, got.id, got.gid, got.status), (id(OWNER), out.id, id(GROUP), 0));
    assert_eq!(got.kind, "review");
    assert_eq!(got.threshold, Some(3));
    assert_eq!(got.assignees, Some(vec![id(B)]));
    assert_eq!(got.approvers, None);
    assert_eq!(got.created_at, None);
    assert_eq!(got.message, None);
    assert_eq!(got.payload, None);

    let input = QueryTask { uid: id(OWNER), id: out.id, fields: Vec::new() };
    let got = fake.drive(Trip::Ask, |s, r| get(&input, &mut doc, s, r)).unwrap();
    assert_eq!(got, out);

    let input = QueryTask { uid: id(OWNER), id: id(9), fields: Vec::new() };
    assert_eq!(fake.drive(Trip::Ask, |s, r| get(&input, &mut doc, s, r)), Err(Error::NotFound));
    let input = QueryTask { uid: id(OWNER), id: out.id, fields: names(&["kind", "colour"]) };
    assert_eq!(
        fake.drive(Trip::Ask, |s, r| get(&input, &mut doc, s, r)),
        Err(Error::InvalidField("colour".to_string()))
    );
}

fn seed(fake: &mut Fake, n: u8, status: i8) {
    let mut t = Task::with_pk(id(OWNER), id(n));
    t.gid = id(GROUP);
    t.status = status;
    t.kind = "k".to_string();
    t.threshold = n as i16;
    fake.tasks.push(t);
}

fn page(size: Option<u16>, token: Option<Id>, status: Option<i8>, fields: Option<Vec<String>>) -> Pagination {
    Pagination { uid: id(OWNER), page_size: size, page_token: token, status, fields }
}

#[test]
fn listing_pages_downwards() {
    let mut fake = Fake::new();
    for n in 1..=5 {
        seed(&mut fake, n, if n % 2 == 0 { 1 } else { 0 });
    }
    let input = page(Some(2), None, None, Some(names(&["threshold"])));
    let first = fake.drive(Trip::Ask, |s, r| list(&input, s, r)).unwrap();
    assert_eq!(
        fake.log.last().unwrap(),
        "SELECT threshold,gid,status,kind,uid,id FROM task WHERE uid=? LIMIT ? BYPASS CACHE USING TIMEOUT 3s"
    );
    let ids: Vec<Id> = first.result.iter().map(|t| t.id).collect();
    assert_eq!(ids, vec![id(5), id(4)]);
    assert_eq!(first.result[0].threshold, Some(5));
    assert_eq!(first.result[0].created_at, None);
    assert_eq!(first.next_page_token, Some(id(4)));

    let input = page(Some(2), first.next_page_token, None, None);
    let second = fake.drive(Trip::Ask, |s, r| list(&input, s, r)).unwrap();
    let ids: Vec<Id> = second.result.iter().map(|t| t.id).collect();
    assert_eq!(ids, vec![id(3), id(2)]);
    assert_eq!(second.next_page_token, Some(id(2)));

    let input = page(Some(2), second.next_page_token, None, None);
    let third = fake.drive(Trip::Ask, |s, r| list(&input, s, r)).unwrap();
    let ids: Vec<Id> = third.result.iter().map(|t| t.id).collect();
    assert_eq!(ids, vec![id(1)]);
    assert_eq!(third.next_page_token, None);

    let input = page(None, Some(id(5)), Some(1), None);
    let approved = fake.drive(Trip::Ask, |s, r| list(&input, s, r)).unwrap();
    assert!(fake.log.last().unwrap().ends_with(
        " FROM task WHERE uid=? AND status=? AND id<? LIMIT ? BYPASS CACHE USING TIMEOUT 3s"
    ));
    let ids: Vec<Id> = approved.result.iter().map(|t| t.id).collect();
    assert_eq!(ids, vec![id(4), id(2)]);
    assert_eq!(approved.next_page_token, None);

    let input = page(None, None, None, Some(names(&["nothing"])));
    assert!(matches!(
        fake.drive(Trip::Ask, |s, r| list(&input, s, r)),
        Err(Error::InvalidField(f)) if f == "nothing"
    ));
}

fn feed(fake: &mut Fake, input: &Pagination) -> Result<taskbase::api::Page<NotificationOutput>, Error> {
    let mut rows = Vec::new();
    let mut task = Task::new();
    let mut output = Vec::new();
    fake.drive(FeedStage::Begin, |s, r| notification_list(input, &mut rows, &mut task, &mut output, s, r))
}

#[test]
fn a_recipient_lists_tasks_with_the_own_acknowledgement() {
    let mut fake = Fake::new();
    for n in 1..=3 {
        seed(&mut fake, n, 0);
        fake.tasks[(n - 1) as usize].approvers = set(&[id(A)]);
        fake.tasks[(n - 1) as usize].threshold = 1;
        fake.notifications.push(Notification::with_pk(id(A), id(n), id(OWNER)));
    }
    fake.ack(id(A), id(2), id(OWNER), 1, "yes").unwrap();

    let mut input = page(Some(2), None, None, Some(names(&["resolved"])));
    input.uid = id(A);
    let first = feed(&mut fake, &input).unwrap();
    let seen: Vec<(Id, Id, i8, i8)> = first.result.iter().map(|o| (o.sender, o.tid, o.status, o.ack_status)).collect();
    assert_eq!(seen, vec![(id(OWNER), id(3), 0, 0), (id(OWNER), id(2), 1, 1)]);
    assert_eq!(first.result[1].resolved, Some(vec![id(A)]));
    assert_eq!(first.result[1].approvers, None);
    assert_eq!(first.next_page_token, Some(id(2)));

    input.page_token = first.next_page_token;
    let second = feed(&mut fake, &input).unwrap();
    assert_eq!(second.result.len(), 1);
    assert_eq!(second.result[0].tid, id(1));
    assert_eq!(second.next_page_token, None);

    input.page_token = None;
    input.status = Some(1);
    let acked = feed(&mut fake, &input).unwrap();
    assert_eq!(acked.result.len(), 1);
    assert_eq!(acked.result[0].tid, id(2));

    // A notification whose task is gone ends the listing with the error.
    fake.tasks.retain(|t| t.id != id(3));
    input.status = None;
    assert!(matches!(feed(&mut fake, &input), Err(Error::NotFound)));
}

#[test]
fn group_notifications_are_kept_and_listed() {
    let mut fake = Fake::new();
    for n in 1..=3u8 {
        let mut g = GroupNotification::with_pk(id(GROUP), id(n), id(OWNER));
        g.role = (n % 2) as i8;
        assert_eq!(fake.drive(Trip::Ask, |s, r| g.save(s, r)), Ok(true));
        assert_eq!(fake.drive(Trip::Ask, |s, r| g.save(s, r)), Err(Error::Conflict(Write::GroupNotificationSave)));
    }
    let mut g = GroupNotification::with_pk(id(GROUP), id(3), id(OWNER));
    assert_eq!(fake.drive(Trip::Ask, |s, r| g.get_one(s, r)), Ok(()));
    assert_eq!(g.role, 1);
    assert_eq!(g._fields, names(&["gid", "tid", "sender", "role"]));

    let rows = fake
        .drive(Trip::Ask, |s, r| GroupNotification::list(id(GROUP), 10, None, Some(1), s, r))
        .unwrap();
    let tids: Vec<Id> = rows.iter().map(|g| g.tid).collect();
    assert_eq!(tids, vec![id(3), id(1)]);
    let rows = fake
        .drive(Trip::Ask, |s, r| GroupNotification::list(id(GROUP), 10, Some(id(3)), None, s, r))
        .unwrap();
    let tids: Vec<Id> = rows.iter().map(|g| g.tid).collect();
    assert_eq!(tids, vec![id(2), id(1)]);

    assert_eq!(fake.drive(Trip::Ask, |s, r| g.delete(s, r)), Ok(()));
    assert_eq!(fake.drive(Trip::Ask, |s, r| g.get_one(s, r)), Err(Error::NotFound));
}

#[test]
fn notifications_are_saved_read_and_deleted() {
    let mut fake = Fake::new();
    let mut n = Notification::with_pk(id(A), id(9), id(OWNER));
    assert_eq!(fake.drive(Trip::Ask, |s, r| n.save(s, r)), Ok(true));
    assert_eq!(fake.drive(Trip::Ask, |s, r| n.save(s, r)), Err(Error::Conflict(Write::NotificationSave)));
    n.status = -1;
    n.message = "no".to_string();
    assert_eq!(fake.drive(Trip::Ask, |s, r| n.update(s, r)), Ok(true));
    let mut m = Notification::with_pk(id(A), id(9), id(OWNER));
    assert_eq!(fake.drive(Trip::Ask, |s, r| m.get_one(s, r)), Ok(()));
    assert_eq!((m.status, m.message.as_str()), (-1, "no"));
    let rows = fake.drive(Trip::Ask, |s, r| Notification::list(id(A), 10, None, Some(-1), s, r)).unwrap();
    assert_eq!(rows.len(), 1);
    assert_eq!(rows[0]._fields, names(&["uid", "tid", "sender", "status", "message"]));
    assert_eq!(fake.drive(Trip::Ask, |s, r| n.delete(s, r)), Ok(()));
    assert_eq!(fake.drive(Trip::Ask, |s, r| n.update(s, r)), Err(Error::Conflict(Write::NotificationUpdate)));
}

#[test]
fn tasks_are_deleted_singly_and_by_owner() {
    let mut fake = Fake::new();
    for n in 1..=4 {
        seed(&mut fake, n, if n == 4 { 1 } else { 0 });
    }
    let mut t = Task::with_pk(id(OWNER), id(1));
    assert_eq!(fake.drive(DeleteStage::Begin, |s, r| t.delete(s, r)), Ok(true));
    assert_eq!(fake.drive(DeleteStage::Begin, |s, r| t.delete(s, r)), Ok(false));
    assert_eq!(fake.tasks.len(), 3);
    assert_eq!(fake.drive(Trip::Ask, |s, r| Task::batch_delete_by_uid(id(OWNER), Some(1), s, r)), Ok(()));
    assert_eq!(fake.tasks.len(), 2);
    assert_eq!(fake.drive(Trip::Ask, |s, r| Task::batch_delete_by_uid(id(OWNER), None, s, r)), Ok(()));
    assert!(fake.tasks.is_empty());
}
