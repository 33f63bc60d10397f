use taskbase::db::{GroupNotification, Notification, Task};
use taskbase::error::Vote;
use taskbase::id::Id;
use taskbase::idset::IdSet;
use taskbase::statement::{
    group_notification_delete, group_notification_get, group_notification_insert, group_notification_list,
    join, notification_delete, notification_get, notification_insert, notification_list, notification_purge,
    notification_scan, notification_update, question_marks, task_assignees, task_delete, task_get,
    task_insert, task_list, task_purge, task_set_status, task_update, task_vote,
};
use taskbase::store::{Fetch, Table, Value};

fn id(n: u8) -> Id {
    let mut raw = [0u8; 12];
    raw[5] = n;
    Id::from_raw(raw)
}

fn names(v: &[&str]) -> Vec<String> {
    v.iter().map(|s| s.to_string()).collect()
}

#[test]
fn joining_puts_the_separator_between() {
    assert_eq!(join(&Vec::new(), ","), "");
    assert_eq!(join(&names(&["a"]), ","), "a");
    assert_eq!(join(&names(&["a", "b", "c"]), ", "), "a, b, c");
    assert_eq!(question_marks(0), "");
    assert_eq!(question_marks(1), "?");
    assert_eq!(question_marks(3), "?,?,?");
}

#[test]
fn a_task_is_read_by_its_key() {
    let q = task_get(id(1), id(2), names(&["status", "kind"]));
    assert_eq!(q.cql, "SELECT status,kind FROM task WHERE uid=? AND id=? LIMIT 1");
    assert_eq!(q.params, vec![Value::Id(id(1)), Value::Id(id(2))]);
    assert_eq!(q.fields, names(&["status", "kind"]));
    assert_eq!(q.fetch, Fetch::One(Table::Task));
    assert_eq!(q.page_size, 0);
}

#[test]
fn a_task_is_inserted_if_absent() {
    let mut t = Task::with_pk(id(1), id(2));
    t.gid = id(3);
    t.status = 0;
    t.kind = "k".to_string();
    t.created_at = 10;
    t.updated_at = 11;
    t.duedate = 12;
    t.threshold = 2;
    t.approvers = IdSet::from_ids(&vec![id(4), id(5)]);
    t.assignees = IdSet::from_ids(&vec![id(6)]);
    t.message = "m".to_string();
    t.payload = vec![9, 9];
    let q = task_insert(&t);
    assert_eq!(
        q.cql,
        "INSERT INTO task (uid,id,gid,status,kind,created_at,updated_at,duedate,threshold,approvers,assignees,resolved,rejected,message,payload) VALUES (?,?,?,?,?,?,?,?,?,?,?,?,?,?,?) IF NOT EXISTS"
    );
    assert_eq!(
        q.params,
        vec![
            Value::Id(id(1)),
            Value::Id(id(2)),
            Value::Id(id(3)),
            Value::TinyInt(0),
            Value::Text("k".to_string()),
            Value::BigInt(10),
            Value::BigInt(11),
            Value::BigInt(12),
            Value::SmallInt(2),
            Value::Ids(vec![id(4), id(5)]),
            Value::Ids(vec![id(6)]),
            Value::Ids(vec![]),
            Value::Ids(vec![]),
            Value::Text("m".to_string()),
            Value::Bytes(vec![9, 9]),
        ]
    );
    assert!(q.fields.is_empty());
    assert_eq!(q.fetch, Fetch::Applied);
}

#[test]
fn a_scalar_update_is_conditional_on_the_token() {
    let q = task_update(id(1), id(2), 100, 200, Some(5), Some("hi".to_string()));
    assert_eq!(q.cql, "UPDATE task SET updated_at=?,duedate=?,message=? WHERE uid=? AND id=? IF updated_at=?");
    assert_eq!(
        q.params,
        vec![
            Value::BigInt(200),
            Value::BigInt(5),
            Value::Text("hi".to_string()),
            Value::Id(id(1)),
            Value::Id(id(2)),
            Value::BigInt(100),
        ]
    );
    assert_eq!(q.fetch, Fetch::Applied);
    let q = task_update(id(1), id(2), 100, 200, None, Some("hi".to_string()));
    assert_eq!(q.cql, "UPDATE task SET updated_at=?,message=? WHERE uid=? AND id=? IF updated_at=?");
    assert_eq!(q.params.len(), 5);
    let q = task_update(id(1), id(2), 100, 200, Some(5), None);
    assert_eq!(q.cql, "UPDATE task SET updated_at=?,duedate=? WHERE uid=? AND id=? IF updated_at=?");
    let q = task_update(id(1), id(2), 100, 200, None, None);
    assert_eq!(q.cql, "UPDATE task SET updated_at=? WHERE uid=? AND id=? IF updated_at=?");
    assert_eq!(q.params, vec![Value::BigInt(200), Value::Id(id(1)), Value::Id(id(2)), Value::BigInt(100)]);
}

#[test]
fn assignees_are_merged_in_and_out() {
    let q = task_assignees(id(1), id(2), 100, 200, &vec![id(7), id(8)], false);
    assert_eq!(
        q.cql,
        "UPDATE task SET assignees=assignees-{ ?,? }, updated_at=? WHERE uid=? AND id=? IF updated_at=?"
    );
    assert_eq!(
        q.params,
        vec![
            Value::Id(id(7)),
            Value::Id(id(8)),
            Value::BigInt(200),
            Value::Id(id(1)),
            Value::Id(id(2)),
            Value::BigInt(100),
        ]
    );
    let q = task_assignees(id(1), id(2), 100, 200, &vec![id(7)], true);
    assert_eq!(
        q.cql,
        "UPDATE task SET assignees=assignees+{ ? }, updated_at=? WHERE uid=? AND id=? IF updated_at=?"
    );
    assert_eq!(q.fetch, Fetch::Applied);
}

#[test]
fn a_vote_moves_the_voter_between_the_sets() {
    let q = task_vote(id(1), id(2), id(3), Vote::Resolve);
    assert_eq!(
        q.cql,
        "UPDATE task SET rejected=rejected-{?}, resolved=resolved+{?} WHERE uid=? AND id=? IF EXISTS"
    );
    assert_eq!(q.params, vec![Value::Id(id(3)), Value::Id(id(3)), Value::Id(id(1)), Value::Id(id(2))]);
    let q = task_vote(id(1), id(2), id(3), Vote::Reject);
    assert_eq!(
        q.cql,
        "UPDATE task SET resolved=resolved-{?}, rejected=rejected+{?} WHERE uid=? AND id=? IF EXISTS"
    );
    assert_eq!(q.params, vec![Value::Id(id(3)), Value::Id(id(3)), Value::Id(id(1)), Value::Id(id(2))]);
    assert_eq!(q.fetch, Fetch::Applied);
    let q = task_set_status(id(1), id(2), -1);
    assert_eq!(q.cql, "UPDATE task SET status=? WHERE uid=? AND id=? IF EXISTS");
    assert_eq!(q.params, vec![Value::TinyInt(-1), Value::Id(id(1)), Value::Id(id(2))]);
}

#[test]
fn tasks_are_deleted() {
    let q = task_delete(id(1), id(2));
    assert_eq!(q.cql, "DELETE FROM task WHERE uid=? AND id=?");
    assert_eq!(q.params, vec![Value::Id(id(1)), Value::Id(id(2))]);
    assert_eq!(q.fetch, Fetch::Nothing);
    let q = task_purge(id(1), None);
    assert_eq!(q.cql, "DELETE FROM task WHERE uid=?");
    assert_eq!(q.params, vec![Value::Id(id(1))]);
    let q = task_purge(id(1), Some(-1));
    assert_eq!(q.cql, "DELETE FROM task WHERE uid=? AND status=?");
    assert_eq!(q.params, vec![Value::Id(id(1)), Value::TinyInt(-1)]);
    assert_eq!(q.fetch, Fetch::Nothing);
}

#[test]
fn tasks_are_scanned_in_four_ways() {
    let tail = " LIMIT ? BYPASS CACHE USING TIMEOUT 3s";
    let q = task_list(id(1), names(&["id", "kind"]), 20, None, None);
    assert_eq!(q.cql, format!("SELECT id,kind FROM task WHERE uid=?{}", tail));
    assert_eq!(q.params, vec![Value::Id(id(1)), Value::Int(20)]);
    assert_eq!(q.fetch, Fetch::All(Table::Task));
    assert_eq!(q.page_size, 20);
    assert_eq!(q.fields, names(&["id", "kind"]));

    let q = task_list(id(1), names(&["id"]), 20, None, Some(1));
    assert_eq!(q.cql, format!("SELECT id FROM task WHERE uid=? AND status=?{}", tail));
    assert_eq!(q.params, vec![Value::Id(id(1)), Value::TinyInt(1), Value::Int(20)]);
    assert_eq!(q.fetch, Fetch::All(Table::Task));

    let q = task_list(id(1), names(&["id"]), 65535, Some(id(9)), None);
    assert_eq!(q.cql, format!("SELECT id FROM task WHERE uid=? AND id<?{}", tail));
    assert_eq!(q.params, vec![Value::Id(id(1)), Value::Id(id(9)), Value::Int(65535)]);
    assert_eq!(q.fetch, Fetch::Page(Table::Task));
    assert_eq!(q.page_size, 65535);

    let q = task_list(id(1), names(&["id"]), 20, Some(id(9)), Some(0));
    assert_eq!(q.cql, format!("SELECT id FROM task WHERE uid=? AND status=? AND id<?{}", tail));
    assert_eq!(q.params, vec![Value::Id(id(1)), Value::TinyInt(0), Value::Id(id(9)), Value::Int(20)]);
    assert_eq!(q.fetch, Fetch::Page(Table::Task));
}

#[test]
fn notifications_have_their_statements() {
    let q = notification_get(id(1), id(2), id(3));
    assert_eq!(
        q.cql,
        "SELECT uid,tid,sender,status,message FROM notification WHERE uid=? AND tid=? AND sender=? LIMIT 1"
    );
    assert_eq!(q.params, vec![Value::Id(id(1)), Value::Id(id(2)), Value::Id(id(3))]);
    assert_eq!(q.fetch, Fetch::One(Table::Notification));
    assert_eq!(q.fields, names(&["uid", "tid", "sender", "status", "message"]));

    let mut n = Notification::with_pk(id(1), id(2), id(3));
    n.status = 1;
    n.message = "ok".to_string();
    let q = notification_insert(&n);
    assert_eq!(
        q.cql,
        "INSERT INTO notification (uid,tid,sender,status,message) VALUES (?,?,?,?,?) IF NOT EXISTS"
    );
    assert_eq!(
        q.params,
        vec![
            Value::Id(id(1)),
            Value::Id(id(2)),
            Value::Id(id(3)),
            Value::TinyInt(1),
            Value::Text("ok".to_string()),
        ]
    );

    let q = notification_update(id(1), id(2), id(3), -1, &"no".to_string());
    assert_eq!(
        q.cql,
        "UPDATE notification SET status=?,message=? WHERE uid=? AND tid=? AND sender=? IF EXISTS"
    );
    assert_eq!(
        q.params,
        vec![
            Value::TinyInt(-1),
            Value::Text("no".to_string()),
            Value::Id(id(1)),
            Value::Id(id(2)),
            Value::Id(id(3)),
        ]
    );
    assert_eq!(q.fetch, Fetch::Applied);

    let q = notification_delete(id(1), id(2), id(3));
    assert_eq!(q.cql, "DELETE FROM notification WHERE uid=? AND tid=? AND sender=?");
    assert_eq!(q.params, vec![Value::Id(id(1)), Value::Id(id(2)), Value::Id(id(3))]);
    assert_eq!(q.fetch, Fetch::Nothing);

    let q = notification_scan(id(2));
    assert_eq!(
        q.cql,
        "SELECT uid,tid,sender FROM notification WHERE tid=? LIMIT ? BYPASS CACHE USING TIMEOUT 3s"
    );
    assert_eq!(q.params, vec![Value::Id(id(2)), Value::Int(1000)]);
    assert_eq!(q.fields, names(&["uid", "tid", "sender"]));
    assert_eq!(q.fetch, Fetch::All(Table::Notification));
    assert_eq!(q.page_size, 1000);

    let q = notification_purge(id(1), Some(0));
    assert_eq!(q.cql, "DELETE FROM notification WHERE uid=? AND status=?");
    assert_eq!(q.params, vec![Value::Id(id(1)), Value::TinyInt(0)]);
    let q = notification_purge(id(1), None);
    assert_eq!(q.cql, "DELETE FROM notification WHERE uid=?");

    let q = notification_list(id(1), 10, Some(id(5)), Some(1));
    assert_eq!(
        q.cql,
        "SELECT uid,tid,sender,status,message FROM notification WHERE uid=? AND status=? AND tid<? LIMIT ? BYPASS CACHE USING TIMEOUT 3s"
    );
    assert_eq!(q.params, vec![Value::Id(id(1)), Value::TinyInt(1), Value::Id(id(5)), Value::Int(10)]);
    assert_eq!(q.fetch, Fetch::Page(Table::Notification));
    let q = notification_list(id(1), 10, None, None);
    assert_eq!(
        q.cql,
        "SELECT uid,tid,sender,status,message FROM notification WHERE uid=? LIMIT ? BYPASS CACHE USING TIMEOUT 3s"
    );
    assert_eq!(q.fetch, Fetch::All(Table::Notification));
}

#[test]
fn group_notifications_have_their_statements() {
    let q = group_notification_get(id(1), id(2), id(3));
    assert_eq!(
        q.cql,
        "SELECT gid,tid,sender,role FROM group_notification WHERE gid=? AND tid=? AND sender=? LIMIT 1"
    );
    assert_eq!(q.fetch, Fetch::One(Table::GroupNotification));
    let mut g = GroupNotification::with_pk(id(1), id(2), id(3));
    g.role = 2;
    let q = group_notification_insert(&g);
    assert_eq!(q.cql, "INSERT INTO group_notification (gid,tid,sender,role) VALUES (?,?,?,?) IF NOT EXISTS");
    assert_eq!(q.params, vec![Value::Id(id(1)), Value::Id(id(2)), Value::Id(id(3)), Value::TinyInt(2)]);
    let q = group_notification_delete(id(1), id(2), id(3));
    assert_eq!(q.cql, "DELETE FROM group_notification WHERE gid=? AND tid=? AND sender=?");
    let q = group_notification_list(id(1), 10, None, Some(2));
    assert_eq!(
        q.cql,
        "SELECT gid,tid,sender,role FROM group_notification WHERE gid=? AND role=? LIMIT ? BYPASS CACHE USING TIMEOUT 3s"
    );
    assert_eq!(q.params, vec![Value::Id(id(1)), Value::TinyInt(2), Value::Int(10)]);
    assert_eq!(q.fetch, Fetch::All(Table::GroupNotification));
    let q = group_notification_list(id(1), 10, Some(id(4)), None);
    assert_eq!(
        q.cql,
        "SELECT gid,tid,sender,role FROM group_notification WHERE gid=? AND tid<? LIMIT ? BYPASS CACHE USING TIMEOUT 3s"
    );
    assert_eq!(q.fetch, Fetch::Page(Table::GroupNotification));
}
