//! The columns of a task row, and their names.

use vstd::prelude::*;

verus! {

/// A column of the task table.
#[derive(Clone, Copy, Debug, PartialEq, Eq, Structural)]
pub enum Field {
    Uid,
    Id,
    Gid,
    Status,
    Kind,
    CreatedAt,
    UpdatedAt,
    Duedate,
    Threshold,
    Approvers,
    Assignees,
    Resolved,
    Rejected,
    Message,
    Payload,
}

/// Whether `a` holds the text of the literal `lit`.
pub fn same(a: &String, lit: &str) -> (r: bool)
    ensures
        r == (a@ == lit@),
{
    let b = String::from_str(lit);
    *a == b
}

/// The views of the strings in `v`.
pub open spec fn texts(v: Seq<String>) -> Seq<Seq<char>> {
    v.map_values(|s: String| s@)
}

impl Field {
    /// The column's name in the store.
    pub open spec fn label(self) -> Seq<char> {
        match self {
            Field::Uid => "uid"@,
            Field::Id => "id"@,
            Field::Gid => "gid"@,
            Field::Status => "status"@,
            Field::Kind => "kind"@,
            Field::CreatedAt => "created_at"@,
            Field::UpdatedAt => "updated_at"@,
            Field::Duedate => "duedate"@,
            Field::Threshold => "threshold"@,
            Field::Approvers => "approvers"@,
            Field::Assignees => "assignees"@,
            Field::Resolved => "resolved"@,
            Field::Rejected => "rejected"@,
            Field::Message => "message"@,
            Field::Payload => "payload"@,
        }
    }

    /// The names of a list of columns.
    pub open spec fn labels(fields: Seq<Field>) -> Seq<Seq<char>> {
        fields.map_values(|f: Field| f.label())
    }

    /// Whether `name` names a column.
    pub open spec fn known(name: Seq<char>) -> bool {
        exists|f: Field| f.label() == name
    }

    /// The column that `name` names, where it names one.
    pub open spec fn named(name: Seq<char>) -> Option<Field> {
        if Field::known(name) {
            Some(choose|f: Field| f.label() == name)
        } else {
            None
        }
    }

    /// Length and three characters of a name: enough to tell the fifteen apart.
    spec fn mark(name: Seq<char>) -> (nat, char, char, char) {
        (name.len(), name[0], name[1], name[2])
    }

    proof fn lemma_marks()
        ensures
            Field::mark(Field::Uid.label()) == (3nat, 'u', 'i', 'd'),
            Field::Id.label().len() == 2,
            Field::mark(Field::Gid.label()) == (3nat, 'g', 'i', 'd'),
            Field::mark(Field::Status.label()) == (6nat, 's', 't', 'a'),
            Field::mark(Field::Kind.label()) == (4nat, 'k', 'i', 'n'),
            Field::mark(Field::CreatedAt.label()) == (10nat, 'c', 'r', 'e'),
            Field::mark(Field::UpdatedAt.label()) == (10nat, 'u', 'p', 'd'),
            Field::mark(Field::Duedate.label()) == (7nat, 'd', 'u', 'e'),
            Field::mark(Field::Threshold.label()) == (9nat, 't', 'h', 'r'),
            Field::mark(Field::Approvers.label()) == (9nat, 'a', 'p', 'p'),
            Field::mark(Field::Assignees.label()) == (9nat, 'a', 's', 's'),
            Field::mark(Field::Resolved.label()) == (8nat, 'r', 'e', 's'),
            Field::mark(Field::Rejected.label()) == (8nat, 'r', 'e', 'j'),
            Field::mark(Field::Message.label()) == (7nat, 'm', 'e', 's'),
            Field::mark(Field::Payload.label()) == (7nat, 'p', 'a', 'y'),
    {
        reveal_strlit("uid");
        reveal_strlit("id");
        reveal_strlit("gid");
        reveal_strlit("status");
        reveal_strlit("kind");
        reveal_strlit("created_at");
        reveal_strlit("updated_at");
        reveal_strlit("duedate");
        reveal_strlit("threshold");
        reveal_strlit("approvers");
        reveal_strlit("assignees");
        reveal_strlit("resolved");
        reveal_strlit("rejected");
        reveal_strlit("message");
        reveal_strlit("payload");
    }

    /// No two columns share a name.
    pub proof fn lemma_labels_distinct()
        ensures
            forall|a: Field, b: Field| #[trigger] a.label() == #[trigger] b.label() ==> a == b,
            forall|f: Field| #[trigger] Field::named(f.label()) == Some(f),
    {
        Field::lemma_marks();
        assert forall|a: Field, b: Field| #[trigger] a.label() == #[trigger] b.label() implies a == b by {
            if a != b {
                assert(a.label().len() != b.label().len() || Field::mark(a.label()) != Field::mark(
                    b.label(),
                ));
            }
        }
        assert forall|f: Field| #[trigger] Field::named(f.label()) == Some(f) by {
            assert(Field::known(f.label()));
        }
    }

    /// The column's name.
    pub fn name(self) -> (s: String)
        ensures
            s@ == self.label(),
    {
        match self {
            Field::Uid => String::from_str("uid"),
            Field::Id => String::from_str("id"),
            Field::Gid => String::from_str("gid"),
            Field::Status => String::from_str("status"),
            Field::Kind => String::from_str("kind"),
            Field::CreatedAt => String::from_str("created_at"),
            Field::UpdatedAt => String::from_str("updated_at"),
            Field::Duedate => String::from_str("duedate"),
            Field::Threshold => String::from_str("threshold"),
            Field::Approvers => String::from_str("approvers"),
            Field::Assignees => String::from_str("assignees"),
            Field::Resolved => String::from_str("resolved"),
            Field::Rejected => String::from_str("rejected"),
            Field::Message => String::from_str("message"),
            Field::Payload => String::from_str("payload"),
        }
    }

    /// The column that `name` names, or `None` where it names none.
    pub fn parse(name: &String) -> (r: Option<Field>)
        ensures
            r == Field::named(name@),
    {
        proof {
            Field::lemma_labels_distinct();
        }
        let r = if same(name, "uid") {
            Some(Field::Uid)
        } else if same(name, "id") {
            Some(Field::Id)
        } else if same(name, "gid") {
            Some(Field::Gid)
        } else if same(name, "status") {
            Some(Field::Status)
        } else if same(name, "kind") {
            Some(Field::Kind)
        } else if same(name, "created_at") {
            Some(Field::CreatedAt)
        } else if same(name, "updated_at") {
            Some(Field::UpdatedAt)
        } else if same(name, "duedate") {
            Some(Field::Duedate)
        } else if same(name, "threshold") {
            Some(Field::Threshold)
        } else if same(name, "approvers") {
            Some(Field::Approvers)
        } else if same(name, "assignees") {
            Some(Field::Assignees)
        } else if same(name, "resolved") {
            Some(Field::Resolved)
        } else if same(name, "rejected") {
            Some(Field::Rejected)
        } else if same(name, "message") {
            Some(Field::Message)
        } else if same(name, "payload") {
            Some(Field::Payload)
        } else {
            None
        };
        proof {
            match r {
                Some(f) => {
                    assert(f.label() == name@);
                },
                None => {
                    assert forall|f: Field| f.label() != name@ by {
                        match f {
                            Field::Uid => {},
                            Field::Id => {},
                            Field::Gid => {},
                            Field::Status => {},
                            Field::Kind => {},
                            Field::CreatedAt => {},
                            Field::UpdatedAt => {},
                            Field::Duedate => {},
                            Field::Threshold => {},
                            Field::Approvers => {},
                            Field::Assignees => {},
                            Field::Resolved => {},
                            Field::Rejected => {},
                            Field::Message => {},
                            Field::Payload => {},
                        }
                    }
                },
            }
        }
        r
    }
}

/// Adding `x` at the end adds `x` to what a sequence contains, and nothing else.
pub proof fn lemma_contains_push<A>(s: Seq<A>, x: A, y: A)
    ensures
        s.push(x).contains(y) <==> s.contains(y) || x == y,
{
    if s.contains(y) {
        let k = choose|k: int| 0 <= k < s.len() && s[k] == y;
        assert(s.push(x)[k] == y);
    }
    if x == y {
        assert(s.push(x)[s.len() as int] == y);
    }
    if s.push(x).contains(y) {
        let k = choose|k: int| 0 <= k < s.push(x).len() && s.push(x)[k] == y;
        if k < s.len() {
            assert(s[k] == y);
        }
    }
}

} // verus!
