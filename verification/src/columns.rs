//! Which columns of a task row a reader asks for.

use vstd::prelude::*;
use crate::field::{lemma_contains_push, texts, Field};

verus! {

/// Which columns of a task a reader asked for: one flag for each column.
#[derive(Clone, Copy, Debug, PartialEq, Eq, Structural)]
pub struct Columns {
    pub uid: bool,
    pub id: bool,
    pub gid: bool,
    pub status: bool,
    pub kind: bool,
    pub created_at: bool,
    pub updated_at: bool,
    pub duedate: bool,
    pub threshold: bool,
    pub approvers: bool,
    pub assignees: bool,
    pub resolved: bool,
    pub rejected: bool,
    pub message: bool,
    pub payload: bool,
}

impl Columns {
    /// The flag of one column.
    pub open spec fn has(self, f: Field) -> bool {
        match f {
            Field::Uid => self.uid,
            Field::Id => self.id,
            Field::Gid => self.gid,
            Field::Status => self.status,
            Field::Kind => self.kind,
            Field::CreatedAt => self.created_at,
            Field::UpdatedAt => self.updated_at,
            Field::Duedate => self.duedate,
            Field::Threshold => self.threshold,
            Field::Approvers => self.approvers,
            Field::Assignees => self.assignees,
            Field::Resolved => self.resolved,
            Field::Rejected => self.rejected,
            Field::Message => self.message,
            Field::Payload => self.payload,
        }
    }

    /// The flags of the columns named in `names`: a column is picked exactly when its
    /// name occurs. Names of no column count for nothing.
    #[verifier::opaque]
    pub open spec fn picked(names: Seq<Seq<char>>) -> Columns {
        Columns {
            uid: names.contains(Field::Uid.label()),
            id: names.contains(Field::Id.label()),
            gid: names.contains(Field::Gid.label()),
            status: names.contains(Field::Status.label()),
            kind: names.contains(Field::Kind.label()),
            created_at: names.contains(Field::CreatedAt.label()),
            updated_at: names.contains(Field::UpdatedAt.label()),
            duedate: names.contains(Field::Duedate.label()),
            threshold: names.contains(Field::Threshold.label()),
            approvers: names.contains(Field::Approvers.label()),
            assignees: names.contains(Field::Assignees.label()),
            resolved: names.contains(Field::Resolved.label()),
            rejected: names.contains(Field::Rejected.label()),
            message: names.contains(Field::Message.label()),
            payload: names.contains(Field::Payload.label()),
        }
    }

    /// No column.
    pub open spec fn none() -> Columns {
        Columns {
            uid: false,
            id: false,
            gid: false,
            status: false,
            kind: false,
            created_at: false,
            updated_at: false,
            duedate: false,
            threshold: false,
            approvers: false,
            assignees: false,
            resolved: false,
            rejected: false,
            message: false,
            payload: false,
        }
    }

    /// These flags and the flag of `f`.
    pub open spec fn with(self, f: Field) -> Columns {
        match f {
            Field::Uid => Columns { uid: true, ..self },
            Field::Id => Columns { id: true, ..self },
            Field::Gid => Columns { gid: true, ..self },
            Field::Status => Columns { status: true, ..self },
            Field::Kind => Columns { kind: true, ..self },
            Field::CreatedAt => Columns { created_at: true, ..self },
            Field::UpdatedAt => Columns { updated_at: true, ..self },
            Field::Duedate => Columns { duedate: true, ..self },
            Field::Threshold => Columns { threshold: true, ..self },
            Field::Approvers => Columns { approvers: true, ..self },
            Field::Assignees => Columns { assignees: true, ..self },
            Field::Resolved => Columns { resolved: true, ..self },
            Field::Rejected => Columns { rejected: true, ..self },
            Field::Message => Columns { message: true, ..self },
            Field::Payload => Columns { payload: true, ..self },
        }
    }

    /// A column is picked exactly when its name occurs.
    pub proof fn lemma_picked_has(names: Seq<Seq<char>>, f: Field)
        ensures
            Columns::picked(names).has(f) == names.contains(f.label()),
    {
        reveal(Columns::picked);
    }

    /// Flags that agree on every column are the same flags.
    pub proof fn lemma_same(a: Columns, b: Columns)
        requires
            forall|f: Field| a.has(f) == b.has(f),
        ensures
            a == b,
    {
        assert(a.has(Field::Uid) == b.has(Field::Uid));
        assert(a.has(Field::Id) == b.has(Field::Id));
        assert(a.has(Field::Gid) == b.has(Field::Gid));
        assert(a.has(Field::Status) == b.has(Field::Status));
        assert(a.has(Field::Kind) == b.has(Field::Kind));
        assert(a.has(Field::CreatedAt) == b.has(Field::CreatedAt));
        assert(a.has(Field::UpdatedAt) == b.has(Field::UpdatedAt));
        assert(a.has(Field::Duedate) == b.has(Field::Duedate));
        assert(a.has(Field::Threshold) == b.has(Field::Threshold));
        assert(a.has(Field::Approvers) == b.has(Field::Approvers));
        assert(a.has(Field::Assignees) == b.has(Field::Assignees));
        assert(a.has(Field::Resolved) == b.has(Field::Resolved));
        assert(a.has(Field::Rejected) == b.has(Field::Rejected));
        assert(a.has(Field::Message) == b.has(Field::Message));
        assert(a.has(Field::Payload) == b.has(Field::Payload));
    }

    /// No name picks no column.
    pub proof fn lemma_picked_nothing()
        ensures
            Columns::picked(Seq::<Seq<char>>::empty()) == Columns::none(),
    {
        assert forall|f: Field| Columns::picked(Seq::<Seq<char>>::empty()).has(f) == Columns::none().has(f) by {
            Columns::lemma_picked_has(Seq::<Seq<char>>::empty(), f);
        }
        Columns::lemma_same(Columns::picked(Seq::<Seq<char>>::empty()), Columns::none());
    }

    /// `with` sets one flag and keeps the others.
    pub proof fn lemma_with_has(self, g: Field, f: Field)
        ensures
            self.with(g).has(f) == (self.has(f) || f == g),
    {
    }

    /// One more name picks one more column, or none where it names none.
    pub proof fn lemma_picked_push(names: Seq<Seq<char>>, name: Seq<char>)
        ensures
            Columns::picked(names.push(name)) == match Field::named(name) {
                Some(f) => Columns::picked(names).with(f),
                None => Columns::picked(names),
            },
    {
        Field::lemma_labels_distinct();
        let lhs = Columns::picked(names.push(name));
        let rhs = match Field::named(name) {
            Some(f) => Columns::picked(names).with(f),
            None => Columns::picked(names),
        };
        assert forall|f: Field| lhs.has(f) == rhs.has(f) by {
            Columns::lemma_picked_has(names.push(name), f);
            Columns::lemma_picked_has(names, f);
            lemma_contains_push(names, name, f.label());
            match Field::named(name) {
                Some(g) => {
                    assert(g.label() == name);
                    Columns::picked(names).lemma_with_has(g, f);
                    assert((f == g) == (name == f.label()));
                },
                None => {
                    assert(!Field::known(name));
                    assert(f.label() != name);
                },
            }
        }
        Columns::lemma_same(lhs, rhs);
    }

    /// The columns named by a list of columns are those in the list.
    pub proof fn lemma_picked_labels(fields: Seq<Field>)
        ensures
            forall|f: Field| #[trigger] Columns::picked(Field::labels(fields)).has(f) == fields.contains(f),
    {
        Field::lemma_labels_distinct();
        assert forall|f: Field| #[trigger] Columns::picked(Field::labels(fields)).has(f) == fields.contains(f) by {
            let ls = Field::labels(fields);
            Columns::lemma_picked_has(ls, f);
            if fields.contains(f) {
                let k = choose|k: int| 0 <= k < fields.len() && fields[k] == f;
                assert(ls[k] == f.label());
            }
            if ls.contains(f.label()) {
                let k = choose|k: int| 0 <= k < ls.len() && ls[k] == f.label();
                assert(fields[k].label() == f.label());
                assert(fields[k] == f);
            }
        }
    }

    /// These flags and the flag of `f`.
    #[verifier::rlimit(50)]
    pub fn and(self, f: Field) -> (c: Columns)
        ensures
            c == self.with(f),
    {
        match f {
            Field::Uid => Columns { uid: true, ..self },
            Field::Id => Columns { id: true, ..self },
            Field::Gid => Columns { gid: true, ..self },
            Field::Status => Columns { status: true, ..self },
            Field::Kind => Columns { kind: true, ..self },
            Field::CreatedAt => Columns { created_at: true, ..self },
            Field::UpdatedAt => Columns { updated_at: true, ..self },
            Field::Duedate => Columns { duedate: true, ..self },
            Field::Threshold => Columns { threshold: true, ..self },
            Field::Approvers => Columns { approvers: true, ..self },
            Field::Assignees => Columns { assignees: true, ..self },
            Field::Resolved => Columns { resolved: true, ..self },
            Field::Rejected => Columns { rejected: true, ..self },
            Field::Message => Columns { message: true, ..self },
            Field::Payload => Columns { payload: true, ..self },
        }
    }

    /// The flags of the columns that `names` names.
    pub fn of(names: &Vec<String>) -> (c: Columns)
        ensures
            c == Columns::picked(texts(names@)),
    {
        let mut c = Columns {
            uid: false,
            id: false,
            gid: false,
            status: false,
            kind: false,
            created_at: false,
            updated_at: false,
            duedate: false,
            threshold: false,
            approvers: false,
            assignees: false,
            resolved: false,
            rejected: false,
            message: false,
            payload: false,
        };
        let ghost all = texts(names@);
        proof {
            Columns::lemma_picked_nothing();
            assert(all.take(0) == Seq::<Seq<char>>::empty());
        }
        let mut i: usize = 0;
        while i < names.len()
            invariant
                i <= names.len(),
                all == texts(names@),
                c == Columns::picked(all.take(i as int)),
            decreases names.len() - i,
        {
            proof {
                assert(all.take(i + 1) == all.take(i as int).push(names@[i as int]@));
                Columns::lemma_picked_push(all.take(i as int), names@[i as int]@);
            }
            match Field::parse(&names[i]) {
                Some(f) => {
                    c = c.and(f);
                },
                None => {},
            }
            i += 1;
        }
        assert(all.take(names.len() as int) == all);
        c
    }
}

} // verus!
