//! The per-connection event table: named handlers and their registration.

use vstd::prelude::*;
use crate::errors::RouterError;
use crate::value::PlayerRecord;

verus! {

/// The unit of logic bound to one event name on one connection.
#[derive(Debug, PartialEq)]
pub enum Handler {
    /// Re-emits the received payload and binary attachments, unchanged,
    /// under `reply_event`.
    Echo { reply_event: String },
    /// Returns the received payload and binary attachments verbatim through
    /// the acknowledgement channel instead of a new emit.
    EchoWithAck,
    /// Ignores the payload and emits `record` under `reply_event`.
    PlayerData { reply_event: String, record: PlayerRecord },
}

/// No two entries carry the same event name.
pub open spec fn names_unique(s: Seq<(String, Handler)>) -> bool {
    forall|i: int, j: int| 0 <= i < j < s.len() ==> s[i].0@ != s[j].0@
}

/// Some entry carries the event name `name`.
pub open spec fn table_contains(s: Seq<(String, Handler)>, name: Seq<char>) -> bool {
    exists|i: int| 0 <= i < s.len() && s[i].0@ == name
}

/// The handler of the first entry named `name`, if any.
pub open spec fn spec_lookup(s: Seq<(String, Handler)>, name: Seq<char>) -> Option<Handler>
    decreases s.len(),
{
    if s.len() == 0 {
        None
    } else if s[0].0@ == name {
        Some(s[0].1)
    } else {
        spec_lookup(s.drop_first(), name)
    }
}

/// A lookup finds a handler exactly when the table holds the name.
pub proof fn lemma_lookup_contains(s: Seq<(String, Handler)>, name: Seq<char>)
    ensures
        (spec_lookup(s, name) is Some) == table_contains(s, name),
    decreases s.len(),
{
    if s.len() == 0 {
    } else if s[0].0@ == name {
        assert(table_contains(s, name));
    } else {
        lemma_lookup_contains(s.drop_first(), name);
        if table_contains(s.drop_first(), name) {
            let i = choose|i: int| 0 <= i < s.drop_first().len() && s.drop_first()[i].0@ == name;
            assert(s[i + 1].0@ == name);
            assert(table_contains(s, name));
        }
        if table_contains(s, name) {
            let i = choose|i: int| 0 <= i < s.len() && s[i].0@ == name;
            assert(i > 0);
            assert(s.drop_first()[i - 1].0@ == name);
            assert(table_contains(s.drop_first(), name));
        }
    }
}

/// When no entry before index `i` carries `name`, the lookup's answer is
/// decided by the entries from `i` on.
pub proof fn lemma_lookup_skip(s: Seq<(String, Handler)>, name: Seq<char>, i: int)
    requires
        0 <= i <= s.len(),
        forall|j: int| 0 <= j < i ==> s[j].0@ != name,
    ensures
        spec_lookup(s, name) == spec_lookup(s.skip(i), name),
    decreases i,
{
    if i == 0 {
        assert(s.skip(0) =~= s);
    } else {
        assert(s.len() > 0);
        lemma_lookup_skip(s.drop_first(), name, i - 1);
        assert(s.drop_first().skip(i - 1) =~= s.skip(i));
    }
}

/// How one `register` call relates the table before (`pre`) and after
/// (`post`): a name not yet present is appended with its handler; a
/// duplicate name is rejected with `ConfigurationError` and changes nothing.
pub open spec fn register_post(
    pre: RouterTable,
    name: String,
    handler: Handler,
    post: RouterTable,
    r: Result<(), RouterError>,
) -> bool {
    if table_contains(pre@, name@) {
        &&& r == Err::<(), RouterError>(RouterError::ConfigurationError)
        &&& post == pre
    } else {
        &&& r == Ok::<(), RouterError>(())
        &&& post@ == pre@.push((name, handler))
    }
}

/// The event router table of one connection: a mapping from event name to
/// handler, populated once at connection-establishment time.
#[derive(Debug)]
pub struct RouterTable {
    entries: Vec<(String, Handler)>,
}

impl View for RouterTable {
    type V = Seq<(String, Handler)>;

    closed spec fn view(&self) -> Seq<(String, Handler)> {
        self.entries@
    }
}

impl RouterTable {
    /// Event names are unique within the table.
    pub open spec fn wf(self) -> bool {
        names_unique(self@)
    }

    /// An empty table.
    pub fn new() -> (t: Self)
        ensures
            t@ =~= Seq::<(String, Handler)>::empty(),
            t.wf(),
    {
        RouterTable { entries: Vec::new() }
    }

    /// How many handlers are registered.
    pub fn len(&self) -> (n: usize)
        ensures
            n == self@.len(),
    {
        self.entries.len()
    }

    /// Installs `handler` for `name`; fails with `ConfigurationError` if the
    /// name is already registered, leaving the table unchanged.
    pub fn register(&mut self, name: String, handler: Handler) -> (r: Result<(), RouterError>)
        requires
            old(self).wf(),
        ensures
            final(self).wf(),
            register_post(*old(self), name, handler, *final(self), r),
    {
        let n = self.entries.len();
        let mut i: usize = 0;
        while i < n
            invariant
                i <= n,
                n == self.entries@.len(),
                *self == *old(self),
                old(self).wf(),
                forall|j: int| 0 <= j < i ==> self.entries@[j].0@ != name@,
            decreases n - i,
        {
            if self.entries[i].0 == name {
                proof {
                    assert(table_contains(self@, name@));
                }
                return Err(RouterError::ConfigurationError);
            }
            i += 1;
        }
        proof {
            assert(!table_contains(self@, name@));
        }
        self.entries.push((name, handler));
        proof {
            assert(self@ =~= old(self)@.push((name, handler)));
        }
        Ok(())
    }

    /// The handler registered for `name`, if any.
    pub fn lookup(&self, name: &String) -> (r: Option<&Handler>)
        ensures
            match r {
                Some(h) => spec_lookup(self@, name@) == Some(*h),
                None => spec_lookup(self@, name@) is None,
            },
    {
        let n = self.entries.len();
        let mut i: usize = 0;
        while i < n
            invariant
                i <= n,
                n == self.entries@.len(),
                forall|j: int| 0 <= j < i ==> self.entries@[j].0@ != name@,
            decreases n - i,
        {
            if self.entries[i].0 == *name {
                proof {
                    lemma_lookup_skip(self@, name@, i as int);
                    assert(self@.skip(i as int)[0] == self@[i as int]);
                }
                return Some(&self.entries[i].1);
            }
            i += 1;
        }
        proof {
            lemma_lookup_skip(self@, name@, n as int);
            assert(self@.skip(n as int) =~= Seq::<(String, Handler)>::empty());
        }
        None
    }
}

} // verus!
