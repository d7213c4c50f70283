use vstd::prelude::*;

use crate::config::RedisConfig;
use crate::error::{ErrorKind, SerializeError};

verus! {

/// One open session: its configuration and its connection.
pub struct RedisInstance<C> {
    id: String,
    config: RedisConfig,
    con: C,
}

impl<C> RedisInstance<C> {
    pub closed spec fn id_of(&self) -> Seq<char> {
        self.id@
    }

    pub closed spec fn config_of(&self) -> RedisConfig {
        self.config
    }

    pub closed spec fn con_of(&self) -> C {
        self.con
    }

    /// A session under the configuration's id.
    pub fn new(config: RedisConfig, con: C) -> (r: RedisInstance<C>)
        ensures
            r.id_of() == config.id@,
            r.config_of() == config,
            r.con_of() == con,
    {
        RedisInstance { id: config.id.clone(), config, con }
    }
}

/// No two sessions share an id.
pub open spec fn unique_ids<C>(s: Seq<RedisInstance<C>>) -> bool {
    forall|i: int, j: int|
        0 <= i < s.len() && 0 <= j < s.len() && (#[trigger] s[i]).id_of() == (#[trigger] s[j]).id_of()
            ==> i == j
}

/// Whether a session has the id.
pub open spec fn holds_id<C>(s: Seq<RedisInstance<C>>, id: Seq<char>) -> bool {
    exists|i: int| 0 <= i < s.len() && (#[trigger] s[i]).id_of() == id
}

/// Where the session with the id stands.
pub open spec fn index_of_id<C>(s: Seq<RedisInstance<C>>, id: Seq<char>) -> int {
    choose|i: int| 0 <= i < s.len() && (#[trigger] s[i]).id_of() == id
}

proof fn lemma_remove_session<C>(s: Seq<RedisInstance<C>>, i: int)
    requires
        unique_ids(s),
        0 <= i < s.len(),
    ensures
        unique_ids(s.remove(i)),
        forall|k: Seq<char>| holds_id(s.remove(i), k) <==> (holds_id(s, k) && k != s[i].id_of()),
        forall|k: Seq<char>|
            holds_id(s.remove(i), k) ==> s.remove(i)[index_of_id(s.remove(i), k)] == s[index_of_id(s, k)],
{
    let t = s.remove(i);
    assert forall|a: int, b: int|
        0 <= a < t.len() && 0 <= b < t.len() && (#[trigger] t[a]).id_of() == (#[trigger] t[b]).id_of()
        implies a == b by {
        let a2 = if a < i { a } else { a + 1 };
        let b2 = if b < i { b } else { b + 1 };
        assert(s[a2] == t[a]);
        assert(s[b2] == t[b]);
    }
    assert forall|k: Seq<char>| holds_id(t, k) implies holds_id(s, k) && k != s[i].id_of() by {
        let j = choose|j: int| 0 <= j < t.len() && (#[trigger] t[j]).id_of() == k;
        let j2 = if j < i { j } else { j + 1 };
        assert(s[j2] == t[j]);
    }
    assert forall|k: Seq<char>| holds_id(s, k) && k != s[i].id_of() implies holds_id(t, k) by {
        let m = choose|m: int| 0 <= m < s.len() && (#[trigger] s[m]).id_of() == k;
        let m2 = if m < i { m } else { m - 1 };
        assert(t[m2] == s[m]);
    }
    assert forall|k: Seq<char>| holds_id(t, k) implies t[index_of_id(t, k)] == s[index_of_id(s, k)] by {
        let a = index_of_id(t, k);
        let a2 = if a < i { a } else { a + 1 };
        assert(s[a2] == t[a]);
        let b = index_of_id(s, k);
        assert(s[b].id_of() == k);
    }
}

proof fn lemma_push_session<C>(s: Seq<RedisInstance<C>>, x: RedisInstance<C>)
    requires
        unique_ids(s),
        !holds_id(s, x.id_of()),
    ensures
        unique_ids(s.push(x)),
        forall|k: Seq<char>| holds_id(s.push(x), k) <==> (holds_id(s, k) || k == x.id_of()),
        s.push(x)[index_of_id(s.push(x), x.id_of())] == x,
        forall|k: Seq<char>|
            holds_id(s, k) ==> s.push(x)[index_of_id(s.push(x), k)] == s[index_of_id(s, k)],
{
    let t = s.push(x);
    assert forall|a: int, b: int|
        0 <= a < t.len() && 0 <= b < t.len() && (#[trigger] t[a]).id_of() == (#[trigger] t[b]).id_of()
        implies a == b by {
        if a < s.len() && b == s.len() {
            assert(s[a].id_of() == x.id_of());
        }
        if b < s.len() && a == s.len() {
            assert(s[b].id_of() == x.id_of());
        }
    }
    assert forall|k: Seq<char>| holds_id(t, k) implies holds_id(s, k) || k == x.id_of() by {
        let j = choose|j: int| 0 <= j < t.len() && (#[trigger] t[j]).id_of() == k;
        if j < s.len() {
            assert(s[j] == t[j]);
        }
    }
    assert forall|k: Seq<char>| holds_id(s, k) || k == x.id_of() implies holds_id(t, k) by {
        if holds_id(s, k) {
            let m = choose|m: int| 0 <= m < s.len() && (#[trigger] s[m]).id_of() == k;
            assert(t[m] == s[m]);
        } else {
            assert(t[s.len() as int] == x);
        }
    }
    assert(t[s.len() as int].id_of() == x.id_of());
    assert forall|k: Seq<char>| holds_id(s, k) implies t[index_of_id(t, k)] == s[index_of_id(s, k)] by {
        let b = index_of_id(s, k);
        assert(t[b] == s[b]);
        assert(t[b].id_of() == k);
    }
}

/// The open sessions, each under its id.
pub struct Redis<C> {
    redis_instances: Vec<RedisInstance<C>>,
}

impl<C> Redis<C> {
    /// No two sessions share an id.
    pub closed spec fn wf(&self) -> bool {
        unique_ids(self.redis_instances@)
    }

    /// The configurations of the open sessions, by id.
    pub closed spec fn sessions(&self) -> Map<Seq<char>, RedisConfig> {
        Map::new(
            |id: Seq<char>| holds_id(self.redis_instances@, id),
            |id: Seq<char>| self.redis_instances@[index_of_id(self.redis_instances@, id)].config_of(),
        )
    }

    /// The connection of the session open under the id.
    pub closed spec fn connection(&self, id: Seq<char>) -> C {
        self.redis_instances@[index_of_id(self.redis_instances@, id)].con_of()
    }

    /// No session open.
    pub fn new() -> (r: Redis<C>)
        ensures
            r.wf(),
            r.sessions() == Map::<Seq<char>, RedisConfig>::empty(),
    {
        let r = Redis { redis_instances: Vec::new() };
        assert(r.sessions() =~= Map::<Seq<char>, RedisConfig>::empty());
        r
    }

    fn find(&self, id: &str) -> (r: Option<usize>)
        requires
            self.wf(),
        ensures
            r is Some <==> holds_id(self.redis_instances@, id@),
            r is Some ==> r->0 < self.redis_instances@.len() && r->0 == index_of_id(
                self.redis_instances@,
                id@,
            ) && self.redis_instances@[r->0 as int].id_of() == id@,
    {
        let mut i: usize = 0;
        while i < self.redis_instances.len()
            invariant
                i <= self.redis_instances@.len(),
                self.wf(),
                forall|j: int| 0 <= j < i ==> (#[trigger] self.redis_instances@[j]).id_of() != id@,
            decreases self.redis_instances.len() - i,
        {
            if self.redis_instances[i].id == String::from_str(id) {
                proof {
                    assert(self.redis_instances@[i as int].id_of() == id@);
                    assert(holds_id(self.redis_instances@, id@));
                    let k = index_of_id(self.redis_instances@, id@);
                    assert(self.redis_instances@[k].id_of() == id@);
                    assert(k == i);
                }
                return Some(i);
            }
            i = i + 1;
        }
        None
    }

    /// Opens a session under its configuration's id; one already open under the
    /// id is replaced.
    pub fn add_instance(&mut self, con: C, config: RedisConfig) -> (r: Result<(), SerializeError>)
        requires
            old(self).wf(),
        ensures
            r is Ok,
            final(self).wf(),
            final(self).sessions() == old(self).sessions().insert(config.id@, config),
            final(self).connection(config.id@) == con,
    {
        let found = self.find(config.id.as_str());
        match found {
            Some(i) => {
                proof {
                    lemma_remove_session(self.redis_instances@, i as int);
                }
                self.redis_instances.remove(i);
            },
            None => {},
        }
        let ghost mid = self.redis_instances@;
        let ghost id = config.id@;
        let instance = RedisInstance::new(config, con);
        proof {
            lemma_push_session(mid, instance);
        }
        self.redis_instances.push(instance);
        assert(self.sessions() =~= old(self).sessions().insert(id, config));
        Ok(())
    }

    /// Closes the session open under the id, if any.
    pub fn remove_con(&mut self, id: &str) -> (r: Result<(), SerializeError>)
        requires
            old(self).wf(),
        ensures
            r is Ok,
            final(self).wf(),
            final(self).sessions() == old(self).sessions().remove(id@),
    {
        match self.find(id) {
            Some(i) => {
                proof {
                    lemma_remove_session(self.redis_instances@, i as int);
                }
                self.redis_instances.remove(i);
            },
            None => {},
        }
        assert(self.sessions() =~= old(self).sessions().remove(id@));
        Ok(())
    }

    /// Closes every session.
    pub fn remove_con_all(&mut self) -> (r: Result<(), SerializeError>)
        ensures
            r is Ok,
            final(self).wf(),
            final(self).sessions() == Map::<Seq<char>, RedisConfig>::empty(),
    {
        self.redis_instances.clear();
        assert(self.sessions() =~= Map::<Seq<char>, RedisConfig>::empty());
        Ok(())
    }

    /// Whether a session is open under the id.
    pub fn is_connection(&self, id: &str) -> (r: bool)
        requires
            self.wf(),
        ensures
            r == self.sessions().dom().contains(id@),
    {
        self.find(id).is_some()
    }

    /// The connection of the session open under the id.
    pub fn get_con_mut(&mut self, id: &str) -> (r: Result<&mut C, SerializeError>)
        requires
            old(self).wf(),
        ensures
            r is Ok <==> old(self).sessions().dom().contains(id@),
            r is Err ==> r->Err_0.kind == ErrorKind::SessionNotFound,
            r is Ok ==> *r->Ok_0 == old(self).connection(id@),
    {
        match self.find(id) {
            Some(i) => Ok(&mut self.redis_instances[i].con),
            None => Err(SerializeError::of_kind(ErrorKind::SessionNotFound, "the client is not connected")),
        }
    }

    /// The connection and the configuration of the session open under the id.
    pub fn get_con_and_config(&mut self, id: &str) -> (r: Result<(&mut C, &RedisConfig), SerializeError>)
        requires
            old(self).wf(),
        ensures
            r is Ok <==> old(self).sessions().dom().contains(id@),
            r is Err ==> r->Err_0.kind == ErrorKind::SessionNotFound,
            r is Ok ==> *r->Ok_0.0 == old(self).connection(id@) && *r->Ok_0.1 == old(self).sessions()[id@],
    {
        match self.find(id) {
            Some(i) => {
                let instance = &mut self.redis_instances[i];
                Ok((&mut instance.con, &instance.config))
            },
            None => Err(SerializeError::of_kind(ErrorKind::SessionNotFound, "the client is not connected")),
        }
    }
}

/// A session is open right after it is added under its configuration's id, and
/// no longer open once that id is removed; other sessions are left as they were.
pub proof fn lemma_open_then_close(
    sessions: Map<Seq<char>, RedisConfig>,
    config: RedisConfig,
    other: Seq<char>,
)
    requires
        other != config.id@,
    ensures
        sessions.insert(config.id@, config).dom().contains(config.id@),
        !sessions.insert(config.id@, config).remove(config.id@).dom().contains(config.id@),
        sessions.insert(config.id@, config).remove(config.id@).dom().contains(other)
            == sessions.dom().contains(other),
{
}

} // verus!
