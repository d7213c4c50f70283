use vstd::prelude::*;
use vstd::string::*;

use crate::config::RedisConfig;

verus! {

/// Most entries the audit log holds.
pub const MAX_HISTORY: usize = 5000;

/// Oldest entries dropped at once when the log is full.
pub const EVICTED_BATCH: usize = 2500;

/// What `str::to_lowercase` makes of a text.
pub uninterp spec fn lower_of(s: Seq<char>) -> Seq<char>;

/// Relies on `str::to_lowercase`: the lower-case form of the characters.
#[verifier::external_body]
pub(crate) fn lowercase(s: &str) -> (r: String)
    ensures
        r@ == lower_of(s@),
{
    s.to_lowercase()
}

/// Words joined by single spaces.
pub open spec fn join_words(words: Seq<Seq<char>>) -> Seq<char>
    decreases words.len(),
{
    if words.len() == 0 {
        Seq::empty()
    } else if words.len() == 1 {
        words[0]
    } else {
        join_words(words.drop_last()) + seq![' '] + words.last()
    }
}

/// An audit entry: the session's name in brackets, a space, then the text.
pub open spec fn entry_text(name: Seq<char>, text: Seq<char>) -> Seq<char> {
    seq!['['] + name + seq![']', ' '] + text
}

/// The log after one entry is appended: a full log first loses its oldest batch.
pub open spec fn after_push(log: Seq<Seq<char>>, entry: Seq<char>) -> Seq<Seq<char>> {
    if log.len() >= MAX_HISTORY {
        log.subrange(EVICTED_BATCH as int, log.len() as int).push(entry)
    } else {
        log.push(entry)
    }
}

/// Appending to a log within capacity leaves it within capacity. When the log is
/// full, exactly its oldest batch goes before the new entry is added, so the
/// oldest entry left is the one that stood right after that batch.
pub proof fn lemma_append_keeps_capacity(log: Seq<Seq<char>>, entry: Seq<char>)
    requires
        log.len() <= MAX_HISTORY,
    ensures
        after_push(log, entry).len() <= MAX_HISTORY,
        after_push(log, entry).last() == entry,
        log.len() < MAX_HISTORY ==> after_push(log, entry) == log.push(entry),
        log.len() == MAX_HISTORY ==> after_push(log, entry) == log.subrange(
            EVICTED_BATCH as int,
            MAX_HISTORY as int,
        ).push(entry),
        log.len() == MAX_HISTORY ==> after_push(log, entry).len() == MAX_HISTORY - EVICTED_BATCH
            + 1,
        log.len() == MAX_HISTORY ==> after_push(log, entry)[0] == log[EVICTED_BATCH as int],
{
}

/// The log after the texts are appended in order, each under the session's name.
pub open spec fn after_push_all(
    log: Seq<Seq<char>>,
    name: Seq<char>,
    texts: Seq<Seq<char>>,
) -> Seq<Seq<char>>
    decreases texts.len(),
{
    if texts.len() == 0 {
        log
    } else {
        after_push(after_push_all(log, name, texts.drop_last()), entry_text(name, texts.last()))
    }
}

/// Joins words with single spaces.
pub fn join_with_spaces(words: &Vec<String>) -> (r: String)
    ensures
        r@ == join_words(words.deep_view()),
{
    let ghost w = words.deep_view();
    let mut r = String::new();
    let mut i: usize = 0;
    while i < words.len()
        invariant
            i <= words.len(),
            w == words.deep_view(),
            r@ == join_words(w.subrange(0, i as int)),
        decreases words.len() - i,
    {
        proof {
            assert(w.subrange(0, i as int + 1).drop_last() =~= w.subrange(0, i as int));
            reveal_strlit(" ");
        }
        if i > 0 {
            r.append(" ");
        } else {
            assert(w.subrange(0, 1) =~= seq![w[0]]);
        }
        r.append(words[i].as_str());
        i = i + 1;
    }
    assert(w.subrange(0, words.len() as int) =~= w);
    r
}

/// The bounded, chronological log of the commands sent, shared by all sessions.
pub struct History {
    logs: Vec<String>,
}

impl View for History {
    type V = Seq<Seq<char>>;

    closed spec fn view(&self) -> Seq<Seq<char>> {
        self.logs.deep_view()
    }
}

impl History {
    /// The log holds no more than its capacity.
    pub open spec fn wf(&self) -> bool {
        self@.len() <= MAX_HISTORY
    }

    /// An empty log.
    pub fn new() -> (r: History)
        ensures
            r.wf(),
            r@ == Seq::<Seq<char>>::empty(),
    {
        let r = History { logs: Vec::new() };
        assert(r@ =~= Seq::<Seq<char>>::empty());
        r
    }

    /// How many entries the log holds: never more than the capacity.
    pub fn len(&self) -> (r: usize)
        ensures
            r == self@.len(),
    {
        self.logs.len()
    }

    /// Appends the entry `[<session name>] <value>`; a full log first drops its
    /// oldest batch.
    pub fn add_log(&mut self, value: String, config: &RedisConfig)
        requires
            old(self).wf(),
        ensures
            final(self).wf(),
            final(self)@ == after_push(old(self)@, entry_text(config.name@, value@)),
    {
        let ghost before = self@;
        if self.logs.len() >= MAX_HISTORY {
            let kept = self.logs.split_off(EVICTED_BATCH);
            self.logs = kept;
            assert(self@ =~= before.subrange(EVICTED_BATCH as int, before.len() as int));
        }
        let ghost mid = self@;
        let mut entry = String::from_str("[");
        entry.append(config.name.as_str());
        entry.append("] ");
        entry.append(value.as_str());
        proof {
            reveal_strlit("[");
            reveal_strlit("] ");
            assert("["@ =~= seq!['[']);
            assert("] "@ =~= seq![']', ' ']);
        }
        assert(entry@ =~= entry_text(config.name@, value@));
        self.logs.push(entry);
        assert(self@ =~= mid.push(entry_text(config.name@, value@)));
        assert(self@ =~= after_push(old(self)@, entry_text(config.name@, value@)));
    }

    /// Appends the words joined by spaces, lower-cased.
    pub fn add_log_vec(&mut self, values: Vec<String>, config: &RedisConfig)
        requires
            old(self).wf(),
        ensures
            final(self).wf(),
            final(self)@ == after_push(
                old(self)@,
                entry_text(config.name@, lower_of(join_words(values.deep_view()))),
            ),
    {
        let joined = join_with_spaces(&values);
        let log = lowercase(joined.as_str());
        self.add_log(log, config)
    }

    /// The entries, oldest first.
    pub fn logs(&self) -> (r: Vec<String>)
        ensures
            r.deep_view() == self@,
    {
        let mut r: Vec<String> = Vec::new();
        let mut i: usize = 0;
        while i < self.logs.len()
            invariant
                i <= self.logs.len(),
                r.deep_view() =~= self.logs.deep_view().subrange(0, i as int),
            decreases self.logs.len() - i,
        {
            let ghost prev = r.deep_view();
            r.push(self.logs[i].clone());
            assert(r.deep_view() =~= prev.push(self.logs.deep_view()[i as int]));
            assert(self.logs.deep_view().subrange(0, i as int + 1) =~= self.logs.deep_view().subrange(0, i as int).push(self.logs.deep_view()[i as int]));
            i = i + 1;
        }
        assert(r.deep_view() =~= self.logs.deep_view());
        r
    }

    /// Empties the log.
    pub fn clear(&mut self)
        ensures
            final(self).wf(),
            final(self)@ == Seq::<Seq<char>>::empty(),
    {
        self.logs = Vec::new();
        assert(self@ =~= Seq::<Seq<char>>::empty());
    }
}

} // verus!
