use vstd::prelude::*;

use crate::config::RedisConfig;
use crate::history::{after_push_all, join_words, lower_of, History};

verus! {

/// One command for the store: its verb, then its arguments.
#[derive(Debug)]
pub struct Command {
    pub args: Vec<String>,
}

impl View for Command {
    type V = Seq<Seq<char>>;

    open spec fn view(&self) -> Seq<Seq<char>> {
        self.args.deep_view()
    }
}

/// The audit text of a command: each word lower-cased, joined by spaces.
pub open spec fn command_text(words: Seq<Seq<char>>) -> Seq<char> {
    join_words(words.map_values(|w: Seq<char>| lower_of(w)))
}

/// Records commands in the audit log.
pub trait CmdLog {
    /// The texts appended, in order.
    spec fn logged(&self) -> Seq<Seq<char>>;

    /// Appends the audit text of each command under the session's name.
    fn log(&self, history: &mut History, config: &RedisConfig)
        requires
            old(history).wf(),
        ensures
            final(history).wf(),
            final(history)@ == after_push_all(old(history)@, config.name@, self.logged()),
    ;
}

impl Command {
    /// A command of the verb alone.
    pub fn new(verb: &str) -> (r: Command)
        ensures
            r@ == seq![verb@],
    {
        let mut args: Vec<String> = Vec::new();
        args.push(String::from_str(verb));
        let r = Command { args };
        assert(r@ =~= seq![verb@]);
        r
    }

    /// Adds an argument at the end.
    pub fn arg(&mut self, a: &str)
        ensures
            final(self)@ == old(self)@.push(a@),
    {
        self.args.push(String::from_str(a));
        assert(self@ =~= old(self)@.push(a@));
    }

    /// The command with one more argument.
    pub fn with(self, a: &str) -> (r: Command)
        ensures
            r@ == self@.push(a@),
    {
        let mut r = self;
        r.arg(a);
        r
    }
}

impl CmdLog for Command {
    open spec fn logged(&self) -> Seq<Seq<char>> {
        seq![command_text(self@)]
    }

    fn log(&self, history: &mut History, config: &RedisConfig) {
        let ghost words = self@;
        let mut lowered: Vec<String> = Vec::new();
        let mut i: usize = 0;
        while i < self.args.len()
            invariant
                i <= self.args.len(),
                words == self@,
                lowered.deep_view() =~= words.map_values(|w: Seq<char>| lower_of(w)).subrange(
                    0,
                    i as int,
                ),
            decreases self.args.len() - i,
        {
            let w = crate::history::lowercase(self.args[i].as_str());
            let ghost prev = lowered.deep_view();
            lowered.push(w);
            assert(lowered.deep_view() =~= prev.push(w@));
            i = i + 1;
        }
        assert(lowered.deep_view() =~= words.map_values(|w: Seq<char>| lower_of(w)));
        let text = crate::history::join_with_spaces(&lowered);
        let ghost start = history@;
        history.add_log(text, config);
        assert(self.logged().drop_last() =~= Seq::<Seq<char>>::empty());
        assert(after_push_all(start, config.name@, Seq::<Seq<char>>::empty()) == start);
    }
}

/// Commands sent together in one round trip.
#[derive(Debug)]
pub struct Pipeline {
    pub commands: Vec<Command>,
}

impl View for Pipeline {
    type V = Seq<Seq<Seq<char>>>;

    open spec fn view(&self) -> Seq<Seq<Seq<char>>> {
        self.commands@.map_values(|c: Command| c@)
    }
}

impl Pipeline {
    /// A pipeline of no command.
    pub fn new() -> (r: Pipeline)
        ensures
            r@ == Seq::<Seq<Seq<char>>>::empty(),
    {
        let r = Pipeline { commands: Vec::new() };
        assert(r@ =~= Seq::<Seq<Seq<char>>>::empty());
        r
    }

    /// Adds a command at the end.
    pub fn add(&mut self, c: Command)
        ensures
            final(self)@ == old(self)@.push(c@),
    {
        self.commands.push(c);
        assert(self@ =~= old(self)@.push(c@));
    }
}

impl CmdLog for Pipeline {
    open spec fn logged(&self) -> Seq<Seq<char>> {
        self@.map_values(|c: Seq<Seq<char>>| command_text(c))
    }

    fn log(&self, history: &mut History, config: &RedisConfig) {
        let ghost texts = self.logged();
        let ghost start = history@;
        let mut i: usize = 0;
        while i < self.commands.len()
            invariant
                i <= self.commands.len(),
                texts == self.logged(),
                history.wf(),
                history@ == after_push_all(start, config.name@, texts.subrange(0, i as int)),
            decreases self.commands.len() - i,
        {
            let ghost before = history@;
            self.commands[i].log(history, config);
            proof {
                let next = texts.subrange(0, i as int + 1);
                assert(next.drop_last() =~= texts.subrange(0, i as int));
                assert(next.last() == command_text(self.commands@[i as int]@));
                assert(after_push_all(before, config.name@, Seq::<Seq<char>>::empty()) == before);
                assert(seq![command_text(self.commands@[i as int]@)].drop_last() =~= Seq::<
                    Seq<char>,
                >::empty());
            }
            i = i + 1;
        }
        assert(texts.subrange(0, self.commands.len() as int) =~= texts);
    }
}

} // verus!
