//! The registry of built-in commands.
//!
//! The registry binds names to handlers. A name is bound to at most one
//! handler: binding it again replaces the handler. The entries are kept in a
//! list, and the registry stands for the map from names to handlers that the
//! list spells out.

use vstd::prelude::*;
use crate::builtin::{Builtin, IntoBuiltin};
use crate::output::CmdOutput;

verus! {

/// A registered handler: a built-in command of any type, boxed.
#[verifier::reject_recursive_types(Sh)]
#[verifier::reject_recursive_types(St)]
pub struct Handler<Sh, St> {
    pub inner: Box<dyn Builtin<Sh, St>>,
}

impl<Sh, St> Handler<Sh, St> {
    /// Boxes a command: a run of the result gives what a run of the command
    /// gives, and nothing else.
    pub fn new<B: Builtin<Sh, St> + 'static>(builtin: B) -> (handler: Self)
        ensures
            Handler::boxes(builtin, handler),
    {
        builtin_object(Box::new(builtin))
    }

    /// Whether `handler` is `builtin`, boxed: a run of it gives what a run of
    /// `builtin` gives, and nothing else.
    pub open spec fn boxes<B: Builtin<Sh, St>>(builtin: B, handler: Self) -> bool {
        forall|sh: &Sh, states: &St, args: &Vec<String>, out: anyhow::Result<CmdOutput>|
            #[trigger] handler.inner.runs(sh, states, args, out) == builtin.runs(
                sh,
                states,
                args,
                out,
            )
    }

    /// Whether `handler` is `builtin`, lifted and boxed: a run of it gives
    /// what a run of the lifted `builtin` gives, and nothing else.
    pub open spec fn lifts<I, T: IntoBuiltin<Sh, St, I>>(builtin: T, handler: Self) -> bool {
        forall|sh: &Sh, states: &St, args: &Vec<String>, out: anyhow::Result<CmdOutput>|
            #[trigger] handler.inner.runs(sh, states, args, out) == builtin.lifted_runs(
                sh,
                states,
                args,
                out,
            )
    }
}

/// The conversion of a `Box<B>` into a `Box<dyn Builtin>`, which std makes
/// where the one stands for the other.
///
/// A call through a trait object runs the method of the value that was
/// boxed. The contract says so of `runs`: a run of the object gives what a
/// run of the boxed command gives, and nothing else. Verus does not follow
/// the conversion, so this is taken on trust.
#[verifier::external_body]
fn builtin_object<Sh, St, B: Builtin<Sh, St> + 'static>(
    builtin: Box<B>,
) -> (handler: Handler<Sh, St>)
    ensures
        Handler::boxes(*builtin, handler),
{
    Handler { inner: builtin }
}

/// A name and the handler that it is bound to.
pub type Entry<Sh, St> = (String, Handler<Sh, St>);

/// Whether no two entries carry the same name.
pub open spec fn distinct_names<Sh, St>(entries: Seq<Entry<Sh, St>>) -> bool {
    forall|i: int, j: int|
        0 <= i < j < entries.len() ==> (#[trigger] entries[i]).0@ != (#[trigger] entries[j]).0@
}

/// Whether some entry carries the name.
pub open spec fn has_name<Sh, St>(entries: Seq<Entry<Sh, St>>, name: Seq<char>) -> bool {
    exists|i: int| 0 <= i < entries.len() && (#[trigger] entries[i]).0@ == name
}

/// Whether `entries` lists each binding of `registry` once and nothing else.
pub open spec fn lists<Sh, St>(
    entries: Seq<Entry<Sh, St>>,
    registry: Map<Seq<char>, Handler<Sh, St>>,
) -> bool {
    &&& distinct_names(entries)
    &&& forall|i: int|
        0 <= i < entries.len() ==> {
            &&& registry.contains_key((#[trigger] entries[i]).0@)
            &&& registry[entries[i].0@] == entries[i].1
        }
    &&& forall|name: Seq<char>| #[trigger] registry.contains_key(name) ==> has_name(entries, name)
}

/// The place of an entry that carries the name.
spec fn place_of<Sh, St>(entries: Seq<Entry<Sh, St>>, name: Seq<char>) -> int {
    choose|i: int| 0 <= i < entries.len() && (#[trigger] entries[i]).0@ == name
}

/// The map from names to handlers that a list of entries spells out.
spec fn as_map<Sh, St>(entries: Seq<Entry<Sh, St>>) -> Map<Seq<char>, Handler<Sh, St>> {
    Map::new(
        |name: Seq<char>| has_name(entries, name),
        |name: Seq<char>| entries[place_of(entries, name)].1,
    )
}

/// Each entry of a list without repeated names is a binding of its map.
proof fn lemma_as_map_at<Sh, St>(entries: Seq<Entry<Sh, St>>, i: int)
    requires
        distinct_names(entries),
        0 <= i < entries.len(),
    ensures
        as_map(entries).contains_key(entries[i].0@),
        as_map(entries)[entries[i].0@] == entries[i].1,
        place_of(entries, entries[i].0@) == i,
{
    let name = entries[i].0@;
    assert(has_name(entries, name));
    let j = place_of(entries, name);
    if j < i {
        assert(entries[j].0@ != entries[i].0@);
    } else if i < j {
        assert(entries[i].0@ != entries[j].0@);
    }
}

/// An entry with a new name, put at the end, adds its binding to the map.
proof fn lemma_as_map_push<Sh, St>(entries: Seq<Entry<Sh, St>>, entry: Entry<Sh, St>)
    requires
        distinct_names(entries),
        !has_name(entries, entry.0@),
    ensures
        distinct_names(entries.push(entry)),
        as_map(entries.push(entry)) == as_map(entries).insert(entry.0@, entry.1),
{
    let after = entries.push(entry);
    let target = as_map(entries).insert(entry.0@, entry.1);
    assert forall|i: int, j: int| 0 <= i < j < after.len() implies (#[trigger] after[i]).0@ != (
    #[trigger] after[j]).0@ by {
        if j == entries.len() {
            assert(after[i] == entries[i]);
            if after[i].0@ == entry.0@ {
                assert(has_name(entries, entry.0@));
            }
        } else {
            assert(after[i] == entries[i] && after[j] == entries[j]);
        }
    }
    assert forall|name: Seq<char>| as_map(after).contains_key(name) <==> target.contains_key(
        name,
    ) by {
        if has_name(after, name) {
            let i = place_of(after, name);
            if i < entries.len() {
                assert(entries[i] == after[i]);
                assert(has_name(entries, name));
            }
        }
        if has_name(entries, name) {
            let i = place_of(entries, name);
            assert(after[i] == entries[i]);
            assert(has_name(after, name));
        }
        if name == entry.0@ {
            assert(after[entries.len() as int] == entry);
            assert(has_name(after, name));
        }
    }
    assert forall|name: Seq<char>| as_map(after).contains_key(name) implies as_map(after)[name]
        == target[name] by {
        let i = place_of(after, name);
        lemma_as_map_at(after, i);
        if i < entries.len() {
            assert(after[i] == entries[i]);
            lemma_as_map_at(entries, i);
        }
    }
    assert(as_map(after) =~= target);
}

/// An entry put in the place of one with the same name rebinds the name in
/// the map.
proof fn lemma_as_map_update<Sh, St>(entries: Seq<Entry<Sh, St>>, at: int, entry: Entry<Sh, St>)
    requires
        distinct_names(entries),
        0 <= at < entries.len(),
        entries[at].0@ == entry.0@,
    ensures
        distinct_names(entries.update(at, entry)),
        as_map(entries.update(at, entry)) == as_map(entries).insert(entry.0@, entry.1),
{
    let after = entries.update(at, entry);
    let target = as_map(entries).insert(entry.0@, entry.1);
    assert forall|i: int, j: int| 0 <= i < j < after.len() implies (#[trigger] after[i]).0@ != (
    #[trigger] after[j]).0@ by {
        assert(after[i].0@ == entries[i].0@);
        assert(after[j].0@ == entries[j].0@);
    }
    assert forall|name: Seq<char>| as_map(after).contains_key(name) <==> target.contains_key(
        name,
    ) by {
        if has_name(after, name) {
            let i = place_of(after, name);
            assert(after[i].0@ == entries[i].0@);
            assert(has_name(entries, name));
        }
        if has_name(entries, name) {
            let i = place_of(entries, name);
            assert(after[i].0@ == entries[i].0@);
            assert(has_name(after, name));
        }
    }
    assert forall|name: Seq<char>| as_map(after).contains_key(name) implies as_map(after)[name]
        == target[name] by {
        let i = place_of(after, name);
        lemma_as_map_at(after, i);
        if i != at {
            assert(after[i] == entries[i]);
            lemma_as_map_at(entries, i);
        }
    }
    assert(as_map(after) =~= target);
}

/// A list without repeated names spells out a map with as many bindings as
/// the list has entries.
proof fn lemma_as_map_len<Sh, St>(entries: Seq<Entry<Sh, St>>)
    requires
        distinct_names(entries),
    ensures
        as_map(entries).dom().finite(),
        as_map(entries).dom().len() == entries.len(),
    decreases entries.len(),
{
    if entries.len() == 0 {
        assert(as_map(entries).dom() =~= Set::<Seq<char>>::empty());
    } else {
        let front = entries.drop_last();
        let entry = entries.last();
        assert(entries =~= front.push(entry));
        assert forall|i: int, j: int| 0 <= i < j < front.len() implies (#[trigger] front[i]).0@ != (
        #[trigger] front[j]).0@ by {
            assert(front[i] == entries[i] && front[j] == entries[j]);
        }
        if has_name(front, entry.0@) {
            let i = place_of(front, entry.0@);
            assert(entries[i] == front[i]);
            assert(entries[i].0@ != entries[entries.len() - 1].0@);
        }
        lemma_as_map_len(front);
        lemma_as_map_push(front, entry);
        assert(as_map(entries).dom() =~= as_map(front).dom().insert(entry.0@));
    }
}

/// Registry overwrite: of two handlers bound to one name one after the
/// other, the second is the one that the name is bound to, and the registry
/// is the one it would be had the first never been bound.
pub proof fn lemma_insert_overwrites<Sh, St>(
    registry: Map<Seq<char>, Handler<Sh, St>>,
    name: Seq<char>,
    first: Handler<Sh, St>,
    second: Handler<Sh, St>,
)
    ensures
        registry.insert(name, first).insert(name, second)[name] == second,
        registry.insert(name, first).insert(name, second) == registry.insert(name, second),
        registry.insert(name, first).insert(name, second).dom() == registry.insert(
            name,
            first,
        ).dom(),
{
    assert(registry.insert(name, first).insert(name, second) =~= registry.insert(name, second));
    assert(registry.insert(name, first).insert(name, second).dom() =~= registry.insert(
        name,
        first,
    ).dom());
}

/// The store of all registered built-in commands, by name.
#[verifier::reject_recursive_types(Sh)]
#[verifier::reject_recursive_types(St)]
pub struct Builtins<Sh, St> {
    builtins: Vec<Entry<Sh, St>>,
}

impl<Sh, St> View for Builtins<Sh, St> {
    type V = Map<Seq<char>, Handler<Sh, St>>;

    /// The handler that each registered name is bound to.
    closed spec fn view(&self) -> Self::V {
        as_map(self.builtins@)
    }
}

impl<Sh, St> Builtins<Sh, St> {
    /// No name is registered twice.
    #[verifier::type_invariant]
    spec fn well_formed(self) -> bool {
        distinct_names(self.builtins@)
    }

    /// A registry with no entries.
    ///
    /// [`Builtins::default`] gives the registry that starts with the baseline
    /// commands.
    pub fn new() -> (registry: Self)
        ensures
            registry@ == Map::<Seq<char>, Handler<Sh, St>>::empty(),
            registry@.dom().len() == 0,
    {
        let registry = Builtins { builtins: Vec::new() };
        assert(registry@ =~= Map::<Seq<char>, Handler<Sh, St>>::empty());
        registry
    }

    /// The place of the entry that carries the name, if there is one.
    fn find(entries: &Vec<Entry<Sh, St>>, name: &String) -> (place: Option<usize>)
        ensures
            match place {
                Some(i) => i < entries@.len() && entries@[i as int].0@ == name@,
                None => !has_name(entries@, name@),
            },
    {
        let mut i: usize = 0;
        while i < entries.len()
            invariant
                i <= entries@.len(),
                forall|j: int| 0 <= j < i ==> (#[trigger] entries@[j]).0@ != name@,
            decreases entries@.len() - i,
        {
            if entries[i].0 == *name {
                return Some(i);
            }
            i += 1;
        }
        None
    }

    /// Binds the name to the handler. A handler that the name was bound to
    /// before is dropped; every other binding stays.
    pub fn insert_handler(&mut self, name: &str, handler: Handler<Sh, St>)
        ensures
            final(self)@ == old(self)@.insert(name@, handler),
    {
        proof {
            use_type_invariant(&*self);
        }
        let key = name.to_owned();
        let mut entries = Vec::new();
        core::mem::swap(&mut entries, &mut self.builtins);
        let ghost before = entries@;
        let ghost entry = (key, handler);
        match Self::find(&entries, &key) {
            Some(i) => {
                entries[i] = (key, handler);
                proof {
                    lemma_as_map_update(before, i as int, entry);
                }
            },
            None => {
                entries.push((key, handler));
                proof {
                    lemma_as_map_push(before, entry);
                }
            },
        }
        self.builtins = entries;
    }

    /// Registers a command under the name: a handler, or a plain function,
    /// which is lifted. A handler that the name was bound to before is
    /// dropped; every other binding stays.
    ///
    /// A caller that hands in a plain function shows that it can be lifted
    /// with `FunctionBuiltin::lemma_liftable` and learns what a run of it
    /// gives from `FunctionBuiltin::lemma_lifted_runs`; for a handler both
    /// are in [`lemma_handler_liftable`](crate::builtin::lemma_handler_liftable).
    pub fn insert<I, T: IntoBuiltin<Sh, St, I>>(&mut self, name: &str, builtin: T) where
        T::Builtin: 'static,

        requires
            builtin.liftable(),
        ensures
            exists|handler: Handler<Sh, St>|
                {
                    &&& #[trigger] Handler::lifts(builtin, handler)
                    &&& final(self)@ == old(self)@.insert(name@, handler)
                },
    {
        let handler = Handler::new(builtin.into_builtin());
        let ghost bound = handler;
        self.insert_handler(name, handler);
        assert(Handler::lifts(builtin, bound));
    }

    /// All registered commands with their names, each once, in no order that
    /// a caller can rely on.
    pub fn iter(&self) -> (entries: &[Entry<Sh, St>])
        ensures
            lists(entries@, self@),
            self@.dom().finite(),
            entries@.len() == self@.dom().len(),
    {
        proof {
            use_type_invariant(self);
            lemma_as_map_len(self.builtins@);
            assert forall|i: int| 0 <= i < self.builtins@.len() implies {
                &&& self@.contains_key((#[trigger] self.builtins@[i]).0@)
                &&& self@[self.builtins@[i].0@] == self.builtins@[i].1
            } by {
                lemma_as_map_at(self.builtins@, i);
            }
        }
        self.builtins.as_slice()
    }

    /// The handler that the name is bound to, if it is bound. A run of what
    /// is handed out gives what a run of the bound handler gives.
    pub fn get(&self, name: &str) -> (found: Option<&Box<dyn Builtin<Sh, St>>>)
        ensures
            match found {
                Some(handler) => {
                    &&& self@.contains_key(name@)
                    &&& handler === &self@[name@].inner
                    &&& forall|
                        sh: &Sh,
                        states: &St,
                        args: &Vec<String>,
                        out: anyhow::Result<CmdOutput>,
                    |
                        #[trigger] handler.runs(sh, states, args, out) == self@[name@].inner.runs(
                            sh,
                            states,
                            args,
                            out,
                        )
                },
                None => !self@.contains_key(name@),
            },
    {
        proof {
            use_type_invariant(self);
        }
        let key = name.to_owned();
        match Self::find(&self.builtins, &key) {
            Some(i) => {
                proof {
                    lemma_as_map_at(self.builtins@, i as int);
                }
                Some(&self.builtins[i].1.inner)
            },
            None => None,
        }
    }
}

} // verus!
