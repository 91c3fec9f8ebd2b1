//! Deferred mutations of the shell.
//!
//! Code that holds only shared access to the shell cannot change it. It
//! schedules a command instead; the shell drains the queue once per cycle and
//! applies the commands, in the order in which they were scheduled, with
//! exclusive access to itself and to the state store.

use std::collections::VecDeque;
use vstd::prelude::*;

verus! {

/// A mutation of the shell and the state store that is applied later.
///
/// `apply` has no way to report a failure: a command that can fail records
/// the failure in the shell or in the store.
pub trait Command<Sh, St>: Send + 'static {
    /// Which changes an application may make. An implementation that says
    /// nothing allows every change.
    open spec fn applies(&self, sh_before: Sh, states_before: St, sh_after: Sh, states_after: St)
        -> bool {
        true
    }

    /// Applies the mutation.
    fn apply(&self, sh: &mut Sh, states: &mut St)
        ensures
            self.applies(*old(sh), *old(states), *final(sh), *final(states)),
    ;
}

/// A function of the shell and the state store as a [`Command`].
///
/// Its `applies` allows every change: what the function changes is stated of
/// `apply` alone, for a caller that applies the command itself.
pub struct FnCommand<Sh, St, F: Fn(&mut Sh, &mut St)> {
    f: F,
    marker: core::marker::PhantomData<(Sh, St)>,
}

impl<Sh, St, F: Fn(&mut Sh, &mut St)> FnCommand<Sh, St, F> {
    /// The wrapped function accepts every shell and every store.
    #[verifier::type_invariant]
    spec fn well_formed(self) -> bool {
        forall|sh: &mut Sh, states: &mut St| call_requires(self.f, (sh, states))
    }

    /// The wrapped function.
    pub closed spec fn function(self) -> F {
        self.f
    }

    /// Wraps a function that can be called on every shell and every store.
    pub fn new(f: F) -> (command: Self)
        requires
            forall|sh: &mut Sh, states: &mut St| call_requires(f, (sh, states)),
        ensures
            command.function() == f,
    {
        FnCommand { f, marker: core::marker::PhantomData }
    }
}

impl<Sh: Send + 'static, St: Send + 'static, F> Command<Sh, St> for FnCommand<Sh, St, F> where
    F: Fn(&mut Sh, &mut St) + Send + 'static,
{
    /// The change is one that the function makes.
    fn apply(&self, sh: &mut Sh, states: &mut St)
        ensures
            exists|a: &mut Sh, b: &mut St|
                {
                    &&& *a == *old(sh) && *final(a) == *final(sh)
                    &&& *b == *old(states) && *final(b) == *final(states)
                    &&& #[trigger] call_ensures(self.function(), (a, b), ())
                },
    {
        proof {
            use_type_invariant(self);
            assert(self.function() == self.f);
        }
        (self.f)(sh, states);
    }
}

/// A scheduled command: a command of any type, boxed.
#[verifier::reject_recursive_types(Sh)]
#[verifier::reject_recursive_types(St)]
pub struct Deferred<Sh, St> {
    pub command: Box<dyn Command<Sh, St>>,
}

impl<Sh: 'static, St: 'static> Deferred<Sh, St> {
    /// Boxes a command: applying the result may change what applying the
    /// command may change, and nothing else.
    pub fn new<C: Command<Sh, St>>(command: C) -> (deferred: Self)
        ensures
            Deferred::boxes(command, deferred),
    {
        command_object(Box::new(command))
    }

    /// Whether `deferred` is `command`, boxed: applying it may change what
    /// applying `command` may change, and nothing else.
    pub open spec fn boxes<C: Command<Sh, St>>(command: C, deferred: Self) -> bool {
        forall|sh_before: Sh, states_before: St, sh_after: Sh, states_after: St|
            #[trigger] deferred.command.applies(sh_before, states_before, sh_after, states_after)
                == command.applies(sh_before, states_before, sh_after, states_after)
    }
}

/// The conversion of a `Box<C>` into a `Box<dyn Command>`, which std makes
/// where the one stands for the other.
///
/// A call through a trait object runs the method of the value that was
/// boxed. The contract says so of `applies`: the object allows the changes
/// that the boxed command allows, and no others. Verus does not follow the
/// conversion, so this is taken on trust.
#[verifier::external_body]
fn command_object<Sh: 'static, St: 'static, C: Command<Sh, St>>(
    command: Box<C>,
) -> (deferred: Deferred<Sh, St>)
    ensures
        Deferred::boxes(*command, deferred),
{
    Deferred { command }
}

/// The queue once a command is scheduled: the command waits behind all that
/// waited before.
pub open spec fn scheduled<Sh, St>(
    queue: Seq<Deferred<Sh, St>>,
    command: Deferred<Sh, St>,
) -> Seq<Deferred<Sh, St>> {
    queue.push(command)
}

/// What a drain hands out, and what it leaves waiting: all, oldest first, and
/// nothing.
pub open spec fn drained<Sh, St>(queue: Seq<Deferred<Sh, St>>) -> (
    Seq<Deferred<Sh, St>>,
    Seq<Deferred<Sh, St>>,
) {
    (queue, Seq::empty())
}

/// Whether applying the commands of `batch` one after the other, first to
/// last, can lead from the shell and store before to the shell and store
/// after.
pub open spec fn applied_in_order<Sh, St>(
    batch: Seq<Deferred<Sh, St>>,
    sh_before: Sh,
    states_before: St,
    sh_after: Sh,
    states_after: St,
) -> bool
    decreases batch.len(),
{
    if batch.len() == 0 {
        sh_after == sh_before && states_after == states_before
    } else {
        exists|sh: Sh, states: St|
            {
                &&& applied_in_order(batch.drop_last(), sh_before, states_before, sh, states)
                &&& #[trigger] batch.last().command.applies(sh, states, sh_after, states_after)
            }
    }
}

/// One more application extends a run of applications.
proof fn lemma_applied_step<Sh, St>(
    batch: Seq<Deferred<Sh, St>>,
    sh_before: Sh,
    states_before: St,
    sh_mid: Sh,
    states_mid: St,
    sh_after: Sh,
    states_after: St,
)
    requires
        batch.len() > 0,
        applied_in_order(batch.drop_last(), sh_before, states_before, sh_mid, states_mid),
        batch.last().command.applies(sh_mid, states_mid, sh_after, states_after),
    ensures
        applied_in_order(batch, sh_before, states_before, sh_after, states_after),
{
}

/// Queue order: of two commands scheduled one after the other on an empty
/// queue, a drain hands out the first, then the second, and nothing else.
pub proof fn lemma_drain_keeps_order<Sh, St>(first: Deferred<Sh, St>, second: Deferred<Sh, St>)
    ensures
        drained(scheduled(scheduled(Seq::empty(), first), second)).0 == seq![first, second],
{
    assert(Seq::<Deferred<Sh, St>>::empty().push(first).push(second) =~= seq![first, second]);
}

/// Queue order, on any queue: what is scheduled later comes out later, behind
/// all that waited before.
pub proof fn lemma_scheduled_waits_behind<Sh, St>(
    queue: Seq<Deferred<Sh, St>>,
    first: Deferred<Sh, St>,
    second: Deferred<Sh, St>,
)
    ensures
        drained(scheduled(scheduled(queue, first), second)).0 == queue + seq![first, second],
{
    assert(queue.push(first).push(second) =~= queue + seq![first, second]);
}

/// Applying a batch of two commands leads exactly where applying the first
/// and then the second leads.
pub proof fn lemma_applied_pair<Sh, St>(
    first: Deferred<Sh, St>,
    second: Deferred<Sh, St>,
    sh_before: Sh,
    states_before: St,
    sh_after: Sh,
    states_after: St,
)
    ensures
        applied_in_order(seq![first, second], sh_before, states_before, sh_after, states_after)
            <==> exists|sh: Sh, states: St|
            {
                &&& #[trigger] first.command.applies(sh_before, states_before, sh, states)
                &&& second.command.applies(sh, states, sh_after, states_after)
            },
{
    let both = seq![first, second];
    let one = seq![first];
    assert(both.drop_last() =~= one);
    assert(one.drop_last() =~= Seq::<Deferred<Sh, St>>::empty());
    reveal_with_fuel(applied_in_order, 3);
    if applied_in_order(both, sh_before, states_before, sh_after, states_after) {
        let (sh, states) = choose|sh: Sh, states: St|
            {
                &&& applied_in_order(both.drop_last(), sh_before, states_before, sh, states)
                &&& #[trigger] both.last().command.applies(sh, states, sh_after, states_after)
            };
        assert(first.command.applies(sh_before, states_before, sh, states));
    }
    if exists|sh: Sh, states: St|
        {
            &&& #[trigger] first.command.applies(sh_before, states_before, sh, states)
            &&& second.command.applies(sh, states, sh_after, states_after)
        } {
        let (sh, states) = choose|sh: Sh, states: St|
            {
                &&& #[trigger] first.command.applies(sh_before, states_before, sh, states)
                &&& second.command.applies(sh, states, sh_after, states_after)
            };
        lemma_applied_step(one, sh_before, states_before, sh_before, states_before, sh, states);
        lemma_applied_step(both, sh_before, states_before, sh, states, sh_after, states_after);
    }
}

/// Drain atomicity: a drain hands out what waited when it was called, and a
/// command that is scheduled afterwards, be it by a command of that batch, is
/// no part of it: it is the whole of the next batch.
pub proof fn lemma_scheduled_after_drain_waits<Sh, St>(
    queue: Seq<Deferred<Sh, St>>,
    later: Deferred<Sh, St>,
)
    ensures
        ({
            let (batch, left) = drained(queue);
            let (next_batch, _) = drained(scheduled(left, later));
            &&& batch == queue
            &&& next_batch == seq![later]
        }),
{
    assert(Seq::<Deferred<Sh, St>>::empty().push(later) =~= seq![later]);
}

/// The queue of scheduled commands, oldest first.
#[verifier::reject_recursive_types(Sh)]
#[verifier::reject_recursive_types(St)]
pub struct Commands<Sh, St> {
    queue: VecDeque<Deferred<Sh, St>>,
}

impl<Sh, St> View for Commands<Sh, St> {
    type V = Seq<Deferred<Sh, St>>;

    /// The scheduled commands, oldest first.
    closed spec fn view(&self) -> Self::V {
        self.queue@
    }
}

impl<Sh: 'static, St: 'static> Commands<Sh, St> {
    /// An empty queue.
    pub fn new() -> (commands: Self)
        ensures
            commands@ == Seq::<Deferred<Sh, St>>::empty(),
    {
        Commands { queue: VecDeque::new() }
    }

    /// Schedules a boxed command behind all that are waiting.
    pub fn push(&mut self, command: Deferred<Sh, St>)
        ensures
            final(self)@ == scheduled(old(self)@, command),
    {
        self.queue.push_back(command);
    }

    /// Schedules a command behind all that are waiting.
    pub fn run<C: Command<Sh, St>>(&mut self, command: C)
        ensures
            exists|boxed: Deferred<Sh, St>|
                {
                    &&& #[trigger] Deferred::boxes(command, boxed)
                    &&& final(self)@ == scheduled(old(self)@, boxed)
                },
    {
        let boxed = Deferred::new(command);
        let ghost scheduled_command = boxed;
        self.push(boxed);
        assert(Deferred::boxes(command, scheduled_command));
    }

    /// Takes out all that is waiting, oldest first, and leaves the queue
    /// empty. What is scheduled afterwards waits for the next drain.
    pub fn drain(&mut self) -> (batch: VecDeque<Deferred<Sh, St>>)
        ensures
            batch@ == drained(old(self)@).0,
            final(self)@ == drained(old(self)@).1,
    {
        let mut batch = VecDeque::new();
        core::mem::swap(&mut batch, &mut self.queue);
        batch
    }

    /// Applies the commands of a drained batch one after the other, first to
    /// last.
    pub fn apply_all(batch: VecDeque<Deferred<Sh, St>>, sh: &mut Sh, states: &mut St)
        ensures
            applied_in_order(batch@, *old(sh), *old(states), *final(sh), *final(states)),
    {
        let mut i: usize = 0;
        while i < batch.len()
            invariant
                i <= batch@.len(),
                applied_in_order(batch@.take(i as int), *old(sh), *old(states), *sh, *states),
            decreases batch@.len() - i,
        {
            let ghost sh_mid = *sh;
            let ghost states_mid = *states;
            batch[i].command.apply(sh, states);
            proof {
                let done = batch@.take(i as int + 1);
                assert(done.drop_last() =~= batch@.take(i as int));
                assert(done.last() == batch@[i as int]);
                lemma_applied_step(
                    done,
                    *old(sh),
                    *old(states),
                    sh_mid,
                    states_mid,
                    *sh,
                    *states,
                );
            }
            i += 1;
        }
        proof {
            assert(batch@.take(i as int) =~= batch@);
        }
    }
}

} // verus!
