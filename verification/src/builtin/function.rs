//! Plain functions as built-in commands.
//!
//! A function that takes up to four typed parameters, then the shell and the
//! argument list, becomes a [`Builtin`]: on each run every typed parameter is
//! extracted from the state store, in the order in which the function
//! declares them, and the function's result is handed back as it is. The
//! adapter adds no failure of its own and keeps nothing from one run to the
//! next.
//!
//! Two parameters that ask for exclusive access to the same state conflict.
//! The adapter does not look for that: it is for the caller to avoid.

use vstd::prelude::*;
use crate::builtin::{Builtin, IntoBuiltin};
use crate::output::CmdOutput;
use crate::state::Param;

verus! {

/// A function of one of the shapes that can be lifted. `Input` is the tuple
/// of its typed parameters.
pub trait PlainFn<Sh, St, Input> {
    /// Whether the function can be called on every input of its type.
    spec fn total(&self) -> bool;
}

/// A plain function lifted to a [`Builtin`].
pub struct FunctionBuiltin<Sh, St, Input, F: PlainFn<Sh, St, Input>> {
    f: F,
    marker: core::marker::PhantomData<(Sh, St, Input)>,
}

impl<Sh, St, Input, F: PlainFn<Sh, St, Input>> FunctionBuiltin<Sh, St, Input, F> {
    /// The wrapped function accepts whatever a run hands it.
    #[verifier::type_invariant]
    spec fn well_formed(self) -> bool {
        self.f.total()
    }

    /// The wrapped function.
    pub closed spec fn function(self) -> F {
        self.f
    }
}

/// A function of no typed parameters, the shell and the arguments.
impl<Sh, St, F> PlainFn<Sh, St, ()> for F where
    F: Fn(&Sh, &Vec<String>) -> anyhow::Result<CmdOutput>,
{
    open spec fn total(&self) -> bool {
        forall|sh: &Sh, args: &Vec<String>| call_requires(*self, (sh, args))
    }
}

impl<Sh, St, F> FunctionBuiltin<Sh, St, (), F> where
    F: Fn(&Sh, &Vec<String>) -> anyhow::Result<CmdOutput>,
{
    /// Lifts a function that can be called on every input.
    pub fn new(f: F) -> (builtin: Self)
        requires
            forall|sh: &Sh, args: &Vec<String>| call_requires(f, (sh, args)),
        ensures
            builtin.function() == f,
    {
        FunctionBuiltin { f, marker: core::marker::PhantomData }
    }

    /// A function that can be called on every input can be lifted.
    pub proof fn lemma_liftable(f: F)
        requires
            forall|sh: &Sh, args: &Vec<String>| call_requires(f, (sh, args)),
        ensures
            IntoBuiltin::<Sh, St, ()>::liftable(&f),
    {
    }

    /// What lifting the function gives: a run gives what the function
    /// gives on the shell and the arguments.
    pub proof fn lemma_lifted_runs(
        f: F,
        sh: &Sh,
        states: &St,
        args: &Vec<String>,
        out: anyhow::Result<CmdOutput>,
    )
        ensures
            IntoBuiltin::<Sh, St, ()>::lifted_runs(&f, sh, states, args, out)
                == call_ensures(f, (sh, args), out),
    {
    }

    /// What a run gives: what the wrapped function gives.
    pub proof fn lemma_runs(
        self,
        sh: &Sh,
        states: &St,
        args: &Vec<String>,
        out: anyhow::Result<CmdOutput>,
    )
        ensures
            self.runs(sh, states, args, out) == call_ensures(self.function(), (sh, args), out),
    {
    }
}

impl<Sh, St, F> IntoBuiltin<Sh, St, ()> for F where
    F: Fn(&Sh, &Vec<String>) -> anyhow::Result<CmdOutput>,
{
    type Builtin = FunctionBuiltin<Sh, St, (), F>;

    open spec fn liftable(&self) -> bool {
        PlainFn::<Sh, St, ()>::total(self)
    }

    open spec fn lifted_runs(
        &self,
        sh: &Sh,
        states: &St,
        args: &Vec<String>,
        out: anyhow::Result<CmdOutput>,
    ) -> bool {
        call_ensures(*self, (sh, args), out)
    }

    fn into_builtin(self) -> (builtin: FunctionBuiltin<Sh, St, (), F>)
        ensures
            FunctionBuiltin::<Sh, St, (), F>::function(builtin) == self,
    {
        FunctionBuiltin::<Sh, St, (), F>::new(self)
    }
}

impl<Sh, St, F> Builtin<Sh, St> for FunctionBuiltin<Sh, St, (), F> where
    F: Fn(&Sh, &Vec<String>) -> anyhow::Result<CmdOutput>,
{
    open spec fn runs(
        &self,
        sh: &Sh,
        states: &St,
        args: &Vec<String>,
        out: anyhow::Result<CmdOutput>,
    ) -> bool {
        call_ensures(self.function(), (sh, args), out)
    }

    /// The result is one that the function gives on this shell and these
    /// arguments.
    fn run(&self, sh: &Sh, states: &St, args: &Vec<String>) -> (out: anyhow::Result<CmdOutput>)
        ensures
            call_ensures(self.function(), (sh, args), out),
    {
        proof {
            use_type_invariant(self);
        }
        (self.f)(sh, args)
    }
}

/// A function of one typed parameter, the shell and the arguments.
impl<Sh, St, F, T1: Param<St>> PlainFn<Sh, St, (T1,)> for F where
    F: Fn(T1, &Sh, &Vec<String>) -> anyhow::Result<CmdOutput>,
    F: for<'a> Fn(T1::Item<'a>, &Sh, &Vec<String>) -> anyhow::Result<CmdOutput>,
{
    open spec fn total(&self) -> bool {
        forall|t1: T1::Item<'_>, sh: &Sh, args: &Vec<String>| call_requires(*self, (t1, sh, args))
    }
}

impl<Sh, St, F, T1: Param<St>> FunctionBuiltin<Sh, St, (T1,), F> where
    F: Fn(T1, &Sh, &Vec<String>) -> anyhow::Result<CmdOutput>,
    F: for<'a> Fn(T1::Item<'a>, &Sh, &Vec<String>) -> anyhow::Result<CmdOutput>,
{
    /// Lifts a function that can be called on every input.
    pub fn new(f: F) -> (builtin: Self)
        requires
            forall|t1: T1::Item<'_>, sh: &Sh, args: &Vec<String>| call_requires(f, (t1, sh, args)),
        ensures
            builtin.function() == f,
    {
        FunctionBuiltin { f, marker: core::marker::PhantomData }
    }

    /// A function that can be called on every input can be lifted.
    pub proof fn lemma_liftable(f: F)
        requires
            forall|t1: T1::Item<'_>, sh: &Sh, args: &Vec<String>| call_requires(f, (t1, sh, args)),
        ensures
            IntoBuiltin::<Sh, St, (T1,)>::liftable(&f),
    {
    }

    /// What lifting the function gives: a run gives what the function
    /// gives on views that its parameters extract from the store, the shell
    /// and the arguments.
    pub proof fn lemma_lifted_runs(
        f: F,
        sh: &Sh,
        states: &St,
        args: &Vec<String>,
        out: anyhow::Result<CmdOutput>,
    )
        ensures
            IntoBuiltin::<Sh, St, (T1,)>::lifted_runs(&f, sh, states, args, out)
                == (exists|t1: T1::Item<'_>|
                {
                    &&& call_ensures(T1::retrieve, (states,), t1)
                    &&& #[trigger] call_ensures(f, (t1, sh, args), out)
                }),
    {
    }

    /// What a run gives: what the wrapped function gives.
    pub proof fn lemma_runs(
        self,
        sh: &Sh,
        states: &St,
        args: &Vec<String>,
        out: anyhow::Result<CmdOutput>,
    )
        ensures
            self.runs(sh, states, args, out)
                == (exists|t1: T1::Item<'_>|
                {
                    &&& call_ensures(T1::retrieve, (states,), t1)
                    &&& #[trigger] call_ensures(self.function(), (t1, sh, args), out)
                }),
    {
    }
}

impl<Sh, St, F, T1: Param<St>> IntoBuiltin<Sh, St, (T1,)> for F where
    F: Fn(T1, &Sh, &Vec<String>) -> anyhow::Result<CmdOutput>,
    F: for<'a> Fn(T1::Item<'a>, &Sh, &Vec<String>) -> anyhow::Result<CmdOutput>,
{
    type Builtin = FunctionBuiltin<Sh, St, (T1,), F>;

    open spec fn liftable(&self) -> bool {
        PlainFn::<Sh, St, (T1,)>::total(self)
    }

    open spec fn lifted_runs(
        &self,
        sh: &Sh,
        states: &St,
        args: &Vec<String>,
        out: anyhow::Result<CmdOutput>,
    ) -> bool {
        (exists|t1: T1::Item<'_>|
        {
            &&& call_ensures(T1::retrieve, (states,), t1)
            &&& #[trigger] call_ensures(*self, (t1, sh, args), out)
        })
    }

    fn into_builtin(self) -> (builtin: FunctionBuiltin<Sh, St, (T1,), F>)
        ensures
            FunctionBuiltin::<Sh, St, (T1,), F>::function(builtin) == self,
    {
        FunctionBuiltin::<Sh, St, (T1,), F>::new(self)
    }
}

impl<Sh, St, F, T1: Param<St>> Builtin<Sh, St> for FunctionBuiltin<Sh, St, (T1,), F> where
    F: Fn(T1, &Sh, &Vec<String>) -> anyhow::Result<CmdOutput>,
    F: for<'a> Fn(T1::Item<'a>, &Sh, &Vec<String>) -> anyhow::Result<CmdOutput>,
{
    open spec fn runs(
        &self,
        sh: &Sh,
        states: &St,
        args: &Vec<String>,
        out: anyhow::Result<CmdOutput>,
    ) -> bool {
        (exists|t1: T1::Item<'_>|
        {
            &&& call_ensures(T1::retrieve, (states,), t1)
            &&& #[trigger] call_ensures(self.function(), (t1, sh, args), out)
        })
    }

    /// The view is one that the parameter extracts from this store, and
    /// the result is one that the function gives on it, this shell and these
    /// arguments.
    fn run(&self, sh: &Sh, states: &St, args: &Vec<String>) -> (out: anyhow::Result<CmdOutput>)
        ensures
            exists|t1: T1::Item<'_>|
                {
                    &&& call_ensures(T1::retrieve, (states,), t1)
                    &&& #[trigger] call_ensures(self.function(), (t1, sh, args), out)
                },
    {
        proof {
            use_type_invariant(self);
        }
        let t1 = T1::retrieve(states);
        let ghost g1 = t1;
        let out = (self.f)(t1, sh, args);
        assert(call_ensures(self.function(), (g1, sh, args), out));
        out
    }
}

/// A function of two typed parameters, the shell and the arguments.
impl<Sh, St, F, T1: Param<St>, T2: Param<St>> PlainFn<Sh, St, (T1, T2)> for F where
    F: Fn(T1, T2, &Sh, &Vec<String>) -> anyhow::Result<CmdOutput>,
    F: for<'a> Fn(T1::Item<'a>, T2::Item<'a>, &Sh, &Vec<String>) -> anyhow::Result<CmdOutput>,
{
    open spec fn total(&self) -> bool {
        forall|t1: T1::Item<'_>, t2: T2::Item<'_>, sh: &Sh, args: &Vec<String>|
            call_requires(*self, (t1, t2, sh, args))
    }
}

impl<Sh, St, F, T1: Param<St>, T2: Param<St>> FunctionBuiltin<Sh, St, (T1, T2), F> where
    F: Fn(T1, T2, &Sh, &Vec<String>) -> anyhow::Result<CmdOutput>,
    F: for<'a> Fn(T1::Item<'a>, T2::Item<'a>, &Sh, &Vec<String>) -> anyhow::Result<CmdOutput>,
{
    /// Lifts a function that can be called on every input.
    pub fn new(f: F) -> (builtin: Self)
        requires
            forall|t1: T1::Item<'_>, t2: T2::Item<'_>, sh: &Sh, args: &Vec<String>|
                call_requires(f, (t1, t2, sh, args)),
        ensures
            builtin.function() == f,
    {
        FunctionBuiltin { f, marker: core::marker::PhantomData }
    }

    /// A function that can be called on every input can be lifted.
    pub proof fn lemma_liftable(f: F)
        requires
            forall|t1: T1::Item<'_>, t2: T2::Item<'_>, sh: &Sh, args: &Vec<String>|
                call_requires(f, (t1, t2, sh, args)),
        ensures
            IntoBuiltin::<Sh, St, (T1, T2)>::liftable(&f),
    {
    }

    /// What lifting the function gives: a run gives what the function
    /// gives on views that its parameters extract from the store, the shell
    /// and the arguments.
    pub proof fn lemma_lifted_runs(
        f: F,
        sh: &Sh,
        states: &St,
        args: &Vec<String>,
        out: anyhow::Result<CmdOutput>,
    )
        ensures
            IntoBuiltin::<Sh, St, (T1, T2)>::lifted_runs(&f, sh, states, args, out)
                == (exists|t1: T1::Item<'_>, t2: T2::Item<'_>|
                {
                    &&& call_ensures(T1::retrieve, (states,), t1)
                    &&& call_ensures(T2::retrieve, (states,), t2)
                    &&& #[trigger] call_ensures(f, (t1, t2, sh, args), out)
                }),
    {
    }

    /// What a run gives: what the wrapped function gives.
    pub proof fn lemma_runs(
        self,
        sh: &Sh,
        states: &St,
        args: &Vec<String>,
        out: anyhow::Result<CmdOutput>,
    )
        ensures
            self.runs(sh, states, args, out)
                == (exists|t1: T1::Item<'_>, t2: T2::Item<'_>|
                {
                    &&& call_ensures(T1::retrieve, (states,), t1)
                    &&& call_ensures(T2::retrieve, (states,), t2)
                    &&& #[trigger] call_ensures(self.function(), (t1, t2, sh, args), out)
                }),
    {
    }
}

impl<Sh, St, F, T1: Param<St>, T2: Param<St>> IntoBuiltin<Sh, St, (T1, T2)> for F where
    F: Fn(T1, T2, &Sh, &Vec<String>) -> anyhow::Result<CmdOutput>,
    F: for<'a> Fn(T1::Item<'a>, T2::Item<'a>, &Sh, &Vec<String>) -> anyhow::Result<CmdOutput>,
{
    type Builtin = FunctionBuiltin<Sh, St, (T1, T2), F>;

    open spec fn liftable(&self) -> bool {
        PlainFn::<Sh, St, (T1, T2)>::total(self)
    }

    open spec fn lifted_runs(
        &self,
        sh: &Sh,
        states: &St,
        args: &Vec<String>,
        out: anyhow::Result<CmdOutput>,
    ) -> bool {
        (exists|t1: T1::Item<'_>, t2: T2::Item<'_>|
        {
            &&& call_ensures(T1::retrieve, (states,), t1)
            &&& call_ensures(T2::retrieve, (states,), t2)
            &&& #[trigger] call_ensures(*self, (t1, t2, sh, args), out)
        })
    }

    fn into_builtin(self) -> (builtin: FunctionBuiltin<Sh, St, (T1, T2), F>)
        ensures
            FunctionBuiltin::<Sh, St, (T1, T2), F>::function(builtin) == self,
    {
        FunctionBuiltin::<Sh, St, (T1, T2), F>::new(self)
    }
}

impl<Sh, St, F, T1: Param<St>, T2: Param<St>> Builtin<Sh, St>
    for FunctionBuiltin<Sh, St, (T1, T2), F>
where
    F: Fn(T1, T2, &Sh, &Vec<String>) -> anyhow::Result<CmdOutput>,
    F: for<'a> Fn(T1::Item<'a>, T2::Item<'a>, &Sh, &Vec<String>) -> anyhow::Result<CmdOutput>,
{
    open spec fn runs(
        &self,
        sh: &Sh,
        states: &St,
        args: &Vec<String>,
        out: anyhow::Result<CmdOutput>,
    ) -> bool {
        (exists|t1: T1::Item<'_>, t2: T2::Item<'_>|
        {
            &&& call_ensures(T1::retrieve, (states,), t1)
            &&& call_ensures(T2::retrieve, (states,), t2)
            &&& #[trigger] call_ensures(self.function(), (t1, t2, sh, args), out)
        })
    }

    /// Each view is one that its parameter extracts from this store, and
    /// the result is one that the function gives on them, this shell and these
    /// arguments.
    fn run(&self, sh: &Sh, states: &St, args: &Vec<String>) -> (out: anyhow::Result<CmdOutput>)
        ensures
            exists|t1: T1::Item<'_>, t2: T2::Item<'_>|
                {
                    &&& call_ensures(T1::retrieve, (states,), t1)
                    &&& call_ensures(T2::retrieve, (states,), t2)
                    &&& #[trigger] call_ensures(self.function(), (t1, t2, sh, args), out)
                },
    {
        proof {
            use_type_invariant(self);
        }
        let t1 = T1::retrieve(states);
        let t2 = T2::retrieve(states);
        let ghost g1 = t1;
        let ghost g2 = t2;
        let out = (self.f)(t1, t2, sh, args);
        assert(call_ensures(self.function(), (g1, g2, sh, args), out));
        out
    }
}

/// A function of three typed parameters, the shell and the arguments.
impl<Sh, St, F, T1: Param<St>, T2: Param<St>, T3: Param<St>> PlainFn<Sh, St, (T1, T2, T3)> for F
where
    F: Fn(T1, T2, T3, &Sh, &Vec<String>) -> anyhow::Result<CmdOutput>,
    F: for<'a> Fn(
        T1::Item<'a>,
        T2::Item<'a>,
        T3::Item<'a>,
        &Sh,
        &Vec<String>,
    ) -> anyhow::Result<CmdOutput>,
{
    open spec fn total(&self) -> bool {
        forall|t1: T1::Item<'_>, t2: T2::Item<'_>, t3: T3::Item<'_>, sh: &Sh, args: &Vec<String>|
            call_requires(*self, (t1, t2, t3, sh, args))
    }
}

impl<Sh, St, F, T1: Param<St>, T2: Param<St>, T3: Param<St>>
    FunctionBuiltin<Sh, St, (T1, T2, T3), F>
where
    F: Fn(T1, T2, T3, &Sh, &Vec<String>) -> anyhow::Result<CmdOutput>,
    F: for<'a> Fn(
        T1::Item<'a>,
        T2::Item<'a>,
        T3::Item<'a>,
        &Sh,
        &Vec<String>,
    ) -> anyhow::Result<CmdOutput>,
{
    /// Lifts a function that can be called on every input.
    pub fn new(f: F) -> (builtin: Self)
        requires
            forall|
                t1: T1::Item<'_>,
                t2: T2::Item<'_>,
                t3: T3::Item<'_>,
                sh: &Sh,
                args: &Vec<String>,
            |
                call_requires(f, (t1, t2, t3, sh, args)),
        ensures
            builtin.function() == f,
    {
        FunctionBuiltin { f, marker: core::marker::PhantomData }
    }

    /// A function that can be called on every input can be lifted.
    pub proof fn lemma_liftable(f: F)
        requires
            forall|
                t1: T1::Item<'_>,
                t2: T2::Item<'_>,
                t3: T3::Item<'_>,
                sh: &Sh,
                args: &Vec<String>,
            |
                call_requires(f, (t1, t2, t3, sh, args)),
        ensures
            IntoBuiltin::<Sh, St, (T1, T2, T3)>::liftable(&f),
    {
    }

    /// What lifting the function gives: a run gives what the function
    /// gives on views that its parameters extract from the store, the shell
    /// and the arguments.
    pub proof fn lemma_lifted_runs(
        f: F,
        sh: &Sh,
        states: &St,
        args: &Vec<String>,
        out: anyhow::Result<CmdOutput>,
    )
        ensures
            IntoBuiltin::<Sh, St, (T1, T2, T3)>::lifted_runs(&f, sh, states, args, out)
                == (exists|t1: T1::Item<'_>, t2: T2::Item<'_>, t3: T3::Item<'_>|
                {
                    &&& call_ensures(T1::retrieve, (states,), t1)
                    &&& call_ensures(T2::retrieve, (states,), t2)
                    &&& call_ensures(T3::retrieve, (states,), t3)
                    &&& #[trigger] call_ensures(f, (t1, t2, t3, sh, args), out)
                }),
    {
    }

    /// What a run gives: what the wrapped function gives.
    pub proof fn lemma_runs(
        self,
        sh: &Sh,
        states: &St,
        args: &Vec<String>,
        out: anyhow::Result<CmdOutput>,
    )
        ensures
            self.runs(sh, states, args, out)
                == (exists|t1: T1::Item<'_>, t2: T2::Item<'_>, t3: T3::Item<'_>|
                {
                    &&& call_ensures(T1::retrieve, (states,), t1)
                    &&& call_ensures(T2::retrieve, (states,), t2)
                    &&& call_ensures(T3::retrieve, (states,), t3)
                    &&& #[trigger] call_ensures(self.function(), (t1, t2, t3, sh, args), out)
                }),
    {
    }
}

impl<Sh, St, F, T1: Param<St>, T2: Param<St>, T3: Param<St>> IntoBuiltin<Sh, St, (T1, T2, T3)> for F
where
    F: Fn(T1, T2, T3, &Sh, &Vec<String>) -> anyhow::Result<CmdOutput>,
    F: for<'a> Fn(
        T1::Item<'a>,
        T2::Item<'a>,
        T3::Item<'a>,
        &Sh,
        &Vec<String>,
    ) -> anyhow::Result<CmdOutput>,
{
    type Builtin = FunctionBuiltin<Sh, St, (T1, T2, T3), F>;

    open spec fn liftable(&self) -> bool {
        PlainFn::<Sh, St, (T1, T2, T3)>::total(self)
    }

    open spec fn lifted_runs(
        &self,
        sh: &Sh,
        states: &St,
        args: &Vec<String>,
        out: anyhow::Result<CmdOutput>,
    ) -> bool {
        (exists|t1: T1::Item<'_>, t2: T2::Item<'_>, t3: T3::Item<'_>|
        {
            &&& call_ensures(T1::retrieve, (states,), t1)
            &&& call_ensures(T2::retrieve, (states,), t2)
            &&& call_ensures(T3::retrieve, (states,), t3)
            &&& #[trigger] call_ensures(*self, (t1, t2, t3, sh, args), out)
        })
    }

    fn into_builtin(self) -> (builtin: FunctionBuiltin<Sh, St, (T1, T2, T3), F>)
        ensures
            FunctionBuiltin::<Sh, St, (T1, T2, T3), F>::function(builtin) == self,
    {
        FunctionBuiltin::<Sh, St, (T1, T2, T3), F>::new(self)
    }
}

impl<Sh, St, F, T1: Param<St>, T2: Param<St>, T3: Param<St>> Builtin<Sh, St>
    for FunctionBuiltin<Sh, St, (T1, T2, T3), F>
where
    F: Fn(T1, T2, T3, &Sh, &Vec<String>) -> anyhow::Result<CmdOutput>,
    F: for<'a> Fn(
        T1::Item<'a>,
        T2::Item<'a>,
        T3::Item<'a>,
        &Sh,
        &Vec<String>,
    ) -> anyhow::Result<CmdOutput>,
{
    open spec fn runs(
        &self,
        sh: &Sh,
        states: &St,
        args: &Vec<String>,
        out: anyhow::Result<CmdOutput>,
    ) -> bool {
        (exists|t1: T1::Item<'_>, t2: T2::Item<'_>, t3: T3::Item<'_>|
        {
            &&& call_ensures(T1::retrieve, (states,), t1)
            &&& call_ensures(T2::retrieve, (states,), t2)
            &&& call_ensures(T3::retrieve, (states,), t3)
            &&& #[trigger] call_ensures(self.function(), (t1, t2, t3, sh, args), out)
        })
    }

    /// Each view is one that its parameter extracts from this store, and
    /// the result is one that the function gives on them, this shell and these
    /// arguments.
    fn run(&self, sh: &Sh, states: &St, args: &Vec<String>) -> (out: anyhow::Result<CmdOutput>)
        ensures
            exists|t1: T1::Item<'_>, t2: T2::Item<'_>, t3: T3::Item<'_>|
                {
                    &&& call_ensures(T1::retrieve, (states,), t1)
                    &&& call_ensures(T2::retrieve, (states,), t2)
                    &&& call_ensures(T3::retrieve, (states,), t3)
                    &&& #[trigger] call_ensures(self.function(), (t1, t2, t3, sh, args), out)
                },
    {
        proof {
            use_type_invariant(self);
        }
        let t1 = T1::retrieve(states);
        let t2 = T2::retrieve(states);
        let t3 = T3::retrieve(states);
        let ghost g1 = t1;
        let ghost g2 = t2;
        let ghost g3 = t3;
        let out = (self.f)(t1, t2, t3, sh, args);
        assert(call_ensures(self.function(), (g1, g2, g3, sh, args), out));
        out
    }
}

/// A function of four typed parameters, the shell and the arguments.
impl<Sh, St, F, T1: Param<St>, T2: Param<St>, T3: Param<St>, T4: Param<St>>
    PlainFn<Sh, St, (T1, T2, T3, T4)> for F
where
    F: Fn(T1, T2, T3, T4, &Sh, &Vec<String>) -> anyhow::Result<CmdOutput>,
    F: for<'a> Fn(
        T1::Item<'a>,
        T2::Item<'a>,
        T3::Item<'a>,
        T4::Item<'a>,
        &Sh,
        &Vec<String>,
    ) -> anyhow::Result<CmdOutput>,
{
    open spec fn total(&self) -> bool {
        forall|
            t1: T1::Item<'_>,
            t2: T2::Item<'_>,
            t3: T3::Item<'_>,
            t4: T4::Item<'_>,
            sh: &Sh,
            args: &Vec<String>,
        |
            call_requires(*self, (t1, t2, t3, t4, sh, args))
    }
}

impl<Sh, St, F, T1: Param<St>, T2: Param<St>, T3: Param<St>, T4: Param<St>>
    FunctionBuiltin<Sh, St, (T1, T2, T3, T4), F>
where
    F: Fn(T1, T2, T3, T4, &Sh, &Vec<String>) -> anyhow::Result<CmdOutput>,
    F: for<'a> Fn(
        T1::Item<'a>,
        T2::Item<'a>,
        T3::Item<'a>,
        T4::Item<'a>,
        &Sh,
        &Vec<String>,
    ) -> anyhow::Result<CmdOutput>,
{
    /// Lifts a function that can be called on every input.
    pub fn new(f: F) -> (builtin: Self)
        requires
            forall|
                t1: T1::Item<'_>,
                t2: T2::Item<'_>,
                t3: T3::Item<'_>,
                t4: T4::Item<'_>,
                sh: &Sh,
                args: &Vec<String>,
            |
                call_requires(f, (t1, t2, t3, t4, sh, args)),
        ensures
            builtin.function() == f,
    {
        FunctionBuiltin { f, marker: core::marker::PhantomData }
    }

    /// A function that can be called on every input can be lifted.
    pub proof fn lemma_liftable(f: F)
        requires
            forall|
                t1: T1::Item<'_>,
                t2: T2::Item<'_>,
                t3: T3::Item<'_>,
                t4: T4::Item<'_>,
                sh: &Sh,
                args: &Vec<String>,
            |
                call_requires(f, (t1, t2, t3, t4, sh, args)),
        ensures
            IntoBuiltin::<Sh, St, (T1, T2, T3, T4)>::liftable(&f),
    {
    }

    /// What lifting the function gives: a run gives what the function
    /// gives on views that its parameters extract from the store, the shell
    /// and the arguments.
    pub proof fn lemma_lifted_runs(
        f: F,
        sh: &Sh,
        states: &St,
        args: &Vec<String>,
        out: anyhow::Result<CmdOutput>,
    )
        ensures
            IntoBuiltin::<Sh, St, (T1, T2, T3, T4)>::lifted_runs(&f, sh, states, args, out)
                == (exists|t1: T1::Item<'_>, t2: T2::Item<'_>, t3: T3::Item<'_>, t4: T4::Item<'_>|
                {
                    &&& call_ensures(T1::retrieve, (states,), t1)
                    &&& call_ensures(T2::retrieve, (states,), t2)
                    &&& call_ensures(T3::retrieve, (states,), t3)
                    &&& call_ensures(T4::retrieve, (states,), t4)
                    &&& #[trigger] call_ensures(f, (t1, t2, t3, t4, sh, args), out)
                }),
    {
    }

    /// What a run gives: what the wrapped function gives.
    pub proof fn lemma_runs(
        self,
        sh: &Sh,
        states: &St,
        args: &Vec<String>,
        out: anyhow::Result<CmdOutput>,
    )
        ensures
            self.runs(sh, states, args, out)
                == (exists|t1: T1::Item<'_>, t2: T2::Item<'_>, t3: T3::Item<'_>, t4: T4::Item<'_>|
                {
                    &&& call_ensures(T1::retrieve, (states,), t1)
                    &&& call_ensures(T2::retrieve, (states,), t2)
                    &&& call_ensures(T3::retrieve, (states,), t3)
                    &&& call_ensures(T4::retrieve, (states,), t4)
                    &&& #[trigger] call_ensures(self.function(), (t1, t2, t3, t4, sh, args), out)
                }),
    {
    }
}

impl<Sh, St, F, T1: Param<St>, T2: Param<St>, T3: Param<St>, T4: Param<St>>
    IntoBuiltin<Sh, St, (T1, T2, T3, T4)> for F
where
    F: Fn(T1, T2, T3, T4, &Sh, &Vec<String>) -> anyhow::Result<CmdOutput>,
    F: for<'a> Fn(
        T1::Item<'a>,
        T2::Item<'a>,
        T3::Item<'a>,
        T4::Item<'a>,
        &Sh,
        &Vec<String>,
    ) -> anyhow::Result<CmdOutput>,
{
    type Builtin = FunctionBuiltin<Sh, St, (T1, T2, T3, T4), F>;

    open spec fn liftable(&self) -> bool {
        PlainFn::<Sh, St, (T1, T2, T3, T4)>::total(self)
    }

    open spec fn lifted_runs(
        &self,
        sh: &Sh,
        states: &St,
        args: &Vec<String>,
        out: anyhow::Result<CmdOutput>,
    ) -> bool {
        (exists|t1: T1::Item<'_>, t2: T2::Item<'_>, t3: T3::Item<'_>, t4: T4::Item<'_>|
        {
            &&& call_ensures(T1::retrieve, (states,), t1)
            &&& call_ensures(T2::retrieve, (states,), t2)
            &&& call_ensures(T3::retrieve, (states,), t3)
            &&& call_ensures(T4::retrieve, (states,), t4)
            &&& #[trigger] call_ensures(*self, (t1, t2, t3, t4, sh, args), out)
        })
    }

    fn into_builtin(self) -> (builtin: FunctionBuiltin<Sh, St, (T1, T2, T3, T4), F>)
        ensures
            FunctionBuiltin::<Sh, St, (T1, T2, T3, T4), F>::function(builtin) == self,
    {
        FunctionBuiltin::<Sh, St, (T1, T2, T3, T4), F>::new(self)
    }
}

impl<Sh, St, F, T1: Param<St>, T2: Param<St>, T3: Param<St>, T4: Param<St>> Builtin<Sh, St>
    for FunctionBuiltin<Sh, St, (T1, T2, T3, T4), F>
where
    F: Fn(T1, T2, T3, T4, &Sh, &Vec<String>) -> anyhow::Result<CmdOutput>,
    F: for<'a> Fn(
        T1::Item<'a>,
        T2::Item<'a>,
        T3::Item<'a>,
        T4::Item<'a>,
        &Sh,
        &Vec<String>,
    ) -> anyhow::Result<CmdOutput>,
{
    open spec fn runs(
        &self,
        sh: &Sh,
        states: &St,
        args: &Vec<String>,
        out: anyhow::Result<CmdOutput>,
    ) -> bool {
        (exists|t1: T1::Item<'_>, t2: T2::Item<'_>, t3: T3::Item<'_>, t4: T4::Item<'_>|
        {
            &&& call_ensures(T1::retrieve, (states,), t1)
            &&& call_ensures(T2::retrieve, (states,), t2)
            &&& call_ensures(T3::retrieve, (states,), t3)
            &&& call_ensures(T4::retrieve, (states,), t4)
            &&& #[trigger] call_ensures(self.function(), (t1, t2, t3, t4, sh, args), out)
        })
    }

    /// Each view is one that its parameter extracts from this store, and
    /// the result is one that the function gives on them, this shell and these
    /// arguments.
    fn run(&self, sh: &Sh, states: &St, args: &Vec<String>) -> (out: anyhow::Result<CmdOutput>)
        ensures
            exists|t1: T1::Item<'_>, t2: T2::Item<'_>, t3: T3::Item<'_>, t4: T4::Item<'_>|
                {
                    &&& call_ensures(T1::retrieve, (states,), t1)
                    &&& call_ensures(T2::retrieve, (states,), t2)
                    &&& call_ensures(T3::retrieve, (states,), t3)
                    &&& call_ensures(T4::retrieve, (states,), t4)
                    &&& #[trigger] call_ensures(self.function(), (t1, t2, t3, t4, sh, args), out)
                },
    {
        proof {
            use_type_invariant(self);
        }
        let t1 = T1::retrieve(states);
        let t2 = T2::retrieve(states);
        let t3 = T3::retrieve(states);
        let t4 = T4::retrieve(states);
        let ghost g1 = t1;
        let ghost g2 = t2;
        let ghost g3 = t3;
        let ghost g4 = t4;
        let out = (self.f)(t1, t2, t3, t4, sh, args);
        assert(call_ensures(self.function(), (g1, g2, g3, g4, sh, args), out));
        out
    }
}

} // verus!
