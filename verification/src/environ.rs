//! The arguments and environment variables that a guest program is started
//! with.

use vstd::prelude::*;

verus! {

/// What a guest sees as its `argv` and `environ`.
pub struct LindEnviron {
    args: Vec<String>,
    env: Vec<(String, String)>,
}

/// The variables that a guest is given. A variable asked for with a value
/// has that value; one asked for without has the host's value, and is left
/// out where the host has none. The order of asking is kept.
pub open spec fn spec_resolved(
    vars: Seq<(String, Option<String>)>,
    host: Seq<Option<String>>,
) -> Seq<(String, String)>
    recommends
        vars.len() == host.len(),
    decreases vars.len(),
{
    if vars.len() == 0 {
        Seq::empty()
    } else {
        let rest = spec_resolved(vars.drop_last(), host.drop_last());
        match (vars.last().1, host.last()) {
            (Some(v), _) => rest.push((vars.last().0, v)),
            (None, Some(v)) => rest.push((vars.last().0, v)),
            (None, None) => rest,
        }
    }
}

impl LindEnviron {
    /// The arguments, program name first.
    pub closed spec fn spec_args(&self) -> Seq<String> {
        self.args@
    }

    /// The environment, as (name, value) in the order given.
    pub closed spec fn spec_env(&self) -> Seq<(String, String)> {
        self.env@
    }

    /// Builds the guest's start-up data from the arguments and the
    /// variables asked for. `host[i]` is the host's value for `vars[i]`, if
    /// it has one; it is looked at only where `vars[i]` names no value.
    pub fn new(args: &[String], vars: &[(String, Option<String>)], host: &[Option<String>]) -> (made: Self)
        requires
            vars@.len() == host@.len(),
        ensures
            made.spec_args() == args@,
            made.spec_env() == spec_resolved(vars@, host@),
    {
        let mut own_args: Vec<String> = Vec::new();
        let mut i: usize = 0;
        while i < args.len()
            invariant
                i <= args@.len(),
                own_args@ == args@.take(i as int),
            decreases args@.len() - i,
        {
            own_args.push(args[i].clone());
            assert(args@.take(i + 1) =~= args@.take(i as int).push(args@[i as int]));
            i += 1;
        }
        assert(args@.take(args@.len() as int) =~= args@);
        let mut env: Vec<(String, String)> = Vec::new();
        let mut j: usize = 0;
        while j < vars.len()
            invariant
                j <= vars@.len(),
                vars@.len() == host@.len(),
                env@ == spec_resolved(vars@.take(j as int), host@.take(j as int)),
            decreases vars@.len() - j,
        {
            proof {
                assert(vars@.take(j + 1).drop_last() =~= vars@.take(j as int));
                assert(host@.take(j + 1).drop_last() =~= host@.take(j as int));
                assert(vars@.take(j + 1).last() == vars@[j as int]);
                assert(host@.take(j + 1).last() == host@[j as int]);
            }
            match &vars[j].1 {
                Some(v) => {
                    env.push((vars[j].0.clone(), v.clone()));
                },
                None => match &host[j] {
                    Some(v) => {
                        env.push((vars[j].0.clone(), v.clone()));
                    },
                    None => {},
                },
            }
            j += 1;
        }
        proof {
            assert(vars@.take(vars@.len() as int) =~= vars@);
            assert(host@.take(host@.len() as int) =~= host@);
        }
        LindEnviron { args: own_args, env }
    }

    /// A copy of the arguments and the environment for a forked unit.
    pub fn fork(&self) -> (forked: Self)
        ensures
            forked.spec_args() == self.spec_args(),
            forked.spec_env() == self.spec_env(),
    {
        let mut args: Vec<String> = Vec::new();
        let mut i: usize = 0;
        while i < self.args.len()
            invariant
                i <= self.args@.len(),
                args@ == self.args@.take(i as int),
            decreases self.args@.len() - i,
        {
            args.push(self.args[i].clone());
            assert(self.args@.take(i + 1) =~= self.args@.take(i as int).push(self.args@[i as int]));
            i += 1;
        }
        assert(self.args@.take(self.args@.len() as int) =~= self.args@);
        let mut env: Vec<(String, String)> = Vec::new();
        let mut j: usize = 0;
        while j < self.env.len()
            invariant
                j <= self.env@.len(),
                env@ == self.env@.take(j as int),
            decreases self.env@.len() - j,
        {
            env.push((self.env[j].0.clone(), self.env[j].1.clone()));
            assert(self.env@.take(j + 1) =~= self.env@.take(j as int).push(self.env@[j as int]));
            j += 1;
        }
        assert(self.env@.take(self.env@.len() as int) =~= self.env@);
        LindEnviron { args, env }
    }

    /// The arguments, program name first.
    pub fn args(&self) -> (args: &Vec<String>)
        ensures
            args@ == self.spec_args(),
    {
        &self.args
    }

    /// The environment, as (name, value) in the order given.
    pub fn env(&self) -> (env: &Vec<(String, String)>)
        ensures
            env@ == self.spec_env(),
    {
        &self.env
    }
}

} // verus!
