//! The environment: an ordered mapping from variable name to integer value.
//!
//! Lookup returns the value of the first binding with the given name, or
//! nothing when the name is unbound.  Update is copy-on-write: it returns a
//! new environment in which every binding for the name is replaced, and
//! leaves an environment without such a binding unchanged (no insertion).

use vstd::prelude::*;

verus! {

/// An environment: ordered (name, value) pairs.
#[derive(Debug, PartialEq)]
pub struct State(pub Vec<(String, i32)>);

impl View for State {
    type V = Seq<(Seq<char>, i32)>;

    open spec fn view(&self) -> Seq<(Seq<char>, i32)> {
        self.0.deep_view()
    }
}

impl DeepView for State {
    type V = Seq<(Seq<char>, i32)>;

    open spec fn deep_view(&self) -> Seq<(Seq<char>, i32)> {
        self.0.deep_view()
    }
}

/// Value of the first binding for `x` at or after position `i`.
pub open spec fn state_lookup_from(env: Seq<(Seq<char>, i32)>, x: Seq<char>, i: int) -> Option<
    i32,
>
    decreases env.len() - i,
{
    if i < 0 || i >= env.len() {
        None
    } else if env[i].0 == x {
        Some(env[i].1)
    } else {
        state_lookup_from(env, x, i + 1)
    }
}

/// Value bound to `x`, or `None` when `x` is unbound.
pub open spec fn state_lookup(env: Seq<(Seq<char>, i32)>, x: Seq<char>) -> Option<i32> {
    state_lookup_from(env, x, 0)
}

/// The environment with every binding for `x` replaced by `v`; bindings for
/// other names are untouched, and an absent name inserts nothing.
pub open spec fn state_subst(env: Seq<(Seq<char>, i32)>, x: Seq<char>, v: i32) -> Seq<
    (Seq<char>, i32),
> {
    env.map(|i: int, p: (Seq<char>, i32)| if p.0 == x { (p.0, v) } else { p })
}

/// The initial environment of a program: every declared name bound to zero,
/// in declaration order.
pub open spec fn initial_env(xs: Seq<Seq<char>>) -> Seq<(Seq<char>, i32)> {
    xs.map(|i: int, x: Seq<char>| (x, 0i32))
}

/// An unbound name means no position holds it.
proof fn lemma_lookup_from_none(env: Seq<(Seq<char>, i32)>, x: Seq<char>, i: int)
    requires
        0 <= i,
        state_lookup_from(env, x, i) is None,
    ensures
        forall|j: int| i <= j < env.len() ==> (#[trigger] env[j]).0 != x,
    decreases env.len() - i,
{
    if i < env.len() {
        lemma_lookup_from_none(env, x, i + 1);
    }
}

/// Updating an absent name leaves the environment unchanged.
pub proof fn lemma_substitute_absent(env: Seq<(Seq<char>, i32)>, x: Seq<char>, v: i32)
    requires
        state_lookup(env, x) is None,
    ensures
        state_subst(env, x, v) == env,
{
    lemma_lookup_from_none(env, x, 0);
    assert(state_subst(env, x, v) =~= env);
}

impl State {
    /// Returns the value bound to `s`, or `None` when `s` is unbound.
    pub fn lookup(&self, s: &String) -> (r: Option<i32>)
        ensures
            r == state_lookup(self@, s@),
    {
        let n = self.0.len();
        let mut i: usize = 0;
        while i < n
            invariant
                n == self.0.len(),
                0 <= i <= n,
                state_lookup_from(self@, s@, 0) == state_lookup_from(self@, s@, i as int),
            decreases n - i,
        {
            if self.0[i].0 == *s {
                return Some(self.0[i].1);
            }
            i += 1;
        }
        None
    }

    /// Returns a new environment in which every binding for `s` is replaced
    /// by `i`; an environment without such a binding comes back unchanged.
    pub fn substitute(&self, s: String, i: i32) -> (r: State)
        ensures
            r@ == state_subst(self@, s@, i),
    {
        let n = self.0.len();
        let mut out: Vec<(String, i32)> = Vec::new();
        let mut j: usize = 0;
        while j < n
            invariant
                n == self.0.len(),
                0 <= j <= n,
                out@.len() == j,
                forall|k: int|
                    0 <= k < j as int ==> (#[trigger] out@[k]).deep_view() == state_subst(
                        self@,
                        s@,
                        i,
                    )[k],
            decreases n - j,
        {
            let pair = &self.0[j];
            if pair.0 == s {
                out.push((pair.0.clone(), i));
            } else {
                out.push((pair.0.clone(), pair.1));
            }
            j += 1;
        }
        let r = State(out);
        proof {
            assert(r@ =~= state_subst(self@, s@, i));
        }
        r
    }

    /// Builds the initial environment for a program: every declared name
    /// bound to zero, in declaration order.
    pub fn create_state(v: Vec<String>) -> (r: State)
        ensures
            r@ == initial_env(v.deep_view()),
    {
        let n = v.len();
        let mut out: Vec<(String, i32)> = Vec::new();
        let mut j: usize = 0;
        while j < n
            invariant
                n == v.len(),
                0 <= j <= n,
                out@.len() == j,
                forall|k: int|
                    0 <= k < j as int ==> (#[trigger] out@[k]).deep_view() == (
                    v.deep_view()[k],
                    0i32,
                    ),
            decreases n - j,
        {
            out.push((v[j].clone(), 0));
            j += 1;
        }
        let r = State(out);
        proof {
            assert(r@ =~= initial_env(v.deep_view()));
        }
        r
    }
}

impl Clone for State {
    /// Cloning preserves the environment's model exactly.
    fn clone(&self) -> (res: Self)
        ensures
            res@ == self@,
    {
        let n = self.0.len();
        let mut out: Vec<(String, i32)> = Vec::new();
        let mut j: usize = 0;
        while j < n
            invariant
                n == self.0.len(),
                0 <= j <= n,
                out@.len() == j,
                forall|k: int| 0 <= k < j as int ==> (#[trigger] out@[k]).deep_view() == self@[k],
            decreases n - j,
        {
            out.push((self.0[j].0.clone(), self.0[j].1));
            j += 1;
        }
        let res = State(out);
        proof {
            assert(res@ =~= self@);
        }
        res
    }
}

} // verus!
