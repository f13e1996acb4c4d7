//! Dispatch tables: the addresses of native entry points, resolved by name
//! once and read-only afterwards.
//!
//! Resolution alternates a lookup, which the caller makes through the
//! driver's loader, and a decision, which the `Resolver` makes: ask for the
//! next name, take its address, and stop at the first null.
use vstd::prelude::*;

verus! {

/// Whose loader resolved a table: an instance's or a device's. Mixing the
/// two is undefined in the driver, so a table remembers which it is.
#[derive(Clone, Copy, Debug, PartialEq, Eq, Structural)]
pub enum Scope {
    Instance(u64),
    Device(u64),
}

/// A required entry point resolved to null.
#[derive(Debug)]
pub struct ResolveError {
    pub symbol: String,
}

/// The resolver as a mathematical value: the names it must resolve, the
/// addresses received so far, and the index of the name that came back
/// null, if one did.
pub struct ResolverView {
    pub scope: Scope,
    pub names: Seq<Seq<char>>,
    pub addrs: Seq<u64>,
    pub failed: Option<nat>,
}

impl ResolverView {
    /// A lookup is still owed.
    pub open spec fn pending(self) -> bool {
        self.failed is None && self.addrs.len() < self.names.len()
    }

    /// Every name has a non-null address.
    pub open spec fn complete(self) -> bool {
        self.failed is None && self.addrs.len() == self.names.len()
    }

    pub open spec fn wf(self) -> bool {
        &&& self.addrs.len() <= self.names.len()
        &&& forall|j: int| 0 <= j < self.addrs.len() ==> #[trigger] self.addrs[j] != 0
        &&& match self.failed {
            Some(m) => m == self.addrs.len() && m < self.names.len(),
            None => true,
        }
    }

    /// The resolver after the lookup of the pending name returned `addr`.
    pub open spec fn step(self, addr: u64) -> ResolverView {
        if addr == 0 {
            ResolverView { failed: Some(self.addrs.len()), ..self }
        } else {
            ResolverView { addrs: self.addrs.push(addr), ..self }
        }
    }
}

/// The resolver after it has been handed the lookups' results in turn. It
/// takes a result only while a lookup is pending.
pub open spec fn feed(v: ResolverView, answers: Seq<u64>) -> ResolverView
    decreases answers.len(),
{
    if answers.len() == 0 || !v.pending() {
        v
    } else {
        feed(v.step(answers[0]), answers.skip(1))
    }
}

/// How many lookups `feed` asks for.
pub open spec fn lookups(v: ResolverView, answers: Seq<u64>) -> nat
    decreases answers.len(),
{
    if answers.len() == 0 || !v.pending() {
        0
    } else {
        1 + lookups(v.step(answers[0]), answers.skip(1))
    }
}

/// Resolves a list of required entry points, one lookup at a time.
pub struct Resolver {
    scope: Scope,
    names: Vec<String>,
    addrs: Vec<u64>,
    failed: Option<usize>,
}

impl View for Resolver {
    type V = ResolverView;

    closed spec fn view(&self) -> ResolverView {
        ResolverView {
            scope: self.scope,
            names: self.names@.map_values(|s: String| s@),
            addrs: self.addrs@,
            failed: match self.failed {
                Some(m) => Some(m as nat),
                None => None,
            },
        }
    }
}

impl Resolver {
    /// A resolver for `names`, with nothing looked up yet.
    pub fn new(scope: Scope, names: Vec<String>) -> (r: Resolver)
        ensures
            r@.wf(),
            r@.scope == scope,
            r@.names == names@.map_values(|s: String| s@),
            r@.addrs == Seq::<u64>::empty(),
            r@.failed is None,
    {
        Resolver { scope, names, addrs: Vec::new(), failed: None }
    }

    /// The name to look up next; none once every name is resolved or one
    /// has come back null.
    pub fn next_symbol(&self) -> (r: Option<String>)
        requires
            self@.wf(),
        ensures
            match r {
                Some(s) => self@.pending() && s@ == self@.names[self@.addrs.len() as int],
                None => !self@.pending(),
            },
    {
        if self.failed.is_none() && self.addrs.len() < self.names.len() {
            Some(self.names[self.addrs.len()].clone())
        } else {
            None
        }
    }

    /// Takes the address that the lookup of the pending name returned. A
    /// null address ends the resolution with an error naming the symbol.
    pub fn supply(&mut self, addr: u64) -> (res: Result<(), ResolveError>)
        requires
            old(self)@.wf(),
            old(self)@.pending(),
        ensures
            final(self)@.wf(),
            final(self)@ == old(self)@.step(addr),
            match res {
                Ok(()) => addr != 0,
                Err(e) => addr == 0 && e.symbol@ == old(self)@.names[old(self)@.addrs.len() as int],
            },
    {
        let ghost old_view = self@;
        let i = self.addrs.len();
        if addr == 0 {
            self.failed = Some(i);
            return Err(ResolveError { symbol: self.names[i].clone() });
        }
        self.addrs.push(addr);
        proof {
            assert(self@ =~= old_view.step(addr));
        }
        Ok(())
    }

    /// The finished table, or the error that names the symbol that came
    /// back null.
    pub fn finish(self) -> (res: Result<DispatchTable, ResolveError>)
        requires
            self@.wf(),
            !self@.pending(),
        ensures
            match res {
                Ok(t) => {
                    &&& self@.complete()
                    &&& t@.scope == self@.scope
                    &&& t@.names == self@.names
                    &&& t@.addrs == self@.addrs
                },
                Err(e) => self@.failed is Some && e.symbol@ == self@.names[self@.failed->0 as int],
            },
    {
        match self.failed {
            Some(m) => Err(ResolveError { symbol: self.names[m].clone() }),
            None => Ok(DispatchTable { scope: self.scope, names: self.names, addrs: self.addrs }),
        }
    }
}

/// A missing symbol is fatal and ends the lookups. If the first null among
/// the lookups' results is the `m`-th, resolution from scratch fails on
/// name `m`, makes `m + 1` lookups and asks for no more.
pub proof fn lemma_missing_symbol_stops(v: ResolverView, answers: Seq<u64>, m: int)
    requires
        v.wf(),
        v.addrs.len() == 0,
        v.failed is None,
        0 <= m < v.names.len(),
        m < answers.len(),
        answers[m] == 0,
        forall|j: int| 0 <= j < m ==> #[trigger] answers[j] != 0,
    ensures
        feed(v, answers).failed == Some(m as nat),
        feed(v, answers).addrs == answers.take(m),
        lookups(v, answers) == m + 1,
        !feed(v, answers).pending(),
{
    lemma_feed_until_null(v, answers, m);
    assert(v.addrs + answers.take(m) =~= answers.take(m));
}

proof fn lemma_feed_until_null(v: ResolverView, answers: Seq<u64>, m: int)
    requires
        v.wf(),
        v.failed is None,
        0 <= m < answers.len(),
        v.addrs.len() + m < v.names.len(),
        answers[m] == 0,
        forall|j: int| 0 <= j < m ==> #[trigger] answers[j] != 0,
    ensures
        feed(v, answers).failed == Some((v.addrs.len() + m) as nat),
        feed(v, answers).addrs == v.addrs + answers.take(m),
        lookups(v, answers) == m + 1,
        !feed(v, answers).pending(),
    decreases answers.len(),
{
    let w = v.step(answers[0]);
    if m == 0 {
        assert(!w.pending());
        assert(feed(w, answers.skip(1)) == w);
        assert(lookups(w, answers.skip(1)) == 0);
        assert(v.addrs + answers.take(0) =~= v.addrs);
    } else {
        assert(answers[0] != 0);
        let rest = answers.skip(1);
        assert forall|j: int| 0 <= j < m - 1 implies #[trigger] rest[j] != 0 by {
            assert(rest[j] == answers[j + 1]);
        }
        assert(rest[m - 1] == answers[m]);
        assert(w.wf()) by {
            assert forall|j: int| 0 <= j < w.addrs.len() implies #[trigger] w.addrs[j] != 0 by {
                if j < v.addrs.len() {
                    assert(w.addrs[j] == v.addrs[j]);
                }
            }
        }
        lemma_feed_until_null(w, rest, m - 1);
        assert(w.addrs + rest.take(m - 1) =~= v.addrs + answers.take(m));
    }
}

/// The dispatch table as a mathematical value.
pub struct TableView {
    pub scope: Scope,
    pub names: Seq<Seq<char>>,
    pub addrs: Seq<u64>,
}

/// Resolved entry points, each name with its non-null address.
#[derive(Debug)]
pub struct DispatchTable {
    scope: Scope,
    names: Vec<String>,
    addrs: Vec<u64>,
}

impl View for DispatchTable {
    type V = TableView;

    closed spec fn view(&self) -> TableView {
        TableView {
            scope: self.scope,
            names: self.names@.map_values(|s: String| s@),
            addrs: self.addrs@,
        }
    }
}

impl DispatchTable {
    /// Which loader resolved the table.
    pub fn scope(&self) -> (r: Scope)
        ensures
            r == self@.scope,
    {
        self.scope
    }

    /// The address of the first entry named `name`, if any.
    pub fn address(&self, name: &str) -> (r: Option<u64>)
        requires
            self@.names.len() == self@.addrs.len(),
        ensures
            match r {
                Some(a) => exists|j: int|
                    0 <= j < self@.names.len() && self@.names[j] == name@ && a == self@.addrs[j]
                        && forall|k: int| 0 <= k < j ==> #[trigger] self@.names[k] != name@,
                None => forall|j: int| 0 <= j < self@.names.len() ==> #[trigger] self@.names[j] != name@,
            },
    {
        let key = name.to_owned();
        let mut j: usize = 0;
        while j < self.names.len()
            invariant
                j <= self.names.len(),
                self.names.len() == self.addrs.len(),
                key@ == name@,
                forall|k: int| 0 <= k < j ==> #[trigger] self@.names[k] != name@,
                self@.names == self.names@.map_values(|s: String| s@),
            decreases self.names.len() - j,
        {
            if self.names[j] == key {
                proof {
                    assert(self@.names[j as int] == self.names@[j as int]@);
                }
                return Some(self.addrs[j]);
            }
            j = j + 1;
        }
        None
    }
}

} // verus!
