use vstd::prelude::*;

verus! {

/// A way of bringing up a graphics context without a window.
#[derive(Clone, Copy, Debug, PartialEq, Eq, Structural)]
pub enum Strategy {
    /// A context with no surface at all.
    Surfaceless,
    /// A context on an off-screen pixel buffer.
    Pbuffer,
    /// A software rasteriser.
    OsMesa,
}

/// The strategies, in the order they are tried.
pub open spec fn strategy_order() -> Seq<Strategy> {
    seq![Strategy::Surfaceless, Strategy::Pbuffer, Strategy::OsMesa]
}

fn strategy_at(i: usize) -> (r: Strategy)
    requires
        i < 3,
    ensures
        r == strategy_order()[i as int],
{
    if i == 0 {
        Strategy::Surfaceless
    } else if i == 1 {
        Strategy::Pbuffer
    } else {
        Strategy::OsMesa
    }
}

/// Bringing up a context by trying each strategy in turn until one works.
/// The caller performs each attempt and reports its outcome; the first
/// success ends the search, and when all fail every failure is kept.
pub struct BringUp {
    errors: Vec<String>,
    chosen: Option<Strategy>,
}

impl BringUp {
    /// The failure messages so far, one per strategy tried, in order.
    pub closed spec fn failures(&self) -> Seq<Seq<char>> {
        self.errors@.map_values(|s: String| s@)
    }

    /// The strategy that worked, if one did.
    pub closed spec fn chosen_spec(&self) -> Option<Strategy> {
        self.chosen
    }

    pub closed spec fn wf(&self) -> bool {
        &&& self.errors@.len() <= 3
        &&& self.chosen is Some ==> self.errors@.len() < 3 && self.chosen == Some(strategy_order()[self.errors@.len() as int])
    }

    /// The strategy to try next, if the search goes on.
    pub open spec fn next_spec(&self) -> Option<Strategy> {
        if self.chosen_spec() is None && self.failures().len() < 3 {
            Some(strategy_order()[self.failures().len() as int])
        } else {
            None
        }
    }

    pub fn new() -> (r: BringUp)
        ensures
            r.wf(),
            r.failures() == Seq::<Seq<char>>::empty(),
            r.chosen_spec() is None,
    {
        let r = BringUp { errors: Vec::new(), chosen: None };
        assert(r.failures() =~= Seq::<Seq<char>>::empty());
        r
    }

    /// The strategy to attempt now; `None` once one worked or all failed.
    pub fn next_strategy(&self) -> (r: Option<Strategy>)
        requires
            self.wf(),
        ensures
            r == self.next_spec(),
    {
        if self.chosen.is_none() && self.errors.len() < 3 {
            Some(strategy_at(self.errors.len()))
        } else {
            None
        }
    }

    /// Reports how the attempt at `next_strategy` went.
    pub fn record(&mut self, outcome: Result<(), String>)
        requires
            old(self).wf(),
            old(self).next_spec() is Some,
        ensures
            final(self).wf(),
            outcome is Ok ==> final(self).chosen_spec() == old(self).next_spec()
                && final(self).failures() == old(self).failures(),
            outcome matches Err(m) ==> final(self).chosen_spec() is None
                && final(self).failures() == old(self).failures().push(m@),
    {
        match outcome {
            Ok(()) => {
                self.chosen = Some(strategy_at(self.errors.len()));
            },
            Err(m) => {
                let ghost v = m@;
                self.errors.push(m);
                assert(self.failures() =~= old(self).failures().push(v));
            },
        }
    }

    /// How the search ended: the strategy that worked, or every failure in
    /// the order tried; `None` while strategies are left to try.
    pub fn outcome(&self) -> (r: Option<Result<Strategy, Vec<String>>>)
        requires
            self.wf(),
        ensures
            self.next_spec() is Some <==> r is None,
            self.chosen_spec() matches Some(s) ==> r == Some(Ok::<Strategy, Vec<String>>(s)),
            self.chosen_spec() is None && self.failures().len() == 3 ==> (r matches Some(Err(errs))
                && errs@.map_values(|s: String| s@) == self.failures()),
            r matches Some(Err(errs)) ==> self.chosen_spec() is None && self.failures().len() == 3
                && errs@.map_values(|s: String| s@) == self.failures(),
    {
        match self.chosen {
            Some(s) => Some(Ok(s)),
            None => {
                if self.errors.len() < 3 {
                    None
                } else {
                    let mut errs: Vec<String> = Vec::new();
                    let mut i: usize = 0;
                    while i < self.errors.len()
                        invariant
                            i <= self.errors@.len(),
                            errs@.len() == i,
                            forall|k: int| 0 <= k < i ==> #[trigger] errs@[k]@ == self.errors@[k]@,
                        decreases self.errors@.len() - i,
                    {
                        errs.push(self.errors[i].clone());
                        i = i + 1;
                    }
                    assert(errs@.map_values(|s: String| s@) =~= self.failures());
                    Some(Err(errs))
                }
            },
        }
    }
}

} // verus!
