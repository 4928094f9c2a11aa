//! Binding of a classic `(args_tuple, kwargs_dict)` pair, as constructors
//! receive it.
//!
//! The tuple and the dict belong to the interpreter. A [`TupleDictBinder`]
//! says which of them to ask next and takes the replies.

use vstd::prelude::*;
use crate::args::{
    bind_raised, check_required, empty_slots, positional, raise_named_and_positional,
    raise_too_many, raise_unexpected, with_required, ArgSlots, BindError, ParamSpec, ParamSpecView,
};
use crate::err::{PyErrRaised, PyResult};
use crate::sys_calls::{decref, SysCall};
use crate::threadstate::ThreadState;

verus! {

/// The reply of a lookup of a name in the keyword dict.
#[derive(Clone, Copy, Debug, PartialEq, Eq, Structural)]
pub enum DictLookup {
    /// The lookup failed; its exception is pending.
    Raised,
    /// The name is not in the dict.
    Missing,
    /// A strong reference to the value.
    Found(usize),
}

/// What a [`TupleDictBinder`] wants to know next.
#[derive(Clone, Copy, Debug, PartialEq, Eq, Structural)]
pub enum BindStep {
    /// The tuple item with this index.
    GetItem(usize),
    /// The number of entries of the keyword dict.
    DictSize,
    /// The dict entry under the name of this parameter.
    Lookup(usize),
    /// Nothing: all replies are in.
    Done,
}

/// What the keyword dict replies: its size, and the outcome of the lookup of
/// each parameter that can be named, in order.
pub struct KwargsReplies<'a> {
    pub size: isize,
    pub lookups: &'a [DictLookup],
}

/// How keyword lookups end, how many of them found a value, and which calls
/// they queued.
pub ghost struct LookupsBound {
    pub outcome: Result<Seq<Option<usize>>, BindError>,
    pub matched: nat,
    pub calls: Seq<SysCall>,
}

/// `slots` after the lookups of the parameters from the first one that can be
/// named on. Each value found is a strong reference, which is given back: the
/// dict is private to the call and keeps the value alive.
pub open spec fn with_lookups(
    spec: ParamSpecView,
    slots: Seq<Option<usize>>,
    lookups: Seq<DictLookup>,
) -> LookupsBound
    decreases lookups.len(),
{
    if lookups.len() == 0 {
        LookupsBound { outcome: Ok(slots), matched: 0, calls: Seq::empty() }
    } else {
        let before = with_lookups(spec, slots, lookups.drop_last());
        let i = spec.pos_only + lookups.len() - 1;
        match before.outcome {
            Err(_) => before,
            Ok(s) => match lookups.last() {
                DictLookup::Raised => LookupsBound {
                    outcome: Err(BindError::Interpreter),
                    ..before
                },
                DictLookup::Missing => before,
                DictLookup::Found(value) => LookupsBound {
                    outcome: if s[i] is Some {
                        Err(BindError::NamedAndPositional { index: i })
                    } else {
                        Ok(s.update(i, Some(value)))
                    },
                    matched: before.matched + 1,
                    calls: before.calls.push(SysCall::DecRef(value)),
                },
            },
        }
    }
}

/// How many parameters can be named.
pub open spec fn nameable(spec: ParamSpecView) -> nat {
    if spec.pos_only < spec.params.len() {
        (spec.params.len() - spec.pos_only) as nat
    } else {
        0
    }
}

/// How a tuple of `items` (zero where the interpreter failed to hand one out)
/// and a keyword dict with these replies bind.
pub open spec fn tuple_dict_outcome(
    spec: ParamSpecView,
    items: Seq<usize>,
    kwargs: Option<(int, Seq<DictLookup>)>,
) -> (Result<Seq<Option<usize>>, BindError>, Seq<SysCall>) {
    if items.len() > spec.params.len() {
        (Err(BindError::TooMany { given: items.len() }), Seq::empty())
    } else if items.contains(0) {
        (Err(BindError::Interpreter), Seq::empty())
    } else {
        let slots = positional(spec.params.len(), items);
        match kwargs {
            None => (with_required(spec, slots), Seq::empty()),
            Some((size, lookups)) => {
                let bound = with_lookups(spec, slots, lookups);
                (
                    match bound.outcome {
                        Err(e) => Err(e),
                        Ok(s) => if bound.matched != size {
                            Err(BindError::Unexpected)
                        } else {
                            with_required(spec, s)
                        },
                    },
                    bound.calls,
                )
            },
        }
    }
}

/// The state of one binding.
pub struct TupleDictBinder<'s> {
    spec: &'s ParamSpec,
    nargs: usize,
    has_kwargs: bool,
    slots: ArgSlots,
    items: usize,
    size: Option<isize>,
    param: usize,
    matched: usize,
}

/// What a [`TupleDictBinder`] is.
#[verifier::ext_equal]
pub ghost struct BinderView {
    pub spec: ParamSpecView,
    pub nargs: nat,
    pub has_kwargs: bool,
    pub slots: Seq<Option<usize>>,
    /// How many tuple items are bound.
    pub items: nat,
    /// The size of the dict, once it is known.
    pub size: Option<int>,
    /// The next parameter to look up.
    pub param: nat,
    /// How many lookups found a value.
    pub matched: nat,
}

impl BinderView {
    /// What is to be asked next.
    pub open spec fn step(self) -> BindStep {
        if self.items < self.nargs {
            BindStep::GetItem(self.items as usize)
        } else if !self.has_kwargs {
            BindStep::Done
        } else if self.size is None {
            BindStep::DictSize
        } else if self.param < self.spec.params.len() {
            BindStep::Lookup(self.param as usize)
        } else {
            BindStep::Done
        }
    }
}

impl<'s> View for TupleDictBinder<'s> {
    type V = BinderView;

    closed spec fn view(&self) -> BinderView {
        BinderView {
            spec: self.spec@,
            nargs: self.nargs as nat,
            has_kwargs: self.has_kwargs,
            slots: self.slots@,
            items: self.items as nat,
            size: match self.size {
                Some(n) => Some(n as int),
                None => None,
            },
            param: self.param as nat,
            matched: self.matched as nat,
        }
    }
}

impl<'s> TupleDictBinder<'s> {
    /// The slots fit the parameters, and the counters fit the slots.
    pub closed spec fn wf(&self) -> bool {
        &&& self.slots@.len() == self.spec.params@.len()
        &&& self.items <= self.nargs <= self.slots@.len()
        &&& self.matched <= self.param
        &&& forall|i: int| 0 <= i < self.slots@.len() ==> self.slots@[i] != Some(0usize)
    }

    /// The counters are machine numbers.
    pub(crate) proof fn lemma_bounds(&self)
        ensures
            self@.items <= usize::MAX,
            self@.nargs <= usize::MAX,
            self@.param <= usize::MAX,
    {
    }

    /// Begin with the size of the argument tuple.
    pub fn start(
        ts: &mut ThreadState<'_>,
        spec: &'s ParamSpec,
        nargs: usize,
        has_kwargs: bool,
    ) -> (r: PyResult<TupleDictBinder<'s>>)
        ensures
            r is Err <==> nargs > spec.params@.len(),
            r is Err ==> final(ts)@ == bind_raised(
                old(ts)@,
                spec@,
                BindError::TooMany { given: nargs as nat },
            ),
            r matches Ok(b) ==> b.wf() && final(ts)@ == old(ts)@ && b@ == (BinderView {
                spec: spec@,
                nargs: nargs as nat,
                has_kwargs,
                slots: positional(spec@.params.len(), Seq::empty()),
                items: 0,
                size: None,
                param: spec@.pos_only,
                matched: 0,
            }),
    {
        let n: usize = spec.params.len();
        if nargs > n {
            return Err(raise_too_many(ts, spec, nargs));
        }
        Ok(
            TupleDictBinder {
                spec,
                nargs,
                has_kwargs,
                slots: empty_slots(n),
                items: 0,
                size: None,
                param: spec.pos_only,
                matched: 0,
            },
        )
    }

    /// What is to be asked next.
    pub fn next_step(&self) -> (r: BindStep)
        requires
            self.wf(),
        ensures
            r == self@.step(),
    {
        if self.items < self.nargs {
            BindStep::GetItem(self.items)
        } else if !self.has_kwargs {
            BindStep::Done
        } else if self.size.is_none() {
            BindStep::DictSize
        } else if self.param < self.spec.params.len() {
            BindStep::Lookup(self.param)
        } else {
            BindStep::Done
        }
    }

    /// Take a tuple item, zero where the interpreter failed to hand it out.
    pub fn item(&mut self, ts: &ThreadState<'_>, item: usize) -> (r: PyResult<()>)
        requires
            old(self).wf(),
            old(self)@.step() is GetItem,
            item == 0 ==> ts@.pending is Some,
        ensures
            final(self).wf(),
            r is Err <==> item == 0,
            r is Err ==> final(self)@ == old(self)@,
            r is Ok ==> final(self)@ == (BinderView {
                slots: old(self)@.slots.update(old(self)@.items as int, Some(item)),
                items: old(self)@.items + 1,
                ..old(self)@
            }),
    {
        if item == 0 {
            return Err(PyErrRaised::assume_set(ts));
        }
        let i: usize = self.items;
        self.slots.set(i, Some(item));
        self.items = i + 1;
        Ok(())
    }

    /// Take the size of the keyword dict.
    pub fn dict_size(&mut self, size: isize)
        requires
            old(self).wf(),
        ensures
            final(self).wf(),
            final(self)@ == (BinderView { size: Some(size as int), ..old(self)@ }),
    {
        self.size = Some(size);
    }

    /// Take the reply of the lookup of the next parameter.
    pub fn lookup(&mut self, ts: &mut ThreadState<'_>, found: DictLookup) -> (r: PyResult<()>)
        requires
            old(self).wf(),
            old(self)@.step() is Lookup,
            found is Raised ==> old(ts)@.pending is Some,
            found != DictLookup::Found(0),
        ensures
            final(self).wf(),
            ({
                let i = old(self)@.param as int;
                match found {
                    DictLookup::Raised => {
                        &&& r is Err
                        &&& final(self)@ == old(self)@
                        &&& final(ts)@ == old(ts)@
                    },
                    DictLookup::Missing => {
                        &&& r is Ok
                        &&& final(self)@ == (BinderView { param: (i + 1) as nat, ..old(self)@ })
                        &&& final(ts)@ == old(ts)@
                    },
                    DictLookup::Found(value) => {
                        let given = old(ts)@.called(SysCall::DecRef(value));
                        if old(self)@.slots[i] is Some {
                            &&& r is Err
                            &&& final(self)@ == old(self)@
                            &&& final(ts)@ == bind_raised(
                                given,
                                old(self)@.spec,
                                BindError::NamedAndPositional { index: i },
                            )
                        } else {
                            &&& r is Ok
                            &&& final(self)@ == (BinderView {
                                slots: old(self)@.slots.update(i, Some(value)),
                                param: (i + 1) as nat,
                                matched: old(self)@.matched + 1,
                                ..old(self)@
                            })
                            &&& final(ts)@ == given
                        }
                    },
                }
            }),
    {
        let i: usize = self.param;
        let n: usize = self.spec.params.len();
        assert(i < n);
        match found {
            DictLookup::Raised => Err(PyErrRaised::assume_set(ts)),
            DictLookup::Missing => {
                self.param = i + 1;
                Ok(())
            },
            DictLookup::Found(value) => {
                decref(ts, value);
                if self.slots[i].is_some() {
                    return Err(raise_named_and_positional(ts, self.spec, i));
                }
                self.slots.set(i, Some(value));
                self.param = i + 1;
                self.matched = self.matched + 1;
                Ok(())
            },
        }
    }

    /// Every dict entry has to name a parameter, and every required parameter
    /// needs a value.
    pub fn finish(self, ts: &mut ThreadState<'_>) -> (r: PyResult<ArgSlots>)
        requires
            self.wf(),
            self@.step() is Done,
        ensures
            match (if self@.has_kwargs && self@.size != Some(self@.matched as int) {
                Err(BindError::Unexpected)
            } else {
                with_required(self@.spec, self@.slots)
            }) {
                Ok(slots) => {
                    &&& r matches Ok(s)
                    &&& s@ == slots
                    &&& final(ts)@ == old(ts)@
                },
                Err(e) => r is Err && final(ts)@ == bind_raised(old(ts)@, self@.spec, e),
            },
            r matches Ok(s) ==> s@.len() == self@.spec.params.len() && forall|i: int|
                0 <= i < s@.len() ==> s@[i] != Some(0usize),
    {
        if self.has_kwargs {
            let all_matched: bool = match self.size {
                Some(size) => size >= 0 && size as usize == self.matched,
                None => false,
            };
            if !all_matched {
                return Err(raise_unexpected(ts, self.spec));
            }
        }
        match check_required(ts, self.spec, &self.slots) {
            Ok(()) => Ok(self.slots),
            Err(e) => Err(e),
        }
    }
}

/// Bind an argument tuple and a keyword dict whose replies are all known.
///
/// `items` are the tuple items, zero where the interpreter failed to hand one
/// out; `kwargs` is `None` where there is no dict.
pub fn parse_tuple_dict(
    ts: &mut ThreadState<'_>,
    spec: &ParamSpec,
    items: &[usize],
    kwargs: Option<KwargsReplies<'_>>,
) -> (r: PyResult<ArgSlots>)
    requires
        kwargs matches Some(k) ==> k.lookups@.len() == nameable(spec@),
        kwargs matches Some(k) ==> !k.lookups@.contains(DictLookup::Found(0)),
        tuple_dict_outcome(spec@, items@, replies(kwargs)).0 == Err::<
            Seq<Option<usize>>,
            BindError,
        >(BindError::Interpreter) ==> old(ts)@.pending is Some,
    ensures
        ({
            let (outcome, calls) = tuple_dict_outcome(spec@, items@, replies(kwargs));
            let given = old(ts)@.called_all(calls);
            match outcome {
                Ok(slots) => {
                    &&& r matches Ok(s)
                    &&& s@ == slots
                    &&& final(ts)@ == given
                },
                Err(e) => r is Err && final(ts)@ == bind_raised(given, spec@, e),
            }
        }),
        r matches Ok(s) ==> s@.len() == spec.params@.len() && forall|i: int|
            0 <= i < s@.len() ==> s@[i] != Some(0usize),
{
    let ghost (outcome, calls) = tuple_dict_outcome(spec@, items@, replies(kwargs));
    let nargs: usize = items.len();
    let has_kwargs: bool = kwargs.is_some();
    assert(ts@.calls + Seq::<SysCall>::empty() =~= ts@.calls);
    let mut binder = match TupleDictBinder::start(ts, spec, nargs, has_kwargs) {
        Ok(b) => b,
        Err(e) => return Err(e),
    };
    let mut i: usize = 0;
    while i < nargs
        invariant
            nargs == items@.len(),
            i <= nargs,
            nargs <= spec@.params.len(),
            binder.wf(),
            binder@ == (BinderView {
                spec: spec@,
                nargs: nargs as nat,
                has_kwargs,
                slots: positional(spec@.params.len(), items@.take(i as int)),
                items: i as nat,
                size: None,
                param: spec@.pos_only,
                matched: 0,
            }),
            forall|k: int| 0 <= k < i ==> items@[k] != 0,
            ts@ == old(ts)@,
            (outcome, calls) == tuple_dict_outcome(spec@, items@, replies(kwargs)),
            ts@.calls + Seq::<SysCall>::empty() =~= ts@.calls,
            outcome == Err::<Seq<Option<usize>>, BindError>(BindError::Interpreter)
                ==> old(ts)@.pending is Some,
        decreases nargs - i,
    {
        if items[i] == 0 {
            assert(items@.contains(0)) by {
                assert(items@[i as int] == 0);
            }
        }
        match binder.item(ts, items[i]) {
            Ok(()) => {},
            Err(e) => return Err(e),
        }
        assert(positional(spec@.params.len(), items@.take(i + 1)) =~= positional(
            spec@.params.len(),
            items@.take(i as int),
        ).update(i as int, Some(items@[i as int])));
        i = i + 1;
    }
    assert(items@.take(nargs as int) =~= items@);
    assert(!items@.contains(0));
    match kwargs {
        None => {},
        Some(dict) => {
            binder.dict_size(dict.size);
            let lookups: &[DictLookup] = dict.lookups;
            let ghost start = positional(spec@.params.len(), items@);
            let ghost all = with_lookups(spec@, start, lookups@);
            let mut j: usize = 0;
            while j < lookups.len()
                invariant
                    j <= lookups@.len(),
                    lookups@.len() == nameable(spec@),
                    !lookups@.contains(DictLookup::Found(0)),
                    start == positional(spec@.params.len(), items@),
                    all == with_lookups(spec@, start, lookups@),
                    binder.wf(),
                    with_lookups(spec@, start, lookups@.take(j as int)).outcome == Ok::<
                        Seq<Option<usize>>,
                        BindError,
                    >(binder@.slots),
                    binder@ == (BinderView {
                        spec: spec@,
                        nargs: nargs as nat,
                        has_kwargs: true,
                        slots: binder@.slots,
                        items: nargs as nat,
                        size: Some(dict.size as int),
                        param: spec@.pos_only + j as nat,
                        matched: with_lookups(spec@, start, lookups@.take(j as int)).matched,
                    }),
                    ts@ == old(ts)@.called_all(
                        with_lookups(spec@, start, lookups@.take(j as int)).calls,
                    ),
                    all.outcome == Err::<Seq<Option<usize>>, BindError>(BindError::Interpreter)
                        ==> old(ts)@.pending is Some,
                    (outcome, calls) == tuple_dict_outcome(spec@, items@, replies(kwargs)),
                    replies(kwargs) == Some((dict.size as int, lookups@)),
                    items@.len() <= spec@.params.len(),
                    !items@.contains(0),
                decreases lookups@.len() - j,
            {
                let found: DictLookup = lookups[j];
                let ghost next = lookups@.take(j + 1);
                let ghost before = with_lookups(spec@, start, lookups@.take(j as int));
                proof {
                    assert(next.drop_last() =~= lookups@.take(j as int));
                    assert(next.last() == found);
                    assert(lookups@.contains(found));
                    if with_lookups(spec@, start, next).outcome is Err {
                        lemma_lookup_error(spec@, start, lookups@, (j + 1) as nat);
                    }
                    if let DictLookup::Found(value) = found {
                        assert(old(ts)@.called_all(before.calls).called(SysCall::DecRef(value)).calls
                            =~= old(ts)@.called_all(
                            before.calls.push(SysCall::DecRef(value)),
                        ).calls);
                    }
                }
                match binder.lookup(ts, found) {
                    Ok(()) => {},
                    Err(e) => return Err(e),
                }
                j = j + 1;
            }
            assert(lookups@.take(j as int) =~= lookups@);
        },
    }
    binder.finish(ts)
}

/// The replies as plain sequences.
pub open spec fn replies(kwargs: Option<KwargsReplies<'_>>) -> Option<(int, Seq<DictLookup>)> {
    match kwargs {
        Some(k) => Some((k.size as int, k.lookups@)),
        None => None,
    }
}

/// The first lookup that cannot be bound decides.
proof fn lemma_lookup_error(
    spec: ParamSpecView,
    slots: Seq<Option<usize>>,
    lookups: Seq<DictLookup>,
    k: nat,
)
    requires
        k <= lookups.len(),
        with_lookups(spec, slots, lookups.take(k as int)).outcome is Err,
    ensures
        with_lookups(spec, slots, lookups) == with_lookups(spec, slots, lookups.take(k as int)),
    decreases lookups.len(),
{
    if k == lookups.len() {
        assert(lookups.take(k as int) =~= lookups);
    } else {
        assert(lookups.drop_last().take(k as int) =~= lookups.take(k as int));
        lemma_lookup_error(spec, slots, lookups.drop_last(), k);
    }
}

} // verus!
