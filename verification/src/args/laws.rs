//! What holds of every binding of arguments.

use vstd::prelude::*;
use vstd::set_lib::*;
use vstd::utf8::*;
use crate::args::tuple_dict::{nameable, tuple_dict_outcome, with_lookups, DictLookup};
use crate::args::{
    bind_message, bind_raised, fastcall_outcome, positional, with_keywords, BindError,
    ParamSpecView,
};
use crate::sys_calls::{ref_delta, unicode_is_ascii_name, SysCall};
use crate::text::until_nul;
use crate::threadstate::{ExcType, PendingView, ThreadStateView};

verus! {

/// Each value of a call stands in the slot of its parameter: the positional
/// ones in order, each keyword at the parameter that it names, nothing
/// anywhere else and nothing twice.
pub open spec fn placed(
    spec: ParamSpecView,
    args: Seq<usize>,
    names: Seq<Seq<char>>,
    values: Seq<usize>,
    slots: Seq<Option<usize>>,
) -> bool {
    &&& slots.len() == spec.params.len()
    &&& args.len() <= slots.len()
    &&& forall|i: int| 0 <= i < args.len() ==> slots[i] == Some(args[i])
    &&& forall|k: int|
        0 <= k < names.len() ==> {
            &&& #[trigger] spec.keyword_index(names[k]) matches Some(i)
            &&& args.len() <= i
            &&& slots[i] == Some(values[k])
        }
    &&& forall|k: int, l: int|
        0 <= k < l < names.len() ==> #[trigger] spec.keyword_index(names[k])
            != #[trigger] spec.keyword_index(names[l])
    &&& forall|i: int|
        args.len() <= i < slots.len() && #[trigger] slots[i] is Some ==> exists|k: int|
            0 <= k < names.len() && #[trigger] spec.keyword_index(names[k]) == Some(i)
}

/// The values of a call are placed and every required parameter has one.
pub open spec fn binds(
    spec: ParamSpecView,
    args: Seq<usize>,
    names: Seq<Seq<char>>,
    values: Seq<usize>,
    slots: Seq<Option<usize>>,
) -> bool {
    &&& placed(spec, args, names, values, slots)
    &&& forall|i: int| 0 <= i < slots.len() && spec.params[i].required ==> slots[i] is Some
}

proof fn lemma_keyword_from(spec: ParamSpecView, kw: Seq<char>, i: int)
    requires
        0 <= i,
    ensures
        spec.keyword_from(kw, i) matches Some(j) ==> i <= j < spec.params.len()
            && unicode_is_ascii_name(kw, spec.params[j].name),
        spec.keyword_from(kw, i) is None ==> forall|j: int|
            i <= j < spec.params.len() ==> !unicode_is_ascii_name(kw, spec.params[j].name),
    decreases spec.params.len() - i,
{
    if i < spec.params.len() && !unicode_is_ascii_name(kw, spec.params[i].name) {
        lemma_keyword_from(spec, kw, i + 1);
    }
}

pub(crate) proof fn lemma_missing_from(spec: ParamSpecView, slots: Seq<Option<usize>>, i: int)
    requires
        0 <= i,
        slots.len() == spec.params.len(),
    ensures
        spec.missing_from(slots, i) is None <==> forall|j: int|
            i <= j < slots.len() && spec.params[j].required ==> slots[j] is Some,
    decreases spec.params.len() - i,
{
    if i < spec.params.len() {
        lemma_missing_from(spec, slots, i + 1);
    }
}

proof fn lemma_with_keywords(
    spec: ParamSpecView,
    args: Seq<usize>,
    names: Seq<Seq<char>>,
    values: Seq<usize>,
    slots: Seq<Option<usize>>,
)
    requires
        args.len() <= spec.params.len(),
    ensures
        with_keywords(spec, positional(spec.params.len(), args), names, values) == Ok::<
            Seq<Option<usize>>,
            BindError,
        >(slots) <==> placed(spec, args, names, values, slots),
    decreases names.len(),
{
    let start = positional(spec.params.len(), args);
    if names.len() == 0 {
        if placed(spec, args, names, values, slots) {
            assert(slots =~= start);
        }
    } else {
        let head = names.drop_last();
        let last = names.len() - 1;
        assert(forall|k: int| 0 <= k < last ==> head[k] == names[k]);
        lemma_keyword_from(spec, names.last(), spec.pos_only as int);
        if let Ok(before) = with_keywords(spec, start, head, values) {
            lemma_with_keywords(spec, args, head, values, before);
            if let Some(i) = spec.keyword_index(names.last()) {
                if before[i] is None {
                    let after = before.update(i, Some(values[last]));
                    assert forall|k: int| 0 <= k < names.len() implies {
                        &&& #[trigger] spec.keyword_index(names[k]) matches Some(j)
                        &&& args.len() <= j
                        &&& after[j] == Some(values[k])
                    } by {
                        if k < last {
                            assert(head[k] == names[k]);
                            lemma_keyword_from(spec, names[k], spec.pos_only as int);
                        } else {
                            assert(names[k] == names.last());
                        }
                    }
                    assert forall|j: int|
                        args.len() <= j < after.len() && #[trigger] after[j] is Some implies exists|
                        k: int,
                    |
                        0 <= k < names.len() && #[trigger] spec.keyword_index(names[k]) == Some(
                            j,
                        ) by {
                        if j == i {
                            assert(spec.keyword_index(names[last]) == Some(j));
                        } else {
                            assert(before[j] is Some);
                            let k = choose|k: int|
                                0 <= k < head.len() && #[trigger] spec.keyword_index(head[k])
                                    == Some(j);
                            assert(spec.keyword_index(names[k]) == Some(j));
                        }
                    }
                    assert(placed(spec, args, names, values, after));
                }
            }
        }
        if placed(spec, args, names, values, slots) {
            assert(spec.keyword_index(names[last]) is Some);
            let i = spec.keyword_index(names.last())->0;
            let before = slots.update(i, None);
            assert(placed(spec, args, head, values, before)) by {
                assert forall|k: int| 0 <= k < head.len() implies {
                    &&& #[trigger] spec.keyword_index(head[k]) matches Some(j)
                    &&& args.len() <= j
                    &&& before[j] == Some(values[k])
                } by {
                    assert(head[k] == names[k]);
                    assert(spec.keyword_index(names[k]) != spec.keyword_index(names[last]));
                    lemma_keyword_from(spec, names[k], spec.pos_only as int);
                }
                assert forall|j: int|
                    args.len() <= j < before.len() && #[trigger] before[j] is Some implies exists|
                    k: int,
                |
                    0 <= k < head.len() && #[trigger] spec.keyword_index(head[k]) == Some(j) by {
                    assert(slots[j] is Some);
                    let k = choose|k: int|
                        0 <= k < names.len() && #[trigger] spec.keyword_index(names[k]) == Some(j);
                    assert(k != last);
                    assert(head[k] == names[k]);
                }
                assert forall|k: int, l: int|
                    0 <= k < l < head.len() implies #[trigger] spec.keyword_index(head[k])
                    != #[trigger] spec.keyword_index(head[l]) by {
                    assert(head[k] == names[k] && head[l] == names[l]);
                }
            }
            lemma_with_keywords(spec, args, head, values, before);
            assert(before.update(i, Some(values[last])) =~= slots);
        }
    }
}

/// A vectorcall is bound exactly when its values can be placed and every
/// required parameter gets one, and then the slots hold just that. So too
/// many, repeated, unexpected and missing arguments are all refused, and
/// nothing else is.
pub proof fn law_fastcall_binds(
    spec: ParamSpecView,
    args: Seq<usize>,
    nargs: nat,
    names: Seq<Seq<char>>,
    slots: Seq<Option<usize>>,
)
    requires
        args.len() == nargs + names.len(),
    ensures
        fastcall_outcome(spec, args, nargs, names) == Ok::<Seq<Option<usize>>, BindError>(slots)
            <==> binds(spec, args.take(nargs as int), names, args.skip(nargs as int), slots),
{
    let first = args.take(nargs as int);
    let values = args.skip(nargs as int);
    if nargs <= spec.params.len() {
        let start = positional(spec.params.len(), first);
        if let Ok(s) = with_keywords(spec, start, names, values) {
            lemma_with_keywords(spec, first, names, values, s);
            lemma_missing_from(spec, s, 0);
        }
        lemma_with_keywords(spec, first, names, values, slots);
    }
}

/// Whenever arguments are refused, an exception is pending.
pub proof fn law_refusal_raises(ts: ThreadStateView, spec: ParamSpecView, e: BindError)
    requires
        e is Interpreter ==> ts.pending is Some,
    ensures
        bind_raised(ts, spec, e).pending is Some,
        !(e is Interpreter) ==> bind_raised(ts, spec, e).pending == Some(
            PendingView::Raised { exc: ExcType::TypeError, msg: until_nul(bind_message(spec, e)) },
        ),
{
}

/// How many of the lookups found the object at `obj`.
pub open spec fn times_found(lookups: Seq<DictLookup>, obj: usize) -> int
    decreases lookups.len(),
{
    if lookups.len() == 0 {
        0
    } else {
        times_found(lookups.drop_last(), obj) + if lookups.last() == DictLookup::Found(obj) {
            1int
        } else {
            0
        }
    }
}

/// Each strong reference that a lookup handed out is given back exactly once,
/// so binding leaves every refcount as it was.
pub proof fn law_lookups_given_back(
    spec: ParamSpecView,
    slots: Seq<Option<usize>>,
    lookups: Seq<DictLookup>,
    obj: usize,
)
    requires
        with_lookups(spec, slots, lookups).outcome is Ok,
    ensures
        times_found(lookups, obj) + ref_delta(with_lookups(spec, slots, lookups).calls, obj) == 0,
    decreases lookups.len(),
{
    if lookups.len() > 0 {
        let before = with_lookups(spec, slots, lookups.drop_last());
        law_lookups_given_back(spec, slots, lookups.drop_last(), obj);
        if let DictLookup::Found(value) = lookups.last() {
            let calls = before.calls.push(SysCall::DecRef(value));
            assert(calls.drop_last() =~= before.calls);
        }
    }
}

/// The same holds where a value is refused because it was given by position
/// too: the lookups up to that one were made, and all they found is given back.
pub proof fn law_refused_lookup_given_back(
    spec: ParamSpecView,
    slots: Seq<Option<usize>>,
    lookups: Seq<DictLookup>,
    obj: usize,
)
    requires
        lookups.len() > 0,
        with_lookups(spec, slots, lookups.drop_last()).outcome is Ok,
        with_lookups(spec, slots, lookups).outcome is Err,
    ensures
        times_found(lookups, obj) + ref_delta(with_lookups(spec, slots, lookups).calls, obj) == 0,
{
    let before = with_lookups(spec, slots, lookups.drop_last());
    law_lookups_given_back(spec, slots, lookups.drop_last(), obj);
    if let DictLookup::Found(value) = lookups.last() {
        let calls = before.calls.push(SysCall::DecRef(value));
        assert(calls.drop_last() =~= before.calls);
    }
}

/// Once a vectorcall is bound, every parameter without a default has a value.
pub proof fn law_fastcall_required(
    spec: ParamSpecView,
    args: Seq<usize>,
    nargs: nat,
    names: Seq<Seq<char>>,
    i: int,
)
    requires
        args.len() == nargs + names.len(),
        fastcall_outcome(spec, args, nargs, names) is Ok,
        0 <= i < spec.params.len(),
        spec.params[i].required,
    ensures
        fastcall_outcome(spec, args, nargs, names)->Ok_0[i] is Some,
{
    law_fastcall_binds(
        spec,
        args,
        nargs,
        names,
        fastcall_outcome(spec, args, nargs, names)->Ok_0,
    );
}

proof fn lemma_lookups_len(spec: ParamSpecView, slots: Seq<Option<usize>>, lookups: Seq<DictLookup>)
    requires
        slots.len() == spec.params.len(),
        lookups.len() <= nameable(spec),
    ensures
        with_lookups(spec, slots, lookups).outcome matches Ok(s) ==> s.len() == slots.len(),
    decreases lookups.len(),
{
    if lookups.len() > 0 {
        lemma_lookups_len(spec, slots, lookups.drop_last());
    }
}

/// Once a tuple and a dict are bound, every parameter without a default has a
/// value.
pub proof fn law_tuple_dict_required(
    spec: ParamSpecView,
    items: Seq<usize>,
    kwargs: Option<(int, Seq<DictLookup>)>,
    i: int,
)
    requires
        kwargs matches Some((_, lookups)) ==> lookups.len() == nameable(spec),
        tuple_dict_outcome(spec, items, kwargs).0 is Ok,
        0 <= i < spec.params.len(),
        spec.params[i].required,
    ensures
        tuple_dict_outcome(spec, items, kwargs).0->Ok_0[i] is Some,
{
    if let Some((_, lookups)) = kwargs {
        lemma_lookups_len(spec, positional(spec.params.len(), items), lookups);
    }
    lemma_missing_from(spec, tuple_dict_outcome(spec, items, kwargs).0->Ok_0, 0);
}

/// A positional-only parameter gets a value by position or not at all.
pub proof fn law_positional_only(
    spec: ParamSpecView,
    args: Seq<usize>,
    nargs: nat,
    names: Seq<Seq<char>>,
    i: int,
)
    requires
        args.len() == nargs + names.len(),
        fastcall_outcome(spec, args, nargs, names) is Ok,
        0 <= i < spec.params.len(),
        i < spec.pos_only,
    ensures
        fastcall_outcome(spec, args, nargs, names)->Ok_0[i] == if i < nargs {
            Some(args[i])
        } else {
            None
        },
{
    let slots = fastcall_outcome(spec, args, nargs, names)->Ok_0;
    law_fastcall_binds(spec, args, nargs, names, slots);
    if nargs <= i && slots[i] is Some {
        let k = choose|k: int|
            0 <= k < names.len() && #[trigger] spec.keyword_index(names[k]) == Some(i);
        lemma_keyword_from(spec, names[k], spec.pos_only as int);
    }
}

/// The order in which keywords are given does not matter: a call with the
/// same keywords in another order (`perm[k]` is where keyword `k` went) binds
/// to the same slots.
pub proof fn law_keyword_order(
    spec: ParamSpecView,
    args: Seq<usize>,
    nargs: nat,
    names: Seq<Seq<char>>,
    args2: Seq<usize>,
    names2: Seq<Seq<char>>,
    perm: Seq<int>,
    slots: Seq<Option<usize>>,
)
    requires
        args.len() == nargs + names.len(),
        args2.len() == args.len(),
        names2.len() == names.len(),
        args2.take(nargs as int) == args.take(nargs as int),
        perm.len() == names.len(),
        perm.no_duplicates(),
        forall|l: int| 0 <= l < perm.len() ==> perm.contains(l),
        forall|k: int|
            0 <= k < perm.len() ==> 0 <= #[trigger] perm[k] < names.len() && names2[perm[k]]
                == names[k] && args2[nargs + perm[k]] == args[nargs + k],
        fastcall_outcome(spec, args, nargs, names) == Ok::<Seq<Option<usize>>, BindError>(slots),
    ensures
        fastcall_outcome(spec, args2, nargs, names2) == Ok::<Seq<Option<usize>>, BindError>(slots),
{
    law_fastcall_binds(spec, args, nargs, names, slots);
    law_fastcall_binds(spec, args2, nargs, names2, slots);
    let first = args.take(nargs as int);
    let values = args.skip(nargs as int);
    let values2 = args2.skip(nargs as int);
    assert(binds(spec, first, names2, values2, slots)) by {
        assert forall|l: int| 0 <= l < names2.len() implies {
            &&& #[trigger] spec.keyword_index(names2[l]) matches Some(i)
            &&& first.len() <= i
            &&& slots[i] == Some(values2[l])
        } by {
            assert(perm.contains(l));
            let k = choose|k: int| 0 <= k < perm.len() && perm[k] == l;
            assert(spec.keyword_index(names[k]) is Some);
            assert(values2[l] == values[k]);
        }
        assert forall|l: int, m: int| 0 <= l < m < names2.len() implies #[trigger] spec.keyword_index(
            names2[l],
        ) != #[trigger] spec.keyword_index(names2[m]) by {
            assert(perm.contains(l) && perm.contains(m));
            let k = choose|k: int| 0 <= k < perm.len() && perm[k] == l;
            let n = choose|n: int| 0 <= n < perm.len() && perm[n] == m;
            assert(names2[l] == names[k] && names2[m] == names[n]);
            assert(spec.keyword_index(names[k]) != spec.keyword_index(names[n]));
        }
        assert forall|i: int|
            first.len() <= i < slots.len() && #[trigger] slots[i] is Some implies exists|l: int|
            0 <= l < names2.len() && #[trigger] spec.keyword_index(names2[l]) == Some(i) by {
            let k = choose|k: int|
                0 <= k < names.len() && #[trigger] spec.keyword_index(names[k]) == Some(i);
            assert(spec.keyword_index(names2[perm[k]]) == Some(i));
        }
    }
}

/// Which of the lookups found a value.
pub open spec fn found_set(lookups: Seq<DictLookup>) -> Set<int> {
    Set::new(|j: int| 0 <= j < lookups.len() && lookups[j] is Found)
}

/// The slots after positional values and lookups that did not clash.
spec fn looked_up(spec: ParamSpecView, args: Seq<usize>, lookups: Seq<DictLookup>) -> Seq<
    Option<usize>,
> {
    Seq::new(
        spec.params.len(),
        |i: int|
            if i < args.len() {
                Some(args[i])
            } else if spec.pos_only <= i < spec.pos_only + lookups.len() && lookups[i
                - spec.pos_only] is Found {
                Some(lookups[i - spec.pos_only]->Found_0)
            } else {
                None
            },
    )
}

proof fn lemma_found_set_finite(lookups: Seq<DictLookup>)
    ensures
        found_set(lookups).finite(),
{
    lemma_int_range(0, lookups.len() as int);
    assert(found_set(lookups).subset_of(set_int_range(0, lookups.len() as int)));
    lemma_len_subset(found_set(lookups), set_int_range(0, lookups.len() as int));
}

proof fn lemma_with_lookups(spec: ParamSpecView, args: Seq<usize>, lookups: Seq<DictLookup>)
    requires
        args.len() <= spec.params.len(),
        lookups.len() <= nameable(spec),
        forall|j: int| 0 <= j < lookups.len() ==> !(lookups[j] is Raised),
    ensures
        ({
            let d = with_lookups(spec, positional(spec.params.len(), args), lookups);
            let clash = exists|j: int|
                0 <= j < lookups.len() && #[trigger] lookups[j] is Found && spec.pos_only + j
                    < args.len();
            &&& d.outcome is Err <==> clash
            &&& !clash ==> d.outcome == Ok::<Seq<Option<usize>>, BindError>(
                looked_up(spec, args, lookups),
            )
            &&& !clash ==> d.matched == found_set(lookups).len()
        }),
    decreases lookups.len(),
{
    let start = positional(spec.params.len(), args);
    if lookups.len() == 0 {
        assert(looked_up(spec, args, lookups) =~= start);
        assert(found_set(lookups) =~= Set::empty());
    } else {
        let head = lookups.drop_last();
        let last = lookups.len() - 1;
        let i = spec.pos_only + last;
        lemma_with_lookups(spec, args, head);
        lemma_found_set_finite(head);
        assert(forall|j: int| 0 <= j < last ==> head[j] == lookups[j]);
        let before = with_lookups(spec, start, head);
        if before.outcome is Err {
            let j = choose|j: int|
                0 <= j < head.len() && #[trigger] head[j] is Found && spec.pos_only + j
                    < args.len();
            assert(lookups[j] is Found);
        } else {
            assert forall|j: int|
                0 <= j < lookups.len() && #[trigger] lookups[j] is Found && spec.pos_only + j
                    < args.len() implies j == last by {
                if j < last {
                    assert(head[j] is Found);
                }
            }
            let s = looked_up(spec, args, head);
            match lookups[last] {
                DictLookup::Found(value) => {
                    if i < args.len() {
                        assert(s[i] is Some);
                        assert(lookups[last] is Found);
                    } else {
                        assert(s.update(i, Some(value)) =~= looked_up(spec, args, lookups));
                        assert(found_set(lookups) =~= found_set(head).insert(last));
                    }
                },
                _ => {
                    assert(s =~= looked_up(spec, args, lookups));
                    assert(found_set(lookups) =~= found_set(head));
                },
            }
        }
    }
}

/// The parameters that can be named have different names.
pub open spec fn distinct_names(spec: ParamSpecView) -> bool {
    forall|i: int, j: int|
        spec.pos_only <= i < j < spec.params.len() ==> (#[trigger] spec.params[i]).name != (
        #[trigger] spec.params[j]).name
}

/// What a dict with the keys `names` and these values replies to the lookups.
pub open spec fn dict_replies(
    spec: ParamSpecView,
    names: Seq<Seq<char>>,
    values: Seq<usize>,
    lookups: Seq<DictLookup>,
) -> bool {
    &&& lookups.len() == nameable(spec)
    &&& forall|j: int|
        0 <= j < lookups.len() ==> match #[trigger] lookups[j] {
            DictLookup::Raised => false,
            DictLookup::Missing => forall|k: int|
                0 <= k < names.len() ==> !unicode_is_ascii_name(
                    #[trigger] names[k],
                    spec.params[spec.pos_only + j].name,
                ),
            DictLookup::Found(value) => exists|k: int|
                0 <= k < names.len() && unicode_is_ascii_name(
                    #[trigger] names[k],
                    spec.params[spec.pos_only + j].name,
                ) && values[k] == value,
        }
}

proof fn lemma_unique_keyword(spec: ParamSpecView, kw: Seq<char>, i: int)
    requires
        distinct_names(spec),
        spec.pos_only <= i < spec.params.len(),
    ensures
        spec.keyword_index(kw) == Some(i) <==> unicode_is_ascii_name(kw, spec.params[i].name),
{
    lemma_keyword_from(spec, kw, spec.pos_only as int);
}

proof fn lemma_same_name(a: Seq<char>, b: Seq<char>, name: Seq<u8>)
    requires
        unicode_is_ascii_name(a, name),
        unicode_is_ascii_name(b, name),
    ensures
        a == b,
{
    encode_utf8_decode_utf8(a);
    encode_utf8_decode_utf8(b);
}

/// A tuple and a dict bind as a vectorcall with the same values does: one of
/// them is bound exactly when the other is, to the same slots.
pub proof fn law_tuple_dict_as_fastcall(
    spec: ParamSpecView,
    args: Seq<usize>,
    nargs: nat,
    names: Seq<Seq<char>>,
    lookups: Seq<DictLookup>,
    slots: Seq<Option<usize>>,
)
    requires
        distinct_names(spec),
        names.no_duplicates(),
        args.len() == nargs + names.len(),
        !args.contains(0),
        dict_replies(spec, names, args.skip(nargs as int), lookups),
    ensures
        tuple_dict_outcome(
            spec,
            args.take(nargs as int),
            Some((names.len() as int, lookups)),
        ).0 == Ok::<Seq<Option<usize>>, BindError>(slots) <==> fastcall_outcome(
            spec,
            args,
            nargs,
            names,
        ) == Ok::<Seq<Option<usize>>, BindError>(slots),
{
    let first = args.take(nargs as int);
    let values = args.skip(nargs as int);
    law_fastcall_binds(spec, args, nargs, names, slots);
    assert(!first.contains(0)) by {
        if first.contains(0) {
            let k = choose|k: int| 0 <= k < first.len() && first[k] == 0;
            assert(args[k] == 0);
        }
    }
    if nargs <= spec.params.len() {
        lemma_with_lookups(spec, first, lookups);
        let known = Set::new(
            |k: int| 0 <= k < names.len() && spec.keyword_index(names[k]) is Some,
        );
        let all = set_int_range(0, names.len() as int);
        lemma_int_range(0, names.len() as int);
        assert(known.subset_of(all));
        lemma_len_subset(known, all);
        let place = |k: int| spec.keyword_index(names[k])->0 - spec.pos_only;
        assert forall|k: int, l: int|
            known.contains(k) && known.contains(l) && #[trigger] place(k) == #[trigger] place(
                l,
            ) implies k == l by {
            lemma_keyword_from(spec, names[k], spec.pos_only as int);
            lemma_keyword_from(spec, names[l], spec.pos_only as int);
            lemma_same_name(
                names[k],
                names[l],
                spec.params[spec.keyword_index(names[k])->0].name,
            );
        }
        assert(known.map(place) =~= found_set(lookups)) by {
            assert forall|j: int| known.map(place).contains(j) implies found_set(lookups).contains(
                j,
            ) by {
                let k = choose|k: int| known.contains(k) && place(k) == j;
                lemma_keyword_from(spec, names[k], spec.pos_only as int);
                assert(unicode_is_ascii_name(names[k], spec.params[spec.pos_only + j].name));
                assert(lookups[j] is Found);
            }
            assert forall|j: int| found_set(lookups).contains(j) implies known.map(place).contains(
                j,
            ) by {
                assert(lookups[j] is Found);
                let k = choose|k: int|
                    0 <= k < names.len() && unicode_is_ascii_name(
                        #[trigger] names[k],
                        spec.params[spec.pos_only + j].name,
                    );
                lemma_unique_keyword(spec, names[k], spec.pos_only + j);
                assert(known.contains(k) && place(k) == j);
            }
        }
        lemma_map_size(known, found_set(lookups), place);
        if known.len() == names.len() {
            lemma_subset_equality(known, all);
        }
        let s = looked_up(spec, first, lookups);
        // A keyword that names parameter `i` is what its lookup found.
        assert forall|k: int| 0 <= k < names.len() && #[trigger] spec.keyword_index(names[k])
            is Some implies {
            let i = spec.keyword_index(names[k])->0;
            &&& spec.pos_only <= i < spec.params.len()
            &&& lookups[i - spec.pos_only] == DictLookup::Found(values[k])
        } by {
            let i = spec.keyword_index(names[k])->0;
            lemma_keyword_from(spec, names[k], spec.pos_only as int);
            let j = i - spec.pos_only;
            assert(lookups[j] is Found);
            let l = choose|l: int|
                0 <= l < names.len() && unicode_is_ascii_name(
                    #[trigger] names[l],
                    spec.params[spec.pos_only + j].name,
                ) && values[l] == lookups[j]->Found_0;
            lemma_same_name(names[k], names[l], spec.params[i].name);
            assert(k == l);
        }
        // What a lookup found was given by a keyword.
        assert forall|i: int|
            first.len() <= i < s.len() && #[trigger] s[i] is Some implies exists|k: int|
            0 <= k < names.len() && #[trigger] spec.keyword_index(names[k]) == Some(i) by {
            let j = i - spec.pos_only;
            assert(lookups[j] is Found);
            let k = choose|k: int|
                0 <= k < names.len() && unicode_is_ascii_name(
                    #[trigger] names[k],
                    spec.params[spec.pos_only + j].name,
                );
            lemma_unique_keyword(spec, names[k], i);
        }
        assert forall|k: int, l: int|
            0 <= k < l < names.len() && spec.keyword_index(names[k]) is Some
            implies #[trigger] spec.keyword_index(names[k]) != #[trigger] spec.keyword_index(
            names[l],
        ) by {
            if spec.keyword_index(names[k]) == spec.keyword_index(names[l]) {
                assert(known.contains(k) && known.contains(l) && place(k) == place(l));
            }
        }
        let clash = exists|j: int|
            0 <= j < lookups.len() && #[trigger] lookups[j] is Found && spec.pos_only + j
                < first.len();
        if !clash && known.len() == names.len() {
            assert forall|k: int| 0 <= k < names.len() implies {
                &&& #[trigger] spec.keyword_index(names[k]) matches Some(i)
                &&& first.len() <= i
                &&& s[i] == Some(values[k])
            } by {
                assert(all.contains(k));
                assert(known.contains(k));
                let i = spec.keyword_index(names[k])->0;
                assert(lookups[i - spec.pos_only] is Found);
            }
            assert(placed(spec, first, names, values, s));
            lemma_missing_from(spec, s, 0);
            if placed(spec, first, names, values, slots) {
                lemma_placed_unique(spec, first, names, values, s, slots);
            }
        } else if placed(spec, first, names, values, slots) {
            assert(known =~= all) by {
                assert forall|k: int| all.contains(k) implies known.contains(k) by {
                    assert(spec.keyword_index(names[k]) is Some);
                }
            }
            let j = choose|j: int|
                0 <= j < lookups.len() && #[trigger] lookups[j] is Found && spec.pos_only + j
                    < first.len();
            assert(found_set(lookups).contains(j));
            assert(known.map(place).contains(j));
            let k = choose|k: int| known.contains(k) && place(k) == j;
            assert(spec.keyword_index(names[k]) is Some);
        }
    }
}

/// Without a keyword dict a tuple is bound exactly where its items fit the
/// parameters and every required one gets a value. The slots then hold the items
/// in order and nothing after them, and no call is queued. Such a tuple ends as
/// a vectorcall without keywords does, refusals included.
pub proof fn law_tuple_alone(spec: ParamSpecView, items: Seq<usize>, slots: Seq<Option<usize>>)
    requires
        !items.contains(0),
    ensures
        tuple_dict_outcome(spec, items, None).0 == Ok::<Seq<Option<usize>>, BindError>(slots) <==> {
            &&& items.len() <= spec.params.len()
            &&& slots.len() == spec.params.len()
            &&& forall|i: int| 0 <= i < items.len() ==> slots[i] == Some(items[i])
            &&& forall|i: int| items.len() <= i < slots.len() ==> slots[i] is None
            &&& forall|i: int|
                0 <= i < slots.len() && spec.params[i].required ==> slots[i] is Some
        },
        tuple_dict_outcome(spec, items, None).0 == fastcall_outcome(
            spec,
            items,
            items.len(),
            Seq::empty(),
        ),
        tuple_dict_outcome(spec, items, None).1 == Seq::<SysCall>::empty(),
{
    let n = spec.params.len();
    assert(items.take(items.len() as int) =~= items);
    if items.len() <= n {
        let filled = positional(n, items);
        lemma_missing_from(spec, filled, 0);
        if slots.len() == n && (forall|i: int| 0 <= i < items.len() ==> slots[i] == Some(items[i]))
            && (forall|i: int| items.len() <= i < slots.len() ==> slots[i] is None) {
            assert(slots =~= filled);
        }
    }
}

/// The keyword `kw` names the first parameter that can be named and whose name
/// consists of the same ASCII characters.
pub proof fn law_keyword_names(spec: ParamSpecView, kw: Seq<char>, i: int)
    ensures
        spec.keyword_index(kw) == Some(i) <==> {
            &&& spec.pos_only <= i < spec.params.len()
            &&& spelled(kw, spec.params[i].name)
            &&& forall|j: int|
                spec.pos_only <= j < i ==> !spelled(kw, (#[trigger] spec.params[j]).name)
        },
        spec.keyword_index(kw) is None <==> forall|j: int|
            spec.pos_only <= j < spec.params.len() ==> !spelled(
                kw,
                (#[trigger] spec.params[j]).name,
            ),
{
    lemma_spelled(kw);
    lemma_first_keyword(spec, kw, spec.pos_only as int);
    lemma_keyword_from(spec, kw, spec.pos_only as int);
    if spec.pos_only <= i < spec.params.len() && spelled(kw, spec.params[i].name) {
        assert(unicode_is_ascii_name(kw, spec.params[i].name));
        assert(spec.keyword_index(kw) is Some);
        let first = spec.keyword_index(kw)->0;
        assert(spelled(kw, spec.params[first].name));
    }
}

/// Whether a text consists of ASCII characters and these are the bytes.
pub open spec fn spelled(text: Seq<char>, bytes: Seq<u8>) -> bool {
    &&& text.len() == bytes.len()
    &&& forall|i: int| 0 <= i < text.len() ==> (#[trigger] text[i]) as u32 == bytes[i] && bytes[i] < 128
}

proof fn lemma_ascii(c: char, b: u8)
    requires
        c as u32 == b,
        b < 128,
    ensures
        '\0' <= c <= '\u{7f}',
{
}

pub(crate) proof fn lemma_spelled(text: Seq<char>)
    ensures
        forall|bytes: Seq<u8>| unicode_is_ascii_name(text, bytes) <==> spelled(text, bytes),
{
    assert forall|bytes: Seq<u8>| unicode_is_ascii_name(text, bytes) <==> spelled(text, bytes) by {
        if spelled(text, bytes) {
            assert(is_ascii_chars(text)) by {
                assert forall|i: int| 0 <= i < text.len() implies '\0' <= #[trigger] text[i]
                    <= '\u{7f}' by {
                    lemma_ascii(text[i], bytes[i]);
                }
            }
        }
        if is_ascii_chars(text) {
            is_ascii_chars_encode_utf8(text);
            let enc = encode_utf8(text);
            assert forall|i: int| 0 <= i < text.len() implies (#[trigger] text[i]) as u32 == enc[i]
                && enc[i] < 128 by {
                assert('\0' <= text[i] <= '\u{7f}');
                assert(text[i] as u8 == enc[i]);
            }
            if spelled(text, bytes) {
                assert forall|i: int| 0 <= i < enc.len() implies enc[i] == bytes[i] by {
                    assert(text[i] as u32 == bytes[i]);
                }
                assert(enc =~= bytes);
            }
        }
    }
}

proof fn lemma_first_keyword(spec: ParamSpecView, kw: Seq<char>, i: int)
    requires
        0 <= i,
    ensures
        spec.keyword_from(kw, i) matches Some(j) ==> forall|l: int|
            i <= l < j ==> !unicode_is_ascii_name(kw, (#[trigger] spec.params[l]).name),
    decreases spec.params.len() - i,
{
    if i < spec.params.len() && !unicode_is_ascii_name(kw, spec.params[i].name) {
        lemma_first_keyword(spec, kw, i + 1);
    }
}

proof fn lemma_first_missing(spec: ParamSpecView, slots: Seq<Option<usize>>, i: int)
    requires
        0 <= i,
        slots.len() == spec.params.len(),
    ensures
        spec.missing_from(slots, i) matches Some(j) ==> i <= j < slots.len()
            && spec.params[j].required && slots[j] is None && forall|l: int|
            i <= l < j && spec.params[l].required ==> slots[l] is Some,
    decreases spec.params.len() - i,
{
    if i < spec.params.len() && !(spec.params[i].required && slots[i] is None) {
        lemma_first_missing(spec, slots, i + 1);
    }
}

proof fn lemma_keyword_refused(
    spec: ParamSpecView,
    args: Seq<usize>,
    names: Seq<Seq<char>>,
    values: Seq<usize>,
)
    requires
        args.len() <= spec.params.len(),
    ensures
        match with_keywords(spec, positional(spec.params.len(), args), names, values) {
            Ok(s) => true,
            Err(BindError::Unexpected) => exists|k: int|
                0 <= k < names.len() && #[trigger] spec.keyword_index(names[k]) is None,
            Err(BindError::NamedAndPositional { index }) => exists|k: int|
                0 <= k < names.len() && #[trigger] spec.keyword_index(names[k]) == Some(index) && (
                index < args.len() || exists|l: int|
                    0 <= l < k && #[trigger] spec.keyword_index(names[l]) == Some(index)),
            Err(_) => false,
        },
    decreases names.len(),
{
    let start = positional(spec.params.len(), args);
    if names.len() > 0 {
        let head = names.drop_last();
        let last = names.len() - 1;
        assert(forall|k: int| 0 <= k < last ==> head[k] == names[k]);
        lemma_keyword_refused(spec, args, head, values);
        match with_keywords(spec, start, head, values) {
            Err(BindError::Unexpected) => {
                let k = choose|k: int|
                    0 <= k < head.len() && #[trigger] spec.keyword_index(head[k]) is None;
                assert(spec.keyword_index(names[k]) is None);
            },
            Err(BindError::NamedAndPositional { index }) => {
                let k = choose|k: int|
                    0 <= k < head.len() && #[trigger] spec.keyword_index(head[k]) == Some(index)
                        && (index < args.len() || exists|l: int|
                        0 <= l < k && #[trigger] spec.keyword_index(head[l]) == Some(index));
                assert(spec.keyword_index(names[k]) == Some(index));
                if index >= args.len() {
                    let l = choose|l: int|
                        0 <= l < k && #[trigger] spec.keyword_index(head[l]) == Some(index);
                    assert(spec.keyword_index(names[l]) == Some(index));
                }
            },
            Err(_) => {},
            Ok(before) => {
                lemma_with_keywords(spec, args, head, values, before);
                assert(names[last] == names.last());
                match spec.keyword_index(names[last]) {
                    None => {},
                    Some(i) => {
                        lemma_keyword_from(spec, names[last], spec.pos_only as int);
                        if before[i] is Some && i >= args.len() {
                            let l = choose|l: int|
                                0 <= l < head.len() && #[trigger] spec.keyword_index(head[l])
                                    == Some(i);
                            assert(spec.keyword_index(names[l]) == Some(i));
                        }
                    },
                }
            },
        }
    }
}

/// A vectorcall that is refused is refused for what is wrong with it. Too many
/// values by position come first, with their number. A parameter is reported as
/// given twice only if a keyword names it and it was given before. A keyword is
/// reported as unexpected only if one names nothing. A parameter is reported as
/// missing only if every value was placed, and then it is the first required one
/// without a value.
pub proof fn law_fastcall_refused(
    spec: ParamSpecView,
    args: Seq<usize>,
    nargs: nat,
    names: Seq<Seq<char>>,
)
    requires
        args.len() == nargs + names.len(),
    ensures
        nargs > spec.params.len() <==> fastcall_outcome(spec, args, nargs, names) matches Err(
            BindError::TooMany { .. },
        ),
        match fastcall_outcome(spec, args, nargs, names) {
            Ok(_) => true,
            Err(BindError::TooMany { given }) => given == nargs,
            Err(BindError::Interpreter) => false,
            Err(BindError::Unexpected) => exists|k: int|
                0 <= k < names.len() && #[trigger] spec.keyword_index(names[k]) is None,
            Err(BindError::NamedAndPositional { index }) => exists|k: int|
                0 <= k < names.len() && #[trigger] spec.keyword_index(names[k]) == Some(index) && (
                index < nargs || exists|l: int|
                    0 <= l < k && #[trigger] spec.keyword_index(names[l]) == Some(index)),
            Err(BindError::Missing { index }) => exists|slots: Seq<Option<usize>>|
                {
                    &&& #[trigger] placed(
                        spec,
                        args.take(nargs as int),
                        names,
                        args.skip(nargs as int),
                        slots,
                    )
                    &&& nargs <= index < slots.len()
                    &&& spec.params[index].required && slots[index] is None
                    &&& forall|i: int|
                        0 <= i < index && spec.params[i].required ==> slots[i] is Some
                },
        },
{
    let first = args.take(nargs as int);
    let values = args.skip(nargs as int);
    if nargs <= spec.params.len() {
        let start = positional(spec.params.len(), first);
        lemma_keyword_refused(spec, first, names, values);
        if let Ok(s) = with_keywords(spec, start, names, values) {
            lemma_with_keywords(spec, first, names, values, s);
            lemma_first_missing(spec, s, 0);
            if spec.missing_from(s, 0) is Some {
                let index = spec.missing_from(s, 0)->0;
                if index < nargs {
                    assert(s[index] == Some(first[index]));
                }
            }
        }
    }
}

/// Which lookup stops the binding: the first one that failed, or that found a
/// value for a parameter given by position.
pub open spec fn stopped_at(spec: ParamSpecView, given: nat, lookups: Seq<DictLookup>, k: int) -> bool {
    &&& 0 <= k < lookups.len()
    &&& lookups[k] is Raised || (lookups[k] is Found && spec.pos_only + k < given)
    &&& forall|j: int|
        0 <= j < k ==> !(#[trigger] lookups[j] is Raised) && (lookups[j] is Found ==> spec.pos_only
            + j >= given)
}

/// Whether no lookup stops the binding.
pub open spec fn unstopped(spec: ParamSpecView, given: nat, lookups: Seq<DictLookup>) -> bool {
    forall|j: int|
        0 <= j < lookups.len() ==> !(#[trigger] lookups[j] is Raised) && (lookups[j] is Found
            ==> spec.pos_only + j >= given)
}

proof fn lemma_lookups_stop(
    spec: ParamSpecView,
    args: Seq<usize>,
    lookups: Seq<DictLookup>,
    obj: usize,
)
    requires
        args.len() <= spec.params.len(),
        lookups.len() <= nameable(spec),
    ensures
        ({
            let d = with_lookups(spec, positional(spec.params.len(), args), lookups);
            &&& d.outcome is Ok <==> unstopped(spec, args.len(), lookups)
            &&& d.outcome is Ok ==> times_found(lookups, obj) + ref_delta(d.calls, obj) == 0
            &&& d.outcome matches Err(e) ==> exists|k: int|
                {
                    &&& #[trigger] stopped_at(spec, args.len(), lookups, k)
                    &&& lookups[k] is Raised ==> e == BindError::Interpreter && times_found(
                        lookups.take(k),
                        obj,
                    ) + ref_delta(d.calls, obj) == 0
                    &&& lookups[k] is Found ==> e == (BindError::NamedAndPositional {
                        index: spec.pos_only + k,
                    }) && times_found(lookups.take(k + 1), obj) + ref_delta(d.calls, obj) == 0
                }
        }),
    decreases lookups.len(),
{
    let start = positional(spec.params.len(), args);
    let d = with_lookups(spec, start, lookups);
    if lookups.len() > 0 {
        let head = lookups.drop_last();
        let last = lookups.len() - 1;
        assert(forall|j: int| 0 <= j < last ==> head[j] == lookups[j]);
        lemma_lookups_stop(spec, args, head, obj);
        let before = with_lookups(spec, start, head);
        match before.outcome {
            Err(e) => {
                let k = choose|k: int|
                    {
                        &&& #[trigger] stopped_at(spec, args.len(), head, k)
                        &&& head[k] is Raised ==> e == BindError::Interpreter && times_found(
                            head.take(k),
                            obj,
                        ) + ref_delta(before.calls, obj) == 0
                        &&& head[k] is Found ==> e == (BindError::NamedAndPositional {
                            index: spec.pos_only + k,
                        }) && times_found(head.take(k + 1), obj) + ref_delta(before.calls, obj) == 0
                    };
                assert(stopped_at(spec, args.len(), lookups, k)) by {
                    assert forall|j: int| 0 <= j < k implies !(#[trigger] lookups[j] is Raised) && (
                    lookups[j] is Found ==> spec.pos_only + j >= args.len()) by {
                        assert(head[j] == lookups[j]);
                    }
                }
                assert(head.take(k) =~= lookups.take(k));
                assert(head.take(k + 1) =~= lookups.take(k + 1));
                assert(lookups[k] == head[k]);
            },
            Ok(s) => {
                assert(unstopped(spec, args.len(), head));
                assert forall|j: int| 0 <= j < last implies !(#[trigger] lookups[j] is Raised) && (
                lookups[j] is Found ==> spec.pos_only + j >= args.len()) by {
                    assert(head[j] == lookups[j]);
                }
                assert(forall|j: int| 0 <= j < head.len() ==> !(head[j] is Raised));
                lemma_with_lookups(spec, args, head);
                assert(s == looked_up(spec, args, head)) by {
                    assert(before.outcome is Ok);
                }
                let i = spec.pos_only + last;
                assert(lookups.take(last + 1) =~= lookups);
                assert(lookups.take(last) =~= head);
                match lookups.last() {
                    DictLookup::Found(value) => {
                        let calls = before.calls.push(SysCall::DecRef(value));
                        assert(calls.drop_last() =~= before.calls);
                        if i < args.len() {
                            assert(s[i] is Some);
                            assert(stopped_at(spec, args.len(), lookups, last));
                        } else {
                            assert(s[i] is None);
                        }
                    },
                    DictLookup::Raised => {
                        assert(stopped_at(spec, args.len(), lookups, last));
                    },
                    DictLookup::Missing => {},
                }
            },
        }
    }
}

/// A tuple and a dict are bound exactly where the items fit the parameters, no
/// lookup fails or finds a value for a parameter given by position, as many
/// lookups find a value as the dict has entries, and every required parameter
/// gets a value. The slots then hold the items in order, each value that was
/// found at the parameter whose lookup found it, and nothing else.
pub proof fn law_tuple_dict_binds(
    spec: ParamSpecView,
    items: Seq<usize>,
    size: int,
    lookups: Seq<DictLookup>,
    slots: Seq<Option<usize>>,
)
    requires
        !items.contains(0),
        lookups.len() == nameable(spec),
    ensures
        tuple_dict_outcome(spec, items, Some((size, lookups))).0 == Ok::<
            Seq<Option<usize>>,
            BindError,
        >(slots) <==> {
            &&& items.len() <= spec.params.len()
            &&& slots.len() == spec.params.len()
            &&& unstopped(spec, items.len(), lookups)
            &&& found_set(lookups).len() == size
            &&& forall|i: int| 0 <= i < items.len() ==> slots[i] == Some(items[i])
            &&& forall|i: int|
                items.len() <= i < slots.len() ==> #[trigger] slots[i] == if i >= spec.pos_only {
                    match lookups[i - spec.pos_only] {
                        DictLookup::Found(value) => Some(value),
                        _ => None,
                    }
                } else {
                    None
                }
            &&& forall|i: int|
                0 <= i < slots.len() && spec.params[i].required ==> slots[i] is Some
        },
{
    if items.len() <= spec.params.len() {
        lemma_lookups_stop(spec, items, lookups, 0);
        if unstopped(spec, items.len(), lookups) {
            assert(forall|j: int| 0 <= j < lookups.len() ==> !(lookups[j] is Raised));
            lemma_with_lookups(spec, items, lookups);
            let s = looked_up(spec, items, lookups);
            lemma_missing_from(spec, s, 0);
            if slots.len() == s.len() && (forall|i: int|
                0 <= i < items.len() ==> slots[i] == Some(items[i])) && (forall|i: int|
                items.len() <= i < slots.len() ==> #[trigger] slots[i] == if i >= spec.pos_only {
                    match lookups[i - spec.pos_only] {
                        DictLookup::Found(value) => Some(value),
                        _ => None,
                    }
                } else {
                    None
                }) {
                assert(slots =~= s);
            }
        }
    }
}

/// A tuple and a dict that are refused are refused for what is wrong with them,
/// and each strong reference that a lookup handed out is given back, whatever
/// the outcome: of all lookups, or of those up to the one that stopped.
pub proof fn law_tuple_dict_refused(
    spec: ParamSpecView,
    items: Seq<usize>,
    size: int,
    lookups: Seq<DictLookup>,
    obj: usize,
)
    requires
        lookups.len() == nameable(spec),
    ensures
        ({
            let (outcome, calls) = tuple_dict_outcome(spec, items, Some((size, lookups)));
            let fits = items.len() <= spec.params.len();
            let handed_out = !items.contains(0);
            &&& outcome == Err::<Seq<Option<usize>>, BindError>(
                BindError::TooMany { given: items.len() },
            ) <==> !fits
            &&& fits && !handed_out ==> outcome == Err::<Seq<Option<usize>>, BindError>(
                BindError::Interpreter,
            )
            &&& !fits || !handed_out ==> calls == Seq::<SysCall>::empty()
            &&& fits && handed_out ==> match outcome {
                Ok(_) => times_found(lookups, obj) + ref_delta(calls, obj) == 0,
                Err(BindError::TooMany { .. }) => false,
                Err(BindError::Interpreter) => exists|k: int|
                    #[trigger] stopped_at(spec, items.len(), lookups, k) && lookups[k] is Raised
                        && times_found(lookups.take(k), obj) + ref_delta(calls, obj) == 0,
                Err(BindError::NamedAndPositional { index }) => {
                    let k = index - spec.pos_only;
                    &&& stopped_at(spec, items.len(), lookups, k)
                    &&& lookups[k] is Found
                    &&& times_found(lookups.take(k + 1), obj) + ref_delta(calls, obj) == 0
                },
                Err(BindError::Unexpected) => {
                    &&& unstopped(spec, items.len(), lookups)
                    &&& found_set(lookups).len() != size
                    &&& times_found(lookups, obj) + ref_delta(calls, obj) == 0
                },
                Err(BindError::Missing { index }) => {
                    &&& unstopped(spec, items.len(), lookups)
                    &&& found_set(lookups).len() == size
                    &&& items.len() <= index < spec.params.len()
                    &&& spec.params[index].required
                    &&& index >= spec.pos_only ==> lookups[index - spec.pos_only] is Missing
                    &&& forall|i: int|
                        items.len() <= i < index && spec.params[i].required ==> i >= spec.pos_only
                            && lookups[i - spec.pos_only] is Found
                    &&& times_found(lookups, obj) + ref_delta(calls, obj) == 0
                },
            }
        }),
{
    if items.len() <= spec.params.len() && !items.contains(0) {
        lemma_lookups_stop(spec, items, lookups, obj);
        let start = positional(spec.params.len(), items);
        let d = with_lookups(spec, start, lookups);
        match d.outcome {
            Err(e) => {
                let k = choose|k: int|
                    {
                        &&& #[trigger] stopped_at(spec, items.len(), lookups, k)
                        &&& lookups[k] is Raised ==> e == BindError::Interpreter && times_found(
                            lookups.take(k),
                            obj,
                        ) + ref_delta(d.calls, obj) == 0
                        &&& lookups[k] is Found ==> e == (BindError::NamedAndPositional {
                            index: spec.pos_only + k,
                        }) && times_found(lookups.take(k + 1), obj) + ref_delta(d.calls, obj) == 0
                    };
                assert(stopped_at(spec, items.len(), lookups, k));
                assert(d.outcome is Err);
                assert(tuple_dict_outcome(spec, items, Some((size, lookups))) == (
                    Err::<Seq<Option<usize>>, BindError>(e),
                    d.calls,
                ));
            },
            Ok(s) => {
                assert(forall|j: int| 0 <= j < lookups.len() ==> !(lookups[j] is Raised));
                lemma_with_lookups(spec, items, lookups);
                assert(s == looked_up(spec, items, lookups)) by {
                    assert(d.outcome is Ok);
                }
                lemma_first_missing(spec, s, 0);
                if let Some(index) = spec.missing_from(s, 0) {
                    assert(s[index] is None);
                    if index >= spec.pos_only {
                        assert(!(lookups[index - spec.pos_only] is Raised));
                    }
                    assert forall|i: int|
                        items.len() <= i < index && spec.params[i].required implies i
                        >= spec.pos_only && lookups[i - spec.pos_only] is Found by {
                        assert(s[i] is Some);
                    }
                }
            },
        }
    }
}

/// The values of a call fit into slots in one way.
proof fn lemma_placed_unique(
    spec: ParamSpecView,
    args: Seq<usize>,
    names: Seq<Seq<char>>,
    values: Seq<usize>,
    a: Seq<Option<usize>>,
    b: Seq<Option<usize>>,
)
    requires
        placed(spec, args, names, values, a),
        placed(spec, args, names, values, b),
    ensures
        a == b,
{
    lemma_with_keywords(spec, args, names, values, a);
    lemma_with_keywords(spec, args, names, values, b);
}

} // verus!
