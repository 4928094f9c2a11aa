//! What the binding functions do, call by call.

use vstd::prelude::*;
use vstd::utf8::*;
use crate::args::laws::{
    binds, found_set, law_fastcall_binds, law_fastcall_refused, law_tuple_alone,
    law_tuple_dict_binds, law_tuple_dict_refused, lemma_missing_from, lemma_spelled, spelled,
    stopped_at, times_found, unstopped,
};
use crate::args::tuple_dict::{
    nameable, parse_tuple_dict, tuple_dict_outcome, BindStep, DictLookup, KwargsReplies,
    TupleDictBinder,
};
use crate::args::{
    arg_bound, bind_message, check_required, fastcall_outcome, parse_fastcall, ArgSlots, BindError,
    ParamSpec, ParamSpecView,
};
use crate::cstr::CStr;
use crate::err::PyResult;
use crate::instance::Borrowed;
use crate::sys_calls::{ref_delta, unicode_eq_ascii, SysCall};
use crate::text::{decimal, texts, until_nul};
use crate::threadstate::{ExcType, PendingView, ThreadState, ThreadStateView};
use crate::types::PyAny;

verus! {

/// Whether a refusal left a `TypeError` behind and nothing else.
pub open spec fn type_error(before: ThreadStateView, after: ThreadStateView) -> bool {
    &&& after.pending matches Some(PendingView::Raised { exc, msg })
    &&& after.pending->0->exc == ExcType::TypeError
    &&& after.calls == before.calls
    &&& after.ptr == before.ptr && after.none == before.none && after.permit == before.permit
}

/// A vectorcall gives slots exactly where its values can be placed and every
/// required parameter gets one. The slots hold just these values, and the thread
/// state stays as it was. Any other call leaves a `TypeError`.
pub proof fn law_parse_fastcall(
    spec: ParamSpec,
    args: &[usize],
    nargs: usize,
    kwnames: &[String],
    r: PyResult<ArgSlots>,
)
    requires
        args@.len() == nargs + kwnames@.len(),
    ensures
        forall|ts: &mut ThreadState<'_>| #[trigger]
            call_ensures(parse_fastcall, (ts, &spec, args, nargs, kwnames), r) ==> match r {
                Ok(slots) => {
                    &&& binds(
                        spec@,
                        args@.take(nargs as int),
                        texts(kwnames@),
                        args@.skip(nargs as int),
                        slots@,
                    )
                    &&& final(ts)@ == ts@
                },
                Err(_) => {
                    &&& type_error(ts@, final(ts)@)
                    &&& forall|slots: Seq<Option<usize>>|
                        !binds(
                            spec@,
                            args@.take(nargs as int),
                            texts(kwnames@),
                            args@.skip(nargs as int),
                            slots,
                        )
                },
            },
{
    let names = texts(kwnames@);
    let outcome = fastcall_outcome(spec@, args@, nargs as nat, names);
    law_fastcall_refused(spec@, args@, nargs as nat, names);
    if let Ok(slots) = r {
        law_fastcall_binds(spec@, args@, nargs as nat, names, slots@);
    }
    if outcome is Err {
        assert forall|slots: Seq<Option<usize>>| !binds(
            spec@,
            args@.take(nargs as int),
            names,
            args@.skip(nargs as int),
            slots,
        ) by {
            law_fastcall_binds(spec@, args@, nargs as nat, names, slots);
        }
    }
}

/// Whether a tuple alone binds to some slots.
pub open spec fn tuple_binds(
    spec: ParamSpecView,
    items: Seq<usize>,
    slots: Seq<Option<usize>>,
) -> bool {
    &&& items.len() <= spec.params.len()
    &&& slots.len() == spec.params.len()
    &&& forall|i: int| 0 <= i < items.len() ==> slots[i] == Some(items[i])
    &&& forall|i: int| items.len() <= i < slots.len() ==> slots[i] is None
    &&& forall|i: int| 0 <= i < slots.len() && spec.params[i].required ==> slots[i] is Some
}

/// A constructor call without a keyword dict gives slots exactly where its items
/// fit the parameters and every required one gets a value. The slots hold the
/// items in order, and the thread state stays as it was. Any other call leaves a
/// `TypeError`.
pub proof fn law_parse_tuple(spec: ParamSpec, items: &[usize], r: PyResult<ArgSlots>)
    requires
        !items@.contains(0),
    ensures
        forall|ts: &mut ThreadState<'_>| #[trigger]
            call_ensures(parse_tuple_dict, (ts, &spec, items, None), r) ==> match r {
                Ok(slots) => tuple_binds(spec@, items@, slots@) && final(ts)@ == ts@,
                Err(_) => {
                    &&& type_error(ts@, final(ts)@)
                    &&& forall|slots: Seq<Option<usize>>| !tuple_binds(spec@, items@, slots)
                },
            },
{
    let outcome = tuple_dict_outcome(spec@, items@, None).0;
    law_tuple_alone(spec@, items@, Seq::empty());
    law_fastcall_refused(spec@, items@, items@.len(), Seq::empty());
    if let Ok(slots) = r {
        law_tuple_alone(spec@, items@, slots@);
    }
    if outcome is Err {
        assert forall|slots: Seq<Option<usize>>| !tuple_binds(spec@, items@, slots) by {
            law_tuple_alone(spec@, items@, slots);
        }
    }
    assert forall|ts: &mut ThreadState<'_>| #[trigger]
        call_ensures(parse_tuple_dict, (ts, &spec, items, None), r) implies match r {
        Ok(slots) => tuple_binds(spec@, items@, slots@) && final(ts)@ == ts@,
        Err(_) => {
            &&& type_error(ts@, final(ts)@)
            &&& forall|slots: Seq<Option<usize>>| !tuple_binds(spec@, items@, slots)
        },
    } by {
        assert(ts@.called_all(Seq::empty()).calls =~= ts@.calls);
        assert(ts@.called_all(Seq::empty()) == ts@);
    }
}

/// A constructor call with a keyword dict gives slots exactly where
/// [`law_tuple_dict_binds`] says, and whatever comes of it, each object whose
/// lookup was made has as many references as before.
pub proof fn law_parse_tuple_dict(
    spec: ParamSpec,
    items: &[usize],
    kwargs: KwargsReplies<'_>,
    r: PyResult<ArgSlots>,
)
    requires
        !items@.contains(0),
        kwargs.lookups@.len() == nameable(spec@),
    ensures
        forall|ts: &mut ThreadState<'_>| #[trigger]
            call_ensures(parse_tuple_dict, (ts, &spec, items, Some(kwargs)), r) ==> {
                &&& r is Ok <==> {
                    &&& items@.len() <= spec@.params.len()
                    &&& unstopped(spec@, items@.len(), kwargs.lookups@)
                    &&& found_set(kwargs.lookups@).len() == kwargs.size
                    &&& forall|i: int|
                        items@.len() <= i < spec@.params.len() && spec@.params[i].required ==> i
                            >= spec@.pos_only && kwargs.lookups@[i - spec@.pos_only] is Found
                }
                &&& r matches Ok(slots) ==> {
                    &&& slots@.len() == spec@.params.len()
                    &&& forall|i: int| 0 <= i < items@.len() ==> slots@[i] == Some(items@[i])
                    &&& forall|i: int|
                        items@.len() <= i < slots@.len() ==> #[trigger] slots@[i] == if i
                            >= spec@.pos_only {
                            match kwargs.lookups@[i - spec@.pos_only] {
                                DictLookup::Found(value) => Some(value),
                                _ => None,
                            }
                        } else {
                            None
                        }
                    &&& final(ts)@.pending == ts@.pending
                }
                &&& r is Err && (forall|j: int|
                    0 <= j < kwargs.lookups@.len() ==> !(kwargs.lookups@[j] is Raised)) ==> (
                final(ts)@.pending matches Some(PendingView::Raised { exc, .. }) && exc
                    == ExcType::TypeError)
                &&& items@.len() <= spec@.params.len() && unstopped(
                    spec@,
                    items@.len(),
                    kwargs.lookups@,
                ) ==> exists|calls: Seq<SysCall>|
                    final(ts)@.calls == #[trigger] (ts@.calls + calls) && forall|obj: usize|
                        times_found(kwargs.lookups@, obj) + #[trigger] ref_delta(calls, obj) == 0
            },
{
    let lookups = kwargs.lookups@;
    let (outcome, calls) = tuple_dict_outcome(spec@, items@, Some((kwargs.size as int, lookups)));
    law_tuple_dict_refused(spec@, items@, kwargs.size as int, lookups, 0);
    let whole = items@.len() <= spec@.params.len() && unstopped(spec@, items@.len(), lookups);
    if whole {
        assert forall|obj: usize| times_found(lookups, obj) + #[trigger] ref_delta(calls, obj)
            == 0 by {
            law_tuple_dict_refused(spec@, items@, kwargs.size as int, lookups, obj);
        }
    }
    if let Ok(slots) = outcome {
        law_tuple_dict_binds(spec@, items@, kwargs.size as int, lookups, slots);
        assert forall|i: int|
            items@.len() <= i < spec@.params.len() && spec@.params[i].required implies i
            >= spec@.pos_only && lookups[i - spec@.pos_only] is Found by {
            assert(slots[i] is Some);
        }
    }
    assert forall|ts: &mut ThreadState<'_>| #[trigger]
        call_ensures(parse_tuple_dict, (ts, &spec, items, Some(kwargs)), r) && whole implies exists|
        calls: Seq<SysCall>,
    |
        final(ts)@.calls == #[trigger] (ts@.calls + calls) && forall|obj: usize|
            times_found(kwargs.lookups@, obj) + #[trigger] ref_delta(calls, obj) == 0 by {
        assert(final(ts)@.calls == ts@.calls + calls);
    }
}

/// What the messages say. Too many values are counted, and one parameter is an
/// argument while any other number are arguments. A parameter is shown by its
/// name and by its place, counted from one.
pub proof fn law_messages(spec: ParamSpecView, given: nat, i: int)
    ensures
        spec.params.len() == 1 ==> bind_message(spec, BindError::TooMany { given })
            == spec.fn_name + "() takes at most 1 argument ("@ + decimal(given) + " given)"@,
        spec.params.len() != 1 ==> bind_message(spec, BindError::TooMany { given })
            == spec.fn_name + "() takes at most "@ + decimal(spec.params.len()) + " arguments ("@
            + decimal(given) + " given)"@,
        bind_message(spec, BindError::Unexpected) == spec.fn_name
            + "() got an unexpected keyword argument"@,
        0 <= i < spec.params.len() ==> {
            &&& bind_message(spec, BindError::NamedAndPositional { index: i }) == "argument for "@
                + spec.fn_name + "() given by name ('"@ + spec.label(i) + "') and position ("@
                + decimal((i + 1) as nat) + ")"@
            &&& bind_message(spec, BindError::Missing { index: i }) == spec.fn_name
                + "() missing required argument '"@ + spec.label(i) + "' (pos "@ + decimal(
                (i + 1) as nat,
            ) + ")"@
            &&& forall|t: Seq<char>|
                spec.params[i].name == #[trigger] encode_utf8(t) ==> spec.label(i) == t
        },
{
    let n = spec.params.len();
    reveal_strlit("() takes at most ");
    reveal_strlit("() takes at most 1 argument (");
    reveal_strlit(" argument");
    reveal_strlit(" arguments (");
    reveal_strlit(" (");
    reveal_strlit("s");
    reveal_strlit("");
    let m = bind_message(spec, BindError::TooMany { given });
    if n == 1 {
        assert(decimal(1) =~= seq!['1']);
        assert(m =~= spec.fn_name + "() takes at most 1 argument ("@ + decimal(given)
            + " given)"@);
    } else {
        assert(m =~= spec.fn_name + "() takes at most "@ + decimal(n) + " arguments ("@ + decimal(
            given,
        ) + " given)"@);
    }
    assert forall|t: Seq<char>| spec.params[i].name == #[trigger] encode_utf8(t) implies spec.label(
        i,
    ) == t by {
        encode_utf8_valid_utf8(t);
        encode_utf8_decode_utf8(t);
    }
}

/// A vectorcall with too many values, and a constructor call with too many
/// items, is told how many fit and how many were given.
pub proof fn law_too_many(
    spec: ParamSpec,
    args: &[usize],
    nargs: usize,
    kwnames: &[String],
    items: &[usize],
    kwargs: Option<KwargsReplies<'_>>,
    r: PyResult<ArgSlots>,
)
    ensures
        nargs > spec@.params.len() ==> forall|ts: &mut ThreadState<'_>| #[trigger]
            call_ensures(parse_fastcall, (ts, &spec, args, nargs, kwnames), r) ==> final(ts)@
                == ts@.raised(
                ExcType::TypeError,
                until_nul(bind_message(spec@, BindError::TooMany { given: nargs as nat })),
            ),
        items@.len() > spec@.params.len() ==> forall|ts: &mut ThreadState<'_>| #[trigger]
            call_ensures(parse_tuple_dict, (ts, &spec, items, kwargs), r) ==> final(ts)@
                == ts@.raised(
                ExcType::TypeError,
                until_nul(bind_message(spec@, BindError::TooMany { given: items@.len() })),
            ),
{
    assert forall|ts: &mut ThreadState<'_>| #[trigger]
        call_ensures(parse_tuple_dict, (ts, &spec, items, kwargs), r) && items@.len()
            > spec@.params.len() implies final(ts)@ == ts@.raised(
        ExcType::TypeError,
        until_nul(bind_message(spec@, BindError::TooMany { given: items@.len() })),
    ) by {
        assert(ts@.called_all(Seq::empty()).calls =~= ts@.calls);
        assert(ts@.called_all(Seq::empty()) == ts@);
    }
}

/// Every parameter without a default has a value exactly where the check
/// passes, and a check that fails leaves a `TypeError`.
pub proof fn law_check_required(spec: ParamSpec, slots: ArgSlots, r: PyResult<()>)
    requires
        slots@.len() == spec@.params.len(),
    ensures
        forall|ts: &mut ThreadState<'_>| #[trigger]
            call_ensures(check_required, (ts, &spec, &slots), r) ==> {
                &&& r is Ok <==> forall|i: int|
                    0 <= i < slots@.len() && spec@.params[i].required ==> slots@[i] is Some
                &&& r is Ok ==> final(ts)@ == ts@
                &&& r is Err ==> type_error(ts@, final(ts)@)
            },
{
    lemma_missing_from(spec@, slots@, 0);
}

/// A slot that holds an object gives exactly that object, and an empty one
/// gives none.
pub proof fn law_arg_bound<'a, 'py>(
    slots: &'a ArgSlots,
    index: usize,
    r: Option<Borrowed<'a, 'py, PyAny>>,
)
    requires
        index < slots@.len(),
        call_ensures(arg_bound, (slots, index), r),
    ensures
        slots@[index as int] == match r {
            Some(b) => Some(b.addr()),
            None => None,
        },
{
}

/// What is shown of parameters is what they are.
pub proof fn law_specs_shown(spec: ParamSpec, i: int)
    requires
        0 <= i < spec.params@.len(),
    ensures
        spec@.fn_name == spec.fn_name@,
        spec@.pos_only == spec.pos_only,
        spec@.params.len() == spec.params@.len(),
        spec@.params[i].name == spec.params@[i].name@,
        spec@.params[i].required == spec.params@[i].required,
{
}

/// A binder asks for the tuple items one after the other, then for the size of
/// the dict if there is one, then for each parameter that can be named, in order,
/// and then for nothing more.
pub proof fn law_binder_asks(b: TupleDictBinder<'_>, r: BindStep)
    requires
        call_ensures(TupleDictBinder::next_step, (&b,), r),
        b.wf(),
    ensures
        r is GetItem <==> b@.items < b@.nargs,
        r matches BindStep::GetItem(i) ==> i == b@.items,
        r is DictSize <==> b@.items >= b@.nargs && b@.has_kwargs && b@.size is None,
        r is Lookup <==> b@.items >= b@.nargs && b@.has_kwargs && b@.size is Some && b@.param
            < b@.spec.params.len(),
        r matches BindStep::Lookup(i) ==> i == b@.param,
        r is Done <==> b@.items >= b@.nargs && (b@.has_kwargs ==> b@.size is Some && b@.param
            >= b@.spec.params.len()),
{
    b.lemma_bounds();
}

/// A binder starts with empty slots. Each item goes into the next slot, each
/// value that a lookup found into the slot of its parameter, and no other slot
/// changes. What goes wrong leaves the slots as they were.
pub proof fn law_binder_places(
    spec: &ParamSpec,
    nargs: usize,
    has_kwargs: bool,
    start: PyResult<TupleDictBinder<'_>>,
    ts: &ThreadState<'_>,
    item: usize,
    found: DictLookup,
    r: PyResult<()>,
)
    ensures
        forall|t: &mut ThreadState<'_>| #[trigger]
            call_ensures(TupleDictBinder::start, (t, spec, nargs, has_kwargs), start) ==> {
                &&& start is Ok <==> nargs <= spec@.params.len()
                &&& start matches Ok(b) ==> {
                    &&& b@.slots.len() == spec@.params.len()
                    &&& forall|i: int| 0 <= i < b@.slots.len() ==> b@.slots[i] is None
                    &&& b@.items == 0 && b@.matched == 0 && b@.param == spec@.pos_only
                }
            },
        forall|b: &mut TupleDictBinder<'_>| #[trigger]
            call_ensures(TupleDictBinder::item, (b, ts, item), r) ==> {
                &&& r is Ok <==> item != 0
                &&& r is Ok ==> final(b)@.slots == b@.slots.update(b@.items as int, Some(item))
                    && final(b)@.items == b@.items + 1
                &&& r is Err ==> final(b)@ == b@
            },
        forall|b: &mut TupleDictBinder<'_>, t: &mut ThreadState<'_>| #[trigger]
            call_ensures(TupleDictBinder::lookup, (b, t, found), r) ==> {
                let i = b@.param as int;
                &&& r is Err <==> found is Raised || (found is Found && b@.slots[i] is Some)
                &&& r is Err ==> final(b)@ == b@
                &&& r is Ok ==> final(b)@.param == i + 1
                &&& r is Ok && found is Missing ==> final(b)@.slots == b@.slots && final(b)@.matched
                    == b@.matched && final(t)@ == t@
                &&& r is Ok ==> (found matches DictLookup::Found(v) ==> final(b)@.slots
                    == b@.slots.update(i, Some(v)) && final(b)@.matched == b@.matched + 1)
                &&& found matches DictLookup::Found(v) ==> final(t)@.calls == t@.calls.push(
                    SysCall::DecRef(v),
                )
            },
{
}

/// Where the interpreter fails to hand out an item or a value, binding fails
/// with the exception of the interpreter, and a name that is no text is shown as
/// a question mark.
pub proof fn law_interpreter_failed(
    spec: ParamSpec,
    items: &[usize],
    kwargs: Option<KwargsReplies<'_>>,
    r: PyResult<ArgSlots>,
    i: int,
)
    requires
        items@.len() <= spec@.params.len(),
        items@.contains(0),
    ensures
        forall|ts: &mut ThreadState<'_>| #[trigger]
            call_ensures(parse_tuple_dict, (ts, &spec, items, kwargs), r) ==> r is Err && final(ts)@
                == ts@,
        0 <= i < spec@.params.len() && (forall|t: Seq<char>| #[trigger]
            encode_utf8(t) != spec@.params[i].name) ==> spec@.label(i) == "?"@,
{
    assert forall|ts: &mut ThreadState<'_>| #[trigger]
        call_ensures(parse_tuple_dict, (ts, &spec, items, kwargs), r) implies r is Err && final(ts)@
        == ts@ by {
        assert(ts@.called_all(Seq::empty()).calls =~= ts@.calls);
        assert(ts@.called_all(Seq::empty()) == ts@);
    }
    if 0 <= i < spec@.params.len() && valid_utf8(spec@.params[i].name) {
        decode_utf8_encode_utf8(spec@.params[i].name);
    }
}

/// A lookup that fails ends the binding with the exception of the interpreter,
/// and so does nothing but give back what was found before.
pub proof fn law_lookup_failed(
    spec: ParamSpec,
    items: &[usize],
    kwargs: KwargsReplies<'_>,
    r: PyResult<ArgSlots>,
    k: int,
)
    requires
        items@.len() <= spec@.params.len(),
        !items@.contains(0),
        kwargs.lookups@.len() == nameable(spec@),
        stopped_at(spec@, items@.len(), kwargs.lookups@, k),
        kwargs.lookups@[k] is Raised,
    ensures
        forall|ts: &mut ThreadState<'_>| #[trigger]
            call_ensures(parse_tuple_dict, (ts, &spec, items, Some(kwargs)), r) ==> r is Err
                && final(ts)@.pending == ts@.pending,
{
    let lookups = kwargs.lookups@;
    law_tuple_dict_refused(spec@, items@, kwargs.size as int, lookups, 0);
    let (outcome, calls) = tuple_dict_outcome(spec@, items@, Some((kwargs.size as int, lookups)));
    assert(!unstopped(spec@, items@.len(), lookups)) by {
        assert(lookups[k] is Raised);
    }
    match outcome {
        Ok(slots) => {
            law_tuple_dict_binds(spec@, items@, kwargs.size as int, lookups, slots);
        },
        Err(BindError::NamedAndPositional { index }) => {
            let j = index - spec@.pos_only;
            assert(stopped_at(spec@, items@.len(), lookups, j));
            assert(lookups[j] is Found);
            if j < k {
                assert(!(lookups[j] is Raised) && (lookups[j] is Found ==> spec@.pos_only + j
                    >= items@.len()));
            } else if k < j {
                assert(!(lookups[k] is Raised));
            }
        },
        _ => {},
    }
}

/// A binder ends with its slots exactly if every entry of the dict was found and
/// every required parameter has a value. The size of the dict changes nothing
/// else.
pub proof fn law_binder_ends(b: TupleDictBinder<'_>, r: PyResult<ArgSlots>, size: isize)
    requires
        b.wf(),
        b@.slots.len() == b@.spec.params.len(),
    ensures
        forall|ts: &mut ThreadState<'_>| #[trigger]
            call_ensures(TupleDictBinder::finish, (b, ts), r) ==> {
                &&& r is Ok <==> (b@.has_kwargs ==> b@.size == Some(b@.matched as int)) && forall|
                    i: int,
                |
                    0 <= i < b@.slots.len() && b@.spec.params[i].required ==> b@.slots[i] is Some
                &&& r matches Ok(s) ==> s@ == b@.slots && final(ts)@ == ts@
                &&& r is Err ==> type_error(ts@, final(ts)@)
            },
        forall|c: &mut TupleDictBinder<'_>| #[trigger]
            call_ensures(TupleDictBinder::dict_size, (c, size), ()) ==> final(c)@.size == Some(
                size as int,
            ) && final(c)@.slots == c@.slots && final(c)@.items == c@.items && final(c)@.param
                == c@.param && final(c)@.matched == c@.matched,
{
    lemma_missing_from(b@.spec, b@.slots, 0);
}

/// A Python string equals a C string exactly if it consists of the same ASCII
/// characters.
pub proof fn law_names_compared(text: &str, name: &CStr, yes: bool)
    requires
        call_ensures(unicode_eq_ascii, (text, name), yes),
    ensures
        yes <==> spelled(text@, name@),
{
    lemma_spelled(text@);
}

} // verus!
