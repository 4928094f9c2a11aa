//! Binding of call arguments to parameter slots.
//!
//! A function that is visible from Python has a [`ParamSpec`]. Its entry point
//! binds the incoming arguments with [`parse_fastcall`] (vectorcall functions
//! and methods) or with a [`TupleDictBinder`] (constructors). Each slot then
//! holds the address of a borrowed object, or `None` where the default
//! applies.

use vstd::prelude::*;
use vstd::string::*;
use vstd::utf8::*;
use crate::cstr::CStr;
use crate::err::{PyErrRaised, PyResult, PyTypeError};
use crate::instance::{Borrowed, Bound};
use crate::sys_calls::{unicode_eq_ascii, unicode_is_ascii_name};
use crate::text::{decimal, decimal_text, texts, until_nul};
use crate::threadstate::{ExcType, ThreadState, ThreadStateView};
use crate::types::PyAny;

pub mod call_laws;
pub mod laws;
pub mod tuple_dict;

pub use tuple_dict::{parse_tuple_dict, BindStep, DictLookup, KwargsReplies, TupleDictBinder};

verus! {

/// One parameter that is visible from Python.
#[derive(Debug)]
pub struct Param {
    /// Keyword name, also used in error messages.
    pub name: CStr,
    /// False if the parameter has a default.
    pub required: bool,
}

/// The signature of a function that is visible from Python.
#[derive(Debug)]
pub struct ParamSpec {
    /// Function name for error messages.
    pub fn_name: String,
    pub params: Vec<Param>,
    /// The first `pos_only` parameters are positional-only.
    pub pos_only: usize,
}

/// Bound argument slots: the address of a borrowed object per parameter,
/// `None` where the default applies.
pub type ArgSlots = Vec<Option<usize>>;

/// What a [`Param`] is.
pub ghost struct ParamView {
    pub name: Seq<u8>,
    pub required: bool,
}

/// What a [`ParamSpec`] is.
pub ghost struct ParamSpecView {
    pub fn_name: Seq<char>,
    pub params: Seq<ParamView>,
    pub pos_only: nat,
}

impl View for Param {
    type V = ParamView;

    open spec fn view(&self) -> ParamView {
        ParamView { name: self.name@, required: self.required }
    }
}

impl View for ParamSpec {
    type V = ParamSpecView;

    open spec fn view(&self) -> ParamSpecView {
        ParamSpecView {
            fn_name: self.fn_name@,
            params: self.params@.map_values(|p: Param| p@),
            pos_only: self.pos_only as nat,
        }
    }
}

impl ParamSpecView {
    /// The name of parameter `i` as an error message shows it.
    pub open spec fn label(self, i: int) -> Seq<char> {
        if valid_utf8(self.params[i].name) {
            decode_utf8(self.params[i].name)
        } else {
            "?"@
        }
    }

    /// The first parameter at or after `i` that the keyword `kw` names.
    pub open spec fn keyword_from(self, kw: Seq<char>, i: int) -> Option<int>
        decreases self.params.len() - i,
    {
        if i < 0 || i >= self.params.len() {
            None
        } else if unicode_is_ascii_name(kw, self.params[i].name) {
            Some(i)
        } else {
            self.keyword_from(kw, i + 1)
        }
    }

    /// The parameter that the keyword `kw` names. Positional-only parameters
    /// cannot be named.
    pub open spec fn keyword_index(self, kw: Seq<char>) -> Option<int> {
        self.keyword_from(kw, self.pos_only as int)
    }

    /// The first parameter at or after `i` that is required and has no value.
    pub open spec fn missing_from(self, slots: Seq<Option<usize>>, i: int) -> Option<int>
        decreases self.params.len() - i,
    {
        if i < 0 || i >= self.params.len() {
            None
        } else if self.params[i].required && slots[i] is None {
            Some(i)
        } else {
            self.missing_from(slots, i + 1)
        }
    }
}

/// Why arguments cannot be bound.
pub ghost enum BindError {
    TooMany { given: nat },
    NamedAndPositional { index: int },
    Unexpected,
    Missing { index: int },
    /// A call into the interpreter failed; its exception is pending.
    Interpreter,
}

/// The message of the `TypeError` for a binding error.
pub open spec fn bind_message(spec: ParamSpecView, e: BindError) -> Seq<char> {
    match e {
        BindError::TooMany { given } => {
            spec.fn_name + "() takes at most "@ + decimal(spec.params.len()) + " argument"@ + (
            if spec.params.len() == 1 {
                ""@
            } else {
                "s"@
            }) + " ("@ + decimal(given) + " given)"@
        },
        BindError::NamedAndPositional { index } => {
            "argument for "@ + spec.fn_name + "() given by name ('"@ + spec.label(index)
                + "') and position ("@ + decimal((index + 1) as nat) + ")"@
        },
        BindError::Unexpected => { spec.fn_name + "() got an unexpected keyword argument"@ },
        BindError::Missing { index } => {
            spec.fn_name + "() missing required argument '"@ + spec.label(index) + "' (pos "@
                + decimal((index + 1) as nat) + ")"@
        },
        BindError::Interpreter => Seq::empty(),
    }
}

/// What the thread state becomes when binding fails with `e`.
pub open spec fn bind_raised(
    ts: ThreadStateView,
    spec: ParamSpecView,
    e: BindError,
) -> ThreadStateView {
    if e is Interpreter {
        ts
    } else {
        ts.raised(ExcType::TypeError, until_nul(bind_message(spec, e)))
    }
}

/// `n` slots of which the first ones hold `values`.
pub open spec fn positional(n: nat, values: Seq<usize>) -> Seq<Option<usize>> {
    Seq::new(
        n,
        |i: int|
            if i < values.len() {
                Some(values[i])
            } else {
                None
            },
    )
}

/// `slots` after the keywords `names` with `values` were bound one by one.
pub open spec fn with_keywords(
    spec: ParamSpecView,
    slots: Seq<Option<usize>>,
    names: Seq<Seq<char>>,
    values: Seq<usize>,
) -> Result<Seq<Option<usize>>, BindError>
    decreases names.len(),
{
    if names.len() == 0 {
        Ok(slots)
    } else {
        match with_keywords(spec, slots, names.drop_last(), values) {
            Err(e) => Err(e),
            Ok(s) => match spec.keyword_index(names.last()) {
                None => Err(BindError::Unexpected),
                Some(i) => if s[i] is Some {
                    Err(BindError::NamedAndPositional { index: i })
                } else {
                    Ok(s.update(i, Some(values[names.len() - 1])))
                },
            },
        }
    }
}

/// `slots`, if every required parameter has a value.
pub open spec fn with_required(
    spec: ParamSpecView,
    slots: Seq<Option<usize>>,
) -> Result<Seq<Option<usize>>, BindError> {
    match spec.missing_from(slots, 0) {
        Some(index) => Err(BindError::Missing { index }),
        None => Ok(slots),
    }
}

/// How a vectorcall binds: `nargs` positional values, then one value per
/// keyword of `names`.
pub open spec fn fastcall_outcome(
    spec: ParamSpecView,
    args: Seq<usize>,
    nargs: nat,
    names: Seq<Seq<char>>,
) -> Result<Seq<Option<usize>>, BindError> {
    if nargs > spec.params.len() {
        Err(BindError::TooMany { given: nargs })
    } else {
        match with_keywords(
            spec,
            positional(spec.params.len(), args.take(nargs as int)),
            names,
            args.skip(nargs as int),
        ) {
            Err(e) => Err(e),
            Ok(slots) => with_required(spec, slots),
        }
    }
}

/// View a bound slot as a borrowed object.
pub fn arg_bound<'a, 'py>(slots: &'a ArgSlots, index: usize) -> (r: Option<
    Borrowed<'a, 'py, PyAny>,
>)
    requires
        index < slots@.len(),
        slots@[index as int] != Some(0usize),
    ensures
        r is Some <==> slots@[index as int] is Some,
        r matches Some(b) ==> slots@[index as int] == Some(b.addr()),
{
    match &slots[index] {
        Some(p) => Some(Bound::ref_from_ptr(p)),
        None => None,
    }
}

fn raise_type_error(ts: &mut ThreadState<'_>, msg: &str) -> (r: PyErrRaised)
    ensures
        final(ts)@ == old(ts)@.raised(ExcType::TypeError, until_nul(msg@)),
{
    PyTypeError::raise(ts, msg)
}

pub(crate) fn raise_too_many(ts: &mut ThreadState<'_>, spec: &ParamSpec, nargs: usize) -> (r: PyErrRaised)
    ensures
        final(ts)@ == bind_raised(old(ts)@, spec@, BindError::TooMany { given: nargs as nat }),
{
    let n: usize = spec.params.len();
    let mut msg = spec.fn_name.clone();
    msg.append("() takes at most ");
    msg.append(decimal_text(n).as_str());
    msg.append(" argument");
    msg.append(
        if n == 1 {
            ""
        } else {
            "s"
        },
    );
    msg.append(" (");
    msg.append(decimal_text(nargs).as_str());
    msg.append(" given)");
    raise_type_error(ts, msg.as_str())
}

fn param_label(spec: &ParamSpec, i: usize) -> (r: String)
    requires
        i < spec.params@.len(),
    ensures
        r@ == spec@.label(i as int),
{
    assert(spec@.params[i as int] == spec.params@[i as int]@);
    match spec.params[i].name.to_str() {
        Some(s) => s,
        None => "?".to_owned(),
    }
}

pub(crate) fn raise_named_and_positional(ts: &mut ThreadState<'_>, spec: &ParamSpec, i: usize) -> (r:
    PyErrRaised)
    requires
        i < spec.params@.len(),
    ensures
        final(ts)@ == bind_raised(
            old(ts)@,
            spec@,
            BindError::NamedAndPositional { index: i as int },
        ),
{
    let n: usize = spec.params.len();
    assert(i < n);
    let mut msg = "argument for ".to_owned();
    msg.append(spec.fn_name.as_str());
    msg.append("() given by name ('");
    msg.append(param_label(spec, i).as_str());
    msg.append("') and position (");
    msg.append(decimal_text(i + 1).as_str());
    msg.append(")");
    raise_type_error(ts, msg.as_str())
}

pub(crate) fn raise_unexpected(ts: &mut ThreadState<'_>, spec: &ParamSpec) -> (r: PyErrRaised)
    ensures
        final(ts)@ == bind_raised(old(ts)@, spec@, BindError::Unexpected),
{
    let mut msg = spec.fn_name.clone();
    msg.append("() got an unexpected keyword argument");
    raise_type_error(ts, msg.as_str())
}

/// Require a value for every parameter without a default.
pub fn check_required(ts: &mut ThreadState<'_>, spec: &ParamSpec, slots: &ArgSlots) -> (r:
    PyResult<()>)
    requires
        slots@.len() == spec.params@.len(),
    ensures
        match spec@.missing_from(slots@, 0) {
            None => r is Ok && final(ts)@ == old(ts)@,
            Some(index) => r is Err && final(ts)@ == bind_raised(
                old(ts)@,
                spec@,
                BindError::Missing { index },
            ),
        },
{
    let mut i: usize = 0;
    while i < spec.params.len()
        invariant
            i <= spec.params@.len(),
            slots@.len() == spec.params@.len(),
            spec@.missing_from(slots@, 0) == spec@.missing_from(slots@, i as int),
            ts@ == old(ts)@,
        decreases spec.params@.len() - i,
    {
        assert(spec@.params[i as int] == spec.params@[i as int]@);
        if spec.params[i].required && slots[i].is_none() {
            let mut msg = spec.fn_name.clone();
            msg.append("() missing required argument '");
            msg.append(param_label(spec, i).as_str());
            msg.append("' (pos ");
            msg.append(decimal_text(i + 1).as_str());
            msg.append(")");
            return Err(raise_type_error(ts, msg.as_str()));
        }
        i = i + 1;
    }
    Ok(())
}

/// All slots empty.
pub(crate) fn empty_slots(n: usize) -> (r: ArgSlots)
    ensures
        r@ == positional(n as nat, Seq::empty()),
{
    let mut slots: ArgSlots = Vec::new();
    let mut i: usize = 0;
    while i < n
        invariant
            i <= n,
            slots@ == positional(i as nat, Seq::empty()),
        decreases n - i,
    {
        slots.push(None);
        assert(slots@ =~= positional((i + 1) as nat, Seq::empty()));
        i = i + 1;
    }
    slots
}

/// The parameter that a keyword names.
fn find_keyword(spec: &ParamSpec, kw: &str) -> (r: Option<usize>)
    ensures
        match spec@.keyword_index(kw@) {
            Some(i) => r == Some(i as usize) && 0 <= i < spec.params@.len(),
            None => r is None,
        },
{
    let mut i: usize = spec.pos_only;
    while i < spec.params.len()
        invariant
            spec@.keyword_index(kw@) == spec@.keyword_from(kw@, i as int),
        decreases spec.params@.len() - i,
    {
        assert(spec@.params[i as int] == spec.params@[i as int]@);
        if unicode_eq_ascii(kw, &spec.params[i].name) {
            return Some(i);
        }
        i = i + 1;
    }
    None
}

/// Bind a vectorcall to parameter slots.
///
/// `args` holds the `nargs` positional values and then the value of each
/// keyword of `kwnames`, as the interpreter lays them out.
pub fn parse_fastcall(
    ts: &mut ThreadState<'_>,
    spec: &ParamSpec,
    args: &[usize],
    nargs: usize,
    kwnames: &[String],
) -> (r: PyResult<ArgSlots>)
    requires
        args@.len() == nargs + kwnames@.len(),
        forall|i: int| 0 <= i < args@.len() ==> args@[i] != 0,
    ensures
        match fastcall_outcome(spec@, args@, nargs as nat, texts(kwnames@)) {
            Ok(slots) => {
                &&& r matches Ok(s)
                &&& s@ == slots
                &&& final(ts)@ == old(ts)@
            },
            Err(e) => r is Err && final(ts)@ == bind_raised(old(ts)@, spec@, e),
        },
        r matches Ok(s) ==> s@.len() == spec.params@.len() && forall|i: int|
            0 <= i < s@.len() ==> s@[i] != Some(0usize),
{
    let n: usize = spec.params.len();
    if nargs > n {
        return Err(raise_too_many(ts, spec, nargs));
    }
    let mut slots: ArgSlots = empty_slots(n);
    let mut i: usize = 0;
    while i < nargs
        invariant
            i <= nargs <= n,
            nargs <= args@.len(),
            forall|j: int| 0 <= j < args@.len() ==> args@[j] != 0,
            slots@ == positional(n as nat, args@.take(i as int)),
        decreases nargs - i,
    {
        slots.set(i, Some(args[i]));
        assert(slots@ =~= positional(n as nat, args@.take(i + 1)));
        i = i + 1;
    }
    assert(slots@ =~= positional(n as nat, args@.take(nargs as int)));
    let ghost start = slots@;
    let ghost names = texts(kwnames@);
    let ghost values = args@.skip(nargs as int);
    let total: usize = args.len();
    let mut k: usize = 0;
    while k < kwnames.len()
        invariant
            k <= kwnames@.len(),
            total == args@.len(),
            args@.len() == nargs + kwnames@.len(),
            forall|j: int| 0 <= j < args@.len() ==> args@[j] != 0,
            names == texts(kwnames@),
            values == args@.skip(nargs as int),
            n == spec.params@.len(),
            nargs <= n,
            start == positional(n as nat, args@.take(nargs as int)),
            slots@.len() == n,
            forall|j: int| 0 <= j < slots@.len() ==> slots@[j] != Some(0usize),
            with_keywords(spec@, start, names.take(k as int), values) == Ok::<
                Seq<Option<usize>>,
                BindError,
            >(slots@),
            ts@ == old(ts)@,
        decreases kwnames@.len() - k,
    {
        proof {
            let next = names.take(k + 1);
            assert(next.drop_last() =~= names.take(k as int));
            assert(next.last() == kwnames@[k as int]@);
            assert(values[k as int] == args@[nargs + k]);
        }
        match find_keyword(spec, kwnames[k].as_str()) {
            Some(p) => {
                if slots[p].is_some() {
                    proof {
                        lemma_keyword_error(spec@, start, names, values, (k + 1) as nat);
                    }
                    return Err(raise_named_and_positional(ts, spec, p));
                }
                slots.set(p, Some(args[nargs + k]));
            },
            None => {
                proof {
                    lemma_keyword_error(spec@, start, names, values, (k + 1) as nat);
                }
                return Err(raise_unexpected(ts, spec));
            },
        }
        k = k + 1;
    }
    assert(names.take(k as int) =~= names);
    match check_required(ts, spec, &slots) {
        Ok(()) => Ok(slots),
        Err(e) => Err(e),
    }
}

/// The first keyword that cannot be bound decides.
proof fn lemma_keyword_error(
    spec: ParamSpecView,
    slots: Seq<Option<usize>>,
    names: Seq<Seq<char>>,
    values: Seq<usize>,
    k: nat,
)
    requires
        k <= names.len(),
        with_keywords(spec, slots, names.take(k as int), values) is Err,
    ensures
        with_keywords(spec, slots, names, values) == with_keywords(
            spec,
            slots,
            names.take(k as int),
            values,
        ),
    decreases names.len(),
{
    if k == names.len() {
        assert(names.take(k as int) =~= names);
    } else {
        assert(names.drop_last().take(k as int) =~= names.take(k as int));
        lemma_keyword_error(spec, slots, names.drop_last(), values, k);
    }
}

} // verus!
