//! The laws the compiled artifacts obey: ordering of parameters in every
//! compiled signature, well-formedness of every compiled binding, and the
//! round trip from a typed command value through a canonical call and back.

use vstd::prelude::*;
use crate::call::BoundArgModel;
use crate::call::BoundModel;
use crate::call::CallErrorModel;
use crate::call::FlagModel;
use crate::call::ParsedModel;
use crate::call::RawModel;
use crate::call::bind_steps;
use crate::call::binding_lookup_from;
use crate::call::flag_value;
use crate::call::flag_value_from;
use crate::call::parse_spec;
use crate::compile::BindOp;
use crate::compile::BindingModel;
use crate::compile::CompiledModel;
use crate::compile::StepModel;
use crate::schema::ArgType;
use crate::schema::VariantModel;
use crate::compile::compiled_schema_spec;
use crate::compile::compiled_variant;
use crate::compile::schema_state_at;
use crate::compile::variant_state_at;
use crate::descriptor::ParamModel;
use crate::descriptor::ParamRole;

verus! {

/// Every required positional parameter precedes every parameter of any
/// other role.
pub open spec fn params_ordered(params: Seq<ParamModel>) -> bool {
    forall|i: int, j: int|
        0 <= i < j < params.len() && params[j].role == ParamRole::RequiredPositional
            ==> params[i].role == ParamRole::RequiredPositional
}

/// Every parameter is a required positional.
pub open spec fn all_required(params: Seq<ParamModel>) -> bool {
    forall|i: int| 0 <= i < params.len() ==> params[i].role == ParamRole::RequiredPositional
}

/// The variant compiler's state keeps its parameters ordered while no
/// error has been found, and until a non-required field is seen every
/// parameter is a required positional.
proof fn lemma_variant_state_ordered(v: VariantModel, n: int)
    requires
        0 <= n,
    ensures
        ({
            let st = variant_state_at(v, n);
            st.errors.len() == 0 ==> {
                &&& params_ordered(st.params)
                &&& !st.seen_non_required ==> all_required(st.params)
            }
        }),
    decreases n,
{
    if n > 0 {
        lemma_variant_state_ordered(v, n - 1);
        let st = variant_state_at(v, n - 1);
        let st2 = variant_state_at(v, n);
        if st2.errors.len() == 0 {
            assert(st.errors.len() == 0);
            if st2.params != st.params {
                assert(st2.params.len() == st.params.len() + 1);
                assert(forall|i: int|
                    0 <= i < st.params.len() ==> st2.params[i] == st.params[i]);
            }
        }
    }
}

/// Ordering law: in every signature of a compiled schema, every
/// required-positional parameter appears before every optional-positional,
/// switch, and named-value-flag parameter.
pub proof fn lemma_signatures_ordered(vs: Seq<VariantModel>, c: CompiledModel, k: int)
    requires
        compiled_schema_spec(vs) == Result::<CompiledModel, Seq<crate::schema::SchemaErrorModel>>::Ok(c),
        0 <= k < c.signatures.len(),
    ensures
        params_ordered(c.signatures[k].params),
{
    lemma_schema_state_ordered(vs, vs.len() as int);
}

/// Every signature the schema compiler has aggregated so far has ordered
/// parameters.
proof fn lemma_schema_state_ordered(vs: Seq<VariantModel>, n: int)
    requires
        0 <= n,
    ensures
        ({
            let st = schema_state_at(vs, n);
            forall|k: int|
                0 <= k < st.signatures.len() ==> #[trigger] params_ordered(st.signatures[k].params)
        }),
    decreases n,
{
    if n > 0 {
        lemma_schema_state_ordered(vs, n - 1);
        let st = schema_state_at(vs, n - 1);
        let st2 = schema_state_at(vs, n);
        let v = vs[n - 1];
        if st2.signatures != st.signatures {
            let sb = compiled_variant(v)->Ok_0;
            lemma_variant_state_ordered(v, v.fields.len() as int);
            assert(st2.signatures == st.signatures.push(sb.0));
            assert(params_ordered(sb.0.params));
            assert(forall|k: int|
                0 <= k < st.signatures.len() ==> st2.signatures[k] == st.signatures[k]);
        }
    }
}

// ---------------------------------------------------------------------
// Well-formedness of compiled bindings.
// ---------------------------------------------------------------------

/// Whether a binding operation reads a positional value.
pub open spec fn is_positional(op: BindOp) -> bool {
    match op {
        BindOp::ReqPositional { .. } => true,
        BindOp::OptPositional { .. } => true,
        _ => false,
    }
}

/// Whether a binding operation reads a named flag.
pub open spec fn is_flag_step(op: BindOp) -> bool {
    match op {
        BindOp::Switch => true,
        BindOp::NamedValue { .. } => true,
        _ => false,
    }
}

/// How many of the first `n` steps read a positional value.
pub open spec fn pos_count(steps: Seq<StepModel>, n: int) -> int
    decreases n,
{
    if n <= 0 {
        0
    } else {
        pos_count(steps, n - 1) + if is_positional(steps[n - 1].op) {
            1int
        } else {
            0int
        }
    }
}

/// Whether the step at position `i` reads the slot numbered by how many
/// positional steps precede it.
pub open spec fn step_index_ok(steps: Seq<StepModel>, i: int) -> bool {
    match steps[i].op {
        BindOp::ReqPositional { ty: _, index } => index as int == pos_count(steps, i),
        BindOp::OptPositional { ty: _, index } => index as int == pos_count(steps, i),
        _ => true,
    }
}

/// Every positional step reads the slot numbered by how many positional
/// steps precede it.
pub open spec fn steps_indexed(steps: Seq<StepModel>) -> bool {
    forall|i: int| 0 <= i < steps.len() ==> #[trigger] step_index_ok(steps, i)
}

/// Every required-positional step precedes every other step.
pub open spec fn steps_ordered(steps: Seq<StepModel>) -> bool {
    forall|i: int, j: int|
        0 <= i < j < steps.len() && is_required_step(#[trigger] steps[j].op)
            ==> is_required_step(#[trigger] steps[i].op)
}

pub open spec fn is_required_step(op: BindOp) -> bool {
    match op {
        BindOp::ReqPositional { .. } => true,
        _ => false,
    }
}

pub open spec fn all_required_steps(steps: Seq<StepModel>) -> bool {
    forall|i: int| 0 <= i < steps.len() ==> is_required_step(#[trigger] steps[i].op)
}

/// No two flag steps share a field name.
pub open spec fn distinct_flag_names(steps: Seq<StepModel>) -> bool {
    forall|i: int, j: int|
        0 <= i < j < steps.len() && is_flag_step(#[trigger] steps[i].op) && is_flag_step(
            #[trigger] steps[j].op,
        ) ==> steps[i].field != steps[j].field
}

/// Counting positional steps only reads the prefix, so a push beyond it
/// changes nothing.
proof fn lemma_pos_count_push(steps: Seq<StepModel>, x: StepModel, n: int)
    requires
        0 <= n <= steps.len(),
    ensures
        pos_count(steps.push(x), n) == pos_count(steps, n),
    decreases n,
{
    if n > 0 {
        lemma_pos_count_push(steps, x, n - 1);
    }
}

/// While no error has been found, the variant compiler's binding steps are
/// indexed consecutively and keep every required positional first, and its
/// next free slot equals the number of positional steps built.
proof fn lemma_variant_steps_wf(v: VariantModel, n: int)
    requires
        0 <= n <= usize::MAX,
    ensures
        ({
            let st = variant_state_at(v, n);
            st.errors.len() == 0 ==> {
                &&& steps_indexed(st.steps)
                &&& steps_ordered(st.steps)
                &&& st.next_index == pos_count(st.steps, st.steps.len() as int)
                &&& !st.seen_non_required ==> all_required_steps(st.steps)
            }
        }),
    decreases n,
{
    if n > 0 {
        lemma_variant_steps_wf(v, n - 1);
        crate::compile::lemma_variant_index_bound(v, n - 1);
        let st = variant_state_at(v, n - 1);
        let st2 = variant_state_at(v, n);
        if st2.errors.len() == 0 {
            assert(st.errors.len() == 0);
            if st2.steps != st.steps {
                let x = st2.steps[st2.steps.len() - 1];
                assert(st2.steps == st.steps.push(x));
                assert(forall|i: int|
                    0 <= i < st.steps.len() ==> st2.steps[i] == st.steps[i]);
                assert forall|i: int| 0 <= i <= st.steps.len() implies pos_count(
                    st2.steps,
                    i,
                ) == pos_count(st.steps, i) by {
                    lemma_pos_count_push(st.steps, x, i);
                }
                assert forall|i: int| 0 <= i < st2.steps.len() implies #[trigger] step_index_ok(
                    st2.steps,
                    i,
                ) by {
                    if i < st.steps.len() {
                        assert(step_index_ok(st.steps, i));
                        assert(st2.steps[i] == st.steps[i]);
                        assert(pos_count(st2.steps, i) == pos_count(st.steps, i));
                    } else {
                        assert(st2.steps[i] == x);
                        assert(pos_count(st2.steps, i) == pos_count(st.steps, i));
                    }
                }
            }
        }
    }
}

/// While no error has been found, every binding the schema compiler has
/// aggregated is well-formed, the bindings' command names are pairwise
/// distinct, and each is recorded in the set of names seen.
proof fn lemma_schema_state_bindings(vs: Seq<VariantModel>, n: int)
    requires
        0 <= n <= vs.len(),
        forall|m: int| 0 <= m < vs.len() ==> (#[trigger] vs[m]).fields.len() <= usize::MAX,
    ensures
        ({
            let st = schema_state_at(vs, n);
            st.errors.len() == 0 ==> {
                &&& forall|k: int|
                    0 <= k < st.bindings.len() ==> steps_indexed(
                        (#[trigger] st.bindings[k]).steps,
                    ) && steps_ordered(st.bindings[k].steps)
                &&& forall|k1: int, k2: int|
                    0 <= k1 < k2 < st.bindings.len() ==> (#[trigger] st.bindings[k1]).name != (
                    #[trigger] st.bindings[k2]).name
                &&& forall|k: int|
                    0 <= k < st.bindings.len() ==> st.names.contains(
                        (#[trigger] st.bindings[k]).name,
                    )
            }
        }),
    decreases n,
{
    if n > 0 {
        lemma_schema_state_bindings(vs, n - 1);
        let st = schema_state_at(vs, n - 1);
        let st2 = schema_state_at(vs, n);
        let v = vs[n - 1];
        if st2.errors.len() == 0 {
            assert(st.errors.len() == 0);
            if st2.bindings != st.bindings {
                let sb = compiled_variant(v)->Ok_0;
                lemma_variant_steps_wf(v, v.fields.len() as int);
                crate::compile::lemma_variant_errors_grow(v, v.fields.len() as int);
                assert(st2.bindings == st.bindings.push(sb.1));
                assert(steps_indexed(sb.1.steps) && steps_ordered(sb.1.steps));
                assert(forall|k: int|
                    0 <= k < st.bindings.len() ==> st2.bindings[k] == st.bindings[k]);
                // The new binding's name was not seen before, else a
                // duplicate-name error would have been recorded.
                assert(v.name is Some);
                let nm = v.name->0;
                assert(sb.1.name == nm);
                assert(!st.names.contains(nm));
                assert(st2.names == st.names.push(nm));
                assert(st2.names.contains(nm)) by {
                    assert(st2.names[st.names.len() as int] == nm);
                }
                assert(forall|x: Seq<char>|
                    st.names.contains(x) ==> #[trigger] st2.names.contains(x)) by {
                    assert forall|x: Seq<char>| st.names.contains(x) implies st2.names.contains(
                        x,
                    ) by {
                        let w = choose|w: int| 0 <= w < st.names.len() && st.names[w] == x;
                        assert(st2.names[w] == x);
                    }
                }
            } else {
                assert(forall|x: Seq<char>|
                    st.names.contains(x) ==> #[trigger] st2.names.contains(x)) by {
                    assert forall|x: Seq<char>| st.names.contains(x) implies st2.names.contains(
                        x,
                    ) by {
                        let w = choose|w: int| 0 <= w < st.names.len() && st.names[w] == x;
                        if st2.names != st.names {
                            assert(st2.names[w] == x);
                        }
                    }
                }
            }
        }
    }
}

/// Well-formedness law: in a compiled schema every binding's steps are
/// indexed consecutively, keep required positionals first, and the
/// bindings' command names are pairwise distinct.
pub proof fn lemma_bindings_wf(vs: Seq<VariantModel>, c: CompiledModel, k: int)
    requires
        compiled_schema_spec(vs) == Result::<
            CompiledModel,
            Seq<crate::schema::SchemaErrorModel>,
        >::Ok(c),
        forall|m: int| 0 <= m < vs.len() ==> (#[trigger] vs[m]).fields.len() <= usize::MAX,
        0 <= k < c.bindings.len(),
    ensures
        steps_indexed(c.bindings[k].steps),
        steps_ordered(c.bindings[k].steps),
        forall|k2: int|
            0 <= k2 < c.bindings.len() && k2 != k ==> (#[trigger] c.bindings[k2]).name != c.bindings[k].name,
{
    lemma_schema_state_bindings(vs, vs.len() as int);
}

/// The schema compiler appends a signature and a binding together, under
/// the variant's command name.
proof fn lemma_schema_state_sync(vs: Seq<VariantModel>, n: int)
    requires
        0 <= n,
    ensures
        ({
            let st = schema_state_at(vs, n);
            &&& st.signatures.len() == st.bindings.len()
            &&& forall|k: int|
                0 <= k < st.signatures.len() ==> (#[trigger] st.signatures[k]).name
                    == st.bindings[k].name
        }),
    decreases n,
{
    if n > 0 {
        lemma_schema_state_sync(vs, n - 1);
        let st = schema_state_at(vs, n - 1);
        let st2 = schema_state_at(vs, n);
        if st2.signatures != st.signatures {
            assert(forall|k: int|
                0 <= k < st.signatures.len() ==> st2.signatures[k] == st.signatures[k]
                    && st2.bindings[k] == st.bindings[k]);
        }
    }
}

/// Synchronization law: a compiled schema holds one binding per signature,
/// in the same order, under the same command name.
pub proof fn lemma_artifacts_synchronized(vs: Seq<VariantModel>, c: CompiledModel)
    requires
        compiled_schema_spec(vs) == Result::<
            CompiledModel,
            Seq<crate::schema::SchemaErrorModel>,
        >::Ok(c),
    ensures
        c.signatures.len() == c.bindings.len(),
        forall|k: int|
            0 <= k < c.signatures.len() ==> (#[trigger] c.signatures[k]).name
                == c.bindings[k].name,
{
    lemma_schema_state_sync(vs, vs.len() as int);
}

// ---------------------------------------------------------------------
// The canonical call of a typed command value, and the round trip.
// ---------------------------------------------------------------------

/// Whether a bound argument has the type and presence its binding step
/// declares.
pub open spec fn arg_conforms(step: StepModel, arg: BoundArgModel) -> bool {
    arg.name == step.field && match step.op {
        BindOp::ReqPositional { ty, index: _ } => match ty {
            ArgType::String => arg.value is Str,
            ArgType::Bool => arg.value is Bool,
        },
        BindOp::OptPositional { ty, index: _ } => match ty {
            ArgType::String => arg.value is MaybeStr,
            ArgType::Bool => arg.value is MaybeBool,
        },
        BindOp::Switch => arg.value is Bool,
        BindOp::NamedValue { ty } => match ty {
            ArgType::String => arg.value is MaybeStr,
            ArgType::Bool => arg.value is MaybeBool,
        },
    }
}

/// Whether a whole argument list matches a binding's steps, one for one.
pub open spec fn args_conform(steps: Seq<StepModel>, args: Seq<BoundArgModel>) -> bool {
    args.len() == steps.len() && forall|i: int|
        0 <= i < steps.len() ==> arg_conforms(steps[i], #[trigger] args[i])
}

/// Whether an argument supplies a positional value in the canonical call:
/// required positionals always do, optional positionals when present.
pub open spec fn contributes(step: StepModel, arg: BoundArgModel) -> bool {
    match step.op {
        BindOp::ReqPositional { .. } => true,
        BindOp::OptPositional { .. } => match arg.value {
            BoundModel::MaybeStr(Option::Some(_)) => true,
            BoundModel::MaybeBool(Option::Some(_)) => true,
            _ => false,
        },
        _ => false,
    }
}

/// The raw value a present bound value came from.
pub open spec fn raw_of(v: BoundModel) -> RawModel {
    match v {
        BoundModel::Str(s) => RawModel::Str(s),
        BoundModel::Bool(b) => RawModel::Bool(b),
        BoundModel::MaybeStr(Option::Some(s)) => RawModel::Str(s),
        BoundModel::MaybeBool(Option::Some(b)) => RawModel::Bool(b),
        BoundModel::MaybeStr(Option::None) => RawModel::Bool(false),
        BoundModel::MaybeBool(Option::None) => RawModel::Bool(false),
    }
}

/// The canonical positional values of a typed command value: the present
/// positional arguments, in declaration order.
pub open spec fn canon_pos(steps: Seq<StepModel>, args: Seq<BoundArgModel>, n: int) -> Seq<
    RawModel,
>
    decreases n,
{
    if n <= 0 {
        Seq::empty()
    } else {
        let rest = canon_pos(steps, args, n - 1);
        if contributes(steps[n - 1], args[n - 1]) {
            rest.push(raw_of(args[n - 1].value))
        } else {
            rest
        }
    }
}

/// How many of the first `n` arguments contribute a positional value.
pub open spec fn contrib_count(steps: Seq<StepModel>, args: Seq<BoundArgModel>, n: int) -> int
    decreases n,
{
    if n <= 0 {
        0
    } else {
        contrib_count(steps, args, n - 1) + if contributes(steps[n - 1], args[n - 1]) {
            1int
        } else {
            0int
        }
    }
}

/// The canonical flag a bound argument supplies, if any: switches always,
/// with their value; named-value flags only when present.
pub open spec fn flag_entry(step: StepModel, arg: BoundArgModel) -> Option<FlagModel> {
    match step.op {
        BindOp::Switch => match arg.value {
            BoundModel::Bool(b) => Option::Some(
                FlagModel { name: step.field, value: Option::Some(RawModel::Bool(b)) },
            ),
            _ => Option::None,
        },
        BindOp::NamedValue { .. } => match arg.value {
            BoundModel::MaybeStr(Option::Some(s)) => Option::Some(
                FlagModel { name: step.field, value: Option::Some(RawModel::Str(s)) },
            ),
            BoundModel::MaybeBool(Option::Some(b)) => Option::Some(
                FlagModel { name: step.field, value: Option::Some(RawModel::Bool(b)) },
            ),
            _ => Option::None,
        },
        _ => Option::None,
    }
}

/// The canonical flags of a typed command value, in declaration order.
pub open spec fn canon_flags(steps: Seq<StepModel>, args: Seq<BoundArgModel>, n: int) -> Seq<
    FlagModel,
>
    decreases n,
{
    if n <= 0 {
        Seq::empty()
    } else {
        let rest = canon_flags(steps, args, n - 1);
        match flag_entry(steps[n - 1], args[n - 1]) {
            Option::Some(e) => rest.push(e),
            Option::None => rest,
        }
    }
}

/// Once an optional positional is absent, every later optional positional
/// is absent too; a call cannot supply a later positional slot without the
/// earlier ones.
pub open spec fn opt_prefix_present(steps: Seq<StepModel>, args: Seq<BoundArgModel>) -> bool {
    forall|i: int, j: int|
        0 <= i < j < steps.len() && is_positional(#[trigger] steps[i].op) && !is_required_step(
            steps[i].op,
        ) && is_positional(#[trigger] steps[j].op) && !is_required_step(steps[j].op)
            && !contributes(steps[i], args[i]) ==> !contributes(steps[j], args[j])
}

proof fn lemma_canon_pos_len(steps: Seq<StepModel>, args: Seq<BoundArgModel>, n: int)
    requires
        0 <= n,
    ensures
        canon_pos(steps, args, n).len() == contrib_count(steps, args, n),
        contrib_count(steps, args, n) >= 0,
    decreases n,
{
    if n > 0 {
        lemma_canon_pos_len(steps, args, n - 1);
    }
}

proof fn lemma_contrib_le_pos(steps: Seq<StepModel>, args: Seq<BoundArgModel>, n: int)
    requires
        0 <= n,
    ensures
        contrib_count(steps, args, n) <= pos_count(steps, n),
    decreases n,
{
    if n > 0 {
        lemma_contrib_le_pos(steps, args, n - 1);
    }
}

proof fn lemma_canon_pos_prefix(steps: Seq<StepModel>, args: Seq<BoundArgModel>, n1: int, n2: int)
    requires
        0 <= n1 <= n2,
    ensures
        canon_pos(steps, args, n1).len() <= canon_pos(steps, args, n2).len(),
        forall|i: int|
            0 <= i < canon_pos(steps, args, n1).len() ==> #[trigger] canon_pos(steps, args, n2)[i]
                == canon_pos(steps, args, n1)[i],
    decreases n2 - n1,
{
    if n2 > n1 {
        lemma_canon_pos_prefix(steps, args, n1, n2 - 1);
    }
}

/// Every positional step before a contributing one contributes itself.
proof fn lemma_all_before_contribute(steps: Seq<StepModel>, args: Seq<BoundArgModel>, i: int)
    requires
        steps_ordered(steps),
        opt_prefix_present(steps, args),
        0 <= i < steps.len(),
        contributes(steps[i], args[i]),
    ensures
        forall|j: int|
            0 <= j < i && is_positional(#[trigger] steps[j].op) ==> contributes(
                steps[j],
                args[j],
            ),
{
    assert forall|j: int| 0 <= j < i && is_positional(#[trigger] steps[j].op) implies contributes(
        steps[j],
        args[j],
    ) by {
        if !is_required_step(steps[j].op) {
            assert(!is_required_step(steps[i].op));
            assert(is_positional(steps[i].op));
        }
    }
}

proof fn lemma_counts_equal(steps: Seq<StepModel>, args: Seq<BoundArgModel>, n: int)
    requires
        0 <= n <= steps.len(),
        forall|j: int|
            0 <= j < n && is_positional(#[trigger] steps[j].op) ==> contributes(
                steps[j],
                args[j],
            ),
    ensures
        contrib_count(steps, args, n) == pos_count(steps, n),
    decreases n,
{
    if n > 0 {
        lemma_counts_equal(steps, args, n - 1);
    }
}

/// A contributing argument's value sits in the canonical positional list
/// at exactly the slot its step reads.
proof fn lemma_canon_pos_at(steps: Seq<StepModel>, args: Seq<BoundArgModel>, i: int, n: int)
    requires
        0 <= i < n,
        contributes(steps[i], args[i]),
    ensures
        contrib_count(steps, args, i) < canon_pos(steps, args, n).len(),
        canon_pos(steps, args, n)[contrib_count(steps, args, i)] == raw_of(args[i].value),
{
    lemma_canon_pos_len(steps, args, i);
    lemma_canon_pos_len(steps, args, i + 1);
    assert(canon_pos(steps, args, i + 1) == canon_pos(steps, args, i).push(
        raw_of(args[i].value),
    ));
    lemma_canon_pos_prefix(steps, args, i + 1, n);
}

/// After an absent optional positional, no later step contributes, so the
/// canonical positional list stops growing.
proof fn lemma_contrib_stable(steps: Seq<StepModel>, args: Seq<BoundArgModel>, i: int, n: int)
    requires
        steps_ordered(steps),
        opt_prefix_present(steps, args),
        0 <= i <= n <= steps.len(),
        is_positional(steps[i].op),
        !is_required_step(steps[i].op),
        !contributes(steps[i], args[i]),
    ensures
        contrib_count(steps, args, n) == contrib_count(steps, args, i),
    decreases n - i,
{
    if n > i {
        lemma_contrib_stable(steps, args, i, n - 1);
        if contributes(steps[n - 1], args[n - 1]) {
            assert(is_positional(steps[n - 1].op));
            if n - 1 > i {
                if is_required_step(steps[n - 1].op) {
                    assert(is_required_step(steps[i].op));
                }
                assert(false);
            }
        }
    }
}

proof fn lemma_flag_value_push(s: Seq<FlagModel>, e: FlagModel, name: Seq<char>, k: int)
    requires
        0 <= k <= s.len(),
    ensures
        flag_value_from(s.push(e), name, k) == match flag_value_from(s, name, k) {
            Option::Some(v) => Option::Some(v),
            Option::None => if e.name == name {
                Option::Some(e.value)
            } else {
                Option::None
            },
        },
    decreases s.len() - k,
{
    if k < s.len() {
        lemma_flag_value_push(s, e, name, k + 1);
    } else {
        assert(flag_value_from(s.push(e), name, k + 1) is None);
    }
}

/// A name no flag step of the prefix carries is not found among its
/// canonical flags.
proof fn lemma_flag_absent(
    steps: Seq<StepModel>,
    args: Seq<BoundArgModel>,
    n: int,
    name: Seq<char>,
)
    requires
        0 <= n <= steps.len(),
        forall|j: int|
            0 <= j < n && is_flag_step(#[trigger] steps[j].op) ==> steps[j].field != name,
    ensures
        flag_value(canon_flags(steps, args, n), name) is None,
    decreases n,
{
    if n > 0 {
        lemma_flag_absent(steps, args, n - 1, name);
        match flag_entry(steps[n - 1], args[n - 1]) {
            Option::Some(e) => {
                assert(is_flag_step(steps[n - 1].op));
                assert(e.name == steps[n - 1].field);
                lemma_flag_value_push(canon_flags(steps, args, n - 1), e, name, 0);
            },
            Option::None => {},
        }
    }
}

/// Looking a flag step's field up among the canonical flags finds exactly
/// that step's canonical entry.
proof fn lemma_flag_lookup(steps: Seq<StepModel>, args: Seq<BoundArgModel>, n: int, i: int)
    requires
        distinct_flag_names(steps),
        0 <= i < n <= steps.len(),
        is_flag_step(steps[i].op),
    ensures
        flag_value(canon_flags(steps, args, n), steps[i].field) == match flag_entry(
            steps[i],
            args[i],
        ) {
            Option::Some(e) => Option::Some(e.value),
            Option::None => Option::<Option<RawModel>>::None,
        },
    decreases n,
{
    if n == i + 1 {
        lemma_flag_absent(steps, args, i, steps[i].field);
        match flag_entry(steps[i], args[i]) {
            Option::Some(e) => {
                lemma_flag_value_push(canon_flags(steps, args, i), e, steps[i].field, 0);
            },
            Option::None => {},
        }
    } else {
        lemma_flag_lookup(steps, args, n - 1, i);
        match flag_entry(steps[n - 1], args[n - 1]) {
            Option::Some(e) => {
                assert(is_flag_step(steps[n - 1].op));
                assert(e.name == steps[n - 1].field);
                assert(e.name != steps[i].field);
                lemma_flag_value_push(canon_flags(steps, args, n - 1), e, steps[i].field, 0);
            },
            Option::None => {},
        }
    }
}

/// No binding from position `j` on carries the name, so the lookup finds
/// nothing.
proof fn lemma_lookup_none(bindings: Seq<BindingModel>, name: Seq<char>, j: int)
    requires
        0 <= j,
        forall|k: int| j <= k < bindings.len() ==> (#[trigger] bindings[k]).name != name,
    ensures
        binding_lookup_from(bindings, name, j) is None,
    decreases bindings.len() - j,
{
    if j < bindings.len() {
        lemma_lookup_none(bindings, name, j + 1);
    }
}

/// Unknown-name law: a call whose name no variant of the compiled schema
/// declares parses to the unknown-command-name error — a reported error,
/// whatever the positional and flag values, never an abort.
pub proof fn lemma_unknown_name(
    c: CompiledModel,
    name: Seq<char>,
    pos: Seq<RawModel>,
    flags: Seq<FlagModel>,
)
    requires
        forall|k: int| 0 <= k < c.bindings.len() ==> (#[trigger] c.bindings[k]).name != name,
    ensures
        parse_spec(c, name, pos, flags) == Result::<ParsedModel, CallErrorModel>::Err(
            CallErrorModel::UnknownCommandName,
        ),
{
    lemma_lookup_none(c.bindings, name, 0);
}

/// The schema compiler's error list only grows as variants are walked.
proof fn lemma_schema_errors_grow(vs: Seq<VariantModel>, n1: int, n2: int)
    requires
        0 <= n1 <= n2,
    ensures
        schema_state_at(vs, n1).errors.len() <= schema_state_at(vs, n2).errors.len(),
    decreases n2 - n1,
{
    if n2 > n1 {
        lemma_schema_errors_grow(vs, n1, n2 - 1);
    }
}

/// Every command name declared among the first `n` variants has been
/// recorded in the names seen.
proof fn lemma_names_collected(vs: Seq<VariantModel>, n: int, i: int)
    requires
        0 <= i < n,
        vs[i].name is Some,
    ensures
        schema_state_at(vs, n).names.contains(vs[i].name->0),
    decreases n,
{
    let st = schema_state_at(vs, n - 1);
    let st2 = schema_state_at(vs, n);
    let nm = vs[i].name->0;
    if i == n - 1 {
        assert(st2.names == st.names.push(nm));
        assert(st2.names[st.names.len() as int] == nm);
    } else {
        lemma_names_collected(vs, n - 1, i);
        let w = choose|w: int| 0 <= w < st.names.len() && st.names[w] == nm;
        if st2.names != st.names {
            assert(st2.names[w] == nm);
        }
    }
}

/// Duplicate-name law: a schema in which two variants declare the same
/// command name fails compilation — no artifact is produced, and in
/// particular no definition silently overwrites the other.
pub proof fn lemma_duplicate_names_rejected(vs: Seq<VariantModel>, i: int, j: int)
    requires
        0 <= i < j < vs.len(),
        vs[i].name is Some,
        vs[i].name == vs[j].name,
    ensures
        compiled_schema_spec(vs) is Err,
{
    lemma_names_collected(vs, j, i);
    let st = schema_state_at(vs, j);
    let st2 = schema_state_at(vs, j + 1);
    assert(st2.errors.len() > 0);
    lemma_schema_errors_grow(vs, j + 1, vs.len() as int);
}

/// Binding the canonical call of a typed command value recovers the value,
/// step by step.
proof fn lemma_bind_canonical(steps: Seq<StepModel>, args: Seq<BoundArgModel>, n: int)
    requires
        steps_indexed(steps),
        steps_ordered(steps),
        distinct_flag_names(steps),
        args_conform(steps, args),
        opt_prefix_present(steps, args),
        0 <= n <= steps.len(),
    ensures
        bind_steps(
            steps,
            canon_pos(steps, args, steps.len() as int),
            canon_flags(steps, args, steps.len() as int),
            n,
        ) == Result::<Seq<BoundArgModel>, CallErrorModel>::Ok(args.take(n)),
    decreases n,
{
    let len = steps.len() as int;
    let pos = canon_pos(steps, args, len);
    let flags = canon_flags(steps, args, len);
    if n == 0 {
        assert(args.take(0) =~= Seq::<BoundArgModel>::empty());
    } else {
        lemma_bind_canonical(steps, args, n - 1);
        let i = n - 1;
        let step = steps[i];
        let arg = args[i];
        assert(arg_conforms(step, arg));
        match step.op {
            BindOp::ReqPositional { ty: _, index } => {
                assert(step_index_ok(steps, i));
                lemma_all_before_contribute(steps, args, i);
                lemma_counts_equal(steps, args, i);
                lemma_canon_pos_at(steps, args, i, len);
                assert(pos[index as int] == raw_of(arg.value));
            },
            BindOp::OptPositional { ty: _, index } => {
                assert(step_index_ok(steps, i));
                if contributes(step, arg) {
                    lemma_all_before_contribute(steps, args, i);
                    lemma_counts_equal(steps, args, i);
                    lemma_canon_pos_at(steps, args, i, len);
                    assert(pos[index as int] == raw_of(arg.value));
                } else {
                    lemma_contrib_le_pos(steps, args, i);
                    lemma_contrib_stable(steps, args, i, len);
                    lemma_canon_pos_len(steps, args, len);
                    assert(pos.len() <= index as int);
                }
            },
            BindOp::Switch => {
                lemma_flag_lookup(steps, args, len, i);
            },
            BindOp::NamedValue { ty: _ } => {
                lemma_flag_lookup(steps, args, len, i);
            },
        }
        assert(args.take(n) =~= args.take(n - 1).push(arg));
    }
}

/// A binding with pairwise-distinct command names is found by its own
/// name.
proof fn lemma_lookup_self(bindings: Seq<BindingModel>, k: int, j: int)
    requires
        0 <= j <= k < bindings.len(),
        forall|k2: int|
            0 <= k2 < bindings.len() && k2 != k ==> (#[trigger] bindings[k2]).name
                != bindings[k].name,
    ensures
        binding_lookup_from(bindings, bindings[k].name, j) == Option::Some(bindings[k]),
    decreases bindings.len() - j,
{
    if j < k {
        lemma_lookup_self(bindings, k, j + 1);
    }
}

/// Round-trip law: for every variant of a compiled schema whose flag
/// fields carry distinct names, parsing the canonical call of a typed
/// command value recovers exactly that value.
///
/// The value must be realizable as a call: once one of its optional
/// positionals is absent, the later ones must be absent too, since a call
/// cannot supply a positional slot without the slots before it.
pub proof fn lemma_round_trip(
    vs: Seq<VariantModel>,
    c: CompiledModel,
    k: int,
    args: Seq<BoundArgModel>,
)
    requires
        compiled_schema_spec(vs) == Result::<
            CompiledModel,
            Seq<crate::schema::SchemaErrorModel>,
        >::Ok(c),
        forall|m: int| 0 <= m < vs.len() ==> (#[trigger] vs[m]).fields.len() <= usize::MAX,
        0 <= k < c.bindings.len(),
        distinct_flag_names(c.bindings[k].steps),
        args_conform(c.bindings[k].steps, args),
        opt_prefix_present(c.bindings[k].steps, args),
    ensures
        ({
            let b = c.bindings[k];
            let n = b.steps.len() as int;
            parse_spec(
                c,
                b.name,
                canon_pos(b.steps, args, n),
                canon_flags(b.steps, args, n),
            ) == Result::<ParsedModel, CallErrorModel>::Ok(ParsedModel { name: b.name, args })
        }),
{
    let b = c.bindings[k];
    let n = b.steps.len() as int;
    lemma_bindings_wf(vs, c, k);
    lemma_lookup_self(c.bindings, k, 0);
    lemma_bind_canonical(b.steps, args, n);
    assert(args.take(n) =~= args);
}

} // verus!
