//! What holds of how the arguments of handlers are found, and of how functions are wrapped.

use crate::data::{both, collected_pairs, kv_pair_type, missing_data};
use crate::error::{ErrorDataView, ErrorView};
use crate::json::{object_entries, value_shape, Shape, ShapeView};
use crate::method::{
    arguments_in, attr_arg_views, attr_lit, fn_param_views, named_arguments, param_idents,
    params_shape, planned, string_views, wrapped_fn, AttrArg, AttrArgView, AttrLit, AttrLitView,
    FnParam, FnParamView, MethodPlan,
};
use type_map::concurrent::KvPair;
use vstd::prelude::*;

verus! {

// Params of a function ---------------------------------------------------------------------------
/// By-position params are the arguments just if there are as many as parameters.
pub proof fn law_positional_arguments(items: Seq<serde_json::Value>, names: Seq<Seq<char>>)
    ensures
        items.len() == names.len() ==> arguments_in(Some(ShapeView::Array(items)), names) == Some(
            items,
        ),
        items.len() != names.len() ==> arguments_in(Some(ShapeView::Array(items)), names) is None,
{
}

/// By-name params give each parameter the member of its name, and fail just if one is missing or
/// asked for twice. Other members do not matter.
pub proof fn law_named_arguments(
    entries: Map<Seq<char>, serde_json::Value>,
    more: Map<Seq<char>, serde_json::Value>,
    names: Seq<Seq<char>>,
)
    requires
        names.len() > 0,
    ensures
        match arguments_in(Some(ShapeView::Object(entries)), names) {
            Some(arguments) => {
                &&& names.no_duplicates()
                &&& arguments.len() == names.len()
                &&& forall|i: int|
                    0 <= i < names.len() ==> entries.contains_key(#[trigger] names[i])
                        && arguments[i] == entries[names[i]]
            },
            None => !names.no_duplicates() || exists|i: int|
                0 <= i < names.len() && !entries.contains_key(#[trigger] names[i]),
        },
        (forall|i: int|
            0 <= i < names.len() ==> entries.contains_key(#[trigger] names[i])
                == more.contains_key(names[i]) && entries[names[i]] == more[names[i]])
            ==> arguments_in(Some(ShapeView::Object(entries)), names) == arguments_in(
            Some(ShapeView::Object(more)),
            names,
        ),
{
    let found = named_arguments(entries, names);
    let same = named_arguments(more, names);
    if forall|i: int|
        0 <= i < names.len() ==> entries.contains_key(#[trigger] names[i]) == more.contains_key(
            names[i],
        ) && entries[names[i]] == more[names[i]] {
        if found is Some {
            assert forall|i: int| 0 <= i < names.len() implies more.contains_key(
                #[trigger] names[i],
            ) by {
                assert(entries.contains_key(names[i]));
            }
            assert(found->0 =~= same->0);
        } else if same is Some {
            assert forall|i: int| 0 <= i < names.len() implies entries.contains_key(
                #[trigger] names[i],
            ) by {
                assert(more.contains_key(names[i]));
            }
        }
    }
}

/// Taking arguments out by name gives each name the member of that name, and fails just if one is
/// missing or asked for twice.
pub proof fn law_members_are_taken_by_name(
    entries: Map<Seq<char>, serde_json::Value>,
    names: Seq<Seq<char>>,
)
    ensures
        match named_arguments(entries, names) {
            Some(arguments) => {
                &&& names.no_duplicates()
                &&& arguments.len() == names.len()
                &&& forall|i: int|
                    0 <= i < names.len() ==> entries.contains_key(#[trigger] names[i])
                        && arguments[i] == entries[names[i]]
            },
            None => !names.no_duplicates() || exists|i: int|
                0 <= i < names.len() && !entries.contains_key(#[trigger] names[i]),
        },
{
}

/// A function with parameters takes nothing but by-name and by-position params. A function without
/// parameters takes anything but members and elements.
pub proof fn law_other_params(
    entries: Map<Seq<char>, serde_json::Value>,
    name: Seq<char>,
    names: Seq<Seq<char>>,
)
    ensures
        names.len() > 0 ==> arguments_in(None, names) is None,
        names.len() > 0 ==> arguments_in(Some(ShapeView::Null), names) is None,
        names.len() > 0 ==> arguments_in(Some(ShapeView::Other), names) is None,
        arguments_in(None, Seq::empty()) == Some(Seq::<serde_json::Value>::empty()),
        arguments_in(Some(ShapeView::Null), Seq::empty()) == Some(
            Seq::<serde_json::Value>::empty(),
        ),
        arguments_in(Some(ShapeView::Other), Seq::empty()) == Some(
            Seq::<serde_json::Value>::empty(),
        ),
        arguments_in(Some(ShapeView::Object(Map::empty())), Seq::empty()) == Some(
            Seq::<serde_json::Value>::empty(),
        ),
        entries.contains_key(name) ==> arguments_in(
            Some(ShapeView::Object(entries)),
            Seq::empty(),
        ) is None,
{
    assert(Map::<Seq<char>, serde_json::Value>::empty().dom() =~= Set::empty());
    if entries.contains_key(name) {
        assert(entries.dom().contains(name));
        assert(!(entries.dom() =~= Set::empty()));
    }
}

/// Params and names in memory stand for just what they hold.
pub proof fn law_argument_values_are_shown(
    value: serde_json::Value,
    object: serde_json::Map<String, serde_json::Value>,
    items: Vec<serde_json::Value>,
    names: Seq<String>,
)
    ensures
        params_shape(Some(value)) == Some(value_shape(value)),
        params_shape(None) is None,
        Shape::Object(object)@ == ShapeView::Object(object_entries(object)),
        Shape::Array(items)@ == ShapeView::Array(items@),
        Shape::Null@ is Null,
        Shape::Other@ is Other,
        string_views(names).len() == names.len(),
        forall|i: int| 0 <= i < names.len() ==> #[trigger] string_views(names)[i] == names[i]@,
{
}

// Extraction -------------------------------------------------------------------------------------
/// Two extractions succeed together just if both do, and otherwise the error of the first that
/// failed counts.
pub proof fn law_first_error_counts<T1, T2, E>(t1: T1, t2: T2, e1: E, e2: E, any: Result<T2, E>)
    ensures
        both(Ok::<T1, E>(t1), Ok::<T2, E>(t2)) == Ok::<(T1, T2), E>((t1, t2)),
        both(Ok::<T1, E>(t1), Err::<T2, E>(e2)) == Err::<(T1, T2), E>(e2),
        both(Err::<T1, E>(e1), any) == Err::<(T1, T2), E>(e1),
{
}

/// The error for missing data is an internal error that names the type.
pub proof fn law_missing_data_names_the_type<B>(error: ErrorView<B>, name: Seq<char>)
    requires
        missing_data(error, name),
    ensures
        error.code == -32603,
        error.message == "Internal Error"@,
        error.data == Some(ErrorDataView::<B>::Text("Missing data for: `"@ + name + "`"@)),
{
}

/// The data of an HTTP request are the pairs that were extracted, and no others: under each type
/// the last of that type.
pub proof fn law_local_data_are_what_was_extracted(pairs: Seq<KvPair>, pair: KvPair)
    ensures
        collected_pairs(Seq::empty()).dom() =~= Set::empty(),
        collected_pairs(pairs.push(pair)) == collected_pairs(pairs).insert(
            kv_pair_type(pair),
            pair,
        ),
{
    assert(pairs.push(pair).drop_last() == pairs);
}

// Wrapping ---------------------------------------------------------------------------------------
/// Of the arguments of the attribute the first with the path in question counts, whatever stands
/// around it.
pub proof fn law_first_argument_counts(
    before: Seq<AttrArgView>,
    lit: AttrLitView,
    behind: Seq<AttrArgView>,
    path: Seq<char>,
)
    requires
        forall|i: int|
            0 <= i < before.len() ==> !(#[trigger] before[i] matches AttrArgView::NameValue {
                path: p,
                lit: l,
            } && p == Some(path)),
    ensures
        attr_lit(before, path) is None,
        attr_lit(
            before + (seq![AttrArgView::NameValue { path: Some(path), lit }] + behind),
            path,
        ) == Some(lit),
    decreases before.len(),
{
    let found = AttrArgView::NameValue { path: Some(path), lit };
    let all = before + (seq![found] + behind);
    if before.len() == 0 {
        assert(all == seq![found] + behind);
        assert(all[0] == found);
    } else {
        assert(all[0] == before[0]);
        assert(all.drop_first() == before.drop_first() + (seq![found] + behind));
        assert forall|i: int| 0 <= i < before.drop_first().len() implies !(
        #[trigger] before.drop_first()[i] matches AttrArgView::NameValue { path: p, lit: l } && p
            == Some(path)) by {
            assert(before.drop_first()[i] == before[i + 1]);
        }
        law_first_argument_counts(before.drop_first(), lit, behind, path);
    }
}

/// The wrapping function has the name that the attribute gives, and the function is kept just if it
/// gives one; otherwise it takes the place of the function. It is declared `extern` just if the
/// attribute says so.
pub proof fn law_wrapping_follows_the_attribute(
    name: Seq<char>,
    params: Seq<FnParamView>,
    args: Seq<AttrArgView>,
    plan: MethodPlan,
)
    requires
        planned(name, params, args, plan),
    ensures
        match attr_lit(args, "wrapped_fn"@) {
            Some(AttrLitView::Str(wrapped)) => plan.name@ == wrapped && plan.keeps_original,
            _ => plan.name@ == name && !plan.keeps_original,
        },
        plan.is_extern <==> attr_lit(args, "extern"@) == Some(AttrLitView::Bool(true)),
        plan.param_names@.len() == param_idents(params).len(),
        forall|i: int|
            0 <= i < plan.param_names@.len() ==> (#[trigger] plan.param_names@[i])@ == param_idents(
                params,
            )[i],
{
    assert forall|i: int| 0 <= i < plan.param_names@.len() implies (
    #[trigger] plan.param_names@[i])@ == param_idents(params)[i] by {
        assert(string_views(plan.param_names@)[i] == plan.param_names@[i]@);
    }
}

/// The parameters that are identifiers are found by their names, in order, and no others are.
pub proof fn law_parameters_are_found_by_name(params: Seq<FnParamView>, name: Seq<char>)
    ensures
        param_idents(Seq::empty()) == Seq::<Seq<char>>::empty(),
        param_idents(params.push(FnParamView::Ident(name))) == param_idents(params).push(name),
        param_idents(params.push(FnParamView::Receiver)) == param_idents(params),
        param_idents(params.push(FnParamView::Pattern)) == param_idents(params),
{
    let f = |param: FnParamView| crate::method::param_ident(param);
    let all = params.map_values(f);
    assert(Seq::<FnParamView>::empty().map_values(f) =~= Seq::empty());
    assert(params.push(FnParamView::Ident(name)).map_values(f).drop_last() =~= all);
    assert(params.push(FnParamView::Receiver).map_values(f).drop_last() =~= all);
    assert(params.push(FnParamView::Pattern).map_values(f).drop_last() =~= all);
}

/// What was parsed stands for just what it holds.
pub proof fn law_parsed_values_are_shown(
    s: String,
    b: bool,
    lit: AttrLit,
    args: Seq<AttrArg>,
    params: Seq<FnParam>,
)
    ensures
        AttrLit::Str(s)@ == AttrLitView::Str(s@),
        AttrLit::Bool(b)@ == AttrLitView::Bool(b),
        AttrLit::Other@ is Other,
        (AttrArg::NameValue { path: Some(s), lit })@ == (AttrArgView::NameValue {
            path: Some(s@),
            lit: lit@,
        }),
        (AttrArg::NameValue { path: None, lit })@ == (AttrArgView::NameValue {
            path: None,
            lit: lit@,
        }),
        AttrArg::Other@ is Other,
        FnParam::Receiver@ is Receiver,
        FnParam::Ident(s)@ == FnParamView::Ident(s@),
        FnParam::Pattern@ is Pattern,
        attr_arg_views(args).len() == args.len(),
        forall|i: int| 0 <= i < args.len() ==> #[trigger] attr_arg_views(args)[i] == args[i]@,
        fn_param_views(params).len() == params.len(),
        forall|i: int| 0 <= i < params.len() ==> #[trigger] fn_param_views(params)[i] == params[i]@,
{
}

} // verus!
