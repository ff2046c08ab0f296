//! Functions as methods: how the arguments of a function are found among the params of a request,
//! and how a function is wrapped for it.

use crate::error::{Error, ErrorView};
use crate::id::same_str;
use crate::json::{
    object_entries, object_is_empty, object_remove, shape, value_shape, Shape, ShapeView,
};
use crate::source::{find_unknown_literal, may_hold_unknown_literal};
use crate::wire::somes;
use syn::punctuated::Punctuated;
use vstd::prelude::*;

verus! {

// Arguments --------------------------------------------------------------------------------------
/// What several strings hold.
pub open spec fn string_views(strings: Seq<String>) -> Seq<Seq<char>> {
    strings.map_values(|s: String| s@)
}

/// The arguments for the parameters `names` among the members of an object: each is the member
/// that has the name of the parameter, and none may be missing. Members of other names are left
/// alone. A member is used up by the first parameter of its name.
pub open spec fn named_arguments(
    entries: Map<Seq<char>, serde_json::Value>,
    names: Seq<Seq<char>>,
) -> Option<Seq<serde_json::Value>> {
    if names.no_duplicates() && forall|i: int|
        0 <= i < names.len() ==> entries.contains_key(#[trigger] names[i]) {
        Some(names.map_values(|name: Seq<char>| entries[name]))
    } else {
        None
    }
}

/// Takes the arguments out of by-name params.
pub fn extract_named(
    object: serde_json::Map<String, serde_json::Value>,
    names: &Vec<String>,
) -> (res: Option<Vec<serde_json::Value>>)
    ensures
        match (named_arguments(object_entries(object), string_views(names@)), res) {
            (Some(values), Some(arguments)) => arguments@ == values,
            (None, None) => true,
            _ => false,
        },
{
    let ghost all = string_views(names@);
    let ghost entries = object_entries(object);
    let mut rest = object;
    let mut arguments: Vec<serde_json::Value> = Vec::new();
    let mut at: usize = 0;
    while at < names.len()
        invariant
            at <= names.len(),
            all == string_views(names@),
            entries == object_entries(object),
            arguments.len() == at,
            forall|i: int, j: int| 0 <= i < j < at ==> #[trigger] all[i] != #[trigger] all[j],
            forall|i: int|
                0 <= i < at ==> entries.contains_key(#[trigger] all[i]) && arguments@[i]
                    == entries[all[i]],
            object_entries(rest).submap_of(entries),
            forall|name: Seq<char>|
                #[trigger] entries.contains_key(name) && !object_entries(rest).contains_key(name)
                    <==> all.take(at as int).contains(name),
        decreases names.len() - at,
    {
        let ghost name = all[at as int];
        let ghost done = all.take(at as int);
        let ghost before = object_entries(rest);
        assert(name == names@[at as int]@);
        let removed = object_remove(&mut rest, names[at].as_str());
        assert forall|i: int| 0 <= i < at implies done.contains(#[trigger] all[i]) by {
            assert(done[i] == all[i]);
        }
        match removed {
            Some(value) => {
                assert(before.dom().contains(name) ==> entries.dom().contains(name));
                assert(value == entries[name]);
                arguments.push(value);
            },
            None => {
                proof {
                    if entries.contains_key(name) {
                        assert(done.contains(name));
                        let i = done.index_of(name);
                        assert(all[i] == all[at as int]);
                    }
                }
                return None;
            },
        }
        assert(all.take(at + 1) == done.push(name));
        assert forall|n: Seq<char>| done.push(name).contains(n) <==> done.contains(n) || n
            == name by {
            if n == name {
                assert(done.push(name)[at as int] == n);
            } else if done.contains(n) {
                assert(done.push(name)[done.index_of(n)] == n);
            }
        }
        at += 1;
    }
    assert(arguments@ =~= all.map_values(|name: Seq<char>| entries[name]));
    Some(arguments)
}

/// Takes the arguments out of by-position params.
pub fn extract_positional(vals: Vec<serde_json::Value>, up_to: usize) -> (res: Option<
    Vec<serde_json::Value>,
>)
    ensures
        res == (if vals@.len() == up_to {
            Some(vals)
        } else {
            None
        }),
{
    if vals.len() != up_to {
        return None;
    }
    Some(vals)
}

/// The arguments that `params` hold for the parameters `names`, if they fit. A function without
/// parameters takes no members and no elements, but is content with any other params.
pub open spec fn arguments_in(
    params: Option<ShapeView>,
    names: Seq<Seq<char>>,
) -> Option<Seq<serde_json::Value>> {
    match params {
        Some(ShapeView::Object(entries)) => if names.len() > 0 {
            named_arguments(entries, names)
        } else if entries.dom() =~= Set::empty() {
            Some(Seq::empty())
        } else {
            None
        },
        Some(ShapeView::Array(items)) => if items.len() == names.len() {
            Some(items)
        } else {
            None
        },
        _ => if names.len() > 0 {
            None
        } else {
            Some(Seq::empty())
        },
    }
}

/// What optional params consist of.
pub open spec fn params_shape(params: Option<serde_json::Value>) -> Option<ShapeView> {
    match params {
        Some(value) => Some(value_shape(value)),
        None => None,
    }
}

/// The arguments for a function with the parameters `names`.
pub fn arguments<B>(params: Option<serde_json::Value>, names: &Vec<String>) -> (res: Result<
    Vec<serde_json::Value>,
    Error<B>,
>)
    ensures
        match (arguments_in(params_shape(params), string_views(names@)), res) {
            (Some(values), Ok(arguments)) => arguments@ == values,
            (None, Err(e)) => e@ == ErrorView::<B>::invalid_params(),
            _ => false,
        },
{
    let shape = match params {
        Some(value) => Some(shape(value)),
        None => None,
    };
    let extracted = if names.len() == 0 {
        let fits = match shape {
            Some(Shape::Object(object)) => object_is_empty(&object),
            Some(Shape::Array(items)) => items.len() == 0,
            _ => true,
        };
        if fits {
            Some(Vec::new())
        } else {
            None
        }
    } else {
        match shape {
            Some(Shape::Object(object)) => extract_named(object, names),
            Some(Shape::Array(vals)) => extract_positional(vals, names.len()),
            _ => None,
        }
    };
    match extracted {
        Some(arguments) => Ok(arguments),
        None => Err(Error::invalid_params()),
    }
}

// Wrapping ---------------------------------------------------------------------------------------
/// Why a function cannot be wrapped
#[derive(Clone, Copy, Debug, PartialEq, Eq)]
pub enum SourceError {
    /// A text is not the Rust source that was asked for. What `syn` says about it is not kept.
    Syntax,
    /// A text may hold a literal that `syn` does not know, and is not handed to it.
    UnknownLiteral,
}

/// The literal in an argument of the attribute that wraps a function
pub enum AttrLit {
    Str(String),
    Bool(bool),
    Other,
}

/// An argument of the attribute that wraps a function
pub enum AttrArg {
    /// `path = lit`, with the path where it is an identifier.
    NameValue { path: Option<String>, lit: AttrLit },
    Other,
}

/// A parameter of the function that is wrapped
pub enum FnParam {
    /// `self` in any form.
    Receiver,
    /// An identifier with its type.
    Ident(String),
    /// Another pattern with its type.
    Pattern,
}

/// What the literal in an argument of the attribute is.
pub enum AttrLitView {
    Str(Seq<char>),
    Bool(bool),
    Other,
}

/// What an argument of the attribute says.
pub enum AttrArgView {
    NameValue { path: Option<Seq<char>>, lit: AttrLitView },
    Other,
}

/// What a parameter of the function is.
pub enum FnParamView {
    Receiver,
    Ident(Seq<char>),
    Pattern,
}

impl View for AttrLit {
    type V = AttrLitView;

    open spec fn view(&self) -> AttrLitView {
        match *self {
            AttrLit::Str(text) => AttrLitView::Str(text@),
            AttrLit::Bool(value) => AttrLitView::Bool(value),
            AttrLit::Other => AttrLitView::Other,
        }
    }
}

impl View for AttrArg {
    type V = AttrArgView;

    open spec fn view(&self) -> AttrArgView {
        match *self {
            AttrArg::NameValue { path, lit } => AttrArgView::NameValue {
                path: match path {
                    Some(name) => Some(name@),
                    None => None,
                },
                lit: lit@,
            },
            AttrArg::Other => AttrArgView::Other,
        }
    }
}

impl View for FnParam {
    type V = FnParamView;

    open spec fn view(&self) -> FnParamView {
        match *self {
            FnParam::Receiver => FnParamView::Receiver,
            FnParam::Ident(name) => FnParamView::Ident(name@),
            FnParam::Pattern => FnParamView::Pattern,
        }
    }
}

/// What several arguments of the attribute say.
pub open spec fn attr_arg_views(args: Seq<AttrArg>) -> Seq<AttrArgView> {
    args.map_values(|arg: AttrArg| arg@)
}

/// What several parameters are.
pub open spec fn fn_param_views(params: Seq<FnParam>) -> Seq<FnParamView> {
    params.map_values(|param: FnParam| param@)
}

/// Parses with `syn` a list of `NestedMeta` between commas, and returns `None` where that fails.
/// `syn` panics on a literal that it does not know. Texts with such literals are left out as the
/// lexer of `proc_macro2` reads them, which is used outside of a procedural macro; nothing is known
/// here of the lexer of the compiler, which is used inside of one. As the two may find other tokens
/// in the same text, nothing is said of the result.
#[verifier::external_body]
pub fn read_attr_args(text: &str) -> (res: Option<Vec<AttrArg>>)
    requires
        !may_hold_unknown_literal(text@),
{
    let list = Punctuated::<syn::NestedMeta, syn::token::Comma>::parse_terminated;
    let args = syn::parse::Parser::parse_str(list, text).ok()?;
    let convert = |arg| match arg {
        syn::NestedMeta::Meta(syn::Meta::NameValue(pair)) => AttrArg::NameValue {
            path: pair.path.get_ident().map(|ident| ident.to_string()),
            lit: match pair.lit {
                syn::Lit::Str(text) => AttrLit::Str(text.value()),
                syn::Lit::Bool(value) => AttrLit::Bool(value.value),
                _ => AttrLit::Other,
            },
        },
        _ => AttrArg::Other,
    };
    Some(args.into_iter().map(convert).collect())
}

/// Calls `syn::parse_str::<ItemFn>`, and returns the name and the parameters of the function, or
/// `None` where that fails. `syn` panics on a literal that it does not know. Texts with such
/// literals are left out as the lexer of `proc_macro2` reads them, which is used outside of a
/// procedural macro; nothing is known here of the lexer of the compiler, which is used inside of
/// one. As the two may find other tokens in the same text, nothing is said of the result.
#[verifier::external_body]
pub fn read_fn(text: &str) -> (res: Option<(String, Vec<FnParam>)>)
    requires
        !may_hold_unknown_literal(text@),
{
    let sig = syn::parse_str::<syn::ItemFn>(text).ok()?.sig;
    let convert = |input| match input {
        syn::FnArg::Receiver(_) => FnParam::Receiver,
        syn::FnArg::Typed(typed) => match *typed.pat {
            syn::Pat::Ident(pat) => FnParam::Ident(pat.ident.to_string()),
            _ => FnParam::Pattern,
        },
    };
    Some((sig.ident.to_string(), sig.inputs.into_iter().map(convert).collect()))
}

/// The literal of the first argument of the form `path = lit`.
pub open spec fn attr_lit(args: Seq<AttrArgView>, path: Seq<char>) -> Option<AttrLitView>
    decreases args.len(),
{
    if args.len() == 0 {
        None
    } else if args[0] matches AttrArgView::NameValue { path: p, lit } && p == Some(path) {
        Some(args[0]->lit)
    } else {
        attr_lit(args.drop_first(), path)
    }
}

/// The name that the wrapping function is given by the attribute, if it is given one.
pub open spec fn wrapped_fn(args: Seq<AttrArgView>) -> Option<Seq<char>> {
    match attr_lit(args, "wrapped_fn"@) {
        Some(AttrLitView::Str(name)) => Some(name),
        _ => None,
    }
}

/// The name of a parameter that is an identifier.
pub open spec fn param_ident(param: FnParamView) -> Option<Seq<char>> {
    match param {
        FnParamView::Ident(name) => Some(name),
        _ => None,
    }
}

/// The names of the parameters that are identifiers, in order.
pub open spec fn param_idents(params: Seq<FnParamView>) -> Seq<Seq<char>> {
    somes(params.map_values(|param: FnParamView| param_ident(param)))
}

/// Finds the literal of the first argument of the form `path = lit`.
fn find_attr<'a>(args: &'a Vec<AttrArg>, path: &str) -> (res: Option<&'a AttrLit>)
    ensures
        match res {
            Some(lit) => attr_lit(attr_arg_views(args@), path@) == Some(lit@),
            None => attr_lit(attr_arg_views(args@), path@) is None,
        },
{
    let ghost all = attr_arg_views(args@);
    let mut at: usize = 0;
    assert(all.skip(0) == all);
    while at < args.len()
        invariant
            at <= args.len(),
            all == attr_arg_views(args@),
            attr_lit(all, path@) == attr_lit(all.skip(at as int), path@),
        decreases args.len() - at,
    {
        assert(all.skip(at as int).drop_first() == all.skip(at + 1));
        assert(all.skip(at as int)[0] == args@[at as int]@);
        match &args[at] {
            AttrArg::NameValue { path: Some(name), lit } => if same_str(name.as_str(), path) {
                return Some(lit);
            },
            _ => {},
        }
        at += 1;
    }
    None
}

/// How a function is wrapped as a method
pub struct MethodPlan {
    /// The name of the wrapping function.
    pub name: String,
    /// Whether the function itself is kept beside the wrapping function.
    pub keeps_original: bool,
    /// Whether the wrapping function is declared `extern`.
    pub is_extern: bool,
    /// The names of the parameters, by which by-name params are found.
    pub param_names: Vec<String>,
}

/// `plan` says how the function `name` with the parameters `params` is wrapped by an attribute with
/// the arguments `args`. Without a name for the wrapping function it takes the place of the
/// function.
pub open spec fn planned(
    name: Seq<char>,
    params: Seq<FnParamView>,
    args: Seq<AttrArgView>,
    plan: MethodPlan,
) -> bool {
    &&& plan.name@ == match wrapped_fn(args) {
        Some(wrapped) => wrapped,
        None => name,
    }
    &&& plan.keeps_original == (wrapped_fn(args) is Some)
    &&& plan.is_extern == (attr_lit(args, "extern"@) == Some(AttrLitView::Bool(true)))
    &&& string_views(plan.param_names@) == param_idents(params)
}

/// `plan` is made of what [`read_fn`] returned for the source `item`, and of what
/// [`read_attr_args`] returned for the attribute `attrs`.
pub open spec fn planned_from(attrs: &str, item: &str, plan: MethodPlan) -> bool {
    exists|name: String, params: Vec<FnParam>, args: Vec<AttrArg>|
        #![trigger call_ensures(read_fn, (item,), Some((name, params))),
            call_ensures(read_attr_args, (attrs,), Some(args))]
        call_ensures(read_fn, (item,), Some((name, params))) && call_ensures(
            read_attr_args,
            (attrs,),
            Some(args),
        ) && planned(name@, fn_param_views(params@), attr_arg_views(args@), plan)
}

impl MethodPlan {
    /// Plans the wrapping of a function, given its source and the tokens of the attribute. What the
    /// plan is made of is what `syn` reads there, and [`MethodPlan::new`] makes it.
    pub fn from_source(attrs: &str, item: &str) -> (res: Result<MethodPlan, SourceError>)
        ensures
            res == Err::<MethodPlan, SourceError>(SourceError::UnknownLiteral) <==> {
                may_hold_unknown_literal(item@) || may_hold_unknown_literal(attrs@)
            },
            res matches Ok(plan) ==> planned_from(attrs, item, plan),
            res == Err::<MethodPlan, SourceError>(SourceError::Syntax) ==> call_ensures(
                read_fn,
                (item,),
                None,
            ) || call_ensures(read_attr_args, (attrs,), None),
    {
        if find_unknown_literal(item) || find_unknown_literal(attrs) {
            return Err(SourceError::UnknownLiteral);
        }
        let read_item = read_fn(item);
        assert(call_ensures(read_fn, (item,), read_item));
        let (name, params) = match read_item {
            Some(parts) => parts,
            None => return Err(SourceError::Syntax),
        };
        let read_attrs = read_attr_args(attrs);
        assert(call_ensures(read_attr_args, (attrs,), read_attrs));
        match read_attrs {
            Some(args) => Ok(MethodPlan::new(name, &params, &args)),
            None => Err(SourceError::Syntax),
        }
    }

    /// Plans the wrapping of the function `name` with the parameters `params`, by an attribute with
    /// the arguments `args`.
    pub fn new(name: String, params: &Vec<FnParam>, args: &Vec<AttrArg>) -> (res: MethodPlan)
        ensures
            planned(name@, fn_param_views(params@), attr_arg_views(args@), res),
    {
        let (name, keeps_original) = match find_attr(args, "wrapped_fn") {
            Some(AttrLit::Str(wrapped)) => (wrapped.clone(), true),
            _ => (name, false),
        };
        let is_extern = match find_attr(args, "extern") {
            Some(AttrLit::Bool(value)) => *value,
            _ => false,
        };
        let ghost all = fn_param_views(params@).map_values(|param: FnParamView| param_ident(param));
        let mut param_names: Vec<String> = Vec::new();
        assert(all.take(0) == Seq::<Option<Seq<char>>>::empty());
        assert(string_views(param_names@) == somes(all.take(0)));
        for at in 0..params.len()
            invariant
                all == fn_param_views(params@).map_values(|param: FnParamView| param_ident(param)),
                string_views(param_names@) == somes(all.take(at as int)),
        {
            assert(all.take(at + 1).drop_last() == all.take(at as int));
            assert(all.take(at + 1).last() == param_ident(params@[at as int]@));
            match &params[at] {
                FnParam::Ident(name) => {
                    let ghost before = param_names@;
                    param_names.push(name.clone());
                    assert(string_views(param_names@) == string_views(before).push(name@));
                },
                _ => {},
            }
        }
        assert(all.take(all.len() as int) == all);
        MethodPlan { name, keeps_original, is_extern, param_names }
    }
}

} // verus!
