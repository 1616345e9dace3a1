//! The general template-to-record parser: converts a template name plus raw
//! parameter list into a [`Template`] record.

use vstd::prelude::*;

use crate::util::{Context, add_warning, param_name_of, parse_parameter_name, parse_text, text_of,
    warning_of};
use crate::{Language, Parameter, ParameterView, Template, TemplateView, Warning, WarningMessage,
    opt_template_view, pairs_view, params_view, strings_view};

verus! {

broadcast use crate::group_view_lemmas;

/// The first index at or after `i` whose pair holds the key `key`, or `-1`
/// when no pair does.
pub open spec fn first_key_from(
    named: Seq<(Seq<char>, Seq<char>)>,
    key: Seq<char>,
    i: int,
) -> int
    decreases named.len() - i,
{
    if i < 0 || i >= named.len() {
        -1
    } else if named[i].0 == key {
        i
    } else {
        first_key_from(named, key, i + 1)
    }
}

/// The mapping `named` with `value` recorded under `key`: a later value for
/// a key already present overwrites the earlier one in place, so each key
/// occurs once and keeps the position of its first occurrence.
pub open spec fn named_insert(
    named: Seq<(Seq<char>, Seq<char>)>,
    key: Seq<char>,
    value: Seq<char>,
) -> Seq<(Seq<char>, Seq<char>)> {
    let j = first_key_from(named, key, 0);
    if j < 0 {
        named.push((key, value))
    } else {
        named.update(j, (key, value))
    }
}

/// The walk of a template's parameters from index `i` on, carrying the
/// named and unnamed parameters collected so far: an unnamed parameter must
/// flatten to text or the whole template is rejected; a named parameter's
/// name must resolve to a single text node and its value must flatten to
/// text, else the whole template is rejected; a repeated parameter name is
/// flagged as a duplicate and the later value overwrites the earlier one.
pub open spec fn template_loop(
    language: Option<Language>,
    params: Seq<ParameterView>,
    i: int,
    named: Seq<(Seq<char>, Seq<char>)>,
    unnamed: Seq<Seq<char>>,
    warnings: Seq<Warning>,
) -> (Option<(Seq<(Seq<char>, Seq<char>)>, Seq<Seq<char>>)>, Seq<Warning>)
    decreases params.len() - i,
{
    if i < 0 || i >= params.len() {
        (Some((named, unnamed)), warnings)
    } else {
        let p = params[i];
        match p.name {
            None => match text_of(p.value) {
                None => (
                    None,
                    warnings.push(
                        warning_of(p.start, p.end, language, WarningMessage::ValueUnrecognized),
                    ),
                ),
                Some(value) => template_loop(
                    language,
                    params,
                    i + 1,
                    named,
                    unnamed.push(value),
                    warnings,
                ),
            },
            Some(_) => match param_name_of(p) {
                None => (
                    None,
                    warnings.push(
                        warning_of(p.start, p.end, language, WarningMessage::Unrecognized),
                    ),
                ),
                Some(key) => {
                    let warnings1 = if first_key_from(named, key, 0) >= 0 {
                        warnings.push(
                            warning_of(p.start, p.end, language, WarningMessage::Duplicate),
                        )
                    } else {
                        warnings
                    };
                    match text_of(p.value) {
                        None => (
                            None,
                            warnings1.push(
                                warning_of(
                                    p.start,
                                    p.end,
                                    language,
                                    WarningMessage::ValueUnrecognized,
                                ),
                            ),
                        ),
                        Some(value) => template_loop(
                            language,
                            params,
                            i + 1,
                            named_insert(named, key, value),
                            unnamed,
                            warnings1,
                        ),
                    }
                },
            },
        }
    }
}

/// The parse of a template invocation with name `name` into a template
/// record, or nothing when a parameter rejects the whole template.
pub open spec fn template_spec(
    language: Option<Language>,
    name: Seq<char>,
    params: Seq<ParameterView>,
    warnings: Seq<Warning>,
) -> (Option<TemplateView>, Seq<Warning>) {
    let (collected, warnings1) = template_loop(
        language,
        params,
        0,
        Seq::empty(),
        Seq::empty(),
        warnings,
    );
    match collected {
        None => (None, warnings1),
        Some((named, unnamed)) => (
            Some(
                TemplateView {
                    name,
                    named_parameters: named,
                    unnamed_parameters: unnamed,
                },
            ),
            warnings1,
        ),
    }
}

/// The first index in `named` whose pair holds the key `key`, if any.
fn find_named(named: &Vec<(String, String)>, key: &String) -> (r: Option<usize>)
    ensures
        match r {
            Some(j) => 0 <= j < named@.len() && first_key_from(pairs_view(named@), key@, 0)
                == j as int,
            None => first_key_from(pairs_view(named@), key@, 0) == -1,
        },
{
    let ghost pv = pairs_view(named@);
    let mut j: usize = 0;
    while j < named.len()
        invariant
            0 <= j <= named@.len(),
            pv == pairs_view(named@),
            pv.len() == named@.len(),
            first_key_from(pv, key@, 0) == first_key_from(pv, key@, j as int),
        decreases named@.len() - j,
    {
        assert(pv[j as int] == (named@[j as int].0@, named@[j as int].1@));
        if named[j].0 == *key {
            return Some(j);
        }
        j = j + 1;
    }
    None
}

/// Records `value` under `key` in `named`, overwriting in place the value
/// of a key already present.
fn insert_named(named: &mut Vec<(String, String)>, key: String, value: String)
    ensures
        pairs_view(final(named)@) == named_insert(pairs_view(old(named)@), key@, value@),
{
    let ghost old_pv = pairs_view(named@);
    match find_named(named, &key) {
        None => {
            named.push((key, value));
            assert(pairs_view(named@) =~= old_pv.push((key@, value@)));
        },
        Some(j) => {
            let ghost mid = named@;
            named.remove(j);
            named.insert(j, (key, value));
            assert(named@ =~= mid.update(j as int, (key, value)));
            assert(pairs_view(named@) =~= old_pv.update(j as int, (key@, value@)));
        },
    }
}

/// Converts a template invocation with the already-flattened name `name`
/// and the raw parameters `parameters` into a [`Template`] record, or
/// nothing when a parameter rejects the whole template.
pub fn parse_template(context: &mut Context, name: String, parameters: &Vec<Parameter>) -> (r:
    Option<Template>)
    ensures
        final(context).language == old(context).language,
        ({
            let (t, w) = template_spec(
                old(context).language,
                name@,
                params_view(parameters@),
                old(context).warnings@,
            );
            opt_template_view(r) == t && final(context).warnings@ == w
        }),
{
    let ghost pv = params_view(parameters@);
    let mut named: Vec<(String, String)> = Vec::new();
    let mut unnamed: Vec<String> = Vec::new();
    let mut i: usize = 0;
    assert(pairs_view(named@) =~= Seq::<(Seq<char>, Seq<char>)>::empty());
    assert(strings_view(unnamed@) =~= Seq::<Seq<char>>::empty());
    while i < parameters.len()
        invariant
            0 <= i <= parameters@.len(),
            pv == params_view(parameters@),
            pv.len() == parameters@.len(),
            context.language == old(context).language,
            template_loop(
                old(context).language,
                pv,
                0,
                Seq::empty(),
                Seq::empty(),
                old(context).warnings@,
            ) == template_loop(
                old(context).language,
                pv,
                i as int,
                pairs_view(named@),
                strings_view(unnamed@),
                context.warnings@,
            ),
        decreases parameters@.len() - i,
    {
        assert(pv[i as int] == crate::param_view(parameters@[i as int]));
        let parameter = &parameters[i];
        match &parameter.name {
            None => {
                match parse_text(&parameter.value) {
                    None => {
                        add_warning(
                            context,
                            parameter.start,
                            parameter.end,
                            WarningMessage::ValueUnrecognized,
                        );
                        return None;
                    },
                    Some(value) => {
                        proof {
                            assert(strings_view(unnamed@.push(value)) =~= strings_view(
                                unnamed@,
                            ).push(value@));
                        }
                        unnamed.push(value);
                    },
                }
            },
            Some(_) => {
                match parse_parameter_name(parameter) {
                    None => {
                        add_warning(
                            context,
                            parameter.start,
                            parameter.end,
                            WarningMessage::Unrecognized,
                        );
                        return None;
                    },
                    Some(key) => {
                        if find_named(&named, &key).is_some() {
                            add_warning(
                                context,
                                parameter.start,
                                parameter.end,
                                WarningMessage::Duplicate,
                            );
                        }
                        match parse_text(&parameter.value) {
                            None => {
                                add_warning(
                                    context,
                                    parameter.start,
                                    parameter.end,
                                    WarningMessage::ValueUnrecognized,
                                );
                                return None;
                            },
                            Some(value) => {
                                insert_named(&mut named, key, value);
                            },
                        }
                    },
                }
            },
        }
        i = i + 1;
    }
    Some(Template { name, named_parameters: named, unnamed_parameters: unnamed })
}

} // verus!
