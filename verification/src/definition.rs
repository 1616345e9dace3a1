//! The recursive definition-list parser and the dedicated parsers for the
//! templates that may occur inside a definition: definition dates, label
//! lists and non-gloss definitions.

use vstd::prelude::*;

use crate::util::{Context, add_warning, create_unknown, link_of, parse_link, parse_text,
    parse_text_not_empty, str_eq, text_not_empty_of, text_of, unknown_of, warning_of};
use crate::{Definition, DefinitionView, Flowing, FlowingView, Language, ListItem, ListItemView,
    Node, NodeKind, NodeKindView, NodeView, Parameter, ParameterView, Warning, WarningMessage,
    definition_view, definitions_view, flowing_view, flowings_view, item_view, items_view,
    language_code_of, node_view, nodes_view, params_view, strings_view};

verus! {

broadcast use crate::group_view_lemmas;

/// The sum `a + n` held at the largest `u32` value.
pub open spec fn sat_add_u32(a: u32, n: int) -> u32 {
    if a + n > u32::MAX {
        u32::MAX
    } else {
        (a + n) as u32
    }
}

/// The parse of a `defdate` template: exactly one unnamed parameter whose
/// value flattens to nonempty text; any other shape is replaced by an
/// unrecognized placeholder.
pub open spec fn defdate_spec(
    language: Language,
    node: NodeView,
    params: Seq<ParameterView>,
    warnings: Seq<Warning>,
) -> (FlowingView, Seq<Warning>) {
    if params.len() == 1 && params[0].name is None {
        let p = params[0];
        match text_not_empty_of(p.value) {
            None => (
                unknown_of(node),
                warnings.push(
                    warning_of(p.start, p.end, Some(language), WarningMessage::ValueUnrecognized),
                ),
            ),
            Some(value) => (FlowingView::DefinitionDate { value }, warnings),
        }
    } else {
        (
            unknown_of(node),
            warnings.push(
                warning_of(
                    node.start,
                    node.end,
                    Some(language),
                    WarningMessage::ValueUnrecognized,
                ),
            ),
        )
    }
}

/// The walk of a `label` template's parameters after the language code,
/// collecting the labels: a named parameter rejects the template, a value
/// that does not flatten to nonempty text rejects it, and a repeated label
/// is flagged as a duplicate and dropped.
pub open spec fn labels_loop(
    language: Language,
    node: NodeView,
    language_parameter: ParameterView,
    params: Seq<ParameterView>,
    i: int,
    labels: Seq<Seq<char>>,
    warnings: Seq<Warning>,
) -> (FlowingView, Seq<Warning>)
    decreases params.len() - i,
{
    if i < 0 || i >= params.len() {
        (FlowingView::Labels { labels }, warnings)
    } else {
        let p = params[i];
        if p.name is Some {
            (
                unknown_of(node),
                warnings.push(
                    warning_of(
                        language_parameter.start,
                        language_parameter.end,
                        Some(language),
                        WarningMessage::Unrecognized,
                    ),
                ),
            )
        } else {
            match text_not_empty_of(p.value) {
                None => (
                    unknown_of(node),
                    warnings.push(
                        warning_of(
                            p.start,
                            p.end,
                            Some(language),
                            WarningMessage::ValueUnrecognized,
                        ),
                    ),
                ),
                Some(value) => if labels.contains(value) {
                    labels_loop(
                        language,
                        node,
                        language_parameter,
                        params,
                        i + 1,
                        labels,
                        warnings.push(
                            warning_of(p.start, p.end, Some(language), WarningMessage::Duplicate),
                        ),
                    )
                } else {
                    labels_loop(
                        language,
                        node,
                        language_parameter,
                        params,
                        i + 1,
                        labels.push(value),
                        warnings,
                    )
                },
            }
        }
    }
}

/// The parse of a `label` template: the first parameter must be unnamed
/// and flatten to the active language's code, the remaining parameters are
/// the labels; any deviation replaces the template by an unrecognized
/// placeholder with a warning saying why.
pub open spec fn labels_spec(
    language: Language,
    node: NodeView,
    params: Seq<ParameterView>,
    warnings: Seq<Warning>,
) -> (FlowingView, Seq<Warning>) {
    if params.len() == 0 {
        (
            unknown_of(node),
            warnings.push(
                warning_of(node.start, node.end, Some(language), WarningMessage::Empty),
            ),
        )
    } else {
        let lp = params[0];
        if lp.name is Some {
            (
                unknown_of(node),
                warnings.push(
                    warning_of(lp.start, lp.end, Some(language), WarningMessage::Unrecognized),
                ),
            )
        } else {
            match text_of(lp.value) {
                None => (
                    unknown_of(node),
                    warnings.push(
                        warning_of(
                            lp.start,
                            lp.end,
                            Some(language),
                            WarningMessage::ValueUnrecognized,
                        ),
                    ),
                ),
                Some(code) => if code != language_code_of(language) {
                    (
                        unknown_of(node),
                        warnings.push(
                            warning_of(
                                lp.start,
                                lp.end,
                                Some(language),
                                WarningMessage::ValueConflicting,
                            ),
                        ),
                    )
                } else if params.len() > 1 {
                    labels_loop(language, node, lp, params, 1, Seq::empty(), warnings)
                } else {
                    (
                        unknown_of(node),
                        warnings.push(
                            warning_of(node.start, node.end, Some(language), WarningMessage::Empty),
                        ),
                    )
                },
            }
        }
    }
}

/// The reinterpretation of a non-gloss definition's inner nodes as inline
/// content: links and text are kept, anything else becomes an unrecognized
/// placeholder.
pub open spec fn non_gloss_loop(
    language: Language,
    nodes: Seq<NodeView>,
    k: int,
    acc: Seq<FlowingView>,
    warnings: Seq<Warning>,
) -> (Seq<FlowingView>, Seq<Warning>)
    decreases nodes.len() - k,
{
    if k < 0 || k >= nodes.len() {
        (acc, warnings)
    } else {
        let n = nodes[k];
        match n.kind {
            NodeKindView::Link { target, text } => {
                let (f, warnings1) = link_of(Some(language), warnings, n, target, text);
                non_gloss_loop(language, nodes, k + 1, acc.push(f), warnings1)
            },
            NodeKindView::Text { value } => non_gloss_loop(
                language,
                nodes,
                k + 1,
                acc.push(FlowingView::Text { value }),
                warnings,
            ),
            _ => non_gloss_loop(
                language,
                nodes,
                k + 1,
                acc.push(unknown_of(n)),
                warnings.push(
                    warning_of(n.start, n.end, Some(language), WarningMessage::Unrecognized),
                ),
            ),
        }
    }
}

/// The parse of a `non-gloss definition` template: exactly one unnamed,
/// nonempty parameter whose inner nodes are reinterpreted as inline
/// content; any other shape is replaced by an unrecognized placeholder.
pub open spec fn non_gloss_spec(
    language: Language,
    node: NodeView,
    params: Seq<ParameterView>,
    warnings: Seq<Warning>,
) -> (FlowingView, Seq<Warning>) {
    if params.len() == 1 && params[0].name is None {
        let p = params[0];
        if p.value.len() == 0 {
            (
                unknown_of(node),
                warnings.push(
                    warning_of(p.start, p.end, Some(language), WarningMessage::Empty),
                ),
            )
        } else {
            let (value, warnings1) = non_gloss_loop(language, p.value, 0, Seq::empty(), warnings);
            (FlowingView::NonGlossDefinition { value }, warnings1)
        }
    } else {
        (
            unknown_of(node),
            warnings.push(
                warning_of(
                    node.start,
                    node.end,
                    Some(language),
                    WarningMessage::ValueUnrecognized,
                ),
            ),
        )
    }
}

/// The walk of a definition list item's nodes from index `idx` on,
/// classifying each node into the definition's inline content, its nested
/// definitions, or its example and quotation counts. The first nested
/// ordered list provides the sub-definitions; any further one is flagged
/// as a duplicate and ignored, keeping the first list's parses.
pub open spec fn definition_loop(
    language: Language,
    nodes: Seq<NodeView>,
    idx: int,
    definition: Seq<FlowingView>,
    definitions: Option<Seq<DefinitionView>>,
    examples: u32,
    quotations: u32,
    warnings: Seq<Warning>,
) -> (Seq<FlowingView>, Option<Seq<DefinitionView>>, u32, u32, Seq<Warning>)
    decreases nodes, 0int, nodes.len() - idx,
{
    if idx < 0 || idx >= nodes.len() {
        (definition, definitions, examples, quotations, warnings)
    } else {
        let n = nodes[idx];
        match n.kind {
            NodeKindView::DefinitionList { items } => definition_loop(
                language,
                nodes,
                idx + 1,
                definition,
                definitions,
                sat_add_u32(examples, items.len() as int),
                quotations,
                warnings.push(
                    warning_of(n.start, n.end, Some(language), WarningMessage::Supplementary),
                ),
            ),
            NodeKindView::Bold => definition_loop(
                language,
                nodes,
                idx + 1,
                definition.push(FlowingView::Bold),
                definitions,
                examples,
                quotations,
                warnings,
            ),
            NodeKindView::Italic => definition_loop(
                language,
                nodes,
                idx + 1,
                definition.push(FlowingView::Italic),
                definitions,
                examples,
                quotations,
                warnings,
            ),
            NodeKindView::Link { target, text } => {
                let (f, warnings1) = link_of(Some(language), warnings, n, target, text);
                definition_loop(
                    language,
                    nodes,
                    idx + 1,
                    definition.push(f),
                    definitions,
                    examples,
                    quotations,
                    warnings1,
                )
            },
            NodeKindView::OrderedList { items } => {
                if definitions is Some {
                    definition_loop(
                        language,
                        nodes,
                        idx + 1,
                        definition,
                        definitions,
                        examples,
                        quotations,
                        warnings.push(
                            warning_of(n.start, n.end, Some(language), WarningMessage::Duplicate),
                        ),
                    )
                } else {
                    let (ds, warnings1) = definition_items_spec(
                        language,
                        items,
                        0,
                        Seq::empty(),
                        warnings,
                    );
                    definition_loop(
                        language,
                        nodes,
                        idx + 1,
                        definition,
                        Some(ds),
                        examples,
                        quotations,
                        warnings1,
                    )
                }
            },
            NodeKindView::Text { value } => definition_loop(
                language,
                nodes,
                idx + 1,
                definition.push(FlowingView::Text { value }),
                definitions,
                examples,
                quotations,
                warnings,
            ),
            NodeKindView::Template { name, parameters } => {
                let tn = text_of(name);
                if tn is Some && tn->0 == "defdate"@ {
                    let (f, warnings1) = defdate_spec(language, n, parameters, warnings);
                    definition_loop(
                        language,
                        nodes,
                        idx + 1,
                        definition.push(f),
                        definitions,
                        examples,
                        quotations,
                        warnings1,
                    )
                } else if tn is Some && (tn->0 == "label"@ || tn->0 == "lb"@) {
                    let (f, warnings1) = labels_spec(language, n, parameters, warnings);
                    definition_loop(
                        language,
                        nodes,
                        idx + 1,
                        definition.push(f),
                        definitions,
                        examples,
                        quotations,
                        warnings1,
                    )
                } else if tn is Some && (tn->0 == "n-g"@ || tn->0 == "non-gloss definition"@) {
                    let (f, warnings1) = non_gloss_spec(language, n, parameters, warnings);
                    definition_loop(
                        language,
                        nodes,
                        idx + 1,
                        definition.push(f),
                        definitions,
                        examples,
                        quotations,
                        warnings1,
                    )
                } else {
                    definition_loop(
                        language,
                        nodes,
                        idx + 1,
                        definition.push(unknown_of(n)),
                        definitions,
                        examples,
                        quotations,
                        warnings.push(
                            warning_of(
                                n.start,
                                n.end,
                                Some(language),
                                WarningMessage::Unrecognized,
                            ),
                        ),
                    )
                }
            },
            NodeKindView::UnorderedList { items } => definition_loop(
                language,
                nodes,
                idx + 1,
                definition,
                definitions,
                examples,
                sat_add_u32(quotations, items.len() as int),
                warnings.push(
                    warning_of(n.start, n.end, Some(language), WarningMessage::Supplementary),
                ),
            ),
            _ => definition_loop(
                language,
                nodes,
                idx + 1,
                definition.push(unknown_of(n)),
                definitions,
                examples,
                quotations,
                warnings.push(
                    warning_of(n.start, n.end, Some(language), WarningMessage::Unrecognized),
                ),
            ),
        }
    }
}

/// The parse of one definition list item into a [`Definition`]: an item
/// producing no inline content at all is flagged as empty.
pub open spec fn definition_spec(
    language: Language,
    item: ListItemView,
    warnings: Seq<Warning>,
) -> (DefinitionView, Seq<Warning>)
    decreases item, 1int, 0int,
{
    let (definition, definitions, examples, quotations, warnings1) = definition_loop(
        language,
        item.nodes,
        0,
        Seq::empty(),
        None,
        0,
        0,
        warnings,
    );
    let warnings2 = if definition.len() == 0 {
        warnings1.push(
            warning_of(item.start, item.end, Some(language), WarningMessage::Empty),
        )
    } else {
        warnings1
    };
    (
        DefinitionView {
            definition,
            definitions: match definitions {
                None => Seq::empty(),
                Some(ds) => ds,
            },
            examples,
            quotations,
        },
        warnings2,
    )
}

/// The parse of a run of definition list items from index `j` on, one
/// [`Definition`] per item.
pub open spec fn definition_items_spec(
    language: Language,
    items: Seq<ListItemView>,
    j: int,
    acc: Seq<DefinitionView>,
    warnings: Seq<Warning>,
) -> (Seq<DefinitionView>, Seq<Warning>)
    decreases items, 2int, items.len() - j,
{
    if j < 0 || j >= items.len() {
        (acc, warnings)
    } else {
        let (d, warnings1) = definition_spec(language, items[j], warnings);
        definition_items_spec(language, items, j + 1, acc.push(d), warnings1)
    }
}

/// The first-occurrence-order law for the label walk: starting from a
/// duplicate-free list, whenever the walk yields a label list, the list
/// already collected stays a prefix of it — a repeat never changes or
/// reorders what was recorded — and the final list holds each value
/// exactly once, in the order the values first occurred.
pub proof fn lemma_labels_first_occurrence(
    language: Language,
    node: NodeView,
    language_parameter: ParameterView,
    params: Seq<ParameterView>,
    i: int,
    labels: Seq<Seq<char>>,
    warnings: Seq<Warning>,
)
    requires
        forall|a: int, b: int| 0 <= a < b < labels.len() ==> labels[a] != labels[b],
    ensures
        ({
            let (f, w) = labels_loop(language, node, language_parameter, params, i, labels, warnings);
            f matches FlowingView::Labels { labels: ls } ==> labels.is_prefix_of(ls) && (forall|
                a: int,
                b: int,
            |
                0 <= a < b < ls.len() ==> ls[a] != ls[b])
        }),
    decreases params.len() - i,
{
    if i < 0 || i >= params.len() {
        assert(labels =~= labels.subrange(0, labels.len() as int));
    } else {
        let p = params[i];
        if p.name is None {
            match text_not_empty_of(p.value) {
                None => {},
                Some(value) => {
                    if labels.contains(value) {
                        lemma_labels_first_occurrence(
                            language,
                            node,
                            language_parameter,
                            params,
                            i + 1,
                            labels,
                            warnings.push(
                                warning_of(
                                    p.start,
                                    p.end,
                                    Some(language),
                                    WarningMessage::Duplicate,
                                ),
                            ),
                        );
                    } else {
                        let extended = labels.push(value);
                        assert(forall|k: int| 0 <= k < labels.len() ==> labels[k] != value);
                        lemma_labels_first_occurrence(
                            language,
                            node,
                            language_parameter,
                            params,
                            i + 1,
                            extended,
                            warnings,
                        );
                        let (f, w) = labels_loop(
                            language,
                            node,
                            language_parameter,
                            params,
                            i + 1,
                            extended,
                            warnings,
                        );
                        if let FlowingView::Labels { labels: ls } = f {
                            assert(extended =~= ls.subrange(0, extended.len() as int));
                            assert(labels =~= ls.subrange(0, labels.len() as int));
                        }
                    }
                },
            }
        }
    }
}

/// The first-occurrence-order law for a whole `label` template: whenever
/// the parse yields a label list, the list holds each distinct value
/// exactly once, in the order the values first occurred among the
/// parameters.
pub proof fn lemma_labels_distinct(
    language: Language,
    node: NodeView,
    params: Seq<ParameterView>,
    warnings: Seq<Warning>,
)
    ensures
        ({
            let (f, w) = labels_spec(language, node, params, warnings);
            f matches FlowingView::Labels { labels: ls } ==> forall|a: int, b: int|
                0 <= a < b < ls.len() ==> ls[a] != ls[b]
        }),
{
    if params.len() > 0 {
        let lp = params[0];
        if lp.name is None {
            match text_of(lp.value) {
                None => {},
                Some(code) => {
                    if code == language_code_of(language) && params.len() > 1 {
                        lemma_labels_first_occurrence(
                            language,
                            node,
                            lp,
                            params,
                            1,
                            Seq::empty(),
                            warnings,
                        );
                    }
                },
            }
        }
    }
}

/// The first-wins law for labels: a parameter repeating a label already
/// collected never changes the collected labels, and appends exactly one
/// duplicate warning for the repeated parameter.
pub proof fn lemma_duplicate_label_kept(
    language: Language,
    node: NodeView,
    language_parameter: ParameterView,
    params: Seq<ParameterView>,
    i: int,
    labels: Seq<Seq<char>>,
    warnings: Seq<Warning>,
)
    requires
        0 <= i < params.len(),
        params[i].name is None,
        text_not_empty_of(params[i].value) is Some,
        labels.contains(text_not_empty_of(params[i].value)->0),
    ensures
        labels_loop(language, node, language_parameter, params, i, labels, warnings)
            == labels_loop(
            language,
            node,
            language_parameter,
            params,
            i + 1,
            labels,
            warnings.push(
                warning_of(
                    params[i].start,
                    params[i].end,
                    Some(language),
                    WarningMessage::Duplicate,
                ),
            ),
        ),
{
}

/// Whether one of the strings in `v` holds the characters of `s`.
fn contains_string(v: &Vec<String>, s: &String) -> (r: bool)
    ensures
        r == strings_view(v@).contains(s@),
{
    let mut j: usize = 0;
    while j < v.len()
        invariant
            0 <= j <= v@.len(),
            forall|k: int| 0 <= k < j ==> strings_view(v@)[k] != s@,
        decreases v@.len() - j,
    {
        assert(strings_view(v@)[j as int] == v@[j as int]@);
        if v[j] == *s {
            return true;
        }
        j = j + 1;
    }
    proof {
        assert(forall|k: int| 0 <= k < strings_view(v@).len() ==> strings_view(v@)[k] != s@);
    }
    false
}

/// Parses a `defdate` template into a [`Flowing::DefinitionDate`] element,
/// or an unrecognized placeholder when its parameters have the wrong
/// shape.
fn parse_definition_date(
    context: &mut Context,
    template_node: &Node,
    parameters: &Vec<Parameter>,
) -> (r: Flowing)
    requires
        old(context).language is Some,
    ensures
        final(context).language == old(context).language,
        ({
            let (f, w) = defdate_spec(
                old(context).language->0,
                node_view(*template_node),
                params_view(parameters@),
                old(context).warnings@,
            );
            flowing_view(r) == f && final(context).warnings@ == w
        }),
{
    proof {
        assert(params_view(parameters@).len() == parameters@.len());
    }
    if parameters.len() == 1 {
        assert(params_view(parameters@)[0] == crate::param_view(parameters@[0]));
        let parameter = &parameters[0];
        if parameter.name.is_none() {
            return match parse_text_not_empty(&parameter.value) {
                None => create_unknown(
                    context,
                    template_node,
                    parameter.start,
                    parameter.end,
                    WarningMessage::ValueUnrecognized,
                ),
                Some(value) => Flowing::DefinitionDate { value },
            };
        }
    }
    create_unknown(
        context,
        template_node,
        template_node.start,
        template_node.end,
        WarningMessage::ValueUnrecognized,
    )
}

/// Parses a `label` template into a [`Flowing::Labels`] element, or an
/// unrecognized placeholder when the language code or a parameter is
/// wrong.
fn parse_labels(context: &mut Context, template_node: &Node, parameters: &Vec<Parameter>) -> (r:
    Flowing)
    requires
        old(context).language is Some,
    ensures
        final(context).language == old(context).language,
        ({
            let (f, w) = labels_spec(
                old(context).language->0,
                node_view(*template_node),
                params_view(parameters@),
                old(context).warnings@,
            );
            flowing_view(r) == f && final(context).warnings@ == w
        }),
{
    proof {
        assert(params_view(parameters@).len() == parameters@.len());
    }
    if parameters.len() == 0 {
        return create_unknown(
            context,
            template_node,
            template_node.start,
            template_node.end,
            WarningMessage::Empty,
        );
    }
    assert(params_view(parameters@)[0] == crate::param_view(parameters@[0]));
    let language_parameter = &parameters[0];
    if language_parameter.name.is_some() {
        return create_unknown(
            context,
            template_node,
            language_parameter.start,
            language_parameter.end,
            WarningMessage::Unrecognized,
        );
    }
    match parse_text(&language_parameter.value) {
        None => create_unknown(
            context,
            template_node,
            language_parameter.start,
            language_parameter.end,
            WarningMessage::ValueUnrecognized,
        ),
        Some(code) => {
            if !str_eq(code.as_str(), context.language.unwrap().language_code()) {
                return create_unknown(
                    context,
                    template_node,
                    language_parameter.start,
                    language_parameter.end,
                    WarningMessage::ValueConflicting,
                );
            }
            if parameters.len() > 1 {
                let mut labels: Vec<String> = Vec::new();
                let mut i: usize = 1;
                assert(strings_view(labels@) =~= Seq::<Seq<char>>::empty());
                while i < parameters.len()
                    invariant
                        1 <= i <= parameters@.len(),
                        old(context).language is Some,
                        context.language == old(context).language,
                        params_view(parameters@).len() == parameters@.len(),
                        1 < parameters@.len(),
                        params_view(parameters@)[0] == crate::param_view(parameters@[0]),
                        crate::param_view(parameters@[0]).name is None,
                        text_of(crate::param_view(parameters@[0]).value) == Some(code@),
                        code@ == language_code_of(old(context).language->0),
                        labels_loop(
                            old(context).language->0,
                            node_view(*template_node),
                            crate::param_view(parameters@[0]),
                            params_view(parameters@),
                            1,
                            Seq::empty(),
                            old(context).warnings@,
                        ) == labels_loop(
                            old(context).language->0,
                            node_view(*template_node),
                            crate::param_view(parameters@[0]),
                            params_view(parameters@),
                            i as int,
                            strings_view(labels@),
                            context.warnings@,
                        ),
                    decreases parameters@.len() - i,
                {
                    assert(params_view(parameters@)[i as int] == crate::param_view(
                        parameters@[i as int],
                    ));
                    let parameter = &parameters[i];
                    if parameter.name.is_some() {
                        return create_unknown(
                            context,
                            template_node,
                            parameters[0].start,
                            parameters[0].end,
                            WarningMessage::Unrecognized,
                        );
                    }
                    match parse_text_not_empty(&parameter.value) {
                        None => {
                            return create_unknown(
                                context,
                                template_node,
                                parameter.start,
                                parameter.end,
                                WarningMessage::ValueUnrecognized,
                            );
                        },
                        Some(value) => {
                            if contains_string(&labels, &value) {
                                add_warning(
                                    context,
                                    parameter.start,
                                    parameter.end,
                                    WarningMessage::Duplicate,
                                );
                            } else {
                                proof {
                                    assert(strings_view(labels@.push(value)) =~= strings_view(
                                        labels@,
                                    ).push(value@));
                                }
                                labels.push(value);
                            }
                        },
                    }
                    i = i + 1;
                }
                return Flowing::Labels { labels };
            }
            create_unknown(
                context,
                template_node,
                template_node.start,
                template_node.end,
                WarningMessage::Empty,
            )
        },
    }
}

/// Parses a `non-gloss definition` template into a
/// [`Flowing::NonGlossDefinition`] element, or an unrecognized placeholder
/// when its parameters have the wrong shape.
fn parse_non_gloss_definition(
    context: &mut Context,
    template_node: &Node,
    parameters: &Vec<Parameter>,
) -> (r: Flowing)
    requires
        old(context).language is Some,
    ensures
        final(context).language == old(context).language,
        ({
            let (f, w) = non_gloss_spec(
                old(context).language->0,
                node_view(*template_node),
                params_view(parameters@),
                old(context).warnings@,
            );
            flowing_view(r) == f && final(context).warnings@ == w
        }),
{
    proof {
        assert(params_view(parameters@).len() == parameters@.len());
    }
    if parameters.len() == 1 {
        assert(params_view(parameters@)[0] == crate::param_view(parameters@[0]));
        let parameter = &parameters[0];
        if parameter.name.is_none() {
            if parameter.value.len() == 0 {
                return create_unknown(
                    context,
                    template_node,
                    parameter.start,
                    parameter.end,
                    WarningMessage::Empty,
                );
            }
            let mut value: Vec<Flowing> = Vec::new();
            let mut k: usize = 0;
            assert(flowings_view(value@) =~= Seq::<FlowingView>::empty());
            while k < parameter.value.len()
                invariant
                    0 <= k <= parameter.value@.len(),
                    old(context).language is Some,
                    context.language == old(context).language,
                    nodes_view(parameter.value@).len() == parameter.value@.len(),
                    non_gloss_loop(
                        old(context).language->0,
                        nodes_view(parameter.value@),
                        0,
                        Seq::empty(),
                        old(context).warnings@,
                    ) == non_gloss_loop(
                        old(context).language->0,
                        nodes_view(parameter.value@),
                        k as int,
                        flowings_view(value@),
                        context.warnings@,
                    ),
                decreases parameter.value@.len() - k,
            {
                assert(nodes_view(parameter.value@)[k as int] == node_view(
                    parameter.value@[k as int],
                ));
                let node = &parameter.value[k];
                let f = match &node.kind {
                    NodeKind::Link { target, text } => parse_link(context, node, target, text),
                    NodeKind::Text { value } => Flowing::Text { value: value.clone() },
                    _ => create_unknown(
                        context,
                        node,
                        node.start,
                        node.end,
                        WarningMessage::Unrecognized,
                    ),
                };
                value.push(f);
                k = k + 1;
            }
            return Flowing::NonGlossDefinition { value };
        }
    }
    create_unknown(
        context,
        template_node,
        template_node.start,
        template_node.end,
        WarningMessage::ValueUnrecognized,
    )
}

/// Parses one definition list item into a [`Definition`], classifying each
/// of the item's nodes: formatting toggles, links, text and the dedicated
/// definition templates become inline content, the first nested ordered
/// list becomes the sub-definitions (a further one is flagged as a
/// duplicate and ignored), nested unordered and definition lists are only
/// counted, and anything else becomes an unrecognized placeholder. An
/// item producing no inline content at all is flagged as empty.
pub fn parse_definition(context: &mut Context, list_item: &ListItem) -> (r: Definition)
    requires
        old(context).language is Some,
    ensures
        final(context).language == old(context).language,
        ({
            let (d, w) = definition_spec(
                old(context).language->0,
                item_view(*list_item),
                old(context).warnings@,
            );
            definition_view(r) == d && final(context).warnings@ == w
        }),
    decreases *list_item, 0int, 0int,
{
    let mut definition: Vec<Flowing> = Vec::new();
    let mut definitions: Option<Vec<Definition>> = None;
    let mut examples: u32 = 0;
    let mut quotations: u32 = 0;
    let mut idx: usize = 0;
    assert(flowings_view(definition@) =~= Seq::<FlowingView>::empty());
    while idx < list_item.nodes.len()
        invariant
            0 <= idx <= list_item.nodes@.len(),
            old(context).language is Some,
            context.language == old(context).language,
            nodes_view(list_item.nodes@).len() == list_item.nodes@.len(),
            definition_loop(
                old(context).language->0,
                nodes_view(list_item.nodes@),
                0,
                Seq::empty(),
                None,
                0,
                0,
                old(context).warnings@,
            ) == definition_loop(
                old(context).language->0,
                nodes_view(list_item.nodes@),
                idx as int,
                flowings_view(definition@),
                opt_definitions_view(definitions),
                examples,
                quotations,
                context.warnings@,
            ),
        decreases list_item.nodes@.len() - idx,
    {
        assert(nodes_view(list_item.nodes@)[idx as int] == node_view(
            list_item.nodes@[idx as int],
        ));
        let node = &list_item.nodes[idx];
        match &node.kind {
            NodeKind::DefinitionList { items } => {
                proof {
                    assert(items_view(items@).len() == items@.len());
                }
                examples = count_items(examples, items.len());
                add_warning(context, node.start, node.end, WarningMessage::Supplementary);
            },
            NodeKind::Bold => {
                push_flowing(&mut definition, Flowing::Bold);
            },
            NodeKind::Italic => {
                push_flowing(&mut definition, Flowing::Italic);
            },
            NodeKind::Link { target, text } => {
                let f = parse_link(context, node, target, text);
                push_flowing(&mut definition, f);
            },
            NodeKind::OrderedList { items } => {
                if definitions.is_some() {
                    add_warning(context, node.start, node.end, WarningMessage::Duplicate);
                } else {
                    proof {
                        assert(decreases_to!(*list_item, 0int, 0int => *items, 2int, 0int));
                    }
                    let ds = parse_definition_items(context, items);
                    definitions = Some(ds);
                }
            },
            NodeKind::Text { value } => {
                push_flowing(&mut definition, Flowing::Text { value: value.clone() });
            },
            NodeKind::Template { name, parameters } => {
                let mut handled = false;
                if let Some(tname) = parse_text(name) {
                    if str_eq(tname.as_str(), "defdate") {
                        let f = parse_definition_date(context, node, parameters);
                        push_flowing(&mut definition, f);
                        handled = true;
                    } else if str_eq(tname.as_str(), "label") || str_eq(tname.as_str(), "lb") {
                        let f = parse_labels(context, node, parameters);
                        push_flowing(&mut definition, f);
                        handled = true;
                    } else if str_eq(tname.as_str(), "n-g") || str_eq(
                        tname.as_str(),
                        "non-gloss definition",
                    ) {
                        let f = parse_non_gloss_definition(context, node, parameters);
                        push_flowing(&mut definition, f);
                        handled = true;
                    }
                }
                if !handled {
                    let f = create_unknown(
                        context,
                        node,
                        node.start,
                        node.end,
                        WarningMessage::Unrecognized,
                    );
                    push_flowing(&mut definition, f);
                }
            },
            NodeKind::UnorderedList { items } => {
                proof {
                    assert(items_view(items@).len() == items@.len());
                }
                quotations = count_items(quotations, items.len());
                add_warning(context, node.start, node.end, WarningMessage::Supplementary);
            },
            _ => {
                let f = create_unknown(
                    context,
                    node,
                    node.start,
                    node.end,
                    WarningMessage::Unrecognized,
                );
                push_flowing(&mut definition, f);
            },
        }
        idx = idx + 1;
    }
    if definition.len() == 0 {
        add_warning(context, list_item.start, list_item.end, WarningMessage::Empty);
    }
    Definition {
        definition,
        definitions: match definitions {
            None => Vec::new(),
            Some(ds) => ds,
        },
        examples,
        quotations,
    }
}

/// The mathematical value of the in-progress nested definition slot.
pub open spec fn opt_definitions_view(d: Option<Vec<Definition>>) -> Option<Seq<DefinitionView>> {
    match d {
        None => None,
        Some(ds) => Some(definitions_view(ds@)),
    }
}

/// Appends one inline element, keeping the sequence's mathematical value
/// in step.
fn push_flowing(definition: &mut Vec<Flowing>, f: Flowing)
    ensures
        final(definition)@ == old(definition)@.push(f),
        flowings_view(final(definition)@) == flowings_view(old(definition)@).push(flowing_view(f)),
{
    definition.push(f);
}

/// Adds the length of an embedded list to a count of examples or
/// quotations, holding the count at the largest `u32` value.
fn count_items(count: u32, len: usize) -> (r: u32)
    ensures
        r == sat_add_u32(count, len as int),
{
    if len > (u32::MAX - count) as usize {
        u32::MAX
    } else {
        count + (len as u32)
    }
}

/// Parses a run of definition list items, one [`Definition`] per item.
pub(crate) fn parse_definition_items(context: &mut Context, items: &Vec<ListItem>) -> (r: Vec<Definition>)
    requires
        old(context).language is Some,
    ensures
        final(context).language == old(context).language,
        ({
            let (ds, w) = definition_items_spec(
                old(context).language->0,
                items_view(items@),
                0,
                Seq::empty(),
                old(context).warnings@,
            );
            definitions_view(r@) == ds && final(context).warnings@ == w
        }),
    decreases *items, 2int, 0int,
{
    let mut out: Vec<Definition> = Vec::new();
    let mut j: usize = 0;
    assert(definitions_view(out@) =~= Seq::<DefinitionView>::empty());
    while j < items.len()
        invariant
            0 <= j <= items@.len(),
            old(context).language is Some,
            context.language == old(context).language,
            items_view(items@).len() == items@.len(),
            definition_items_spec(
                old(context).language->0,
                items_view(items@),
                0,
                Seq::empty(),
                old(context).warnings@,
            ) == definition_items_spec(
                old(context).language->0,
                items_view(items@),
                j as int,
                definitions_view(out@),
                context.warnings@,
            ),
        decreases items@.len() - j,
    {
        assert(items_view(items@)[j as int] == item_view(items@[j as int]));
        proof {
            assert(decreases_to!(*items, 2int, 0int => items@[j as int], 0int, 0int));
        }
        let d = parse_definition(context, &items[j]);
        out.push(d);
        j = j + 1;
    }
    out
}

} // verus!
