//! Parser for the `Usage notes` subsection: inline content with reference
//! markers, cross-dictionary term templates, and one level of
//! unordered-list recursion.

use vstd::prelude::*;

use crate::util::{Context, add_warning, create_unknown, link_of, parse_link, parse_text,
    parse_text_not_empty, str_eq, text_not_empty_of, text_of, unknown_of, warning_of};
use crate::{Flowing, FlowingView, Language, ListItemView, Node, NodeKind, NodeKindView,
    NodeView, Parameter, ParameterView, Warning, WarningMessage, flowing_items_view, flowing_view,
    flowings_view, item_view, items_view, node_view, nodes_view, params_view};

verus! {

broadcast use crate::group_view_lemmas;

/// The parse of an `l` or `m` template: exactly two unnamed, nonempty
/// parameters, a language code and a term; any other shape is replaced by
/// an unrecognized placeholder.
pub open spec fn term_spec(
    language: Option<Language>,
    node: NodeView,
    params: Seq<ParameterView>,
    warnings: Seq<Warning>,
) -> (FlowingView, Seq<Warning>) {
    if params.len() == 2 && params[0].name is None && params[1].name is None {
        let lp = params[0];
        let tp = params[1];
        match text_not_empty_of(lp.value) {
            None => (
                unknown_of(node),
                warnings.push(
                    warning_of(lp.start, lp.end, language, WarningMessage::ValueUnrecognized),
                ),
            ),
            Some(term_language) => match text_not_empty_of(tp.value) {
                None => (
                    unknown_of(node),
                    warnings.push(
                        warning_of(tp.start, tp.end, language, WarningMessage::ValueUnrecognized),
                    ),
                ),
                Some(term) => (FlowingView::Term { language: term_language, term }, warnings),
            },
        }
    } else {
        (
            unknown_of(node),
            warnings.push(
                warning_of(node.start, node.end, language, WarningMessage::ValueUnrecognized),
            ),
        )
    }
}

/// The reinterpretation of one unordered-list item's nodes as inline
/// content: formatting toggles, links, reference tags, term templates and
/// text are kept, anything else becomes an unrecognized placeholder.
pub open spec fn note_item_loop(
    language: Option<Language>,
    nodes: Seq<NodeView>,
    k: int,
    acc: Seq<FlowingView>,
    warnings: Seq<Warning>,
) -> (Seq<FlowingView>, Seq<Warning>)
    decreases nodes.len() - k,
{
    if k < 0 || k >= nodes.len() {
        (acc, warnings)
    } else {
        let n = nodes[k];
        match n.kind {
            NodeKindView::Bold => note_item_loop(
                language,
                nodes,
                k + 1,
                acc.push(FlowingView::Bold),
                warnings,
            ),
            NodeKindView::Italic => note_item_loop(
                language,
                nodes,
                k + 1,
                acc.push(FlowingView::Italic),
                warnings,
            ),
            NodeKindView::Link { target, text } => {
                let (f, warnings1) = link_of(language, warnings, n, target, text);
                note_item_loop(language, nodes, k + 1, acc.push(f), warnings1)
            },
            NodeKindView::Tag { name } => if name == "ref"@ {
                note_item_loop(
                    language,
                    nodes,
                    k + 1,
                    acc.push(FlowingView::Reference),
                    warnings.push(
                        warning_of(n.start, n.end, language, WarningMessage::Supplementary),
                    ),
                )
            } else {
                note_item_loop(
                    language,
                    nodes,
                    k + 1,
                    acc.push(unknown_of(n)),
                    warnings.push(
                        warning_of(n.start, n.end, language, WarningMessage::Unrecognized),
                    ),
                )
            },
            NodeKindView::Template { name, parameters } => {
                let tn = text_of(name);
                if tn is Some && (tn->0 == "l"@ || tn->0 == "m"@) {
                    let (f, warnings1) = term_spec(language, n, parameters, warnings);
                    note_item_loop(language, nodes, k + 1, acc.push(f), warnings1)
                } else {
                    note_item_loop(
                        language,
                        nodes,
                        k + 1,
                        acc.push(unknown_of(n)),
                        warnings.push(
                            warning_of(n.start, n.end, language, WarningMessage::Unrecognized),
                        ),
                    )
                }
            },
            NodeKindView::Text { value } => note_item_loop(
                language,
                nodes,
                k + 1,
                acc.push(FlowingView::Text { value }),
                warnings,
            ),
            _ => note_item_loop(
                language,
                nodes,
                k + 1,
                acc.push(unknown_of(n)),
                warnings.push(
                    warning_of(n.start, n.end, language, WarningMessage::Unrecognized),
                ),
            ),
        }
    }
}

/// The walk of an unordered list's items inside a usage-notes section: an
/// item without content is flagged as empty and dropped, every other item
/// is reinterpreted as inline content.
pub open spec fn note_items_loop(
    language: Option<Language>,
    items: Seq<ListItemView>,
    j: int,
    acc: Seq<Seq<FlowingView>>,
    warnings: Seq<Warning>,
) -> (Seq<Seq<FlowingView>>, Seq<Warning>)
    decreases items.len() - j,
{
    if j < 0 || j >= items.len() {
        (acc, warnings)
    } else {
        let item = items[j];
        if item.nodes.len() == 0 {
            note_items_loop(
                language,
                items,
                j + 1,
                acc,
                warnings.push(
                    warning_of(item.start, item.end, language, WarningMessage::Empty),
                ),
            )
        } else {
            let (elems, warnings1) = note_item_loop(language, item.nodes, 0, Seq::empty(), warnings);
            note_items_loop(language, items, j + 1, acc.push(elems), warnings1)
        }
    }
}

/// The walk of a usage-notes section's sibling nodes from index `i` on,
/// collecting the inline content.
pub open spec fn notes_loop(
    language: Option<Language>,
    nodes: Seq<NodeView>,
    i: int,
    notes: Seq<FlowingView>,
    warnings: Seq<Warning>,
) -> (int, Seq<FlowingView>, Seq<Warning>)
    decreases nodes.len() - i,
{
    if i < 0 || i >= nodes.len() {
        (i, notes, warnings)
    } else {
        let n = nodes[i];
        match n.kind {
            NodeKindView::Bold => notes_loop(
                language,
                nodes,
                i + 1,
                notes.push(FlowingView::Bold),
                warnings,
            ),
            NodeKindView::Heading { .. } => (i, notes, warnings),
            NodeKindView::Italic => notes_loop(
                language,
                nodes,
                i + 1,
                notes.push(FlowingView::Italic),
                warnings,
            ),
            NodeKindView::Link { target, text } => {
                let (f, warnings1) = link_of(language, warnings, n, target, text);
                notes_loop(language, nodes, i + 1, notes.push(f), warnings1)
            },
            NodeKindView::Tag { name } => if name == "ref"@ {
                notes_loop(
                    language,
                    nodes,
                    i + 1,
                    notes.push(FlowingView::Reference),
                    warnings.push(
                        warning_of(n.start, n.end, language, WarningMessage::Supplementary),
                    ),
                )
            } else {
                notes_loop(
                    language,
                    nodes,
                    i + 1,
                    notes.push(unknown_of(n)),
                    warnings.push(
                        warning_of(n.start, n.end, language, WarningMessage::Unrecognized),
                    ),
                )
            },
            NodeKindView::Template { name, parameters } => {
                let tn = text_of(name);
                if tn is Some && (tn->0 == "l"@ || tn->0 == "m"@) {
                    let (f, warnings1) = term_spec(language, n, parameters, warnings);
                    notes_loop(language, nodes, i + 1, notes.push(f), warnings1)
                } else {
                    notes_loop(
                        language,
                        nodes,
                        i + 1,
                        notes.push(unknown_of(n)),
                        warnings.push(
                            warning_of(n.start, n.end, language, WarningMessage::Unrecognized),
                        ),
                    )
                }
            },
            NodeKindView::Text { value } => notes_loop(
                language,
                nodes,
                i + 1,
                notes.push(FlowingView::Text { value }),
                warnings,
            ),
            NodeKindView::UnorderedList { items } => {
                let (its, warnings1) = note_items_loop(language, items, 0, Seq::empty(), warnings);
                if its.len() > 0 {
                    notes_loop(
                        language,
                        nodes,
                        i + 1,
                        notes.push(FlowingView::UnorderedList { items: its }),
                        warnings1,
                    )
                } else {
                    notes_loop(language, nodes, i + 1, notes, warnings1)
                }
            },
            _ => notes_loop(
                language,
                nodes,
                i + 1,
                notes.push(unknown_of(n)),
                warnings.push(
                    warning_of(n.start, n.end, language, WarningMessage::Unrecognized),
                ),
            ),
        }
    }
}

/// The walk of a usage-notes section never steps backwards nor past the
/// end of its nodes.
pub broadcast proof fn lemma_notes_loop_consumed(
    language: Option<Language>,
    nodes: Seq<NodeView>,
    i: int,
    notes: Seq<FlowingView>,
    warnings: Seq<Warning>,
)
    requires
        0 <= i <= nodes.len(),
    ensures
        i <= (#[trigger] notes_loop(language, nodes, i, notes, warnings)).0 <= nodes.len(),
    decreases nodes.len() - i,
{
    if 0 <= i < nodes.len() {
        let n = nodes[i];
        let unrecognized = warnings.push(
            warning_of(n.start, n.end, language, WarningMessage::Unrecognized),
        );
        match n.kind {
            NodeKindView::Bold => {
                lemma_notes_loop_consumed(
                    language,
                    nodes,
                    i + 1,
                    notes.push(FlowingView::Bold),
                    warnings,
                );
            },
            NodeKindView::Heading { .. } => {},
            NodeKindView::Italic => {
                lemma_notes_loop_consumed(
                    language,
                    nodes,
                    i + 1,
                    notes.push(FlowingView::Italic),
                    warnings,
                );
            },
            NodeKindView::Link { target, text } => {
                let (f, warnings1) = link_of(language, warnings, n, target, text);
                lemma_notes_loop_consumed(language, nodes, i + 1, notes.push(f), warnings1);
            },
            NodeKindView::Tag { name } => {
                if name == "ref"@ {
                    lemma_notes_loop_consumed(
                        language,
                        nodes,
                        i + 1,
                        notes.push(FlowingView::Reference),
                        warnings.push(
                            warning_of(n.start, n.end, language, WarningMessage::Supplementary),
                        ),
                    );
                } else {
                    lemma_notes_loop_consumed(
                        language,
                        nodes,
                        i + 1,
                        notes.push(unknown_of(n)),
                        unrecognized,
                    );
                }
            },
            NodeKindView::Template { name, parameters } => {
                let tn = text_of(name);
                if tn is Some && (tn->0 == "l"@ || tn->0 == "m"@) {
                    let (f, warnings1) = term_spec(language, n, parameters, warnings);
                    lemma_notes_loop_consumed(language, nodes, i + 1, notes.push(f), warnings1);
                } else {
                    lemma_notes_loop_consumed(
                        language,
                        nodes,
                        i + 1,
                        notes.push(unknown_of(n)),
                        unrecognized,
                    );
                }
            },
            NodeKindView::Text { value } => {
                lemma_notes_loop_consumed(
                    language,
                    nodes,
                    i + 1,
                    notes.push(FlowingView::Text { value }),
                    warnings,
                );
            },
            NodeKindView::UnorderedList { items } => {
                let (its, warnings1) = note_items_loop(language, items, 0, Seq::empty(), warnings);
                if its.len() > 0 {
                    lemma_notes_loop_consumed(
                        language,
                        nodes,
                        i + 1,
                        notes.push(FlowingView::UnorderedList { items: its }),
                        warnings1,
                    );
                } else {
                    lemma_notes_loop_consumed(language, nodes, i + 1, notes, warnings1);
                }
            },
            _ => {
                lemma_notes_loop_consumed(
                    language,
                    nodes,
                    i + 1,
                    notes.push(unknown_of(n)),
                    unrecognized,
                );
            },
        }
    }
}

/// The parse of a usage-notes section: a re-entered section is flagged as
/// a duplicate, consumes nothing and keeps the recorded notes; a section
/// without content is flagged as empty and recorded as present-but-empty,
/// which is distinct from the slot a caller starts from when the section
/// is missing entirely.
pub open spec fn usage_notes_spec(
    language: Option<Language>,
    heading: NodeView,
    nodes: Seq<NodeView>,
    output: Option<Option<Seq<FlowingView>>>,
    warnings: Seq<Warning>,
) -> (int, Option<Option<Seq<FlowingView>>>, Seq<Warning>) {
    if output is Some {
        (
            0,
            output,
            warnings.push(
                warning_of(heading.start, heading.end, language, WarningMessage::Duplicate),
            ),
        )
    } else {
        let (consumed, notes, warnings1) = notes_loop(language, nodes, 0, Seq::empty(), warnings);
        if notes.len() == 0 {
            (
                consumed,
                Some(None),
                warnings1.push(
                    warning_of(heading.start, heading.end, language, WarningMessage::SectionEmpty),
                ),
            )
        } else {
            (consumed, Some(Some(notes)), warnings1)
        }
    }
}

/// The presence law for usage notes: parsing the subsection always leaves
/// the slot occupied, so a slot still empty means the subsection never
/// occurred, while a subsection present but without usable content leaves
/// the occupied-but-empty mark. The two are distinguishable in the
/// result.
pub proof fn lemma_usage_notes_presence(
    language: Option<Language>,
    heading: NodeView,
    nodes: Seq<NodeView>,
    output: Option<Option<Seq<FlowingView>>>,
    warnings: Seq<Warning>,
)
    ensures
        usage_notes_spec(language, heading, nodes, output, warnings).1 is Some,
        ({
            let (c, out, w) = usage_notes_spec(language, heading, nodes, None, warnings);
            out == Some(None::<Seq<FlowingView>>) <==> notes_loop(
                language,
                nodes,
                0,
                Seq::empty(),
                warnings,
            ).1.len() == 0
        }),
{
}

/// The mathematical value of the in-progress usage-notes slot: section not
/// seen, seen without usable content, or its inline content.
pub open spec fn opt_opt_flowings_view(x: Option<Option<Vec<Flowing>>>) -> Option<
    Option<Seq<FlowingView>>,
> {
    match x {
        None => None,
        Some(None) => Some(None),
        Some(Some(notes)) => Some(Some(flowings_view(notes@))),
    }
}

/// Parses an `l` or `m` template into a [`Flowing::Term`] element, or an
/// unrecognized placeholder when its parameters have the wrong shape.
fn parse_template_term(
    context: &mut Context,
    template_node: &Node,
    parameters: &Vec<Parameter>,
) -> (r: Flowing)
    ensures
        final(context).language == old(context).language,
        ({
            let (f, w) = term_spec(
                old(context).language,
                node_view(*template_node),
                params_view(parameters@),
                old(context).warnings@,
            );
            flowing_view(r) == f && final(context).warnings@ == w
        }),
{
    proof {
        assert(params_view(parameters@).len() == parameters@.len());
    }
    if parameters.len() == 2 {
        assert(params_view(parameters@)[0] == crate::param_view(parameters@[0]));
        assert(params_view(parameters@)[1] == crate::param_view(parameters@[1]));
        let language_parameter = &parameters[0];
        let term_parameter = &parameters[1];
        if language_parameter.name.is_none() && term_parameter.name.is_none() {
            return match parse_text_not_empty(&language_parameter.value) {
                None => create_unknown(
                    context,
                    template_node,
                    language_parameter.start,
                    language_parameter.end,
                    WarningMessage::ValueUnrecognized,
                ),
                Some(term_language) => match parse_text_not_empty(&term_parameter.value) {
                    None => create_unknown(
                        context,
                        template_node,
                        term_parameter.start,
                        term_parameter.end,
                        WarningMessage::ValueUnrecognized,
                    ),
                    Some(term) => Flowing::Term { language: term_language, term },
                },
            };
        }
    }
    create_unknown(
        context,
        template_node,
        template_node.start,
        template_node.end,
        WarningMessage::ValueUnrecognized,
    )
}

/// Parses a `Usage notes` subsection into inline content: formatting
/// toggles, links, reference tags, term templates and text are kept, one
/// level of unordered-list recursion is allowed, and anything else becomes
/// an unrecognized placeholder. A re-entered section is flagged as a
/// duplicate, consumes nothing and keeps the recorded notes; a section
/// without content is flagged as empty and recorded as present-but-empty.
pub fn parse_usage_notes(
    context: &mut Context,
    heading_node: &Node,
    nodes: &[Node],
    output: &mut Option<Option<Vec<Flowing>>>,
) -> (consumed: usize)
    ensures
        final(context).language == old(context).language,
        consumed <= nodes@.len(),
        ({
            let (c, out, w) = usage_notes_spec(
                old(context).language,
                node_view(*heading_node),
                nodes_view(nodes@),
                opt_opt_flowings_view(*old(output)),
                old(context).warnings@,
            );
            c == consumed && final(context).warnings@ == w && opt_opt_flowings_view(*final(output))
                == out
        }),
{
    if output.is_some() {
        add_warning(context, heading_node.start, heading_node.end, WarningMessage::Duplicate);
        return 0;
    }
    let mut node_index: usize = 0;
    let mut usage_notes: Vec<Flowing> = Vec::new();
    assert(flowings_view(usage_notes@) =~= Seq::<FlowingView>::empty());
    while node_index < nodes.len()
        invariant
            0 <= node_index <= nodes@.len(),
            nodes_view(nodes@).len() == nodes@.len(),
            context.language == old(context).language,
            notes_loop(
                old(context).language,
                nodes_view(nodes@),
                0,
                Seq::empty(),
                old(context).warnings@,
            ) == notes_loop(
                old(context).language,
                nodes_view(nodes@),
                node_index as int,
                flowings_view(usage_notes@),
                context.warnings@,
            ),
        ensures
            0 <= node_index <= nodes@.len(),
            context.language == old(context).language,
            notes_loop(
                old(context).language,
                nodes_view(nodes@),
                0,
                Seq::empty(),
                old(context).warnings@,
            ) == (node_index as int, flowings_view(usage_notes@), context.warnings@),
        decreases nodes@.len() - node_index,
    {
        assert(nodes_view(nodes@)[node_index as int] == node_view(nodes@[node_index as int]));
        let node = &nodes[node_index];
        match &node.kind {
            NodeKind::Bold => {
                node_index = node_index + 1;
                push_note(&mut usage_notes, Flowing::Bold);
            },
            NodeKind::Heading { .. } => {
                break ;
            },
            NodeKind::Italic => {
                node_index = node_index + 1;
                push_note(&mut usage_notes, Flowing::Italic);
            },
            NodeKind::Link { target, text } => {
                node_index = node_index + 1;
                let f = parse_link(context, node, target, text);
                push_note(&mut usage_notes, f);
            },
            NodeKind::Tag { name } => {
                node_index = node_index + 1;
                if str_eq(name.as_str(), "ref") {
                    add_warning(context, node.start, node.end, WarningMessage::Supplementary);
                    push_note(&mut usage_notes, Flowing::Reference);
                } else {
                    let f = create_unknown(
                        context,
                        node,
                        node.start,
                        node.end,
                        WarningMessage::Unrecognized,
                    );
                    push_note(&mut usage_notes, f);
                }
            },
            NodeKind::Template { name, parameters } => {
                node_index = node_index + 1;
                let mut handled = false;
                if let Some(tname) = parse_text(name) {
                    if str_eq(tname.as_str(), "l") || str_eq(tname.as_str(), "m") {
                        let f = parse_template_term(context, node, parameters);
                        push_note(&mut usage_notes, f);
                        handled = true;
                    }
                }
                if !handled {
                    let f = create_unknown(
                        context,
                        node,
                        node.start,
                        node.end,
                        WarningMessage::Unrecognized,
                    );
                    push_note(&mut usage_notes, f);
                }
            },
            NodeKind::Text { value } => {
                node_index = node_index + 1;
                push_note(&mut usage_notes, Flowing::Text { value: value.clone() });
            },
            NodeKind::UnorderedList { items } => {
                node_index = node_index + 1;
                let mut collected: Vec<Vec<Flowing>> = Vec::new();
                let mut j: usize = 0;
                assert(flowing_items_view(collected@) =~= Seq::<Seq<FlowingView>>::empty());
                let ghost warnings_list = context.warnings@;
                while j < items.len()
                    invariant
                        0 <= j <= items@.len(),
                        items_view(items@).len() == items@.len(),
                        context.language == old(context).language,
                        note_items_loop(
                            old(context).language,
                            items_view(items@),
                            0,
                            Seq::empty(),
                            warnings_list,
                        ) == note_items_loop(
                            old(context).language,
                            items_view(items@),
                            j as int,
                            flowing_items_view(collected@),
                            context.warnings@,
                        ),
                    decreases items@.len() - j,
                {
                    assert(items_view(items@)[j as int] == item_view(items@[j as int]));
                    let item = &items[j];
                    if item.nodes.len() == 0 {
                        add_warning(context, item.start, item.end, WarningMessage::Empty);
                    } else {
                        proof {
                            assert(nodes_view(item.nodes@).len() == item.nodes@.len());
                        }
                        let mut elems: Vec<Flowing> = Vec::new();
                        let mut k: usize = 0;
                        assert(flowings_view(elems@) =~= Seq::<FlowingView>::empty());
                        let ghost warnings_item = context.warnings@;
                        while k < item.nodes.len()
                            invariant
                                0 <= k <= item.nodes@.len(),
                                nodes_view(item.nodes@).len() == item.nodes@.len(),
                                context.language == old(context).language,
                                note_item_loop(
                                    old(context).language,
                                    nodes_view(item.nodes@),
                                    0,
                                    Seq::empty(),
                                    warnings_item,
                                ) == note_item_loop(
                                    old(context).language,
                                    nodes_view(item.nodes@),
                                    k as int,
                                    flowings_view(elems@),
                                    context.warnings@,
                                ),
                            decreases item.nodes@.len() - k,
                        {
                            assert(nodes_view(item.nodes@)[k as int] == node_view(
                                item.nodes@[k as int],
                            ));
                            let inner = &item.nodes[k];
                            match &inner.kind {
                                NodeKind::Bold => {
                                    push_note(&mut elems, Flowing::Bold);
                                },
                                NodeKind::Italic => {
                                    push_note(&mut elems, Flowing::Italic);
                                },
                                NodeKind::Link { target, text } => {
                                    let f = parse_link(context, inner, target, text);
                                    push_note(&mut elems, f);
                                },
                                NodeKind::Tag { name } => {
                                    if str_eq(name.as_str(), "ref") {
                                        add_warning(
                                            context,
                                            inner.start,
                                            inner.end,
                                            WarningMessage::Supplementary,
                                        );
                                        push_note(&mut elems, Flowing::Reference);
                                    } else {
                                        let f = create_unknown(
                                            context,
                                            inner,
                                            inner.start,
                                            inner.end,
                                            WarningMessage::Unrecognized,
                                        );
                                        push_note(&mut elems, f);
                                    }
                                },
                                NodeKind::Template { name, parameters } => {
                                    let mut handled = false;
                                    if let Some(tname) = parse_text(name) {
                                        if str_eq(tname.as_str(), "l") || str_eq(
                                            tname.as_str(),
                                            "m",
                                        ) {
                                            let f = parse_template_term(context, inner, parameters);
                                            push_note(&mut elems, f);
                                            handled = true;
                                        }
                                    }
                                    if !handled {
                                        let f = create_unknown(
                                            context,
                                            inner,
                                            inner.start,
                                            inner.end,
                                            WarningMessage::Unrecognized,
                                        );
                                        push_note(&mut elems, f);
                                    }
                                },
                                NodeKind::Text { value } => {
                                    push_note(
                                        &mut elems,
                                        Flowing::Text { value: value.clone() },
                                    );
                                },
                                _ => {
                                    let f = create_unknown(
                                        context,
                                        inner,
                                        inner.start,
                                        inner.end,
                                        WarningMessage::Unrecognized,
                                    );
                                    push_note(&mut elems, f);
                                },
                            }
                            k = k + 1;
                        }
                        proof {
                            assert(flowing_items_view(collected@.push(elems)) =~= flowing_items_view(
                                collected@,
                            ).push(flowings_view(elems@)));
                        }
                        collected.push(elems);
                    }
                    j = j + 1;
                }
                proof {
                    assert(flowing_items_view(collected@).len() == collected@.len());
                }
                if !collected.is_empty() {
                    push_note(&mut usage_notes, Flowing::UnorderedList { items: collected });
                }
            },
            _ => {
                node_index = node_index + 1;
                let f = create_unknown(
                    context,
                    node,
                    node.start,
                    node.end,
                    WarningMessage::Unrecognized,
                );
                push_note(&mut usage_notes, f);
            },
        }
    }
    if usage_notes.len() == 0 {
        *output = Some(None);
        add_warning(context, heading_node.start, heading_node.end, WarningMessage::SectionEmpty);
    } else {
        *output = Some(Some(usage_notes));
    }
    node_index
}

/// Appends one inline element, keeping the sequence's mathematical value
/// in step.
fn push_note(notes: &mut Vec<Flowing>, f: Flowing)
    ensures
        final(notes)@ == old(notes)@.push(f),
        flowings_view(final(notes)@) == flowings_view(old(notes)@).push(flowing_view(f)),
{
    notes.push(f);
}

} // verus!
