//! Parser for the inflection-table subsections (`Conjugation` and
//! `Declension`): scans for the one template whose name is the active
//! language's code followed by a fixed marker string.

use vstd::prelude::*;
use vstd::string::StringExecFns;

use crate::template::{parse_template, template_spec};
use crate::util::{Context, add_warning, parse_text, str_starts_with, text_of, warning_of};
use crate::{Language, Node, NodeKind, NodeKindView, NodeView, Template, TemplateView, Warning,
    WarningMessage,
    language_code_of, node_view, nodes_view, opt_template_view, templates_view};

verus! {

broadcast use crate::group_view_lemmas;

/// Whether `name` is an inflection-table template name for the language
/// with code `code`: the code immediately followed by the marker `marker`.
pub open spec fn is_inflection_name(name: Seq<char>, code: Seq<char>, marker: Seq<char>) -> bool {
    name.len() >= code.len() + marker.len() && name.subrange(0, code.len() + marker.len() as int)
        == code + marker
}

/// The mathematical value of the in-progress inflection slot: nothing seen
/// yet, seen but discarded, or one kept template.
pub open spec fn opt_opt_template_view(t: Option<Option<Template>>) -> Option<
    Option<TemplateView>,
> {
    match t {
        None => None,
        Some(inner) => Some(opt_template_view(inner)),
    }
}

/// The walk of an inflection section's sibling nodes from index `i` on:
/// the first template whose name is the language code followed by `marker`
/// is kept, any further such template discards the slot, and any other
/// node is unrecognized. Returns the number of nodes consumed, the slot
/// and the warnings.
pub open spec fn inflection_loop(
    language: Language,
    marker: Seq<char>,
    nodes: Seq<NodeView>,
    i: int,
    inflection: Option<Option<TemplateView>>,
    warnings: Seq<Warning>,
) -> (int, Option<Option<TemplateView>>, Seq<Warning>)
    decreases nodes.len() - i,
{
    if i < 0 || i >= nodes.len() {
        (i, inflection, warnings)
    } else {
        let n = nodes[i];
        match n.kind {
            NodeKindView::Heading { .. } => (i, inflection, warnings),
            NodeKindView::Template { name, parameters } => {
                let tn = text_of(name);
                if tn is Some && is_inflection_name(
                    tn->0,
                    language_code_of(language),
                    marker,
                ) {
                    if inflection is Some {
                        inflection_loop(
                            language,
                            marker,
                            nodes,
                            i + 1,
                            Some(None),
                            warnings.push(
                                warning_of(
                                    n.start,
                                    n.end,
                                    Some(language),
                                    WarningMessage::Duplicate,
                                ),
                            ),
                        )
                    } else {
                        let (t, w) = template_spec(Some(language), tn->0, parameters, warnings);
                        inflection_loop(language, marker, nodes, i + 1, Some(t), w)
                    }
                } else {
                    inflection_loop(
                        language,
                        marker,
                        nodes,
                        i + 1,
                        inflection,
                        warnings.push(
                            warning_of(n.start, n.end, Some(language), WarningMessage::Unrecognized),
                        ),
                    )
                }
            },
            _ => inflection_loop(
                language,
                marker,
                nodes,
                i + 1,
                inflection,
                warnings.push(
                    warning_of(n.start, n.end, Some(language), WarningMessage::Unrecognized),
                ),
            ),
        }
    }
}

/// The walk of an inflection section never steps backwards nor past the
/// end of its nodes.
pub broadcast proof fn lemma_inflection_loop_consumed(
    language: Language,
    marker: Seq<char>,
    nodes: Seq<NodeView>,
    i: int,
    inflection: Option<Option<TemplateView>>,
    warnings: Seq<Warning>,
)
    requires
        0 <= i <= nodes.len(),
    ensures
        i <= (#[trigger] inflection_loop(language, marker, nodes, i, inflection, warnings)).0
            <= nodes.len(),
    decreases nodes.len() - i,
{
    if 0 <= i < nodes.len() {
        let n = nodes[i];
        match n.kind {
            NodeKindView::Heading { .. } => {},
            NodeKindView::Template { name, parameters } => {
                let tn = text_of(name);
                if tn is Some && is_inflection_name(tn->0, language_code_of(language), marker) {
                    if inflection is Some {
                        lemma_inflection_loop_consumed(
                            language,
                            marker,
                            nodes,
                            i + 1,
                            Some(None),
                            warnings.push(
                                warning_of(n.start, n.end, Some(language), WarningMessage::Duplicate),
                            ),
                        );
                    } else {
                        let (t, w) = template_spec(Some(language), tn->0, parameters, warnings);
                        lemma_inflection_loop_consumed(language, marker, nodes, i + 1, Some(t), w);
                    }
                } else {
                    lemma_inflection_loop_consumed(
                        language,
                        marker,
                        nodes,
                        i + 1,
                        inflection,
                        warnings.push(
                            warning_of(n.start, n.end, Some(language), WarningMessage::Unrecognized),
                        ),
                    );
                }
            },
            _ => {
                lemma_inflection_loop_consumed(
                    language,
                    marker,
                    nodes,
                    i + 1,
                    inflection,
                    warnings.push(
                        warning_of(n.start, n.end, Some(language), WarningMessage::Unrecognized),
                    ),
                );
            },
        }
    }
}

/// The parse of an inflection section: the template kept for the caller's
/// inflection list, if any, together with the number of nodes consumed and
/// the warnings. A section without a match is flagged as empty.
pub open spec fn inflection_spec(
    language: Language,
    marker: Seq<char>,
    heading: NodeView,
    nodes: Seq<NodeView>,
    warnings: Seq<Warning>,
) -> (int, Option<TemplateView>, Seq<Warning>) {
    let (consumed, inflection, warnings1) = inflection_loop(
        language,
        marker,
        nodes,
        0,
        None,
        warnings,
    );
    match inflection {
        None => (
            consumed,
            None,
            warnings1.push(
                warning_of(
                    heading.start,
                    heading.end,
                    Some(language),
                    WarningMessage::SectionEmpty,
                ),
            ),
        ),
        Some(kept) => (consumed, kept, warnings1),
    }
}

/// Parses an inflection subsection: scans nodes until the next heading for
/// a template whose name starts with the active language's code
/// immediately followed by `template_name`; the first match is kept, any
/// further match discards the slot, anything else is unrecognized, and a
/// section without a match is flagged as empty.
pub fn parse_inflection(
    context: &mut Context,
    heading_node: &Node,
    nodes: &[Node],
    output: &mut Vec<Template>,
    template_name: &str,
) -> (consumed: usize)
    requires
        old(context).language is Some,
    ensures
        final(context).language == old(context).language,
        consumed <= nodes@.len(),
        ({
            let (c, pushed, w) = inflection_spec(
                old(context).language->0,
                template_name@,
                node_view(*heading_node),
                nodes_view(nodes@),
                old(context).warnings@,
            );
            c == consumed && final(context).warnings@ == w && templates_view(final(output)@)
                == match pushed {
                None => templates_view(old(output)@),
                Some(t) => templates_view(old(output)@).push(t),
            }
        }),
{
    let ghost language = old(context).language->0;
    let mut inflection: Option<Option<Template>> = None;
    let mut node_index: usize = 0;
    while node_index < nodes.len()
        invariant
            0 <= node_index <= nodes@.len(),
            nodes_view(nodes@).len() == nodes@.len(),
            old(context).language is Some,
            language == old(context).language->0,
            context.language == old(context).language,
            inflection_loop(
                language,
                template_name@,
                nodes_view(nodes@),
                0,
                None,
                old(context).warnings@,
            ) == inflection_loop(
                language,
                template_name@,
                nodes_view(nodes@),
                node_index as int,
                opt_opt_template_view(inflection),
                context.warnings@,
            ),
        ensures
            0 <= node_index <= nodes@.len(),
            context.language == old(context).language,
            inflection_loop(
                language,
                template_name@,
                nodes_view(nodes@),
                0,
                None,
                old(context).warnings@,
            ) == (node_index as int, opt_opt_template_view(inflection), context.warnings@),
        decreases nodes@.len() - node_index,
    {
        assert(nodes_view(nodes@)[node_index as int] == node_view(nodes@[node_index as int]));
        let node = &nodes[node_index];
        match &node.kind {
            NodeKind::Heading { .. } => {
                break ;
            },
            NodeKind::Template { name, parameters } => {
                let mut recognized = false;
                let mut parsed_name: Option<String> = None;
                if let Some(tname) = parse_text(name) {
                    let code = context.language.unwrap().language_code();
                    let prefix = String::from_str(code).concat(template_name);
                    if str_starts_with(tname.as_str(), prefix.as_str()) {
                        recognized = true;
                    }
                    parsed_name = Some(tname);
                }
                if recognized {
                    let tname = parsed_name.unwrap();
                    node_index = node_index + 1;
                    if inflection.is_some() {
                        inflection = Some(None);
                        add_warning(context, node.start, node.end, WarningMessage::Duplicate);
                    } else {
                        let t = parse_template(context, tname, parameters);
                        inflection = Some(t);
                    }
                } else {
                    node_index = node_index + 1;
                    add_warning(context, node.start, node.end, WarningMessage::Unrecognized);
                }
            },
            _ => {
                node_index = node_index + 1;
                add_warning(context, node.start, node.end, WarningMessage::Unrecognized);
            },
        }
    }
    match inflection {
        None => {
            add_warning(context, heading_node.start, heading_node.end, WarningMessage::SectionEmpty);
        },
        Some(None) => {},
        Some(Some(t)) => {
            proof {
                assert(templates_view(output@.push(t)) =~= templates_view(output@).push(
                    crate::template_view(t),
                ));
            }
            output.push(t);
        },
    }
    node_index
}

} // verus!
