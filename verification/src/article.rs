//! The article parser: the entry point that walks the top-level headings,
//! recognizes language names, and produces the final output together with
//! the full warning list.

use vstd::prelude::*;

use crate::language::{language_spec, lemma_language_spec_consumed, parse_language};
use crate::util::{Context, add_warning, parse_text, str_eq, text_of, warning_of};
use crate::{Language, LanguageEntry, LanguageEntryView, Node, NodeKind, NodeKindView, NodeView,
    Output, OutputView, Warning, WarningMessage, language_entries_view, language_from_name,
    node_view, nodes_view, output_view};

verus! {

broadcast use {crate::group_view_lemmas, crate::language::lemma_language_spec_consumed};

/// The walk of an article's top-level nodes from index `i` on: each
/// topmost-but-one heading whose text is a recognized language name opens
/// a language section; a heading at the topmost level, or one at the
/// language level with unrecognized text, ends the scan; a template named
/// `also` is supplementary; anything else is unrecognized.
pub open spec fn article_loop(
    nodes: Seq<NodeView>,
    i: int,
    entries: Seq<LanguageEntryView>,
    warnings: Seq<Warning>,
) -> (Seq<LanguageEntryView>, Seq<Warning>)
    decreases nodes.len() - i,
{
    if i < 0 || i >= nodes.len() {
        (entries, warnings)
    } else {
        let n = nodes[i];
        let unrecognized = warnings.push(
            warning_of(n.start, n.end, None, WarningMessage::Unrecognized),
        );
        match n.kind {
            NodeKindView::Heading { level, nodes: heading_child_nodes } => {
                if level < 3 {
                    let t = text_of(heading_child_nodes);
                    if level == 2 && t is Some && language_from_name(t->0) is Some {
                        let lang = language_from_name(t->0)->0;
                        let sub = nodes.subrange(i + 1, nodes.len() as int);
                        let (c, entry, w) = language_spec(lang, n, sub, entries, warnings);
                        article_loop(nodes, i + 1 + c, entries.push(entry), w)
                    } else {
                        (entries, unrecognized)
                    }
                } else {
                    article_loop(nodes, i + 1, entries, unrecognized)
                }
            },
            NodeKindView::Template { name, .. } => {
                let tn = text_of(name);
                if tn is Some && tn->0 == "also"@ {
                    article_loop(
                        nodes,
                        i + 1,
                        entries,
                        warnings.push(
                            warning_of(n.start, n.end, None, WarningMessage::Supplementary),
                        ),
                    )
                } else {
                    article_loop(nodes, i + 1, entries, unrecognized)
                }
            },
            _ => article_loop(nodes, i + 1, entries, unrecognized),
        }
    }
}

/// The parse of a whole article: the language entries in document order
/// and the full warning list.
pub open spec fn parse_spec(nodes: Seq<NodeView>) -> OutputView {
    let (entries, warnings) = article_loop(nodes, 0, Seq::empty(), Seq::empty());
    OutputView { language_entries: entries, warnings }
}

/// The idempotence law of recognition: the parse of an article is a pure
/// function of its node sequence, so two parses of the same input yield
/// identical output and warning lists.
pub proof fn lemma_parse_deterministic(nodes: Seq<NodeView>, first: OutputView, second: OutputView)
    requires
        first == parse_spec(nodes),
        second == parse_spec(nodes),
    ensures
        first == second,
{
}

/// Parses an article into structured data: one [`crate::LanguageEntry`]
/// per recognized language heading, in document order, together with every
/// warning the parse emitted.
pub fn parse(nodes: &[Node]) -> (r: Output)
    ensures
        output_view(r) == parse_spec(nodes_view(nodes@)),
{
    let mut context = Context { language: None, warnings: Vec::new() };
    let mut language_entries: Vec<LanguageEntry> = Vec::new();
    let mut node_index: usize = 0;
    proof {
        assert(language_entries_view(language_entries@) =~= Seq::<LanguageEntryView>::empty());
    }
    while node_index < nodes.len()
        invariant_except_break
            article_loop(nodes_view(nodes@), 0, Seq::empty(), Seq::empty()) == article_loop(
                nodes_view(nodes@),
                node_index as int,
                language_entries_view(language_entries@),
                context.warnings@,
            ),
        invariant
            0 <= node_index <= nodes@.len(),
            nodes_view(nodes@).len() == nodes@.len(),
            context.language is None,
        ensures
            context.language is None,
            article_loop(nodes_view(nodes@), 0, Seq::empty(), Seq::empty()) == (
                language_entries_view(language_entries@),
                context.warnings@,
            ),
        decreases nodes@.len() - node_index,
    {
        assert(nodes_view(nodes@)[node_index as int] == node_view(nodes@[node_index as int]));
        let node = &nodes[node_index];
        match &node.kind {
            NodeKind::Heading { level, nodes: heading_child_nodes } => {
                if *level < 3 {
                    let mut matched = false;
                    if *level == 2 {
                        if let Some(heading_text) = parse_text(heading_child_nodes) {
                            if let Some(language) = Language::from_name(heading_text.as_str()) {
                                node_index = node_index + 1;
                                context.language = Some(language);
                                let c = parse_language(
                                    &mut context,
                                    node,
                                    &nodes[node_index..nodes.len()],
                                    &mut language_entries,
                                    language,
                                );
                                node_index = node_index + c;
                                context.language = None;
                                matched = true;
                            }
                        }
                    }
                    if !matched {
                        add_warning(&mut context, node.start, node.end, WarningMessage::Unrecognized);
                        break ;
                    }
                } else {
                    node_index = node_index + 1;
                    add_warning(&mut context, node.start, node.end, WarningMessage::Unrecognized);
                }
            },
            NodeKind::Template { name, .. } => {
                let mut supplementary = false;
                if let Some(tname) = parse_text(name) {
                    if str_eq(tname.as_str(), "also") {
                        supplementary = true;
                    }
                }
                node_index = node_index + 1;
                if supplementary {
                    add_warning(&mut context, node.start, node.end, WarningMessage::Supplementary);
                } else {
                    add_warning(&mut context, node.start, node.end, WarningMessage::Unrecognized);
                }
            },
            _ => {
                node_index = node_index + 1;
                add_warning(&mut context, node.start, node.end, WarningMessage::Unrecognized);
            },
        }
    }
    Output { language_entries, warnings: context.warnings }
}

} // verus!
