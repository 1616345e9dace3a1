//! Parser for the `Pronunciation` subsection: scans unordered lists for a
//! fixed set of template names and records one boolean per name.

use vstd::prelude::*;

use crate::util::{Context, add_warning, parse_text, str_eq, text_of, warning_of};
use crate::{Language, ListItemView, Node, NodeKind, NodeKindView, NodeView, Warning,
    WarningMessage, item_view, items_view, node_view, nodes_view};

verus! {

broadcast use crate::group_view_lemmas;

/// The pronunciation flags extracted from a `Pronunciation` subsection.
#[derive(Clone, Copy, Debug, Default, PartialEq, Eq, Structural)]
pub struct Pronunciation {
    /// Whether the entry has audio samples.
    pub audio: bool,
    /// Whether the entry has homophones.
    pub homophones: bool,
    /// Whether the entry has hyphenations.
    pub hyphenation: bool,
    /// Whether the entry has a pronunciation written in IPA.
    pub ipa: bool,
    /// Whether the entry has rhymes.
    pub rhymes: bool,
}

/// The pronunciation flags with every flag cleared.
pub open spec fn empty_pronunciation() -> Pronunciation {
    Pronunciation { audio: false, homophones: false, hyphenation: false, ipa: false, rhymes: false }
}

/// The flags after reading the nodes of one list item from index `k` on:
/// each template whose name is one of the fixed pronunciation markers sets
/// the matching flag.
pub open spec fn pronunciation_item_nodes(nodes: Seq<NodeView>, k: int, p: Pronunciation)
    -> Pronunciation
    decreases nodes.len() - k,
{
    if k < 0 || k >= nodes.len() {
        p
    } else {
        let p1 = match nodes[k].kind {
            NodeKindView::Template { name, .. } => {
                let tn = text_of(name);
                if tn is Some {
                    if tn->0 == "IPA"@ || tn->0 == "cs-IPA"@ {
                        Pronunciation { ipa: true, ..p }
                    } else if tn->0 == "audio"@ {
                        Pronunciation { audio: true, ..p }
                    } else if tn->0 == "homophones"@ {
                        Pronunciation { homophones: true, ..p }
                    } else if tn->0 == "hyphenation"@ {
                        Pronunciation { hyphenation: true, ..p }
                    } else if tn->0 == "rhymes"@ {
                        Pronunciation { rhymes: true, ..p }
                    } else {
                        p
                    }
                } else {
                    p
                }
            },
            _ => p,
        };
        pronunciation_item_nodes(nodes, k + 1, p1)
    }
}

/// The flags after reading the items of one unordered list from index `j`
/// on.
pub open spec fn pronunciation_items(items: Seq<ListItemView>, j: int, p: Pronunciation)
    -> Pronunciation
    decreases items.len() - j,
{
    if j < 0 || j >= items.len() {
        p
    } else {
        pronunciation_items(items, j + 1, pronunciation_item_nodes(items[j].nodes, 0, p))
    }
}

/// The walk of a pronunciation section's sibling nodes from index `i` on:
/// each unordered list contributes its items' flags, a second list is
/// flagged as a duplicate, and any other node is unrecognized. Returns the
/// number of nodes consumed, whether a list was seen, the flags and the
/// warnings.
pub open spec fn pronunciation_loop(
    language: Option<Language>,
    nodes: Seq<NodeView>,
    i: int,
    has_list: bool,
    p: Pronunciation,
    warnings: Seq<Warning>,
) -> (int, bool, Pronunciation, Seq<Warning>)
    decreases nodes.len() - i,
{
    if i < 0 || i >= nodes.len() {
        (i, has_list, p, warnings)
    } else {
        let n = nodes[i];
        match n.kind {
            NodeKindView::Heading { .. } => (i, has_list, p, warnings),
            NodeKindView::UnorderedList { items } => {
                let warnings1 = if has_list {
                    warnings.push(
                        warning_of(n.start, n.end, language, WarningMessage::Duplicate),
                    )
                } else {
                    warnings
                };
                pronunciation_loop(
                    language,
                    nodes,
                    i + 1,
                    true,
                    pronunciation_items(items, 0, p),
                    warnings1,
                )
            },
            _ => pronunciation_loop(
                language,
                nodes,
                i + 1,
                has_list,
                p,
                warnings.push(warning_of(n.start, n.end, language, WarningMessage::Unrecognized)),
            ),
        }
    }
}

/// A flag set in the pronunciation record stays set while one list item's
/// nodes are read: reading only ever adds flags.
pub proof fn lemma_pronunciation_item_nodes_monotonic(
    nodes: Seq<NodeView>,
    k: int,
    p: Pronunciation,
)
    ensures
        ({
            let q = pronunciation_item_nodes(nodes, k, p);
            (p.audio ==> q.audio) && (p.homophones ==> q.homophones) && (p.hyphenation
                ==> q.hyphenation) && (p.ipa ==> q.ipa) && (p.rhymes ==> q.rhymes)
        }),
    decreases nodes.len() - k,
{
    if 0 <= k < nodes.len() {
        let p1 = match nodes[k].kind {
            NodeKindView::Template { name, .. } => {
                let tn = text_of(name);
                if tn is Some {
                    if tn->0 == "IPA"@ || tn->0 == "cs-IPA"@ {
                        Pronunciation { ipa: true, ..p }
                    } else if tn->0 == "audio"@ {
                        Pronunciation { audio: true, ..p }
                    } else if tn->0 == "homophones"@ {
                        Pronunciation { homophones: true, ..p }
                    } else if tn->0 == "hyphenation"@ {
                        Pronunciation { hyphenation: true, ..p }
                    } else if tn->0 == "rhymes"@ {
                        Pronunciation { rhymes: true, ..p }
                    } else {
                        p
                    }
                } else {
                    p
                }
            },
            _ => p,
        };
        lemma_pronunciation_item_nodes_monotonic(nodes, k + 1, p1);
    }
}

/// The first-wins law for pronunciation flags: a flag set by an earlier
/// list stays set after any further list is read; a later list can only
/// add flags, never reset them.
pub proof fn lemma_pronunciation_items_monotonic(items: Seq<ListItemView>, j: int, p: Pronunciation)
    ensures
        ({
            let q = pronunciation_items(items, j, p);
            (p.audio ==> q.audio) && (p.homophones ==> q.homophones) && (p.hyphenation
                ==> q.hyphenation) && (p.ipa ==> q.ipa) && (p.rhymes ==> q.rhymes)
        }),
    decreases items.len() - j,
{
    if 0 <= j < items.len() {
        lemma_pronunciation_item_nodes_monotonic(items[j].nodes, 0, p);
        lemma_pronunciation_items_monotonic(
            items,
            j + 1,
            pronunciation_item_nodes(items[j].nodes, 0, p),
        );
    }
}

/// A flag set in the pronunciation record stays set through the walk of a
/// whole pronunciation section.
pub proof fn lemma_pronunciation_loop_monotonic(
    language: Option<Language>,
    nodes: Seq<NodeView>,
    i: int,
    has_list: bool,
    p: Pronunciation,
    warnings: Seq<Warning>,
)
    ensures
        ({
            let q = pronunciation_loop(language, nodes, i, has_list, p, warnings).2;
            (p.audio ==> q.audio) && (p.homophones ==> q.homophones) && (p.hyphenation
                ==> q.hyphenation) && (p.ipa ==> q.ipa) && (p.rhymes ==> q.rhymes)
        }),
    decreases nodes.len() - i,
{
    if 0 <= i < nodes.len() {
        let n = nodes[i];
        match n.kind {
            NodeKindView::Heading { .. } => {},
            NodeKindView::UnorderedList { items } => {
                let warnings1 = if has_list {
                    warnings.push(warning_of(n.start, n.end, language, WarningMessage::Duplicate))
                } else {
                    warnings
                };
                lemma_pronunciation_items_monotonic(items, 0, p);
                lemma_pronunciation_loop_monotonic(
                    language,
                    nodes,
                    i + 1,
                    true,
                    pronunciation_items(items, 0, p),
                    warnings1,
                );
            },
            _ => {
                lemma_pronunciation_loop_monotonic(
                    language,
                    nodes,
                    i + 1,
                    has_list,
                    p,
                    warnings.push(
                        warning_of(n.start, n.end, language, WarningMessage::Unrecognized),
                    ),
                );
            },
        }
    }
}

/// The first-wins law for a re-entered pronunciation section: the flags
/// already recorded stay set, whatever the section's new content adds.
pub proof fn lemma_pronunciation_reentry_keeps_flags(
    language: Option<Language>,
    heading: NodeView,
    nodes: Seq<NodeView>,
    p: Pronunciation,
    warnings: Seq<Warning>,
)
    ensures
        ({
            let q = pronunciation_spec(language, heading, nodes, Some(p), warnings).1;
            (p.audio ==> q.audio) && (p.homophones ==> q.homophones) && (p.hyphenation
                ==> q.hyphenation) && (p.ipa ==> q.ipa) && (p.rhymes ==> q.rhymes)
        }),
{
    lemma_pronunciation_loop_monotonic(
        language,
        nodes,
        0,
        false,
        p,
        warnings.push(warning_of(heading.start, heading.end, language, WarningMessage::Duplicate)),
    );
}

/// The walk of a pronunciation section never steps backwards nor past the
/// end of its nodes.
pub broadcast proof fn lemma_pronunciation_loop_consumed(
    language: Option<Language>,
    nodes: Seq<NodeView>,
    i: int,
    has_list: bool,
    p: Pronunciation,
    warnings: Seq<Warning>,
)
    requires
        0 <= i <= nodes.len(),
    ensures
        i <= (#[trigger] pronunciation_loop(language, nodes, i, has_list, p, warnings)).0
            <= nodes.len(),
    decreases nodes.len() - i,
{
    if 0 <= i < nodes.len() {
        let n = nodes[i];
        match n.kind {
            NodeKindView::Heading { .. } => {},
            NodeKindView::UnorderedList { items } => {
                let warnings1 = if has_list {
                    warnings.push(warning_of(n.start, n.end, language, WarningMessage::Duplicate))
                } else {
                    warnings
                };
                lemma_pronunciation_loop_consumed(
                    language,
                    nodes,
                    i + 1,
                    true,
                    pronunciation_items(items, 0, p),
                    warnings1,
                );
            },
            _ => {
                lemma_pronunciation_loop_consumed(
                    language,
                    nodes,
                    i + 1,
                    has_list,
                    p,
                    warnings.push(
                        warning_of(n.start, n.end, language, WarningMessage::Unrecognized),
                    ),
                );
            },
        }
    }
}

/// The parse of a pronunciation section: a duplicate heading is flagged
/// but the flags already set are kept; a section without any unordered
/// list is flagged as empty. Returns the number of nodes consumed, the
/// flags and the warnings.
pub open spec fn pronunciation_spec(
    language: Option<Language>,
    heading: NodeView,
    nodes: Seq<NodeView>,
    output: Option<Pronunciation>,
    warnings: Seq<Warning>,
) -> (int, Pronunciation, Seq<Warning>) {
    let warnings1 = if output is Some {
        warnings.push(warning_of(heading.start, heading.end, language, WarningMessage::Duplicate))
    } else {
        warnings
    };
    let p0 = pronunciation_spec_start(output);
    let (consumed, has_list, p, warnings2) = pronunciation_loop(
        language,
        nodes,
        0,
        false,
        p0,
        warnings1,
    );
    let warnings3 = if !has_list {
        warnings2.push(
            warning_of(heading.start, heading.end, language, WarningMessage::SectionEmpty),
        )
    } else {
        warnings2
    };
    (consumed, p, warnings3)
}

/// Parses a `Pronunciation` subsection: scans for unordered lists and
/// matches each list item's templates against a fixed name set to set the
/// corresponding flags; a second list or a re-entered section is flagged
/// as a duplicate with the flags kept, and a section without any list is
/// flagged as empty.
pub fn parse_pronunciation(
    context: &mut Context,
    heading_node: &Node,
    nodes: &[Node],
    output: &mut Option<Pronunciation>,
) -> (consumed: usize)
    ensures
        final(context).language == old(context).language,
        consumed <= nodes@.len(),
        ({
            let (c, p, w) = pronunciation_spec(
                old(context).language,
                node_view(*heading_node),
                nodes_view(nodes@),
                *old(output),
                old(context).warnings@,
            );
            c == consumed && final(context).warnings@ == w && *final(output) == Some(p)
        }),
{
    if output.is_some() {
        add_warning(context, heading_node.start, heading_node.end, WarningMessage::Duplicate);
    }
    let mut pronunciation = match output.take() {
        Some(p) => p,
        None => Pronunciation {
            audio: false,
            homophones: false,
            hyphenation: false,
            ipa: false,
            rhymes: false,
        },
    };
    let ghost warnings1 = context.warnings@;
    let mut has_list = false;
    let mut node_index: usize = 0;
    while node_index < nodes.len()
        invariant
            0 <= node_index <= nodes@.len(),
            nodes_view(nodes@).len() == nodes@.len(),
            context.language == old(context).language,
            pronunciation_loop(
                old(context).language,
                nodes_view(nodes@),
                0,
                false,
                pronunciation_spec_start(*old(output)),
                warnings1,
            ) == pronunciation_loop(
                old(context).language,
                nodes_view(nodes@),
                node_index as int,
                has_list,
                pronunciation,
                context.warnings@,
            ),
        ensures
            0 <= node_index <= nodes@.len(),
            context.language == old(context).language,
            pronunciation_loop(
                old(context).language,
                nodes_view(nodes@),
                0,
                false,
                pronunciation_spec_start(*old(output)),
                warnings1,
            ) == (node_index as int, has_list, pronunciation, context.warnings@),
        decreases nodes@.len() - node_index,
    {
        assert(nodes_view(nodes@)[node_index as int] == node_view(nodes@[node_index as int]));
        let node = &nodes[node_index];
        match &node.kind {
            NodeKind::Heading { .. } => {
                break ;
            },
            NodeKind::UnorderedList { items } => {
                node_index = node_index + 1;
                if has_list {
                    add_warning(context, node.start, node.end, WarningMessage::Duplicate);
                }
                has_list = true;
                let ghost iv = items_view(items@);
                let ghost p_list = pronunciation;
                let mut j: usize = 0;
                while j < items.len()
                    invariant
                        0 <= j <= items@.len(),
                        iv == items_view(items@),
                        iv.len() == items@.len(),
                        pronunciation_items(iv, 0, p_list) == pronunciation_items(
                            iv,
                            j as int,
                            pronunciation,
                        ),
                    decreases items@.len() - j,
                {
                    assert(iv[j as int] == item_view(items@[j as int]));
                    let item = &items[j];
                    let ghost inv = nodes_view(item.nodes@);
                    let ghost p_item = pronunciation;
                    let mut k: usize = 0;
                    while k < item.nodes.len()
                        invariant
                            0 <= k <= item.nodes@.len(),
                            inv == nodes_view(item.nodes@),
                            inv.len() == item.nodes@.len(),
                            pronunciation_item_nodes(inv, 0, p_item) == pronunciation_item_nodes(
                                inv,
                                k as int,
                                pronunciation,
                            ),
                        decreases item.nodes@.len() - k,
                    {
                        assert(inv[k as int] == node_view(item.nodes@[k as int]));
                        if let NodeKind::Template { name, .. } = &item.nodes[k].kind {
                            if let Some(tname) = parse_text(name) {
                                if str_eq(tname.as_str(), "IPA") || str_eq(
                                    tname.as_str(),
                                    "cs-IPA",
                                ) {
                                    pronunciation.ipa = true;
                                } else if str_eq(tname.as_str(), "audio") {
                                    pronunciation.audio = true;
                                } else if str_eq(tname.as_str(), "homophones") {
                                    pronunciation.homophones = true;
                                } else if str_eq(tname.as_str(), "hyphenation") {
                                    pronunciation.hyphenation = true;
                                } else if str_eq(tname.as_str(), "rhymes") {
                                    pronunciation.rhymes = true;
                                }
                            }
                        }
                        k = k + 1;
                    }
                    j = j + 1;
                }
            },
            _ => {
                node_index = node_index + 1;
                add_warning(context, node.start, node.end, WarningMessage::Unrecognized);
            },
        }
    }
    if !has_list {
        add_warning(context, heading_node.start, heading_node.end, WarningMessage::SectionEmpty);
    }
    *output = Some(pronunciation);
    node_index
}

/// The flags a pronunciation parse starts from: those already recorded for
/// the section, or none.
pub open spec fn pronunciation_spec_start(output: Option<Pronunciation>) -> Pronunciation {
    match output {
        Some(p) => p,
        None => empty_pronunciation(),
    }
}

} // verus!
