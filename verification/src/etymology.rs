//! Parser for the numbered etymology sections: the leading etymology text
//! and the subsection headings one level deeper than the language's own.

use vstd::prelude::*;

use crate::pos::{heading_pos, lemma_pos_spec_consumed, parse_pos, pos_of_heading, pos_spec};
use crate::pronunciation::{Pronunciation, empty_pronunciation, lemma_pronunciation_loop_consumed,
    parse_pronunciation, pronunciation_spec};
use crate::supplementary::{lemma_supplementary_loop_consumed, parse_supplementary,
    supplementary_spec};
use crate::util::{Context, add_warning, parse_text, str_eq, text_of, warning_of};
use crate::{EtymologyEntry, EtymologyEntryView, Language, Node, NodeKind, NodeKindView, NodeView,
    PosEntry, PosEntryView, Warning, WarningMessage, etymology_entries_view,
    etymology_entry_view, node_view, nodes_view, pos_entries_view};

verus! {

broadcast use {crate::group_view_lemmas, crate::supplementary::lemma_supplementary_loop_consumed,
    crate::pronunciation::lemma_pronunciation_loop_consumed, crate::pos::lemma_pos_spec_consumed};

/// The subsection flags and records collected inside one numbered
/// etymology section.
#[verifier::ext_equal]
pub struct EtySections {
    /// Whether the subsection `Alternative forms` is present.
    pub alternative_forms: bool,
    /// The part-of-speech entries collected so far.
    pub pos_entries: Seq<PosEntryView>,
    /// The pronunciation slot.
    pub pronunciation: Option<Pronunciation>,
}

/// The state a numbered etymology section starts from: no subsection seen
/// yet.
pub open spec fn empty_ety_sections() -> EtySections {
    EtySections { alternative_forms: false, pos_entries: Seq::empty(), pronunciation: None }
}

/// The walk of a numbered etymology section's leading nodes: every node up
/// to the first heading marks the section as having an etymology text and
/// is flagged as supplementary.
pub open spec fn ety_lead_loop(
    language: Language,
    nodes: Seq<NodeView>,
    i: int,
    etymology: bool,
    warnings: Seq<Warning>,
) -> (int, bool, Seq<Warning>)
    decreases nodes.len() - i,
{
    if i < 0 || i >= nodes.len() {
        (i, etymology, warnings)
    } else if nodes[i].kind is Heading {
        (i, etymology, warnings)
    } else {
        ety_lead_loop(
            language,
            nodes,
            i + 1,
            true,
            warnings.push(
                warning_of(
                    nodes[i].start,
                    nodes[i].end,
                    Some(language),
                    WarningMessage::Supplementary,
                ),
            ),
        )
    }
}

/// The leading walk of a numbered etymology section never steps backwards
/// nor past the end of its nodes.
pub broadcast proof fn lemma_ety_lead_loop_consumed(
    language: Language,
    nodes: Seq<NodeView>,
    i: int,
    etymology: bool,
    warnings: Seq<Warning>,
)
    requires
        0 <= i <= nodes.len(),
    ensures
        i <= (#[trigger] ety_lead_loop(language, nodes, i, etymology, warnings)).0 <= nodes.len(),
    decreases nodes.len() - i,
{
    if i < nodes.len() && !(nodes[i].kind is Heading) {
        lemma_ety_lead_loop_consumed(
            language,
            nodes,
            i + 1,
            true,
            warnings.push(
                warning_of(
                    nodes[i].start,
                    nodes[i].end,
                    Some(language),
                    WarningMessage::Supplementary,
                ),
            ),
        );
    }
}

/// The dispatch of one recognized subsection heading inside a numbered
/// etymology section, or nothing when the heading text is not recognized
/// there.
pub open spec fn ety_dispatch_spec(
    language: Language,
    n: NodeView,
    t: Seq<char>,
    sub: Seq<NodeView>,
    st: EtySections,
    warnings: Seq<Warning>,
) -> Option<(int, EtySections, Seq<Warning>)> {
    if t == "Alternative forms"@ {
        let (c, flag, w) = supplementary_spec(Some(language), n, sub, st.alternative_forms, warnings);
        Some((c, EtySections { alternative_forms: flag, ..st }, w))
    } else if t == "Pronunciation"@ {
        let (c, p, w) = pronunciation_spec(Some(language), n, sub, st.pronunciation, warnings);
        Some((c, EtySections { pronunciation: Some(p), ..st }, w))
    } else {
        match pos_of_heading(t) {
            Some(pos) => {
                let (c, entry, w) = pos_spec(language, n, sub, st.pos_entries, 5, pos, warnings);
                Some((c, EtySections { pos_entries: st.pos_entries.push(entry), ..st }, w))
            },
            None => None,
        }
    }
}

/// A dispatched subsection of a numbered etymology section consumes
/// between none and all of the nodes after its heading.
pub broadcast proof fn lemma_ety_dispatch_consumed(
    language: Language,
    n: NodeView,
    t: Seq<char>,
    sub: Seq<NodeView>,
    st: EtySections,
    warnings: Seq<Warning>,
)
    ensures
        match #[trigger] ety_dispatch_spec(language, n, t, sub, st, warnings) {
            Some(r) => 0 <= r.0 <= sub.len(),
            None => true,
        },
{
}

/// The walk of a numbered etymology section's sibling nodes after its
/// leading text: each heading one level deeper whose text is a recognized
/// subsection name or a part of speech is dispatched, a heading at the
/// section's own level or higher ends the section, and anything else is
/// unrecognized.
pub open spec fn ety_main_loop(
    language: Language,
    nodes: Seq<NodeView>,
    i: int,
    st: EtySections,
    warnings: Seq<Warning>,
) -> (int, EtySections, Seq<Warning>)
    decreases nodes.len() - i,
{
    if i < 0 || i >= nodes.len() {
        (i, st, warnings)
    } else {
        let n = nodes[i];
        let unrecognized = warnings.push(
            warning_of(n.start, n.end, Some(language), WarningMessage::Unrecognized),
        );
        match n.kind {
            NodeKindView::Heading { level, nodes: heading_child_nodes } => {
                if level < 5 {
                    if level < 4 {
                        (i, st, warnings)
                    } else {
                        let t = text_of(heading_child_nodes);
                        let sub = nodes.subrange(i + 1, nodes.len() as int);
                        if t is Some {
                            match ety_dispatch_spec(language, n, t->0, sub, st, warnings) {
                                Some(r) => ety_main_loop(language, nodes, i + 1 + r.0, r.1, r.2),
                                None => ety_main_loop(language, nodes, i + 1, st, unrecognized),
                            }
                        } else {
                            ety_main_loop(language, nodes, i + 1, st, unrecognized)
                        }
                    }
                } else {
                    ety_main_loop(language, nodes, i + 1, st, unrecognized)
                }
            },
            _ => ety_main_loop(language, nodes, i + 1, st, unrecognized),
        }
    }
}

/// The main walk of a numbered etymology section never steps backwards nor
/// past the end of its nodes.
pub broadcast proof fn lemma_ety_main_loop_consumed(
    language: Language,
    nodes: Seq<NodeView>,
    i: int,
    st: EtySections,
    warnings: Seq<Warning>,
)
    requires
        0 <= i <= nodes.len(),
    ensures
        i <= (#[trigger] ety_main_loop(language, nodes, i, st, warnings)).0 <= nodes.len(),
    decreases nodes.len() - i,
{
    if 0 <= i < nodes.len() {
        let n = nodes[i];
        let unrecognized = warnings.push(
            warning_of(n.start, n.end, Some(language), WarningMessage::Unrecognized),
        );
        match n.kind {
            NodeKindView::Heading { level, nodes: heading_child_nodes } => {
                if level < 5 {
                    if level < 4 {
                    } else {
                        let t = text_of(heading_child_nodes);
                        let sub = nodes.subrange(i + 1, nodes.len() as int);
                        if t is Some {
                            match ety_dispatch_spec(language, n, t->0, sub, st, warnings) {
                                Some(r) => {
                                    lemma_ety_dispatch_consumed(language, n, t->0, sub, st, warnings);
                                    lemma_ety_main_loop_consumed(
                                        language,
                                        nodes,
                                        i + 1 + r.0,
                                        r.1,
                                        r.2,
                                    );
                                },
                                None => {
                                    lemma_ety_main_loop_consumed(
                                        language,
                                        nodes,
                                        i + 1,
                                        st,
                                        unrecognized,
                                    );
                                },
                            }
                        } else {
                            lemma_ety_main_loop_consumed(language, nodes, i + 1, st, unrecognized);
                        }
                    }
                } else {
                    lemma_ety_main_loop_consumed(language, nodes, i + 1, st, unrecognized);
                }
            },
            _ => {
                lemma_ety_main_loop_consumed(language, nodes, i + 1, st, unrecognized);
            },
        }
    }
}

/// The parse of a numbered etymology section: its leading nodes set the
/// etymology flag, the headings one level deeper dispatch into the
/// subsection parsers, and a section without any part-of-speech entry is
/// flagged as empty. The entry is always produced.
pub open spec fn etymology_spec(
    language: Language,
    heading: NodeView,
    nodes: Seq<NodeView>,
    warnings: Seq<Warning>,
) -> (int, EtymologyEntryView, Seq<Warning>) {
    let (i0, etymology, warnings0) = ety_lead_loop(language, nodes, 0, false, warnings);
    let (i1, st, warnings1) = ety_main_loop(language, nodes, i0, empty_ety_sections(), warnings0);
    let warnings2 = if st.pos_entries.len() == 0 {
        warnings1.push(
            warning_of(heading.start, heading.end, Some(language), WarningMessage::SectionEmpty),
        )
    } else {
        warnings1
    };
    let p = match st.pronunciation {
        Some(p) => p,
        None => empty_pronunciation(),
    };
    let entry = EtymologyEntryView {
        audio: p.audio,
        alternative_forms: st.alternative_forms,
        etymology,
        homophones: p.homophones,
        hyphenation: p.hyphenation,
        ipa: p.ipa,
        pos_entries: st.pos_entries,
        rhymes: p.rhymes,
    };
    (i1, entry, warnings2)
}

/// A numbered etymology section's parse consumes between none and all of
/// its nodes.
pub broadcast proof fn lemma_etymology_spec_consumed(
    language: Language,
    heading: NodeView,
    nodes: Seq<NodeView>,
    warnings: Seq<Warning>,
)
    ensures
        0 <= (#[trigger] etymology_spec(language, heading, nodes, warnings)).0 <= nodes.len(),
{
    lemma_ety_lead_loop_consumed(language, nodes, 0, false, warnings);
    let (i0, etymology, warnings0) = ety_lead_loop(language, nodes, 0, false, warnings);
    lemma_ety_main_loop_consumed(language, nodes, i0, empty_ety_sections(), warnings0);
}


/// Dispatches one recognized subsection heading of a numbered etymology
/// section to the matching parser, handing back the number of nodes the
/// subsection consumed, or nothing when the heading text is not recognized
/// there.
#[verifier::rlimit(100)]
pub(crate) fn dispatch_ety_section(
    context: &mut Context,
    node: &Node,
    heading_text: &String,
    rest: &[Node],
    alternative_forms: &mut bool,
    pos_entries: &mut Vec<PosEntry>,
    pronunciation: &mut Option<Pronunciation>,
) -> (r: Option<usize>)
    requires
        old(context).language is Some,
    ensures
        final(context).language == old(context).language,
        ({
            let st = EtySections {
                alternative_forms: *old(alternative_forms),
                pos_entries: pos_entries_view(old(pos_entries)@),
                pronunciation: *old(pronunciation),
            };
            let st1 = EtySections {
                alternative_forms: *final(alternative_forms),
                pos_entries: pos_entries_view(final(pos_entries)@),
                pronunciation: *final(pronunciation),
            };
            match ety_dispatch_spec(
                old(context).language->0,
                node_view(*node),
                heading_text@,
                nodes_view(rest@),
                st,
                old(context).warnings@,
            ) {
                Some(res) => r is Some && r->0 == res.0 && res.0 <= rest@.len() && st1 == res.1
                    && final(context).warnings@ == res.2,
                None => r is None && st1 == st && final(context).warnings@ == old(
                    context,
                ).warnings@,
            }
        }),
{
    if str_eq(heading_text.as_str(), "Alternative forms") {
        Some(parse_supplementary(context, node, rest, alternative_forms))
    } else if str_eq(heading_text.as_str(), "Pronunciation") {
        Some(parse_pronunciation(context, node, rest, pronunciation))
    } else {
        match heading_pos(heading_text.as_str()) {
            Some(pos) => Some(parse_pos(context, node, rest, pos_entries, 5, pos)),
            None => None,
        }
    }
}

/// Parses a numbered etymology section into an [`EtymologyEntry`] and
/// appends it to `output`: the leading nodes set the etymology flag, the
/// headings one level deeper dispatch into the subsection parsers, and a
/// section without any part-of-speech entry is flagged as empty.
#[verifier::rlimit(100)]
pub(crate) fn parse_etymology(
    context: &mut Context,
    heading_node: &Node,
    nodes: &[Node],
    output: &mut Vec<EtymologyEntry>,
) -> (consumed: usize)
    requires
        old(context).language is Some,
    ensures
        final(context).language == old(context).language,
        consumed <= nodes@.len(),
        ({
            let (c, entry, w) = etymology_spec(
                old(context).language->0,
                node_view(*heading_node),
                nodes_view(nodes@),
                old(context).warnings@,
            );
            c == consumed && final(context).warnings@ == w && etymology_entries_view(
                final(output)@,
            ) == etymology_entries_view(old(output)@).push(entry)
        }),
{
    let ghost language = old(context).language->0;
    let mut etymology = false;
    let mut node_index: usize = 0;
    while node_index < nodes.len()
        invariant
            0 <= node_index <= nodes@.len(),
            nodes_view(nodes@).len() == nodes@.len(),
            old(context).language is Some,
            language == old(context).language->0,
            context.language == old(context).language,
            ety_lead_loop(language, nodes_view(nodes@), 0, false, old(context).warnings@)
                == ety_lead_loop(
                language,
                nodes_view(nodes@),
                node_index as int,
                etymology,
                context.warnings@,
            ),
        ensures
            0 <= node_index <= nodes@.len(),
            context.language == old(context).language,
            ety_lead_loop(language, nodes_view(nodes@), 0, false, old(context).warnings@) == (
                node_index as int,
                etymology,
                context.warnings@,
            ),
        decreases nodes@.len() - node_index,
    {
        assert(nodes_view(nodes@)[node_index as int] == node_view(nodes@[node_index as int]));
        if let NodeKind::Heading { .. } = &nodes[node_index].kind {
            break ;
        }
        let node = &nodes[node_index];
        etymology = true;
        node_index = node_index + 1;
        add_warning(context, node.start, node.end, WarningMessage::Supplementary);
    }
    let ghost main_start = node_index as int;
    let ghost warnings0 = context.warnings@;
    let mut alternative_forms = false;
    let mut pos_entries: Vec<PosEntry> = Vec::new();
    let mut pronunciation: Option<Pronunciation> = None;
    assert(pos_entries_view(pos_entries@) =~= Seq::<PosEntryView>::empty());
    while node_index < nodes.len()
        invariant
            0 <= main_start <= node_index <= nodes@.len(),
            nodes_view(nodes@).len() == nodes@.len(),
            old(context).language is Some,
            language == old(context).language->0,
            context.language == old(context).language,
            ety_main_loop(
                language,
                nodes_view(nodes@),
                main_start,
                empty_ety_sections(),
                warnings0,
            ) == ety_main_loop(
                language,
                nodes_view(nodes@),
                node_index as int,
                EtySections {
                    alternative_forms,
                    pos_entries: pos_entries_view(pos_entries@),
                    pronunciation,
                },
                context.warnings@,
            ),
        ensures
            0 <= node_index <= nodes@.len(),
            context.language == old(context).language,
            ety_main_loop(
                language,
                nodes_view(nodes@),
                main_start,
                empty_ety_sections(),
                warnings0,
            ) == (
                node_index as int,
                EtySections {
                    alternative_forms,
                    pos_entries: pos_entries_view(pos_entries@),
                    pronunciation,
                },
                context.warnings@,
            ),
        decreases nodes@.len() - node_index,
    {
        assert(nodes_view(nodes@)[node_index as int] == node_view(nodes@[node_index as int]));
        let node = &nodes[node_index];
        let mut dispatched = false;
        if let NodeKind::Heading { level, nodes: heading_child_nodes } = &node.kind {
            if *level < 5 {
                if *level < 4 {
                    break ;
                }
                if let Some(heading_text) = parse_text(heading_child_nodes) {
                    match dispatch_ety_section(
                        context,
                        node,
                        &heading_text,
                        &nodes[node_index + 1..nodes.len()],
                        &mut alternative_forms,
                        &mut pos_entries,
                        &mut pronunciation,
                    ) {
                        Some(c) => {
                            node_index = node_index + 1 + c;
                            dispatched = true;
                        },
                        None => {},
                    }
                }
            }
        }
        if !dispatched {
            node_index = node_index + 1;
            add_warning(context, node.start, node.end, WarningMessage::Unrecognized);
        }
    }
    if pos_entries.is_empty() {
        proof {
            assert(pos_entries_view(pos_entries@).len() == pos_entries@.len());
        }
        add_warning(context, heading_node.start, heading_node.end, WarningMessage::SectionEmpty);
    } else {
        proof {
            assert(pos_entries_view(pos_entries@).len() == pos_entries@.len());
        }
    }
    let p = match pronunciation {
        Some(p) => p,
        None => Pronunciation {
            audio: false,
            homophones: false,
            hyphenation: false,
            ipa: false,
            rhymes: false,
        },
    };
    let entry = EtymologyEntry {
        audio: p.audio,
        alternative_forms,
        etymology,
        homophones: p.homophones,
        hyphenation: p.hyphenation,
        ipa: p.ipa,
        pos_entries,
        rhymes: p.rhymes,
    };
    proof {
        assert(etymology_entries_view(output@.push(entry)) =~= etymology_entries_view(
            output@,
        ).push(etymology_entry_view(entry)));
    }
    output.push(entry);
    node_index
}


} // verus!
