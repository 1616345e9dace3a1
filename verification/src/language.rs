//! The top two levels of the heading hierarchy: the language section
//! parser and the numbered-etymology section parser, each dispatching its
//! recognized subsection headings and the part-of-speech headings.

use vstd::prelude::*;

use crate::etymology::{ety_dispatch_spec,
    etymology_spec, lemma_etymology_spec_consumed, parse_etymology};
use crate::pos::{heading_pos, lemma_pos_spec_consumed, parse_pos, pos_of_heading, pos_spec};
use crate::pronunciation::{Pronunciation, empty_pronunciation, lemma_pronunciation_loop_consumed,
    parse_pronunciation, pronunciation_spec};
use crate::supplementary::{lemma_supplementary_loop_consumed, parse_supplementary,
    supplementary_spec};
use crate::util::{Context, add_warning, parse_text, str_eq, text_of, warning_of};
use crate::{EtymologyEntry, EtymologyEntryView, Language, LanguageEntry, LanguageEntryView, Node,
    NodeKind, NodeKindView, NodeView, PosEntry, PosEntryView, Warning, WarningMessage,
    etymology_entries_view, language_entries_view, language_entry_view,
    node_view, nodes_view, pos_entries_view};

verus! {

broadcast use {crate::group_view_lemmas, crate::supplementary::lemma_supplementary_loop_consumed,
    crate::pronunciation::lemma_pronunciation_loop_consumed, crate::pos::lemma_pos_spec_consumed,
    crate::etymology::lemma_etymology_spec_consumed};

/// Whether one of the entries already carries the language `language`.
pub open spec fn has_language(entries: Seq<LanguageEntryView>, language: Language) -> bool {
    exists|j: int| 0 <= j < entries.len() && entries[j].language == language
}

/// Whether one of the entries already carries the language `language`.
fn entries_have_language(language_entries: &Vec<LanguageEntry>, language: Language) -> (r: bool)
    ensures
        r == has_language(language_entries_view(language_entries@), language),
{
    let mut j: usize = 0;
    while j < language_entries.len()
        invariant
            0 <= j <= language_entries@.len(),
            forall|k: int|
                0 <= k < j ==> language_entries_view(language_entries@)[k].language != language,
        decreases language_entries@.len() - j,
    {
        assert(language_entries_view(language_entries@)[j as int] == language_entry_view(
            language_entries@[j as int],
        ));
        if language_entries[j].language == language {
            return true;
        }
        j = j + 1;
    }
    proof {
        assert(forall|k: int|
            0 <= k < language_entries_view(language_entries@).len() ==> language_entries_view(
                language_entries@,
            )[k].language != language);
    }
    false
}

/// The subsection flags and records collected inside one language section.
#[verifier::ext_equal]
pub struct LangSections {
    /// Whether the subsection `Alternative forms` is present.
    pub alternative_forms: bool,
    /// Whether the subsection `Anagrams` is present.
    pub anagrams: bool,
    /// Whether the subsection `Etymology` is present.
    pub etymology: bool,
    /// The numbered etymology entries collected so far.
    pub etymology_entries: Seq<EtymologyEntryView>,
    /// Whether the subsection `Further reading` is present.
    pub further_reading: bool,
    /// The part-of-speech entries collected so far.
    pub pos_entries: Seq<PosEntryView>,
    /// The pronunciation slot.
    pub pronunciation: Option<Pronunciation>,
    /// Whether the heading `Etymology 1` was seen.
    pub seen_etymology_1: bool,
    /// Whether the heading `Etymology 2` was seen.
    pub seen_etymology_2: bool,
    /// Whether the heading `Etymology 3` was seen.
    pub seen_etymology_3: bool,
    /// Whether the heading `Etymology 4` was seen.
    pub seen_etymology_4: bool,
}

/// The state a language section starts from: no subsection seen yet.
pub open spec fn empty_lang_sections() -> LangSections {
    LangSections {
        alternative_forms: false,
        anagrams: false,
        etymology: false,
        etymology_entries: Seq::empty(),
        further_reading: false,
        pos_entries: Seq::empty(),
        pronunciation: None,
        seen_etymology_1: false,
        seen_etymology_2: false,
        seen_etymology_3: false,
        seen_etymology_4: false,
    }
}

/// The handling of one numbered etymology heading: the first occurrence of
/// each numbered heading contributes its entry; a repeated occurrence is
/// flagged as a duplicate and its section is still parsed, but its
/// contents are discarded.
pub open spec fn numbered_ety_spec(
    language: Language,
    n: NodeView,
    sub: Seq<NodeView>,
    st: LangSections,
    seen: bool,
    warnings: Seq<Warning>,
) -> (int, Seq<EtymologyEntryView>, Seq<Warning>) {
    if seen {
        let warnings0 = warnings.push(
            warning_of(n.start, n.end, Some(language), WarningMessage::Duplicate),
        );
        let (c, entry, w) = etymology_spec(language, n, sub, warnings0);
        (c, st.etymology_entries, w)
    } else {
        let (c, entry, w) = etymology_spec(language, n, sub, warnings);
        (c, st.etymology_entries.push(entry), w)
    }
}

/// The dispatch of one recognized subsection heading inside a language
/// section, or nothing when the heading text is not recognized there.
pub open spec fn lang_dispatch_spec(
    language: Language,
    n: NodeView,
    t: Seq<char>,
    sub: Seq<NodeView>,
    st: LangSections,
    warnings: Seq<Warning>,
) -> Option<(int, LangSections, Seq<Warning>)> {
    if t == "Alternative forms"@ {
        let (c, flag, w) = supplementary_spec(Some(language), n, sub, st.alternative_forms, warnings);
        Some((c, LangSections { alternative_forms: flag, ..st }, w))
    } else if t == "Anagrams"@ {
        let (c, flag, w) = supplementary_spec(Some(language), n, sub, st.anagrams, warnings);
        Some((c, LangSections { anagrams: flag, ..st }, w))
    } else if t == "Etymology"@ {
        let (c, flag, w) = supplementary_spec(Some(language), n, sub, st.etymology, warnings);
        Some((c, LangSections { etymology: flag, ..st }, w))
    } else if t == "Etymology 1"@ {
        let (c, entries, w) = numbered_ety_spec(language, n, sub, st, st.seen_etymology_1, warnings);
        Some((c, LangSections { etymology_entries: entries, seen_etymology_1: true, ..st }, w))
    } else if t == "Etymology 2"@ {
        let (c, entries, w) = numbered_ety_spec(language, n, sub, st, st.seen_etymology_2, warnings);
        Some((c, LangSections { etymology_entries: entries, seen_etymology_2: true, ..st }, w))
    } else if t == "Etymology 3"@ {
        let (c, entries, w) = numbered_ety_spec(language, n, sub, st, st.seen_etymology_3, warnings);
        Some((c, LangSections { etymology_entries: entries, seen_etymology_3: true, ..st }, w))
    } else if t == "Etymology 4"@ {
        let (c, entries, w) = numbered_ety_spec(language, n, sub, st, st.seen_etymology_4, warnings);
        Some((c, LangSections { etymology_entries: entries, seen_etymology_4: true, ..st }, w))
    } else if t == "Further reading"@ {
        let (c, flag, w) = supplementary_spec(Some(language), n, sub, st.further_reading, warnings);
        Some((c, LangSections { further_reading: flag, ..st }, w))
    } else if t == "Pronunciation"@ {
        let (c, p, w) = pronunciation_spec(Some(language), n, sub, st.pronunciation, warnings);
        Some((c, LangSections { pronunciation: Some(p), ..st }, w))
    } else {
        match pos_of_heading(t) {
            Some(pos) => {
                let (c, entry, w) = pos_spec(language, n, sub, st.pos_entries, 4, pos, warnings);
                Some((c, LangSections { pos_entries: st.pos_entries.push(entry), ..st }, w))
            },
            None => None,
        }
    }
}

/// A dispatched subsection of a language section consumes between none and
/// all of the nodes after its heading.
pub broadcast proof fn lemma_lang_dispatch_consumed(
    language: Language,
    n: NodeView,
    t: Seq<char>,
    sub: Seq<NodeView>,
    st: LangSections,
    warnings: Seq<Warning>,
)
    ensures
        match #[trigger] lang_dispatch_spec(language, n, t, sub, st, warnings) {
            Some(r) => 0 <= r.0 <= sub.len(),
            None => true,
        },
{
    broadcast use lemma_etymology_spec_consumed;

}

/// The walk of a language section's sibling nodes from index `i` on: each
/// heading one level deeper whose text is a recognized subsection name or
/// a part of speech is dispatched, a heading at the language's own level
/// or higher ends the section, a few informational templates are flagged
/// as supplementary, and anything else is unrecognized.
pub open spec fn lang_loop(
    language: Language,
    nodes: Seq<NodeView>,
    i: int,
    st: LangSections,
    warnings: Seq<Warning>,
) -> (int, LangSections, Seq<Warning>)
    decreases nodes.len() - i,
{
    if i < 0 || i >= nodes.len() {
        (i, st, warnings)
    } else {
        let n = nodes[i];
        let unrecognized = warnings.push(
            warning_of(n.start, n.end, Some(language), WarningMessage::Unrecognized),
        );
        match n.kind {
            NodeKindView::Heading { level, nodes: heading_child_nodes } => {
                if level < 4 {
                    if level < 3 {
                        (i, st, warnings)
                    } else {
                        let t = text_of(heading_child_nodes);
                        let sub = nodes.subrange(i + 1, nodes.len() as int);
                        if t is Some {
                            match lang_dispatch_spec(language, n, t->0, sub, st, warnings) {
                                Some(r) => lang_loop(language, nodes, i + 1 + r.0, r.1, r.2),
                                None => lang_loop(language, nodes, i + 1, st, unrecognized),
                            }
                        } else {
                            lang_loop(language, nodes, i + 1, st, unrecognized)
                        }
                    }
                } else {
                    lang_loop(language, nodes, i + 1, st, unrecognized)
                }
            },
            NodeKindView::Template { name, .. } => {
                let tn = text_of(name);
                if tn is Some && (tn->0 == "number box"@ || tn->0 == "was fwotd"@ || tn->0
                    == "was wotd"@ || tn->0 == "wikipedia"@) {
                    lang_loop(
                        language,
                        nodes,
                        i + 1,
                        st,
                        warnings.push(
                            warning_of(n.start, n.end, Some(language), WarningMessage::Supplementary),
                        ),
                    )
                } else {
                    lang_loop(language, nodes, i + 1, st, unrecognized)
                }
            },
            _ => lang_loop(language, nodes, i + 1, st, unrecognized),
        }
    }
}

/// The walk of a language section never steps backwards nor past the end
/// of its nodes.
pub broadcast proof fn lemma_lang_loop_consumed(
    language: Language,
    nodes: Seq<NodeView>,
    i: int,
    st: LangSections,
    warnings: Seq<Warning>,
)
    requires
        0 <= i <= nodes.len(),
    ensures
        i <= (#[trigger] lang_loop(language, nodes, i, st, warnings)).0 <= nodes.len(),
    decreases nodes.len() - i,
{
    if 0 <= i < nodes.len() {
        let n = nodes[i];
        let unrecognized = warnings.push(
            warning_of(n.start, n.end, Some(language), WarningMessage::Unrecognized),
        );
        match n.kind {
            NodeKindView::Heading { level, nodes: heading_child_nodes } => {
                if level < 4 {
                    if level < 3 {
                    } else {
                        let t = text_of(heading_child_nodes);
                        let sub = nodes.subrange(i + 1, nodes.len() as int);
                        if t is Some {
                            match lang_dispatch_spec(language, n, t->0, sub, st, warnings) {
                                Some(r) => {
                                    lemma_lang_dispatch_consumed(language, n, t->0, sub, st, warnings);
                                    lemma_lang_loop_consumed(language, nodes, i + 1 + r.0, r.1, r.2);
                                },
                                None => {
                                    lemma_lang_loop_consumed(language, nodes, i + 1, st, unrecognized);
                                },
                            }
                        } else {
                            lemma_lang_loop_consumed(language, nodes, i + 1, st, unrecognized);
                        }
                    }
                } else {
                    lemma_lang_loop_consumed(language, nodes, i + 1, st, unrecognized);
                }
            },
            NodeKindView::Template { name, .. } => {
                let tn = text_of(name);
                if tn is Some && (tn->0 == "number box"@ || tn->0 == "was fwotd"@ || tn->0
                    == "was wotd"@ || tn->0 == "wikipedia"@) {
                    lemma_lang_loop_consumed(
                        language,
                        nodes,
                        i + 1,
                        st,
                        warnings.push(
                            warning_of(n.start, n.end, Some(language), WarningMessage::Supplementary),
                        ),
                    );
                } else {
                    lemma_lang_loop_consumed(language, nodes, i + 1, st, unrecognized);
                }
            },
            _ => {
                lemma_lang_loop_consumed(language, nodes, i + 1, st, unrecognized);
            },
        }
    }
}

/// The parse of a language section: a language already present among the
/// collected entries is flagged as a duplicate but its section is still
/// parsed and its entry still produced; a section with neither
/// part-of-speech entries nor numbered etymologies is flagged as empty.
pub open spec fn language_spec(
    language: Language,
    heading: NodeView,
    nodes: Seq<NodeView>,
    entries: Seq<LanguageEntryView>,
    warnings: Seq<Warning>,
) -> (int, LanguageEntryView, Seq<Warning>) {
    let warnings0 = if has_language(entries, language) {
        warnings.push(
            warning_of(heading.start, heading.end, Some(language), WarningMessage::Duplicate),
        )
    } else {
        warnings
    };
    let (i1, st, warnings1) = lang_loop(language, nodes, 0, empty_lang_sections(), warnings0);
    let warnings2 = if st.pos_entries.len() == 0 && st.etymology_entries.len() == 0 {
        warnings1.push(
            warning_of(heading.start, heading.end, Some(language), WarningMessage::SectionEmpty),
        )
    } else {
        warnings1
    };
    let p = match st.pronunciation {
        Some(p) => p,
        None => empty_pronunciation(),
    };
    let entry = LanguageEntryView {
        anagrams: st.anagrams,
        etymology_entries: st.etymology_entries,
        etymology_entry: EtymologyEntryView {
            audio: p.audio,
            alternative_forms: st.alternative_forms,
            etymology: st.etymology,
            homophones: p.homophones,
            hyphenation: p.hyphenation,
            ipa: p.ipa,
            pos_entries: st.pos_entries,
            rhymes: p.rhymes,
        },
        further_reading: st.further_reading,
        language,
    };
    (i1, entry, warnings2)
}

/// A language section's parse consumes between none and all of its nodes.
pub broadcast proof fn lemma_language_spec_consumed(
    language: Language,
    heading: NodeView,
    nodes: Seq<NodeView>,
    entries: Seq<LanguageEntryView>,
    warnings: Seq<Warning>,
)
    ensures
        0 <= (#[trigger] language_spec(language, heading, nodes, entries, warnings)).0
            <= nodes.len(),
{
    let warnings0 = if has_language(entries, language) {
        warnings.push(
            warning_of(heading.start, heading.end, Some(language), WarningMessage::Duplicate),
        )
    } else {
        warnings
    };
    lemma_lang_loop_consumed(language, nodes, 0, empty_lang_sections(), warnings0);
}

/// Dispatches one recognized subsection heading of a language section to
/// the matching parser, handing back the number of nodes the subsection
/// consumed, or nothing when the heading text is not recognized there.
#[verifier::rlimit(100)]
fn dispatch_lang_section(
    context: &mut Context,
    node: &Node,
    heading_text: &String,
    rest: &[Node],
    alternative_forms: &mut bool,
    anagrams: &mut bool,
    etymology: &mut bool,
    etymology_entries: &mut Vec<EtymologyEntry>,
    further_reading: &mut bool,
    pos_entries: &mut Vec<PosEntry>,
    pronunciation: &mut Option<Pronunciation>,
    seen_etymology_1: &mut bool,
    seen_etymology_2: &mut bool,
    seen_etymology_3: &mut bool,
    seen_etymology_4: &mut bool,
) -> (r: Option<usize>)
    requires
        old(context).language is Some,
    ensures
        final(context).language == old(context).language,
        ({
            let st = LangSections {
                alternative_forms: *old(alternative_forms),
                anagrams: *old(anagrams),
                etymology: *old(etymology),
                etymology_entries: etymology_entries_view(old(etymology_entries)@),
                further_reading: *old(further_reading),
                pos_entries: pos_entries_view(old(pos_entries)@),
                pronunciation: *old(pronunciation),
                seen_etymology_1: *old(seen_etymology_1),
                seen_etymology_2: *old(seen_etymology_2),
                seen_etymology_3: *old(seen_etymology_3),
                seen_etymology_4: *old(seen_etymology_4),
            };
            let st1 = LangSections {
                alternative_forms: *final(alternative_forms),
                anagrams: *final(anagrams),
                etymology: *final(etymology),
                etymology_entries: etymology_entries_view(final(etymology_entries)@),
                further_reading: *final(further_reading),
                pos_entries: pos_entries_view(final(pos_entries)@),
                pronunciation: *final(pronunciation),
                seen_etymology_1: *final(seen_etymology_1),
                seen_etymology_2: *final(seen_etymology_2),
                seen_etymology_3: *final(seen_etymology_3),
                seen_etymology_4: *final(seen_etymology_4),
            };
            match lang_dispatch_spec(
                old(context).language->0,
                node_view(*node),
                heading_text@,
                nodes_view(rest@),
                st,
                old(context).warnings@,
            ) {
                Some(res) => r is Some && r->0 == res.0 && res.0 <= rest@.len() && st1 == res.1
                    && final(context).warnings@ == res.2,
                None => r is None && st1 == st && final(context).warnings@ == old(
                    context,
                ).warnings@,
            }
        }),
{
    if str_eq(heading_text.as_str(), "Alternative forms") {
        Some(parse_supplementary(context, node, rest, alternative_forms))
    } else if str_eq(heading_text.as_str(), "Anagrams") {
        Some(parse_supplementary(context, node, rest, anagrams))
    } else if str_eq(heading_text.as_str(), "Etymology") {
        Some(parse_supplementary(context, node, rest, etymology))
    } else if str_eq(heading_text.as_str(), "Etymology 1") {
        let c = parse_numbered_etymology(context, node, rest, etymology_entries, seen_etymology_1);
        Some(c)
    } else if str_eq(heading_text.as_str(), "Etymology 2") {
        let c = parse_numbered_etymology(context, node, rest, etymology_entries, seen_etymology_2);
        Some(c)
    } else if str_eq(heading_text.as_str(), "Etymology 3") {
        let c = parse_numbered_etymology(context, node, rest, etymology_entries, seen_etymology_3);
        Some(c)
    } else if str_eq(heading_text.as_str(), "Etymology 4") {
        let c = parse_numbered_etymology(context, node, rest, etymology_entries, seen_etymology_4);
        Some(c)
    } else if str_eq(heading_text.as_str(), "Further reading") {
        Some(parse_supplementary(context, node, rest, further_reading))
    } else if str_eq(heading_text.as_str(), "Pronunciation") {
        Some(parse_pronunciation(context, node, rest, pronunciation))
    } else {
        match heading_pos(heading_text.as_str()) {
            Some(pos) => Some(parse_pos(context, node, rest, pos_entries, 4, pos)),
            None => None,
        }
    }
}

/// Parses one numbered etymology heading: the first occurrence of the
/// heading contributes its entry; a repeated occurrence is flagged as a
/// duplicate and its section is still parsed, but its contents are
/// discarded.
fn parse_numbered_etymology(
    context: &mut Context,
    node: &Node,
    rest: &[Node],
    etymology_entries: &mut Vec<EtymologyEntry>,
    seen: &mut bool,
) -> (consumed: usize)
    requires
        old(context).language is Some,
    ensures
        final(context).language == old(context).language,
        *final(seen),
        ({
            let (c, entries, w) = numbered_ety_spec(
                old(context).language->0,
                node_view(*node),
                nodes_view(rest@),
                LangSections {
                    etymology_entries: etymology_entries_view(old(etymology_entries)@),
                    ..empty_lang_sections()
                },
                *old(seen),
                old(context).warnings@,
            );
            c == consumed && consumed <= rest@.len() && final(context).warnings@ == w
                && etymology_entries_view(final(etymology_entries)@) == entries
        }),
{
    if *seen {
        add_warning(context, node.start, node.end, WarningMessage::Duplicate);
        let mut discarded: Vec<EtymologyEntry> = Vec::new();
        assert(etymology_entries_view(discarded@) =~= Seq::<EtymologyEntryView>::empty());
        parse_etymology(context, node, rest, &mut discarded)
    } else {
        *seen = true;
        parse_etymology(context, node, rest, etymology_entries)
    }
}

/// Parses a language section into a [`LanguageEntry`] and appends it to
/// `language_entries`: the headings one level deeper dispatch into the
/// subsection parsers and the part-of-speech parser, a few informational
/// templates are flagged as supplementary, and anything else is
/// unrecognized. A language already present in `language_entries` is
/// flagged as a duplicate, but its section is still parsed and its entry
/// still appended.
#[verifier::rlimit(100)]
pub fn parse_language(
    context: &mut Context,
    heading_node: &Node,
    nodes: &[Node],
    language_entries: &mut Vec<LanguageEntry>,
    language: Language,
) -> (consumed: usize)
    requires
        old(context).language == Some(language),
    ensures
        final(context).language == old(context).language,
        consumed <= nodes@.len(),
        ({
            let (c, entry, w) = language_spec(
                language,
                node_view(*heading_node),
                nodes_view(nodes@),
                language_entries_view(old(language_entries)@),
                old(context).warnings@,
            );
            c == consumed && final(context).warnings@ == w && language_entries_view(
                final(language_entries)@,
            ) == language_entries_view(old(language_entries)@).push(entry)
        }),
{
    if entries_have_language(language_entries, language) {
        add_warning(context, heading_node.start, heading_node.end, WarningMessage::Duplicate);
    }
    let ghost warnings0 = context.warnings@;
    let mut alternative_forms = false;
    let mut anagrams = false;
    let mut etymology = false;
    let mut etymology_entries: Vec<EtymologyEntry> = Vec::new();
    let mut further_reading = false;
    let mut pos_entries: Vec<PosEntry> = Vec::new();
    let mut pronunciation: Option<Pronunciation> = None;
    let mut seen_etymology_1 = false;
    let mut seen_etymology_2 = false;
    let mut seen_etymology_3 = false;
    let mut seen_etymology_4 = false;
    let mut node_index: usize = 0;
    assert(pos_entries_view(pos_entries@) =~= Seq::<PosEntryView>::empty());
    assert(etymology_entries_view(etymology_entries@) =~= Seq::<EtymologyEntryView>::empty());
    while node_index < nodes.len()
        invariant
            0 <= node_index <= nodes@.len(),
            nodes_view(nodes@).len() == nodes@.len(),
            old(context).language == Some(language),
            context.language == old(context).language,
            lang_loop(language, nodes_view(nodes@), 0, empty_lang_sections(), warnings0)
                == lang_loop(
                language,
                nodes_view(nodes@),
                node_index as int,
                LangSections {
                    alternative_forms,
                    anagrams,
                    etymology,
                    etymology_entries: etymology_entries_view(etymology_entries@),
                    further_reading,
                    pos_entries: pos_entries_view(pos_entries@),
                    pronunciation,
                    seen_etymology_1,
                    seen_etymology_2,
                    seen_etymology_3,
                    seen_etymology_4,
                },
                context.warnings@,
            ),
        ensures
            0 <= node_index <= nodes@.len(),
            context.language == old(context).language,
            lang_loop(language, nodes_view(nodes@), 0, empty_lang_sections(), warnings0) == (
                node_index as int,
                LangSections {
                    alternative_forms,
                    anagrams,
                    etymology,
                    etymology_entries: etymology_entries_view(etymology_entries@),
                    further_reading,
                    pos_entries: pos_entries_view(pos_entries@),
                    pronunciation,
                    seen_etymology_1,
                    seen_etymology_2,
                    seen_etymology_3,
                    seen_etymology_4,
                },
                context.warnings@,
            ),
        decreases nodes@.len() - node_index,
    {
        assert(nodes_view(nodes@)[node_index as int] == node_view(nodes@[node_index as int]));
        let node = &nodes[node_index];
        let mut dispatched = false;
        match &node.kind {
            NodeKind::Heading { level, nodes: heading_child_nodes } => {
                if *level < 4 {
                    if *level < 3 {
                        break ;
                    }
                    if let Some(heading_text) = parse_text(heading_child_nodes) {
                        match dispatch_lang_section(
                            context,
                            node,
                            &heading_text,
                            &nodes[node_index + 1..nodes.len()],
                            &mut alternative_forms,
                            &mut anagrams,
                            &mut etymology,
                            &mut etymology_entries,
                            &mut further_reading,
                            &mut pos_entries,
                            &mut pronunciation,
                            &mut seen_etymology_1,
                            &mut seen_etymology_2,
                            &mut seen_etymology_3,
                            &mut seen_etymology_4,
                        ) {
                            Some(c) => {
                                node_index = node_index + 1 + c;
                                dispatched = true;
                            },
                            None => {},
                        }
                    }
                }
            },
            NodeKind::Template { name, .. } => {
                if let Some(tname) = parse_text(name) {
                    if str_eq(tname.as_str(), "number box") || str_eq(tname.as_str(), "was fwotd")
                        || str_eq(tname.as_str(), "was wotd") || str_eq(
                        tname.as_str(),
                        "wikipedia",
                    ) {
                        node_index = node_index + 1;
                        add_warning(context, node.start, node.end, WarningMessage::Supplementary);
                        dispatched = true;
                    }
                }
            },
            _ => {},
        }
        if !dispatched {
            node_index = node_index + 1;
            add_warning(context, node.start, node.end, WarningMessage::Unrecognized);
        }
    }
    proof {
        assert(pos_entries_view(pos_entries@).len() == pos_entries@.len());
        assert(etymology_entries_view(etymology_entries@).len() == etymology_entries@.len());
    }
    if pos_entries.is_empty() && etymology_entries.is_empty() {
        add_warning(context, heading_node.start, heading_node.end, WarningMessage::SectionEmpty);
    }
    let p = match pronunciation {
        Some(p) => p,
        None => Pronunciation {
            audio: false,
            homophones: false,
            hyphenation: false,
            ipa: false,
            rhymes: false,
        },
    };
    let entry = LanguageEntry {
        anagrams,
        etymology_entries,
        etymology_entry: EtymologyEntry {
            audio: p.audio,
            alternative_forms,
            etymology,
            homophones: p.homophones,
            hyphenation: p.hyphenation,
            ipa: p.ipa,
            pos_entries,
            rhymes: p.rhymes,
        },
        further_reading,
        language,
    };
    proof {
        assert(language_entries_view(language_entries@.push(entry)) =~= language_entries_view(
            language_entries@,
        ).push(language_entry_view(entry)));
    }
    language_entries.push(entry);
    node_index
}

} // verus!
