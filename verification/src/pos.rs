//! The part-of-speech section parser: head-template detection, the
//! definition list, and dispatch into the leaf subsection parsers.

use vstd::prelude::*;

use crate::definition::{definition_items_spec, parse_definition_items};
use crate::inflection::{inflection_spec, lemma_inflection_loop_consumed, opt_opt_template_view,
    parse_inflection};
use crate::supplementary::{lemma_supplementary_loop_consumed, parse_supplementary,
    supplementary_spec};
use crate::template::{parse_template, template_spec};
use crate::usage_notes::{lemma_notes_loop_consumed, opt_opt_flowings_view, parse_usage_notes,
    usage_notes_spec};
use crate::util::{Context, add_warning, parse_text, str_eq, text_of, warning_of};
use crate::{Definition, DefinitionView, Flowing, FlowingView, Language, Node, NodeKind,
    NodeKindView, NodeView, Pos, PosEntry, PosEntryView, Template, TemplateView, Warning,
    WarningMessage, node_view, nodes_view, pos_entries_view, pos_entry_view,
    templates_view};

verus! {

broadcast use {crate::group_view_lemmas, crate::supplementary::lemma_supplementary_loop_consumed,
    crate::inflection::lemma_inflection_loop_consumed,
    crate::usage_notes::lemma_notes_loop_consumed};

/// The part of speech named by a heading text, if any.
pub open spec fn pos_of_heading(t: Seq<char>) -> Option<Pos> {
    if t == "Adjective"@ {
        Some(Pos::Adjective)
    } else if t == "Adverb"@ {
        Some(Pos::Adverb)
    } else if t == "Article"@ {
        Some(Pos::Article)
    } else if t == "Conjunction"@ {
        Some(Pos::Conjunction)
    } else if t == "Interjection"@ {
        Some(Pos::Interjection)
    } else if t == "Noun"@ {
        Some(Pos::Noun)
    } else if t == "Numeral"@ {
        Some(Pos::Numeral)
    } else if t == "Particle"@ {
        Some(Pos::Particle)
    } else if t == "Phrase"@ {
        Some(Pos::Phrase)
    } else if t == "Preposition"@ {
        Some(Pos::Preposition)
    } else if t == "Pronoun"@ {
        Some(Pos::Pronoun)
    } else if t == "Proper noun"@ {
        Some(Pos::ProperNoun)
    } else if t == "Verb"@ {
        Some(Pos::Verb)
    } else {
        None
    }
}

/// The part of speech named by a heading text, if any.
pub(crate) fn heading_pos(t: &str) -> (r: Option<Pos>)
    ensures
        r == pos_of_heading(t@),
{
    if str_eq(t, "Adjective") {
        Some(Pos::Adjective)
    } else if str_eq(t, "Adverb") {
        Some(Pos::Adverb)
    } else if str_eq(t, "Article") {
        Some(Pos::Article)
    } else if str_eq(t, "Conjunction") {
        Some(Pos::Conjunction)
    } else if str_eq(t, "Interjection") {
        Some(Pos::Interjection)
    } else if str_eq(t, "Noun") {
        Some(Pos::Noun)
    } else if str_eq(t, "Numeral") {
        Some(Pos::Numeral)
    } else if str_eq(t, "Particle") {
        Some(Pos::Particle)
    } else if str_eq(t, "Phrase") {
        Some(Pos::Phrase)
    } else if str_eq(t, "Preposition") {
        Some(Pos::Preposition)
    } else if str_eq(t, "Pronoun") {
        Some(Pos::Pronoun)
    } else if str_eq(t, "Proper noun") {
        Some(Pos::ProperNoun)
    } else if str_eq(t, "Verb") {
        Some(Pos::Verb)
    } else {
        None
    }
}

/// Whether `name` is a head-display template name for the language: the
/// generic `head`, or one of the language-specific names.
pub open spec fn is_head_template_name(language: Language, name: Seq<char>) -> bool {
    name == "head"@ || match language {
        Language::Cs => name == "cs-adj"@ || name == "cs-adv"@ || name == "cs-noun"@ || name
            == "cs-proper noun"@,
        Language::De => name == "de-adj"@ || name == "de-adv"@ || name == "de-noun"@ || name
            == "de-proper noun"@ || name == "de-verb-strong"@ || name == "de-verb-weak"@,
        Language::En => name == "en-adj"@ || name == "en-noun"@ || name == "en-proper noun"@
            || name == "en-verb"@,
        Language::Es => name == "es-adj"@ || name == "es-adv"@ || name == "es-noun"@,
        Language::Sv => name == "sv-adj"@ || name == "sv-adv"@ || name == "sv-noun"@ || name
            == "sv-proper noun"@ || name == "sv-verb-reg"@,
        _ => false,
    }
}

/// Whether one of the entries already carries the part of speech `pos`.
pub open spec fn has_pos(entries: Seq<PosEntryView>, pos: Pos) -> bool {
    exists|j: int| 0 <= j < entries.len() && entries[j].pos == pos
}

/// The first phase of a part-of-speech section: a walk of the sibling
/// nodes from index `i` up to the next heading, recognizing only a
/// head-display template and an ordered list of definitions. A second head
/// template discards the head; a second ordered list is flagged as a
/// duplicate and ignored, keeping the first list's parses; anything else
/// is unrecognized.
pub open spec fn phase_one_loop(
    language: Language,
    nodes: Seq<NodeView>,
    i: int,
    head: Option<Option<TemplateView>>,
    definitions: Option<Seq<DefinitionView>>,
    warnings: Seq<Warning>,
) -> (int, Option<Option<TemplateView>>, Option<Seq<DefinitionView>>, Seq<Warning>)
    decreases nodes.len() - i,
{
    if i < 0 || i >= nodes.len() {
        (i, head, definitions, warnings)
    } else {
        let n = nodes[i];
        match n.kind {
            NodeKindView::Heading { .. } => (i, head, definitions, warnings),
            NodeKindView::Template { name, parameters } => {
                let tn = text_of(name);
                if tn is Some && is_head_template_name(language, tn->0) {
                    if head is Some {
                        phase_one_loop(
                            language,
                            nodes,
                            i + 1,
                            Some(None),
                            definitions,
                            warnings.push(
                                warning_of(n.start, n.end, Some(language), WarningMessage::Duplicate),
                            ),
                        )
                    } else {
                        let (t, w) = template_spec(Some(language), tn->0, parameters, warnings);
                        phase_one_loop(language, nodes, i + 1, Some(t), definitions, w)
                    }
                } else {
                    phase_one_loop(
                        language,
                        nodes,
                        i + 1,
                        head,
                        definitions,
                        warnings.push(
                            warning_of(n.start, n.end, Some(language), WarningMessage::Unrecognized),
                        ),
                    )
                }
            },
            NodeKindView::OrderedList { items } => {
                if definitions is Some {
                    phase_one_loop(
                        language,
                        nodes,
                        i + 1,
                        head,
                        definitions,
                        warnings.push(
                            warning_of(n.start, n.end, Some(language), WarningMessage::Duplicate),
                        ),
                    )
                } else {
                    let (ds, w) = definition_items_spec(language, items, 0, Seq::empty(), warnings);
                    phase_one_loop(language, nodes, i + 1, head, Some(ds), w)
                }
            },
            _ => phase_one_loop(
                language,
                nodes,
                i + 1,
                head,
                definitions,
                warnings.push(
                    warning_of(n.start, n.end, Some(language), WarningMessage::Unrecognized),
                ),
            ),
        }
    }
}

/// The subsection flags and records collected by the second phase of a
/// part-of-speech section.
#[verifier::ext_equal]
pub struct PosSections {
    /// Whether the subsection `Antonyms` is present.
    pub antonyms: bool,
    /// Whether the subsection `Derived terms` is present.
    pub derived_terms: bool,
    /// Whether the subsection `Hypernyms` is present.
    pub hypernyms: bool,
    /// Whether the subsection `Hyponyms` is present.
    pub hyponyms: bool,
    /// The inflection templates collected so far.
    pub inflection: Seq<TemplateView>,
    /// Whether the subsection `Related terms` is present.
    pub related_terms: bool,
    /// Whether the subsection `Synonyms` is present.
    pub synonyms: bool,
    /// Whether the subsection `Translations` is present.
    pub translations: bool,
    /// The usage-notes slot.
    pub usage_notes: Option<Option<Seq<FlowingView>>>,
}

/// The second-phase state a part-of-speech section starts from: no
/// subsection seen yet.
pub open spec fn empty_pos_sections() -> PosSections {
    PosSections {
        antonyms: false,
        derived_terms: false,
        hypernyms: false,
        hyponyms: false,
        inflection: Seq::empty(),
        related_terms: false,
        synonyms: false,
        translations: false,
        usage_notes: None,
    }
}

/// The dispatch of one recognized subsection heading at the section's own
/// level: the matching subsection parser's result over the sibling nodes
/// after the heading, or nothing when the heading text is not a recognized
/// subsection name.
pub open spec fn pos_dispatch_spec(
    language: Language,
    n: NodeView,
    t: Seq<char>,
    sub: Seq<NodeView>,
    st: PosSections,
    warnings: Seq<Warning>,
) -> Option<(int, PosSections, Seq<Warning>)> {
    if t == "Antonyms"@ {
        let (c, flag, w) = supplementary_spec(Some(language), n, sub, st.antonyms, warnings);
        Some((c, PosSections { antonyms: flag, ..st }, w))
    } else if t == "Conjugation"@ {
        let (c, pushed, w) = inflection_spec(language, "-conj-"@, n, sub, warnings);
        Some(
            (
                c,
                PosSections {
                    inflection: match pushed {
                        None => st.inflection,
                        Some(t) => st.inflection.push(t),
                    },
                    ..st
                },
                w,
            ),
        )
    } else if t == "Declension"@ {
        let (c, pushed, w) = inflection_spec(language, "-decl-"@, n, sub, warnings);
        Some(
            (
                c,
                PosSections {
                    inflection: match pushed {
                        None => st.inflection,
                        Some(t) => st.inflection.push(t),
                    },
                    ..st
                },
                w,
            ),
        )
    } else if t == "Derived terms"@ {
        let (c, flag, w) = supplementary_spec(Some(language), n, sub, st.derived_terms, warnings);
        Some((c, PosSections { derived_terms: flag, ..st }, w))
    } else if t == "Hypernyms"@ {
        let (c, flag, w) = supplementary_spec(Some(language), n, sub, st.hypernyms, warnings);
        Some((c, PosSections { hypernyms: flag, ..st }, w))
    } else if t == "Hyponyms"@ {
        let (c, flag, w) = supplementary_spec(Some(language), n, sub, st.hyponyms, warnings);
        Some((c, PosSections { hyponyms: flag, ..st }, w))
    } else if t == "Related terms"@ {
        let (c, flag, w) = supplementary_spec(Some(language), n, sub, st.related_terms, warnings);
        Some((c, PosSections { related_terms: flag, ..st }, w))
    } else if t == "Synonyms"@ {
        let (c, flag, w) = supplementary_spec(Some(language), n, sub, st.synonyms, warnings);
        Some((c, PosSections { synonyms: flag, ..st }, w))
    } else if t == "Translations"@ {
        let (c, flag, w) = supplementary_spec(Some(language), n, sub, st.translations, warnings);
        Some((c, PosSections { translations: flag, ..st }, w))
    } else if t == "Usage notes"@ {
        let (c, out, w) = usage_notes_spec(Some(language), n, sub, st.usage_notes, warnings);
        Some((c, PosSections { usage_notes: out, ..st }, w))
    } else {
        None
    }
}

/// A dispatched subsection's parse consumes between none and all of the
/// nodes after its heading.
pub broadcast proof fn lemma_pos_dispatch_consumed(
    language: Language,
    n: NodeView,
    t: Seq<char>,
    sub: Seq<NodeView>,
    st: PosSections,
    warnings: Seq<Warning>,
)
    ensures
        match #[trigger] pos_dispatch_spec(language, n, t, sub, st, warnings) {
            Some(r) => 0 <= r.0 <= sub.len(),
            None => true,
        },
{
}

/// The second phase of a part-of-speech section: a walk of the sibling
/// nodes from index `i` on, dispatching each heading at the section's own
/// level whose text is a recognized subsection name to the matching
/// subsection parser; a heading at a higher level ends the section, and
/// anything else is unrecognized.
pub open spec fn phase_two_loop(
    language: Language,
    heading_level: u8,
    nodes: Seq<NodeView>,
    i: int,
    st: PosSections,
    warnings: Seq<Warning>,
) -> (int, PosSections, Seq<Warning>)
    decreases nodes.len() - i,
{
    if i < 0 || i >= nodes.len() {
        (i, st, warnings)
    } else {
        let n = nodes[i];
        let unrecognized = warnings.push(
            warning_of(n.start, n.end, Some(language), WarningMessage::Unrecognized),
        );
        match n.kind {
            NodeKindView::Heading { level, nodes: heading_child_nodes } => {
                if level < heading_level {
                    (i, st, warnings)
                } else if level == heading_level {
                    let t = text_of(heading_child_nodes);
                    let sub = nodes.subrange(i + 1, nodes.len() as int);
                    if t is Some {
                        match pos_dispatch_spec(language, n, t->0, sub, st, warnings) {
                            Some(r) => phase_two_loop(
                                language,
                                heading_level,
                                nodes,
                                i + 1 + r.0,
                                r.1,
                                r.2,
                            ),
                            None => phase_two_loop(
                                language,
                                heading_level,
                                nodes,
                                i + 1,
                                st,
                                unrecognized,
                            ),
                        }
                    } else {
                        phase_two_loop(language, heading_level, nodes, i + 1, st, unrecognized)
                    }
                } else {
                    phase_two_loop(language, heading_level, nodes, i + 1, st, unrecognized)
                }
            },
            _ => phase_two_loop(language, heading_level, nodes, i + 1, st, unrecognized),
        }
    }
}

/// The parse of a part-of-speech section: the duplicate check against the
/// entries already collected, the two phases, and the entry built from
/// their results. The entry is always produced, also for a duplicated
/// part of speech. A usage-notes subsection that was present but held no
/// usable content appears as an empty list, distinguishable from the
/// absent subsection.
pub open spec fn pos_spec(
    language: Language,
    heading: NodeView,
    nodes: Seq<NodeView>,
    entries: Seq<PosEntryView>,
    heading_level: u8,
    pos: Pos,
    warnings: Seq<Warning>,
) -> (int, PosEntryView, Seq<Warning>) {
    let warnings0 = if has_pos(entries, pos) {
        warnings.push(
            warning_of(heading.start, heading.end, Some(language), WarningMessage::Duplicate),
        )
    } else {
        warnings
    };
    let (i1, head, definitions, warnings1) = phase_one_loop(
        language,
        nodes,
        0,
        None,
        None,
        warnings0,
    );
    let warnings2 = if definitions is None {
        warnings1.push(
            warning_of(heading.start, heading.end, Some(language), WarningMessage::SectionEmpty),
        )
    } else {
        warnings1
    };
    let (i2, st, warnings3) = phase_two_loop(
        language,
        heading_level,
        nodes,
        i1,
        empty_pos_sections(),
        warnings2,
    );
    let entry = PosEntryView {
        antonyms: st.antonyms,
        definitions: match definitions {
            None => Seq::empty(),
            Some(ds) => ds,
        },
        derived_terms: st.derived_terms,
        head: match head {
            None => None,
            Some(h) => h,
        },
        hypernyms: st.hypernyms,
        hyponyms: st.hyponyms,
        inflection: st.inflection,
        pos,
        related_terms: st.related_terms,
        synonyms: st.synonyms,
        translations: st.translations,
        usage_notes: match st.usage_notes {
            None => None,
            Some(None) => Some(Seq::empty()),
            Some(Some(u)) => Some(u),
        },
    };
    (i2, entry, warnings3)
}

/// The first phase of a part-of-speech section never steps backwards nor
/// past the end of its nodes.
pub broadcast proof fn lemma_phase_one_loop_consumed(
    language: Language,
    nodes: Seq<NodeView>,
    i: int,
    head: Option<Option<TemplateView>>,
    definitions: Option<Seq<DefinitionView>>,
    warnings: Seq<Warning>,
)
    requires
        0 <= i <= nodes.len(),
    ensures
        i <= (#[trigger] phase_one_loop(language, nodes, i, head, definitions, warnings)).0
            <= nodes.len(),
    decreases nodes.len() - i,
{
    if 0 <= i < nodes.len() {
        let n = nodes[i];
        let unrecognized = warnings.push(
            warning_of(n.start, n.end, Some(language), WarningMessage::Unrecognized),
        );
        match n.kind {
            NodeKindView::Heading { .. } => {},
            NodeKindView::Template { name, parameters } => {
                let tn = text_of(name);
                if tn is Some && is_head_template_name(language, tn->0) {
                    if head is Some {
                        lemma_phase_one_loop_consumed(
                            language,
                            nodes,
                            i + 1,
                            Some(None),
                            definitions,
                            warnings.push(
                                warning_of(n.start, n.end, Some(language), WarningMessage::Duplicate),
                            ),
                        );
                    } else {
                        let (t, w) = template_spec(Some(language), tn->0, parameters, warnings);
                        lemma_phase_one_loop_consumed(language, nodes, i + 1, Some(t), definitions, w);
                    }
                } else {
                    lemma_phase_one_loop_consumed(
                        language,
                        nodes,
                        i + 1,
                        head,
                        definitions,
                        unrecognized,
                    );
                }
            },
            NodeKindView::OrderedList { items } => {
                if definitions is Some {
                    lemma_phase_one_loop_consumed(
                        language,
                        nodes,
                        i + 1,
                        head,
                        definitions,
                        warnings.push(
                            warning_of(n.start, n.end, Some(language), WarningMessage::Duplicate),
                        ),
                    );
                } else {
                    let (ds, w) = definition_items_spec(language, items, 0, Seq::empty(), warnings);
                    lemma_phase_one_loop_consumed(language, nodes, i + 1, head, Some(ds), w);
                }
            },
            _ => {
                lemma_phase_one_loop_consumed(
                    language,
                    nodes,
                    i + 1,
                    head,
                    definitions,
                    unrecognized,
                );
            },
        }
    }
}

/// The second phase of a part-of-speech section never steps backwards nor
/// past the end of its nodes.
pub broadcast proof fn lemma_phase_two_loop_consumed(
    language: Language,
    heading_level: u8,
    nodes: Seq<NodeView>,
    i: int,
    st: PosSections,
    warnings: Seq<Warning>,
)
    requires
        0 <= i <= nodes.len(),
    ensures
        i <= (#[trigger] phase_two_loop(language, heading_level, nodes, i, st, warnings)).0
            <= nodes.len(),
    decreases nodes.len() - i,
{
    if 0 <= i < nodes.len() {
        let n = nodes[i];
        let unrecognized = warnings.push(
            warning_of(n.start, n.end, Some(language), WarningMessage::Unrecognized),
        );
        match n.kind {
            NodeKindView::Heading { level, nodes: heading_child_nodes } => {
                if level < heading_level {
                } else if level == heading_level {
                    let t = text_of(heading_child_nodes);
                    let sub = nodes.subrange(i + 1, nodes.len() as int);
                    if t is Some {
                        match pos_dispatch_spec(language, n, t->0, sub, st, warnings) {
                            Some(r) => {
                                lemma_pos_dispatch_consumed(language, n, t->0, sub, st, warnings);
                                lemma_phase_two_loop_consumed(
                                    language,
                                    heading_level,
                                    nodes,
                                    i + 1 + r.0,
                                    r.1,
                                    r.2,
                                );
                            },
                            None => {
                                lemma_phase_two_loop_consumed(
                                    language,
                                    heading_level,
                                    nodes,
                                    i + 1,
                                    st,
                                    unrecognized,
                                );
                            },
                        }
                    } else {
                        lemma_phase_two_loop_consumed(
                            language,
                            heading_level,
                            nodes,
                            i + 1,
                            st,
                            unrecognized,
                        );
                    }
                } else {
                    lemma_phase_two_loop_consumed(
                        language,
                        heading_level,
                        nodes,
                        i + 1,
                        st,
                        unrecognized,
                    );
                }
            },
            _ => {
                lemma_phase_two_loop_consumed(language, heading_level, nodes, i + 1, st, unrecognized);
            },
        }
    }
}

/// A part-of-speech section's parse consumes between none and all of its
/// nodes.
pub broadcast proof fn lemma_pos_spec_consumed(
    language: Language,
    heading: NodeView,
    nodes: Seq<NodeView>,
    entries: Seq<PosEntryView>,
    heading_level: u8,
    pos: Pos,
    warnings: Seq<Warning>,
)
    ensures
        0 <= (#[trigger] pos_spec(
            language,
            heading,
            nodes,
            entries,
            heading_level,
            pos,
            warnings,
        )).0 <= nodes.len(),
{
    let warnings0 = if has_pos(entries, pos) {
        warnings.push(
            warning_of(heading.start, heading.end, Some(language), WarningMessage::Duplicate),
        )
    } else {
        warnings
    };
    lemma_phase_one_loop_consumed(language, nodes, 0, None, None, warnings0);
    let (i1, head, definitions, warnings1) = phase_one_loop(
        language,
        nodes,
        0,
        None,
        None,
        warnings0,
    );
    let warnings2 = if definitions is None {
        warnings1.push(
            warning_of(heading.start, heading.end, Some(language), WarningMessage::SectionEmpty),
        )
    } else {
        warnings1
    };
    lemma_phase_two_loop_consumed(
        language,
        heading_level,
        nodes,
        i1,
        empty_pos_sections(),
        warnings2,
    );
}

/// Whether `template_name` is a head-display template name for the
/// language.
fn check_head_template_name(language: Language, template_name: &str) -> (r: bool)
    ensures
        r == is_head_template_name(language, template_name@),
{
    if str_eq(template_name, "head") {
        return true;
    }
    match language {
        Language::Cs => str_eq(template_name, "cs-adj") || str_eq(template_name, "cs-adv")
            || str_eq(template_name, "cs-noun") || str_eq(template_name, "cs-proper noun"),
        Language::De => str_eq(template_name, "de-adj") || str_eq(template_name, "de-adv")
            || str_eq(template_name, "de-noun") || str_eq(template_name, "de-proper noun")
            || str_eq(template_name, "de-verb-strong") || str_eq(template_name, "de-verb-weak"),
        Language::En => str_eq(template_name, "en-adj") || str_eq(template_name, "en-noun")
            || str_eq(template_name, "en-proper noun") || str_eq(template_name, "en-verb"),
        Language::Es => str_eq(template_name, "es-adj") || str_eq(template_name, "es-adv")
            || str_eq(template_name, "es-noun"),
        Language::Sv => str_eq(template_name, "sv-adj") || str_eq(template_name, "sv-adv")
            || str_eq(template_name, "sv-noun") || str_eq(template_name, "sv-proper noun")
            || str_eq(template_name, "sv-verb-reg"),
        _ => false,
    }
}

/// Whether one of the entries already carries the part of speech `pos`.
fn entries_have_pos(pos_entries: &Vec<PosEntry>, pos: Pos) -> (r: bool)
    ensures
        r == has_pos(pos_entries_view(pos_entries@), pos),
{
    let mut j: usize = 0;
    while j < pos_entries.len()
        invariant
            0 <= j <= pos_entries@.len(),
            forall|k: int|
                0 <= k < j ==> pos_entries_view(pos_entries@)[k].pos != pos,
        decreases pos_entries@.len() - j,
    {
        assert(pos_entries_view(pos_entries@)[j as int] == pos_entry_view(pos_entries@[j as int]));
        if pos_entries[j].pos == pos {
            return true;
        }
        j = j + 1;
    }
    proof {
        assert(forall|k: int|
            0 <= k < pos_entries_view(pos_entries@).len() ==> pos_entries_view(
                pos_entries@,
            )[k].pos != pos);
    }
    false
}

/// Parses a part-of-speech section into a [`PosEntry`] and appends it to
/// `pos_entries`: the first phase recognizes the head template and the
/// definition list, the second phase dispatches the recognized subsection
/// headings at the section's own level. A part of speech already present
/// in `pos_entries` is flagged as a duplicate, but its section is still
/// parsed and its entry still appended.
#[verifier::rlimit(100)]
pub fn parse_pos(
    context: &mut Context,
    heading_node: &Node,
    nodes: &[Node],
    pos_entries: &mut Vec<PosEntry>,
    heading_level: u8,
    pos: Pos,
) -> (consumed: usize)
    requires
        old(context).language is Some,
    ensures
        final(context).language == old(context).language,
        consumed <= nodes@.len(),
        ({
            let (c, entry, w) = pos_spec(
                old(context).language->0,
                node_view(*heading_node),
                nodes_view(nodes@),
                pos_entries_view(old(pos_entries)@),
                heading_level,
                pos,
                old(context).warnings@,
            );
            c == consumed && final(context).warnings@ == w && pos_entries_view(
                final(pos_entries)@,
            ) == pos_entries_view(old(pos_entries)@).push(entry)
        }),
{
    let ghost language = old(context).language->0;
    if entries_have_pos(pos_entries, pos) {
        add_warning(context, heading_node.start, heading_node.end, WarningMessage::Duplicate);
    }
    let ghost warnings0 = context.warnings@;
    let mut head: Option<Option<Template>> = None;
    let mut definitions: Option<Vec<Definition>> = None;
    let mut node_index: usize = 0;
    while node_index < nodes.len()
        invariant
            0 <= node_index <= nodes@.len(),
            nodes_view(nodes@).len() == nodes@.len(),
            old(context).language is Some,
            language == old(context).language->0,
            context.language == old(context).language,
            phase_one_loop(language, nodes_view(nodes@), 0, None, None, warnings0)
                == phase_one_loop(
                language,
                nodes_view(nodes@),
                node_index as int,
                opt_opt_template_view(head),
                crate::definition::opt_definitions_view(definitions),
                context.warnings@,
            ),
        ensures
            0 <= node_index <= nodes@.len(),
            context.language == old(context).language,
            phase_one_loop(language, nodes_view(nodes@), 0, None, None, warnings0) == (
                node_index as int,
                opt_opt_template_view(head),
                crate::definition::opt_definitions_view(definitions),
                context.warnings@,
            ),
        decreases nodes@.len() - node_index,
    {
        assert(nodes_view(nodes@)[node_index as int] == node_view(nodes@[node_index as int]));
        let node = &nodes[node_index];
        match &node.kind {
            NodeKind::Heading { .. } => {
                break ;
            },
            NodeKind::Template { name, parameters } => {
                let mut recognized = false;
                let mut parsed_name: Option<String> = None;
                if let Some(tname) = parse_text(name) {
                    if check_head_template_name(context.language.unwrap(), tname.as_str()) {
                        recognized = true;
                    }
                    parsed_name = Some(tname);
                }
                if recognized {
                    let tname = parsed_name.unwrap();
                    node_index = node_index + 1;
                    if head.is_some() {
                        head = Some(None);
                        add_warning(context, node.start, node.end, WarningMessage::Duplicate);
                    } else {
                        let t = parse_template(context, tname, parameters);
                        head = Some(t);
                    }
                } else {
                    node_index = node_index + 1;
                    add_warning(context, node.start, node.end, WarningMessage::Unrecognized);
                }
            },
            NodeKind::OrderedList { items } => {
                node_index = node_index + 1;
                if definitions.is_some() {
                    add_warning(context, node.start, node.end, WarningMessage::Duplicate);
                } else {
                    let ds = parse_definition_items(context, items);
                    definitions = Some(ds);
                }
            },
            _ => {
                node_index = node_index + 1;
                add_warning(context, node.start, node.end, WarningMessage::Unrecognized);
            },
        }
    }
    if definitions.is_none() {
        add_warning(context, heading_node.start, heading_node.end, WarningMessage::SectionEmpty);
    }
    let ghost phase_two_start = node_index as int;
    let ghost warnings2 = context.warnings@;
    let mut antonyms = false;
    let mut derived_terms = false;
    let mut hypernyms = false;
    let mut hyponyms = false;
    let mut inflection: Vec<Template> = Vec::new();
    let mut related_terms = false;
    let mut synonyms = false;
    let mut translations = false;
    let mut usage_notes: Option<Option<Vec<Flowing>>> = None;
    assert(templates_view(inflection@) =~= Seq::<TemplateView>::empty());
    while node_index < nodes.len()
        invariant
            0 <= phase_two_start <= node_index <= nodes@.len(),
            nodes_view(nodes@).len() == nodes@.len(),
            old(context).language is Some,
            language == old(context).language->0,
            context.language == old(context).language,
            phase_two_loop(
                language,
                heading_level,
                nodes_view(nodes@),
                phase_two_start,
                empty_pos_sections(),
                warnings2,
            ) == phase_two_loop(
                language,
                heading_level,
                nodes_view(nodes@),
                node_index as int,
                PosSections {
                    antonyms,
                    derived_terms,
                    hypernyms,
                    hyponyms,
                    inflection: templates_view(inflection@),
                    related_terms,
                    synonyms,
                    translations,
                    usage_notes: opt_opt_flowings_view(usage_notes),
                },
                context.warnings@,
            ),
        ensures
            0 <= node_index <= nodes@.len(),
            context.language == old(context).language,
            phase_two_loop(
                language,
                heading_level,
                nodes_view(nodes@),
                phase_two_start,
                empty_pos_sections(),
                warnings2,
            ) == (
                node_index as int,
                PosSections {
                    antonyms,
                    derived_terms,
                    hypernyms,
                    hyponyms,
                    inflection: templates_view(inflection@),
                    related_terms,
                    synonyms,
                    translations,
                    usage_notes: opt_opt_flowings_view(usage_notes),
                },
                context.warnings@,
            ),
        decreases nodes@.len() - node_index,
    {
        assert(nodes_view(nodes@)[node_index as int] == node_view(nodes@[node_index as int]));
        let node = &nodes[node_index];
        let mut dispatched = false;
        if let NodeKind::Heading { level, nodes: heading_child_nodes } = &node.kind {
            if *level < heading_level {
                break ;
            }
            if *level == heading_level {
                if let Some(heading_text) = parse_text(heading_child_nodes) {
                    match dispatch_pos_section(
                        context,
                        node,
                        &heading_text,
                        &nodes[node_index + 1..nodes.len()],
                        &mut antonyms,
                        &mut derived_terms,
                        &mut hypernyms,
                        &mut hyponyms,
                        &mut inflection,
                        &mut related_terms,
                        &mut synonyms,
                        &mut translations,
                        &mut usage_notes,
                    ) {
                        Some(c) => {
                            node_index = node_index + 1 + c;
                            dispatched = true;
                        },
                        None => {},
                    }
                }
            }
        }
        if !dispatched {
            node_index = node_index + 1;
            add_warning(context, node.start, node.end, WarningMessage::Unrecognized);
        }
    }
    let entry = PosEntry {
        antonyms,
        definitions: match definitions {
            None => Vec::new(),
            Some(ds) => ds,
        },
        derived_terms,
        head: match head {
            None => None,
            Some(h) => h,
        },
        hypernyms,
        hyponyms,
        inflection,
        pos,
        related_terms,
        synonyms,
        translations,
        usage_notes: match usage_notes {
            None => None,
            Some(None) => Some(Vec::new()),
            Some(Some(u)) => Some(u),
        },
    };
    proof {
        assert(pos_entries_view(pos_entries@.push(entry)) =~= pos_entries_view(
            pos_entries@,
        ).push(pos_entry_view(entry)));
    }
    pos_entries.push(entry);
    node_index
}

/// Dispatches one recognized subsection heading at the section's own
/// level to the matching subsection parser, handing back the number of
/// nodes the subsection consumed, or nothing when the heading text is not
/// a recognized subsection name.
#[verifier::rlimit(100)]
fn dispatch_pos_section(
    context: &mut Context,
    node: &Node,
    heading_text: &String,
    rest: &[Node],
    antonyms: &mut bool,
    derived_terms: &mut bool,
    hypernyms: &mut bool,
    hyponyms: &mut bool,
    inflection: &mut Vec<Template>,
    related_terms: &mut bool,
    synonyms: &mut bool,
    translations: &mut bool,
    usage_notes: &mut Option<Option<Vec<Flowing>>>,
) -> (r: Option<usize>)
    requires
        old(context).language is Some,
    ensures
        final(context).language == old(context).language,
        ({
            let st = PosSections {
                antonyms: *old(antonyms),
                derived_terms: *old(derived_terms),
                hypernyms: *old(hypernyms),
                hyponyms: *old(hyponyms),
                inflection: templates_view(old(inflection)@),
                related_terms: *old(related_terms),
                synonyms: *old(synonyms),
                translations: *old(translations),
                usage_notes: opt_opt_flowings_view(*old(usage_notes)),
            };
            let st1 = PosSections {
                antonyms: *final(antonyms),
                derived_terms: *final(derived_terms),
                hypernyms: *final(hypernyms),
                hyponyms: *final(hyponyms),
                inflection: templates_view(final(inflection)@),
                related_terms: *final(related_terms),
                synonyms: *final(synonyms),
                translations: *final(translations),
                usage_notes: opt_opt_flowings_view(*final(usage_notes)),
            };
            match pos_dispatch_spec(
                old(context).language->0,
                node_view(*node),
                heading_text@,
                nodes_view(rest@),
                st,
                old(context).warnings@,
            ) {
                Some(res) => r is Some && r->0 == res.0 && res.0 <= rest@.len() && st1 == res.1
                    && final(context).warnings@ == res.2,
                None => r is None && st1 == st && final(context).warnings@ == old(
                    context,
                ).warnings@,
            }
        }),
{
    if str_eq(heading_text.as_str(), "Antonyms") {
        Some(parse_supplementary(context, node, rest, antonyms))
    } else if str_eq(heading_text.as_str(), "Conjugation") {
        Some(parse_inflection(context, node, rest, inflection, "-conj-"))
    } else if str_eq(heading_text.as_str(), "Declension") {
        Some(parse_inflection(context, node, rest, inflection, "-decl-"))
    } else if str_eq(heading_text.as_str(), "Derived terms") {
        Some(parse_supplementary(context, node, rest, derived_terms))
    } else if str_eq(heading_text.as_str(), "Hypernyms") {
        Some(parse_supplementary(context, node, rest, hypernyms))
    } else if str_eq(heading_text.as_str(), "Hyponyms") {
        Some(parse_supplementary(context, node, rest, hyponyms))
    } else if str_eq(heading_text.as_str(), "Related terms") {
        Some(parse_supplementary(context, node, rest, related_terms))
    } else if str_eq(heading_text.as_str(), "Synonyms") {
        Some(parse_supplementary(context, node, rest, synonyms))
    } else if str_eq(heading_text.as_str(), "Translations") {
        Some(parse_supplementary(context, node, rest, translations))
    } else if str_eq(heading_text.as_str(), "Usage notes") {
        Some(parse_usage_notes(context, node, rest, usage_notes))
    } else {
        None
    }
}

} // verus!
