//! Parse dictionary pages from the English language edition of Wiktionary
//! into structured data.
//!
//! The input is a tree of syntax nodes as produced by a generic wiki markup
//! parser; this crate performs the semantic second pass: it decides what the
//! markup primitives mean in the context of one dictionary's editorial
//! conventions and assembles them into a typed document model, recording a
//! [`Warning`] for every place the input deviates from the expected
//! structure.

use vstd::prelude::*;

pub mod article;
pub mod definition;
pub mod etymology;
pub mod inflection;
pub mod language;
pub mod pos;
pub mod pronunciation;
pub mod supplementary;
pub mod template;
pub mod usage_notes;
pub mod util;

pub use article::parse;

verus! {

/// A syntax node of the wiki markup tree that this crate consumes.
///
/// Input contract: `start` and `end` are byte offsets into the original wiki
/// text, and `source` is the exact substring of the wiki text spanning
/// `start..end`. Whoever builds these nodes from a markup parser's output is
/// responsible for that correspondence; the parsers here copy `source`
/// verbatim into [`Flowing::Unknown`] placeholders and `start`/`end` into
/// warnings.
#[derive(Debug, PartialEq)]
pub struct Node {
    /// The byte position in the wiki text where the node starts.
    pub start: usize,
    /// The byte position in the wiki text where the node ends.
    pub end: usize,
    /// The wiki text of the node: the substring spanning `start..end`.
    pub source: String,
    /// What kind of markup construct the node is.
    pub kind: NodeKind,
}

/// The kinds of markup construct a [`Node`] can be.
///
/// Only the kinds this crate's parsers inspect are distinguished; every other
/// construct of the markup language is represented as [`NodeKind::Other`] and
/// treated as unrecognized wherever it occurs.
#[derive(Debug, PartialEq)]
#[allow(inconsistent_fields)]
pub enum NodeKind {
    /// Toggle bold text.
    Bold,
    /// A character entity.
    CharacterEntity {
        /// The character the entity resolves to.
        character: char,
    },
    /// A definition list.
    DefinitionList {
        /// The items of the list.
        items: Vec<ListItem>,
    },
    /// A section heading.
    Heading {
        /// The level of the heading: 1 for the topmost headings, increasing
        /// with nesting.
        level: u8,
        /// The content of the heading.
        nodes: Vec<Node>,
    },
    /// Toggle italic text.
    Italic,
    /// A link.
    Link {
        /// The target the link refers to.
        target: String,
        /// The content to display for the link.
        text: Vec<Node>,
    },
    /// An ordered list.
    OrderedList {
        /// The items of the list.
        items: Vec<ListItem>,
    },
    /// An extension tag.
    Tag {
        /// The name of the tag.
        name: String,
    },
    /// A template invocation.
    Template {
        /// The content of the name of the template.
        name: Vec<Node>,
        /// The parameters of the template, in order.
        parameters: Vec<Parameter>,
    },
    /// A chunk of plain text.
    Text {
        /// The text.
        value: String,
    },
    /// An unordered list.
    UnorderedList {
        /// The items of the list.
        items: Vec<ListItem>,
    },
    /// Any markup construct this crate does not inspect.
    Other,
}

/// An item of an ordered, unordered or definition list.
#[derive(Debug, PartialEq)]
pub struct ListItem {
    /// The byte position in the wiki text where the item starts.
    pub start: usize,
    /// The byte position in the wiki text where the item ends.
    pub end: usize,
    /// The content of the item.
    pub nodes: Vec<Node>,
}

/// A parameter of a template invocation.
#[derive(Debug, PartialEq)]
pub struct Parameter {
    /// The byte position in the wiki text where the parameter starts.
    pub start: usize,
    /// The byte position in the wiki text where the parameter ends.
    pub end: usize,
    /// The content of the name of the parameter, if the parameter is named.
    pub name: Option<Vec<Node>>,
    /// The content of the value of the parameter.
    pub value: Vec<Node>,
}

/// The mathematical value of a [`Node`]: the same shape over `Seq` values.
#[verifier::ext_equal]
pub struct NodeView {
    /// See [`Node::start`].
    pub start: usize,
    /// See [`Node::end`].
    pub end: usize,
    /// See [`Node::source`].
    pub source: Seq<char>,
    /// See [`Node::kind`].
    pub kind: NodeKindView,
}

/// The mathematical value of a [`NodeKind`].
#[verifier::ext_equal]
#[allow(inconsistent_fields)]
pub enum NodeKindView {
    /// See [`NodeKind::Bold`].
    Bold,
    /// See [`NodeKind::CharacterEntity`].
    CharacterEntity {
        /// The character the entity resolves to.
        character: char,
    },
    /// See [`NodeKind::DefinitionList`].
    DefinitionList {
        /// The items of the list.
        items: Seq<ListItemView>,
    },
    /// See [`NodeKind::Heading`].
    Heading {
        /// The level of the heading.
        level: u8,
        /// The content of the heading.
        nodes: Seq<NodeView>,
    },
    /// See [`NodeKind::Italic`].
    Italic,
    /// See [`NodeKind::Link`].
    Link {
        /// The target the link refers to.
        target: Seq<char>,
        /// The content to display for the link.
        text: Seq<NodeView>,
    },
    /// See [`NodeKind::OrderedList`].
    OrderedList {
        /// The items of the list.
        items: Seq<ListItemView>,
    },
    /// See [`NodeKind::Tag`].
    Tag {
        /// The name of the tag.
        name: Seq<char>,
    },
    /// See [`NodeKind::Template`].
    Template {
        /// The content of the name of the template.
        name: Seq<NodeView>,
        /// The parameters of the template, in order.
        parameters: Seq<ParameterView>,
    },
    /// See [`NodeKind::Text`].
    Text {
        /// The text.
        value: Seq<char>,
    },
    /// See [`NodeKind::UnorderedList`].
    UnorderedList {
        /// The items of the list.
        items: Seq<ListItemView>,
    },
    /// See [`NodeKind::Other`].
    Other,
}

/// The mathematical value of a [`ListItem`].
#[verifier::ext_equal]
pub struct ListItemView {
    /// See [`ListItem::start`].
    pub start: usize,
    /// See [`ListItem::end`].
    pub end: usize,
    /// See [`ListItem::nodes`].
    pub nodes: Seq<NodeView>,
}

/// The mathematical value of a [`Parameter`].
#[verifier::ext_equal]
pub struct ParameterView {
    /// See [`Parameter::start`].
    pub start: usize,
    /// See [`Parameter::end`].
    pub end: usize,
    /// See [`Parameter::name`].
    pub name: Option<Seq<NodeView>>,
    /// See [`Parameter::value`].
    pub value: Seq<NodeView>,
}

/// The mathematical value of a [`Node`].
pub open spec fn node_view(n: Node) -> NodeView
    decreases n,
{
    NodeView {
        start: n.start,
        end: n.end,
        source: n.source@,
        kind: match n.kind {
            NodeKind::Bold => NodeKindView::Bold,
            NodeKind::CharacterEntity { character } => NodeKindView::CharacterEntity { character },
            NodeKind::DefinitionList { items } => NodeKindView::DefinitionList {
                items: items_view(items@),
            },
            NodeKind::Heading { level, nodes } => NodeKindView::Heading {
                level,
                nodes: nodes_view(nodes@),
            },
            NodeKind::Italic => NodeKindView::Italic,
            NodeKind::Link { target, text } => NodeKindView::Link {
                target: target@,
                text: nodes_view(text@),
            },
            NodeKind::OrderedList { items } => NodeKindView::OrderedList {
                items: items_view(items@),
            },
            NodeKind::Tag { name } => NodeKindView::Tag { name: name@ },
            NodeKind::Template { name, parameters } => NodeKindView::Template {
                name: nodes_view(name@),
                parameters: params_view(parameters@),
            },
            NodeKind::Text { value } => NodeKindView::Text { value: value@ },
            NodeKind::UnorderedList { items } => NodeKindView::UnorderedList {
                items: items_view(items@),
            },
            NodeKind::Other => NodeKindView::Other,
        },
    }
}

/// The mathematical value of a sequence of nodes.
pub open spec fn nodes_view(s: Seq<Node>) -> Seq<NodeView>
    decreases s,
{
    if s.len() <= 0 {
        Seq::empty()
    } else {
        seq![node_view(s[0])] + nodes_view(s.subrange(1, s.len() as int))
    }
}

/// The mathematical value of a [`ListItem`].
pub open spec fn item_view(item: ListItem) -> ListItemView
    decreases item,
{
    ListItemView { start: item.start, end: item.end, nodes: nodes_view(item.nodes@) }
}

/// The mathematical value of a sequence of list items.
pub open spec fn items_view(s: Seq<ListItem>) -> Seq<ListItemView>
    decreases s,
{
    if s.len() <= 0 {
        Seq::empty()
    } else {
        seq![item_view(s[0])] + items_view(s.subrange(1, s.len() as int))
    }
}

/// The mathematical value of a [`Parameter`].
pub open spec fn param_view(p: Parameter) -> ParameterView
    decreases p,
{
    ParameterView {
        start: p.start,
        end: p.end,
        name: match p.name {
            Some(nodes) => Some(nodes_view(nodes@)),
            None => None,
        },
        value: nodes_view(p.value@),
    }
}

/// The mathematical value of a sequence of parameters.
pub open spec fn params_view(s: Seq<Parameter>) -> Seq<ParameterView>
    decreases s,
{
    if s.len() <= 0 {
        Seq::empty()
    } else {
        seq![param_view(s[0])] + params_view(s.subrange(1, s.len() as int))
    }
}

/// The mathematical value of a sequence of strings.
pub open spec fn strings_view(s: Seq<String>) -> Seq<Seq<char>> {
    Seq::new(s.len(), |i: int| s[i]@)
}

/// Identifier for a language.
#[derive(Clone, Copy, Debug, PartialEq, Eq, Hash, Structural)]
pub enum Language {
    /// Czech
    Cs,
    /// German
    De,
    /// English
    En,
    /// Esperanto
    Eo,
    /// Spanish
    Es,
    /// French
    Fr,
    /// Italian
    It,
    /// Dutch
    Nl,
    /// Portuguese
    Pt,
    /// Russian
    Ru,
    /// Swedish
    Sv,
}

/// Part of speech.
#[derive(Clone, Copy, Debug, PartialEq, Eq, Hash, Structural)]
pub enum Pos {
    /// Adjective
    Adjective,
    /// Adverb
    Adverb,
    /// Article
    Article,
    /// Conjunction
    Conjunction,
    /// Interjection
    Interjection,
    /// Noun
    Noun,
    /// Numeral
    Numeral,
    /// Particle
    Particle,
    /// Phrase
    Phrase,
    /// Preposition
    Preposition,
    /// Pronoun
    Pronoun,
    /// Proper noun
    ProperNoun,
    /// Verb
    Verb,
}

/// Identifier for a kind of warning from the parser.
#[derive(Clone, Copy, Debug, PartialEq, Eq, Hash, Structural)]
pub enum WarningMessage {
    /// The element is a duplicate of something that comes before it.
    Duplicate,
    /// The element is missing some required content.
    Empty,
    /// The section following the heading is missing some required content.
    SectionEmpty,
    /// The element is recognized but not represented in the output.
    ///
    /// The element is valid in the position it occurs, but its content is
    /// intentionally not parsed; this does not indicate anything is wrong
    /// with the wiki text.
    Supplementary,
    /// The element is not recognized.
    Unrecognized,
    /// The value of the element conflicts with information occurring before
    /// it, such as a language that does not match the language of the
    /// enclosing section.
    ValueConflicting,
    /// The element is recognized, but its value is not.
    ValueUnrecognized,
}

/// Warning from the parser telling that something is not well-formed.
///
/// When a warning occurs, the data that could not be unambiguously parsed is
/// excluded from the output, to make sure the output does not contain
/// incorrectly parsed data.
#[derive(Clone, Copy, Debug, PartialEq, Eq)]
pub struct Warning {
    /// The byte position in the wiki text where the warning ends.
    pub end: usize,
    /// The language of the language section in which the warning occurred,
    /// if any.
    pub language: Option<Language>,
    /// An identifier for the kind of warning.
    pub message: WarningMessage,
    /// The byte position in the wiki text where the warning starts.
    pub start: usize,
}

/// An element in a sequence that allows different kinds of elements.
#[derive(Debug, PartialEq)]
#[allow(inconsistent_fields)]
pub enum Flowing {
    /// Toggle bold text.
    Bold,
    /// Definition date, from the template `defdate`.
    DefinitionDate {
        /// The text to display as the definition date.
        value: String,
    },
    /// Toggle italic text.
    Italic,
    /// List of labels, from the template `label`.
    Labels {
        /// The labels.
        labels: Vec<String>,
    },
    /// Link.
    Link {
        /// The target the link refers to.
        target: String,
        /// The text to display for the link.
        text: String,
    },
    /// Non-gloss definition, from the template `non-gloss definition`.
    NonGlossDefinition {
        /// The text to display.
        value: Vec<Flowing>,
    },
    /// Indication of a reference, from the extension tag `ref`. The content
    /// of the reference is not parsed; this element only records that a
    /// reference exists.
    Reference,
    /// Link to another dictionary entry, from the template `mention`.
    Term {
        /// The language of the entry the link refers to.
        language: String,
        /// The term the link refers to.
        term: String,
    },
    /// Chunk of plain text.
    Text {
        /// The text to display.
        value: String,
    },
    /// Element that could not be recognized.
    Unknown {
        /// The wiki text of the element.
        value: String,
    },
    /// Unordered list.
    UnorderedList {
        /// The list items of the list.
        items: Vec<Vec<Flowing>>,
    },
}

/// The mathematical value of a [`Flowing`].
#[verifier::ext_equal]
#[allow(inconsistent_fields)]
pub enum FlowingView {
    /// See [`Flowing::Bold`].
    Bold,
    /// See [`Flowing::DefinitionDate`].
    DefinitionDate {
        /// The text to display as the definition date.
        value: Seq<char>,
    },
    /// See [`Flowing::Italic`].
    Italic,
    /// See [`Flowing::Labels`].
    Labels {
        /// The labels.
        labels: Seq<Seq<char>>,
    },
    /// See [`Flowing::Link`].
    Link {
        /// The target the link refers to.
        target: Seq<char>,
        /// The text to display for the link.
        text: Seq<char>,
    },
    /// See [`Flowing::NonGlossDefinition`].
    NonGlossDefinition {
        /// The text to display.
        value: Seq<FlowingView>,
    },
    /// See [`Flowing::Reference`].
    Reference,
    /// See [`Flowing::Term`].
    Term {
        /// The language of the entry the link refers to.
        language: Seq<char>,
        /// The term the link refers to.
        term: Seq<char>,
    },
    /// See [`Flowing::Text`].
    Text {
        /// The text to display.
        value: Seq<char>,
    },
    /// See [`Flowing::Unknown`].
    Unknown {
        /// The wiki text of the element.
        value: Seq<char>,
    },
    /// See [`Flowing::UnorderedList`].
    UnorderedList {
        /// The list items of the list.
        items: Seq<Seq<FlowingView>>,
    },
}

/// The mathematical value of a [`Flowing`].
pub open spec fn flowing_view(f: Flowing) -> FlowingView
    decreases f,
{
    match f {
        Flowing::Bold => FlowingView::Bold,
        Flowing::DefinitionDate { value } => FlowingView::DefinitionDate { value: value@ },
        Flowing::Italic => FlowingView::Italic,
        Flowing::Labels { labels } => FlowingView::Labels { labels: strings_view(labels@) },
        Flowing::Link { target, text } => FlowingView::Link { target: target@, text: text@ },
        Flowing::NonGlossDefinition { value } => FlowingView::NonGlossDefinition {
            value: flowings_view(value@),
        },
        Flowing::Reference => FlowingView::Reference,
        Flowing::Term { language, term } => FlowingView::Term {
            language: language@,
            term: term@,
        },
        Flowing::Text { value } => FlowingView::Text { value: value@ },
        Flowing::Unknown { value } => FlowingView::Unknown { value: value@ },
        Flowing::UnorderedList { items } => FlowingView::UnorderedList {
            items: flowing_items_view(items@),
        },
    }
}

/// The mathematical value of a sequence of [`Flowing`] elements.
pub open spec fn flowings_view(s: Seq<Flowing>) -> Seq<FlowingView>
    decreases s,
{
    if s.len() <= 0 {
        Seq::empty()
    } else {
        seq![flowing_view(s[0])] + flowings_view(s.subrange(1, s.len() as int))
    }
}

/// The mathematical value of the items of an unordered list of [`Flowing`]
/// sequences.
pub open spec fn flowing_items_view(s: Seq<Vec<Flowing>>) -> Seq<Seq<FlowingView>>
    decreases s,
{
    if s.len() <= 0 {
        Seq::empty()
    } else {
        seq![flowings_view(s[0]@)] + flowing_items_view(s.subrange(1, s.len() as int))
    }
}

/// Details about a template.
#[derive(Debug, PartialEq)]
pub struct Template {
    /// The name of the template.
    pub name: String,
    /// The named parameters to the template: pairs of a parameter name and
    /// its value, in the order the names first occurred, each name occurring
    /// once.
    pub named_parameters: Vec<(String, String)>,
    /// The unnamed parameters to the template in order.
    pub unnamed_parameters: Vec<String>,
}

/// The mathematical value of a [`Template`].
#[verifier::ext_equal]
pub struct TemplateView {
    /// See [`Template::name`].
    pub name: Seq<char>,
    /// See [`Template::named_parameters`].
    pub named_parameters: Seq<(Seq<char>, Seq<char>)>,
    /// See [`Template::unnamed_parameters`].
    pub unnamed_parameters: Seq<Seq<char>>,
}

/// The mathematical value of a sequence of pairs of strings.
pub open spec fn pairs_view(s: Seq<(String, String)>) -> Seq<(Seq<char>, Seq<char>)> {
    Seq::new(s.len(), |i: int| (s[i].0@, s[i].1@))
}

/// The mathematical value of a [`Template`].
pub open spec fn template_view(t: Template) -> TemplateView {
    TemplateView {
        name: t.name@,
        named_parameters: pairs_view(t.named_parameters@),
        unnamed_parameters: strings_view(t.unnamed_parameters@),
    }
}

/// The mathematical value of an optional [`Template`].
pub open spec fn opt_template_view(t: Option<Template>) -> Option<TemplateView> {
    match t {
        Some(t) => Some(template_view(t)),
        None => None,
    }
}

/// The mathematical value of a sequence of templates.
pub open spec fn templates_view(s: Seq<Template>) -> Seq<TemplateView> {
    Seq::new(s.len(), |i: int| template_view(s[i]))
}

/// A single definition from a list of definitions of an entry.
#[derive(Debug, PartialEq)]
pub struct Definition {
    /// A series of elements to display as the definition.
    pub definition: Vec<Flowing>,
    /// Nested definitions.
    pub definitions: Vec<Definition>,
    /// Number of examples the definition has.
    pub examples: u32,
    /// Number of quotations the definition has.
    pub quotations: u32,
}

/// The mathematical value of a [`Definition`].
#[verifier::ext_equal]
pub struct DefinitionView {
    /// See [`Definition::definition`].
    pub definition: Seq<FlowingView>,
    /// See [`Definition::definitions`].
    pub definitions: Seq<DefinitionView>,
    /// See [`Definition::examples`].
    pub examples: u32,
    /// See [`Definition::quotations`].
    pub quotations: u32,
}

/// The mathematical value of a [`Definition`].
pub open spec fn definition_view(d: Definition) -> DefinitionView
    decreases d,
{
    DefinitionView {
        definition: flowings_view(d.definition@),
        definitions: definitions_view(d.definitions@),
        examples: d.examples,
        quotations: d.quotations,
    }
}

/// The mathematical value of a sequence of definitions.
pub open spec fn definitions_view(s: Seq<Definition>) -> Seq<DefinitionView>
    decreases s,
{
    if s.len() <= 0 {
        Seq::empty()
    } else {
        seq![definition_view(s[0])] + definitions_view(s.subrange(1, s.len() as int))
    }
}

/// The entry for a part of speech within the entry for a language.
///
/// Parsed from the section with the part of speech as its heading.
#[derive(Debug, PartialEq)]
pub struct PosEntry {
    /// Whether the subsection `Antonyms` is present in the section.
    pub antonyms: bool,
    /// Definitions of the entry.
    pub definitions: Vec<Definition>,
    /// Whether the subsection `Derived terms` is present in the section.
    pub derived_terms: bool,
    /// Details about the template for displaying the word head for the
    /// entry, if any.
    pub head: Option<Template>,
    /// Whether the subsection `Hypernyms` is present in the section.
    pub hypernyms: bool,
    /// Whether the subsection `Hyponyms` is present in the section.
    pub hyponyms: bool,
    /// Details about each template for displaying an inflection for the
    /// entry.
    pub inflection: Vec<Template>,
    /// Part of speech of the entry.
    pub pos: Pos,
    /// Whether the subsection `Related terms` is present in the section.
    pub related_terms: bool,
    /// Whether the subsection `Synonyms` is present in the section.
    pub synonyms: bool,
    /// Whether the subsection `Translations` is present in the section.
    pub translations: bool,
    /// Content of the subsection `Usage notes` within the section, if any.
    pub usage_notes: Option<Vec<Flowing>>,
}

/// The mathematical value of a [`PosEntry`].
#[verifier::ext_equal]
pub struct PosEntryView {
    /// See [`PosEntry::antonyms`].
    pub antonyms: bool,
    /// See [`PosEntry::definitions`].
    pub definitions: Seq<DefinitionView>,
    /// See [`PosEntry::derived_terms`].
    pub derived_terms: bool,
    /// See [`PosEntry::head`].
    pub head: Option<TemplateView>,
    /// See [`PosEntry::hypernyms`].
    pub hypernyms: bool,
    /// See [`PosEntry::hyponyms`].
    pub hyponyms: bool,
    /// See [`PosEntry::inflection`].
    pub inflection: Seq<TemplateView>,
    /// See [`PosEntry::pos`].
    pub pos: Pos,
    /// See [`PosEntry::related_terms`].
    pub related_terms: bool,
    /// See [`PosEntry::synonyms`].
    pub synonyms: bool,
    /// See [`PosEntry::translations`].
    pub translations: bool,
    /// See [`PosEntry::usage_notes`].
    pub usage_notes: Option<Seq<FlowingView>>,
}

/// The mathematical value of a [`PosEntry`].
pub open spec fn pos_entry_view(p: PosEntry) -> PosEntryView {
    PosEntryView {
        antonyms: p.antonyms,
        definitions: definitions_view(p.definitions@),
        derived_terms: p.derived_terms,
        head: match p.head {
            Some(t) => Some(template_view(t)),
            None => None,
        },
        hypernyms: p.hypernyms,
        hyponyms: p.hyponyms,
        inflection: templates_view(p.inflection@),
        pos: p.pos,
        related_terms: p.related_terms,
        synonyms: p.synonyms,
        translations: p.translations,
        usage_notes: match p.usage_notes {
            Some(notes) => Some(flowings_view(notes@)),
            None => None,
        },
    }
}

/// The mathematical value of a sequence of part-of-speech entries.
pub open spec fn pos_entries_view(s: Seq<PosEntry>) -> Seq<PosEntryView> {
    Seq::new(s.len(), |i: int| pos_entry_view(s[i]))
}

/// Details related to a specific etymology, either one that has a numbered
/// etymology heading or the same format of information directly in the
/// language entry.
#[derive(Debug, PartialEq)]
pub struct EtymologyEntry {
    /// Whether the entry has audio samples.
    pub audio: bool,
    /// Whether the entry has alternative forms.
    pub alternative_forms: bool,
    /// Whether the entry has a description of its etymology.
    pub etymology: bool,
    /// Whether the entry has homophones.
    pub homophones: bool,
    /// Whether the entry has hyphenations.
    pub hyphenation: bool,
    /// Whether the entry has a pronunciation written in IPA.
    pub ipa: bool,
    /// Entries for parts of speech for this etymology, parsed from the
    /// sections with the part of speech as their heading.
    pub pos_entries: Vec<PosEntry>,
    /// Whether the entry has rhymes.
    pub rhymes: bool,
}

/// The mathematical value of an [`EtymologyEntry`].
#[verifier::ext_equal]
pub struct EtymologyEntryView {
    /// See [`EtymologyEntry::audio`].
    pub audio: bool,
    /// See [`EtymologyEntry::alternative_forms`].
    pub alternative_forms: bool,
    /// See [`EtymologyEntry::etymology`].
    pub etymology: bool,
    /// See [`EtymologyEntry::homophones`].
    pub homophones: bool,
    /// See [`EtymologyEntry::hyphenation`].
    pub hyphenation: bool,
    /// See [`EtymologyEntry::ipa`].
    pub ipa: bool,
    /// See [`EtymologyEntry::pos_entries`].
    pub pos_entries: Seq<PosEntryView>,
    /// See [`EtymologyEntry::rhymes`].
    pub rhymes: bool,
}

/// The mathematical value of an [`EtymologyEntry`].
pub open spec fn etymology_entry_view(e: EtymologyEntry) -> EtymologyEntryView {
    EtymologyEntryView {
        audio: e.audio,
        alternative_forms: e.alternative_forms,
        etymology: e.etymology,
        homophones: e.homophones,
        hyphenation: e.hyphenation,
        ipa: e.ipa,
        pos_entries: pos_entries_view(e.pos_entries@),
        rhymes: e.rhymes,
    }
}

/// The mathematical value of a sequence of etymology entries.
pub open spec fn etymology_entries_view(s: Seq<EtymologyEntry>) -> Seq<EtymologyEntryView> {
    Seq::new(s.len(), |i: int| etymology_entry_view(s[i]))
}

/// Dictionary entry for a single language.
#[derive(Debug, PartialEq)]
pub struct LanguageEntry {
    /// Whether the subsection `Anagrams` is present in the section.
    pub anagrams: bool,
    /// Entries for each numbered etymology for this language.
    pub etymology_entries: Vec<EtymologyEntry>,
    /// Entry for the etymology that is directly in the language entry.
    pub etymology_entry: EtymologyEntry,
    /// Whether the subsection `Further reading` is present in the section.
    pub further_reading: bool,
    /// The language of the entry.
    pub language: Language,
}

/// The mathematical value of a [`LanguageEntry`].
#[verifier::ext_equal]
pub struct LanguageEntryView {
    /// See [`LanguageEntry::anagrams`].
    pub anagrams: bool,
    /// See [`LanguageEntry::etymology_entries`].
    pub etymology_entries: Seq<EtymologyEntryView>,
    /// See [`LanguageEntry::etymology_entry`].
    pub etymology_entry: EtymologyEntryView,
    /// See [`LanguageEntry::further_reading`].
    pub further_reading: bool,
    /// See [`LanguageEntry::language`].
    pub language: Language,
}

/// The mathematical value of a [`LanguageEntry`].
pub open spec fn language_entry_view(e: LanguageEntry) -> LanguageEntryView {
    LanguageEntryView {
        anagrams: e.anagrams,
        etymology_entries: etymology_entries_view(e.etymology_entries@),
        etymology_entry: etymology_entry_view(e.etymology_entry),
        further_reading: e.further_reading,
        language: e.language,
    }
}

/// The mathematical value of a sequence of language entries.
pub open spec fn language_entries_view(s: Seq<LanguageEntry>) -> Seq<LanguageEntryView> {
    Seq::new(s.len(), |i: int| language_entry_view(s[i]))
}

/// Output of parsing a page.
#[derive(Debug, PartialEq)]
pub struct Output {
    /// The dictionary entries by language, parsed from the sections with the
    /// name of the language as title.
    pub language_entries: Vec<LanguageEntry>,
    /// Warnings from the parser telling that something is not well-formed.
    pub warnings: Vec<Warning>,
}

/// The mathematical value of an [`Output`].
#[verifier::ext_equal]
pub struct OutputView {
    /// See [`Output::language_entries`].
    pub language_entries: Seq<LanguageEntryView>,
    /// See [`Output::warnings`].
    pub warnings: Seq<Warning>,
}

/// The mathematical value of an [`Output`].
pub open spec fn output_view(o: Output) -> OutputView {
    OutputView {
        language_entries: language_entries_view(o.language_entries@),
        warnings: o.warnings@,
    }
}

/// The language corresponding to a language name, if any.
pub open spec fn language_from_name(name: Seq<char>) -> Option<Language> {
    if name == "Czech"@ {
        Some(Language::Cs)
    } else if name == "Dutch"@ {
        Some(Language::Nl)
    } else if name == "English"@ {
        Some(Language::En)
    } else if name == "Esperanto"@ {
        Some(Language::Eo)
    } else if name == "French"@ {
        Some(Language::Fr)
    } else if name == "German"@ {
        Some(Language::De)
    } else if name == "Italian"@ {
        Some(Language::It)
    } else if name == "Portuguese"@ {
        Some(Language::Pt)
    } else if name == "Russian"@ {
        Some(Language::Ru)
    } else if name == "Spanish"@ {
        Some(Language::Es)
    } else if name == "Swedish"@ {
        Some(Language::Sv)
    } else {
        None
    }
}

/// The language code of a language.
pub open spec fn language_code_of(language: Language) -> Seq<char> {
    match language {
        Language::Cs => "cs"@,
        Language::Nl => "nl"@,
        Language::En => "en"@,
        Language::Eo => "eo"@,
        Language::Fr => "fr"@,
        Language::De => "de"@,
        Language::It => "it"@,
        Language::Pt => "pt"@,
        Language::Ru => "ru"@,
        Language::Es => "es"@,
        Language::Sv => "sv"@,
    }
}

/// The length of the mathematical value of a node sequence.
pub broadcast proof fn lemma_nodes_view_len(s: Seq<Node>)
    ensures
        #[trigger] nodes_view(s).len() == s.len(),
    decreases s,
{
    if s.len() > 0 {
        lemma_nodes_view_len(s.subrange(1, s.len() as int));
    }
}

/// An element of the mathematical value of a node sequence.
pub broadcast proof fn lemma_nodes_view_index(s: Seq<Node>, i: int)
    requires
        0 <= i < s.len(),
    ensures
        #[trigger] nodes_view(s)[i] == node_view(s[i]),
    decreases s,
{
    lemma_nodes_view_len(s);
    if i > 0 {
        lemma_nodes_view_index(s.subrange(1, s.len() as int), i - 1);
    }
}

/// The length of the mathematical value of a list item sequence.
pub broadcast proof fn lemma_items_view_len(s: Seq<ListItem>)
    ensures
        #[trigger] items_view(s).len() == s.len(),
    decreases s,
{
    if s.len() > 0 {
        lemma_items_view_len(s.subrange(1, s.len() as int));
    }
}

/// An element of the mathematical value of a list item sequence.
pub broadcast proof fn lemma_items_view_index(s: Seq<ListItem>, i: int)
    requires
        0 <= i < s.len(),
    ensures
        #[trigger] items_view(s)[i] == item_view(s[i]),
    decreases s,
{
    lemma_items_view_len(s);
    if i > 0 {
        lemma_items_view_index(s.subrange(1, s.len() as int), i - 1);
    }
}

/// The length of the mathematical value of a parameter sequence.
pub broadcast proof fn lemma_params_view_len(s: Seq<Parameter>)
    ensures
        #[trigger] params_view(s).len() == s.len(),
    decreases s,
{
    if s.len() > 0 {
        lemma_params_view_len(s.subrange(1, s.len() as int));
    }
}

/// An element of the mathematical value of a parameter sequence.
pub broadcast proof fn lemma_params_view_index(s: Seq<Parameter>, i: int)
    requires
        0 <= i < s.len(),
    ensures
        #[trigger] params_view(s)[i] == param_view(s[i]),
    decreases s,
{
    lemma_params_view_len(s);
    if i > 0 {
        lemma_params_view_index(s.subrange(1, s.len() as int), i - 1);
    }
}

/// The length of the mathematical value of a [`Flowing`] sequence.
pub broadcast proof fn lemma_flowings_view_len(s: Seq<Flowing>)
    ensures
        #[trigger] flowings_view(s).len() == s.len(),
    decreases s,
{
    if s.len() > 0 {
        lemma_flowings_view_len(s.subrange(1, s.len() as int));
    }
}

/// An element of the mathematical value of a [`Flowing`] sequence.
pub broadcast proof fn lemma_flowings_view_index(s: Seq<Flowing>, i: int)
    requires
        0 <= i < s.len(),
    ensures
        #[trigger] flowings_view(s)[i] == flowing_view(s[i]),
    decreases s,
{
    lemma_flowings_view_len(s);
    if i > 0 {
        lemma_flowings_view_index(s.subrange(1, s.len() as int), i - 1);
    }
}

/// Appending one element to a [`Flowing`] sequence appends its value to the
/// sequence's mathematical value.
pub broadcast proof fn lemma_flowings_view_push(s: Seq<Flowing>, x: Flowing)
    ensures
        #[trigger] flowings_view(s.push(x)) == flowings_view(s).push(flowing_view(x)),
    decreases s,
{
    let t = s.push(x);
    if s.len() == 0 {
        assert(t[0] == x);
        assert(t.subrange(1, t.len() as int) =~= Seq::<Flowing>::empty());
        assert(flowings_view(t.subrange(1, t.len() as int)) == Seq::<FlowingView>::empty());
        assert(flowings_view(t) == seq![flowing_view(t[0])] + flowings_view(
            t.subrange(1, t.len() as int),
        ));
        assert(flowings_view(s) == Seq::<FlowingView>::empty());
        assert(flowings_view(t) =~= flowings_view(s).push(flowing_view(x)));
    } else {
        let sub = s.subrange(1, s.len() as int);
        assert(t.subrange(1, t.len() as int) =~= sub.push(x));
        lemma_flowings_view_push(sub, x);
        assert(flowings_view(t.subrange(1, t.len() as int)) == flowings_view(sub).push(flowing_view(x)));
        assert(t[0] == s[0]);
        assert(flowings_view(t) == seq![flowing_view(t[0])] + flowings_view(t.subrange(1, t.len() as int)));
        assert(flowings_view(s) == seq![flowing_view(s[0])] + flowings_view(sub));
        assert(flowings_view(t) =~= flowings_view(s).push(flowing_view(x)));
    }
}

/// The length of the mathematical value of a sequence of [`Flowing`] list
/// items.
pub broadcast proof fn lemma_flowing_items_view_len(s: Seq<Vec<Flowing>>)
    ensures
        #[trigger] flowing_items_view(s).len() == s.len(),
    decreases s,
{
    if s.len() > 0 {
        lemma_flowing_items_view_len(s.subrange(1, s.len() as int));
    }
}

/// An element of the mathematical value of a sequence of [`Flowing`] list
/// items.
pub broadcast proof fn lemma_flowing_items_view_index(s: Seq<Vec<Flowing>>, i: int)
    requires
        0 <= i < s.len(),
    ensures
        #[trigger] flowing_items_view(s)[i] == flowings_view(s[i]@),
    decreases s,
{
    lemma_flowing_items_view_len(s);
    if i > 0 {
        lemma_flowing_items_view_index(s.subrange(1, s.len() as int), i - 1);
    }
}

/// Appending one list item to a sequence of [`Flowing`] list items appends
/// its value to the sequence's mathematical value.
pub broadcast proof fn lemma_flowing_items_view_push(s: Seq<Vec<Flowing>>, x: Vec<Flowing>)
    ensures
        #[trigger] flowing_items_view(s.push(x)) == flowing_items_view(s).push(flowings_view(x@)),
    decreases s,
{
    let t = s.push(x);
    if s.len() == 0 {
        assert(t[0] == x);
        assert(t.subrange(1, t.len() as int) =~= Seq::<Vec<Flowing>>::empty());
        assert(flowing_items_view(t.subrange(1, t.len() as int)) == Seq::<Seq<FlowingView>>::empty());
        assert(flowing_items_view(t) == seq![flowings_view(t[0]@)] + flowing_items_view(t.subrange(1, t.len() as int)));
        assert(flowing_items_view(s) == Seq::<Seq<FlowingView>>::empty());
        assert(flowing_items_view(t) =~= flowing_items_view(s).push(flowings_view(x@)));
    } else {
        let sub = s.subrange(1, s.len() as int);
        assert(t.subrange(1, t.len() as int) =~= sub.push(x));
        lemma_flowing_items_view_push(sub, x);
        assert(flowing_items_view(t.subrange(1, t.len() as int)) == flowing_items_view(sub).push(flowings_view(x@)));
        assert(t[0] == s[0]);
        assert(flowing_items_view(t) == seq![flowings_view(t[0]@)] + flowing_items_view(t.subrange(1, t.len() as int)));
        assert(flowing_items_view(s) == seq![flowings_view(s[0]@)] + flowing_items_view(sub));
        assert(flowing_items_view(t) =~= flowing_items_view(s).push(flowings_view(x@)));
    }
}

/// The length of the mathematical value of a definition sequence.
pub broadcast proof fn lemma_definitions_view_len(s: Seq<Definition>)
    ensures
        #[trigger] definitions_view(s).len() == s.len(),
    decreases s,
{
    if s.len() > 0 {
        lemma_definitions_view_len(s.subrange(1, s.len() as int));
    }
}

/// An element of the mathematical value of a definition sequence.
pub broadcast proof fn lemma_definitions_view_index(s: Seq<Definition>, i: int)
    requires
        0 <= i < s.len(),
    ensures
        #[trigger] definitions_view(s)[i] == definition_view(s[i]),
    decreases s,
{
    lemma_definitions_view_len(s);
    if i > 0 {
        lemma_definitions_view_index(s.subrange(1, s.len() as int), i - 1);
    }
}

/// Appending one definition to a definition sequence appends its value to
/// the sequence's mathematical value.
pub broadcast proof fn lemma_definitions_view_push(s: Seq<Definition>, x: Definition)
    ensures
        #[trigger] definitions_view(s.push(x)) == definitions_view(s).push(definition_view(x)),
    decreases s,
{
    let t = s.push(x);
    if s.len() == 0 {
        assert(t[0] == x);
        assert(t.subrange(1, t.len() as int) =~= Seq::<Definition>::empty());
        assert(definitions_view(t.subrange(1, t.len() as int)) == Seq::<DefinitionView>::empty());
        assert(definitions_view(t) == seq![definition_view(t[0])] + definitions_view(t.subrange(1, t.len() as int)));
        assert(definitions_view(s) == Seq::<DefinitionView>::empty());
        assert(definitions_view(t) =~= definitions_view(s).push(definition_view(x)));
    } else {
        let sub = s.subrange(1, s.len() as int);
        assert(t.subrange(1, t.len() as int) =~= sub.push(x));
        lemma_definitions_view_push(sub, x);
        assert(definitions_view(t.subrange(1, t.len() as int)) == definitions_view(sub).push(definition_view(x)));
        assert(t[0] == s[0]);
        assert(definitions_view(t) == seq![definition_view(t[0])] + definitions_view(t.subrange(1, t.len() as int)));
        assert(definitions_view(s) == seq![definition_view(s[0])] + definitions_view(sub));
        assert(definitions_view(t) =~= definitions_view(s).push(definition_view(x)));
    }
}

/// Taking the mathematical value of a node sequence commutes with taking
/// a subrange of it.
pub broadcast proof fn lemma_nodes_view_subrange(s: Seq<Node>, a: int, b: int)
    requires
        0 <= a <= b <= s.len(),
    ensures
        #[trigger] nodes_view(s.subrange(a, b)) == nodes_view(s).subrange(a, b),
{
    lemma_nodes_view_len(s);
    lemma_nodes_view_len(s.subrange(a, b));
    assert forall|i: int| 0 <= i < b - a implies nodes_view(s.subrange(a, b))[i] == nodes_view(
        s,
    ).subrange(a, b)[i] by {
        lemma_nodes_view_index(s.subrange(a, b), i);
        lemma_nodes_view_index(s, a + i);
    }
    assert(nodes_view(s.subrange(a, b)) =~= nodes_view(s).subrange(a, b));
}

/// The lemmas relating the element-wise views of sequences to their
/// elements.
pub broadcast group group_view_lemmas {
    lemma_nodes_view_subrange,
    lemma_nodes_view_len,
    lemma_nodes_view_index,
    lemma_items_view_len,
    lemma_items_view_index,
    lemma_params_view_len,
    lemma_params_view_index,
    lemma_flowings_view_len,
    lemma_flowings_view_index,
    lemma_flowings_view_push,
    lemma_flowing_items_view_len,
    lemma_flowing_items_view_index,
    lemma_flowing_items_view_push,
    lemma_definitions_view_len,
    lemma_definitions_view_index,
    lemma_definitions_view_push,
}

impl Language {
    /// Returns the language corresponding to the given language name if any.
    pub fn from_name(name: &str) -> (r: Option<Self>)
        ensures
            r == language_from_name(name@),
    {
        if crate::util::str_eq(name, "Czech") {
            Some(Language::Cs)
        } else if crate::util::str_eq(name, "Dutch") {
            Some(Language::Nl)
        } else if crate::util::str_eq(name, "English") {
            Some(Language::En)
        } else if crate::util::str_eq(name, "Esperanto") {
            Some(Language::Eo)
        } else if crate::util::str_eq(name, "French") {
            Some(Language::Fr)
        } else if crate::util::str_eq(name, "German") {
            Some(Language::De)
        } else if crate::util::str_eq(name, "Italian") {
            Some(Language::It)
        } else if crate::util::str_eq(name, "Portuguese") {
            Some(Language::Pt)
        } else if crate::util::str_eq(name, "Russian") {
            Some(Language::Ru)
        } else if crate::util::str_eq(name, "Spanish") {
            Some(Language::Es)
        } else if crate::util::str_eq(name, "Swedish") {
            Some(Language::Sv)
        } else {
            None
        }
    }

    /// Returns the language code for the language.
    pub fn language_code(self) -> (r: &'static str)
        ensures
            r@ == language_code_of(self),
    {
        match self {
            Language::Cs => "cs",
            Language::Nl => "nl",
            Language::En => "en",
            Language::Eo => "eo",
            Language::Fr => "fr",
            Language::De => "de",
            Language::It => "it",
            Language::Pt => "pt",
            Language::Ru => "ru",
            Language::Es => "es",
            Language::Sv => "sv",
        }
    }
}

} // verus!
