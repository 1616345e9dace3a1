use parse_wiktionary_en::definition::parse_definition;
use parse_wiktionary_en::inflection::parse_inflection;
use parse_wiktionary_en::pronunciation::{Pronunciation, parse_pronunciation};
use parse_wiktionary_en::supplementary::parse_supplementary;
use parse_wiktionary_en::template::parse_template;
use parse_wiktionary_en::usage_notes::parse_usage_notes;
use parse_wiktionary_en::util::{Context, parse_parameter_name, parse_text, parse_text_not_empty};
use parse_wiktionary_en::{Flowing, Language, ListItem, Node, NodeKind, Parameter, Pos, Warning,
    WarningMessage, parse};

fn node(start: usize, end: usize, source: &str, kind: NodeKind) -> Node {
    Node { start, end, source: source.to_string(), kind }
}

fn text_node(start: usize, end: usize, value: &str) -> Node {
    node(start, end, value, NodeKind::Text { value: value.to_string() })
}

fn heading(start: usize, end: usize, source: &str, level: u8, text: Node) -> Node {
    node(start, end, source, NodeKind::Heading { level, nodes: vec![text] })
}

fn template(start: usize, end: usize, source: &str, name: &str, parameters: Vec<Parameter>) -> Node {
    node(
        start,
        end,
        source,
        NodeKind::Template {
            name: vec![text_node(start, end, name)],
            parameters,
        },
    )
}

fn unnamed(start: usize, end: usize, value: Vec<Node>) -> Parameter {
    Parameter { start, end, name: None, value }
}

fn item(start: usize, end: usize, nodes: Vec<Node>) -> ListItem {
    ListItem { start, end, nodes }
}

fn context(language: Option<Language>) -> Context {
    Context { language, warnings: Vec::new() }
}

fn count_message(warnings: &[Warning], message: WarningMessage) -> usize {
    warnings.iter().filter(|w| w.message == message).count()
}

/// The nodes of the article `"==English==\n===Noun===\n#A test."` as the
/// markup parser produces them.
fn simple_article() -> Vec<Node> {
    vec![
        heading(0, 11, "==English==", 2, text_node(2, 9, "English")),
        heading(12, 22, "===Noun===", 3, text_node(15, 19, "Noun")),
        node(
            23,
            31,
            "#A test.",
            NodeKind::OrderedList { items: vec![item(24, 31, vec![text_node(24, 31, "A test.")])] },
        ),
    ]
}

#[test]
fn main() {
    let _ = parse(&[]);
}

#[test]
fn empty_article_has_no_entries_and_no_warnings() {
    let output = parse(&[]);
    assert!(output.language_entries.is_empty());
    assert!(output.warnings.is_empty());
}

#[test]
fn simple_noun_article() {
    let output = parse(&simple_article());
    assert_eq!(output.warnings, vec![]);
    assert_eq!(output.language_entries.len(), 1);
    let entry = &output.language_entries[0];
    assert_eq!(entry.language, Language::En);
    assert!(!entry.anagrams);
    assert!(!entry.further_reading);
    assert!(entry.etymology_entries.is_empty());
    let pos_entries = &entry.etymology_entry.pos_entries;
    assert_eq!(pos_entries.len(), 1);
    assert_eq!(pos_entries[0].pos, Pos::Noun);
    assert_eq!(pos_entries[0].definitions.len(), 1);
    let definition = &pos_entries[0].definitions[0];
    assert_eq!(
        definition.definition,
        vec![Flowing::Text { value: "A test.".to_string() }]
    );
    assert!(definition.definitions.is_empty());
    assert_eq!(definition.examples, 0);
    assert_eq!(definition.quotations, 0);
}

#[test]
fn parsing_twice_yields_identical_output() {
    let nodes = simple_article();
    let first = parse(&nodes);
    let second = parse(&nodes);
    assert_eq!(first, second);
}

#[test]
fn repeated_language_keeps_both_entries_and_flags_duplicate() {
    let nodes = vec![
        heading(0, 11, "==English==", 2, text_node(2, 9, "English")),
        heading(12, 23, "==English==", 2, text_node(14, 21, "English")),
        heading(24, 34, "===Noun===", 3, text_node(27, 31, "Noun")),
        node(
            35,
            37,
            "#X",
            NodeKind::OrderedList { items: vec![item(36, 37, vec![text_node(36, 37, "X")])] },
        ),
    ];
    let output = parse(&nodes);
    assert_eq!(output.language_entries.len(), 2);
    assert_eq!(output.language_entries[0].language, Language::En);
    assert_eq!(output.language_entries[1].language, Language::En);
    assert!(output.language_entries[0].etymology_entry.pos_entries.is_empty());
    assert_eq!(output.language_entries[1].etymology_entry.pos_entries.len(), 1);
    let duplicates: Vec<&Warning> = output
        .warnings
        .iter()
        .filter(|w| w.message == WarningMessage::Duplicate)
        .collect();
    assert_eq!(duplicates.len(), 1);
    assert_eq!(duplicates[0].start, 12);
    assert_eq!(duplicates[0].end, 23);
    assert_eq!(duplicates[0].language, Some(Language::En));
}

#[test]
fn level_one_heading_ends_the_scan() {
    let nodes = vec![
        heading(0, 9, "=Stray=", 1, text_node(1, 6, "Stray")),
        heading(10, 21, "==English==", 2, text_node(12, 19, "English")),
    ];
    let output = parse(&nodes);
    assert!(output.language_entries.is_empty());
    assert_eq!(count_message(&output.warnings, WarningMessage::Unrecognized), 1);
    assert_eq!(output.warnings[0].start, 0);
    assert_eq!(output.warnings[0].end, 9);
}

#[test]
fn unmatched_language_heading_ends_the_scan() {
    let nodes = vec![
        heading(0, 11, "==Klingon==", 2, text_node(2, 9, "Klingon")),
        heading(12, 23, "==English==", 2, text_node(14, 21, "English")),
    ];
    let output = parse(&nodes);
    assert!(output.language_entries.is_empty());
    assert_eq!(output.warnings.len(), 1);
    assert_eq!(output.warnings[0].message, WarningMessage::Unrecognized);
    assert_eq!(output.warnings[0].start, 0);
    assert_eq!(output.warnings[0].end, 11);
}

#[test]
fn also_template_is_supplementary() {
    let nodes = vec![template(0, 12, "{{also|test}}", "also", vec![unnamed(
        7,
        11,
        vec![text_node(7, 11, "test")],
    )])];
    let output = parse(&nodes);
    assert!(output.language_entries.is_empty());
    assert_eq!(output.warnings.len(), 1);
    assert_eq!(output.warnings[0].message, WarningMessage::Supplementary);
}

#[test]
fn pronunciation_audio_sets_only_audio() {
    let mut ctx = context(Some(Language::En));
    let heading_node = heading(0, 19, "===Pronunciation===", 3, text_node(3, 16, "Pronunciation"));
    let nodes = vec![node(
        20,
        31,
        "* {{audio}}",
        NodeKind::UnorderedList {
            items: vec![item(22, 31, vec![template(22, 31, "{{audio}}", "audio", vec![])])],
        },
    )];
    let mut output = None;
    let consumed = parse_pronunciation(&mut ctx, &heading_node, &nodes, &mut output);
    assert_eq!(consumed, 1);
    assert_eq!(
        output,
        Some(Pronunciation {
            audio: true,
            homophones: false,
            hyphenation: false,
            ipa: false,
            rhymes: false,
        })
    );
    assert_eq!(count_message(&ctx.warnings, WarningMessage::SectionEmpty), 0);
}

#[test]
fn pronunciation_without_list_is_section_empty() {
    let mut ctx = context(Some(Language::En));
    let heading_node = heading(0, 19, "===Pronunciation===", 3, text_node(3, 16, "Pronunciation"));
    let mut output = None;
    let consumed = parse_pronunciation(&mut ctx, &heading_node, &[], &mut output);
    assert_eq!(consumed, 0);
    assert_eq!(count_message(&ctx.warnings, WarningMessage::SectionEmpty), 1);
}

#[test]
fn pronunciation_flags_survive_a_second_list() {
    let mut ctx = context(Some(Language::En));
    let heading_node = heading(0, 19, "===Pronunciation===", 3, text_node(3, 16, "Pronunciation"));
    let audio_list = node(
        20,
        31,
        "* {{audio}}",
        NodeKind::UnorderedList {
            items: vec![item(22, 31, vec![template(22, 31, "{{audio}}", "audio", vec![])])],
        },
    );
    let rhyme_list = node(
        32,
        44,
        "* {{rhymes}}",
        NodeKind::UnorderedList {
            items: vec![item(34, 44, vec![template(34, 44, "{{rhymes}}", "rhymes", vec![])])],
        },
    );
    let nodes = vec![audio_list, rhyme_list];
    let mut output = None;
    let consumed = parse_pronunciation(&mut ctx, &heading_node, &nodes, &mut output);
    assert_eq!(consumed, 2);
    let pronunciation = output.unwrap();
    assert!(pronunciation.audio);
    assert!(pronunciation.rhymes);
    assert!(!pronunciation.ipa);
    assert_eq!(count_message(&ctx.warnings, WarningMessage::Duplicate), 1);
}

#[test]
fn pronunciation_reentry_keeps_flags() {
    let mut ctx = context(Some(Language::En));
    let heading_node = heading(0, 19, "===Pronunciation===", 3, text_node(3, 16, "Pronunciation"));
    let audio_list = node(
        20,
        31,
        "* {{audio}}",
        NodeKind::UnorderedList {
            items: vec![item(22, 31, vec![template(22, 31, "{{audio}}", "audio", vec![])])],
        },
    );
    let mut output = None;
    parse_pronunciation(&mut ctx, &heading_node, &[audio_list], &mut output);
    parse_pronunciation(&mut ctx, &heading_node, &[], &mut output);
    assert!(output.unwrap().audio);
    assert_eq!(count_message(&ctx.warnings, WarningMessage::Duplicate), 1);
}

#[test]
fn conflicting_label_language_becomes_unknown() {
    let mut ctx = context(Some(Language::En));
    let label = template(0, 12, "{{label|de}}", "label", vec![unnamed(
        8,
        10,
        vec![text_node(8, 10, "de")],
    )]);
    let list_item = item(0, 12, vec![label]);
    let definition = parse_definition(&mut ctx, &list_item);
    assert_eq!(
        definition.definition,
        vec![Flowing::Unknown { value: "{{label|de}}".to_string() }]
    );
    assert_eq!(count_message(&ctx.warnings, WarningMessage::ValueConflicting), 1);
}

#[test]
fn repeated_label_is_dropped_and_flagged() {
    let mut ctx = context(Some(Language::En));
    let label = template(0, 18, "{{lb|en|rare|rare}}", "lb", vec![
        unnamed(5, 7, vec![text_node(5, 7, "en")]),
        unnamed(8, 12, vec![text_node(8, 12, "rare")]),
        unnamed(13, 17, vec![text_node(13, 17, "rare")]),
    ]);
    let list_item = item(0, 18, vec![label]);
    let definition = parse_definition(&mut ctx, &list_item);
    assert_eq!(
        definition.definition,
        vec![Flowing::Labels { labels: vec!["rare".to_string()] }]
    );
    assert_eq!(count_message(&ctx.warnings, WarningMessage::Duplicate), 1);
}

#[test]
fn definition_counts_examples_and_quotations() {
    let mut ctx = context(Some(Language::En));
    let list_item = item(0, 40, vec![
        text_node(0, 5, "word."),
        node(
            6,
            20,
            ": example",
            NodeKind::DefinitionList {
                items: vec![item(8, 20, vec![text_node(8, 20, "example text")])],
            },
        ),
        node(
            21,
            40,
            "* quote",
            NodeKind::UnorderedList {
                items: vec![
                    item(23, 30, vec![text_node(23, 30, "quote 1")]),
                    item(33, 40, vec![text_node(33, 40, "quote 2")]),
                ],
            },
        ),
    ]);
    let definition = parse_definition(&mut ctx, &list_item);
    assert_eq!(definition.examples, 1);
    assert_eq!(definition.quotations, 2);
    assert_eq!(count_message(&ctx.warnings, WarningMessage::Supplementary), 2);
}

#[test]
fn empty_definition_item_is_flagged_empty() {
    let mut ctx = context(Some(Language::En));
    let list_item = item(5, 6, vec![]);
    let definition = parse_definition(&mut ctx, &list_item);
    assert!(definition.definition.is_empty());
    assert_eq!(ctx.warnings.len(), 1);
    assert_eq!(ctx.warnings[0].message, WarningMessage::Empty);
    assert_eq!(ctx.warnings[0].start, 5);
    assert_eq!(ctx.warnings[0].end, 6);
}

#[test]
fn defdate_with_bad_shape_is_value_unrecognized() {
    let mut ctx = context(Some(Language::En));
    let defdate = template(0, 11, "{{defdate}}", "defdate", vec![]);
    let list_item = item(0, 11, vec![defdate, text_node(11, 12, "x")]);
    let definition = parse_definition(&mut ctx, &list_item);
    assert_eq!(definition.definition.len(), 2);
    assert_eq!(
        definition.definition[0],
        Flowing::Unknown { value: "{{defdate}}".to_string() }
    );
    assert_eq!(count_message(&ctx.warnings, WarningMessage::ValueUnrecognized), 1);
}

#[test]
fn unrecognized_node_round_trips_its_source() {
    let mut ctx = context(Some(Language::En));
    let stray = node(3, 7, "----", NodeKind::Other);
    let list_item = item(3, 7, vec![stray]);
    let definition = parse_definition(&mut ctx, &list_item);
    assert_eq!(
        definition.definition,
        vec![Flowing::Unknown { value: "----".to_string() }]
    );
    assert_eq!(ctx.warnings.len(), 1);
    assert_eq!(ctx.warnings[0].message, WarningMessage::Unrecognized);
    assert_eq!(ctx.warnings[0].start, 3);
    assert_eq!(ctx.warnings[0].end, 7);
}

#[test]
fn formatting_toggles_are_definition_content() {
    let mut ctx = context(Some(Language::En));
    let list_item = item(0, 12, vec![
        node(0, 3, "'''", NodeKind::Bold),
        text_node(3, 7, "word"),
        node(7, 10, "'''", NodeKind::Bold),
        node(10, 12, "''", NodeKind::Italic),
    ]);
    let definition = parse_definition(&mut ctx, &list_item);
    assert_eq!(
        definition.definition,
        vec![
            Flowing::Bold,
            Flowing::Text { value: "word".to_string() },
            Flowing::Bold,
            Flowing::Italic,
        ]
    );
    assert!(ctx.warnings.is_empty());
}

#[test]
fn second_nested_list_keeps_first_definitions() {
    let mut ctx = context(Some(Language::En));
    let list_item = item(0, 20, vec![
        text_node(0, 5, "word."),
        node(
            6,
            10,
            "##a",
            NodeKind::OrderedList { items: vec![item(8, 9, vec![text_node(8, 9, "a")])] },
        ),
        node(
            11,
            15,
            "##b",
            NodeKind::OrderedList { items: vec![item(13, 14, vec![text_node(13, 14, "b")])] },
        ),
    ]);
    let definition = parse_definition(&mut ctx, &list_item);
    assert_eq!(definition.definitions.len(), 1);
    assert_eq!(
        definition.definitions[0].definition,
        vec![Flowing::Text { value: "a".to_string() }]
    );
    assert_eq!(ctx.warnings.len(), 1);
    assert_eq!(ctx.warnings[0].message, WarningMessage::Duplicate);
    assert_eq!(ctx.warnings[0].start, 11);
    assert_eq!(ctx.warnings[0].end, 15);
}

#[test]
fn supplementary_consumes_up_to_next_heading() {
    let mut ctx = context(Some(Language::En));
    let heading_node = heading(0, 12, "===Anagrams===", 3, text_node(3, 11, "Anagrams"));
    let nodes = vec![
        text_node(13, 17, "some"),
        text_node(18, 22, "text"),
        heading(23, 33, "===Verb===", 3, text_node(26, 30, "Verb")),
    ];
    let mut flag = false;
    let consumed = parse_supplementary(&mut ctx, &heading_node, &nodes, &mut flag);
    assert_eq!(consumed, 2);
    assert!(flag);
    assert_eq!(count_message(&ctx.warnings, WarningMessage::Supplementary), 2);
}

#[test]
fn supplementary_reentry_keeps_flag_and_flags_duplicate() {
    let mut ctx = context(Some(Language::En));
    let heading_node = heading(0, 12, "===Anagrams===", 3, text_node(3, 11, "Anagrams"));
    let mut flag = false;
    parse_supplementary(&mut ctx, &heading_node, &[], &mut flag);
    assert!(flag);
    assert_eq!(count_message(&ctx.warnings, WarningMessage::Duplicate), 0);
    parse_supplementary(&mut ctx, &heading_node, &[], &mut flag);
    assert!(flag);
    assert_eq!(count_message(&ctx.warnings, WarningMessage::Duplicate), 1);
}

#[test]
fn usage_notes_distinguish_present_but_empty_from_missing() {
    let mut ctx = context(Some(Language::En));
    let heading_node = heading(0, 17, "====Usage notes====", 4, text_node(4, 15, "Usage notes"));
    let mut output = None;
    let consumed = parse_usage_notes(&mut ctx, &heading_node, &[], &mut output);
    assert_eq!(consumed, 0);
    assert_eq!(output, Some(None));
    assert_eq!(count_message(&ctx.warnings, WarningMessage::SectionEmpty), 1);
}

#[test]
fn usage_notes_collect_inline_content() {
    let mut ctx = context(Some(Language::En));
    let heading_node = heading(0, 17, "====Usage notes====", 4, text_node(4, 15, "Usage notes"));
    let nodes = vec![
        text_node(18, 22, "Only"),
        node(23, 35, "<ref>x</ref>", NodeKind::Tag { name: "ref".to_string() }),
        template(36, 48, "{{m|en|test}}", "m", vec![
            unnamed(40, 42, vec![text_node(40, 42, "en")]),
            unnamed(43, 47, vec![text_node(43, 47, "test")]),
        ]),
    ];
    let mut output = None;
    let consumed = parse_usage_notes(&mut ctx, &heading_node, &nodes, &mut output);
    assert_eq!(consumed, 3);
    assert_eq!(
        output,
        Some(Some(vec![
            Flowing::Text { value: "Only".to_string() },
            Flowing::Reference,
            Flowing::Term { language: "en".to_string(), term: "test".to_string() },
        ]))
    );
    assert_eq!(count_message(&ctx.warnings, WarningMessage::Supplementary), 1);
}

#[test]
fn usage_notes_drop_empty_list_items() {
    let mut ctx = context(Some(Language::En));
    let heading_node = heading(0, 17, "====Usage notes====", 4, text_node(4, 15, "Usage notes"));
    let nodes = vec![node(
        18,
        30,
        "* a\n*",
        NodeKind::UnorderedList {
            items: vec![
                item(20, 21, vec![text_node(20, 21, "a")]),
                item(23, 23, vec![]),
            ],
        },
    )];
    let mut output = None;
    parse_usage_notes(&mut ctx, &heading_node, &nodes, &mut output);
    assert_eq!(
        output,
        Some(Some(vec![Flowing::UnorderedList {
            items: vec![vec![Flowing::Text { value: "a".to_string() }]],
        }]))
    );
    assert_eq!(count_message(&ctx.warnings, WarningMessage::Empty), 1);
}

#[test]
fn inflection_duplicate_discards_the_table() {
    let mut ctx = context(Some(Language::En));
    let heading_node = heading(0, 19, "====Conjugation====", 4, text_node(4, 15, "Conjugation"));
    let nodes = vec![
        template(20, 36, "{{en-conj-basic}}", "en-conj-basic", vec![]),
        template(37, 53, "{{en-conj-extra}}", "en-conj-extra", vec![]),
    ];
    let mut inflection = Vec::new();
    let consumed = parse_inflection(&mut ctx, &heading_node, &nodes, &mut inflection, "-conj-");
    assert_eq!(consumed, 2);
    assert!(inflection.is_empty());
    assert_eq!(count_message(&ctx.warnings, WarningMessage::Duplicate), 1);
}

#[test]
fn inflection_single_template_is_kept() {
    let mut ctx = context(Some(Language::En));
    let heading_node = heading(0, 19, "====Declension====", 4, text_node(4, 14, "Declension"));
    let nodes = vec![template(20, 36, "{{en-decl-basic}}", "en-decl-basic", vec![])];
    let mut inflection = Vec::new();
    let consumed = parse_inflection(&mut ctx, &heading_node, &nodes, &mut inflection, "-decl-");
    assert_eq!(consumed, 1);
    assert_eq!(inflection.len(), 1);
    assert_eq!(inflection[0].name, "en-decl-basic");
    assert!(ctx.warnings.is_empty());
}

#[test]
fn template_parameters_last_value_wins_with_duplicate_warning() {
    let mut ctx = context(Some(Language::En));
    let parameters = vec![
        Parameter {
            start: 7,
            end: 12,
            name: Some(vec![text_node(7, 8, "a")]),
            value: vec![text_node(9, 12, "one")],
        },
        unnamed(13, 16, vec![text_node(13, 16, "two")]),
        Parameter {
            start: 17,
            end: 24,
            name: Some(vec![text_node(17, 18, "a")]),
            value: vec![text_node(19, 24, "three")],
        },
    ];
    let template = parse_template(&mut ctx, "head".to_string(), &parameters).unwrap();
    assert_eq!(template.name, "head");
    assert_eq!(
        template.named_parameters,
        vec![("a".to_string(), "three".to_string())]
    );
    assert_eq!(template.unnamed_parameters, vec!["two".to_string()]);
    assert_eq!(count_message(&ctx.warnings, WarningMessage::Duplicate), 1);
}

#[test]
fn template_with_unflattenable_parameter_is_rejected() {
    let mut ctx = context(Some(Language::En));
    let parameters = vec![unnamed(5, 10, vec![node(5, 10, "'''", NodeKind::Bold)])];
    let template = parse_template(&mut ctx, "head".to_string(), &parameters);
    assert!(template.is_none());
    assert_eq!(count_message(&ctx.warnings, WarningMessage::ValueUnrecognized), 1);
}

#[test]
fn parse_text_joins_text_and_character_entities() {
    let nodes = vec![
        node(0, 7, "&eacute;", NodeKind::CharacterEntity { character: '\u{e9}' }),
        text_node(7, 9, "ls"),
    ];
    assert_eq!(parse_text(&nodes), Some("\u{e9}ls".to_string()));
}

#[test]
fn parse_text_rejects_other_nodes() {
    let nodes = vec![text_node(0, 1, "a"), node(1, 4, "'''", NodeKind::Bold)];
    assert_eq!(parse_text(&nodes), None);
    assert_eq!(parse_text(&Vec::new()), Some(String::new()));
}

#[test]
fn parse_text_not_empty_rejects_empty_text() {
    assert_eq!(parse_text_not_empty(&Vec::new()), None);
    assert_eq!(
        parse_text_not_empty(&vec![text_node(0, 1, "a")]),
        Some("a".to_string())
    );
}

#[test]
fn parse_parameter_name_needs_a_single_text_node() {
    let named = Parameter {
        start: 0,
        end: 5,
        name: Some(vec![text_node(0, 1, "a")]),
        value: vec![],
    };
    assert_eq!(parse_parameter_name(&named), Some("a".to_string()));
    let unnamed_parameter = unnamed(0, 5, vec![]);
    assert_eq!(parse_parameter_name(&unnamed_parameter), None);
    let odd = Parameter {
        start: 0,
        end: 5,
        name: Some(vec![node(0, 3, "'''", NodeKind::Bold)]),
        value: vec![],
    };
    assert_eq!(parse_parameter_name(&odd), None);
}

#[test]
fn language_names_and_codes() {
    assert_eq!(Language::from_name("English"), Some(Language::En));
    assert_eq!(Language::from_name("Czech"), Some(Language::Cs));
    assert_eq!(Language::from_name("Klingon"), None);
    assert_eq!(Language::En.language_code(), "en");
    assert_eq!(Language::De.language_code(), "de");
}

#[test]
fn numbered_etymology_duplicate_is_discarded() {
    let nodes = vec![
        heading(0, 11, "==English==", 2, text_node(2, 9, "English")),
        heading(12, 31, "===Etymology 1===", 3, text_node(15, 26, "Etymology 1")),
        heading(32, 46, "====Noun====", 4, text_node(36, 40, "Noun")),
        node(
            47,
            49,
            "#a",
            NodeKind::OrderedList { items: vec![item(48, 49, vec![text_node(48, 49, "a")])] },
        ),
        heading(50, 69, "===Etymology 1===", 3, text_node(53, 64, "Etymology 1")),
        heading(70, 84, "====Verb====", 4, text_node(74, 78, "Verb")),
        node(
            85,
            87,
            "#b",
            NodeKind::OrderedList { items: vec![item(86, 87, vec![text_node(86, 87, "b")])] },
        ),
    ];
    let output = parse(&nodes);
    assert_eq!(output.language_entries.len(), 1);
    let entry = &output.language_entries[0];
    assert_eq!(entry.etymology_entries.len(), 1);
    assert_eq!(entry.etymology_entries[0].pos_entries.len(), 1);
    assert_eq!(entry.etymology_entries[0].pos_entries[0].pos, Pos::Noun);
    assert_eq!(count_message(&output.warnings, WarningMessage::Duplicate), 1);
}

#[test]
fn pos_section_without_list_is_section_empty() {
    let nodes = vec![
        heading(0, 11, "==English==", 2, text_node(2, 9, "English")),
        heading(12, 22, "===Verb===", 3, text_node(15, 19, "Verb")),
    ];
    let output = parse(&nodes);
    assert_eq!(output.language_entries.len(), 1);
    let pos_entries = &output.language_entries[0].etymology_entry.pos_entries;
    assert_eq!(pos_entries.len(), 1);
    assert_eq!(pos_entries[0].pos, Pos::Verb);
    assert!(pos_entries[0].definitions.is_empty());
    assert!(pos_entries[0].usage_notes.is_none());
    assert_eq!(count_message(&output.warnings, WarningMessage::SectionEmpty), 1);
}

#[test]
fn second_definition_list_keeps_first_definitions() {
    let nodes = vec![
        heading(0, 11, "==English==", 2, text_node(2, 9, "English")),
        heading(12, 22, "===Noun===", 3, text_node(15, 19, "Noun")),
        node(
            23,
            25,
            "#a",
            NodeKind::OrderedList { items: vec![item(24, 25, vec![text_node(24, 25, "a")])] },
        ),
        node(
            26,
            28,
            "#b",
            NodeKind::OrderedList { items: vec![item(27, 28, vec![text_node(27, 28, "b")])] },
        ),
    ];
    let output = parse(&nodes);
    let pos_entries = &output.language_entries[0].etymology_entry.pos_entries;
    assert_eq!(pos_entries[0].definitions.len(), 1);
    assert_eq!(
        pos_entries[0].definitions[0].definition,
        vec![Flowing::Text { value: "a".to_string() }]
    );
    assert_eq!(output.warnings.len(), 1);
    assert_eq!(output.warnings[0].message, WarningMessage::Duplicate);
    assert_eq!(output.warnings[0].start, 26);
    assert_eq!(output.warnings[0].end, 28);
}

#[test]
fn usage_notes_reentry_keeps_notes() {
    let mut ctx = context(Some(Language::En));
    let heading_node = heading(0, 17, "====Usage notes====", 4, text_node(4, 15, "Usage notes"));
    let mut output = None;
    parse_usage_notes(&mut ctx, &heading_node, &[text_node(18, 22, "Only")], &mut output);
    let consumed = parse_usage_notes(&mut ctx, &heading_node, &[], &mut output);
    assert_eq!(consumed, 0);
    assert_eq!(
        output,
        Some(Some(vec![Flowing::Text { value: "Only".to_string() }]))
    );
    assert_eq!(count_message(&ctx.warnings, WarningMessage::Duplicate), 1);
}

#[test]
fn present_but_empty_usage_notes_stay_distinguishable() {
    let nodes = vec![
        heading(0, 11, "==English==", 2, text_node(2, 9, "English")),
        heading(12, 22, "===Noun===", 3, text_node(15, 19, "Noun")),
        node(
            23,
            25,
            "#a",
            NodeKind::OrderedList { items: vec![item(24, 25, vec![text_node(24, 25, "a")])] },
        ),
        heading(26, 45, "====Usage notes====", 4, text_node(30, 41, "Usage notes")),
    ];
    let output = parse(&nodes);
    let pos_entries = &output.language_entries[0].etymology_entry.pos_entries;
    assert_eq!(pos_entries[0].usage_notes, Some(vec![]));
    assert_eq!(count_message(&output.warnings, WarningMessage::SectionEmpty), 1);
}

#[test]
fn head_template_is_recorded() {
    let nodes = vec![
        heading(0, 11, "==English==", 2, text_node(2, 9, "English")),
        heading(12, 22, "===Noun===", 3, text_node(15, 19, "Noun")),
        template(23, 34, "{{en-noun}}", "en-noun", vec![]),
        node(
            35,
            37,
            "#a",
            NodeKind::OrderedList { items: vec![item(36, 37, vec![text_node(36, 37, "a")])] },
        ),
    ];
    let output = parse(&nodes);
    let pos_entries = &output.language_entries[0].etymology_entry.pos_entries;
    assert_eq!(pos_entries.len(), 1);
    let head = pos_entries[0].head.as_ref().unwrap();
    assert_eq!(head.name, "en-noun");
    assert!(output.warnings.is_empty());
}
