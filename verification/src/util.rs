//! Shared helpers of the section parsers: the diagnostic context, text
//! flattening, and the unrecognized-content placeholder.

use vstd::prelude::*;
use vstd::string::StringExecFns;
use vstd::string::StrSliceExecFns;

use crate::{Flowing, FlowingView, Language, Node, NodeKind, NodeKindView, NodeView, Parameter,
    ParameterView, Warning, WarningMessage, flowing_view, node_view, nodes_view, param_view};

verus! {

broadcast use crate::group_view_lemmas;

/// Per-parse state threaded by mutable reference through every parsing
/// function: the language of the enclosing language section, if any, and the
/// warnings accumulated so far.
pub struct Context {
    /// The language of the language section being parsed, if any.
    pub language: Option<Language>,
    /// The warnings accumulated so far, in order of emission.
    pub warnings: Vec<Warning>,
}

/// The warning built from a byte span, the active language and a kind.
pub open spec fn warning_of(
    start: usize,
    end: usize,
    language: Option<Language>,
    message: WarningMessage,
) -> Warning {
    Warning { end, language, message, start }
}

/// The mathematical value of an optional string.
pub open spec fn opt_string_view(o: Option<String>) -> Option<Seq<char>> {
    match o {
        Some(s) => Some(s@),
        None => None,
    }
}

/// The flattening of the node sequence `nodes` from index `i` on to plain
/// text: text nodes and character entities contribute their text, any other
/// node makes the whole flattening fail.
pub open spec fn text_of_from(nodes: Seq<NodeView>, i: int) -> Option<Seq<char>>
    decreases nodes.len() - i,
{
    if i < 0 || i >= nodes.len() {
        Some(Seq::empty())
    } else {
        match nodes[i].kind {
            NodeKindView::Text { value } => match text_of_from(nodes, i + 1) {
                Some(rest) => Some(value + rest),
                None => None,
            },
            NodeKindView::CharacterEntity { character } => match text_of_from(nodes, i + 1) {
                Some(rest) => Some(seq![character] + rest),
                None => None,
            },
            _ => None,
        }
    }
}

/// The flattening of a whole node sequence to plain text, if every node is
/// a text node or a character entity.
pub open spec fn text_of(nodes: Seq<NodeView>) -> Option<Seq<char>> {
    text_of_from(nodes, 0)
}

/// The flattening of a node sequence to plain text, failing also when the
/// text is empty.
pub open spec fn text_not_empty_of(nodes: Seq<NodeView>) -> Option<Seq<char>> {
    match text_of(nodes) {
        Some(text) => if text.len() == 0 {
            None
        } else {
            Some(text)
        },
        None => None,
    }
}

/// The name of a template parameter, when the parameter is named and the
/// name is a single text node.
pub open spec fn param_name_of(p: ParameterView) -> Option<Seq<char>> {
    match p.name {
        Some(name_nodes) => if name_nodes.len() == 1 {
            match name_nodes[0].kind {
                NodeKindView::Text { value } => Some(value),
                _ => None,
            }
        } else {
            None
        },
        None => None,
    }
}

/// The placeholder for a node that could not be classified: it carries the
/// verbatim wiki text of the node.
pub open spec fn unknown_of(node: NodeView) -> FlowingView {
    FlowingView::Unknown { value: node.source }
}

/// Whether two strings hold the same characters.
pub(crate) fn str_eq(a: &str, b: &str) -> (r: bool)
    ensures
        r == (a@ == b@),
{
    let x = String::from_str(a);
    let y = String::from_str(b);
    x == y
}

/// Whether the characters of `prefix` are the first characters of `s`.
pub(crate) fn str_starts_with(s: &str, prefix: &str) -> (r: bool)
    ensures
        r == (s@.len() >= prefix@.len() && s@.subrange(0, prefix@.len() as int) == prefix@),
{
    let n = prefix.unicode_len();
    if s.unicode_len() < n {
        return false;
    }
    let mut i: usize = 0;
    while i < n
        invariant
            0 <= i <= n,
            n == prefix@.len(),
            s@.len() >= n,
            forall|k: int| 0 <= k < i ==> s@[k] == prefix@[k],
        decreases n - i,
    {
        if s.get_char(i) != prefix.get_char(i) {
            proof {
                assert(s@.subrange(0, n as int)[i as int] == s@[i as int]);
            }
            return false;
        }
        i = i + 1;
    }
    proof {
        assert(s@.subrange(0, n as int) =~= prefix@);
    }
    true
}

/// Relies on `String::push` of std: appends the one character `c` to the
/// string.
#[verifier::external_body]
pub(crate) fn push_char(s: &mut String, c: char)
    ensures
        final(s)@ == old(s)@.push(c),
{
    s.push(c);
}

/// Appends to the context's warnings a warning spanning `start..end` with
/// the context's language and the kind `message`.
pub fn add_warning(context: &mut Context, start: usize, end: usize, message: WarningMessage)
    ensures
        final(context).language == old(context).language,
        final(context).warnings@ == old(context).warnings@.push(
            warning_of(start, end, old(context).language, message),
        ),
{
    let warning = Warning { end, language: context.language, message, start };
    context.warnings.push(warning);
}

/// Builds the placeholder for the unclassifiable node `unknown_node` and
/// appends a warning of kind `warning_message` spanning
/// `warning_start..warning_end`.
pub fn create_unknown(
    context: &mut Context,
    unknown_node: &Node,
    warning_start: usize,
    warning_end: usize,
    warning_message: WarningMessage,
) -> (r: Flowing)
    ensures
        final(context).language == old(context).language,
        final(context).warnings@ == old(context).warnings@.push(
            warning_of(warning_start, warning_end, old(context).language, warning_message),
        ),
        flowing_view(r) == unknown_of(node_view(*unknown_node)),
{
    add_warning(context, warning_start, warning_end, warning_message);
    Flowing::Unknown { value: unknown_node.source.clone() }
}

/// The link element for a link node: the display text must itself flatten
/// to plain text, else the whole link is replaced by an unrecognized
/// placeholder and a warning is emitted.
pub open spec fn link_of(
    language: Option<Language>,
    warnings: Seq<Warning>,
    node: NodeView,
    target: Seq<char>,
    text: Seq<NodeView>,
) -> (FlowingView, Seq<Warning>) {
    match text_of(text) {
        None => (
            unknown_of(node),
            warnings.push(
                warning_of(node.start, node.end, language, WarningMessage::Unrecognized),
            ),
        ),
        Some(text) => (FlowingView::Link { target, text }, warnings),
    }
}

/// Parses a link node into a [`Flowing::Link`] element, or an unrecognized
/// placeholder when its display text cannot be flattened to plain text.
pub fn parse_link(context: &mut Context, node: &Node, target: &String, text: &Vec<Node>) -> (r:
    Flowing)
    ensures
        final(context).language == old(context).language,
        ({
            let (value, warnings) = link_of(
                old(context).language,
                old(context).warnings@,
                node_view(*node),
                target@,
                nodes_view(text@),
            );
            flowing_view(r) == value && final(context).warnings@ == warnings
        }),
{
    match parse_text(text) {
        None => create_unknown(context, node, node.start, node.end, WarningMessage::Unrecognized),
        Some(text) => Flowing::Link { target: target.clone(), text },
    }
}

/// Resolves the name of a template parameter, when the parameter is named
/// and the name is a single text node.
pub fn parse_parameter_name(parameter: &Parameter) -> (r: Option<String>)
    ensures
        opt_string_view(r) == param_name_of(param_view(*parameter)),
{
    match &parameter.name {
        Some(name_nodes) => {
            if name_nodes.len() == 1 {
                match &name_nodes[0].kind {
                    NodeKind::Text { value } => Some(value.clone()),
                    _ => None,
                }
            } else {
                None
            }
        },
        None => None,
    }
}

/// Flattens a node sequence to plain text: text nodes and character
/// entities contribute their text, any other node makes the whole
/// flattening fail.
pub fn parse_text(nodes: &Vec<Node>) -> (r: Option<String>)
    ensures
        opt_string_view(r) == text_of(nodes_view(nodes@)),
{
    let mut out = String::new();
    let mut i: usize = 0;
    while i < nodes.len()
        invariant
            0 <= i <= nodes.len(),
            nodes_view(nodes@).len() == nodes@.len(),
            match text_of_from(nodes_view(nodes@), i as int) {
                Some(rest) => text_of(nodes_view(nodes@)) == Some(out@ + rest),
                None => text_of(nodes_view(nodes@)) == None::<Seq<char>>,
            },
        decreases nodes.len() - i,
    {
        let ghost nv = nodes_view(nodes@);
        assert(nv[i as int] == node_view(nodes@[i as int]));
        match &nodes[i].kind {
            NodeKind::Text { value } => {
                proof {
                    if let Some(rest) = text_of_from(nv, i + 1) {
                        assert(out@ + (value@ + rest) =~= (out@ + value@) + rest);
                    }
                }
                out.append(value.as_str());
            },
            NodeKind::CharacterEntity { character } => {
                proof {
                    if let Some(rest) = text_of_from(nv, i + 1) {
                        assert(out@ + (seq![*character] + rest) =~= out@.push(*character) + rest);
                    }
                }
                push_char(&mut out, *character);
            },
            _ => {
                return None;
            },
        }
        i = i + 1;
    }
    proof {
        assert(text_of_from(nodes_view(nodes@), i as int) == Some(Seq::<char>::empty()));
        assert(out@ + Seq::<char>::empty() =~= out@);
    }
    Some(out)
}

/// Flattens a node sequence to plain text, failing also when the text is
/// empty.
pub fn parse_text_not_empty(nodes: &Vec<Node>) -> (r: Option<String>)
    ensures
        opt_string_view(r) == text_not_empty_of(nodes_view(nodes@)),
{
    match parse_text(nodes) {
        Some(text) => if text.as_str().is_empty() {
            None
        } else {
            Some(text)
        },
        None => None,
    }
}

} // verus!
