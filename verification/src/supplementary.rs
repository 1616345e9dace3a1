//! Parser for the subsections whose content is recognized but intentionally
//! not parsed: only their presence is recorded.

use vstd::prelude::*;

use crate::util::{Context, add_warning, warning_of};
use crate::{Language, Node, NodeKind, NodeView, Warning, WarningMessage, node_view, nodes_view};

verus! {

broadcast use crate::group_view_lemmas;

/// The walk of a supplementary section's sibling nodes from index `i` on:
/// every node up to the next heading is marked supplementary. Returns the
/// number of nodes consumed and the warnings.
pub open spec fn supplementary_loop(
    language: Option<Language>,
    nodes: Seq<NodeView>,
    i: int,
    warnings: Seq<Warning>,
) -> (int, Seq<Warning>)
    decreases nodes.len() - i,
{
    if i < 0 || i >= nodes.len() {
        (i, warnings)
    } else if nodes[i].kind is Heading {
        (i, warnings)
    } else {
        supplementary_loop(
            language,
            nodes,
            i + 1,
            warnings.push(
                warning_of(nodes[i].start, nodes[i].end, language, WarningMessage::Supplementary),
            ),
        )
    }
}

/// The parse of a supplementary section: a duplicate heading is flagged but
/// the presence flag stays set; every contained node is marked
/// supplementary. Returns the number of nodes consumed, the new presence
/// flag and the warnings.
pub open spec fn supplementary_spec(
    language: Option<Language>,
    heading: NodeView,
    nodes: Seq<NodeView>,
    output: bool,
    warnings: Seq<Warning>,
) -> (int, bool, Seq<Warning>) {
    let warnings1 = if output {
        warnings.push(warning_of(heading.start, heading.end, language, WarningMessage::Duplicate))
    } else {
        warnings
    };
    let (consumed, warnings2) = supplementary_loop(language, nodes, 0, warnings1);
    (consumed, true, warnings2)
}

/// The walk of a supplementary section never steps backwards nor past the
/// end of its nodes.
pub broadcast proof fn lemma_supplementary_loop_consumed(
    language: Option<Language>,
    nodes: Seq<NodeView>,
    i: int,
    warnings: Seq<Warning>,
)
    requires
        0 <= i <= nodes.len(),
    ensures
        i <= (#[trigger] supplementary_loop(language, nodes, i, warnings)).0 <= nodes.len(),
    decreases nodes.len() - i,
{
    if i < nodes.len() && !(nodes[i].kind is Heading) {
        lemma_supplementary_loop_consumed(
            language,
            nodes,
            i + 1,
            warnings.push(
                warning_of(nodes[i].start, nodes[i].end, language, WarningMessage::Supplementary),
            ),
        );
    }
}

/// The walk of a supplementary section consumes the same nodes whatever
/// warnings came before it, and only appends to them.
pub proof fn lemma_supplementary_loop_frame(
    language: Option<Language>,
    nodes: Seq<NodeView>,
    i: int,
    warnings: Seq<Warning>,
)
    ensures
        ({
            let (c0, w0) = supplementary_loop(language, nodes, i, Seq::empty());
            let (c, w) = supplementary_loop(language, nodes, i, warnings);
            c == c0 && w == warnings + w0
        }),
    decreases nodes.len() - i,
{
    if i < 0 || i >= nodes.len() || nodes[i].kind is Heading {
        assert(supplementary_loop(language, nodes, i, warnings).1 =~= warnings
            + supplementary_loop(language, nodes, i, Seq::empty()).1);
    } else {
        let marked = warning_of(
            nodes[i].start,
            nodes[i].end,
            language,
            WarningMessage::Supplementary,
        );
        lemma_supplementary_loop_frame(language, nodes, i + 1, warnings.push(marked));
        lemma_supplementary_loop_frame(language, nodes, i + 1, seq![marked]);
        lemma_supplementary_loop_frame(language, nodes, i + 1, Seq::empty());
        let (c1, w1) = supplementary_loop(language, nodes, i + 1, Seq::empty());
        assert(Seq::<Warning>::empty().push(marked) =~= seq![marked]);
        assert(warnings.push(marked) + w1 =~= warnings + (seq![marked] + w1));
    }
}

/// The first-wins law for the presence subsections: re-entering a
/// subsection whose flag is already set consumes the same nodes, leaves
/// the flag set, and appends exactly one duplicate warning before the
/// warnings the first entry would have produced.
pub proof fn lemma_supplementary_first_wins(
    language: Option<Language>,
    heading: NodeView,
    nodes: Seq<NodeView>,
    warnings: Seq<Warning>,
)
    ensures
        ({
            let (c1, out1, w1) = supplementary_spec(language, heading, nodes, false, warnings);
            let (c2, out2, w2) = supplementary_spec(language, heading, nodes, true, warnings);
            let dup = warning_of(heading.start, heading.end, language, WarningMessage::Duplicate);
            c2 == c1 && out2 == out1 && w2 == warnings.push(dup) + w1.subrange(
                warnings.len() as int,
                w1.len() as int,
            )
        }),
{
    lemma_supplementary_loop_frame(language, nodes, 0, warnings);
    lemma_supplementary_loop_frame(
        language,
        nodes,
        0,
        warnings.push(
            warning_of(heading.start, heading.end, language, WarningMessage::Duplicate),
        ),
    );
    let (c0, w0) = supplementary_loop(language, nodes, 0, Seq::empty());
    assert((warnings + w0).subrange(warnings.len() as int, (warnings + w0).len() as int) =~= w0);
}

/// Parses a subsection that sets a single presence flag: consumes every
/// node up to the next heading, marking each as supplementary; a re-entry
/// for the same flag is flagged as a duplicate but the flag stays set.
pub fn parse_supplementary(
    context: &mut Context,
    heading_node: &Node,
    nodes: &[Node],
    output: &mut bool,
) -> (consumed: usize)
    ensures
        final(context).language == old(context).language,
        consumed <= nodes@.len(),
        ({
            let (c, out, w) = supplementary_spec(
                old(context).language,
                node_view(*heading_node),
                nodes_view(nodes@),
                *old(output),
                old(context).warnings@,
            );
            c == consumed && *final(output) == out && final(context).warnings@ == w
        }),
{
    if *output {
        add_warning(context, heading_node.start, heading_node.end, WarningMessage::Duplicate);
    }
    *output = true;
    let ghost language = context.language;
    let ghost warnings1 = context.warnings@;
    let mut node_index: usize = 0;
    while node_index < nodes.len()
        invariant
            0 <= node_index <= nodes@.len(),
            nodes_view(nodes@).len() == nodes@.len(),
            context.language == language,
            supplementary_loop(language, nodes_view(nodes@), 0, warnings1) == supplementary_loop(
                language,
                nodes_view(nodes@),
                node_index as int,
                context.warnings@,
            ),
        ensures
            0 <= node_index <= nodes@.len(),
            context.language == language,
            supplementary_loop(language, nodes_view(nodes@), 0, warnings1) == (
                node_index as int,
                context.warnings@,
            ),
        decreases nodes@.len() - node_index,
    {
        assert(nodes_view(nodes@)[node_index as int] == node_view(nodes@[node_index as int]));
        if let NodeKind::Heading { .. } = &nodes[node_index].kind {
            break ;
        }
        let node = &nodes[node_index];
        node_index = node_index + 1;
        add_warning(context, node.start, node.end, WarningMessage::Supplementary);
    }
    node_index
}

} // verus!
