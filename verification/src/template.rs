//! The composite render node.
//!
//! A [`Template`] owns an ordered sequence of child [`Node`]s. On render it
//! registers the built-in filter set into the context (on every call, by
//! design), then renders the children in order, concatenating their string
//! outputs. A failing child aborts the whole render immediately, and its
//! error propagates unchanged; after each successful child the context's
//! interrupt flag is examined, and if it is set the remaining children are
//! never rendered. The flag is only examined *after* a child renders, so the
//! first child always renders, even under a pre-existing interrupt.

use crate::context::Context;
use crate::context::ContextModel;
use crate::filters::Filter;
use crate::filters::FilterError;
use crate::filters::FilterErrorView;
use vstd::prelude::*;
use vstd::string::StringExecFns;

verus! {

/// Why a render attempt failed; carried unchanged to the caller.
#[derive(Debug, PartialEq)]
pub enum RenderError {
    /// A filter rejected a value while a child rendered.
    Filter(FilterError),
    /// A child could not produce its output.
    Output(String),
}

/// The mathematical shape of a [`RenderError`].
pub enum RenderErrorView {
    Filter(FilterErrorView),
    Output(Seq<char>),
}

impl View for RenderError {
    type V = RenderErrorView;

    open spec fn view(&self) -> RenderErrorView {
        match self {
            RenderError::Filter(e) => RenderErrorView::Filter(e@),
            RenderError::Output(m) => RenderErrorView::Output(m@),
        }
    }
}

/// One renderable unit: the closed set of node kinds this core defines.
/// The concrete control-flow and output nodes of the wider evaluator are out
/// of scope; `Interrupt` and `Fails` stand for their observable behaviors, so
/// the composite can be exercised against them.
#[derive(Debug)]
pub enum Node {
    /// Literal text: renders as itself.
    Text(String),
    /// A node that renders successfully with no output.
    Blank,
    /// A node that raises the context's interrupt flag and produces no
    /// output, as a break or continue tag does.
    Interrupt,
    /// A node whose render fails with the given message.
    Fails(String),
    /// A nested composite: a child may itself be a template.
    Composite(Box<Template>),
}

/// A composite render node: an ordered, fixed sequence of exclusively owned
/// children, created when the template source is parsed and never mutated.
#[derive(Debug)]
pub struct Template {
    pub elements: Vec<Node>,
}

/// What rendering one node yields: the context state it leaves behind, and
/// its optional output or its failure.
pub struct NodeOutcome {
    pub ctx: ContextModel,
    pub out: Result<Option<Seq<char>>, RenderErrorView>,
}

/// What rendering a composite (or a suffix of its children) yields: the
/// context state left behind, and the accumulated output or the failure that
/// aborted the pass.
pub struct RenderOutcome {
    pub ctx: ContextModel,
    pub out: Result<Seq<char>, RenderErrorView>,
}

/// The registry after the built-in filter set is registered, in registration
/// order, overwriting any same-named entries.
pub open spec fn with_builtins(m: Map<Seq<char>, Filter>) -> Map<Seq<char>, Filter> {
    m.insert("size"@, Filter::Size)
        .insert("upcase"@, Filter::Upcase)
        .insert("minus"@, Filter::Minus)
        .insert("plus"@, Filter::Plus)
        .insert("times"@, Filter::Times)
        .insert("divided_by"@, Filter::DividedBy)
        .insert("ceil"@, Filter::Ceil)
        .insert("floor"@, Filter::Floor)
        .insert("round"@, Filter::Round)
        .insert("replace"@, Filter::Replace)
}

/// The outcome one node owes when rendered in context state `c`.
pub open spec fn render_node_spec(n: Node, c: ContextModel) -> NodeOutcome
    decreases n,
{
    match n {
        Node::Text(s) => NodeOutcome { ctx: c, out: Ok(Some(s@)) },
        Node::Blank => NodeOutcome { ctx: c, out: Ok(None) },
        Node::Interrupt => NodeOutcome {
            ctx: ContextModel { filters: c.filters, interrupted: true },
            out: Ok(None),
        },
        Node::Fails(m) => NodeOutcome { ctx: c, out: Err(RenderErrorView::Output(m@)) },
        Node::Composite(t) => {
            let o = render_template_spec(*t, c);
            NodeOutcome {
                ctx: o.ctx,
                out: match o.out {
                    Ok(buf) => Ok(Some(buf)),
                    Err(e) => Err(e),
                },
            }
        },
    }
}

/// The outcome a sequence of children owes, rendered in order from context
/// state `c` with `acc` already accumulated: the first failure aborts with no
/// output; after each success the interrupt flag decides whether the rest of
/// the children are reached at all.
pub open spec fn render_nodes_spec(nodes: Seq<Node>, c: ContextModel, acc: Seq<char>) -> RenderOutcome
    decreases nodes,
{
    if nodes.len() == 0 {
        RenderOutcome { ctx: c, out: Ok(acc) }
    } else {
        let o = render_node_spec(nodes[0], c);
        match o.out {
            Err(e) => RenderOutcome { ctx: o.ctx, out: Err(e) },
            Ok(piece) => {
                let acc2 = match piece {
                    Some(s) => acc + s,
                    None => acc,
                };
                if o.ctx.interrupted {
                    RenderOutcome { ctx: o.ctx, out: Ok(acc2) }
                } else {
                    render_nodes_spec(nodes.subrange(1, nodes.len() as int), o.ctx, acc2)
                }
            },
        }
    }
}

/// The outcome a composite owes: builtins registered into the registry, then
/// the children rendered in order starting from an empty buffer.
pub open spec fn render_template_spec(t: Template, c: ContextModel) -> RenderOutcome
    decreases t,
{
    render_nodes_spec(
        t.elements@,
        ContextModel { filters: with_builtins(c.filters), interrupted: c.interrupted },
        Seq::empty(),
    )
}

/// The executable node result `r` carries exactly the output or failure `o`.
pub open spec fn node_returns(
    r: Result<Option<String>, RenderError>,
    o: Result<Option<Seq<char>>, RenderErrorView>,
) -> bool {
    match o {
        Ok(Some(s)) => r matches Ok(Some(rs)) && rs@ == s,
        Ok(None) => r matches Ok(rv) && rv is None,
        Err(e) => r matches Err(re) && re@ == e,
    }
}

impl Node {
    /// Render this node into `context`.
    pub fn render(&self, context: &mut Context) -> (r: Result<Option<String>, RenderError>)
        ensures
            ({
                let o = render_node_spec(*self, old(context)@);
                final(context)@ == o.ctx && node_returns(r, o.out)
            }),
        decreases *self,
    {
        match self {
            Node::Text(s) => Ok(Some(s.clone())),
            Node::Blank => Ok(None),
            Node::Interrupt => {
                context.set_interrupt();
                Ok(None)
            },
            Node::Fails(m) => Err(RenderError::Output(m.clone())),
            Node::Composite(t) => t.render(context),
        }
    }
}

impl Template {
    /// A composite over the given children, exactly as handed in.
    pub fn new(elements: Vec<Node>) -> (t: Template)
        ensures
            t == (Template { elements }),
    {
        Template { elements }
    }

    /// Register the built-in filter set into `context`, then render the
    /// children in order, concatenating their outputs into one string.
    ///
    /// A failing child aborts the render at once: its error is returned
    /// unchanged and no partial buffer is surfaced. After each successful
    /// child the context's interrupt flag is examined; once it reports set,
    /// the remaining children are never rendered and whatever has accumulated
    /// is returned. With zero children the result is the empty string.
    pub fn render(&self, context: &mut Context) -> (r: Result<Option<String>, RenderError>)
        ensures
            ({
                let o = render_template_spec(*self, old(context)@);
                final(context)@ == o.ctx && match o.out {
                    Ok(buf) => r matches Ok(Some(s)) && s@ == buf,
                    Err(e) => r matches Err(re) && re@ == e,
                }
            }),
        decreases *self,
    {
        context.add_filter("size", Filter::Size);
        context.add_filter("upcase", Filter::Upcase);
        context.add_filter("minus", Filter::Minus);
        context.add_filter("plus", Filter::Plus);
        context.add_filter("times", Filter::Times);
        context.add_filter("divided_by", Filter::DividedBy);
        context.add_filter("ceil", Filter::Ceil);
        context.add_filter("floor", Filter::Floor);
        context.add_filter("round", Filter::Round);
        context.add_filter("replace", Filter::Replace);
        let ghost start = ContextModel {
            filters: with_builtins(old(context)@.filters),
            interrupted: old(context)@.interrupted,
        };
        let mut buf = String::new();
        let n = self.elements.len();
        proof {
            assert(context@ =~= start);
            assert(self.elements@.subrange(0, n as int) =~= self.elements@);
        }
        let mut i: usize = 0;
        let mut stopped = false;
        while i < n && !stopped
            invariant
                i <= n,
                n == self.elements.len(),
                start == (ContextModel {
                    filters: with_builtins(old(context)@.filters),
                    interrupted: old(context)@.interrupted,
                }),
                ({
                    let full = render_nodes_spec(self.elements@, start, Seq::empty());
                    if stopped {
                        full == (RenderOutcome { ctx: context@, out: Ok(buf@) })
                    } else {
                        full == render_nodes_spec(
                            self.elements@.subrange(i as int, n as int),
                            context@,
                            buf@,
                        )
                    }
                }),
            decreases n - i,
        {
            let ghost pre = context@;
            let ghost rest = self.elements@.subrange(i as int, n as int);
            proof {
                assert(rest.subrange(1, rest.len() as int) =~= self.elements@.subrange(
                    i + 1,
                    n as int,
                ));
            }
            let el = &self.elements[i];
            match el.render(context) {
                Ok(Some(x)) => {
                    buf.append(x.as_str());
                },
                Ok(None) => {},
                Err(e) => {
                    proof {
                        let o = render_node_spec(rest[0], pre);
                        assert(render_nodes_spec(rest, pre, buf@) == (RenderOutcome {
                            ctx: o.ctx,
                            out: Err(o.out->Err_0),
                        }));
                    }
                    return Err(e);
                },
            }
            i = i + 1;
            if context.interrupted() {
                stopped = true;
            }
        }
        Ok(Some(buf))
    }
}

/// A child that fails aborts the whole composite: whatever children follow it
/// and whatever has accumulated, the render yields exactly that child's error
/// and no output, and the context is left as the failing child left it.
pub proof fn lemma_failing_child_aborts(
    msg: String,
    rest: Seq<Node>,
    c: ContextModel,
    acc: Seq<char>,
)
    ensures
        render_nodes_spec(seq![Node::Fails(msg)] + rest, c, acc) == (RenderOutcome {
            ctx: c,
            out: Err(RenderErrorView::Output(msg@)),
        }),
{
    let nodes = seq![Node::Fails(msg)] + rest;
    assert(nodes[0] == Node::Fails(msg));
    assert(render_node_spec(nodes[0], c) == (NodeOutcome {
        ctx: c,
        out: Err(RenderErrorView::Output(msg@)),
    }));
}

/// Once a child renders successfully and leaves the interrupt flag set, the
/// composite stops: whatever children follow it, the render ends with the
/// output accumulated through that child, and the remaining children
/// contribute nothing and are never consulted.
pub proof fn lemma_interrupt_stops_rendering(
    first: Node,
    rest: Seq<Node>,
    c: ContextModel,
    acc: Seq<char>,
)
    requires
        render_node_spec(first, c).out is Ok,
        render_node_spec(first, c).ctx.interrupted,
    ensures
        render_nodes_spec(seq![first] + rest, c, acc) == (RenderOutcome {
            ctx: render_node_spec(first, c).ctx,
            out: Ok(
                match render_node_spec(first, c).out->Ok_0 {
                    Some(s) => acc + s,
                    None => acc,
                },
            ),
        }),
{
    let nodes = seq![first] + rest;
    assert(nodes[0] == first);
}

/// Children that are all literal text, rendered with no interrupt pending,
/// concatenate: the composite's output is the concatenation of their texts in
/// order, the context is left untouched, and no failure arises.
pub proof fn lemma_text_children_concat(nodes: Seq<Node>, c: ContextModel, acc: Seq<char>)
    requires
        !c.interrupted,
        forall|j: int| 0 <= j < nodes.len() ==> nodes[j] is Text,
    ensures
        render_nodes_spec(nodes, c, acc) == (RenderOutcome {
            ctx: c,
            out: Ok(acc + concat_texts(nodes)),
        }),
    decreases nodes.len(),
{
    if nodes.len() == 0 {
        assert(acc + concat_texts(nodes) =~= acc);
    } else {
        let tail = nodes.subrange(1, nodes.len() as int);
        assert(forall|j: int| 0 <= j < tail.len() ==> tail[j] == nodes[j + 1]);
        let t0 = nodes[0]->Text_0@;
        assert(render_node_spec(nodes[0], c) == (NodeOutcome { ctx: c, out: Ok(Some(t0)) }));
        lemma_text_children_concat(tail, c, acc + t0);
        assert((acc + t0) + concat_texts(tail) =~= acc + (t0 + concat_texts(tail)));
    }
}

/// The concatenation, in order, of the texts a sequence of literal text nodes
/// carries.
pub open spec fn concat_texts(nodes: Seq<Node>) -> Seq<char>
    decreases nodes.len(),
{
    if nodes.len() == 0 {
        Seq::empty()
    } else {
        nodes[0]->Text_0@ + concat_texts(nodes.subrange(1, nodes.len() as int))
    }
}

} // verus!
