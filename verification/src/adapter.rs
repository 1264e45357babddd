//! The resolver surface the query engine drives: per-row context carriers,
//! batch property / neighbor / coercion resolution, and the schema's type
//! hierarchy.
//!
//! Every batch resolver that receives N contexts produces exactly N
//! correlated outputs in the same relative order.

use vstd::prelude::*;

use crate::edges::{edge_plan_ok, is_edge_of, resolve_edge, NeighborPlan, PlanV};
use crate::field_value::{FieldValue, FieldValueV};
use crate::model::Vertex;
use crate::properties::{property_value, vertex_has_property, vertex_property};
use crate::strutil::str_eq;

verus! {

/// An opaque per-row carrier tracking one active vertex (or none) through
/// chained resolution calls, used to correlate inputs with outputs.
pub struct Context {
    active: Option<Vertex>,
}

impl Context {
    /// The vertex the row is currently at, if any.
    pub closed spec fn active(self) -> Option<Vertex> {
        self.active
    }

    /// A row carrier at the given vertex.
    pub fn new(active: Option<Vertex>) -> (r: Context)
        ensures
            r.active() == active,
    {
        Context { active }
    }

    /// Reads the active vertex.
    pub fn active_vertex(&self) -> (r: &Option<Vertex>)
        ensures
            *r == self.active(),
    {
        &self.active
    }
}

/// The tag of every context's active vertex, when there is one, matches the
/// named type, carries a renderable payload, and owns the property asked of
/// it.
pub open spec fn contexts_fit_property(
    ctxs: Seq<Context>,
    tname: Seq<char>,
    prop: Seq<char>,
) -> bool {
    forall|i: int|
        0 <= i < ctxs.len() ==> (#[trigger] ctxs[i].active() matches Some(v) ==> v.tag_name()
            == tname && vertex_has_property(v, prop) && v.wf())
}

/// The value a context resolves to: null when no vertex is active, the
/// vertex's property value otherwise.
pub open spec fn ctx_property_value(a: Option<Vertex>, prop: Seq<char>) -> FieldValueV {
    match a {
        None => FieldValueV::Null,
        Some(v) => property_value(v, prop),
    }
}

/// Resolves one property over a context sequence: the output has exactly
/// one entry per input context, in the same order, each carrying its input
/// context unchanged beside the property value of that context's active
/// vertex (null where none is active).
pub fn resolve_property(contexts: Vec<Context>, tname: &str, property_name: &str) -> (out: Vec<
    (Context, FieldValue),
>)
    requires
        contexts_fit_property(contexts@, tname@, property_name@),
    ensures
        out@.len() == contexts@.len(),
        forall|i: int|
            0 <= i < out@.len() ==> #[trigger] out@[i].0 == contexts@[i] && out@[i].1@
                == ctx_property_value(contexts@[i].active(), property_name@),
{
    let ghost orig = contexts@;
    let mut rest = contexts;
    let mut out: Vec<(Context, FieldValue)> = Vec::new();
    while rest.len() > 0
        invariant
            contexts_fit_property(orig, tname@, property_name@),
            out@.len() + rest@.len() == orig.len(),
            rest@ == orig.subrange(out@.len() as int, orig.len() as int),
            forall|i: int|
                0 <= i < out@.len() ==> #[trigger] out@[i].0 == orig[i] && out@[i].1@
                    == ctx_property_value(orig[i].active(), property_name@),
        decreases rest@.len(),
    {
        let ghost done = out@.len() as int;
        let ctx = rest.remove(0);
        proof {
            assert(ctx == orig[done]);
            assert(rest@ =~= orig.subrange(done + 1, orig.len() as int));
        }
        let value = match ctx.active_vertex() {
            Some(v) => vertex_property(v, tname, property_name),
            None => FieldValue::Null,
        };
        proof {
            assert(value@ == ctx_property_value(orig[done].active(), property_name@));
        }
        let ghost prev_out = out@;
        out.push((ctx, value));
        proof {
            assert forall|i: int|
                0 <= i < out@.len() implies #[trigger] out@[i].0 == orig[i] && out@[i].1@
                == ctx_property_value(orig[i].active(), property_name@) by {
                if i < done {
                    assert(out@[i] == prev_out[i]);
                }
            }
        }
    }
    out
}

/// The tag of every context's active vertex, when there is one, matches the
/// named type, which owns the edge asked of it.
pub open spec fn contexts_fit_edge(ctxs: Seq<Context>, tname: Seq<char>, edge: Seq<char>) -> bool {
    forall|i: int|
        0 <= i < ctxs.len() ==> (#[trigger] ctxs[i].active() matches Some(v) ==> v.tag_name()
            == tname && is_edge_of(tname, edge))
}

/// The plan a context resolves to: empty when no vertex is active, the
/// vertex's edge plan otherwise.
pub open spec fn ctx_plan_ok(a: Option<Vertex>, edge: Seq<char>, p: PlanV) -> bool {
    match a {
        None => p == PlanV::Empty,
        Some(v) => edge_plan_ok(v, edge, p),
    }
}

/// Resolves one edge over a context sequence: the output has exactly one
/// entry per input context, in the same order, each carrying its input
/// context unchanged beside the neighbor plan of that context's active
/// vertex (an empty plan where none is active).
pub fn resolve_neighbors(contexts: Vec<Context>, tname: &str, edge_name: &str) -> (out: Vec<
    (Context, NeighborPlan),
>)
    requires
        contexts_fit_edge(contexts@, tname@, edge_name@),
    ensures
        out@.len() == contexts@.len(),
        forall|i: int|
            0 <= i < out@.len() ==> #[trigger] out@[i].0 == contexts@[i] && ctx_plan_ok(
                contexts@[i].active(),
                edge_name@,
                out@[i].1@,
            ),
{
    let ghost orig = contexts@;
    let mut rest = contexts;
    let mut out: Vec<(Context, NeighborPlan)> = Vec::new();
    while rest.len() > 0
        invariant
            contexts_fit_edge(orig, tname@, edge_name@),
            out@.len() + rest@.len() == orig.len(),
            rest@ == orig.subrange(out@.len() as int, orig.len() as int),
            forall|i: int|
                0 <= i < out@.len() ==> #[trigger] out@[i].0 == orig[i] && ctx_plan_ok(
                    orig[i].active(),
                    edge_name@,
                    out@[i].1@,
                ),
        decreases rest@.len(),
    {
        let ghost done = out@.len() as int;
        let ctx = rest.remove(0);
        proof {
            assert(ctx == orig[done]);
            assert(rest@ =~= orig.subrange(done + 1, orig.len() as int));
        }
        let plan = match ctx.active_vertex() {
            Some(v) => resolve_edge(v, tname, edge_name),
            None => NeighborPlan::Empty,
        };
        proof {
            assert(ctx_plan_ok(orig[done].active(), edge_name@, plan@));
        }
        let ghost prev_out = out@;
        out.push((ctx, plan));
        proof {
            assert forall|i: int|
                0 <= i < out@.len() implies #[trigger] out@[i].0 == orig[i] && ctx_plan_ok(
                orig[i].active(),
                edge_name@,
                out@[i].1@,
            ) by {
                if i < done {
                    assert(out@[i] == prev_out[i]);
                }
            }
        }
    }
    out
}

/// Whether a vertex whose tag has the first name counts as the type with
/// the second: every tag is its own type, and the enriched winner shapes
/// are the subtypes of the winner interface.
pub open spec fn can_coerce(tag: Seq<char>, target: Seq<char>) -> bool {
    tag == target || (target == "Winner"@ && (tag == "WinnerTeam"@ || tag == "WinnerPlayer"@))
}

/// The schema type name of a vertex's tag.
pub fn vertex_tag(v: &Vertex) -> (r: &str)
    ensures
        r@ == v.tag_name(),
{
    match v {
        Vertex::League(_) => "League",
        Vertex::Series(_) => "Series",
        Vertex::Tournament(_) => "Tournament",
        Vertex::Match(_) => "Match",
        Vertex::Team(_) => "Team",
        Vertex::Player(_) => "Player",
        Vertex::VideoGame(_) => "VideoGame",
        Vertex::Winner(_) => "Winner",
        Vertex::WinnerTeam { .. } => "WinnerTeam",
        Vertex::WinnerPlayer { .. } => "WinnerPlayer",
    }
}

/// Answers whether one vertex coerces to the named type, using the vertex's
/// tag as ground truth.
pub fn coerce_vertex(v: &Vertex, coerce_to_type: &str) -> (r: bool)
    ensures
        r == can_coerce(v.tag_name(), coerce_to_type@),
{
    let tag = vertex_tag(v);
    if str_eq(tag, coerce_to_type) {
        true
    } else {
        str_eq(coerce_to_type, "Winner") && (str_eq(tag, "WinnerTeam") || str_eq(
            tag,
            "WinnerPlayer",
        ))
    }
}

/// The coercion answer of a context: false when no vertex is active, the
/// tag check otherwise.
pub open spec fn ctx_coerce(a: Option<Vertex>, target: Seq<char>) -> bool {
    match a {
        None => false,
        Some(v) => can_coerce(v.tag_name(), target),
    }
}

/// Resolves one coercion over a context sequence: the output has exactly
/// one entry per input context, in the same order, each carrying its input
/// context unchanged beside the answer for that context's active vertex
/// (false where none is active).
pub fn resolve_coercion(contexts: Vec<Context>, coerce_to_type: &str) -> (out: Vec<
    (Context, bool),
>)
    ensures
        out@.len() == contexts@.len(),
        forall|i: int|
            0 <= i < out@.len() ==> #[trigger] out@[i].0 == contexts@[i] && out@[i].1 == ctx_coerce(
                contexts@[i].active(),
                coerce_to_type@,
            ),
{
    let ghost orig = contexts@;
    let mut rest = contexts;
    let mut out: Vec<(Context, bool)> = Vec::new();
    while rest.len() > 0
        invariant
            out@.len() + rest@.len() == orig.len(),
            rest@ == orig.subrange(out@.len() as int, orig.len() as int),
            forall|i: int|
                0 <= i < out@.len() ==> #[trigger] out@[i].0 == orig[i] && out@[i].1 == ctx_coerce(
                    orig[i].active(),
                    coerce_to_type@,
                ),
        decreases rest@.len(),
    {
        let ghost done = out@.len() as int;
        let ctx = rest.remove(0);
        proof {
            assert(ctx == orig[done]);
            assert(rest@ =~= orig.subrange(done + 1, orig.len() as int));
        }
        let answer = match ctx.active_vertex() {
            Some(v) => coerce_vertex(v, coerce_to_type),
            None => false,
        };
        proof {
            assert(answer == ctx_coerce(orig[done].active(), coerce_to_type@));
        }
        let ghost prev_out = out@;
        out.push((ctx, answer));
        proof {
            assert forall|i: int|
                0 <= i < out@.len() implies #[trigger] out@[i].0 == orig[i] && out@[i].1
                == ctx_coerce(orig[i].active(), coerce_to_type@) by {
                if i < done {
                    assert(out@[i] == prev_out[i]);
                }
            }
        }
    }
    out
}

} // verus!
