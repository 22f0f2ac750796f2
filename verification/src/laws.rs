//! General properties of the resolver, stated and proved once for all
//! inputs.

use vstd::prelude::*;
use crate::schema::{EnumLiteral, PrimitiveKind, SchemaCollection, SchemaNode, ShapeKind};
use crate::resolver::{
    spec_canonical, spec_item_type, spec_join, spec_kind_refs_ok, spec_members_types,
    spec_node_refs_ok, spec_prop_type, spec_rendered_lits, spec_resolve,
};

verus! {

/// A primitive with an empty enumeration resolves to exactly the canonical
/// name of its kind, whatever else stands on the node, and its resolution
/// never fails.
pub proof fn lemma_primitive_canonical(
    k: PrimitiveKind,
    es: Vec<EnumLiteral>,
    req: Option<Vec<String>>,
    coll: SchemaCollection,
)
    requires
        es@.len() == 0,
    ensures
        spec_resolve(SchemaNode::Item(ShapeKind::Primitive(k, es), req)) == spec_canonical(k),
        spec_node_refs_ok(SchemaNode::Item(ShapeKind::Primitive(k, es), req), coll),
{
}

/// Whenever at least one enumeration literal renders non-empty, a primitive
/// resolves to the pipe-joined union of the rendered literals, whatever its
/// base kind, and its resolution never fails.
pub proof fn lemma_enumeration_precedence(
    k: PrimitiveKind,
    es: Vec<EnumLiteral>,
    req: Option<Vec<String>>,
    coll: SchemaCollection,
)
    requires
        spec_rendered_lits(es@).len() > 0,
    ensures
        spec_resolve(SchemaNode::Item(ShapeKind::Primitive(k, es), req)) == spec_join(
            spec_rendered_lits(es@),
            " | "@,
        ),
        spec_node_refs_ok(SchemaNode::Item(ShapeKind::Primitive(k, es), req), coll),
{
}

/// An array whose element references a declared schema resolves to that
/// schema's own name with the array suffix, not to a generic array marker,
/// and its resolution never fails.
pub proof fn lemma_array_of_reference(
    node: SchemaNode,
    name: String,
    coll: SchemaCollection,
)
    requires
        node matches SchemaNode::Item(k, _) && k matches ShapeKind::ArrayType(el) && *el
            == SchemaNode::Reference(name),
        coll.spec_contains(name@),
    ensures
        spec_resolve(node) == name@ + "[]"@,
        spec_node_refs_ok(node, coll),
{
}

/// A union of three reference members resolves to the three names joined by
/// exactly two infix pipe separators, with no leading and no trailing
/// separator; an intersection of the same members joins them with the
/// ampersand separator instead.
pub proof fn lemma_union_intersection_tiebreak(
    ms: Vec<SchemaNode>,
    a: String,
    b: String,
    c: String,
    coll: SchemaCollection,
)
    requires
        ms@.len() == 3,
        ms@[0] == SchemaNode::Reference(a),
        ms@[1] == SchemaNode::Reference(b),
        ms@[2] == SchemaNode::Reference(c),
        coll.spec_contains(a@),
        coll.spec_contains(b@),
        coll.spec_contains(c@),
    ensures
        spec_prop_type(ShapeKind::Union(ms)) == a@ + " | "@ + b@ + " | "@ + c@,
        spec_prop_type(ShapeKind::Intersection(ms)) == a@ + " & "@ + b@ + " & "@ + c@,
        spec_kind_refs_ok(ShapeKind::Union(ms), coll),
        spec_kind_refs_ok(ShapeKind::Intersection(ms), coll),
{
    reveal_with_fuel(spec_join, 4);
    let ts = spec_members_types(ms@);
    assert(ts.len() == 3);
    assert(ts[0] == a@ && ts[1] == b@ && ts[2] == c@);
    assert(ts.drop_last().len() == 2);
    assert(ts.drop_last().drop_last().len() == 1);
    assert(ts.drop_last().drop_last()[0] == a@);
    assert(ts.drop_last().last() == b@);
    assert(ts.last() == c@);
    assert(spec_join(ts, " | "@) =~= a@ + " | "@ + b@ + " | "@ + c@);
    assert(spec_join(ts, " & "@) =~= a@ + " & "@ + b@ + " & "@ + c@);
}

/// An unsupported shape degrades: it resolves to the generic object marker,
/// and its resolution never fails, whatever the collection holds.
pub proof fn lemma_unsupported_degrades(req: Option<Vec<String>>, coll: SchemaCollection)
    ensures
        spec_resolve(SchemaNode::Item(ShapeKind::Unsupported, req)) == "Object"@,
        spec_node_refs_ok(SchemaNode::Item(ShapeKind::Unsupported, req), coll),
{
}

/// A reference naming a schema the collection does not declare is exactly
/// the failing case of reference resolution.
pub proof fn lemma_undeclared_reference_fails(name: String, coll: SchemaCollection)
    ensures
        spec_node_refs_ok(SchemaNode::Reference(name), coll) <==> coll.spec_contains(name@),
{
}

} // verus!
