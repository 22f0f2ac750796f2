//! The schema-to-type-expression resolver: walks one schema node and
//! produces a textual type expression, and assembles one comment block per
//! named definition.

use vstd::prelude::*;
use vstd::string::StringExecFns;
use crate::builder::{JSDocBuilder, JSDocTag, spec_tag_text};
use crate::schema::{
    EnumLiteral, PrimitiveKind, Property, SchemaCollection, SchemaNode, ShapeKind,
};

verus! {

/// A fatal resolution failure. Every other condition, an unrecognized shape
/// included, degrades to the generic object marker instead of failing.
#[derive(Debug, Clone, Copy, PartialEq, Eq, Structural)]
pub enum ResolveError {
    /// A reference names a schema that the collection does not declare.
    UndeclaredReference,
    /// An object schema with properties declares no required-field list.
    MissingRequiredSet,
}

/// The canonical name of a primitive kind. Integer-only primitives share
/// the name of general numbers: the target annotation language draws no
/// distinction.
pub open spec fn spec_canonical(k: PrimitiveKind) -> Seq<char> {
    match k {
        PrimitiveKind::Str => "string"@,
        PrimitiveKind::Num => "number"@,
        PrimitiveKind::Integer => "number"@,
        PrimitiveKind::Boolean => "boolean"@,
    }
}

/// The rendering of one enumeration literal: text quoted, numbers verbatim.
pub open spec fn spec_lit_text(l: EnumLiteral) -> Seq<char> {
    match l {
        EnumLiteral::Text(s) => "\""@ + s@ + "\""@,
        EnumLiteral::Numeric(t) => t@,
    }
}

/// The renderings of an enumeration, in order. A numeric literal whose
/// textual form is empty contributes nothing; a quoted literal is never
/// empty, so every text literal stays.
pub open spec fn spec_rendered_lits(es: Seq<EnumLiteral>) -> Seq<Seq<char>>
    decreases es.len(),
{
    if es.len() == 0 {
        Seq::empty()
    } else {
        let rest = spec_rendered_lits(es.drop_last());
        match es.last() {
            EnumLiteral::Text(_) => rest.push(spec_lit_text(es.last())),
            EnumLiteral::Numeric(t) => if t@.len() > 0 {
                rest.push(t@)
            } else {
                rest
            },
        }
    }
}

/// `items` joined by the infix separator `sep`: no leading separator, no
/// trailing separator.
pub open spec fn spec_join(items: Seq<Seq<char>>, sep: Seq<char>) -> Seq<char>
    decreases items.len(),
{
    if items.len() == 0 {
        Seq::empty()
    } else if items.len() == 1 {
        items[0]
    } else {
        spec_join(items.drop_last(), sep) + sep + items.last()
    }
}

/// The views of a sequence of strings.
pub open spec fn views_of(items: Seq<String>) -> Seq<Seq<char>> {
    items.map_values(|s: String| s@)
}

/// The type expression of a primitive: a union of its enumeration literals
/// when at least one renders non-empty, else the canonical primitive name.
pub open spec fn spec_prim_type(k: PrimitiveKind, es: Seq<EnumLiteral>) -> Seq<char> {
    let lits = spec_rendered_lits(es);
    if lits.len() > 0 {
        spec_join(lits, " | "@)
    } else {
        spec_canonical(k)
    }
}

/// The type expression of one union or intersection member, by the
/// restricted member resolver: references keep their name, primitives
/// resolve fully, every other shape degrades to the generic object marker.
pub open spec fn spec_item_type(n: SchemaNode) -> Seq<char> {
    match n {
        SchemaNode::Reference(name) => name@,
        SchemaNode::Item(ShapeKind::Primitive(k, es), _) => spec_prim_type(k, es@),
        SchemaNode::Item(_, _) => "Object"@,
    }
}

/// Whether the restricted member resolver finds every reference it reads
/// declared in the collection.
pub open spec fn spec_item_refs_ok(n: SchemaNode, coll: SchemaCollection) -> bool {
    match n {
        SchemaNode::Reference(name) => coll.spec_contains(name@),
        SchemaNode::Item(_, _) => true,
    }
}

/// The member type expressions of a union or intersection, in member order.
pub open spec fn spec_members_types(ms: Seq<SchemaNode>) -> Seq<Seq<char>> {
    ms.map_values(|m: SchemaNode| spec_item_type(m))
}

/// Whether every member's references are declared.
pub open spec fn spec_members_refs_ok(ms: Seq<SchemaNode>, coll: SchemaCollection) -> bool {
    forall|i: int| 0 <= i < ms.len() ==> spec_item_refs_ok(ms[i], coll)
}

/// The type expression of an array's element with the array suffix: a
/// reference element keeps its name, a primitive element its canonical
/// name; every other element degrades to the generic object marker.
pub open spec fn spec_array_type(el: SchemaNode) -> Seq<char> {
    match el {
        SchemaNode::Reference(name) => name@ + "[]"@,
        SchemaNode::Item(ShapeKind::Primitive(k, _), _) => spec_canonical(k) + "[]"@,
        SchemaNode::Item(_, _) => "Object[]"@,
    }
}

/// The type expression of an inline shape.
pub open spec fn spec_prop_type(k: ShapeKind) -> Seq<char> {
    match k {
        ShapeKind::Primitive(pk, es) => spec_prim_type(pk, es@),
        ShapeKind::ObjectType(_) => "Object"@,
        ShapeKind::ArrayType(el) => spec_array_type(*el),
        ShapeKind::Union(ms) => spec_join(spec_members_types(ms@), " | "@),
        ShapeKind::Intersection(ms) => spec_join(spec_members_types(ms@), " & "@),
        ShapeKind::Unsupported => "Object"@,
    }
}

/// Whether resolving an inline shape finds every reference it reads
/// declared in the collection.
pub open spec fn spec_kind_refs_ok(k: ShapeKind, coll: SchemaCollection) -> bool {
    match k {
        ShapeKind::ArrayType(el) => match *el {
            SchemaNode::Reference(name) => coll.spec_contains(name@),
            SchemaNode::Item(_, _) => true,
        },
        ShapeKind::Union(ms) => spec_members_refs_ok(ms@, coll),
        ShapeKind::Intersection(ms) => spec_members_refs_ok(ms@, coll),
        _ => true,
    }
}

/// The type expression of one schema node: a reference resolves to the
/// referenced name itself, one level only; an inline shape resolves by its
/// kind.
pub open spec fn spec_resolve(n: SchemaNode) -> Seq<char> {
    match n {
        SchemaNode::Reference(name) => name@,
        SchemaNode::Item(k, _) => spec_prop_type(k),
    }
}

/// Whether resolving a node finds every reference it reads declared in the
/// collection.
pub open spec fn spec_node_refs_ok(n: SchemaNode, coll: SchemaCollection) -> bool {
    match n {
        SchemaNode::Reference(name) => coll.spec_contains(name@),
        SchemaNode::Item(k, _) => spec_kind_refs_ok(k, coll),
    }
}

/// Whether the required-field list holds `name`.
pub open spec fn spec_required_contains(req: Seq<String>, name: Seq<char>) -> bool {
    exists|i: int| 0 <= i < req.len() && req[i]@ == name
}

/// A property name as it appears on its line: bare when required, wrapped
/// in the optional marker otherwise.
pub open spec fn spec_marked_name(name: Seq<char>, req: Seq<String>) -> Seq<char> {
    if spec_required_contains(req, name) {
        name
    } else {
        "["@ + name + "]"@
    }
}

/// One property line of a comment block.
pub open spec fn spec_prop_line(p: Property, req: Seq<String>) -> Seq<char> {
    " * "@ + spec_tag_text(JSDocTag::Property) + "{"@ + spec_resolve(p.node) + "} "@
        + spec_marked_name(p.name@, req) + "\n"@
}

/// The property lines of a comment block, in declared property order.
pub open spec fn spec_prop_lines(props: Seq<Property>, req: Seq<String>) -> Seq<char>
    decreases props.len(),
{
    if props.len() == 0 {
        Seq::empty()
    } else {
        spec_prop_lines(props.drop_last(), req) + spec_prop_line(props.last(), req)
    }
}

/// The opening delimiter line and the typedef line of a block.
pub open spec fn spec_block_header(name: Seq<char>) -> Seq<char> {
    "/**\n"@ + " * "@ + spec_tag_text(JSDocTag::Typedef) + "{Object} "@ + name + "\n"@
}

/// The full comment block of one definition: header, one line per
/// property, closing delimiter line.
pub open spec fn spec_typedef_block(name: Seq<char>, props: Seq<Property>, req: Seq<String>) -> Seq<
    char,
> {
    spec_block_header(name) + spec_prop_lines(props, req) + " */\n"@
}

/// The declared properties of a definition's node: those of an object
/// shape; every other node declares none.
pub open spec fn spec_item_props(n: SchemaNode) -> Seq<Property> {
    match n {
        SchemaNode::Item(ShapeKind::ObjectType(ps), _) => ps@,
        _ => Seq::empty(),
    }
}

/// The required-field list of a definition's node, if it declares one.
pub open spec fn spec_item_required(n: SchemaNode) -> Option<Vec<String>> {
    match n {
        SchemaNode::Item(_, r) => r,
        SchemaNode::Reference(_) => None,
    }
}

/// The required-field list as a sequence, empty when there is none.
pub open spec fn spec_req_seq(r: Option<Vec<String>>) -> Seq<String> {
    match r {
        Some(v) => v@,
        None => Seq::empty(),
    }
}

/// Whether every property's type resolution finds its references declared.
pub open spec fn spec_props_refs_ok(props: Seq<Property>, coll: SchemaCollection) -> bool {
    forall|i: int| 0 <= i < props.len() ==> spec_node_refs_ok(props[i].node, coll)
}

/// Joins the given strings with the infix separator `sep`.
fn join_types(items: &Vec<String>, sep: &str) -> (r: String)
    ensures
        r@ == spec_join(views_of(items@), sep@),
{
    let ghost m = views_of(items@);
    let mut acc = String::new();
    let n = items.len();
    proof {
        assert(m.subrange(0, 0) =~= Seq::<Seq<char>>::empty());
    }
    for i in 0..n
        invariant
            n == items@.len(),
            m == views_of(items@),
            acc@ == spec_join(m.subrange(0, i as int), sep@),
    {
        if i > 0 {
            acc.append(sep);
        }
        acc.append(items[i].as_str());
        proof {
            assert(m.subrange(0, i + 1).drop_last() =~= m.subrange(0, i as int));
            assert(m.subrange(0, i + 1).last() == items@[i as int]@);
            assert(acc@ =~= spec_join(m.subrange(0, i + 1), sep@));
        }
    }
    proof {
        assert(m.subrange(0, n as int) =~= m);
    }
    acc
}

/// The union of the given literal renderings, pipe-joined with no leading
/// and no trailing separator; `None` when there are none at all.
pub fn get_enum_type(enums: &Vec<String>) -> (r: Option<String>)
    ensures
        r is Some <==> enums@.len() > 0,
        r matches Some(s) ==> s@ == spec_join(views_of(enums@), " | "@),
{
    if enums.len() == 0 {
        None
    } else {
        Some(join_types(enums, " | "))
    }
}

/// The canonical name of a primitive kind.
fn canonical_name(k: &PrimitiveKind) -> (r: String)
    ensures
        r@ == spec_canonical(*k),
{
    match k {
        PrimitiveKind::Str => String::from_str("string"),
        PrimitiveKind::Num => String::from_str("number"),
        PrimitiveKind::Integer => String::from_str("number"),
        PrimitiveKind::Boolean => String::from_str("boolean"),
    }
}

/// Resolves a primitive: enumeration literals take precedence over the
/// canonical name whenever at least one renders non-empty.
fn prim_type(k: &PrimitiveKind, es: &Vec<EnumLiteral>) -> (r: String)
    ensures
        r@ == spec_prim_type(*k, es@),
{
    let mut rendered: Vec<String> = Vec::new();
    let n = es.len();
    proof {
        assert(es@.subrange(0, 0) =~= Seq::<EnumLiteral>::empty());
    }
    for i in 0..n
        invariant
            n == es@.len(),
            views_of(rendered@) == spec_rendered_lits(es@.subrange(0, i as int)),
    {
        let ghost pre = rendered@;
        match &es[i] {
            EnumLiteral::Text(s) => {
                let lit = String::from_str("\"").concat(s.as_str()).concat("\"");
                rendered.push(lit);
            },
            EnumLiteral::Numeric(t) => {
                if !t.as_str().is_empty() {
                    rendered.push(t.clone());
                }
            },
        }
        proof {
            assert(es@.subrange(0, i + 1).drop_last() =~= es@.subrange(0, i as int));
            assert(es@.subrange(0, i + 1).last() == es@[i as int]);
            assert(views_of(rendered@) =~= spec_rendered_lits(es@.subrange(0, i + 1)));
        }
    }
    proof {
        assert(es@.subrange(0, n as int) =~= es@);
    }
    match get_enum_type(&rendered) {
        Some(en) => en,
        None => canonical_name(k),
    }
}

/// Resolves one union or intersection member, by the restricted member
/// resolver of `spec_item_type`.
pub fn get_item_type(node: &SchemaNode, coll: &SchemaCollection) -> (r: Result<
    String,
    ResolveError,
>)
    ensures
        r is Ok <==> spec_item_refs_ok(*node, *coll),
        r matches Ok(s) ==> s@ == spec_item_type(*node),
        r matches Err(e) ==> e == ResolveError::UndeclaredReference,
{
    match node {
        SchemaNode::Reference(name) => {
            if coll.contains(name.as_str()) {
                Ok(name.clone())
            } else {
                Err(ResolveError::UndeclaredReference)
            }
        },
        SchemaNode::Item(kind, _) => match kind {
            ShapeKind::Primitive(k, es) => Ok(prim_type(k, es)),
            _ => Ok(String::from_str("Object")),
        },
    }
}

/// Resolves every member of a union or intersection, in order.
fn member_types(ms: &Vec<SchemaNode>, coll: &SchemaCollection) -> (r: Result<
    Vec<String>,
    ResolveError,
>)
    ensures
        r is Ok <==> spec_members_refs_ok(ms@, *coll),
        r matches Ok(v) ==> views_of(v@) == spec_members_types(ms@),
        r matches Err(e) ==> e == ResolveError::UndeclaredReference,
{
    let mut out: Vec<String> = Vec::new();
    let n = ms.len();
    for i in 0..n
        invariant
            n == ms@.len(),
            out@.len() == i,
            forall|j: int| 0 <= j < i ==> #[trigger] spec_item_refs_ok(ms@[j], *coll),
            forall|j: int| 0 <= j < i ==> out@[j]@ == spec_item_type(ms@[j]),
    {
        match get_item_type(&ms[i], coll) {
            Ok(t) => out.push(t),
            Err(e) => {
                return Err(e);
            },
        }
    }
    proof {
        assert(views_of(out@) =~= spec_members_types(ms@));
    }
    Ok(out)
}

/// Resolves an inline shape to its type expression, reading the collection
/// only to check that each reference it meets is declared.
pub fn get_prop_type(kind: &ShapeKind, coll: &SchemaCollection) -> (r: Result<
    String,
    ResolveError,
>)
    ensures
        r is Ok <==> spec_kind_refs_ok(*kind, *coll),
        r matches Ok(s) ==> s@ == spec_prop_type(*kind),
        r matches Err(e) ==> e == ResolveError::UndeclaredReference,
{
    match kind {
        ShapeKind::Primitive(k, es) => Ok(prim_type(k, es)),
        ShapeKind::ObjectType(_) => Ok(String::from_str("Object")),
        ShapeKind::ArrayType(el) => match &**el {
            SchemaNode::Reference(name) => {
                if coll.contains(name.as_str()) {
                    Ok(name.clone().concat("[]"))
                } else {
                    Err(ResolveError::UndeclaredReference)
                }
            },
            SchemaNode::Item(el_kind, _) => match el_kind {
                ShapeKind::Primitive(k, _) => Ok(canonical_name(k).concat("[]")),
                _ => Ok(String::from_str("Object[]")),
            },
        },
        ShapeKind::Union(ms) => {
            let ts = match member_types(ms, coll) {
                Ok(ts) => ts,
                Err(e) => {
                    return Err(e);
                },
            };
            Ok(join_types(&ts, " | "))
        },
        ShapeKind::Intersection(ms) => {
            let ts = match member_types(ms, coll) {
                Ok(ts) => ts,
                Err(e) => {
                    return Err(e);
                },
            };
            Ok(join_types(&ts, " & "))
        },
        ShapeKind::Unsupported => Ok(String::from_str("Object")),
    }
}

/// Resolves one schema node to its type expression. A reference resolves to
/// the referenced name itself, one level only, and must be declared in the
/// collection; an unrecognized shape degrades to the generic object marker
/// rather than failing.
pub fn resolve(node: &SchemaNode, coll: &SchemaCollection) -> (r: Result<String, ResolveError>)
    ensures
        r is Ok <==> spec_node_refs_ok(*node, *coll),
        r matches Ok(s) ==> s@ == spec_resolve(*node),
        r matches Err(e) ==> e == ResolveError::UndeclaredReference,
{
    match node {
        SchemaNode::Reference(name) => {
            if coll.contains(name.as_str()) {
                Ok(name.clone())
            } else {
                Err(ResolveError::UndeclaredReference)
            }
        },
        SchemaNode::Item(kind, _) => get_prop_type(kind, coll),
    }
}

/// Whether the required-field list holds `name`.
fn required_contains(req: &Vec<String>, name: &String) -> (b: bool)
    ensures
        b == spec_required_contains(req@, name@),
{
    let n = req.len();
    for i in 0..n
        invariant
            n == req@.len(),
            forall|j: int| 0 <= j < i ==> req@[j]@ != name@,
    {
        if req[i] == *name {
            return true;
        }
    }
    false
}

/// Assembles the comment block of the definition declared under
/// `schema_name`: one typedef line, then one property line per declared
/// property in declared order, a property's name wrapped in the optional
/// marker exactly when the required-field list does not hold it.
///
/// Fails without producing any block when a property's type resolution
/// meets an undeclared reference, or when the definition has properties
/// but declares no required-field list at all.
pub fn generate_typedef(coll: &SchemaCollection, schema_name: &str) -> (r: Result<
    String,
    ResolveError,
>)
    requires
        coll.spec_contains(schema_name@),
        coll.spec_node(schema_name@) is Item,
    ensures
        ({
            let node = coll.spec_node(schema_name@);
            let props = spec_item_props(node);
            let req = spec_item_required(node);
            &&& (r is Ok <==> ((props.len() > 0 ==> req is Some) && spec_props_refs_ok(
                props,
                *coll,
            )))
            &&& (r matches Ok(s) ==> s@ == spec_typedef_block(
                schema_name@,
                props,
                spec_req_seq(req),
            ))
            &&& (r matches Err(e) ==> e == (if props.len() > 0 && req is None {
                ResolveError::MissingRequiredSet
            } else {
                ResolveError::UndeclaredReference
            }))
        }),
{
    let node = coll.get(schema_name).unwrap();
    let mut jsdoc = JSDocBuilder::new();
    let title = String::from_str("{Object} ").concat(schema_name);
    jsdoc.add_tag_line(JSDocTag::Typedef, title.as_str());
    proof {
        assert(jsdoc@ =~= spec_block_header(schema_name@));
    }
    match node {
        SchemaNode::Item(kind, required) => match kind {
            ShapeKind::ObjectType(props) => {
                if props.len() > 0 {
                    match required {
                        Option::None => {
                            return Err(ResolveError::MissingRequiredSet);
                        },
                        Option::Some(req) => {
                            let n = props.len();
                            proof {
                                assert(props@.subrange(0, 0) =~= Seq::<Property>::empty());
                            }
                            for i in 0..n
                                invariant
                                    n == props@.len(),
                                    *node == coll.spec_node(schema_name@),
                                    *node matches SchemaNode::Item(k, r) && k matches
                                        ShapeKind::ObjectType(ps) && ps@ == props@ && r == Some(
                                        *req,
                                    ),
                                    forall|j: int|
                                        0 <= j < i ==> #[trigger] spec_node_refs_ok(
                                            props@[j].node,
                                            *coll,
                                        ),
                                    jsdoc@ == spec_block_header(schema_name@) + spec_prop_lines(
                                        props@.subrange(0, i as int),
                                        req@,
                                    ),
                            {
                                let p = &props[i];
                                let ptype = match resolve(&p.node, coll) {
                                    Ok(t) => t,
                                    Err(e) => {
                                        return Err(e);
                                    },
                                };
                                let marked = if required_contains(req, &p.name) {
                                    p.name.clone()
                                } else {
                                    String::from_str("[").concat(p.name.as_str()).concat("]")
                                };
                                let line = String::from_str("{").concat(ptype.as_str()).concat(
                                    "} ",
                                ).concat(marked.as_str());
                                jsdoc.add_tag_line(JSDocTag::Property, line.as_str());
                                proof {
                                    assert(props@.subrange(0, i + 1).drop_last() =~= props@.subrange(
                                        0,
                                        i as int,
                                    ));
                                    assert(props@.subrange(0, i + 1).last() == props@[i as int]);
                                    assert(jsdoc@ =~= spec_block_header(schema_name@)
                                        + spec_prop_lines(props@.subrange(0, i + 1), req@));
                                }
                            }
                            proof {
                                assert(props@.subrange(0, n as int) =~= props@);
                            }
                        },
                    }
                }
            },
            _ => {
            },
        },
        SchemaNode::Reference(_) => {
            // ruled out by the precondition: the named definition is an item
            proof {
                assert(false);
            }
        },
    }
    let block = jsdoc.build();
    proof {
        let snode = coll.spec_node(schema_name@);
        assert(block@ =~= spec_typedef_block(
            schema_name@,
            spec_item_props(snode),
            spec_req_seq(spec_item_required(snode)),
        ));
    }
    Ok(block)
}

} // verus!
