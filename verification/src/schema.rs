//! The schema data model: a collection of named definitions, each a
//! reference to another definition or an inline shape.

use vstd::prelude::*;
use vstd::string::StringExecFns;

verus! {

/// The base kind of a primitive schema shape.
#[derive(Debug, Clone, Copy, PartialEq, Eq, Structural)]
pub enum PrimitiveKind {
    Str,
    Num,
    Integer,
    Boolean,
}

/// One literal value of a primitive's enumeration. A numeric literal carries
/// its natural textual form, as the source document wrote it.
#[derive(Debug)]
pub enum EnumLiteral {
    Text(String),
    Numeric(String),
}

/// One declared property of an object shape.
#[derive(Debug)]
pub struct Property {
    pub name: String,
    pub node: SchemaNode,
}

/// The structural kind of an inline schema shape.
#[derive(Debug)]
pub enum ShapeKind {
    Primitive(PrimitiveKind, Vec<EnumLiteral>),
    ObjectType(Vec<Property>),
    ArrayType(Box<SchemaNode>),
    Union(Vec<SchemaNode>),
    Intersection(Vec<SchemaNode>),
    Unsupported,
}

/// One schema node: a name-based pointer to another definition, or an inline
/// shape together with its required-field list (`None` when the document
/// declared no required list at all).
#[derive(Debug)]
pub enum SchemaNode {
    Reference(String),
    Item(ShapeKind, Option<Vec<String>>),
}

/// One named definition of a collection.
#[derive(Debug)]
pub struct SchemaEntry {
    pub name: String,
    pub node: SchemaNode,
}

/// An ordered-by-insertion mapping from definition name to schema node.
/// Lookup is by name; where a name was inserted twice, the first entry wins.
#[derive(Debug)]
pub struct SchemaCollection {
    pub entries: Vec<SchemaEntry>,
}

/// The first node among `entries` whose name reads `name`, if any.
pub open spec fn spec_lookup(entries: Seq<SchemaEntry>, name: Seq<char>) -> Option<SchemaNode>
    decreases entries.len(),
{
    if entries.len() == 0 {
        None
    } else if entries[0].name@ == name {
        Some(entries[0].node)
    } else {
        spec_lookup(entries.drop_first(), name)
    }
}

impl SchemaCollection {
    /// Whether some definition is declared under `name`.
    pub open spec fn spec_contains(self, name: Seq<char>) -> bool {
        spec_lookup(self.entries@, name) is Some
    }

    /// The node declared under `name`.
    pub open spec fn spec_node(self, name: Seq<char>) -> SchemaNode {
        spec_lookup(self.entries@, name)->Some_0
    }

    /// An empty collection.
    pub fn new() -> (r: SchemaCollection)
        ensures
            r.entries@ == Seq::<SchemaEntry>::empty(),
    {
        SchemaCollection { entries: Vec::new() }
    }

    /// Appends one named definition.
    pub fn insert(&mut self, name: String, node: SchemaNode)
        ensures
            final(self).entries@ == old(self).entries@.push(SchemaEntry { name, node }),
    {
        self.entries.push(SchemaEntry { name, node });
    }

    /// Looks a definition up by name.
    pub fn get(&self, name: &str) -> (r: Option<&SchemaNode>)
        ensures
            match r {
                Some(node) => self.spec_contains(name@) && *node == self.spec_node(name@),
                None => !self.spec_contains(name@),
            },
    {
        let key = String::from_str(name);
        let n = self.entries.len();
        proof {
            assert(self.entries@.skip(0) =~= self.entries@);
        }
        for i in 0..n
            invariant
                n == self.entries@.len(),
                spec_lookup(self.entries@, name@) == spec_lookup(
                    self.entries@.skip(i as int),
                    name@,
                ),
                key@ == name@,
                forall|j: int| 0 <= j < i ==> self.entries@[j].name@ != name@,
        {
            proof {
                assert(self.entries@.skip(i as int)[0] == self.entries@[i as int]);
            }
            if self.entries[i].name == key {
                return Some(&self.entries[i].node);
            }
            proof {
                assert(self.entries@.skip(i as int).drop_first() =~= self.entries@.skip(
                    i as int + 1,
                ));
            }
        }
        proof {
            assert(self.entries@.skip(n as int) =~= Seq::<SchemaEntry>::empty());
        }
        None
    }

    /// Whether a definition is declared under `name`.
    pub fn contains(&self, name: &str) -> (r: bool)
        ensures
            r == self.spec_contains(name@),
    {
        self.get(name).is_some()
    }
}

} // verus!
