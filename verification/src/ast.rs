//! The type-checked syntax of a module: its definitions, and under each
//! definition the tree of nodes that a cursor can point at.

use crate::span::SrcSpan;
use crate::type_::{Deprecation, Publicity, Type, ValueConstructor};
use std::sync::Arc;
use vstd::prelude::*;

verus! {

/// An argument of a function.
#[derive(Debug, Clone, PartialEq, Eq)]
pub struct Arg {
    pub location: SrcSpan,
    pub type_: Arc<Type>,
}

/// A statement of a function body.
#[derive(Debug, Clone, PartialEq, Eq)]
pub struct Statement {
    pub location: SrcSpan,
}

/// The part of a function between its head and its end.
#[derive(Debug, Clone, PartialEq, Eq)]
pub struct FunctionBody {
    pub location: SrcSpan,
}

/// A pattern, with the type of the values it matches.
#[derive(Debug, Clone, PartialEq, Eq)]
pub struct TypedPattern {
    pub location: SrcSpan,
    pub type_: Arc<Type>,
    /// The documentation of the constructor that the pattern names.
    pub documentation: Option<String>,
    /// Where that constructor is defined: the module, unless it is this one,
    /// and the place in it.
    pub definition: Option<DefinitionLocation>,
}

/// A type written in the source, with the type it resolved to.
#[derive(Debug, Clone, PartialEq, Eq)]
pub struct Annotation {
    pub location: SrcSpan,
    pub type_: Arc<Type>,
}

/// A name imported from a module without its qualifier.
#[derive(Debug, Clone, PartialEq, Eq)]
pub struct UnqualifiedImport {
    pub name: String,
    pub module: String,
    pub is_type: bool,
    pub location: SrcSpan,
}

/// Where something is defined: in the module named, or in the current one
/// where none is named.
#[derive(Debug, Clone, PartialEq, Eq)]
pub struct DefinitionLocation {
    pub module: Option<String>,
    pub span: SrcSpan,
}

/// What the member of another module, selected with a dot, stands for.
#[derive(Debug, Clone, PartialEq, Eq)]
pub struct ModuleValueConstructor {
    pub documentation: Option<String>,
    pub location: SrcSpan,
}

/// An expression with its type. Only the two forms that refer to a definition
/// are told apart.
#[allow(inconsistent_fields)]
#[derive(Debug, Clone, PartialEq, Eq)]
pub enum TypedExpr {
    /// A name.
    Var { location: SrcSpan, name: String, constructor: ValueConstructor },
    /// A member of an imported module: `module.label`.
    ModuleSelect {
        location: SrcSpan,
        type_: Arc<Type>,
        label: String,
        module_name: String,
        constructor: ModuleValueConstructor,
    },
    /// Any other expression.
    Other { location: SrcSpan, type_: Arc<Type> },
}

impl TypedExpr {
    pub open spec fn span(self) -> SrcSpan {
        match self {
            TypedExpr::Var { location, .. } => location,
            TypedExpr::ModuleSelect { location, .. } => location,
            TypedExpr::Other { location, .. } => location,
        }
    }

    pub open spec fn resolved_type(self) -> Arc<Type> {
        match self {
            TypedExpr::Var { constructor, .. } => constructor.type_,
            TypedExpr::ModuleSelect { type_, .. } => type_,
            TypedExpr::Other { type_, .. } => type_,
        }
    }

    /// The documentation of the definition that the expression refers to.
    pub open spec fn documentation(self) -> Option<String> {
        match self {
            TypedExpr::Var { constructor, .. } => constructor.variant.documentation(),
            TypedExpr::ModuleSelect { constructor, .. } => constructor.documentation,
            TypedExpr::Other { .. } => None,
        }
    }

    pub fn location(&self) -> (location: SrcSpan)
        ensures
            location == self.span(),
    {
        match self {
            TypedExpr::Var { location, .. } => *location,
            TypedExpr::ModuleSelect { location, .. } => *location,
            TypedExpr::Other { location, .. } => *location,
        }
    }

    pub fn type_(&self) -> (type_: &Arc<Type>)
        ensures
            *type_ == self.resolved_type(),
    {
        match self {
            TypedExpr::Var { constructor, .. } => &constructor.type_,
            TypedExpr::ModuleSelect { type_, .. } => type_,
            TypedExpr::Other { type_, .. } => type_,
        }
    }

    pub fn get_documentation(&self) -> (documentation: Option<&String>)
        ensures
            documentation.is_some() == self.documentation().is_some(),
            documentation matches Some(text) ==> Some(*text) == self.documentation(),
    {
        match self {
            TypedExpr::Var { constructor, .. } => constructor.get_documentation(),
            TypedExpr::ModuleSelect { constructor, .. } => constructor.documentation.as_ref(),
            TypedExpr::Other { .. } => None,
        }
    }
}

/// What a node of the syntax tree is.
#[derive(Debug, Clone, PartialEq, Eq)]
pub enum Entity {
    Statement(Statement),
    Expression(TypedExpr),
    Pattern(TypedPattern),
    FunctionBody(FunctionBody),
    Arg(Arg),
    Annotation(Annotation),
    UnqualifiedImport(UnqualifiedImport),
}

impl Entity {
    pub open spec fn span(self) -> SrcSpan {
        match self {
            Entity::Statement(statement) => statement.location,
            Entity::Expression(expression) => expression.span(),
            Entity::Pattern(pattern) => pattern.location,
            Entity::FunctionBody(body) => body.location,
            Entity::Arg(argument) => argument.location,
            Entity::Annotation(annotation) => annotation.location,
            Entity::UnqualifiedImport(import) => import.location,
        }
    }

    pub fn location(&self) -> (location: SrcSpan)
        ensures
            location == self.span(),
    {
        match self {
            Entity::Statement(statement) => statement.location,
            Entity::Expression(expression) => expression.location(),
            Entity::Pattern(pattern) => pattern.location,
            Entity::FunctionBody(body) => body.location,
            Entity::Arg(argument) => argument.location,
            Entity::Annotation(annotation) => annotation.location,
            Entity::UnqualifiedImport(import) => import.location,
        }
    }
}

/// A node of the syntax tree: what it is, and the nodes written inside it.
#[derive(Debug)]
pub struct Node {
    pub entity: Entity,
    pub children: Vec<Node>,
}

/// The index of the first node from `from` on whose span holds `at`, or the
/// number of nodes where none does.
pub open spec fn first_covering(nodes: Seq<Node>, at: int, from: int) -> int
    decreases nodes.len() - from,
{
    if from < 0 || from >= nodes.len() {
        nodes.len() as int
    } else if nodes[from].entity.span().covers(at) {
        from
    } else {
        first_covering(nodes, at, from + 1)
    }
}

/// Among `nodes` and the nodes inside them, the smallest one that encloses
/// `at`: the first node that holds it, or the one found in the same way among
/// that node's children.
pub open spec fn innermost_of(nodes: Seq<Node>, at: int) -> Option<Node>
    decreases nodes,
{
    let index = first_covering(nodes, at, 0);
    if 0 <= index < nodes.len() {
        Some(nodes[index].innermost(at))
    } else {
        None
    }
}

impl Node {
    /// The smallest node that encloses `at`, looked for from `self` down:
    /// at each node, the first child whose span holds `at` is entered; where
    /// no child holds it, the node is the answer.
    pub open spec fn innermost(self, at: int) -> Node
        decreases self,
    {
        let index = first_covering(self.children@, at, 0);
        if 0 <= index < self.children@.len() {
            self.children@[index].innermost(at)
        } else {
            self
        }
    }

    /// `inner` is `self` or one of the nodes inside it.
    pub open spec fn holds(self, inner: Node) -> bool
        decreases self,
    {
        self == inner || exists|k: int|
            0 <= k < self.children@.len() && (#[trigger] self.children@[k]).holds(inner)
    }

    /// The spans of the tree are nested: each child lies within its parent,
    /// and no two children of a node overlap.
    pub open spec fn well_nested(self) -> bool
        decreases self,
    {
        &&& self.entity.span().wf()
        &&& forall|k: int|
            0 <= k < self.children@.len() ==> self.entity.span().encloses(
                (#[trigger] self.children@[k]).entity.span(),
            ) && self.children@[k].well_nested()
        &&& forall|j: int, k: int|
            0 <= j < k < self.children@.len() ==> (#[trigger] self.children@[j]).entity.span().disjoint(
                (#[trigger] self.children@[k]).entity.span(),
            )
    }

    /// The smallest node inside `self` that encloses `byte_index`, given that
    /// `self` encloses it.
    pub fn find_node(&self, byte_index: u32) -> (found: &Node)
        ensures
            *found == self.innermost(byte_index as int),
        decreases self,
    {
        let mut at: usize = 0;
        while at < self.children.len()
            invariant
                at <= self.children@.len(),
                first_covering(self.children@, byte_index as int, at as int) == first_covering(
                    self.children@,
                    byte_index as int,
                    0,
                ),
            decreases self.children@.len() - at,
        {
            let child = &self.children[at];
            if child.entity.location().contains(byte_index) {
                return child.find_node(byte_index);
            }
            at += 1;
        }
        self
    }
}

/// The smallest node among `nodes` and the nodes inside them that encloses
/// `byte_index`, if any of `nodes` does.
pub fn find_in_nodes(nodes: &Vec<Node>, byte_index: u32) -> (found: Option<&Node>)
    ensures
        found.is_some() == innermost_of(nodes@, byte_index as int).is_some(),
        found matches Some(node) ==> Some(*node) == innermost_of(nodes@, byte_index as int),
{
    let mut at: usize = 0;
    while at < nodes.len()
        invariant
            at <= nodes@.len(),
            first_covering(nodes@, byte_index as int, at as int) == first_covering(
                nodes@,
                byte_index as int,
                0,
            ),
        decreases nodes@.len() - at,
    {
        if nodes[at].entity.location().contains(byte_index) {
            return Some(nodes[at].find_node(byte_index));
        }
        at += 1;
    }
    None
}

/// A function of a module.
#[derive(Debug)]
pub struct Function {
    /// The head of the function: from its first word to its return type.
    pub location: SrcSpan,
    /// Where the body ends.
    pub end_position: u32,
    pub name: String,
    pub name_location: Option<SrcSpan>,
    pub arguments: Vec<Arg>,
    pub return_type: Arc<Type>,
    pub publicity: Publicity,
    pub deprecation: Deprecation,
    pub documentation: Option<String>,
    /// Where the documentation comment above the function begins.
    pub doc_position: Option<u32>,
    /// The syntax of the function: arguments, annotations and the body.
    pub nodes: Vec<Node>,
}

/// A second name for a type.
#[derive(Debug)]
pub struct TypeAlias {
    pub location: SrcSpan,
    pub alias: String,
    pub alias_location: SrcSpan,
    pub type_: Arc<Type>,
    pub publicity: Publicity,
    pub deprecation: Deprecation,
    pub documentation: Option<String>,
    pub doc_position: Option<u32>,
    pub nodes: Vec<Node>,
}

/// A value handed to a constructor of a custom type.
#[derive(Debug)]
pub struct RecordConstructorArg {
    pub label: Option<String>,
    pub label_location: Option<SrcSpan>,
    pub location: SrcSpan,
    pub type_: Arc<Type>,
    pub doc_position: Option<u32>,
}

/// A constructor of a custom type.
#[derive(Debug)]
pub struct RecordConstructor {
    /// The name of the constructor.
    pub location: SrcSpan,
    pub name: String,
    pub arguments: Vec<RecordConstructorArg>,
    pub documentation: Option<String>,
    pub doc_position: Option<u32>,
}

/// A type that a module defines by its constructors.
#[derive(Debug)]
pub struct CustomType {
    /// From the first word of the definition to the end of the name.
    pub location: SrcSpan,
    /// Where the last constructor ends.
    pub end_position: u32,
    pub name: String,
    pub name_location: SrcSpan,
    pub constructors: Vec<RecordConstructor>,
    pub publicity: Publicity,
    pub deprecation: Deprecation,
    pub documentation: Option<String>,
    pub doc_position: Option<u32>,
    pub nodes: Vec<Node>,
}

/// An import of another module.
#[derive(Debug)]
pub struct Import {
    pub location: SrcSpan,
    /// The module that is imported.
    pub module: String,
    /// The package that the module belongs to.
    pub package: String,
    /// The names imported without qualifier.
    pub nodes: Vec<Node>,
}

/// A constant of a module.
#[derive(Debug)]
pub struct ModuleConstant {
    /// The name of the constant.
    pub location: SrcSpan,
    pub name: String,
    /// The expression that gives the constant its value.
    pub value_location: SrcSpan,
    pub type_: Arc<Type>,
    pub publicity: Publicity,
    pub deprecation: Deprecation,
    pub documentation: Option<String>,
    pub doc_position: Option<u32>,
    pub nodes: Vec<Node>,
}

/// A definition at the top level of a module.
#[derive(Debug)]
pub enum Definition {
    Function(Function),
    TypeAlias(TypeAlias),
    CustomType(CustomType),
    Import(Import),
    ModuleConstant(ModuleConstant),
}

impl Definition {
    /// The place of the definition that a reference to it leads to.
    pub open spec fn span(self) -> SrcSpan {
        match self {
            Definition::Function(function) => function.location,
            Definition::TypeAlias(alias) => alias.location,
            Definition::CustomType(custom_type) => custom_type.location,
            Definition::Import(import) => import.location,
            Definition::ModuleConstant(constant) => constant.location,
        }
    }

    /// All of the source that belongs to the definition, its body included.
    pub open spec fn extent(self) -> SrcSpan {
        match self {
            Definition::Function(function) => SrcSpan {
                start: function.location.start,
                end: function.end_position,
            },
            Definition::TypeAlias(alias) => alias.location,
            Definition::CustomType(custom_type) => SrcSpan {
                start: custom_type.location.start,
                end: custom_type.end_position,
            },
            Definition::Import(import) => import.location,
            Definition::ModuleConstant(constant) => SrcSpan {
                start: constant.location.start,
                end: constant.value_location.end,
            },
        }
    }

    /// The syntax nodes directly under the definition.
    pub open spec fn syntax(self) -> Seq<Node> {
        match self {
            Definition::Function(function) => function.nodes@,
            Definition::TypeAlias(alias) => alias.nodes@,
            Definition::CustomType(custom_type) => custom_type.nodes@,
            Definition::Import(import) => import.nodes@,
            Definition::ModuleConstant(constant) => constant.nodes@,
        }
    }

    pub fn location(&self) -> (location: SrcSpan)
        ensures
            location == self.span(),
    {
        match self {
            Definition::Function(function) => function.location,
            Definition::TypeAlias(alias) => alias.location,
            Definition::CustomType(custom_type) => custom_type.location,
            Definition::Import(import) => import.location,
            Definition::ModuleConstant(constant) => constant.location,
        }
    }

    pub fn full_location(&self) -> (location: SrcSpan)
        ensures
            location == self.extent(),
    {
        match self {
            Definition::Function(function) => SrcSpan::new(
                function.location.start,
                function.end_position,
            ),
            Definition::TypeAlias(alias) => alias.location,
            Definition::CustomType(custom_type) => SrcSpan::new(
                custom_type.location.start,
                custom_type.end_position,
            ),
            Definition::Import(import) => import.location,
            Definition::ModuleConstant(constant) => SrcSpan::new(
                constant.location.start,
                constant.value_location.end,
            ),
        }
    }

    pub fn nodes(&self) -> (nodes: &Vec<Node>)
        ensures
            nodes@ == self.syntax(),
    {
        match self {
            Definition::Function(function) => &function.nodes,
            Definition::TypeAlias(alias) => &alias.nodes,
            Definition::CustomType(custom_type) => &custom_type.nodes,
            Definition::Import(import) => &import.nodes,
            Definition::ModuleConstant(constant) => &constant.nodes,
        }
    }
}

/// The type-checked syntax of one module.
#[derive(Debug)]
pub struct TypedModule {
    pub name: String,
    /// The definitions, in the order in which they are written.
    pub definitions: Vec<Definition>,
    /// The imports that nothing in the module uses.
    pub unused_imports: Vec<SrcSpan>,
}

/// The index of the first definition from `from` on whose extent holds `at`,
/// or the number of definitions where none does.
pub open spec fn first_enclosing_definition(definitions: Seq<Definition>, at: int, from: int) -> int
    decreases definitions.len() - from,
{
    if from < 0 || from >= definitions.len() {
        definitions.len() as int
    } else if definitions[from].extent().covers(at) {
        from
    } else {
        first_enclosing_definition(definitions, at, from + 1)
    }
}

/// The first definition that holds `at` does hold it, and none before it does.
pub proof fn lemma_first_enclosing_definition(definitions: Seq<Definition>, at: int, from: int)
    requires
        0 <= from <= definitions.len(),
    ensures
        from <= first_enclosing_definition(definitions, at, from) <= definitions.len(),
        first_enclosing_definition(definitions, at, from) < definitions.len()
            ==> definitions[first_enclosing_definition(definitions, at, from)].extent().covers(at),
        forall|k: int|
            from <= k < first_enclosing_definition(definitions, at, from) ==> !(
            #[trigger] definitions[k]).extent().covers(at),
    decreases definitions.len() - from,
{
    if from < definitions.len() && !definitions[from].extent().covers(at) {
        lemma_first_enclosing_definition(definitions, at, from + 1);
    }
}

/// The first node that holds `at` does hold it, and no node before it does.
pub proof fn lemma_first_covering(nodes: Seq<Node>, at: int, from: int)
    requires
        0 <= from <= nodes.len(),
    ensures
        from <= first_covering(nodes, at, from) <= nodes.len(),
        first_covering(nodes, at, from) < nodes.len() ==> nodes[first_covering(
            nodes,
            at,
            from,
        )].entity.span().covers(at),
        forall|k: int|
            from <= k < first_covering(nodes, at, from) ==> !(#[trigger] nodes[k]).entity.span().covers(
                at,
            ),
    decreases nodes.len() - from,
{
    if from < nodes.len() && !nodes[from].entity.span().covers(at) {
        lemma_first_covering(nodes, at, from + 1);
    }
}

/// The node that a lookup from `root` returns lies in the tree of `root`; its
/// span holds the offset if that of `root` does; and none of its children
/// holds the offset.
pub proof fn lemma_innermost(root: Node, at: int)
    ensures
        root.holds(root.innermost(at)),
        root.entity.span().covers(at) ==> root.innermost(at).entity.span().covers(at),
        forall|k: int|
            0 <= k < root.innermost(at).children@.len() ==> !(#[trigger] root.innermost(
                at,
            ).children@[k]).entity.span().covers(at),
    decreases root,
{
    let index = first_covering(root.children@, at, 0);
    lemma_first_covering(root.children@, at, 0);
    if 0 <= index < root.children@.len() {
        lemma_innermost(root.children@[index], at);
        assert(root.children@[index].holds(root.innermost(at)));
    }
}

/// In a tree with nested spans, every node whose span holds the offset lies
/// on the way from the root to the node that the lookup returns: the lookup
/// finds the one smallest enclosing node.
pub proof fn lemma_innermost_is_smallest(root: Node, other: Node, at: int)
    requires
        root.well_nested(),
        root.holds(other),
        other.entity.span().covers(at),
    ensures
        other.holds(root.innermost(at)),
    decreases root,
{
    if root == other {
        lemma_innermost(root, at);
    } else {
        let k = choose|k: int|
            0 <= k < root.children@.len() && (#[trigger] root.children@[k]).holds(other);
        lemma_covers_below(root.children@[k], other, at);
        lemma_first_covering(root.children@, at, 0);
        let index = first_covering(root.children@, at, 0);
        assert(index == k) by {
            if index < k {
                assert(root.children@[index].entity.span().disjoint(
                    root.children@[k].entity.span(),
                ));
            }
        }
        lemma_innermost_is_smallest(root.children@[k], other, at);
    }
}

/// In a tree with nested spans, the span of the root holds every offset that
/// the span of a node inside it holds.
pub proof fn lemma_covers_below(root: Node, inner: Node, at: int)
    requires
        root.well_nested(),
        root.holds(inner),
        inner.entity.span().covers(at),
    ensures
        root.entity.span().covers(at),
    decreases root,
{
    if root != inner {
        let k = choose|k: int|
            0 <= k < root.children@.len() && (#[trigger] root.children@[k]).holds(inner);
        lemma_covers_below(root.children@[k], inner, at);
    }
}

} // verus!
