//! The compiled record of a module, and what a cursor in it points at.

use crate::ast::{
    first_enclosing_definition, find_in_nodes, innermost_of, Annotation, Arg, Definition,
    DefinitionLocation, Entity, FunctionBody, Statement, TypedExpr, TypedModule, TypedPattern,
    UnqualifiedImport,
};
use crate::line_numbers::LineNumbers;
use crate::span::SrcSpan;
use crate::type_::{ModuleInterface, Type, TypeConstructor, ValueConstructorVariant};
use std::sync::Arc;
use vstd::prelude::*;
use vstd::string::*;

verus! {

/// The compiled state of one source file. It is made as a whole when the
/// module is compiled and never changed afterwards.
#[derive(Debug)]
pub struct Module {
    pub name: String,
    /// The path of the source file.
    pub path: String,
    pub ast: TypedModule,
    /// The source text and the table of its lines.
    pub line_numbers: LineNumbers,
}

impl Module {
    pub fn new(name: String, path: String, code: &str, ast: TypedModule) -> (module: Module)
        requires
            code.spec_bytes().len() <= u32::MAX,
        ensures
            module.name == name,
            module.path == path,
            module.ast == ast,
            module.line_numbers@ == code.spec_bytes(),
    {
        Module { name, path, ast, line_numbers: LineNumbers::new(code) }
    }

    /// What the byte offset `byte_index` points at, if it lies in a
    /// definition of the module.
    pub fn find_node(&self, byte_index: u32) -> (found: Option<Located<'_>>)
        ensures
            found == located_at(self.ast.definitions@, byte_index as int),
    {
        let definitions = &self.ast.definitions;
        let mut at: usize = 0;
        while at < definitions.len()
            invariant
                *definitions == self.ast.definitions,
                at <= definitions@.len(),
                first_enclosing_definition(definitions@, byte_index as int, at as int)
                    == first_enclosing_definition(definitions@, byte_index as int, 0),
            decreases definitions@.len() - at,
        {
            let definition = &definitions[at];
            if definition.full_location().contains(byte_index) {
                return match find_in_nodes(definition.nodes(), byte_index) {
                    Some(node) => Some(Located::of(&node.entity)),
                    None => Some(Located::ModuleStatement(definition)),
                };
            }
            at += 1;
        }
        None
    }
}

/// What was found under a cursor.
#[derive(Debug, Clone, Copy)]
pub enum Located<'a> {
    Pattern(&'a TypedPattern),
    Statement(&'a Statement),
    Expression(&'a TypedExpr),
    ModuleStatement(&'a Definition),
    FunctionBody(&'a FunctionBody),
    Arg(&'a Arg),
    Annotation(SrcSpan, &'a Arc<Type>),
    UnqualifiedImport(&'a UnqualifiedImport),
}

/// What a node of the syntax tree is, as a found node.
pub open spec fn located<'a>(entity: &'a Entity) -> Located<'a> {
    match entity {
        Entity::Statement(statement) => Located::Statement(statement),
        Entity::Expression(expression) => Located::Expression(expression),
        Entity::Pattern(pattern) => Located::Pattern(pattern),
        Entity::FunctionBody(body) => Located::FunctionBody(body),
        Entity::Arg(argument) => Located::Arg(argument),
        Entity::Annotation(annotation) => Located::Annotation(
            annotation.location,
            &annotation.type_,
        ),
        Entity::UnqualifiedImport(import) => Located::UnqualifiedImport(import),
    }
}

/// What the offset `at` points at: in the first definition that holds it, the
/// smallest node that encloses it, or the definition itself where none of its
/// nodes does. Nothing where no definition holds the offset.
pub open spec fn located_at<'a>(definitions: Seq<Definition>, at: int) -> Option<Located<'a>> {
    let index = first_enclosing_definition(definitions, at, 0);
    if 0 <= index < definitions.len() {
        match innermost_of(definitions[index].syntax(), at) {
            Some(node) => Some(located(&node.entity)),
            None => Some(Located::ModuleStatement(&definitions[index])),
        }
    } else {
        None
    }
}

/// The span of the found thing: for a definition, all of its source.
pub open spec fn span_of(found: Located) -> SrcSpan {
    match found {
        Located::Pattern(pattern) => pattern.location,
        Located::Statement(statement) => statement.location,
        Located::Expression(expression) => expression.span(),
        Located::ModuleStatement(definition) => definition.extent(),
        Located::FunctionBody(body) => body.location,
        Located::Arg(argument) => argument.location,
        Located::Annotation(location, _) => location,
        Located::UnqualifiedImport(import) => import.location,
    }
}

/// Something is found at an offset exactly if a definition holds the offset.
/// The span of what is found holds the offset. What is found is the
/// definition itself only where none of its nodes holds the offset, and a
/// node only where none of the nodes inside it does.
pub proof fn lemma_located_at(definitions: Seq<Definition>, at: int)
    ensures
        located_at(definitions, at) is Some <==> exists|k: int|
            0 <= k < definitions.len() && (#[trigger] definitions[k]).extent().covers(at),
        located_at(definitions, at) matches Some(found) ==> span_of(found).covers(at),
        located_at(definitions, at) matches Some(Located::ModuleStatement(definition))
            ==> forall|k: int|
            0 <= k < definition.syntax().len() ==> !(#[trigger] definition.syntax()[k]).entity.span().covers(
                at,
            ),
        ({
            let index = first_enclosing_definition(definitions, at, 0);
            0 <= index < definitions.len() ==> (innermost_of(definitions[index].syntax(), at)
                matches Some(node) ==> located_at(definitions, at) == Some(located(&node.entity))
                && forall|k: int|
                0 <= k < node.children@.len() ==> !(#[trigger] node.children@[k]).entity.span().covers(
                    at,
                ))
        }),
{
    crate::ast::lemma_first_enclosing_definition(definitions, at, 0);
    let index = first_enclosing_definition(definitions, at, 0);
    if 0 <= index < definitions.len() {
        let nodes = definitions[index].syntax();
        crate::ast::lemma_first_covering(nodes, at, 0);
        let first = crate::ast::first_covering(nodes, at, 0);
        if 0 <= first < nodes.len() {
            crate::ast::lemma_innermost(nodes[first], at);
        }
    }
}

/// The index of the first module from `from` on that is named `name`, or the
/// number of modules where there is none.
pub open spec fn interface_index(modules: Seq<ModuleInterface>, name: Seq<char>, from: int) -> int
    decreases modules.len() - from,
{
    if from < 0 || from >= modules.len() {
        modules.len() as int
    } else if modules[from].name@ == name {
        from
    } else {
        interface_index(modules, name, from + 1)
    }
}

/// The interface of the module named `name`.
pub open spec fn interface_named(modules: Seq<ModuleInterface>, name: Seq<char>) -> Option<
    ModuleInterface,
> {
    let index = interface_index(modules, name, 0);
    if 0 <= index < modules.len() {
        Some(modules[index])
    } else {
        None
    }
}

/// The interface of the module named `name`, if it is among `modules`.
pub fn find_interface<'a>(modules: &'a Vec<ModuleInterface>, name: &String) -> (found: Option<
    &'a ModuleInterface,
>)
    ensures
        found.is_some() == interface_named(modules@, name@).is_some(),
        found matches Some(interface) ==> Some(*interface) == interface_named(modules@, name@),
{
    let mut at: usize = 0;
    while at < modules.len()
        invariant
            at <= modules@.len(),
            interface_index(modules@, name@, at as int) == interface_index(modules@, name@, 0),
        decreases modules@.len() - at,
    {
        if modules[at].name == *name {
            return Some(&modules[at]);
        }
        at += 1;
    }
    None
}

/// The definition of a named type, looked up in the module that defines it.
pub open spec fn type_constructor_of(modules: Seq<ModuleInterface>, type_: Type) -> Option<
    TypeConstructor,
> {
    match type_ {
        Type::Named { module, name, .. } => match interface_named(modules, module@) {
            Some(interface) => interface.type_named(name@),
            None => None,
        },
        _ => None,
    }
}

/// The definition of the type `type_`, where it is a named type of one of
/// `importable_modules`.
pub fn type_constructor_from_modules<'a>(
    importable_modules: &'a Vec<ModuleInterface>,
    type_: &Type,
) -> (found: Option<&'a TypeConstructor>)
    ensures
        found.is_some() == type_constructor_of(importable_modules@, *type_).is_some(),
        found matches Some(constructor) ==> Some(*constructor) == type_constructor_of(
            importable_modules@,
            *type_,
        ),
{
    match type_ {
        Type::Named { module, name, .. } => match find_interface(importable_modules, module) {
            Some(interface) => interface.get_type(name),
            None => None,
        },
        _ => None,
    }
}

/// Where the thing that `found` refers to is defined: the module, where it
/// is another one, and the place in it.
pub open spec fn definition_of(found: Located, modules: Seq<ModuleInterface>) -> Option<
    (Option<Seq<char>>, SrcSpan),
> {
    match found {
        Located::Pattern(pattern) => match pattern.definition {
            Some(definition) => Some(
                (
                    match definition.module {
                        Some(module) => Some(module@),
                        None => None,
                    },
                    definition.span,
                ),
            ),
            None => None,
        },
        Located::Statement(_) => None,
        Located::FunctionBody(_) => None,
        Located::Arg(_) => None,
        Located::Expression(expression) => match *expression {
            TypedExpr::Var { constructor, .. } => Some(
                (
                    match constructor.variant.module() {
                        Some(module) => Some(module@),
                        None => None,
                    },
                    constructor.variant.location(),
                ),
            ),
            TypedExpr::ModuleSelect { module_name, constructor, .. } => Some(
                (Some(module_name@), constructor.location),
            ),
            TypedExpr::Other { .. } => None,
        },
        Located::ModuleStatement(definition) => match *definition {
            Definition::Import(import) => Some((Some(import.module@), SrcSpan { start: 0, end: 0 })),
            _ => Some((None, definition.span())),
        },
        Located::UnqualifiedImport(import) => match interface_named(modules, import.module@) {
            Some(interface) => if import.is_type {
                match interface.type_named(import.name@) {
                    Some(constructor) => Some((Some(import.module@), constructor.origin)),
                    None => None,
                }
            } else {
                match interface.value_named(import.name@) {
                    Some(constructor) => Some(
                        (Some(import.module@), constructor.variant.location()),
                    ),
                    None => None,
                }
            },
            None => None,
        },
        Located::Annotation(_, type_) => match **type_ {
            Type::Named { module, .. } => match type_constructor_of(modules, **type_) {
                Some(constructor) => Some((Some(module@), constructor.origin)),
                None => None,
            },
            _ => None,
        },
    }
}

/// The module and the span of a definition location, as plain values.
pub open spec fn location_parts(location: Option<DefinitionLocation>) -> Option<
    (Option<Seq<char>>, SrcSpan),
> {
    match location {
        Some(location) => Some(
            (
                match location.module {
                    Some(module) => Some(module@),
                    None => None,
                },
                location.span,
            ),
        ),
        None => None,
    }
}

impl<'a> Located<'a> {
    /// The found node for a node of the syntax tree.
    pub fn of(entity: &'a Entity) -> (found: Located<'a>)
        ensures
            found == located(entity),
    {
        match entity {
            Entity::Statement(statement) => Located::Statement(statement),
            Entity::Expression(expression) => Located::Expression(expression),
            Entity::Pattern(pattern) => Located::Pattern(pattern),
            Entity::FunctionBody(body) => Located::FunctionBody(body),
            Entity::Arg(argument) => Located::Arg(argument),
            Entity::Annotation(annotation) => Located::Annotation(
                annotation.location,
                &annotation.type_,
            ),
            Entity::UnqualifiedImport(import) => Located::UnqualifiedImport(import),
        }
    }

    /// Where the thing under the cursor is defined. Statements, function
    /// bodies and arguments lead nowhere.
    pub fn definition_location(&self, importable_modules: &Vec<ModuleInterface>) -> (location:
        Option<DefinitionLocation>)
        ensures
            location_parts(location) == definition_of(*self, importable_modules@),
    {
        match self {
            Located::Pattern(pattern) => match &pattern.definition {
                Some(definition) => Some(
                    DefinitionLocation {
                        module: match &definition.module {
                            Some(module) => Some(module.clone()),
                            None => None,
                        },
                        span: definition.span,
                    },
                ),
                None => None,
            },
            Located::Statement(_) => None,
            Located::FunctionBody(_) => None,
            Located::Arg(_) => None,
            Located::Expression(expression) => match expression {
                TypedExpr::Var { constructor, .. } => match &constructor.variant {
                    ValueConstructorVariant::LocalVariable { location } => Some(
                        DefinitionLocation { module: None, span: *location },
                    ),
                    ValueConstructorVariant::ModuleConstant { location, module, .. } => Some(
                        DefinitionLocation { module: Some(module.clone()), span: *location },
                    ),
                    ValueConstructorVariant::ModuleFn { location, module, .. } => Some(
                        DefinitionLocation { module: Some(module.clone()), span: *location },
                    ),
                    ValueConstructorVariant::Record { location, module, .. } => Some(
                        DefinitionLocation { module: Some(module.clone()), span: *location },
                    ),
                },
                TypedExpr::ModuleSelect { module_name, constructor, .. } => Some(
                    DefinitionLocation {
                        module: Some(module_name.clone()),
                        span: constructor.location,
                    },
                ),
                TypedExpr::Other { .. } => None,
            },
            Located::ModuleStatement(definition) => match definition {
                Definition::Import(import) => Some(
                    DefinitionLocation {
                        module: Some(import.module.clone()),
                        span: SrcSpan::new(0, 0),
                    },
                ),
                _ => Some(DefinitionLocation { module: None, span: definition.location() }),
            },
            Located::UnqualifiedImport(import) => match find_interface(
                importable_modules,
                &import.module,
            ) {
                Some(interface) => if import.is_type {
                    match interface.get_type(&import.name) {
                        Some(constructor) => Some(
                            DefinitionLocation {
                                module: Some(import.module.clone()),
                                span: constructor.origin,
                            },
                        ),
                        None => None,
                    }
                } else {
                    match interface.get_value(&import.name) {
                        Some(constructor) => Some(
                            DefinitionLocation {
                                module: Some(import.module.clone()),
                                span: variant_location(&constructor.variant),
                            },
                        ),
                        None => None,
                    }
                },
                None => None,
            },
            Located::Annotation(_, type_) => match &***type_ {
                Type::Named { module, .. } => match type_constructor_from_modules(
                    importable_modules,
                    &**type_,
                ) {
                    Some(constructor) => Some(
                        DefinitionLocation {
                            module: Some(module.clone()),
                            span: constructor.origin,
                        },
                    ),
                    None => None,
                },
                _ => None,
            },
        }
    }
}

/// Where the definition that `variant` stands for is written.
fn variant_location(variant: &ValueConstructorVariant) -> (location: SrcSpan)
    ensures
        location == variant.location(),
{
    match variant {
        ValueConstructorVariant::LocalVariable { location } => *location,
        ValueConstructorVariant::ModuleConstant { location, .. } => *location,
        ValueConstructorVariant::ModuleFn { location, .. } => *location,
        ValueConstructorVariant::Record { location, .. } => *location,
    }
}

} // verus!
