//! Types as they were resolved for a module, and what a module offers to the
//! modules that import it.

use crate::span::SrcSpan;
use std::sync::Arc;
use vstd::prelude::*;

verus! {

/// A resolved type.
#[derive(Debug, Clone, PartialEq, Eq)]
pub enum Type {
    /// A type with a name, such as `Int` or `List(a)`.
    Named { package: String, module: String, name: String, args: Vec<Arc<Type>> },
    /// The type of a function.
    Fn { args: Vec<Arc<Type>>, retrn: Arc<Type> },
    /// A type variable.
    Var { id: u64 },
    /// A tuple of types.
    Tuple { elems: Vec<Arc<Type>> },
}

/// Whether a definition is marked as one that callers should move away from.
#[derive(Debug, Clone, PartialEq, Eq)]
pub enum Deprecation {
    NotDeprecated,
    Deprecated { message: String },
}

impl Deprecation {
    pub fn is_deprecated(&self) -> (deprecated: bool)
        ensures
            deprecated == (self is Deprecated),
    {
        match self {
            Deprecation::NotDeprecated => false,
            Deprecation::Deprecated { .. } => true,
        }
    }
}

/// Who may use a definition.
#[derive(Debug, Clone, Copy, PartialEq, Eq, Structural)]
pub enum Publicity {
    Public,
    Private,
    Internal,
}

impl Publicity {
    /// Whether another module can import the definition: anything but a
    /// private one.
    pub fn is_importable(&self) -> (importable: bool)
        ensures
            importable == !(*self is Private),
    {
        match self {
            Publicity::Private => false,
            Publicity::Public => true,
            Publicity::Internal => true,
        }
    }
}

/// What a name in an expression stands for.
#[derive(Debug, Clone, PartialEq, Eq)]
pub enum ValueConstructorVariant {
    /// A variable of the enclosing function.
    LocalVariable { location: SrcSpan },
    /// A constant defined in `module`.
    ModuleConstant { documentation: Option<String>, location: SrcSpan, module: String },
    /// A function defined in `module`.
    ModuleFn { documentation: Option<String>, location: SrcSpan, module: String },
    /// A constructor of a custom type defined in `module`.
    Record { documentation: Option<String>, location: SrcSpan, module: String },
}

/// A value that a name resolves to, with its type.
#[derive(Debug, Clone, PartialEq, Eq)]
pub struct ValueConstructor {
    pub publicity: Publicity,
    pub variant: ValueConstructorVariant,
    pub type_: Arc<Type>,
}

/// A type that a module defines.
#[derive(Debug, Clone, PartialEq, Eq)]
pub struct TypeConstructor {
    /// Where the type is defined in its module.
    pub origin: SrcSpan,
    pub typ: Arc<Type>,
    pub documentation: Option<String>,
}

/// Something that a module exports, under its name.
#[derive(Debug, PartialEq, Eq)]
pub struct Export<T> {
    pub name: String,
    pub constructor: T,
}

/// What a module exports of one kind, by name. No name occurs twice.
#[derive(Debug, PartialEq, Eq)]
pub struct Exports<T> {
    entries: Vec<Export<T>>,
}

impl<T> Exports<T> {
    #[verifier::type_invariant]
    spec fn no_name_twice(self) -> bool {
        forall|j: int, k: int|
            0 <= j < k < self.entries@.len() ==> (#[trigger] self.entries@[j]).name@ != (
            #[trigger] self.entries@[k]).name@
    }

    /// The exports, in the order in which their names were first put in.
    pub closed spec fn entries(self) -> Seq<Export<T>> {
        self.entries@
    }

    /// The index of the first export from `from` on that is named `name`, or
    /// the number of exports where there is none.
    pub open spec fn index_of(self, name: Seq<char>, from: int) -> int
        decreases self.entries().len() - from,
    {
        if from < 0 || from >= self.entries().len() {
            self.entries().len() as int
        } else if self.entries()[from].name@ == name {
            from
        } else {
            self.index_of(name, from + 1)
        }
    }

    /// The export named `name`.
    pub open spec fn named(self, name: Seq<char>) -> Option<T> {
        let index = self.index_of(name, 0);
        if 0 <= index < self.entries().len() {
            Some(self.entries()[index].constructor)
        } else {
            None
        }
    }

    /// The exports with one more: it takes the place of the export of the
    /// same name, or comes last where there is none.
    pub open spec fn with(self, name: String, constructor: T) -> Seq<Export<T>> {
        let index = self.index_of(name@, 0);
        if 0 <= index < self.entries().len() {
            self.entries().update(index, Export { name, constructor })
        } else {
            self.entries().push(Export { name, constructor })
        }
    }

    /// No exports.
    pub fn new() -> (exports: Exports<T>)
        ensures
            exports.entries() == Seq::<Export<T>>::empty(),
    {
        Exports { entries: Vec::new() }
    }

    /// The number of exports.
    pub fn len(&self) -> (count: usize)
        ensures
            count == self.entries().len(),
    {
        self.entries.len()
    }

    /// Puts an export in: it takes the place of the export of the same
    /// name, or comes last where there is none.
    pub fn insert(&mut self, name: String, constructor: T)
        ensures
            final(self).entries() == old(self).with(name, constructor),
    {
        proof {
            use_type_invariant(&*self);
        }
        let mut entries: Vec<Export<T>> = Vec::new();
        std::mem::swap(&mut self.entries, &mut entries);
        let mut at: usize = 0;
        while at < entries.len() && entries[at].name != name
            invariant
                at <= entries@.len(),
                entries@ == old(self).entries@,
                old(self).index_of(name@, at as int) == old(self).index_of(name@, 0),
                forall|k: int| 0 <= k < at ==> (#[trigger] entries@[k]).name@ != name@,
            decreases entries@.len() - at,
        {
            at += 1;
        }
        if at < entries.len() {
            entries.set(at, Export { name, constructor });
        } else {
            entries.push(Export { name, constructor });
        }
        self.entries = entries;
    }

    /// The export named `name`.
    pub fn get(&self, name: &String) -> (found: Option<&T>)
        ensures
            found.is_some() == self.named(name@).is_some(),
            found matches Some(constructor) ==> Some(*constructor) == self.named(name@),
    {
        let mut at: usize = 0;
        while at < self.entries.len()
            invariant
                at <= self.entries@.len(),
                self.index_of(name@, at as int) == self.index_of(name@, 0),
            decreases self.entries@.len() - at,
        {
            if self.entries[at].name == *name {
                return Some(&self.entries[at].constructor);
            }
            at += 1;
        }
        None
    }
}

/// What a module offers to its importers.
#[derive(Debug, PartialEq, Eq)]
pub struct ModuleInterface {
    pub name: String,
    pub package: String,
    pub types: Exports<TypeConstructor>,
    pub values: Exports<ValueConstructor>,
}

/// The text of an optional piece of documentation: empty where there is none.
pub open spec fn text_or_empty(text: Option<String>) -> Seq<char> {
    match text {
        Some(text) => text@,
        None => Seq::empty(),
    }
}

impl ValueConstructorVariant {
    /// The documentation written for the definition this stands for.
    pub open spec fn documentation(self) -> Option<String> {
        match self {
            ValueConstructorVariant::LocalVariable { .. } => None,
            ValueConstructorVariant::ModuleConstant { documentation, .. } => documentation,
            ValueConstructorVariant::ModuleFn { documentation, .. } => documentation,
            ValueConstructorVariant::Record { documentation, .. } => documentation,
        }
    }

    /// The module that defines it, unless it is local.
    pub open spec fn module(self) -> Option<String> {
        match self {
            ValueConstructorVariant::LocalVariable { .. } => None,
            ValueConstructorVariant::ModuleConstant { module, .. } => Some(module),
            ValueConstructorVariant::ModuleFn { module, .. } => Some(module),
            ValueConstructorVariant::Record { module, .. } => Some(module),
        }
    }

    /// Where it is defined in its module.
    pub open spec fn location(self) -> SrcSpan {
        match self {
            ValueConstructorVariant::LocalVariable { location } => location,
            ValueConstructorVariant::ModuleConstant { location, .. } => location,
            ValueConstructorVariant::ModuleFn { location, .. } => location,
            ValueConstructorVariant::Record { location, .. } => location,
        }
    }
}

impl ValueConstructor {
    pub fn get_documentation(&self) -> (documentation: Option<&String>)
        ensures
            documentation.is_some() == self.variant.documentation().is_some(),
            documentation matches Some(text) ==> Some(*text) == self.variant.documentation(),
    {
        match &self.variant {
            ValueConstructorVariant::LocalVariable { .. } => None,
            ValueConstructorVariant::ModuleConstant { documentation, .. } => documentation.as_ref(),
            ValueConstructorVariant::ModuleFn { documentation, .. } => documentation.as_ref(),
            ValueConstructorVariant::Record { documentation, .. } => documentation.as_ref(),
        }
    }
}

impl ModuleInterface {
    /// The exported type named `name`.
    pub open spec fn type_named(self, name: Seq<char>) -> Option<TypeConstructor> {
        self.types.named(name)
    }

    /// The exported value named `name`.
    pub open spec fn value_named(self, name: Seq<char>) -> Option<ValueConstructor> {
        self.values.named(name)
    }

    /// The exported type named `name`.
    pub fn get_type(&self, name: &String) -> (found: Option<&TypeConstructor>)
        ensures
            found.is_some() == self.type_named(name@).is_some(),
            found matches Some(constructor) ==> Some(*constructor) == self.type_named(name@),
    {
        self.types.get(name)
    }

    /// The exported value named `name`.
    pub fn get_value(&self, name: &String) -> (found: Option<&ValueConstructor>)
        ensures
            found.is_some() == self.value_named(name@).is_some(),
            found matches Some(constructor) ==> Some(*constructor) == self.value_named(name@),
    {
        self.values.get(name)
    }
}

/// `Arc::clone`: a second handle to the value that `type_` shares. The two
/// handles stand for the same value.
#[verifier::external_body]
pub(crate) fn share(type_: &Arc<Type>) -> (shared: Arc<Type>)
    ensures
        shared == *type_,
{
    Arc::clone(type_)
}

} // verus!
