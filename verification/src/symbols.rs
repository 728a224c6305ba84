//! The outline of a module: one symbol for each function, type and constant,
//! with the constructors of a type below it and their labelled fields below
//! them.

use crate::ast::{
    CustomType, Definition, Function, RecordConstructor, RecordConstructorArg, TypedModule,
};
use crate::line_numbers::{range_between, range_of, src_span_to_lsp_range, LineNumbers};
use crate::protocol::{DocumentSymbol, Range, SymbolKind, SymbolTag};
use crate::span::SrcSpan;
use crate::type_::{share, Deprecation, Type};
use std::sync::Arc;
use vstd::prelude::*;

verus! {

/// `text` is what `print` gives for `type_`.
pub open spec fn printed<P: Fn(&Type) -> String>(print: P, type_: Type, text: Seq<char>) -> bool {
    exists|out: String| #[trigger] call_ensures(print, (&type_,), out) && out@ == text
}

/// `print` can be called on every type.
pub open spec fn prints_all<P: Fn(&Type) -> String>(print: P) -> bool {
    forall|type_: &Type| #[trigger] call_requires(print, (type_,))
}

/// `type_` is the type of `function`: from the types of its arguments, in
/// their order, to its return type.
pub open spec fn is_function_type(type_: Type, function: Function) -> bool {
    &&& type_ matches Type::Fn { args, retrn }
    &&& retrn == function.return_type
    &&& args@.len() == function.arguments@.len()
    &&& forall|k: int| 0 <= k < args@.len() ==> args@[k] == function.arguments@[k].type_
}

/// Where the source of something begins: at its documentation, where it has
/// some, else at `start`.
pub open spec fn start_with_documentation(doc_position: Option<u32>, start: u32) -> int {
    match doc_position {
        Some(position) => position as int,
        None => start as int,
    }
}

/// The tags of a symbol: the deprecation mark, or none.
pub open spec fn tags_of(tags: Option<Vec<SymbolTag>>, deprecation: Deprecation) -> bool {
    if deprecation is Deprecated {
        tags matches Some(marks) && marks@ == seq![SymbolTag::Deprecated]
    } else {
        tags is None
    }
}

/// The first `upto` arguments that have a label, in their order.
pub open spec fn labelled_upto(
    arguments: Seq<RecordConstructorArg>,
    upto: int,
) -> Seq<RecordConstructorArg>
    decreases upto,
{
    if upto <= 0 || upto > arguments.len() {
        Seq::empty()
    } else if arguments[upto - 1].label is Some {
        labelled_upto(arguments, upto - 1).push(arguments[upto - 1])
    } else {
        labelled_upto(arguments, upto - 1)
    }
}

/// The arguments that have a label, in their order.
pub open spec fn labelled(arguments: Seq<RecordConstructorArg>) -> Seq<RecordConstructorArg> {
    labelled_upto(arguments, arguments.len() as int)
}

/// `symbol` is the field symbol of the labelled argument `argument`.
pub open spec fn is_field_symbol<P: Fn(&Type) -> String>(
    print: P,
    symbol: DocumentSymbol,
    argument: RecordConstructorArg,
    text: Seq<u8>,
) -> bool {
    &&& argument.label matches Some(label)
    &&& symbol.name@ == label@
    &&& symbol.detail matches Some(detail)
    &&& printed(print, *argument.type_, detail@)
    &&& symbol.kind == SymbolKind::Field
    &&& symbol.tags is None
    &&& symbol.range == range_between(
        text,
        start_with_documentation(argument.doc_position, argument.location.start),
        argument.location.end as int,
    )
    &&& symbol.selection_range == range_of(
        text,
        match argument.label_location {
            Some(location) => location,
            None => argument.location,
        },
    )
    &&& symbol.children is None
}

/// Where the source of a constructor ends: one past its last argument, or
/// after its name where it has no argument.
pub open spec fn constructor_end(constructor: RecordConstructor) -> int {
    if constructor.arguments@.len() > 0 {
        constructor.arguments@.last().location.end + 1
    } else {
        constructor.location.end as int
    }
}

/// `symbol` is the symbol of `constructor`, with one field symbol for each
/// labelled argument.
pub open spec fn is_constructor_symbol<P: Fn(&Type) -> String>(
    print: P,
    symbol: DocumentSymbol,
    constructor: RecordConstructor,
    text: Seq<u8>,
) -> bool {
    &&& symbol.name@ == constructor.name@
    &&& symbol.detail is None
    &&& symbol.kind == if constructor.arguments@.len() == 0 {
        SymbolKind::EnumMember
    } else {
        SymbolKind::Constructor
    }
    &&& symbol.tags is None
    &&& symbol.range == range_between(
        text,
        start_with_documentation(constructor.doc_position, constructor.location.start),
        constructor_end(constructor),
    )
    &&& symbol.selection_range == range_of(text, constructor.location)
    &&& symbol.children matches Some(fields)
    &&& fields@.len() == labelled(constructor.arguments@).len()
    &&& forall|k: int|
        0 <= k < fields@.len() ==> is_field_symbol(
            print,
            #[trigger] fields@[k],
            labelled(constructor.arguments@)[k],
            text,
        )
}

/// Where the source of a custom type ends: at the end of the last argument
/// of its last constructor, or, where that constructor has no argument or
/// the type no constructor, where the definition ends.
pub open spec fn custom_type_end(type_: CustomType) -> int {
    if type_.constructors@.len() > 0 && type_.constructors@.last().arguments@.len() > 0 {
        type_.constructors@.last().arguments@.last().location.end as int
    } else {
        type_.end_position as int
    }
}

/// `symbol` is the symbol of the custom type `type_`, with one symbol for
/// each constructor.
pub open spec fn is_custom_type_symbol<P: Fn(&Type) -> String>(
    print: P,
    symbol: DocumentSymbol,
    type_: CustomType,
    text: Seq<u8>,
) -> bool {
    &&& symbol.name@ == type_.name@
    &&& symbol.detail is None
    &&& symbol.kind == SymbolKind::Class
    &&& tags_of(symbol.tags, type_.deprecation)
    &&& symbol.range == range_between(
        text,
        start_with_documentation(type_.doc_position, type_.location.start),
        custom_type_end(type_),
    )
    &&& symbol.selection_range == range_of(text, type_.name_location)
    &&& symbol.children matches Some(constructors)
    &&& constructors@.len() == type_.constructors@.len()
    &&& forall|k: int|
        0 <= k < constructors@.len() ==> is_constructor_symbol(
            print,
            #[trigger] constructors@[k],
            type_.constructors@[k],
            text,
        )
}

/// `symbol` is the symbol of `definition`, which is not an import.
pub open spec fn is_definition_symbol<P: Fn(&Type) -> String>(
    print: P,
    symbol: DocumentSymbol,
    definition: Definition,
    text: Seq<u8>,
) -> bool {
    match definition {
        Definition::Function(function) => {
            &&& symbol.name@ == function.name@
            &&& symbol.detail matches Some(detail)
            &&& exists|type_: Type| #[trigger]
                is_function_type(type_, function) && printed(print, type_, detail@)
            &&& symbol.kind == SymbolKind::Function
            &&& tags_of(symbol.tags, function.deprecation)
            &&& symbol.range == range_between(
                text,
                start_with_documentation(function.doc_position, function.location.start),
                function.end_position as int,
            )
            &&& symbol.selection_range == range_of(
                text,
                match function.name_location {
                    Some(location) => location,
                    None => function.location,
                },
            )
            &&& symbol.children is None
        },
        Definition::TypeAlias(alias) => {
            &&& symbol.name@ == alias.alias@
            &&& symbol.detail matches Some(detail)
            &&& printed(print, *alias.type_, detail@)
            &&& symbol.kind == SymbolKind::Class
            &&& tags_of(symbol.tags, alias.deprecation)
            &&& symbol.range == range_between(
                text,
                start_with_documentation(alias.doc_position, alias.location.start),
                alias.location.end as int,
            )
            &&& symbol.selection_range == range_of(text, alias.alias_location)
            &&& symbol.children is None
        },
        Definition::CustomType(type_) => is_custom_type_symbol(print, symbol, type_, text),
        Definition::Import(_) => false,
        Definition::ModuleConstant(constant) => {
            &&& symbol.name@ == constant.name@
            &&& symbol.detail matches Some(detail)
            &&& printed(print, *constant.type_, detail@)
            &&& symbol.kind == SymbolKind::Constant
            &&& tags_of(symbol.tags, constant.deprecation)
            &&& symbol.range == range_between(
                text,
                start_with_documentation(constant.doc_position, constant.location.start),
                constant.value_location.end as int,
            )
            &&& symbol.selection_range == range_of(text, constant.location)
            &&& symbol.children is None
        },
    }
}

/// The first `upto` definitions that get a symbol: all but the imports.
pub open spec fn outlined_upto(definitions: Seq<Definition>, upto: int) -> Seq<Definition>
    decreases upto,
{
    if upto <= 0 || upto > definitions.len() {
        Seq::empty()
    } else if definitions[upto - 1] is Import {
        outlined_upto(definitions, upto - 1)
    } else {
        outlined_upto(definitions, upto - 1).push(definitions[upto - 1])
    }
}

/// The definitions that get a symbol, in the order in which they are written.
pub open spec fn outlined(definitions: Seq<Definition>) -> Seq<Definition> {
    outlined_upto(definitions, definitions.len() as int)
}

/// `symbols` is the outline of `definitions`.
pub open spec fn is_outline<P: Fn(&Type) -> String>(
    print: P,
    symbols: Seq<DocumentSymbol>,
    definitions: Seq<Definition>,
    text: Seq<u8>,
) -> bool {
    &&& symbols.len() == outlined(definitions).len()
    &&& forall|k: int|
        0 <= k < symbols.len() ==> is_definition_symbol(
            print,
            #[trigger] symbols[k],
            outlined(definitions)[k],
            text,
        )
}

/// The type of a function, made of the types of its arguments and of its
/// return type.
pub fn get_function_type(fun: &Function) -> (type_: Type)
    ensures
        is_function_type(type_, *fun),
{
    let mut args: Vec<Arc<Type>> = Vec::new();
    let mut at: usize = 0;
    while at < fun.arguments.len()
        invariant
            at <= fun.arguments@.len(),
            args@.len() == at,
            forall|k: int| 0 <= k < at ==> args@[k] == fun.arguments@[k].type_,
        decreases fun.arguments@.len() - at,
    {
        args.push(share(&fun.arguments[at].type_));
        at += 1;
    }
    Type::Fn { args, retrn: share(&fun.return_type) }
}

/// The deprecation tag of a symbol whose definition is deprecated.
pub fn make_deprecated_symbol_tag(deprecation: &Deprecation) -> (tags: Option<Vec<SymbolTag>>)
    ensures
        tags_of(tags, *deprecation),
{
    if deprecation.is_deprecated() {
        let mut marks: Vec<SymbolTag> = Vec::new();
        marks.push(SymbolTag::Deprecated);
        Some(marks)
    } else {
        None
    }
}

/// The range from `start`, or from the documentation where there is some, to
/// `end`; `and_one` takes in one more byte.
fn documented_range(
    doc_position: Option<u32>,
    start: u32,
    end: u32,
    and_one: bool,
    line_numbers: &LineNumbers,
) -> (range: Range)
    ensures
        range == range_between(
            line_numbers@,
            start_with_documentation(doc_position, start),
            if and_one {
                end + 1
            } else {
                end as int
            },
        ),
{
    let length: u32 = line_numbers.length();
    let first: u32 = match doc_position {
        Some(position) => position,
        None => start,
    };
    let last: u32 = if and_one && end < u32::MAX {
        end + 1
    } else {
        end
    };
    src_span_to_lsp_range(SrcSpan::new(first, last), line_numbers)
}

/// The field symbols of the labelled arguments of a constructor.
fn field_symbols<P: Fn(&Type) -> String>(
    constructor: &RecordConstructor,
    line_numbers: &LineNumbers,
    print: &P,
) -> (fields: Vec<DocumentSymbol>)
    requires
        prints_all(*print),
    ensures
        fields@.len() == labelled(constructor.arguments@).len(),
        forall|k: int|
            0 <= k < fields@.len() ==> is_field_symbol(
                *print,
                #[trigger] fields@[k],
                labelled(constructor.arguments@)[k],
                line_numbers@,
            ),
{
    let mut fields: Vec<DocumentSymbol> = Vec::new();
    let mut at: usize = 0;
    while at < constructor.arguments.len()
        invariant
            prints_all(*print),
            at <= constructor.arguments@.len(),
            fields@.len() == labelled_upto(constructor.arguments@, at as int).len(),
            forall|k: int|
                0 <= k < fields@.len() ==> is_field_symbol(
                    *print,
                    #[trigger] fields@[k],
                    labelled_upto(constructor.arguments@, at as int)[k],
                    line_numbers@,
                ),
        decreases constructor.arguments@.len() - at,
    {
        let argument = &constructor.arguments[at];
        if let Some(label) = &argument.label {
            let detail = print(&*argument.type_);
            let selection = match argument.label_location {
                Some(location) => location,
                None => argument.location,
            };
            fields.push(
                DocumentSymbol {
                    name: label.clone(),
                    detail: Some(detail),
                    kind: SymbolKind::Field,
                    tags: None,
                    range: documented_range(
                        argument.doc_position,
                        argument.location.start,
                        argument.location.end,
                        false,
                        line_numbers,
                    ),
                    selection_range: src_span_to_lsp_range(selection, line_numbers),
                    children: None,
                },
            );
        }
        at += 1;
    }
    fields
}

/// The symbol of a custom type, with its constructors and their fields.
pub fn custom_type_symbol<P: Fn(&Type) -> String>(
    type_: &CustomType,
    line_numbers: &LineNumbers,
    print: &P,
) -> (symbol: DocumentSymbol)
    requires
        prints_all(*print),
    ensures
        is_custom_type_symbol(*print, symbol, *type_, line_numbers@),
{
    let mut constructors: Vec<DocumentSymbol> = Vec::new();
    let mut at: usize = 0;
    while at < type_.constructors.len()
        invariant
            prints_all(*print),
            at <= type_.constructors@.len(),
            constructors@.len() == at,
            forall|k: int|
                0 <= k < at ==> is_constructor_symbol(
                    *print,
                    #[trigger] constructors@[k],
                    type_.constructors@[k],
                    line_numbers@,
                ),
        decreases type_.constructors@.len() - at,
    {
        let constructor = &type_.constructors[at];
        let fields = field_symbols(constructor, line_numbers, print);
        let count: usize = constructor.arguments.len();
        let range = if count > 0 {
            documented_range(
                constructor.doc_position,
                constructor.location.start,
                constructor.arguments[count - 1].location.end,
                true,
                line_numbers,
            )
        } else {
            documented_range(
                constructor.doc_position,
                constructor.location.start,
                constructor.location.end,
                false,
                line_numbers,
            )
        };
        constructors.push(
            DocumentSymbol {
                name: constructor.name.clone(),
                detail: None,
                kind: if count == 0 {
                    SymbolKind::EnumMember
                } else {
                    SymbolKind::Constructor
                },
                tags: None,
                range,
                selection_range: src_span_to_lsp_range(constructor.location, line_numbers),
                children: Some(fields),
            },
        );
        at += 1;
    }
    let count: usize = type_.constructors.len();
    let end: u32 = if count > 0 && type_.constructors[count - 1].arguments.len() > 0 {
        let last = &type_.constructors[count - 1];
        last.arguments[last.arguments.len() - 1].location.end
    } else {
        type_.end_position
    };
    DocumentSymbol {
        name: type_.name.clone(),
        detail: None,
        kind: SymbolKind::Class,
        tags: make_deprecated_symbol_tag(&type_.deprecation),
        range: documented_range(
            type_.doc_position,
            type_.location.start,
            end,
            false,
            line_numbers,
        ),
        selection_range: src_span_to_lsp_range(type_.name_location, line_numbers),
        children: Some(constructors),
    }
}

/// The outline of a module: the symbols of its definitions, in their order.
/// An import has no symbol.
pub fn document_symbols<P: Fn(&Type) -> String>(
    ast: &TypedModule,
    line_numbers: &LineNumbers,
    print: &P,
) -> (symbols: Vec<DocumentSymbol>)
    requires
        prints_all(*print),
    ensures
        is_outline(*print, symbols@, ast.definitions@, line_numbers@),
{
    let mut symbols: Vec<DocumentSymbol> = Vec::new();
    let mut at: usize = 0;
    while at < ast.definitions.len()
        invariant
            prints_all(*print),
            at <= ast.definitions@.len(),
            symbols@.len() == outlined_upto(ast.definitions@, at as int).len(),
            forall|k: int|
                0 <= k < symbols@.len() ==> is_definition_symbol(
                    *print,
                    #[trigger] symbols@[k],
                    outlined_upto(ast.definitions@, at as int)[k],
                    line_numbers@,
                ),
        decreases ast.definitions@.len() - at,
    {
        match &ast.definitions[at] {
            Definition::Function(function) => {
                let type_ = get_function_type(function);
                let detail = print(&type_);
                let selection = match function.name_location {
                    Some(location) => location,
                    None => function.location,
                };
                symbols.push(
                    DocumentSymbol {
                        name: function.name.clone(),
                        detail: Some(detail),
                        kind: SymbolKind::Function,
                        tags: make_deprecated_symbol_tag(&function.deprecation),
                        range: documented_range(
                            function.doc_position,
                            function.location.start,
                            function.end_position,
                            false,
                            line_numbers,
                        ),
                        selection_range: src_span_to_lsp_range(selection, line_numbers),
                        children: None,
                    },
                );
            },
            Definition::TypeAlias(alias) => {
                let detail = print(&*alias.type_);
                symbols.push(
                    DocumentSymbol {
                        name: alias.alias.clone(),
                        detail: Some(detail),
                        kind: SymbolKind::Class,
                        tags: make_deprecated_symbol_tag(&alias.deprecation),
                        range: documented_range(
                            alias.doc_position,
                            alias.location.start,
                            alias.location.end,
                            false,
                            line_numbers,
                        ),
                        selection_range: src_span_to_lsp_range(alias.alias_location, line_numbers),
                        children: None,
                    },
                );
            },
            Definition::CustomType(type_) => {
                symbols.push(custom_type_symbol(type_, line_numbers, print));
            },
            Definition::Import(_) => {},
            Definition::ModuleConstant(constant) => {
                let detail = print(&*constant.type_);
                symbols.push(
                    DocumentSymbol {
                        name: constant.name.clone(),
                        detail: Some(detail),
                        kind: SymbolKind::Constant,
                        tags: make_deprecated_symbol_tag(&constant.deprecation),
                        range: documented_range(
                            constant.doc_position,
                            constant.location.start,
                            constant.value_location.end,
                            false,
                            line_numbers,
                        ),
                        selection_range: src_span_to_lsp_range(constant.location, line_numbers),
                        children: None,
                    },
                );
            },
        }
        at += 1;
    }
    symbols
}

} // verus!
