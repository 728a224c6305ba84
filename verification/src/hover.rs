//! What is shown for the thing under the cursor: its type, its documentation
//! and, for a value of a package from the registry, a link to the package's
//! documentation.

use crate::ast::{Arg, Definition, Function, ModuleConstant, TypedExpr, TypedModule, TypedPattern};
use crate::line_numbers::{range_of, src_span_to_lsp_range, LineNumbers};
use crate::module::Module;
use crate::protocol::Hover;
use crate::span::SrcSpan;
use crate::symbols::{get_function_type, is_function_type, printed, prints_all};
use crate::type_::{
    text_or_empty, ModuleInterface, Type, TypeConstructor, ValueConstructor,
    ValueConstructorVariant,
};
use vstd::prelude::*;
use vstd::string::*;

verus! {

/// The text of a hover: the type in a code block, then the documentation and
/// the link section.
pub open spec fn hover_text(type_text: Seq<char>, documentation: Seq<char>, link: Seq<char>) -> Seq<
    char,
> {
    "```gleam\n"@ + type_text + "\n```\n"@ + documentation + link
}

/// The text of a hover that shows nothing but a type.
pub open spec fn bare_hover_text(type_text: Seq<char>) -> Seq<char> {
    "```gleam\n"@ + type_text + "\n```"@
}

/// `hover` shows `type_` as `print` renders it, then `documentation` and
/// `link`, for the source at `location`.
pub open spec fn is_hover<P: Fn(&Type) -> String>(
    print: P,
    hover: Hover,
    type_: Type,
    documentation: Seq<char>,
    link: Seq<char>,
    location: SrcSpan,
    text: Seq<u8>,
) -> bool {
    &&& exists|type_text: Seq<char>| #[trigger]
        printed(print, type_, type_text) && hover.contents@ == hover_text(
            type_text,
            documentation,
            link,
        )
    &&& hover.range == Some(range_of(text, location))
}

/// The link section for the member `name` of the module `module_name` of the
/// package `package_name`.
pub open spec fn hexdocs_link_text(
    package_name: Seq<char>,
    module_name: Seq<char>,
    name: Seq<char>,
) -> Seq<char> {
    "\nView on [HexDocs](https://hexdocs.pm/"@ + package_name + "/"@ + module_name + ".html#"@
        + name + ")"@
}

/// `name` is one of `names`.
pub open spec fn has_name(names: Seq<String>, name: Seq<char>) -> bool {
    exists|k: int| 0 <= k < names.len() && (#[trigger] names[k])@ == name
}

/// The definition is an import of the module `module_name` from a package
/// that is one of `hex_deps`.
pub open spec fn imports_from_registry(
    definition: Definition,
    module_name: Seq<char>,
    hex_deps: Seq<String>,
) -> bool {
    definition matches Definition::Import(import) && import.module@ == module_name && has_name(
        hex_deps,
        import.package@,
    )
}

/// The index of the first definition from `from` on that imports the module
/// from the registry, or the number of definitions where none does.
pub open spec fn registry_import_index(
    definitions: Seq<Definition>,
    module_name: Seq<char>,
    hex_deps: Seq<String>,
    from: int,
) -> int
    decreases definitions.len() - from,
{
    if from < 0 || from >= definitions.len() {
        definitions.len() as int
    } else if imports_from_registry(definitions[from], module_name, hex_deps) {
        from
    } else {
        registry_import_index(definitions, module_name, hex_deps, from + 1)
    }
}

/// The link section for a reference to `module_name.name`, made in a module
/// with the definitions `definitions`: it needs an import of `module_name`
/// whose package comes from the registry.
pub open spec fn link_section_of(
    module_name: Seq<char>,
    name: Seq<char>,
    definitions: Seq<Definition>,
    hex_deps: Seq<String>,
) -> Option<Seq<char>> {
    let index = registry_import_index(definitions, module_name, hex_deps, 0);
    if 0 <= index < definitions.len() {
        Some(hexdocs_link_text(definitions[index]->Import_0.package@, module_name, name))
    } else {
        None
    }
}

/// The module and the name that an expression refers to, where it refers to
/// a function or a constant that another module can import.
pub open spec fn qualified_name_of(expression: TypedExpr) -> Option<(Seq<char>, Seq<char>)> {
    match expression {
        TypedExpr::Var { name, constructor, .. } => if constructor.publicity is Private {
            None
        } else {
            match constructor.variant {
                ValueConstructorVariant::ModuleFn { module, .. } => Some((module@, name@)),
                ValueConstructorVariant::ModuleConstant { module, .. } => Some((module@, name@)),
                _ => None,
            }
        },
        TypedExpr::ModuleSelect { label, module_name, .. } => Some((module_name@, label@)),
        TypedExpr::Other { .. } => None,
    }
}

/// The link section of the hover for an expression of the module `module`:
/// empty where the module is not known, the expression refers to nothing that
/// can be imported, or the import is not one from the registry.
pub open spec fn expression_link(
    expression: TypedExpr,
    module: Option<&Module>,
    hex_deps: Seq<String>,
) -> Seq<char> {
    match (module, qualified_name_of(expression)) {
        (Some(module), Some((module_name, name))) => match link_section_of(
            module_name,
            name,
            module.ast.definitions@,
            hex_deps,
        ) {
            Some(link) => link,
            None => Seq::empty(),
        },
        _ => Seq::empty(),
    }
}

/// Whether `name` is one of `names`.
pub fn contains_name(names: &Vec<String>, name: &String) -> (found: bool)
    ensures
        found == has_name(names@, name@),
{
    let mut at: usize = 0;
    while at < names.len()
        invariant
            at <= names@.len(),
            forall|k: int| 0 <= k < at ==> (#[trigger] names@[k])@ != name@,
        decreases names@.len() - at,
    {
        if names[at] == *name {
            return true;
        }
        at += 1;
    }
    false
}

/// The link section: a line that leads to the documentation of `name` in the
/// module `module_name` of the package `package_name`.
pub fn format_hexdocs_link_section(package_name: &str, module_name: &str, name: &str) -> (section:
    String)
    ensures
        section@ == hexdocs_link_text(package_name@, module_name@, name@),
{
    let mut section = String::from_str("\nView on [HexDocs](https://hexdocs.pm/");
    section.append(package_name);
    section.append("/");
    section.append(module_name);
    section.append(".html#");
    section.append(name);
    section.append(")");
    section
}

/// The link section for a reference to `module_name.name` made in the module
/// `ast`, if `ast` imports `module_name` from a package of the registry.
pub fn get_hexdocs_link_section(
    module_name: &String,
    name: &String,
    ast: &TypedModule,
    hex_deps: &Vec<String>,
) -> (section: Option<String>)
    ensures
        section.is_some() == link_section_of(
            module_name@,
            name@,
            ast.definitions@,
            hex_deps@,
        ).is_some(),
        section matches Some(text) ==> Some(text@) == link_section_of(
            module_name@,
            name@,
            ast.definitions@,
            hex_deps@,
        ),
{
    let mut at: usize = 0;
    while at < ast.definitions.len()
        invariant
            at <= ast.definitions@.len(),
            registry_import_index(ast.definitions@, module_name@, hex_deps@, at as int)
                == registry_import_index(ast.definitions@, module_name@, hex_deps@, 0),
        decreases ast.definitions@.len() - at,
    {
        if let Definition::Import(import) = &ast.definitions[at] {
            if import.module == *module_name && contains_name(hex_deps, &import.package) {
                return Some(
                    format_hexdocs_link_section(
                        import.package.as_str(),
                        module_name.as_str(),
                        name.as_str(),
                    ),
                );
            }
        }
        at += 1;
    }
    None
}

/// The module and the name that an expression refers to, where it refers to
/// a function or a constant that another module can import.
pub fn get_expr_qualified_name(expression: &TypedExpr) -> (names: Option<(&String, &String)>)
    ensures
        names.is_some() == qualified_name_of(*expression).is_some(),
        names matches Some((module, name)) ==> Some((module@, name@)) == qualified_name_of(
            *expression,
        ),
{
    match expression {
        TypedExpr::Var { name, constructor, .. } => {
            if constructor.publicity.is_importable() {
                match &constructor.variant {
                    ValueConstructorVariant::ModuleFn { module, .. } => Some((module, name)),
                    ValueConstructorVariant::ModuleConstant { module, .. } => Some((module, name)),
                    _ => None,
                }
            } else {
                None
            }
        },
        TypedExpr::ModuleSelect { label, module_name, .. } => Some((module_name, label)),
        TypedExpr::Other { .. } => None,
    }
}

/// The text of an optional documentation, empty where there is none.
fn documentation_text(documentation: Option<&String>) -> (text: &str)
    ensures
        text@ == match documentation {
            Some(documentation) => documentation@,
            None => Seq::empty(),
        },
{
    match documentation {
        Some(documentation) => documentation.as_str(),
        None => {
            proof {
                reveal_strlit("");
            }
            assert(""@ =~= Seq::<char>::empty());
            ""
        },
    }
}

/// A hover with the type, the documentation and the link section.
fn make_hover<P: Fn(&Type) -> String>(
    type_: &Type,
    documentation: &str,
    link: &str,
    location: SrcSpan,
    line_numbers: &LineNumbers,
    print: &P,
) -> (hover: Hover)
    requires
        prints_all(*print),
    ensures
        is_hover(*print, hover, *type_, documentation@, link@, location, line_numbers@),
{
    let type_text = print(type_);
    let mut contents = String::from_str("```gleam\n");
    contents.append(type_text.as_str());
    contents.append("\n```\n");
    contents.append(documentation);
    contents.append(link);
    assert(printed(*print, *type_, type_text@));
    Hover { contents, range: Some(src_span_to_lsp_range(location, line_numbers)) }
}

/// The hover for a pattern: its type and the documentation of the
/// constructor that it names.
pub fn hover_for_pattern<P: Fn(&Type) -> String>(
    pattern: &TypedPattern,
    line_numbers: &LineNumbers,
    print: &P,
) -> (hover: Hover)
    requires
        prints_all(*print),
    ensures
        is_hover(
            *print,
            hover,
            *pattern.type_,
            text_or_empty(pattern.documentation),
            Seq::empty(),
            pattern.location,
            line_numbers@,
        ),
{
    let documentation = documentation_text(pattern.documentation.as_ref());
    let none = documentation_text(None);
    make_hover(&*pattern.type_, documentation, none, pattern.location, line_numbers, print)
}

/// The hover for the head of a function: the type of the function and its
/// documentation.
pub fn hover_for_function_head<P: Fn(&Type) -> String>(
    fun: &Function,
    line_numbers: &LineNumbers,
    print: &P,
) -> (hover: Hover)
    requires
        prints_all(*print),
    ensures
        exists|type_: Type| #[trigger]
            is_function_type(type_, *fun) && is_hover(
                *print,
                hover,
                type_,
                text_or_empty(fun.documentation),
                Seq::empty(),
                fun.location,
                line_numbers@,
            ),
{
    let documentation = documentation_text(fun.documentation.as_ref());
    let function_type = get_function_type(fun);
    let none = documentation_text(None);
    make_hover(&function_type, documentation, none, fun.location, line_numbers, print)
}

/// The hover for an argument of a function: its type and nothing else.
pub fn hover_for_function_argument<P: Fn(&Type) -> String>(
    argument: &Arg,
    line_numbers: &LineNumbers,
    print: &P,
) -> (hover: Hover)
    requires
        prints_all(*print),
    ensures
        exists|type_text: Seq<char>| #[trigger]
            printed(*print, *argument.type_, type_text) && hover.contents@ == bare_hover_text(
                type_text,
            ),
        hover.range == Some(range_of(line_numbers@, argument.location)),
{
    let type_text = print(&*argument.type_);
    let mut contents = String::from_str("```gleam\n");
    contents.append(type_text.as_str());
    contents.append("\n```");
    assert(printed(*print, *argument.type_, type_text@));
    Hover { contents, range: Some(src_span_to_lsp_range(argument.location, line_numbers)) }
}

/// The hover for a type written in the source: the type and, where its
/// definition is known, the documentation of the definition.
pub fn hover_for_annotation<P: Fn(&Type) -> String>(
    location: SrcSpan,
    annotation_type: &Type,
    type_constructor: Option<&TypeConstructor>,
    line_numbers: &LineNumbers,
    print: &P,
) -> (hover: Hover)
    requires
        prints_all(*print),
    ensures
        is_hover(
            *print,
            hover,
            *annotation_type,
            match type_constructor {
                Some(constructor) => text_or_empty(constructor.documentation),
                None => Seq::empty(),
            },
            Seq::empty(),
            location,
            line_numbers@,
        ),
{
    let documentation = match type_constructor {
        Some(constructor) => documentation_text(constructor.documentation.as_ref()),
        None => documentation_text(None),
    };
    let none = documentation_text(None);
    make_hover(annotation_type, documentation, none, location, line_numbers, print)
}

/// The hover for a constant of the module: its type and its documentation.
pub fn hover_for_module_constant<P: Fn(&Type) -> String>(
    constant: &ModuleConstant,
    line_numbers: &LineNumbers,
    print: &P,
) -> (hover: Hover)
    requires
        prints_all(*print),
    ensures
        is_hover(
            *print,
            hover,
            *constant.type_,
            text_or_empty(constant.documentation),
            Seq::empty(),
            constant.location,
            line_numbers@,
        ),
{
    let documentation = documentation_text(constant.documentation.as_ref());
    let none = documentation_text(None);
    make_hover(&*constant.type_, documentation, none, constant.location, line_numbers, print)
}

/// The hover for an expression: its type, the documentation of what it
/// refers to and, where that comes from a package of the registry, the link
/// to the documentation of the package.
pub fn hover_for_expression<P: Fn(&Type) -> String>(
    expression: &TypedExpr,
    line_numbers: &LineNumbers,
    module: Option<&Module>,
    hex_deps: &Vec<String>,
    print: &P,
) -> (hover: Hover)
    requires
        prints_all(*print),
    ensures
        is_hover(
            *print,
            hover,
            *expression.resolved_type(),
            text_or_empty(expression.documentation()),
            expression_link(*expression, module, hex_deps@),
            expression.span(),
            line_numbers@,
        ),
{
    let documentation = documentation_text(expression.get_documentation());
    let section: Option<String> = match module {
        Some(module) => match get_expr_qualified_name(expression) {
            Some((module_name, name)) => get_hexdocs_link_section(
                module_name,
                name,
                &module.ast,
                hex_deps,
            ),
            None => None,
        },
        None => None,
    };
    let link = documentation_text(section.as_ref());
    make_hover(
        &**expression.type_(),
        documentation,
        link,
        expression.location(),
        line_numbers,
        print,
    )
}

/// The hover for a type imported without qualifier: the type, its
/// documentation and, where the module is handed in as one of the registry,
/// the link to its documentation.
pub fn hover_for_imported_type<P: Fn(&Type) -> String>(
    constructor: &TypeConstructor,
    location: &SrcSpan,
    line_numbers: &LineNumbers,
    hex_module_imported_from: Option<&ModuleInterface>,
    name: &String,
    print: &P,
) -> (hover: Hover)
    requires
        prints_all(*print),
    ensures
        is_hover(
            *print,
            hover,
            *constructor.typ,
            text_or_empty(constructor.documentation),
            match hex_module_imported_from {
                Some(module) => hexdocs_link_text(module.package@, module.name@, name@),
                None => Seq::empty(),
            },
            *location,
            line_numbers@,
        ),
{
    let documentation = documentation_text(constructor.documentation.as_ref());
    let section: Option<String> = match hex_module_imported_from {
        Some(module) => Some(
            format_hexdocs_link_section(module.package.as_str(), module.name.as_str(), name.as_str()),
        ),
        None => None,
    };
    let link = documentation_text(section.as_ref());
    make_hover(&*constructor.typ, documentation, link, *location, line_numbers, print)
}

/// The hover for a value imported without qualifier: its type, its
/// documentation and, where the module is handed in as one of the registry,
/// the link to its documentation.
pub fn hover_for_imported_value<P: Fn(&Type) -> String>(
    value: &ValueConstructor,
    location: &SrcSpan,
    line_numbers: &LineNumbers,
    hex_module_imported_from: Option<&ModuleInterface>,
    name: &String,
    print: &P,
) -> (hover: Hover)
    requires
        prints_all(*print),
    ensures
        is_hover(
            *print,
            hover,
            *value.type_,
            text_or_empty(value.variant.documentation()),
            match hex_module_imported_from {
                Some(module) => hexdocs_link_text(module.package@, module.name@, name@),
                None => Seq::empty(),
            },
            *location,
            line_numbers@,
        ),
{
    let documentation = documentation_text(value.get_documentation());
    let section: Option<String> = match hex_module_imported_from {
        Some(module) => Some(
            format_hexdocs_link_section(module.package.as_str(), module.name.as_str(), name.as_str()),
        ),
        None => None,
    };
    let link = documentation_text(section.as_ref());
    make_hover(&*value.type_, documentation, link, *location, line_numbers, print)
}

} // verus!
