//! The engine that answers the requests of an editor.
//!
//! The engine holds what the compiler last produced for each module. A
//! request is answered from that state. Every answer comes in an envelope
//! that also hands over the warnings gathered so far and tells whether a
//! compilation ran since the envelope before it.

use crate::ast::Definition;
use crate::code_action::{
    code_action_unused_imports, is_removal_of_unused_imports, offers_removal,
};
use crate::completion::{
    completions_for, completions_of, import_completions, import_completions_of, same_completions,
    Completions,
};
use crate::error::{Error, Warning};
use crate::feedback::{reported, Compilation, CompilationFeedback};
use crate::hover::{
    bare_hover_text, contains_name, expression_link, has_name, hexdocs_link_text,
    hover_for_annotation, hover_for_expression, hover_for_function_argument,
    hover_for_function_head, hover_for_imported_type, hover_for_imported_value,
    hover_for_module_constant,
    hover_for_pattern, is_hover,
};
use crate::line_numbers::{byte_index_of, range_of, src_span_to_lsp_range, LineNumbers};
use crate::manifest::{distinct_names, hex_names, hex_package_names, ManifestPackage};
use crate::module::{
    definition_of, find_interface, interface_named, located_at,
    type_constructor_from_modules, type_constructor_of, Located, Module,
};
use crate::protocol::{
    CodeAction, CodeActionParams, DocumentSymbol, DocumentSymbolParams, Hover, Location, Position,
    Range, TextDocumentPositionParams,
};
use crate::symbols::{document_symbols, is_function_type, is_outline, printed, prints_all};
use crate::type_::{text_or_empty, ModuleInterface, Type};
use crate::uri::{
    components_below_root, file_uri, file_uri_of, module_name_from_components, module_name_of,
    module_name_of_uri, texts,
};
use camino::Utf8PathBuf;
use vstd::prelude::*;
use vstd::string::*;

verus! {

/// The envelope of an answer: the answer itself, the warnings gathered since
/// the envelope before, and whether a compilation ran since then.
#[derive(Debug, PartialEq, Eq)]
pub struct Response<T> {
    pub result: Result<T, Error>,
    pub warnings: Vec<Warning>,
    pub compilation: Compilation,
}

/// What a run of the compiler produced.
#[derive(Debug)]
pub struct CompileOutcome {
    /// The paths of the modules that were compiled, in the order of their
    /// compilation; those compiled before a failure are among them.
    pub compiled: Vec<Utf8PathBuf>,
    /// The new records of the compiled modules.
    pub modules: Vec<Module>,
    /// What the compiled modules offer to their importers.
    pub interfaces: Vec<ModuleInterface>,
    /// The warnings of the run.
    pub warnings: Vec<Warning>,
    /// The failure that ended the run, if one did.
    pub error: Option<Error>,
}

/// The index of the first module from `from` on that is named `name`, or the
/// number of modules where there is none.
pub open spec fn module_index(modules: Seq<Module>, name: Seq<char>, from: int) -> int
    decreases modules.len() - from,
{
    if from < 0 || from >= modules.len() {
        modules.len() as int
    } else if modules[from].name@ == name {
        from
    } else {
        module_index(modules, name, from + 1)
    }
}

/// The record of the module named `name`.
pub open spec fn module_named(modules: Seq<Module>, name: Seq<char>) -> Option<Module> {
    let index = module_index(modules, name, 0);
    if 0 <= index < modules.len() {
        Some(modules[index])
    } else {
        None
    }
}

/// No two of the records have one name.
pub open spec fn distinct_modules(modules: Seq<Module>) -> bool {
    forall|j: int, k: int|
        0 <= j < k < modules.len() ==> (#[trigger] modules[j]).name@ != (#[trigger] modules[k]).name@
}

/// No two of the interfaces have one name.
pub open spec fn distinct_interfaces(interfaces: Seq<ModuleInterface>) -> bool {
    forall|j: int, k: int|
        0 <= j < k < interfaces.len() ==> (#[trigger] interfaces[j]).name@ != (
        #[trigger] interfaces[k]).name@
}

/// `modules` with the record `module`: it takes the place of the record of
/// the same name, or comes last where there is none.
pub open spec fn with_module(modules: Seq<Module>, module: Module) -> Seq<Module> {
    let index = module_index(modules, module.name@, 0);
    if 0 <= index < modules.len() {
        modules.update(index, module)
    } else {
        modules.push(module)
    }
}

/// `modules` with the records `fresh`, put in one after the other.
pub open spec fn with_modules(modules: Seq<Module>, fresh: Seq<Module>) -> Seq<Module>
    decreases fresh.len(),
{
    if fresh.len() == 0 {
        modules
    } else {
        with_modules(with_module(modules, fresh[0]), fresh.remove(0))
    }
}

/// `interfaces` with `interface` in the place of the one of the same name,
/// or last where there is none.
pub open spec fn with_interface(
    interfaces: Seq<ModuleInterface>,
    interface: ModuleInterface,
) -> Seq<ModuleInterface> {
    let index = crate::module::interface_index(interfaces, interface.name@, 0);
    if 0 <= index < interfaces.len() {
        interfaces.update(index, interface)
    } else {
        interfaces.push(interface)
    }
}

/// `interfaces` with the interfaces `fresh`, put in one after the other.
pub open spec fn with_interfaces(
    interfaces: Seq<ModuleInterface>,
    fresh: Seq<ModuleInterface>,
) -> Seq<ModuleInterface>
    decreases fresh.len(),
{
    if fresh.len() == 0 {
        interfaces
    } else {
        with_interfaces(with_interface(interfaces, fresh[0]), fresh.remove(0))
    }
}

/// The module, lent.
pub open spec fn lent<'a>(module: &'a Option<Module>) -> Option<&'a Module> {
    match module {
        Some(module) => Some(module),
        None => None,
    }
}

/// The byte offset of `position` in `module` and what it points at.
pub open spec fn node_at<'a>(module: &'a Module, position: Position) -> Option<Located<'a>> {
    located_at(
        module.ast.definitions@,
        byte_index_of(module.line_numbers@, position.line as int, position.character as int),
    )
}

/// The answer to a request for the definition of what is at `position` in
/// `module`: the URI of the request and the range of the definition where it
/// is in the same module; the URI of the other module's file and the range
/// there where it is in another module whose record and URI can be had.
pub open spec fn definition_answer(
    module: Option<&Module>,
    uri: Seq<char>,
    position: Position,
    modules: Seq<Module>,
    interfaces: Seq<ModuleInterface>,
) -> Option<(Seq<char>, Range)> {
    match module {
        None => None,
        Some(module) => match node_at(module, position) {
            None => None,
            Some(found) => match definition_of(found, interfaces) {
                None => None,
                Some((None, span)) => Some((uri, range_of(module.line_numbers@, span))),
                Some((Some(name), span)) => match module_named(modules, name) {
                    None => None,
                    Some(target) => match file_uri_of(target.path@) {
                        None => None,
                        Some(target_uri) => Some(
                            (target_uri, range_of(target.line_numbers@, span)),
                        ),
                    },
                },
            },
        },
    }
}

/// `answer` is the hover for `found`, the thing under the cursor in
/// `module`.
pub open spec fn is_hover_answer<P: Fn(&Type) -> String>(
    print: P,
    answer: Option<Hover>,
    found: Option<Located>,
    module: &Module,
    interfaces: Seq<ModuleInterface>,
    hex_deps: Seq<String>,
) -> bool {
    let text = module.line_numbers@;
    match found {
        None => answer is None,
        Some(Located::Statement(_)) => answer is None,
        Some(Located::FunctionBody(_)) => answer is None,
        Some(Located::ModuleStatement(definition)) => match *definition {
            Definition::Function(fun) => answer matches Some(hover) && exists|type_: Type| #[trigger]
                is_function_type(type_, fun) && is_hover(
                    print,
                    hover,
                    type_,
                    text_or_empty(fun.documentation),
                    Seq::empty(),
                    fun.location,
                    text,
                ),
            Definition::ModuleConstant(constant) => answer matches Some(hover) && is_hover(
                print,
                hover,
                *constant.type_,
                text_or_empty(constant.documentation),
                Seq::empty(),
                constant.location,
                text,
            ),
            _ => answer is None,
        },
        Some(Located::UnqualifiedImport(import)) => match interface_named(
            interfaces,
            import.module@,
        ) {
            None => answer is None,
            Some(interface) => if import.is_type {
                match interface.type_named(import.name@) {
                    None => answer is None,
                    Some(constructor) => answer matches Some(hover) && is_hover(
                        print,
                        hover,
                        *constructor.typ,
                        text_or_empty(constructor.documentation),
                        if has_name(hex_deps, interface.package@) {
                            hexdocs_link_text(interface.package@, interface.name@, import.name@)
                        } else {
                            Seq::empty()
                        },
                        import.location,
                        text,
                    ),
                }
            } else {
                match interface.value_named(import.name@) {
                    None => answer is None,
                    Some(value) => answer matches Some(hover) && is_hover(
                        print,
                        hover,
                        *value.type_,
                        text_or_empty(value.variant.documentation()),
                        if has_name(hex_deps, interface.package@) {
                            hexdocs_link_text(interface.package@, interface.name@, import.name@)
                        } else {
                            Seq::empty()
                        },
                        import.location,
                        text,
                    ),
                }
            },
        },
        Some(Located::Pattern(pattern)) => answer matches Some(hover) && is_hover(
            print,
            hover,
            *pattern.type_,
            text_or_empty(pattern.documentation),
            Seq::empty(),
            pattern.location,
            text,
        ),
        Some(Located::Expression(expression)) => answer matches Some(hover) && is_hover(
            print,
            hover,
            *expression.resolved_type(),
            text_or_empty(expression.documentation()),
            expression_link(*expression, Some(module), hex_deps),
            expression.span(),
            text,
        ),
        Some(Located::Arg(argument)) => answer matches Some(hover) && (exists|
            type_text: Seq<char>,
        | #[trigger]
            printed(print, *argument.type_, type_text) && hover.contents@ == bare_hover_text(
                type_text,
            )) && hover.range == Some(range_of(text, argument.location)),
        Some(Located::Annotation(location, type_)) => answer matches Some(hover) && is_hover(
            print,
            hover,
            **type_,
            match type_constructor_of(interfaces, **type_) {
                Some(constructor) => text_or_empty(constructor.documentation),
                None => Seq::empty(),
            },
            Seq::empty(),
            location,
            text,
        ),
    }
}

/// `answer` holds the changes offered for the range of `params` in
/// `module`: first the removal of the unused imports, where the module is
/// known and the removal is offered; then the changes `further`. There is no
/// answer where there is no change.
pub open spec fn is_code_actions_answer(
    answer: Option<Vec<CodeAction>>,
    module: Option<&Module>,
    params: CodeActionParams,
    further: Seq<CodeAction>,
) -> bool {
    let removal = module matches Some(module) && offers_removal(
        module.line_numbers@,
        module.ast.unused_imports@,
        params.range,
    );
    if removal {
        &&& answer matches Some(actions)
        &&& actions@.len() == further.len() + 1
        &&& is_removal_of_unused_imports(
            actions@[0],
            module->0.line_numbers@,
            module->0.ast.unused_imports@,
            params.uri@,
        )
        &&& actions@.subrange(1, actions@.len() as int) == further
    } else if further.len() == 0 {
        answer is None
    } else {
        answer matches Some(actions) && actions@ == further
    }
}

/// What is offered for completion at `position` of the text `src`, the
/// current text of `module`: on an import line what can be imported, and
/// nothing else; on another line what suits the node under the cursor.
pub open spec fn completion_answer(
    module: Option<&Module>,
    src: Seq<u8>,
    position: Position,
    interfaces: Seq<ModuleInterface>,
) -> Option<Completions> {
    match module {
        None => None,
        Some(module) => match import_completions_of(src, position.line as int, interfaces) {
            Some(offered) => Some(offered),
            None => match node_at(module, position) {
                None => None,
                Some(found) => completions_of(found, interfaces),
            },
        },
    }
}

/// The engine: the state that requests are answered from.
#[derive(Debug)]
pub struct LanguageServerEngine {
    /// The directory of the project.
    root: String,
    /// The record of each compiled module.
    modules: Vec<Module>,
    /// What each module that can be imported offers.
    interfaces: Vec<ModuleInterface>,
    /// The warnings that no response has handed over yet.
    warnings: Vec<Warning>,
    feedback: CompilationFeedback,
    /// The names of the packages that come from the registry: references to
    /// them get a link to their documentation.
    hex_deps: Vec<String>,
}

impl LanguageServerEngine {
    /// No module has two records, no module two interfaces, and no package
    /// of the registry is named twice.
    #[verifier::type_invariant]
    spec fn no_name_twice(self) -> bool {
        &&& distinct_modules(self.modules@)
        &&& distinct_interfaces(self.interfaces@)
        &&& distinct_names(self.hex_deps@)
    }

    /// The records of the compiled modules.
    pub closed spec fn modules(&self) -> Seq<Module> {
        self.modules@
    }

    /// The interfaces of the modules that can be imported.
    pub closed spec fn interfaces(&self) -> Seq<ModuleInterface> {
        self.interfaces@
    }

    /// The warnings that no response has handed over yet.
    pub closed spec fn backlog(&self) -> Seq<Warning> {
        self.warnings@
    }

    /// Whether a compilation ran since the last response, and the modules
    /// compiled since then.
    pub closed spec fn pending(&self) -> (bool, Seq<Utf8PathBuf>) {
        (self.feedback.compiled, self.feedback.modules@)
    }

    /// The names of the packages that come from the registry.
    pub closed spec fn hex_deps(&self) -> Seq<String> {
        self.hex_deps@
    }

    /// The directory of the project.
    pub closed spec fn root(&self) -> Seq<char> {
        self.root@
    }

    /// The record of the module whose source file the URI names.
    pub open spec fn module_of_uri(&self, uri: Seq<char>) -> Option<Module> {
        match module_name_of_uri(uri, self.root()) {
            Some(name) => module_named(self.modules(), name),
            None => None,
        }
    }

    /// A response was made of the state `before`: `self` holds what `before`
    /// held, but no warning and no record of a compilation.
    pub open spec fn settled_from(&self, before: &LanguageServerEngine) -> bool {
        &&& self.modules() == before.modules()
        &&& self.interfaces() == before.interfaces()
        &&& self.hex_deps() == before.hex_deps()
        &&& self.root() == before.root()
        &&& self.backlog() == Seq::<Warning>::empty()
        &&& self.pending() == (false, Seq::<Utf8PathBuf>::empty())
    }

    /// `response` is the envelope made in the state `before`, whatever its
    /// result: it hands over the warnings of `before` and reports its
    /// compilations.
    pub open spec fn envelope_of<T>(response: &Response<T>, before: &LanguageServerEngine) -> bool {
        &&& response.warnings@ == before.backlog()
        &&& response.compilation.report() == reported(before.pending().0, before.pending().1)
    }

    /// `module` is nothing or one of the module records of the engine.
    pub open spec fn knows(&self, module: Option<&Module>) -> bool {
        module matches Some(module) ==> exists|k: int|
            0 <= k < self.modules().len() && #[trigger] self.modules()[k] == *module
    }

    /// An engine for the project in the directory `root`, given what the
    /// resolution of its dependencies gave. Where the resolution failed, no
    /// engine is made and the failure is handed on.
    pub fn new(root: String, manifest: Result<Vec<ManifestPackage>, Error>) -> (engine:
        Result<LanguageServerEngine, Error>)
        ensures
            match manifest {
                Err(error) => engine == Err::<LanguageServerEngine, Error>(error),
                Ok(packages) => {
                    &&& engine matches Ok(engine)
                    &&& engine.root() == root@
                    &&& engine.modules() == Seq::<Module>::empty()
                    &&& engine.interfaces() == Seq::<ModuleInterface>::empty()
                    &&& engine.backlog() == Seq::<Warning>::empty()
                    &&& engine.pending() == (false, Seq::<Utf8PathBuf>::empty())
                    &&& engine.hex_deps().len() == hex_names(packages@).len()
                    &&& forall|k: int|
                        0 <= k < engine.hex_deps().len() ==> (#[trigger] engine.hex_deps()[k])@
                            == hex_names(packages@)[k]
                },
            },
    {
        match manifest {
            Err(error) => Err(error),
            Ok(packages) => {
                let hex_deps = hex_package_names(&packages);
                Ok(
                    LanguageServerEngine {
                        root,
                        modules: Vec::new(),
                        interfaces: Vec::new(),
                        warnings: Vec::new(),
                        feedback: CompilationFeedback::new(),
                        hex_deps,
                    },
                )
            },
        }
    }

    /// Takes in what a run of the compiler produced and answers with the
    /// envelope for it.
    pub fn compile_please(&mut self, outcome: CompileOutcome) -> (response: Response<()>)
        ensures
            response.result == match outcome.error {
                Some(error) => Err::<(), Error>(error),
                None => Ok(()),
            },
            response.warnings@ == old(self).backlog() + outcome.warnings@,
            response.compilation.report() == reported(
                old(self).pending().0 || outcome.error is None || outcome.compiled@.len() > 0,
                old(self).pending().1 + outcome.compiled@,
            ),
            final(self).modules() == with_modules(old(self).modules(), outcome.modules@),
            final(self).interfaces() == with_interfaces(
                old(self).interfaces(),
                outcome.interfaces@,
            ),
            final(self).hex_deps() == old(self).hex_deps(),
            final(self).root() == old(self).root(),
            final(self).backlog() == Seq::<Warning>::empty(),
            final(self).pending() == (false, Seq::<Utf8PathBuf>::empty()),
    {
        let result = self.compile(outcome);
        self.respond(result)
    }

    /// Takes in what a run of the compiler produced: the new records take
    /// the place of the old ones, the compiled modules and the warnings are
    /// noted for the next response. A run that succeeded or compiled a module
    /// is noted as a compilation; a run that failed before it compiled
    /// anything is not. A failure of the run is handed back; what the run
    /// produced before it failed is kept all the same.
    pub fn compile(&mut self, outcome: CompileOutcome) -> (result: Result<(), Error>)
        ensures
            result == match outcome.error {
                Some(error) => Err::<(), Error>(error),
                None => Ok(()),
            },
            final(self).pending() == (
                old(self).pending().0 || outcome.error is None || outcome.compiled@.len() > 0,
                old(self).pending().1 + outcome.compiled@,
            ),
            final(self).backlog() == old(self).backlog() + outcome.warnings@,
            final(self).modules() == with_modules(old(self).modules(), outcome.modules@),
            final(self).interfaces() == with_interfaces(
                old(self).interfaces(),
                outcome.interfaces@,
            ),
            final(self).hex_deps() == old(self).hex_deps(),
            final(self).root() == old(self).root(),
    {
        proof {
            use_type_invariant(&*self);
        }
        let CompileOutcome { compiled, modules, interfaces, warnings, error } = outcome;
        let mut fresh_modules = modules;
        let mut fresh_interfaces = interfaces;
        let mut feedback = CompilationFeedback::new();
        std::mem::swap(&mut self.feedback, &mut feedback);
        if error.is_none() || compiled.len() > 0 {
            feedback.record(compiled);
        } else {
            assert(feedback.modules@ + compiled@ == feedback.modules@);
        }
        self.feedback = feedback;
        let mut backlog: Vec<Warning> = Vec::new();
        std::mem::swap(&mut self.warnings, &mut backlog);
        let mut warnings = warnings;
        backlog.append(&mut warnings);
        self.warnings = backlog;
        let mut modules: Vec<Module> = Vec::new();
        std::mem::swap(&mut self.modules, &mut modules);
        while fresh_modules.len() > 0
            invariant
                distinct_modules(modules@),
                with_modules(modules@, fresh_modules@) == with_modules(
                    old(self).modules@,
                    outcome.modules@,
                ),
            decreases fresh_modules@.len(),
        {
            let module = fresh_modules.remove(0);
            put_module(&mut modules, module);
        }
        self.modules = modules;
        let mut interfaces: Vec<ModuleInterface> = Vec::new();
        std::mem::swap(&mut self.interfaces, &mut interfaces);
        while fresh_interfaces.len() > 0
            invariant
                distinct_interfaces(interfaces@),
                with_interfaces(interfaces@, fresh_interfaces@) == with_interfaces(
                    old(self).interfaces@,
                    outcome.interfaces@,
                ),
            decreases fresh_interfaces@.len(),
        {
            let interface = fresh_interfaces.remove(0);
            put_interface(&mut interfaces, interface);
        }
        self.interfaces = interfaces;
        match error {
            Some(error) => Err(error),
            None => Ok(()),
        }
    }

    /// Hands out the warnings gathered so far; none are left.
    pub fn take_warnings(&mut self) -> (warnings: Vec<Warning>)
        ensures
            warnings@ == old(self).backlog(),
            final(self).backlog() == Seq::<Warning>::empty(),
            final(self).modules() == old(self).modules(),
            final(self).interfaces() == old(self).interfaces(),
            final(self).hex_deps() == old(self).hex_deps(),
            final(self).root() == old(self).root(),
            final(self).pending() == old(self).pending(),
    {
        proof {
            use_type_invariant(&*self);
        }
        let mut warnings: Vec<Warning> = Vec::new();
        std::mem::swap(&mut self.warnings, &mut warnings);
        warnings
    }

    /// Hands out what is to be reported of the compilations since the last
    /// response; nothing is left to report.
    pub fn drain_feedback(&mut self) -> (compilation: Compilation)
        ensures
            compilation.report() == reported(old(self).pending().0, old(self).pending().1),
            final(self).pending() == (false, Seq::<Utf8PathBuf>::empty()),
            final(self).backlog() == old(self).backlog(),
            final(self).modules() == old(self).modules(),
            final(self).interfaces() == old(self).interfaces(),
            final(self).hex_deps() == old(self).hex_deps(),
            final(self).root() == old(self).root(),
    {
        proof {
            use_type_invariant(&*self);
        }
        let mut feedback = CompilationFeedback::new();
        std::mem::swap(&mut self.feedback, &mut feedback);
        feedback.drain_feedback()
    }

    /// The envelope for `result`: with it go the warnings gathered so far
    /// and the report of the compilations since the last response, whether
    /// `result` is a failure or not.
    pub fn respond<T>(&mut self, result: Result<T, Error>) -> (response: Response<T>)
        ensures
            response.result == result,
            Self::envelope_of(&response, old(self)),
            final(self).settled_from(old(self)),
    {
        let warnings = self.take_warnings();
        let compilation = self.drain_feedback();
        Response { result, warnings, compilation }
    }

    /// The record of the module named `name`.
    pub fn module_named(&self, name: &String) -> (found: Option<&Module>)
        ensures
            found.is_some() == module_named(self.modules(), name@).is_some(),
            found matches Some(module) ==> Some(*module) == module_named(self.modules(), name@),
            self.knows(found),
    {
        let mut at: usize = 0;
        while at < self.modules.len()
            invariant
                at <= self.modules@.len(),
                module_index(self.modules@, name@, at as int) == module_index(
                    self.modules@,
                    name@,
                    0,
                ),
            decreases self.modules@.len() - at,
        {
            if self.modules[at].name == *name {
                assert(self.modules()[at as int] == self.modules@[at as int]);
                return Some(&self.modules[at]);
            }
            at += 1;
        }
        None
    }

    /// The record of the module whose source file has the path `components`
    /// below the root of the project.
    pub fn module_for_components(&self, components: Vec<String>) -> (found: Option<&Module>)
        ensures
            match module_name_of(texts(components@)) {
                Some(name) => {
                    &&& found.is_some() == module_named(self.modules(), name).is_some()
                    &&& found matches Some(module) ==> Some(*module) == module_named(
                        self.modules(),
                        name,
                    )
                },
                None => found is None,
            },
            self.knows(found),
    {
        match module_name_from_components(components) {
            Some(name) => self.module_named(&name),
            None => None,
        }
    }

    /// The record of the module whose source file `uri` names. None where
    /// `uri` names no source file of a module of the project.
    pub fn module_for_uri(&self, uri: &str) -> (found: Option<&Module>)
        ensures
            found.is_some() == self.module_of_uri(uri@).is_some(),
            found matches Some(module) ==> Some(*module) == self.module_of_uri(uri@),
            found == lent(&self.module_of_uri(uri@)),
            self.knows(found),
    {
        match components_below_root(uri, self.root.as_str()) {
            Some(components) => self.module_for_components(components),
            None => None,
        }
    }

    /// Where the thing at `position` in `module` is defined.
    pub fn definition_in(&self, module: Option<&Module>, uri: &String, position: Position) -> (answer:
        Option<Location>)
        ensures
            match answer {
                Some(location) => Some((location.uri@, location.range)),
                None => None,
            } == definition_answer(module, uri@, position, self.modules(), self.interfaces()),
    {
        let module = match module {
            Some(module) => module,
            None => {
                return None;
            },
        };
        let byte_index = module.line_numbers.byte_index(position.line, position.character);
        let found = match module.find_node(byte_index) {
            Some(found) => found,
            None => {
                return None;
            },
        };
        let location = match found.definition_location(&self.interfaces) {
            Some(location) => location,
            None => {
                return None;
            },
        };
        match &location.module {
            None => Some(
                Location {
                    uri: uri.clone(),
                    range: src_span_to_lsp_range(location.span, &module.line_numbers),
                },
            ),
            Some(name) => match self.module_named(name) {
                None => None,
                Some(target) => location_in(
                    file_uri(&target.path),
                    src_span_to_lsp_range(location.span, &target.line_numbers),
                ),
            },
        }
    }

    /// Where the thing under the cursor is defined.
    pub fn goto_definition(&mut self, params: TextDocumentPositionParams) -> (response: Response<
        Option<Location>,
    >)
        ensures
            Self::envelope_of(&response, old(self)),
            final(self).settled_from(old(self)),
            response.result matches Ok(answer) && match answer {
                Some(location) => Some((location.uri@, location.range)),
                None => None,
            } == definition_answer(
                lent(&old(self).module_of_uri(params.uri@)),
                params.uri@,
                params.position,
                old(self).modules(),
                old(self).interfaces(),
            ),
    {
        let module = self.module_for_uri(params.uri.as_str());
        let answer = self.definition_in(module, &params.uri, params.position);
        self.respond(Ok(answer))
    }

    /// The hover for the thing at `position` in `module`.
    pub fn hover_in<P: Fn(&Type) -> String>(
        &self,
        module: Option<&Module>,
        position: Position,
        print: &P,
    ) -> (answer: Option<Hover>)
        requires
            prints_all(*print),
        ensures
            match module {
                None => answer is None,
                Some(module) => is_hover_answer(
                    *print,
                    answer,
                    node_at(module, position),
                    module,
                    self.interfaces(),
                    self.hex_deps(),
                ),
            },
    {
        let module = match module {
            Some(module) => module,
            None => {
                return None;
            },
        };
        let lines = &module.line_numbers;
        let byte_index = lines.byte_index(position.line, position.character);
        let found = match module.find_node(byte_index) {
            Some(found) => found,
            None => {
                return None;
            },
        };
        match found {
            Located::Statement(_) => None,
            Located::ModuleStatement(definition) => match definition {
                Definition::Function(fun) => Some(hover_for_function_head(fun, lines, print)),
                Definition::ModuleConstant(constant) => Some(
                    hover_for_module_constant(constant, lines, print),
                ),
                _ => None,
            },
            Located::UnqualifiedImport(import) => match find_interface(
                &self.interfaces,
                &import.module,
            ) {
                None => None,
                Some(interface) => {
                    let from_registry = if contains_name(&self.hex_deps, &interface.package) {
                        Some(interface)
                    } else {
                        None
                    };
                    if import.is_type {
                        match interface.get_type(&import.name) {
                            None => None,
                            Some(constructor) => Some(
                                hover_for_imported_type(
                                    constructor,
                                    &import.location,
                                    lines,
                                    from_registry,
                                    &import.name,
                                    print,
                                ),
                            ),
                        }
                    } else {
                        match interface.get_value(&import.name) {
                            None => None,
                            Some(value) => Some(
                                hover_for_imported_value(
                                    value,
                                    &import.location,
                                    lines,
                                    from_registry,
                                    &import.name,
                                    print,
                                ),
                            ),
                        }
                    }
                },
            },
            Located::Pattern(pattern) => Some(hover_for_pattern(pattern, lines, print)),
            Located::Expression(expression) => Some(
                hover_for_expression(expression, lines, Some(module), &self.hex_deps, print),
            ),
            Located::Arg(argument) => Some(hover_for_function_argument(argument, lines, print)),
            Located::FunctionBody(_) => None,
            Located::Annotation(location, type_) => {
                let constructor = type_constructor_from_modules(&self.interfaces, &**type_);
                Some(hover_for_annotation(location, &**type_, constructor, lines, print))
            },
        }
    }

    /// What is shown for the thing under the cursor. `print` renders a type.
    pub fn hover<P: Fn(&Type) -> String>(
        &mut self,
        params: TextDocumentPositionParams,
        print: &P,
    ) -> (response: Response<Option<Hover>>)
        requires
            prints_all(*print),
        ensures
            Self::envelope_of(&response, old(self)),
            final(self).settled_from(old(self)),
            response.result matches Ok(answer) && match lent(
                &old(self).module_of_uri(params.uri@),
            ) {
                None => answer is None,
                Some(module) => is_hover_answer(
                    *print,
                    answer,
                    node_at(module, params.position),
                    module,
                    old(self).interfaces(),
                    old(self).hex_deps(),
                ),
            },
    {
        let module = self.module_for_uri(params.uri.as_str());
        let answer = self.hover_in(module, params.position, print);
        self.respond(Ok(answer))
    }

    /// What is offered for completion at `position` of `src`, the current
    /// text of `module`.
    pub fn completion_in(&self, module: Option<&Module>, position: Position, src: &str) -> (answer:
        Option<Completions>)
        requires
            src.spec_bytes().len() <= u32::MAX,
        ensures
            same_completions(
                answer,
                completion_answer(module, src.spec_bytes(), position, self.interfaces()),
            ),
    {
        let module = match module {
            Some(module) => module,
            None => {
                return None;
            },
        };
        let src_lines = LineNumbers::new(src);
        if let Some(offered) = import_completions(&src_lines, position, &self.interfaces) {
            return Some(offered);
        }
        let byte_index = module.line_numbers.byte_index(position.line, position.character);
        match module.find_node(byte_index) {
            Some(found) => completions_for(&found, &self.interfaces),
            None => None,
        }
    }

    /// What is offered for completion under the cursor, given the current
    /// text `src` of the document.
    pub fn completion(&mut self, params: TextDocumentPositionParams, src: &str) -> (response:
        Response<Option<Completions>>)
        requires
            src.spec_bytes().len() <= u32::MAX,
        ensures
            Self::envelope_of(&response, old(self)),
            final(self).settled_from(old(self)),
            response.result matches Ok(answer) && same_completions(
                answer,
                completion_answer(
                    lent(&old(self).module_of_uri(params.uri@)),
                    src.spec_bytes(),
                    params.position,
                    old(self).interfaces(),
                ),
            ),
    {
        let module = self.module_for_uri(params.uri.as_str());
        let answer = self.completion_in(module, params.position, src);
        self.respond(Ok(answer))
    }

    /// The changes that can be offered for the range `params.range` of
    /// `module`: the removal of the unused imports, where it is offered, and
    /// after it the changes `further` that another source found for the same
    /// range. None where there is no change at all.
    pub fn code_actions_in(
        &self,
        module: Option<&Module>,
        params: &CodeActionParams,
        further: Vec<CodeAction>,
    ) -> (answer: Option<Vec<CodeAction>>)
        ensures
            is_code_actions_answer(answer, module, *params, further@),
    {
        let ghost given = further@;
        let mut further = further;
        let mut actions: Vec<CodeAction> = Vec::new();
        if let Some(module) = module {
            code_action_unused_imports(module, params, &mut actions);
        }
        let ghost first = actions@;
        actions.append(&mut further);
        proof {
            assert(actions@ == first + given);
            if first.len() == 0 {
                assert(actions@ == given);
            } else {
                assert(first.len() == 1);
                assert(actions@.subrange(1, actions@.len() as int) == given);
            }
        }
        if actions.len() == 0 {
            None
        } else {
            Some(actions)
        }
    }

    /// The changes that can be offered for a range of a document. `further`
    /// are the changes that another source found for that range.
    pub fn code_actions(&mut self, params: CodeActionParams, further: Vec<CodeAction>) -> (response:
        Response<Option<Vec<CodeAction>>>)
        ensures
            Self::envelope_of(&response, old(self)),
            final(self).settled_from(old(self)),
            response.result matches Ok(answer) && is_code_actions_answer(
                answer,
                lent(&old(self).module_of_uri(params.uri@)),
                params,
                further@,
            ),
    {
        let module = self.module_for_uri(params.uri.as_str());
        let answer = self.code_actions_in(module, &params, further);
        self.respond(Ok(answer))
    }

    /// The outline of a document. `print` renders a type. A document that
    /// is no module of the project has an empty outline.
    pub fn document_symbol<P: Fn(&Type) -> String>(
        &mut self,
        params: DocumentSymbolParams,
        print: &P,
    ) -> (response: Response<Vec<DocumentSymbol>>)
        requires
            prints_all(*print),
        ensures
            Self::envelope_of(&response, old(self)),
            final(self).settled_from(old(self)),
            response.result matches Ok(symbols) && match old(self).module_of_uri(params.uri@) {
                Some(module) => is_outline(
                    *print,
                    symbols@,
                    module.ast.definitions@,
                    module.line_numbers@,
                ),
                None => symbols@.len() == 0,
            },
    {
        let module = self.module_for_uri(params.uri.as_str());
        let symbols = match module {
            Some(module) => document_symbols(&module.ast, &module.line_numbers, print),
            None => Vec::new(),
        };
        self.respond(Ok(symbols))
    }
}

/// The location of `range` in the document `uri`, where there is a URI.
pub fn location_in(uri: Option<String>, range: Range) -> (location: Option<Location>)
    ensures
        match uri {
            Some(uri) => location matches Some(found) && found.uri@ == uri@ && found.range == range,
            None => location is None,
        },
{
    match uri {
        Some(uri) => Some(Location { uri, range }),
        None => None,
    }
}

/// Puts `module` in the place of the record of the same name, or last.
/// Where no name occurred twice before, none does after.
fn put_module(modules: &mut Vec<Module>, module: Module)
    ensures
        final(modules)@ == with_module(old(modules)@, module),
        distinct_modules(old(modules)@) ==> distinct_modules(final(modules)@),
{
    let mut at: usize = 0;
    while at < modules.len() && modules[at].name != module.name
        invariant
            at <= modules@.len(),
            modules@ == old(modules)@,
            module_index(modules@, module.name@, at as int) == module_index(
                modules@,
                module.name@,
                0,
            ),
            forall|k: int| 0 <= k < at ==> (#[trigger] modules@[k]).name@ != module.name@,
        decreases modules@.len() - at,
    {
        at += 1;
    }
    if at < modules.len() {
        modules.set(at, module);
    } else {
        modules.push(module);
    }
}

/// Puts `interface` in the place of the one of the same name, or last.
/// Where no name occurred twice before, none does after.
fn put_interface(interfaces: &mut Vec<ModuleInterface>, interface: ModuleInterface)
    ensures
        final(interfaces)@ == with_interface(old(interfaces)@, interface),
        distinct_interfaces(old(interfaces)@) ==> distinct_interfaces(final(interfaces)@),
{
    let mut at: usize = 0;
    while at < interfaces.len() && interfaces[at].name != interface.name
        invariant
            at <= interfaces@.len(),
            interfaces@ == old(interfaces)@,
            crate::module::interface_index(interfaces@, interface.name@, at as int)
                == crate::module::interface_index(interfaces@, interface.name@, 0),
            forall|k: int| 0 <= k < at ==> (#[trigger] interfaces@[k]).name@ != interface.name@,
        decreases interfaces@.len() - at,
    {
        at += 1;
    }
    if at < interfaces.len() {
        interfaces.set(at, interface);
    } else {
        interfaces.push(interface);
    }
}

} // verus!
