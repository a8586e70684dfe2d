//! Facts the frontend collects about calls, classes, and bindings.
use crate::numbers::Real;
use crate::source::{site_of, AllocationSite, FileId, TextRange};
use crate::text::{has_text, same_text, texts};
use vstd::prelude::*;

verus! {

/// Prefix letters of a string literal.
#[derive(Clone, Copy, Debug, PartialEq, Eq, Structural)]
pub struct StrPrefix {
    pub raw: bool,
    pub bytes: bool,
    pub formatted: bool,
}

/// A statically known literal value.
pub enum LiteralFact {
    Int(i64),
    Float(Real),
    Str { value: String, prefix: StrPrefix, range: TextRange },
    Bool(bool),
    NoneLit,
    Tuple(Vec<LiteralFact>),
    List(Vec<LiteralFact>),
}

/// What a call or attribute is reached through.
pub enum ReceiverKind {
    /// `self` of a Scene class.
    SelfScene,
    /// An instance of the class with this id.
    KnownInstance(String),
    ModuleAlias,
    Direct,
    Unknown,
}

/// An attribute reference passed as an argument.
pub struct AttributeFact {
    /// Ids the attribute can stand for, in order.
    pub candidates: Vec<String>,
    pub receiver: ReceiverKind,
}

/// Syntactic shape of an argument.
pub enum ArgShape {
    Literal,
    Name,
    /// A call expression, by its index in the call facts.
    Call(usize),
    Attribute(AttributeFact),
    Lambda,
    Other,
}

#[derive(Clone, Copy, Debug, PartialEq, Eq, Structural)]
pub enum ParamKind {
    PositionalOnly,
    PositionalOrKeyword,
    VarArgs,
    KeywordOnly,
    KwArgs,
}

/// One declared parameter.
pub struct Parameter {
    pub name: String,
    pub kind: ParamKind,
    pub has_default: bool,
}

/// Declared parameters of a callable, in order.
pub struct CallableSignature {
    pub params: Vec<Parameter>,
}

/// One argument of a call.
pub struct CallArgument {
    pub shape: ArgShape,
    pub range: TextRange,
    pub literal: Option<LiteralFact>,
    pub keyword: Option<String>,
    /// Classes the value can be an instance of, in order.
    pub kind_candidates: Vec<String>,
    pub callable_signature: Option<CallableSignature>,
}

/// Where a call stands.
pub struct CallContext {
    pub module: String,
    pub class_name: Option<String>,
    pub function: Option<String>,
}

/// One resolved call.
pub struct QualifiedCall {
    pub file: FileId,
    pub call_range: TextRange,
    pub callee_range: TextRange,
    /// Ids the callee can stand for, in order, each once.
    pub candidates: Vec<String>,
    pub receiver: ReceiverKind,
    pub context: CallContext,
    /// Positional arguments first.
    pub arguments: Vec<CallArgument>,
    pub positional_count: usize,
    /// Keyword names, in order, each once.
    pub keyword_names: Vec<String>,
    pub has_star_args: bool,
    pub has_star_star_kwargs: bool,
    /// Segments of a plain dotted callee.
    pub callee_dotted: Option<Vec<String>>,
    /// The callee of a method call on the result of another call.
    pub callee_chain: Option<CallChain>,
}

/// A method that is called on the result of another call.
pub struct CallChain {
    pub method: String,
    /// Segments of the inner callee, when it is plain dotted.
    pub inner: Option<Vec<String>>,
}

/// The keyword of an argument.
pub open spec fn keyword_of(argument: CallArgument) -> Option<Seq<char>> {
    match argument.keyword {
        Some(name) => Some(name@),
        None => None,
    }
}

/// The first argument passed under keyword `name`.
pub open spec fn keyword_in(arguments: Seq<CallArgument>, name: Seq<char>) -> Option<CallArgument>
    decreases arguments.len(),
{
    if arguments.len() == 0 {
        None
    } else if keyword_of(arguments[0]) == Some(name) {
        Some(arguments[0])
    } else {
        keyword_in(arguments.drop_first(), name)
    }
}

impl QualifiedCall {
    pub open spec fn site(&self) -> AllocationSite {
        site_of(self.file, self.call_range)
    }

    pub open spec fn spec_positional(&self, index: int) -> Option<CallArgument> {
        if 0 <= index < self.positional_count && index < self.arguments@.len() {
            Some(self.arguments@[index])
        } else {
            None
        }
    }

    /// The positional argument at `index`.
    pub fn positional(&self, index: usize) -> (argument: Option<&CallArgument>)
        ensures
            match argument {
                Some(found) => self.spec_positional(index as int) == Some(*found),
                None => self.spec_positional(index as int) is None,
            },
    {
        if index < self.positional_count && index < self.arguments.len() {
            Some(&self.arguments[index])
        } else {
            None
        }
    }

    pub open spec fn spec_keyword(&self, name: Seq<char>) -> Option<CallArgument> {
        keyword_in(self.arguments@, name)
    }

    /// The argument passed under keyword `name`.
    pub fn keyword(&self, name: &str) -> (argument: Option<&CallArgument>)
        ensures
            match argument {
                Some(found) => self.spec_keyword(name@) == Some(*found),
                None => self.spec_keyword(name@) is None,
            },
    {
        let mut i: usize = 0;
        assert(self.arguments@.skip(0) =~= self.arguments@);
        while i < self.arguments.len()
            invariant
                i <= self.arguments@.len(),
                self.spec_keyword(name@) == keyword_in(self.arguments@.skip(i as int), name@),
            decreases self.arguments@.len() - i,
        {
            assert(self.arguments@.skip(i as int).drop_first() =~= self.arguments@.skip(i + 1));
            if let Some(keyword) = &self.arguments[i].keyword {
                if same_text(keyword.as_str(), name) {
                    return Some(&self.arguments[i]);
                }
            }
            i += 1;
        }
        None
    }

    /// Whether the call expression sits exactly at `site`.
    pub fn is_at(&self, site: AllocationSite) -> (there: bool)
        ensures
            there == (self.site() == site),
    {
        self.file == site.file && self.call_range.start == site.start && self.call_range.end
            == site.end
    }
}

/// Every call of the project.
pub struct QualifiedCallFacts {
    pub calls: Vec<QualifiedCall>,
    pub statements: StatementFacts,
    pub bindings: BindingFacts,
}

/// Index of the first call at `site`, when there is one.
pub open spec fn first_index_at(calls: Seq<QualifiedCall>, site: AllocationSite) -> Option<int>
    decreases calls.len(),
{
    if calls.len() == 0 {
        None
    } else {
        match first_index_at(calls.drop_last(), site) {
            Some(index) => Some(index),
            None => if calls.last().site() == site {
                Some(calls.len() - 1)
            } else {
                None
            },
        }
    }
}

/// Index of the last call at `site`, when there is one.
pub open spec fn last_index_at(calls: Seq<QualifiedCall>, site: AllocationSite) -> Option<int>
    decreases calls.len(),
{
    if calls.len() == 0 {
        None
    } else if calls.last().site() == site {
        Some(calls.len() - 1)
    } else {
        last_index_at(calls.drop_last(), site)
    }
}

proof fn no_index_at(calls: Seq<QualifiedCall>, site: AllocationSite, end: int)
    requires
        0 <= end <= calls.len(),
        forall|j: int| end <= j < calls.len() ==> (#[trigger] calls[j]).site() != site,
    ensures
        last_index_at(calls, site) == last_index_at(calls.take(end), site),
    decreases calls.len(),
{
    if end == calls.len() {
        assert(calls.take(end) =~= calls);
    } else {
        assert(calls.drop_last().take(end) =~= calls.take(end));
        no_index_at(calls.drop_last(), site, end);
    }
}

proof fn first_index_found(calls: Seq<QualifiedCall>, site: AllocationSite, at: int)
    requires
        0 <= at < calls.len(),
        calls[at].site() == site,
        forall|j: int| 0 <= j < at ==> (#[trigger] calls[j]).site() != site,
    ensures
        first_index_at(calls, site) == Some(at),
    decreases calls.len(),
{
    if at == calls.len() - 1 {
        first_index_absent(calls.drop_last(), site);
    } else {
        first_index_found(calls.drop_last(), site, at);
    }
}

proof fn first_index_absent(calls: Seq<QualifiedCall>, site: AllocationSite)
    requires
        forall|j: int| 0 <= j < calls.len() ==> (#[trigger] calls[j]).site() != site,
    ensures
        first_index_at(calls, site) is None,
    decreases calls.len(),
{
    if calls.len() > 0 {
        first_index_absent(calls.drop_last(), site);
    }
}

impl QualifiedCallFacts {
    /// Index of the last call at `site`.
    pub fn last_at(&self, site: AllocationSite) -> (index: Option<usize>)
        ensures
            match index {
                Some(found) => last_index_at(self.calls@, site) == Some(found as int) && found
                    < self.calls@.len(),
                None => last_index_at(self.calls@, site) is None,
            },
    {
        let mut i: usize = self.calls.len();
        while i > 0
            invariant
                i <= self.calls@.len(),
                forall|j: int|
                    i <= j < self.calls@.len() ==> (#[trigger] self.calls@[j]).site() != site,
            decreases i,
        {
            if self.calls[i - 1].is_at(site) {
                proof {
                    no_index_at(self.calls@, site, i as int);
                    assert(self.calls@.take(i as int).last() == self.calls@[i - 1]);
                }
                return Some(i - 1);
            }
            i -= 1;
        }
        proof {
            no_index_at(self.calls@, site, 0);
            assert(self.calls@.take(0).len() == 0);
        }
        None
    }

    /// Index of the first call at `site`.
    pub fn first_at(&self, site: AllocationSite) -> (index: Option<usize>)
        ensures
            match index {
                Some(found) => first_index_at(self.calls@, site) == Some(found as int) && found
                    < self.calls@.len(),
                None => first_index_at(self.calls@, site) is None,
            },
    {
        let mut i: usize = 0;
        while i < self.calls.len()
            invariant
                i <= self.calls@.len(),
                forall|j: int| 0 <= j < i ==> (#[trigger] self.calls@[j]).site() != site,
            decreases self.calls@.len() - i,
        {
            if self.calls[i].is_at(site) {
                proof {
                    first_index_found(self.calls@, site, i as int);
                }
                return Some(i);
            }
            i += 1;
        }
        proof {
            first_index_absent(self.calls@, site);
        }
        None
    }
}

#[derive(Clone, Copy, Debug, PartialEq, Eq, Structural)]
pub enum StatementRole {
    /// The call is a whole expression statement.
    BareExpression,
    Other,
}

/// Statement a call stands in.
#[derive(Clone, Copy, Debug, PartialEq, Eq, Structural)]
pub struct StatementFact {
    /// Site of the call expression.
    pub call: AllocationSite,
    pub range: TextRange,
    pub role: StatementRole,
}

/// Statement-position facts, at most one per call.
pub struct StatementFacts {
    pub entries: Vec<StatementFact>,
}

/// Role of the first entry, from `i` on, for the call at `site`.
pub open spec fn role_from(entries: Seq<StatementFact>, site: AllocationSite, i: int) -> Option<
    StatementRole,
>
    decreases entries.len() - i,
{
    if i < 0 || i >= entries.len() {
        None
    } else if entries[i].call == site {
        Some(entries[i].role)
    } else {
        role_from(entries, site, i + 1)
    }
}

impl StatementFacts {
    /// Role of the statement that the call at `site` stands in.
    pub fn role_at(&self, site: AllocationSite) -> (role: Option<StatementRole>)
        ensures
            role == role_from(self.entries@, site, 0),
    {
        let mut i: usize = 0;
        while i < self.entries.len()
            invariant
                i <= self.entries@.len(),
                role_from(self.entries@, site, 0) == role_from(self.entries@, site, i as int),
            decreases self.entries@.len() - i,
        {
            if self.entries[i].call == site {
                return Some(self.entries[i].role);
            }
            i += 1;
        }
        None
    }
}

/// One import-bound name with the dotted path it stands for.
pub struct ImportBinding {
    pub name: String,
    pub target: String,
}

/// Import-derived names of one file. A name that the file binds in any other
/// way as well is no import binding.
pub struct FileBindingFacts {
    pub file: FileId,
    /// Modules imported by `from module import *`.
    pub star_modules: Vec<String>,
    pub imports: Vec<ImportBinding>,
    /// Names the file binds, by import or otherwise.
    pub bound_names: Vec<String>,
}

/// Dotted path of the first import, from `i` on, of this name.
pub open spec fn import_from(imports: Seq<ImportBinding>, name: Seq<char>, i: int) -> Option<
    Seq<char>,
>
    decreases imports.len() - i,
{
    if i < 0 || i >= imports.len() {
        None
    } else if imports[i].name@ == name {
        Some(imports[i].target@)
    } else {
        import_from(imports, name, i + 1)
    }
}

/// A base path followed by dotted segments.
pub open spec fn dotted_path(base: Seq<char>, segments: Seq<Seq<char>>) -> Seq<char>
    decreases segments.len(),
{
    if segments.len() == 0 {
        base
    } else {
        dotted_path(base, segments.drop_last()) + "."@ + segments.last()
    }
}

impl FileBindingFacts {
    pub open spec fn spec_import_target(&self, name: Seq<char>) -> Option<Seq<char>> {
        import_from(self.imports@, name, 0)
    }

    /// The dotted path an imported name stands for.
    pub fn import_target(&self, name: &str) -> (target: Option<&String>)
        ensures
            match target {
                Some(found) => self.spec_import_target(name@) == Some(found@),
                None => self.spec_import_target(name@) is None,
            },
    {
        let mut i: usize = 0;
        while i < self.imports.len()
            invariant
                i <= self.imports@.len(),
                self.spec_import_target(name@) == import_from(self.imports@, name@, i as int),
            decreases self.imports@.len() - i,
        {
            if same_text(self.imports[i].name.as_str(), name) {
                return Some(&self.imports[i].target);
            }
            i += 1;
        }
        None
    }

    pub open spec fn spec_unshadowed(&self, name: Seq<char>) -> bool {
        !texts(self.bound_names@).contains(name)
    }

    /// Whether nothing in the file binds the name.
    pub fn is_unshadowed_bare(&self, name: &str) -> (unshadowed: bool)
        ensures
            unshadowed == self.spec_unshadowed(name@),
    {
        !has_text(&self.bound_names, name)
    }

    pub open spec fn spec_star_from(&self, module: Seq<char>) -> bool {
        texts(self.star_modules@).contains(module)
    }

    /// Whether the file imports everything from a module.
    pub fn has_star_from(&self, module: &str) -> (imported: bool)
        ensures
            imported == self.spec_star_from(module@),
    {
        has_text(&self.star_modules, module)
    }

    pub open spec fn spec_resolve_parts(&self, parts: Seq<Seq<char>>) -> Option<Seq<char>> {
        if parts.len() == 0 {
            None
        } else {
            match self.spec_import_target(parts[0]) {
                Some(base) => Some(dotted_path(base, parts.drop_first())),
                None => None,
            }
        }
    }

    /// The dotted path a dotted chain stands for, through the imports.
    pub fn resolve_parts(&self, parts: &Vec<String>) -> (path: Option<String>)
        ensures
            match path {
                Some(found) => self.spec_resolve_parts(texts(parts@)) == Some(found@),
                None => self.spec_resolve_parts(texts(parts@)) is None,
            },
    {
        if parts.len() == 0 {
            return None;
        }
        assert(texts(parts@)[0] == parts@[0]@);
        match self.import_target(parts[0].as_str()) {
            Some(base) => {
                let ghost rest = texts(parts@).drop_first();
                let mut path: String = base.clone();
                let mut i: usize = 1;
                assert(rest.take(0) =~= Seq::empty());
                while i < parts.len()
                    invariant
                        1 <= i <= parts@.len(),
                        rest == texts(parts@).drop_first(),
                        path@ == dotted_path(base@, rest.take(i - 1)),
                    decreases parts@.len() - i,
                {
                    proof {
                        assert(rest.take(i as int).drop_last() =~= rest.take(i - 1));
                        assert(rest.take(i as int).last() == parts@[i as int]@);
                    }
                    path.append(".");
                    path.append(parts[i].as_str());
                    i += 1;
                }
                assert(rest.take(i - 1) =~= rest);
                Some(path)
            },
            None => None,
        }
    }
}

/// Binding facts of every file.
pub struct BindingFacts {
    pub files: Vec<FileBindingFacts>,
}

/// The first facts, from `i` on, about a file.
pub open spec fn bindings_from(files: Seq<FileBindingFacts>, file: FileId, i: int) -> Option<
    FileBindingFacts,
>
    decreases files.len() - i,
{
    if i < 0 || i >= files.len() {
        None
    } else if files[i].file == file {
        Some(files[i])
    } else {
        bindings_from(files, file, i + 1)
    }
}

impl BindingFacts {
    pub open spec fn spec_file(&self, file: FileId) -> Option<FileBindingFacts> {
        bindings_from(self.files@, file, 0)
    }

    /// Binding facts of a file.
    pub fn file(&self, file: FileId) -> (facts: Option<&FileBindingFacts>)
        ensures
            match facts {
                Some(found) => self.spec_file(file) == Some(*found),
                None => self.spec_file(file) is None,
            },
    {
        let mut i: usize = 0;
        while i < self.files.len()
            invariant
                i <= self.files@.len(),
                self.spec_file(file) == bindings_from(self.files@, file, i as int),
            decreases self.files@.len() - i,
        {
            if self.files[i].file == file {
                return Some(&self.files[i]);
            }
            i += 1;
        }
        None
    }
}

/// Manim families a class can belong to.
#[derive(Clone, Copy, Debug, PartialEq, Eq, Structural)]
pub enum ManimKind {
    Scene,
    Mobject,
    Animation,
}

/// A method a class body defines.
pub struct MethodRecord {
    pub name: String,
    pub range: TextRange,
}

/// One project class.
pub struct ClassRecord {
    pub id: String,
    pub name: String,
    pub file: FileId,
    pub methods: Vec<MethodRecord>,
    pub kinds: Vec<ManimKind>,
    /// Canonical ids of every base reached.
    pub reached_bases: Vec<String>,
    pub bases_fully_resolved: bool,
}

/// One project function.
pub struct FunctionRecord {
    pub id: String,
    pub signature: CallableSignature,
}

/// Project-wide symbol index.
pub struct ProjectIndex {
    pub classes: Vec<ClassRecord>,
    pub functions: Vec<FunctionRecord>,
    /// Top-level module names of the project.
    pub module_tree: Vec<String>,
}

/// The record of class `id`.
pub open spec fn class_in(classes: Seq<ClassRecord>, id: Seq<char>) -> Option<ClassRecord>
    decreases classes.len(),
{
    if classes.len() == 0 {
        None
    } else if classes[0].id@ == id {
        Some(classes[0])
    } else {
        class_in(classes.drop_first(), id)
    }
}

impl ProjectIndex {
    pub open spec fn spec_class(&self, id: Seq<char>) -> Option<ClassRecord> {
        class_in(self.classes@, id)
    }

    /// The record of class `id`.
    pub fn class(&self, id: &str) -> (record: Option<&ClassRecord>)
        ensures
            match record {
                Some(found) => self.spec_class(id@) == Some(*found),
                None => self.spec_class(id@) is None,
            },
    {
        let mut i: usize = 0;
        assert(self.classes@.skip(0) =~= self.classes@);
        while i < self.classes.len()
            invariant
                i <= self.classes@.len(),
                self.spec_class(id@) == class_in(self.classes@.skip(i as int), id@),
            decreases self.classes@.len() - i,
        {
            assert(self.classes@.skip(i as int).drop_first() =~= self.classes@.skip(i + 1));
            if same_text(self.classes[i].id.as_str(), id) {
                return Some(&self.classes[i]);
            }
            i += 1;
        }
        None
    }

    /// An index that knows nothing.
    pub fn empty() -> (index: ProjectIndex)
        ensures
            index.classes@.len() == 0,
            index.functions@.len() == 0,
            index.module_tree@.len() == 0,
    {
        ProjectIndex { classes: Vec::new(), functions: Vec::new(), module_tree: Vec::new() }
    }
}

impl QualifiedCallFacts {
    /// Facts about no call.
    pub fn empty() -> (facts: QualifiedCallFacts)
        ensures
            facts.calls@.len() == 0,
            facts.statements.entries@.len() == 0,
            facts.bindings.files@.len() == 0,
    {
        QualifiedCallFacts {
            calls: Vec::new(),
            statements: StatementFacts { entries: Vec::new() },
            bindings: BindingFacts { files: Vec::new() },
        }
    }
}

} // verus!
