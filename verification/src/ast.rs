//! Syntax trees of Python code, as far as rules read them.
use crate::source::TextRange;
use crate::text::{same_text, texts};
use vstd::prelude::*;

verus! {

#[derive(Clone, Copy, Debug, PartialEq, Eq, Structural)]
pub enum BinaryOperator {
    Add,
    Sub,
    Mult,
    Div,
    Other,
}

#[derive(Clone, Copy, Debug, PartialEq, Eq, Structural)]
pub enum UnaryOperator {
    Plus,
    Minus,
    Other,
}

/// Parameters of a function or lambda.
pub struct Parameters {
    /// Positional parameters, positional-only ones first.
    pub positional: Vec<String>,
    /// Keyword-only parameters and the names of `*` and `**` parameters.
    pub others: Vec<String>,
}

/// What kind of expression a node is. The sub-expressions stand in the
/// node's parts, in the order given here.
pub enum Form {
    Name(String),
    /// An int literal; none when it does not fit.
    Int(Option<i64>),
    Float,
    /// Any other literal.
    Constant,
    /// The object.
    Attribute(String),
    /// The callee, then the positional arguments, then the keyword values,
    /// with a name for each keyword that is no splat.
    Call { arguments: usize, keywords: Vec<Option<String>> },
    Binary(BinaryOperator),
    Unary(UnaryOperator),
    /// The operands of `and` or `or`.
    Boolean,
    /// The test, the value if true, the value if false.
    Conditional,
    /// The object and the index.
    Subscript,
    Tuple,
    List,
    Starred,
    /// The defaults, then the body.
    Lambda,
    Comprehension,
    Other,
}

/// An expression.
pub struct Expr {
    pub range: TextRange,
    pub form: Form,
    pub parts: Vec<Expr>,
}

/// What kind of statement a node is.
#[derive(Clone, Copy, Debug, PartialEq, Eq, Structural)]
pub enum StmtKind {
    Expr,
    Assign,
    AnnAssign,
    AugAssign,
    Pass,
    Import,
    Return,
    Raise,
    Break,
    Continue,
    For,
    /// Any other compound statement whose nested statements run in place.
    Block,
    /// A function or class definition.
    Definition,
    Other,
}

/// A statement.
pub struct Stmt {
    pub kind: StmtKind,
    /// Expressions the statement itself evaluates.
    pub values: Vec<Expr>,
    /// Targets the statement binds.
    pub targets: Vec<Expr>,
    pub body: Vec<Stmt>,
    /// Statements of the other branches, in order.
    pub rest: Vec<Stmt>,
}

/// A lambda expression of a file.
pub struct LambdaFact {
    pub range: TextRange,
    pub parameters: Parameters,
    pub body: Expr,
}

/// A function definition of a file, nested ones included.
pub struct FunctionFact {
    pub name: String,
    pub range: TextRange,
    pub parameters: Parameters,
    pub body: Vec<Stmt>,
}

/// The syntax of a file.
pub struct Syntax {
    pub module: Vec<Stmt>,
    pub lambdas: Vec<LambdaFact>,
    pub functions: Vec<FunctionFact>,
}

impl Parameters {
    /// Name of the first positional parameter.
    pub open spec fn spec_first(&self) -> Option<Seq<char>> {
        if self.positional@.len() > 0 {
            Some(self.positional@[0]@)
        } else {
            None
        }
    }

    pub fn first(&self) -> (name: Option<&String>)
        ensures
            match name {
                Some(found) => self.spec_first() == Some(found@),
                None => self.spec_first() is None,
            },
    {
        if self.positional.len() > 0 {
            Some(&self.positional[0])
        } else {
            None
        }
    }

    /// Whether some parameter has this name.
    pub open spec fn declares(&self, name: Seq<char>) -> bool {
        texts(self.positional@).contains(name) || texts(self.others@).contains(name)
    }

    pub fn has(&self, name: &str) -> (declared: bool)
        ensures
            declared == self.declares(name@),
    {
        crate::text::has_text(&self.positional, name) || crate::text::has_text(&self.others, name)
    }
}

/// The first lambda at a range, from position `i` on.
pub open spec fn lambda_from(list: Seq<LambdaFact>, range: TextRange, i: int) -> Option<LambdaFact>
    decreases list.len() - i,
{
    if i < 0 || i >= list.len() {
        None
    } else if list[i].range == range {
        Some(list[i])
    } else {
        lambda_from(list, range, i + 1)
    }
}

/// The first function at a range, from position `i` on.
pub open spec fn function_from(list: Seq<FunctionFact>, range: TextRange, i: int) -> Option<
    FunctionFact,
>
    decreases list.len() - i,
{
    if i < 0 || i >= list.len() {
        None
    } else if list[i].range == range {
        Some(list[i])
    } else {
        function_from(list, range, i + 1)
    }
}

/// The first function with this name, from position `i` on.
pub open spec fn named_from(list: Seq<FunctionFact>, name: Seq<char>, i: int) -> Option<int>
    decreases list.len() - i,
{
    if i < 0 || i >= list.len() {
        None
    } else if list[i].name@ == name {
        Some(i)
    } else {
        named_from(list, name, i + 1)
    }
}

impl Syntax {
    /// The lambda at a range.
    pub fn lambda_at(&self, range: TextRange) -> (lambda: Option<&LambdaFact>)
        ensures
            match lambda {
                Some(found) => lambda_from(self.lambdas@, range, 0) == Some(*found),
                None => lambda_from(self.lambdas@, range, 0) is None,
            },
    {
        let mut i: usize = 0;
        while i < self.lambdas.len()
            invariant
                i <= self.lambdas@.len(),
                lambda_from(self.lambdas@, range, 0) == lambda_from(
                    self.lambdas@,
                    range,
                    i as int,
                ),
            decreases self.lambdas@.len() - i,
        {
            if self.lambdas[i].range == range {
                return Some(&self.lambdas[i]);
            }
            i += 1;
        }
        None
    }

    /// The function definition at a range.
    pub fn function_def_at(&self, range: TextRange) -> (function: Option<&FunctionFact>)
        ensures
            match function {
                Some(found) => function_from(self.functions@, range, 0) == Some(*found),
                None => function_from(self.functions@, range, 0) is None,
            },
    {
        let mut i: usize = 0;
        while i < self.functions.len()
            invariant
                i <= self.functions@.len(),
                function_from(self.functions@, range, 0) == function_from(
                    self.functions@,
                    range,
                    i as int,
                ),
            decreases self.functions@.len() - i,
        {
            if self.functions[i].range == range {
                return Some(&self.functions[i]);
            }
            i += 1;
        }
        None
    }

    fn named_index(&self, name: &str, start: usize) -> (index: Option<usize>)
        ensures
            match index {
                Some(found) => found < self.functions@.len() && named_from(
                    self.functions@,
                    name@,
                    start as int,
                ) == Some(found as int),
                None => named_from(self.functions@, name@, start as int) is None,
            },
    {
        let mut i: usize = start;
        while i < self.functions.len()
            invariant
                start <= i,
                named_from(self.functions@, name@, start as int) == named_from(
                    self.functions@,
                    name@,
                    i as int,
                ),
            decreases self.functions@.len() - i,
        {
            if same_text(self.functions[i].name.as_str(), name) {
                return Some(i);
            }
            i += 1;
        }
        None
    }

    /// The function with this name, when it is the only one.
    pub open spec fn spec_unique(&self, name: Seq<char>) -> Option<FunctionFact> {
        match named_from(self.functions@, name, 0) {
            Some(i) => if named_from(self.functions@, name, i + 1) is None {
                Some(self.functions@[i])
            } else {
                None
            },
            None => None,
        }
    }

    /// The function definition with this name, when exactly one exists in
    /// the whole file: ambiguity means silence.
    pub fn unique_function_def(&self, name: &str) -> (function: Option<&FunctionFact>)
        ensures
            match function {
                Some(found) => self.spec_unique(name@) == Some(*found),
                None => self.spec_unique(name@) is None,
            },
    {
        match self.named_index(name, 0) {
            Some(i) => {
                assert(i < self.functions.len());
                match self.named_index(name, i + 1) {
                    Some(_) => None,
                    None => Some(&self.functions[i]),
                }
            },
            None => None,
        }
    }
}

// ---------------------------------------------------------------------------
// Expressions.
// ---------------------------------------------------------------------------

/// Whether an expression is the bare name `name`.
pub open spec fn is_name(expr: Expr, name: Seq<char>) -> bool {
    match expr.form {
        Form::Name(id) => id@ == name,
        _ => false,
    }
}

pub fn named(expr: &Expr, name: &str) -> (is: bool)
    ensures
        is == is_name(*expr, name@),
{
    match &expr.form {
        Form::Name(id) => same_text(id.as_str(), name),
        _ => false,
    }
}

/// Whether the name occurs anywhere in an expression.
pub open spec fn mentions(expr: Expr, name: Seq<char>) -> bool
    decreases expr,
{
    is_name(expr, name) || exists|i: int|
        0 <= i < expr.parts@.len() && mentions(#[trigger] expr.parts@[i], name)
}

/// Whether the name occurs anywhere in the expression, lambda defaults and
/// bodies, comprehension parts, and f-string parts included.
pub fn mentions_name(expr: &Expr, name: &str) -> (found: bool)
    ensures
        found == mentions(*expr, name@),
    decreases expr,
{
    if named(expr, name) {
        return true;
    }
    let mut i: usize = 0;
    while i < expr.parts.len()
        invariant
            i <= expr.parts@.len(),
            forall|j: int| 0 <= j < i ==> !mentions(#[trigger] expr.parts@[j], name@),
            !is_name(*expr, name@),
        decreases expr.parts@.len() - i,
    {
        if mentions_name(&expr.parts[i], name) {
            return true;
        }
        i += 1;
    }
    false
}

/// Segments of a plain dotted path.
pub open spec fn dotted(expr: Expr) -> Option<Seq<Seq<char>>>
    decreases expr,
{
    match expr.form {
        Form::Name(id) => Some(seq![id@]),
        Form::Attribute(attr) => if expr.parts@.len() == 1 {
            match dotted(expr.parts@[0]) {
                Some(path) => Some(path.push(attr@)),
                None => None,
            }
        } else {
            None
        },
        _ => None,
    }
}

pub fn flatten_dotted(expr: &Expr) -> (path: Option<Vec<String>>)
    ensures
        match path {
            Some(found) => dotted(*expr) == Some(texts(found@)),
            None => dotted(*expr) is None,
        },
    decreases expr,
{
    match &expr.form {
        Form::Name(id) => {
            let path: Vec<String> = vec![id.clone()];
            assert(texts(path@) =~= seq![id@]);
            Some(path)
        },
        Form::Attribute(attr) => {
            if expr.parts.len() != 1 {
                return None;
            }
            match flatten_dotted(&expr.parts[0]) {
                Some(path) => {
                    let ghost before = path@;
                    let mut longer = path;
                    longer.push(attr.clone());
                    assert(texts(longer@) =~= texts(before).push(attr@));
                    Some(longer)
                },
                None => None,
            }
        },
        _ => None,
    }
}

/// Whether a target binds the name.
pub open spec fn binds(target: Expr, name: Seq<char>) -> bool
    decreases target,
{
    match target.form {
        Form::Name(id) => id@ == name,
        Form::Tuple | Form::List | Form::Starred => exists|i: int|
            0 <= i < target.parts@.len() && binds(#[trigger] target.parts@[i], name),
        _ => false,
    }
}

pub fn binds_name(target: &Expr, name: &str) -> (bound: bool)
    ensures
        bound == binds(*target, name@),
    decreases target,
{
    match &target.form {
        Form::Name(id) => same_text(id.as_str(), name),
        Form::Tuple | Form::List | Form::Starred => {
            let mut i: usize = 0;
            while i < target.parts.len()
                invariant
                    i <= target.parts@.len(),
                    target.form is Tuple || target.form is List || target.form is Starred,
                    forall|j: int| 0 <= j < i ==> !binds(#[trigger] target.parts@[j], name@),
                decreases target.parts@.len() - i,
            {
                if binds_name(&target.parts[i], name) {
                    return true;
                }
                i += 1;
            }
            false
        },
        _ => false,
    }
}

// ---------------------------------------------------------------------------
// Statements.
// ---------------------------------------------------------------------------

/// Whether one of the targets binds the name.
pub open spec fn any_binds(targets: Seq<Expr>, name: Seq<char>) -> bool {
    exists|i: int| 0 <= i < targets.len() && binds(#[trigger] targets[i], name)
}

pub fn has_binding(targets: &Vec<Expr>, name: &str) -> (bound: bool)
    ensures
        bound == any_binds(targets@, name@),
{
    let mut i: usize = 0;
    while i < targets.len()
        invariant
            i <= targets@.len(),
            forall|j: int| 0 <= j < i ==> !binds(#[trigger] targets@[j], name@),
        decreases targets@.len() - i,
    {
        if binds_name(&targets[i], name) {
            return true;
        }
        i += 1;
    }
    false
}

/// Whether a statement, or one nested in it at any depth, binds the name.
pub open spec fn rebinds(stmt: Stmt, name: Seq<char>) -> bool
    decreases stmt,
{
    any_binds(stmt.targets@, name) || (exists|i: int|
        0 <= i < stmt.body@.len() && rebinds(#[trigger] stmt.body@[i], name)) || (exists|i: int|
        0 <= i < stmt.rest@.len() && rebinds(#[trigger] stmt.rest@[i], name))
}

pub fn rebinds_name(stmt: &Stmt, name: &str) -> (bound: bool)
    ensures
        bound == rebinds(*stmt, name@),
    decreases stmt,
{
    if has_binding(&stmt.targets, name) {
        return true;
    }
    let mut i: usize = 0;
    while i < stmt.body.len()
        invariant
            i <= stmt.body@.len(),
            forall|j: int| 0 <= j < i ==> !rebinds(#[trigger] stmt.body@[j], name@),
        decreases stmt.body@.len() - i,
    {
        if rebinds_name(&stmt.body[i], name) {
            return true;
        }
        i += 1;
    }
    let mut k: usize = 0;
    while k < stmt.rest.len()
        invariant
            k <= stmt.rest@.len(),
            forall|j: int| 0 <= j < k ==> !rebinds(#[trigger] stmt.rest@[j], name@),
        decreases stmt.rest@.len() - k,
    {
        if rebinds_name(&stmt.rest[k], name) {
            return true;
        }
        k += 1;
    }
    false
}

/// Whether a statement leaves the enclosing block early, itself or through a
/// nested statement that runs in place.
pub open spec fn short_circuits(stmt: Stmt) -> bool
    decreases stmt,
{
    stmt.kind == StmtKind::Break || stmt.kind == StmtKind::Continue || stmt.kind
        == StmtKind::Return || stmt.kind == StmtKind::Raise || (stmt.kind != StmtKind::Definition
        && ((exists|i: int|
        0 <= i < stmt.body@.len() && short_circuits(#[trigger] stmt.body@[i])) || (exists|i: int|
        0 <= i < stmt.rest@.len() && short_circuits(#[trigger] stmt.rest@[i]))))
}

pub fn stmt_may_short_circuit(stmt: &Stmt) -> (may: bool)
    ensures
        may == short_circuits(*stmt),
    decreases stmt,
{
    if stmt.kind == StmtKind::Break || stmt.kind == StmtKind::Continue || stmt.kind
        == StmtKind::Return || stmt.kind == StmtKind::Raise {
        return true;
    }
    if stmt.kind == StmtKind::Definition {
        return false;
    }
    let mut i: usize = 0;
    while i < stmt.body.len()
        invariant
            i <= stmt.body@.len(),
            stmt.kind != StmtKind::Definition,
            forall|j: int| 0 <= j < i ==> !short_circuits(#[trigger] stmt.body@[j]),
        decreases stmt.body@.len() - i,
    {
        if stmt_may_short_circuit(&stmt.body[i]) {
            return true;
        }
        i += 1;
    }
    let mut k: usize = 0;
    while k < stmt.rest.len()
        invariant
            k <= stmt.rest@.len(),
            stmt.kind != StmtKind::Definition,
            forall|j: int| 0 <= j < k ==> !short_circuits(#[trigger] stmt.rest@[j]),
        decreases stmt.rest@.len() - k,
    {
        if stmt_may_short_circuit(&stmt.rest[k]) {
            return true;
        }
        k += 1;
    }
    false
}

/// Whether a list of statements may be left early.
pub open spec fn any_short_circuits(body: Seq<Stmt>) -> bool {
    exists|i: int| 0 <= i < body.len() && short_circuits(#[trigger] body[i])
}

/// Whether the body contains a `break`, `continue`, `return`, or `raise`
/// anywhere that runs in place.
pub fn body_may_short_circuit(body: &Vec<Stmt>) -> (may: bool)
    ensures
        may == any_short_circuits(body@),
{
    let mut i: usize = 0;
    while i < body.len()
        invariant
            i <= body@.len(),
            forall|j: int| 0 <= j < i ==> !short_circuits(#[trigger] body@[j]),
        decreases body@.len() - i,
    {
        if stmt_may_short_circuit(&body[i]) {
            return true;
        }
        i += 1;
    }
    false
}

} // verus!
