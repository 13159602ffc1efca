//! The abstract syntax tree of a Circom program.
use vstd::prelude::*;
use std::ops::Range;

verus! {

/// A pragma of the program.
pub enum Pragma {
    Version(Meta, FileID, Version),
    CustomGates(Meta, FileID),
    Unrecognized,
}

/// Numbers the elements of a tree.
pub trait FillMeta {
    fn fill(&mut self, file_id: usize, elem_id: &mut usize);
}

/// The main component: its public signals and the call that builds it.
pub type MainComponent = (Vec<String>, Expression);

/// The main component with the given public signals and call.
pub fn build_main_component(public: Vec<String>, call: Expression) -> (r: MainComponent)
    ensures
        r == (public, call),
{
    (public, call)
}

/// A compiler version: major, minor, patch.
pub type Version = (usize, usize, usize);

pub type FileID = usize;

pub type FileLocation = Range<usize>;

#[derive(PartialEq, PartialOrd, Eq, Ord, Copy, Clone, Debug, Hash, Structural)]
pub enum Sign {
    Minus,
    NoSign,
    Plus,
}

/// A number: its sign and its digits in base 2^127 chunks as written.
#[derive(Clone, Debug)]
pub struct Num {
    pub sign: Sign,
    pub data: Vec<i128>,
}

impl Num {
    pub fn new(sign: Sign, d: Vec<i128>) -> (r: Num)
        ensures
            r.sign == sign,
            r.data == d,
    {
        Num { sign, data: d }
    }
}

/// Where an element stands in the source, and what analyses learned of it.
#[derive(Debug)]
pub struct Meta {
    pub elem_id: usize,
    pub start: usize,
    pub end: usize,
    pub location: FileLocation,
    pub file_id: Option<usize>,
    pub component_inference: Option<String>,
    pub type_knowledge: TypeKnowledge,
    pub memory_knowledge: MemoryKnowledge,
}

impl Meta {
    /// What is known of the element's type.
    pub open spec fn type_info(&self) -> TypeKnowledge {
        self.type_knowledge
    }

    /// What is known of the element's memory.
    pub open spec fn memory_info(&self) -> MemoryKnowledge {
        self.memory_knowledge
    }

    /// `self` is what `Meta::new(start, end)` gives.
    pub open spec fn fresh(&self, start: usize, end: usize) -> bool {
        &&& self.start == start
        &&& self.end == end
        &&& self.location.start == start
        &&& self.location.end == end
        &&& self.elem_id == 0
        &&& self.file_id is None
        &&& self.component_inference is None
        &&& self.type_info().reduces() is None
        &&& self.memory_info().unset()
    }

    pub fn new(start: usize, end: usize) -> (m: Meta)
        ensures
            m.fresh(start, end),
    {
        Meta {
            end,
            start,
            elem_id: 0,
            location: start..end,
            file_id: None,
            component_inference: None,
            type_knowledge: TypeKnowledge::new(),
            memory_knowledge: MemoryKnowledge::new(),
        }
    }

    pub fn change_location(&mut self, location: FileLocation, file_id: Option<usize>)
        ensures
            final(self).location == location,
            final(self).file_id == file_id,
            final(self).elem_id == old(self).elem_id,
            final(self).start == old(self).start,
            final(self).end == old(self).end,
            final(self).component_inference == old(self).component_inference,
            final(self).type_info() == old(self).type_info(),
            final(self).memory_info() == old(self).memory_info(),
    {
        self.location = location;
        self.file_id = file_id;
    }

    pub fn get_start(&self) -> (r: usize)
        ensures
            r == self.location.start,
    {
        self.location.start
    }

    pub fn get_end(&self) -> (r: usize)
        ensures
            r == self.location.end,
    {
        self.location.end
    }

    /// The file id; it must have been set.
    pub fn get_file_id(&self) -> (r: usize)
        requires
            self.file_id is Some,
        ensures
            r == self.file_id->Some_0,
    {
        match self.file_id {
            Some(id) => id,
            None => 0,
        }
    }

    pub fn get_memory_knowledge(&self) -> (r: &MemoryKnowledge)
        ensures
            *r == self.memory_info(),
    {
        &self.memory_knowledge
    }

    pub fn get_type_knowledge(&self) -> (r: &TypeKnowledge)
        ensures
            *r == self.type_info(),
    {
        &self.type_knowledge
    }

    pub fn get_mut_memory_knowledge(&mut self) -> (r: &mut MemoryKnowledge)
        ensures
            *r == old(self).memory_info(),
            final(self).memory_info() == *final(r),
            final(self).type_info() == old(self).type_info(),
            final(self).elem_id == old(self).elem_id,
            final(self).start == old(self).start,
            final(self).end == old(self).end,
            final(self).location == old(self).location,
            final(self).file_id == old(self).file_id,
            final(self).component_inference == old(self).component_inference,
    {
        &mut self.memory_knowledge
    }

    pub fn get_mut_type_knowledge(&mut self) -> (r: &mut TypeKnowledge)
        ensures
            *r == old(self).type_info(),
            final(self).type_info() == *final(r),
            final(self).memory_info() == old(self).memory_info(),
            final(self).elem_id == old(self).elem_id,
            final(self).start == old(self).start,
            final(self).end == old(self).end,
            final(self).location == old(self).location,
            final(self).file_id == old(self).file_id,
            final(self).component_inference == old(self).component_inference,
    {
        &mut self.type_knowledge
    }

    pub fn file_location(&self) -> (r: FileLocation)
        ensures
            r.start == self.location.start,
            r.end == self.location.end,
    {
        self.location.start..self.location.end
    }

    pub fn set_file_id(&mut self, file_id: usize)
        ensures
            final(self).file_id == Some(file_id),
            final(self).location == old(self).location,
            final(self).elem_id == old(self).elem_id,
            final(self).start == old(self).start,
            final(self).end == old(self).end,
            final(self).component_inference == old(self).component_inference,
            final(self).type_info() == old(self).type_info(),
            final(self).memory_info() == old(self).memory_info(),
    {
        self.file_id = Some(file_id);
    }
}

/// A program.
pub struct AST {
    pub meta: Meta,
    pub compiler_version: Option<Version>,
    pub custom_gates: bool,
    pub custom_gates_declared: bool,
    pub includes: Vec<String>,
    pub definitions: Vec<Definition>,
    pub main_component: Option<MainComponent>,
}

/// The version of the first version pragma.
pub open spec fn first_version(ps: Seq<Pragma>) -> Option<Version>
    decreases ps.len(),
{
    if ps.len() == 0 {
        None
    } else {
        match ps[0] {
            Pragma::Version(_, _, v) => Some(v),
            _ => first_version(ps.drop_first()),
        }
    }
}

/// Some pragma declares custom gates.
pub open spec fn declares_custom_gates(ps: Seq<Pragma>) -> bool {
    exists|i: int| 0 <= i < ps.len() && #[trigger] ps[i] is CustomGates
}

/// Some definition is a custom-gate template.
pub open spec fn has_custom_gate(ds: Seq<Definition>) -> bool {
    exists|i: int| 0 <= i < ds.len() && #[trigger] ds[i] matches Definition::Template { is_custom_gate: true, .. }
}

impl AST {
    /// A program: the first version pragma gives the compiler version, any
    /// custom-gates pragma turns custom gates on.
    pub fn new(
        meta: Meta,
        pragmas: Vec<Pragma>,
        includes: Vec<String>,
        definitions: Vec<Definition>,
        main_component: Option<MainComponent>,
    ) -> (r: AST)
        ensures
            r.meta == meta,
            r.compiler_version == first_version(pragmas@),
            r.custom_gates == declares_custom_gates(pragmas@),
            r.custom_gates_declared == has_custom_gate(definitions@),
            r.includes == includes,
            r.definitions == definitions,
            r.main_component == main_component,
    {
        let mut custom_gates: Option<bool> = None;
        let mut compiler_version: Option<Version> = None;
        let mut custom_gates_declared = false;
        let mut i: usize = 0;
        while i < definitions.len()
            invariant
                i <= definitions.len(),
                custom_gates_declared == exists|j: int| 0 <= j < i && #[trigger] definitions@[j] matches Definition::Template { is_custom_gate: true, .. },
            decreases definitions.len() - i,
        {
            match &definitions[i] {
                Definition::Template { is_custom_gate, .. } => {
                    if *is_custom_gate {
                        custom_gates_declared = true;
                    }
                },
                _ => {},
            }
            i += 1;
        }
        let mut k: usize = 0;
        assert(pragmas@.skip(0) =~= pragmas@);
        while k < pragmas.len()
            invariant
                k <= pragmas.len(),
                first_version(pragmas@) == match compiler_version {
                    Some(v) => Some(v),
                    None => first_version(pragmas@.skip(k as int)),
                },
                (custom_gates == Some(true)) == exists|j: int| 0 <= j < k && #[trigger] pragmas@[j] is CustomGates,
                custom_gates is None || custom_gates == Some(true),
            decreases pragmas.len() - k,
        {
            proof {
                assert(pragmas@.skip(k as int).drop_first() =~= pragmas@.skip(k + 1));
                assert(pragmas@.skip(k as int)[0] == pragmas@[k as int]);
            }
            match &pragmas[k] {
                Pragma::Version(_, _, ver) => {
                    if compiler_version.is_none() {
                        compiler_version = Some(*ver);
                    }
                },
                Pragma::CustomGates(_, _) => {
                    if custom_gates.is_none() {
                        custom_gates = Some(true);
                    }
                },
                Pragma::Unrecognized => {},
            }
            k += 1;
        }
        let cg = match custom_gates {
            Some(b) => b,
            None => false,
        };
        AST { meta, compiler_version, custom_gates: cg, custom_gates_declared, includes, definitions, main_component }
    }
}

/// A template or a function.
pub enum Definition {
    Template {
        meta: Meta,
        name: String,
        args: Vec<String>,
        arg_location: FileLocation,
        body: Statement,
        parallel: bool,
        is_custom_gate: bool,
    },
    Function { meta: Meta, name: String, args: Vec<String>, arg_location: FileLocation, body: Statement },
}

pub fn build_template(
    meta: Meta,
    name: String,
    args: Vec<String>,
    arg_location: FileLocation,
    body: Statement,
    parallel: bool,
    is_custom_gate: bool,
) -> (r: Definition)
    ensures
        r == (Definition::Template { meta, name, args, arg_location, body, parallel, is_custom_gate }),
{
    Definition::Template { meta, name, args, arg_location, body, parallel, is_custom_gate }
}

pub fn build_function(meta: Meta, name: String, args: Vec<String>, arg_location: FileLocation, body: Statement) -> (r: Definition)
    ensures
        r == (Definition::Function { meta, name, args, arg_location, body }),
{
    Definition::Function { meta, name, args, arg_location, body }
}

/// A statement.
#[derive(Debug)]
pub enum Statement {
    IfThenElse { meta: Meta, cond: Expression, if_case: Box<Statement>, else_case: Option<Box<Statement>> },
    While { meta: Meta, cond: Expression, stmt: Box<Statement> },
    Return { meta: Meta, value: Expression },
    InitializationBlock { meta: Meta, xtype: VariableType, initializations: Vec<Statement> },
    Declaration { meta: Meta, xtype: VariableType, name: String, dimensions: Vec<Expression>, is_constant: bool },
    Substitution { meta: Meta, var: String, access: Vec<Access>, op: AssignOp, rhe: Expression },
    MultSubstitution { meta: Meta, lhe: Expression, op: AssignOp, rhe: Expression },
    UnderscoreSubstitution { meta: Meta, op: AssignOp, rhe: Expression },
    ConstraintEquality { meta: Meta, lhe: Expression, rhe: Expression },
    LogCall { meta: Meta, args: Vec<LogArgument> },
    Block { meta: Meta, stmts: Vec<Statement> },
    Assert { meta: Meta, arg: Expression },
}

#[derive(Copy, Clone, PartialEq, Eq, PartialOrd, Ord, Debug, Structural)]
pub enum SignalType {
    Output,
    Input,
    Intermediate,
}

pub type TagList = Vec<String>;

/// The type of a declared variable.
#[derive(Clone, PartialEq, Eq, Debug)]
pub enum VariableType {
    Var,
    Signal(SignalType, TagList),
    Component,
    AnonymousComponent,
}

/// An expression.
#[derive(Debug)]
pub enum Expression {
    InfixOp { meta: Meta, lhe: Box<Expression>, infix_op: ExpressionInfixOpcode, rhe: Box<Expression> },
    PrefixOp { meta: Meta, prefix_op: ExpressionPrefixOpcode, rhe: Box<Expression> },
    InlineSwitchOp { meta: Meta, cond: Box<Expression>, if_true: Box<Expression>, if_false: Box<Expression> },
    ParallelOp { meta: Meta, rhe: Box<Expression> },
    Variable { meta: Meta, name: String, access: Vec<Access> },
    Number(Meta, Num),
    Call { meta: Meta, id: String, args: Vec<Expression> },
    AnonymousComp {
        meta: Meta,
        id: String,
        is_parallel: bool,
        params: Vec<Expression>,
        signals: Vec<Expression>,
        names: Option<Vec<(AssignOp, String)>>,
    },
    ArrayInLine { meta: Meta, values: Vec<Expression> },
    Tuple { meta: Meta, values: Vec<Expression> },
    UniformArray { meta: Meta, value: Box<Expression>, dimension: Box<Expression> },
}

/// An access into a variable: a component field or an array index.
#[derive(Debug)]
pub enum Access {
    ComponentAccess(String),
    ArrayAccess(Expression),
}

pub fn build_component_access(acc: String) -> (r: Access)
    ensures
        r == Access::ComponentAccess(acc),
{
    Access::ComponentAccess(acc)
}

pub fn build_array_access(expr: Expression) -> (r: Access)
    ensures
        r == Access::ArrayAccess(expr),
{
    Access::ArrayAccess(expr)
}

#[derive(Copy, Clone, Eq, PartialEq, Debug, Structural)]
pub enum AssignOp {
    AssignVar,
    AssignSignal,
    AssignConstraintSignal,
}

#[derive(Copy, Clone, PartialEq, Eq, Debug, Structural)]
pub enum ExpressionInfixOpcode {
    Mul,
    Div,
    Add,
    Sub,
    Pow,
    IntDiv,
    Mod,
    ShiftL,
    ShiftR,
    LesserEq,
    GreaterEq,
    Lesser,
    Greater,
    Eq,
    NotEq,
    BoolOr,
    BoolAnd,
    BitOr,
    BitAnd,
    BitXor,
}

#[derive(Copy, Clone, PartialEq, Eq, Debug, Structural)]
pub enum ExpressionPrefixOpcode {
    Sub,
    BoolNot,
    Complement,
}

#[derive(Copy, Clone, PartialOrd, PartialEq, Ord, Eq, Debug, Structural)]
pub enum TypeReduction {
    Variable,
    Component,
    Signal,
    Tag,
}

/// An argument of a log call.
#[derive(Debug)]
pub enum LogArgument {
    LogStr(String),
    LogExp(Expression),
}

pub fn build_log_string(acc: String) -> (r: LogArgument)
    ensures
        r == LogArgument::LogStr(acc),
{
    LogArgument::LogStr(acc)
}

pub fn build_log_expression(expr: Expression) -> (r: LogArgument)
    ensures
        r == LogArgument::LogExp(expr),
{
    LogArgument::LogExp(expr)
}

/// What an analysis learned of an element's type.
#[derive(Clone, Debug)]
pub struct TypeKnowledge {
    reduces_to: Option<TypeReduction>,
}

impl TypeKnowledge {
    /// What the element's type reduces to, if learned.
    pub closed spec fn reduces(&self) -> Option<TypeReduction> {
        self.reduces_to
    }

    pub fn new() -> (r: TypeKnowledge)
        ensures
            r.reduces() is None,
    {
        TypeKnowledge { reduces_to: None }
    }

    /// What the type reduces to, if it was set.
    pub fn reduces_to_known(&self) -> (r: Option<TypeReduction>)
        ensures
            r == self.reduces(),
    {
        self.reduces_to
    }

    pub fn set_reduces_to(&mut self, reduces_to: TypeReduction)
        ensures
            final(self).reduces() == Some(reduces_to),
    {
        self.reduces_to = Some(reduces_to);
    }

    /// What the type reduces to; it must have been set.
    pub fn get_reduces_to(&self) -> (r: TypeReduction)
        requires
            self.reduces() is Some,
        ensures
            r == self.reduces()->Some_0,
    {
        match self.reduces_to {
            Some(t) => t,
            None => TypeReduction::Variable,
        }
    }

    pub fn is_var(&self) -> (b: bool)
        requires
            self.reduces() is Some,
        ensures
            b == (self.reduces()->Some_0 == TypeReduction::Variable),
    {
        self.get_reduces_to() == TypeReduction::Variable
    }

    pub fn is_component(&self) -> (b: bool)
        requires
            self.reduces() is Some,
        ensures
            b == (self.reduces()->Some_0 == TypeReduction::Component),
    {
        self.get_reduces_to() == TypeReduction::Component
    }

    pub fn is_signal(&self) -> (b: bool)
        requires
            self.reduces() is Some,
        ensures
            b == (self.reduces()->Some_0 == TypeReduction::Signal),
    {
        self.get_reduces_to() == TypeReduction::Signal
    }

    pub fn is_tag(&self) -> (b: bool)
        requires
            self.reduces() is Some,
        ensures
            b == (self.reduces()->Some_0 == TypeReduction::Tag),
    {
        self.get_reduces_to() == TypeReduction::Tag
    }
}

impl Default for TypeKnowledge {
    fn default() -> (r: TypeKnowledge)
        ensures
            r.reduces() is None,
    {
        TypeKnowledge::new()
    }
}

/// The product of the dimensions.
pub open spec fn product(v: Seq<usize>) -> int
    decreases v.len(),
{
    if v.len() == 0 {
        1
    } else {
        product(v.drop_last()) * v.last()
    }
}

/// What an analysis learned of an element's memory.
#[derive(Clone, Debug)]
pub struct MemoryKnowledge {
    concrete_dimensions: Option<Vec<usize>>,
    full_length: Option<usize>,
    abstract_memory_address: Option<usize>,
}

impl MemoryKnowledge {
    /// The concrete dimensions, if learned.
    pub closed spec fn dims(&self) -> Option<Seq<usize>> {
        match self.concrete_dimensions {
            Some(v) => Some(v@),
            None => None,
        }
    }

    /// The full length, if learned.
    pub closed spec fn full(&self) -> Option<usize> {
        self.full_length
    }

    /// The abstract memory address, if learned.
    pub closed spec fn address(&self) -> Option<usize> {
        self.abstract_memory_address
    }

    /// Nothing is known yet.
    pub open spec fn unset(&self) -> bool {
        self.dims() is None && self.full() is None && self.address() is None
    }

    pub fn new() -> (r: MemoryKnowledge)
        ensures
            r.unset(),
    {
        MemoryKnowledge { concrete_dimensions: None, full_length: None, abstract_memory_address: None }
    }

    /// Records the dimensions, and their product as the full length; the
    /// product must fit in `usize`.
    pub fn set_concrete_dimensions(&mut self, value: Vec<usize>)
        requires
            forall|k: int| 0 <= k <= value@.len() ==> #[trigger] product(value@.take(k)) <= usize::MAX,
        ensures
            final(self).dims() == Some(value@),
            final(self).full() == Some(product(value@) as usize),
            final(self).address() == old(self).address(),
    {
        let mut p: usize = 1;
        let mut i: usize = 0;
        assert(value@.take(0) =~= Seq::<usize>::empty());
        while i < value.len()
            invariant
                i <= value.len(),
                p == product(value@.take(i as int)),
                forall|k: int| 0 <= k <= value@.len() ==> #[trigger] product(value@.take(k)) <= usize::MAX,
            decreases value.len() - i,
        {
            assert(value@.take(i + 1).drop_last() =~= value@.take(i as int));
            assert(product(value@.take(i + 1)) <= usize::MAX);
            p = p * value[i];
            i += 1;
        }
        assert(value@.take(value.len() as int) =~= value@);
        self.full_length = Some(p);
        self.concrete_dimensions = Some(value);
    }

    /// The concrete dimensions, if they were set.
    pub fn known_dimensions(&self) -> (r: Option<Vec<usize>>)
        ensures
            match r {
                Some(v) => self.dims() == Some(v@),
                None => self.dims() is None,
            },
    {
        match &self.concrete_dimensions {
            Some(v) => {
                let mut c: Vec<usize> = Vec::new();
                let mut i: usize = 0;
                while i < v.len()
                    invariant
                        i <= v.len(),
                        c@ == v@.take(i as int),
                    decreases v.len() - i,
                {
                    c.push(v[i]);
                    i += 1;
                    assert(c@ =~= v@.take(i as int));
                }
                assert(v@.take(v.len() as int) =~= v@);
                Some(c)
            },
            None => None,
        }
    }

    /// The full length, if it was set.
    pub fn known_full_length(&self) -> (r: Option<usize>)
        ensures
            r == self.full(),
    {
        self.full_length
    }

    /// The abstract memory address, if it was set.
    pub fn known_address(&self) -> (r: Option<usize>)
        ensures
            r == self.address(),
    {
        self.abstract_memory_address
    }

    pub fn set_abstract_memory_address(&mut self, value: usize)
        ensures
            final(self).address() == Some(value),
            final(self).dims() == old(self).dims(),
            final(self).full() == old(self).full(),
    {
        self.abstract_memory_address = Some(value);
    }

    /// The concrete dimensions; they must have been set.
    pub fn get_concrete_dimensions(&self) -> (r: &[usize])
        requires
            self.dims() is Some,
        ensures
            r@ == self.dims()->Some_0,
    {
        match &self.concrete_dimensions {
            Some(v) => v.as_slice(),
            None => &[],
        }
    }

    /// The full length; it must have been set.
    pub fn get_full_length(&self) -> (r: usize)
        requires
            self.full() is Some,
        ensures
            r == self.full()->Some_0,
    {
        match self.full_length {
            Some(v) => v,
            None => 0,
        }
    }

    /// The abstract memory address; it must have been set.
    pub fn get_abstract_memory_address(&self) -> (r: usize)
        requires
            self.address() is Some,
        ensures
            r == self.address()->Some_0,
    {
        match self.abstract_memory_address {
            Some(v) => v,
            None => 0,
        }
    }
}

impl Default for MemoryKnowledge {
    fn default() -> (r: MemoryKnowledge)
        ensures
            r.unset(),
    {
        MemoryKnowledge::new()
    }
}

} // verus!
