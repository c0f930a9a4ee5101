use vstd::prelude::*;

verus! {

// ---------------------------------------------------------------------------
// Flags and small closed enumerations
// ---------------------------------------------------------------------------

/// Selects one of the two output spacing styles of the demangler.
#[derive(Clone, Copy, PartialEq, Eq, Structural)]
pub enum DemangleFlags {
    LessWhitespace,
    LotsOfWhitespace,
}

/// Calling conventions that can be encoded in a mangled function type.
#[derive(Clone, Copy, PartialEq, Eq, Structural)]
pub enum CallingConv {
    Cdecl,
    Pascal,
    Thiscall,
    Stdcall,
    Fastcall,
    _Regcall,
}

/// A storage-class qualifier set: independent flags attached to a type node.
/// Qualifiers apply to the node itself, not transitively.
#[derive(Clone, Copy, PartialEq, Eq, Structural)]
pub struct StorageClass {
    pub is_const: bool,
    pub is_volatile: bool,
    pub is_far: bool,
    pub is_huge: bool,
    pub is_unaligned: bool,
    pub is_restrict: bool,
}

impl StorageClass {
    pub open spec fn spec_empty() -> StorageClass {
        StorageClass {
            is_const: false,
            is_volatile: false,
            is_far: false,
            is_huge: false,
            is_unaligned: false,
            is_restrict: false,
        }
    }

    pub open spec fn spec_cvf(c: bool, v: bool, f: bool) -> StorageClass {
        StorageClass {
            is_const: c,
            is_volatile: v,
            is_far: f,
            is_huge: false,
            is_unaligned: false,
            is_restrict: false,
        }
    }

    /// The empty qualifier set.
    pub fn empty() -> (r: StorageClass)
        ensures
            r == StorageClass::spec_empty(),
    {
        StorageClass {
            is_const: false,
            is_volatile: false,
            is_far: false,
            is_huge: false,
            is_unaligned: false,
            is_restrict: false,
        }
    }

    /// A qualifier set with the given const/volatile/far flags.
    pub fn cvf(c: bool, v: bool, f: bool) -> (r: StorageClass)
        ensures
            r == StorageClass::spec_cvf(c, v, f),
    {
        StorageClass {
            is_const: c,
            is_volatile: v,
            is_far: f,
            is_huge: false,
            is_unaligned: false,
            is_restrict: false,
        }
    }
}

/// Linkage/visibility class of a member function.
#[derive(Clone, Copy, PartialEq, Eq, Structural)]
pub struct FuncClass {
    pub is_public: bool,
    pub is_protected: bool,
    pub is_private: bool,
    pub is_global: bool,
    pub is_static: bool,
    pub is_virtual: bool,
    pub is_far: bool,
    pub is_thunk: bool,
}

impl FuncClass {
    pub open spec fn spec_make(
        pu: bool,
        pr: bool,
        pv: bool,
        gl: bool,
        st: bool,
        vi: bool,
        fa: bool,
        th: bool,
    ) -> FuncClass {
        FuncClass {
            is_public: pu,
            is_protected: pr,
            is_private: pv,
            is_global: gl,
            is_static: st,
            is_virtual: vi,
            is_far: fa,
            is_thunk: th,
        }
    }

    /// Builds a function class from its individual flags, in the order
    /// public, protected, private, global, static, virtual, far, thunk.
    pub fn make(
        pu: bool,
        pr: bool,
        pv: bool,
        gl: bool,
        st: bool,
        vi: bool,
        fa: bool,
        th: bool,
    ) -> (r: FuncClass)
        ensures
            r == FuncClass::spec_make(pu, pr, pv, gl, st, vi, fa, th),
    {
        FuncClass {
            is_public: pu,
            is_protected: pr,
            is_private: pv,
            is_global: gl,
            is_static: st,
            is_virtual: vi,
            is_far: fa,
            is_thunk: th,
        }
    }
}

/// The closed table of overloaded-operator and special compiler-generated
/// names that can stand after a `?` escape in an unqualified name.
#[derive(Clone, Copy, PartialEq, Eq, Structural)]
pub enum Op {
    Ctor,
    Dtor,
    New,
    Delete,
    Assign,
    Shr,
    Shl,
    LogicalNot,
    Equal,
    NotEqual,
    Subscript,
    Cast,
    Arrow,
    Star,
    Increment,
    Decrement,
    Minus,
    Plus,
    Amp,
    ArrowStar,
    Divide,
    Modulus,
    Less,
    LessEqual,
    Greater,
    GreaterEqual,
    Comma,
    Call,
    Tilde,
    Caret,
    Pipe,
    LogicalAnd,
    LogicalOr,
    StarAssign,
    PlusAssign,
    MinusAssign,
    DivideAssign,
    ModulusAssign,
    ShrAssign,
    ShlAssign,
    AmpAssign,
    PipeAssign,
    CaretAssign,
    VFTable,
    VBTable,
    VCall,
    Typeof,
    LocalStaticGuard,
    VBaseDtor,
    VectorDeletingDtor,
    DefaultCtorClosure,
    ScalarDeletingDtor,
    VectorCtorIterator,
    VectorDtorIterator,
    VectorVBaseCtorIterator,
    VirtualDisplacementMap,
    EHVectorCtorIterator,
    EHVectorDtorIterator,
    EHVectorVBaseCtorIterator,
    CopyCtorClosure,
    LocalVFTable,
    LocalVFTableCtorClosure,
    NewArray,
    DeleteArray,
    PlacementDeleteClosure,
    PlacementDeleteArrayClosure,
    CoAwait,
    LiteralOperatorName,
}

// ---------------------------------------------------------------------------
// Errors
// ---------------------------------------------------------------------------

/// Discriminated reason for a failed parse or a failed serialization.
#[derive(Clone, Copy, PartialEq, Eq, Structural, Debug)]
pub enum ErrorKind {
    /// The input does not start with `?`.
    NotMangled,
    /// A byte was needed but the input was exhausted.
    UnexpectedEnd,
    /// A fixed literal was expected at the current position.
    ExpectedLiteral,
    /// A decimal digit was expected at the current position.
    MissingDigit,
    /// A malformed number encoding (bad hex digit or missing `@`).
    BadNumber,
    /// An identifier was not terminated by `@`.
    MissingTerminator,
    /// A backreference index at or beyond the current table size.
    BackrefOutOfRange,
    /// An unrecognized operator escape after `?`.
    UnknownOperator,
    /// An unrecognized member-function class byte.
    UnknownFuncClass,
    /// An unrecognized calling-convention byte.
    UnknownCallingConv,
    /// An unrecognized storage-class byte.
    UnknownStorageClass,
    /// An unrecognized type or primitive code byte.
    UnknownType,
    /// An array dimension that is zero or negative.
    InvalidDimension,
    /// A constructor or destructor name with no enclosing name to copy.
    MissingEnclosingName,
    /// An anonymous-namespace marker standing as the name to print.
    MisplacedAnonymousNamespace,
    /// Serialized bytes that do not form valid UTF-8.
    InvalidUtf8,
}

/// An error, carrying its reason and the number of input bytes that had been
/// consumed when it was raised (0 for errors found after parsing).
#[derive(Clone, Copy, PartialEq, Eq, Structural, Debug)]
pub struct Error {
    pub kind: ErrorKind,
    pub pos: usize,
}

impl Error {
    pub fn new(kind: ErrorKind, pos: usize) -> (r: Error)
        ensures
            r == (Error { kind, pos }),
    {
        Error { kind, pos }
    }
}

pub type Result<T> = core::result::Result<T, Error>;

// ---------------------------------------------------------------------------
// The abstract syntax tree
// ---------------------------------------------------------------------------

/// An identifier, which may be a template instantiation.
pub enum Name {
    /// An operator or special compiler-generated name from the closed table.
    Operator(Op),
    /// A plain identifier: the raw bytes read from the input.
    NonTemplate(Vec<u8>),
    /// A template instantiation: a base name and its argument list.
    Template(Box<Name>, Params),
    /// A positional discriminator for anonymous or local entities.
    Discriminator(i32),
    /// A fully nested parsed symbol used as a qualifier.
    ParsedName(Box<ParseResult>),
    /// An anonymous-namespace marker; valid only inside a scope chain.
    AnonymousNamespace,
}

/// A scope chain in parse order: innermost name first; printed reversed.
pub struct NameSequence {
    pub names: Vec<Name>,
}

/// An ordered list of function or template arguments.
pub struct Params {
    pub types: Vec<Type>,
}

/// A declared entity: its unqualified name and its enclosing scope chain.
pub struct Symbol {
    pub name: Name,
    pub scope: NameSequence,
}

/// A C++ type as encoded in a mangled symbol.
pub enum Type {
    NoType,
    /// Class, calling convention, parameters, `this` qualifier, return type.
    MemberFunction(FuncClass, CallingConv, Params, StorageClass, Box<Type>),
    /// Class name, parameters, `this` qualifier, return type.
    MemberFunctionPointer(Name, Params, StorageClass, Box<Type>),
    /// Calling convention, parameters, qualifier, return type.
    NonMemberFunction(CallingConv, Params, StorageClass, Box<Type>),
    CXXVBTable(NameSequence, StorageClass),
    CXXVFTable(NameSequence, StorageClass),
    TemplateParameterWithIndex(i32),
    ThreadSafeStaticGuard(i32),
    Constant(i32),
    Ptr(Box<Type>, StorageClass),
    Ref(Box<Type>, StorageClass),
    RValueRef(Box<Type>, StorageClass),
    Array(i32, Box<Type>, StorageClass),
    Struct(Symbol, StorageClass),
    Union(Symbol, StorageClass),
    Class(Symbol, StorageClass),
    Enum(Symbol, StorageClass),
    Void(StorageClass),
    Bool(StorageClass),
    Char(StorageClass),
    Schar(StorageClass),
    Uchar(StorageClass),
    Short(StorageClass),
    Ushort(StorageClass),
    Int(StorageClass),
    Uint(StorageClass),
    Long(StorageClass),
    Ulong(StorageClass),
    Int64(StorageClass),
    Uint64(StorageClass),
    Wchar(StorageClass),
    Char16(StorageClass),
    Char32(StorageClass),
    Float(StorageClass),
    Double(StorageClass),
    Ldouble(StorageClass),
    VarArgs,
    EmptyParameterPack,
    Nullptr,
}

/// The output of a successful parse: a symbol and its type encoding
/// (`Type::NoType` when the symbol carries no type).
pub struct ParseResult {
    pub symbol: Symbol,
    pub symbol_type: Type,
}

// ---------------------------------------------------------------------------
// Mathematical views of the tree
// ---------------------------------------------------------------------------

/// The mathematical value of a `Name`.
#[verifier::ext_equal]
pub enum NameV {
    Operator(Op),
    NonTemplate(Seq<u8>),
    Template(Box<NameV>, Seq<TypeV>),
    Discriminator(int),
    ParsedName(Box<ParseResultV>),
    AnonymousNamespace,
}

/// The mathematical value of a `Symbol`.
#[verifier::ext_equal]
pub struct SymbolV {
    pub name: NameV,
    pub scope: Seq<NameV>,
}

/// The mathematical value of a `Type`.
#[verifier::ext_equal]
pub enum TypeV {
    NoType,
    MemberFunction(FuncClass, CallingConv, Seq<TypeV>, StorageClass, Box<TypeV>),
    MemberFunctionPointer(Box<NameV>, Seq<TypeV>, StorageClass, Box<TypeV>),
    NonMemberFunction(CallingConv, Seq<TypeV>, StorageClass, Box<TypeV>),
    CXXVBTable(Seq<NameV>, StorageClass),
    CXXVFTable(Seq<NameV>, StorageClass),
    TemplateParameterWithIndex(int),
    ThreadSafeStaticGuard(int),
    Constant(int),
    Ptr(Box<TypeV>, StorageClass),
    Ref(Box<TypeV>, StorageClass),
    RValueRef(Box<TypeV>, StorageClass),
    Array(int, Box<TypeV>, StorageClass),
    Struct(Box<SymbolV>, StorageClass),
    Union(Box<SymbolV>, StorageClass),
    Class(Box<SymbolV>, StorageClass),
    Enum(Box<SymbolV>, StorageClass),
    Void(StorageClass),
    Bool(StorageClass),
    Char(StorageClass),
    Schar(StorageClass),
    Uchar(StorageClass),
    Short(StorageClass),
    Ushort(StorageClass),
    Int(StorageClass),
    Uint(StorageClass),
    Long(StorageClass),
    Ulong(StorageClass),
    Int64(StorageClass),
    Uint64(StorageClass),
    Wchar(StorageClass),
    Char16(StorageClass),
    Char32(StorageClass),
    Float(StorageClass),
    Double(StorageClass),
    Ldouble(StorageClass),
    VarArgs,
    EmptyParameterPack,
    Nullptr,
}

/// The mathematical value of a `ParseResult`.
#[verifier::ext_equal]
pub struct ParseResultV {
    pub symbol: SymbolV,
    pub symbol_type: TypeV,
}

pub open spec fn nview(n: Name) -> NameV
    decreases n,
{
    match n {
        Name::Operator(op) => NameV::Operator(op),
        Name::NonTemplate(v) => NameV::NonTemplate(v@),
        Name::Template(base, params) => NameV::Template(
            Box::new(nview(*base)),
            types_view(params.types@),
        ),
        Name::Discriminator(d) => NameV::Discriminator(d as int),
        Name::ParsedName(pr) => NameV::ParsedName(Box::new(prview(*pr))),
        Name::AnonymousNamespace => NameV::AnonymousNamespace,
    }
}

pub open spec fn names_view(ns: Seq<Name>) -> Seq<NameV>
    decreases ns,
{
    Seq::new(
        ns.len(),
        |i: int|
            if 0 <= i < ns.len() {
                nview(ns[i])
            } else {
                NameV::AnonymousNamespace
            },
    )
}

pub open spec fn types_view(ts: Seq<Type>) -> Seq<TypeV>
    decreases ts,
{
    Seq::new(
        ts.len(),
        |i: int|
            if 0 <= i < ts.len() {
                tview(ts[i])
            } else {
                TypeV::NoType
            },
    )
}

pub open spec fn symview(s: Symbol) -> SymbolV
    decreases s,
{
    SymbolV { name: nview(s.name), scope: names_view(s.scope.names@) }
}

pub open spec fn tview(t: Type) -> TypeV
    decreases t,
{
    match t {
        Type::NoType => TypeV::NoType,
        Type::MemberFunction(fc, cc, ps, sc, ret) => TypeV::MemberFunction(
            fc,
            cc,
            types_view(ps.types@),
            sc,
            Box::new(tview(*ret)),
        ),
        Type::MemberFunctionPointer(n, ps, sc, ret) => TypeV::MemberFunctionPointer(
            Box::new(nview(n)),
            types_view(ps.types@),
            sc,
            Box::new(tview(*ret)),
        ),
        Type::NonMemberFunction(cc, ps, sc, ret) => TypeV::NonMemberFunction(
            cc,
            types_view(ps.types@),
            sc,
            Box::new(tview(*ret)),
        ),
        Type::CXXVBTable(ns, sc) => TypeV::CXXVBTable(names_view(ns.names@), sc),
        Type::CXXVFTable(ns, sc) => TypeV::CXXVFTable(names_view(ns.names@), sc),
        Type::TemplateParameterWithIndex(n) => TypeV::TemplateParameterWithIndex(n as int),
        Type::ThreadSafeStaticGuard(n) => TypeV::ThreadSafeStaticGuard(n as int),
        Type::Constant(n) => TypeV::Constant(n as int),
        Type::Ptr(inner, sc) => TypeV::Ptr(Box::new(tview(*inner)), sc),
        Type::Ref(inner, sc) => TypeV::Ref(Box::new(tview(*inner)), sc),
        Type::RValueRef(inner, sc) => TypeV::RValueRef(Box::new(tview(*inner)), sc),
        Type::Array(len, inner, sc) => TypeV::Array(len as int, Box::new(tview(*inner)), sc),
        Type::Struct(s, sc) => TypeV::Struct(Box::new(symview(s)), sc),
        Type::Union(s, sc) => TypeV::Union(Box::new(symview(s)), sc),
        Type::Class(s, sc) => TypeV::Class(Box::new(symview(s)), sc),
        Type::Enum(s, sc) => TypeV::Enum(Box::new(symview(s)), sc),
        Type::Void(sc) => TypeV::Void(sc),
        Type::Bool(sc) => TypeV::Bool(sc),
        Type::Char(sc) => TypeV::Char(sc),
        Type::Schar(sc) => TypeV::Schar(sc),
        Type::Uchar(sc) => TypeV::Uchar(sc),
        Type::Short(sc) => TypeV::Short(sc),
        Type::Ushort(sc) => TypeV::Ushort(sc),
        Type::Int(sc) => TypeV::Int(sc),
        Type::Uint(sc) => TypeV::Uint(sc),
        Type::Long(sc) => TypeV::Long(sc),
        Type::Ulong(sc) => TypeV::Ulong(sc),
        Type::Int64(sc) => TypeV::Int64(sc),
        Type::Uint64(sc) => TypeV::Uint64(sc),
        Type::Wchar(sc) => TypeV::Wchar(sc),
        Type::Char16(sc) => TypeV::Char16(sc),
        Type::Char32(sc) => TypeV::Char32(sc),
        Type::Float(sc) => TypeV::Float(sc),
        Type::Double(sc) => TypeV::Double(sc),
        Type::Ldouble(sc) => TypeV::Ldouble(sc),
        Type::VarArgs => TypeV::VarArgs,
        Type::EmptyParameterPack => TypeV::EmptyParameterPack,
        Type::Nullptr => TypeV::Nullptr,
    }
}

pub open spec fn prview(p: ParseResult) -> ParseResultV
    decreases p,
{
    ParseResultV { symbol: symview(p.symbol), symbol_type: tview(p.symbol_type) }
}

impl View for Name {
    type V = NameV;

    open spec fn view(&self) -> NameV {
        nview(*self)
    }
}

impl View for NameSequence {
    type V = Seq<NameV>;

    open spec fn view(&self) -> Seq<NameV> {
        names_view(self.names@)
    }
}

impl View for Params {
    type V = Seq<TypeV>;

    open spec fn view(&self) -> Seq<TypeV> {
        types_view(self.types@)
    }
}

impl View for Symbol {
    type V = SymbolV;

    open spec fn view(&self) -> SymbolV {
        symview(*self)
    }
}

impl View for Type {
    type V = TypeV;

    open spec fn view(&self) -> TypeV {
        tview(*self)
    }
}

impl View for ParseResult {
    type V = ParseResultV;

    open spec fn view(&self) -> ParseResultV {
        prview(*self)
    }
}

} // verus!
