use vstd::prelude::*;

use crate::ast::Name;
use crate::ast::NameSequence;
use crate::ast::ParseResult;
use crate::ast::Params;
use crate::ast::Symbol;
use crate::ast::Type;
use crate::ast::names_view;
use crate::ast::nview;
use crate::ast::prview;
use crate::ast::symview;
use crate::ast::tview;
use crate::ast::types_view;

verus! {

// ---------------------------------------------------------------------------
// Structural equality, decided executably, specified over the views
// ---------------------------------------------------------------------------

/// Byte-vector equality.
pub fn eq_bytes(a: &Vec<u8>, b: &Vec<u8>) -> (r: bool)
    ensures
        r == (a@ == b@),
{
    if a.len() != b.len() {
        return false;
    }
    let n = a.len();
    let mut i: usize = 0;
    while i < n
        invariant
            n == a@.len() == b@.len(),
            i <= n,
            forall|k: int| 0 <= k < i ==> a@[k] == b@[k],
        decreases n - i,
    {
        if a[i] != b[i] {
            return false;
        }
        i += 1;
    }
    proof {
        assert(a@ =~= b@);
    }
    true
}

/// Structural equality of two names.
pub fn eq_name(a: &Name, b: &Name) -> (r: bool)
    ensures
        r == (a@ == b@),
    decreases *a,
{
    match (a, b) {
        (Name::Operator(x), Name::Operator(y)) => *x == *y,
        (Name::NonTemplate(x), Name::NonTemplate(y)) => eq_bytes(x, y),
        (Name::Template(n1, p1), Name::Template(n2, p2)) => {
            eq_name(n1, n2) && eq_params(p1, p2)
        },
        (Name::Discriminator(x), Name::Discriminator(y)) => *x == *y,
        (Name::ParsedName(x), Name::ParsedName(y)) => eq_parse_result(x, y),
        (Name::AnonymousNamespace, Name::AnonymousNamespace) => true,
        _ => false,
    }
}

/// Structural equality of two scope chains.
pub fn eq_name_sequence(a: &NameSequence, b: &NameSequence) -> (r: bool)
    ensures
        r == (a@ == b@),
    decreases *a,
{
    if a.names.len() != b.names.len() {
        return false;
    }
    let n = a.names.len();
    let mut i: usize = 0;
    while i < n
        invariant
            n == a.names@.len() == b.names@.len(),
            i <= n,
            forall|k: int| 0 <= k < i ==> names_view(a.names@)[k] == names_view(b.names@)[k],
        decreases n - i,
    {
        if !eq_name(&a.names[i], &b.names[i]) {
            proof {
                assert(names_view(a.names@)[i as int] != names_view(b.names@)[i as int]);
            }
            return false;
        }
        i += 1;
    }
    proof {
        assert(names_view(a.names@) =~= names_view(b.names@));
    }
    true
}

/// Structural equality of two parameter lists.
pub fn eq_params(a: &Params, b: &Params) -> (r: bool)
    ensures
        r == (a@ == b@),
    decreases *a,
{
    if a.types.len() != b.types.len() {
        return false;
    }
    let n = a.types.len();
    let mut i: usize = 0;
    while i < n
        invariant
            n == a.types@.len() == b.types@.len(),
            i <= n,
            forall|k: int| 0 <= k < i ==> types_view(a.types@)[k] == types_view(b.types@)[k],
        decreases n - i,
    {
        if !eq_type(&a.types[i], &b.types[i]) {
            proof {
                assert(types_view(a.types@)[i as int] != types_view(b.types@)[i as int]);
            }
            return false;
        }
        i += 1;
    }
    proof {
        assert(types_view(a.types@) =~= types_view(b.types@));
    }
    true
}

/// Structural equality of two symbols.
pub fn eq_symbol(a: &Symbol, b: &Symbol) -> (r: bool)
    ensures
        r == (a@ == b@),
    decreases *a,
{
    eq_name(&a.name, &b.name) && eq_name_sequence(&a.scope, &b.scope)
}

/// Structural equality of two parse results.
pub fn eq_parse_result(a: &ParseResult, b: &ParseResult) -> (r: bool)
    ensures
        r == (a@ == b@),
    decreases *a,
{
    eq_symbol(&a.symbol, &b.symbol) && eq_type(&a.symbol_type, &b.symbol_type)
}

/// Structural equality of two types.
pub fn eq_type(a: &Type, b: &Type) -> (r: bool)
    ensures
        r == (a@ == b@),
    decreases *a,
{
    match (a, b) {
        (Type::NoType, Type::NoType) => true,
        (
            Type::MemberFunction(fc1, cc1, p1, sc1, r1),
            Type::MemberFunction(fc2, cc2, p2, sc2, r2),
        ) => *fc1 == *fc2 && *cc1 == *cc2 && eq_params(p1, p2) && *sc1 == *sc2 && eq_type(r1, r2),
        (
            Type::MemberFunctionPointer(n1, p1, sc1, r1),
            Type::MemberFunctionPointer(n2, p2, sc2, r2),
        ) => eq_name(n1, n2) && eq_params(p1, p2) && *sc1 == *sc2 && eq_type(r1, r2),
        (
            Type::NonMemberFunction(cc1, p1, sc1, r1),
            Type::NonMemberFunction(cc2, p2, sc2, r2),
        ) => *cc1 == *cc2 && eq_params(p1, p2) && *sc1 == *sc2 && eq_type(r1, r2),
        (Type::CXXVBTable(ns1, sc1), Type::CXXVBTable(ns2, sc2)) => {
            eq_name_sequence(ns1, ns2) && *sc1 == *sc2
        },
        (Type::CXXVFTable(ns1, sc1), Type::CXXVFTable(ns2, sc2)) => {
            eq_name_sequence(ns1, ns2) && *sc1 == *sc2
        },
        (Type::TemplateParameterWithIndex(x), Type::TemplateParameterWithIndex(y)) => *x == *y,
        (Type::ThreadSafeStaticGuard(x), Type::ThreadSafeStaticGuard(y)) => *x == *y,
        (Type::Constant(x), Type::Constant(y)) => *x == *y,
        (Type::Ptr(i1, sc1), Type::Ptr(i2, sc2)) => eq_type(i1, i2) && *sc1 == *sc2,
        (Type::Ref(i1, sc1), Type::Ref(i2, sc2)) => eq_type(i1, i2) && *sc1 == *sc2,
        (Type::RValueRef(i1, sc1), Type::RValueRef(i2, sc2)) => eq_type(i1, i2) && *sc1 == *sc2,
        (Type::Array(l1, i1, sc1), Type::Array(l2, i2, sc2)) => {
            *l1 == *l2 && eq_type(i1, i2) && *sc1 == *sc2
        },
        (Type::Struct(s1, sc1), Type::Struct(s2, sc2)) => eq_symbol(s1, s2) && *sc1 == *sc2,
        (Type::Union(s1, sc1), Type::Union(s2, sc2)) => eq_symbol(s1, s2) && *sc1 == *sc2,
        (Type::Class(s1, sc1), Type::Class(s2, sc2)) => eq_symbol(s1, s2) && *sc1 == *sc2,
        (Type::Enum(s1, sc1), Type::Enum(s2, sc2)) => eq_symbol(s1, s2) && *sc1 == *sc2,
        (Type::Void(sc1), Type::Void(sc2)) => *sc1 == *sc2,
        (Type::Bool(sc1), Type::Bool(sc2)) => *sc1 == *sc2,
        (Type::Char(sc1), Type::Char(sc2)) => *sc1 == *sc2,
        (Type::Schar(sc1), Type::Schar(sc2)) => *sc1 == *sc2,
        (Type::Uchar(sc1), Type::Uchar(sc2)) => *sc1 == *sc2,
        (Type::Short(sc1), Type::Short(sc2)) => *sc1 == *sc2,
        (Type::Ushort(sc1), Type::Ushort(sc2)) => *sc1 == *sc2,
        (Type::Int(sc1), Type::Int(sc2)) => *sc1 == *sc2,
        (Type::Uint(sc1), Type::Uint(sc2)) => *sc1 == *sc2,
        (Type::Long(sc1), Type::Long(sc2)) => *sc1 == *sc2,
        (Type::Ulong(sc1), Type::Ulong(sc2)) => *sc1 == *sc2,
        (Type::Int64(sc1), Type::Int64(sc2)) => *sc1 == *sc2,
        (Type::Uint64(sc1), Type::Uint64(sc2)) => *sc1 == *sc2,
        (Type::Wchar(sc1), Type::Wchar(sc2)) => *sc1 == *sc2,
        (Type::Char16(sc1), Type::Char16(sc2)) => *sc1 == *sc2,
        (Type::Char32(sc1), Type::Char32(sc2)) => *sc1 == *sc2,
        (Type::Float(sc1), Type::Float(sc2)) => *sc1 == *sc2,
        (Type::Double(sc1), Type::Double(sc2)) => *sc1 == *sc2,
        (Type::Ldouble(sc1), Type::Ldouble(sc2)) => *sc1 == *sc2,
        (Type::VarArgs, Type::VarArgs) => true,
        (Type::EmptyParameterPack, Type::EmptyParameterPack) => true,
        (Type::Nullptr, Type::Nullptr) => true,
        _ => false,
    }
}

// ---------------------------------------------------------------------------
// Cloning, specified as view preservation
// ---------------------------------------------------------------------------

/// Copies a byte vector.
pub fn clone_bytes(a: &Vec<u8>) -> (r: Vec<u8>)
    ensures
        r@ == a@,
{
    let n = a.len();
    let mut out: Vec<u8> = Vec::new();
    let mut i: usize = 0;
    while i < n
        invariant
            n == a@.len(),
            i <= n,
            out@ == a@.subrange(0, i as int),
        decreases n - i,
    {
        out.push(a[i]);
        proof {
            assert(out@ =~= a@.subrange(0, i + 1));
        }
        i += 1;
    }
    proof {
        assert(out@ =~= a@);
    }
    out
}

/// Copies a name.
pub fn clone_name(a: &Name) -> (r: Name)
    ensures
        r@ == a@,
    decreases *a,
{
    match a {
        Name::Operator(op) => Name::Operator(*op),
        Name::NonTemplate(v) => Name::NonTemplate(clone_bytes(v)),
        Name::Template(base, params) => Name::Template(
            Box::new(clone_name(base)),
            clone_params(params),
        ),
        Name::Discriminator(d) => Name::Discriminator(*d),
        Name::ParsedName(pr) => Name::ParsedName(Box::new(clone_parse_result(pr))),
        Name::AnonymousNamespace => Name::AnonymousNamespace,
    }
}

/// Copies a scope chain.
pub fn clone_name_sequence(a: &NameSequence) -> (r: NameSequence)
    ensures
        r@ == a@,
    decreases *a,
{
    let n = a.names.len();
    let mut out: Vec<Name> = Vec::new();
    let mut i: usize = 0;
    while i < n
        invariant
            n == a.names@.len(),
            i <= n,
            out@.len() == i,
            forall|k: int| 0 <= k < i ==> nview(out@[k]) == names_view(a.names@)[k],
        decreases n - i,
    {
        out.push(clone_name(&a.names[i]));
        i += 1;
    }
    proof {
        assert(names_view(out@) =~= names_view(a.names@));
    }
    NameSequence { names: out }
}

/// Copies a parameter list.
pub fn clone_params(a: &Params) -> (r: Params)
    ensures
        r@ == a@,
    decreases *a,
{
    let n = a.types.len();
    let mut out: Vec<Type> = Vec::new();
    let mut i: usize = 0;
    while i < n
        invariant
            n == a.types@.len(),
            i <= n,
            out@.len() == i,
            forall|k: int| 0 <= k < i ==> tview(out@[k]) == types_view(a.types@)[k],
        decreases n - i,
    {
        out.push(clone_type(&a.types[i]));
        i += 1;
    }
    proof {
        assert(types_view(out@) =~= types_view(a.types@));
    }
    Params { types: out }
}

/// Copies a symbol.
pub fn clone_symbol(a: &Symbol) -> (r: Symbol)
    ensures
        r@ == a@,
    decreases *a,
{
    Symbol { name: clone_name(&a.name), scope: clone_name_sequence(&a.scope) }
}

/// Copies a parse result.
pub fn clone_parse_result(a: &ParseResult) -> (r: ParseResult)
    ensures
        r@ == a@,
    decreases *a,
{
    ParseResult {
        symbol: clone_symbol(&a.symbol),
        symbol_type: clone_type(&a.symbol_type),
    }
}

/// Copies a type.
pub fn clone_type(a: &Type) -> (r: Type)
    ensures
        r@ == a@,
    decreases *a,
{
    match a {
        Type::NoType => Type::NoType,
        Type::MemberFunction(fc, cc, ps, sc, ret) => Type::MemberFunction(
            *fc,
            *cc,
            clone_params(ps),
            *sc,
            Box::new(clone_type(ret)),
        ),
        Type::MemberFunctionPointer(n, ps, sc, ret) => Type::MemberFunctionPointer(
            clone_name(n),
            clone_params(ps),
            *sc,
            Box::new(clone_type(ret)),
        ),
        Type::NonMemberFunction(cc, ps, sc, ret) => Type::NonMemberFunction(
            *cc,
            clone_params(ps),
            *sc,
            Box::new(clone_type(ret)),
        ),
        Type::CXXVBTable(ns, sc) => Type::CXXVBTable(clone_name_sequence(ns), *sc),
        Type::CXXVFTable(ns, sc) => Type::CXXVFTable(clone_name_sequence(ns), *sc),
        Type::TemplateParameterWithIndex(n) => Type::TemplateParameterWithIndex(*n),
        Type::ThreadSafeStaticGuard(n) => Type::ThreadSafeStaticGuard(*n),
        Type::Constant(n) => Type::Constant(*n),
        Type::Ptr(inner, sc) => Type::Ptr(Box::new(clone_type(inner)), *sc),
        Type::Ref(inner, sc) => Type::Ref(Box::new(clone_type(inner)), *sc),
        Type::RValueRef(inner, sc) => Type::RValueRef(Box::new(clone_type(inner)), *sc),
        Type::Array(len, inner, sc) => Type::Array(*len, Box::new(clone_type(inner)), *sc),
        Type::Struct(s, sc) => Type::Struct(clone_symbol(s), *sc),
        Type::Union(s, sc) => Type::Union(clone_symbol(s), *sc),
        Type::Class(s, sc) => Type::Class(clone_symbol(s), *sc),
        Type::Enum(s, sc) => Type::Enum(clone_symbol(s), *sc),
        Type::Void(sc) => Type::Void(*sc),
        Type::Bool(sc) => Type::Bool(*sc),
        Type::Char(sc) => Type::Char(*sc),
        Type::Schar(sc) => Type::Schar(*sc),
        Type::Uchar(sc) => Type::Uchar(*sc),
        Type::Short(sc) => Type::Short(*sc),
        Type::Ushort(sc) => Type::Ushort(*sc),
        Type::Int(sc) => Type::Int(*sc),
        Type::Uint(sc) => Type::Uint(*sc),
        Type::Long(sc) => Type::Long(*sc),
        Type::Ulong(sc) => Type::Ulong(*sc),
        Type::Int64(sc) => Type::Int64(*sc),
        Type::Uint64(sc) => Type::Uint64(*sc),
        Type::Wchar(sc) => Type::Wchar(*sc),
        Type::Char16(sc) => Type::Char16(*sc),
        Type::Char32(sc) => Type::Char32(*sc),
        Type::Float(sc) => Type::Float(*sc),
        Type::Double(sc) => Type::Double(*sc),
        Type::Ldouble(sc) => Type::Ldouble(*sc),
        Type::VarArgs => Type::VarArgs,
        Type::EmptyParameterPack => Type::EmptyParameterPack,
        Type::Nullptr => Type::Nullptr,
    }
}

} // verus!
