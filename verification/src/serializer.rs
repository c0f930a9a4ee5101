use vstd::prelude::*;
use vstd::string::StringSliceAdditionalSpecFns;

use crate::ast::CallingConv;
use crate::ast::DemangleFlags;
use crate::ast::Error;
use crate::ast::ErrorKind;
use crate::ast::Name;
use crate::ast::NameSequence;
use crate::ast::NameV;
use crate::ast::Op;
use crate::ast::ParseResult;
use crate::ast::ParseResultV;
use crate::ast::Params;
use crate::ast::Result;
use crate::ast::StorageClass;
use crate::ast::Symbol;
use crate::ast::SymbolV;
use crate::ast::Type;
use crate::ast::TypeV;
use crate::ast::names_view;
use crate::ast::nview;
use crate::ast::types_view;

verus! {

// ---------------------------------------------------------------------------
// The output model: what serialization produces, byte for byte
// ---------------------------------------------------------------------------

/// The bytes of a string literal.
pub open spec fn lit(s: &str) -> Seq<u8> {
    s.spec_bytes()
}

/// True of an ASCII letter.
pub open spec fn is_alpha(b: u8) -> bool {
    (65 <= b && b <= 90) || (97 <= b && b <= 122)
}

/// A separating space is inserted before a token when the previous emitted
/// byte is a letter; the generous mode also separates after `*`, `&`, `>`.
pub open spec fn sp_space(f: DemangleFlags, buf: Seq<u8>) -> Seq<u8> {
    if buf.len() > 0 && (is_alpha(buf.last()) || (f == DemangleFlags::LotsOfWhitespace && (
    buf.last() == 42 || buf.last() == 38 || buf.last() == 62))) {
        buf + lit(" ")
    } else {
        buf
    }
}

/// The same separator rule, applied before a qualified name.
pub open spec fn sp_space_pre(f: DemangleFlags, buf: Seq<u8>) -> Seq<u8> {
    sp_space(f, buf)
}

/// The decimal digits of `n`, most significant first.
pub open spec fn dec_digits(n: nat) -> Seq<u8>
    decreases n,
{
    if n < 10 {
        seq![(48 + n) as u8]
    } else {
        dec_digits(n / 10).push((48 + n % 10) as u8)
    }
}

/// The decimal spelling of `v`, with a leading `-` when negative.
pub open spec fn dec_repr(v: int) -> Seq<u8> {
    if v < 0 {
        seq![45u8] + dec_digits((-v) as nat)
    } else {
        dec_digits(v as nat)
    }
}

/// The trailing `const` / `volatile` keywords of a qualified type.
pub open spec fn sp_cv(sc: StorageClass, f: DemangleFlags, buf: Seq<u8>) -> Seq<u8> {
    let b1 = if sc.is_const {
        sp_space(f, buf) + lit("const")
    } else {
        buf
    };
    if sc.is_volatile {
        sp_space(f, b1) + lit("volatile")
    } else {
        b1
    }
}

/// The spelling of a calling convention, preceded by a space unless one is
/// already there.
pub open spec fn sp_calling_conv(cc: CallingConv, buf: Seq<u8>) -> Seq<u8> {
    let b1 = if buf.len() > 0 && buf.last() == 32 {
        buf
    } else {
        buf + lit(" ")
    };
    match cc {
        CallingConv::Cdecl => b1 + lit("__cdecl "),
        CallingConv::Pascal => b1,
        CallingConv::Thiscall => b1 + lit("__thiscall "),
        CallingConv::Stdcall => b1 + lit("__stdcall "),
        CallingConv::Fastcall => b1 + lit("__fastcall "),
        CallingConv::_Regcall => b1 + lit("__regcall "),
    }
}

/// The fixed spelling of each operator or special name.
pub open spec fn op_bytes(op: Op) -> Seq<u8> {
    match op {
        Op::Ctor => lit("ctor"),
        Op::Dtor => lit("dtor"),
        Op::New => lit("operator new"),
        Op::Delete => lit("operator delete"),
        Op::Assign => lit("operator="),
        Op::Shr => lit("operator>>"),
        Op::Shl => lit("operator<<"),
        Op::LogicalNot => lit("operator!"),
        Op::Equal => lit("operator=="),
        Op::NotEqual => lit("operator!="),
        Op::Subscript => lit("operator[]"),
        Op::Cast => lit("operatorcast"),
        Op::Arrow => lit("operator->"),
        Op::Star => lit("operator*"),
        Op::Increment => lit("operator++"),
        Op::Decrement => lit("operator--"),
        Op::Minus => lit("operator-"),
        Op::Plus => lit("operator+"),
        Op::Amp => lit("operator&"),
        Op::ArrowStar => lit("operator->*"),
        Op::Divide => lit("operator/"),
        Op::Modulus => lit("operator%"),
        Op::Less => lit("operator<"),
        Op::LessEqual => lit("operator<="),
        Op::Greater => lit("operator>"),
        Op::GreaterEqual => lit("operator>="),
        Op::Comma => lit("operator,"),
        Op::Call => lit("operator()"),
        Op::Tilde => lit("operator~"),
        Op::Caret => lit("operator^"),
        Op::Pipe => lit("operator|"),
        Op::LogicalAnd => lit("operator&&"),
        Op::LogicalOr => lit("operator||"),
        Op::StarAssign => lit("operator*="),
        Op::PlusAssign => lit("operator+="),
        Op::MinusAssign => lit("operator-="),
        Op::DivideAssign => lit("operator/="),
        Op::ModulusAssign => lit("operator%="),
        Op::ShrAssign => lit("operator>>="),
        Op::ShlAssign => lit("operator<<="),
        Op::AmpAssign => lit("operator&="),
        Op::PipeAssign => lit("operator|="),
        Op::CaretAssign => lit("operator^="),
        Op::VFTable => lit("`vftable'"),
        Op::VBTable => lit("`vbtable'"),
        Op::VCall => lit("`vcall'"),
        Op::Typeof => lit("`typeof'"),
        Op::LocalStaticGuard => lit("`local static guard'"),
        Op::VBaseDtor => lit("`vbase destructor'"),
        Op::VectorDeletingDtor => lit("`vector deleting destructor'"),
        Op::DefaultCtorClosure => lit("`default constructor closure'"),
        Op::ScalarDeletingDtor => lit("`scalar deleting destructor'"),
        Op::VectorCtorIterator => lit("`vector constructor iterator'"),
        Op::VectorDtorIterator => lit("`vector destructor iterator'"),
        Op::VectorVBaseCtorIterator => lit("`vector vbase constructor iterator'"),
        Op::VirtualDisplacementMap => lit("`virtual displacement map'"),
        Op::EHVectorCtorIterator => lit("`eh vector constructor iterator'"),
        Op::EHVectorDtorIterator => lit("`eh vector destructor iterator'"),
        Op::EHVectorVBaseCtorIterator => lit("`eh vector vbase constructor iterator'"),
        Op::CopyCtorClosure => lit("`copy constructor closure'"),
        Op::LocalVFTable => lit("`local vftable'"),
        Op::LocalVFTableCtorClosure => lit("`local vftable constructor closure'"),
        Op::NewArray => lit("operator new[]"),
        Op::DeleteArray => lit("operator delete[]"),
        Op::PlacementDeleteClosure => lit("`placement delete closure'"),
        Op::PlacementDeleteArrayClosure => lit("`placement delete[] closure'"),
        Op::CoAwait => lit(" co_await"),
        Op::LiteralOperatorName => lit(" CXXLiteralOperatorName"),
    }
}

/// True of the types that bind tighter than `*`, so that a pointer to one
/// needs parentheses around the declared entity.
pub open spec fn needs_parens(t: TypeV) -> bool {
    t is MemberFunction || t is NonMemberFunction || t is Array
}

/// Everything serialization appends to `buf` for the whole tree `pr`,
/// starting from the prefix of its type; or the reason it is rejected.
pub open spec fn sp_serialize(pr: ParseResultV, f: DemangleFlags) -> core::result::Result<
    Seq<u8>,
    ErrorKind,
>
    decreases pr, 1int,
{
    match sp_pre(pr.symbol_type, f, Seq::empty()) {
        Err(k) => Err(k),
        Ok(b1) => match sp_name(pr.symbol, f, b1) {
            Err(k) => Err(k),
            Ok(b2) => sp_post(pr.symbol_type, f, b2),
        },
    }
}

/// The first half of a type: everything printed left of the declared name.
pub open spec fn sp_pre(t: TypeV, f: DemangleFlags, buf: Seq<u8>) -> core::result::Result<
    Seq<u8>,
    ErrorKind,
>
    decreases t, 1int,
{
    match t {
        TypeV::NoType => Ok(buf),
        TypeV::MemberFunction(fc, cc, ps, this_sc, ret) => {
            let b1 = if fc.is_thunk {
                buf + lit("[thunk]:")
            } else {
                buf
            };
            let b2 = if fc.is_private {
                b1 + lit("private: ")
            } else {
                b1
            };
            let b3 = if fc.is_protected {
                b2 + lit("protected: ")
            } else {
                b2
            };
            let b4 = if fc.is_public {
                b3 + lit("public: ")
            } else {
                b3
            };
            let b5 = if fc.is_static {
                b4 + lit("static ")
            } else {
                b4
            };
            let b6 = if fc.is_virtual {
                b5 + lit("virtual ")
            } else {
                b5
            };
            match sp_pre(*ret, f, b6) {
                Err(k) => Err(k),
                Ok(b7) => Ok(sp_calling_conv(cc, b7)),
            }
        },
        TypeV::MemberFunctionPointer(n, ps, sc, ret) => {
            match sp_pre(*ret, f, buf) {
                Err(k) => Err(k),
                Ok(b1) => {
                    let b2 = if f == DemangleFlags::LotsOfWhitespace {
                        sp_space(f, b1)
                    } else {
                        b1
                    };
                    let b3 = b2 + lit("(");
                    let b4 = if f == DemangleFlags::LotsOfWhitespace {
                        sp_space(f, b3)
                    } else {
                        b3
                    };
                    match sp_one_name(*n, f, b4) {
                        Err(k) => Err(k),
                        Ok(b5) => Ok(b5 + lit("::*)")),
                    }
                },
            }
        },
        TypeV::NonMemberFunction(cc, ps, sc, ret) => {
            match sp_pre(*ret, f, buf) {
                Err(k) => Err(k),
                Ok(b1) => Ok(sp_calling_conv(cc, b1)),
            }
        },
        TypeV::CXXVBTable(ns, sc) => Ok(sp_cv(sc, f, buf)),
        TypeV::CXXVFTable(ns, sc) => Ok(sp_cv(sc, f, buf)),
        TypeV::TemplateParameterWithIndex(n) => {
            let b1 = buf + lit("`template-parameter");
            let b2 = b1 + dec_repr(n);
            Ok(b2 + lit("'"))
        },
        TypeV::ThreadSafeStaticGuard(n) => {
            let b1 = buf + lit("TSS");
            Ok(b1 + dec_repr(n))
        },
        TypeV::Constant(n) => Ok(buf + dec_repr(n)),
        TypeV::VarArgs => Ok(buf + lit("...")),
        TypeV::Ptr(inner, sc) => {
            match sp_pre(*inner, f, buf) {
                Err(k) => Err(k),
                Ok(b1) => {
                    let b2 = if needs_parens(*inner) {
                        (if f == DemangleFlags::LotsOfWhitespace {
                            sp_space(f, b1)
                        } else {
                            b1
                        }) + lit("(")
                    } else {
                        b1
                    };
                    let b3 = if f == DemangleFlags::LotsOfWhitespace {
                        sp_space(f, b2)
                    } else {
                        b2
                    };
                    Ok(sp_cv(sc, f, b3 + lit("*")))
                },
            }
        },
        TypeV::Ref(inner, sc) => {
            match sp_pre(*inner, f, buf) {
                Err(k) => Err(k),
                Ok(b1) => {
                    let b2 = if needs_parens(*inner) {
                        (if f == DemangleFlags::LotsOfWhitespace {
                            sp_space(f, b1)
                        } else {
                            b1
                        }) + lit("(")
                    } else {
                        b1
                    };
                    let b3 = if f == DemangleFlags::LotsOfWhitespace {
                        sp_space(f, b2)
                    } else {
                        b2
                    };
                    Ok(sp_cv(sc, f, b3 + lit("&")))
                },
            }
        },
        TypeV::RValueRef(inner, sc) => {
            match sp_pre(*inner, f, buf) {
                Err(k) => Err(k),
                Ok(b1) => {
                    let b2 = if needs_parens(*inner) {
                        (if f == DemangleFlags::LotsOfWhitespace {
                            sp_space(f, b1)
                        } else {
                            b1
                        }) + lit("(")
                    } else {
                        b1
                    };
                    let b3 = if f == DemangleFlags::LotsOfWhitespace {
                        sp_space(f, b2)
                    } else {
                        b2
                    };
                    Ok(sp_cv(sc, f, b3 + lit("&&")))
                },
            }
        },
        TypeV::Array(len, inner, sc) => {
            match sp_pre(*inner, f, buf) {
                Err(k) => Err(k),
                Ok(b1) => Ok(sp_cv(sc, f, b1)),
            }
        },
        TypeV::Struct(sym, sc) => {
            match sp_class(*sym, lit("struct"), f, buf) {
                Err(k) => Err(k),
                Ok(b1) => Ok(sp_cv(sc, f, b1)),
            }
        },
        TypeV::Union(sym, sc) => {
            match sp_class(*sym, lit("union"), f, buf) {
                Err(k) => Err(k),
                Ok(b1) => Ok(sp_cv(sc, f, b1)),
            }
        },
        TypeV::Class(sym, sc) => {
            match sp_class(*sym, lit("class"), f, buf) {
                Err(k) => Err(k),
                Ok(b1) => Ok(sp_cv(sc, f, b1)),
            }
        },
        TypeV::Enum(sym, sc) => {
            match sp_class(*sym, lit("enum"), f, buf) {
                Err(k) => Err(k),
                Ok(b1) => Ok(sp_cv(sc, f, b1)),
            }
        },
        TypeV::Void(sc) => Ok(sp_cv(sc, f, buf + lit("void"))),
        TypeV::Bool(sc) => Ok(sp_cv(sc, f, buf + lit("bool"))),
        TypeV::Char(sc) => Ok(sp_cv(sc, f, buf + lit("char"))),
        TypeV::Schar(sc) => Ok(sp_cv(sc, f, buf + lit("signed char"))),
        TypeV::Uchar(sc) => Ok(sp_cv(sc, f, buf + lit("unsigned char"))),
        TypeV::Short(sc) => Ok(sp_cv(sc, f, buf + lit("short"))),
        TypeV::Ushort(sc) => Ok(sp_cv(sc, f, buf + lit("unsigned short"))),
        TypeV::Int(sc) => Ok(sp_cv(sc, f, buf + lit("int"))),
        TypeV::Uint(sc) => Ok(sp_cv(sc, f, buf + lit("unsigned int"))),
        TypeV::Long(sc) => Ok(sp_cv(sc, f, buf + lit("long"))),
        TypeV::Ulong(sc) => Ok(sp_cv(sc, f, buf + lit("unsigned long"))),
        TypeV::Int64(sc) => Ok(sp_cv(sc, f, buf + lit("int64_t"))),
        TypeV::Uint64(sc) => Ok(sp_cv(sc, f, buf + lit("uint64_t"))),
        TypeV::Wchar(sc) => Ok(sp_cv(sc, f, buf + lit("wchar_t"))),
        TypeV::Char16(sc) => Ok(sp_cv(sc, f, buf + lit("char16_t"))),
        TypeV::Char32(sc) => Ok(sp_cv(sc, f, buf + lit("char32_t"))),
        TypeV::Float(sc) => Ok(sp_cv(sc, f, buf + lit("float"))),
        TypeV::Double(sc) => Ok(sp_cv(sc, f, buf + lit("double"))),
        TypeV::Ldouble(sc) => Ok(sp_cv(sc, f, buf + lit("long double"))),
        TypeV::Nullptr => Ok(buf + lit("std::nullptr_t")),
        TypeV::EmptyParameterPack => Ok(buf),
    }
}

/// The second half of a type: everything printed right of the declared name.
pub open spec fn sp_post(t: TypeV, f: DemangleFlags, buf: Seq<u8>) -> core::result::Result<
    Seq<u8>,
    ErrorKind,
>
    decreases t, 1int,
{
    match t {
        TypeV::MemberFunction(fc, cc, ps, this_sc, ret) => {
            match sp_types(ps, f, buf + lit("(")) {
                Err(k) => Err(k),
                Ok(b2) => {
                    match sp_post(*ret, f, b2 + lit(")")) {
                        Err(k) => Err(k),
                        Ok(b4) => {
                            if this_sc.is_const {
                                let b5 = b4 + lit("const");
                                if f == DemangleFlags::LotsOfWhitespace {
                                    Ok(sp_space(f, b5))
                                } else {
                                    Ok(b5)
                                }
                            } else {
                                Ok(b4)
                            }
                        },
                    }
                },
            }
        },
        TypeV::NonMemberFunction(cc, ps, sc, ret) => {
            match sp_types(ps, f, buf + lit("(")) {
                Err(k) => Err(k),
                Ok(b2) => {
                    match sp_post(*ret, f, b2 + lit(")")) {
                        Err(k) => Err(k),
                        Ok(b4) => {
                            if sc.is_const {
                                let b5 = b4 + lit("const");
                                if f == DemangleFlags::LotsOfWhitespace {
                                    Ok(sp_space(f, b5))
                                } else {
                                    Ok(b5)
                                }
                            } else {
                                Ok(b4)
                            }
                        },
                    }
                },
            }
        },
        TypeV::MemberFunctionPointer(n, ps, sc, ret) => {
            match sp_types(ps, f, buf + lit("(")) {
                Err(k) => Err(k),
                Ok(b2) => {
                    match sp_post(*ret, f, b2 + lit(")")) {
                        Err(k) => Err(k),
                        Ok(b4) => {
                            if sc.is_const {
                                let b5 = b4 + lit("const");
                                if f == DemangleFlags::LotsOfWhitespace {
                                    Ok(sp_space(f, b5))
                                } else {
                                    Ok(b5)
                                }
                            } else {
                                Ok(b4)
                            }
                        },
                    }
                },
            }
        },
        TypeV::CXXVBTable(ns, sc) => {
            match sp_scope(ns, f, buf) {
                Err(k) => Err(k),
                Ok(b1) => Ok(b1 + lit("'}")),
            }
        },
        TypeV::Ptr(inner, sc) => {
            let b1 = if needs_parens(*inner) {
                buf + lit(")")
            } else {
                buf
            };
            sp_post(*inner, f, b1)
        },
        TypeV::Ref(inner, sc) => {
            let b1 = if needs_parens(*inner) {
                buf + lit(")")
            } else {
                buf
            };
            sp_post(*inner, f, b1)
        },
        TypeV::Array(len, inner, sc) => {
            let b1 = buf + lit("[");
            let b2 = b1 + dec_repr(len);
            let b3 = b2 + lit("]");
            sp_post(*inner, f, b3)
        },
        _ => Ok(buf),
    }
}

/// A comma-separated run of types, each as prefix then suffix.
pub open spec fn sp_types(ts: Seq<TypeV>, f: DemangleFlags, buf: Seq<u8>) -> core::result::Result<
    Seq<u8>,
    ErrorKind,
>
    decreases ts, 1int,
{
    if ts.len() == 0 {
        Ok(buf)
    } else {
        match sp_pre(ts[0], f, buf) {
            Err(k) => Err(k),
            Ok(b1) => {
                match sp_post(ts[0], f, b1) {
                    Err(k) => Err(k),
                    Ok(b2) => {
                        if ts.len() > 1 {
                            sp_types(ts.drop_first(), f, b2 + lit(","))
                        } else {
                            Ok(b2)
                        }
                    },
                }
            },
        }
    }
}

/// A nominal type: its category keyword, a space, then its qualified name.
pub open spec fn sp_class(
    sym: SymbolV,
    kw: Seq<u8>,
    f: DemangleFlags,
    buf: Seq<u8>,
) -> core::result::Result<Seq<u8>, ErrorKind>
    decreases sym, 2int,
{
    let b1 = buf + kw;
    let b2 = b1 + lit(" ");
    sp_name(sym, f, b2)
}

/// One name of a scope chain or a template base name.
pub open spec fn sp_one_name(n: NameV, f: DemangleFlags, buf: Seq<u8>) -> core::result::Result<
    Seq<u8>,
    ErrorKind,
>
    decreases n, 1int,
{
    match n {
        NameV::Operator(op) => {
            let b1 = if f == DemangleFlags::LotsOfWhitespace {
                sp_space(f, buf)
            } else {
                buf
            };
            Ok(b1 + op_bytes(op))
        },
        NameV::NonTemplate(bytes) => Ok(buf + bytes),
        NameV::Template(base, ps) => {
            match sp_one_name(*base, f, buf) {
                Err(k) => Err(k),
                Ok(b1) => sp_tmpl_params(ps, f, b1),
            }
        },
        NameV::Discriminator(v) => {
            let b1 = buf + lit("`");
            let b2 = b1 + dec_repr(v);
            Ok(b2 + lit("'"))
        },
        NameV::ParsedName(pr) => {
            match sp_serialize(*pr, f) {
                Err(k) => Err(k),
                Ok(inner) => {
                    let b1 = buf + lit("`");
                    let b2 = b1 + inner;
                    Ok(b2 + lit("'"))
                },
            }
        },
        NameV::AnonymousNamespace => Ok(buf + lit("`anonymous namespace`")),
    }
}

/// The entries of a scope chain after the outermost one, each preceded by
/// `::`, still walking from the end of the sequence towards its start.
pub open spec fn sp_scope_tail(
    ns: Seq<NameV>,
    f: DemangleFlags,
    buf: Seq<u8>,
) -> core::result::Result<Seq<u8>, ErrorKind>
    decreases ns, 1int,
{
    if ns.len() == 0 {
        Ok(buf)
    } else {
        match sp_one_name(ns.last(), f, buf + lit("::")) {
            Err(k) => Err(k),
            Ok(b1) => sp_scope_tail(ns.drop_last(), f, b1),
        }
    }
}

/// A scope chain, printed outermost first: the reverse of parse order,
/// joined by `::`.
pub open spec fn sp_scope(ns: Seq<NameV>, f: DemangleFlags, buf: Seq<u8>) -> core::result::Result<
    Seq<u8>,
    ErrorKind,
>
    decreases ns, 2int,
{
    if ns.len() == 0 {
        Ok(buf)
    } else {
        match sp_one_name(ns.last(), f, buf) {
            Err(k) => Err(k),
            Ok(b1) => sp_scope_tail(ns.drop_last(), f, b1),
        }
    }
}

/// A qualified name: the reversed scope, `::`, then the innermost name.
/// A constructor spells the enclosing name again; a destructor prefixes it
/// with `~`; the virtual-base-table name opens a phrase that the type's
/// suffix closes. A constructor or destructor with no enclosing name, or an
/// anonymous-namespace marker standing as the name itself, is rejected.
pub open spec fn sp_name(sym: SymbolV, f: DemangleFlags, buf: Seq<u8>) -> core::result::Result<
    Seq<u8>,
    ErrorKind,
>
    decreases sym, 1int,
{
    let b0 = sp_space_pre(f, buf);
    match sp_scope(sym.scope, f, b0) {
        Err(k) => Err(k),
        Ok(b1) => {
            let b2 = if sym.scope.len() > 0 {
                b1 + lit("::")
            } else {
                b1
            };
            match sym.name {
                NameV::Operator(op) => {
                    if op == Op::Ctor {
                        if sym.scope.len() == 0 {
                            Err(ErrorKind::MissingEnclosingName)
                        } else {
                            sp_one_name(sym.scope[0], f, b2)
                        }
                    } else if op == Op::Dtor {
                        if sym.scope.len() == 0 {
                            Err(ErrorKind::MissingEnclosingName)
                        } else {
                            sp_one_name(sym.scope[0], f, b2 + lit("~"))
                        }
                    } else if op == Op::VBTable {
                        Ok(b2 + lit("`vbtable'{for `"))
                    } else {
                        let b3 = if f == DemangleFlags::LotsOfWhitespace {
                            sp_space(f, b2)
                        } else {
                            b2
                        };
                        Ok(b3 + op_bytes(op))
                    }
                },
                NameV::NonTemplate(bytes) => Ok(b2 + bytes),
                NameV::Template(base, ps) => {
                    match sp_one_name(*base, f, b2) {
                        Err(k) => Err(k),
                        Ok(b3) => sp_tmpl_params(ps, f, b3),
                    }
                },
                NameV::Discriminator(v) => {
                    let b3 = b2 + lit("`");
                    let b4 = b3 + dec_repr(v);
                    Ok(b4 + lit("'"))
                },
                NameV::ParsedName(pr) => {
                    match sp_serialize(*pr, f) {
                        Err(k) => Err(k),
                        Ok(inner) => Ok(b2 + inner),
                    }
                },
                NameV::AnonymousNamespace => Err(ErrorKind::MisplacedAnonymousNamespace),
            }
        },
    }
}

/// A template argument list in angle brackets. An explicit empty parameter
/// pack standing last is not printed, and a space keeps two closing `>`
/// apart.
pub open spec fn sp_tmpl_params(
    ps: Seq<TypeV>,
    f: DemangleFlags,
    buf: Seq<u8>,
) -> core::result::Result<Seq<u8>, ErrorKind>
    decreases ps, 2int,
{
    let ts = if ps.len() > 0 && ps.last() == TypeV::EmptyParameterPack {
        ps.drop_last()
    } else {
        ps
    };
    let b1 = buf + lit("<");
    if ts.len() > 0 {
        match sp_types(ts, f, b1) {
            Err(k) => Err(k),
            Ok(b2) => {
                let b3 = if b2.len() > 0 && b2.last() == 62 {
                    b2 + lit(" ")
                } else {
                    b2
                };
                Ok(b3 + lit(">"))
            },
        }
    } else {
        Ok(b1 + lit(">"))
    }
}

// ---------------------------------------------------------------------------
// The printer, proved to produce exactly what the model says
// ---------------------------------------------------------------------------

/// The fixed spelling of an operator, as text.
pub fn op_text(op: Op) -> (r: &'static str)
    ensures
        r.spec_bytes() == op_bytes(op),
{
    match op {
        Op::Ctor => "ctor",
        Op::Dtor => "dtor",
        Op::New => "operator new",
        Op::Delete => "operator delete",
        Op::Assign => "operator=",
        Op::Shr => "operator>>",
        Op::Shl => "operator<<",
        Op::LogicalNot => "operator!",
        Op::Equal => "operator==",
        Op::NotEqual => "operator!=",
        Op::Subscript => "operator[]",
        Op::Cast => "operatorcast",
        Op::Arrow => "operator->",
        Op::Star => "operator*",
        Op::Increment => "operator++",
        Op::Decrement => "operator--",
        Op::Minus => "operator-",
        Op::Plus => "operator+",
        Op::Amp => "operator&",
        Op::ArrowStar => "operator->*",
        Op::Divide => "operator/",
        Op::Modulus => "operator%",
        Op::Less => "operator<",
        Op::LessEqual => "operator<=",
        Op::Greater => "operator>",
        Op::GreaterEqual => "operator>=",
        Op::Comma => "operator,",
        Op::Call => "operator()",
        Op::Tilde => "operator~",
        Op::Caret => "operator^",
        Op::Pipe => "operator|",
        Op::LogicalAnd => "operator&&",
        Op::LogicalOr => "operator||",
        Op::StarAssign => "operator*=",
        Op::PlusAssign => "operator+=",
        Op::MinusAssign => "operator-=",
        Op::DivideAssign => "operator/=",
        Op::ModulusAssign => "operator%=",
        Op::ShrAssign => "operator>>=",
        Op::ShlAssign => "operator<<=",
        Op::AmpAssign => "operator&=",
        Op::PipeAssign => "operator|=",
        Op::CaretAssign => "operator^=",
        Op::VFTable => "`vftable'",
        Op::VBTable => "`vbtable'",
        Op::VCall => "`vcall'",
        Op::Typeof => "`typeof'",
        Op::LocalStaticGuard => "`local static guard'",
        Op::VBaseDtor => "`vbase destructor'",
        Op::VectorDeletingDtor => "`vector deleting destructor'",
        Op::DefaultCtorClosure => "`default constructor closure'",
        Op::ScalarDeletingDtor => "`scalar deleting destructor'",
        Op::VectorCtorIterator => "`vector constructor iterator'",
        Op::VectorDtorIterator => "`vector destructor iterator'",
        Op::VectorVBaseCtorIterator => "`vector vbase constructor iterator'",
        Op::VirtualDisplacementMap => "`virtual displacement map'",
        Op::EHVectorCtorIterator => "`eh vector constructor iterator'",
        Op::EHVectorDtorIterator => "`eh vector destructor iterator'",
        Op::EHVectorVBaseCtorIterator => "`eh vector vbase constructor iterator'",
        Op::CopyCtorClosure => "`copy constructor closure'",
        Op::LocalVFTable => "`local vftable'",
        Op::LocalVFTableCtorClosure => "`local vftable constructor closure'",
        Op::NewArray => "operator new[]",
        Op::DeleteArray => "operator delete[]",
        Op::PlacementDeleteClosure => "`placement delete closure'",
        Op::PlacementDeleteArrayClosure => "`placement delete[] closure'",
        Op::CoAwait => " co_await",
        Op::LiteralOperatorName => " CXXLiteralOperatorName",
    }
}

/// The output buffer under construction, with the chosen spacing mode.
pub struct Serializer {
    pub flags: DemangleFlags,
    pub w: Vec<u8>,
}

impl Serializer {
    /// Appends the bytes of a literal.
    fn emit_str(&mut self, s: &str)
        ensures
            final(self).flags == old(self).flags,
            final(self).w@ == old(self).w@ + s.spec_bytes(),
    {
        let bs: &[u8] = s.as_bytes();
        let n = bs.len();
        let mut i: usize = 0;
        while i < n
            invariant
                self.flags == old(self).flags,
                n == bs@.len(),
                bs@ == s.spec_bytes(),
                i <= n,
                self.w@ == old(self).w@ + bs@.subrange(0, i as int),
            decreases n - i,
        {
            self.w.push(bs[i]);
            proof {
                assert(self.w@ =~= old(self).w@ + bs@.subrange(0, i + 1));
            }
            i += 1;
        }
        proof {
            assert(self.w@ =~= old(self).w@ + s.spec_bytes());
        }
    }

    /// Appends raw identifier bytes.
    fn emit_bytes(&mut self, v: &Vec<u8>)
        ensures
            final(self).flags == old(self).flags,
            final(self).w@ == old(self).w@ + v@,
    {
        let n = v.len();
        let mut i: usize = 0;
        while i < n
            invariant
                self.flags == old(self).flags,
                n == v@.len(),
                i <= n,
                self.w@ == old(self).w@ + v@.subrange(0, i as int),
            decreases n - i,
        {
            self.w.push(v[i]);
            proof {
                assert(self.w@ =~= old(self).w@ + v@.subrange(0, i + 1));
            }
            i += 1;
        }
        proof {
            assert(self.w@ =~= old(self).w@ + v@);
        }
    }

    /// Appends the decimal digits of an unsigned value.
    fn emit_dec(&mut self, m: u64)
        ensures
            final(self).flags == old(self).flags,
            final(self).w@ == old(self).w@ + dec_digits(m as nat),
        decreases m,
    {
        if m < 10 {
            self.w.push(48 + (m as u8));
            proof {
                assert(old(self).w@ + dec_digits(m as nat) =~= old(self).w@.push(
                    (48 + (m as nat)) as u8,
                ));
            }
        } else {
            self.emit_dec(m / 10);
            self.w.push(48 + ((m % 10) as u8));
            proof {
                assert(old(self).w@ + dec_digits(m as nat) =~= (old(self).w@ + dec_digits(
                    (m / 10) as nat,
                )).push((48 + (m as nat) % 10) as u8));
            }
        }
    }

    /// Appends the decimal spelling of a signed value.
    fn emit_i32(&mut self, v: i32)
        ensures
            final(self).flags == old(self).flags,
            final(self).w@ == old(self).w@ + dec_repr(v as int),
    {
        if v < 0 {
            self.w.push(45);
            let m: u64 = (-(v as i64)) as u64;
            self.emit_dec(m);
            proof {
                assert(old(self).w@ + dec_repr(v as int) =~= old(self).w@.push(45u8) + dec_digits(
                    m as nat,
                ));
            }
        } else {
            self.emit_dec(v as u64);
        }
    }

    /// Inserts a separating space if the last output byte asks for one.
    fn write_space(&mut self)
        ensures
            final(self).flags == old(self).flags,
            final(self).w@ == sp_space(old(self).flags, old(self).w@),
    {
        let n = self.w.len();
        if n > 0 {
            let c = self.w[n - 1];
            let lots = match self.flags {
                DemangleFlags::LotsOfWhitespace => true,
                DemangleFlags::LessWhitespace => false,
            };
            if (65 <= c && c <= 90) || (97 <= c && c <= 122) || (lots && (c == 42 || c == 38 || c
                == 62)) {
                self.emit_str(" ");
            }
        }
    }

    /// Applies the separator rule at the start of a qualified name.
    fn write_space_pre(&mut self)
        ensures
            final(self).flags == old(self).flags,
            final(self).w@ == sp_space_pre(old(self).flags, old(self).w@),
    {
        self.write_space();
    }

    /// Appends the trailing `const` / `volatile` of a qualified type.
    fn write_cv(&mut self, sc: StorageClass)
        ensures
            final(self).flags == old(self).flags,
            final(self).w@ == sp_cv(sc, old(self).flags, old(self).w@),
    {
        if sc.is_const {
            self.write_space();
            self.emit_str("const");
        }
        if sc.is_volatile {
            self.write_space();
            self.emit_str("volatile");
        }
    }

    /// Appends the spelling of a calling convention.
    fn write_calling_conv(&mut self, cc: CallingConv)
        ensures
            final(self).flags == old(self).flags,
            final(self).w@ == sp_calling_conv(cc, old(self).w@),
    {
        let n = self.w.len();
        let space_there = n > 0 && self.w[n - 1] == 32;
        if !space_there {
            self.emit_str(" ");
        }
        match cc {
            CallingConv::Cdecl => self.emit_str("__cdecl "),
            CallingConv::Pascal => (),
            CallingConv::Thiscall => self.emit_str("__thiscall "),
            CallingConv::Stdcall => self.emit_str("__stdcall "),
            CallingConv::Fastcall => self.emit_str("__fastcall "),
            CallingConv::_Regcall => self.emit_str("__regcall "),
        }
    }
}

impl Serializer {
    /// Serializes a whole tree into an empty buffer: type prefix, then the
    /// qualified name, then the type suffix.
    pub fn serialize_into(&mut self, pr: &ParseResult) -> (r: Result<()>)
        requires
            old(self).w@.len() == 0,
        ensures
            final(self).flags == old(self).flags,
            match sp_serialize(pr@, old(self).flags) {
                Ok(b) => r is Ok && final(self).w@ == b,
                Err(k) => r matches Err(e) && e == (Error { kind: k, pos: 0 }),
            },
        decreases *pr, 1int,
    {
        proof {
            assert(old(self).w@ =~= Seq::<u8>::empty());
        }
        self.write_pre(&pr.symbol_type)?;
        self.write_name(&pr.symbol)?;
        self.write_post(&pr.symbol_type)?;
        Ok(())
    }

    /// Writes the first half of a type: everything left of the name.
    #[verifier::rlimit(100)]
    fn write_pre(&mut self, t: &Type) -> (r: Result<()>)
        ensures
            final(self).flags == old(self).flags,
            match sp_pre(t@, old(self).flags, old(self).w@) {
                Ok(b) => r is Ok && final(self).w@ == b,
                Err(k) => r matches Err(e) && e == (Error { kind: k, pos: 0 }),
            },
        decreases *t, 1int,
    {
        let storage_class: StorageClass = match t {
            Type::NoType => {
                return Ok(());
            },
            Type::MemberFunction(func_class, calling_conv, _, _, inner) => {
                if func_class.is_thunk {
                    self.emit_str("[thunk]:");
                }
                if func_class.is_private {
                    self.emit_str("private: ");
                }
                if func_class.is_protected {
                    self.emit_str("protected: ");
                }
                if func_class.is_public {
                    self.emit_str("public: ");
                }
                if func_class.is_static {
                    self.emit_str("static ");
                }
                if func_class.is_virtual {
                    self.emit_str("virtual ");
                }
                self.write_pre(inner)?;
                self.write_calling_conv(*calling_conv);
                return Ok(());
            },
            Type::MemberFunctionPointer(name, _, _, inner) => {
                self.write_pre(inner)?;
                if self.is_lots() {
                    self.write_space();
                }
                self.emit_str("(");
                if self.is_lots() {
                    self.write_space();
                }
                self.write_one_name(name)?;
                self.emit_str("::*)");
                return Ok(());
            },
            Type::NonMemberFunction(calling_conv, _, _, inner) => {
                self.write_pre(inner)?;
                self.write_calling_conv(*calling_conv);
                return Ok(());
            },
            Type::CXXVBTable(_, sc) => *sc,
            Type::CXXVFTable(_, sc) => *sc,
            Type::TemplateParameterWithIndex(n) => {
                self.emit_str("`template-parameter");
                self.emit_i32(*n);
                self.emit_str("'");
                return Ok(());
            },
            Type::ThreadSafeStaticGuard(n) => {
                self.emit_str("TSS");
                self.emit_i32(*n);
                return Ok(());
            },
            Type::Constant(n) => {
                self.emit_i32(*n);
                return Ok(());
            },
            Type::VarArgs => {
                self.emit_str("...");
                return Ok(());
            },
            Type::Ptr(inner, sc) => {
                self.write_pre(inner)?;
                self.open_parens_if_needed(inner);
                if self.is_lots() {
                    self.write_space();
                }
                self.emit_str("*");
                *sc
            },
            Type::Ref(inner, sc) => {
                self.write_pre(inner)?;
                self.open_parens_if_needed(inner);
                if self.is_lots() {
                    self.write_space();
                }
                self.emit_str("&");
                *sc
            },
            Type::RValueRef(inner, sc) => {
                self.write_pre(inner)?;
                self.open_parens_if_needed(inner);
                if self.is_lots() {
                    self.write_space();
                }
                self.emit_str("&&");
                *sc
            },
            Type::Array(_, inner, sc) => {
                self.write_pre(inner)?;
                *sc
            },
            Type::Struct(names, sc) => {
                self.write_class(names, "struct")?;
                *sc
            },
            Type::Union(names, sc) => {
                self.write_class(names, "union")?;
                *sc
            },
            Type::Class(names, sc) => {
                self.write_class(names, "class")?;
                *sc
            },
            Type::Enum(names, sc) => {
                self.write_class(names, "enum")?;
                *sc
            },
            Type::Void(sc) => {
                self.emit_str("void");
                *sc
            },
            Type::Bool(sc) => {
                self.emit_str("bool");
                *sc
            },
            Type::Char(sc) => {
                self.emit_str("char");
                *sc
            },
            Type::Schar(sc) => {
                self.emit_str("signed char");
                *sc
            },
            Type::Uchar(sc) => {
                self.emit_str("unsigned char");
                *sc
            },
            Type::Short(sc) => {
                self.emit_str("short");
                *sc
            },
            Type::Ushort(sc) => {
                self.emit_str("unsigned short");
                *sc
            },
            Type::Int(sc) => {
                self.emit_str("int");
                *sc
            },
            Type::Uint(sc) => {
                self.emit_str("unsigned int");
                *sc
            },
            Type::Long(sc) => {
                self.emit_str("long");
                *sc
            },
            Type::Ulong(sc) => {
                self.emit_str("unsigned long");
                *sc
            },
            Type::Int64(sc) => {
                self.emit_str("int64_t");
                *sc
            },
            Type::Uint64(sc) => {
                self.emit_str("uint64_t");
                *sc
            },
            Type::Wchar(sc) => {
                self.emit_str("wchar_t");
                *sc
            },
            Type::Char16(sc) => {
                self.emit_str("char16_t");
                *sc
            },
            Type::Char32(sc) => {
                self.emit_str("char32_t");
                *sc
            },
            Type::Float(sc) => {
                self.emit_str("float");
                *sc
            },
            Type::Double(sc) => {
                self.emit_str("double");
                *sc
            },
            Type::Ldouble(sc) => {
                self.emit_str("long double");
                *sc
            },
            Type::Nullptr => {
                self.emit_str("std::nullptr_t");
                return Ok(());
            },
            Type::EmptyParameterPack => {
                return Ok(());
            },
        };
        self.write_cv(storage_class);
        Ok(())
    }

    /// True in the generous spacing mode.
    fn is_lots(&self) -> (r: bool)
        ensures
            r == (self.flags == DemangleFlags::LotsOfWhitespace),
    {
        match self.flags {
            DemangleFlags::LotsOfWhitespace => true,
            DemangleFlags::LessWhitespace => false,
        }
    }

    /// Opens the parenthesis that keeps a pointer to a function or array
    /// bound to the declared entity.
    fn open_parens_if_needed(&mut self, inner: &Type)
        ensures
            final(self).flags == old(self).flags,
            final(self).w@ == if needs_parens(inner@) {
                (if old(self).flags == DemangleFlags::LotsOfWhitespace {
                    sp_space(old(self).flags, old(self).w@)
                } else {
                    old(self).w@
                }) + lit("(")
            } else {
                old(self).w@
            },
    {
        let needed = match inner {
            Type::MemberFunction(_, _, _, _, _) => true,
            Type::NonMemberFunction(_, _, _, _) => true,
            Type::Array(_, _, _) => true,
            _ => false,
        };
        if needed {
            if self.is_lots() {
                self.write_space();
            }
            self.emit_str("(");
        }
    }

    /// Writes the second half of a type: everything right of the name.
    fn write_post(&mut self, t: &Type) -> (r: Result<()>)
        ensures
            final(self).flags == old(self).flags,
            match sp_post(t@, old(self).flags, old(self).w@) {
                Ok(b) => r is Ok && final(self).w@ == b,
                Err(k) => r matches Err(e) && e == (Error { kind: k, pos: 0 }),
            },
        decreases *t, 1int,
    {
        match t {
            Type::MemberFunction(_, _, params, sc, return_type) => {
                self.emit_str("(");
                proof {
                    assert(decreases_to!(*t => *params));
                    assert(decreases_to!(*params => params.types));
                    assert(decreases_to!(params.types => params.types@));
                    assert(params.types@.subrange(0, params.types@.len() as int)
                        =~= params.types@);
                    assert(types_view(params.types@).subrange(
                        0,
                        params.types@.len() as int,
                    ) =~= types_view(params.types@));
                }
                self.write_types_range(&params.types, 0, params.types.len())?;
                self.emit_str(")");
                self.write_post(return_type)?;
                if sc.is_const {
                    self.emit_str("const");
                    if self.is_lots() {
                        self.write_space();
                    }
                }
            },
            Type::NonMemberFunction(_, params, sc, return_type) => {
                self.emit_str("(");
                proof {
                    assert(decreases_to!(*t => *params));
                    assert(decreases_to!(*params => params.types));
                    assert(decreases_to!(params.types => params.types@));
                    assert(params.types@.subrange(0, params.types@.len() as int)
                        =~= params.types@);
                    assert(types_view(params.types@).subrange(
                        0,
                        params.types@.len() as int,
                    ) =~= types_view(params.types@));
                }
                self.write_types_range(&params.types, 0, params.types.len())?;
                self.emit_str(")");
                self.write_post(return_type)?;
                if sc.is_const {
                    self.emit_str("const");
                    if self.is_lots() {
                        self.write_space();
                    }
                }
            },
            Type::MemberFunctionPointer(_, params, sc, return_type) => {
                self.emit_str("(");
                proof {
                    assert(decreases_to!(*t => *params));
                    assert(decreases_to!(*params => params.types));
                    assert(decreases_to!(params.types => params.types@));
                    assert(params.types@.subrange(0, params.types@.len() as int)
                        =~= params.types@);
                    assert(types_view(params.types@).subrange(
                        0,
                        params.types@.len() as int,
                    ) =~= types_view(params.types@));
                }
                self.write_types_range(&params.types, 0, params.types.len())?;
                self.emit_str(")");
                self.write_post(return_type)?;
                if sc.is_const {
                    self.emit_str("const");
                    if self.is_lots() {
                        self.write_space();
                    }
                }
            },
            Type::CXXVBTable(names, _) => {
                self.write_scope(names)?;
                self.emit_str("'}");
            },
            Type::Ptr(inner, _) => {
                self.close_parens_if_needed(inner);
                self.write_post(inner)?;
            },
            Type::Ref(inner, _) => {
                self.close_parens_if_needed(inner);
                self.write_post(inner)?;
            },
            Type::Array(len, inner, _) => {
                self.emit_str("[");
                self.emit_i32(*len);
                self.emit_str("]");
                self.write_post(inner)?;
            },
            _ => {},
        }
        Ok(())
    }

    /// Closes the parenthesis opened by the matching prefix step.
    fn close_parens_if_needed(&mut self, inner: &Type)
        ensures
            final(self).flags == old(self).flags,
            final(self).w@ == if needs_parens(inner@) {
                old(self).w@ + lit(")")
            } else {
                old(self).w@
            },
    {
        let needed = match inner {
            Type::MemberFunction(_, _, _, _, _) => true,
            Type::NonMemberFunction(_, _, _, _) => true,
            Type::Array(_, _, _) => true,
            _ => false,
        };
        if needed {
            self.emit_str(")");
        }
    }

    /// Writes the types at positions `i` up to `count`, comma-separated.
    fn write_types_range(&mut self, types: &Vec<Type>, i: usize, count: usize) -> (r: Result<()>)
        requires
            i <= count <= types@.len(),
        ensures
            final(self).flags == old(self).flags,
            match sp_types(
                types_view(types@).subrange(i as int, count as int),
                old(self).flags,
                old(self).w@,
            ) {
                Ok(b) => r is Ok && final(self).w@ == b,
                Err(k) => r matches Err(e) && e == (Error { kind: k, pos: 0 }),
            },
        decreases types@.subrange(i as int, count as int), 1int,
    {
        let ghost ts = types_view(types@).subrange(i as int, count as int);
        if i >= count {
            proof {
                assert(ts.len() == 0);
            }
            return Ok(());
        }
        proof {
            assert(ts[0] == types_view(types@)[i as int]);
            assert(decreases_to!(types@.subrange(i as int, count as int) => types@.subrange(
                i as int,
                count as int,
            )[0]));
            assert(types@.subrange(i as int, count as int)[0] == types@[i as int]);
        }
        self.write_pre(&types[i])?;
        self.write_post(&types[i])?;
        if i + 1 < count {
            self.emit_str(",");
            proof {
                assert(types@.subrange(i + 1, count as int) =~= types@.subrange(
                    i as int,
                    count as int,
                ).subrange(1, count - i));
                assert(decreases_to!(types@.subrange(i as int, count as int) => types@.subrange(
                    i as int,
                    count as int,
                ).subrange(1, count - i)));
                assert(types_view(types@).subrange(i + 1, count as int) =~= ts.drop_first());
            }
            self.write_types_range(types, i + 1, count)?;
        }
        Ok(())
    }

    /// Writes a nominal type: its keyword, a space, then its name.
    fn write_class(&mut self, names: &Symbol, s: &str) -> (r: Result<()>)
        ensures
            final(self).flags == old(self).flags,
            match sp_class(names@, s.spec_bytes(), old(self).flags, old(self).w@) {
                Ok(b) => r is Ok && final(self).w@ == b,
                Err(k) => r matches Err(e) && e == (Error { kind: k, pos: 0 }),
            },
        decreases *names, 2int,
    {
        self.emit_str(s);
        self.emit_str(" ");
        self.write_name(names)?;
        Ok(())
    }

    /// Writes one name of a scope chain or a template base name.
    fn write_one_name(&mut self, name: &Name) -> (r: Result<()>)
        ensures
            final(self).flags == old(self).flags,
            match sp_one_name(name@, old(self).flags, old(self).w@) {
                Ok(b) => r is Ok && final(self).w@ == b,
                Err(k) => r matches Err(e) && e == (Error { kind: k, pos: 0 }),
            },
        decreases *name, 1int,
    {
        match name {
            Name::Operator(op) => {
                if self.is_lots() {
                    self.write_space();
                }
                self.emit_str(op_text(*op));
            },
            Name::NonTemplate(bytes) => {
                self.emit_bytes(bytes);
            },
            Name::Template(base, params) => {
                self.write_one_name(base)?;
                self.write_tmpl_params(params)?;
            },
            Name::Discriminator(val) => {
                self.emit_str("`");
                self.emit_i32(*val);
                self.emit_str("'");
            },
            Name::ParsedName(val) => {
                let mut nested = Serializer { flags: self.flags, w: Vec::new() };
                match nested.serialize_into(val) {
                    Ok(()) => {},
                    Err(e) => {
                        return Err(e);
                    },
                }
                self.emit_str("`");
                self.emit_bytes(&nested.w);
                self.emit_str("'");
            },
            Name::AnonymousNamespace => {
                self.emit_str("`anonymous namespace`");
            },
        }
        Ok(())
    }

    /// Writes the entries of `names` before position `j`, each preceded by
    /// `::`, walking backwards.
    fn write_scope_tail(&mut self, names: &Vec<Name>, j: usize) -> (r: Result<()>)
        requires
            j <= names@.len(),
        ensures
            final(self).flags == old(self).flags,
            match sp_scope_tail(
                names_view(names@).subrange(0, j as int),
                old(self).flags,
                old(self).w@,
            ) {
                Ok(b) => r is Ok && final(self).w@ == b,
                Err(k) => r matches Err(e) && e == (Error { kind: k, pos: 0 }),
            },
        decreases names@.subrange(0, j as int), 1int,
    {
        let ghost ns = names_view(names@).subrange(0, j as int);
        if j == 0 {
            proof {
                assert(ns.len() == 0);
            }
            return Ok(());
        }
        proof {
            assert(ns.last() == names_view(names@)[j - 1]);
            assert(decreases_to!(names@.subrange(0, j as int) => names@.subrange(0, j as int)[j
                - 1]));
            assert(names@.subrange(0, j as int)[j - 1] == names@[j - 1]);
        }
        self.emit_str("::");
        self.write_one_name(&names[j - 1])?;
        proof {
            assert(names@.subrange(0, j - 1) =~= names@.subrange(0, j as int).subrange(0, j - 1));
            assert(decreases_to!(names@.subrange(0, j as int) => names@.subrange(
                0,
                j as int,
            ).subrange(0, j - 1)));
            assert(names_view(names@).subrange(0, j - 1) =~= ns.drop_last());
        }
        self.write_scope_tail(names, j - 1)?;
        Ok(())
    }

    /// Writes a scope chain, outermost entry first.
    fn write_scope(&mut self, names: &NameSequence) -> (r: Result<()>)
        ensures
            final(self).flags == old(self).flags,
            match sp_scope(names@, old(self).flags, old(self).w@) {
                Ok(b) => r is Ok && final(self).w@ == b,
                Err(k) => r matches Err(e) && e == (Error { kind: k, pos: 0 }),
            },
        decreases *names, 2int,
    {
        let n = names.names.len();
        if n == 0 {
            return Ok(());
        }
        proof {
            assert(names@.last() == names_view(names.names@)[n - 1]);
            assert(decreases_to!(*names => names.names));
            assert(decreases_to!(names.names => names.names@));
            assert(decreases_to!(names.names@ => names.names@[n - 1]));
        }
        self.write_one_name(&names.names[n - 1])?;
        proof {
            assert(names_view(names.names@).subrange(0, n - 1) =~= names@.drop_last());
            assert(decreases_to!(*names => names.names));
            assert(decreases_to!(names.names => names.names@));
            assert(decreases_to!(names.names@ => names.names@.subrange(0, n - 1)));
        }
        self.write_scope_tail(&names.names, n - 1)?;
        Ok(())
    }

    /// Writes a qualified name: the reversed scope, `::`, then the
    /// innermost name with its constructor/destructor/vbtable spellings.
    #[verifier::rlimit(100)]
    fn write_name(&mut self, names: &Symbol) -> (r: Result<()>)
        ensures
            final(self).flags == old(self).flags,
            match sp_name(names@, old(self).flags, old(self).w@) {
                Ok(b) => r is Ok && final(self).w@ == b,
                Err(k) => r matches Err(e) && e == (Error { kind: k, pos: 0 }),
            },
        decreases *names, 1int,
    {
        self.write_space_pre();
        self.write_scope(&names.scope)?;
        if names.scope.names.len() > 0 {
            self.emit_str("::");
        }
        match &names.name {
            Name::Operator(op) => {
                if *op == Op::Ctor {
                    if names.scope.names.len() == 0 {
                        return Err(Error::new(ErrorKind::MissingEnclosingName, 0));
                    }
                    proof {
                        assert(names@.scope[0] == names_view(names.scope.names@)[0]);
                        assert(decreases_to!(*names => names.scope));
                        assert(decreases_to!(names.scope => names.scope.names));
                        assert(decreases_to!(names.scope.names => names.scope.names@));
                        assert(decreases_to!(names.scope.names@ => names.scope.names@[0]));
                    }
                    self.write_one_name(&names.scope.names[0])?;
                } else if *op == Op::Dtor {
                    if names.scope.names.len() == 0 {
                        return Err(Error::new(ErrorKind::MissingEnclosingName, 0));
                    }
                    self.emit_str("~");
                    proof {
                        assert(names@.scope[0] == names_view(names.scope.names@)[0]);
                        assert(decreases_to!(*names => names.scope));
                        assert(decreases_to!(names.scope => names.scope.names));
                        assert(decreases_to!(names.scope.names => names.scope.names@));
                        assert(decreases_to!(names.scope.names@ => names.scope.names@[0]));
                    }
                    self.write_one_name(&names.scope.names[0])?;
                } else if *op == Op::VBTable {
                    self.emit_str("`vbtable'{for `");
                } else {
                    if self.is_lots() {
                        self.write_space();
                    }
                    self.emit_str(op_text(*op));
                }
            },
            Name::NonTemplate(bytes) => {
                self.emit_bytes(bytes);
            },
            Name::Template(base, params) => {
                self.write_one_name(base)?;
                self.write_tmpl_params(params)?;
            },
            Name::Discriminator(val) => {
                self.emit_str("`");
                self.emit_i32(*val);
                self.emit_str("'");
            },
            Name::ParsedName(val) => {
                let mut nested = Serializer { flags: self.flags, w: Vec::new() };
                match nested.serialize_into(val) {
                    Ok(()) => {},
                    Err(e) => {
                        return Err(e);
                    },
                }
                self.emit_bytes(&nested.w);
            },
            Name::AnonymousNamespace => {
                return Err(Error::new(ErrorKind::MisplacedAnonymousNamespace, 0));
            },
        }
        Ok(())
    }

    /// Writes a template argument list in angle brackets, dropping a
    /// trailing explicit empty pack and keeping two closing `>` apart.
    fn write_tmpl_params(&mut self, params: &Params) -> (r: Result<()>)
        ensures
            final(self).flags == old(self).flags,
            match sp_tmpl_params(params@, old(self).flags, old(self).w@) {
                Ok(b) => r is Ok && final(self).w@ == b,
                Err(k) => r matches Err(e) && e == (Error { kind: k, pos: 0 }),
            },
        decreases *params, 2int,
    {
        let n = params.types.len();
        let drop_pack = n > 0 && (match &params.types[n - 1] {
            Type::EmptyParameterPack => true,
            _ => false,
        });
        let count = if drop_pack {
            n - 1
        } else {
            n
        };
        proof {
            if drop_pack {
                assert(params@.last() == types_view(params.types@)[n - 1]);
                assert(types_view(params.types@).subrange(0, count as int) =~= params@.drop_last());
            } else {
                if n > 0 {
                    assert(params@.last() == types_view(params.types@)[n - 1]);
                }
                assert(types_view(params.types@).subrange(0, count as int) =~= params@);
            }
        }
        self.emit_str("<");
        if count > 0 {
            proof {
                assert(decreases_to!(*params => params.types));
                assert(decreases_to!(params.types => params.types@));
                if count < n {
                    assert(decreases_to!(params.types@ => params.types@.subrange(
                        0,
                        count as int,
                    )));
                } else {
                    assert(params.types@.subrange(0, count as int) =~= params.types@);
                }
            }
            self.write_types_range(&params.types, 0, count)?;
            let m = self.w.len();
            if m > 0 && self.w[m - 1] == 62 {
                self.emit_str(" ");
            }
        }
        self.emit_str(">");
        Ok(())
    }
}

} // verus!
