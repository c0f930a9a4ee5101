use msvc_demangler::demangle;
use msvc_demangler::parse;
use msvc_demangler::serialize;
use msvc_demangler::DemangleFlags;
use msvc_demangler::ErrorKind;
use msvc_demangler::Name;
use msvc_demangler::NameSequence;
use msvc_demangler::ParseResult;
use msvc_demangler::Symbol;
use msvc_demangler::Type;

fn expect_with_flags(input: &str, reference: &str, flags: DemangleFlags) {
    let demangled = demangle(input, flags);
    assert_eq!(demangled, Ok(reference.to_owned()));
}

// For cases where undname demangles differently/better than we do.
fn expect_undname_failure(input: &str, reference: &str) {
    let demangled = demangle(input, DemangleFlags::LotsOfWhitespace);
    assert_ne!(demangled, Ok(reference.to_owned()));
}

#[test]
fn other_tests() {
    let expect = |input, reference| {
        expect_with_flags(input, reference, DemangleFlags::LotsOfWhitespace);
    };

    expect("?f@@YAHQBH@Z", "int __cdecl f(int const * const)");
    expect("?f@@YA_WQB_W@Z", "wchar_t __cdecl f(wchar_t const * const)");
    expect("?f@@YA_UQB_U@Z", "char32_t __cdecl f(char32_t const * const)");
    expect("?f@@YA_SQB_S@Z", "char16_t __cdecl f(char16_t const * const)");
    expect("?g@@YAHQAY0EA@$$CBH@Z", "int __cdecl g(int const (* const)[64])");
    expect(
        "??0Klass@std@@AEAA@AEBV01@@Z",
        "private: __cdecl std::Klass::Klass(class std::Klass const &)",
    );
    expect("??0?$Klass@V?$Mass@_N@@@std@@QEAA@AEBV01@@Z",
           "public: __cdecl std::Klass<class Mass<bool> >::Klass<class Mass<bool> >(class std::Klass<class Mass<bool> > const &)");
    expect("??$load@M@UnsharedOps@js@@SAMV?$SharedMem@PAM@@@Z",
           "public: static float __cdecl js::UnsharedOps::load<float>(class SharedMem<float *>)");

    expect("?cached@?1??GetLong@BinaryPath@mozilla@@SA?AW4nsresult@@QA_W@Z@4_NA",
           "bool `public: static enum nsresult __cdecl mozilla::BinaryPath::GetLong(wchar_t * const)\'::`2\'::cached");
    expect("??0?$A@_K@B@@QAE@$$QAV01@@Z",
           "public: __thiscall B::A<uint64_t>::A<uint64_t>(class B::A<uint64_t> &&)");
    expect("??_7nsI@@6B@",
           "const nsI::`vftable\'");
    expect(
        "??_7W@?A@@6B@",
        "const `anonymous namespace`::W::`vftable'",
    );
    expect("??1?$ns@$$CBVtxXP@@@@QAE@XZ",
           "public: __thiscall ns<class txXP const>::~ns<class txXP const>(void)");
    /* XXX: undname prints void (__thiscall*)(void *) for the parameter type. */
    expect(
        "??_I@YGXPAXIIP6EX0@Z@Z",
        "void __stdcall `vector destructor iterator'(void *,unsigned int,unsigned int,void __thiscall (*)(void *))",
    );
    expect(
        "??_GnsWindowsShellService@@EAEPAXI@Z",
        "private: virtual void * __thiscall nsWindowsShellService::`scalar deleting destructor'(unsigned int)",
    );
    expect(
        "??1?$nsAutoPtr@$$CBVtxXPathNode@@@@QAE@XZ",
        "public: __thiscall nsAutoPtr<class txXPathNode const>::~nsAutoPtr<class txXPathNode const>(void)",
    );
    expect(
        "??_EPrintfTarget@mozilla@@MAEPAXI@Z",
        "protected: virtual void * __thiscall mozilla::PrintfTarget::`vector deleting destructor'(unsigned int)",
    );
    expect(
        "??_GDynamicFrameEventFilter@?A0xcdaa5fa8@@AAEPAXI@Z",
        "private: void * __thiscall `anonymous namespace`::DynamicFrameEventFilter::`scalar deleting destructor\'(unsigned int)",
    );
    /* XXX: undname tacks on `adjustor{16}` to the name. */
    expect(
        "?Release@ContentSignatureVerifier@@WBA@AGKXZ",
        "[thunk]:public: virtual unsigned long __stdcall ContentSignatureVerifier::Release(void)",
    );
    expect(
        "??$new_@VWatchpointMap@js@@$$V@?$MallocProvider@UZone@JS@@@js@@QAEPAVWatchpointMap@1@XZ",
        "public: class js::WatchpointMap * __thiscall js::MallocProvider<struct JS::Zone>::new_<class js::WatchpointMap>(void)",
    );
    expect(
        "??$templ_fun_with_ty_pack@$$V@@YAXXZ",
        "void __cdecl templ_fun_with_ty_pack<>(void)",
    );
    expect(
        "??4?$RefPtr@VnsRange@@@@QAEAAV0@$$T@Z",
        "public: class RefPtr<class nsRange> & __thiscall RefPtr<class nsRange>::operator=(std::nullptr_t)",
    );
    expect(
        "??1?$function@$$A6AXXZ@std@@QAE@XZ",
        "public: __thiscall std::function<void __cdecl (void)>::~function<void __cdecl (void)>(void)",
    );
    expect_undname_failure(
        "??1?$function@$$A6AXXZ@std@@QAE@XZ",
        "public: __thiscall std::function<void __cdecl(void)>::~function<void __cdecl(void)>(void)",
    );
    // Not great (`operatorcast`, space at the end), but at least make sure we don't regress.
    expect(
        "??B?$function@$$A6AXXZ@std@@QBE_NXZ",
        "public: bool __thiscall std::function<void __cdecl (void)>::operatorcast(void)const ",
    );
    expect_undname_failure(
        "??B?$function@$$A6AXXZ@std@@QBE_NXZ",
        "public: __thiscall std::function<void __cdecl(void)>::operator bool(void)const",
    );
    expect(
        "??$?RA6AXXZ$$V@SkOnce@@QAEXA6AXXZ@Z",
        "public: void __thiscall SkOnce::operator()<void __cdecl (&)(void)>(void __cdecl (&)(void))",
    );
    expect_undname_failure(
        "??$?RA6AXXZ$$V@SkOnce@@QAEXA6AXXZ@Z",
        "public: void __thiscall SkOnce::operator()<void (__cdecl&)(void)>(void (__cdecl&)(void))",
    );
}

#[test]
fn upstream_tests() {
    let expect = |input, reference| {
        expect_with_flags(input, reference, DemangleFlags::LessWhitespace);
    };
    expect("?x@@3HA", "int x");
    expect("?x@@3PEAHEA", "int*x");
    expect("?x@@3PEAPEAHEA", "int**x");
    expect("?x@@3PEAY02HEA", "int(*x)[3]");
    expect("?x@@3PEAY124HEA", "int(*x)[3][5]");
    expect("?x@@3PEAY02$$CBHEA", "int const(*x)[3]");
    expect("?x@@3PEAEEA", "unsigned char*x");
    expect("?x@@3PEAY1NKM@5HEA", "int(*x)[3500][6]");
    expect("?x@@YAXMH@Z", "void __cdecl x(float,int)");
    expect("?x@@YAXMH@Z", "void __cdecl x(float,int)");
    expect("?x@@3P6AHMNH@ZEA", "int __cdecl (*x)(float,double,int)");
    expect("?x@@3P6AHP6AHM@ZN@ZEA", "int __cdecl (*x)(int __cdecl (*)(float),double)");
    expect(
        "?x@@3P6AHP6AHM@Z0@ZEA",
        "int __cdecl (*x)(int __cdecl (*)(float),int __cdecl (*)(float))",
    );

    expect("?x@ns@@3HA", "int ns::x");

    // Microsoft's undname returns "int const * const x" for this symbol.
    // I believe it's their bug.
    expect("?x@@3PEBHEB", "int const*x");

    expect("?x@@3QEAHEB", "int*const x");
    expect("?x@@3QEBHEB", "int const*const x");

    expect("?x@@3AEBHEB", "int const&x");

    expect("?x@@3PEAUty@@EA", "struct ty*x");
    expect("?x@@3PEATty@@EA", "union ty*x");
    expect("?x@@3PEAUty@@EA", "struct ty*x");
    expect("?x@@3PEAW4ty@@EA", "enum ty*x");
    expect("?x@@3PEAVty@@EA", "class ty*x");

    expect("?x@@3PEAV?$tmpl@H@@EA", "class tmpl<int>*x");
    expect("?x@@3PEAU?$tmpl@H@@EA", "struct tmpl<int>*x");
    expect("?x@@3PEAT?$tmpl@H@@EA", "union tmpl<int>*x");
    expect("?instance@@3Vklass@@A", "class klass instance");
    expect(
        "?instance$initializer$@@3P6AXXZEA",
        "void __cdecl (*instance$initializer$)(void)",
    );
    expect("??0klass@@QEAA@XZ", "public: __cdecl klass::klass(void)");
    expect("??1klass@@QEAA@XZ", "public: __cdecl klass::~klass(void)");
    expect(
        "?x@@YAHPEAVklass@@AEAV1@@Z",
        "int __cdecl x(class klass*,class klass&)",
    );
    expect(
        "?x@ns@@3PEAV?$klass@HH@1@EA",
        "class ns::klass<int,int>*ns::x",
    );
    expect(
        "?fn@?$klass@H@ns@@QEBAIXZ",
        "public: unsigned int __cdecl ns::klass<int>::fn(void)const",
    );

    expect(
        "??4klass@@QEAAAEBV0@AEBV0@@Z",
        "public: class klass const& __cdecl klass::operator=(class klass const&)",
    );
    expect("??7klass@@QEAA_NXZ",
           "public: bool __cdecl klass::operator!(void)");
    expect(
        "??8klass@@QEAA_NAEBV0@@Z",
        "public: bool __cdecl klass::operator==(class klass const&)",
    );
    expect(
        "??9klass@@QEAA_NAEBV0@@Z",
        "public: bool __cdecl klass::operator!=(class klass const&)",
    );
    expect("??Aklass@@QEAAH_K@Z",
           "public: int __cdecl klass::operator[](uint64_t)");
    expect("??Cklass@@QEAAHXZ",
           "public: int __cdecl klass::operator->(void)");
    expect("??Dklass@@QEAAHXZ",
           "public: int __cdecl klass::operator*(void)");
    expect("??Eklass@@QEAAHXZ",
           "public: int __cdecl klass::operator++(void)");
    expect("??Eklass@@QEAAHH@Z",
           "public: int __cdecl klass::operator++(int)");
    expect("??Fklass@@QEAAHXZ",
           "public: int __cdecl klass::operator--(void)");
    expect("??Fklass@@QEAAHH@Z",
           "public: int __cdecl klass::operator--(int)");
    expect("??Hklass@@QEAAHH@Z",
           "public: int __cdecl klass::operator+(int)");
    expect("??Gklass@@QEAAHH@Z",
           "public: int __cdecl klass::operator-(int)");
    expect("??Iklass@@QEAAHH@Z",
           "public: int __cdecl klass::operator&(int)");
    expect("??Jklass@@QEAAHH@Z",
           "public: int __cdecl klass::operator->*(int)");
    expect("??Kklass@@QEAAHH@Z",
           "public: int __cdecl klass::operator/(int)");
    expect("??Mklass@@QEAAHH@Z",
           "public: int __cdecl klass::operator<(int)");
    expect("??Nklass@@QEAAHH@Z",
           "public: int __cdecl klass::operator<=(int)");
    expect("??Oklass@@QEAAHH@Z",
           "public: int __cdecl klass::operator>(int)");
    expect("??Pklass@@QEAAHH@Z",
           "public: int __cdecl klass::operator>=(int)");
    expect("??Qklass@@QEAAHH@Z",
           "public: int __cdecl klass::operator,(int)");
    expect("??Rklass@@QEAAHH@Z",
           "public: int __cdecl klass::operator()(int)");
    expect("??Sklass@@QEAAHXZ",
           "public: int __cdecl klass::operator~(void)");
    expect("??Tklass@@QEAAHH@Z",
           "public: int __cdecl klass::operator^(int)");
    expect("??Uklass@@QEAAHH@Z",
           "public: int __cdecl klass::operator|(int)");
    expect("??Vklass@@QEAAHH@Z",
           "public: int __cdecl klass::operator&&(int)");
    expect("??Wklass@@QEAAHH@Z",
           "public: int __cdecl klass::operator||(int)");
    expect("??Xklass@@QEAAHH@Z",
           "public: int __cdecl klass::operator*=(int)");
    expect("??Yklass@@QEAAHH@Z",
           "public: int __cdecl klass::operator+=(int)");
    expect("??Zklass@@QEAAHH@Z",
           "public: int __cdecl klass::operator-=(int)");
    expect("??_0klass@@QEAAHH@Z",
           "public: int __cdecl klass::operator/=(int)");
    expect("??_1klass@@QEAAHH@Z",
           "public: int __cdecl klass::operator%=(int)");
    expect("??_2klass@@QEAAHH@Z",
           "public: int __cdecl klass::operator>>=(int)");
    expect("??_3klass@@QEAAHH@Z",
           "public: int __cdecl klass::operator<<=(int)");
    expect("??_6klass@@QEAAHH@Z",
           "public: int __cdecl klass::operator^=(int)");
    expect(
        "??6@YAAEBVklass@@AEBV0@H@Z",
        "class klass const& __cdecl operator<<(class klass const&,int)",
    );
    expect(
        "??5@YAAEBVklass@@AEBV0@_K@Z",
        "class klass const& __cdecl operator>>(class klass const&,uint64_t)",
    );
    expect(
        "??2@YAPEAX_KAEAVklass@@@Z",
        "void* __cdecl operator new(uint64_t,class klass&)",
    );
    expect(
        "??_U@YAPEAX_KAEAVklass@@@Z",
        "void* __cdecl operator new[](uint64_t,class klass&)",
    );
    expect(
        "??3@YAXPEAXAEAVklass@@@Z",
        "void __cdecl operator delete(void*,class klass&)",
    );
    expect(
        "??_V@YAXPEAXAEAVklass@@@Z",
        "void __cdecl operator delete[](void*,class klass&)",
    );
}

#[test]
fn demangle_is_deterministic() {
    let inputs = [
        "?x@@3HA",
        "??0klass@@QEAA@XZ",
        "??$load@M@UnsharedOps@js@@SAMV?$SharedMem@PAM@@@Z",
        "?cached@?1??GetLong@BinaryPath@mozilla@@SA?AW4nsresult@@QA_W@Z@4_NA",
    ];
    for input in inputs {
        for flags in [DemangleFlags::LessWhitespace, DemangleFlags::LotsOfWhitespace] {
            let first = demangle(input, flags);
            let second = demangle(input, flags);
            assert_eq!(first, second);
        }
    }
}

#[test]
fn serialize_same_mode_idempotent() {
    let parsed = parse("?x@@3P6AHP6AHM@ZN@ZEA").unwrap();
    for flags in [DemangleFlags::LessWhitespace, DemangleFlags::LotsOfWhitespace] {
        let first = serialize(&parsed, flags).unwrap();
        let second = serialize(&parsed, flags).unwrap();
        assert_eq!(first.as_bytes(), second.as_bytes());
    }
}

#[test]
fn not_mangled_input_is_rejected() {
    let r = demangle("x@@3HA", DemangleFlags::LessWhitespace);
    assert_eq!(r.unwrap_err().kind, ErrorKind::NotMangled);
    let r = demangle("", DemangleFlags::LessWhitespace);
    assert_eq!(r.unwrap_err().kind, ErrorKind::NotMangled);
}

#[test]
fn malformed_inputs_report_their_reason() {
    let cases = [
        ("?x@@Y", ErrorKind::UnexpectedEnd),
        ("?$TSS1@x@@4HB", ErrorKind::ExpectedLiteral),
        ("?$TSSx", ErrorKind::MissingDigit),
        ("?x@@3PEAYqHEA", ErrorKind::BadNumber),
        ("?abc", ErrorKind::MissingTerminator),
        ("?f@@YAH0@Z", ErrorKind::BackrefOutOfRange),
        ("??c@@QEAA@XZ", ErrorKind::UnknownOperator),
        ("?x@@zXX", ErrorKind::UnknownFuncClass),
        ("?x@@YZ", ErrorKind::UnknownCallingConv),
        ("?x@@YA?Z", ErrorKind::UnknownStorageClass),
        ("?x@@3&", ErrorKind::UnknownType),
        ("?x@@3PEAY@HEA", ErrorKind::InvalidDimension),
        ("??0@@QEAA@XZ", ErrorKind::MissingEnclosingName),
        ("?$TSS1@?A@@4HA", ErrorKind::MisplacedAnonymousNamespace),
    ];
    for (input, kind) in cases {
        let r = demangle(input, DemangleFlags::LessWhitespace);
        assert_eq!(r.unwrap_err().kind, kind, "input {:?}", input);
    }
}

#[test]
fn crafted_tree_with_invalid_utf8_is_rejected() {
    let tree = ParseResult {
        symbol: Symbol {
            name: Name::NonTemplate(vec![0xff, 0xfe]),
            scope: NameSequence { names: vec![] },
        },
        symbol_type: Type::NoType,
    };
    let r = serialize(&tree, DemangleFlags::LessWhitespace);
    assert_eq!(r.unwrap_err().kind, ErrorKind::InvalidUtf8);
}

#[test]
fn generous_mode_separates_name_after_star() {
    // The one separator rule applies before names too: in the generous
    // mode, a name after `*` gets a space.
    expect_with_flags("?x@@3PEAHEA", "int * x", DemangleFlags::LotsOfWhitespace);
}

#[test]
fn array_qualifier_sits_on_the_innermost_element() {
    // The `$$CB` marker qualifies the element type once, not each dimension.
    expect_with_flags(
        "?x@@3PEAY1NKM@5$$CBHEA",
        "int const(*x)[3500][6]",
        DemangleFlags::LessWhitespace,
    );
}

#[test]
fn negative_constant_is_spelled_with_minus() {
    let tree = ParseResult {
        symbol: Symbol {
            name: Name::NonTemplate(b"k".to_vec()),
            scope: NameSequence { names: vec![] },
        },
        symbol_type: Type::Constant(-5),
    };
    let r = serialize(&tree, DemangleFlags::LessWhitespace).unwrap();
    assert_eq!(r, "-5k");
}

#[test]
fn template_backrefs_stay_local() {
    // The `V01` backreferences inside the argument list resolve against the
    // outer tables, while names memorized inside `?$Klass@...@` do not leak
    // out of the template scope.
    expect_with_flags(
        "??0?$Klass@_N@std@@QEAA@AEBV01@@Z",
        "public: __cdecl std::Klass<bool>::Klass<bool>(class std::Klass<bool> const &)",
        DemangleFlags::LotsOfWhitespace,
    );
}
