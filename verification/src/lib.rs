use vstd::prelude::*;

pub mod ast;
pub mod laws;
pub mod parser;
pub mod serializer;
pub mod tree;

pub use ast::CallingConv;
pub use ast::DemangleFlags;
pub use ast::Error;
pub use ast::ErrorKind;
pub use ast::FuncClass;
pub use ast::Name;
pub use ast::NameSequence;
pub use ast::Op;
pub use ast::ParseResult;
pub use ast::Params;
pub use ast::StorageClass;
pub use ast::Symbol;
pub use ast::Type;

use ast::ParseResultV;
use ast::Result;
use ast::names_view;
use ast::types_view;
use parser::PSt;
use parser::ParserState;
use parser::sp_parse;
use serializer::Serializer;
use serializer::sp_serialize;
use vstd::string::StrSliceExecFns;
use vstd::string::StringSliceAdditionalSpecFns;

verus! {

/// The tree that parsing yields on these input bytes, if they are accepted:
/// the whole grammar, starting from an empty backreference state.
pub open spec fn spec_parse_bytes(s: Seq<u8>) -> Option<ParseResultV> {
    match sp_parse(s, PSt { pos: 0, names: Seq::empty(), types: Seq::empty() }) {
        Some((v, st)) => Some(v),
        None => None,
    }
}

/// The demangled output bytes for these input bytes under `f`, when both
/// parsing and serialization accept.
pub open spec fn spec_demangle(s: Seq<u8>, f: DemangleFlags) -> Option<Seq<u8>> {
    match spec_parse_bytes(s) {
        None => None,
        Some(pr) => match sp_serialize(pr, f) {
            Ok(b) => Some(b),
            Err(k) => None,
        },
    }
}

/// Relies on `String::from_utf8`: it returns `Ok` exactly when the bytes
/// are valid UTF-8, and the returned string holds exactly those bytes.
#[verifier::external_body]
fn bytes_to_string(v: Vec<u8>) -> (r: Option<String>)
    ensures
        match r {
            Some(s) => vstd::utf8::valid_utf8(v@) && vstd::utf8::encode_utf8(s@) == v@,
            None => !vstd::utf8::valid_utf8(v@),
        },
{
    String::from_utf8(v).ok()
}

/// Parses a mangled symbol into its tree. The input is rejected with a
/// `NotMangled` error exactly when it does not start with `?`; all other
/// malformed inputs fail with their own error kinds, never by panicking.
pub fn parse(input: &str) -> (r: Result<ParseResult>)
    ensures
        match spec_parse_bytes(input.spec_bytes()) {
            Some(v) => r matches Ok(x) && x@ == v,
            None => r is Err,
        },
        (input.spec_bytes().len() == 0 || input.spec_bytes()[0] != 63) ==> (r matches Err(e)
            && e.kind == ErrorKind::NotMangled),
        r is Ok ==> input.spec_bytes().len() > 0 && input.spec_bytes()[0] == 63,
{
    let bytes = input.as_bytes_vec();
    let mut state = ParserState {
        input: bytes,
        pos: 0,
        memorized_names: Vec::new(),
        memorized_types: Vec::new(),
    };
    proof {
        assert(names_view(state.memorized_names@) =~= Seq::<ast::NameV>::empty());
        assert(types_view(state.memorized_types@) =~= Seq::<ast::TypeV>::empty());
        assert(state.wf());
    }
    state.parse()
}

/// Renders a parsed tree as C++ declarator text under the chosen spacing
/// mode. The output bytes are exactly `sp_serialize` of the tree's view:
/// a function of the tree and the mode alone.
pub fn serialize(input: &ParseResult, flags: DemangleFlags) -> (r: Result<String>)
    ensures
        match sp_serialize(input@, flags) {
            Ok(bytes) => {
                if vstd::utf8::valid_utf8(bytes) {
                    r matches Ok(s) && vstd::utf8::encode_utf8(s@) == bytes
                } else {
                    r matches Err(e) && e == (Error { kind: ErrorKind::InvalidUtf8, pos: 0 })
                }
            },
            Err(k) => r matches Err(e) && e == (Error { kind: k, pos: 0 }),
        },
{
    let mut serializer = Serializer { flags, w: Vec::new() };
    match serializer.serialize_into(input) {
        Ok(()) => {},
        Err(e) => {
            return Err(e);
        },
    }
    match bytes_to_string(serializer.w) {
        Some(s) => Ok(s),
        None => Err(Error::new(ErrorKind::InvalidUtf8, 0)),
    }
}

/// Demangles a mangled symbol in one step: parse, then serialize. Inputs
/// that do not start with `?` are rejected as `NotMangled` with no output.
pub fn demangle(input: &str, flags: DemangleFlags) -> (r: Result<String>)
    ensures
        match spec_parse_bytes(input.spec_bytes()) {
            None => r is Err,
            Some(pr) => match sp_serialize(pr, flags) {
                Err(k) => r matches Err(e) && e == (Error { kind: k, pos: 0 }),
                Ok(bytes) => {
                    if vstd::utf8::valid_utf8(bytes) {
                        r matches Ok(out) && vstd::utf8::encode_utf8(out@) == bytes
                    } else {
                        r matches Err(e) && e == (Error { kind: ErrorKind::InvalidUtf8, pos: 0 })
                    }
                },
            },
        },
        (input.spec_bytes().len() == 0 || input.spec_bytes()[0] != 63) ==> (r matches Err(e)
            && e.kind == ErrorKind::NotMangled),
{
    let parsed = match parse(input) {
        Ok(p) => p,
        Err(e) => {
            return Err(e);
        },
    };
    serialize(&parsed, flags)
}

} // verus!
