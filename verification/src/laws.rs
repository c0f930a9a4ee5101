use vstd::prelude::*;

use crate::ast::DemangleFlags;
use crate::ast::ErrorKind;
use crate::ast::NameV;
use crate::ast::ParseResultV;
use crate::ast::names_view;
use crate::ast::types_view;
use crate::parser::PSt;
use crate::parser::ParserState;
use crate::parser::distinct_seq;
use crate::parser::sp_read_template_name;
use crate::parser::steps;
use crate::serializer::sp_serialize;
use crate::spec_demangle;

verus! {

/// Demangling is deterministic: `demangle` ensures that the output bytes
/// are exactly `spec_demangle` of the input bytes and the mode, a function
/// of those two alone, so identical input and mode always produce
/// identical output.
pub proof fn lemma_demangle_deterministic(
    s: Seq<u8>,
    f: DemangleFlags,
    b1: Seq<u8>,
    b2: Seq<u8>,
)
    requires
        spec_demangle(s, f) == Some(b1),
        spec_demangle(s, f) == Some(b2),
    ensures
        b1 == b2,
{
}

/// Backreference bound: `steps` is what every parsing function ensures of
/// its state change, so after any step from a well-formed state both
/// memorization tables hold at most ten entries, no two of which are
/// structurally equal.
pub proof fn lemma_backref_tables_bounded(pre: ParserState, post: ParserState)
    requires
        steps(pre, post),
    ensures
        post.memorized_names@.len() <= 10,
        post.memorized_types@.len() <= 10,
        distinct_seq(names_view(post.memorized_names@)),
        distinct_seq(types_view(post.memorized_types@)),
{
}

/// Template isolation: a template name is read against fresh empty tables,
/// so its value does not depend on what the caller has memorized, and the
/// caller's tables come back exactly as they were. A backreference inside
/// a template argument list therefore never resolves to an entry memorized
/// outside the template, and entries memorized inside never escape it.
pub proof fn lemma_template_isolation(s: Seq<u8>, st1: PSt, st2: PSt)
    requires
        0 <= st1.pos <= s.len(),
        st1.pos == st2.pos,
    ensures
        match (sp_read_template_name(s, st1), sp_read_template_name(s, st2)) {
            (Some((n1, r1)), Some((n2, r2))) => n1 == n2 && r1.pos == r2.pos && r1.names
                == st1.names && r1.types == st1.types && r2.names == st2.names && r2.types
                == st2.types,
            (None, None) => true,
            _ => false,
        },
{
}

/// Whitespace-mode idempotence: the serialized bytes are a function of the
/// tree and the mode alone, so rendering the same tree twice under the same
/// mode yields byte-identical output. `serialize` ensures that each
/// successful call returns exactly the bytes of `sp_serialize`.
pub proof fn lemma_serialize_idempotent(
    pr: ParseResultV,
    f: DemangleFlags,
    b1: Seq<u8>,
    b2: Seq<u8>,
)
    requires
        sp_serialize(pr, f) == Ok::<Seq<u8>, ErrorKind>(b1),
        sp_serialize(pr, f) == Ok::<Seq<u8>, ErrorKind>(b2),
    ensures
        b1 == b2,
{
}

} // verus!
