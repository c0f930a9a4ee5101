use vstd::prelude::*;

use crate::ast::CallingConv;
use crate::ast::Error;
use crate::ast::ErrorKind;
use crate::ast::FuncClass;
use crate::ast::Name;
use crate::ast::NameSequence;
use crate::ast::Op;
use crate::ast::ParseResult;
use crate::ast::Params;
use crate::ast::Result;
use crate::ast::StorageClass;
use crate::ast::Symbol;
use crate::ast::Type;
use crate::ast::NameV;
use crate::ast::ParseResultV;
use crate::ast::SymbolV;
use crate::ast::TypeV;
use crate::ast::names_view;
use crate::ast::nview;
use crate::ast::prview;
use crate::ast::symview;
use crate::ast::tview;
use crate::ast::types_view;
use crate::tree::clone_name;
use crate::tree::clone_type;
use crate::tree::eq_name;
use crate::tree::eq_type;

verus! {

/// No sequence position holds two structurally equal entries.
pub open spec fn distinct_seq<T>(s: Seq<T>) -> bool {
    forall|i: int, j: int| 0 <= i < j < s.len() ==> s[i] != s[j]
}

proof fn lemma_distinct_push<T>(s: Seq<T>, x: T)
    requires
        distinct_seq(s),
        !s.contains(x),
    ensures
        distinct_seq(s.push(x)),
{
    assert forall|i: int, j: int| 0 <= i < j < s.push(x).len() implies s.push(x)[i] != s.push(
        x,
    )[j] by {
        if j == s.len() {
            assert(s.push(x)[j] == x);
            assert(s.push(x)[i] == s[i]);
            if s[i] == x {
                assert(s.contains(x));
            }
        }
    }
}

/// True of an ASCII decimal digit.
pub open spec fn is_digit_b(b: u8) -> bool {
    48 <= b && b <= 57
}

/// True of the letters `A` through `P`, the hex digits of the number encoding.
pub open spec fn is_hex_letter(b: u8) -> bool {
    65 <= b && b <= 80
}

/// The index of the `@` that terminates a run of `A`-`P` hex letters starting
/// at `i`, or -1 when a foreign byte or the end of input comes first.
pub open spec fn hex_end(s: Seq<u8>, i: int) -> int
    decreases s.len() - i,
    when 0 <= i <= s.len()
{
    if i >= s.len() {
        -1
    } else if s[i] == 64 {
        i
    } else if is_hex_letter(s[i]) {
        hex_end(s, i + 1)
    } else {
        -1
    }
}

/// Value of a most-significant-first run of `A`-`P` hex letters, wrapping
/// past 32 bits.
pub open spec fn hex_seq_val(s: Seq<u8>) -> u32
    decreases s.len(),
{
    if s.len() == 0 {
        0u32
    } else {
        (((hex_seq_val(s.drop_last()) * 16) + (s.last() - 65)) % 0x1_0000_0000) as u32
    }
}

/// The signed 32-bit reading of an unsigned 32-bit value.
pub open spec fn to_i32_val(u: u32) -> int {
    if u >= 0x8000_0000 {
        u - 0x1_0000_0000
    } else {
        u as int
    }
}

/// 32-bit wrap-around negation.
pub open spec fn neg_wrap(v: int) -> int {
    if v == -0x8000_0000 {
        v
    } else {
        -v
    }
}

/// The meaning of the custom number encoding at position `pos` of `s`:
/// an optional `?` negates; a single digit `d` denotes `d + 1`; otherwise a
/// run of hex letters `A`-`P` closed by `@` denotes their base-16 value.
/// Yields the value and the position after the encoding, or `None` when the
/// bytes fit neither form.
pub open spec fn spec_number(s: Seq<u8>, pos: int) -> Option<(int, int)> {
    let neg = pos < s.len() && s[pos] == 63;
    let st = if neg {
        pos + 1
    } else {
        pos
    };
    if st < s.len() && is_digit_b(s[st]) {
        let v = (s[st] - 48) + 1;
        Some(
            (
                if neg {
                    -v
                } else {
                    v as int
                },
                st + 1,
            ),
        )
    } else {
        let k = hex_end(s, st);
        if k >= 0 {
            let v = to_i32_val(hex_seq_val(s.subrange(st, k)));
            Some(
                (
                    if neg {
                        neg_wrap(v)
                    } else {
                        v
                    },
                    k + 1,
                ),
            )
        } else {
            None
        }
    }
}

/// The index of the first `@` at or after `i`, or -1 when none remains.
pub open spec fn find_at(s: Seq<u8>, i: int) -> int
    decreases s.len() - i,
    when 0 <= i <= s.len()
{
    if i >= s.len() {
        -1
    } else if s[i] == 64 {
        i
    } else {
        find_at(s, i + 1)
    }
}

/// The parser: a cursor over the mangled bytes plus the two bounded
/// backreference tables of the current scope.
pub struct ParserState {
    /// The whole input; never changed by parsing.
    pub input: Vec<u8>,
    /// How many input bytes have been consumed.
    pub pos: usize,
    /// The first ten distinct names seen in this backreference scope.
    pub memorized_names: Vec<Name>,
    /// The first ten distinct types seen in this backreference scope.
    pub memorized_types: Vec<Type>,
}

impl ParserState {
    /// Number of unread input bytes.
    pub open spec fn rem(self) -> int {
        self.input@.len() - self.pos
    }

    /// The unread byte `k` places past the cursor.
    pub open spec fn byte(self, k: int) -> u8 {
        self.input@[self.pos + k]
    }

    /// Both backreference tables hold at most ten entries, pairwise
    /// structurally distinct.
    pub open spec fn tables_wf(self) -> bool {
        &&& self.memorized_names@.len() <= 10
        &&& self.memorized_types@.len() <= 10
        &&& distinct_seq(names_view(self.memorized_names@))
        &&& distinct_seq(types_view(self.memorized_types@))
    }

    /// The cursor is in bounds and the tables are well formed.
    pub open spec fn wf(self) -> bool {
        self.pos <= self.input@.len() && self.tables_wf()
    }
}

/// What every parsing step guarantees: the input is untouched, the cursor
/// only moves forward and stays in bounds, and the tables stay well formed.
pub open spec fn steps(pre: ParserState, post: ParserState) -> bool {
    &&& post.input@ == pre.input@
    &&& pre.pos <= post.pos
    &&& post.wf()
}

/// Both backreference tables are unchanged.
pub open spec fn tables_same(pre: ParserState, post: ParserState) -> bool {
    post.memorized_names == pre.memorized_names && post.memorized_types == pre.memorized_types
}

impl ParserState {
    /// The next byte, if any, without consuming it.
    pub fn peek(&self) -> (r: Option<u8>)
        requires
            self.wf(),
        ensures
            r == if self.rem() > 0 {
                Some(self.byte(0))
            } else {
                None::<u8>
            },
    {
        if self.pos < self.input.len() {
            Some(self.input[self.pos])
        } else {
            None
        }
    }

    /// Consumes and returns the next byte; fails with `UnexpectedEnd` when
    /// the input is exhausted.
    pub fn get(&mut self) -> (r: Result<u8>)
        requires
            old(self).wf(),
        ensures
            steps(*old(self), *final(self)),
            tables_same(*old(self), *final(self)),
            old(self).rem() > 0 ==> r == Ok::<u8, Error>(old(self).byte(0)) && final(self).pos
                == old(self).pos + 1,
            old(self).rem() == 0 ==> r == Err::<u8, Error>(
                Error { kind: ErrorKind::UnexpectedEnd, pos: old(self).pos },
            ) && final(self).pos == old(self).pos,
    {
        if self.pos < self.input.len() {
            let b = self.input[self.pos];
            self.pos = self.pos + 1;
            Ok(b)
        } else {
            Err(Error::new(ErrorKind::UnexpectedEnd, self.pos))
        }
    }

    /// Consumes `c` if it is the next byte.
    pub fn consume_b(&mut self, c: u8) -> (r: bool)
        requires
            old(self).wf(),
        ensures
            steps(*old(self), *final(self)),
            tables_same(*old(self), *final(self)),
            r == (old(self).rem() > 0 && old(self).byte(0) == c),
            r ==> final(self).pos == old(self).pos + 1,
            !r ==> final(self).pos == old(self).pos,
    {
        if self.pos < self.input.len() && self.input[self.pos] == c {
            self.pos = self.pos + 1;
            true
        } else {
            false
        }
    }

    /// Consumes the two-byte literal `c0 c1` if the input starts with it.
    pub fn consume2(&mut self, c0: u8, c1: u8) -> (r: bool)
        requires
            old(self).wf(),
        ensures
            steps(*old(self), *final(self)),
            tables_same(*old(self), *final(self)),
            r == (old(self).rem() >= 2 && old(self).byte(0) == c0 && old(self).byte(1) == c1),
            r ==> final(self).pos == old(self).pos + 2,
            !r ==> final(self).pos == old(self).pos,
    {
        if self.input.len() - self.pos >= 2 && self.input[self.pos] == c0 && self.input[self.pos
            + 1] == c1 {
            self.pos = self.pos + 2;
            true
        } else {
            false
        }
    }

    /// Consumes the three-byte literal `c0 c1 c2` if the input starts with it.
    pub fn consume3(&mut self, c0: u8, c1: u8, c2: u8) -> (r: bool)
        requires
            old(self).wf(),
        ensures
            steps(*old(self), *final(self)),
            tables_same(*old(self), *final(self)),
            r == (old(self).rem() >= 3 && old(self).byte(0) == c0 && old(self).byte(1) == c1 && old(self).byte(2) == c2),
            r ==> final(self).pos == old(self).pos + 3,
            !r ==> final(self).pos == old(self).pos,
    {
        if self.input.len() - self.pos >= 3 && self.input[self.pos] == c0 && self.input[self.pos
            + 1] == c1 && self.input[self.pos + 2] == c2 {
            self.pos = self.pos + 3;
            true
        } else {
            false
        }
    }

    /// Like `consume_b`, but failure to match is an `ExpectedLiteral` error.
    pub fn expect_b(&mut self, c: u8) -> (r: Result<()>)
        requires
            old(self).wf(),
        ensures
            steps(*old(self), *final(self)),
            tables_same(*old(self), *final(self)),
            (old(self).rem() > 0 && old(self).byte(0) == c) ==> r == Ok::<(), Error>(()) && final(self).pos == old(self).pos + 1,
            !(old(self).rem() > 0 && old(self).byte(0) == c) ==> (r matches Err(e) && e.kind
                == ErrorKind::ExpectedLiteral && final(self).pos == old(self).pos),
    {
        if self.consume_b(c) {
            Ok(())
        } else {
            Err(Error::new(ErrorKind::ExpectedLiteral, self.pos))
        }
    }

    /// Like `consume3`, but failure to match is an `ExpectedLiteral` error.
    pub fn expect3(&mut self, c0: u8, c1: u8, c2: u8) -> (r: Result<()>)
        requires
            old(self).wf(),
        ensures
            steps(*old(self), *final(self)),
            tables_same(*old(self), *final(self)),
            r is Ok <==> (old(self).rem() >= 3 && old(self).byte(0) == c0 && old(self).byte(1)
                == c1 && old(self).byte(2) == c2),
            r is Ok ==> final(self).pos == old(self).pos + 3,
            r matches Err(e) ==> e.kind == ErrorKind::ExpectedLiteral && final(self).pos == old(self).pos,
    {
        if self.consume3(c0, c1, c2) {
            Ok(())
        } else {
            Err(Error::new(ErrorKind::ExpectedLiteral, self.pos))
        }
    }

    /// Consumes one ASCII decimal digit, returning its value.
    pub fn consume_digit(&mut self) -> (r: Option<u8>)
        requires
            old(self).wf(),
        ensures
            steps(*old(self), *final(self)),
            tables_same(*old(self), *final(self)),
            (old(self).rem() > 0 && is_digit_b(old(self).byte(0))) ==> r == Some(
                (old(self).byte(0) - 48) as u8,
            ) && final(self).pos == old(self).pos + 1,
            !(old(self).rem() > 0 && is_digit_b(old(self).byte(0))) ==> r == None::<u8> && final(self).pos == old(self).pos,
    {
        if self.pos < self.input.len() {
            let b = self.input[self.pos];
            if 48 <= b && b <= 57 {
                self.pos = self.pos + 1;
                return Some(b - 48);
            }
        }
        None
    }

    /// Consumes one ASCII hex digit (either case) if present.
    pub fn consume_hex_digit(&mut self) -> (r: bool)
        requires
            old(self).wf(),
        ensures
            steps(*old(self), *final(self)),
            tables_same(*old(self), *final(self)),
            r == (old(self).rem() > 0 && (is_digit_b(old(self).byte(0)) || (65 <= old(self).byte(0)
                && old(self).byte(0) <= 70) || (97 <= old(self).byte(0) && old(self).byte(0)
                <= 102))),
            r ==> final(self).pos == old(self).pos + 1,
            !r ==> final(self).pos == old(self).pos,
    {
        if self.pos < self.input.len() {
            let b = self.input[self.pos];
            if (48 <= b && b <= 57) || (65 <= b && b <= 70) || (97 <= b && b <= 102) {
                self.pos = self.pos + 1;
                return true;
            }
        }
        false
    }

    /// Decodes the custom number encoding described by `spec_number`.
    pub fn read_number(&mut self) -> (r: Result<i32>)
        requires
            old(self).wf(),
        ensures
            steps(*old(self), *final(self)),
            tables_same(*old(self), *final(self)),
            match spec_number(old(self).input@, old(self).pos as int) {
                Some((v, p)) => r matches Ok(x) && x as int == v && final(self).pos == p,
                None => r matches Err(e) && e.kind == ErrorKind::BadNumber,
            },
            r is Ok ==> final(self).pos > old(self).pos,
    {
        let ghost s = self.input@;
        let ghost pos0 = self.pos as int;
        let neg = self.consume_b(63);  // 63
        let ghost st = self.pos as int;

        if let Some(d) = self.consume_digit() {
            let v: i32 = (d + 1) as i32;
            if neg {
                return Ok(-v);
            } else {
                return Ok(v);
            }
        }

        let mut i: usize = self.pos;
        let mut acc: u32 = 0;
        loop
            invariant
                old(self).wf(),
                s == self.input@,
                s == old(self).input@,
                pos0 == old(self).pos as int,
                st == self.pos as int,
                self.wf(),
                tables_same(*old(self), *self),
                neg == (pos0 < s.len() && s[pos0] == 63),
                st == if neg {
                    pos0 + 1
                } else {
                    pos0
                },
                !(st < s.len() && is_digit_b(s[st])),
                st <= i as int <= s.len(),
                hex_end(s, st) == hex_end(s, i as int),
                acc == hex_seq_val(s.subrange(st, i as int)),
            decreases s.len() - i,
        {
            if i >= self.input.len() {
                return Err(Error::new(ErrorKind::BadNumber, self.pos));
            }
            let b = self.input[i];
            if b == 64 {  // 64
                proof {
                    assert(hex_end(s, i as int) == i as int);
                }
                self.pos = i + 1;
                let signed: i32 = if acc >= 0x8000_0000 {
                    let wide: i64 = (acc as i64) - 0x1_0000_0000i64;
                    wide as i32
                } else {
                    acc as i32
                };
                proof {
                    assert(signed as int == to_i32_val(acc));
                }
                if neg {
                    if signed == i32::MIN {
                        return Ok(signed);
                    } else {
                        return Ok(-signed);
                    }
                } else {
                    return Ok(signed);
                }
            } else if 65 <= b && b <= 80 {  // 65..=80
                proof {
                    assert(s.subrange(st, i + 1).drop_last() =~= s.subrange(st, i as int));
                    assert(s.subrange(st, i + 1).last() == s[i as int]);
                }
                acc = ((((acc as u64) * 16 + ((b - 65) as u64)) % 0x1_0000_0000u64) as u32);
                i = i + 1;
            } else {
                proof {
                    assert(hex_end(s, i as int) == -1);
                }
                return Err(Error::new(ErrorKind::BadNumber, self.pos));
            }
        }
    }

    /// Reads the identifier bytes up to and including the next `@`,
    /// returning the bytes before it; `MissingTerminator` when no `@` remains.
    pub fn read_string(&mut self) -> (r: Result<Vec<u8>>)
        requires
            old(self).wf(),
        ensures
            steps(*old(self), *final(self)),
            tables_same(*old(self), *final(self)),
            ({
                let k = find_at(old(self).input@, old(self).pos as int);
                if k >= 0 {
                    r matches Ok(v) && v@ == old(self).input@.subrange(old(self).pos as int, k)
                        && final(self).pos == k + 1
                } else {
                    r matches Err(e) && e.kind == ErrorKind::MissingTerminator && final(self).pos
                        == old(self).pos
                }
            }),
            r is Ok ==> final(self).pos > old(self).pos,
    {
        let ghost s = self.input@;
        let ghost pos0 = self.pos as int;
        let mut out: Vec<u8> = Vec::new();
        let mut i: usize = self.pos;
        loop
            invariant
                old(self).wf(),
                s == self.input@,
                s == old(self).input@,
                pos0 == self.pos as int,
                pos0 == old(self).pos as int,
                self.wf(),
                tables_same(*old(self), *self),
                pos0 <= i as int <= s.len(),
                find_at(s, pos0) == find_at(s, i as int),
                out@ == s.subrange(pos0, i as int),
            decreases s.len() - i,
        {
            if i >= self.input.len() {
                return Err(Error::new(ErrorKind::MissingTerminator, self.pos));
            }
            let b = self.input[i];
            if b == 64 {
                proof {
                    assert(find_at(s, i as int) == i as int);
                }
                self.pos = i + 1;
                return Ok(out);
            }
            out.push(b);
            proof {
                assert(out@ =~= s.subrange(pos0, i + 1));
            }
            i = i + 1;
        }
    }

    /// Records a name in the backreference table if the table still has room
    /// and no structurally equal entry is present.
    pub fn memorize_name(&mut self, n: &Name)
        requires
            old(self).wf(),
        ensures
            steps(*old(self), *final(self)),
            final(self).pos == old(self).pos,
            final(self).memorized_types == old(self).memorized_types,
            ({
                let pre = names_view(old(self).memorized_names@);
                let post = names_view(final(self).memorized_names@);
                if pre.len() < 10 && !pre.contains(n@) {
                    post == pre.push(n@)
                } else {
                    post == pre
                }
            }),
            final(self).stv() == sp_memorize_name(old(self).stv(), n@),
    {
        let ghost pre = names_view(self.memorized_names@);
        if self.memorized_names.len() < 10 {
            let n_entries = self.memorized_names.len();
            let mut i: usize = 0;
            while i < n_entries
                invariant
                    old(self).wf(),
                    *self == *old(self),
                    pre == names_view(self.memorized_names@),
                    n_entries == self.memorized_names@.len(),
                    i <= n_entries,
                    forall|k: int| 0 <= k < i ==> pre[k] != n@,
                decreases n_entries - i,
            {
                if eq_name(&self.memorized_names[i], n) {
                    proof {
                        assert(pre[i as int] == n@);
                        assert(pre.contains(n@));
                    }
                    return ;
                }
                proof {
                    assert(pre[i as int] != n@);
                }
                i += 1;
            }
            proof {
                assert(!pre.contains(n@));
                lemma_distinct_push(pre, n@);
            }
            let copy = clone_name(n);
            self.memorized_names.push(copy);
            proof {
                assert(names_view(self.memorized_names@) =~= pre.push(n@));
            }
        } else {
            proof {
                assert(names_view(self.memorized_names@).len() >= 10);
            }
        }
    }

    /// Records a type in the backreference table if the table still has room
    /// and no structurally equal entry is present.
    pub fn memorize_type(&mut self, t: &Type)
        requires
            old(self).wf(),
        ensures
            steps(*old(self), *final(self)),
            final(self).pos == old(self).pos,
            final(self).memorized_names == old(self).memorized_names,
            ({
                let pre = types_view(old(self).memorized_types@);
                let post = types_view(final(self).memorized_types@);
                if pre.len() < 10 && !pre.contains(t@) {
                    post == pre.push(t@)
                } else {
                    post == pre
                }
            }),
            final(self).stv() == sp_memorize_type(old(self).stv(), t@),
    {
        let ghost pre = types_view(self.memorized_types@);
        if self.memorized_types.len() < 10 {
            let n_entries = self.memorized_types.len();
            let mut i: usize = 0;
            while i < n_entries
                invariant
                    old(self).wf(),
                    *self == *old(self),
                    pre == types_view(self.memorized_types@),
                    n_entries == self.memorized_types@.len(),
                    i <= n_entries,
                    forall|k: int| 0 <= k < i ==> pre[k] != t@,
                decreases n_entries - i,
            {
                if eq_type(&self.memorized_types[i], t) {
                    proof {
                        assert(pre[i as int] == t@);
                        assert(pre.contains(t@));
                    }
                    return ;
                }
                proof {
                    assert(pre[i as int] != t@);
                }
                i += 1;
            }
            proof {
                assert(!pre.contains(t@));
                lemma_distinct_push(pre, t@);
            }
            let copy = clone_type(t);
            self.memorized_types.push(copy);
            proof {
                assert(types_view(self.memorized_types@) =~= pre.push(t@));
            }
        } else {
            proof {
                assert(types_view(self.memorized_types@).len() >= 10);
            }
        }
    }
}

/// The storage class selected by a qualifier byte, if it is one.
pub open spec fn qualifier_of(b: u8) -> Option<StorageClass> {
    if b == 65 {
        Some(StorageClass::spec_empty())
    } else if b == 66 {
        Some(StorageClass::spec_cvf(true, false, false))
    } else if b == 67 {
        Some(StorageClass::spec_cvf(false, true, false))
    } else if b == 68 {
        Some(StorageClass::spec_cvf(true, true, false))
    } else {
        None
    }
}

/// The storage class selected by a variable storage byte, if it is one.
pub open spec fn storage_class_of(b: u8) -> Option<StorageClass> {
    if b == 65 {
        Some(StorageClass::spec_empty())
    } else if b == 66 {
        Some(StorageClass::spec_cvf(true, false, false))
    } else if b == 67 {
        Some(StorageClass::spec_cvf(false, true, false))
    } else if b == 68 {
        Some(StorageClass::spec_cvf(true, true, false))
    } else if b == 69 {
        Some(StorageClass::spec_cvf(false, false, true))
    } else if b == 70 {
        Some(StorageClass::spec_cvf(true, false, true))
    } else if b == 71 {
        Some(StorageClass::spec_cvf(false, true, true))
    } else if b == 72 {
        Some(StorageClass::spec_cvf(true, true, true))
    } else {
        None
    }
}

/// The calling convention encoded by a byte, if it is one.
pub open spec fn cc_of(b: u8) -> Option<CallingConv> {
    if b == 65 || b == 66 {
        Some(CallingConv::Cdecl)
    } else if b == 67 {
        Some(CallingConv::Pascal)
    } else if b == 69 {
        Some(CallingConv::Thiscall)
    } else if b == 71 {
        Some(CallingConv::Stdcall)
    } else if b == 73 {
        Some(CallingConv::Fastcall)
    } else {
        None
    }
}

/// Function-class bytes that carry a trailing thunk adjustment number.
pub open spec fn is_thunk_code(c: u8) -> bool {
    c == 71 || c == 72 || c == 79 || c == 80 || c == 87 || c == 88
}

/// The function class encoded by a byte, if it is one, in the flag order
/// public, protected, private, global, static, virtual, far, thunk.
pub open spec fn func_class_of(c: u8) -> Option<FuncClass> {
    if c == 65 {
        Some(FuncClass::spec_make(false, false, true, false, false, false, false, false))
    } else if c == 66 {
        Some(FuncClass::spec_make(false, false, true, false, false, false, true, false))
    } else if c == 67 || c == 68 {
        Some(FuncClass::spec_make(false, false, true, false, true, false, false, false))
    } else if c == 69 || c == 70 {
        Some(FuncClass::spec_make(false, false, true, false, false, true, false, false))
    } else if c == 71 {
        Some(FuncClass::spec_make(false, false, true, false, false, true, false, true))
    } else if c == 72 {
        Some(FuncClass::spec_make(false, false, true, false, false, true, true, true))
    } else if c == 73 {
        Some(FuncClass::spec_make(false, true, false, false, false, false, false, false))
    } else if c == 74 {
        Some(FuncClass::spec_make(false, true, false, false, false, false, true, false))
    } else if c == 75 {
        Some(FuncClass::spec_make(false, true, false, false, true, false, false, false))
    } else if c == 76 {
        Some(FuncClass::spec_make(false, true, false, false, true, false, true, false))
    } else if c == 77 {
        Some(FuncClass::spec_make(false, true, false, false, false, true, false, false))
    } else if c == 78 {
        Some(FuncClass::spec_make(false, true, false, false, false, true, true, false))
    } else if c == 79 {
        Some(FuncClass::spec_make(false, true, false, false, false, true, false, true))
    } else if c == 80 {
        Some(FuncClass::spec_make(false, true, false, false, false, true, true, true))
    } else if c == 81 {
        Some(FuncClass::spec_make(true, false, false, false, false, false, false, false))
    } else if c == 82 {
        Some(FuncClass::spec_make(true, false, false, false, false, false, true, false))
    } else if c == 83 {
        Some(FuncClass::spec_make(true, false, false, false, true, false, false, false))
    } else if c == 84 {
        Some(FuncClass::spec_make(true, false, false, false, true, false, true, false))
    } else if c == 85 {
        Some(FuncClass::spec_make(true, false, false, false, false, true, false, false))
    } else if c == 86 {
        Some(FuncClass::spec_make(true, false, false, false, false, true, true, false))
    } else if c == 87 {
        Some(FuncClass::spec_make(true, false, false, false, false, true, false, true))
    } else if c == 88 {
        Some(FuncClass::spec_make(true, false, false, false, false, true, true, true))
    } else if c == 89 {
        Some(FuncClass::spec_make(false, false, false, true, false, false, false, false))
    } else if c == 90 {
        Some(FuncClass::spec_make(false, false, false, true, false, false, true, false))
    } else {
        None
    }
}

/// Converts an unsigned 32-bit value to its signed reading.
pub fn u32_to_i32(u: u32) -> (r: i32)
    ensures
        r as int == to_i32_val(u),
{
    if u >= 0x8000_0000 {
        let wide: i64 = (u as i64) - 0x1_0000_0000i64;
        wide as i32
    } else {
        u as i32
    }
}

impl ParserState {
    /// Reads a `this`-pointer or table qualifier byte if one is present;
    /// absent or foreign bytes yield the empty qualifier without consuming.
    pub fn read_qualifier(&mut self) -> (r: StorageClass)
        requires
            old(self).wf(),
        ensures
            steps(*old(self), *final(self)),
            tables_same(*old(self), *final(self)),
            match (if old(self).rem() > 0 {
                qualifier_of(old(self).byte(0))
            } else {
                None
            }) {
                Some(sc) => r == sc && final(self).pos == old(self).pos + 1,
                None => r == StorageClass::spec_empty() && final(self).pos == old(self).pos,
            },
    {
        if self.pos < self.input.len() {
            let b = self.input[self.pos];
            if b == 65 {
                self.pos = self.pos + 1;
                return StorageClass::empty();
            } else if b == 66 {
                self.pos = self.pos + 1;
                return StorageClass::cvf(true, false, false);
            } else if b == 67 {
                self.pos = self.pos + 1;
                return StorageClass::cvf(false, true, false);
            } else if b == 68 {
                self.pos = self.pos + 1;
                return StorageClass::cvf(true, true, false);
            }
        }
        StorageClass::empty()
    }

    /// Reads a variable storage-class byte if one is present; absent or
    /// foreign bytes yield the empty qualifier without consuming.
    pub fn read_storage_class(&mut self) -> (r: StorageClass)
        requires
            old(self).wf(),
        ensures
            steps(*old(self), *final(self)),
            tables_same(*old(self), *final(self)),
            match (if old(self).rem() > 0 {
                storage_class_of(old(self).byte(0))
            } else {
                None
            }) {
                Some(sc) => r == sc && final(self).pos == old(self).pos + 1,
                None => r == StorageClass::spec_empty() && final(self).pos == old(self).pos,
            },
    {
        if self.pos < self.input.len() {
            let b = self.input[self.pos];
            if 65 <= b && b <= 72 {
                self.pos = self.pos + 1;
                let c = b == 66 || b == 68 || b == 70 || b == 72;
                let v = b == 67 || b == 68 || b == 71 || b == 72;
                let f = b >= 69;
                return StorageClass::cvf(c, v, f);
            }
        }
        StorageClass::empty()
    }

    /// Reads the optional `?`-prefixed storage class of a return type.
    pub fn read_storage_class_for_return(&mut self) -> (r: Result<StorageClass>)
        requires
            old(self).wf(),
        ensures
            steps(*old(self), *final(self)),
            tables_same(*old(self), *final(self)),
            !(old(self).rem() > 0 && old(self).byte(0) == 63) ==> r == Ok::<StorageClass, Error>(
                StorageClass::spec_empty(),
            ) && final(self).pos == old(self).pos,
            (old(self).rem() == 1 && old(self).byte(0) == 63) ==> r is Err,
            (old(self).rem() > 1 && old(self).byte(0) == 63) ==> match qualifier_of(
                old(self).byte(1),
            ) {
                Some(sc) => r == Ok::<StorageClass, Error>(sc) && final(self).pos == old(self).pos
                    + 2,
                None => (r matches Err(e) && e.kind == ErrorKind::UnknownStorageClass),
            },
    {
        if !self.consume_b(63) {
            return Ok(StorageClass::empty());
        }
        let c = self.get()?;
        if c == 65 {
            Ok(StorageClass::empty())
        } else if c == 66 {
            Ok(StorageClass::cvf(true, false, false))
        } else if c == 67 {
            Ok(StorageClass::cvf(false, true, false))
        } else if c == 68 {
            Ok(StorageClass::cvf(true, true, false))
        } else {
            Err(Error::new(ErrorKind::UnknownStorageClass, self.pos))
        }
    }

    /// Reads a calling-convention byte.
    pub fn read_calling_conv(&mut self) -> (r: Result<CallingConv>)
        requires
            old(self).wf(),
        ensures
            steps(*old(self), *final(self)),
            tables_same(*old(self), *final(self)),
            old(self).rem() == 0 ==> (r matches Err(e) && e.kind == ErrorKind::UnexpectedEnd),
            old(self).rem() > 0 ==> match cc_of(old(self).byte(0)) {
                Some(cc) => r == Ok::<CallingConv, Error>(cc) && final(self).pos == old(self).pos
                    + 1,
                None => (r matches Err(e) && e.kind == ErrorKind::UnknownCallingConv),
            },
            r is Ok ==> final(self).pos == old(self).pos + 1,
    {
        let c = self.get()?;
        if c == 65 || c == 66 {
            Ok(CallingConv::Cdecl)
        } else if c == 67 {
            Ok(CallingConv::Pascal)
        } else if c == 69 {
            Ok(CallingConv::Thiscall)
        } else if c == 71 {
            Ok(CallingConv::Stdcall)
        } else if c == 73 {
            Ok(CallingConv::Fastcall)
        } else {
            Err(Error::new(ErrorKind::UnknownCallingConv, self.pos))
        }
    }

    /// Decodes a member-function class byte; thunk classes also consume
    /// their numeric displacement, which is not retained.
    pub fn read_func_class(&mut self, c: u8) -> (r: Result<FuncClass>)
        requires
            old(self).wf(),
        ensures
            steps(*old(self), *final(self)),
            tables_same(*old(self), *final(self)),
            match func_class_of(c) {
                Some(fc) => (!is_thunk_code(c) ==> r == Ok::<FuncClass, Error>(fc) && final(self).pos == old(self).pos) && (r is Ok ==> r == Ok::<FuncClass, Error>(fc)),
                None => r matches Err(e) && e.kind == ErrorKind::UnknownFuncClass && final(self).pos == old(self).pos,
            },
            match sp_read_func_class(old(self).input@, old(self).stv(), c) {
                Some((fc, st2)) => r == Ok::<FuncClass, Error>(fc) && final(self).stv() == st2,
                None => r is Err,
            },
    {
        if c == 65 {
            Ok(FuncClass::make(false, false, true, false, false, false, false, false))
        } else if c == 66 {
            Ok(FuncClass::make(false, false, true, false, false, false, true, false))
        } else if c == 67 || c == 68 {
            Ok(FuncClass::make(false, false, true, false, true, false, false, false))
        } else if c == 69 || c == 70 {
            Ok(FuncClass::make(false, false, true, false, false, true, false, false))
        } else if c == 71 {
            let _adjustment = self.read_number()?;
            Ok(FuncClass::make(false, false, true, false, false, true, false, true))
        } else if c == 72 {
            let _adjustment = self.read_number()?;
            Ok(FuncClass::make(false, false, true, false, false, true, true, true))
        } else if c == 73 {
            Ok(FuncClass::make(false, true, false, false, false, false, false, false))
        } else if c == 74 {
            Ok(FuncClass::make(false, true, false, false, false, false, true, false))
        } else if c == 75 {
            Ok(FuncClass::make(false, true, false, false, true, false, false, false))
        } else if c == 76 {
            Ok(FuncClass::make(false, true, false, false, true, false, true, false))
        } else if c == 77 {
            Ok(FuncClass::make(false, true, false, false, false, true, false, false))
        } else if c == 78 {
            Ok(FuncClass::make(false, true, false, false, false, true, true, false))
        } else if c == 79 {
            let _adjustment = self.read_number()?;
            Ok(FuncClass::make(false, true, false, false, false, true, false, true))
        } else if c == 80 {
            let _adjustment = self.read_number()?;
            Ok(FuncClass::make(false, true, false, false, false, true, true, true))
        } else if c == 81 {
            Ok(FuncClass::make(true, false, false, false, false, false, false, false))
        } else if c == 82 {
            Ok(FuncClass::make(true, false, false, false, false, false, true, false))
        } else if c == 83 {
            Ok(FuncClass::make(true, false, false, false, true, false, false, false))
        } else if c == 84 {
            Ok(FuncClass::make(true, false, false, false, true, false, true, false))
        } else if c == 85 {
            Ok(FuncClass::make(true, false, false, false, false, true, false, false))
        } else if c == 86 {
            Ok(FuncClass::make(true, false, false, false, false, true, true, false))
        } else if c == 87 {
            let _adjustment = self.read_number()?;
            Ok(FuncClass::make(true, false, false, false, false, true, false, true))
        } else if c == 88 {
            let _adjustment = self.read_number()?;
            Ok(FuncClass::make(true, false, false, false, false, true, true, true))
        } else if c == 89 {
            Ok(FuncClass::make(false, false, false, true, false, false, false, false))
        } else if c == 90 {
            Ok(FuncClass::make(false, false, false, true, false, false, true, false))
        } else {
            Err(Error::new(ErrorKind::UnknownFuncClass, self.pos))
        }
    }

    /// Decodes the escape after `?` into an operator name.
    pub fn read_operator_name(&mut self) -> (r: Result<Op>)
        requires
            old(self).wf(),
        ensures
            steps(*old(self), *final(self)),
            tables_same(*old(self), *final(self)),
            r is Ok ==> final(self).pos > old(self).pos,
            r matches Err(e) ==> e.kind == ErrorKind::UnexpectedEnd || e.kind
                == ErrorKind::UnknownOperator,
            match sp_read_operator_name(old(self).input@, old(self).pos as int) {
                Some((op, p)) => r == Ok::<Op, Error>(op) && final(self).pos == p,
                None => r is Err,
            },
    {
        let c = self.get()?;
        if c == 48 {
            Ok(Op::Ctor)
        } else if c == 49 {
            Ok(Op::Dtor)
        } else if c == 50 {
            Ok(Op::New)
        } else if c == 51 {
            Ok(Op::Delete)
        } else if c == 52 {
            Ok(Op::Assign)
        } else if c == 53 {
            Ok(Op::Shr)
        } else if c == 54 {
            Ok(Op::Shl)
        } else if c == 55 {
            Ok(Op::LogicalNot)
        } else if c == 56 {
            Ok(Op::Equal)
        } else if c == 57 {
            Ok(Op::NotEqual)
        } else if c == 65 {
            Ok(Op::Subscript)
        } else if c == 66 {
            Ok(Op::Cast)
        } else if c == 67 {
            Ok(Op::Arrow)
        } else if c == 68 {
            Ok(Op::Star)
        } else if c == 69 {
            Ok(Op::Increment)
        } else if c == 70 {
            Ok(Op::Decrement)
        } else if c == 71 {
            Ok(Op::Minus)
        } else if c == 72 {
            Ok(Op::Plus)
        } else if c == 73 {
            Ok(Op::Amp)
        } else if c == 74 {
            Ok(Op::ArrowStar)
        } else if c == 75 {
            Ok(Op::Divide)
        } else if c == 76 {
            Ok(Op::Modulus)
        } else if c == 77 {
            Ok(Op::Less)
        } else if c == 78 {
            Ok(Op::LessEqual)
        } else if c == 79 {
            Ok(Op::Greater)
        } else if c == 80 {
            Ok(Op::GreaterEqual)
        } else if c == 81 {
            Ok(Op::Comma)
        } else if c == 82 {
            Ok(Op::Call)
        } else if c == 83 {
            Ok(Op::Tilde)
        } else if c == 84 {
            Ok(Op::Caret)
        } else if c == 85 {
            Ok(Op::Pipe)
        } else if c == 86 {
            Ok(Op::LogicalAnd)
        } else if c == 87 {
            Ok(Op::LogicalOr)
        } else if c == 88 {
            Ok(Op::StarAssign)
        } else if c == 89 {
            Ok(Op::PlusAssign)
        } else if c == 90 {
            Ok(Op::MinusAssign)
        } else if c == 95 {
            let d = self.get()?;
            if d == 48 {
                Ok(Op::DivideAssign)
            } else if d == 49 {
                Ok(Op::ModulusAssign)
            } else if d == 50 {
                Ok(Op::ShrAssign)
            } else if d == 51 {
                Ok(Op::ShlAssign)
            } else if d == 52 {
                Ok(Op::AmpAssign)
            } else if d == 53 {
                Ok(Op::PipeAssign)
            } else if d == 54 {
                Ok(Op::CaretAssign)
            } else if d == 55 {
                Ok(Op::VFTable)
            } else if d == 56 {
                Ok(Op::VBTable)
            } else if d == 57 {
                Ok(Op::VCall)
            } else if d == 65 {
                Ok(Op::Typeof)
            } else if d == 66 {
                Ok(Op::LocalStaticGuard)
            } else if d == 68 {
                Ok(Op::VBaseDtor)
            } else if d == 69 {
                Ok(Op::VectorDeletingDtor)
            } else if d == 70 {
                Ok(Op::DefaultCtorClosure)
            } else if d == 71 {
                Ok(Op::ScalarDeletingDtor)
            } else if d == 72 {
                Ok(Op::VectorCtorIterator)
            } else if d == 73 {
                Ok(Op::VectorDtorIterator)
            } else if d == 74 {
                Ok(Op::VectorVBaseCtorIterator)
            } else if d == 75 {
                Ok(Op::VirtualDisplacementMap)
            } else if d == 76 {
                Ok(Op::EHVectorCtorIterator)
            } else if d == 77 {
                Ok(Op::EHVectorDtorIterator)
            } else if d == 78 {
                Ok(Op::EHVectorVBaseCtorIterator)
            } else if d == 79 {
                Ok(Op::CopyCtorClosure)
            } else if d == 83 {
                Ok(Op::LocalVFTable)
            } else if d == 84 {
                Ok(Op::LocalVFTableCtorClosure)
            } else if d == 85 {
                Ok(Op::NewArray)
            } else if d == 86 {
                Ok(Op::DeleteArray)
            } else if d == 88 {
                Ok(Op::PlacementDeleteClosure)
            } else if d == 89 {
                Ok(Op::PlacementDeleteArrayClosure)
            } else if d == 95 {
                if self.consume_b(76) {
                    Ok(Op::CoAwait)
                } else if self.consume_b(75) {
                    Ok(Op::LiteralOperatorName)
                } else {
                    Err(Error::new(ErrorKind::UnknownOperator, self.pos))
                }
            } else {
                Err(Error::new(ErrorKind::UnknownOperator, self.pos))
            }
        } else {
            Err(Error::new(ErrorKind::UnknownOperator, self.pos))
        }
    }

    /// Reads an overloaded-operator name.
    pub fn read_operator(&mut self) -> (r: Result<Name>)
        requires
            old(self).wf(),
        ensures
            steps(*old(self), *final(self)),
            tables_same(*old(self), *final(self)),
            r is Ok ==> final(self).pos > old(self).pos,
            match sp_read_operator_name(old(self).input@, old(self).pos as int) {
                Some((op, p)) => (r matches Ok(x) && nview(x) == NameV::Operator(op)
                    && final(self).pos == p),
                None => r is Err,
            },
    {
        let op = self.read_operator_name()?;
        Ok(Name::Operator(op))
    }
}

impl ParserState {
    /// Skips a run of ASCII hex digits of either case.
    fn skip_hex(&mut self)
        requires
            old(self).wf(),
        ensures
            steps(*old(self), *final(self)),
            tables_same(*old(self), *final(self)),
            final(self).pos == sp_skip_hex(old(self).input@, old(self).pos as int),
    {
        let ghost s = self.input@;
        loop
            invariant
                old(self).wf(),
                self.wf(),
                self.input@ == s,
                s == old(self).input@,
                old(self).pos <= self.pos,
                tables_same(*old(self), *self),
                sp_skip_hex(s, old(self).pos as int) == sp_skip_hex(s, self.pos as int),
            decreases self.input@.len() - self.pos,
        {
            let ghost p_h = self.pos as int;
            if !self.consume_hex_digit() {
                proof {
                    assert(sp_skip_hex(s, p_h) == p_h);
                }
                return ;
            }
        }
    }

    /// Reads the remaining digits of a thread-safe-static guard number,
    /// closed by `@`, accumulating decimally with 32-bit wrap-around.
    fn read_tss_digits(&mut self, first: u8) -> (r: Result<u32>)
        requires
            old(self).wf(),
        ensures
            steps(*old(self), *final(self)),
            tables_same(*old(self), *final(self)),
            match sp_tss_digits(old(self).input@, old(self).pos as int, first as u32) {
                Some((acc, p)) => r == Ok::<u32, Error>(acc) && final(self).pos == p,
                None => r is Err,
            },
    {
        let ghost s = self.input@;
        let mut guard: u32 = first as u32;
        loop
            invariant
                old(self).wf(),
                self.wf(),
                self.input@ == s,
                s == old(self).input@,
                old(self).pos <= self.pos,
                tables_same(*old(self), *self),
                sp_tss_digits(s, old(self).pos as int, first as u32) == sp_tss_digits(
                    s,
                    self.pos as int,
                    guard,
                ),
            decreases self.input@.len() - self.pos,
        {
            let ghost p_h = self.pos as int;
            let ghost g_h = guard;
            if self.consume_b(64) {  // '@'
                proof {
                    assert(sp_tss_digits(s, p_h, g_h) == Some((g_h, p_h + 1)));
                }
                return Ok(guard);
            }
            match self.consume_digit() {
                Some(d) => {
                    guard = ((((guard as u64) * 10 + (d as u64)) % 0x1_0000_0000u64) as u32);
                    proof {
                        assert(guard == dec_push(g_h, d));
                        assert(sp_tss_digits(s, p_h, g_h) == sp_tss_digits(
                            s,
                            self.pos as int,
                            guard,
                        ));
                    }
                },
                None => {
                    proof {
                        assert(sp_tss_digits(s, p_h, g_h) is None);
                    }
                    return Err(Error::new(ErrorKind::MissingDigit, self.pos));
                },
            }
        }
    }

    /// Parses a whole mangled symbol: `?`, then either a `$`-prefixed
    /// special form (thread-safe-static guard or bare template name) or a
    /// qualified name followed by its type encoding.
    #[verifier::spinoff_prover]
    pub fn parse(&mut self) -> (r: Result<ParseResult>)
        requires
            old(self).wf(),
        ensures
            steps(*old(self), *final(self)),
            r is Ok ==> final(self).pos > old(self).pos,
            (old(self).rem() == 0 || old(self).byte(0) != 63) ==> (r matches Err(e) && e.kind
                == ErrorKind::NotMangled && final(self).pos == old(self).pos),
            r is Ok ==> old(self).rem() > 0 && old(self).byte(0) == 63,
            pin_parse(sp_parse(old(self).input@, old(self).stv()), r, final(self).stv()),
        decreases self.input@.len() - self.pos, 4int,
    {
        let ghost s = self.input@;
        let ghost st0 = self.stv();
        if !self.consume_b(63) {  // '?'
            return Err(Error::new(ErrorKind::NotMangled, self.pos));
        }
        proof {
            assert(self.stv() =~= PSt { pos: st0.pos + 1, ..st0 });
        }
        if self.consume_b(36) {  // '$'
            proof {
                assert(self.stv() =~= PSt { pos: st0.pos + 2, ..st0 });
            }
            return self.read_special();
        }
        let symbol = self.read_name(true)?;
        let ghost st2 = self.stv();
        proof {
            assert(moved(s, st0, st2));
        }
        let symbol_type = self.read_type_encoding()?;
        Ok(ParseResult { symbol, symbol_type })
    }

    /// Reads the `$`-prefixed special forms after `?$`: a thread-safe-static
    /// guard, or a bare template name with no type encoding.
    #[verifier::spinoff_prover]
    #[verifier::rlimit(100)]
    fn read_special(&mut self) -> (r: Result<ParseResult>)
        requires
            old(self).wf(),
        ensures
            steps(*old(self), *final(self)),
            r is Ok ==> final(self).pos > old(self).pos,
            pin_parse(sp_parse_special(old(self).input@, old(self).stv()), r, final(self).stv()),
        decreases self.input@.len() - self.pos, 3int,
    {
        let ghost s = self.input@;
        let ghost st0 = self.stv();
        if self.consume3(84, 83, 83) {  // "TSS"
            proof {
                assert(self.stv() =~= PSt { pos: st0.pos + 3, ..st0 });
            }
            let d0 = match self.consume_digit() {
                Some(d) => d,
                None => {
                    return Err(Error::new(ErrorKind::MissingDigit, self.pos));
                },
            };
            proof {
                assert(self.stv() =~= PSt { pos: st0.pos + 4, ..st0 });
            }
            let guard = match self.read_tss_digits(d0) {
                Ok(g) => g,
                Err(e) => {
                    return Err(e);
                },
            };
            let ghost st4 = self.stv();
            proof {
                assert(st4 =~= PSt { pos: st4.pos, ..st0 });
                assert(moved(s, st0, st4));
            }
            let name = self.read_nested_name()?;
            let ghost st5 = self.stv();
            proof {
                assert(moved(s, st0, st5));
            }
            let scope = self.read_scope()?;
            let ghost st6 = self.stv();
            self.expect3(52, 72, 65)?;  // "4HA"
            let g = u32_to_i32(guard);
            proof {
                assert(self.stv() =~= PSt { pos: st6.pos + 3, ..st6 });
                assert(symview(Symbol { name, scope }) == SymbolV { name: name@, scope: scope@ });
            }
            return Ok(
                ParseResult {
                    symbol: Symbol { name, scope },
                    symbol_type: Type::ThreadSafeStaticGuard(g),
                },
            );
        }
        let name = self.read_template_name()?;
        proof {
            assert(names_view(Seq::<Name>::empty()) =~= Seq::<NameV>::empty());
        }
        let empty_scope = NameSequence { names: Vec::new() };
        proof {
            assert(symview(Symbol { name, scope: empty_scope }) == SymbolV {
                name: name@,
                scope: Seq::empty(),
            });
        }
        Ok(
            ParseResult {
                symbol: Symbol { name, scope: empty_scope },
                symbol_type: Type::NoType,
            },
        )
    }

    /// Reads the type encoding that follows a symbol name: absent at the
    /// end of input, else a variable, a virtual table, or a function
    /// signature with its class, convention, return type and parameters.
    #[verifier::spinoff_prover]
    #[verifier::rlimit(100)]
    fn read_type_encoding(&mut self) -> (r: Result<Type>)
        requires
            old(self).wf(),
        ensures
            steps(*old(self), *final(self)),
            pin_type(sp_parse_encoding(old(self).input@, old(self).stv()), r, final(self).stv()),
        decreases self.input@.len() - self.pos, 3int,
    {
        let ghost s = self.input@;
        let ghost st0 = self.stv();
        let c = match self.peek() {
            Some(c) => c,
            None => {
                return Ok(Type::NoType);
            },
        };
        let _ = self.get();
        proof {
            assert(self.stv() =~= PSt { pos: st0.pos + 1, ..st0 });
        }

        if 48 <= c && c <= 53 {  // '0'..='5': a variable
            self.read_var_type(StorageClass::empty())
        } else if c == 54 {  // '6': a virtual function table
            let access_class = self.read_qualifier();
            let scope = self.read_scope()?;
            Ok(Type::CXXVFTable(scope, access_class))
        } else if c == 55 {  // '7': a virtual base table
            let access_class = self.read_qualifier();
            let scope = self.read_scope()?;
            Ok(Type::CXXVBTable(scope, access_class))
        } else if c == 89 {  // 'Y': a non-member function
            self.read_non_member_function()
        } else {  // a member function
            self.read_member_function(c)
        }
    }

    /// Reads the signature of a non-member function after its `Y`
    /// discriminator: calling convention, return type, parameters.
    #[verifier::spinoff_prover]
    #[verifier::rlimit(100)]
    fn read_non_member_function(&mut self) -> (r: Result<Type>)
        requires
            old(self).wf(),
        ensures
            steps(*old(self), *final(self)),
            pin_type(
                sp_read_non_member_function(old(self).input@, old(self).stv()),
                r,
                final(self).stv(),
            ),
        decreases self.input@.len() - self.pos, 3int,
    {
        let ghost s = self.input@;
        let ghost st0 = self.stv();
        let calling_conv = self.read_calling_conv()?;
        let storage_class = self.read_storage_class_for_return()?;
        let return_type = self.read_var_type(storage_class)?;
        let ghost st6 = self.stv();
        proof {
            assert(moved(s, st0, st6));
        }
        let params = self.read_func_params()?;
        Ok(
            Type::NonMemberFunction(
                calling_conv,
                params,
                StorageClass::empty(),
                Box::new(return_type),
            ),
        )
    }

    /// Reads the signature of a member function after its class byte:
    /// visibility and storage flags, `this` qualifier, calling convention,
    /// return type, parameters.
    #[verifier::spinoff_prover]
    #[verifier::rlimit(100)]
    fn read_member_function(&mut self, c: u8) -> (r: Result<Type>)
        requires
            old(self).wf(),
        ensures
            steps(*old(self), *final(self)),
            pin_type(
                sp_read_member_function(old(self).input@, old(self).stv(), c),
                r,
                final(self).stv(),
            ),
        decreases self.input@.len() - self.pos, 3int,
    {
        let ghost s = self.input@;
        let ghost st0 = self.stv();
        let func_class = self.read_func_class(c)?;
        let ghost st4 = self.stv();
        proof {
            assert(sp_read_func_class(s, st0, c) == Some((func_class, st4)));
        }
        let access_class = if func_class.is_static {
            StorageClass::empty()
        } else {
            let _is_64bit_ptr = self.expect_b(69);  // 'E'
            self.read_qualifier()
        };
        let ghost st5 = self.stv();
        proof {
            assert((access_class, st5) == sp_read_access(s, st4, func_class.is_static));
        }
        let calling_conv = self.read_calling_conv()?;
        let ghost st6 = self.stv();
        proof {
            assert(sp_read_calling_conv(s, st5) == Some((calling_conv, st6)));
        }
        let storage_class_for_return = self.read_storage_class_for_return()?;
        let ghost st7 = self.stv();
        proof {
            assert(sp_read_storage_class_for_return(s, st6) == Some(
                (storage_class_for_return, st7),
            ));
            assert(moved(s, st0, st7));
        }
        let return_type = self.read_func_return_type(storage_class_for_return)?;
        let ghost st8 = self.stv();
        proof {
            assert(moved(s, st0, st8));
        }
        let params = self.read_func_params()?;
        Ok(
            Type::MemberFunction(
                func_class,
                calling_conv,
                params,
                access_class,
                Box::new(return_type),
            ),
        )
    }

    /// Reads a template name and its arguments against fresh backreference
    /// tables; on success the caller's tables come back untouched, so
    /// nothing memorized inside the template leaks out.
    #[verifier::spinoff_prover]
    pub fn read_template_name(&mut self) -> (r: Result<Name>)
        requires
            old(self).wf(),
        ensures
            steps(*old(self), *final(self)),
            r is Ok ==> final(self).pos > old(self).pos,
            r is Ok ==> tables_same(*old(self), *final(self)),
            pin_name(
                sp_read_template_name(old(self).input@, old(self).stv()),
                r,
                final(self).stv(),
            ),
        decreases self.input@.len() - self.pos, 2int,
    {
        let ghost s = self.input@;
        let ghost st0 = self.stv();
        let mut saved_names: Vec<Name> = Vec::new();
        let mut saved_types: Vec<Type> = Vec::new();
        core::mem::swap(&mut saved_names, &mut self.memorized_names);
        core::mem::swap(&mut saved_types, &mut self.memorized_types);
        proof {
            assert(names_view(self.memorized_names@) =~= Seq::<NameV>::empty());
            assert(types_view(self.memorized_types@) =~= Seq::<TypeV>::empty());
            assert(self.stv() =~= PSt { pos: st0.pos, names: Seq::empty(), types: Seq::empty() });
        }
        let name = self.read_unqualified_name(false)?;
        let ghost st2 = self.stv();
        proof {
            assert(moved(s, st0, st2));
        }
        let template_params = self.read_params()?;
        let ghost st3 = self.stv();
        self.memorized_names = saved_names;
        self.memorized_types = saved_types;
        proof {
            assert(self.stv() =~= PSt { pos: st3.pos, names: st0.names, types: st0.types });
        }
        Ok(Name::Template(Box::new(name), template_params))
    }

    /// Reads one entry of a scope chain: a backreference, a fully nested
    /// symbol, a template name, an anonymous namespace, or a discriminator,
    /// or else a plain terminated identifier.
    #[verifier::spinoff_prover]
    pub fn read_nested_name(&mut self) -> (r: Result<Name>)
        requires
            old(self).wf(),
        ensures
            steps(*old(self), *final(self)),
            r is Ok ==> final(self).pos > old(self).pos,
            pin_name(sp_read_nested_name(old(self).input@, old(self).stv()), r, final(self).stv()),
        decreases self.input@.len() - self.pos, 1int,
    {
        let ghost s = self.input@;
        let ghost st0 = self.stv();
        if let Some(i) = self.consume_digit() {
            if (i as usize) >= self.memorized_names.len() {
                return Err(Error::new(ErrorKind::BackrefOutOfRange, self.pos));
            }
            let name = clone_name(&self.memorized_names[i as usize]);
            proof {
                assert(name@ == st0.names[i as int]);
                assert(self.stv() =~= PSt { pos: st0.pos + 1, ..st0 });
            }
            return Ok(name);
        }
        if self.consume_b(63) {  // '?'
            proof {
                assert(self.stv() =~= PSt { pos: st0.pos + 1, ..st0 });
            }
            match self.peek() {
                Some(63) => {
                    let nested = self.parse()?;
                    Ok(Name::ParsedName(Box::new(nested)))
                },
                _ => {
                    if self.consume_b(36) {  // '$'
                        proof {
                            assert(self.stv() =~= PSt { pos: st0.pos + 2, ..st0 });
                        }
                        let name = self.read_template_name()?;
                        self.memorize_name(&name);
                        Ok(name)
                    } else if self.consume_b(65) {  // 'A': anonymous namespace
                        proof {
                            assert(self.stv() =~= PSt { pos: st0.pos + 2, ..st0 });
                        }
                        if self.consume2(48, 120) {  // "0x"
                            proof {
                                assert(self.stv() =~= PSt { pos: st0.pos + 4, ..st0 });
                            }
                            self.skip_hex();
                        }
                        let ghost st3 = self.stv();
                        self.expect_b(64)?;  // '@'
                        proof {
                            assert(self.stv() =~= PSt { pos: st3.pos + 1, ..st3 });
                        }
                        Ok(Name::AnonymousNamespace)
                    } else {
                        let discriminator = self.read_number()?;
                        proof {
                            assert(self.stv() =~= PSt { pos: self.stv().pos, ..st0 });
                        }
                        Ok(Name::Discriminator(discriminator))
                    }
                },
            }
        } else {
            let bytes = self.read_string()?;
            let name = Name::NonTemplate(bytes);
            proof {
                assert(self.stv() =~= PSt { pos: self.stv().pos, ..st0 });
            }
            self.memorize_name(&name);
            Ok(name)
        }
    }

    /// Reads an unqualified name: a backreference, a template name, an
    /// operator escape, or a plain terminated identifier. Plain names are
    /// always memorized; template names only outside function-name position.
    #[verifier::spinoff_prover]
    pub fn read_unqualified_name(&mut self, function: bool) -> (r: Result<Name>)
        requires
            old(self).wf(),
        ensures
            steps(*old(self), *final(self)),
            r is Ok ==> final(self).pos > old(self).pos,
            pin_name(
                sp_read_unqualified_name(old(self).input@, old(self).stv(), function),
                r,
                final(self).stv(),
            ),
        decreases self.input@.len() - self.pos, 1int,
    {
        let ghost s = self.input@;
        let ghost st0 = self.stv();
        if let Some(i) = self.consume_digit() {
            if (i as usize) >= self.memorized_names.len() {
                return Err(Error::new(ErrorKind::BackrefOutOfRange, self.pos));
            }
            let name = clone_name(&self.memorized_names[i as usize]);
            proof {
                assert(name@ == st0.names[i as int]);
                assert(self.stv() =~= PSt { pos: st0.pos + 1, ..st0 });
            }
            return Ok(name);
        }
        if self.consume2(63, 36) {  // "?$"
            proof {
                assert(self.stv() =~= PSt { pos: st0.pos + 2, ..st0 });
            }
            let name = self.read_template_name()?;
            if !function {
                self.memorize_name(&name);
            }
            Ok(name)
        } else if self.consume_b(63) {  // '?'
            proof {
                assert(self.stv() =~= PSt { pos: st0.pos + 1, ..st0 });
            }
            let op_name = self.read_operator()?;
            proof {
                assert(self.stv() =~= PSt { pos: self.stv().pos, ..st0 });
            }
            Ok(op_name)
        } else {
            let bytes = self.read_string()?;
            let name = Name::NonTemplate(bytes);
            proof {
                assert(self.stv() =~= PSt { pos: self.stv().pos, ..st0 });
            }
            self.memorize_name(&name);
            Ok(name)
        }
    }

    /// Reads nested names until the terminating `@` of a scope chain.
    #[verifier::spinoff_prover]
    pub fn read_scope(&mut self) -> (r: Result<NameSequence>)
        requires
            old(self).wf(),
        ensures
            steps(*old(self), *final(self)),
            pin_scope(sp_read_scope(old(self).input@, old(self).stv()), r, final(self).stv()),
        decreases self.input@.len() - self.pos, 2int,
    {
        let ghost s = self.input@;
        let ghost st0 = self.stv();
        let mut names: Vec<Name> = Vec::new();
        loop
            invariant
                old(self).wf(),
                self.wf(),
                self.input@ == s,
                s == old(self).input@,
                old(self).pos <= self.pos,
                st0 == old(self).stv(),
                sp_read_scope(s, st0) == prepend_names(
                    names_view(names@),
                    sp_read_scope(s, self.stv()),
                ),
            decreases self.input@.len() - self.pos,
        {
            let ghost st_h = self.stv();
            if self.consume_b(64) {  // '@'
                proof {
                    assert(self.stv() =~= PSt { pos: st_h.pos + 1, ..st_h });
                    assert(sp_read_scope(s, st_h) == Some(
                        (Seq::<NameV>::empty(), PSt { pos: st_h.pos + 1, ..st_h }),
                    ));
                    assert(names_view(names@) + Seq::<NameV>::empty() =~= names_view(names@));
                }
                return Ok(NameSequence { names });
            }
            let name = match self.read_nested_name() {
                Ok(n) => n,
                Err(e) => {
                    proof {
                        assert(sp_read_scope(s, st_h) is None);
                    }
                    return Err(e);
                },
            };
            proof {
                let st2 = self.stv();
                assert(moved(s, st_h, st2));
                assert(sp_read_scope(s, st_h) == prepend_names(
                    seq![name@],
                    sp_read_scope(s, st2),
                ));
                lemma_prepend_names_assoc(names_view(names@), name@, sp_read_scope(s, st2));
                assert(names_view(names@.push(name)) =~= names_view(names@).push(name@));
            }
            names.push(name);
        }
    }

    /// Reads a qualified name `A@B@C@@` standing for `C::B::A`. A
    /// constructor or destructor name must have an enclosing name to be
    /// spelled after; without one the input is rejected.
    #[verifier::spinoff_prover]
    pub fn read_name(&mut self, function: bool) -> (r: Result<Symbol>)
        requires
            old(self).wf(),
        ensures
            steps(*old(self), *final(self)),
            r is Ok ==> final(self).pos > old(self).pos,
            pin_symbol(
                sp_read_name(old(self).input@, old(self).stv(), function),
                r,
                final(self).stv(),
            ),
        decreases self.input@.len() - self.pos, 2int,
    {
        let ghost s = self.input@;
        let ghost st0 = self.stv();
        let name = self.read_unqualified_name(function)?;
        let ghost st2 = self.stv();
        proof {
            assert(moved(s, st0, st2));
        }
        let scope = self.read_scope()?;
        let needs_enclosing = match &name {
            Name::Operator(op) => *op == Op::Ctor || *op == Op::Dtor,
            _ => false,
        };
        if needs_enclosing && scope.names.len() == 0 {
            return Err(Error::new(ErrorKind::MissingEnclosingName, self.pos));
        }
        proof {
            assert(symview(Symbol { name, scope }) == SymbolV { name: name@, scope: scope@ });
        }
        Ok(Symbol { name, scope })
    }

    /// Reads a function type: calling convention, return type, parameters.
    #[verifier::spinoff_prover]
    pub fn read_func_type(&mut self) -> (r: Result<Type>)
        requires
            old(self).wf(),
        ensures
            steps(*old(self), *final(self)),
            r is Ok ==> final(self).pos > old(self).pos,
            pin_type(sp_read_func_type(old(self).input@, old(self).stv()), r, final(self).stv()),
        decreases self.input@.len() - self.pos, 0int,
    {
        let ghost s = self.input@;
        let ghost st0 = self.stv();
        let calling_conv = self.read_calling_conv()?;
        proof {
            assert(self.stv() =~= PSt { pos: st0.pos + 1, ..st0 });
        }
        let return_type = self.read_var_type(StorageClass::empty())?;
        let ghost st3 = self.stv();
        proof {
            assert(moved(s, st0, st3));
        }
        let params = self.read_func_params()?;
        Ok(
            Type::NonMemberFunction(
                calling_conv,
                params,
                StorageClass::empty(),
                Box::new(return_type),
            ),
        )
    }

    /// Reads a return type; a bare `@` stands for none (constructors).
    pub fn read_func_return_type(&mut self, storage_class: StorageClass) -> (r: Result<Type>)
        requires
            old(self).wf(),
        ensures
            steps(*old(self), *final(self)),
            r is Ok ==> final(self).pos > old(self).pos,
            pin_type(
                sp_read_func_return_type(old(self).input@, storage_class, old(self).stv()),
                r,
                final(self).stv(),
            ),
        decreases self.input@.len() - self.pos, 2int,
    {
        let ghost st0 = self.stv();
        if self.consume_b(64) {  // '@'
            proof {
                assert(self.stv() =~= PSt { pos: st0.pos + 1, ..st0 });
            }
            Ok(Type::NoType)
        } else {
            self.read_var_type(storage_class)
        }
    }

    /// Reads a member-function pointer after its `P8` prefix.
    #[verifier::spinoff_prover]
    fn read_member_fn_ptr(&mut self) -> (r: Result<Type>)
        requires
            old(self).wf(),
        ensures
            steps(*old(self), *final(self)),
            r is Ok ==> final(self).pos > old(self).pos,
            pin_type(
                sp_read_member_fn_ptr(old(self).input@, old(self).stv()),
                r,
                final(self).stv(),
            ),
        decreases self.input@.len() - self.pos, 2int,
    {
        let ghost s = self.input@;
        let ghost st0 = self.stv();
        let name = self.read_unqualified_name(true)?;
        let ghost st2 = self.stv();
        proof {
            assert(moved(s, st0, st2));
        }
        self.expect_b(64)?;  // '@'
        self.expect_b(69)?;  // 'E'
        proof {
            assert(self.stv() =~= PSt { pos: st2.pos + 2, ..st2 });
        }
        let access_class = self.read_qualifier();
        let _calling_conv = self.read_calling_conv()?;
        let storage_class_for_return = self.read_storage_class_for_return()?;
        let ghost st5 = self.stv();
        proof {
            assert(moved(s, st0, st5));
        }
        let return_type = self.read_func_return_type(storage_class_for_return)?;
        let ghost st6 = self.stv();
        proof {
            assert(moved(s, st0, st6));
        }
        let params = self.read_func_params()?;
        Ok(Type::MemberFunctionPointer(name, params, access_class, Box::new(return_type)))
    }

    /// Reads a variable type, dispatching on its leading code bytes.
    #[verifier::spinoff_prover]
    #[verifier::rlimit(100)]
    pub fn read_var_type(&mut self, storage_class: StorageClass) -> (r: Result<Type>)
        requires
            old(self).wf(),
        ensures
            steps(*old(self), *final(self)),
            r is Ok ==> final(self).pos > old(self).pos,
            pin_type(
                sp_read_var_type(old(self).input@, storage_class, old(self).stv()),
                r,
                final(self).stv(),
            ),
        decreases self.input@.len() - self.pos, 1int,
    {
        let ghost s = self.input@;
        let ghost st0 = self.stv();
        let mut sc = storage_class;
        if self.consume2(87, 52) {  // "W4"
            proof {
                assert(self.stv() =~= PSt { pos: st0.pos + 2, ..st0 });
            }
            let name = self.read_name(false)?;
            return Ok(Type::Enum(name, sc));
        }
        if self.consume2(65, 54) {  // "A6"
            proof {
                assert(self.stv() =~= PSt { pos: st0.pos + 2, ..st0 });
            }
            let func_type = self.read_func_type()?;
            return Ok(Type::Ref(Box::new(func_type), sc));
        }
        if self.consume2(80, 54) {  // "P6"
            proof {
                assert(self.stv() =~= PSt { pos: st0.pos + 2, ..st0 });
            }
            let func_type = self.read_func_type()?;
            return Ok(Type::Ptr(Box::new(func_type), sc));
        }
        if self.consume2(80, 56) {  // "P8": member-function pointer
            proof {
                assert(self.stv() =~= PSt { pos: st0.pos + 2, ..st0 });
            }
            return self.read_member_fn_ptr();
        }

        if self.consume_b(36) {  // '$'
            proof {
                assert(self.stv() =~= PSt { pos: st0.pos + 1, ..st0 });
            }
            return self.read_dollar_type(sc);
        }
        self.read_var_type_tail(sc)
    }

    /// Reads the `$`-prefixed type forms, after their leading `$`.
    #[verifier::spinoff_prover]
    #[verifier::rlimit(100)]
    fn read_dollar_type(&mut self, storage_class: StorageClass) -> (r: Result<Type>)
        requires
            old(self).wf(),
        ensures
            steps(*old(self), *final(self)),
            r is Ok ==> final(self).pos > old(self).pos,
            pin_type(
                sp_read_dollar(old(self).input@, storage_class, old(self).stv()),
                r,
                final(self).stv(),
            ),
        decreases self.input@.len() - self.pos, 1int,
    {
        let ghost s = self.input@;
        let ghost st0 = self.stv();
        let mut sc = storage_class;
        if self.consume_b(48) {  // '0': a non-type template constant
            let n = self.read_number()?;
            proof {
                assert(self.stv() =~= PSt { pos: self.stv().pos, ..st0 });
            }
            return Ok(Type::Constant(n));
        }
        if self.consume_b(68) {  // 'D': a template parameter index
            let n = self.read_number()?;
            proof {
                assert(self.stv() =~= PSt { pos: self.stv().pos, ..st0 });
            }
            return Ok(Type::TemplateParameterWithIndex(n));
        }
        if self.consume3(36, 66, 89) {  // "$BY": a multi-dimensional array
            proof {
                assert(self.stv() =~= PSt { pos: st0.pos + 3, ..st0 });
            }
            return self.read_array();
        }
        if self.consume2(36, 81) {  // "$Q": an rvalue reference
            proof {
                assert(self.stv() =~= PSt { pos: st0.pos + 2, ..st0 });
            }
            let pointee = self.read_pointee()?;
            return Ok(Type::RValueRef(Box::new(pointee), sc));
        }
        if self.consume2(36, 67) {  // "$C": a qualified type
            proof {
                assert(self.stv() =~= PSt { pos: st0.pos + 2, ..st0 });
            }
            sc = self.read_qualifier();
        }
        let ghost stc = self.stv();
        if self.consume2(36, 86) {  // "$V": an empty parameter pack
            proof {
                assert(self.stv() =~= PSt { pos: stc.pos + 2, ..stc });
            }
            return Ok(Type::EmptyParameterPack);
        }
        if self.consume2(36, 84) {  // "$T": the nullptr type
            proof {
                assert(self.stv() =~= PSt { pos: stc.pos + 2, ..stc });
            }
            return Ok(Type::Nullptr);
        }
        if self.consume3(36, 65, 54) {  // "$A6": an inline function type
            proof {
                assert(self.stv() =~= PSt { pos: stc.pos + 3, ..stc });
            }
            return self.read_func_type();
        }
        self.read_var_type_tail(sc)
    }

    /// Reads the tail forms of a variable type: a negated template
    /// parameter, a backreferenced type, or a single dispatch byte.
    #[verifier::spinoff_prover]
    #[verifier::rlimit(100)]
    fn read_var_type_tail(&mut self, storage_class: StorageClass) -> (r: Result<Type>)
        requires
            old(self).wf(),
        ensures
            steps(*old(self), *final(self)),
            r is Ok ==> final(self).pos > old(self).pos,
            pin_type(
                sp_read_var_type_tail(old(self).input@, storage_class, old(self).stv()),
                r,
                final(self).stv(),
            ),
        decreases self.input@.len() - self.pos, 0int,
    {
        let ghost s = self.input@;
        let ghost st0 = self.stv();
        let sc = storage_class;
        if self.consume_b(63) {  // '?': a negated template parameter index
            let n = self.read_number()?;
            let neg = if n == i32::MIN {
                n
            } else {
                -n
            };
            proof {
                assert(neg as int == neg_wrap(n as int));
                assert(self.stv() =~= PSt { pos: self.stv().pos, ..st0 });
            }
            return Ok(Type::TemplateParameterWithIndex(neg));
        }

        if let Some(n) = self.consume_digit() {
            if (n as usize) >= self.memorized_types.len() {
                return Err(Error::new(ErrorKind::BackrefOutOfRange, self.pos));
            }
            let t = clone_type(&self.memorized_types[n as usize]);
            proof {
                assert(t@ == st0.types[n as int]);
                assert(self.stv() =~= PSt { pos: st0.pos + 1, ..st0 });
            }
            return Ok(t);
        }

        let c = self.get()?;
        proof {
            assert(self.stv() =~= PSt { pos: st0.pos + 1, ..st0 });
        }
        if c == 84 {  // 'T'
            Ok(Type::Union(self.read_name(false)?, sc))
        } else if c == 85 {  // 'U'
            Ok(Type::Struct(self.read_name(false)?, sc))
        } else if c == 86 {  // 'V'
            Ok(Type::Class(self.read_name(false)?, sc))
        } else if c == 65 {  // 'A'
            Ok(Type::Ref(Box::new(self.read_pointee()?), sc))
        } else if c == 66 {  // 'B'
            Ok(Type::Ref(Box::new(self.read_pointee()?), StorageClass::cvf(false, true, false)))
        } else if c == 80 {  // 'P'
            Ok(Type::Ptr(Box::new(self.read_pointee()?), sc))
        } else if c == 81 {  // 'Q'
            Ok(Type::Ptr(Box::new(self.read_pointee()?), StorageClass::cvf(true, false, false)))
        } else if c == 82 {  // 'R'
            Ok(Type::Ptr(Box::new(self.read_pointee()?), StorageClass::cvf(false, true, false)))
        } else if c == 83 {  // 'S'
            Ok(Type::Ptr(Box::new(self.read_pointee()?), StorageClass::cvf(true, true, false)))
        } else if c == 89 {  // 'Y'
            self.read_array()
        } else if c == 88 {  // 'X'
            Ok(Type::Void(sc))
        } else if c == 68 {  // 'D'
            Ok(Type::Char(sc))
        } else if c == 67 {  // 'C'
            Ok(Type::Schar(sc))
        } else if c == 69 {  // 'E'
            Ok(Type::Uchar(sc))
        } else if c == 70 {  // 'F'
            Ok(Type::Short(sc))
        } else if c == 71 {  // 'G'
            Ok(Type::Ushort(sc))
        } else if c == 72 {  // 'H'
            Ok(Type::Int(sc))
        } else if c == 73 {  // 'I'
            Ok(Type::Uint(sc))
        } else if c == 74 {  // 'J'
            Ok(Type::Long(sc))
        } else if c == 75 {  // 'K'
            Ok(Type::Ulong(sc))
        } else if c == 77 {  // 'M'
            Ok(Type::Float(sc))
        } else if c == 78 {  // 'N'
            Ok(Type::Double(sc))
        } else if c == 79 {  // 'O'
            Ok(Type::Ldouble(sc))
        } else if c == 95 {  // '_': an extended primitive
            let d = self.get()?;
            proof {
                assert(self.stv() =~= PSt { pos: st0.pos + 2, ..st0 });
            }
            if d == 78 {  // 'N'
                Ok(Type::Bool(sc))
            } else if d == 74 {  // 'J'
                Ok(Type::Int64(sc))
            } else if d == 75 {  // 'K'
                Ok(Type::Uint64(sc))
            } else if d == 87 {  // 'W'
                Ok(Type::Wchar(sc))
            } else if d == 83 {  // 'S'
                Ok(Type::Char16(sc))
            } else if d == 85 {  // 'U'
                Ok(Type::Char32(sc))
            } else {
                Err(Error::new(ErrorKind::UnknownType, self.pos))
            }
        } else {
            Err(Error::new(ErrorKind::UnknownType, self.pos))
        }
    }

    /// Reads the target of a pointer or reference: an optional 64-bit
    /// marker, a storage class, then the pointed-to type.
    pub fn read_pointee(&mut self) -> (r: Result<Type>)
        requires
            old(self).wf(),
        ensures
            steps(*old(self), *final(self)),
            r is Ok ==> final(self).pos > old(self).pos,
            pin_type(sp_read_pointee(old(self).input@, old(self).stv()), r, final(self).stv()),
        decreases self.input@.len() - self.pos, 2int,
    {
        let ghost st0 = self.stv();
        let _is_64bit_ptr = self.expect_b(69);  // 'E'
        proof {
            assert(self.stv() =~= (if can1(self.input@, st0.pos, 69) {
                PSt { pos: st0.pos + 1, ..st0 }
            } else {
                st0
            }));
        }
        let storage_class = self.read_storage_class();
        self.read_var_type(storage_class)
    }

    /// Reads an array: a dimension count, then that many lengths.
    pub fn read_array(&mut self) -> (r: Result<Type>)
        requires
            old(self).wf(),
        ensures
            steps(*old(self), *final(self)),
            r is Ok ==> final(self).pos > old(self).pos,
            pin_type(sp_read_array(old(self).input@, old(self).stv()), r, final(self).stv()),
        decreases self.input@.len() - self.pos, 0int,
    {
        let ghost st0 = self.stv();
        let dimension = self.read_number()?;
        proof {
            assert(self.stv() =~= PSt { pos: self.stv().pos, ..st0 });
        }
        if dimension <= 0 {
            return Err(Error::new(ErrorKind::InvalidDimension, self.pos));
        }
        self.read_nested_array(dimension)
    }

    /// Reads the remaining lengths of an array, building the nested array
    /// wrappers outside-in. The optional `$$C` qualifier before the element
    /// is attached to the innermost element type only; the wrappers
    /// themselves stay unqualified.
    #[verifier::spinoff_prover]
    pub fn read_nested_array(&mut self, dimension: i32) -> (r: Result<Type>)
        requires
            old(self).wf(),
            dimension >= 0,
        ensures
            steps(*old(self), *final(self)),
            r is Ok ==> final(self).pos > old(self).pos,
            pin_type(
                sp_read_nested_array(old(self).input@, old(self).stv(), dimension as int),
                r,
                final(self).stv(),
            ),
        decreases self.input@.len() - self.pos, 2int,
    {
        let ghost s = self.input@;
        let ghost st0 = self.stv();
        if dimension > 0 {
            let len = self.read_number()?;
            proof {
                assert(self.stv() =~= PSt { pos: self.stv().pos, ..st0 });
            }
            let inner = self.read_nested_array(dimension - 1)?;
            Ok(Type::Array(len, Box::new(inner), StorageClass::empty()))
        } else {
            if self.consume3(36, 36, 67) {  // "$$C"
                proof {
                    assert(self.stv() =~= PSt { pos: st0.pos + 3, ..st0 });
                }
                if self.consume_b(66) {  // 'B'
                    proof {
                        assert(self.stv() =~= PSt { pos: st0.pos + 4, ..st0 });
                    }
                    self.read_var_type(StorageClass::cvf(true, false, false))
                } else if self.consume_b(67) {  // 'C'
                    proof {
                        assert(self.stv() =~= PSt { pos: st0.pos + 4, ..st0 });
                    }
                    self.read_var_type(StorageClass::cvf(true, true, false))
                } else if self.consume_b(68) {  // 'D'
                    proof {
                        assert(self.stv() =~= PSt { pos: st0.pos + 4, ..st0 });
                    }
                    self.read_var_type(StorageClass::cvf(true, true, false))
                } else if self.consume_b(65) {  // 'A'
                    proof {
                        assert(self.stv() =~= PSt { pos: st0.pos + 4, ..st0 });
                    }
                    self.read_var_type(StorageClass::empty())
                } else {
                    Err(Error::new(ErrorKind::UnknownStorageClass, self.pos))
                }
            } else {
                self.read_var_type(StorageClass::empty())
            }
        }
    }

    /// Reads types until `@`, a trailing `Z` (varargs) or the end of input;
    /// digits select backreferenced types; every type whose encoding took
    /// more than one byte is memorized.
    #[verifier::spinoff_prover]
    pub fn read_params(&mut self) -> (r: Result<Params>)
        requires
            old(self).wf(),
        ensures
            steps(*old(self), *final(self)),
            pin_params(sp_read_params(old(self).input@, old(self).stv()), r, final(self).stv()),
        decreases self.input@.len() - self.pos, 2int,
    {
        let ghost s = self.input@;
        let ghost st0 = self.stv();
        let mut params: Vec<Type> = Vec::new();
        loop
            invariant
                old(self).wf(),
                self.wf(),
                self.input@ == s,
                s == old(self).input@,
                old(self).pos <= self.pos,
                st0 == old(self).stv(),
                sp_read_params(s, st0) == prepend_types(
                    types_view(params@),
                    sp_read_params(s, self.stv()),
                ),
            decreases self.input@.len() - self.pos,
        {
            let ghost st_h = self.stv();
            if self.pos >= self.input.len() {
                proof {
                    assert(sp_read_params(s, st_h) == Some((Seq::<TypeV>::empty(), st_h)));
                    assert(types_view(params@) + Seq::<TypeV>::empty() =~= types_view(params@));
                }
                return Ok(Params { types: params });
            }
            let b = self.input[self.pos];
            if b == 90 {  // 'Z': varargs close the list
                let _ = self.consume_b(90);
                proof {
                    assert(self.stv() =~= PSt { pos: st_h.pos + 1, ..st_h });
                    assert(sp_read_params(s, st_h) == Some(
                        (seq![TypeV::VarArgs], PSt { pos: st_h.pos + 1, ..st_h }),
                    ));
                    assert(types_view(params@.push(Type::VarArgs)) =~= types_view(params@).push(
                        TypeV::VarArgs,
                    ));
                    assert(types_view(params@) + seq![TypeV::VarArgs] =~= types_view(
                        params@,
                    ).push(TypeV::VarArgs));
                }
                params.push(Type::VarArgs);
                return Ok(Params { types: params });
            }
            if b == 64 {  // '@' closes the list
                let _ = self.consume_b(64);
                proof {
                    assert(self.stv() =~= PSt { pos: st_h.pos + 1, ..st_h });
                    assert(sp_read_params(s, st_h) == Some(
                        (Seq::<TypeV>::empty(), PSt { pos: st_h.pos + 1, ..st_h }),
                    ));
                    assert(types_view(params@) + Seq::<TypeV>::empty() =~= types_view(params@));
                }
                return Ok(Params { types: params });
            }
            if let Some(n) = self.consume_digit() {
                if (n as usize) >= self.memorized_types.len() {
                    proof {
                        assert(sp_read_params(s, st_h) is None);
                    }
                    return Err(Error::new(ErrorKind::BackrefOutOfRange, self.pos));
                }
                let t = clone_type(&self.memorized_types[n as usize]);
                proof {
                    assert(t@ == types_view(self.memorized_types@)[n as int]);
                    assert(self.stv() =~= PSt { pos: st_h.pos + 1, ..st_h });
                    assert(sp_read_params(s, st_h) == prepend_types(
                        seq![st_h.types[n as int]],
                        sp_read_params(s, self.stv()),
                    ));
                    lemma_prepend_types_assoc(
                        types_view(params@),
                        t@,
                        sp_read_params(s, self.stv()),
                    );
                    assert(types_view(params@.push(t)) =~= types_view(params@).push(t@));
                }
                params.push(t);
                continue ;
            }

            let pos_before = self.pos;
            let param_type = match self.read_var_type(StorageClass::empty()) {
                Ok(t) => t,
                Err(e) => {
                    proof {
                        assert(sp_read_params(s, st_h) is None);
                    }
                    return Err(e);
                },
            };
            let ghost st2 = self.stv();
            // Single-byte codes are not memorized: a backreference to one
            // would save nothing.
            if self.pos - pos_before > 1 {
                self.memorize_type(&param_type);
            }
            proof {
                assert(moved(s, st_h, st2));
                assert(self.stv() == if st2.pos - st_h.pos > 1 {
                    sp_memorize_type(st2, param_type@)
                } else {
                    st2
                });
                assert(sp_read_params(s, st_h) == prepend_types(
                    seq![param_type@],
                    sp_read_params(s, self.stv()),
                ));
                lemma_prepend_types_assoc(
                    types_view(params@),
                    param_type@,
                    sp_read_params(s, self.stv()),
                );
                assert(types_view(params@.push(param_type)) =~= types_view(params@).push(
                    param_type@,
                ));
            }
            params.push(param_type);
        }
    }

    /// Reads a function parameter list: a bare `X` means `(void)`; the list
    /// is closed by `Z`.
    pub fn read_func_params(&mut self) -> (r: Result<Params>)
        requires
            old(self).wf(),
        ensures
            steps(*old(self), *final(self)),
            r is Ok ==> final(self).pos > old(self).pos,
            pin_params(
                sp_read_func_params(old(self).input@, old(self).stv()),
                r,
                final(self).stv(),
            ),
        decreases self.input@.len() - self.pos, 3int,
    {
        let ghost s = self.input@;
        let ghost st0 = self.stv();
        if self.consume_b(88) {  // 'X'
            proof {
                assert(self.stv() =~= PSt { pos: st0.pos + 1, ..st0 });
            }
            let ghost st1 = self.stv();
            let mut types: Vec<Type> = Vec::new();
            types.push(Type::Void(StorageClass::empty()));
            self.expect_b(90)?;  // 'Z'
            proof {
                assert(self.stv() =~= PSt { pos: st1.pos + 1, ..st1 });
                assert(types_view(types@) =~= seq![TypeV::Void(StorageClass::spec_empty())]);
            }
            Ok(Params { types })
        } else {
            let params = self.read_params()?;
            let ghost st2 = self.stv();
            self.expect_b(90)?;  // 'Z'
            proof {
                assert(self.stv() =~= PSt { pos: st2.pos + 1, ..st2 });
            }
            Ok(params)
        }
    }
}


// ---------------------------------------------------------------------------
// The parsing model: what each reader returns and consumes, exactly
// ---------------------------------------------------------------------------

/// The mathematical parser state: the cursor and the two backreference
/// tables, as values.
#[verifier::ext_equal]
pub struct PSt {
    pub pos: int,
    pub names: Seq<NameV>,
    pub types: Seq<TypeV>,
}

impl ParserState {
    /// The mathematical value of this parser state.
    pub open spec fn stv(self) -> PSt {
        PSt {
            pos: self.pos as int,
            names: names_view(self.memorized_names@),
            types: types_view(self.memorized_types@),
        }
    }
}

/// One byte of lookahead matches.
pub open spec fn can1(s: Seq<u8>, p: int, c: u8) -> bool {
    p < s.len() && s[p] == c
}

/// Two bytes of lookahead match.
pub open spec fn can2(s: Seq<u8>, p: int, c0: u8, c1: u8) -> bool {
    p + 1 < s.len() && s[p] == c0 && s[p + 1] == c1
}

/// Three bytes of lookahead match.
pub open spec fn can3(s: Seq<u8>, p: int, c0: u8, c1: u8, c2: u8) -> bool {
    p + 2 < s.len() && s[p] == c0 && s[p + 1] == c1 && s[p + 2] == c2
}

/// The cursor moved forward and stayed inside the input.
pub open spec fn moved(s: Seq<u8>, pre: PSt, post: PSt) -> bool {
    pre.pos < post.pos && post.pos <= s.len()
}

/// A decimal accumulation step, wrapping past 32 bits.
pub open spec fn dec_push(acc: u32, d: u8) -> u32 {
    ((acc * 10 + d) % 0x1_0000_0000) as u32
}

/// The digits of a thread-safe-static guard number, closed by `@`.
pub open spec fn sp_tss_digits(s: Seq<u8>, p: int, acc: u32) -> Option<(u32, int)>
    decreases s.len() - p,
    when 0 <= p <= s.len()
{
    if can1(s, p, 64) {
        Some((acc, p + 1))
    } else if p < s.len() && is_digit_b(s[p]) {
        sp_tss_digits(s, p + 1, dec_push(acc, (s[p] - 48) as u8))
    } else {
        None
    }
}

/// True of an ASCII hex digit of either case.
pub open spec fn is_hex_digit_any(b: u8) -> bool {
    is_digit_b(b) || (65 <= b && b <= 70) || (97 <= b && b <= 102)
}

/// The position after a run of ASCII hex digits of either case.
pub open spec fn sp_skip_hex(s: Seq<u8>, p: int) -> int
    decreases s.len() - p,
    when 0 <= p <= s.len()
{
    if p < s.len() && is_hex_digit_any(s[p]) {
        sp_skip_hex(s, p + 1)
    } else {
        p
    }
}

/// The operator selected by the escape bytes at `p`, with the position
/// after it.
pub open spec fn sp_read_operator_name(s: Seq<u8>, p: int) -> Option<(Op, int)> {
    if p >= s.len() {
        None
    } else {
        let c = s[p];
        if c == 48 {
            Some((Op::Ctor, p + 1))
        } else if c == 49 {
            Some((Op::Dtor, p + 1))
        } else if c == 50 {
            Some((Op::New, p + 1))
        } else if c == 51 {
            Some((Op::Delete, p + 1))
        } else if c == 52 {
            Some((Op::Assign, p + 1))
        } else if c == 53 {
            Some((Op::Shr, p + 1))
        } else if c == 54 {
            Some((Op::Shl, p + 1))
        } else if c == 55 {
            Some((Op::LogicalNot, p + 1))
        } else if c == 56 {
            Some((Op::Equal, p + 1))
        } else if c == 57 {
            Some((Op::NotEqual, p + 1))
        } else if c == 65 {
            Some((Op::Subscript, p + 1))
        } else if c == 66 {
            Some((Op::Cast, p + 1))
        } else if c == 67 {
            Some((Op::Arrow, p + 1))
        } else if c == 68 {
            Some((Op::Star, p + 1))
        } else if c == 69 {
            Some((Op::Increment, p + 1))
        } else if c == 70 {
            Some((Op::Decrement, p + 1))
        } else if c == 71 {
            Some((Op::Minus, p + 1))
        } else if c == 72 {
            Some((Op::Plus, p + 1))
        } else if c == 73 {
            Some((Op::Amp, p + 1))
        } else if c == 74 {
            Some((Op::ArrowStar, p + 1))
        } else if c == 75 {
            Some((Op::Divide, p + 1))
        } else if c == 76 {
            Some((Op::Modulus, p + 1))
        } else if c == 77 {
            Some((Op::Less, p + 1))
        } else if c == 78 {
            Some((Op::LessEqual, p + 1))
        } else if c == 79 {
            Some((Op::Greater, p + 1))
        } else if c == 80 {
            Some((Op::GreaterEqual, p + 1))
        } else if c == 81 {
            Some((Op::Comma, p + 1))
        } else if c == 82 {
            Some((Op::Call, p + 1))
        } else if c == 83 {
            Some((Op::Tilde, p + 1))
        } else if c == 84 {
            Some((Op::Caret, p + 1))
        } else if c == 85 {
            Some((Op::Pipe, p + 1))
        } else if c == 86 {
            Some((Op::LogicalAnd, p + 1))
        } else if c == 87 {
            Some((Op::LogicalOr, p + 1))
        } else if c == 88 {
            Some((Op::StarAssign, p + 1))
        } else if c == 89 {
            Some((Op::PlusAssign, p + 1))
        } else if c == 90 {
            Some((Op::MinusAssign, p + 1))
        } else if c == 95 {
            sp_read_extended_operator(s, p + 1)
        } else {
            None
        }
    }
}

/// The operator selected by the byte after `_` in an extended escape.
pub open spec fn sp_read_extended_operator(s: Seq<u8>, p: int) -> Option<(Op, int)> {
    if p >= s.len() {
        None
    } else {
        let d = s[p];
        if d == 48 {
            Some((Op::DivideAssign, p + 1))
        } else if d == 49 {
            Some((Op::ModulusAssign, p + 1))
        } else if d == 50 {
            Some((Op::ShrAssign, p + 1))
        } else if d == 51 {
            Some((Op::ShlAssign, p + 1))
        } else if d == 52 {
            Some((Op::AmpAssign, p + 1))
        } else if d == 53 {
            Some((Op::PipeAssign, p + 1))
        } else if d == 54 {
            Some((Op::CaretAssign, p + 1))
        } else if d == 55 {
            Some((Op::VFTable, p + 1))
        } else if d == 56 {
            Some((Op::VBTable, p + 1))
        } else if d == 57 {
            Some((Op::VCall, p + 1))
        } else if d == 65 {
            Some((Op::Typeof, p + 1))
        } else if d == 66 {
            Some((Op::LocalStaticGuard, p + 1))
        } else if d == 68 {
            Some((Op::VBaseDtor, p + 1))
        } else if d == 69 {
            Some((Op::VectorDeletingDtor, p + 1))
        } else if d == 70 {
            Some((Op::DefaultCtorClosure, p + 1))
        } else if d == 71 {
            Some((Op::ScalarDeletingDtor, p + 1))
        } else if d == 72 {
            Some((Op::VectorCtorIterator, p + 1))
        } else if d == 73 {
            Some((Op::VectorDtorIterator, p + 1))
        } else if d == 74 {
            Some((Op::VectorVBaseCtorIterator, p + 1))
        } else if d == 75 {
            Some((Op::VirtualDisplacementMap, p + 1))
        } else if d == 76 {
            Some((Op::EHVectorCtorIterator, p + 1))
        } else if d == 77 {
            Some((Op::EHVectorDtorIterator, p + 1))
        } else if d == 78 {
            Some((Op::EHVectorVBaseCtorIterator, p + 1))
        } else if d == 79 {
            Some((Op::CopyCtorClosure, p + 1))
        } else if d == 83 {
            Some((Op::LocalVFTable, p + 1))
        } else if d == 84 {
            Some((Op::LocalVFTableCtorClosure, p + 1))
        } else if d == 85 {
            Some((Op::NewArray, p + 1))
        } else if d == 86 {
            Some((Op::DeleteArray, p + 1))
        } else if d == 88 {
            Some((Op::PlacementDeleteClosure, p + 1))
        } else if d == 89 {
            Some((Op::PlacementDeleteArrayClosure, p + 1))
        } else if d == 95 {
            if can1(s, p + 1, 76) {
                Some((Op::CoAwait, p + 2))
            } else if can1(s, p + 1, 75) {
                Some((Op::LiteralOperatorName, p + 2))
            } else {
                None
            }
        } else {
            None
        }
    }
}

/// The recorded names after memorizing `n`.
pub open spec fn sp_memorize_name(st: PSt, n: NameV) -> PSt {
    if st.names.len() < 10 && !st.names.contains(n) {
        PSt { names: st.names.push(n), ..st }
    } else {
        st
    }
}

/// The recorded types after memorizing `t`.
pub open spec fn sp_memorize_type(st: PSt, t: TypeV) -> PSt {
    if st.types.len() < 10 && !st.types.contains(t) {
        PSt { types: st.types.push(t), ..st }
    } else {
        st
    }
}

/// The member-function class at byte `c`, together with its thunk
/// adjustment if it carries one.
pub open spec fn sp_read_func_class(s: Seq<u8>, st: PSt, c: u8) -> Option<(FuncClass, PSt)> {
    match func_class_of(c) {
        None => None,
        Some(fc) => {
            if is_thunk_code(c) {
                match spec_number(s, st.pos) {
                    None => None,
                    Some((v, p)) => Some((fc, PSt { pos: p, ..st })),
                }
            } else {
                Some((fc, st))
            }
        },
    }
}

/// The optional `?`-prefixed storage class of a return type.
pub open spec fn sp_read_storage_class_for_return(s: Seq<u8>, st: PSt) -> Option<(
    StorageClass,
    PSt,
)> {
    if !can1(s, st.pos, 63) {
        Some((StorageClass::spec_empty(), st))
    } else if st.pos + 1 < s.len() {
        match qualifier_of(s[st.pos + 1]) {
            Some(sc) => Some((sc, PSt { pos: st.pos + 2, ..st })),
            None => None,
        }
    } else {
        None
    }
}

/// The optional qualifier byte at the cursor.
pub open spec fn sp_read_qualifier(s: Seq<u8>, st: PSt) -> (StorageClass, PSt) {
    if st.pos < s.len() {
        match qualifier_of(s[st.pos]) {
            Some(sc) => (sc, PSt { pos: st.pos + 1, ..st }),
            None => (StorageClass::spec_empty(), st),
        }
    } else {
        (StorageClass::spec_empty(), st)
    }
}

/// The optional variable storage-class byte at the cursor.
pub open spec fn sp_read_storage_class(s: Seq<u8>, st: PSt) -> (StorageClass, PSt) {
    if st.pos < s.len() {
        match storage_class_of(s[st.pos]) {
            Some(sc) => (sc, PSt { pos: st.pos + 1, ..st }),
            None => (StorageClass::spec_empty(), st),
        }
    } else {
        (StorageClass::spec_empty(), st)
    }
}

/// The calling convention at the cursor.
pub open spec fn sp_read_calling_conv(s: Seq<u8>, st: PSt) -> Option<(CallingConv, PSt)> {
    if st.pos < s.len() {
        match cc_of(s[st.pos]) {
            Some(cc) => Some((cc, PSt { pos: st.pos + 1, ..st })),
            None => None,
        }
    } else {
        None
    }
}

/// What `parse` returns and consumes on any input, or `None` when the input
/// is rejected for any reason.
pub open spec fn sp_parse(s: Seq<u8>, st: PSt) -> Option<(ParseResultV, PSt)>
    decreases s.len() - st.pos, 4int,
    when 0 <= st.pos <= s.len()
{
    if !can1(s, st.pos, 63) {
        None
    } else {
        let p1 = st.pos + 1;
        if can1(s, p1, 36) {
            sp_parse_special(s, PSt { pos: p1 + 1, ..st })
        } else {
            match sp_read_name(s, PSt { pos: p1, ..st }, true) {
                None => None,
                Some((sym, st2)) => {
                    if !moved(s, st, st2) {
                        None
                    } else {
                        match sp_parse_encoding(s, st2) {
                            None => None,
                            Some((t, st3)) => Some(
                                (ParseResultV { symbol: sym, symbol_type: t }, st3),
                            ),
                        }
                    }
                },
            }
        }
    }
}

/// The `$`-prefixed special forms after `?$`: a thread-safe-static guard,
/// or a bare template name with no type encoding.
pub open spec fn sp_parse_special(s: Seq<u8>, st: PSt) -> Option<(ParseResultV, PSt)>
    decreases s.len() - st.pos, 3int,
    when 0 <= st.pos <= s.len()
{
    if can3(s, st.pos, 84, 83, 83) {
        let p3 = st.pos + 3;
        if p3 < s.len() && is_digit_b(s[p3]) {
            match sp_tss_digits(s, p3 + 1, ((s[p3] - 48) as u8) as u32) {
                None => None,
                Some((acc, p4)) => {
                    let st4 = PSt { pos: p4, ..st };
                    if !moved(s, st, st4) {
                        None
                    } else {
                        match sp_read_nested_name(s, st4) {
                            None => None,
                            Some((n, st5)) => {
                                if !moved(s, st, st5) {
                                    None
                                } else {
                                    match sp_read_scope(s, st5) {
                                        None => None,
                                        Some((ns, st6)) => {
                                            if can3(s, st6.pos, 52, 72, 65) {
                                                Some(
                                                    (
                                                        ParseResultV {
                                                            symbol: SymbolV { name: n, scope: ns },
                                                            symbol_type:
                                                                TypeV::ThreadSafeStaticGuard(
                                                                to_i32_val(acc),
                                                            ),
                                                        },
                                                        PSt { pos: st6.pos + 3, ..st6 },
                                                    ),
                                                )
                                            } else {
                                                None
                                            }
                                        },
                                    }
                                }
                            },
                        }
                    }
                },
            }
        } else {
            None
        }
    } else {
        match sp_read_template_name(s, st) {
            None => None,
            Some((n, st2)) => Some(
                (
                    ParseResultV {
                        symbol: SymbolV { name: n, scope: Seq::empty() },
                        symbol_type: TypeV::NoType,
                    },
                    st2,
                ),
            ),
        }
    }
}

/// The type encoding that follows a parsed symbol name: absent at the end
/// of input, else a variable, a virtual table, or a function signature.
pub open spec fn sp_parse_encoding(s: Seq<u8>, st: PSt) -> Option<(TypeV, PSt)>
    decreases s.len() - st.pos, 3int,
    when 0 <= st.pos <= s.len()
{
    if st.pos >= s.len() {
        Some((TypeV::NoType, st))
    } else {
        let c = s[st.pos];
        let st3 = PSt { pos: st.pos + 1, ..st };
        if 48 <= c && c <= 53 {
            sp_read_var_type(s, StorageClass::spec_empty(), st3)
        } else if c == 54 {
            let (ac, st4) = sp_read_qualifier(s, st3);
            match sp_read_scope(s, st4) {
                None => None,
                Some((ns, st5)) => Some((TypeV::CXXVFTable(ns, ac), st5)),
            }
        } else if c == 55 {
            let (ac, st4) = sp_read_qualifier(s, st3);
            match sp_read_scope(s, st4) {
                None => None,
                Some((ns, st5)) => Some((TypeV::CXXVBTable(ns, ac), st5)),
            }
        } else if c == 89 {
            sp_read_non_member_function(s, st3)
        } else {
            sp_read_member_function(s, st3, c)
        }
    }
}

/// The signature of a non-member function, after its `Y` discriminator.
pub open spec fn sp_read_non_member_function(s: Seq<u8>, st: PSt) -> Option<(TypeV, PSt)>
    decreases s.len() - st.pos, 3int,
    when 0 <= st.pos <= s.len()
{
    match sp_read_calling_conv(s, st) {
        None => None,
        Some((cc, st4)) => match sp_read_storage_class_for_return(s, st4) {
            None => None,
            Some((scr, st5)) => match sp_read_var_type(s, scr, st5) {
                None => None,
                Some((ret, st6)) => {
                    if !moved(s, st, st6) {
                        None
                    } else {
                        match sp_read_func_params(s, st6) {
                            None => None,
                            Some((ps, st7)) => Some(
                                (
                                    TypeV::NonMemberFunction(
                                        cc,
                                        ps,
                                        StorageClass::spec_empty(),
                                        Box::new(ret),
                                    ),
                                    st7,
                                ),
                            ),
                        }
                    }
                },
            },
        },
    }
}

/// The `this` access qualifier of a member function: absent for static
/// members, else an optional 64-bit marker then a qualifier byte.
pub open spec fn sp_read_access(s: Seq<u8>, st: PSt, is_static: bool) -> (StorageClass, PSt) {
    if is_static {
        (StorageClass::spec_empty(), st)
    } else {
        let ste = if can1(s, st.pos, 69) {
            PSt { pos: st.pos + 1, ..st }
        } else {
            st
        };
        sp_read_qualifier(s, ste)
    }
}

/// The signature of a member function, after its class byte `c`.
pub open spec fn sp_read_member_function(s: Seq<u8>, st: PSt, c: u8) -> Option<(TypeV, PSt)>
    decreases s.len() - st.pos, 3int,
    when 0 <= st.pos <= s.len()
{
    match sp_read_func_class(s, st, c) {
        None => None,
        Some((fc, st4)) => {
            if !(st.pos <= st4.pos <= s.len()) {
                None
            } else {
                let (ac, st5) = sp_read_access(s, st4, fc.is_static);
                match sp_read_calling_conv(s, st5) {
                    None => None,
                    Some((cc, st6)) => match sp_read_storage_class_for_return(s, st6) {
                        None => None,
                        Some((scr, st7)) => {
                            if !moved(s, st, st7) {
                                None
                            } else {
                                match sp_read_func_return_type(s, scr, st7) {
                                    None => None,
                                    Some((ret, st8)) => {
                                        if !moved(s, st, st8) {
                                            None
                                        } else {
                                            match sp_read_func_params(s, st8) {
                                                None => None,
                                                Some((ps, st9)) => Some(
                                                    (
                                                        TypeV::MemberFunction(
                                                            fc,
                                                            cc,
                                                            ps,
                                                            ac,
                                                            Box::new(ret),
                                                        ),
                                                        st9,
                                                    ),
                                                ),
                                            }
                                        }
                                    },
                                }
                            }
                        },
                    },
                }
            }
        },
    }
}

/// What a template name read returns: the base name and arguments are read
/// against fresh tables, and the caller's tables come back unchanged.
pub open spec fn sp_read_template_name(s: Seq<u8>, st: PSt) -> Option<(NameV, PSt)>
    decreases s.len() - st.pos, 2int,
    when 0 <= st.pos <= s.len()
{
    let fresh = PSt { pos: st.pos, names: Seq::empty(), types: Seq::empty() };
    match sp_read_unqualified_name(s, fresh, false) {
        None => None,
        Some((n, st2)) => {
            if !moved(s, st, st2) {
                None
            } else {
                match sp_read_params(s, st2) {
                    None => None,
                    Some((ps, st3)) => Some(
                        (
                            NameV::Template(Box::new(n), ps),
                            PSt { pos: st3.pos, names: st.names, types: st.types },
                        ),
                    ),
                }
            }
        },
    }
}

/// What a nested-name read returns and consumes.
pub open spec fn sp_read_nested_name(s: Seq<u8>, st: PSt) -> Option<(NameV, PSt)>
    decreases s.len() - st.pos, 1int,
    when 0 <= st.pos <= s.len()
{
    if st.pos < s.len() && is_digit_b(s[st.pos]) {
        let d = (s[st.pos] - 48) as int;
        if d >= st.names.len() {
            None
        } else {
            Some((st.names[d], PSt { pos: st.pos + 1, ..st }))
        }
    } else if can1(s, st.pos, 63) {
        let p1 = st.pos + 1;
        if can1(s, p1, 63) {
            match sp_parse(s, PSt { pos: p1, ..st }) {
                None => None,
                Some((pr, st2)) => Some((NameV::ParsedName(Box::new(pr)), st2)),
            }
        } else if can1(s, p1, 36) {
            match sp_read_template_name(s, PSt { pos: p1 + 1, ..st }) {
                None => None,
                Some((n, st2)) => Some((n, sp_memorize_name(st2, n))),
            }
        } else if can1(s, p1, 65) {
            let p2 = p1 + 1;
            let p3 = if can2(s, p2, 48, 120) {
                sp_skip_hex(s, p2 + 2)
            } else {
                p2
            };
            if can1(s, p3, 64) {
                Some((NameV::AnonymousNamespace, PSt { pos: p3 + 1, ..st }))
            } else {
                None
            }
        } else {
            match spec_number(s, p1) {
                None => None,
                Some((v, p)) => Some((NameV::Discriminator(v), PSt { pos: p, ..st })),
            }
        }
    } else {
        let k = find_at(s, st.pos);
        if k >= 0 {
            let n = NameV::NonTemplate(s.subrange(st.pos, k));
            Some((n, sp_memorize_name(PSt { pos: k + 1, ..st }, n)))
        } else {
            None
        }
    }
}

/// What an unqualified-name read returns and consumes.
pub open spec fn sp_read_unqualified_name(s: Seq<u8>, st: PSt, function: bool) -> Option<(
    NameV,
    PSt,
)>
    decreases s.len() - st.pos, 1int,
    when 0 <= st.pos <= s.len()
{
    if st.pos < s.len() && is_digit_b(s[st.pos]) {
        let d = (s[st.pos] - 48) as int;
        if d >= st.names.len() {
            None
        } else {
            Some((st.names[d], PSt { pos: st.pos + 1, ..st }))
        }
    } else if can2(s, st.pos, 63, 36) {
        match sp_read_template_name(s, PSt { pos: st.pos + 2, ..st }) {
            None => None,
            Some((n, st2)) => {
                if function {
                    Some((n, st2))
                } else {
                    Some((n, sp_memorize_name(st2, n)))
                }
            },
        }
    } else if can1(s, st.pos, 63) {
        match sp_read_operator_name(s, st.pos + 1) {
            None => None,
            Some((op, p)) => Some((NameV::Operator(op), PSt { pos: p, ..st })),
        }
    } else {
        let k = find_at(s, st.pos);
        if k >= 0 {
            let n = NameV::NonTemplate(s.subrange(st.pos, k));
            Some((n, sp_memorize_name(PSt { pos: k + 1, ..st }, n)))
        } else {
            None
        }
    }
}

/// What a scope read returns: nested names until the terminating `@`.
pub open spec fn sp_read_scope(s: Seq<u8>, st: PSt) -> Option<(Seq<NameV>, PSt)>
    decreases s.len() - st.pos, 2int,
    when 0 <= st.pos <= s.len()
{
    if can1(s, st.pos, 64) {
        Some((Seq::empty(), PSt { pos: st.pos + 1, ..st }))
    } else {
        match sp_read_nested_name(s, st) {
            None => None,
            Some((n, st2)) => {
                if !moved(s, st, st2) {
                    None
                } else {
                    match sp_read_scope(s, st2) {
                        None => None,
                        Some((ns, st3)) => Some((seq![n] + ns, st3)),
                    }
                }
            },
        }
    }
}

/// What a qualified-name read returns; a constructor or destructor without
/// an enclosing name is rejected.
pub open spec fn sp_read_name(s: Seq<u8>, st: PSt, function: bool) -> Option<(SymbolV, PSt)>
    decreases s.len() - st.pos, 2int,
    when 0 <= st.pos <= s.len()
{
    match sp_read_unqualified_name(s, st, function) {
        None => None,
        Some((n, st2)) => {
            if !moved(s, st, st2) {
                None
            } else {
                match sp_read_scope(s, st2) {
                    None => None,
                    Some((ns, st3)) => {
                        if (n == NameV::Operator(Op::Ctor) || n == NameV::Operator(Op::Dtor))
                            && ns.len() == 0 {
                            None
                        } else {
                            Some((SymbolV { name: n, scope: ns }, st3))
                        }
                    },
                }
            }
        },
    }
}

/// What a function-type read returns and consumes.
pub open spec fn sp_read_func_type(s: Seq<u8>, st: PSt) -> Option<(TypeV, PSt)>
    decreases s.len() - st.pos, 0int,
    when 0 <= st.pos <= s.len()
{
    match sp_read_calling_conv(s, st) {
        None => None,
        Some((cc, st2)) => match sp_read_var_type(s, StorageClass::spec_empty(), st2) {
            None => None,
            Some((ret, st3)) => {
                if !moved(s, st, st3) {
                    None
                } else {
                    match sp_read_func_params(s, st3) {
                        None => None,
                        Some((ps, st4)) => Some(
                            (
                                TypeV::NonMemberFunction(
                                    cc,
                                    ps,
                                    StorageClass::spec_empty(),
                                    Box::new(ret),
                                ),
                                st4,
                            ),
                        ),
                    }
                }
            },
        },
    }
}

/// What a return-type read returns; a bare `@` stands for none.
pub open spec fn sp_read_func_return_type(s: Seq<u8>, sc: StorageClass, st: PSt) -> Option<(
    TypeV,
    PSt,
)>
    decreases s.len() - st.pos, 2int,
    when 0 <= st.pos <= s.len()
{
    if can1(s, st.pos, 64) {
        Some((TypeV::NoType, PSt { pos: st.pos + 1, ..st }))
    } else {
        sp_read_var_type(s, sc, st)
    }
}

/// What a pointee read returns: optional 64-bit marker, storage class,
/// then the pointed-to type.
pub open spec fn sp_read_pointee(s: Seq<u8>, st: PSt) -> Option<(TypeV, PSt)>
    decreases s.len() - st.pos, 2int,
    when 0 <= st.pos <= s.len()
{
    let st1 = if can1(s, st.pos, 69) {
        PSt { pos: st.pos + 1, ..st }
    } else {
        st
    };
    let (sc, st2) = sp_read_storage_class(s, st1);
    sp_read_var_type(s, sc, st2)
}

/// What an array read returns: a positive dimension count, then lengths.
pub open spec fn sp_read_array(s: Seq<u8>, st: PSt) -> Option<(TypeV, PSt)>
    decreases s.len() - st.pos, 0int,
    when 0 <= st.pos <= s.len()
{
    match spec_number(s, st.pos) {
        None => None,
        Some((dim, p)) => {
            if !(st.pos < p <= s.len()) {
                None
            } else if dim <= 0 {
                None
            } else {
                sp_read_nested_array(s, PSt { pos: p, ..st }, dim)
            }
        },
    }
}

/// What the recursive array-length read returns: the length wrappers carry
/// no qualifier; the optional `$$C` qualifier goes to the innermost
/// element type only.
pub open spec fn sp_read_nested_array(s: Seq<u8>, st: PSt, dim: int) -> Option<(TypeV, PSt)>
    decreases s.len() - st.pos, 2int, dim,
    when 0 <= st.pos <= s.len()
{
    if dim > 0 {
        match spec_number(s, st.pos) {
            None => None,
            Some((len_v, p)) => {
                if !(st.pos < p <= s.len()) {
                    None
                } else {
                    match sp_read_nested_array(s, PSt { pos: p, ..st }, dim - 1) {
                        None => None,
                        Some((inner, st2)) => Some(
                            (
                                TypeV::Array(len_v, Box::new(inner), StorageClass::spec_empty()),
                                st2,
                            ),
                        ),
                    }
                }
            },
        }
    } else {
        if can3(s, st.pos, 36, 36, 67) {
            let p = st.pos + 3;
            if can1(s, p, 66) {
                sp_read_var_type(s, StorageClass::spec_cvf(true, false, false), PSt {
                    pos: p + 1,
                    ..st
                })
            } else if can1(s, p, 67) {
                sp_read_var_type(s, StorageClass::spec_cvf(true, true, false), PSt {
                    pos: p + 1,
                    ..st
                })
            } else if can1(s, p, 68) {
                sp_read_var_type(s, StorageClass::spec_cvf(true, true, false), PSt {
                    pos: p + 1,
                    ..st
                })
            } else if can1(s, p, 65) {
                sp_read_var_type(s, StorageClass::spec_empty(), PSt { pos: p + 1, ..st })
            } else {
                None
            }
        } else {
            sp_read_var_type(s, StorageClass::spec_empty(), st)
        }
    }
}

/// What a parameter-list read returns: types until `@`, a trailing `Z`
/// (varargs), or the end of input, with backreferences resolved and
/// multi-byte encodings memorized.
pub open spec fn sp_read_params(s: Seq<u8>, st: PSt) -> Option<(Seq<TypeV>, PSt)>
    decreases s.len() - st.pos, 2int,
    when 0 <= st.pos <= s.len()
{
    if st.pos >= s.len() {
        Some((Seq::empty(), st))
    } else if s[st.pos] == 90 {
        Some((seq![TypeV::VarArgs], PSt { pos: st.pos + 1, ..st }))
    } else if s[st.pos] == 64 {
        Some((Seq::empty(), PSt { pos: st.pos + 1, ..st }))
    } else if is_digit_b(s[st.pos]) {
        let d = (s[st.pos] - 48) as int;
        if d >= st.types.len() {
            None
        } else {
            match sp_read_params(s, PSt { pos: st.pos + 1, ..st }) {
                None => None,
                Some((rest, st2)) => Some((seq![st.types[d]] + rest, st2)),
            }
        }
    } else {
        match sp_read_var_type(s, StorageClass::spec_empty(), st) {
            None => None,
            Some((t, st2)) => {
                if !moved(s, st, st2) {
                    None
                } else {
                    let st3 = if st2.pos - st.pos > 1 {
                        sp_memorize_type(st2, t)
                    } else {
                        st2
                    };
                    match sp_read_params(s, st3) {
                        None => None,
                        Some((rest, st4)) => Some((seq![t] + rest, st4)),
                    }
                }
            },
        }
    }
}

/// What a function parameter-list read returns: a bare `X` means `(void)`;
/// the list is closed by `Z`.
pub open spec fn sp_read_func_params(s: Seq<u8>, st: PSt) -> Option<(Seq<TypeV>, PSt)>
    decreases s.len() - st.pos, 3int,
    when 0 <= st.pos <= s.len()
{
    if can1(s, st.pos, 88) {
        let st2 = PSt { pos: st.pos + 1, ..st };
        if can1(s, st2.pos, 90) {
            Some(
                (
                    seq![TypeV::Void(StorageClass::spec_empty())],
                    PSt { pos: st2.pos + 1, ..st2 },
                ),
            )
        } else {
            None
        }
    } else {
        match sp_read_params(s, st) {
            None => None,
            Some((ps, st2)) => {
                if can1(s, st2.pos, 90) {
                    Some((ps, PSt { pos: st2.pos + 1, ..st2 }))
                } else {
                    None
                }
            },
        }
    }
}

/// What a member-function-pointer read (after `P8`) returns and consumes.
pub open spec fn sp_read_member_fn_ptr(s: Seq<u8>, st: PSt) -> Option<(TypeV, PSt)>
    decreases s.len() - st.pos, 2int,
    when 0 <= st.pos <= s.len()
{
    match sp_read_unqualified_name(s, st, true) {
        None => None,
        Some((n, st2)) => {
            if !moved(s, st, st2) {
                None
            } else if !can1(s, st2.pos, 64) {
                None
            } else if !can1(s, st2.pos + 1, 69) {
                None
            } else {
                let (ac, st3) = sp_read_qualifier(s, PSt { pos: st2.pos + 2, ..st2 });
                match sp_read_calling_conv(s, st3) {
                    None => None,
                    Some((cc, st4)) => match sp_read_storage_class_for_return(s, st4) {
                        None => None,
                        Some((scr, st5)) => {
                            if !moved(s, st, st5) {
                                None
                            } else {
                                match sp_read_func_return_type(s, scr, st5) {
                                    None => None,
                                    Some((ret, st6)) => {
                                        if !moved(s, st, st6) {
                                            None
                                        } else {
                                            match sp_read_func_params(s, st6) {
                                                None => None,
                                                Some((ps, st7)) => Some(
                                                    (
                                                        TypeV::MemberFunctionPointer(
                                                            Box::new(n),
                                                            ps,
                                                            ac,
                                                            Box::new(ret),
                                                        ),
                                                        st7,
                                                    ),
                                                ),
                                            }
                                        }
                                    },
                                }
                            }
                        },
                    },
                }
            }
        },
    }
}

/// What a variable-type read returns and consumes.
pub open spec fn sp_read_var_type(s: Seq<u8>, sc: StorageClass, st: PSt) -> Option<(TypeV, PSt)>
    decreases s.len() - st.pos, 1int,
    when 0 <= st.pos <= s.len()
{
    if can2(s, st.pos, 87, 52) {  // "W4"
        match sp_read_name(s, PSt { pos: st.pos + 2, ..st }, false) {
            None => None,
            Some((sym, st2)) => Some((TypeV::Enum(Box::new(sym), sc), st2)),
        }
    } else if can2(s, st.pos, 65, 54) {  // "A6"
        match sp_read_func_type(s, PSt { pos: st.pos + 2, ..st }) {
            None => None,
            Some((ft, st2)) => Some((TypeV::Ref(Box::new(ft), sc), st2)),
        }
    } else if can2(s, st.pos, 80, 54) {  // "P6"
        match sp_read_func_type(s, PSt { pos: st.pos + 2, ..st }) {
            None => None,
            Some((ft, st2)) => Some((TypeV::Ptr(Box::new(ft), sc), st2)),
        }
    } else if can2(s, st.pos, 80, 56) {  // "P8"
        sp_read_member_fn_ptr(s, PSt { pos: st.pos + 2, ..st })
    } else if can1(s, st.pos, 36) {  // '$'
        sp_read_dollar(s, sc, PSt { pos: st.pos + 1, ..st })
    } else {
        sp_read_var_type_tail(s, sc, st)
    }
}

/// The `$`-prefixed type forms, read after their leading `$`.
pub open spec fn sp_read_dollar(s: Seq<u8>, sc: StorageClass, st: PSt) -> Option<(TypeV, PSt)>
    decreases s.len() - st.pos, 1int,
    when 0 <= st.pos <= s.len()
{
    if can1(s, st.pos, 48) {  // "$0"
        match spec_number(s, st.pos + 1) {
            None => None,
            Some((v, p)) => Some((TypeV::Constant(v), PSt { pos: p, ..st })),
        }
    } else if can1(s, st.pos, 68) {  // "$D"
        match spec_number(s, st.pos + 1) {
            None => None,
            Some((v, p)) => Some((TypeV::TemplateParameterWithIndex(v), PSt { pos: p, ..st })),
        }
    } else if can3(s, st.pos, 36, 66, 89) {  // "$$BY"
        sp_read_array(s, PSt { pos: st.pos + 3, ..st })
    } else if can2(s, st.pos, 36, 81) {  // "$$Q"
        match sp_read_pointee(s, PSt { pos: st.pos + 2, ..st }) {
            None => None,
            Some((pt, st2)) => Some((TypeV::RValueRef(Box::new(pt), sc), st2)),
        }
    } else {
        let (sc2, stc) = if can2(s, st.pos, 36, 67) {  // "$$C"
            sp_read_qualifier(s, PSt { pos: st.pos + 2, ..st })
        } else {
            (sc, st)
        };
        if can2(s, stc.pos, 36, 86) {  // "$$V"
            Some((TypeV::EmptyParameterPack, PSt { pos: stc.pos + 2, ..stc }))
        } else if can2(s, stc.pos, 36, 84) {  // "$$T"
            Some((TypeV::Nullptr, PSt { pos: stc.pos + 2, ..stc }))
        } else if can3(s, stc.pos, 36, 65, 54) {  // "$$A6"
            sp_read_func_type(s, PSt { pos: stc.pos + 3, ..stc })
        } else {
            sp_read_var_type_tail(s, sc2, stc)
        }
    }
}

/// The tail of a variable-type read: a negated template parameter, a
/// backreferenced type, or a single dispatch byte.
pub open spec fn sp_read_var_type_tail(s: Seq<u8>, sc: StorageClass, st: PSt) -> Option<(
    TypeV,
    PSt,
)>
    decreases s.len() - st.pos, 0int,
    when 0 <= st.pos <= s.len()
{
    if can1(s, st.pos, 63) {  // '?'
        match spec_number(s, st.pos + 1) {
            None => None,
            Some((v, p)) => Some(
                (TypeV::TemplateParameterWithIndex(neg_wrap(v)), PSt { pos: p, ..st }),
            ),
        }
    } else if st.pos < s.len() && is_digit_b(s[st.pos]) {
        let d = (s[st.pos] - 48) as int;
        if d >= st.types.len() {
            None
        } else {
            Some((st.types[d], PSt { pos: st.pos + 1, ..st }))
        }
    } else if st.pos >= s.len() {
        None
    } else {
        let c = s[st.pos];
        let st1 = PSt { pos: st.pos + 1, ..st };
        if c == 84 {  // 'T'
            match sp_read_name(s, st1, false) {
                None => None,
                Some((sym, st2)) => Some((TypeV::Union(Box::new(sym), sc), st2)),
            }
        } else if c == 85 {  // 'U'
            match sp_read_name(s, st1, false) {
                None => None,
                Some((sym, st2)) => Some((TypeV::Struct(Box::new(sym), sc), st2)),
            }
        } else if c == 86 {  // 'V'
            match sp_read_name(s, st1, false) {
                None => None,
                Some((sym, st2)) => Some((TypeV::Class(Box::new(sym), sc), st2)),
            }
        } else if c == 65 {  // 'A'
            match sp_read_pointee(s, st1) {
                None => None,
                Some((pt, st2)) => Some((TypeV::Ref(Box::new(pt), sc), st2)),
            }
        } else if c == 66 {  // 'B'
            match sp_read_pointee(s, st1) {
                None => None,
                Some((pt, st2)) => Some(
                    (TypeV::Ref(Box::new(pt), StorageClass::spec_cvf(false, true, false)), st2),
                ),
            }
        } else if c == 80 {  // 'P'
            match sp_read_pointee(s, st1) {
                None => None,
                Some((pt, st2)) => Some((TypeV::Ptr(Box::new(pt), sc), st2)),
            }
        } else if c == 81 {  // 'Q'
            match sp_read_pointee(s, st1) {
                None => None,
                Some((pt, st2)) => Some(
                    (TypeV::Ptr(Box::new(pt), StorageClass::spec_cvf(true, false, false)), st2),
                ),
            }
        } else if c == 82 {  // 'R'
            match sp_read_pointee(s, st1) {
                None => None,
                Some((pt, st2)) => Some(
                    (TypeV::Ptr(Box::new(pt), StorageClass::spec_cvf(false, true, false)), st2),
                ),
            }
        } else if c == 83 {  // 'S'
            match sp_read_pointee(s, st1) {
                None => None,
                Some((pt, st2)) => Some(
                    (TypeV::Ptr(Box::new(pt), StorageClass::spec_cvf(true, true, false)), st2),
                ),
            }
        } else if c == 89 {  // 'Y'
            sp_read_array(s, st1)
        } else if c == 88 {  // 'X'
            Some((TypeV::Void(sc), st1))
        } else if c == 68 {  // 'D'
            Some((TypeV::Char(sc), st1))
        } else if c == 67 {  // 'C'
            Some((TypeV::Schar(sc), st1))
        } else if c == 69 {  // 'E'
            Some((TypeV::Uchar(sc), st1))
        } else if c == 70 {  // 'F'
            Some((TypeV::Short(sc), st1))
        } else if c == 71 {  // 'G'
            Some((TypeV::Ushort(sc), st1))
        } else if c == 72 {  // 'H'
            Some((TypeV::Int(sc), st1))
        } else if c == 73 {  // 'I'
            Some((TypeV::Uint(sc), st1))
        } else if c == 74 {  // 'J'
            Some((TypeV::Long(sc), st1))
        } else if c == 75 {  // 'K'
            Some((TypeV::Ulong(sc), st1))
        } else if c == 77 {  // 'M'
            Some((TypeV::Float(sc), st1))
        } else if c == 78 {  // 'N'
            Some((TypeV::Double(sc), st1))
        } else if c == 79 {  // 'O'
            Some((TypeV::Ldouble(sc), st1))
        } else if c == 95 {  // '_'
            if st1.pos >= s.len() {
                None
            } else {
                let d = s[st1.pos];
                let st2 = PSt { pos: st1.pos + 1, ..st1 };
                if d == 78 {  // 'N'
                    Some((TypeV::Bool(sc), st2))
                } else if d == 74 {  // 'J'
                    Some((TypeV::Int64(sc), st2))
                } else if d == 75 {  // 'K'
                    Some((TypeV::Uint64(sc), st2))
                } else if d == 87 {  // 'W'
                    Some((TypeV::Wchar(sc), st2))
                } else if d == 83 {  // 'S'
                    Some((TypeV::Char16(sc), st2))
                } else if d == 85 {  // 'U'
                    Some((TypeV::Char32(sc), st2))
                } else {
                    None
                }
            }
        } else {
            None
        }
    }
}

/// Result/state agreement between a reader and its model, for each shape
/// of value a reader returns.
pub open spec fn pin_name(o: Option<(NameV, PSt)>, r: Result<Name>, post: PSt) -> bool {
    match o {
        Some((v, st2)) => r matches Ok(x) && nview(x) == v && post == st2,
        None => r is Err,
    }
}

pub open spec fn pin_symbol(o: Option<(SymbolV, PSt)>, r: Result<Symbol>, post: PSt) -> bool {
    match o {
        Some((v, st2)) => r matches Ok(x) && symview(x) == v && post == st2,
        None => r is Err,
    }
}

pub open spec fn pin_type(o: Option<(TypeV, PSt)>, r: Result<Type>, post: PSt) -> bool {
    match o {
        Some((v, st2)) => r matches Ok(x) && tview(x) == v && post == st2,
        None => r is Err,
    }
}

pub open spec fn pin_scope(o: Option<(Seq<NameV>, PSt)>, r: Result<NameSequence>, post: PSt) -> bool {
    match o {
        Some((v, st2)) => r matches Ok(x) && names_view(x.names@) == v && post == st2,
        None => r is Err,
    }
}

pub open spec fn pin_params(o: Option<(Seq<TypeV>, PSt)>, r: Result<Params>, post: PSt) -> bool {
    match o {
        Some((v, st2)) => r matches Ok(x) && types_view(x.types@) == v && post == st2,
        None => r is Err,
    }
}

pub open spec fn pin_parse(o: Option<(ParseResultV, PSt)>, r: Result<ParseResult>, post: PSt) -> bool {
    match o {
        Some((v, st2)) => r matches Ok(x) && prview(x) == v && post == st2,
        None => r is Err,
    }
}

/// Prepends already-collected entries to a model result.
pub open spec fn prepend_names(c: Seq<NameV>, o: Option<(Seq<NameV>, PSt)>) -> Option<(
    Seq<NameV>,
    PSt,
)> {
    match o {
        Some((ns, st)) => Some((c + ns, st)),
        None => None,
    }
}

/// Prepends already-collected entries to a model result.
pub open spec fn prepend_types(c: Seq<TypeV>, o: Option<(Seq<TypeV>, PSt)>) -> Option<(
    Seq<TypeV>,
    PSt,
)> {
    match o {
        Some((ts, st)) => Some((c + ts, st)),
        None => None,
    }
}

proof fn lemma_prepend_names_assoc(c: Seq<NameV>, n: NameV, o: Option<(Seq<NameV>, PSt)>)
    ensures
        prepend_names(c, prepend_names(seq![n], o)) == prepend_names(c.push(n), o),
{
    match o {
        Some((ns, st)) => {
            assert(c + (seq![n] + ns) =~= c.push(n) + ns);
        },
        None => {},
    }
}

proof fn lemma_prepend_types_assoc(c: Seq<TypeV>, t: TypeV, o: Option<(Seq<TypeV>, PSt)>)
    ensures
        prepend_types(c, prepend_types(seq![t], o)) == prepend_types(c.push(t), o),
{
    match o {
        Some((ts, st)) => {
            assert(c + (seq![t] + ts) =~= c.push(t) + ts);
        },
        None => {},
    }
}

} // verus!
