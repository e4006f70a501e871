//! Decisions of the ahead-of-time backend that do not need LLVM itself.
use vstd::prelude::*;

pub mod access;
pub mod arithmetic;
pub mod backend;
pub mod bindings;
pub mod bodies;
pub mod builtins;
pub mod calls;
pub mod closures;
pub mod collect;
pub mod compare;
pub mod constructors;
pub mod emission;
pub mod errors;
pub mod functions;
pub mod generics;
pub mod globals;
pub mod helpers;
pub mod intrinsics;
pub mod ir;
pub mod llvm;
pub mod loops;
pub mod members;
pub mod methods;
pub mod object;
pub mod printing;
pub mod read_back;
pub mod runtime;
pub mod exits;
pub mod scopes;
pub mod statements;
pub mod structs;
pub mod templates;
pub mod type_debug;
pub mod type_parser;
pub mod types;

use crate::text::{
    chars_eq, chars_of, find_char, find_char_from, find_seq, find_seq_from, lemma_find_char_from,
    lemma_find_char_from_at, lemma_find_seq_prefix,
    lemma_find_seq_from, push_chars, seq_starts_with, slice_chars, starts_with, string_from_chars,
};

verus! {

pub open spec fn word_unknown() -> Seq<char> {
    seq!['u', 'n', 'k', 'n', 'o', 'w', 'n']
}

pub open spec fn word_darwin() -> Seq<char> {
    seq!['d', 'a', 'r', 'w', 'i', 'n']
}

pub open spec fn word_macos() -> Seq<char> {
    seq!['m', 'a', 'c', 'o', 's']
}

pub open spec fn word_ios() -> Seq<char> {
    seq!['i', 'o', 's']
}

pub open spec fn word_arm64() -> Seq<char> {
    seq!['a', 'r', 'm', '6', '4']
}

pub open spec fn word_aarch64() -> Seq<char> {
    seq!['a', 'a', 'r', 'c', 'h', '6', '4']
}

/// The text after the first `-` of `t` (empty when there is none).
pub open spec fn after_first_dash(t: Seq<char>) -> Seq<char> {
    let d = find_char_from(t, '-', 0);
    if d >= t.len() {
        Seq::empty()
    } else {
        t.subrange(d + 1, t.len() as int)
    }
}

/// The architecture field: the text before the first `-`.
pub open spec fn triple_arch(t: Seq<char>) -> Seq<char> {
    t.subrange(0, find_char_from(t, '-', 0))
}

/// The vendor field: the text between the first and second `-`, or
/// `unknown` when the triple has no `-` at all.
pub open spec fn triple_vendor(t: Seq<char>) -> Seq<char> {
    if find_char_from(t, '-', 0) >= t.len() {
        word_unknown()
    } else {
        let a = after_first_dash(t);
        a.subrange(0, find_char_from(a, '-', 0))
    }
}

/// Everything after the second `-` (empty when there is no second `-`).
pub open spec fn triple_rest(t: Seq<char>) -> Seq<char> {
    after_first_dash(after_first_dash(t))
}

/// The operating-system field: cut just after the first `darwin`; `macos…`
/// and `ios…` become `darwin`; nothing becomes `unknown`.
pub open spec fn normalize_os(rest: Seq<char>) -> Seq<char> {
    match find_seq_from(rest, word_darwin(), 0) {
        Some(p) => rest.subrange(0, p + 6),
        None => if seq_starts_with(rest, word_macos()) || seq_starts_with(rest, word_ios()) {
            word_darwin()
        } else if rest.len() == 0 {
            word_unknown()
        } else {
            rest
        },
    }
}

/// `arm64` is spelled `aarch64`; other architectures are kept.
pub open spec fn normalize_arch(arch: Seq<char>) -> Seq<char> {
    if arch == word_arm64() {
        word_aarch64()
    } else {
        arch
    }
}

/// The normalised target triple `arch-vendor-os`.
pub open spec fn normalized_triple(t: Seq<char>) -> Seq<char> {
    normalize_arch(triple_arch(t)) + seq!['-'] + triple_vendor(t) + seq!['-'] + normalize_os(
        triple_rest(t),
    )
}

fn chars_after_first_dash(t: &[char]) -> (r: Vec<char>)
    ensures
        r@ == after_first_dash(t@),
{
    let d = find_char(t, '-', 0);
    proof {
        lemma_find_char_from(t@, '-', 0);
    }
    if d >= t.len() {
        Vec::new()
    } else {
        slice_chars(t, d + 1, t.len())
    }
}

/// Rewrites a target triple to the `arch-vendor-os` form that LLVM expects:
/// `arm64` becomes `aarch64`, the OS is cut after `darwin` (so the Darwin
/// version is dropped), `macos`/`ios` become `darwin`, and missing fields
/// become `unknown`.
pub fn normalize_target_triple(triple: &str) -> (r: String)
    ensures
        r@ == normalized_triple(triple@),
{
    let cs = chars_of(triple);
    let d1 = find_char(cs.as_slice(), '-', 0);
    proof {
        lemma_find_char_from(cs@, '-', 0);
    }
    let arch = slice_chars(cs.as_slice(), 0, d1);
    let after = chars_after_first_dash(cs.as_slice());
    let vendor: Vec<char> = if d1 >= cs.len() {
        vec!['u', 'n', 'k', 'n', 'o', 'w', 'n']
    } else {
        let d2 = find_char(after.as_slice(), '-', 0);
        proof {
            lemma_find_char_from(after@, '-', 0);
        }
        slice_chars(after.as_slice(), 0, d2)
    };
    let rest = chars_after_first_dash(after.as_slice());
    let darwin: Vec<char> = vec!['d', 'a', 'r', 'w', 'i', 'n'];
    let macos: Vec<char> = vec!['m', 'a', 'c', 'o', 's'];
    let ios: Vec<char> = vec!['i', 'o', 's'];
    let os: Vec<char> = match find_seq(rest.as_slice(), darwin.as_slice()) {
        Some(p) => {
            proof {
                lemma_find_seq_from(rest@, darwin@, 0);
            }
            slice_chars(rest.as_slice(), 0, p + 6)
        },
        None => {
            if starts_with(rest.as_slice(), macos.as_slice()) || starts_with(
                rest.as_slice(),
                ios.as_slice(),
            ) {
                darwin
            } else if rest.len() == 0 {
                vec!['u', 'n', 'k', 'n', 'o', 'w', 'n']
            } else {
                rest
            }
        },
    };
    let arm64: Vec<char> = vec!['a', 'r', 'm', '6', '4'];
    let mut out: Vec<char> = if chars_eq(arch.as_slice(), arm64.as_slice()) {
        vec!['a', 'a', 'r', 'c', 'h', '6', '4']
    } else {
        arch
    };
    out.push('-');
    let mut i: usize = 0;
    let ghost head = out@;
    while i < vendor.len()
        invariant
            i <= vendor@.len(),
            out@ == head + vendor@.subrange(0, i as int),
        decreases vendor@.len() - i,
    {
        out.push(vendor[i]);
        i = i + 1;
        assert(out@ =~= head + vendor@.subrange(0, i as int));
    }
    out.push('-');
    let mut s = string_from_chars(out.as_slice());
    push_chars(&mut s, os.as_slice());
    assert(vendor@.subrange(0, vendor@.len() as int) =~= vendor@);
    assert(s@ =~= normalized_triple(triple@));
    s
}

proof fn lemma_normalize_os_idempotent(r: Seq<char>)
    ensures
        normalize_os(normalize_os(r)) == normalize_os(r),
{
    let d = word_darwin();
    let o = normalize_os(r);
    match find_seq_from(r, d, 0) {
        Some(p) => {
            lemma_find_seq_from(r, d, 0);
            lemma_find_seq_prefix(r, d, 0, p + 6);
            assert(o.subrange(0, p + 6) =~= o);
        },
        None => {
            if seq_starts_with(r, word_macos()) || seq_starts_with(r, word_ios()) {
                assert(d.subrange(0, 6) =~= d);
                assert(find_seq_from(d, d, 0) == Some(0int));
                assert(o.subrange(0, 6) =~= o);
            } else if r.len() == 0 {
                let u = word_unknown();
                assert(u.subrange(0, 6)[0] != d[0]);
                assert(u.subrange(1, 7)[0] != d[0]);
                assert(find_seq_from(u, d, 2) is None);
                assert(find_seq_from(u, d, 1) is None);
                assert(find_seq_from(u, d, 0) is None);
                assert(u.subrange(0, 5)[0] != word_macos()[0]);
                assert(u.subrange(0, 3)[0] != word_ios()[0]);
            }
        },
    }
}

/// Normalising a target triple twice gives the same triple as normalising
/// it once.
pub proof fn lemma_normalize_target_triple_idempotent(t: Seq<char>)
    ensures
        normalized_triple(normalized_triple(t)) == normalized_triple(t),
{
    let arch = triple_arch(t);
    let a = normalize_arch(arch);
    let v = triple_vendor(t);
    let o = normalize_os(triple_rest(t));
    let u = normalized_triple(t);
    let d1 = find_char_from(t, '-', 0);
    lemma_find_char_from(t, '-', 0);
    assert forall|j: int| 0 <= j < a.len() implies a[j] != '-' by {
        if arch == word_arm64() {
            assert(a == word_aarch64());
        } else {
            assert(a[j] == t[j]);
        }
    }
    if d1 < t.len() {
        let af = after_first_dash(t);
        lemma_find_char_from(af, '-', 0);
    }
    assert forall|j: int| 0 <= j < v.len() implies v[j] != '-' by {
        if d1 < t.len() {
            let af = after_first_dash(t);
            assert(v[j] == af[j]);
        }
    }
    assert(u =~= a + seq!['-'] + v + seq!['-'] + o);
    assert(u[a.len() as int] == '-');
    lemma_find_char_from_at(u, '-', 0, a.len() as int);
    assert(triple_arch(u) =~= a);
    assert(normalize_arch(a) == a) by {
        if arch == word_arm64() {
            assert(a.len() != word_arm64().len());
        }
    }
    let w = after_first_dash(u);
    assert(w =~= v + seq!['-'] + o);
    assert(w[v.len() as int] == '-');
    lemma_find_char_from_at(w, '-', 0, v.len() as int);
    assert(triple_vendor(u) =~= v);
    assert(after_first_dash(w) =~= o);
    lemma_normalize_os_idempotent(triple_rest(t));
}

} // verus!
