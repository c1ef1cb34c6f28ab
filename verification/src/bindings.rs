//! Touching up the declarations that are generated from the backend's
//! headers.
//!
//! The generator leaves a few structs without the traits that they could
//! have. [`add_missing_derives`] writes the missing line in front of each of
//! them. The generator is also given the paths of the headers without the
//! four bytes that the platform puts in front of a resolved path;
//! [`header_argument`] cuts them off.
use vstd::prelude::*;
use vstd::string::StringSliceAdditionalSpecFns;
use vstd::utf8::is_char_boundary;
use crate::label::text_bytes;

verus! {

/// Whether `text` goes on with `pattern` from its first byte.
pub open spec fn starts_with(text: Seq<u8>, pattern: Seq<u8>) -> bool {
    pattern.len() <= text.len() && text.subrange(0, pattern.len() as int) == pattern
}

/// Whether `pattern` stands in `text` at the index `at`.
pub open spec fn occurs_at(text: Seq<u8>, pattern: Seq<u8>, at: int) -> bool {
    0 <= at <= text.len() && starts_with(text.skip(at), pattern)
}

/// `text` with `replacement` in the place of every occurrence of `pattern`.
/// Occurrences are found from left to right, and the search goes on behind
/// an occurrence that was found: occurrences do not overlap, and what was
/// put in is not searched again.
pub open spec fn replaced(text: Seq<u8>, pattern: Seq<u8>, replacement: Seq<u8>) -> Seq<u8>
    recommends
        pattern.len() > 0,
    decreases text.len(),
{
    if pattern.len() == 0 || text.len() == 0 {
        text
    } else if starts_with(text, pattern) {
        replacement + replaced(text.skip(pattern.len() as int), pattern, replacement)
    } else {
        seq![text[0]] + replaced(text.skip(1), pattern, replacement)
    }
}

/// A text in which the pattern stands nowhere is left as it is.
pub proof fn lemma_nothing_to_replace(text: Seq<u8>, pattern: Seq<u8>, replacement: Seq<u8>)
    requires
        pattern.len() > 0,
        forall|at: int| !occurs_at(text, pattern, at),
    ensures
        replaced(text, pattern, replacement) == text,
    decreases text.len(),
{
    if text.len() > 0 {
        assert(!occurs_at(text, pattern, 0));
        assert(text.skip(0) =~= text);
        let rest = text.skip(1);
        assert forall|at: int| !occurs_at(rest, pattern, at) by {
            if 0 <= at <= rest.len() {
                assert(!occurs_at(text, pattern, at + 1));
                assert(rest.skip(at) =~= text.skip(at + 1));
            }
        }
        lemma_nothing_to_replace(rest, pattern, replacement);
        assert(seq![text[0]] + rest =~= text);
    }
}

/// Replacing a pattern by itself changes nothing.
pub proof fn lemma_replace_by_itself(text: Seq<u8>, pattern: Seq<u8>)
    requires
        pattern.len() > 0,
    ensures
        replaced(text, pattern, pattern) == text,
    decreases text.len(),
{
    if text.len() > 0 {
        if starts_with(text, pattern) {
            lemma_replace_by_itself(text.skip(pattern.len() as int), pattern);
            assert(pattern + text.skip(pattern.len() as int) =~= text);
        } else {
            lemma_replace_by_itself(text.skip(1), pattern);
            assert(seq![text[0]] + text.skip(1) =~= text);
        }
    }
}

/// Whether `text` goes on with `pattern` from the index `at`.
fn matches_at(text: &[u8], pattern: &[u8], at: usize) -> (found: bool)
    requires
        at <= text@.len(),
    ensures
        found == occurs_at(text@, pattern@, at as int),
{
    if pattern.len() > text.len() - at {
        return false;
    }
    let ghost rest = text@.skip(at as int);
    let mut k: usize = 0;
    while k < pattern.len()
        invariant
            k <= pattern@.len(),
            at + pattern@.len() <= text@.len() <= usize::MAX,
            rest == text@.skip(at as int),
            forall|j: int| 0 <= j < k ==> text@[at + j] == pattern@[j],
        decreases pattern@.len() - k,
    {
        if text[at + k] != pattern[k] {
            assert(rest.subrange(0, pattern@.len() as int)[k as int] != pattern@[k as int]);
            return false;
        }
        k += 1;
    }
    assert(rest.subrange(0, pattern@.len() as int) =~= pattern@);
    true
}

/// Copies `text` and puts `replacement` in the place of every occurrence of
/// `pattern`, which must not be empty.
pub fn replace_all(text: &[u8], pattern: &[u8], replacement: &[u8]) -> (out: Vec<u8>)
    requires
        pattern@.len() > 0,
    ensures
        out@ == replaced(text@, pattern@, replacement@),
{
    let mut out: Vec<u8> = Vec::new();
    let mut at: usize = 0;
    assert(text@.skip(0) =~= text@);
    assert(out@ + replaced(text@, pattern@, replacement@) =~= replaced(
        text@,
        pattern@,
        replacement@,
    ));
    while at < text.len()
        invariant
            at <= text@.len(),
            pattern@.len() > 0,
            out@ + replaced(text@.skip(at as int), pattern@, replacement@) == replaced(
                text@,
                pattern@,
                replacement@,
            ),
        decreases text@.len() - at,
    {
        let ghost rest = text@.skip(at as int);
        let ghost before = out@;
        if matches_at(text, pattern, at) {
            let mut k: usize = 0;
            while k < replacement.len()
                invariant
                    k <= replacement@.len(),
                    out@ == before + replacement@.subrange(0, k as int),
                decreases replacement@.len() - k,
            {
                out.push(replacement[k]);
                assert(out@ =~= before + replacement@.subrange(0, k + 1));
                k += 1;
            }
            assert(replacement@.subrange(0, replacement@.len() as int) =~= replacement@);
            at += pattern.len();
            assert(rest.skip(pattern@.len() as int) =~= text@.skip(at as int));
            assert(out@ + replaced(text@.skip(at as int), pattern@, replacement@) =~= before
                + replaced(rest, pattern@, replacement@));
        } else {
            out.push(text[at]);
            at += 1;
            assert(rest.skip(1) =~= text@.skip(at as int));
            assert(out@ + replaced(text@.skip(at as int), pattern@, replacement@) =~= before
                + replaced(rest, pattern@, replacement@));
        }
    }
    assert(text@.skip(at as int) =~= Seq::<u8>::empty());
    assert(out@ + Seq::<u8>::empty() =~= out@);
    out
}

/// The bytes that open the declaration of the struct `name`.
pub open spec fn declaration_of(name: Seq<u8>) -> Seq<u8> {
    text_bytes("pub struct "@) + name
}

/// The bytes that open the declaration of the struct `name` once it derives
/// `Clone`, `Copy` and `Debug`: the deriving line, then the declaration.
pub open spec fn derived_declaration_of(name: Seq<u8>) -> Seq<u8> {
    text_bytes("#[derive(Clone, Copy, Debug)]\n"@) + declaration_of(name)
}

/// `bindings` with the deriving line in front of every declaration of a
/// struct whose name starts with `name`.
pub open spec fn with_derives_for(bindings: Seq<u8>, name: Seq<u8>) -> Seq<u8> {
    replaced(bindings, declaration_of(name), derived_declaration_of(name))
}

/// Declarations in which no such struct is declared stay as they are.
pub proof fn lemma_no_declaration_no_change(bindings: Seq<u8>, name: Seq<u8>)
    requires
        forall|at: int| !occurs_at(bindings, declaration_of(name), at),
    ensures
        with_derives_for(bindings, name) == bindings,
{
    lemma_opening_words();
    lemma_nothing_to_replace(bindings, declaration_of(name), derived_declaration_of(name));
}

/// The words that open a declaration are not empty.
proof fn lemma_opening_words()
    ensures
        text_bytes("pub struct "@).len() > 0,
{
    reveal_strlit("pub struct ");
    let words = "pub struct "@;
    assert(words.len() > 0);
    assert(text_bytes(words) == vstd::utf8::encode_scalar(words[0] as u32) + text_bytes(
        words.drop_first(),
    ));
}

/// Adds `tail` to the end of `bytes`.
fn extend(bytes: &mut Vec<u8>, tail: &[u8])
    ensures
        final(bytes)@ == old(bytes)@ + tail@,
{
    let mut k: usize = 0;
    while k < tail.len()
        invariant
            k <= tail@.len(),
            bytes@ == old(bytes)@ + tail@.subrange(0, k as int),
        decreases tail@.len() - k,
    {
        bytes.push(tail[k]);
        assert(bytes@ =~= old(bytes)@ + tail@.subrange(0, k + 1));
        k += 1;
    }
    assert(tail@.subrange(0, tail@.len() as int) =~= tail@);
}

/// Writes the deriving line in front of every declaration of a struct whose
/// name starts with `name`.
pub fn add_derives_for(bindings: &[u8], name: &str) -> (out: Vec<u8>)
    ensures
        out@ == with_derives_for(bindings@, text_bytes(name@)),
{
    let mut plain: Vec<u8> = Vec::new();
    extend(&mut plain, "pub struct ".as_bytes());
    extend(&mut plain, name.as_bytes());
    let mut derived: Vec<u8> = Vec::new();
    extend(&mut derived, "#[derive(Clone, Copy, Debug)]\n".as_bytes());
    extend(&mut derived, plain.as_slice());
    proof {
        lemma_opening_words();
        assert(plain@ =~= declaration_of(text_bytes(name@)));
        assert(derived@ =~= derived_declaration_of(text_bytes(name@)));
    }
    replace_all(bindings, plain.as_slice(), derived.as_slice())
}

/// Writes the deriving line in front of the two structs that the generator
/// leaves without it: first the map of inputs, then the style.
pub fn add_missing_derives(bindings: &str) -> (out: Vec<u8>)
    ensures
        out@ == with_derives_for(
            with_derives_for(text_bytes(bindings@), text_bytes("ImPlotInputMap"@)),
            text_bytes("ImPlotStyle"@),
        ),
{
    let first = add_derives_for(bindings.as_bytes(), "ImPlotInputMap");
    add_derives_for(first.as_slice(), "ImPlotStyle")
}

/// The path of a header as the generator takes it: `path` without its first
/// four bytes.
///
/// The fourth byte of `path` must end a character.
pub fn header_argument(path: &str) -> (argument: &str)
    requires
        is_char_boundary(path.spec_bytes(), 4),
    ensures
        argument.spec_bytes() == path.spec_bytes().subrange(4, path.spec_bytes().len() as int),
{
    path.split_at(4).1
}

} // verus!
