use vstd::prelude::*;
use vstd::utf8::*;
use crate::lookup::{gettext, ngettext, plain_lookup, plural_lookup};
use crate::marshal::{
    decoded, has_nul_char, lemma_contains_concat, lemma_round_trip, lemma_utf8_ascii, text_of,
    ArgName, MarshalError,
};

verus! {

/// Joins a context and a message id into the id that a catalog files
/// context-qualified entries under.
pub const CONTEXT_SEPARATOR: char = '\x04';

/// The id under which a catalog holds `s` in the context `ctx`.
pub open spec fn context_id(ctx: Seq<char>, s: Seq<char>) -> Seq<char> {
    ctx + seq![CONTEXT_SEPARATOR] + s
}

/// A lookup of a context-qualified id that came back with the separator in it
/// found no entry under that context.
pub open spec fn needs_fallback(t: Result<Seq<char>, MarshalError>) -> bool {
    t matches Ok(x) && x.contains(CONTEXT_SEPARATOR)
}

/// What a context lookup of `s` in `ctx` through `native` may give: the
/// translation of the context-qualified id when the catalog has one, else the
/// plain translation of `s`.
pub open spec fn context_lookup<F: Fn(Vec<u8>) -> Vec<u8>>(
    native: &F,
    ctx: Seq<char>,
    s: Seq<char>,
    r: Result<Seq<char>, MarshalError>,
) -> bool {
    if has_nul_char(ctx) {
        r == Err::<Seq<char>, MarshalError>(MarshalError::InteriorNul(ArgName::Ctx))
    } else {
        exists|t: Result<Seq<char>, MarshalError>|
            #![trigger plain_lookup(native, context_id(ctx, s), t)]
            plain_lookup(native, context_id(ctx, s), t) && if needs_fallback(t) {
                plain_lookup(native, s, r)
            } else {
                r == t
            }
    }
}

/// What a plural context lookup of `singular` / `plural` in `ctx` for the
/// cardinality `n` through `native` may give.
pub open spec fn plural_context_lookup<F: Fn(Vec<u8>, Vec<u8>, u32) -> Vec<u8>>(
    native: &F,
    ctx: Seq<char>,
    singular: Seq<char>,
    plural: Seq<char>,
    n: u32,
    r: Result<Seq<char>, MarshalError>,
) -> bool {
    if has_nul_char(ctx) {
        r == Err::<Seq<char>, MarshalError>(MarshalError::InteriorNul(ArgName::Ctx))
    } else {
        exists|t: Result<Seq<char>, MarshalError>|
            #![trigger plural_lookup(native, context_id(ctx, singular), context_id(ctx, plural), n, t)]
            plural_lookup(native, context_id(ctx, singular), context_id(ctx, plural), n, t)
                && if needs_fallback(t) {
                plural_lookup(native, singular, plural, n, r)
            } else {
                r == t
            }
    }
}

/// A context-qualified id holds a nul exactly where its parts do, and always
/// holds the separator.
proof fn lemma_context_id_nul(ctx: Seq<char>, s: Seq<char>)
    ensures
        has_nul_char(context_id(ctx, s)) <==> has_nul_char(ctx) || has_nul_char(s),
        context_id(ctx, s).contains(CONTEXT_SEPARATOR),
{
    lemma_contains_concat(ctx + seq![CONTEXT_SEPARATOR], s, '\0');
    lemma_contains_concat(ctx, seq![CONTEXT_SEPARATOR], '\0');
    lemma_contains_concat(ctx, seq![CONTEXT_SEPARATOR], CONTEXT_SEPARATOR);
    lemma_contains_concat(ctx + seq![CONTEXT_SEPARATOR], s, CONTEXT_SEPARATOR);
    assert(seq![CONTEXT_SEPARATOR][0] == CONTEXT_SEPARATOR);
    assert(!seq![CONTEXT_SEPARATOR].contains('\0'));
}

/// Relies on `String::push`: appends one character.
#[verifier::external_body]
fn push_char(s: &mut String, c: char)
    ensures
        final(s)@ == old(s)@.push(c),
{
    s.push(c)
}

/// Relies on `String::push_str`: appends the characters of `t`.
#[verifier::external_body]
fn push_str(s: &mut String, t: &str)
    ensures
        final(s)@ == old(s)@ + t@,
{
    s.push_str(t)
}

/// Whether `s` holds the character of the ASCII code `k`.
fn contains_ascii(s: &str, k: u8) -> (r: bool)
    requires
        k < 0x80,
    ensures
        r == s@.contains(k as char),
{
    let b = s.as_bytes();
    let mut i: usize = 0;
    while i < b.len()
        invariant
            i <= b@.len(),
            k < 0x80,
            b@ == encode_utf8(s@),
            forall|j: int| 0 <= j < i ==> b@[j] != k,
        decreases b@.len() - i,
    {
        if b[i] == k {
            proof {
                lemma_utf8_ascii(s@, k);
            }
            return true;
        }
        i = i + 1;
    }
    proof {
        lemma_utf8_ascii(s@, k);
    }
    false
}

/// The id under which a catalog holds `s` in the context `ctx`.
pub fn build_context_id(ctx: &str, s: &str) -> (r: String)
    ensures
        r@ == context_id(ctx@, s@),
{
    let mut r = ctx.to_owned();
    push_char(&mut r, CONTEXT_SEPARATOR);
    push_str(&mut r, s);
    r
}

/// Rejects a context that holds a nul character.
fn check_ctx(ctx: &str) -> (r: Result<(), MarshalError>)
    ensures
        r is Err <==> has_nul_char(ctx@),
        r is Err ==> r == Err::<(), MarshalError>(MarshalError::InteriorNul(ArgName::Ctx)),
{
    if contains_ascii(ctx, 0u8) {
        Err(MarshalError::InteriorNul(ArgName::Ctx))
    } else {
        Ok(())
    }
}

/// Translates `s` in the grammatical context `ctx`, in the current domain.
/// `native` is the plain native lookup.
pub fn pgettext<F: Fn(Vec<u8>) -> Vec<u8>>(ctx: &str, s: &str, native: &F) -> (r: Result<
    String,
    MarshalError,
>)
    requires
        forall|a: Vec<u8>| native.requires((a,)),
    ensures
        context_lookup(native, ctx@, s@, text_of(r)),
        has_nul_char(ctx@) ==> r == Err::<String, MarshalError>(MarshalError::InteriorNul(ArgName::Ctx)),
        !has_nul_char(ctx@) && has_nul_char(s@) ==> r == Err::<String, MarshalError>(
            MarshalError::InteriorNul(ArgName::S),
        ),
{
    check_ctx(ctx)?;
    let text = build_context_id(ctx, s);
    proof {
        lemma_context_id_nul(ctx@, s@);
    }
    let trans = gettext(text.as_str(), native);
    assert(plain_lookup(native, context_id(ctx@, s@), text_of(trans)));
    let trans = trans?;
    if contains_ascii(trans.as_str(), 4u8) {
        return gettext(s, native);
    }
    Ok(trans)
}

/// Translates `singular` / `plural` for the cardinality `n` in the
/// grammatical context `ctx`, in the current domain. `native` is the plural
/// native lookup.
pub fn npgettext<F: Fn(Vec<u8>, Vec<u8>, u32) -> Vec<u8>>(
    ctx: &str,
    singular: &str,
    plural: &str,
    n: u32,
    native: &F,
) -> (r: Result<String, MarshalError>)
    requires
        forall|a: Vec<u8>, b: Vec<u8>, k: u32| native.requires((a, b, k)),
    ensures
        plural_context_lookup(native, ctx@, singular@, plural@, n, text_of(r)),
        has_nul_char(ctx@) ==> r == Err::<String, MarshalError>(MarshalError::InteriorNul(ArgName::Ctx)),
        !has_nul_char(ctx@) && has_nul_char(singular@) ==> r == Err::<String, MarshalError>(
            MarshalError::InteriorNul(ArgName::Singular),
        ),
        !has_nul_char(ctx@) && !has_nul_char(singular@) && has_nul_char(plural@) ==> r == Err::<
            String,
            MarshalError,
        >(MarshalError::InteriorNul(ArgName::Plural)),
{
    check_ctx(ctx)?;
    let singular_ctx = build_context_id(ctx, singular);
    let plural_ctx = build_context_id(ctx, plural);
    proof {
        lemma_context_id_nul(ctx@, singular@);
        lemma_context_id_nul(ctx@, plural@);
    }
    let trans = ngettext(singular_ctx.as_str(), plural_ctx.as_str(), n, native);
    assert(plural_lookup(
        native,
        context_id(ctx@, singular@),
        context_id(ctx@, plural@),
        n,
        text_of(trans),
    ));
    let trans = trans?;
    if contains_ascii(trans.as_str(), 4u8) {
        return ngettext(singular, plural, n, native);
    }
    Ok(trans)
}

/// When the catalog has no entry for `s` under `ctx`, the native lookup hands
/// the context-qualified id back unchanged, and a context lookup gives what a
/// plain lookup of `s` gives.
pub proof fn lemma_context_untranslated<F: Fn(Vec<u8>) -> Vec<u8>>(
    native: &F,
    ctx: Seq<char>,
    s: Seq<char>,
    r: Result<Seq<char>, MarshalError>,
)
    requires
        !has_nul_char(ctx),
        !has_nul_char(s),
        forall|a: Vec<u8>, t: Vec<u8>|
            #![trigger native.ensures((a,), t)]
            native.ensures((a,), t) && a@ == crate::marshal::c_buffer(encode_utf8(context_id(ctx, s)))
                ==> t@ == a@,
        context_lookup(native, ctx, s, r),
    ensures
        plain_lookup(native, s, r),
{
    let cid = context_id(ctx, s);
    lemma_context_id_nul(ctx, s);
    lemma_round_trip(ArgName::S, cid);
    let t = choose|t: Result<Seq<char>, MarshalError>|
        #![trigger plain_lookup(native, cid, t)]
        plain_lookup(native, cid, t) && if needs_fallback(t) {
            plain_lookup(native, s, r)
        } else {
            r == t
        };
    assert(t == Ok::<Seq<char>, MarshalError>(cid));
}

/// When the catalog translates `s` under `ctx` as `x`, which holds no
/// separator, a context lookup gives `x`.
pub proof fn lemma_context_translated<F: Fn(Vec<u8>) -> Vec<u8>>(
    native: &F,
    ctx: Seq<char>,
    s: Seq<char>,
    x: Seq<char>,
    r: Result<Seq<char>, MarshalError>,
)
    requires
        !has_nul_char(ctx),
        !has_nul_char(s),
        !x.contains(CONTEXT_SEPARATOR),
        forall|a: Vec<u8>, t: Vec<u8>|
            #![trigger native.ensures((a,), t)]
            native.ensures((a,), t) && a@ == crate::marshal::c_buffer(encode_utf8(context_id(ctx, s)))
                ==> decoded(t@) == Ok::<Seq<char>, MarshalError>(x),
        context_lookup(native, ctx, s, r),
    ensures
        r == Ok::<Seq<char>, MarshalError>(x),
{
    let cid = context_id(ctx, s);
    lemma_context_id_nul(ctx, s);
    let t = choose|t: Result<Seq<char>, MarshalError>|
        #![trigger plain_lookup(native, cid, t)]
        plain_lookup(native, cid, t) && if needs_fallback(t) {
            plain_lookup(native, s, r)
        } else {
            r == t
        };
    assert(t == Ok::<Seq<char>, MarshalError>(x));
}

/// The plural form of the untranslated case: with no entry under `ctx`, the
/// native lookup hands back the context-qualified id of the form it picks, and
/// a plural context lookup gives what a plain plural lookup gives, for every
/// cardinality.
pub proof fn lemma_plural_context_untranslated<F: Fn(Vec<u8>, Vec<u8>, u32) -> Vec<u8>>(
    native: &F,
    ctx: Seq<char>,
    singular: Seq<char>,
    plural: Seq<char>,
    n: u32,
    r: Result<Seq<char>, MarshalError>,
)
    requires
        !has_nul_char(ctx),
        !has_nul_char(singular),
        !has_nul_char(plural),
        forall|a: Vec<u8>, b: Vec<u8>, t: Vec<u8>|
            #![trigger native.ensures((a, b, n), t)]
            native.ensures((a, b, n), t) && a@ == crate::marshal::c_buffer(
                encode_utf8(context_id(ctx, singular)),
            ) && b@ == crate::marshal::c_buffer(encode_utf8(context_id(ctx, plural))) ==> t@ == a@
                || t@ == b@,
        plural_context_lookup(native, ctx, singular, plural, n, r),
    ensures
        plural_lookup(native, singular, plural, n, r),
{
    let cs = context_id(ctx, singular);
    let cp = context_id(ctx, plural);
    lemma_context_id_nul(ctx, singular);
    lemma_context_id_nul(ctx, plural);
    lemma_round_trip(ArgName::S, cs);
    lemma_round_trip(ArgName::S, cp);
    let t = choose|t: Result<Seq<char>, MarshalError>|
        #![trigger plural_lookup(native, cs, cp, n, t)]
        plural_lookup(native, cs, cp, n, t) && if needs_fallback(t) {
            plural_lookup(native, singular, plural, n, r)
        } else {
            r == t
        };
    assert(t == Ok::<Seq<char>, MarshalError>(cs) || t == Ok::<Seq<char>, MarshalError>(cp));
}

/// The plural form of the translated case: when the catalog gives `x`, which
/// holds no separator, for the context-qualified ids at the cardinality `n`, a
/// plural context lookup gives `x`.
pub proof fn lemma_plural_context_translated<F: Fn(Vec<u8>, Vec<u8>, u32) -> Vec<u8>>(
    native: &F,
    ctx: Seq<char>,
    singular: Seq<char>,
    plural: Seq<char>,
    n: u32,
    x: Seq<char>,
    r: Result<Seq<char>, MarshalError>,
)
    requires
        !has_nul_char(ctx),
        !has_nul_char(singular),
        !has_nul_char(plural),
        !x.contains(CONTEXT_SEPARATOR),
        forall|a: Vec<u8>, b: Vec<u8>, t: Vec<u8>|
            #![trigger native.ensures((a, b, n), t)]
            native.ensures((a, b, n), t) && a@ == crate::marshal::c_buffer(
                encode_utf8(context_id(ctx, singular)),
            ) && b@ == crate::marshal::c_buffer(encode_utf8(context_id(ctx, plural))) ==> decoded(
                t@,
            ) == Ok::<Seq<char>, MarshalError>(x),
        plural_context_lookup(native, ctx, singular, plural, n, r),
    ensures
        r == Ok::<Seq<char>, MarshalError>(x),
{
    let cs = context_id(ctx, singular);
    let cp = context_id(ctx, plural);
    lemma_context_id_nul(ctx, singular);
    lemma_context_id_nul(ctx, plural);
    let t = choose|t: Result<Seq<char>, MarshalError>|
        #![trigger plural_lookup(native, cs, cp, n, t)]
        plural_lookup(native, cs, cp, n, t) && if needs_fallback(t) {
            plural_lookup(native, singular, plural, n, r)
        } else {
            r == t
        };
    assert(t == Ok::<Seq<char>, MarshalError>(x));
}

} // verus!
