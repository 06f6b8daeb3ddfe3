use vstd::prelude::*;
use vstd::utf8::*;
use crate::category::LocaleCategory;
use crate::marshal::{c_buffer, decode, decoded, encode, has_nul_char, text_of, ArgName, MarshalError};

verus! {

/// What a plain lookup of `s` through `native` may give: the named error when
/// `s` holds a nul, else the decoding of what the native call returned for the
/// encoded id.
pub open spec fn plain_lookup<F: Fn(Vec<u8>) -> Vec<u8>>(
    native: &F,
    s: Seq<char>,
    r: Result<Seq<char>, MarshalError>,
) -> bool {
    if has_nul_char(s) {
        r == Err::<Seq<char>, MarshalError>(MarshalError::InteriorNul(ArgName::S))
    } else {
        exists|a: Vec<u8>, t: Vec<u8>|
            #![trigger native.ensures((a,), t)]
            a@ == c_buffer(encode_utf8(s)) && native.ensures((a,), t) && r == decoded(t@)
    }
}

/// What a plural lookup of `singular` / `plural` for the cardinality `n`
/// through `native` may give.
pub open spec fn plural_lookup<F: Fn(Vec<u8>, Vec<u8>, u32) -> Vec<u8>>(
    native: &F,
    singular: Seq<char>,
    plural: Seq<char>,
    n: u32,
    r: Result<Seq<char>, MarshalError>,
) -> bool {
    if has_nul_char(singular) {
        r == Err::<Seq<char>, MarshalError>(MarshalError::InteriorNul(ArgName::Singular))
    } else if has_nul_char(plural) {
        r == Err::<Seq<char>, MarshalError>(MarshalError::InteriorNul(ArgName::Plural))
    } else {
        exists|a: Vec<u8>, b: Vec<u8>, t: Vec<u8>|
            #![trigger native.ensures((a, b, n), t)]
            a@ == c_buffer(encode_utf8(singular)) && b@ == c_buffer(encode_utf8(plural))
                && native.ensures((a, b, n), t) && r == decoded(t@)
    }
}

/// Translates `s` in the current domain. `native` is the native entry point:
/// it takes the nul-terminated id and returns the nul-terminated translation.
pub fn gettext<F: Fn(Vec<u8>) -> Vec<u8>>(s: &str, native: &F) -> (r: Result<String, MarshalError>)
    requires
        forall|a: Vec<u8>| native.requires((a,)),
    ensures
        plain_lookup(native, s@, text_of(r)),
        has_nul_char(s@) <==> r == Err::<String, MarshalError>(MarshalError::InteriorNul(ArgName::S)),
{
    let a = encode(ArgName::S, s)?;
    let ghost av = a;
    let t = native(a);
    let r = decode(t.as_slice());
    assert(native.ensures((av,), t));
    r
}

/// Translates `s` in `domain`.
pub fn dgettext<F: Fn(Vec<u8>, Vec<u8>) -> Vec<u8>>(domain: &str, s: &str, native: &F) -> (r:
    Result<String, MarshalError>)
    requires
        forall|d: Vec<u8>, a: Vec<u8>| native.requires((d, a)),
    ensures
        has_nul_char(domain@) ==> r == Err::<String, MarshalError>(
            MarshalError::InteriorNul(ArgName::Domain),
        ),
        !has_nul_char(domain@) && has_nul_char(s@) ==> r == Err::<String, MarshalError>(
            MarshalError::InteriorNul(ArgName::S),
        ),
        !has_nul_char(domain@) && !has_nul_char(s@) ==> exists|d: Vec<u8>, a: Vec<u8>, t: Vec<u8>|
            #![trigger native.ensures((d, a), t)]
            d@ == c_buffer(encode_utf8(domain@)) && a@ == c_buffer(encode_utf8(s@))
                && native.ensures((d, a), t) && text_of(r) == decoded(t@),
{
    let d = encode(ArgName::Domain, domain)?;
    let a = encode(ArgName::S, s)?;
    let ghost (dv, av) = (d, a);
    let t = native(d, a);
    assert(native.ensures((dv, av), t));
    decode(t.as_slice())
}

/// Translates `s` in `domain` under the locale category `category`.
pub fn dcgettext<F: Fn(Vec<u8>, Vec<u8>, i32) -> Vec<u8>>(
    domain: &str,
    s: &str,
    category: LocaleCategory,
    native: &F,
) -> (r: Result<String, MarshalError>)
    requires
        forall|d: Vec<u8>, a: Vec<u8>, c: i32| native.requires((d, a, c)),
    ensures
        has_nul_char(domain@) ==> r == Err::<String, MarshalError>(
            MarshalError::InteriorNul(ArgName::Domain),
        ),
        !has_nul_char(domain@) && has_nul_char(s@) ==> r == Err::<String, MarshalError>(
            MarshalError::InteriorNul(ArgName::S),
        ),
        !has_nul_char(domain@) && !has_nul_char(s@) ==> exists|d: Vec<u8>, a: Vec<u8>, t: Vec<u8>|
            #![trigger native.ensures((d, a, category.spec_code()), t)]
            d@ == c_buffer(encode_utf8(domain@)) && a@ == c_buffer(encode_utf8(s@))
                && native.ensures((d, a, category.spec_code()), t) && text_of(r) == decoded(t@),
{
    let d = encode(ArgName::Domain, domain)?;
    let a = encode(ArgName::S, s)?;
    let ghost (dv, av) = (d, a);
    let t = native(d, a, category.code());
    assert(native.ensures((dv, av, category.spec_code()), t));
    decode(t.as_slice())
}

/// Translates `singular`, or `plural`, as the native plural rule picks for
/// the cardinality `n`, in the current domain.
pub fn ngettext<F: Fn(Vec<u8>, Vec<u8>, u32) -> Vec<u8>>(
    singular: &str,
    plural: &str,
    n: u32,
    native: &F,
) -> (r: Result<String, MarshalError>)
    requires
        forall|a: Vec<u8>, b: Vec<u8>, k: u32| native.requires((a, b, k)),
    ensures
        plural_lookup(native, singular@, plural@, n, text_of(r)),
{
    let a = encode(ArgName::Singular, singular)?;
    let b = encode(ArgName::Plural, plural)?;
    let ghost (av, bv) = (a, b);
    let t = native(a, b, n);
    assert(native.ensures((av, bv, n), t));
    decode(t.as_slice())
}

/// Translates `singular` / `plural` for the cardinality `n` in `domain`.
pub fn dngettext<F: Fn(Vec<u8>, Vec<u8>, Vec<u8>, u32) -> Vec<u8>>(
    domain: &str,
    singular: &str,
    plural: &str,
    n: u32,
    native: &F,
) -> (r: Result<String, MarshalError>)
    requires
        forall|d: Vec<u8>, a: Vec<u8>, b: Vec<u8>, k: u32| native.requires((d, a, b, k)),
    ensures
        has_nul_char(domain@) ==> r == Err::<String, MarshalError>(
            MarshalError::InteriorNul(ArgName::Domain),
        ),
        !has_nul_char(domain@) && has_nul_char(singular@) ==> r == Err::<String, MarshalError>(
            MarshalError::InteriorNul(ArgName::Singular),
        ),
        !has_nul_char(domain@) && !has_nul_char(singular@) && has_nul_char(plural@) ==> r == Err::<
            String,
            MarshalError,
        >(MarshalError::InteriorNul(ArgName::Plural)),
        !has_nul_char(domain@) && !has_nul_char(singular@) && !has_nul_char(plural@) ==> exists|
            d: Vec<u8>,
            a: Vec<u8>,
            b: Vec<u8>,
            t: Vec<u8>,
        |
            #![trigger native.ensures((d, a, b, n), t)]
            d@ == c_buffer(encode_utf8(domain@)) && a@ == c_buffer(encode_utf8(singular@)) && b@
                == c_buffer(encode_utf8(plural@)) && native.ensures((d, a, b, n), t) && text_of(r)
                == decoded(t@),
{
    let d = encode(ArgName::Domain, domain)?;
    let a = encode(ArgName::Singular, singular)?;
    let b = encode(ArgName::Plural, plural)?;
    let ghost (dv, av, bv) = (d, a, b);
    let t = native(d, a, b, n);
    assert(native.ensures((dv, av, bv, n), t));
    decode(t.as_slice())
}

/// Translates `singular` / `plural` for the cardinality `n` in `domain` under
/// the locale category `category`.
pub fn dcngettext<F: Fn(Vec<u8>, Vec<u8>, Vec<u8>, u32, i32) -> Vec<u8>>(
    domain: &str,
    singular: &str,
    plural: &str,
    n: u32,
    category: LocaleCategory,
    native: &F,
) -> (r: Result<String, MarshalError>)
    requires
        forall|d: Vec<u8>, a: Vec<u8>, b: Vec<u8>, k: u32, c: i32| native.requires((d, a, b, k, c)),
    ensures
        has_nul_char(domain@) ==> r == Err::<String, MarshalError>(
            MarshalError::InteriorNul(ArgName::Domain),
        ),
        !has_nul_char(domain@) && has_nul_char(singular@) ==> r == Err::<String, MarshalError>(
            MarshalError::InteriorNul(ArgName::Singular),
        ),
        !has_nul_char(domain@) && !has_nul_char(singular@) && has_nul_char(plural@) ==> r == Err::<
            String,
            MarshalError,
        >(MarshalError::InteriorNul(ArgName::Plural)),
        !has_nul_char(domain@) && !has_nul_char(singular@) && !has_nul_char(plural@) ==> exists|
            d: Vec<u8>,
            a: Vec<u8>,
            b: Vec<u8>,
            t: Vec<u8>,
        |
            #![trigger native.ensures((d, a, b, n, category.spec_code()), t)]
            d@ == c_buffer(encode_utf8(domain@)) && a@ == c_buffer(encode_utf8(singular@)) && b@
                == c_buffer(encode_utf8(plural@)) && native.ensures(
                (d, a, b, n, category.spec_code()),
                t,
            ) && text_of(r) == decoded(t@),
{
    let d = encode(ArgName::Domain, domain)?;
    let a = encode(ArgName::Singular, singular)?;
    let b = encode(ArgName::Plural, plural)?;
    let ghost (dv, av, bv) = (d, a, b);
    let t = native(d, a, b, n, category.code());
    assert(native.ensures((dv, av, bv, n, category.spec_code()), t));
    decode(t.as_slice())
}

} // verus!
