use vstd::prelude::*;
use vstd::utf8::*;
use crate::category::LocaleCategory;
use crate::marshal::{
    c_buffer, decode, decoded, encode, encode_bytes, has_nul, has_nul_char, native_bytes, until_nul,
    ArgName, MarshalError,
};

verus! {

/// The code of the native "no error" status: a null result that comes with it
/// from the codeset bind means that no codeset is set.
pub const NO_ERROR: i32 = 0;

/// What a state-changing native call reported, in bytes: the value now in
/// force, or the native error code that came with a null result.
pub open spec fn native_outcome(out: Result<Vec<u8>, i32>) -> Result<Seq<u8>, i32> {
    match out {
        Ok(buf) => Ok(until_nul(buf@)),
        Err(code) => Err(code),
    }
}

/// The bytes of a state-changing call's result.
pub open spec fn outcome_of(r: Result<Result<Vec<u8>, i32>, MarshalError>) -> Result<
    Result<Seq<u8>, i32>,
    MarshalError,
> {
    match r {
        Ok(Ok(v)) => Ok(Ok(v@)),
        Ok(Err(code)) => Ok(Err(code)),
        Err(e) => Err(e),
    }
}

/// What the codeset bind reports for a native outcome: the codeset in force,
/// none when the native side reports a null result with no error, or the
/// native error code.
pub open spec fn codeset_outcome(out: Result<Seq<u8>, i32>) -> Result<
    Result<Option<Seq<char>>, i32>,
    MarshalError,
> {
    match out {
        Ok(buf) => match decoded(buf) {
            Ok(s) => Ok(Ok(Some(s))),
            Err(e) => Err(e),
        },
        Err(code) => if code == NO_ERROR {
            Ok(Ok(None))
        } else {
            Ok(Err(code))
        },
    }
}

/// The characters of a codeset bind's result.
pub open spec fn codeset_of(r: Result<Result<Option<String>, i32>, MarshalError>) -> Result<
    Result<Option<Seq<char>>, i32>,
    MarshalError,
> {
    match r {
        Ok(Ok(Some(s))) => Ok(Ok(Some(s@))),
        Ok(Ok(None)) => Ok(Ok(None)),
        Ok(Err(code)) => Ok(Err(code)),
        Err(e) => Err(e),
    }
}

/// Copies the value that a state-changing native call reported.
fn owned_outcome(out: Result<Vec<u8>, i32>) -> (r: Result<Vec<u8>, i32>)
    ensures
        outcome_of(Ok(r)) == Ok::<Result<Seq<u8>, i32>, MarshalError>(native_outcome(out)),
{
    match out {
        Ok(buf) => Ok(native_bytes(buf.as_slice())),
        Err(code) => Err(code),
    }
}

/// Switches the current text domain to `domain`. `native` is the native
/// domain switch: it returns the domain now in force, or the native error code
/// when it returned null. The result is what `native` reported.
pub fn textdomain<F: Fn(Vec<u8>) -> Result<Vec<u8>, i32>>(domain: &[u8], native: &F) -> (r: Result<
    Result<Vec<u8>, i32>,
    MarshalError,
>)
    requires
        forall|a: Vec<u8>| native.requires((a,)),
    ensures
        has_nul(domain@) ==> r == Err::<Result<Vec<u8>, i32>, MarshalError>(
            MarshalError::InteriorNul(ArgName::Domain),
        ),
        !has_nul(domain@) ==> exists|a: Vec<u8>, out: Result<Vec<u8>, i32>|
            #![trigger native.ensures((a,), out)]
            a@ == c_buffer(domain@) && native.ensures((a,), out) && outcome_of(r) == Ok::<
                Result<Seq<u8>, i32>,
                MarshalError,
            >(native_outcome(out)),
{
    let a = encode_bytes(ArgName::Domain, domain)?;
    let ghost av = a;
    let out = native(a);
    assert(native.ensures((av,), out));
    Ok(owned_outcome(out))
}

/// Binds `domain` to the directory `dir`, given as the bytes of its path.
/// `native` is the native directory bind: it returns the directory now bound,
/// or the native error code when it returned null.
pub fn bindtextdomain<F: Fn(Vec<u8>, Vec<u8>) -> Result<Vec<u8>, i32>>(
    domain: &[u8],
    dir: &[u8],
    native: &F,
) -> (r: Result<Result<Vec<u8>, i32>, MarshalError>)
    requires
        forall|a: Vec<u8>, b: Vec<u8>| native.requires((a, b)),
    ensures
        has_nul(domain@) ==> r == Err::<Result<Vec<u8>, i32>, MarshalError>(
            MarshalError::InteriorNul(ArgName::Domain),
        ),
        !has_nul(domain@) && has_nul(dir@) ==> r == Err::<Result<Vec<u8>, i32>, MarshalError>(
            MarshalError::InteriorNul(ArgName::Dir),
        ),
        !has_nul(domain@) && !has_nul(dir@) ==> exists|
            a: Vec<u8>,
            b: Vec<u8>,
            out: Result<Vec<u8>, i32>,
        |
            #![trigger native.ensures((a, b), out)]
            a@ == c_buffer(domain@) && b@ == c_buffer(dir@) && native.ensures((a, b), out)
                && outcome_of(r) == Ok::<Result<Seq<u8>, i32>, MarshalError>(native_outcome(out)),
{
    let a = encode_bytes(ArgName::Domain, domain)?;
    let b = encode_bytes(ArgName::Dir, dir)?;
    let ghost (av, bv) = (a, b);
    let out = native(a, b);
    assert(native.ensures((av, bv), out));
    Ok(owned_outcome(out))
}

/// Sets the locale of `category` to `locale`. `native` is the native locale
/// switch: it returns the name of the locale now set, or `None` when the
/// request failed.
pub fn setlocale<F: Fn(i32, Vec<u8>) -> Option<Vec<u8>>>(
    category: LocaleCategory,
    locale: &[u8],
    native: &F,
) -> (r: Result<Option<Vec<u8>>, MarshalError>)
    requires
        forall|c: i32, a: Vec<u8>| native.requires((c, a)),
    ensures
        has_nul(locale@) <==> r == Err::<Option<Vec<u8>>, MarshalError>(
            MarshalError::InteriorNul(ArgName::Locale),
        ),
        !has_nul(locale@) ==> exists|a: Vec<u8>, out: Option<Vec<u8>>|
            #![trigger native.ensures((category.spec_code(), a), out)]
            a@ == c_buffer(locale@) && native.ensures((category.spec_code(), a), out) && match r {
                Ok(Some(v)) => out matches Some(buf) && v@ == until_nul(buf@),
                Ok(None) => out is None,
                Err(_) => false,
            },
{
    let a = encode_bytes(ArgName::Locale, locale)?;
    let ghost av = a;
    let out = native(category.code(), a);
    assert(native.ensures((category.spec_code(), av), out));
    match out {
        Some(buf) => Ok(Some(native_bytes(buf.as_slice()))),
        None => Ok(None),
    }
}

/// Reads what the native codeset bind reported: the codeset in force, none
/// when it returned null with no error, or the native error code.
pub fn codeset_result(out: Result<Vec<u8>, i32>) -> (r: Result<
    Result<Option<String>, i32>,
    MarshalError,
>)
    ensures
        codeset_of(r) == codeset_outcome(native_outcome(out)),
        out == Err::<Vec<u8>, i32>(NO_ERROR) ==> r == Ok::<Result<Option<String>, i32>, MarshalError>(
            Ok(None),
        ),
{
    match out {
        Ok(buf) => {
            let s = decode(buf.as_slice());
            assert(decoded(buf@) == decoded(until_nul(buf@))) by {
                crate::marshal::lemma_until_nul_idempotent(buf@);
            }
            match s {
                Ok(s) => Ok(Ok(Some(s))),
                Err(e) => Err(e),
            }
        },
        Err(code) => if code == NO_ERROR {
            Ok(Ok(None))
        } else {
            Ok(Err(code))
        },
    }
}

/// Sets the codeset of the translations of `domain` to `codeset`. `native` is
/// the native codeset bind: it returns the codeset now in force, or the native
/// error code when it returned null.
pub fn bind_textdomain_codeset<F: Fn(Vec<u8>, Vec<u8>) -> Result<Vec<u8>, i32>>(
    domain: &[u8],
    codeset: &str,
    native: &F,
) -> (r: Result<Result<Option<String>, i32>, MarshalError>)
    requires
        forall|a: Vec<u8>, b: Vec<u8>| native.requires((a, b)),
    ensures
        has_nul(domain@) ==> r == Err::<Result<Option<String>, i32>, MarshalError>(
            MarshalError::InteriorNul(ArgName::Domain),
        ),
        !has_nul(domain@) && has_nul_char(codeset@) ==> r == Err::<
            Result<Option<String>, i32>,
            MarshalError,
        >(MarshalError::InteriorNul(ArgName::Codeset)),
        !has_nul(domain@) && !has_nul_char(codeset@) ==> exists|
            a: Vec<u8>,
            b: Vec<u8>,
            out: Result<Vec<u8>, i32>,
        |
            #![trigger native.ensures((a, b), out)]
            a@ == c_buffer(domain@) && b@ == c_buffer(encode_utf8(codeset@)) && native.ensures(
                (a, b),
                out,
            ) && codeset_of(r) == codeset_outcome(native_outcome(out)),
{
    let a = encode_bytes(ArgName::Domain, domain)?;
    let b = encode(ArgName::Codeset, codeset)?;
    let ghost (av, bv) = (a, b);
    let out = native(a, b);
    assert(native.ensures((av, bv), out));
    codeset_result(out)
}

} // verus!
