use vstd::prelude::*;
use vstd::utf8::*;

verus! {

/// The argument of a call that an error is about.
#[derive(Debug, Clone, Copy, PartialEq, Eq, Structural)]
pub enum ArgName {
    Domain,
    S,
    Singular,
    Plural,
    Ctx,
    Dir,
    Locale,
    Codeset,
}

/// A misuse of the native library: never retried, never papered over.
#[derive(Debug, Clone, Copy, PartialEq, Eq, Structural)]
pub enum MarshalError {
    /// The named argument holds an interior nul byte, which would cut the
    /// native string short.
    InteriorNul(ArgName),
    /// The native library returned bytes that are not well-formed UTF-8.
    InvalidUtf8,
}

/// Whether a byte sequence holds a nul byte.
pub open spec fn has_nul(b: Seq<u8>) -> bool {
    b.contains(0u8)
}

/// Whether a text holds the nul character.
pub open spec fn has_nul_char(s: Seq<char>) -> bool {
    s.contains('\0')
}

/// The nul-terminated buffer that carries `b` into the native library.
pub open spec fn c_buffer(b: Seq<u8>) -> Seq<u8> {
    b.push(0u8)
}

/// The native string held in `buf`: the bytes before its first nul (all of
/// them when it holds none).
pub open spec fn until_nul(buf: Seq<u8>) -> Seq<u8>
    decreases buf.len(),
{
    if buf.len() == 0 {
        buf
    } else if buf[0] == 0 {
        Seq::empty()
    } else {
        seq![buf[0]] + until_nul(buf.drop_first())
    }
}

/// The text that a native buffer stands for, or why it stands for none.
pub open spec fn decoded(buf: Seq<u8>) -> Result<Seq<char>, MarshalError> {
    if valid_utf8(until_nul(buf)) {
        Ok(decode_utf8(until_nul(buf)))
    } else {
        Err(MarshalError::InvalidUtf8)
    }
}

/// The characters of a text result.
pub open spec fn text_of(r: Result<String, MarshalError>) -> Result<Seq<char>, MarshalError> {
    match r {
        Ok(s) => Ok(s@),
        Err(e) => Err(e),
    }
}

/// What encoding `b` for the argument `arg` gives.
pub open spec fn encoded(arg: ArgName, b: Seq<u8>) -> Result<Seq<u8>, MarshalError> {
    if has_nul(b) {
        Err(MarshalError::InteriorNul(arg))
    } else {
        Ok(c_buffer(b))
    }
}

/// The buffers of an encoding result.
pub open spec fn bytes_of(r: Result<Vec<u8>, MarshalError>) -> Result<Seq<u8>, MarshalError> {
    match r {
        Ok(v) => Ok(v@),
        Err(e) => Err(e),
    }
}

/// A concatenation holds a value exactly where one of its parts does.
pub proof fn lemma_contains_concat<A>(a: Seq<A>, b: Seq<A>, x: A)
    ensures
        (a + b).contains(x) <==> a.contains(x) || b.contains(x),
{
    if (a + b).contains(x) {
        let i = choose|i: int| 0 <= i < (a + b).len() && (a + b)[i] == x;
        if i < a.len() {
            assert(a[i] == x);
        } else {
            assert(b[i - a.len()] == x);
        }
    }
    if a.contains(x) {
        let i = choose|i: int| 0 <= i < a.len() && a[i] == x;
        assert((a + b)[i] == x);
    }
    if b.contains(x) {
        let i = choose|i: int| 0 <= i < b.len() && b[i] == x;
        assert((a + b)[i + a.len()] == x);
    }
}

/// The encoding of one scalar holds an ASCII byte only when it is that scalar.
proof fn lemma_scalar_ascii(c: u32, k: u8)
    requires
        is_scalar(c),
        k < 0x80,
    ensures
        encode_scalar(c).contains(k) <==> c == k as u32,
{
    let e = encode_scalar(c);
    assert(forall|x: u8| #![auto] (0xC0u8 | x) >= 0x80u8 && (0xE0u8 | x) >= 0x80u8 && (0xF0u8 | x)
        >= 0x80u8 && (0x80u8 | x) >= 0x80u8) by (bit_vector);
    if has_width_1_encoding(c) {
        assert(((c & 0x7F) as u8 == k) <==> c == k as u32) by (bit_vector)
            requires
                c <= 0x7F,
                k < 0x80,
        ;
        if c == k as u32 {
            assert(e[0] == k);
        }
    } else {
        assert(forall|i: int| 0 <= i < e.len() ==> e[i] != k);
    }
}

/// The UTF-8 bytes of a text hold an ASCII byte exactly where the text holds
/// the character of that code.
pub proof fn lemma_utf8_ascii(s: Seq<char>, k: u8)
    requires
        k < 0x80,
    ensures
        encode_utf8(s).contains(k) <==> s.contains(k as char),
    decreases s.len(),
{
    if s.len() > 0 {
        let c = s[0];
        vstd::utf8::char_is_scalar(c);
        lemma_scalar_ascii(c as u32, k);
        lemma_contains_concat(encode_scalar(c as u32), encode_utf8(s.drop_first()), k);
        lemma_utf8_ascii(s.drop_first(), k);
        assert(s =~= seq![c] + s.drop_first());
        lemma_contains_concat(seq![c], s.drop_first(), k as char);
        assert(seq![c].contains(k as char) <==> c == k as char) by {
            if c == k as char {
                assert(seq![c][0] == k as char);
            }
        }
        assert((c as u32 == k as u32) <==> c == k as char) by {
            vstd::utf8::char_u32_cast(c, c as u32);
            vstd::utf8::char_u32_cast(k as char, (k as char) as u32);
        }
    }
}

/// The UTF-8 bytes of a text hold a nul exactly where the text holds the nul
/// character.
pub proof fn lemma_utf8_nul(s: Seq<char>)
    ensures
        has_nul(encode_utf8(s)) <==> has_nul_char(s),
{
    lemma_utf8_ascii(s, 0u8);
}

/// Cutting at the first nul keeps the bytes before position `i` when that is
/// where the first nul, or the end, is.
proof fn lemma_until_nul_at(buf: Seq<u8>, i: int)
    requires
        0 <= i <= buf.len(),
        forall|j: int| 0 <= j < i ==> buf[j] != 0u8,
        i == buf.len() || buf[i] == 0u8,
    ensures
        until_nul(buf) == buf.take(i),
    decreases i,
{
    if i == 0 {
        assert(buf.take(0) =~= Seq::<u8>::empty());
        if buf.len() == 0 {
            assert(buf =~= Seq::<u8>::empty());
        }
    } else {
        lemma_until_nul_at(buf.drop_first(), i - 1);
        assert(buf.take(i) =~= seq![buf[0]] + buf.drop_first().take(i - 1));
    }
}

/// Cutting a native string at its first nul a second time changes nothing.
pub proof fn lemma_until_nul_idempotent(buf: Seq<u8>)
    ensures
        until_nul(until_nul(buf)) == until_nul(buf),
    decreases buf.len(),
{
    if buf.len() > 0 && buf[0] != 0 {
        let rest = until_nul(buf.drop_first());
        lemma_until_nul_idempotent(buf.drop_first());
        let u = seq![buf[0]] + rest;
        assert(u.drop_first() =~= rest);
    }
}

/// Encoding text without a nul byte, passing the buffer through a native call
/// that hands it back unchanged, and decoding the result gives the text back.
pub proof fn lemma_round_trip(arg: ArgName, s: Seq<char>)
    requires
        !has_nul_char(s),
    ensures
        encoded(arg, encode_utf8(s)) == Ok::<Seq<u8>, MarshalError>(c_buffer(encode_utf8(s))),
        decoded(c_buffer(encode_utf8(s))) == Ok::<Seq<char>, MarshalError>(s),
{
    let b = encode_utf8(s);
    lemma_utf8_nul(s);
    let buf = c_buffer(b);
    assert forall|j: int| 0 <= j < b.len() implies buf[j] != 0u8 by {
        if buf[j] == 0u8 {
            assert(b[j] == 0u8);
        }
    }
    lemma_until_nul_at(buf, b.len() as int);
    assert(buf.take(b.len() as int) =~= b);
    vstd::utf8::encode_utf8_valid_utf8(s);
    vstd::utf8::encode_utf8_decode_utf8(s);
}

/// Relies on `String::from_utf8`: it succeeds exactly on well-formed UTF-8,
/// and then holds the characters those bytes encode.
#[verifier::external_body]
fn string_from_utf8(bytes: Vec<u8>) -> (r: Option<String>)
    ensures
        r is Some <==> valid_utf8(bytes@),
        r matches Some(s) ==> s@ == decode_utf8(bytes@),
{
    String::from_utf8(bytes).ok()
}

/// Copies `bytes` into a nul-terminated buffer for the native library, or
/// names `arg` as the culprit when it holds a nul byte.
pub fn encode_bytes(arg: ArgName, bytes: &[u8]) -> (r: Result<Vec<u8>, MarshalError>)
    ensures
        bytes_of(r) == encoded(arg, bytes@),
{
    let mut v: Vec<u8> = Vec::new();
    let mut i: usize = 0;
    while i < bytes.len()
        invariant
            i <= bytes@.len(),
            v@ == bytes@.take(i as int),
            forall|j: int| 0 <= j < i ==> bytes@[j] != 0u8,
        decreases bytes@.len() - i,
    {
        if bytes[i] == 0u8 {
            return Err(MarshalError::InteriorNul(arg));
        }
        v.push(bytes[i]);
        i = i + 1;
        assert(v@ =~= bytes@.take(i as int));
    }
    assert(bytes@.take(i as int) =~= bytes@);
    v.push(0u8);
    Ok(v)
}

/// Encodes text for the native library: its UTF-8 bytes and a terminating
/// nul, or an error that names `arg` when the text holds a nul character.
pub fn encode(arg: ArgName, s: &str) -> (r: Result<Vec<u8>, MarshalError>)
    ensures
        bytes_of(r) == encoded(arg, encode_utf8(s@)),
        r is Err <==> has_nul_char(s@),
{
    proof {
        lemma_utf8_nul(s@);
    }
    encode_bytes(arg, s.as_bytes())
}

/// The bytes of the native string held in `buf`, up to its first nul.
pub fn native_bytes(buf: &[u8]) -> (r: Vec<u8>)
    ensures
        r@ == until_nul(buf@),
{
    let mut v: Vec<u8> = Vec::new();
    let mut i: usize = 0;
    while i < buf.len() && buf[i] != 0u8
        invariant
            i <= buf@.len(),
            v@ == buf@.take(i as int),
            forall|j: int| 0 <= j < i ==> buf@[j] != 0u8,
        decreases buf@.len() - i,
    {
        v.push(buf[i]);
        i = i + 1;
        assert(v@ =~= buf@.take(i as int));
    }
    proof {
        lemma_until_nul_at(buf@, i as int);
    }
    v
}

/// Decodes a buffer returned by the native library into owned text.
pub fn decode(buf: &[u8]) -> (r: Result<String, MarshalError>)
    ensures
        text_of(r) == decoded(buf@),
{
    let bytes = native_bytes(buf);
    match string_from_utf8(bytes) {
        Some(s) => Ok(s),
        None => Err(MarshalError::InvalidUtf8),
    }
}

/// Copies the 16-bit units of a wide path into a nul-terminated buffer for
/// the native library, or names `arg` as the culprit when one of them is 0.
pub fn encode_wide(arg: ArgName, units: &[u16]) -> (r: Result<Vec<u16>, MarshalError>)
    ensures
        r is Err <==> units@.contains(0u16),
        r matches Err(e) ==> e == MarshalError::InteriorNul(arg),
        r matches Ok(v) ==> v@ == units@.push(0u16),
{
    let mut v: Vec<u16> = Vec::new();
    let mut i: usize = 0;
    while i < units.len()
        invariant
            i <= units@.len(),
            v@ == units@.take(i as int),
            forall|j: int| 0 <= j < i ==> units@[j] != 0u16,
        decreases units@.len() - i,
    {
        if units[i] == 0u16 {
            return Err(MarshalError::InteriorNul(arg));
        }
        v.push(units[i]);
        i = i + 1;
        assert(v@ =~= units@.take(i as int));
    }
    assert(units@.take(i as int) =~= units@);
    v.push(0u16);
    Ok(v)
}

} // verus!
