use gettextrs::category::LocaleCategory;
use gettextrs::context::{npgettext, pgettext};
use gettextrs::domain::{bind_textdomain_codeset, codeset_result, setlocale, textdomain};
use gettextrs::lookup::{dcgettext, dcngettext, dgettext, dngettext, gettext, ngettext};
use gettextrs::marshal::{decode, encode, encode_bytes, encode_wide, native_bytes, ArgName, MarshalError};

// A small catalog: "Open" under the context "menu" and under none, and a
// plural entry under the context "files".
fn catalog(a: Vec<u8>) -> Vec<u8> {
    let id: &[u8] = &a[..a.len() - 1];
    let out: &[u8] = if id == b"menu\x04Open" {
        b"Ouvrir"
    } else if id == b"Open" {
        b"Ouvert"
    } else {
        id
    };
    let mut v = out.to_vec();
    v.push(0);
    v
}

fn plural_catalog(a: Vec<u8>, b: Vec<u8>, n: u32) -> Vec<u8> {
    if a == b"files\x04file\0".to_vec() {
        if n == 1 {
            b"fichier\0".to_vec()
        } else {
            b"fichiers\0".to_vec()
        }
    } else if n == 1 {
        a
    } else {
        b
    }
}

fn bad_utf8(_a: Vec<u8>) -> Vec<u8> {
    vec![0xff, 0xfe, 0]
}

fn with_trailing(_a: Vec<u8>) -> Vec<u8> {
    b"abc\0def".to_vec()
}

#[test]
fn context_lookup_prefers_context_entry() {
    assert_eq!(pgettext("menu", "Open", &catalog), Ok("Ouvrir".to_string()));
}

#[test]
fn context_lookup_falls_back_to_plain_entry() {
    assert_eq!(pgettext("door", "Open", &catalog), Ok("Ouvert".to_string()));
    assert_eq!(gettext("Open", &catalog), Ok("Ouvert".to_string()));
}

#[test]
fn plural_context_lookup_uses_context_entry() {
    assert_eq!(npgettext("files", "file", "files", 1, &plural_catalog), Ok("fichier".to_string()));
    assert_eq!(npgettext("files", "file", "files", 2, &plural_catalog), Ok("fichiers".to_string()));
}

#[test]
fn plural_context_lookup_falls_back() {
    assert_eq!(npgettext("menu", "file", "files", 1, &plural_catalog), Ok("file".to_string()));
    assert_eq!(npgettext("menu", "file", "files", 2, &plural_catalog), Ok("files".to_string()));
}

#[test]
fn invalid_utf8_result_is_reported() {
    assert_eq!(gettext("x", &bad_utf8), Err(MarshalError::InvalidUtf8));
    assert_eq!(pgettext("c", "x", &bad_utf8), Err(MarshalError::InvalidUtf8));
}

#[test]
fn result_is_cut_at_first_nul() {
    assert_eq!(gettext("x", &with_trailing), Ok("abc".to_string()));
    assert_eq!(native_bytes(b"ab\0cd"), b"ab".to_vec());
    assert_eq!(native_bytes(b"abcd"), b"abcd".to_vec());
    assert_eq!(native_bytes(b""), Vec::<u8>::new());
}

#[test]
fn encode_appends_terminator() {
    assert_eq!(encode(ArgName::S, "héllo"), Ok("héllo\0".as_bytes().to_vec()));
    assert_eq!(encode(ArgName::S, ""), Ok(vec![0u8]));
    assert_eq!(encode(ArgName::Plural, "a\0b"), Err(MarshalError::InteriorNul(ArgName::Plural)));
    assert_eq!(encode_bytes(ArgName::Dir, b"/opt"), Ok(b"/opt\0".to_vec()));
    assert_eq!(encode_bytes(ArgName::Dir, b"/opt\0"), Err(MarshalError::InteriorNul(ArgName::Dir)));
}

#[test]
fn round_trip_through_identity() {
    for s in ["", "Hello, world!", "grüße", "日本語", "a\u{4}b", "🦀"] {
        let buf = encode(ArgName::S, s).unwrap();
        assert_eq!(decode(&buf), Ok(s.to_string()));
    }
}

#[test]
fn decode_rejects_invalid_utf8() {
    assert_eq!(decode(&[0xc3, 0x28, 0]), Err(MarshalError::InvalidUtf8));
    assert_eq!(decode(&[0xc3, 0xa9, 0]), Ok("é".to_string()));
}

#[test]
fn wide_paths() {
    assert_eq!(encode_wide(ArgName::Dir, &[0x2f, 0x61]), Ok(vec![0x2f, 0x61, 0]));
    assert_eq!(encode_wide(ArgName::Dir, &[0x2f, 0, 0x61]), Err(MarshalError::InteriorNul(ArgName::Dir)));
}

#[test]
fn category_codes() {
    let table = [
        (LocaleCategory::LcCType, 0),
        (LocaleCategory::LcNumeric, 1),
        (LocaleCategory::LcTime, 2),
        (LocaleCategory::LcCollate, 3),
        (LocaleCategory::LcMonetary, 4),
        (LocaleCategory::LcMessages, 5),
        (LocaleCategory::LcAll, 6),
        (LocaleCategory::LcPaper, 7),
        (LocaleCategory::LcName, 8),
        (LocaleCategory::LcAddress, 9),
        (LocaleCategory::LcTelephone, 10),
        (LocaleCategory::LcMeasurement, 11),
        (LocaleCategory::LcIdentification, 12),
    ];
    for (c, code) in table {
        assert_eq!(c.code(), code);
    }
}

#[test]
fn category_reaches_native() {
    let seen = |_d: Vec<u8>, _s: Vec<u8>, c: i32| format!("{}\0", c).into_bytes();
    assert_eq!(dcgettext("d", "s", LocaleCategory::LcMessages, &seen), Ok("5".to_string()));
    let seen_plural =
        |_d: Vec<u8>, _a: Vec<u8>, _b: Vec<u8>, n: u32, c: i32| format!("{}:{}\0", n, c).into_bytes();
    assert_eq!(
        dcngettext("d", "a", "b", 7, LocaleCategory::LcIdentification, &seen_plural),
        Ok("7:12".to_string())
    );
    let seen_locale = |c: i32, _l: Vec<u8>| Some(format!("{}", c).into_bytes());
    assert_eq!(setlocale(LocaleCategory::LcTime, b"C", &seen_locale), Ok(Some(b"2".to_vec())));
}

#[test]
fn domain_qualified_lookups_pass_domain() {
    let d2 = |d: Vec<u8>, s: Vec<u8>| {
        let mut v = d[..d.len() - 1].to_vec();
        v.push(b'/');
        v.extend_from_slice(&s);
        v
    };
    assert_eq!(dgettext("dom", "msg", &d2), Ok("dom/msg".to_string()));
    let d4 = |d: Vec<u8>, a: Vec<u8>, b: Vec<u8>, n: u32| {
        let mut v = d[..d.len() - 1].to_vec();
        v.push(b'/');
        v.extend_from_slice(if n == 1 { &a } else { &b });
        v
    };
    assert_eq!(dngettext("dom", "one", "many", 1, &d4), Ok("dom/one".to_string()));
    assert_eq!(dngettext("dom", "one", "many", 3, &d4), Ok("dom/many".to_string()));
}

#[test]
fn native_errors_are_passed_on() {
    let fail = |_a: Vec<u8>| Err::<Vec<u8>, i32>(22);
    assert_eq!(textdomain(b"x", &fail), Ok(Err(22)));
    let none = |_c: i32, _l: Vec<u8>| None::<Vec<u8>>;
    assert_eq!(setlocale(LocaleCategory::LcAll, b"xx_YY", &none), Ok(None));
}

#[test]
fn codeset_unset_is_empty_success() {
    let unset = |_d: Vec<u8>, _c: Vec<u8>| Err::<Vec<u8>, i32>(0);
    assert_eq!(bind_textdomain_codeset(b"hellorust", "UTF-8", &unset), Ok(Ok(None)));
    assert_eq!(codeset_result(Err(0)), Ok(Ok(None)));
}

#[test]
fn codeset_error_and_value() {
    assert_eq!(codeset_result(Err(12)), Ok(Err(12)));
    assert_eq!(codeset_result(Ok(b"UTF-8\0".to_vec())), Ok(Ok(Some("UTF-8".to_string()))));
    assert_eq!(codeset_result(Ok(vec![0xff, 0])), Err(MarshalError::InvalidUtf8));
    let set = |_d: Vec<u8>, c: Vec<u8>| Ok::<Vec<u8>, i32>(c);
    assert_eq!(bind_textdomain_codeset(b"d", "KOI8-R", &set), Ok(Ok(Some("KOI8-R".to_string()))));
}
