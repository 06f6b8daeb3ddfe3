use gettextrs::category::LocaleCategory;
use gettextrs::context::{npgettext, pgettext};
use gettextrs::domain::{bind_textdomain_codeset, bindtextdomain, setlocale, textdomain};
use gettextrs::lookup::{dcgettext, dcngettext, dgettext, dngettext, gettext, ngettext};
use gettextrs::marshal::{ArgName, MarshalError};

// Stand-ins for the native entry points; an argument with a nul never
// reaches them.
fn echo(a: Vec<u8>) -> Vec<u8> {
    a
}

fn echo2(_d: Vec<u8>, a: Vec<u8>) -> Vec<u8> {
    a
}

fn echo3(_d: Vec<u8>, a: Vec<u8>, _c: i32) -> Vec<u8> {
    a
}

fn echo_plural(a: Vec<u8>, b: Vec<u8>, n: u32) -> Vec<u8> {
    if n == 1 {
        a
    } else {
        b
    }
}

fn echo4(_d: Vec<u8>, a: Vec<u8>, b: Vec<u8>, n: u32) -> Vec<u8> {
    echo_plural(a, b, n)
}

fn echo5(_d: Vec<u8>, a: Vec<u8>, b: Vec<u8>, n: u32, _c: i32) -> Vec<u8> {
    echo_plural(a, b, n)
}

fn state1(a: Vec<u8>) -> Result<Vec<u8>, i32> {
    Ok(a)
}

fn state2(_a: Vec<u8>, b: Vec<u8>) -> Result<Vec<u8>, i32> {
    Ok(b)
}

fn locale(_c: i32, l: Vec<u8>) -> Option<Vec<u8>> {
    Some(l)
}

#[test]
fn gettext_panics() {
    assert_eq!(gettext("input string\0", &echo), Err::<String, MarshalError>(MarshalError::InteriorNul(ArgName::S)));
}

#[test]
fn dgettext_panics_on_zero_in_domain() {
    assert_eq!(dgettext("hello\0world!", "hi", &echo2), Err::<String, MarshalError>(MarshalError::InteriorNul(ArgName::Domain)));
}

#[test]
fn dgettext_panics_on_zero_in_s() {
    assert_eq!(dgettext("hello world", "another che\0ck", &echo2), Err::<String, MarshalError>(MarshalError::InteriorNul(ArgName::S)));
}

#[test]
fn dcgettext_panics_on_zero_in_domain() {
    assert_eq!(dcgettext("a diff\0erent input", "hello", LocaleCategory::LcAll, &echo3), Err::<String, MarshalError>(MarshalError::InteriorNul(ArgName::Domain)));
}

#[test]
fn dcgettext_panics_on_zero_in_s() {
    assert_eq!(dcgettext("world", "yet \0 another\0 one", LocaleCategory::LcMessages, &echo3), Err::<String, MarshalError>(MarshalError::InteriorNul(ArgName::S)));
}

#[test]
fn ngettext_panics_on_zero_in_singular() {
    assert_eq!(ngettext("singular\0form", "plural form", 10, &echo_plural), Err::<String, MarshalError>(MarshalError::InteriorNul(ArgName::Singular)));
}

#[test]
fn ngettext_panics_on_zero_in_plural() {
    assert_eq!(ngettext("singular form", "plural\0form", 0, &echo_plural), Err::<String, MarshalError>(MarshalError::InteriorNul(ArgName::Plural)));
}

#[test]
fn dngettext_panics_on_zero_in_domain() {
    assert_eq!(dngettext("do\0main", "one", "many", 0, &echo4), Err::<String, MarshalError>(MarshalError::InteriorNul(ArgName::Domain)));
}

#[test]
fn dngettext_panics_on_zero_in_singular() {
    assert_eq!(dngettext("domain", "just a\0 single one", "many", 100, &echo4), Err::<String, MarshalError>(MarshalError::InteriorNul(ArgName::Singular)));
}

#[test]
fn dngettext_panics_on_zero_in_plural() {
    assert_eq!(dngettext("d", "1", "many\0many\0many more", 10000, &echo4), Err::<String, MarshalError>(MarshalError::InteriorNul(ArgName::Plural)));
}

#[test]
fn dcngettext_panics_on_zero_in_domain() {
    assert_eq!(dcngettext("doma\0in", "singular", "plural", 42, LocaleCategory::LcCType, &echo5), Err::<String, MarshalError>(MarshalError::InteriorNul(ArgName::Domain)));
}

#[test]
fn dcngettext_panics_on_zero_in_singular() {
    assert_eq!(dcngettext("domain", "\0ne", "plural", 13, LocaleCategory::LcNumeric, &echo5), Err::<String, MarshalError>(MarshalError::InteriorNul(ArgName::Singular)));
}

#[test]
fn dcngettext_panics_on_zero_in_plural() {
    assert_eq!(dcngettext("d-o-m-a-i-n", "one", "a\0few", 0, LocaleCategory::LcTime, &echo5), Err::<String, MarshalError>(MarshalError::InteriorNul(ArgName::Plural)));
}

#[test]
fn textdomain_panics_on_zero_in_domain() {
    assert_eq!(textdomain(b"this is \0 my domain", &state1), Err::<Result<Vec<u8>, i32>, MarshalError>(MarshalError::InteriorNul(ArgName::Domain)));
}

#[test]
fn bindtextdomain_panics_on_zero_in_domain() {
    assert_eq!(bindtextdomain(b"\0bind this", b"/usr/share/locale", &state2), Err::<Result<Vec<u8>, i32>, MarshalError>(MarshalError::InteriorNul(ArgName::Domain)));
}

#[test]
fn bindtextdomain_panics_on_zero_in_dir() {
    assert_eq!(bindtextdomain(b"my_domain", b"/opt/locales\0", &state2), Err::<Result<Vec<u8>, i32>, MarshalError>(MarshalError::InteriorNul(ArgName::Dir)));
}

#[test]
fn setlocale_panics_on_zero_in_locale() {
    assert_eq!(setlocale(LocaleCategory::LcCollate, b"en_\0US", &locale), Err::<Option<Vec<u8>>, MarshalError>(MarshalError::InteriorNul(ArgName::Locale)));
}

#[test]
fn bind_textdomain_codeset_panics_on_zero_in_domain() {
    assert_eq!(bind_textdomain_codeset(b"doma\0in", "UTF-8", &state2), Err::<Result<Option<String>, i32>, MarshalError>(MarshalError::InteriorNul(ArgName::Domain)));
}

#[test]
fn bind_textdomain_codeset_panics_on_zero_in_codeset() {
    assert_eq!(bind_textdomain_codeset(b"name", "K\0I8-R", &state2), Err::<Result<Option<String>, i32>, MarshalError>(MarshalError::InteriorNul(ArgName::Codeset)));
}

#[test]
fn pgettext_panics_on_zero_in_ctx() {
    assert_eq!(pgettext("context\0", "string", &echo), Err::<String, MarshalError>(MarshalError::InteriorNul(ArgName::Ctx)));
}

#[test]
fn pgettext_panics_on_zero_in_s() {
    assert_eq!(pgettext("ctx", "a message\0to be translated", &echo), Err::<String, MarshalError>(MarshalError::InteriorNul(ArgName::S)));
}

#[test]
fn npgettext_panics_on_zero_in_ctx() {
    assert_eq!(npgettext("c\0tx", "singular", "plural", 0, &echo_plural), Err::<String, MarshalError>(MarshalError::InteriorNul(ArgName::Ctx)));
}

#[test]
fn npgettext_panics_on_zero_in_singular() {
    assert_eq!(npgettext("ctx", "sing\0ular", "many many more", 135626, &echo_plural), Err::<String, MarshalError>(MarshalError::InteriorNul(ArgName::Singular)));
}

#[test]
fn npgettext_panics_on_zero_in_plural() {
    assert_eq!(npgettext("context", "uno", "one \0fewer", 10585, &echo_plural), Err::<String, MarshalError>(MarshalError::InteriorNul(ArgName::Plural)));
}
