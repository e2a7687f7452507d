//! Locale identifiers against a stand-in for the native library that answers
//! as the native library does for the tags used here.

use std::cell::{Cell, RefCell};
use uloc::{get_default, set_default, Error, Reply, ULoc, LOCALE_CAPACITY};

/// Writes `text` as a native function does: as much as fits, the full length,
/// and the status that tells whether it fitted.
fn write(text: &str, mut buffer: Vec<u8>) -> Reply<()> {
    let bytes = text.as_bytes();
    let fits = bytes.len().min(buffer.len());
    buffer[..fits].copy_from_slice(&bytes[..fits]);
    let status = if bytes.len() > buffer.len() {
        15
    } else if bytes.len() == buffer.len() {
        -124
    } else {
        0
    };
    Reply { length: bytes.len() as i32, status, buffer, out: () }
}

fn label(name: &Vec<u8>) -> String {
    assert_eq!(name.last(), Some(&0u8));
    String::from_utf8(name[..name.len() - 1].to_vec()).unwrap()
}

fn canonical(tag: &str) -> String {
    let parts: Vec<&str> = tag.split(|c| c == '-' || c == '_').collect();
    let mut out = String::new();
    for (i, part) in parts.iter().enumerate() {
        if i > 0 {
            out.push('_');
        }
        if i == 0 {
            out.push_str(&part.to_lowercase());
        } else if part.len() == 4 {
            let lower = part.to_lowercase();
            out.push_str(&lower[..1].to_uppercase());
            out.push_str(&lower[1..]);
        } else {
            out.push_str(&part.to_uppercase());
        }
    }
    out
}

fn canonicalize(name: &Vec<u8>, buffer: Vec<u8>) -> Reply<()> {
    write(&canonical(&label(name)), buffer)
}

fn part(name: &Vec<u8>, wanted: fn(usize, &str) -> bool) -> String {
    let tag = label(name);
    for (i, part) in tag.split('_').enumerate() {
        if wanted(i, part) {
            return part.to_string();
        }
    }
    String::new()
}

fn get_language(name: &Vec<u8>, buffer: Vec<u8>) -> Reply<()> {
    write(&part(name, |i, _| i == 0), buffer)
}

fn get_script(name: &Vec<u8>, buffer: Vec<u8>) -> Reply<()> {
    write(&part(name, |i, p| i > 0 && p.len() == 4), buffer)
}

fn get_country(name: &Vec<u8>, buffer: Vec<u8>) -> Reply<()> {
    write(&part(name, |i, p| i > 0 && p.len() <= 3), buffer)
}

fn get_variant(name: &Vec<u8>, buffer: Vec<u8>) -> Reply<()> {
    write(&part(name, |i, p| i > 0 && p.len() > 4), buffer)
}

fn add_likely(name: &Vec<u8>, buffer: Vec<u8>) -> Reply<()> {
    let tag = label(name);
    let full = match tag.as_str() {
        "en_US" => "en_Latn_US".to_string(),
        "sr" => "sr_Cyrl_RS".to_string(),
        _ => tag,
    };
    write(&full, buffer)
}

fn minimize(name: &Vec<u8>, buffer: Vec<u8>) -> Reply<()> {
    let tag = label(name);
    let small = match tag.as_str() {
        "sr_Cyrl_RS" => "sr".to_string(),
        "en_Latn_US" => "en".to_string(),
        _ => tag,
    };
    write(&small, buffer)
}

fn to_tag(args: &(Vec<u8>, i8), buffer: Vec<u8>) -> Reply<()> {
    let tag = label(&args.0);
    if args.1 == 1 && tag.contains('@') {
        return Reply { length: 0, status: 1, buffer, out: () };
    }
    write(&tag.replace('_', "-"), buffer)
}

fn failing(_name: &Vec<u8>, buffer: Vec<u8>) -> Reply<()> {
    Reply { length: 0, status: 1, buffer, out: () }
}

#[test]
fn test_language() {
    let loc = ULoc::try_from("es-CO", canonicalize).expect("get es_CO locale");
    let language = loc.language(get_language).expect("should get language");
    assert_eq!(&language, "es");
}

#[test]
fn test_script() {
    let loc = ULoc::try_from("sr-Cyrl", canonicalize).expect("get sr_Cyrl locale");
    let script = loc.script(get_script).expect("should get script");
    assert_eq!(&script, "Cyrl");
}

#[test]
fn test_country() {
    let loc = ULoc::try_from("es-CO", canonicalize).expect("get es_CO locale");
    let country = loc.country(get_country).expect("should get country");
    assert_eq!(&country, "CO");
}

#[test]
fn test_variant() {
    let loc = ULoc::try_from("zh-Latn-pinyin", canonicalize).expect("get zh_Latn_pinyin locale");
    let variant = loc.variant(get_variant).expect("should get variant");
    assert_eq!(&variant, "PINYIN");
}

#[test]
fn test_default_locale() {
    let current: RefCell<Vec<u8>> = RefCell::new(b"en_US".to_vec());
    let set = |name: &Vec<u8>| -> i32 {
        *current.borrow_mut() = name[..name.len() - 1].to_vec();
        0
    };
    let get = || current.borrow().clone();

    let loc = ULoc::try_from("fr-fr", canonicalize).expect("get fr_FR locale");
    set_default(&loc, &set).expect("successful set of locale");
    assert_eq!(get_default(&get, canonicalize).label(), loc.label());
    assert_eq!(loc.label(), "fr_FR", "The locale should get canonicalized");
    let loc = ULoc::try_from("en-us", canonicalize).expect("get en_US locale");
    set_default(&loc, &set).expect("successful set of locale");
    assert_eq!(get_default(&get, canonicalize).label(), loc.label());
}

#[test]
fn test_add_likely_subtags() {
    let loc = ULoc::try_from("en-US", canonicalize).expect("get en_US locale");
    let with_likely_subtags = loc
        .add_likely_subtags(add_likely)
        .expect("should add likely subtags");
    let expected = ULoc::try_from("en_Latn_US", canonicalize).expect("get en_Latn_US locale");
    assert_eq!(with_likely_subtags.label(), expected.label());
}

#[test]
fn test_minimize_subtags() {
    let loc = ULoc::try_from("sr_Cyrl_RS", canonicalize).expect("get sr_Cyrl_RS locale");
    let minimized_subtags = loc.minimize_subtags(minimize).expect("should minimize subtags");
    let expected = ULoc::try_from("sr", canonicalize).expect("get sr locale");
    assert_eq!(minimized_subtags.label(), expected.label());
}

#[test]
fn test_to_language_tag() {
    let loc = ULoc::try_from("sr_Cyrl_RS", canonicalize).expect("get sr_Cyrl_RS locale");
    let language_tag = loc
        .to_language_tag(true, to_tag)
        .expect("should convert to language tag");
    assert_eq!(language_tag, "sr-Cyrl-RS".to_string());
}

#[test]
fn label_is_what_canonicalization_returned() {
    let loc = ULoc::try_from("zh-Latn-pinyin", canonicalize).unwrap();
    assert_eq!(loc.label(), "zh_Latn_PINYIN");
    let again = loc.canonicalize(canonicalize).unwrap();
    assert_eq!(again.label(), loc.label());
    assert_eq!(again, loc);
}

#[test]
fn minimize_of_minimal_form_is_unchanged() {
    let loc = ULoc::try_from("sr_Cyrl_RS", canonicalize).unwrap();
    let once = loc.minimize_subtags(minimize).unwrap();
    let twice = once.minimize_subtags(minimize).unwrap();
    assert_eq!(once.label(), "sr");
    assert_eq!(twice.label(), "sr");
    assert_eq!(loc.label(), "sr_Cyrl_RS");
}

#[test]
fn interior_nul_is_refused_before_any_native_call() {
    let calls = Cell::new(0u32);
    let counting = |name: &Vec<u8>, buffer: Vec<u8>| {
        calls.set(calls.get() + 1);
        canonicalize(name, buffer)
    };
    assert_eq!(ULoc::try_from("en\0US", &counting), Err(Error::Validation));
    assert_eq!(calls.get(), 0);
    assert!(ULoc::try_from("en-US", &counting).is_ok());
    assert_eq!(calls.get(), 1);
}

#[test]
fn native_failure_is_returned_with_its_code() {
    assert_eq!(ULoc::try_from("xx", failing), Err(Error::Native(1)));
    let loc = ULoc::try_from("en_US", canonicalize).unwrap();
    assert_eq!(loc.language(failing), Err(Error::Native(1)));
    assert_eq!(loc.canonicalize(failing), Err(Error::Native(1)));
    assert_eq!(loc.add_likely_subtags(failing), Err(Error::Native(1)));
    assert_eq!(loc.minimize_subtags(failing), Err(Error::Native(1)));
}

#[test]
fn canonical_text_with_nul_is_refused() {
    let with_nul = |_name: &Vec<u8>, buffer: Vec<u8>| write("en\0US", buffer);
    assert_eq!(ULoc::try_from("en-US", with_nul), Err(Error::Validation));
    assert_eq!(
        ULoc::from_canonical(Ok("a\0".to_string())),
        Err(Error::Validation)
    );
    assert_eq!(
        ULoc::from_canonical(Ok("de_DE".to_string())).unwrap().label(),
        "de_DE"
    );
    assert_eq!(
        ULoc::from_canonical(Err(Error::Encoding)),
        Err(Error::Encoding)
    );
}

#[test]
fn c_string_ends_with_the_only_nul() {
    let loc = ULoc::try_from("es-CO", canonicalize).unwrap();
    assert_eq!(loc.as_c_str(), b"es_CO\0".to_vec());
    assert_eq!(uloc::locale::to_c_string("é"), Ok(vec![0xc3, 0xa9, 0]));
    assert_eq!(uloc::locale::to_c_string(""), Ok(vec![0]));
    assert_eq!(uloc::locale::to_c_string("a\0"), Err(Error::Validation));
    assert!(uloc::locale::has_nul(b"a\0b"));
    assert!(!uloc::locale::has_nul(b"ab"));
    assert!(!uloc::locale::has_nul(b""));
}

#[test]
fn native_function_sees_the_c_string_and_the_default_capacity() {
    let seen: RefCell<Vec<(Vec<u8>, usize)>> = RefCell::new(Vec::new());
    let spy = |name: &Vec<u8>, buffer: Vec<u8>| {
        seen.borrow_mut().push((name.clone(), buffer.len()));
        assert!(buffer.iter().all(|b| *b == 0));
        get_language(name, buffer)
    };
    let loc = ULoc::try_from("es-CO", canonicalize).unwrap();
    assert_eq!(loc.language(&spy).unwrap(), "es");
    assert_eq!(*seen.borrow(), vec![(b"es_CO\0".to_vec(), LOCALE_CAPACITY)]);
}

#[test]
fn strict_flag_is_passed_as_one_or_zero() {
    let seen = Cell::new(-1i8);
    let spy = |args: &(Vec<u8>, i8), buffer: Vec<u8>| {
        seen.set(args.1);
        assert_eq!(args.0, b"sr_Cyrl_RS\0".to_vec());
        to_tag(args, buffer)
    };
    let loc = ULoc::try_from("sr_Cyrl_RS", canonicalize).unwrap();
    assert_eq!(loc.to_language_tag(true, &spy).unwrap(), "sr-Cyrl-RS");
    assert_eq!(seen.get(), 1);
    assert_eq!(loc.to_language_tag(false, &spy).unwrap(), "sr-Cyrl-RS");
    assert_eq!(seen.get(), 0);
}

#[test]
fn strict_conversion_fails_where_the_native_function_does() {
    let keyed = |_name: &Vec<u8>, buffer: Vec<u8>| write("en_US@x=y", buffer);
    let loc = ULoc::try_from("en-US", keyed).unwrap();
    assert_eq!(loc.to_language_tag(true, to_tag), Err(Error::Native(1)));
    assert_eq!(loc.to_language_tag(false, to_tag).unwrap(), "en-US@x=y");
}

#[test]
fn long_canonical_form_is_fetched_with_a_second_call() {
    let long: String = format!("en_US@{}", "x".repeat(300));
    let sizes: RefCell<Vec<usize>> = RefCell::new(Vec::new());
    let native = |_name: &Vec<u8>, buffer: Vec<u8>| {
        sizes.borrow_mut().push(buffer.len());
        write(&long, buffer)
    };
    let loc = ULoc::try_from("en-US", &native).unwrap();
    assert_eq!(loc.label(), long);
    assert_eq!(*sizes.borrow(), vec![LOCALE_CAPACITY, long.len()]);
}

#[test]
fn set_default_reports_a_failure_status() {
    let loc = ULoc::try_from("fr-fr", canonicalize).unwrap();
    let seen: RefCell<Vec<u8>> = RefCell::new(Vec::new());
    let refuse = |name: &Vec<u8>| -> i32 {
        *seen.borrow_mut() = name.clone();
        7
    };
    assert_eq!(set_default(&loc, &refuse), Err(Error::Native(7)));
    assert_eq!(*seen.borrow(), b"fr_FR\0".to_vec());
    let warn = |_name: &Vec<u8>| -> i32 { -128 };
    assert_eq!(set_default(&loc, warn), Ok(()));
}

#[test]
fn default_is_made_through_canonicalization() {
    let spelled = || b"sr-cyrl-rs".to_vec();
    assert_eq!(get_default(spelled, canonicalize).label(), "sr_Cyrl_RS");
    let long = format!("en_US@{}", "d".repeat(200));
    let sizes: RefCell<Vec<usize>> = RefCell::new(Vec::new());
    let native = |_name: &Vec<u8>, buffer: Vec<u8>| {
        sizes.borrow_mut().push(buffer.len());
        write(&long, buffer)
    };
    assert_eq!(get_default(spelled, &native).label(), long);
    assert_eq!(*sizes.borrow(), vec![LOCALE_CAPACITY, long.len()]);
}

#[test]
fn bytes_that_are_not_text_are_refused() {
    assert_eq!(
        ULoc::try_from_c_bytes(vec![0xc3], canonicalize),
        Err(Error::Validation)
    );
    assert_eq!(
        ULoc::try_from_c_bytes(b"fr-fr".to_vec(), canonicalize).unwrap().label(),
        "fr_FR"
    );
    assert_eq!(
        ULoc::try_from_c_bytes(b"fr\0fr".to_vec(), canonicalize),
        Err(Error::Validation)
    );
}
