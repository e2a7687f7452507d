//! The locale identifier and the operations that ask the native library
//! about it.
//!
//! An identifier is a canonical locale tag such as `en_US`. It is made only
//! from what the native canonicalization returned, and it never holds a NUL
//! byte, so that it can always be passed on as a C string. Every operation
//! makes one run of the buffered calling convention against the native
//! function that the caller hands in, with the identifier's C string as the
//! argument.

use vstd::prelude::*;
use vstd::pervasive::unreached;
use vstd::slice::slice_to_vec;
use vstd::utf8::*;
use crate::error::Error;
use crate::invocation::{
    buffered_string_with_retry,
    native_ready,
    run_yields,
    string_from_utf8,
    text_of,
    Reply,
};
use crate::status::{ok_or_warning, status_result};

verus! {

/// Whether one of the bytes is NUL.
pub open spec fn holds_nul(bytes: Seq<u8>) -> bool {
    exists|i: int| 0 <= i < bytes.len() && bytes[i] == 0u8
}

/// The C string of a text: its UTF-8 bytes and the closing NUL.
pub open spec fn c_string(text: Seq<char>) -> Seq<u8> {
    encode_utf8(text) + seq![0u8]
}

/// The flag that the native library takes for a truth value.
pub open spec fn native_flag(value: bool) -> i8 {
    if value {
        1i8
    } else {
        0i8
    }
}

/// The identifier that a run of a native function yields: its text, unless the
/// text holds a NUL byte.
pub open spec fn identifier_from(text: Result<Seq<char>, Error>) -> Result<Seq<char>, Error> {
    match text {
        Ok(label) => if holds_nul(encode_utf8(label)) {
            Err(Error::Validation)
        } else {
            Ok(label)
        },
        Err(e) => Err(e),
    }
}

/// The label of an identifier, or the error in its place.
pub open spec fn label_of(made: Result<ULoc, Error>) -> Result<Seq<char>, Error> {
    match made {
        Ok(locale) => Ok(locale@),
        Err(e) => Err(e),
    }
}

/// `native` may be run with the C string of `label` as its argument.
pub open spec fn locale_native_ready<F: Fn(&Vec<u8>, Vec<u8>) -> Reply<()>>(
    native: F,
    label: Seq<char>,
) -> bool {
    forall|name: Vec<u8>| name@ == c_string(label) ==> #[trigger] native_ready(native, &name)
}

/// `text` is what a run of `native` on the C string of `label` may yield.
pub open spec fn locale_run_yields<F: Fn(&Vec<u8>, Vec<u8>) -> Reply<()>>(
    native: F,
    label: Seq<char>,
    text: Result<Seq<char>, Error>,
) -> bool {
    exists|name: Vec<u8>| name@ == c_string(label) && #[trigger] run_yields(native, &name, text, ())
}

/// `made` is what making an identifier from `input` through `native` may
/// give: a validation error where `input` holds a NUL byte, else the
/// identifier of what a run of `native` on `input` yields.
pub open spec fn made_through<F: Fn(&Vec<u8>, Vec<u8>) -> Reply<()>>(
    native: F,
    input: Seq<char>,
    made: Result<Seq<char>, Error>,
) -> bool {
    if holds_nul(encode_utf8(input)) {
        made == Err::<Seq<char>, Error>(Error::Validation)
    } else {
        exists|text: Result<Seq<char>, Error>| #[trigger]
            locale_run_yields(native, input, text) && made == identifier_from(text)
    }
}

/// Whether one of the bytes is NUL.
pub fn has_nul(bytes: &[u8]) -> (found: bool)
    ensures
        found == holds_nul(bytes@),
{
    let mut i: usize = 0;
    while i < bytes.len()
        invariant
            i <= bytes.len(),
            forall|j: int| 0 <= j < i ==> bytes@[j] != 0u8,
        decreases bytes.len() - i,
    {
        if bytes[i] == 0 {
            return true;
        }
        i += 1;
    }
    false
}

/// The C string of a text that holds no NUL byte.
fn terminated(text: &str) -> (name: Vec<u8>)
    requires
        !holds_nul(encode_utf8(text@)),
    ensures
        name@ == c_string(text@),
{
    let mut name = slice_to_vec(text.as_bytes());
    name.push(0u8);
    name
}

/// The C string of a text: its UTF-8 bytes and the closing NUL. Text that
/// holds a NUL byte has no C string and is refused.
pub fn to_c_string(text: &str) -> (name: Result<Vec<u8>, Error>)
    ensures
        holds_nul(encode_utf8(text@)) ==> name == Err::<Vec<u8>, Error>(Error::Validation),
        !holds_nul(encode_utf8(text@)) ==> (name matches Ok(bytes) && bytes@ == c_string(text@)),
{
    if has_nul(text.as_bytes()) {
        Err(Error::Validation)
    } else {
        Ok(terminated(text))
    }
}

/// A locale identifier in canonical form.
#[derive(Debug, PartialEq, Eq)]
pub struct ULoc {
    repr: String,
}

impl View for ULoc {
    type V = Seq<char>;

    closed spec fn view(&self) -> Seq<char> {
        self.repr@
    }
}

impl ULoc {
    #[verifier::type_invariant]
    spec fn no_interior_nul(&self) -> bool {
        !holds_nul(encode_utf8(self.repr@))
    }

    /// Makes an identifier from what a run of the native canonicalization
    /// yielded. Text that holds a NUL byte is refused.
    pub fn from_canonical(text: Result<String, Error>) -> (made: Result<ULoc, Error>)
        ensures
            label_of(made) == identifier_from(text_of(text)),
    {
        match text {
            Ok(repr) => {
                if has_nul(repr.as_str().as_bytes()) {
                    Err(Error::Validation)
                } else {
                    Ok(ULoc { repr })
                }
            },
            Err(e) => Err(e),
        }
    }

    /// Makes an identifier from any spelling of a locale tag, by way of the
    /// native canonicalization. Text that holds a NUL byte is refused before
    /// any native call.
    pub fn try_from<F: Fn(&Vec<u8>, Vec<u8>) -> Reply<()>>(
        s: &str,
        canonicalize: F,
    ) -> (made: Result<ULoc, Error>)
        requires
            locale_native_ready(canonicalize, s@),
        ensures
            made_through(canonicalize, s@, label_of(made)),
    {
        match to_c_string(s) {
            Err(e) => Err(e),
            Ok(name) => {
                let (text, _) = buffered_string_with_retry(canonicalize, &name);
                assert(locale_run_yields(canonicalize, s@, text_of(text)));
                ULoc::from_canonical(text)
            },
        }
    }

    /// Makes an identifier from the bytes of a C string, without its closing
    /// NUL. Bytes that are not valid UTF-8 are refused like text that holds a
    /// NUL byte.
    pub fn try_from_c_bytes<F: Fn(&Vec<u8>, Vec<u8>) -> Reply<()>>(
        bytes: Vec<u8>,
        canonicalize: F,
    ) -> (made: Result<ULoc, Error>)
        requires
            valid_utf8(bytes@) ==> locale_native_ready(canonicalize, decode_utf8(bytes@)),
        ensures
            !valid_utf8(bytes@) ==> label_of(made) == Err::<Seq<char>, Error>(Error::Validation),
            valid_utf8(bytes@) ==> made_through(canonicalize, decode_utf8(bytes@), label_of(made)),
    {
        match string_from_utf8(bytes) {
            None => Err(Error::Validation),
            Some(s) => ULoc::try_from(s.as_str(), canonicalize),
        }
    }

    /// The label of this identifier.
    pub fn label(&self) -> (label: &str)
        ensures
            label@ == self@,
            !holds_nul(encode_utf8(self@)),
    {
        proof {
            use_type_invariant(self);
        }
        self.repr.as_str()
    }

    /// The label of this identifier as a C string: its UTF-8 bytes and the
    /// closing NUL, which is the only NUL byte in it.
    pub fn as_c_str(&self) -> (name: Vec<u8>)
        ensures
            name@ == c_string(self@),
            !holds_nul(encode_utf8(self@)),
    {
        terminated(self.label())
    }

    /// Runs `native` on this identifier and gives the text that it yields.
    fn call_buffered_string_method<F: Fn(&Vec<u8>, Vec<u8>) -> Reply<()>>(
        &self,
        native: F,
    ) -> (text: Result<String, Error>)
        requires
            locale_native_ready(native, self@),
        ensures
            locale_run_yields(native, self@, text_of(text)),
            !holds_nul(encode_utf8(self@)),
    {
        let name = self.as_c_str();
        let (text, _) = buffered_string_with_retry(native, &name);
        text
    }

    /// The language subtag, as `get_language` reports it.
    pub fn language<F: Fn(&Vec<u8>, Vec<u8>) -> Reply<()>>(
        &self,
        get_language: F,
    ) -> (text: Result<String, Error>)
        requires
            locale_native_ready(get_language, self@),
        ensures
            locale_run_yields(get_language, self@, text_of(text)),
    {
        self.call_buffered_string_method(get_language)
    }

    /// The script subtag, as `get_script` reports it.
    pub fn script<F: Fn(&Vec<u8>, Vec<u8>) -> Reply<()>>(
        &self,
        get_script: F,
    ) -> (text: Result<String, Error>)
        requires
            locale_native_ready(get_script, self@),
        ensures
            locale_run_yields(get_script, self@, text_of(text)),
    {
        self.call_buffered_string_method(get_script)
    }

    /// The country subtag, as `get_country` reports it.
    pub fn country<F: Fn(&Vec<u8>, Vec<u8>) -> Reply<()>>(
        &self,
        get_country: F,
    ) -> (text: Result<String, Error>)
        requires
            locale_native_ready(get_country, self@),
        ensures
            locale_run_yields(get_country, self@, text_of(text)),
    {
        self.call_buffered_string_method(get_country)
    }

    /// The variant subtag, as `get_variant` reports it.
    pub fn variant<F: Fn(&Vec<u8>, Vec<u8>) -> Reply<()>>(
        &self,
        get_variant: F,
    ) -> (text: Result<String, Error>)
        requires
            locale_native_ready(get_variant, self@),
        ensures
            locale_run_yields(get_variant, self@, text_of(text)),
    {
        self.call_buffered_string_method(get_variant)
    }

    /// The identifier in canonical form, as `canonicalize` gives it. The
    /// receiver is left as it is.
    pub fn canonicalize<F: Fn(&Vec<u8>, Vec<u8>) -> Reply<()>>(
        &self,
        canonicalize: F,
    ) -> (made: Result<ULoc, Error>)
        requires
            locale_native_ready(canonicalize, self@),
        ensures
            made_through(canonicalize, self@, label_of(made)),
    {
        let text = self.call_buffered_string_method(canonicalize);
        ULoc::from_canonical(text)
    }

    /// The identifier with the subtags that `add_likely` finds likely. The
    /// receiver is left as it is.
    pub fn add_likely_subtags<F: Fn(&Vec<u8>, Vec<u8>) -> Reply<()>>(
        &self,
        add_likely: F,
    ) -> (made: Result<ULoc, Error>)
        requires
            locale_native_ready(add_likely, self@),
        ensures
            made_through(add_likely, self@, label_of(made)),
    {
        let text = self.call_buffered_string_method(add_likely);
        ULoc::from_canonical(text)
    }

    /// The identifier without the subtags that `minimize` finds implied. The
    /// receiver is left as it is.
    pub fn minimize_subtags<F: Fn(&Vec<u8>, Vec<u8>) -> Reply<()>>(
        &self,
        minimize: F,
    ) -> (made: Result<ULoc, Error>)
        requires
            locale_native_ready(minimize, self@),
        ensures
            made_through(minimize, self@, label_of(made)),
    {
        let text = self.call_buffered_string_method(minimize);
        ULoc::from_canonical(text)
    }

    /// The identifier as a language tag, as `to_tag` converts it. The native
    /// function takes the C string and the strictness flag; in strict mode it
    /// fails where the identifier has no faithful tag.
    pub fn to_language_tag<F: Fn(&(Vec<u8>, i8), Vec<u8>) -> Reply<()>>(
        &self,
        strict: bool,
        to_tag: F,
    ) -> (text: Result<String, Error>)
        requires
            forall|args: (Vec<u8>, i8)|
                args.0@ == c_string(self@) && args.1 == native_flag(strict)
                    ==> #[trigger] native_ready(to_tag, &args),
        ensures
            exists|args: (Vec<u8>, i8)|
                args.0@ == c_string(self@) && args.1 == native_flag(strict) && #[trigger] run_yields(
                    to_tag,
                    &args,
                    text_of(text),
                    (),
                ),
    {
        let flag: i8 = if strict {
            1
        } else {
            0
        };
        let args = (self.as_c_str(), flag);
        let (text, _) = buffered_string_with_retry(to_tag, &args);
        text
    }
}

/// The label of an identifier that was made from `input` through `native` is
/// the text that a run of `native` on `input` yielded, and holds no NUL byte.
pub proof fn lemma_label_is_what_native_yields<F: Fn(&Vec<u8>, Vec<u8>) -> Reply<()>>(
    native: F,
    input: Seq<char>,
    label: Seq<char>,
)
    requires
        made_through(native, input, Ok(label)),
    ensures
        !holds_nul(encode_utf8(input)),
        locale_run_yields(native, input, Ok(label)),
        !holds_nul(encode_utf8(label)),
{
    let text = choose|text: Result<Seq<char>, Error>| #[trigger]
        locale_run_yields(native, input, text) && Ok::<Seq<char>, Error>(label) == identifier_from(
            text,
        );
    assert(text == Ok::<Seq<char>, Error>(label));
}

/// Where a run of `native` on a label can yield nothing but that label, the
/// identifier that is made from the label through `native` has the same
/// label: making an identifier adds nothing to what the native function
/// returned and takes nothing from it.
pub proof fn lemma_fixed_point_is_kept<F: Fn(&Vec<u8>, Vec<u8>) -> Reply<()>>(
    native: F,
    label: Seq<char>,
    made: Result<Seq<char>, Error>,
)
    requires
        !holds_nul(encode_utf8(label)),
        forall|text: Result<Seq<char>, Error>| #[trigger]
            locale_run_yields(native, label, text) ==> text == Ok::<Seq<char>, Error>(label),
        made_through(native, label, made),
    ensures
        made == Ok::<Seq<char>, Error>(label),
{
}

/// `native`, run on a text that a run of it yielded, can yield nothing but
/// that text again.
pub open spec fn idempotent<F: Fn(&Vec<u8>, Vec<u8>) -> Reply<()>>(native: F) -> bool {
    forall|input: Seq<char>, output: Seq<char>, again: Result<Seq<char>, Error>|
        #![trigger locale_run_yields(native, input, Ok(output)), locale_run_yields(native, output, again)]
        locale_run_yields(native, input, Ok(output)) && locale_run_yields(native, output, again)
            ==> again == Ok::<Seq<char>, Error>(output)
}

/// Where `native` is idempotent, an identifier that was made through it is
/// kept by it: made again from its own label, through the same function, it
/// has the same label. This holds of the canonical form under an idempotent
/// canonicalization, and of the minimal form under an idempotent
/// minimization.
pub proof fn lemma_idempotent_native_keeps_label<F: Fn(&Vec<u8>, Vec<u8>) -> Reply<()>>(
    native: F,
    input: Seq<char>,
    label: Seq<char>,
    again: Result<Seq<char>, Error>,
)
    requires
        idempotent(native),
        made_through(native, input, Ok(label)),
        made_through(native, label, again),
    ensures
        again == Ok::<Seq<char>, Error>(label),
{
    lemma_label_is_what_native_yields(native, input, label);
    lemma_fixed_point_is_kept(native, label, again);
}

/// Every name that `native_default` may return can be made into an
/// identifier through `canonicalize`: it is valid UTF-8 without a NUL byte,
/// and no run of `canonicalize` on it ends without an identifier.
pub open spec fn default_is_usable<D: Fn() -> Vec<u8>, C: Fn(&Vec<u8>, Vec<u8>) -> Reply<()>>(
    native_default: D,
    canonicalize: C,
) -> bool {
    forall|name: Vec<u8>| #[trigger]
        call_ensures(native_default, (), name) ==> {
            &&& valid_utf8(name@)
            &&& !holds_nul(name@)
            &&& locale_native_ready(canonicalize, decode_utf8(name@))
            &&& forall|text: Result<Seq<char>, Error>| #[trigger]
                locale_run_yields(canonicalize, decode_utf8(name@), text) ==> identifier_from(
                    text,
                ) is Ok
        }
}

/// Reads the default locale of the process: takes from `native_default` the
/// bytes of its name, without the closing NUL, and makes an identifier of
/// them through `canonicalize`.
///
/// The default of the process is trusted. A default that is not text, or that
/// the canonicalization does not accept, is not recoverable; no identifier is
/// defined for it.
pub fn get_default<D: Fn() -> Vec<u8>, C: Fn(&Vec<u8>, Vec<u8>) -> Reply<()>>(
    native_default: D,
    canonicalize: C,
) -> (made: ULoc)
    requires
        call_requires(native_default, ()),
        default_is_usable(native_default, canonicalize),
    ensures
        exists|name: Vec<u8>| #[trigger]
            call_ensures(native_default, (), name) && made_through(
                canonicalize,
                decode_utf8(name@),
                Ok(made@),
            ),
{
    let name = native_default();
    proof {
        decode_utf8_encode_utf8(name@);
    }
    match ULoc::try_from_c_bytes(name, canonicalize) {
        Ok(made) => made,
        Err(_) => unreached(),
    }
}

/// Makes `loc` the default locale of the process: hands its C string to
/// `set_native_default` and reads the status code that comes back. A failure
/// status is returned as an error.
pub fn set_default<F: Fn(&Vec<u8>) -> i32>(
    loc: &ULoc,
    set_native_default: F,
) -> (result: Result<(), Error>)
    requires
        forall|name: Vec<u8>| name@ == c_string(loc@) ==> call_requires(set_native_default, (&name,)),
    ensures
        exists|name: Vec<u8>, status: i32|
            name@ == c_string(loc@) && #[trigger] call_ensures(set_native_default, (&name,), status)
                && result == status_result(status),
{
    let name = loc.as_c_str();
    let status = set_native_default(&name);
    ok_or_warning(status)
}

} // verus!
