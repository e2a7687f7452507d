//! Language negotiation: the best match between the locales that a client
//! accepts, in the order of its preference, and the locales that are on offer.
//!
//! The matching itself is the native library's. This module prepares what the
//! native function takes, makes one run of the buffered calling convention
//! against it, and reads the answer: the quality of the match, which the
//! native function writes to an out-parameter, and the label of the matched
//! locale, which it writes to the buffer. A native call that ends with a
//! failure status is an error. A native call that succeeds and reports that
//! nothing matched is an answer and no error.

use vstd::prelude::*;
use crate::error::Error;
use crate::invocation::{buffered_string_with_retry, native_ready, run_yields, text_of, Reply};
use crate::locale::{c_string, locale_native_ready, made_through, ULoc};

verus! {

/// How well the matched locale fits what was asked for.
#[derive(Debug, Clone, Copy, PartialEq, Eq, Structural)]
pub enum AcceptResult {
    /// No locale on offer is acceptable.
    Failed,
    /// A locale on offer is one of the accepted locales.
    Valid,
    /// A locale on offer stands in for an accepted locale that is more
    /// specific.
    Fallback,
}

impl AcceptResult {
    /// The number that the native library uses for this quality.
    pub open spec fn spec_code(self) -> i32 {
        match self {
            AcceptResult::Failed => 0i32,
            AcceptResult::Valid => 1i32,
            AcceptResult::Fallback => 2i32,
        }
    }

    /// The number that the native library uses for this quality.
    pub fn code(self) -> (code: i32)
        ensures
            code == self.spec_code(),
    {
        match self {
            AcceptResult::Failed => 0,
            AcceptResult::Valid => 1,
            AcceptResult::Fallback => 2,
        }
    }

    /// The quality that the native library means by a number.
    pub fn from_code(code: i32) -> (quality: Option<AcceptResult>)
        ensures
            quality matches Some(q) ==> q.spec_code() == code,
            quality is None <==> !(0 <= code <= 2),
    {
        if code == 0 {
            Some(AcceptResult::Failed)
        } else if code == 1 {
            Some(AcceptResult::Valid)
        } else if code == 2 {
            Some(AcceptResult::Fallback)
        } else {
            None
        }
    }
}

/// What the native negotiation takes besides the buffer.
#[derive(Debug)]
pub struct Request {
    /// The C strings of the accepted locales, in the order of preference.
    pub accept_list: Vec<Vec<u8>>,
    /// The labels of the locales on offer.
    pub available: Vec<String>,
}

/// Whether `request` holds the accepted locales and the locales on offer, each
/// list in its order.
pub open spec fn request_holds(request: Request, accept_list: Seq<ULoc>, available: Seq<ULoc>) -> bool {
    &&& request.accept_list@.len() == accept_list.len()
    &&& forall|i: int|
        0 <= i < accept_list.len() ==> (#[trigger] request.accept_list@[i])@ == c_string(
            accept_list[i]@,
        )
    &&& request.available@.len() == available.len()
    &&& forall|i: int|
        0 <= i < available.len() ==> (#[trigger] request.available@[i])@ == available[i]@
}

/// The label to make the matched locale from, if there is a match. The
/// failure of a run that ended with a failure status comes first. Else there
/// is none where the quality is `Failed`, whatever bytes or length came back.
/// Else it is the text of the run, or the error in its place.
pub open spec fn label_to_parse(
    text: Result<Seq<char>, Error>,
    quality: AcceptResult,
) -> Result<Option<Seq<char>>, Error> {
    match text {
        Err(Error::Native(code)) => Err(Error::Native(code)),
        Err(e) => if quality == AcceptResult::Failed {
            Ok(None)
        } else {
            Err(e)
        },
        Ok(label) => if quality == AcceptResult::Failed {
            Ok(None)
        } else {
            Ok(Some(label))
        },
    }
}

/// The outcome of a negotiation, with the label in place of the locale.
pub open spec fn outcome_of(
    result: Result<(Option<ULoc>, AcceptResult), Error>,
) -> Result<(Option<Seq<char>>, AcceptResult), Error> {
    match result {
        Ok((Some(locale), quality)) => Ok((Some(locale@), quality)),
        Ok((None, quality)) => Ok((None, quality)),
        Err(e) => Err(e),
    }
}

/// `outcome` is what a native answer of `text` and `quality` may lead to: the
/// failure of the run where it ended with a failure status, else no match
/// where the quality is `Failed`, else the error of the run or the locale that
/// `canonicalize` makes of the matched label, with the quality.
pub open spec fn negotiated<C: Fn(&Vec<u8>, Vec<u8>) -> Reply<()>>(
    canonicalize: C,
    text: Result<Seq<char>, Error>,
    quality: AcceptResult,
    outcome: Result<(Option<Seq<char>>, AcceptResult), Error>,
) -> bool {
    match label_to_parse(text, quality) {
        Ok(None) => outcome == Ok::<(Option<Seq<char>>, AcceptResult), Error>((None, quality)),
        Ok(Some(label)) => exists|made: Result<Seq<char>, Error>| #[trigger]
            made_through(canonicalize, label, made) && outcome == match made {
                Ok(matched) => Ok((Some(matched), quality)),
                Err(e) => Err(e),
            },
        Err(e) => outcome == Err::<(Option<Seq<char>>, AcceptResult), Error>(e),
    }
}

/// Reads the native answer: the label to make the matched locale from, if
/// there is a match.
pub fn matched_label(
    text: Result<String, Error>,
    quality: AcceptResult,
) -> (label: Result<Option<String>, Error>)
    ensures
        match label_to_parse(text_of(text), quality) {
            Ok(None) => label matches Ok(None),
            Ok(Some(expected)) => label matches Ok(Some(found)) && found@ == expected,
            Err(e) => label matches Err(found) && found == e,
        },
{
    match text {
        Err(Error::Native(code)) => Err(Error::Native(code)),
        Err(e) => match quality {
            AcceptResult::Failed => Ok(None),
            _ => Err(e),
        },
        Ok(label) => match quality {
            AcceptResult::Failed => Ok(None),
            _ => Ok(Some(label)),
        },
    }
}

/// What the native negotiation takes for these two lists.
pub fn request_for(accept_list: &Vec<ULoc>, available_locales: &Vec<ULoc>) -> (request: Request)
    ensures
        request_holds(request, accept_list@, available_locales@),
{
    let mut names: Vec<Vec<u8>> = Vec::new();
    let mut i: usize = 0;
    while i < accept_list.len()
        invariant
            i <= accept_list.len(),
            names@.len() == i,
            forall|j: int| 0 <= j < i ==> (#[trigger] names@[j])@ == c_string(accept_list@[j]@),
        decreases accept_list.len() - i,
    {
        names.push(accept_list[i].as_c_str());
        i += 1;
    }
    let mut labels: Vec<String> = Vec::new();
    let mut k: usize = 0;
    while k < available_locales.len()
        invariant
            k <= available_locales.len(),
            labels@.len() == k,
            forall|j: int| 0 <= j < k ==> (#[trigger] labels@[j])@ == available_locales@[j]@,
        decreases available_locales.len() - k,
    {
        labels.push(available_locales[k].label().to_owned());
        k += 1;
    }
    Request { accept_list: names, available: labels }
}

/// `negotiate` may be run on the request for these two lists, and
/// `canonicalize` on any label.
pub open spec fn negotiation_ready<
    N: Fn(&Request, Vec<u8>) -> Reply<AcceptResult>,
    C: Fn(&Vec<u8>, Vec<u8>) -> Reply<()>,
>(negotiate: N, canonicalize: C, accept_list: Seq<ULoc>, available: Seq<ULoc>) -> bool {
    &&& forall|request: Request|
        request_holds(request, accept_list, available) ==> #[trigger] native_ready(
            negotiate,
            &request,
        )
    &&& forall|label: Seq<char>| #[trigger] locale_native_ready(canonicalize, label)
}

/// `outcome` is what a negotiation over these two lists may give: what the
/// answer of a run of `negotiate` on their request leads to.
pub open spec fn negotiation_yields<
    N: Fn(&Request, Vec<u8>) -> Reply<AcceptResult>,
    C: Fn(&Vec<u8>, Vec<u8>) -> Reply<()>,
>(
    negotiate: N,
    canonicalize: C,
    accept_list: Seq<ULoc>,
    available: Seq<ULoc>,
    outcome: Result<(Option<Seq<char>>, AcceptResult), Error>,
) -> bool {
    exists|request: Request, text: Result<Seq<char>, Error>, quality: AcceptResult|
        request_holds(request, accept_list, available) && #[trigger] run_yields(
            negotiate,
            &request,
            text,
            quality,
        ) && negotiated(canonicalize, text, quality, outcome)
}

/// Finds the best match between the accepted locales and the locales on
/// offer.
///
/// Makes one run of `negotiate`, which writes the label of the match to the
/// buffer and its quality to the reply. A run that ends with a failure status
/// is an error, whatever the quality says. Else, where the quality is
/// `Failed`, the result is no match, and no error, whatever bytes or length
/// came back. Else an error of the run is returned, or the matched label is
/// made into a locale through `canonicalize`. A locale is returned exactly
/// where the quality is not `Failed`.
pub fn accept_language<
    N: Fn(&Request, Vec<u8>) -> Reply<AcceptResult>,
    C: Fn(&Vec<u8>, Vec<u8>) -> Reply<()>,
>(
    accept_list: Vec<ULoc>,
    available_locales: Vec<ULoc>,
    negotiate: N,
    canonicalize: C,
) -> (result: Result<(Option<ULoc>, AcceptResult), Error>)
    requires
        negotiation_ready(negotiate, canonicalize, accept_list@, available_locales@),
    ensures
        negotiation_yields(
            negotiate,
            canonicalize,
            accept_list@,
            available_locales@,
            outcome_of(result),
        ),
        result matches Ok((matched, quality)) ==> (matched is Some <==> quality
            != AcceptResult::Failed),
{
    let request = request_for(&accept_list, &available_locales);
    let (text, quality) = buffered_string_with_retry(negotiate, &request);
    match matched_label(text, quality) {
        Ok(None) => Ok((None, quality)),
        Ok(Some(label)) => match ULoc::try_from(label.as_str(), canonicalize) {
            Ok(locale) => Ok((Some(locale), quality)),
            Err(e) => Err(e),
        },
        Err(e) => Err(e),
    }
}

impl ULoc {
    /// Finds the best match between the accepted locales and the locales on
    /// offer: another way to call [`accept_language`].
    pub fn accept_language<
        N: Fn(&Request, Vec<u8>) -> Reply<AcceptResult>,
        C: Fn(&Vec<u8>, Vec<u8>) -> Reply<()>,
    >(
        accept_list: Vec<ULoc>,
        available_locales: Vec<ULoc>,
        negotiate: N,
        canonicalize: C,
    ) -> (result: Result<(Option<ULoc>, AcceptResult), Error>)
        requires
            negotiation_ready(negotiate, canonicalize, accept_list@, available_locales@),
        ensures
            negotiation_yields(
                negotiate,
                canonicalize,
                accept_list@,
                available_locales@,
                outcome_of(result),
            ),
            result matches Ok((matched, quality)) ==> (matched is Some <==> quality
                != AcceptResult::Failed),
    {
        accept_language(accept_list, available_locales, negotiate, canonicalize)
    }
}

/// That nothing matched is never an error: where the run ended without a
/// failure status and the native answer has the quality `Failed`, the outcome
/// is no match with that quality.
pub proof fn lemma_no_match_is_no_error<C: Fn(&Vec<u8>, Vec<u8>) -> Reply<()>>(
    canonicalize: C,
    text: Result<Seq<char>, Error>,
    outcome: Result<(Option<Seq<char>>, AcceptResult), Error>,
)
    requires
        !(text matches Err(Error::Native(_))),
        negotiated(canonicalize, text, AcceptResult::Failed, outcome),
    ensures
        outcome == Ok::<(Option<Seq<char>>, AcceptResult), Error>((None, AcceptResult::Failed)),
{
}

/// A failed native call is always an error: where the run ended with a
/// failure status, the outcome is the error that carries its code, whatever
/// the quality says.
pub proof fn lemma_failed_call_is_an_error<C: Fn(&Vec<u8>, Vec<u8>) -> Reply<()>>(
    canonicalize: C,
    code: i32,
    quality: AcceptResult,
    outcome: Result<(Option<Seq<char>>, AcceptResult), Error>,
)
    requires
        negotiated(canonicalize, Err(Error::Native(code)), quality, outcome),
    ensures
        outcome == Err::<(Option<Seq<char>>, AcceptResult), Error>(Error::Native(code)),
{
}

} // verus!
