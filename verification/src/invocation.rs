//! The calling convention for native functions that write text into a buffer.
//!
//! Such a function takes a buffer and its capacity, writes as much of its
//! output as fits, and reports a status code and the length that the whole
//! output needs. Some of these functions report an overflow through the status
//! code; others truncate silently and report success. Either way the function
//! is called once more, with a buffer of exactly the length that it asked for,
//! and never a third time.
//!
//! [`Invocation`] holds the decisions of this convention as a state machine:
//! the caller makes the native call and hands over what it reported, the
//! machine says whether to call again and with which buffer, or what the result
//! is. [`buffered_string_with_retry`] runs the machine against a native
//! function that is given as a closure.

use vstd::prelude::*;
use vstd::utf8::*;
use crate::error::Error;
use crate::status::{ok_or_warning, is_ok, is_buffer_overflow, status_result, BUFFER_OVERFLOW_CODE, OK_CODE};

verus! {

/// The capacity of the buffer that is offered to the first call: the largest
/// locale identifier that the native library documents.
pub const LOCALE_CAPACITY: usize = 158;

/// A buffer of `n` zero bytes.
pub open spec fn zeros(n: nat) -> Seq<u8> {
    Seq::new(n, |i: int| 0u8)
}

/// The bytes cut down to `n`, or filled up to `n` with zero bytes.
pub open spec fn resized(bytes: Seq<u8>, n: nat) -> Seq<u8> {
    if n <= bytes.len() {
        bytes.subrange(0, n as int)
    } else {
        bytes + zeros((n - bytes.len()) as nat)
    }
}

/// Whether a call that was offered `capacity` bytes says that they were too
/// few: by its status code, or by reporting success with a greater length.
pub open spec fn signals_overflow(length: i32, status: i32, capacity: nat) -> bool {
    status == BUFFER_OVERFLOW_CODE || (status == OK_CODE && length > capacity)
}

/// Whether the call is repeated. A call that signals an overflow is repeated
/// once it names a positive length to repeat it with.
pub open spec fn wants_retry(length: i32, status: i32, capacity: nat) -> bool {
    signals_overflow(length, status, capacity) && length > 0
}

/// The text that a string holds, or the error in its place.
pub open spec fn text_of(result: Result<String, Error>) -> Result<Seq<char>, Error> {
    match result {
        Ok(s) => Ok(s@),
        Err(e) => Err(e),
    }
}

/// The text of the first `length` bytes, where they are valid UTF-8.
pub open spec fn decoded(bytes: Seq<u8>, length: nat) -> Result<Seq<char>, Error> {
    let text = resized(bytes, length);
    if valid_utf8(text) {
        Ok(decode_utf8(text))
    } else {
        Err(Error::Encoding)
    }
}

/// The result of the last call: the error of a failure status, else the
/// first `length` bytes of the buffer as text.
pub open spec fn concluded(length: int, status: i32, bytes: Seq<u8>) -> Result<Seq<char>, Error> {
    if status_result(status) is Err {
        Err(Error::Native(status))
    } else if length < 0 {
        Err(Error::Conversion)
    } else {
        decoded(bytes, length as nat)
    }
}

/// `String::from_utf8`: the bytes become a string exactly when they are valid
/// UTF-8, and the string then holds the characters that they encode.
#[verifier::external_body]
pub(crate) fn string_from_utf8(bytes: Vec<u8>) -> (text: Option<String>)
    ensures
        text is Some <==> valid_utf8(bytes@),
        text matches Some(s) ==> s@ == decode_utf8(bytes@),
{
    match String::from_utf8(bytes) {
        Ok(s) => Some(s),
        Err(_) => None,
    }
}

/// Cuts the buffer down to `length` bytes, or fills it up with zero bytes.
pub fn resize_buffer(buffer: Vec<u8>, length: usize) -> (sized: Vec<u8>)
    ensures
        sized@ == resized(buffer@, length as nat),
{
    let mut sized = buffer;
    let ghost before = sized@;
    sized.resize(length, 0u8);
    proof {
        if length > before.len() {
            assert(sized@ =~= before + zeros((length - before.len()) as nat));
        }
    }
    sized
}

/// Reads the first `length` bytes of the buffer as UTF-8 text.
pub fn decode(buffer: Vec<u8>, length: usize) -> (result: Result<String, Error>)
    ensures
        text_of(result) == decoded(buffer@, length as nat),
{
    let sized = resize_buffer(buffer, length);
    match string_from_utf8(sized) {
        Some(s) => Ok(s),
        None => Err(Error::Encoding),
    }
}

/// What the machine answers to the first reply, seen from contracts.
pub enum StepView {
    /// Call once more, with a buffer of `capacity` bytes that holds `buffer`.
    Retry { capacity: nat, buffer: Seq<u8> },
    /// The run is over with this result.
    Done(Result<Seq<char>, Error>),
}

/// The answer to a first call that was offered `capacity` bytes, reported
/// `length` and `status`, and left `bytes` in the buffer.
pub open spec fn after_first(capacity: nat, length: i32, status: i32, bytes: Seq<u8>) -> StepView {
    if wants_retry(length, status, capacity) {
        StepView::Retry { capacity: length as nat, buffer: resized(bytes, length as nat) }
    } else {
        StepView::Done(concluded(length as int, status, bytes))
    }
}

/// The result after a second call that was offered `capacity` bytes, reported
/// `status`, and left `bytes` in the buffer.
pub open spec fn after_second(capacity: nat, status: i32, bytes: Seq<u8>) -> Result<Seq<char>, Error> {
    concluded(capacity as int, status, bytes)
}

/// A run of the convention whose first call is outstanding.
#[derive(Debug)]
pub struct Invocation {
    capacity: usize,
}

/// A run of the convention whose second call is outstanding.
#[derive(Debug)]
pub struct Retry {
    capacity: usize,
}

/// What the machine answers to the first reply.
#[derive(Debug)]
pub enum Step {
    /// Call once more: the state to go on with and the buffer to offer.
    Retry(Retry, Vec<u8>),
    /// The run is over with this result.
    Done(Result<String, Error>),
}

impl View for Step {
    type V = StepView;

    open spec fn view(&self) -> StepView {
        match *self {
            Step::Retry(retry, buffer) => StepView::Retry {
                capacity: retry.spec_capacity(),
                buffer: buffer@,
            },
            Step::Done(result) => StepView::Done(text_of(result)),
        }
    }
}

impl Invocation {
    /// The capacity of the buffer that the first call is offered.
    pub closed spec fn spec_capacity(&self) -> nat {
        self.capacity as nat
    }

    /// Starts a run: the state, and the buffer to offer to the first call.
    pub fn begin() -> (start: (Invocation, Vec<u8>))
        ensures
            start.0.spec_capacity() == LOCALE_CAPACITY,
            start.1@ == zeros(LOCALE_CAPACITY as nat),
    {
        let buffer = resize_buffer(Vec::new(), LOCALE_CAPACITY);
        (Invocation { capacity: LOCALE_CAPACITY }, buffer)
    }

    /// The capacity to pass to the first call.
    pub fn capacity(&self) -> (capacity: usize)
        ensures
            capacity == self.spec_capacity(),
    {
        self.capacity
    }

    /// Takes what the first call reported and left in the buffer, and answers
    /// with the second call to make or with the result.
    pub fn first_reply(self, length: i32, status: i32, buffer: Vec<u8>) -> (step: Step)
        ensures
            step@ == after_first(self.spec_capacity(), length, status, buffer@),
    {
        if overflows(length, status, self.capacity) && length > 0 {
            let required = length as usize;
            Step::Retry(Retry { capacity: required }, resize_buffer(buffer, required))
        } else {
            match ok_or_warning(status) {
                Err(e) => Step::Done(Err(e)),
                Ok(()) => {
                    if length < 0 {
                        Step::Done(Err(Error::Conversion))
                    } else {
                        Step::Done(decode(buffer, length as usize))
                    }
                },
            }
        }
    }
}

impl Retry {
    /// The capacity of the buffer that the second call is offered.
    pub closed spec fn spec_capacity(&self) -> nat {
        self.capacity as nat
    }

    /// The capacity to pass to the second call: the length that the first
    /// call reported.
    pub fn capacity(&self) -> (capacity: usize)
        ensures
            capacity == self.spec_capacity(),
            0 < capacity <= i32::MAX,
    {
        proof {
            use_type_invariant(self);
        }
        self.capacity
    }

    #[verifier::type_invariant]
    spec fn fits_native_length(&self) -> bool {
        0 < self.capacity <= i32::MAX
    }

    /// Takes what the second call reported and left in the buffer, and gives
    /// the result of the run.
    ///
    /// The second call was offered exactly the length that the first one asked
    /// for. A second call that signals an overflow all the same has broken the
    /// convention; no result is defined for it.
    pub fn second_reply(
        self,
        length: i32,
        status: i32,
        buffer: Vec<u8>,
    ) -> (result: Result<String, Error>)
        requires
            !signals_overflow(length, status, self.spec_capacity()),
        ensures
            text_of(result) == after_second(self.spec_capacity(), status, buffer@),
    {
        match ok_or_warning(status) {
            Err(e) => Err(e),
            Ok(()) => decode(buffer, self.capacity),
        }
    }
}

/// Whether a call that was offered `capacity` bytes signals an overflow.
pub fn overflows(length: i32, status: i32, capacity: usize) -> (overflow: bool)
    ensures
        overflow == signals_overflow(length, status, capacity as nat),
{
    is_buffer_overflow(status) || (is_ok(status) && length > 0 && length as usize > capacity)
}

/// The capacities of the buffers that a run offers, in the order of its
/// calls, where the first call reports `length` and `status` and leaves
/// `bytes`.
pub open spec fn capacities_offered(length: i32, status: i32, bytes: Seq<u8>) -> Seq<nat> {
    match after_first(LOCALE_CAPACITY as nat, length, status, bytes) {
        StepView::Retry { capacity, buffer } => seq![LOCALE_CAPACITY as nat, capacity],
        StepView::Done(_) => seq![LOCALE_CAPACITY as nat],
    }
}

/// Where the first call signals that its buffer was too small and names a
/// positive length, the run makes exactly two calls, and the second call is
/// offered exactly the length that the first one reported.
pub proof fn lemma_overflow_retries_once(length: i32, status: i32, bytes: Seq<u8>)
    requires
        signals_overflow(length, status, LOCALE_CAPACITY as nat),
        length > 0,
    ensures
        capacities_offered(length, status, bytes) == seq![LOCALE_CAPACITY as nat, length as nat],
        after_first(LOCALE_CAPACITY as nat, length, status, bytes) == (StepView::Retry {
            capacity: length as nat,
            buffer: resized(bytes, length as nat),
        }),
        resized(bytes, length as nat).len() == length,
{
}

/// A first call that reports a length of zero is never repeated, and unless
/// its status is a failure the result is the empty text.
pub proof fn lemma_zero_length_is_empty(status: i32, bytes: Seq<u8>)
    ensures
        capacities_offered(0, status, bytes) == seq![LOCALE_CAPACITY as nat],
        status <= OK_CODE ==> after_first(LOCALE_CAPACITY as nat, 0, status, bytes)
            == StepView::Done(Ok(Seq::<char>::empty())),
        status > OK_CODE ==> after_first(LOCALE_CAPACITY as nat, 0, status, bytes)
            == StepView::Done(Err(Error::Native(status))),
{
    assert(resized(bytes, 0) =~= Seq::<u8>::empty());
}

/// What one native call reported.
#[derive(Debug)]
pub struct Reply<T> {
    /// The length that the whole output needs.
    pub length: i32,
    /// The status code.
    pub status: i32,
    /// The buffer that was offered, as the call left it.
    pub buffer: Vec<u8>,
    /// What the call wrote to its other out-parameters.
    pub out: T,
}

/// `reply` is what `native` may report when it is offered the first buffer.
pub open spec fn first_call<A, T, F: Fn(&A, Vec<u8>) -> Reply<T>>(
    native: F,
    args: &A,
    reply: Reply<T>,
) -> bool {
    exists|buffer: Vec<u8>|
        buffer@ == zeros(LOCALE_CAPACITY as nat) && #[trigger] call_ensures(
            native,
            (args, buffer),
            reply,
        )
}

/// `reply` is what `native` may report when it is offered, after `first`, a
/// buffer of exactly the length that `first` asked for.
pub open spec fn second_call<A, T, F: Fn(&A, Vec<u8>) -> Reply<T>>(
    native: F,
    args: &A,
    first: Reply<T>,
    reply: Reply<T>,
) -> bool {
    exists|buffer: Vec<u8>|
        buffer@ == resized(first.buffer@, first.length as nat) && #[trigger] call_ensures(
            native,
            (args, buffer),
            reply,
        )
}

/// `native` keeps its side of the convention: offered a buffer of exactly the
/// length that it asked for, it does not signal an overflow again.
pub open spec fn keeps_exact_size<A, T, F: Fn(&A, Vec<u8>) -> Reply<T>>(native: F, args: &A) -> bool {
    forall|first: Reply<T>, second: Reply<T>|
        first_call(native, args, first) && wants_retry(
            first.length,
            first.status,
            LOCALE_CAPACITY as nat,
        ) && #[trigger] second_call(native, args, first, second) ==> !signals_overflow(
            second.length,
            second.status,
            first.length as nat,
        )
}

/// `text` and `out` are what a run against `native` may yield: those of the
/// first call where it is not repeated, else those of the second call.
pub open spec fn run_yields<A, T, F: Fn(&A, Vec<u8>) -> Reply<T>>(
    native: F,
    args: &A,
    text: Result<Seq<char>, Error>,
    out: T,
) -> bool {
    exists|first: Reply<T>| #[trigger]
        first_call(native, args, first) && if wants_retry(
            first.length,
            first.status,
            LOCALE_CAPACITY as nat,
        ) {
            exists|second: Reply<T>| #[trigger]
                second_call(native, args, first, second) && out == second.out && text
                    == after_second(first.length as nat, second.status, second.buffer@)
        } else {
            out == first.out && text == concluded(
                first.length as int,
                first.status,
                first.buffer@,
            )
        }
}

/// `native` may be called with `args` and any buffer, and keeps its side of
/// the convention.
pub open spec fn native_ready<A, T, F: Fn(&A, Vec<u8>) -> Reply<T>>(native: F, args: &A) -> bool {
    &&& forall|buffer: Vec<u8>| call_requires(native, (args, buffer))
    &&& keeps_exact_size(native, args)
}

/// Calls `native` with a buffer of [`LOCALE_CAPACITY`] zero bytes and, where it
/// signals an overflow and names a positive length, once more with a buffer of
/// exactly that length. Returns the text that the last call left, or its
/// error, and what the last call wrote to its other out-parameters.
pub fn buffered_string_with_retry<A, T, F: Fn(&A, Vec<u8>) -> Reply<T>>(
    native: F,
    args: &A,
) -> (run: (Result<String, Error>, T))
    requires
        native_ready(native, args),
    ensures
        run_yields(native, args, text_of(run.0), run.1),
{
    let (start, buffer) = Invocation::begin();
    let first = native(args, buffer);
    assert(first_call(native, args, first));
    let ghost first_seen = first;
    let Reply { length, status, buffer, out } = first;
    match start.first_reply(length, status, buffer) {
        Step::Done(result) => (result, out),
        Step::Retry(retry, buffer) => {
            let second = native(args, buffer);
            assert(second_call(native, args, first_seen, second));
            let Reply { length, status, buffer, out } = second;
            (retry.second_reply(length, status, buffer), out)
        },
    }
}

} // verus!
