//! The engine's result codes and the errors of this crate.

use vstd::prelude::*;

verus! {

/// The outcome that the engine reports for one call.
#[derive(Debug, Clone, Copy, PartialEq, Eq, Structural)]
pub enum ResultCode {
    /// Success
    Success,
    /// Failed to load Open JTalk dictionary file
    NotLoadedOpenjtalkDictError,
    /// Failed to load the model
    LoadModelError,
    /// Failed to get supported device information
    GetSupportedDevicesError,
    /// GPU mode is not supported
    GpuSupportError,
    /// Failed to load meta information
    LoadMetasError,
    /// Status is uninitialized
    UninitializedStatusError,
    /// Invalid speaker ID specified
    InvalidSpeakerIdError,
    /// Invalid model index specified
    InvalidModelIndexError,
    /// Inference failed
    InferenceError,
    /// Failed to output context labels
    ExtractFullContextLabelError,
    /// Invalid UTF-8 string input
    InvalidUtf8InputError,
    /// Failed to parse Aquestalk-style text
    ParseKanaError,
    /// Invalid AudioQuery
    InvalidAudioQueryError,
}

/// Why an operation of this crate did not succeed.
#[derive(Debug, Clone, Copy, PartialEq, Eq, Structural)]
pub enum Error {
    /// The engine reported this failure. The code is never `ResultCode::Success`.
    Native(ResultCode),
    /// The engine returned an integer that is no result code.
    UnknownResultCode(i32),
    /// A string for the engine holds a zero byte, here at this index of its
    /// UTF-8 form. The engine was not called.
    InteriorNul(usize),
    /// The engine named an acceleration mode by an integer that is none.
    UnknownAccelerationMode(i32),
    /// Text from the engine is not UTF-8.
    InvalidUtf8,
}

/// The largest integer that is a result code.
pub const MAX_RAW_CODE: i32 = 13;

impl ResultCode {
    /// The integer by which the engine knows this code.
    pub open spec fn spec_raw(self) -> int {
        match self {
            ResultCode::Success => 0,
            ResultCode::NotLoadedOpenjtalkDictError => 1,
            ResultCode::LoadModelError => 2,
            ResultCode::GetSupportedDevicesError => 3,
            ResultCode::GpuSupportError => 4,
            ResultCode::LoadMetasError => 5,
            ResultCode::UninitializedStatusError => 6,
            ResultCode::InvalidSpeakerIdError => 7,
            ResultCode::InvalidModelIndexError => 8,
            ResultCode::InferenceError => 9,
            ResultCode::ExtractFullContextLabelError => 10,
            ResultCode::InvalidUtf8InputError => 11,
            ResultCode::ParseKanaError => 12,
            ResultCode::InvalidAudioQueryError => 13,
        }
    }

    /// The code that the engine knows by `raw`, if there is one.
    pub open spec fn spec_from_raw(raw: int) -> Option<ResultCode> {
        if raw == 0 {
            Some(ResultCode::Success)
        } else if raw == 1 {
            Some(ResultCode::NotLoadedOpenjtalkDictError)
        } else if raw == 2 {
            Some(ResultCode::LoadModelError)
        } else if raw == 3 {
            Some(ResultCode::GetSupportedDevicesError)
        } else if raw == 4 {
            Some(ResultCode::GpuSupportError)
        } else if raw == 5 {
            Some(ResultCode::LoadMetasError)
        } else if raw == 6 {
            Some(ResultCode::UninitializedStatusError)
        } else if raw == 7 {
            Some(ResultCode::InvalidSpeakerIdError)
        } else if raw == 8 {
            Some(ResultCode::InvalidModelIndexError)
        } else if raw == 9 {
            Some(ResultCode::InferenceError)
        } else if raw == 10 {
            Some(ResultCode::ExtractFullContextLabelError)
        } else if raw == 11 {
            Some(ResultCode::InvalidUtf8InputError)
        } else if raw == 12 {
            Some(ResultCode::ParseKanaError)
        } else if raw == 13 {
            Some(ResultCode::InvalidAudioQueryError)
        } else {
            None
        }
    }

    /// What an operation makes of the integer that the engine returned:
    /// nothing to report for 0, the named failure for another result code,
    /// and an error of its own for any other integer.
    pub open spec fn spec_check(raw: int) -> Result<(), Error> {
        match Self::spec_from_raw(raw) {
            Some(ResultCode::Success) => Ok(()),
            Some(code) => Err(Error::Native(code)),
            None => Err(Error::UnknownResultCode(raw as i32)),
        }
    }

    /// The integer by which the engine knows this code.
    pub fn raw(self) -> (raw: i32)
        ensures
            raw == self.spec_raw(),
            0 <= raw <= MAX_RAW_CODE,
    {
        match self {
            ResultCode::Success => 0,
            ResultCode::NotLoadedOpenjtalkDictError => 1,
            ResultCode::LoadModelError => 2,
            ResultCode::GetSupportedDevicesError => 3,
            ResultCode::GpuSupportError => 4,
            ResultCode::LoadMetasError => 5,
            ResultCode::UninitializedStatusError => 6,
            ResultCode::InvalidSpeakerIdError => 7,
            ResultCode::InvalidModelIndexError => 8,
            ResultCode::InferenceError => 9,
            ResultCode::ExtractFullContextLabelError => 10,
            ResultCode::InvalidUtf8InputError => 11,
            ResultCode::ParseKanaError => 12,
            ResultCode::InvalidAudioQueryError => 13,
        }
    }

    /// Names the integer that the engine returned. `None` says that it is no
    /// result code: no code stands in for it.
    pub fn from_raw(raw: i32) -> (code: Option<ResultCode>)
        ensures
            code == Self::spec_from_raw(raw as int),
            code is Some <==> 0 <= raw <= MAX_RAW_CODE,
            code is Some ==> code->0.spec_raw() == raw,
    {
        match raw {
            0 => Some(ResultCode::Success),
            1 => Some(ResultCode::NotLoadedOpenjtalkDictError),
            2 => Some(ResultCode::LoadModelError),
            3 => Some(ResultCode::GetSupportedDevicesError),
            4 => Some(ResultCode::GpuSupportError),
            5 => Some(ResultCode::LoadMetasError),
            6 => Some(ResultCode::UninitializedStatusError),
            7 => Some(ResultCode::InvalidSpeakerIdError),
            8 => Some(ResultCode::InvalidModelIndexError),
            9 => Some(ResultCode::InferenceError),
            10 => Some(ResultCode::ExtractFullContextLabelError),
            11 => Some(ResultCode::InvalidUtf8InputError),
            12 => Some(ResultCode::ParseKanaError),
            13 => Some(ResultCode::InvalidAudioQueryError),
            _ => None,
        }
    }

    /// Turns the integer that the engine returned into the outcome of the
    /// operation that made the call.
    pub fn check(raw: i32) -> (outcome: Result<(), Error>)
        ensures
            outcome == Self::spec_check(raw as int),
            outcome is Ok <==> raw == 0,
            outcome matches Err(Error::Native(code)) ==> code != ResultCode::Success
                && code.spec_raw() == raw,
            (outcome matches Err(Error::Native(_))) <==> 1 <= raw <= MAX_RAW_CODE,
            !(0 <= raw <= MAX_RAW_CODE) ==> outcome == Err::<(), Error>(
                Error::UnknownResultCode(raw),
            ),
    {
        match Self::from_raw(raw) {
            Some(ResultCode::Success) => Ok(()),
            Some(code) => Err(Error::Native(code)),
            None => Err(Error::UnknownResultCode(raw)),
        }
    }
}

/// Every result code has an integer between 0 and 13, and that integer names
/// the code again.
pub proof fn raw_names_its_code(code: ResultCode)
    ensures
        0 <= code.spec_raw() <= MAX_RAW_CODE,
        ResultCode::spec_from_raw(code.spec_raw()) == Some(code),
{
}

/// An integer that names a result code is the integer of that code: no
/// integer is taken for a code that it does not belong to.
pub proof fn code_keeps_its_raw(raw: int)
    ensures
        ResultCode::spec_from_raw(raw) matches Some(code) ==> code.spec_raw() == raw,
        ResultCode::spec_from_raw(raw) is Some <==> 0 <= raw <= MAX_RAW_CODE,
{
}

/// Of all the integers that the engine may answer, 0 alone is success.
pub proof fn only_zero_is_success(raw: int)
    ensures
        ResultCode::spec_check(raw) is Ok <==> raw == 0,
{
}

/// An answer other than 0 is reported as itself: under its own name where it
/// is a result code, and as an unknown code with its integer where it is not.
/// It is never taken for success or for another code.
pub proof fn failure_is_reported_as_itself(raw: i32)
    requires
        raw != 0,
    ensures
        1 <= raw <= MAX_RAW_CODE ==> (ResultCode::spec_check(raw as int) matches Err(
            Error::Native(code),
        ) && code.spec_raw() == raw && code != ResultCode::Success),
        !(1 <= raw <= MAX_RAW_CODE) ==> ResultCode::spec_check(raw as int) == Err::<(), Error>(
            Error::UnknownResultCode(raw),
        ),
{
}

/// What a call comes to depends on the engine's answer to that call alone:
/// whatever was answered before, and however it was reported, an answer of 0
/// is success.
pub proof fn success_follows_any_failure(earlier: int, later: int)
    requires
        earlier != 0,
        later == 0,
    ensures
        ResultCode::spec_check(earlier) is Err,
        ResultCode::spec_check(later) is Ok,
{
}

/// Two result codes with the same integer are the same code.
pub proof fn raw_tells_codes_apart(a: ResultCode, b: ResultCode)
    requires
        a.spec_raw() == b.spec_raw(),
    ensures
        a == b,
{
}

} // verus!
