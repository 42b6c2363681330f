//! The handle of an initialized engine and the calls that go through it.

use crate::options::{AccelerationMode, InitializeOptions, TtsOptions};
use crate::release::Release;
use crate::result_code::{Error, ResultCode, MAX_RAW_CODE};
use crate::text::{c_string, first_nul, first_nul_at, is_c_string, native_text, nul_free};
use crate::wav::{bytes_of, Wav};
use vstd::prelude::*;
use vstd::utf8::{decode_utf8, encode_utf8, valid_utf8};

verus! {

/// The arguments of the engine's initialize.
#[derive(Debug)]
pub struct InitializeCall {
    /// The acceleration mode, as the engine numbers it.
    pub acceleration_mode: i32,
    /// Number of CPU threads.
    pub cpu_num_threads: u16,
    /// Whether every model is loaded at initialization.
    pub load_all_models: bool,
    /// The dictionary directory as a C string, terminator included.
    pub open_jtalk_dict_dir: Vec<u8>,
}

/// The arguments of the engine's tts.
#[derive(Debug)]
pub struct TtsCall {
    /// The text as a C string, terminator included.
    pub text: Vec<u8>,
    /// The speaker whose voice is used.
    pub speaker_id: u32,
    /// The flags of the synthesis; `None` asks for the engine's defaults.
    pub options: Option<TtsOptions>,
}

/// An initialization that was checked and awaits the engine's answer.
#[derive(Debug)]
pub struct Initialize {
    call: InitializeCall,
}

/// A model load that awaits the engine's answer. It borrows the handle, which
/// therefore outlives the call.
#[derive(Debug)]
pub struct LoadModel<'h> {
    #[allow(dead_code)]
    core: &'h VoicevoxCore,
    speaker_id: u32,
}

/// A synthesis that was checked and awaits the engine's answer. It borrows
/// the handle, which therefore outlives the call.
#[derive(Debug)]
pub struct Tts<'h> {
    #[allow(dead_code)]
    core: &'h VoicevoxCore,
    call: TtsCall,
}

/// The lookup of a result code's message, which awaits the engine's answer.
#[derive(Debug)]
pub struct MessageLookup {
    code: i32,
}

/// Provides functionality of Voicevox Core.
///
/// A value of this type exists only between a successful initialize and the
/// finalize that answers it: [`Initialize::finish`] is its one source, and
/// [`VoicevoxCore::finalize`] consumes it. It cannot be copied, so what was
/// given up cannot be used again. The engine is one per process: holding two
/// handles at a time is not guarded against and is the caller's to avoid.
#[derive(Debug)]
pub struct VoicevoxCore {
    seal: (),
}

impl Initialize {
    #[verifier::type_invariant]
    spec fn sound(self) -> bool {
        is_c_string(self.call.open_jtalk_dict_dir@)
    }

    /// The arguments to call the engine with.
    pub closed spec fn spec_call(&self) -> &InitializeCall {
        &self.call
    }

    /// The arguments to call the engine with. The directory is a C string.
    #[verifier::when_used_as_spec(spec_call)]
    pub fn call(&self) -> (call: &InitializeCall)
        ensures
            call == self.spec_call(),
            is_c_string(call.open_jtalk_dict_dir@),
    {
        proof {
            use_type_invariant(self);
        }
        &self.call
    }

    /// Makes of the engine's answer a handle or an error. There is a handle
    /// if and only if the engine answered 0; after any other answer nothing
    /// is left to finalize.
    pub fn finish(self, code: i32) -> (outcome: Result<VoicevoxCore, Error>)
        ensures
            outcome is Ok <==> code == 0,
            outcome matches Err(error) ==> ResultCode::spec_check(code as int) == Err::<(), Error>(
                error,
            ),
    {
        match ResultCode::check(code) {
            Ok(_) => Ok(VoicevoxCore { seal: () }),
            Err(error) => Err(error),
        }
    }
}

impl<'h> LoadModel<'h> {
    /// The speaker whose model the engine is asked to load.
    pub closed spec fn spec_speaker_id(&self) -> u32 {
        self.speaker_id
    }

    /// The speaker whose model the engine is asked to load.
    #[verifier::when_used_as_spec(spec_speaker_id)]
    pub fn speaker_id(&self) -> (speaker_id: u32)
        ensures
            speaker_id == self.spec_speaker_id(),
    {
        self.speaker_id
    }

    /// Makes of the engine's answer the outcome of the load.
    pub fn finish(self, code: i32) -> (outcome: Result<(), Error>)
        ensures
            outcome == ResultCode::spec_check(code as int),
            outcome is Ok <==> code == 0,
    {
        ResultCode::check(code)
    }
}

impl<'h> Tts<'h> {
    #[verifier::type_invariant]
    spec fn sound(self) -> bool {
        is_c_string(self.call.text@)
    }

    /// The arguments to call the engine with.
    pub closed spec fn spec_call(&self) -> &TtsCall {
        &self.call
    }

    /// The arguments to call the engine with. The text is a C string.
    #[verifier::when_used_as_spec(spec_call)]
    pub fn call(&self) -> (call: &TtsCall)
        ensures
            call == self.spec_call(),
            is_c_string(call.text@),
    {
        proof {
            use_type_invariant(self);
        }
        &self.call
    }

    /// Makes of the engine's answer a buffer or an error. `code` is what the
    /// engine returned, and `wav` the memory that its output pointer and
    /// length describe, `None` for a null pointer.
    ///
    /// The answer alone decides. There is a buffer if and only if the engine
    /// answered 0; it takes over exactly what the engine left, and reads as
    /// empty where that is nothing. After any other answer there is no
    /// buffer, whatever `wav` is, and nothing to free.
    pub fn finish<'a>(self, code: i32, wav: Option<&'a [u8]>) -> (outcome: Result<Wav<'a>, Error>)
        ensures
            outcome is Ok <==> code == 0,
            outcome matches Ok(buffer) ==> buffer.memory() == bytes_of(wav) && buffer@ == (match wav {
                Some(bytes) => bytes@,
                None => Seq::<u8>::empty(),
            }),
            outcome matches Err(error) ==> ResultCode::spec_check(code as int) == Err::<(), Error>(
                error,
            ),
    {
        match ResultCode::check(code) {
            Ok(_) => Ok(Wav::new(wav)),
            Err(error) => Err(error),
        }
    }
}

impl MessageLookup {
    #[verifier::type_invariant]
    spec fn sound(self) -> bool {
        0 <= self.code <= MAX_RAW_CODE
    }

    /// The integer to ask the engine about.
    pub closed spec fn spec_code(&self) -> i32 {
        self.code
    }

    /// The integer to ask the engine about. It is a result code.
    #[verifier::when_used_as_spec(spec_code)]
    pub fn code(&self) -> (code: i32)
        ensures
            code == self.spec_code(),
            0 <= code <= MAX_RAW_CODE,
    {
        proof {
            use_type_invariant(self);
        }
        self.code
    }

    /// Reads the message that the engine answered with, given as the bytes
    /// of its C string without the terminator.
    pub fn finish<'a>(self, message: &'a [u8]) -> (text: Result<&'a str, Error>)
        ensures
            text is Ok <==> valid_utf8(message@),
            text matches Ok(s) ==> s@ == decode_utf8(message@),
            text matches Err(error) ==> error == Error::InvalidUtf8,
    {
        native_text(message)
    }
}

impl VoicevoxCore {
    /// Prepares the lookup of the message for a result code. There is a
    /// lookup for every code, and it asks the engine about that code's own
    /// integer, which the engine documents.
    pub fn error_result_to_message(result_code: ResultCode) -> (pending: MessageLookup)
        ensures
            pending.code() == result_code.spec_raw(),
            ResultCode::spec_from_raw(pending.code() as int) == Some(result_code),
    {
        MessageLookup { code: result_code.raw() }
    }

    /// Checks the options and prepares the engine's initialize. The engine
    /// has not been called when this returns, and is never called for a
    /// directory with a zero byte in it. `finish` on what is returned takes
    /// the engine's answer and gives the handle.
    pub fn new(opt: InitializeOptions) -> (pending: Result<Initialize, Error>)
        ensures
            pending is Ok <==> nul_free(encode_utf8(opt.open_jtalk_dict_dir@)),
            pending matches Ok(p) ==> {
                &&& p.call().acceleration_mode == opt.acceleration_mode.spec_raw()
                &&& p.call().cpu_num_threads == opt.cpu_num_threads
                &&& p.call().load_all_models == opt.load_all_models
                &&& p.call().open_jtalk_dict_dir@ == encode_utf8(opt.open_jtalk_dict_dir@).push(0)
            },
            pending matches Err(error) ==> error == Error::InteriorNul(
                first_nul(encode_utf8(opt.open_jtalk_dict_dir@)) as usize,
            ) && first_nul_at(encode_utf8(opt.open_jtalk_dict_dir@), first_nul(encode_utf8(opt.open_jtalk_dict_dir@))),
    {
        match c_string(opt.open_jtalk_dict_dir.as_str()) {
            Ok(open_jtalk_dict_dir) => Ok(
                Initialize {
                    call: InitializeCall {
                        acceleration_mode: opt.acceleration_mode.raw(),
                        cpu_num_threads: opt.cpu_num_threads,
                        load_all_models: opt.load_all_models,
                        open_jtalk_dict_dir,
                    },
                },
            ),
            Err(error) => Err(error),
        }
    }

    /// Puts the parts into options and goes on as [`VoicevoxCore::new`].
    pub fn new_from_options(
        acceleration_mode: AccelerationMode,
        cpu_num_threads: u16,
        load_all_models: bool,
        open_jtalk_dict_dir: &str,
    ) -> (pending: Result<Initialize, Error>)
        ensures
            pending is Ok <==> nul_free(encode_utf8(open_jtalk_dict_dir@)),
            pending matches Ok(p) ==> {
                &&& p.call().acceleration_mode == acceleration_mode.spec_raw()
                &&& p.call().cpu_num_threads == cpu_num_threads
                &&& p.call().load_all_models == load_all_models
                &&& p.call().open_jtalk_dict_dir@ == encode_utf8(open_jtalk_dict_dir@).push(0)
            },
            pending matches Err(error) ==> error == Error::InteriorNul(
                first_nul(encode_utf8(open_jtalk_dict_dir@)) as usize,
            ) && first_nul_at(encode_utf8(open_jtalk_dict_dir@), first_nul(encode_utf8(open_jtalk_dict_dir@))),
    {
        let opt = InitializeOptions {
            acceleration_mode,
            cpu_num_threads,
            load_all_models,
            open_jtalk_dict_dir: open_jtalk_dict_dir.to_owned(),
        };
        Self::new(opt)
    }

    /// Prepares the load of the model for the specified speaker ID.
    pub fn load_model(&self, speaker_id: u32) -> (pending: LoadModel<'_>)
        ensures
            pending.speaker_id() == speaker_id,
    {
        LoadModel { core: self, speaker_id }
    }

    /// Prepares a synthesis with the engine's default flags.
    /// This is simple version of [`VoicevoxCore::tts`].
    pub fn tts_simple(&self, text: &str, speaker_id: u32) -> (pending: Result<Tts<'_>, Error>)
        ensures
            pending is Ok <==> nul_free(encode_utf8(text@)),
            pending matches Ok(p) ==> {
                &&& p.call().text@ == encode_utf8(text@).push(0)
                &&& p.call().speaker_id == speaker_id
                &&& p.call().options is None
            },
            pending matches Err(error) ==> error == Error::InteriorNul(
                first_nul(encode_utf8(text@)) as usize,
            ) && first_nul_at(encode_utf8(text@), first_nul(encode_utf8(text@))),
    {
        self.start_tts(text, speaker_id, None)
    }

    /// Checks the text and prepares a synthesis. The engine has not been
    /// called when this returns, and is never called for a text with a zero
    /// byte in it. `finish` on what is returned takes the engine's answer and
    /// gives the buffer.
    pub fn tts(&self, text: &str, speaker_id: u32, options: TtsOptions) -> (pending: Result<
        Tts<'_>,
        Error,
    >)
        ensures
            pending is Ok <==> nul_free(encode_utf8(text@)),
            pending matches Ok(p) ==> {
                &&& p.call().text@ == encode_utf8(text@).push(0)
                &&& p.call().speaker_id == speaker_id
                &&& p.call().options == Some(options)
            },
            pending matches Err(error) ==> error == Error::InteriorNul(
                first_nul(encode_utf8(text@)) as usize,
            ) && first_nul_at(encode_utf8(text@), first_nul(encode_utf8(text@))),
    {
        self.start_tts(text, speaker_id, Some(options))
    }

    fn start_tts(&self, text: &str, speaker_id: u32, options: Option<TtsOptions>) -> (pending:
        Result<Tts<'_>, Error>)
        ensures
            pending is Ok <==> nul_free(encode_utf8(text@)),
            pending matches Ok(p) ==> {
                &&& p.call().text@ == encode_utf8(text@).push(0)
                &&& p.call().speaker_id == speaker_id
                &&& p.call().options == options
            },
            pending matches Err(error) ==> error == Error::InteriorNul(
                first_nul(encode_utf8(text@)) as usize,
            ) && first_nul_at(encode_utf8(text@), first_nul(encode_utf8(text@))),
    {
        match c_string(text) {
            Ok(text) => Ok(Tts { core: self, call: TtsCall { text, speaker_id, options } }),
            Err(error) => Err(error),
        }
    }

    /// Gives the handle up. What is returned is the call that is now owed to
    /// the engine, once: to finalize it.
    pub fn finalize(self) -> (owed: Release<'static>)
        ensures
            owed is Finalize,
    {
        Release::Finalize
    }
}

} // verus!
