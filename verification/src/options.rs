//! The options of initialization and of synthesis: plain values, which only
//! the engine judges.

use crate::result_code::Error;
use crate::text::native_text;
use vstd::prelude::*;
use vstd::utf8::{decode_utf8, valid_utf8};

verus! {

/// Hardware acceleration mode
#[derive(Debug, Clone, Copy, PartialEq, Eq, Structural)]
pub enum AccelerationMode {
    /// The engine picks the device.
    Auto,
    /// Run on the CPU only.
    CPU,
    /// Run on the GPU.
    GPU,
}

impl AccelerationMode {
    /// The integer by which the engine knows this mode.
    pub open spec fn spec_raw(self) -> int {
        match self {
            AccelerationMode::Auto => 0,
            AccelerationMode::CPU => 1,
            AccelerationMode::GPU => 2,
        }
    }

    /// The mode that the engine knows by `raw`, if there is one.
    pub open spec fn spec_from_raw(raw: int) -> Option<AccelerationMode> {
        if raw == 0 {
            Some(AccelerationMode::Auto)
        } else if raw == 1 {
            Some(AccelerationMode::CPU)
        } else if raw == 2 {
            Some(AccelerationMode::GPU)
        } else {
            None
        }
    }

    /// The integer by which the engine knows this mode.
    pub fn raw(self) -> (raw: i32)
        ensures
            raw == self.spec_raw(),
    {
        match self {
            AccelerationMode::Auto => 0,
            AccelerationMode::CPU => 1,
            AccelerationMode::GPU => 2,
        }
    }

    /// Names the integer that the engine uses for a mode. `None` says that it
    /// is none of the three.
    pub fn from_raw(raw: i32) -> (mode: Option<AccelerationMode>)
        ensures
            mode == Self::spec_from_raw(raw as int),
            mode is Some <==> 0 <= raw <= 2,
            mode matches Some(m) ==> m.spec_raw() == raw,
    {
        match raw {
            0 => Some(AccelerationMode::Auto),
            1 => Some(AccelerationMode::CPU),
            2 => Some(AccelerationMode::GPU),
            _ => None,
        }
    }
}

/// The integer of a mode names that mode again.
pub proof fn raw_names_its_mode(mode: AccelerationMode)
    ensures
        0 <= mode.spec_raw() <= 2,
        AccelerationMode::spec_from_raw(mode.spec_raw()) == Some(mode),
{
}

/// What the engine is initialized with.
#[derive(Debug, Clone, PartialEq, Eq)]
pub struct InitializeOptions {
    /// Hardware acceleration mode
    pub acceleration_mode: AccelerationMode,
    /// Number of CPU threads; 0 leaves the choice to the engine.
    pub cpu_num_threads: u16,
    /// Whether every model is loaded at initialization.
    pub load_all_models: bool,
    /// The directory of the Open JTalk dictionary.
    pub open_jtalk_dict_dir: String,
}

impl InitializeOptions {
    /// Reads options as the engine hands them out: the mode as an integer
    /// and the directory as the bytes of a C string without its terminator,
    /// `None` for a null pointer. No directory reads as the empty string.
    ///
    /// An integer that is no mode is an error, and so is, for a mode that is
    /// one, a directory that is not UTF-8.
    pub fn from_raw(
        acceleration_mode: i32,
        cpu_num_threads: u16,
        load_all_models: bool,
        open_jtalk_dict_dir: Option<&[u8]>,
    ) -> (opt: Result<InitializeOptions, Error>)
        ensures
            opt is Ok <==> 0 <= acceleration_mode <= 2 && (open_jtalk_dict_dir matches Some(dir)
                ==> valid_utf8(dir@)),
            opt matches Ok(o) ==> {
                &&& o.acceleration_mode.spec_raw() == acceleration_mode
                &&& o.cpu_num_threads == cpu_num_threads
                &&& o.load_all_models == load_all_models
                &&& o.open_jtalk_dict_dir@ == match open_jtalk_dict_dir {
                    Some(dir) => decode_utf8(dir@),
                    None => Seq::<char>::empty(),
                }
            },
            opt matches Err(error) ==> error == if 0 <= acceleration_mode <= 2 {
                Error::InvalidUtf8
            } else {
                Error::UnknownAccelerationMode(acceleration_mode)
            },
    {
        let mode = match AccelerationMode::from_raw(acceleration_mode) {
            Some(mode) => mode,
            None => {
                return Err(Error::UnknownAccelerationMode(acceleration_mode));
            },
        };
        let dir = match open_jtalk_dict_dir {
            Some(bytes) => {
                let text = native_text(bytes)?;
                text.to_owned()
            },
            None => String::new(),
        };
        Ok(
            InitializeOptions {
                acceleration_mode: mode,
                cpu_num_threads,
                load_all_models,
                open_jtalk_dict_dir: dir,
            },
        )
    }
}

/// The flags of one synthesis.
#[derive(Debug, Clone, Copy, PartialEq, Eq, Structural)]
pub struct TtsOptions {
    /// Whether the text is AquesTalk-style kana.
    pub kana: bool,
    /// Whether the pitch rises at the end of a question.
    pub enable_interrogative_upspeak: bool,
}

} // verus!
