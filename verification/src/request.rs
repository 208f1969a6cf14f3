//! What the caller asks of a run.

use vstd::prelude::*;

verus! {

/// The quality used where none is asked for.
pub const DEFAULT_QUALITY: u8 = 70;

/// The lowest quality a lossy strategy takes.
pub const MIN_QUALITY: u8 = 1;

/// The highest quality a lossy strategy takes.
pub const MAX_QUALITY: u8 = 100;

/// The lowest effort preset of the lossless strategy.
pub const MIN_PRESET: u8 = 1;

/// The highest effort preset of the lossless strategy.
pub const MAX_PRESET: u8 = 6;

/// `quality` is one that a lossy strategy takes.
pub open spec fn quality_in_range(quality: int) -> bool {
    MIN_QUALITY <= quality <= MAX_QUALITY
}

/// `preset` is an effort level of the lossless strategy.
pub open spec fn preset_in_range(preset: int) -> bool {
    MIN_PRESET <= preset <= MAX_PRESET
}

/// Which of the two settings was refused.
#[derive(Clone, Copy, Debug, PartialEq, Eq, Structural)]
pub enum RequestError {
    InvalidQuality,
    InvalidPreset,
}

/// The value that came with an optional setting of a command.
#[derive(Clone, Copy, Debug, PartialEq, Eq, Structural)]
pub enum OptionValue {
    Integer(i64),
    /// A value of any other kind.
    Other,
}

/// The settings of one run: a quality from 1 to 100, which only the lossy
/// strategies read, and an effort preset from 1 to 6 or none, which only the
/// lossless strategy reads. Every value of this type is within those ranges.
#[derive(Clone, Copy, Debug, PartialEq, Eq)]
pub struct CompressionRequest {
    quality: u8,
    preset: Option<u8>,
}

/// The settings of a run as plain values.
pub struct RequestView {
    pub quality: u8,
    pub preset: Option<u8>,
}

impl RequestView {
    /// Both settings are within their ranges.
    pub open spec fn in_range(self) -> bool {
        &&& quality_in_range(self.quality as int)
        &&& self.preset matches Some(level) ==> preset_in_range(level as int)
    }
}

impl View for CompressionRequest {
    type V = RequestView;

    open spec fn view(&self) -> RequestView {
        self.settings()
    }
}

/// The quality that an optional setting asks for: 70 where it is missing,
/// none where it is no integer from 1 to 100.
pub open spec fn quality_of(given: Option<OptionValue>) -> Option<u8> {
    match given {
        None => Some(DEFAULT_QUALITY),
        Some(OptionValue::Integer(asked)) => if quality_in_range(asked as int) {
            Some(asked as u8)
        } else {
            None
        },
        Some(OptionValue::Other) => None,
    }
}

/// The preset that an optional setting asks for: unset where it is missing,
/// none where it is no integer from 1 to 6.
pub open spec fn preset_of(given: Option<OptionValue>) -> Option<Option<u8>> {
    match given {
        None => Some(None),
        Some(OptionValue::Integer(asked)) => if preset_in_range(asked as int) {
            Some(Some(asked as u8))
        } else {
            None
        },
        Some(OptionValue::Other) => None,
    }
}

/// The request that two optional settings make. The kind of each setting is
/// looked at before the range of either: a quality that is no integer is
/// refused first, then a preset that is no integer, then a quality outside
/// 1 to 100, then a preset outside 1 to 6.
pub open spec fn request_of(quality: Option<OptionValue>, preset: Option<OptionValue>) -> Result<
    RequestView,
    RequestError,
> {
    if quality == Some(OptionValue::Other) {
        Err(RequestError::InvalidQuality)
    } else if preset == Some(OptionValue::Other) {
        Err(RequestError::InvalidPreset)
    } else {
        match quality_of(quality) {
            None => Err(RequestError::InvalidQuality),
            Some(quality) => match preset_of(preset) {
                None => Err(RequestError::InvalidPreset),
                Some(preset) => Ok(RequestView { quality, preset }),
            },
        }
    }
}

impl CompressionRequest {
    #[verifier::type_invariant]
    spec fn well_formed(self) -> bool {
        self.settings().in_range()
    }

    /// The settings this value holds.
    pub closed spec fn settings(&self) -> RequestView {
        RequestView { quality: self.quality, preset: self.preset }
    }

    /// A request with these settings, or `None` where one is out of range.
    pub fn new(quality: u8, preset: Option<u8>) -> (request: Option<CompressionRequest>)
        ensures
            match request {
                Some(made) => made@ == (RequestView { quality, preset }) && made@.in_range(),
                None => !(RequestView { quality, preset }).in_range(),
            },
    {
        if quality < MIN_QUALITY || quality > MAX_QUALITY {
            return None;
        }
        match preset {
            Some(level) => {
                if level < MIN_PRESET || level > MAX_PRESET {
                    return None;
                }
            },
            None => {},
        }
        Some(CompressionRequest { quality, preset })
    }

    /// Builds a request from the optional settings of a command. A missing
    /// quality is 70 and a missing preset stays unset. The kinds are tested
    /// before the ranges: a quality that is no integer is refused first, then
    /// a preset that is no integer, then a quality outside 1 to 100, then a
    /// preset outside 1 to 6.
    pub fn from_options(quality: Option<OptionValue>, preset: Option<OptionValue>) -> (request:
        Result<CompressionRequest, RequestError>)
        ensures
            match request_of(quality, preset) {
                Ok(settings) => request matches Ok(made) && made@ == settings && made@.in_range(),
                Err(error) => request == Err::<CompressionRequest, RequestError>(error),
            },
    {
        let asked_quality: Option<i64> = match quality {
            None => None,
            Some(OptionValue::Integer(asked)) => Some(asked),
            Some(OptionValue::Other) => {
                return Err(RequestError::InvalidQuality);
            },
        };
        let asked_preset: Option<i64> = match preset {
            None => None,
            Some(OptionValue::Integer(asked)) => Some(asked),
            Some(OptionValue::Other) => {
                return Err(RequestError::InvalidPreset);
            },
        };
        let quality: u8 = match asked_quality {
            None => DEFAULT_QUALITY,
            Some(asked) => {
                if asked < 1 || asked > 100 {
                    return Err(RequestError::InvalidQuality);
                }
                asked as u8
            },
        };
        let preset: Option<u8> = match asked_preset {
            None => None,
            Some(asked) => {
                if asked < 1 || asked > 6 {
                    return Err(RequestError::InvalidPreset);
                }
                Some(asked as u8)
            },
        };
        Ok(CompressionRequest { quality, preset })
    }

    /// The quality, always from 1 to 100.
    pub fn quality(&self) -> (quality: u8)
        ensures
            quality == self@.quality,
            self@.in_range(),
    {
        proof {
            use_type_invariant(self);
        }
        self.quality
    }

    /// The preset, from 1 to 6 where there is one.
    pub fn preset(&self) -> (preset: Option<u8>)
        ensures
            preset == self@.preset,
            self@.in_range(),
    {
        proof {
            use_type_invariant(self);
        }
        self.preset
    }
}

impl Default for CompressionRequest {
    /// Quality 70 and no preset.
    fn default() -> (request: CompressionRequest)
        ensures
            request@ == (RequestView { quality: DEFAULT_QUALITY, preset: None }),
    {
        CompressionRequest { quality: DEFAULT_QUALITY, preset: None }
    }
}

} // verus!
