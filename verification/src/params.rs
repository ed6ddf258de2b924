use vstd::prelude::*;

use crate::error::{NikonError, SdkOperation};
use crate::protocol::{find_failure, first_failure, lesser, NikonSession, QueryStep, SdkReply, SessionQuery};

verus! {

/// The raw-development parameters that the SDK can report, in the order in
/// which they are read.
#[derive(Debug, Clone, Copy, PartialEq, Eq, Structural)]
pub enum RawDevelopment {
    RawParameterSet,
    RawQuality,
    ExpComp,
    WBAdjustment,
    Tint,
    NR,
    PictureControl,
    ColorMode,
    Sharpness,
    ToneComp,
    Saturation,
    HueAdjustment,
    FilterEffect,
    ActiveDLighting,
    Dehaze,
    FilmGrain,
}

/// The SDK's short name of a raw-development parameter.
pub open spec fn raw_development_name(kind: RawDevelopment) -> Seq<char> {
    match kind {
        RawDevelopment::RawParameterSet => "RawParameterSet"@,
        RawDevelopment::RawQuality => "RawQuality"@,
        RawDevelopment::ExpComp => "ExpComp"@,
        RawDevelopment::WBAdjustment => "WBAdjustment"@,
        RawDevelopment::Tint => "Tint"@,
        RawDevelopment::NR => "NR"@,
        RawDevelopment::PictureControl => "PictureControl"@,
        RawDevelopment::ColorMode => "ColorMode"@,
        RawDevelopment::Sharpness => "Sharpness"@,
        RawDevelopment::ToneComp => "ToneComp"@,
        RawDevelopment::Saturation => "Saturation"@,
        RawDevelopment::HueAdjustment => "HueAdjustment"@,
        RawDevelopment::FilterEffect => "FilterEffect"@,
        RawDevelopment::ActiveDLighting => "ActiveDLighting"@,
        RawDevelopment::Dehaze => "Dehaze"@,
        RawDevelopment::FilmGrain => "FilmGrain"@,
    }
}

impl RawDevelopment {
    /// The SDK's short name of this parameter.
    pub fn name(&self) -> (r: &'static str)
        ensures
            r@ == raw_development_name(*self),
    {
        match self {
            RawDevelopment::RawParameterSet => "RawParameterSet",
            RawDevelopment::RawQuality => "RawQuality",
            RawDevelopment::ExpComp => "ExpComp",
            RawDevelopment::WBAdjustment => "WBAdjustment",
            RawDevelopment::Tint => "Tint",
            RawDevelopment::NR => "NR",
            RawDevelopment::PictureControl => "PictureControl",
            RawDevelopment::ColorMode => "ColorMode",
            RawDevelopment::Sharpness => "Sharpness",
            RawDevelopment::ToneComp => "ToneComp",
            RawDevelopment::Saturation => "Saturation",
            RawDevelopment::HueAdjustment => "HueAdjustment",
            RawDevelopment::FilterEffect => "FilterEffect",
            RawDevelopment::ActiveDLighting => "ActiveDLighting",
            RawDevelopment::Dehaze => "Dehaze",
            RawDevelopment::FilmGrain => "FilmGrain",
        }
    }
}

/// Spec form of the capability test: the flag shares at least one bit with the mask.
pub open spec fn supported(supported_mask: u64, flag: u64) -> bool {
    supported_mask & flag != 0
}

/// Whether the SDK reports the raw-development parameter `flag` as supported.
pub fn is_supported(supported_mask: u64, flag: u64) -> (r: bool)
    ensures
        r == supported(supported_mask, flag),
{
    supported_mask & flag != 0
}


/// The exact bit pattern of an IEEE double the SDK reported.
#[derive(Debug, Clone, Copy, PartialEq, Eq, Structural)]
pub struct F64Bits {
    pub bits: u64,
}

/// White-balance adjustment as the SDK reports it.
#[derive(Debug, Clone, Copy, PartialEq, Eq, Structural)]
pub struct WhiteBalanceParams {
    pub mode: u64,
    pub color_temperature: i64,
    pub red: u64,
    pub green: u64,
    pub blue: u64,
}

/// Film-grain setting as the SDK reports it.
#[derive(Debug, Clone, Copy, PartialEq, Eq, Structural)]
pub struct FilmGrainParams {
    pub intensity: u64,
    pub size: u64,
}

/// Picture Control setting as the SDK reports it; each real number is kept as
/// the bit pattern of the SDK's double.
#[derive(Debug, Clone, Copy, PartialEq, Eq, Structural)]
pub struct PictureControlParams {
    pub id: u64,
    pub apply_quick_adjust: bool,
    pub quick_adjust: F64Bits,
    pub sharpness_auto: bool,
    pub sharpness: F64Bits,
    pub clarity_auto: bool,
    pub clarity: F64Bits,
    pub user_defined_curve: bool,
    pub contrast_auto: bool,
    pub contrast: F64Bits,
    pub brightness: F64Bits,
    pub highlight: F64Bits,
    pub shadow: F64Bits,
    pub saturation_auto: bool,
    pub saturation: F64Bits,
    pub hue: F64Bits,
    pub filter: i64,
    pub toning: u64,
    pub toning_intensity: F64Bits,
    pub apply_level: F64Bits,
    pub apply_quick_sharp: bool,
    pub quick_sharp_auto: bool,
    pub quick_sharp: F64Bits,
    pub middle_range_sharp: F64Bits,
    pub flexible_contrast: F64Bits,
    pub flexible_highlight: F64Bits,
    pub flexible_shadow: F64Bits,
    pub flexible_saturation: F64Bits,
}

/// The bit that the SDK's headers give each raw-development parameter in the
/// supported-parameter mask.
#[derive(Debug, Clone, Copy, PartialEq, Eq, Structural)]
pub struct RawDevelopmentFlags {
    pub raw_parameter_set: u64,
    pub raw_quality: u64,
    pub exp_comp: u64,
    pub wb_adjustment: u64,
    pub tint: u64,
    pub nr: u64,
    pub picture_control: u64,
    pub color_mode: u64,
    pub sharpness: u64,
    pub tone_comp: u64,
    pub saturation: u64,
    pub hue_adjustment: u64,
    pub filter_effect: u64,
    pub active_d_lighting: u64,
    pub dehaze: u64,
    pub film_grain: u64,
}

/// One parameter value read from the SDK.
#[derive(Debug, Clone, Copy, PartialEq, Eq, Structural)]
pub enum RawDevelopmentValue {
    RawParameterSet(u64),
    RawQuality(u64),
    ExpComp(F64Bits),
    WBAdjustment(WhiteBalanceParams),
    Tint(F64Bits),
    NR(u64),
    PictureControl(PictureControlParams),
    ColorMode(u64),
    Sharpness(u64),
    ToneComp(u64),
    Saturation(u64),
    HueAdjustment(i64),
    FilterEffect(u64),
    ActiveDLighting(u64),
    Dehaze(u64),
    FilmGrain(FilmGrainParams),
}

/// The raw-development parameters of a session: each one the SDK supports,
/// and none other.
#[derive(Debug, Clone, Copy, PartialEq, Eq, Structural)]
pub struct RawDevelopmentParams {
    pub supported_mask: u64,
    pub raw_parameter_set: Option<u64>,
    pub raw_quality: Option<u64>,
    pub exposure_compensation: Option<F64Bits>,
    pub white_balance: Option<WhiteBalanceParams>,
    pub tint: Option<F64Bits>,
    pub noise_reduction: Option<u64>,
    pub picture_control: Option<PictureControlParams>,
    pub color_mode: Option<u64>,
    pub sharpness: Option<u64>,
    pub tone_compensation: Option<u64>,
    pub saturation: Option<u64>,
    pub hue_adjustment: Option<i64>,
    pub filter_effect: Option<u64>,
    pub active_d_lighting: Option<u64>,
    pub dehaze: Option<u64>,
    pub film_grain: Option<FilmGrainParams>,
}

/// The parameters in the order in which they are read.
pub open spec fn all_kinds() -> Seq<RawDevelopment> {
    seq![
        RawDevelopment::RawParameterSet,
        RawDevelopment::RawQuality,
        RawDevelopment::ExpComp,
        RawDevelopment::WBAdjustment,
        RawDevelopment::Tint,
        RawDevelopment::NR,
        RawDevelopment::PictureControl,
        RawDevelopment::ColorMode,
        RawDevelopment::Sharpness,
        RawDevelopment::ToneComp,
        RawDevelopment::Saturation,
        RawDevelopment::HueAdjustment,
        RawDevelopment::FilterEffect,
        RawDevelopment::ActiveDLighting,
        RawDevelopment::Dehaze,
        RawDevelopment::FilmGrain,
    ]
}

/// The mask bit of `kind`.
pub open spec fn flag_of(flags: RawDevelopmentFlags, kind: RawDevelopment) -> u64 {
    match kind {
        RawDevelopment::RawParameterSet => flags.raw_parameter_set,
        RawDevelopment::RawQuality => flags.raw_quality,
        RawDevelopment::ExpComp => flags.exp_comp,
        RawDevelopment::WBAdjustment => flags.wb_adjustment,
        RawDevelopment::Tint => flags.tint,
        RawDevelopment::NR => flags.nr,
        RawDevelopment::PictureControl => flags.picture_control,
        RawDevelopment::ColorMode => flags.color_mode,
        RawDevelopment::Sharpness => flags.sharpness,
        RawDevelopment::ToneComp => flags.tone_comp,
        RawDevelopment::Saturation => flags.saturation,
        RawDevelopment::HueAdjustment => flags.hue_adjustment,
        RawDevelopment::FilterEffect => flags.filter_effect,
        RawDevelopment::ActiveDLighting => flags.active_d_lighting,
        RawDevelopment::Dehaze => flags.dehaze,
        RawDevelopment::FilmGrain => flags.film_grain,
    }
}

/// The parameter a value answers.
pub open spec fn value_kind(v: RawDevelopmentValue) -> RawDevelopment {
    match v {
        RawDevelopmentValue::RawParameterSet(_) => RawDevelopment::RawParameterSet,
        RawDevelopmentValue::RawQuality(_) => RawDevelopment::RawQuality,
        RawDevelopmentValue::ExpComp(_) => RawDevelopment::ExpComp,
        RawDevelopmentValue::WBAdjustment(_) => RawDevelopment::WBAdjustment,
        RawDevelopmentValue::Tint(_) => RawDevelopment::Tint,
        RawDevelopmentValue::NR(_) => RawDevelopment::NR,
        RawDevelopmentValue::PictureControl(_) => RawDevelopment::PictureControl,
        RawDevelopmentValue::ColorMode(_) => RawDevelopment::ColorMode,
        RawDevelopmentValue::Sharpness(_) => RawDevelopment::Sharpness,
        RawDevelopmentValue::ToneComp(_) => RawDevelopment::ToneComp,
        RawDevelopmentValue::Saturation(_) => RawDevelopment::Saturation,
        RawDevelopmentValue::HueAdjustment(_) => RawDevelopment::HueAdjustment,
        RawDevelopmentValue::FilterEffect(_) => RawDevelopment::FilterEffect,
        RawDevelopmentValue::ActiveDLighting(_) => RawDevelopment::ActiveDLighting,
        RawDevelopmentValue::Dehaze(_) => RawDevelopment::Dehaze,
        RawDevelopmentValue::FilmGrain(_) => RawDevelopment::FilmGrain,
    }
}

/// The value `params` holds for `kind`, if any.
pub open spec fn param_value(params: RawDevelopmentParams, kind: RawDevelopment) -> Option<RawDevelopmentValue> {
    match kind {
        RawDevelopment::RawParameterSet => match params.raw_parameter_set { Some(x) => Some(RawDevelopmentValue::RawParameterSet(x)), None => None },
        RawDevelopment::RawQuality => match params.raw_quality { Some(x) => Some(RawDevelopmentValue::RawQuality(x)), None => None },
        RawDevelopment::ExpComp => match params.exposure_compensation { Some(x) => Some(RawDevelopmentValue::ExpComp(x)), None => None },
        RawDevelopment::WBAdjustment => match params.white_balance { Some(x) => Some(RawDevelopmentValue::WBAdjustment(x)), None => None },
        RawDevelopment::Tint => match params.tint { Some(x) => Some(RawDevelopmentValue::Tint(x)), None => None },
        RawDevelopment::NR => match params.noise_reduction { Some(x) => Some(RawDevelopmentValue::NR(x)), None => None },
        RawDevelopment::PictureControl => match params.picture_control { Some(x) => Some(RawDevelopmentValue::PictureControl(x)), None => None },
        RawDevelopment::ColorMode => match params.color_mode { Some(x) => Some(RawDevelopmentValue::ColorMode(x)), None => None },
        RawDevelopment::Sharpness => match params.sharpness { Some(x) => Some(RawDevelopmentValue::Sharpness(x)), None => None },
        RawDevelopment::ToneComp => match params.tone_compensation { Some(x) => Some(RawDevelopmentValue::ToneComp(x)), None => None },
        RawDevelopment::Saturation => match params.saturation { Some(x) => Some(RawDevelopmentValue::Saturation(x)), None => None },
        RawDevelopment::HueAdjustment => match params.hue_adjustment { Some(x) => Some(RawDevelopmentValue::HueAdjustment(x)), None => None },
        RawDevelopment::FilterEffect => match params.filter_effect { Some(x) => Some(RawDevelopmentValue::FilterEffect(x)), None => None },
        RawDevelopment::ActiveDLighting => match params.active_d_lighting { Some(x) => Some(RawDevelopmentValue::ActiveDLighting(x)), None => None },
        RawDevelopment::Dehaze => match params.dehaze { Some(x) => Some(RawDevelopmentValue::Dehaze(x)), None => None },
        RawDevelopment::FilmGrain => match params.film_grain { Some(x) => Some(RawDevelopmentValue::FilmGrain(x)), None => None },
    }
}

impl RawDevelopmentFlags {
    /// The mask bit of `kind`.
    pub fn flag(&self, kind: RawDevelopment) -> (r: u64)
        ensures
            r == flag_of(*self, kind),
    {
        match kind {
            RawDevelopment::RawParameterSet => self.raw_parameter_set,
            RawDevelopment::RawQuality => self.raw_quality,
            RawDevelopment::ExpComp => self.exp_comp,
            RawDevelopment::WBAdjustment => self.wb_adjustment,
            RawDevelopment::Tint => self.tint,
            RawDevelopment::NR => self.nr,
            RawDevelopment::PictureControl => self.picture_control,
            RawDevelopment::ColorMode => self.color_mode,
            RawDevelopment::Sharpness => self.sharpness,
            RawDevelopment::ToneComp => self.tone_comp,
            RawDevelopment::Saturation => self.saturation,
            RawDevelopment::HueAdjustment => self.hue_adjustment,
            RawDevelopment::FilterEffect => self.filter_effect,
            RawDevelopment::ActiveDLighting => self.active_d_lighting,
            RawDevelopment::Dehaze => self.dehaze,
            RawDevelopment::FilmGrain => self.film_grain,
        }
    }
}

impl RawDevelopmentValue {
    /// The parameter this value answers.
    pub fn kind(&self) -> (r: RawDevelopment)
        ensures
            r == value_kind(*self),
    {
        match self {
            RawDevelopmentValue::RawParameterSet(_) => RawDevelopment::RawParameterSet,
            RawDevelopmentValue::RawQuality(_) => RawDevelopment::RawQuality,
            RawDevelopmentValue::ExpComp(_) => RawDevelopment::ExpComp,
            RawDevelopmentValue::WBAdjustment(_) => RawDevelopment::WBAdjustment,
            RawDevelopmentValue::Tint(_) => RawDevelopment::Tint,
            RawDevelopmentValue::NR(_) => RawDevelopment::NR,
            RawDevelopmentValue::PictureControl(_) => RawDevelopment::PictureControl,
            RawDevelopmentValue::ColorMode(_) => RawDevelopment::ColorMode,
            RawDevelopmentValue::Sharpness(_) => RawDevelopment::Sharpness,
            RawDevelopmentValue::ToneComp(_) => RawDevelopment::ToneComp,
            RawDevelopmentValue::Saturation(_) => RawDevelopment::Saturation,
            RawDevelopmentValue::HueAdjustment(_) => RawDevelopment::HueAdjustment,
            RawDevelopmentValue::FilterEffect(_) => RawDevelopment::FilterEffect,
            RawDevelopmentValue::ActiveDLighting(_) => RawDevelopment::ActiveDLighting,
            RawDevelopmentValue::Dehaze(_) => RawDevelopment::Dehaze,
            RawDevelopmentValue::FilmGrain(_) => RawDevelopment::FilmGrain,
        }
    }
}

impl RawDevelopmentParams {
    /// Parameters with nothing read yet.
    pub fn empty(supported_mask: u64) -> (r: Self)
        ensures
            r.supported_mask == supported_mask,
            forall|k: RawDevelopment| #[trigger] param_value(r, k) is None,
            r == (RawDevelopmentParams { supported_mask, raw_parameter_set: None, raw_quality: None, exposure_compensation: None, white_balance: None, tint: None, noise_reduction: None, picture_control: None, color_mode: None, sharpness: None, tone_compensation: None, saturation: None, hue_adjustment: None, filter_effect: None, active_d_lighting: None, dehaze: None, film_grain: None }),
    {
        RawDevelopmentParams {
            supported_mask,
            raw_parameter_set: None,
            raw_quality: None,
            exposure_compensation: None,
            white_balance: None,
            tint: None,
            noise_reduction: None,
            picture_control: None,
            color_mode: None,
            sharpness: None,
            tone_compensation: None,
            saturation: None,
            hue_adjustment: None,
            filter_effect: None,
            active_d_lighting: None,
            dehaze: None,
            film_grain: None,
        }
    }

    /// Records `value` as the value of its parameter.
    pub fn set(&mut self, value: RawDevelopmentValue)
        ensures
            final(self).supported_mask == old(self).supported_mask,
            forall|k: RawDevelopment| #[trigger] param_value(*final(self), k)
                == if k == value_kind(value) { Some(value) } else { param_value(*old(self), k) },
            *final(self) == (match value {
                RawDevelopmentValue::RawParameterSet(x) => RawDevelopmentParams { raw_parameter_set: Some(x), ..*old(self) },
                RawDevelopmentValue::RawQuality(x) => RawDevelopmentParams { raw_quality: Some(x), ..*old(self) },
                RawDevelopmentValue::ExpComp(x) => RawDevelopmentParams { exposure_compensation: Some(x), ..*old(self) },
                RawDevelopmentValue::WBAdjustment(x) => RawDevelopmentParams { white_balance: Some(x), ..*old(self) },
                RawDevelopmentValue::Tint(x) => RawDevelopmentParams { tint: Some(x), ..*old(self) },
                RawDevelopmentValue::NR(x) => RawDevelopmentParams { noise_reduction: Some(x), ..*old(self) },
                RawDevelopmentValue::PictureControl(x) => RawDevelopmentParams { picture_control: Some(x), ..*old(self) },
                RawDevelopmentValue::ColorMode(x) => RawDevelopmentParams { color_mode: Some(x), ..*old(self) },
                RawDevelopmentValue::Sharpness(x) => RawDevelopmentParams { sharpness: Some(x), ..*old(self) },
                RawDevelopmentValue::ToneComp(x) => RawDevelopmentParams { tone_compensation: Some(x), ..*old(self) },
                RawDevelopmentValue::Saturation(x) => RawDevelopmentParams { saturation: Some(x), ..*old(self) },
                RawDevelopmentValue::HueAdjustment(x) => RawDevelopmentParams { hue_adjustment: Some(x), ..*old(self) },
                RawDevelopmentValue::FilterEffect(x) => RawDevelopmentParams { filter_effect: Some(x), ..*old(self) },
                RawDevelopmentValue::ActiveDLighting(x) => RawDevelopmentParams { active_d_lighting: Some(x), ..*old(self) },
                RawDevelopmentValue::Dehaze(x) => RawDevelopmentParams { dehaze: Some(x), ..*old(self) },
                RawDevelopmentValue::FilmGrain(x) => RawDevelopmentParams { film_grain: Some(x), ..*old(self) },
            }),
    {
        match value {
            RawDevelopmentValue::RawParameterSet(x) => self.raw_parameter_set = Some(x),
            RawDevelopmentValue::RawQuality(x) => self.raw_quality = Some(x),
            RawDevelopmentValue::ExpComp(x) => self.exposure_compensation = Some(x),
            RawDevelopmentValue::WBAdjustment(x) => self.white_balance = Some(x),
            RawDevelopmentValue::Tint(x) => self.tint = Some(x),
            RawDevelopmentValue::NR(x) => self.noise_reduction = Some(x),
            RawDevelopmentValue::PictureControl(x) => self.picture_control = Some(x),
            RawDevelopmentValue::ColorMode(x) => self.color_mode = Some(x),
            RawDevelopmentValue::Sharpness(x) => self.sharpness = Some(x),
            RawDevelopmentValue::ToneComp(x) => self.tone_compensation = Some(x),
            RawDevelopmentValue::Saturation(x) => self.saturation = Some(x),
            RawDevelopmentValue::HueAdjustment(x) => self.hue_adjustment = Some(x),
            RawDevelopmentValue::FilterEffect(x) => self.filter_effect = Some(x),
            RawDevelopmentValue::ActiveDLighting(x) => self.active_d_lighting = Some(x),
            RawDevelopmentValue::Dehaze(x) => self.dehaze = Some(x),
            RawDevelopmentValue::FilmGrain(x) => self.film_grain = Some(x),
        }
    }
}


/// The supported parameters among the first `n` of [`all_kinds`], in order.
pub open spec fn supported_prefix(supported_mask: u64, flags: RawDevelopmentFlags, n: nat) -> Seq<RawDevelopment>
    decreases n,
{
    if n == 0 {
        Seq::empty()
    } else {
        let earlier = supported_prefix(supported_mask, flags, (n - 1) as nat);
        let kind = all_kinds()[n - 1];
        if supported(supported_mask, flag_of(flags, kind)) { earlier.push(kind) } else { earlier }
    }
}

/// The parameters to read for a session whose SDK reports `supported_mask`:
/// the supported ones, in reading order.
pub open spec fn supported_kinds(supported_mask: u64, flags: RawDevelopmentFlags) -> Seq<RawDevelopment> {
    supported_prefix(supported_mask, flags, 16)
}

/// The parameters each value answers.
pub open spec fn kinds_of(values: Seq<RawDevelopmentValue>) -> Seq<RawDevelopment> {
    values.map_values(|v: RawDevelopmentValue| value_kind(v))
}

/// The last of `values` that answers `kind`, if any.
pub open spec fn value_of(values: Seq<RawDevelopmentValue>, kind: RawDevelopment) -> Option<RawDevelopmentValue>
    decreases values.len(),
{
    if values.len() == 0 {
        None
    } else if value_kind(values.last()) == kind {
        Some(values.last())
    } else {
        value_of(values.drop_last(), kind)
    }
}

impl RawDevelopment {
    /// All parameters, in reading order.
    pub fn all() -> (v: Vec<RawDevelopment>)
        ensures
            v@ == all_kinds(),
    {
        let v = vec![
            RawDevelopment::RawParameterSet,
            RawDevelopment::RawQuality,
            RawDevelopment::ExpComp,
            RawDevelopment::WBAdjustment,
            RawDevelopment::Tint,
            RawDevelopment::NR,
            RawDevelopment::PictureControl,
            RawDevelopment::ColorMode,
            RawDevelopment::Sharpness,
            RawDevelopment::ToneComp,
            RawDevelopment::Saturation,
            RawDevelopment::HueAdjustment,
            RawDevelopment::FilterEffect,
            RawDevelopment::ActiveDLighting,
            RawDevelopment::Dehaze,
            RawDevelopment::FilmGrain,
        ];
        assert(v@ =~= all_kinds());
        v
    }
}

/// The parameters to read, given the mask the SDK reports: those it supports,
/// in reading order.
pub fn raw_development_requests(supported_mask: u64, flags: &RawDevelopmentFlags) -> (r: Vec<RawDevelopment>)
    ensures
        r@ == supported_kinds(supported_mask, *flags),
{
    let all = RawDevelopment::all();
    let mut r: Vec<RawDevelopment> = Vec::new();
    let mut i: usize = 0;
    while i < all.len()
        invariant
            all@ == all_kinds(),
            i <= all@.len(),
            r@ == supported_prefix(supported_mask, *flags, i as nat),
        decreases all@.len() - i,
    {
        let kind = all[i];
        if is_supported(supported_mask, flags.flag(kind)) {
            r.push(kind);
        }
        i = i + 1;
    }
    r
}

/// `supported_prefix` holds `kind` exactly when one of the first `n`
/// parameters is `kind` and supported.
proof fn lemma_supported_prefix_contains(supported_mask: u64, flags: RawDevelopmentFlags, n: nat, kind: RawDevelopment)
    requires
        n <= 16,
    ensures
        supported_prefix(supported_mask, flags, n).contains(kind)
            <==> (supported(supported_mask, flag_of(flags, kind))
                && exists|i: int| 0 <= i < n && all_kinds()[i] == kind),
    decreases n,
{
    if n > 0 {
        lemma_supported_prefix_contains(supported_mask, flags, (n - 1) as nat, kind);
        let earlier = supported_prefix(supported_mask, flags, (n - 1) as nat);
        let last = all_kinds()[n - 1];
        if supported(supported_mask, flag_of(flags, last)) {
            assert(earlier.push(last).contains(kind) <==> (earlier.contains(kind) || last == kind)) by {
                if earlier.push(last).contains(kind) {
                    let j = choose|j: int| 0 <= j < earlier.push(last).len() && earlier.push(last)[j] == kind;
                    if j < earlier.len() {
                        assert(earlier[j] == kind);
                    }
                }
                if earlier.contains(kind) {
                    let j = choose|j: int| 0 <= j < earlier.len() && earlier[j] == kind;
                    assert(earlier.push(last)[j] == kind);
                }
                if last == kind {
                    assert(earlier.push(last)[earlier.len() as int] == kind);
                }
            }
        }
        if exists|i: int| 0 <= i < n && all_kinds()[i] == kind {
            let i = choose|i: int| 0 <= i < n && all_kinds()[i] == kind;
            if i < n - 1 {
                assert(exists|i: int| 0 <= i < n - 1 && all_kinds()[i] == kind);
            }
        }
    }
}

/// Every parameter appears in the reading order.
proof fn lemma_every_kind_is_read(kind: RawDevelopment)
    ensures
        exists|i: int| 0 <= i < 16 && all_kinds()[i] == kind,
{
    let i: int = match kind {
        RawDevelopment::RawParameterSet => 0,
        RawDevelopment::RawQuality => 1,
        RawDevelopment::ExpComp => 2,
        RawDevelopment::WBAdjustment => 3,
        RawDevelopment::Tint => 4,
        RawDevelopment::NR => 5,
        RawDevelopment::PictureControl => 6,
        RawDevelopment::ColorMode => 7,
        RawDevelopment::Sharpness => 8,
        RawDevelopment::ToneComp => 9,
        RawDevelopment::Saturation => 10,
        RawDevelopment::HueAdjustment => 11,
        RawDevelopment::FilterEffect => 12,
        RawDevelopment::ActiveDLighting => 13,
        RawDevelopment::Dehaze => 14,
        RawDevelopment::FilmGrain => 15,
    };
    assert(all_kinds()[i] == kind);
}

/// The value found for `kind` answers `kind`, and one is found exactly when a
/// value answers it.
proof fn lemma_value_of(values: Seq<RawDevelopmentValue>, kind: RawDevelopment)
    ensures
        value_of(values, kind) is Some <==> kinds_of(values).contains(kind),
        value_of(values, kind) matches Some(v) ==> value_kind(v) == kind,
    decreases values.len(),
{
    if values.len() > 0 {
        lemma_value_of(values.drop_last(), kind);
        let ks = kinds_of(values);
        assert(kinds_of(values.drop_last()) =~= ks.drop_last());
        if ks.contains(kind) {
            let j = choose|j: int| 0 <= j < ks.len() && ks[j] == kind;
            if j < ks.len() - 1 {
                assert(ks.drop_last()[j] == kind);
            }
        }
        if ks.drop_last().contains(kind) {
            let j = choose|j: int| 0 <= j < ks.drop_last().len() && ks.drop_last()[j] == kind;
            assert(ks[j] == kind);
        }
        assert(ks[ks.len() - 1] == value_kind(values.last()));
    }
}

/// Of parameters read for every request of a session: a parameter is present
/// exactly when the SDK supports it.
pub proof fn lemma_present_iff_supported(
    supported_mask: u64,
    flags: RawDevelopmentFlags,
    values: Seq<RawDevelopmentValue>,
    kind: RawDevelopment,
)
    requires
        kinds_of(values) == supported_kinds(supported_mask, flags),
    ensures
        value_of(values, kind) is Some <==> supported(supported_mask, flag_of(flags, kind)),
        value_of(values, kind) matches Some(v) ==> value_kind(v) == kind,
{
    lemma_value_of(values, kind);
    lemma_supported_prefix_contains(supported_mask, flags, 16, kind);
    lemma_every_kind_is_read(kind);
}

/// Each parameter's mask bit is the flag of the same name: the query for a
/// parameter, and the test whether the SDK supports it, use that parameter's
/// own flag.
pub proof fn lemma_flag_is_own_field(flags: RawDevelopmentFlags)
    ensures
        flag_of(flags, RawDevelopment::RawParameterSet) == flags.raw_parameter_set,
        flag_of(flags, RawDevelopment::RawQuality) == flags.raw_quality,
        flag_of(flags, RawDevelopment::ExpComp) == flags.exp_comp,
        flag_of(flags, RawDevelopment::WBAdjustment) == flags.wb_adjustment,
        flag_of(flags, RawDevelopment::Tint) == flags.tint,
        flag_of(flags, RawDevelopment::NR) == flags.nr,
        flag_of(flags, RawDevelopment::PictureControl) == flags.picture_control,
        flag_of(flags, RawDevelopment::ColorMode) == flags.color_mode,
        flag_of(flags, RawDevelopment::Sharpness) == flags.sharpness,
        flag_of(flags, RawDevelopment::ToneComp) == flags.tone_comp,
        flag_of(flags, RawDevelopment::Saturation) == flags.saturation,
        flag_of(flags, RawDevelopment::HueAdjustment) == flags.hue_adjustment,
        flag_of(flags, RawDevelopment::FilterEffect) == flags.filter_effect,
        flag_of(flags, RawDevelopment::ActiveDLighting) == flags.active_d_lighting,
        flag_of(flags, RawDevelopment::Dehaze) == flags.dehaze,
        flag_of(flags, RawDevelopment::FilmGrain) == flags.film_grain,
{
}

/// Position of `kind` in the reading order.
spec fn kind_index(kind: RawDevelopment) -> int {
    match kind {
        RawDevelopment::RawParameterSet => 0,
        RawDevelopment::RawQuality => 1,
        RawDevelopment::ExpComp => 2,
        RawDevelopment::WBAdjustment => 3,
        RawDevelopment::Tint => 4,
        RawDevelopment::NR => 5,
        RawDevelopment::PictureControl => 6,
        RawDevelopment::ColorMode => 7,
        RawDevelopment::Sharpness => 8,
        RawDevelopment::ToneComp => 9,
        RawDevelopment::Saturation => 10,
        RawDevelopment::HueAdjustment => 11,
        RawDevelopment::FilterEffect => 12,
        RawDevelopment::ActiveDLighting => 13,
        RawDevelopment::Dehaze => 14,
        RawDevelopment::FilmGrain => 15,
    }
}

/// The reading order names each parameter once.
proof fn lemma_kind_index(i: int)
    requires
        0 <= i < 16,
    ensures
        kind_index(all_kinds()[i]) == i,
{
}

/// The parameters to read name each parameter at most once.
proof fn lemma_supported_prefix_distinct(supported_mask: u64, flags: RawDevelopmentFlags, n: nat)
    requires
        n <= 16,
    ensures
        forall|i: int, j: int| 0 <= i < j < supported_prefix(supported_mask, flags, n).len()
            ==> supported_prefix(supported_mask, flags, n)[i] != supported_prefix(supported_mask, flags, n)[j],
    decreases n,
{
    if n > 0 {
        lemma_supported_prefix_distinct(supported_mask, flags, (n - 1) as nat);
        let earlier = supported_prefix(supported_mask, flags, (n - 1) as nat);
        let last = all_kinds()[n - 1];
        if supported(supported_mask, flag_of(flags, last)) {
            let all = earlier.push(last);
            assert forall|i: int, j: int| 0 <= i < j < all.len() implies all[i] != all[j] by {
                if j == all.len() - 1 {
                    assert(all[i] == earlier[i]);
                    assert(earlier.contains(earlier[i]));
                    lemma_supported_prefix_contains(supported_mask, flags, (n - 1) as nat, earlier[i]);
                    let m = choose|m: int| 0 <= m < n - 1 && all_kinds()[m] == earlier[i];
                    lemma_kind_index(m);
                    lemma_kind_index(n - 1);
                } else {
                    assert(all[i] == earlier[i] && all[j] == earlier[j]);
                }
            }
        }
    }
}

/// Among values that answer distinct parameters, the value found for the
/// parameter of `values[i]` is `values[i]`.
proof fn lemma_value_of_distinct(values: Seq<RawDevelopmentValue>, i: int)
    requires
        0 <= i < values.len(),
        forall|a: int, b: int| 0 <= a < b < values.len() ==> kinds_of(values)[a] != kinds_of(values)[b],
    ensures
        value_of(values, value_kind(values[i])) == Some(values[i]),
    decreases values.len(),
{
    if i < values.len() - 1 {
        let rest = values.drop_last();
        assert(kinds_of(values)[i] != kinds_of(values)[values.len() - 1]);
        assert forall|a: int, b: int| 0 <= a < b < rest.len() implies kinds_of(rest)[a] != kinds_of(rest)[b] by {
            assert(kinds_of(rest)[a] == kinds_of(values)[a]);
            assert(kinds_of(rest)[b] == kinds_of(values)[b]);
        }
        lemma_value_of_distinct(rest, i);
        assert(rest[i] == values[i]);
    }
}

/// Reading fills each parameter's own field. Of the parameters of a session
/// read in full (each value answering the parameter queried in its place, and
/// the result holding the value found for each parameter): every value read
/// lands, unchanged, in the result's field named for its parameter; and each
/// field is filled exactly when the SDK's mask shares a bit with that
/// parameter's own flag (the flag of the same name).
pub proof fn lemma_values_land_in_their_fields(
    mask: u64,
    flags: RawDevelopmentFlags,
    values: Seq<RawDevelopmentValue>,
    p: RawDevelopmentParams,
)
    requires
        kinds_of(values) == supported_kinds(mask, flags),
        forall|k: RawDevelopment| #[trigger] param_value(p, k) == value_of(values, k),
    ensures
        forall|i: int| 0 <= i < values.len() ==> (match #[trigger] values[i] {
            RawDevelopmentValue::RawParameterSet(x) => p.raw_parameter_set == Some(x),
            RawDevelopmentValue::RawQuality(x) => p.raw_quality == Some(x),
            RawDevelopmentValue::ExpComp(x) => p.exposure_compensation == Some(x),
            RawDevelopmentValue::WBAdjustment(x) => p.white_balance == Some(x),
            RawDevelopmentValue::Tint(x) => p.tint == Some(x),
            RawDevelopmentValue::NR(x) => p.noise_reduction == Some(x),
            RawDevelopmentValue::PictureControl(x) => p.picture_control == Some(x),
            RawDevelopmentValue::ColorMode(x) => p.color_mode == Some(x),
            RawDevelopmentValue::Sharpness(x) => p.sharpness == Some(x),
            RawDevelopmentValue::ToneComp(x) => p.tone_compensation == Some(x),
            RawDevelopmentValue::Saturation(x) => p.saturation == Some(x),
            RawDevelopmentValue::HueAdjustment(x) => p.hue_adjustment == Some(x),
            RawDevelopmentValue::FilterEffect(x) => p.filter_effect == Some(x),
            RawDevelopmentValue::ActiveDLighting(x) => p.active_d_lighting == Some(x),
            RawDevelopmentValue::Dehaze(x) => p.dehaze == Some(x),
            RawDevelopmentValue::FilmGrain(x) => p.film_grain == Some(x),
        }),
        p.raw_parameter_set is Some <==> mask & flags.raw_parameter_set != 0,
        p.raw_quality is Some <==> mask & flags.raw_quality != 0,
        p.exposure_compensation is Some <==> mask & flags.exp_comp != 0,
        p.white_balance is Some <==> mask & flags.wb_adjustment != 0,
        p.tint is Some <==> mask & flags.tint != 0,
        p.noise_reduction is Some <==> mask & flags.nr != 0,
        p.picture_control is Some <==> mask & flags.picture_control != 0,
        p.color_mode is Some <==> mask & flags.color_mode != 0,
        p.sharpness is Some <==> mask & flags.sharpness != 0,
        p.tone_compensation is Some <==> mask & flags.tone_comp != 0,
        p.saturation is Some <==> mask & flags.saturation != 0,
        p.hue_adjustment is Some <==> mask & flags.hue_adjustment != 0,
        p.filter_effect is Some <==> mask & flags.filter_effect != 0,
        p.active_d_lighting is Some <==> mask & flags.active_d_lighting != 0,
        p.dehaze is Some <==> mask & flags.dehaze != 0,
        p.film_grain is Some <==> mask & flags.film_grain != 0,
{
    lemma_supported_prefix_distinct(mask, flags, 16);
    assert forall|i: int| 0 <= i < values.len() implies (match #[trigger] values[i] {
            RawDevelopmentValue::RawParameterSet(x) => p.raw_parameter_set == Some(x),
            RawDevelopmentValue::RawQuality(x) => p.raw_quality == Some(x),
            RawDevelopmentValue::ExpComp(x) => p.exposure_compensation == Some(x),
            RawDevelopmentValue::WBAdjustment(x) => p.white_balance == Some(x),
            RawDevelopmentValue::Tint(x) => p.tint == Some(x),
            RawDevelopmentValue::NR(x) => p.noise_reduction == Some(x),
            RawDevelopmentValue::PictureControl(x) => p.picture_control == Some(x),
            RawDevelopmentValue::ColorMode(x) => p.color_mode == Some(x),
            RawDevelopmentValue::Sharpness(x) => p.sharpness == Some(x),
            RawDevelopmentValue::ToneComp(x) => p.tone_compensation == Some(x),
            RawDevelopmentValue::Saturation(x) => p.saturation == Some(x),
            RawDevelopmentValue::HueAdjustment(x) => p.hue_adjustment == Some(x),
            RawDevelopmentValue::FilterEffect(x) => p.filter_effect == Some(x),
            RawDevelopmentValue::ActiveDLighting(x) => p.active_d_lighting == Some(x),
            RawDevelopmentValue::Dehaze(x) => p.dehaze == Some(x),
            RawDevelopmentValue::FilmGrain(x) => p.film_grain == Some(x),
    }) by {
        lemma_value_of_distinct(values, i);
        assert(param_value(p, value_kind(values[i])) == Some(values[i]));
    }
    assert(p.raw_parameter_set is Some <==> mask & flags.raw_parameter_set != 0) by {
        lemma_present_iff_supported(mask, flags, values, RawDevelopment::RawParameterSet);
        assert(param_value(p, RawDevelopment::RawParameterSet) == value_of(values, RawDevelopment::RawParameterSet));
    }
    assert(p.raw_quality is Some <==> mask & flags.raw_quality != 0) by {
        lemma_present_iff_supported(mask, flags, values, RawDevelopment::RawQuality);
        assert(param_value(p, RawDevelopment::RawQuality) == value_of(values, RawDevelopment::RawQuality));
    }
    assert(p.exposure_compensation is Some <==> mask & flags.exp_comp != 0) by {
        lemma_present_iff_supported(mask, flags, values, RawDevelopment::ExpComp);
        assert(param_value(p, RawDevelopment::ExpComp) == value_of(values, RawDevelopment::ExpComp));
    }
    assert(p.white_balance is Some <==> mask & flags.wb_adjustment != 0) by {
        lemma_present_iff_supported(mask, flags, values, RawDevelopment::WBAdjustment);
        assert(param_value(p, RawDevelopment::WBAdjustment) == value_of(values, RawDevelopment::WBAdjustment));
    }
    assert(p.tint is Some <==> mask & flags.tint != 0) by {
        lemma_present_iff_supported(mask, flags, values, RawDevelopment::Tint);
        assert(param_value(p, RawDevelopment::Tint) == value_of(values, RawDevelopment::Tint));
    }
    assert(p.noise_reduction is Some <==> mask & flags.nr != 0) by {
        lemma_present_iff_supported(mask, flags, values, RawDevelopment::NR);
        assert(param_value(p, RawDevelopment::NR) == value_of(values, RawDevelopment::NR));
    }
    assert(p.picture_control is Some <==> mask & flags.picture_control != 0) by {
        lemma_present_iff_supported(mask, flags, values, RawDevelopment::PictureControl);
        assert(param_value(p, RawDevelopment::PictureControl) == value_of(values, RawDevelopment::PictureControl));
    }
    assert(p.color_mode is Some <==> mask & flags.color_mode != 0) by {
        lemma_present_iff_supported(mask, flags, values, RawDevelopment::ColorMode);
        assert(param_value(p, RawDevelopment::ColorMode) == value_of(values, RawDevelopment::ColorMode));
    }
    assert(p.sharpness is Some <==> mask & flags.sharpness != 0) by {
        lemma_present_iff_supported(mask, flags, values, RawDevelopment::Sharpness);
        assert(param_value(p, RawDevelopment::Sharpness) == value_of(values, RawDevelopment::Sharpness));
    }
    assert(p.tone_compensation is Some <==> mask & flags.tone_comp != 0) by {
        lemma_present_iff_supported(mask, flags, values, RawDevelopment::ToneComp);
        assert(param_value(p, RawDevelopment::ToneComp) == value_of(values, RawDevelopment::ToneComp));
    }
    assert(p.saturation is Some <==> mask & flags.saturation != 0) by {
        lemma_present_iff_supported(mask, flags, values, RawDevelopment::Saturation);
        assert(param_value(p, RawDevelopment::Saturation) == value_of(values, RawDevelopment::Saturation));
    }
    assert(p.hue_adjustment is Some <==> mask & flags.hue_adjustment != 0) by {
        lemma_present_iff_supported(mask, flags, values, RawDevelopment::HueAdjustment);
        assert(param_value(p, RawDevelopment::HueAdjustment) == value_of(values, RawDevelopment::HueAdjustment));
    }
    assert(p.filter_effect is Some <==> mask & flags.filter_effect != 0) by {
        lemma_present_iff_supported(mask, flags, values, RawDevelopment::FilterEffect);
        assert(param_value(p, RawDevelopment::FilterEffect) == value_of(values, RawDevelopment::FilterEffect));
    }
    assert(p.active_d_lighting is Some <==> mask & flags.active_d_lighting != 0) by {
        lemma_present_iff_supported(mask, flags, values, RawDevelopment::ActiveDLighting);
        assert(param_value(p, RawDevelopment::ActiveDLighting) == value_of(values, RawDevelopment::ActiveDLighting));
    }
    assert(p.dehaze is Some <==> mask & flags.dehaze != 0) by {
        lemma_present_iff_supported(mask, flags, values, RawDevelopment::Dehaze);
        assert(param_value(p, RawDevelopment::Dehaze) == value_of(values, RawDevelopment::Dehaze));
    }
    assert(p.film_grain is Some <==> mask & flags.film_grain != 0) by {
        lemma_present_iff_supported(mask, flags, values, RawDevelopment::FilmGrain);
        assert(param_value(p, RawDevelopment::FilmGrain) == value_of(values, RawDevelopment::FilmGrain));
    }
}

/// The SDK's answer to the supported-parameter query: its result code and the
/// mask it reports.
#[derive(Debug, Clone, Copy, PartialEq, Eq, Structural)]
pub struct RawInfoReply {
    pub code: u64,
    pub supported_mask: u64,
}

/// The SDK's answer to a parameter query: its result code and the value read
/// back.
#[derive(Debug, Clone, Copy, PartialEq, Eq, Structural)]
pub struct RawParamReply {
    pub code: u64,
    pub value: RawDevelopmentValue,
}

/// The operation of each parameter query.
pub open spec fn param_queries(kinds: Seq<RawDevelopment>) -> Seq<SdkOperation> {
    kinds.map_values(|k: RawDevelopment| SdkOperation::GetRawDevelopmentParam(k))
}

/// The result codes of parameter replies.
pub open spec fn param_codes(replies: Seq<RawParamReply>) -> Seq<u64> {
    replies.map_values(|r: RawParamReply| r.code)
}

/// The values of parameter replies.
pub open spec fn param_values(replies: Seq<RawParamReply>) -> Seq<RawDevelopmentValue> {
    replies.map_values(|r: RawParamReply| r.value)
}

impl<'library> NikonSession<'library> {
    /// Next step of reading the session's raw-development parameters: query
    /// the supported-parameter mask, then each supported parameter in reading
    /// order, and gather the values read. The first failing query ends it with
    /// that query's error, and no later query is made. Only queries are made:
    /// the session's development settings stay as they were. Each reply is the
    /// answer to the parameter queried in its place, so a parameter is present
    /// in the result exactly when the SDK supports it.
    pub fn raw_params(
        &self,
        flags: &RawDevelopmentFlags,
        info: Option<RawInfoReply>,
        replies: &Vec<RawParamReply>,
    ) -> (step: QueryStep<RawDevelopmentParams>)
        requires
            info is Some ==> forall|k: int| 0 <= k < replies@.len() && k < supported_kinds(info.unwrap().supported_mask, *flags).len()
                ==> value_kind(#[trigger] replies@[k].value) == supported_kinds(info.unwrap().supported_mask, *flags)[k],
        ensures
            ({
                let ok = self.library().success();
                let mask = info.unwrap().supported_mask;
                let kinds = supported_kinds(mask, *flags);
                let n = lesser(replies@.len(), kinds.len());
                let failure = first_failure(param_queries(kinds), param_codes(replies@), ok, n);
                let values = param_values(replies@).subrange(0, kinds.len() as int);
                &&& step matches QueryStep::Query(q) ==> (q is GetRawDevelopmentInfo || q is GetRawDevelopmentParam)
                &&& info is None ==> (step matches QueryStep::Query(q)
                    && q == (SessionQuery::GetRawDevelopmentInfo { session_id: self.id() }))
                &&& info is Some && info.unwrap().code != ok ==> (step matches QueryStep::Done(Err(e))
                    && e == (NikonError::Sdk { operation: SdkOperation::GetRawDevelopmentInfo, code: info.unwrap().code }))
                &&& info is Some && info.unwrap().code == ok && failure is Some ==> (
                    step matches QueryStep::Done(Err(e)) && Some(e) == failure)
                &&& info is Some && info.unwrap().code == ok && failure is None && replies@.len() < kinds.len()
                    ==> (step matches QueryStep::Query(q) && q == (SessionQuery::GetRawDevelopmentParam {
                        session_id: self.id(),
                        kind: kinds[replies@.len() as int],
                        flag: flag_of(*flags, kinds[replies@.len() as int]),
                    }))
                &&& info is Some && info.unwrap().code == ok && failure is None && replies@.len() >= kinds.len()
                    ==> (step matches QueryStep::Done(Ok(p)) && {
                        &&& p.supported_mask == mask
                        &&& kinds_of(values) == kinds
                        &&& forall|k: RawDevelopment| #[trigger] param_value(p, k) == value_of(values, k)
                        &&& forall|k: RawDevelopment| #[trigger] param_value(p, k) is Some
                            <==> supported(mask, flag_of(*flags, k))
                    })
            }),
    {
        let ghost ok = self.library().success();
        let success = self.opened_on().success_code();
        let i = match info {
            None => {
                return QueryStep::Query(SessionQuery::GetRawDevelopmentInfo { session_id: self.session_id() });
            },
            Some(i) => i,
        };
        if let Err(e) = self.opened_on().check(SdkOperation::GetRawDevelopmentInfo, i.code) {
            return QueryStep::Done(Err(e));
        }
        let mask = i.supported_mask;
        let requests = raw_development_requests(mask, flags);
        let ghost kinds = supported_kinds(mask, *flags);
        let mut plan: Vec<SdkOperation> = Vec::new();
        let mut codes: Vec<SdkReply> = Vec::new();
        let count: usize = if replies.len() <= requests.len() { replies.len() } else { requests.len() };
        let mut j: usize = 0;
        while j < requests.len()
            invariant
                requests@ == kinds,
                count <= requests@.len(),
                count <= replies@.len(),
                j <= requests@.len(),
                plan@ == param_queries(kinds).subrange(0, j as int),
                codes@.len() == if j <= count { j as nat } else { count as nat },
                forall|m: int| 0 <= m < codes@.len() ==> #[trigger] codes@[m].code == replies@[m].code,
            decreases requests@.len() - j,
        {
            plan.push(SdkOperation::GetRawDevelopmentParam(requests[j]));
            if j < count {
                codes.push(SdkReply { code: replies[j].code, value: 0 });
            }
            j = j + 1;
            assert(plan@ =~= param_queries(kinds).subrange(0, j as int));
        }
        assert(plan@ =~= param_queries(kinds));
        proof {
            lemma_failure_prefix(plan@, codes_of_seq(codes@), param_codes(replies@), success, count as nat);
        }
        if let Some(e) = find_failure(&plan, &codes, success, count) {
            return QueryStep::Done(Err(e));
        }
        if replies.len() < requests.len() {
            let kind = requests[replies.len()];
            return QueryStep::Query(SessionQuery::GetRawDevelopmentParam {
                session_id: self.session_id(),
                kind,
                flag: flags.flag(kind),
            });
        }
        let ghost values = param_values(replies@).subrange(0, kinds.len() as int);
        let mut params = RawDevelopmentParams::empty(mask);
        let mut m: usize = 0;
        while m < requests.len()
            invariant
                requests@ == kinds,
                requests@.len() <= replies@.len(),
                values == param_values(replies@).subrange(0, kinds.len() as int),
                m <= requests@.len(),
                params.supported_mask == mask,
                forall|k: RawDevelopment| #[trigger] param_value(params, k) == value_of(values.subrange(0, m as int), k),
            decreases requests@.len() - m,
        {
            params.set(replies[m].value);
            m = m + 1;
            assert forall|k: RawDevelopment| #[trigger] param_value(params, k) == value_of(values.subrange(0, m as int), k) by {
                assert(values.subrange(0, m as int).drop_last() =~= values.subrange(0, m - 1));
                assert(values.subrange(0, m as int).last() == replies@[m - 1].value);
            }
        }
        assert(values.subrange(0, values.len() as int) =~= values);
        assert(kinds_of(values) =~= kinds) by {
            assert forall|k: int| 0 <= k < kinds.len() implies #[trigger] kinds_of(values)[k] == kinds[k] by {
                assert(values[k] == replies@[k].value);
                assert(value_kind(replies@[k].value) == kinds[k]);
            }
        }
        assert forall|k: RawDevelopment| #[trigger] param_value(params, k) is Some
            <==> supported(mask, flag_of(*flags, k)) by {
            lemma_present_iff_supported(mask, *flags, values, k);
        }
        QueryStep::Done(Ok(params))
    }
}

/// The result codes of SDK replies.
pub open spec fn codes_of_seq(replies: Seq<SdkReply>) -> Seq<u64> {
    replies.map_values(|x: SdkReply| x.code)
}

/// Failures among the first `n` replies depend only on the first `n` codes.
proof fn lemma_failure_prefix(plan: Seq<SdkOperation>, a: Seq<u64>, b: Seq<u64>, success: u64, n: nat)
    requires
        n <= a.len(),
        n <= b.len(),
        forall|i: int| 0 <= i < n ==> a[i] == b[i],
    ensures
        first_failure(plan, a, success, n) == first_failure(plan, b, success, n),
    decreases n,
{
    if n > 0 {
        lemma_failure_prefix(plan, a, b, success, (n - 1) as nat);
    }
}

impl<'library> NikonSession<'library> {
    /// Next step of re-applying the session's current Picture Control: read
    /// it, then hand it back as a development setting. A failing read ends it
    /// with the read's error and nothing is applied; a failing apply ends it
    /// with the apply's error.
    pub fn apply_current_picture_control(
        &self,
        flags: &RawDevelopmentFlags,
        read_code: Option<u64>,
        apply_code: Option<u64>,
    ) -> (step: QueryStep<()>)
        ensures
            ({
                let ok = self.library().success();
                let read = SdkOperation::GetRawDevelopmentParam(RawDevelopment::PictureControl);
                &&& read_code is None ==> (step matches QueryStep::Query(q) && q == (SessionQuery::GetRawDevelopmentParam {
                    session_id: self.id(),
                    kind: RawDevelopment::PictureControl,
                    flag: flag_of(*flags, RawDevelopment::PictureControl),
                }))
                &&& read_code is Some && read_code.unwrap() != ok ==> (step matches QueryStep::Done(Err(e))
                    && e == (NikonError::Sdk { operation: read, code: read_code.unwrap() }))
                &&& read_code == Some(ok) && apply_code is None ==> (step matches QueryStep::Query(q)
                    && q == (SessionQuery::ApplyPictureControl { session_id: self.id() }))
                &&& read_code == Some(ok) && apply_code == Some(ok) ==> (step matches QueryStep::Done(Ok(())))
                &&& read_code == Some(ok) && apply_code is Some && apply_code.unwrap() != ok ==> (
                    step matches QueryStep::Done(Err(e)) && e == (NikonError::Sdk {
                        operation: SdkOperation::ApplyPictureControl,
                        code: apply_code.unwrap(),
                    }))
            }),
    {
        let code = match read_code {
            None => {
                return QueryStep::Query(SessionQuery::GetRawDevelopmentParam {
                    session_id: self.session_id(),
                    kind: RawDevelopment::PictureControl,
                    flag: flags.flag(RawDevelopment::PictureControl),
                });
            },
            Some(code) => code,
        };
        if let Err(e) = self.opened_on().check(SdkOperation::GetRawDevelopmentParam(RawDevelopment::PictureControl), code) {
            return QueryStep::Done(Err(e));
        }
        match apply_code {
            None => QueryStep::Query(SessionQuery::ApplyPictureControl { session_id: self.session_id() }),
            Some(a) => QueryStep::Done(self.opened_on().check(SdkOperation::ApplyPictureControl, a)),
        }
    }
}

} // verus!
