//! The table that maps Gemini's parameter names to Vital settings, and the
//! seed templates that generated presets start from.
//!
//! Gemini outputs normalized 0.0–1.0 values under simplified parameter
//! names; each mapping names the Vital key, the conversion from the unit
//! interval to the real Vital range, and the bounds the result is clamped to.

use vstd::prelude::*;

use crate::text::{has_suffix, str_equal};

verus! {

/// How a normalized 0–1 value is converted to a Vital value. Each conversion
/// is `v * scale + offset`, rounded to the nearest integer where `rounds`.
#[derive(Debug, Clone, Copy, PartialEq, Eq, Structural)]
pub enum Converter {
    /// 0–1 stays 0–1.
    Identity,
    /// 0–1 → -1.0 to 1.0.
    Bipolar,
    /// 0–1 → -48 to 48 semitones.
    Semitones48,
    /// 0–1 → 1 to 16 voices (rounded).
    UnisonVoices,
    /// 0–1 → 0.0 to 10.0.
    UnisonDetune,
    /// 0–1 → MIDI note 8.0 to 136.0.
    MidiCutoff,
    /// 0–1 → 0.0 to 2.0 (0 = LP, 1 = BP, 2 = HP).
    FilterBlend,
    /// 0–1 → 0.0 to 4.0.
    EnvTime,
    /// 0–1 → -4.0 to 4.0 (0 = linear).
    EnvPower,
    /// 0–1 → -6.0 to 6.0 (tempo-synced divisions).
    DelayFreq,
    /// 0–1 → -8.0 to 8.0 (log-scale Hz).
    LfoFreq,
    /// Oscillator level, kept as is.
    OscLevel,
    /// Discrete 0–3 (rounded).
    IntRange4,
    /// Discrete 0–5 (rounded).
    IntRange6,
    /// Discrete 0–7 (rounded).
    IntRange8,
    /// Discrete 0–11 (rounded).
    IntRange12,
    /// 0–1 → 0.0 to 10.0.
    DetuneRange,
    /// 0–1 → 0.0 to 12.0 (tempo-synced rate).
    Tempo,
    /// 0–1 → -6.0 to 6.0 dB.
    ShelfGain,
    /// 0–1 → -15.0 to 15.0 dB.
    EqGain,
    /// 0–1 → -6.0 to 30.0 dB.
    CompressorGain,
    /// 0–1 → 0.0 to 48.0.
    PhaserModDepth,
    /// 0–1 → 1 to 32 voices (rounded).
    Polyphony,
    /// 0–1 → 1 to 4 voices (rounded); Vital crashes with five or more.
    ChorusVoices,
}

impl Converter {
    /// The factor that the normalized value is multiplied by.
    pub open spec fn spec_scale(self) -> int {
        match self {
            Converter::Identity => 1,
            Converter::Bipolar => 2,
            Converter::Semitones48 => 96,
            Converter::UnisonVoices => 15,
            Converter::UnisonDetune => 10,
            Converter::MidiCutoff => 128,
            Converter::FilterBlend => 2,
            Converter::EnvTime => 4,
            Converter::EnvPower => 8,
            Converter::DelayFreq => 12,
            Converter::LfoFreq => 16,
            Converter::OscLevel => 1,
            Converter::IntRange4 => 3,
            Converter::IntRange6 => 5,
            Converter::IntRange8 => 7,
            Converter::IntRange12 => 11,
            Converter::DetuneRange => 10,
            Converter::Tempo => 12,
            Converter::ShelfGain => 12,
            Converter::EqGain => 30,
            Converter::CompressorGain => 36,
            Converter::PhaserModDepth => 48,
            Converter::Polyphony => 31,
            Converter::ChorusVoices => 3,
        }
    }

    /// The amount added after scaling.
    pub open spec fn spec_offset(self) -> int {
        match self {
            Converter::Bipolar => -1,
            Converter::Semitones48 => -48,
            Converter::UnisonVoices => 1,
            Converter::MidiCutoff => 8,
            Converter::EnvPower => -4,
            Converter::DelayFreq => -6,
            Converter::LfoFreq => -8,
            Converter::ShelfGain => -6,
            Converter::EqGain => -15,
            Converter::CompressorGain => -6,
            Converter::Polyphony => 1,
            Converter::ChorusVoices => 1,
            _ => 0,
        }
    }

    /// Whether the converted value is rounded to the nearest integer.
    pub open spec fn spec_rounds(self) -> bool {
        match self {
            Converter::UnisonVoices | Converter::IntRange4 | Converter::IntRange6
            | Converter::IntRange8 | Converter::IntRange12 | Converter::Polyphony
            | Converter::ChorusVoices => true,
            _ => false,
        }
    }

    /// The factor that the normalized value is multiplied by.
    pub fn scale(&self) -> (r: i32)
        ensures
            r == self.spec_scale(),
    {
        match self {
            Converter::Identity => 1,
            Converter::Bipolar => 2,
            Converter::Semitones48 => 96,
            Converter::UnisonVoices => 15,
            Converter::UnisonDetune => 10,
            Converter::MidiCutoff => 128,
            Converter::FilterBlend => 2,
            Converter::EnvTime => 4,
            Converter::EnvPower => 8,
            Converter::DelayFreq => 12,
            Converter::LfoFreq => 16,
            Converter::OscLevel => 1,
            Converter::IntRange4 => 3,
            Converter::IntRange6 => 5,
            Converter::IntRange8 => 7,
            Converter::IntRange12 => 11,
            Converter::DetuneRange => 10,
            Converter::Tempo => 12,
            Converter::ShelfGain => 12,
            Converter::EqGain => 30,
            Converter::CompressorGain => 36,
            Converter::PhaserModDepth => 48,
            Converter::Polyphony => 31,
            Converter::ChorusVoices => 3,
        }
    }

    /// The amount added after scaling.
    pub fn offset(&self) -> (r: i32)
        ensures
            r == self.spec_offset(),
    {
        match self {
            Converter::Bipolar => -1,
            Converter::Semitones48 => -48,
            Converter::UnisonVoices => 1,
            Converter::MidiCutoff => 8,
            Converter::EnvPower => -4,
            Converter::DelayFreq => -6,
            Converter::LfoFreq => -8,
            Converter::ShelfGain => -6,
            Converter::EqGain => -15,
            Converter::CompressorGain => -6,
            Converter::Polyphony => 1,
            Converter::ChorusVoices => 1,
            _ => 0,
        }
    }

    /// Whether the converted value is rounded to the nearest integer.
    pub fn rounds(&self) -> (r: bool)
        ensures
            r == self.spec_rounds(),
    {
        match self {
            Converter::UnisonVoices | Converter::IntRange4 | Converter::IntRange6
            | Converter::IntRange8 | Converter::IntRange12 | Converter::Polyphony
            | Converter::ChorusVoices => true,
            _ => false,
        }
    }
}

/// One entry of the mapping table: the Gemini output name, the Vital
/// settings key, the conversion, and the bounds (inclusive) that the
/// converted value is clamped to.
#[derive(Debug, Clone, Copy)]
pub struct ParamMapping {
    pub gemini_name: &'static str,
    pub vital_key: &'static str,
    pub convert: Converter,
    /// Minimum valid Vital value after conversion.
    pub min: i32,
    /// Maximum valid Vital value after conversion.
    pub max: i32,
}

pub open spec fn spec_mapping(
    gemini_name: &'static str,
    vital_key: &'static str,
    convert: Converter,
    min: int,
    max: int,
) -> ParamMapping {
    ParamMapping { gemini_name, vital_key, convert, min: min as i32, max: max as i32 }
}

fn mapping(
    gemini_name: &'static str,
    vital_key: &'static str,
    convert: Converter,
    min: i32,
    max: i32,
) -> (m: ParamMapping)
    ensures
        m == spec_mapping(gemini_name, vital_key, convert, min as int, max as int),
{
    ParamMapping { gemini_name, vital_key, convert, min, max }
}

/// The mapping table, in the order in which it is searched.
pub open spec fn param_table() -> Seq<ParamMapping> {
    seq![
        // Oscillator 1
        spec_mapping("osc_1_wave_frame", "osc_1_wave_frame", Converter::Identity, 0, 1),
        spec_mapping("osc_1_level", "osc_1_level", Converter::OscLevel, 0, 1),
        spec_mapping("osc_1_pan", "osc_1_pan", Converter::Bipolar, -1, 1),
        spec_mapping("osc_1_tune", "osc_1_tune", Converter::Bipolar, -1, 1),
        spec_mapping("osc_1_transpose", "osc_1_transpose", Converter::Semitones48, -48, 48),
        spec_mapping("osc_1_unison_voices", "osc_1_unison_voices", Converter::UnisonVoices, 1, 16),
        spec_mapping("osc_1_unison_detune", "osc_1_unison_detune", Converter::UnisonDetune, 0, 10),
        spec_mapping("osc_1_unison_blend", "osc_1_unison_blend", Converter::Identity, 0, 1),
        spec_mapping("osc_1_phase", "osc_1_phase", Converter::Identity, 0, 1),
        spec_mapping("osc_1_random_phase", "osc_1_random_phase", Converter::Identity, 0, 1),
        spec_mapping("osc_1_distortion_amount", "osc_1_distortion_amount", Converter::Identity, 0, 1),
        spec_mapping("osc_1_distortion_phase", "osc_1_distortion_phase", Converter::Identity, 0, 1),
        spec_mapping("osc_1_distortion_type", "osc_1_distortion_type", Converter::IntRange12, 0, 11),
        spec_mapping("osc_1_frame_spread", "osc_1_frame_spread", Converter::Identity, 0, 1),
        spec_mapping("osc_1_spectral_morph_amount", "osc_1_spectral_morph_amount", Converter::Identity, 0, 1),
        spec_mapping("osc_1_spectral_morph_type", "osc_1_spectral_morph_type", Converter::IntRange12, 0, 11),
        spec_mapping("osc_1_stereo_spread", "osc_1_stereo_spread", Converter::Identity, 0, 1),
        spec_mapping("osc_1_detune_range", "osc_1_detune_range", Converter::DetuneRange, 0, 10),
        // Oscillator 2
        spec_mapping("osc_2_wave_frame", "osc_2_wave_frame", Converter::Identity, 0, 1),
        spec_mapping("osc_2_level", "osc_2_level", Converter::OscLevel, 0, 1),
        spec_mapping("osc_2_pan", "osc_2_pan", Converter::Bipolar, -1, 1),
        spec_mapping("osc_2_tune", "osc_2_tune", Converter::Bipolar, -1, 1),
        spec_mapping("osc_2_transpose", "osc_2_transpose", Converter::Semitones48, -48, 48),
        spec_mapping("osc_2_unison_voices", "osc_2_unison_voices", Converter::UnisonVoices, 1, 16),
        spec_mapping("osc_2_unison_detune", "osc_2_unison_detune", Converter::UnisonDetune, 0, 10),
        spec_mapping("osc_2_unison_blend", "osc_2_unison_blend", Converter::Identity, 0, 1),
        spec_mapping("osc_2_phase", "osc_2_phase", Converter::Identity, 0, 1),
        spec_mapping("osc_2_random_phase", "osc_2_random_phase", Converter::Identity, 0, 1),
        spec_mapping("osc_2_distortion_amount", "osc_2_distortion_amount", Converter::Identity, 0, 1),
        spec_mapping("osc_2_distortion_phase", "osc_2_distortion_phase", Converter::Identity, 0, 1),
        spec_mapping("osc_2_distortion_type", "osc_2_distortion_type", Converter::IntRange12, 0, 11),
        spec_mapping("osc_2_frame_spread", "osc_2_frame_spread", Converter::Identity, 0, 1),
        spec_mapping("osc_2_spectral_morph_amount", "osc_2_spectral_morph_amount", Converter::Identity, 0, 1),
        spec_mapping("osc_2_spectral_morph_type", "osc_2_spectral_morph_type", Converter::IntRange12, 0, 11),
        spec_mapping("osc_2_stereo_spread", "osc_2_stereo_spread", Converter::Identity, 0, 1),
        spec_mapping("osc_2_detune_range", "osc_2_detune_range", Converter::DetuneRange, 0, 10),
        // Oscillator 3
        spec_mapping("osc_3_wave_frame", "osc_3_wave_frame", Converter::Identity, 0, 1),
        spec_mapping("osc_3_level", "osc_3_level", Converter::OscLevel, 0, 1),
        spec_mapping("osc_3_pan", "osc_3_pan", Converter::Bipolar, -1, 1),
        spec_mapping("osc_3_tune", "osc_3_tune", Converter::Bipolar, -1, 1),
        spec_mapping("osc_3_transpose", "osc_3_transpose", Converter::Semitones48, -48, 48),
        spec_mapping("osc_3_unison_voices", "osc_3_unison_voices", Converter::UnisonVoices, 1, 16),
        spec_mapping("osc_3_unison_detune", "osc_3_unison_detune", Converter::UnisonDetune, 0, 10),
        spec_mapping("osc_3_unison_blend", "osc_3_unison_blend", Converter::Identity, 0, 1),
        spec_mapping("osc_3_phase", "osc_3_phase", Converter::Identity, 0, 1),
        spec_mapping("osc_3_random_phase", "osc_3_random_phase", Converter::Identity, 0, 1),
        spec_mapping("osc_3_distortion_amount", "osc_3_distortion_amount", Converter::Identity, 0, 1),
        spec_mapping("osc_3_distortion_phase", "osc_3_distortion_phase", Converter::Identity, 0, 1),
        spec_mapping("osc_3_distortion_type", "osc_3_distortion_type", Converter::IntRange12, 0, 11),
        spec_mapping("osc_3_frame_spread", "osc_3_frame_spread", Converter::Identity, 0, 1),
        spec_mapping("osc_3_spectral_morph_amount", "osc_3_spectral_morph_amount", Converter::Identity, 0, 1),
        spec_mapping("osc_3_spectral_morph_type", "osc_3_spectral_morph_type", Converter::IntRange12, 0, 11),
        spec_mapping("osc_3_stereo_spread", "osc_3_stereo_spread", Converter::Identity, 0, 1),
        spec_mapping("osc_3_detune_range", "osc_3_detune_range", Converter::DetuneRange, 0, 10),
        // Filter 1
        spec_mapping("filter_1_cutoff", "filter_1_cutoff", Converter::MidiCutoff, 8, 136),
        spec_mapping("filter_1_resonance", "filter_1_resonance", Converter::Identity, 0, 1),
        spec_mapping("filter_1_drive", "filter_1_drive", Converter::Identity, 0, 1),
        spec_mapping("filter_1_blend", "filter_1_blend", Converter::FilterBlend, 0, 2),
        spec_mapping("filter_1_mix", "filter_1_mix", Converter::Identity, 0, 1),
        spec_mapping("filter_1_keytrack", "filter_1_keytrack", Converter::Identity, 0, 1),
        spec_mapping("filter_1_model", "filter_1_model", Converter::IntRange6, 0, 5),
        spec_mapping("filter_1_style", "filter_1_style", Converter::IntRange4, 0, 3),
        // Filter 2
        spec_mapping("filter_2_cutoff", "filter_2_cutoff", Converter::MidiCutoff, 8, 136),
        spec_mapping("filter_2_resonance", "filter_2_resonance", Converter::Identity, 0, 1),
        spec_mapping("filter_2_drive", "filter_2_drive", Converter::Identity, 0, 1),
        spec_mapping("filter_2_blend", "filter_2_blend", Converter::FilterBlend, 0, 2),
        spec_mapping("filter_2_mix", "filter_2_mix", Converter::Identity, 0, 1),
        spec_mapping("filter_2_keytrack", "filter_2_keytrack", Converter::Identity, 0, 1),
        spec_mapping("filter_2_model", "filter_2_model", Converter::IntRange6, 0, 5),
        spec_mapping("filter_2_style", "filter_2_style", Converter::IntRange4, 0, 3),
        // Envelope 1 (amplitude)
        spec_mapping("env_1_attack", "env_1_attack", Converter::EnvTime, 0, 4),
        spec_mapping("env_1_decay", "env_1_decay", Converter::EnvTime, 0, 4),
        spec_mapping("env_1_sustain", "env_1_sustain", Converter::Identity, 0, 1),
        spec_mapping("env_1_release", "env_1_release", Converter::EnvTime, 0, 4),
        spec_mapping("env_1_attack_power", "env_1_attack_power", Converter::EnvPower, -4, 4),
        spec_mapping("env_1_decay_power", "env_1_decay_power", Converter::EnvPower, -4, 4),
        spec_mapping("env_1_release_power", "env_1_release_power", Converter::EnvPower, -4, 4),
        spec_mapping("env_1_delay", "env_1_delay", Converter::EnvTime, 0, 4),
        spec_mapping("env_1_hold", "env_1_hold", Converter::EnvTime, 0, 4),
        // Envelope 2 (modulation)
        spec_mapping("env_2_attack", "env_2_attack", Converter::EnvTime, 0, 4),
        spec_mapping("env_2_decay", "env_2_decay", Converter::EnvTime, 0, 4),
        spec_mapping("env_2_sustain", "env_2_sustain", Converter::Identity, 0, 1),
        spec_mapping("env_2_release", "env_2_release", Converter::EnvTime, 0, 4),
        spec_mapping("env_2_attack_power", "env_2_attack_power", Converter::EnvPower, -4, 4),
        spec_mapping("env_2_decay_power", "env_2_decay_power", Converter::EnvPower, -4, 4),
        spec_mapping("env_2_release_power", "env_2_release_power", Converter::EnvPower, -4, 4),
        spec_mapping("env_2_delay", "env_2_delay", Converter::EnvTime, 0, 4),
        spec_mapping("env_2_hold", "env_2_hold", Converter::EnvTime, 0, 4),
        // Envelope 3
        spec_mapping("env_3_attack", "env_3_attack", Converter::EnvTime, 0, 4),
        spec_mapping("env_3_decay", "env_3_decay", Converter::EnvTime, 0, 4),
        spec_mapping("env_3_sustain", "env_3_sustain", Converter::Identity, 0, 1),
        spec_mapping("env_3_release", "env_3_release", Converter::EnvTime, 0, 4),
        spec_mapping("env_3_attack_power", "env_3_attack_power", Converter::EnvPower, -4, 4),
        spec_mapping("env_3_decay_power", "env_3_decay_power", Converter::EnvPower, -4, 4),
        spec_mapping("env_3_release_power", "env_3_release_power", Converter::EnvPower, -4, 4),
        spec_mapping("env_3_delay", "env_3_delay", Converter::EnvTime, 0, 4),
        spec_mapping("env_3_hold", "env_3_hold", Converter::EnvTime, 0, 4),
        // LFO 1
        spec_mapping("lfo_1_frequency", "lfo_1_frequency", Converter::LfoFreq, -8, 8),
        spec_mapping("lfo_1_phase", "lfo_1_phase", Converter::Identity, 0, 1),
        spec_mapping("lfo_1_fade_time", "lfo_1_fade_time", Converter::Identity, 0, 1),
        spec_mapping("lfo_1_delay_time", "lfo_1_delay_time", Converter::Identity, 0, 1),
        spec_mapping("lfo_1_stereo", "lfo_1_stereo", Converter::Identity, 0, 1),
        spec_mapping("lfo_1_tempo", "lfo_1_tempo", Converter::Tempo, 0, 12),
        spec_mapping("lfo_1_sync_type", "lfo_1_sync_type", Converter::IntRange4, 0, 3),
        // LFO 2
        spec_mapping("lfo_2_frequency", "lfo_2_frequency", Converter::LfoFreq, -8, 8),
        spec_mapping("lfo_2_phase", "lfo_2_phase", Converter::Identity, 0, 1),
        spec_mapping("lfo_2_fade_time", "lfo_2_fade_time", Converter::Identity, 0, 1),
        spec_mapping("lfo_2_delay_time", "lfo_2_delay_time", Converter::Identity, 0, 1),
        spec_mapping("lfo_2_stereo", "lfo_2_stereo", Converter::Identity, 0, 1),
        spec_mapping("lfo_2_tempo", "lfo_2_tempo", Converter::Tempo, 0, 12),
        spec_mapping("lfo_2_sync_type", "lfo_2_sync_type", Converter::IntRange4, 0, 3),
        // LFO 3
        spec_mapping("lfo_3_frequency", "lfo_3_frequency", Converter::LfoFreq, -8, 8),
        spec_mapping("lfo_3_phase", "lfo_3_phase", Converter::Identity, 0, 1),
        spec_mapping("lfo_3_fade_time", "lfo_3_fade_time", Converter::Identity, 0, 1),
        spec_mapping("lfo_3_delay_time", "lfo_3_delay_time", Converter::Identity, 0, 1),
        spec_mapping("lfo_3_stereo", "lfo_3_stereo", Converter::Identity, 0, 1),
        spec_mapping("lfo_3_tempo", "lfo_3_tempo", Converter::Tempo, 0, 12),
        spec_mapping("lfo_3_sync_type", "lfo_3_sync_type", Converter::IntRange4, 0, 3),
        // Reverb
        spec_mapping("reverb_dry_wet", "reverb_dry_wet", Converter::Identity, 0, 1),
        spec_mapping("reverb_decay_time", "reverb_decay_time", Converter::Identity, 0, 1),
        spec_mapping("reverb_size", "reverb_size", Converter::Identity, 0, 1),
        spec_mapping("reverb_chorus_amount", "reverb_chorus_amount", Converter::Identity, 0, 1),
        spec_mapping("reverb_chorus_frequency", "reverb_chorus_frequency", Converter::LfoFreq, -8, 8),
        spec_mapping("reverb_delay", "reverb_delay", Converter::Identity, 0, 1),
        spec_mapping("reverb_high_shelf_cutoff", "reverb_high_shelf_cutoff", Converter::MidiCutoff, 8, 136),
        spec_mapping("reverb_high_shelf_gain", "reverb_high_shelf_gain", Converter::ShelfGain, -6, 6),
        spec_mapping("reverb_low_shelf_cutoff", "reverb_low_shelf_cutoff", Converter::MidiCutoff, 8, 136),
        spec_mapping("reverb_low_shelf_gain", "reverb_low_shelf_gain", Converter::ShelfGain, -6, 6),
        spec_mapping("reverb_pre_high_cutoff", "reverb_pre_high_cutoff", Converter::MidiCutoff, 8, 136),
        spec_mapping("reverb_pre_low_cutoff", "reverb_pre_low_cutoff", Converter::MidiCutoff, 8, 136),
        // Delay
        spec_mapping("delay_dry_wet", "delay_dry_wet", Converter::Identity, 0, 1),
        spec_mapping("delay_feedback", "delay_feedback", Converter::Identity, 0, 1),
        spec_mapping("delay_frequency", "delay_frequency", Converter::DelayFreq, -6, 6),
        spec_mapping("delay_filter_cutoff", "delay_filter_cutoff", Converter::MidiCutoff, 8, 136),
        spec_mapping("delay_filter_spread", "delay_filter_spread", Converter::Identity, 0, 1),
        spec_mapping("delay_style", "delay_style", Converter::IntRange4, 0, 3),
        spec_mapping("delay_tempo", "delay_tempo", Converter::Tempo, 0, 12),
        // Chorus
        spec_mapping("chorus_dry_wet", "chorus_dry_wet", Converter::Identity, 0, 1),
        spec_mapping("chorus_feedback", "chorus_feedback", Converter::Identity, 0, 1),
        spec_mapping("chorus_cutoff", "chorus_cutoff", Converter::MidiCutoff, 8, 136),
        spec_mapping("chorus_frequency", "chorus_frequency", Converter::LfoFreq, -8, 8),
        spec_mapping("chorus_mod_depth", "chorus_mod_depth", Converter::Identity, 0, 1),
        spec_mapping("chorus_spread", "chorus_spread", Converter::Identity, 0, 1),
        spec_mapping("chorus_voices", "chorus_voices", Converter::ChorusVoices, 1, 4),
        spec_mapping("chorus_tempo", "chorus_tempo", Converter::Tempo, 0, 12),
        // Distortion
        spec_mapping("distortion_drive", "distortion_drive", Converter::Identity, 0, 1),
        spec_mapping("distortion_mix", "distortion_mix", Converter::Identity, 0, 1),
        spec_mapping("distortion_type", "distortion_type", Converter::IntRange8, 0, 7),
        spec_mapping("distortion_filter_cutoff", "distortion_filter_cutoff", Converter::MidiCutoff, 8, 136),
        spec_mapping("distortion_filter_resonance", "distortion_filter_resonance", Converter::Identity, 0, 1),
        spec_mapping("distortion_filter_blend", "distortion_filter_blend", Converter::FilterBlend, 0, 2),
        // Compressor
        spec_mapping("compressor_attack", "compressor_attack", Converter::Identity, 0, 1),
        spec_mapping("compressor_release", "compressor_release", Converter::Identity, 0, 1),
        spec_mapping("compressor_mix", "compressor_mix", Converter::Identity, 0, 1),
        spec_mapping("compressor_band_gain", "compressor_band_gain", Converter::CompressorGain, -6, 30),
        spec_mapping("compressor_low_gain", "compressor_low_gain", Converter::CompressorGain, -6, 30),
        spec_mapping("compressor_high_gain", "compressor_high_gain", Converter::CompressorGain, -6, 30),
        // EQ
        spec_mapping("eq_band_cutoff", "eq_band_cutoff", Converter::MidiCutoff, 8, 136),
        spec_mapping("eq_band_gain", "eq_band_gain", Converter::EqGain, -15, 15),
        spec_mapping("eq_band_resonance", "eq_band_resonance", Converter::Identity, 0, 1),
        spec_mapping("eq_high_cutoff", "eq_high_cutoff", Converter::MidiCutoff, 8, 136),
        spec_mapping("eq_high_gain", "eq_high_gain", Converter::EqGain, -15, 15),
        spec_mapping("eq_high_resonance", "eq_high_resonance", Converter::Identity, 0, 1),
        spec_mapping("eq_low_cutoff", "eq_low_cutoff", Converter::MidiCutoff, 8, 136),
        spec_mapping("eq_low_gain", "eq_low_gain", Converter::EqGain, -15, 15),
        spec_mapping("eq_low_resonance", "eq_low_resonance", Converter::Identity, 0, 1),
        // Flanger
        spec_mapping("flanger_center", "flanger_center", Converter::MidiCutoff, 8, 136),
        spec_mapping("flanger_dry_wet", "flanger_dry_wet", Converter::Identity, 0, 1),
        spec_mapping("flanger_feedback", "flanger_feedback", Converter::Identity, 0, 1),
        spec_mapping("flanger_frequency", "flanger_frequency", Converter::LfoFreq, -8, 8),
        spec_mapping("flanger_mod_depth", "flanger_mod_depth", Converter::Identity, 0, 1),
        spec_mapping("flanger_phase_offset", "flanger_phase_offset", Converter::Identity, 0, 1),
        spec_mapping("flanger_tempo", "flanger_tempo", Converter::Tempo, 0, 12),
        // Phaser
        spec_mapping("phaser_center", "phaser_center", Converter::MidiCutoff, 8, 136),
        spec_mapping("phaser_dry_wet", "phaser_dry_wet", Converter::Identity, 0, 1),
        spec_mapping("phaser_feedback", "phaser_feedback", Converter::Identity, 0, 1),
        spec_mapping("phaser_frequency", "phaser_frequency", Converter::LfoFreq, -8, 8),
        spec_mapping("phaser_mod_depth", "phaser_mod_depth", Converter::PhaserModDepth, 0, 48),
        spec_mapping("phaser_phase_offset", "phaser_phase_offset", Converter::Identity, 0, 1),
        spec_mapping("phaser_tempo", "phaser_tempo", Converter::Tempo, 0, 12),
        // Sample
        spec_mapping("sample_level", "sample_level", Converter::Identity, 0, 1),
        spec_mapping("sample_pan", "sample_pan", Converter::Bipolar, -1, 1),
        spec_mapping("sample_transpose", "sample_transpose", Converter::Semitones48, -48, 48),
        spec_mapping("sample_tune", "sample_tune", Converter::Bipolar, -1, 1),
        // Voice / Global
        spec_mapping("polyphony", "polyphony", Converter::Polyphony, 1, 32),
        spec_mapping("portamento_time", "portamento_time", Converter::EnvTime, 0, 4),
        spec_mapping("pitch_bend_range", "pitch_bend_range", Converter::Semitones48, -48, 48),
        spec_mapping("velocity_track", "velocity_track", Converter::Identity, 0, 1),
        spec_mapping("voice_amplitude", "voice_amplitude", Converter::Identity, 0, 1),
        spec_mapping("legato", "legato", Converter::Identity, 0, 1),
        // Macro Controls
        spec_mapping("macro_control_1", "macro_control_1", Converter::Identity, 0, 1),
        spec_mapping("macro_control_2", "macro_control_2", Converter::Identity, 0, 1),
        spec_mapping("macro_control_3", "macro_control_3", Converter::Identity, 0, 1),
        spec_mapping("macro_control_4", "macro_control_4", Converter::Identity, 0, 1),
    ]
}

/// The mapping table.
pub fn param_mappings() -> (v: Vec<ParamMapping>)
    ensures
        v@ == param_table(),
{
    vec![
        // Oscillator 1
        mapping("osc_1_wave_frame", "osc_1_wave_frame", Converter::Identity, 0, 1),
        mapping("osc_1_level", "osc_1_level", Converter::OscLevel, 0, 1),
        mapping("osc_1_pan", "osc_1_pan", Converter::Bipolar, -1, 1),
        mapping("osc_1_tune", "osc_1_tune", Converter::Bipolar, -1, 1),
        mapping("osc_1_transpose", "osc_1_transpose", Converter::Semitones48, -48, 48),
        mapping("osc_1_unison_voices", "osc_1_unison_voices", Converter::UnisonVoices, 1, 16),
        mapping("osc_1_unison_detune", "osc_1_unison_detune", Converter::UnisonDetune, 0, 10),
        mapping("osc_1_unison_blend", "osc_1_unison_blend", Converter::Identity, 0, 1),
        mapping("osc_1_phase", "osc_1_phase", Converter::Identity, 0, 1),
        mapping("osc_1_random_phase", "osc_1_random_phase", Converter::Identity, 0, 1),
        mapping("osc_1_distortion_amount", "osc_1_distortion_amount", Converter::Identity, 0, 1),
        mapping("osc_1_distortion_phase", "osc_1_distortion_phase", Converter::Identity, 0, 1),
        mapping("osc_1_distortion_type", "osc_1_distortion_type", Converter::IntRange12, 0, 11),
        mapping("osc_1_frame_spread", "osc_1_frame_spread", Converter::Identity, 0, 1),
        mapping("osc_1_spectral_morph_amount", "osc_1_spectral_morph_amount", Converter::Identity, 0, 1),
        mapping("osc_1_spectral_morph_type", "osc_1_spectral_morph_type", Converter::IntRange12, 0, 11),
        mapping("osc_1_stereo_spread", "osc_1_stereo_spread", Converter::Identity, 0, 1),
        mapping("osc_1_detune_range", "osc_1_detune_range", Converter::DetuneRange, 0, 10),
        // Oscillator 2
        mapping("osc_2_wave_frame", "osc_2_wave_frame", Converter::Identity, 0, 1),
        mapping("osc_2_level", "osc_2_level", Converter::OscLevel, 0, 1),
        mapping("osc_2_pan", "osc_2_pan", Converter::Bipolar, -1, 1),
        mapping("osc_2_tune", "osc_2_tune", Converter::Bipolar, -1, 1),
        mapping("osc_2_transpose", "osc_2_transpose", Converter::Semitones48, -48, 48),
        mapping("osc_2_unison_voices", "osc_2_unison_voices", Converter::UnisonVoices, 1, 16),
        mapping("osc_2_unison_detune", "osc_2_unison_detune", Converter::UnisonDetune, 0, 10),
        mapping("osc_2_unison_blend", "osc_2_unison_blend", Converter::Identity, 0, 1),
        mapping("osc_2_phase", "osc_2_phase", Converter::Identity, 0, 1),
        mapping("osc_2_random_phase", "osc_2_random_phase", Converter::Identity, 0, 1),
        mapping("osc_2_distortion_amount", "osc_2_distortion_amount", Converter::Identity, 0, 1),
        mapping("osc_2_distortion_phase", "osc_2_distortion_phase", Converter::Identity, 0, 1),
        mapping("osc_2_distortion_type", "osc_2_distortion_type", Converter::IntRange12, 0, 11),
        mapping("osc_2_frame_spread", "osc_2_frame_spread", Converter::Identity, 0, 1),
        mapping("osc_2_spectral_morph_amount", "osc_2_spectral_morph_amount", Converter::Identity, 0, 1),
        mapping("osc_2_spectral_morph_type", "osc_2_spectral_morph_type", Converter::IntRange12, 0, 11),
        mapping("osc_2_stereo_spread", "osc_2_stereo_spread", Converter::Identity, 0, 1),
        mapping("osc_2_detune_range", "osc_2_detune_range", Converter::DetuneRange, 0, 10),
        // Oscillator 3
        mapping("osc_3_wave_frame", "osc_3_wave_frame", Converter::Identity, 0, 1),
        mapping("osc_3_level", "osc_3_level", Converter::OscLevel, 0, 1),
        mapping("osc_3_pan", "osc_3_pan", Converter::Bipolar, -1, 1),
        mapping("osc_3_tune", "osc_3_tune", Converter::Bipolar, -1, 1),
        mapping("osc_3_transpose", "osc_3_transpose", Converter::Semitones48, -48, 48),
        mapping("osc_3_unison_voices", "osc_3_unison_voices", Converter::UnisonVoices, 1, 16),
        mapping("osc_3_unison_detune", "osc_3_unison_detune", Converter::UnisonDetune, 0, 10),
        mapping("osc_3_unison_blend", "osc_3_unison_blend", Converter::Identity, 0, 1),
        mapping("osc_3_phase", "osc_3_phase", Converter::Identity, 0, 1),
        mapping("osc_3_random_phase", "osc_3_random_phase", Converter::Identity, 0, 1),
        mapping("osc_3_distortion_amount", "osc_3_distortion_amount", Converter::Identity, 0, 1),
        mapping("osc_3_distortion_phase", "osc_3_distortion_phase", Converter::Identity, 0, 1),
        mapping("osc_3_distortion_type", "osc_3_distortion_type", Converter::IntRange12, 0, 11),
        mapping("osc_3_frame_spread", "osc_3_frame_spread", Converter::Identity, 0, 1),
        mapping("osc_3_spectral_morph_amount", "osc_3_spectral_morph_amount", Converter::Identity, 0, 1),
        mapping("osc_3_spectral_morph_type", "osc_3_spectral_morph_type", Converter::IntRange12, 0, 11),
        mapping("osc_3_stereo_spread", "osc_3_stereo_spread", Converter::Identity, 0, 1),
        mapping("osc_3_detune_range", "osc_3_detune_range", Converter::DetuneRange, 0, 10),
        // Filter 1
        mapping("filter_1_cutoff", "filter_1_cutoff", Converter::MidiCutoff, 8, 136),
        mapping("filter_1_resonance", "filter_1_resonance", Converter::Identity, 0, 1),
        mapping("filter_1_drive", "filter_1_drive", Converter::Identity, 0, 1),
        mapping("filter_1_blend", "filter_1_blend", Converter::FilterBlend, 0, 2),
        mapping("filter_1_mix", "filter_1_mix", Converter::Identity, 0, 1),
        mapping("filter_1_keytrack", "filter_1_keytrack", Converter::Identity, 0, 1),
        mapping("filter_1_model", "filter_1_model", Converter::IntRange6, 0, 5),
        mapping("filter_1_style", "filter_1_style", Converter::IntRange4, 0, 3),
        // Filter 2
        mapping("filter_2_cutoff", "filter_2_cutoff", Converter::MidiCutoff, 8, 136),
        mapping("filter_2_resonance", "filter_2_resonance", Converter::Identity, 0, 1),
        mapping("filter_2_drive", "filter_2_drive", Converter::Identity, 0, 1),
        mapping("filter_2_blend", "filter_2_blend", Converter::FilterBlend, 0, 2),
        mapping("filter_2_mix", "filter_2_mix", Converter::Identity, 0, 1),
        mapping("filter_2_keytrack", "filter_2_keytrack", Converter::Identity, 0, 1),
        mapping("filter_2_model", "filter_2_model", Converter::IntRange6, 0, 5),
        mapping("filter_2_style", "filter_2_style", Converter::IntRange4, 0, 3),
        // Envelope 1 (amplitude)
        mapping("env_1_attack", "env_1_attack", Converter::EnvTime, 0, 4),
        mapping("env_1_decay", "env_1_decay", Converter::EnvTime, 0, 4),
        mapping("env_1_sustain", "env_1_sustain", Converter::Identity, 0, 1),
        mapping("env_1_release", "env_1_release", Converter::EnvTime, 0, 4),
        mapping("env_1_attack_power", "env_1_attack_power", Converter::EnvPower, -4, 4),
        mapping("env_1_decay_power", "env_1_decay_power", Converter::EnvPower, -4, 4),
        mapping("env_1_release_power", "env_1_release_power", Converter::EnvPower, -4, 4),
        mapping("env_1_delay", "env_1_delay", Converter::EnvTime, 0, 4),
        mapping("env_1_hold", "env_1_hold", Converter::EnvTime, 0, 4),
        // Envelope 2 (modulation)
        mapping("env_2_attack", "env_2_attack", Converter::EnvTime, 0, 4),
        mapping("env_2_decay", "env_2_decay", Converter::EnvTime, 0, 4),
        mapping("env_2_sustain", "env_2_sustain", Converter::Identity, 0, 1),
        mapping("env_2_release", "env_2_release", Converter::EnvTime, 0, 4),
        mapping("env_2_attack_power", "env_2_attack_power", Converter::EnvPower, -4, 4),
        mapping("env_2_decay_power", "env_2_decay_power", Converter::EnvPower, -4, 4),
        mapping("env_2_release_power", "env_2_release_power", Converter::EnvPower, -4, 4),
        mapping("env_2_delay", "env_2_delay", Converter::EnvTime, 0, 4),
        mapping("env_2_hold", "env_2_hold", Converter::EnvTime, 0, 4),
        // Envelope 3
        mapping("env_3_attack", "env_3_attack", Converter::EnvTime, 0, 4),
        mapping("env_3_decay", "env_3_decay", Converter::EnvTime, 0, 4),
        mapping("env_3_sustain", "env_3_sustain", Converter::Identity, 0, 1),
        mapping("env_3_release", "env_3_release", Converter::EnvTime, 0, 4),
        mapping("env_3_attack_power", "env_3_attack_power", Converter::EnvPower, -4, 4),
        mapping("env_3_decay_power", "env_3_decay_power", Converter::EnvPower, -4, 4),
        mapping("env_3_release_power", "env_3_release_power", Converter::EnvPower, -4, 4),
        mapping("env_3_delay", "env_3_delay", Converter::EnvTime, 0, 4),
        mapping("env_3_hold", "env_3_hold", Converter::EnvTime, 0, 4),
        // LFO 1
        mapping("lfo_1_frequency", "lfo_1_frequency", Converter::LfoFreq, -8, 8),
        mapping("lfo_1_phase", "lfo_1_phase", Converter::Identity, 0, 1),
        mapping("lfo_1_fade_time", "lfo_1_fade_time", Converter::Identity, 0, 1),
        mapping("lfo_1_delay_time", "lfo_1_delay_time", Converter::Identity, 0, 1),
        mapping("lfo_1_stereo", "lfo_1_stereo", Converter::Identity, 0, 1),
        mapping("lfo_1_tempo", "lfo_1_tempo", Converter::Tempo, 0, 12),
        mapping("lfo_1_sync_type", "lfo_1_sync_type", Converter::IntRange4, 0, 3),
        // LFO 2
        mapping("lfo_2_frequency", "lfo_2_frequency", Converter::LfoFreq, -8, 8),
        mapping("lfo_2_phase", "lfo_2_phase", Converter::Identity, 0, 1),
        mapping("lfo_2_fade_time", "lfo_2_fade_time", Converter::Identity, 0, 1),
        mapping("lfo_2_delay_time", "lfo_2_delay_time", Converter::Identity, 0, 1),
        mapping("lfo_2_stereo", "lfo_2_stereo", Converter::Identity, 0, 1),
        mapping("lfo_2_tempo", "lfo_2_tempo", Converter::Tempo, 0, 12),
        mapping("lfo_2_sync_type", "lfo_2_sync_type", Converter::IntRange4, 0, 3),
        // LFO 3
        mapping("lfo_3_frequency", "lfo_3_frequency", Converter::LfoFreq, -8, 8),
        mapping("lfo_3_phase", "lfo_3_phase", Converter::Identity, 0, 1),
        mapping("lfo_3_fade_time", "lfo_3_fade_time", Converter::Identity, 0, 1),
        mapping("lfo_3_delay_time", "lfo_3_delay_time", Converter::Identity, 0, 1),
        mapping("lfo_3_stereo", "lfo_3_stereo", Converter::Identity, 0, 1),
        mapping("lfo_3_tempo", "lfo_3_tempo", Converter::Tempo, 0, 12),
        mapping("lfo_3_sync_type", "lfo_3_sync_type", Converter::IntRange4, 0, 3),
        // Reverb
        mapping("reverb_dry_wet", "reverb_dry_wet", Converter::Identity, 0, 1),
        mapping("reverb_decay_time", "reverb_decay_time", Converter::Identity, 0, 1),
        mapping("reverb_size", "reverb_size", Converter::Identity, 0, 1),
        mapping("reverb_chorus_amount", "reverb_chorus_amount", Converter::Identity, 0, 1),
        mapping("reverb_chorus_frequency", "reverb_chorus_frequency", Converter::LfoFreq, -8, 8),
        mapping("reverb_delay", "reverb_delay", Converter::Identity, 0, 1),
        mapping("reverb_high_shelf_cutoff", "reverb_high_shelf_cutoff", Converter::MidiCutoff, 8, 136),
        mapping("reverb_high_shelf_gain", "reverb_high_shelf_gain", Converter::ShelfGain, -6, 6),
        mapping("reverb_low_shelf_cutoff", "reverb_low_shelf_cutoff", Converter::MidiCutoff, 8, 136),
        mapping("reverb_low_shelf_gain", "reverb_low_shelf_gain", Converter::ShelfGain, -6, 6),
        mapping("reverb_pre_high_cutoff", "reverb_pre_high_cutoff", Converter::MidiCutoff, 8, 136),
        mapping("reverb_pre_low_cutoff", "reverb_pre_low_cutoff", Converter::MidiCutoff, 8, 136),
        // Delay
        mapping("delay_dry_wet", "delay_dry_wet", Converter::Identity, 0, 1),
        mapping("delay_feedback", "delay_feedback", Converter::Identity, 0, 1),
        mapping("delay_frequency", "delay_frequency", Converter::DelayFreq, -6, 6),
        mapping("delay_filter_cutoff", "delay_filter_cutoff", Converter::MidiCutoff, 8, 136),
        mapping("delay_filter_spread", "delay_filter_spread", Converter::Identity, 0, 1),
        mapping("delay_style", "delay_style", Converter::IntRange4, 0, 3),
        mapping("delay_tempo", "delay_tempo", Converter::Tempo, 0, 12),
        // Chorus
        mapping("chorus_dry_wet", "chorus_dry_wet", Converter::Identity, 0, 1),
        mapping("chorus_feedback", "chorus_feedback", Converter::Identity, 0, 1),
        mapping("chorus_cutoff", "chorus_cutoff", Converter::MidiCutoff, 8, 136),
        mapping("chorus_frequency", "chorus_frequency", Converter::LfoFreq, -8, 8),
        mapping("chorus_mod_depth", "chorus_mod_depth", Converter::Identity, 0, 1),
        mapping("chorus_spread", "chorus_spread", Converter::Identity, 0, 1),
        mapping("chorus_voices", "chorus_voices", Converter::ChorusVoices, 1, 4),
        mapping("chorus_tempo", "chorus_tempo", Converter::Tempo, 0, 12),
        // Distortion
        mapping("distortion_drive", "distortion_drive", Converter::Identity, 0, 1),
        mapping("distortion_mix", "distortion_mix", Converter::Identity, 0, 1),
        mapping("distortion_type", "distortion_type", Converter::IntRange8, 0, 7),
        mapping("distortion_filter_cutoff", "distortion_filter_cutoff", Converter::MidiCutoff, 8, 136),
        mapping("distortion_filter_resonance", "distortion_filter_resonance", Converter::Identity, 0, 1),
        mapping("distortion_filter_blend", "distortion_filter_blend", Converter::FilterBlend, 0, 2),
        // Compressor
        mapping("compressor_attack", "compressor_attack", Converter::Identity, 0, 1),
        mapping("compressor_release", "compressor_release", Converter::Identity, 0, 1),
        mapping("compressor_mix", "compressor_mix", Converter::Identity, 0, 1),
        mapping("compressor_band_gain", "compressor_band_gain", Converter::CompressorGain, -6, 30),
        mapping("compressor_low_gain", "compressor_low_gain", Converter::CompressorGain, -6, 30),
        mapping("compressor_high_gain", "compressor_high_gain", Converter::CompressorGain, -6, 30),
        // EQ
        mapping("eq_band_cutoff", "eq_band_cutoff", Converter::MidiCutoff, 8, 136),
        mapping("eq_band_gain", "eq_band_gain", Converter::EqGain, -15, 15),
        mapping("eq_band_resonance", "eq_band_resonance", Converter::Identity, 0, 1),
        mapping("eq_high_cutoff", "eq_high_cutoff", Converter::MidiCutoff, 8, 136),
        mapping("eq_high_gain", "eq_high_gain", Converter::EqGain, -15, 15),
        mapping("eq_high_resonance", "eq_high_resonance", Converter::Identity, 0, 1),
        mapping("eq_low_cutoff", "eq_low_cutoff", Converter::MidiCutoff, 8, 136),
        mapping("eq_low_gain", "eq_low_gain", Converter::EqGain, -15, 15),
        mapping("eq_low_resonance", "eq_low_resonance", Converter::Identity, 0, 1),
        // Flanger
        mapping("flanger_center", "flanger_center", Converter::MidiCutoff, 8, 136),
        mapping("flanger_dry_wet", "flanger_dry_wet", Converter::Identity, 0, 1),
        mapping("flanger_feedback", "flanger_feedback", Converter::Identity, 0, 1),
        mapping("flanger_frequency", "flanger_frequency", Converter::LfoFreq, -8, 8),
        mapping("flanger_mod_depth", "flanger_mod_depth", Converter::Identity, 0, 1),
        mapping("flanger_phase_offset", "flanger_phase_offset", Converter::Identity, 0, 1),
        mapping("flanger_tempo", "flanger_tempo", Converter::Tempo, 0, 12),
        // Phaser
        mapping("phaser_center", "phaser_center", Converter::MidiCutoff, 8, 136),
        mapping("phaser_dry_wet", "phaser_dry_wet", Converter::Identity, 0, 1),
        mapping("phaser_feedback", "phaser_feedback", Converter::Identity, 0, 1),
        mapping("phaser_frequency", "phaser_frequency", Converter::LfoFreq, -8, 8),
        mapping("phaser_mod_depth", "phaser_mod_depth", Converter::PhaserModDepth, 0, 48),
        mapping("phaser_phase_offset", "phaser_phase_offset", Converter::Identity, 0, 1),
        mapping("phaser_tempo", "phaser_tempo", Converter::Tempo, 0, 12),
        // Sample
        mapping("sample_level", "sample_level", Converter::Identity, 0, 1),
        mapping("sample_pan", "sample_pan", Converter::Bipolar, -1, 1),
        mapping("sample_transpose", "sample_transpose", Converter::Semitones48, -48, 48),
        mapping("sample_tune", "sample_tune", Converter::Bipolar, -1, 1),
        // Voice / Global
        mapping("polyphony", "polyphony", Converter::Polyphony, 1, 32),
        mapping("portamento_time", "portamento_time", Converter::EnvTime, 0, 4),
        mapping("pitch_bend_range", "pitch_bend_range", Converter::Semitones48, -48, 48),
        mapping("velocity_track", "velocity_track", Converter::Identity, 0, 1),
        mapping("voice_amplitude", "voice_amplitude", Converter::Identity, 0, 1),
        mapping("legato", "legato", Converter::Identity, 0, 1),
        // Macro Controls
        mapping("macro_control_1", "macro_control_1", Converter::Identity, 0, 1),
        mapping("macro_control_2", "macro_control_2", Converter::Identity, 0, 1),
        mapping("macro_control_3", "macro_control_3", Converter::Identity, 0, 1),
        mapping("macro_control_4", "macro_control_4", Converter::Identity, 0, 1),
    ]
}


/// The first mapping of `t` whose Gemini name is `name`.
pub open spec fn first_mapping_named(t: Seq<ParamMapping>, name: Seq<char>) -> Option<
    ParamMapping,
>
    decreases t.len(),
{
    if t.len() == 0 {
        None
    } else if t[0].gemini_name@ == name {
        Some(t[0])
    } else {
        first_mapping_named(t.drop_first(), name)
    }
}

/// The mapping for the Gemini output name `name`, if the table has one.
pub open spec fn spec_find_mapping(name: Seq<char>) -> Option<ParamMapping> {
    first_mapping_named(param_table(), name)
}

/// Look up a parameter mapping by Gemini output name.
pub fn find_mapping(gemini_name: &str) -> (r: Option<ParamMapping>)
    ensures
        r == spec_find_mapping(gemini_name@),
{
    let table = param_mappings();
    let mut i: usize = 0;
    assert(table@.skip(0) =~= table@);
    while i < table.len()
        invariant
            i <= table@.len(),
            table@ == param_table(),
            first_mapping_named(table@.skip(i as int), gemini_name@) == spec_find_mapping(
                gemini_name@,
            ),
        decreases table@.len() - i,
    {
        proof {
            assert(table@.skip(i as int)[0] == table@[i as int]);
            assert(table@.skip(i as int).drop_first() =~= table@.skip(i + 1));
        }
        if str_equal(table[i].gemini_name, gemini_name) {
            return Some(table[i]);
        }
        i = i + 1;
    }
    proof {
        assert(table@.skip(i as int) =~= Seq::<ParamMapping>::empty());
    }
    None
}

/// Every mapping clamps to exactly the range onto which its conversion sends
/// the unit interval: `min` is the image of 0 and `max` the image of 1, and
/// the Vital key is the Gemini name.
pub proof fn lemma_table_bounds_match_conversions()
    ensures
        forall|i: int|
            0 <= i < param_table().len() ==> {
                let m = #[trigger] param_table()[i];
                &&& m.min == m.convert.spec_offset()
                &&& m.max == m.convert.spec_scale() + m.convert.spec_offset()
                &&& m.gemini_name == m.vital_key
            },
{
}


/// `first_mapping_named` finds the first entry with the name, and none
/// exactly when no entry has it.
proof fn lemma_first_mapping_named(t: Seq<ParamMapping>, name: Seq<char>)
    ensures
        first_mapping_named(t, name) is None <==> forall|i: int|
            0 <= i < t.len() ==> (#[trigger] t[i]).gemini_name@ != name,
        first_mapping_named(t, name) matches Some(m) ==> exists|i: int|
            0 <= i < t.len() && #[trigger] t[i] == m && m.gemini_name@ == name && forall|j: int|
                0 <= j < i ==> (#[trigger] t[j]).gemini_name@ != name,
    decreases t.len(),
{
    if t.len() > 0 {
        let rest = t.drop_first();
        lemma_first_mapping_named(rest, name);
        assert forall|i: int| 0 < i < t.len() implies t[i] == rest[i - 1] by {}
        if t[0].gemini_name@ != name {
            if first_mapping_named(rest, name) is None {
                assert forall|i: int| 0 <= i < t.len() implies (#[trigger] t[i]).gemini_name@
                    != name by {
                    if i > 0 {
                        assert(t[i] == rest[i - 1]);
                    }
                }
            } else {
                let m = first_mapping_named(rest, name)->0;
                let k = choose|k: int|
                    0 <= k < rest.len() && #[trigger] rest[k] == m && m.gemini_name@ == name
                        && forall|j: int| 0 <= j < k ==> (#[trigger] rest[j]).gemini_name@ != name;
                assert(t[k + 1] == m);
                assert forall|j: int| 0 <= j < k + 1 implies (#[trigger] t[j]).gemini_name@
                    != name by {
                    if j > 0 {
                        assert(t[j] == rest[j - 1]);
                    }
                }
                assert(rest[k] == t[k + 1]);
            }
        }
    }
}

/// The lookup finds the first table entry with the Gemini name, and none
/// exactly when no entry has it; an entry found sets the Vital key of the
/// same name, clamped to the range onto which its conversion sends the
/// unit interval.
pub proof fn law_find_mapping(name: Seq<char>)
    ensures
        spec_find_mapping(name) is None <==> forall|i: int|
            0 <= i < param_table().len() ==> (#[trigger] param_table()[i]).gemini_name@ != name,
        spec_find_mapping(name) matches Some(m) ==> {
            &&& exists|i: int|
                0 <= i < param_table().len() && #[trigger] param_table()[i] == m && forall|j: int|
                    0 <= j < i ==> (#[trigger] param_table()[j]).gemini_name@ != name
            &&& m.gemini_name@ == name
            &&& m.vital_key == m.gemini_name
            &&& m.min == m.convert.spec_offset()
            &&& m.max == m.convert.spec_scale() + m.convert.spec_offset()
        },
{
    lemma_first_mapping_named(param_table(), name);
    lemma_table_bounds_match_conversions();
}

/// The Gemini name ends in "_cutoff" or "_center": the cutoff of a filter
/// or the centre frequency of an effect.
pub open spec fn names_a_cutoff(name: Seq<char>) -> bool {
    has_suffix(name, "_cutoff"@) || has_suffix(name, "_center"@)
}

proof fn lemma_cutoff_suffix_chars(s: Seq<char>)
    ensures
        names_a_cutoff(s) ==> {
            let n = s.len() as int;
            &&& n >= 7
            &&& s[n - 7] == '_'
            &&& s[n - 6] == 'c'
            &&& (s[n - 5] == 'u' || s[n - 5] == 'e')
            &&& (s[n - 4] == 't' || s[n - 4] == 'n')
            &&& (s[n - 3] == 'o' || s[n - 3] == 't')
            &&& (s[n - 2] == 'f' || s[n - 2] == 'e')
            &&& (s[n - 1] == 'f' || s[n - 1] == 'r')
        },
{
    reveal_strlit("_cutoff");
    reveal_strlit("_center");
    let n = s.len() as int;
    if has_suffix(s, "_cutoff"@) {
        let t = s.skip(n - 7);
        assert(t == "_cutoff"@);
        assert(s[n - 7] == t[0] && t[0] == '_');
        assert(s[n - 6] == t[1] && t[1] == 'c');
        assert(s[n - 5] == t[2] && t[2] == 'u');
        assert(s[n - 4] == t[3] && t[3] == 't');
        assert(s[n - 3] == t[4] && t[4] == 'o');
        assert(s[n - 2] == t[5] && t[5] == 'f');
        assert(s[n - 1] == t[6] && t[6] == 'f');
    }
    if has_suffix(s, "_center"@) {
        let t = s.skip(n - 7);
        assert(t == "_center"@);
        assert(s[n - 7] == t[0] && t[0] == '_');
        assert(s[n - 6] == t[1] && t[1] == 'c');
        assert(s[n - 5] == t[2] && t[2] == 'e');
        assert(s[n - 4] == t[3] && t[3] == 'n');
        assert(s[n - 3] == t[4] && t[4] == 't');
        assert(s[n - 2] == t[5] && t[5] == 'e');
        assert(s[n - 1] == t[6] && t[6] == 'r');
    }
}

/// Every entry of the table whose Gemini name ends in "_cutoff" or
/// "_center" converts through the MIDI cutoff conversion and is clamped to
/// MIDI notes 8 to 136.
#[verifier::rlimit(100)]
pub proof fn law_table_cutoffs_are_midi_notes()
    ensures
        forall|i: int|
            0 <= i < param_table().len() && names_a_cutoff((#[trigger] param_table()[i]).gemini_name@)
                ==> param_table()[i].convert == Converter::MidiCutoff && param_table()[i].min == 8
                && param_table()[i].max == 136,
{
    reveal_strlit("osc_1_wave_frame");
    reveal_strlit("osc_1_level");
    reveal_strlit("osc_1_pan");
    reveal_strlit("osc_1_tune");
    reveal_strlit("osc_1_transpose");
    reveal_strlit("osc_1_unison_voices");
    reveal_strlit("osc_1_unison_detune");
    reveal_strlit("osc_1_unison_blend");
    reveal_strlit("osc_1_phase");
    reveal_strlit("osc_1_random_phase");
    reveal_strlit("osc_1_distortion_amount");
    reveal_strlit("osc_1_distortion_phase");
    reveal_strlit("osc_1_distortion_type");
    reveal_strlit("osc_1_frame_spread");
    reveal_strlit("osc_1_spectral_morph_amount");
    reveal_strlit("osc_1_spectral_morph_type");
    reveal_strlit("osc_1_stereo_spread");
    reveal_strlit("osc_1_detune_range");
    reveal_strlit("osc_2_wave_frame");
    reveal_strlit("osc_2_level");
    reveal_strlit("osc_2_pan");
    reveal_strlit("osc_2_tune");
    reveal_strlit("osc_2_transpose");
    reveal_strlit("osc_2_unison_voices");
    reveal_strlit("osc_2_unison_detune");
    reveal_strlit("osc_2_unison_blend");
    reveal_strlit("osc_2_phase");
    reveal_strlit("osc_2_random_phase");
    reveal_strlit("osc_2_distortion_amount");
    reveal_strlit("osc_2_distortion_phase");
    reveal_strlit("osc_2_distortion_type");
    reveal_strlit("osc_2_frame_spread");
    reveal_strlit("osc_2_spectral_morph_amount");
    reveal_strlit("osc_2_spectral_morph_type");
    reveal_strlit("osc_2_stereo_spread");
    reveal_strlit("osc_2_detune_range");
    reveal_strlit("osc_3_wave_frame");
    reveal_strlit("osc_3_level");
    reveal_strlit("osc_3_pan");
    reveal_strlit("osc_3_tune");
    reveal_strlit("osc_3_transpose");
    reveal_strlit("osc_3_unison_voices");
    reveal_strlit("osc_3_unison_detune");
    reveal_strlit("osc_3_unison_blend");
    reveal_strlit("osc_3_phase");
    reveal_strlit("osc_3_random_phase");
    reveal_strlit("osc_3_distortion_amount");
    reveal_strlit("osc_3_distortion_phase");
    reveal_strlit("osc_3_distortion_type");
    reveal_strlit("osc_3_frame_spread");
    reveal_strlit("osc_3_spectral_morph_amount");
    reveal_strlit("osc_3_spectral_morph_type");
    reveal_strlit("osc_3_stereo_spread");
    reveal_strlit("osc_3_detune_range");
    reveal_strlit("filter_1_cutoff");
    reveal_strlit("filter_1_resonance");
    reveal_strlit("filter_1_drive");
    reveal_strlit("filter_1_blend");
    reveal_strlit("filter_1_mix");
    reveal_strlit("filter_1_keytrack");
    reveal_strlit("filter_1_model");
    reveal_strlit("filter_1_style");
    reveal_strlit("filter_2_cutoff");
    reveal_strlit("filter_2_resonance");
    reveal_strlit("filter_2_drive");
    reveal_strlit("filter_2_blend");
    reveal_strlit("filter_2_mix");
    reveal_strlit("filter_2_keytrack");
    reveal_strlit("filter_2_model");
    reveal_strlit("filter_2_style");
    reveal_strlit("env_1_attack");
    reveal_strlit("env_1_decay");
    reveal_strlit("env_1_sustain");
    reveal_strlit("env_1_release");
    reveal_strlit("env_1_attack_power");
    reveal_strlit("env_1_decay_power");
    reveal_strlit("env_1_release_power");
    reveal_strlit("env_1_delay");
    reveal_strlit("env_1_hold");
    reveal_strlit("env_2_attack");
    reveal_strlit("env_2_decay");
    reveal_strlit("env_2_sustain");
    reveal_strlit("env_2_release");
    reveal_strlit("env_2_attack_power");
    reveal_strlit("env_2_decay_power");
    reveal_strlit("env_2_release_power");
    reveal_strlit("env_2_delay");
    reveal_strlit("env_2_hold");
    reveal_strlit("env_3_attack");
    reveal_strlit("env_3_decay");
    reveal_strlit("env_3_sustain");
    reveal_strlit("env_3_release");
    reveal_strlit("env_3_attack_power");
    reveal_strlit("env_3_decay_power");
    reveal_strlit("env_3_release_power");
    reveal_strlit("env_3_delay");
    reveal_strlit("env_3_hold");
    reveal_strlit("lfo_1_frequency");
    reveal_strlit("lfo_1_phase");
    reveal_strlit("lfo_1_fade_time");
    reveal_strlit("lfo_1_delay_time");
    reveal_strlit("lfo_1_stereo");
    reveal_strlit("lfo_1_tempo");
    reveal_strlit("lfo_1_sync_type");
    reveal_strlit("lfo_2_frequency");
    reveal_strlit("lfo_2_phase");
    reveal_strlit("lfo_2_fade_time");
    reveal_strlit("lfo_2_delay_time");
    reveal_strlit("lfo_2_stereo");
    reveal_strlit("lfo_2_tempo");
    reveal_strlit("lfo_2_sync_type");
    reveal_strlit("lfo_3_frequency");
    reveal_strlit("lfo_3_phase");
    reveal_strlit("lfo_3_fade_time");
    reveal_strlit("lfo_3_delay_time");
    reveal_strlit("lfo_3_stereo");
    reveal_strlit("lfo_3_tempo");
    reveal_strlit("lfo_3_sync_type");
    reveal_strlit("reverb_dry_wet");
    reveal_strlit("reverb_decay_time");
    reveal_strlit("reverb_size");
    reveal_strlit("reverb_chorus_amount");
    reveal_strlit("reverb_chorus_frequency");
    reveal_strlit("reverb_delay");
    reveal_strlit("reverb_high_shelf_cutoff");
    reveal_strlit("reverb_high_shelf_gain");
    reveal_strlit("reverb_low_shelf_cutoff");
    reveal_strlit("reverb_low_shelf_gain");
    reveal_strlit("reverb_pre_high_cutoff");
    reveal_strlit("reverb_pre_low_cutoff");
    reveal_strlit("delay_dry_wet");
    reveal_strlit("delay_feedback");
    reveal_strlit("delay_frequency");
    reveal_strlit("delay_filter_cutoff");
    reveal_strlit("delay_filter_spread");
    reveal_strlit("delay_style");
    reveal_strlit("delay_tempo");
    reveal_strlit("chorus_dry_wet");
    reveal_strlit("chorus_feedback");
    reveal_strlit("chorus_cutoff");
    reveal_strlit("chorus_frequency");
    reveal_strlit("chorus_mod_depth");
    reveal_strlit("chorus_spread");
    reveal_strlit("chorus_voices");
    reveal_strlit("chorus_tempo");
    reveal_strlit("distortion_drive");
    reveal_strlit("distortion_mix");
    reveal_strlit("distortion_type");
    reveal_strlit("distortion_filter_cutoff");
    reveal_strlit("distortion_filter_resonance");
    reveal_strlit("distortion_filter_blend");
    reveal_strlit("compressor_attack");
    reveal_strlit("compressor_release");
    reveal_strlit("compressor_mix");
    reveal_strlit("compressor_band_gain");
    reveal_strlit("compressor_low_gain");
    reveal_strlit("compressor_high_gain");
    reveal_strlit("eq_band_cutoff");
    reveal_strlit("eq_band_gain");
    reveal_strlit("eq_band_resonance");
    reveal_strlit("eq_high_cutoff");
    reveal_strlit("eq_high_gain");
    reveal_strlit("eq_high_resonance");
    reveal_strlit("eq_low_cutoff");
    reveal_strlit("eq_low_gain");
    reveal_strlit("eq_low_resonance");
    reveal_strlit("flanger_center");
    reveal_strlit("flanger_dry_wet");
    reveal_strlit("flanger_feedback");
    reveal_strlit("flanger_frequency");
    reveal_strlit("flanger_mod_depth");
    reveal_strlit("flanger_phase_offset");
    reveal_strlit("flanger_tempo");
    reveal_strlit("phaser_center");
    reveal_strlit("phaser_dry_wet");
    reveal_strlit("phaser_feedback");
    reveal_strlit("phaser_frequency");
    reveal_strlit("phaser_mod_depth");
    reveal_strlit("phaser_phase_offset");
    reveal_strlit("phaser_tempo");
    reveal_strlit("sample_level");
    reveal_strlit("sample_pan");
    reveal_strlit("sample_transpose");
    reveal_strlit("sample_tune");
    reveal_strlit("polyphony");
    reveal_strlit("portamento_time");
    reveal_strlit("pitch_bend_range");
    reveal_strlit("velocity_track");
    reveal_strlit("voice_amplitude");
    reveal_strlit("legato");
    reveal_strlit("macro_control_1");
    reveal_strlit("macro_control_2");
    reveal_strlit("macro_control_3");
    reveal_strlit("macro_control_4");
    assert forall|i: int|
        0 <= i < param_table().len() && names_a_cutoff(
            (#[trigger] param_table()[i]).gemini_name@,
        ) implies param_table()[i].convert == Converter::MidiCutoff && param_table()[i].min == 8
        && param_table()[i].max == 136 by {
        lemma_cutoff_suffix_chars(param_table()[i].gemini_name@);
    }
}

/// The conversion and bounds that the table's naming convention gives a
/// Gemini name by its last words: pans and tunes are bipolar, transposes
/// span four octaves either way, detunes and detune ranges 0 to 10, unison
/// voices 1 to 16, envelope powers -4 to 4, decays and holds are envelope
/// times, tempos are tempo-synced rates, shelf gains -6 to 6 dB, filter and
/// delay styles and LFO sync types take four values, filter models six and
/// oscillator distortion and spectral morph types twelve, and resonances,
/// drives, feedbacks, wet and mix amounts, sustains, phases, spreads, wave
/// frames, amounts, keytracks, stereo and offsets stay in the unit
/// interval.
pub open spec fn convention_for(name: Seq<char>) -> Option<(Converter, int, int)> {
    if has_suffix(name, "_pan"@) || has_suffix(name, "_tune"@) {
        Some((Converter::Bipolar, -1, 1))
    } else if has_suffix(name, "_transpose"@) {
        Some((Converter::Semitones48, -48, 48))
    } else if has_suffix(name, "_detune"@) {
        Some((Converter::UnisonDetune, 0, 10))
    } else if has_suffix(name, "_unison_voices"@) {
        Some((Converter::UnisonVoices, 1, 16))
    } else if has_suffix(name, "_detune_range"@) {
        Some((Converter::DetuneRange, 0, 10))
    } else if has_suffix(name, "_power"@) {
        Some((Converter::EnvPower, -4, 4))
    } else if has_suffix(name, "_decay"@) || has_suffix(name, "_hold"@) {
        Some((Converter::EnvTime, 0, 4))
    } else if has_suffix(name, "_tempo"@) {
        Some((Converter::Tempo, 0, 12))
    } else if has_suffix(name, "_shelf_gain"@) {
        Some((Converter::ShelfGain, -6, 6))
    } else if has_suffix(name, "_style"@) || has_suffix(name, "_sync_type"@) {
        Some((Converter::IntRange4, 0, 3))
    } else if has_suffix(name, "_model"@) {
        Some((Converter::IntRange6, 0, 5))
    } else if has_suffix(name, "_distortion_type"@) || has_suffix(name, "_morph_type"@) {
        Some((Converter::IntRange12, 0, 11))
    } else if {
        ||| has_suffix(name, "_resonance"@)
        ||| has_suffix(name, "_drive"@)
        ||| has_suffix(name, "_feedback"@)
        ||| has_suffix(name, "_wet"@)
        ||| has_suffix(name, "_mix"@)
        ||| has_suffix(name, "_sustain"@)
        ||| has_suffix(name, "_phase"@)
        ||| has_suffix(name, "_spread"@)
        ||| has_suffix(name, "_frame"@)
        ||| has_suffix(name, "_amount"@)
        ||| has_suffix(name, "_keytrack"@)
        ||| has_suffix(name, "_stereo"@)
        ||| has_suffix(name, "_offset"@)
    } {
        Some((Converter::Identity, 0, 1))
    } else {
        None
    }
}

proof fn lemma_suffix_char(s: Seq<char>, p: Seq<char>, k: int)
    ensures
        has_suffix(s, p) && 0 <= k < p.len() ==> s[s.len() - p.len() + k] == p[k],
{
    if has_suffix(s, p) && 0 <= k < p.len() {
        assert(s.skip(s.len() - p.len())[k] == s[s.len() - p.len() + k]);
    }
}

/// Every entry of the table whose Gemini name ends in words of the naming
/// convention converts and is clamped as the convention says.
#[verifier::rlimit(100)]
pub proof fn law_table_follows_naming_convention()
    ensures
        forall|i: int|
            0 <= i < param_table().len() && convention_for(
                (#[trigger] param_table()[i]).gemini_name@,
            ) is Some ==> {
                let (c, lo, hi) = convention_for(param_table()[i].gemini_name@)->0;
                &&& param_table()[i].convert == c
                &&& param_table()[i].min == lo
                &&& param_table()[i].max == hi
            },
{
    reveal_strlit("_pan");
    reveal_strlit("_tune");
    reveal_strlit("_transpose");
    reveal_strlit("_detune");
    reveal_strlit("_unison_voices");
    reveal_strlit("_detune_range");
    reveal_strlit("_power");
    reveal_strlit("_decay");
    reveal_strlit("_hold");
    reveal_strlit("_tempo");
    reveal_strlit("_shelf_gain");
    reveal_strlit("_style");
    reveal_strlit("_sync_type");
    reveal_strlit("_model");
    reveal_strlit("_distortion_type");
    reveal_strlit("_morph_type");
    reveal_strlit("_resonance");
    reveal_strlit("_drive");
    reveal_strlit("_feedback");
    reveal_strlit("_wet");
    reveal_strlit("_mix");
    reveal_strlit("_sustain");
    reveal_strlit("_phase");
    reveal_strlit("_spread");
    reveal_strlit("_frame");
    reveal_strlit("_amount");
    reveal_strlit("_keytrack");
    reveal_strlit("_stereo");
    reveal_strlit("_offset");
    reveal_strlit("osc_1_wave_frame");
    reveal_strlit("osc_1_level");
    reveal_strlit("osc_1_pan");
    reveal_strlit("osc_1_tune");
    reveal_strlit("osc_1_transpose");
    reveal_strlit("osc_1_unison_voices");
    reveal_strlit("osc_1_unison_detune");
    reveal_strlit("osc_1_unison_blend");
    reveal_strlit("osc_1_phase");
    reveal_strlit("osc_1_random_phase");
    reveal_strlit("osc_1_distortion_amount");
    reveal_strlit("osc_1_distortion_phase");
    reveal_strlit("osc_1_distortion_type");
    reveal_strlit("osc_1_frame_spread");
    reveal_strlit("osc_1_spectral_morph_amount");
    reveal_strlit("osc_1_spectral_morph_type");
    reveal_strlit("osc_1_stereo_spread");
    reveal_strlit("osc_1_detune_range");
    reveal_strlit("osc_2_wave_frame");
    reveal_strlit("osc_2_level");
    reveal_strlit("osc_2_pan");
    reveal_strlit("osc_2_tune");
    reveal_strlit("osc_2_transpose");
    reveal_strlit("osc_2_unison_voices");
    reveal_strlit("osc_2_unison_detune");
    reveal_strlit("osc_2_unison_blend");
    reveal_strlit("osc_2_phase");
    reveal_strlit("osc_2_random_phase");
    reveal_strlit("osc_2_distortion_amount");
    reveal_strlit("osc_2_distortion_phase");
    reveal_strlit("osc_2_distortion_type");
    reveal_strlit("osc_2_frame_spread");
    reveal_strlit("osc_2_spectral_morph_amount");
    reveal_strlit("osc_2_spectral_morph_type");
    reveal_strlit("osc_2_stereo_spread");
    reveal_strlit("osc_2_detune_range");
    reveal_strlit("osc_3_wave_frame");
    reveal_strlit("osc_3_level");
    reveal_strlit("osc_3_pan");
    reveal_strlit("osc_3_tune");
    reveal_strlit("osc_3_transpose");
    reveal_strlit("osc_3_unison_voices");
    reveal_strlit("osc_3_unison_detune");
    reveal_strlit("osc_3_unison_blend");
    reveal_strlit("osc_3_phase");
    reveal_strlit("osc_3_random_phase");
    reveal_strlit("osc_3_distortion_amount");
    reveal_strlit("osc_3_distortion_phase");
    reveal_strlit("osc_3_distortion_type");
    reveal_strlit("osc_3_frame_spread");
    reveal_strlit("osc_3_spectral_morph_amount");
    reveal_strlit("osc_3_spectral_morph_type");
    reveal_strlit("osc_3_stereo_spread");
    reveal_strlit("osc_3_detune_range");
    reveal_strlit("filter_1_cutoff");
    reveal_strlit("filter_1_resonance");
    reveal_strlit("filter_1_drive");
    reveal_strlit("filter_1_blend");
    reveal_strlit("filter_1_mix");
    reveal_strlit("filter_1_keytrack");
    reveal_strlit("filter_1_model");
    reveal_strlit("filter_1_style");
    reveal_strlit("filter_2_cutoff");
    reveal_strlit("filter_2_resonance");
    reveal_strlit("filter_2_drive");
    reveal_strlit("filter_2_blend");
    reveal_strlit("filter_2_mix");
    reveal_strlit("filter_2_keytrack");
    reveal_strlit("filter_2_model");
    reveal_strlit("filter_2_style");
    reveal_strlit("env_1_attack");
    reveal_strlit("env_1_decay");
    reveal_strlit("env_1_sustain");
    reveal_strlit("env_1_release");
    reveal_strlit("env_1_attack_power");
    reveal_strlit("env_1_decay_power");
    reveal_strlit("env_1_release_power");
    reveal_strlit("env_1_delay");
    reveal_strlit("env_1_hold");
    reveal_strlit("env_2_attack");
    reveal_strlit("env_2_decay");
    reveal_strlit("env_2_sustain");
    reveal_strlit("env_2_release");
    reveal_strlit("env_2_attack_power");
    reveal_strlit("env_2_decay_power");
    reveal_strlit("env_2_release_power");
    reveal_strlit("env_2_delay");
    reveal_strlit("env_2_hold");
    reveal_strlit("env_3_attack");
    reveal_strlit("env_3_decay");
    reveal_strlit("env_3_sustain");
    reveal_strlit("env_3_release");
    reveal_strlit("env_3_attack_power");
    reveal_strlit("env_3_decay_power");
    reveal_strlit("env_3_release_power");
    reveal_strlit("env_3_delay");
    reveal_strlit("env_3_hold");
    reveal_strlit("lfo_1_frequency");
    reveal_strlit("lfo_1_phase");
    reveal_strlit("lfo_1_fade_time");
    reveal_strlit("lfo_1_delay_time");
    reveal_strlit("lfo_1_stereo");
    reveal_strlit("lfo_1_tempo");
    reveal_strlit("lfo_1_sync_type");
    reveal_strlit("lfo_2_frequency");
    reveal_strlit("lfo_2_phase");
    reveal_strlit("lfo_2_fade_time");
    reveal_strlit("lfo_2_delay_time");
    reveal_strlit("lfo_2_stereo");
    reveal_strlit("lfo_2_tempo");
    reveal_strlit("lfo_2_sync_type");
    reveal_strlit("lfo_3_frequency");
    reveal_strlit("lfo_3_phase");
    reveal_strlit("lfo_3_fade_time");
    reveal_strlit("lfo_3_delay_time");
    reveal_strlit("lfo_3_stereo");
    reveal_strlit("lfo_3_tempo");
    reveal_strlit("lfo_3_sync_type");
    reveal_strlit("reverb_dry_wet");
    reveal_strlit("reverb_decay_time");
    reveal_strlit("reverb_size");
    reveal_strlit("reverb_chorus_amount");
    reveal_strlit("reverb_chorus_frequency");
    reveal_strlit("reverb_delay");
    reveal_strlit("reverb_high_shelf_cutoff");
    reveal_strlit("reverb_high_shelf_gain");
    reveal_strlit("reverb_low_shelf_cutoff");
    reveal_strlit("reverb_low_shelf_gain");
    reveal_strlit("reverb_pre_high_cutoff");
    reveal_strlit("reverb_pre_low_cutoff");
    reveal_strlit("delay_dry_wet");
    reveal_strlit("delay_feedback");
    reveal_strlit("delay_frequency");
    reveal_strlit("delay_filter_cutoff");
    reveal_strlit("delay_filter_spread");
    reveal_strlit("delay_style");
    reveal_strlit("delay_tempo");
    reveal_strlit("chorus_dry_wet");
    reveal_strlit("chorus_feedback");
    reveal_strlit("chorus_cutoff");
    reveal_strlit("chorus_frequency");
    reveal_strlit("chorus_mod_depth");
    reveal_strlit("chorus_spread");
    reveal_strlit("chorus_voices");
    reveal_strlit("chorus_tempo");
    reveal_strlit("distortion_drive");
    reveal_strlit("distortion_mix");
    reveal_strlit("distortion_type");
    reveal_strlit("distortion_filter_cutoff");
    reveal_strlit("distortion_filter_resonance");
    reveal_strlit("distortion_filter_blend");
    reveal_strlit("compressor_attack");
    reveal_strlit("compressor_release");
    reveal_strlit("compressor_mix");
    reveal_strlit("compressor_band_gain");
    reveal_strlit("compressor_low_gain");
    reveal_strlit("compressor_high_gain");
    reveal_strlit("eq_band_cutoff");
    reveal_strlit("eq_band_gain");
    reveal_strlit("eq_band_resonance");
    reveal_strlit("eq_high_cutoff");
    reveal_strlit("eq_high_gain");
    reveal_strlit("eq_high_resonance");
    reveal_strlit("eq_low_cutoff");
    reveal_strlit("eq_low_gain");
    reveal_strlit("eq_low_resonance");
    reveal_strlit("flanger_center");
    reveal_strlit("flanger_dry_wet");
    reveal_strlit("flanger_feedback");
    reveal_strlit("flanger_frequency");
    reveal_strlit("flanger_mod_depth");
    reveal_strlit("flanger_phase_offset");
    reveal_strlit("flanger_tempo");
    reveal_strlit("phaser_center");
    reveal_strlit("phaser_dry_wet");
    reveal_strlit("phaser_feedback");
    reveal_strlit("phaser_frequency");
    reveal_strlit("phaser_mod_depth");
    reveal_strlit("phaser_phase_offset");
    reveal_strlit("phaser_tempo");
    reveal_strlit("sample_level");
    reveal_strlit("sample_pan");
    reveal_strlit("sample_transpose");
    reveal_strlit("sample_tune");
    reveal_strlit("polyphony");
    reveal_strlit("portamento_time");
    reveal_strlit("pitch_bend_range");
    reveal_strlit("velocity_track");
    reveal_strlit("voice_amplitude");
    reveal_strlit("legato");
    reveal_strlit("macro_control_1");
    reveal_strlit("macro_control_2");
    reveal_strlit("macro_control_3");
    reveal_strlit("macro_control_4");
    assert forall|i: int|
        0 <= i < param_table().len() && convention_for(
            (#[trigger] param_table()[i]).gemini_name@,
        ) is Some implies {
            let (c, lo, hi) = convention_for(param_table()[i].gemini_name@)->0;
            &&& param_table()[i].convert == c
            &&& param_table()[i].min == lo
            &&& param_table()[i].max == hi
        } by {
        let name = param_table()[i].gemini_name@;
        lemma_suffix_char(name, "_pan"@, 0);
        lemma_suffix_char(name, "_pan"@, 1);
        lemma_suffix_char(name, "_pan"@, 2);
        lemma_suffix_char(name, "_pan"@, 3);
        lemma_suffix_char(name, "_tune"@, 0);
        lemma_suffix_char(name, "_tune"@, 1);
        lemma_suffix_char(name, "_tune"@, 2);
        lemma_suffix_char(name, "_tune"@, 3);
        lemma_suffix_char(name, "_tune"@, 4);
        lemma_suffix_char(name, "_transpose"@, 0);
        lemma_suffix_char(name, "_transpose"@, 1);
        lemma_suffix_char(name, "_transpose"@, 2);
        lemma_suffix_char(name, "_transpose"@, 3);
        lemma_suffix_char(name, "_transpose"@, 4);
        lemma_suffix_char(name, "_transpose"@, 5);
        lemma_suffix_char(name, "_transpose"@, 6);
        lemma_suffix_char(name, "_transpose"@, 7);
        lemma_suffix_char(name, "_transpose"@, 8);
        lemma_suffix_char(name, "_transpose"@, 9);
        lemma_suffix_char(name, "_detune"@, 0);
        lemma_suffix_char(name, "_detune"@, 1);
        lemma_suffix_char(name, "_detune"@, 2);
        lemma_suffix_char(name, "_detune"@, 3);
        lemma_suffix_char(name, "_detune"@, 4);
        lemma_suffix_char(name, "_detune"@, 5);
        lemma_suffix_char(name, "_detune"@, 6);
        lemma_suffix_char(name, "_unison_voices"@, 0);
        lemma_suffix_char(name, "_unison_voices"@, 1);
        lemma_suffix_char(name, "_unison_voices"@, 2);
        lemma_suffix_char(name, "_unison_voices"@, 3);
        lemma_suffix_char(name, "_unison_voices"@, 4);
        lemma_suffix_char(name, "_unison_voices"@, 5);
        lemma_suffix_char(name, "_unison_voices"@, 6);
        lemma_suffix_char(name, "_unison_voices"@, 7);
        lemma_suffix_char(name, "_unison_voices"@, 8);
        lemma_suffix_char(name, "_unison_voices"@, 9);
        lemma_suffix_char(name, "_unison_voices"@, 10);
        lemma_suffix_char(name, "_unison_voices"@, 11);
        lemma_suffix_char(name, "_unison_voices"@, 12);
        lemma_suffix_char(name, "_unison_voices"@, 13);
        lemma_suffix_char(name, "_detune_range"@, 0);
        lemma_suffix_char(name, "_detune_range"@, 1);
        lemma_suffix_char(name, "_detune_range"@, 2);
        lemma_suffix_char(name, "_detune_range"@, 3);
        lemma_suffix_char(name, "_detune_range"@, 4);
        lemma_suffix_char(name, "_detune_range"@, 5);
        lemma_suffix_char(name, "_detune_range"@, 6);
        lemma_suffix_char(name, "_detune_range"@, 7);
        lemma_suffix_char(name, "_detune_range"@, 8);
        lemma_suffix_char(name, "_detune_range"@, 9);
        lemma_suffix_char(name, "_detune_range"@, 10);
        lemma_suffix_char(name, "_detune_range"@, 11);
        lemma_suffix_char(name, "_detune_range"@, 12);
        lemma_suffix_char(name, "_power"@, 0);
        lemma_suffix_char(name, "_power"@, 1);
        lemma_suffix_char(name, "_power"@, 2);
        lemma_suffix_char(name, "_power"@, 3);
        lemma_suffix_char(name, "_power"@, 4);
        lemma_suffix_char(name, "_power"@, 5);
        lemma_suffix_char(name, "_decay"@, 0);
        lemma_suffix_char(name, "_decay"@, 1);
        lemma_suffix_char(name, "_decay"@, 2);
        lemma_suffix_char(name, "_decay"@, 3);
        lemma_suffix_char(name, "_decay"@, 4);
        lemma_suffix_char(name, "_decay"@, 5);
        lemma_suffix_char(name, "_hold"@, 0);
        lemma_suffix_char(name, "_hold"@, 1);
        lemma_suffix_char(name, "_hold"@, 2);
        lemma_suffix_char(name, "_hold"@, 3);
        lemma_suffix_char(name, "_hold"@, 4);
        lemma_suffix_char(name, "_tempo"@, 0);
        lemma_suffix_char(name, "_tempo"@, 1);
        lemma_suffix_char(name, "_tempo"@, 2);
        lemma_suffix_char(name, "_tempo"@, 3);
        lemma_suffix_char(name, "_tempo"@, 4);
        lemma_suffix_char(name, "_tempo"@, 5);
        lemma_suffix_char(name, "_shelf_gain"@, 0);
        lemma_suffix_char(name, "_shelf_gain"@, 1);
        lemma_suffix_char(name, "_shelf_gain"@, 2);
        lemma_suffix_char(name, "_shelf_gain"@, 3);
        lemma_suffix_char(name, "_shelf_gain"@, 4);
        lemma_suffix_char(name, "_shelf_gain"@, 5);
        lemma_suffix_char(name, "_shelf_gain"@, 6);
        lemma_suffix_char(name, "_shelf_gain"@, 7);
        lemma_suffix_char(name, "_shelf_gain"@, 8);
        lemma_suffix_char(name, "_shelf_gain"@, 9);
        lemma_suffix_char(name, "_shelf_gain"@, 10);
        lemma_suffix_char(name, "_style"@, 0);
        lemma_suffix_char(name, "_style"@, 1);
        lemma_suffix_char(name, "_style"@, 2);
        lemma_suffix_char(name, "_style"@, 3);
        lemma_suffix_char(name, "_style"@, 4);
        lemma_suffix_char(name, "_style"@, 5);
        lemma_suffix_char(name, "_sync_type"@, 0);
        lemma_suffix_char(name, "_sync_type"@, 1);
        lemma_suffix_char(name, "_sync_type"@, 2);
        lemma_suffix_char(name, "_sync_type"@, 3);
        lemma_suffix_char(name, "_sync_type"@, 4);
        lemma_suffix_char(name, "_sync_type"@, 5);
        lemma_suffix_char(name, "_sync_type"@, 6);
        lemma_suffix_char(name, "_sync_type"@, 7);
        lemma_suffix_char(name, "_sync_type"@, 8);
        lemma_suffix_char(name, "_sync_type"@, 9);
        lemma_suffix_char(name, "_model"@, 0);
        lemma_suffix_char(name, "_model"@, 1);
        lemma_suffix_char(name, "_model"@, 2);
        lemma_suffix_char(name, "_model"@, 3);
        lemma_suffix_char(name, "_model"@, 4);
        lemma_suffix_char(name, "_model"@, 5);
        lemma_suffix_char(name, "_distortion_type"@, 0);
        lemma_suffix_char(name, "_distortion_type"@, 1);
        lemma_suffix_char(name, "_distortion_type"@, 2);
        lemma_suffix_char(name, "_distortion_type"@, 3);
        lemma_suffix_char(name, "_distortion_type"@, 4);
        lemma_suffix_char(name, "_distortion_type"@, 5);
        lemma_suffix_char(name, "_distortion_type"@, 6);
        lemma_suffix_char(name, "_distortion_type"@, 7);
        lemma_suffix_char(name, "_distortion_type"@, 8);
        lemma_suffix_char(name, "_distortion_type"@, 9);
        lemma_suffix_char(name, "_distortion_type"@, 10);
        lemma_suffix_char(name, "_distortion_type"@, 11);
        lemma_suffix_char(name, "_distortion_type"@, 12);
        lemma_suffix_char(name, "_distortion_type"@, 13);
        lemma_suffix_char(name, "_distortion_type"@, 14);
        lemma_suffix_char(name, "_distortion_type"@, 15);
        lemma_suffix_char(name, "_morph_type"@, 0);
        lemma_suffix_char(name, "_morph_type"@, 1);
        lemma_suffix_char(name, "_morph_type"@, 2);
        lemma_suffix_char(name, "_morph_type"@, 3);
        lemma_suffix_char(name, "_morph_type"@, 4);
        lemma_suffix_char(name, "_morph_type"@, 5);
        lemma_suffix_char(name, "_morph_type"@, 6);
        lemma_suffix_char(name, "_morph_type"@, 7);
        lemma_suffix_char(name, "_morph_type"@, 8);
        lemma_suffix_char(name, "_morph_type"@, 9);
        lemma_suffix_char(name, "_morph_type"@, 10);
        lemma_suffix_char(name, "_resonance"@, 0);
        lemma_suffix_char(name, "_resonance"@, 1);
        lemma_suffix_char(name, "_resonance"@, 2);
        lemma_suffix_char(name, "_resonance"@, 3);
        lemma_suffix_char(name, "_resonance"@, 4);
        lemma_suffix_char(name, "_resonance"@, 5);
        lemma_suffix_char(name, "_resonance"@, 6);
        lemma_suffix_char(name, "_resonance"@, 7);
        lemma_suffix_char(name, "_resonance"@, 8);
        lemma_suffix_char(name, "_resonance"@, 9);
        lemma_suffix_char(name, "_drive"@, 0);
        lemma_suffix_char(name, "_drive"@, 1);
        lemma_suffix_char(name, "_drive"@, 2);
        lemma_suffix_char(name, "_drive"@, 3);
        lemma_suffix_char(name, "_drive"@, 4);
        lemma_suffix_char(name, "_drive"@, 5);
        lemma_suffix_char(name, "_feedback"@, 0);
        lemma_suffix_char(name, "_feedback"@, 1);
        lemma_suffix_char(name, "_feedback"@, 2);
        lemma_suffix_char(name, "_feedback"@, 3);
        lemma_suffix_char(name, "_feedback"@, 4);
        lemma_suffix_char(name, "_feedback"@, 5);
        lemma_suffix_char(name, "_feedback"@, 6);
        lemma_suffix_char(name, "_feedback"@, 7);
        lemma_suffix_char(name, "_feedback"@, 8);
        lemma_suffix_char(name, "_wet"@, 0);
        lemma_suffix_char(name, "_wet"@, 1);
        lemma_suffix_char(name, "_wet"@, 2);
        lemma_suffix_char(name, "_wet"@, 3);
        lemma_suffix_char(name, "_mix"@, 0);
        lemma_suffix_char(name, "_mix"@, 1);
        lemma_suffix_char(name, "_mix"@, 2);
        lemma_suffix_char(name, "_mix"@, 3);
        lemma_suffix_char(name, "_sustain"@, 0);
        lemma_suffix_char(name, "_sustain"@, 1);
        lemma_suffix_char(name, "_sustain"@, 2);
        lemma_suffix_char(name, "_sustain"@, 3);
        lemma_suffix_char(name, "_sustain"@, 4);
        lemma_suffix_char(name, "_sustain"@, 5);
        lemma_suffix_char(name, "_sustain"@, 6);
        lemma_suffix_char(name, "_sustain"@, 7);
        lemma_suffix_char(name, "_phase"@, 0);
        lemma_suffix_char(name, "_phase"@, 1);
        lemma_suffix_char(name, "_phase"@, 2);
        lemma_suffix_char(name, "_phase"@, 3);
        lemma_suffix_char(name, "_phase"@, 4);
        lemma_suffix_char(name, "_phase"@, 5);
        lemma_suffix_char(name, "_spread"@, 0);
        lemma_suffix_char(name, "_spread"@, 1);
        lemma_suffix_char(name, "_spread"@, 2);
        lemma_suffix_char(name, "_spread"@, 3);
        lemma_suffix_char(name, "_spread"@, 4);
        lemma_suffix_char(name, "_spread"@, 5);
        lemma_suffix_char(name, "_spread"@, 6);
        lemma_suffix_char(name, "_frame"@, 0);
        lemma_suffix_char(name, "_frame"@, 1);
        lemma_suffix_char(name, "_frame"@, 2);
        lemma_suffix_char(name, "_frame"@, 3);
        lemma_suffix_char(name, "_frame"@, 4);
        lemma_suffix_char(name, "_frame"@, 5);
        lemma_suffix_char(name, "_amount"@, 0);
        lemma_suffix_char(name, "_amount"@, 1);
        lemma_suffix_char(name, "_amount"@, 2);
        lemma_suffix_char(name, "_amount"@, 3);
        lemma_suffix_char(name, "_amount"@, 4);
        lemma_suffix_char(name, "_amount"@, 5);
        lemma_suffix_char(name, "_amount"@, 6);
        lemma_suffix_char(name, "_keytrack"@, 0);
        lemma_suffix_char(name, "_keytrack"@, 1);
        lemma_suffix_char(name, "_keytrack"@, 2);
        lemma_suffix_char(name, "_keytrack"@, 3);
        lemma_suffix_char(name, "_keytrack"@, 4);
        lemma_suffix_char(name, "_keytrack"@, 5);
        lemma_suffix_char(name, "_keytrack"@, 6);
        lemma_suffix_char(name, "_keytrack"@, 7);
        lemma_suffix_char(name, "_keytrack"@, 8);
        lemma_suffix_char(name, "_stereo"@, 0);
        lemma_suffix_char(name, "_stereo"@, 1);
        lemma_suffix_char(name, "_stereo"@, 2);
        lemma_suffix_char(name, "_stereo"@, 3);
        lemma_suffix_char(name, "_stereo"@, 4);
        lemma_suffix_char(name, "_stereo"@, 5);
        lemma_suffix_char(name, "_stereo"@, 6);
        lemma_suffix_char(name, "_offset"@, 0);
        lemma_suffix_char(name, "_offset"@, 1);
        lemma_suffix_char(name, "_offset"@, 2);
        lemma_suffix_char(name, "_offset"@, 3);
        lemma_suffix_char(name, "_offset"@, 4);
        lemma_suffix_char(name, "_offset"@, 5);
        lemma_suffix_char(name, "_offset"@, 6);
    }
}

/// A parameter that names a cutoff or a centre frequency, once found,
/// converts through the MIDI cutoff conversion onto MIDI notes 8 to 136;
/// the cutoffs of filter 1 and filter 2 are found and convert so.
pub proof fn law_cutoffs_are_midi_notes(name: Seq<char>)
    ensures
        names_a_cutoff(name) && spec_find_mapping(name) is Some ==> {
            let m = spec_find_mapping(name)->0;
            &&& m.convert == Converter::MidiCutoff
            &&& m.min == 8
            &&& m.max == 136
        },
        spec_find_mapping("filter_1_cutoff"@) matches Some(m) && m.convert == Converter::MidiCutoff
            && m.min == 8 && m.max == 136,
        spec_find_mapping("filter_2_cutoff"@) matches Some(m) && m.convert == Converter::MidiCutoff
            && m.min == 8 && m.max == 136,
{
    law_table_cutoffs_are_midi_notes();
    law_find_mapping(name);
    law_find_mapping("filter_1_cutoff"@);
    law_find_mapping("filter_2_cutoff"@);
    reveal_strlit("filter_1_cutoff");
    reveal_strlit("filter_2_cutoff");
    reveal_strlit("_cutoff");
    assert("filter_1_cutoff"@.skip(8) =~= "_cutoff"@);
    assert("filter_2_cutoff"@.skip(8) =~= "_cutoff"@);
    assert(param_table()[54].gemini_name@ == "filter_1_cutoff"@);
    assert(param_table()[62].gemini_name@ == "filter_2_cutoff"@);
}

// ── Seed bank ────────────────────────────────────────────────────────────────

/// The file that holds the Init.vital template, the fallback seed.
pub const INIT_TEMPLATE_FILE: &'static str = "init_template.json";

/// The curated seed presets: each category name with the file that holds
/// its .vital template. The category names are the ones the classification
/// prompt offers.
pub open spec fn seed_table() -> Seq<(&'static str, &'static str)> {
    seq![
        ("alien_bass", "seeds/alien_bass.vital"),
        ("arp_sequence", "seeds/arp_sequence.vital"),
        ("bell", "seeds/bell.vital"),
        ("drum_kick", "seeds/drum_kick.vital"),
        ("drum_snare", "seeds/drum_snare.vital"),
        ("fx_riser", "seeds/fx_riser.vital"),
        ("growl_bass", "seeds/growl_bass.vital"),
        ("keys", "seeds/keys.vital"),
        ("keys_ambient", "seeds/keys_ambient.vital"),
        ("megasaw_lead", "seeds/megasaw_lead.vital"),
        ("organ", "seeds/organ.vital"),
        ("pad_ambient", "seeds/pad_ambient.vital"),
        ("pad_warm", "seeds/pad_warm.vital"),
        ("pluck", "seeds/pluck.vital"),
        ("sub_bass", "seeds/sub_bass.vital"),
        ("supersaw_lead", "seeds/supersaw_lead.vital"),
        ("tearout_bass", "seeds/tearout_bass.vital"),
        ("vocal", "seeds/vocal.vital"),
    ]
}

/// The seed table.
pub fn seed_templates() -> (v: Vec<(&'static str, &'static str)>)
    ensures
        v@ == seed_table(),
{
    vec![
        ("alien_bass", "seeds/alien_bass.vital"),
        ("arp_sequence", "seeds/arp_sequence.vital"),
        ("bell", "seeds/bell.vital"),
        ("drum_kick", "seeds/drum_kick.vital"),
        ("drum_snare", "seeds/drum_snare.vital"),
        ("fx_riser", "seeds/fx_riser.vital"),
        ("growl_bass", "seeds/growl_bass.vital"),
        ("keys", "seeds/keys.vital"),
        ("keys_ambient", "seeds/keys_ambient.vital"),
        ("megasaw_lead", "seeds/megasaw_lead.vital"),
        ("organ", "seeds/organ.vital"),
        ("pad_ambient", "seeds/pad_ambient.vital"),
        ("pad_warm", "seeds/pad_warm.vital"),
        ("pluck", "seeds/pluck.vital"),
        ("sub_bass", "seeds/sub_bass.vital"),
        ("supersaw_lead", "seeds/supersaw_lead.vital"),
        ("tearout_bass", "seeds/tearout_bass.vital"),
        ("vocal", "seeds/vocal.vital"),
    ]
}

/// The template file of the first seed of `t` named `category`, or the
/// Init template when none is.
pub open spec fn seed_file_in(t: Seq<(&'static str, &'static str)>, category: Seq<char>) -> &'static str
    decreases t.len(),
{
    if t.len() == 0 {
        INIT_TEMPLATE_FILE
    } else if t[0].0@ == category {
        t[0].1
    } else {
        seed_file_in(t.drop_first(), category)
    }
}

/// Each seed's template file is named after its category: "seeds/", the
/// category, then ".vital".
#[verifier::rlimit(50)]
pub proof fn law_seed_files_named_by_category()
    ensures
        forall|i: int|
            0 <= i < seed_table().len() ==> (#[trigger] seed_table()[i]).1@ == "seeds/"@
                + seed_table()[i].0@ + ".vital"@,
{
    reveal_strlit("seeds/");
    reveal_strlit(".vital");
    reveal_strlit("alien_bass");
    reveal_strlit("seeds/alien_bass.vital");
    reveal_strlit("arp_sequence");
    reveal_strlit("seeds/arp_sequence.vital");
    reveal_strlit("bell");
    reveal_strlit("seeds/bell.vital");
    reveal_strlit("drum_kick");
    reveal_strlit("seeds/drum_kick.vital");
    reveal_strlit("drum_snare");
    reveal_strlit("seeds/drum_snare.vital");
    reveal_strlit("fx_riser");
    reveal_strlit("seeds/fx_riser.vital");
    reveal_strlit("growl_bass");
    reveal_strlit("seeds/growl_bass.vital");
    reveal_strlit("keys");
    reveal_strlit("seeds/keys.vital");
    reveal_strlit("keys_ambient");
    reveal_strlit("seeds/keys_ambient.vital");
    reveal_strlit("megasaw_lead");
    reveal_strlit("seeds/megasaw_lead.vital");
    reveal_strlit("organ");
    reveal_strlit("seeds/organ.vital");
    reveal_strlit("pad_ambient");
    reveal_strlit("seeds/pad_ambient.vital");
    reveal_strlit("pad_warm");
    reveal_strlit("seeds/pad_warm.vital");
    reveal_strlit("pluck");
    reveal_strlit("seeds/pluck.vital");
    reveal_strlit("sub_bass");
    reveal_strlit("seeds/sub_bass.vital");
    reveal_strlit("supersaw_lead");
    reveal_strlit("seeds/supersaw_lead.vital");
    reveal_strlit("tearout_bass");
    reveal_strlit("seeds/tearout_bass.vital");
    reveal_strlit("vocal");
    reveal_strlit("seeds/vocal.vital");
    assert(seed_table()[0].1@ =~= "seeds/"@ + seed_table()[0].0@ + ".vital"@);
    assert(seed_table()[1].1@ =~= "seeds/"@ + seed_table()[1].0@ + ".vital"@);
    assert(seed_table()[2].1@ =~= "seeds/"@ + seed_table()[2].0@ + ".vital"@);
    assert(seed_table()[3].1@ =~= "seeds/"@ + seed_table()[3].0@ + ".vital"@);
    assert(seed_table()[4].1@ =~= "seeds/"@ + seed_table()[4].0@ + ".vital"@);
    assert(seed_table()[5].1@ =~= "seeds/"@ + seed_table()[5].0@ + ".vital"@);
    assert(seed_table()[6].1@ =~= "seeds/"@ + seed_table()[6].0@ + ".vital"@);
    assert(seed_table()[7].1@ =~= "seeds/"@ + seed_table()[7].0@ + ".vital"@);
    assert(seed_table()[8].1@ =~= "seeds/"@ + seed_table()[8].0@ + ".vital"@);
    assert(seed_table()[9].1@ =~= "seeds/"@ + seed_table()[9].0@ + ".vital"@);
    assert(seed_table()[10].1@ =~= "seeds/"@ + seed_table()[10].0@ + ".vital"@);
    assert(seed_table()[11].1@ =~= "seeds/"@ + seed_table()[11].0@ + ".vital"@);
    assert(seed_table()[12].1@ =~= "seeds/"@ + seed_table()[12].0@ + ".vital"@);
    assert(seed_table()[13].1@ =~= "seeds/"@ + seed_table()[13].0@ + ".vital"@);
    assert(seed_table()[14].1@ =~= "seeds/"@ + seed_table()[14].0@ + ".vital"@);
    assert(seed_table()[15].1@ =~= "seeds/"@ + seed_table()[15].0@ + ".vital"@);
    assert(seed_table()[16].1@ =~= "seeds/"@ + seed_table()[16].0@ + ".vital"@);
    assert(seed_table()[17].1@ =~= "seeds/"@ + seed_table()[17].0@ + ".vital"@);
}

proof fn lemma_seed_file_in(t: Seq<(&'static str, &'static str)>, category: Seq<char>)
    ensures
        (forall|i: int| 0 <= i < t.len() ==> (#[trigger] t[i]).0@ != category) ==> seed_file_in(
            t,
            category,
        ) == INIT_TEMPLATE_FILE,
        (exists|i: int| 0 <= i < t.len() && (#[trigger] t[i]).0@ == category) ==> exists|i: int|
            0 <= i < t.len() && (#[trigger] t[i]).0@ == category && seed_file_in(t, category)
                == t[i].1,
    decreases t.len(),
{
    if t.len() > 0 {
        let rest = t.drop_first();
        lemma_seed_file_in(rest, category);
        if t[0].0@ != category {
            if forall|i: int| 0 <= i < t.len() ==> (#[trigger] t[i]).0@ != category {
                assert forall|i: int| 0 <= i < rest.len() implies (#[trigger] rest[i]).0@
                    != category by {
                    assert(rest[i] == t[i + 1]);
                }
            }
            if exists|i: int| 0 <= i < t.len() && (#[trigger] t[i]).0@ == category {
                let i = choose|i: int| 0 <= i < t.len() && (#[trigger] t[i]).0@ == category;
                assert(rest[i - 1] == t[i]);
                let j = choose|j: int|
                    0 <= j < rest.len() && (#[trigger] rest[j]).0@ == category && seed_file_in(
                        rest,
                        category,
                    ) == rest[j].1;
                assert(t[j + 1] == rest[j]);
            }
        }
    }
}

/// The template chosen for a category of the seed table is the file named
/// after it, "seeds/<category>.vital"; any other name gets the Init
/// template.
pub proof fn law_seed_template_of_category(category: Seq<char>)
    ensures
        (exists|i: int| 0 <= i < seed_table().len() && (#[trigger] seed_table()[i]).0@ == category)
            ==> seed_file_in(seed_table(), category)@ == "seeds/"@ + category + ".vital"@,
        (forall|i: int| 0 <= i < seed_table().len() ==> (#[trigger] seed_table()[i]).0@ != category)
            ==> seed_file_in(seed_table(), category) == INIT_TEMPLATE_FILE,
{
    lemma_seed_file_in(seed_table(), category);
    law_seed_files_named_by_category();
}

/// Look up the seed template for a category name: the file that holds it.
/// Any other name, "init" among them, falls back to the Init template.
pub fn get_seed_template(category: &str) -> (file: &'static str)
    ensures
        file == seed_file_in(seed_table(), category@),
{
    let table = seed_templates();
    let mut i: usize = 0;
    assert(table@.skip(0) =~= table@);
    while i < table.len()
        invariant
            i <= table@.len(),
            table@ == seed_table(),
            seed_file_in(table@.skip(i as int), category@) == seed_file_in(
                seed_table(),
                category@,
            ),
        decreases table@.len() - i,
    {
        proof {
            assert(table@.skip(i as int)[0] == table@[i as int]);
            assert(table@.skip(i as int).drop_first() =~= table@.skip(i + 1));
        }
        if str_equal(table[i].0, category) {
            return table[i].1;
        }
        i = i + 1;
    }
    proof {
        assert(table@.skip(i as int) =~= Seq::<(&'static str, &'static str)>::empty());
    }
    INIT_TEMPLATE_FILE
}

} // verus!
