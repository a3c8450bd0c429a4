//! The decisions behind turning Gemini's output into a .vital preset: which
//! parameters are set and through which mapping, which sections get switched
//! on, and the preset's metadata.

use vstd::prelude::*;
use vstd::string::*;

use crate::gemini::parsed_value;
use crate::schema::{find_mapping, spec_find_mapping, ParamMapping};
use crate::text::{
    char_width, chars_of, char_len_utf8, utf8_length, has_prefix, lemma_prefix_within, lemma_utf8_len_concat,
    prefix_within, str_equal, str_starts_with, utf8_len,
};

verus! {

// ── Truncation ───────────────────────────────────────────────────────────────

/// `s` cut to fit in `max_bytes` UTF-8 bytes: unchanged when it fits, else
/// the longest prefix that fits in `max_bytes - 3` bytes (never splitting a
/// character) followed by "..."; when the budget has no room for the dots,
/// the longest prefix that fits in it.
pub open spec fn truncated(s: Seq<char>, max_bytes: nat) -> Seq<char> {
    if utf8_len(s) <= max_bytes {
        s
    } else if max_bytes >= 3 {
        s.take(prefix_within(s, max_bytes - 3) as int) + seq!['.', '.', '.']
    } else {
        s.take(prefix_within(s, max_bytes as int) as int)
    }
}

/// Truncate a string to at most `max_bytes` bytes, ensuring we never
/// split a multi-byte UTF-8 character. Appends "..." if truncated and
/// there is room for it.
pub fn truncate_ascii_safe(s: &str, max_bytes: usize) -> (r: String)
    ensures
        r@ == truncated(s@, max_bytes as nat),
        utf8_len(r@) <= max_bytes,
{
    let v = chars_of(s);
    if utf8_length(&v) <= max_bytes as u128 {
        return String::from_str(s);
    }
    let budget: usize = if max_bytes >= 3 {
        max_bytes - 3
    } else {
        max_bytes
    };
    let mut k: usize = 0;
    let mut used: usize = 0;
    assert(v@.skip(0) =~= v@);
    while k < v.len() && char_len_utf8(v[k]) <= budget - used
        invariant
            k <= v@.len(),
            used <= budget,
            prefix_within(v@, budget as int) == k + prefix_within(
                v@.skip(k as int),
                budget - used,
            ),
        decreases v@.len() - k,
    {
        proof {
            let rest = v@.skip(k as int);
            assert(rest[0] == v@[k as int]);
            assert(rest.drop_first() =~= v@.skip(k + 1));
        }
        used = used + char_len_utf8(v[k]);
        k = k + 1;
    }
    proof {
        let rest = v@.skip(k as int);
        if k < v@.len() {
            assert(rest[0] == v@[k as int]);
        }
        assert(prefix_within(rest, budget - used) == 0);
        lemma_prefix_within(v@, budget as int);
        reveal_strlit("...");
    }
    let prefix = s.substring_char(0, k);
    let mut r = String::from_str(prefix);
    if max_bytes < 3 {
        return r;
    }
    r.append("...");
    proof {
        let dots = seq!['.', '.', '.'];
        assert("..."@ =~= dots);
        assert(r@ =~= v@.take(k as int) + dots);
        lemma_utf8_len_concat(v@.take(k as int), dots);
        let d1 = dots.drop_first();
        let d2 = d1.drop_first();
        assert(d2.drop_first() =~= Seq::<char>::empty());
        assert(('.' as u32) == 46);
        assert(char_width('.') == 1);
        assert(d2.len() == 1 && d2[0] == '.');
        assert(utf8_len(d2.drop_first()) == 0);
        assert(utf8_len(d2) == 1);
        assert(utf8_len(d1) == 2);
        assert(utf8_len(dots) == 3);
    }
    r
}

// ── Merge inputs ─────────────────────────────────────────────────────────────

/// The seed template's text read as JSON (`serde_json::from_str` into a
/// `Value`): whether it holds a "settings" object, or the parser's message
/// when it is not JSON.
pub uninterp spec fn template_settings(text: Seq<char>) -> Result<bool, Seq<char>>;

/// What a template reading tells of the text, by plain values.
pub open spec fn template_view(r: Result<(serde_json::Value, bool), String>) -> Result<
    bool,
    Seq<char>,
> {
    match r {
        Ok((_, has)) => Ok(has),
        Err(e) => Err(e@),
    }
}

/// `serde_json::from_str::<serde_json::Value>`, with whether the value's
/// "settings" entry is an object (`Value::get`, `Value::is_object`), or the
/// parse error's text (`Display`). Stated: what it tells of the text is the
/// reading named `template_settings`, and the value it gives is the one
/// named `parsed_value`.
#[verifier::external_body]
fn parse_template(text: &str) -> (r: Result<(serde_json::Value, bool), String>)
    ensures
        template_view(r) == template_settings(text@),
        r is Ok ==> template_value(r) == Some(parsed_value(text@)),
{
    match serde_json::from_str::<serde_json::Value>(text) {
        Ok(v) => {
            let has = v.get("settings").map_or(false, |s| s.is_object());
            Ok((v, has))
        },
        Err(e) => Err(e.to_string()),
    }
}

/// The value of a successful template reading.
pub open spec fn template_value(r: Result<(serde_json::Value, bool), String>) -> Option<
    serde_json::Value,
> {
    match r {
        Ok((v, _)) => Some(v),
        Err(_) => None,
    }
}

pub const TEMPLATE_PARSE_PREFIX: &'static str = "Failed to parse seed template: ";

pub const MISSING_SETTINGS: &'static str = "Init.vital template missing 'settings' object";

pub const GEMINI_NOT_OBJECT: &'static str = "Gemini output is not a JSON object";

/// Whether a merge can go ahead: the template must be JSON with a
/// "settings" object, then Gemini's output must be an object; the first
/// failure is the error.
pub open spec fn spec_merge_inputs(template: Seq<char>, gemini_is_object: bool) -> Result<
    (),
    Seq<char>,
> {
    match template_settings(template) {
        Err(e) => Err(TEMPLATE_PARSE_PREFIX@ + e),
        Ok(false) => Err(MISSING_SETTINGS@),
        Ok(true) => if gemini_is_object {
            Ok(())
        } else {
            Err(GEMINI_NOT_OBJECT@)
        },
    }
}

/// Parse the seed template for a merge with Gemini's output, which
/// `gemini_is_object` tells is a JSON object or not.
pub fn check_merge_inputs(template_json: &str, gemini_is_object: bool) -> (r: Result<
    serde_json::Value,
    String,
>)
    ensures
        match spec_merge_inputs(template_json@, gemini_is_object) {
            Ok(()) => r is Ok,
            Err(m) => r matches Err(rm) && rm@ == m,
        },
        r matches Ok(v) ==> v == parsed_value(template_json@),
{
    match parse_template(template_json) {
        Err(e) => {
            let mut m = String::from_str(TEMPLATE_PARSE_PREFIX);
            m.append(e.as_str());
            Err(m)
        },
        Ok((template, has_settings)) => {
            if !has_settings {
                return Err(String::from_str(MISSING_SETTINGS));
            }
            if !gemini_is_object {
                return Err(String::from_str(GEMINI_NOT_OBJECT));
            }
            Ok(template)
        },
    }
}

// ── Metadata ─────────────────────────────────────────────────────────────────

/// Vital keeps string fields in fixed-size buffers: the preset name is kept
/// to this many bytes.
pub const PRESET_NAME_MAX_BYTES: usize = 50;

/// The comments field is kept to this many bytes.
pub const COMMENTS_MAX_BYTES: usize = 100;

/// The preset's root-level metadata.
pub struct PresetMetadata {
    pub preset_name: String,
    pub author: String,
    pub comments: String,
}

/// "{title} - {prompt}" for a track, "AI Preset - {prompt}" without one,
/// truncated to the name's byte budget.
pub open spec fn spec_preset_name(prompt: Seq<char>, track_title: Option<Seq<char>>) -> Seq<char> {
    let full = match track_title {
        Some(title) => title + " - "@ + prompt,
        None => "AI Preset - "@ + prompt,
    };
    truncated(full, PRESET_NAME_MAX_BYTES as nat)
}

/// "Generated by Preset.gg AI. Prompt: {prompt}", truncated to the comments'
/// byte budget.
pub open spec fn spec_comments(prompt: Seq<char>) -> Seq<char> {
    truncated("Generated by Preset.gg AI. Prompt: "@ + prompt, COMMENTS_MAX_BYTES as nat)
}

/// The metadata of a preset generated from `prompt`, for the track titled
/// `track_title` if there is one.
pub fn preset_metadata(prompt: &str, track_title: Option<&str>) -> (m: PresetMetadata)
    ensures
        m.preset_name@ == spec_preset_name(
            prompt@,
            match track_title {
                Some(t) => Some(t@),
                None => None,
            },
        ),
        m.author@ == "Preset.gg"@,
        m.comments@ == spec_comments(prompt@),
        utf8_len(m.preset_name@) <= PRESET_NAME_MAX_BYTES,
        utf8_len(m.comments@) <= COMMENTS_MAX_BYTES,
{
    let mut name = String::new();
    match track_title {
        Some(title) => {
            name.append(title);
            name.append(" - ");
        },
        None => {
            name.append("AI Preset - ");
        },
    }
    name.append(prompt);
    proof {
        match track_title {
            Some(title) => {
                assert(name@ =~= title@ + " - "@ + prompt@);
            },
            None => {
                assert(name@ =~= "AI Preset - "@ + prompt@);
            },
        }
    }
    let preset_name = truncate_ascii_safe(name.as_str(), PRESET_NAME_MAX_BYTES);
    let mut comments = String::from_str("Generated by Preset.gg AI. Prompt: ");
    comments.append(prompt);
    let comments = truncate_ascii_safe(comments.as_str(), COMMENTS_MAX_BYTES);
    PresetMetadata { preset_name, author: String::from_str("Preset.gg"), comments }
}

// ── Parameter updates ────────────────────────────────────────────────────────

/// The mapping through which a Gemini parameter named `key` is set: its
/// table entry when the value is numeric and the name is known; none (the
/// parameter is dropped) otherwise.
pub open spec fn spec_update_for(key: Seq<char>, numeric: bool) -> Option<ParamMapping> {
    if numeric {
        spec_find_mapping(key)
    } else {
        None
    }
}

/// For each Gemini parameter, in order, the mapping through which it is set,
/// or none where it is dropped. `numeric[i]` tells whether the value of
/// `keys[i]` is a number.
pub fn plan_param_updates(keys: &Vec<String>, numeric: &Vec<bool>) -> (r: Vec<Option<ParamMapping>>)
    requires
        keys@.len() == numeric@.len(),
    ensures
        r@.len() == keys@.len(),
        forall|i: int|
            0 <= i < keys@.len() ==> #[trigger] r@[i] == spec_update_for(keys@[i]@, numeric@[i]),
{
    let mut r: Vec<Option<ParamMapping>> = Vec::new();
    let mut i: usize = 0;
    while i < keys.len()
        invariant
            i <= keys@.len(),
            keys@.len() == numeric@.len(),
            r@.len() == i,
            forall|j: int|
                0 <= j < i ==> #[trigger] r@[j] == spec_update_for(keys@[j]@, numeric@[j]),
        decreases keys@.len() - i,
    {
        if numeric[i] {
            r.push(find_mapping(keys[i].as_str()));
        } else {
            r.push(None);
        }
        i = i + 1;
    }
    r
}

// ── Section switches ─────────────────────────────────────────────────────────

/// Some key begins with `prefix`.
pub open spec fn any_key_with_prefix(keys: Seq<Seq<char>>, prefix: Seq<char>) -> bool {
    exists|i: int| 0 <= i < keys.len() && has_prefix(#[trigger] keys[i], prefix)
}

/// Some key is `name`.
pub open spec fn has_key(keys: Seq<Seq<char>>, name: Seq<char>) -> bool {
    exists|i: int| 0 <= i < keys.len() && #[trigger] keys[i] == name
}

/// A section switch of the Vital settings, set to 1.0 to turn it on.
#[derive(Debug, Clone, Copy, PartialEq, Eq, Structural)]
pub enum Switch {
    ReverbOn,
    DelayOn,
    ChorusOn,
    DistortionOn,
    FlangerOn,
    PhaserOn,
    CompressorOn,
    EqOn,
    Osc2On,
    Osc3On,
    Filter1On,
    Filter2On,
    SampleOn,
}

/// The settings key of a switch.
pub open spec fn spec_switch_key(s: Switch) -> Seq<char> {
    match s {
        Switch::ReverbOn => "reverb_on"@,
        Switch::DelayOn => "delay_on"@,
        Switch::ChorusOn => "chorus_on"@,
        Switch::DistortionOn => "distortion_on"@,
        Switch::FlangerOn => "flanger_on"@,
        Switch::PhaserOn => "phaser_on"@,
        Switch::CompressorOn => "compressor_on"@,
        Switch::EqOn => "eq_on"@,
        Switch::Osc2On => "osc_2_on"@,
        Switch::Osc3On => "osc_3_on"@,
        Switch::Filter1On => "filter_1_on"@,
        Switch::Filter2On => "filter_2_on"@,
        Switch::SampleOn => "sample_on"@,
    }
}

impl Switch {
    /// The settings key of the switch.
    pub fn key(&self) -> (k: &'static str)
        ensures
            k@ == spec_switch_key(*self),
    {
        match self {
            Switch::ReverbOn => "reverb_on",
            Switch::DelayOn => "delay_on",
            Switch::ChorusOn => "chorus_on",
            Switch::DistortionOn => "distortion_on",
            Switch::FlangerOn => "flanger_on",
            Switch::PhaserOn => "phaser_on",
            Switch::CompressorOn => "compressor_on",
            Switch::EqOn => "eq_on",
            Switch::Osc2On => "osc_2_on",
            Switch::Osc3On => "osc_3_on",
            Switch::Filter1On => "filter_1_on",
            Switch::Filter2On => "filter_2_on",
            Switch::SampleOn => "sample_on",
        }
    }
}

/// For each effect with a wet mix, whether that mix is nonzero in the
/// merged settings (Gemini's value where it set one, else the template's):
/// `reverb_dry_wet`, `delay_dry_wet`, `chorus_dry_wet`, `distortion_mix`,
/// `flanger_dry_wet`, `phaser_dry_wet` and `compressor_mix`.
#[derive(Debug, Clone, Copy)]
pub struct WetMixes {
    pub reverb: bool,
    pub delay: bool,
    pub chorus: bool,
    pub distortion: bool,
    pub flanger: bool,
    pub phaser: bool,
    pub compressor: bool,
}

/// `[switch]` when `on`, else nothing.
pub open spec fn switch_if(on: bool, switch: Switch) -> Seq<Switch> {
    if on {
        seq![switch]
    } else {
        seq![]
    }
}

/// The views of the keys.
pub open spec fn key_views(keys: Seq<String>) -> Seq<Seq<char>> {
    keys.map_values(|k: String| k@)
}

/// The effects switched on, in order: each whose wet mix is nonzero.
pub open spec fn wet_switches(wet: WetMixes) -> Seq<Switch> {
    switch_if(wet.reverb, Switch::ReverbOn) + switch_if(wet.delay, Switch::DelayOn) + switch_if(
        wet.chorus,
        Switch::ChorusOn,
    ) + switch_if(wet.distortion, Switch::DistortionOn) + switch_if(wet.flanger, Switch::FlangerOn)
        + switch_if(wet.phaser, Switch::PhaserOn) + switch_if(wet.compressor, Switch::CompressorOn)
}

/// The sections switched on, in order, because Gemini set a parameter of
/// theirs: the EQ when some key begins with "eq_"; oscillators 2 and 3
/// likewise; filter 1 and 2 when a cutoff, resonance, drive or blend of
/// theirs is set; the sample when its level or transpose is; the EQ again
/// when a band, low or high gain is.
pub open spec fn key_switches(keys: Seq<Seq<char>>) -> Seq<Switch> {
    switch_if(any_key_with_prefix(keys, "eq_"@), Switch::EqOn) + switch_if(
        any_key_with_prefix(keys, "osc_2_"@),
        Switch::Osc2On,
    ) + switch_if(any_key_with_prefix(keys, "osc_3_"@), Switch::Osc3On) + switch_if(
        has_key(keys, "filter_1_cutoff"@) || has_key(keys, "filter_1_resonance"@) || has_key(
            keys,
            "filter_1_drive"@,
        ) || has_key(keys, "filter_1_blend"@),
        Switch::Filter1On,
    ) + switch_if(
        has_key(keys, "filter_2_cutoff"@) || has_key(keys, "filter_2_resonance"@) || has_key(
            keys,
            "filter_2_drive"@,
        ) || has_key(keys, "filter_2_blend"@),
        Switch::Filter2On,
    ) + switch_if(
        has_key(keys, "sample_level"@) || has_key(keys, "sample_transpose"@),
        Switch::SampleOn,
    ) + switch_if(
        has_key(keys, "eq_band_gain"@) || has_key(keys, "eq_low_gain"@) || has_key(
            keys,
            "eq_high_gain"@,
        ),
        Switch::EqOn,
    )
}

/// The switches turned on after the merge: the effects whose wet mix is
/// nonzero, then the sections that Gemini's keys name.
pub open spec fn spec_enabled_switches(wet: WetMixes, keys: Seq<Seq<char>>) -> Seq<Switch> {
    wet_switches(wet) + key_switches(keys)
}

/// Whether some key begins with `prefix`.
fn any_starts_with(keys: &Vec<String>, prefix: &str) -> (r: bool)
    ensures
        r == any_key_with_prefix(key_views(keys@), prefix@),
{
    let ghost ks = key_views(keys@);
    let mut i: usize = 0;
    while i < keys.len()
        invariant
            i <= keys@.len(),
            ks == key_views(keys@),
            forall|j: int| 0 <= j < i ==> !has_prefix(#[trigger] ks[j], prefix@),
        decreases keys@.len() - i,
    {
        if str_starts_with(keys[i].as_str(), prefix) {
            assert(ks[i as int] == keys@[i as int]@);
            return true;
        }
        i = i + 1;
    }
    false
}

/// Whether some key is `name`.
fn any_equals(keys: &Vec<String>, name: &str) -> (r: bool)
    ensures
        r == has_key(key_views(keys@), name@),
{
    let ghost ks = key_views(keys@);
    let mut i: usize = 0;
    while i < keys.len()
        invariant
            i <= keys@.len(),
            ks == key_views(keys@),
            forall|j: int| 0 <= j < i ==> #[trigger] ks[j] != name@,
        decreases keys@.len() - i,
    {
        if str_equal(keys[i].as_str(), name) {
            assert(ks[i as int] == keys@[i as int]@);
            return true;
        }
        i = i + 1;
    }
    false
}

fn push_if(v: &mut Vec<Switch>, on: bool, switch: Switch)
    ensures
        final(v)@ == old(v)@ + switch_if(on, switch),
{
    if on {
        v.push(switch);
        assert(final(v)@ =~= old(v)@ + seq![switch]);
    } else {
        assert(old(v)@ + switch_if(on, switch) =~= old(v)@);
    }
}

proof fn lemma_seq_assoc(a: Seq<Switch>, b: Seq<Switch>, c: Seq<Switch>)
    ensures
        (a + b) + c == a + (b + c),
{
    assert((a + b) + c =~= a + (b + c));
}

fn push_wet_switches(v: &mut Vec<Switch>, wet: &WetMixes)
    ensures
        final(v)@ == old(v)@ + wet_switches(*wet),
{
    let ghost start = v@;
    let ghost p1 = switch_if(wet.reverb, Switch::ReverbOn);
    let ghost p2 = p1 + switch_if(wet.delay, Switch::DelayOn);
    let ghost p3 = p2 + switch_if(wet.chorus, Switch::ChorusOn);
    let ghost p4 = p3 + switch_if(wet.distortion, Switch::DistortionOn);
    let ghost p5 = p4 + switch_if(wet.flanger, Switch::FlangerOn);
    let ghost p6 = p5 + switch_if(wet.phaser, Switch::PhaserOn);
    push_if(v, wet.reverb, Switch::ReverbOn);
    push_if(v, wet.delay, Switch::DelayOn);
    proof {
        lemma_seq_assoc(start, p1, switch_if(wet.delay, Switch::DelayOn));
    }
    push_if(v, wet.chorus, Switch::ChorusOn);
    proof {
        lemma_seq_assoc(start, p2, switch_if(wet.chorus, Switch::ChorusOn));
    }
    push_if(v, wet.distortion, Switch::DistortionOn);
    proof {
        lemma_seq_assoc(start, p3, switch_if(wet.distortion, Switch::DistortionOn));
    }
    push_if(v, wet.flanger, Switch::FlangerOn);
    proof {
        lemma_seq_assoc(start, p4, switch_if(wet.flanger, Switch::FlangerOn));
    }
    push_if(v, wet.phaser, Switch::PhaserOn);
    proof {
        lemma_seq_assoc(start, p5, switch_if(wet.phaser, Switch::PhaserOn));
    }
    push_if(v, wet.compressor, Switch::CompressorOn);
    proof {
        lemma_seq_assoc(start, p6, switch_if(wet.compressor, Switch::CompressorOn));
    }
}

fn push_key_switches(v: &mut Vec<Switch>, keys: &Vec<String>)
    ensures
        final(v)@ == old(v)@ + key_switches(key_views(keys@)),
{
    let ghost start = v@;
    let ghost ks = key_views(keys@);
    let c1 = any_starts_with(keys, "eq_");
    let c2 = any_starts_with(keys, "osc_2_");
    let c3 = any_starts_with(keys, "osc_3_");
    let c4 = any_equals(keys, "filter_1_cutoff") || any_equals(keys, "filter_1_resonance")
        || any_equals(keys, "filter_1_drive") || any_equals(keys, "filter_1_blend");
    let c5 = any_equals(keys, "filter_2_cutoff") || any_equals(keys, "filter_2_resonance")
        || any_equals(keys, "filter_2_drive") || any_equals(keys, "filter_2_blend");
    let c6 = any_equals(keys, "sample_level") || any_equals(keys, "sample_transpose");
    let c7 = any_equals(keys, "eq_band_gain") || any_equals(keys, "eq_low_gain") || any_equals(
        keys,
        "eq_high_gain",
    );
    let ghost p1 = switch_if(c1, Switch::EqOn);
    let ghost p2 = p1 + switch_if(c2, Switch::Osc2On);
    let ghost p3 = p2 + switch_if(c3, Switch::Osc3On);
    let ghost p4 = p3 + switch_if(c4, Switch::Filter1On);
    let ghost p5 = p4 + switch_if(c5, Switch::Filter2On);
    let ghost p6 = p5 + switch_if(c6, Switch::SampleOn);
    assert(key_switches(ks) == p6 + switch_if(c7, Switch::EqOn));
    push_if(v, c1, Switch::EqOn);
    push_if(v, c2, Switch::Osc2On);
    proof {
        lemma_seq_assoc(start, p1, switch_if(c2, Switch::Osc2On));
    }
    push_if(v, c3, Switch::Osc3On);
    proof {
        lemma_seq_assoc(start, p2, switch_if(c3, Switch::Osc3On));
    }
    push_if(v, c4, Switch::Filter1On);
    proof {
        lemma_seq_assoc(start, p3, switch_if(c4, Switch::Filter1On));
    }
    push_if(v, c5, Switch::Filter2On);
    proof {
        lemma_seq_assoc(start, p4, switch_if(c5, Switch::Filter2On));
    }
    push_if(v, c6, Switch::SampleOn);
    proof {
        lemma_seq_assoc(start, p5, switch_if(c6, Switch::SampleOn));
    }
    push_if(v, c7, Switch::EqOn);
    proof {
        lemma_seq_assoc(start, p6, switch_if(c7, Switch::EqOn));
    }
}

/// The switches to turn on (each set to 1.0): the effects whose wet mix is
/// nonzero after the merge, and the sections that Gemini's keys name.
pub fn enabled_switches(wet: &WetMixes, keys: &Vec<String>) -> (r: Vec<Switch>)
    ensures
        r@ == spec_enabled_switches(*wet, key_views(keys@)),
{
    let mut r: Vec<Switch> = Vec::new();
    push_wet_switches(&mut r, wet);
    push_key_switches(&mut r, keys);
    assert(r@ =~= spec_enabled_switches(*wet, key_views(keys@)));
    r
}

proof fn lemma_concat_contains(a: Seq<Switch>, b: Seq<Switch>, x: Switch)
    ensures
        (a + b).contains(x) <==> a.contains(x) || b.contains(x),
{
    if (a + b).contains(x) {
        let i = choose|i: int| 0 <= i < (a + b).len() && (a + b)[i] == x;
        if i < a.len() {
            assert(a[i] == x);
        } else {
            assert(b[i - a.len()] == x);
        }
    }
    if a.contains(x) {
        let i = choose|i: int| 0 <= i < a.len() && a[i] == x;
        assert((a + b)[i] == x);
    }
    if b.contains(x) {
        let i = choose|i: int| 0 <= i < b.len() && b[i] == x;
        assert((a + b)[i + a.len()] == x);
    }
}

proof fn lemma_switch_if_contains(on: bool, s: Switch, x: Switch)
    ensures
        switch_if(on, s).contains(x) <==> on && s == x,
{
    if on {
        assert(switch_if(on, s)[0] == s);
    }
}

/// Whether `x` is among the switches of the effects' wet mixes.
pub open spec fn wet_switch_on(wet: WetMixes, x: Switch) -> bool {
    match x {
        Switch::ReverbOn => wet.reverb,
        Switch::DelayOn => wet.delay,
        Switch::ChorusOn => wet.chorus,
        Switch::DistortionOn => wet.distortion,
        Switch::FlangerOn => wet.flanger,
        Switch::PhaserOn => wet.phaser,
        Switch::CompressorOn => wet.compressor,
        _ => false,
    }
}

/// The switch of an effect that has a wet mix.
pub open spec fn is_wet_effect(x: Switch) -> bool {
    x is ReverbOn || x is DelayOn || x is ChorusOn || x is DistortionOn || x is FlangerOn
        || x is PhaserOn || x is CompressorOn
}

proof fn lemma_wet_switches_contain(wet: WetMixes, x: Switch)
    ensures
        wet_switches(wet).contains(x) <==> wet_switch_on(wet, x),
{
    let p1 = switch_if(wet.reverb, Switch::ReverbOn);
    let p2 = p1 + switch_if(wet.delay, Switch::DelayOn);
    let p3 = p2 + switch_if(wet.chorus, Switch::ChorusOn);
    let p4 = p3 + switch_if(wet.distortion, Switch::DistortionOn);
    let p5 = p4 + switch_if(wet.flanger, Switch::FlangerOn);
    let p6 = p5 + switch_if(wet.phaser, Switch::PhaserOn);
    lemma_switch_if_contains(wet.reverb, Switch::ReverbOn, x);
    lemma_switch_if_contains(wet.delay, Switch::DelayOn, x);
    lemma_switch_if_contains(wet.chorus, Switch::ChorusOn, x);
    lemma_switch_if_contains(wet.distortion, Switch::DistortionOn, x);
    lemma_switch_if_contains(wet.flanger, Switch::FlangerOn, x);
    lemma_switch_if_contains(wet.phaser, Switch::PhaserOn, x);
    lemma_switch_if_contains(wet.compressor, Switch::CompressorOn, x);
    lemma_concat_contains(p1, switch_if(wet.delay, Switch::DelayOn), x);
    lemma_concat_contains(p2, switch_if(wet.chorus, Switch::ChorusOn), x);
    lemma_concat_contains(p3, switch_if(wet.distortion, Switch::DistortionOn), x);
    lemma_concat_contains(p4, switch_if(wet.flanger, Switch::FlangerOn), x);
    lemma_concat_contains(p5, switch_if(wet.phaser, Switch::PhaserOn), x);
    lemma_concat_contains(p6, switch_if(wet.compressor, Switch::CompressorOn), x);
}

proof fn lemma_key_switches_not_wet(keys: Seq<Seq<char>>, x: Switch)
    requires
        is_wet_effect(x),
    ensures
        !key_switches(keys).contains(x),
{
    let c1 = any_key_with_prefix(keys, "eq_"@);
    let c2 = any_key_with_prefix(keys, "osc_2_"@);
    let c3 = any_key_with_prefix(keys, "osc_3_"@);
    let c4 = has_key(keys, "filter_1_cutoff"@) || has_key(keys, "filter_1_resonance"@) || has_key(
        keys,
        "filter_1_drive"@,
    ) || has_key(keys, "filter_1_blend"@);
    let c5 = has_key(keys, "filter_2_cutoff"@) || has_key(keys, "filter_2_resonance"@) || has_key(
        keys,
        "filter_2_drive"@,
    ) || has_key(keys, "filter_2_blend"@);
    let c6 = has_key(keys, "sample_level"@) || has_key(keys, "sample_transpose"@);
    let c7 = has_key(keys, "eq_band_gain"@) || has_key(keys, "eq_low_gain"@) || has_key(
        keys,
        "eq_high_gain"@,
    );
    let p1 = switch_if(c1, Switch::EqOn);
    let p2 = p1 + switch_if(c2, Switch::Osc2On);
    let p3 = p2 + switch_if(c3, Switch::Osc3On);
    let p4 = p3 + switch_if(c4, Switch::Filter1On);
    let p5 = p4 + switch_if(c5, Switch::Filter2On);
    let p6 = p5 + switch_if(c6, Switch::SampleOn);
    assert(key_switches(keys) == p6 + switch_if(c7, Switch::EqOn));
    lemma_switch_if_contains(c1, Switch::EqOn, x);
    lemma_switch_if_contains(c2, Switch::Osc2On, x);
    lemma_switch_if_contains(c3, Switch::Osc3On, x);
    lemma_switch_if_contains(c4, Switch::Filter1On, x);
    lemma_switch_if_contains(c5, Switch::Filter2On, x);
    lemma_switch_if_contains(c6, Switch::SampleOn, x);
    lemma_switch_if_contains(c7, Switch::EqOn, x);
    lemma_concat_contains(p1, switch_if(c2, Switch::Osc2On), x);
    lemma_concat_contains(p2, switch_if(c3, Switch::Osc3On), x);
    lemma_concat_contains(p3, switch_if(c4, Switch::Filter1On), x);
    lemma_concat_contains(p4, switch_if(c5, Switch::Filter2On), x);
    lemma_concat_contains(p5, switch_if(c6, Switch::SampleOn), x);
    lemma_concat_contains(p6, switch_if(c7, Switch::EqOn), x);
}

proof fn lemma_key_switches_contain(keys: Seq<Seq<char>>, x: Switch)
    requires
        !is_wet_effect(x),
    ensures
        key_switches(keys).contains(x) <==> match x {
            Switch::EqOn => any_key_with_prefix(keys, "eq_"@) || has_key(keys, "eq_band_gain"@)
                || has_key(keys, "eq_low_gain"@) || has_key(keys, "eq_high_gain"@),
            Switch::Osc2On => any_key_with_prefix(keys, "osc_2_"@),
            Switch::Osc3On => any_key_with_prefix(keys, "osc_3_"@),
            Switch::Filter1On => has_key(keys, "filter_1_cutoff"@) || has_key(
                keys,
                "filter_1_resonance"@,
            ) || has_key(keys, "filter_1_drive"@) || has_key(keys, "filter_1_blend"@),
            Switch::Filter2On => has_key(keys, "filter_2_cutoff"@) || has_key(
                keys,
                "filter_2_resonance"@,
            ) || has_key(keys, "filter_2_drive"@) || has_key(keys, "filter_2_blend"@),
            Switch::SampleOn => has_key(keys, "sample_level"@) || has_key(
                keys,
                "sample_transpose"@,
            ),
            _ => false,
        },
{
    let c1 = any_key_with_prefix(keys, "eq_"@);
    let c2 = any_key_with_prefix(keys, "osc_2_"@);
    let c3 = any_key_with_prefix(keys, "osc_3_"@);
    let c4 = has_key(keys, "filter_1_cutoff"@) || has_key(keys, "filter_1_resonance"@) || has_key(
        keys,
        "filter_1_drive"@,
    ) || has_key(keys, "filter_1_blend"@);
    let c5 = has_key(keys, "filter_2_cutoff"@) || has_key(keys, "filter_2_resonance"@) || has_key(
        keys,
        "filter_2_drive"@,
    ) || has_key(keys, "filter_2_blend"@);
    let c6 = has_key(keys, "sample_level"@) || has_key(keys, "sample_transpose"@);
    let c7 = has_key(keys, "eq_band_gain"@) || has_key(keys, "eq_low_gain"@) || has_key(
        keys,
        "eq_high_gain"@,
    );
    let p1 = switch_if(c1, Switch::EqOn);
    let p2 = p1 + switch_if(c2, Switch::Osc2On);
    let p3 = p2 + switch_if(c3, Switch::Osc3On);
    let p4 = p3 + switch_if(c4, Switch::Filter1On);
    let p5 = p4 + switch_if(c5, Switch::Filter2On);
    let p6 = p5 + switch_if(c6, Switch::SampleOn);
    assert(key_switches(keys) == p6 + switch_if(c7, Switch::EqOn));
    lemma_switch_if_contains(c1, Switch::EqOn, x);
    lemma_switch_if_contains(c2, Switch::Osc2On, x);
    lemma_switch_if_contains(c3, Switch::Osc3On, x);
    lemma_switch_if_contains(c4, Switch::Filter1On, x);
    lemma_switch_if_contains(c5, Switch::Filter2On, x);
    lemma_switch_if_contains(c6, Switch::SampleOn, x);
    lemma_switch_if_contains(c7, Switch::EqOn, x);
    lemma_concat_contains(p1, switch_if(c2, Switch::Osc2On), x);
    lemma_concat_contains(p2, switch_if(c3, Switch::Osc3On), x);
    lemma_concat_contains(p3, switch_if(c4, Switch::Filter1On), x);
    lemma_concat_contains(p4, switch_if(c5, Switch::Filter2On), x);
    lemma_concat_contains(p5, switch_if(c6, Switch::SampleOn), x);
    lemma_concat_contains(p6, switch_if(c7, Switch::EqOn), x);
}

proof fn lemma_section_switch(wet: WetMixes, keys: Seq<Seq<char>>, x: Switch)
    requires
        !is_wet_effect(x),
    ensures
        spec_enabled_switches(wet, keys).contains(x) <==> key_switches(keys).contains(x),
{
    lemma_concat_contains(wet_switches(wet), key_switches(keys), x);
    lemma_wet_switches_contain(wet, x);
}

/// Each filter is switched on exactly when Gemini set its cutoff,
/// resonance, drive or blend: filter 1 by the keys of filter 1 alone, and
/// filter 2 by those of filter 2 alone, whatever the wet mixes.
pub proof fn law_filters_follow_their_keys(wet: WetMixes, keys: Seq<Seq<char>>)
    ensures
        spec_enabled_switches(wet, keys).contains(Switch::Filter1On) <==> exists|i: int|
            0 <= i < keys.len() && (#[trigger] keys[i] == "filter_1_cutoff"@ || keys[i]
                == "filter_1_resonance"@ || keys[i] == "filter_1_drive"@ || keys[i]
                == "filter_1_blend"@),
        spec_enabled_switches(wet, keys).contains(Switch::Filter2On) <==> exists|i: int|
            0 <= i < keys.len() && (#[trigger] keys[i] == "filter_2_cutoff"@ || keys[i]
                == "filter_2_resonance"@ || keys[i] == "filter_2_drive"@ || keys[i]
                == "filter_2_blend"@),
{
    lemma_section_switch(wet, keys, Switch::Filter1On);
    lemma_key_switches_contain(keys, Switch::Filter1On);
    lemma_section_switch(wet, keys, Switch::Filter2On);
    lemma_key_switches_contain(keys, Switch::Filter2On);
}

/// Oscillators 2 and 3 are switched on exactly when Gemini set a key of
/// theirs ("osc_2_…", "osc_3_…"); the sample exactly when it set the
/// sample's level or transpose; the EQ exactly when it set a key that
/// begins with "eq_" or one of the EQ's band, low or high gains.
pub proof fn law_sections_follow_their_keys(wet: WetMixes, keys: Seq<Seq<char>>)
    ensures
        spec_enabled_switches(wet, keys).contains(Switch::Osc2On) <==> exists|i: int|
            0 <= i < keys.len() && has_prefix(#[trigger] keys[i], "osc_2_"@),
        spec_enabled_switches(wet, keys).contains(Switch::Osc3On) <==> exists|i: int|
            0 <= i < keys.len() && has_prefix(#[trigger] keys[i], "osc_3_"@),
        spec_enabled_switches(wet, keys).contains(Switch::SampleOn) <==> exists|i: int|
            0 <= i < keys.len() && (#[trigger] keys[i] == "sample_level"@ || keys[i]
                == "sample_transpose"@),
        spec_enabled_switches(wet, keys).contains(Switch::EqOn) <==> exists|i: int|
            0 <= i < keys.len() && (has_prefix(#[trigger] keys[i], "eq_"@) || keys[i]
                == "eq_band_gain"@ || keys[i] == "eq_low_gain"@ || keys[i] == "eq_high_gain"@),
{
    lemma_section_switch(wet, keys, Switch::Osc2On);
    lemma_key_switches_contain(keys, Switch::Osc2On);
    lemma_section_switch(wet, keys, Switch::Osc3On);
    lemma_key_switches_contain(keys, Switch::Osc3On);
    lemma_section_switch(wet, keys, Switch::SampleOn);
    lemma_key_switches_contain(keys, Switch::SampleOn);
    lemma_section_switch(wet, keys, Switch::EqOn);
    lemma_key_switches_contain(keys, Switch::EqOn);
}

/// An effect with a wet mix is switched on exactly when its wet mix is
/// nonzero after the merge, whatever keys Gemini set.
pub proof fn law_effects_follow_wet_mix(wet: WetMixes, keys: Seq<Seq<char>>, x: Switch)
    requires
        is_wet_effect(x),
    ensures
        spec_enabled_switches(wet, keys).contains(x) <==> wet_switch_on(wet, x),
{
    lemma_concat_contains(wet_switches(wet), key_switches(keys), x);
    lemma_wet_switches_contain(wet, x);
    lemma_key_switches_not_wet(keys, x);
}

} // verus!
