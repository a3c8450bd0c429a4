use preset_gg::schema::{find_mapping, get_seed_template, param_mappings, Converter, INIT_TEMPLATE_FILE};
use preset_gg::vital::{
    check_merge_inputs, enabled_switches, plan_param_updates, preset_metadata, truncate_ascii_safe,
    Switch, WetMixes,
};

const DRY: WetMixes = WetMixes {
    reverb: false,
    delay: false,
    chorus: false,
    distortion: false,
    flanger: false,
    phaser: false,
    compressor: false,
};

#[test]
fn short_strings_are_kept() {
    assert_eq!(truncate_ascii_safe("hello", 10), "hello");
    assert_eq!(truncate_ascii_safe("hello", 5), "hello");
    assert_eq!(truncate_ascii_safe("", 0), "");
}

#[test]
fn long_strings_get_an_ellipsis() {
    assert_eq!(truncate_ascii_safe("hello world", 8), "hello...");
    assert_eq!(truncate_ascii_safe("abcdef", 3), "...");
    assert_eq!(truncate_ascii_safe("abcdef", 2), "ab");
    assert_eq!(truncate_ascii_safe("éa", 1), "");
    assert_eq!(truncate_ascii_safe("abcd", 0), "");
}

#[test]
fn truncation_never_splits_a_character() {
    // 'é' takes two bytes: cutting "héllo" after two bytes would split it.
    assert_eq!(truncate_ascii_safe("héllo wörld", 5), "h...");
    assert_eq!(truncate_ascii_safe("héllo wörld", 6), "hé...");
    assert_eq!(truncate_ascii_safe("héllo wörld", 7), "hél...");
    for max in 3..20usize {
        assert!(truncate_ascii_safe("héllo wörld ✓✓✓", max).len() <= max);
    }
}

#[test]
fn metadata_for_a_track() {
    let m = preset_metadata("warm pad", Some("Track abcdefgh"));
    assert_eq!(m.preset_name, "Track abcdefgh - warm pad");
    assert_eq!(m.author, "Preset.gg");
    assert_eq!(m.comments, "Generated by Preset.gg AI. Prompt: warm pad");
}

#[test]
fn metadata_without_a_track_is_truncated() {
    let prompt = "a very long description of a lush evolving ambient pad with shimmering highs";
    let m = preset_metadata(prompt, None);
    assert_eq!(m.preset_name, "AI Preset - a very long description of a lush e...");
    assert!(m.preset_name.len() <= 50);
    assert!(m.comments.len() <= 100);
    assert!(m.comments.ends_with("..."));
}

#[test]
fn mapping_lookup() {
    let m = find_mapping("filter_1_cutoff").expect("known parameter");
    assert_eq!(m.vital_key, "filter_1_cutoff");
    assert_eq!(m.convert, Converter::MidiCutoff);
    assert_eq!((m.min, m.max), (8, 136));
    let v = find_mapping("osc_2_unison_voices").expect("known parameter");
    assert_eq!(v.convert.scale(), 15);
    assert_eq!(v.convert.offset(), 1);
    assert!(v.convert.rounds());
    assert!(find_mapping("not_a_parameter").is_none());
    assert!(find_mapping("").is_none());
}

#[test]
fn table_ranges_are_the_images_of_the_unit_interval() {
    let table = param_mappings();
    assert!(table.len() > 150);
    for m in &table {
        assert_eq!(m.gemini_name, m.vital_key);
        assert_eq!(m.min, m.convert.offset());
        assert_eq!(m.max, m.convert.offset() + m.convert.scale());
    }
}

#[test]
fn seed_templates_by_category() {
    assert_eq!(get_seed_template("pad_warm"), "seeds/pad_warm.vital");
    assert_eq!(get_seed_template("vocal"), "seeds/vocal.vital");
    assert_eq!(get_seed_template("init"), INIT_TEMPLATE_FILE);
    assert_eq!(get_seed_template("Pad_Warm"), INIT_TEMPLATE_FILE);
    assert_eq!(get_seed_template(""), INIT_TEMPLATE_FILE);
}

#[test]
fn unknown_and_non_numeric_parameters_are_dropped() {
    let keys = vec![
        "osc_1_level".to_string(),
        "made_up".to_string(),
        "reverb_dry_wet".to_string(),
    ];
    let plan = plan_param_updates(&keys, &vec![true, true, false]);
    assert_eq!(plan.len(), 3);
    assert_eq!(plan[0].map(|m| m.vital_key), Some("osc_1_level"));
    assert!(plan[1].is_none());
    assert!(plan[2].is_none());
}

#[test]
fn sections_switched_on() {
    let keys = vec![
        "reverb_size".to_string(),
        "osc_3_level".to_string(),
        "filter_2_resonance".to_string(),
        "eq_low_gain".to_string(),
        "sample_pan".to_string(),
    ];
    assert_eq!(
        enabled_switches(&DRY, &keys),
        vec![Switch::EqOn, Switch::Osc3On, Switch::Filter2On, Switch::EqOn]
    );
    assert!(enabled_switches(&DRY, &vec![]).is_empty());
    // A sample parameter other than level and transpose does not switch the
    // sample on.
    assert!(enabled_switches(&DRY, &vec!["sample_pan".to_string()]).is_empty());
    assert_eq!(Switch::Filter2On.key(), "filter_2_on");
}

#[test]
fn effects_follow_their_wet_mix() {
    // Gemini set the reverb's wet mix, to zero: the reverb stays off.
    let keys = vec!["reverb_dry_wet".to_string(), "delay_feedback".to_string()];
    assert!(enabled_switches(&DRY, &keys).is_empty());
    let wet = WetMixes { reverb: true, phaser: true, compressor: true, ..DRY };
    assert_eq!(
        enabled_switches(&wet, &vec![]),
        vec![Switch::ReverbOn, Switch::PhaserOn, Switch::CompressorOn]
    );
    assert_eq!(Switch::ReverbOn.key(), "reverb_on");
}

#[test]
fn merge_inputs_are_checked() {
    assert!(check_merge_inputs("{\"settings\": {\"a\": 1}}", true).is_ok());
    assert_eq!(
        check_merge_inputs("{\"settings\": 3}", true).err(),
        Some("Init.vital template missing 'settings' object".to_string())
    );
    assert_eq!(
        check_merge_inputs("{\"settings\": {}}", false).err(),
        Some("Gemini output is not a JSON object".to_string())
    );
    let e = serde_json::from_str::<serde_json::Value>("{").unwrap_err();
    assert_eq!(
        check_merge_inputs("{", true).err(),
        Some(format!("Failed to parse seed template: {}", e))
    );
}

#[test]
fn merge_template_is_the_parsed_text() {
    let t = check_merge_inputs("{\"settings\": {\"osc_1_level\": 0.7}, \"x\": 1}", true).unwrap();
    assert_eq!(t["settings"]["osc_1_level"].as_f64(), Some(0.7));
    assert_eq!(t["x"].as_i64(), Some(1));
}
