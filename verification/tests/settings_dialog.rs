use hachimi::il2cpp::hook::umamusume::DialogOptionHome::{
    apply_text_debug_toggles, category_title, clean_translation, get_toggle_group_value_by_name,
    option_value_display, physics_update_mode_from_selection, physics_update_mode_selection,
    simple_item_name, target_fps_from_slider, target_fps_slider_value, vsync_count_from_selection,
    vsync_selection, AnisoLevel, BgSeason, FullScreenMode, GraphicsQuality, Language, MsaaQuality,
    ResolutionScaling, SettingsToggleReadings, SettingsToggles, ShadowResolution, SpringUpdateMode,
    TextDebugFlags, TextDebugToggles, apply_settings_toggles, select_dialog_rows, select_dialog_step,
    SelectDialogEvent,
};

#[test]
fn language_positions() {
    assert_eq!(Language::from_selection(0), Language::English);
    assert_eq!(Language::from_selection(6), Language::BPortuguese);
    assert_eq!(Language::from_selection(8), Language::English);
    assert_eq!(Language::from_selection(-1), Language::English);
    for i in 0..8 {
        assert_eq!(Language::from_selection(i).selection(), i);
    }
    assert_eq!(Language::Filipino.selection(), 7);
}

#[test]
fn graphics_positions() {
    assert_eq!(MsaaQuality::from_selection(2), MsaaQuality::_4x);
    assert_eq!(MsaaQuality::from_selection(4), MsaaQuality::Disabled);
    assert_eq!(AnisoLevel::from_selection(4), AnisoLevel::_16x);
    assert_eq!(ShadowResolution::from_selection(5), ShadowResolution::_4096);
    assert_eq!(GraphicsQuality::from_selection(3), GraphicsQuality::Toon1280x4);
    assert_eq!(GraphicsQuality::from_selection(9), GraphicsQuality::Default);
    assert_eq!(BgSeason::from_selection(5), BgSeason::CherryBlossom);
    assert_eq!(BgSeason::from_selection(0), BgSeason::NoSeason);
    assert_eq!(ResolutionScaling::from_selection(2), ResolutionScaling::ScaleToWindowSize);
    assert_eq!(FullScreenMode::from_selection(0), FullScreenMode::ExclusiveFullScreen);
    assert_eq!(FullScreenMode::from_selection(7), FullScreenMode::FullScreenWindow);
    for i in 0..4 {
        assert_eq!(MsaaQuality::from_selection(i).selection(), i);
    }
    for i in 0..6 {
        assert_eq!(ShadowResolution::from_selection(i).selection(), i);
        assert_eq!(BgSeason::from_selection(i).selection(), i);
    }
    for v in [AnisoLevel::Default, AnisoLevel::_2x, AnisoLevel::_8x] {
        assert_eq!(AnisoLevel::from_selection(v.selection()), v);
    }
}

#[test]
fn physics_positions() {
    assert_eq!(physics_update_mode_from_selection(0), None);
    assert_eq!(physics_update_mode_from_selection(2), Some(SpringUpdateMode::Mode60FPS));
    assert_eq!(physics_update_mode_from_selection(5), None);
    for i in 0..5 {
        assert_eq!(physics_update_mode_selection(physics_update_mode_from_selection(i)), i);
    }
}

#[test]
fn vsync_positions() {
    assert_eq!(vsync_count_from_selection(0), -1);
    assert_eq!(vsync_count_from_selection(1), 0);
    assert_eq!(vsync_count_from_selection(5), 4);
    assert_eq!(vsync_count_from_selection(6), -1);
    assert_eq!(vsync_selection(-1), 0);
    assert_eq!(vsync_selection(2), 3);
    assert_eq!(vsync_selection(9), 0);
    for c in -1..=4 {
        assert_eq!(vsync_count_from_selection(vsync_selection(c)), c);
    }
}

#[test]
fn target_fps_slider() {
    assert_eq!(target_fps_from_slider(30), None);
    assert_eq!(target_fps_from_slider(12), None);
    assert_eq!(target_fps_from_slider(60), Some(60));
    assert_eq!(target_fps_slider_value(None), 30);
    assert_eq!(target_fps_slider_value(Some(144)), 144);
    assert_eq!(target_fps_from_slider(target_fps_slider_value(Some(144))), Some(144));
    assert_eq!(target_fps_from_slider(target_fps_slider_value(None)), None);
}

#[test]
fn toggle_group_values() {
    assert_eq!(get_toggle_group_value_by_name(None), None);
    assert_eq!(get_toggle_group_value_by_name(Some(-1)), None);
    assert_eq!(get_toggle_group_value_by_name(Some(2)), Some(2));
}

#[test]
fn text_debug_toggles() {
    let all_on = TextDebugFlags {
        text_debug: true,
        text_log: true,
        text_property_dump: true,
        text_localize_dump: true,
        text_position_debug: true,
        text_path_debug: true,
    };
    let mut f = all_on;
    apply_text_debug_toggles(&mut f, &TextDebugToggles { text_debug: Some(false), ..Default::default() });
    assert_eq!(f, TextDebugFlags::default());

    let mut f = all_on;
    apply_text_debug_toggles(
        &mut f,
        &TextDebugToggles { text_debug: Some(false), text_log: Some(true), ..Default::default() },
    );
    assert!(!f.text_debug && f.text_log && !f.text_property_dump);

    let mut f = TextDebugFlags::default();
    apply_text_debug_toggles(&mut f, &TextDebugToggles { text_path_debug: Some(true), ..Default::default() });
    assert!(f.text_path_debug && !f.text_debug);

    let mut f = all_on;
    apply_text_debug_toggles(&mut f, &TextDebugToggles::default());
    assert_eq!(f, all_on);
}

#[test]
fn cleaned_translations() {
    assert_eq!(clean_translation("\u{f0a1} Hachimi Settings \u{f000}"), "Hachimi Settings");
    assert_eq!(clean_translation("  plain\t"), "plain");
    assert_eq!(clean_translation("\u{f8ff}"), "");
    assert_eq!(clean_translation("a\u{efff}b"), "a\u{efff}b");
}

#[test]
fn dialog_labels() {
    assert_eq!(option_value_display("MSAA", "4x"), "MSAA: 4x");
    assert_eq!(simple_item_name("hachimi_msaa"), "hachimi_msaa_simple");
    assert_eq!(category_title("Graphics"), "Graphics Settings");
}

#[test]
fn saving_toggles_sets_only_those_found() {
    let mut before = SettingsToggles::default();
    before.discord_rpc = true;
    before.debug_mode = true;
    let mut readings = SettingsToggleReadings::default();
    readings.disable_translations = Some(true);
    readings.debug_mode = Some(false);
    let after = apply_settings_toggles(before, &readings);
    assert!(after.disable_translations);
    assert!(!after.debug_mode);
    assert!(after.discord_rpc);
    assert!(!after.enable_ipc);
    let mut expected = before;
    expected.disable_translations = true;
    expected.debug_mode = false;
    assert_eq!(after, expected);
}

#[test]
fn saving_unchanged_toggles_changes_nothing() {
    let mut s = SettingsToggles::default();
    s.ipv4_only = true;
    s.skill_info_dialog = true;
    let readings = SettingsToggleReadings {
        ipv4_only: Some(true),
        skill_info_dialog: Some(true),
        debug_mode: Some(false),
        ..SettingsToggleReadings::default()
    };
    assert_eq!(apply_settings_toggles(s, &readings), s);
    assert_eq!(apply_settings_toggles(s, &SettingsToggleReadings::default()), s);
}

#[test]
fn select_dialog_calls_back_once_on_save() {
    let mut pending: Option<&str> = None;
    assert_eq!(select_dialog_step(&mut pending, SelectDialogEvent::Open("msaa")), None);
    assert_eq!(pending, Some("msaa"));
    assert_eq!(select_dialog_step(&mut pending, SelectDialogEvent::Save(Some(2))), Some(("msaa", 2)));
    assert_eq!(pending, None);
    assert_eq!(select_dialog_step(&mut pending, SelectDialogEvent::Save(Some(1))), None);
}

#[test]
fn select_dialog_cancel_and_empty_save_call_nothing() {
    let mut pending: Option<u8> = None;
    select_dialog_step(&mut pending, SelectDialogEvent::Open(1));
    select_dialog_step(&mut pending, SelectDialogEvent::Open(2));
    assert_eq!(pending, Some(2));
    assert_eq!(select_dialog_step(&mut pending, SelectDialogEvent::Cancel), None);
    assert_eq!(pending, None);
    select_dialog_step(&mut pending, SelectDialogEvent::Open(3));
    assert_eq!(select_dialog_step(&mut pending, SelectDialogEvent::Save(None)), None);
    assert_eq!(pending, None);
}

#[test]
fn select_dialog_row_counts() {
    assert_eq!(select_dialog_rows(0), 0);
    assert_eq!(select_dialog_rows(1), 1);
    assert_eq!(select_dialog_rows(4), 2);
    assert_eq!(select_dialog_rows(9), 5);
}
