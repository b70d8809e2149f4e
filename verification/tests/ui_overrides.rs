use hachimi::il2cpp::hook::umamusume::CharacterHomeTopUIController::{
    button_text_slot, collect_text_components, is_enhancement_menu_name, plan_button_texts,
    should_apply_button_overrides,
};
use hachimi::il2cpp::hook::umamusume::CharacterHomeTopUIController::init as home_init;
use hachimi::il2cpp::hook::umamusume::PartsGachaButtonController::{
    find_main_label, plan_gacha_button, select_gacha_button_config, GachaButtonsOverride,
    TextLabel, TextSetSnapshot,
};
use hachimi::il2cpp::hook::umamusume::PartsGachaButtonController::init as gacha_init;
use hachimi::il2cpp::hook::umamusume::StoryChoiceButton::{
    choice_text_layout, ChoiceTextLayout, StoryChoiceMultiLineConfig, DEFAULT_LINE_SPACE_BITS,
};
use hachimi::il2cpp::hook::umamusume::TextFrame::{
    initialize_text_label, reapply_line_spacing_if_tracked, register_text_frame, TextFrameTracker,
};
use hachimi::il2cpp::hook::umamusume::ui_config::{PositionMemo, UITextConfig};

fn text_config(text: &str) -> UITextConfig {
    let mut c = UITextConfig::default();
    c.text = Some(text.to_string());
    c
}

fn set(id: usize, active: bool, labels: Option<Vec<(usize, bool)>>) -> TextSetSnapshot {
    TextSetSnapshot {
        id,
        active,
        labels: labels.map(|l| l.into_iter().map(|(id, active)| TextLabel { id, active }).collect()),
    }
}

#[test]
fn text_frame_registered_once() {
    let mut t = TextFrameTracker::new();
    assert!(register_text_frame(&mut t, 0x1000, 7));
    assert!(!register_text_frame(&mut t, 0x1000, 8));
    assert!(register_text_frame(&mut t, 0x2000, 9));
}

#[test]
fn line_spacing_reapplied_only_for_tracked_labels() {
    let mut t = TextFrameTracker::new();
    assert_eq!(reapply_line_spacing_if_tracked(&t, 0x50), None);
    initialize_text_label(&mut t, 0x1000, 0x50, 1.5f32.to_bits());
    assert_eq!(reapply_line_spacing_if_tracked(&t, 0x50), Some(1.5f32.to_bits()));
    assert_eq!(reapply_line_spacing_if_tracked(&t, 0x60), None);
    initialize_text_label(&mut t, 0x1000, 0x50, 2.0f32.to_bits());
    assert_eq!(reapply_line_spacing_if_tracked(&t, 0x50), Some(2.0f32.to_bits()));
}

#[test]
fn enhancement_menu_detection() {
    assert!(is_enhancement_menu_name("umamusume_button"));
    assert!(!is_enhancement_menu_name("story_umamusume"));
    assert!(!is_enhancement_menu_name("card_button"));
    assert!(should_apply_button_overrides(true, Some("UmaMusumeRoot")));
    assert!(!should_apply_button_overrides(true, Some("GachaUmamusume")));
    assert!(!should_apply_button_overrides(true, Some("SupportCard")));
    assert!(should_apply_button_overrides(true, None));
    assert!(!should_apply_button_overrides(false, Some("umamusume")));
    assert!(!should_apply_button_overrides(false, None));
}

#[test]
fn text_components_each_once() {
    assert_eq!(collect_text_components(5, Some(&vec![7, 5, 9, 7])), vec![5, 7, 9]);
    assert_eq!(collect_text_components(0, Some(&vec![7, 7, 0, 0])), vec![7, 0]);
    assert_eq!(collect_text_components(5, None), vec![5]);
    assert_eq!(collect_text_components(0, None), Vec::<usize>::new());
}

#[test]
fn second_component_takes_second_text() {
    let mut c = text_config("first");
    c.text2 = Some("second".to_string());
    c.position_offset_x = Some(1.0f32.to_bits());
    c.position_offset_y2 = Some(2.0f32.to_bits());
    let s0 = button_text_slot(&c, 0);
    assert_eq!(s0.text.as_deref(), Some("first"));
    assert_eq!(s0.offset_x, Some(1.0f32.to_bits()));
    assert_eq!(s0.offset_y, None);
    let s1 = button_text_slot(&c, 1);
    assert_eq!(s1.text.as_deref(), Some("second"));
    assert_eq!(s1.offset_x, None);
    assert_eq!(s1.offset_y, Some(2.0f32.to_bits()));
    let s2 = button_text_slot(&c, 2);
    assert_eq!(s2.text.as_deref(), Some("first"));
}

#[test]
fn base_position_recorded_once() {
    let mut m = PositionMemo::new();
    let first = (10.0f32.to_bits(), 20.0f32.to_bits());
    let moved = (15.0f32.to_bits(), 20.0f32.to_bits());
    assert_eq!(m.base_position(0x77, first), first);
    assert_eq!(m.base_position(0x77, moved), first);
    assert_eq!(m.base_position(0x78, moved), moved);
}

#[test]
fn gacha_config_priority() {
    let mut o = GachaButtonsOverride::default();
    o.gacha_button_daily = Some(text_config("daily"));
    o.gacha_button_paid = Some(text_config("paid"));
    o.gacha_button_10 = Some(text_config("ten"));
    o.gacha_button_1 = Some(text_config("one"));
    let pick = |d, f, p, n| select_gacha_button_config(d, f, p, n, Some(&o)).and_then(|c| c.text.clone());
    assert_eq!(pick(true, true, true, 10), Some("daily".to_string()));
    assert_eq!(pick(false, true, true, 10), Some("paid".to_string()));
    assert_eq!(pick(false, true, false, 10), Some("ten".to_string()));
    assert_eq!(pick(false, false, false, 1), Some("one".to_string()));
    assert_eq!(pick(false, false, false, 5), None);
    assert_eq!(pick(false, false, false, 7), None);
    assert!(select_gacha_button_config(true, false, false, 10, None).is_none());
}

#[test]
fn gacha_main_label_search() {
    let text_set = set(100, true, Some(vec![(0, true), (11, false), (12, true)]));
    let daily_set = set(200, true, Some(vec![(21, true)]));
    assert_eq!(find_main_label(false, &text_set, &daily_set, 0), 12);
    assert_eq!(find_main_label(true, &text_set, &daily_set, 0), 21);
    let hidden = set(100, false, Some(vec![(11, true)]));
    let none = set(0, true, None);
    assert_eq!(find_main_label(false, &hidden, &none, 33), 33);
    assert_eq!(find_main_label(false, &hidden, &none, 0), 11);
    assert_eq!(find_main_label(false, &none, &none, 0), 0);
}

#[test]
fn gacha_plan_blanks_other_labels() {
    let text_set = set(100, true, Some(vec![(11, true), (12, true)]));
    let daily_set = set(200, false, Some(vec![(21, true), (0, true)]));
    let mut c = text_config("10-pull");
    c.font_size = Some(28);
    c.position_offset_x = Some(3.0f32.to_bits());
    let plan = plan_gacha_button(&c, false, &text_set, &daily_set, 0);
    assert_eq!(plan.main_label, 11);
    assert_eq!(plan.main_text.as_deref(), Some("10-pull"));
    assert_eq!(plan.blanked_labels, vec![12, 21]);
    assert_eq!(plan.font_size, Some(28));
    assert!(plan.move_sets);

    let mut c = UITextConfig::default();
    c.font_size = Some(20);
    let plan = plan_gacha_button(&c, false, &text_set, &daily_set, 0);
    assert!(plan.main_text.is_none());
    assert!(plan.blanked_labels.is_empty());
    assert!(!plan.move_sets);

    let none = set(0, false, None);
    let plan = plan_gacha_button(&text_config("x"), false, &none, &none, 0);
    assert_eq!(plan.main_label, 0);
    assert!(plan.main_text.is_none() && plan.font_size.is_none());
}

#[test]
fn story_choice_layouts() {
    let c = StoryChoiceMultiLineConfig {
        line_spacing: Some(0.9f32.to_bits()),
        position_offset_x: None,
        position_offset_y: Some(12.0f32.to_bits()),
    };
    assert_eq!(choice_text_layout("one\ntwo", None), None);
    assert_eq!(
        choice_text_layout("one\ntwo", Some(c)),
        Some(ChoiceTextLayout { line_space: Some(0.9f32.to_bits()), offset_x: 0, offset_y: 12.0f32.to_bits() })
    );
    assert_eq!(
        choice_text_layout("single", Some(c)),
        Some(ChoiceTextLayout { line_space: Some(DEFAULT_LINE_SPACE_BITS), offset_x: 0, offset_y: 0 })
    );
    assert_eq!(DEFAULT_LINE_SPACE_BITS, 0.772f32.to_bits());
}

#[test]
fn ui_hook_plans() {
    let p = home_init();
    assert_eq!((p.namespace, p.class_name), ("Gallop", "CharacterHomeTopUI"));
    assert_eq!(p.hooks.len(), 1);
    assert_eq!((p.hooks[0].method, p.hooks[0].arg_count), ("UpdateView", 0));
    let p = gacha_init();
    assert_eq!((p.namespace, p.class_name), ("Gallop", "PartsGachaButton"));
    assert_eq!(p.hooks.len(), 2);
    assert_eq!((p.hooks[0].method, p.hooks[0].arg_count), ("Initialize", 8));
    assert_eq!((p.hooks[1].method, p.hooks[1].arg_count), ("SetButtonText", 0));
}

#[test]
fn button_plan_per_component() {
    let mut c = text_config("first");
    c.text2 = None;
    c.font_size = Some(28);
    c.line_spacing = Some(0.9f32.to_bits());
    c.position_offset_y = Some(4.0f32.to_bits());
    let plan = plan_button_texts(&c, &vec![11, 12, 13]);
    assert_eq!(plan.len(), 3);
    assert_eq!(plan[0].component, 11);
    assert_eq!(plan[0].text.as_deref(), Some("first"));
    assert!(plan[0].moves);
    assert_eq!(plan[0].offset_x, None);
    assert_eq!(plan[1].text, None);
    assert!(!plan[1].moves);
    assert_eq!(plan[2].component, 13);
    assert_eq!(plan[2].text.as_deref(), Some("first"));
    for p in &plan {
        assert_eq!(p.font_size, Some(28));
        assert_eq!(p.line_spacing, Some(0.9f32.to_bits()));
    }
    assert!(plan_button_texts(&c, &vec![]).is_empty());
}
