use fnv::{FnvHashMap, FnvHashSet};
use hachimi::il2cpp::hook::UnityEngine_TextRenderingModule::TextGenerator::{
    decide_text_generation, drain_pending_offsets, escape_line_breaks, find_child_by_name, find_font_override,
    find_text_property_override, get_hierarchy_path, get_hierarchy_path_with_fallback, init,
    mark_as_system_text_component, parse_text_filter, pending_offset_action,
    plan_text_generation, position_offset_request, select_source_text, split_sibling_names,
    DumpedPaths, FilterArg, IgnoreTGFiltersContext, OffsetAction, PendingOffset, PendingOffsets,
    SourceText, SystemTextComponents, TemplateContext, TextFilter, TextGenerationSettings,
    TextPropertyOverrides, TEXT_OVERFLOW_ALLOW, TEXT_OVERFLOW_WRAP,
};

fn base_settings() -> TextGenerationSettings {
    TextGenerationSettings {
        font_size: 24,
        line_spacing: 1.0f32.to_bits(),
        horizontal_overflow: TEXT_OVERFLOW_ALLOW,
        vertical_overflow: 0,
        resize_text_for_best_fit: false,
        resize_text_min_size: 10,
        resize_text_max_size: 40,
        update_bounds: false,
        generate_out_of_bounds: false,
        align_by_geometry: false,
        generation_extents_x: 100.0f32.to_bits(),
        generation_extents_y: 50.0f32.to_bits(),
        rich_text: true,
        scale_factor: 1.0f32.to_bits(),
        font_style: 0,
        text_anchor: 4,
        pivot_x: 0.5f32.to_bits(),
        pivot_y: 0.5f32.to_bits(),
    }
}

fn names(list: &[&str]) -> Vec<String> {
    list.iter().map(|s| s.to_string()).collect()
}

#[test]
fn font_override_exact_path_wins() {
    let mut m: FnvHashMap<String, i32> = FnvHashMap::default();
    m.insert("Canvas/Panel/Text".to_string(), 30);
    m.insert("/Panel/Text".to_string(), 20);
    assert_eq!(find_font_override(&m, "Canvas/Panel/Text"), Some(30));
}

#[test]
fn font_override_suffix_pattern() {
    let mut m: FnvHashMap<String, i32> = FnvHashMap::default();
    m.insert("/Panel/Text".to_string(), 20);
    assert_eq!(find_font_override(&m, "Root/Canvas/Panel/Text"), Some(20));
    assert_eq!(find_font_override(&m, "Root/Canvas/Panel/Label"), None);
}

#[test]
fn font_override_key_without_slash_is_not_a_pattern() {
    let mut m: FnvHashMap<String, i32> = FnvHashMap::default();
    m.insert("Panel/Text".to_string(), 20);
    assert_eq!(find_font_override(&m, "Root/Panel/Text"), None);
    let empty: FnvHashMap<String, i32> = FnvHashMap::default();
    assert_eq!(find_font_override(&empty, "Root/Panel/Text"), None);
}

#[test]
fn text_property_override_lookup() {
    let mut m: FnvHashMap<String, TextPropertyOverrides> = FnvHashMap::default();
    let mut p = TextPropertyOverrides::default();
    p.font_size = Some(18);
    m.insert("/Message/Text".to_string(), p);
    let found = find_text_property_override(&m, "Dialog/Message/Text");
    assert_eq!(found.map(|p| p.font_size), Some(Some(18)));
    assert!(find_text_property_override(&m, "Dialog/Message/Title").is_none());
}

#[test]
fn filters_parse_with_their_arguments() {
    assert_eq!(parse_text_filter("nb", FilterArg::Missing), Some(TextFilter::NoBreak));
    assert_eq!(parse_text_filter("anchor", FilterArg::Number(1, 0x3ff0000000000000)), Some(TextFilter::Anchor(0)));
    assert_eq!(parse_text_filter("anchor", FilterArg::Number(9, 0x4022000000000000)), Some(TextFilter::Anchor(8)));
    assert_eq!(parse_text_filter("anchor", FilterArg::Number(0, 0x0)), None);
    assert_eq!(parse_text_filter("anchor", FilterArg::Number(10, 0x4024000000000000)), None);
    assert_eq!(parse_text_filter("anchor", FilterArg::Number(i32::MIN, 0xc1e0000000000000)), None);
    assert_eq!(parse_text_filter("anchor", FilterArg::NotNumber), None);
    assert_eq!(parse_text_filter("scale", FilterArg::Number(150, 0x4062c00000000000)), Some(TextFilter::Scale(0x4062c00000000000)));
    assert_eq!(parse_text_filter("scale", FilterArg::Missing), None);
    assert_eq!(parse_text_filter("ho", FilterArg::Number(1, 0x3ff0000000000000)), Some(TextFilter::HorizontalOverflow(1)));
    assert_eq!(parse_text_filter("ho", FilterArg::Number(2, 0x4000000000000000)), None);
    assert_eq!(parse_text_filter("vo", FilterArg::Number(0, 0x0)), Some(TextFilter::VerticalOverflow(0)));
    assert_eq!(parse_text_filter("ls", FilterArg::Number(1, 0x3ff0000000000000)), Some(TextFilter::LineSpacing(0x3ff0000000000000)));
    assert_eq!(parse_text_filter("ub", FilterArg::Missing), Some(TextFilter::UpdateBounds));
    assert_eq!(parse_text_filter("bf", FilterArg::Missing), Some(TextFilter::BestFit));
    assert_eq!(parse_text_filter("bestfit", FilterArg::Missing), Some(TextFilter::BestFit));
    assert_eq!(parse_text_filter("min", FilterArg::Number(12, 0x4028000000000000)), Some(TextFilter::MinSize(12)));
    assert_eq!(parse_text_filter("max", FilterArg::Number(48, 0x4048000000000000)), Some(TextFilter::MaxSize(48)));
    assert_eq!(parse_text_filter("max", FilterArg::NotNumber), None);
    assert_eq!(parse_text_filter("oob", FilterArg::Missing), Some(TextFilter::OutOfBounds));
    assert_eq!(parse_text_filter("bold", FilterArg::Missing), None);
}

#[test]
fn template_context_applies_filters() {
    let mut ctx = TemplateContext { settings: base_settings(), float_step: None };
    assert_eq!(ctx.on_filter_eval("nb", &[]), Some(String::new()));
    assert_eq!(ctx.settings.horizontal_overflow, TEXT_OVERFLOW_ALLOW);
    assert!(ctx.settings.generate_out_of_bounds);
    assert_eq!(ctx.on_filter_eval("anchor", &[FilterArg::Number(3, 0x4008000000000000)]), Some(String::new()));
    assert_eq!(ctx.settings.text_anchor, 2);
    assert_eq!(ctx.on_filter_eval("min", &[FilterArg::Number(8, 0x4020000000000000), FilterArg::Number(99, 0x4058c00000000000)]), Some(String::new()));
    assert_eq!(ctx.settings.resize_text_min_size, 8);
    let before = ctx.settings;
    assert_eq!(ctx.on_filter_eval("ho", &[FilterArg::Number(5, 0x4014000000000000)]), None);
    assert_eq!(ctx.on_filter_eval("unknown", &[]), None);
    assert_eq!(ctx.settings, before);
    assert_eq!(ctx.float_step, None);
    assert_eq!(ctx.on_filter_eval("scale", &[FilterArg::Number(50, 0x4049000000000000)]), Some(String::new()));
    assert_eq!(ctx.settings, before);
    assert_eq!(ctx.float_step, Some(TextFilter::Scale(0x4049000000000000)));
    assert_eq!(ctx.on_filter_eval("ls", &[FilterArg::Number(0, 0.75f64.to_bits())]), Some(String::new()));
    assert_eq!(ctx.settings, before);
    assert_eq!(ctx.float_step, Some(TextFilter::LineSpacing(0.75f64.to_bits())));
    assert_eq!(ctx.on_filter_eval("ub", &[]), Some(String::new()));
    assert_eq!(ctx.float_step, None);
    assert_eq!(
        parse_text_filter("scale", FilterArg::Number(50, 50.0f64.to_bits())),
        Some(TextFilter::Scale(50.0f64.to_bits()))
    );
    assert_eq!(
        parse_text_filter("ls", FilterArg::Number(0, 0.75f64.to_bits())),
        Some(TextFilter::LineSpacing(0.75f64.to_bits()))
    );
}

#[test]
fn ignoring_context_accepts_the_same_names() {
    let mut ignore = IgnoreTGFiltersContext();
    for name in ["nb", "anchor", "scale", "ho", "vo", "ls", "ub", "bf", "bestfit", "min", "max", "oob"] {
        assert_eq!(ignore.on_filter_eval(name, &[]), Some(String::new()));
        assert!(parse_text_filter(name, FilterArg::Number(1, 0x3ff0000000000000)).is_some());
    }
    assert_eq!(ignore.on_filter_eval("color", &[]), None);
}

#[test]
fn force_wrap_rules() {
    let mut c = SystemTextComponents::new();
    assert!(!c.should_force_wrap(false, Some(5), None));
    assert!(c.should_force_wrap(true, None, None));
    mark_as_system_text_component(&mut c, 5, Some(7));
    assert!(c.contains(5) && c.contains(7));
    assert!(c.should_force_wrap(false, Some(5), None));
    assert!(c.should_force_wrap(false, Some(7), Some(1)));
    assert!(!c.should_force_wrap(false, Some(1), Some(5)));
    assert!(c.should_force_wrap(false, None, Some(5)));
    assert!(!c.should_force_wrap(false, None, None));
}

#[test]
fn each_path_is_dumped_once() {
    let mut d = DumpedPaths::new();
    assert!(d.should_dump("Canvas/Text"));
    assert!(!d.should_dump("Canvas/Text"));
    assert!(d.should_dump("Canvas/Title"));
    let _unused: FnvHashSet<i32> = FnvHashSet::default();
}

#[test]
fn source_text_selection() {
    let s = select_source_text(Some("Hello $name".to_string()), false, "orig").unwrap();
    assert_eq!(s.text, "Hello $name");
    assert!(s.has_template);
    let s = select_source_text(Some("Hello".to_string()), true, "orig $x").unwrap();
    assert_eq!(s.text, "Hello");
    assert!(!s.has_template);
    let s = select_source_text(None, true, "orig $x").unwrap();
    assert_eq!(s.text, "orig $x");
    assert!(s.has_template);
    assert!(select_source_text(None, true, "plain").is_none());
    assert!(select_source_text(None, false, "orig $x").is_none());
}

#[test]
fn plan_applies_fixed_layout_and_overrides() {
    let fonts: FnvHashMap<String, i32> = FnvHashMap::default();
    let props: FnvHashMap<String, TextPropertyOverrides> = FnvHashMap::default();
    let mut s = base_settings();
    let plan = plan_text_generation(&mut s, None, false, "Root/PartsCharaMessage/Text", &fonts, &props);
    assert_eq!(s.horizontal_overflow, TEXT_OVERFLOW_WRAP);
    assert_eq!(s.vertical_overflow, TEXT_OVERFLOW_ALLOW);
    assert_eq!(s.resize_text_max_size, 30);
    assert!(plan.source.is_none() && plan.position_offset.is_none());

    let mut s = base_settings();
    plan_text_generation(&mut s, None, true, "Root/Text", &fonts, &props);
    assert_eq!(s.horizontal_overflow, TEXT_OVERFLOW_WRAP);
    assert_eq!(s.resize_text_max_size, 40);

    let mut s = base_settings();
    plan_text_generation(&mut s, None, false, "Root/Text", &fonts, &props);
    assert_eq!(s, base_settings());
}

#[test]
fn plan_property_overrides_follow_font_override() {
    let mut fonts: FnvHashMap<String, i32> = FnvHashMap::default();
    fonts.insert("/Text".to_string(), 30);
    let mut props: FnvHashMap<String, TextPropertyOverrides> = FnvHashMap::default();
    let mut p = TextPropertyOverrides::default();
    p.font_size = Some(18);
    p.line_spacing = Some(1.25f32.to_bits());
    p.text_override = Some("Override $x".to_string());
    p.position_offset_y = Some(4.0f32.to_bits());
    p.position_target_ancestor = Some(2);
    props.insert("Root/Text".to_string(), p);
    let mut s = base_settings();
    let source = Some(SourceText { text: "orig".to_string(), has_template: false });
    let plan = plan_text_generation(&mut s, source, false, "Root/Text", &fonts, &props);
    assert_eq!(s.font_size, 18);
    assert_eq!(s.line_spacing, 1.25f32.to_bits());
    let src = plan.source.unwrap();
    assert_eq!(src.text, "Override $x");
    assert!(src.has_template);
    let off = plan.position_offset.unwrap();
    assert_eq!(off.offset_x, 0);
    assert_eq!(off.offset_y, 4.0f32.to_bits());
    assert_eq!(off.target_ancestor, 2);
    assert!(off.sibling_name.is_none());

    let mut s = base_settings();
    let plan = plan_text_generation(&mut s, None, false, "Other/Text", &fonts, &props);
    assert_eq!(s.font_size, 30);
    assert!(plan.source.is_none());
}

#[test]
fn position_offset_only_when_asked() {
    let p = TextPropertyOverrides::default();
    assert!(position_offset_request(&p).is_none());
    let mut p = TextPropertyOverrides::default();
    p.sibling_name = Some("Icon, Badge".to_string());
    p.sibling_offset_x = Some(3.0f32.to_bits());
    let r = position_offset_request(&p).unwrap();
    assert_eq!(r.sibling_name.as_deref(), Some("Icon, Badge"));
    assert_eq!(r.sibling_offset_x, 3.0f32.to_bits());
    assert_eq!(r.offset_x, 0);
    assert_eq!(r.target_ancestor, 0);
}

#[test]
fn hierarchy_paths() {
    assert_eq!(get_hierarchy_path(None), "None");
    assert_eq!(get_hierarchy_path(Some(&Vec::new())), "Unknown");
    assert_eq!(get_hierarchy_path(Some(&names(&["Text"]))), "Text");
    assert_eq!(get_hierarchy_path(Some(&names(&["Text", "Panel", "Canvas"]))), "Canvas/Panel/Text");
    let ctx = names(&["Label", "Root"]);
    let fb = names(&["Gen"]);
    assert_eq!(get_hierarchy_path_with_fallback(Some(&ctx), Some(&fb)), "Root/Label");
    assert_eq!(get_hierarchy_path_with_fallback(None, Some(&fb)), "Gen");
    assert_eq!(get_hierarchy_path_with_fallback(Some(&Vec::new()), Some(&fb)), "Gen");
    assert_eq!(get_hierarchy_path_with_fallback(None, None), "None");
}

#[test]
fn sibling_names_split_and_trimmed() {
    assert_eq!(split_sibling_names(" Icon , ,Badge,, Star "), names(&["Icon", "Badge", "Star"]));
    assert_eq!(split_sibling_names(""), Vec::<String>::new());
    assert_eq!(split_sibling_names("\u{3000}Wide\u{3000}"), names(&["Wide"]));
    assert_eq!(split_sibling_names("a b"), names(&["a b"]));
}

#[test]
fn child_found_by_name() {
    let children = vec![None, Some("Icon".to_string()), Some("Badge".to_string()), Some("Icon".to_string())];
    assert_eq!(find_child_by_name(&children, "Icon"), Some(1));
    assert_eq!(find_child_by_name(&children, "Badge"), Some(2));
    assert_eq!(find_child_by_name(&children, "Star"), None);
}

#[test]
fn pending_offsets_drain_in_order() {
    let mut q = PendingOffsets::new();
    assert!(q.is_empty());
    for t in [10usize, 20, 30] {
        q.push(PendingOffset {
            transform: t,
            offset_x: 0,
            offset_y: 0,
            sibling_name: None,
            sibling_offset_x: 0,
            sibling_offset_y: 0,
        });
    }
    let drained = drain_pending_offsets(&mut q);
    assert_eq!(drained.iter().map(|p| p.transform).collect::<Vec<_>>(), vec![10, 20, 30]);
    assert!(q.is_empty());
    assert!(drain_pending_offsets(&mut q).is_empty());
}

#[test]
fn pending_offset_actions() {
    let mut p = PendingOffset {
        transform: 0,
        offset_x: 1.0f32.to_bits(),
        offset_y: 0,
        sibling_name: None,
        sibling_offset_x: 0,
        sibling_offset_y: 0,
    };
    assert_eq!(pending_offset_action(&p, true), OffsetAction::Skip);
    p.transform = 64;
    assert_eq!(pending_offset_action(&p, false), OffsetAction::ForgetDead);
    assert_eq!(pending_offset_action(&p, true), OffsetAction::Apply { move_siblings: false, move_self: true });
    p.offset_x = (-0.0f32).to_bits();
    assert_eq!(pending_offset_action(&p, true), OffsetAction::Apply { move_siblings: false, move_self: false });
    p.offset_y = f32::NAN.to_bits();
    p.sibling_name = Some("Icon".to_string());
    assert_eq!(pending_offset_action(&p, true), OffsetAction::Apply { move_siblings: true, move_self: true });
}

#[test]
fn generation_log_is_one_line() {
    assert_eq!(escape_line_breaks("a\nb\r\nc"), "a\\nb\\r\\nc");
    assert_eq!(escape_line_breaks("plain"), "plain");
}

#[test]
fn text_generator_hook_plan() {
    let plan = init();
    assert_eq!(plan.namespace, "UnityEngine");
    assert_eq!(plan.class_name, "TextGenerator");
    assert_eq!(plan.hooks.len(), 1);
    assert_eq!(plan.hooks[0].method, "PopulateWithErrors");
    assert_eq!(plan.hooks[0].arg_count, 3);
}

#[test]
fn generation_decisions_in_order() {
    let fonts: FnvHashMap<String, i32> = FnvHashMap::default();
    let mut props: FnvHashMap<String, TextPropertyOverrides> = FnvHashMap::default();
    let mut p = TextPropertyOverrides::default();
    p.max_size = Some(22);
    props.insert("/Label".to_string(), p);
    let mut components = SystemTextComponents::new();
    mark_as_system_text_component(&mut components, 7, None);
    let mut dumped = DumpedPaths::new();

    let mut s = base_settings();
    let d = decide_text_generation(
        &mut s, None, true, "$(nb)Hi", 36, &components, false, Some(7), None, "Root/Label",
        &fonts, &props, &mut dumped, true, true,
    );
    assert_eq!(s.font_size, 36);
    assert_eq!(s.horizontal_overflow, TEXT_OVERFLOW_WRAP);
    assert_eq!(s.resize_text_max_size, 22);
    let src = d.plan.source.unwrap();
    assert_eq!(src.text, "$(nb)Hi");
    assert!(src.has_template);
    assert!(d.dump_properties);

    let mut s = base_settings();
    let d = decide_text_generation(
        &mut s, Some("Hello".to_string()), true, "x", 24, &components, false, Some(1), None,
        "Root/Label", &fonts, &props, &mut dumped, true, true,
    );
    assert!(!d.dump_properties);
    assert_eq!(s.horizontal_overflow, TEXT_OVERFLOW_ALLOW);
    assert_eq!(d.plan.source.unwrap().text, "Hello");

    let mut s = base_settings();
    let d = decide_text_generation(
        &mut s, None, false, "plain", 24, &components, false, None, None, "Root/Other",
        &fonts, &props, &mut dumped, false, true,
    );
    assert!(!d.dump_properties);
    assert!(d.plan.source.is_none());
    assert_eq!(s, base_settings());
    let mut s = base_settings();
    let d = decide_text_generation(
        &mut s, None, false, "plain", 24, &components, false, None, None, "Root/Other",
        &fonts, &props, &mut dumped, true, true,
    );
    assert!(d.dump_properties);
}
