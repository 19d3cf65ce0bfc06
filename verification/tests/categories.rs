use lfg_menus::category::{
    categorized_sections, group_by_category, CategorizedTip, TipCategory, TipSection,
};
use lfg_menus::error::MenuError;
use lfg_menus::event::Tip;
use lfg_menus::render::generate_menus;
use lfg_menus::tip_menu::{
    section_context, tagged_tip_value, tagged_tips_value, tip_section_contexts,
};
use serde_json::Value;
use tera::{Context, Tera};

const TIP_TEMPLATE: &str =
    "Menu \"{{ tip_type }} Tips\" \"{{ tip_macros }}\"{% for tip in tips %} [{{ tip.type }}/{{ tip.name }}]{% endfor %}\n";

fn tip(name: &str, content: &str) -> Tip {
    Tip { name: name.to_string(), content: content.to_string() }
}

fn general(name: &str, content: &str) -> CategorizedTip {
    CategorizedTip::General(tip(name, content))
}

fn speed(name: &str, content: &str) -> CategorizedTip {
    CategorizedTip::Speed(tip(name, content))
}

fn badge(name: &str, content: &str) -> CategorizedTip {
    CategorizedTip::Badge(tip(name, content))
}

fn text(s: &str) -> Value {
    Value::String(s.to_string())
}

fn record(fields: Vec<(&str, Value)>) -> Value {
    let mut map = serde_json::Map::new();
    for (name, value) in fields {
        map.insert(name.to_string(), value);
    }
    Value::Object(map)
}

fn generate_tip_menus(
    tera: &Tera,
    tips: Vec<CategorizedTip>,
    template: &str,
) -> Result<String, MenuError> {
    let contexts = tip_section_contexts(tips)?;
    let mut outcomes = Vec::new();
    for context in &contexts {
        outcomes.push(tera.render(template, context));
    }
    generate_menus(outcomes, template)
}

fn engine() -> Tera {
    let mut tera = Tera::default();
    tera.add_raw_template("tips.vm", TIP_TEMPLATE).unwrap();
    tera
}

fn mixed() -> Vec<CategorizedTip> {
    vec![
        badge("Cadaver Counter", "b1"),
        speed("Skip Trash", "s1"),
        general("Bring Insps", "g1"),
        badge("The Cleanser", "b2"),
        general("Stay Close", "g2"),
        speed("Stealth It", "s2"),
    ]
}

#[test]
fn labels_are_the_category_names() {
    assert_eq!(TipCategory::General.label(), "General");
    assert_eq!(TipCategory::Speed.label(), "Speed");
    assert_eq!(TipCategory::Badge.label(), "Badge");
}

#[test]
fn categorized_tip_tells_category_and_tip() {
    assert_eq!(general("A", "a").category(), TipCategory::General);
    assert_eq!(speed("A", "a").category(), TipCategory::Speed);
    assert_eq!(badge("A", "a").category(), TipCategory::Badge);
    assert_eq!(general("A", "a").tip(), &tip("A", "a"));
    assert_eq!(speed("B", "b").tip(), &tip("B", "b"));
    assert_eq!(badge("C", "c").tip(), &tip("C", "c"));
}

#[test]
fn grouping_keeps_order_within_each_category() {
    let buckets = group_by_category(mixed());
    assert_eq!(buckets.general, vec![tip("Bring Insps", "g1"), tip("Stay Close", "g2")]);
    assert_eq!(buckets.speed, vec![tip("Skip Trash", "s1"), tip("Stealth It", "s2")]);
    assert_eq!(buckets.badge, vec![tip("Cadaver Counter", "b1"), tip("The Cleanser", "b2")]);
}

#[test]
fn grouping_of_nothing_is_three_empty_buckets() {
    let buckets = group_by_category(Vec::new());
    assert!(buckets.general.is_empty());
    assert!(buckets.speed.is_empty());
    assert!(buckets.badge.is_empty());
}

#[test]
fn sections_stand_in_fixed_order() {
    let sections = categorized_sections(mixed()).unwrap();
    assert_eq!(
        sections,
        vec![
            TipSection {
                category: TipCategory::General,
                tips: vec![tip("Bring Insps", "g1"), tip("Stay Close", "g2")],
                macros: "macro BringInsps say g1$$macro StayClose say g2".to_string(),
            },
            TipSection {
                category: TipCategory::Speed,
                tips: vec![tip("Skip Trash", "s1"), tip("Stealth It", "s2")],
                macros: "macro SkipTrash say s1$$macro StealthIt say s2".to_string(),
            },
            TipSection {
                category: TipCategory::Badge,
                tips: vec![tip("Cadaver Counter", "b1"), tip("The Cleanser", "b2")],
                macros: "macro CadaverCounter say b1$$macro TheCleanser say b2".to_string(),
            },
        ]
    );
}

#[test]
fn sections_leave_out_empty_categories() {
    let sections = categorized_sections(vec![badge("B One", "b1"), general("G One", "g1")]).unwrap();
    assert_eq!(sections.len(), 2);
    assert_eq!(sections[0].category, TipCategory::General);
    assert_eq!(sections[0].macros, "macro GOne say g1");
    assert_eq!(sections[1].category, TipCategory::Badge);
    assert_eq!(sections[1].macros, "macro BOne say b1");

    let sections = categorized_sections(vec![speed("S", "s")]).unwrap();
    assert_eq!(sections.len(), 1);
    assert_eq!(sections[0].category, TipCategory::Speed);

    assert_eq!(categorized_sections(Vec::new()), Ok(Vec::new()));
}

#[test]
fn sections_refuse_blank_name_in_section_order() {
    let tips = vec![badge("\t", "b"), speed(" ", "s"), general("Fine", "g"), speed("\n", "s2")];
    assert_eq!(
        categorized_sections(tips),
        Err(MenuError::InvalidTipName { name: " ".to_string() })
    );
    let tips = vec![badge("\t", "b"), general("Fine", "g")];
    assert_eq!(
        categorized_sections(tips),
        Err(MenuError::InvalidTipName { name: "\t".to_string() })
    );
}

#[test]
fn tagged_tip_value_carries_its_category() {
    assert_eq!(
        tagged_tip_value(TipCategory::Speed, &tip("Skip Trash", "s1")),
        record(vec![("type", text("Speed")), ("name", text("Skip Trash")), ("content", text("s1"))])
    );
    assert_eq!(
        tagged_tips_value(TipCategory::Badge, &vec![tip("B", "2"), tip("A", "1")]),
        Value::Array(vec![
            record(vec![("type", text("Badge")), ("name", text("B")), ("content", text("2"))]),
            record(vec![("type", text("Badge")), ("name", text("A")), ("content", text("1"))]),
        ])
    );
}

#[test]
fn section_context_binds_label_tips_and_fragment() {
    let section = TipSection {
        category: TipCategory::General,
        tips: vec![tip("Stay Close", "g2")],
        macros: "macro StayClose say g2".to_string(),
    };
    let context = section_context(&section);
    let mut expected = Context::new();
    expected.insert("tip_type", "General");
    expected.insert("tips", &tagged_tips_value(TipCategory::General, &section.tips));
    expected.insert("tip_macros", "macro StayClose say g2");
    assert_eq!(context, expected);
    assert_eq!(context.get("tip_type"), Some(&text("General")));
}

#[test]
fn tip_block_has_sections_in_fixed_order() {
    let tera = engine();
    assert_eq!(
        generate_tip_menus(&tera, mixed(), "tips.vm"),
        Ok("Menu \"General Tips\" \"macro BringInsps say g1$$macro StayClose say g2\" [General/Bring Insps] [General/Stay Close]\nMenu \"Speed Tips\" \"macro SkipTrash say s1$$macro StealthIt say s2\" [Speed/Skip Trash] [Speed/Stealth It]\nMenu \"Badge Tips\" \"macro CadaverCounter say b1$$macro TheCleanser say b2\" [Badge/Cadaver Counter] [Badge/The Cleanser]\n".to_string())
    );
}

#[test]
fn tip_block_has_no_section_for_empty_category() {
    let tera = engine();
    let block = generate_tip_menus(&tera, vec![badge("B One", "b1"), general("G One", "g1")], "tips.vm")
        .unwrap();
    assert_eq!(
        block,
        "Menu \"General Tips\" \"macro GOne say g1\" [General/G One]\nMenu \"Badge Tips\" \"macro BOne say b1\" [Badge/B One]\n"
    );
    assert!(!block.contains("Speed"));
}

#[test]
fn tip_block_of_no_tips_is_empty() {
    let tera = engine();
    assert_eq!(generate_tip_menus(&tera, Vec::new(), "tips.vm"), Ok(String::new()));
    assert_eq!(generate_tip_menus(&tera, Vec::new(), "absent.vm"), Ok(String::new()));
}

#[test]
fn tip_block_refuses_blank_name_before_rendering() {
    let tera = engine();
    assert_eq!(
        generate_tip_menus(&tera, vec![general("ok", "g"), speed(" ", "s")], "absent.vm"),
        Err(MenuError::InvalidTipName { name: " ".to_string() })
    );
}

#[test]
fn tip_block_fails_when_template_is_unknown() {
    let tera = engine();
    let result = generate_tip_menus(&tera, vec![general("ok", "g")], "absent.vm");
    assert!(matches!(
        result,
        Err(MenuError::TemplateRenderError { ref template, .. }) if template == "absent.vm"
    ));
}

#[test]
fn section_contexts_stand_in_fixed_order() {
    let contexts = tip_section_contexts(mixed()).unwrap();
    let sections = categorized_sections(mixed()).unwrap();
    assert_eq!(contexts.len(), 3);
    for (context, section) in contexts.iter().zip(sections.iter()) {
        assert_eq!(context, &section_context(section));
    }
    assert_eq!(contexts[0].get("tip_type"), Some(&text("General")));
    assert_eq!(contexts[1].get("tip_type"), Some(&text("Speed")));
    assert_eq!(contexts[2].get("tip_type"), Some(&text("Badge")));
    assert_eq!(tip_section_contexts(Vec::new()), Ok(Vec::new()));
}
