//! The tip block of categorized tips.
//!
//! Each section of the block is rendered through a tip template, which is
//! told the section's label, its tips and their macro fragment. The rendered
//! sections are joined in the sections' order.

use vstd::prelude::*;
use crate::category::{
    categorized_sections,
    categorized_view,
    category_label,
    refused_tip_name,
    sections_view,
    tip_sections,
    CategorizedTip,
    TipCategory,
    TipSection,
    TipSectionView,
};
use crate::context::{context_bindings, context_insert, context_new, no_bindings};
use crate::error::MenuError;
use crate::event::{tips_view, Tip, TipView};
use crate::json::{
    distinct_names,
    fields_model,
    items_model,
    json_list,
    json_model,
    json_record,
    json_text,
    record_of,
    Node,
};
use crate::composer::contexts_view;

verus! {

/// A categorized tip as a template reads it: a record of its category, under
/// `type`, of its name and of its content.
pub open spec fn tagged_tip_node(category: TipCategory, tip: TipView) -> Node {
    Node::Record(
        record_of(
            seq![
                ("type"@, Node::Text(category_label(category))),
                ("name"@, Node::Text(tip.name)),
                ("content"@, Node::Text(tip.content)),
            ],
        ),
    )
}

/// The tips of one category as a template reads them.
pub open spec fn tagged_tips_node(category: TipCategory, tips: Seq<TipView>) -> Node {
    Node::List(tips.map_values(|tip: TipView| tagged_tip_node(category, tip)))
}

/// The bindings of one section: its label as `tip_type`, its tips as `tips`
/// and their macro fragment as `tip_macros`.
pub open spec fn section_bindings(section: TipSectionView) -> Map<Seq<char>, Node> {
    no_bindings().insert("tip_type"@, Node::Text(category_label(section.category))).insert(
        "tips"@,
        tagged_tips_node(section.category, section.tips),
    ).insert("tip_macros"@, Node::Text(section.macros))
}

/// The JSON value of a tip of the given category.
pub fn tagged_tip_value(category: TipCategory, tip: &Tip) -> (value: serde_json::Value)
    ensures
        json_model(value) == tagged_tip_node(category, tip@),
{
    let mut fields: Vec<(String, serde_json::Value)> = Vec::new();
    fields.push(("type".to_owned(), json_text(category.label())));
    fields.push(("name".to_owned(), json_text(tip.name.clone())));
    fields.push(("content".to_owned(), json_text(tip.content.clone())));
    proof {
        assert(fields_model(fields@) =~= seq![
            ("type"@, Node::Text(category_label(category))),
            ("name"@, Node::Text(tip@.name)),
            ("content"@, Node::Text(tip@.content)),
        ]);
        reveal_strlit("type");
        reveal_strlit("name");
        reveal_strlit("content");
        assert("type"@[0] != "name"@[0]);
        assert("type"@.len() != "content"@.len());
        assert(distinct_names(fields_model(fields@)));
    }
    json_record(fields)
}

/// The JSON value of the tips of one category.
pub fn tagged_tips_value(category: TipCategory, tips: &Vec<Tip>) -> (value: serde_json::Value)
    ensures
        json_model(value) == tagged_tips_node(category, tips_view(tips@)),
{
    let ghost all = tips_view(tips@);
    let mut items: Vec<serde_json::Value> = Vec::new();
    let mut i: usize = 0;
    while i < tips.len()
        invariant
            i <= tips.len(),
            all == tips_view(tips@),
            items.len() == i,
            forall|k: int|
                0 <= k < i ==> json_model(#[trigger] items@[k]) == tagged_tip_node(category, all[k]),
        decreases tips.len() - i,
    {
        items.push(tagged_tip_value(category, &tips[i]));
        i += 1;
    }
    proof {
        assert(items_model(items@) =~= all.map_values(
            |tip: TipView| tagged_tip_node(category, tip),
        ));
    }
    json_list(items)
}

/// The bindings for one section.
pub fn section_context(section: &TipSection) -> (context: tera::Context)
    ensures
        context_bindings(context) == section_bindings(section@),
{
    let mut context = context_new();
    context_insert(&mut context, "tip_type", &json_text(section.category.label()));
    context_insert(&mut context, "tips", &tagged_tips_value(section.category, &section.tips));
    context_insert(&mut context, "tip_macros", &json_text(section.macros.clone()));
    context
}

/// What the bindings of a list of sections are, in the list's order.
pub open spec fn sections_bindings(sections: Seq<TipSectionView>) -> Seq<Map<Seq<char>, Node>> {
    sections.map_values(|section: TipSectionView| section_bindings(section))
}

/// The bindings of the tip block of categorized tips: one set for each
/// category that has tips, in the order General, Speed, Badge. A tip without
/// a usable name is refused. The rendered sections are joined as the
/// sub-menus of a group are.
pub fn tip_section_contexts(tips: Vec<CategorizedTip>) -> (result: Result<Vec<tera::Context>, MenuError>)
    ensures
        match refused_tip_name(categorized_view(tips@)) {
            Some(bad_name) => result matches Err(MenuError::InvalidTipName { name }) && name@
                == bad_name,
            None => result matches Ok(contexts) && contexts_view(contexts@) == sections_bindings(
                tip_sections(categorized_view(tips@)),
            ),
        },
{
    let sections = categorized_sections(tips)?;
    let ghost all = sections_view(sections@);
    let mut contexts: Vec<tera::Context> = Vec::new();
    let mut i: usize = 0;
    while i < sections.len()
        invariant
            i <= sections.len(),
            all == sections_view(sections@),
            contexts.len() == i,
            forall|k: int|
                0 <= k < i ==> context_bindings(#[trigger] contexts@[k]) == section_bindings(all[k]),
        decreases sections.len() - i,
    {
        assert(all[i as int] == sections@[i as int]@);
        contexts.push(section_context(&sections[i]));
        i += 1;
    }
    proof {
        assert(contexts_view(contexts@) =~= sections_bindings(all));
    }
    Ok(contexts)
}

} // verus!
