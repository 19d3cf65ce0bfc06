//! Tips by category.
//!
//! Where tips are categorized, each tip is a general hint, a hint for speed
//! runs or a hint for a badge. Such tips are shown in up to three sections,
//! always in that order, each with the macro fragment of its own tips. A
//! category without tips has no section.

use vstd::prelude::*;
use crate::error::MenuError;
use crate::event::{tips_view, Tip, TipView};
use crate::order::{kept_places, lemma_filter_keeps_order, stands_in_order};
use crate::tip_macro::{
    all_names_valid,
    first_invalid,
    format_tip_macros,
    formatted,
    lemma_first_invalid,
    macro_fragment,
};

verus! {

/// The category of a tip.
#[derive(Clone, Copy, Debug, PartialEq, Eq, Structural)]
pub enum TipCategory {
    General,
    Speed,
    Badge,
}

/// A tip with its category.
#[derive(Clone, Debug, PartialEq, Eq)]
pub enum CategorizedTip {
    General(Tip),
    Speed(Tip),
    Badge(Tip),
}

/// What a categorized tip holds, as plain values.
pub struct CategorizedTipView {
    pub category: TipCategory,
    pub tip: TipView,
}

impl View for CategorizedTip {
    type V = CategorizedTipView;

    open spec fn view(&self) -> CategorizedTipView {
        match *self {
            CategorizedTip::General(tip) => CategorizedTipView {
                category: TipCategory::General,
                tip: tip@,
            },
            CategorizedTip::Speed(tip) => CategorizedTipView {
                category: TipCategory::Speed,
                tip: tip@,
            },
            CategorizedTip::Badge(tip) => CategorizedTipView {
                category: TipCategory::Badge,
                tip: tip@,
            },
        }
    }
}

/// The categorized tips of a list, each by what it holds.
pub open spec fn categorized_view(tips: Seq<CategorizedTip>) -> Seq<CategorizedTipView> {
    tips.map_values(|tip: CategorizedTip| tip@)
}

/// The label of a category: its name.
pub open spec fn category_label(category: TipCategory) -> Seq<char> {
    match category {
        TipCategory::General => "General"@,
        TipCategory::Speed => "Speed"@,
        TipCategory::Badge => "Badge"@,
    }
}

/// The place of a category in the fixed order of the sections.
pub open spec fn category_rank(category: TipCategory) -> int {
    match category {
        TipCategory::General => 0,
        TipCategory::Speed => 1,
        TipCategory::Badge => 2,
    }
}

/// The categorized tips of one category, in their order.
pub open spec fn of_category(tips: Seq<CategorizedTipView>, category: TipCategory) -> Seq<
    CategorizedTipView,
> {
    tips.filter(|tip: CategorizedTipView| tip.category == category)
}

/// The tips of one category, in their order.
pub open spec fn bucket(tips: Seq<CategorizedTipView>, category: TipCategory) -> Seq<TipView> {
    of_category(tips, category).map_values(|tip: CategorizedTipView| tip.tip)
}

/// The tips of a list sorted into the three categories.
#[derive(Clone, Debug, PartialEq, Eq)]
pub struct TipBuckets {
    pub general: Vec<Tip>,
    pub speed: Vec<Tip>,
    pub badge: Vec<Tip>,
}

/// One section of a tip block: a category, its tips and their macro
/// fragment.
#[derive(Clone, Debug, PartialEq, Eq)]
pub struct TipSection {
    pub category: TipCategory,
    pub tips: Vec<Tip>,
    pub macros: String,
}

/// What a section holds, as plain values.
pub struct TipSectionView {
    pub category: TipCategory,
    pub tips: Seq<TipView>,
    pub macros: Seq<char>,
}

impl View for TipSection {
    type V = TipSectionView;

    open spec fn view(&self) -> TipSectionView {
        TipSectionView {
            category: self.category,
            tips: tips_view(self.tips@),
            macros: self.macros@,
        }
    }
}

/// The sections of a list, each by what it holds.
pub open spec fn sections_view(sections: Seq<TipSection>) -> Seq<TipSectionView> {
    sections.map_values(|section: TipSection| section@)
}

/// The section of one category: none when the category has no tips.
pub open spec fn section_of(tips: Seq<CategorizedTipView>, category: TipCategory) -> Seq<
    TipSectionView,
> {
    if bucket(tips, category).len() == 0 {
        Seq::empty()
    } else {
        seq![
            TipSectionView {
                category,
                tips: bucket(tips, category),
                macros: macro_fragment(bucket(tips, category)),
            },
        ]
    }
}

/// The sections of a tip block: General, then Speed, then Badge, without the
/// empty ones.
pub open spec fn tip_sections(tips: Seq<CategorizedTipView>) -> Seq<TipSectionView> {
    section_of(tips, TipCategory::General) + section_of(tips, TipCategory::Speed) + section_of(
        tips,
        TipCategory::Badge,
    )
}

/// The first unusable tip name of a categorized list, the categories taken in
/// the order of the sections; or nothing when every name is usable.
pub open spec fn refused_tip_name(tips: Seq<CategorizedTipView>) -> Option<Seq<char>> {
    let general = bucket(tips, TipCategory::General);
    let speed = bucket(tips, TipCategory::Speed);
    let badge = bucket(tips, TipCategory::Badge);
    if !all_names_valid(general) {
        Some(general[first_invalid(general)].name)
    } else if !all_names_valid(speed) {
        Some(speed[first_invalid(speed)].name)
    } else if !all_names_valid(badge) {
        Some(badge[first_invalid(badge)].name)
    } else {
        None
    }
}

/// The sections stand in the fixed order General, Speed, Badge and none is
/// empty; a category has a section exactly when it has a tip; each section
/// holds the tips of its own category and no others, in the order in which
/// the input has them.
pub proof fn lemma_sections_grouped(tips: Seq<CategorizedTipView>)
    ensures
        forall|i: int, j: int|
            0 <= i < j < tip_sections(tips).len() ==> category_rank(
                #[trigger] tip_sections(tips)[i].category,
            ) < category_rank(#[trigger] tip_sections(tips)[j].category),
        forall|i: int|
            0 <= i < tip_sections(tips).len() ==> (#[trigger] tip_sections(tips)[i]).tips.len() > 0,
        forall|i: int|
            0 <= i < tip_sections(tips).len() ==> (#[trigger] tip_sections(tips)[i]).tips == bucket(
                tips,
                tip_sections(tips)[i].category,
            ),
        forall|i: int|
            0 <= i < tip_sections(tips).len() ==> (#[trigger] tip_sections(tips)[i]).macros
                == macro_fragment(bucket(tips, tip_sections(tips)[i].category)),
        forall|category: TipCategory|
            bucket(tips, category).len() > 0 <==> exists|i: int|
                0 <= i < tip_sections(tips).len() && (#[trigger] tip_sections(tips)[i]).category
                    == category,
        forall|category: TipCategory, k: int|
            0 <= k < of_category(tips, category).len() ==> (#[trigger] of_category(
                tips,
                category,
            )[k]).category == category,
        forall|category: TipCategory|
            exists|places: Seq<int>|
                stands_in_order(#[trigger] of_category(tips, category), tips, places),
{
    let general = section_of(tips, TipCategory::General);
    let speed = section_of(tips, TipCategory::Speed);
    let badge = section_of(tips, TipCategory::Badge);
    let sections = tip_sections(tips);
    assert forall|category: TipCategory|
        bucket(tips, category).len() > 0 <==> exists|i: int|
            0 <= i < sections.len() && (#[trigger] sections[i]).category == category by {
        if bucket(tips, category).len() > 0 {
            let place = match category {
                TipCategory::General => 0,
                TipCategory::Speed => general.len() as int,
                TipCategory::Badge => (general.len() + speed.len()) as int,
            };
            assert(sections[place].category == category);
        }
    }
    assert forall|category: TipCategory, k: int|
        0 <= k < of_category(tips, category).len() implies (#[trigger] of_category(
        tips,
        category,
    )[k]).category == category by {
        tips.lemma_filter_pred(|tip: CategorizedTipView| tip.category == category, k);
    }
    assert forall|category: TipCategory|
        exists|places: Seq<int>|
            stands_in_order(#[trigger] of_category(tips, category), tips, places) by {
        let keep = |tip: CategorizedTipView| tip.category == category;
        lemma_filter_keeps_order(tips, keep);
        assert(stands_in_order(of_category(tips, category), tips, kept_places(tips, keep)));
    }
}

impl TipCategory {
    /// The label of the category.
    pub fn label(&self) -> (label: String)
        ensures
            label@ == category_label(*self),
    {
        match self {
            TipCategory::General => "General".to_owned(),
            TipCategory::Speed => "Speed".to_owned(),
            TipCategory::Badge => "Badge".to_owned(),
        }
    }
}

impl CategorizedTip {
    /// The category of the tip.
    pub fn category(&self) -> (category: TipCategory)
        ensures
            category == self@.category,
    {
        match self {
            CategorizedTip::General(_) => TipCategory::General,
            CategorizedTip::Speed(_) => TipCategory::Speed,
            CategorizedTip::Badge(_) => TipCategory::Badge,
        }
    }

    /// The tip without its category.
    pub fn tip(&self) -> (tip: &Tip)
        ensures
            tip@ == self@.tip,
    {
        match self {
            CategorizedTip::General(tip) => tip,
            CategorizedTip::Speed(tip) => tip,
            CategorizedTip::Badge(tip) => tip,
        }
    }
}

proof fn lemma_bucket_push(done: Seq<CategorizedTipView>, next: CategorizedTipView, category: TipCategory)
    ensures
        bucket(done.push(next), category) == if next.category == category {
            bucket(done, category).push(next.tip)
        } else {
            bucket(done, category)
        },
{
    let keep = |tip: CategorizedTipView| tip.category == category;
    done.lemma_filter_push(next, keep);
    if next.category == category {
        assert(bucket(done.push(next), category) =~= bucket(done, category).push(next.tip));
    }
}

/// Sorts tips into the three categories. Each category keeps its tips in the
/// order of the input.
pub fn group_by_category(tips: Vec<CategorizedTip>) -> (buckets: TipBuckets)
    ensures
        tips_view(buckets.general@) == bucket(categorized_view(tips@), TipCategory::General),
        tips_view(buckets.speed@) == bucket(categorized_view(tips@), TipCategory::Speed),
        tips_view(buckets.badge@) == bucket(categorized_view(tips@), TipCategory::Badge),
{
    broadcast use vstd::std_specs::vec::group_vec_axioms;

    let ghost all = categorized_view(tips@);
    let ghost given = tips@;
    let mut general: Vec<Tip> = Vec::new();
    let mut speed: Vec<Tip> = Vec::new();
    let mut badge: Vec<Tip> = Vec::new();
    proof {
        reveal(Seq::filter);
        assert(bucket(all.take(0), TipCategory::General) =~= Seq::<TipView>::empty());
        assert(bucket(all.take(0), TipCategory::Speed) =~= Seq::<TipView>::empty());
        assert(bucket(all.take(0), TipCategory::Badge) =~= Seq::<TipView>::empty());
        assert(tips_view(general@) =~= Seq::<TipView>::empty());
    }
    for tip in it: tips.into_iter()
        invariant
            it.seq() == given,
            all == categorized_view(given),
            tips_view(general@) == bucket(all.take(it.index()), TipCategory::General),
            tips_view(speed@) == bucket(all.take(it.index()), TipCategory::Speed),
            tips_view(badge@) == bucket(all.take(it.index()), TipCategory::Badge),
    {
        proof {
            let done = all.take(it.index());
            assert(all.take(it.index() + 1) =~= done.push(tip@));
            lemma_bucket_push(done, tip@, TipCategory::General);
            lemma_bucket_push(done, tip@, TipCategory::Speed);
            lemma_bucket_push(done, tip@, TipCategory::Badge);
        }
        match tip {
            CategorizedTip::General(tip) => {
                assert(tips_view(general@.push(tip)) =~= tips_view(general@).push(tip@));
                general.push(tip);
            },
            CategorizedTip::Speed(tip) => {
                assert(tips_view(speed@.push(tip)) =~= tips_view(speed@).push(tip@));
                speed.push(tip);
            },
            CategorizedTip::Badge(tip) => {
                assert(tips_view(badge@.push(tip)) =~= tips_view(badge@).push(tip@));
                badge.push(tip);
            },
        }
    }
    proof {
        assert(all.take(all.len() as int) =~= all);
    }
    TipBuckets { general, speed, badge }
}

/// Adds the section of one category to the sections made so far, unless the
/// category has no tips.
fn push_section(
    sections: &mut Vec<TipSection>,
    category: TipCategory,
    tips: Vec<Tip>,
    Ghost(all): Ghost<Seq<CategorizedTipView>>,
) -> (result: Result<(), MenuError>)
    requires
        tips_view(tips@) == bucket(all, category),
    ensures
        match formatted(bucket(all, category)) {
            Ok(_) => result is Ok && sections_view(final(sections)@) == sections_view(
                old(sections)@,
            ) + section_of(all, category),
            Err(bad_name) => result matches Err(MenuError::InvalidTipName { name }) && name@
                == bad_name,
        },
{
    if tips.len() == 0 {
        assert(sections_view(sections@) + section_of(all, category) =~= sections_view(sections@));
        return Ok(());
    }
    let macros = format_tip_macros(&tips)?;
    let section = TipSection { category, tips, macros };
    proof {
        assert(sections_view(sections@.push(section)) =~= sections_view(sections@) + section_of(
            all,
            category,
        ));
    }
    sections.push(section);
    Ok(())
}

/// Groups categorized tips into the sections of a tip block: General, then
/// Speed, then Badge, each with its tips in the order of the input and with
/// their macro fragment; a category without tips is left out. A name without
/// an identifier ends the grouping.
pub fn categorized_sections(tips: Vec<CategorizedTip>) -> (result: Result<Vec<TipSection>, MenuError>)
    ensures
        match refused_tip_name(categorized_view(tips@)) {
            None => result matches Ok(sections) && sections_view(sections@) == tip_sections(
                categorized_view(tips@),
            ),
            Some(bad_name) => result matches Err(MenuError::InvalidTipName { name }) && name@
                == bad_name,
        },
{
    let ghost all = categorized_view(tips@);
    let buckets = group_by_category(tips);
    let mut sections: Vec<TipSection> = Vec::new();
    proof {
        assert(sections_view(sections@) =~= Seq::<TipSectionView>::empty());
        lemma_first_invalid(bucket(all, TipCategory::General));
        lemma_first_invalid(bucket(all, TipCategory::Speed));
        lemma_first_invalid(bucket(all, TipCategory::Badge));
    }
    push_section(&mut sections, TipCategory::General, buckets.general, Ghost(all))?;
    push_section(&mut sections, TipCategory::Speed, buckets.speed, Ghost(all))?;
    push_section(&mut sections, TipCategory::Badge, buckets.badge, Ghost(all))?;
    proof {
        assert(sections_view(sections@) =~= tip_sections(all));
    }
    Ok(sections)
}

} // verus!
