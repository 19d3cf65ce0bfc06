//! Composing the menu document.
//!
//! Each event becomes a sub-menu: its bindings are worked out here, the
//! bindings are rendered through the group's template, and the rendered blocks
//! of a group are joined in the order of its events. The three groups are then
//! bound, as text, into the top-level template. The consumer's menu format
//! has no way to include one menu in another, so the nesting is made before
//! the last rendering, inner fragments first.
//!
//! A run is planned in full before anything is rendered: every input is
//! checked, and each group is handed out with the name under which its block
//! is bound, the template of its sub-menus and the bindings of each of them.

use vstd::prelude::*;
use crate::config::MenuConfig;
use crate::context::{context_bindings, context_insert, context_new, no_bindings};
use crate::error::MenuError;
use crate::event::{events_view, GroupEvent, GroupEventView};
use crate::json::{json_text, Node};
use crate::load::{collection_of, load_json_data};
use crate::order::{all_pass, first_failing, lemma_first_failing_is};
use crate::partition::{
    high_views,
    lemma_team_events_views,
    low_views,
    only_team_events,
    partition_by_level,
};
use crate::record::{event_node, event_value, tips_node, tips_value};
use crate::render::{all_rendered, generate_menus, joined, outcome_texts};
use crate::tip_macro::{
    all_names_valid,
    first_invalid,
    format_tip_macros,
    formatted,
    lemma_first_invalid,
    macro_fragment,
};

verus! {

/// The bindings of an event's sub-menu. The event itself is always bound, as
/// `content`. Its tips and their macro fragment are bound, as `tips` and
/// `tip_macros`, only when there is at least one tip.
pub open spec fn event_bindings(event: GroupEventView) -> Map<Seq<char>, Node> {
    let always = no_bindings().insert("content"@, event_node(event));
    if event.tips().len() == 0 {
        always
    } else {
        always.insert("tips"@, tips_node(event.tips())).insert(
            "tip_macros"@,
            Node::Text(macro_fragment(event.tips())),
        )
    }
}

/// The bindings of the top-level menu: the three rendered groups, each bound
/// as text.
pub open spec fn top_level_bindings(
    group_one: Seq<char>,
    group_two: Seq<char>,
    league_events: Seq<char>,
) -> Map<Seq<char>, Node> {
    no_bindings().insert("group_one"@, Node::Text(group_one)).insert(
        "group_two"@,
        Node::Text(group_two),
    ).insert("league_events"@, Node::Text(league_events))
}

/// Every event of the list has only tips with usable names.
pub open spec fn all_tips_usable(events: Seq<GroupEventView>) -> bool {
    all_pass(events, |event: GroupEventView| all_names_valid(event.tips()))
}

/// The first unusable tip name of the list: that of the first event that has
/// one, and in it of the first such tip.
pub open spec fn first_unusable_name(events: Seq<GroupEventView>) -> Seq<char> {
    let event = events[first_failing(
        events,
        |event: GroupEventView| all_names_valid(event.tips()),
    )];
    event.tips()[first_invalid(event.tips())].name
}

/// An event without tips binds nothing that concerns tips: `content` is its
/// only binding. An event with tips binds all three names.
pub proof fn lemma_tip_bindings_only_with_tips(event: GroupEventView)
    ensures
        event_bindings(event).dom().contains("content"@),
        event.tips().len() == 0 ==> event_bindings(event).dom() =~= set!["content"@],
        event.tips().len() > 0 ==> event_bindings(event).dom() =~= set![
            "content"@,
            "tips"@,
            "tip_macros"@,
        ],
        event.tips().len() == 0 <==> !event_bindings(event).dom().contains("tips"@),
        event.tips().len() == 0 <==> !event_bindings(event).dom().contains("tip_macros"@),
{
    reveal_strlit("content");
    reveal_strlit("tips");
    reveal_strlit("tip_macros");
    assert("content"@ != "tips"@) by {
        assert("content"@.len() != "tips"@.len());
    }
    assert("content"@ != "tip_macros"@) by {
        assert("content"@.len() != "tip_macros"@.len());
    }
}

/// The bindings for one event's sub-menu, or the failure that one of its
/// tips has no usable name.
pub fn event_context(event: &GroupEvent) -> (result: Result<tera::Context, MenuError>)
    ensures
        match formatted(event@.tips()) {
            Ok(_) => result matches Ok(context) && context_bindings(context) == event_bindings(
                event@,
            ),
            Err(bad_name) => result matches Err(MenuError::InvalidTipName { name }) && name@
                == bad_name,
        },
{
    let tips = event.get_tips();
    let tip_macros = format_tip_macros(tips)?;
    let mut context = context_new();
    context_insert(&mut context, "content", &event_value(event));
    if tips.len() > 0 {
        context_insert(&mut context, "tips", &tips_value(tips));
        context_insert(&mut context, "tip_macros", &json_text(tip_macros));
    }
    Ok(context)
}

/// What the bindings of a list of contexts are, in the list's order.
pub open spec fn contexts_view(contexts: Seq<tera::Context>) -> Seq<Map<Seq<char>, Node>> {
    contexts.map_values(|context: tera::Context| context_bindings(context))
}

/// The bindings of the sub-menus of a list of events, in the list's order.
pub open spec fn events_bindings(events: Seq<GroupEventView>) -> Seq<Map<Seq<char>, Node>> {
    events.map_values(|event: GroupEventView| event_bindings(event))
}

/// The bindings of each event of a group, in the group's order, or the
/// failure that some tip has no usable name.
pub fn event_contexts(events: &Vec<GroupEvent>) -> (result: Result<Vec<tera::Context>, MenuError>)
    ensures
        all_tips_usable(events_view(events@)) ==> (result matches Ok(contexts) && contexts_view(
            contexts@,
        ) == events_bindings(events_view(events@))),
        !all_tips_usable(events_view(events@)) ==> (result matches Err(
            MenuError::InvalidTipName { name },
        ) && name@ == first_unusable_name(events_view(events@))),
{
    let ghost all = events_view(events@);
    let ghost usable = |event: GroupEventView| all_names_valid(event.tips());
    let mut contexts: Vec<tera::Context> = Vec::new();
    let mut i: usize = 0;
    while i < events.len()
        invariant
            i <= events.len(),
            all == events_view(events@),
            usable == (|event: GroupEventView| all_names_valid(event.tips())),
            contexts.len() == i,
            forall|k: int| 0 <= k < i ==> usable(#[trigger] all[k]),
            forall|k: int|
                0 <= k < i ==> context_bindings(#[trigger] contexts@[k]) == event_bindings(all[k]),
        decreases events.len() - i,
    {
        proof {
            assert(all[i as int] == events@[i as int]@);
            lemma_first_invalid(all[i as int].tips());
        }
        match event_context(&events[i]) {
            Ok(context) => {
                contexts.push(context);
            },
            Err(error) => {
                proof {
                    lemma_first_failing_is(all, usable, i as int);
                }
                return Err(error);
            },
        }
        i += 1;
    }
    proof {
        assert(all_pass(all, usable));
        assert(contexts_view(contexts@) =~= events_bindings(all));
    }
    Ok(contexts)
}

/// One group of a run, ready to be rendered.
#[derive(Clone, Debug, PartialEq)]
pub struct MenuGroup {
    /// The name under which the group's rendered block is bound in the
    /// top-level menu.
    pub binding: String,
    /// The template of the group's sub-menus.
    pub template: String,
    /// The bindings of each sub-menu, in the order of the group's events.
    pub contexts: Vec<tera::Context>,
}

/// What a group holds, as plain values.
pub struct MenuGroupView {
    pub binding: Seq<char>,
    pub template: Seq<char>,
    pub bindings: Seq<Map<Seq<char>, Node>>,
}

impl View for MenuGroup {
    type V = MenuGroupView;

    open spec fn view(&self) -> MenuGroupView {
        MenuGroupView {
            binding: self.binding@,
            template: self.template@,
            bindings: contexts_view(self.contexts@),
        }
    }
}

/// The groups of a list, each by what it holds.
pub open spec fn groups_view(groups: Seq<MenuGroup>) -> Seq<MenuGroupView> {
    groups.map_values(|group: MenuGroup| group@)
}

/// The three groups of a run, in the order in which the document shows
/// them. The team events below the configured level are bound as
/// `group_one`, those at or above it as `group_two`, both rendered through
/// the team template; the league events are bound as `league_events` and
/// rendered through the league template.
pub open spec fn planned_groups(
    team_events: Seq<GroupEventView>,
    league_events: Seq<GroupEventView>,
    config: MenuConfig,
) -> Seq<MenuGroupView> {
    seq![
        MenuGroupView {
            binding: "group_one"@,
            template: config.team_event_template@,
            bindings: events_bindings(low_views(team_events, config.level_split)),
        },
        MenuGroupView {
            binding: "group_two"@,
            template: config.team_event_template@,
            bindings: events_bindings(high_views(team_events, config.level_split)),
        },
        MenuGroupView {
            binding: "league_events"@,
            template: config.league_event_template@,
            bindings: events_bindings(league_events),
        },
    ]
}

/// The first unusable tip name among the three groups of a run, the groups
/// taken in the order low, high, league; or nothing when every name is
/// usable.
pub open spec fn refused_name(
    low: Seq<GroupEventView>,
    high: Seq<GroupEventView>,
    league: Seq<GroupEventView>,
) -> Option<Seq<char>> {
    if !all_tips_usable(low) {
        Some(first_unusable_name(low))
    } else if !all_tips_usable(high) {
        Some(first_unusable_name(high))
    } else if !all_tips_usable(league) {
        Some(first_unusable_name(league))
    } else {
        None
    }
}

/// What is owed of the plan of a run over the given events. A league event
/// among the team events is refused first; then a tip without a usable name,
/// the groups taken in the order low, high, league. Any other events give
/// the three groups of the run.
pub open spec fn planned(
    team_events: Seq<GroupEventView>,
    league_events: Seq<GroupEventView>,
    config: MenuConfig,
    result: Result<Vec<MenuGroup>, MenuError>,
) -> bool {
    if !only_team_events(team_events) {
        result matches Err(MenuError::InvalidVariant)
    } else {
        match refused_name(
            low_views(team_events, config.level_split),
            high_views(team_events, config.level_split),
            league_events,
        ) {
            Some(bad_name) => result matches Err(MenuError::InvalidTipName { name }) && name@
                == bad_name,
            None => result matches Ok(groups) && groups_view(groups@) == planned_groups(
                team_events,
                league_events,
                config,
            ),
        }
    }
}

/// Makes one group from its events.
pub fn menu_group(binding: &str, template: &str, events: &Vec<GroupEvent>) -> (result: Result<
    MenuGroup,
    MenuError,
>)
    ensures
        all_tips_usable(events_view(events@)) ==> (result matches Ok(group) && group@ == (
        MenuGroupView {
            binding: binding@,
            template: template@,
            bindings: events_bindings(events_view(events@)),
        })),
        !all_tips_usable(events_view(events@)) ==> (result matches Err(
            MenuError::InvalidTipName { name },
        ) && name@ == first_unusable_name(events_view(events@))),
{
    let contexts = event_contexts(events)?;
    Ok(MenuGroup { binding: binding.to_owned(), template: template.to_owned(), contexts })
}

/// Plans a run: splits the team events at the configured level and works out
/// the three groups with the bindings of every sub-menu. Nothing is left to
/// check once the plan stands: from then on a run can only fail in a
/// template.
pub fn plan_groups(
    team_events: Vec<GroupEvent>,
    league_events: Vec<GroupEvent>,
    config: &MenuConfig,
) -> (result: Result<Vec<MenuGroup>, MenuError>)
    ensures
        planned(events_view(team_events@), events_view(league_events@), *config, result),
{
    proof {
        lemma_team_events_views(team_events@);
    }
    let (low, high) = partition_by_level(team_events, config.level_split)?;
    let group_one = menu_group("group_one", config.team_event_template.as_str(), &low)?;
    let group_two = menu_group("group_two", config.team_event_template.as_str(), &high)?;
    let league = menu_group("league_events", config.league_event_template.as_str(), &league_events)?;
    let mut groups: Vec<MenuGroup> = Vec::new();
    groups.push(group_one);
    groups.push(group_two);
    groups.push(league);
    proof {
        assert(groups_view(groups@) =~= planned_groups(
            events_view(team_events@),
            events_view(league_events@),
            *config,
        ));
    }
    Ok(groups)
}

/// Plans a run from the texts of the two event collections. Both collections
/// are loaded, the team events first, before anything else is done: a text
/// that is no well-formed collection ends the run at once.
pub fn plan_document(team_text: &str, league_text: &str, config: &MenuConfig) -> (result: Result<
    Vec<MenuGroup>,
    MenuError,
>)
    ensures
        match (collection_of(team_text@), collection_of(league_text@)) {
            (Some(team_events), Some(league_events)) => planned(
                team_events,
                league_events,
                *config,
                result,
            ),
            _ => result matches Err(MenuError::LoadError { .. }),
        },
{
    let team_events = load_json_data(team_text)?;
    let league_events = load_json_data(league_text)?;
    plan_groups(team_events, league_events, config)
}

/// The rendered block of one group, with the name under which it is bound.
#[derive(Clone, Debug, PartialEq, Eq)]
pub struct MenuBlock {
    pub binding: String,
    pub text: String,
}

/// What a block holds, as plain text.
pub struct MenuBlockView {
    pub binding: Seq<char>,
    pub text: Seq<char>,
}

impl View for MenuBlock {
    type V = MenuBlockView;

    open spec fn view(&self) -> MenuBlockView {
        MenuBlockView { binding: self.binding@, text: self.text@ }
    }
}

impl MenuGroup {
    /// The block of this group, from the outcomes of rendering its sub-menus
    /// in their order: the rendered texts joined, under the group's name. A
    /// failed rendering fails the group, in the name of the group's template.
    pub fn block(&self, outcomes: Vec<Result<String, tera::Error>>) -> (result: Result<
        MenuBlock,
        MenuError,
    >)
        ensures
            all_rendered(outcome_texts(outcomes@)) ==> (result matches Ok(block) && block@ == (
            MenuBlockView { binding: self.binding@, text: joined(outcome_texts(outcomes@)) })),
            !all_rendered(outcome_texts(outcomes@)) ==> (result matches Err(
                MenuError::TemplateRenderError { template, .. },
            ) && template@ == self.template@),
    {
        let text = generate_menus(outcomes, self.template.as_str())?;
        Ok(MenuBlock { binding: self.binding.clone(), text })
    }
}

/// The blocks of a list, each by what it holds.
pub open spec fn blocks_view(blocks: Seq<MenuBlock>) -> Seq<MenuBlockView> {
    blocks.map_values(|block: MenuBlock| block@)
}

/// The bindings of the top-level menu: each block bound under its name, as
/// text that is taken as it is.
pub open spec fn block_bindings(blocks: Seq<MenuBlockView>) -> Map<Seq<char>, Node>
    decreases blocks.len(),
{
    if blocks.len() == 0 {
        no_bindings()
    } else {
        block_bindings(blocks.drop_last()).insert(
            blocks.last().binding,
            Node::Text(blocks.last().text),
        )
    }
}

/// The blocks of the three groups of a run give the top-level menu its three
/// bindings: the low group as `group_one`, the high group as `group_two`, the
/// league events as `league_events`.
pub proof fn lemma_three_blocks(group_one: Seq<char>, group_two: Seq<char>, league_events: Seq<char>)
    ensures
        block_bindings(
            seq![
                MenuBlockView { binding: "group_one"@, text: group_one },
                MenuBlockView { binding: "group_two"@, text: group_two },
                MenuBlockView { binding: "league_events"@, text: league_events },
            ],
        ) == top_level_bindings(group_one, group_two, league_events),
{
    let three = seq![
        MenuBlockView { binding: "group_one"@, text: group_one },
        MenuBlockView { binding: "group_two"@, text: group_two },
        MenuBlockView { binding: "league_events"@, text: league_events },
    ];
    let two = seq![
        MenuBlockView { binding: "group_one"@, text: group_one },
        MenuBlockView { binding: "group_two"@, text: group_two },
    ];
    let one = seq![MenuBlockView { binding: "group_one"@, text: group_one }];
    assert(three.drop_last() =~= two);
    assert(two.drop_last() =~= one);
    assert(one.drop_last() =~= Seq::<MenuBlockView>::empty());
    assert(block_bindings(one.drop_last()) == no_bindings());
    assert(block_bindings(one) == no_bindings().insert("group_one"@, Node::Text(group_one)));
    assert(block_bindings(two) == block_bindings(one).insert(
        "group_two"@,
        Node::Text(group_two),
    ));
    assert(block_bindings(three) == block_bindings(two).insert(
        "league_events"@,
        Node::Text(league_events),
    ));
}

/// The bindings for the top-level menu.
pub fn top_level_context(blocks: &Vec<MenuBlock>) -> (context: tera::Context)
    ensures
        context_bindings(context) == block_bindings(blocks_view(blocks@)),
{
    let ghost all = blocks_view(blocks@);
    let mut context = context_new();
    let mut i: usize = 0;
    assert(all.take(0) =~= Seq::<MenuBlockView>::empty());
    while i < blocks.len()
        invariant
            i <= blocks.len(),
            all == blocks_view(blocks@),
            context_bindings(context) == block_bindings(all.take(i as int)),
        decreases blocks.len() - i,
    {
        proof {
            assert(all.take(i + 1).drop_last() =~= all.take(i as int));
            assert(all.take(i + 1).last() == blocks@[i as int]@);
        }
        context_insert(&mut context, blocks[i].binding.as_str(), &json_text(blocks[i].text.clone()));
        i += 1;
    }
    proof {
        assert(all.take(all.len() as int) =~= all);
    }
    context
}

} // verus!
