//! Where a run finds its inputs and templates, and where it leaves its
//! document.

use vstd::prelude::*;
use vstd::string::StringExecFns;

verus! {

/// The settings of one run.
#[derive(Clone, Debug, PartialEq, Eq)]
pub struct MenuConfig {
    /// The directory of the two event collections.
    pub properties_dir: String,
    /// The file of team events in that directory.
    pub team_event_file: String,
    /// The file of league events in that directory.
    pub league_event_file: String,
    /// The directory of the templates.
    pub templates_dir: String,
    /// The template of the whole document.
    pub top_level_template: String,
    /// The template of one team event's sub-menu.
    pub team_event_template: String,
    /// The template of one league event's sub-menu.
    pub league_event_template: String,
    /// The file that receives the document.
    pub output_file: String,
    /// The level requirement from which a team event belongs to the second
    /// group.
    pub level_split: u8,
}

/// The ending of the template files, as a pattern.
pub open spec fn template_pattern() -> Seq<char> {
    "*.vm"@
}

impl MenuConfig {
    /// Whether the settings are the customary ones.
    pub open spec fn is_standard(&self) -> bool {
        &&& self.properties_dir@ == "properties"@
        &&& self.team_event_file@ == "team_events.json"@
        &&& self.league_event_file@ == "league_events.json"@
        &&& self.templates_dir@ == "templates"@
        &&& self.top_level_template@ == "lfgmacros.vm"@
        &&& self.team_event_template@ == "task_strike_trial_lfg.vm"@
        &&& self.league_event_template@ == "league_lfg.vm"@
        &&& self.output_file@ == "lfgmacros.mnu"@
        &&& self.level_split == 36
    }

    /// The customary settings.
    pub fn standard() -> (config: MenuConfig)
        ensures
            config.is_standard(),
    {
        MenuConfig {
            properties_dir: "properties".to_owned(),
            team_event_file: "team_events.json".to_owned(),
            league_event_file: "league_events.json".to_owned(),
            templates_dir: "templates".to_owned(),
            top_level_template: "lfgmacros.vm".to_owned(),
            team_event_template: "task_strike_trial_lfg.vm".to_owned(),
            league_event_template: "league_lfg.vm".to_owned(),
            output_file: "lfgmacros.mnu".to_owned(),
            level_split: 36,
        }
    }

    /// The pattern that finds the template files: the templates' directory,
    /// the path separator of the machine, and the files' ending.
    pub fn template_glob(&self, separator: char) -> (glob: String)
        ensures
            glob@ == self.templates_dir@.push(separator) + template_pattern(),
    {
        let mut glob = self.templates_dir.clone();
        glob.push(separator);
        glob.append("*.vm");
        glob
    }
}

} // verus!
