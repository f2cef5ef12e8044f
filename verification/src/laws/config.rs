//! What holds of loading a configuration.

use crate::config::{config_path, load, Config, ConfigError, ConfigFile, LoadError, TabV};
use crate::laws::text::{lemma_decimal_reads_back, number_in, well_written};
use crate::text::white_space;
use vstd::prelude::*;

verus! {

/// Whether there is a text with something to see in it.
pub open spec fn says_something(s: Option<Seq<char>>) -> bool {
    s matches Some(text) && exists|i: int|
        0 <= i < text.len() && !white_space(#[trigger] text[i])
}

/// Whether the tab names what its kind needs: a project for runs, a log group for a log.
pub open spec fn complete(tab: TabV) -> bool {
    ||| tab.kind == "builds"@ && says_something(tab.project)
    ||| tab.kind == "logs"@ && says_something(tab.log_group)
}

/// The two kinds have different names.
pub proof fn lemma_kinds_differ()
    ensures
        "builds"@ != "logs"@,
{
    reveal_strlit("builds");
    reveal_strlit("logs");
    assert("builds"@.len() != "logs"@.len());
}

/// A tab has no error just where it is complete.
pub proof fn lemma_complete_tab_has_no_error(tab: TabV, index: int)
    ensures
        tab.error(index) is None <==> complete(tab),
{
    lemma_kinds_differ();
}

/// A configuration is accepted just where it has a tab and all its tabs are complete, whatever else
/// they hold.
pub proof fn law_complete_config_is_accepted(cfg: &Config, checked: Result<(), ConfigError>)
    requires
        call_ensures(Config::validate, (cfg,), checked),
    ensures
        checked is Ok <==> cfg.tabs.len() > 0 && forall|i: int|
            0 <= i < cfg.tabs.len() ==> complete((#[trigger] cfg.tabs[i])@),
{
    assert forall|i: int| 0 <= i < cfg.tabs.len() implies (complete((#[trigger] cfg.tabs[i])@)
        <==> cfg@.tabs[i].error(i) is None) by {
        lemma_complete_tab_has_no_error(cfg.tabs[i]@, i);
    }
    if cfg.tabs.len() > 0 && forall|i: int|
        0 <= i < cfg.tabs.len() ==> complete((#[trigger] cfg.tabs[i])@) {
        assert forall|i: int| 0 <= i < cfg@.tabs.len() implies (#[trigger] cfg@.tabs[i]).error(
            i,
        ) is None by {
            assert(complete(cfg.tabs[i]@));
        }
    }
    if cfg@.valid() {
        assert forall|i: int| 0 <= i < cfg.tabs.len() implies complete(
            (#[trigger] cfg.tabs[i])@,
        ) by {
            assert(cfg@.tabs[i].error(i) is None);
        }
    }
}

/// Two configurations that agree on the kinds, the projects and the log groups of their tabs are
/// both accepted or both rejected: names, regions, streams and the interval play no part.
pub proof fn law_other_fields_play_no_part(
    a: &Config,
    b: &Config,
    of_a: Result<(), ConfigError>,
    of_b: Result<(), ConfigError>,
)
    requires
        call_ensures(Config::validate, (a,), of_a),
        call_ensures(Config::validate, (b,), of_b),
        a.tabs.len() == b.tabs.len(),
        forall|i: int|
            0 <= i < a.tabs.len() ==> {
                &&& (#[trigger] a.tabs[i])@.kind == b.tabs[i]@.kind
                &&& a.tabs[i]@.project == b.tabs[i]@.project
                &&& a.tabs[i]@.log_group == b.tabs[i]@.log_group
            },
    ensures
        of_a is Ok <==> of_b is Ok,
{
    law_complete_config_is_accepted(a, of_a);
    law_complete_config_is_accepted(b, of_b);
    assert forall|i: int| 0 <= i < a.tabs.len() implies (complete((#[trigger] a.tabs[i])@)
        <==> complete(b.tabs[i]@)) by {}
    assert forall|i: int| 0 <= i < b.tabs.len() implies (complete((#[trigger] b.tabs[i])@)
        <==> complete(a.tabs[i]@)) by {
        assert(complete(a.tabs[i]@) <==> complete(b.tabs[i]@));
    }
}

/// A rejection tells of the first tab that is not complete: its place, its name, and what it lacks.
pub proof fn law_rejection_tells_of_first_incomplete_tab(cfg: &Config, e: ConfigError)
    requires
        call_ensures(Config::validate, (cfg,), Err::<(), ConfigError>(e)),
    ensures
        match e {
            ConfigError::NoTabs => cfg.tabs.len() == 0,
            ConfigError::UnknownKind { index, name, kind } => {
                &&& index < cfg.tabs.len()
                &&& name@ == cfg.tabs[index as int].name@
                &&& kind@ == cfg.tabs[index as int].kind@
                &&& kind@ != "builds"@
                &&& kind@ != "logs"@
                &&& forall|j: int| 0 <= j < index ==> complete((#[trigger] cfg.tabs[j])@)
            },
            ConfigError::MissingProject { index, name } => {
                &&& index < cfg.tabs.len()
                &&& name@ == cfg.tabs[index as int].name@
                &&& cfg.tabs[index as int].kind@ == "builds"@
                &&& !says_something(cfg.tabs[index as int].project.deep_view())
                &&& forall|j: int| 0 <= j < index ==> complete((#[trigger] cfg.tabs[j])@)
            },
            ConfigError::MissingLogGroup { index, name } => {
                &&& index < cfg.tabs.len()
                &&& name@ == cfg.tabs[index as int].name@
                &&& cfg.tabs[index as int].kind@ == "logs"@
                &&& !says_something(cfg.tabs[index as int].log_group.deep_view())
                &&& forall|j: int| 0 <= j < index ==> complete((#[trigger] cfg.tabs[j])@)
            },
        },
{
    lemma_kinds_differ();
    if cfg.tabs.len() > 0 {
        let i = choose|i: int| cfg@.first_error_at(i, e@);
        assert(cfg@.tabs[i] == cfg.tabs[i]@);
        assert forall|j: int| 0 <= j < i implies complete((#[trigger] cfg.tabs[j])@) by {
            assert(cfg@.tabs[j].error(j) is None);
            lemma_complete_tab_has_no_error(cfg.tabs[j]@, j);
        }
    }
}

/// The sentence of a rejection gives the place of the tab, counted from zero, its name, and what it
/// lacks.
pub proof fn law_rejection_is_told(e: &ConfigError, text: String)
    requires
        call_ensures(ConfigError::message, (e,), text),
    ensures
        match *e {
            ConfigError::NoTabs => text@ == "config: at least one [[tabs]] entry required"@,
            ConfigError::UnknownKind { index, name, kind } => exists|place: Seq<char>|
                {
                    &&& #[trigger] well_written(place)
                    &&& number_in(place) == index
                    &&& text@ == "tab #"@ + place + " ("@ + name@
                        + "): kind must be `builds` or `logs`, got `"@ + kind@ + "`"@
                },
            ConfigError::MissingProject { index, name } => exists|place: Seq<char>|
                {
                    &&& #[trigger] well_written(place)
                    &&& number_in(place) == index
                    &&& text@ == "tab #"@ + place + " ("@ + name@
                        + "): `project` is required for kind `builds`"@
                },
            ConfigError::MissingLogGroup { index, name } => exists|place: Seq<char>|
                {
                    &&& #[trigger] well_written(place)
                    &&& number_in(place) == index
                    &&& text@ == "tab #"@ + place + " ("@ + name@
                        + "): `log_group` is required for kind `logs`"@
                },
        },
{
    match *e {
        ConfigError::NoTabs => {},
        ConfigError::UnknownKind { index, .. } => lemma_decimal_reads_back(index as nat),
        ConfigError::MissingProject { index, .. } => lemma_decimal_reads_back(index as nat),
        ConfigError::MissingLogGroup { index, .. } => lemma_decimal_reads_back(index as nat),
    }
}

/// A configuration that was found is gone on with, unchanged, just where it has a tab and all its
/// tabs are complete.
pub proof fn law_complete_config_is_loaded(
    path: &str,
    cfg: Config,
    loaded: Result<Config, LoadError>,
)
    requires
        call_ensures(load, (path, ConfigFile::Parsed(cfg)), loaded),
    ensures
        loaded is Ok <==> cfg.tabs.len() > 0 && forall|i: int|
            0 <= i < cfg.tabs.len() ==> complete((#[trigger] cfg.tabs[i])@),
        loaded matches Ok(found) ==> found == cfg,
        loaded matches Err(e) ==> e is Invalid,
{
    assert forall|i: int| 0 <= i < cfg.tabs.len() implies (complete((#[trigger] cfg.tabs[i])@)
        <==> cfg@.tabs[i].error(i) is None) by {
        lemma_complete_tab_has_no_error(cfg.tabs[i]@, i);
    }
    if cfg.tabs.len() > 0 && forall|i: int|
        0 <= i < cfg.tabs.len() ==> complete((#[trigger] cfg.tabs[i])@) {
        assert forall|i: int| 0 <= i < cfg@.tabs.len() implies (#[trigger] cfg@.tabs[i]).error(
            i,
        ) is None by {
            assert(complete(cfg.tabs[i]@));
        }
    }
    if cfg@.valid() {
        assert forall|i: int| 0 <= i < cfg.tabs.len() implies complete(
            (#[trigger] cfg.tabs[i])@,
        ) by {
            assert(cfg@.tabs[i].error(i) is None);
        }
    }
}

/// Where there is no file, the template is to be written to its place, and the sentence shown says
/// so.
pub proof fn law_missing_file_gets_the_template(
    path: &str,
    e: LoadError,
    template: Option<String>,
    text: String,
)
    requires
        call_ensures(load, (path, ConfigFile::Missing), Err::<Config, LoadError>(e)),
        call_ensures(LoadError::template, (&e,), template),
        call_ensures(LoadError::message, (&e,), text),
    ensures
        template.deep_view() == Some(Config::EXAMPLE@),
        text@ == "wrote config template to "@ + path@ + " — edit it then re-run"@,
{
}

/// A configuration that was found and rejected is told of as the rejection itself is.
pub proof fn law_rejected_file_is_told_as_its_rejection(
    e: ConfigError,
    of_file: String,
    of_rejection: String,
)
    requires
        call_ensures(LoadError::message, (&LoadError::Invalid(e),), of_file),
        call_ensures(ConfigError::message, (&e,), of_rejection),
    ensures
        of_file@ == of_rejection@,
{
}

/// The file lies in `.config` under the home directory, or under the one that stands in for it.
pub proof fn law_config_lies_under_home<P>(home: Option<P>, here: P, path: (P, Vec<String>))
    requires
        call_ensures(config_path::<P>, (home, here), path),
    ensures
        home matches Some(base) ==> path.0 == base,
        home is None ==> path.0 == here,
        path.1.len() == 2,
        path.1[0]@ == ".config"@,
        path.1[1]@ == "mnml-aws-codebuild.toml"@,
{
    assert(path.1.deep_view().len() == 2);
    assert(path.1.deep_view()[0] == path.1[0]@);
    assert(path.1.deep_view()[1] == path.1[1]@);
}

} // verus!
