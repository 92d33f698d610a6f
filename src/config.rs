//! The configuration record: a few optional settings kept between runs.
use vstd::prelude::*;

verus! {

/// The persisted settings. Every field may be unset.
#[derive(Clone, Debug)]
pub struct WtdConfig {
    /// The project marked as current.
    pub selected_project: Option<String>,
    /// Where `init` writes when no output directory is given; may start with `~`.
    pub default_output_dir: Option<String>,
    /// A template name; kept, not read by any command.
    pub default_template: Option<String>,
    /// An author name; kept, not read by any command.
    pub author: Option<String>,
}

/// The view of an optional string.
pub open spec fn opt_view(o: Option<String>) -> Option<Seq<char>> {
    match o {
        Some(s) => Some(s@),
        None => None,
    }
}

impl WtdConfig {
    /// Every field unset.
    pub open spec fn is_blank(&self) -> bool {
        &&& self.selected_project is None
        &&& self.default_output_dir is None
        &&& self.default_template is None
        &&& self.author is None
    }

    /// A record with every field unset: what a missing configuration file reads as.
    pub fn new() -> (r: WtdConfig)
        ensures
            r.is_blank(),
    {
        WtdConfig { selected_project: None, default_output_dir: None, default_template: None, author: None }
    }

    /// The record that a load yields: the stored one, or, where nothing is
    /// stored, a record with every field unset.
    pub fn from_stored(stored: Option<WtdConfig>) -> (r: WtdConfig)
        ensures
            stored is None ==> r.is_blank(),
            stored matches Some(c) ==> r == c,
    {
        match stored {
            Some(c) => c,
            None => WtdConfig::new(),
        }
    }

    /// Applies `update_fn` to the record and returns what it made of it.
    pub fn update<F>(config: WtdConfig, update_fn: F) -> (r: WtdConfig)
        where
            F: FnOnce(WtdConfig) -> WtdConfig,
        requires
            update_fn.requires((config,)),
        ensures
            update_fn.ensures((config,), r),
    {
        update_fn(config)
    }
}

impl Default for WtdConfig {
    fn default() -> (r: WtdConfig)
        ensures
            r.is_blank(),
    {
        WtdConfig::new()
    }
}

/// Marks `project_name` as the current project; the other fields stay.
pub fn select_project(config: WtdConfig, project_name: &str) -> (r: WtdConfig)
    ensures
        opt_view(r.selected_project) == Some(project_name@),
        r.default_output_dir == config.default_output_dir,
        r.default_template == config.default_template,
        r.author == config.author,
{
    WtdConfig { selected_project: Some(project_name.to_owned()), ..config }
}

/// The line that reports the current project.
pub open spec fn status_text(selected: Option<Seq<char>>) -> Seq<char> {
    match selected {
        Some(name) => "📌 現在選択中のプロジェクト: "@ + name,
        None => "⚠️  選択中のプロジェクトはありません。`wtd select <name>` を使用してください。"@,
    }
}

/// The line that reports the current project, or a hint where none is set.
pub fn status(config: &WtdConfig) -> (r: String)
    ensures
        r@ == status_text(opt_view(config.selected_project)),
{
    match &config.selected_project {
        Some(name) => {
            let mut line = "📌 現在選択中のプロジェクト: ".to_owned();
            line.append(name.as_str());
            line
        },
        None => "⚠️  選択中のプロジェクトはありません。`wtd select <name>` を使用してください。".to_owned(),
    }
}

} // verus!
