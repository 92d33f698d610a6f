//! The commands of the tool and the decisions each of them takes.
use vstd::prelude::*;
use crate::config::{opt_view, WtdConfig};
use crate::error::WtdError;
use crate::template::seg_views;

verus! {

/// Create a project from a template.
#[derive(Clone, Debug)]
pub struct Init {
    /// The project name.
    pub name: String,
    /// The output directory; when absent, the configured default, else the
    /// working directory.
    pub output: Option<String>,
}

/// Mark a project as the current one.
#[derive(Clone, Debug)]
pub struct Select {
    /// The project name.
    pub name: String,
}

/// Show the current project.
#[derive(Clone, Copy, Debug)]
pub struct Status;

/// Show the templates.
#[derive(Clone, Copy, Debug)]
pub struct TemplateList;

/// Create a template with starter files.
#[derive(Clone, Debug)]
pub struct TemplateNew {
    /// The template name.
    pub name: String,
}

/// Delete a template after confirmation.
#[derive(Clone, Debug)]
pub struct TemplateDelete {
    /// The template name.
    pub name: String,
}

/// Install the default template where it is missing.
#[derive(Clone, Copy, Debug)]
pub struct Setup;

/// The subcommands.
#[derive(Clone, Debug)]
pub enum Commands {
    Init(Init),
    Select(Select),
    Status(Status),
    TemplateList(TemplateList),
    TemplateNew(TemplateNew),
    TemplateDelete(TemplateDelete),
    Setup(Setup),
}

/// A parsed command line.
#[derive(Clone, Debug)]
pub struct Cli {
    pub command: Commands,
}

/// A file to create: its path, below the template's directory, and its text.
#[derive(Clone, Debug)]
pub struct StarterFile {
    pub path: Vec<String>,
    pub content: String,
}

/// The next step of deleting a template.
#[derive(Clone, Debug)]
pub enum DeleteStep {
    /// Ask the user this question; declining is the default.
    Confirm(String),
    /// Remove the template's directory with all it holds.
    Remove,
    /// Leave everything as it is: the user declined.
    Cancel,
}

/// The path of the configuration file, below the user's configuration directory.
pub fn config_file_path() -> (r: Vec<String>)
    ensures
        seg_views(r@) == seq!["wtd"@, "config.json"@],
{
    let r = vec!["wtd".to_owned(), "config.json".to_owned()];
    assert(seg_views(r@) =~= seq!["wtd"@, "config.json"@]);
    r
}

/// The directory of templates, below the user's configuration directory.
pub fn templates_root_path() -> (r: Vec<String>)
    ensures
        seg_views(r@) == seq!["wtd"@, "templates"@],
{
    let r = vec!["wtd".to_owned(), "templates".to_owned()];
    assert(seg_views(r@) =~= seq!["wtd"@, "templates"@]);
    r
}

/// The directory of template `name`, below the user's configuration directory.
pub fn template_dir_path(name: &str) -> (r: Vec<String>)
    ensures
        seg_views(r@) == seq!["wtd"@, "templates"@, name@],
{
    let r = vec!["wtd".to_owned(), "templates".to_owned(), name.to_owned()];
    assert(seg_views(r@) =~= seq!["wtd"@, "templates"@, name@]);
    r
}

/// A path that tilde expansion leaves alone: it does not start with `~`
/// followed by the end or a separator.
pub open spec fn keeps_tilde(s: Seq<char>) -> bool {
    s.len() == 0 || s[0] != '~' || (s.len() > 1 && s[1] != '/' && s[1] != '\\')
}

/// `r` ends with `s` without its first character.
pub open spec fn ends_with_rest(r: Seq<char>, s: Seq<char>) -> bool {
    s.len() > 0 ==> r.len() >= s.len() - 1 && r.subrange(r.len() - (s.len() - 1), r.len() as int)
        == s.skip(1)
}

/// Relies on `shellexpand::tilde`: a path it leaves alone comes back
/// unchanged; another comes back unchanged or as the home directory followed
/// by what stands after the `~`. The home directory comes from the
/// environment, so nothing more is known.
#[verifier::external_body]
fn expand_home(s: &str) -> (r: String)
    ensures
        keeps_tilde(s@) ==> r@ == s@,
        ends_with_rest(r@, s@),
{
    shellexpand::tilde(s).into_owned()
}

impl Init {
    /// The output root: the given directory, else the configured default with
    /// `~` expanded, else `None`, which stands for the working directory.
    pub fn output_root(&self, config: &WtdConfig) -> (r: Option<String>)
        ensures
            self.output is Some ==> opt_view(r) == opt_view(self.output),
            self.output is None && config.default_output_dir is None ==> r is None,
            self.output is None && config.default_output_dir is Some ==> r is Some && ends_with_rest(
                r->0@,
                config.default_output_dir->0@,
            ) && (keeps_tilde(config.default_output_dir->0@) ==> r->0@
                == config.default_output_dir->0@),
    {
        match &self.output {
            Some(o) => Some(o.clone()),
            None => match &config.default_output_dir {
                Some(d) => Some(expand_home(d.as_str())),
                None => None,
            },
        }
    }
}

/// The manifest that a new template named `name` starts with.
pub open spec fn new_manifest_text(name: Seq<char>) -> Seq<char> {
    "name: \""@ + name + "\"\ndescription: \"カスタムテンプレート\"\nwant:\n  filename: \"{{slug}}.md\"\n  template: \"want.md\"\ndocs:\n  - filename: \"README.md\"\n    template: \"docs/readme.md\"\ntags: [\"custom\"]\n"@
}

/// The primary source that a new template starts with.
pub open spec fn new_want_text() -> Seq<char> {
    "# {{title}}\n\n- 作成日: {{date}}\n\n## 概要\n\n## 動機\n\n## 想定機能\n\n- [ ] 機能1\n- [ ] 機能2\n"@
}

/// The doc source that every starter template holds.
pub open spec fn readme_text() -> Seq<char> {
    "# 開発ドキュメント\n\n## 要件\n\n## 設計方針\n\n## 今後の課題\n"@
}

/// The manifest of the default template.
pub open spec fn default_manifest_text() -> Seq<char> {
    "---\nname: default\ndescription: デフォルトのテンプレート\nwant:\n  filename: \"{{slug}}.md\"\n  template: \"want.md\"\ndocs:\n  - filename: \"README.md\"\n    template: \"docs/readme.md\"\ntags: [\"default\"]\n"@
}

/// The primary source of the default template.
pub open spec fn default_want_text() -> Seq<char> {
    "# {{title}}\n\n- 作成日: {{date}}\n\n## 概要\n\nこのツールは、こういうことをしたい！を実現するものです。\n\n## 動機\n\n## 想定機能\n\n- [ ] 〇〇を入力として受け取る\n- [ ] △△を処理して出力する\n"@
}

fn readme_file() -> (r: StarterFile)
    ensures
        seg_views(r.path@) == seq!["docs"@, "readme.md"@],
        r.content@ == readme_text(),
{
    let path = vec!["docs".to_owned(), "readme.md".to_owned()];
    assert(seg_views(path@) =~= seq!["docs"@, "readme.md"@]);
    StarterFile {
        path,
        content: "# 開発ドキュメント\n\n## 要件\n\n## 設計方針\n\n## 今後の課題\n".to_owned(),
    }
}

fn single_file(name: &str, content: String) -> (r: StarterFile)
    ensures
        seg_views(r.path@) == seq![name@],
        r.content == content,
{
    let path = vec![name.to_owned()];
    assert(seg_views(path@) =~= seq![name@]);
    StarterFile { path, content }
}

/// The three starter files: the manifest, the primary source and the doc source.
pub open spec fn starter_files_are(
    fs: Seq<StarterFile>,
    manifest: Seq<char>,
    want: Seq<char>,
) -> bool {
    &&& fs.len() == 3
    &&& seg_views(fs[0].path@) == seq!["template.yaml"@]
    &&& fs[0].content@ == manifest
    &&& seg_views(fs[1].path@) == seq!["want.md"@]
    &&& fs[1].content@ == want
    &&& seg_views(fs[2].path@) == seq!["docs"@, "readme.md"@]
    &&& fs[2].content@ == readme_text()
}

impl TemplateNew {
    /// The files of the new template; an error where a template of that name
    /// exists already, in which case nothing is to be written.
    pub fn starter_files(&self, exists: bool) -> (r: Result<Vec<StarterFile>, WtdError>)
        ensures
            exists ==> r matches Err(WtdError::AlreadyExists(_)),
            !exists ==> (r matches Ok(fs) && starter_files_are(
                fs@,
                new_manifest_text(self.name@),
                new_want_text(),
            )),
    {
        if exists {
            let mut m = "テンプレート '".to_owned();
            m.append(self.name.as_str());
            m.append("' は既に存在します");
            return Err(WtdError::AlreadyExists(m));
        }
        let mut manifest = "name: \"".to_owned();
        manifest.append(self.name.as_str());
        manifest.append(
            "\"\ndescription: \"カスタムテンプレート\"\nwant:\n  filename: \"{{slug}}.md\"\n  template: \"want.md\"\ndocs:\n  - filename: \"README.md\"\n    template: \"docs/readme.md\"\ntags: [\"custom\"]\n",
        );
        let want =
            "# {{title}}\n\n- 作成日: {{date}}\n\n## 概要\n\n## 動機\n\n## 想定機能\n\n- [ ] 機能1\n- [ ] 機能2\n".to_owned();
        let fs = vec![
            single_file("template.yaml", manifest),
            single_file("want.md", want),
            readme_file(),
        ];
        Ok(fs)
    }
}

impl Setup {
    /// The files of the default template; each is written only where it is
    /// missing.
    pub fn starter_files(&self) -> (r: Vec<StarterFile>)
        ensures
            starter_files_are(r@, default_manifest_text(), default_want_text()),
    {
        let manifest =
            "---\nname: default\ndescription: デフォルトのテンプレート\nwant:\n  filename: \"{{slug}}.md\"\n  template: \"want.md\"\ndocs:\n  - filename: \"README.md\"\n    template: \"docs/readme.md\"\ntags: [\"default\"]\n".to_owned();
        let want =
            "# {{title}}\n\n- 作成日: {{date}}\n\n## 概要\n\nこのツールは、こういうことをしたい！を実現するものです。\n\n## 動機\n\n## 想定機能\n\n- [ ] 〇〇を入力として受け取る\n- [ ] △△を処理して出力する\n".to_owned();
        vec![single_file("template.yaml", manifest), single_file("want.md", want), readme_file()]
    }

    /// The template that setup installs.
    pub fn template_name(&self) -> (r: String)
        ensures
            r@ == "default"@,
    {
        "default".to_owned()
    }
}

impl TemplateDelete {
    /// The next step of the deletion, given whether the template exists and
    /// the user's answer so far. A missing template is an error before any
    /// question; a declined question leaves everything in place.
    pub fn next_step(&self, exists: bool, answer: Option<bool>) -> (r: Result<DeleteStep, WtdError>)
        ensures
            !exists ==> r matches Err(WtdError::NotFound(_)),
            exists && answer is None ==> r matches Ok(DeleteStep::Confirm(_)),
            exists && answer == Some(true) ==> r matches Ok(DeleteStep::Remove),
            exists && answer == Some(false) ==> r matches Ok(DeleteStep::Cancel),
    {
        if !exists {
            let mut m = "テンプレート '".to_owned();
            m.append(self.name.as_str());
            m.append("' が見つかりません");
            return Err(WtdError::NotFound(m));
        }
        match answer {
            None => {
                let mut q = "テンプレート '".to_owned();
                q.append(self.name.as_str());
                q.append("' を削除しますか？");
                Ok(DeleteStep::Confirm(q))
            },
            Some(true) => Ok(DeleteStep::Remove),
            Some(false) => Ok(DeleteStep::Cancel),
        }
    }
}

} // verus!
