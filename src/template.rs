//! Template manifests, the file tree that a template generates, and the
//! choice of a template.
use vstd::prelude::*;
use crate::date::{iso_text, CalendarDate};
use crate::error::WtdError;
use crate::naming::{slug_of, slugify};
use crate::render::{render, render_text, RenderContext};

verus! {

/// The primary output of a template.
#[derive(Clone, Debug)]
pub struct WantEntry {
    /// The output file name; `{{slug}}` in it stands for the project's slug.
    pub filename: String,
    /// The source file, relative to the template's directory.
    pub template: String,
}

/// A secondary output of a template.
#[derive(Clone, Debug)]
pub struct DocEntry {
    /// The output file name, taken as it is.
    pub filename: String,
    /// The source file, relative to the template's directory.
    pub template: String,
}

/// A template manifest.
#[derive(Clone, Debug)]
pub struct Template {
    pub name: String,
    pub description: Option<String>,
    pub want: WantEntry,
    pub docs: Vec<DocEntry>,
    pub tags: Option<Vec<String>>,
}

/// One file to generate: where it goes, below the output root, and the source
/// it is rendered from, below the template's directory.
#[derive(Clone, Debug)]
pub struct PlannedFile {
    pub path: Vec<String>,
    pub template: String,
}

/// What generation needs besides the sources: the bindings to render with and
/// the files to write.
pub struct ProjectFiles {
    pub context: RenderContext,
    pub files: Vec<PlannedFile>,
}

/// A template found in the templates directory: its manifest name and its
/// directory.
#[derive(Clone, Debug)]
pub struct TemplateChoice {
    pub name: String,
    pub dir: String,
}

/// The outcome of a selection step.
#[derive(Clone, Debug)]
pub enum Selection {
    /// The directory of the chosen template.
    Chosen(String),
    /// The user must pick one of these names; the first is the default.
    Ask(Vec<String>),
}

/// The views of a sequence of strings.
pub open spec fn seg_views(v: Seq<String>) -> Seq<Seq<char>> {
    v.map_values(|s: String| s@)
}

/// The bindings that name only the slug.
pub open spec fn slug_bindings(slug: Seq<char>) -> Map<Seq<char>, Seq<char>> {
    Map::empty().insert("slug"@, slug)
}

/// Where the primary output of project `project` goes.
pub open spec fn want_path(project: Seq<char>, filename: Seq<char>, slug: Seq<char>) -> Seq<
    Seq<char>,
> {
    seq!["WTD"@, project, "Want"@, render(filename, slug_bindings(slug))]
}

/// Where a secondary output of project `project` goes.
pub open spec fn doc_path(project: Seq<char>, filename: Seq<char>) -> Seq<Seq<char>> {
    seq!["WTD"@, project, "Develop-Docs"@, filename]
}

/// The bindings of a project's rendering.
pub open spec fn project_bindings(project: Seq<char>, slug: Seq<char>, date: Seq<char>) -> Map<
    Seq<char>,
    Seq<char>,
> {
    Map::empty().insert("project"@, project).insert("slug"@, slug).insert("title"@, project).insert(
        "date"@,
        date,
    )
}

fn path4(a: &str, b: &str, c: &str, d: &str) -> (r: Vec<String>)
    ensures
        seg_views(r@) == seq![a@, b@, c@, d@],
{
    let mut v: Vec<String> = Vec::new();
    v.push(a.to_owned());
    v.push(b.to_owned());
    v.push(c.to_owned());
    v.push(d.to_owned());
    assert(seg_views(v@) =~= seq![a@, b@, c@, d@]);
    v
}

/// The bindings for rendering project `project`, whose slug is `slug`, made
/// on `date` (a `YYYY-MM-DD` text).
pub fn project_context(project: &str, slug: &str, date: &str) -> (r: RenderContext)
    ensures
        r.view() == project_bindings(project@, slug@, date@),
{
    let mut ctx = RenderContext::new();
    ctx.insert("project", project);
    ctx.insert("slug", slug);
    ctx.insert("title", project);
    ctx.insert("date", date);
    ctx
}

impl Template {
    /// The files that the template makes for project `project` whose slug is
    /// `slug`: first the primary output, then one per doc entry in order.
    pub open spec fn planned(&self, files: Seq<PlannedFile>, project: Seq<char>, slug: Seq<char>) -> bool {
        &&& files.len() == 1 + self.docs@.len()
        &&& seg_views(files[0].path@) == want_path(project, self.want.filename@, slug)
        &&& files[0].template@ == self.want.template@
        &&& forall|i: int|
            0 <= i < self.docs@.len() ==> seg_views((#[trigger] files[i + 1]).path@) == doc_path(
                project,
                self.docs@[i].filename@,
            ) && files[i + 1].template@ == self.docs@[i].template@
    }

    /// The files to generate for project `project_name` whose slug is `slug`.
    pub fn plan_project_files(&self, project_name: &str, slug: &str) -> (r: Vec<PlannedFile>)
        ensures
            self.planned(r@, project_name@, slug@),
    {
        let mut names = RenderContext::new();
        names.insert("slug", slug);
        assert(names.view() =~= slug_bindings(slug@));
        let want_name = render_text(self.want.filename.as_str(), &names);
        let mut files: Vec<PlannedFile> = Vec::new();
        files.push(
            PlannedFile {
                path: path4("WTD", project_name, "Want", want_name.as_str()),
                template: self.want.template.clone(),
            },
        );
        let mut i: usize = 0;
        while i < self.docs.len()
            invariant
                i <= self.docs@.len(),
                files@.len() == 1 + i,
                seg_views(files@[0].path@) == want_path(project_name@, self.want.filename@, slug@),
                files@[0].template@ == self.want.template@,
                forall|j: int|
                    0 <= j < i ==> seg_views((#[trigger] files@[j + 1]).path@) == doc_path(
                        project_name@,
                        self.docs@[j].filename@,
                    ) && files@[j + 1].template@ == self.docs@[j].template@,
            decreases self.docs@.len() - i,
        {
            let doc = &self.docs[i];
            files.push(
                PlannedFile {
                    path: path4("WTD", project_name, "Develop-Docs", doc.filename.as_str()),
                    template: doc.template.clone(),
                },
            );
            i = i + 1;
        }
        files
    }

    /// Everything generation of project `project_name` needs but the sources:
    /// the slug comes from `slugify`, the date is today's.
    pub fn create_project_files(&self, project_name: &str) -> (r: ProjectFiles)
        ensures
            self.planned(r.files@, project_name@, slug_of(project_name@)),
            exists|d: CalendarDate|
                d.wf() && r.context.view() == project_bindings(
                    project_name@,
                    slug_of(project_name@),
                    iso_text(d),
                ),
    {
        let slug = slugify(project_name);
        let today = CalendarDate::today();
        let date = today.iso_string();
        let context = project_context(project_name, slug.as_str(), date.as_str());
        let files = self.plan_project_files(project_name, slug.as_str());
        ProjectFiles { context, files }
    }

    /// One line per template found: `• <name> - <directory>`.
    pub fn list(entries: &Vec<TemplateChoice>) -> (r: Vec<String>)
        ensures
            r@.len() == entries@.len(),
            forall|i: int|
                0 <= i < r@.len() ==> (#[trigger] r@[i])@ == "• "@ + entries@[i].name@ + " - "@
                    + entries@[i].dir@,
    {
        let mut lines: Vec<String> = Vec::new();
        let mut i: usize = 0;
        while i < entries.len()
            invariant
                i <= entries@.len(),
                lines@.len() == i,
                forall|j: int|
                    0 <= j < i ==> (#[trigger] lines@[j])@ == "• "@ + entries@[j].name@ + " - "@
                        + entries@[j].dir@,
            decreases entries@.len() - i,
        {
            let mut line = "• ".to_owned();
            line.append(entries[i].name.as_str());
            line.append(" - ");
            line.append(entries[i].dir.as_str());
            lines.push(line);
            i = i + 1;
        }
        lines
    }

    /// A source text rendered with `context`.
    pub fn render_template(content: &str, context: &RenderContext) -> (r: String)
        ensures
            r@ == render(content@, context.view()),
    {
        render_text(content, context)
    }

    /// One step of choosing a template among those found under the templates
    /// directory. A missing directory, or one without templates, is an error;
    /// a sole template is chosen at once; among several, the user is asked
    /// (`answer` is `None`) and the answer picks the template.
    pub fn select_template(root_exists: bool, entries: &Vec<TemplateChoice>, answer: Option<usize>) -> (r:
        Result<Selection, WtdError>)
        ensures
            !root_exists ==> r matches Err(WtdError::NotFound(_)),
            root_exists && entries@.len() == 0 ==> r matches Err(WtdError::NotFound(_)),
            root_exists && entries@.len() == 1 ==> (r matches Ok(Selection::Chosen(d)) && d@
                == entries@[0].dir@),
            root_exists && entries@.len() > 1 && answer is None ==> (r matches Ok(
                Selection::Ask(names),
            ) && seg_views(names@) == entries@.map_values(|e: TemplateChoice| e.name@)),
            root_exists && entries@.len() > 1 && answer is Some && answer->0 < entries@.len() ==> (
            r matches Ok(Selection::Chosen(d)) && d@ == entries@[answer->0 as int].dir@),
            root_exists && entries@.len() > 1 && answer is Some && answer->0 >= entries@.len() ==> (
            r matches Err(WtdError::Interaction(_))),
    {
        if !root_exists {
            return Err(
                WtdError::NotFound(
                    "テンプレートディレクトリが見つかりません。`wtd template new <name>` でテンプレートを作成してください。".to_owned(),
                ),
            );
        }
        if entries.len() == 0 {
            return Err(
                WtdError::NotFound(
                    "テンプレートが見つかりません。`wtd template new <name>` で作成してください。".to_owned(),
                ),
            );
        }
        if entries.len() == 1 {
            return Ok(Selection::Chosen(entries[0].dir.clone()));
        }
        match answer {
            None => {
                let mut names: Vec<String> = Vec::new();
                let mut i: usize = 0;
                while i < entries.len()
                    invariant
                        i <= entries@.len(),
                        names@.len() == i,
                        forall|j: int| 0 <= j < i ==> (#[trigger] names@[j])@ == entries@[j].name@,
                    decreases entries@.len() - i,
                {
                    names.push(entries[i].name.clone());
                    i = i + 1;
                }
                assert(seg_views(names@) =~= entries@.map_values(|e: TemplateChoice| e.name@));
                Ok(Selection::Ask(names))
            },
            Some(k) => {
                if k < entries.len() {
                    Ok(Selection::Chosen(entries[k].dir.clone()))
                } else {
                    Err(WtdError::Interaction("選択が範囲外です".to_owned()))
                }
            },
        }
    }
}

} // verus!
