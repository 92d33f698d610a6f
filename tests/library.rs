use wtd::commands::{
    config_file_path, template_dir_path, templates_root_path, Commands, DeleteStep, Init, Setup,
    TemplateDelete, TemplateNew,
};
use wtd::config::{select_project, status, WtdConfig};
use wtd::date::CalendarDate;
use wtd::error::WtdError;
use wtd::naming::slugify;
use wtd::render::{render_text, RenderContext};
use wtd::template::{project_context, DocEntry, Selection, Template, TemplateChoice, WantEntry};

fn ctx(pairs: &[(&str, &str)]) -> RenderContext {
    let mut c = RenderContext::new();
    for (k, v) in pairs {
        c.insert(k, v);
    }
    c
}

fn sample_template(docs: usize) -> Template {
    Template {
        name: "default".to_string(),
        description: None,
        want: WantEntry { filename: "{{slug}}.md".to_string(), template: "want.md".to_string() },
        docs: (0..docs)
            .map(|i| DocEntry {
                filename: format!("DOC{}.md", i),
                template: format!("docs/doc{}.md", i),
            })
            .collect(),
        tags: None,
    }
}

#[test]
fn render_replaces_every_occurrence() {
    let c = ctx(&[("title", "X")]);
    assert_eq!(render_text("# {{title}}\n{{title}}!", &c), "# X\nX!");
}

#[test]
fn render_leaves_plain_text_alone() {
    let c = ctx(&[("title", "X"), ("slug", "y")]);
    let text = "Plain text { with } braces and 日本語";
    assert_eq!(render_text(text, &c), text);
    assert_eq!(render_text("", &c), "");
}

#[test]
fn render_keeps_unknown_placeholders() {
    let c = ctx(&[("title", "X")]);
    assert_eq!(render_text("{{author}} wrote {{title}}", &c), "{{author}} wrote X");
    assert_eq!(render_text("{{ title }}", &c), "{{ title }}");
    assert_eq!(render_text("{{title", &c), "{{title");
    assert_eq!(render_text("{{{title}}}", &c), "{X}");
}

#[test]
fn render_later_binding_wins() {
    let mut c = ctx(&[("title", "old")]);
    c.insert("title", "new");
    assert_eq!(render_text("{{title}}", &c), "new");
    assert_eq!(c.get("title").map(|s| s.as_str()), Some("new"));
    assert_eq!(c.get("missing"), None);
}

#[test]
fn render_template_uses_the_context() {
    let c = project_context("My Idea", "my-idea", "2024-01-02");
    let out = Template::render_template("{{project}}|{{slug}}|{{title}}|{{date}}", &c);
    assert_eq!(out, "My Idea|my-idea|My Idea|2024-01-02");
}

#[test]
fn slug_of_project_name() {
    assert_eq!(slugify("My Idea"), "my-idea");
    assert_eq!(slugify("My Test String!!!1!1"), "my-test-string-1-1");
    assert_eq!(slugify("  --test_-_cool"), "test-cool");
    assert_eq!(slugify(""), "");
}

#[test]
fn slug_is_idempotent_and_plain() {
    for x in ["My Idea", "  Hello,   World  ", "ÆÚ under_score", "A\tB\nC"] {
        let once = slugify(x);
        assert_eq!(slugify(&once), once);
        assert_eq!(slugify(x), once);
        assert!(!once.chars().any(|c| c.is_whitespace()));
        assert_eq!(once.to_lowercase(), once);
    }
}

#[test]
fn date_formats() {
    let d = CalendarDate { year: 2024, month: 3, day: 5 };
    assert_eq!(d.iso_string(), "2024-03-05");
    let d = CalendarDate { year: 7, month: 12, day: 31 };
    assert_eq!(d.iso_string(), "0007-12-31");
    let d = CalendarDate { year: -1, month: 1, day: 1 };
    assert_eq!(d.iso_string(), "-0001-01-01");
    let d = CalendarDate { year: 12345, month: 10, day: 10 };
    assert_eq!(d.iso_string(), "+12345-10-10");
}

#[test]
fn today_is_a_valid_date() {
    let d = CalendarDate::today();
    assert!((1..=12).contains(&d.month));
    assert!((1..=31).contains(&d.day));
    assert_eq!(d.iso_string().len(), 10);
}

#[test]
fn missing_config_is_blank() {
    let c = WtdConfig::from_stored(None);
    assert!(c.selected_project.is_none());
    assert!(c.default_output_dir.is_none());
    assert!(c.default_template.is_none());
    assert!(c.author.is_none());
    let d = WtdConfig::default();
    assert!(d.selected_project.is_none() && d.author.is_none());
}

#[test]
fn stored_config_is_kept() {
    let mut stored = WtdConfig::new();
    stored.author = Some("me".to_string());
    let c = WtdConfig::from_stored(Some(stored));
    assert_eq!(c.author.as_deref(), Some("me"));
}

#[test]
fn select_sets_only_the_project() {
    let mut c = WtdConfig::new();
    c.default_output_dir = Some("~/Vault".to_string());
    let c = select_project(c, "alpha");
    assert_eq!(c.selected_project.as_deref(), Some("alpha"));
    assert_eq!(c.default_output_dir.as_deref(), Some("~/Vault"));
    assert!(c.author.is_none());
}

#[test]
fn update_applies_the_change() {
    let c = WtdConfig::update(WtdConfig::new(), |mut c: WtdConfig| {
        c.author = Some("bob".to_string());
        c
    });
    assert_eq!(c.author.as_deref(), Some("bob"));
    assert!(c.selected_project.is_none());
}

#[test]
fn status_lines() {
    let c = select_project(WtdConfig::new(), "alpha");
    assert_eq!(status(&c), "📌 現在選択中のプロジェクト: alpha");
    assert!(status(&WtdConfig::new()).starts_with("⚠️"));
}

#[test]
fn plan_has_one_file_per_output() {
    let t = sample_template(2);
    let files = t.plan_project_files("My Idea", "my-idea");
    assert_eq!(files.len(), 3);
    assert_eq!(files[0].path, vec!["WTD", "My Idea", "Want", "my-idea.md"]);
    assert_eq!(files[0].template, "want.md");
    assert_eq!(files[1].path, vec!["WTD", "My Idea", "Develop-Docs", "DOC0.md"]);
    assert_eq!(files[2].template, "docs/doc1.md");
}

#[test]
fn plan_without_docs() {
    let t = sample_template(0);
    let files = t.plan_project_files("p", "p");
    assert_eq!(files.len(), 1);
}

#[test]
fn plan_replaces_only_the_slug_token() {
    let mut t = sample_template(1);
    t.want.filename = "{{date}}-{{slug}}.md".to_string();
    t.docs[0].filename = "{{slug}}.md".to_string();
    let files = t.plan_project_files("x", "my-idea");
    assert_eq!(files[0].path[3], "{{date}}-my-idea.md");
    assert_eq!(files[1].path[3], "{{slug}}.md");
}

#[test]
fn create_project_files_slugs_the_name() {
    let t = sample_template(1);
    let p = t.create_project_files("My Idea");
    assert_eq!(p.files.len(), 2);
    assert_eq!(p.files[0].path[3], "my-idea.md");
    assert_eq!(p.context.get("slug").map(|s| s.as_str()), Some("my-idea"));
    assert_eq!(p.context.get("title").map(|s| s.as_str()), Some("My Idea"));
    assert_eq!(p.context.get("date").map(|s| s.len()), Some(10));
}

fn choice(name: &str, dir: &str) -> TemplateChoice {
    TemplateChoice { name: name.to_string(), dir: dir.to_string() }
}

#[test]
fn select_fails_without_root_or_templates() {
    let r = Template::select_template(false, &vec![choice("a", "/t/a")], None);
    assert!(matches!(r, Err(WtdError::NotFound(_))));
    let r = Template::select_template(true, &vec![], None);
    assert!(matches!(r, Err(WtdError::NotFound(_))));
}

#[test]
fn select_sole_template_without_asking() {
    let r = Template::select_template(true, &vec![choice("a", "/t/a")], None);
    assert!(matches!(r, Ok(Selection::Chosen(ref d)) if d == "/t/a"));
}

#[test]
fn select_among_several() {
    let es = vec![choice("a", "/t/a"), choice("b", "/t/b")];
    match Template::select_template(true, &es, None) {
        Ok(Selection::Ask(names)) => assert_eq!(names, vec!["a", "b"]),
        _ => panic!("expected a question"),
    }
    let r = Template::select_template(true, &es, Some(1));
    assert!(matches!(r, Ok(Selection::Chosen(ref d)) if d == "/t/b"));
    let r = Template::select_template(true, &es, Some(2));
    assert!(matches!(r, Err(WtdError::Interaction(_))));
}

#[test]
fn new_template_twice_fails() {
    let cmd = TemplateNew { name: "foo".to_string() };
    let files = cmd.starter_files(false).ok().unwrap();
    assert_eq!(files.len(), 3);
    assert_eq!(files[0].path, vec!["template.yaml"]);
    assert!(files[0].content.starts_with("name: \"foo\"\n"));
    assert!(files[0].content.contains("filename: \"{{slug}}.md\""));
    assert_eq!(files[1].path, vec!["want.md"]);
    assert_eq!(files[2].path, vec!["docs", "readme.md"]);
    assert!(matches!(cmd.starter_files(true), Err(WtdError::AlreadyExists(_))));
}

#[test]
fn setup_files() {
    let files = Setup.starter_files();
    assert_eq!(files.len(), 3);
    assert!(files[0].content.starts_with("---\nname: default\n"));
    assert!(files[1].content.starts_with("# {{title}}\n"));
    assert_eq!(Setup.template_name(), "default");
}

#[test]
fn delete_missing_template_fails_before_asking() {
    let cmd = TemplateDelete { name: "nope".to_string() };
    assert!(matches!(cmd.next_step(false, None), Err(WtdError::NotFound(_))));
    assert!(matches!(cmd.next_step(false, Some(true)), Err(WtdError::NotFound(_))));
}

#[test]
fn delete_asks_then_acts() {
    let cmd = TemplateDelete { name: "foo".to_string() };
    match cmd.next_step(true, None) {
        Ok(DeleteStep::Confirm(q)) => assert!(q.contains("foo")),
        _ => panic!("expected a question"),
    }
    assert!(matches!(cmd.next_step(true, Some(true)), Ok(DeleteStep::Remove)));
    assert!(matches!(cmd.next_step(true, Some(false)), Ok(DeleteStep::Cancel)));
}

#[test]
fn output_root_choice() {
    let mut cfg = WtdConfig::new();
    let given = Init { name: "p".to_string(), output: Some("/out".to_string()) };
    assert_eq!(given.output_root(&cfg).as_deref(), Some("/out"));
    let plain = Init { name: "p".to_string(), output: None };
    assert_eq!(plain.output_root(&cfg), None);
    cfg.default_output_dir = Some("/vault/wtd".to_string());
    assert_eq!(plain.output_root(&cfg).as_deref(), Some("/vault/wtd"));
    cfg.default_output_dir = Some("~/vault".to_string());
    let r = plain.output_root(&cfg).unwrap();
    assert!(r.ends_with("/vault"));
    assert!(!r.starts_with('~'));
    cfg.default_output_dir = Some("~other/vault".to_string());
    assert_eq!(plain.output_root(&cfg).as_deref(), Some("~other/vault"));
}

#[test]
fn layout_paths() {
    assert_eq!(config_file_path(), vec!["wtd", "config.json"]);
    assert_eq!(templates_root_path(), vec!["wtd", "templates"]);
    assert_eq!(template_dir_path("foo"), vec!["wtd", "templates", "foo"]);
}

#[test]
fn error_message() {
    let e = WtdError::NotFound("gone".to_string());
    assert_eq!(e.message(), "gone");
    let c = Commands::Select(wtd::commands::Select { name: "x".to_string() });
    assert!(matches!(c, Commands::Select(_)));
}

#[test]
fn list_lines() {
    let lines = Template::list(&vec![choice("Default", "default"), choice("Mine", "mine")]);
    assert_eq!(lines, vec!["• Default - default", "• Mine - mine"]);
    assert!(Template::list(&vec![]).is_empty());
}

#[test]
fn render_placeholder_then_rest() {
    let c = ctx(&[("k", "VALUE")]);
    assert_eq!(render_text("{{k}}{{k}}", &c), "VALUEVALUE");
    assert_eq!(render_text("no brace here {{k}} tail", &c), "no brace here VALUE tail");
    assert_eq!(render_text("{{k}}}", &c), "VALUE}");
}
