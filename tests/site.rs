use cobalt::attributes::Attributes;
use cobalt::document::{is_markdown_path, is_template_path, parse_document};
use cobalt::error::{first_error, BuildError};
use cobalt::render::{after_body, layout_context, layout_for, render_page, template_vars, PageStep};
use cobalt::site::Site;

fn site() -> Site {
    Site::new("src", "out", "_layouts", "_posts")
}

#[test]
fn template_extensions() {
    assert!(is_template_path("src/a.tpl"));
    assert!(is_template_path("src/a.md"));
    assert!(!is_template_path("src/a.css"));
    assert!(!is_template_path("src/a.MD"));
    assert!(is_markdown_path("src/a.md"));
    assert!(!is_markdown_path("src/a.tpl"));
}

#[test]
fn parse_document_fields() {
    let d = match parse_document("src/_posts/hello.md", "src", "title: Hi\n---\nBody\n---") {
        Ok(d) => d,
        Err(e) => panic!("{}", e.message()),
    };
    assert_eq!(d.path, "_posts/hello.md");
    assert_eq!(d.content, "\nBody\n");
    assert!(d.markdown);
    assert_eq!(d.attributes.get("name").cloned(), Some("hello".to_string()));
    assert_eq!(d.attributes.get("title").cloned(), Some("Hi".to_string()));
}

#[test]
fn parse_document_errors() {
    match parse_document("src/a.tpl", "src", "only --- one") {
        Err(BuildError::Malformed(p)) => assert_eq!(p, "src/a.tpl"),
        _ => panic!("expected a malformed document"),
    }
    match parse_document("elsewhere/a.tpl", "src", "body") {
        Err(BuildError::Path(p)) => assert_eq!(p, "elsewhere/a.tpl"),
        _ => panic!("expected a path error"),
    }
}

#[test]
fn site_new_joins_directories() {
    let s = site();
    assert_eq!(s.layouts_dir, "src/_layouts");
    assert_eq!(s.posts_dir, "src/_posts");
    assert!(s.documents.is_empty());
}

#[test]
fn layouts_keyed_by_file_name() {
    let mut s = site();
    s.add_layout("src/_layouts/default.tpl", "one".to_string());
    s.add_layout("src/_layouts/sub/default.tpl", "two".to_string());
    assert_eq!(s.layouts.get("default.tpl").cloned(), Some("two".to_string()));
}

#[test]
fn candidates_exclude_layout_directory() {
    let s = site();
    assert!(s.is_candidate("src/index.tpl"));
    assert!(s.is_candidate("src/_posts/a.md"));
    assert!(!s.is_candidate("src/_layouts/default.tpl"));
    assert!(!s.is_candidate("src/style.css"));
}

#[test]
fn posts_are_indexed_in_order() {
    let mut s = site();
    assert!(s.add_document("src/_posts/b.md", "title: B\n---\nb\n---").is_ok());
    assert!(s.add_document("src/index.tpl", "home").is_ok());
    assert!(s.add_document("src/_posts/a.md", "title: A\n---\na\n---").is_ok());
    assert!(s.add_document("src/_posts/deep/c.md", "c").is_ok());
    assert_eq!(s.documents.len(), 4);
    assert_eq!(s.posts.len(), 2);
    assert_eq!(s.posts[0].get("title").cloned(), Some("B".to_string()));
    assert_eq!(s.posts[1].get("title").cloned(), Some("A".to_string()));
}

#[test]
fn failed_document_changes_nothing() {
    let mut s = site();
    assert!(s.add_document("src/_posts/bad.md", "x --- y").is_err());
    assert!(s.documents.is_empty());
    assert!(s.posts.is_empty());
}

#[test]
fn copy_exclusions() {
    let s = site();
    assert_eq!(s.copy_target("src/.hidden").ok(), Some(None));
    assert_eq!(s.copy_target("src/page.tpl").ok(), Some(None));
    assert_eq!(s.copy_target("src/_layouts/extra.css").ok(), Some(None));
    assert_eq!(s.copy_target("src/_layouts").ok(), Some(None));
    assert_eq!(s.copy_target("out").ok(), Some(None));
    assert_eq!(s.copy_target("src/style.css").ok(), Some(Some("style.css".to_string())));
    assert_eq!(s.copy_target("src/img/a.png").ok(), Some(Some("img/a.png".to_string())));
    assert_eq!(s.copy_target("src").ok(), Some(Some(String::new())));
}

#[test]
fn copy_outside_source_is_path_error() {
    let s = site();
    match s.copy_target("elsewhere/x.css") {
        Err(BuildError::Path(p)) => assert_eq!(p, "elsewhere/x.css"),
        _ => panic!("expected a path error"),
    }
}

#[test]
fn no_copy_when_source_is_destination() {
    let s = Site::new("src", "src", "_layouts", "_posts");
    assert_eq!(s.copy_target("src/style.css").ok(), Some(None));
}

#[test]
fn first_error_picks_first_failure() {
    let ok: Vec<Result<(), BuildError>> = vec![Ok(()), Ok(())];
    assert!(first_error(&ok).is_ok());
    let mixed = vec![
        Ok(()),
        Err(BuildError::Malformed("a".to_string())),
        Err(BuildError::Path("b".to_string())),
    ];
    match first_error(&mixed) {
        Err(BuildError::Malformed(p)) => assert_eq!(p, "a"),
        _ => panic!("expected the first failure"),
    }
    assert!(first_error(&Vec::new()).is_ok());
}

#[test]
fn error_messages_name_the_file() {
    let e = BuildError::UnknownLayout("a.tpl".to_string(), "x.tpl".to_string());
    assert_eq!(e.message(), "unknown layout x.tpl in a.tpl");
    assert_eq!(BuildError::Malformed("b".to_string()).message(), "no content after header in b");
}

fn doc(path: &str, text: &str) -> cobalt::document::Document {
    match parse_document(path, "src", text) {
        Ok(d) => d,
        Err(e) => panic!("{}", e.message()),
    }
}

#[test]
fn plain_body_renders_unchanged() {
    let d = doc("src/page.tpl", "Hello, plain text.");
    let out = render_page(&d, &Attributes::new(), &Vec::new());
    assert_eq!(out.ok(), Some("Hello, plain text.".to_string()));
}

#[test]
fn body_sees_attributes() {
    let d = doc("src/page.tpl", "title: Hi\n---\n[{{title}}|{{name}}]\n---");
    let out = render_page(&d, &Attributes::new(), &Vec::new());
    assert_eq!(out.ok(), Some("\n[Hi|page]\n".to_string()));
}

#[test]
fn layout_wraps_rendered_body() {
    let mut s = site();
    s.add_layout("src/_layouts/default.tpl", "<h1>{{title}}</h1>{{content}}".to_string());
    let d = doc("src/page.tpl", "extends: default.tpl\ntitle: Hi\n---\n*{{title}}*\n---");
    let out = render_page(&d, &s.layouts, &s.posts);
    assert_eq!(out.ok(), Some("<h1>Hi</h1>\n*Hi*\n".to_string()));
}

#[test]
fn unknown_layout_is_reported() {
    let d = doc("src/page.tpl", "extends: missing.tpl\n---\nx\n---");
    match render_page(&d, &Attributes::new(), &Vec::new()) {
        Err(BuildError::UnknownLayout(p, l)) => {
            assert_eq!(p, "page.tpl");
            assert_eq!(l, "missing.tpl");
        }
        _ => panic!("expected an unknown layout"),
    }
    assert!(layout_for(&d, &Attributes::new()).is_err());
}

#[test]
fn template_syntax_error_is_reported() {
    let d = doc("src/page.tpl", "{% if %}");
    match render_page(&d, &Attributes::new(), &Vec::new()) {
        Err(BuildError::Render(p, m)) => {
            assert_eq!(p, "page.tpl");
            assert!(!m.is_empty());
        }
        _ => panic!("expected a render error"),
    }
}

#[test]
fn posts_are_visible_to_every_page() {
    let mut s = site();
    assert!(s.add_document("src/_posts/a.md", "title: A\n---\na\n---").is_ok());
    assert!(s.add_document("src/_posts/b.md", "title: B\n---\nb\n---").is_ok());
    let d = doc("src/index.tpl", "{% for p in posts %}{{p.title}};{% endfor %}");
    let out = render_page(&d, &s.layouts, &s.posts);
    assert_eq!(out.ok(), Some("A;B;".to_string()));
}

#[test]
fn layout_context_sets_content() {
    let mut a = Attributes::new();
    a.insert("content".to_string(), "old".to_string());
    a.insert("title".to_string(), "T".to_string());
    let v = layout_context(&a, "new".to_string());
    assert_eq!(v.get("content").cloned(), Some("new".to_string()));
    assert_eq!(v.get("title").cloned(), Some("T".to_string()));
}

#[test]
fn site_scenario() {
    let mut s = Site::new("src", "dest", "_layouts", "_posts");
    assert!(!s.is_candidate("src/_layouts/default.tpl"));
    s.add_layout("src/_layouts/default.tpl", "{{content}}".to_string());
    assert!(s.is_candidate("src/_posts/hello.md"));
    // a leading marker makes the header empty and the body the block after it
    assert!(s.add_document("src/_posts/hello.md", "---\ntitle: Hi\n---\nBody").is_ok());
    assert_eq!(s.posts.len(), 1);
    let d = &s.documents[0];
    assert_eq!(d.path, "_posts/hello.md");
    let out = render_page(d, &s.layouts, &s.posts);
    assert_eq!(out.ok(), Some("\ntitle: Hi\n".to_string()));
    assert_eq!(s.copy_target("src/style.css").ok(), Some(Some("style.css".to_string())));
    assert_eq!(s.copy_target("src/_layouts/default.tpl").ok(), Some(None));
    assert_eq!(s.copy_target("src/_posts/hello.md").ok(), Some(None));
}

#[test]
fn rendering_twice_gives_the_same_page() {
    let mut s = site();
    s.add_layout("src/_layouts/l.tpl", "[{{content}}]".to_string());
    let d = doc("src/p.tpl", "extends: l.tpl\n---\nbody {{name}}\n---");
    let a = render_page(&d, &s.layouts, &s.posts).ok();
    let b = render_page(&d, &s.layouts, &s.posts).ok();
    assert_eq!(a, Some("[\nbody p\n]".to_string()));
    assert_eq!(a, b);
}

#[test]
fn oversized_integer_literal_is_a_render_error() {
    let d = doc("src/page.tpl", "{{ 99999999999999999999 }}");
    match render_page(&d, &Attributes::new(), &Vec::new()) {
        Err(BuildError::Render(p, _)) => assert_eq!(p, "page.tpl"),
        _ => panic!("expected a render error"),
    }
}

#[test]
fn integer_overflow_in_filter_is_a_render_error() {
    let d = doc("src/page.tpl", "{{ 9223372036854775807 | plus: 1 }}");
    match render_page(&d, &Attributes::new(), &Vec::new()) {
        Err(BuildError::Render(p, _)) => assert_eq!(p, "page.tpl"),
        Ok(page) => assert_eq!(page, "-9223372036854775808"),
        _ => panic!("expected a render error"),
    }
}

#[test]
fn post_index_takes_place_of_posts_attribute() {
    let mut s = site();
    assert!(s.add_document("src/_posts/a.md", "title: A\n---\na\n---").is_ok());
    let d = doc("src/index.tpl", "posts: shadowed\n---\n{{ posts | size }}\n---");
    let out = render_page(&d, &s.layouts, &s.posts);
    assert_eq!(out.ok(), Some("\n1\n".to_string()));
    let v = template_vars(&d.attributes);
    assert_eq!(v.get("posts"), None);
    assert_eq!(v.get("name").cloned(), Some("index".to_string()));
}

#[test]
fn after_body_without_layout_is_the_body() {
    let d = doc("src/page.tpl", "x");
    match after_body(&d, None, "rendered".to_string()) {
        PageStep::Done(p) => assert_eq!(p, "rendered"),
        PageStep::Wrap(_, _) => panic!("expected a finished page"),
    }
    let layout = "[{{content}}]".to_string();
    match after_body(&d, Some(&layout), "rendered".to_string()) {
        PageStep::Wrap(t, vars) => {
            assert_eq!(t, "[{{content}}]");
            assert_eq!(vars.get("content").cloned(), Some("rendered".to_string()));
            assert_eq!(vars.get("name").cloned(), Some("page".to_string()));
        }
        PageStep::Done(_) => panic!("expected a layout step"),
    }
}

#[test]
fn attributes_without_key() {
    let mut a = Attributes::new();
    a.insert("k".to_string(), "1".to_string());
    a.insert("j".to_string(), "2".to_string());
    a.insert("k".to_string(), "3".to_string());
    let b = a.without("k");
    assert_eq!(b.get("k"), None);
    assert_eq!(b.get("j").cloned(), Some("2".to_string()));
}

#[test]
fn every_error_message() {
    assert_eq!(BuildError::Path("p".to_string()).message(), "path is not under the source root: p");
    assert_eq!(
        BuildError::Render("p".to_string(), "bad".to_string()).message(),
        "cannot render p: bad"
    );
    assert_eq!(
        BuildError::Io("p".to_string(), "gone".to_string()).message(),
        "cannot access p: gone"
    );
}
