use now_playing::template::{first_available, TemplateSource};
use now_playing::{TemplateEngine, TemplateMode, WidgetConfig};

fn widget(mode: TemplateMode, path: Option<&str>) -> WidgetConfig {
    WidgetConfig {
        width: 360,
        height: 160,
        template: String::new(),
        template_mode: mode,
        custom_template_path: path.map(|p| p.to_string()),
    }
}

#[test]
fn asset_path_joins() {
    assert_eq!(TemplateEngine::asset_path("/proj", "template_wrapper.html"), "/proj/assets/template_wrapper.html");
}

#[test]
fn sources() {
    assert!(matches!(TemplateEngine::template_source(&widget(TemplateMode::Default, Some("x"))), TemplateSource::Bundled));
    match TemplateEngine::template_source(&widget(TemplateMode::Custom, Some("/t.html"))) {
        TemplateSource::CustomFile(p) => assert_eq!(p, "/t.html"),
        other => panic!("unexpected {:?}", other),
    }
    assert!(matches!(TemplateEngine::template_source(&widget(TemplateMode::Custom, None)), TemplateSource::MissingCustomPath));
}

#[test]
fn load_template_cases() {
    let w = widget(TemplateMode::Default, None);
    assert_eq!(TemplateEngine::load_template(&w, "<b>", Err("unused".to_string())), Ok("<b>".to_string()));
    let w = widget(TemplateMode::Custom, Some("/t.html"));
    assert_eq!(TemplateEngine::load_template(&w, "<b>", Ok("<i>".to_string())), Ok("<i>".to_string()));
    assert_eq!(
        TemplateEngine::load_template(&w, "<b>", Err("No such file".to_string())),
        Err("Failed to load custom template '/t.html': No such file. Falling back to default.".to_string())
    );
    let w = widget(TemplateMode::Custom, None);
    assert_eq!(
        TemplateEngine::load_template(&w, "<b>", Ok("<i>".to_string())),
        Err("Custom template path not set. Falling back to default.".to_string())
    );
}

#[test]
fn render_places_template() {
    let w = widget(TemplateMode::Default, None);
    let page = TemplateEngine::render_live_template_with_config(&w, "<p>{title}</p>", Ok(String::new()), "<html>{{TEMPLATE}}</html>");
    assert_eq!(page, Ok("<html><p>{title}</p></html>".to_string()));
    let page = TemplateEngine::render_live_template_with_config(&w, "X", Ok(String::new()), "<html></html>");
    assert_eq!(page, Ok("<html></html>".to_string()));
    let w = widget(TemplateMode::Custom, None);
    let page = TemplateEngine::render_live_template_with_config(&w, "X", Ok(String::new()), "{{TEMPLATE}}");
    assert!(page.is_err());
}

#[test]
fn first_available_candidate() {
    assert_eq!(first_available(&vec![None, Some("b".to_string()), Some("c".to_string())], "z"), "b");
    assert_eq!(first_available(&vec![None, None], "z"), "z");
    assert_eq!(first_available(&vec![], "z"), "z");
}
