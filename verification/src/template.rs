//! The widget page: choosing the template, reporting why a custom template
//! could not be used, and placing the template into the page wrapper.

use vstd::prelude::*;

use crate::config::{TemplateMode, WidgetConfig};
use crate::text::{append_str, lemma_replaced_absent, occurs_in, replace_str, replaced, string_from_chars};

verus! {

/// The engine that assembles the widget page.
pub struct TemplateEngine {}

/// Where the widget template comes from, by the settings.
#[derive(Clone, Debug)]
pub enum TemplateSource {
    /// The bundled default template.
    Bundled,
    /// The user's template file at this path.
    CustomFile(String),
    /// A custom template was chosen, but no path was set.
    MissingCustomPath,
}

/// The marker in the page wrapper where the widget template goes.
pub open spec fn placeholder() -> Seq<char> {
    "{{TEMPLATE}}"@
}

/// The error text when the custom template file could not be read.
pub open spec fn custom_read_error(path: Seq<char>, reason: Seq<char>) -> Seq<char> {
    "Failed to load custom template '"@ + path + "': "@ + reason + ". Falling back to default."@
}

/// The error text when a custom template was chosen without a path.
pub open spec fn missing_path_error() -> Seq<char> {
    "Custom template path not set. Falling back to default."@
}

/// The widget template that the settings select, given the bundled
/// template and the outcome of reading the custom file (consulted only
/// when the settings name one), or the error text.
pub open spec fn selected_template(
    config: WidgetConfig,
    bundled: Seq<char>,
    custom_read: Result<String, String>,
) -> Result<Seq<char>, Seq<char>> {
    match config.template_mode {
        TemplateMode::Default => Ok(bundled),
        TemplateMode::Custom => match config.custom_template_path {
            Some(path) => match custom_read {
                Ok(contents) => Ok(contents@),
                Err(reason) => Err(custom_read_error(path@, reason@)),
            },
            None => Err(missing_path_error()),
        },
    }
}

/// A text result taken by its model.
pub open spec fn text_result(r: Result<String, String>) -> Result<Seq<char>, Seq<char>> {
    match r {
        Ok(s) => Ok(s@),
        Err(e) => Err(e@),
    }
}

/// The page: the wrapper with every placeholder replaced by the selected
/// template, or the error text when there is no template.
pub open spec fn rendered_page(
    config: WidgetConfig,
    bundled: Seq<char>,
    custom_read: Result<String, String>,
    wrapper: Seq<char>,
) -> Result<Seq<char>, Seq<char>> {
    match selected_template(config, bundled, custom_read) {
        Ok(t) => Ok(replaced(wrapper, placeholder(), t)),
        Err(e) => Err(e),
    }
}

impl TemplateEngine {
    /// The path of a bundled asset: `{base}/assets/{filename}`, where
    /// `base` is the project directory.
    pub fn asset_path(base: &str, filename: &str) -> (r: String)
        ensures
            r@ == base@ + "/assets/"@ + filename@,
    {
        let mut out: Vec<char> = Vec::new();
        append_str(&mut out, base);
        append_str(&mut out, "/assets/");
        append_str(&mut out, filename);
        string_from_chars(&out)
    }

    /// Where the widget template is to be read from.
    pub fn template_source(config: &WidgetConfig) -> (r: TemplateSource)
        ensures
            match config.template_mode {
                TemplateMode::Default => r is Bundled,
                TemplateMode::Custom => match config.custom_template_path {
                    Some(p) => r matches TemplateSource::CustomFile(q) && q@ == p@,
                    None => r is MissingCustomPath,
                },
            },
    {
        match config.template_mode {
            TemplateMode::Default => TemplateSource::Bundled,
            TemplateMode::Custom => match &config.custom_template_path {
                Some(p) => TemplateSource::CustomFile(p.clone()),
                None => TemplateSource::MissingCustomPath,
            },
        }
    }

    /// The widget template that the settings select (see
    /// `selected_template`): the bundled one, the custom file's contents,
    /// or the error text that says why the custom template is not used.
    pub fn load_template(config: &WidgetConfig, bundled: &str, custom_read: Result<String, String>) -> (r: Result<
        String,
        String,
    >)
        ensures
            text_result(r) == selected_template(*config, bundled@, custom_read),
    {
        match config.template_mode {
            TemplateMode::Default => Ok(String::from_str(bundled)),
            TemplateMode::Custom => match &config.custom_template_path {
                Some(path) => match custom_read {
                    Ok(contents) => Ok(contents),
                    Err(reason) => {
                        let mut msg: Vec<char> = Vec::new();
                        append_str(&mut msg, "Failed to load custom template '");
                        append_str(&mut msg, path.as_str());
                        append_str(&mut msg, "': ");
                        append_str(&mut msg, reason.as_str());
                        append_str(&mut msg, ". Falling back to default.");
                        Err(string_from_chars(&msg))
                    },
                },
                None => Err(String::from_str("Custom template path not set. Falling back to default.")),
            },
        }
    }

    /// The widget page (see `rendered_page`): the page wrapper with the
    /// selected template in place of `{{TEMPLATE}}`.
    pub fn render_live_template_with_config(
        config: &WidgetConfig,
        bundled: &str,
        custom_read: Result<String, String>,
        wrapper: &str,
    ) -> (r: Result<String, String>)
        ensures
            text_result(r) == rendered_page(*config, bundled@, custom_read, wrapper@),
            config.template_mode == TemplateMode::Default ==> (r matches Ok(page) && page@ == replaced(
                wrapper@,
                "{{TEMPLATE}}"@,
                bundled@,
            )),
            config.template_mode == TemplateMode::Custom && config.custom_template_path is Some ==> (
            match custom_read {
                Ok(c) => (r matches Ok(page) && page@ == replaced(wrapper@, "{{TEMPLATE}}"@, c@)),
                Err(_) => r is Err,
            }),
            config.template_mode == TemplateMode::Custom && (config.custom_template_path is None
                || custom_read is Err) ==> r is Err,
    {
        proof {
            lemma_page_shows_selected_template(*config, bundled@, custom_read, wrapper@);
        }
        let template = TemplateEngine::load_template(config, bundled, custom_read)?;
        proof {
            reveal_strlit("{{TEMPLATE}}");
        }
        Ok(replace_str(wrapper, "{{TEMPLATE}}", template.as_str()))
    }
}

/// The page shows the template the settings select: the bundled one in
/// default mode, the custom file's contents in custom mode when it was
/// read, each put in place of every `{{TEMPLATE}}` of the wrapper; a custom
/// template without a path, or one that could not be read, gives an error.
pub proof fn lemma_page_shows_selected_template(
    config: WidgetConfig,
    bundled: Seq<char>,
    custom_read: Result<String, String>,
    wrapper: Seq<char>,
)
    ensures
        config.template_mode == TemplateMode::Default ==> rendered_page(config, bundled, custom_read, wrapper)
            == Ok::<Seq<char>, Seq<char>>(replaced(wrapper, "{{TEMPLATE}}"@, bundled)),
        config.template_mode == TemplateMode::Custom && config.custom_template_path is Some ==> (
        match custom_read {
            Ok(c) => rendered_page(config, bundled, custom_read, wrapper) == Ok::<Seq<char>, Seq<char>>(
                replaced(wrapper, "{{TEMPLATE}}"@, c@),
            ),
            Err(_) => rendered_page(config, bundled, custom_read, wrapper) is Err,
        }),
        config.template_mode == TemplateMode::Custom && (config.custom_template_path is None
            || custom_read is Err) ==> rendered_page(config, bundled, custom_read, wrapper) is Err,
{
}

/// With a wrapper that holds the placeholder once, the custom template read
/// from its file stands between the text before and after the placeholder.
pub proof fn lemma_custom_template_in_page(
    config: WidgetConfig,
    bundled: Seq<char>,
    contents: String,
    before: Seq<char>,
    after: Seq<char>,
)
    requires
        config.template_mode == TemplateMode::Custom,
        config.custom_template_path is Some,
        forall|i: int|
            0 <= i && i + placeholder().len() <= (before + placeholder() + after).len() && i != before.len()
                ==> #[trigger] (before + placeholder() + after).subrange(i, i + placeholder().len()) != placeholder(),
    ensures
        rendered_page(config, bundled, Ok(contents), before + "{{TEMPLATE}}"@ + after) == Ok::<
            Seq<char>,
            Seq<char>,
        >(before + contents@ + after),
{
    lemma_page_shows_selected_template(config, bundled, Ok(contents), before + "{{TEMPLATE}}"@ + after);
    lemma_single_placeholder(before, after, contents@);
}

/// The first of the candidate contents that could be read, else the
/// embedded fallback.
pub open spec fn first_available_text(candidates: Seq<Option<String>>, fallback: Seq<char>) -> Seq<char>
    decreases candidates.len(),
{
    if candidates.len() == 0 {
        fallback
    } else {
        match candidates[0] {
            Some(s) => s@,
            None => first_available_text(candidates.drop_first(), fallback),
        }
    }
}

/// The first of the candidate contents that could be read (tried in
/// order: the project's asset, then the bundle's resources), else the
/// embedded fallback.
pub fn first_available(candidates: &Vec<Option<String>>, fallback: &str) -> (r: String)
    ensures
        r@ == first_available_text(candidates@, fallback@),
{
    assert(candidates@.skip(0) =~= candidates@);
    for i in 0..candidates.len()
        invariant
            first_available_text(candidates@, fallback@) == first_available_text(
                candidates@.skip(i as int),
                fallback@,
            ),
    {
        assert(candidates@.skip(i as int)[0] == candidates@[i as int]);
        assert(candidates@.skip(i as int).drop_first() =~= candidates@.skip(i + 1));
        match &candidates[i] {
            Some(s) => {
                return s.clone();
            },
            None => {},
        }
    }
    assert(candidates@.skip(candidates.len() as int) =~= Seq::<Option<String>>::empty());
    String::from_str(fallback)
}

/// The first readable candidate wins, whatever follows it; with none
/// readable, the embedded fallback is used.
pub proof fn lemma_first_available(candidates: Seq<Option<String>>, fallback: Seq<char>, k: int)
    requires
        0 <= k < candidates.len(),
        candidates[k] is Some,
        forall|i: int| 0 <= i < k ==> #[trigger] candidates[i] is None,
    ensures
        first_available_text(candidates, fallback) == candidates[k]->Some_0@,
    decreases k,
{
    if k > 0 {
        assert(candidates[0] is None);
        let t = candidates.drop_first();
        assert forall|i: int| 0 <= i < k - 1 implies #[trigger] t[i] is None by {
            assert(t[i] == candidates[i + 1]);
        }
        lemma_first_available(t, fallback, k - 1);
    }
}

/// With no readable candidate, the embedded fallback is used.
pub proof fn lemma_fallback_when_none_readable(candidates: Seq<Option<String>>, fallback: Seq<char>)
    requires
        forall|i: int| 0 <= i < candidates.len() ==> #[trigger] candidates[i] is None,
    ensures
        first_available_text(candidates, fallback) == fallback,
    decreases candidates.len(),
{
    if candidates.len() > 0 {
        let t = candidates.drop_first();
        assert(candidates[0] is None);
        assert forall|i: int| 0 <= i < t.len() implies #[trigger] t[i] is None by {
            assert(t[i] == candidates[i + 1]);
        }
        lemma_fallback_when_none_readable(t, fallback);
    }
}

/// Text before any position below `k` that starts no match is kept as is.
proof fn lemma_replaced_keeps_prefix(s: Seq<char>, k: int, pat: Seq<char>, rep: Seq<char>)
    requires
        pat.len() > 0,
        0 <= k <= s.len(),
        forall|i: int|
            0 <= i < k && i + pat.len() <= s.len() ==> #[trigger] s.subrange(i, i + pat.len()) != pat,
    ensures
        replaced(s, pat, rep) == s.take(k) + replaced(s.skip(k), pat, rep),
    decreases k,
{
    if k == 0 {
        assert(s.take(0) + s =~= s);
        assert(s.skip(0) =~= s);
    } else {
        if s.len() >= pat.len() && s.take(pat.len() as int) == pat {
            assert(s.subrange(0int, 0int + pat.len()) =~= s.take(pat.len() as int));
            assert(false);
        }
        let t = s.drop_first();
        assert forall|i: int| 0 <= i < k - 1 && i + pat.len() <= t.len() implies #[trigger] t.subrange(
            i,
            i + pat.len(),
        ) != pat by {
            assert(t.subrange(i, i + pat.len()) =~= s.subrange(i + 1, i + 1 + pat.len()));
        }
        lemma_replaced_keeps_prefix(t, k - 1, pat, rep);
        assert(t.skip(k - 1) =~= s.skip(k));
        assert(seq![s[0]] + t.take(k - 1) =~= s.take(k));
    }
}

/// A page wrapper that holds the placeholder exactly once renders to the
/// text around the placeholder with the template in between.
pub proof fn lemma_single_placeholder(before: Seq<char>, after: Seq<char>, template: Seq<char>)
    requires
        forall|i: int|
            0 <= i && i + placeholder().len() <= (before + placeholder() + after).len() && i != before.len()
                ==> #[trigger] (before + placeholder() + after).subrange(i, i + placeholder().len()) != placeholder(),
    ensures
        replaced(before + placeholder() + after, placeholder(), template) == before + template + after,
{
    reveal_strlit("{{TEMPLATE}}");
    let p = placeholder();
    let s = before + p + after;
    assert(p.len() == 12);
    lemma_replaced_keeps_prefix(s, before.len() as int, p, template);
    assert(s.take(before.len() as int) =~= before);
    let rest = s.skip(before.len() as int);
    assert(rest =~= p + after);
    assert(rest.take(p.len() as int) =~= p);
    assert(rest.skip(p.len() as int) =~= after);
    assert(!occurs_in(p, after)) by {
        if occurs_in(p, after) {
            let i = choose|i: int| 0 <= i && i + p.len() <= after.len() && #[trigger] after.subrange(i, i + p.len()) == p;
            let j = before.len() + p.len() + i;
            assert(s.subrange(j, j + p.len()) =~= after.subrange(i, i + p.len()));
        }
    }
    lemma_replaced_absent(after, p, template);
    assert(before + (template + after) =~= before + template + after);
}

/// A page wrapper without the placeholder is served unchanged.
pub proof fn lemma_wrapper_without_placeholder(wrapper: Seq<char>, template: Seq<char>)
    requires
        !occurs_in(placeholder(), wrapper),
    ensures
        replaced(wrapper, placeholder(), template) == wrapper,
{
    reveal_strlit("{{TEMPLATE}}");
    lemma_replaced_absent(wrapper, placeholder(), template);
}

} // verus!
