//! Strict rendering of one template against a map of substitutions.

use std::collections::HashMap;
use vstd::prelude::*;
use vstd::string::StringExecFns;
use vstd::utf8::encode_utf8;

use crate::engine::{self, render_outcome, strict_description};
use crate::error::{ErrorKind, ErrorView, ProgramError};
use crate::template::{find_flaw, first_flaw, mentions};
use crate::text::starts_with;

verus! {

/// What is done to a substituted value before it enters the output.
#[derive(Clone, Copy, Debug, PartialEq, Eq, Structural)]
pub enum Escaping {
    /// The characters `&`, `<`, `>`, `=`, the backquote and both quotes are
    /// written as HTML entities. This is the engine's own default.
    Html,
    /// Values enter the output as they are.
    Off,
}

/// The template's text as the caller read it.
#[derive(Clone, Debug, PartialEq, Eq)]
pub enum TemplateSource {
    /// The whole text of the template.
    Text(String),
    /// The source was opened, but reading it failed.
    Unreadable,
}

impl View for TemplateSource {
    type V = Option<Seq<char>>;

    open spec fn view(&self) -> Option<Seq<char>> {
        match self {
            TemplateSource::Text(text) => Some(text@),
            TemplateSource::Unreadable => None,
        }
    }
}

/// All that one run needs: the template, the substitutions and the
/// destination.
#[derive(Clone, Debug)]
pub struct Configuration {
    pub template: TemplateSource,
    pub mappings: HashMap<String, String>,
    pub output_file: String,
    pub escaping: Escaping,
}

/// The mathematical content of a [`Configuration`].
pub struct ConfigurationView {
    pub template: Option<Seq<char>>,
    pub mappings: Map<Seq<char>, Seq<char>>,
    pub output_file: Seq<char>,
    pub escaping: Escaping,
}

impl View for Configuration {
    type V = ConfigurationView;

    open spec fn view(&self) -> ConfigurationView {
        ConfigurationView {
            template: self.template@,
            mappings: self.mappings.deep_view(),
            output_file: self.output_file@,
            escaping: self.escaping,
        }
    }
}

/// The rendered text, on its way to the destination.
#[derive(Clone, Debug, PartialEq, Eq)]
pub struct RenderResult {
    pub result: String,
    pub output_file: String,
}

/// The mathematical content of a [`RenderResult`].
pub struct RenderView {
    pub result: Seq<char>,
    pub output_file: Seq<char>,
}

impl View for RenderResult {
    type V = RenderView;

    open spec fn view(&self) -> RenderView {
        RenderView { result: self.result@, output_file: self.output_file@ }
    }
}

/// The name under which the one template of a run is registered.
pub open spec fn template_name() -> Seq<char> {
    "input"@
}

/// The error that stands for a failure of the engine with this description.
///
/// A description that begins with `Variable` reports a placeholder without a
/// value; one that begins with `Template not found` reports that the engine
/// does not know the template it was asked for.
pub open spec fn render_failure(description: Seq<char>) -> ErrorView {
    if "Variable"@.is_prefix_of(description) {
        ErrorView { kind: ErrorKind::MissingKey, detail: description }
    } else if "Template not found"@.is_prefix_of(description) {
        ErrorView { kind: ErrorKind::InvalidTemplate, detail: "Couldn't recognize template."@ }
    } else {
        ErrorView { kind: ErrorKind::RenderError, detail: description }
    }
}

/// What came back from the engine for a plain template.
#[derive(Clone, Debug, PartialEq, Eq)]
pub enum EngineOutcome {
    /// The engine's parser refused the source, with this reason.
    Refused(String),
    /// The engine rendered the template to this text.
    Rendered(String),
    /// The engine failed to render the template, with this description.
    Failed(String),
}

/// The mathematical content of an [`EngineOutcome`].
pub enum EngineView {
    Refused(Seq<char>),
    Rendered(Seq<char>),
    Failed(Seq<char>),
}

impl View for EngineOutcome {
    type V = EngineView;

    open spec fn view(&self) -> EngineView {
        match self {
            EngineOutcome::Refused(reason) => EngineView::Refused(reason@),
            EngineOutcome::Rendered(text) => EngineView::Rendered(text@),
            EngineOutcome::Failed(description) => EngineView::Failed(description@),
        }
    }
}

/// What the engine's outcome means for the run: a refusal of the parser is
/// an Invalid Template with the parser's reason, the text goes to the
/// destination, and a failure to render is classified by its description.
pub open spec fn result_of(outcome: EngineView, output_file: Seq<char>) -> Result<
    RenderView,
    ErrorView,
> {
    match outcome {
        EngineView::Refused(reason) => Err(
            ErrorView { kind: ErrorKind::InvalidTemplate, detail: reason },
        ),
        EngineView::Rendered(text) => Ok(RenderView { result: text, output_file }),
        EngineView::Failed(description) => Err(render_failure(description)),
    }
}

/// What the engine's rendering is as an outcome of the engine.
pub open spec fn rendered_view(outcome: Result<Seq<char>, Seq<char>>) -> EngineView {
    match outcome {
        Ok(text) => EngineView::Rendered(text),
        Err(description) => EngineView::Failed(description),
    }
}

/// The error that ends a run before the engine is asked: a source that
/// could not be read is a Render Error, and a source that is no plain
/// template is an Invalid Template with the reason of its first flaw.
/// `None` where the source is a plain template.
pub open spec fn refused_before_engine(config: ConfigurationView) -> Option<ErrorView> {
    match config.template {
        None => Some(
            ErrorView {
                kind: ErrorKind::RenderError,
                detail: "I/O Error when rendering template."@,
            },
        ),
        Some(source) => match first_flaw(source) {
            Some(flaw) => Some(
                ErrorView { kind: ErrorKind::InvalidTemplate, detail: flaw.reason_text() },
            ),
            None => None,
        },
    }
}

/// What rendering a configuration yields where the engine's parser accepts
/// the source: the error that ends the run before the engine is asked, or
/// what the engine makes of the one template, registered as `input` and
/// rendered in strict mode.
pub open spec fn rendering(config: ConfigurationView) -> Result<RenderView, ErrorView> {
    match refused_before_engine(config) {
        Some(error) => Err(error),
        None => result_of(
            rendered_view(
                render_outcome(
                    Map::<Seq<char>, Seq<char>>::empty().insert(
                        template_name(),
                        config.template->Some_0,
                    ),
                    true,
                    config.escaping == Escaping::Html,
                    template_name(),
                    config.mappings,
                ),
            ),
            config.output_file,
        ),
    }
}

/// Whether the configuration holds a plain template with a placeholder for
/// `key`, and no value for that key.
pub open spec fn lacks(config: ConfigurationView, key: Seq<char>) -> bool {
    &&& config.template matches Some(source)
    &&& mentions(source, key)
    &&& !config.mappings.contains_key(key)
}

/// Whether a run on `config` may end with `outcome`.
///
/// A run that ends before the engine is asked ends with its error. On a
/// plain template, the run gives text only where no key is lacking, and
/// then the text that the engine renders. It fails with Missing Key only
/// where a key is lacking, and then with the engine's description, which
/// names such a key. Whether the engine's parser accepts the source is not
/// decided by the source alone; where it refuses, the run is an Invalid
/// Template with the parser's reason.
pub open spec fn is_render_of(
    config: ConfigurationView,
    outcome: Result<RenderView, ErrorView>,
) -> bool {
    match refused_before_engine(config) {
        Some(error) => outcome == Err::<RenderView, ErrorView>(error),
        None => match outcome {
            Ok(rendered) => {
                &&& outcome == rendering(config)
                &&& forall|key: Seq<char>| !#[trigger] lacks(config, key)
            },
            Err(error) => {
                ||| error.kind == ErrorKind::InvalidTemplate
                ||| {
                    &&& error.kind == ErrorKind::MissingKey
                    &&& outcome == rendering(config)
                    &&& exists|key: Seq<char>| #[trigger]
                        lacks(config, key) && error.detail == strict_description(key)
                }
            },
        },
    }
}

/// The mathematical content of what [`render_template`] returns.
pub open spec fn render_view(outcome: Result<RenderResult, ProgramError>) -> Result<
    RenderView,
    ErrorView,
> {
    match outcome {
        Ok(rendered) => Ok(rendered@),
        Err(error) => Err(error@),
    }
}

impl Configuration {
    /// A configuration that escapes substituted values for HTML, as the
    /// engine does unless told otherwise.
    pub fn new(
        template: TemplateSource,
        mappings: HashMap<String, String>,
        output_file: String,
    ) -> (config: Configuration)
        ensures
            config.template == template,
            config.mappings == mappings,
            config.output_file == output_file,
            config.escaping == Escaping::Html,
    {
        Configuration { template, mappings, output_file, escaping: Escaping::Html }
    }

    /// The same configuration with another treatment of substituted values.
    pub fn with_escaping(self, escaping: Escaping) -> (config: Configuration)
        ensures
            config.template == self.template,
            config.mappings == self.mappings,
            config.output_file == self.output_file,
            config.escaping == escaping,
    {
        Configuration {
            template: self.template,
            mappings: self.mappings,
            output_file: self.output_file,
            escaping,
        }
    }
}

/// Classifies a failure of the engine by its description.
pub fn classify_render_failure(description: String) -> (error: ProgramError)
    ensures
        error@ == render_failure(description@),
{
    if starts_with(description.as_str(), "Variable") {
        ProgramError::MissingKey(description)
    } else if starts_with(description.as_str(), "Template not found") {
        ProgramError::InvalidTemplate(String::from_str("Couldn't recognize template."))
    } else {
        ProgramError::RenderError(description)
    }
}

/// What the engine's outcome means for the run: a refusal of the parser is
/// an Invalid Template with the parser's reason, the text goes to the
/// destination, and a failure to render is classified by its description.
pub fn render_result_from(outcome: EngineOutcome, output_file: String) -> (result: Result<
    RenderResult,
    ProgramError,
>)
    ensures
        render_view(result) == result_of(outcome@, output_file@),
{
    match outcome {
        EngineOutcome::Refused(reason) => Err(ProgramError::InvalidTemplate(reason)),
        EngineOutcome::Rendered(result) => Ok(RenderResult { result, output_file }),
        EngineOutcome::Failed(description) => Err(classify_render_failure(description)),
    }
}

/// The engine's description for a lacking key begins with `Variable`, so
/// that the failure is classified as Missing Key, with the description as
/// its detail.
pub proof fn strict_description_is_missing_key(key: Seq<char>)
    ensures
        render_failure(strict_description(key)) == (ErrorView {
            kind: ErrorKind::MissingKey,
            detail: strict_description(key),
        }),
{
    reveal_strlit("Variable ");
    reveal_strlit("Variable");
    assert("Variable"@ =~= strict_description(key).subrange(0, 8));
}

/// Checks that the template is plain, and renders it in strict mode against
/// the substitutions.
///
/// Either the whole text is returned, together with the destination it is
/// meant for, or one classified error: nothing is returned of a template
/// that failed half way. A template with a placeholder for a key without a
/// value is never rendered: it fails with Missing Key and a description
/// that names such a key, unless the engine's parser refuses the source.
pub fn render_template(config: Configuration) -> (outcome: Result<RenderResult, ProgramError>)
    ensures
        is_render_of(config@, render_view(outcome)),
{
    let ghost content = config@;
    let Configuration { template, mappings, output_file, escaping } = config;
    let source = match template {
        TemplateSource::Text(text) => text,
        TemplateSource::Unreadable => {
            return Err(
                ProgramError::RenderError(String::from_str("I/O Error when rendering template.")),
            );
        },
    };
    match find_flaw(source.as_str()) {
        Some(flaw) => {
            return Err(ProgramError::InvalidTemplate(flaw.reason()));
        },
        None => {},
    }
    let mut registry = engine::new_registry();
    engine::set_strict_mode(&mut registry, true);
    match escaping {
        Escaping::Html => {},
        Escaping::Off => engine::disable_escaping(&mut registry),
    }
    match engine::register_template_string(&mut registry, "input", source.as_str()) {
        Ok(()) => {},
        Err(reason) => {
            return render_result_from(EngineOutcome::Refused(reason), output_file);
        },
    }
    let ghost templates = engine::registered_templates(registry);
    assert(templates == Map::<Seq<char>, Seq<char>>::empty().insert(template_name(), source@));
    assert(engine::holds_plain_only(templates));
    assert(templates[template_name()] == source@);
    match engine::render(&registry, "input", &mappings) {
        Ok(text) => {
            proof {
                assert forall|key: Seq<char>| !#[trigger] lacks(content, key) by {
                    if lacks(content, key) {
                        assert(mentions(source@, key));
                        assert(engine::lacks_a_key(source@, content.mappings));
                    }
                }
            }
            render_result_from(EngineOutcome::Rendered(text), output_file)
        },
        Err(description) => {
            proof {
                let key = choose|key: Seq<char>| #[trigger]
                    mentions(source@, key) && !content.mappings.contains_key(key)
                        && description@ == strict_description(key);
                strict_description_is_missing_key(key);
                assert(lacks(content, key));
            }
            render_result_from(EngineOutcome::Failed(description), output_file)
        },
    }
}

/// Rendering is deterministic where the engine's parser is: two runs on
/// configurations of the same content end alike, down to the bytes of the
/// rendered text, unless the parser refused the plain template of one of
/// them.
pub proof fn render_is_deterministic(
    first: ConfigurationView,
    second: ConfigurationView,
    a: Result<RenderView, ErrorView>,
    b: Result<RenderView, ErrorView>,
)
    requires
        first == second,
        is_render_of(first, a),
        is_render_of(second, b),
        refused_before_engine(first) is None ==> !(a is Err && a->Err_0.kind
            == ErrorKind::InvalidTemplate) && !(b is Err && b->Err_0.kind
            == ErrorKind::InvalidTemplate),
    ensures
        a == b,
        a is Ok ==> b is Ok && encode_utf8(a->Ok_0.result) == encode_utf8(b->Ok_0.result),
{
}

/// Rendering is strict: a run on a template with a placeholder for a key
/// without a value never gives text. It fails with Missing Key, and then
/// with the engine's description for a lacking key, or, where the engine's
/// parser refuses the source, as an Invalid Template.
pub proof fn lacking_key_gives_no_text(
    config: ConfigurationView,
    key: Seq<char>,
    outcome: Result<RenderView, ErrorView>,
)
    requires
        lacks(config, key),
        is_render_of(config, outcome),
    ensures
        outcome is Err,
        outcome->Err_0.kind == ErrorKind::MissingKey || outcome->Err_0.kind
            == ErrorKind::InvalidTemplate,
        outcome->Err_0.kind == ErrorKind::MissingKey ==> exists|lacking: Seq<char>| #[trigger]
            lacks(config, lacking) && outcome->Err_0.detail == strict_description(lacking),
{
}

/// A run on a plain template with a value for every key gives the text that
/// the engine renders, unless the engine's parser refuses the source.
pub proof fn complete_data_gives_text(
    config: ConfigurationView,
    outcome: Result<RenderView, ErrorView>,
)
    requires
        refused_before_engine(config) is None,
        forall|key: Seq<char>| !#[trigger] lacks(config, key),
        is_render_of(config, outcome),
    ensures
        outcome is Ok || outcome->Err_0.kind == ErrorKind::InvalidTemplate,
        outcome is Ok ==> outcome == rendering(config),
{
}

} // verus!
