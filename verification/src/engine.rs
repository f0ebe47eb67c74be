//! The template engine: a `handlebars` registry, seen through what it holds.
//!
//! Nothing here is proved. Each item states what the engine's source shows
//! of one of its functions; the rest of the library is verified against
//! these statements.

use handlebars::Handlebars;
use std::collections::HashMap;
use vstd::prelude::*;

use crate::template::{is_plain_text, mentions};

verus! {

/// The engine's registry of templates, opaque to the verifier.
#[verifier::external_type_specification]
#[verifier::external_body]
pub struct ExHandlebars<'reg>(handlebars::Handlebars<'reg>);

/// The templates a registry holds: under each name, the source text that was
/// registered last under it.
pub uninterp spec fn registered_templates(registry: Handlebars<'static>) -> Map<
    Seq<char>,
    Seq<char>,
>;

/// Whether the registry is in strict mode, in which a value that the data
/// lacks is an error and not an empty string.
pub uninterp spec fn strict_mode(registry: Handlebars<'static>) -> bool;

/// Whether the registry's escape function is the engine's `html_escape`
/// (`true`) or its `no_escape` (`false`).
pub uninterp spec fn escapes_html(registry: Handlebars<'static>) -> bool;

/// Whether the registry holds the helpers and decorators that a new registry
/// comes with and no other, and escapes with `html_escape` or `no_escape`.
pub uninterp spec fn has_builtins_only(registry: Handlebars<'static>) -> bool;

/// What `{:?}` writes for a string with this text, as `std` does it:
/// the text between double quotes, with the characters that `std` escapes
/// written as escapes.
pub uninterp spec fn debug_quoted(text: Seq<char>) -> Seq<char>;

/// What the engine makes of the template `name`, among `templates`, with
/// `data`: the rendered text, or the description of its failure.
pub uninterp spec fn render_outcome(
    templates: Map<Seq<char>, Seq<char>>,
    strict: bool,
    escape_html: bool,
    name: Seq<char>,
    data: Map<Seq<char>, Seq<char>>,
) -> Result<Seq<char>, Seq<char>>;

/// The templates and settings of a registry.
pub struct RegistryView {
    pub templates: Map<Seq<char>, Seq<char>>,
    pub strict: bool,
    pub escape_html: bool,
}

/// The templates and settings of `registry`, gathered from their names.
pub open spec fn registry_view(registry: Handlebars<'static>) -> RegistryView {
    RegistryView {
        templates: registered_templates(registry),
        strict: strict_mode(registry),
        escape_html: escapes_html(registry),
    }
}

/// Whether every template among `templates` is plain: literal text and
/// placeholders for keys, with no block, partial, helper call or escape.
pub open spec fn holds_plain_only(templates: Map<Seq<char>, Seq<char>>) -> bool {
    forall|name: Seq<char>| #[trigger]
        templates.contains_key(name) ==> is_plain_text(templates[name])
}

/// Whether the plain template `source` has a placeholder for a key that
/// `data` lacks.
pub open spec fn lacks_a_key(source: Seq<char>, data: Map<Seq<char>, Seq<char>>) -> bool {
    exists|key: Seq<char>| #[trigger] mentions(source, key) && !data.contains_key(key)
}

/// The description of the engine's failure for a key that the data lacks.
pub open spec fn strict_description(key: Seq<char>) -> Seq<char> {
    "Variable "@ + debug_quoted(key) + " not found in strict mode."@
}

/// `Handlebars::new`.
///
/// Trusted: a new registry holds no template, is not strict, escapes with
/// `html_escape`, and has the built-in helpers and decorators only.
#[verifier::external_body]
pub(crate) fn new_registry() -> (registry: Handlebars<'static>)
    ensures
        registry_view(registry) == (RegistryView {
            templates: Map::empty(),
            strict: false,
            escape_html: true,
        }),
        has_builtins_only(registry),
{
    Handlebars::new()
}

/// `Handlebars::set_strict_mode`.
///
/// Trusted: sets the strict flag and nothing else.
#[verifier::external_body]
pub(crate) fn set_strict_mode(registry: &mut Handlebars<'static>, enable: bool)
    ensures
        registry_view(*final(registry)) == (RegistryView {
            strict: enable,
            ..registry_view(*old(registry))
        }),
        has_builtins_only(*final(registry)) == has_builtins_only(*old(registry)),
{
    registry.set_strict_mode(enable)
}

/// `Handlebars::register_escape_fn`, called with the engine's `no_escape`.
///
/// Trusted: replaces the escape function and nothing else.
#[verifier::external_body]
pub(crate) fn disable_escaping(registry: &mut Handlebars<'static>)
    ensures
        registry_view(*final(registry)) == (RegistryView {
            escape_html: false,
            ..registry_view(*old(registry))
        }),
        has_builtins_only(*final(registry)) == has_builtins_only(*old(registry)),
{
    registry.register_escape_fn(handlebars::no_escape)
}

/// `Handlebars::register_template_string`, its error reduced to the text of
/// the error's `reason`.
///
/// The call is made only on a plain source: the engine's parser descends
/// into nested blocks by recursion, and a plain source has no block.
///
/// Trusted: an accepted source is stored under `name`, replacing what was
/// there; a rejected one leaves the registry as it was. Which of the two
/// happens is not claimed: the parser gives up where the stack of the
/// calling thread is short or a limit set for the whole process is used up,
/// so that it may refuse at one time what it accepts at another.
#[verifier::external_body]
pub(crate) fn register_template_string(
    registry: &mut Handlebars<'static>,
    name: &str,
    source: &str,
) -> (outcome: Result<(), String>)
    requires
        is_plain_text(source@),
    ensures
        outcome is Ok ==> registry_view(*final(registry)) == (RegistryView {
            templates: registered_templates(*old(registry)).insert(name@, source@),
            ..registry_view(*old(registry))
        }),
        outcome is Err ==> registry_view(*final(registry)) == registry_view(*old(registry)),
        has_builtins_only(*final(registry)) == has_builtins_only(*old(registry)),
{
    match registry.register_template_string(name, source) {
        Ok(()) => Ok(()),
        Err(e) => Err(e.reason.to_string()),
    }
}

/// `Handlebars::render` on a map of strings, its error reduced to the
/// error's `desc`.
///
/// The call is made only on a registry whose templates are all plain. The
/// engine expands partials and blocks by recursion and sets no bound on its
/// depth, so that on other templates it may not return; a plain template
/// has neither, and the engine walks it once from start to end.
///
/// Trusted, for a registry with the built-in helpers only:
/// - the outcome depends on the registered templates, the two settings, the
///   name and the data, and on nothing else; it is named by
///   [`render_outcome`];
/// - in strict mode the call fails if and only if the template has a
///   placeholder for a key that the data lacks: the key of a plain
///   placeholder is no helper's name, so the engine looks it up in the
///   data, and nothing else in a plain template can fail;
/// - it then fails with `RenderError::strict_error` for such a key, whose
///   description is `Variable`, the key as `{:?}` writes a string, and
///   `not found in strict mode.`
#[verifier::external_body]
pub(crate) fn render(
    registry: &Handlebars<'static>,
    name: &str,
    data: &HashMap<String, String>,
) -> (outcome: Result<String, String>)
    requires
        has_builtins_only(*registry),
        holds_plain_only(registered_templates(*registry)),
        registered_templates(*registry).contains_key(name@),
    ensures
        match render_outcome(
            registered_templates(*registry),
            strict_mode(*registry),
            escapes_html(*registry),
            name@,
            data.deep_view(),
        ) {
            Ok(text) => outcome is Ok && outcome->Ok_0@ == text,
            Err(description) => outcome is Err && outcome->Err_0@ == description,
        },
        strict_mode(*registry) ==> (outcome is Err <==> lacks_a_key(
            registered_templates(*registry)[name@],
            data.deep_view(),
        )),
        strict_mode(*registry) && outcome is Err ==> exists|key: Seq<char>| #[trigger]
            mentions(registered_templates(*registry)[name@], key) && !data.deep_view().contains_key(
                key,
            ) && outcome->Err_0@ == "Variable "@ + debug_quoted(key)
                + " not found in strict mode."@,
{
    match registry.render(name, data) {
        Ok(text) => Ok(text),
        Err(e) => Err(e.desc),
    }
}

} // verus!
