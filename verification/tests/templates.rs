//! Which sources are templates, and that the engine renders those as the
//! library says.

use replacer::{
    find_flaw, is_plain, render_result_from, render_template, sentence, Configuration,
    EngineOutcome, ErrorKind, Escaping, Flaw, ProgramError, RenderResult, TemplateSource,
};
use std::collections::HashMap;

fn substitutions(pairs: &[(&str, &str)]) -> HashMap<String, String> {
    let mut map = HashMap::new();
    for (key, value) in pairs {
        map.insert(key.to_string(), value.to_string());
    }
    map
}

fn rendered(template: &str, pairs: &[(&str, &str)]) -> Result<String, ProgramError> {
    render_template(Configuration::new(
        TemplateSource::Text(template.to_string()),
        substitutions(pairs),
        "out.txt".to_string(),
    ))
    .map(|rendered| rendered.result)
}

fn refused(flaw: Flaw) -> ProgramError {
    ProgramError::InvalidTemplate(flaw.reason())
}

fn missing(key: &str) -> ProgramError {
    ProgramError::MissingKey(format!("Variable {:?} not found in strict mode.", key))
}

#[test]
fn text_and_placeholders_are_plain() {
    for source in [
        "",
        "text",
        "{{name}}",
        "{{ name }}",
        "{{\tname\n}}",
        "Hello, {{name}}! {{day}}",
        "{{a}}{{b}}",
        "{{first-name}} {{_x}} {{$y}} {{9}} {{A1}}",
        "{{pr\u{e9}nom}}",
        "a { b } c }} d",
        "a{",
        "{ {name} }",
        "back\\slash and \\ {{name}}",
        "{{name}}}",
        "{{iff}} {{elsewhere}} {{thisx}} {{logs}}",
        "{{true}} {{false}} {{null}} {{as}}",
    ] {
        assert!(is_plain(source), "{:?}", source);
    }
}

#[test]
fn anything_else_between_braces_is_not_plain() {
    for source in [
        "{{",
        "{{name",
        "{{name}",
        "{{}}",
        "{{  }}",
        "{{{name}}}",
        "{{&name}}",
        "{{!comment}}",
        "{{!-- comment --}}",
        "{{> partial}}",
        "{{#if a}}x{{/if}}",
        "{{#each this}}x{{/each}}",
        "{{*inline}}",
        "{{^}}",
        "{{~name}}",
        "{{name~}}",
        "{{a.b}}",
        "{{a/b}}",
        "{{./a}}",
        "{{../a}}",
        "{{@root}}",
        "{{[a]}}",
        "{{\"a\"}}",
        "{{(a)}}",
        "{{a b}}",
        "{{a b=c}}",
        "{{lookup this \"a\"}}",
        "\\{{name}}",
        "\\\\{{name}}",
        "x{{a}}y{{",
        "{{{{raw}}}}x{{{{/raw}}}}",
        "{{a\u{a0}}} {{b }",
    ] {
        assert!(!is_plain(source), "{:?}", source);
    }
}

#[test]
fn words_of_the_engine_are_no_keys() {
    for word in [
        "if", "unless", "each", "with", "lookup", "raw", "log", "eq", "ne", "gt", "gte", "lt",
        "lte", "and", "or", "not", "this", "else",
    ] {
        assert!(!is_plain(&format!("{{{{{}}}}}", word)), "{}", word);
        assert!(!is_plain(&format!("a {{{{ {} }}}} b", word)), "{}", word);
        assert!(is_plain(&format!("{{{{{}x}}}}", word)), "{}", word);
        assert!(is_plain(&format!("{{{{x{}}}}}", word)), "{}", word);
    }
}

#[test]
fn placeholder_named_like_a_helper_is_never_rendered_blank() {
    assert_eq!(rendered("[{{log}}]", &[]), Err(refused(Flaw::ReservedKey)));
    assert_eq!(rendered("[{{log}}]", &[("log", "value")]), Err(refused(Flaw::ReservedKey)));
    assert_eq!(rendered("[{{this}}]", &[("a", "b")]), Err(refused(Flaw::ReservedKey)));
    assert_eq!(rendered("[{{ not }}]", &[]), Err(refused(Flaw::ReservedKey)));
}

#[test]
fn template_that_includes_itself_is_refused() {
    assert_eq!(
        rendered("{{#*inline \"a\"}}{{> a}}{{/inline}}{{> a}}", &[]),
        Err(refused(Flaw::NoKey))
    );
    assert_eq!(rendered("{{> input}}", &[]), Err(refused(Flaw::NoKey)));
}

#[test]
fn blocks_partials_comments_and_helper_calls_are_refused() {
    for (source, flaw) in [
        ("{{#if a}}yes{{/if}}", Flaw::NoKey),
        ("{{#each this}}{{this}}{{/each}}", Flaw::NoKey),
        ("{{> other}}", Flaw::NoKey),
        ("{{! a comment }}", Flaw::NoKey),
        ("{{{a}}}", Flaw::NoKey),
        ("{{&a}}", Flaw::NoKey),
        ("{{~a}}", Flaw::NoKey),
        ("{{a~}}", Flaw::Unclosed),
        ("{{a.b}}", Flaw::Unclosed),
        ("{{a b}}", Flaw::Unclosed),
        ("{{lookup this \"a\"}}", Flaw::Unclosed),
        ("\\{{a}}", Flaw::Escaped),
        ("{{else}}", Flaw::ReservedKey),
    ] {
        assert_eq!(rendered(source, &[("a", "1")]), Err(refused(flaw)), "{:?}", source);
    }
}

#[test]
fn first_flaw_of_a_source_is_found() {
    assert_eq!(find_flaw(""), None);
    assert_eq!(find_flaw("text {{a}} text {{ b }}"), None);
    assert_eq!(find_flaw("{{"), Some(Flaw::NoKey));
    assert_eq!(find_flaw("{{  "), Some(Flaw::NoKey));
    assert_eq!(find_flaw("{{}}"), Some(Flaw::NoKey));
    assert_eq!(find_flaw("{{a"), Some(Flaw::Unclosed));
    assert_eq!(find_flaw("{{a }"), Some(Flaw::Unclosed));
    assert_eq!(find_flaw("{{a}"), Some(Flaw::Unclosed));
    assert_eq!(find_flaw("{{log"), Some(Flaw::Unclosed));
    assert_eq!(find_flaw("{{log}}"), Some(Flaw::ReservedKey));
    assert_eq!(find_flaw("\\{{log"), Some(Flaw::Escaped));
    assert_eq!(find_flaw("\\{{"), Some(Flaw::Escaped));
    assert_eq!(find_flaw("{{a}} {{log}} {{"), Some(Flaw::ReservedKey));
    assert_eq!(find_flaw("{{a}} {{ {{log}}"), Some(Flaw::NoKey));
    assert_eq!(find_flaw("{{a}}\\{{b}} {{"), Some(Flaw::Escaped));
    assert_eq!(find_flaw("{{a}}\\ {{b}}"), None);
}

#[test]
fn each_flaw_has_its_reason() {
    assert_eq!(Flaw::Escaped.reason(), "a backslash before {{ is not supported.");
    assert_eq!(Flaw::NoKey.reason(), "{{ must be followed by the key of a placeholder.");
    assert_eq!(Flaw::Unclosed.reason(), "the key of a placeholder must be followed by }}.");
    assert_eq!(
        Flaw::ReservedKey.reason(),
        "the key of a placeholder is a word that the template engine reserves."
    );
}

#[test]
fn source_is_refused_without_a_word_of_the_parser() {
    assert_eq!(rendered("{{#if a}}yes", &[("a", "1")]), Err(refused(Flaw::NoKey)));
    assert_eq!(rendered("{{a", &[("a", "1")]), Err(refused(Flaw::Unclosed)));
    let deep = "{{#if a}}".repeat(200_000);
    assert_eq!(rendered(&deep, &[("a", "1")]), Err(refused(Flaw::NoKey)));
}

#[test]
fn keys_of_every_supported_shape_are_looked_up() {
    let pairs = [
        ("first-name", "Ada"),
        ("_x", "1"),
        ("$y", "2"),
        ("9", "3"),
        ("pr\u{e9}nom", "4"),
        ("true", "5"),
        ("as", "6"),
        ("elsewhere", "7"),
        ("-1", "8"),
        ("1e5", "9"),
        ("007", "10"),
        ("null", "11"),
        ("-", "12"),
        ("\u{1f600}", "13"),
        ("a\u{a0}b", "14"),
        ("\u{2028}", "15"),
        ("\u{feff}x", "16"),
        ("\u{85}", "17"),
        ("length", "18"),
        ("inline", "19"),
        ("helperMissing", "20"),
        ("IF", "21"),
    ];
    assert_eq!(
        rendered(
            "{{first-name}},{{ _x }},{{$y}},{{9}},{{pr\u{e9}nom}},{{true}},{{as}},{{elsewhere}}",
            &pairs
        ),
        Ok("Ada,1,2,3,4,5,6,7".to_string())
    );
    for (key, value) in pairs {
        assert_eq!(
            rendered(&format!("<{{{{ {} }}}}>", key), &pairs),
            Ok(format!("<{}>", value)),
            "{}",
            key
        );
    }
    for (key, _) in pairs {
        assert_eq!(rendered(&format!("{{{{{}}}}}", key), &[]), Err(missing(key)), "{}", key);
    }
}

#[test]
fn blanks_and_braces_around_placeholders_are_kept() {
    let pairs = [("a", "1"), ("b", "2")];
    assert_eq!(rendered(" {{a}} {{b}} ", &pairs), Ok(" 1 2 ".to_string()));
    assert_eq!(rendered("\n{{a}}\n\n{{b}}\n", &pairs), Ok("\n1\n\n2\n".to_string()));
    assert_eq!(rendered("{{a}}\t", &pairs), Ok("1\t".to_string()));
    assert_eq!(rendered("  ", &pairs), Ok("  ".to_string()));
    assert_eq!(rendered("{ {{a}} } }} {", &pairs), Ok("{ 1 } }} {".to_string()));
    assert_eq!(rendered("{{a}}}{{b}}", &pairs), Ok("1}2".to_string()));
    assert_eq!(rendered("a\\b \\ {{a}}", &pairs), Ok("a\\b \\ 1".to_string()));
}

fn escaped(value: &str) -> String {
    let mut text = String::new();
    for c in value.chars() {
        match c {
            '<' => text.push_str("&lt;"),
            '>' => text.push_str("&gt;"),
            '"' => text.push_str("&quot;"),
            '&' => text.push_str("&amp;"),
            '\'' => text.push_str("&#x27;"),
            '`' => text.push_str("&#x60;"),
            '=' => text.push_str("&#x3D;"),
            other => text.push(other),
        }
    }
    text
}

/// What a plain template is expected to render to.
fn expansion(source: &str, data: &HashMap<String, String>) -> Result<String, ProgramError> {
    let mut text = String::new();
    let mut rest = source;
    while let Some(open) = rest.find("{{") {
        text.push_str(&rest[..open]);
        let close = open + rest[open..].find("}}").unwrap();
        let key = rest[open + 2..close].trim_matches(|c| matches!(c, ' ' | '\t' | '\n' | '\r'));
        match data.get(key) {
            Some(value) => text.push_str(&escaped(value)),
            None => return Err(missing(key)),
        }
        rest = &rest[close + 2..];
    }
    text.push_str(rest);
    Ok(text)
}

/// Renders every sequence of up to `length` of the `pieces` and holds the
/// result against the expansion where the source is plain; returns how many
/// sources were plain.
fn check_all(pieces: &[&str], length: usize, data: &HashMap<String, String>) -> usize {
    let mut plain = 0;
    let mut indices: Vec<usize> = Vec::new();
    loop {
        let source: String = indices.iter().map(|&i| pieces[i]).collect();
        let outcome = render_template(Configuration::new(
            TemplateSource::Text(source.clone()),
            data.clone(),
            "out.txt".to_string(),
        ))
        .map(|rendered| rendered.result);
        if is_plain(&source) {
            plain += 1;
            assert_eq!(outcome, expansion(&source, data), "{:?}", source);
        } else {
            match outcome {
                Err(ProgramError::InvalidTemplate(_)) => {}
                other => panic!("{:?} gave {:?}", source, other),
            }
        }
        let mut at = 0;
        loop {
            if at == indices.len() {
                if indices.len() == length {
                    return plain;
                }
                indices.push(0);
                break;
            }
            indices[at] += 1;
            if indices[at] < pieces.len() {
                break;
            }
            indices[at] = 0;
            at += 1;
        }
    }
}

#[test]
fn engine_renders_every_short_plain_source_as_expected() {
    let data = substitutions(&[("a", "<1>"), ("aa", "2")]);
    let plain = check_all(&["{", "}", "a", "-", " ", "\\", "~"], 6, &data);
    assert!(plain > 1000);
}

#[test]
fn engine_renders_every_plain_sequence_of_pieces_as_expected() {
    let data = substitutions(&[("a", "x&y"), ("c", "")]);
    let pieces = [
        "{{a}}", "{{ a }}", "{{b}}", "{{c}}", "{{\na\t}}", "t", " ", "\n", "{", "}", "\\", "{{",
        "}}", "{{a", "{{{a}}}", "{{log}}", "{{#if a}}", "{{/if}}", "{{> input}}", "{{!c}}", "~",
        "{{else}}", "{{this}}",
    ];
    let plain = check_all(&pieces, 3, &data);
    assert!(plain > 1000);
}

#[test]
fn long_plain_template_is_rendered_from_start_to_end() {
    let source = "{{a}} and\n".repeat(10_000);
    let expected = "1 and\n".repeat(10_000);
    assert!(is_plain(&source));
    assert_eq!(rendered(&source, &[("a", "1")]), Ok(expected));
    let last_missing = format!("{}{{{{b}}}}", source);
    assert_eq!(rendered(&last_missing, &[("a", "1")]), Err(missing("b")));
}

#[test]
fn sentence_is_built_around_what_is_shown() {
    assert_eq!(sentence(ErrorKind::FileNotFound, "<p>"), "Couldn't find the file <p>.");
    assert_eq!(
        sentence(ErrorKind::ReadFailed, "<p>"),
        "Couldn't deserialize <p> into the expected format."
    );
    assert_eq!(sentence(ErrorKind::RenderError, "why"), "Template Render error: why.");
    assert_eq!(sentence(ErrorKind::MissingKey, "which"), "which");
    assert_eq!(
        sentence(ErrorKind::InvalidTemplate, "why"),
        "The provided template file is invalid and cannot be parsed correctly: why"
    );
    assert_eq!(
        sentence(ErrorKind::CannotOpenFileForWriting, "<p>"),
        "Couldn't open output file <p>."
    );
    assert_eq!(
        sentence(ErrorKind::CannotCreateOutputDirectories, "<p>"),
        "Failed to create directory <p>"
    );
    assert_eq!(sentence(ErrorKind::RenderError, ""), "Template Render error: .");
}

#[test]
fn engine_outcome_becomes_text_or_a_classified_error() {
    assert_eq!(
        render_result_from(EngineOutcome::Rendered("text".to_string()), "a/b.txt".to_string()),
        Ok(RenderResult { result: "text".to_string(), output_file: "a/b.txt".to_string() })
    );
    assert_eq!(
        render_result_from(EngineOutcome::Rendered(String::new()), String::new()),
        Ok(RenderResult { result: String::new(), output_file: String::new() })
    );
    assert_eq!(
        render_result_from(
            EngineOutcome::Failed("Variable \"k\" not found in strict mode.".to_string()),
            "a".to_string()
        ),
        Err(missing("k"))
    );
    assert_eq!(
        render_result_from(
            EngineOutcome::Failed("Template not found: input".to_string()),
            "a".to_string()
        ),
        Err(ProgramError::InvalidTemplate("Couldn't recognize template.".to_string()))
    );
    assert_eq!(
        render_result_from(
            EngineOutcome::Failed("Cannot include self in >".to_string()),
            "a".to_string()
        ),
        Err(ProgramError::RenderError("Cannot include self in >".to_string()))
    );
}

#[test]
fn refusal_of_the_parser_is_an_invalid_template_in_its_words() {
    assert_eq!(
        render_result_from(
            EngineOutcome::Refused("invalid handlebars syntax.".to_string()),
            "a".to_string()
        ),
        Err(ProgramError::InvalidTemplate("invalid handlebars syntax.".to_string()))
    );
    assert_eq!(
        render_result_from(
            EngineOutcome::Refused("Variable \"k\" not found".to_string()),
            "a".to_string()
        ),
        Err(ProgramError::InvalidTemplate("Variable \"k\" not found".to_string()))
    );
    assert_eq!(
        render_result_from(EngineOutcome::Refused(String::new()), String::new()),
        Err(ProgramError::InvalidTemplate(String::new()))
    );
}

#[test]
fn missing_key_names_the_key_between_quotes() {
    for key in ["name", "first-name", "$x", "pr\u{e9}nom", "a\u{a0}b", "\u{85}", "\u{1f600}"] {
        let outcome = rendered(&format!("before {{{{ {} }}}} after", key), &[("other", "1")]);
        let quoted = format!("{:?}", key);
        assert_eq!(
            outcome,
            Err(ProgramError::MissingKey(format!(
                "Variable {} not found in strict mode.",
                quoted
            ))),
            "{}",
            key
        );
        match outcome {
            Err(error) => {
                assert_eq!(error.kind(), ErrorKind::MissingKey);
                assert!(error.detail().contains(&quoted));
            }
            Ok(text) => panic!("rendered {:?}", text),
        }
    }
}

#[test]
fn first_lacking_key_is_the_one_named() {
    assert_eq!(
        rendered("{{a}} {{b}} {{c}} {{b}}", &[("a", "1")]),
        Err(missing("b"))
    );
    assert_eq!(rendered("{{c}} {{b}}", &[("a", "1")]), Err(missing("c")));
}

#[test]
fn text_is_given_exactly_where_no_key_is_lacking() {
    let data = [("a", "1"), ("b", "2")];
    assert_eq!(rendered("{{a}}{{b}}{{a}}", &data), Ok("121".to_string()));
    assert_eq!(rendered("no placeholder", &[]), Ok("no placeholder".to_string()));
    assert_eq!(rendered("{{a}}", &data[1..]), Err(missing("a")));
    assert_eq!(rendered("{{a}}{{b}}", &data[..1]), Err(missing("b")));
}

#[test]
fn plain_template_is_rendered_without_escaping_when_told_so() {
    let config = Configuration::new(
        TemplateSource::Text("{{a}} & {{ a }}".to_string()),
        substitutions(&[("a", "<'=`>")]),
        "out.txt".to_string(),
    );
    assert_eq!(
        render_template(config.clone()).unwrap().result,
        "&lt;&#x27;&#x3D;&#x60;&gt; & &lt;&#x27;&#x3D;&#x60;&gt;"
    );
    assert_eq!(
        render_template(config.with_escaping(Escaping::Off)).unwrap().result,
        "<'=`> & <'=`>"
    );
}
