//! Where the output goes and which steps lead there.

use replacer::{
    first_step, output_file_for, output_name, write_template_file, ProgramError, RenderResult,
    Step,
};

fn rendered(result: &str, output_file: &str) -> RenderResult {
    RenderResult { result: result.to_string(), output_file: output_file.to_string() }
}

fn file_step(path: &str, contents: &str) -> Step {
    Step::WriteFile { path: path.to_string(), contents: contents.to_string(), truncate: true }
}

#[test]
fn output_file_takes_the_name_of_the_template() {
    assert_eq!(output_file_for("templates/greeting.txt", "out"), "out/greeting.txt");
    assert_eq!(output_file_for("greeting.txt", "out/nested"), "out/nested/greeting.txt");
    assert_eq!(output_file_for("/abs/dir/greeting.txt", "out/"), "out/greeting.txt");
    assert_eq!(output_file_for("templates/dir/", "out"), "out/dir");
}

#[test]
fn output_file_without_a_template_name_is_called_output() {
    assert_eq!(output_file_for("..", "out"), "out/output");
    assert_eq!(output_file_for("/", "out"), "out/output");
    assert_eq!(output_file_for("", "out"), "out/output");
    assert_eq!(output_file_for("templates/..", "out"), "out/output");
}

#[test]
fn output_file_in_an_empty_directory_is_the_bare_name() {
    assert_eq!(output_file_for("templates/greeting.txt", ""), "greeting.txt");
}

#[test]
fn output_name_defaults_to_output() {
    assert_eq!(output_name(None), "output");
    assert_eq!(output_name(Some("greeting.txt".to_string())), "greeting.txt");
    assert_eq!(output_name(Some(String::new())), "");
}

#[test]
fn nested_destination_asks_for_its_whole_directory() {
    let step = write_template_file(rendered("text", "out/nested/deep/greeting.txt"));
    assert_eq!(
        step,
        Step::CreateDirectories {
            directory: "out/nested/deep".to_string(),
            rendered: rendered("text", "out/nested/deep/greeting.txt"),
            recursive: true,
        }
    );
}

#[test]
fn absolute_destination_asks_for_its_directory() {
    let step = write_template_file(rendered("text", "/greeting.txt"));
    assert_eq!(
        step,
        Step::CreateDirectories {
            directory: "/".to_string(),
            rendered: rendered("text", "/greeting.txt"),
            recursive: true,
        }
    );
}

#[test]
fn bare_file_name_skips_the_directories() {
    let step = write_template_file(rendered("text", "greeting.txt"));
    assert_eq!(
        step,
        file_step("greeting.txt", "text")
    );
}

#[test]
fn destination_without_a_parent_skips_the_directories() {
    let step = write_template_file(rendered("text", "/"));
    assert_eq!(step, file_step("/", "text"));
    let step = write_template_file(rendered("text", ""));
    assert_eq!(step, file_step("", "text"));
}

#[test]
fn first_step_goes_by_the_parent_it_is_given() {
    assert_eq!(
        first_step(rendered("text", "a/b.txt"), Some("a".to_string())),
        Step::CreateDirectories {
            directory: "a".to_string(),
            rendered: rendered("text", "a/b.txt"),
            recursive: true,
        }
    );
    assert_eq!(
        first_step(rendered("text", "b.txt"), Some(String::new())),
        file_step("b.txt", "text")
    );
    assert_eq!(
        first_step(rendered("text", "b.txt"), None),
        file_step("b.txt", "text")
    );
}

#[test]
fn every_run_is_over_after_two_actions() {
    for parent in [None, Some(String::new()), Some("out".to_string())] {
        for first in [true, false] {
            for second in [true, false] {
                let step = first_step(rendered("text", "out/b.txt"), parent.clone());
                assert!(step.after(first).after(second).is_final());
            }
        }
    }
}

#[test]
fn finished_run_stays_as_it_is() {
    let done = Step::Done { path: "out/b.txt".to_string() };
    assert_eq!(done.clone().after(true), done);
    assert_eq!(done.clone().after(false), done);
    let failed = Step::Failed { error: ProgramError::MissingKey("Variable".to_string()) };
    assert_eq!(failed.clone().after(true), failed);
    assert_eq!(failed.clone().after(false), failed);
}

#[test]
fn every_directory_is_asked_for_recursively() {
    for destination in ["out/b.txt", "new/nested/deep/b.txt", "/b.txt", "a/../b.txt"] {
        match write_template_file(rendered("text", destination)) {
            Step::CreateDirectories { recursive, .. } => assert!(recursive),
            other => panic!("no directory was asked for: {:?}", other),
        }
    }
}

#[test]
fn every_file_is_asked_for_with_truncation() {
    for parent in [None, Some(String::new()), Some("out".to_string())] {
        let mut step = first_step(rendered("text", "out/b.txt"), parent);
        let mut asked = false;
        while !step.is_final() {
            if let Step::WriteFile { truncate, .. } = &step {
                assert!(*truncate);
                asked = true;
            }
            step = step.after(true);
        }
        assert!(asked);
    }
}

#[test]
fn shorter_text_is_written_whole_to_the_same_path() {
    let long = write_template_file(rendered("a long rendered text", "b.txt"));
    let short = write_template_file(rendered("short", "b.txt"));
    assert_eq!(
        long,
        file_step("b.txt", "a long rendered text")
    );
    assert_eq!(
        short,
        file_step("b.txt", "short")
    );
    assert_eq!(short.after(true), Step::Done { path: "b.txt".to_string() });
}

#[test]
fn same_directory_is_asked_for_on_every_run() {
    let first = write_template_file(rendered("text", "new/nested/b.txt"));
    let second = write_template_file(rendered("text", "new/nested/b.txt"));
    assert_eq!(first, second);
    assert_eq!(
        first.after(true).after(true),
        Step::Done { path: "new/nested/b.txt".to_string() }
    );
    assert_eq!(
        second.after(true).after(true),
        Step::Done { path: "new/nested/b.txt".to_string() }
    );
}
