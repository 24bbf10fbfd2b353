use project_manager::error::{Error, ErrorKind};
use project_manager::launch::{
    first_step, launch_plan, list, open_project, requested_project, step_after, RunResult, Step,
};
use project_manager::model::{Command, ProjectType};
use project_manager::paths::{join_path, marker_dir_path, marker_file_path, path_file_name};
use project_manager::register::{register, Registry, TypeCatalog};
use project_manager::table::Table;
use project_manager::template::{render_argument, replace_text};

fn two_step_type() -> ProjectType {
    ProjectType::new(
        "web".to_string(),
        vec![
            Command::new("git".to_string(), vec!["-C".to_string(), "{path}".to_string(), "pull".to_string()]),
            Command::new("code".to_string(), vec!["--folder={path}/src".to_string()]),
        ],
    )
}

#[test]
fn list_reports_each_project_in_order() {
    let cat: TypeCatalog = Table::new();
    let mut reg: Registry = Table::new();
    register(&mut reg, &cat, "/a", None, Some("A"), true).unwrap();
    register(&mut reg, &cat, "/b", None, Some("B"), true).unwrap();
    assert_eq!(list(&reg), vec!["A at /a".to_string(), "B at /b".to_string()]);
}

#[test]
fn list_of_empty_registry_is_empty() {
    let reg: Registry = Table::new();
    assert!(list(&reg).is_empty());
}

#[test]
fn open_project_finds_the_path() {
    let cat: TypeCatalog = Table::new();
    let mut reg: Registry = Table::new();
    register(&mut reg, &cat, "/work/site", None, None, true).unwrap();
    assert_eq!(open_project(&reg, "site").unwrap(), "/work/site");
    let e = open_project(&reg, "nope").unwrap_err();
    assert_eq!(e.kind, ErrorKind::ProjectNotFound("nope".to_string()));
}

#[test]
fn plan_renders_each_command() {
    let t = two_step_type();
    let plan = launch_plan("/work/site", Some(&t)).unwrap();
    assert_eq!(plan.len(), 2);
    assert_eq!(plan[0].program, "git");
    assert_eq!(plan[0].arguments, vec!["-C".to_string(), "/work/site".to_string(), "pull".to_string()]);
    assert_eq!(plan[0].directory, "/work/site");
    assert_eq!(plan[1].program, "code");
    assert_eq!(plan[1].arguments, vec!["--folder=/work/site/src".to_string()]);
}

#[test]
fn plan_without_marker_reports_missing_metadata() {
    let e = launch_plan("/gone", None).unwrap_err();
    assert_eq!(e.kind, ErrorKind::MetadataMissing("/gone".to_string()));
}

#[test]
fn failing_first_command_stops_the_launch() {
    let t = two_step_type();
    let plan = launch_plan("/p", Some(&t)).unwrap();
    assert!(matches!(first_step(&plan), Step::Run(0)));
    match step_after(&plan, 0, RunResult::Exited(1)) {
        Step::Failed(Error { kind: ErrorKind::CommandFailure { index, program, result } }) => {
            assert_eq!(index, 0);
            assert_eq!(program, "git");
            assert_eq!(result, RunResult::Exited(1));
        }
        other => panic!("unexpected step {:?}", other),
    }
    assert!(matches!(step_after(&plan, 0, RunResult::NotStarted), Step::Failed(_)));
    assert!(matches!(step_after(&plan, 1, RunResult::Terminated), Step::Failed(_)));
}

#[test]
fn successful_commands_run_in_order() {
    let t = two_step_type();
    let plan = launch_plan("/p", Some(&t)).unwrap();
    assert!(matches!(step_after(&plan, 0, RunResult::Exited(0)), Step::Run(1)));
    assert!(matches!(step_after(&plan, 1, RunResult::Exited(0)), Step::Finished));
    let empty = launch_plan("/p", Some(&ProjectType::new("none".to_string(), vec![]))).unwrap();
    assert!(matches!(first_step(&empty), Step::Finished));
}

#[test]
fn first_requested_project_is_used() {
    let names = vec!["one".to_string(), "two".to_string()];
    assert_eq!(requested_project(&names).unwrap(), "one");
    let e = requested_project(&vec![]).unwrap_err();
    assert_eq!(e.kind, ErrorKind::NoProjectGiven);
    assert_eq!(e.message(), "Project Manager failed");
}

#[test]
fn placeholder_is_replaced_everywhere() {
    assert_eq!(render_argument("{path}:{path}", "/x"), "/x:/x");
    assert_eq!(render_argument("plain", "/x"), "plain");
    assert_eq!(render_argument("{pat", "/x"), "{pat");
    assert_eq!(render_argument("", "/x"), "");
    assert_eq!(replace_text("aaa", "aa", "b"), "ba");
    assert_eq!(replace_text("héllo", "l", "L"), "héLLo");
}

#[test]
fn paths_join_with_one_separator() {
    assert_eq!(join_path("/a", "b"), "/a/b");
    assert_eq!(join_path("/a/", "b"), "/a/b");
    assert_eq!(join_path("", "b"), "b");
    assert_eq!(marker_dir_path("/p"), "/p/.project_manager");
    assert_eq!(marker_file_path("/p"), "/p/.project_manager/project.json");
}

#[test]
fn file_names_follow_path_components() {
    assert_eq!(path_file_name("/home/u/my-app"), Some("my-app".to_string()));
    assert_eq!(path_file_name("rel"), Some("rel".to_string()));
    assert_eq!(path_file_name("a//"), Some("a".to_string()));
    assert_eq!(path_file_name(""), None);
    assert_eq!(path_file_name("."), None);
    assert_eq!(path_file_name("./"), None);
    assert_eq!(path_file_name(".."), None);
    assert_eq!(path_file_name("/"), None);
}

#[test]
fn messages_name_the_value() {
    let e = Error::new(ErrorKind::UnknownProjectType("cobol".to_string()));
    assert_eq!(e.message(), "unknown project type: cobol");
    let e = Error::new(ErrorKind::MissingProjectType);
    assert_eq!(e.message(), "no project file was found and no project type was set");
}

#[test]
fn every_kind_has_a_message() {
    let failed = Error::new(ErrorKind::CommandFailure {
        index: 0,
        program: "git".to_string(),
        result: RunResult::Exited(2),
    });
    assert_eq!(failed.message(), "a command failed: git");
    assert_eq!(
        Error::new(ErrorKind::ConfigurationMissing).message(),
        "the catalog of project types is missing"
    );
    assert_eq!(
        Error::new(ErrorKind::IoFailure("disk full".to_string())).message(),
        "input or output failed: disk full"
    );
    assert_eq!(
        Error::new(ErrorKind::ProjectNotFound("x".to_string())).message(),
        "no project is registered as: x"
    );
    assert_eq!(
        Error::new(ErrorKind::MetadataMissing("/p".to_string())).message(),
        "no project file was found in: /p"
    );
    assert_eq!(
        Error::new(ErrorKind::InvalidPath("/".to_string())).message(),
        "no project name can be derived from the path: /"
    );
}
