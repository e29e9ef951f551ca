use felper::error::Error;
use felper::parent::export_line;
use felper::parent::get_last_path;
use felper::parent::is_parent_target;
use felper::parent::parent_target_file;
use felper::parent::prepend_export_if_missing;
use felper::plan::dispatch;
use felper::plan::plan_modular;
use felper::plan::Command;
use felper::plan::Outcome;
use felper::plan::Step;
use felper::text::available_commands_text;
use felper::text::generate_export_content;
use felper::text::generate_module_content;
use felper::text::generate_page_content;
use felper::text::generate_widgets_content;
use felper::text::to_pascal_case;

fn step_path(step: &Step) -> Option<&String> {
    match step {
        Step::MakeDir { path } => Some(path),
        Step::WriteFileIfAbsent { path, .. } => Some(path),
        _ => None,
    }
}

#[test]
fn test_list_command() {
    let text = available_commands_text();
    assert!(text.contains("Available commands:"));
    assert!(text.contains("modular <file_name>"));
    assert!(text.contains("list"));
}

#[test]
fn test_modular_command() {
    let file_name = "test_feature";
    let steps = plan_modular(file_name, true, true, false);

    // The feature directory, its bloc and widgets directories, and the
    // three generated files are all planned.
    assert!(matches!(&steps[0], Step::MakeDir { path } if path == "test_feature"));
    assert!(steps
        .iter()
        .any(|s| matches!(s, Step::MakeDir { path } if path == "test_feature/bloc")));
    assert!(steps
        .iter()
        .any(|s| matches!(s, Step::MakeDir { path } if path == "test_feature/widgets")));
    assert!(steps.iter().any(
        |s| matches!(step_path(s), Some(p) if p == &format!("{}/{}_page.dart", file_name, file_name))
    ));
    assert!(steps.iter().any(
        |s| matches!(step_path(s), Some(p) if p == &format!("{}/{}_module.dart", file_name, file_name))
    ));
    assert!(steps.iter().any(
        |s| matches!(step_path(s), Some(p) if p == &format!("{}/{}.dart", file_name, file_name))
    ));

    // The main export file references the bloc, the widgets aggregator,
    // the page and the module.
    let export_content = generate_export_content(file_name);
    assert!(export_content.contains(&format!("export 'bloc/{}_bloc.dart';", file_name)));
    assert!(export_content.contains("export 'widgets/widgets.dart';"));
    assert!(export_content.contains(&format!("export '{}_page.dart';", file_name)));
    assert!(export_content.contains(&format!("export '{}_module.dart';", file_name)));
}

#[test]
fn test_modular_command_without_flags() {
    let file_name = "test_feature_no_flags";
    let steps = plan_modular(file_name, false, false, false);

    assert!(matches!(&steps[0], Step::MakeDir { path } if path == "test_feature_no_flags"));
    assert!(!steps
        .iter()
        .any(|s| matches!(step_path(s), Some(p) if p.contains("bloc"))));
    assert!(!steps
        .iter()
        .any(|s| matches!(step_path(s), Some(p) if p.contains("widgets"))));
    assert!(steps.iter().any(
        |s| matches!(step_path(s), Some(p) if p == &format!("{}/{}_page.dart", file_name, file_name))
    ));
    assert!(steps.iter().any(
        |s| matches!(step_path(s), Some(p) if p == &format!("{}/{}_module.dart", file_name, file_name))
    ));
    assert!(steps.iter().any(
        |s| matches!(step_path(s), Some(p) if p == &format!("{}/{}.dart", file_name, file_name))
    ));
}

#[test]
fn pascal_case_examples() {
    assert_eq!(to_pascal_case("foo_bar"), "FooBar");
    assert_eq!(to_pascal_case("foo__bar"), "FooBar");
    assert_eq!(to_pascal_case(""), "");
    assert_eq!(to_pascal_case("foo"), "Foo");
    assert_eq!(to_pascal_case("_foo_"), "Foo");
    assert_eq!(to_pascal_case("a_b_c"), "ABC");
}

#[test]
fn page_content_exact() {
    let expected = "import 'package:flutter/material.dart';\nimport 'package:flutter_modular/flutter_modular.dart';\n\n/// [HomePage] the display page for this feature\nclass HomePage extends StatelessWidget {\n  /// [HomePage] constructor.\n  const HomePage({super.key});\n\n  /// [routeName] the route name for this page\n  static const routeName = '/home';\n\n  /// our route, this should generally use the modular route, and\n  /// our basic route callable item\n  static void route() {\n    Modular.to.pushNamed(routeName);\n  }\n\n  @override\n  Widget build(BuildContext context) {\n    return const Scaffold(\n      body: Text(\n        routeName,\n      ),\n    );\n  }\n}";
    assert_eq!(generate_page_content("home"), expected);
}

#[test]
fn module_content_exact() {
    let expected = "import 'package:flutter_modular/flutter_modular.dart';\nimport 'home.dart';\n\n/// [HomeModule] is a [Module] that provides the application's dependencies.\nclass HomeModule extends Module {\n  @override\n  void binds(Injector i) {\n    i.addLazySingleton<HomeBloc>(() => HomeBloc()..add(const HomeEvent.started()));\n  }\n\n  @override\n  void routes(RouteManager r) {\n    r.child(\n      '/',\n      child: (context) => const HomePage(),\n    );\n  }\n}";
    assert_eq!(generate_module_content("home"), expected);
}

#[test]
fn export_content_for_widget() {
    let content = generate_export_content("widget");
    assert!(content.contains("export 'bloc/widget_bloc.dart';"));
    assert!(content.contains("export 'widgets/widgets.dart';"));
    assert!(content.contains("export 'widget_page.dart';"));
    assert!(content.contains("export 'widget_module.dart';"));
    let expected = "export 'bloc/widget_bloc.dart';\n                export 'widgets/widgets.dart';\n                export 'widget_page.dart';\n                export 'widget_module.dart';\n                // Add more export lines as needed\n                ";
    assert_eq!(content, expected);
}

#[test]
fn widgets_content_exact() {
    assert_eq!(generate_widgets_content(), "/// export \"your_widget.dart\";");
}

#[test]
fn export_line_exact() {
    assert_eq!(export_line("new"), "export 'new/new.dart';\n");
}

#[test]
fn parent_update_prepends_once() {
    let old_content = "export 'old/old.dart';\n";
    let updated = prepend_export_if_missing("new", old_content);
    assert_eq!(
        updated.as_deref(),
        Some("export 'new/new.dart';\nexport 'old/old.dart';\n")
    );
    let again = prepend_export_if_missing("new", updated.as_deref().unwrap());
    assert_eq!(again, None);
}

#[test]
fn parent_update_on_empty_content() {
    let updated = prepend_export_if_missing("new", "");
    assert_eq!(updated.as_deref(), Some("export 'new/new.dart';\n"));
}

#[test]
fn last_path_components() {
    assert_eq!(get_last_path("/home/user/foo"), "foo");
    assert_eq!(get_last_path("foo"), "foo");
    assert_eq!(get_last_path(""), "");
    assert_eq!(get_last_path("a/b/"), "");
}

#[test]
fn parent_target_file_name() {
    assert_eq!(parent_target_file("/work/foo"), "foo.dart");
}

#[test]
fn parent_target_matching() {
    assert!(is_parent_target("./foo.dart", "foo.dart"));
    assert!(!is_parent_target("./bar.dart", "foo.dart"));
    assert!(!is_parent_target("./sub/foo.dart/x", "foo.dart"));
}

#[test]
fn error_messages() {
    assert_eq!(Error::IO(String::from("broken pipe")).message(), "broken pipe");
    assert_eq!(Error::MasonError(String::from("detail")).message(), "Mason");
    assert_eq!(Error::BuildRunnerError(String::from("detail")).message(), "BuildRunner");
}

#[test]
fn dispatch_list_prints_and_plans_nothing() {
    match dispatch(&Command::List) {
        Outcome::Print(text) => {
            assert!(text.contains("Available commands:"));
        }
        Outcome::Execute(_) => panic!("list must not plan any step"),
    }
}

#[test]
fn dispatch_modular_plans_steps() {
    let cmd = Command::Modular {
        name: String::from("thing"),
        bloc: false,
        widgets: false,
        run: false,
    };
    match dispatch(&cmd) {
        Outcome::Execute(steps) => {
            assert_eq!(steps.len(), 5);
            assert!(matches!(&steps[0], Step::MakeDir { path } if path == "thing"));
            assert!(matches!(&steps[4], Step::UpdateParentExports { name } if name == "thing"));
        }
        Outcome::Print(_) => panic!("modular must plan steps"),
    }
}

#[test]
fn run_flag_appends_build_runner() {
    let steps = plan_modular("thing", false, false, true);
    assert_eq!(steps.len(), 6);
    assert!(matches!(&steps[5], Step::RunBuildRunner { dir } if dir == "thing"));
    let without = plan_modular("thing", false, false, false);
    assert!(!without.iter().any(|s| matches!(s, Step::RunBuildRunner { .. })));
}

#[test]
fn bloc_flag_plans_mason_sequence() {
    let steps = plan_modular("thing", true, false, false);
    let mason: Vec<(&String, &Vec<String>)> = steps
        .iter()
        .filter_map(|s| match s {
            Step::RunMason { dir, args } => Some((dir, args)),
            _ => None,
        })
        .collect();
    assert_eq!(mason.len(), 3);
    assert_eq!(mason[0].0, "thing/bloc");
    assert_eq!(mason[0].1, &vec![String::from("init")]);
    assert_eq!(mason[1].1, &vec![String::from("add"), String::from("bloc")]);
    assert_eq!(
        mason[2].1,
        &vec![
            String::from("make"),
            String::from("bloc"),
            String::from("--name"),
            String::from("thing"),
            String::from("--style"),
            String::from("freezed"),
        ]
    );
}
